//! The export serializer: a versioned, deterministic document built from the
//! current buffer, for download by the user.
//!
//! The document carries a fixed schema version, the device name, a
//! caller-supplied generation timestamp and the entry count, followed by the
//! entries in ascending row-major order, each with its position, display
//! label and numeric code. This is a one-way transform: the system defines no
//! import path for it.

use vstd::prelude::*;
use vstd::string::StringSliceAdditionalSpecFns;
use vstd::utf8::encode_utf8;

use crate::buffer::{KeyEntry, KeymapBuffer};
use crate::keycodes::{byte_of, label_view};
use crate::wire::{dec_digits, push_num};

verus! {

pub const BACKSLASH: u8 = 0x5C;

pub const DQUOTE: u8 = 0x22;

/// The lower-case hexadecimal digit for a value below sixteen.
pub open spec fn hex_digit(n: u8) -> u8 {
    if n < 10 {
        (0x30 + n) as u8
    } else {
        (0x57 + n) as u8
    }
}

/// How one byte appears inside a JSON string: quote and backslash get a
/// backslash escape, control bytes a `\u00XX` escape, and every other byte
/// stands as itself (multi-byte UTF-8 sequences pass through unchanged).
pub open spec fn escaped_byte(b: u8) -> Seq<u8> {
    if b == DQUOTE {
        seq![BACKSLASH, DQUOTE]
    } else if b == BACKSLASH {
        seq![BACKSLASH, BACKSLASH]
    } else if b < 0x20 {
        seq![BACKSLASH, 0x75, 0x30, 0x30, hex_digit(b / 16), hex_digit(b % 16)]
    } else {
        seq![b]
    }
}

/// A byte string escaped for inclusion in a JSON string.
pub open spec fn escaped(s: Seq<u8>) -> Seq<u8>
    decreases s.len(),
{
    if s.len() == 0 {
        Seq::<u8>::empty()
    } else {
        escaped(s.drop_last()) + escaped_byte(s.last())
    }
}

fn push_escaped(out: &mut Vec<u8>, s: &[u8])
    ensures
        final(out)@ == old(out)@ + escaped(s@),
{
    let n = s.len();
    let mut i: usize = 0;
    proof {
        assert(out@ =~= old(out)@ + escaped(s@.take(0)));
    }
    while i < n
        invariant
            i <= n == s@.len(),
            out@ == old(out)@ + escaped(s@.take(i as int)),
        decreases n - i,
    {
        let b = s[i];
        if b == DQUOTE {
            out.push(BACKSLASH);
            out.push(DQUOTE);
        } else if b == BACKSLASH {
            out.push(BACKSLASH);
            out.push(BACKSLASH);
        } else if b < 0x20 {
            out.push(BACKSLASH);
            out.push(0x75);
            out.push(0x30);
            out.push(0x30);
            let hi = b / 16;
            let lo = b % 16;
            out.push(if hi < 10 { 0x30 + hi } else { 0x57 + hi });
            out.push(if lo < 10 { 0x30 + lo } else { 0x57 + lo });
        } else {
            out.push(b);
        }
        proof {
            assert(s@.take(i + 1).drop_last() =~= s@.take(i as int));
            assert(s@.take(i + 1).last() == s@[i as int]);
            assert(out@ =~= old(out)@ + escaped(s@.take(i + 1)));
        }
        i += 1;
    }
    proof {
        assert(s@.take(n as int) =~= s@);
    }
}

/// One entry of the export document.
pub open spec fn render_export_entry(e: KeyEntry) -> Seq<u8> {
    "{\"position\":[".spec_bytes() + dec_digits(e.row as int) + ",".spec_bytes() + dec_digits(
        e.col as int,
    ) + "],\"label\":\"".spec_bytes() + escaped(encode_utf8(label_view(e.code)))
        + "\",\"keycode\":".spec_bytes() + dec_digits(byte_of(e.code) as int) + "}".spec_bytes()
}

/// The export document's entries from index `i` on, comma-separated.
pub open spec fn render_export_entries_from(s: Seq<KeyEntry>, i: int) -> Seq<u8>
    decreases s.len() - i,
{
    if i < 0 || i >= s.len() {
        Seq::<u8>::empty()
    } else if i == s.len() - 1 {
        render_export_entry(s[i])
    } else {
        render_export_entry(s[i]) + ",".spec_bytes() + render_export_entries_from(s, i + 1)
    }
}

/// The whole export document over a buffer's sorted entries and the
/// generation timestamp.
pub open spec fn render_export(entries: Seq<KeyEntry>, stamp: Seq<u8>) -> Seq<u8> {
    "{\"metadata\":{\"version\":\"1.0\",\"keyboard\":\"Dactyl Manuform 5x7\",\"exported_at\":\"".spec_bytes()
        + escaped(stamp) + "\",\"total_keys\":".spec_bytes() + dec_digits(entries.len() as int)
        + "},\"keys\":[".spec_bytes() + render_export_entries_from(entries, 0)
        + "]}".spec_bytes()
}

fn push_export_entry(out: &mut Vec<u8>, e: KeyEntry)
    ensures
        final(out)@ == old(out)@ + render_export_entry(e),
{
    out.extend_from_slice("{\"position\":[".as_bytes());
    push_num(out, e.row);
    out.extend_from_slice(",".as_bytes());
    push_num(out, e.col);
    out.extend_from_slice("],\"label\":\"".as_bytes());
    let label = e.code.label();
    push_escaped(out, label.as_bytes());
    out.extend_from_slice("\",\"keycode\":".as_bytes());
    push_num(out, e.code.encode_byte() as usize);
    out.extend_from_slice("}".as_bytes());
    proof {
        assert(final(out)@ =~= old(out)@ + render_export_entry(e));
    }
}

/// Encode a buffer and a generation timestamp into the export document's
/// JSON bytes.
pub fn render_export_json(b: &KeymapBuffer, exported_at: &str) -> (r: Vec<u8>)
    ensures
        r@ == render_export(b.seq(), exported_at.spec_bytes()),
{
    let mut out: Vec<u8> = Vec::new();
    out.extend_from_slice(
        "{\"metadata\":{\"version\":\"1.0\",\"keyboard\":\"Dactyl Manuform 5x7\",\"exported_at\":\"".as_bytes(),
    );
    push_escaped(&mut out, exported_at.as_bytes());
    out.extend_from_slice("\",\"total_keys\":".as_bytes());
    push_num(&mut out, b.len());
    out.extend_from_slice("},\"keys\":[".as_bytes());
    let ghost head = out@;
    let n = b.len();
    let mut i: usize = 0;
    while i < n
        invariant
            n == b.seq().len(),
            i <= n,
            out@ + render_export_entries_from(b.seq(), i as int) =~= head
                + render_export_entries_from(b.seq(), 0),
        decreases n - i,
    {
        let e = b.entry_at(i);
        let ghost before = out@;
        push_export_entry(&mut out, e);
        if i + 1 < n {
            out.extend_from_slice(",".as_bytes());
            proof {
                assert(out@ + render_export_entries_from(b.seq(), i + 1) =~= before
                    + render_export_entries_from(b.seq(), i as int));
            }
        } else {
            proof {
                assert(render_export_entries_from(b.seq(), i as int) == render_export_entry(e));
                assert(out@ + render_export_entries_from(b.seq(), i + 1) =~= before
                    + render_export_entries_from(b.seq(), i as int));
            }
        }
        i += 1;
    }
    out.extend_from_slice("]}".as_bytes());
    proof {
        assert(out@ =~= render_export(b.seq(), exported_at.spec_bytes()));
    }
    out
}

/// One row of the export document as a value: a position, the display label
/// of the code bound there, and the code's numeric identifier.
pub struct ExportEntry {
    pub row: usize,
    pub col: usize,
    pub label: String,
    pub keycode: u8,
}

/// The export document's header.
pub struct ExportMetadata {
    pub version: String,
    pub keyboard: String,
    pub exported_at: String,
    pub total_keys: usize,
}

/// The export document: header plus entries in ascending row-major order.
pub struct ExportDocument {
    pub metadata: ExportMetadata,
    pub keys: Vec<ExportEntry>,
}

/// Build the export document over a buffer: a read-only projection of its
/// entries, in their sorted order.
pub fn export_document(b: &KeymapBuffer, exported_at: &str) -> (d: ExportDocument)
    ensures
        d.metadata.version@ == "1.0"@,
        d.metadata.keyboard@ == "Dactyl Manuform 5x7"@,
        d.metadata.exported_at@ == exported_at@,
        d.metadata.total_keys == b.seq().len(),
        d.keys@.len() == b.seq().len(),
        forall|i: int|
            #![auto]
            0 <= i < b.seq().len() ==> d.keys@[i].row == b.seq()[i].row && d.keys@[i].col
                == b.seq()[i].col && d.keys@[i].label@ == label_view(b.seq()[i].code)
                && d.keys@[i].keycode == byte_of(b.seq()[i].code),
{
    let n = b.len();
    let mut keys: Vec<ExportEntry> = Vec::new();
    let mut i: usize = 0;
    while i < n
        invariant
            n == b.seq().len(),
            i <= n,
            keys@.len() == i,
            forall|k: int|
                #![auto]
                0 <= k < i ==> keys@[k].row == b.seq()[k].row && keys@[k].col == b.seq()[k].col
                    && keys@[k].label@ == label_view(b.seq()[k].code) && keys@[k].keycode
                    == byte_of(b.seq()[k].code),
        decreases n - i,
    {
        let e = b.entry_at(i);
        keys.push(
            ExportEntry {
                row: e.row,
                col: e.col,
                label: e.code.label_string(),
                keycode: e.code.encode_byte(),
            },
        );
        i += 1;
    }
    ExportDocument {
        metadata: ExportMetadata {
            version: "1.0".to_owned(),
            keyboard: "Dactyl Manuform 5x7".to_owned(),
            exported_at: exported_at.to_owned(),
            total_keys: n,
        },
        keys,
    }
}

} // verus!
