//! The persistence wire format: the JSON value stored under the keymap's
//! storage key.
//!
//! Two shapes are accepted, tried in this order: an array of
//! `[[row, col], code]` triples (the preferred shape, and the one written),
//! and a JSON object whose keys spell `"row,col"` with the code as the value
//! (a legacy shape kept for backward compatibility). A code is written as
//! its numeric identifier and read back either as a number or, for
//! compatibility with stores written by earlier versions, as a quoted
//! canonical variant name. Anything else is corrupt. The grammar is defined
//! by the specification functions below; the executable parser and renderer
//! are proved against them.

use vstd::prelude::*;

use crate::buffer::{entry_map, KeyEntry, KeymapBuffer};
use crate::keycodes::{byte_of, usage_of_byte, usage_of_name, KeyboardUsage};

verus! {

pub const LBRACKET: u8 = 0x5B;

pub const RBRACKET: u8 = 0x5D;

pub const LBRACE: u8 = 0x7B;

pub const RBRACE: u8 = 0x7D;

pub const COMMA: u8 = 0x2C;

pub const QUOTE: u8 = 0x22;

pub const COLON: u8 = 0x3A;

/// JSON insignificant whitespace: space, tab, line feed, carriage return.
pub open spec fn is_ws(b: u8) -> bool {
    b == 0x20 || b == 0x09 || b == 0x0A || b == 0x0D
}

/// An ASCII decimal digit.
pub open spec fn is_digit(b: u8) -> bool {
    0x30 <= b <= 0x39
}

/// The first index at or after `i` that does not hold whitespace.
pub open spec fn skip_ws(s: Seq<u8>, i: int) -> int
    decreases s.len() - i,
{
    if i < s.len() && is_ws(s[i]) {
        skip_ws(s, i + 1)
    } else {
        i
    }
}

pub proof fn lemma_skip_ws_bounds(s: Seq<u8>, i: int)
    requires
        0 <= i <= s.len(),
    ensures
        i <= skip_ws(s, i) <= s.len(),
    decreases s.len() - i,
{
    if i < s.len() && is_ws(s[i]) {
        lemma_skip_ws_bounds(s, i + 1);
    }
}

/// The first index at or after `i` that does not hold a digit.
pub open spec fn digits_end(s: Seq<u8>, i: int) -> int
    decreases s.len() - i,
{
    if i < s.len() && is_digit(s[i]) {
        digits_end(s, i + 1)
    } else {
        i
    }
}

pub proof fn lemma_digits_end_bounds(s: Seq<u8>, i: int)
    requires
        0 <= i <= s.len(),
    ensures
        i <= digits_end(s, i) <= s.len(),
    decreases s.len() - i,
{
    if i < s.len() && is_digit(s[i]) {
        lemma_digits_end_bounds(s, i + 1);
    }
}

/// The value of the decimal digit run `s[i..j)`.
pub open spec fn digits_val(s: Seq<u8>, i: int, j: int) -> int
    decreases j - i,
{
    if i >= j {
        0
    } else {
        digits_val(s, i, j - 1) * 10 + s[j - 1] - 0x30
    }
}

/// A number token: optional leading whitespace, then at least one digit.
/// Yields the value and the index just past the digits.
pub open spec fn spec_num(s: Seq<u8>, i: int) -> Option<(int, int)> {
    let j = skip_ws(s, i);
    let k = digits_end(s, j);
    if k == j {
        None
    } else {
        Some((digits_val(s, j, k), k))
    }
}

pub proof fn lemma_num_bounds(s: Seq<u8>, i: int)
    requires
        0 <= i <= s.len(),
        spec_num(s, i) is Some,
    ensures
        i < spec_num(s, i)->Some_0.1 <= s.len(),
{
    lemma_skip_ws_bounds(s, i);
    lemma_digits_end_bounds(s, skip_ws(s, i));
}

/// A punctuation token: optional leading whitespace, then the given byte.
/// Yields the index just past it.
pub open spec fn spec_expect(s: Seq<u8>, i: int, b: u8) -> Option<int> {
    let j = skip_ws(s, i);
    if j < s.len() && s[j] == b {
        Some(j + 1)
    } else {
        None
    }
}

pub proof fn lemma_expect_bounds(s: Seq<u8>, i: int, b: u8)
    requires
        0 <= i <= s.len(),
        spec_expect(s, i, b) is Some,
    ensures
        i < spec_expect(s, i, b)->Some_0 <= s.len(),
{
    lemma_skip_ws_bounds(s, i);
}

fn x_is_ws(b: u8) -> (r: bool)
    ensures
        r == is_ws(b),
{
    b == 0x20 || b == 0x09 || b == 0x0A || b == 0x0D
}

fn x_is_digit(b: u8) -> (r: bool)
    ensures
        r == is_digit(b),
{
    0x30 <= b && b <= 0x39
}

fn x_skip_ws(s: &Vec<u8>, i: usize) -> (j: usize)
    requires
        i <= s@.len(),
    ensures
        j == skip_ws(s@, i as int),
        i <= j <= s@.len(),
{
    let n = s.len();
    let mut j = i;
    while j < n && x_is_ws(s[j])
        invariant
            i <= j <= n == s@.len(),
            skip_ws(s@, i as int) == skip_ws(s@, j as int),
        decreases n - j,
    {
        j += 1;
    }
    j
}

/// What scanning a number token yields: no digits at all, a value too large
/// for `usize`, or the value itself, each with the index just past the token.
enum NumScan {
    Missing,
    TooBig(usize),
    Val(usize, usize),
}

fn x_num(s: &Vec<u8>, i: usize) -> (r: NumScan)
    requires
        i <= s@.len(),
    ensures
        (match r {
            NumScan::Missing => spec_num(s@, i as int) is None,
            NumScan::TooBig(j) => spec_num(s@, i as int) is Some && spec_num(
                s@,
                i as int,
            )->Some_0.0 > usize::MAX && spec_num(s@, i as int)->Some_0.1 == j as int && i < j
                <= s@.len(),
            NumScan::Val(v, j) => spec_num(s@, i as int) == Some((v as int, j as int)) && i < j
                <= s@.len(),
        }),
{
    let j = x_skip_ws(s, i);
    x_num_bare(s, j)
}

fn x_expect(s: &Vec<u8>, i: usize, b: u8) -> (r: Option<usize>)
    requires
        i <= s@.len(),
    ensures
        (match r {
            None => spec_expect(s@, i as int, b) is None,
            Some(j) => spec_expect(s@, i as int, b) == Some(j as int) && i < j <= s@.len(),
        }),
{
    let j = x_skip_ws(s, i);
    if j < s.len() && s[j] == b {
        Some(j + 1)
    } else {
        None
    }
}

/// The first index at or after `i` that holds the closing quote of a name.
pub open spec fn name_end(s: Seq<u8>, i: int) -> int
    decreases s.len() - i,
{
    if i < s.len() && s[i] != QUOTE {
        name_end(s, i + 1)
    } else {
        i
    }
}

pub proof fn lemma_name_end_bounds(s: Seq<u8>, i: int)
    requires
        0 <= i <= s.len(),
    ensures
        i <= name_end(s, i) <= s.len(),
    decreases s.len() - i,
{
    if i < s.len() && s[i] != QUOTE {
        lemma_name_end_bounds(s, i + 1);
    }
}

/// A code token: either a numeric identifier within one byte, or (for
/// compatibility with stores written by earlier versions) a quoted canonical
/// variant name. Yields the code's byte and the index just past the token.
pub open spec fn spec_code(s: Seq<u8>, i: int) -> Option<(u8, int)> {
    match spec_num(s, i) {
        Some((v, j)) => if v > 255 {
            None
        } else {
            Some((v as u8, j))
        },
        None => match spec_expect(s, i, QUOTE) {
            None => None,
            Some(j) => {
                let k = name_end(s, j);
                if k < s.len() {
                    match usage_of_name(s.subrange(j, k)) {
                        Some(c) => Some((byte_of(c), k + 1)),
                        None => None,
                    }
                } else {
                    None
                }
            },
        },
    }
}

pub proof fn lemma_code_bounds(s: Seq<u8>, i: int)
    requires
        0 <= i <= s.len(),
        spec_code(s, i) is Some,
    ensures
        i < spec_code(s, i)->Some_0.1 <= s.len(),
{
    if spec_num(s, i) is Some {
        lemma_num_bounds(s, i);
    } else {
        lemma_expect_bounds(s, i, QUOTE);
        let j = spec_expect(s, i, QUOTE)->Some_0;
        lemma_name_end_bounds(s, j);
    }
}

fn x_name_end(s: &Vec<u8>, i: usize) -> (j: usize)
    requires
        i <= s@.len(),
    ensures
        j == name_end(s@, i as int),
        i <= j <= s@.len(),
{
    let n = s.len();
    let mut j = i;
    while j < n && s[j] != QUOTE
        invariant
            i <= j <= n == s@.len(),
            name_end(s@, i as int) == name_end(s@, j as int),
        decreases n - j,
    {
        j += 1;
    }
    j
}

fn x_code(s: &Vec<u8>, i: usize) -> (r: Option<(u8, usize)>)
    requires
        i <= s@.len(),
    ensures
        (match r {
            None => spec_code(s@, i as int) is None,
            Some((c, j)) => spec_code(s@, i as int) == Some((c, j as int)) && i < j <= s@.len(),
        }),
{
    match x_num(s, i) {
        NumScan::Val(v, j) => {
            if v > 255 {
                None
            } else {
                Some((v as u8, j))
            }
        },
        NumScan::TooBig(_) => None,
        NumScan::Missing => {
            let j = match x_expect(s, i, QUOTE) {
                None => {
                    return None;
                },
                Some(v) => v,
            };
            let k = x_name_end(s, j);
            if k == s.len() {
                return None;
            }
            let name: &[u8] = &s.as_slice()[j..k];
            proof {
                assert(name@ == s@.subrange(j as int, k as int));
            }
            match KeyboardUsage::decode_name(name) {
                None => None,
                Some(c) => Some((c.encode_byte(), k + 1)),
            }
        },
    }
}

/// One stored entry in the array shape: `[[row, col], code]`, with row and
/// column within `usize` and the code within one byte.
pub open spec fn spec_entry(s: Seq<u8>, i: int) -> Option<((usize, usize, u8), int)> {
    match spec_expect(s, i, LBRACKET) {
        None => None,
        Some(i1) => match spec_expect(s, i1, LBRACKET) {
            None => None,
            Some(i2) => match spec_num(s, i2) {
                None => None,
                Some((row, i3)) => if row > usize::MAX {
                    None
                } else {
                    match spec_expect(s, i3, COMMA) {
                        None => None,
                        Some(i4) => match spec_num(s, i4) {
                            None => None,
                            Some((col, i5)) => if col > usize::MAX {
                                None
                            } else {
                                match spec_expect(s, i5, RBRACKET) {
                                    None => None,
                                    Some(i6) => match spec_expect(s, i6, COMMA) {
                                        None => None,
                                        Some(i7) => match spec_code(s, i7) {
                                            None => None,
                                            Some((code, i8)) => match spec_expect(
                                                s,
                                                i8,
                                                RBRACKET,
                                            ) {
                                                None => None,
                                                Some(i9) => Some(
                                                    ((row as usize, col as usize, code), i9),
                                                ),
                                            },
                                        },
                                    },
                                }
                            },
                        },
                    }
                },
            },
        },
    }
}

pub proof fn lemma_entry_bounds(s: Seq<u8>, i: int)
    requires
        0 <= i <= s.len(),
        spec_entry(s, i) is Some,
    ensures
        i < spec_entry(s, i)->Some_0.1 <= s.len(),
{
    lemma_expect_bounds(s, i, LBRACKET);
    let i1 = spec_expect(s, i, LBRACKET)->Some_0;
    lemma_expect_bounds(s, i1, LBRACKET);
    let i2 = spec_expect(s, i1, LBRACKET)->Some_0;
    lemma_num_bounds(s, i2);
    let i3 = spec_num(s, i2)->Some_0.1;
    lemma_expect_bounds(s, i3, COMMA);
    let i4 = spec_expect(s, i3, COMMA)->Some_0;
    lemma_num_bounds(s, i4);
    let i5 = spec_num(s, i4)->Some_0.1;
    lemma_expect_bounds(s, i5, RBRACKET);
    let i6 = spec_expect(s, i5, RBRACKET)->Some_0;
    lemma_expect_bounds(s, i6, COMMA);
    let i7 = spec_expect(s, i6, COMMA)->Some_0;
    lemma_code_bounds(s, i7);
    let i8 = spec_code(s, i7)->Some_0.1;
    lemma_expect_bounds(s, i8, RBRACKET);
}

/// A non-empty comma-separated run of entries. Yields the entries in order
/// and the index just past the last one.
pub open spec fn spec_entries(s: Seq<u8>, i: int) -> Option<(Seq<(usize, usize, u8)>, int)>
    decreases s.len() - i
        when 0 <= i <= s.len()
        via spec_entries_decreases
{
    match spec_entry(s, i) {
        None => None,
        Some((e, j)) => match spec_expect(s, j, COMMA) {
            None => Some((seq![e], j)),
            Some(k) => match spec_entries(s, k) {
                None => None,
                Some((rest, end)) => Some((seq![e] + rest, end)),
            },
        },
    }
}

#[via_fn]
proof fn spec_entries_decreases(s: Seq<u8>, i: int) {
    if spec_entry(s, i) is Some {
        lemma_entry_bounds(s, i);
        let j = spec_entry(s, i)->Some_0.1;
        if spec_expect(s, j, COMMA) is Some {
            lemma_expect_bounds(s, j, COMMA);
        }
    }
}

/// The preferred stored shape: a JSON array of entries, possibly empty.
pub open spec fn spec_array(s: Seq<u8>, i: int) -> Option<(Seq<(usize, usize, u8)>, int)> {
    match spec_expect(s, i, LBRACKET) {
        None => None,
        Some(j) => match spec_expect(s, j, RBRACKET) {
            Some(k) => Some((Seq::<(usize, usize, u8)>::empty(), k)),
            None => match spec_entries(s, j) {
                None => None,
                Some((es, k)) => match spec_expect(s, k, RBRACKET) {
                    None => None,
                    Some(end) => Some((es, end)),
                },
            },
        },
    }
}

/// One field of the legacy object shape: `"row,col": code`, with no
/// whitespace inside the quoted key.
pub open spec fn spec_field(s: Seq<u8>, i: int) -> Option<((usize, usize, u8), int)> {
    match spec_expect(s, i, QUOTE) {
        None => None,
        Some(j) => {
            let k1 = digits_end(s, j);
            let row = digits_val(s, j, k1);
            if k1 == j || row > usize::MAX {
                None
            } else if !(k1 < s.len() && s[k1] == COMMA) {
                None
            } else {
                let k2 = digits_end(s, k1 + 1);
                let col = digits_val(s, k1 + 1, k2);
                if k2 == k1 + 1 || col > usize::MAX {
                    None
                } else if !(k2 < s.len() && s[k2] == QUOTE) {
                    None
                } else {
                    match spec_expect(s, k2 + 1, COLON) {
                        None => None,
                        Some(i3) => match spec_num(s, i3) {
                            None => None,
                            Some((code, i4)) => if code > 255 {
                                None
                            } else {
                                Some(((row as usize, col as usize, code as u8), i4))
                            },
                        },
                    }
                }
            }
        },
    }
}

pub proof fn lemma_field_bounds(s: Seq<u8>, i: int)
    requires
        0 <= i <= s.len(),
        spec_field(s, i) is Some,
    ensures
        i < spec_field(s, i)->Some_0.1 <= s.len(),
{
    lemma_expect_bounds(s, i, QUOTE);
    let j = spec_expect(s, i, QUOTE)->Some_0;
    lemma_digits_end_bounds(s, j);
    let k1 = digits_end(s, j);
    lemma_digits_end_bounds(s, k1 + 1);
    let k2 = digits_end(s, k1 + 1);
    lemma_expect_bounds(s, k2 + 1, COLON);
    let i3 = spec_expect(s, k2 + 1, COLON)->Some_0;
    lemma_num_bounds(s, i3);
}

/// A non-empty comma-separated run of fields.
pub open spec fn spec_fields(s: Seq<u8>, i: int) -> Option<(Seq<(usize, usize, u8)>, int)>
    decreases s.len() - i
        when 0 <= i <= s.len()
        via spec_fields_decreases
{
    match spec_field(s, i) {
        None => None,
        Some((e, j)) => match spec_expect(s, j, COMMA) {
            None => Some((seq![e], j)),
            Some(k) => match spec_fields(s, k) {
                None => None,
                Some((rest, end)) => Some((seq![e] + rest, end)),
            },
        },
    }
}

#[via_fn]
proof fn spec_fields_decreases(s: Seq<u8>, i: int) {
    if spec_field(s, i) is Some {
        lemma_field_bounds(s, i);
        let j = spec_field(s, i)->Some_0.1;
        if spec_expect(s, j, COMMA) is Some {
            lemma_expect_bounds(s, j, COMMA);
        }
    }
}

/// The legacy stored shape: a JSON object of fields, possibly empty.
pub open spec fn spec_object(s: Seq<u8>, i: int) -> Option<(Seq<(usize, usize, u8)>, int)> {
    match spec_expect(s, i, LBRACE) {
        None => None,
        Some(j) => match spec_expect(s, j, RBRACE) {
            Some(k) => Some((Seq::<(usize, usize, u8)>::empty(), k)),
            None => match spec_fields(s, j) {
                None => None,
                Some((es, k)) => match spec_expect(s, k, RBRACE) {
                    None => None,
                    Some(end) => Some((es, end)),
                },
            },
        },
    }
}

/// What a stored value decodes to, if it decodes at all: the array shape is
/// tried first, the legacy object shape second, and either must fill the
/// whole input up to trailing whitespace. `None` is a corrupt value.
pub open spec fn spec_store(s: Seq<u8>) -> Option<Seq<(usize, usize, u8)>> {
    match spec_array(s, 0) {
        Some((es, j)) => if skip_ws(s, j) == s.len() {
            Some(es)
        } else {
            None
        },
        None => match spec_object(s, 0) {
            Some((es, j)) => if skip_ws(s, j) == s.len() {
                Some(es)
            } else {
                None
            },
            None => None,
        },
    }
}

/// The mapping a run of decoded entries denotes: each code byte decoded to
/// its symbolic code, a later entry overriding an earlier one at the same
/// position.
pub open spec fn entries_to_map(es: Seq<(usize, usize, u8)>) -> Map<(usize, usize), KeyboardUsage>
    decreases es.len(),
{
    if es.len() == 0 {
        Map::<(usize, usize), KeyboardUsage>::empty()
    } else {
        entries_to_map(es.drop_last()).insert(
            (es.last().0, es.last().1),
            usage_of_byte(es.last().2),
        )
    }
}

fn x_entry(s: &Vec<u8>, i: usize) -> (r: Option<((usize, usize, u8), usize)>)
    requires
        i <= s@.len(),
    ensures
        (match r {
            None => spec_entry(s@, i as int) is None,
            Some((e, j)) => spec_entry(s@, i as int) == Some((e, j as int)) && i < j <= s@.len(),
        }),
{
    let i1 = match x_expect(s, i, LBRACKET) {
        None => {
            return None;
        },
        Some(v) => v,
    };
    let i2 = match x_expect(s, i1, LBRACKET) {
        None => {
            return None;
        },
        Some(v) => v,
    };
    let (row, i3) = match x_num(s, i2) {
        NumScan::Missing => {
            return None;
        },
        NumScan::TooBig(_) => {
            return None;
        },
        NumScan::Val(v, j) => (v, j),
    };
    let i4 = match x_expect(s, i3, COMMA) {
        None => {
            return None;
        },
        Some(v) => v,
    };
    let (col, i5) = match x_num(s, i4) {
        NumScan::Missing => {
            return None;
        },
        NumScan::TooBig(_) => {
            return None;
        },
        NumScan::Val(v, j) => (v, j),
    };
    let i6 = match x_expect(s, i5, RBRACKET) {
        None => {
            return None;
        },
        Some(v) => v,
    };
    let i7 = match x_expect(s, i6, COMMA) {
        None => {
            return None;
        },
        Some(v) => v,
    };
    let (code, i8) = match x_code(s, i7) {
        None => {
            return None;
        },
        Some(v) => v,
    };
    let i9 = match x_expect(s, i8, RBRACKET) {
        None => {
            return None;
        },
        Some(v) => v,
    };
    Some(((row, col, code), i9))
}

fn x_field(s: &Vec<u8>, i: usize) -> (r: Option<((usize, usize, u8), usize)>)
    requires
        i <= s@.len(),
    ensures
        (match r {
            None => spec_field(s@, i as int) is None,
            Some((e, j)) => spec_field(s@, i as int) == Some((e, j as int)) && i < j <= s@.len(),
        }),
{
    let j = match x_expect(s, i, QUOTE) {
        None => {
            return None;
        },
        Some(v) => v,
    };
    let (row, k1) = match x_num_bare(s, j) {
        NumScan::Missing => {
            return None;
        },
        NumScan::TooBig(_) => {
            return None;
        },
        NumScan::Val(v, k) => (v, k),
    };
    if !(k1 < s.len() && s[k1] == COMMA) {
        return None;
    }
    let (col, k2) = match x_num_bare(s, k1 + 1) {
        NumScan::Missing => {
            return None;
        },
        NumScan::TooBig(_) => {
            return None;
        },
        NumScan::Val(v, k) => (v, k),
    };
    if !(k2 < s.len() && s[k2] == QUOTE) {
        return None;
    }
    let i3 = match x_expect(s, k2 + 1, COLON) {
        None => {
            return None;
        },
        Some(v) => v,
    };
    let (code, i4) = match x_num(s, i3) {
        NumScan::Missing => {
            return None;
        },
        NumScan::TooBig(_) => {
            return None;
        },
        NumScan::Val(v, j2) => (v, j2),
    };
    if code > 255 {
        return None;
    }
    Some(((row, col, code as u8), i4))
}

/// Scan a digit run with no leading whitespace allowed.
fn x_num_bare(s: &Vec<u8>, i: usize) -> (r: NumScan)
    requires
        i <= s@.len(),
    ensures
        (match r {
            NumScan::Missing => digits_end(s@, i as int) == i as int,
            NumScan::TooBig(j) => digits_end(s@, i as int) == j as int && digits_val(
                s@,
                i as int,
                j as int,
            ) > usize::MAX && i < j <= s@.len(),
            NumScan::Val(v, j) => digits_end(s@, i as int) == j as int && digits_val(
                s@,
                i as int,
                j as int,
            ) == v as int && i < j <= s@.len(),
        }),
{
    let n = s.len();
    let mut k = i;
    let mut acc: u128 = 0;
    let mut too_big = false;
    while k < n && x_is_digit(s[k])
        invariant
            i <= k <= n == s@.len(),
            digits_end(s@, i as int) == digits_end(s@, k as int),
            !too_big ==> acc <= usize::MAX as u128 && acc as int == digits_val(
                s@,
                i as int,
                k as int,
            ),
            too_big ==> digits_val(s@, i as int, k as int) > usize::MAX,
        decreases n - k,
    {
        let d = s[k] - 0x30;
        proof {
            assert(digits_val(s@, i as int, k + 1) == digits_val(s@, i as int, k as int) * 10
                + d);
        }
        if !too_big {
            let next: u128 = acc * 10 + d as u128;
            if next > usize::MAX as u128 {
                too_big = true;
            } else {
                acc = next;
            }
        } else {
            proof {
                let v = digits_val(s@, i as int, k as int);
                assert(v * 10 + d >= v) by (nonlinear_arith)
                    requires
                        v > 0,
                        d >= 0,
                ;
            }
        }
        k += 1;
    }
    if k == i {
        return NumScan::Missing;
    }
    if too_big {
        NumScan::TooBig(k)
    } else {
        NumScan::Val(acc as usize, k)
    }
}

fn x_entries(s: &Vec<u8>, i: usize) -> (r: Option<(Vec<(usize, usize, u8)>, usize)>)
    requires
        i <= s@.len(),
    ensures
        (match r {
            None => spec_entries(s@, i as int) is None,
            Some((es, end)) => spec_entries(s@, i as int) is Some && spec_entries(
                s@,
                i as int,
            )->Some_0.0 == es@ && spec_entries(s@, i as int)->Some_0.1 == end as int && end <= s@.len(),
        }),
{
    let mut acc: Vec<(usize, usize, u8)> = Vec::new();
    let mut cur = i;
    loop
        invariant
            i <= cur <= s@.len(),
            (match spec_entries(s@, i as int) {
                None => spec_entries(s@, cur as int) is None,
                Some((es, end)) => spec_entries(s@, cur as int) is Some && es == acc@
                    + spec_entries(s@, cur as int)->Some_0.0 && end == spec_entries(
                    s@,
                    cur as int,
                )->Some_0.1,
            }),
        decreases s@.len() - cur,
    {
        let (e, j) = match x_entry(s, cur) {
            None => {
                return None;
            },
            Some(v) => v,
        };
        acc.push(e);
        match x_expect(s, j, COMMA) {
            None => {
                proof {
                    assert(spec_entries(s@, cur as int) == Some((seq![e], j as int)));
                    if spec_entries(s@, i as int) is Some {
                        let es = spec_entries(s@, i as int)->Some_0.0;
                        assert(es == acc@.drop_last() + seq![e]);
                        assert(acc@ =~= acc@.drop_last() + seq![e]);
                    }
                }
                return Some((acc, j));
            },
            Some(k) => {
                proof {
                    if spec_entries(s@, i as int) is Some {
                        assert(spec_entries(s@, k as int) is Some);
                        let rest = spec_entries(s@, k as int)->Some_0.0;
                        assert(acc@.drop_last() + (seq![e] + rest) =~= acc@ + rest);
                    }
                }
                cur = k;
            },
        }
    }
}

fn x_fields(s: &Vec<u8>, i: usize) -> (r: Option<(Vec<(usize, usize, u8)>, usize)>)
    requires
        i <= s@.len(),
    ensures
        (match r {
            None => spec_fields(s@, i as int) is None,
            Some((es, end)) => spec_fields(s@, i as int) is Some && spec_fields(
                s@,
                i as int,
            )->Some_0.0 == es@ && spec_fields(s@, i as int)->Some_0.1 == end as int && end <= s@.len(),
        }),
{
    let mut acc: Vec<(usize, usize, u8)> = Vec::new();
    let mut cur = i;
    loop
        invariant
            i <= cur <= s@.len(),
            (match spec_fields(s@, i as int) {
                None => spec_fields(s@, cur as int) is None,
                Some((es, end)) => spec_fields(s@, cur as int) is Some && es == acc@
                    + spec_fields(s@, cur as int)->Some_0.0 && end == spec_fields(
                    s@,
                    cur as int,
                )->Some_0.1,
            }),
        decreases s@.len() - cur,
    {
        let (e, j) = match x_field(s, cur) {
            None => {
                return None;
            },
            Some(v) => v,
        };
        acc.push(e);
        match x_expect(s, j, COMMA) {
            None => {
                proof {
                    assert(spec_fields(s@, cur as int) == Some((seq![e], j as int)));
                    if spec_fields(s@, i as int) is Some {
                        let es = spec_fields(s@, i as int)->Some_0.0;
                        assert(es == acc@.drop_last() + seq![e]);
                        assert(acc@ =~= acc@.drop_last() + seq![e]);
                    }
                }
                return Some((acc, j));
            },
            Some(k) => {
                proof {
                    if spec_fields(s@, i as int) is Some {
                        assert(spec_fields(s@, k as int) is Some);
                        let rest = spec_fields(s@, k as int)->Some_0.0;
                        assert(acc@.drop_last() + (seq![e] + rest) =~= acc@ + rest);
                    }
                }
                cur = k;
            },
        }
    }
}

fn x_array(s: &Vec<u8>, i: usize) -> (r: Option<(Vec<(usize, usize, u8)>, usize)>)
    requires
        i <= s@.len(),
    ensures
        (match r {
            None => spec_array(s@, i as int) is None,
            Some((es, end)) => spec_array(s@, i as int) is Some && spec_array(
                s@,
                i as int,
            )->Some_0.0 == es@ && spec_array(s@, i as int)->Some_0.1 == end as int && end <= s@.len(),
        }),
{
    let j = match x_expect(s, i, LBRACKET) {
        None => {
            return None;
        },
        Some(v) => v,
    };
    match x_expect(s, j, RBRACKET) {
        Some(k) => {
            let empty: Vec<(usize, usize, u8)> = Vec::new();
            proof {
                assert(empty@ =~= Seq::<(usize, usize, u8)>::empty());
            }
            Some((empty, k))
        },
        None => {
            let (es, k) = match x_entries(s, j) {
                None => {
                    return None;
                },
                Some(v) => v,
            };
            match x_expect(s, k, RBRACKET) {
                None => None,
                Some(end) => Some((es, end)),
            }
        },
    }
}

fn x_object(s: &Vec<u8>, i: usize) -> (r: Option<(Vec<(usize, usize, u8)>, usize)>)
    requires
        i <= s@.len(),
    ensures
        (match r {
            None => spec_object(s@, i as int) is None,
            Some((es, end)) => spec_object(s@, i as int) is Some && spec_object(
                s@,
                i as int,
            )->Some_0.0 == es@ && spec_object(s@, i as int)->Some_0.1 == end as int && end <= s@.len(),
        }),
{
    let j = match x_expect(s, i, LBRACE) {
        None => {
            return None;
        },
        Some(v) => v,
    };
    match x_expect(s, j, RBRACE) {
        Some(k) => {
            let empty: Vec<(usize, usize, u8)> = Vec::new();
            proof {
                assert(empty@ =~= Seq::<(usize, usize, u8)>::empty());
            }
            Some((empty, k))
        },
        None => {
            let (es, k) = match x_fields(s, j) {
                None => {
                    return None;
                },
                Some(v) => v,
            };
            match x_expect(s, k, RBRACE) {
                None => None,
                Some(end) => Some((es, end)),
            }
        },
    }
}

/// Decode a stored value into its run of entries, or report it corrupt.
pub fn parse_store(s: &Vec<u8>) -> (r: Option<Vec<(usize, usize, u8)>>)
    ensures
        (match r {
            None => spec_store(s@) is None,
            Some(es) => spec_store(s@) == Some(es@),
        }),
{
    match x_array(s, 0) {
        Some((es, j)) => {
            let k = x_skip_ws(s, j);
            if k == s.len() {
                Some(es)
            } else {
                None
            }
        },
        None => match x_object(s, 0) {
            Some((es, j)) => {
                let k = x_skip_ws(s, j);
                if k == s.len() {
                    Some(es)
                } else {
                    None
                }
            },
            None => None,
        },
    }
}

/// Fold a run of decoded entries into a buffer.
pub fn buffer_from_entries(es: &Vec<(usize, usize, u8)>) -> (b: KeymapBuffer)
    ensures
        b.wf(),
        b@ == entries_to_map(es@),
{
    let mut b = KeymapBuffer::new();
    let mut i: usize = 0;
    while i < es.len()
        invariant
            b.wf(),
            i <= es@.len(),
            b@ == entries_to_map(es@.take(i as int)),
        decreases es@.len() - i,
    {
        let e = es[i];
        b.set(e.0, e.1, KeyboardUsage::decode_byte(e.2));
        proof {
            assert(es@.take(i + 1).drop_last() =~= es@.take(i as int));
            assert(es@.take(i + 1).last() == es@[i as int]);
        }
        i += 1;
    }
    proof {
        assert(es@.take(es@.len() as int) =~= es@);
    }
    b
}

/// The decimal digits of a non-negative number.
pub open spec fn dec_digits(n: int) -> Seq<u8>
    decreases n,
{
    if n < 10 {
        seq![(0x30 + n) as u8]
    } else {
        dec_digits(n / 10).push((0x30 + n % 10) as u8)
    }
}

/// Append the decimal digits of a number.
pub(crate) fn push_num(out: &mut Vec<u8>, n: usize)
    ensures
        final(out)@ == old(out)@ + dec_digits(n as int),
    decreases n,
{
    if n >= 10 {
        push_num(out, n / 10);
        out.push(0x30 + (n % 10) as u8);
        proof {
            assert(final(out)@ =~= old(out)@ + dec_digits(n as int));
        }
    } else {
        out.push(0x30 + n as u8);
        proof {
            assert(final(out)@ =~= old(out)@ + dec_digits(n as int));
        }
    }
}

/// The stored form of one entry: `[[row,col],code]`.
pub open spec fn render_entry(e: KeyEntry) -> Seq<u8> {
    seq![LBRACKET, LBRACKET] + dec_digits(e.row as int) + seq![COMMA] + dec_digits(e.col as int)
        + seq![RBRACKET, COMMA] + dec_digits(byte_of(e.code) as int) + seq![RBRACKET]
}

/// The stored form of the entries from index `i` on, comma-separated.
pub open spec fn render_entries_from(s: Seq<KeyEntry>, i: int) -> Seq<u8>
    decreases s.len() - i,
{
    if i < 0 || i >= s.len() {
        Seq::<u8>::empty()
    } else if i == s.len() - 1 {
        render_entry(s[i])
    } else {
        render_entry(s[i]) + seq![COMMA] + render_entries_from(s, i + 1)
    }
}

/// The canonical stored form of a buffer: its entries, in their sorted
/// order, in the array shape.
pub open spec fn render_store(s: Seq<KeyEntry>) -> Seq<u8> {
    seq![LBRACKET] + render_entries_from(s, 0) + seq![RBRACKET]
}

fn push_entry(out: &mut Vec<u8>, e: KeyEntry)
    ensures
        final(out)@ == old(out)@ + render_entry(e),
{
    out.push(LBRACKET);
    out.push(LBRACKET);
    push_num(out, e.row);
    out.push(COMMA);
    push_num(out, e.col);
    out.push(RBRACKET);
    out.push(COMMA);
    push_num(out, e.code.encode_byte() as usize);
    out.push(RBRACKET);
    proof {
        assert(final(out)@ =~= old(out)@ + render_entry(e));
    }
}

/// Encode a buffer into its canonical stored form.
pub fn render_buffer(b: &KeymapBuffer) -> (r: Vec<u8>)
    ensures
        r@ == render_store(b.seq()),
{
    let mut out: Vec<u8> = Vec::new();
    out.push(LBRACKET);
    proof {
        assert(out@ =~= seq![LBRACKET]);
    }
    let n = b.len();
    let mut i: usize = 0;
    while i < n
        invariant
            n == b.seq().len(),
            i <= n,
            out@ + render_entries_from(b.seq(), i as int) + seq![RBRACKET] =~= render_store(
                b.seq(),
            ),
        decreases n - i,
    {
        let e = b.entry_at(i);
        let ghost before = out@;
        push_entry(&mut out, e);
        if i + 1 < n {
            out.push(COMMA);
            proof {
                assert(out@ =~= before + render_entry(e) + seq![COMMA]);
                assert(out@ + render_entries_from(b.seq(), i + 1) + seq![RBRACKET] =~= before
                    + render_entries_from(b.seq(), i as int) + seq![RBRACKET]);
            }
        } else {
            proof {
                assert(render_entries_from(b.seq(), i as int) == render_entry(e));
                assert(out@ + render_entries_from(b.seq(), i + 1) + seq![RBRACKET] =~= before
                    + render_entries_from(b.seq(), i as int) + seq![RBRACKET]);
            }
        }
        i += 1;
    }
    out.push(RBRACKET);
    proof {
        assert(out@ =~= render_store(b.seq()));
    }
    out
}

/// The stored triples a sequence of entries renders as.
pub open spec fn triples(s: Seq<KeyEntry>) -> Seq<(usize, usize, u8)> {
    s.map(|i: int, e: KeyEntry| (e.row, e.col, byte_of(e.code)))
}

proof fn lemma_dec_digits_are_digits(n: int)
    requires
        n >= 0,
    ensures
        dec_digits(n).len() >= 1,
        forall|k: int| 0 <= k < dec_digits(n).len() ==> is_digit(#[trigger] dec_digits(n)[k]),
    decreases n,
{
    if n >= 10 {
        lemma_dec_digits_are_digits(n / 10);
    }
}

/// A digit run that spells `dec_digits(n)` reads back as the value `n`.
proof fn lemma_digits_val_of_dec(t: Seq<u8>, i: int, j: int, n: int)
    requires
        n >= 0,
        0 <= i <= j <= t.len(),
        t.subrange(i, j) == dec_digits(n),
    ensures
        digits_val(t, i, j) == n,
    decreases n,
{
    let d = dec_digits(n);
    assert(j - i == d.len());
    if n < 10 {
        assert(t.subrange(i, j)[0] == t[i]);
        assert(t[i] == d[0]);
        assert(digits_val(t, i, j - 1) == 0);
    } else {
        assert(t.subrange(i, j)[d.len() - 1] == t[j - 1]);
        assert(t[j - 1] == d[d.len() - 1]);
        assert(t[j - 1] == (0x30 + n % 10) as u8);
        assert(t.subrange(i, j - 1) =~= dec_digits(n / 10)) by {
            assert(dec_digits(n).drop_last() =~= dec_digits(n / 10));
            assert forall|k: int| 0 <= k < j - 1 - i implies #[trigger] t.subrange(i, j - 1)[k]
                == dec_digits(n / 10)[k] by {
                assert(t.subrange(i, j - 1)[k] == t[i + k]);
                assert(t[i + k] == d[k]);
            }
        }
        lemma_digits_val_of_dec(t, i, j - 1, n / 10);
        assert(digits_val(t, i, j) == (n / 10) * 10 + n % 10);
        assert((n / 10) * 10 + n % 10 == n) by (nonlinear_arith);
    }
}

/// A digit run that spells `dec_digits(n)` and is followed by a non-digit
/// scans as exactly that run.
proof fn lemma_digits_end_of_dec(t: Seq<u8>, i: int, j: int, n: int)
    requires
        n >= 0,
        0 <= i <= j <= t.len(),
        t.subrange(i, j) == dec_digits(n),
        j == t.len() || !is_digit(t[j]),
    ensures
        digits_end(t, i) == j,
{
    lemma_dec_digits_are_digits(n);
    assert forall|k: int| i <= k < j implies is_digit(t[k]) by {
        assert(t[k] == t.subrange(i, j)[k - i]);
    }
    lemma_digits_end_stops(t, i, j);
}

proof fn lemma_digits_end_stops(t: Seq<u8>, i: int, j: int)
    requires
        0 <= i <= j <= t.len(),
        forall|k: int| i <= k < j ==> is_digit(t[k]),
        j == t.len() || !is_digit(t[j]),
    ensures
        digits_end(t, i) == j,
    decreases j - i,
{
    if i < j {
        lemma_digits_end_stops(t, i + 1, j);
    }
}

/// A number token over a rendered digit run: no whitespace precedes it, so
/// it scans in place and reads back its value.
proof fn lemma_num_at(t: Seq<u8>, i: int, j: int, n: int)
    requires
        n >= 0,
        0 <= i <= j <= t.len(),
        t.subrange(i, j) == dec_digits(n),
        j == t.len() || !is_digit(t[j]),
    ensures
        spec_num(t, i) == Some((n, j)),
{
    lemma_dec_digits_are_digits(n);
    assert(t[i] == t.subrange(i, j)[0]);
    assert(is_digit(t[i]));
    assert(skip_ws(t, i) == i);
    lemma_digits_end_of_dec(t, i, j, n);
    lemma_digits_val_of_dec(t, i, j, n);
}

/// A rendered entry parses in place to its triple.
proof fn lemma_entry_at(t: Seq<u8>, i: int, j: int, e: KeyEntry)
    requires
        0 <= i <= j <= t.len(),
        t.subrange(i, j) == render_entry(e),
    ensures
        spec_entry(t, i) == Some(((e.row, e.col, byte_of(e.code)), j)),
{
    let r = dec_digits(e.row as int);
    let c = dec_digits(e.col as int);
    let b = dec_digits(byte_of(e.code) as int);
    let re = render_entry(e);
    assert(j - i == re.len());
    assert forall|k: int| 0 <= k < re.len() implies t[i + k] == re[k] by {
        assert(t.subrange(i, j)[k] == t[i + k]);
    }
    // The layout of the rendered entry, position by position.
    let p0 = i;  // '['
    let p1 = i + 1;  // '['
    let p2 = i + 2;  // row digits
    let p3 = p2 + r.len();  // ','
    let p4 = p3 + 1;  // col digits
    let p5 = p4 + c.len();  // ']'
    let p6 = p5 + 1;  // ','
    let p7 = p6 + 1;  // code digits
    let p8 = p7 + b.len();  // ']'
    lemma_dec_digits_are_digits(e.row as int);
    lemma_dec_digits_are_digits(e.col as int);
    lemma_dec_digits_are_digits(byte_of(e.code) as int);
    assert(re[0] == LBRACKET);
    assert(re[1] == LBRACKET);
    assert forall|k: int| 0 <= k < r.len() implies re[2 + k] == r[k] by {}
    assert(re[p3 - i] == COMMA);
    assert forall|k: int| 0 <= k < c.len() implies re[p4 - i + k] == c[k] by {}
    assert(re[p5 - i] == RBRACKET);
    assert(re[p6 - i] == COMMA);
    assert forall|k: int| 0 <= k < b.len() implies re[p7 - i + k] == b[k] by {}
    assert(re[p8 - i] == RBRACKET);

    assert(spec_expect(t, i, LBRACKET) == Some(p1));
    assert(spec_expect(t, p1, LBRACKET) == Some(p2));
    assert(t.subrange(p2, p3) =~= r);
    lemma_num_at(t, p2, p3, e.row as int);
    assert(spec_expect(t, p3, COMMA) == Some(p4));
    assert(t.subrange(p4, p5) =~= c);
    lemma_num_at(t, p4, p5, e.col as int);
    assert(spec_expect(t, p5, RBRACKET) == Some(p6));
    assert(spec_expect(t, p6, COMMA) == Some(p7));
    assert(t.subrange(p7, p8) =~= b);
    lemma_num_at(t, p7, p8, byte_of(e.code) as int);
    assert(spec_expect(t, p8, RBRACKET) == Some(j));
}

/// A rendered run of entries, followed by the closing bracket, parses in
/// place to its triples.
proof fn lemma_entries_at(t: Seq<u8>, i: int, j: int, s: Seq<KeyEntry>, k: int)
    requires
        0 <= k < s.len(),
        0 <= i <= j <= t.len(),
        t.subrange(i, j) == render_entries_from(s, k),
        j < t.len(),
        t[j] == RBRACKET,
    ensures
        spec_entries(t, i) == Some((triples(s).skip(k), j)),
    decreases s.len() - k,
{
    let rest = render_entries_from(s, k);
    if k == s.len() - 1 {
        lemma_entry_at(t, i, j, s[k]);
        assert(skip_ws(t, j) == j);
        assert(spec_expect(t, j, COMMA) is None);
        assert(triples(s).skip(k) =~= seq![(s[k].row, s[k].col, byte_of(s[k].code))]);
    } else {
        let re = render_entry(s[k]);
        let rest2 = render_entries_from(s, k + 1);
        assert(rest == re + seq![COMMA] + rest2);
        assert(rest.len() == re.len() + 1 + rest2.len());
        let m = i + re.len();
        assert(m + 1 <= j);
        assert(t.subrange(i, m) =~= re) by {
            assert forall|q: int| 0 <= q < re.len() implies #[trigger] t.subrange(i, m)[q]
                == re[q] by {
                assert(t.subrange(i, m)[q] == t[i + q]);
                assert(t.subrange(i, j)[q] == t[i + q]);
                assert((re + seq![COMMA] + rest2)[q] == re[q]);
            }
        }
        lemma_entry_at(t, i, m, s[k]);
        assert(t.subrange(i, j)[m - i] == t[m]);
        assert((re + seq![COMMA] + rest2)[m - i] == COMMA);
        assert(t[m] == COMMA);
        assert(skip_ws(t, m) == m);
        assert(spec_expect(t, m, COMMA) == Some(m + 1));
        assert(t.subrange(m + 1, j) =~= rest2) by {
            assert forall|q: int| 0 <= q < rest2.len() implies #[trigger] t.subrange(m + 1, j)[q]
                == rest2[q] by {
                assert(t.subrange(m + 1, j)[q] == t[m + 1 + q]);
                assert(t.subrange(i, j)[m + 1 + q - i] == t[m + 1 + q]);
                assert((re + seq![COMMA] + rest2)[re.len() + 1 + q] == rest2[q]);
            }
        }
        lemma_entries_at(t, m + 1, j, s, k + 1);
        assert(triples(s).skip(k) =~= seq![(s[k].row, s[k].col, byte_of(s[k].code))] + triples(
            s,
        ).skip(k + 1));
    }
}

/// Parsing the canonical stored form of a sequence of entries yields exactly
/// its triples: what a save writes, a load reads back.
pub proof fn lemma_store_round_trip(s: Seq<KeyEntry>)
    ensures
        spec_store(render_store(s)) == Some(triples(s)),
{
    let t = render_store(s);
    let body = render_entries_from(s, 0);
    assert(t.len() == 1 + body.len() + 1);
    assert(t[0] == LBRACKET);
    assert(t[t.len() - 1] == RBRACKET);
    assert(skip_ws(t, 0) == 0);
    assert(spec_expect(t, 0, LBRACKET) == Some(1int));
    if s.len() == 0 {
        assert(t.len() == 2);
        assert(skip_ws(t, 1) == 1);
        assert(spec_expect(t, 1, RBRACKET) == Some(2int));
        assert(spec_array(t, 0) == Some((Seq::<(usize, usize, u8)>::empty(), 2int)));
        assert(skip_ws(t, 2) == 2);
        assert(triples(s) =~= Seq::<(usize, usize, u8)>::empty());
    } else {
        let j: int = 1 + body.len() as int;
        assert(t.subrange(1, j) =~= body) by {
            assert forall|q: int| 0 <= q < body.len() implies #[trigger] t.subrange(1, j)[q]
                == body[q] by {
                assert(t.subrange(1, j)[q] == t[1 + q]);
                assert((seq![LBRACKET] + body + seq![RBRACKET])[1 + q] == body[q]);
            }
        }
        assert(body[0] == render_entry(s[0])[0]) by {
            if s.len() > 1 {
                assert(body == render_entry(s[0]) + seq![COMMA] + render_entries_from(s, 1));
                assert((render_entry(s[0]) + seq![COMMA] + render_entries_from(s, 1))[0]
                    == render_entry(s[0])[0]);
            }
        }
        assert(render_entry(s[0])[0] == LBRACKET);
        assert(t.subrange(1, j)[0] == t[1]);
        assert(t[1] == LBRACKET);
        assert(skip_ws(t, 1) == 1);
        assert(spec_expect(t, 1, RBRACKET) is None);
        lemma_entries_at(t, 1, j, s, 0);
        assert(triples(s).skip(0) =~= triples(s));
        assert(spec_expect(t, j, RBRACKET) == Some(j + 1));
        assert(spec_array(t, 0) == Some((triples(s), t.len() as int)));
                assert(skip_ws(t, t.len() as int) == t.len());
    }
}

/// Decoding a buffer's own triples restores the buffer's mapping: every
/// code's byte decodes back to that code.
pub proof fn lemma_triples_to_map(s: Seq<KeyEntry>)
    ensures
        entries_to_map(triples(s)) == entry_map(s),
    decreases s.len(),
{
    if s.len() > 0 {
        assert(triples(s).drop_last() =~= triples(s.drop_last()));
        lemma_triples_to_map(s.drop_last());
        crate::keycodes::lemma_byte_round_trip_variant(s.last().code);
        assert(entries_to_map(triples(s)) =~= entry_map(s));
    }
}

} // verus!
