//! The keymap state engine: two buffers — `current` (live edits) and `saved`
//! (the last durable commit) — and the operations that mutate, compare,
//! persist, reset and export them.
//!
//! The engine never performs storage I/O itself. The caller reads and writes
//! the textual key/value store and hands the engine the outcome: the stored
//! bytes (or their absence) on load, and whether a write or removal
//! succeeded on save and factory reset. Every operation either leaves both
//! buffers untouched or moves them together, so the engine is always in a
//! consistent state, whatever the store does.

use vstd::prelude::*;
use vstd::string::StringSliceAdditionalSpecFns;

use crate::buffer::KeymapBuffer;
use crate::default_layout::{default_layout, default_map};
use crate::export::{export_document, render_export, render_export_json, ExportDocument};
use crate::keycodes::{byte_of, label_view, parse_label_view, KeyboardUsage};
use crate::wire::{
    buffer_from_entries, entries_to_map, lemma_store_round_trip, lemma_triples_to_map,
    parse_store, render_buffer, render_store, spec_store, triples,
};

verus! {

/// Why an engine operation failed. Unknown labels and unassigned bytes are
/// not errors: the codec resolves them to the sentinel.
#[derive(Clone, Copy, Debug, PartialEq, Eq, Structural)]
pub enum KeymapError {
    /// The host offers no persistent store at all.
    StoreUnavailable,
    /// The store refused the write.
    WriteFailed,
    /// The store refused to remove the persisted key.
    RemoveFailed,
    /// No value is stored under the keymap's key.
    NoSavedData,
    /// A value is stored but matches neither accepted shape.
    CorruptData,
}

impl KeymapError {
    /// A short description of the failure.
    pub fn message(&self) -> (r: &'static str)
        ensures
            r@ == (match *self {
                KeymapError::StoreUnavailable => "Storage not available"@,
                KeymapError::WriteFailed => "Failed to save layout"@,
                KeymapError::RemoveFailed => "Failed to clear storage"@,
                KeymapError::NoSavedData => "No saved layout found"@,
                KeymapError::CorruptData => "Failed to parse saved layout data"@,
            }),
    {
        match *self {
            KeymapError::StoreUnavailable => "Storage not available",
            KeymapError::WriteFailed => "Failed to save layout",
            KeymapError::RemoveFailed => "Failed to clear storage",
            KeymapError::NoSavedData => "No saved layout found",
            KeymapError::CorruptData => "Failed to parse saved layout data",
        }
    }
}

/// The engine's mathematical state: the two mappings it holds.
#[verifier::ext_equal]
pub struct KeymapModel {
    pub current: Map<(usize, usize), KeyboardUsage>,
    pub saved: Map<(usize, usize), KeyboardUsage>,
}

/// Updating a key rebinds one position of `current` to whatever the label
/// resolves to; `saved` is untouched.
pub open spec fn spec_update_key(
    m: KeymapModel,
    row: usize,
    col: usize,
    label: Seq<char>,
) -> KeymapModel {
    KeymapModel { current: m.current.insert((row, col), parse_label_view(label)), saved: m.saved }
}

/// Resetting discards unsaved edits: `current` becomes `saved`.
pub open spec fn spec_reset(m: KeymapModel) -> KeymapModel {
    KeymapModel { current: m.saved, saved: m.saved }
}

/// A successful save commits: `saved` becomes `current`.
pub open spec fn spec_commit(m: KeymapModel) -> KeymapModel {
    KeymapModel { current: m.current, saved: m.current }
}

/// A successful factory reset puts both buffers at the factory layout.
pub open spec fn spec_factory_reset() -> KeymapModel {
    KeymapModel { current: default_map(), saved: default_map() }
}

/// The mapping a session starts from: the stored value where one is present
/// and decodes, and the factory layout where the store is empty or corrupt.
pub open spec fn spec_initial_map(stored: Option<Seq<u8>>) -> Map<(usize, usize), KeyboardUsage> {
    match stored {
        None => default_map(),
        Some(bytes) => match spec_store(bytes) {
            Some(es) => entries_to_map(es),
            None => default_map(),
        },
    }
}

/// The fixed key the layout is persisted under in the textual key/value
/// store.
pub fn storage_key() -> (r: &'static str)
    ensures
        r@ == "dactyl_keymap"@,
{
    "dactyl_keymap"
}

/// The fixed file name the export document is offered for download under.
pub fn export_file_name() -> (r: &'static str)
    ensures
        r@ == "dactyl_keymap.json"@,
{
    "dactyl_keymap.json"
}

/// The keymap state engine.
pub struct Keymap {
    pub current: KeymapBuffer,
    pub saved: KeymapBuffer,
}

impl Keymap {
    /// Both buffers well-formed.
    pub open spec fn wf(&self) -> bool {
        self.current.wf() && self.saved.wf()
    }

    /// The engine's mathematical state.
    pub open spec fn model(&self) -> KeymapModel {
        KeymapModel { current: self.current@, saved: self.saved@ }
    }

    /// The factory layout buffer.
    pub fn initialize_default() -> (b: KeymapBuffer)
        ensures
            b.wf(),
            b@ == default_map(),
    {
        default_layout()
    }

    /// Decode a stored value into the buffer a session starts from, falling
    /// back to the factory layout where the value is absent or corrupt.
    pub fn load_from_storage(stored: Option<&Vec<u8>>) -> (b: KeymapBuffer)
        ensures
            b.wf(),
            b@ == spec_initial_map(match stored {
                None => None,
                Some(v) => Some(v@),
            }),
    {
        match stored {
            None => Self::initialize_default(),
            Some(bytes) => match parse_store(bytes) {
                Some(es) => buffer_from_entries(&es),
                None => Self::initialize_default(),
            },
        }
    }

    /// Start a session from what the store held: `saved` is the decoded (or
    /// factory) layout and `current` starts equal to it.
    pub fn new(stored: Option<&Vec<u8>>) -> (r: Keymap)
        ensures
            r.wf(),
            r.current@ == r.saved@,
            r.saved@ == spec_initial_map(match stored {
                None => None,
                Some(v) => Some(v@),
            }),
    {
        let saved = Self::load_from_storage(stored);
        let current = saved.duplicate();
        Keymap { current, saved }
    }

    /// Read access to the live buffer, for rendering.
    pub fn current(&self) -> (r: &KeymapBuffer)
        ensures
            *r == self.current,
    {
        &self.current
    }

    /// Resolve a label and bind the result at a position of the live buffer.
    /// The saved buffer is untouched.
    pub fn update_key(&mut self, row: usize, col: usize, label: String)
        requires
            old(self).wf(),
        ensures
            final(self).wf(),
            final(self).model() == spec_update_key(old(self).model(), row, col, label@),
    {
        let code = KeyboardUsage::parse_label(label.as_str());
        self.current.set(row, col, code);
        proof {
            assert(self.model() =~= spec_update_key(old(self).model(), row, col, label@));
        }
    }

    /// Whether the live buffer differs from the last commit.
    pub fn has_unsaved_changes(&self) -> (r: bool)
        requires
            self.wf(),
        ensures
            r == (self.current@ != self.saved@),
    {
        !self.current.same_mapping(&self.saved)
    }

    /// The bytes a save writes to the store: the live buffer in the
    /// preferred stored shape.
    pub fn save_payload(&self) -> (r: Vec<u8>)
        ensures
            r@ == render_store(self.current.seq()),
    {
        render_buffer(&self.current)
    }

    /// Commit or report a save, after the caller has tried to write
    /// [`Self::save_payload`] to the store. On success the live buffer
    /// becomes the saved one, so no unsaved changes remain; on failure
    /// nothing changes and the error is surfaced.
    pub fn save(&mut self, wrote: bool) -> (r: Result<(), KeymapError>)
        requires
            old(self).wf(),
        ensures
            final(self).wf(),
            wrote ==> r == Ok::<(), KeymapError>(()) && final(self).model() == spec_commit(
                old(self).model(),
            ) && final(self).current@ == final(self).saved@,
            !wrote ==> r == Err::<(), KeymapError>(KeymapError::WriteFailed) && *final(self)
                == *old(self),
    {
        if wrote {
            self.saved = self.current.duplicate();
            proof {
                assert(self.model() =~= spec_commit(old(self).model()));
            }
            Ok(())
        } else {
            Err(KeymapError::WriteFailed)
        }
    }

    /// Replace both buffers with what the store holds. Absent data and
    /// corrupt data are reported as such, and leave both buffers untouched;
    /// on success any unsaved edits are discarded.
    pub fn load(&mut self, stored: Option<&Vec<u8>>) -> (r: Result<(), KeymapError>)
        requires
            old(self).wf(),
        ensures
            final(self).wf(),
            (match stored {
                None => r == Err::<(), KeymapError>(KeymapError::NoSavedData) && *final(self)
                    == *old(self),
                Some(bytes) => match spec_store(bytes@) {
                    Some(es) => r == Ok::<(), KeymapError>(()) && final(self).current@
                        == entries_to_map(es) && final(self).saved@ == entries_to_map(es),
                    None => r == Err::<(), KeymapError>(KeymapError::CorruptData) && *final(self)
                        == *old(self),
                },
            }),
    {
        let bytes = match stored {
            None => {
                return Err(KeymapError::NoSavedData);
            },
            Some(b) => b,
        };
        let es = match parse_store(bytes) {
            None => {
                return Err(KeymapError::CorruptData);
            },
            Some(es) => es,
        };
        let loaded = buffer_from_entries(&es);
        self.current = loaded.duplicate();
        self.saved = loaded;
        Ok(())
    }

    /// Discard unsaved edits: the live buffer becomes the saved one again.
    /// Never touches the store and always succeeds.
    pub fn reset(&mut self) -> (r: Result<(), KeymapError>)
        requires
            old(self).wf(),
        ensures
            final(self).wf(),
            r == Ok::<(), KeymapError>(()),
            final(self).model() == spec_reset(old(self).model()),
    {
        self.current = self.saved.duplicate();
        proof {
            assert(self.model() =~= spec_reset(old(self).model()));
        }
        Ok(())
    }

    /// Return to the factory layout, after the caller has tried to remove
    /// the persisted key. On success both buffers become the factory layout
    /// together; on failure nothing changes and the error is surfaced.
    pub fn factory_reset(&mut self, removed: bool) -> (r: Result<(), KeymapError>)
        requires
            old(self).wf(),
        ensures
            final(self).wf(),
            removed ==> r == Ok::<(), KeymapError>(()) && final(self).model()
                == spec_factory_reset(),
            !removed ==> r == Err::<(), KeymapError>(KeymapError::RemoveFailed) && *final(self)
                == *old(self),
    {
        if removed {
            let fresh = default_layout();
            self.current = fresh.duplicate();
            self.saved = fresh;
            proof {
                assert(self.model() =~= spec_factory_reset());
            }
            Ok(())
        } else {
            Err(KeymapError::RemoveFailed)
        }
    }

    /// The export document over the live buffer: a pure projection that
    /// mutates nothing and never touches the store.
    pub fn export_document(&self, exported_at: &str) -> (d: ExportDocument)
        ensures
            d.metadata.version@ == "1.0"@,
            d.metadata.keyboard@ == "Dactyl Manuform 5x7"@,
            d.metadata.exported_at@ == exported_at@,
            d.metadata.total_keys == self.current.seq().len(),
            d.keys@.len() == self.current.seq().len(),
            forall|i: int|
                #![auto]
                0 <= i < self.current.seq().len() ==> d.keys@[i].row == self.current.seq()[i].row
                    && d.keys@[i].col == self.current.seq()[i].col && d.keys@[i].label@
                    == label_view(self.current.seq()[i].code) && d.keys@[i].keycode == byte_of(
                    self.current.seq()[i].code,
                ),
    {
        export_document(&self.current, exported_at)
    }

    /// The export document over the live buffer as JSON bytes.
    pub fn export_json(&self, exported_at: &str) -> (r: Vec<u8>)
        ensures
            r@ == render_export(self.current.seq(), exported_at.spec_bytes()),
    {
        render_export_json(&self.current, exported_at)
    }
}

/// What a save writes, a later load reads back: the canonical stored form of
/// a buffer decodes to exactly that buffer's mapping.
pub proof fn lemma_save_load_round_trip(b: KeymapBuffer)
    ensures
        spec_store(render_store(b.seq())) == Some(triples(b.seq())),
        entries_to_map(triples(b.seq())) == b@,
{
    lemma_store_round_trip(b.seq());
    lemma_triples_to_map(b.seq());
}

/// Discarding an edit: after updating any key at any position and then
/// resetting, the live mapping equals the saved mapping from before the
/// edit, whatever the label was.
pub proof fn lemma_update_then_reset_discards(
    m: KeymapModel,
    row: usize,
    col: usize,
    label: Seq<char>,
)
    ensures
        spec_reset(spec_update_key(m, row, col, label)).current == m.saved,
        spec_reset(spec_update_key(m, row, col, label)).saved == m.saved,
{
}

} // verus!
