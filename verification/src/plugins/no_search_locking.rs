//! Keeps the search from locking up after it has ended.

use crate::handler::compact_patch::spec_units;
use crate::handler::compact_patch::CompactPatch;
use crate::memory::views;
use crate::memory::MemoryOp;
use crate::patches::all_fit;
use crate::patches::spec_ops;
use crate::patches::PatchError;
use crate::patches::PatchUnitView;
use crate::handler::compact_patch::unit_data;
use crate::plugin::Plugin;
use crate::plugin::PluginPass;
use vstd::prelude::*;
use vstd::string::*;

verus! {

/// Where the module picks the state of the search button.
pub const BUTTON: usize = 0x3EC50A;

pub const BUTTON_ON: [u8; 3] = [0x8Bu8, 0xC2u8, 0x90u8];

pub const BUTTON_OFF: [u8; 3] = [0x0Fu8, 0x44u8, 0xC2u8];

/// Where the module first decides to lock the search.
pub const FIRST_LOCK: usize = 0x3EFB2C;

pub const FIRST_LOCK_ON: [u8; 6] = [0x66u8, 0x0Fu8, 0x1Fu8, 0x44u8, 0x00u8, 0x00u8];

pub const FIRST_LOCK_OFF: [u8; 6] = [0x0Fu8, 0x85u8, 0x82u8, 0x00u8, 0x00u8, 0x00u8];

/// Where the module decides to lock the search a second time.
pub const SECOND_LOCK: usize = 0x3EFD4E;

pub const SECOND_LOCK_ON: [u8; 6] = [0x66u8, 0x0Fu8, 0x1Fu8, 0x44u8, 0x00u8, 0x00u8];

pub const SECOND_LOCK_OFF: [u8; 6] = [0x0Fu8, 0x85u8, 0xBAu8, 0x01u8, 0x00u8, 0x00u8];

/// The units of the feature.
pub open spec fn spec_table() -> Seq<PatchUnitView> {
    seq![
        PatchUnitView {
            address: BUTTON,
            on_bytes: BUTTON_ON@,
            off_bytes: BUTTON_OFF@,
            enabled: false,
        },
        PatchUnitView {
            address: FIRST_LOCK,
            on_bytes: FIRST_LOCK_ON@,
            off_bytes: FIRST_LOCK_OFF@,
            enabled: false,
        },
        PatchUnitView {
            address: SECOND_LOCK,
            on_bytes: SECOND_LOCK_ON@,
            off_bytes: SECOND_LOCK_OFF@,
            enabled: false,
        },
    ]
}

/// The feature; the field says whether it is switched on.
#[derive(Clone, Copy, Debug, PartialEq, Eq, Structural)]
pub struct NoSearchLocking(pub bool);

impl Default for NoSearchLocking {
    fn default() -> (plugin: NoSearchLocking)
        ensures
            plugin == NoSearchLocking(false),
    {
        NoSearchLocking(false)
    }
}

impl NoSearchLocking {
    /// The patch of the feature, switched off.
    pub fn patch() -> (patch: CompactPatch)
        ensures
            patch@ == spec_table(),
            !patch.enabled(),
    {
        let mut data: Vec<(usize, Vec<u8>, Vec<u8>)> = Vec::new();
        data.push(unit_data(BUTTON, &BUTTON_ON, &BUTTON_OFF));
        data.push(unit_data(FIRST_LOCK, &FIRST_LOCK_ON, &FIRST_LOCK_OFF));
        data.push(unit_data(SECOND_LOCK, &SECOND_LOCK_ON, &SECOND_LOCK_OFF));
        proof {
            assert(spec_units(data@) =~= spec_table());
        }
        CompactPatch::new(data).unwrap()
    }

    /// What brings a module loaded at `base` to the state of the feature.
    pub fn writes(&self, base: usize) -> (r: Result<Vec<MemoryOp>, PatchError>)
        ensures
            all_fit(spec_table(), base) ==> r is Ok && views(r->Ok_0@) == spec_ops(
                spec_table(),
                base,
                self.0,
            ),
            !all_fit(spec_table(), base) ==> r is Err && r->Err_0 == PatchError::AddressOverflow,
    {
        Self::patch().plan(base, self.0)
    }

    /// The feature as it was stored, or switched off where nothing was
    /// stored, and what brings the module to that state.
    pub fn load(stored: Option<NoSearchLocking>, base: usize) -> (r: Result<
        (NoSearchLocking, Vec<MemoryOp>),
        PatchError,
    >)
        ensures
            all_fit(spec_table(), base) ==> r is Ok && r->Ok_0.0 == stored.unwrap_or(
                NoSearchLocking(false),
            ) && views(r->Ok_0.1@) == spec_ops(spec_table(), base, r->Ok_0.0.0),
            !all_fit(spec_table(), base) ==> r is Err && r->Err_0 == PatchError::AddressOverflow,
    {
        let plugin = match stored {
            Some(plugin) => plugin,
            None => NoSearchLocking(false),
        };
        match plugin.writes(base) {
            Ok(ops) => Ok((plugin, ops)),
            Err(e) => Err(e),
        }
    }

    /// Switches the feature to the state it is not in. Where the patch
    /// does not fit in the address space, nothing changes.
    pub fn toggle(&mut self, base: usize) -> (r: Result<Vec<MemoryOp>, PatchError>)
        ensures
            all_fit(spec_table(), base) ==> r is Ok && final(self).0 == !old(self).0 && views(
                r->Ok_0@,
            ) == spec_ops(spec_table(), base, !old(self).0),
            !all_fit(spec_table(), base) ==> r is Err && r->Err_0 == PatchError::AddressOverflow
                && *final(self) == *old(self),
    {
        let next = NoSearchLocking(!self.0);
        match next.writes(base) {
            Ok(ops) => {
                self.0 = next.0;
                Ok(ops)
            },
            Err(e) => Err(e),
        }
    }

    /// Takes back the last toggle, after what it asked for has failed.
    pub fn update_failed(&mut self)
        ensures
            final(self).0 == !old(self).0,
    {
        self.0 = !self.0;
    }
}

impl Plugin for NoSearchLocking {
    open spec fn spec_pass(&self) -> PluginPass {
        PluginPass::Late
    }

    open spec fn spec_name(&self) -> Seq<char> {
        "No Search Locking"@
    }

    open spec fn spec_priority(&self) -> Option<usize> {
        Some(2usize)
    }

    fn pass(&self) -> (pass: PluginPass) {
        PluginPass::Late
    }

    fn name(&self) -> (name: String) {
        String::from_str("No Search Locking")
    }

    fn section(&self) -> (section: Option<String>) {
        None
    }

    fn priority(&self) -> (priority: Option<usize>) {
        Some(2usize)
    }
}

} // verus!
