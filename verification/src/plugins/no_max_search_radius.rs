//! Lifts the bound on the search radius.

use crate::handler::compact_patch::spec_units;
use crate::handler::compact_patch::CompactPatch;
use crate::memory::views;
use crate::memory::MemoryOp;
use crate::patches::all_fit;
use crate::patches::spec_ops;
use crate::patches::PatchError;
use crate::patches::PatchUnitView;
use crate::handler::compact_patch::unit_data;
use crate::plugin::Plugin;
use crate::plugin::PluginPass;
use vstd::prelude::*;
use vstd::string::*;

verus! {

/// Where the module jumps past searches beyond the bound.
pub const JUMP: usize = 0x3EFBA0;

pub const JUMP_ON: [u8; 1] = [0xEBu8];

pub const JUMP_OFF: [u8; 1] = [0x76u8];

/// The units of the feature.
pub open spec fn spec_table() -> Seq<PatchUnitView> {
    seq![
        PatchUnitView { address: JUMP, on_bytes: JUMP_ON@, off_bytes: JUMP_OFF@, enabled: false },
    ]
}

/// The feature; the field says whether it is switched on.
#[derive(Clone, Copy, Debug, PartialEq, Eq, Structural)]
pub struct NoMaxSearchRadius(pub bool);

impl Default for NoMaxSearchRadius {
    fn default() -> (plugin: NoMaxSearchRadius)
        ensures
            plugin == NoMaxSearchRadius(false),
    {
        NoMaxSearchRadius(false)
    }
}

impl NoMaxSearchRadius {
    /// The patch of the feature, switched off.
    pub fn patch() -> (patch: CompactPatch)
        ensures
            patch@ == spec_table(),
            !patch.enabled(),
    {
        let mut data: Vec<(usize, Vec<u8>, Vec<u8>)> = Vec::new();
        data.push(unit_data(JUMP, &JUMP_ON, &JUMP_OFF));
        proof {
            assert(spec_units(data@) =~= spec_table());
        }
        CompactPatch::new(data).unwrap()
    }

    /// What brings a module loaded at `base` to the state of the feature.
    pub fn writes(&self, base: usize) -> (r: Result<Vec<MemoryOp>, PatchError>)
        ensures
            all_fit(spec_table(), base) ==> r is Ok && views(r->Ok_0@) == spec_ops(
                spec_table(),
                base,
                self.0,
            ),
            !all_fit(spec_table(), base) ==> r is Err && r->Err_0 == PatchError::AddressOverflow,
    {
        Self::patch().plan(base, self.0)
    }

    /// The feature as it was stored, or switched off where nothing was
    /// stored, and what brings the module to that state.
    pub fn load(stored: Option<NoMaxSearchRadius>, base: usize) -> (r: Result<
        (NoMaxSearchRadius, Vec<MemoryOp>),
        PatchError,
    >)
        ensures
            all_fit(spec_table(), base) ==> r is Ok && r->Ok_0.0 == stored.unwrap_or(
                NoMaxSearchRadius(false),
            ) && views(r->Ok_0.1@) == spec_ops(spec_table(), base, r->Ok_0.0.0),
            !all_fit(spec_table(), base) ==> r is Err && r->Err_0 == PatchError::AddressOverflow,
    {
        let plugin = match stored {
            Some(plugin) => plugin,
            None => NoMaxSearchRadius(false),
        };
        match plugin.writes(base) {
            Ok(ops) => Ok((plugin, ops)),
            Err(e) => Err(e),
        }
    }

    /// Switches the feature to the state it is not in. Where the patch
    /// does not fit in the address space, nothing changes.
    pub fn toggle(&mut self, base: usize) -> (r: Result<Vec<MemoryOp>, PatchError>)
        ensures
            all_fit(spec_table(), base) ==> r is Ok && final(self).0 == !old(self).0 && views(
                r->Ok_0@,
            ) == spec_ops(spec_table(), base, !old(self).0),
            !all_fit(spec_table(), base) ==> r is Err && r->Err_0 == PatchError::AddressOverflow
                && *final(self) == *old(self),
    {
        let next = NoMaxSearchRadius(!self.0);
        match next.writes(base) {
            Ok(ops) => {
                self.0 = next.0;
                Ok(ops)
            },
            Err(e) => Err(e),
        }
    }

    /// Takes back the last toggle, after what it asked for has failed.
    pub fn update_failed(&mut self)
        ensures
            final(self).0 == !old(self).0,
    {
        self.0 = !self.0;
    }
}

impl Plugin for NoMaxSearchRadius {
    open spec fn spec_pass(&self) -> PluginPass {
        PluginPass::Late
    }

    open spec fn spec_name(&self) -> Seq<char> {
        "No Max Search Radius"@
    }

    open spec fn spec_priority(&self) -> Option<usize> {
        Some(1usize)
    }

    fn pass(&self) -> (pass: PluginPass) {
        PluginPass::Late
    }

    fn name(&self) -> (name: String) {
        String::from_str("No Max Search Radius")
    }

    fn section(&self) -> (section: Option<String>) {
        None
    }

    fn priority(&self) -> (priority: Option<usize>) {
        Some(1usize)
    }
}

} // verus!
