//! Sets the number of systems after which a search ends.

use crate::handler::compact_patch::spec_units;
use crate::handler::compact_patch::CompactPatch;
use crate::memory::views;
use crate::memory::MemoryOp;
use crate::patches::all_fit;
use crate::patches::spec_ops;
use crate::patches::PatchError;
use crate::patches::PatchUnitView;
use crate::handler::compact_patch::unit_data;
use crate::plugin::Plugin;
use crate::plugin::PluginError;
use crate::plugin::PluginPass;
use crate::pod::le_bytes;
use crate::pod::lemma_le_bytes_len;
use crate::pod::Pod;
use vstd::prelude::*;
use vstd::string::*;

verus! {

/// Where the module holds the number a first time.
pub const FIRST: usize = 0x3F1531;

/// Where the module holds the number a second time.
pub const SECOND: usize = 0x3F1549;

/// The number that the module holds unpatched.
pub const DEFAULT: u32 = 10000;

/// The number from which a search is hard to run.
pub const HEAVY: u32 = 100000;

/// The largest number that can be set.
pub const UNSTABLE: u32 = 1000000;

/// The units that set the number `value`: it is written, least
/// significant byte first, to both places that hold it.
pub open spec fn spec_table(value: u32) -> Seq<PatchUnitView> {
    seq![
        PatchUnitView {
            address: FIRST,
            on_bytes: le_bytes(value as nat, 4),
            off_bytes: le_bytes(DEFAULT as nat, 4),
            enabled: false,
        },
        PatchUnitView {
            address: SECOND,
            on_bytes: le_bytes(value as nat, 4),
            off_bytes: le_bytes(DEFAULT as nat, 4),
            enabled: false,
        },
    ]
}

/// What loading finds and asks for, given the numbers `first` and
/// `second` that the module holds in the two places and the number
/// `value` to set: the two numbers must agree, or the module is not the
/// supported build. The result says what is to be run, and whether the
/// module held another number than an unpatched one does.
pub open spec fn spec_load(value: u32, first: u32, second: u32, base: usize) -> Result<
    (Seq<crate::memory::OpView>, bool),
    PluginError,
> {
    if first != second {
        Err(PluginError::WrongVersion)
    } else if !all_fit(spec_table(value), base) {
        Err(PluginError::Patch(PatchError::AddressOverflow))
    } else {
        Ok((spec_ops(spec_table(value), base, true), first != DEFAULT))
    }
}

/// The patch that sets the number `value`, switched off.
pub fn patch(value: u32) -> (patch: CompactPatch)
    ensures
        patch@ == spec_table(value),
        !patch.enabled(),
{
    let on_bytes = value.to_bytes();
    let off_bytes = DEFAULT.to_bytes();
    let mut data: Vec<(usize, Vec<u8>, Vec<u8>)> = Vec::new();
    data.push(unit_data(FIRST, on_bytes.as_slice(), off_bytes.as_slice()));
    data.push(unit_data(SECOND, on_bytes.as_slice(), off_bytes.as_slice()));
    proof {
        lemma_le_bytes_len(value as nat, 4);
        lemma_le_bytes_len(DEFAULT as nat, 4);
        assert(spec_units(data@) =~= spec_table(value));
    }
    CompactPatch::new(data).unwrap()
}

/// Checks the module and says what sets the number `value` in it.
pub fn load_value(value: u32, first: u32, second: u32, base: usize) -> (r: Result<
    (Vec<MemoryOp>, bool),
    PluginError,
>)
    ensures
        match spec_load(value, first, second, base) {
            Ok((ops, modified)) => r is Ok && views(r->Ok_0.0@) == ops && r->Ok_0.1 == modified,
            Err(e) => r is Err && r->Err_0 == e,
        },
{
    if first != second {
        return Err(PluginError::WrongVersion);
    }
    match patch(value).plan(base, true) {
        Ok(ops) => Ok((ops, first != DEFAULT)),
        Err(e) => Err(PluginError::Patch(e)),
    }
}

/// The feature: the number that the user asks for, and the number that is
/// in force.
#[derive(Clone, Copy, Debug, PartialEq, Eq, Structural)]
pub struct NoMaxSystemsFound(pub u32, pub u32);

impl Default for NoMaxSystemsFound {
    fn default() -> (plugin: NoMaxSystemsFound)
        ensures
            plugin == NoMaxSystemsFound(DEFAULT, DEFAULT),
    {
        NoMaxSystemsFound(DEFAULT, DEFAULT)
    }
}

impl NoMaxSystemsFound {
    /// The warning that goes with the number asked for.
    pub open spec fn spec_advice(&self) -> Option<Seq<char>> {
        if self.0 == UNSTABLE {
            Some("Values above 1000000 are very unstable. They cannot to be set."@)
        } else if self.0 > HEAVY {
            Some("Values above 100000 are both unnecessary and difficult to run."@)
        } else {
            None
        }
    }

    /// Loads the feature: the number asked for, as it was stored or the
    /// default, is put in force. `first` and `second` are the numbers
    /// that the module holds in the two places.
    pub fn load(stored: Option<NoMaxSystemsFound>, first: u32, second: u32, base: usize) -> (r:
        Result<(NoMaxSystemsFound, Vec<MemoryOp>, bool), PluginError>)
        ensures
            match spec_load(
                stored.unwrap_or(NoMaxSystemsFound(DEFAULT, DEFAULT)).0,
                first,
                second,
                base,
            ) {
                Ok((ops, modified)) => {
                    &&& r is Ok
                    &&& r->Ok_0.0.0 == stored.unwrap_or(NoMaxSystemsFound(DEFAULT, DEFAULT)).0
                    &&& r->Ok_0.0.1 == r->Ok_0.0.0
                    &&& views(r->Ok_0.1@) == ops
                    &&& r->Ok_0.2 == modified
                },
                Err(e) => r is Err && r->Err_0 == e,
            },
    {
        let requested = match stored {
            Some(plugin) => plugin.0,
            None => DEFAULT,
        };
        match load_value(requested, first, second, base) {
            Ok((ops, modified)) => Ok((NoMaxSystemsFound(requested, requested), ops, modified)),
            Err(e) => Err(e),
        }
    }

    /// Takes the number that the user asks for. It comes in force with
    /// the next session: the result says whether a restart is due.
    pub fn set_requested(&mut self, value: u32) -> (restart: bool)
        ensures
            final(self).0 == value,
            final(self).1 == old(self).1,
            restart == (value != old(self).0),
    {
        let restart = value != self.0;
        self.0 = value;
        restart
    }

    /// The warning that goes with the number asked for.
    pub fn advice(&self) -> (text: Option<String>)
        ensures
            match self.spec_advice() {
                Some(advice) => text is Some && text->Some_0@ == advice,
                None => text is None,
            },
    {
        if self.0 == UNSTABLE {
            Some(
                String::from_str("Values above 1000000 are very unstable. They cannot to be set."),
            )
        } else if self.0 > HEAVY {
            Some(
                String::from_str("Values above 100000 are both unnecessary and difficult to run."),
            )
        } else {
            None
        }
    }
}

impl Plugin for NoMaxSystemsFound {
    open spec fn spec_pass(&self) -> PluginPass {
        PluginPass::Early
    }

    open spec fn spec_name(&self) -> Seq<char> {
        "No Max Systems Found"@
    }

    open spec fn spec_priority(&self) -> Option<usize> {
        Some(0usize)
    }

    fn pass(&self) -> (pass: PluginPass) {
        PluginPass::Early
    }

    fn name(&self) -> (name: String) {
        String::from_str("No Max Systems Found")
    }

    fn section(&self) -> (section: Option<String>) {
        None
    }

    fn priority(&self) -> (priority: Option<usize>) {
        Some(0usize)
    }
}

} // verus!
