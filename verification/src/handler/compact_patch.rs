//! Features made of several patch units.

use crate::handler::Handler;
use crate::memory::views;
use crate::memory::MemoryOp;
use crate::patches::all_fit;
use crate::patches::all_switched;
use crate::patches::all_wf;
use crate::patches::spec_ops;
use crate::patches::uniform;
use crate::patches::Patch;
use crate::patches::PatchError;
use crate::patches::PatchUnit;
use crate::patches::PatchUnitView;
use vstd::prelude::*;

verus! {

/// The units that `data` describes, all switched off: each item is an
/// address, the "on" bytes and the "off" bytes.
pub open spec fn spec_units(data: Seq<(usize, Vec<u8>, Vec<u8>)>) -> Seq<PatchUnitView> {
    Seq::new(
        data.len(),
        |i: int|
            PatchUnitView {
                address: data[i].0,
                on_bytes: data[i].1@,
                off_bytes: data[i].2@,
                enabled: false,
            },
    )
}

/// The units that the rows of a table describe, all switched off: each
/// row is an address, the "on" bytes and the "off" bytes, equally many.
pub open spec fn spec_rows<const N: usize>(rows: Seq<(usize, [u8; N], [u8; N])>) -> Seq<
    PatchUnitView,
> {
    Seq::new(
        rows.len(),
        |i: int|
            PatchUnitView {
                address: rows[i].0,
                on_bytes: rows[i].1@,
                off_bytes: rows[i].2@,
                enabled: false,
            },
    )
}

/// Keeps the search from locking up: three places of eighteen bytes each.
pub const NO_SEARCH_LOCKING_DATA: [(usize, [u8; 18], [u8; 18]); 3] = [
    (
        0x3e7c86,
        [
            0x0fu8, 0xb6u8, 0x8bu8, 0x41u8, 0x66u8, 0x02u8, 0x00u8, 0x8bu8, 0xc7u8,
            0x83u8, 0xf9u8, 0x01u8, 0x0fu8, 0x1fu8, 0x00u8, 0xbau8, 0x04u8, 0x00u8,
        ],
        [
            0x3bu8, 0x8bu8, 0xd0u8, 0x05u8, 0x00u8, 0x00u8, 0x8bu8, 0xc7u8, 0x0fu8,
            0xb6u8, 0x8bu8, 0x41u8, 0x66u8, 0x02u8, 0x00u8, 0xbau8, 0x04u8, 0x00u8,
        ],
    ),
    (
        0x3eb2aa,
        [
            0x0fu8, 0xb6u8, 0xfau8, 0x48u8, 0x8bu8, 0xd9u8, 0x80u8, 0xb9u8, 0x41u8,
            0x66u8, 0x02u8, 0x00u8, 0x01u8, 0x0fu8, 0x1fu8, 0x44u8, 0x00u8, 0x00u8,
        ],
        [
            0x8bu8, 0x81u8, 0xd4u8, 0x05u8, 0x00u8, 0x00u8, 0x0fu8, 0xb6u8, 0xfau8,
            0x48u8, 0x8bu8, 0xd9u8, 0x3bu8, 0x81u8, 0xd0u8, 0x05u8, 0x00u8, 0x00u8,
        ],
    ),
    (
        0x3eb4d2,
        [
            0x80u8, 0xb9u8, 0x41u8, 0x66u8, 0x02u8, 0x00u8, 0x01u8, 0x0fu8, 0x1fu8,
            0x44u8, 0x00u8, 0x00u8, 0x0fu8, 0x85u8, 0x82u8, 0x00u8, 0x00u8, 0x00u8,
        ],
        [
            0x8bu8, 0x81u8, 0xd4u8, 0x05u8, 0x00u8, 0x00u8, 0x3bu8, 0x81u8, 0xd0u8,
            0x05u8, 0x00u8, 0x00u8, 0x0fu8, 0x85u8, 0x82u8, 0x00u8, 0x00u8, 0x00u8,
        ],
    ),
];

/// Lets the filter on bulk classes find chthonias.
pub const CHTHONIA_FILTER_DATA: [(usize, [u8; 7], [u8; 7]); 1] = [
    (
        0x3ea759,
        [0xb8u8, 0x07u8, 0x00u8, 0x00u8, 0x00u8, 0x66u8, 0x90u8],
        [0x41u8, 0x8bu8, 0x41u8, 0x08u8, 0x4du8, 0x8bu8, 0xd1u8],
    ),
];

/// Makes the filter on temperature use the average temperature.
pub const ACCURATE_TEMP_FILTER_DATA: [(usize, [u8; 1], [u8; 1]); 1] = [
    (0x3ea85b, [0x48u8], [0x4cu8]),
];

/// One item of the data of a feature: an address, the "on" bytes and the
/// "off" bytes.
pub(crate) fn unit_data(address: usize, on_bytes: &[u8], off_bytes: &[u8]) -> (item: (
    usize,
    Vec<u8>,
    Vec<u8>,
))
    ensures
        item.0 == address,
        item.1@ == on_bytes@,
        item.2@ == off_bytes@,
{
    (address, vstd::slice::slice_to_vec(on_bytes), vstd::slice::slice_to_vec(off_bytes))
}

/// A feature that patches one or more places, all at once.
#[derive(Debug)]
pub struct CompactPatch {
    units: Vec<PatchUnit>,
    enabled: bool,
    previous: bool,
}

impl View for CompactPatch {
    type V = Seq<PatchUnitView>;

    closed spec fn view(&self) -> Seq<PatchUnitView> {
        Seq::new(self.units@.len(), |i: int| self.units@[i]@)
    }
}

impl CompactPatch {
    #[verifier::type_invariant]
    spec fn units_well_formed(self) -> bool {
        all_wf(self@) && uniform(self@, self.enabled)
    }

    /// The state that the feature was in before it was last switched: what
    /// a failed update puts back.
    pub closed spec fn previous(&self) -> bool {
        self.previous
    }

    /// Whether the feature was last switched on.
    pub closed spec fn enabled(&self) -> bool {
        self.enabled
    }

    /// A feature of the units that `data` describes, switched off. One
    /// unit whose "on" bytes and "off" bytes differ in length refuses the
    /// whole feature.
    pub fn new(data: Vec<(usize, Vec<u8>, Vec<u8>)>) -> (r: Result<CompactPatch, PatchError>)
        ensures
            all_wf(spec_units(data@)) ==> r is Ok && r->Ok_0@ == spec_units(data@)
                && !r->Ok_0.enabled() && !r->Ok_0.previous(),
            !all_wf(spec_units(data@)) ==> r is Err && r->Err_0 == PatchError::LengthMismatch,
    {
        let mut units: Vec<PatchUnit> = Vec::new();
        let mut i: usize = 0;
        while i < data.len()
            invariant
                i <= data@.len(),
                units@.len() == i,
                forall|k: int| 0 <= k < i ==> (#[trigger] units@[k])@ == spec_units(data@)[k],
                all_wf(spec_units(data@).take(i as int)),
            decreases data@.len() - i,
        {
            let item = &data[i];
            let on_bytes = vstd::slice::slice_to_vec(item.1.as_slice());
            let off_bytes = vstd::slice::slice_to_vec(item.2.as_slice());
            match PatchUnit::new(item.0, on_bytes, off_bytes) {
                Ok(unit) => {
                    units.push(unit);
                },
                Err(e) => {
                    proof {
                        assert(!spec_units(data@)[i as int].wf());
                    }
                    return Err(e);
                },
            }
            proof {
                assert forall|k: int| 0 <= k < i + 1 implies (#[trigger] spec_units(data@).take(
                    i + 1,
                )[k]).wf() by {
                    if k < i {
                        assert(spec_units(data@).take(i as int)[k].wf());
                    }
                }
            }
            i = i + 1;
        }
        proof {
            assert(spec_units(data@).take(i as int) =~= spec_units(data@));
        }
        let patch = CompactPatch { units, enabled: false, previous: false };
        proof {
            assert(patch@ =~= spec_units(data@));
        }
        Ok(patch)
    }

    /// A feature of the units that the rows of a table describe, switched
    /// off. The rows cannot be refused: the type of a row makes its two
    /// byte sequences equally long.
    pub fn from_rows<const N: usize>(rows: &[(usize, [u8; N], [u8; N])]) -> (patch: CompactPatch)
        ensures
            patch@ == spec_rows(rows@),
            !patch.enabled(),
            !patch.previous(),
    {
        let mut data: Vec<(usize, Vec<u8>, Vec<u8>)> = Vec::new();
        let mut i: usize = 0;
        while i < rows.len()
            invariant
                i <= rows@.len(),
                data@.len() == i,
                forall|k: int|
                    0 <= k < i ==> (#[trigger] data@[k]).0 == rows@[k].0 && data@[k].1@
                        == rows@[k].1@ && data@[k].2@ == rows@[k].2@,
            decreases rows@.len() - i,
        {
            let row = &rows[i];
            data.push(unit_data(row.0, row.1.as_slice(), row.2.as_slice()));
            i = i + 1;
        }
        proof {
            assert(spec_units(data@) =~= spec_rows(rows@));
            assert forall|k: int| 0 <= k < rows@.len() implies (#[trigger] spec_units(
                data@,
            )[k]).wf() by {
                vstd::array::array_len_matches_n(&rows@[k].1);
                vstd::array::array_len_matches_n(&rows@[k].2);
            }
        }
        CompactPatch::new(data).unwrap()
    }

    /// The number of units.
    pub fn len(&self) -> (n: usize)
        ensures
            n == self@.len(),
    {
        self.units.len()
    }

    /// The `i`-th unit.
    pub fn unit(&self, i: usize) -> (unit: Option<&PatchUnit>)
        ensures
            i < self@.len() ==> unit is Some && unit.unwrap()@ == self@[i as int],
            i >= self@.len() ==> unit is None,
    {
        if i < self.units.len() {
            Some(&self.units[i])
        } else {
            None
        }
    }

    /// Whether the feature was last switched on.
    pub fn is_enabled(&self) -> (enabled: bool)
        ensures
            enabled == self.enabled(),
    {
        self.enabled
    }

    /// What switches every unit on or off in a module loaded at `base`,
    /// the first unit first.
    pub fn plan(&self, base: usize, on: bool) -> (r: Result<Vec<MemoryOp>, PatchError>)
        ensures
            all_wf(self@),
            all_fit(self@, base) ==> r is Ok && views(r->Ok_0@) == spec_ops(self@, base, on),
            !all_fit(self@, base) ==> r is Err && r->Err_0 == PatchError::AddressOverflow,
    {
        proof {
            use_type_invariant(self);
        }
        let mut ops: Vec<MemoryOp> = Vec::new();
        let mut i: usize = 0;
        proof {
            assert(self@.take(0) =~= Seq::<PatchUnitView>::empty());
            assert(views(ops@) =~= spec_ops(self@.take(0), base, on));
        }
        while i < self.units.len()
            invariant
                i <= self.units@.len(),
                self@.len() == self.units@.len(),
                all_wf(self@),
                all_fit(self@.take(i as int), base),
                views(ops@) == spec_ops(self@.take(i as int), base, on),
            decreases self.units@.len() - i,
        {
            let ghost front = self@.take(i as int);
            let ghost next = self@.take(i + 1);
            proof {
                assert(next.drop_last() =~= front);
                assert(next.last() == self@[i as int]);
            }
            match self.units[i].plan(base, on, &mut ops) {
                Ok(_) => {},
                Err(e) => {
                    proof {
                        assert(!self@[i as int].fits(base));
                    }
                    return Err(e);
                },
            }
            proof {
                assert forall|k: int| 0 <= k < next.len() implies (#[trigger] next[k]).fits(
                    base,
                ) by {
                    if k < i {
                        assert(front[k].fits(base));
                    }
                }
            }
            i = i + 1;
        }
        proof {
            assert(self@.take(i as int) =~= self@);
        }
        Ok(ops)
    }

    /// Records for the feature and each of its units that they are in the
    /// state `on`, and that the feature was in the state `previous` before.
    fn record(&mut self, on: bool, previous: bool)
        ensures
            final(self)@ == all_switched(old(self)@, on),
            final(self).enabled() == on,
            final(self).previous() == previous,
    {
        proof {
            use_type_invariant(&*self);
        }
        let mut units: Vec<PatchUnit> = Vec::new();
        let ghost before = self@;
        let mut i: usize = 0;
        while i < self.units.len()
            invariant
                i <= self.units@.len(),
                self@ == before,
                before.len() == self.units@.len(),
                units@.len() == i,
                forall|k: int| 0 <= k < i ==> (#[trigger] units@[k])@ == before[k].switched(on),
            decreases self.units@.len() - i,
        {
            units.push(self.units[i].switched(on));
            i = i + 1;
        }
        proof {
            assert(Seq::new(units@.len(), |k: int| units@[k]@) =~= all_switched(before, on));
            assert forall|k: int| 0 <= k < before.len() implies (#[trigger] all_switched(
                before,
                on,
            )[k]).wf() by {
                assert(before[k].wf());
            }
        }
        *self = CompactPatch { units, enabled: on, previous };
    }

    /// Records for the feature and each of its units that it was switched
    /// on or off, and what it was before.
    pub fn mark(&mut self, on: bool)
        ensures
            final(self)@ == all_switched(old(self)@, on),
            final(self).enabled() == on,
            final(self).previous() == old(self).enabled(),
    {
        let previous = self.enabled;
        self.record(on, previous);
    }

    /// Switches the feature to `on` in the process of `handler`. Where a
    /// unit does not fit in the address space, nothing changes.
    pub fn switch(&mut self, handler: &Handler, on: bool) -> (r: Result<Vec<MemoryOp>, PatchError>)
        ensures
            all_wf(old(self)@),
            uniform(old(self)@, old(self).enabled()),
            all_fit(old(self)@, handler.base_address)
                ==> final(self).previous() == old(self).enabled(),
            !all_fit(old(self)@, handler.base_address)
                ==> final(self).previous() == old(self).previous(),
            all_fit(old(self)@, handler.base_address) ==> r is Ok && views(r->Ok_0@) == spec_ops(
                old(self)@,
                handler.base_address,
                on,
            ) && final(self)@ == all_switched(old(self)@, on) && final(self).enabled() == on,
            !all_fit(old(self)@, handler.base_address) ==> r is Err && r->Err_0
                == PatchError::AddressOverflow && final(self)@ == old(self)@
                    && final(self).enabled() == old(self).enabled(),
    {
        proof {
            use_type_invariant(&*self);
        }
        match self.plan(handler.base_address, on) {
            Ok(ops) => {
                self.mark(on);
                Ok(ops)
            },
            Err(e) => Err(e),
        }
    }

    /// Writes the "on" bytes of every unit: protect, write, restore.
    pub fn enable(&mut self, handler: &Handler) -> (r: Result<Vec<MemoryOp>, PatchError>)
        ensures
            all_wf(old(self)@),
            uniform(old(self)@, old(self).enabled()),
            all_fit(old(self)@, handler.base_address)
                ==> final(self).previous() == old(self).enabled(),
            !all_fit(old(self)@, handler.base_address)
                ==> final(self).previous() == old(self).previous(),
            all_fit(old(self)@, handler.base_address) ==> r is Ok && views(r->Ok_0@) == spec_ops(
                old(self)@,
                handler.base_address,
                true,
            ) && final(self)@ == all_switched(old(self)@, true) && final(self).enabled(),
            !all_fit(old(self)@, handler.base_address) ==> r is Err && r->Err_0
                == PatchError::AddressOverflow && final(self)@ == old(self)@
                    && final(self).enabled() == old(self).enabled(),
    {
        self.switch(handler, true)
    }

    /// Writes the "off" bytes of every unit: protect, write, restore.
    pub fn disable(&mut self, handler: &Handler) -> (r: Result<Vec<MemoryOp>, PatchError>)
        ensures
            all_wf(old(self)@),
            uniform(old(self)@, old(self).enabled()),
            all_fit(old(self)@, handler.base_address)
                ==> final(self).previous() == old(self).enabled(),
            !all_fit(old(self)@, handler.base_address)
                ==> final(self).previous() == old(self).previous(),
            all_fit(old(self)@, handler.base_address) ==> r is Ok && views(r->Ok_0@) == spec_ops(
                old(self)@,
                handler.base_address,
                false,
            ) && final(self)@ == all_switched(old(self)@, false) && !final(self).enabled(),
            !all_fit(old(self)@, handler.base_address) ==> r is Err && r->Err_0
                == PatchError::AddressOverflow && final(self)@ == old(self)@
                    && final(self).enabled() == old(self).enabled(),
    {
        self.switch(handler, false)
    }

    /// Switches the feature to the state it is not in.
    pub fn toggle(&mut self, handler: &Handler) -> (r: Result<Vec<MemoryOp>, PatchError>)
        ensures
            all_wf(old(self)@),
            uniform(old(self)@, old(self).enabled()),
            all_fit(old(self)@, handler.base_address)
                ==> final(self).previous() == old(self).enabled(),
            !all_fit(old(self)@, handler.base_address)
                ==> final(self).previous() == old(self).previous(),
            all_fit(old(self)@, handler.base_address) ==> r is Ok && views(r->Ok_0@) == spec_ops(
                old(self)@,
                handler.base_address,
                !old(self).enabled(),
            ) && final(self)@ == all_switched(old(self)@, !old(self).enabled())
                && final(self).enabled() == !old(self).enabled(),
            !all_fit(old(self)@, handler.base_address) ==> r is Err && r->Err_0
                == PatchError::AddressOverflow && final(self)@ == old(self)@
                    && final(self).enabled() == old(self).enabled(),
    {
        let on = !self.enabled;
        self.switch(handler, on)
    }

    /// Takes back the last switch, after what it asked for has failed in
    /// the process: the feature and its units are recorded as what they
    /// were before that switch, whether the switch changed them or not.
    pub fn update_failed(&mut self)
        ensures
            final(self)@ == all_switched(old(self)@, old(self).previous()),
            final(self).enabled() == old(self).previous(),
            final(self).previous() == old(self).previous(),
    {
        let previous = self.previous;
        self.record(previous, previous);
    }
}

impl Patch for CompactPatch {
    open spec fn units(&self) -> Seq<PatchUnitView> {
        self@
    }

    open spec fn start_units(&self) -> Seq<PatchUnitView> {
        Seq::empty()
    }

    open spec fn active(&self) -> bool {
        self.enabled()
    }

    open spec fn was_active(&self) -> bool {
        self.previous()
    }

    fn start(&self, base: usize) -> (r: Result<Vec<MemoryOp>, PatchError>) {
        let ops: Vec<MemoryOp> = Vec::new();
        proof {
            assert(views(ops@) =~= spec_ops(Seq::<PatchUnitView>::empty(), base, true));
        }
        Ok(ops)
    }

    fn update(&self, base: usize) -> (r: Result<Vec<MemoryOp>, PatchError>) {
        self.plan(base, self.is_enabled())
    }

    fn enable(&mut self, base: usize) -> (r: Result<Vec<MemoryOp>, PatchError>) {
        self.switch(&Handler::at(base), true)
    }

    fn disable(&mut self, base: usize) -> (r: Result<Vec<MemoryOp>, PatchError>) {
        self.switch(&Handler::at(base), false)
    }

    fn toggle(&mut self, base: usize) -> (r: Result<Vec<MemoryOp>, PatchError>) {
        let on = !self.is_enabled();
        self.switch(&Handler::at(base), on)
    }

    fn update_failed(&mut self) {
        CompactPatch::update_failed(self)
    }
}

} // verus!
