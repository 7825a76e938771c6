//! Reversible byte patches.
//!
//! A [`PatchUnit`] overwrites a fixed range of the target's image: with
//! its "on" bytes when it is enabled, with its "off" bytes when it is
//! disabled. Both are equally long, so a patch never moves what lies
//! behind it. Units are addressed relative to the base of the module they
//! patch.

pub mod compact;

use crate::memory::apply_all;
use crate::memory::guarded_write;
use crate::memory::holds;
use crate::memory::lemma_apply_all_concat;
use crate::memory::lemma_guarded_write_effect;
use crate::memory::spec_guarded_write;
use crate::memory::views;
use crate::memory::write_at;
use crate::memory::Memory;
use crate::memory::MemoryOp;
use crate::memory::OpView;
use vstd::prelude::*;

verus! {

/// Why a patch could not be made or applied.
#[derive(Clone, Copy, Debug, PartialEq, Eq, Structural)]
pub enum PatchError {
    /// The "on" bytes and the "off" bytes of a unit differ in length.
    LengthMismatch,
    /// The patched range does not fit in the address space.
    AddressOverflow,
    /// Changing the protection, writing, or restoring the protection
    /// failed in the target process.
    PatchWriteFailed,
    /// What is to be kept in the scratch region does not fit in it.
    ScratchOverflow,
}

/// A [`PatchUnit`] as a value of specifications.
pub struct PatchUnitView {
    pub address: usize,
    pub on_bytes: Seq<u8>,
    pub off_bytes: Seq<u8>,
    pub enabled: bool,
}

impl PatchUnitView {
    /// Both byte sequences are equally long.
    pub open spec fn wf(self) -> bool {
        self.on_bytes.len() == self.off_bytes.len()
    }

    /// The bytes that the unit writes when it is switched on or off.
    pub open spec fn bytes(self, on: bool) -> Seq<u8> {
        if on {
            self.on_bytes
        } else {
            self.off_bytes
        }
    }

    /// Whether the range of the unit lies in the address space of a module
    /// loaded at `base`.
    pub open spec fn fits(self, base: usize) -> bool {
        base + self.address + self.on_bytes.len() <= usize::MAX
    }

    /// Whether the range of the unit, in a module loaded at `base`, holds
    /// the address `a`.
    pub open spec fn covers(self, base: usize, a: int) -> bool {
        base + self.address <= a < base + self.address + self.on_bytes.len()
    }

    /// The unit, switched on or off.
    pub open spec fn switched(self, on: bool) -> PatchUnitView {
        PatchUnitView { enabled: on, ..self }
    }

    /// The requests that switch the unit on or off in a module loaded at
    /// `base`.
    pub open spec fn ops(self, base: usize, on: bool) -> Seq<OpView> {
        spec_guarded_write((base + self.address) as usize, self.bytes(on))
    }
}

/// One reversible patch.
#[derive(Debug)]
pub struct PatchUnit {
    address: usize,
    on_bytes: Vec<u8>,
    off_bytes: Vec<u8>,
    enabled: bool,
    previous: bool,
}

impl View for PatchUnit {
    type V = PatchUnitView;

    closed spec fn view(&self) -> PatchUnitView {
        PatchUnitView {
            address: self.address,
            on_bytes: self.on_bytes@,
            off_bytes: self.off_bytes@,
            enabled: self.enabled,
        }
    }
}

impl PatchUnit {
    #[verifier::type_invariant]
    spec fn equal_lengths(self) -> bool {
        self.on_bytes@.len() == self.off_bytes@.len()
    }

    /// The state that the unit was in before it was last switched: what a
    /// failed update puts back.
    pub closed spec fn previous(&self) -> bool {
        self.previous
    }

    /// A unit at `address` that is switched off. The two byte sequences
    /// must be equally long: a unit that would fail this is never made.
    pub fn new(address: usize, on_bytes: Vec<u8>, off_bytes: Vec<u8>) -> (r: Result<
        PatchUnit,
        PatchError,
    >)
        ensures
            on_bytes@.len() != off_bytes@.len() ==> r is Err && r->Err_0
                == PatchError::LengthMismatch,
            on_bytes@.len() == off_bytes@.len() ==> r is Ok && r->Ok_0@ == (PatchUnitView {
                address,
                on_bytes: on_bytes@,
                off_bytes: off_bytes@,
                enabled: false,
            }) && !r->Ok_0.previous(),
    {
        if on_bytes.len() != off_bytes.len() {
            return Err(PatchError::LengthMismatch);
        }
        Ok(PatchUnit { address, on_bytes, off_bytes, enabled: false, previous: false })
    }

    /// The address of the patched range, relative to the module's base.
    pub fn address(&self) -> (address: usize)
        ensures
            address == self@.address,
    {
        self.address
    }

    /// The bytes that enable the patch.
    pub fn on_bytes(&self) -> (bytes: &Vec<u8>)
        ensures
            bytes@ == self@.on_bytes,
    {
        &self.on_bytes
    }

    /// The bytes that disable the patch: what the image holds unpatched.
    pub fn off_bytes(&self) -> (bytes: &Vec<u8>)
        ensures
            bytes@ == self@.off_bytes,
    {
        &self.off_bytes
    }

    /// Whether the unit was last switched on.
    pub fn is_enabled(&self) -> (enabled: bool)
        ensures
            enabled == self@.enabled,
    {
        self.enabled
    }

    /// Adds to `ops` the requests that switch this unit on or off in a
    /// module loaded at `base`. Nothing is added when the range does not
    /// fit in the address space.
    pub fn plan(&self, base: usize, on: bool, ops: &mut Vec<MemoryOp>) -> (r: Result<
        (),
        PatchError,
    >)
        ensures
            self@.wf(),
            self@.fits(base) ==> r is Ok && views(final(ops)@) == views(old(ops)@) + self@.ops(
                base,
                on,
            ),
            !self@.fits(base) ==> r is Err && r->Err_0 == PatchError::AddressOverflow
                && final(ops)@ == old(ops)@,
    {
        proof {
            use_type_invariant(self);
        }
        let start = match base.checked_add(self.address) {
            Some(start) => start,
            None => { return Err(PatchError::AddressOverflow); },
        };
        if start.checked_add(self.on_bytes.len()).is_none() {
            return Err(PatchError::AddressOverflow);
        }
        if on {
            guarded_write(ops, start, self.on_bytes.as_slice());
        } else {
            guarded_write(ops, start, self.off_bytes.as_slice());
        }
        Ok(())
    }

    /// A copy of the unit that records that it was switched on or off,
    /// and what it was before.
    pub fn switched(&self, on: bool) -> (unit: PatchUnit)
        ensures
            unit@ == self@.switched(on),
            unit.previous() == self@.enabled,
    {
        proof {
            use_type_invariant(self);
        }
        PatchUnit {
            address: self.address,
            on_bytes: vstd::slice::slice_to_vec(self.on_bytes.as_slice()),
            off_bytes: vstd::slice::slice_to_vec(self.off_bytes.as_slice()),
            enabled: on,
            previous: self.enabled,
        }
    }

    /// Records that the unit was switched on or off, and what it was
    /// before.
    pub fn mark(&mut self, on: bool)
        ensures
            final(self)@ == old(self)@.switched(on),
            final(self).previous() == old(self)@.enabled,
    {
        proof {
            use_type_invariant(&*self);
        }
        self.previous = self.enabled;
        self.enabled = on;
    }

    /// Takes back the last switch, after what it asked for has failed in
    /// the process: the unit is recorded as what it was before that
    /// switch, whether the switch changed it or not.
    pub fn update_failed(&mut self)
        ensures
            final(self)@ == old(self)@.switched(old(self).previous()),
            final(self).previous() == old(self).previous(),
    {
        proof {
            use_type_invariant(&*self);
        }
        self.enabled = self.previous;
    }

    /// Switches the unit to `on` in a module loaded at `base`: the unit
    /// records the new state, and the result is what is to be run. Where
    /// the range does not fit in the address space, nothing changes.
    pub fn switch(&mut self, base: usize, on: bool) -> (r: Result<Vec<MemoryOp>, PatchError>)
        ensures
            old(self)@.wf(),
            old(self)@.fits(base) ==> r is Ok && views(r->Ok_0@) == old(self)@.ops(base, on)
                && final(self)@ == old(self)@.switched(on)
                    && final(self).previous() == old(self)@.enabled,
            !old(self)@.fits(base) ==> r is Err && r->Err_0 == PatchError::AddressOverflow
                && final(self)@ == old(self)@ && final(self).previous() == old(self).previous(),
    {
        let mut ops: Vec<MemoryOp> = Vec::new();
        match self.plan(base, on, &mut ops) {
            Ok(_) => {},
            Err(e) => { return Err(e); },
        }
        proof {
            assert(views(Seq::<MemoryOp>::empty()) + old(self)@.ops(base, on) =~= old(self)@.ops(
                base,
                on,
            ));
        }
        self.mark(on);
        Ok(ops)
    }

    /// Writes the "on" bytes: protect, write, restore.
    pub fn enable(&mut self, base: usize) -> (r: Result<Vec<MemoryOp>, PatchError>)
        ensures
            old(self)@.wf(),
            old(self)@.fits(base) ==> r is Ok && views(r->Ok_0@) == old(self)@.ops(base, true)
                && final(self)@ == old(self)@.switched(true)
                    && final(self).previous() == old(self)@.enabled,
            !old(self)@.fits(base) ==> r is Err && r->Err_0 == PatchError::AddressOverflow
                && final(self)@ == old(self)@ && final(self).previous() == old(self).previous(),
    {
        self.switch(base, true)
    }

    /// Writes the "off" bytes: protect, write, restore.
    pub fn disable(&mut self, base: usize) -> (r: Result<Vec<MemoryOp>, PatchError>)
        ensures
            old(self)@.wf(),
            old(self)@.fits(base) ==> r is Ok && views(r->Ok_0@) == old(self)@.ops(base, false)
                && final(self)@ == old(self)@.switched(false)
                    && final(self).previous() == old(self)@.enabled,
            !old(self)@.fits(base) ==> r is Err && r->Err_0 == PatchError::AddressOverflow
                && final(self)@ == old(self)@ && final(self).previous() == old(self).previous(),
    {
        self.switch(base, false)
    }

    /// Switches the unit to the state it is not in.
    pub fn toggle(&mut self, base: usize) -> (r: Result<Vec<MemoryOp>, PatchError>)
        ensures
            old(self)@.wf(),
            old(self)@.fits(base) ==> r is Ok && views(r->Ok_0@) == old(self)@.ops(
                base,
                !old(self)@.enabled,
            ) && final(self)@ == old(self)@.switched(!old(self)@.enabled)
                && final(self).previous() == old(self)@.enabled,
            !old(self)@.fits(base) ==> r is Err && r->Err_0 == PatchError::AddressOverflow
                && final(self)@ == old(self)@ && final(self).previous() == old(self).previous(),
    {
        let on = !self.enabled;
        self.switch(base, on)
    }
}

/// Whether all of `units` are recorded as switched on, or all as switched
/// off, as `on` says.
pub open spec fn uniform(units: Seq<PatchUnitView>, on: bool) -> bool {
    forall|i: int| 0 <= i < units.len() ==> (#[trigger] units[i]).enabled == on
}

/// Whether all of `units` are well formed.
pub open spec fn all_wf(units: Seq<PatchUnitView>) -> bool {
    forall|i: int| 0 <= i < units.len() ==> (#[trigger] units[i]).wf()
}

/// Whether the ranges of all of `units` fit in the address space of a
/// module loaded at `base`.
pub open spec fn all_fit(units: Seq<PatchUnitView>, base: usize) -> bool {
    forall|i: int| 0 <= i < units.len() ==> (#[trigger] units[i]).fits(base)
}

/// Whether some unit of `units` patches the address `a`.
pub open spec fn covered(units: Seq<PatchUnitView>, base: usize, a: int) -> bool {
    exists|i: int| 0 <= i < units.len() && (#[trigger] units[i]).covers(base, a)
}

/// Whether `memory` holds, in the range of every unit of `units`, the
/// "off" bytes of that unit: the state of a module that nothing has
/// patched.
pub open spec fn unpatched(memory: Memory, units: Seq<PatchUnitView>, base: usize) -> bool {
    forall|i: int|
        0 <= i < units.len() ==> holds(
            memory,
            base + (#[trigger] units[i]).address,
            units[i].off_bytes,
        )
}

/// The requests that switch all of `units` on or off, the first unit
/// first.
pub open spec fn spec_ops(units: Seq<PatchUnitView>, base: usize, on: bool) -> Seq<OpView>
    decreases units.len(),
{
    if units.len() == 0 {
        Seq::empty()
    } else {
        spec_ops(units.drop_last(), base, on) + units.last().ops(base, on)
    }
}

/// `memory` after all of `units` have been switched on or off, the first
/// unit first.
pub open spec fn spec_patched(memory: Memory, units: Seq<PatchUnitView>, base: usize, on: bool)
    -> Memory
    decreases units.len(),
{
    if units.len() == 0 {
        memory
    } else {
        write_at(
            spec_patched(memory, units.drop_last(), base, on),
            base + units.last().address,
            units.last().bytes(on),
        )
    }
}

/// All of `units`, switched on or off.
pub open spec fn all_switched(units: Seq<PatchUnitView>, on: bool) -> Seq<PatchUnitView> {
    Seq::new(units.len(), |i: int| units[i].switched(on))
}

/// Taking back a switch leaves a unit as it was before the switch.
pub proof fn lemma_unit_failed_switch_restores(unit: PatchUnitView, on: bool)
    ensures
        unit.switched(on).switched(unit.enabled) == unit,
{
}

/// Taking back a switch leaves units as they were before the switch,
/// whether the switch changed them or not: switched to `on` and then back
/// to what they all were, they are what they were.
pub proof fn lemma_failed_switch_restores(units: Seq<PatchUnitView>, before: bool, on: bool)
    requires
        uniform(units, before),
    ensures
        all_switched(all_switched(units, on), before) == units,
        uniform(all_switched(units, on), on),
{
    assert forall|i: int| 0 <= i < units.len() implies all_switched(
        all_switched(units, on),
        before,
    )[i] == units[i] by {
        assert(units[i].enabled == before);
    }
    assert(all_switched(all_switched(units, on), before) =~= units);
}

/// Running the requests of `spec_ops` changes the memory as `spec_patched`
/// says.
pub proof fn lemma_ops_effect(memory: Memory, units: Seq<PatchUnitView>, base: usize, on: bool)
    requires
        all_fit(units, base),
    ensures
        apply_all(memory, spec_ops(units, base, on)) == spec_patched(memory, units, base, on),
    decreases units.len(),
{
    if units.len() > 0 {
        let front = units.drop_last();
        let last = units.last();
        lemma_ops_effect(memory, front, base, on);
        lemma_apply_all_concat(memory, spec_ops(front, base, on), last.ops(base, on));
        assert(last.fits(base));
        lemma_guarded_write_effect(
            spec_patched(memory, front, base, on),
            (base + last.address) as usize,
            last.bytes(on),
        );
    }
}

/// Switching units on or off changes the memory only where a unit patches
/// it. Switching them off leaves, wherever a unit patches, what `mapped`
/// holds there, given that `mapped` holds the "off" bytes of every unit.
/// In a memory that maps the range of every unit, no address is added.
pub proof fn lemma_patched_frame(
    memory: Memory,
    mapped: Memory,
    units: Seq<PatchUnitView>,
    base: usize,
    on: bool,
)
    requires
        all_wf(units),
        unpatched(mapped, units, base),
        memory.dom() == mapped.dom(),
    ensures
        spec_patched(memory, units, base, on).dom() == memory.dom(),
        forall|a: int|
            memory.dom().contains(a) && !covered(units, base, a) ==> #[trigger] spec_patched(
                memory,
                units,
                base,
                on,
            )[a] == memory[a],
        !on ==> forall|a: int|
            covered(units, base, a) ==> #[trigger] spec_patched(memory, units, base, on)[a]
                == mapped[a],
    decreases units.len(),
{
    if units.len() > 0 {
        let front = units.drop_last();
        let last = units.last();
        let before = spec_patched(memory, front, base, on);
        let after = spec_patched(memory, units, base, on);
        assert(all_wf(front)) by {
            assert forall|i: int| 0 <= i < front.len() implies (#[trigger] front[i]).wf() by {
                assert(front[i] == units[i]);
                assert(units[i].wf());
            }
        }
        assert(unpatched(mapped, front, base)) by {
            assert forall|i: int| 0 <= i < front.len() implies holds(
                mapped,
                base + (#[trigger] front[i]).address,
                front[i].off_bytes,
            ) by {
                assert(front[i] == units[i]);
                assert(holds(mapped, base + units[i].address, units[i].off_bytes));
            }
        }
        lemma_patched_frame(memory, mapped, front, base, on);
        assert(last == units[units.len() - 1]);
        assert(last.wf());
        assert(holds(mapped, base + last.address, last.off_bytes));
        assert forall|a: int| last.covers(base, a) implies mapped.dom().contains(a) && mapped[a]
            == last.off_bytes[a - (base + last.address)] by {
            assert(mapped.dom().contains(a));
        }
        assert(after.dom() =~= memory.dom());
        assert forall|a: int|
            memory.dom().contains(a) && !covered(units, base, a) implies #[trigger] after[a]
            == memory[a] by {
            assert(!last.covers(base, a));
            if covered(front, base, a) {
                let i = choose|i: int| 0 <= i < front.len() && (#[trigger] front[i]).covers(
                    base,
                    a,
                );
                assert(front[i] == units[i]);
                assert(units[i].covers(base, a));
            }
            assert(before[a] == memory[a]);
        }
        if !on {
            assert forall|a: int| covered(units, base, a) implies #[trigger] after[a]
                == mapped[a] by {
                if !last.covers(base, a) {
                    let i = choose|i: int| 0 <= i < units.len() && (#[trigger] units[i]).covers(
                        base,
                        a,
                    );
                    assert(i < front.len());
                    assert(front[i] == units[i]);
                    assert(covered(front, base, a));
                    assert(before[a] == mapped[a]);
                }
            }
        }
    }
}

/// Enabling and then disabling units restores the memory byte for byte,
/// given that the memory held the "off" bytes of every unit before: the
/// state in which the units found it.
pub proof fn lemma_enable_then_disable_restores(
    memory: Memory,
    units: Seq<PatchUnitView>,
    base: usize,
)
    requires
        all_wf(units),
        all_fit(units, base),
        unpatched(memory, units, base),
    ensures
        apply_all(apply_all(memory, spec_ops(units, base, true)), spec_ops(units, base, false))
            == memory,
{
    let enabled = spec_patched(memory, units, base, true);
    let disabled = spec_patched(enabled, units, base, false);
    lemma_ops_effect(memory, units, base, true);
    lemma_ops_effect(enabled, units, base, false);
    lemma_patched_frame(memory, memory, units, base, true);
    lemma_patched_frame(enabled, memory, units, base, false);
    assert forall|a: int| disabled.dom().contains(a) implies #[trigger] disabled[a]
        == memory[a] by {
        if covered(units, base, a) {
        } else {
            assert(disabled[a] == enabled[a]);
            assert(enabled[a] == memory[a]);
        }
    }
    assert(disabled =~= memory);
}

/// Enabling and then disabling one unit restores the memory byte for
/// byte, given that the memory held the "off" bytes of the unit before.
pub proof fn lemma_unit_enable_then_disable_restores(
    memory: Memory,
    unit: PatchUnitView,
    base: usize,
)
    requires
        unit.wf(),
        unit.fits(base),
        holds(memory, base + unit.address, unit.off_bytes),
    ensures
        apply_all(apply_all(memory, unit.ops(base, true)), unit.ops(base, false)) == memory,
{
    let units = seq![unit];
    assert(units.drop_last() =~= Seq::<PatchUnitView>::empty());
    assert(units.last() == unit);
    reveal_with_fuel(spec_ops, 2);
    assert(spec_ops(units, base, true) =~= unit.ops(base, true));
    assert(spec_ops(units, base, false) =~= unit.ops(base, false));
    lemma_enable_then_disable_restores(memory, units, base);
}

/// Enabling and then disabling one unit restores the memory exactly where
/// the memory held the "off" bytes of the unit before, and nowhere else:
/// disabling writes those bytes, whatever the unit found.
pub proof fn lemma_unit_restores_iff(memory: Memory, unit: PatchUnitView, base: usize)
    requires
        unit.wf(),
        unit.fits(base),
    ensures
        apply_all(apply_all(memory, unit.ops(base, true)), unit.ops(base, false)) == memory
            <==> holds(memory, base + unit.address, unit.off_bytes),
        holds(
            apply_all(apply_all(memory, unit.ops(base, true)), unit.ops(base, false)),
            base + unit.address,
            unit.off_bytes,
        ),
{
    let address = (base + unit.address) as usize;
    let enabled = apply_all(memory, unit.ops(base, true));
    let disabled = apply_all(enabled, unit.ops(base, false));
    lemma_guarded_write_effect(memory, address, unit.on_bytes);
    lemma_guarded_write_effect(enabled, address, unit.off_bytes);
    assert(holds(disabled, base + unit.address, unit.off_bytes));
    if holds(memory, base + unit.address, unit.off_bytes) {
        lemma_unit_enable_then_disable_restores(memory, unit, base);
    }
}

/// What a switch of units leaves in the memory, address by address: the
/// addresses that were mapped or that a unit patches are mapped; where no
/// unit patches, the byte is as before; and where a unit patches, the
/// byte does not depend on what the memory held before.
pub proof fn lemma_patched_values(
    first: Memory,
    second: Memory,
    units: Seq<PatchUnitView>,
    base: usize,
    on: bool,
)
    requires
        all_wf(units),
    ensures
        forall|a: int|
            #[trigger] spec_patched(first, units, base, on).dom().contains(a) <==> first.dom()
                .contains(a) || covered(units, base, a),
        forall|a: int|
            first.dom().contains(a) && !covered(units, base, a) ==> #[trigger] spec_patched(
                first,
                units,
                base,
                on,
            )[a] == first[a],
        forall|a: int|
            covered(units, base, a) ==> #[trigger] spec_patched(first, units, base, on)[a]
                == spec_patched(second, units, base, on)[a],
    decreases units.len(),
{
    if units.len() > 0 {
        let front = units.drop_last();
        let last = units.last();
        assert(last == units[units.len() - 1]);
        assert(last.wf());
        assert(all_wf(front)) by {
            assert forall|i: int| 0 <= i < front.len() implies (#[trigger] front[i]).wf() by {
                assert(front[i] == units[i]);
                assert(units[i].wf());
            }
        }
        lemma_patched_values(first, second, front, base, on);
        lemma_patched_values(second, first, front, base, on);
        let before_first = spec_patched(first, front, base, on);
        let before_second = spec_patched(second, front, base, on);
        let after_first = spec_patched(first, units, base, on);
        let after_second = spec_patched(second, units, base, on);
        assert forall|a: int| covered(front, base, a) implies covered(units, base, a) by {
            let i = choose|i: int| 0 <= i < front.len() && (#[trigger] front[i]).covers(base, a);
            assert(front[i] == units[i]);
            assert(units[i].covers(base, a));
        }
        assert forall|a: int| last.covers(base, a) implies covered(units, base, a) by {
            assert(units[units.len() - 1].covers(base, a));
        }
        assert forall|a: int| covered(units, base, a) && !last.covers(base, a) implies covered(
            front,
            base,
            a,
        ) by {
            let i = choose|i: int| 0 <= i < units.len() && (#[trigger] units[i]).covers(base, a);
            assert(i < front.len());
            assert(front[i] == units[i]);
        }
        assert forall|a: int| #[trigger]
            after_first.dom().contains(a) <==> first.dom().contains(a) || covered(
                units,
                base,
                a,
            ) by {
            assert(before_first.dom().contains(a) <==> first.dom().contains(a) || covered(
                front,
                base,
                a,
            ));
        }
        assert forall|a: int|
            first.dom().contains(a) && !covered(units, base, a) implies #[trigger] after_first[a]
            == first[a] by {
            assert(before_first[a] == first[a]);
        }
        assert forall|a: int| covered(units, base, a) implies #[trigger] after_first[a]
            == after_second[a] by {
            if !last.covers(base, a) {
                assert(covered(front, base, a));
                assert(before_first.dom().contains(a));
                assert(before_second.dom().contains(a));
                assert(before_first[a] == before_second[a]);
            } else {
                assert(after_first.dom().contains(a));
                assert(after_second.dom().contains(a) <==> before_second.dom().contains(a) || (
                base + last.address <= a < base + last.address + last.bytes(on).len()));
            }
        }
    }
}

/// Two memories that map the same addresses and agree wherever no unit
/// patches are the same memory after a switch of the units.
pub proof fn lemma_patched_agree(
    first: Memory,
    second: Memory,
    units: Seq<PatchUnitView>,
    base: usize,
    on: bool,
)
    requires
        all_wf(units),
        first.dom() == second.dom(),
        forall|a: int|
            first.dom().contains(a) && !covered(units, base, a) ==> #[trigger] first[a]
                == second[a],
    ensures
        spec_patched(first, units, base, on) == spec_patched(second, units, base, on),
{
    lemma_patched_values(first, second, units, base, on);
    lemma_patched_values(second, first, units, base, on);
    let one = spec_patched(first, units, base, on);
    let other = spec_patched(second, units, base, on);
    assert forall|a: int| one.dom().contains(a) <==> other.dom().contains(a) by {
        assert(one.dom().contains(a) <==> first.dom().contains(a) || covered(units, base, a));
        assert(other.dom().contains(a) <==> second.dom().contains(a) || covered(units, base, a));
    }
    assert(one.dom() =~= other.dom());
    assert forall|a: int| one.dom().contains(a) implies #[trigger] one[a] == other[a] by {
        if !covered(units, base, a) {
            assert(one[a] == first[a]);
            assert(other[a] == second[a]);
        }
    }
    assert(one =~= other);
}

/// Switching units on twice, or off twice, leaves the memory as
/// switching them once does: the second time writes the same bytes again.
pub proof fn lemma_switch_twice(memory: Memory, units: Seq<PatchUnitView>, base: usize, on: bool)
    requires
        all_wf(units),
        all_fit(units, base),
    ensures
        apply_all(apply_all(memory, spec_ops(units, base, on)), spec_ops(units, base, on))
            == apply_all(memory, spec_ops(units, base, on)),
{
    let once = spec_patched(memory, units, base, on);
    let twice = spec_patched(once, units, base, on);
    lemma_ops_effect(memory, units, base, on);
    lemma_ops_effect(once, units, base, on);
    lemma_patched_values(memory, once, units, base, on);
    lemma_patched_values(once, memory, units, base, on);
    assert forall|a: int| twice.dom().contains(a) <==> once.dom().contains(a) by {
        assert(twice.dom().contains(a) <==> once.dom().contains(a) || covered(units, base, a));
        assert(once.dom().contains(a) <==> memory.dom().contains(a) || covered(units, base, a));
    }
    assert(twice.dom() =~= once.dom());
    assert forall|a: int| twice.dom().contains(a) implies #[trigger] twice[a] == once[a] by {
        if !covered(units, base, a) {
            assert(once.dom().contains(a));
        }
    }
    assert(twice =~= once);
}

/// What a feature does to a process. It is started once in a session;
/// after that it is enabled, disabled and toggled at will. Every method
/// says what is to be run in a module loaded at `base`; those that switch
/// the feature record the new state as well, and change nothing where a
/// unit does not fit in the address space.
pub trait Patch {
    /// The units that enabling and disabling switch.
    spec fn units(&self) -> Seq<PatchUnitView>;

    /// The units that starting switches on.
    spec fn start_units(&self) -> Seq<PatchUnitView>;

    /// Whether the feature was last switched on.
    spec fn active(&self) -> bool;

    /// The state that the feature was in before it was last switched: what
    /// a failed update puts back.
    spec fn was_active(&self) -> bool;

    /// What is written once, when the session starts.
    fn start(&self, base: usize) -> (r: Result<Vec<MemoryOp>, PatchError>)
        ensures
            all_fit(self.start_units(), base) ==> r is Ok && views(r->Ok_0@) == spec_ops(
                self.start_units(),
                base,
                true,
            ),
            !all_fit(self.start_units(), base) ==> r is Err && r->Err_0
                == PatchError::AddressOverflow,
    ;

    /// What writes the recorded state once more.
    fn update(&self, base: usize) -> (r: Result<Vec<MemoryOp>, PatchError>)
        ensures
            all_fit(self.units(), base) ==> r is Ok && views(r->Ok_0@) == spec_ops(
                self.units(),
                base,
                self.active(),
            ),
            !all_fit(self.units(), base) ==> r is Err && r->Err_0 == PatchError::AddressOverflow,
    ;

    /// Switches the feature on.
    fn enable(&mut self, base: usize) -> (r: Result<Vec<MemoryOp>, PatchError>)
        ensures
            final(self).start_units() == old(self).start_units(),
            all_fit(old(self).units(), base) ==> r is Ok && views(r->Ok_0@) == spec_ops(
                old(self).units(),
                base,
                true,
            ) && final(self).units() == all_switched(old(self).units(), true)
                && final(self).active() && final(self).was_active() == old(self).active(),
            !all_fit(old(self).units(), base) ==> r is Err && r->Err_0
                == PatchError::AddressOverflow && final(self).units() == old(self).units()
                && final(self).active() == old(self).active() && final(self).was_active()
                == old(self).was_active(),
    ;

    /// Switches the feature off.
    fn disable(&mut self, base: usize) -> (r: Result<Vec<MemoryOp>, PatchError>)
        ensures
            final(self).start_units() == old(self).start_units(),
            all_fit(old(self).units(), base) ==> r is Ok && views(r->Ok_0@) == spec_ops(
                old(self).units(),
                base,
                false,
            ) && final(self).units() == all_switched(old(self).units(), false)
                && !final(self).active() && final(self).was_active() == old(self).active(),
            !all_fit(old(self).units(), base) ==> r is Err && r->Err_0
                == PatchError::AddressOverflow && final(self).units() == old(self).units()
                && final(self).active() == old(self).active() && final(self).was_active()
                == old(self).was_active(),
    ;

    /// Switches the feature to the state it is not in.
    fn toggle(&mut self, base: usize) -> (r: Result<Vec<MemoryOp>, PatchError>)
        ensures
            final(self).start_units() == old(self).start_units(),
            all_fit(old(self).units(), base) ==> r is Ok && views(r->Ok_0@) == spec_ops(
                old(self).units(),
                base,
                !old(self).active(),
            ) && final(self).units() == all_switched(old(self).units(), !old(self).active())
                && final(self).active() == !old(self).active() && final(self).was_active()
                == old(self).active(),
            !all_fit(old(self).units(), base) ==> r is Err && r->Err_0
                == PatchError::AddressOverflow && final(self).units() == old(self).units()
                && final(self).active() == old(self).active() && final(self).was_active()
                == old(self).was_active(),
    ;

    /// Takes back the last switch, after what it asked for has failed in
    /// the process: the feature is recorded as what it was before that
    /// switch, whether the switch changed it or not.
    fn update_failed(&mut self)
        ensures
            final(self).start_units() == old(self).start_units(),
            final(self).units() == all_switched(old(self).units(), old(self).was_active()),
            final(self).active() == old(self).was_active(),
            final(self).was_active() == old(self).was_active(),
    ;
}

} // verus!
