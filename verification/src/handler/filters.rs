//! Features that write numeric parameters.
//!
//! A parameter is never written into the module that reads it. The code
//! of the module is patched to read a scratch region below the module, and
//! the parameter goes into that region and nowhere else: changing it is
//! one write of its little-endian bytes there. The only bytes of the
//! module that a feature writes are code, and the constants that the
//! module itself holds, written back when the feature is disabled.

use crate::handler::Handler;
use crate::memory::apply_all;
use crate::memory::guarded_write;
use crate::memory::holds;
use crate::memory::lemma_apply_all_concat;
use crate::memory::lemma_guarded_write_effect;
use crate::memory::lemma_push_views;
use crate::memory::plain_write;
use crate::memory::spec_guarded_write;
use crate::memory::views;
use crate::memory::write_at;
use crate::memory::Memory;
use crate::memory::MemoryOp;
use crate::memory::OpView;
use crate::patches::PatchError;
use crate::pod::le_bytes;
use crate::pod::Pod;
use vstd::prelude::*;

verus! {

/// How far below the base of the module the scratch region starts.
pub const SCRATCH_BELOW_BASE: usize = 0x200000;

/// The length of the scratch region.
pub const SCRATCH_LEN: usize = 8192;

/// Where the scratch region holds the smallest similarity index that the
/// filter lets through.
pub const SCRATCH_ESI_MIN: usize = 0x500;

/// Where the scratch region holds the largest similarity index that the
/// filter lets through.
pub const SCRATCH_ESI_MAX: usize = 0x504;

/// Where the scratch region holds the search radius.
pub const SCRATCH_RADIUS: usize = 0x508;

/// Where the scratch region holds the text that shows the search radius.
pub const SCRATCH_TEXT: usize = 0x600;

/// How many bytes the scratch region has for that text: all that follow.
pub const SCRATCH_TEXT_LEN: usize = 6656;

/// What the scratch region holds lies in it side by side: the code of the
/// filter, the two bounds of the filter, the search radius, and the text
/// that shows the radius, which has the rest of the region.
pub proof fn lemma_scratch_layout()
    ensures
        ESI_FILTER_DATA_1@.len() <= SCRATCH_ESI_MIN,
        SCRATCH_ESI_MIN + 4 <= SCRATCH_ESI_MAX,
        SCRATCH_ESI_MAX + 4 <= SCRATCH_RADIUS,
        SCRATCH_RADIUS + 8 <= SCRATCH_TEXT,
        SCRATCH_TEXT + SCRATCH_TEXT_LEN == SCRATCH_LEN,
{
    vstd::array::array_len_matches_n(&ESI_FILTER_DATA_1);
}

/// Adds `op` to `ops`.
fn push_op(ops: &mut Vec<MemoryOp>, op: MemoryOp)
    ensures
        views(final(ops)@) == views(old(ops)@).push(op@),
{
    proof {
        lemma_push_views(ops@, op);
    }
    ops.push(op);
}

/// The jump that bounds the search radius: where it lies, the byte that
/// lifts the bound and the byte that keeps it.
pub const NMSR_DATA_OLD: (usize, u8, u8) = (0x3eb31e, 0xebu8, 0x74u8);

/// Where the comparison with the bound lies.
pub const NMSR_COMPARE: usize = 0x3eb328;

/// The comparison with the radius in the scratch region.
pub const NMSR_COMPARE_ON: [u8; 8] = [0x66u8, 0x0fu8, 0x2fu8, 0x05u8, 0xd8u8, 0x51u8, 0xa1u8, 0xffu8];

/// The comparison as the module has it.
pub const NMSR_COMPARE_OFF: [u8; 8] = [0x66u8, 0x0fu8, 0x2fu8, 0x05u8, 0xf0u8, 0x01u8, 0x2bu8, 0x00u8];

/// Where the module holds the bound itself.
pub const NMSR_BOUND: usize = 0x3eb334;

/// The bound as the module has it: the number 100.
pub const NMSR_BOUND_OFF: [u8; 8] = [0x00u8, 0x00u8, 0x00u8, 0x00u8, 0x00u8, 0x00u8, 0x59u8, 0x40u8];

/// What restores the comparison and the bound as the module has them. The
/// bound is written although setting a radius leaves it alone: whatever
/// stood in its place, the module holds its own bound afterwards.
pub open spec fn spec_radius_reset(base: usize) -> Seq<OpView> {
    seq![
        OpView::Write { address: (base + NMSR_COMPARE) as usize, bytes: NMSR_COMPARE_OFF@ },
        OpView::Write { address: (base + NMSR_BOUND) as usize, bytes: NMSR_BOUND_OFF@ },
    ]
}

/// What writes the jump: the byte that lifts the bound, or the byte that
/// keeps it.
pub open spec fn spec_jump(base: usize, lifted: bool) -> Seq<OpView> {
    spec_guarded_write(
        (base + NMSR_DATA_OLD.0) as usize,
        seq![if lifted {
            NMSR_DATA_OLD.1
        } else {
            NMSR_DATA_OLD.2
        }],
    )
}

/// What sets the radius `radius`, given as the bits of a 64-bit float:
/// its bytes go into the scratch region, and the comparison is pointed at
/// the scratch region, all while the page of the jump is writable. The
/// bound that the module holds is left as it is.
pub open spec fn spec_radius_set(base: usize, radius: u64) -> Seq<OpView> {
    seq![
        OpView::Protect { address: (base + NMSR_DATA_OLD.0) as usize, len: 1 },
        OpView::Write {
            address: (base - SCRATCH_BELOW_BASE + SCRATCH_RADIUS) as usize,
            bytes: le_bytes(radius as nat, 8),
        },
        OpView::Write { address: (base + NMSR_COMPARE) as usize, bytes: NMSR_COMPARE_ON@ },
        OpView::Restore { address: (base + NMSR_DATA_OLD.0) as usize, len: 1 },
    ]
}

/// Whether every address that the feature patches in a module loaded at
/// `base` is an address.
pub open spec fn spec_radius_fits(base: usize) -> bool {
    base + NMSR_BOUND + 8 <= usize::MAX
}

/// What disabling the feature asks for. With a radius of the user's own,
/// the comparison and the bound are restored; without, the jump is.
pub open spec fn spec_radius_disable(base: usize, custom: bool) -> Result<Seq<OpView>, PatchError> {
    if !spec_radius_fits(base) {
        Err(PatchError::AddressOverflow)
    } else if custom {
        Ok(spec_radius_reset(base))
    } else {
        Ok(spec_jump(base, false))
    }
}

/// What enabling the feature asks for. First the other way of lifting the
/// bound is undone. Then, with a radius of the user's own, that radius is
/// set; without, the jump is written that lifts the bound altogether.
pub open spec fn spec_radius_enable(base: usize, custom: bool, radius: u64) -> Result<
    Seq<OpView>,
    PatchError,
> {
    if !spec_radius_fits(base) || (custom && base < SCRATCH_BELOW_BASE) {
        Err(PatchError::AddressOverflow)
    } else if custom {
        Ok(spec_jump(base, false) + spec_radius_set(base, radius))
    } else {
        Ok(spec_radius_reset(base) + spec_jump(base, true))
    }
}

/// Restoring the comparison and the bound is two writes.
pub proof fn lemma_radius_reset_effect(memory: Memory, base: usize)
    ensures
        apply_all(memory, spec_radius_reset(base)) == write_at(
            write_at(memory, (base + NMSR_COMPARE) as usize as int, NMSR_COMPARE_OFF@),
            (base + NMSR_BOUND) as usize as int,
            NMSR_BOUND_OFF@,
        ),
{
    let ops = spec_radius_reset(base);
    reveal_with_fuel(apply_all, 3);
    assert(ops.drop_last().drop_last().len() == 0);
    assert(ops.drop_last().last() == ops[0]);
}

/// Setting a radius is two writes.
pub proof fn lemma_radius_set_effect(memory: Memory, base: usize, radius: u64)
    ensures
        apply_all(memory, spec_radius_set(base, radius)) == write_at(
            write_at(
                memory,
                (base - SCRATCH_BELOW_BASE + SCRATCH_RADIUS) as usize as int,
                le_bytes(radius as nat, 8),
            ),
            (base + NMSR_COMPARE) as usize as int,
            NMSR_COMPARE_ON@,
        ),
{
    let ops = spec_radius_set(base, radius);
    reveal_with_fuel(apply_all, 5);
    let three = ops.drop_last();
    let two = three.drop_last();
    let one = two.drop_last();
    assert(one.drop_last().len() == 0);
    assert(three.last() == ops[2]);
    assert(two.last() == ops[1]);
    assert(one.last() == ops[0]);
}

/// Enabling the feature with a radius of the user's own changes the module
/// at the jump and at the comparison and nowhere else: the radius itself
/// goes below the module, into the scratch region.
pub proof fn lemma_radius_kept_out_of_module(memory: Memory, base: usize, radius: u64)
    requires
        spec_radius_fits(base),
        base >= SCRATCH_BELOW_BASE,
    ensures
        ({
            let enabled = apply_all(memory, spec_radius_enable(base, true, radius)->Ok_0);
            &&& spec_radius_enable(base, true, radius) is Ok
            &&& holds(
                enabled,
                base - SCRATCH_BELOW_BASE + SCRATCH_RADIUS,
                le_bytes(radius as nat, 8),
            )
            &&& holds(enabled, base + NMSR_COMPARE, NMSR_COMPARE_ON@)
            &&& forall|a: int|
                memory.dom().contains(a) && a >= base && a != base + NMSR_DATA_OLD.0 && !(base
                    + NMSR_COMPARE <= a < base + NMSR_COMPARE + 8) ==> #[trigger] enabled[a]
                    == memory[a]
        }),
{
    crate::pod::lemma_le_bytes_len(radius as nat, 8);
    let jump = (base + NMSR_DATA_OLD.0) as usize;
    let kept = apply_all(memory, spec_jump(base, false));
    lemma_apply_all_concat(memory, spec_jump(base, false), spec_radius_set(base, radius));
    lemma_guarded_write_effect(memory, jump, seq![NMSR_DATA_OLD.2]);
    lemma_radius_set_effect(kept, base, radius);
}

/// Disabling the feature after enabling it, both with or both without a
/// radius of the user's own, leaves the jump, the comparison and the bound
/// as the module has them unpatched, whatever they were before.
pub proof fn lemma_radius_enable_then_disable(
    memory: Memory,
    base: usize,
    custom: bool,
    radius: u64,
)
    requires
        spec_radius_fits(base),
        custom ==> base >= SCRATCH_BELOW_BASE,
    ensures
        ({
            let enabled = apply_all(memory, spec_radius_enable(base, custom, radius)->Ok_0);
            let disabled = apply_all(enabled, spec_radius_disable(base, custom)->Ok_0);
            &&& spec_radius_enable(base, custom, radius) is Ok
            &&& spec_radius_disable(base, custom) is Ok
            &&& holds(disabled, base + NMSR_DATA_OLD.0, seq![NMSR_DATA_OLD.2])
            &&& holds(disabled, base + NMSR_COMPARE, NMSR_COMPARE_OFF@)
            &&& holds(disabled, base + NMSR_BOUND, NMSR_BOUND_OFF@)
        }),
{
    crate::pod::lemma_le_bytes_len(radius as nat, 8);
    let jump = (base + NMSR_DATA_OLD.0) as usize;
    if custom {
        let kept = apply_all(memory, spec_jump(base, false));
        lemma_apply_all_concat(memory, spec_jump(base, false), spec_radius_set(base, radius));
        lemma_guarded_write_effect(memory, jump, seq![NMSR_DATA_OLD.2]);
        lemma_radius_set_effect(kept, base, radius);
        let enabled = apply_all(kept, spec_radius_set(base, radius));
        lemma_radius_reset_effect(enabled, base);
    } else {
        let reset = apply_all(memory, spec_radius_reset(base));
        lemma_apply_all_concat(memory, spec_radius_reset(base), spec_jump(base, true));
        lemma_radius_reset_effect(memory, base);
        lemma_guarded_write_effect(reset, jump, seq![NMSR_DATA_OLD.1]);
        let enabled = apply_all(reset, spec_jump(base, true));
        lemma_guarded_write_effect(enabled, jump, seq![NMSR_DATA_OLD.2]);
    }
}

/// The feature that lifts the bound on the search radius, or replaces it
/// by a radius of the user's own.
#[derive(Clone, Copy, Debug)]
pub struct NoMaxSearchRadius();

impl NoMaxSearchRadius {
    /// Adds to `ops` what restores the comparison and the bound.
    fn reset(base: usize, ops: &mut Vec<MemoryOp>)
        requires
            spec_radius_fits(base),
        ensures
            views(final(ops)@) == views(old(ops)@) + spec_radius_reset(base),
    {
        let ghost start = views(ops@);
        plain_write(ops, base + NMSR_COMPARE, &NMSR_COMPARE_OFF);
        plain_write(ops, base + NMSR_BOUND, &NMSR_BOUND_OFF);
        proof {
            assert(views(ops@) =~= start + spec_radius_reset(base));
        }
    }

    /// Adds to `ops` what writes the jump.
    fn jump(base: usize, lifted: bool, ops: &mut Vec<MemoryOp>)
        requires
            spec_radius_fits(base),
        ensures
            views(final(ops)@) == views(old(ops)@) + spec_jump(base, lifted),
    {
        let byte = if lifted {
            NMSR_DATA_OLD.1
        } else {
            NMSR_DATA_OLD.2
        };
        let bytes = [byte];
        proof {
            assert(bytes@ =~= seq![byte]);
        }
        guarded_write(ops, base + NMSR_DATA_OLD.0, &bytes);
    }

    /// What enables the feature in the process of `handler`. `settings`
    /// says whether the user has a radius of their own and gives that
    /// radius as the bits of a 64-bit float. Such a radius is kept in the
    /// scratch region that an [`EsiFilter`] reserves, so the filter must
    /// have been set up before.
    pub fn enable(&self, settings: (bool, u64), handler: &Handler) -> (r: Result<
        Vec<MemoryOp>,
        PatchError,
    >)
        ensures
            match spec_radius_enable(handler.base_address, settings.0, settings.1) {
                Ok(ops) => r is Ok && views(r->Ok_0@) == ops,
                Err(e) => r is Err && r->Err_0 == e,
            },
    {
        let base = handler.base_address;
        if base > usize::MAX - NMSR_BOUND - 8 {
            return Err(PatchError::AddressOverflow);
        }
        let mut ops: Vec<MemoryOp> = Vec::new();
        let ghost empty = views(ops@);
        if settings.0 {
            if base < SCRATCH_BELOW_BASE {
                return Err(PatchError::AddressOverflow);
            }
            Self::jump(base, false, &mut ops);
            let ghost undone = views(ops@);
            let radius = settings.1.to_bytes();
            let jump = base + NMSR_DATA_OLD.0;
            push_op(&mut ops, MemoryOp::Protect { address: jump, len: 1 });
            plain_write(&mut ops, base - SCRATCH_BELOW_BASE + SCRATCH_RADIUS, radius.as_slice());
            plain_write(&mut ops, base + NMSR_COMPARE, &NMSR_COMPARE_ON);
            push_op(&mut ops, MemoryOp::Restore { address: jump, len: 1 });
            proof {
                assert(views(ops@) =~= undone + spec_radius_set(base, settings.1));
                assert(undone =~= spec_jump(base, false));
            }
        } else {
            Self::reset(base, &mut ops);
            Self::jump(base, true, &mut ops);
            proof {
                assert(views(ops@) =~= spec_radius_reset(base) + spec_jump(base, true));
            }
        }
        Ok(ops)
    }

    /// What disables the feature in the process of `handler`: `custom`
    /// says which way of lifting the bound is to be undone.
    pub fn disable(&self, custom: bool, handler: &Handler) -> (r: Result<Vec<MemoryOp>, PatchError>)
        ensures
            match spec_radius_disable(handler.base_address, custom) {
                Ok(ops) => r is Ok && views(r->Ok_0@) == ops,
                Err(e) => r is Err && r->Err_0 == e,
            },
    {
        let base = handler.base_address;
        if base > usize::MAX - NMSR_BOUND - 8 {
            return Err(PatchError::AddressOverflow);
        }
        let mut ops: Vec<MemoryOp> = Vec::new();
        if custom {
            Self::reset(base, &mut ops);
            proof {
                assert(views(ops@) =~= spec_radius_reset(base));
            }
        } else {
            Self::jump(base, false, &mut ops);
            proof {
                assert(views(ops@) =~= spec_jump(base, false));
            }
        }
        Ok(ops)
    }
}

/// Where the module decides on a candidate: the filter hooks in here.
pub const ESI_FILTER_HOOK: usize = 0x3ea873;

/// The jump into the scratch region.
pub const ESI_FILTER_HOOK_ON: [u8; 6] = [0xe9u8, 0x88u8, 0x57u8, 0xa1u8, 0xffu8, 0x90u8];

/// The decision as the module has it.
pub const ESI_FILTER_HOOK_OFF: [u8; 6] = [0x41u8, 0x8bu8, 0x01u8, 0x83u8, 0xf8u8, 0x07u8];

/// The code of the filter, which runs from the start of the scratch
/// region.
pub const ESI_FILTER_DATA_1: [u8; 543] = [
    0x0fu8, 0x87u8, 0x63u8, 0xacu8, 0x5eu8, 0x00u8, 0x48u8, 0x89u8, 0x1du8, 0xf3u8, 0x0fu8, 0x00u8,
    0x00u8, 0x48u8, 0x89u8, 0x0du8, 0xf4u8, 0x0fu8, 0x00u8, 0x00u8, 0x48u8, 0x89u8, 0x15u8, 0xf5u8,
    0x0fu8, 0x00u8, 0x00u8, 0x48u8, 0x89u8, 0x3du8, 0xf6u8, 0x0fu8, 0x00u8, 0x00u8, 0x4cu8, 0x89u8,
    0x05u8, 0xf7u8, 0x0fu8, 0x00u8, 0x00u8, 0x4cu8, 0x89u8, 0x0du8, 0xf8u8, 0x0fu8, 0x00u8, 0x00u8,
    0x4cu8, 0x89u8, 0x15u8, 0xf9u8, 0x0fu8, 0x00u8, 0x00u8, 0x4cu8, 0x89u8, 0x25u8, 0xfau8, 0x0fu8,
    0x00u8, 0x00u8, 0x49u8, 0x8bu8, 0xd8u8, 0x49u8, 0x8bu8, 0xc8u8, 0xe8u8, 0xf7u8, 0xe9u8, 0x69u8,
    0x00u8, 0x48u8, 0x8bu8, 0xcbu8, 0x44u8, 0x0fu8, 0x28u8, 0xc0u8, 0xe8u8, 0xabu8, 0x37u8, 0x6au8,
    0x00u8, 0x44u8, 0x0fu8, 0x28u8, 0xc8u8, 0xe8u8, 0xe2u8, 0xe9u8, 0x69u8, 0x00u8, 0xf3u8, 0x0fu8,
    0x10u8, 0x3du8, 0x96u8, 0xbeu8, 0x89u8, 0x00u8, 0x48u8, 0x8bu8, 0xcbu8, 0xf3u8, 0x0fu8, 0x10u8,
    0xb3u8, 0xf8u8, 0x11u8, 0x00u8, 0x00u8, 0xf3u8, 0x0fu8, 0x5eu8, 0xc7u8, 0xf3u8, 0x0fu8, 0x59u8,
    0xc0u8, 0xf3u8, 0x0fu8, 0x5eu8, 0xf0u8, 0xf3u8, 0x0fu8, 0x59u8, 0x35u8, 0xd7u8, 0xb7u8, 0x89u8,
    0x00u8, 0xe8u8, 0xb6u8, 0xe9u8, 0x69u8, 0x00u8, 0xf3u8, 0x0fu8, 0x58u8, 0xf6u8, 0xf3u8, 0x0fu8,
    0x59u8, 0xc6u8, 0xf3u8, 0x0fu8, 0x59u8, 0x05u8, 0x92u8, 0xbdu8, 0x89u8, 0x00u8, 0xe8u8, 0xa1u8,
    0xa2u8, 0x7au8, 0x00u8, 0xf3u8, 0x44u8, 0x0fu8, 0x10u8, 0x15u8, 0x44u8, 0xaau8, 0x89u8, 0x00u8,
    0x41u8, 0x0fu8, 0x28u8, 0xc8u8, 0xf3u8, 0x44u8, 0x0fu8, 0x10u8, 0x9bu8, 0x48u8, 0x12u8, 0x00u8,
    0x00u8, 0xf3u8, 0x0fu8, 0x5cu8, 0xcfu8, 0x0fu8, 0x28u8, 0xf0u8, 0xf3u8, 0x44u8, 0x0fu8, 0x58u8,
    0xc7u8, 0xf2u8, 0x0fu8, 0x10u8, 0x3du8, 0x57u8, 0xd0u8, 0x89u8, 0x00u8, 0x41u8, 0x0fu8, 0x28u8,
    0xc2u8, 0xf3u8, 0x0fu8, 0x59u8, 0x35u8, 0x1bu8, 0xa3u8, 0x89u8, 0x00u8, 0xf3u8, 0x41u8, 0x0fu8,
    0x5eu8, 0xc8u8, 0xf3u8, 0x0fu8, 0x5au8, 0xc9u8, 0x0fu8, 0x54u8, 0xcfu8, 0x66u8, 0x0fu8, 0x5au8,
    0xd1u8, 0xf3u8, 0x0fu8, 0x10u8, 0x0du8, 0x6bu8, 0xa5u8, 0x89u8, 0x00u8, 0xf3u8, 0x0fu8, 0x5cu8,
    0xc2u8, 0xe8u8, 0xeau8, 0xa9u8, 0x35u8, 0x00u8, 0x44u8, 0x0fu8, 0x28u8, 0xc0u8, 0x41u8, 0x0fu8,
    0x28u8, 0xc9u8, 0xf3u8, 0x0fu8, 0x5cu8, 0x0du8, 0x12u8, 0xb6u8, 0x89u8, 0x00u8, 0xf3u8, 0x44u8,
    0x0fu8, 0x58u8, 0x0du8, 0x09u8, 0xb6u8, 0x89u8, 0x00u8, 0x0fu8, 0x57u8, 0xc0u8, 0xf3u8, 0x41u8,
    0x0fu8, 0x5eu8, 0xc9u8, 0xf3u8, 0x0fu8, 0x5au8, 0xc1u8, 0x0fu8, 0x54u8, 0xc7u8, 0x66u8, 0x0fu8,
    0x5au8, 0xc8u8, 0x41u8, 0x0fu8, 0x28u8, 0xc2u8, 0xf3u8, 0x0fu8, 0x5cu8, 0xc1u8, 0xf3u8, 0x0fu8,
    0x10u8, 0x0du8, 0xe6u8, 0xa5u8, 0x89u8, 0x00u8, 0xe8u8, 0xa9u8, 0xa9u8, 0x35u8, 0x00u8, 0xf3u8,
    0x0fu8, 0x10u8, 0x0du8, 0xddu8, 0x4cu8, 0xa3u8, 0x00u8, 0x0fu8, 0x28u8, 0xd6u8, 0xf3u8, 0x0fu8,
    0x5cu8, 0xd1u8, 0xf3u8, 0x44u8, 0x0fu8, 0x59u8, 0xc0u8, 0x0fu8, 0x57u8, 0xc0u8, 0xf3u8, 0x0fu8,
    0x58u8, 0xceu8, 0xf3u8, 0x0fu8, 0x5eu8, 0xd1u8, 0xf3u8, 0x0fu8, 0x5au8, 0xc2u8, 0x0fu8, 0x54u8,
    0xc7u8, 0x66u8, 0x0fu8, 0x5au8, 0xc8u8, 0x41u8, 0x0fu8, 0x28u8, 0xc2u8, 0xf3u8, 0x0fu8, 0x5cu8,
    0xc1u8, 0xf3u8, 0x0fu8, 0x10u8, 0x0du8, 0x1bu8, 0xa5u8, 0x89u8, 0x00u8, 0xe8u8, 0x6au8, 0xa9u8,
    0x35u8, 0x00u8, 0x41u8, 0x0fu8, 0x28u8, 0xd3u8, 0xf3u8, 0x44u8, 0x0fu8, 0x59u8, 0xc0u8, 0xf3u8,
    0x0fu8, 0x5cu8, 0x15u8, 0x11u8, 0xbbu8, 0x89u8, 0x00u8, 0xf3u8, 0x44u8, 0x0fu8, 0x58u8, 0x1du8,
    0x08u8, 0xbbu8, 0x89u8, 0x00u8, 0xf3u8, 0x41u8, 0x0fu8, 0x5eu8, 0xd3u8, 0x0fu8, 0x5au8, 0xcau8,
    0x0fu8, 0x54u8, 0xcfu8, 0x66u8, 0x0fu8, 0x5au8, 0xd1u8, 0xf3u8, 0x0fu8, 0x10u8, 0x0du8, 0xb1u8,
    0xaau8, 0x89u8, 0x00u8, 0xf3u8, 0x44u8, 0x0fu8, 0x5cu8, 0xd2u8, 0x41u8, 0x0fu8, 0x28u8, 0xc2u8,
    0xe8u8, 0x2bu8, 0xa9u8, 0x35u8, 0x00u8, 0xf3u8, 0x44u8, 0x0fu8, 0x59u8, 0xc0u8, 0x41u8, 0x0fu8,
    0x28u8, 0xd0u8, 0x48u8, 0x8bu8, 0x1du8, 0x3bu8, 0x0eu8, 0x00u8, 0x00u8, 0x48u8, 0x8bu8, 0x0du8,
    0x3cu8, 0x0eu8, 0x00u8, 0x00u8, 0x48u8, 0x8bu8, 0x15u8, 0x3du8, 0x0eu8, 0x00u8, 0x00u8, 0x48u8,
    0x8bu8, 0x3du8, 0x3eu8, 0x0eu8, 0x00u8, 0x00u8, 0x4cu8, 0x8bu8, 0x05u8, 0x3fu8, 0x0eu8, 0x00u8,
    0x00u8, 0x4cu8, 0x8bu8, 0x0du8, 0x40u8, 0x0eu8, 0x00u8, 0x00u8, 0x4cu8, 0x8bu8, 0x15u8, 0x41u8,
    0x0eu8, 0x00u8, 0x00u8, 0x4cu8, 0x8bu8, 0x25u8, 0x42u8, 0x0eu8, 0x00u8, 0x00u8, 0xf3u8, 0x0fu8,
    0x10u8, 0x05u8, 0x02u8, 0x03u8, 0x00u8, 0x00u8, 0x0fu8, 0x2fu8, 0xc2u8, 0x0fu8, 0x87u8, 0x62u8,
    0xaau8, 0x5eu8, 0x00u8, 0x0fu8, 0x2fu8, 0x15u8, 0xf6u8, 0x02u8, 0x00u8, 0x00u8, 0x0fu8, 0x87u8,
    0x55u8, 0xaau8, 0x5eu8, 0x00u8, 0x41u8, 0x8bu8, 0x01u8, 0x83u8, 0xf8u8, 0x07u8, 0xe9u8, 0x5au8,
    0xa6u8, 0x5eu8, 0x00u8,
];

/// Whether a module loaded at `base` has room below it for the scratch
/// region.
pub open spec fn spec_scratch_fits(base: usize) -> bool {
    base >= SCRATCH_BELOW_BASE
}

/// Where the scratch region of a module loaded at `base` starts.
pub open spec fn spec_scratch(base: usize) -> usize {
    (base - SCRATCH_BELOW_BASE) as usize
}

/// What sets the filter up: the scratch region is reserved and the code
/// of the filter written to its start.
pub open spec fn spec_esi_new(base: usize) -> Result<Seq<OpView>, PatchError> {
    if !spec_scratch_fits(base) {
        Err(PatchError::AddressOverflow)
    } else {
        Ok(
            seq![
                OpView::Allocate { address: spec_scratch(base), len: SCRATCH_LEN },
                OpView::Write { address: spec_scratch(base), bytes: ESI_FILTER_DATA_1@ },
            ],
        )
    }
}

/// What releases the scratch region at `scratch`.
pub open spec fn spec_esi_close(scratch: usize) -> Seq<OpView> {
    seq![OpView::Free { address: scratch }]
}

/// Whether the hook of the filter, in a module loaded at `base`, lies in
/// the address space.
pub open spec fn spec_esi_fits(base: usize) -> bool {
    base + ESI_FILTER_HOOK + 6 <= usize::MAX
}

/// What enables the filter with the bounds `min` and `max`, given as the
/// bits of 32-bit floats: the hook is written, then the bounds go into
/// the scratch region at `scratch`.
pub open spec fn spec_esi_enable(base: usize, scratch: usize, min: u32, max: u32) -> Result<
    Seq<OpView>,
    PatchError,
> {
    if !spec_esi_fits(base) {
        Err(PatchError::AddressOverflow)
    } else {
        Ok(
            spec_guarded_write((base + ESI_FILTER_HOOK) as usize, ESI_FILTER_HOOK_ON@) + seq![
                OpView::Write {
                    address: (scratch + SCRATCH_ESI_MIN) as usize,
                    bytes: le_bytes(min as nat, 4),
                },
                OpView::Write {
                    address: (scratch + SCRATCH_ESI_MAX) as usize,
                    bytes: le_bytes(max as nat, 4),
                },
            ],
        )
    }
}

/// What disables the filter: the decision is written back.
pub open spec fn spec_esi_disable(base: usize) -> Result<Seq<OpView>, PatchError> {
    if !spec_esi_fits(base) {
        Err(PatchError::AddressOverflow)
    } else {
        Ok(spec_guarded_write((base + ESI_FILTER_HOOK) as usize, ESI_FILTER_HOOK_OFF@))
    }
}

/// Disabling the filter after enabling it leaves the decision as the
/// module has it unpatched, whatever it was before.
pub proof fn lemma_esi_enable_then_disable(
    memory: Memory,
    base: usize,
    scratch: usize,
    min: u32,
    max: u32,
)
    requires
        spec_esi_fits(base),
    ensures
        ({
            let enabled = apply_all(memory, spec_esi_enable(base, scratch, min, max)->Ok_0);
            let disabled = apply_all(enabled, spec_esi_disable(base)->Ok_0);
            &&& spec_esi_enable(base, scratch, min, max) is Ok
            &&& spec_esi_disable(base) is Ok
            &&& holds(disabled, base + ESI_FILTER_HOOK, ESI_FILTER_HOOK_OFF@)
        }),
{
    let enabled = apply_all(memory, spec_esi_enable(base, scratch, min, max)->Ok_0);
    lemma_guarded_write_effect(enabled, (base + ESI_FILTER_HOOK) as usize, ESI_FILTER_HOOK_OFF@);
}

/// The filter on the similarity index. A filter stands for the scratch
/// region that was reserved for it: it is made when the region is
/// reserved and used up when the region is released, so that a region is
/// released once at most.
#[derive(Debug)]
pub struct EsiFilter {
    scratch: usize,
}

impl EsiFilter {
    #[verifier::type_invariant]
    spec fn scratch_has_room(self) -> bool {
        self.scratch + SCRATCH_LEN <= usize::MAX
    }

    /// Where the scratch region of the filter starts.
    pub closed spec fn spec_scratch(&self) -> usize {
        self.scratch
    }

    /// The filter, and what sets it up in the process of `handler`: once
    /// in a session, before the filter is first enabled.
    pub fn new(handler: &Handler) -> (r: Result<(EsiFilter, Vec<MemoryOp>), PatchError>)
        ensures
            match spec_esi_new(handler.base_address) {
                Ok(ops) => r is Ok && views(r->Ok_0.1@) == ops && r->Ok_0.0.spec_scratch()
                    == spec_scratch(handler.base_address),
                Err(e) => r is Err && r->Err_0 == e,
            },
    {
        let base = handler.base_address;
        if base < SCRATCH_BELOW_BASE {
            return Err(PatchError::AddressOverflow);
        }
        let scratch = base - SCRATCH_BELOW_BASE;
        let mut ops: Vec<MemoryOp> = Vec::new();
        push_op(&mut ops, MemoryOp::Allocate { address: scratch, len: SCRATCH_LEN });
        plain_write(&mut ops, scratch, &ESI_FILTER_DATA_1);
        proof {
            assert(views(ops@) =~= spec_esi_new(base)->Ok_0);
        }
        Ok((EsiFilter { scratch }, ops))
    }

    /// Where the scratch region of the filter starts. The whole region
    /// lies in the address space.
    pub fn scratch(&self) -> (scratch: usize)
        ensures
            scratch == self.spec_scratch(),
            scratch + SCRATCH_LEN <= usize::MAX,
    {
        proof {
            use_type_invariant(self);
        }
        self.scratch
    }

    /// What releases the scratch region: once, at the end of a session.
    pub fn close(self) -> (ops: Vec<MemoryOp>)
        ensures
            views(ops@) == spec_esi_close(self.spec_scratch()),
    {
        let mut ops: Vec<MemoryOp> = Vec::new();
        push_op(&mut ops, MemoryOp::Free { address: self.scratch });
        proof {
            assert(views(ops@) =~= spec_esi_close(self.scratch));
        }
        ops
    }

    /// What enables the filter in the process of `handler`. `settings`
    /// gives the smallest and the largest index to let through, each as
    /// the bits of a 32-bit float.
    pub fn enable(&self, settings: (u32, u32), handler: &Handler) -> (r: Result<
        Vec<MemoryOp>,
        PatchError,
    >)
        ensures
            match spec_esi_enable(
                handler.base_address,
                self.spec_scratch(),
                settings.0,
                settings.1,
            ) {
                Ok(ops) => r is Ok && views(r->Ok_0@) == ops,
                Err(e) => r is Err && r->Err_0 == e,
            },
    {
        proof {
            use_type_invariant(self);
        }
        let base = handler.base_address;
        if base > usize::MAX - ESI_FILTER_HOOK - 6 {
            return Err(PatchError::AddressOverflow);
        }
        let mut ops: Vec<MemoryOp> = Vec::new();
        guarded_write(&mut ops, base + ESI_FILTER_HOOK, &ESI_FILTER_HOOK_ON);
        let min = settings.0.to_bytes();
        let max = settings.1.to_bytes();
        plain_write(&mut ops, self.scratch + SCRATCH_ESI_MIN, min.as_slice());
        plain_write(&mut ops, self.scratch + SCRATCH_ESI_MAX, max.as_slice());
        proof {
            assert(views(ops@) =~= spec_esi_enable(
                base,
                self.scratch,
                settings.0,
                settings.1,
            )->Ok_0);
        }
        Ok(ops)
    }

    /// What disables the filter in the process of `handler`.
    pub fn disable(&self, handler: &Handler) -> (r: Result<Vec<MemoryOp>, PatchError>)
        ensures
            match spec_esi_disable(handler.base_address) {
                Ok(ops) => r is Ok && views(r->Ok_0@) == ops,
                Err(e) => r is Err && r->Err_0 == e,
            },
    {
        let base = handler.base_address;
        if base > usize::MAX - ESI_FILTER_HOOK - 6 {
            return Err(PatchError::AddressOverflow);
        }
        let mut ops: Vec<MemoryOp> = Vec::new();
        guarded_write(&mut ops, base + ESI_FILTER_HOOK, &ESI_FILTER_HOOK_OFF);
        proof {
            assert(views(ops@) =~= spec_esi_disable(base)->Ok_0);
        }
        Ok(ops)
    }
}

} // verus!
