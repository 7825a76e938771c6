//! Keeps the search radius from being negative.
//!
//! The module holds the radius as a number and shows it as a text. Where
//! the number is put right, the text is put right with it: the new text is
//! kept in the scratch region below the module, and the module is told
//! where the text lies and how long it is.

use crate::handler::filters::EsiFilter;
use crate::handler::filters::SCRATCH_TEXT;
use crate::handler::filters::SCRATCH_TEXT_LEN;
use crate::memory::plain_write;
use crate::memory::views;
use crate::memory::MemoryOp;
use crate::memory::OpView;
use crate::patches::PatchError;
use crate::plugin::Plugin;
use crate::plugin::PluginPass;
use crate::pod::le_bytes;
use crate::pod::Pod;
use vstd::prelude::*;
use vstd::string::*;

verus! {

/// Where the module holds the search radius, a 64-bit float.
pub const SEARCH_RADIUS: usize = 0x10457B0;

/// Where the module holds the place of the text that shows the search
/// radius.
pub const SEARCH_RADIUS_TEXT: usize = 0x1046F08;

/// Where the module holds the length of that text, in units of 16 bits.
pub const SEARCH_RADIUS_TEXT_LEN: usize = 0x1046F18;

/// The bytes of a text of 16-bit units, each unit least significant byte
/// first.
pub open spec fn le_units(text: Seq<u16>) -> Seq<u8>
    decreases text.len(),
{
    if text.len() == 0 {
        Seq::empty()
    } else {
        le_units(text.drop_last()) + le_bytes(text.last() as nat, 2)
    }
}

/// A text of `n` units has `2 * n` bytes.
pub proof fn lemma_le_units_len(text: Seq<u16>)
    ensures
        le_units(text).len() == 2 * text.len(),
    decreases text.len(),
{
    if text.len() > 0 {
        lemma_le_units_len(text.drop_last());
        crate::pod::lemma_le_bytes_len(text.last() as nat, 2);
    }
}

/// What shows `text` as the search radius in a module loaded at `base`.
/// The text goes into the scratch region that starts at `scratch`; the
/// address of the text is stored at `pointer`, the place that the module
/// keeps for it; and the length of the text is stored in the module. A
/// text that has no room in the scratch region is refused, and so is a
/// place outside the address space.
pub open spec fn spec_text_writes(text: Seq<u16>, pointer: usize, scratch: usize, base: usize)
    -> Result<Seq<OpView>, PatchError> {
    if 2 * text.len() > SCRATCH_TEXT_LEN {
        Err(PatchError::ScratchOverflow)
    } else if pointer + 8 > usize::MAX || base + SEARCH_RADIUS_TEXT_LEN + 8 > usize::MAX {
        Err(PatchError::AddressOverflow)
    } else {
        Ok(
            seq![
                OpView::Write { address: (scratch + SCRATCH_TEXT) as usize, bytes: le_units(text) },
                OpView::Write {
                    address: pointer,
                    bytes: le_bytes((scratch + SCRATCH_TEXT) as nat, 8),
                },
                OpView::Write {
                    address: (base + SEARCH_RADIUS_TEXT_LEN) as usize,
                    bytes: le_bytes(text.len(), 8),
                },
            ],
        )
    }
}

/// The bytes of a text of 16-bit units.
fn units_to_bytes(text: &[u16]) -> (bytes: Vec<u8>)
    ensures
        bytes@ == le_units(text@),
{
    let mut bytes: Vec<u8> = Vec::new();
    let mut i: usize = 0;
    proof {
        assert(text@.take(0) =~= Seq::<u16>::empty());
    }
    while i < text.len()
        invariant
            i <= text@.len(),
            bytes@ == le_units(text@.take(i as int)),
        decreases text@.len() - i,
    {
        let mut unit = text[i].to_bytes();
        proof {
            assert(text@.take(i + 1).drop_last() =~= text@.take(i as int));
            assert(text@.take(i + 1).last() == text@[i as int]);
        }
        bytes.append(&mut unit);
        i = i + 1;
    }
    proof {
        assert(text@.take(i as int) =~= text@);
    }
    bytes
}

/// The sign of a 64-bit float, as a number: the floats from here on are
/// the negative ones.
pub const SIGN: u64 = 0x8000_0000_0000_0000;

/// The feature: whether it is switched on, and whether a negative radius
/// becomes its absolute value rather than zero.
#[derive(Clone, Copy, Debug, PartialEq, Eq, Structural)]
pub struct NonNegativeSearchRadius(pub bool, pub bool);

impl Default for NonNegativeSearchRadius {
    fn default() -> (plugin: NonNegativeSearchRadius)
        ensures
            plugin == NonNegativeSearchRadius(false, true),
    {
        NonNegativeSearchRadius(false, true)
    }
}

impl NonNegativeSearchRadius {
    /// The radius to put in place of `radius`, both given as the bits of
    /// a 64-bit float; `None` where `radius` can stay. Only a radius whose
    /// sign is set is replaced, and only while the feature is switched on:
    /// by the same radius without the sign, or by zero.
    pub open spec fn spec_fix(&self, radius: u64) -> Option<u64> {
        if self.0 && radius >= SIGN {
            if self.1 {
                Some((radius - SIGN) as u64)
            } else {
                Some(0u64)
            }
        } else {
            None
        }
    }

    /// What puts the radius right in a module loaded at `base`, given the
    /// radius that the module holds.
    pub open spec fn spec_writes(&self, radius: u64, base: usize) -> Result<
        Seq<OpView>,
        PatchError,
    > {
        match self.spec_fix(radius) {
            None => Ok(Seq::empty()),
            Some(fixed) => if base + SEARCH_RADIUS + 8 > usize::MAX {
                Err(PatchError::AddressOverflow)
            } else {
                Ok(
                    seq![
                        OpView::Write {
                            address: (base + SEARCH_RADIUS) as usize,
                            bytes: le_bytes(fixed as nat, 8),
                        },
                    ],
                )
            },
        }
    }

    /// The feature as it was stored, or the default where nothing was
    /// stored.
    pub fn load(stored: Option<NonNegativeSearchRadius>) -> (plugin: NonNegativeSearchRadius)
        ensures
            plugin == stored.unwrap_or(NonNegativeSearchRadius(false, true)),
    {
        match stored {
            Some(plugin) => plugin,
            None => NonNegativeSearchRadius(false, true),
        }
    }

    /// The radius to put in place of `radius`, if any.
    pub fn fix(&self, radius: u64) -> (fixed: Option<u64>)
        ensures
            fixed == self.spec_fix(radius),
    {
        if self.0 && radius >= SIGN {
            if self.1 {
                Some(radius - SIGN)
            } else {
                Some(0u64)
            }
        } else {
            None
        }
    }

    /// What shows `text` as the search radius in a module loaded at
    /// `base`: the text is kept in the scratch region of `filter`, and
    /// `pointer` is the place that the module keeps for the address of the
    /// text.
    pub fn text_writes(text: &[u16], pointer: usize, filter: &EsiFilter, base: usize) -> (r:
        Result<Vec<MemoryOp>, PatchError>)
        ensures
            match spec_text_writes(text@, pointer, filter.spec_scratch(), base) {
                Ok(ops) => r is Ok && views(r->Ok_0@) == ops,
                Err(e) => r is Err && r->Err_0 == e,
            },
    {
        if text.len() > SCRATCH_TEXT_LEN / 2 {
            return Err(PatchError::ScratchOverflow);
        }
        if pointer > usize::MAX - 8 || base > usize::MAX - SEARCH_RADIUS_TEXT_LEN - 8 {
            return Err(PatchError::AddressOverflow);
        }
        let text_at = filter.scratch() + SCRATCH_TEXT;
        let place = (text_at as u64).to_bytes();
        let len = (text.len() as u64).to_bytes();
        let bytes = units_to_bytes(text);
        let mut ops: Vec<MemoryOp> = Vec::new();
        plain_write(&mut ops, text_at, bytes.as_slice());
        plain_write(&mut ops, pointer, place.as_slice());
        plain_write(&mut ops, base + SEARCH_RADIUS_TEXT_LEN, len.as_slice());
        proof {
            assert(views(ops@) =~= spec_text_writes(
                text@,
                pointer,
                filter.spec_scratch(),
                base,
            )->Ok_0);
        }
        Ok(ops)
    }

    /// What puts the radius right in a module loaded at `base`; nothing
    /// where the radius can stay.
    pub fn writes(&self, radius: u64, base: usize) -> (r: Result<Vec<MemoryOp>, PatchError>)
        ensures
            match self.spec_writes(radius, base) {
                Ok(ops) => r is Ok && views(r->Ok_0@) == ops,
                Err(e) => r is Err && r->Err_0 == e,
            },
    {
        let mut ops: Vec<MemoryOp> = Vec::new();
        match self.fix(radius) {
            None => {
                proof {
                    assert(views(ops@) =~= Seq::<OpView>::empty());
                }
                Ok(ops)
            },
            Some(fixed) => {
                if base > usize::MAX - SEARCH_RADIUS - 8 {
                    return Err(PatchError::AddressOverflow);
                }
                let bytes = fixed.to_bytes();
                plain_write(&mut ops, base + SEARCH_RADIUS, bytes.as_slice());
                proof {
                    assert(views(ops@) =~= self.spec_writes(radius, base)->Ok_0);
                }
                Ok(ops)
            },
        }
    }
}

impl Plugin for NonNegativeSearchRadius {
    open spec fn spec_pass(&self) -> PluginPass {
        PluginPass::Late
    }

    open spec fn spec_name(&self) -> Seq<char> {
        "Non Negative Search Radius"@
    }

    open spec fn spec_priority(&self) -> Option<usize> {
        Some(3usize)
    }

    fn pass(&self) -> (pass: PluginPass) {
        PluginPass::Late
    }

    fn name(&self) -> (name: String) {
        String::from_str("Non Negative Search Radius")
    }

    fn section(&self) -> (section: Option<String>) {
        None
    }

    fn priority(&self) -> (priority: Option<usize>) {
        Some(3usize)
    }
}

} // verus!
