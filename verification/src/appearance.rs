//! Mirroring images with the `H` key.

use vstd::prelude::*;

use crate::selection::ItemId;

verus! {

/// How an image is mirrored.
#[derive(Debug, Clone, Copy, PartialEq, Eq, Structural)]
pub enum Flip {
    Unflipped,
    Horizontal,
    Vertical,
    Both,
    /// A value written by a newer version, kept as it was read.
    Unknown(u8),
}

/// The mirroring after one press of `H`: the horizontal part toggles, the
/// vertical part stays. A value this version does not know is replaced by
/// a plain horizontal mirror: the user asked to overwrite it.
pub open spec fn flipped(f: Flip) -> Flip {
    match f {
        Flip::Unflipped => Flip::Horizontal,
        Flip::Horizontal => Flip::Unflipped,
        Flip::Vertical => Flip::Both,
        Flip::Both => Flip::Vertical,
        Flip::Unknown(_) => Flip::Horizontal,
    }
}

/// Mirrors one image horizontally.
pub fn flip_horizontal(f: Flip) -> (r: Flip)
    ensures
        r == flipped(f),
{
    match f {
        Flip::Unflipped => Flip::Horizontal,
        Flip::Horizontal => Flip::Unflipped,
        Flip::Vertical => Flip::Both,
        Flip::Both => Flip::Vertical,
        Flip::Unknown(_) => Flip::Horizontal,
    }
}

/// Whether an image is mirrored horizontally.
pub open spec fn mirrored_horizontally(f: Flip) -> bool {
    f == Flip::Horizontal || f == Flip::Both
}

/// Whether an image is mirrored vertically.
pub open spec fn mirrored_vertically(f: Flip) -> bool {
    f == Flip::Vertical || f == Flip::Both
}

/// Pressing `H` twice gives back the mirroring one started with, and one
/// press toggles the horizontal mirror and keeps the vertical one.
pub proof fn law_flipping_twice_changes_nothing(f: Flip)
    requires
        !(f is Unknown),
    ensures
        flipped(flipped(f)) == f,
        mirrored_horizontally(flipped(f)) == !mirrored_horizontally(f),
        mirrored_vertically(flipped(f)) == mirrored_vertically(f),
{
}

/// One selected image as the board has it.
#[derive(Debug, Clone, Copy, PartialEq, Eq, Structural)]
pub struct FlipTarget {
    pub id: ItemId,
    pub locked: bool,
    pub flip: Flip,
}

/// The new mirroring of each unlocked image among `items`.
pub open spec fn flip_changes(items: Seq<FlipTarget>) -> Seq<(ItemId, Flip)>
    decreases items.len(),
{
    if items.len() == 0 {
        Seq::empty()
    } else {
        let before = flip_changes(items.drop_last());
        let last = items.last();
        if last.locked {
            before
        } else {
            before.push((last.id, flipped(last.flip)))
        }
    }
}

/// The change one press of `H` makes to the selected images: each unlocked
/// one is mirrored; locked ones are left out.
pub fn plan_flip(items: &Vec<FlipTarget>) -> (changes: Vec<(ItemId, Flip)>)
    ensures
        changes@ == flip_changes(items@),
{
    let mut changes: Vec<(ItemId, Flip)> = Vec::new();
    let mut i: usize = 0;
    while i < items.len()
        invariant
            i <= items@.len(),
            changes@ == flip_changes(items@.take(i as int)),
        decreases items@.len() - i,
    {
        let item = items[i];
        proof {
            assert(items@.take(i + 1).drop_last() == items@.take(i as int));
        }
        if !item.locked {
            changes.push((item.id, flip_horizontal(item.flip)));
        }
        i = i + 1;
    }
    proof {
        assert(items@.take(items@.len() as int) == items@);
    }
    changes
}

} // verus!
