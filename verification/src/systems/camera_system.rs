//! Keeping the camera on the player and inside the selected level.

use crate::bounds::{Vector2, ViewportBounds};
use vstd::prelude::*;

verus! {

/// A loaded level as the camera sees it: whether it is the selected level,
/// and the bounds that keep the viewport inside it.
#[derive(Copy, Clone, Debug)]
pub struct LevelFit {
    pub selected: bool,
    pub bounds: ViewportBounds,
}

/// Whether none of `levels` is selected.
pub open spec fn none_selected(levels: Seq<LevelFit>) -> bool {
    forall|i: int| 0 <= i < levels.len() ==> !(#[trigger] levels[i]).selected
}

/// Whether `levels[i]` is the last of `levels` that is selected.
pub open spec fn last_selected(levels: Seq<LevelFit>, i: int) -> bool {
    &&& 0 <= i < levels.len()
    &&& levels[i].selected
    &&& forall|j: int| i < j < levels.len() ==> !(#[trigger] levels[j]).selected
}

/// Where the camera is to be put in this tick, if anywhere. Without a player,
/// or without a selected level, the camera is left alone. Else it is put on
/// the player's position, clamped to the bounds of the selected level; where
/// several levels are selected the last of them decides.
pub fn fit_inside_current_level(
    player: Option<Vector2>,
    levels: &Vec<LevelFit>,
) -> (fitted: Option<Vector2>)
    ensures
        fitted is None <==> player is None || none_selected(levels@),
        forall|i: int|
            player is Some && last_selected(levels@, i) ==> fitted == Some(
                levels@[i].bounds.clamped(player->Some_0),
            ),
{
    let mut fitted: Option<Vector2> = None;
    if let Some(position) = player {
        let mut n: usize = 0;
        while n < levels.len()
            invariant
                n <= levels.len(),
                fitted is None <==> none_selected(levels@.subrange(0, n as int)),
                forall|i: int|
                    last_selected(levels@.subrange(0, n as int), i) ==> fitted == Some(
                        levels@[i].bounds.clamped(position),
                    ),
            decreases levels.len() - n,
        {
            let level = &levels[n];
            let ghost seen = levels@.subrange(0, n as int);
            let ghost grown = levels@.subrange(0, n + 1);
            if level.selected {
                fitted = Some(level.bounds.clamp(position));
            }
            proof {
                assert forall|i: int| last_selected(grown, i) implies fitted == Some(
                    levels@[i].bounds.clamped(position),
                ) by {
                    if i < n {
                        assert(!grown[n as int].selected);
                        assert forall|j: int| i < j < seen.len() implies !(#[trigger] seen[j]).selected
                        by {
                            assert(seen[j] == grown[j]);
                        }
                        assert(last_selected(seen, i));
                    }
                }
                if none_selected(grown) {
                    assert(!grown[n as int].selected);
                    assert forall|j: int| 0 <= j < seen.len() implies !(#[trigger] seen[j]).selected
                    by {
                        assert(seen[j] == grown[j]);
                    }
                } else if !level.selected {
                    let j = choose|j: int| 0 <= j < grown.len() && (#[trigger] grown[j]).selected;
                    assert(seen[j] == grown[j]);
                }
            }
            n = n + 1;
        }
        assert(levels@.subrange(0, n as int) =~= levels@);
    }
    fitted
}

} // verus!
