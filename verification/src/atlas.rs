//! The texture atlas as the mesher sees it: a table from block material to
//! the rectangle of the shared texture that shows it.

use vstd::prelude::*;
use crate::block::BlockState;
use crate::geometry::UvRect;

verus! {

/// The rectangle that a list of registrations gives to `key`: that of the
/// last entry made under it, as when the entries are put into a map one
/// after the other.
pub open spec fn registered(entries: Seq<(BlockState, UvRect)>, key: BlockState) -> Option<UvRect>
    decreases entries.len(),
{
    if entries.len() == 0 {
        None
    } else if entries.last().0 == key {
        Some(entries.last().1)
    } else {
        registered(entries.drop_last(), key)
    }
}

/// Whether the registrations cover every material that can be drawn.
pub open spec fn complete(entries: Seq<(BlockState, UvRect)>) -> bool {
    forall|key: BlockState| key != BlockState::AIR ==> (#[trigger] registered(entries, key)).is_some()
}

/// A UV table with a rectangle for every material but air.
#[derive(Debug, Clone, Copy)]
pub struct Atlas {
    test: UvRect,
    panel: UvRect,
}

impl View for Atlas {
    type V = Map<BlockState, UvRect>;

    closed spec fn view(&self) -> Map<BlockState, UvRect> {
        map![BlockState::TEST => self.test, BlockState::PANEL => self.panel]
    }
}

impl Atlas {
    /// The table holds every material that has geometry, and never air.
    pub proof fn lemma_total(&self)
        ensures
            forall|key: BlockState| #[trigger] self@.contains_key(key) <==> key != BlockState::AIR,
    {
        assert forall|key: BlockState| #[trigger] self@.contains_key(key) <==> key
            != BlockState::AIR by {
            match key {
                BlockState::AIR => {},
                BlockState::TEST => {},
                BlockState::PANEL => {},
            }
        }
    }

    /// Builds the table from a list of registrations. Entries under air are
    /// passed over, and a later entry replaces an earlier one for the same
    /// material. There is no table where a material is left without a
    /// rectangle.
    pub fn new(entries: &[(BlockState, UvRect)]) -> (atlas: Option<Atlas>)
        ensures
            atlas.is_some() == complete(entries@),
            atlas matches Some(a) ==> forall|key: BlockState|
                #![trigger a@.contains_key(key)]
                #![trigger a@[key]]
                {
                    &&& a@.contains_key(key) <==> key != BlockState::AIR
                    &&& key != BlockState::AIR ==> Some(a@[key]) == registered(entries@, key)
                },
    {
        let mut test: Option<UvRect> = None;
        let mut panel: Option<UvRect> = None;
        let mut i: usize = 0;
        while i < entries.len()
            invariant
                i <= entries.len(),
                test == registered(entries@.take(i as int), BlockState::TEST),
                panel == registered(entries@.take(i as int), BlockState::PANEL),
            decreases entries.len() - i,
        {
            let (key, rect) = entries[i];
            proof {
                let next = entries@.take(i + 1);
                assert(next.drop_last() == entries@.take(i as int));
                assert(next.last() == entries@[i as int]);
            }
            match key {
                BlockState::AIR => {},
                BlockState::TEST => {
                    test = Some(rect);
                },
                BlockState::PANEL => {
                    panel = Some(rect);
                },
            }
            i += 1;
        }
        proof {
            assert(entries@.take(i as int) == entries@);
        }
        match (test, panel) {
            (Some(test), Some(panel)) => {
                let a = Atlas { test, panel };
                proof {
                    a.lemma_total();
                    assert forall|key: BlockState| key != BlockState::AIR implies (
                    #[trigger] registered(entries@, key)).is_some() by {
                        match key {
                            BlockState::AIR => {},
                            BlockState::TEST => {},
                            BlockState::PANEL => {},
                        }
                    }
                }
                Some(a)
            },
            _ => None,
        }
    }

    /// The rectangle of `key`. Air has none.
    pub fn uv(&self, key: &BlockState) -> (rect: UvRect)
        requires
            *key != BlockState::AIR,
        ensures
            self@.contains_key(*key),
            rect == self@[*key],
    {
        match key {
            BlockState::PANEL => self.panel,
            _ => self.test,
        }
    }
}

} // verus!
