//! The priority ladder: the fixed, total order of night resolution stages.
//!
//! Every stage runs to completion across all players before the next stage
//! begins.  The ladder is fixed at definition time; nothing appends stages
//! dynamically.

use vstd::prelude::*;

verus! {

/// A named stage of night resolution, in ladder order.
#[derive(Clone, Copy, Debug, PartialEq, Eq, Structural)]
pub enum Priority {
    TopPriority,
    Ward,
    Transporter,
    Possess,
    Roleblock,
    Deception,
    Bodyguard,
    Heal,
    Kill,
    Investigative,
    SpyBug,
    StealMessages,
    Convert,
    FinalPriority,
}

/// The position of a stage on the ladder.
pub open spec fn priority_index(p: Priority) -> int {
    match p {
        Priority::TopPriority => 0,
        Priority::Ward => 1,
        Priority::Transporter => 2,
        Priority::Possess => 3,
        Priority::Roleblock => 4,
        Priority::Deception => 5,
        Priority::Bodyguard => 6,
        Priority::Heal => 7,
        Priority::Kill => 8,
        Priority::Investigative => 9,
        Priority::SpyBug => 10,
        Priority::StealMessages => 11,
        Priority::Convert => 12,
        Priority::FinalPriority => 13,
    }
}

/// The whole ladder, first stage first.
pub open spec fn spec_priority_ladder() -> Seq<Priority> {
    seq![
        Priority::TopPriority,
        Priority::Ward,
        Priority::Transporter,
        Priority::Possess,
        Priority::Roleblock,
        Priority::Deception,
        Priority::Bodyguard,
        Priority::Heal,
        Priority::Kill,
        Priority::Investigative,
        Priority::SpyBug,
        Priority::StealMessages,
        Priority::Convert,
        Priority::FinalPriority,
    ]
}

/// Each stage sits on the ladder exactly at its own index: the ladder is a
/// total order with no repeats, and the resolver, which walks the ladder
/// front to back, therefore runs stage `p` before stage `q` exactly when
/// `priority_index(p) < priority_index(q)`.
pub proof fn lemma_ladder_indexes()
    ensures
        spec_priority_ladder().len() == 14,
        forall|k: int|
            0 <= k < 14 ==> priority_index(#[trigger] spec_priority_ladder()[k]) == k,
{
    assert forall|k: int| 0 <= k < 14 implies priority_index(
        #[trigger] spec_priority_ladder()[k],
    ) == k by {
        if k == 0 {
            assert(spec_priority_ladder()[0] == Priority::TopPriority);
        } else if k == 1 {
            assert(spec_priority_ladder()[1] == Priority::Ward);
        } else if k == 2 {
            assert(spec_priority_ladder()[2] == Priority::Transporter);
        } else if k == 3 {
            assert(spec_priority_ladder()[3] == Priority::Possess);
        } else if k == 4 {
            assert(spec_priority_ladder()[4] == Priority::Roleblock);
        } else if k == 5 {
            assert(spec_priority_ladder()[5] == Priority::Deception);
        } else if k == 6 {
            assert(spec_priority_ladder()[6] == Priority::Bodyguard);
        } else if k == 7 {
            assert(spec_priority_ladder()[7] == Priority::Heal);
        } else if k == 8 {
            assert(spec_priority_ladder()[8] == Priority::Kill);
        } else if k == 9 {
            assert(spec_priority_ladder()[9] == Priority::Investigative);
        } else if k == 10 {
            assert(spec_priority_ladder()[10] == Priority::SpyBug);
        } else if k == 11 {
            assert(spec_priority_ladder()[11] == Priority::StealMessages);
        } else if k == 12 {
            assert(spec_priority_ladder()[12] == Priority::Convert);
        } else if k == 13 {
            assert(spec_priority_ladder()[13] == Priority::FinalPriority);
        }
    }
}

impl Priority {
    /// All stages, in the order the resolver runs them.
    pub fn values() -> (r: Vec<Priority>)
        ensures
            r@ == spec_priority_ladder(),
    {
        let mut v: Vec<Priority> = Vec::new();
        v.push(Priority::TopPriority);
        v.push(Priority::Ward);
        v.push(Priority::Transporter);
        v.push(Priority::Possess);
        v.push(Priority::Roleblock);
        v.push(Priority::Deception);
        v.push(Priority::Bodyguard);
        v.push(Priority::Heal);
        v.push(Priority::Kill);
        v.push(Priority::Investigative);
        v.push(Priority::SpyBug);
        v.push(Priority::StealMessages);
        v.push(Priority::Convert);
        v.push(Priority::FinalPriority);
        proof {
            assert(v@ =~= spec_priority_ladder());
        }
        v
    }
}

} // verus!
