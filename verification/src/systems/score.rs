use vstd::prelude::*;
use crate::events::NoteEvalEvent;
use crate::score::{ScoreResource, ScoreState};

verus! {

/// The record after the grades `evals` were entered in turn.
pub open spec fn after_evals(state: ScoreState, evals: Seq<NoteEvalEvent>) -> ScoreState
    decreases evals.len(),
{
    if evals.len() == 0 {
        state
    } else {
        after_evals(state, evals.drop_last()).update_score(
            evals.last().eval,
            evals.last().note.note_type,
        )
    }
}

/// Enters the grades given in one frame.
pub fn update_score(score: &mut ScoreResource, evals: &Vec<NoteEvalEvent>)
    ensures
        final(score)@ == after_evals(old(score)@, evals@),
{
    let mut i: usize = 0;
    while i < evals.len()
        invariant
            i <= evals.len(),
            score@ == after_evals(old(score)@, evals@.take(i as int)),
        decreases evals.len() - i,
    {
        score.update_score(&evals[i].eval, &evals[i].note.note_type);
        proof {
            assert(evals@.take(i + 1).drop_last() =~= evals@.take(i as int));
        }
        i += 1;
    }
    proof {
        assert(evals@.take(i as int) =~= evals@);
    }
}

} // verus!
