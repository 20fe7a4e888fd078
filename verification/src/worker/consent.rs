//! Asking a chain of lifecycle hooks, one after the other, whether the
//! worker may go ahead (start, pause, resume): the first hook that says no
//! decides, and later hooks are not asked.
//!
//! The hooks answer asynchronously, so the caller asks each one; these
//! functions say whom to ask next and when the answer is known.

use vstd::prelude::*;

verus! {

/// Where a round of asking the hooks stands.
#[derive(Debug, Clone, Copy, PartialEq, Eq, Structural)]
pub enum ConsentStep {
    /// Ask the hook at this position next.
    Ask(usize),
    /// Every hook asked has answered; this is the outcome.
    Decided(bool),
}

/// The step that opens a round over `hook_count` hooks: with no hooks the
/// answer is yes.
pub open spec fn start_step(hook_count: nat) -> ConsentStep {
    if hook_count == 0 {
        ConsentStep::Decided(true)
    } else {
        ConsentStep::Ask(0)
    }
}

/// The step after the hook at `index` of `hook_count` answered `answer`.
pub open spec fn step_after(index: nat, hook_count: nat, answer: bool) -> ConsentStep {
    if !answer {
        ConsentStep::Decided(false)
    } else if index + 1 >= hook_count {
        ConsentStep::Decided(true)
    } else {
        ConsentStep::Ask((index + 1) as usize)
    }
}

/// The first step of a round over `hook_count` hooks.
pub fn consent_start(hook_count: usize) -> (r: ConsentStep)
    ensures
        r == start_step(hook_count as nat),
{
    if hook_count == 0 {
        ConsentStep::Decided(true)
    } else {
        ConsentStep::Ask(0)
    }
}

/// The next step once the hook at `index` of `hook_count` answered `answer`.
pub fn consent_next(index: usize, hook_count: usize, answer: bool) -> (r: ConsentStep)
    requires
        index < hook_count,
    ensures
        r == step_after(index as nat, hook_count as nat, answer),
{
    if !answer {
        ConsentStep::Decided(false)
    } else if index + 1 >= hook_count {
        ConsentStep::Decided(true)
    } else {
        ConsentStep::Ask(index + 1)
    }
}

/// The outcome and the number of hooks asked when the round over
/// `answers` (what each hook would answer, in order) is driven from
/// `step` to its end.
pub open spec fn run_round(answers: Seq<bool>, step: ConsentStep, fuel: nat) -> (bool, nat)
    decreases fuel,
{
    match step {
        ConsentStep::Decided(b) => (b, 0),
        ConsentStep::Ask(i) => if fuel == 0 || i >= answers.len() {
            (false, 0)
        } else {
            let rest = run_round(answers, step_after(i as nat, answers.len(), answers[i as int]), (fuel - 1) as nat);
            (rest.0, rest.1 + 1)
        },
    }
}

/// The position of the first no in `answers`, or its length when every
/// answer is yes.
pub open spec fn first_refusal(answers: Seq<bool>) -> nat
    decreases answers.len(),
{
    if answers.len() == 0 {
        0
    } else if !answers[0] {
        0
    } else {
        1 + first_refusal(answers.drop_first())
    }
}

proof fn lemma_run_from(answers: Seq<bool>, i: nat)
    requires
        i < answers.len(),
        answers.len() <= usize::MAX,
    ensures
        run_round(answers, ConsentStep::Ask(i as usize), (answers.len() - i) as nat) == (
            forall|j: int| i <= j < answers.len() ==> answers[j],
            first_refusal(answers.skip(i as int)) + if first_refusal(answers.skip(i as int))
                < answers.len() - i {
                1nat
            } else {
                0nat
            },
        ),
    decreases answers.len() - i,
{
    let s = answers.skip(i as int);
    let n = answers.len();
    assert(s[0] == answers[i as int]);
    assert(s.drop_first() =~= answers.skip(i + 1int));
    assert((i as usize) as nat == i);
    reveal_with_fuel(run_round, 2);
    if !answers[i as int] {
        assert(first_refusal(s) == 0);
        assert(step_after(i, n, false) == ConsentStep::Decided(false));
        assert(run_round(answers, ConsentStep::Ask(i as usize), (n - i) as nat) == (false, 1nat));
        assert(!(forall|j: int| i <= j < n ==> answers[j]));
    } else if i + 1 >= n {
        assert(s.drop_first().len() == 0);
        assert(first_refusal(s.drop_first()) == 0);
        assert(first_refusal(s) == 1);
        assert(step_after(i, n, true) == ConsentStep::Decided(true));
        assert(run_round(answers, ConsentStep::Ask(i as usize), (n - i) as nat) == (true, 1nat));
        assert forall|j: int| i <= j < n implies answers[j] by {
            assert(j == i);
        }
    } else {
        lemma_run_from(answers, i + 1);
        assert(step_after(i, n, true) == ConsentStep::Ask((i + 1) as usize));
        assert(first_refusal(s) == 1 + first_refusal(answers.skip(i + 1int)));
        assert((forall|j: int| i <= j < n ==> answers[j]) == (forall|j: int|
            i + 1 <= j < n ==> answers[j])) by {
            if forall|j: int| i + 1 <= j < n ==> answers[j] {
                assert forall|j: int| i <= j < n implies answers[j] by {
                    if j > i {
                    }
                }
            }
        }
    }
}

/// Asking every hook in turn yields yes exactly when every hook says yes,
/// and the hooks asked are those up to and including the first that says
/// no (all of them when none does).
pub proof fn law_consent_is_unanimous(answers: Seq<bool>)
    requires
        answers.len() <= usize::MAX,
    ensures
        run_round(answers, start_step(answers.len()), answers.len()).0 == (forall|j: int|
            0 <= j < answers.len() ==> answers[j]),
        run_round(answers, start_step(answers.len()), answers.len()).1 == if first_refusal(answers)
            < answers.len() {
            first_refusal(answers) + 1
        } else {
            answers.len()
        },
{
    if answers.len() > 0 {
        lemma_run_from(answers, 0);
        assert(answers.skip(0) =~= answers);
        lemma_first_refusal_bound(answers);
    }
}

proof fn lemma_first_refusal_bound(answers: Seq<bool>)
    ensures
        first_refusal(answers) <= answers.len(),
    decreases answers.len(),
{
    if answers.len() > 0 && answers[0] {
        lemma_first_refusal_bound(answers.drop_first());
    }
}

} // verus!
