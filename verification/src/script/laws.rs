//! Whole runs of a script, and what holds of all of them.
//!
//! A run is fixed by the script and by what the host answers to each step.
//! The functions of this module say which steps such a run performs and how
//! it ends; the lemmas say what no host can change.

use crate::script::{
    applies, lemma_next_applicable, next_applicable, resume_of, start_of, verdict_of, Directive,
    Outcome, StepView,
};
use vstd::prelude::*;

verus! {

/// The steps performed from step `at` on, in the order they are performed
/// in, when the host answers step `i` with `answers(i)`.
pub open spec fn performed_from(script: Seq<StepView>, answers: spec_fn(int) -> Outcome, at: int) -> Seq<
    int,
>
    decreases script.len() - at,
{
    if at < 0 || at >= script.len() {
        Seq::empty()
    } else {
        match resume_of(script, at, answers(at)) {
            Directive::Perform(next) => if at < next < script.len() {
                seq![at] + performed_from(script, answers, next as int)
            } else {
                seq![at]
            },
            _ => seq![at],
        }
    }
}

/// How a run ends that goes on with step `at`.
pub open spec fn ending_from(script: Seq<StepView>, answers: spec_fn(int) -> Outcome, at: int) -> Directive
    decreases script.len() - at,
{
    if at < 0 || at >= script.len() {
        Directive::Finished
    } else {
        match resume_of(script, at, answers(at)) {
            Directive::Perform(next) => if at < next < script.len() {
                ending_from(script, answers, next as int)
            } else {
                Directive::Finished
            },
            end => end,
        }
    }
}

/// The steps that a run performs, in order.
pub open spec fn performed(script: Seq<StepView>, answers: spec_fn(int) -> Outcome) -> Seq<int> {
    match start_of(script) {
        Directive::Perform(first) => performed_from(script, answers, first as int),
        _ => Seq::empty(),
    }
}

/// How a run ends: finished, or aborted at a step with an exit code.
pub open spec fn ending(script: Seq<StepView>, answers: spec_fn(int) -> Outcome) -> Directive {
    match start_of(script) {
        Directive::Perform(first) => ending_from(script, answers, first as int),
        end => end,
    }
}

/// The step can be handed to the host whatever came before: it has no
/// condition and is no stop.
pub open spec fn unconditional(step: StepView) -> bool {
    step.when is Always && !(step.action is Stop)
}

/// No outcome of the step ends the run, and the step is no stop.
pub open spec fn harmless(step: StepView) -> bool {
    (step.policy is Ignore || step.policy is Warn) && !(step.action is Stop)
}

/// What is performed from a step on lies at or after that step, in rising
/// order, within the script; the step itself comes first.
pub proof fn lemma_performed_from_rises(
    script: Seq<StepView>,
    answers: spec_fn(int) -> Outcome,
    at: int,
)
    requires
        0 <= at < script.len() <= usize::MAX,
    ensures
        performed_from(script, answers, at).len() > 0,
        performed_from(script, answers, at)[0] == at,
        forall|k: int|
            0 <= k < performed_from(script, answers, at).len() ==> at <= #[trigger] performed_from(
                script,
                answers,
                at,
            )[k] < script.len(),
        forall|a: int, b: int|
            0 <= a < b < performed_from(script, answers, at).len() ==> performed_from(
                script,
                answers,
                at,
            )[a] < performed_from(script, answers, at)[b],
    decreases script.len() - at,
{
    lemma_next_applicable(script, at + 1, answers(at) is Success);
    match resume_of(script, at, answers(at)) {
        Directive::Perform(next) => {
            if at < next {
                let rest = performed_from(script, answers, next as int);
                lemma_performed_from_rises(script, answers, next as int);
                let all = performed_from(script, answers, at);
                assert(all =~= seq![at] + rest);
                assert forall|k: int| 0 <= k < all.len() implies at <= #[trigger] all[k]
                    < script.len() by {
                    if k > 0 {
                        assert(all[k] == rest[k - 1]);
                    }
                }
                assert forall|a: int, b: int| 0 <= a < b < all.len() implies all[a] < all[b] by {
                    assert(all[b] == rest[b - 1]);
                    if a > 0 {
                        assert(all[a] == rest[a - 1]);
                    }
                }
            }
        },
        _ => {},
    }
}

/// The steps of a run are performed in the order of the script, each at
/// most once.
pub proof fn lemma_steps_are_performed_in_order(
    script: Seq<StepView>,
    answers: spec_fn(int) -> Outcome,
)
    requires
        script.len() <= usize::MAX,
    ensures
        forall|a: int, b: int|
            0 <= a < b < performed(script, answers).len() ==> performed(script, answers)[a]
                < performed(script, answers)[b],
        forall|k: int|
            0 <= k < performed(script, answers).len() ==> 0 <= #[trigger] performed(
                script,
                answers,
            )[k] < script.len(),
{
    lemma_next_applicable(script, 0, true);
    match start_of(script) {
        Directive::Perform(first) => {
            lemma_performed_from_rises(script, answers, first as int);
        },
        _ => {},
    }
}

/// A run that goes on at or before an unconditional step and performs a
/// later step, or finishes, has performed that step.
pub proof fn lemma_unconditional_from(
    script: Seq<StepView>,
    answers: spec_fn(int) -> Outcome,
    at: int,
    step: int,
)
    requires
        0 <= at <= step < script.len() <= usize::MAX,
        unconditional(script[step]),
        (exists|k: int|
            0 <= k < performed_from(script, answers, at).len() && performed_from(
                script,
                answers,
                at,
            )[k] >= step) || ending_from(script, answers, at) is Finished,
    ensures
        performed_from(script, answers, at).contains(step),
    decreases script.len() - at,
{
    let all = performed_from(script, answers, at);
    lemma_performed_from_rises(script, answers, at);
    if at == step {
        assert(all[0] == step);
    } else {
        let ok = answers(at) is Success;
        lemma_next_applicable(script, at + 1, ok);
        let next = next_applicable(script, at + 1, ok);
        assert(next <= step) by {
            if next > step {
                assert(applies(script[step].when, ok));
            }
        }
        match resume_of(script, at, answers(at)) {
            Directive::Perform(n) => {
                assert(n == next);
                let rest = performed_from(script, answers, next);
                assert(all =~= seq![at] + rest);
                assert((exists|k: int| 0 <= k < rest.len() && rest[k] >= step) || ending_from(
                    script,
                    answers,
                    next,
                ) is Finished) by {
                    if !(ending_from(script, answers, at) is Finished) {
                        let k = choose|k: int| 0 <= k < all.len() && all[k] >= step;
                        assert(k > 0);
                        assert(rest[k - 1] == all[k]);
                    }
                }
                lemma_unconditional_from(script, answers, next, step);
                let m = choose|m: int| 0 <= m < rest.len() && rest[m] == step;
                assert(all[m + 1] == step);
            },
            Directive::Abort { step: failed, code } => {
                assert(all =~= seq![at]);
                if exists|k: int| 0 <= k < all.len() && all[k] >= step {
                    let k = choose|k: int| 0 <= k < all.len() && all[k] >= step;
                    assert(all[k] == at);
                }
                assert(false);
            },
            Directive::Finished => {
                assert(all =~= seq![at]);
                if exists|k: int| 0 <= k < all.len() && all[k] >= step {
                    let k = choose|k: int| 0 <= k < all.len() && all[k] >= step;
                    assert(all[k] == at);
                }
                assert(next == script.len());
                assert(false);
            },
        }
    }
}

/// An unconditional step is not passed over: a run that performs a later
/// step has performed it before.
pub proof fn lemma_unconditional_steps_come_first(
    script: Seq<StepView>,
    answers: spec_fn(int) -> Outcome,
    step: int,
    later: int,
)
    requires
        0 <= step < later,
        script.len() <= usize::MAX,
        step < script.len(),
        unconditional(script[step]),
        performed(script, answers).contains(later),
    ensures
        exists|a: int, b: int|
            0 <= a < b < performed(script, answers).len() && performed(script, answers)[a] == step
                && performed(script, answers)[b] == later,
{
    lemma_next_applicable(script, 0, true);
    lemma_steps_are_performed_in_order(script, answers);
    let all = performed(script, answers);
    let b = choose|b: int| 0 <= b < all.len() && all[b] == later;
    match start_of(script) {
        Directive::Perform(first) => {
            let first = first as int;
            assert(first <= step) by {
                if first > step {
                    assert(applies(script[step].when, true));
                }
            }
            assert(performed_from(script, answers, first)[b] >= step);
            lemma_unconditional_from(script, answers, first, step);
            let a = choose|a: int| 0 <= a < all.len() && all[a] == step;
            if a >= b {
                if a > b {
                    assert(all[b] < all[a]);
                }
            }
        },
        _ => {},
    }
}

/// A run that finishes has performed every unconditional step.
pub proof fn lemma_finished_runs_perform_unconditional_steps(
    script: Seq<StepView>,
    answers: spec_fn(int) -> Outcome,
    step: int,
)
    requires
        0 <= step < script.len() <= usize::MAX,
        unconditional(script[step]),
        ending(script, answers) is Finished,
    ensures
        performed(script, answers).contains(step),
{
    lemma_next_applicable(script, 0, true);
    match start_of(script) {
        Directive::Perform(first) => {
            let first = first as int;
            assert(first <= step) by {
                if first > step {
                    assert(applies(script[step].when, true));
                }
            }
            lemma_unconditional_from(script, answers, first, step);
        },
        Directive::Finished => {
            assert(applies(script[step].when, true));
        },
        _ => {},
    }
}

/// A run of harmless steps from `at` on finishes.
pub proof fn lemma_harmless_from(script: Seq<StepView>, answers: spec_fn(int) -> Outcome, at: int)
    requires
        0 <= at <= script.len() <= usize::MAX,
        forall|i: int| at <= i < script.len() ==> harmless(#[trigger] script[i]),
    ensures
        ending_from(script, answers, at) is Finished,
    decreases script.len() - at,
{
    if at < script.len() {
        assert(harmless(script[at]));
        lemma_next_applicable(script, at + 1, answers(at) is Success);
        let next = next_applicable(script, at + 1, answers(at) is Success);
        if next < script.len() {
            assert(harmless(script[next]));
            lemma_harmless_from(script, answers, next);
        }
    }
}

/// A script of harmless steps always finishes: nothing that the host answers
/// ends its run.
pub proof fn lemma_harmless_scripts_finish(script: Seq<StepView>, answers: spec_fn(int) -> Outcome)
    requires
        script.len() <= usize::MAX,
        forall|i: int| 0 <= i < script.len() ==> harmless(#[trigger] script[i]),
    ensures
        ending(script, answers) is Finished,
{
    lemma_next_applicable(script, 0, true);
    let first = next_applicable(script, 0, true);
    if first < script.len() {
        assert(harmless(script[first]));
        lemma_harmless_from(script, answers, first);
    }
}

/// A run is aborted only at a step that it performed or at a stop, and every
/// step that it performed applied after the step before it.
pub proof fn lemma_abort_names_a_step(script: Seq<StepView>, answers: spec_fn(int) -> Outcome, at: int)
    requires
        0 <= at < script.len() <= usize::MAX,
    ensures
        match ending_from(script, answers, at) {
            Directive::Abort { step, code } => at <= step < script.len() && (script[step as int].action
                is Stop || (performed_from(script, answers, at).contains(step as int) && verdict_of(
                script[step as int].policy,
                answers(step as int),
            ) == crate::script::Verdict::Abort(code))),
            Directive::Perform(_) => false,
            Directive::Finished => true,
        },
    decreases script.len() - at,
{
    lemma_next_applicable(script, at + 1, answers(at) is Success);
    lemma_performed_from_rises(script, answers, at);
    let all = performed_from(script, answers, at);
    match resume_of(script, at, answers(at)) {
        Directive::Perform(next) => {
            if at < next {
                lemma_abort_names_a_step(script, answers, next as int);
                let rest = performed_from(script, answers, next as int);
                assert(all =~= seq![at] + rest);
                match ending_from(script, answers, at) {
                    Directive::Abort { step, code } => {
                        if rest.contains(step as int) {
                            let k = choose|k: int| 0 <= k < rest.len() && rest[k] == step;
                            assert(all[k + 1] == step);
                        }
                    },
                    _ => {},
                }
            }
        },
        Directive::Abort { step, code } => {
            assert(all[0] == at);
        },
        _ => {},
    }
}

/// A run never ends at a harmless step: the step that an abort names is one
/// whose outcome could end the run, or a stop.
pub proof fn lemma_abort_is_not_harmless(script: Seq<StepView>, answers: spec_fn(int) -> Outcome)
    requires
        script.len() <= usize::MAX,
    ensures
        match ending(script, answers) {
            Directive::Abort { step, code } => step < script.len() && !harmless(script[step as int]),
            Directive::Perform(_) => false,
            Directive::Finished => true,
        },
{
    lemma_next_applicable(script, 0, true);
    match start_of(script) {
        Directive::Perform(first) => {
            lemma_abort_names_a_step(script, answers, first as int);
        },
        _ => {},
    }
}

} // verus!
