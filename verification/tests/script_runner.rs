use crystallize_core::script::{
    extend, judge, push_step, resume, start, Action, Condition, Directive, Failure, Invocation,
    Outcome, Policy, Step, Verdict,
};
use crystallize_core::utils::returncode_eval::{exec_eval, files_eval, Crash, HostError};

fn step(when: Condition, action: Action, policy: Policy) -> Step {
    Step { when, action, policy, description: String::new(), failure: Failure::CommandFailed }
}

fn pause(when: Condition, policy: Policy) -> Step {
    step(when, Action::Pause(1), policy)
}

#[test]
fn verdicts_of_every_policy() {
    let outcomes = [
        Outcome::Success,
        Outcome::Failure(None),
        Outcome::Failure(Some(2)),
        Outcome::Error(Some(5)),
        Outcome::Error(None),
    ];
    for o in outcomes {
        assert_eq!(judge(Policy::Ignore, o), Verdict::Proceed);
    }
    assert_eq!(judge(Policy::Warn, Outcome::Success), Verdict::Proceed);
    assert_eq!(judge(Policy::Warn, Outcome::Failure(None)), Verdict::Warn);
    assert_eq!(judge(Policy::Warn, Outcome::Error(Some(5))), Verdict::Warn);
    assert_eq!(judge(Policy::Fatal, Outcome::Success), Verdict::Proceed);
    assert_eq!(judge(Policy::Fatal, Outcome::Failure(None)), Verdict::Abort(-1));
    assert_eq!(judge(Policy::Fatal, Outcome::Failure(Some(32))), Verdict::Abort(32));
    assert_eq!(judge(Policy::Fatal, Outcome::Error(Some(5))), Verdict::Abort(5));
    assert_eq!(judge(Policy::Fatal, Outcome::Error(None)), Verdict::Abort(-1));
    assert_eq!(judge(Policy::Started, Outcome::Success), Verdict::Proceed);
    assert_eq!(judge(Policy::Started, Outcome::Failure(None)), Verdict::Proceed);
    assert_eq!(judge(Policy::Started, Outcome::Failure(Some(32))), Verdict::Proceed);
    assert_eq!(judge(Policy::Started, Outcome::Error(Some(5))), Verdict::Abort(5));
    assert_eq!(judge(Policy::Started, Outcome::Error(None)), Verdict::Abort(-1));
    assert_eq!(judge(Policy::Crash, Outcome::Success), Verdict::Proceed);
    assert_eq!(judge(Policy::Crash, Outcome::Failure(None)), Verdict::Abort(1));
    assert_eq!(judge(Policy::Crash, Outcome::Error(Some(5))), Verdict::Abort(1));
    let s = pause(Condition::Always, Policy::Crash);
    assert_eq!(s.verdict(Outcome::Failure(None)), Verdict::Abort(1));
}

#[test]
fn empty_script_is_finished_at_once() {
    assert_eq!(start(&Vec::new()), Directive::Finished);
    assert_eq!(resume(&Vec::new(), 0, Outcome::Success), Directive::Finished);
}

#[test]
fn conditions_look_at_the_step_performed_before() {
    let script = vec![
        pause(Condition::Always, Policy::Ignore),
        pause(Condition::IfFailed, Policy::Ignore),
        pause(Condition::IfSucceeded, Policy::Ignore),
        pause(Condition::Always, Policy::Ignore),
    ];
    assert_eq!(start(&script), Directive::Perform(0));
    assert_eq!(resume(&script, 0, Outcome::Success), Directive::Perform(2));
    assert_eq!(resume(&script, 0, Outcome::Failure(None)), Directive::Perform(1));
    assert_eq!(resume(&script, 0, Outcome::Error(None)), Directive::Perform(1));
    assert_eq!(resume(&script, 1, Outcome::Success), Directive::Perform(2));
    assert_eq!(resume(&script, 1, Outcome::Failure(None)), Directive::Perform(3));
    assert_eq!(resume(&script, 3, Outcome::Success), Directive::Finished);
    assert_eq!(resume(&script, 9, Outcome::Success), Directive::Finished);
}

#[test]
fn nothing_fails_before_the_first_step() {
    let script = vec![
        pause(Condition::IfFailed, Policy::Ignore),
        pause(Condition::IfSucceeded, Policy::Ignore),
    ];
    assert_eq!(start(&script), Directive::Perform(1));
    let only_failed = vec![pause(Condition::IfFailed, Policy::Ignore)];
    assert_eq!(start(&only_failed), Directive::Finished);
}

#[test]
fn stop_ends_the_run_without_being_performed() {
    let script = vec![
        pause(Condition::Always, Policy::Ignore),
        step(Condition::IfFailed, Action::Stop, Policy::Crash),
        pause(Condition::Always, Policy::Ignore),
    ];
    assert_eq!(resume(&script, 0, Outcome::Failure(None)), Directive::Abort { step: 1, code: 1 });
    assert_eq!(resume(&script, 0, Outcome::Success), Directive::Perform(2));
    let first = vec![step(Condition::Always, Action::Stop, Policy::Crash)];
    assert_eq!(start(&first), Directive::Abort { step: 0, code: 1 });
}

#[test]
fn abort_names_the_failed_step_and_its_code() {
    let script = vec![
        pause(Condition::Always, Policy::Started),
        pause(Condition::Always, Policy::Crash),
        pause(Condition::Always, Policy::Fatal),
    ];
    assert_eq!(resume(&script, 0, Outcome::Error(Some(7))), Directive::Abort { step: 0, code: 7 });
    assert_eq!(resume(&script, 0, Outcome::Failure(None)), Directive::Perform(1));
    assert_eq!(resume(&script, 1, Outcome::Failure(None)), Directive::Abort { step: 1, code: 1 });
    assert_eq!(resume(&script, 1, Outcome::Success), Directive::Perform(2));
    assert_eq!(resume(&script, 2, Outcome::Failure(Some(4))), Directive::Abort { step: 2, code: 4 });
    assert_eq!(resume(&script, 2, Outcome::Success), Directive::Finished);
}

#[test]
fn scripts_are_put_together_in_order() {
    let mut script = vec![pause(Condition::Always, Policy::Ignore)];
    push_step(&mut script, pause(Condition::Always, Policy::Warn));
    extend(
        &mut script,
        vec![pause(Condition::Always, Policy::Fatal), pause(Condition::Always, Policy::Crash)],
    );
    let policies: Vec<Policy> = script.iter().map(|s| s.policy).collect();
    assert_eq!(policies, vec![Policy::Ignore, Policy::Warn, Policy::Fatal, Policy::Crash]);
}

#[test]
fn step_builders() {
    let run = Step::run("ls", vec!["-l".to_string()], Policy::Warn, "list".to_string());
    assert_eq!(
        run,
        Step {
            when: Condition::Always,
            action: Action::Run(Invocation {
                program: "ls".to_string(),
                args: vec!["-l".to_string()]
            }),
            policy: Policy::Warn,
            description: "list".to_string(),
            failure: Failure::CommandFailed,
        }
    );
    assert_eq!(run.clone().failing(Failure::Rejected).failure, Failure::Rejected);
    let halt = Step::stop("no".to_string(), Failure::UnknownFilesystem);
    assert_eq!(halt.action, Action::Stop);
    assert_eq!(halt.policy, Policy::Crash);
    assert_eq!(halt.failure, Failure::UnknownFilesystem);
    let note = Step::warning("beware".to_string());
    assert_eq!(note.action, Action::Warn);
    assert_eq!(note.policy, Policy::Ignore);
    let later = run.clone().only(Condition::IfFailed);
    assert_eq!(later.when, Condition::IfFailed);
    assert_eq!(later.action, run.action);
    let started = Step::started(Invocation::new("true", Vec::new()), "do");
    assert_eq!(started.policy, Policy::Started);
    let file = Step::file(Action::CreateFile("/x".to_string()), "make");
    assert_eq!(file.policy, Policy::Fatal);
    assert_eq!(file.description, "make");
}

#[test]
fn exec_eval_crashes_only_when_the_program_could_not_start() {
    assert_eq!(exec_eval(&Ok(true), "do it"), Ok(()));
    assert_eq!(exec_eval(&Ok(false), "do it"), Ok(()));
    let denied = HostError { code: Some(13), message: "Permission denied (os error 13)".into() };
    assert_eq!(
        exec_eval(&Err(denied), "do it"),
        Err(Crash { message: "do it ERROR: Permission denied (os error 13)".into(), code: 13 })
    );
    let odd = HostError { code: None, message: "odd".into() };
    assert_eq!(
        exec_eval(&Err(odd.clone()), "do it"),
        Err(Crash { message: "do it ERROR: odd".into(), code: -1 })
    );
    assert_eq!(files_eval(&Ok(()), "write"), Ok(()));
    assert_eq!(
        files_eval(&Err(odd), "write"),
        Err(Crash { message: "write ERROR: odd".into(), code: -1 })
    );
}
