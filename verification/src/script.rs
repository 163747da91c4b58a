//! Scripts: what the installer asks of the host, and what it does with the answer.
//!
//! A script is a list of steps. Each step names one action for the host, says
//! when it applies and how its outcome is judged. The library never performs an
//! action: the caller performs the step it is handed and reports the outcome,
//! and [`start`] and [`resume`] decide what comes next.

pub mod laws;

use vstd::prelude::*;
use vstd::string::*;

verus! {

/// A program to start, with its arguments.
#[derive(Debug, Clone, PartialEq, Eq)]
pub struct Invocation {
    pub program: String,
    pub args: Vec<String>,
}

/// Mathematical model of an [`Invocation`].
#[verifier::ext_equal]
pub struct InvocationView {
    pub program: Seq<char>,
    pub args: Seq<Seq<char>>,
}

impl DeepView for Invocation {
    type V = InvocationView;

    open spec fn deep_view(&self) -> InvocationView {
        InvocationView { program: self.program@, args: self.args.deep_view() }
    }
}

impl View for Invocation {
    type V = InvocationView;

    open spec fn view(&self) -> InvocationView {
        self.deep_view()
    }
}

/// How the progress of a long-running program is shown.
#[derive(Clone, Copy, Debug, PartialEq, Eq, Structural)]
pub enum ProgressKind {
    /// Downloads and installations are counted.
    Standard,
    /// Downloads, builds and installations are counted.
    Aur,
    /// A spinner that turns with every line of output.
    Simple,
}

/// What is shown and kept while a long-running program runs.
#[derive(Clone, Copy, Debug, PartialEq, Eq, Structural)]
pub struct Progress {
    pub kind: ProgressKind,
    /// Whether the remaining time is estimated.
    pub show_eta: bool,
    /// Whether the program's output is kept in the log file.
    pub keep_output: bool,
}

/// The rules by which the library rewrites configuration files.
#[derive(Clone, Copy, Debug, PartialEq, Eq, Structural)]
pub enum Rewrite {
    /// Switch kernel mode setting on in the boot loader's kernel command line.
    KernelModeset,
    /// Load the graphics driver's modules in the initial ramdisk.
    DriverModules,
}

/// One thing the host can be asked to do.
#[derive(Debug, Clone, PartialEq, Eq)]
pub enum Action {
    /// Start a program and wait for it to exit.
    Run(Invocation),
    /// Start a program, show its progress and keep its output in a log file.
    RunLogged { invocation: Invocation, log_path: String, progress: Progress },
    /// Have the host's package layer provide these packages.
    Install(Vec<String>),
    /// Test whether a path exists; a missing path is a failure.
    CheckPath(String),
    /// Test whether a path is a directory.
    CheckDirectory(String),
    /// Test whether a path is a regular file.
    CheckFile(String),
    /// Create a directory and its parents.
    CreateDirectory(String),
    /// Create a directory whose parent is there.
    MakeDirectory(String),
    /// Create an empty file, and the directories above it.
    CreateFile(String),
    /// Add text at the end of a file.
    AppendFile { path: String, content: String },
    /// Replace the content of a file.
    WriteFile { path: String, content: String },
    /// Replace every occurrence of `find` in a file by `replace`.
    ReplaceInFile { path: String, find: String, replace: String },
    /// Copy one file.
    CopyFile { source: String, destination: String },
    /// Copy a directory with everything below it.
    CopyDirectory { source: String, destination: String },
    /// Read a file, rewrite its text by a rule of the library, write it back.
    /// A file that cannot be read counts as empty.
    RewriteFile { path: String, rule: Rewrite },
    /// Remove a file, or a directory with everything below it.
    Remove(String),
    /// Set the permission bits of a file.
    SetPermissions { path: String, mode: u32 },
    /// Wait for this many milliseconds.
    Pause(u64),
    /// Tell the operator what the step's description says; nothing else.
    Warn,
    /// Nothing to perform: the run ends here.
    Stop,
}

/// Mathematical model of an [`Action`].
#[verifier::ext_equal]
pub enum ActionView {
    Run(InvocationView),
    RunLogged { invocation: InvocationView, log_path: Seq<char>, progress: Progress },
    Install(Seq<Seq<char>>),
    CheckPath(Seq<char>),
    CheckDirectory(Seq<char>),
    CheckFile(Seq<char>),
    CreateDirectory(Seq<char>),
    MakeDirectory(Seq<char>),
    CreateFile(Seq<char>),
    AppendFile { path: Seq<char>, content: Seq<char> },
    WriteFile { path: Seq<char>, content: Seq<char> },
    ReplaceInFile { path: Seq<char>, find: Seq<char>, replace: Seq<char> },
    CopyFile { source: Seq<char>, destination: Seq<char> },
    CopyDirectory { source: Seq<char>, destination: Seq<char> },
    RewriteFile { path: Seq<char>, rule: Rewrite },
    Remove(Seq<char>),
    SetPermissions { path: Seq<char>, mode: u32 },
    Pause(u64),
    Warn,
    Stop,
}

impl DeepView for Action {
    type V = ActionView;

    open spec fn deep_view(&self) -> ActionView {
        match *self {
            Action::Run(invocation) => ActionView::Run(invocation@),
            Action::RunLogged { invocation, log_path, progress } => ActionView::RunLogged {
                invocation: invocation@,
                log_path: log_path@,
                progress,
            },
            Action::Install(packages) => ActionView::Install(packages.deep_view()),
            Action::CheckPath(path) => ActionView::CheckPath(path@),
            Action::CheckDirectory(path) => ActionView::CheckDirectory(path@),
            Action::CheckFile(path) => ActionView::CheckFile(path@),
            Action::CreateDirectory(path) => ActionView::CreateDirectory(path@),
            Action::MakeDirectory(path) => ActionView::MakeDirectory(path@),
            Action::CreateFile(path) => ActionView::CreateFile(path@),
            Action::AppendFile { path, content } => ActionView::AppendFile {
                path: path@,
                content: content@,
            },
            Action::WriteFile { path, content } => ActionView::WriteFile {
                path: path@,
                content: content@,
            },
            Action::ReplaceInFile { path, find, replace } => ActionView::ReplaceInFile {
                path: path@,
                find: find@,
                replace: replace@,
            },
            Action::CopyFile { source, destination } => ActionView::CopyFile {
                source: source@,
                destination: destination@,
            },
            Action::CopyDirectory { source, destination } => ActionView::CopyDirectory {
                source: source@,
                destination: destination@,
            },
            Action::RewriteFile { path, rule } => ActionView::RewriteFile { path: path@, rule },
            Action::Remove(path) => ActionView::Remove(path@),
            Action::SetPermissions { path, mode } => ActionView::SetPermissions { path: path@, mode },
            Action::Pause(millis) => ActionView::Pause(millis),
            Action::Warn => ActionView::Warn,
            Action::Stop => ActionView::Stop,
        }
    }
}

impl View for Action {
    type V = ActionView;

    open spec fn view(&self) -> ActionView {
        self.deep_view()
    }
}

/// What the host reports of an action it was handed.
#[derive(Clone, Copy, Debug, PartialEq, Eq, Structural)]
pub enum Outcome {
    /// Done: the program exited with success, the file operation went
    /// through, the path exists.
    Success,
    /// Performed, with a negative answer: the program exited with another
    /// status (its exit code, where it has one), the path is missing.
    Failure(Option<i32>),
    /// Not performed: the host reported an error, with its error number where
    /// it gave one.
    Error(Option<i32>),
}

/// When a step applies, judged by the outcome of the step performed before it.
#[derive(Clone, Copy, Debug, PartialEq, Eq, Structural)]
pub enum Condition {
    Always,
    /// Only after a success.
    IfSucceeded,
    /// Only after anything but a success.
    IfFailed,
}

/// How the outcome of a step is judged.
#[derive(Clone, Copy, Debug, PartialEq, Eq, Structural)]
pub enum Policy {
    /// Whatever happens, go on in silence.
    Ignore,
    /// Go on; anything but a success deserves a warning.
    Warn,
    /// Anything but a success ends the run, with the exit code of the program
    /// or the error number of the host, or -1 where there is neither.
    Fatal,
    /// The program must be started: an error of the host ends the run with
    /// the host's error number (or -1); a program that ran, with whatever
    /// status, lets it go on.
    Started,
    /// Anything but a success ends the run with exit code 1.
    Crash,
}

/// What kind of failure a step stands for when the run ends at it.
#[derive(Clone, Copy, Debug, PartialEq, Eq, Structural)]
pub enum Failure {
    /// A program or a file operation failed.
    CommandFailed,
    /// The device to work on is not there.
    DeviceNotFound,
    /// The name of a filesystem is not known.
    UnknownFilesystem,
    /// The flag of the boot partition could not be set.
    BootFlagFailed,
    /// What was asked for cannot be done as it was asked.
    Rejected,
}

/// What follows from one outcome.
#[derive(Clone, Copy, Debug, PartialEq, Eq, Structural)]
pub enum Verdict {
    Proceed,
    Warn,
    /// The run ends with this exit code.
    Abort(i32),
}

/// One step of a script.
#[derive(Debug, Clone, PartialEq, Eq)]
pub struct Step {
    pub when: Condition,
    pub action: Action,
    pub policy: Policy,
    /// What the step is for, in words: the log line on success, the message
    /// on failure.
    pub description: String,
    /// What it means when the run ends at this step.
    pub failure: Failure,
}

/// Mathematical model of a [`Step`].
#[verifier::ext_equal]
pub struct StepView {
    pub when: Condition,
    pub action: ActionView,
    pub policy: Policy,
    pub description: Seq<char>,
    pub failure: Failure,
}

impl DeepView for Step {
    type V = StepView;

    open spec fn deep_view(&self) -> StepView {
        StepView {
            when: self.when,
            action: self.action@,
            policy: self.policy,
            description: self.description@,
            failure: self.failure,
        }
    }
}

impl View for Step {
    type V = StepView;

    open spec fn view(&self) -> StepView {
        self.deep_view()
    }
}

/// What the caller is to do next.
#[derive(Clone, Copy, Debug, PartialEq, Eq, Structural)]
pub enum Directive {
    /// Perform the action of the step with this index, then report its outcome.
    Perform(usize),
    /// End the run: the step with this index failed it, with this exit code.
    Abort { step: usize, code: i32 },
    /// The script has been worked through.
    Finished,
}

/// The step that runs `program` with `args`.
pub open spec fn run_step(
    program: Seq<char>,
    args: Seq<Seq<char>>,
    policy: Policy,
    description: Seq<char>,
) -> StepView {
    StepView {
        when: Condition::Always,
        action: ActionView::Run(InvocationView { program, args }),
        policy,
        description,
        failure: Failure::CommandFailed,
    }
}

/// The unconditional step that performs `action`.
pub open spec fn plain_step(action: ActionView, policy: Policy, description: Seq<char>) -> StepView {
    StepView { when: Condition::Always, action, policy, description, failure: Failure::CommandFailed }
}

/// The step that only warns the operator of `message`.
pub open spec fn warning(message: Seq<char>) -> StepView {
    plain_step(ActionView::Warn, Policy::Ignore, message)
}

/// The step at which the run ends with `message` and exit code 1, as a
/// failure of kind `failure`.
pub open spec fn stop(message: Seq<char>, failure: Failure) -> StepView {
    failing(plain_step(ActionView::Stop, Policy::Crash, message), failure)
}

/// The same step, standing for a failure of kind `failure`.
pub open spec fn failing(step: StepView, failure: Failure) -> StepView {
    StepView { failure, ..step }
}

/// The same step, applying only under `when`.
pub open spec fn conditional(step: StepView, when: Condition) -> StepView {
    StepView { when, ..step }
}

/// What follows when a step judged by `policy` has ended in `outcome`.
pub open spec fn verdict_of(policy: Policy, outcome: Outcome) -> Verdict {
    match policy {
        Policy::Ignore => Verdict::Proceed,
        Policy::Warn => if outcome is Success {
            Verdict::Proceed
        } else {
            Verdict::Warn
        },
        Policy::Fatal => match outcome {
            Outcome::Success => Verdict::Proceed,
            Outcome::Failure(Some(code)) => Verdict::Abort(code),
            Outcome::Error(Some(code)) => Verdict::Abort(code),
            _ => Verdict::Abort(-1i32),
        },
        Policy::Started => match outcome {
            Outcome::Error(Some(code)) => Verdict::Abort(code),
            Outcome::Error(None) => Verdict::Abort(-1i32),
            _ => Verdict::Proceed,
        },
        Policy::Crash => if outcome is Success {
            Verdict::Proceed
        } else {
            Verdict::Abort(1)
        },
    }
}

/// Whether a step with condition `when` applies after a step that succeeded
/// (`last_ok`) or did not.
pub open spec fn applies(when: Condition, last_ok: bool) -> bool {
    match when {
        Condition::Always => true,
        Condition::IfSucceeded => last_ok,
        Condition::IfFailed => !last_ok,
    }
}

/// Index of the first step at or after `from` that applies; the length of the
/// script when there is none.
pub open spec fn next_applicable(script: Seq<StepView>, from: int, last_ok: bool) -> int
    decreases script.len() - from,
{
    if from < 0 || from >= script.len() {
        script.len() as int
    } else if applies(script[from].when, last_ok) {
        from
    } else {
        next_applicable(script, from + 1, last_ok)
    }
}

/// What to do when the script is to go on at or after `from`.
pub open spec fn directive_from(script: Seq<StepView>, from: int, last_ok: bool) -> Directive {
    let i = next_applicable(script, from, last_ok);
    if i >= script.len() {
        Directive::Finished
    } else if script[i].action is Stop {
        Directive::Abort { step: i as usize, code: 1 }
    } else {
        Directive::Perform(i as usize)
    }
}

/// What to do first. Nothing has failed before the first step.
pub open spec fn start_of(script: Seq<StepView>) -> Directive {
    directive_from(script, 0, true)
}

/// What to do after step `step` has ended in `outcome`.
pub open spec fn resume_of(script: Seq<StepView>, step: int, outcome: Outcome) -> Directive {
    match verdict_of(script[step].policy, outcome) {
        Verdict::Abort(code) => Directive::Abort { step: step as usize, code },
        _ => directive_from(script, step + 1, outcome is Success),
    }
}

impl Invocation {
    /// The invocation of `program` with `args`.
    pub fn new(program: &str, args: Vec<String>) -> (r: Invocation)
        ensures
            r@ == (InvocationView { program: program@, args: args.deep_view() }),
    {
        Invocation { program: String::from_str(program), args }
    }
}

impl Step {
    /// The unconditional step that performs `action`.
    pub fn new(action: Action, policy: Policy, description: String) -> (r: Step)
        ensures
            r@ == plain_step(action@, policy, description@),
    {
        Step { when: Condition::Always, action, policy, description, failure: Failure::CommandFailed }
    }

    /// The unconditional step that runs `program` with `args`.
    pub fn run(program: &str, args: Vec<String>, policy: Policy, description: String) -> (r: Step)
        ensures
            r@ == run_step(program@, args.deep_view(), policy, description@),
    {
        Step {
            when: Condition::Always,
            action: Action::Run(Invocation::new(program, args)),
            policy,
            description,
            failure: Failure::CommandFailed,
        }
    }

    /// The unconditional step that runs `invocation` and lets only a failure
    /// to start it end the run.
    pub fn started(invocation: Invocation, description: &str) -> (r: Step)
        ensures
            r@ == plain_step(ActionView::Run(invocation@), Policy::Started, description@),
    {
        Step {
            when: Condition::Always,
            action: Action::Run(invocation),
            policy: Policy::Started,
            description: String::from_str(description),
            failure: Failure::CommandFailed,
        }
    }

    /// The unconditional step that performs the file operation `action` and
    /// lets its failure end the run.
    pub fn file(action: Action, description: &str) -> (r: Step)
        ensures
            r@ == plain_step(action@, Policy::Fatal, description@),
    {
        Step {
            when: Condition::Always,
            action,
            policy: Policy::Fatal,
            description: String::from_str(description),
            failure: Failure::CommandFailed,
        }
    }

    /// The step that only warns the operator of `message`.
    pub fn warning(message: String) -> (r: Step)
        ensures
            r@ == warning(message@),
    {
        Step {
            when: Condition::Always,
            action: Action::Warn,
            policy: Policy::Ignore,
            description: message,
            failure: Failure::CommandFailed,
        }
    }

    /// The step at which the run ends with `message` and exit code 1, as a
    /// failure of kind `failure`.
    pub fn stop(message: String, failure: Failure) -> (r: Step)
        ensures
            r@ == stop(message@, failure),
    {
        Step {
            when: Condition::Always,
            action: Action::Stop,
            policy: Policy::Crash,
            description: message,
            failure,
        }
    }

    /// The same step, standing for a failure of kind `failure`.
    pub fn failing(self, failure: Failure) -> (r: Step)
        ensures
            r@ == failing(self@, failure),
    {
        Step {
            when: self.when,
            action: self.action,
            policy: self.policy,
            description: self.description,
            failure,
        }
    }

    /// The same step, applying only under `when`.
    pub fn only(self, when: Condition) -> (r: Step)
        ensures
            r@ == conditional(self@, when),
    {
        Step {
            when,
            action: self.action,
            policy: self.policy,
            description: self.description,
            failure: self.failure,
        }
    }

    /// What follows when this step has ended in `outcome`.
    pub fn verdict(&self, outcome: Outcome) -> (v: Verdict)
        ensures
            v == verdict_of(self.policy, outcome),
    {
        judge(self.policy, outcome)
    }
}

/// What follows when a step judged by `policy` has ended in `outcome`.
pub fn judge(policy: Policy, outcome: Outcome) -> (v: Verdict)
    ensures
        v == verdict_of(policy, outcome),
{
    match policy {
        Policy::Ignore => Verdict::Proceed,
        Policy::Warn => match outcome {
            Outcome::Success => Verdict::Proceed,
            _ => Verdict::Warn,
        },
        Policy::Fatal => match outcome {
            Outcome::Success => Verdict::Proceed,
            Outcome::Failure(Some(code)) => Verdict::Abort(code),
            Outcome::Error(Some(code)) => Verdict::Abort(code),
            _ => Verdict::Abort(-1),
        },
        Policy::Started => match outcome {
            Outcome::Error(Some(code)) => Verdict::Abort(code),
            Outcome::Error(None) => Verdict::Abort(-1),
            _ => Verdict::Proceed,
        },
        Policy::Crash => match outcome {
            Outcome::Success => Verdict::Proceed,
            _ => Verdict::Abort(1),
        },
    }
}

/// Whether a step under `when` applies after a success (`last_ok`) or not.
fn condition_holds(when: Condition, last_ok: bool) -> (r: bool)
    ensures
        r == applies(when, last_ok),
{
    match when {
        Condition::Always => true,
        Condition::IfSucceeded => last_ok,
        Condition::IfFailed => !last_ok,
    }
}

/// What to do when the script is to go on at or after `from`.
fn direct(script: &Vec<Step>, from: usize, last_ok: bool) -> (d: Directive)
    requires
        from <= script.len(),
    ensures
        d == directive_from(script.deep_view(), from as int, last_ok),
{
    let mut i: usize = from;
    while i < script.len() && !condition_holds(script[i].when, last_ok)
        invariant
            from <= i <= script.len(),
            next_applicable(script.deep_view(), from as int, last_ok) == next_applicable(
                script.deep_view(),
                i as int,
                last_ok,
            ),
        decreases script.len() - i,
    {
        i = i + 1;
    }
    if i >= script.len() {
        Directive::Finished
    } else {
        match script[i].action {
            Action::Stop => Directive::Abort { step: i, code: 1 },
            _ => Directive::Perform(i),
        }
    }
}

/// What the caller is to do first.
pub fn start(script: &Vec<Step>) -> (d: Directive)
    ensures
        d == start_of(script.deep_view()),
{
    direct(script, 0, true)
}

/// What the caller is to do after it performed step `step` and saw `outcome`.
///
/// An index beyond the script ends the run: there is nothing left to do.
pub fn resume(script: &Vec<Step>, step: usize, outcome: Outcome) -> (d: Directive)
    ensures
        step < script.len() ==> d == resume_of(script.deep_view(), step as int, outcome),
        step >= script.len() ==> d is Finished,
{
    if step >= script.len() {
        return Directive::Finished;
    }
    match judge(script[step].policy, outcome) {
        Verdict::Abort(code) => Directive::Abort { step, code },
        _ => {
            let ok = match outcome {
                Outcome::Success => true,
                _ => false,
            };
            direct(script, step + 1, ok)
        },
    }
}

/// Adds `step` at the end of `script`.
pub fn push_step(script: &mut Vec<Step>, step: Step)
    ensures
        final(script).deep_view() == old(script).deep_view().push(step@),
{
    script.push(step);
    assert(script.deep_view() =~= old(script).deep_view().push(step@));
}

/// Adds the steps of `more` at the end of `script`.
pub fn extend(script: &mut Vec<Step>, more: Vec<Step>)
    ensures
        final(script).deep_view() == old(script).deep_view() + more.deep_view(),
{
    let ghost added = more.deep_view();
    let mut rest = more;
    script.append(&mut rest);
    assert(script.deep_view() =~= old(script).deep_view() + added);
}

/// A step that is performed lies after the one before it, applies, and is no
/// stop; every step between the two does not apply.
pub proof fn lemma_resume_moves_forward(script: Seq<StepView>, step: int, outcome: Outcome)
    requires
        0 <= step < script.len() <= usize::MAX,
    ensures
        match resume_of(script, step, outcome) {
            Directive::Perform(next) => {
                &&& step < next < script.len()
                &&& applies(script[next as int].when, outcome is Success)
                &&& !(script[next as int].action is Stop)
                &&& forall|k: int| step < k < next ==> !applies(#[trigger] script[k].when, outcome is Success)
            },
            Directive::Abort { step: at, code } => step <= at < script.len(),
            Directive::Finished => true,
        },
{
    lemma_next_applicable(script, step + 1, outcome is Success);
}

/// The next applicable step lies at or after `from`, applies, and nothing
/// between `from` and it does.
pub proof fn lemma_next_applicable(script: Seq<StepView>, from: int, last_ok: bool)
    requires
        0 <= from <= script.len(),
    ensures
        from <= next_applicable(script, from, last_ok) <= script.len(),
        next_applicable(script, from, last_ok) < script.len() ==> applies(
            script[next_applicable(script, from, last_ok)].when,
            last_ok,
        ),
        forall|k: int|
            from <= k < next_applicable(script, from, last_ok) ==> !applies(
                #[trigger] script[k].when,
                last_ok,
            ),
    decreases script.len() - from,
{
    if from < script.len() && !applies(script[from].when, last_ok) {
        lemma_next_applicable(script, from + 1, last_ok);
    }
}

/// A step judged by `Ignore` or `Warn` never ends the run.
pub proof fn lemma_lenient_policies_never_abort(policy: Policy, outcome: Outcome)
    requires
        policy is Ignore || policy is Warn,
    ensures
        !(verdict_of(policy, outcome) is Abort),
{
}

} // verus!
