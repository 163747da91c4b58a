//! How programs are started, on the host and inside the new system.

use crate::script::{plain_step, ActionView, Invocation, InvocationView, Policy, Step, StepView};
use crate::text::{join, join_all, strings, views};
use vstd::prelude::*;
use vstd::string::*;

verus! {

/// A program started on the host.
pub open spec fn spec_exec(command: Seq<char>, args: Seq<Seq<char>>) -> InvocationView {
    InvocationView { program: command, args }
}

/// The command and its arguments as one line for a shell.
pub open spec fn command_line(command: Seq<char>, args: Seq<Seq<char>>) -> Seq<char> {
    if args.len() == 0 {
        command
    } else {
        command + " "@ + join(args, " "@)
    }
}

/// A program started inside the new system: a shell under the staging root
/// is handed the command line.
pub open spec fn spec_exec_chroot(command: Seq<char>, args: Seq<Seq<char>>) -> InvocationView {
    InvocationView {
        program: "arch-chroot"@,
        args: seq!["/mnt"@, "bash"@, "-c"@, command_line(command, args)],
    }
}

/// `command` with `args`, on the host.
pub fn exec(command: &str, args: &[&str]) -> (r: Invocation)
    ensures
        r@ == spec_exec(command@, views(args@)),
{
    Invocation::new(command, strings(args))
}

/// `command` with `args`, inside the new system.
pub fn exec_chroot(command: &str, args: &[&str]) -> (r: Invocation)
    ensures
        r@ == spec_exec_chroot(command@, views(args@)),
{
    let full_command = if args.len() == 0 {
        String::from_str(command)
    } else {
        let words = strings(args);
        let rest = join_all(&words, " ");
        String::from_str(command).concat(" ").concat(rest.as_str())
    };
    let shell = strings(&["/mnt", "bash", "-c", full_command.as_str()]);
    assert(shell.deep_view() =~= seq!["/mnt"@, "bash"@, "-c"@, command_line(command@, views(args@))]);
    Invocation::new("arch-chroot", shell)
}

/// `command` with `args`, inside the new system, for a caller that wants
/// what the program prints.
pub fn exec_chroot_with_output(command: &str, args: &[&str]) -> (r: Invocation)
    ensures
        r@ == spec_exec_chroot(command@, views(args@)),
{
    exec_chroot(command, args)
}

/// The step that must be able to start `command` on the host.
pub open spec fn host_step(command: Seq<char>, args: Seq<Seq<char>>, description: Seq<char>) -> StepView {
    plain_step(ActionView::Run(spec_exec(command, args)), Policy::Started, description)
}

/// The step that must be able to start `command` inside the new system.
pub open spec fn chroot_step(command: Seq<char>, args: Seq<Seq<char>>, description: Seq<char>) -> StepView {
    plain_step(ActionView::Run(spec_exec_chroot(command, args)), Policy::Started, description)
}

/// Runs `command` on the host; a failure to start it ends the run.
pub fn run_on_host(command: &str, args: &[&str], description: &str) -> (r: Step)
    ensures
        r@ == host_step(command@, views(args@), description@),
{
    Step::started(exec(command, args), description)
}

/// Runs `command` inside the new system; a failure to start it ends the run.
pub fn run_in_chroot(command: &str, args: &[&str], description: &str) -> (r: Step)
    ensures
        r@ == chroot_step(command@, views(args@), description@),
{
    Step::started(exec_chroot(command, args), description)
}

} // verus!
