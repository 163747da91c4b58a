//! The file operations that scripts ask for.

use crate::script::{
    conditional, plain_step, push_step, Action, ActionView, Condition, Policy, Step, StepView,
};
use crate::text::{concat2, str_equal, trim_end, trimmed_end};
use crate::utils::pattern::{replace_pattern, replaced_by_pattern};
use vstd::prelude::*;
use vstd::string::*;

verus! {

/// The permission bits of a program that everyone may run.
pub open spec fn executable_mode() -> u32 {
    0o755u32
}

/// What is written when `content` is added to a file: a line break first if
/// the file holds something already, then the content without the white
/// space at its end, then a line break.
pub open spec fn spec_append_payload(file_is_empty: bool, content: Seq<char>) -> Seq<char> {
    if file_is_empty {
        trim_end(content) + "\n"@
    } else {
        "\n"@ + trim_end(content) + "\n"@
    }
}

/// Creates the empty file `path`, and the directories above it.
pub fn create_file(path: &str) -> (r: Action)
    ensures
        r@ == ActionView::CreateFile(path@),
{
    Action::CreateFile(String::from_str(path))
}

/// Creates the file `path` with `content` in it.
pub fn create_file_with_content(path: &str, content: &str) -> (r: Action)
    ensures
        r@ == (ActionView::WriteFile { path: path@, content: content@ }),
{
    Action::WriteFile { path: String::from_str(path), content: String::from_str(content) }
}

/// Copies the file `path` to `destpath`.
pub fn copy_file(path: &str, destpath: &str) -> (r: Action)
    ensures
        r@ == (ActionView::CopyFile { source: path@, destination: destpath@ }),
{
    Action::CopyFile { source: String::from_str(path), destination: String::from_str(destpath) }
}

/// Copies the file `path` to `destpath`; a failure ends the run with exit
/// code 1.
pub fn copy_file_or_crash(path: &str, destpath: &str) -> (r: Step)
    ensures
        r@ == plain_step(
            ActionView::CopyFile { source: path@, destination: destpath@ },
            Policy::Crash,
            "Copy "@ + path@ + " to "@ + destpath@,
        ),
{
    Step::new(
        copy_file(path, destpath),
        Policy::Crash,
        String::from_str("Copy ").concat(path).concat(" to ").concat(destpath),
    )
}

/// Adds `content` at the end of the file `path`.
pub fn append_file(path: &str, content: &str) -> (r: Action)
    ensures
        r@ == (ActionView::AppendFile { path: path@, content: content@ }),
{
    Action::AppendFile { path: String::from_str(path), content: String::from_str(content) }
}

/// The text that adding `content` to a file writes, given whether the file
/// is empty.
pub fn append_payload(file_is_empty: bool, content: &str) -> (r: String)
    ensures
        r@ == spec_append_payload(file_is_empty, content@),
{
    let body = trimmed_end(content);
    if file_is_empty {
        body.concat("\n")
    } else {
        String::from_str("\n").concat(body.as_str()).concat("\n")
    }
}

/// Replaces the content of the file `path` by `content`.
pub fn write_file(path: &str, content: &str) -> (r: Action)
    ensures
        r@ == (ActionView::WriteFile { path: path@, content: content@ }),
{
    Action::WriteFile { path: String::from_str(path), content: String::from_str(content) }
}

/// Replaces every `find` in the file `path` by `replace`.
pub fn sed_file(path: &str, find: &str, replace: &str) -> (r: Action)
    ensures
        r@ == (ActionView::ReplaceInFile { path: path@, find: find@, replace: replace@ }),
{
    Action::ReplaceInFile {
        path: String::from_str(path),
        find: String::from_str(find),
        replace: String::from_str(replace),
    }
}

/// Creates the directory `path` and its parents.
pub fn create_directory(path: &str) -> (r: Action)
    ensures
        r@ == ActionView::CreateDirectory(path@),
{
    Action::CreateDirectory(String::from_str(path))
}

/// Asks whether `path` exists.
pub fn path_exists(path: &str) -> (r: Action)
    ensures
        r@ == ActionView::CheckPath(path@),
{
    Action::CheckPath(String::from_str(path))
}

/// Asks whether `path` is a directory.
pub fn is_directory(path: &str) -> (r: Action)
    ensures
        r@ == ActionView::CheckDirectory(path@),
{
    Action::CheckDirectory(String::from_str(path))
}

/// Asks whether `path` is a regular file.
pub fn is_file(path: &str) -> (r: Action)
    ensures
        r@ == ActionView::CheckFile(path@),
{
    Action::CheckFile(String::from_str(path))
}

/// Copies the directory `source`, with everything below it, to `destination`.
pub fn copy_dir(source: &str, destination: &str) -> (r: Action)
    ensures
        r@ == (ActionView::CopyDirectory { source: source@, destination: destination@ }),
{
    Action::CopyDirectory {
        source: String::from_str(source),
        destination: String::from_str(destination),
    }
}

/// Removes the file or directory `path`.
pub fn remove(path: &str) -> (r: Action)
    ensures
        r@ == ActionView::Remove(path@),
{
    Action::Remove(String::from_str(path))
}

/// Sets the permission bits of `path` to `mode`.
pub fn set_permissions(path: &str, mode: u32) -> (r: Action)
    ensures
        r@ == (ActionView::SetPermissions { path: path@, mode }),
{
    Action::SetPermissions { path: String::from_str(path), mode }
}

/// Lets everyone run the file `path`.
pub fn make_executable(path: &str) -> (r: Action)
    ensures
        r@ == (ActionView::SetPermissions { path: path@, mode: executable_mode() }),
{
    set_permissions(path, 0o755)
}

/// A path that is there must be a directory; one that is not is made a
/// directory, with its parents or without.
pub open spec fn spec_ensure_directory(path: Seq<char>, create_parents: bool) -> Seq<StepView> {
    seq![
        plain_step(ActionView::CheckPath(path), Policy::Ignore, "look for "@ + path),
        conditional(
            plain_step(
                ActionView::CheckDirectory(path),
                Policy::Crash,
                path + " exists but is not a directory"@,
            ),
            Condition::IfSucceeded,
        ),
        conditional(
            plain_step(
                if create_parents {
                    ActionView::CreateDirectory(path)
                } else {
                    ActionView::MakeDirectory(path)
                },
                Policy::Crash,
                "Failed to create directory "@ + path,
            ),
            Condition::IfFailed,
        ),
    ]
}

/// Makes sure that `path` is a directory. A path that is something else
/// ends the run, and so does a directory that cannot be made.
pub fn ensure_directory(path: &str, create_parents: bool) -> (plan: Vec<Step>)
    ensures
        plan.deep_view() == spec_ensure_directory(path@, create_parents),
{
    let mut plan: Vec<Step> = Vec::new();
    push_step(&mut plan, Step::new(path_exists(path), Policy::Ignore, concat2("look for ", path)));
    push_step(
        &mut plan,
        Step::new(
            is_directory(path),
            Policy::Crash,
            concat2(path, " exists but is not a directory"),
        ).only(Condition::IfSucceeded),
    );
    let make = if create_parents {
        create_directory(path)
    } else {
        Action::MakeDirectory(String::from_str(path))
    };
    push_step(
        &mut plan,
        Step::new(make, Policy::Crash, concat2("Failed to create directory ", path)).only(
            Condition::IfFailed,
        ),
    );
    assert(plan.deep_view() =~= spec_ensure_directory(path@, create_parents));
    plan
}

/// Why a file was not rewritten by a pattern.
#[derive(Debug, Clone, Copy, PartialEq, Eq, Structural)]
pub enum SedError {
    /// The pattern is no regular expression.
    InvalidPattern,
}

/// What is to be written after a replacement gave `new_contents`: the new
/// contents, or nothing if they are the old ones.
pub open spec fn spec_changed_contents(contents: Seq<char>, new_contents: Seq<char>) -> Option<
    Seq<char>,
> {
    if new_contents == contents {
        None
    } else {
        Some(new_contents)
    }
}

/// What is to be written after a replacement gave `new_contents` for a file
/// that held `contents`: nothing if nothing changed.
pub fn changed_contents(contents: &str, new_contents: String) -> (r: Option<String>)
    ensures
        r is Some <==> spec_changed_contents(contents@, new_contents@) is Some,
        r is Some ==> r->0@ == new_contents@,
{
    if str_equal(new_contents.as_str(), contents) {
        None
    } else {
        Some(new_contents)
    }
}

/// Replaces every match of `pattern` in `contents` by `replace`. Gives what
/// is to be written back: nothing if nothing changed.
pub fn sed_file_regex(contents: &str, pattern: &str, replace: &str) -> (r: Result<
    Option<String>,
    SedError,
>)
    ensures
        r is Err <==> replaced_by_pattern(pattern@, contents@, replace@) is None,
        r is Ok ==> (r->Ok_0 is Some <==> spec_changed_contents(
            contents@,
            replaced_by_pattern(pattern@, contents@, replace@)->0,
        ) is Some),
        r is Ok && r->Ok_0 is Some ==> Some(r->Ok_0->0@) == replaced_by_pattern(
            pattern@,
            contents@,
            replace@,
        ),
{
    match replace_pattern(pattern, contents, replace) {
        Err(_) => Err(SedError::InvalidPattern),
        Ok(new_contents) => Ok(changed_contents(contents, new_contents)),
    }
}

} // verus!
