//! The accounts of the new system.

use crate::script::{plain_step, push_step, ActionView, Invocation, Policy, Step, StepView};
use crate::text::{concat2, concat3, str_equal, trim, trimmed, views};
use crate::utils::exec::{chroot_step, exec, run_in_chroot, spec_exec};
use crate::utils::files::{append_file, create_directory, create_file, sed_file};
use crate::utils::install::{default_config, install, spec_install, InstallError, InstallErrorView};
use crate::utils::returncode_eval::HostError;
use vstd::prelude::*;
use vstd::string::*;

verus! {

/// The package of a shell: fish and zsh by their names, bash for every other.
pub open spec fn shell_package(shell: Seq<char>) -> Seq<char> {
    if shell == "fish"@ {
        "fish"@
    } else if shell == "zsh"@ {
        "zsh"@
    } else {
        "bash"@
    }
}

/// The program of a shell.
pub open spec fn shell_path(shell: Seq<char>) -> Seq<char> {
    if shell == "fish"@ {
        "/usr/bin/fish"@
    } else if shell == "zsh"@ {
        "/usr/bin/zsh"@
    } else {
        "/bin/bash"@
    }
}

/// The file in which the accounts service keeps what it knows of a user.
pub open spec fn account_file(username: Seq<char>) -> Seq<char> {
    "/mnt/var/lib/AccountsService/users/"@ + username
}

/// What makes a user an administrator: the group, the group's rights,
/// feedback at the password prompt, and the session in the accounts service.
pub open spec fn admin_steps(username: Seq<char>) -> Seq<StepView> {
    seq![
        chroot_step(
            "usermod"@,
            seq!["-aG"@, "wheel"@, username],
            "Add user "@ + username + " to wheel group"@,
        ),
        plain_step(
            ActionView::ReplaceInFile {
                path: "/mnt/etc/sudoers"@,
                find: "# %wheel ALL=(ALL:ALL) ALL"@,
                replace: "%wheel ALL=(ALL:ALL) ALL"@,
            },
            Policy::Fatal,
            "Add wheel group to sudoers"@,
        ),
        plain_step(
            ActionView::AppendFile { path: "/mnt/etc/sudoers"@, content: "\nDefaults pwfeedback\n"@ },
            Policy::Fatal,
            "Add pwfeedback to sudoers"@,
        ),
        plain_step(
            ActionView::CreateDirectory("/mnt/var/lib/AccountsService/users/"@),
            Policy::Fatal,
            "Create /mnt/var/lib/AccountsService"@,
        ),
        plain_step(
            ActionView::CreateFile(account_file(username)),
            Policy::Crash,
            "Create AccountsService user file for "@ + username,
        ),
        plain_step(
            ActionView::AppendFile {
                path: account_file(username),
                content: "[User]\nSession=plasma\n"@,
            },
            Policy::Fatal,
            "Populate AccountsService user file for "@ + username,
        ),
    ]
}

/// The shell is installed, the user is made with the password as it stands
/// without the white space around it; an administrator gets the rest.
pub open spec fn spec_new_user(
    username: Seq<char>,
    hasroot: bool,
    password: Seq<char>,
    shell: Seq<char>,
) -> Seq<StepView> {
    spec_install(seq![shell_package(shell)], default_config()) + seq![
        chroot_step(
            "useradd"@,
            seq!["-m"@, "-s"@, shell_path(shell), "-p"@, trim(password), username],
            "Create user "@ + username,
        ),
    ] + if hasroot {
        admin_steps(username)
    } else {
        Seq::empty()
    }
}

/// One shell line inside the new system gives root its password.
pub open spec fn spec_root_pass(root_pass: Seq<char>) -> Seq<StepView> {
    seq![
        chroot_step(
            "bash"@,
            seq!["-c"@, "'usermod --password "@ + root_pass + " root'"@],
            "set root password"@,
        ),
    ]
}

/// What a program left behind: whether it succeeded, what it printed if that
/// is text (else what is wrong with it), and what it complained of.
#[derive(Debug)]
pub struct ProgramOutput {
    pub success: bool,
    pub stdout: Result<String, String>,
    pub stderr: String,
}

/// The hash that the hashing program printed, or why there is none.
pub open spec fn spec_read_hash(output: Result<ProgramOutput, HostError>) -> Result<
    Seq<char>,
    InstallErrorView,
> {
    match output {
        Err(e) => Err(
            InstallErrorView::PasswordHashError("Failed to execute openssl: "@ + e.message@),
        ),
        Ok(out) => if !out.success {
            Err(InstallErrorView::PasswordHashError("OpenSSL failed: "@ + out.stderr@))
        } else {
            match out.stdout {
                Err(why) => Err(
                    InstallErrorView::PasswordHashError("Invalid UTF-8 in password hash: "@ + why@),
                ),
                Ok(text) => Ok(trim(text@)),
            }
        },
    }
}

/// Makes the user `username` with `password`, which goes to the system as it
/// stands, and with `shell`.
pub fn new_user(username: &str, hasroot: bool, password: &str, shell: &str) -> (plan: Vec<Step>)
    ensures
        plan.deep_view() == spec_new_user(username@, hasroot, password@, shell@),
{
    let shell_to_install = if str_equal(shell, "fish") {
        "fish"
    } else if str_equal(shell, "zsh") {
        "zsh"
    } else {
        "bash"
    };
    let package = [shell_to_install];
    assert(views(package@) =~= seq![shell_package(shell@)]);
    let mut plan = install(&package);
    let path = if str_equal(shell, "fish") {
        "/usr/bin/fish"
    } else if str_equal(shell, "zsh") {
        "/usr/bin/zsh"
    } else {
        "/bin/bash"
    };
    let final_password = trimmed(password);
    let add = ["-m", "-s", path, "-p", final_password.as_str(), username];
    assert(views(add@) =~= seq![
        "-m"@,
        "-s"@,
        shell_path(shell@),
        "-p"@,
        trim(password@),
        username@,
    ]);
    push_step(&mut plan, run_in_chroot("useradd", &add, concat2("Create user ", username).as_str()));
    if hasroot {
        let group = ["-aG", "wheel", username];
        assert(views(group@) =~= seq!["-aG"@, "wheel"@, username@]);
        push_step(
            &mut plan,
            run_in_chroot(
                "usermod",
                &group,
                concat3("Add user ", username, " to wheel group").as_str(),
            ),
        );
        push_step(
            &mut plan,
            Step::file(
                sed_file(
                    "/mnt/etc/sudoers",
                    "# %wheel ALL=(ALL:ALL) ALL",
                    "%wheel ALL=(ALL:ALL) ALL",
                ),
                "Add wheel group to sudoers",
            ),
        );
        push_step(
            &mut plan,
            Step::file(
                append_file("/mnt/etc/sudoers", "\nDefaults pwfeedback\n"),
                "Add pwfeedback to sudoers",
            ),
        );
        push_step(
            &mut plan,
            Step::file(
                create_directory("/mnt/var/lib/AccountsService/users/"),
                "Create /mnt/var/lib/AccountsService",
            ),
        );
        let file = concat2("/mnt/var/lib/AccountsService/users/", username);
        push_step(
            &mut plan,
            Step::new(
                create_file(file.as_str()),
                Policy::Crash,
                concat2("Create AccountsService user file for ", username),
            ),
        );
        push_step(
            &mut plan,
            Step::file(
                append_file(file.as_str(), "[User]\nSession=plasma\n"),
                concat2("Populate AccountsService user file for ", username).as_str(),
            ),
        );
    }
    assert(plan.deep_view() =~= spec_new_user(username@, hasroot, password@, shell@));
    plan
}

/// The program that hashes `password`, on the host. What it prints is read
/// by [`read_hash`].
pub fn hash_pass(password: &str) -> (r: Invocation)
    ensures
        r@ == spec_exec("openssl"@, seq!["passwd"@, "-1"@, password@]),
{
    let args = ["passwd", "-1", password];
    assert(views(args@) =~= seq!["passwd"@, "-1"@, password@]);
    exec("openssl", &args)
}

/// Reads the hash from what the hashing program left behind.
pub fn read_hash(output: &Result<ProgramOutput, HostError>) -> (r: Result<String, InstallError>)
    ensures
        r is Ok <==> spec_read_hash(*output) is Ok,
        r is Ok ==> r->Ok_0@ == spec_read_hash(*output)->Ok_0,
        r is Err ==> r->Err_0@ == spec_read_hash(*output)->Err_0,
{
    match output {
        Err(e) => Err(
            InstallError::PasswordHashError(
                concat2("Failed to execute openssl: ", e.message.as_str()),
            ),
        ),
        Ok(out) => {
            if !out.success {
                return Err(
                    InstallError::PasswordHashError(
                        concat2("OpenSSL failed: ", out.stderr.as_str()),
                    ),
                );
            }
            match &out.stdout {
                Err(why) => Err(
                    InstallError::PasswordHashError(
                        concat2("Invalid UTF-8 in password hash: ", why.as_str()),
                    ),
                ),
                Ok(text) => Ok(trimmed(text.as_str())),
            }
        },
    }
}

/// Sets the password of root, which goes to the system as it stands.
pub fn root_pass(password: &str) -> (plan: Vec<Step>)
    ensures
        plan.deep_view() == spec_root_pass(password@),
{
    let mut plan: Vec<Step> = Vec::new();
    let line = concat3("'usermod --password ", password, " root'");
    let args = ["-c", line.as_str()];
    assert(views(args@) =~= seq!["-c"@, "'usermod --password "@ + password@ + " root'"@]);
    push_step(&mut plan, run_in_chroot("bash", &args, "set root password"));
    assert(plan.deep_view() =~= spec_root_pass(password@));
    plan
}

} // verus!
