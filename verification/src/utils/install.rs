//! Package installation: which program installs what, and what its failure
//! means.

use crate::script::{
    plain_step, push_step, stop, Action, ActionView, Failure, Policy, Progress, ProgressKind,
    Step, StepView,
};
use crate::text::{
    chars_contain_str, chars_find, concat2, contains, find, first_word, first_word_bounds,
    join, join_all, lowercase, lowercase_of, parse_u64, parsed_u64, signed_decimal,
    signed_decimal_string, str_contains, strings, substring, to_chars, views,
};
use crate::utils::pattern::{first_group, first_group_of};
use crate::utils::returncode_eval::HostError;
use crate::utils::exec::{exec, exec_chroot, spec_exec, spec_exec_chroot};
use vstd::prelude::*;
use vstd::string::*;

verus! {

/// Why packages could not be installed.
#[derive(Debug, Clone, PartialEq, Eq)]
pub enum InstallError {
    PackageNotFound(String),
    DependencyConflict(String),
    NetworkError(String),
    DiskSpaceError,
    PermissionError,
    DatabaseError(String),
    ValidationError(String),
    IoError(String),
    UnknownError(i32, String),
    PasswordHashError(String),
}

/// Mathematical model of an [`InstallError`].
#[verifier::ext_equal]
pub enum InstallErrorView {
    PackageNotFound(Seq<char>),
    DependencyConflict(Seq<char>),
    NetworkError(Seq<char>),
    DiskSpaceError,
    PermissionError,
    DatabaseError(Seq<char>),
    ValidationError(Seq<char>),
    IoError(Seq<char>),
    UnknownError(i32, Seq<char>),
    PasswordHashError(Seq<char>),
}

impl DeepView for InstallError {
    type V = InstallErrorView;

    open spec fn deep_view(&self) -> InstallErrorView {
        match *self {
            InstallError::PackageNotFound(s) => InstallErrorView::PackageNotFound(s@),
            InstallError::DependencyConflict(s) => InstallErrorView::DependencyConflict(s@),
            InstallError::NetworkError(s) => InstallErrorView::NetworkError(s@),
            InstallError::DiskSpaceError => InstallErrorView::DiskSpaceError,
            InstallError::PermissionError => InstallErrorView::PermissionError,
            InstallError::DatabaseError(s) => InstallErrorView::DatabaseError(s@),
            InstallError::ValidationError(s) => InstallErrorView::ValidationError(s@),
            InstallError::IoError(s) => InstallErrorView::IoError(s@),
            InstallError::UnknownError(code, s) => InstallErrorView::UnknownError(code, s@),
            InstallError::PasswordHashError(s) => InstallErrorView::PasswordHashError(s@),
        }
    }
}

impl View for InstallError {
    type V = InstallErrorView;

    open spec fn view(&self) -> InstallErrorView {
        self.deep_view()
    }
}

/// The advice that goes with each kind of error.
pub open spec fn spec_suggest_solution(error: InstallErrorView) -> Seq<char> {
    match error {
        InstallErrorView::PackageNotFound(pkg) => "Try:\n1. Check package name spelling: pacman -Ss "@
            + pkg + "\n2. Update databases: pacman -Sy\n3. Check if it's an AUR package"@,
        InstallErrorView::DependencyConflict(_) => "Try:\n1. Update system first: pacman -Syu\n2. Remove conflicting packages manually\n3. Use --overwrite flag if safe"@,
        InstallErrorView::NetworkError(_) => "Try:\n1. Check internet connection\n2. Change mirror: reflector --latest 5 --sort rate --save /etc/pacman.d/mirrorlist\n3. Wait and retry later"@,
        InstallErrorView::DiskSpaceError => "Try:\n1. Free up disk space: pacman -Sc\n2. Check available space: df -h\n3. Clean package cache"@,
        InstallErrorView::PermissionError => "Try:\n1. Check if running as root\n2. Verify mount points are correct\n3. Check filesystem permissions"@,
        InstallErrorView::DatabaseError(_) => "Try:\n1. Refresh databases: pacman -Sy\n2. Update keyring: pacman -S archlinux-keyring\n3. Clear cache: pacman -Sc"@,
        InstallErrorView::ValidationError(_) => "Fix the package name validation issues and try again."@,
        InstallErrorView::IoError(_) => "Check file permissions, disk space, and system resources."@,
        InstallErrorView::UnknownError(_, _) => "Check the log file for detailed error information and try installing packages individually."@,
        InstallErrorView::PasswordHashError(_) => "Check that openssl is installed and try again."@,
    }
}

/// What to try after `error`.
pub fn suggest_solution(error: &InstallError) -> (r: String)
    ensures
        r@ == spec_suggest_solution(error@),
{
    match error {
        InstallError::PackageNotFound(pkg) => String::from_str(
            "Try:\n1. Check package name spelling: pacman -Ss ",
        ).concat(pkg.as_str()).concat(
            "\n2. Update databases: pacman -Sy\n3. Check if it's an AUR package",
        ),
        InstallError::DependencyConflict(_) => String::from_str(
            "Try:\n1. Update system first: pacman -Syu\n2. Remove conflicting packages manually\n3. Use --overwrite flag if safe",
        ),
        InstallError::NetworkError(_) => String::from_str(
            "Try:\n1. Check internet connection\n2. Change mirror: reflector --latest 5 --sort rate --save /etc/pacman.d/mirrorlist\n3. Wait and retry later",
        ),
        InstallError::DiskSpaceError => String::from_str(
            "Try:\n1. Free up disk space: pacman -Sc\n2. Check available space: df -h\n3. Clean package cache",
        ),
        InstallError::PermissionError => String::from_str(
            "Try:\n1. Check if running as root\n2. Verify mount points are correct\n3. Check filesystem permissions",
        ),
        InstallError::DatabaseError(_) => String::from_str(
            "Try:\n1. Refresh databases: pacman -Sy\n2. Update keyring: pacman -S archlinux-keyring\n3. Clear cache: pacman -Sc",
        ),
        InstallError::ValidationError(_) => String::from_str(
            "Fix the package name validation issues and try again.",
        ),
        InstallError::IoError(_) => String::from_str(
            "Check file permissions, disk space, and system resources.",
        ),
        InstallError::UnknownError(_, _) => String::from_str(
            "Check the log file for detailed error information and try installing packages individually.",
        ),
        InstallError::PasswordHashError(_) => String::from_str(
            "Check that openssl is installed and try again.",
        ),
    }
}

/// What is shown and kept while packages are installed.
#[derive(Clone, Copy, Debug, PartialEq, Eq, Structural)]
pub struct ProgressConfig {
    pub show_eta: bool,
    pub detailed_logging: bool,
}

/// Everything is shown and everything is kept.
pub open spec fn default_config() -> ProgressConfig {
    ProgressConfig { show_eta: true, detailed_logging: true }
}

impl Default for ProgressConfig {
    fn default() -> (r: Self)
        ensures
            r == default_config(),
    {
        Self { show_eta: true, detailed_logging: true }
    }
}

/// A package name is not empty, holds no space and does not look like an option.
pub open spec fn valid_package_name(pkg: Seq<char>) -> bool {
    pkg.len() > 0 && !pkg.contains(' ') && pkg[0] != '-'
}

/// Every name of `pkgs` is a valid package name.
pub open spec fn all_valid(pkgs: Seq<Seq<char>>) -> bool {
    forall|i: int| 0 <= i < pkgs.len() ==> valid_package_name(#[trigger] pkgs[i])
}

/// `i` is the index of the first name of `pkgs` that is no package name.
pub open spec fn first_invalid_at(pkgs: Seq<Seq<char>>, i: int) -> bool {
    &&& 0 <= i < pkgs.len()
    &&& !valid_package_name(pkgs[i])
    &&& forall|k: int| 0 <= k < i ==> valid_package_name(#[trigger] pkgs[k])
}

/// The first name of `pkgs` that is no package name.
pub open spec fn first_invalid(pkgs: Seq<Seq<char>>) -> Seq<char>
    recommends
        !all_valid(pkgs),
{
    pkgs[choose|i: int| first_invalid_at(pkgs, i)]
}

/// What a refused name is answered with.
pub open spec fn validation_message(pkg: Seq<char>) -> Seq<char> {
    "Invalid package name: "@ + pkg
}

/// Whether `pkg` can be a package name.
pub fn is_valid_package_name(pkg: &str) -> (r: bool)
    ensures
        r == valid_package_name(pkg@),
{
    let chars = to_chars(pkg);
    if chars.len() == 0 || chars[0] == '-' {
        return false;
    }
    let mut i: usize = 0;
    while i < chars.len()
        invariant
            i <= chars.len(),
            chars@ == pkg@,
            forall|k: int| 0 <= k < i ==> chars[k] != ' ',
        decreases chars.len() - i,
    {
        if chars[i] == ' ' {
            assert(chars@.contains(chars@[i as int]));
            return false;
        }
        i = i + 1;
    }
    true
}

/// Index of the first name of `pkgs` that is no package name.
fn find_invalid(pkgs: &[&str]) -> (r: Option<usize>)
    ensures
        r is None <==> all_valid(views(pkgs@)),
        r is Some ==> first_invalid_at(views(pkgs@), r->0 as int) && first_invalid(views(pkgs@))
            == pkgs[r->0 as int]@,
{
    let mut i: usize = 0;
    while i < pkgs.len()
        invariant
            i <= pkgs.len(),
            forall|k: int| 0 <= k < i ==> valid_package_name(#[trigger] views(pkgs@)[k]),
        decreases pkgs.len() - i,
    {
        if !is_valid_package_name(pkgs[i]) {
            assert(first_invalid_at(views(pkgs@), i as int));
            let ghost chosen = choose|j: int| first_invalid_at(views(pkgs@), j);
            assert(chosen == i);
            return Some(i);
        }
        i = i + 1;
    }
    None
}

/// Checks that every name can be a package name; the first that cannot is
/// named in the error.
pub fn validate_packages(pkgs: &[&str]) -> (r: Result<(), InstallError>)
    ensures
        r is Ok <==> all_valid(views(pkgs@)),
        r is Err ==> r->Err_0@ == InstallErrorView::ValidationError(
            validation_message(first_invalid(views(pkgs@))),
        ),
{
    match find_invalid(pkgs) {
        Some(i) => Err(
            InstallError::ValidationError(concat2("Invalid package name: ", pkgs[i])),
        ),
        None => Ok(()),
    }
}

/// The step that ends the run over the first invalid name of `pkgs`.
pub open spec fn refusal(pkgs: Seq<Seq<char>>) -> StepView {
    stop("Validation error: "@ + validation_message(first_invalid(pkgs)), Failure::Rejected)
}

/// A step that installs: the program runs under a progress display, its
/// output goes to `log_path`, and anything but a success ends the run.
pub open spec fn logged_step(
    invocation: crate::script::InvocationView,
    log_path: Seq<char>,
    progress: Progress,
    description: Seq<char>,
) -> StepView {
    plain_step(ActionView::RunLogged { invocation, log_path, progress }, Policy::Crash, description)
}

/// The progress display of an installation under `config`.
pub open spec fn progress_of(kind: ProgressKind, config: ProgressConfig) -> Progress {
    Progress { kind, show_eta: config.show_eta, keep_output: config.detailed_logging }
}

/// Nothing for no packages; a stop for an invalid name; else one run of the
/// bootstrap tool on the staging root.
pub open spec fn spec_install_base(pkgs: Seq<Seq<char>>, config: ProgressConfig) -> Seq<StepView> {
    if pkgs.len() == 0 {
        Seq::empty()
    } else if !all_valid(pkgs) {
        seq![refusal(pkgs)]
    } else {
        seq![
            logged_step(
                spec_exec("pacstrap"@, seq!["/mnt"@] + pkgs),
                "/tmp/crystallize-pacstrap.log"@,
                progress_of(ProgressKind::Standard, config),
                "Install base packages "@ + join(pkgs, ", "@),
            ),
        ]
    }
}

/// Nothing for no packages; a stop for an invalid name; else one run of the
/// package manager inside the new system.
pub open spec fn spec_install(pkgs: Seq<Seq<char>>, config: ProgressConfig) -> Seq<StepView> {
    if pkgs.len() == 0 {
        Seq::empty()
    } else if !all_valid(pkgs) {
        seq![refusal(pkgs)]
    } else {
        seq![
            logged_step(
                spec_exec_chroot("pacman"@, seq!["-S"@, "--noconfirm"@, "--needed"@] + pkgs),
                "/tmp/crystallize-install.log"@,
                progress_of(ProgressKind::Standard, config),
                "Install packages "@ + join(pkgs, ", "@),
            ),
        ]
    }
}

/// Nothing for no packages; a stop for an invalid name or a missing helper;
/// else one run of the helper inside the new system.
pub open spec fn spec_install_aur(
    pkgs: Seq<Seq<char>>,
    config: ProgressConfig,
    helper: Option<Seq<char>>,
) -> Seq<StepView> {
    if pkgs.len() == 0 {
        Seq::empty()
    } else if !all_valid(pkgs) {
        seq![refusal(pkgs)]
    } else {
        match helper {
            None => seq![stop("Package not found: No AUR helper found"@, Failure::Rejected)],
            Some(name) => seq![
                logged_step(
                    spec_exec_chroot(name, seq!["-S"@, "--noconfirm"@] + pkgs),
                    "/tmp/crystallize-aur.log"@,
                    progress_of(ProgressKind::Aur, config),
                    "Install AUR packages "@ + join(pkgs, ", "@) + " with "@ + name,
                ),
            ],
        }
    }
}

/// One refresh of the package databases inside the new system.
pub open spec fn spec_update_databases() -> Seq<StepView> {
    seq![
        logged_step(
            spec_exec_chroot("pacman"@, seq!["-Sy"@, "--noconfirm"@]),
            "/tmp/crystallize-update.log"@,
            Progress { kind: ProgressKind::Simple, show_eta: false, keep_output: true },
            "Update package databases"@,
        ),
    ]
}

/// One upgrade of all packages inside the new system.
pub open spec fn spec_upgrade_system(config: ProgressConfig) -> Seq<StepView> {
    seq![
        logged_step(
            spec_exec_chroot("pacman"@, seq!["-Syu"@, "--noconfirm"@]),
            "/tmp/crystallize-upgrade.log"@,
            progress_of(ProgressKind::Standard, config),
            "Upgrade system packages"@,
        ),
    ]
}

/// The three kinds of packages, one after the other.
pub open spec fn spec_install_multiple_categories(
    base_pkgs: Seq<Seq<char>>,
    regular_pkgs: Seq<Seq<char>>,
    aur_pkgs: Seq<Seq<char>>,
    config: ProgressConfig,
    helper: Option<Seq<char>>,
) -> Seq<StepView> {
    spec_install_base(base_pkgs, config) + spec_install(regular_pkgs, config) + spec_install_aur(
        aur_pkgs,
        config,
        helper,
    )
}

/// The programs that can install from the user repository, best first.
pub open spec fn aur_helpers() -> Seq<Seq<char>> {
    seq!["prism"@, "paru"@, "yay"@, "trizen"@]
}

/// The helper to use: the first that was found.
pub open spec fn spec_find_aur_helper(found: Seq<bool>) -> Option<Seq<char>> {
    if found.len() > 0 && found[0] {
        Some("prism"@)
    } else if found.len() > 1 && found[1] {
        Some("paru"@)
    } else if found.len() > 2 && found[2] {
        Some("yay"@)
    } else if found.len() > 3 && found[3] {
        Some("trizen"@)
    } else {
        None
    }
}

/// The names among `pkgs` whose query did not say "installed".
pub open spec fn spec_check_installed(pkgs: Seq<Seq<char>>, installed: Seq<bool>) -> Seq<Seq<char>>
    decreases pkgs.len(),
{
    if pkgs.len() == 0 {
        Seq::empty()
    } else {
        let front = spec_check_installed(pkgs.drop_last(), installed);
        let i = pkgs.len() - 1;
        if i < installed.len() && installed[i] {
            front
        } else {
            front.push(pkgs.last())
        }
    }
}

/// The stop step for the first invalid name of `pkgs`.
fn refuse(pkgs: &[&str], at: usize) -> (r: Step)
    requires
        first_invalid_at(views(pkgs@), at as int),
        first_invalid(views(pkgs@)) == pkgs[at as int]@,
    ensures
        r@ == refusal(views(pkgs@)),
{
    let message = String::from_str("Validation error: ").concat("Invalid package name: ").concat(
        pkgs[at],
    );
    assert(message@ =~= "Validation error: "@ + validation_message(pkgs[at as int]@));
    Step::stop(message, Failure::Rejected)
}

/// `a` followed by `b`, as a list of string slices.
fn chain<'a>(a: &[&'a str], b: &[&'a str]) -> (r: Vec<&'a str>)
    ensures
        views(r@) == views(a@) + views(b@),
{
    let mut r: Vec<&'a str> = Vec::new();
    let mut i: usize = 0;
    while i < a.len()
        invariant
            i <= a.len(),
            r.len() == i,
            forall|k: int| 0 <= k < i ==> r[k]@ == a[k]@,
        decreases a.len() - i,
    {
        r.push(a[i]);
        i = i + 1;
    }
    let mut j: usize = 0;
    while j < b.len()
        invariant
            j <= b.len(),
            r.len() == a.len() + j,
            forall|k: int| 0 <= k < a.len() ==> r[k]@ == a[k]@,
            forall|k: int| 0 <= k < j ==> r[a.len() + k]@ == b[k]@,
        decreases b.len() - j,
    {
        r.push(b[j]);
        j = j + 1;
    }
    assert(views(r@) =~= views(a@) + views(b@));
    r
}

/// The names `pkgs`, separated by a comma and a space.
fn listed(pkgs: &[&str]) -> (r: String)
    ensures
        r@ == join(views(pkgs@), ", "@),
{
    let owned = strings(pkgs);
    join_all(&owned, ", ")
}

/// The progress display of an installation under `config`.
fn progress(kind: ProgressKind, config: &ProgressConfig) -> (r: Progress)
    ensures
        r == progress_of(kind, *config),
{
    Progress { kind, show_eta: config.show_eta, keep_output: config.detailed_logging }
}

/// Installs `pkgs` into the staging root with the bootstrap tool.
pub fn install_base(pkgs: &[&str]) -> (plan: Vec<Step>)
    ensures
        plan.deep_view() == spec_install_base(views(pkgs@), default_config()),
{
    install_base_with_config(pkgs, &ProgressConfig::default())
}

/// Installs `pkgs` into the staging root, showing progress as `config` says.
pub fn install_base_with_config(pkgs: &[&str], config: &ProgressConfig) -> (plan: Vec<Step>)
    ensures
        plan.deep_view() == spec_install_base(views(pkgs@), *config),
{
    let mut plan: Vec<Step> = Vec::new();
    if pkgs.len() == 0 {
        assert(plan.deep_view() =~= spec_install_base(views(pkgs@), *config));
        return plan;
    }
    match find_invalid(pkgs) {
        Some(at) => {
            push_step(&mut plan, refuse(pkgs, at));
        },
        None => {
            let root = ["/mnt"];
            assert(views(root@) =~= seq!["/mnt"@]);
            let args = chain(&root, pkgs);
            let step = Step::new(
                Action::RunLogged {
                    invocation: exec("pacstrap", args.as_slice()),
                    log_path: String::from_str("/tmp/crystallize-pacstrap.log"),
                    progress: progress(ProgressKind::Standard, config),
                },
                Policy::Crash,
                concat2("Install base packages ", listed(pkgs).as_str()),
            );
            push_step(&mut plan, step);
        },
    }
    assert(plan.deep_view() =~= spec_install_base(views(pkgs@), *config));
    plan
}

/// Installs `pkgs` inside the new system.
pub fn install(pkgs: &[&str]) -> (plan: Vec<Step>)
    ensures
        plan.deep_view() == spec_install(views(pkgs@), default_config()),
{
    install_with_config(pkgs, &ProgressConfig::default())
}

/// Installs `pkgs` inside the new system, showing progress as `config` says.
pub fn install_with_config(pkgs: &[&str], config: &ProgressConfig) -> (plan: Vec<Step>)
    ensures
        plan.deep_view() == spec_install(views(pkgs@), *config),
{
    let mut plan: Vec<Step> = Vec::new();
    if pkgs.len() == 0 {
        assert(plan.deep_view() =~= spec_install(views(pkgs@), *config));
        return plan;
    }
    match find_invalid(pkgs) {
        Some(at) => {
            push_step(&mut plan, refuse(pkgs, at));
        },
        None => {
            let options = ["-S", "--noconfirm", "--needed"];
            assert(views(options@) =~= seq!["-S"@, "--noconfirm"@, "--needed"@]);
            let args = chain(&options, pkgs);
            let step = Step::new(
                Action::RunLogged {
                    invocation: exec_chroot("pacman", args.as_slice()),
                    log_path: String::from_str("/tmp/crystallize-install.log"),
                    progress: progress(ProgressKind::Standard, config),
                },
                Policy::Crash,
                concat2("Install packages ", listed(pkgs).as_str()),
            );
            push_step(&mut plan, step);
        },
    }
    assert(plan.deep_view() =~= spec_install(views(pkgs@), *config));
    plan
}

/// The name of the helper with this place in the list of helpers.
fn helper_name(i: usize) -> (r: &'static str)
    requires
        i < 4,
    ensures
        r@ == aur_helpers()[i as int],
{
    if i == 0 {
        "prism"
    } else if i == 1 {
        "paru"
    } else if i == 2 {
        "yay"
    } else {
        "trizen"
    }
}

/// The question whether the helper with this place in the list is there: it
/// is exactly when this invocation succeeds.
pub fn aur_helper_probe(i: usize) -> (r: crate::script::Invocation)
    requires
        i < 4,
    ensures
        r@ == spec_exec_chroot("which"@, seq![aur_helpers()[i as int]]),
{
    let name = [helper_name(i)];
    assert(views(name@) =~= seq![aur_helpers()[i as int]]);
    exec_chroot("which", &name)
}

/// Picks the helper to install from the user repository with. `found` holds,
/// for the helpers in the order of their list, whether each was found; what
/// was not asked counts as not found.
pub fn find_aur_helper(found: &[bool]) -> (r: Result<String, InstallError>)
    ensures
        r is Ok <==> spec_find_aur_helper(found@) is Some,
        r is Ok ==> Some(r->Ok_0@) == spec_find_aur_helper(found@),
        r is Err ==> r->Err_0@ == InstallErrorView::PackageNotFound("No AUR helper found"@),
{
    let mut i: usize = 0;
    while i < 4
        invariant
            i <= 4,
            forall|k: int| 0 <= k < i ==> !(k < found.len() && found[k]),
        decreases 4 - i,
    {
        if i < found.len() && found[i] {
            return Ok(String::from_str(helper_name(i)));
        }
        i = i + 1;
    }
    Err(InstallError::PackageNotFound(String::from_str("No AUR helper found")))
}

/// Installs `pkgs` from the user repository with `helper`.
pub fn install_aur(pkgs: &[&str], helper: Option<&str>) -> (plan: Vec<Step>)
    ensures
        plan.deep_view() == spec_install_aur(
            views(pkgs@),
            default_config(),
            match helper {
                Some(name) => Some(name@),
                None => None,
            },
        ),
{
    install_aur_with_config(pkgs, &ProgressConfig::default(), helper)
}

/// Installs `pkgs` from the user repository with `helper`, showing progress
/// as `config` says.
pub fn install_aur_with_config(
    pkgs: &[&str],
    config: &ProgressConfig,
    helper: Option<&str>,
) -> (plan: Vec<Step>)
    ensures
        plan.deep_view() == spec_install_aur(
            views(pkgs@),
            *config,
            match helper {
                Some(name) => Some(name@),
                None => None,
            },
        ),
{
    let ghost wanted = spec_install_aur(
        views(pkgs@),
        *config,
        match helper {
            Some(name) => Some(name@),
            None => None,
        },
    );
    let mut plan: Vec<Step> = Vec::new();
    if pkgs.len() == 0 {
        assert(plan.deep_view() =~= wanted);
        return plan;
    }
    match find_invalid(pkgs) {
        Some(at) => {
            push_step(&mut plan, refuse(pkgs, at));
        },
        None => {
            match helper {
                None => {
                    push_step(
                        &mut plan,
                        Step::stop(
                            String::from_str("Package not found: No AUR helper found"),
                            Failure::Rejected,
                        ),
                    );
                },
                Some(name) => {
                    let options = ["-S", "--noconfirm"];
                    assert(views(options@) =~= seq!["-S"@, "--noconfirm"@]);
                    let args = chain(&options, pkgs);
                    let description = String::from_str("Install AUR packages ").concat(
                        listed(pkgs).as_str(),
                    ).concat(" with ").concat(name);
                    let step = Step::new(
                        Action::RunLogged {
                            invocation: exec_chroot(name, args.as_slice()),
                            log_path: String::from_str("/tmp/crystallize-aur.log"),
                            progress: progress(ProgressKind::Aur, config),
                        },
                        Policy::Crash,
                        description,
                    );
                    push_step(&mut plan, step);
                },
            }
        },
    }
    assert(plan.deep_view() =~= wanted);
    plan
}

/// Refreshes the package databases.
pub fn update_databases() -> (plan: Vec<Step>)
    ensures
        plan.deep_view() == spec_update_databases(),
{
    update_databases_with_config(&ProgressConfig::default())
}

/// Refreshes the package databases. The display is a plain spinner and the
/// output is always kept, whatever `config` says.
pub fn update_databases_with_config(config: &ProgressConfig) -> (plan: Vec<Step>)
    ensures
        plan.deep_view() == spec_update_databases(),
{
    let mut plan: Vec<Step> = Vec::new();
    let args = ["-Sy", "--noconfirm"];
    assert(views(args@) =~= seq!["-Sy"@, "--noconfirm"@]);
    let step = Step::new(
        Action::RunLogged {
            invocation: exec_chroot("pacman", &args),
            log_path: String::from_str("/tmp/crystallize-update.log"),
            progress: Progress { kind: ProgressKind::Simple, show_eta: false, keep_output: true },
        },
        Policy::Crash,
        String::from_str("Update package databases"),
    );
    push_step(&mut plan, step);
    assert(plan.deep_view() =~= spec_update_databases());
    plan
}

/// Upgrades every package of the new system.
pub fn upgrade_system() -> (plan: Vec<Step>)
    ensures
        plan.deep_view() == spec_upgrade_system(default_config()),
{
    upgrade_system_with_config(&ProgressConfig::default())
}

/// Upgrades every package of the new system, showing progress as `config` says.
pub fn upgrade_system_with_config(config: &ProgressConfig) -> (plan: Vec<Step>)
    ensures
        plan.deep_view() == spec_upgrade_system(*config),
{
    let mut plan: Vec<Step> = Vec::new();
    let args = ["-Syu", "--noconfirm"];
    assert(views(args@) =~= seq!["-Syu"@, "--noconfirm"@]);
    let step = Step::new(
        Action::RunLogged {
            invocation: exec_chroot("pacman", &args),
            log_path: String::from_str("/tmp/crystallize-upgrade.log"),
            progress: progress(ProgressKind::Standard, config),
        },
        Policy::Crash,
        String::from_str("Upgrade system packages"),
    );
    push_step(&mut plan, step);
    assert(plan.deep_view() =~= spec_upgrade_system(*config));
    plan
}

/// Installs base packages, regular packages and packages of the user
/// repository, in this order; a kind without packages is passed over.
pub fn install_multiple_categories(
    base_pkgs: &[&str],
    regular_pkgs: &[&str],
    aur_pkgs: &[&str],
    config: &ProgressConfig,
    helper: Option<&str>,
) -> (plan: Vec<Step>)
    ensures
        plan.deep_view() == spec_install_multiple_categories(
            views(base_pkgs@),
            views(regular_pkgs@),
            views(aur_pkgs@),
            *config,
            match helper {
                Some(name) => Some(name@),
                None => None,
            },
        ),
{
    let mut plan = install_base_with_config(base_pkgs, config);
    crate::script::extend(&mut plan, install_with_config(regular_pkgs, config));
    crate::script::extend(&mut plan, install_aur_with_config(aur_pkgs, config, helper));
    plan
}

/// The question whether `pkg` is installed in the new system: it is exactly
/// when this invocation succeeds.
pub fn installed_probe(pkg: &str) -> (r: crate::script::Invocation)
    ensures
        r@ == spec_exec_chroot("pacman"@, seq!["-Q"@, pkg@]),
{
    let args = ["-Q", pkg];
    assert(views(args@) =~= seq!["-Q"@, pkg@]);
    exec_chroot("pacman", &args)
}

/// The packages among `pkgs` that are not installed. `installed` holds, for
/// each package in order, whether its query succeeded; a query that was not
/// made counts as failed.
pub fn check_installed(pkgs: &[&str], installed: &[bool]) -> (r: Result<Vec<String>, InstallError>)
    ensures
        r is Ok,
        r->Ok_0.deep_view() == spec_check_installed(views(pkgs@), installed@),
{
    let mut not_installed: Vec<String> = Vec::new();
    let mut i: usize = 0;
    assert(views(pkgs@).take(0) =~= Seq::<Seq<char>>::empty());
    while i < pkgs.len()
        invariant
            i <= pkgs.len(),
            not_installed.deep_view() == spec_check_installed(views(pkgs@).take(i as int), installed@),
        decreases pkgs.len() - i,
    {
        let ghost before = not_installed.deep_view();
        assert(views(pkgs@).take(i + 1).drop_last() =~= views(pkgs@).take(i as int));
        assert(views(pkgs@).take(i + 1).last() == pkgs[i as int]@);
        if !(i < installed.len() && installed[i]) {
            not_installed.push(String::from_str(pkgs[i]));
            assert(not_installed.deep_view() =~= before.push(pkgs[i as int]@));
        }
        i = i + 1;
    }
    assert(views(pkgs@).take(i as int) =~= views(pkgs@));
    Ok(not_installed)
}

/// What the operator is told of each kind of error.
pub open spec fn spec_message(error: InstallErrorView) -> Seq<char> {
    match error {
        InstallErrorView::PackageNotFound(pkg) => "Package not found: "@ + pkg,
        InstallErrorView::DependencyConflict(msg) => "Dependency conflict: "@ + msg,
        InstallErrorView::NetworkError(msg) => "Network error: "@ + msg,
        InstallErrorView::DiskSpaceError => "Insufficient disk space"@,
        InstallErrorView::PermissionError => "Permission denied"@,
        InstallErrorView::DatabaseError(msg) => "Database error: "@ + msg,
        InstallErrorView::ValidationError(msg) => "Validation error: "@ + msg,
        InstallErrorView::IoError(msg) => "I/O error: "@ + msg,
        InstallErrorView::UnknownError(code, msg) => "Unknown error (exit code "@ + signed_decimal(
            code as int,
        ) + "): "@ + msg,
        InstallErrorView::PasswordHashError(msg) => "Password hash error: "@ + msg,
    }
}

impl InstallError {
    /// What the operator is told of this error.
    pub fn message(&self) -> (r: String)
        ensures
            r@ == spec_message(self@),
    {
        match self {
            InstallError::PackageNotFound(pkg) => concat2("Package not found: ", pkg.as_str()),
            InstallError::DependencyConflict(msg) => concat2("Dependency conflict: ", msg.as_str()),
            InstallError::NetworkError(msg) => concat2("Network error: ", msg.as_str()),
            InstallError::DiskSpaceError => String::from_str("Insufficient disk space"),
            InstallError::PermissionError => String::from_str("Permission denied"),
            InstallError::DatabaseError(msg) => concat2("Database error: ", msg.as_str()),
            InstallError::ValidationError(msg) => concat2("Validation error: ", msg.as_str()),
            InstallError::IoError(msg) => concat2("I/O error: ", msg.as_str()),
            InstallError::UnknownError(code, msg) => String::from_str(
                "Unknown error (exit code ",
            ).concat(signed_decimal_string(*code).as_str()).concat("): ").concat(msg.as_str()),
            InstallError::PasswordHashError(msg) => concat2("Password hash error: ", msg.as_str()),
        }
    }

    /// An error of the host, as an installation error.
    pub fn from_host(error: &HostError) -> (r: InstallError)
        ensures
            r@ == InstallErrorView::IoError(error.message@),
    {
        InstallError::IoError(error.message.clone())
    }
}

/// The package that the output misses: the word behind the first
/// `target not found: `, `unknown` if no word follows, `unknown package` if
/// no line says so.
pub open spec fn missing_package(output: Seq<Seq<char>>) -> Seq<char>
    decreases output.len(),
{
    if output.len() == 0 {
        "unknown package"@
    } else {
        let at = find(output[0], "target not found: "@);
        if at >= 0 {
            match first_word(output[0].skip(at + 18)) {
                Some(word) => word,
                None => "unknown"@,
            }
        } else {
            missing_package(output.drop_first())
        }
    }
}

/// The first line of the output that speaks of a conflict.
pub open spec fn conflict_line(output: Seq<Seq<char>>) -> Seq<char>
    decreases output.len(),
{
    if output.len() == 0 {
        "Unknown dependency conflict"@
    } else if contains(output[0], "conflict"@) {
        output[0]
    } else {
        conflict_line(output.drop_first())
    }
}

/// What is said of a failure that the output does not explain.
pub open spec fn unexplained(exit_code: i32, log_path: Seq<char>) -> InstallErrorView {
    InstallErrorView::UnknownError(
        exit_code,
        "Command failed with exit code "@ + signed_decimal(exit_code as int) + ". Check log at "@
            + log_path,
    )
}

/// The kind of error that lower-case output speaks of. The lines are read
/// as one text, with a space between each two; the first of these that
/// applies decides: a missing package, a conflict, a full disk, missing
/// rights, the network, a corrupt database, invalid signatures.
pub open spec fn spec_classify_output(
    exit_code: i32,
    output: Seq<Seq<char>>,
    log_path: Seq<char>,
) -> InstallErrorView {
    let text = join(output, " "@);
    if contains(text, "target not found"@) || contains(text, "package not found"@) {
        InstallErrorView::PackageNotFound(missing_package(output))
    } else if contains(text, "conflicting dependencies"@) || contains(text, "dependency cycle"@)
        || contains(text, "conflicts with"@) {
        InstallErrorView::DependencyConflict(conflict_line(output))
    } else if contains(text, "no space left"@) || contains(text, "disk full"@) || contains(
        text,
        "insufficient space"@,
    ) {
        InstallErrorView::DiskSpaceError
    } else if contains(text, "permission denied"@) || contains(text, "operation not permitted"@) {
        InstallErrorView::PermissionError
    } else if contains(text, "failed retrieving file"@) || contains(text, "connection timed out"@)
        || contains(text, "temporary failure in name resolution"@) || contains(
        text,
        "could not resolve host"@,
    ) {
        InstallErrorView::NetworkError("Failed to download packages. Check network connection."@)
    } else if contains(text, "database"@) && contains(text, "corrupt"@) {
        InstallErrorView::DatabaseError(
            "Package database is corrupted. Run pacman -Sy to refresh."@,
        )
    } else if contains(text, "signature"@) && contains(text, "invalid"@) {
        InstallErrorView::DatabaseError(
            "Invalid package signatures. Update keyring or refresh databases."@,
        )
    } else {
        unexplained(exit_code, log_path)
    }
}

/// The lines of `output`, each in lower case.
pub open spec fn lowered_lines(output: Seq<Seq<char>>) -> Seq<Seq<char>> {
    Seq::new(output.len(), |i: int| lowercase_of(output[i]))
}

/// The error for a failed installation whose log could be read (`Some`, with
/// its lines) or not (`None`).
pub open spec fn spec_parse_error_from_output(
    exit_code: i32,
    log: Option<Seq<Seq<char>>>,
    log_path: Seq<char>,
) -> InstallErrorView {
    match log {
        Some(output) => spec_classify_output(exit_code, lowered_lines(output), log_path),
        None => unexplained(exit_code, log_path),
    }
}

/// The name of the package that the output misses.
fn find_missing_package(output: &Vec<String>) -> (r: String)
    ensures
        r@ == missing_package(output.deep_view()),
{
    let marker = to_chars("target not found: ");
    proof {
        reveal_strlit("target not found: ");
    }
    let mut i: usize = 0;
    assert(output.deep_view().skip(0) =~= output.deep_view());
    while i < output.len()
        invariant
            i <= output.len(),
            marker@ == "target not found: "@,
            marker@.len() == 18,
            missing_package(output.deep_view()) == missing_package(
                output.deep_view().skip(i as int),
            ),
        decreases output.len() - i,
    {
        let ghost rest = output.deep_view().skip(i as int);
        assert(rest[0] == output[i as int]@);
        let line = to_chars(output[i].as_str());
        match chars_find(&line, &marker) {
            Some(at) => {
                assert(at + 18 <= line.len()) by {
                    assert(crate::text::find_from(line@, marker@, 0) == at);
                    lemma_find_within(line@, marker@, 0);
                }
                return match first_word_bounds(&line, at + 18) {
                    Some((from, to)) => substring(output[i].as_str(), from, to),
                    None => String::from_str("unknown"),
                };
            },
            None => {},
        }
        assert(rest.drop_first() =~= output.deep_view().skip(i + 1));
        i = i + 1;
    }
    String::from_str("unknown package")
}

/// Where a pattern is found, it fits into the text.
pub proof fn lemma_find_within(text: Seq<char>, pat: Seq<char>, from: int)
    requires
        0 <= from,
    ensures
        crate::text::find_from(text, pat, from) >= 0 ==> from <= crate::text::find_from(
            text,
            pat,
            from,
        ) && crate::text::find_from(text, pat, from) + pat.len() <= text.len(),
    decreases text.len() - from,
{
    if from + pat.len() <= text.len() && !crate::text::occurs_at(text, pat, from) && from
        < text.len() {
        lemma_find_within(text, pat, from + 1);
    }
}

/// The first line that speaks of a conflict.
fn find_conflict_line(output: &Vec<String>) -> (r: String)
    ensures
        r@ == conflict_line(output.deep_view()),
{
    let mut i: usize = 0;
    assert(output.deep_view().skip(0) =~= output.deep_view());
    while i < output.len()
        invariant
            i <= output.len(),
            conflict_line(output.deep_view()) == conflict_line(output.deep_view().skip(i as int)),
        decreases output.len() - i,
    {
        let ghost rest = output.deep_view().skip(i as int);
        assert(rest[0] == output[i as int]@);
        if str_contains(output[i].as_str(), "conflict") {
            return output[i].clone();
        }
        assert(rest.drop_first() =~= output.deep_view().skip(i + 1));
        i = i + 1;
    }
    String::from_str("Unknown dependency conflict")
}

/// The error for a failure that the output does not explain.
fn unexplained_error(exit_code: i32, log_path: &str) -> (r: InstallError)
    ensures
        r@ == unexplained(exit_code, log_path@),
{
    InstallError::UnknownError(
        exit_code,
        String::from_str("Command failed with exit code ").concat(
            signed_decimal_string(exit_code).as_str(),
        ).concat(". Check log at ").concat(log_path),
    )
}

/// Finds the kind of error in the output of a failed installation. The lines
/// of `output` are taken as they are: they are expected in lower case.
pub fn classify_output(exit_code: i32, output: &Vec<String>, log_path: &str) -> (r: InstallError)
    ensures
        r@ == spec_classify_output(exit_code, output.deep_view(), log_path@),
{
    let text = to_chars(join_all(output, " ").as_str());
    if chars_contain_str(&text, "target not found") || chars_contain_str(
        &text,
        "package not found",
    ) {
        return InstallError::PackageNotFound(find_missing_package(output));
    }
    if chars_contain_str(&text, "conflicting dependencies") || chars_contain_str(
        &text,
        "dependency cycle",
    ) || chars_contain_str(&text, "conflicts with") {
        return InstallError::DependencyConflict(find_conflict_line(output));
    }
    if chars_contain_str(&text, "no space left") || chars_contain_str(&text, "disk full")
        || chars_contain_str(&text, "insufficient space") {
        return InstallError::DiskSpaceError;
    }
    if chars_contain_str(&text, "permission denied") || chars_contain_str(
        &text,
        "operation not permitted",
    ) {
        return InstallError::PermissionError;
    }
    if chars_contain_str(&text, "failed retrieving file") || chars_contain_str(
        &text,
        "connection timed out",
    ) || chars_contain_str(&text, "temporary failure in name resolution") || chars_contain_str(
        &text,
        "could not resolve host",
    ) {
        return InstallError::NetworkError(
            String::from_str("Failed to download packages. Check network connection."),
        );
    }
    if chars_contain_str(&text, "database") && chars_contain_str(&text, "corrupt") {
        return InstallError::DatabaseError(
            String::from_str("Package database is corrupted. Run pacman -Sy to refresh."),
        );
    }
    if chars_contain_str(&text, "signature") && chars_contain_str(&text, "invalid") {
        return InstallError::DatabaseError(
            String::from_str("Invalid package signatures. Update keyring or refresh databases."),
        );
    }
    unexplained_error(exit_code, log_path)
}

/// Finds the kind of error behind a failed installation. `log` holds the
/// lines of the log file, or nothing if the file could not be opened.
pub fn parse_error_from_output(exit_code: i32, log: Option<&Vec<String>>, log_path: &str) -> (r:
    InstallError)
    ensures
        r@ == spec_parse_error_from_output(
            exit_code,
            match log {
                Some(output) => Some(output.deep_view()),
                None => None,
            },
            log_path@,
        ),
{
    match log {
        None => unexplained_error(exit_code, log_path),
        Some(output) => {
            let mut lowered: Vec<String> = Vec::new();
            let mut i: usize = 0;
            while i < output.len()
                invariant
                    i <= output.len(),
                    lowered.len() == i,
                    forall|k: int| 0 <= k < i ==> (#[trigger] lowered[k])@ == lowercase_of(output[k]@),
                decreases output.len() - i,
            {
                lowered.push(lowercase(output[i].as_str()));
                i = i + 1;
            }
            assert(lowered.deep_view() =~= lowered_lines(output.deep_view()));
            classify_output(exit_code, &lowered, log_path)
        },
    }
}

/// What one line of an installer's output tells of its progress.
#[derive(Clone, Copy, Debug, PartialEq, Eq, Structural)]
pub struct LineProgress {
    /// The number of packages in all, where the line announces it.
    pub total: Option<u64>,
    /// The line reports a download.
    pub downloaded: bool,
    /// The line reports a build.
    pub built: bool,
    /// The line reports an installation.
    pub installed: bool,
}

/// The pattern of a line that announces the number of packages.
pub open spec fn total_pattern() -> Seq<char> {
    "packages?\\s*\\((\\d+)\\)"@
}

/// What a lower-case line tells, given the number that it announces.
pub open spec fn spec_read_progress(line: Seq<char>, announced: Option<Seq<char>>) -> LineProgress {
    LineProgress {
        total: match announced {
            Some(number) => parsed_u64(number),
            None => None,
        },
        downloaded: contains(line, "downloading"@) || contains(line, "retrieving"@) || contains(
            line,
            "fetching"@,
        ) || contains(line, "cloning"@),
        built: contains(line, "building"@) || contains(line, "making"@) || contains(
            line,
            "compiling"@,
        ),
        installed: contains(line, "installing"@) || contains(line, "upgrading"@),
    }
}

/// What one line of output tells: the line is put in lower case, the number
/// of packages is looked for by its pattern, and the rest is read off.
pub open spec fn spec_process_package_line(line: Seq<char>) -> LineProgress {
    spec_read_progress(lowercase_of(line), first_group_of(total_pattern(), lowercase_of(line)))
}

/// Reads the progress off a lower-case line. `announced` is the number of
/// packages as the line gives it, if it gives one.
pub fn read_progress(line: &str, announced: Option<&str>) -> (r: LineProgress)
    ensures
        r == spec_read_progress(
            line@,
            match announced {
                Some(number) => Some(number@),
                None => None,
            },
        ),
{
    let chars = to_chars(line);
    LineProgress {
        total: match announced {
            Some(number) => parse_u64(number),
            None => None,
        },
        downloaded: chars_contain_str(&chars, "downloading") || chars_contain_str(
            &chars,
            "retrieving",
        ) || chars_contain_str(&chars, "fetching") || chars_contain_str(&chars, "cloning"),
        built: chars_contain_str(&chars, "building") || chars_contain_str(&chars, "making")
            || chars_contain_str(&chars, "compiling"),
        installed: chars_contain_str(&chars, "installing") || chars_contain_str(
            &chars,
            "upgrading",
        ),
    }
}

/// Reads the progress off one line of an installer's output.
pub fn process_package_line(line: &str) -> (r: LineProgress)
    ensures
        r == spec_process_package_line(line@),
{
    let line_lower = lowercase(line);
    let announced = first_group("packages?\\s*\\((\\d+)\\)", line_lower.as_str());
    match &announced {
        Some(number) => read_progress(line_lower.as_str(), Some(number.as_str())),
        None => read_progress(line_lower.as_str(), None),
    }
}

/// Valid names are installed: at least one name, all of them valid, gives
/// exactly the one step that installs them, in chroot or on the staging
/// root, and no refusal.
pub proof fn lemma_valid_names_are_installed(pkgs: Seq<Seq<char>>, config: ProgressConfig)
    requires
        pkgs.len() > 0,
        all_valid(pkgs),
    ensures
        spec_install(pkgs, config).len() == 1,
        spec_install(pkgs, config)[0].action is RunLogged,
        spec_install(pkgs, config)[0].policy is Crash,
        spec_install_base(pkgs, config).len() == 1,
        spec_install_base(pkgs, config)[0].action is RunLogged,
{
}

/// Names of which one is invalid are not installed: the one step is the stop
/// that names the first invalid one.
pub proof fn lemma_invalid_names_are_refused(pkgs: Seq<Seq<char>>, config: ProgressConfig, i: int)
    requires
        first_invalid_at(pkgs, i),
    ensures
        spec_install(pkgs, config) == seq![refusal(pkgs)],
        spec_install_base(pkgs, config) == seq![refusal(pkgs)],
        first_invalid(pkgs) == pkgs[i],
{
    let chosen = choose|j: int| first_invalid_at(pkgs, j);
    assert(chosen == i);
}

} // verus!
