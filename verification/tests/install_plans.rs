use crystallize_core::script::{
    Action, Condition, Failure, Invocation, Policy, Progress, ProgressKind, Step,
};
use crystallize_core::utils::exec::{exec, exec_chroot, exec_chroot_with_output};
use crystallize_core::utils::install::{
    aur_helper_probe, check_installed, classify_output, find_aur_helper, install, install_aur,
    install_aur_with_config, install_base, install_base_with_config, install_multiple_categories,
    install_with_config, installed_probe, is_valid_package_name, parse_error_from_output,
    process_package_line, read_progress, suggest_solution, update_databases,
    update_databases_with_config, upgrade_system, upgrade_system_with_config, validate_packages,
    InstallError, LineProgress, ProgressConfig,
};
use crystallize_core::utils::progress::{
    bar_template, finish_message, shows_bar, spinner_template, Bar,
};
use crystallize_core::utils::returncode_eval::HostError;

fn chroot(line: &str) -> Invocation {
    Invocation {
        program: "arch-chroot".to_string(),
        args: vec!["/mnt".into(), "bash".into(), "-c".into(), line.to_string()],
    }
}

fn logged(invocation: Invocation, log: &str, progress: Progress, description: &str) -> Step {
    Step {
        when: Condition::Always,
        action: Action::RunLogged { invocation, log_path: log.to_string(), progress },
        policy: Policy::Crash,
        description: description.to_string(),
        failure: Failure::CommandFailed,
    }
}

fn standard() -> Progress {
    Progress { kind: ProgressKind::Standard, show_eta: true, keep_output: true }
}

fn stop(description: &str) -> Step {
    Step {
        when: Condition::Always,
        action: Action::Stop,
        policy: Policy::Crash,
        description: description.to_string(),
        failure: Failure::Rejected,
    }
}

#[test]
fn invocations_on_host_and_in_chroot() {
    assert_eq!(
        exec("parted", &["-s", "/dev/sda"]),
        Invocation { program: "parted".into(), args: vec!["-s".into(), "/dev/sda".into()] }
    );
    assert_eq!(exec_chroot("locale-gen", &[]), chroot("locale-gen"));
    assert_eq!(
        exec_chroot("systemctl", &["enable", "sddm"]),
        chroot("systemctl enable sddm")
    );
    assert_eq!(exec_chroot_with_output("which", &["paru"]), chroot("which paru"));
}

#[test]
fn package_names_are_validated() {
    assert!(is_valid_package_name("linux-zen"));
    assert!(is_valid_package_name("prismlinux/grub"));
    assert!(!is_valid_package_name(""));
    assert!(!is_valid_package_name("two words"));
    assert!(!is_valid_package_name("-Syu"));
    assert_eq!(validate_packages(&["a", "b"]), Ok(()));
    assert_eq!(validate_packages(&[]), Ok(()));
    assert_eq!(
        validate_packages(&["a", "b c", "-d"]),
        Err(InstallError::ValidationError("Invalid package name: b c".into()))
    );
    assert_eq!(
        validate_packages(&["", "x y"]),
        Err(InstallError::ValidationError("Invalid package name: ".into()))
    );
}

#[test]
fn install_runs_pacman_in_chroot() {
    assert!(install(&[]).is_empty());
    assert_eq!(
        install(&["nix", "flatpak"]),
        vec![logged(
            chroot("pacman -S --noconfirm --needed nix flatpak"),
            "/tmp/crystallize-install.log",
            standard(),
            "Install packages nix, flatpak"
        )]
    );
    assert_eq!(
        install(&["nix", "bad name"]),
        vec![stop("Validation error: Invalid package name: bad name")]
    );
    let quiet = ProgressConfig { show_eta: false, detailed_logging: false };
    assert_eq!(
        install_with_config(&["nix"], &quiet),
        vec![logged(
            chroot("pacman -S --noconfirm --needed nix"),
            "/tmp/crystallize-install.log",
            Progress { kind: ProgressKind::Standard, show_eta: false, keep_output: false },
            "Install packages nix"
        )]
    );
    assert_eq!(ProgressConfig::default(), ProgressConfig { show_eta: true, detailed_logging: true });
}

#[test]
fn install_base_runs_pacstrap_on_the_staging_root() {
    assert!(install_base(&[]).is_empty());
    assert_eq!(
        install_base(&["base", "linux"]),
        vec![logged(
            Invocation {
                program: "pacstrap".into(),
                args: vec!["/mnt".into(), "base".into(), "linux".into()]
            },
            "/tmp/crystallize-pacstrap.log",
            standard(),
            "Install base packages base, linux"
        )]
    );
    assert_eq!(
        install_base_with_config(&["-x"], &ProgressConfig::default()),
        vec![stop("Validation error: Invalid package name: -x")]
    );
}

#[test]
fn install_aur_needs_a_helper() {
    assert!(install_aur(&[], None).is_empty());
    assert_eq!(
        install_aur(&["yay-bin"], None),
        vec![stop("Package not found: No AUR helper found")]
    );
    assert_eq!(
        install_aur(&["a b"], None),
        vec![stop("Validation error: Invalid package name: a b")]
    );
    assert_eq!(
        install_aur_with_config(&["spotify", "slack"], &ProgressConfig::default(), Some("paru")),
        vec![logged(
            chroot("paru -S --noconfirm spotify slack"),
            "/tmp/crystallize-aur.log",
            Progress { kind: ProgressKind::Aur, show_eta: true, keep_output: true },
            "Install AUR packages spotify, slack with paru"
        )]
    );
}

#[test]
fn aur_helper_is_the_first_found() {
    assert_eq!(find_aur_helper(&[true, true, true, true]), Ok("prism".to_string()));
    assert_eq!(find_aur_helper(&[false, true, false, true]), Ok("paru".to_string()));
    assert_eq!(find_aur_helper(&[false, false, true]), Ok("yay".to_string()));
    assert_eq!(find_aur_helper(&[false, false, false, true]), Ok("trizen".to_string()));
    assert_eq!(find_aur_helper(&[true]), Ok("prism".to_string()));
    let none = Err(InstallError::PackageNotFound("No AUR helper found".into()));
    assert_eq!(find_aur_helper(&[false, false, false, false]), none);
    assert_eq!(find_aur_helper(&[]), none);
    assert_eq!(find_aur_helper(&[false, false, false, false, true]), none);
    assert_eq!(aur_helper_probe(0), chroot("which prism"));
    assert_eq!(aur_helper_probe(3), chroot("which trizen"));
}

#[test]
fn databases_and_upgrade() {
    let update = vec![logged(
        chroot("pacman -Sy --noconfirm"),
        "/tmp/crystallize-update.log",
        Progress { kind: ProgressKind::Simple, show_eta: false, keep_output: true },
        "Update package databases",
    )];
    assert_eq!(update_databases(), update);
    let quiet = ProgressConfig { show_eta: false, detailed_logging: false };
    assert_eq!(update_databases_with_config(&quiet), update);
    assert_eq!(
        upgrade_system(),
        vec![logged(
            chroot("pacman -Syu --noconfirm"),
            "/tmp/crystallize-upgrade.log",
            standard(),
            "Upgrade system packages"
        )]
    );
    assert_eq!(
        upgrade_system_with_config(&quiet)[0].action,
        Action::RunLogged {
            invocation: chroot("pacman -Syu --noconfirm"),
            log_path: "/tmp/crystallize-upgrade.log".into(),
            progress: Progress { kind: ProgressKind::Standard, show_eta: false, keep_output: false }
        }
    );
}

#[test]
fn categories_are_installed_in_order() {
    let config = ProgressConfig::default();
    let plan = install_multiple_categories(&["base"], &["nano"], &["paru-bin"], &config, Some("yay"));
    assert_eq!(plan.len(), 3);
    assert_eq!(plan[0], install_base(&["base"])[0]);
    assert_eq!(plan[1], install(&["nano"])[0]);
    assert_eq!(plan[2], install_aur(&["paru-bin"], Some("yay"))[0]);
    assert!(install_multiple_categories(&[], &[], &[], &config, None).is_empty());
    let plan = install_multiple_categories(&[], &["nano"], &[], &config, None);
    assert_eq!(plan, install(&["nano"]));
}

#[test]
fn packages_that_are_not_installed() {
    assert_eq!(
        check_installed(&["a", "b", "c"], &[true, false, true]),
        Ok(vec!["b".to_string()])
    );
    assert_eq!(
        check_installed(&["a", "b", "c"], &[false]),
        Ok(vec!["a".to_string(), "b".to_string(), "c".to_string()])
    );
    assert_eq!(check_installed(&[], &[]), Ok(Vec::new()));
    assert_eq!(installed_probe("nano"), chroot("pacman -Q nano"));
}

fn lines(text: &[&str]) -> Vec<String> {
    text.iter().map(|s| s.to_string()).collect()
}

#[test]
fn errors_are_read_from_the_log() {
    let path = "/tmp/x.log";
    let parse = |t: &[&str]| parse_error_from_output(1, Some(&lines(t)), path);
    assert_eq!(
        parse(&["resolving...", "error: TARGET not found: Foo-Bar extra"]),
        InstallError::PackageNotFound("foo-bar".into())
    );
    assert_eq!(
        parse(&["error: target not found:   "]),
        InstallError::PackageNotFound("unknown".into())
    );
    assert_eq!(
        parse(&["error: target not found", "error: package not found"]),
        InstallError::PackageNotFound("unknown package".into())
    );
    assert_eq!(
        parse(&["ok", "error: A Conflicts With b"]),
        InstallError::DependencyConflict("error: a conflicts with b".into())
    );
    assert_eq!(
        parse(&["there is a dependency", "cycle here"]),
        InstallError::DependencyConflict("Unknown dependency conflict".into())
    );
    assert_eq!(parse(&["write failed: No space left on device"]), InstallError::DiskSpaceError);
    assert_eq!(parse(&["DISK FULL"]), InstallError::DiskSpaceError);
    assert_eq!(parse(&["open: Permission denied"]), InstallError::PermissionError);
    assert_eq!(parse(&["Operation not permitted"]), InstallError::PermissionError);
    assert_eq!(
        parse(&["error: failed retrieving file 'core.db'"]),
        InstallError::NetworkError("Failed to download packages. Check network connection.".into())
    );
    assert_eq!(
        parse(&["the database is", "CORRUPT"]),
        InstallError::DatabaseError(
            "Package database is corrupted. Run pacman -Sy to refresh.".into()
        )
    );
    assert_eq!(
        parse(&["signature from x is invalid"]),
        InstallError::DatabaseError(
            "Invalid package signatures. Update keyring or refresh databases.".into()
        )
    );
    assert_eq!(
        parse(&["all fine"]),
        InstallError::UnknownError(
            1,
            "Command failed with exit code 1. Check log at /tmp/x.log".into()
        )
    );
    assert_eq!(
        parse_error_from_output(-1, None, path),
        InstallError::UnknownError(
            -1,
            "Command failed with exit code -1. Check log at /tmp/x.log".into()
        )
    );
    // the classification itself takes its lines as they are
    assert_eq!(
        classify_output(3, &lines(&["TARGET NOT FOUND: x"]), path),
        InstallError::UnknownError(
            3,
            "Command failed with exit code 3. Check log at /tmp/x.log".into()
        )
    );
    // a missing package wins over a conflict, a conflict over a full disk
    assert_eq!(
        parse(&["no space left", "conflicts with", "package not found"]),
        InstallError::PackageNotFound("unknown package".into())
    );
    assert_eq!(
        parse(&["no space left", "x conflicts with y"]),
        InstallError::DependencyConflict("x conflicts with y".into())
    );
}

#[test]
fn errors_have_messages_and_advice() {
    let all = [
        (InstallError::PackageNotFound("x".into()), "Package not found: x"),
        (InstallError::DependencyConflict("m".into()), "Dependency conflict: m"),
        (InstallError::NetworkError("m".into()), "Network error: m"),
        (InstallError::DiskSpaceError, "Insufficient disk space"),
        (InstallError::PermissionError, "Permission denied"),
        (InstallError::DatabaseError("m".into()), "Database error: m"),
        (InstallError::ValidationError("m".into()), "Validation error: m"),
        (InstallError::IoError("m".into()), "I/O error: m"),
        (InstallError::UnknownError(-7, "m".into()), "Unknown error (exit code -7): m"),
        (InstallError::UnknownError(0, "m".into()), "Unknown error (exit code 0): m"),
        (
            InstallError::UnknownError(i32::MIN, "m".into()),
            "Unknown error (exit code -2147483648): m",
        ),
        (InstallError::PasswordHashError("m".into()), "Password hash error: m"),
    ];
    for (error, text) in all.iter() {
        assert_eq!(error.message(), *text);
        assert!(!suggest_solution(error).is_empty());
    }
    assert_eq!(
        suggest_solution(&InstallError::PackageNotFound("vim".into())),
        "Try:\n1. Check package name spelling: pacman -Ss vim\n2. Update databases: pacman -Sy\n3. Check if it's an AUR package"
    );
    assert_eq!(
        suggest_solution(&InstallError::ValidationError("x".into())),
        "Fix the package name validation issues and try again."
    );
    assert_eq!(
        InstallError::from_host(&HostError { code: Some(2), message: "gone".into() }),
        InstallError::IoError("gone".into())
    );
}

#[test]
fn progress_is_read_off_output_lines() {
    let nothing = LineProgress { total: None, downloaded: false, built: false, installed: false };
    assert_eq!(process_package_line("hello"), nothing);
    assert_eq!(
        process_package_line("Packages (12) nano-1 vim-2"),
        LineProgress { total: Some(12), ..nothing }
    );
    assert_eq!(
        process_package_line("Package (1) nano-1"),
        LineProgress { total: Some(1), ..nothing }
    );
    assert_eq!(
        process_package_line("packages   (007)"),
        LineProgress { total: Some(7), ..nothing }
    );
    assert_eq!(
        process_package_line("Packages (99999999999999999999999)"),
        nothing
    );
    assert_eq!(
        process_package_line(":: Retrieving packages..."),
        LineProgress { downloaded: true, ..nothing }
    );
    assert_eq!(
        process_package_line("DOWNLOADING core.db"),
        LineProgress { downloaded: true, ..nothing }
    );
    assert_eq!(
        process_package_line("==> Making package: paru"),
        LineProgress { built: true, ..nothing }
    );
    assert_eq!(
        process_package_line("(1/2) Installing nano"),
        LineProgress { installed: true, ..nothing }
    );
    assert_eq!(
        process_package_line("upgrading and fetching"),
        LineProgress { downloaded: true, installed: true, ..nothing }
    );
    assert_eq!(
        read_progress("cloning", Some("+18446744073709551615")),
        LineProgress { total: Some(u64::MAX), downloaded: true, ..nothing }
    );
    assert_eq!(read_progress("x", Some("18446744073709551616")), nothing);
    assert_eq!(read_progress("x", Some("")), nothing);
    assert_eq!(read_progress("x", Some("+")), nothing);
    assert_eq!(read_progress("x", Some("1a")), nothing);
    assert_eq!(read_progress("x", Some("0")), LineProgress { total: Some(0), ..nothing });
}

#[test]
fn progress_wording() {
    assert!(shows_bar(ProgressKind::Standard, Bar::Download));
    assert!(!shows_bar(ProgressKind::Standard, Bar::Build));
    assert!(shows_bar(ProgressKind::Aur, Bar::Build));
    assert!(!shows_bar(ProgressKind::Simple, Bar::Install));
    assert_eq!(
        spinner_template(ProgressKind::Standard, Bar::Download, true),
        "{spinner:.cyan} [{elapsed_precise}] Downloading packages ({pos} downloaded) ETA: {eta}"
    );
    assert_eq!(
        spinner_template(ProgressKind::Standard, Bar::Install, false),
        "{spinner:.green} [{elapsed_precise}] Installing packages ({pos} installed)"
    );
    assert_eq!(
        spinner_template(ProgressKind::Aur, Bar::Build, false),
        "{spinner:.yellow} [{elapsed_precise}] Building AUR packages ({pos} built)"
    );
    assert_eq!(
        bar_template(Bar::Build),
        "{spinner:.yellow} [{elapsed_precise}] [{bar:40.yellow}] {pos}/{len} Building"
    );
    assert_eq!(finish_message(Bar::Download, true), "Downloads complete");
    assert_eq!(finish_message(Bar::Build, false), "Builds failed");
    assert_eq!(finish_message(Bar::Install, true), "Installation complete");
}
