use crystallize_core::cli::{parse_partition, DesktopSetup, Partition, PartitionMode};
use crystallize_core::config::{
    desktop_from_name, read_config, BootloaderConfig, Config, LocaleConfig, NetworkConfig,
    PartitionConfig, UserConfig,
};
use crystallize_core::modules::base::grub::{
    configure_grub_theme_and_config, install_bootloader_efi, install_bootloader_legacy,
    install_fallback_efi_bootloader, install_legacy_grub, install_main_efi_bootloader,
    set_default_boot_entry, validate_efi_directory,
};
use crystallize_core::modules::base::{
    copy_live_config, genfstab, install_base_packages, install_flatpak, install_homemgr,
    install_zram, setup_archlinux_keyring,
};
use crystallize_core::modules::desktops::desktop::{
    cinnamon, cosmic, gnome, graphics, packages, plasma,
};
use crystallize_core::modules::desktops::install_desktop_setup;
use crystallize_core::modules::desktops::services::{
    bluetooth, cups, enable_service, firewalld, networkmanager, tuned_ppd,
};
use crystallize_core::modules::locale::{set_keyboard, set_locale, set_timezone};
use crystallize_core::modules::network::{create_hosts, enable_ipv6, set_hostname};
use crystallize_core::modules::partition::partition;
use crystallize_core::modules::users::{hash_pass, new_user, read_hash, root_pass, ProgramOutput};
use crystallize_core::script::{
    resume, start, Action, Condition, Directive, Failure, Invocation, Outcome, Policy, Step,
};
use crystallize_core::utils::install::{install, InstallError};
use crystallize_core::utils::returncode_eval::HostError;

fn chroot(line: &str, description: &str) -> Step {
    Step {
        when: Condition::Always,
        action: Action::Run(Invocation {
            program: "arch-chroot".to_string(),
            args: vec!["/mnt".into(), "bash".into(), "-c".into(), line.to_string()],
        }),
        policy: Policy::Started,
        description: description.to_string(),
        failure: Failure::CommandFailed,
    }
}

fn host(program: &str, args: &[&str], policy: Policy, description: &str) -> Step {
    Step {
        when: Condition::Always,
        action: Action::Run(Invocation {
            program: program.to_string(),
            args: args.iter().map(|s| s.to_string()).collect(),
        }),
        policy,
        description: description.to_string(),
        failure: Failure::CommandFailed,
    }
}

fn file(action: Action, policy: Policy, description: &str) -> Step {
    Step {
        when: Condition::Always,
        action,
        policy,
        description: description.to_string(),
        failure: Failure::CommandFailed,
    }
}

fn append(path: &str, content: &str) -> Action {
    Action::AppendFile { path: path.to_string(), content: content.to_string() }
}

fn installed_packages(step: &Step) -> Vec<String> {
    match &step.action {
        Action::RunLogged { invocation, .. } => {
            let line = invocation.args.last().unwrap();
            line.split(' ').skip(4).map(|s| s.to_string()).collect()
        }
        _ => panic!("no installation"),
    }
}

fn simulate(script: &Vec<Step>, answer: &dyn Fn(&Action) -> Outcome) -> (Vec<usize>, Directive) {
    let mut performed = Vec::new();
    let mut directive = start(script);
    loop {
        match directive {
            Directive::Perform(i) => {
                performed.push(i);
                directive = resume(script, i, answer(&script[i].action));
            }
            other => return (performed, other),
        }
    }
}

#[test]
fn base_packages_with_kernel_and_headers() {
    let plan = install_base_packages("linux-zen");
    assert_eq!(plan.len(), 3);
    assert_eq!(
        plan[0],
        file(Action::CreateDirectory("/mnt/etc".into()), Policy::Warn, "create /mnt/etc")
    );
    match &plan[1].action {
        Action::RunLogged { invocation, log_path, .. } => {
            assert_eq!(invocation.program, "pacstrap");
            assert_eq!(invocation.args.len(), 27);
            assert_eq!(invocation.args[0], "/mnt");
            assert_eq!(invocation.args[1], "base");
            assert_eq!(invocation.args[24], "chaotic-mirrorlist");
            assert_eq!(invocation.args[25], "linux-zen");
            assert_eq!(invocation.args[26], "linux-zen-headers");
            assert_eq!(log_path, "/tmp/crystallize-pacstrap.log");
        }
        _ => panic!("no installation"),
    }
    assert_eq!(plan[1].policy, Policy::Crash);
    assert_eq!(
        plan[2],
        file(
            Action::CopyFile {
                source: "/etc/pacman.conf".into(),
                destination: "/mnt/etc/pacman.conf".into()
            },
            Policy::Warn,
            "copy pacman.conf"
        )
    );
    for (asked, got, warned) in [
        ("", "linux-cachyos", false),
        ("linux", "linux", false),
        ("linux-cachyos", "linux-cachyos", false),
        ("linux616-tkg-bore", "linux616-tkg-bore", false),
        ("linux-lts", "linux-cachyos", true),
        ("Linux", "linux-cachyos", true),
    ] {
        let plan = install_base_packages(asked);
        assert_eq!(plan.len(), if warned { 4 } else { 3 });
        if warned {
            assert_eq!(
                plan[1],
                file(
                    Action::Warn,
                    Policy::Ignore,
                    &format!("Unknown kernel: {asked}, using linux-cachyos instead")
                )
            );
        }
        match &plan[plan.len() - 2].action {
            Action::RunLogged { invocation, .. } => {
                assert_eq!(invocation.args[25], got);
                assert_eq!(invocation.args[26], format!("{got}-headers"));
            }
            _ => panic!("no installation"),
        }
    }
}

#[test]
fn keyring_needs_the_key_tool() {
    let plan = setup_archlinux_keyring();
    assert_eq!(plan.len(), 4);
    let policies: Vec<Policy> = plan.iter().map(|s| s.policy).collect();
    assert_eq!(policies, vec![Policy::Crash, Policy::Crash, Policy::Crash, Policy::Warn]);
    let lines: Vec<&str> = plan
        .iter()
        .map(|s| match &s.action {
            Action::Run(i) => i.args[3].as_str(),
            _ => panic!("no program"),
        })
        .collect();
    assert_eq!(
        lines,
        vec!["which pacman-key", "pacman-key --init", "pacman-key --populate", "pacman -Sy --noconfirm"]
    );
    let (performed, end) = simulate(&plan, &|_| Outcome::Failure(None));
    assert_eq!(performed, vec![0]);
    assert_eq!(end, Directive::Abort { step: 0, code: 1 });
    let (performed, end) = simulate(&plan, &|a| match a {
        Action::Run(i) if i.args[3].starts_with("pacman -Sy") => Outcome::Failure(None),
        _ => Outcome::Success,
    });
    assert_eq!(performed, vec![0, 1, 2, 3]);
    assert_eq!(end, Directive::Finished);
}

#[test]
fn small_base_stages() {
    assert_eq!(
        genfstab(),
        vec![host(
            "bash",
            &["-c", "genfstab -U /mnt >> /mnt/etc/fstab"],
            Policy::Started,
            "Generate fstab"
        )]
    );
    assert!(copy_live_config().is_empty());
    assert_eq!(install_homemgr(), install(&["nix"]));
    let flatpak = install_flatpak();
    assert_eq!(flatpak[0], install(&["flatpak"])[0]);
    assert_eq!(
        flatpak[1],
        chroot(
            "flatpak remote-add --if-not-exists flathub https://flathub.org/repo/flathub.flatpakrepo",
            "add flathub remote"
        )
    );
}

#[test]
fn zram_configuration() {
    let auto = install_zram(0);
    assert_eq!(auto.len(), 3);
    assert_eq!(auto[0], install(&["zram-generator"])[0]);
    assert_eq!(
        auto[1],
        file(
            Action::CreateDirectory("/mnt/etc/systemd".into()),
            Policy::Warn,
            "create systemd directory"
        )
    );
    assert_eq!(
        auto[2],
        Step {
            when: Condition::IfSucceeded,
            action: Action::WriteFile {
                path: "/mnt/etc/systemd/zram-generator.conf".into(),
                content: "[zram0]\nzram-size = min(ram / 2, 4096)\ncompression-algorithm = zstd"
                    .into()
            },
            policy: Policy::Warn,
            description: "write zram config".into(),
            failure: Failure::CommandFailed,
        }
    );
    match &install_zram(8192)[2].action {
        Action::WriteFile { content, .. } => {
            assert_eq!(content, "[zram0]\nzram-size = 8192\ncompression-algorithm = zstd")
        }
        _ => panic!("no file"),
    }
    match &install_zram(u64::MAX)[2].action {
        Action::WriteFile { content, .. } => assert_eq!(
            content,
            "[zram0]\nzram-size = 18446744073709551615\ncompression-algorithm = zstd"
        ),
        _ => panic!("no file"),
    }
    // a directory that cannot be made leaves the configuration unwritten, and the run going
    let (performed, end) = simulate(&auto, &|a| match a {
        Action::CreateDirectory(_) => Outcome::Error(Some(13)),
        _ => Outcome::Success,
    });
    assert_eq!(performed, vec![0, 1]);
    assert_eq!(end, Directive::Finished);
}

#[test]
fn grub_for_uefi() {
    let plan = install_bootloader_efi("/boot/efi");
    assert_eq!(plan.len(), 7);
    assert_eq!(
        installed_packages(&plan[0]),
        vec!["prismlinux/grub", "efibootmgr", "prismlinux-themes-grub", "os-prober"]
    );
    assert_eq!(
        plan[1],
        file(
            Action::CheckPath("/mnt/boot/efi".into()),
            Policy::Crash,
            "The efidir /boot/efi doesn't exist"
        )
    );
    assert_eq!(
        plan[2],
        chroot(
            "grub-install --target=x86_64-efi --efi-directory=/boot/efi --bootloader-id=PrismLinux --recheck",
            "install grub as efi with proper boot entry"
        )
    );
    assert_eq!(
        plan[3],
        chroot(
            "grub-install --target=x86_64-efi --efi-directory=/boot/efi --bootloader-id=PrismLinux-fallback --removable --recheck",
            "install grub as fallback efi bootloader"
        )
    );
    assert_eq!(plan[4..6], configure_grub_theme_and_config()[..]);
    assert_eq!(plan[6], set_default_boot_entry());
    assert_eq!(plan[1], validate_efi_directory("/boot/efi"));
    assert_eq!(plan[2], install_main_efi_bootloader("/boot/efi"));
    assert_eq!(plan[3], install_fallback_efi_bootloader("/boot/efi"));
    // a relative directory is taken from the staging root
    let relative = install_bootloader_efi("boot/efi");
    assert_eq!(relative[1].action, Action::CheckPath("/mnt/mnt/boot/efi".into()));
    assert_eq!(relative[2], install_main_efi_bootloader("/mnt/boot/efi"));
    assert_eq!(install_bootloader_efi("")[1].action, Action::CheckPath("/mnt/mnt/".into()));
}

#[test]
fn grub_for_bios() {
    let plan = install_bootloader_legacy("/dev/sda");
    assert_eq!(plan.len(), 5);
    assert_eq!(
        installed_packages(&plan[0]),
        vec!["prismlinux/grub", "prismlinux-themes-grub", "os-prober"]
    );
    assert_eq!(
        plan[1],
        file(
            Action::CheckPath("/dev/sda".into()),
            Policy::Crash,
            "The device /dev/sda does not exist"
        )
    );
    assert_eq!(
        plan[2],
        chroot("grub-install --target=i386-pc --recheck /dev/sda", "install grub as legacy")
    );
    assert_eq!(plan[2], install_legacy_grub("/dev/sda"));
    assert_eq!(
        plan[3],
        file(
            Action::ReplaceInFile {
                path: "/mnt/etc/default/grub".into(),
                find: "#GRUB_THEME=\"/path/to/theme.txt\"".into(),
                replace: "GRUB_THEME=\"/usr/share/grub/themes/prismlinux/theme.txt\"".into()
            },
            Policy::Fatal,
            "Enable Grub Theme"
        )
    );
    assert_eq!(plan[4], chroot("grub-mkconfig -o /boot/grub/grub.cfg", "Create grub.cfg"));
}

#[test]
fn services_are_installed_and_enabled() {
    assert_eq!(
        enable_service("sddm", "Enable SDDM"),
        chroot("systemctl --no-reload enable sddm", "Enable SDDM")
    );
    let nm = networkmanager();
    assert_eq!(nm.len(), 3);
    assert_eq!(installed_packages(&nm[0]), vec!["networkmanager"]);
    assert_eq!(nm[1], enable_service("NetworkManager", "Enable NetworkManager"));
    assert_eq!(nm[2].policy, Policy::Ignore);
    assert_eq!(
        nm[2].action,
        Action::CopyDirectory {
            source: "/etc/NetworkManager/system-connections/".into(),
            destination: "/mnt/etc/NetworkManager/system-connections/".into()
        }
    );
    assert_eq!(firewalld()[1], enable_service("firewalld", "Enable Firewalld service"));
    assert_eq!(installed_packages(&tuned_ppd()[0]), vec!["tuned-ppd", "tuned"]);
    assert_eq!(tuned_ppd()[1], enable_service("tuned-ppd", "Enable Power Manager"));
    assert_eq!(installed_packages(&bluetooth()[0]), vec!["bluez"]);
    assert_eq!(bluetooth()[1], enable_service("bluetooth", "Enable Bluetooth"));
    assert_eq!(installed_packages(&cups()[0]), vec!["cups", "cups-pdf", "bluez-cups"]);
    assert_eq!(cups()[1], enable_service("cups", "Enable Cups"));
}

#[test]
fn desktops() {
    assert_eq!(installed_packages(&graphics()[0]), vec!["prismlinux-graphics"]);
    assert_eq!(installed_packages(&packages()[0]).len(), 12);
    assert_eq!(plasma()[1], enable_service("sddm", "Enable SDDM"));
    assert_eq!(gnome()[1], enable_service("gdm", "Enabling GDM"));
    assert_eq!(installed_packages(&gnome()[0]).len(), 7);
    assert_eq!(cosmic()[1], enable_service("cosmic-greeter", "Enabling Cosmic Greeter"));
    let c = cinnamon();
    assert_eq!(c.len(), 3);
    assert_eq!(
        c[1],
        file(
            append(
                "/mnt/etc/lightdm/lightdm.conf",
                "[SeatDefaults]\ngreeter-session=lightdm-gtk-greeter\n"
            ),
            Policy::Fatal,
            "Add lightdm greeter"
        )
    );
    assert_eq!(c[2], enable_service("lightdm", "Enabling LightDM"));
}

#[test]
fn desktop_setup_puts_the_parts_in_order() {
    let mut common = networkmanager();
    common.extend(firewalld());
    assert_eq!(install_desktop_setup(DesktopSetup::NoDesktop), common);
    for (setup, own) in [
        (DesktopSetup::Gnome, gnome()),
        (DesktopSetup::Plasma, plasma()),
        (DesktopSetup::Cosmic, cosmic()),
        (DesktopSetup::Cinnamon, cinnamon()),
    ] {
        let mut expected = common.clone();
        expected.extend(graphics());
        expected.extend(packages());
        expected.extend(own);
        expected.extend(bluetooth());
        expected.extend(cups());
        expected.extend(tuned_ppd());
        assert_eq!(install_desktop_setup(setup), expected);
    }
}

#[test]
fn locale_keyboard_and_time() {
    assert_eq!(
        set_timezone("Europe/Berlin"),
        vec![
            chroot("ln -sf /usr/share/zoneinfo/Europe/Berlin /etc/localtime", "Set timezone"),
            chroot("hwclock --systohc", "Set system clock"),
        ]
    );
    assert_eq!(
        set_keyboard("de"),
        vec![
            chroot("localectl set-x11-keymap de", "Set x11 keymap"),
            chroot("localectl set-keymap de", "Set global keymap"),
        ]
    );
    let plan = set_locale("de_DE.UTF-8 UTF-8 en_US.UTF-8 UTF-8");
    assert_eq!(
        plan,
        vec![
            file(
                append("/mnt/etc/locale.gen", "en_US.UTF-8 UTF-8"),
                Policy::Fatal,
                "add en_US.UTF-8 UTF-8 to locale.gen"
            ),
            file(
                Action::CreateFile("/mnt/etc/locale.conf".into()),
                Policy::Ignore,
                "create locale.conf"
            ),
            file(
                append("/mnt/etc/locale.conf", "LANG=en_US.UTF-8"),
                Policy::Fatal,
                "edit locale.conf"
            ),
            file(
                append("/mnt/etc/locale.gen", "de_DE.UTF-8 UTF-8\n"),
                Policy::Fatal,
                "add locales to locale.gen"
            ),
            file(
                Action::ReplaceInFile {
                    path: "/mnt/etc/locale.conf".into(),
                    find: "en_US.UTF-8".into(),
                    replace: "de_DE.UTF-8".into()
                },
                Policy::Fatal,
                "Set locale de_DE.UTF-8 in /etc/locale.conf"
            ),
            file(
                append("/mnt/etc/locale.gen", "en_US.UTF-8 UTF-8\n"),
                Policy::Fatal,
                "add locales to locale.gen"
            ),
            chroot("locale-gen", "generate locales"),
        ]
    );
}

#[test]
fn hostname_and_hosts() {
    assert_eq!(
        set_hostname("prism"),
        vec![
            file(
                Action::CreateFile("/mnt/etc/hostname".into()),
                Policy::Ignore,
                "create /etc/hostname"
            ),
            file(append("/mnt/etc/hostname", "prism"), Policy::Fatal, "set hostname"),
        ]
    );
    assert_eq!(create_hosts().len(), 2);
    assert_eq!(
        create_hosts()[1].action,
        append("/mnt/etc/hosts", "127.0.0.1     localhost")
    );
    assert_eq!(
        enable_ipv6(),
        vec![file(append("/mnt/etc/hosts", "::1 localhost"), Policy::Fatal, "add ipv6 localhost")]
    );
}

#[test]
fn plain_user() {
    let plan = new_user("ada", false, " $1$abc$def \n", "fish");
    assert_eq!(plan.len(), 2);
    assert_eq!(plan[0], install(&["fish"])[0]);
    assert_eq!(
        plan[1],
        chroot("useradd -m -s /usr/bin/fish -p $1$abc$def ada", "Create user ada")
    );
    let zsh = new_user("ada", false, "pw", "zsh");
    assert_eq!(zsh[0], install(&["zsh"])[0]);
    assert_eq!(zsh[1], chroot("useradd -m -s /usr/bin/zsh -p pw ada", "Create user ada"));
    for shell in ["bash", "tcsh", "", "Fish"] {
        let other = new_user("ada", false, "pw", shell);
        assert_eq!(other[0], install(&["bash"])[0]);
        assert_eq!(other[1], chroot("useradd -m -s /bin/bash -p pw ada", "Create user ada"));
    }
}

#[test]
fn administrator() {
    let plan = new_user("root2", true, "pw", "bash");
    assert_eq!(plan.len(), 8);
    assert_eq!(
        plan[2],
        chroot("usermod -aG wheel root2", "Add user root2 to wheel group")
    );
    assert_eq!(
        plan[3].action,
        Action::ReplaceInFile {
            path: "/mnt/etc/sudoers".into(),
            find: "# %wheel ALL=(ALL:ALL) ALL".into(),
            replace: "%wheel ALL=(ALL:ALL) ALL".into()
        }
    );
    assert_eq!(plan[4].action, append("/mnt/etc/sudoers", "\nDefaults pwfeedback\n"));
    assert_eq!(
        plan[5].action,
        Action::CreateDirectory("/mnt/var/lib/AccountsService/users/".into())
    );
    assert_eq!(
        plan[6],
        file(
            Action::CreateFile("/mnt/var/lib/AccountsService/users/root2".into()),
            Policy::Crash,
            "Create AccountsService user file for root2"
        )
    );
    assert_eq!(
        plan[7],
        file(
            append("/mnt/var/lib/AccountsService/users/root2", "[User]\nSession=plasma\n"),
            Policy::Fatal,
            "Populate AccountsService user file for root2"
        )
    );
}

#[test]
fn passwords() {
    assert_eq!(
        root_pass("$1$x"),
        vec![chroot("bash -c 'usermod --password $1$x root'", "set root password")]
    );
    assert_eq!(
        hash_pass("secret"),
        Invocation {
            program: "openssl".into(),
            args: vec!["passwd".into(), "-1".into(), "secret".into()]
        }
    );
    let ok = ProgramOutput {
        success: true,
        stdout: Ok("$1$salt$hash\n".to_string()),
        stderr: String::new(),
    };
    assert_eq!(read_hash(&Ok(ok)), Ok("$1$salt$hash".to_string()));
    let failed = ProgramOutput {
        success: false,
        stdout: Ok("ignored".to_string()),
        stderr: "bad option".to_string(),
    };
    assert_eq!(
        read_hash(&Ok(failed)),
        Err(InstallError::PasswordHashError("OpenSSL failed: bad option".into()))
    );
    let binary = ProgramOutput {
        success: true,
        stdout: Err("invalid utf-8 sequence".to_string()),
        stderr: String::new(),
    };
    assert_eq!(
        read_hash(&Ok(binary)),
        Err(InstallError::PasswordHashError(
            "Invalid UTF-8 in password hash: invalid utf-8 sequence".into()
        ))
    );
    assert_eq!(
        read_hash(&Err(HostError { code: Some(2), message: "No such file".into() })),
        Err(InstallError::PasswordHashError("Failed to execute openssl: No such file".into()))
    );
}

fn sample() -> Config {
    Config {
        partition: PartitionConfig {
            device: "sda".into(),
            mode: PartitionMode::Auto,
            efi: true,
            partitions: Vec::new(),
        },
        bootloader: BootloaderConfig { kind: "grub-efi".into(), location: "/boot".into() },
        locale: LocaleConfig {
            locale: vec!["en_US.UTF-8 UTF-8".into()],
            keymap: "us".into(),
            timezone: "UTC".into(),
        },
        networking: NetworkConfig { hostname: "prism".into(), ipv6: true },
        users: vec![UserConfig {
            name: "ada".into(),
            password: "pw".into(),
            hasroot: false,
            shell: "zsh".into(),
        }],
        rootpass: "rootpw".into(),
        desktop: "KDE".into(),
        zram: 0,
        nvidia: false,
        extra_packages: vec!["htop".into()],
        kernel: "linux".into(),
        flatpak: true,
    }
}

#[test]
fn partitions_of_the_config_are_parsed() {
    let mut config = sample();
    config.partition.partitions = vec!["/:/dev/sda2:ext4".into(), "/boot:/dev/sda1:fat32".into()];
    assert_eq!(
        config.parse_partitions(),
        Ok(vec![
            Partition::new("/".into(), "/dev/sda2".into(), "ext4".into()),
            Partition::new("/boot".into(), "/dev/sda1".into(), "fat32".into()),
        ])
    );
    config.partition.partitions =
        vec!["/:/dev/sda2:ext4".into(), "/boot:/dev/sda1".into(), "nonsense".into()];
    assert_eq!(
        config.parse_partitions(),
        Err("Invalid partition format: /boot:/dev/sda1".to_string())
    );
    config.partition.partitions = vec!["a:b:c:d".into()];
    assert_eq!(config.parse_partitions(), Err("Invalid partition format: a:b:c:d".to_string()));
    config.partition.partitions = vec!["::".into()];
    assert_eq!(
        config.parse_partitions(),
        Ok(vec![Partition::new("".into(), "".into(), "".into())])
    );
    assert_eq!(
        parse_partition("/home:/dev/sdb1:btrfs"),
        Ok(Partition::new("/home".into(), "/dev/sdb1".into(), "btrfs".into()))
    );
    assert_eq!(
        parse_partition("a:b:c:d"),
        Ok(Partition::new("a".into(), "b".into(), "c".into()))
    );
}

#[test]
fn desktop_names() {
    assert_eq!(desktop_from_name("plasma"), Some(DesktopSetup::Plasma));
    assert_eq!(desktop_from_name("kde"), Some(DesktopSetup::Plasma));
    assert_eq!(desktop_from_name("gnome"), Some(DesktopSetup::Gnome));
    assert_eq!(desktop_from_name("cosmic"), Some(DesktopSetup::Cosmic));
    assert_eq!(desktop_from_name("cinnamon"), Some(DesktopSetup::Cinnamon));
    assert_eq!(desktop_from_name("none"), Some(DesktopSetup::NoDesktop));
    assert_eq!(desktop_from_name("KDE"), None);
    assert_eq!(desktop_from_name("xfce"), None);
    let mut config = sample();
    assert_eq!(config.install_desktop(), install_desktop_setup(DesktopSetup::Plasma));
    config.desktop = "GNOME".into();
    assert_eq!(config.install_desktop(), install_desktop_setup(DesktopSetup::Gnome));
    config.desktop = "Xfce".into();
    assert_eq!(
        config.install_desktop(),
        vec![file(Action::Warn, Policy::Ignore, "Unknown desktop: Xfce, skipping")]
    );
}

#[test]
fn whole_installation_is_the_stages_in_order() {
    let config = sample();
    assert!(config.has_paired_locales());
    let listing = Err(HostError { code: None, message: "unused".into() });
    let plan = read_config(&config, &listing).unwrap();
    let mut none = Vec::new();
    let mut expected = partition("/dev/sda", PartitionMode::Auto, true, &mut none);
    expected.extend(config.install_base_system());
    expected.extend(install_bootloader_efi("/boot"));
    expected.extend(config.configure_locale());
    expected.extend(config.setup_networking());
    expected.extend(install_desktop_setup(DesktopSetup::Plasma));
    expected.extend(new_user("ada", false, "pw", "zsh"));
    expected.extend(root_pass("rootpw"));
    expected.extend(config.finalize_installation(&listing));
    assert_eq!(plan, expected);
    assert_eq!(config.setup_partitions().unwrap().len(), 26);
    assert_eq!(config.setup_bootloader(), install_bootloader_efi("/boot"));
    assert_eq!(config.create_users().len(), 3);
}

#[test]
fn malformed_partition_fails_before_anything_is_planned() {
    let mut config = sample();
    config.partition.mode = PartitionMode::Manual;
    config.partition.partitions = vec!["/".into()];
    let listing = Ok(String::new());
    assert_eq!(
        read_config(&config, &listing),
        Err("Invalid partition format: /".to_string())
    );
    assert_eq!(config.setup_partitions(), Err("Invalid partition format: /".to_string()));
}

#[test]
fn stages_of_the_config() {
    let mut config = sample();
    let base = config.install_base_system();
    let tools: Vec<String> = base[..5]
        .iter()
        .map(|s| match &s.action {
            Action::Run(i) => format!("{} {}", i.program, i.args.join(" ")),
            _ => panic!("no program"),
        })
        .collect();
    assert_eq!(
        tools,
        vec!["which cat", "which mount", "which umount", "which chroot", "which pacstrap"]
    );
    assert!(base[..5].iter().all(|s| s.policy == Policy::Warn));
    assert_eq!(base[..5], Config::ensure_host_tools()[..]);
    let chroot_env = Config::prepare_chroot_environment();
    assert_eq!(chroot_env.len(), 11);
    assert_eq!(
        chroot_env[0],
        host("mkdir", &["-p", "/mnt/proc"], Policy::Warn, "create /mnt/proc")
    );
    assert_eq!(
        chroot_env[8],
        host(
            "mount",
            &["--bind", "/dev", "/mnt/dev"],
            Policy::Started,
            "bind mount dev filesystem"
        )
    );
    assert_eq!(chroot_env[10].action, Action::Pause(1000));
    assert_eq!(base.last().unwrap(), install_flatpak().last().unwrap());
    config.flatpak = false;
    assert_eq!(config.install_base_system().last().unwrap(), genfstab().last().unwrap());

    config.bootloader.kind = "grub-legacy".into();
    config.bootloader.location = "/dev/sda".into();
    assert_eq!(config.setup_bootloader(), install_bootloader_legacy("/dev/sda"));
    config.bootloader.kind = "systemd-boot".into();
    assert!(config.setup_bootloader().is_empty());

    assert_eq!(config.setup_networking().len(), 5);
    config.networking.ipv6 = false;
    assert_eq!(config.setup_networking().len(), 4);

    config.partition.device = "/dev/disk/by-id/x".into();
    assert_eq!(
        config.setup_partitions().unwrap()[5].action,
        Action::CheckPath("/dev/disk/by-id/x".into())
    );
    config.partition.device = "".into();
    assert_eq!(config.setup_partitions().unwrap()[5].action, Action::CheckPath("/dev/".into()));

    config.locale.locale = vec!["de_DE.UTF-8".into()];
    assert!(!config.has_paired_locales());
    config.locale.locale = vec!["de_DE.UTF-8 UTF-8".into(), "fr_FR.UTF-8 UTF-8".into()];
    assert!(config.has_paired_locales());
    assert_eq!(config.configure_locale().len(), 3 + 4 + 1 + 2 + 2);
}

#[test]
fn last_stage_unmounts_lazily_where_it_must() {
    let mut config = sample();
    config.extra_packages = Vec::new();
    let listing = Ok(String::new());
    let plan = config.finalize_installation(&listing);
    // zram: 3 steps, then a pause and three steps for each of five mount points
    assert_eq!(plan.len(), 3 + 1 + 15);
    let cleanup = Config::cleanup_installation();
    assert_eq!(plan[3..], cleanup[..]);
    assert_eq!(cleanup[0].action, Action::Pause(1000));
    assert_eq!(
        cleanup[1],
        host("umount", &["/mnt/dev/pts"], Policy::Ignore, "unmount /mnt/dev/pts")
    );
    assert_eq!(
        cleanup[2],
        Step {
            when: Condition::IfFailed,
            ..host("umount", &["-l", "/mnt/dev/pts"], Policy::Ignore, "lazy unmount /mnt/dev/pts")
        }
    );
    assert_eq!(cleanup[3].action, Action::Pause(200));
    let (performed, _) = simulate(&cleanup, &|a| match a {
        Action::Run(i) if i.args == vec!["/mnt/proc".to_string()] => Outcome::Failure(None),
        _ => Outcome::Success,
    });
    // every plain unmount and pause, and the one lazy unmount that was needed
    assert_eq!(performed, vec![0, 1, 3, 4, 6, 7, 8, 9, 10, 12, 13, 15]);
    config.extra_packages = vec!["htop".into(), "bad name".into()];
    let with_extra = config.finalize_installation(&listing);
    assert_eq!(with_extra[3].action, Action::Stop);
    assert_eq!(with_extra[3].failure, Failure::Rejected);
    assert_eq!(with_extra[3].description, "Validation error: Invalid package name: bad name");
}
