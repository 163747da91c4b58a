use crystallize_core::cli::{Partition, PartitionMode};
use crystallize_core::modules::partition::{
    fmt_mount, format_and_mount_auto, mount, partition, sort_for_mounting, umount, BootFlags,
    DeviceParser, FilesystemFormatter, FilesystemType, MountManager, PartitionTable,
};
use crystallize_core::script::{
    resume, start, Action, Condition, Directive, Failure, Invocation, Outcome, Policy, Step,
};

fn run(program: &str, args: &[&str], policy: Policy, description: &str) -> Step {
    Step {
        when: Condition::Always,
        action: Action::Run(Invocation {
            program: program.to_string(),
            args: args.iter().map(|s| s.to_string()).collect(),
        }),
        policy,
        description: description.to_string(),
        failure: Failure::CommandFailed,
    }
}

fn plain(action: Action, policy: Policy, description: &str) -> Step {
    Step {
        when: Condition::Always,
        action,
        policy,
        description: description.to_string(),
        failure: Failure::CommandFailed,
    }
}

fn failing(step: Step, failure: Failure) -> Step {
    Step { failure, ..step }
}

fn only(step: Step, when: Condition) -> Step {
    Step { when, ..step }
}

fn mount_steps(source: &str, target: &str) -> Vec<Step> {
    vec![
        plain(Action::CheckPath(target.to_string()), Policy::Ignore, &format!("look for {target}")),
        only(
            plain(
                Action::CreateDirectory(target.to_string()),
                Policy::Crash,
                &format!("Failed to create mount point {target}"),
            ),
            Condition::IfFailed,
        ),
        run(
            "mountpoint",
            &["-q", target],
            Policy::Ignore,
            &format!("check whether {target} is mounted"),
        ),
        only(
            run("umount", &[target], Policy::Ignore, &format!("unmount {target}")),
            Condition::IfSucceeded,
        ),
        run("mount", &[source, target], Policy::Fatal, &format!("mount {source} at {target}")),
    ]
}

fn cleanup_steps() -> Vec<Step> {
    ["/mnt/boot", "/mnt/dev", "/mnt/proc", "/mnt/sys", "/mnt"]
        .iter()
        .map(|m| {
            run("umount", &["-R", m], Policy::Ignore, &format!("unmount everything under {m}"))
        })
        .collect()
}

/// Works a script through against a host that answers each action by `answer`.
fn simulate(script: &Vec<Step>, answer: &dyn Fn(&Action) -> Outcome) -> (Vec<usize>, Directive) {
    let mut performed = Vec::new();
    let mut directive = start(script);
    loop {
        match directive {
            Directive::Perform(i) => {
                performed.push(i);
                directive = resume(script, i, answer(&script[i].action));
            }
            other => return (performed, other),
        }
    }
}

fn programs(script: &Vec<Step>, performed: &[usize]) -> Vec<String> {
    performed
        .iter()
        .filter_map(|&i| match &script[i].action {
            Action::Run(invocation) => {
                Some(format!("{} {}", invocation.program, invocation.args.join(" ")))
            }
            _ => None,
        })
        .collect()
}

#[test]
fn auto_uefi_layout_is_exact() {
    let mut none: Vec<Partition> = Vec::new();
    let plan = partition("/dev/sda", PartitionMode::Auto, true, &mut none);
    let mut expected = cleanup_steps();
    expected.push(failing(
        plain(
            Action::CheckPath("/dev/sda".to_string()),
            Policy::Crash,
            "The device \"/dev/sda\" doesn't exist",
        ),
        Failure::DeviceNotFound,
    ));
    expected.push(run("umount", &["/dev/sda"], Policy::Ignore, "unmount /dev/sda"));
    expected.push(run(
        "parted",
        &["-s", "/dev/sda", "mklabel", "gpt"],
        Policy::Fatal,
        "create GPT label",
    ));
    expected.push(run(
        "parted",
        &["-s", "/dev/sda", "mkpart", "ESP", "fat32", "1MiB", "513MiB"],
        Policy::Fatal,
        "create EFI system partition",
    ));
    expected.push(run(
        "parted",
        &["-s", "/dev/sda", "mkpart", "root", "ext4", "513MiB", "100%"],
        Policy::Fatal,
        "create root partition",
    ));
    expected.push(failing(
        run(
            "parted",
            &["-s", "/dev/sda", "set", "1", "esp", "on"],
            Policy::Fatal,
            "set ESP flag on boot partition",
        ),
        Failure::BootFlagFailed,
    ));
    expected.push(run("umount", &["/dev/sda1"], Policy::Ignore, "unmount /dev/sda1"));
    expected.push(run(
        "mkfs.fat",
        &["-F32", "/dev/sda1"],
        Policy::Fatal,
        "format /dev/sda1 as fat32",
    ));
    expected.push(run("umount", &["/dev/sda2"], Policy::Ignore, "unmount /dev/sda2"));
    expected.push(run("mkfs.ext4", &["-F", "/dev/sda2"], Policy::Fatal, "format /dev/sda2 as ext4"));
    expected.extend(mount_steps("/dev/sda2", "/mnt"));
    expected.push(plain(
        Action::CreateDirectory("/mnt/boot".to_string()),
        Policy::Fatal,
        "create /mnt/boot",
    ));
    expected.extend(mount_steps("/dev/sda1", "/mnt/boot"));
    assert_eq!(plan.len(), 26);
    assert_eq!(plan, expected);
}

#[test]
fn auto_uefi_mounts_root_before_boot() {
    let mut none: Vec<Partition> = Vec::new();
    let plan = partition("/dev/vda", PartitionMode::Auto, true, &mut none);
    let (performed, end) = simulate(&plan, &|action| match action {
        Action::Run(invocation) if invocation.program == "mountpoint" => Outcome::Failure(None),
        _ => Outcome::Success,
    });
    assert_eq!(end, Directive::Finished);
    let ran = programs(&plan, &performed);
    let root = ran.iter().position(|c| c == "mount /dev/vda2 /mnt").unwrap();
    let boot = ran.iter().position(|c| c == "mount /dev/vda1 /mnt/boot").unwrap();
    assert!(root < boot);
    assert_eq!(ran.iter().filter(|c| c.starts_with("mkfs.")).count(), 2);
    assert!(ran.contains(&"mkfs.fat -F32 /dev/vda1".to_string()));
    assert!(ran.contains(&"mkfs.ext4 -F /dev/vda2".to_string()));
    assert_eq!(ran.iter().filter(|c| c.contains(" mkpart ")).count(), 2);
    // existing and unmounted mount points are neither made nor unmounted
    assert!(!ran.contains(&"umount /mnt".to_string()));
    assert!(!performed
        .iter()
        .any(|&i| plan[i].action == Action::CreateDirectory("/mnt".to_string())));
}

#[test]
fn auto_bios_layout_uses_ext4_and_boot_flag() {
    let mut none: Vec<Partition> = Vec::new();
    let plan = partition("/dev/nvme0n1", PartitionMode::Auto, false, &mut none);
    assert_eq!(plan.len(), 27);
    let (performed, end) = simulate(&plan, &|_| Outcome::Success);
    assert_eq!(end, Directive::Finished);
    let ran = programs(&plan, &performed);
    assert!(ran.contains(&"parted -s /dev/nvme0n1 mklabel msdos".to_string()));
    assert!(ran.contains(&"parted -s /dev/nvme0n1 mkpart primary ext4 1MiB 513MiB".to_string()));
    assert!(ran.contains(&"parted -s /dev/nvme0n1 mkpart primary ext4 513MiB 100%".to_string()));
    assert!(ran.contains(&"parted -s /dev/nvme0n1 set 1 boot on".to_string()));
    assert!(!ran.iter().any(|c| c.contains(" esp ")));
    assert!(ran.contains(&"mkfs.ext4 -F /dev/nvme0n1p1".to_string()));
    assert!(ran.contains(&"mkfs.ext4 -F /dev/nvme0n1p2".to_string()));
    assert!(!ran.iter().any(|c| c.starts_with("mkfs.fat")));
    let root = ran.iter().position(|c| c == "mount /dev/nvme0n1p2 /mnt").unwrap();
    let boot = ran.iter().position(|c| c == "mount /dev/nvme0n1p1 /mnt/boot").unwrap();
    assert!(root < boot);
}

#[test]
fn auto_mode_stops_when_device_is_missing() {
    let mut none: Vec<Partition> = Vec::new();
    let plan = partition("/dev/sdz", PartitionMode::Auto, true, &mut none);
    let (performed, end) = simulate(&plan, &|action| match action {
        Action::CheckPath(path) if path == "/dev/sdz" => Outcome::Failure(None),
        _ => Outcome::Success,
    });
    assert_eq!(end, Directive::Abort { step: 5, code: 1 });
    assert_eq!(performed, vec![0, 1, 2, 3, 4, 5]);
    assert_eq!(plan[5].description, "The device \"/dev/sdz\" doesn't exist");
    assert_eq!(plan[5].failure, Failure::DeviceNotFound);
}

#[test]
fn manual_mode_sorts_by_mountpoint_length_and_keeps_ties() {
    let mut partitions = vec![
        Partition::new("/boot/efi".into(), "/dev/sda1".into(), "fat32".into()),
        Partition::new("/".into(), "/dev/sda2".into(), "ext4".into()),
        Partition::new("/boot".into(), "/dev/sda3".into(), "ext4".into()),
        Partition::new("/home".into(), "/dev/sda4".into(), "ext4".into()),
    ];
    let plan = partition("", PartitionMode::Manual, true, &mut partitions);
    let order: Vec<&str> = partitions.iter().map(|p| p.mountpoint.as_str()).collect();
    assert_eq!(order, vec!["/", "/boot", "/home", "/boot/efi"]);
    let mounts: Vec<String> = plan
        .iter()
        .filter_map(|s| match &s.action {
            Action::Run(i) if i.program == "mount" => Some(i.args.join(" ")),
            _ => None,
        })
        .collect();
    assert_eq!(
        mounts,
        vec!["/dev/sda2 /", "/dev/sda3 /boot", "/dev/sda4 /home", "/dev/sda1 /boot/efi"]
    );
}

#[test]
fn sorting_counts_bytes_not_characters() {
    let mut partitions = vec![
        Partition::new("/\u{e9}\u{e9}".into(), "/dev/a".into(), "ext4".into()),
        Partition::new("/abc".into(), "/dev/b".into(), "ext4".into()),
        Partition::new("".into(), "/dev/c".into(), "ext4".into()),
    ];
    sort_for_mounting(&mut partitions);
    let order: Vec<&str> = partitions.iter().map(|p| p.blockdevice.as_str()).collect();
    assert_eq!(order, vec!["/dev/c", "/dev/b", "/dev/a"]);
}

#[test]
fn fmt_mount_noformat_mounts_without_formatting() {
    let plan = fmt_mount("/data", "noformat", "/dev/sdb1", false);
    let mut expected = vec![run("umount", &["/dev/sdb1"], Policy::Ignore, "unmount /dev/sdb1")];
    expected.extend(mount_steps("/dev/sdb1", "/data")[..2].to_vec());
    expected.extend(mount_steps("/dev/sdb1", "/data"));
    assert_eq!(plan, expected);
    assert!(!plan.iter().any(|s| matches!(&s.action,
        Action::Run(i) if i.program.starts_with("mkfs."))));
    let again = fmt_mount("/data", "Don't Format", "/dev/sdb1", false);
    assert_eq!(again, plan);
}

#[test]
fn fmt_mount_unknown_filesystem_stops_after_unmounting() {
    let plan = fmt_mount("/data", "zfs", "/dev/sdb1", false);
    assert_eq!(
        plan,
        vec![
            run("umount", &["/dev/sdb1"], Policy::Ignore, "unmount /dev/sdb1"),
            failing(
                plain(
                    Action::Stop,
                    Policy::Crash,
                    "Unknown filesystem zfs, used in partition /dev/sdb1"
                ),
                Failure::UnknownFilesystem
            ),
        ]
    );
    let (performed, end) = simulate(&plan, &|_| Outcome::Success);
    assert_eq!(performed, vec![0]);
    assert_eq!(end, Directive::Abort { step: 1, code: 1 });
}

#[test]
fn fmt_mount_provides_tools_before_formatting() {
    let plan = fmt_mount("/srv", "BTRFS", "/dev/sdc1", true);
    assert_eq!(
        plan[1],
        plain(
            Action::Install(vec!["btrfs-progs".to_string()]),
            Policy::Fatal,
            "install tools for btrfs"
        )
    );
    assert_eq!(
        plan[2],
        run("mkfs.btrfs", &["-f", "/dev/sdc1"], Policy::Fatal, "format /dev/sdc1 as btrfs")
    );
    let xfs = fmt_mount("/srv", "xfs", "/dev/sdc1", true);
    assert_eq!(xfs[1].action, Action::Install(vec!["xfsprogs".to_string()]));
    let ext4 = fmt_mount("/srv", "ext4", "/dev/sdc1", true);
    assert_eq!(
        ext4[1],
        run("mkfs.ext4", &["-F", "/dev/sdc1"], Policy::Fatal, "format /dev/sdc1 as ext4")
    );
}

#[test]
fn fmt_mount_flags_only_boot_mountpoints() {
    let boot = fmt_mount("/boot", "fat32", "/dev/sda1", true);
    let n = boot.len();
    assert_eq!(
        boot[n - 2],
        failing(
            plain(
                Action::CheckPath("/dev/sda".to_string()),
                Policy::Warn,
                "find device /dev/sda of /dev/sda1"
            ),
            Failure::BootFlagFailed
        )
    );
    assert_eq!(
        boot[n - 1],
        failing(
            only(
                run(
                    "parted",
                    &["-s", "/dev/sda", "set", "1", "esp", "on"],
                    Policy::Warn,
                    "set 'esp' flag on /dev/sda1"
                ),
                Condition::IfSucceeded
            ),
            Failure::BootFlagFailed
        )
    );
    let staged = fmt_mount("/mnt/boot", "ext4", "/dev/sda1", false);
    assert!(staged.iter().any(|s| matches!(&s.action,
        Action::Run(i) if i.program == "parted" && i.args[4] == "boot")));
    let efi = fmt_mount("/boot/efi", "fat32", "/dev/sda1", true);
    assert!(!efi.iter().any(|s| matches!(&s.action, Action::Run(i) if i.program == "parted")));
}

#[test]
fn try_set_rejects_malformed_partition_numbers() {
    assert_eq!(BootFlags::try_set("/dev/nvme0n1p", true), None);
    assert_eq!(BootFlags::try_set("/dev/mapper/mmcblk-part", false), None);
    let plan = fmt_mount("/boot", "ext4", "/dev/nvme0n1p", true);
    assert!(!plan.iter().any(|s| matches!(&s.action, Action::Run(i) if i.program == "parted")));
    assert!(plan.iter().any(|s| matches!(&s.action, Action::Run(i) if i.program == "mount")));
    assert_eq!(
        plan.last().unwrap(),
        &plain(
            Action::Warn,
            Policy::Ignore,
            "Cannot set boot flags on /dev/nvme0n1p: invalid partition format"
        )
    );
    let (_, end) = simulate(&plan, &|_| Outcome::Success);
    assert_eq!(end, Directive::Finished);
}

#[test]
fn a_name_without_partition_number_is_warned_of() {
    assert!(DeviceParser::lacks_partition_number("/dev/sda"));
    assert!(DeviceParser::lacks_partition_number("/dev/nvme0n1"));
    assert!(DeviceParser::lacks_partition_number(""));
    assert!(!DeviceParser::lacks_partition_number("/dev/sda1"));
    assert!(!DeviceParser::lacks_partition_number("/dev/nvme0n1p1"));
    assert!(!DeviceParser::lacks_partition_number("/dev/nvme0n1p"));
    assert!(DeviceParser::parse_warning("/dev/sda7").is_empty());
    assert_eq!(
        DeviceParser::parse_warning("/dev/sda"),
        vec![plain(
            Action::Warn,
            Policy::Ignore,
            "No partition number found in /dev/sda, assuming partition 1"
        )]
    );
    assert_eq!(
        DeviceParser::parse_warning("/dev/mmcblk0"),
        vec![plain(
            Action::Warn,
            Policy::Ignore,
            "Could not parse NVMe/MMC device partition: /dev/mmcblk0"
        )]
    );
    let plan = BootFlags::try_set("/dev/sda", true).unwrap();
    assert_eq!(plan.len(), 3);
    assert_eq!(plan[0], DeviceParser::parse_warning("/dev/sda")[0]);
    assert_eq!(plan[1].action, Action::CheckPath("/dev/sda".to_string()));
    let strict = BootFlags::set("/dev/sda", false);
    assert_eq!(strict.len(), 2);
    assert_eq!(strict[0].action, Action::Warn);
    assert_eq!(
        strict[1],
        failing(
            run(
                "parted",
                &["-s", "/dev/sda", "set", "1", "boot", "on"],
                Policy::Fatal,
                "set boot flag on boot partition"
            ),
            Failure::BootFlagFailed
        )
    );
}

#[test]
fn try_set_never_ends_the_run() {
    let plan = BootFlags::try_set("/dev/sda3", false).unwrap();
    assert_eq!(plan.len(), 2);
    // the device is missing: the tool is not started, the run goes on
    let (performed, end) = simulate(&plan, &|_| Outcome::Failure(None));
    assert_eq!(performed, vec![0]);
    assert_eq!(end, Directive::Finished);
    // the tool cannot be started: the run goes on all the same
    let (performed, end) = simulate(&plan, &|action| match action {
        Action::CheckPath(_) => Outcome::Success,
        _ => Outcome::Error(Some(2)),
    });
    assert_eq!(performed, vec![0, 1]);
    assert_eq!(end, Directive::Finished);
}

#[test]
fn strict_set_stops_on_malformed_number_and_on_host_error() {
    let bad = BootFlags::set("/dev/nvme0n1px", true);
    assert_eq!(
        bad,
        vec![failing(
            plain(
                Action::Stop,
                Policy::Crash,
                "Cannot set boot flags: invalid partition number 'x' for /dev/nvme0n1px"
            ),
            Failure::BootFlagFailed
        )]
    );
    let good = BootFlags::set("/dev/mmcblk0p2", false);
    assert_eq!(
        good,
        vec![failing(
            run(
                "parted",
                &["-s", "/dev/mmcblk0", "set", "2", "boot", "on"],
                Policy::Fatal,
                "set boot flag on boot partition"
            ),
            Failure::BootFlagFailed
        )]
    );
    let (_, end) = simulate(&good, &|_| Outcome::Error(Some(13)));
    assert_eq!(end, Directive::Abort { step: 0, code: 13 });
    let (_, end) = simulate(&good, &|_| Outcome::Error(None));
    assert_eq!(end, Directive::Abort { step: 0, code: -1 });
    let (_, end) = simulate(&good, &|_| Outcome::Failure(Some(3)));
    assert_eq!(end, Directive::Abort { step: 0, code: 3 });
    let (_, end) = simulate(&good, &|_| Outcome::Failure(None));
    assert_eq!(end, Directive::Abort { step: 0, code: -1 });
    assert_eq!(BootFlags::set_auto_flags("/dev/sda", true), BootFlags::set("/dev/sda1", true));
}

#[test]
fn mount_passes_options_after_dash_o() {
    let plan = mount("/dev/sda2", "/mnt", "noatime,compress=zstd");
    assert_eq!(plan.len(), 5);
    assert_eq!(
        plan[4],
        run(
            "mount",
            &["/dev/sda2", "/mnt", "-o", "noatime,compress=zstd"],
            Policy::Fatal,
            "mount /dev/sda2 with options noatime,compress=zstd at /mnt"
        )
    );
    assert_eq!(mount("/dev/sda2", "/mnt", ""), mount_steps("/dev/sda2", "/mnt"));
}

#[test]
fn mount_unmounts_what_is_mounted_and_makes_what_is_missing() {
    let plan = mount("/dev/sda2", "/mnt", "");
    let (performed, _) = simulate(&plan, &|action| match action {
        Action::CheckPath(_) => Outcome::Failure(None),
        _ => Outcome::Success,
    });
    assert_eq!(performed, vec![0, 1, 2, 3, 4]);
    let (_, end) = simulate(&plan, &|action| match action {
        Action::CheckPath(_) => Outcome::Failure(None),
        Action::CreateDirectory(_) => Outcome::Error(Some(30)),
        _ => Outcome::Success,
    });
    assert_eq!(end, Directive::Abort { step: 1, code: 1 });
}

#[test]
fn a_failing_format_or_mount_ends_the_run() {
    let mut none: Vec<Partition> = Vec::new();
    let plan = partition("/dev/sda", PartitionMode::Auto, true, &mut none);
    // the filesystem of the boot partition cannot be made: nothing is mounted
    let (performed, end) = simulate(&plan, &|action| match action {
        Action::Run(i) if i.program == "mkfs.fat" => Outcome::Failure(Some(8)),
        Action::Run(i) if i.program == "mountpoint" => Outcome::Failure(Some(1)),
        _ => Outcome::Success,
    });
    assert_eq!(end, Directive::Abort { step: 12, code: 8 });
    assert_eq!(performed.last(), Some(&12));
    // the root partition cannot be mounted: the boot partition is left alone
    let (performed, end) = simulate(&plan, &|action| match action {
        Action::Run(i) if i.program == "mount" => Outcome::Failure(Some(32)),
        Action::Run(i) if i.program == "mountpoint" => Outcome::Failure(Some(1)),
        _ => Outcome::Success,
    });
    assert_eq!(end, Directive::Abort { step: 19, code: 32 });
    assert!(!performed.contains(&25));
    // what is done as far as it goes may fail
    let (_, end) = simulate(&plan, &|action| match action {
        Action::Run(i) if i.program == "umount" => Outcome::Failure(Some(32)),
        Action::Run(i) if i.program == "mountpoint" => Outcome::Success,
        _ => Outcome::Success,
    });
    assert_eq!(end, Directive::Finished);
}

#[test]
fn umount_is_one_fatal_step() {
    assert_eq!(
        umount("/mnt/dev"),
        vec![run("umount", &["/mnt/dev"], Policy::Fatal, "unmount /mnt/dev")]
    );
}

#[test]
fn cleanup_unmounts_the_staging_tree_from_the_leaves() {
    assert_eq!(MountManager::cleanup(), cleanup_steps());
    let (performed, end) = simulate(&MountManager::cleanup(), &|_| Outcome::Error(Some(1)));
    assert_eq!(performed.len(), 5);
    assert_eq!(end, Directive::Finished);
}

#[test]
fn partition_tables_have_fixed_geometry() {
    let gpt = PartitionTable::create_gpt("/dev/sda");
    assert_eq!(gpt.len(), 3);
    let mbr = PartitionTable::create_mbr("/dev/sda");
    assert_eq!(mbr.len(), 4);
    assert_eq!(
        mbr[2],
        run(
            "parted",
            &["-s", "/dev/sda", "set", "1", "boot", "on"],
            Policy::Fatal,
            "mark boot partition"
        )
    );
    let create = PartitionTable::create("/dev/sda", false);
    assert_eq!(create[0], run("umount", &["/dev/sda"], Policy::Ignore, "unmount /dev/sda"));
    assert_eq!(create[1..], mbr[..]);
}

#[test]
fn formatter_leaves_noformat_alone() {
    assert!(FilesystemFormatter::format("/dev/sda1", &FilesystemType::NoFormat).is_empty());
    assert_eq!(
        FilesystemFormatter::format("/dev/sda1", &FilesystemType::Xfs),
        vec![run("mkfs.xfs", &["-f", "/dev/sda1"], Policy::Fatal, "format /dev/sda1 as xfs")]
    );
    let boot = FilesystemFormatter::format_auto_partition("/dev/sda1", true, true);
    assert_eq!(boot.len(), 2);
    assert!(matches!(&boot[1].action, Action::Run(i) if i.program == "mkfs.fat"));
    for (is_boot, efi) in [(true, false), (false, true), (false, false)] {
        let other = FilesystemFormatter::format_auto_partition("/dev/sda1", is_boot, efi);
        assert!(matches!(&other[1].action, Action::Run(i) if i.program == "mkfs.ext4"));
    }
}

#[test]
fn filesystem_type_tables() {
    assert_eq!(FilesystemType::Ext4.command(), "mkfs.ext4");
    assert_eq!(FilesystemType::Fat32.command(), "mkfs.fat");
    assert_eq!(FilesystemType::Btrfs.command(), "mkfs.btrfs");
    assert_eq!(FilesystemType::Xfs.command(), "mkfs.xfs");
    assert_eq!(FilesystemType::Ext4.args(), vec!["-F"]);
    assert_eq!(FilesystemType::Fat32.args(), vec!["-F32"]);
    assert_eq!(FilesystemType::Btrfs.args(), vec!["-f"]);
    assert_eq!(FilesystemType::Xfs.args(), vec!["-f"]);
    assert_eq!(FilesystemType::Btrfs.packages(), vec!["btrfs-progs"]);
    assert_eq!(FilesystemType::Xfs.packages(), vec!["xfsprogs"]);
    assert!(FilesystemType::Ext4.packages().is_empty());
    assert!(FilesystemType::Fat32.packages().is_empty());
    assert!(FilesystemType::NoFormat.packages().is_empty());
    assert!(!FilesystemType::NoFormat.needs_formatting());
    assert!(FilesystemType::Ext4.needs_formatting());
    for fs in [
        FilesystemType::Ext4,
        FilesystemType::Fat32,
        FilesystemType::Btrfs,
        FilesystemType::Xfs,
        FilesystemType::NoFormat,
    ] {
        assert_eq!(FilesystemType::from_str(fs.display_name()), Some(fs));
        assert_eq!(FilesystemType::from_str(&fs.display_name().to_uppercase()), Some(fs));
    }
    assert_eq!(FilesystemType::from_str("don't format"), Some(FilesystemType::NoFormat));
    assert_eq!(FilesystemType::from_str(""), None);
    assert_eq!(FilesystemType::from_str("ext4 "), None);
}

#[test]
fn device_names_of_every_convention() {
    let parse = |s: &str| {
        let (a, b) = DeviceParser::parse(s);
        (a, b)
    };
    assert_eq!(parse("/dev/sda1"), ("/dev/sda".to_string(), "1".to_string()));
    assert_eq!(parse("/dev/vdb3"), ("/dev/vdb".to_string(), "3".to_string()));
    assert_eq!(parse("/dev/nvme0n1p1"), ("/dev/nvme0n1".to_string(), "1".to_string()));
    assert_eq!(parse("/dev/mmcblk0p12"), ("/dev/mmcblk0".to_string(), "12".to_string()));
    assert_eq!(parse("/dev/nvme0n1"), ("/dev/nvme0n1".to_string(), "1".to_string()));
    assert_eq!(parse("/dev/mmcblk0"), ("/dev/mmcblk0".to_string(), "1".to_string()));
    assert_eq!(parse("/dev/nvme0n1p"), ("/dev/nvme0n1".to_string(), "".to_string()));
    assert_eq!(parse(""), ("".to_string(), "1".to_string()));
    assert_eq!(parse("42"), ("".to_string(), "42".to_string()));
    assert!(DeviceParser::is_nvme_or_mmc("/dev/nvme1n1"));
    assert!(DeviceParser::is_nvme_or_mmc("/dev/mmcblk1"));
    assert!(!DeviceParser::is_nvme_or_mmc("/dev/sda"));
    assert_eq!(
        DeviceParser::get_partition_names("/dev/sda", &[1, 2]),
        vec!["/dev/sda1", "/dev/sda2"]
    );
    assert_eq!(
        DeviceParser::get_partition_names("/dev/nvme0n1", &[1, 2, 13, 255, 0]),
        vec![
            "/dev/nvme0n1p1",
            "/dev/nvme0n1p2",
            "/dev/nvme0n1p13",
            "/dev/nvme0n1p255",
            "/dev/nvme0n1p0"
        ]
    );
    assert!(DeviceParser::get_partition_names("/dev/sda", &[]).is_empty());
}

#[test]
fn format_and_mount_auto_is_the_tail_of_auto_mode() {
    let mut none: Vec<Partition> = Vec::new();
    let whole = partition("/dev/sda", PartitionMode::Auto, false, &mut none);
    let tail = format_and_mount_auto("/dev/sda", false);
    assert_eq!(whole[whole.len() - tail.len()..], tail[..]);
}
