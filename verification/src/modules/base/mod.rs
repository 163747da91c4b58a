//! The base system: packages, keyring, file system table, memory compression.

pub mod grub;
pub mod nvidia;

use crate::script::{
    conditional, extend, plain_step, push_step, warning, ActionView, Condition, Policy, Step,
    StepView,
};
use crate::text::{concat2, concat3, decimal, decimal_string, str_equal, views};
use crate::utils::exec::{
    chroot_step, exec_chroot, host_step, run_in_chroot, run_on_host, spec_exec_chroot,
};
use crate::utils::files::{copy_file, create_directory, write_file};
use crate::utils::install::{
    default_config, install, install_base, spec_install, spec_install_base,
};
use vstd::prelude::*;
use vstd::string::*;

verus! {

/// The kernels that can be asked for by name.
pub open spec fn supported_kernel(kernel: Seq<char>) -> bool {
    kernel == "linux-cachyos"@ || kernel == "linux616-tkg-bore"@ || kernel == "linux-zen"@
        || kernel == "linux"@
}

/// The kernel that is installed: the one asked for if it is supported, the
/// default for every other name and for none.
pub open spec fn chosen_kernel(kernel: Seq<char>) -> Seq<char> {
    if supported_kernel(kernel) {
        kernel
    } else {
        "linux-cachyos"@
    }
}

/// The warning for a kernel that was asked for by a name that is not
/// supported; nothing for a supported name or none.
pub open spec fn kernel_warning(kernel: Seq<char>) -> Seq<StepView> {
    if kernel.len() > 0 && !supported_kernel(kernel) {
        seq![warning("Unknown kernel: "@ + kernel + ", using linux-cachyos instead"@)]
    } else {
        Seq::empty()
    }
}

/// The packages of every installation, without the kernel.
pub open spec fn base_packages() -> Seq<Seq<char>> {
    seq![
        "base"@,
        "cachyos-ananicy-rules-git"@,
        "linux-firmware"@,
        "nano"@,
        "sudo"@,
        "curl"@,
        "wget"@,
        "openssh"@,
        "iptables"@,
        "prism"@,
        "prismlinux"@,
        "prismlinux-themes-fish"@,
        "btrfs-progs"@,
        "xfsprogs"@,
        "ttf-liberation"@,
        "bash"@,
        "bash-completion"@,
        "glibc-locales"@,
        "fwupd"@,
        "unzip"@,
        "archlinux-keyring"@,
        "archlinuxcn-keyring"@,
        "chaotic-keyring"@,
        "chaotic-mirrorlist"@,
    ]
}

/// The configuration directory is made, the base packages, the kernel and
/// its headers are installed, the package manager's configuration is copied.
/// Only the installation can end the run.
pub open spec fn spec_install_base_packages(kernel: Seq<char>) -> Seq<StepView> {
    let kernel_pkg = chosen_kernel(kernel);
    seq![
        plain_step(ActionView::CreateDirectory("/mnt/etc"@), Policy::Warn, "create /mnt/etc"@),
    ] + kernel_warning(kernel) + spec_install_base(
        base_packages() + seq![kernel_pkg, kernel_pkg + "-headers"@],
        default_config(),
    ) + seq![
        plain_step(
            ActionView::CopyFile { source: "/etc/pacman.conf"@, destination: "/mnt/etc/pacman.conf"@ },
            Policy::Warn,
            "copy pacman.conf"@,
        ),
    ]
}

/// The key tool must be there and must initialise and populate the keyring;
/// the refresh that follows may fail.
pub open spec fn spec_setup_archlinux_keyring() -> Seq<StepView> {
    seq![
        plain_step(
            ActionView::Run(spec_exec_chroot("which"@, seq!["pacman-key"@])),
            Policy::Crash,
            "pacman-key not found in chroot environment. Base packages may not be installed properly."@,
        ),
        plain_step(
            ActionView::Run(spec_exec_chroot("pacman-key"@, seq!["--init"@])),
            Policy::Crash,
            "Initialize pacman keyring"@,
        ),
        plain_step(
            ActionView::Run(spec_exec_chroot("pacman-key"@, seq!["--populate"@])),
            Policy::Crash,
            "Populate pacman keyring"@,
        ),
        plain_step(
            ActionView::Run(spec_exec_chroot("pacman"@, seq!["-Sy"@, "--noconfirm"@])),
            Policy::Warn,
            "Refresh keyring"@,
        ),
    ]
}

/// One shell line that writes the file system table of the staging root.
pub open spec fn spec_genfstab() -> Seq<StepView> {
    seq![
        host_step(
            "bash"@,
            seq!["-c"@, "genfstab -U /mnt >> /mnt/etc/fstab"@],
            "Generate fstab"@,
        ),
    ]
}

/// The configuration of the memory compression: a fixed rule for size 0, the
/// size itself for every other.
pub open spec fn zram_config(size: u64) -> Seq<char> {
    if size == 0 {
        "[zram0]\nzram-size = min(ram / 2, 4096)\ncompression-algorithm = zstd"@
    } else {
        "[zram0]\nzram-size = "@ + decimal(size as nat) + "\ncompression-algorithm = zstd"@
    }
}

/// The generator is installed; its configuration is written if its directory
/// could be made. Only the installation can end the run.
pub open spec fn spec_install_zram(size: u64) -> Seq<StepView> {
    spec_install(seq!["zram-generator"@], default_config()) + seq![
        plain_step(
            ActionView::CreateDirectory("/mnt/etc/systemd"@),
            Policy::Warn,
            "create systemd directory"@,
        ),
        conditional(
            plain_step(
                ActionView::WriteFile {
                    path: "/mnt/etc/systemd/zram-generator.conf"@,
                    content: zram_config(size),
                },
                Policy::Warn,
                "write zram config"@,
            ),
            Condition::IfSucceeded,
        ),
    ]
}

/// The home manager's package.
pub open spec fn spec_install_homemgr() -> Seq<StepView> {
    spec_install(seq!["nix"@], default_config())
}

/// The package, then the remote that applications come from.
pub open spec fn spec_install_flatpak() -> Seq<StepView> {
    spec_install(seq!["flatpak"@], default_config()) + seq![
        chroot_step(
            "flatpak"@,
            seq![
                "remote-add"@,
                "--if-not-exists"@,
                "flathub"@,
                "https://flathub.org/repo/flathub.flatpakrepo"@,
            ],
            "add flathub remote"@,
        ),
    ]
}

/// Whether `kernel` names a kernel that can be installed.
fn kernel_is_supported(kernel: &str) -> (r: bool)
    ensures
        r == supported_kernel(kernel@),
{
    str_equal(kernel, "linux-cachyos") || str_equal(kernel, "linux616-tkg-bore") || str_equal(
        kernel,
        "linux-zen",
    ) || str_equal(kernel, "linux")
}

/// The kernel package for the name that was asked for.
fn kernel_package(kernel: &str) -> (r: &str)
    ensures
        r@ == chosen_kernel(kernel@),
{
    if str_equal(kernel, "linux-cachyos") || str_equal(kernel, "linux616-tkg-bore") || str_equal(
        kernel,
        "linux-zen",
    ) || str_equal(kernel, "linux") {
        kernel
    } else {
        "linux-cachyos"
    }
}

/// Installs the base packages and the kernel `kernel` into the staging root.
pub fn install_base_packages(kernel: &str) -> (plan: Vec<Step>)
    ensures
        plan.deep_view() == spec_install_base_packages(kernel@),
{
    let mut plan: Vec<Step> = Vec::new();
    push_step(
        &mut plan,
        Step::new(create_directory("/mnt/etc"), Policy::Warn, String::from_str("create /mnt/etc")),
    );
    if !kernel.is_empty() && !kernel_is_supported(kernel) {
        push_step(
            &mut plan,
            Step::warning(concat3("Unknown kernel: ", kernel, ", using linux-cachyos instead")),
        );
    }
    assert(plan.deep_view() =~= seq![
        plain_step(ActionView::CreateDirectory("/mnt/etc"@), Policy::Warn, "create /mnt/etc"@),
    ] + kernel_warning(kernel@));
    let kernel_pkg = kernel_package(kernel);
    let headers = concat2(kernel_pkg, "-headers");
    let mut packages: Vec<&str> = vec![
        "base",
        "cachyos-ananicy-rules-git",
        "linux-firmware",
        "nano",
        "sudo",
        "curl",
        "wget",
        "openssh",
        "iptables",
        "prism",
        "prismlinux",
        "prismlinux-themes-fish",
        "btrfs-progs",
        "xfsprogs",
        "ttf-liberation",
        "bash",
        "bash-completion",
        "glibc-locales",
        "fwupd",
        "unzip",
        "archlinux-keyring",
        "archlinuxcn-keyring",
        "chaotic-keyring",
        "chaotic-mirrorlist",
    ];
    assert(views(packages@) =~= base_packages());
    packages.push(kernel_pkg);
    packages.push(headers.as_str());
    assert(views(packages@) =~= base_packages() + seq![
        chosen_kernel(kernel@),
        chosen_kernel(kernel@) + "-headers"@,
    ]);
    extend(&mut plan, install_base(packages.as_slice()));
    push_step(
        &mut plan,
        Step::new(
            copy_file("/etc/pacman.conf", "/mnt/etc/pacman.conf"),
            Policy::Warn,
            String::from_str("copy pacman.conf"),
        ),
    );
    assert(plan.deep_view() =~= spec_install_base_packages(kernel@));
    plan
}

/// One step of the keyring set-up.
fn keyring_step(command: &str, args: &[&str], policy: Policy, description: &str) -> (r: Step)
    ensures
        r@ == plain_step(
            ActionView::Run(spec_exec_chroot(command@, views(args@))),
            policy,
            description@,
        ),
{
    Step::new(
        crate::script::Action::Run(exec_chroot(command, args)),
        policy,
        String::from_str(description),
    )
}

/// Sets up the package manager's keyring inside the new system.
pub fn setup_archlinux_keyring() -> (plan: Vec<Step>)
    ensures
        plan.deep_view() == spec_setup_archlinux_keyring(),
{
    let mut plan: Vec<Step> = Vec::new();
    let tool = ["pacman-key"];
    assert(views(tool@) =~= seq!["pacman-key"@]);
    push_step(
        &mut plan,
        keyring_step(
            "which",
            &tool,
            Policy::Crash,
            "pacman-key not found in chroot environment. Base packages may not be installed properly.",
        ),
    );
    let init = ["--init"];
    assert(views(init@) =~= seq!["--init"@]);
    push_step(
        &mut plan,
        keyring_step("pacman-key", &init, Policy::Crash, "Initialize pacman keyring"),
    );
    let populate = ["--populate"];
    assert(views(populate@) =~= seq!["--populate"@]);
    push_step(
        &mut plan,
        keyring_step("pacman-key", &populate, Policy::Crash, "Populate pacman keyring"),
    );
    let refresh = ["-Sy", "--noconfirm"];
    assert(views(refresh@) =~= seq!["-Sy"@, "--noconfirm"@]);
    push_step(&mut plan, keyring_step("pacman", &refresh, Policy::Warn, "Refresh keyring"));
    assert(plan.deep_view() =~= spec_setup_archlinux_keyring());
    plan
}

/// Writes the file system table of the new system.
pub fn genfstab() -> (plan: Vec<Step>)
    ensures
        plan.deep_view() == spec_genfstab(),
{
    let mut plan: Vec<Step> = Vec::new();
    let args = ["-c", "genfstab -U /mnt >> /mnt/etc/fstab"];
    assert(views(args@) =~= seq!["-c"@, "genfstab -U /mnt >> /mnt/etc/fstab"@]);
    push_step(&mut plan, run_on_host("bash", &args, "Generate fstab"));
    assert(plan.deep_view() =~= spec_genfstab());
    plan
}

/// Nothing of the live system's configuration is carried over.
pub fn copy_live_config() -> (plan: Vec<Step>)
    ensures
        plan.deep_view() == Seq::<StepView>::empty(),
{
    let plan: Vec<Step> = Vec::new();
    assert(plan.deep_view() =~= Seq::<StepView>::empty());
    plan
}

/// Installs memory compression of `size` megabytes; size 0 lets the
/// generator choose.
pub fn install_zram(size: u64) -> (plan: Vec<Step>)
    ensures
        plan.deep_view() == spec_install_zram(size),
{
    let package = ["zram-generator"];
    assert(views(package@) =~= seq!["zram-generator"@]);
    let mut plan = install(&package);
    push_step(
        &mut plan,
        Step::new(
            create_directory("/mnt/etc/systemd"),
            Policy::Warn,
            String::from_str("create systemd directory"),
        ),
    );
    let zram_config = if size == 0 {
        String::from_str("[zram0]\nzram-size = min(ram / 2, 4096)\ncompression-algorithm = zstd")
    } else {
        String::from_str("[zram0]\nzram-size = ").concat(decimal_string(size).as_str()).concat(
            "\ncompression-algorithm = zstd",
        )
    };
    push_step(
        &mut plan,
        Step::new(
            write_file("/mnt/etc/systemd/zram-generator.conf", zram_config.as_str()),
            Policy::Warn,
            String::from_str("write zram config"),
        ).only(Condition::IfSucceeded),
    );
    assert(plan.deep_view() =~= spec_install_zram(size));
    plan
}

/// Installs the home manager.
pub fn install_homemgr() -> (plan: Vec<Step>)
    ensures
        plan.deep_view() == spec_install_homemgr(),
{
    let package = ["nix"];
    assert(views(package@) =~= seq!["nix"@]);
    install(&package)
}

/// Installs Flatpak and adds its main remote.
pub fn install_flatpak() -> (plan: Vec<Step>)
    ensures
        plan.deep_view() == spec_install_flatpak(),
{
    let package = ["flatpak"];
    assert(views(package@) =~= seq!["flatpak"@]);
    let mut plan = install(&package);
    let args = [
        "remote-add",
        "--if-not-exists",
        "flathub",
        "https://flathub.org/repo/flathub.flatpakrepo",
    ];
    assert(views(args@) =~= seq![
        "remote-add"@,
        "--if-not-exists"@,
        "flathub"@,
        "https://flathub.org/repo/flathub.flatpakrepo"@,
    ]);
    push_step(&mut plan, run_in_chroot("flatpak", &args, "add flathub remote"));
    assert(plan.deep_view() =~= spec_install_flatpak());
    plan
}

} // verus!
