//! The boot loader.

use crate::script::{extend, plain_step, push_step, ActionView, Policy, Step, StepView};
use crate::text::{concat2, concat3, to_chars, views};
use crate::utils::exec::{chroot_step, run_in_chroot};
use crate::utils::files::{path_exists, sed_file};
use crate::utils::install::{default_config, install, spec_install};
use vstd::prelude::*;
use vstd::string::*;

verus! {

/// The packages of the boot loader under UEFI.
pub open spec fn grub_packages() -> Seq<Seq<char>> {
    seq!["prismlinux/grub"@, "efibootmgr"@, "prismlinux-themes-grub"@, "os-prober"@]
}

/// The packages of the boot loader under BIOS.
pub open spec fn grub_legacy_packages() -> Seq<Seq<char>> {
    seq!["prismlinux/grub"@, "prismlinux-themes-grub"@, "os-prober"@]
}

/// The theme is switched on in the defaults, then the configuration is
/// generated.
pub open spec fn spec_configure_grub_theme_and_config() -> Seq<StepView> {
    seq![
        plain_step(
            ActionView::ReplaceInFile {
                path: "/mnt/etc/default/grub"@,
                find: "#GRUB_THEME=\"/path/to/theme.txt\""@,
                replace: "GRUB_THEME=\"/usr/share/grub/themes/prismlinux/theme.txt\""@,
            },
            Policy::Fatal,
            "Enable Grub Theme"@,
        ),
        chroot_step("grub-mkconfig"@, seq!["-o"@, "/boot/grub/grub.cfg"@], "Create grub.cfg"@),
    ]
}

/// The directory must exist under the staging root.
pub open spec fn spec_validate_efi_directory(efi_path: Seq<char>) -> StepView {
    plain_step(
        ActionView::CheckPath("/mnt"@ + efi_path),
        Policy::Crash,
        "The efidir "@ + efi_path + " doesn't exist"@,
    )
}

/// The boot loader under its own name.
pub open spec fn spec_install_main_efi_bootloader(efi_str: Seq<char>) -> StepView {
    chroot_step(
        "grub-install"@,
        seq![
            "--target=x86_64-efi"@,
            "--efi-directory="@ + efi_str,
            "--bootloader-id=PrismLinux"@,
            "--recheck"@,
        ],
        "install grub as efi with proper boot entry"@,
    )
}

/// The boot loader once more, where firmware looks for it by default.
pub open spec fn spec_install_fallback_efi_bootloader(efi_str: Seq<char>) -> StepView {
    chroot_step(
        "grub-install"@,
        seq![
            "--target=x86_64-efi"@,
            "--efi-directory="@ + efi_str,
            "--bootloader-id=PrismLinux-fallback"@,
            "--removable"@,
            "--recheck"@,
        ],
        "install grub as fallback efi bootloader"@,
    )
}

/// The new entry is put first in the firmware's boot order.
pub open spec fn spec_set_default_boot_entry() -> StepView {
    chroot_step(
        "sh"@,
        seq![
            "-c"@,
            "efibootmgr | grep 'PrismLinux' | head -1 | cut -c5-8 | xargs -I {} efibootmgr --bootorder {}"@,
        ],
        "Set default boot entry"@,
    )
}

/// The boot loader in the boot sector of `device`.
pub open spec fn spec_install_legacy_grub(device: Seq<char>) -> StepView {
    chroot_step(
        "grub-install"@,
        seq!["--target=i386-pc"@, "--recheck"@, device],
        "install grub as legacy"@,
    )
}

/// A path taken from the staging root: an absolute path stands for itself,
/// any other is put under the root.
pub open spec fn under_staging_root(path: Seq<char>) -> Seq<char> {
    if path.len() > 0 && path[0] == '/' {
        path
    } else {
        "/mnt/"@ + path
    }
}

/// Packages, the directory's existence, both boot loaders, theme and
/// configuration, boot order.
pub open spec fn spec_install_bootloader_efi(efidir: Seq<char>) -> Seq<StepView> {
    let efi_str = under_staging_root(efidir);
    spec_install(grub_packages(), default_config()) + seq![
        spec_validate_efi_directory(efi_str),
        spec_install_main_efi_bootloader(efi_str),
        spec_install_fallback_efi_bootloader(efi_str),
    ] + spec_configure_grub_theme_and_config() + seq![spec_set_default_boot_entry()]
}

/// Packages, the device's existence, the boot loader, theme and configuration.
pub open spec fn spec_install_bootloader_legacy(device: Seq<char>) -> Seq<StepView> {
    spec_install(grub_legacy_packages(), default_config()) + seq![
        plain_step(
            ActionView::CheckPath(device),
            Policy::Crash,
            "The device "@ + device + " does not exist"@,
        ),
        spec_install_legacy_grub(device),
    ] + spec_configure_grub_theme_and_config()
}

/// Applies the theme and generates the boot loader's configuration.
pub fn configure_grub_theme_and_config() -> (plan: Vec<Step>)
    ensures
        plan.deep_view() == spec_configure_grub_theme_and_config(),
{
    let mut plan: Vec<Step> = Vec::new();
    push_step(
        &mut plan,
        Step::file(
            sed_file(
                "/mnt/etc/default/grub",
                "#GRUB_THEME=\"/path/to/theme.txt\"",
                "GRUB_THEME=\"/usr/share/grub/themes/prismlinux/theme.txt\"",
            ),
            "Enable Grub Theme",
        ),
    );
    let args = ["-o", "/boot/grub/grub.cfg"];
    assert(views(args@) =~= seq!["-o"@, "/boot/grub/grub.cfg"@]);
    push_step(&mut plan, run_in_chroot("grub-mkconfig", &args, "Create grub.cfg"));
    assert(plan.deep_view() =~= spec_configure_grub_theme_and_config());
    plan
}

/// Ends the run if the directory `efi_path` is missing under the staging root.
pub fn validate_efi_directory(efi_path: &str) -> (r: Step)
    ensures
        r@ == spec_validate_efi_directory(efi_path@),
{
    Step::new(
        path_exists(concat2("/mnt", efi_path).as_str()),
        Policy::Crash,
        concat3("The efidir ", efi_path, " doesn't exist"),
    )
}

/// Installs the boot loader with an entry of its own.
pub fn install_main_efi_bootloader(efi_str: &str) -> (r: Step)
    ensures
        r@ == spec_install_main_efi_bootloader(efi_str@),
{
    let directory = concat2("--efi-directory=", efi_str);
    let args = [
        "--target=x86_64-efi",
        directory.as_str(),
        "--bootloader-id=PrismLinux",
        "--recheck",
    ];
    assert(views(args@) =~= seq![
        "--target=x86_64-efi"@,
        "--efi-directory="@ + efi_str@,
        "--bootloader-id=PrismLinux"@,
        "--recheck"@,
    ]);
    run_in_chroot("grub-install", &args, "install grub as efi with proper boot entry")
}

/// Installs the boot loader where firmware looks when it knows no entry.
pub fn install_fallback_efi_bootloader(efi_str: &str) -> (r: Step)
    ensures
        r@ == spec_install_fallback_efi_bootloader(efi_str@),
{
    let directory = concat2("--efi-directory=", efi_str);
    let args = [
        "--target=x86_64-efi",
        directory.as_str(),
        "--bootloader-id=PrismLinux-fallback",
        "--removable",
        "--recheck",
    ];
    assert(views(args@) =~= seq![
        "--target=x86_64-efi"@,
        "--efi-directory="@ + efi_str@,
        "--bootloader-id=PrismLinux-fallback"@,
        "--removable"@,
        "--recheck"@,
    ]);
    run_in_chroot("grub-install", &args, "install grub as fallback efi bootloader")
}

/// Puts the new entry first in the boot order.
pub fn set_default_boot_entry() -> (r: Step)
    ensures
        r@ == spec_set_default_boot_entry(),
{
    let args = [
        "-c",
        "efibootmgr | grep 'PrismLinux' | head -1 | cut -c5-8 | xargs -I {} efibootmgr --bootorder {}",
    ];
    assert(views(args@) =~= seq![
        "-c"@,
        "efibootmgr | grep 'PrismLinux' | head -1 | cut -c5-8 | xargs -I {} efibootmgr --bootorder {}"@,
    ]);
    run_in_chroot("sh", &args, "Set default boot entry")
}

/// Installs the boot loader for BIOS on `device`.
pub fn install_legacy_grub(device: &str) -> (r: Step)
    ensures
        r@ == spec_install_legacy_grub(device@),
{
    let args = ["--target=i386-pc", "--recheck", device];
    assert(views(args@) =~= seq!["--target=i386-pc"@, "--recheck"@, device@]);
    run_in_chroot("grub-install", &args, "install grub as legacy")
}

/// `path` taken from the staging root.
fn join_staging_root(path: &str) -> (r: String)
    ensures
        r@ == under_staging_root(path@),
{
    let chars = to_chars(path);
    if chars.len() > 0 && chars[0] == '/' {
        String::from_str(path)
    } else {
        concat2("/mnt/", path)
    }
}

/// Installs the boot loader for UEFI, with the system partition at `efidir`.
pub fn install_bootloader_efi(efidir: &str) -> (plan: Vec<Step>)
    ensures
        plan.deep_view() == spec_install_bootloader_efi(efidir@),
{
    let packages = ["prismlinux/grub", "efibootmgr", "prismlinux-themes-grub", "os-prober"];
    assert(views(packages@) =~= grub_packages());
    let mut plan = install(&packages);
    let efi = join_staging_root(efidir);
    let efi_str = efi.as_str();
    push_step(&mut plan, validate_efi_directory(efi_str));
    push_step(&mut plan, install_main_efi_bootloader(efi_str));
    push_step(&mut plan, install_fallback_efi_bootloader(efi_str));
    extend(&mut plan, configure_grub_theme_and_config());
    push_step(&mut plan, set_default_boot_entry());
    assert(plan.deep_view() =~= spec_install_bootloader_efi(efidir@));
    plan
}

/// Installs the boot loader for BIOS on `device`.
pub fn install_bootloader_legacy(device: &str) -> (plan: Vec<Step>)
    ensures
        plan.deep_view() == spec_install_bootloader_legacy(device@),
{
    let packages = ["prismlinux/grub", "prismlinux-themes-grub", "os-prober"];
    assert(views(packages@) =~= grub_legacy_packages());
    let mut plan = install(&packages);
    push_step(
        &mut plan,
        Step::new(
            path_exists(device),
            Policy::Crash,
            concat3("The device ", device, " does not exist"),
        ),
    );
    push_step(&mut plan, install_legacy_grub(device));
    extend(&mut plan, configure_grub_theme_and_config());
    assert(plan.deep_view() =~= spec_install_bootloader_legacy(device@));
    plan
}

} // verus!
