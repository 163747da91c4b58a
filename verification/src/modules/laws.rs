//! What holds of the package lists that the stages install.

use crate::cli::DesktopSetup;
use crate::modules::base::grub::{
    grub_legacy_packages, grub_packages, spec_install_bootloader_efi,
    spec_install_bootloader_legacy,
};
use crate::modules::base::nvidia::NvidiaDriver;
use crate::modules::base::{
    base_packages, chosen_kernel, spec_install_base_packages, spec_install_flatpak,
    spec_install_homemgr, spec_install_zram,
};
use crate::modules::desktops::desktop::common_packages;
use crate::modules::desktops::spec_install_desktop_setup;
use crate::modules::users::{shell_package, spec_new_user};
use crate::script::StepView;
use crate::utils::install::{all_valid, valid_package_name};
use vstd::prelude::*;

verus! {

/// A text without a space that is put behind a valid package name gives a
/// valid package name.
pub proof fn lemma_suffix_keeps_validity(name: Seq<char>, suffix: Seq<char>)
    requires
        valid_package_name(name),
        !suffix.contains(' '),
    ensures
        valid_package_name(name + suffix),
{
    let whole = name + suffix;
    if whole.contains(' ') {
        let i = choose|i: int| 0 <= i < whole.len() && whole[i] == ' ';
        if i < name.len() {
            assert(name[i] == ' ');
            assert(name.contains(' '));
        } else {
            assert(suffix[i - name.len()] == ' ');
            assert(suffix.contains(' '));
        }
    }
    assert(whole[0] == name[0]);
}

/// The kernel that is installed has a valid package name, whatever was
/// asked for, and so have its headers.
pub proof fn lemma_kernel_packages_are_valid(kernel: Seq<char>)
    ensures
        valid_package_name(chosen_kernel(kernel)),
        valid_package_name(chosen_kernel(kernel) + "-headers"@),
{
    reveal_strlit("linux-cachyos");
    reveal_strlit("linux616-tkg-bore");
    reveal_strlit("linux-zen");
    reveal_strlit("linux");
    reveal_strlit("-headers");
    lemma_suffix_keeps_validity(chosen_kernel(kernel), "-headers"@);
}

/// Every package of the base system has a valid name.
pub proof fn lemma_base_packages_are_valid()
    ensures
        all_valid(base_packages()),
{
    reveal_strlit("base");
    reveal_strlit("cachyos-ananicy-rules-git");
    reveal_strlit("linux-firmware");
    reveal_strlit("nano");
    reveal_strlit("sudo");
    reveal_strlit("curl");
    reveal_strlit("wget");
    reveal_strlit("openssh");
    reveal_strlit("iptables");
    reveal_strlit("prism");
    reveal_strlit("prismlinux");
    reveal_strlit("prismlinux-themes-fish");
    reveal_strlit("btrfs-progs");
    reveal_strlit("xfsprogs");
    reveal_strlit("ttf-liberation");
    reveal_strlit("bash");
    reveal_strlit("bash-completion");
    reveal_strlit("glibc-locales");
    reveal_strlit("fwupd");
    reveal_strlit("unzip");
    reveal_strlit("archlinux-keyring");
    reveal_strlit("archlinuxcn-keyring");
    reveal_strlit("chaotic-keyring");
    reveal_strlit("chaotic-mirrorlist");
}

/// Every package of the boot loader has a valid name.
pub proof fn lemma_grub_packages_are_valid()
    ensures
        all_valid(grub_packages()),
        all_valid(grub_legacy_packages()),
{
    reveal_strlit("prismlinux/grub");
    reveal_strlit("efibootmgr");
    reveal_strlit("prismlinux-themes-grub");
    reveal_strlit("os-prober");
}

/// Every package of every driver has a valid name.
pub proof fn lemma_driver_packages_are_valid(driver: NvidiaDriver)
    ensures
        all_valid(driver.spec_packages()),
        driver.spec_packages().len() > 0,
{
    reveal_strlit("dkms");
    reveal_strlit("nvidia-open");
    reveal_strlit("nvidia-open-dkms");
    reveal_strlit("nvidia-utils");
    reveal_strlit("egl-wayland");
    reveal_strlit("nvidia-470xx-dkms");
    reveal_strlit("nvidia-470xx-utils");
    reveal_strlit("nvidia-390xx-dkms");
    reveal_strlit("nvidia-390xx-utils");
    reveal_strlit("nvidia-340xx-dkms");
    reveal_strlit("nvidia-340xx-utils");
}

/// Every package that all desktops share has a valid name.
pub proof fn lemma_common_packages_are_valid()
    ensures
        all_valid(common_packages()),
{
    reveal_strlit("about");
    reveal_strlit("pipewire");
    reveal_strlit("pipewire-alsa");
    reveal_strlit("pipewire-jack");
    reveal_strlit("pipewire-pulse");
    reveal_strlit("gst-plugin-pipewire");
    reveal_strlit("libpulse");
    reveal_strlit("sof-firmware");
    reveal_strlit("wireplumber");
    reveal_strlit("xdg-user-dirs");
    reveal_strlit("wpa_supplicant");
    reveal_strlit("xdg-utils");
}

/// The package of a shell has a valid name, whatever shell was asked for.
pub proof fn lemma_shell_package_is_valid(shell: Seq<char>)
    ensures
        valid_package_name(shell_package(shell)),
{
    reveal_strlit("fish");
    reveal_strlit("zsh");
    reveal_strlit("bash");
}

/// No step of the script is a stop.
pub open spec fn never_stops(script: Seq<StepView>) -> bool {
    forall|i: int| 0 <= i < script.len() ==> !((#[trigger] script[i]).action is Stop)
}

/// The base system is installed whatever kernel and whatever size of
/// compressed memory was asked for: no name of its packages is refused.
pub proof fn lemma_base_system_is_installed(kernel: Seq<char>, zram: u64)
    ensures
        never_stops(spec_install_base_packages(kernel)),
        never_stops(spec_install_zram(zram)),
        never_stops(spec_install_homemgr()),
        never_stops(spec_install_flatpak()),
{
    lemma_base_packages_are_valid();
    lemma_kernel_packages_are_valid(kernel);
    reveal_strlit("zram-generator");
    reveal_strlit("nix");
    reveal_strlit("flatpak");
    let wanted = base_packages() + seq![chosen_kernel(kernel), chosen_kernel(kernel) + "-headers"@];
    assert forall|i: int| 0 <= i < wanted.len() implies valid_package_name(#[trigger] wanted[i]) by {
        if i < base_packages().len() {
            assert(wanted[i] == base_packages()[i]);
        }
    }
}

/// The boot loader is installed wherever it goes: no name of its packages is
/// refused.
pub proof fn lemma_bootloader_is_installed(location: Seq<char>)
    ensures
        never_stops(spec_install_bootloader_efi(location)),
        never_stops(spec_install_bootloader_legacy(location)),
{
    lemma_grub_packages_are_valid();
}

/// Every desktop is installed: no name of its packages or of the services'
/// is refused.
pub proof fn lemma_desktop_is_installed(desktop_setup: DesktopSetup)
    ensures
        never_stops(spec_install_desktop_setup(desktop_setup)),
{
    lemma_common_packages_are_valid();
    reveal_strlit("networkmanager");
    reveal_strlit("firewalld");
    reveal_strlit("tuned-ppd");
    reveal_strlit("tuned");
    reveal_strlit("bluez");
    reveal_strlit("cups");
    reveal_strlit("cups-pdf");
    reveal_strlit("bluez-cups");
    reveal_strlit("prismlinux-graphics");
    reveal_strlit("prismlinux-plasma-settings");
    reveal_strlit("sddm");
    reveal_strlit("ghostty");
    reveal_strlit("dolphin");
    reveal_strlit("plasma-systemmonitor");
    reveal_strlit("prismlinux-gnome-settings");
    reveal_strlit("nautilus");
    reveal_strlit("amberol");
    reveal_strlit("mpv");
    reveal_strlit("loupe");
    reveal_strlit("gnome-system-monitor");
    reveal_strlit("gdm");
    reveal_strlit("prismlinux-cosmic-settings");
    reveal_strlit("cosmic-files");
    reveal_strlit("cosmic-greeter");
    reveal_strlit("ghossty");
    reveal_strlit("prismlinux-cinnamon-settings");
    reveal_strlit("nemo");
    reveal_strlit("lightdm");
    reveal_strlit("lightdm-gtk-greeter");
    reveal_strlit("lightdm-gtk-greeter-settings");
}

/// Every user gets a shell: the name of its package is never refused.
pub proof fn lemma_user_is_made(
    username: Seq<char>,
    hasroot: bool,
    password: Seq<char>,
    shell: Seq<char>,
)
    ensures
        never_stops(spec_new_user(username, hasroot, password, shell)),
{
    lemma_shell_package_is_valid(shell);
}

} // verus!
