//! The desktop environments.

use crate::modules::desktops::services::{enable_service, spec_enable_service};
use crate::script::{plain_step, push_step, ActionView, Policy, Step, StepView};
use crate::text::views;
use crate::utils::files::append_file;
use crate::utils::install::{default_config, install, spec_install};
use vstd::prelude::*;
use vstd::string::*;

verus! {

/// Graphics drivers.
pub open spec fn spec_graphics() -> Seq<StepView> {
    spec_install(seq!["prismlinux-graphics"@], default_config())
}

/// What every desktop needs: sound, user directories, wireless.
pub open spec fn common_packages() -> Seq<Seq<char>> {
    seq![
        "about"@,
        "pipewire"@,
        "pipewire-alsa"@,
        "pipewire-jack"@,
        "pipewire-pulse"@,
        "gst-plugin-pipewire"@,
        "libpulse"@,
        "sof-firmware"@,
        "wireplumber"@,
        "xdg-user-dirs"@,
        "wpa_supplicant"@,
        "xdg-utils"@,
    ]
}

/// The common packages.
pub open spec fn spec_packages() -> Seq<StepView> {
    spec_install(common_packages(), default_config())
}

/// Plasma, with its display manager.
pub open spec fn spec_plasma() -> Seq<StepView> {
    spec_install(
        seq![
            "prismlinux-plasma-settings"@,
            "sddm"@,
            "ghostty"@,
            "dolphin"@,
            "plasma-systemmonitor"@,
        ],
        default_config(),
    ) + seq![spec_enable_service("sddm"@, "Enable SDDM"@)]
}

/// GNOME, with its display manager.
pub open spec fn spec_gnome() -> Seq<StepView> {
    spec_install(
        seq![
            "prismlinux-gnome-settings"@,
            "nautilus"@,
            "amberol"@,
            "mpv"@,
            "loupe"@,
            "gnome-system-monitor"@,
            "gdm"@,
        ],
        default_config(),
    ) + seq![spec_enable_service("gdm"@, "Enabling GDM"@)]
}

/// COSMIC, with its greeter.
pub open spec fn spec_cosmic() -> Seq<StepView> {
    spec_install(
        seq!["prismlinux-cosmic-settings"@, "cosmic-files"@, "cosmic-greeter"@, "ghossty"@],
        default_config(),
    ) + seq![spec_enable_service("cosmic-greeter"@, "Enabling Cosmic Greeter"@)]
}

/// Cinnamon, with its display manager and the greeter named in its
/// configuration.
pub open spec fn spec_cinnamon() -> Seq<StepView> {
    spec_install(
        seq![
            "prismlinux-cinnamon-settings"@,
            "nemo"@,
            "ghossty"@,
            "lightdm"@,
            "lightdm-gtk-greeter"@,
            "lightdm-gtk-greeter-settings"@,
        ],
        default_config(),
    ) + seq![
        plain_step(
            ActionView::AppendFile {
                path: "/mnt/etc/lightdm/lightdm.conf"@,
                content: "[SeatDefaults]\ngreeter-session=lightdm-gtk-greeter\n"@,
            },
            Policy::Fatal,
            "Add lightdm greeter"@,
        ),
        spec_enable_service("lightdm"@, "Enabling LightDM"@),
    ]
}

/// Installs the graphics drivers.
pub fn graphics() -> (plan: Vec<Step>)
    ensures
        plan.deep_view() == spec_graphics(),
{
    let pkgs = ["prismlinux-graphics"];
    assert(views(pkgs@) =~= seq!["prismlinux-graphics"@]);
    install(&pkgs)
}

/// Installs what every desktop needs.
pub fn packages() -> (plan: Vec<Step>)
    ensures
        plan.deep_view() == spec_packages(),
{
    let pkgs = [
        "about",
        "pipewire",
        "pipewire-alsa",
        "pipewire-jack",
        "pipewire-pulse",
        "gst-plugin-pipewire",
        "libpulse",
        "sof-firmware",
        "wireplumber",
        "xdg-user-dirs",
        "wpa_supplicant",
        "xdg-utils",
    ];
    assert(views(pkgs@) =~= common_packages());
    install(&pkgs)
}

/// Installs Plasma.
pub fn plasma() -> (plan: Vec<Step>)
    ensures
        plan.deep_view() == spec_plasma(),
{
    let pkgs = ["prismlinux-plasma-settings", "sddm", "ghostty", "dolphin", "plasma-systemmonitor"];
    assert(views(pkgs@) =~= seq![
        "prismlinux-plasma-settings"@,
        "sddm"@,
        "ghostty"@,
        "dolphin"@,
        "plasma-systemmonitor"@,
    ]);
    let mut plan = install(&pkgs);
    push_step(&mut plan, enable_service("sddm", "Enable SDDM"));
    plan
}

/// Installs GNOME.
pub fn gnome() -> (plan: Vec<Step>)
    ensures
        plan.deep_view() == spec_gnome(),
{
    let pkgs = [
        "prismlinux-gnome-settings",
        "nautilus",
        "amberol",
        "mpv",
        "loupe",
        "gnome-system-monitor",
        "gdm",
    ];
    assert(views(pkgs@) =~= seq![
        "prismlinux-gnome-settings"@,
        "nautilus"@,
        "amberol"@,
        "mpv"@,
        "loupe"@,
        "gnome-system-monitor"@,
        "gdm"@,
    ]);
    let mut plan = install(&pkgs);
    push_step(&mut plan, enable_service("gdm", "Enabling GDM"));
    plan
}

/// Installs COSMIC.
pub fn cosmic() -> (plan: Vec<Step>)
    ensures
        plan.deep_view() == spec_cosmic(),
{
    let pkgs = ["prismlinux-cosmic-settings", "cosmic-files", "cosmic-greeter", "ghossty"];
    assert(views(pkgs@) =~= seq![
        "prismlinux-cosmic-settings"@,
        "cosmic-files"@,
        "cosmic-greeter"@,
        "ghossty"@,
    ]);
    let mut plan = install(&pkgs);
    push_step(&mut plan, enable_service("cosmic-greeter", "Enabling Cosmic Greeter"));
    plan
}

/// Installs Cinnamon.
pub fn cinnamon() -> (plan: Vec<Step>)
    ensures
        plan.deep_view() == spec_cinnamon(),
{
    let pkgs = [
        "prismlinux-cinnamon-settings",
        "nemo",
        "ghossty",
        "lightdm",
        "lightdm-gtk-greeter",
        "lightdm-gtk-greeter-settings",
    ];
    assert(views(pkgs@) =~= seq![
        "prismlinux-cinnamon-settings"@,
        "nemo"@,
        "ghossty"@,
        "lightdm"@,
        "lightdm-gtk-greeter"@,
        "lightdm-gtk-greeter-settings"@,
    ]);
    let mut plan = install(&pkgs);
    push_step(
        &mut plan,
        Step::file(
            append_file(
                "/mnt/etc/lightdm/lightdm.conf",
                "[SeatDefaults]\ngreeter-session=lightdm-gtk-greeter\n",
            ),
            "Add lightdm greeter",
        ),
    );
    push_step(&mut plan, enable_service("lightdm", "Enabling LightDM"));
    assert(plan.deep_view() =~= spec_cinnamon());
    plan
}

} // verus!
