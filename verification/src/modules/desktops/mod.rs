//! The desktop of the new system.

pub mod desktop;
pub mod services;

use crate::cli::DesktopSetup;
use crate::modules::desktops::desktop::{
    cinnamon, cosmic, gnome, graphics, packages, plasma, spec_cinnamon, spec_cosmic, spec_gnome,
    spec_graphics, spec_packages, spec_plasma,
};
use crate::modules::desktops::services::{
    bluetooth, cups, firewalld, networkmanager, spec_bluetooth, spec_cups, spec_firewalld,
    spec_networkmanager, spec_tuned_ppd, tuned_ppd,
};
use crate::script::{extend, Step, StepView};
use vstd::prelude::*;

verus! {

/// What is installed for the chosen desktop alone.
pub open spec fn spec_environment(desktop_setup: DesktopSetup) -> Seq<StepView> {
    match desktop_setup {
        DesktopSetup::Gnome => spec_gnome(),
        DesktopSetup::Plasma => spec_plasma(),
        DesktopSetup::Cosmic => spec_cosmic(),
        DesktopSetup::Cinnamon => spec_cinnamon(),
        DesktopSetup::NoDesktop => Seq::empty(),
    }
}

/// Network and firewall for every choice. For a desktop, also graphics, the
/// common packages, the desktop itself, Bluetooth, printing and power
/// profiles, in this order.
pub open spec fn spec_install_desktop_setup(desktop_setup: DesktopSetup) -> Seq<StepView> {
    if desktop_setup is NoDesktop {
        spec_networkmanager() + spec_firewalld()
    } else {
        spec_networkmanager() + spec_firewalld() + spec_graphics() + spec_packages()
            + spec_environment(desktop_setup) + spec_bluetooth() + spec_cups() + spec_tuned_ppd()
    }
}

/// Installs the desktop `desktop_setup`.
pub fn install_desktop_setup(desktop_setup: DesktopSetup) -> (plan: Vec<Step>)
    ensures
        plan.deep_view() == spec_install_desktop_setup(desktop_setup),
{
    let mut plan = networkmanager();
    extend(&mut plan, firewalld());
    match desktop_setup {
        DesktopSetup::NoDesktop => {
            return plan;
        },
        _ => {},
    }
    extend(&mut plan, graphics());
    extend(&mut plan, packages());
    match desktop_setup {
        DesktopSetup::Gnome => {
            extend(&mut plan, gnome());
        },
        DesktopSetup::Plasma => {
            extend(&mut plan, plasma());
        },
        DesktopSetup::Cosmic => {
            extend(&mut plan, cosmic());
        },
        _ => {
            extend(&mut plan, cinnamon());
        },
    }
    extend(&mut plan, bluetooth());
    extend(&mut plan, cups());
    extend(&mut plan, tuned_ppd());
    plan
}

} // verus!
