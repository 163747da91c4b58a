//! System services that every desktop wants.

use crate::script::{plain_step, push_step, ActionView, Policy, Step, StepView};
use crate::text::views;
use crate::utils::exec::{chroot_step, run_in_chroot};
use crate::utils::files::copy_dir;
use crate::utils::install::{default_config, install, spec_install};
use vstd::prelude::*;
use vstd::string::*;

verus! {

/// The step that has `service` started at every boot.
pub open spec fn spec_enable_service(service: Seq<char>, logmsg: Seq<char>) -> StepView {
    chroot_step("systemctl"@, seq!["--no-reload"@, "enable"@, service], logmsg)
}

/// The packages `pkgs`, then the service `service`.
pub open spec fn service_plan(pkgs: Seq<Seq<char>>, service: Seq<char>, logmsg: Seq<char>) -> Seq<StepView> {
    spec_install(pkgs, default_config()) + seq![spec_enable_service(service, logmsg)]
}

/// The network manager, and the connections that the live system knows.
pub open spec fn spec_networkmanager() -> Seq<StepView> {
    service_plan(seq!["networkmanager"@], "NetworkManager"@, "Enable NetworkManager"@) + seq![
        plain_step(
            ActionView::CopyDirectory {
                source: "/etc/NetworkManager/system-connections/"@,
                destination: "/mnt/etc/NetworkManager/system-connections/"@,
            },
            Policy::Ignore,
            "copy network connections"@,
        ),
    ]
}

/// The firewall.
pub open spec fn spec_firewalld() -> Seq<StepView> {
    service_plan(seq!["firewalld"@], "firewalld"@, "Enable Firewalld service"@)
}

/// Power profiles.
pub open spec fn spec_tuned_ppd() -> Seq<StepView> {
    service_plan(seq!["tuned-ppd"@, "tuned"@], "tuned-ppd"@, "Enable Power Manager"@)
}

/// Bluetooth.
pub open spec fn spec_bluetooth() -> Seq<StepView> {
    service_plan(seq!["bluez"@], "bluetooth"@, "Enable Bluetooth"@)
}

/// Printing.
pub open spec fn spec_cups() -> Seq<StepView> {
    service_plan(seq!["cups"@, "cups-pdf"@, "bluez-cups"@], "cups"@, "Enable Cups"@)
}

/// Has `service` started at every boot.
pub fn enable_service(service: &str, logmsg: &str) -> (r: Step)
    ensures
        r@ == spec_enable_service(service@, logmsg@),
{
    let args = ["--no-reload", "enable", service];
    assert(views(args@) =~= seq!["--no-reload"@, "enable"@, service@]);
    run_in_chroot("systemctl", &args, logmsg)
}

/// Installs `pkgs` and enables `service`.
fn with_service(pkgs: &[&str], service: &str, logmsg: &str) -> (plan: Vec<Step>)
    ensures
        plan.deep_view() == service_plan(views(pkgs@), service@, logmsg@),
{
    let mut plan = install(pkgs);
    push_step(&mut plan, enable_service(service, logmsg));
    plan
}

/// Installs and enables the network manager.
pub fn networkmanager() -> (plan: Vec<Step>)
    ensures
        plan.deep_view() == spec_networkmanager(),
{
    let pkgs = ["networkmanager"];
    assert(views(pkgs@) =~= seq!["networkmanager"@]);
    let mut plan = with_service(&pkgs, "NetworkManager", "Enable NetworkManager");
    push_step(
        &mut plan,
        Step::new(
            copy_dir(
                "/etc/NetworkManager/system-connections/",
                "/mnt/etc/NetworkManager/system-connections/",
            ),
            Policy::Ignore,
            String::from_str("copy network connections"),
        ),
    );
    plan
}

/// Installs and enables the firewall.
pub fn firewalld() -> (plan: Vec<Step>)
    ensures
        plan.deep_view() == spec_firewalld(),
{
    let pkgs = ["firewalld"];
    assert(views(pkgs@) =~= seq!["firewalld"@]);
    with_service(&pkgs, "firewalld", "Enable Firewalld service")
}

/// Installs and enables power profiles.
pub fn tuned_ppd() -> (plan: Vec<Step>)
    ensures
        plan.deep_view() == spec_tuned_ppd(),
{
    let pkgs = ["tuned-ppd", "tuned"];
    assert(views(pkgs@) =~= seq!["tuned-ppd"@, "tuned"@]);
    with_service(&pkgs, "tuned-ppd", "Enable Power Manager")
}

/// Installs and enables Bluetooth.
pub fn bluetooth() -> (plan: Vec<Step>)
    ensures
        plan.deep_view() == spec_bluetooth(),
{
    let pkgs = ["bluez"];
    assert(views(pkgs@) =~= seq!["bluez"@]);
    with_service(&pkgs, "bluetooth", "Enable Bluetooth")
}

/// Installs and enables printing.
pub fn cups() -> (plan: Vec<Step>)
    ensures
        plan.deep_view() == spec_cups(),
{
    let pkgs = ["cups", "cups-pdf", "bluez-cups"];
    assert(views(pkgs@) =~= seq!["cups"@, "cups-pdf"@, "bluez-cups"@]);
    with_service(&pkgs, "cups", "Enable Cups")
}

} // verus!
