//! Host name and hosts file of the new system.

use crate::script::{plain_step, push_step, ActionView, Policy, Step, StepView};
use crate::utils::files::{append_file, create_file};
use vstd::prelude::*;
use vstd::string::*;

verus! {

/// The file is made if it can be, then the name is written into it.
pub open spec fn spec_set_hostname(hostname: Seq<char>) -> Seq<StepView> {
    seq![
        plain_step(ActionView::CreateFile("/mnt/etc/hostname"@), Policy::Ignore, "create /etc/hostname"@),
        plain_step(
            ActionView::AppendFile { path: "/mnt/etc/hostname"@, content: hostname },
            Policy::Fatal,
            "set hostname"@,
        ),
    ]
}

/// The file is made if it can be, then the local host is entered.
pub open spec fn spec_create_hosts() -> Seq<StepView> {
    seq![
        plain_step(ActionView::CreateFile("/mnt/etc/hosts"@), Policy::Ignore, "create /etc/hosts"@),
        plain_step(
            ActionView::AppendFile { path: "/mnt/etc/hosts"@, content: "127.0.0.1     localhost"@ },
            Policy::Fatal,
            "create /etc/hosts"@,
        ),
    ]
}

/// The local host is entered under its IPv6 address.
pub open spec fn spec_enable_ipv6() -> Seq<StepView> {
    seq![
        plain_step(
            ActionView::AppendFile { path: "/mnt/etc/hosts"@, content: "::1 localhost"@ },
            Policy::Fatal,
            "add ipv6 localhost"@,
        ),
    ]
}

/// Gives the new system the name `hostname`.
pub fn set_hostname(hostname: &str) -> (plan: Vec<Step>)
    ensures
        plan.deep_view() == spec_set_hostname(hostname@),
{
    let mut plan: Vec<Step> = Vec::new();
    push_step(
        &mut plan,
        Step::new(
            create_file("/mnt/etc/hostname"),
            Policy::Ignore,
            String::from_str("create /etc/hostname"),
        ),
    );
    push_step(&mut plan, Step::file(append_file("/mnt/etc/hostname", hostname), "set hostname"));
    assert(plan.deep_view() =~= spec_set_hostname(hostname@));
    plan
}

/// Writes the hosts file.
pub fn create_hosts() -> (plan: Vec<Step>)
    ensures
        plan.deep_view() == spec_create_hosts(),
{
    let mut plan: Vec<Step> = Vec::new();
    push_step(
        &mut plan,
        Step::new(create_file("/mnt/etc/hosts"), Policy::Ignore, String::from_str("create /etc/hosts")),
    );
    push_step(
        &mut plan,
        Step::file(append_file("/mnt/etc/hosts", "127.0.0.1     localhost"), "create /etc/hosts"),
    );
    assert(plan.deep_view() =~= spec_create_hosts());
    plan
}

/// Adds the IPv6 local host to the hosts file.
pub fn enable_ipv6() -> (plan: Vec<Step>)
    ensures
        plan.deep_view() == spec_enable_ipv6(),
{
    let mut plan: Vec<Step> = Vec::new();
    push_step(&mut plan, Step::file(append_file("/mnt/etc/hosts", "::1 localhost"), "add ipv6 localhost"));
    assert(plan.deep_view() =~= spec_enable_ipv6());
    plan
}

} // verus!
