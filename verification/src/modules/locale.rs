//! Time zone, locales and keyboard of the new system.

use crate::script::{extend, plain_step, push_step, ActionView, Policy, Step, StepView};
use crate::text::{concat2, split, split_on, str_equal, views};
use crate::utils::exec::{chroot_step, run_in_chroot};
use crate::utils::files::{append_file, create_file, sed_file};
use vstd::prelude::*;
use vstd::string::*;

verus! {

/// The zone is linked as local time, then the hardware clock is set.
pub open spec fn spec_set_timezone(timezone: Seq<char>) -> Seq<StepView> {
    seq![
        chroot_step(
            "ln"@,
            seq!["-sf"@, "/usr/share/zoneinfo/"@ + timezone, "/etc/localtime"@],
            "Set timezone"@,
        ),
        chroot_step("hwclock"@, seq!["--systohc"@], "Set system clock"@),
    ]
}

/// The layout is set for the graphical session and for the console.
pub open spec fn spec_set_keyboard(keyboard: Seq<char>) -> Seq<StepView> {
    seq![
        chroot_step("localectl"@, seq!["set-x11-keymap"@, keyboard], "Set x11 keymap"@),
        chroot_step("localectl"@, seq!["set-keymap"@, keyboard], "Set global keymap"@),
    ]
}

/// One locale: it is entered in the list of locales to generate, and, unless
/// it is the default, made the system's language.
pub open spec fn locale_entry(name: Seq<char>, charset: Seq<char>) -> Seq<StepView> {
    let entry = plain_step(
        ActionView::AppendFile {
            path: "/mnt/etc/locale.gen"@,
            content: name + " "@ + charset + "\n"@,
        },
        Policy::Fatal,
        "add locales to locale.gen"@,
    );
    if name == "en_US.UTF-8"@ {
        seq![entry]
    } else {
        seq![
            entry,
            plain_step(
                ActionView::ReplaceInFile {
                    path: "/mnt/etc/locale.conf"@,
                    find: "en_US.UTF-8"@,
                    replace: name,
                },
                Policy::Fatal,
                "Set locale "@ + name + " in /etc/locale.conf"@,
            ),
        ]
    }
}

/// The entries of the first `count` words, taken two by two.
pub open spec fn locale_entries(words: Seq<Seq<char>>, count: int) -> Seq<StepView>
    decreases count,
{
    if count < 2 || count > words.len() {
        Seq::empty()
    } else {
        locale_entries(words, count - 2) + locale_entry(words[count - 2], words[count - 1])
    }
}

/// The default locale first, then every locale of the list, then the
/// generation of them all.
pub open spec fn spec_set_locale(locale: Seq<char>) -> Seq<StepView> {
    let words = split(locale, ' ');
    seq![
        plain_step(
            ActionView::AppendFile { path: "/mnt/etc/locale.gen"@, content: "en_US.UTF-8 UTF-8"@ },
            Policy::Fatal,
            "add en_US.UTF-8 UTF-8 to locale.gen"@,
        ),
        plain_step(
            ActionView::CreateFile("/mnt/etc/locale.conf"@),
            Policy::Ignore,
            "create locale.conf"@,
        ),
        plain_step(
            ActionView::AppendFile { path: "/mnt/etc/locale.conf"@, content: "LANG=en_US.UTF-8"@ },
            Policy::Fatal,
            "edit locale.conf"@,
        ),
    ] + locale_entries(words, words.len() as int) + seq![
        chroot_step("locale-gen"@, Seq::empty(), "generate locales"@),
    ]
}

/// Sets the time zone of the new system.
pub fn set_timezone(timezone: &str) -> (plan: Vec<Step>)
    ensures
        plan.deep_view() == spec_set_timezone(timezone@),
{
    let mut plan: Vec<Step> = Vec::new();
    let zone = concat2("/usr/share/zoneinfo/", timezone);
    let link = ["-sf", zone.as_str(), "/etc/localtime"];
    assert(views(link@) =~= seq!["-sf"@, "/usr/share/zoneinfo/"@ + timezone@, "/etc/localtime"@]);
    push_step(&mut plan, run_in_chroot("ln", &link, "Set timezone"));
    let clock = ["--systohc"];
    assert(views(clock@) =~= seq!["--systohc"@]);
    push_step(&mut plan, run_in_chroot("hwclock", &clock, "Set system clock"));
    assert(plan.deep_view() =~= spec_set_timezone(timezone@));
    plan
}

/// The steps for one locale.
fn entry_for(name: &str, charset: &str) -> (plan: Vec<Step>)
    ensures
        plan.deep_view() == locale_entry(name@, charset@),
{
    let mut plan: Vec<Step> = Vec::new();
    let line = String::from_str(name).concat(" ").concat(charset).concat("\n");
    push_step(
        &mut plan,
        Step::file(append_file("/mnt/etc/locale.gen", line.as_str()), "add locales to locale.gen"),
    );
    if !str_equal(name, "en_US.UTF-8") {
        let message = String::from_str("Set locale ").concat(name).concat(" in /etc/locale.conf");
        push_step(
            &mut plan,
            Step::file(sed_file("/mnt/etc/locale.conf", "en_US.UTF-8", name), message.as_str()),
        );
    }
    assert(plan.deep_view() =~= locale_entry(name@, charset@));
    plan
}

/// Sets the locales of the new system. `locale` holds names and character
/// sets in turn, separated by single spaces; a name without a character set
/// is not accepted.
pub fn set_locale(locale: &str) -> (plan: Vec<Step>)
    requires
        split(locale@, ' ').len() % 2 == 0,
    ensures
        plan.deep_view() == spec_set_locale(locale@),
{
    let mut plan: Vec<Step> = Vec::new();
    push_step(
        &mut plan,
        Step::file(
            append_file("/mnt/etc/locale.gen", "en_US.UTF-8 UTF-8"),
            "add en_US.UTF-8 UTF-8 to locale.gen",
        ),
    );
    push_step(
        &mut plan,
        Step::new(
            create_file("/mnt/etc/locale.conf"),
            Policy::Ignore,
            String::from_str("create locale.conf"),
        ),
    );
    push_step(
        &mut plan,
        Step::file(append_file("/mnt/etc/locale.conf", "LANG=en_US.UTF-8"), "edit locale.conf"),
    );
    let ghost head = plan.deep_view();
    let words = split_on(locale, ' ');
    let mut entries: Vec<Step> = Vec::new();
    let mut i: usize = 0;
    while i < words.len()
        invariant
            i <= words.len(),
            i % 2 == 0,
            words.len() % 2 == 0,
            entries.deep_view() == locale_entries(words.deep_view(), i as int),
        decreases words.len() - i,
    {
        extend(&mut entries, entry_for(words[i].as_str(), words[i + 1].as_str()));
        i = i + 2;
    }
    extend(&mut plan, entries);
    let none: [&str; 0] = [];
    assert(views(none@) =~= Seq::<Seq<char>>::empty());
    push_step(&mut plan, run_in_chroot("locale-gen", &none, "generate locales"));
    assert(plan.deep_view() =~= spec_set_locale(locale@));
    plan
}

/// Sets the keyboard layout of the new system.
pub fn set_keyboard(keyboard: &str) -> (plan: Vec<Step>)
    ensures
        plan.deep_view() == spec_set_keyboard(keyboard@),
{
    let mut plan: Vec<Step> = Vec::new();
    let x11 = ["set-x11-keymap", keyboard];
    assert(views(x11@) =~= seq!["set-x11-keymap"@, keyboard@]);
    push_step(&mut plan, run_in_chroot("localectl", &x11, "Set x11 keymap"));
    let console = ["set-keymap", keyboard];
    assert(views(console@) =~= seq!["set-keymap"@, keyboard@]);
    push_step(&mut plan, run_in_chroot("localectl", &console, "Set global keymap"));
    assert(plan.deep_view() =~= spec_set_keyboard(keyboard@));
    plan
}

} // verus!
