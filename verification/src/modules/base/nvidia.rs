//! Choice of the NVIDIA driver for the graphics card that the host reports.

use crate::script::{
    extend, plain_step, push_step, stop, Action, ActionView, Failure, Policy, Rewrite, Step,
    StepView,
};
use crate::text::{
    chars_contain_str, concat2, contains, join, join_all, lines, lines_of, lower, lowered, replace,
    replace_all, starts_with, str_contains, str_starts_with, trim_start, trimmed_start, views,
};
use crate::utils::exec::{exec, spec_exec};
use crate::utils::install::{default_config, install, spec_install};
use crate::utils::returncode_eval::HostError;
use vstd::prelude::*;
use vstd::string::*;

verus! {

/// The driver families, newest first.
#[derive(Debug, Clone, Copy, PartialEq, Eq, Structural)]
pub enum NvidiaDriver {
    /// The open kernel modules, for the RTX 20 series and later.
    Open,
    Legacy470,
    Legacy390,
    Legacy340,
}

impl NvidiaDriver {
    /// The packages of the driver, in the order in which they are installed.
    pub open spec fn spec_packages(self) -> Seq<Seq<char>> {
        match self {
            Self::Open => seq![
                "dkms"@,
                "nvidia-open"@,
                "nvidia-open-dkms"@,
                "nvidia-utils"@,
                "egl-wayland"@,
            ],
            Self::Legacy470 => seq![
                "dkms"@,
                "nvidia-470xx-dkms"@,
                "nvidia-470xx-utils"@,
                "egl-wayland"@,
            ],
            Self::Legacy390 => seq![
                "dkms"@,
                "nvidia-390xx-dkms"@,
                "nvidia-390xx-utils"@,
                "egl-wayland"@,
            ],
            Self::Legacy340 => seq!["dkms"@, "nvidia-340xx-dkms"@, "nvidia-340xx-utils"@],
        }
    }

    /// The packages of the driver.
    #[must_use]
    pub fn packages(&self) -> (r: Vec<&'static str>)
        ensures
            r.deep_view() == self.spec_packages(),
    {
        let r = match self {
            Self::Open => vec![
                "dkms",
                "nvidia-open",
                "nvidia-open-dkms",
                "nvidia-utils",
                "egl-wayland",
            ],
            Self::Legacy470 => vec![
                "dkms",
                "nvidia-470xx-dkms",
                "nvidia-470xx-utils",
                "egl-wayland",
            ],
            Self::Legacy390 => vec![
                "dkms",
                "nvidia-390xx-dkms",
                "nvidia-390xx-utils",
                "egl-wayland",
            ],
            Self::Legacy340 => vec!["dkms", "nvidia-340xx-dkms", "nvidia-340xx-utils"],
        };
        assert(r.deep_view() =~= self.spec_packages());
        r
    }
}

/// Model names that ask for the open driver.
pub open spec fn open_series() -> Seq<Seq<char>> {
    seq!["rtx 20"@, "rtx 30"@, "rtx 40"@, "rtx 50"@, "gtx 16"@]
}

/// Model names that ask for the 470 driver.
pub open spec fn legacy470_series() -> Seq<Seq<char>> {
    seq!["gtx 10"@, "gtx 1050"@, "gtx 1060"@, "gtx 1070"@, "gtx 1080"@, "titan x"@]
}

/// Model names that ask for the 390 driver.
pub open spec fn legacy390_series() -> Seq<Seq<char>> {
    seq![
        "gtx 9"@,
        "gtx 8"@,
        "gtx 7"@,
        "gtx 6"@,
        "gt 6"@,
        "gt 7"@,
        "gt 730"@,
        "gt 740"@,
        "gt 710"@,
        "gt 720"@,
        "quadro"@,
    ]
}

/// Model names that ask for the 340 driver.
pub open spec fn legacy340_series() -> Seq<Seq<char>> {
    seq!["gtx 4"@, "gtx 5"@, "gt 4"@, "gt 5"@, "geforce 8"@, "geforce 9"@]
}

/// One of `names` stands in `text`.
pub open spec fn names_any(text: Seq<char>, names: Seq<Seq<char>>) -> bool {
    exists|i: int| 0 <= i < names.len() && contains(text, #[trigger] names[i])
}

/// The driver for a card, found by the model name in its description, read
/// without regard to case. The newest family whose list names the card wins;
/// a card that no list names gets the open driver.
pub open spec fn spec_determine_driver_version(gpu_info: Seq<char>) -> NvidiaDriver {
    let card = lower(gpu_info);
    if names_any(card, open_series()) {
        NvidiaDriver::Open
    } else if names_any(card, legacy470_series()) {
        NvidiaDriver::Legacy470
    } else if names_any(card, legacy390_series()) {
        NvidiaDriver::Legacy390
    } else if names_any(card, legacy340_series()) {
        NvidiaDriver::Legacy340
    } else {
        NvidiaDriver::Open
    }
}

/// Whether one of `names` stands in `text`.
fn any_name_in(text: &Vec<char>, names: &[&str]) -> (r: bool)
    ensures
        r == names_any(text@, views(names@)),
{
    let mut i: usize = 0;
    while i < names.len()
        invariant
            i <= names.len(),
            forall|k: int| 0 <= k < i ==> !contains(text@, #[trigger] views(names@)[k]),
        decreases names.len() - i,
    {
        if chars_contain_str(text, names[i]) {
            assert(contains(text@, views(names@)[i as int]));
            return true;
        }
        i = i + 1;
    }
    false
}

/// The driver for the card that `gpu_info` describes.
pub fn determine_driver_version(gpu_info: &str) -> (r: NvidiaDriver)
    ensures
        r == spec_determine_driver_version(gpu_info@),
{
    let card = lowered(gpu_info);
    let newest = ["rtx 20", "rtx 30", "rtx 40", "rtx 50", "gtx 16"];
    assert(views(newest@) =~= open_series());
    if any_name_in(&card, &newest) {
        return NvidiaDriver::Open;
    }
    let pascal = ["gtx 10", "gtx 1050", "gtx 1060", "gtx 1070", "gtx 1080", "titan x"];
    assert(views(pascal@) =~= legacy470_series());
    if any_name_in(&card, &pascal) {
        return NvidiaDriver::Legacy470;
    }
    let older = [
        "gtx 9",
        "gtx 8",
        "gtx 7",
        "gtx 6",
        "gt 6",
        "gt 7",
        "gt 730",
        "gt 740",
        "gt 710",
        "gt 720",
        "quadro",
    ];
    assert(views(older@) =~= legacy390_series());
    if any_name_in(&card, &older) {
        return NvidiaDriver::Legacy390;
    }
    let oldest = ["gtx 4", "gtx 5", "gt 4", "gt 5", "geforce 8", "geforce 9"];
    assert(views(oldest@) =~= legacy340_series());
    if any_name_in(&card, &oldest) {
        return NvidiaDriver::Legacy340;
    }
    NvidiaDriver::Open
}

/// A line of the bus listing that describes an NVIDIA graphics card.
pub open spec fn describes_nvidia_gpu(line: Seq<char>) -> bool {
    let l = lower(line);
    contains(l, "nvidia"@) && (contains(l, "vga"@) || contains(l, "3d"@))
}

/// The first of `listing` that describes an NVIDIA graphics card.
pub open spec fn first_gpu(listing: Seq<Seq<char>>) -> Option<Seq<char>>
    decreases listing.len(),
{
    if listing.len() == 0 {
        None
    } else if describes_nvidia_gpu(listing[0]) {
        Some(listing[0])
    } else {
        first_gpu(listing.drop_first())
    }
}

/// What the bus listing says of an NVIDIA card: its line, none, or why the
/// listing could not be had.
pub open spec fn spec_detect_nvidia_gpu(listing: Result<String, HostError>) -> Result<
    Option<Seq<char>>,
    Seq<char>,
> {
    match listing {
        Err(e) => Err("Failed to run lspci: "@ + e.message@),
        Ok(text) => Ok(first_gpu(lines(text@))),
    }
}

/// The line that switches mode setting on where the boot loader's defaults
/// have no kernel command line.
pub open spec fn modeset_default() -> Seq<char> {
    "GRUB_CMDLINE_LINUX_DEFAULT=\"nvidia-drm.modeset=1\""@
}

/// The line that loads the driver's modules.
pub open spec fn modules_line() -> Seq<char> {
    "MODULES=(nvidia nvidia_modeset nvidia_uvm nvidia_drm)"@
}

/// Whether `line` sets the kernel command line.
pub open spec fn is_cmdline(line: Seq<char>) -> bool {
    starts_with(line, "GRUB_CMDLINE_LINUX_DEFAULT="@)
}

/// Whether `line` sets the modules of the initial ramdisk.
pub open spec fn is_modules(line: Seq<char>) -> bool {
    starts_with(trim_start(line), "MODULES="@) && !starts_with(trim_start(line), "#"@)
}

/// A kernel command line gets the mode setting switch put first, unless it
/// has it; every other line stays.
pub open spec fn modeset_line(line: Seq<char>) -> Seq<char> {
    if is_cmdline(line) && !contains(line, "nvidia-drm.modeset=1"@) {
        replace(
            line,
            "GRUB_CMDLINE_LINUX_DEFAULT=\""@,
            "GRUB_CMDLINE_LINUX_DEFAULT=\"nvidia-drm.modeset=1 "@,
        )
    } else {
        line
    }
}

/// A modules line is replaced by the driver's; every other line stays.
pub open spec fn driver_line(line: Seq<char>) -> Seq<char> {
    if is_modules(line) {
        modules_line()
    } else {
        line
    }
}

/// The lines of a file after a rule went over them: each line rewritten, and
/// the rule's own line added at the end if no line was one to rewrite.
pub open spec fn rewritten(rule: Rewrite, listing: Seq<Seq<char>>) -> Seq<Seq<char>> {
    let each = Seq::new(
        listing.len(),
        |i: int|
            match rule {
                Rewrite::KernelModeset => modeset_line(listing[i]),
                Rewrite::DriverModules => driver_line(listing[i]),
            },
    );
    let found = exists|i: int|
        0 <= i < listing.len() && match rule {
            Rewrite::KernelModeset => is_cmdline(#[trigger] listing[i]),
            Rewrite::DriverModules => is_modules(#[trigger] listing[i]),
        };
    if found {
        each
    } else {
        each.push(
            match rule {
                Rewrite::KernelModeset => modeset_default(),
                Rewrite::DriverModules => modules_line(),
            },
        )
    }
}

/// The text of a file after a rule went over it.
pub open spec fn spec_apply(rule: Rewrite, content: Seq<char>) -> Seq<char> {
    join(rewritten(rule, lines(content)), "\n"@)
}

/// A card must be found; then its driver is installed, mode setting switched
/// on, and, but for the oldest driver, the modules put in the ramdisk.
pub open spec fn spec_install_nvidia(listing: Result<String, HostError>) -> Seq<StepView> {
    match spec_detect_nvidia_gpu(listing) {
        Err(why) => seq![stop("I/O error: "@ + why, Failure::CommandFailed)],
        Ok(None) => seq![stop("I/O error: No NVIDIA GPU detected"@, Failure::Rejected)],
        Ok(Some(gpu)) => {
            let driver = spec_determine_driver_version(gpu);
            spec_install(driver.spec_packages(), default_config()) + seq![
                plain_step(
                    ActionView::RewriteFile {
                        path: "/mnt/etc/default/grub"@,
                        rule: Rewrite::KernelModeset,
                    },
                    Policy::Crash,
                    "Failed to write GRUB config"@,
                ),
            ] + if driver is Legacy340 {
                Seq::empty()
            } else {
                seq![
                    plain_step(
                        ActionView::RewriteFile {
                            path: "/mnt/etc/mkinitcpio.conf"@,
                            rule: Rewrite::DriverModules,
                        },
                        Policy::Crash,
                        "Failed to write mkinitcpio config"@,
                    ),
                ]
            }
        },
    }
}

/// Whether `line` describes an NVIDIA graphics card.
fn line_describes_gpu(line: &str) -> (r: bool)
    ensures
        r == describes_nvidia_gpu(line@),
{
    let l = lowered(line);
    chars_contain_str(&l, "nvidia") && (chars_contain_str(&l, "vga") || chars_contain_str(&l, "3d"))
}

/// The program that lists the devices on the bus.
pub fn gpu_probe() -> (r: crate::script::Invocation)
    ensures
        r@ == spec_exec("lspci"@, seq!["-nn"@]),
{
    let args = ["-nn"];
    assert(views(args@) =~= seq!["-nn"@]);
    exec("lspci", &args)
}

/// Looks for an NVIDIA graphics card in what the bus listing printed.
pub fn detect_nvidia_gpu(listing: &Result<String, HostError>) -> (r: Result<Option<String>, String>)
    ensures
        r is Ok <==> listing is Ok,
        r is Err ==> Err::<Option<Seq<char>>, Seq<char>>(r->Err_0@) == spec_detect_nvidia_gpu(
            *listing,
        ),
        r is Ok ==> (r->Ok_0 is Some <==> first_gpu(lines(listing->Ok_0@)) is Some),
        r is Ok && r->Ok_0 is Some ==> Some(r->Ok_0->0@) == first_gpu(lines(listing->Ok_0@)),
{
    match listing {
        Err(e) => Err(concat2("Failed to run lspci: ", e.message.as_str())),
        Ok(text) => {
            let all = lines_of(text.as_str());
            let mut i: usize = 0;
            assert(all.deep_view().skip(0) =~= all.deep_view());
            while i < all.len()
                invariant
                    i <= all.len(),
                    listing is Ok,
                    all.deep_view() == lines(listing->Ok_0@),
                    first_gpu(all.deep_view()) == first_gpu(all.deep_view().skip(i as int)),
                decreases all.len() - i,
            {
                assert(all.deep_view().skip(i as int)[0] == all[i as int]@);
                if line_describes_gpu(all[i].as_str()) {
                    return Ok(Some(all[i].clone()));
                }
                assert(all.deep_view().skip(i as int).drop_first() =~= all.deep_view().skip(i + 1));
                i = i + 1;
            }
            Ok(None)
        },
    }
}

impl Rewrite {
    /// The text of a file after this rule went over it.
    pub fn apply(&self, content: &str) -> (r: String)
        ensures
            r@ == spec_apply(*self, content@),
    {
        let all = lines_of(content);
        let mut out: Vec<String> = Vec::new();
        let mut found = false;
        let mut i: usize = 0;
        while i < all.len()
            invariant
                i <= all.len(),
                out.len() == i,
                forall|k: int|
                    0 <= k < i ==> (#[trigger] out[k])@ == match *self {
                        Rewrite::KernelModeset => modeset_line(all[k]@),
                        Rewrite::DriverModules => driver_line(all[k]@),
                    },
                found <==> exists|k: int|
                    0 <= k < i && match *self {
                        Rewrite::KernelModeset => is_cmdline(#[trigger] all.deep_view()[k]),
                        Rewrite::DriverModules => is_modules(#[trigger] all.deep_view()[k]),
                    },
            decreases all.len() - i,
        {
            let line = all[i].as_str();
            let ghost before = found;
            let new = match self {
                Rewrite::KernelModeset => {
                    if str_starts_with(line, "GRUB_CMDLINE_LINUX_DEFAULT=") {
                        found = true;
                        if str_contains(line, "nvidia-drm.modeset=1") {
                            String::from_str(line)
                        } else {
                            proof {
                                reveal_strlit("GRUB_CMDLINE_LINUX_DEFAULT=\"");
                            }
                            replace_all(
                                line,
                                "GRUB_CMDLINE_LINUX_DEFAULT=\"",
                                "GRUB_CMDLINE_LINUX_DEFAULT=\"nvidia-drm.modeset=1 ",
                            )
                        }
                    } else {
                        String::from_str(line)
                    }
                },
                Rewrite::DriverModules => {
                    let body = trimmed_start(line);
                    if str_starts_with(body.as_str(), "MODULES=") && !str_starts_with(
                        body.as_str(),
                        "#",
                    ) {
                        found = true;
                        String::from_str("MODULES=(nvidia nvidia_modeset nvidia_uvm nvidia_drm)")
                    } else {
                        String::from_str(line)
                    }
                },
            };
            out.push(new);
            proof {
                assert(all.deep_view()[i as int] == all[i as int]@);
                if found && !before {
                    assert(match *self {
                        Rewrite::KernelModeset => is_cmdline(all.deep_view()[i as int]),
                        Rewrite::DriverModules => is_modules(all.deep_view()[i as int]),
                    });
                }
                if !found {
                    assert forall|k: int| 0 <= k < i + 1 implies !match *self {
                        Rewrite::KernelModeset => is_cmdline(#[trigger] all.deep_view()[k]),
                        Rewrite::DriverModules => is_modules(#[trigger] all.deep_view()[k]),
                    } by {}
                }
            }
            i = i + 1;
        }
        if !found {
            match self {
                Rewrite::KernelModeset => out.push(
                    String::from_str("GRUB_CMDLINE_LINUX_DEFAULT=\"nvidia-drm.modeset=1\""),
                ),
                Rewrite::DriverModules => out.push(
                    String::from_str("MODULES=(nvidia nvidia_modeset nvidia_uvm nvidia_drm)"),
                ),
            }
        }
        assert(out.deep_view() =~= rewritten(*self, all.deep_view()));
        join_all(&out, "\n")
    }
}

/// Installs the driver for the NVIDIA card that the bus listing shows.
/// `listing` is what [`gpu_probe`] printed, or why it could not be run.
pub fn install_nvidia(listing: &Result<String, HostError>) -> (plan: Vec<Step>)
    ensures
        plan.deep_view() == spec_install_nvidia(*listing),
{
    let mut plan: Vec<Step> = Vec::new();
    let gpu_info = match detect_nvidia_gpu(listing) {
        Err(why) => {
            push_step(
                &mut plan,
                Step::stop(concat2("I/O error: ", why.as_str()), Failure::CommandFailed),
            );
            assert(plan.deep_view() =~= spec_install_nvidia(*listing));
            return plan;
        },
        Ok(None) => {
            push_step(
                &mut plan,
                Step::stop(
                    String::from_str("I/O error: No NVIDIA GPU detected"),
                    Failure::Rejected,
                ),
            );
            assert(plan.deep_view() =~= spec_install_nvidia(*listing));
            return plan;
        },
        Ok(Some(gpu)) => gpu,
    };
    let driver = determine_driver_version(gpu_info.as_str());
    let packages = driver.packages();
    assert(views(packages@) =~= driver.spec_packages());
    extend(&mut plan, install(packages.as_slice()));
    push_step(
        &mut plan,
        Step::new(
            Action::RewriteFile {
                path: String::from_str("/mnt/etc/default/grub"),
                rule: Rewrite::KernelModeset,
            },
            Policy::Crash,
            String::from_str("Failed to write GRUB config"),
        ),
    );
    if !matches!(driver, NvidiaDriver::Legacy340) {
        push_step(
            &mut plan,
            Step::new(
                Action::RewriteFile {
                    path: String::from_str("/mnt/etc/mkinitcpio.conf"),
                    rule: Rewrite::DriverModules,
                },
                Policy::Crash,
                String::from_str("Failed to write mkinitcpio config"),
            ),
        );
    }
    assert(plan.deep_view() =~= spec_install_nvidia(*listing));
    plan
}

} // verus!
