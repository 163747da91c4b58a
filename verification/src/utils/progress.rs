//! How the progress of an installation is worded.

use crate::script::ProgressKind;
use vstd::prelude::*;

verus! {

/// The three counters of a progress display.
#[derive(Debug, Clone, Copy, PartialEq, Eq, Structural)]
pub enum Bar {
    Download,
    Build,
    Install,
}

/// Whether a display of this kind has this counter: only installations from
/// the user repository build.
pub open spec fn has_bar(kind: ProgressKind, bar: Bar) -> bool {
    match kind {
        ProgressKind::Standard => !(bar is Build),
        ProgressKind::Aur => true,
        ProgressKind::Simple => false,
    }
}

/// The template of a counter while the number of packages is not known.
pub open spec fn spec_spinner_template(kind: ProgressKind, bar: Bar, show_eta: bool) -> Seq<char>
    recommends
        has_bar(kind, bar),
{
    match (kind, bar, show_eta) {
        (ProgressKind::Aur, Bar::Download, true) => "{spinner:.magenta} [{elapsed_precise}] Downloading AUR packages ({pos} downloaded) ETA: {eta}"@,
        (ProgressKind::Aur, Bar::Download, false) => "{spinner:.magenta} [{elapsed_precise}] Downloading AUR packages ({pos} downloaded)"@,
        (ProgressKind::Aur, Bar::Build, true) => "{spinner:.yellow} [{elapsed_precise}] Building AUR packages ({pos} built) ETA: {eta}"@,
        (ProgressKind::Aur, Bar::Build, false) => "{spinner:.yellow} [{elapsed_precise}] Building AUR packages ({pos} built)"@,
        (ProgressKind::Aur, Bar::Install, true) => "{spinner:.green} [{elapsed_precise}] Installing AUR packages ({pos} installed) ETA: {eta}"@,
        (ProgressKind::Aur, Bar::Install, false) => "{spinner:.green} [{elapsed_precise}] Installing AUR packages ({pos} installed)"@,
        (_, Bar::Download, true) => "{spinner:.cyan} [{elapsed_precise}] Downloading packages ({pos} downloaded) ETA: {eta}"@,
        (_, Bar::Download, false) => "{spinner:.cyan} [{elapsed_precise}] Downloading packages ({pos} downloaded)"@,
        (_, Bar::Install, true) => "{spinner:.green} [{elapsed_precise}] Installing packages ({pos} installed) ETA: {eta}"@,
        (_, Bar::Install, false) => "{spinner:.green} [{elapsed_precise}] Installing packages ({pos} installed)"@,
        (_, Bar::Build, _) => Seq::empty(),
    }
}

/// The template of a counter once the number of packages is known.
pub open spec fn spec_bar_template(bar: Bar) -> Seq<char> {
    match bar {
        Bar::Download => "{spinner:.cyan} [{elapsed_precise}] [{bar:40.cyan}] {pos}/{len} Downloading"@,
        Bar::Build => "{spinner:.yellow} [{elapsed_precise}] [{bar:40.yellow}] {pos}/{len} Building"@,
        Bar::Install => "{spinner:.green} [{elapsed_precise}] [{bar:40.green}] {pos}/{len} Installing"@,
    }
}

/// What a counter says at the end.
pub open spec fn spec_finish_message(bar: Bar, success: bool) -> Seq<char> {
    match (bar, success) {
        (Bar::Download, true) => "Downloads complete"@,
        (Bar::Build, true) => "Builds complete"@,
        (Bar::Install, true) => "Installation complete"@,
        (Bar::Download, false) => "Downloads failed"@,
        (Bar::Build, false) => "Builds failed"@,
        (Bar::Install, false) => "Installation failed"@,
    }
}

/// Whether a display of kind `kind` has the counter `bar`.
pub fn shows_bar(kind: ProgressKind, bar: Bar) -> (r: bool)
    ensures
        r == has_bar(kind, bar),
{
    match kind {
        ProgressKind::Standard => !matches!(bar, Bar::Build),
        ProgressKind::Aur => true,
        ProgressKind::Simple => false,
    }
}

/// The template of the counter `bar` of a display of kind `kind`, with the
/// remaining time or without, while the number of packages is not known.
pub fn spinner_template(kind: ProgressKind, bar: Bar, show_eta: bool) -> (r: &'static str)
    requires
        has_bar(kind, bar),
    ensures
        r@ == spec_spinner_template(kind, bar, show_eta),
{
    match kind {
        ProgressKind::Aur => match bar {
            Bar::Download => if show_eta {
                "{spinner:.magenta} [{elapsed_precise}] Downloading AUR packages ({pos} downloaded) ETA: {eta}"
            } else {
                "{spinner:.magenta} [{elapsed_precise}] Downloading AUR packages ({pos} downloaded)"
            },
            Bar::Build => if show_eta {
                "{spinner:.yellow} [{elapsed_precise}] Building AUR packages ({pos} built) ETA: {eta}"
            } else {
                "{spinner:.yellow} [{elapsed_precise}] Building AUR packages ({pos} built)"
            },
            Bar::Install => if show_eta {
                "{spinner:.green} [{elapsed_precise}] Installing AUR packages ({pos} installed) ETA: {eta}"
            } else {
                "{spinner:.green} [{elapsed_precise}] Installing AUR packages ({pos} installed)"
            },
        },
        _ => match bar {
            Bar::Download => if show_eta {
                "{spinner:.cyan} [{elapsed_precise}] Downloading packages ({pos} downloaded) ETA: {eta}"
            } else {
                "{spinner:.cyan} [{elapsed_precise}] Downloading packages ({pos} downloaded)"
            },
            _ => if show_eta {
                "{spinner:.green} [{elapsed_precise}] Installing packages ({pos} installed) ETA: {eta}"
            } else {
                "{spinner:.green} [{elapsed_precise}] Installing packages ({pos} installed)"
            },
        },
    }
}

/// The template of the counter `bar` once the number of packages is known.
pub fn bar_template(bar: Bar) -> (r: &'static str)
    ensures
        r@ == spec_bar_template(bar),
{
    match bar {
        Bar::Download => "{spinner:.cyan} [{elapsed_precise}] [{bar:40.cyan}] {pos}/{len} Downloading",
        Bar::Build => "{spinner:.yellow} [{elapsed_precise}] [{bar:40.yellow}] {pos}/{len} Building",
        Bar::Install => "{spinner:.green} [{elapsed_precise}] [{bar:40.green}] {pos}/{len} Installing",
    }
}

/// What the counter `bar` says at the end of a run that succeeded or failed.
pub fn finish_message(bar: Bar, success: bool) -> (r: &'static str)
    ensures
        r@ == spec_finish_message(bar, success),
{
    match bar {
        Bar::Download => if success {
            "Downloads complete"
        } else {
            "Downloads failed"
        },
        Bar::Build => if success {
            "Builds complete"
        } else {
            "Builds failed"
        },
        Bar::Install => if success {
            "Installation complete"
        } else {
            "Installation failed"
        },
    }
}

} // verus!
