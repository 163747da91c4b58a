//! The installation as the operator describes it, and the script that
//! carries it out.

use crate::cli::{DesktopSetup, Partition, PartitionMode, PartitionView};
use crate::modules::base::grub::{
    install_bootloader_efi, install_bootloader_legacy, spec_install_bootloader_efi,
    spec_install_bootloader_legacy,
};
use crate::modules::base::nvidia::{install_nvidia, spec_install_nvidia};
use crate::modules::base::{
    copy_live_config, genfstab, install_base_packages, install_flatpak, install_zram,
    setup_archlinux_keyring, spec_genfstab, spec_install_base_packages, spec_install_flatpak,
    spec_install_zram, spec_setup_archlinux_keyring,
};
use crate::modules::desktops::{install_desktop_setup, spec_install_desktop_setup};
use crate::modules::locale::{
    set_keyboard, set_locale, set_timezone, spec_set_keyboard, spec_set_locale, spec_set_timezone,
};
use crate::modules::network::{
    create_hosts, enable_ipv6, set_hostname, spec_create_hosts, spec_enable_ipv6, spec_set_hostname,
};
use crate::modules::partition::{partition, spec_partition};
use crate::modules::users::{new_user, root_pass, spec_new_user, spec_root_pass};
use crate::script::{
    conditional, extend, plain_step, push_step, warning, Action, ActionView, Condition, Policy,
    Step, StepView,
};
use crate::text::{
    borrow_all, concat2, concat3, join, join_all, lowercase, lowercase_of, split, split_on,
    str_equal, to_chars, views,
};
use crate::utils::exec::{host_step, run_on_host, spec_exec};
use crate::utils::install::{default_config, install, spec_install};
use crate::utils::returncode_eval::HostError;
use vstd::prelude::*;
use vstd::string::*;

verus! {

/// Everything the operator decides.
#[derive(Debug)]
pub struct Config {
    pub partition: PartitionConfig,
    pub bootloader: BootloaderConfig,
    pub locale: LocaleConfig,
    pub networking: NetworkConfig,
    pub users: Vec<UserConfig>,
    pub rootpass: String,
    pub desktop: String,
    pub zram: u64,
    pub nvidia: bool,
    pub extra_packages: Vec<String>,
    pub kernel: String,
    pub flatpak: bool,
}

/// The target disk.
#[derive(Debug)]
pub struct PartitionConfig {
    /// The device, by its name under `/dev` or by its path.
    pub device: String,
    pub mode: PartitionMode,
    pub efi: bool,
    /// For manual mode: `mountpoint:blockdevice:filesystem`, one for each
    /// partition.
    pub partitions: Vec<String>,
}

/// The boot loader.
#[derive(Debug)]
pub struct BootloaderConfig {
    /// `grub-efi` or `grub-legacy`.
    pub kind: String,
    /// The system partition's directory for UEFI, the device for BIOS.
    pub location: String,
}

/// Language, keyboard, time.
#[derive(Debug)]
pub struct LocaleConfig {
    pub locale: Vec<String>,
    pub keymap: String,
    pub timezone: String,
}

/// The network.
#[derive(Debug)]
pub struct NetworkConfig {
    pub hostname: String,
    pub ipv6: bool,
}

/// One account.
#[derive(Debug)]
pub struct UserConfig {
    pub name: String,
    pub password: String,
    pub hasroot: bool,
    pub shell: String,
}

/// A partition is given as three fields with colons between them.
pub open spec fn well_formed_partition(text: Seq<char>) -> bool {
    split(text, ':').len() == 3
}

/// The partition that three fields stand for.
pub open spec fn partition_of(text: Seq<char>) -> PartitionView
    recommends
        well_formed_partition(text),
{
    let fields = split(text, ':');
    PartitionView { mountpoint: fields[0], blockdevice: fields[1], filesystem: fields[2] }
}

/// `i` is the index of the first of `texts` that is no partition.
pub open spec fn first_malformed_at(texts: Seq<String>, i: int) -> bool {
    &&& 0 <= i < texts.len()
    &&& !well_formed_partition(texts[i]@)
    &&& forall|k: int| 0 <= k < i ==> well_formed_partition(#[trigger] texts[k]@)
}

/// Every one of `texts` is a partition.
pub open spec fn all_well_formed(texts: Seq<String>) -> bool {
    forall|i: int| 0 <= i < texts.len() ==> well_formed_partition(#[trigger] texts[i]@)
}

/// The partitions that `texts` stand for.
pub open spec fn partitions_of(texts: Seq<String>) -> Seq<PartitionView> {
    Seq::new(texts.len(), |i: int| partition_of(texts[i]@))
}

/// A device given by name lies under `/dev`; one given by an absolute path
/// is that path.
pub open spec fn device_path(device: Seq<char>) -> Seq<char> {
    if device.len() > 0 && device[0] == '/' {
        device
    } else {
        "/dev/"@ + device
    }
}

/// The tools that the host must have.
pub open spec fn essential_tools() -> Seq<Seq<char>> {
    seq!["cat"@, "mount"@, "umount"@, "chroot"@, "pacstrap"@]
}

/// One question for each essential tool; a missing tool is worth a warning.
pub open spec fn spec_ensure_host_tools() -> Seq<StepView> {
    Seq::new(
        5,
        |i: int|
            plain_step(
                ActionView::Run(spec_exec("which"@, seq![essential_tools()[i]])),
                Policy::Warn,
                "look for "@ + essential_tools()[i],
            ),
    )
}

/// The step that makes one directory of the new system's skeleton.
pub open spec fn skeleton_step(dir: Seq<char>) -> StepView {
    plain_step(
        ActionView::Run(spec_exec("mkdir"@, seq!["-p"@, dir])),
        Policy::Warn,
        "create "@ + dir,
    )
}

/// The skeleton is made, the kernel's file systems are mounted into it, and
/// the mounts are given a second to settle.
pub open spec fn spec_prepare_chroot_environment() -> Seq<StepView> {
    seq![
        skeleton_step("/mnt/proc"@),
        skeleton_step("/mnt/sys"@),
        skeleton_step("/mnt/dev"@),
        skeleton_step("/mnt/dev/pts"@),
        skeleton_step("/mnt/tmp"@),
        skeleton_step("/mnt/run"@),
        host_step("mount"@, seq!["-t"@, "proc"@, "proc"@, "/mnt/proc"@], "mount proc filesystem"@),
        host_step("mount"@, seq!["-t"@, "sysfs"@, "sysfs"@, "/mnt/sys"@], "mount sys filesystem"@),
        host_step("mount"@, seq!["--bind"@, "/dev"@, "/mnt/dev"@], "bind mount dev filesystem"@),
        host_step(
            "mount"@,
            seq!["-t"@, "devpts"@, "devpts"@, "/mnt/dev/pts"@],
            "mount devpts filesystem"@,
        ),
        plain_step(ActionView::Pause(1000), Policy::Ignore, "wait for mounts to stabilize"@),
    ]
}

/// One mount point is let go: plainly, lazily if that fails, and always
/// followed by a short rest.
pub open spec fn letting_go(mount_point: Seq<char>) -> Seq<StepView> {
    seq![
        plain_step(
            ActionView::Run(spec_exec("umount"@, seq![mount_point])),
            Policy::Ignore,
            "unmount "@ + mount_point,
        ),
        conditional(
            plain_step(
                ActionView::Run(spec_exec("umount"@, seq!["-l"@, mount_point])),
                Policy::Ignore,
                "lazy unmount "@ + mount_point,
            ),
            Condition::IfFailed,
        ),
        plain_step(ActionView::Pause(200), Policy::Ignore, "wait between unmounts"@),
    ]
}

/// After a second's rest, the mounts of the installation are let go, the
/// innermost first.
pub open spec fn spec_cleanup_installation() -> Seq<StepView> {
    seq![plain_step(ActionView::Pause(1000), Policy::Ignore, "wait for pending operations"@)]
        + letting_go("/mnt/dev/pts"@) + letting_go("/mnt/dev"@) + letting_go("/mnt/proc"@)
        + letting_go("/mnt/sys"@) + letting_go("/mnt/boot"@)
}

/// The boot loader that a kind names; nothing for any other kind.
pub open spec fn spec_setup_bootloader(kind: Seq<char>, location: Seq<char>) -> Seq<StepView> {
    if kind == "grub-efi"@ {
        spec_install_bootloader_efi(location)
    } else if kind == "grub-legacy"@ {
        spec_install_bootloader_legacy(location)
    } else {
        Seq::empty()
    }
}

/// The desktop that a lower-case name stands for.
pub open spec fn spec_desktop_from_name(name: Seq<char>) -> Option<DesktopSetup> {
    if name == "plasma"@ || name == "kde"@ {
        Some(DesktopSetup::Plasma)
    } else if name == "gnome"@ {
        Some(DesktopSetup::Gnome)
    } else if name == "cosmic"@ {
        Some(DesktopSetup::Cosmic)
    } else if name == "cinnamon"@ {
        Some(DesktopSetup::Cinnamon)
    } else if name == "none"@ {
        Some(DesktopSetup::NoDesktop)
    } else {
        None
    }
}

/// The accounts, in the order given.
pub open spec fn user_steps(users: Seq<UserConfig>) -> Seq<StepView>
    decreases users.len(),
{
    if users.len() == 0 {
        Seq::empty()
    } else {
        let u = users.last();
        user_steps(users.drop_last()) + spec_new_user(u.name@, u.hasroot, u.password@, u.shell@)
    }
}

impl Config {
    /// The locales as one line, the way the locale stage takes them.
    pub open spec fn locale_line(self) -> Seq<char> {
        join(self.locale.locale.deep_view(), " "@)
    }

    /// Every locale of the list has a name and a character set.
    pub open spec fn locales_paired(self) -> bool {
        split(self.locale_line(), ' ').len() % 2 == 0
    }

    /// Script of the partitioning.
    pub open spec fn spec_setup_partitions(self) -> Seq<StepView> {
        spec_partition(
            device_path(self.partition.device@),
            self.partition.mode,
            self.partition.efi,
            partitions_of(self.partition.partitions@),
        )
    }

    /// Script of the base system.
    pub open spec fn spec_install_base_system(self) -> Seq<StepView> {
        spec_ensure_host_tools() + spec_install_base_packages(self.kernel@)
            + spec_prepare_chroot_environment() + spec_setup_archlinux_keyring() + spec_genfstab()
            + if self.flatpak {
            spec_install_flatpak()
        } else {
            Seq::empty()
        }
    }

    /// Script of language, keyboard and time.
    pub open spec fn spec_configure_locale(self) -> Seq<StepView> {
        spec_set_locale(self.locale_line()) + spec_set_keyboard(self.locale.keymap@)
            + spec_set_timezone(self.locale.timezone@)
    }

    /// Script of the network.
    pub open spec fn spec_setup_networking(self) -> Seq<StepView> {
        spec_set_hostname(self.networking.hostname@) + spec_create_hosts() + if self.networking.ipv6 {
            spec_enable_ipv6()
        } else {
            Seq::empty()
        }
    }

    /// Script of the desktop: that of the desktop named, a warning for a
    /// name that is not known.
    pub open spec fn spec_install_desktop(self) -> Seq<StepView> {
        match spec_desktop_from_name(lowercase_of(self.desktop@)) {
            Some(setup) => spec_install_desktop_setup(setup),
            None => seq![warning("Unknown desktop: "@ + self.desktop@ + ", skipping"@)],
        }
    }

    /// Script of the accounts: the users, then root's password.
    pub open spec fn spec_create_users(self) -> Seq<StepView> {
        user_steps(self.users@) + spec_root_pass(self.rootpass@)
    }

    /// Script of the last stage: the graphics driver if asked for, memory
    /// compression, the extra packages if there are any, and the unmounting.
    pub open spec fn spec_finalize_installation(self, listing: Result<String, HostError>) -> Seq<
        StepView,
    > {
        (if self.nvidia {
            spec_install_nvidia(listing)
        } else {
            Seq::empty()
        }) + spec_install_zram(self.zram) + (if self.extra_packages.len() > 0 {
            spec_install(self.extra_packages.deep_view(), default_config())
        } else {
            Seq::empty()
        }) + spec_cleanup_installation()
    }

    /// Script of the whole installation.
    pub open spec fn spec_read_config(self, listing: Result<String, HostError>) -> Seq<StepView> {
        self.spec_setup_partitions() + self.spec_install_base_system() + spec_setup_bootloader(
            self.bootloader.kind@,
            self.bootloader.location@,
        ) + self.spec_configure_locale() + self.spec_setup_networking() + self.spec_install_desktop()
            + self.spec_create_users() + self.spec_finalize_installation(listing)
    }

    /// Whether every locale of the list has a name and a character set.
    pub fn has_paired_locales(&self) -> (r: bool)
        ensures
            r == self.locales_paired(),
    {
        let line = join_all(&self.locale.locale, " ");
        let words = split_on(line.as_str(), ' ');
        words.len() % 2 == 0
    }

    /// Reads the partitions of manual mode. The first text that does not
    /// hold exactly three fields is answered with an error that names it.
    pub fn parse_partitions(&self) -> (r: Result<Vec<Partition>, String>)
        ensures
            r is Ok <==> all_well_formed(self.partition.partitions@),
            r is Ok ==> r->Ok_0.deep_view() == partitions_of(self.partition.partitions@),
            r is Err ==> exists|i: int|
                first_malformed_at(self.partition.partitions@, i) && r->Err_0@
                    == "Invalid partition format: "@ + self.partition.partitions@[i]@,
    {
        let texts = &self.partition.partitions;
        let mut out: Vec<Partition> = Vec::new();
        let mut i: usize = 0;
        while i < texts.len()
            invariant
                i <= texts.len(),
                out.len() == i,
                texts == &self.partition.partitions,
                forall|k: int| 0 <= k < i ==> well_formed_partition(#[trigger] texts[k]@),
                forall|k: int| 0 <= k < i ==> (#[trigger] out[k])@ == partition_of(texts[k]@),
            decreases texts.len() - i,
        {
            let parts = split_on(texts[i].as_str(), ':');
            if parts.len() != 3 {
                assert(first_malformed_at(self.partition.partitions@, i as int));
                return Err(concat2("Invalid partition format: ", texts[i].as_str()));
            }
            out.push(Partition::new(parts[0].clone(), parts[1].clone(), parts[2].clone()));
            i = i + 1;
        }
        assert(out.deep_view() =~= partitions_of(self.partition.partitions@));
        Ok(out)
    }

    /// The path of the target device.
    fn device(&self) -> (r: String)
        ensures
            r@ == device_path(self.partition.device@),
    {
        let chars = to_chars(self.partition.device.as_str());
        if chars.len() > 0 && chars[0] == '/' {
            self.partition.device.clone()
        } else {
            concat2("/dev/", self.partition.device.as_str())
        }
    }

    /// Partitions, formats and mounts the target disk.
    pub fn setup_partitions(&self) -> (r: Result<Vec<Step>, String>)
        ensures
            r is Ok <==> all_well_formed(self.partition.partitions@),
            r is Ok ==> r->Ok_0.deep_view() == self.spec_setup_partitions(),
            r is Err ==> exists|i: int|
                first_malformed_at(self.partition.partitions@, i) && r->Err_0@
                    == "Invalid partition format: "@ + self.partition.partitions@[i]@,
    {
        let mut partitions = match self.parse_partitions() {
            Ok(partitions) => partitions,
            Err(e) => {
                return Err(e);
            },
        };
        let device = self.device();
        Ok(partition(device.as_str(), self.partition.mode, self.partition.efi, &mut partitions))
    }

    /// Installs the base system.
    pub fn install_base_system(&self) -> (plan: Vec<Step>)
        ensures
            plan.deep_view() == self.spec_install_base_system(),
    {
        let mut plan = Self::ensure_host_tools();
        extend(&mut plan, install_base_packages(self.kernel.as_str()));
        extend(&mut plan, Self::prepare_chroot_environment());
        extend(&mut plan, setup_archlinux_keyring());
        extend(&mut plan, genfstab());
        if self.flatpak {
            extend(&mut plan, install_flatpak());
        }
        assert(plan.deep_view() =~= self.spec_install_base_system());
        plan
    }

    /// Looks for the tools that the installation runs on the host.
    pub fn ensure_host_tools() -> (plan: Vec<Step>)
        ensures
            plan.deep_view() == spec_ensure_host_tools(),
    {
        let tools = ["cat", "mount", "umount", "chroot", "pacstrap"];
        assert(views(tools@) =~= essential_tools());
        let mut plan: Vec<Step> = Vec::new();
        let mut i: usize = 0;
        while i < 5
            invariant
                i <= 5,
                plan.len() == i,
                views(tools@) == essential_tools(),
                forall|k: int| 0 <= k < i ==> (#[trigger] plan[k])@ == spec_ensure_host_tools()[k],
            decreases 5 - i,
        {
            let tool = [tools[i]];
            assert(views(tool@) =~= seq![essential_tools()[i as int]]) by {
                assert(views(tools@)[i as int] == tools[i as int]@);
            }
            plan.push(
                Step::new(
                    Action::Run(crate::utils::exec::exec("which", &tool)),
                    Policy::Warn,
                    concat2("look for ", tools[i]),
                ),
            );
            assert(views(tools@)[i as int] == tools[i as int]@);
            i = i + 1;
        }
        assert(plan.deep_view() =~= spec_ensure_host_tools());
        plan
    }

    /// One directory of the skeleton.
    fn skeleton(dir: &str) -> (r: Step)
        ensures
            r@ == skeleton_step(dir@),
    {
        let args = ["-p", dir];
        assert(views(args@) =~= seq!["-p"@, dir@]);
        Step::new(
            Action::Run(crate::utils::exec::exec("mkdir", &args)),
            Policy::Warn,
            concat2("create ", dir),
        )
    }

    /// Makes the new system ready for programs to run in it.
    pub fn prepare_chroot_environment() -> (plan: Vec<Step>)
        ensures
            plan.deep_view() == spec_prepare_chroot_environment(),
    {
        let mut plan: Vec<Step> = Vec::new();
        push_step(&mut plan, Self::skeleton("/mnt/proc"));
        push_step(&mut plan, Self::skeleton("/mnt/sys"));
        push_step(&mut plan, Self::skeleton("/mnt/dev"));
        push_step(&mut plan, Self::skeleton("/mnt/dev/pts"));
        push_step(&mut plan, Self::skeleton("/mnt/tmp"));
        push_step(&mut plan, Self::skeleton("/mnt/run"));
        let proc = ["-t", "proc", "proc", "/mnt/proc"];
        assert(views(proc@) =~= seq!["-t"@, "proc"@, "proc"@, "/mnt/proc"@]);
        push_step(&mut plan, run_on_host("mount", &proc, "mount proc filesystem"));
        let sys = ["-t", "sysfs", "sysfs", "/mnt/sys"];
        assert(views(sys@) =~= seq!["-t"@, "sysfs"@, "sysfs"@, "/mnt/sys"@]);
        push_step(&mut plan, run_on_host("mount", &sys, "mount sys filesystem"));
        let dev = ["--bind", "/dev", "/mnt/dev"];
        assert(views(dev@) =~= seq!["--bind"@, "/dev"@, "/mnt/dev"@]);
        push_step(&mut plan, run_on_host("mount", &dev, "bind mount dev filesystem"));
        let pts = ["-t", "devpts", "devpts", "/mnt/dev/pts"];
        assert(views(pts@) =~= seq!["-t"@, "devpts"@, "devpts"@, "/mnt/dev/pts"@]);
        push_step(&mut plan, run_on_host("mount", &pts, "mount devpts filesystem"));
        push_step(
            &mut plan,
            Step::new(
                Action::Pause(1000),
                Policy::Ignore,
                String::from_str("wait for mounts to stabilize"),
            ),
        );
        assert(plan.deep_view() =~= spec_prepare_chroot_environment());
        plan
    }

    /// Installs the boot loader.
    pub fn setup_bootloader(&self) -> (plan: Vec<Step>)
        ensures
            plan.deep_view() == spec_setup_bootloader(
                self.bootloader.kind@,
                self.bootloader.location@,
            ),
    {
        if str_equal(self.bootloader.kind.as_str(), "grub-efi") {
            install_bootloader_efi(self.bootloader.location.as_str())
        } else if str_equal(self.bootloader.kind.as_str(), "grub-legacy") {
            install_bootloader_legacy(self.bootloader.location.as_str())
        } else {
            let plan: Vec<Step> = Vec::new();
            assert(plan.deep_view() =~= Seq::<StepView>::empty());
            plan
        }
    }

    /// Sets language, keyboard and time.
    pub fn configure_locale(&self) -> (plan: Vec<Step>)
        requires
            self.locales_paired(),
        ensures
            plan.deep_view() == self.spec_configure_locale(),
    {
        let line = join_all(&self.locale.locale, " ");
        let mut plan = set_locale(line.as_str());
        extend(&mut plan, set_keyboard(self.locale.keymap.as_str()));
        extend(&mut plan, set_timezone(self.locale.timezone.as_str()));
        plan
    }

    /// Sets up the network.
    pub fn setup_networking(&self) -> (plan: Vec<Step>)
        ensures
            plan.deep_view() == self.spec_setup_networking(),
    {
        let mut plan = set_hostname(self.networking.hostname.as_str());
        extend(&mut plan, create_hosts());
        if self.networking.ipv6 {
            extend(&mut plan, enable_ipv6());
        }
        assert(plan.deep_view() =~= self.spec_setup_networking());
        plan
    }

    /// Installs the desktop that the config names, whatever the case of the
    /// name's letters.
    pub fn install_desktop(&self) -> (plan: Vec<Step>)
        ensures
            plan.deep_view() == self.spec_install_desktop(),
    {
        let name = lowercase(self.desktop.as_str());
        match desktop_from_name(name.as_str()) {
            Some(setup) => install_desktop_setup(setup),
            None => {
                let mut plan: Vec<Step> = Vec::new();
                push_step(
                    &mut plan,
                    Step::warning(concat3("Unknown desktop: ", self.desktop.as_str(), ", skipping")),
                );
                assert(plan.deep_view() =~= self.spec_install_desktop());
                plan
            },
        }
    }

    /// Makes the users and sets root's password.
    pub fn create_users(&self) -> (plan: Vec<Step>)
        ensures
            plan.deep_view() == self.spec_create_users(),
    {
        let mut plan: Vec<Step> = Vec::new();
        let mut i: usize = 0;
        assert(self.users@.take(0) =~= Seq::<UserConfig>::empty());
        while i < self.users.len()
            invariant
                i <= self.users.len(),
                plan.deep_view() == user_steps(self.users@.take(i as int)),
            decreases self.users.len() - i,
        {
            let user = &self.users[i];
            assert(self.users@.take(i + 1).drop_last() =~= self.users@.take(i as int));
            assert(self.users@.take(i + 1).last() == *user);
            extend(
                &mut plan,
                new_user(
                    user.name.as_str(),
                    user.hasroot,
                    user.password.as_str(),
                    user.shell.as_str(),
                ),
            );
            i = i + 1;
        }
        assert(self.users@.take(i as int) =~= self.users@);
        extend(&mut plan, root_pass(self.rootpass.as_str()));
        plan
    }

    /// The last stage. `listing` is what the bus listing printed, or why it
    /// could not be run; it is looked at only if the graphics driver is
    /// asked for.
    pub fn finalize_installation(&self, listing: &Result<String, HostError>) -> (plan: Vec<Step>)
        ensures
            plan.deep_view() == self.spec_finalize_installation(*listing),
    {
        let mut plan = copy_live_config();
        if self.nvidia {
            extend(&mut plan, install_nvidia(listing));
        }
        extend(&mut plan, install_zram(self.zram));
        if self.extra_packages.len() > 0 {
            let packages = borrow_all(&self.extra_packages);
            extend(&mut plan, install(packages.as_slice()));
        }
        extend(&mut plan, Self::cleanup_installation());
        assert(plan.deep_view() =~= self.spec_finalize_installation(*listing));
        plan
    }

    /// The steps that let one mount point go.
    fn let_go(mount_point: &str) -> (plan: Vec<Step>)
        ensures
            plan.deep_view() == letting_go(mount_point@),
    {
        let mut plan: Vec<Step> = Vec::new();
        let plain = [mount_point];
        assert(views(plain@) =~= seq![mount_point@]);
        push_step(
            &mut plan,
            Step::new(
                Action::Run(crate::utils::exec::exec("umount", &plain)),
                Policy::Ignore,
                concat2("unmount ", mount_point),
            ),
        );
        let lazy = ["-l", mount_point];
        assert(views(lazy@) =~= seq!["-l"@, mount_point@]);
        push_step(
            &mut plan,
            Step::new(
                Action::Run(crate::utils::exec::exec("umount", &lazy)),
                Policy::Ignore,
                concat2("lazy unmount ", mount_point),
            ).only(Condition::IfFailed),
        );
        push_step(
            &mut plan,
            Step::new(Action::Pause(200), Policy::Ignore, String::from_str("wait between unmounts")),
        );
        assert(plan.deep_view() =~= letting_go(mount_point@));
        plan
    }

    /// Unmounts what the installation mounted into the new system.
    pub fn cleanup_installation() -> (plan: Vec<Step>)
        ensures
            plan.deep_view() == spec_cleanup_installation(),
    {
        let mut plan: Vec<Step> = Vec::new();
        push_step(
            &mut plan,
            Step::new(
                Action::Pause(1000),
                Policy::Ignore,
                String::from_str("wait for pending operations"),
            ),
        );
        extend(&mut plan, Self::let_go("/mnt/dev/pts"));
        extend(&mut plan, Self::let_go("/mnt/dev"));
        extend(&mut plan, Self::let_go("/mnt/proc"));
        extend(&mut plan, Self::let_go("/mnt/sys"));
        extend(&mut plan, Self::let_go("/mnt/boot"));
        assert(plan.deep_view() =~= spec_cleanup_installation());
        plan
    }
}

/// The desktop that the lower-case name `name` stands for.
pub fn desktop_from_name(name: &str) -> (r: Option<DesktopSetup>)
    ensures
        r == spec_desktop_from_name(name@),
{
    if str_equal(name, "plasma") || str_equal(name, "kde") {
        Some(DesktopSetup::Plasma)
    } else if str_equal(name, "gnome") {
        Some(DesktopSetup::Gnome)
    } else if str_equal(name, "cosmic") {
        Some(DesktopSetup::Cosmic)
    } else if str_equal(name, "cinnamon") {
        Some(DesktopSetup::Cinnamon)
    } else if str_equal(name, "none") {
        Some(DesktopSetup::NoDesktop)
    } else {
        None
    }
}

/// The script of the whole installation that `config` describes: the disk,
/// the base system, the boot loader, the locale, the network, the desktop,
/// the accounts, the last touches.
///
/// Fails, before anything is planned, exactly when a partition of the config
/// is malformed. `listing` is what the bus listing printed, or why it could
/// not be run.
pub fn read_config(config: &Config, listing: &Result<String, HostError>) -> (r: Result<
    Vec<Step>,
    String,
>)
    requires
        config.locales_paired(),
    ensures
        r is Ok <==> all_well_formed(config.partition.partitions@),
        r is Ok ==> r->Ok_0.deep_view() == config.spec_read_config(*listing),
        r is Err ==> exists|i: int|
            first_malformed_at(config.partition.partitions@, i) && r->Err_0@
                == "Invalid partition format: "@ + config.partition.partitions@[i]@,
{
    let mut plan = match config.setup_partitions() {
        Ok(plan) => plan,
        Err(e) => {
            return Err(e);
        },
    };
    extend(&mut plan, config.install_base_system());
    extend(&mut plan, config.setup_bootloader());
    extend(&mut plan, config.configure_locale());
    extend(&mut plan, config.setup_networking());
    extend(&mut plan, config.install_desktop());
    extend(&mut plan, config.create_users());
    extend(&mut plan, config.finalize_installation(listing));
    Ok(plan)
}

} // verus!
