//! Partitioning, formatting and mounting of the target disk.
//!
//! Every function here returns the script that does the work: which programs
//! to run on which arguments, in which order, and what a failure of each
//! means. Block device names are taken apart and put together here as well.

pub mod laws;

use crate::cli::{Partition, PartitionMode, PartitionView};
use crate::script::{
    conditional, extend, failing, plain_step, push_step, run_step, stop, warning, Action,
    ActionView, Condition, Failure, Policy, Step, StepView,
};
use crate::text::{
    all_digits, chars_all_digits, chars_contain_str, chars_equal, chars_last_index_of,
    chars_trailing_digits, concat2, concat3, contains, decimal, decimal_string, 
    last_index_of, lower, lowered, str_equal, strings, substring, to_chars, trailing_digits, views,
};
use vstd::prelude::*;
use vstd::string::*;

verus! {

/// Start of the boot partition of the automatic layouts.
pub open spec fn boot_start() -> Seq<char> {
    "1MiB"@
}

/// End of the boot partition of the automatic layouts, and start of the root
/// partition.
pub open spec fn boot_size() -> Seq<char> {
    "513MiB"@
}

/// The directory under which the new system is assembled.
pub open spec fn staging_root() -> Seq<char> {
    "/mnt"@
}

/// Where the boot partition is mounted.
pub open spec fn staging_boot() -> Seq<char> {
    "/mnt/boot"@
}

/// The filesystems the installer knows.
#[derive(Debug, Clone, Copy, PartialEq, Eq, Structural)]
pub enum FilesystemType {
    Ext4,
    Fat32,
    Btrfs,
    Xfs,
    /// Leave the partition as it is; it is still mounted.
    NoFormat,
}

impl FilesystemType {
    /// The filesystem that a lower-case name stands for.
    pub open spec fn of_lower_name(name: Seq<char>) -> Option<Self> {
        if name == "ext4"@ {
            Some(Self::Ext4)
        } else if name == "fat32"@ {
            Some(Self::Fat32)
        } else if name == "btrfs"@ {
            Some(Self::Btrfs)
        } else if name == "xfs"@ {
            Some(Self::Xfs)
        } else if name == "noformat"@ || name == "don't format"@ {
            Some(Self::NoFormat)
        } else {
            None
        }
    }

    /// The filesystem that `name` stands for, whatever the case of its letters.
    pub open spec fn spec_from_str(name: Seq<char>) -> Option<Self> {
        Self::of_lower_name(lower(name))
    }

    /// The program that makes this filesystem.
    pub open spec fn spec_command(self) -> Seq<char>
        recommends
            !(self is NoFormat),
    {
        match self {
            Self::Ext4 => "mkfs.ext4"@,
            Self::Fat32 => "mkfs.fat"@,
            Self::Btrfs => "mkfs.btrfs"@,
            Self::Xfs => "mkfs.xfs"@,
            Self::NoFormat => Seq::empty(),
        }
    }

    /// The arguments that make the program overwrite what is there.
    pub open spec fn spec_args(self) -> Seq<Seq<char>>
        recommends
            !(self is NoFormat),
    {
        match self {
            Self::Ext4 => seq!["-F"@],
            Self::Fat32 => seq!["-F32"@],
            Self::Btrfs => seq!["-f"@],
            Self::Xfs => seq!["-f"@],
            Self::NoFormat => Seq::empty(),
        }
    }

    /// The host packages that hold the program.
    pub open spec fn spec_packages(self) -> Seq<Seq<char>> {
        match self {
            Self::Btrfs => seq!["btrfs-progs"@],
            Self::Xfs => seq!["xfsprogs"@],
            _ => Seq::empty(),
        }
    }

    /// The name under which the filesystem is shown.
    pub open spec fn spec_display_name(self) -> Seq<char> {
        match self {
            Self::Ext4 => "ext4"@,
            Self::Fat32 => "fat32"@,
            Self::Btrfs => "btrfs"@,
            Self::Xfs => "xfs"@,
            Self::NoFormat => "noformat"@,
        }
    }

    /// Reads a filesystem name, in any mix of upper and lower case.
    pub fn from_str(filesystem: &str) -> (r: Option<Self>)
        ensures
            r == Self::spec_from_str(filesystem@),
    {
        let name = lowered(filesystem);
        if chars_equal(&name, "ext4") {
            Some(Self::Ext4)
        } else if chars_equal(&name, "fat32") {
            Some(Self::Fat32)
        } else if chars_equal(&name, "btrfs") {
            Some(Self::Btrfs)
        } else if chars_equal(&name, "xfs") {
            Some(Self::Xfs)
        } else if chars_equal(&name, "noformat") || chars_equal(&name, "don't format") {
            Some(Self::NoFormat)
        } else {
            None
        }
    }

    /// The program that makes this filesystem. `NoFormat` has none.
    pub fn command(&self) -> (r: &'static str)
        requires
            !(self is NoFormat),
        ensures
            r@ == self.spec_command(),
    {
        match self {
            Self::Ext4 => "mkfs.ext4",
            Self::Fat32 => "mkfs.fat",
            Self::Btrfs => "mkfs.btrfs",
            _ => "mkfs.xfs",
        }
    }

    /// The arguments that make the program overwrite what is there.
    /// `NoFormat` has none.
    pub fn args(&self) -> (r: Vec<&'static str>)
        requires
            !(self is NoFormat),
        ensures
            r.deep_view() == self.spec_args(),
    {
        let mut r: Vec<&'static str> = Vec::new();
        match self {
            Self::Ext4 => r.push("-F"),
            Self::Fat32 => r.push("-F32"),
            _ => r.push("-f"),
        }
        assert(r.deep_view() =~= self.spec_args());
        r
    }

    /// The host packages that must be there before this filesystem can be made.
    pub fn packages(&self) -> (r: Vec<&'static str>)
        ensures
            r.deep_view() == self.spec_packages(),
    {
        let mut r: Vec<&'static str> = Vec::new();
        match self {
            Self::Btrfs => r.push("btrfs-progs"),
            Self::Xfs => r.push("xfsprogs"),
            _ => {},
        }
        assert(r.deep_view() =~= self.spec_packages());
        r
    }

    /// Whether a partition of this kind is formatted at all.
    pub fn needs_formatting(&self) -> (r: bool)
        ensures
            r == !(self is NoFormat),
    {
        !matches!(self, Self::NoFormat)
    }

    /// The name under which the filesystem is shown.
    pub fn display_name(&self) -> (r: &'static str)
        ensures
            r@ == self.spec_display_name(),
    {
        match self {
            Self::Ext4 => "ext4",
            Self::Fat32 => "fat32",
            Self::Btrfs => "btrfs",
            Self::Xfs => "xfs",
            Self::NoFormat => "noformat",
        }
    }
}

/// Takes block device names apart and puts partition names together.
pub struct DeviceParser;

impl DeviceParser {
    /// Devices of these families put a `p` between the device and the
    /// partition number.
    pub open spec fn spec_is_nvme_or_mmc(device: Seq<char>) -> bool {
        contains(device, "nvme"@) || contains(device, "mmcblk"@)
    }

    /// Splits at the last `p`; without a `p`, the whole name is the device and
    /// the partition is 1.
    pub open spec fn spec_parse_nvme_mmc(blockdevice: Seq<char>) -> (Seq<char>, Seq<char>) {
        let p = last_index_of(blockdevice, 'p');
        if p >= 0 {
            (blockdevice.subrange(0, p), blockdevice.subrange(p + 1, blockdevice.len() as int))
        } else {
            (blockdevice, "1"@)
        }
    }

    /// Splits before the run of digits at the end; without one, the whole name
    /// is the device and the partition is 1.
    pub open spec fn spec_parse_regular(blockdevice: Seq<char>) -> (Seq<char>, Seq<char>) {
        let n = trailing_digits(blockdevice);
        if n > 0 {
            (
                blockdevice.subrange(0, blockdevice.len() - n),
                blockdevice.subrange(blockdevice.len() - n, blockdevice.len() as int),
            )
        } else {
            (blockdevice, "1"@)
        }
    }

    /// Base device and partition number of a block device name.
    pub open spec fn spec_parse(blockdevice: Seq<char>) -> (Seq<char>, Seq<char>) {
        if Self::spec_is_nvme_or_mmc(blockdevice) {
            Self::spec_parse_nvme_mmc(blockdevice)
        } else {
            Self::spec_parse_regular(blockdevice)
        }
    }

    /// The name holds no partition number, and 1 is assumed: an NVMe or MMC
    /// name without `p`, any other name without a digit at its end.
    pub open spec fn spec_lacks_number(blockdevice: Seq<char>) -> bool {
        if Self::spec_is_nvme_or_mmc(blockdevice) {
            last_index_of(blockdevice, 'p') < 0
        } else {
            trailing_digits(blockdevice) == 0
        }
    }

    /// What the operator is told of a name without a partition number.
    pub open spec fn lacking_message(blockdevice: Seq<char>) -> Seq<char> {
        if Self::spec_is_nvme_or_mmc(blockdevice) {
            "Could not parse NVMe/MMC device partition: "@ + blockdevice
        } else {
            "No partition number found in "@ + blockdevice + ", assuming partition 1"@
        }
    }

    /// The warning that goes with a name without a partition number; nothing
    /// for any other name.
    pub open spec fn spec_parse_warning(blockdevice: Seq<char>) -> Seq<StepView> {
        if Self::spec_lacks_number(blockdevice) {
            seq![warning(Self::lacking_message(blockdevice))]
        } else {
            Seq::empty()
        }
    }

    /// Name of partition `number` of `device`.
    pub open spec fn spec_partition_name(device: Seq<char>, number: u8) -> Seq<char> {
        if Self::spec_is_nvme_or_mmc(device) {
            device + "p"@ + decimal(number as nat)
        } else {
            device + decimal(number as nat)
        }
    }

    /// Names of the partitions `numbers` of `device`, in the order given.
    pub open spec fn spec_partition_names(device: Seq<char>, numbers: Seq<u8>) -> Seq<Seq<char>> {
        Seq::new(numbers.len(), |i: int| Self::spec_partition_name(device, numbers[i]))
    }

    /// Base device and partition number of a block device name.
    pub fn parse(blockdevice: &str) -> (r: (String, String))
        ensures
            (r.0@, r.1@) == Self::spec_parse(blockdevice@),
    {
        if Self::is_nvme_or_mmc(blockdevice) {
            Self::parse_nvme_mmc(blockdevice)
        } else {
            Self::parse_regular(blockdevice)
        }
    }

    /// Whether the device puts a `p` before its partition numbers.
    pub fn is_nvme_or_mmc(device_str: &str) -> (r: bool)
        ensures
            r == Self::spec_is_nvme_or_mmc(device_str@),
    {
        let chars = to_chars(device_str);
        chars_contain_str(&chars, "nvme") || chars_contain_str(&chars, "mmcblk")
    }

    /// Names of the partitions `partition_nums` of `device`.
    pub fn get_partition_names(device: &str, partition_nums: &[u8]) -> (r: Vec<String>)
        ensures
            r.deep_view() == Self::spec_partition_names(device@, partition_nums@),
    {
        let with_p = Self::is_nvme_or_mmc(device);
        let mut r: Vec<String> = Vec::new();
        let mut i: usize = 0;
        while i < partition_nums.len()
            invariant
                i <= partition_nums.len(),
                r.len() == i,
                with_p == Self::spec_is_nvme_or_mmc(device@),
                forall|k: int|
                    0 <= k < i ==> r[k]@ == Self::spec_partition_name(
                        device@,
                        #[trigger] partition_nums[k],
                    ),
            decreases partition_nums.len() - i,
        {
            let number = decimal_string(partition_nums[i] as u64);
            let name = if with_p {
                concat3(device, "p", number.as_str())
            } else {
                concat2(device, number.as_str())
            };
            r.push(name);
            i = i + 1;
        }
        assert(r.deep_view() =~= Self::spec_partition_names(device@, partition_nums@));
        r
    }

    /// Whether `blockdevice` holds no partition number, so that 1 is assumed.
    pub fn lacks_partition_number(blockdevice: &str) -> (r: bool)
        ensures
            r == Self::spec_lacks_number(blockdevice@),
    {
        let chars = to_chars(blockdevice);
        if Self::is_nvme_or_mmc(blockdevice) {
            chars_last_index_of(&chars, 'p').is_none()
        } else {
            chars_trailing_digits(&chars) == 0
        }
    }

    /// The warning that goes with `blockdevice`, if it holds no partition
    /// number.
    pub fn parse_warning(blockdevice: &str) -> (plan: Vec<Step>)
        ensures
            plan.deep_view() == Self::spec_parse_warning(blockdevice@),
    {
        let mut plan: Vec<Step> = Vec::new();
        if Self::lacks_partition_number(blockdevice) {
            let message = if Self::is_nvme_or_mmc(blockdevice) {
                concat2("Could not parse NVMe/MMC device partition: ", blockdevice)
            } else {
                concat3("No partition number found in ", blockdevice, ", assuming partition 1")
            };
            push_step(&mut plan, Step::warning(message));
        }
        assert(plan.deep_view() =~= Self::spec_parse_warning(blockdevice@));
        plan
    }

    /// Splits an NVMe or MMC partition name at its last `p`.
    pub fn parse_nvme_mmc(blockdevice: &str) -> (r: (String, String))
        ensures
            (r.0@, r.1@) == Self::spec_parse_nvme_mmc(blockdevice@),
    {
        let chars = to_chars(blockdevice);
        match chars_last_index_of(&chars, 'p') {
            Some(p_pos) => (
                substring(blockdevice, 0, p_pos),
                substring(blockdevice, p_pos + 1, chars.len()),
            ),
            None => (String::from_str(blockdevice), String::from_str("1")),
        }
    }

    /// Splits a partition name before the digits at its end.
    pub fn parse_regular(blockdevice: &str) -> (r: (String, String))
        ensures
            (r.0@, r.1@) == Self::spec_parse_regular(blockdevice@),
    {
        let chars = to_chars(blockdevice);
        let digits = chars_trailing_digits(&chars);
        if digits > 0 {
            let digit_start = chars.len() - digits;
            (
                substring(blockdevice, 0, digit_start),
                substring(blockdevice, digit_start, chars.len()),
            )
        } else {
            (String::from_str(blockdevice), String::from_str("1"))
        }
    }
}

/// The step that unmounts `target` and does not mind a failure.
pub open spec fn release_step(target: Seq<char>) -> StepView {
    run_step("umount"@, seq![target], Policy::Ignore, "unmount "@ + target)
}

/// Unmounts `target`; a failure means nothing.
fn release(target: &str) -> (r: Step)
    ensures
        r@ == release_step(target@),
{
    let args = strings(&[target]);
    assert(args.deep_view() =~= seq![target@]);
    Step::run("umount", args, Policy::Ignore, concat2("unmount ", target))
}

/// Sets the flag that marks the boot partition.
pub struct BootFlags;

impl BootFlags {
    /// `esp` for UEFI, `boot` for BIOS.
    pub open spec fn flag(efi: bool) -> Seq<char> {
        if efi {
            "esp"@
        } else {
            "boot"@
        }
    }

    /// A partition number is a non-empty run of digits.
    pub open spec fn valid_number(number: Seq<char>) -> bool {
        number.len() > 0 && all_digits(number)
    }

    /// The arguments with which the partition-table tool sets the flag.
    pub open spec fn flag_args(device: Seq<char>, number: Seq<char>, efi: bool) -> Seq<Seq<char>> {
        seq!["-s"@, device, "set"@, number, Self::flag(efi), "on"@]
    }

    /// What the strict form is for, in words.
    pub open spec fn set_description(efi: bool) -> Seq<char> {
        if efi {
            "set ESP flag on boot partition"@
        } else {
            "set boot flag on boot partition"@
        }
    }

    /// Script of the strict form: a malformed partition number stops the run,
    /// and so does any failure of the tool.
    pub open spec fn spec_set(blockdevice: Seq<char>, efi: bool) -> Seq<StepView> {
        let (device, number) = DeviceParser::spec_parse(blockdevice);
        DeviceParser::spec_parse_warning(blockdevice) + if Self::valid_number(number) {
            seq![
                failing(
                    run_step(
                        "parted"@,
                        Self::flag_args(device, number, efi),
                        Policy::Fatal,
                        Self::set_description(efi),
                    ),
                    Failure::BootFlagFailed,
                ),
            ]
        } else {
            seq![
                stop(
                    "Cannot set boot flags: invalid partition number '"@ + number + "' for "@
                        + blockdevice,
                    Failure::BootFlagFailed,
                ),
            ]
        }
    }

    /// Script of the strict form for the first partition of `device`.
    pub open spec fn spec_set_auto_flags(device: Seq<char>, efi: bool) -> Seq<StepView> {
        Self::spec_set(DeviceParser::spec_partition_name(device, 1), efi)
    }

    /// Script of the lenient form, where there is one: the tool is run only if
    /// the base device exists, and nothing in it can stop the run.
    pub open spec fn spec_try_set(blockdevice: Seq<char>, efi: bool) -> Option<Seq<StepView>> {
        let (device, number) = DeviceParser::spec_parse(blockdevice);
        if Self::valid_number(number) {
            Some(
                DeviceParser::spec_parse_warning(blockdevice) + seq![
                    failing(
                        plain_step(
                            ActionView::CheckPath(device),
                            Policy::Warn,
                            "find device "@ + device + " of "@ + blockdevice,
                        ),
                        Failure::BootFlagFailed,
                    ),
                    failing(
                        conditional(
                            run_step(
                                "parted"@,
                                Self::flag_args(device, number, efi),
                                Policy::Warn,
                                "set '"@ + Self::flag(efi) + "' flag on "@ + blockdevice,
                            ),
                            Condition::IfSucceeded,
                        ),
                        Failure::BootFlagFailed,
                    ),
                ],
            )
        } else {
            None
        }
    }

    /// Whether `number` is a non-empty run of digits.
    fn number_is_valid(number: &str) -> (r: bool)
        ensures
            r == Self::valid_number(number@),
    {
        let chars = to_chars(number);
        chars.len() > 0 && chars_all_digits(&chars)
    }

    /// The flag's name.
    fn flag_name(efi: bool) -> (r: &'static str)
        ensures
            r@ == Self::flag(efi),
    {
        if efi {
            "esp"
        } else {
            "boot"
        }
    }

    /// Sets the boot flag of `blockdevice`, or stops the run.
    pub fn set(blockdevice: &str, efi: bool) -> (plan: Vec<Step>)
        ensures
            plan.deep_view() == Self::spec_set(blockdevice@, efi),
    {
        let (device, number) = DeviceParser::parse(blockdevice);
        let mut plan = DeviceParser::parse_warning(blockdevice);
        if Self::number_is_valid(number.as_str()) {
            let args = strings(
                &[
                    "-s",
                    device.as_str(),
                    "set",
                    number.as_str(),
                    Self::flag_name(efi),
                    "on",
                ],
            );
            assert(args.deep_view() =~= Self::flag_args(device@, number@, efi));
            let description = if efi {
                "set ESP flag on boot partition"
            } else {
                "set boot flag on boot partition"
            };
            push_step(
                &mut plan,
                Step::run("parted", args, Policy::Fatal, String::from_str(description)).failing(
                    Failure::BootFlagFailed,
                ),
            );
        } else {
            let message = String::from_str(
                "Cannot set boot flags: invalid partition number '",
            ).concat(number.as_str()).concat("' for ").concat(blockdevice);
            push_step(&mut plan, Step::stop(message, Failure::BootFlagFailed));
        }
        assert(plan.deep_view() =~~= Self::spec_set(blockdevice@, efi));
        plan
    }

    /// Sets the boot flag of the first partition of `device`.
    pub fn set_auto_flags(device: &str, efi: bool) -> (plan: Vec<Step>)
        ensures
            plan.deep_view() == Self::spec_set_auto_flags(device@, efi),
    {
        let first: [u8; 1] = [1];
        let partitions = DeviceParser::get_partition_names(device, &first);
        assert(partitions.deep_view().len() == 1);
        assert(partitions.deep_view()[0] == DeviceParser::spec_partition_name(device@, 1));
        Self::set(partitions[0].as_str(), efi)
    }

    /// Tries to set the boot flag of `blockdevice`.
    ///
    /// Gives nothing to run, and so fails on the spot, exactly when the
    /// partition number is empty or holds something else than digits.
    pub fn try_set(blockdevice: &str, efi: bool) -> (plan: Option<Vec<Step>>)
        ensures
            plan is None <==> !Self::valid_number(DeviceParser::spec_parse(blockdevice@).1),
            plan is Some <==> Self::spec_try_set(blockdevice@, efi) is Some,
            plan is Some ==> plan->0.deep_view() == Self::spec_try_set(blockdevice@, efi)->0,
    {
        let (device, number) = DeviceParser::parse(blockdevice);
        if !Self::number_is_valid(number.as_str()) {
            return None;
        }
        let mut plan = DeviceParser::parse_warning(blockdevice);
        let looking = String::from_str("find device ").concat(device.as_str()).concat(
            " of ",
        ).concat(blockdevice);
        push_step(
            &mut plan,
            Step::new(Action::CheckPath(device.clone()), Policy::Warn, looking).failing(
                Failure::BootFlagFailed,
            ),
        );
        let args = strings(
            &["-s", device.as_str(), "set", number.as_str(), Self::flag_name(efi), "on"],
        );
        assert(args.deep_view() =~= Self::flag_args(device@, number@, efi));
        let setting = String::from_str("set '").concat(Self::flag_name(efi)).concat(
            "' flag on ",
        ).concat(blockdevice);
        push_step(
            &mut plan,
            Step::run("parted", args, Policy::Warn, setting).only(Condition::IfSucceeded).failing(
                Failure::BootFlagFailed,
            ),
        );
        assert(plan.deep_view() =~~= Self::spec_try_set(blockdevice@, efi)->0);
        Some(plan)
    }
}

/// Writes the partition table of the automatic layouts.
pub struct PartitionTable;

impl PartitionTable {
    /// The step that runs the partition-table tool on `device`.
    pub open spec fn parted(device: Seq<char>, rest: Seq<Seq<char>>, description: Seq<char>) -> StepView {
        run_step("parted"@, seq!["-s"@, device] + rest, Policy::Fatal, description)
    }

    /// GPT label, a FAT32 system partition up to the boot size, an ext4 root
    /// on the rest.
    pub open spec fn spec_create_gpt(device: Seq<char>) -> Seq<StepView> {
        seq![
            Self::parted(device, seq!["mklabel"@, "gpt"@], "create GPT label"@),
            Self::parted(
                device,
                seq!["mkpart"@, "ESP"@, "fat32"@, boot_start(), boot_size()],
                "create EFI system partition"@,
            ),
            Self::parted(
                device,
                seq!["mkpart"@, "root"@, "ext4"@, boot_size(), "100%"@],
                "create root partition"@,
            ),
        ]
    }

    /// MS-DOS label, an ext4 boot partition up to the boot size with its boot
    /// flag set, an ext4 root on the rest.
    pub open spec fn spec_create_mbr(device: Seq<char>) -> Seq<StepView> {
        seq![
            Self::parted(device, seq!["mklabel"@, "msdos"@], "create MBR label"@),
            Self::parted(
                device,
                seq!["mkpart"@, "primary"@, "ext4"@, boot_start(), boot_size()],
                "create boot partition"@,
            ),
            Self::parted(
                device,
                seq!["set"@, "1"@, "boot"@, "on"@],
                "mark boot partition"@,
            ),
            Self::parted(
                device,
                seq!["mkpart"@, "primary"@, "ext4"@, boot_size(), "100%"@],
                "create root partition"@,
            ),
        ]
    }

    /// The device is unmounted as far as that goes, then laid out anew.
    pub open spec fn spec_create(device: Seq<char>, efi: bool) -> Seq<StepView> {
        seq![release_step(device)] + if efi {
            Self::spec_create_gpt(device)
        } else {
            Self::spec_create_mbr(device)
        }
    }

    /// One run of the partition-table tool on `device`.
    fn parted_step(device: &str, rest: &[&str], description: &str) -> (r: Step)
        ensures
            r@ == Self::parted(device@, views(rest@), description@),
    {
        let mut args = strings(&["-s", device]);
        let mut more = strings(rest);
        let ghost head = args.deep_view();
        let ghost tail = more.deep_view();
        assert(head =~= seq!["-s"@, device@]);
        args.append(&mut more);
        assert(args.deep_view() =~= head + tail);
        Step::run("parted", args, Policy::Fatal, String::from_str(description))
    }

    /// A new partition table on `device`: GPT for UEFI, MS-DOS for BIOS.
    pub fn create(device: &str, efi: bool) -> (plan: Vec<Step>)
        ensures
            plan.deep_view() == Self::spec_create(device@, efi),
    {
        let mut plan: Vec<Step> = Vec::new();
        push_step(&mut plan, release(device));
        if efi {
            extend(&mut plan, Self::create_gpt(device));
        } else {
            extend(&mut plan, Self::create_mbr(device));
        }
        assert(plan.deep_view() =~= Self::spec_create(device@, efi));
        plan
    }

    /// The UEFI layout.
    pub fn create_gpt(device_str: &str) -> (plan: Vec<Step>)
        ensures
            plan.deep_view() == Self::spec_create_gpt(device_str@),
    {
        let mut plan: Vec<Step> = Vec::new();
        let label = ["mklabel", "gpt"];
        assert(views(label@) =~= seq!["mklabel"@, "gpt"@]);
        push_step(&mut plan, Self::parted_step(device_str, &label, "create GPT label"));
        let esp = ["mkpart", "ESP", "fat32", "1MiB", "513MiB"];
        assert(views(esp@) =~= seq!["mkpart"@, "ESP"@, "fat32"@, boot_start(), boot_size()]);
        push_step(&mut plan, Self::parted_step(device_str, &esp, "create EFI system partition"));
        let root = ["mkpart", "root", "ext4", "513MiB", "100%"];
        assert(views(root@) =~= seq!["mkpart"@, "root"@, "ext4"@, boot_size(), "100%"@]);
        push_step(&mut plan, Self::parted_step(device_str, &root, "create root partition"));
        assert(plan.deep_view() =~= Self::spec_create_gpt(device_str@));
        plan
    }

    /// The BIOS layout.
    pub fn create_mbr(device_str: &str) -> (plan: Vec<Step>)
        ensures
            plan.deep_view() == Self::spec_create_mbr(device_str@),
    {
        let mut plan: Vec<Step> = Vec::new();
        let label = ["mklabel", "msdos"];
        assert(views(label@) =~= seq!["mklabel"@, "msdos"@]);
        push_step(&mut plan, Self::parted_step(device_str, &label, "create MBR label"));
        let boot = ["mkpart", "primary", "ext4", "1MiB", "513MiB"];
        assert(views(boot@) =~= seq!["mkpart"@, "primary"@, "ext4"@, boot_start(), boot_size()]);
        push_step(&mut plan, Self::parted_step(device_str, &boot, "create boot partition"));
        let flag = ["set", "1", "boot", "on"];
        assert(views(flag@) =~= seq!["set"@, "1"@, "boot"@, "on"@]);
        push_step(&mut plan, Self::parted_step(device_str, &flag, "mark boot partition"));
        let root = ["mkpart", "primary", "ext4", "513MiB", "100%"];
        assert(views(root@) =~= seq!["mkpart"@, "primary"@, "ext4"@, boot_size(), "100%"@]);
        push_step(&mut plan, Self::parted_step(device_str, &root, "create root partition"));
        assert(plan.deep_view() =~= Self::spec_create_mbr(device_str@));
        plan
    }
}

/// Looks after the directories that partitions are mounted on.
pub struct MountManager;

impl MountManager {
    /// The step that unmounts `mountpoint` and everything below it, and does
    /// not mind a failure.
    pub open spec fn release_tree(mountpoint: Seq<char>) -> StepView {
        run_step(
            "umount"@,
            seq!["-R"@, mountpoint],
            Policy::Ignore,
            "unmount everything under "@ + mountpoint,
        )
    }

    /// The staging tree is taken down from the leaves to the root.
    pub open spec fn spec_cleanup() -> Seq<StepView> {
        seq![
            Self::release_tree("/mnt/boot"@),
            Self::release_tree("/mnt/dev"@),
            Self::release_tree("/mnt/proc"@),
            Self::release_tree("/mnt/sys"@),
            Self::release_tree("/mnt"@),
        ]
    }

    /// The question whether `mountpoint` is mounted: it is exactly when this
    /// step succeeds.
    pub open spec fn spec_is_mounted(mountpoint: Seq<char>) -> StepView {
        run_step(
            "mountpoint"@,
            seq!["-q"@, mountpoint],
            Policy::Ignore,
            "check whether "@ + mountpoint + " is mounted"@,
        )
    }

    /// The directory is created where it is missing; failing that, the run ends.
    pub open spec fn spec_ensure_mountpoint_exists(mountpoint: Seq<char>) -> Seq<StepView> {
        seq![
            plain_step(ActionView::CheckPath(mountpoint), Policy::Ignore, "look for "@ + mountpoint),
            conditional(
                plain_step(
                    ActionView::CreateDirectory(mountpoint),
                    Policy::Crash,
                    "Failed to create mount point "@ + mountpoint,
                ),
                Condition::IfFailed,
            ),
        ]
    }

    /// What is mounted on `mountpoint` is unmounted; nothing happens if
    /// nothing is.
    pub open spec fn spec_unmount_if_mounted(mountpoint: Seq<char>) -> Seq<StepView> {
        seq![
            Self::spec_is_mounted(mountpoint),
            conditional(release_step(mountpoint), Condition::IfSucceeded),
        ]
    }

    /// One recursive unmount.
    fn release_tree_step(mountpoint: &str) -> (r: Step)
        ensures
            r@ == Self::release_tree(mountpoint@),
    {
        let args = strings(&["-R", mountpoint]);
        assert(args.deep_view() =~= seq!["-R"@, mountpoint@]);
        Step::run("umount", args, Policy::Ignore, concat2("unmount everything under ", mountpoint))
    }

    /// Unmounts what an earlier run may have left under the staging root.
    pub fn cleanup() -> (plan: Vec<Step>)
        ensures
            plan.deep_view() == Self::spec_cleanup(),
    {
        let mut plan: Vec<Step> = Vec::new();
        push_step(&mut plan, Self::release_tree_step("/mnt/boot"));
        push_step(&mut plan, Self::release_tree_step("/mnt/dev"));
        push_step(&mut plan, Self::release_tree_step("/mnt/proc"));
        push_step(&mut plan, Self::release_tree_step("/mnt/sys"));
        push_step(&mut plan, Self::release_tree_step("/mnt"));
        assert(plan.deep_view() =~= Self::spec_cleanup());
        plan
    }

    /// The step whose success says that `mountpoint` is mounted.
    pub fn is_mounted(mountpoint: &str) -> (r: Step)
        ensures
            r@ == Self::spec_is_mounted(mountpoint@),
    {
        let args = strings(&["-q", mountpoint]);
        assert(args.deep_view() =~= seq!["-q"@, mountpoint@]);
        Step::run(
            "mountpoint",
            args,
            Policy::Ignore,
            concat3("check whether ", mountpoint, " is mounted"),
        )
    }

    /// Creates the directory `mountpoint` where it is missing.
    pub fn ensure_mountpoint_exists(mountpoint: &str) -> (plan: Vec<Step>)
        ensures
            plan.deep_view() == Self::spec_ensure_mountpoint_exists(mountpoint@),
    {
        let mut plan: Vec<Step> = Vec::new();
        push_step(
            &mut plan,
            Step::new(
                Action::CheckPath(String::from_str(mountpoint)),
                Policy::Ignore,
                concat2("look for ", mountpoint),
            ),
        );
        push_step(
            &mut plan,
            Step::new(
                Action::CreateDirectory(String::from_str(mountpoint)),
                Policy::Crash,
                concat2("Failed to create mount point ", mountpoint),
            ).only(Condition::IfFailed),
        );
        assert(plan.deep_view() =~= Self::spec_ensure_mountpoint_exists(mountpoint@));
        plan
    }

    /// Unmounts `mountpoint` if something is mounted there.
    pub fn unmount_if_mounted(mountpoint: &str) -> (plan: Vec<Step>)
        ensures
            plan.deep_view() == Self::spec_unmount_if_mounted(mountpoint@),
    {
        let mut plan: Vec<Step> = Vec::new();
        push_step(&mut plan, Self::is_mounted(mountpoint));
        push_step(&mut plan, release(mountpoint).only(Condition::IfSucceeded));
        assert(plan.deep_view() =~= Self::spec_unmount_if_mounted(mountpoint@));
        plan
    }
}

/// Makes filesystems.
pub struct FilesystemFormatter;

impl FilesystemFormatter {
    /// The step that makes a filesystem of kind `fs` on `blockdevice`.
    pub open spec fn format_step(blockdevice: Seq<char>, fs: FilesystemType) -> StepView
        recommends
            !(fs is NoFormat),
    {
        run_step(
            fs.spec_command(),
            fs.spec_args().push(blockdevice),
            Policy::Fatal,
            "format "@ + blockdevice + " as "@ + fs.spec_display_name(),
        )
    }

    /// Nothing for `NoFormat`; the one formatting step for every other kind.
    pub open spec fn spec_format(blockdevice: Seq<char>, fs: FilesystemType) -> Seq<StepView> {
        if fs is NoFormat {
            Seq::empty()
        } else {
            seq![Self::format_step(blockdevice, fs)]
        }
    }

    /// The filesystem of a partition of the automatic layouts: FAT32 for the
    /// boot partition under UEFI, ext4 for everything else.
    pub open spec fn auto_filesystem(is_boot: bool, efi: bool) -> FilesystemType {
        if is_boot && efi {
            FilesystemType::Fat32
        } else {
            FilesystemType::Ext4
        }
    }

    /// The partition is unmounted as far as that goes, then formatted.
    pub open spec fn spec_format_auto_partition(
        partition: Seq<char>,
        is_boot: bool,
        efi: bool,
    ) -> Seq<StepView> {
        seq![release_step(partition)] + Self::spec_format(
            partition,
            Self::auto_filesystem(is_boot, efi),
        )
    }

    /// Formats `blockdevice` as `fs_type`, or leaves it alone for `NoFormat`.
    pub fn format(blockdevice: &str, fs_type: &FilesystemType) -> (plan: Vec<Step>)
        ensures
            plan.deep_view() == Self::spec_format(blockdevice@, *fs_type),
    {
        let mut plan: Vec<Step> = Vec::new();
        if !fs_type.needs_formatting() {
            assert(plan.deep_view() =~= Self::spec_format(blockdevice@, *fs_type));
            return plan;
        }
        let flags = fs_type.args();
        let mut args = strings(flags.as_slice());
        assert(args.deep_view() =~= fs_type.spec_args());
        args.push(String::from_str(blockdevice));
        assert(args.deep_view() =~= fs_type.spec_args().push(blockdevice@));
        let description = String::from_str("format ").concat(blockdevice).concat(" as ").concat(
            fs_type.display_name(),
        );
        push_step(&mut plan, Step::run(fs_type.command(), args, Policy::Fatal, description));
        assert(plan.deep_view() =~= Self::spec_format(blockdevice@, *fs_type));
        plan
    }

    /// Formats one partition of the automatic layouts.
    pub fn format_auto_partition(partition: &str, is_boot: bool, efi: bool) -> (plan: Vec<Step>)
        ensures
            plan.deep_view() == Self::spec_format_auto_partition(partition@, is_boot, efi),
    {
        let mut plan: Vec<Step> = Vec::new();
        push_step(&mut plan, release(partition));
        let fs_type = if is_boot {
            if efi {
                FilesystemType::Fat32
            } else {
                FilesystemType::Ext4
            }
        } else {
            FilesystemType::Ext4
        };
        extend(&mut plan, Self::format(partition, &fs_type));
        assert(plan.deep_view() =~= Self::spec_format_auto_partition(partition@, is_boot, efi));
        plan
    }
}

/// The step that mounts `partition` on `mountpoint`, with `options` if there
/// are any.
pub open spec fn mount_step(partition: Seq<char>, mountpoint: Seq<char>, options: Seq<char>) -> StepView {
    if options.len() == 0 {
        run_step(
            "mount"@,
            seq![partition, mountpoint],
            Policy::Fatal,
            "mount "@ + partition + " at "@ + mountpoint,
        )
    } else {
        run_step(
            "mount"@,
            seq![partition, mountpoint, "-o"@, options],
            Policy::Fatal,
            "mount "@ + partition + " with options "@ + options + " at "@ + mountpoint,
        )
    }
}

/// The mount point is made sure of and cleared, then the partition is mounted.
pub open spec fn spec_mount(partition: Seq<char>, mountpoint: Seq<char>, options: Seq<char>) -> Seq<StepView> {
    MountManager::spec_ensure_mountpoint_exists(mountpoint) + MountManager::spec_unmount_if_mounted(
        mountpoint,
    ) + seq![mount_step(partition, mountpoint, options)]
}

/// One unmount that must not fail.
pub open spec fn spec_umount(mountpoint: Seq<char>) -> Seq<StepView> {
    seq![run_step("umount"@, seq![mountpoint], Policy::Fatal, "unmount "@ + mountpoint)]
}

/// The step that has the host packages of `fs` provided, where it has any.
pub open spec fn spec_provide(fs: FilesystemType) -> Seq<StepView> {
    if fs.spec_packages().len() == 0 {
        Seq::empty()
    } else {
        seq![
            plain_step(
                ActionView::Install(fs.spec_packages()),
                Policy::Fatal,
                "install tools for "@ + fs.spec_display_name(),
            ),
        ]
    }
}

/// Only these two mount points hold a boot partition.
pub open spec fn is_boot_mountpoint(mountpoint: Seq<char>) -> bool {
    mountpoint == "/boot"@ || mountpoint == "/mnt/boot"@
}

/// For a boot mount point, the lenient boot-flag script, or a warning where
/// there is none; nothing for any other mount point.
pub open spec fn spec_flag_if_boot(mountpoint: Seq<char>, blockdevice: Seq<char>, efi: bool) -> Seq<StepView> {
    if is_boot_mountpoint(mountpoint) {
        match BootFlags::spec_try_set(blockdevice, efi) {
            Some(steps) => steps,
            None => seq![
                warning(
                    "Cannot set boot flags on "@ + blockdevice + ": invalid partition format"@,
                ),
            ],
        }
    } else {
        Seq::empty()
    }
}

/// Unmount, then either stop at an unknown filesystem name, or provide the
/// tools, format, make the mount point, mount, and flag a boot partition.
pub open spec fn spec_fmt_mount(
    mountpoint: Seq<char>,
    filesystem: Seq<char>,
    blockdevice: Seq<char>,
    efi: bool,
) -> Seq<StepView> {
    match FilesystemType::spec_from_str(filesystem) {
        None => seq![
            release_step(blockdevice),
            stop(
                "Unknown filesystem "@ + filesystem + ", used in partition "@ + blockdevice,
                Failure::UnknownFilesystem,
            ),
        ],
        Some(fs) => seq![release_step(blockdevice)] + spec_provide(fs)
            + FilesystemFormatter::spec_format(blockdevice, fs)
            + MountManager::spec_ensure_mountpoint_exists(mountpoint) + spec_mount(
            blockdevice,
            mountpoint,
            ""@,
        ) + spec_flag_if_boot(mountpoint, blockdevice, efi),
    }
}

/// Both partitions are formatted, then the root is mounted, the boot
/// directory made in it, and the boot partition mounted there.
pub open spec fn spec_format_and_mount_auto(device: Seq<char>, efi: bool) -> Seq<StepView> {
    let boot = DeviceParser::spec_partition_name(device, 1);
    let root = DeviceParser::spec_partition_name(device, 2);
    FilesystemFormatter::spec_format_auto_partition(boot, true, efi)
        + FilesystemFormatter::spec_format_auto_partition(root, false, efi) + spec_mount(
        root,
        staging_root(),
        ""@,
    ) + seq![
        plain_step(ActionView::CreateDirectory(staging_boot()), Policy::Fatal, "create /mnt/boot"@),
    ] + spec_mount(boot, staging_boot(), ""@)
}

/// Formats `blockdevice` as `filesystem` and mounts it on `mountpoint`.
pub fn fmt_mount(mountpoint: &str, filesystem: &str, blockdevice: &str, efi: bool) -> (plan: Vec<
    Step,
>)
    ensures
        plan.deep_view() == spec_fmt_mount(mountpoint@, filesystem@, blockdevice@, efi),
{
    let mut plan: Vec<Step> = Vec::new();
    push_step(&mut plan, release(blockdevice));
    let fs_type = match FilesystemType::from_str(filesystem) {
        Some(fs) => fs,
        None => {
            let message = String::from_str("Unknown filesystem ").concat(filesystem).concat(
                ", used in partition ",
            ).concat(blockdevice);
            push_step(&mut plan, Step::stop(message, Failure::UnknownFilesystem));
            assert(plan.deep_view() =~= spec_fmt_mount(
                mountpoint@,
                filesystem@,
                blockdevice@,
                efi,
            ));
            return plan;
        },
    };
    let packages = fs_type.packages();
    if packages.len() > 0 {
        let wanted = strings(packages.as_slice());
        assert(wanted.deep_view() =~= fs_type.spec_packages());
        push_step(
            &mut plan,
            Step::new(
                Action::Install(wanted),
                Policy::Fatal,
                concat2("install tools for ", fs_type.display_name()),
            ),
        );
    }
    assert(plan.deep_view() =~= seq![release_step(blockdevice@)] + spec_provide(fs_type));
    extend(&mut plan, FilesystemFormatter::format(blockdevice, &fs_type));
    extend(&mut plan, MountManager::ensure_mountpoint_exists(mountpoint));
    extend(&mut plan, mount(blockdevice, mountpoint, ""));
    let ghost before_flags = plan.deep_view();
    if str_equal(mountpoint, "/boot") || str_equal(mountpoint, "/mnt/boot") {
        match BootFlags::try_set(blockdevice, efi) {
            Some(steps) => {
                extend(&mut plan, steps);
            },
            None => {
                push_step(
                    &mut plan,
                    Step::warning(
                        concat3(
                            "Cannot set boot flags on ",
                            blockdevice,
                            ": invalid partition format",
                        ),
                    ),
                );
            },
        }
    }
    assert(plan.deep_view() =~= before_flags + spec_flag_if_boot(mountpoint@, blockdevice@, efi));
    plan
}

/// Mounts `partition` on `mountpoint`; `options`, unless empty, go to the
/// mount program after `-o`.
pub fn mount(partition: &str, mountpoint: &str, options: &str) -> (plan: Vec<Step>)
    ensures
        plan.deep_view() == spec_mount(partition@, mountpoint@, options@),
{
    let mut plan = MountManager::ensure_mountpoint_exists(mountpoint);
    extend(&mut plan, MountManager::unmount_if_mounted(mountpoint));
    let step = if options.is_empty() {
        let args = strings(&[partition, mountpoint]);
        assert(args.deep_view() =~= seq![partition@, mountpoint@]);
        let description = String::from_str("mount ").concat(partition).concat(" at ").concat(
            mountpoint,
        );
        Step::run("mount", args, Policy::Fatal, description)
    } else {
        let args = strings(&[partition, mountpoint, "-o", options]);
        assert(args.deep_view() =~= seq![partition@, mountpoint@, "-o"@, options@]);
        let description = String::from_str("mount ").concat(partition).concat(
            " with options ",
        ).concat(options).concat(" at ").concat(mountpoint);
        Step::run("mount", args, Policy::Fatal, description)
    };
    push_step(&mut plan, step);
    assert(plan.deep_view() =~= spec_mount(partition@, mountpoint@, options@));
    plan
}

/// Unmounts `mountpoint`.
pub fn umount(mountpoint: &str) -> (plan: Vec<Step>)
    ensures
        plan.deep_view() == spec_umount(mountpoint@),
{
    let mut plan: Vec<Step> = Vec::new();
    let args = strings(&[mountpoint]);
    assert(args.deep_view() =~= seq![mountpoint@]);
    push_step(&mut plan, Step::run("umount", args, Policy::Fatal, concat2("unmount ", mountpoint)));
    assert(plan.deep_view() =~= spec_umount(mountpoint@));
    plan
}

/// Formats and mounts the two partitions of an automatic layout.
pub fn format_and_mount_auto(device: &str, efi: bool) -> (plan: Vec<Step>)
    ensures
        plan.deep_view() == spec_format_and_mount_auto(device@, efi),
{
    let numbers: [u8; 2] = [1, 2];
    let partitions = DeviceParser::get_partition_names(device, &numbers);
    assert(partitions.deep_view().len() == 2);
    assert(partitions.deep_view()[0] == DeviceParser::spec_partition_name(device@, 1));
    assert(partitions.deep_view()[1] == DeviceParser::spec_partition_name(device@, 2));
    let boot_partition = partitions[0].as_str();
    let root_partition = partitions[1].as_str();
    let mut plan = FilesystemFormatter::format_auto_partition(boot_partition, true, efi);
    extend(&mut plan, FilesystemFormatter::format_auto_partition(root_partition, false, efi));
    extend(&mut plan, mount(root_partition, "/mnt", ""));
    push_step(
        &mut plan,
        Step::new(
            Action::CreateDirectory(String::from_str("/mnt/boot")),
            Policy::Fatal,
            String::from_str("create /mnt/boot"),
        ),
    );
    extend(&mut plan, mount(boot_partition, "/mnt/boot", ""));
    assert(plan.deep_view() =~= spec_format_and_mount_auto(device@, efi));
    plan
}

/// What manual partitions are ordered by: the length of the mount point in
/// bytes, so that a directory comes before what lies in it.
pub open spec fn mount_key(p: PartitionView) -> nat {
    vstd::utf8::encode_utf8(p.mountpoint).len()
}

/// The partitions of `s` whose key is `k`, in the order in which `s` has them.
pub open spec fn with_key(s: Seq<PartitionView>, k: nat) -> Seq<PartitionView>
    decreases s.len(),
{
    if s.len() == 0 {
        Seq::empty()
    } else if mount_key(s.last()) == k {
        with_key(s.drop_last(), k).push(s.last())
    } else {
        with_key(s.drop_last(), k)
    }
}

/// No partition comes before one with a shorter mount point.
pub open spec fn sorted_by_key(s: Seq<PartitionView>) -> bool {
    forall|i: int, j: int| 0 <= i < j < s.len() ==> mount_key(s[i]) <= mount_key(s[j])
}

/// `after` is `before` in mounting order: sorted by key, and for every key
/// the partitions with that key are the same, in the same order.
pub open spec fn is_mount_order(before: Seq<PartitionView>, after: Seq<PartitionView>) -> bool {
    sorted_by_key(after) && forall|k: nat| #[trigger] with_key(after, k) == with_key(before, k)
}

/// `sorted` with `p` put behind the last partition whose mount point is not
/// longer than its own.
pub open spec fn insert_by_key(sorted: Seq<PartitionView>, p: PartitionView) -> Seq<PartitionView>
    decreases sorted.len(),
{
    if sorted.len() == 0 {
        seq![p]
    } else if mount_key(sorted.last()) <= mount_key(p) {
        sorted.push(p)
    } else {
        insert_by_key(sorted.drop_last(), p).push(sorted.last())
    }
}

/// The partitions in mounting order: each in turn is put in its place among
/// those that came before it.
pub open spec fn mount_order(partitions: Seq<PartitionView>) -> Seq<PartitionView>
    decreases partitions.len(),
{
    if partitions.len() == 0 {
        Seq::empty()
    } else {
        insert_by_key(mount_order(partitions.drop_last()), partitions.last())
    }
}

/// The device must exist; then table, boot flag, filesystems and mounts.
pub open spec fn spec_auto(device: Seq<char>, efi: bool) -> Seq<StepView> {
    seq![
        failing(
            plain_step(
                ActionView::CheckPath(device),
                Policy::Crash,
                "The device \""@ + device + "\" doesn't exist"@,
            ),
            Failure::DeviceNotFound,
        ),
    ] + PartitionTable::spec_create(device, efi) + BootFlags::spec_set_auto_flags(device, efi)
        + spec_format_and_mount_auto(device, efi)
}

/// The scripts of the partitions, one after the other, in the order given.
pub open spec fn spec_manual(partitions: Seq<PartitionView>, efi: bool) -> Seq<StepView>
    decreases partitions.len(),
{
    if partitions.len() == 0 {
        Seq::empty()
    } else {
        let p = partitions.last();
        spec_manual(partitions.drop_last(), efi) + spec_fmt_mount(
            p.mountpoint,
            p.filesystem,
            p.blockdevice,
            efi,
        )
    }
}

/// The whole of the partitioning: the staging tree is taken down, then the
/// disk is laid out automatically, or the partitions are worked through in
/// mounting order.
pub open spec fn spec_partition(
    device: Seq<char>,
    mode: PartitionMode,
    efi: bool,
    partitions: Seq<PartitionView>,
) -> Seq<StepView> {
    MountManager::spec_cleanup() + match mode {
        PartitionMode::Auto => spec_auto(device, efi),
        PartitionMode::Manual => spec_manual(mount_order(partitions), efi),
    }
}

/// In a sorted sequence, the place of a new partition is the place before
/// the first that is longer.
pub proof fn lemma_insert_position(sorted: Seq<PartitionView>, j: int, p: PartitionView)
    requires
        sorted_by_key(sorted),
        0 <= j <= sorted.len(),
        forall|i: int| 0 <= i < j ==> mount_key(#[trigger] sorted[i]) <= mount_key(p),
        forall|i: int| j <= i < sorted.len() ==> mount_key(#[trigger] sorted[i]) > mount_key(p),
    ensures
        insert_by_key(sorted, p) == sorted.insert(j, p),
    decreases sorted.len(),
{
    if sorted.len() == 0 {
        assert(sorted.insert(j, p) =~= seq![p]);
    } else if mount_key(sorted.last()) <= mount_key(p) {
        assert(j == sorted.len());
        assert(sorted.insert(j, p) =~= sorted.push(p));
    } else {
        let front = sorted.drop_last();
        assert(j < sorted.len()) by {
            if j == sorted.len() {
                assert(mount_key(sorted[j - 1]) <= mount_key(p));
            }
        }
        assert forall|i: int| 0 <= i < j implies mount_key(#[trigger] front[i]) <= mount_key(p) by {
            assert(front[i] == sorted[i]);
        }
        assert forall|i: int| j <= i < front.len() implies mount_key(#[trigger] front[i])
            > mount_key(p) by {
            assert(front[i] == sorted[i]);
        }
        assert(sorted_by_key(front)) by {
            assert forall|a: int, b: int| 0 <= a < b < front.len() implies mount_key(front[a])
                <= mount_key(front[b]) by {
                assert(front[a] == sorted[a] && front[b] == sorted[b]);
            }
        }
        lemma_insert_position(front, j, p);
        assert(front.insert(j, p).push(sorted.last()) =~= sorted.insert(j, p));
    }
}

/// Splitting a sequence splits what it holds of each key.
pub proof fn lemma_with_key_concat(a: Seq<PartitionView>, b: Seq<PartitionView>, k: nat)
    ensures
        with_key(a + b, k) == with_key(a, k) + with_key(b, k),
    decreases b.len(),
{
    if b.len() == 0 {
        assert(a + b =~= a);
        assert(with_key(a, k) + with_key(b, k) =~= with_key(a, k));
    } else {
        lemma_with_key_concat(a, b.drop_last(), k);
        assert((a + b).drop_last() =~= a + b.drop_last());
        assert((a + b).last() == b.last());
        if mount_key(b.last()) == k {
            assert(with_key(a, k) + with_key(b.drop_last(), k).push(b.last()) =~= (with_key(a, k)
                + with_key(b.drop_last(), k)).push(b.last()));
        }
    }
}

/// A sequence without the key `k` holds nothing of it.
pub proof fn lemma_with_key_absent(s: Seq<PartitionView>, k: nat)
    requires
        forall|i: int| 0 <= i < s.len() ==> mount_key(#[trigger] s[i]) != k,
    ensures
        with_key(s, k) == Seq::<PartitionView>::empty(),
    decreases s.len(),
{
    if s.len() > 0 {
        let front = s.drop_last();
        assert forall|i: int| 0 <= i < front.len() implies mount_key(#[trigger] front[i]) != k by {
            assert(front[i] == s[i]);
        }
        lemma_with_key_absent(front, k);
        assert(mount_key(s[s.len() - 1]) != k);
    }
}

/// Putting `p` behind everything that is not longer and before everything
/// that is keeps the order, and adds `p` at the end of its own key.
pub proof fn lemma_insert_in_order(sorted: Seq<PartitionView>, j: int, p: PartitionView)
    requires
        sorted_by_key(sorted),
        0 <= j <= sorted.len(),
        forall|i: int| 0 <= i < j ==> mount_key(#[trigger] sorted[i]) <= mount_key(p),
        forall|i: int| j <= i < sorted.len() ==> mount_key(#[trigger] sorted[i]) > mount_key(p),
    ensures
        sorted_by_key(sorted.insert(j, p)),
        forall|k: nat|
            #[trigger] with_key(sorted.insert(j, p), k) == if k == mount_key(p) {
                with_key(sorted, k).push(p)
            } else {
                with_key(sorted, k)
            },
{
    let front = sorted.take(j);
    let back = sorted.skip(j);
    let one = seq![p];
    assert(sorted.insert(j, p) =~= front + one + back);
    assert(sorted =~= front + back);
    assert forall|k: nat|
        #[trigger] with_key(sorted.insert(j, p), k) == if k == mount_key(p) {
            with_key(sorted, k).push(p)
        } else {
            with_key(sorted, k)
        } by {
        lemma_with_key_concat(front + one, back, k);
        lemma_with_key_concat(front, one, k);
        lemma_with_key_concat(front, back, k);
        assert(one.drop_last() =~= Seq::<PartitionView>::empty());
        assert(with_key(one.drop_last(), k) =~= Seq::<PartitionView>::empty());
        if k == mount_key(p) {
            lemma_with_key_absent(back, k);
            assert(with_key(one, k) =~= seq![p]);
            assert(with_key(front, k) + seq![p] + Seq::<PartitionView>::empty() =~= (with_key(
                front,
                k,
            ) + Seq::<PartitionView>::empty()).push(p));
        } else {
            assert(with_key(one, k) =~= Seq::<PartitionView>::empty());
            assert(with_key(front, k) + Seq::<PartitionView>::empty() + with_key(back, k)
                =~= with_key(front, k) + with_key(back, k));
        }
    }
}

/// The length of the mount point of `p` in bytes.
fn mountpoint_length(p: &Partition) -> (r: usize)
    ensures
        r == mount_key(p@),
{
    p.mountpoint.as_str().as_bytes().len()
}

/// Brings `partitions` into mounting order: shorter mount points first, and
/// partitions with mount points of one length in the order they came in.
pub fn sort_for_mounting(partitions: &mut Vec<Partition>)
    ensures
        final(partitions).deep_view() == mount_order(old(partitions).deep_view()),
        is_mount_order(old(partitions).deep_view(), final(partitions).deep_view()),
{
    let ghost orig = partitions.deep_view();
    let mut out: Vec<Partition> = Vec::new();
    assert(orig.skip(0) =~= orig);
    assert(orig.take(0) =~= Seq::<PartitionView>::empty());
    while partitions.len() > 0
        invariant
            out.len() + partitions.len() == orig.len(),
            partitions.deep_view() == orig.skip(out.len() as int),
            sorted_by_key(out.deep_view()),
            out.deep_view() == mount_order(orig.take(out.len() as int)),
            forall|k: nat|
                #[trigger] with_key(out.deep_view(), k) == with_key(orig.take(out.len() as int), k),
        decreases partitions.len(),
    {
        let ghost n = out.len() as int;
        let ghost rest = partitions.deep_view();
        let ghost held = partitions@;
        let p = partitions.remove(0);
        assert(p@ == rest[0]);
        assert(p@ == orig[n]);
        assert forall|i: int| 0 <= i < partitions.len() implies #[trigger] partitions.deep_view()[i]
            == orig.skip(n + 1)[i] by {
            assert(partitions@[i] == held[i + 1]);
            assert(rest[i + 1] == held[i + 1]@);
        }
        assert(partitions.deep_view() =~= orig.skip(n + 1));
        let key = mountpoint_length(&p);
        let mut j: usize = 0;
        while j < out.len() && mountpoint_length(&out[j]) <= key
            invariant
                j <= out.len(),
                key == mount_key(p@),
                forall|i: int| 0 <= i < j ==> mount_key(#[trigger] out.deep_view()[i]) <= key,
            decreases out.len() - j,
        {
            j = j + 1;
        }
        let ghost before = out.deep_view();
        out.insert(j, p);
        proof {
            assert(out.deep_view() =~= before.insert(j as int, p@));
            assert forall|i: int| j <= i < before.len() implies mount_key(#[trigger] before[i])
                > mount_key(p@) by {
                assert(mount_key(before[j as int]) > key);
            }
            lemma_insert_in_order(before, j as int, p@);
            lemma_insert_position(before, j as int, p@);
            assert(orig.take(n + 1).drop_last() =~= orig.take(n));
            assert(orig.take(n + 1).last() == p@);
            assert forall|k: nat|
                #[trigger] with_key(out.deep_view(), k) == with_key(orig.take(n + 1), k) by {
                assert(with_key(before, k) == with_key(orig.take(n), k));
            }
        }
    }
    assert(orig.take(orig.len() as int) =~= orig);
    *partitions = out;
}

/// Prepares the target disk: automatically on `device`, or as `partitions`
/// say. In manual mode `partitions` is brought into mounting order first.
pub fn partition(
    device: &str,
    mode: PartitionMode,
    efi: bool,
    partitions: &mut Vec<Partition>,
) -> (plan: Vec<Step>)
    ensures
        plan.deep_view() == spec_partition(device@, mode, efi, old(partitions).deep_view()),
        mode is Auto ==> final(partitions).deep_view() == old(partitions).deep_view(),
        mode is Manual ==> final(partitions).deep_view() == mount_order(
            old(partitions).deep_view(),
        ) && is_mount_order(old(partitions).deep_view(), final(partitions).deep_view()),
{
    let mut plan = MountManager::cleanup();
    match mode {
        PartitionMode::Auto => {
            let mut auto: Vec<Step> = Vec::new();
            push_step(
                &mut auto,
                Step::new(
                    Action::CheckPath(String::from_str(device)),
                    Policy::Crash,
                    concat3("The device \"", device, "\" doesn't exist"),
                ).failing(Failure::DeviceNotFound),
            );
            extend(&mut auto, PartitionTable::create(device, efi));
            extend(&mut auto, BootFlags::set_auto_flags(device, efi));
            extend(&mut auto, format_and_mount_auto(device, efi));
            assert(auto.deep_view() =~= spec_auto(device@, efi));
            extend(&mut plan, auto);
        },
        PartitionMode::Manual => {
            sort_for_mounting(partitions);
            let mut manual: Vec<Step> = Vec::new();
            let mut i: usize = 0;
            assert(partitions.deep_view().take(0) =~= Seq::<PartitionView>::empty());
            while i < partitions.len()
                invariant
                    i <= partitions.len(),
                    manual.deep_view() == spec_manual(partitions.deep_view().take(i as int), efi),
                decreases partitions.len() - i,
            {
                let p = &partitions[i];
                assert(partitions.deep_view().take(i + 1).drop_last() =~= partitions.deep_view().take(
                    i as int,
                ));
                assert(partitions.deep_view().take(i + 1).last() == p@);
                extend(
                    &mut manual,
                    fmt_mount(
                        p.mountpoint.as_str(),
                        p.filesystem.as_str(),
                        p.blockdevice.as_str(),
                        efi,
                    ),
                );
                i = i + 1;
            }
            assert(partitions.deep_view().take(i as int) =~= partitions.deep_view());
            extend(&mut plan, manual);
        },
    }
    plan
}

} // verus!
