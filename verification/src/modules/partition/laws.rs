//! What holds of the partitioning scripts whatever the device.

use crate::cli::PartitionView;
use crate::modules::partition::{
    is_boot_mountpoint, is_mount_order, lemma_insert_in_order, lemma_insert_position, mount_key,
    mount_order, mount_step, sorted_by_key, spec_auto, spec_fmt_mount, staging_boot, staging_root,
    with_key, BootFlags, DeviceParser, FilesystemFormatter, FilesystemType, MountManager,
    PartitionTable,
};
use crate::script::laws::{
    ending, harmless, lemma_abort_is_not_harmless, lemma_finished_runs_perform_unconditional_steps,
    lemma_harmless_scripts_finish, lemma_steps_are_performed_in_order,
    lemma_unconditional_steps_come_first, performed, unconditional,
};
use crate::script::{verdict_of, ActionView, Outcome, StepView};
use crate::text::{
    all_digits, contains, decimal, is_digit, last_index_of, lemma_last_index_of,
    lemma_trailing_digits, lower, occurs_at, starts_with, trailing_digits,
};
use vstd::prelude::*;

verus! {

/// The step starts the program `program`.
pub open spec fn runs(step: StepView, program: Seq<char>) -> bool {
    match step.action {
        ActionView::Run(invocation) => invocation.program == program,
        _ => false,
    }
}

/// The step starts a program that makes a filesystem.
pub open spec fn formats(step: StepView) -> bool {
    match step.action {
        ActionView::Run(invocation) => starts_with(invocation.program, "mkfs."@),
        _ => false,
    }
}

/// The step has the partition-table tool make a partition.
pub open spec fn makes_partition(step: StepView) -> bool {
    match step.action {
        ActionView::Run(invocation) => invocation.program == "parted"@ && invocation.args.len() > 2
            && invocation.args[2] == "mkpart"@,
        _ => false,
    }
}

/// The step has the partition-table tool switch `flag` on for a partition.
pub open spec fn sets_flag(step: StepView, flag: Seq<char>) -> bool {
    match step.action {
        ActionView::Run(invocation) => invocation.program == "parted"@ && invocation.args.len()
            == 6 && invocation.args[2] == "set"@ && invocation.args[4] == flag
            && invocation.args[5] == "on"@,
        _ => false,
    }
}

/// An NVMe or MMC name that ends in `p` and a number without `p` is split
/// into what stands before that `p` and the number.
pub proof fn lemma_parse_nvme_partition(base: Seq<char>, number: Seq<char>)
    requires
        DeviceParser::spec_is_nvme_or_mmc(base + seq!['p'] + number),
        forall|i: int| 0 <= i < number.len() ==> number[i] != 'p',
    ensures
        DeviceParser::spec_parse(base + seq!['p'] + number) == (base, number),
{
    let name = base + seq!['p'] + number;
    let at = base.len() as int;
    lemma_last_index_of(name, 'p');
    assert(name[at] == 'p');
    let found = last_index_of(name, 'p');
    if found > at {
        assert(name[found] == number[found - at - 1]);
    }
    assert(found == at);
    assert(name.subrange(0, at) =~= base);
    assert(name.subrange(at + 1, name.len() as int) =~= number);
}

/// Any other name that ends in digits is split into what stands before the
/// digits and the digits.
pub proof fn lemma_parse_numbered_partition(base: Seq<char>, digits: Seq<char>)
    requires
        !DeviceParser::spec_is_nvme_or_mmc(base + digits),
        digits.len() > 0,
        all_digits(digits),
        base.len() == 0 || !is_digit(base.last()),
    ensures
        DeviceParser::spec_parse(base + digits) == (base, digits),
{
    let name = base + digits;
    lemma_trailing_digits(name);
    let run = trailing_digits(name) as int;
    if run < digits.len() {
        let before = name.len() - run - 1;
        assert(name[before] == digits[before - base.len()]);
    }
    if run > digits.len() {
        assert(name[base.len() - 1] == base.last());
    }
    assert(run == digits.len());
    assert(name.subrange(0, name.len() - run) =~= base);
    assert(name.subrange(name.len() - run, name.len() as int) =~= digits);
}

/// Any other name that does not end in a digit is the device itself, the
/// partition is 1, and the operator is warned of that.
pub proof fn lemma_parse_bare_device(device: Seq<char>)
    requires
        !DeviceParser::spec_is_nvme_or_mmc(device),
        device.len() == 0 || !is_digit(device.last()),
    ensures
        DeviceParser::spec_parse(device) == (device, "1"@),
        DeviceParser::spec_parse_warning(device).len() == 1,
        DeviceParser::spec_parse_warning(device)[0].action is Warn,
{
}

/// A name without a partition number is taken for the device itself with
/// partition 1, and only such a name is warned of.
pub proof fn lemma_warning_goes_with_default(blockdevice: Seq<char>)
    ensures
        DeviceParser::spec_lacks_number(blockdevice) ==> DeviceParser::spec_parse(blockdevice) == (
            blockdevice,
            "1"@,
        ),
        DeviceParser::spec_lacks_number(blockdevice) <==> DeviceParser::spec_parse_warning(
            blockdevice,
        ).len() > 0,
{
}

/// Names that differ only in the case of their letters name the same
/// filesystem, or both none.
pub proof fn lemma_from_str_ignores_case(a: Seq<char>, b: Seq<char>)
    requires
        lower(a) == lower(b),
    ensures
        FilesystemType::spec_from_str(a) == FilesystemType::spec_from_str(b),
{
}

/// A name is known exactly when, in lower case, it is one of the six
/// accepted spellings.
pub proof fn lemma_from_str_total(name: Seq<char>)
    ensures
        FilesystemType::spec_from_str(name) is Some <==> (lower(name) == "ext4"@ || lower(name)
            == "fat32"@ || lower(name) == "btrfs"@ || lower(name) == "xfs"@ || lower(name)
            == "noformat"@ || lower(name) == "don't format"@),
{
}

/// Every filesystem is found again under the name it is shown by.
pub proof fn lemma_from_str_reads_display_name(fs: FilesystemType)
    ensures
        FilesystemType::spec_from_str(fs.spec_display_name()) == Some(fs),
{
    reveal_strlit("ext4");
    reveal_strlit("fat32");
    reveal_strlit("btrfs");
    reveal_strlit("xfs");
    reveal_strlit("noformat");
    reveal_strlit("don't format");
    let name = fs.spec_display_name();
    assert(lower(name) =~= name);
    assert("ext4"@[0] == 'e' && "fat32"@[0] == 'f' && "btrfs"@[0] == 'b' && "xfs"@[0] == 'x'
        && "noformat"@[0] == 'n');
}

/// The decimal notation of a number is a non-empty run of digits.
pub proof fn lemma_decimal_is_digits(n: nat)
    ensures
        decimal(n).len() > 0,
        all_digits(decimal(n)),
    decreases n,
{
    if n >= 10 {
        lemma_decimal_is_digits(n / 10);
        let front = decimal(n / 10);
        let d = (n % 10) as nat;
        assert(is_digit(((48 + d) as u8) as char));
        assert forall|i: int| 0 <= i < decimal(n).len() implies is_digit(#[trigger] decimal(n)[i]) by {
            if i < front.len() {
                assert(decimal(n)[i] == front[i]);
            }
        }
    } else {
        assert(is_digit(((48 + n) as u8) as char));
    }
}

/// A pattern that stands in a text stands in every extension of it.
pub proof fn lemma_contains_extends(text: Seq<char>, more: Seq<char>, pat: Seq<char>)
    requires
        contains(text, pat),
    ensures
        contains(text + more, pat),
{
    let i = choose|i: int| occurs_at(text, pat, i);
    assert((text + more).subrange(i, i + pat.len()) =~= text.subrange(i, i + pat.len()));
    assert(occurs_at(text + more, pat, i));
}

/// Digits added to a text bring in no pattern that ends in a letter.
pub proof fn lemma_digits_add_no_occurrence(text: Seq<char>, digits: Seq<char>, pat: Seq<char>)
    requires
        !contains(text, pat),
        all_digits(digits),
        pat.len() > 0,
        !is_digit(pat.last()),
    ensures
        !contains(text + digits, pat),
{
    let whole = text + digits;
    if contains(whole, pat) {
        let i = choose|i: int| occurs_at(whole, pat, i);
        let end = i + pat.len();
        if end <= text.len() {
            assert(text.subrange(i, end) =~= whole.subrange(i, end));
            assert(occurs_at(text, pat, i));
        } else {
            assert(whole.subrange(i, end)[pat.len() - 1] == whole[end - 1]);
            assert(whole[end - 1] == digits[end - 1 - text.len()]);
        }
    }
}

/// The name that the installer gives to a partition of a device is taken
/// apart again into a valid partition number, and, for an NVMe or MMC device,
/// into the device and the number it was made from.
pub proof fn lemma_partition_name_parses(device: Seq<char>, number: u8)
    ensures
        !DeviceParser::spec_lacks_number(DeviceParser::spec_partition_name(device, number)),
        BootFlags::valid_number(
            DeviceParser::spec_parse(DeviceParser::spec_partition_name(device, number)).1,
        ),
        DeviceParser::spec_is_nvme_or_mmc(device) ==> DeviceParser::spec_parse(
            DeviceParser::spec_partition_name(device, number),
        ) == (device, decimal(number as nat)),
{
    reveal_strlit("p");
    reveal_strlit("nvme");
    reveal_strlit("mmcblk");
    let digits = decimal(number as nat);
    lemma_decimal_is_digits(number as nat);
    let name = DeviceParser::spec_partition_name(device, number);
    if DeviceParser::spec_is_nvme_or_mmc(device) {
        assert("p"@ =~= seq!['p']);
        if contains(device, "nvme"@) {
            lemma_contains_extends(device, "p"@ + digits, "nvme"@);
        } else {
            lemma_contains_extends(device, "p"@ + digits, "mmcblk"@);
        }
        assert(device + ("p"@ + digits) =~= device + seq!['p'] + digits);
        assert forall|i: int| 0 <= i < digits.len() implies digits[i] != 'p' by {
            assert(is_digit(digits[i]));
        }
        lemma_parse_nvme_partition(device, digits);
        lemma_last_index_of(name, 'p');
        assert(name[device.len() as int] == 'p');
    } else {
        assert("nvme"@.last() == 'e');
        assert("mmcblk"@.last() == 'k');
        lemma_digits_add_no_occurrence(device, digits, "nvme"@);
        lemma_digits_add_no_occurrence(device, digits, "mmcblk"@);
        lemma_trailing_digits(name);
        assert(is_digit(name.last())) by {
            assert(name.last() == digits.last());
        }
        let run = trailing_digits(name) as int;
        let tail = name.subrange(name.len() - run, name.len() as int);
        assert forall|i: int| 0 <= i < tail.len() implies is_digit(#[trigger] tail[i]) by {
            assert(tail[i] == name[name.len() - run + i]);
        }
    }
}

/// In the automatic layouts the boot flag is always set by the tool, with
/// the flag that the firmware asks for and not the other one; the strict form
/// never stops there for a malformed number.
pub proof fn lemma_auto_flag_is_set(device: Seq<char>, efi: bool)
    ensures
        BootFlags::spec_set_auto_flags(device, efi).len() == 1,
        sets_flag(BootFlags::spec_set_auto_flags(device, efi)[0], BootFlags::flag(efi)),
        !sets_flag(BootFlags::spec_set_auto_flags(device, efi)[0], BootFlags::flag(!efi)),
        BootFlags::spec_set_auto_flags(device, efi)[0].policy is Fatal,
        BootFlags::spec_set_auto_flags(device, efi)[0].when is Always,
{
    lemma_partition_name_parses(device, 1);
    reveal_strlit("esp");
    reveal_strlit("boot");
    assert("esp"@[0] != "boot"@[0]);
}

/// Which of the programs that the scripts start make a filesystem, and
/// which of their names are the same.
pub proof fn lemma_program_names()
    ensures
        starts_with("mkfs.ext4"@, "mkfs."@),
        starts_with("mkfs.fat"@, "mkfs."@),
        starts_with("mkfs.btrfs"@, "mkfs."@),
        starts_with("mkfs.xfs"@, "mkfs."@),
        !starts_with("umount"@, "mkfs."@),
        !starts_with("mount"@, "mkfs."@),
        !starts_with("mountpoint"@, "mkfs."@),
        !starts_with("parted"@, "mkfs."@),
        "mount"@ != "umount"@,
        "mount"@ != "mountpoint"@,
        "mount"@ != "parted"@,
        "mount"@ != "mkfs.ext4"@,
        "mount"@ != "mkfs.fat"@,
        "mount"@ != "mkfs.btrfs"@,
        "mount"@ != "mkfs.xfs"@,
        "parted"@ != "umount"@,
        "parted"@ != "mountpoint"@,
        "parted"@ != "mkfs.ext4"@,
        "parted"@ != "mkfs.fat"@,
        "parted"@ != "mkfs.btrfs"@,
        "parted"@ != "mkfs.xfs"@,
        "mkpart"@ != "mklabel"@,
        "mkpart"@ != "set"@,
        ""@.len() == 0,
{
    reveal_strlit("mkfs.");
    reveal_strlit("mkfs.ext4");
    reveal_strlit("mkfs.fat");
    reveal_strlit("mkfs.btrfs");
    reveal_strlit("mkfs.xfs");
    reveal_strlit("umount");
    reveal_strlit("mount");
    reveal_strlit("mountpoint");
    reveal_strlit("parted");
    reveal_strlit("mkpart");
    reveal_strlit("mklabel");
    reveal_strlit("set");
    reveal_strlit("");
    assert("mkfs.ext4"@.subrange(0, 5) =~= "mkfs."@);
    assert("mkfs.fat"@.subrange(0, 5) =~= "mkfs."@);
    assert("mkfs.btrfs"@.subrange(0, 5) =~= "mkfs."@);
    assert("mkfs.xfs"@.subrange(0, 5) =~= "mkfs."@);
    assert("umount"@.subrange(0, 5)[0] == 'u');
    assert("mount"@.subrange(0, 5)[1] == 'o');
    assert("mountpoint"@.subrange(0, 5)[1] == 'o');
    assert("parted"@.subrange(0, 5)[0] == 'p');
    assert("mount"@[0] == 'm' && "parted"@[0] == 'p' && "umount"@[0] == 'u');
    assert("mkpart"@[2] == 'p' && "mklabel"@[2] == 'l');
}

/// Automatic layout under UEFI. Two partitions are made and no more. The
/// first is formatted as FAT32 and mounted on the boot directory of the
/// staging root, the second as ext4 and mounted on the staging root itself;
/// nothing else is formatted or mounted, the root is mounted before the boot
/// directory is made in it, and the boot partition after that.
pub proof fn lemma_auto_uefi_layout(device: Seq<char>)
    ensures
        ({
            let plan = MountManager::spec_cleanup() + spec_auto(device, true);
            let boot = DeviceParser::spec_partition_name(device, 1);
            let root = DeviceParser::spec_partition_name(device, 2);
            &&& plan.len() == 26
            &&& forall|i: int|
                0 <= i < 26 ==> (makes_partition(#[trigger] plan[i]) <==> i == 8 || i == 9)
            &&& sets_flag(plan[10], "esp"@)
            &&& forall|i: int| 0 <= i < 26 ==> (formats(#[trigger] plan[i]) <==> i == 12 || i == 14)
            &&& plan[12] == FilesystemFormatter::format_step(boot, FilesystemType::Fat32)
            &&& plan[14] == FilesystemFormatter::format_step(root, FilesystemType::Ext4)
            &&& forall|i: int|
                0 <= i < 26 ==> (runs(#[trigger] plan[i], "mount"@) <==> i == 19 || i == 25)
            &&& plan[19] == mount_step(root, staging_root(), ""@)
            &&& plan[20].action == ActionView::CreateDirectory(staging_boot())
            &&& plan[25] == mount_step(boot, staging_boot(), ""@)
            &&& forall|i: int| 0 <= i < 26 ==> !((#[trigger] plan[i]).action is Stop)
        }),
{
    lemma_program_names();
    lemma_auto_flag_is_set(device, true);
    let plan = MountManager::spec_cleanup() + spec_auto(device, true);
    let flag = BootFlags::spec_set_auto_flags(device, true);
    assert(plan.len() == 26);
    assert(plan[10] == flag[0]);
}

/// Automatic layout under BIOS. The same two partitions, both formatted as
/// ext4; the flag that is set is `boot`, when the first partition is made and
/// once more after the table is written, and never `esp`.
pub proof fn lemma_auto_bios_layout(device: Seq<char>)
    ensures
        ({
            let plan = MountManager::spec_cleanup() + spec_auto(device, false);
            let boot = DeviceParser::spec_partition_name(device, 1);
            let root = DeviceParser::spec_partition_name(device, 2);
            &&& plan.len() == 27
            &&& forall|i: int|
                0 <= i < 27 ==> (makes_partition(#[trigger] plan[i]) <==> i == 8 || i == 10)
            &&& plan[8] == PartitionTable::spec_create_mbr(device)[1]
            &&& plan[10] == PartitionTable::spec_create_mbr(device)[3]
            &&& forall|i: int|
                0 <= i < 27 ==> (sets_flag(#[trigger] plan[i], "boot"@) <==> i == 9 || i == 11)
            &&& forall|i: int| 0 <= i < 27 ==> !sets_flag(#[trigger] plan[i], "esp"@)
            &&& forall|i: int| 0 <= i < 27 ==> (formats(#[trigger] plan[i]) <==> i == 13 || i == 15)
            &&& plan[13] == FilesystemFormatter::format_step(boot, FilesystemType::Ext4)
            &&& plan[15] == FilesystemFormatter::format_step(root, FilesystemType::Ext4)
            &&& forall|i: int|
                0 <= i < 27 ==> (runs(#[trigger] plan[i], "mount"@) <==> i == 20 || i == 26)
            &&& plan[20] == mount_step(root, staging_root(), ""@)
            &&& plan[26] == mount_step(boot, staging_boot(), ""@)
            &&& forall|i: int| 0 <= i < 27 ==> !((#[trigger] plan[i]).action is Stop)
        }),
{
    lemma_program_names();
    lemma_auto_flag_is_set(device, false);
    reveal_strlit("esp");
    reveal_strlit("boot");
    reveal_strlit("set");
    reveal_strlit("mklabel");
    reveal_strlit("mkpart");
    assert("esp"@[0] != "boot"@[0]);
    assert("set"@[0] == 's' && "mklabel"@[0] == 'm' && "mkpart"@[0] == 'm');
    let plan = MountManager::spec_cleanup() + spec_auto(device, false);
    let flag = BootFlags::spec_set_auto_flags(device, false);
    assert(plan.len() == 27);
    assert(plan[11] == flag[0]);
}

/// A partition that is not to be formatted: no step of its script makes a
/// filesystem or provides tools for one, and the partition is mounted all
/// the same, without a condition.
pub proof fn lemma_noformat_is_mounted_unformatted(
    mountpoint: Seq<char>,
    filesystem: Seq<char>,
    blockdevice: Seq<char>,
    efi: bool,
)
    requires
        FilesystemType::spec_from_str(filesystem) == Some(FilesystemType::NoFormat),
    ensures
        ({
            let plan = spec_fmt_mount(mountpoint, filesystem, blockdevice, efi);
            &&& plan.len() >= 8
            &&& forall|i: int| 0 <= i < plan.len() ==> !formats(#[trigger] plan[i])
            &&& forall|i: int| 0 <= i < plan.len() ==> !((#[trigger] plan[i]).action is Install)
            &&& plan[7] == mount_step(blockdevice, mountpoint, ""@)
            &&& plan[7].when is Always
            &&& forall|i: int| 0 <= i < plan.len() ==> !((#[trigger] plan[i]).action is Stop)
        }),
{
    lemma_program_names();
}

/// The lenient form gives nothing to run exactly when the partition number
/// is malformed. What it gives otherwise ends with the search for the base
/// device and, only after that was found, the tool; before the two stands at
/// most a warning, and no step can end the run.
pub proof fn lemma_try_set_is_harmless(blockdevice: Seq<char>, efi: bool)
    ensures
        BootFlags::spec_try_set(blockdevice, efi) is None <==> !BootFlags::valid_number(
            DeviceParser::spec_parse(blockdevice).1,
        ),
        match BootFlags::spec_try_set(blockdevice, efi) {
            Some(plan) => {
                let n = plan.len() as int;
                &&& n == 2 + DeviceParser::spec_parse_warning(blockdevice).len()
                &&& 2 <= n <= 3
                &&& n == 3 ==> plan[0].action is Warn
                &&& plan[n - 2].action == ActionView::CheckPath(
                    DeviceParser::spec_parse(blockdevice).0,
                )
                &&& sets_flag(plan[n - 1], BootFlags::flag(efi))
                &&& plan[n - 1].when is IfSucceeded
                &&& forall|i: int, outcome: Outcome|
                    0 <= i < n ==> !(#[trigger] verdict_of(plan[i].policy, outcome) is Abort)
                &&& forall|i: int| 0 <= i < n ==> !((#[trigger] plan[i]).action is Stop)
            },
            None => true,
        },
{
}

/// A partition whose number is malformed is formatted and mounted like any
/// other; the partition-table tool is not started for it, and nothing in
/// what is done about its boot flag can end the run.
pub proof fn lemma_malformed_boot_partition_runs_no_tool(
    mountpoint: Seq<char>,
    filesystem: Seq<char>,
    blockdevice: Seq<char>,
    efi: bool,
)
    requires
        !BootFlags::valid_number(DeviceParser::spec_parse(blockdevice).1),
    ensures
        forall|i: int|
            0 <= i < spec_fmt_mount(mountpoint, filesystem, blockdevice, efi).len() ==> !runs(
                #[trigger] spec_fmt_mount(mountpoint, filesystem, blockdevice, efi)[i],
                "parted"@,
            ),
{
    lemma_program_names();
}

/// Only a boot mount point has the boot flag looked after.
pub proof fn lemma_flag_only_for_boot(
    mountpoint: Seq<char>,
    filesystem: Seq<char>,
    blockdevice: Seq<char>,
    efi: bool,
)
    requires
        !is_boot_mountpoint(mountpoint),
    ensures
        forall|i: int|
            0 <= i < spec_fmt_mount(mountpoint, filesystem, blockdevice, efi).len() ==> !runs(
                #[trigger] spec_fmt_mount(mountpoint, filesystem, blockdevice, efi)[i],
                "parted"@,
            ),
{
    lemma_program_names();
}

/// How many partitions at the start of a sorted sequence have a mount point
/// that is not longer than that of `p`.
pub open spec fn split_point(sorted: Seq<PartitionView>, p: PartitionView) -> int
    decreases sorted.len(),
{
    if sorted.len() == 0 {
        0
    } else if mount_key(sorted.last()) <= mount_key(p) {
        sorted.len() as int
    } else {
        split_point(sorted.drop_last(), p)
    }
}

/// The split point parts a sorted sequence into what is not longer than `p`
/// and what is.
pub proof fn lemma_split_point(sorted: Seq<PartitionView>, p: PartitionView)
    requires
        sorted_by_key(sorted),
    ensures
        0 <= split_point(sorted, p) <= sorted.len(),
        forall|i: int|
            0 <= i < split_point(sorted, p) ==> mount_key(#[trigger] sorted[i]) <= mount_key(p),
        forall|i: int|
            split_point(sorted, p) <= i < sorted.len() ==> mount_key(#[trigger] sorted[i])
                > mount_key(p),
    decreases sorted.len(),
{
    if sorted.len() > 0 {
        if mount_key(sorted.last()) <= mount_key(p) {
            assert forall|i: int| 0 <= i < sorted.len() implies mount_key(#[trigger] sorted[i])
                <= mount_key(p) by {
                if i < sorted.len() - 1 {
                    assert(mount_key(sorted[i]) <= mount_key(sorted[sorted.len() - 1]));
                }
            }
        } else {
            let front = sorted.drop_last();
            assert(sorted_by_key(front)) by {
                assert forall|a: int, b: int| 0 <= a < b < front.len() implies mount_key(front[a])
                    <= mount_key(front[b]) by {
                    assert(front[a] == sorted[a] && front[b] == sorted[b]);
                }
            }
            lemma_split_point(front, p);
            let j = split_point(front, p);
            assert forall|i: int| 0 <= i < j implies mount_key(#[trigger] sorted[i]) <= mount_key(
                p,
            ) by {
                assert(sorted[i] == front[i]);
            }
            assert forall|i: int| j <= i < sorted.len() implies mount_key(#[trigger] sorted[i])
                > mount_key(p) by {
                if i < front.len() {
                    assert(sorted[i] == front[i]);
                }
            }
        }
    }
}

/// The mounting order is a stable sort by the length of the mount point: no
/// partition comes before one with a shorter mount point, and partitions
/// with mount points of one length keep the order they were given in.
pub proof fn lemma_mount_order_is_stable_sort(partitions: Seq<PartitionView>)
    ensures
        is_mount_order(partitions, mount_order(partitions)),
        mount_order(partitions).len() == partitions.len(),
    decreases partitions.len(),
{
    if partitions.len() > 0 {
        let front = partitions.drop_last();
        let p = partitions.last();
        lemma_mount_order_is_stable_sort(front);
        let sorted = mount_order(front);
        lemma_split_point(sorted, p);
        let j = split_point(sorted, p);
        lemma_insert_position(sorted, j, p);
        lemma_insert_in_order(sorted, j, p);
        assert forall|k: nat| #[trigger]
            with_key(mount_order(partitions), k) == with_key(partitions, k) by {
            assert(with_key(sorted, k) == with_key(front, k));
        }
    }
}

/// Whatever the host answers during an automatic installation: if the boot
/// partition is mounted at all, the root partition was mounted before it, and
/// the boot directory was made in between; no filesystem is made but the two
/// of the layout.
pub proof fn lemma_auto_run_mounts_root_first(
    device: Seq<char>,
    efi: bool,
    answers: spec_fn(int) -> Outcome,
)
    ensures
        ({
            let plan = MountManager::spec_cleanup() + spec_auto(device, efi);
            let run = performed(plan, answers);
            let root = if efi {
                19int
            } else {
                20int
            };
            let boot = root + 6;
            let boot_partition = DeviceParser::spec_partition_name(device, 1);
            let root_partition = DeviceParser::spec_partition_name(device, 2);
            &&& plan[root] == mount_step(root_partition, staging_root(), ""@)
            &&& plan[root + 1].action == ActionView::CreateDirectory(staging_boot())
            &&& plan[boot] == mount_step(boot_partition, staging_boot(), ""@)
            &&& run.contains(boot) ==> exists|a: int, b: int, c: int|
                0 <= a < b < c < run.len() && run[a] == root && run[b] == root + 1 && run[c]
                    == boot
            &&& forall|k: int|
                0 <= k < run.len() && formats(plan[#[trigger] run[k]]) ==> run[k] == root - 7
                    || run[k] == root - 5
        }),
{
    let plan = MountManager::spec_cleanup() + spec_auto(device, efi);
    let run = performed(plan, answers);
    let root = if efi {
        19int
    } else {
        20int
    };
    let boot = root + 6;
    if efi {
        lemma_auto_uefi_layout(device);
    } else {
        lemma_auto_bios_layout(device);
    }
    lemma_program_names();
    lemma_steps_are_performed_in_order(plan, answers);
    assert(unconditional(plan[root]));
    assert(unconditional(plan[root + 1]));
    if run.contains(boot) {
        lemma_unconditional_steps_come_first(plan, answers, root, boot);
        lemma_unconditional_steps_come_first(plan, answers, root + 1, boot);
        let (a, c) = choose|a: int, c: int|
            0 <= a < c < run.len() && run[a] == root && run[c] == boot;
        let (b, c2) = choose|b: int, c2: int|
            0 <= b < c2 < run.len() && run[b] == root + 1 && run[c2] == boot;
        assert(c == c2) by {
            if c < c2 {
                assert(run[c] < run[c2]);
            }
            if c2 < c {
                assert(run[c2] < run[c]);
            }
        }
        assert(a < b) by {
            if b < a {
                assert(run[b] < run[a]);
            }
        }
    }
}

/// Whatever the host answers for a partition that is not to be formatted:
/// no step that is performed makes a filesystem, and a run that finishes has
/// mounted the partition.
pub proof fn lemma_noformat_run_mounts(
    mountpoint: Seq<char>,
    filesystem: Seq<char>,
    blockdevice: Seq<char>,
    efi: bool,
    answers: spec_fn(int) -> Outcome,
)
    requires
        FilesystemType::spec_from_str(filesystem) == Some(FilesystemType::NoFormat),
    ensures
        ({
            let plan = spec_fmt_mount(mountpoint, filesystem, blockdevice, efi);
            let run = performed(plan, answers);
            &&& forall|k: int| 0 <= k < run.len() ==> !formats(plan[#[trigger] run[k]])
            &&& plan[7] == mount_step(blockdevice, mountpoint, ""@)
            &&& ending(plan, answers) is Finished ==> run.contains(7)
        }),
{
    let plan = spec_fmt_mount(mountpoint, filesystem, blockdevice, efi);
    lemma_noformat_is_mounted_unformatted(mountpoint, filesystem, blockdevice, efi);
    lemma_steps_are_performed_in_order(plan, answers);
    assert(plan.len() <= 11);
    if ending(plan, answers) is Finished {
        assert(unconditional(plan[7]));
        lemma_finished_runs_perform_unconditional_steps(plan, answers, 7);
    }
}

/// Whatever the host answers to the lenient form: its run finishes. A
/// missing device or a failing tool costs a warning, never the run.
pub proof fn lemma_try_set_run_finishes(
    blockdevice: Seq<char>,
    efi: bool,
    answers: spec_fn(int) -> Outcome,
)
    requires
        BootFlags::spec_try_set(blockdevice, efi) is Some,
    ensures
        ending(BootFlags::spec_try_set(blockdevice, efi)->0, answers) is Finished,
{
    let plan = BootFlags::spec_try_set(blockdevice, efi)->0;
    lemma_try_set_is_harmless(blockdevice, efi);
    assert forall|i: int| 0 <= i < plan.len() implies harmless(#[trigger] plan[i]) by {
        assert(!(verdict_of(plan[i].policy, Outcome::Failure(None)) is Abort));
        assert(!(verdict_of(plan[i].policy, Outcome::Error(None)) is Abort));
    }
    lemma_harmless_scripts_finish(plan, answers);
}

/// An automatic installation either ends the run or leaves both partitions
/// formatted and mounted: a run that finishes has written the table, set the
/// flag, made both filesystems and performed both mounts.
pub proof fn lemma_auto_run_completes_or_aborts(
    device: Seq<char>,
    efi: bool,
    answers: spec_fn(int) -> Outcome,
)
    ensures
        ({
            let plan = MountManager::spec_cleanup() + spec_auto(device, efi);
            let run = performed(plan, answers);
            let root = if efi {
                19int
            } else {
                20int
            };
            &&& ending(plan, answers) is Finished || ending(plan, answers) is Abort
            &&& ending(plan, answers) is Finished ==> {
                &&& run.contains(7) && run.contains(8) && run.contains(9)
                &&& run.contains(root - 9)
                &&& run.contains(root - 7) && run.contains(root - 5)
                &&& run.contains(root) && run.contains(root + 1) && run.contains(root + 6)
            }
            &&& sets_flag(plan[root - 9], BootFlags::flag(efi))
        }),
{
    let plan = MountManager::spec_cleanup() + spec_auto(device, efi);
    let root = if efi {
        19int
    } else {
        20int
    };
    if efi {
        lemma_auto_uefi_layout(device);
    } else {
        lemma_auto_bios_layout(device);
    }
    lemma_program_names();
    lemma_auto_flag_is_set(device, efi);
    assert(plan[root - 9] == BootFlags::spec_set_auto_flags(device, efi)[0]);
    crate::script::lemma_next_applicable(plan, 0, true);
    match crate::script::start_of(plan) {
        crate::script::Directive::Perform(first) => {
            crate::script::laws::lemma_abort_names_a_step(plan, answers, first as int);
        },
        _ => {},
    }
    if ending(plan, answers) is Finished {
        lemma_finished_runs_perform_unconditional_steps(plan, answers, 7);
        lemma_finished_runs_perform_unconditional_steps(plan, answers, 8);
        lemma_finished_runs_perform_unconditional_steps(plan, answers, 9);
        lemma_finished_runs_perform_unconditional_steps(plan, answers, root - 9);
        lemma_finished_runs_perform_unconditional_steps(plan, answers, root - 7);
        lemma_finished_runs_perform_unconditional_steps(plan, answers, root - 5);
        lemma_finished_runs_perform_unconditional_steps(plan, answers, root);
        lemma_finished_runs_perform_unconditional_steps(plan, answers, root + 1);
        lemma_finished_runs_perform_unconditional_steps(plan, answers, root + 6);
    }
}

/// Where in the script of a partition with a known filesystem the mount
/// stands: behind the unmount, the tools, the formatting and the making of
/// the mount point.
pub open spec fn mount_index(fs: FilesystemType) -> int {
    (7 + crate::modules::partition::spec_provide(fs).len() + FilesystemFormatter::spec_format(
        Seq::empty(),
        fs,
    ).len()) as int
}

/// A partition with a known filesystem is mounted by every run of its script
/// that finishes; an unknown filesystem ends every run at the second step,
/// before anything is formatted or mounted.
pub proof fn lemma_fmt_mount_run(
    mountpoint: Seq<char>,
    filesystem: Seq<char>,
    blockdevice: Seq<char>,
    efi: bool,
    answers: spec_fn(int) -> Outcome,
)
    ensures
        ({
            let plan = spec_fmt_mount(mountpoint, filesystem, blockdevice, efi);
            let run = performed(plan, answers);
            match FilesystemType::spec_from_str(filesystem) {
                Some(fs) => {
                    &&& plan[mount_index(fs)] == mount_step(blockdevice, mountpoint, ""@)
                    &&& ending(plan, answers) is Finished ==> run.contains(mount_index(fs))
                    &&& !(fs is NoFormat) ==> formats(plan[mount_index(fs) - 7]) && (ending(
                        plan,
                        answers,
                    ) is Finished ==> run.contains(mount_index(fs) - 7))
                },
                None => {
                    &&& run == seq![0int]
                    &&& ending(plan, answers) == (crate::script::Directive::Abort {
                        step: 1,
                        code: 1,
                    })
                },
            }
        }),
{
    let plan = spec_fmt_mount(mountpoint, filesystem, blockdevice, efi);
    lemma_program_names();
    match FilesystemType::spec_from_str(filesystem) {
        Some(fs) => {
            let at = mount_index(fs);
            assert(plan.len() <= 13);
            assert(plan[at] == mount_step(blockdevice, mountpoint, ""@));
            if ending(plan, answers) is Finished {
                lemma_finished_runs_perform_unconditional_steps(plan, answers, at);
                if !(fs is NoFormat) {
                    lemma_finished_runs_perform_unconditional_steps(plan, answers, at - 7);
                }
            }
        },
        None => {
            assert(plan.len() == 2);
            assert(crate::script::next_applicable(plan, 0, true) == 0);
            assert(crate::script::next_applicable(plan, 1, answers(0) is Success) == 1);
            assert(performed(plan, answers) =~= seq![0int]);
        },
    }
}

/// The failures of an automatic installation are told apart: the run ends
/// at the search for the device as "device not found", at the setting of the
/// flag as "boot flag failed", and at every other step as "command failed".
pub proof fn lemma_auto_failures_are_told_apart(device: Seq<char>, efi: bool)
    ensures
        ({
            let plan = MountManager::spec_cleanup() + spec_auto(device, efi);
            let flag = if efi {
                10int
            } else {
                11int
            };
            &&& plan[5].action == ActionView::CheckPath(device)
            &&& plan[5].policy is Crash
            &&& forall|i: int|
                0 <= i < plan.len() ==> ((#[trigger] plan[i]).failure is DeviceNotFound <==> i == 5)
            &&& forall|i: int|
                0 <= i < plan.len() ==> ((#[trigger] plan[i]).failure is BootFlagFailed <==> i
                    == flag)
            &&& forall|i: int|
                0 <= i < plan.len() && i != 5 && i != flag ==> (#[trigger] plan[i]).failure
                    is CommandFailed
        }),
{
    if efi {
        lemma_auto_uefi_layout(device);
    } else {
        lemma_auto_bios_layout(device);
    }
    lemma_auto_flag_is_set(device, efi);
    let plan = MountManager::spec_cleanup() + spec_auto(device, efi);
    let flag = if efi {
        10int
    } else {
        11int
    };
    assert(plan[flag] == BootFlags::spec_set_auto_flags(device, efi)[0]);
}

/// In manual mode a boot flag that cannot be set never ends the run: every
/// step that stands for that failure is harmless, an unknown filesystem is
/// the only stop, and no run of the partition's script ends as "boot flag
/// failed".
pub proof fn lemma_manual_boot_flag_is_recoverable(
    mountpoint: Seq<char>,
    filesystem: Seq<char>,
    blockdevice: Seq<char>,
    efi: bool,
    answers: spec_fn(int) -> Outcome,
)
    ensures
        ({
            let plan = spec_fmt_mount(mountpoint, filesystem, blockdevice, efi);
            &&& forall|i: int|
                0 <= i < plan.len() && (#[trigger] plan[i]).failure is BootFlagFailed ==> harmless(
                    plan[i],
                )
            &&& forall|i: int|
                0 <= i < plan.len() && (#[trigger] plan[i]).action is Stop ==> plan[i].failure
                    is UnknownFilesystem && FilesystemType::spec_from_str(filesystem) is None
            &&& match ending(plan, answers) {
                crate::script::Directive::Abort { step, code } => !(plan[step as int].failure
                    is BootFlagFailed),
                _ => true,
            }
        }),
{
    let plan = spec_fmt_mount(mountpoint, filesystem, blockdevice, efi);
    assert(plan.len() <= 14);
    lemma_abort_is_not_harmless(plan, answers);
}

/// A text that goes on is longer in bytes: the length of a text in bytes is
/// that of its first part plus that of the rest.
pub proof fn lemma_byte_length_adds(a: Seq<char>, b: Seq<char>)
    ensures
        vstd::utf8::encode_utf8(a + b).len() == vstd::utf8::encode_utf8(a).len()
            + vstd::utf8::encode_utf8(b).len(),
        vstd::utf8::encode_utf8(b).len() >= b.len(),
    decreases a.len() + b.len(),
{
    if b.len() > 0 {
        lemma_byte_length_adds(Seq::empty(), b.drop_first());
        assert(Seq::<char>::empty() + b.drop_first() =~= b.drop_first());
    }
    if a.len() > 0 {
        lemma_byte_length_adds(a.drop_first(), b);
        assert((a + b).drop_first() =~= a.drop_first() + b);
        assert((a + b)[0] == a[0]);
    } else {
        assert(a + b =~= b);
    }
}

/// In mounting order a directory comes before everything that is mounted
/// below it: a partition whose mount point is the beginning of another's is
/// worked on first.
pub proof fn lemma_parents_are_mounted_first(
    partitions: Seq<PartitionView>,
    parent: int,
    child: int,
    rest: Seq<char>,
)
    requires
        0 <= parent < mount_order(partitions).len(),
        0 <= child < mount_order(partitions).len(),
        rest.len() > 0,
        mount_order(partitions)[child].mountpoint == mount_order(partitions)[parent].mountpoint
            + rest,
    ensures
        parent < child,
{
    let sorted = mount_order(partitions);
    lemma_mount_order_is_stable_sort(partitions);
    lemma_byte_length_adds(sorted[parent].mountpoint, rest);
    assert(mount_key(sorted[parent]) < mount_key(sorted[child]));
    if child < parent {
        assert(mount_key(sorted[child]) <= mount_key(sorted[parent]));
    }
}

} // verus!
