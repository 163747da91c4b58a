//! What the operator hands to the installer.

use crate::text::{split, split_on};
use vstd::prelude::*;

verus! {

/// The command line as a whole.
#[derive(Debug)]
pub struct Opt {
    pub command: Command,
    /// How many times the verbosity flag was given.
    pub verbose: u8,
}

/// What the installer is asked to do.
#[derive(Debug)]
pub enum Command {
    /// Read an installation config and carry it out.
    Config {
        /// Path of the config file.
        config: String,
    },
}

/// Arguments of the base installation.
#[derive(Debug)]
pub struct InstallBaseArgs {
    pub kernel: String,
}

/// One operator-supplied partition: where it is mounted, which block device
/// it is, and the name of its filesystem.
#[derive(Debug, Clone, PartialEq, Eq)]
pub struct Partition {
    pub mountpoint: String,
    pub blockdevice: String,
    pub filesystem: String,
}

/// Mathematical model of a [`Partition`].
#[verifier::ext_equal]
pub struct PartitionView {
    pub mountpoint: Seq<char>,
    pub blockdevice: Seq<char>,
    pub filesystem: Seq<char>,
}

impl DeepView for Partition {
    type V = PartitionView;

    open spec fn deep_view(&self) -> PartitionView {
        PartitionView {
            mountpoint: self.mountpoint@,
            blockdevice: self.blockdevice@,
            filesystem: self.filesystem@,
        }
    }
}

impl View for Partition {
    type V = PartitionView;

    open spec fn view(&self) -> PartitionView {
        self.deep_view()
    }
}

impl Partition {
    pub fn new(mountpoint: String, blockdevice: String, filesystem: String) -> (r: Self)
        ensures
            r@ == (PartitionView {
                mountpoint: mountpoint@,
                blockdevice: blockdevice@,
                filesystem: filesystem@,
            }),
    {
        Self { mountpoint, blockdevice, filesystem }
    }
}

/// Reads a partition given as `mountpoint:blockdevice:filesystem`. What
/// follows a third colon is not looked at; a text with fewer than three
/// fields is not accepted.
pub fn parse_partition(s: &str) -> (r: Result<Partition, &'static str>)
    requires
        split(s@, ':').len() >= 3,
    ensures
        r is Ok,
        r->Ok_0@ == (PartitionView {
            mountpoint: split(s@, ':')[0],
            blockdevice: split(s@, ':')[1],
            filesystem: split(s@, ':')[2],
        }),
{
    let fields = split_on(s, ':');
    Ok(Partition::new(fields[0].clone(), fields[1].clone(), fields[2].clone()))
}

/// Whether the layout is computed by the installer or supplied by the operator.
#[derive(Debug, Copy, Clone, Ord, PartialOrd, Eq, PartialEq, Structural)]
pub enum PartitionMode {
    Auto,
    Manual,
}

/// The desktop environment to set up.
#[derive(Debug, Copy, Clone, Ord, PartialOrd, Eq, PartialEq, Structural)]
pub enum DesktopSetup {
    Gnome,
    Plasma,
    Cosmic,
    Cinnamon,
    /// No desktop at all.
    NoDesktop,
}

} // verus!
