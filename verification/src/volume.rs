//! Which of the volumes that Windows reports are listed.

use vstd::prelude::*;
use vstd::string::*;

verus! {

/// How a volume is attached to the machine.
#[derive(Clone, Copy, Debug, PartialEq, Eq, Structural)]
pub enum MountType {
    System,
    External,
    Network,
    Virtual,
}

/// A volume as Windows reports it.
#[derive(Debug, PartialEq, Eq)]
pub struct WindowsVolumeInfo {
    pub drive_letter: Option<String>,
    pub label: Option<String>,
    pub size: u64,
    pub size_remaining: u64,
    pub filesystem: String,
    pub volume_guid: Option<String>,
}

/// A volume as the application knows it.
#[derive(Debug, PartialEq, Eq)]
pub struct Volume {
    pub name: String,
    pub mount_type: MountType,
    pub total_capacity: u64,
    pub available_space: u64,
}

impl Volume {
    /// The capacity of the volume in bytes.
    #[verifier::when_used_as_spec(spec_total_bytes_capacity)]
    pub fn total_bytes_capacity(&self) -> (bytes: u64)
        ensures
            bytes == self.total_capacity,
    {
        self.total_capacity
    }

    /// The capacity of the volume in bytes.
    pub open spec fn spec_total_bytes_capacity(&self) -> u64 {
        self.total_capacity
    }
}

/// Which volumes a detection lists.
#[derive(Clone, Copy, Debug, PartialEq, Eq, Structural)]
pub struct VolumeDetectionConfig {
    pub include_system: bool,
    pub include_virtual: bool,
}

/// Whether a volume that Windows reports can be listed at all: it has a drive
/// letter and a size.
pub fn is_mounted_volume(info: &WindowsVolumeInfo) -> (r: bool)
    ensures
        r == (info.drive_letter is Some && info.size != 0),
{
    info.drive_letter.is_some() && info.size != 0
}

/// The mount type of a drive: drives C and D are taken for system drives, all
/// others for external ones.
pub fn determine_mount_type_windows(drive_letter: &str) -> (mount_type: MountType)
    ensures
        mount_type == if drive_letter@ == "C:\\"@ || drive_letter@ == "c:\\"@ || drive_letter@
            == "D:\\"@ || drive_letter@ == "d:\\"@ {
            MountType::System
        } else {
            MountType::External
        },
{
    let drive = drive_letter.to_string();
    if drive == "C:\\".to_string() || drive == "c:\\".to_string() || drive == "D:\\".to_string()
        || drive == "d:\\".to_string() {
        MountType::System
    } else {
        MountType::External
    }
}

/// Whether a volume is listed under the given configuration: system volumes
/// only where they are asked for, and volumes without capacity only where
/// virtual volumes are asked for.
pub fn should_include_volume(volume: &Volume, config: &VolumeDetectionConfig) -> (r: bool)
    ensures
        r == ((config.include_system || volume.mount_type != MountType::System) && (
        config.include_virtual || volume.total_capacity != 0)),
{
    if !config.include_system && volume.mount_type == MountType::System {
        return false;
    }
    if !config.include_virtual && volume.total_bytes_capacity() == 0 {
        return false;
    }
    true
}

} // verus!
