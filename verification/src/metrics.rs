//! The metric values that the library hands to its callers, each with the
//! mathematical view that the contracts speak of.
//!
//! Text is modelled as a sequence of characters, a list as a sequence of
//! views. A value that holds no text is its own view.

use vstd::prelude::*;
use vstd::std_specs::convert::FromSpecImpl;
use crate::text::{copy_optional_text, optional_text};

verus! {

/// A battery status as it crosses the boundary.
pub type DracBatteryStatus = i32;

pub const DRAC_BATTERY_UNKNOWN: DracBatteryStatus = 0;

pub const DRAC_BATTERY_CHARGING: DracBatteryStatus = 1;

pub const DRAC_BATTERY_DISCHARGING: DracBatteryStatus = 2;

pub const DRAC_BATTERY_FULL: DracBatteryStatus = 3;

pub const DRAC_BATTERY_NOT_PRESENT: DracBatteryStatus = 4;

/// What a battery is doing.
#[derive(Debug, Clone, Copy, PartialEq, Eq, Structural)]
pub enum BatteryStatus {
    Unknown,
    Charging,
    Discharging,
    Full,
    NotPresent,
}

impl BatteryStatus {
    /// The status that a raw number stands for. A number that encodes no
    /// status reads as `Unknown`.
    pub open spec fn of_raw(status: int) -> BatteryStatus {
        if status == 1 {
            BatteryStatus::Charging
        } else if status == 2 {
            BatteryStatus::Discharging
        } else if status == 3 {
            BatteryStatus::Full
        } else if status == 4 {
            BatteryStatus::NotPresent
        } else {
            BatteryStatus::Unknown
        }
    }

    /// Decodes a raw status.
    pub fn from_raw(status: DracBatteryStatus) -> (decoded: BatteryStatus)
        ensures
            decoded == BatteryStatus::of_raw(status as int),
    {
        if status == DRAC_BATTERY_CHARGING {
            BatteryStatus::Charging
        } else if status == DRAC_BATTERY_DISCHARGING {
            BatteryStatus::Discharging
        } else if status == DRAC_BATTERY_FULL {
            BatteryStatus::Full
        } else if status == DRAC_BATTERY_NOT_PRESENT {
            BatteryStatus::NotPresent
        } else {
            BatteryStatus::Unknown
        }
    }
}

impl From<DracBatteryStatus> for BatteryStatus {
    fn from(status: DracBatteryStatus) -> (decoded: BatteryStatus) {
        BatteryStatus::from_raw(status)
    }
}

impl FromSpecImpl<DracBatteryStatus> for BatteryStatus {
    open spec fn obeys_from_spec() -> bool {
        true
    }

    open spec fn from_spec(status: DracBatteryStatus) -> BatteryStatus {
        BatteryStatus::of_raw(status as int)
    }
}

/// Bytes in use out of a total, for memory or for disk space.
#[derive(Debug, Clone, Copy, PartialEq, Eq)]
pub struct ResourceUsage {
    pub used_bytes: u64,
    pub total_bytes: u64,
}

/// Processor core counts.
#[derive(Debug, Clone, Copy, PartialEq, Eq)]
pub struct CPUCores {
    pub physical: usize,
    pub logical: usize,
}

/// The identity of the operating system.
#[derive(Debug, Clone, PartialEq, Eq)]
pub struct OSInfo {
    pub name: String,
    pub version: String,
    pub id: String,
}

/// The view of an `OSInfo`: its texts as sequences of characters.
pub struct OSInfoView {
    pub name: Seq<char>,
    pub version: Seq<char>,
    pub id: Seq<char>,
}

impl View for OSInfo {
    type V = OSInfoView;

    open spec fn view(&self) -> OSInfoView {
        OSInfoView { name: self.name@, version: self.version@, id: self.id@ }
    }
}

impl OSInfo {
    /// A copy with the same view.
    pub fn duplicate(&self) -> (copy: OSInfo)
        ensures
            copy@ == self@,
    {
        OSInfo { name: self.name.clone(), version: self.version.clone(), id: self.id.clone() }
    }
}

/// One mounted disk.
#[derive(Debug, Clone, PartialEq, Eq)]
pub struct DiskInfo {
    pub name: String,
    pub mount_point: String,
    pub filesystem: String,
    pub drive_type: String,
    pub total_bytes: u64,
    pub used_bytes: u64,
    pub is_system_drive: bool,
}

/// The view of a `DiskInfo`.
pub struct DiskInfoView {
    pub name: Seq<char>,
    pub mount_point: Seq<char>,
    pub filesystem: Seq<char>,
    pub drive_type: Seq<char>,
    pub total_bytes: u64,
    pub used_bytes: u64,
    pub is_system_drive: bool,
}

impl View for DiskInfo {
    type V = DiskInfoView;

    open spec fn view(&self) -> DiskInfoView {
        DiskInfoView {
            name: self.name@,
            mount_point: self.mount_point@,
            filesystem: self.filesystem@,
            drive_type: self.drive_type@,
            total_bytes: self.total_bytes,
            used_bytes: self.used_bytes,
            is_system_drive: self.is_system_drive,
        }
    }
}

impl DiskInfo {
    /// A copy with the same view.
    pub fn duplicate(&self) -> (copy: DiskInfo)
        ensures
            copy@ == self@,
    {
        DiskInfo {
            name: self.name.clone(),
            mount_point: self.mount_point.clone(),
            filesystem: self.filesystem.clone(),
            drive_type: self.drive_type.clone(),
            total_bytes: self.total_bytes,
            used_bytes: self.used_bytes,
            is_system_drive: self.is_system_drive,
        }
    }
}

/// One display output.
///
/// The refresh rate, a binary64 number of hertz at the boundary, is carried
/// as its IEEE 754 bit pattern: the library stores and returns it and never
/// computes with it.
#[derive(Debug, Clone, Copy, PartialEq, Eq)]
pub struct DisplayInfo {
    pub id: u64,
    pub width: u64,
    pub height: u64,
    pub refresh_rate_bits: u64,
    pub is_primary: bool,
}

/// One network interface. An address that the platform did not report is
/// `None`.
#[derive(Debug, Clone, PartialEq, Eq)]
pub struct NetworkInterface {
    pub name: String,
    pub ipv4_address: Option<String>,
    pub ipv6_address: Option<String>,
    pub mac_address: Option<String>,
    pub is_up: bool,
    pub is_loopback: bool,
}

/// The view of a `NetworkInterface`.
pub struct NetworkInterfaceView {
    pub name: Seq<char>,
    pub ipv4_address: Option<Seq<char>>,
    pub ipv6_address: Option<Seq<char>>,
    pub mac_address: Option<Seq<char>>,
    pub is_up: bool,
    pub is_loopback: bool,
}

impl View for NetworkInterface {
    type V = NetworkInterfaceView;

    open spec fn view(&self) -> NetworkInterfaceView {
        NetworkInterfaceView {
            name: self.name@,
            ipv4_address: optional_text(self.ipv4_address),
            ipv6_address: optional_text(self.ipv6_address),
            mac_address: optional_text(self.mac_address),
            is_up: self.is_up,
            is_loopback: self.is_loopback,
        }
    }
}

impl NetworkInterface {
    /// A copy with the same view.
    pub fn duplicate(&self) -> (copy: NetworkInterface)
        ensures
            copy@ == self@,
    {
        NetworkInterface {
            name: self.name.clone(),
            ipv4_address: copy_optional_text(&self.ipv4_address),
            ipv6_address: copy_optional_text(&self.ipv6_address),
            mac_address: copy_optional_text(&self.mac_address),
            is_up: self.is_up,
            is_loopback: self.is_loopback,
        }
    }
}

/// The state of the battery. A percentage or a remaining time that the
/// platform does not know is `None`.
#[derive(Debug, Clone, Copy, PartialEq, Eq)]
pub struct Battery {
    pub status: BatteryStatus,
    pub percentage: Option<u8>,
    pub time_remaining_secs: Option<i64>,
}

/// The views of a list's items, in order.
pub open spec fn views<T: View>(items: Seq<T>) -> Seq<T::V> {
    items.map_values(|item: T| item@)
}

/// Copies a list of disks.
pub fn duplicate_disks(disks: &Vec<DiskInfo>) -> (copy: Vec<DiskInfo>)
    ensures
        views(copy@) == views(disks@),
{
    let mut copy: Vec<DiskInfo> = Vec::new();
    let mut i: usize = 0;
    while i < disks.len()
        invariant
            i <= disks.len(),
            copy.len() == i,
            forall|j: int| 0 <= j < i ==> copy[j]@ == disks[j]@,
        decreases disks.len() - i,
    {
        copy.push(disks[i].duplicate());
        i += 1;
    }
    assert(views(copy@) =~= views(disks@));
    copy
}

/// Copies a list of displays.
pub fn duplicate_displays(displays: &Vec<DisplayInfo>) -> (copy: Vec<DisplayInfo>)
    ensures
        copy@ == displays@,
{
    let mut copy: Vec<DisplayInfo> = Vec::new();
    let mut i: usize = 0;
    while i < displays.len()
        invariant
            i <= displays.len(),
            copy.len() == i,
            forall|j: int| 0 <= j < i ==> copy[j] == displays[j],
        decreases displays.len() - i,
    {
        copy.push(displays[i]);
        i += 1;
    }
    assert(copy@ =~= displays@);
    copy
}

/// Copies a list of network interfaces.
pub fn duplicate_interfaces(interfaces: &Vec<NetworkInterface>) -> (copy: Vec<NetworkInterface>)
    ensures
        views(copy@) == views(interfaces@),
{
    let mut copy: Vec<NetworkInterface> = Vec::new();
    let mut i: usize = 0;
    while i < interfaces.len()
        invariant
            i <= interfaces.len(),
            copy.len() == i,
            forall|j: int| 0 <= j < i ==> copy[j]@ == interfaces[j]@,
        decreases interfaces.len() - i,
    {
        copy.push(interfaces[i].duplicate());
        i += 1;
    }
    assert(views(copy@) =~= views(interfaces@));
    copy
}

} // verus!
