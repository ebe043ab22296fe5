//! The boundary encoding of a collector's answer, and its decoding.
//!
//! A collector answers with a status code and a payload. The boundary has no
//! optional type: an unknown battery percentage is 255, an unknown remaining
//! time is negative, and a text that was not reported is absent. Decoding
//! turns each of these into an explicit `Option` or into the empty text, so
//! that no raw sentinel reaches the caller.

use vstd::prelude::*;
use crate::error::{DracErrorCode, ErrorCode, DRAC_SUCCESS};
use crate::text::{copy_optional_text, copy_text_or_empty, optional_text, text_or_empty};
use crate::metrics::{
    views,
    Battery,
    BatteryStatus,
    DiskInfo,
    DiskInfoView,
    DracBatteryStatus,
    NetworkInterface,
    NetworkInterfaceView,
    OSInfo,
    OSInfoView,
};

verus! {

/// What a collector hands back: a status code, and a payload that means
/// something only where the code is `DRAC_SUCCESS`.
#[derive(Debug, Clone, PartialEq, Eq)]
pub struct Reply<T> {
    pub code: DracErrorCode,
    pub payload: T,
}

/// The raw battery state: percentage 255 and a negative remaining time both
/// stand for "unknown".
#[derive(Debug, Clone, Copy, PartialEq, Eq)]
pub struct RawBattery {
    pub status: DracBatteryStatus,
    pub percentage: u8,
    pub time_remaining_secs: i64,
}

/// The raw operating system identity; each text may be absent.
#[derive(Debug, Clone, PartialEq, Eq)]
pub struct RawOSInfo {
    pub name: Option<String>,
    pub version: Option<String>,
    pub id: Option<String>,
}

/// A raw disk record; each text may be absent.
#[derive(Debug, Clone, PartialEq, Eq)]
pub struct RawDiskInfo {
    pub name: Option<String>,
    pub mount_point: Option<String>,
    pub filesystem: Option<String>,
    pub drive_type: Option<String>,
    pub total_bytes: u64,
    pub used_bytes: u64,
    pub is_system_drive: bool,
}

/// A raw network interface record; each text may be absent.
#[derive(Debug, Clone, PartialEq, Eq)]
pub struct RawNetworkInterface {
    pub name: Option<String>,
    pub ipv4_address: Option<String>,
    pub ipv6_address: Option<String>,
    pub mac_address: Option<String>,
    pub is_up: bool,
    pub is_loopback: bool,
}

/// The result that a status code and a decoded payload amount to: the
/// payload where the code is `DRAC_SUCCESS`, else the failure kind that the
/// code stands for. The kind is passed through as it is.
pub open spec fn reply_outcome<T>(code: DracErrorCode, value: T) -> Result<T, ErrorCode> {
    if code == DRAC_SUCCESS {
        Ok(value)
    } else {
        Err(ErrorCode::of_code(code as int))
    }
}

/// The result that a reply carrying a text amounts to. A failure code is
/// passed on as the kind it stands for, whether or not a text came with it.
/// A reply that says success and carries no text has nothing to hand out:
/// it fails with `NotFound`.
pub open spec fn text_outcome(reply: Reply<Option<String>>) -> Result<Seq<char>, ErrorCode> {
    if reply.code != DRAC_SUCCESS {
        Err(ErrorCode::of_code(reply.code as int))
    } else {
        match reply.payload {
            Some(text) => Ok(text@),
            None => Err(ErrorCode::NotFound),
        }
    }
}

/// A result with the value, if any, replaced by its view.
pub open spec fn outcome_view<T: View>(outcome: Result<T, ErrorCode>) -> Result<T::V, ErrorCode> {
    match outcome {
        Ok(value) => Ok(value@),
        Err(kind) => Err(kind),
    }
}

/// The battery state that a raw record stands for.
pub open spec fn battery_of(raw: RawBattery) -> Battery {
    Battery {
        status: BatteryStatus::of_raw(raw.status as int),
        percentage: if raw.percentage == 255 {
            None
        } else {
            Some(raw.percentage)
        },
        time_remaining_secs: if raw.time_remaining_secs < 0 {
            None
        } else {
            Some(raw.time_remaining_secs)
        },
    }
}

/// The operating system identity that a raw record stands for.
pub open spec fn system_of(raw: RawOSInfo) -> OSInfoView {
    OSInfoView {
        name: text_or_empty(raw.name),
        version: text_or_empty(raw.version),
        id: text_or_empty(raw.id),
    }
}

/// The disk that a raw record stands for.
pub open spec fn disk_of(raw: RawDiskInfo) -> DiskInfoView {
    DiskInfoView {
        name: text_or_empty(raw.name),
        mount_point: text_or_empty(raw.mount_point),
        filesystem: text_or_empty(raw.filesystem),
        drive_type: text_or_empty(raw.drive_type),
        total_bytes: raw.total_bytes,
        used_bytes: raw.used_bytes,
        is_system_drive: raw.is_system_drive,
    }
}

/// The disks that a raw list stands for: one per record, in order.
pub open spec fn disks_of(raw: Seq<RawDiskInfo>) -> Seq<DiskInfoView> {
    raw.map_values(|record: RawDiskInfo| disk_of(record))
}

/// The network interface that a raw record stands for. An absent name reads
/// as the empty text; an absent address stays absent.
pub open spec fn interface_of(raw: RawNetworkInterface) -> NetworkInterfaceView {
    NetworkInterfaceView {
        name: text_or_empty(raw.name),
        ipv4_address: optional_text(raw.ipv4_address),
        ipv6_address: optional_text(raw.ipv6_address),
        mac_address: optional_text(raw.mac_address),
        is_up: raw.is_up,
        is_loopback: raw.is_loopback,
    }
}

/// The network interfaces that a raw list stands for: one per record, in
/// order.
pub open spec fn interfaces_of(raw: Seq<RawNetworkInterface>) -> Seq<NetworkInterfaceView> {
    raw.map_values(|record: RawNetworkInterface| interface_of(record))
}

/// Decodes a raw battery record.
pub fn decode_battery(raw: RawBattery) -> (battery: Battery)
    ensures
        battery == battery_of(raw),
{
    Battery {
        status: BatteryStatus::from_raw(raw.status),
        percentage: if raw.percentage == 255 {
            None
        } else {
            Some(raw.percentage)
        },
        time_remaining_secs: if raw.time_remaining_secs < 0 {
            None
        } else {
            Some(raw.time_remaining_secs)
        },
    }
}

/// Decodes a raw operating system record.
pub fn decode_system(raw: &RawOSInfo) -> (info: OSInfo)
    ensures
        info@ == system_of(*raw),
{
    OSInfo {
        name: copy_text_or_empty(&raw.name),
        version: copy_text_or_empty(&raw.version),
        id: copy_text_or_empty(&raw.id),
    }
}

/// Decodes a raw disk record.
pub fn decode_disk(raw: &RawDiskInfo) -> (disk: DiskInfo)
    ensures
        disk@ == disk_of(*raw),
{
    DiskInfo {
        name: copy_text_or_empty(&raw.name),
        mount_point: copy_text_or_empty(&raw.mount_point),
        filesystem: copy_text_or_empty(&raw.filesystem),
        drive_type: copy_text_or_empty(&raw.drive_type),
        total_bytes: raw.total_bytes,
        used_bytes: raw.used_bytes,
        is_system_drive: raw.is_system_drive,
    }
}

/// Decodes a raw list of disks. Every record decodes, so the list that
/// comes out is as long as the one that went in.
pub fn decode_disks(raw: &Vec<RawDiskInfo>) -> (disks: Vec<DiskInfo>)
    ensures
        disks.len() == raw.len(),
        views(disks@) == disks_of(raw@),
{
    let mut disks: Vec<DiskInfo> = Vec::new();
    let mut i: usize = 0;
    while i < raw.len()
        invariant
            i <= raw.len(),
            disks.len() == i,
            forall|j: int| 0 <= j < i ==> disks[j]@ == disk_of(raw[j]),
        decreases raw.len() - i,
    {
        disks.push(decode_disk(&raw[i]));
        i += 1;
    }
    assert(views(disks@) =~= disks_of(raw@));
    disks
}

/// Decodes a raw network interface record.
pub fn decode_interface(raw: &RawNetworkInterface) -> (interface: NetworkInterface)
    ensures
        interface@ == interface_of(*raw),
{
    NetworkInterface {
        name: copy_text_or_empty(&raw.name),
        ipv4_address: copy_optional_text(&raw.ipv4_address),
        ipv6_address: copy_optional_text(&raw.ipv6_address),
        mac_address: copy_optional_text(&raw.mac_address),
        is_up: raw.is_up,
        is_loopback: raw.is_loopback,
    }
}

/// Decodes a raw list of network interfaces. Every record decodes, so the
/// list that comes out is as long as the one that went in.
pub fn decode_interfaces(raw: &Vec<RawNetworkInterface>) -> (interfaces: Vec<NetworkInterface>)
    ensures
        interfaces.len() == raw.len(),
        views(interfaces@) == interfaces_of(raw@),
{
    let mut interfaces: Vec<NetworkInterface> = Vec::new();
    let mut i: usize = 0;
    while i < raw.len()
        invariant
            i <= raw.len(),
            interfaces.len() == i,
            forall|j: int| 0 <= j < i ==> interfaces[j]@ == interface_of(raw[j]),
        decreases raw.len() - i,
    {
        interfaces.push(decode_interface(&raw[i]));
        i += 1;
    }
    assert(views(interfaces@) =~= interfaces_of(raw@));
    interfaces
}

/// A reply never amounts to a failure that carries `Success`: a failure is
/// one of the failure kinds, whatever the code and whatever the payload.
pub proof fn lemma_failure_is_never_success<T>(
    code: DracErrorCode,
    value: T,
    text: Reply<Option<String>>,
)
    ensures
        reply_outcome(code, value) != Err::<T, ErrorCode>(ErrorCode::Success),
        text_outcome(text) != Err::<Seq<char>, ErrorCode>(ErrorCode::Success),
{
}

/// Sentinel decoding: a raw percentage of 255 is an absent percentage and
/// every other one is present as it is; a negative remaining time is an
/// absent time and every other one is present as it is.
pub proof fn lemma_battery_sentinels(raw: RawBattery)
    ensures
        raw.percentage == 255 <==> battery_of(raw).percentage is None,
        raw.percentage != 255 ==> battery_of(raw).percentage == Some(raw.percentage),
        raw.time_remaining_secs < 0 <==> battery_of(raw).time_remaining_secs is None,
        raw.time_remaining_secs >= 0 ==> battery_of(raw).time_remaining_secs == Some(
            raw.time_remaining_secs,
        ),
{
}

/// A decoded list has one item for each raw record: no record is dropped
/// and none is made up.
pub proof fn lemma_lists_keep_their_count(
    disks: Seq<RawDiskInfo>,
    interfaces: Seq<RawNetworkInterface>,
)
    ensures
        disks_of(disks).len() == disks.len(),
        interfaces_of(interfaces).len() == interfaces.len(),
{
}

} // verus!
