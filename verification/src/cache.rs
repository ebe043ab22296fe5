//! The run-scoped snapshot cache and the dispatch of metric requests.
//!
//! A `CacheManager` starts empty and lives as long as its owner keeps it.
//! The first successful answer for a metric kind is stored and every later
//! request for that kind is served from the store; a failed answer is not
//! stored, so the next request asks the collector again. Nothing is ever
//! removed or refreshed: a new snapshot needs a new `CacheManager`.
//!
//! The model of a cache is a map from metric kinds to metric values, and
//! `dispatch` says in one place what a request does to that map.
//!
//! A collector is any function that answers with a `Reply`. A request
//! demands the collector's precondition only where the kind is not yet
//! populated, and promises a reply of the collector only there: so the
//! collector is asked exactly `collector_calls` times.

use vstd::prelude::*;
use crate::error::{ErrorCode, DRAC_SUCCESS};
use crate::metrics::{
    duplicate_disks,
    duplicate_displays,
    duplicate_interfaces,
    views,
    Battery,
    CPUCores,
    DiskInfo,
    DiskInfoView,
    DisplayInfo,
    NetworkInterface,
    NetworkInterfaceView,
    OSInfo,
    OSInfoView,
    ResourceUsage,
};
use crate::wire::{
    battery_of,
    decode_battery,
    decode_disk,
    decode_disks,
    decode_interface,
    decode_interfaces,
    decode_system,
    disk_of,
    disks_of,
    interface_of,
    interfaces_of,
    reply_outcome,
    system_of,
    text_outcome,
    RawBattery,
    RawDiskInfo,
    RawNetworkInterface,
    RawOSInfo,
    Reply,
};

verus! {

/// The kinds of metric that a cache holds, one entry each. Uptime is not
/// among them: it changes all the time and is never stored.
#[derive(Debug, Clone, Copy, PartialEq, Eq, Structural)]
pub enum MetricKind {
    MemInfo,
    CpuCores,
    OperatingSystem,
    BatteryInfo,
    CpuModel,
    GpuModel,
    DesktopEnvironment,
    WindowManager,
    Shell,
    Host,
    KernelVersion,
    DiskUsage,
    Disks,
    SystemDisk,
    Outputs,
    PrimaryOutput,
    NetworkInterfaces,
    PrimaryNetworkInterface,
}

/// A metric value as the model sees it. A list is one value: the cache
/// stores and serves it whole.
pub enum MetricValue {
    Usage(ResourceUsage),
    Cores(CPUCores),
    System(OSInfoView),
    Power(Battery),
    Text(Seq<char>),
    Disk(DiskInfoView),
    Disks(Seq<DiskInfoView>),
    Display(DisplayInfo),
    Displays(Seq<DisplayInfo>),
    Interface(NetworkInterfaceView),
    Interfaces(Seq<NetworkInterfaceView>),
}

/// The model of a cache: the kinds that are populated, each with its value.
pub type Snapshot = Map<MetricKind, MetricValue>;

/// Whether a value is of the variant that a kind holds.
pub open spec fn fits(kind: MetricKind, value: MetricValue) -> bool {
    match kind {
        MetricKind::MemInfo | MetricKind::DiskUsage => value is Usage,
        MetricKind::CpuCores => value is Cores,
        MetricKind::OperatingSystem => value is System,
        MetricKind::BatteryInfo => value is Power,
        MetricKind::CpuModel
        | MetricKind::GpuModel
        | MetricKind::DesktopEnvironment
        | MetricKind::WindowManager
        | MetricKind::Shell
        | MetricKind::Host
        | MetricKind::KernelVersion => value is Text,
        MetricKind::Disks => value is Disks,
        MetricKind::SystemDisk => value is Disk,
        MetricKind::Outputs => value is Displays,
        MetricKind::PrimaryOutput => value is Display,
        MetricKind::NetworkInterfaces => value is Interfaces,
        MetricKind::PrimaryNetworkInterface => value is Interface,
    }
}

/// Every populated kind holds a value of its own variant.
pub open spec fn well_typed(snapshot: Snapshot) -> bool {
    forall|kind: MetricKind| #[trigger]
        snapshot.contains_key(kind) ==> fits(kind, snapshot[kind])
}

/// What a request for a populated `kind` gives: the stored value, and the
/// snapshot as it was.
pub open spec fn served(before: Snapshot, kind: MetricKind) -> (
    Snapshot,
    Result<MetricValue, ErrorCode>,
) {
    (before, Ok(before[kind]))
}

/// What a request for `kind` does. A populated kind is served from the
/// snapshot, which stays as it is, whatever the collector would have said.
/// Otherwise the collector's outcome is the result, and it is stored if and
/// only if it is a success. A failure is passed on as the kind it is.
pub open spec fn dispatch(
    before: Snapshot,
    kind: MetricKind,
    collected: Result<MetricValue, ErrorCode>,
) -> (Snapshot, Result<MetricValue, ErrorCode>) {
    if before.contains_key(kind) {
        served(before, kind)
    } else {
        match collected {
            Ok(value) => (before.insert(kind, value), Ok(value)),
            Err(failure) => (before, Err(failure)),
        }
    }
}

/// How often a request for `kind` asks the collector: once if the kind is
/// not populated, never if it is.
pub open spec fn collector_calls(before: Snapshot, kind: MetricKind) -> nat {
    if before.contains_key(kind) {
        0
    } else {
        1
    }
}

/// A type of value that the cache can hold.
pub trait Metric: Sized {
    /// The boundary encoding of the value.
    type Raw;

    /// The value as the model sees it.
    spec fn value(&self) -> MetricValue;

    /// The outcome that a collector's reply amounts to.
    spec fn outcome(reply: Reply<Self::Raw>) -> Result<MetricValue, ErrorCode>;

    /// Decodes a collector's reply. A failure is one of the failure kinds,
    /// never `Success`.
    fn from_reply(reply: &Reply<Self::Raw>) -> (result: Result<Self, ErrorCode>)
        ensures
            match result {
                Ok(value) => Self::outcome(*reply) == Ok::<MetricValue, ErrorCode>(value.value()),
                Err(failure) => Self::outcome(*reply) == Err::<MetricValue, ErrorCode>(failure),
            },
            result matches Err(failure) ==> failure != ErrorCode::Success,
    ;

    /// A copy with the same value.
    fn duplicate_metric(&self) -> (copy: Self)
        ensures
            copy.value() == self.value(),
    ;
}

/// A result with the value, if any, replaced by its model.
pub open spec fn outcome_value<T: Metric>(outcome: Result<T, ErrorCode>) -> Result<
    MetricValue,
    ErrorCode,
> {
    match outcome {
        Ok(value) => Ok(value.value()),
        Err(failure) => Err(failure),
    }
}

/// The model of what one slot of the cache holds.
pub open spec fn stored<T: Metric>(slot: Option<T>) -> Option<MetricValue> {
    match slot {
        Some(value) => Some(value.value()),
        None => None,
    }
}

impl Metric for ResourceUsage {
    type Raw = ResourceUsage;

    open spec fn value(&self) -> MetricValue {
        MetricValue::Usage(*self)
    }

    open spec fn outcome(reply: Reply<ResourceUsage>) -> Result<MetricValue, ErrorCode> {
        reply_outcome(reply.code, MetricValue::Usage(reply.payload))
    }

    fn from_reply(reply: &Reply<ResourceUsage>) -> (result: Result<ResourceUsage, ErrorCode>)
        ensures
            result == reply_outcome(reply.code, reply.payload),
    {
        if reply.code == DRAC_SUCCESS {
            Ok(reply.payload)
        } else {
            Err(ErrorCode::from_code(reply.code))
        }
    }

    fn duplicate_metric(&self) -> (copy: ResourceUsage)
        ensures
            copy == *self,
    {
        *self
    }
}

impl Metric for CPUCores {
    type Raw = CPUCores;

    open spec fn value(&self) -> MetricValue {
        MetricValue::Cores(*self)
    }

    open spec fn outcome(reply: Reply<CPUCores>) -> Result<MetricValue, ErrorCode> {
        reply_outcome(reply.code, MetricValue::Cores(reply.payload))
    }

    fn from_reply(reply: &Reply<CPUCores>) -> (result: Result<CPUCores, ErrorCode>)
        ensures
            result == reply_outcome(reply.code, reply.payload),
    {
        if reply.code == DRAC_SUCCESS {
            Ok(reply.payload)
        } else {
            Err(ErrorCode::from_code(reply.code))
        }
    }

    fn duplicate_metric(&self) -> (copy: CPUCores)
        ensures
            copy == *self,
    {
        *self
    }
}

impl Metric for OSInfo {
    type Raw = RawOSInfo;

    open spec fn value(&self) -> MetricValue {
        MetricValue::System(self@)
    }

    open spec fn outcome(reply: Reply<RawOSInfo>) -> Result<MetricValue, ErrorCode> {
        reply_outcome(reply.code, MetricValue::System(system_of(reply.payload)))
    }

    fn from_reply(reply: &Reply<RawOSInfo>) -> (result: Result<OSInfo, ErrorCode>) {
        if reply.code == DRAC_SUCCESS {
            Ok(decode_system(&reply.payload))
        } else {
            Err(ErrorCode::from_code(reply.code))
        }
    }

    fn duplicate_metric(&self) -> (copy: OSInfo) {
        self.duplicate()
    }
}

impl Metric for Battery {
    type Raw = RawBattery;

    open spec fn value(&self) -> MetricValue {
        MetricValue::Power(*self)
    }

    open spec fn outcome(reply: Reply<RawBattery>) -> Result<MetricValue, ErrorCode> {
        reply_outcome(reply.code, MetricValue::Power(battery_of(reply.payload)))
    }

    fn from_reply(reply: &Reply<RawBattery>) -> (result: Result<Battery, ErrorCode>)
        ensures
            result == reply_outcome(reply.code, battery_of(reply.payload)),
    {
        if reply.code == DRAC_SUCCESS {
            Ok(decode_battery(reply.payload))
        } else {
            Err(ErrorCode::from_code(reply.code))
        }
    }

    fn duplicate_metric(&self) -> (copy: Battery)
        ensures
            copy == *self,
    {
        *self
    }
}

impl Metric for String {
    type Raw = Option<String>;

    open spec fn value(&self) -> MetricValue {
        MetricValue::Text(self@)
    }

    open spec fn outcome(reply: Reply<Option<String>>) -> Result<MetricValue, ErrorCode> {
        match text_outcome(reply) {
            Ok(text) => Ok(MetricValue::Text(text)),
            Err(failure) => Err(failure),
        }
    }

    fn from_reply(reply: &Reply<Option<String>>) -> (result: Result<String, ErrorCode>) {
        if reply.code != DRAC_SUCCESS {
            Err(ErrorCode::from_code(reply.code))
        } else {
            match &reply.payload {
                Some(text) => Ok(text.clone()),
                None => Err(ErrorCode::NotFound),
            }
        }
    }

    fn duplicate_metric(&self) -> (copy: String) {
        self.clone()
    }
}

impl Metric for DiskInfo {
    type Raw = RawDiskInfo;

    open spec fn value(&self) -> MetricValue {
        MetricValue::Disk(self@)
    }

    open spec fn outcome(reply: Reply<RawDiskInfo>) -> Result<MetricValue, ErrorCode> {
        reply_outcome(reply.code, MetricValue::Disk(disk_of(reply.payload)))
    }

    fn from_reply(reply: &Reply<RawDiskInfo>) -> (result: Result<DiskInfo, ErrorCode>) {
        if reply.code == DRAC_SUCCESS {
            Ok(decode_disk(&reply.payload))
        } else {
            Err(ErrorCode::from_code(reply.code))
        }
    }

    fn duplicate_metric(&self) -> (copy: DiskInfo) {
        self.duplicate()
    }
}

impl Metric for Vec<DiskInfo> {
    type Raw = Vec<RawDiskInfo>;

    open spec fn value(&self) -> MetricValue {
        MetricValue::Disks(views(self@))
    }

    open spec fn outcome(reply: Reply<Vec<RawDiskInfo>>) -> Result<MetricValue, ErrorCode> {
        reply_outcome(reply.code, MetricValue::Disks(disks_of(reply.payload@)))
    }

    fn from_reply(reply: &Reply<Vec<RawDiskInfo>>) -> (result: Result<Vec<DiskInfo>, ErrorCode>)
        ensures
            result matches Ok(list) ==> list.len() == reply.payload.len(),
    {
        if reply.code == DRAC_SUCCESS {
            Ok(decode_disks(&reply.payload))
        } else {
            Err(ErrorCode::from_code(reply.code))
        }
    }

    fn duplicate_metric(&self) -> (copy: Vec<DiskInfo>)
        ensures
            copy.len() == self.len(),
    {
        let copy = duplicate_disks(self);
        assert(views(copy@).len() == views(self@).len());
        copy
    }
}

impl Metric for DisplayInfo {
    type Raw = DisplayInfo;

    open spec fn value(&self) -> MetricValue {
        MetricValue::Display(*self)
    }

    open spec fn outcome(reply: Reply<DisplayInfo>) -> Result<MetricValue, ErrorCode> {
        reply_outcome(reply.code, MetricValue::Display(reply.payload))
    }

    fn from_reply(reply: &Reply<DisplayInfo>) -> (result: Result<DisplayInfo, ErrorCode>)
        ensures
            result == reply_outcome(reply.code, reply.payload),
    {
        if reply.code == DRAC_SUCCESS {
            Ok(reply.payload)
        } else {
            Err(ErrorCode::from_code(reply.code))
        }
    }

    fn duplicate_metric(&self) -> (copy: DisplayInfo)
        ensures
            copy == *self,
    {
        *self
    }
}

impl Metric for Vec<DisplayInfo> {
    type Raw = Vec<DisplayInfo>;

    open spec fn value(&self) -> MetricValue {
        MetricValue::Displays(self@)
    }

    open spec fn outcome(reply: Reply<Vec<DisplayInfo>>) -> Result<MetricValue, ErrorCode> {
        reply_outcome(reply.code, MetricValue::Displays(reply.payload@))
    }

    fn from_reply(reply: &Reply<Vec<DisplayInfo>>) -> (result: Result<
        Vec<DisplayInfo>,
        ErrorCode,
    >)
        ensures
            result matches Ok(list) ==> list.len() == reply.payload.len(),
    {
        if reply.code == DRAC_SUCCESS {
            Ok(duplicate_displays(&reply.payload))
        } else {
            Err(ErrorCode::from_code(reply.code))
        }
    }

    fn duplicate_metric(&self) -> (copy: Vec<DisplayInfo>)
        ensures
            copy.len() == self.len(),
    {
        duplicate_displays(self)
    }
}

impl Metric for NetworkInterface {
    type Raw = RawNetworkInterface;

    open spec fn value(&self) -> MetricValue {
        MetricValue::Interface(self@)
    }

    open spec fn outcome(reply: Reply<RawNetworkInterface>) -> Result<MetricValue, ErrorCode> {
        reply_outcome(reply.code, MetricValue::Interface(interface_of(reply.payload)))
    }

    fn from_reply(reply: &Reply<RawNetworkInterface>) -> (result: Result<
        NetworkInterface,
        ErrorCode,
    >) {
        if reply.code == DRAC_SUCCESS {
            Ok(decode_interface(&reply.payload))
        } else {
            Err(ErrorCode::from_code(reply.code))
        }
    }

    fn duplicate_metric(&self) -> (copy: NetworkInterface) {
        self.duplicate()
    }
}

impl Metric for Vec<NetworkInterface> {
    type Raw = Vec<RawNetworkInterface>;

    open spec fn value(&self) -> MetricValue {
        MetricValue::Interfaces(views(self@))
    }

    open spec fn outcome(reply: Reply<Vec<RawNetworkInterface>>) -> Result<
        MetricValue,
        ErrorCode,
    > {
        reply_outcome(reply.code, MetricValue::Interfaces(interfaces_of(reply.payload@)))
    }

    fn from_reply(reply: &Reply<Vec<RawNetworkInterface>>) -> (result: Result<
        Vec<NetworkInterface>,
        ErrorCode,
    >)
        ensures
            result matches Ok(list) ==> list.len() == reply.payload.len(),
    {
        if reply.code == DRAC_SUCCESS {
            Ok(decode_interfaces(&reply.payload))
        } else {
            Err(ErrorCode::from_code(reply.code))
        }
    }

    fn duplicate_metric(&self) -> (copy: Vec<NetworkInterface>)
        ensures
            copy.len() == self.len(),
    {
        let copy = duplicate_interfaces(self);
        assert(views(copy@).len() == views(self@).len());
        copy
    }
}

/// `reply` is an answer of `collect` that accounts for `result` and for
/// what `slot` holds afterwards.
spec fn fetched<T: Metric, F: FnOnce() -> Reply<T::Raw>>(
    collect: F,
    reply: Reply<T::Raw>,
    result: Result<T, ErrorCode>,
    slot: Option<T>,
) -> bool {
    &&& collect.ensures((), reply)
    &&& outcome_value(result) == T::outcome(reply)
    &&& stored(slot) == match T::outcome(reply) {
        Ok(value) => Some(value),
        Err(_) => None,
    }
}

/// What a request does to the one slot it works on. A populated slot is
/// served and stays as it is; an empty slot is served by the collector,
/// whose answer is stored if it is a success. A failure is never `Success`.
spec fn slot_served<T: Metric, F: FnOnce() -> Reply<T::Raw>>(
    before: Option<T>,
    after: Option<T>,
    collect: F,
    result: Result<T, ErrorCode>,
) -> bool {
    &&& stored(before) matches Some(value) ==> stored(after) == Some(value) && outcome_value(
        result,
    ) == Ok::<MetricValue, ErrorCode>(value)
    &&& before is None ==> exists|reply: Reply<T::Raw>| fetched(collect, reply, result, after)
    &&& result matches Err(failure) ==> failure != ErrorCode::Success
}

/// Serves one slot: from the slot where it is populated, else from the
/// collector.
fn fetch<T: Metric, F: FnOnce() -> Reply<T::Raw>>(slot: &mut Option<T>, collect: F) -> (result:
    Result<T, ErrorCode>)
    requires
        *old(slot) is None ==> collect.requires(()),
    ensures
        slot_served(*old(slot), *final(slot), collect, result),
{
    match slot {
        Some(value) => Ok(value.duplicate_metric()),
        None => {
            let reply = collect();
            match T::from_reply(&reply) {
                Ok(value) => {
                    *slot = Some(value.duplicate_metric());
                    assert(fetched(collect, reply, Ok::<T, ErrorCode>(value), *slot));
                    Ok(value)
                },
                Err(failure) => {
                    assert(fetched(collect, reply, Err::<T, ErrorCode>(failure), *slot));
                    Err(failure)
                },
            }
        },
    }
}

/// The snapshot of one run. It is created empty, filled as metrics are
/// first requested, and released with all it holds when its owner lets go
/// of it.
#[derive(Debug)]
pub struct CacheManager {
    mem_info: Option<ResourceUsage>,
    cpu_cores: Option<CPUCores>,
    operating_system: Option<OSInfo>,
    battery: Option<Battery>,
    cpu_model: Option<String>,
    gpu_model: Option<String>,
    desktop_environment: Option<String>,
    window_manager: Option<String>,
    shell: Option<String>,
    host: Option<String>,
    kernel_version: Option<String>,
    disk_usage: Option<ResourceUsage>,
    disks: Option<Vec<DiskInfo>>,
    system_disk: Option<DiskInfo>,
    outputs: Option<Vec<DisplayInfo>>,
    primary_output: Option<DisplayInfo>,
    network_interfaces: Option<Vec<NetworkInterface>>,
    primary_network_interface: Option<NetworkInterface>,
}

impl CacheManager {
    /// The model of the slot that belongs to `kind`.
    closed spec fn slot(&self, kind: MetricKind) -> Option<MetricValue> {
        match kind {
            MetricKind::MemInfo => stored(self.mem_info),
            MetricKind::CpuCores => stored(self.cpu_cores),
            MetricKind::OperatingSystem => stored(self.operating_system),
            MetricKind::BatteryInfo => stored(self.battery),
            MetricKind::CpuModel => stored(self.cpu_model),
            MetricKind::GpuModel => stored(self.gpu_model),
            MetricKind::DesktopEnvironment => stored(self.desktop_environment),
            MetricKind::WindowManager => stored(self.window_manager),
            MetricKind::Shell => stored(self.shell),
            MetricKind::Host => stored(self.host),
            MetricKind::KernelVersion => stored(self.kernel_version),
            MetricKind::DiskUsage => stored(self.disk_usage),
            MetricKind::Disks => stored(self.disks),
            MetricKind::SystemDisk => stored(self.system_disk),
            MetricKind::Outputs => stored(self.outputs),
            MetricKind::PrimaryOutput => stored(self.primary_output),
            MetricKind::NetworkInterfaces => stored(self.network_interfaces),
            MetricKind::PrimaryNetworkInterface => stored(self.primary_network_interface),
        }
    }

    /// Whatever a cache went through, each kind that it holds has a value of
    /// that kind's variant.
    pub proof fn lemma_well_typed(self)
        ensures
            well_typed(self@),
    {
    }

    /// An empty cache: every kind is yet to be collected.
    pub fn new() -> (cache: CacheManager)
        ensures
            cache@ == Snapshot::empty(),
    {
        let cache = CacheManager {
            mem_info: None,
            cpu_cores: None,
            operating_system: None,
            battery: None,
            cpu_model: None,
            gpu_model: None,
            desktop_environment: None,
            window_manager: None,
            shell: None,
            host: None,
            kernel_version: None,
            disk_usage: None,
            disks: None,
            system_disk: None,
            outputs: None,
            primary_output: None,
            network_interfaces: None,
            primary_network_interface: None,
        };
        assert(cache@ =~= Snapshot::empty());
        cache
    }
}

impl View for CacheManager {
    type V = Snapshot;

    closed spec fn view(&self) -> Snapshot {
        Map::new(|kind: MetricKind| self.slot(kind) is Some, |kind: MetricKind| self.slot(kind)->0)
    }
}

impl Default for CacheManager {
    fn default() -> (cache: CacheManager)
        ensures
            cache@ == Snapshot::empty(),
    {
        CacheManager::new()
    }
}

/// What a request did to its slot, said of the whole cache: where no slot
/// but that of `kind` has changed, the snapshot and the result are what
/// `dispatch` gives for an answer of the collector, or, for a populated
/// kind, what `served` gives.
proof fn lemma_request_served<T: Metric, F: FnOnce() -> Reply<T::Raw>>(
    before: CacheManager,
    after: CacheManager,
    kind: MetricKind,
    slot_before: Option<T>,
    slot_after: Option<T>,
    collect: F,
    result: Result<T, ErrorCode>,
)
    requires
        before.slot(kind) == stored(slot_before),
        after.slot(kind) == stored(slot_after),
        forall|other: MetricKind| other != kind ==> after.slot(other) == before.slot(other),
        slot_served(slot_before, slot_after, collect, result),
    ensures
        before@.contains_key(kind) ==> (after@, outcome_value(result)) == served(before@, kind),
        !before@.contains_key(kind) ==> exists|reply: Reply<T::Raw>|
            collect.ensures((), reply) && (after@, outcome_value(result)) == dispatch(
                before@,
                kind,
                #[trigger] T::outcome(reply),
            ),
        result matches Err(failure) ==> failure != ErrorCode::Success,
{
    if before@.contains_key(kind) {
        assert(after@ =~= before@);
    } else {
        let reply = choose|reply: Reply<T::Raw>| fetched(collect, reply, result, slot_after);
        assert(after@ =~= dispatch(before@, kind, T::outcome(reply)).0);
    }
}

/// The time since the machine started, asked anew at every call: uptime is
/// no snapshot value, so no cache takes part.
pub fn get_uptime<F: FnOnce() -> u64>(collect: F) -> (uptime: u64)
    requires
        collect.requires(()),
    ensures
        collect.ensures((), uptime),
{
    collect()
}

/// Memory in use and in total, served from the cache after the first
/// successful collection.
pub fn get_mem_info<F: FnOnce() -> Reply<ResourceUsage>>(
    cache: &mut CacheManager,
    collect: F,
) -> (result: Result<ResourceUsage, ErrorCode>)
    requires
        !old(cache)@.contains_key(MetricKind::MemInfo) ==> collect.requires(()),
    ensures
        old(cache)@.contains_key(MetricKind::MemInfo) ==> (final(cache)@, outcome_value(result))
            == served(old(cache)@, MetricKind::MemInfo),
        !old(cache)@.contains_key(MetricKind::MemInfo) ==> exists|reply: Reply<ResourceUsage>|
            collect.ensures((), reply) && (final(cache)@, outcome_value(result)) == dispatch(
                old(cache)@,
                MetricKind::MemInfo,
                #[trigger] ResourceUsage::outcome(reply),
            ),
        result matches Err(failure) ==> failure != ErrorCode::Success,
{
    let result = fetch(&mut cache.mem_info, collect);
    proof {
        lemma_request_served(
            *old(cache),
            *cache,
            MetricKind::MemInfo,
            old(cache).mem_info,
            cache.mem_info,
            collect,
            result,
        );
    }
    result
}

/// The processor's core counts, served from the cache after the first
/// successful collection.
pub fn get_cpu_cores<F: FnOnce() -> Reply<CPUCores>>(
    cache: &mut CacheManager,
    collect: F,
) -> (result: Result<CPUCores, ErrorCode>)
    requires
        !old(cache)@.contains_key(MetricKind::CpuCores) ==> collect.requires(()),
    ensures
        old(cache)@.contains_key(MetricKind::CpuCores) ==> (final(cache)@, outcome_value(result))
            == served(old(cache)@, MetricKind::CpuCores),
        !old(cache)@.contains_key(MetricKind::CpuCores) ==> exists|reply: Reply<CPUCores>|
            collect.ensures((), reply) && (final(cache)@, outcome_value(result)) == dispatch(
                old(cache)@,
                MetricKind::CpuCores,
                #[trigger] CPUCores::outcome(reply),
            ),
        result matches Err(failure) ==> failure != ErrorCode::Success,
{
    let result = fetch(&mut cache.cpu_cores, collect);
    proof {
        lemma_request_served(
            *old(cache),
            *cache,
            MetricKind::CpuCores,
            old(cache).cpu_cores,
            cache.cpu_cores,
            collect,
            result,
        );
    }
    result
}

/// The identity of the operating system, served from the cache after the
/// first successful collection.
pub fn get_operating_system<F: FnOnce() -> Reply<RawOSInfo>>(
    cache: &mut CacheManager,
    collect: F,
) -> (result: Result<OSInfo, ErrorCode>)
    requires
        !old(cache)@.contains_key(MetricKind::OperatingSystem) ==> collect.requires(()),
    ensures
        old(cache)@.contains_key(MetricKind::OperatingSystem) ==> (
            final(cache)@,
            outcome_value(result),
        ) == served(old(cache)@, MetricKind::OperatingSystem),
        !old(cache)@.contains_key(MetricKind::OperatingSystem) ==> exists|reply: Reply<RawOSInfo>|
            collect.ensures((), reply) && (final(cache)@, outcome_value(result)) == dispatch(
                old(cache)@,
                MetricKind::OperatingSystem,
                #[trigger] OSInfo::outcome(reply),
            ),
        result matches Err(failure) ==> failure != ErrorCode::Success,
{
    let result = fetch(&mut cache.operating_system, collect);
    proof {
        lemma_request_served(
            *old(cache),
            *cache,
            MetricKind::OperatingSystem,
            old(cache).operating_system,
            cache.operating_system,
            collect,
            result,
        );
    }
    result
}

/// The state of the battery, served from the cache after the first
/// successful collection.
pub fn get_battery_info<F: FnOnce() -> Reply<RawBattery>>(
    cache: &mut CacheManager,
    collect: F,
) -> (result: Result<Battery, ErrorCode>)
    requires
        !old(cache)@.contains_key(MetricKind::BatteryInfo) ==> collect.requires(()),
    ensures
        old(cache)@.contains_key(MetricKind::BatteryInfo) ==> (final(cache)@, outcome_value(result))
            == served(old(cache)@, MetricKind::BatteryInfo),
        !old(cache)@.contains_key(MetricKind::BatteryInfo) ==> exists|reply: Reply<RawBattery>|
            collect.ensures((), reply) && (final(cache)@, outcome_value(result)) == dispatch(
                old(cache)@,
                MetricKind::BatteryInfo,
                #[trigger] Battery::outcome(reply),
            ),
        result matches Err(failure) ==> failure != ErrorCode::Success,
{
    let result = fetch(&mut cache.battery, collect);
    proof {
        lemma_request_served(
            *old(cache),
            *cache,
            MetricKind::BatteryInfo,
            old(cache).battery,
            cache.battery,
            collect,
            result,
        );
    }
    result
}

/// The processor's model name, served from the cache after the first
/// successful collection.
pub fn get_cpu_model<F: FnOnce() -> Reply<Option<String>>>(
    cache: &mut CacheManager,
    collect: F,
) -> (result: Result<String, ErrorCode>)
    requires
        !old(cache)@.contains_key(MetricKind::CpuModel) ==> collect.requires(()),
    ensures
        old(cache)@.contains_key(MetricKind::CpuModel) ==> (final(cache)@, outcome_value(result))
            == served(old(cache)@, MetricKind::CpuModel),
        !old(cache)@.contains_key(MetricKind::CpuModel) ==> exists|reply: Reply<Option<String>>|
            collect.ensures((), reply) && (final(cache)@, outcome_value(result)) == dispatch(
                old(cache)@,
                MetricKind::CpuModel,
                #[trigger] String::outcome(reply),
            ),
        result matches Err(failure) ==> failure != ErrorCode::Success,
{
    let result = fetch(&mut cache.cpu_model, collect);
    proof {
        lemma_request_served(
            *old(cache),
            *cache,
            MetricKind::CpuModel,
            old(cache).cpu_model,
            cache.cpu_model,
            collect,
            result,
        );
    }
    result
}

/// The graphics adapter's model name, served from the cache after the first
/// successful collection.
pub fn get_gpu_model<F: FnOnce() -> Reply<Option<String>>>(
    cache: &mut CacheManager,
    collect: F,
) -> (result: Result<String, ErrorCode>)
    requires
        !old(cache)@.contains_key(MetricKind::GpuModel) ==> collect.requires(()),
    ensures
        old(cache)@.contains_key(MetricKind::GpuModel) ==> (final(cache)@, outcome_value(result))
            == served(old(cache)@, MetricKind::GpuModel),
        !old(cache)@.contains_key(MetricKind::GpuModel) ==> exists|reply: Reply<Option<String>>|
            collect.ensures((), reply) && (final(cache)@, outcome_value(result)) == dispatch(
                old(cache)@,
                MetricKind::GpuModel,
                #[trigger] String::outcome(reply),
            ),
        result matches Err(failure) ==> failure != ErrorCode::Success,
{
    let result = fetch(&mut cache.gpu_model, collect);
    proof {
        lemma_request_served(
            *old(cache),
            *cache,
            MetricKind::GpuModel,
            old(cache).gpu_model,
            cache.gpu_model,
            collect,
            result,
        );
    }
    result
}

/// The name of the desktop environment, served from the cache after the
/// first successful collection.
pub fn get_desktop_environment<F: FnOnce() -> Reply<Option<String>>>(
    cache: &mut CacheManager,
    collect: F,
) -> (result: Result<String, ErrorCode>)
    requires
        !old(cache)@.contains_key(MetricKind::DesktopEnvironment) ==> collect.requires(()),
    ensures
        old(cache)@.contains_key(MetricKind::DesktopEnvironment) ==> (
            final(cache)@,
            outcome_value(result),
        ) == served(old(cache)@, MetricKind::DesktopEnvironment),
        !old(cache)@.contains_key(MetricKind::DesktopEnvironment) ==> exists|
            reply: Reply<Option<String>>,
        |
            collect.ensures((), reply) && (final(cache)@, outcome_value(result)) == dispatch(
                old(cache)@,
                MetricKind::DesktopEnvironment,
                #[trigger] String::outcome(reply),
            ),
        result matches Err(failure) ==> failure != ErrorCode::Success,
{
    let result = fetch(&mut cache.desktop_environment, collect);
    proof {
        lemma_request_served(
            *old(cache),
            *cache,
            MetricKind::DesktopEnvironment,
            old(cache).desktop_environment,
            cache.desktop_environment,
            collect,
            result,
        );
    }
    result
}

/// The name of the window manager, served from the cache after the first
/// successful collection.
pub fn get_window_manager<F: FnOnce() -> Reply<Option<String>>>(
    cache: &mut CacheManager,
    collect: F,
) -> (result: Result<String, ErrorCode>)
    requires
        !old(cache)@.contains_key(MetricKind::WindowManager) ==> collect.requires(()),
    ensures
        old(cache)@.contains_key(MetricKind::WindowManager) ==> (
            final(cache)@,
            outcome_value(result),
        ) == served(old(cache)@, MetricKind::WindowManager),
        !old(cache)@.contains_key(MetricKind::WindowManager) ==> exists|
            reply: Reply<Option<String>>,
        |
            collect.ensures((), reply) && (final(cache)@, outcome_value(result)) == dispatch(
                old(cache)@,
                MetricKind::WindowManager,
                #[trigger] String::outcome(reply),
            ),
        result matches Err(failure) ==> failure != ErrorCode::Success,
{
    let result = fetch(&mut cache.window_manager, collect);
    proof {
        lemma_request_served(
            *old(cache),
            *cache,
            MetricKind::WindowManager,
            old(cache).window_manager,
            cache.window_manager,
            collect,
            result,
        );
    }
    result
}

/// The name of the shell, served from the cache after the first successful
/// collection.
pub fn get_shell<F: FnOnce() -> Reply<Option<String>>>(
    cache: &mut CacheManager,
    collect: F,
) -> (result: Result<String, ErrorCode>)
    requires
        !old(cache)@.contains_key(MetricKind::Shell) ==> collect.requires(()),
    ensures
        old(cache)@.contains_key(MetricKind::Shell) ==> (final(cache)@, outcome_value(result))
            == served(old(cache)@, MetricKind::Shell),
        !old(cache)@.contains_key(MetricKind::Shell) ==> exists|reply: Reply<Option<String>>|
            collect.ensures((), reply) && (final(cache)@, outcome_value(result)) == dispatch(
                old(cache)@,
                MetricKind::Shell,
                #[trigger] String::outcome(reply),
            ),
        result matches Err(failure) ==> failure != ErrorCode::Success,
{
    let result = fetch(&mut cache.shell, collect);
    proof {
        lemma_request_served(
            *old(cache),
            *cache,
            MetricKind::Shell,
            old(cache).shell,
            cache.shell,
            collect,
            result,
        );
    }
    result
}

/// The name of the host, served from the cache after the first successful
/// collection.
pub fn get_host<F: FnOnce() -> Reply<Option<String>>>(
    cache: &mut CacheManager,
    collect: F,
) -> (result: Result<String, ErrorCode>)
    requires
        !old(cache)@.contains_key(MetricKind::Host) ==> collect.requires(()),
    ensures
        old(cache)@.contains_key(MetricKind::Host) ==> (final(cache)@, outcome_value(result))
            == served(old(cache)@, MetricKind::Host),
        !old(cache)@.contains_key(MetricKind::Host) ==> exists|reply: Reply<Option<String>>|
            collect.ensures((), reply) && (final(cache)@, outcome_value(result)) == dispatch(
                old(cache)@,
                MetricKind::Host,
                #[trigger] String::outcome(reply),
            ),
        result matches Err(failure) ==> failure != ErrorCode::Success,
{
    let result = fetch(&mut cache.host, collect);
    proof {
        lemma_request_served(
            *old(cache),
            *cache,
            MetricKind::Host,
            old(cache).host,
            cache.host,
            collect,
            result,
        );
    }
    result
}

/// The version of the kernel, served from the cache after the first
/// successful collection.
pub fn get_kernel_version<F: FnOnce() -> Reply<Option<String>>>(
    cache: &mut CacheManager,
    collect: F,
) -> (result: Result<String, ErrorCode>)
    requires
        !old(cache)@.contains_key(MetricKind::KernelVersion) ==> collect.requires(()),
    ensures
        old(cache)@.contains_key(MetricKind::KernelVersion) ==> (
            final(cache)@,
            outcome_value(result),
        ) == served(old(cache)@, MetricKind::KernelVersion),
        !old(cache)@.contains_key(MetricKind::KernelVersion) ==> exists|
            reply: Reply<Option<String>>,
        |
            collect.ensures((), reply) && (final(cache)@, outcome_value(result)) == dispatch(
                old(cache)@,
                MetricKind::KernelVersion,
                #[trigger] String::outcome(reply),
            ),
        result matches Err(failure) ==> failure != ErrorCode::Success,
{
    let result = fetch(&mut cache.kernel_version, collect);
    proof {
        lemma_request_served(
            *old(cache),
            *cache,
            MetricKind::KernelVersion,
            old(cache).kernel_version,
            cache.kernel_version,
            collect,
            result,
        );
    }
    result
}

/// Disk space in use and in total, served from the cache after the first
/// successful collection.
pub fn get_disk_usage<F: FnOnce() -> Reply<ResourceUsage>>(
    cache: &mut CacheManager,
    collect: F,
) -> (result: Result<ResourceUsage, ErrorCode>)
    requires
        !old(cache)@.contains_key(MetricKind::DiskUsage) ==> collect.requires(()),
    ensures
        old(cache)@.contains_key(MetricKind::DiskUsage) ==> (final(cache)@, outcome_value(result))
            == served(old(cache)@, MetricKind::DiskUsage),
        !old(cache)@.contains_key(MetricKind::DiskUsage) ==> exists|reply: Reply<ResourceUsage>|
            collect.ensures((), reply) && (final(cache)@, outcome_value(result)) == dispatch(
                old(cache)@,
                MetricKind::DiskUsage,
                #[trigger] ResourceUsage::outcome(reply),
            ),
        result matches Err(failure) ==> failure != ErrorCode::Success,
{
    let result = fetch(&mut cache.disk_usage, collect);
    proof {
        lemma_request_served(
            *old(cache),
            *cache,
            MetricKind::DiskUsage,
            old(cache).disk_usage,
            cache.disk_usage,
            collect,
            result,
        );
    }
    result
}

/// The disks of the machine, as one list, served from the cache after the
/// first successful collection.
pub fn get_disks<F: FnOnce() -> Reply<Vec<RawDiskInfo>>>(
    cache: &mut CacheManager,
    collect: F,
) -> (result: Result<Vec<DiskInfo>, ErrorCode>)
    requires
        !old(cache)@.contains_key(MetricKind::Disks) ==> collect.requires(()),
    ensures
        old(cache)@.contains_key(MetricKind::Disks) ==> (final(cache)@, outcome_value(result))
            == served(old(cache)@, MetricKind::Disks),
        !old(cache)@.contains_key(MetricKind::Disks) ==> exists|reply: Reply<Vec<RawDiskInfo>>|
            collect.ensures((), reply) && (final(cache)@, outcome_value(result)) == dispatch(
                old(cache)@,
                MetricKind::Disks,
                #[trigger] Vec::<DiskInfo>::outcome(reply),
            ),
        result matches Err(failure) ==> failure != ErrorCode::Success,
{
    let result = fetch(&mut cache.disks, collect);
    proof {
        lemma_request_served(
            *old(cache),
            *cache,
            MetricKind::Disks,
            old(cache).disks,
            cache.disks,
            collect,
            result,
        );
    }
    result
}

/// The disk that holds the system, served from the cache after the first
/// successful collection.
pub fn get_system_disk<F: FnOnce() -> Reply<RawDiskInfo>>(
    cache: &mut CacheManager,
    collect: F,
) -> (result: Result<DiskInfo, ErrorCode>)
    requires
        !old(cache)@.contains_key(MetricKind::SystemDisk) ==> collect.requires(()),
    ensures
        old(cache)@.contains_key(MetricKind::SystemDisk) ==> (final(cache)@, outcome_value(result))
            == served(old(cache)@, MetricKind::SystemDisk),
        !old(cache)@.contains_key(MetricKind::SystemDisk) ==> exists|reply: Reply<RawDiskInfo>|
            collect.ensures((), reply) && (final(cache)@, outcome_value(result)) == dispatch(
                old(cache)@,
                MetricKind::SystemDisk,
                #[trigger] DiskInfo::outcome(reply),
            ),
        result matches Err(failure) ==> failure != ErrorCode::Success,
{
    let result = fetch(&mut cache.system_disk, collect);
    proof {
        lemma_request_served(
            *old(cache),
            *cache,
            MetricKind::SystemDisk,
            old(cache).system_disk,
            cache.system_disk,
            collect,
            result,
        );
    }
    result
}

/// The display outputs of the machine, as one list, served from the cache
/// after the first successful collection.
pub fn get_outputs<F: FnOnce() -> Reply<Vec<DisplayInfo>>>(
    cache: &mut CacheManager,
    collect: F,
) -> (result: Result<Vec<DisplayInfo>, ErrorCode>)
    requires
        !old(cache)@.contains_key(MetricKind::Outputs) ==> collect.requires(()),
    ensures
        old(cache)@.contains_key(MetricKind::Outputs) ==> (final(cache)@, outcome_value(result))
            == served(old(cache)@, MetricKind::Outputs),
        !old(cache)@.contains_key(MetricKind::Outputs) ==> exists|reply: Reply<Vec<DisplayInfo>>|
            collect.ensures((), reply) && (final(cache)@, outcome_value(result)) == dispatch(
                old(cache)@,
                MetricKind::Outputs,
                #[trigger] Vec::<DisplayInfo>::outcome(reply),
            ),
        result matches Err(failure) ==> failure != ErrorCode::Success,
{
    let result = fetch(&mut cache.outputs, collect);
    proof {
        lemma_request_served(
            *old(cache),
            *cache,
            MetricKind::Outputs,
            old(cache).outputs,
            cache.outputs,
            collect,
            result,
        );
    }
    result
}

/// The primary display output, served from the cache after the first
/// successful collection.
pub fn get_primary_output<F: FnOnce() -> Reply<DisplayInfo>>(
    cache: &mut CacheManager,
    collect: F,
) -> (result: Result<DisplayInfo, ErrorCode>)
    requires
        !old(cache)@.contains_key(MetricKind::PrimaryOutput) ==> collect.requires(()),
    ensures
        old(cache)@.contains_key(MetricKind::PrimaryOutput) ==> (
            final(cache)@,
            outcome_value(result),
        ) == served(old(cache)@, MetricKind::PrimaryOutput),
        !old(cache)@.contains_key(MetricKind::PrimaryOutput) ==> exists|reply: Reply<DisplayInfo>|
            collect.ensures((), reply) && (final(cache)@, outcome_value(result)) == dispatch(
                old(cache)@,
                MetricKind::PrimaryOutput,
                #[trigger] DisplayInfo::outcome(reply),
            ),
        result matches Err(failure) ==> failure != ErrorCode::Success,
{
    let result = fetch(&mut cache.primary_output, collect);
    proof {
        lemma_request_served(
            *old(cache),
            *cache,
            MetricKind::PrimaryOutput,
            old(cache).primary_output,
            cache.primary_output,
            collect,
            result,
        );
    }
    result
}

/// The network interfaces of the machine, as one list, served from the
/// cache after the first successful collection.
pub fn get_network_interfaces<F: FnOnce() -> Reply<Vec<RawNetworkInterface>>>(
    cache: &mut CacheManager,
    collect: F,
) -> (result: Result<Vec<NetworkInterface>, ErrorCode>)
    requires
        !old(cache)@.contains_key(MetricKind::NetworkInterfaces) ==> collect.requires(()),
    ensures
        old(cache)@.contains_key(MetricKind::NetworkInterfaces) ==> (
            final(cache)@,
            outcome_value(result),
        ) == served(old(cache)@, MetricKind::NetworkInterfaces),
        !old(cache)@.contains_key(MetricKind::NetworkInterfaces) ==> exists|
            reply: Reply<Vec<RawNetworkInterface>>,
        |
            collect.ensures((), reply) && (final(cache)@, outcome_value(result)) == dispatch(
                old(cache)@,
                MetricKind::NetworkInterfaces,
                #[trigger] Vec::<NetworkInterface>::outcome(reply),
            ),
        result matches Err(failure) ==> failure != ErrorCode::Success,
{
    let result = fetch(&mut cache.network_interfaces, collect);
    proof {
        lemma_request_served(
            *old(cache),
            *cache,
            MetricKind::NetworkInterfaces,
            old(cache).network_interfaces,
            cache.network_interfaces,
            collect,
            result,
        );
    }
    result
}

/// The primary network interface, served from the cache after the first
/// successful collection.
pub fn get_primary_network_interface<F: FnOnce() -> Reply<RawNetworkInterface>>(
    cache: &mut CacheManager,
    collect: F,
) -> (result: Result<NetworkInterface, ErrorCode>)
    requires
        !old(cache)@.contains_key(MetricKind::PrimaryNetworkInterface) ==> collect.requires(()),
    ensures
        old(cache)@.contains_key(MetricKind::PrimaryNetworkInterface) ==> (
            final(cache)@,
            outcome_value(result),
        ) == served(old(cache)@, MetricKind::PrimaryNetworkInterface),
        !old(cache)@.contains_key(MetricKind::PrimaryNetworkInterface) ==> exists|
            reply: Reply<RawNetworkInterface>,
        |
            collect.ensures((), reply) && (final(cache)@, outcome_value(result)) == dispatch(
                old(cache)@,
                MetricKind::PrimaryNetworkInterface,
                #[trigger] NetworkInterface::outcome(reply),
            ),
        result matches Err(failure) ==> failure != ErrorCode::Success,
{
    let result = fetch(&mut cache.primary_network_interface, collect);
    proof {
        lemma_request_served(
            *old(cache),
            *cache,
            MetricKind::PrimaryNetworkInterface,
            old(cache).primary_network_interface,
            cache.primary_network_interface,
            collect,
            result,
        );
    }
    result
}

/// Once a request has succeeded, the same request again gives the same
/// result, leaves the snapshot as it is, and does not ask the collector:
/// over the two requests the collector is asked at most once.
pub proof fn lemma_collected_at_most_once(
    before: Snapshot,
    kind: MetricKind,
    first: Result<MetricValue, ErrorCode>,
    second: Result<MetricValue, ErrorCode>,
)
    requires
        dispatch(before, kind, first).1 is Ok,
    ensures
        ({
            let (between, first_result) = dispatch(before, kind, first);
            let (after, second_result) = dispatch(between, kind, second);
            &&& collector_calls(before, kind) + collector_calls(between, kind) <= 1
            &&& second_result == first_result
            &&& after == between
        }),
{
}

/// A new cache asks the collector for every kind: whatever an earlier cache
/// held is gone with it.
pub proof fn lemma_new_cache_asks_collector(kind: MetricKind)
    ensures
        collector_calls(Snapshot::empty(), kind) == 1,
{
}

/// A failure is not stored. The snapshot stays as it was, the failure is
/// passed on as the kind it is, and the next request asks the collector
/// again and gets what the collector then says.
pub proof fn lemma_failure_is_not_cached(
    before: Snapshot,
    kind: MetricKind,
    failure: ErrorCode,
    second: Result<MetricValue, ErrorCode>,
)
    requires
        !before.contains_key(kind),
    ensures
        dispatch(before, kind, Err(failure)) == (before, Err::<MetricValue, ErrorCode>(failure)),
        collector_calls(before, kind) + collector_calls(
            dispatch(before, kind, Err(failure)).0,
            kind,
        ) == 2,
        dispatch(dispatch(before, kind, Err(failure)).0, kind, second).1 == second,
{
}

/// A request touches no kind but its own.
pub proof fn lemma_other_kinds_untouched(
    before: Snapshot,
    kind: MetricKind,
    collected: Result<MetricValue, ErrorCode>,
    other: MetricKind,
)
    requires
        other != kind,
    ensures
        dispatch(before, kind, collected).0.contains_key(other) == before.contains_key(other),
        dispatch(before, kind, collected).0[other] == before[other],
{
}

} // verus!
