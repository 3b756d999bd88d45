use vstd::prelude::*;

use crate::task::TaskId;

verus! {

/// The stages of kernel bring-up, in the order they are reached.
#[derive(Debug, Clone, Copy, PartialEq, Eq, Structural)]
pub enum StartupStage {
    BootStart,
    BootInfoCollected,
    HeapInit,
    HalEarlyInit,
    PlatformServicesInit,
    IrqHandlersRegistered,
    PciEnumerated,
    IommuAttached,
    DriversInit,
    SmpInit,
    IdtReady,
    InterruptsEnabled,
    MainLoopEntered,
}

pub const STARTUP_STAGE_COUNT: u8 = 13;

impl StartupStage {
    pub open spec fn code(self) -> u8 {
        match self {
            StartupStage::BootStart => 0,
            StartupStage::BootInfoCollected => 1,
            StartupStage::HeapInit => 2,
            StartupStage::HalEarlyInit => 3,
            StartupStage::PlatformServicesInit => 4,
            StartupStage::IrqHandlersRegistered => 5,
            StartupStage::PciEnumerated => 6,
            StartupStage::IommuAttached => 7,
            StartupStage::DriversInit => 8,
            StartupStage::SmpInit => 9,
            StartupStage::IdtReady => 10,
            StartupStage::InterruptsEnabled => 11,
            StartupStage::MainLoopEntered => 12,
        }
    }

    pub fn to_u8(self) -> (r: u8)
        ensures
            r == self.code(),
    {
        match self {
            StartupStage::BootStart => 0,
            StartupStage::BootInfoCollected => 1,
            StartupStage::HeapInit => 2,
            StartupStage::HalEarlyInit => 3,
            StartupStage::PlatformServicesInit => 4,
            StartupStage::IrqHandlersRegistered => 5,
            StartupStage::PciEnumerated => 6,
            StartupStage::IommuAttached => 7,
            StartupStage::DriversInit => 8,
            StartupStage::SmpInit => 9,
            StartupStage::IdtReady => 10,
            StartupStage::InterruptsEnabled => 11,
            StartupStage::MainLoopEntered => 12,
        }
    }

    pub fn from_u8(raw: u8) -> (r: Option<Self>)
        ensures
            r is Some <==> raw < STARTUP_STAGE_COUNT,
            r matches Some(s) ==> s.code() == raw,
    {
        match raw {
            0 => Some(StartupStage::BootStart),
            1 => Some(StartupStage::BootInfoCollected),
            2 => Some(StartupStage::HeapInit),
            3 => Some(StartupStage::HalEarlyInit),
            4 => Some(StartupStage::PlatformServicesInit),
            5 => Some(StartupStage::IrqHandlersRegistered),
            6 => Some(StartupStage::PciEnumerated),
            7 => Some(StartupStage::IommuAttached),
            8 => Some(StartupStage::DriversInit),
            9 => Some(StartupStage::SmpInit),
            10 => Some(StartupStage::IdtReady),
            11 => Some(StartupStage::InterruptsEnabled),
            12 => Some(StartupStage::MainLoopEntered),
            _ => None,
        }
    }
}

/// Every startup stage has its own code, below the stage count, so a
/// recorded code decodes back to the stage that was recorded.
pub proof fn law_stage_codes_are_distinct(a: StartupStage, b: StartupStage)
    ensures
        a.code() == b.code() ==> a == b,
        a.code() < STARTUP_STAGE_COUNT,
{
}

pub fn stage_to_u64(stage: StartupStage) -> (r: u64)
    ensures
        r == stage.code() as u64,
{
    stage.to_u8() as u64
}

/// Decodes a recorded stage; a value beyond a byte reads as `BootStart`.
/// A byte that names no stage is a broken record, which the kernel treats
/// as a fatal error: callers keep to valid records.
pub fn stage_from_u64(raw: u64) -> (r: StartupStage)
    requires
        raw < STARTUP_STAGE_COUNT as u64 || raw > 255,
    ensures
        raw <= 255 ==> r.code() == raw,
        raw > 255 ==> r == StartupStage::BootStart,
{
    if raw > 255 {
        return StartupStage::BootStart;
    }
    match StartupStage::from_u8(raw as u8) {
        Some(s) => s,
        None => StartupStage::BootStart,
    }
}

#[derive(Debug, Clone, Copy)]
pub struct StartupDiagnostics {
    pub transitions: u64,
    pub ordering_violations: u64,
    pub last_stage: StartupStage,
}

/// The record of stage transitions kept during bring-up.
pub struct StartupTracker {
    transitions: u64,
    ordering_violations: u64,
    last_stage: u64,
}

impl StartupTracker {
    #[verifier::type_invariant]
    spec fn inv(self) -> bool {
        self.last_stage < STARTUP_STAGE_COUNT as u64
    }

    pub closed spec fn transition_count(&self) -> u64 {
        self.transitions
    }

    pub closed spec fn violation_count(&self) -> u64 {
        self.ordering_violations
    }

    pub closed spec fn last_code(&self) -> u64 {
        self.last_stage
    }

    pub fn new() -> (t: Self)
        ensures
            t.transition_count() == 0,
            t.violation_count() == 0,
            t.last_code() == 0,
    {
        StartupTracker { transitions: 0, ordering_violations: 0, last_stage: 0 }
    }
}

pub open spec fn wrapping_inc(x: u64) -> u64 {
    if x == u64::MAX { 0 } else { (x + 1) as u64 }
}

/// Records that bring-up reached `stage`; reaching a stage that comes
/// before the last one recorded counts as an ordering violation.
pub fn mark_stage(tracker: &mut StartupTracker, stage: StartupStage)
    ensures
        final(tracker).last_code() == stage.code() as u64,
        final(tracker).transition_count() == wrapping_inc(old(tracker).transition_count()),
        final(tracker).violation_count() == (if (stage.code() as u64) < old(tracker).last_code() {
            wrapping_inc(old(tracker).violation_count())
        } else {
            old(tracker).violation_count()
        }),
{
    proof {
        use_type_invariant(&*tracker);
    }
    let now = stage_to_u64(stage);
    let prev = tracker.last_stage;
    if now < prev {
        tracker.ordering_violations = tracker.ordering_violations.wrapping_add(1);
    }
    tracker.last_stage = now;
    tracker.transitions = tracker.transitions.wrapping_add(1);
}

/// The counters and the last stage reached.
pub fn diagnostics(tracker: &StartupTracker) -> (d: StartupDiagnostics)
    ensures
        d.transitions == tracker.transition_count(),
        d.ordering_violations == tracker.violation_count(),
        d.last_stage.code() as u64 == tracker.last_code(),
{
    proof {
        use_type_invariant(tracker);
    }
    StartupDiagnostics {
        transitions: tracker.transitions,
        ordering_violations: tracker.ordering_violations,
        last_stage: stage_from_u64(tracker.last_stage),
    }
}

/// Well-known kernel services, each run by a long-lived kernel task.
#[derive(Debug, Clone, Copy, PartialEq, Eq, Structural)]
pub enum InitService {
    Watchdog,
    JournalCommit,
    MemPressure,
    NetworkPoll,
    Telemetry,
}

pub const NUM_SERVICES: usize = 5;

/// First task id of the kernel service tasks.
pub const KERNEL_SERVICE_TID_BASE: usize = 0x8000;

#[derive(Debug, Clone, Copy, PartialEq, Eq, Structural)]
pub enum ServiceState {
    Stopped,
    Starting,
    Running,
    Failed,
}

impl ServiceState {
    pub open spec fn code(self) -> u8 {
        match self {
            ServiceState::Stopped => 0,
            ServiceState::Starting => 1,
            ServiceState::Running => 2,
            ServiceState::Failed => 3,
        }
    }

    pub fn to_u8(self) -> (r: u8)
        ensures
            r == self.code(),
    {
        match self {
            ServiceState::Stopped => 0,
            ServiceState::Starting => 1,
            ServiceState::Running => 2,
            ServiceState::Failed => 3,
        }
    }

    /// Decodes a state; an unknown code reads as `Failed`.
    pub fn from_u8(raw: u8) -> (r: Self)
        ensures
            raw <= 3 ==> r.code() == raw,
            raw > 3 ==> r == ServiceState::Failed,
    {
        match raw {
            0 => ServiceState::Stopped,
            1 => ServiceState::Starting,
            2 => ServiceState::Running,
            _ => ServiceState::Failed,
        }
    }
}

pub open spec fn decode_service_state(raw: u8) -> ServiceState {
    if raw == 0 {
        ServiceState::Stopped
    } else if raw == 1 {
        ServiceState::Starting
    } else if raw == 2 {
        ServiceState::Running
    } else {
        ServiceState::Failed
    }
}

/// A handle to a kernel service task.
pub struct ServiceHandle {
    pub service: InitService,
    pub task_id: TaskId,
    pub name: &'static str,
    pub state: u8,
}

impl ServiceHandle {
    pub closed spec fn state_spec(&self) -> ServiceState {
        decode_service_state(self.state)
    }

    pub fn new(service: InitService, task_id: TaskId, name: &'static str) -> (h: Self)
        ensures
            h.service == service,
            h.task_id == task_id,
            h.name == name,
            h.state_spec() == ServiceState::Running,
    {
        ServiceHandle { service, task_id, name, state: ServiceState::Running.to_u8() }
    }

    pub fn state(&self) -> (r: ServiceState)
        ensures
            r == self.state_spec(),
    {
        ServiceState::from_u8(self.state)
    }

    pub fn mark_failed(&mut self)
        ensures
            final(self).state_spec() == ServiceState::Failed,
            final(self).service == old(self).service,
            final(self).task_id == old(self).task_id,
            final(self).name == old(self).name,
    {
        self.state = ServiceState::Failed.to_u8();
    }

    pub fn mark_stopped(&mut self)
        ensures
            final(self).state_spec() == ServiceState::Stopped,
            final(self).service == old(self).service,
            final(self).task_id == old(self).task_id,
            final(self).name == old(self).name,
    {
        self.state = ServiceState::Stopped.to_u8();
    }
}

/// A kernel task to be created for a service.
#[derive(Debug, Clone, Copy, PartialEq, Eq, Structural)]
pub struct ServiceTaskSpec {
    pub task_id: TaskId,
    pub priority: u8,
    pub entry: u64,
}

pub open spec fn service_at(i: int) -> InitService {
    if i == 0 {
        InitService::Watchdog
    } else if i == 1 {
        InitService::JournalCommit
    } else if i == 2 {
        InitService::MemPressure
    } else if i == 3 {
        InitService::NetworkPoll
    } else {
        InitService::Telemetry
    }
}

pub open spec fn service_name(s: InitService) -> &'static str {
    match s {
        InitService::Watchdog => "kthread/watchdog",
        InitService::JournalCommit => "kthread/jcommit",
        InitService::MemPressure => "kthread/mempressure",
        InitService::NetworkPoll => "kthread/netpoll",
        InitService::Telemetry => "kthread/telemetry",
    }
}

pub open spec fn service_priority(s: InitService) -> u8 {
    match s {
        InitService::Watchdog => 200,
        InitService::JournalCommit => 128,
        InitService::MemPressure => 150,
        InitService::NetworkPoll => 160,
        InitService::Telemetry => 64,
    }
}

fn service_entry(i: usize) -> (r: (InitService, &'static str, u8))
    requires
        i < NUM_SERVICES,
    ensures
        r.0 == service_at(i as int),
        r.1 == service_name(r.0),
        r.2 == service_priority(r.0),
{
    if i == 0 {
        (InitService::Watchdog, "kthread/watchdog", 200)
    } else if i == 1 {
        (InitService::JournalCommit, "kthread/jcommit", 128)
    } else if i == 2 {
        (InitService::MemPressure, "kthread/mempressure", 150)
    } else if i == 3 {
        (InitService::NetworkPoll, "kthread/netpoll", 160)
    } else {
        (InitService::Telemetry, "kthread/telemetry", 64)
    }
}

/// The table of kernel services and whether they were spawned.
pub struct ServiceManager {
    spawned: bool,
    table: Vec<ServiceHandle>,
}

impl ServiceManager {
    pub closed spec fn was_spawned(&self) -> bool {
        self.spawned
    }

    pub closed spec fn handles(&self) -> Seq<ServiceHandle> {
        self.table@
    }

    pub fn new() -> (m: Self)
        ensures
            !m.was_spawned(),
            m.handles() == Seq::<ServiceHandle>::empty(),
    {
        ServiceManager { spawned: false, table: Vec::new() }
    }
}

/// Creates the handles of the kernel services, with task ids from
/// `KERNEL_SERVICE_TID_BASE` on, and returns the tasks to create, in the
/// order watchdog, journal commit, memory pressure, network poll,
/// telemetry; `entry_points` holds their entry addresses in that order.
/// A second call does nothing and returns no task.
pub fn spawn_init_services(manager: &mut ServiceManager, entry_points: &[u64; 5]) -> (tasks: Vec<ServiceTaskSpec>)
    ensures
        final(manager).was_spawned(),
        old(manager).was_spawned() ==> tasks@.len() == 0 && final(manager).handles() == old(manager).handles(),
        !old(manager).was_spawned() ==> {
            &&& tasks@.len() == NUM_SERVICES
            &&& final(manager).handles().len() == old(manager).handles().len() + NUM_SERVICES
            &&& forall|k: int| 0 <= k < old(manager).handles().len() ==> final(manager).handles()[k] == old(manager).handles()[k]
            &&& forall|i: int| 0 <= i < NUM_SERVICES ==> {
                let h = #[trigger] final(manager).handles()[old(manager).handles().len() + i];
                &&& h.service == service_at(i)
                &&& h.task_id == TaskId((KERNEL_SERVICE_TID_BASE + i) as usize)
                &&& h.name == service_name(service_at(i))
                &&& h.state_spec() == ServiceState::Running
                &&& tasks@[i] == ServiceTaskSpec {
                    task_id: TaskId((KERNEL_SERVICE_TID_BASE + i) as usize),
                    priority: service_priority(service_at(i)),
                    entry: entry_points@[i],
                }
            }
        },
{
    let mut tasks: Vec<ServiceTaskSpec> = Vec::new();
    if manager.spawned {
        return tasks;
    }
    manager.spawned = true;
    let start = manager.table.len();
    let mut idx: usize = 0;
    while idx < NUM_SERVICES
        invariant
            idx <= NUM_SERVICES,
            manager.spawned,
            start == old(manager).handles().len(),
            manager.table@.len() == start + idx,
            tasks@.len() == idx,
            forall|k: int| 0 <= k < start ==> manager.table@[k] == old(manager).handles()[k],
            forall|i: int| 0 <= i < idx ==> {
                let h = #[trigger] manager.table@[start + i];
                &&& h.service == service_at(i)
                &&& h.task_id == TaskId((KERNEL_SERVICE_TID_BASE + i) as usize)
                &&& h.name == service_name(service_at(i))
                &&& h.state_spec() == ServiceState::Running
                &&& tasks@[i] == ServiceTaskSpec {
                    task_id: TaskId((KERNEL_SERVICE_TID_BASE + i) as usize),
                    priority: service_priority(service_at(i)),
                    entry: entry_points@[i],
                }
            },
        decreases NUM_SERVICES - idx,
    {
        let (svc, name, prio) = service_entry(idx);
        let tid = TaskId(KERNEL_SERVICE_TID_BASE + idx);
        tasks.push(ServiceTaskSpec { task_id: tid, priority: prio, entry: entry_points[idx] });
        manager.table.push(ServiceHandle::new(svc, tid, name));
        idx = idx + 1;
    }
    tasks
}

/// One entry per service handle: service, task, name, state.
pub fn service_handles(manager: &ServiceManager) -> (r: Vec<(InitService, TaskId, &'static str, ServiceState)>)
    ensures
        r@.len() == manager.handles().len(),
        forall|i: int| 0 <= i < r@.len() ==> {
            let h = manager.handles()[i];
            #[trigger] r@[i] == (h.service, h.task_id, h.name, h.state_spec())
        },
{
    let mut out: Vec<(InitService, TaskId, &'static str, ServiceState)> = Vec::new();
    let mut i: usize = 0;
    while i < manager.table.len()
        invariant
            i <= manager.handles().len(),
            manager.handles() == manager.table@,
            out@.len() == i,
            forall|k: int| 0 <= k < i ==> {
                let h = manager.handles()[k];
                #[trigger] out@[k] == (h.service, h.task_id, h.name, h.state_spec())
            },
        decreases manager.handles().len() - i,
    {
        let h = &manager.table[i];
        out.push((h.service, h.task_id, h.name, h.state()));
        i = i + 1;
    }
    out
}

/// The position of the first handle of `svc`, or -1.
pub open spec fn first_handle_of(s: Seq<ServiceHandle>, svc: InitService) -> int
    decreases s.len(),
{
    if s.len() == 0 {
        -1
    } else if first_handle_of(s.drop_last(), svc) >= 0 {
        first_handle_of(s.drop_last(), svc)
    } else if s.last().service == svc {
        s.len() - 1
    } else {
        -1
    }
}

pub proof fn lemma_first_handle_of(s: Seq<ServiceHandle>, svc: InitService)
    ensures
        -1 <= first_handle_of(s, svc) < s.len(),
        first_handle_of(s, svc) >= 0 ==> s[first_handle_of(s, svc)].service == svc,
        first_handle_of(s, svc) >= 0 ==> forall|k: int| 0 <= k < first_handle_of(s, svc) ==> s[k].service != svc,
        first_handle_of(s, svc) < 0 ==> forall|k: int| 0 <= k < s.len() ==> s[k].service != svc,
    decreases s.len(),
{
    if s.len() > 0 {
        let p = s.drop_last();
        lemma_first_handle_of(p, svc);
        assert forall|k: int| 0 <= k < p.len() implies p[k] == s[k] by {}
    }
}

/// Marks the first handle of `svc` as failed.
pub fn mark_service_failed(manager: &mut ServiceManager, svc: InitService)
    ensures
        final(manager).was_spawned() == old(manager).was_spawned(),
        final(manager).handles().len() == old(manager).handles().len(),
        ({
            let f = first_handle_of(old(manager).handles(), svc);
            forall|k: int| 0 <= k < old(manager).handles().len() && k != f ==>
                #[trigger] final(manager).handles()[k] == old(manager).handles()[k]
        }),
        ({
            let f = first_handle_of(old(manager).handles(), svc);
            f >= 0 ==> {
                let h = final(manager).handles()[f];
                let o = old(manager).handles()[f];
                &&& h.state_spec() == ServiceState::Failed
                &&& h.service == o.service
                &&& h.task_id == o.task_id
                &&& h.name == o.name
            }
        }),
{
    proof {
        lemma_first_handle_of(manager.table@, svc);
    }
    let n = manager.table.len();
    let mut i: usize = 0;
    while i < n
        invariant
            n == manager.table@.len(),
            manager.table@ == old(manager).handles(),
            manager.spawned == old(manager).was_spawned(),
            i <= n,
            forall|k: int| 0 <= k < i ==> manager.table@[k].service != svc,
        decreases n - i,
    {
        if manager.table[i].service == svc {
            proof {
                lemma_first_handle_of(manager.table@, svc);
            }
            let mut h = manager.table.remove(i);
            h.mark_failed();
            manager.table.insert(i, h);
            return;
        }
        i = i + 1;
    }
    proof {
        lemma_first_handle_of(manager.table@, svc);
    }
}

} // verus!
