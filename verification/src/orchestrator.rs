//! The order in which the backend is driven through one reconciliation.
//!
//! The orchestrator performs no backend call itself. It is a machine: it
//! hands out one [`Action`], the caller performs it and reports the outcome
//! as an [`Event`], and the machine answers with the next action.
use vstd::prelude::*;
use crate::text::{texts, copy_texts};
use crate::profile::{
    NmConnection, NmActiveConnection, conn_views, copy_conns, ac_views, ac_uuids, copy_acs, nm_ac_uuids,
};
use crate::policy::{activated, deactivate_first, activated_nm_conns, gen_nm_conn_need_to_deactivate_first};
use crate::cascade::{
    absent_ids, delete_ifaces, delete_orphan_ports, delete_remain_virtual_interface_as_desired,
    first_unmappable, first_unsupported, has_unmappable, has_unsupported, orphan_ids, residual_paths,
};
use crate::state::{ErrorKind, MergedNetworkState, NmDevice, NmstateError};

verus! {

/// The action whose outcome the machine waits for.
#[derive(Debug, Clone, Copy, PartialEq, Eq, Structural)]
pub enum Stage {
    Checkpoint,
    AbsentProfiles,
    AbsentDelete,
    OrphanProfiles,
    OrphanDelete,
    Devices,
    DeviceDelete,
    Hostname,
    Mptcp,
    Inventory,
    ActiveInventory,
    Routes,
    RouteRules,
    DnsPurge,
    DnsIfaces,
    DnsGlobal,
    Prepare,
    DeactivateFirst,
    Save,
    StaleDelete,
    OrphanOvsPorts,
    Activate,
    Deactivate,
    Finished,
}

/// What the caller is to do next.
#[derive(Debug)]
pub enum Action {
    /// Open the checkpoint with this timeout and switch on its auto-refresh.
    OpenCheckpoint { checkpoint: String, timeout: u32 },
    /// Fetch all profiles.
    GetConnections,
    /// Delete the profile of this identity.
    DeleteConnection(String),
    /// Fetch all devices.
    GetDevices,
    /// Delete the device of this handle; a failure is reported like a success.
    DeleteDevice(String),
    SetHostname(String),
    /// Note that the hostname cannot be set without persisting it.
    SkipHostname,
    /// Ask whether the backend supports multi-path TCP.
    ProbeMptcp,
    /// Fetch all active connections.
    GetActiveConnections,
    /// Resolve the routes into the merged state and hand the state back.
    StoreRouteConfig,
    /// Resolve the route rules into the merged state and hand the state back.
    StoreRouteRuleConfig,
    PurgeGlobalDns,
    /// Store the DNS settings on the interfaces of the merged state and hand
    /// the state back; on failure no interface keeps any of it.
    StoreDnsToIfaces,
    /// Store the DNS settings globally; this overrides all interface-level settings.
    StoreDnsGlobal { servers: Vec<String>, searches: Vec<String> },
    /// Prepare the profiles to store, to activate and to deactivate, from the
    /// inventory, the active connections and the capability flag; `reapply`
    /// tells a reapply of live profiles from a fresh apply.
    PrepareConnections {
        exist: Vec<NmConnection>,
        nm_acs: Vec<NmActiveConnection>,
        mptcp_supported: bool,
        reapply: bool,
    },
    Deactivate(Vec<NmConnection>),
    SaveProfiles { conns: Vec<NmConnection>, memory_only: bool },
    /// Delete the profiles of `exist` that the stored ones made stale.
    DeleteStaleProfiles { exist: Vec<NmConnection>, stored: Vec<NmConnection> },
    /// Delete the port profiles of `exist` that the activation set leaves orphaned.
    DeleteOrphanOvsPorts { exist: Vec<NmConnection>, to_activate: Vec<NmConnection> },
    /// Activate the profiles, given the connections that were active.
    Activate { conns: Vec<NmConnection>, nm_acs: Vec<NmActiveConnection> },
    /// The reconciliation is complete; the checkpoint is left to the caller.
    Done,
    /// The reconciliation stops; the checkpoint is left to the caller.
    Fail(NmstateError),
}

/// The three sets that profile preparation returns.
#[derive(Debug)]
pub struct PreparedNmConnections {
    pub to_store: Vec<NmConnection>,
    pub to_activate: Vec<NmConnection>,
    pub to_deactivate: Vec<NmConnection>,
}

/// The outcome of the last action.
#[derive(Debug)]
pub enum Event {
    /// The action succeeded and returns nothing.
    Done,
    Failed(NmstateError),
    Connections(Vec<NmConnection>),
    ActiveConnections(Vec<NmActiveConnection>),
    /// The merged state as a collaborator left it.
    Resolved(MergedNetworkState),
    Devices(Vec<NmDevice>),
    Capability(bool),
    Prepared(PreparedNmConnections),
}

/// What one reconciliation knows so far.
#[derive(Debug)]
pub struct ApplyState {
    pub stage: Stage,
    pub merged: MergedNetworkState,
    pub mptcp_supported: bool,
    /// The identities deleted for the interfaces that were removed.
    pub uuids_deleted: Vec<String>,
    /// The identities or device handles of the deletion pass under way.
    pub pending: Vec<String>,
    /// How many of `pending` have been asked for.
    pub cursor: usize,
    pub exist_nm_conns: Vec<NmConnection>,
    pub nm_acs: Vec<NmActiveConnection>,
    pub to_store: Vec<NmConnection>,
    pub to_activate: Vec<NmConnection>,
    pub to_deactivate: Vec<NmConnection>,
}

impl Stage {
    /// Position of the stage in the sequence.
    pub open spec fn rank(self) -> nat {
        match self {
            Stage::Checkpoint => 0,
            Stage::AbsentProfiles => 1,
            Stage::AbsentDelete => 2,
            Stage::OrphanProfiles => 3,
            Stage::OrphanDelete => 4,
            Stage::Devices => 5,
            Stage::DeviceDelete => 6,
            Stage::Hostname => 7,
            Stage::Mptcp => 8,
            Stage::Inventory => 9,
            Stage::ActiveInventory => 10,
            Stage::Routes => 11,
            Stage::RouteRules => 12,
            Stage::DnsPurge => 13,
            Stage::DnsIfaces => 14,
            Stage::DnsGlobal => 15,
            Stage::Prepare => 16,
            Stage::DeactivateFirst => 17,
            Stage::Save => 18,
            Stage::StaleDelete => 19,
            Stage::OrphanOvsPorts => 20,
            Stage::Activate => 21,
            Stage::Deactivate => 22,
            Stage::Finished => 23,
        }
    }
}

impl Action {
    /// The action deletes something or changes what the backend persists
    /// beyond the profiles being stored.
    pub open spec fn persistent_change(self) -> bool {
        self is DeleteConnection || self is DeleteDevice || self is SetHostname
            || self is DeleteStaleProfiles || self is DeleteOrphanOvsPorts
    }
}

/// Text of the error that answers an event out of turn.
pub open spec fn out_of_turn() -> Seq<char> {
    "event does not answer the pending action"@
}

/// `next` is `state` at another stage.
pub open spec fn goes(state: ApplyState, next: ApplyState, stage: Stage) -> bool {
    next == (ApplyState { stage, ..state })
}

/// The run stops with an error for an event out of turn.
pub open spec fn rejects(state: ApplyState, next: ApplyState, action: Action) -> bool {
    goes(state, next, Stage::Finished) && (action matches Action::Fail(e) && e.kind == ErrorKind::Unexpected
        && e.msg@ == out_of_turn())
}

/// The step after the deletion cascade, or in its place: the hostname.
pub open spec fn hostname_step(state: ApplyState, next: ApplyState, action: Action) -> bool {
    match state.merged.hostname {
        Some(h) => goes(state, next, Stage::Hostname) && if state.merged.memory_only {
            action == Action::SkipHostname
        } else {
            action matches Action::SetHostname(n) && n@ == h@
        },
        None => goes(state, next, Stage::Mptcp) && action == Action::ProbeMptcp,
    }
}

/// The step after route and route-rule resolution: global DNS settings are
/// purged first where the DNS configuration changed or no interface can go
/// on holding it.
pub open spec fn dns_step(state: ApplyState, next: ApplyState, action: Action) -> bool {
    if state.merged.dns.changed || !state.merged.dns.ifaces_still_valid {
        goes(state, next, Stage::DnsPurge) && action == Action::PurgeGlobalDns
    } else {
        goes(state, next, Stage::DnsIfaces) && action == Action::StoreDnsToIfaces
    }
}

/// The step after DNS: profile preparation, fed the inventory, the live
/// identities and the capability flag.
pub open spec fn prepare_step(state: ApplyState, next: ApplyState, action: Action) -> bool {
    goes(state, next, Stage::Prepare) && (action matches Action::PrepareConnections {
        exist,
        nm_acs,
        mptcp_supported,
        reapply,
    } && conn_views(exist@) == conn_views(state.exist_nm_conns@) && ac_views(nm_acs@) == ac_views(
        state.nm_acs@,
    ) && mptcp_supported == state.mptcp_supported && !reapply)
}

/// The step within a deletion pass: the next entry of the list is asked for,
/// one at a time and in order; after the last one the run moves on. `mid` is
/// the state in one of the three deleting stages.
pub open spec fn deleting(mid: ApplyState, next: ApplyState, action: Action) -> bool {
    if mid.merged.memory_only {
        rejects(mid, next, action)
    } else if mid.cursor < mid.pending@.len() {
        &&& next == (ApplyState { cursor: next.cursor, ..mid })
        &&& next.cursor == mid.cursor + 1
        &&& if mid.stage == Stage::DeviceDelete {
            action matches Action::DeleteDevice(p) && p@ == mid.pending@[mid.cursor as int]@
        } else {
            action matches Action::DeleteConnection(u) && u@ == mid.pending@[mid.cursor as int]@
        }
    } else {
        match mid.stage {
            Stage::AbsentDelete => goes(mid, next, Stage::OrphanProfiles) && action == Action::GetConnections,
            Stage::OrphanDelete => goes(mid, next, Stage::Devices) && action == Action::GetDevices,
            _ => hostname_step(mid, next, action),
        }
    }
}

/// `state` with the merged state that a collaborator handed back; the mode of
/// the run stays what it was.
pub open spec fn with_resolved(state: ApplyState, m: MergedNetworkState) -> ApplyState {
    ApplyState { merged: MergedNetworkState { memory_only: state.merged.memory_only, ..m }, ..state }
}

/// The step that answers a collaborator that resolved part of the
/// configuration into the merged state.
pub open spec fn resolved_step(state: ApplyState, m: MergedNetworkState, next: ApplyState, action: Action) -> bool {
    match state.stage {
        Stage::Routes => goes(with_resolved(state, m), next, Stage::RouteRules) && action
            == Action::StoreRouteRuleConfig,
        Stage::RouteRules => dns_step(with_resolved(state, m), next, action),
        Stage::DnsIfaces => prepare_step(with_resolved(state, m), next, action),
        _ => rejects(state, next, action),
    }
}

/// The step after storing, unless memory-only: the stale-profile sweep.
pub open spec fn stale_step(state: ApplyState, next: ApplyState, action: Action) -> bool {
    goes(state, next, Stage::StaleDelete) && (action matches Action::DeleteStaleProfiles { exist, stored }
        && conn_views(exist@) == conn_views(state.exist_nm_conns@) && conn_views(stored@) == conn_views(
        state.to_store@,
    ))
}

/// The step after the stale-profile sweep: the orphan-port cleanup.
pub open spec fn orphan_ports_step(state: ApplyState, next: ApplyState, action: Action) -> bool {
    goes(state, next, Stage::OrphanOvsPorts) && (action matches Action::DeleteOrphanOvsPorts {
        exist,
        to_activate,
    } && conn_views(exist@) == conn_views(state.exist_nm_conns@) && conn_views(to_activate@)
        == conn_views(state.to_activate@))
}

/// The step that activates what preparation asked to activate.
pub open spec fn activate_step(state: ApplyState, next: ApplyState, action: Action) -> bool {
    goes(state, next, Stage::Activate) && (action matches Action::Activate { conns, nm_acs }
        && conn_views(conns@) == conn_views(state.to_activate@) && ac_views(nm_acs@) == ac_views(
        state.nm_acs@,
    ))
}

/// The step that answers a failed action. A failed device deletion is
/// tolerated, and the devices after it are still asked for; per-interface DNS that cannot be represented falls back to the
/// global store, with all servers and search domains; anything else stops
/// the run with the error as it came.
pub open spec fn failure_step(state: ApplyState, e: NmstateError, next: ApplyState, action: Action) -> bool {
    if state.stage == Stage::DeviceDelete {
        deleting(state, next, action)
    } else if state.stage == Stage::DnsIfaces && e.kind == ErrorKind::NotRepresentable {
        goes(state, next, Stage::DnsGlobal) && (action matches Action::StoreDnsGlobal { servers, searches }
            && texts(servers@) == texts(state.merged.dns.servers@) && texts(searches@) == texts(
            state.merged.dns.searches@,
        ))
    } else {
        goes(state, next, Stage::Finished) && action == Action::Fail(e)
    }
}

/// The step that answers an action that succeeded and returned nothing.
pub open spec fn done_step(state: ApplyState, next: ApplyState, action: Action) -> bool {
    match state.stage {
        Stage::Checkpoint => if state.merged.memory_only {
            hostname_step(state, next, action)
        } else {
            goes(state, next, Stage::AbsentProfiles) && action == Action::GetConnections
        },
        Stage::AbsentDelete => deleting(state, next, action),
        Stage::OrphanDelete => deleting(state, next, action),
        Stage::DeviceDelete => deleting(state, next, action),
        Stage::Hostname => goes(state, next, Stage::Mptcp) && action == Action::ProbeMptcp,
        Stage::DnsPurge => goes(state, next, Stage::DnsIfaces) && action == Action::StoreDnsToIfaces,
        Stage::DnsGlobal => prepare_step(state, next, action),
        Stage::DeactivateFirst => goes(state, next, Stage::Save) && (action matches Action::SaveProfiles {
            conns,
            memory_only,
        } && conn_views(conns@) == conn_views(state.to_store@) && memory_only
            == state.merged.memory_only),
        Stage::Save => if state.merged.memory_only {
            activate_step(state, next, action)
        } else {
            stale_step(state, next, action)
        },
        Stage::StaleDelete => if state.merged.memory_only {
            rejects(state, next, action)
        } else {
            orphan_ports_step(state, next, action)
        },
        Stage::OrphanOvsPorts => activate_step(state, next, action),
        Stage::Activate => goes(state, next, Stage::Deactivate) && (action matches Action::Deactivate(v)
            && conn_views(v@) == conn_views(state.to_deactivate@)),
        Stage::Deactivate => goes(state, next, Stage::Finished) && action == Action::Done,
        _ => rejects(state, next, action),
    }
}

/// The step that answers a fetch of all profiles.
pub open spec fn connections_step(
    state: ApplyState,
    conns: Vec<NmConnection>,
    next: ApplyState,
    action: Action,
) -> bool {
    if state.stage == Stage::AbsentProfiles && !state.merged.memory_only {
        if has_unsupported(state.merged.interfaces@) {
            goes(state, next, Stage::Finished) && (action matches Action::Fail(e) && e.kind
                == ErrorKind::NotImplemented && exists|i: int|
                #[trigger] first_unsupported(state.merged.interfaces@, i) && e.msg@
                    == state.merged.interfaces@[i].name@)
        } else {
            let mid = ApplyState {
                stage: Stage::AbsentDelete,
                uuids_deleted: next.uuids_deleted,
                pending: next.pending,
                cursor: 0,
                ..state
            };
            &&& texts(mid.pending@).no_duplicates()
            &&& texts(mid.pending@).to_set() == absent_ids(conn_views(conns@), state.merged.interfaces@)
            &&& texts(mid.uuids_deleted@) == texts(mid.pending@)
            &&& deleting(mid, next, action)
        }
    } else if state.stage == Stage::OrphanProfiles && !state.merged.memory_only {
        let mid = ApplyState { stage: Stage::OrphanDelete, pending: next.pending, cursor: 0, ..state };
        &&& texts(mid.pending@).no_duplicates()
        &&& texts(mid.pending@).to_set() == orphan_ids(conn_views(conns@), texts(state.uuids_deleted@))
        &&& deleting(mid, next, action)
    } else if state.stage == Stage::Inventory {
        next == (ApplyState { stage: Stage::ActiveInventory, exist_nm_conns: conns, ..state }) && action
            == Action::GetActiveConnections
    } else {
        rejects(state, next, action)
    }
}

/// The step that answers a fetch of all devices.
pub open spec fn devices_step(state: ApplyState, devs: Vec<NmDevice>, next: ApplyState, action: Action) -> bool {
    if state.stage == Stage::Devices && !state.merged.memory_only {
        if has_unmappable(state.merged.interfaces@) {
            goes(state, next, Stage::Finished) && (action matches Action::Fail(e) && e.kind
                == ErrorKind::NotImplemented && exists|i: int|
                #[trigger] first_unmappable(state.merged.interfaces@, i) && e.msg@
                    == state.merged.interfaces@[i].name@)
        } else {
            let mid = ApplyState { stage: Stage::DeviceDelete, pending: next.pending, cursor: 0, ..state };
            &&& texts(mid.pending@) == residual_paths(devs@, state.merged.interfaces@)
            &&& deleting(mid, next, action)
        }
    } else {
        rejects(state, next, action)
    }
}

/// The step that answers profile preparation: the live connections that the
/// backend cannot reapply in place go down before any profile is written.
pub open spec fn prepared_step(
    state: ApplyState,
    p: PreparedNmConnections,
    next: ApplyState,
    action: Action,
) -> bool {
    if state.stage == Stage::Prepare {
        &&& next == (ApplyState {
            stage: Stage::DeactivateFirst,
            to_store: p.to_store,
            to_activate: p.to_activate,
            to_deactivate: p.to_deactivate,
            ..state
        })
        &&& action matches Action::Deactivate(v) && conn_views(v@) == deactivate_first(
            conn_views(p.to_activate@),
            activated(conn_views(state.exist_nm_conns@), ac_uuids(state.nm_acs@)),
        )
    } else {
        rejects(state, next, action)
    }
}

/// One step of the reconciliation: from what is known and the outcome of the
/// pending action to what is known then and the action to perform next.
pub open spec fn step(state: ApplyState, event: Event, next: ApplyState, action: Action) -> bool {
    match event {
        Event::Failed(e) => failure_step(state, e, next, action),
        Event::Done => done_step(state, next, action),
        Event::Connections(conns) => connections_step(state, conns, next, action),
        Event::Devices(devs) => devices_step(state, devs, next, action),
        Event::ActiveConnections(acs) => if state.stage == Stage::ActiveInventory {
            next == (ApplyState { stage: Stage::Routes, nm_acs: acs, ..state }) && action
                == Action::StoreRouteConfig
        } else {
            rejects(state, next, action)
        },
        Event::Resolved(m) => resolved_step(state, m, next, action),
        Event::Capability(supported) => if state.stage == Stage::Mptcp {
            next == (ApplyState { stage: Stage::Inventory, mptcp_supported: supported, ..state })
                && action == Action::GetConnections
        } else {
            rejects(state, next, action)
        },
        Event::Prepared(p) => prepared_step(state, p, next, action),
    }
}

fn reject(state: ApplyState) -> (r: (ApplyState, Action))
    ensures
        rejects(state, r.0, r.1),
{
    let e = NmstateError {
        kind: ErrorKind::Unexpected,
        msg: "event does not answer the pending action".to_owned(),
    };
    (ApplyState { stage: Stage::Finished, ..state }, Action::Fail(e))
}

fn fail(state: ApplyState, e: NmstateError) -> (r: (ApplyState, Action))
    ensures
        goes(state, r.0, Stage::Finished),
        r.1 == Action::Fail(e),
{
    (ApplyState { stage: Stage::Finished, ..state }, Action::Fail(e))
}

fn to(state: ApplyState, stage: Stage, action: Action) -> (r: (ApplyState, Action))
    ensures
        goes(state, r.0, stage),
        r.1 == action,
{
    (ApplyState { stage, ..state }, action)
}

fn after_cascade(state: ApplyState) -> (r: (ApplyState, Action))
    ensures
        hostname_step(state, r.0, r.1),
{
    let action = match &state.merged.hostname {
        Some(h) => if state.merged.memory_only {
            Action::SkipHostname
        } else {
            Action::SetHostname(h.clone())
        },
        None => Action::ProbeMptcp,
    };
    let stage = match &state.merged.hostname {
        Some(_) => Stage::Hostname,
        None => Stage::Mptcp,
    };
    to(state, stage, action)
}

fn after_route_rules(state: ApplyState) -> (r: (ApplyState, Action))
    ensures
        dns_step(state, r.0, r.1),
{
    if state.merged.dns.changed || !state.merged.dns.ifaces_still_valid {
        to(state, Stage::DnsPurge, Action::PurgeGlobalDns)
    } else {
        to(state, Stage::DnsIfaces, Action::StoreDnsToIfaces)
    }
}

fn after_dns(state: ApplyState) -> (r: (ApplyState, Action))
    ensures
        prepare_step(state, r.0, r.1),
{
    let action = Action::PrepareConnections {
        exist: copy_conns(&state.exist_nm_conns),
        nm_acs: copy_acs(&state.nm_acs),
        mptcp_supported: state.mptcp_supported,
        reapply: false,
    };
    to(state, Stage::Prepare, action)
}

fn activate(state: ApplyState) -> (r: (ApplyState, Action))
    ensures
        activate_step(state, r.0, r.1),
{
    let action = Action::Activate {
        conns: copy_conns(&state.to_activate),
        nm_acs: copy_acs(&state.nm_acs),
    };
    to(state, Stage::Activate, action)
}

fn continue_deleting(state: ApplyState) -> (r: (ApplyState, Action))
    ensures
        deleting(state, r.0, r.1),
{
    if state.merged.memory_only {
        return reject(state);
    }
    if state.cursor < state.pending.len() {
        let entry = state.pending[state.cursor].clone();
        let action = match state.stage {
            Stage::DeviceDelete => Action::DeleteDevice(entry),
            _ => Action::DeleteConnection(entry),
        };
        let cursor: usize = state.cursor + 1;
        (ApplyState { cursor, ..state }, action)
    } else {
        match state.stage {
            Stage::AbsentDelete => to(state, Stage::OrphanProfiles, Action::GetConnections),
            Stage::OrphanDelete => to(state, Stage::Devices, Action::GetDevices),
            _ => after_cascade(state),
        }
    }
}

fn on_resolved(state: ApplyState, m: MergedNetworkState) -> (r: (ApplyState, Action))
    ensures
        resolved_step(state, m, r.0, r.1),
{
    match state.stage {
        Stage::Routes | Stage::RouteRules | Stage::DnsIfaces => {
            let merged = MergedNetworkState { memory_only: state.merged.memory_only, ..m };
            let mid = ApplyState { merged, ..state };
            match mid.stage {
                Stage::Routes => to(mid, Stage::RouteRules, Action::StoreRouteRuleConfig),
                Stage::RouteRules => after_route_rules(mid),
                _ => after_dns(mid),
            }
        },
        _ => reject(state),
    }
}

fn on_failure(state: ApplyState, e: NmstateError) -> (r: (ApplyState, Action))
    ensures
        failure_step(state, e, r.0, r.1),
{
    match (state.stage, e.kind) {
        (Stage::DeviceDelete, _) => continue_deleting(state),
        (Stage::DnsIfaces, ErrorKind::NotRepresentable) => {
            let action = Action::StoreDnsGlobal {
                servers: copy_texts(&state.merged.dns.servers),
                searches: copy_texts(&state.merged.dns.searches),
            };
            to(state, Stage::DnsGlobal, action)
        },
        _ => fail(state, e),
    }
}

fn on_done(state: ApplyState) -> (r: (ApplyState, Action))
    ensures
        done_step(state, r.0, r.1),
{
    match state.stage {
        Stage::Checkpoint => if state.merged.memory_only {
            after_cascade(state)
        } else {
            to(state, Stage::AbsentProfiles, Action::GetConnections)
        },
        Stage::AbsentDelete => continue_deleting(state),
        Stage::OrphanDelete => continue_deleting(state),
        Stage::DeviceDelete => continue_deleting(state),
        Stage::Hostname => to(state, Stage::Mptcp, Action::ProbeMptcp),
        Stage::DnsPurge => to(state, Stage::DnsIfaces, Action::StoreDnsToIfaces),
        Stage::DnsGlobal => after_dns(state),
        Stage::DeactivateFirst => {
            let action = Action::SaveProfiles {
                conns: copy_conns(&state.to_store),
                memory_only: state.merged.memory_only,
            };
            to(state, Stage::Save, action)
        },
        Stage::Save => if state.merged.memory_only {
            activate(state)
        } else {
            let action = Action::DeleteStaleProfiles {
                exist: copy_conns(&state.exist_nm_conns),
                stored: copy_conns(&state.to_store),
            };
            to(state, Stage::StaleDelete, action)
        },
        Stage::StaleDelete => if state.merged.memory_only {
            reject(state)
        } else {
            let action = Action::DeleteOrphanOvsPorts {
                exist: copy_conns(&state.exist_nm_conns),
                to_activate: copy_conns(&state.to_activate),
            };
            to(state, Stage::OrphanOvsPorts, action)
        },
        Stage::OrphanOvsPorts => activate(state),
        Stage::Activate => {
            let action = Action::Deactivate(copy_conns(&state.to_deactivate));
            to(state, Stage::Deactivate, action)
        },
        Stage::Deactivate => to(state, Stage::Finished, Action::Done),
        _ => reject(state),
    }
}

fn on_connections(state: ApplyState, conns: Vec<NmConnection>) -> (r: (ApplyState, Action))
    ensures
        connections_step(state, conns, r.0, r.1),
{
    match state.stage {
        Stage::AbsentProfiles => {
            if state.merged.memory_only {
                return reject(state);
            }
            match delete_ifaces(&conns, &state.merged) {
                Ok(uuids) => {
                    let kept = copy_texts(&uuids);
                    let cursor: usize = 0;
                    continue_deleting(
                        ApplyState {
                            stage: Stage::AbsentDelete,
                            uuids_deleted: kept,
                            pending: uuids,
                            cursor,
                            ..state
                        },
                    )
                },
                Err(e) => fail(state, e),
            }
        },
        Stage::OrphanProfiles => {
            if state.merged.memory_only {
                return reject(state);
            }
            let uuids = delete_orphan_ports(&conns, &state.uuids_deleted);
            let cursor: usize = 0;
            continue_deleting(ApplyState { stage: Stage::OrphanDelete, pending: uuids, cursor, ..state })
        },
        Stage::Inventory => (
            ApplyState { stage: Stage::ActiveInventory, exist_nm_conns: conns, ..state },
            Action::GetActiveConnections,
        ),
        _ => reject(state),
    }
}

fn on_devices(state: ApplyState, devs: Vec<NmDevice>) -> (r: (ApplyState, Action))
    ensures
        devices_step(state, devs, r.0, r.1),
{
    match state.stage {
        Stage::Devices => {
            if state.merged.memory_only {
                return reject(state);
            }
            match delete_remain_virtual_interface_as_desired(&devs, &state.merged) {
                Ok(paths) => {
                    let cursor: usize = 0;
                    continue_deleting(
                        ApplyState { stage: Stage::DeviceDelete, pending: paths, cursor, ..state },
                    )
                },
                Err(e) => fail(state, e),
            }
        },
        _ => reject(state),
    }
}

fn on_prepared(state: ApplyState, p: PreparedNmConnections) -> (r: (ApplyState, Action))
    ensures
        prepared_step(state, p, r.0, r.1),
{
    match state.stage {
        Stage::Prepare => {
            let live_uuids = nm_ac_uuids(&state.nm_acs);
            let live = activated_nm_conns(&state.exist_nm_conns, &live_uuids);
            let first = gen_nm_conn_need_to_deactivate_first(&p.to_activate, &live);
            (
                ApplyState {
                    stage: Stage::DeactivateFirst,
                    to_store: p.to_store,
                    to_activate: p.to_activate,
                    to_deactivate: p.to_deactivate,
                    ..state
                },
                Action::Deactivate(first),
            )
        },
        _ => reject(state),
    }
}

/// Starts a reconciliation of `merged_state`: nothing is known of the
/// backend yet, and the first action opens the checkpoint.
pub fn nm_apply_begin(merged_state: MergedNetworkState, checkpoint: String, timeout: u32) -> (r: (
    ApplyState,
    Action,
))
    ensures
        r.0.stage == Stage::Checkpoint,
        r.0.merged == merged_state,
        r.0.uuids_deleted@.len() == 0,
        r.0.exist_nm_conns@.len() == 0,
        r.0.nm_acs@.len() == 0,
        r.0.pending@.len() == 0,
        r.0.cursor == 0,
        r.0.to_store@.len() == 0,
        r.0.to_activate@.len() == 0,
        r.0.to_deactivate@.len() == 0,
        !r.0.mptcp_supported,
        r.1 == (Action::OpenCheckpoint { checkpoint, timeout }),
{
    let state = ApplyState {
        stage: Stage::Checkpoint,
        merged: merged_state,
        mptcp_supported: false,
        uuids_deleted: Vec::new(),
        pending: Vec::new(),
        cursor: 0,
        exist_nm_conns: Vec::new(),
        nm_acs: Vec::new(),
        to_store: Vec::new(),
        to_activate: Vec::new(),
        to_deactivate: Vec::new(),
    };
    (state, Action::OpenCheckpoint { checkpoint, timeout })
}

/// Takes the outcome of the pending action and answers with the next one.
///
/// The sequence is: checkpoint; unless memory-only, the deletion cascade;
/// hostname; capability probe; inventory; routes and route rules; DNS;
/// profile preparation; deactivation of what cannot be reapplied; storing;
/// unless memory-only, stale-profile and orphan-port removal; activation;
/// deactivation. Any failure but the two that are recovered stops it.
pub fn nm_apply(state: ApplyState, event: Event) -> (r: (ApplyState, Action))
    ensures
        step(state, event, r.0, r.1),
{
    match event {
        Event::Failed(e) => on_failure(state, e),
        Event::Done => on_done(state),
        Event::Connections(conns) => on_connections(state, conns),
        Event::Devices(devs) => on_devices(state, devs),
        Event::ActiveConnections(acs) => match state.stage {
            Stage::ActiveInventory => (
                ApplyState { stage: Stage::Routes, nm_acs: acs, ..state },
                Action::StoreRouteConfig,
            ),
            _ => reject(state),
        },
        Event::Resolved(m) => on_resolved(state, m),
        Event::Capability(supported) => match state.stage {
            Stage::Mptcp => (
                ApplyState { stage: Stage::Inventory, mptcp_supported: supported, ..state },
                Action::GetConnections,
            ),
            _ => reject(state),
        },
        Event::Prepared(p) => on_prepared(state, p),
    }
}

/// In memory-only mode no step deletes a profile or a device, sweeps stale
/// or orphaned profiles, or sets the hostname; the mode never changes during
/// a run, and the merged state changes only by what a collaborator resolved
/// into it.
pub proof fn lemma_memory_only_changes_nothing_persistent(
    state: ApplyState,
    event: Event,
    next: ApplyState,
    action: Action,
)
    requires
        step(state, event, next, action),
    ensures
        next.merged.memory_only == state.merged.memory_only,
        !(event is Resolved) ==> next.merged == state.merged,
        state.merged.memory_only ==> !action.persistent_change(),
{
}

/// The run only moves forward: every step ends the run, leads to a later
/// stage, or asks for the next entry of the deletion pass under way. So each
/// stage's action is asked for at most once, and each entry of a deletion
/// list at most once.
pub proof fn lemma_stages_advance(state: ApplyState, event: Event, next: ApplyState, action: Action)
    requires
        step(state, event, next, action),
    ensures
        next.stage == Stage::Finished || next.stage.rank() > state.stage.rank() || (next.stage
            == state.stage && (action is DeleteConnection || action is DeleteDevice) && next.pending
            == state.pending && state.cursor < state.pending@.len() && next.cursor == state.cursor + 1),
        (action is Done || action is Fail) <==> next.stage == Stage::Finished,
{
}

/// Every deletion asked for is the entry of the pending list at the cursor,
/// so the entries are asked for in order, one by one.
pub proof fn lemma_deletions_follow_the_list(state: ApplyState, event: Event, next: ApplyState, action: Action)
    requires
        step(state, event, next, action),
    ensures
        action matches Action::DeleteConnection(u) ==> 1 <= next.cursor <= next.pending@.len() && u@
            == next.pending@[next.cursor - 1]@ && (next.stage == Stage::AbsentDelete || next.stage
            == Stage::OrphanDelete),
        action matches Action::DeleteDevice(p) ==> 1 <= next.cursor <= next.pending@.len() && p@
            == next.pending@[next.cursor - 1]@ && next.stage == Stage::DeviceDelete,
{
}

/// A failed profile deletion stops the run with the error as it came, and no
/// later identity of the list is asked for. A failed device deletion is
/// answered like a success: the next device of the list is asked for, or,
/// after the last, the run goes on.
pub proof fn lemma_failed_deletion(state: ApplyState, e: NmstateError, next: ApplyState, action: Action)
    requires
        step(state, Event::Failed(e), next, action),
    ensures
        state.stage == Stage::AbsentDelete || state.stage == Stage::OrphanDelete ==> next.stage
            == Stage::Finished && action == Action::Fail(e),
        state.stage == Stage::DeviceDelete ==> step(state, Event::Done, next, action),
        state.stage == Stage::DeviceDelete && !state.merged.memory_only && state.cursor
            < state.pending@.len() ==> (action matches Action::DeleteDevice(p) && p@
            == state.pending@[state.cursor as int]@),
        state.stage == Stage::DeviceDelete && !state.merged.memory_only && state.cursor
            >= state.pending@.len() ==> !(action is Fail),
{
}

/// Where per-interface DNS cannot be represented, the merged state is left
/// as it was, the global store is asked for with every server and search
/// domain, and nothing after it stores DNS again, globally or per interface.
pub proof fn lemma_dns_fallback(
    state: ApplyState,
    e: NmstateError,
    next: ApplyState,
    action: Action,
    later: ApplyState,
    event: Event,
    after: ApplyState,
    then_action: Action,
)
    requires
        state.stage == Stage::DnsIfaces,
        e.kind == ErrorKind::NotRepresentable,
        step(state, Event::Failed(e), next, action),
        later.stage.rank() >= next.stage.rank(),
        step(later, event, after, then_action),
    ensures
        next.merged == state.merged,
        action matches Action::StoreDnsGlobal { servers, searches } && texts(servers@) == texts(
            state.merged.dns.servers@,
        ) && texts(searches@) == texts(state.merged.dns.searches@),
        !(then_action is StoreDnsGlobal),
        !(then_action is StoreDnsToIfaces),
{
}

/// The global DNS store is asked for only in answer to per-interface DNS
/// that cannot be represented.
pub proof fn lemma_global_dns_only_as_fallback(
    state: ApplyState,
    event: Event,
    next: ApplyState,
    action: Action,
)
    requires
        step(state, event, next, action),
        action is StoreDnsGlobal,
    ensures
        state.stage == Stage::DnsIfaces,
        event matches Event::Failed(e) && e.kind == ErrorKind::NotRepresentable,
{
}

/// Profiles are written only after the live connections that cannot be
/// reapplied were taken down, stale profiles are swept only after the new
/// ones were stored, and activation comes after both: directly after storing
/// in memory-only mode, after the sweeps otherwise.
pub proof fn lemma_order_of_mutations(state: ApplyState, event: Event, next: ApplyState, action: Action)
    requires
        step(state, event, next, action),
    ensures
        action is SaveProfiles ==> state.stage == Stage::DeactivateFirst && event is Done,
        action is DeleteStaleProfiles ==> state.stage == Stage::Save && event is Done,
        action is DeleteOrphanOvsPorts ==> state.stage == Stage::StaleDelete && event is Done,
        action is Activate ==> event is Done && (state.stage == Stage::OrphanOvsPorts || (state.stage
            == Stage::Save && state.merged.memory_only)),
{
}

} // verus!
