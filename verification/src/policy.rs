//! Which live connections must be taken down before their profile is
//! rewritten, because the backend cannot apply the change in place.
use vstd::prelude::*;
use crate::text::{texts, same_text, same_opt_text, contains_text};
use crate::profile::{NmConnection, ConnView, conn_views, NmSettingVlan, NmSettingVxlan};

verus! {

/// A route of the current profile is missing from the target.
pub open spec fn route_removed(target: ConnView, current: ConnView) -> bool {
    exists|i: int| 0 <= i < current.routes.len() && !target.routes.contains(#[trigger] current.routes[i])
}

/// The VRF table identifiers differ.
pub open spec fn vrf_table_id_changed(target: ConnView, current: ConnView) -> bool {
    target.vrf_table_id != current.vrf_table_id
}

/// The VLAN settings differ.
pub open spec fn vlan_changed(target: ConnView, current: ConnView) -> bool {
    target.vlan != current.vlan
}

/// The VXLAN settings differ.
pub open spec fn vxlan_changed(target: ConnView, current: ConnView) -> bool {
    target.vxlan != current.vxlan
}

/// The veth peers differ.
pub open spec fn veth_peer_changed(target: ConnView, current: ConnView) -> bool {
    target.veth_peer != current.veth_peer
}

/// The multi-path TCP flags differ.
pub open spec fn mptcp_flags_changed(target: ConnView, current: ConnView) -> bool {
    target.mptcp_flags != current.mptcp_flags
}

/// The backend cannot move the live connection from `current` to `target` in
/// place: one of the independent rules holds.
pub open spec fn reapply_unsafe(target: ConnView, current: ConnView) -> bool {
    ||| route_removed(target, current)
    ||| vrf_table_id_changed(target, current)
    ||| vlan_changed(target, current)
    ||| vxlan_changed(target, current)
    ||| veth_peer_changed(target, current)
    ||| mptcp_flags_changed(target, current)
}

/// Removing routes in place is unreliable.
pub fn is_route_removed(target: &NmConnection, current: &NmConnection) -> (r: bool)
    ensures
        r == route_removed(target@, current@),
{
    let mut i: usize = 0;
    while i < current.routes.len()
        invariant
            i <= current.routes.len(),
            forall|k: int| 0 <= k < i ==> target@.routes.contains(#[trigger] current@.routes[k]),
        decreases current.routes.len() - i,
    {
        if !contains_text(&target.routes, &current.routes[i]) {
            assert(!target@.routes.contains(current@.routes[i as int]));
            return true;
        }
        i += 1;
    }
    false
}

/// The table of a VRF cannot be changed in place.
pub fn is_vrf_table_id_changed(target: &NmConnection, current: &NmConnection) -> (r: bool)
    ensures
        r == vrf_table_id_changed(target@, current@),
{
    match (target.vrf_table_id, current.vrf_table_id) {
        (Some(a), Some(b)) => a != b,
        (None, None) => false,
        _ => true,
    }
}

fn same_vlan(a: &NmSettingVlan, b: &NmSettingVlan) -> (r: bool)
    ensures
        r == (a.parent@ == b.parent@ && a.id == b.id),
{
    a.id == b.id && same_text(&a.parent, &b.parent)
}

fn same_vxlan(a: &NmSettingVxlan, b: &NmSettingVxlan) -> (r: bool)
    ensures
        r == (a.parent@ == b.parent@ && a.id == b.id && a.remote@ == b.remote@ && a.dst_port
            == b.dst_port),
{
    a.id == b.id && a.dst_port == b.dst_port && same_text(&a.parent, &b.parent) && same_text(
        &a.remote,
        &b.remote,
    )
}

/// VLAN settings cannot be changed in place.
pub fn is_vlan_changed(target: &NmConnection, current: &NmConnection) -> (r: bool)
    ensures
        r == vlan_changed(target@, current@),
{
    match (&target.vlan, &current.vlan) {
        (Some(a), Some(b)) => !same_vlan(a, b),
        (None, None) => false,
        _ => true,
    }
}

/// VXLAN settings cannot be changed in place.
pub fn is_vxlan_changed(target: &NmConnection, current: &NmConnection) -> (r: bool)
    ensures
        r == vxlan_changed(target@, current@),
{
    match (&target.vxlan, &current.vxlan) {
        (Some(a), Some(b)) => !same_vxlan(a, b),
        (None, None) => false,
        _ => true,
    }
}

/// The peer of a veth pair cannot be changed in place.
pub fn is_veth_peer_changed(target: &NmConnection, current: &NmConnection) -> (r: bool)
    ensures
        r == veth_peer_changed(target@, current@),
{
    !same_opt_text(&target.veth_peer, &current.veth_peer)
}

/// Multi-path TCP flags cannot be reapplied.
pub fn is_mptcp_flags_changed(target: &NmConnection, current: &NmConnection) -> (r: bool)
    ensures
        r == mptcp_flags_changed(target@, current@),
{
    match (target.mptcp_flags, current.mptcp_flags) {
        (Some(a), Some(b)) => a != b,
        (None, None) => false,
        _ => true,
    }
}

/// The first profile of `active`, from index `from` on, whose identity is
/// `uuid`.
pub open spec fn first_with_uuid(active: Seq<ConnView>, uuid: Seq<char>, from: int) -> Option<ConnView>
    decreases active.len() - from,
{
    if from < 0 || from >= active.len() {
        None
    } else if active[from].uuid == Some(uuid) {
        Some(active[from])
    } else {
        first_with_uuid(active, uuid, from + 1)
    }
}

/// The live profile that has to go down before `target` is written: the
/// active profile of the same identity, where the backend cannot reapply.
pub open spec fn deactivate_first_for(target: ConnView, active: Seq<ConnView>) -> Option<ConnView> {
    match target.uuid {
        Some(uuid) => match first_with_uuid(active, uuid, 0) {
            Some(current) => if reapply_unsafe(target, current) {
                Some(current)
            } else {
                None
            },
            None => None,
        },
        None => None,
    }
}

/// The live profiles to take down first, in the order of their targets.
pub open spec fn deactivate_first(targets: Seq<ConnView>, active: Seq<ConnView>) -> Seq<ConnView>
    decreases targets.len(),
{
    if targets.len() == 0 {
        Seq::empty()
    } else {
        let rest = deactivate_first(targets.drop_last(), active);
        match deactivate_first_for(targets.last(), active) {
            Some(current) => rest.push(current),
            None => rest,
        }
    }
}

/// The profiles of `exist_nm_conns` that are live: those whose identity is
/// among `nm_ac_uuids`, in inventory order.
pub open spec fn activated(exist: Seq<ConnView>, ac_uuids: Seq<Seq<char>>) -> Seq<ConnView>
    decreases exist.len(),
{
    if exist.len() == 0 {
        Seq::empty()
    } else {
        let rest = activated(exist.drop_last(), ac_uuids);
        let c = exist.last();
        if c.uuid is Some && ac_uuids.contains(c.uuid->0) {
            rest.push(c)
        } else {
            rest
        }
    }
}

fn find_active(active: &Vec<NmConnection>, uuid: &String) -> (r: Option<usize>)
    ensures
        match r {
            Some(i) => i < active.len() && first_with_uuid(conn_views(active@), uuid@, 0) == Some(
                active@[i as int]@,
            ),
            None => first_with_uuid(conn_views(active@), uuid@, 0) is None,
        },
{
    let mut i: usize = 0;
    while i < active.len()
        invariant
            i <= active.len(),
            first_with_uuid(conn_views(active@), uuid@, 0) == first_with_uuid(
                conn_views(active@),
                uuid@,
                i as int,
            ),
        decreases active.len() - i,
    {
        if crate::text::opt_text_is(&active[i].uuid, uuid) {
            return Some(i);
        }
        i += 1;
    }
    None
}

/// Decides whether the live connection `current` must be taken down before
/// `target` replaces it.
pub fn need_to_deactivate_first(target: &NmConnection, current: &NmConnection) -> (r: bool)
    ensures
        r == reapply_unsafe(target@, current@),
{
    is_route_removed(target, current) || is_vrf_table_id_changed(target, current)
        || is_vlan_changed(target, current) || is_vxlan_changed(target, current)
        || is_veth_peer_changed(target, current) || is_mptcp_flags_changed(target, current)
}

/// For each profile about to be activated that is live under the same
/// identity and cannot be reapplied in place, a copy of the live profile.
pub fn gen_nm_conn_need_to_deactivate_first(
    nm_conns_to_activate: &Vec<NmConnection>,
    activated_nm_conns: &Vec<NmConnection>,
) -> (r: Vec<NmConnection>)
    ensures
        conn_views(r@) == deactivate_first(
            conn_views(nm_conns_to_activate@),
            conn_views(activated_nm_conns@),
        ),
{
    let mut ret: Vec<NmConnection> = Vec::new();
    let mut i: usize = 0;
    let ghost targets = conn_views(nm_conns_to_activate@);
    let ghost active = conn_views(activated_nm_conns@);
    assert(targets.take(0) =~= Seq::empty());
    assert(conn_views(ret@) =~= Seq::empty());
    while i < nm_conns_to_activate.len()
        invariant
            i <= nm_conns_to_activate.len(),
            targets == conn_views(nm_conns_to_activate@),
            active == conn_views(activated_nm_conns@),
            conn_views(ret@) == deactivate_first(targets.take(i as int), active),
        decreases nm_conns_to_activate.len() - i,
    {
        let nm_conn = &nm_conns_to_activate[i];
        let ghost before = conn_views(ret@);
        proof {
            assert(targets.take(i + 1).drop_last() =~= targets.take(i as int));
            assert(targets.take(i + 1).last() == nm_conn@);
        }
        if let Some(uuid) = &nm_conn.uuid {
            if let Some(j) = find_active(activated_nm_conns, uuid) {
                let current = &activated_nm_conns[j];
                if need_to_deactivate_first(nm_conn, current) {
                    ret.push(current.clone());
                    assert(conn_views(ret@) =~= before.push(current@));
                }
            }
        }
        i += 1;
    }
    assert(targets.take(i as int) =~= targets);
    ret
}

/// The profiles of the inventory that are live.
pub fn activated_nm_conns(exist_nm_conns: &Vec<NmConnection>, nm_ac_uuids: &Vec<String>) -> (r: Vec<
    NmConnection,
>)
    ensures
        conn_views(r@) == activated(conn_views(exist_nm_conns@), texts(nm_ac_uuids@)),
{
    let mut ret: Vec<NmConnection> = Vec::new();
    let mut i: usize = 0;
    let ghost exist = conn_views(exist_nm_conns@);
    assert(exist.take(0) =~= Seq::empty());
    assert(conn_views(ret@) =~= Seq::empty());
    while i < exist_nm_conns.len()
        invariant
            i <= exist_nm_conns.len(),
            exist == conn_views(exist_nm_conns@),
            conn_views(ret@) == activated(exist.take(i as int), texts(nm_ac_uuids@)),
        decreases exist_nm_conns.len() - i,
    {
        let c = &exist_nm_conns[i];
        let ghost before = conn_views(ret@);
        proof {
            assert(exist.take(i + 1).drop_last() =~= exist.take(i as int));
            assert(exist.take(i + 1).last() == c@);
        }
        if let Some(uuid) = &c.uuid {
            if contains_text(nm_ac_uuids, uuid) {
                ret.push(c.clone());
                assert(conn_views(ret@) =~= before.push(c@));
            }
        }
        i += 1;
    }
    assert(exist.take(i as int) =~= exist);
    ret
}

/// The decision goes by the six rules alone: where target and live profile
/// agree in routes, VRF table, VLAN, VXLAN, veth peer and multi-path flags,
/// no deactivation is asked for, whatever else differs.
pub proof fn lemma_unrelated_changes_reapply(target: ConnView, current: ConnView)
    requires
        target.routes == current.routes,
        target.vrf_table_id == current.vrf_table_id,
        target.vlan == current.vlan,
        target.vxlan == current.vxlan,
        target.veth_peer == current.veth_peer,
        target.mptcp_flags == current.mptcp_flags,
    ensures
        !reapply_unsafe(target, current),
{
    assert forall|i: int| 0 <= i < current.routes.len() implies target.routes.contains(
        #[trigger] current.routes[i],
    ) by {
        assert(target.routes[i] == current.routes[i]);
    }
}

/// A difference in any one of VRF table, VLAN, VXLAN, veth peer or multi-path
/// flags, or a route that only the live profile has, asks for deactivation.
pub proof fn lemma_each_rule_fires(target: ConnView, current: ConnView)
    ensures
        target.vrf_table_id != current.vrf_table_id ==> reapply_unsafe(target, current),
        target.vlan != current.vlan ==> reapply_unsafe(target, current),
        target.vxlan != current.vxlan ==> reapply_unsafe(target, current),
        target.veth_peer != current.veth_peer ==> reapply_unsafe(target, current),
        target.mptcp_flags != current.mptcp_flags ==> reapply_unsafe(target, current),
        (exists|x: Seq<char>| current.routes.contains(x) && !target.routes.contains(x))
            ==> reapply_unsafe(target, current),
        reapply_unsafe(target, current) ==> (target.vrf_table_id != current.vrf_table_id
            || target.vlan != current.vlan || target.vxlan != current.vxlan || target.veth_peer
            != current.veth_peer || target.mptcp_flags != current.mptcp_flags
            || target.routes != current.routes),
{
    if exists|x: Seq<char>| current.routes.contains(x) && !target.routes.contains(x) {
        let x = choose|x: Seq<char>| current.routes.contains(x) && !target.routes.contains(x);
        let i = choose|i: int| 0 <= i < current.routes.len() && current.routes[i] == x;
        assert(!target.routes.contains(current.routes[i]));
    }
    if reapply_unsafe(target, current) && target.routes == current.routes {
        lemma_unrelated_changes_reapply(
            ConnView { routes: current.routes, ..target },
            ConnView {
                vrf_table_id: target.vrf_table_id,
                vlan: target.vlan,
                vxlan: target.vxlan,
                veth_peer: target.veth_peer,
                mptcp_flags: target.mptcp_flags,
                ..current
            },
        );
        if route_removed(target, current) {
            let i = choose|i: int| 0 <= i < current.routes.len() && !target.routes.contains(#[trigger] current.routes[i]);
            assert(target.routes[i] == current.routes[i]);
        }
    }
}

/// Every profile taken down first is a live one: a profile with no live
/// connection of its identity never appears.
pub proof fn lemma_deactivate_first_only_active(targets: Seq<ConnView>, active: Seq<ConnView>, k: int)
    requires
        0 <= k < deactivate_first(targets, active).len(),
    ensures
        active.contains(deactivate_first(targets, active)[k]),
        exists|t: int| 0 <= t < targets.len() && (#[trigger] targets[t]).uuid == deactivate_first(targets, active)[k].uuid
            && reapply_unsafe(targets[t], deactivate_first(targets, active)[k]),
    decreases targets.len(),
{
    let rest = deactivate_first(targets.drop_last(), active);
    if k < rest.len() {
        lemma_deactivate_first_only_active(targets.drop_last(), active, k);
        let t = choose|t: int| 0 <= t < targets.drop_last().len() && (#[trigger] targets.drop_last()[t]).uuid == rest[k].uuid
            && reapply_unsafe(targets.drop_last()[t], rest[k]);
        assert(targets[t] == targets.drop_last()[t]);
    } else {
        let target = targets.last();
        let uuid = target.uuid->0;
        lemma_first_with_uuid(active, uuid, 0);
        assert(targets[targets.len() - 1] == target);
    }
}

/// What `first_with_uuid` finds is an element of the list with that identity.
pub proof fn lemma_first_with_uuid(active: Seq<ConnView>, uuid: Seq<char>, from: int)
    requires
        0 <= from,
    ensures
        match first_with_uuid(active, uuid, from) {
            Some(c) => active.contains(c) && c.uuid == Some(uuid),
            None => forall|i: int| from <= i < active.len() ==> (#[trigger] active[i]).uuid != Some(uuid),
        },
    decreases active.len() - from,
{
    if from < active.len() {
        if active[from].uuid == Some(uuid) {
        } else {
            lemma_first_with_uuid(active, uuid, from + 1);
        }
    }
}

/// Against a backend that has converged nothing is taken down first: where
/// no target differs from a live profile of its identity in any of the six
/// rules, the list is empty.
pub proof fn lemma_converged_deactivates_nothing(targets: Seq<ConnView>, active: Seq<ConnView>)
    requires
        forall|t: int, c: int|
            0 <= t < targets.len() && 0 <= c < active.len() && (#[trigger] targets[t]).uuid
                == (#[trigger] active[c]).uuid ==> !reapply_unsafe(targets[t], active[c]),
    ensures
        deactivate_first(targets, active) == Seq::<ConnView>::empty(),
    decreases targets.len(),
{
    if targets.len() > 0 {
        let head = targets.drop_last();
        assert forall|t: int, c: int|
            0 <= t < head.len() && 0 <= c < active.len() && (#[trigger] head[t]).uuid
                == (#[trigger] active[c]).uuid implies !reapply_unsafe(head[t], active[c]) by {
            assert(head[t] == targets[t]);
        }
        lemma_converged_deactivates_nothing(head, active);
        let target = targets.last();
        if target.uuid is Some {
            lemma_first_with_uuid(active, target.uuid->0, 0);
            if first_with_uuid(active, target.uuid->0, 0) is Some {
                let cur = first_with_uuid(active, target.uuid->0, 0)->0;
                let c = choose|c: int| 0 <= c < active.len() && active[c] == cur;
                assert(targets[targets.len() - 1].uuid == active[c].uuid);
            }
        }
    }
}

/// Whatever the lists hold, the live profile that a target cannot replace in
/// place is among those taken down first.
pub proof fn lemma_unsafe_target_takes_down_live(targets: Seq<ConnView>, active: Seq<ConnView>, t: int)
    requires
        0 <= t < targets.len(),
        deactivate_first_for(targets[t], active) is Some,
    ensures
        deactivate_first(targets, active).contains(deactivate_first_for(targets[t], active)->0),
    decreases targets.len(),
{
    let rest = deactivate_first(targets.drop_last(), active);
    let c = deactivate_first_for(targets[t], active)->0;
    if t == targets.len() - 1 {
        assert(rest.push(c)[rest.len() as int] == c);
    } else {
        assert(targets.drop_last()[t] == targets[t]);
        lemma_unsafe_target_takes_down_live(targets.drop_last(), active, t);
        let k = choose|k: int| 0 <= k < rest.len() && rest[k] == c;
        match deactivate_first_for(targets.last(), active) {
            Some(q) => {
                assert(rest.push(q)[k] == c);
            },
            None => {},
        }
    }
}

/// Whatever the lists hold, an identity whose targets can all be reapplied in
/// place is never taken down first.
pub proof fn lemma_safe_identity_stays_up(targets: Seq<ConnView>, active: Seq<ConnView>, uuid: Seq<char>)
    requires
        forall|t: int, c: int|
            0 <= t < targets.len() && 0 <= c < active.len() && (#[trigger] targets[t]).uuid == Some(uuid)
                && (#[trigger] active[c]).uuid == Some(uuid) ==> !reapply_unsafe(targets[t], active[c]),
    ensures
        forall|k: int|
            0 <= k < deactivate_first(targets, active).len() ==> (#[trigger] deactivate_first(
                targets,
                active,
            )[k]).uuid != Some(uuid),
{
    let list = deactivate_first(targets, active);
    assert forall|k: int| 0 <= k < list.len() implies (#[trigger] list[k]).uuid != Some(uuid) by {
        if list[k].uuid == Some(uuid) {
            lemma_deactivate_first_only_active(targets, active, k);
            let c = choose|c: int| 0 <= c < active.len() && active[c] == list[k];
            let t = choose|t: int|
                0 <= t < targets.len() && (#[trigger] targets[t]).uuid == list[k].uuid && reapply_unsafe(
                    targets[t],
                    list[k],
                );
            assert(!reapply_unsafe(targets[t], active[c]));
        }
    }
}

} // verus!
