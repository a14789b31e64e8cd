//! Removal of everything the backend holds solely for interfaces that go
//! away: their profiles, the port groups they were members of, the port
//! profiles left without a controller, and leftover virtual devices.
use vstd::prelude::*;
use crate::text::{texts, same_text, opt_text_is, contains_text, push_unique};
use crate::profile::{NmConnection, ConnView, conn_views, port_kind, port_kind_name};
use crate::state::{IfaceKind, MergedInterface, MergedNetworkState, NmDevice, NmstateError, ErrorKind};

verus! {

/// Whether the profile belongs to the interface: by name alone where the
/// interface's type is not known, by name and type otherwise.
pub open spec fn selects(iface: MergedInterface, c: ConnView) -> bool {
    match iface.kind {
        IfaceKind::Unknown => c.iface_name == Some(iface.name@),
        IfaceKind::Native(t) => c.iface_name == Some(iface.name@) && c.iface_type == Some(t@),
        IfaceKind::Unsupported => false,
    }
}

/// Whether deleting the profile entails deleting the identity `u`: its own,
/// or that of the port group it is a member of.
pub open spec fn marks(c: ConnView, u: Seq<char>) -> bool {
    c.uuid == Some(u) || (c.controller_type == Some(port_kind()) && c.controller == Some(u))
}

/// Some profile among the first `bound` is selected by the interface and marks `u`.
pub open spec fn hit(conns: Seq<ConnView>, iface: MergedInterface, u: Seq<char>, bound: int) -> bool {
    exists|j: int| 0 <= j < bound && j < conns.len() && selects(iface, #[trigger] conns[j]) && marks(conns[j], u)
}

/// Some interface to remove among the first `bound` has a profile that marks `u`.
pub open spec fn hit_any(
    conns: Seq<ConnView>,
    ifaces: Seq<MergedInterface>,
    u: Seq<char>,
    bound: int,
) -> bool {
    exists|i: int|
        0 <= i < bound && i < ifaces.len() && (#[trigger] ifaces[i]).to_remove() && hit(
            conns,
            ifaces[i],
            u,
            conns.len() as int,
        )
}

/// The identities to delete for the interfaces that are to be removed.
pub open spec fn absent_ids(conns: Seq<ConnView>, ifaces: Seq<MergedInterface>) -> Set<Seq<char>> {
    Set::new(|u: Seq<char>| hit_any(conns, ifaces, u, ifaces.len() as int))
}

/// Index of the first interface to remove whose type the backend lacks.
pub open spec fn first_unsupported(ifaces: Seq<MergedInterface>, i: int) -> bool {
    &&& 0 <= i < ifaces.len()
    &&& ifaces[i].to_remove()
    &&& ifaces[i].kind is Unsupported
    &&& forall|k: int| 0 <= k < i ==> !((#[trigger] ifaces[k]).to_remove() && ifaces[k].kind is Unsupported)
}

/// Some interface to remove has a type the backend lacks.
pub open spec fn has_unsupported(ifaces: Seq<MergedInterface>) -> bool {
    exists|i: int| 0 <= i < ifaces.len() && (#[trigger] ifaces[i]).to_remove() && ifaces[i].kind is Unsupported
}

fn selects_conn(iface: &MergedInterface, c: &NmConnection) -> (r: bool)
    ensures
        r == selects(*iface, c@),
{
    match &iface.kind {
        IfaceKind::Unknown => opt_text_is(&c.iface_name, &iface.name),
        IfaceKind::Native(t) => opt_text_is(&c.iface_name, &iface.name) && opt_text_is(&c.iface_type, t),
        IfaceKind::Unsupported => false,
    }
}

/// Chooses the profiles to delete for the interfaces that are to be removed.
///
/// Each absent interface selects the profiles of its name (and of its
/// type, where it has one); each selected profile gives its own identity and,
/// where it is a member of a port group, the group's. The result holds every
/// such identity once. Nothing is chosen, and the error names the interface,
/// where an interface to remove has a type the backend lacks.
pub fn delete_ifaces(all_nm_conns: &Vec<NmConnection>, merged_state: &MergedNetworkState) -> (r: Result<
    Vec<String>,
    NmstateError,
>)
    ensures
        r is Err <==> has_unsupported(merged_state.interfaces@),
        match r {
            Ok(uuids) => texts(uuids@).no_duplicates() && texts(uuids@).to_set() == absent_ids(
                conn_views(all_nm_conns@),
                merged_state.interfaces@,
            ),
            Err(e) => e.kind == ErrorKind::NotImplemented && exists|i: int|
                #[trigger] first_unsupported(merged_state.interfaces@, i) && e.msg@
                    == merged_state.interfaces@[i].name@,
        },
{
    let ghost conns = conn_views(all_nm_conns@);
    let ghost ifaces = merged_state.interfaces@;
    let port = port_kind_name();
    let mut uuids: Vec<String> = Vec::new();
    let mut i: usize = 0;
    while i < merged_state.interfaces.len()
        invariant
            i <= ifaces.len(),
            ifaces == merged_state.interfaces@,
            conns == conn_views(all_nm_conns@),
            port@ == port_kind(),
            texts(uuids@).no_duplicates(),
            forall|k: int| 0 <= k < i ==> !((#[trigger] ifaces[k]).to_remove() && ifaces[k].kind is Unsupported),
            forall|u: Seq<char>| #[trigger] texts(uuids@).contains(u) <==> hit_any(conns, ifaces, u, i as int),
        decreases ifaces.len() - i,
    {
        let iface = &merged_state.interfaces[i];
        if iface.absent {
            if let IfaceKind::Unsupported = iface.kind {
                assert(first_unsupported(ifaces, i as int));
                return Err(NmstateError { kind: ErrorKind::NotImplemented, msg: iface.name.clone() });
            }
            let mut j: usize = 0;
            while j < all_nm_conns.len()
                invariant
                    j <= conns.len(),
                    i < ifaces.len(),
                    *iface == ifaces[i as int],
                    iface.to_remove(),
                    ifaces == merged_state.interfaces@,
                    conns == conn_views(all_nm_conns@),
                    port@ == port_kind(),
                    texts(uuids@).no_duplicates(),
                    forall|u: Seq<char>| #[trigger] texts(uuids@).contains(u) <==> (hit_any(conns, ifaces, u, i as int)
                        || hit(conns, *iface, u, j as int)),
                decreases conns.len() - j,
            {
                let c = &all_nm_conns[j];
                let ghost before = texts(uuids@);
                assert(conns[j as int] == c@);
                if selects_conn(iface, c) {
                    if let Some(uuid) = &c.uuid {
                        push_unique(&mut uuids, uuid);
                    }
                    if opt_text_is(&c.controller_type, &port) {
                        if let Some(uuid) = &c.controller {
                            push_unique(&mut uuids, uuid);
                        }
                    }
                }
                assert forall|u: Seq<char>| #[trigger] texts(uuids@).contains(u) <==> (hit_any(conns, ifaces, u, i as int)
                        || hit(conns, *iface, u, j + 1)) by {
                    let here = selects(*iface, c@) && marks(c@, u);
                    assert(texts(uuids@).contains(u) <==> before.contains(u) || here);
                    if hit(conns, *iface, u, j + 1) {
                        let w = choose|w: int| 0 <= w < j + 1 && w < conns.len() && selects(*iface, #[trigger] conns[w]) && marks(conns[w], u);
                        if w < j {
                            assert(hit(conns, *iface, u, j as int));
                        }
                    }
                    if hit(conns, *iface, u, j as int) {
                        let w = choose|w: int| 0 <= w < j && w < conns.len() && selects(*iface, #[trigger] conns[w]) && marks(conns[w], u);
                        assert(hit(conns, *iface, u, j + 1));
                    }
                    if here {
                        assert(hit(conns, *iface, u, j + 1));
                    }
                }
                j += 1;
            }
        }
        assert forall|u: Seq<char>| #[trigger] texts(uuids@).contains(u) <==> hit_any(conns, ifaces, u, i + 1) by {
            lemma_hit_any_step(conns, ifaces, u, i as int);
        }
        i += 1;
    }
    assert(texts(uuids@).to_set() =~= absent_ids(conns, ifaces));
    Ok(uuids)
}

proof fn lemma_hit_any_step(conns: Seq<ConnView>, ifaces: Seq<MergedInterface>, u: Seq<char>, i: int)
    requires
        0 <= i < ifaces.len(),
    ensures
        hit_any(conns, ifaces, u, i + 1) <==> (hit_any(conns, ifaces, u, i) || (ifaces[i].to_remove()
            && hit(conns, ifaces[i], u, conns.len() as int))),
{
    if hit_any(conns, ifaces, u, i + 1) {
        let w = choose|w: int|
            0 <= w < i + 1 && w < ifaces.len() && (#[trigger] ifaces[w]).to_remove() && hit(
                conns,
                ifaces[w],
                u,
                conns.len() as int,
            );
        if w < i {
            assert(hit_any(conns, ifaces, u, i));
        }
    }
    if hit_any(conns, ifaces, u, i) {
        let w = choose|w: int|
            0 <= w < i && w < ifaces.len() && (#[trigger] ifaces[w]).to_remove() && hit(
                conns,
                ifaces[w],
                u,
                conns.len() as int,
            );
        assert(hit_any(conns, ifaces, u, i + 1));
    }
    if ifaces[i].to_remove() && hit(conns, ifaces[i], u, conns.len() as int) {
        assert(hit_any(conns, ifaces, u, i + 1));
    }
}

/// A port profile whose controller is among the deleted identities.
pub open spec fn orphaned(c: ConnView, deleted: Seq<Seq<char>>) -> bool {
    c.iface_type == Some(port_kind()) && c.controller is Some && deleted.contains(c.controller->0)
}

/// Some profile among the first `bound` is orphaned and has identity `u`.
pub open spec fn orphan_hit(conns: Seq<ConnView>, deleted: Seq<Seq<char>>, u: Seq<char>, bound: int) -> bool {
    exists|j: int| 0 <= j < bound && j < conns.len() && orphaned(#[trigger] conns[j], deleted) && conns[j].uuid == Some(u)
}

/// The identities of the port profiles that the deletions left without a
/// controller.
pub open spec fn orphan_ids(conns: Seq<ConnView>, deleted: Seq<Seq<char>>) -> Set<Seq<char>> {
    Set::new(|u: Seq<char>| orphan_hit(conns, deleted, u, conns.len() as int))
}

/// Chooses the port profiles to delete after their controllers went: every
/// profile of the port kind whose controller is among `uuids_deleted`, each
/// identity once.
pub fn delete_orphan_ports(all_nm_conns: &Vec<NmConnection>, uuids_deleted: &Vec<String>) -> (r: Vec<String>)
    ensures
        texts(r@).no_duplicates(),
        texts(r@).to_set() == orphan_ids(conn_views(all_nm_conns@), texts(uuids_deleted@)),
{
    let ghost conns = conn_views(all_nm_conns@);
    let ghost deleted = texts(uuids_deleted@);
    let port = port_kind_name();
    let mut uuids: Vec<String> = Vec::new();
    let mut j: usize = 0;
    while j < all_nm_conns.len()
        invariant
            j <= conns.len(),
            conns == conn_views(all_nm_conns@),
            deleted == texts(uuids_deleted@),
            port@ == port_kind(),
            texts(uuids@).no_duplicates(),
            forall|u: Seq<char>| #[trigger] texts(uuids@).contains(u) <==> orphan_hit(conns, deleted, u, j as int),
        decreases conns.len() - j,
    {
        let c = &all_nm_conns[j];
        let ghost before = texts(uuids@);
        let ghost mut here_id: Option<Seq<char>> = None;
        assert(conns[j as int] == c@);
        if opt_text_is(&c.iface_type, &port) {
            if let Some(ctrl) = &c.controller {
                if contains_text(uuids_deleted, ctrl) {
                    if let Some(uuid) = &c.uuid {
                        push_unique(&mut uuids, uuid);
                        proof {
                            here_id = Some(uuid@);
                        }
                    }
                }
            }
        }
        assert forall|u: Seq<char>| #[trigger] texts(uuids@).contains(u) <==> orphan_hit(conns, deleted, u, j + 1) by {
            let here = orphaned(c@, deleted) && c@.uuid == Some(u);
            assert(here <==> here_id == Some(u));
            assert(texts(uuids@).contains(u) <==> before.contains(u) || here);
            if orphan_hit(conns, deleted, u, j + 1) {
                let w = choose|w: int| 0 <= w < j + 1 && w < conns.len() && orphaned(#[trigger] conns[w], deleted) && conns[w].uuid == Some(u);
                if w < j {
                    assert(orphan_hit(conns, deleted, u, j as int));
                }
            }
            if orphan_hit(conns, deleted, u, j as int) {
                let w = choose|w: int| 0 <= w < j && w < conns.len() && orphaned(#[trigger] conns[w], deleted) && conns[w].uuid == Some(u);
                assert(orphan_hit(conns, deleted, u, j + 1));
            }
            if here {
                assert(orphan_hit(conns, deleted, u, j + 1));
            }
        }
        j += 1;
    }
    assert(texts(uuids@).to_set() =~= orphan_ids(conns, deleted));
    uuids
}

/// The handle of the first device, from index `from` on, with the given name
/// and backend-native type.
pub open spec fn first_device(devs: Seq<NmDevice>, name: Seq<char>, ty: Seq<char>, from: int) -> Option<Seq<char>>
    decreases devs.len() - from,
{
    if from < 0 || from >= devs.len() {
        None
    } else if devs[from].name@ == name && devs[from].iface_type@ == ty {
        Some(devs[from].obj_path@)
    } else {
        first_device(devs, name, ty, from + 1)
    }
}

/// The device to delete for one interface, if any.
pub open spec fn residual_path(devs: Seq<NmDevice>, iface: MergedInterface) -> Option<Seq<char>> {
    match iface.kind {
        IfaceKind::Native(t) => if iface.residual() {
            first_device(devs, iface.name@, t@, 0)
        } else {
            None
        },
        _ => None,
    }
}

/// The handles of the devices to delete, in the order of their interfaces.
pub open spec fn residual_paths(devs: Seq<NmDevice>, ifaces: Seq<MergedInterface>) -> Seq<Seq<char>>
    decreases ifaces.len(),
{
    if ifaces.len() == 0 {
        Seq::empty()
    } else {
        let rest = residual_paths(devs, ifaces.drop_last());
        match residual_path(devs, ifaces.last()) {
            Some(p) => rest.push(p),
            None => rest,
        }
    }
}

/// Index of the first interface that may have left a device behind and whose
/// type has no backend-native name.
pub open spec fn first_unmappable(ifaces: Seq<MergedInterface>, i: int) -> bool {
    &&& 0 <= i < ifaces.len()
    &&& ifaces[i].residual()
    &&& !(ifaces[i].kind is Native)
    &&& forall|k: int| 0 <= k < i ==> !((#[trigger] ifaces[k]).residual() && !(ifaces[k].kind is Native))
}

/// Some interface that may have left a device behind has no backend-native type.
pub open spec fn has_unmappable(ifaces: Seq<MergedInterface>) -> bool {
    exists|i: int| 0 <= i < ifaces.len() && (#[trigger] ifaces[i]).residual() && !(ifaces[i].kind is Native)
}

fn find_device(nm_devs: &Vec<NmDevice>, name: &String, ty: &String) -> (r: Option<usize>)
    ensures
        match r {
            Some(i) => i < nm_devs.len() && first_device(nm_devs@, name@, ty@, 0) == Some(
                nm_devs@[i as int].obj_path@,
            ),
            None => first_device(nm_devs@, name@, ty@, 0) is None,
        },
{
    let mut i: usize = 0;
    while i < nm_devs.len()
        invariant
            i <= nm_devs.len(),
            first_device(nm_devs@, name@, ty@, 0) == first_device(nm_devs@, name@, ty@, i as int),
        decreases nm_devs.len() - i,
    {
        if same_text(&nm_devs[i].name, name) && same_text(&nm_devs[i].iface_type, ty) {
            return Some(i);
        }
        i += 1;
    }
    None
}

/// Chooses the devices to delete directly: for every kernel interface that
/// changed and is now absent or down, and is virtual, the live device of its
/// name and type, where the backend still reports one. Nothing is chosen, and
/// the error names the interface, where such an interface has no
/// backend-native type.
pub fn delete_remain_virtual_interface_as_desired(
    nm_devs: &Vec<NmDevice>,
    merged_state: &MergedNetworkState,
) -> (r: Result<Vec<String>, NmstateError>)
    ensures
        r is Err <==> has_unmappable(merged_state.interfaces@),
        match r {
            Ok(paths) => texts(paths@) == residual_paths(nm_devs@, merged_state.interfaces@),
            Err(e) => e.kind == ErrorKind::NotImplemented && exists|i: int|
                #[trigger] first_unmappable(merged_state.interfaces@, i) && e.msg@
                    == merged_state.interfaces@[i].name@,
        },
{
    let ghost ifaces = merged_state.interfaces@;
    let mut paths: Vec<String> = Vec::new();
    let mut i: usize = 0;
    assert(ifaces.take(0) =~= Seq::empty());
    assert(texts(paths@) =~= Seq::empty());
    while i < merged_state.interfaces.len()
        invariant
            i <= ifaces.len(),
            ifaces == merged_state.interfaces@,
            forall|k: int| 0 <= k < i ==> !((#[trigger] ifaces[k]).residual() && !(ifaces[k].kind is Native)),
            texts(paths@) == residual_paths(nm_devs@, ifaces.take(i as int)),
        decreases ifaces.len() - i,
    {
        let iface = &merged_state.interfaces[i];
        let ghost before = texts(paths@);
        proof {
            assert(ifaces.take(i + 1).drop_last() =~= ifaces.take(i as int));
            assert(ifaces.take(i + 1).last() == *iface);
        }
        if iface.kernel && iface.changed && (iface.absent || iface.down) && iface.is_virtual {
            match &iface.kind {
                IfaceKind::Native(t) => {
                    if let Some(d) = find_device(nm_devs, &iface.name, t) {
                        paths.push(nm_devs[d].obj_path.clone());
                        assert(texts(paths@) =~= before.push(nm_devs@[d as int].obj_path@));
                    }
                },
                _ => {
                    assert(first_unmappable(ifaces, i as int));
                    return Err(NmstateError { kind: ErrorKind::NotImplemented, msg: iface.name.clone() });
                },
            }
        }
        i += 1;
    }
    assert(ifaces.take(i as int) =~= ifaces);
    Ok(paths)
}

/// Where the type of an interface to remove is not known, every profile of
/// its name is deleted, whatever the profile's type.
pub proof fn lemma_unknown_type_deletes_by_name(
    conns: Seq<ConnView>,
    ifaces: Seq<MergedInterface>,
    i: int,
    j: int,
)
    requires
        0 <= i < ifaces.len(),
        0 <= j < conns.len(),
        ifaces[i].to_remove(),
        ifaces[i].kind is Unknown,
        conns[j].iface_name == Some(ifaces[i].name@),
        conns[j].uuid is Some,
    ensures
        absent_ids(conns, ifaces).contains(conns[j].uuid->0),
{
    let u = conns[j].uuid->0;
    assert(selects(ifaces[i], conns[j]) && marks(conns[j], u));
    assert(hit(conns, ifaces[i], u, conns.len() as int));
    assert(hit_any(conns, ifaces, u, ifaces.len() as int));
}

/// A selected member of a port group takes the group with it.
pub proof fn lemma_member_takes_port_group(
    conns: Seq<ConnView>,
    ifaces: Seq<MergedInterface>,
    i: int,
    j: int,
)
    requires
        0 <= i < ifaces.len(),
        0 <= j < conns.len(),
        ifaces[i].to_remove(),
        selects(ifaces[i], conns[j]),
        conns[j].controller_type == Some(port_kind()),
        conns[j].controller is Some,
    ensures
        absent_ids(conns, ifaces).contains(conns[j].controller->0),
{
    let u = conns[j].controller->0;
    assert(marks(conns[j], u));
    assert(hit(conns, ifaces[i], u, conns.len() as int));
    assert(hit_any(conns, ifaces, u, ifaces.len() as int));
}

/// Every port profile whose controller was deleted is chosen by the sweep,
/// and once the chosen ones are gone a second sweep finds nothing: whatever
/// inventory `rest` remains, made of profiles that were there before and none
/// of them bearing a chosen identity, has no orphan with an identity.
pub proof fn lemma_orphan_sweep_closed(
    conns: Seq<ConnView>,
    deleted: Seq<Seq<char>>,
    rest: Seq<ConnView>,
)
    requires
        forall|k: int| 0 <= k < rest.len() ==> conns.contains(#[trigger] rest[k]),
        forall|k: int| 0 <= k < rest.len() && (#[trigger] rest[k]).uuid is Some ==> !orphan_ids(conns, deleted).contains(rest[k].uuid->0),
    ensures
        forall|j: int| 0 <= j < conns.len() && orphaned(#[trigger] conns[j], deleted) && conns[j].uuid is Some
            ==> orphan_ids(conns, deleted).contains(conns[j].uuid->0),
        orphan_ids(rest, deleted) == Set::<Seq<char>>::empty(),
{
    assert forall|j: int| 0 <= j < conns.len() && orphaned(#[trigger] conns[j], deleted) && conns[j].uuid is Some
        implies orphan_ids(conns, deleted).contains(conns[j].uuid->0) by {
        assert(orphan_hit(conns, deleted, conns[j].uuid->0, conns.len() as int));
    }
    assert forall|u: Seq<char>| !orphan_ids(rest, deleted).contains(u) by {
        if orphan_hit(rest, deleted, u, rest.len() as int) {
            let k = choose|k: int| 0 <= k < rest.len() && orphaned(#[trigger] rest[k], deleted) && rest[k].uuid == Some(u);
            assert(conns.contains(rest[k]));
            let j = choose|j: int| 0 <= j < conns.len() && conns[j] == rest[k];
            assert(orphan_hit(conns, deleted, u, conns.len() as int));
            assert(orphan_ids(conns, deleted).contains(u));
        }
    }
    assert(orphan_ids(rest, deleted) =~= Set::<Seq<char>>::empty());
}

/// With no interface to remove, or an inventory in which no profile belongs
/// to one, nothing is deleted.
pub proof fn lemma_converged_deletes_nothing(conns: Seq<ConnView>, ifaces: Seq<MergedInterface>)
    requires
        forall|i: int, j: int|
            0 <= i < ifaces.len() && 0 <= j < conns.len() && (#[trigger] ifaces[i]).to_remove()
                ==> !selects(ifaces[i], #[trigger] conns[j]),
    ensures
        absent_ids(conns, ifaces) == Set::<Seq<char>>::empty(),
{
    assert forall|u: Seq<char>| !absent_ids(conns, ifaces).contains(u) by {
        if hit_any(conns, ifaces, u, ifaces.len() as int) {
            let i = choose|i: int|
                0 <= i < ifaces.len() && (#[trigger] ifaces[i]).to_remove() && hit(
                    conns,
                    ifaces[i],
                    u,
                    conns.len() as int,
                );
            let j = choose|j: int| 0 <= j < conns.len() && selects(ifaces[i], #[trigger] conns[j]) && marks(conns[j], u);
            assert(false);
        }
    }
    assert(absent_ids(conns, ifaces) =~= Set::<Seq<char>>::empty());
}

/// A second pass after the first deletes nothing: where every selected
/// profile has an identity, an inventory `rest` made of profiles that were
/// there before, none of them bearing a deleted identity, holds no profile of
/// an interface to remove.
pub proof fn lemma_second_pass_deletes_nothing(
    conns: Seq<ConnView>,
    ifaces: Seq<MergedInterface>,
    rest: Seq<ConnView>,
)
    requires
        forall|k: int| 0 <= k < rest.len() ==> conns.contains(#[trigger] rest[k]),
        forall|k: int| 0 <= k < rest.len() && (#[trigger] rest[k]).uuid is Some ==> !absent_ids(conns, ifaces).contains(rest[k].uuid->0),
        forall|i: int, j: int|
            0 <= i < ifaces.len() && 0 <= j < conns.len() && (#[trigger] ifaces[i]).to_remove() && selects(
                ifaces[i],
                #[trigger] conns[j],
            ) ==> conns[j].uuid is Some,
    ensures
        absent_ids(rest, ifaces) == Set::<Seq<char>>::empty(),
{
    assert forall|i: int, k: int|
        0 <= i < ifaces.len() && 0 <= k < rest.len() && (#[trigger] ifaces[i]).to_remove() implies !selects(
        ifaces[i],
        #[trigger] rest[k],
    ) by {
        if selects(ifaces[i], rest[k]) {
            assert(conns.contains(rest[k]));
            let j = choose|j: int| 0 <= j < conns.len() && conns[j] == rest[k];
            let u = conns[j].uuid->0;
            assert(marks(conns[j], u));
            assert(hit(conns, ifaces[i], u, conns.len() as int));
            assert(hit_any(conns, ifaces, u, ifaces.len() as int));
            assert(absent_ids(conns, ifaces).contains(u));
        }
    }
    lemma_converged_deletes_nothing(rest, ifaces);
}

/// What `first_device` finds is the handle of a device of that name and
/// type; it finds one whenever there is one.
pub proof fn lemma_first_device(devs: Seq<NmDevice>, name: Seq<char>, ty: Seq<char>, from: int)
    requires
        0 <= from,
    ensures
        match first_device(devs, name, ty, from) {
            Some(p) => exists|d: int|
                from <= d < devs.len() && (#[trigger] devs[d]).name@ == name && devs[d].iface_type@ == ty
                    && devs[d].obj_path@ == p,
            None => forall|d: int|
                from <= d < devs.len() ==> !((#[trigger] devs[d]).name@ == name && devs[d].iface_type@ == ty),
        },
    decreases devs.len() - from,
{
    if from < devs.len() {
        if devs[from].name@ == name && devs[from].iface_type@ == ty {
        } else {
            lemma_first_device(devs, name, ty, from + 1);
        }
    }
}

/// The device chosen for an interface is among the devices to delete.
pub proof fn lemma_residual_member(devs: Seq<NmDevice>, ifaces: Seq<MergedInterface>, i: int)
    requires
        0 <= i < ifaces.len(),
        residual_path(devs, ifaces[i]) is Some,
    ensures
        residual_paths(devs, ifaces).contains(residual_path(devs, ifaces[i])->0),
    decreases ifaces.len(),
{
    let rest = residual_paths(devs, ifaces.drop_last());
    let p = residual_path(devs, ifaces[i])->0;
    if i == ifaces.len() - 1 {
        assert(rest.push(p)[rest.len() as int] == p);
    } else {
        assert(ifaces.drop_last()[i] == ifaces[i]);
        lemma_residual_member(devs, ifaces.drop_last(), i);
        let k = choose|k: int| 0 <= k < rest.len() && rest[k] == p;
        match residual_path(devs, ifaces.last()) {
            Some(q) => {
                assert(rest.push(q)[k] == p);
            },
            None => {},
        }
    }
}

/// Every device to delete was chosen for some interface.
pub proof fn lemma_residual_source(devs: Seq<NmDevice>, ifaces: Seq<MergedInterface>, k: int)
    requires
        0 <= k < residual_paths(devs, ifaces).len(),
    ensures
        exists|i: int|
            0 <= i < ifaces.len() && residual_path(devs, #[trigger] ifaces[i]) == Some(
                residual_paths(devs, ifaces)[k],
            ),
    decreases ifaces.len(),
{
    let rest = residual_paths(devs, ifaces.drop_last());
    if k < rest.len() {
        lemma_residual_source(devs, ifaces.drop_last(), k);
        let i = choose|i: int|
            0 <= i < ifaces.drop_last().len() && residual_path(devs, #[trigger] ifaces.drop_last()[i]) == Some(
                rest[k],
            );
        assert(ifaces[i] == ifaces.drop_last()[i]);
    } else {
        assert(residual_path(devs, ifaces[ifaces.len() - 1]) == Some(residual_paths(devs, ifaces)[k]));
    }
}

/// For an interface that changed, is absent or down, is kernel-backed and
/// virtual, and has a backend-native type: where the backend still reports a
/// device of its name and type, a device of that name and type is among
/// those to delete; where it reports none, none is chosen for it.
pub proof fn lemma_leftover_device_is_deleted(devs: Seq<NmDevice>, ifaces: Seq<MergedInterface>, i: int)
    requires
        0 <= i < ifaces.len(),
        ifaces[i].residual(),
        ifaces[i].kind is Native,
    ensures
        ({
            let name = ifaces[i].name@;
            let ty = ifaces[i].kind->Native_0@;
            let live = exists|d: int|
                0 <= d < devs.len() && (#[trigger] devs[d]).name@ == name && devs[d].iface_type@ == ty;
            &&& live ==> exists|d: int|
                0 <= d < devs.len() && (#[trigger] devs[d]).name@ == name && devs[d].iface_type@ == ty
                    && residual_paths(devs, ifaces).contains(devs[d].obj_path@)
            &&& !live ==> residual_path(devs, ifaces[i]) is None
        }),
{
    let name = ifaces[i].name@;
    let ty = ifaces[i].kind->Native_0@;
    lemma_first_device(devs, name, ty, 0);
    if residual_path(devs, ifaces[i]) is Some {
        lemma_residual_member(devs, ifaces, i);
    }
}

} // verus!
