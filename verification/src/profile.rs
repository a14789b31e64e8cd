//! Connection profiles as the backend holds them, reduced to what the
//! reconciliation reads.
use vstd::prelude::*;
use crate::text::{opt_text, texts, copy_opt_text, copy_texts};

verus! {

/// The VLAN settings of a profile.
#[derive(Debug)]
pub struct NmSettingVlan {
    pub parent: String,
    pub id: u32,
}

/// The VXLAN settings of a profile.
#[derive(Debug)]
pub struct NmSettingVxlan {
    pub parent: String,
    pub id: u32,
    pub remote: String,
    pub dst_port: u32,
}

/// One connection profile of the backend.
#[derive(Debug)]
pub struct NmConnection {
    /// Human-readable label; no decision depends on it.
    pub id: String,
    /// Identity assigned by the backend.
    pub uuid: Option<String>,
    pub iface_name: Option<String>,
    /// Backend-native type name.
    pub iface_type: Option<String>,
    /// Identity of the profile this one is subordinate to.
    pub controller: Option<String>,
    /// Backend-native type name of the controller.
    pub controller_type: Option<String>,
    /// Static routes, each in its canonical text form.
    pub routes: Vec<String>,
    pub vrf_table_id: Option<u32>,
    pub vlan: Option<NmSettingVlan>,
    pub vxlan: Option<NmSettingVxlan>,
    pub veth_peer: Option<String>,
    pub mptcp_flags: Option<u32>,
}

/// Mathematical value of a connection profile.
pub struct ConnView {
    pub id: Seq<char>,
    pub uuid: Option<Seq<char>>,
    pub iface_name: Option<Seq<char>>,
    pub iface_type: Option<Seq<char>>,
    pub controller: Option<Seq<char>>,
    pub controller_type: Option<Seq<char>>,
    pub routes: Seq<Seq<char>>,
    pub vrf_table_id: Option<u32>,
    pub vlan: Option<(Seq<char>, u32)>,
    pub vxlan: Option<(Seq<char>, u32, Seq<char>, u32)>,
    pub veth_peer: Option<Seq<char>>,
    pub mptcp_flags: Option<u32>,
}

/// Backend-native type name of a virtual-switch port profile.
pub open spec fn port_kind() -> Seq<char> {
    "ovs-port"@
}

/// Backend-native type name of a virtual-switch port profile.
pub fn port_kind_name() -> (r: String)
    ensures
        r@ == port_kind(),
{
    "ovs-port".to_owned()
}

/// Mathematical value of optional VLAN settings: parent and identifier.
pub open spec fn vlan_view(o: Option<NmSettingVlan>) -> Option<(Seq<char>, u32)> {
    match o {
        Some(v) => Some((v.parent@, v.id)),
        None => None,
    }
}

/// Mathematical value of optional VXLAN settings: parent, identifier,
/// remote and destination port.
pub open spec fn vxlan_view(o: Option<NmSettingVxlan>) -> Option<(Seq<char>, u32, Seq<char>, u32)> {
    match o {
        Some(v) => Some((v.parent@, v.id, v.remote@, v.dst_port)),
        None => None,
    }
}

impl View for NmConnection {
    type V = ConnView;

    open spec fn view(&self) -> ConnView {
        ConnView {
            id: self.id@,
            uuid: opt_text(self.uuid),
            iface_name: opt_text(self.iface_name),
            iface_type: opt_text(self.iface_type),
            controller: opt_text(self.controller),
            controller_type: opt_text(self.controller_type),
            routes: texts(self.routes@),
            vrf_table_id: self.vrf_table_id,
            vlan: vlan_view(self.vlan),
            vxlan: vxlan_view(self.vxlan),
            veth_peer: opt_text(self.veth_peer),
            mptcp_flags: self.mptcp_flags,
        }
    }
}

/// The mathematical values of a list of profiles.
pub open spec fn conn_views(s: Seq<NmConnection>) -> Seq<ConnView> {
    s.map_values(|c: NmConnection| c@)
}

impl NmConnection {
    /// A profile with the given label and nothing else set.
    pub fn new(id: String) -> (r: Self)
        ensures
            r@ == (ConnView {
                id: id@,
                uuid: None,
                iface_name: None,
                iface_type: None,
                controller: None,
                controller_type: None,
                routes: Seq::empty(),
                vrf_table_id: None,
                vlan: None,
                vxlan: None,
                veth_peer: None,
                mptcp_flags: None,
            }),
    {
        let r = NmConnection {
            id,
            uuid: None,
            iface_name: None,
            iface_type: None,
            controller: None,
            controller_type: None,
            routes: Vec::new(),
            vrf_table_id: None,
            vlan: None,
            vxlan: None,
            veth_peer: None,
            mptcp_flags: None,
        };
        assert(r@.routes =~= Seq::empty());
        r
    }
}

impl Clone for NmSettingVlan {
    fn clone(&self) -> (r: Self)
        ensures
            r.parent@ == self.parent@,
            r.id == self.id,
    {
        NmSettingVlan { parent: self.parent.clone(), id: self.id }
    }
}

impl Clone for NmSettingVxlan {
    fn clone(&self) -> (r: Self)
        ensures
            r.parent@ == self.parent@,
            r.id == self.id,
            r.remote@ == self.remote@,
            r.dst_port == self.dst_port,
    {
        NmSettingVxlan {
            parent: self.parent.clone(),
            id: self.id,
            remote: self.remote.clone(),
            dst_port: self.dst_port,
        }
    }
}

impl Clone for NmConnection {
    fn clone(&self) -> (r: Self)
        ensures
            r@ == self@,
    {
        let vlan = match &self.vlan {
            Some(v) => Some(v.clone()),
            None => None,
        };
        let vxlan = match &self.vxlan {
            Some(v) => Some(v.clone()),
            None => None,
        };
        NmConnection {
            id: self.id.clone(),
            uuid: copy_opt_text(&self.uuid),
            iface_name: copy_opt_text(&self.iface_name),
            iface_type: copy_opt_text(&self.iface_type),
            controller: copy_opt_text(&self.controller),
            controller_type: copy_opt_text(&self.controller_type),
            routes: copy_texts(&self.routes),
            vrf_table_id: self.vrf_table_id,
            vlan,
            vxlan,
            veth_peer: copy_opt_text(&self.veth_peer),
            mptcp_flags: self.mptcp_flags,
        }
    }
}

/// A copy of a list of profiles.
pub fn copy_conns(v: &Vec<NmConnection>) -> (r: Vec<NmConnection>)
    ensures
        conn_views(r@) == conn_views(v@),
{
    let mut out: Vec<NmConnection> = Vec::new();
    let mut i: usize = 0;
    while i < v.len()
        invariant
            i <= v.len(),
            out@.len() == i,
            forall|k: int| 0 <= k < i ==> out@[k]@ == v@[k]@,
        decreases v.len() - i,
    {
        out.push(v[i].clone());
        i += 1;
    }
    assert(conn_views(out@) =~= conn_views(v@));
    out
}

/// The backend's record that a profile is applied to a live interface.
#[derive(Debug)]
pub struct NmActiveConnection {
    /// Identity of the profile that is live.
    pub uuid: String,
    pub iface_name: String,
    /// Backend-native type name.
    pub iface_type: String,
    pub state_flags: u32,
}

/// Mathematical value of an active connection: profile identity, interface
/// name, type name and state flags.
pub open spec fn ac_view(a: NmActiveConnection) -> (Seq<char>, Seq<char>, Seq<char>, u32) {
    (a.uuid@, a.iface_name@, a.iface_type@, a.state_flags)
}

/// The mathematical values of a list of active connections.
pub open spec fn ac_views(s: Seq<NmActiveConnection>) -> Seq<(Seq<char>, Seq<char>, Seq<char>, u32)> {
    s.map_values(|a: NmActiveConnection| ac_view(a))
}

/// The profile identities that are live, in the order of the list.
pub open spec fn ac_uuids(s: Seq<NmActiveConnection>) -> Seq<Seq<char>> {
    s.map_values(|a: NmActiveConnection| a.uuid@)
}

impl Clone for NmActiveConnection {
    fn clone(&self) -> (r: Self)
        ensures
            ac_view(r) == ac_view(*self),
    {
        NmActiveConnection {
            uuid: self.uuid.clone(),
            iface_name: self.iface_name.clone(),
            iface_type: self.iface_type.clone(),
            state_flags: self.state_flags,
        }
    }
}

/// A copy of a list of active connections.
pub fn copy_acs(v: &Vec<NmActiveConnection>) -> (r: Vec<NmActiveConnection>)
    ensures
        ac_views(r@) == ac_views(v@),
{
    let mut out: Vec<NmActiveConnection> = Vec::new();
    let mut i: usize = 0;
    while i < v.len()
        invariant
            i <= v.len(),
            out@.len() == i,
            forall|k: int| 0 <= k < i ==> ac_view(out@[k]) == ac_view(v@[k]),
        decreases v.len() - i,
    {
        out.push(v[i].clone());
        i += 1;
    }
    assert(ac_views(out@) =~= ac_views(v@));
    out
}

/// The profile identities of a list of active connections.
pub fn nm_ac_uuids(v: &Vec<NmActiveConnection>) -> (r: Vec<String>)
    ensures
        texts(r@) == ac_uuids(v@),
{
    let mut out: Vec<String> = Vec::new();
    let mut i: usize = 0;
    while i < v.len()
        invariant
            i <= v.len(),
            out@.len() == i,
            forall|k: int| 0 <= k < i ==> out@[k]@ == v@[k].uuid@,
        decreases v.len() - i,
    {
        out.push(v[i].uuid.clone());
        i += 1;
    }
    assert(texts(out@) =~= ac_uuids(v@));
    out
}

} // verus!
