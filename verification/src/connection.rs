//! Open connections, keyed by connection id.
use vstd::prelude::*;
use std::collections::HashMap;
use vstd::std_specs::iter::IteratorSpec;
use crate::comm::{ostr, clone_opt, ConnectionSummary, ConnectionSummaryView, Request, Response, ResponseView};

verus! {

broadcast use vstd::std_specs::hash::group_hash_axioms;

/// One open connection.
pub struct ConnectionInfo {
    pub id: u64,
    pub remote_addr: Option<String>,
    pub session_token: Option<String>,
    pub authenticated: bool,
}

/// How a connection is listed.
pub open spec fn connection_summary(c: ConnectionInfo) -> ConnectionSummaryView {
    ConnectionSummaryView {
        id: c.id,
        remote_addr: ostr(c.remote_addr),
        session_token: ostr(c.session_token),
        authenticated: c.authenticated,
    }
}

/// The open connections of a server, by id.
pub type ConnectionStore = HashMap<u64, ConnectionInfo>;

/// An empty store of connections.
pub fn create_connection_store() -> (r: ConnectionStore)
    ensures
        r@ == Map::<u64, ConnectionInfo>::empty(),
{
    HashMap::new()
}

/// A new connection with id `id`, seen from `remote` (its address in text),
/// not yet tied to a session.
pub fn make_connection_info(id: u64, remote: Option<String>) -> (r: ConnectionInfo)
    ensures
        r.id == id,
        ostr(r.remote_addr) == ostr(remote),
        r.session_token is None,
        !r.authenticated,
{
    ConnectionInfo { id, remote_addr: remote, session_token: None, authenticated: false }
}

/// Records a connection that has just been accepted.
pub fn register_connection(store: &mut ConnectionStore, id: u64, remote: Option<String>)
    ensures
        final(store)@.contains_key(id),
        final(store)@.remove(id) == old(store)@.remove(id),
        final(store)@[id].id == id,
        ostr(final(store)@[id].remote_addr) == ostr(remote),
        final(store)@[id].session_token is None,
        !final(store)@[id].authenticated,
{
    store.insert(id, make_connection_info(id, remote));
    proof {
        assert(store@.remove(id) =~= old(store)@.remove(id));
    }
}

/// Forgets a connection that has closed.
pub fn unregister_connection(store: &mut ConnectionStore, id: u64)
    ensures
        final(store)@ == old(store)@.remove(id),
{
    store.remove(&id);
}

/// Every open connection, summarized, each once.
pub fn connection_summaries(store: &ConnectionStore) -> (r: Vec<ConnectionSummary>)
    ensures
        r@.len() == store@.len(),
        exists|ids: Seq<u64>| {
            &&& ids.len() == r@.len()
            &&& ids.no_duplicates()
            &&& forall|i: int| 0 <= i < ids.len() ==> store@.contains_key(#[trigger] ids[i]) && r@[i]@ == connection_summary(store@[ids[i]])
            &&& forall|k: u64| #[trigger] store@.contains_key(k) ==> ids.contains(k)
        },
{
    let mut out: Vec<ConnectionSummary> = Vec::new();
    let ghost mut ids: Seq<u64> = Seq::empty();
    for (k, c) in it: store.iter()
        invariant
            it.seq() == vstd::std_specs::hash::spec_hash_map_iter(store).remaining(),
            out@.len() == it.index(),
            ids.len() == it.index(),
            forall|i: int| 0 <= i < ids.len() ==> ids[i] == *it.seq()[i].0,
            forall|i: int| 0 <= i < ids.len() ==> (#[trigger] out@[i])@ == connection_summary(*it.seq()[i].1),
    {
        out.push(ConnectionSummary {
            id: c.id,
            remote_addr: clone_opt(&c.remote_addr),
            session_token: clone_opt(&c.session_token),
            authenticated: c.authenticated,
        });
        proof { ids = ids.push(*k); }
    }
    proof {
        let v = vstd::std_specs::hash::spec_hash_map_iter(store).remaining();
        assert(v.len() == store@.dom().len());
        assert(ids.len() == v.len());
        assert(out@.len() == store@.len());
        assert forall|i: int| 0 <= i < ids.len() implies store@.contains_key(#[trigger] ids[i]) && out@[i]@ == connection_summary(store@[ids[i]]) by {
            assert(store@.contains_key(*v[i].0) && store@[*v[i].0] == *v[i].1);
        }
        assert forall|k: u64| #[trigger] store@.contains_key(k) implies ids.contains(k) by {
            assert(v.contains((&k, &store@[k])));
            let i = choose|i: int| 0 <= i < v.len() && v[i] == (&k, &store@[k]);
            assert(ids[i] == k);
        }
        assert forall|i: int, j: int| 0 <= i < ids.len() && 0 <= j < ids.len() && i != j implies ids[i] != ids[j] by {
            if ids[i] == ids[j] {
                assert(store@[*v[i].0] == *v[i].1);
                assert(store@[*v[j].0] == *v[j].1);
                assert(v[i] == v[j]);
            }
        }
        assert(ids.no_duplicates());
    }
    out
}

/// `CONNECTION_LIST`: every open connection and how many there are.
pub fn handle_connection_list(_req: &Request, connections: &ConnectionStore) -> (r: Response)
    ensures
        r@.cmd == "CONNECTION_LIST"@,
        r@.status == "OK"@,
        r@.msg == Some("Active connections"@),
        r@.total == Some(connections@.len() as u64),
        r@.connections matches Some(list) && list.len() == connections@.len()
            && exists|ids: Seq<u64>| {
                &&& ids.len() == list.len()
                &&& ids.no_duplicates()
                &&& forall|i: int| 0 <= i < ids.len() ==> connections@.contains_key(#[trigger] ids[i]) && list[i] == connection_summary(connections@[ids[i]])
                &&& forall|k: u64| #[trigger] connections@.contains_key(k) ==> ids.contains(k)
            },
        r@ == ResponseView::ok("CONNECTION_LIST"@).with_msg("Active connections"@)
            .with_connections(r@.connections->0).with_total(connections@.len() as u64),
{
    let list = connection_summaries(connections);
    let total = list.len() as u64;
    Response::ok("CONNECTION_LIST")
        .with_msg("Active connections")
        .with_connections(list)
        .with_total(total)
}

} // verus!

verus! {

/// Registering a connection and then unregistering it leaves every other
/// connection as it was.
pub proof fn law_register_then_unregister(before: Map<u64, ConnectionInfo>, registered: Map<u64, ConnectionInfo>, after: Map<u64, ConnectionInfo>, id: u64)
    requires
        registered.contains_key(id),
        registered.remove(id) == before.remove(id),
        after == registered.remove(id),
    ensures
        after == before.remove(id),
{
}

} // verus!
