//! The wiring of the simulated network: the core hands out an identifier to
//! each endpoint it creates, records which endpoints are connected, and decides
//! which endpoints a frame sent by one of them reaches.
use std::collections::HashMap;
use vstd::prelude::*;

verus! {

broadcast use vstd::std_specs::hash::group_hash_axioms;

/// The identifier of an endpoint.
pub type Uuid = usize;

/// The core's state: the identifier the next endpoint gets, and for each
/// endpoint the endpoints wired to it, in the order they were connected.
/// Endpoints `0 .. next_uuid` are the ones created so far.
pub struct CoreActorState {
    pub next_uuid: Uuid,
    pub connections: HashMap<Uuid, Vec<Uuid>>,
}

/// The wiring table seen as a map from an endpoint to its peers.
pub open spec fn connections_view(m: Map<Uuid, Vec<Uuid>>) -> Map<Uuid, Seq<Uuid>> {
    m.map_values(|peers: Vec<Uuid>| peers@)
}

/// The peers wired to `e`: empty when `e` has none.
pub open spec fn peers_of(conn: Map<Uuid, Seq<Uuid>>, e: Uuid) -> Seq<Uuid> {
    if conn.contains_key(e) {
        conn[e]
    } else {
        Seq::empty()
    }
}

/// The wiring after `b` is added at the end of `a`'s peers.
pub open spec fn link(conn: Map<Uuid, Seq<Uuid>>, a: Uuid, b: Uuid) -> Map<Uuid, Seq<Uuid>> {
    conn.insert(a, peers_of(conn, a).push(b))
}

/// The wiring after `connect(a, b)`: each end is added to the other's peers.
pub open spec fn connect_spec(conn: Map<Uuid, Seq<Uuid>>, a: Uuid, b: Uuid) -> Map<Uuid, Seq<Uuid>> {
    link(link(conn, a, b), b, a)
}

/// The entries of `peers` that name created endpoints (those below `next`), in order.
pub open spec fn created_only(peers: Seq<Uuid>, next: Uuid) -> Seq<Uuid>
    decreases peers.len(),
{
    if peers.len() == 0 {
        Seq::empty()
    } else {
        let rest = created_only(peers.drop_last(), next);
        if peers.last() < next {
            rest.push(peers.last())
        } else {
            rest
        }
    }
}

impl CoreActorState {
    pub open spec fn view_connections(&self) -> Map<Uuid, Seq<Uuid>> {
        connections_view(self.connections@)
    }

    /// The state of a core that has just started: no endpoint, no wire.
    pub fn new() -> (s: CoreActorState)
        ensures
            s.next_uuid == 0,
            s.view_connections() == Map::<Uuid, Seq<Uuid>>::empty(),
    {
        let s = CoreActorState { next_uuid: 0, connections: HashMap::new() };
        assert(s.view_connections() =~= Map::<Uuid, Seq<Uuid>>::empty());
        s
    }

    /// A new endpoint is created: it gets the next identifier, which no earlier
    /// endpoint has.
    pub fn create_endpoint(&mut self) -> (uuid: Uuid)
        requires
            old(self).next_uuid < usize::MAX,
        ensures
            uuid == old(self).next_uuid,
            final(self).next_uuid == old(self).next_uuid + 1,
            final(self).connections@ == old(self).connections@,
    {
        let uuid = self.next_uuid;
        self.next_uuid = self.next_uuid + 1;
        uuid
    }

    /// Adds `b` at the end of `a`'s peers.
    fn add_peer(&mut self, a: Uuid, b: Uuid)
        ensures
            final(self).next_uuid == old(self).next_uuid,
            final(self).view_connections() == link(old(self).view_connections(), a, b),
    {
        let ghost before = self.connections@;
        let mut peers = match self.connections.remove(&a) {
            Some(p) => p,
            None => Vec::new(),
        };
        assert(peers@ == peers_of(connections_view(before), a));
        peers.push(b);
        self.connections.insert(a, peers);
        assert(self.view_connections() =~= link(connections_view(before), a, b));
    }

    /// Wires `e0` and `e1` together: each becomes a peer of the other.
    pub fn connect(&mut self, e0: Uuid, e1: Uuid)
        ensures
            final(self).next_uuid == old(self).next_uuid,
            final(self).view_connections() == connect_spec(old(self).view_connections(), e0, e1),
    {
        self.add_peer(e0, e1);
        self.add_peer(e1, e0);
    }

    /// The endpoints that a frame sent by `uuid` reaches: its peers that exist,
    /// in the order they were connected.
    pub fn send_targets(&self, uuid: Uuid) -> (targets: Vec<Uuid>)
        ensures
            targets@ == created_only(peers_of(self.view_connections(), uuid), self.next_uuid),
    {
        let mut targets: Vec<Uuid> = Vec::new();
        match self.connections.get(&uuid) {
            Some(peers) => {
                let n = peers.len();
                let mut i: usize = 0;
                while i < n
                    invariant
                        i <= n,
                        n == peers@.len(),
                        targets@ == created_only(peers@.take(i as int), self.next_uuid),
                    decreases n - i,
                {
                    let t = peers[i];
                    assert(peers@.take(i + 1).drop_last() =~= peers@.take(i as int));
                    if t < self.next_uuid {
                        targets.push(t);
                    }
                    i = i + 1;
                }
                assert(peers@.take(n as int) =~= peers@);
            },
            None => {},
        }
        targets
    }
}

/// `created_only` keeps exactly the entries that name created endpoints.
pub proof fn created_only_contains(peers: Seq<Uuid>, next: Uuid, x: Uuid)
    ensures
        created_only(peers, next).contains(x) <==> (peers.contains(x) && x < next),
    decreases peers.len(),
{
    if peers.len() > 0 {
        created_only_contains(peers.drop_last(), next, x);
        let rest = created_only(peers.drop_last(), next);
        assert(peers =~= peers.drop_last().push(peers.last()));
        if peers.last() < next {
            assert(rest.push(peers.last()).last() == peers.last());
            if rest.contains(x) {
                let k = choose|k: int| 0 <= k < rest.len() && rest[k] == x;
                assert(rest.push(peers.last())[k] == x);
            }
        }
        if peers.contains(x) && x != peers.last() {
            let k = choose|k: int| 0 <= k < peers.len() && peers[k] == x;
            assert(peers.drop_last()[k] == x);
        }
        if peers.drop_last().contains(x) {
            let k = choose|k: int| 0 <= k < peers.drop_last().len() && peers.drop_last()[k] == x;
            assert(peers[k] == x);
        }
    }
}

/// Connecting two created endpoints lets each reach the other: a frame sent by
/// either afterwards is delivered to the other.
pub proof fn connected_endpoints_reach_each_other(
    conn: Map<Uuid, Seq<Uuid>>,
    next: Uuid,
    a: Uuid,
    b: Uuid,
)
    requires
        a < next,
        b < next,
    ensures
        created_only(peers_of(connect_spec(conn, a, b), a), next).contains(b),
        created_only(peers_of(connect_spec(conn, a, b), b), next).contains(a),
{
    let c = connect_spec(conn, a, b);
    let pa = peers_of(c, a);
    let pb = peers_of(c, b);
    assert(pb.last() == a);
    assert(pb.contains(a));
    if a == b {
        assert(pa.contains(b));
    } else {
        assert(pa == peers_of(conn, a).push(b));
        assert(pa.last() == b);
        assert(pa.contains(b));
    }
    created_only_contains(pa, next, b);
    created_only_contains(pb, next, a);
}

/// A frame only ever reaches created endpoints that are wired to its sender.
pub proof fn targets_are_created_peers(conn: Map<Uuid, Seq<Uuid>>, next: Uuid, sender: Uuid, t: Uuid)
    requires
        created_only(peers_of(conn, sender), next).contains(t),
    ensures
        t < next,
        peers_of(conn, sender).contains(t),
{
    created_only_contains(peers_of(conn, sender), next, t);
}

/// The wiring table is seen entry for entry: an endpoint's peers in the view are
/// exactly the peers listed in the table, in order.
pub proof fn connections_view_keeps_every_list(m: Map<Uuid, Vec<Uuid>>, e: Uuid)
    ensures
        connections_view(m).contains_key(e) <==> m.contains_key(e),
        m.contains_key(e) ==> connections_view(m)[e] == m[e]@,
{
}

/// Connecting `a` and `b` keeps every existing wire: `a`'s peers are its old
/// peers followed by `b`, and `b`'s old peers followed by `a` (both, in that
/// order, when `a` and `b` are the same endpoint); no other endpoint's peers change.
pub proof fn connect_only_adds_the_new_wire(conn: Map<Uuid, Seq<Uuid>>, a: Uuid, b: Uuid)
    ensures
        a != b ==> peers_of(connect_spec(conn, a, b), a) == peers_of(conn, a).push(b),
        a != b ==> peers_of(connect_spec(conn, a, b), b) == peers_of(conn, b).push(a),
        a == b ==> peers_of(connect_spec(conn, a, b), a) == peers_of(conn, a).push(b).push(a),
        forall|e: Uuid|
            e != a && e != b ==> #[trigger] peers_of(connect_spec(conn, a, b), e) == peers_of(conn, e),
{
}

/// When every peer of a sender has been created, a frame reaches all of them,
/// in the order they were connected.
pub proof fn all_created_peers_are_reached(peers: Seq<Uuid>, next: Uuid)
    requires
        forall|i: int| 0 <= i < peers.len() ==> #[trigger] peers[i] < next,
    ensures
        created_only(peers, next) == peers,
    decreases peers.len(),
{
    if peers.len() > 0 {
        let init = peers.drop_last();
        assert forall|i: int| 0 <= i < init.len() implies #[trigger] init[i] < next by {
            assert(init[i] == peers[i]);
        }
        all_created_peers_are_reached(init, next);
        assert(init.push(peers.last()) =~= peers);
    }
}

} // verus!
