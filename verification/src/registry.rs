//! The verified core of the registry client: key encoding, the per-node
//! registration procedure's decisions, the deregistration cache rules,
//! and the read-side aggregation of stored records into logical services.
//!
//! The coordination store itself is driven by the thin client shell in
//! front of this crate: that shell performs the reads, writes, lease
//! calls and scans, and hands the plain results to the functions here,
//! which make every decision.

use vstd::prelude::*;
use vstd::string::StringExecFns;
use crate::digest::node_digest;
use crate::errors::Status;
use crate::options::RegisterOptions;
use crate::options::WatchOptions;
use crate::text::lex_lt;
use crate::text::lemma_lex_lt_connected;
use crate::text::lemma_lex_lt_irreflexive;
use crate::text::lemma_lex_lt_transitive;
use crate::text::lemma_str_bytes_injective;
use crate::text::sanitize;
use crate::text::spec_sanitized;
use crate::text::str_bytes;
use crate::text::str_eq;
use crate::text::str_lt;
use crate::tracker::RegistrationTracker;
use crate::types::Node;
use crate::types::Service;

verus! {

/// What can go wrong in a registry call.
#[derive(Debug)]
pub enum RegistryError {
    /// `register` or `deregister` was called with a service that lists
    /// no nodes.
    Validation,
    /// `get_service` found no stored records under the name.
    NotFound,
    /// The watch was stopped, or its stream was canceled by the store.
    Canceled,
    /// A store read, write or lease call failed; the wrapped status says
    /// how.
    Infrastructure(Status),
    /// A stored value could not be decoded.  Never surfaced by get, list
    /// or watch, which skip such records.
    Decode,
}

/// The key prefix every registry record lives under.
pub open spec fn spec_prefix() -> Seq<char> {
    "/vine/registry"@
}

/// The store path of one service's records.
pub open spec fn spec_service_path(name: Seq<char>) -> Seq<char> {
    spec_prefix() + "/"@ + spec_sanitized(name)
}

/// The store path of one node's record.
pub open spec fn spec_node_path(name: Seq<char>, id: Seq<char>) -> Seq<char> {
    spec_service_path(name) + "/"@ + spec_sanitized(id)
}

/// The key prefix every registry record lives under.
pub fn registry_prefix() -> (r: String)
    ensures
        r@ == spec_prefix(),
{
    "/vine/registry".to_owned()
}

/// The store path for one service: the registry prefix, then the
/// sanitized service name.
pub fn service_path(s: &str) -> (r: String)
    ensures
        r@ == spec_service_path(s@),
{
    let mut out = registry_prefix();
    out.append("/");
    let name = sanitize(s);
    out.append(name.as_str());
    out
}

/// The prefix scanned when reading one service's records: the service
/// path closed with a slash, so another service whose name merely starts
/// the same is not caught.
pub fn service_scan_path(s: &str) -> (r: String)
    ensures
        r@ == spec_service_path(s@) + "/"@,
{
    let mut out = service_path(s);
    out.append("/");
    out
}

/// The store path for one node's record: the service path, then the
/// sanitized node id.
pub fn node_path(s: &str, id: &str) -> (r: String)
    ensures
        r@ == spec_node_path(s@, id@),
{
    let mut out = service_path(s);
    out.append("/");
    let node = sanitize(id);
    out.append(node.as_str());
    out
}

/// The logical cache key of a node's registration: the service name and
/// the node id, run together.
pub fn make_key(name: &str, id: &str) -> (r: String)
    ensures
        r@ == name@ + id@,
{
    let mut out = name.to_owned();
    out.append(id);
    out
}

/// The prefix a watch subscribes to: one service's records when the
/// options name a service, the whole registry namespace otherwise.
pub fn watch_path(opt: &Option<WatchOptions>) -> (r: String)
    ensures
        r@ == match opt {
            Some(o) => if o.service@.len() > 0 {
                spec_service_path(o.service@) + "/"@
            } else {
                spec_prefix()
            },
            None => spec_prefix(),
        },
{
    match opt {
        Some(o) => {
            if o.service.as_str().unicode_len() > 0 {
                service_scan_path(o.service.as_str())
            } else {
                registry_prefix()
            }
        },
        None => registry_prefix(),
    }
}

/// Checks that a service lists at least one node.  Registration and
/// deregistration refuse a service with none.
pub fn validate_service(s: &Service) -> (r: Result<(), RegistryError>)
    ensures
        s.nodes@.len() == 0 ==> (r matches Err(e) && e is Validation),
        s.nodes@.len() > 0 ==> r is Ok,
{
    if s.nodes.len() == 0 {
        Err(RegistryError::Validation)
    } else {
        Ok(())
    }
}

/// What the per-node registration procedure must do about the lease
/// before anything is written.
#[derive(Debug, PartialEq, Eq, Structural)]
pub enum RenewalStep {
    /// No lease is cached for the key: read the node's store path to
    /// adopt an existing registration, if one is there.
    ReadStore,
    /// An active lease id is cached: ask the store to keep it alive.
    KeepAlive(i64),
    /// A lease id is cached but not active: go straight on.
    Proceed,
}

/// The lease step the cached lease record dictates: read the store when
/// nothing is cached, keep an active lease alive, otherwise go on.
pub open spec fn spec_renewal_plan(leases: Map<Seq<char>, i64>, key: Seq<char>) -> RenewalStep {
    if !leases.contains_key(key) {
        RenewalStep::ReadStore
    } else if leases[key] > 0 {
        RenewalStep::KeepAlive(leases[key])
    } else {
        RenewalStep::Proceed
    }
}

/// Decides the lease step for a key from what the tracker holds, as the
/// per-node registration procedure begins.
pub fn plan_renewal(t: &RegistrationTracker, key: &str) -> (r: RenewalStep)
    requires
        t.wf(),
    ensures
        r == spec_renewal_plan(t.lease_map(), key@),
{
    match t.lease_of(key) {
        None => RenewalStep::ReadStore,
        Some(lease_id) => {
            if lease_id > 0 {
                RenewalStep::KeepAlive(lease_id)
            } else {
                RenewalStep::Proceed
            }
        },
    }
}

/// One record that came back from reading a node's store path: the lease
/// attached to the key, and the stored service if it decoded.
pub struct StoredEntry {
    pub lease_id: i64,
    pub service: Option<Service>,
}

/// Whether a stored record can be adopted: it carries an active lease and
/// decoded to a service with at least one node.
pub open spec fn spec_adoptable(e: StoredEntry) -> bool {
    &&& e.lease_id > 0
    &&& e.service is Some
    &&& e.service->0.nodes@.len() > 0
}

/// The cache key an adopted record files under: the stored service's own
/// name and its first node's id.
pub open spec fn spec_adopt_key(e: StoredEntry) -> Seq<char> {
    e.service->0.name@ + e.service->0.nodes@[0].id@
}

/// The lease record after one stored record is taken in.
pub open spec fn spec_adopt_lease(m: Map<Seq<char>, i64>, e: StoredEntry) -> Map<Seq<char>, i64> {
    if spec_adoptable(e) {
        m.insert(spec_adopt_key(e), e.lease_id)
    } else {
        m
    }
}

/// The digest record after one stored record is taken in.
pub open spec fn spec_adopt_hash(m: Map<Seq<char>, u64>, e: StoredEntry) -> Map<Seq<char>, u64> {
    if spec_adoptable(e) {
        m.insert(spec_adopt_key(e), node_digest(e.service->0.nodes@[0]))
    } else {
        m
    }
}

/// The lease record after a whole read response is taken in, in order.
pub open spec fn spec_adopt_leases(m: Map<Seq<char>, i64>, es: Seq<StoredEntry>) -> Map<
    Seq<char>,
    i64,
>
    decreases es.len(),
{
    if es.len() == 0 {
        m
    } else {
        spec_adopt_lease(spec_adopt_leases(m, es.drop_last()), es.last())
    }
}

/// The digest record after a whole read response is taken in, in order.
pub open spec fn spec_adopt_hashes(m: Map<Seq<char>, u64>, es: Seq<StoredEntry>) -> Map<
    Seq<char>,
    u64,
>
    decreases es.len(),
{
    if es.len() == 0 {
        m
    } else {
        spec_adopt_hash(spec_adopt_hashes(m, es.drop_last()), es.last())
    }
}

/// Takes a read response into the tracker: every record that carries an
/// active lease and decodes to a service with a node hands over its lease
/// id and its first node's content digest, filed under the stored
/// service's own name and node id.
pub fn adopt_existing(t: &mut RegistrationTracker, entries: &Vec<StoredEntry>)
    requires
        old(t).wf(),
    ensures
        final(t).wf(),
        final(t).lease_map() == spec_adopt_leases(old(t).lease_map(), entries@),
        final(t).hash_map() == spec_adopt_hashes(old(t).hash_map(), entries@),
{
    let n = entries.len();
    let mut i: usize = 0;
    while i < n
        invariant
            n == entries@.len(),
            i <= n,
            t.wf(),
            t.lease_map() == spec_adopt_leases(old(t).lease_map(), entries@.take(i as int)),
            t.hash_map() == spec_adopt_hashes(old(t).hash_map(), entries@.take(i as int)),
        decreases n - i,
    {
        proof {
            assert(entries@.take(i + 1).drop_last() =~= entries@.take(i as int));
            assert(entries@.take(i + 1).last() == entries@[i as int]);
        }
        let entry = &entries[i];
        if entry.lease_id > 0 {
            match &entry.service {
                Some(svc) => {
                    if svc.nodes.len() > 0 {
                        let node = &svc.nodes[0];
                        let key = make_key(svc.name.as_str(), node.id.as_str());
                        let digest = node.content_hash();
                        t.set_lease(key.as_str(), entry.lease_id);
                        t.set_hash(key.as_str(), digest);
                    }
                },
                None => {
                },
            }
        }
        i += 1;
    }
    proof {
        assert(entries@.take(n as int) =~= entries@);
    }
}

/// The skip rule of the per-node registration procedure: the write is
/// skipped when a digest is cached for the key, it equals the node's
/// current digest, and the lease renewal did not fail.
pub open spec fn spec_should_skip(
    hashes: Map<Seq<char>, u64>,
    key: Seq<char>,
    digest: u64,
    lease_not_found: bool,
) -> bool {
    &&& hashes.contains_key(key)
    &&& hashes[key] == digest
    &&& !lease_not_found
}

/// Decides whether the write can be skipped: the cached digest for the
/// key equals the node's current content digest and the lease renewal,
/// if one ran, did not fail.
pub fn should_skip(t: &RegistrationTracker, key: &str, node: &Node, lease_not_found: bool) -> (r:
    bool)
    requires
        t.wf(),
    ensures
        r == spec_should_skip(t.hash_map(), key@, node_digest(*node), lease_not_found),
{
    match t.hash_of(key) {
        Some(cached) => {
            let digest = node.content_hash();
            cached == digest && !lease_not_found
        },
        None => false,
    }
}

/// The lease time-to-live a registration asks for: what the options say,
/// or 15 seconds when no options are given.
pub fn effective_ttl(opt: &Option<RegisterOptions>) -> (r: i64)
    ensures
        r == match opt {
            Some(o) => o.ttl,
            None => 15i64,
        },
{
    match opt {
        Some(o) => o.ttl,
        None => 15,
    }
}

/// The single-node copy of a service that is written to the store: the
/// service's own fields, with the one owning node as its whole node list.
pub fn single_node_service(s: Service, node: Node) -> (r: Service)
    ensures
        r.name == s.name,
        r.version == s.version,
        r.metadata == s.metadata,
        r.endpoints == s.endpoints,
        r.options == s.options,
        r.apis == s.apis,
        r.nodes@ == seq![node],
{
    let mut nodes: Vec<Node> = Vec::new();
    nodes.push(node);
    proof {
        assert(nodes@ =~= seq![node]);
    }
    Service { nodes, ..s }
}

/// Commits a successful write to the tracker: the key now carries the
/// node's content digest, and the granted lease id if one was granted.
/// A lease id of zero means the grant failed and the write went out
/// without a lease; no lease is recorded then.
pub fn commit_registration(t: &mut RegistrationTracker, key: &str, node: &Node, lease_id: i64)
    requires
        old(t).wf(),
    ensures
        final(t).wf(),
        final(t).hash_map() == old(t).hash_map().insert(key@, node_digest(*node)),
        final(t).lease_map() == if lease_id != 0 {
            old(t).lease_map().insert(key@, lease_id)
        } else {
            old(t).lease_map()
        },
{
    let digest = node.content_hash();
    t.set_hash(key, digest);
    if lease_id != 0 {
        t.set_lease(key, lease_id);
    }
}

/// Registering a node again with unchanged content performs no second
/// store write and asks for no new lease: after a committed
/// registration, any node of equal content digest meets the skip rule,
/// and when a lease was granted, the next call's lease step is a renewal
/// of that lease, never a fresh grant.
pub proof fn lemma_register_idempotent(
    hashes: Map<Seq<char>, u64>,
    leases: Map<Seq<char>, i64>,
    key: Seq<char>,
    n1: Node,
    n2: Node,
    lease_id: i64,
)
    requires
        node_digest(n1) == node_digest(n2),
    ensures
        spec_should_skip(hashes.insert(key, node_digest(n1)), key, node_digest(n2), false),
        lease_id > 0 ==> spec_renewal_plan(leases.insert(key, lease_id), key)
            == RenewalStep::KeepAlive(lease_id),
{
}

/// Deregistration leaves nothing behind for the key: no lease to renew,
/// so the next registration reads the store afresh, and no digest, so
/// nothing is skipped.
pub proof fn lemma_deregister_clears(
    hashes: Map<Seq<char>, u64>,
    leases: Map<Seq<char>, i64>,
    key: Seq<char>,
    d: u64,
)
    ensures
        spec_renewal_plan(leases.remove(key), key) == RenewalStep::ReadStore,
        !spec_should_skip(hashes.remove(key), key, d, false),
{
}

/// Registering a node whose content digest changed does not skip: after
/// a commit for one node, the skip rule fails for any node whose digest
/// differs, so the procedure writes to the store and asks for a lease.
pub proof fn lemma_register_change_writes(
    hashes: Map<Seq<char>, u64>,
    key: Seq<char>,
    n1: Node,
    n2: Node,
)
    requires
        node_digest(n1) != node_digest(n2),
    ensures
        !spec_should_skip(hashes.insert(key, node_digest(n1)), key, node_digest(n2), false),
{
}

/// A failed lease renewal forces the write even for unchanged content.
pub proof fn lemma_lease_not_found_writes(hashes: Map<Seq<char>, u64>, key: Seq<char>, d: u64)
    ensures
        !spec_should_skip(hashes, key, d, true),
{
}

/// The services among the scanned records that decoded, in order.
pub open spec fn decoded(es: Seq<Option<Service>>) -> Seq<Service>
    decreases es.len(),
{
    if es.len() == 0 {
        Seq::empty()
    } else {
        decoded(es.drop_last()) + match es.last() {
            Some(s) => seq![s],
            None => Seq::empty(),
        }
    }
}

/// Whether some decoded record carries the version.
pub open spec fn has_version(es: Seq<Service>, v: Seq<char>) -> bool
    decreases es.len(),
{
    es.len() > 0 && (es.last().version@ == v || has_version(es.drop_last(), v))
}

/// The first decoded record carrying the version.  Its fields other than
/// the node list are the ones the aggregated service keeps.
pub open spec fn first_with_version(es: Seq<Service>, v: Seq<char>) -> Service
    recommends
        has_version(es, v),
    decreases es.len(),
{
    if es.len() == 0 {
        arbitrary()
    } else if has_version(es.drop_last(), v) {
        first_with_version(es.drop_last(), v)
    } else {
        es.last()
    }
}

/// The nodes of every decoded record carrying the version, concatenated
/// in the order the records were scanned.
pub open spec fn nodes_with_version(es: Seq<Service>, v: Seq<char>) -> Seq<Node>
    decreases es.len(),
{
    if es.len() == 0 {
        Seq::empty()
    } else {
        nodes_with_version(es.drop_last(), v) + if es.last().version@ == v {
            es.last().nodes@
        } else {
            Seq::empty()
        }
    }
}

/// A version occurs exactly when some record carries it.
pub proof fn lemma_has_version_exists(es: Seq<Service>, v: Seq<char>)
    ensures
        has_version(es, v) <==> exists|i: int| 0 <= i < es.len() && es[i].version@ == v,
    decreases es.len(),
{
    if es.len() > 0 {
        lemma_has_version_exists(es.drop_last(), v);
        if es.last().version@ == v {
            assert(es[es.len() - 1].version@ == v);
        } else if has_version(es.drop_last(), v) {
            let i = choose|i: int|
                0 <= i < es.drop_last().len() && es.drop_last()[i].version@ == v;
            assert(es[i].version@ == v);
        }
        if exists|i: int| 0 <= i < es.len() && es[i].version@ == v {
            let i = choose|i: int| 0 <= i < es.len() && es[i].version@ == v;
            if i < es.len() - 1 {
                assert(es.drop_last()[i].version@ == v);
            }
        }
    }
}

/// A version no record carries contributes no nodes.
pub proof fn lemma_no_version_no_nodes(es: Seq<Service>, v: Seq<char>)
    requires
        !has_version(es, v),
    ensures
        nodes_with_version(es, v) == Seq::<Node>::empty(),
    decreases es.len(),
{
    if es.len() > 0 {
        lemma_no_version_no_nodes(es.drop_last(), v);
        assert(nodes_with_version(es, v) =~= Seq::<Node>::empty());
    } else {
        assert(nodes_with_version(es, v) =~= Seq::<Node>::empty());
    }
}

/// One aggregated service is the merge of its version's records: the
/// first such record's fields, with the nodes of all of them.
pub open spec fn group_matches(es: Seq<Service>, g: Service) -> bool {
    &&& has_version(es, g.version@)
    &&& g.name == first_with_version(es, g.version@).name
    &&& g.version == first_with_version(es, g.version@).version
    &&& g.metadata == first_with_version(es, g.version@).metadata
    &&& g.endpoints == first_with_version(es, g.version@).endpoints
    &&& g.options == first_with_version(es, g.version@).options
    &&& g.apis == first_with_version(es, g.version@).apis
    &&& g.nodes@ == nodes_with_version(es, g.version@)
}

/// Whether some aggregated service carries the version.
pub open spec fn has_group_version(gs: Seq<Service>, v: Seq<char>) -> bool {
    exists|k: int| 0 <= k < gs.len() && gs[k].version@ == v
}

/// The bytes an aggregated service is ordered by: its version's.
pub open spec fn version_bytes(s: Service) -> Seq<u8> {
    str_bytes(s.version@)
}

/// What aggregation returns for a sequence of decoded records: every
/// service in the result is the merge of one occurring version's
/// records, the versions come in strictly ascending byte order — so no
/// version appears twice — and every version that occurs in the records
/// is represented.
pub open spec fn aggregation_of(es: Seq<Service>, gs: Seq<Service>) -> bool {
    &&& forall|k: int| 0 <= k < gs.len() ==> group_matches(es, #[trigger] gs[k])
    &&& forall|k1: int, k2: int|
        0 <= k1 < k2 < gs.len() ==> lex_lt(
            version_bytes(#[trigger] gs[k1]),
            version_bytes(#[trigger] gs[k2]),
        )
    &&& forall|i: int| 0 <= i < es.len() ==> has_group_version(gs, (#[trigger] es[i]).version@)
}

/// Two records of one version aggregate into a single service carrying
/// the first record's fields and both records' nodes, in order.
pub proof fn lemma_aggregate_same_version(s1: Service, s2: Service, gs: Seq<Service>)
    requires
        s1.version@ == s2.version@,
        aggregation_of(seq![s1, s2], gs),
    ensures
        gs.len() == 1,
        gs[0].nodes@ == s1.nodes@ + s2.nodes@,
        gs[0].name == s1.name,
        gs[0].version == s1.version,
        gs[0].metadata == s1.metadata,
        gs[0].endpoints == s1.endpoints,
        gs[0].options == s1.options,
        gs[0].apis == s1.apis,
{
    let es = seq![s1, s2];
    let v = s1.version@;
    reveal_with_fuel(has_version, 4);
    reveal_with_fuel(first_with_version, 4);
    reveal_with_fuel(nodes_with_version, 4);
    assert(es.drop_last() =~= seq![s1]);
    assert(seq![s1].drop_last() =~= Seq::<Service>::empty());
    assert(es[0] == s1);
    assert(has_group_version(gs, v));
    assert(gs.len() >= 1);
    assert forall|k: int| 0 <= k < gs.len() implies gs[k].version@ == v by {
        assert(group_matches(es, gs[k]));
    }
    if gs.len() >= 2 {
        assert(lex_lt(version_bytes(gs[0]), version_bytes(gs[1])));
        lemma_lex_lt_irreflexive(version_bytes(gs[0]));
        assert(false);
    }
    assert(group_matches(es, gs[0]));
    assert(first_with_version(es, v) == s1);
    assert(nodes_with_version(es, v) =~= s1.nodes@ + s2.nodes@);
}

/// Two records of different versions aggregate into two distinct
/// services, one per version, each carrying its own record's fields and
/// nodes.
pub proof fn lemma_aggregate_two_versions(s1: Service, s2: Service, gs: Seq<Service>)
    requires
        s1.version@ != s2.version@,
        aggregation_of(seq![s1, s2], gs),
    ensures
        gs.len() == 2,
        has_group_version(gs, s1.version@),
        has_group_version(gs, s2.version@),
        forall|k: int|
            0 <= k < gs.len() && gs[k].version@ == s1.version@ ==> (#[trigger] gs[k]).nodes@
                == s1.nodes@ && gs[k].name == s1.name && gs[k].version == s1.version,
        forall|k: int|
            0 <= k < gs.len() && gs[k].version@ == s2.version@ ==> (#[trigger] gs[k]).nodes@
                == s2.nodes@ && gs[k].name == s2.name && gs[k].version == s2.version,
{
    let es = seq![s1, s2];
    let v1 = s1.version@;
    let v2 = s2.version@;
    reveal_with_fuel(has_version, 4);
    reveal_with_fuel(first_with_version, 4);
    reveal_with_fuel(nodes_with_version, 4);
    assert(es.drop_last() =~= seq![s1]);
    assert(seq![s1].drop_last() =~= Seq::<Service>::empty());
    assert(es[0] == s1 && es[1] == s2);
    assert(has_group_version(gs, v1));
    assert(has_group_version(gs, v2));
    let k1 = choose|k: int| 0 <= k < gs.len() && gs[k].version@ == v1;
    let k2 = choose|k: int| 0 <= k < gs.len() && gs[k].version@ == v2;
    assert(k1 != k2);
    assert(gs.len() >= 2);
    assert forall|k: int| 0 <= k < gs.len() implies gs[k].version@ == v1 || gs[k].version@ == v2 by {
        assert(group_matches(es, gs[k]));
    }
    if gs.len() >= 3 {
        assert forall|a: int, b: int| 0 <= a < b < gs.len() implies gs[a].version@ != gs[b].version@ by {
            assert(lex_lt(version_bytes(gs[a]), version_bytes(gs[b])));
            if gs[a].version@ == gs[b].version@ {
                lemma_lex_lt_irreflexive(version_bytes(gs[a]));
            }
        }
        assert(gs[0].version@ != gs[1].version@ && gs[0].version@ != gs[2].version@ && gs[1].version@
            != gs[2].version@);
        assert(false);
    }
    assert forall|k: int| 0 <= k < gs.len() && gs[k].version@ == v1 implies (#[trigger] gs[k]).nodes@
        == s1.nodes@ && gs[k].name == s1.name && gs[k].version == s1.version by {
        assert(group_matches(es, gs[k]));
        assert(first_with_version(es, v1) == s1);
        assert(nodes_with_version(es, v1) =~= s1.nodes@);
    }
    assert forall|k: int| 0 <= k < gs.len() && gs[k].version@ == v2 implies (#[trigger] gs[k]).nodes@
        == s2.nodes@ && gs[k].name == s2.name && gs[k].version == s2.version by {
        assert(group_matches(es, gs[k]));
        assert(!has_version(seq![s1], v2));
        assert(first_with_version(es, v2) == s2);
        assert(nodes_with_version(es, v2) =~= s2.nodes@);
    }
}

/// The position of the aggregated service carrying the version, if any.
fn find_version(groups: &Vec<Service>, v: &str) -> (r: Option<usize>)
    ensures
        match r {
            Some(j) => j < groups@.len() && groups@[j as int].version@ == v@,
            None => forall|k: int| 0 <= k < groups@.len() ==> groups@[k].version@ != v@,
        },
{
    let n = groups.len();
    let mut j: usize = 0;
    while j < n
        invariant
            n == groups@.len(),
            j <= n,
            forall|k: int| 0 <= k < j ==> groups@[k].version@ != v@,
        decreases n - j,
    {
        if str_eq(groups[j].version.as_str(), v) {
            return Some(j);
        }
        j += 1;
    }
    None
}

/// Where a new version belongs in the ascending order: the position of
/// the first aggregated service that does not come before it.
fn find_position(groups: &Vec<Service>, v: &str) -> (r: usize)
    ensures
        r <= groups@.len(),
        forall|q: int| 0 <= q < r ==> lex_lt(version_bytes(groups@[q]), str_bytes(v@)),
        r < groups@.len() ==> !lex_lt(version_bytes(groups@[r as int]), str_bytes(v@)),
{
    let n = groups.len();
    let mut p: usize = 0;
    while p < n
        invariant
            n == groups@.len(),
            p <= n,
            forall|q: int| 0 <= q < p ==> lex_lt(version_bytes(groups@[q]), str_bytes(v@)),
        decreases n - p,
    {
        if !str_lt(groups[p].version.as_str(), v) {
            return p;
        }
        p += 1;
    }
    n
}

/// Merges decoded records into one service per version: the first record
/// of a version starts its group and keeps its fields; every later
/// record of the same version appends its nodes; records that did not
/// decode are skipped; the groups come back in ascending version order.
pub fn aggregate(entries: Vec<Option<Service>>) -> (r: Vec<Service>)
    ensures
        aggregation_of(decoded(entries@), r@),
{
    let ghost orig = entries@;
    let mut rest = entries;
    let total = rest.len();
    let mut groups: Vec<Service> = Vec::new();
    let mut i: usize = 0;
    proof {
        assert(orig.take(0) =~= Seq::<Option<Service>>::empty());
        assert(orig.skip(0) =~= orig);
    }
    while rest.len() > 0
        invariant
            total == orig.len(),
            i <= total,
            rest@ == orig.skip(i as int),
            forall|k: int|
                0 <= k < groups@.len() ==> group_matches(
                    decoded(orig.take(i as int)),
                    #[trigger] groups@[k],
                ),
            forall|k1: int, k2: int|
                0 <= k1 < k2 < groups@.len() ==> lex_lt(
                    version_bytes(#[trigger] groups@[k1]),
                    version_bytes(#[trigger] groups@[k2]),
                ),
            forall|j: int|
                0 <= j < decoded(orig.take(i as int)).len() ==> has_group_version(
                    groups@,
                    (#[trigger] decoded(orig.take(i as int))[j]).version@,
                ),
        decreases rest@.len(),
    {
        let ghost des = decoded(orig.take(i as int));
        let ghost gs0 = groups@;
        proof {
            assert(rest@.len() == orig.len() - i);
            assert(i < orig.len());
        }
        let e = rest.remove(0);
        proof {
            assert(orig.skip(i as int)[0] == orig[i as int]);
            assert(orig.skip(i as int).remove(0) =~= orig.skip(i + 1));
            assert(orig.take(i + 1).drop_last() =~= orig.take(i as int));
            assert(orig.take(i + 1).last() == orig[i as int]);
        }
        match e {
            None => {
                proof {
                    assert(decoded(orig.take(i + 1)) =~= des);
                }
            },
            Some(svc) => {
                let ghost des1 = decoded(orig.take(i + 1));
                proof {
                    assert(des1 =~= des.push(svc));
                    assert(des1.drop_last() =~= des);
                    assert(des1.last() == svc);
                }
                match find_version(&groups, svc.version.as_str()) {
                    Some(j) => {
                        let mut g = groups.remove(j);
                        let ghost g0 = g;
                        let mut svc = svc;
                        g.nodes.append(&mut svc.nodes);
                        groups.insert(j, g);
                        proof {
                            let ghost v = g0.version@;
                            assert(groups@ =~= gs0.update(j as int, g));
                            assert(g.version@ == v && v == des1.last().version@);
                            assert(has_version(des1, v));
                            assert(first_with_version(des1, v) == first_with_version(des, v));
                            assert(nodes_with_version(des1, v) == nodes_with_version(des, v)
                                + des1.last().nodes@);
                            assert(group_matches(des1, g));
                            assert forall|k: int|
                                0 <= k < groups@.len() && k != j implies group_matches(
                                des1,
                                groups@[k],
                            ) by {
                                let w = groups@[k].version@;
                                assert(group_matches(des, gs0[k]));
                                if w == v {
                                    if k < j {
                                        assert(lex_lt(version_bytes(gs0[k]), version_bytes(gs0[j as int])));
                                    } else {
                                        assert(lex_lt(version_bytes(gs0[j as int]), version_bytes(gs0[k])));
                                    }
                                    lemma_lex_lt_irreflexive(version_bytes(gs0[k]));
                                }
                                assert(has_version(des1, w));
                                assert(first_with_version(des1, w) == first_with_version(des, w));
                                assert(nodes_with_version(des1, w) =~= nodes_with_version(des, w));
                            }
                            assert forall|jj: int| 0 <= jj < des1.len() implies has_group_version(
                                groups@,
                                des1[jj].version@,
                            ) by {
                                let w = des1[jj].version@;
                                if jj < des.len() {
                                    assert(des1[jj] == des[jj]);
                                    assert(has_group_version(gs0, w));
                                    let k = choose|k: int| 0 <= k < gs0.len() && gs0[k].version@ == w;
                                    assert(groups@[k].version@ == w);
                                } else {
                                    assert(groups@[j as int].version@ == w);
                                }
                            }
                        }
                    },
                    None => {
                        let p = find_position(&groups, svc.version.as_str());
                        proof {
                            let v = svc.version@;
                            lemma_has_version_exists(des, v);
                            if has_version(des, v) {
                                let jj = choose|jj: int| 0 <= jj < des.len() && des[jj].version@ == v;
                                assert(has_group_version(gs0, v));
                                let k = choose|k: int| 0 <= k < gs0.len() && gs0[k].version@ == v;
                                assert(false);
                            }
                            lemma_no_version_no_nodes(des, v);
                            if p < gs0.len() {
                                if !lex_lt(str_bytes(v), version_bytes(gs0[p as int])) {
                                    lemma_lex_lt_connected(version_bytes(gs0[p as int]), str_bytes(v));
                                    lemma_str_bytes_injective(gs0[p as int].version@, v);
                                    assert(false);
                                }
                                assert(lex_lt(str_bytes(v), version_bytes(gs0[p as int])));
                            }
                        }
                        groups.insert(p, svc);
                        proof {
                            let v = svc.version@;
                            assert(groups@.len() == gs0.len() + 1);
                            assert(forall|q: int| 0 <= q < p ==> groups@[q] == gs0[q]);
                            assert(groups@[p as int] == svc);
                            assert(forall|q: int|
                                p < q < groups@.len() ==> groups@[q] == gs0[q - 1]);
                            assert(has_version(des1, v));
                            assert(!has_version(des, v));
                            assert(first_with_version(des1, v) == svc);
                            assert(nodes_with_version(des1, v) =~= svc.nodes@);
                            assert(group_matches(des1, svc));
                            assert forall|k: int|
                                0 <= k < groups@.len() && k != p implies group_matches(
                                des1,
                                groups@[k],
                            ) by {
                                let old_k: int = if k < p {
                                    k
                                } else {
                                    k - 1
                                };
                                let w = gs0[old_k].version@;
                                assert(group_matches(des, gs0[old_k]));
                                assert(w != v);
                                assert(has_version(des1, w));
                                assert(first_with_version(des1, w) == first_with_version(des, w));
                                assert(nodes_with_version(des1, w) =~= nodes_with_version(des, w));
                            }
                            assert forall|k1: int, k2: int|
                                0 <= k1 < k2 < groups@.len() implies lex_lt(
                                version_bytes(groups@[k1]),
                                version_bytes(groups@[k2]),
                            ) by {
                                if k1 == p {
                                    assert(groups@[k2] == gs0[k2 - 1]);
                                    assert(lex_lt(str_bytes(v), version_bytes(gs0[p as int])));
                                    if k2 - 1 > p {
                                        lemma_lex_lt_transitive(
                                            str_bytes(v),
                                            version_bytes(gs0[p as int]),
                                            version_bytes(gs0[k2 - 1]),
                                        );
                                    }
                                } else if k2 == p {
                                    assert(groups@[k1] == gs0[k1]);
                                    assert(lex_lt(version_bytes(gs0[k1]), str_bytes(v)));
                                } else {
                                    let a: int = if k1 < p {
                                        k1
                                    } else {
                                        k1 - 1
                                    };
                                    let b: int = if k2 < p {
                                        k2
                                    } else {
                                        k2 - 1
                                    };
                                    assert(groups@[k1] == gs0[a]);
                                    assert(groups@[k2] == gs0[b]);
                                    assert(a < b);
                                }
                            }
                            assert forall|jj: int| 0 <= jj < des1.len() implies has_group_version(
                                groups@,
                                des1[jj].version@,
                            ) by {
                                let w = des1[jj].version@;
                                if jj < des.len() {
                                    assert(des1[jj] == des[jj]);
                                    assert(has_group_version(gs0, w));
                                    let k = choose|k: int| 0 <= k < gs0.len() && gs0[k].version@ == w;
                                    if k < p {
                                        assert(groups@[k].version@ == w);
                                    } else {
                                        assert(groups@[k + 1].version@ == w);
                                    }
                                } else {
                                    assert(groups@[p as int].version@ == w);
                                }
                            }
                        }
                    },
                }
            },
        }
        i += 1;
    }
    proof {
        assert(orig.take(i as int) =~= orig);
    }
    groups
}

/// The read side of `get_service`: no scanned records means the service
/// is unknown; otherwise the records aggregate, skipping any that did
/// not decode, even if that leaves nothing.
pub fn get_service_outcome(entries: Vec<Option<Service>>) -> (r: Result<Vec<Service>, RegistryError>)
    ensures
        entries@.len() == 0 ==> (r matches Err(e) && e is NotFound),
        entries@.len() > 0 ==> (r matches Ok(gs) && aggregation_of(decoded(entries@), gs@)),
{
    if entries.len() == 0 {
        Err(RegistryError::NotFound)
    } else {
        Ok(aggregate(entries))
    }
}

/// The read side of `list_service`: an empty namespace is an empty list,
/// never an error.
pub fn list_service_outcome(entries: Vec<Option<Service>>) -> (r: Vec<Service>)
    ensures
        aggregation_of(decoded(entries@), r@),
        entries@.len() == 0 ==> r@.len() == 0,
{
    let ghost empty_in = entries@.len() == 0;
    let r = aggregate(entries);
    proof {
        if empty_in && r@.len() > 0 {
            assert(group_matches(decoded(Seq::<Option<Service>>::empty()), r@[0]));
        }
    }
    r
}

} // verus!
