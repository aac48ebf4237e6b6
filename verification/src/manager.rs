//! The pod manager: which pods are being streamed, which streams a
//! discovery cycle starts, and when the next cycle runs.
use crate::k8s::{DiscoveryError, ResourceInfo, StreamRequest};
use crate::text::texts;
use vstd::hash_set::StringHashSet;
use vstd::prelude::*;

verus! {

/// The pods that answered workloads have found, in the order of the
/// answers. A failed answer adds none.
pub open spec fn found_pods(outcomes: Seq<Result<Vec<String>, DiscoveryError>>) -> Seq<Seq<char>>
    decreases outcomes.len(),
{
    if outcomes.len() == 0 {
        Seq::<Seq<char>>::empty()
    } else {
        found_pods(outcomes.drop_last()) + match outcomes.last() {
            Ok(pods) => texts(pods@),
            Err(_) => Seq::<Seq<char>>::empty(),
        }
    }
}

/// Whether `at` is the place of the first failure among `outcomes`.
pub open spec fn first_failure_at(
    outcomes: Seq<Result<Vec<String>, DiscoveryError>>,
    at: int,
) -> bool {
    &&& 0 <= at < outcomes.len()
    &&& outcomes[at] is Err
    &&& forall|i: int| 0 <= i < at ==> outcomes[i] is Ok
}

/// Whether every one of `outcomes` is a success.
pub open spec fn all_found(outcomes: Seq<Result<Vec<String>, DiscoveryError>>) -> bool {
    forall|i: int| 0 <= i < outcomes.len() ==> outcomes[i] is Ok
}

/// The pods of `found` to start a stream for, given that those of `active`
/// have one already: each pod that is neither in `active` nor earlier in
/// `found`, in the order of `found`.
pub open spec fn fresh_pods(active: Set<Seq<char>>, found: Seq<Seq<char>>) -> Seq<Seq<char>>
    decreases found.len(),
{
    if found.len() == 0 {
        Seq::<Seq<char>>::empty()
    } else {
        let earlier = found.drop_last();
        let pod = found.last();
        if active.contains(pod) || earlier.contains(pod) {
            fresh_pods(active, earlier)
        } else {
            fresh_pods(active, earlier).push(pod)
        }
    }
}

/// The elements of a sequence with one more at its end.
proof fn lemma_set_of_push(items: Seq<Seq<char>>, last: Seq<char>)
    ensures
        items.push(last).to_set() == items.to_set().insert(last),
{
    let longer = items.push(last);
    assert forall|x: Seq<char>| longer.to_set().contains(x) <==> items.to_set().insert(
        last,
    ).contains(x) by {
        if longer.contains(x) {
            let i = choose|i: int| 0 <= i < longer.len() && longer[i] == x;
            if i < items.len() {
                assert(items[i] == x);
            }
        }
        if items.contains(x) {
            let i = choose|i: int| 0 <= i < items.len() && items[i] == x;
            assert(longer[i] == x);
        }
        assert(longer[items.len() as int] == last);
    }
    assert(longer.to_set() =~= items.to_set().insert(last));
}

/// What makes a pod fresh: `fresh_pods(active, found)` holds exactly the
/// pods of `found` that are not in `active`, and holds none twice.
pub proof fn lemma_fresh_pods_are_new(active: Set<Seq<char>>, found: Seq<Seq<char>>)
    ensures
        forall|pod: Seq<char>|
            fresh_pods(active, found).contains(pod) <==> found.contains(pod) && !active.contains(
                pod,
            ),
        fresh_pods(active, found).no_duplicates(),
    decreases found.len(),
{
    if found.len() > 0 {
        let earlier = found.drop_last();
        let last = found.last();
        let before = fresh_pods(active, earlier);
        let now = fresh_pods(active, found);
        lemma_fresh_pods_are_new(active, earlier);
        assert forall|pod: Seq<char>| now.contains(pod) <==> found.contains(pod)
            && !active.contains(pod) by {
            if found.contains(pod) {
                let i = choose|i: int| 0 <= i < found.len() && found[i] == pod;
                if i < earlier.len() {
                    assert(earlier[i] == pod);
                }
            }
            if earlier.contains(pod) {
                let i = choose|i: int| 0 <= i < earlier.len() && earlier[i] == pod;
                assert(found[i] == pod);
            }
            assert(found[found.len() - 1] == last);
            if now.contains(pod) {
                let i = choose|i: int| 0 <= i < now.len() && now[i] == pod;
                if i < before.len() {
                    assert(before[i] == pod);
                }
            }
            if before.contains(pod) && now.len() > before.len() {
                let i = choose|i: int| 0 <= i < before.len() && before[i] == pod;
                assert(now[i] == pod);
            }
            if now.len() > before.len() {
                assert(now[before.len() as int] == last);
            }
        }
        if now.len() > before.len() {
            assert(!before.contains(last));
            assert forall|i: int, j: int|
                0 <= i < now.len() && 0 <= j < now.len() && i != j implies now[i] != now[j] by {
                if i < before.len() && j < before.len() {
                    assert(before[i] != before[j]);
                } else if i < before.len() {
                    assert(before[i] == now[i]);
                } else {
                    assert(before[j] == now[j]);
                }
            }
        }
    }
}

/// A cycle that finds only pods that are active already starts no stream.
pub proof fn lemma_known_pods_start_nothing(active: Set<Seq<char>>, found: Seq<Seq<char>>)
    requires
        forall|i: int| 0 <= i < found.len() ==> active.contains(found[i]),
    ensures
        fresh_pods(active, found) == Seq::<Seq<char>>::empty(),
    decreases found.len(),
{
    if found.len() > 0 {
        lemma_known_pods_start_nothing(active, found.drop_last());
    }
}

/// Discovery is idempotent: once a cycle has made the pods of `found`
/// active, a second cycle that finds the same pods starts no stream and
/// leaves the active pods as they are.
pub proof fn lemma_discovery_is_idempotent(active: Set<Seq<char>>, found: Seq<Seq<char>>)
    ensures
        fresh_pods(active.union(found.to_set()), found) == Seq::<Seq<char>>::empty(),
        active.union(found.to_set()).union(found.to_set()) == active.union(found.to_set()),
{
    let after = active.union(found.to_set());
    assert forall|i: int| 0 <= i < found.len() implies after.contains(found[i]) by {
        assert(found.contains(found[i]));
    }
    lemma_known_pods_start_nothing(after, found);
    assert(after.union(found.to_set()) =~= after);
}

/// The pods that the answers of the watched workloads have found, one list
/// after the other. No answer may have failed: the first failure is all that
/// comes back then, and it loses what the other workloads found.
pub fn gather_pods(outcomes: Vec<Result<Vec<String>, DiscoveryError>>) -> (r: Result<
    Vec<String>,
    DiscoveryError,
>)
    ensures
        match r {
            Ok(found) => all_found(outcomes@) && texts(found@) == found_pods(outcomes@),
            Err(e) => exists|at: int|
                first_failure_at(outcomes@, at) && #[trigger] outcomes@[at] == Err::<
                    Vec<String>,
                    DiscoveryError,
                >(e),
        },
{
    let mut found: Vec<String> = Vec::new();
    let mut at: usize = 0;
    while at < outcomes.len()
        invariant
            at <= outcomes@.len(),
            forall|i: int| 0 <= i < at ==> outcomes@[i] is Ok,
            texts(found@) == found_pods(outcomes@.take(at as int)),
        decreases outcomes@.len() - at,
    {
        proof {
            assert(outcomes@.take(at + 1).drop_last() =~= outcomes@.take(at as int));
            assert(outcomes@.take(at + 1).last() == outcomes@[at as int]);
        }
        match &outcomes[at] {
            Ok(pods) => {
                let ghost before = found@;
                let mut k: usize = 0;
                while k < pods.len()
                    invariant
                        k <= pods@.len(),
                        found@.len() == before.len() + k,
                        texts(found@) == texts(before) + texts(pods@.take(k as int)),
                    decreases pods@.len() - k,
                {
                    let pod = pods[k].clone();
                    proof {
                        assert(pods@.take(k + 1) =~= pods@.take(k as int).push(pods@[k as int]));
                        assert forall|i: int| 0 <= i < found@.len() implies texts(
                            found@.push(pod),
                        )[i] == (texts(before) + texts(pods@.take(k + 1)))[i] by {
                            assert(texts(found@)[i] == (texts(before) + texts(
                                pods@.take(k as int),
                            ))[i]);
                        }
                        assert(texts(found@.push(pod)) =~= texts(before) + texts(
                            pods@.take(k + 1),
                        ));
                    }
                    found.push(pod);
                    k += 1;
                }
                proof {
                    assert(pods@.take(k as int) =~= pods@);
                }
            },
            Err(e) => {
                let failure = e.duplicate();
                assert(first_failure_at(outcomes@, at as int));
                return Err(failure);
            },
        }
        at += 1;
    }
    proof {
        assert(outcomes@.take(at as int) =~= outcomes@);
    }
    Ok(found)
}

/// What a pod manager holds.
pub struct PodManagerView {
    /// The pods for which a stream was started at some point. None ever
    /// leaves.
    pub active_pods: Set<Seq<char>>,
    /// The watched workloads, in the order in which they are asked.
    pub resources: Seq<ResourceInfo>,
    pub namespace: Seq<char>,
    pub follow: bool,
    pub filter: Seq<char>,
}

/// Keeps the set of pods that are being streamed, and starts a stream for
/// each pod that discovery finds and the set does not hold yet.
pub struct PodManager {
    active_pods: StringHashSet,
    resources: Vec<ResourceInfo>,
    namespace: String,
    follow: bool,
    filter: String,
}

impl View for PodManager {
    type V = PodManagerView;

    closed spec fn view(&self) -> PodManagerView {
        PodManagerView {
            active_pods: self.active_pods@,
            resources: self.resources@,
            namespace: self.namespace@,
            follow: self.follow,
            filter: self.filter@,
        }
    }
}

impl PodManagerView {
    /// Whether `request` asks for a stream of `pod` with this manager's
    /// namespace, follow flag and filter.
    pub open spec fn asks_for(&self, request: StreamRequest, pod: Seq<char>) -> bool {
        &&& request.pod_name@ == pod
        &&& request.namespace@ == self.namespace
        &&& request.follow == self.follow
        &&& request.filter@ == self.filter
    }

    /// Whether `requests` ask for the streams of `pods`, one each and in
    /// order, all with this manager's namespace, follow flag and filter.
    pub open spec fn ask_for(&self, requests: Seq<StreamRequest>, pods: Seq<Seq<char>>) -> bool {
        &&& requests.len() == pods.len()
        &&& forall|i: int| 0 <= i < requests.len() ==> self.asks_for(#[trigger] requests[i], pods[i])
    }

    /// This manager with `pods` among its active pods.
    pub open spec fn with_active(&self, pods: Set<Seq<char>>) -> PodManagerView {
        PodManagerView { active_pods: self.active_pods.union(pods), ..*self }
    }
}

/// The workload to ask next in a discovery cycle in which `answered`
/// workloads have answered so far: the next in order, unless an answer has
/// failed or all have answered.
pub open spec fn next_to_ask(
    resources: Seq<ResourceInfo>,
    outcomes: Seq<Result<Vec<String>, DiscoveryError>>,
) -> Option<ResourceInfo> {
    if all_found(outcomes) && outcomes.len() < resources.len() {
        Some(resources[outcomes.len() as int])
    } else {
        None
    }
}

impl PodManager {
    /// A manager that watches `resources` and streams no pod yet.
    pub fn new(resources: Vec<ResourceInfo>, namespace: String, follow: bool, filter: String) -> (m:
        PodManager)
        ensures
            m@.active_pods == Set::<Seq<char>>::empty(),
            m@.resources == resources@,
            m@.namespace == namespace@,
            m@.follow == follow,
            m@.filter == filter@,
    {
        PodManager { active_pods: StringHashSet::new(), resources, namespace, follow, filter }
    }

    /// Whether a stream was started for `pod_name` at some point.
    pub fn is_active(&self, pod_name: &str) -> (r: bool)
        ensures
            r == self@.active_pods.contains(pod_name@),
    {
        self.active_pods.contains(pod_name)
    }

    /// The watched workloads.
    pub fn resources(&self) -> (r: &Vec<ResourceInfo>)
        ensures
            r@ == self@.resources,
    {
        &self.resources
    }

    /// The namespace of every stream.
    pub fn namespace(&self) -> (r: &String)
        ensures
            r@ == self@.namespace,
    {
        &self.namespace
    }

    /// The request for the stream of one pod: the pod, in this manager's
    /// namespace, with its follow flag and its filter.
    pub fn start_pod_logs(&self, pod_name: String) -> (request: StreamRequest)
        ensures
            self@.asks_for(request, pod_name@),
    {
        StreamRequest {
            pod_name,
            namespace: self.namespace.clone(),
            follow: self.follow,
            filter: self.filter.clone(),
        }
    }

    /// The workload whose pods are to be asked for next, in a cycle in which
    /// `outcomes` are the answers so far. `None` ends the asking: an answer
    /// has failed, or every workload has answered.
    pub fn next_query(&self, outcomes: &Vec<Result<Vec<String>, DiscoveryError>>) -> (r: Option<
        &ResourceInfo,
    >)
        ensures
            match r {
                Some(resource) => next_to_ask(self@.resources, outcomes@) == Some(*resource),
                None => next_to_ask(self@.resources, outcomes@) is None,
            },
    {
        let mut at: usize = 0;
        while at < outcomes.len()
            invariant
                at <= outcomes@.len(),
                forall|i: int| 0 <= i < at ==> outcomes@[i] is Ok,
            decreases outcomes@.len() - at,
        {
            if outcomes[at].is_err() {
                return None;
            }
            at += 1;
        }
        if outcomes.len() < self.resources.len() {
            Some(&self.resources[outcomes.len()])
        } else {
            None
        }
    }

    /// Starts a stream for each pod of `found` that has none yet: the pod
    /// becomes active, and a request for its stream is returned. A pod that
    /// is active already, or that came earlier in `found`, gets no second
    /// stream.
    pub fn start_new_pods(&mut self, found: Vec<String>) -> (requests: Vec<StreamRequest>)
        ensures
            old(self)@.ask_for(requests@, fresh_pods(old(self)@.active_pods, texts(found@))),
            final(self)@ == old(self)@.with_active(texts(found@).to_set()),
    {
        let mut requests: Vec<StreamRequest> = Vec::new();
        let mut at: usize = 0;
        proof {
            assert(texts(found@).take(0).to_set() =~= Set::<Seq<char>>::empty());
            assert(self@.active_pods.union(Set::<Seq<char>>::empty()) =~= self@.active_pods);
        }
        while at < found.len()
            invariant
                at <= found@.len(),
                old(self)@.ask_for(
                    requests@,
                    fresh_pods(old(self)@.active_pods, texts(found@).take(at as int)),
                ),
                self@ == old(self)@.with_active(texts(found@).take(at as int).to_set()),
            decreases found@.len() - at,
        {
            let ghost seen = texts(found@).take(at as int);
            let ghost pod = found@[at as int]@;
            proof {
                assert(texts(found@).take(at + 1) =~= seen.push(pod));
                assert(seen.push(pod).drop_last() =~= seen);
                lemma_set_of_push(seen, pod);
                assert(seen.to_set().contains(pod) <==> seen.contains(pod));
                assert(old(self)@.active_pods.union(seen.to_set()).insert(pod) =~= old(
                    self,
                )@.active_pods.union(seen.to_set().insert(pod)));
            }
            if !self.active_pods.contains(found[at].as_str()) {
                self.active_pods.insert(found[at].clone());
                let request = self.start_pod_logs(found[at].clone());
                requests.push(request);
            } else {
                proof {
                    assert(self@.active_pods.insert(pod) =~= self@.active_pods);
                }
            }
            at += 1;
        }
        proof {
            assert(texts(found@).take(at as int) =~= texts(found@));
        }
        requests
    }

    /// One discovery cycle, given what each watched workload answered when
    /// asked for its pods.
    ///
    /// If an answer has failed, the first failure comes back and nothing
    /// changes: no pod becomes active and no stream starts, whatever the
    /// other workloads found. Otherwise every pod found becomes active, and
    /// the requests returned start one stream for each pod that was not
    /// active before, in this manager's namespace.
    pub fn discover_and_start_new_pods(
        &mut self,
        outcomes: Vec<Result<Vec<String>, DiscoveryError>>,
    ) -> (r: Result<Vec<StreamRequest>, DiscoveryError>)
        ensures
            match r {
                Ok(requests) => {
                    &&& all_found(outcomes@)
                    &&& old(self)@.ask_for(
                        requests@,
                        fresh_pods(old(self)@.active_pods, found_pods(outcomes@)),
                    )
                    &&& final(self)@ == old(self)@.with_active(found_pods(outcomes@).to_set())
                },
                Err(e) => {
                    &&& exists|at: int|
                        first_failure_at(outcomes@, at) && #[trigger] outcomes@[at] == Err::<
                            Vec<String>,
                            DiscoveryError,
                        >(e)
                    &&& final(self)@ == old(self)@
                },
            },
    {
        match gather_pods(outcomes) {
            Ok(found) => Ok(self.start_new_pods(found)),
            Err(e) => Err(e),
        }
    }

    /// Starts a stream for each of `pods`, the pods that were asked for by
    /// name, and makes them active. Each gets its stream, also one that is
    /// active already.
    pub fn start_named_pods(&mut self, pods: Vec<String>) -> (requests: Vec<StreamRequest>)
        ensures
            old(self)@.ask_for(requests@, texts(pods@)),
            final(self)@ == old(self)@.with_active(texts(pods@).to_set()),
    {
        let mut requests: Vec<StreamRequest> = Vec::new();
        let mut at: usize = 0;
        proof {
            assert(texts(pods@).take(0).to_set() =~= Set::<Seq<char>>::empty());
            assert(self@.active_pods.union(Set::<Seq<char>>::empty()) =~= self@.active_pods);
        }
        while at < pods.len()
            invariant
                at <= pods@.len(),
                old(self)@.ask_for(requests@, texts(pods@).take(at as int)),
                self@ == old(self)@.with_active(texts(pods@).take(at as int).to_set()),
            decreases pods@.len() - at,
        {
            let ghost seen = texts(pods@).take(at as int);
            let ghost pod = pods@[at as int]@;
            proof {
                assert(texts(pods@).take(at + 1) =~= seen.push(pod));
                lemma_set_of_push(seen, pod);
                assert(old(self)@.active_pods.union(seen.to_set()).insert(pod) =~= old(
                    self,
                )@.active_pods.union(seen.to_set().insert(pod)));
            }
            let request = self.start_pod_logs(pods[at].clone());
            requests.push(request);
            self.active_pods.insert(pods[at].clone());
            at += 1;
        }
        proof {
            assert(texts(pods@).take(at as int) =~= texts(pods@));
        }
        requests
    }
}

} // verus!
