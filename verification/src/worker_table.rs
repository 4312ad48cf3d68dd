//! The listeners that a desktop runs for its local agents.
//!
//! Each local agent with a key gets one worker. The table is compared with the
//! saved agents again and again: workers of changed or removed agents are
//! retired, and missing ones are started.

use vstd::prelude::*;

use crate::pairs::{
    keys_distinct, lemma_pairs_map, lemma_pairs_pop, lemma_pairs_push, lemma_pairs_update, pairs_map,
};
use crate::text::{
    is_white_space, join3, law_only_blank_text_trims_to_nothing, str_eq, str_trim, trimmed,
};

verus! {

/// What the table reads of a saved agent.
#[derive(Debug, PartialEq, Eq)]
pub struct SavedAgent {
    /// Public key of the agent.
    pub pubkey: String,
    /// Whether the agent runs on this computer.
    pub local: bool,
    /// Secret key, possibly blank.
    pub private_key_nsec: String,
    /// Time of the last change, as it is saved.
    pub updated_at: String,
}

/// The content of a [`SavedAgent`].
pub struct SavedAgentView {
    pub pubkey: Seq<char>,
    pub local: bool,
    pub private_key_nsec: Seq<char>,
    pub updated_at: Seq<char>,
}

impl View for SavedAgent {
    type V = SavedAgentView;

    open spec fn view(&self) -> SavedAgentView {
        SavedAgentView {
            pubkey: self.pubkey@,
            local: self.local,
            private_key_nsec: self.private_key_nsec@,
            updated_at: self.updated_at@,
        }
    }
}

/// A worker that should run.
#[derive(Debug, PartialEq, Eq)]
pub struct DesiredWorker {
    /// Public key of the agent.
    pub pubkey: String,
    /// Fingerprint of the relay and the saved agent.
    pub fingerprint: String,
}

/// A running worker; `T` is the handle that cancels it.
#[derive(Debug, PartialEq, Eq)]
pub struct RunningWorker<T> {
    /// Public key of the agent.
    pub pubkey: String,
    /// Fingerprint with which the worker was started.
    pub fingerprint: String,
    /// Handle of the worker.
    pub token: T,
}

/// The desired workers as pairs of key and fingerprint.
pub open spec fn desired_pairs(s: Seq<DesiredWorker>) -> Seq<(Seq<char>, Seq<char>)> {
    s.map_values(|w: DesiredWorker| (w.pubkey@, w.fingerprint@))
}

/// The running workers as pairs of key and fingerprint with handle.
pub open spec fn running_pairs<T>(s: Seq<RunningWorker<T>>) -> Seq<(Seq<char>, (Seq<char>, T))> {
    s.map_values(|w: RunningWorker<T>| (w.pubkey@, (w.fingerprint@, w.token)))
}

/// An agent gets a worker if it is local and its key is not blank.
pub open spec fn gets_worker(agent: SavedAgentView) -> bool {
    agent.local && trimmed(agent.private_key_nsec).len() > 0
}

/// The fingerprint of an agent on a relay.
pub open spec fn fingerprint_of(agent: SavedAgentView, relay_url: Seq<char>) -> Seq<char> {
    relay_url + "|"@ + agent.updated_at
}

/// The desired fingerprint of each agent; of two agents with the same key the
/// later one counts.
pub open spec fn desired_map(agents: Seq<SavedAgentView>, relay_url: Seq<char>) -> Map<
    Seq<char>,
    Seq<char>,
>
    decreases agents.len(),
{
    if agents.len() == 0 {
        Map::empty()
    } else {
        let earlier = desired_map(agents.drop_last(), relay_url);
        if gets_worker(agents.last()) {
            earlier.insert(agents.last().pubkey, fingerprint_of(agents.last(), relay_url))
        } else {
            earlier
        }
    }
}

/// The views of the saved agents.
pub open spec fn agent_views(agents: Seq<SavedAgent>) -> Seq<SavedAgentView> {
    agents.map_values(|agent: SavedAgent| agent@)
}

/// Finds the first saved agent with a key.
pub fn find_saved_agent(agents: &Vec<SavedAgent>, pubkey: &str) -> (res: Option<usize>)
    ensures
        match res {
            Some(i) => i < agents@.len() && agents@[i as int].pubkey@ == pubkey@ && forall|j: int|
                0 <= j < i ==> (#[trigger] agents@[j]).pubkey@ != pubkey@,
            None => forall|j: int|
                0 <= j < agents@.len() ==> (#[trigger] agents@[j]).pubkey@ != pubkey@,
        },
{
    let mut i: usize = 0;
    while i < agents.len()
        invariant
            i <= agents.len(),
            forall|j: int| 0 <= j < i ==> (#[trigger] agents@[j]).pubkey@ != pubkey@,
        decreases agents.len() - i,
    {
        if str_eq(agents[i].pubkey.as_str(), pubkey) {
            return Some(i);
        }
        i = i + 1;
    }
    None
}

fn find_desired(desired: &Vec<DesiredWorker>, pubkey: &str) -> (res: Option<usize>)
    requires
        keys_distinct(desired_pairs(desired@)),
    ensures
        match res {
            Some(i) => i < desired@.len() && desired@[i as int].pubkey@ == pubkey@ && pairs_map(
                desired_pairs(desired@),
            ).contains_key(pubkey@) && pairs_map(desired_pairs(desired@))[pubkey@]
                == desired@[i as int].fingerprint@,
            None => !pairs_map(desired_pairs(desired@)).contains_key(pubkey@),
        },
{
    let ghost pairs = desired_pairs(desired@);
    proof {
        lemma_pairs_map(pairs);
    }
    let mut i: usize = 0;
    while i < desired.len()
        invariant
            i <= desired.len(),
            pairs == desired_pairs(desired@),
            forall|j: int| 0 <= j < i ==> (#[trigger] pairs[j]).0 != pubkey@,
            forall|j: int|
                0 <= j < pairs.len() ==> pairs_map(pairs).contains_key((#[trigger] pairs[j]).0)
                    && pairs_map(pairs)[pairs[j].0] == pairs[j].1,
        decreases desired.len() - i,
    {
        assert(pairs[i as int] == (desired@[i as int].pubkey@, desired@[i as int].fingerprint@));
        if str_eq(desired[i].pubkey.as_str(), pubkey) {
            return Some(i);
        }
        i = i + 1;
    }
    None
}

/// Lists the workers that should run for the saved agents on a relay.
pub fn desired_workers(agents: &Vec<SavedAgent>, relay_url: &str) -> (res: Vec<DesiredWorker>)
    ensures
        keys_distinct(desired_pairs(res@)),
        pairs_map(desired_pairs(res@)) == desired_map(agent_views(agents@), relay_url@),
{
    let ghost views = agent_views(agents@);
    let mut desired: Vec<DesiredWorker> = Vec::new();
    let mut n: usize = 0;
    assert(desired_pairs(desired@) =~= Seq::empty());
    assert(views.take(0) =~= Seq::empty());
    while n < agents.len()
        invariant
            n <= agents.len(),
            views == agent_views(agents@),
            keys_distinct(desired_pairs(desired@)),
            pairs_map(desired_pairs(desired@)) == desired_map(views.take(n as int), relay_url@),
        decreases agents.len() - n,
    {
        let agent = &agents[n];
        let ghost before = desired_pairs(desired@);
        proof {
            assert(views.take(n + 1).drop_last() =~= views.take(n as int));
            assert(views.take(n + 1).last() == agent@);
        }
        if agent.local && !str_trim(agent.private_key_nsec.as_str()).is_empty() {
            let worker = DesiredWorker {
                pubkey: agent.pubkey.clone(),
                fingerprint: join3(relay_url, "|", agent.updated_at.as_str()),
            };
            let ghost pair = (worker.pubkey@, worker.fingerprint@);
            match find_desired(&desired, agent.pubkey.as_str()) {
                Some(i) => {
                    proof {
                        lemma_pairs_update(before, i as int, pair);
                    }
                    desired.set(i, worker);
                    assert(desired_pairs(desired@) =~= before.update(i as int, pair));
                },
                None => {
                    proof {
                        lemma_pairs_push(before, pair);
                    }
                    desired.push(worker);
                    assert(desired_pairs(desired@) =~= before.push(pair));
                },
            }
        }
        n = n + 1;
    }
    assert(views.take(views.len() as int) =~= views);
    desired
}

/// The running workers of a desktop.
#[derive(Debug)]
pub struct WorkerTable<T> {
    workers: Vec<RunningWorker<T>>,
}

/// The worker is desired with the fingerprint that it runs with.
pub open spec fn is_current(
    desired: Map<Seq<char>, Seq<char>>,
    pubkey: Seq<char>,
    fingerprint: Seq<char>,
) -> bool {
    desired.contains_key(pubkey) && desired[pubkey] == fingerprint
}

/// The part of a table that is current, or the part that is not.
pub open spec fn part<T>(
    table: Map<Seq<char>, (Seq<char>, T)>,
    desired: Map<Seq<char>, Seq<char>>,
    current: bool,
) -> Map<Seq<char>, (Seq<char>, T)> {
    Map::new(
        |k: Seq<char>| table.contains_key(k) && is_current(desired, k, table[k].0) == current,
        |k: Seq<char>| table[k],
    )
}

impl<T> View for WorkerTable<T> {
    type V = Map<Seq<char>, (Seq<char>, T)>;

    closed spec fn view(&self) -> Map<Seq<char>, (Seq<char>, T)> {
        pairs_map(running_pairs(self.workers@))
    }
}

impl<T> WorkerTable<T> {
    #[verifier::type_invariant]
    spec fn no_agent_twice(self) -> bool {
        keys_distinct(running_pairs(self.workers@))
    }

    /// A table without workers.
    pub fn new() -> (res: Self)
        ensures
            res@ == Map::<Seq<char>, (Seq<char>, T)>::empty(),
    {
        let workers: Vec<RunningWorker<T>> = Vec::new();
        assert(running_pairs(workers@) =~= Seq::empty());
        WorkerTable { workers }
    }

    /// Whether a worker runs for the agent.
    pub fn contains(&self, pubkey: &str) -> (res: bool)
        ensures
            res == self@.contains_key(pubkey@),
    {
        proof {
            use_type_invariant(&*self);
        }
        let ghost pairs = running_pairs(self.workers@);
        proof {
            lemma_pairs_map(pairs);
        }
        let mut i: usize = 0;
        while i < self.workers.len()
            invariant
                i <= self.workers.len(),
                pairs == running_pairs(self.workers@),
                forall|j: int| 0 <= j < i ==> (#[trigger] pairs[j]).0 != pubkey@,
                forall|j: int|
                    0 <= j < pairs.len() ==> pairs_map(pairs).contains_key((#[trigger] pairs[j]).0),
            decreases self.workers.len() - i,
        {
            assert(pairs[i as int].0 == self.workers@[i as int].pubkey@);
            if str_eq(self.workers[i].pubkey.as_str(), pubkey) {
                return true;
            }
            i = i + 1;
        }
        false
    }

    /// Takes the workers out that are not desired, or not with the fingerprint
    /// that they run with; they are to be cancelled.
    pub fn retire_stale(&mut self, desired: &Vec<DesiredWorker>) -> (res: Vec<RunningWorker<T>>)
        requires
            keys_distinct(desired_pairs(desired@)),
        ensures
            final(self)@ == part(old(self)@, pairs_map(desired_pairs(desired@)), true),
            keys_distinct(running_pairs(res@)),
            pairs_map(running_pairs(res@)) == part(
                old(self)@,
                pairs_map(desired_pairs(desired@)),
                false,
            ),
    {
        proof {
            use_type_invariant(&*self);
        }
        let ghost wanted = pairs_map(desired_pairs(desired@));
        let ghost table = self@;
        let mut rest: Vec<RunningWorker<T>> = Vec::new();
        assert(running_pairs(rest@) =~= Seq::empty());
        std::mem::swap(&mut rest, &mut self.workers);
        let mut kept: Vec<RunningWorker<T>> = Vec::new();
        let mut retired: Vec<RunningWorker<T>> = Vec::new();
        assert(running_pairs(kept@) =~= Seq::empty());
        assert(running_pairs(retired@) =~= Seq::empty());
        let ghost mut seen = Set::<Seq<char>>::empty();
        assert(part(table.restrict(seen), wanted, true) =~= Map::empty());
        assert(part(table.restrict(seen), wanted, false) =~= Map::empty());
        assert(table.remove_keys(seen) =~= table);
        while rest.len() > 0
            invariant
                keys_distinct(desired_pairs(desired@)),
                wanted == pairs_map(desired_pairs(desired@)),
                keys_distinct(running_pairs(rest@)),
                keys_distinct(running_pairs(kept@)),
                keys_distinct(running_pairs(retired@)),
                pairs_map(running_pairs(rest@)) == table.remove_keys(seen),
                pairs_map(running_pairs(kept@)) == part(table.restrict(seen), wanted, true),
                pairs_map(running_pairs(retired@)) == part(table.restrict(seen), wanted, false),
            decreases rest.len(),
        {
            let ghost before = running_pairs(rest@);
            proof {
                lemma_pairs_pop(before);
            }
            let worker = match rest.pop() {
                Some(worker) => worker,
                None => vstd::pervasive::unreached(),
            };
            assert(running_pairs(rest@) =~= before.drop_last());
            let ghost pair = before.last();
            assert(pair == (worker.pubkey@, (worker.fingerprint@, worker.token)));
            let ghost now_seen = seen.insert(pair.0);
            assert(table.remove_keys(seen).contains_key(pair.0));
            assert(table.contains_key(pair.0) && table[pair.0] == pair.1 && !seen.contains(pair.0));
            assert(table.remove_keys(now_seen) =~= table.remove_keys(seen).remove(pair.0));
            let current = match find_desired(desired, worker.pubkey.as_str()) {
                Some(i) => str_eq(desired[i].fingerprint.as_str(), worker.fingerprint.as_str()),
                None => false,
            };
            assert(current == is_current(wanted, pair.0, pair.1.0));
            if current {
                assert(part(table.restrict(now_seen), wanted, true) =~= part(
                    table.restrict(seen),
                    wanted,
                    true,
                ).insert(pair.0, pair.1));
                assert(part(table.restrict(now_seen), wanted, false) =~= part(
                    table.restrict(seen),
                    wanted,
                    false,
                ));
                let ghost earlier = running_pairs(kept@);
                proof {
                    lemma_pairs_push(earlier, pair);
                }
                kept.push(worker);
                assert(running_pairs(kept@) =~= earlier.push(pair));
            } else {
                assert(part(table.restrict(now_seen), wanted, false) =~= part(
                    table.restrict(seen),
                    wanted,
                    false,
                ).insert(pair.0, pair.1));
                assert(part(table.restrict(now_seen), wanted, true) =~= part(
                    table.restrict(seen),
                    wanted,
                    true,
                ));
                let ghost earlier = running_pairs(retired@);
                proof {
                    lemma_pairs_push(earlier, pair);
                }
                retired.push(worker);
                assert(running_pairs(retired@) =~= earlier.push(pair));
            }
            proof {
                seen = now_seen;
            }
        }
        proof {
            assert(running_pairs(rest@) =~= Seq::empty());
            assert forall|k: Seq<char>| #[trigger] table.contains_key(k) implies seen.contains(k) by {
                if !seen.contains(k) {
                    assert(table.remove_keys(seen).contains_key(k));
                }
            }
            assert(table.restrict(seen) =~= table);
        }
        self.workers = kept;
        retired
    }

    /// Lists the desired workers that do not run.
    pub fn missing(&self, desired: &Vec<DesiredWorker>) -> (res: Vec<DesiredWorker>)
        requires
            keys_distinct(desired_pairs(desired@)),
        ensures
            keys_distinct(desired_pairs(res@)),
            pairs_map(desired_pairs(res@)) == pairs_map(desired_pairs(desired@)).remove_keys(
                self@.dom(),
            ),
    {
        let ghost pairs = desired_pairs(desired@);
        let mut absent: Vec<DesiredWorker> = Vec::new();
        let mut n: usize = 0;
        assert(desired_pairs(absent@) =~= Seq::empty());
        assert(pairs.take(0) =~= Seq::empty());
        assert(pairs_map(pairs.take(0)).remove_keys(self@.dom()) =~= Map::empty());
        while n < desired.len()
            invariant
                n <= desired.len(),
                pairs == desired_pairs(desired@),
                keys_distinct(pairs),
                keys_distinct(desired_pairs(absent@)),
                pairs_map(desired_pairs(absent@)) == pairs_map(pairs.take(n as int)).remove_keys(
                    self@.dom(),
                ),
            decreases desired.len() - n,
        {
            let worker = &desired[n];
            let ghost pair = (worker.pubkey@, worker.fingerprint@);
            let ghost before = desired_pairs(absent@);
            let ghost next = pairs.take(n + 1);
            proof {
                assert(next.drop_last() =~= pairs.take(n as int));
                assert(next.last() == pair);
                assert forall|i: int, j: int| 0 <= i < j < next.len() implies (#[trigger] next[i]).0
                    != (#[trigger] next[j]).0 by {
                    assert(pairs[i].0 != pairs[j].0);
                }
                lemma_pairs_pop(next);
            }
            if !self.contains(worker.pubkey.as_str()) {
                proof {
                    lemma_pairs_push(before, pair);
                    assert(pairs_map(next).remove_keys(self@.dom()) =~= pairs_map(
                        pairs.take(n as int),
                    ).remove_keys(self@.dom()).insert(pair.0, pair.1));
                }
                absent.push(
                    DesiredWorker {
                        pubkey: worker.pubkey.clone(),
                        fingerprint: worker.fingerprint.clone(),
                    },
                );
                assert(desired_pairs(absent@) =~= before.push(pair));
            } else {
                assert(pairs_map(next).remove_keys(self@.dom()) =~= pairs_map(
                    pairs.take(n as int),
                ).remove_keys(self@.dom()));
            }
            n = n + 1;
        }
        assert(pairs.take(pairs.len() as int) =~= pairs);
        absent
    }

    /// Enters a worker that was started for an agent without one.
    pub fn insert(&mut self, worker: DesiredWorker, token: T)
        requires
            !old(self)@.contains_key(worker.pubkey@),
        ensures
            final(self)@ == old(self)@.insert(worker.pubkey@, (worker.fingerprint@, token)),
    {
        proof {
            use_type_invariant(&*self);
        }
        let ghost before = running_pairs(self.workers@);
        let ghost pair = (worker.pubkey@, (worker.fingerprint@, token));
        proof {
            lemma_pairs_push(before, pair);
        }
        let mut workers: Vec<RunningWorker<T>> = Vec::new();
        assert(running_pairs(workers@) =~= Seq::empty());
        std::mem::swap(&mut workers, &mut self.workers);
        workers.push(
            RunningWorker { pubkey: worker.pubkey, fingerprint: worker.fingerprint, token },
        );
        assert(running_pairs(workers@) =~= before.push(pair));
        self.workers = workers;
    }

    /// Takes all workers out; they are to be cancelled.
    pub fn cancel_all_workers(&mut self) -> (res: Vec<RunningWorker<T>>)
        ensures
            final(self)@ == Map::<Seq<char>, (Seq<char>, T)>::empty(),
            keys_distinct(running_pairs(res@)),
            pairs_map(running_pairs(res@)) == old(self)@,
    {
        proof {
            use_type_invariant(&*self);
        }
        let mut workers: Vec<RunningWorker<T>> = Vec::new();
        assert(running_pairs(workers@) =~= Seq::empty());
        std::mem::swap(&mut workers, &mut self.workers);
        workers
    }
}

/// Retiring the stale workers and starting the missing ones leaves exactly the
/// desired workers, each with its desired fingerprint, and touches no worker
/// that was current.
pub proof fn law_reconciliation_converges<T>(
    table: Map<Seq<char>, (Seq<char>, T)>,
    desired: Map<Seq<char>, Seq<char>>,
    started: Map<Seq<char>, (Seq<char>, T)>,
)
    requires
        started.dom() == desired.remove_keys(part(table, desired, true).dom()).dom(),
        forall|k: Seq<char>| #[trigger]
            started.contains_key(k) ==> started[k].0 == desired[k],
    ensures
        ({
            let after = part(table, desired, true).union_prefer_right(started);
            &&& after.dom() == desired.dom()
            &&& forall|k: Seq<char>| #[trigger]
                after.contains_key(k) ==> after[k].0 == desired[k]
            &&& forall|k: Seq<char>| #[trigger]
                table.contains_key(k) && is_current(desired, k, table[k].0) ==> after[k]
                    == table[k]
            &&& part(after, desired, false) == Map::<Seq<char>, (Seq<char>, T)>::empty()
            &&& desired.remove_keys(after.dom()) == Map::<Seq<char>, Seq<char>>::empty()
        }),
{
    let kept = part(table, desired, true);
    let after = kept.union_prefer_right(started);
    assert forall|k: Seq<char>| started.contains_key(k) <==> desired.contains_key(k)
        && !kept.contains_key(k) by {
        assert(started.dom().contains(k) <==> desired.remove_keys(kept.dom()).dom().contains(k));
    }
    assert(after.dom() =~= desired.dom());
    assert(part(after, desired, false) =~= Map::empty());
    assert(desired.remove_keys(after.dom()) =~= Map::empty());
}

/// An agent gets a worker exactly if it is local and its secret key has a
/// character that is not white space.
pub proof fn law_local_agents_with_a_key_get_a_worker(agent: SavedAgentView)
    ensures
        gets_worker(agent) <==> agent.local && exists|i: int|
            0 <= i < agent.private_key_nsec.len() && !is_white_space(
                #[trigger] agent.private_key_nsec[i],
            ),
{
    law_only_blank_text_trims_to_nothing(agent.private_key_nsec);
}

/// A worker is desired for exactly the keys of the agents that get one, with the
/// fingerprint of the last such agent: the relay and the time of its last change,
/// with a bar between them.
pub proof fn law_workers_are_desired_for_their_agents(
    agents: Seq<SavedAgentView>,
    relay_url: Seq<char>,
    pubkey: Seq<char>,
)
    ensures
        desired_map(agents, relay_url).contains_key(pubkey) <==> exists|i: int|
            0 <= i < agents.len() && (#[trigger] agents[i]).pubkey == pubkey && gets_worker(
                agents[i],
            ),
        forall|i: int|
            0 <= i < agents.len() && (#[trigger] agents[i]).pubkey == pubkey && gets_worker(agents[i])
                && (forall|j: int|
                i < j < agents.len() && (#[trigger] agents[j]).pubkey == pubkey ==> !gets_worker(
                    agents[j],
                )) ==> desired_map(agents, relay_url)[pubkey] == relay_url + "|"@
                + agents[i].updated_at,
    decreases agents.len(),
{
    if agents.len() > 0 {
        let earlier = agents.drop_last();
        let last = agents.len() - 1;
        law_workers_are_desired_for_their_agents(earlier, relay_url, pubkey);
        assert(agents.last() == agents[last]);
        assert forall|i: int| 0 <= i < earlier.len() implies #[trigger] earlier[i] == agents[i] by {}
        if gets_worker(agents[last]) && agents[last].pubkey == pubkey {
            assert(desired_map(agents, relay_url).contains_key(pubkey));
        } else {
            assert(desired_map(agents, relay_url).contains_key(pubkey) <==> desired_map(
                earlier,
                relay_url,
            ).contains_key(pubkey));
            if exists|i: int|
                0 <= i < agents.len() && (#[trigger] agents[i]).pubkey == pubkey && gets_worker(
                    agents[i],
                ) {
                let i = choose|i: int|
                    0 <= i < agents.len() && (#[trigger] agents[i]).pubkey == pubkey && gets_worker(
                        agents[i],
                    );
                assert(i != last);
                assert(earlier[i] == agents[i]);
            }
            if exists|i: int|
                0 <= i < earlier.len() && (#[trigger] earlier[i]).pubkey == pubkey && gets_worker(
                    earlier[i],
                ) {
                let i = choose|i: int|
                    0 <= i < earlier.len() && (#[trigger] earlier[i]).pubkey == pubkey
                        && gets_worker(earlier[i]);
                assert(agents[i] == earlier[i]);
            }
        }
        assert forall|i: int|
            0 <= i < agents.len() && (#[trigger] agents[i]).pubkey == pubkey && gets_worker(agents[i])
                && (forall|j: int|
                i < j < agents.len() && (#[trigger] agents[j]).pubkey == pubkey ==> !gets_worker(
                    agents[j],
                )) implies desired_map(agents, relay_url)[pubkey] == relay_url + "|"@
            + agents[i].updated_at by {
            if i < last {
                assert(agents[last].pubkey == pubkey ==> !gets_worker(agents[last]));
                assert(earlier[i] == agents[i]);
                assert forall|j: int|
                    i < j < earlier.len() && (
                    #[trigger] earlier[j]).pubkey == pubkey implies !gets_worker(earlier[j]) by {
                    assert(agents[j] == earlier[j]);
                }
            }
        }
    }
}

/// A worker is kept exactly if it is desired with the fingerprint that it runs
/// with, and taken out exactly if it is not; nothing else is kept or taken out.
pub proof fn law_stale_workers_are_taken_out<T>(
    table: Map<Seq<char>, (Seq<char>, T)>,
    desired: Map<Seq<char>, Seq<char>>,
    pubkey: Seq<char>,
)
    ensures
        ({
            let kept = part(table, desired, true);
            let retired = part(table, desired, false);
            &&& table.contains_key(pubkey) && desired.contains_key(pubkey) && desired[pubkey]
                == table[pubkey].0 ==> kept.contains_key(pubkey) && kept[pubkey] == table[pubkey]
                && !retired.contains_key(pubkey)
            &&& table.contains_key(pubkey) && !(desired.contains_key(pubkey) && desired[pubkey]
                == table[pubkey].0) ==> retired.contains_key(pubkey) && retired[pubkey]
                == table[pubkey] && !kept.contains_key(pubkey)
            &&& !table.contains_key(pubkey) ==> !kept.contains_key(pubkey) && !retired.contains_key(
                pubkey,
            )
        }),
{
}

/// Lists of workers are read worker by worker, under the key of the agent and
/// with the fingerprint and the handle.
pub proof fn law_worker_lists_are_read_in_full<T>(
    desired: Seq<DesiredWorker>,
    running: Seq<RunningWorker<T>>,
    agents: Seq<SavedAgent>,
    i: int,
)
    ensures
        desired_pairs(desired).len() == desired.len(),
        0 <= i < desired.len() ==> desired_pairs(desired)[i] == (
            desired[i].pubkey@,
            desired[i].fingerprint@,
        ),
        running_pairs(running).len() == running.len(),
        0 <= i < running.len() ==> running_pairs(running)[i] == (
            running[i].pubkey@,
            (running[i].fingerprint@, running[i].token),
        ),
        agent_views(agents).len() == agents.len(),
        0 <= i < agents.len() ==> agent_views(agents)[i].pubkey == agents[i].pubkey@
            && agent_views(agents)[i].local == agents[i].local && agent_views(
            agents,
        )[i].private_key_nsec == agents[i].private_key_nsec@ && agent_views(agents)[i].updated_at
            == agents[i].updated_at@,
{
}

} // verus!
