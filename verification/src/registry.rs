//! The session registry: which sessions hold a connection, and the rules by
//! which connections start and stop. A session holds at most one.
//!
//! The registry takes no lock of its own. Its owner serialises the calls and
//! holds its lock only across one of them; no call here waits on the network.

use crate::connection::SseConnection;
use crate::distinct::{lemma_index_of, lemma_push_distinct, lemma_remove_distinct};
use std::sync::atomic::AtomicBool;
use std::sync::Arc;
use vstd::prelude::*;
use vstd::string::StringExecFns;

verus! {

/// What a request to start a session comes to.
#[derive(Clone, Copy, Debug, PartialEq, Eq, Structural)]
pub enum StartDecision {
    /// The session has a connection that is running: nothing is to be done.
    AlreadyActive,
    /// The session has a connection that no longer runs: it is stopped and
    /// replaced.
    Replace,
    /// The session has no connection: one is made.
    Fresh,
}

/// The decision for a session that is `present` in the registry or not, and
/// whose flag, where it is present, was found `running` or not.
pub open spec fn start_decision(present: bool, running: bool) -> StartDecision {
    if !present {
        StartDecision::Fresh
    } else if running {
        StartDecision::AlreadyActive
    } else {
        StartDecision::Replace
    }
}

/// Whether the decision has a task spawned.
pub open spec fn spawns(decision: StartDecision) -> bool {
    decision != StartDecision::AlreadyActive
}

/// The registered sessions after a start of `id` that came to `decision`.
pub open spec fn sessions_after_start(
    sessions: Set<Seq<char>>,
    id: Seq<char>,
    decision: StartDecision,
) -> Set<Seq<char>> {
    if spawns(decision) {
        sessions.insert(id)
    } else {
        sessions
    }
}

/// Decides a request to start a session from what was found of it.
pub fn decide_start(present: bool, running: bool) -> (d: StartDecision)
    ensures
        d == start_decision(present, running),
{
    if !present {
        StartDecision::Fresh
    } else if running {
        StartDecision::AlreadyActive
    } else {
        StartDecision::Replace
    }
}

/// Starting is idempotent. Whatever a first start of `id` found, the session
/// is registered after it; a second start that finds the session running
/// spawns nothing and leaves the registry as it is. So of two starts in a
/// row, at most one spawns a task.
pub proof fn lemma_start_idempotent(sessions: Set<Seq<char>>, id: Seq<char>, running: bool)
    ensures
        ({
            let first = start_decision(sessions.contains(id), running);
            let between = sessions_after_start(sessions, id, first);
            let second = start_decision(between.contains(id), true);
            &&& between.contains(id)
            &&& second == StartDecision::AlreadyActive
            &&& !spawns(second)
            &&& sessions_after_start(between, id, second) == between
            &&& !(spawns(first) && spawns(second))
        }),
{
}

/// One registered session.
struct Entry {
    id: String,
    connection: SseConnection,
}

/// The entries in `v` as contracts speak of them: each session's id with its
/// connection, in order.
spec fn entry_views(v: Seq<Entry>) -> Seq<(Seq<char>, SseConnection)> {
    v.map_values(|e: Entry| (e.id@, e.connection))
}

/// The ids of `entries`, in order.
pub open spec fn ids_of(entries: Seq<(Seq<char>, SseConnection)>) -> Seq<Seq<char>> {
    entries.map_values(|e: (Seq<char>, SseConnection)| e.0)
}

/// The place of `id` among `entries`.
fn position(entries: &Vec<Entry>, id: &str) -> (r: Option<usize>)
    ensures
        match r {
            Some(i) => i < entries.len() && ids_of(entry_views(entries@))[i as int] == id@,
            None => !ids_of(entry_views(entries@)).contains(id@),
        },
{
    let key = String::from_str(id);
    let mut i: usize = 0;
    while i < entries.len()
        invariant
            i <= entries.len(),
            key@ == id@,
            forall|j: int| 0 <= j < i ==> ids_of(entry_views(entries@))[j] != id@,
        decreases entries.len() - i,
    {
        if entries[i].id == key {
            return Some(i);
        }
        i = i + 1;
    }
    None
}

/// Takes the entry at `index` out of `entries` and stops its connection in
/// full. The other entries stay as they are, in their order.
fn reap(entries: &mut Vec<Entry>, index: usize)
    requires
        index < old(entries).len(),
    ensures
        final(entries)@ == old(entries)@.remove(index as int),
        entry_views(final(entries)@) == entry_views(old(entries)@).remove(index as int),
        ids_of(entry_views(final(entries)@)) == ids_of(entry_views(old(entries)@)).remove(
            index as int,
        ),
{
    let mut entry = entries.remove(index);
    entry.connection.stop();
    assert(entry_views(entries@) == entry_views(old(entries)@).remove(index as int));
    assert(ids_of(entry_views(entries@)) == ids_of(entry_views(old(entries)@)).remove(
        index as int,
    ));
}

/// The registry of sessions and their connections.
pub struct SseProxyState {
    connections: Vec<Entry>,
}

impl SseProxyState {
    #[verifier::type_invariant]
    spec fn distinct(self) -> bool {
        ids_of(entry_views(self.connections@)).no_duplicates()
    }

    /// What the registry holds: each registered session's id with its
    /// connection, in the order in which the sessions were registered.
    pub closed spec fn entries(&self) -> Seq<(Seq<char>, SseConnection)> {
        entry_views(self.connections@)
    }

    /// The ids of the registered sessions, in the order in which they were
    /// registered. No id occurs twice.
    pub open spec fn ids(&self) -> Seq<Seq<char>> {
        ids_of(self.entries())
    }

    /// The connections of the registered sessions, in the order of `ids`.
    pub open spec fn connections(&self) -> Seq<SseConnection> {
        self.entries().map_values(|e: (Seq<char>, SseConnection)| e.1)
    }

    /// The flags of the registered sessions' connections, in the order of
    /// `ids`.
    pub open spec fn flags(&self) -> Seq<Arc<AtomicBool>> {
        self.entries().map_values(|e: (Seq<char>, SseConnection)| e.1.shared_flag())
    }

    /// The registered sessions.
    pub open spec fn sessions(&self) -> Set<Seq<char>> {
        Set::new(|id: Seq<char>| self.ids().contains(id))
    }

    /// What the registry holds besides the entry of `id`: every other
    /// session's id and connection, as they are and in their order.
    pub open spec fn entries_without(&self, id: Seq<char>) -> Seq<(Seq<char>, SseConnection)> {
        if self.ids().contains(id) {
            self.entries().remove(self.ids().index_of(id))
        } else {
            self.entries()
        }
    }

    /// An empty registry.
    pub fn new() -> (r: SseProxyState)
        ensures
            r.entries() == Seq::<(Seq<char>, SseConnection)>::empty(),
    {
        SseProxyState { connections: Vec::new() }
    }

    /// How many sessions are registered. A session counts once: no id is
    /// registered twice.
    pub fn len(&self) -> (n: usize)
        ensures
            n == self.entries().len(),
            self.ids().no_duplicates(),
    {
        proof {
            use_type_invariant(self);
        }
        self.connections.len()
    }

    /// Whether `id` is registered.
    pub fn contains(&self, id: &str) -> (r: bool)
        ensures
            r == self.sessions().contains(id@),
    {
        position(&self.connections, id).is_some()
    }

    /// Carries out a start of `id` for which `found` is its place in the
    /// registry, if it has one, and `running` what was read of its flag.
    fn apply_start<F: FnOnce(Arc<AtomicBool>) -> tokio::task::JoinHandle<()>>(
        &mut self,
        id: String,
        found: Option<usize>,
        running: bool,
        spawn: F,
    ) -> (spawned: bool)
        requires
            forall|flag: Arc<AtomicBool>| call_requires(spawn, (flag,)),
            match found {
                Some(i) => i < old(self).ids().len() && old(self).ids()[i as int] == id@,
                None => !old(self).ids().contains(id@),
            },
        ensures
            spawned == spawns(start_decision(old(self).sessions().contains(id@), running)),
            !spawned ==> *final(self) == *old(self),
            spawned ==> {
                &&& final(self).entries().len() > 0
                &&& final(self).entries().drop_last() == old(self).entries_without(id@)
                &&& final(self).ids().last() == id@
                &&& exists|handle: tokio::task::JoinHandle<()>|
                    call_ensures(spawn, (final(self).flags().last(),), handle)
                        && final(self).connections().last().task() == Some(handle)
            },
            final(self).ids() == if spawned {
                old(self).ids().remove_value(id@).push(id@)
            } else {
                old(self).ids()
            },
            final(self).sessions() == old(self).sessions().insert(id@),
            final(self).ids().no_duplicates(),
    {
        proof {
            use_type_invariant(&*self);
        }
        let ghost before = self.entries();
        let ghost before_ids = ids_of(before);
        match decide_start(found.is_some(), running) {
            StartDecision::AlreadyActive => {
                assert(self.sessions() =~= old(self).sessions().insert(id@));
                false
            },
            _ => {
                match found {
                    Some(i) => {
                        let mut entries: Vec<Entry> = Vec::new();
                        core::mem::swap(&mut self.connections, &mut entries);
                        proof {
                            lemma_remove_distinct(before_ids, i as int);
                            lemma_index_of(before_ids, i as int);
                        }
                        reap(&mut entries, i);
                        self.connections = entries;
                    },
                    None => {
                        proof {
                            before_ids.index_of_first_ensures(id@);
                        }
                    },
                }
                let ghost middle = self.entries();
                assert(middle == old(self).entries_without(id@));
                assert(ids_of(middle) == before_ids.remove_value(id@));
                let mut connection = SseConnection::new();
                connection.mark_running();
                let handle = spawn(connection.flag());
                let ghost spawned_task = handle;
                connection.attach(handle);
                let ghost fresh = connection;
                let mut entries: Vec<Entry> = Vec::new();
                core::mem::swap(&mut self.connections, &mut entries);
                entries.push(Entry { id, connection });
                proof {
                    assert(entry_views(entries@) == middle.push((id@, fresh)));
                    assert(ids_of(entry_views(entries@)) == ids_of(middle).push(id@));
                    lemma_push_distinct(ids_of(middle), id@);
                }
                self.connections = entries;
                proof {
                    assert(self.entries().drop_last() == middle);
                    assert(self.entries().last() == (id@, fresh));
                    assert(self.flags().last() == fresh.shared_flag());
                    assert(self.connections().last() == fresh);
                    assert(call_ensures(spawn, (self.flags().last(),), spawned_task)
                        && self.connections().last().task() == Some(spawned_task));
                    assert(self.sessions() =~= old(self).sessions().insert(id@));
                }
                true
            },
        }
    }

    /// Starts the session `id`.
    ///
    /// Where the session has a connection whose flag is set, nothing happens:
    /// the registry stays as it is and no second task is spawned. Else a
    /// connection that lingers is stopped in full and leaves, a new one is
    /// made with its flag set, `spawn` is called once with that flag and
    /// returns the handle of the task that it has spawned, and the
    /// connection, holding that handle, is registered under `id` behind the
    /// others. The other sessions keep their connections. Tells whether a
    /// task was spawned.
    ///
    /// The flag is shared with the session's task, so what is read of it is
    /// not known beforehand: `start_with` says what follows from either
    /// reading.
    pub fn start<F: FnOnce(Arc<AtomicBool>) -> tokio::task::JoinHandle<()>>(
        &mut self,
        id: String,
        spawn: F,
    ) -> (spawned: bool)
        requires
            forall|flag: Arc<AtomicBool>| call_requires(spawn, (flag,)),
        ensures
            !old(self).sessions().contains(id@) ==> spawned,
            !spawned ==> *final(self) == *old(self),
            spawned ==> {
                &&& final(self).entries().len() > 0
                &&& final(self).entries().drop_last() == old(self).entries_without(id@)
                &&& final(self).ids().last() == id@
                &&& exists|handle: tokio::task::JoinHandle<()>|
                    call_ensures(spawn, (final(self).flags().last(),), handle)
                        && final(self).connections().last().task() == Some(handle)
            },
            final(self).ids() == if spawned {
                old(self).ids().remove_value(id@).push(id@)
            } else {
                old(self).ids()
            },
            final(self).sessions() == old(self).sessions().insert(id@),
            final(self).ids().no_duplicates(),
    {
        let found = position(&self.connections, id.as_str());
        let running = match found {
            Some(i) => self.connections[i].connection.is_running(),
            None => false,
        };
        self.apply_start(id, found, running, spawn)
    }

    /// Starts the session `id` as `start` does, with `running` in place of
    /// what `start` reads of the session's flag. Where the session is
    /// registered and `running` holds, nothing happens; else a task is
    /// spawned and the session registered anew.
    pub fn start_with<F: FnOnce(Arc<AtomicBool>) -> tokio::task::JoinHandle<()>>(
        &mut self,
        id: String,
        running: bool,
        spawn: F,
    ) -> (spawned: bool)
        requires
            forall|flag: Arc<AtomicBool>| call_requires(spawn, (flag,)),
        ensures
            spawned == spawns(start_decision(old(self).sessions().contains(id@), running)),
            !spawned ==> *final(self) == *old(self),
            spawned ==> {
                &&& final(self).entries().len() > 0
                &&& final(self).entries().drop_last() == old(self).entries_without(id@)
                &&& final(self).ids().last() == id@
                &&& exists|handle: tokio::task::JoinHandle<()>|
                    call_ensures(spawn, (final(self).flags().last(),), handle)
                        && final(self).connections().last().task() == Some(handle)
            },
            final(self).ids() == if spawned {
                old(self).ids().remove_value(id@).push(id@)
            } else {
                old(self).ids()
            },
            final(self).sessions() == sessions_after_start(
                old(self).sessions(),
                id@,
                start_decision(old(self).sessions().contains(id@), running),
            ),
            final(self).ids().no_duplicates(),
    {
        let found = position(&self.connections, id.as_str());
        let spawned = self.apply_start(id, found, running, spawn);
        assert(!spawned ==> old(self).sessions().insert(id@) =~= old(self).sessions());
        spawned
    }

    /// Stops the session `id`: takes its connection out of the registry,
    /// clears its flag and aborts its task. The other sessions keep their
    /// connections and their order. Where the session is not registered, the
    /// registry stays as it is. Tells whether the session was registered.
    pub fn stop(&mut self, id: &str) -> (stopped: bool)
        ensures
            stopped == old(self).sessions().contains(id@),
            !stopped ==> *final(self) == *old(self),
            stopped ==> final(self).entries() == old(self).entries().remove(
                old(self).ids().index_of(id@),
            ),
            final(self).entries() == old(self).entries_without(id@),
            final(self).ids() == old(self).ids().remove_value(id@),
            final(self).sessions() == old(self).sessions().remove(id@),
            final(self).ids().no_duplicates(),
    {
        proof {
            use_type_invariant(&*self);
        }
        let ghost before = self.entries();
        let ghost before_ids = ids_of(before);
        match position(&self.connections, id) {
            Some(i) => {
                let mut entries: Vec<Entry> = Vec::new();
                core::mem::swap(&mut self.connections, &mut entries);
                proof {
                    lemma_remove_distinct(before_ids, i as int);
                    lemma_index_of(before_ids, i as int);
                }
                reap(&mut entries, i);
                self.connections = entries;
                assert(self.sessions() =~= old(self).sessions().remove(id@));
                true
            },
            None => {
                proof {
                    before_ids.index_of_first_ensures(id@);
                }
                assert(self.sessions() =~= old(self).sessions().remove(id@));
                false
            },
        }
    }

    /// Stops every session: each connection leaves the registry, has its flag
    /// cleared and its task aborted, one after the other; none can keep the
    /// rest from being stopped. Tells how many there were.
    pub fn stop_all(&mut self) -> (stopped: usize)
        ensures
            stopped == old(self).entries().len(),
            final(self).entries() == Seq::<(Seq<char>, SseConnection)>::empty(),
            final(self).sessions() == Set::<Seq<char>>::empty(),
    {
        let mut entries: Vec<Entry> = Vec::new();
        core::mem::swap(&mut self.connections, &mut entries);
        assert(entry_views(self.connections@) == Seq::<(Seq<char>, SseConnection)>::empty());
        let total = entries.len();
        let mut stopped: usize = 0;
        while entries.len() > 0
            invariant
                stopped + entries.len() == total,
            decreases entries.len(),
        {
            let last = entries.len() - 1;
            reap(&mut entries, last);
            stopped = stopped + 1;
        }
        assert(self.sessions() =~= Set::<Seq<char>>::empty());
        stopped
    }
}

/// Starting a session that is not registered and then stopping it gives the
/// registry back: what is left when the new entry, registered behind the
/// others, leaves again is what was there before, every session with the
/// connection that it had.
pub proof fn lemma_start_then_stop(
    entries: Seq<(Seq<char>, SseConnection)>,
    id: Seq<char>,
    connection: SseConnection,
)
    requires
        ids_of(entries).no_duplicates(),
        !ids_of(entries).contains(id),
    ensures
        ({
            let started = entries.push((id, connection));
            &&& ids_of(started).no_duplicates()
            &&& ids_of(started).index_of(id) == entries.len()
            &&& started.remove(ids_of(started).index_of(id)) == entries
        }),
{
    let started = entries.push((id, connection));
    assert(ids_of(started) == ids_of(entries).push(id));
    lemma_push_distinct(ids_of(entries), id);
    lemma_index_of(ids_of(started), entries.len() as int);
}

impl Default for SseProxyState {
    /// An empty registry.
    fn default() -> (r: SseProxyState)
        ensures
            r.entries() == Seq::<(Seq<char>, SseConnection)>::empty(),
    {
        SseProxyState::new()
    }
}

} // verus!
