use vstd::prelude::*;

use crate::text::{blank, is_blank};

verus! {

/// A point in time, as whole seconds and nanoseconds since the Unix epoch.
#[derive(Clone, Copy, Debug, PartialEq, Eq, Structural)]
pub struct Timestamp {
    pub secs_since_epoch: u64,
    pub nanos_since_epoch: u32,
}

impl Timestamp {
    pub fn new(secs_since_epoch: u64, nanos_since_epoch: u32) -> (r: Timestamp)
        ensures
            r.secs_since_epoch == secs_since_epoch,
            r.nanos_since_epoch == nanos_since_epoch,
    {
        Timestamp { secs_since_epoch, nanos_since_epoch }
    }
}

/// Metadata tracked by the session store for each session.
#[derive(Clone, Copy, Debug, PartialEq, Eq, Structural)]
pub struct SessionMetadata {
    pub created_at: Timestamp,
    pub last_used: Timestamp,
}

impl SessionMetadata {
    /// Metadata of a session created at `now`: both timestamps are `now`.
    pub fn new(now: Timestamp) -> (r: SessionMetadata)
        ensures
            r.created_at == now,
            r.last_used == now,
    {
        SessionMetadata { created_at: now, last_used: now }
    }
}

/// A session's data together with its metadata.
#[derive(Clone, Debug)]
pub struct SessionEntry<T> {
    pub data: T,
    pub metadata: SessionMetadata,
}

impl<T> SessionEntry<T> {
    pub fn new(data: T, metadata: SessionMetadata) -> (r: SessionEntry<T>)
        ensures
            r.data == data,
            r.metadata == metadata,
    {
        SessionEntry { data, metadata }
    }

    /// Marks the entry as used at `now`; the data and the creation time stay.
    pub fn update_last_used(&mut self, now: Timestamp)
        ensures
            final(self).data == old(self).data,
            final(self).metadata.created_at == old(self).metadata.created_at,
            final(self).metadata.last_used == now,
    {
        self.metadata.last_used = now;
    }
}

/// The map that a list of `(id, entry)` pairs stands for: a later pair for
/// the same id replaces an earlier one.
pub open spec fn map_of<T>(s: Seq<(String, SessionEntry<T>)>) -> Map<Seq<char>, SessionEntry<T>>
    decreases s.len(),
{
    if s.len() == 0 {
        Map::empty()
    } else {
        map_of(s.drop_last()).insert(s.last().0@, s.last().1)
    }
}

/// No pair at or after index `from` has the id `id`.
pub open spec fn absent_from<T>(s: Seq<(String, SessionEntry<T>)>, id: Seq<char>, from: int) -> bool {
    forall|j: int| from <= j < s.len() ==> (#[trigger] s[j]).0@ != id
}

proof fn lemma_map_of_absent<T>(s: Seq<(String, SessionEntry<T>)>, id: Seq<char>)
    requires
        absent_from(s, id, 0),
    ensures
        !map_of(s).contains_key(id),
    decreases s.len(),
{
    if s.len() > 0 {
        assert(absent_from(s.drop_last(), id, 0)) by {
            assert forall|j: int| 0 <= j < s.drop_last().len() implies (#[trigger] s.drop_last()[j]).0@ != id by {
                assert(s.drop_last()[j] == s[j]);
            }
        }
        lemma_map_of_absent(s.drop_last(), id);
        assert(s[s.len() - 1].0@ != id);
    }
}

proof fn lemma_map_of_last<T>(s: Seq<(String, SessionEntry<T>)>, i: int)
    requires
        0 <= i < s.len(),
        absent_from(s, s[i].0@, i + 1),
    ensures
        map_of(s).contains_key(s[i].0@),
        map_of(s)[s[i].0@] == s[i].1,
    decreases s.len(),
{
    if i < s.len() - 1 {
        let t = s.drop_last();
        assert(t[i] == s[i]);
        assert(absent_from(t, t[i].0@, i + 1)) by {
            assert forall|j: int| i + 1 <= j < t.len() implies (#[trigger] t[j]).0@ != t[i].0@ by {
                assert(t[j] == s[j]);
            }
        }
        lemma_map_of_last(t, i);
        assert(s[s.len() - 1].0@ != s[i].0@);
    }
}

proof fn lemma_map_of_update<T>(s: Seq<(String, SessionEntry<T>)>, i: int, p: (String, SessionEntry<T>))
    requires
        0 <= i < s.len(),
        p.0@ == s[i].0@,
        absent_from(s, s[i].0@, i + 1),
    ensures
        map_of(s.update(i, p)) == map_of(s).insert(p.0@, p.1),
    decreases s.len(),
{
    let u = s.update(i, p);
    if i == s.len() - 1 {
        assert(u.drop_last() == s.drop_last());
    } else {
        let t = s.drop_last();
        assert(t[i] == s[i]);
        assert(absent_from(t, t[i].0@, i + 1)) by {
            assert forall|j: int| i + 1 <= j < t.len() implies (#[trigger] t[j]).0@ != t[i].0@ by {
                assert(t[j] == s[j]);
            }
        }
        lemma_map_of_update(t, i, p);
        assert(u.drop_last() == t.update(i, p));
        assert(s[s.len() - 1].0@ != s[i].0@);
        assert(map_of(u) == map_of(s).insert(p.0@, p.1));
    }
}

/// No id occurs twice in the list.
pub open spec fn ids_unique<T>(s: Seq<(String, SessionEntry<T>)>) -> bool {
    forall|i: int, j: int| 0 <= i < j < s.len() ==> (#[trigger] s[i]).0@ != (#[trigger] s[j]).0@
}

/// The entry of a session created at `now` that holds `data`.
pub open spec fn fresh_entry<T>(data: T, now: Timestamp) -> SessionEntry<T> {
    SessionEntry { data, metadata: SessionMetadata { created_at: now, last_used: now } }
}

/// The entry `e` once its data became `data`: marked used at `now` if the
/// update counted as a change, with its metadata as it was otherwise.
pub open spec fn updated_entry<T>(e: SessionEntry<T>, data: T, changed: bool, now: Timestamp) -> SessionEntry<T> {
    SessionEntry {
        data,
        metadata: if changed {
            SessionMetadata { created_at: e.metadata.created_at, last_used: now }
        } else {
            e.metadata
        },
    }
}

/// What `get_or_create` does to the sessions `pre`: an unknown `id` gets a
/// fresh entry with a default value, created at `now`, and counts as created;
/// a known one leaves the sessions as they are.
pub open spec fn got_or_created<T: Default>(
    pre: Map<Seq<char>, SessionEntry<T>>,
    post: Map<Seq<char>, SessionEntry<T>>,
    id: Seq<char>,
    now: Timestamp,
    created: bool,
) -> bool {
    &&& created == !pre.contains_key(id)
    &&& !created ==> post == pre
    &&& created ==> exists|d: T|
        call_ensures(T::default, (), d) && post == pre.insert(id, #[trigger] fresh_entry(d, now))
}

/// What `set` does to the sessions `pre`: the entry of `id` gets `data`. On a
/// known id it is a change when a copy of the old value and `data` compare
/// unequal, and only then is it marked used at `now`. An unknown id gets a
/// fresh entry created at `now` that holds `data`; that is a change when a
/// copy of the default value and `data` compare unequal.
pub open spec fn set_outcome<T: Default + Clone + PartialEq>(
    pre: Map<Seq<char>, SessionEntry<T>>,
    post: Map<Seq<char>, SessionEntry<T>>,
    id: Seq<char>,
    data: T,
    now: Timestamp,
    changed: bool,
) -> bool {
    &&& pre.contains_key(id) ==> exists|copy: T|
        #[trigger] call_ensures(T::clone, (&pre[id].data,), copy)
        && call_ensures(T::eq, (&copy, &data), !changed)
        && post == pre.insert(id, updated_entry(pre[id], data, changed, now))
    &&& !pre.contains_key(id) ==> exists|d: T, copy: T|
        call_ensures(T::default, (), d)
        && #[trigger] call_ensures(T::clone, (&d,), copy)
        && call_ensures(T::eq, (&copy, &data), !changed)
        && post == pre.insert(id, fresh_entry(data, now))
}

/// Session store: a map from session ids to entries, which decides for each
/// operation whether the map changed in a way that has to be persisted.
///
/// This value holds the in-memory state only; the caller that owns the backing
/// file saves `entries()` whenever an operation reports a change, and hands a
/// reread file to `load`.
#[derive(Debug)]
pub struct SessionStore<T> {
    // A list with each id once rather than a `HashMap`: vstd's `HashMap`
    // specifications hold only for key types that obey its key model, which
    // `String` is not known to do.
    sessions: Vec<(String, SessionEntry<T>)>,
}

impl<T> View for SessionStore<T> {
    type V = Map<Seq<char>, SessionEntry<T>>;

    closed spec fn view(&self) -> Map<Seq<char>, SessionEntry<T>> {
        map_of(self.sessions@)
    }
}

impl<T> SessionStore<T> {
    /// Well-formedness: each session id occurs once in the list.
    pub closed spec fn wf(&self) -> bool {
        ids_unique(self.sessions@)
    }

    /// An empty store.
    pub fn new() -> (r: SessionStore<T>)
        ensures
            r.wf(),
            r@ == Map::<Seq<char>, SessionEntry<T>>::empty(),
    {
        SessionStore { sessions: Vec::new() }
    }

    /// Index of the pair that decides the entry of `key`, if any.
    fn find(&self, key: &String) -> (r: Option<usize>)
        ensures
            match r {
                Some(i) => i < self.sessions@.len() && self.sessions@[i as int].0@ == key@
                    && absent_from(self.sessions@, key@, i + 1),
                None => absent_from(self.sessions@, key@, 0),
            },
    {
        let mut i: usize = self.sessions.len();
        while i > 0
            invariant
                i <= self.sessions@.len(),
                absent_from(self.sessions@, key@, i as int),
            decreases i,
        {
            if self.sessions[i - 1].0 == *key {
                return Some(i - 1);
            }
            i = i - 1;
        }
        None
    }

    /// Adds a pair whose id is not in the list yet.
    fn push_new(&mut self, key: String, entry: SessionEntry<T>)
        requires
            old(self).wf(),
            absent_from(old(self).sessions@, key@, 0),
        ensures
            final(self).wf(),
            final(self)@ == old(self)@.insert(key@, entry),
    {
        self.sessions.push((key, entry));
        proof {
            assert(self.sessions@.drop_last() == old(self).sessions@);
            assert(ids_unique(self.sessions@)) by {
                assert forall|i: int, j: int| 0 <= i < j < self.sessions@.len() implies
                    (#[trigger] self.sessions@[i]).0@ != (#[trigger] self.sessions@[j]).0@ by {
                    if j == self.sessions@.len() - 1 {
                        assert(self.sessions@[i] == old(self).sessions@[i]);
                    } else {
                        assert(self.sessions@[i] == old(self).sessions@[i]);
                        assert(self.sessions@[j] == old(self).sessions@[j]);
                    }
                }
            }
        }
    }

    /// Sets the entry of `key` to `entry`, replacing the one there was.
    fn put(&mut self, key: String, entry: SessionEntry<T>)
        requires
            old(self).wf(),
        ensures
            final(self).wf(),
            final(self)@ == old(self)@.insert(key@, entry),
    {
        match self.find(&key) {
            Some(i) => {
                proof {
                    lemma_map_of_update(self.sessions@, i as int, (key, entry));
                }
                self.sessions.set(i, (key, entry));
                proof {
                    assert(ids_unique(self.sessions@)) by {
                        assert forall|a: int, b: int| 0 <= a < b < self.sessions@.len() implies
                            (#[trigger] self.sessions@[a]).0@ != (#[trigger] self.sessions@[b]).0@ by {
                            assert(old(self).sessions@[a].0@ != old(self).sessions@[b].0@);
                        }
                    }
                }
            },
            None => self.push_new(key, entry),
        }
    }

    /// The data of session `session_id`, if there is one. Never creates an entry.
    pub fn get(&self, session_id: &str) -> (r: Option<&T>)
        ensures
            match r {
                Some(d) => self@.contains_key(session_id@) && *d == self@[session_id@].data,
                None => !self@.contains_key(session_id@),
            },
    {
        let key = session_id.to_owned();
        match self.find(&key) {
            Some(i) => {
                proof {
                    lemma_map_of_last(self.sessions@, i as int);
                }
                Some(&self.sessions[i].1.data)
            },
            None => {
                proof {
                    lemma_map_of_absent(self.sessions@, key@);
                }
                None
            },
        }
    }

    /// Makes sure session `session_id` exists, creating it with `T::default()`
    /// and timestamps `now` if it is unknown; its data is then read with `get`.
    /// Returns whether it was created: a new entry is a change to persist,
    /// while an existing one is neither changed nor marked used.
    pub fn get_or_create(&mut self, session_id: &str, now: Timestamp) -> (created: bool)
        where
            T: Default,
        requires
            old(self).wf(),
        ensures
            final(self).wf(),
            got_or_created(old(self)@, final(self)@, session_id@, now, created),
            final(self)@.contains_key(session_id@),
    {
        let key = session_id.to_owned();
        match self.find(&key) {
            Some(i) => {
                proof {
                    lemma_map_of_last(self.sessions@, i as int);
                }
                false
            },
            None => {
                proof {
                    lemma_map_of_absent(self.sessions@, key@);
                }
                let data = T::default();
                let entry = SessionEntry::new(data, SessionMetadata::new(now));
                self.push_new(key, entry);
                proof {
                    assert(self@ == old(self)@.insert(session_id@, fresh_entry(data, now)));
                }
                true
            },
        }
    }

    /// Applies `fun` to the data of session `session_id`; an unknown session
    /// is first created in memory with `T::default()` and timestamps `now`.
    /// The update counts as a change when a copy of the data from before `fun`
    /// and the data after it compare unequal; then a known entry is marked
    /// used at `now`. Otherwise the metadata stays. Returns whether there was a
    /// change to persist.
    pub fn update<F: FnOnce(&mut T)>(&mut self, session_id: &str, fun: F, now: Timestamp) -> (changed: bool)
        where
            T: Default + Clone + PartialEq,
        requires
            old(self).wf(),
            forall|r: &mut T| #[trigger] call_requires(fun, (r,)),
        ensures
            final(self).wf(),
            old(self)@.contains_key(session_id@) ==> exists|r: &mut T, copy: T|
                *r == old(self)@[session_id@].data
                && #[trigger] call_ensures(T::clone, (&old(self)@[session_id@].data,), copy)
                && #[trigger] call_ensures(fun, (r,), ())
                && call_ensures(T::eq, (&copy, &*final(r)), !changed)
                && final(self)@ == old(self)@.insert(
                    session_id@,
                    updated_entry(old(self)@[session_id@], *final(r), changed, now),
                ),
            !old(self)@.contains_key(session_id@) ==> exists|r: &mut T, copy: T|
                call_ensures(T::default, (), *r)
                && #[trigger] call_ensures(T::clone, (&*r,), copy)
                && #[trigger] call_ensures(fun, (r,), ())
                && call_ensures(T::eq, (&copy, &*final(r)), !changed)
                && final(self)@ == old(self)@.insert(session_id@, fresh_entry(*final(r), now)),
    {
        let key = session_id.to_owned();
        match self.find(&key) {
            Some(i) => {
                proof {
                    lemma_map_of_last(self.sessions@, i as int);
                }
                let before = self.sessions[i].1.data.clone();
                let pair = &mut self.sessions[i];
                fun(&mut pair.1.data);
                let changed = !before.eq(&pair.1.data);
                if changed {
                    pair.1.update_last_used(now);
                }
                proof {
                    lemma_map_of_update(
                        old(self).sessions@,
                        i as int,
                        (old(self).sessions@[i as int].0, self.sessions@[i as int].1),
                    );
                    assert(self.sessions@ == old(self).sessions@.update(
                        i as int,
                        (old(self).sessions@[i as int].0, self.sessions@[i as int].1),
                    ));
                    assert(ids_unique(self.sessions@)) by {
                        assert forall|a: int, b: int| 0 <= a < b < self.sessions@.len() implies
                            (#[trigger] self.sessions@[a]).0@ != (#[trigger] self.sessions@[b]).0@ by {
                            assert(old(self).sessions@[a].0@ != old(self).sessions@[b].0@);
                        }
                    }
                }
                changed
            },
            None => {
                proof {
                    lemma_map_of_absent(self.sessions@, key@);
                }
                let mut data = T::default();
                let before = data.clone();
                fun(&mut data);
                let changed = !before.eq(&data);
                let entry = SessionEntry::new(data, SessionMetadata::new(now));
                self.push_new(key, entry);
                proof {
                    assert(self@ == old(self)@.insert(session_id@, fresh_entry(data, now)));
                }
                changed
            },
        }
    }

    /// Replaces the data of session `session_id` with `data`: an `update` whose
    /// mutator overwrites the value, so an equal value is no change.
    pub fn set(&mut self, session_id: &str, data: T, now: Timestamp) -> (changed: bool)
        where
            T: Default + Clone + PartialEq,
        requires
            old(self).wf(),
        ensures
            final(self).wf(),
            set_outcome(old(self)@, final(self)@, session_id@, data, now, changed),
            final(self)@[session_id@].data == data,
    {
        let ghost value = data;
        let replace = move |existing: &mut T|
            ensures
                *final(existing) == value,
        {
            *existing = data;
        };
        self.update(session_id, replace, now)
    }

    /// Applies a reread backing file: `contents` is its text and `parsed` the
    /// session pairs decoded from it, or `None` where the file did not decode.
    /// A blank file or one that did not decode leaves the sessions as they are
    /// (the last good state is kept); otherwise they become exactly the decoded
    /// ones, a later pair for an id replacing an earlier one.
    pub fn load(&mut self, contents: &str, parsed: Option<Vec<(String, SessionEntry<T>)>>)
        requires
            old(self).wf(),
        ensures
            final(self).wf(),
            is_blank(contents@) || parsed is None ==> final(self)@ == old(self)@,
            !is_blank(contents@) && parsed is Some ==> final(self)@ == map_of(parsed->0@),
    {
        if !blank(contents) {
            if let Some(pairs) = parsed {
                let ghost all = pairs@;
                let mut fresh: SessionStore<T> = SessionStore::new();
                for pair in it: pairs
                    invariant
                        it.seq() == all,
                        fresh.wf(),
                        fresh@ == map_of(all.subrange(0, it.index() as int)),
                {
                    proof {
                        let n = it.index() as int;
                        assert(all.subrange(0, n + 1).drop_last() == all.subrange(0, n));
                    }
                    let (key, entry) = pair;
                    fresh.put(key, entry);
                }
                proof {
                    assert(all.subrange(0, all.len() as int) == all);
                }
                *self = fresh;
            }
        }
    }

    /// The session pairs to persist: each id once, standing for exactly this
    /// store's map.
    pub fn entries(&self) -> (r: &Vec<(String, SessionEntry<T>)>)
        requires
            self.wf(),
        ensures
            map_of(r@) == self@,
            ids_unique(r@),
    {
        &self.sessions
    }
}

} // verus!
