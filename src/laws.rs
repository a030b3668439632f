use vstd::prelude::*;

use crate::session::{
    fresh_entry, got_or_created, map_of, set_outcome, updated_entry, SessionEntry, SessionStore,
    Timestamp,
};
use crate::text::is_blank;
use crate::watch::{changes_content, echoes_after, reload_flagged, watch_step, FsEventKind, ECHO_EVENTS_PER_SAVE};

verus! {

/// A first `get_or_create` on an unknown id creates a default entry whose two
/// timestamps are equal, and reports the one change to persist; an immediate
/// second call on the same id creates nothing and changes nothing.
pub proof fn lemma_first_creation_persists_once<T: Default>(
    s0: SessionStore<T>,
    s1: SessionStore<T>,
    s2: SessionStore<T>,
    id: Seq<char>,
    now1: Timestamp,
    now2: Timestamp,
    created1: bool,
    created2: bool,
)
    requires
        !s0@.contains_key(id),
        got_or_created(s0@, s1@, id, now1, created1),
        got_or_created(s1@, s2@, id, now2, created2),
    ensures
        created1,
        !created2,
        s2@ == s1@,
        call_ensures(T::default, (), s1@[id].data),
        s1@[id].metadata.created_at == now1,
        s1@[id].metadata.last_used == now1,
{
    let d = choose|d: T|
        call_ensures(T::default, (), d) && s1@ == s0@.insert(id, #[trigger] fresh_entry(d, now1));
    assert(s1@[id] == fresh_entry(d, now1));
}

/// An update whose mutator leaves the data as it found it, on a payload whose
/// clone copies and whose `==` is equality, is no change: nothing to persist.
/// A known session keeps its entry, `last_used` included; an unknown one is
/// held in memory with its default value and equal timestamps.
pub proof fn lemma_noop_update_is_stable<T: Default + Clone + PartialEq, F: FnOnce(&mut T)>(
    before: SessionStore<T>,
    after: SessionStore<T>,
    id: Seq<char>,
    fun: F,
    now: Timestamp,
    changed: bool,
)
    requires
        before@.contains_key(id) ==> exists|r: &mut T, copy: T|
            *r == before@[id].data
            && #[trigger] call_ensures(T::clone, (&before@[id].data,), copy)
            && #[trigger] call_ensures(fun, (r,), ())
            && call_ensures(T::eq, (&copy, &*final(r)), !changed)
            && after@ == before@.insert(id, updated_entry(before@[id], *final(r), changed, now)),
        !before@.contains_key(id) ==> exists|r: &mut T, copy: T|
            call_ensures(T::default, (), *r)
            && #[trigger] call_ensures(T::clone, (&*r,), copy)
            && #[trigger] call_ensures(fun, (r,), ())
            && call_ensures(T::eq, (&copy, &*final(r)), !changed)
            && after@ == before@.insert(id, fresh_entry(*final(r), now)),
        forall|r: &mut T| #[trigger] call_ensures(fun, (r,), ()) ==> *final(r) == *r,
        forall|a: T, c: T| #[trigger] call_ensures(T::clone, (&a,), c) ==> c == a,
        forall|a: T, b: T, e: bool| #[trigger] call_ensures(T::eq, (&a, &b), e) ==> (e <==> a == b),
    ensures
        !changed,
        before@.contains_key(id) ==> after@ == before@,
        !before@.contains_key(id) ==> {
            &&& call_ensures(T::default, (), after@[id].data)
            &&& after@[id].metadata.created_at == now
            &&& after@[id].metadata.last_used == now
            &&& after@ == before@.insert(id, after@[id])
        },
{
    if before@.contains_key(id) {
        let (r, copy) = choose|r: &mut T, copy: T|
            *r == before@[id].data
            && #[trigger] call_ensures(T::clone, (&before@[id].data,), copy)
            && #[trigger] call_ensures(fun, (r,), ())
            && call_ensures(T::eq, (&copy, &*final(r)), !changed)
            && after@ == before@.insert(id, updated_entry(before@[id], *final(r), changed, now));
        assert(after@[id] == before@[id]);
        assert(after@ == before@);
    } else {
        let (r, copy) = choose|r: &mut T, copy: T|
            call_ensures(T::default, (), *r)
            && #[trigger] call_ensures(T::clone, (&*r,), copy)
            && #[trigger] call_ensures(fun, (r,), ())
            && call_ensures(T::eq, (&copy, &*final(r)), !changed)
            && after@ == before@.insert(id, fresh_entry(*final(r), now));
        assert(after@[id] == fresh_entry(*final(r), now));
    }
}

/// One write: `post` is `pre` with the entry of `id` set, whatever it was.
pub open spec fn writes_entry<T>(
    pre: Map<Seq<char>, SessionEntry<T>>,
    post: Map<Seq<char>, SessionEntry<T>>,
    id: Seq<char>,
) -> bool {
    post.contains_key(id) && post == pre.insert(id, post[id])
}

/// A `set` is a write of the value it was given.
pub proof fn lemma_set_writes<T: Default + Clone + PartialEq>(
    pre: Map<Seq<char>, SessionEntry<T>>,
    post: Map<Seq<char>, SessionEntry<T>>,
    id: Seq<char>,
    data: T,
    now: Timestamp,
    changed: bool,
)
    requires
        set_outcome(pre, post, id, data, now, changed),
    ensures
        writes_entry(pre, post, id),
        post[id].data == data,
{
}

/// An `update` is a write of the value that its mutator produced.
pub proof fn lemma_update_writes<T: Default + Clone + PartialEq, F: FnOnce(&mut T)>(
    before: SessionStore<T>,
    after: SessionStore<T>,
    id: Seq<char>,
    fun: F,
    now: Timestamp,
    changed: bool,
)
    requires
        before@.contains_key(id) ==> exists|r: &mut T, copy: T|
            *r == before@[id].data
            && #[trigger] call_ensures(T::clone, (&before@[id].data,), copy)
            && #[trigger] call_ensures(fun, (r,), ())
            && call_ensures(T::eq, (&copy, &*final(r)), !changed)
            && after@ == before@.insert(id, updated_entry(before@[id], *final(r), changed, now)),
        !before@.contains_key(id) ==> exists|r: &mut T, copy: T|
            call_ensures(T::default, (), *r)
            && #[trigger] call_ensures(T::clone, (&*r,), copy)
            && #[trigger] call_ensures(fun, (r,), ())
            && call_ensures(T::eq, (&copy, &*final(r)), !changed)
            && after@ == before@.insert(id, fresh_entry(*final(r), now)),
    ensures
        writes_entry(before@, after@, id),
        exists|r: &mut T| #[trigger] call_ensures(fun, (r,), ()) && *final(r) == after@[id].data,
{
    if before@.contains_key(id) {
        let (r, copy) = choose|r: &mut T, copy: T|
            *r == before@[id].data
            && #[trigger] call_ensures(T::clone, (&before@[id].data,), copy)
            && #[trigger] call_ensures(fun, (r,), ())
            && call_ensures(T::eq, (&copy, &*final(r)), !changed)
            && after@ == before@.insert(id, updated_entry(before@[id], *final(r), changed, now));
        assert(after@[id].data == *final(r));
    } else {
        let (r, copy) = choose|r: &mut T, copy: T|
            call_ensures(T::default, (), *r)
            && #[trigger] call_ensures(T::clone, (&*r,), copy)
            && #[trigger] call_ensures(fun, (r,), ())
            && call_ensures(T::eq, (&copy, &*final(r)), !changed)
            && after@ == before@.insert(id, fresh_entry(*final(r), now));
        assert(after@[id].data == *final(r));
    }
}

/// A run of writes: `stores[i + 1]` is `stores[i]` after a `set` or `update`
/// on session `ids[i]`.
pub open spec fn write_run<T>(stores: Seq<SessionStore<T>>, ids: Seq<Seq<char>>) -> bool {
    &&& stores.len() == ids.len() + 1
    &&& forall|i: int| 0 <= i < ids.len() ==> #[trigger] writes_entry(stores[i]@, stores[i + 1]@, ids[i])
}

proof fn lemma_write_run_keeps_last<T>(stores: Seq<SessionStore<T>>, ids: Seq<Seq<char>>, k: int, n: int)
    requires
        write_run(stores, ids),
        0 <= k < n <= ids.len(),
        forall|j: int| k < j < ids.len() ==> ids[j] != ids[k],
    ensures
        stores[n]@.contains_key(ids[k]),
        stores[n]@[ids[k]] == stores[k + 1]@[ids[k]],
    decreases n - k,
{
    if n == k + 1 {
        assert(writes_entry(stores[k]@, stores[k + 1]@, ids[k]));
    } else {
        lemma_write_run_keeps_last(stores, ids, k, n - 1);
        let m = n - 1;
        assert(writes_entry(stores[m]@, stores[m + 1]@, ids[m]));
    }
}

/// Round trip: after any run of `set` and `update` calls on one store, a fresh
/// store that loads the (non-blank) file holding the pairs that the last state
/// saved holds, for every id touched, the entry its last write left: the value
/// given to the last `set`, or produced by the last `update`'s mutator.
pub proof fn lemma_round_trip<T>(
    stores: Seq<SessionStore<T>>,
    ids: Seq<Seq<char>>,
    saved: Seq<(String, SessionEntry<T>)>,
    contents: Seq<char>,
    fresh_before: SessionStore<T>,
    fresh_after: SessionStore<T>,
    k: int,
)
    requires
        write_run(stores, ids),
        map_of(saved) == stores.last()@,
        is_blank(contents) ==> fresh_after@ == fresh_before@,
        !is_blank(contents) ==> fresh_after@ == map_of(saved),
        !is_blank(contents),
        0 <= k < ids.len(),
        forall|j: int| k < j < ids.len() ==> ids[j] != ids[k],
    ensures
        fresh_after@ == stores.last()@,
        fresh_after@.contains_key(ids[k]),
        fresh_after@[ids[k]] == stores[k + 1]@[ids[k]],
{
    lemma_write_run_keeps_last(stores, ids, k, ids.len() as int);
}

proof fn lemma_echoes_count_down(echoes_pending: usize, kinds: Seq<FsEventKind>)
    requires
        kinds.len() <= echoes_pending,
    ensures
        !reload_flagged(echoes_pending, kinds),
        echoes_after(echoes_pending, kinds) >= echoes_pending - kinds.len(),
    decreases kinds.len(),
{
    if kinds.len() > 0 {
        lemma_echoes_count_down(echoes_pending, kinds.drop_last());
    }
}

/// Right after a save arms the watcher, the next `ECHO_EVENTS_PER_SAVE`
/// notifications flag no reload, whatever wrote the file: an external rewrite
/// among them goes unnoticed.
pub proof fn lemma_echo_window_hides_changes(kinds: Seq<FsEventKind>)
    requires
        kinds.len() <= ECHO_EVENTS_PER_SAVE,
    ensures
        !reload_flagged(ECHO_EVENTS_PER_SAVE, kinds),
{
    lemma_echoes_count_down(ECHO_EVENTS_PER_SAVE, kinds);
}

proof fn lemma_content_events_use_echoes(echoes_pending: usize, kinds: Seq<FsEventKind>)
    requires
        kinds.len() <= echoes_pending,
        forall|i: int| 0 <= i < kinds.len() ==> changes_content(#[trigger] kinds[i]),
    ensures
        echoes_after(echoes_pending, kinds) == echoes_pending - kinds.len(),
    decreases kinds.len(),
{
    if kinds.len() > 0 {
        let init = kinds.drop_last();
        assert forall|i: int| 0 <= i < init.len() implies changes_content(#[trigger] init[i]) by {
            assert(init[i] == kinds[i]);
        }
        lemma_content_events_use_echoes(echoes_pending, init);
        assert(changes_content(kinds[kinds.len() - 1]));
    }
}

/// Once a save's echoes are used up by content notifications, the next
/// content notification flags a reload.
pub proof fn lemma_change_after_window_reloads(kinds: Seq<FsEventKind>, next: FsEventKind)
    requires
        kinds.len() == ECHO_EVENTS_PER_SAVE,
        forall|i: int| 0 <= i < kinds.len() ==> changes_content(#[trigger] kinds[i]),
        changes_content(next),
    ensures
        reload_flagged(ECHO_EVENTS_PER_SAVE, kinds.push(next)),
{
    lemma_content_events_use_echoes(ECHO_EVENTS_PER_SAVE, kinds);
    assert(kinds.push(next).drop_last() == kinds);
    assert(watch_step(echoes_after(ECHO_EVENTS_PER_SAVE, kinds), next).mark_reload);
}

} // verus!
