//! Lifecycle manager: activation and deactivation of plugins, the "time" half
//! of space/time composability.

use vstd::prelude::*;
use crate::event_bus::EventBus;
use crate::plugin::{Plugin, PluginContext};
use crate::registry::ServiceRegistry;
use crate::scope::Scope;
use crate::trace::{TraceCollector, TraceEntry};

verus! {

/// `std::any::TypeId`, the identity of a plugin's type.
#[verifier::external_type_specification]
#[verifier::external_body]
pub struct ExTypeId(std::any::TypeId);

/// `std::any::TypeId::of::<T>()`. Nothing is claimed of the identity it gives.
#[verifier::external_body]
fn type_id_of<T: ?Sized + 'static>() -> std::any::TypeId {
    std::any::TypeId::of::<T>()
}

/// The run-time record of an active plugin: the plugin itself, so that it can
/// be deactivated, its type and its manifest id.
#[allow(dead_code)]
struct ActivePlugin {
    type_id: std::any::TypeId,
    manifest_id: String,
    plugin: Box<dyn Plugin>,
}

spec fn ids_of(table: Seq<ActivePlugin>) -> Seq<Seq<char>> {
    table.map_values(|p: ActivePlugin| p.manifest_id@)
}

/// The active ids after `id` is marked active: unchanged when `id` already is.
pub open spec fn with_id(ids: Seq<Seq<char>>, id: Seq<char>) -> Seq<Seq<char>> {
    if ids.contains(id) {
        ids
    } else {
        ids.push(id)
    }
}

/// The active ids after `id` is marked inactive: unchanged when it was not
/// active.
pub open spec fn without_id(ids: Seq<Seq<char>>, id: Seq<char>) -> Seq<Seq<char>> {
    ids.remove_value(id)
}

/// The change one activation makes to the active ids and to the trace, given
/// the manifest id `id` of the plugin and the answer `r`: on success the id is
/// active and `PluginLoaded(id)` is appended; a failure changes neither.
pub open spec fn activation_step(
    ids_before: Seq<Seq<char>>,
    ids_after: Seq<Seq<char>>,
    trace_before: Seq<TraceEntry>,
    trace_after: Seq<TraceEntry>,
    id: String,
    r: Result<(), anyhow::Error>,
) -> bool {
    &&& r is Err ==> ids_after == ids_before && trace_after == trace_before
    &&& r is Ok ==> {
        &&& ids_after == with_id(ids_before, id@)
        &&& trace_after == trace_before.push(TraceEntry::PluginLoaded(id))
    }
}

/// The ids of a table after an entry is appended. (The sequence axioms are
/// invoked by hand: the entries hold `dyn Plugin` values.)
proof fn lemma_push_ids(table: Seq<ActivePlugin>, e: ActivePlugin)
    ensures
        ids_of(table.push(e)) == ids_of(table).push(e.manifest_id@),
{
    vstd::seq::axiom_seq_push_len(table, e);
    assert forall|k: int| 0 <= k < table.len() implies #[trigger] table.push(e)[k] == table[k] by {
        vstd::seq::axiom_seq_push_index_different(table, e, k);
    }
    vstd::seq::axiom_seq_push_index_same(table, e, table.len() as int);
    assert(ids_of(table.push(e)) =~= ids_of(table).push(e.manifest_id@));
}

/// Holds every active plugin, at most one per manifest id.
pub struct LifecycleManager {
    active: Vec<ActivePlugin>,
}

impl LifecycleManager {
    /// Manifest ids of the active plugins, in the order they were first
    /// activated.
    pub closed spec fn ids(self) -> Seq<Seq<char>> {
        ids_of(self.active@)
    }

    /// The active plugin `id`, handed `scope` and `events`, may fail its
    /// deactivation with `error` after turning the registry `before` into
    /// `after` (its `refuses_deactivation`).
    pub closed spec fn may_refuse(
        self,
        id: Seq<char>,
        scope: Scope,
        events: EventBus,
        before: ServiceRegistry,
        after: ServiceRegistry,
        error: anyhow::Error,
    ) -> bool {
        self.active@[self.ids().index_of(id)].plugin.refuses_deactivation(scope, events, before, after, error)
    }

    #[verifier::type_invariant]
    spec fn distinct_ids(self) -> bool {
        self.ids().no_duplicates()
    }

    pub fn new() -> (m: Self)
        ensures
            m.ids() == Seq::<Seq<char>>::empty(),
    {
        let m = LifecycleManager { active: Vec::new() };
        assert(m.ids() =~= Seq::<Seq<char>>::empty());
        m
    }

    /// Position of the entry for `id` in `table`, if there is one.
    fn position(table: &Vec<ActivePlugin>, id: &String) -> (found: Option<usize>)
        ensures
            match found {
                Some(i) => i < table@.len() && ids_of(table@)[i as int] == id@,
                None => !ids_of(table@).contains(id@),
            },
    {
        let n = table.len();
        let mut i: usize = 0;
        while i < n
            invariant
                n == table@.len(),
                0 <= i <= n,
                forall|j: int| 0 <= j < i ==> ids_of(table@)[j] != id@,
            decreases n - i,
        {
            if table[i].manifest_id == *id {
                return Some(i);
            }
            i = i + 1;
        }
        None
    }

    /// Finishes an activation once the plugin's own `activate` has answered
    /// `outcome`. On success the plugin is entered in the active table under
    /// `id` (replacing an entry of the same id) and `PluginLoaded(id)` is
    /// recorded; a failure is handed back and changes nothing.
    pub fn record_activation(
        &mut self,
        plugin: Box<dyn Plugin>,
        type_id: std::any::TypeId,
        id: String,
        outcome: Result<(), anyhow::Error>,
        trace: &mut TraceCollector,
    ) -> (r: Result<(), anyhow::Error>)
        ensures
            r == outcome,
            activation_step(old(self).ids(), final(self).ids(), old(trace)@, final(trace)@, id, r),
            old(trace)@.is_prefix_of(final(trace)@),
            final(self).ids().no_duplicates(),
    {
        proof {
            use_type_invariant(&*self);
        }
        if outcome.is_err() {
            return outcome;
        }
        let mut table: Vec<ActivePlugin> = Vec::new();
        std::mem::swap(&mut table, &mut self.active);
        let ghost before = table@;
        let entry = ActivePlugin { type_id, manifest_id: id.clone(), plugin };
        match Self::position(&table, &id) {
            Some(i) => {
                table[i] = entry;
                assert(ids_of(table@) =~= ids_of(before));
                assert(ids_of(before).contains(id@));
            },
            None => {
                let ghost e = entry;
                table.push(entry);
                proof {
                    lemma_push_ids(before, e);
                }
                assert(ids_of(table@) =~= ids_of(before).push(id@));
            },
        }
        self.active = table;
        trace.record(TraceEntry::PluginLoaded(id));
        outcome
    }

    /// Activates a plugin: runs its `activate` with the kernel's subsystems and,
    /// if that succeeds, enters it in the active table under the id its
    /// manifest gives and records `PluginLoaded` with that id. The answer is the
    /// plugin's own; a failure leaves the table and the trace as they were. The
    /// registry the plugin works on is `services` itself: what its activation
    /// does to it is what the plugin's `activation` says.
    pub fn activate<P: Plugin + 'static>(
        &mut self,
        plugin: P,
        scope: &Scope,
        services: &mut ServiceRegistry,
        events: &EventBus,
        trace: &mut TraceCollector,
    ) -> (r: Result<(), anyhow::Error>)
        ensures
            plugin.activation(*old(services), *final(services), r),
            plugin.activated_with(*scope, *events, old(trace)@, r),
            activation_step(
                old(self).ids(),
                final(self).ids(),
                old(trace)@,
                final(trace)@,
                plugin.manifest_spec().id,
                r,
            ),
            old(trace)@.is_prefix_of(final(trace)@),
            final(self).ids().no_duplicates(),
    {
        let mut ctx = PluginContext { scope, services: ServiceRegistry::new(), events, tracing: &*trace };
        std::mem::swap(&mut ctx.services, services);
        let outcome = plugin.activate(&mut ctx);
        std::mem::swap(&mut ctx.services, services);
        let id = plugin.manifest().id.clone();
        let type_id = type_id_of::<P>();
        let boxed: Box<dyn Plugin> = Box::new(plugin);
        self.record_activation(boxed, type_id, id, outcome, trace)
    }

    /// Deactivates the plugin `id`: runs its own `deactivate` with the
    /// kernel's subsystems and, if that succeeds, removes it from the active
    /// table and records `PluginUnloaded(id)`. A failure is handed back and
    /// leaves the table and the trace as they were. An id that is not active
    /// changes nothing and succeeds.
    pub fn deactivate(
        &mut self,
        id: &str,
        scope: &Scope,
        services: &mut ServiceRegistry,
        events: &EventBus,
        trace: &mut TraceCollector,
    ) -> (r: Result<(), anyhow::Error>)
        ensures
            !old(self).ids().contains(id@) ==> {
                &&& r is Ok
                &&& final(self).ids() == old(self).ids()
                &&& final(trace)@ == old(trace)@
                &&& *final(services) == *old(services)
            },
            r is Err ==> final(self).ids() == old(self).ids() && final(trace)@ == old(trace)@,
            r matches Err(e) ==> {
                &&& old(self).ids().contains(id@)
                &&& old(self).may_refuse(id@, *scope, *events, *old(services), *final(services), e)
            },
            r is Ok ==> {
                &&& final(self).ids() == without_id(old(self).ids(), id@)
                &&& !final(self).ids().contains(id@)
            },
            r is Ok && old(self).ids().contains(id@) ==> {
                &&& final(self).ids().len() == old(self).ids().len() - 1
                &&& final(trace)@.len() == old(trace)@.len() + 1
                &&& final(trace)@.drop_last() == old(trace)@
                &&& final(trace)@.last().is_unloaded(id@)
            },
            old(trace)@.is_prefix_of(final(trace)@),
            final(self).ids().no_duplicates(),
    {
        proof {
            use_type_invariant(&*self);
            ids_of(self.active@).index_of_first_ensures(id@);
        }
        let key = id.to_string();
        match Self::position(&self.active, &key) {
            None => {
                proof {
                    assert(ids_of(self.active@).remove_value(id@) == ids_of(self.active@));
                }
                Ok(())
            },
            Some(i) => {
                let mut ctx = PluginContext { scope, services: ServiceRegistry::new(), events, tracing: &*trace };
                std::mem::swap(&mut ctx.services, services);
                proof {
                    let ids = ids_of(self.active@);
                    let k = ids.index_of(id@);
                    assert(ids[i as int] == id@);
                    assert(ids.contains(id@));
                    if k != i {
                        assert(ids[k] == ids[i as int]);
                    }
                }
                let ghost lent = ctx.services;
                let outcome = self.active[i].plugin.deactivate(&mut ctx);
                let ghost returned = ctx.services;
                std::mem::swap(&mut ctx.services, services);
                match outcome {
                    Err(e) => {
                        assert(old(self).ids().index_of(id@) == i);
                        assert(old(self).may_refuse(id@, *scope, *events, lent, returned, e));
                        Err(e)
                    },
                    Ok(()) => {
                        let mut table: Vec<ActivePlugin> = Vec::new();
                        std::mem::swap(&mut table, &mut self.active);
                        let ghost before = table@;
                        let _removed = table.remove(i);
                        proof {
                            let ids = ids_of(before);
                            let k = ids.index_of_first(id@).unwrap();
                            if k != i {
                                assert(ids[k] == ids[i as int]);
                            }
                            assert(ids_of(table@) =~= ids.remove(i as int));
                            lemma_remove_distinct(ids, i as int);
                        }
                        self.active = table;
                        trace.record(TraceEntry::PluginUnloaded(key));
                        Ok(())
                    },
                }
            },
        }
    }

    /// Manifest ids of the active plugins, each once.
    pub fn active_ids(&self) -> (r: Vec<String>)
        ensures
            r@.map_values(|s: String| s@) == self.ids(),
            r@.map_values(|s: String| s@).no_duplicates(),
    {
        proof {
            use_type_invariant(self);
        }
        let mut out: Vec<String> = Vec::new();
        let n = self.active.len();
        for i in 0..n
            invariant
                n == self.active@.len(),
                out@.map_values(|s: String| s@) == ids_of(self.active@).take(i as int),
        {
            out.push(self.active[i].manifest_id.clone());
            assert(ids_of(self.active@).take(i + 1) =~= ids_of(self.active@).take(i as int).push(
                self.active@[i as int].manifest_id@,
            ));
            assert(out@.map_values(|s: String| s@) =~= ids_of(self.active@).take(i + 1));
        }
        assert(ids_of(self.active@).take(n as int) =~= ids_of(self.active@));
        out
    }
}

/// Deactivating a plugin that was activated when it was not active before
/// restores the active ids exactly.
pub proof fn law_deactivate_undoes_activate(ids: Seq<Seq<char>>, id: Seq<char>)
    requires
        ids.no_duplicates(),
        !ids.contains(id),
    ensures
        without_id(with_id(ids, id), id) == ids,
{
    let pushed = ids.push(id);
    assert(pushed[ids.len() as int] == id);
    pushed.index_of_first_ensures(id);
    let k = pushed.index_of_first(id).unwrap();
    if k < ids.len() {
        assert(pushed[k] == ids[k]);
        assert(ids.contains(id));
    }
    assert(k == ids.len());
    assert(pushed.remove(ids.len() as int) =~= ids);
}

/// Once activated, a plugin is active; activating it again changes nothing.
pub proof fn law_activate_is_idempotent(ids: Seq<Seq<char>>, id: Seq<char>)
    ensures
        with_id(ids, id).contains(id),
        with_id(with_id(ids, id), id) == with_id(ids, id),
{
    if !ids.contains(id) {
        assert(ids.push(id)[ids.len() as int] == id);
    }
}

/// Deactivation leaves its id inactive and keeps the other ids distinct;
/// deactivating twice is the same as deactivating once.
pub proof fn law_deactivate_is_idempotent(ids: Seq<Seq<char>>, id: Seq<char>)
    requires
        ids.no_duplicates(),
    ensures
        !without_id(ids, id).contains(id),
        without_id(ids, id).no_duplicates(),
        without_id(without_id(ids, id), id) == without_id(ids, id),
{
    ids.index_of_first_ensures(id);
    if ids.contains(id) {
        let k = ids.index_of_first(id).unwrap();
        lemma_remove_distinct(ids, k);
    }
    without_id(ids, id).index_of_first_ensures(id);
}

/// The set of active ids: activating adds the id, deactivating takes it away.
pub proof fn law_active_set(ids: Seq<Seq<char>>, id: Seq<char>)
    requires
        ids.no_duplicates(),
    ensures
        with_id(ids, id).to_set() == ids.to_set().insert(id),
        without_id(ids, id).to_set() == ids.to_set().remove(id),
{
    if ids.contains(id) {
        assert(ids.to_set().insert(id) =~= ids.to_set());
    } else {
        ids.lemma_push_to_set_commute(id);
    }
    law_deactivate_is_idempotent(ids, id);
    ids.index_of_first_ensures(id);
    let r = without_id(ids, id);
    assert forall|x: Seq<char>| r.to_set().contains(x) <==> ids.to_set().remove(id).contains(x) by {
        if ids.contains(id) {
            let k = ids.index_of_first(id).unwrap();
            assert(r == ids.remove(k));
            if r.contains(x) {
                let a = choose|a: int| 0 <= a < r.len() && r[a] == x;
                let a2 = if a < k { a } else { a + 1 };
                assert(r[a] == ids[a2]);
            }
            if ids.contains(x) && x != id {
                let b = choose|b: int| 0 <= b < ids.len() && ids[b] == x;
                assert(b != k);
                let b2 = if b < k { b } else { b - 1 };
                assert(r[b2] == x);
            }
        }
    }
    assert(r.to_set() =~= ids.to_set().remove(id));
}

/// The active ids after a run of changes, from an empty table: `(true, id)`
/// stands for a successful activation of `id`, `(false, id)` for a successful
/// deactivation (a failed one changes nothing).
pub open spec fn replay(changes: Seq<(bool, Seq<char>)>) -> Seq<Seq<char>>
    decreases changes.len(),
{
    if changes.len() == 0 {
        Seq::empty()
    } else {
        let before = replay(changes.drop_last());
        let (activated, id) = changes.last();
        if activated {
            with_id(before, id)
        } else {
            without_id(before, id)
        }
    }
}

/// `id` was activated somewhere in `changes` and not deactivated after.
pub open spec fn still_active(changes: Seq<(bool, Seq<char>)>, id: Seq<char>) -> bool {
    exists|i: int|
        0 <= i < changes.len() && #[trigger] changes[i] == (true, id)
            && forall|j: int| i < j < changes.len() ==> changes[j] != (false, id)
}

/// The active ids are exactly the plugins activated and not deactivated since,
/// each listed once.
pub proof fn law_active_ids_history(changes: Seq<(bool, Seq<char>)>)
    ensures
        replay(changes).no_duplicates(),
        forall|id: Seq<char>| replay(changes).contains(id) <==> still_active(changes, id),
    decreases changes.len(),
{
    if changes.len() == 0 {
        assert forall|id: Seq<char>| replay(changes).contains(id) <==> still_active(changes, id) by {}
    } else {
        let init = changes.drop_last();
        let last = changes.len() - 1;
        law_active_ids_history(init);
        let before = replay(init);
        let (activated, x) = changes.last();
        law_active_set(before, x);
        if activated {
            if !before.contains(x) {
                assert forall|a: int, b: int| 0 <= a < b < before.push(x).len() implies before.push(x)[a]
                    != before.push(x)[b] by {
                    if b == before.len() {
                        assert(before.push(x)[a] == before[a]);
                    } else {
                        assert(before.push(x)[a] == before[a] && before.push(x)[b] == before[b]);
                    }
                }
            }
        } else {
            law_deactivate_is_idempotent(before, x);
        }
        assert forall|id: Seq<char>| replay(changes).contains(id) <==> still_active(changes, id) by {
            let after = replay(changes);
            assert(after.to_set().contains(id) <==> after.contains(id));
            assert(before.to_set().contains(id) <==> before.contains(id));
            if still_active(init, id) {
                let i = choose|i: int|
                    0 <= i < init.len() && #[trigger] init[i] == (true, id)
                        && forall|j: int| i < j < init.len() ==> init[j] != (false, id);
                assert(changes[i] == init[i]);
                if changes[last] != (false, id) {
                    assert forall|j: int| i < j < changes.len() implies changes[j] != (false, id) by {
                        if j < last {
                            assert(changes[j] == init[j]);
                        }
                    }
                    assert(still_active(changes, id));
                }
            }
            if still_active(changes, id) {
                let i = choose|i: int|
                    0 <= i < changes.len() && #[trigger] changes[i] == (true, id)
                        && forall|j: int| i < j < changes.len() ==> changes[j] != (false, id);
                if i < last {
                    assert(init[i] == changes[i]);
                    assert forall|j: int| i < j < init.len() implies init[j] != (false, id) by {
                        assert(init[j] == changes[j]);
                    }
                    assert(still_active(init, id));
                }
            }
            if activated && id == x {
                assert(changes[last] == (true, id));
                assert(still_active(changes, id));
            }
        }
    }
}

/// Removing one element of a sequence without duplicates leaves one without
/// duplicates, which no longer holds that element.
pub(crate) proof fn lemma_remove_distinct(ids: Seq<Seq<char>>, i: int)
    requires
        0 <= i < ids.len(),
        ids.no_duplicates(),
    ensures
        ids.remove(i).no_duplicates(),
        !ids.remove(i).contains(ids[i]),
{
    let r = ids.remove(i);
    assert forall|a: int, b: int| 0 <= a < r.len() && 0 <= b < r.len() && a != b implies r[a] != r[b] by {
        let a2 = if a < i { a } else { a + 1 };
        let b2 = if b < i { b } else { b + 1 };
        assert(r[a] == ids[a2]);
        assert(r[b] == ids[b2]);
    }
    if r.contains(ids[i]) {
        let a = choose|a: int| 0 <= a < r.len() && r[a] == ids[i];
        let a2 = if a < i { a } else { a + 1 };
        assert(r[a] == ids[a2]);
    }
}

} // verus!
