//! Bookkeeping of the active sensors: one entry per registered sensor type
//! with its spawn flag, last reading time and error count, in a fixed-capacity
//! `heapless` vector of 16 entries.
use vstd::prelude::*;
use crate::sensor::{SensorError, SensorType};

verus! {

/// Sensors the registry can hold.
pub const REGISTRY_CAPACITY: usize = 16;

#[verifier::external_type_specification]
#[verifier::external_body]
#[verifier::reject_recursive_types(T)]
pub struct ExHeaplessVec<T, const N: usize>(heapless::Vec<T, N>);

/// Registry entry of one sensor.
#[derive(Debug, Clone, Copy, PartialEq, Eq, Structural)]
pub struct SensorRegistry {
    pub sensor_type: SensorType,
    pub task_spawned: bool,
    /// Milliseconds since boot of the last reported outcome.
    pub last_reading_time: u64,
    pub error_count: u32,
}

/// The entries a registry vector holds, in insertion order.
pub uninterp spec fn entries(v: heapless::Vec<SensorRegistry, 16>) -> Seq<SensorRegistry>;

/// Relies on `heapless::Vec::new`: a new vector is empty.
#[verifier::external_body]
fn registry_vec_new() -> (r: heapless::Vec<SensorRegistry, 16>)
    ensures
        entries(r) == Seq::<SensorRegistry>::empty(),
{
    heapless::Vec::new()
}

/// Relies on `heapless::Vec::push`: the item is appended when fewer than 16
/// are held, else it is handed back and nothing changes.
#[verifier::external_body]
fn registry_vec_push(v: &mut heapless::Vec<SensorRegistry, 16>, e: SensorRegistry) -> (r: Result<(), SensorRegistry>)
    ensures
        entries(*old(v)).len() < 16 ==> r is Ok && entries(*final(v)) == entries(*old(v)).push(e),
        entries(*old(v)).len() >= 16 ==> r is Err && r->Err_0 == e && entries(*final(v)) == entries(*old(v)),
        entries(*final(v)).len() <= 16,
{
    v.push(e)
}

/// Relies on `heapless::Vec::as_slice`: the held items, in order.
#[verifier::external_body]
fn registry_vec_as_slice(v: &heapless::Vec<SensorRegistry, 16>) -> (r: &[SensorRegistry])
    ensures
        r@ == entries(*v),
{
    v.as_slice()
}

/// Relies on indexing through `heapless::Vec`'s `DerefMut` to a slice: the
/// item at `i` is replaced.
#[verifier::external_body]
fn registry_vec_set(v: &mut heapless::Vec<SensorRegistry, 16>, i: usize, e: SensorRegistry)
    requires
        i < entries(*old(v)).len(),
    ensures
        entries(*final(v)) == entries(*old(v)).update(i as int, e),
{
    v[i] = e;
}

/// Whether some entry has type `t`.
pub open spec fn registered(es: Seq<SensorRegistry>, t: SensorType) -> bool {
    exists|i: int| 0 <= i < es.len() && es[i].sensor_type == t
}

/// No two entries share a type.
pub open spec fn types_unique(es: Seq<SensorRegistry>) -> bool {
    forall|i: int, j: int| 0 <= i < es.len() && 0 <= j < es.len() && i != j ==> es[i].sensor_type != es[j].sensor_type
}

/// A fresh entry for type `t`.
pub open spec fn fresh_entry(t: SensorType) -> SensorRegistry {
    SensorRegistry { sensor_type: t, task_spawned: false, last_reading_time: 0, error_count: 0 }
}

/// The outcome of registering `t`: `ConfigError` for a type already present
/// or a full registry, else success with a fresh entry appended.
pub open spec fn register_outcome(es: Seq<SensorRegistry>, t: SensorType) -> (Seq<SensorRegistry>, Result<(), SensorError>) {
    if registered(es, t) || es.len() >= REGISTRY_CAPACITY {
        (es, Err(SensorError::ConfigError))
    } else {
        (es.push(fresh_entry(t)), Ok(()))
    }
}

/// The entries after applying `f` to the entry of type `t`, if there is one.
pub open spec fn update_entry(es: Seq<SensorRegistry>, t: SensorType, f: spec_fn(SensorRegistry) -> SensorRegistry) -> Seq<SensorRegistry> {
    es.map_values(|e: SensorRegistry| if e.sensor_type == t { f(e) } else { e })
}

/// An entry marked as having its task spawned.
pub open spec fn spawned(e: SensorRegistry) -> SensorRegistry {
    SensorRegistry { task_spawned: true, ..e }
}

/// An entry updated with an outcome reported at `timestamp`.
pub open spec fn with_stats(e: SensorRegistry, timestamp: u64, had_error: bool) -> SensorRegistry {
    SensorRegistry {
        last_reading_time: timestamp,
        error_count: if had_error && e.error_count < u32::MAX { (e.error_count + 1) as u32 } else { e.error_count },
        ..e
    }
}

/// Registering a type that was just registered fails with `ConfigError` and
/// changes nothing.
pub proof fn lemma_register_twice(es: Seq<SensorRegistry>, t: SensorType)
    ensures
        register_outcome(register_outcome(es, t).0, t).1 == Err::<(), SensorError>(SensorError::ConfigError),
        register_outcome(register_outcome(es, t).0, t).0 == register_outcome(es, t).0,
{
    let first = register_outcome(es, t).0;
    if !(registered(es, t) || es.len() >= REGISTRY_CAPACITY) {
        assert(first[first.len() - 1].sensor_type == t);
        assert(registered(first, t));
    }
}

/// Reporting statistics for a type that is not registered leaves every entry
/// as it was.
pub proof fn lemma_update_unregistered_is_noop(es: Seq<SensorRegistry>, t: SensorType, timestamp: u64, had_error: bool)
    requires
        !registered(es, t),
    ensures
        update_entry(es, t, |e: SensorRegistry| with_stats(e, timestamp, had_error)) == es,
{
    lemma_update_absent(es, t, |e: SensorRegistry| with_stats(e, timestamp, had_error));
}

/// The registry of active sensors.
pub struct SensorManager {
    registry: heapless::Vec<SensorRegistry, 16>,
}

impl View for SensorManager {
    type V = Seq<SensorRegistry>;

    closed spec fn view(&self) -> Seq<SensorRegistry> {
        entries(self.registry)
    }
}

impl SensorManager {
    #[verifier::type_invariant]
    spec fn inv(&self) -> bool {
        &&& entries(self.registry).len() <= REGISTRY_CAPACITY
        &&& types_unique(entries(self.registry))
    }

    /// The registry invariant: at most 16 entries, types unique.
    pub open spec fn well_formed_entries(es: Seq<SensorRegistry>) -> bool {
        es.len() <= REGISTRY_CAPACITY && types_unique(es)
    }

    /// An empty registry.
    pub fn new() -> (r: SensorManager)
        ensures
            r@ == Seq::<SensorRegistry>::empty(),
    {
        SensorManager { registry: registry_vec_new() }
    }

    /// Index of the entry of type `t`, if any.
    fn position(&self, t: SensorType) -> (r: Option<usize>)
        ensures
            r is None <==> !registered(self@, t),
            r is Some ==> r->0 < self@.len() && self@[r->0 as int].sensor_type == t,
    {
        let entries = registry_vec_as_slice(&self.registry);
        let mut i: usize = 0;
        while i < entries.len()
            invariant
                entries@ == self@,
                0 <= i <= entries@.len(),
                forall|k: int| 0 <= k < i ==> entries@[k].sensor_type != t,
            decreases entries@.len() - i,
        {
            if entries[i].sensor_type == t {
                return Some(i);
            }
            i = i + 1;
        }
        None
    }

    /// Registers a sensor type with zeroed counters. `ConfigError` when the
    /// type is already registered or the registry is full.
    pub fn register_sensor(&mut self, sensor_type: SensorType) -> (r: Result<(), SensorError>)
        ensures
            final(self)@ == register_outcome(old(self)@, sensor_type).0,
            r == register_outcome(old(self)@, sensor_type).1,
            r is Ok ==> registered(final(self)@, sensor_type),
            SensorManager::well_formed_entries(final(self)@),
    {
        proof {
            use_type_invariant(&*self);
        }
        if self.position(sensor_type).is_some() {
            return Err(SensorError::ConfigError);
        }
        let entry = SensorRegistry { sensor_type, task_spawned: false, last_reading_time: 0, error_count: 0 };
        // The vector is moved out while it changes, so that the invariant is
        // checked once, on the vector put back.
        let mut registry = registry_vec_new();
        std::mem::swap(&mut registry, &mut self.registry);
        let pushed = registry_vec_push(&mut registry, entry);
        proof {
            if pushed is Ok {
                let es = entries(registry);
                assert(es[es.len() - 1].sensor_type == sensor_type);
            }
        }
        self.registry = registry;
        match pushed {
            Ok(()) => Ok(()),
            Err(_) => Err(SensorError::ConfigError),
        }
    }

    /// Marks the task of a registered type as spawned; nothing happens for an
    /// unregistered type.
    pub fn mark_task_spawned(&mut self, sensor_type: SensorType)
        ensures
            final(self)@ == update_entry(old(self)@, sensor_type, |e: SensorRegistry| spawned(e)),
    {
        proof {
            use_type_invariant(&*self);
        }
        if let Some(i) = self.position(sensor_type) {
            let entry = registry_vec_as_slice(&self.registry)[i];
            let updated = SensorRegistry { task_spawned: true, ..entry };
            let ghost before = self@;
            // Moved out while it changes, as in `register_sensor`.
            let mut registry = registry_vec_new();
            std::mem::swap(&mut registry, &mut self.registry);
            registry_vec_set(&mut registry, i, updated);
            proof {
                lemma_single_update(before, i as int, sensor_type, |e: SensorRegistry| spawned(e));
            }
            self.registry = registry;
        } else {
            proof {
                lemma_update_absent(self@, sensor_type, |e: SensorRegistry| spawned(e));
            }
        }
    }

    /// Records an outcome reported at `timestamp` for a registered type: the
    /// time is kept and an error is counted (saturating). Nothing happens for
    /// an unregistered type.
    pub fn update_sensor_stats(&mut self, sensor_type: SensorType, timestamp: u64, had_error: bool)
        ensures
            final(self)@ == update_entry(old(self)@, sensor_type, |e: SensorRegistry| with_stats(e, timestamp, had_error)),
    {
        proof {
            use_type_invariant(&*self);
        }
        if let Some(i) = self.position(sensor_type) {
            let entry = registry_vec_as_slice(&self.registry)[i];
            let count = if had_error { entry.error_count.saturating_add(1) } else { entry.error_count };
            let updated = SensorRegistry { last_reading_time: timestamp, error_count: count, ..entry };
            let ghost before = self@;
            // Moved out while it changes, as in `register_sensor`.
            let mut registry = registry_vec_new();
            std::mem::swap(&mut registry, &mut self.registry);
            registry_vec_set(&mut registry, i, updated);
            proof {
                lemma_single_update(before, i as int, sensor_type, |e: SensorRegistry| with_stats(e, timestamp, had_error));
            }
            self.registry = registry;
        } else {
            proof {
                lemma_update_absent(self@, sensor_type, |e: SensorRegistry| with_stats(e, timestamp, had_error));
            }
        }
    }

    /// All entries, in registration order.
    pub fn get_registered_sensors(&self) -> (r: &[SensorRegistry])
        ensures
            r@ == self@,
    {
        registry_vec_as_slice(&self.registry)
    }

    /// Whether a type is registered.
    pub fn is_sensor_registered(&self, sensor_type: SensorType) -> (r: bool)
        ensures
            r == registered(self@, sensor_type),
    {
        self.position(sensor_type).is_some()
    }

    /// The entry of a type, if registered.
    pub fn get_sensor_stats(&self, sensor_type: SensorType) -> (r: Option<&SensorRegistry>)
        ensures
            r is None <==> !registered(self@, sensor_type),
            r is Some ==> r->0.sensor_type == sensor_type && exists|i: int| 0 <= i < self@.len() && self@[i] == *r->0,
            SensorManager::well_formed_entries(self@),
    {
        proof {
            use_type_invariant(self);
        }
        match self.position(sensor_type) {
            Some(i) => Some(&registry_vec_as_slice(&self.registry)[i]),
            None => None,
        }
    }
}

proof fn lemma_single_update(es: Seq<SensorRegistry>, i: int, t: SensorType, f: spec_fn(SensorRegistry) -> SensorRegistry)
    requires
        0 <= i < es.len(),
        es[i].sensor_type == t,
        types_unique(es),
    ensures
        es.update(i, f(es[i])) == update_entry(es, t, f),
{
    assert(es.update(i, f(es[i])) =~= update_entry(es, t, f));
}

proof fn lemma_update_absent(es: Seq<SensorRegistry>, t: SensorType, f: spec_fn(SensorRegistry) -> SensorRegistry)
    requires
        !registered(es, t),
    ensures
        update_entry(es, t, f) == es,
{
    assert forall|i: int| 0 <= i < es.len() implies es[i].sensor_type != t by {}
    assert(update_entry(es, t, f) =~= es);
}

} // verus!
