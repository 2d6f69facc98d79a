//! The predictor table, and the shared-ownership registry and handles built
//! on it.
//!
//! `PredictorManager` is the table: predictors keyed by id, the id counter
//! and the physics configuration. `SwipePredictorContext` (the registry) and
//! every `SwipePredictorHandle` each hold one reference to the same
//! lock-protected table, so a handle stays usable after the registry that
//! issued it is gone. The lock is held for one lookup and one operation;
//! predictions are computed on a copy of the predictor, outside the lock.
use vstd::prelude::*;
use vstd::rwlock::{RwLock, RwLockPredicate};
use std::collections::HashMap;
use std::sync::Arc;
use crate::engine::cancelled;
use crate::error::PredictorError;
use crate::physics::PhysicsConfig;
use crate::predictor::{GesturePredictor, PredictorModel, DEFAULT_BUFFER_SIZE};
use crate::types::{Prediction, CONFIDENCE_ONE};

verus! {

/// Most predictors that one table holds at a time.
pub const MAX_PREDICTORS: usize = 10000;

/// The abstract state of a predictor table.
pub struct ManagerModel {
    pub predictors: Map<u64, PredictorModel>,
    /// The id that the next predictor gets.
    pub next_id: u64,
    pub config: PhysicsConfig,
}

impl ManagerModel {
    pub open spec fn wf(self) -> bool {
        &&& self.config.valid()
        &&& self.predictors.dom().finite()
        &&& self.predictors.len() <= MAX_PREDICTORS
        &&& forall|id: u64| #[trigger]
            self.predictors.contains_key(id) ==> {
                &&& id < self.next_id
                &&& self.predictors[id].wf()
                &&& self.predictors[id].config == self.config
            }
    }

    /// The state and the result after `create_predictor`.
    pub open spec fn create(self) -> (ManagerModel, Result<u64, PredictorError>) {
        if self.predictors.len() >= MAX_PREDICTORS || self.next_id == u64::MAX {
            (self, Err(PredictorError::CapacityExceeded { limit: MAX_PREDICTORS }))
        } else {
            (
                ManagerModel {
                    predictors: self.predictors.insert(
                        self.next_id,
                        PredictorModel::empty(self.config, DEFAULT_BUFFER_SIZE as nat),
                    ),
                    next_id: (self.next_id + 1) as u64,
                    ..self
                },
                Ok(self.next_id),
            )
        }
    }

    /// The state with predictor `id` replaced by `m`.
    pub open spec fn with_predictor(self, id: u64, m: PredictorModel) -> ManagerModel {
        ManagerModel { predictors: self.predictors.insert(id, m), ..self }
    }
}

/// A table below capacity (with ids left) registers one more predictor; a
/// full table refuses with `CapacityExceeded` and stays as it was; and
/// removing a predictor from a full table frees exactly one slot, which the
/// next creation takes.
pub proof fn law_capacity(m: ManagerModel, id: u64)
    requires
        m.wf(),
        m.next_id < u64::MAX,
    ensures
        m.predictors.len() < MAX_PREDICTORS ==> {
            &&& m.create().1 == Ok::<u64, PredictorError>(m.next_id)
            &&& m.create().0.predictors.len() == m.predictors.len() + 1
            &&& m.create().0.wf()
        },
        m.predictors.len() >= MAX_PREDICTORS ==> {
            &&& m.create().1 == Err::<u64, PredictorError>(
                PredictorError::CapacityExceeded { limit: MAX_PREDICTORS },
            )
            &&& m.create().0 == m
        },
        m.predictors.len() == MAX_PREDICTORS && m.predictors.contains_key(id) ==> {
            let freed = ManagerModel { predictors: m.predictors.remove(id), ..m };
            &&& freed.predictors.len() == MAX_PREDICTORS - 1
            &&& freed.create().1 is Ok
            &&& freed.create().0.predictors.len() == MAX_PREDICTORS
        },
{
    if m.predictors.len() < MAX_PREDICTORS {
        assert(!m.predictors.contains_key(m.next_id));
        let after = m.create().0;
        assert forall|k: u64| #[trigger] after.predictors.contains_key(k) implies {
            &&& k < after.next_id
            &&& after.predictors[k].wf()
            &&& after.predictors[k].config == after.config
        } by {
            if k != m.next_id {
                assert(m.predictors.contains_key(k));
            }
        }
    }
    if m.predictors.len() == MAX_PREDICTORS && m.predictors.contains_key(id) {
        let freed = ManagerModel { predictors: m.predictors.remove(id), ..m };
        assert(!freed.predictors.contains_key(m.next_id));
    }
}

/// Operations addressed to one predictor leave every other predictor of
/// the table as it was: adding a sample to, resetting or removing predictor
/// `id` changes nothing under `other`.
pub proof fn law_isolation(m: ManagerModel, id: u64, other: u64, x: i32, y: i32, t: i64)
    requires
        m.wf(),
        id != other,
        m.predictors.contains_key(id),
        m.predictors.contains_key(other),
    ensures
        m.with_predictor(id, m.predictors[id].add_point(x, y, t).0).predictors[other]
            == m.predictors[other],
        m.with_predictor(
            id,
            PredictorModel::empty(m.predictors[id].config, m.predictors[id].capacity),
        ).predictors[other] == m.predictors[other],
        m.predictors.remove(id)[other] == m.predictors[other],
{
}

/// A table of predictors sharing one physics configuration.
pub struct PredictorManager {
    predictors: HashMap<u64, GesturePredictor>,
    next_id: u64,
    physics_config: PhysicsConfig,
}

impl View for PredictorManager {
    type V = ManagerModel;

    closed spec fn view(&self) -> ManagerModel {
        ManagerModel {
            predictors: self.predictors@.map_values(|p: GesturePredictor| p@),
            next_id: self.next_id,
            config: self.physics_config,
        }
    }
}

impl PredictorManager {
    pub open spec fn wf(&self) -> bool {
        self@.wf()
    }

    /// An empty table.
    pub fn new(physics_config: PhysicsConfig) -> (r: Self)
        requires
            physics_config.valid(),
        ensures
            r.wf(),
            r@.predictors == Map::<u64, PredictorModel>::empty(),
            r@.next_id == 0,
            r@.config == physics_config,
    {
        let r = PredictorManager { predictors: HashMap::new(), next_id: 0, physics_config };
        assert(r@.predictors =~= Map::<u64, PredictorModel>::empty());
        r
    }

    /// Registers a new empty predictor and returns its id; fails when the
    /// table is full or the ids are used up. Ids are never reused.
    pub fn create_predictor(&mut self) -> (r: Result<u64, PredictorError>)
        requires
            old(self).wf(),
        ensures
            final(self).wf(),
            (final(self)@, r) == old(self)@.create(),
    {
        if self.predictors.len() >= MAX_PREDICTORS || self.next_id == u64::MAX {
            proof {
                assert(self.predictors@.dom() =~= self@.predictors.dom());
            }
            return Err(PredictorError::CapacityExceeded { limit: MAX_PREDICTORS });
        }
        let ghost old_view = self@;
        proof {
            assert(self.predictors@.dom() =~= self@.predictors.dom());
        }
        let id = self.next_id;
        let predictor = match GesturePredictor::new(self.physics_config) {
            Ok(p) => p,
            Err(e) => {
                return Err(e);
            },
        };
        let _ = self.predictors.insert(id, predictor);
        self.next_id = id + 1;
        proof {
            assert(self@.predictors =~= old_view.predictors.insert(
                id,
                PredictorModel::empty(old_view.config, DEFAULT_BUFFER_SIZE as nat),
            ));
            assert(!old_view.predictors.contains_key(id));
        }
        Ok(id)
    }

    /// How many predictors the table holds.
    pub fn predictor_count(&self) -> (r: usize)
        requires
            self.wf(),
        ensures
            r == self@.predictors.len(),
    {
        proof {
            assert(self.predictors@.dom() =~= self@.predictors.dom());
        }
        self.predictors.len()
    }

    pub fn predictor_exists(&self, predictor_id: u64) -> (r: bool)
        ensures
            r == self@.predictors.contains_key(predictor_id),
    {
        self.predictors.contains_key(&predictor_id)
    }

    /// Offers a sample to predictor `predictor_id` (see
    /// `GesturePredictor::add_touch_point`).
    pub fn add_touch_point(&mut self, predictor_id: u64, x: i32, y: i32, timestamp_ms: i64) -> (r:
        Result<(), PredictorError>)
        requires
            old(self).wf(),
        ensures
            final(self).wf(),
            !old(self)@.predictors.contains_key(predictor_id) ==> {
                &&& r == Err::<(), PredictorError>(PredictorError::PredictorNotFound { id: predictor_id })
                &&& final(self)@ == old(self)@
            },
            old(self)@.predictors.contains_key(predictor_id) ==> {
                let (m, res) = old(self)@.predictors[predictor_id].add_point(x, y, timestamp_ms);
                &&& r == res
                &&& final(self)@ == old(self)@.with_predictor(predictor_id, m)
            },
    {
        let ghost old_view = self@;
        match self.predictors.remove(&predictor_id) {
            Some(mut p) => {
                assert(old_view.predictors.contains_key(predictor_id));
                let r = p.add_touch_point(x, y, timestamp_ms);
                let _ = self.predictors.insert(predictor_id, p);
                proof {
                    let m = old_view.predictors[predictor_id].add_point(x, y, timestamp_ms).0;
                    assert(self@.predictors =~= old_view.predictors.insert(predictor_id, m));
                    assert(self@.predictors.dom() =~= old_view.predictors.dom());
                }
                r
            },
            None => {
                proof {
                    assert(self@.predictors =~= old_view.predictors);
                }
                Err(PredictorError::PredictorNotFound { id: predictor_id })
            },
        }
    }

    /// The prediction of predictor `predictor_id`, or `None` when it does not
    /// exist or cannot predict.
    pub fn get_prediction(&self, predictor_id: u64) -> (r: Option<Prediction>)
        requires
            self.wf(),
        ensures
            !self@.predictors.contains_key(predictor_id) ==> r.is_none(),
            self@.predictors.contains_key(predictor_id) ==> match self@.predictors[predictor_id].prediction() {
                Ok(p) => r == Some(p),
                Err(_) => r.is_none(),
            },
            r matches Some(p) ==> p.confidence <= CONFIDENCE_ONE,
    {
        match self.predictors.get(&predictor_id) {
            Some(p) => {
                assert(self@.predictors.contains_key(predictor_id));
                p.get_prediction()
            },
            None => None,
        }
    }

    /// Empties predictor `predictor_id`.
    pub fn reset_predictor(&mut self, predictor_id: u64) -> (r: Result<(), PredictorError>)
        requires
            old(self).wf(),
        ensures
            final(self).wf(),
            !old(self)@.predictors.contains_key(predictor_id) ==> {
                &&& r == Err::<(), PredictorError>(PredictorError::PredictorNotFound { id: predictor_id })
                &&& final(self)@ == old(self)@
            },
            old(self)@.predictors.contains_key(predictor_id) ==> {
                let p = old(self)@.predictors[predictor_id];
                &&& r is Ok
                &&& final(self)@ == old(self)@.with_predictor(
                    predictor_id,
                    PredictorModel::empty(p.config, p.capacity),
                )
            },
    {
        let ghost old_view = self@;
        match self.predictors.remove(&predictor_id) {
            Some(mut p) => {
                assert(old_view.predictors.contains_key(predictor_id));
                p.reset();
                let _ = self.predictors.insert(predictor_id, p);
                proof {
                    let q = old_view.predictors[predictor_id];
                    assert(self@.predictors =~= old_view.predictors.insert(
                        predictor_id,
                        PredictorModel::empty(q.config, q.capacity),
                    ));
                    assert(self@.predictors.dom() =~= old_view.predictors.dom());
                }
                Ok(())
            },
            None => {
                proof {
                    assert(self@.predictors =~= old_view.predictors);
                }
                Err(PredictorError::PredictorNotFound { id: predictor_id })
            },
        }
    }

    /// A copy of predictor `predictor_id`, to compute on without the table.
    pub fn snapshot(&self, predictor_id: u64) -> (r: Option<GesturePredictor>)
        requires
            self.wf(),
        ensures
            !self@.predictors.contains_key(predictor_id) ==> r.is_none(),
            self@.predictors.contains_key(predictor_id) ==> (r matches Some(p) && p.wf() && p@
                == self@.predictors[predictor_id]),
    {
        match self.predictors.get(&predictor_id) {
            Some(p) => {
                assert(self@.predictors.contains_key(predictor_id));
                Some(p.snapshot())
            },
            None => None,
        }
    }

    /// Whether predictor `predictor_id` exists and its gesture looks abandoned.
    pub fn detect_cancellation(&self, predictor_id: u64) -> (r: bool)
        requires
            self.wf(),
        ensures
            r == (self@.predictors.contains_key(predictor_id) && cancelled(
                self@.predictors[predictor_id].samples,
                self@.predictors[predictor_id].config,
            )),
    {
        match self.predictors.get(&predictor_id) {
            Some(p) => {
                assert(self@.predictors.contains_key(predictor_id));
                p.detect_cancellation()
            },
            None => false,
        }
    }

    /// Removes predictor `predictor_id`.
    pub fn remove_predictor(&mut self, predictor_id: u64) -> (r: Result<(), PredictorError>)
        requires
            old(self).wf(),
        ensures
            final(self).wf(),
            final(self)@ == (ManagerModel {
                predictors: old(self)@.predictors.remove(predictor_id),
                ..old(self)@
            }),
            old(self)@.predictors.contains_key(predictor_id) ==> r is Ok,
            !old(self)@.predictors.contains_key(predictor_id) ==> r == Err::<(), PredictorError>(
                PredictorError::PredictorNotFound { id: predictor_id },
            ),
    {
        let ghost old_view = self@;
        let removed = self.predictors.remove(&predictor_id);
        proof {
            assert(self@.predictors =~= old_view.predictors.remove(predictor_id));
        }
        match removed {
            Some(_) => Ok(()),
            None => Err(PredictorError::PredictorNotFound { id: predictor_id }),
        }
    }
}

/// What the lock guarantees of the table it guards: it is well formed and
/// predicts with `config`.
pub struct TableInvariant {
    pub config: PhysicsConfig,
}

impl RwLockPredicate<PredictorManager> for TableInvariant {
    open spec fn inv(self, v: PredictorManager) -> bool {
        v.wf() && v@.config == self.config
    }
}

/// The lock-protected table that a registry and its handles share.
pub type SharedTable = Arc<RwLock<PredictorManager, TableInvariant>>;

/// A registry of predictors under one physics configuration.
///
/// Dropping it (or calling `destroy`) releases only its own reference to
/// the table: predictors whose handles are still alive stay usable.
pub struct SwipePredictorContext {
    table: SharedTable,
}

/// A capability for one predictor of a registry. It holds its own reference
/// to the table, so it outlives the registry that issued it.
pub struct SwipePredictorHandle {
    table: SharedTable,
    predictor_id: u64,
}

impl SwipePredictorContext {
    /// The physics configuration that every predictor of the table uses.
    pub closed spec fn config(&self) -> PhysicsConfig {
        self.table.pred().config
    }

    /// A registry with an empty table under `physics_config`.
    fn with_config(physics_config: PhysicsConfig) -> (r: Self)
        requires
            physics_config.valid(),
        ensures
            r.config() == physics_config,
    {
        let manager = PredictorManager::new(physics_config);
        let lock = RwLock::new(manager, Ghost(TableInvariant { config: physics_config }));
        SwipePredictorContext { table: Arc::new(lock) }
    }

    /// A registry with an empty table under `physics_config`; fails on an
    /// invalid configuration.
    pub fn new(physics_config: PhysicsConfig) -> (r: Result<Self, PredictorError>)
        ensures
            match physics_config.validation() {
                Ok(()) => r matches Ok(c) && c.config() == physics_config,
                Err(e) => r matches Err(e2) && e2 == e,
            },
    {
        match physics_config.validate() {
            Ok(()) => Ok(Self::with_config(physics_config)),
            Err(e) => Err(e),
        }
    }

    /// A registry with the default physics configuration.
    pub fn with_default_config() -> (r: Self)
        ensures
            r.config() == PhysicsConfig::default_spec(),
    {
        Self::with_config(PhysicsConfig::default())
    }

    /// Registers a new empty predictor and hands out a handle to it; fails
    /// only when the table is full.
    pub fn create_predictor(&self) -> (r: Result<SwipePredictorHandle, PredictorError>)
        ensures
            r matches Err(e) ==> e == (PredictorError::CapacityExceeded { limit: MAX_PREDICTORS }),
            r matches Ok(h) ==> h.config() == self.config(),
    {
        let (mut manager, guard) = self.table.acquire_write();
        let created = manager.create_predictor();
        guard.release_write(manager);
        match created {
            Ok(id) => {
                let table = Arc::clone(&self.table);
                Ok(SwipePredictorHandle { table, predictor_id: id })
            },
            Err(e) => Err(e),
        }
    }

    /// Releases the registry's reference to the table.
    pub fn destroy(self) {
    }
}

impl SwipePredictorHandle {
    /// The id of the predictor this handle stands for.
    pub closed spec fn id(&self) -> u64 {
        self.predictor_id
    }

    /// The physics configuration of the registry the handle came from.
    pub closed spec fn config(&self) -> PhysicsConfig {
        self.table.pred().config
    }

    pub fn predictor_id(&self) -> (r: u64)
        ensures
            r == self.id(),
    {
        self.predictor_id
    }

    /// Offers a sample to the predictor; `true` when it was accepted.
    pub fn add_point(&self, x: i32, y: i32, timestamp_ms: i64) -> (r: bool)
        ensures
            r ==> (exists|m: PredictorModel| #[trigger] m.wf() && m.config == self.config() && (m.add_point(
                x,
                y,
                timestamp_ms,
            ).1 is Ok)),
            timestamp_ms < 0 ==> !r,
    {
        let (mut manager, guard) = self.table.acquire_write();
        let ghost before = manager@;
        let result = manager.add_touch_point(self.predictor_id, x, y, timestamp_ms);
        guard.release_write(manager);
        proof {
            if result is Ok {
                assert(before.predictors[self.predictor_id].wf());
            }
        }
        result.is_ok()
    }

    /// A copy of the predictor, taken under the read lock; the prediction
    /// math then runs without holding the lock.
    fn snapshot(&self) -> (r: Option<GesturePredictor>)
        ensures
            r matches Some(p) ==> p.wf() && p@.config == self.config(),
    {
        let guard = self.table.acquire_read();
        let manager = guard.borrow();
        let r = manager.snapshot(self.predictor_id);
        guard.release_read();
        r
    }

    /// The predictor's prediction, or `None` where it has none.
    pub fn get_prediction(&self) -> (r: Option<Prediction>)
        ensures
            r matches Some(p) ==> p.confidence <= CONFIDENCE_ONE && (exists|m: PredictorModel| #[trigger]
                m.wf() && m.config == self.config() && m.prediction() == Ok::<Prediction, PredictorError>(p)),
    {
        match self.snapshot() {
            Some(p) => p.get_prediction(),
            None => None,
        }
    }

    /// Empties the predictor; `true` when it still exists.
    pub fn reset(&self) -> (r: bool) {
        let (mut manager, guard) = self.table.acquire_write();
        let result = manager.reset_predictor(self.predictor_id);
        guard.release_write(manager);
        result.is_ok()
    }

    /// Whether the predictor exists and its gesture looks abandoned.
    pub fn detect_cancellation(&self) -> (r: bool)
        ensures
            r ==> (exists|m: PredictorModel| #[trigger] m.wf() && m.config == self.config() && cancelled(
                m.samples,
                m.config,
            )),
    {
        match self.snapshot() {
            Some(p) => p.detect_cancellation(),
            None => false,
        }
    }

    /// Removes the predictor from the table, then releases the handle's
    /// reference to the table.
    pub fn destroy(self) {
        let (mut manager, guard) = self.table.acquire_write();
        let _ = manager.remove_predictor(self.predictor_id);
        guard.release_write(manager);
    }
}

} // verus!
