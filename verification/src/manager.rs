//! The process-wide registry of operations: the control surface that lists
//! them, activates them, aborts them, locks and unlocks them, and arms and
//! disarms their sensors — serializing every state transition of one
//! operation through one table entry.

use vstd::prelude::*;

use crate::entry::{
    activation_attempts, activation_events, entry_after_activation, EntryModel, OperationEntry,
};
use crate::retry::{attempt_budget, settled_outcome, AttemptOutcome, OutcomeModel};
use crate::sensor::SensorModel;
use crate::states::{EventModel, OpState};

verus! {

/// Why a control call was rejected before touching any operation.
#[derive(Clone, Copy, PartialEq, Eq, Structural, Debug)]
pub enum ManagerError {
    UnknownId,
    NoSensor,
}

/// No two registered operations share an id.
pub open spec fn ids_unique(s: Seq<EntryModel>) -> bool {
    forall|i: int, j: int| 0 <= i < j < s.len() ==> s[i].id != s[j].id
}

/// Whether some registered operation carries `id`.
pub open spec fn has_id(s: Seq<EntryModel>, id: Seq<char>) -> bool {
    exists|i: int| 0 <= i < s.len() && s[i].id == id
}

/// The index of the operation carrying `id`; meaningful when `has_id` holds
/// and the ids are unique.
pub open spec fn idx_of(s: Seq<EntryModel>, id: Seq<char>) -> int {
    choose|i: int| 0 <= i < s.len() && s[i].id == id
}

/// Under unique ids, the index of a witness entry is the looked-up index.
pub proof fn lemma_idx_of(s: Seq<EntryModel>, id: Seq<char>, i: int)
    requires
        ids_unique(s),
        0 <= i < s.len(),
        s[i].id == id,
    ensures
        has_id(s, id),
        idx_of(s, id) == i,
{
    assert(has_id(s, id));
    let k = idx_of(s, id);
    assert(0 <= k < s.len() && s[k].id == id);
}

/// The ids of the operations whose invocation is in flight, in registry
/// order.
pub open spec fn performing_ids(s: Seq<EntryModel>) -> Seq<Seq<char>>
    decreases s.len(),
{
    if s.len() == 0 {
        Seq::empty()
    } else {
        let rest = performing_ids(s.drop_last());
        if s.last().in_flight {
            rest.push(s.last().id)
        } else {
            rest
        }
    }
}

/// One row of the control surface's listing: live state, not a snapshot.
pub struct CtrlInfo {
    pub id: String,
    pub description: String,
    pub performing: bool,
    pub locked: bool,
    pub sensing: bool,
}

/// Spec model of a `CtrlInfo` row.
pub struct CtrlInfoModel {
    pub id: Seq<char>,
    pub description: Seq<char>,
    pub performing: bool,
    pub locked: bool,
    pub sensing: bool,
}

impl View for CtrlInfo {
    type V = CtrlInfoModel;

    open spec fn view(&self) -> CtrlInfoModel {
        CtrlInfoModel {
            id: self.id@,
            description: self.description@,
            performing: self.performing,
            locked: self.locked,
            sensing: self.sensing,
        }
    }
}

impl DeepView for CtrlInfo {
    type V = CtrlInfoModel;

    open spec fn deep_view(&self) -> CtrlInfoModel {
        self.view()
    }
}

/// The row that reports an entry's live state.
pub open spec fn info_of(e: EntryModel) -> CtrlInfoModel {
    CtrlInfoModel {
        id: e.id,
        description: e.description,
        performing: e.in_flight,
        locked: e.locked,
        sensing: e.sensing(),
    }
}

impl CtrlInfo {
    pub fn id(&self) -> (r: &String)
        ensures
            r@ == self@.id,
    {
        &self.id
    }

    pub fn description(&self) -> (r: &String)
        ensures
            r@ == self@.description,
    {
        &self.description
    }

    pub fn performing(&self) -> (b: bool)
        ensures
            b == self@.performing,
    {
        self.performing
    }

    pub fn locked(&self) -> (b: bool)
        ensures
            b == self@.locked,
    {
        self.locked
    }

    pub fn sensing(&self) -> (b: bool)
        ensures
            b == self@.sensing,
    {
        self.sensing
    }
}

/// Mutable borrow of one registry slot; the rest of the table is untouched.
fn entry_mut(v: &mut Vec<OperationEntry>, i: usize) -> (e: &mut OperationEntry)
    requires
        i < old(v)@.len(),
    ensures
        *e == old(v)@[i as int],
        final(v)@ == old(v)@.update(i as int, *final(e)),
{
    &mut v[i]
}

/// The process-wide table of operations, one slot per registered id. All
/// control calls and every state transition of an operation go through its
/// slot here, which is what serializes them.
pub struct ControllerManager {
    entries: Vec<OperationEntry>,
}

impl View for ControllerManager {
    type V = Seq<EntryModel>;

    closed spec fn view(&self) -> Seq<EntryModel> {
        self.entries.deep_view()
    }
}

impl ControllerManager {
    /// The registry never holds two operations with one id.
    pub open spec fn wf(self) -> bool {
        ids_unique(self@)
    }

    /// An empty registry.
    pub fn new() -> (r: Self)
        ensures
            r@ == Seq::<EntryModel>::empty(),
            r.wf(),
    {
        let r = ControllerManager { entries: Vec::new() };
        proof {
            assert(r@ =~= Seq::<EntryModel>::empty());
        }
        r
    }

    /// Registers an operation. A duplicate id is refused, so ids stay unique
    /// for the registry's lifetime; reports whether the entry was added.
    pub fn submit(&mut self, entry: OperationEntry) -> (added: bool)
        requires
            old(self).wf(),
        ensures
            final(self).wf(),
            added == !has_id(old(self)@, entry@.id),
            added ==> final(self)@ == old(self)@.push(entry@),
            !added ==> final(self)@ == old(self)@,
    {
        let dup = self.position(&entry.id);
        match dup {
            Some(_) => false,
            None => {
                let ghost pre = self@;
                let ghost em = entry@;
                self.entries.push(entry);
                proof {
                    assert(self@ =~= pre.push(em));
                    assert forall|i: int, j: int| 0 <= i < j < self@.len() implies self@[i].id
                        != self@[j].id by {
                        if j == self@.len() - 1 {
                            assert(!has_id(pre, em.id));
                            assert(pre[i].id != em.id);
                        }
                    }
                }
                true
            },
        }
    }

    /// The slot holding `id`, when one does.
    fn position(&self, id: &String) -> (r: Option<usize>)
        ensures
            match r {
                Some(i) => i < self@.len() && self@[i as int].id == id@,
                None => !has_id(self@, id@),
            },
    {
        let mut i: usize = 0;
        while i < self.entries.len()
            invariant
                i <= self@.len(),
                self@.len() == self.entries@.len(),
                forall|j: int| 0 <= j < i ==> (#[trigger] self@[j]).id != id@,
            decreases self@.len() - i,
        {
            if self.entries[i].id == *id {
                return Some(i);
            }
            i = i + 1;
        }
        None
    }

    /// Live state of the operation carrying `id`.
    pub fn ctrl(&self, id: &String) -> (r: Option<CtrlInfo>)
        requires
            self.wf(),
        ensures
            match r {
                Some(info) => has_id(self@, id@) && info@ == info_of(self@[idx_of(self@, id@)]),
                None => !has_id(self@, id@),
            },
    {
        match self.position(id) {
            Some(i) => {
                proof {
                    lemma_idx_of(self@, id@, i as int);
                }
                Some(self.info_at(i))
            },
            None => None,
        }
    }

    /// The row for slot `i`.
    fn info_at(&self, i: usize) -> (info: CtrlInfo)
        requires
            i < self@.len(),
        ensures
            info@ == info_of(self@[i as int]),
    {
        let e = &self.entries[i];
        CtrlInfo {
            id: e.id.clone(),
            description: e.description.clone(),
            performing: e.in_flight,
            locked: e.locked,
            sensing: match &e.sensor {
                Some(s) => s.is_running(),
                None => false,
            },
        }
    }

    /// Live rows for every registered operation, in registry order.
    pub fn list(&self) -> (r: Vec<CtrlInfo>)
        ensures
            r.deep_view().len() == self@.len(),
            forall|i: int| 0 <= i < self@.len() ==> r.deep_view()[i] == info_of(self@[i]),
    {
        let mut r: Vec<CtrlInfo> = Vec::new();
        let mut i: usize = 0;
        while i < self.entries.len()
            invariant
                i <= self@.len(),
                self@.len() == self.entries@.len(),
                r.deep_view().len() == i,
                forall|j: int| 0 <= j < i ==> r.deep_view()[j] == info_of(self@[j]),
            decreases self@.len() - i,
        {
            let info = self.info_at(i);
            let ghost pre_dv = r.deep_view();
            let ghost pre_seq = r@;
            let ghost im = info@;
            r.push(info);
            proof {
                assert forall|j: int| 0 <= j < i + 1 implies r.deep_view()[j] == info_of(
                    self@[j],
                ) by {
                    assert(r.deep_view()[j] == r@[j].deep_view());
                    if j < i {
                        assert(r@[j] == pre_seq[j]);
                        assert(pre_dv[j] == pre_seq[j].deep_view());
                    } else {
                        assert(r@[j]@ == im);
                    }
                }
            }
            i = i + 1;
        }
        r
    }

    /// The ids of the operations whose invocation is in flight, in registry
    /// order.
    pub fn list_performing(&self) -> (r: Vec<String>)
        ensures
            r.deep_view() == performing_ids(self@),
    {
        let mut r: Vec<String> = Vec::new();
        let mut i: usize = 0;
        while i < self.entries.len()
            invariant
                i <= self@.len(),
                self@.len() == self.entries@.len(),
                r.deep_view() =~= performing_ids(self@.take(i as int)),
            decreases self@.len() - i,
        {
            proof {
                assert(self@.take(i + 1).drop_last() =~= self@.take(i as int));
                assert(self@.take(i + 1).last() == self@[i as int]);
            }
            if self.entries[i].in_flight {
                r.push(self.entries[i].id.clone());
            }
            i = i + 1;
        }
        proof {
            assert(self@.take(self@.len() as int) =~= self@);
        }
        r
    }

    /// Locks the operation carrying `id`: every later activation is rejected
    /// until an explicit unlock. Idempotent; immediate for subsequent
    /// activations; an invocation already in flight is not cancelled.
    pub fn lock(&mut self, id: &String) -> (r: Result<(), ManagerError>)
        requires
            old(self).wf(),
        ensures
            final(self).wf(),
            !has_id(old(self)@, id@) ==> r == Result::<(), ManagerError>::Err(
                ManagerError::UnknownId,
            ) && final(self)@ == old(self)@,
            has_id(old(self)@, id@) ==> r == Result::<(), ManagerError>::Ok(()) && final(self)@
                == old(self)@.update(
                idx_of(old(self)@, id@),
                EntryModel { locked: true, ..old(self)@[idx_of(old(self)@, id@)] },
            ),
    {
        match self.position(id) {
            Some(i) => {
                proof {
                    lemma_idx_of(self@, id@, i as int);
                }
                let e = entry_mut(&mut self.entries, i);
                e.lock();
                proof {
                    self.lemma_update_keeps_unique(old(self)@, i as int);
                }
                Result::Ok(())
            },
            None => Result::Err(ManagerError::UnknownId),
        }
    }

    /// Unlocks the operation carrying `id`, so a later activation is admitted
    /// again. Idempotent.
    pub fn unlock(&mut self, id: &String) -> (r: Result<(), ManagerError>)
        requires
            old(self).wf(),
        ensures
            final(self).wf(),
            !has_id(old(self)@, id@) ==> r == Result::<(), ManagerError>::Err(
                ManagerError::UnknownId,
            ) && final(self)@ == old(self)@,
            has_id(old(self)@, id@) ==> r == Result::<(), ManagerError>::Ok(()) && final(self)@
                == old(self)@.update(
                idx_of(old(self)@, id@),
                EntryModel { locked: false, ..old(self)@[idx_of(old(self)@, id@)] },
            ),
    {
        match self.position(id) {
            Some(i) => {
                proof {
                    lemma_idx_of(self@, id@, i as int);
                }
                let e = entry_mut(&mut self.entries, i);
                e.unlock();
                proof {
                    self.lemma_update_keeps_unique(old(self)@, i as int);
                }
                Result::Ok(())
            },
            None => Result::Err(ManagerError::UnknownId),
        }
    }

    /// Ends the in-flight invocation of the operation carrying `id`: its
    /// stream ends with the returned `Aborted` event, the in-flight marker is
    /// released, and the lock state is untouched.
    pub fn abort(&mut self, id: &String) -> (r: Result<OpState, ManagerError>)
        requires
            old(self).wf(),
        ensures
            final(self).wf(),
            !has_id(old(self)@, id@) ==> r == Result::<OpState, ManagerError>::Err(
                ManagerError::UnknownId,
            ) && final(self)@ == old(self)@,
            has_id(old(self)@, id@) ==> (r matches Result::Ok(e) && e@ == EventModel::Aborted) && final(self)@ == old(self)@.update(
                idx_of(old(self)@, id@),
                EntryModel { in_flight: false, ..old(self)@[idx_of(old(self)@, id@)] },
            ),
    {
        match self.position(id) {
            Some(i) => {
                proof {
                    lemma_idx_of(self@, id@, i as int);
                }
                let e = entry_mut(&mut self.entries, i);
                let ev = e.abort();
                proof {
                    self.lemma_update_keeps_unique(old(self)@, i as int);
                }
                Result::Ok(ev)
            },
            None => Result::Err(ManagerError::UnknownId),
        }
    }

    /// Arms the sensor of the operation carrying `id`; a no-op when already
    /// armed, an error when the operation has no sensor bound.
    pub fn start_sensor(&mut self, id: &String) -> (r: Result<(), ManagerError>)
        requires
            old(self).wf(),
        ensures
            final(self).wf(),
            !has_id(old(self)@, id@) ==> r == Result::<(), ManagerError>::Err(
                ManagerError::UnknownId,
            ) && final(self)@ == old(self)@,
            has_id(old(self)@, id@) ==> (match old(self)@[idx_of(old(self)@, id@)].sensor {
                Some(s) => r == Result::<(), ManagerError>::Ok(()) && final(self)@
                    == old(self)@.update(
                    idx_of(old(self)@, id@),
                    EntryModel {
                        sensor: Some(SensorModel { running: true, ..s }),
                        ..old(self)@[idx_of(old(self)@, id@)]
                    },
                ),
                None => r == Result::<(), ManagerError>::Err(ManagerError::NoSensor)
                    && final(self)@ == old(self)@,
            }),
    {
        match self.position(id) {
            Some(i) => {
                proof {
                    lemma_idx_of(self@, id@, i as int);
                }
                let e = entry_mut(&mut self.entries, i);
                let ok = e.start_sensor();
                proof {
                    self.lemma_update_keeps_unique(old(self)@, i as int);
                }
                if ok {
                    Result::Ok(())
                } else {
                    proof {
                        assert(self@ =~= old(self)@);
                    }
                    Result::Err(ManagerError::NoSensor)
                }
            },
            None => Result::Err(ManagerError::UnknownId),
        }
    }

    /// Disarms the sensor of the operation carrying `id`; a no-op when
    /// already stopped. An invocation the sensor already submitted is not
    /// cancelled.
    pub fn stop_sensor(&mut self, id: &String) -> (r: Result<(), ManagerError>)
        requires
            old(self).wf(),
        ensures
            final(self).wf(),
            !has_id(old(self)@, id@) ==> r == Result::<(), ManagerError>::Err(
                ManagerError::UnknownId,
            ) && final(self)@ == old(self)@,
            has_id(old(self)@, id@) ==> (match old(self)@[idx_of(old(self)@, id@)].sensor {
                Some(s) => r == Result::<(), ManagerError>::Ok(()) && final(self)@
                    == old(self)@.update(
                    idx_of(old(self)@, id@),
                    EntryModel {
                        sensor: Some(SensorModel { running: false, ..s }),
                        ..old(self)@[idx_of(old(self)@, id@)]
                    },
                ),
                None => r == Result::<(), ManagerError>::Err(ManagerError::NoSensor)
                    && final(self)@ == old(self)@,
            }),
    {
        match self.position(id) {
            Some(i) => {
                proof {
                    lemma_idx_of(self@, id@, i as int);
                }
                let e = entry_mut(&mut self.entries, i);
                let ok = e.stop_sensor();
                proof {
                    self.lemma_update_keeps_unique(old(self)@, i as int);
                }
                if ok {
                    Result::Ok(())
                } else {
                    proof {
                        assert(self@ =~= old(self)@);
                    }
                    Result::Err(ManagerError::NoSensor)
                }
            },
            None => Result::Err(ManagerError::UnknownId),
        }
    }

    /// One whole activation attempt of the operation carrying `id`, when the
    /// successive attempts of its work would come to `outcomes`: the complete
    /// event stream and the attempts made, exactly as `activation_events` and
    /// `activation_attempts` have them, with the entry's control state moved
    /// to `entry_after_activation`.
    pub fn activate(&mut self, id: &String, outcomes: &Vec<AttemptOutcome>) -> (r: Result<
        (Vec<OpState>, usize),
        ManagerError,
    >)
        requires
            old(self).wf(),
            has_id(old(self)@, id@) && old(self)@[idx_of(old(self)@, id@)].admits_activation()
                ==> outcomes.deep_view().len() >= attempt_budget(
                old(self)@[idx_of(old(self)@, id@)].retry,
            ),
        ensures
            final(self).wf(),
            !has_id(old(self)@, id@) ==> r == Result::<(Vec<OpState>, usize), ManagerError>::Err(
                ManagerError::UnknownId,
            ) && final(self)@ == old(self)@,
            has_id(old(self)@, id@) ==> (r matches Result::Ok(rep) && rep.0.deep_view()
                == activation_events(old(self)@[idx_of(old(self)@, id@)], outcomes.deep_view())
                && rep.1 == activation_attempts(
                old(self)@[idx_of(old(self)@, id@)],
                outcomes.deep_view(),
            )) && final(self)@ == old(self)@.update(
                idx_of(old(self)@, id@),
                entry_after_activation(
                    old(self)@[idx_of(old(self)@, id@)],
                    outcomes.deep_view(),
                ),
            ),
    {
        match self.position(id) {
            Some(i) => {
                proof {
                    lemma_idx_of(self@, id@, i as int);
                }
                let e = entry_mut(&mut self.entries, i);
                let rep = e.run_invocation(outcomes);
                proof {
                    self.lemma_update_keeps_unique(old(self)@, i as int);
                }
                Result::Ok(rep)
            },
            None => Result::Err(ManagerError::UnknownId),
        }
    }

    /// A column of the listing after an invocation settles on an abrupt
    /// termination: the one row any observer can read shows the operation
    /// locked, not performing, and with its sensor stopped — there is no
    /// state in which the lock is visible while the sensor is still armed.
    pub proof fn lemma_panic_observation(e: EntryModel, outcomes: Seq<OutcomeModel>)
        requires
            e.admits_activation(),
            settled_outcome(outcomes, attempt_budget(e.retry)) matches OutcomeModel::Panicked(_),
        ensures
            info_of(entry_after_activation(e, outcomes)).locked,
            !info_of(entry_after_activation(e, outcomes)).sensing,
            !info_of(entry_after_activation(e, outcomes)).performing,
    {
        crate::entry::lemma_panic_locks_and_disarms(e, outcomes);
    }

    /// An update of one slot that keeps its id keeps the ids unique, and the
    /// registry view is the pointwise update.
    proof fn lemma_update_keeps_unique(&self, pre: Seq<EntryModel>, i: int)
        requires
            ids_unique(pre),
            0 <= i < pre.len(),
            self@.len() == pre.len(),
            self@[i].id == pre[i].id,
            forall|j: int| 0 <= j < pre.len() && j != i ==> self@[j] == pre[j],
        ensures
            self.wf(),
            self@ == pre.update(i, self@[i]),
    {
        assert(self@ =~= pre.update(i, self@[i]));
    }
}

} // verus!
