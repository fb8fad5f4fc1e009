//! The safety manager: a journal of the changes each execution made, with
//! their rollback state, and the table of executions with their
//! cancellation flags.

use vstd::prelude::*;
use crate::clock::unix_millis;
use crate::task_registry::texts_view;
use crate::text::{
    contains, dashed, decimal, decimal_text, join2, lemma_dashed_serial_determined, text_contains, text_eq,
};

verus! {

/// Where a recorded change stands with respect to being undone.
#[derive(Clone, Copy, Debug, PartialEq, Eq, Structural)]
pub enum RollbackStatus {
    Pending,
    Applied,
    RollbackAvailable,
    RollingBack,
    RolledBack,
    RollbackFailed,
    RollbackPartial,
    Unknown,
    Irreversible,
}

/// One change that an execution made to the system.
#[derive(Debug, PartialEq, Eq)]
pub struct ChangeRecord {
    pub id: String,
    pub execution_id: String,
    pub timestamp: String,
    pub task_id: String,
    pub description: String,
    pub backup_location: Option<String>,
    pub reversible: bool,
    pub rollback_status: RollbackStatus,
    pub result: String,
}

/// A change record with its texts taken as character sequences.
pub struct ChangeRecordView {
    pub id: Seq<char>,
    pub execution_id: Seq<char>,
    pub timestamp: Seq<char>,
    pub task_id: Seq<char>,
    pub description: Seq<char>,
    pub backup_location: Option<Seq<char>>,
    pub reversible: bool,
    pub rollback_status: RollbackStatus,
    pub result: Seq<char>,
}

/// The characters of an optional text.
pub open spec fn opt_text(o: Option<String>) -> Option<Seq<char>> {
    match o {
        Some(s) => Some(s@),
        None => None,
    }
}

/// The characters of an optional text slice.
pub open spec fn opt_str(o: Option<&str>) -> Option<Seq<char>> {
    match o {
        Some(s) => Some(s@),
        None => None,
    }
}

/// A result whose texts are taken as character sequences.
pub open spec fn text_result(r: Result<String, String>) -> Result<Seq<char>, Seq<char>> {
    match r {
        Ok(s) => Ok(s@),
        Err(e) => Err(e@),
    }
}

/// A copy of an optional text.
pub fn copy_opt_text(o: &Option<String>) -> (r: Option<String>)
    ensures
        r == *o,
{
    match o {
        Some(s) => Some(s.clone()),
        None => None,
    }
}

impl View for ChangeRecord {
    type V = ChangeRecordView;

    open spec fn view(&self) -> ChangeRecordView {
        ChangeRecordView {
            id: self.id@,
            execution_id: self.execution_id@,
            timestamp: self.timestamp@,
            task_id: self.task_id@,
            description: self.description@,
            backup_location: opt_text(self.backup_location),
            reversible: self.reversible,
            rollback_status: self.rollback_status,
            result: self.result@,
        }
    }
}

impl Clone for ChangeRecord {
    fn clone(&self) -> (r: Self)
        ensures
            r == *self,
    {
        ChangeRecord {
            id: self.id.clone(),
            execution_id: self.execution_id.clone(),
            timestamp: self.timestamp.clone(),
            task_id: self.task_id.clone(),
            description: self.description.clone(),
            backup_location: copy_opt_text(&self.backup_location),
            reversible: self.reversible,
            rollback_status: self.rollback_status,
            result: self.result.clone(),
        }
    }
}

/// The state of one execution of a task.
#[derive(Debug, PartialEq, Eq)]
pub struct ExecutionState {
    pub execution_id: String,
    pub task_id: String,
    pub status: String,
    pub started_at: String,
    pub cancelled: bool,
    pub process_id: Option<u32>,
}

/// An execution state with its texts taken as character sequences.
pub struct ExecutionStateView {
    pub execution_id: Seq<char>,
    pub task_id: Seq<char>,
    pub status: Seq<char>,
    pub started_at: Seq<char>,
    pub cancelled: bool,
    pub process_id: Option<u32>,
}

impl View for ExecutionState {
    type V = ExecutionStateView;

    open spec fn view(&self) -> ExecutionStateView {
        ExecutionStateView {
            execution_id: self.execution_id@,
            task_id: self.task_id@,
            status: self.status@,
            started_at: self.started_at@,
            cancelled: self.cancelled,
            process_id: self.process_id,
        }
    }
}

impl Clone for ExecutionState {
    fn clone(&self) -> (r: Self)
        ensures
            r == *self,
    {
        ExecutionState {
            execution_id: self.execution_id.clone(),
            task_id: self.task_id.clone(),
            status: self.status.clone(),
            started_at: self.started_at.clone(),
            cancelled: self.cancelled,
            process_id: self.process_id,
        }
    }
}

/// What the caller of a new execution learns of it.
#[derive(Debug, PartialEq, Eq)]
pub struct ExecutionHandle {
    pub execution_id: String,
    pub task_id: String,
    pub status: String,
    pub cancelled: bool,
}

impl ExecutionHandle {
    /// The execution runs and nobody asked to cancel it.
    pub fn is_running(&self) -> (r: bool)
        ensures
            r == (self.status@ == "running"@ && !self.cancelled),
    {
        text_eq(self.status.as_str(), "running") && !self.cancelled
    }
}

/// A status under which an execution still occupies the machine.
pub open spec fn is_active_status(status: Seq<char>) -> bool {
    status == "running"@ || status == "cancelling"@
}

/// The execution belongs to the task and is still active.
pub open spec fn active_for(state: ExecutionStateView, task_id: Seq<char>) -> bool {
    state.task_id == task_id && is_active_status(state.status)
}

/// No two states of the table share an execution id.
pub open spec fn ids_distinct(s: Seq<ExecutionState>) -> bool {
    forall|i: int, j: int|
        0 <= i < s.len() && 0 <= j < s.len() && i != j ==> (#[trigger] s[i]).execution_id@
            != (#[trigger] s[j]).execution_id@
}

/// Some state of the table carries the execution id.
pub open spec fn has_id(s: Seq<ExecutionState>, k: Seq<char>) -> bool {
    exists|i: int| 0 <= i < s.len() && (#[trigger] s[i]).execution_id@ == k
}

/// The table of execution states, keyed by execution id.
pub open spec fn state_map(s: Seq<ExecutionState>) -> Map<Seq<char>, ExecutionStateView> {
    Map::new(
        |k: Seq<char>| has_id(s, k),
        |k: Seq<char>| s[choose|i: int| 0 <= i < s.len() && (#[trigger] s[i]).execution_id@ == k]@,
    )
}

proof fn lemma_state_map_at(s: Seq<ExecutionState>, i: int)
    requires
        ids_distinct(s),
        0 <= i < s.len(),
    ensures
        state_map(s).dom().contains(s[i].execution_id@),
        state_map(s)[s[i].execution_id@] == s[i]@,
{
    let k = s[i].execution_id@;
    assert(has_id(s, k));
    let j = choose|j: int| 0 <= j < s.len() && (#[trigger] s[j]).execution_id@ == k;
    assert(j == i);
}

proof fn lemma_state_map_update(s: Seq<ExecutionState>, i: int, v: ExecutionState)
    requires
        ids_distinct(s),
        0 <= i < s.len(),
        v.execution_id@ == s[i].execution_id@,
    ensures
        ids_distinct(s.update(i, v)),
        state_map(s.update(i, v)) == state_map(s).insert(v.execution_id@, v@),
{
    let t = s.update(i, v);
    assert forall|a: int, b: int|
        0 <= a < t.len() && 0 <= b < t.len() && a != b implies (#[trigger] t[a]).execution_id@
        != (#[trigger] t[b]).execution_id@ by {
        assert(t[a].execution_id@ == s[a].execution_id@);
        assert(t[b].execution_id@ == s[b].execution_id@);
    }
    let m1 = state_map(t);
    let m2 = state_map(s).insert(v.execution_id@, v@);
    assert forall|k: Seq<char>| m1.dom().contains(k) <==> m2.dom().contains(k) by {
        if has_id(t, k) {
            let j = choose|j: int| 0 <= j < t.len() && (#[trigger] t[j]).execution_id@ == k;
            assert(s[j].execution_id@ == k);
        }
        if has_id(s, k) {
            let j = choose|j: int| 0 <= j < s.len() && (#[trigger] s[j]).execution_id@ == k;
            assert(t[j].execution_id@ == k);
        }
        if k == v.execution_id@ {
            assert(t[i].execution_id@ == k);
        }
    }
    assert forall|k: Seq<char>| m1.dom().contains(k) implies m1[k] == m2[k] by {
        let j = choose|j: int| 0 <= j < t.len() && (#[trigger] t[j]).execution_id@ == k;
        lemma_state_map_at(t, j);
        if j != i {
            lemma_state_map_at(s, j);
        }
    }
    assert(m1 =~= m2);
}

proof fn lemma_state_map_push(s: Seq<ExecutionState>, v: ExecutionState)
    requires
        ids_distinct(s),
        !has_id(s, v.execution_id@),
    ensures
        ids_distinct(s.push(v)),
        state_map(s.push(v)) == state_map(s).insert(v.execution_id@, v@),
{
    let t = s.push(v);
    let n = s.len() as int;
    assert forall|a: int, b: int|
        0 <= a < t.len() && 0 <= b < t.len() && a != b implies (#[trigger] t[a]).execution_id@
        != (#[trigger] t[b]).execution_id@ by {
        if a < n && b < n {
            assert(t[a] == s[a] && t[b] == s[b]);
        } else if a < n {
            assert(t[a] == s[a]);
        } else if b < n {
            assert(t[b] == s[b]);
        }
    }
    let m1 = state_map(t);
    let m2 = state_map(s).insert(v.execution_id@, v@);
    assert forall|k: Seq<char>| m1.dom().contains(k) <==> m2.dom().contains(k) by {
        if has_id(t, k) {
            let j = choose|j: int| 0 <= j < t.len() && (#[trigger] t[j]).execution_id@ == k;
            if j < n {
                assert(s[j].execution_id@ == k);
            }
        }
        if has_id(s, k) {
            let j = choose|j: int| 0 <= j < s.len() && (#[trigger] s[j]).execution_id@ == k;
            assert(t[j].execution_id@ == k);
        }
        if k == v.execution_id@ {
            assert(t[n].execution_id@ == k);
        }
    }
    assert forall|k: Seq<char>| m1.dom().contains(k) implies m1[k] == m2[k] by {
        let j = choose|j: int| 0 <= j < t.len() && (#[trigger] t[j]).execution_id@ == k;
        lemma_state_map_at(t, j);
        if j != n {
            assert(t[j] == s[j]);
            lemma_state_map_at(s, j);
        }
    }
    assert(m1 =~= m2);
}

/// The serial number that follows `s`, wrapping around as an atomic counter does.
pub open spec fn next_serial(s: u64) -> u64 {
    if s == u64::MAX {
        0
    } else {
        (s + 1) as u64
    }
}

/// A unique identifier: a clock reading in milliseconds and a serial number.
pub open spec fn unique_text(millis: nat, serial: nat) -> Seq<char> {
    dashed(decimal_text(millis), serial)
}

/// The id of a change recorded with the given clock reading and serial number.
pub open spec fn change_id_text(millis: nat, serial: nat) -> Seq<char> {
    "change-"@ + unique_text(millis, serial)
}

/// The id of an execution registered with the given clock reading and serial number.
pub open spec fn execution_id_text(millis: nat, serial: nat) -> Seq<char> {
    "execution-"@ + unique_text(millis, serial)
}

/// `k` is the last position of a change with the id.
pub open spec fn is_last_change(s: Seq<ChangeRecordView>, id: Seq<char>, k: int) -> bool {
    &&& 0 <= k < s.len()
    &&& s[k].id == id
    &&& forall|j: int| k < j < s.len() ==> (#[trigger] s[j]).id != id
}

/// `k` is the first position of a change with the id.
pub open spec fn is_first_change(s: Seq<ChangeRecordView>, id: Seq<char>, k: int) -> bool {
    &&& 0 <= k < s.len()
    &&& s[k].id == id
    &&& forall|j: int| 0 <= j < k ==> (#[trigger] s[j]).id != id
}

/// The position of the last change with the id, or -1 where there is none.
pub open spec fn last_change_index(s: Seq<ChangeRecordView>, id: Seq<char>) -> int {
    if exists|k: int| is_last_change(s, id, k) {
        choose|k: int| is_last_change(s, id, k)
    } else {
        -1
    }
}

proof fn lemma_last_change_index_is(s: Seq<ChangeRecordView>, id: Seq<char>, i: int)
    requires
        0 <= i < s.len(),
        s[i].id == id,
        forall|j: int| i < j < s.len() ==> (#[trigger] s[j]).id != id,
    ensures
        last_change_index(s, id) == i,
{
    assert(is_last_change(s, id, i));
    let c = last_change_index(s, id);
    assert(is_last_change(s, id, c));
    if c < i {
        assert(s[i].id != id);
    }
    if c > i {
        assert(s[c].id != id);
    }
}

/// The last position of an id lies in the journal and holds the id, where there is one.
pub proof fn lemma_last_change_index_range(s: Seq<ChangeRecordView>, id: Seq<char>)
    ensures
        -1 <= last_change_index(s, id) < s.len(),
        last_change_index(s, id) >= 0 ==> s[last_change_index(s, id)].id == id,
{
}

/// Two journals whose changes carry the same ids, position by position,
/// have their last change with any id at the same position.
pub proof fn lemma_last_change_index_same_ids(s1: Seq<ChangeRecordView>, s2: Seq<ChangeRecordView>, id: Seq<char>)
    requires
        s1.len() == s2.len(),
        forall|k: int| 0 <= k < s1.len() ==> (#[trigger] s2[k]).id == s1[k].id,
    ensures
        last_change_index(s1, id) == last_change_index(s2, id),
{
    if exists|k: int| is_last_change(s1, id, k) {
        let k = choose|k: int| is_last_change(s1, id, k);
        assert forall|j: int| k < j < s2.len() implies (#[trigger] s2[j]).id != id by {
            assert(s1[j].id != id);
        }
        lemma_last_change_index_is(s1, id, k);
        lemma_last_change_index_is(s2, id, k);
    } else {
        assert forall|k: int| !is_last_change(s2, id, k) by {
            if is_last_change(s2, id, k) {
                assert forall|j: int| k < j < s1.len() implies (#[trigger] s1[j]).id != id by {
                    assert(s2[j].id != id);
                }
                assert(is_last_change(s1, id, k));
            }
        }
    }
}

proof fn lemma_change_index_absent(s: Seq<ChangeRecordView>, id: Seq<char>)
    requires
        forall|j: int| 0 <= j < s.len() ==> (#[trigger] s[j]).id != id,
    ensures
        last_change_index(s, id) == -1,
        first_change_index(s, id) == -1,
{
    assert forall|k: int| !is_last_change(s, id, k) by {
        if 0 <= k < s.len() {
            assert(s[k].id != id);
        }
    }
    assert forall|k: int| !is_first_change(s, id, k) by {
        if 0 <= k < s.len() {
            assert(s[k].id != id);
        }
    }
}

/// The position of the first change with the id, or -1 where there is none.
pub open spec fn first_change_index(s: Seq<ChangeRecordView>, id: Seq<char>) -> int {
    if exists|k: int| is_first_change(s, id, k) {
        choose|k: int| is_first_change(s, id, k)
    } else {
        -1
    }
}

proof fn lemma_first_change_index_is(s: Seq<ChangeRecordView>, id: Seq<char>, i: int)
    requires
        0 <= i < s.len(),
        s[i].id == id,
        forall|j: int| 0 <= j < i ==> (#[trigger] s[j]).id != id,
    ensures
        first_change_index(s, id) == i,
{
    assert(is_first_change(s, id, i));
    let c = first_change_index(s, id);
    assert(is_first_change(s, id, c));
    if c < i {
        assert(s[c].id != id);
    }
    if c > i {
        assert(s[i].id != id);
    }
}

/// The rollback status of the first change with the id, if any.
pub open spec fn first_status(s: Seq<ChangeRecordView>, id: Seq<char>) -> Option<RollbackStatus> {
    if first_change_index(s, id) >= 0 {
        Some(s[first_change_index(s, id)].rollback_status)
    } else {
        None
    }
}

/// The journal with the result of the first change with the id replaced.
pub open spec fn journal_with_result(s: Seq<ChangeRecordView>, id: Seq<char>, result: Seq<char>) -> Seq<
    ChangeRecordView,
> {
    if first_change_index(s, id) >= 0 {
        s.update(first_change_index(s, id), ChangeRecordView { result, ..s[first_change_index(s, id)] })
    } else {
        s
    }
}

/// The executions with the status of one of them replaced, where it exists.
pub open spec fn executions_with_status(
    m: Map<Seq<char>, ExecutionStateView>,
    id: Seq<char>,
    status: Seq<char>,
) -> Map<Seq<char>, ExecutionStateView> {
    if m.contains_key(id) {
        m.insert(id, ExecutionStateView { status, ..m[id] })
    } else {
        m
    }
}

/// The executions with one of them marked as being cancelled.
pub open spec fn executions_cancelled(m: Map<Seq<char>, ExecutionStateView>, id: Seq<char>) -> Map<
    Seq<char>,
    ExecutionStateView,
> {
    m.insert(id, ExecutionStateView { cancelled: true, status: "cancelling"@, ..m[id] })
}

/// `k` is the task's only active execution.
pub open spec fn only_active(m: Map<Seq<char>, ExecutionStateView>, task_id: Seq<char>, k: Seq<char>) -> bool {
    &&& m.contains_key(k)
    &&& active_for(m[k], task_id)
    &&& forall|k2: Seq<char>|
        #![trigger m[k2]]
        m.contains_key(k2) && active_for(m[k2], task_id) ==> k2 == k
}

/// The id of the task's only active execution; `None` where the task has
/// no active execution or more than one.
pub open spec fn sole_active(m: Map<Seq<char>, ExecutionStateView>, task_id: Seq<char>) -> Option<Seq<char>> {
    if exists|k: Seq<char>| only_active(m, task_id, k) {
        Some(choose|k: Seq<char>| only_active(m, task_id, k))
    } else {
        None
    }
}

proof fn lemma_sole_active_is(m: Map<Seq<char>, ExecutionStateView>, task_id: Seq<char>, k: Seq<char>)
    requires
        m.contains_key(k),
        active_for(m[k], task_id),
        forall|k2: Seq<char>|
            #![trigger m[k2]]
            m.contains_key(k2) && active_for(m[k2], task_id) ==> k2 == k,
    ensures
        sole_active(m, task_id) == Some(k),
{
    assert(only_active(m, task_id, k));
    let c = choose|c: Seq<char>| only_active(m, task_id, c);
    assert(m.contains_key(c) && active_for(m[c], task_id));
}

pub proof fn lemma_sole_active_two(
    m: Map<Seq<char>, ExecutionStateView>,
    task_id: Seq<char>,
    k1: Seq<char>,
    k2: Seq<char>,
)
    requires
        k1 != k2,
        m.contains_key(k1),
        m.contains_key(k2),
        active_for(m[k1], task_id),
        active_for(m[k2], task_id),
    ensures
        sole_active(m, task_id) is None,
{
    assert forall|k: Seq<char>| !only_active(m, task_id, k) by {
        if only_active(m, task_id, k) {
            assert(m.contains_key(k1) && active_for(m[k1], task_id));
            assert(m.contains_key(k2) && active_for(m[k2], task_id));
        }
    }
}

/// The change with its rollback status replaced.
pub open spec fn with_status(c: ChangeRecordView, status: RollbackStatus) -> ChangeRecordView {
    ChangeRecordView { rollback_status: status, ..c }
}

/// The checks before a rollback: the journal afterwards, and either the
/// position of the change to restore or the reason for refusing.
pub open spec fn rollback_begin(s: Seq<ChangeRecordView>, id: Seq<char>) -> (
    Seq<ChangeRecordView>,
    Result<int, Seq<char>>,
) {
    let i = last_change_index(s, id);
    if i < 0 {
        (s, Err("Alteração não encontrada: "@ + id))
    } else if !s[i].reversible {
        (s, Err("Alteração irreversível: "@ + s[i].description))
    } else if s[i].rollback_status == RollbackStatus::RolledBack {
        (s, Err("Rollback já concluído."@))
    } else if s[i].backup_location is None {
        (s.update(i, with_status(s[i], RollbackStatus::RollbackFailed)), Err("Rollback sem snapshot."@))
    } else {
        (s.update(i, with_status(s[i], RollbackStatus::RollingBack)), Ok(i))
    }
}

/// The status a change takes once its snapshot has been restored or not.
pub open spec fn status_after_restore(outcome: Result<Seq<char>, Seq<char>>) -> RollbackStatus {
    match outcome {
        Ok(_) => RollbackStatus::RolledBack,
        Err(e) => if text_contains(e, "parcial"@) {
            RollbackStatus::RollbackPartial
        } else {
            RollbackStatus::RollbackFailed
        },
    }
}

/// The journal once the restore of the change at `i` has ended with `outcome`.
pub open spec fn rollback_finish(s: Seq<ChangeRecordView>, i: int, outcome: Result<Seq<char>, Seq<char>>) -> Seq<
    ChangeRecordView,
> {
    if 0 <= i < s.len() {
        s.update(i, with_status(s[i], status_after_restore(outcome)))
    } else {
        s
    }
}

/// One rollback of the change with the id, where the restore of its
/// snapshot, if the checks let it run, ended with `outcome`: the journal
/// afterwards and the answer.
#[verifier::opaque]
pub open spec fn rollback_step(s: Seq<ChangeRecordView>, id: Seq<char>, outcome: Result<Seq<char>, Seq<char>>) -> (
    Seq<ChangeRecordView>,
    Result<Seq<char>, Seq<char>>,
) {
    let (s1, b) = rollback_begin(s, id);
    match b {
        Err(e) => (s1, Err(e)),
        Ok(i) => (rollback_finish(s1, i, outcome), outcome),
    }
}

/// `outcome` is an answer that the restorer may give for the snapshot and
/// task of the change that a rollback of `id` restores; any outcome fits
/// where the checks refuse the rollback before a restore.
pub open spec fn restore_answer<F: Fn(String, String) -> Result<String, String>>(
    restore: &F,
    s: Seq<ChangeRecordView>,
    id: Seq<char>,
    outcome: Result<String, String>,
) -> bool {
    match rollback_begin(s, id).1 {
        Ok(i) => exists|l: String, t: String|
            #![trigger restore.ensures((l, t), outcome)]
            Some(l@) == s[i].backup_location && t@ == s[i].task_id && restore.ensures((l, t), outcome),
        Err(_) => true,
    }
}

/// The change belongs to the session: to the execution, or to any where none is named.
pub open spec fn in_session(c: ChangeRecordView, execution_id: Option<Seq<char>>) -> bool {
    match execution_id {
        Some(e) => c.execution_id == e,
        None => true,
    }
}

/// The ids of the session's changes, newest first.
pub open spec fn session_ids(s: Seq<ChangeRecordView>, execution_id: Option<Seq<char>>) -> Seq<Seq<char>>
    decreases s.len(),
{
    if s.len() == 0 {
        Seq::empty()
    } else {
        let rest = session_ids(s.drop_last(), execution_id);
        if in_session(s.last(), execution_id) {
            seq![s.last().id] + rest
        } else {
            rest
        }
    }
}

/// Rolls the changes back one after the other, the restores ending with
/// the outcomes in turn, stopping at the first refusal.
pub open spec fn session_run(s: Seq<ChangeRecordView>, ids: Seq<Seq<char>>, outcomes: Seq<Result<String, String>>) -> (
    Seq<ChangeRecordView>,
    Result<Seq<Seq<char>>, Seq<char>>,
)
    decreases ids.len(),
{
    if ids.len() == 0 {
        (s, Ok(Seq::empty()))
    } else {
        let (s1, r) = rollback_step(s, ids[0], text_result(outcomes[0]));
        match r {
            Err(e) => (s1, Err(e)),
            Ok(m) => {
                let (s2, rest) = session_run(s1, ids.drop_first(), outcomes.drop_first());
                (
                    s2,
                    match rest {
                        Ok(ms) => Ok(seq![m] + ms),
                        Err(e) => Err(e),
                    },
                )
            },
        }
    }
}

/// Each outcome of a session's run is an answer that the restorer may give
/// for the change rolled back at that point.
pub open spec fn session_answers<F: Fn(String, String) -> Result<String, String>>(
    restore: &F,
    s: Seq<ChangeRecordView>,
    ids: Seq<Seq<char>>,
    outcomes: Seq<Result<String, String>>,
) -> bool
    decreases ids.len(),
{
    if ids.len() == 0 {
        true
    } else {
        &&& outcomes.len() > 0
        &&& restore_answer(restore, s, ids[0], outcomes[0])
        &&& rollback_step(s, ids[0], text_result(outcomes[0])).1 is Ok ==> session_answers(
            restore,
            rollback_step(s, ids[0], text_result(outcomes[0])).0,
            ids.drop_first(),
            outcomes.drop_first(),
        )
    }
}

/// A list of texts, taken as character sequences, inside a result.
pub open spec fn texts_result(r: Result<Vec<String>, String>) -> Result<Seq<Seq<char>>, Seq<char>> {
    match r {
        Ok(v) => Ok(texts_view(v@)),
        Err(e) => Err(e@),
    }
}

/// The change to restore once the checks before a rollback have passed.
pub struct RollbackTarget {
    pub index: usize,
    pub location: String,
    pub task_id: String,
}

/// The restorer where granular rollback cannot run: it validates nothing
/// and answers that rollback is validated on Windows only.
pub fn restore_snapshot(location: String, task_id: String) -> (r: Result<String, String>)
    ensures
        text_result(r) == Err::<Seq<char>, Seq<char>>("Rollback granular só pode ser validado no Windows."@),
{
    Err(String::from_str("Rollback granular só pode ser validado no Windows."))
}

/// Every change id of the journal that carries a serial number carries one below `bound`.
pub open spec fn change_ids_below(s: Seq<ChangeRecordView>, bound: u64) -> bool {
    forall|i: int, m: nat, n: nat|
        #![trigger s[i], change_id_text(m, n)]
        0 <= i < s.len() && s[i].id == change_id_text(m, n) ==> n < bound
}

/// Every execution id of the table that carries a serial number carries one below `bound`.
pub open spec fn execution_ids_below(e: Map<Seq<char>, ExecutionStateView>, bound: u64) -> bool {
    forall|m: nat, n: nat| #[trigger] e.dom().contains(execution_id_text(m, n)) ==> n < bound
}

/// An execution id names its serial number.
pub proof fn lemma_execution_id_serial(m1: nat, s1: nat, m2: nat, s2: nat)
    requires
        execution_id_text(m1, s1) == execution_id_text(m2, s2),
    ensures
        s1 == s2,
{
    let p = "execution-"@;
    assert(execution_id_text(m1, s1) =~= dashed(p + decimal_text(m1), s1));
    assert(execution_id_text(m2, s2) =~= dashed(p + decimal_text(m2), s2));
    lemma_dashed_serial_determined(p + decimal_text(m1), s1, p + decimal_text(m2), s2);
}

/// A change id names its serial number.
pub proof fn lemma_change_id_serial(m1: nat, s1: nat, m2: nat, s2: nat)
    requires
        change_id_text(m1, s1) == change_id_text(m2, s2),
    ensures
        s1 == s2,
{
    let p = "change-"@;
    assert(change_id_text(m1, s1) =~= dashed(p + decimal_text(m1), s1));
    assert(change_id_text(m2, s2) =~= dashed(p + decimal_text(m2), s2));
    lemma_dashed_serial_determined(p + decimal_text(m1), s1, p + decimal_text(m2), s2);
}

proof fn lemma_change_ids_kept(s1: Seq<ChangeRecordView>, s2: Seq<ChangeRecordView>, bound: u64)
    requires
        s1.len() == s2.len(),
        forall|j: int| 0 <= j < s1.len() ==> (#[trigger] s2[j]).id == s1[j].id,
        change_ids_below(s1, bound),
    ensures
        change_ids_below(s2, bound),
{
    assert forall|i: int, m: nat, n: nat|
        0 <= i < s2.len() && #[trigger] s2[i].id == #[trigger] change_id_text(m, n) implies n < bound by {
        assert(s1[i].id == change_id_text(m, n));
    }
}

/// The safety manager: the journal of changes and the table of executions.
/// `serials_wrapped` records whether the serial counter has ever wrapped
/// around; until it has, every identifier handed out is fresh.
///
/// The folder where snapshot files are kept is not held here: it is a
/// path in the system's temporary directory, which the application
/// computes and joins with `snapshot::snapshot_file_name`.
#[derive(Clone)]
pub struct SafetyManager {
    pub changes: Vec<ChangeRecord>,
    pub execution_state: Vec<ExecutionState>,
    pub next_serial: u64,
    pub serials_wrapped: Ghost<bool>,
}

impl SafetyManager {
    /// The journal of changes, oldest first.
    pub open spec fn journal_view(&self) -> Seq<ChangeRecordView> {
        self.changes@.map_values(|c: ChangeRecord| c@)
    }

    /// The executions, keyed by execution id.
    pub open spec fn executions(&self) -> Map<Seq<char>, ExecutionStateView> {
        state_map(self.execution_state@)
    }

    /// The serial number the next identifier will carry.
    pub open spec fn serial(&self) -> u64 {
        self.next_serial
    }

    /// The serial counter has wrapped around at some point.
    pub open spec fn wrapped(&self) -> bool {
        self.serials_wrapped@
    }

    /// The manager's own invariant: no two executions share an id, and,
    /// until the counter wraps, every stored id's serial number lies below
    /// the next one.
    pub open spec fn wf(&self) -> bool {
        &&& ids_distinct(self.execution_state@)
        &&& !self.wrapped() ==> {
            &&& change_ids_below(self.journal_view(), self.next_serial)
            &&& execution_ids_below(self.executions(), self.next_serial)
        }
    }

    /// An empty manager. Its serial counter starts at zero and belongs to
    /// this manager alone: identifiers are fresh within one manager, and
    /// two managers used in the same millisecond can hand out equal ones,
    /// so an application keeps a single manager for the whole process.
    pub fn new() -> (r: Self)
        ensures
            r.wf(),
            r.journal_view() == Seq::<ChangeRecordView>::empty(),
            r.executions() == Map::<Seq<char>, ExecutionStateView>::empty(),
            r.serial() == 0,
            !r.wrapped(),
    {
        let r = SafetyManager {
            changes: Vec::new(),
            execution_state: Vec::new(),
            next_serial: 0,
            serials_wrapped: Ghost(false),
        };
        assert(r.journal_view() =~= Seq::<ChangeRecordView>::empty());
        assert(r.executions() =~= Map::<Seq<char>, ExecutionStateView>::empty());
        r
    }

    /// A fresh identifier: the clock in milliseconds, a dash, and the next
    /// serial number, which then advances by one.
    pub fn unique_id(&mut self) -> (r: String)
        ensures
            exists|m: nat| r@ == unique_text(m, old(self).serial() as nat),
            final(self).serial() == next_serial(old(self).serial()),
            final(self).wrapped() == (old(self).wrapped() || old(self).serial() == u64::MAX),
            final(self).journal_view() == old(self).journal_view(),
            final(self).executions() == old(self).executions(),
            final(self).execution_state == old(self).execution_state,
            old(self).wf() ==> final(self).wf(),
    {
        let millis = unix_millis();
        let serial = self.next_serial;
        if serial == u64::MAX {
            self.serials_wrapped = Ghost(true);
        }
        self.next_serial = serial.wrapping_add(1);
        let mut text = decimal(millis);
        proof {
            reveal_strlit("-");
        }
        text.append("-");
        let tail = decimal(serial as u128);
        text.append(tail.as_str());
        assert(text@ =~= unique_text(millis as nat, serial as nat));
        assert(text@ == unique_text(millis as nat, old(self).serial() as nat));
        text
    }

    /// A timestamp: a fresh identifier, clock first.
    pub fn iso_timestamp(&mut self) -> (r: String)
        ensures
            exists|m: nat| r@ == unique_text(m, old(self).serial() as nat),
            final(self).serial() == next_serial(old(self).serial()),
            final(self).wrapped() == (old(self).wrapped() || old(self).serial() == u64::MAX),
            final(self).journal_view() == old(self).journal_view(),
            final(self).executions() == old(self).executions(),
            final(self).execution_state == old(self).execution_state,
            old(self).wf() ==> final(self).wf(),
    {
        self.unique_id()
    }

    fn find_execution(&self, execution_id: &str) -> (r: Option<usize>)
        ensures
            match r {
                Some(i) => i < self.execution_state@.len() && self.execution_state@[i as int].execution_id@
                    == execution_id@,
                None => !has_id(self.execution_state@, execution_id@),
            },
    {
        let mut i: usize = 0;
        while i < self.execution_state.len()
            invariant
                i <= self.execution_state.len(),
                forall|j: int| 0 <= j < i ==> (#[trigger] self.execution_state@[j]).execution_id@
                    != execution_id@,
            decreases self.execution_state.len() - i,
        {
            if text_eq(self.execution_state[i].execution_id.as_str(), execution_id) {
                return Some(i);
            }
            i = i + 1;
        }
        None
    }

    fn store_execution(&mut self, state: ExecutionState)
        requires
            ids_distinct(old(self).execution_state@),
        ensures
            ids_distinct(final(self).execution_state@),
            final(self).executions() == old(self).executions().insert(state.execution_id@, state@),
            final(self).journal_view() == old(self).journal_view(),
            final(self).serial() == old(self).serial(),
            final(self).wrapped() == old(self).wrapped(),
    {
        match self.find_execution(state.execution_id.as_str()) {
            Some(i) => {
                proof {
                    lemma_state_map_update(self.execution_state@, i as int, state);
                }
                self.execution_state.set(i, state);
            },
            None => {
                proof {
                    lemma_state_map_push(self.execution_state@, state);
                }
                self.execution_state.push(state);
            },
        }
    }

    /// Registers a new execution of a task, running and not cancelled.
    pub fn register_execution(&mut self, task_id: &str) -> (r: ExecutionHandle)
        requires
            old(self).wf(),
        ensures
            final(self).wf(),
            exists|m: nat| r.execution_id@ == execution_id_text(m, old(self).serial() as nat),
            r.task_id@ == task_id@,
            r.status@ == "running"@,
            !r.cancelled,
            final(self).executions().dom() == old(self).executions().dom().insert(r.execution_id@),
            final(self).executions() == old(self).executions().insert(
                r.execution_id@,
                final(self).executions()[r.execution_id@],
            ),
            final(self).executions()[r.execution_id@].execution_id == r.execution_id@,
            final(self).executions()[r.execution_id@].task_id == task_id@,
            final(self).executions()[r.execution_id@].status == "running"@,
            !final(self).executions()[r.execution_id@].cancelled,
            final(self).executions()[r.execution_id@].process_id is None,
            exists|m: nat|
                final(self).executions()[r.execution_id@].started_at == unique_text(
                    m,
                    next_serial(old(self).serial()) as nat,
                ),
            final(self).serial() == next_serial(next_serial(old(self).serial())),
            final(self).journal_view() == old(self).journal_view(),
            !old(self).wrapped() ==> !old(self).executions().contains_key(r.execution_id@),
    {
        let ghost s0 = self.serial();
        let unique = self.unique_id();
        let execution_id = join2("execution-", unique.as_str());
        let ghost m1 = choose|m: nat| unique@ == unique_text(m, s0 as nat);
        assert(execution_id@ == execution_id_text(m1, s0 as nat));
        let started_at = self.iso_timestamp();
        let state = ExecutionState {
            execution_id: execution_id.clone(),
            task_id: String::from_str(task_id),
            status: String::from_str("running"),
            started_at,
            cancelled: false,
            process_id: None,
        };
        proof {
            if !old(self).wrapped() && old(self).executions().contains_key(execution_id@) {
                assert(old(self).executions().dom().contains(execution_id_text(m1, s0 as nat)));
            }
        }
        self.store_execution(state);
        proof {
            if !self.wrapped() {
                let e = self.executions();
                assert forall|m: nat, n: nat| #[trigger] e.dom().contains(execution_id_text(m, n)) implies n
                    < self.next_serial by {
                    if execution_id_text(m, n) == execution_id@ {
                        lemma_execution_id_serial(m, n, m1, s0 as nat);
                    } else {
                        assert(old(self).executions().dom().contains(execution_id_text(m, n)));
                    }
                }
            }
        }
        ExecutionHandle {
            execution_id,
            task_id: String::from_str(task_id),
            status: String::from_str("running"),
            cancelled: false,
        }
    }

    fn replace_state(&mut self, i: usize, state: ExecutionState)
        requires
            old(self).wf(),
            i < old(self).execution_state@.len(),
            state.execution_id@ == old(self).execution_state@[i as int].execution_id@,
        ensures
            final(self).wf(),
            final(self).executions() == old(self).executions().insert(state.execution_id@, state@),
            final(self).journal_view() == old(self).journal_view(),
            final(self).serial() == old(self).serial(),
    {
        proof {
            lemma_state_map_update(self.execution_state@, i as int, state);
            lemma_state_map_at(self.execution_state@, i as int);
        }
        self.execution_state.set(i, state);
        proof {
            assert(self.executions().dom() =~= old(self).executions().dom());
            let e = self.executions();
            if !self.wrapped() {
                assert forall|m: nat, n: nat| #[trigger] e.dom().contains(execution_id_text(m, n)) implies n
                    < self.next_serial by {
                    assert(old(self).executions().dom().contains(execution_id_text(m, n)));
                }
            }
        }
    }

    /// Marks an execution as cancelling; `false` where no execution has the id.
    pub fn cancel_execution(&mut self, execution_id: &str) -> (r: bool)
        requires
            old(self).wf(),
        ensures
            final(self).wf(),
            r == old(self).executions().contains_key(execution_id@),
            r ==> final(self).executions() == executions_cancelled(old(self).executions(), execution_id@),
            !r ==> final(self).executions() == old(self).executions(),
            final(self).journal_view() == old(self).journal_view(),
            final(self).serial() == old(self).serial(),
    {
        match self.find_execution(execution_id) {
            None => false,
            Some(i) => {
                proof {
                    lemma_state_map_at(self.execution_state@, i as int);
                }
                let mut state = self.execution_state[i].clone();
                state.cancelled = true;
                state.status = String::from_str("cancelling");
                self.replace_state(i, state);
                true
            },
        }
    }

    /// Whether someone asked to cancel the execution.
    pub fn is_cancelled(&self, execution_id: &str) -> (r: bool)
        requires
            self.wf(),
        ensures
            r == (self.executions().contains_key(execution_id@)
                && self.executions()[execution_id@].cancelled),
    {
        match self.find_execution(execution_id) {
            None => false,
            Some(i) => {
                proof {
                    lemma_state_map_at(self.execution_state@, i as int);
                }
                self.execution_state[i].cancelled
            },
        }
    }

    fn state_active_for(state: &ExecutionState, task_id: &str) -> (r: bool)
        ensures
            r == active_for(state@, task_id@),
    {
        text_eq(state.task_id.as_str(), task_id) && (text_eq(state.status.as_str(), "running")
            || text_eq(state.status.as_str(), "cancelling"))
    }

    /// The one active execution of the task; `None` where there is none or
    /// more than one, since the task id alone cannot then tell them apart.
    pub fn execution_for_task(&self, task_id: &str) -> (r: Option<String>)
        requires
            self.wf(),
        ensures
            opt_text(r) == sole_active(self.executions(), task_id@),
            match r {
                Some(id) => {
                    &&& self.executions().contains_key(id@)
                    &&& active_for(self.executions()[id@], task_id@)
                    &&& forall|k: Seq<char>|
                        #![trigger self.executions()[k]]
                        self.executions().contains_key(k) && active_for(self.executions()[k], task_id@)
                            ==> k == id@
                },
                None => {
                    ||| forall|k: Seq<char>|
                        #![trigger self.executions()[k]]
                        self.executions().contains_key(k) ==> !active_for(self.executions()[k], task_id@)
                    ||| exists|k1: Seq<char>, k2: Seq<char>|
                        #![trigger self.executions()[k1], self.executions()[k2]]
                        k1 != k2 && self.executions().contains_key(k1) && self.executions().contains_key(k2)
                            && active_for(self.executions()[k1], task_id@) && active_for(
                            self.executions()[k2],
                            task_id@,
                        )
                },
            },
    {
        let ghost s = self.execution_state@;
        let n = self.execution_state.len();
        let mut first: Option<usize> = None;
        let mut second: Option<usize> = None;
        let mut i: usize = 0;
        while i < n
            invariant
                n == s.len(),
                s == self.execution_state@,
                i <= n,
                first is None ==> second is None,
                first is None ==> forall|j: int| 0 <= j < i ==> !active_for((#[trigger] s[j])@, task_id@),
                first matches Some(f) ==> f < i && active_for(s[f as int]@, task_id@),
                (first is Some && second is None) ==> forall|j: int|
                    0 <= j < i && j != first->0 ==> !active_for((#[trigger] s[j])@, task_id@),
                second is Some ==> (first is Some && second->0 < i && second->0 != first->0
                    && active_for(s[second->0 as int]@, task_id@)),
            decreases n - i,
        {
            if Self::state_active_for(&self.execution_state[i], task_id) {
                if first.is_none() {
                    first = Some(i);
                } else if second.is_none() {
                    second = Some(i);
                }
            }
            i = i + 1;
        }
        let ghost m = self.executions();
        match (first, second) {
            (Some(f), None) => {
                proof {
                    lemma_state_map_at(s, f as int);
                    assert forall|k: Seq<char>|
                        #![trigger m[k]]
                        m.dom().contains(k) && active_for(m[k], task_id@) implies k == s[f as int].execution_id@ by {
                        let j = choose|j: int| 0 <= j < s.len() && (#[trigger] s[j]).execution_id@ == k;
                        lemma_state_map_at(s, j);
                    }
                    lemma_sole_active_is(m, task_id@, s[f as int].execution_id@);
                }
                Some(self.execution_state[f].execution_id.clone())
            },
            (Some(f), Some(g)) => {
                proof {
                    lemma_state_map_at(s, f as int);
                    lemma_state_map_at(s, g as int);
                    let k1 = s[f as int].execution_id@;
                    let k2 = s[g as int].execution_id@;
                    assert(k1 != k2);
                    assert(m.dom().contains(k1) && m.dom().contains(k2) && active_for(m[k1], task_id@)
                        && active_for(m[k2], task_id@));
                    lemma_sole_active_two(m, task_id@, k1, k2);
                }
                None
            },
            _ => {
                proof {
                    assert forall|k: Seq<char>|
                        #![trigger m[k]]
                        m.dom().contains(k) implies !active_for(m[k], task_id@) by {
                        let j = choose|j: int| 0 <= j < s.len() && (#[trigger] s[j]).execution_id@ == k;
                        lemma_state_map_at(s, j);
                    }
                }
                None
            },
        }
    }

    /// Records the process that carries out the execution.
    pub fn set_process_id(&mut self, execution_id: &str, pid: u32)
        requires
            old(self).wf(),
        ensures
            final(self).wf(),
            old(self).executions().contains_key(execution_id@) ==> final(self).executions()
                == old(self).executions().insert(
                execution_id@,
                ExecutionStateView { process_id: Some(pid), ..old(self).executions()[execution_id@] },
            ),
            !old(self).executions().contains_key(execution_id@) ==> final(self).executions()
                == old(self).executions(),
            final(self).journal_view() == old(self).journal_view(),
            final(self).serial() == old(self).serial(),
    {
        match self.find_execution(execution_id) {
            None => {},
            Some(i) => {
                proof {
                    lemma_state_map_at(self.execution_state@, i as int);
                }
                let mut state = self.execution_state[i].clone();
                state.process_id = Some(pid);
                self.replace_state(i, state);
            },
        }
    }

    /// The process recorded for the execution, if any.
    pub fn process_id(&self, execution_id: &str) -> (r: Option<u32>)
        requires
            self.wf(),
        ensures
            r == (if self.executions().contains_key(execution_id@) {
                self.executions()[execution_id@].process_id
            } else {
                None
            }),
    {
        match self.find_execution(execution_id) {
            None => None,
            Some(i) => {
                proof {
                    lemma_state_map_at(self.execution_state@, i as int);
                }
                self.execution_state[i].process_id
            },
        }
    }

    /// Whether any execution is still running or being cancelled.
    pub fn is_task_running(&self) -> (r: bool)
        requires
            self.wf(),
        ensures
            r == exists|k: Seq<char>|
                #![trigger self.executions()[k]]
                self.executions().contains_key(k) && is_active_status(self.executions()[k].status),
    {
        let ghost s = self.execution_state@;
        let ghost m = self.executions();
        let mut i: usize = 0;
        while i < self.execution_state.len()
            invariant
                s == self.execution_state@,
                m == state_map(s),
                ids_distinct(s),
                i <= s.len(),
                forall|j: int| 0 <= j < i ==> !is_active_status((#[trigger] s[j])@.status),
            decreases s.len() - i,
        {
            let st = &self.execution_state[i];
            if text_eq(st.status.as_str(), "running") || text_eq(st.status.as_str(), "cancelling") {
                proof {
                    lemma_state_map_at(s, i as int);
                    assert(m.dom().contains(s[i as int].execution_id@));
                }
                return true;
            }
            i = i + 1;
        }
        proof {
            assert forall|k: Seq<char>|
                #![trigger m[k]]
                m.dom().contains(k) implies !is_active_status(m[k].status) by {
                let j = choose|j: int| 0 <= j < s.len() && (#[trigger] s[j]).execution_id@ == k;
                lemma_state_map_at(s, j);
            }
        }
        false
    }

    /// Gives the execution its final status and returns its state.
    pub fn finish_execution(&mut self, execution_id: &str, status: &str) -> (r: Option<
        ExecutionState,
    >)
        requires
            old(self).wf(),
        ensures
            final(self).wf(),
            r is Some == old(self).executions().contains_key(execution_id@),
            final(self).executions() == executions_with_status(old(self).executions(), execution_id@, status@),
            r matches Some(st) ==> st@ == final(self).executions()[execution_id@],
            final(self).journal_view() == old(self).journal_view(),
            final(self).serial() == old(self).serial(),
    {
        match self.find_execution(execution_id) {
            None => None,
            Some(i) => {
                proof {
                    lemma_state_map_at(self.execution_state@, i as int);
                }
                let mut state = self.execution_state[i].clone();
                state.status = String::from_str(status);
                let copy = state.clone();
                self.replace_state(i, state);
                Some(copy)
            },
        }
    }

    /// Records a change in the journal. A reversible change awaits a
    /// possible rollback; another is marked irreversible.
    pub fn record_change(
        &mut self,
        execution_id: &str,
        task_id: &str,
        description: &str,
        reversible: bool,
        snapshot: Option<&str>,
        result: &str,
    ) -> (r: ChangeRecord)
        requires
            old(self).wf(),
        ensures
            final(self).wf(),
            exists|m: nat| r.id@ == change_id_text(m, old(self).serial() as nat),
            exists|m: nat| r.timestamp@ == unique_text(m, next_serial(old(self).serial()) as nat),
            r.execution_id@ == execution_id@,
            r.task_id@ == task_id@,
            r.description@ == description@,
            r@.backup_location == opt_str(snapshot),
            r.reversible == reversible,
            r.rollback_status == (if reversible {
                RollbackStatus::RollbackAvailable
            } else {
                RollbackStatus::Irreversible
            }),
            r.result@ == result@,
            final(self).journal_view() == old(self).journal_view().push(r@),
            final(self).executions() == old(self).executions(),
            final(self).serial() == next_serial(next_serial(old(self).serial())),
            !old(self).wrapped() ==> forall|i: int|
                0 <= i < old(self).journal_view().len() ==> (#[trigger] old(self).journal_view()[i]).id != r.id@,
    {
        let ghost s0 = self.serial();
        let unique = self.unique_id();
        let id = join2("change-", unique.as_str());
        let ghost m1 = choose|m: nat| unique@ == unique_text(m, s0 as nat);
        assert(id@ == change_id_text(m1, s0 as nat));
        let timestamp = self.iso_timestamp();
        let backup_location = match snapshot {
            Some(location) => Some(String::from_str(location)),
            None => None,
        };
        let change = ChangeRecord {
            id,
            execution_id: String::from_str(execution_id),
            timestamp,
            task_id: String::from_str(task_id),
            description: String::from_str(description),
            backup_location,
            reversible,
            rollback_status: if reversible {
                RollbackStatus::RollbackAvailable
            } else {
                RollbackStatus::Irreversible
            },
            result: String::from_str(result),
        };
        let copy = change.clone();
        self.changes.push(change);
        let ghost j0 = old(self).journal_view();
        assert(self.journal_view() =~= j0.push(copy@));
        proof {
            if !old(self).wrapped() {
                assert forall|i: int| 0 <= i < j0.len() implies (#[trigger] j0[i]).id != copy.id@ by {
                    if j0[i].id == copy.id@ {
                        assert(j0[i].id == change_id_text(m1, s0 as nat));
                    }
                }
            }
            if !self.wrapped() {
                let j1 = self.journal_view();
                assert forall|i: int, m: nat, n: nat|
                    0 <= i < j1.len() && #[trigger] j1[i].id == #[trigger] change_id_text(m, n) implies n
                    < self.next_serial by {
                    if i == j0.len() {
                        lemma_change_id_serial(m, n, m1, s0 as nat);
                    } else {
                        assert(j0[i] == j1[i]);
                    }
                }
            }
        }
        copy
    }

    /// A copy of the journal, oldest change first.
    pub fn journal(&self) -> (r: Vec<ChangeRecord>)
        ensures
            r@.map_values(|c: ChangeRecord| c@) == self.journal_view(),
    {
        let mut out: Vec<ChangeRecord> = Vec::new();
        let mut i: usize = 0;
        while i < self.changes.len()
            invariant
                i <= self.changes.len(),
                out@.len() == i,
                forall|k: int| 0 <= k < i ==> #[trigger] out@[k] == self.changes@[k],
            decreases self.changes.len() - i,
        {
            out.push(self.changes[i].clone());
            i = i + 1;
        }
        assert(out@.map_values(|c: ChangeRecord| c@) =~= self.journal_view());
        out
    }

    fn last_change_position(&self, change_id: &str) -> (r: Option<usize>)
        ensures
            match r {
                Some(i) => i < self.changes@.len() && i as int == last_change_index(
                    self.journal_view(),
                    change_id@,
                ),
                None => last_change_index(self.journal_view(), change_id@) == -1,
            },
    {
        let ghost s = self.journal_view();
        let mut i: usize = self.changes.len();
        while i > 0
            invariant
                i <= self.changes.len(),
                s == self.journal_view(),
                forall|j: int| i <= j < s.len() ==> (#[trigger] s[j]).id != change_id@,
            decreases i,
        {
            let k = i - 1;
            assert(s[k as int] == self.changes@[k as int]@);
            if text_eq(self.changes[k].id.as_str(), change_id) {
                proof {
                    lemma_last_change_index_is(s, change_id@, k as int);
                }
                return Some(k);
            }
            i = k;
        }
        proof {
            lemma_change_index_absent(s, change_id@);
        }
        None
    }

    fn first_change_position(&self, change_id: &str) -> (r: Option<usize>)
        ensures
            match r {
                Some(i) => i < self.changes@.len() && i as int == first_change_index(
                    self.journal_view(),
                    change_id@,
                ),
                None => first_change_index(self.journal_view(), change_id@) == -1,
            },
    {
        let ghost s = self.journal_view();
        let mut i: usize = 0;
        while i < self.changes.len()
            invariant
                i <= self.changes.len(),
                s == self.journal_view(),
                forall|j: int| 0 <= j < i ==> (#[trigger] s[j]).id != change_id@,
            decreases self.changes.len() - i,
        {
            assert(s[i as int] == self.changes@[i as int]@);
            if text_eq(self.changes[i].id.as_str(), change_id) {
                proof {
                    lemma_first_change_index_is(s, change_id@, i as int);
                }
                return Some(i);
            }
            i = i + 1;
        }
        proof {
            lemma_change_index_absent(s, change_id@);
        }
        None
    }

    fn set_change_status(&mut self, i: usize, status: RollbackStatus)
        requires
            i < old(self).changes@.len(),
        ensures
            final(self).journal_view() == old(self).journal_view().update(
                i as int,
                with_status(old(self).journal_view()[i as int], status),
            ),
            final(self).changes@.len() == old(self).changes@.len(),
            final(self).executions() == old(self).executions(),
            final(self).serial() == old(self).serial(),
            final(self).wrapped() == old(self).wrapped(),
            old(self).wf() ==> final(self).wf(),
    {
        let mut c = self.changes[i].clone();
        c.rollback_status = status;
        self.changes.set(i, c);
        assert(self.journal_view() =~= old(self).journal_view().update(
            i as int,
            with_status(old(self).journal_view()[i as int], status),
        ));
        proof {
            if old(self).wf() && !self.wrapped() {
                lemma_change_ids_kept(old(self).journal_view(), self.journal_view(), self.next_serial);
            }
        }
    }

    /// The rollback status of the first change with the id.
    pub fn rollback_status(&self, change_id: &str) -> (r: Option<RollbackStatus>)
        ensures
            r == first_status(self.journal_view(), change_id@),
    {
        match self.first_change_position(change_id) {
            Some(i) => Some(self.changes[i].rollback_status),
            None => None,
        }
    }

    /// Replaces the result of the first change with the id; does nothing
    /// where no change has it.
    pub fn update_change_result(&mut self, change_id: &str, result: &str)
        requires
            old(self).wf(),
        ensures
            final(self).wf(),
            final(self).journal_view() == journal_with_result(old(self).journal_view(), change_id@, result@),
            final(self).executions() == old(self).executions(),
            final(self).serial() == old(self).serial(),
    {
        match self.first_change_position(change_id) {
            Some(i) => {
                let mut c = self.changes[i].clone();
                c.result = String::from_str(result);
                self.changes.set(i, c);
                assert(self.journal_view() =~= old(self).journal_view().update(
                    i as int,
                    ChangeRecordView { result: result@, ..old(self).journal_view()[i as int] },
                ));
                proof {
                    if !self.wrapped() {
                        lemma_change_ids_kept(old(self).journal_view(), self.journal_view(), self.next_serial);
                    }
                }
            },
            None => {},
        }
    }

    /// The checks before a rollback. The last change with the id must exist,
    /// be reversible, not be rolled back already and have a snapshot; the
    /// change is then marked as rolling back and returned for restoring.
    /// A change without a snapshot is marked as failed.
    pub fn begin_rollback(&mut self, change_id: &str) -> (r: Result<RollbackTarget, String>)
        requires
            old(self).wf(),
        ensures
            final(self).wf(),
            final(self).journal_view() == rollback_begin(old(self).journal_view(), change_id@).0,
            match (r, rollback_begin(old(self).journal_view(), change_id@).1) {
                (Ok(t), Ok(i)) => {
                    &&& t.index as int == i
                    &&& i < final(self).journal_view().len()
                    &&& old(self).journal_view()[i].backup_location == Some(t.location@)
                    &&& t.task_id@ == old(self).journal_view()[i].task_id
                },
                (Err(e), Err(m)) => e@ == m,
                _ => false,
            },
            final(self).executions() == old(self).executions(),
            final(self).serial() == old(self).serial(),
    {
        let ghost s = self.journal_view();
        let i = match self.last_change_position(change_id) {
            Some(i) => i,
            None => {
                return Err(join2("Alteração não encontrada: ", change_id));
            },
        };
        assert(s[i as int] == self.changes@[i as int]@);
        if !self.changes[i].reversible {
            return Err(join2("Alteração irreversível: ", self.changes[i].description.as_str()));
        }
        if self.changes[i].rollback_status == RollbackStatus::RolledBack {
            return Err(String::from_str("Rollback já concluído."));
        }
        let location = match &self.changes[i].backup_location {
            Some(location) => location.clone(),
            None => {
                self.set_change_status(i, RollbackStatus::RollbackFailed);
                return Err(String::from_str("Rollback sem snapshot."));
            },
        };
        let task_id = self.changes[i].task_id.clone();
        self.set_change_status(i, RollbackStatus::RollingBack);
        Ok(RollbackTarget { index: i, location, task_id })
    }

    /// Settles a rollback once the snapshot's restore has ended: a restore
    /// that succeeded marks the change rolled back; a failed one marks it
    /// partial where the error says so, failed otherwise. The outcome is
    /// handed back unchanged.
    pub fn complete_rollback(&mut self, index: usize, outcome: Result<String, String>) -> (r: Result<
        String,
        String,
    >)
        requires
            old(self).wf(),
        ensures
            final(self).wf(),
            final(self).journal_view() == rollback_finish(
                old(self).journal_view(),
                index as int,
                text_result(outcome),
            ),
            r == outcome,
            final(self).executions() == old(self).executions(),
            final(self).serial() == old(self).serial(),
    {
        let status = match &outcome {
            Ok(_) => RollbackStatus::RolledBack,
            Err(e) => if contains(e.as_str(), "parcial") {
                RollbackStatus::RollbackPartial
            } else {
                RollbackStatus::RollbackFailed
            },
        };
        if index < self.changes.len() {
            self.set_change_status(index, status);
        }
        outcome
    }

    /// Rolls back the last change with the id: the checks of
    /// `begin_rollback`, the restore of its snapshot by `restore`, which is
    /// handed the snapshot's location and the change's task, and the
    /// settlement of `complete_rollback`.
    pub fn rollback_task<F>(&mut self, change_id: &str, restore: &F) -> (r: Result<String, String>) where
        F: Fn(String, String) -> Result<String, String>,

        requires
            old(self).wf(),
            forall|l: String, t: String| #[trigger] restore.requires((l, t)),
        ensures
            final(self).wf(),
            exists|o: Result<String, String>|
                #[trigger] restore_answer(restore, old(self).journal_view(), change_id@, o) && (
                final(self).journal_view(),
                text_result(r),
            ) == rollback_step(old(self).journal_view(), change_id@, text_result(o)),
            final(self).executions() == old(self).executions(),
            final(self).serial() == old(self).serial(),
    {
        proof {
            reveal(rollback_step);
        }
        let ghost s0 = self.journal_view();
        match self.begin_rollback(change_id) {
            Err(e) => {
                let r: Result<String, String> = Err(e);
                assert(restore_answer(restore, s0, change_id@, r));
                r
            },
            Ok(target) => {
                let ghost l = target.location;
                let ghost t = target.task_id;
                let outcome = restore(target.location, target.task_id);
                assert(restore.ensures((l, t), outcome));
                assert(restore_answer(restore, s0, change_id@, outcome));
                self.complete_rollback(target.index, outcome)
            },
        }
    }

    /// The ids of the changes of a session, newest first: those of the
    /// execution, or all where none is named.
    pub fn session_rollback_ids(&self, execution_id: Option<&str>) -> (r: Vec<String>)
        ensures
            texts_view(r@) == session_ids(self.journal_view(), opt_str(execution_id)),
    {
        let ghost s = self.journal_view();
        let ghost e = opt_str(execution_id);
        let mut ids: Vec<String> = Vec::new();
        let mut i: usize = self.changes.len();
        assert(s.take(s.len() as int) =~= s);
        assert(texts_view(ids@) =~= Seq::<Seq<char>>::empty());
        while i > 0
            invariant
                i <= self.changes.len(),
                s == self.journal_view(),
                e == opt_str(execution_id),
                session_ids(s, e) == texts_view(ids@) + session_ids(s.take(i as int), e),
            decreases i,
        {
            let k = i - 1;
            let c = &self.changes[k];
            assert(s[k as int] == c@);
            let ghost t = s.take(i as int);
            assert(t.drop_last() =~= s.take(k as int));
            assert(t.last() == s[k as int]);
            let belongs = match execution_id {
                Some(e) => text_eq(c.execution_id.as_str(), e),
                None => true,
            };
            if belongs {
                let ghost before = texts_view(ids@);
                ids.push(c.id.clone());
                assert(texts_view(ids@) =~= before.push(c.id@));
                assert(before.push(c.id@) + session_ids(s.take(k as int), e) =~= before + (seq![c.id@]
                    + session_ids(s.take(k as int), e)));
            }
            i = k;
        }
        assert(s.take(0) =~= Seq::<ChangeRecordView>::empty());
        assert(texts_view(ids@) + Seq::<Seq<char>>::empty() =~= texts_view(ids@));
        ids
    }

    /// Rolls back the changes with the ids from position `j` on, one after
    /// the other, stopping at the first that cannot be rolled back.
    fn rollback_from<F>(&mut self, ids: &Vec<String>, j: usize, restore: &F) -> (r: Result<Vec<String>, String>) where
        F: Fn(String, String) -> Result<String, String>,

        requires
            old(self).wf(),
            j <= ids.len(),
            forall|l: String, t: String| #[trigger] restore.requires((l, t)),
        ensures
            final(self).wf(),
            exists|outs: Seq<Result<String, String>>|
                #[trigger] session_answers(restore, old(self).journal_view(), texts_view(ids@).skip(j as int), outs)
                    && (final(self).journal_view(), texts_result(r)) == session_run(
                    old(self).journal_view(),
                    texts_view(ids@).skip(j as int),
                    outs,
                ),
            final(self).executions() == old(self).executions(),
            final(self).serial() == old(self).serial(),
        decreases ids.len() - j,
    {
        let ghost rest = texts_view(ids@).skip(j as int);
        let ghost s0 = self.journal_view();
        if j == ids.len() {
            let r: Vec<String> = Vec::new();
            proof {
                let outs = Seq::<Result<String, String>>::empty();
                assert(rest.len() == 0);
                assert(texts_view(r@) =~= Seq::<Seq<char>>::empty());
                assert(session_answers(restore, s0, rest, outs));
            }
            return Ok(r);
        }
        assert(rest[0] == ids@[j as int]@);
        assert(rest.drop_first() =~= texts_view(ids@).skip(j + 1));
        let first = self.rollback_task(ids[j].as_str(), restore);
        let ghost o = choose|o: Result<String, String>|
            #[trigger] restore_answer(restore, s0, rest[0], o) && (self.journal_view(), text_result(first))
                == rollback_step(s0, rest[0], text_result(o));
        let ghost s1 = self.journal_view();
        match first {
            Err(e) => {
                proof {
                    let outs = seq![o];
                    assert(session_answers(restore, s0, rest, outs));
                    assert(session_run(s0, rest, outs) == (s1, Err::<Seq<Seq<char>>, Seq<char>>(e@)));
                }
                Err(e)
            },
            Ok(m) => {
                let tail = self.rollback_from(ids, j + 1, restore);
                let ghost tail_outs = choose|outs: Seq<Result<String, String>>|
                    #[trigger] session_answers(restore, s1, rest.drop_first(), outs) && (
                        self.journal_view(),
                        texts_result(tail),
                    ) == session_run(s1, rest.drop_first(), outs);
                let ghost outs = seq![o] + tail_outs;
                assert(outs.drop_first() =~= tail_outs);
                assert(outs[0] == o);
                assert(session_answers(restore, s0, rest, outs));
                match tail {
                    Err(e) => {
                        assert(session_run(s0, rest, outs).1 == texts_result(Err::<Vec<String>, String>(e)));
                        Err(e)
                    },
                    Ok(more) => {
                        let mut out: Vec<String> = Vec::new();
                        out.push(m);
                        let mut more = more;
                        let ghost mv = texts_view(more@);
                        out.append(&mut more);
                        assert(texts_view(out@) =~= seq![texts_view(out@)[0]] + mv);
                        Ok(out)
                    },
                }
            },
        }
    }

    /// Rolls back a session's changes newest first, each snapshot restored
    /// by `restore`, stopping at the first that cannot be rolled back, whose
    /// reason is then the answer.
    pub fn rollback_session<F>(&mut self, execution_id: Option<&str>, restore: &F) -> (r: Result<
        Vec<String>,
        String,
    >) where F: Fn(String, String) -> Result<String, String>,

        requires
            old(self).wf(),
            forall|l: String, t: String| #[trigger] restore.requires((l, t)),
        ensures
            final(self).wf(),
            exists|outs: Seq<Result<String, String>>|
                #[trigger] session_answers(
                    restore,
                    old(self).journal_view(),
                    session_ids(old(self).journal_view(), opt_str(execution_id)),
                    outs,
                ) && (final(self).journal_view(), texts_result(r)) == session_run(
                    old(self).journal_view(),
                    session_ids(old(self).journal_view(), opt_str(execution_id)),
                    outs,
                ),
            final(self).executions() == old(self).executions(),
            final(self).serial() == old(self).serial(),
    {
        let ids = self.session_rollback_ids(execution_id);
        assert(texts_view(ids@).skip(0) =~= texts_view(ids@));
        self.rollback_from(&ids, 0, restore)
    }
}

} // verus!
