//! Properties of the library as a whole, proved over the specifications
//! that its functions' contracts use.

use vstd::prelude::*;
use crate::engine::{cancel_target, failure_label, first_stage, plan_for, prepare_stage, CommandView, RunActionView};
use crate::safety::{
    active_for, change_id_text, executions_cancelled, execution_id_text, last_change_index,
    lemma_change_id_serial, lemma_execution_id_serial, next_serial, rollback_begin, rollback_finish,
    restore_answer, rollback_step, session_answers, session_ids, session_run, status_after_restore,
    text_result, with_status, ChangeRecordView, ExecutionStateView, RollbackStatus, SafetyManager,
};
use crate::snapshot::{snapshot_script_of, strategy_of};
use crate::task_registry::{catalog, in_preset, TaskCategory, TaskRisk, TaskView};
use crate::text::text_contains;

verus! {

/// A change that is reversible, not rolled back yet, but has no snapshot
/// cannot be rolled back, whatever a restore would answer: the answer is the
/// refusal, and the change is marked as failed.
pub proof fn law_rollback_without_snapshot_fails(
    s: Seq<ChangeRecordView>,
    id: Seq<char>,
    outcome: Result<Seq<char>, Seq<char>>,
)
    requires
        last_change_index(s, id) >= 0,
        s[last_change_index(s, id)].reversible,
        s[last_change_index(s, id)].rollback_status != RollbackStatus::RolledBack,
        s[last_change_index(s, id)].backup_location is None,
    ensures
        rollback_step(s, id, outcome) == (
            s.update(
                last_change_index(s, id),
                with_status(s[last_change_index(s, id)], RollbackStatus::RollbackFailed),
            ),
            Err::<Seq<char>, Seq<char>>("Rollback sem snapshot."@),
        ),
{
    reveal(rollback_step);
}

/// A change that has been rolled back cannot be rolled back again, and the
/// journal stays as it is.
pub proof fn law_repeated_rollback_is_rejected(
    s: Seq<ChangeRecordView>,
    id: Seq<char>,
    outcome: Result<Seq<char>, Seq<char>>,
)
    requires
        last_change_index(s, id) >= 0,
        s[last_change_index(s, id)].reversible,
        s[last_change_index(s, id)].rollback_status == RollbackStatus::RolledBack,
    ensures
        rollback_step(s, id, outcome) == (s, Err::<Seq<char>, Seq<char>>("Rollback já concluído."@)),
{
    reveal(rollback_step);
}

/// An irreversible change is never rolled back, and the journal stays as it is.
pub proof fn law_irreversible_change_is_refused(
    s: Seq<ChangeRecordView>,
    id: Seq<char>,
    outcome: Result<Seq<char>, Seq<char>>,
)
    requires
        last_change_index(s, id) >= 0,
        !s[last_change_index(s, id)].reversible,
    ensures
        rollback_step(s, id, outcome) == (
            s,
            Err::<Seq<char>, Seq<char>>("Alteração irreversível: "@ + s[last_change_index(s, id)].description),
        ),
{
    reveal(rollback_step);
}

/// A change that the journal does not hold is refused, and the journal
/// stays as it is.
pub proof fn law_unknown_change_is_refused(
    s: Seq<ChangeRecordView>,
    id: Seq<char>,
    outcome: Result<Seq<char>, Seq<char>>,
)
    requires
        forall|k: int| 0 <= k < s.len() ==> (#[trigger] s[k]).id != id,
    ensures
        rollback_step(s, id, outcome) == (s, Err::<Seq<char>, Seq<char>>("Alteração não encontrada: "@ + id)),
{
    reveal(rollback_step);
}

/// A rollback changes at most the rollback status of the change it targets:
/// every other change, and every other field, stays as it was.
pub proof fn law_rollback_touches_only_the_target_status(
    s: Seq<ChangeRecordView>,
    id: Seq<char>,
    outcome: Result<Seq<char>, Seq<char>>,
)
    ensures
        rollback_step(s, id, outcome).0.len() == s.len(),
        forall|k: int|
            0 <= k < s.len() && k != last_change_index(s, id) ==> #[trigger] rollback_step(s, id, outcome).0[k] == s[k],
        last_change_index(s, id) >= 0 ==> rollback_step(s, id, outcome).0[last_change_index(s, id)] == with_status(
            s[last_change_index(s, id)],
            rollback_step(s, id, outcome).0[last_change_index(s, id)].rollback_status,
        ),
{
    reveal(rollback_step);
    crate::safety::lemma_last_change_index_range(s, id);
}

/// A change is marked rolled back exactly when the restore of its snapshot
/// succeeded; a failed restore is partial where its error says so, failed
/// otherwise.
pub proof fn law_rolled_back_only_after_successful_restore(
    s: Seq<ChangeRecordView>,
    i: int,
    outcome: Result<Seq<char>, Seq<char>>,
)
    requires
        0 <= i < s.len(),
    ensures
        (rollback_finish(s, i, outcome)[i].rollback_status == RollbackStatus::RolledBack) <==> outcome is Ok,
        outcome matches Err(e) ==> rollback_finish(s, i, outcome)[i].rollback_status == (if text_contains(
            e,
            "parcial"@,
        ) {
            RollbackStatus::RollbackPartial
        } else {
            RollbackStatus::RollbackFailed
        }),
{
}

/// A whole-session rollback visits every change, newest first.
pub proof fn law_session_is_newest_first(s: Seq<ChangeRecordView>)
    ensures
        session_ids(s, None) == s.map_values(|c: ChangeRecordView| c.id).reverse(),
    decreases s.len(),
{
    if s.len() > 0 {
        law_session_is_newest_first(s.drop_last());
        let f = |c: ChangeRecordView| c.id;
        assert(s.map_values(f).reverse() =~= seq![s.last().id] + s.drop_last().map_values(f).reverse());
    }
}

/// Execution ids carry their serial number: two ids are equal only where
/// their serial numbers are.
pub proof fn law_execution_ids_determine_serial(m1: nat, s1: nat, m2: nat, s2: nat)
    requires
        execution_id_text(m1, s1) == execution_id_text(m2, s2),
    ensures
        s1 == s2,
{
    lemma_execution_id_serial(m1, s1, m2, s2);
}

/// Until the serial counter wraps around, the id that the next execution
/// will get, whatever the clock reads, is the id of no execution in the table.
pub proof fn law_next_execution_id_is_fresh(manager: SafetyManager, millis: nat)
    requires
        manager.wf(),
        !manager.wrapped(),
    ensures
        !manager.executions().contains_key(execution_id_text(millis, manager.serial() as nat)),
{
}

/// Until the serial counter wraps around, the id that the next change will
/// get, whatever the clock reads, is the id of no change in the journal.
pub proof fn law_next_change_id_is_fresh(manager: SafetyManager, millis: nat)
    requires
        manager.wf(),
        !manager.wrapped(),
    ensures
        forall|i: int|
            0 <= i < manager.journal_view().len() ==> (#[trigger] manager.journal_view()[i]).id != change_id_text(
                millis,
                manager.serial() as nat,
            ),
{
}

/// Two executions registered one after the other get different ids,
/// whatever the clock reads.
pub proof fn law_consecutive_executions_differ(serial: u64, m1: nat, m2: nat)
    ensures
        execution_id_text(m1, serial as nat) != execution_id_text(
            m2,
            next_serial(next_serial(serial)) as nat,
        ),
{
    if execution_id_text(m1, serial as nat) == execution_id_text(m2, next_serial(next_serial(serial)) as nat) {
        law_execution_ids_determine_serial(m1, serial as nat, m2, next_serial(next_serial(serial)) as nat);
    }
}

/// Change ids carry their serial number: two ids are equal only where their
/// serial numbers are, so two changes recorded one after the other differ.
pub proof fn law_change_ids_determine_serial(m1: nat, s1: nat, m2: nat, s2: nat)
    requires
        change_id_text(m1, s1) == change_id_text(m2, s2),
    ensures
        s1 == s2,
{
    lemma_change_id_serial(m1, s1, m2, s2);
}

/// Once a rollback of a change has restored its snapshot, a second rollback
/// of it is refused and leaves the journal as it is.
pub proof fn law_restored_change_is_not_rolled_back_twice(
    s: Seq<ChangeRecordView>,
    id: Seq<char>,
    first: Result<Seq<char>, Seq<char>>,
    second: Result<Seq<char>, Seq<char>>,
)
    requires
        rollback_begin(s, id).1 is Ok,
        first is Ok,
    ensures
        rollback_step(rollback_step(s, id, first).0, id, second) == (
            rollback_step(s, id, first).0,
            Err::<Seq<char>, Seq<char>>("Rollback já concluído."@),
        ),
{
    reveal(rollback_step);
    let i = last_change_index(s, id);
    let s2 = rollback_step(s, id, first).0;
    crate::safety::lemma_last_change_index_range(s, id);
    assert(s2.len() == s.len());
    assert forall|k: int| 0 <= k < s.len() implies (#[trigger] s2[k]).id == s[k].id by {}
    crate::safety::lemma_last_change_index_same_ids(s, s2, id);
}

/// Cancelling one execution leaves every other execution as it was.
pub proof fn law_cancellation_is_per_execution(
    m: Map<Seq<char>, ExecutionStateView>,
    cancelled: Seq<char>,
    other: Seq<char>,
)
    requires
        cancelled != other,
    ensures
        executions_cancelled(m, cancelled).contains_key(other) == m.contains_key(other),
        m.contains_key(other) ==> executions_cancelled(m, cancelled)[other] == m[other],
{
}

/// A cancel request without an execution id is refused while the task has
/// two active executions: the task id alone cannot tell them apart.
pub proof fn law_ambiguous_cancel_is_refused(
    m: Map<Seq<char>, ExecutionStateView>,
    task_id: Seq<char>,
    k1: Seq<char>,
    k2: Seq<char>,
)
    requires
        k1 != k2,
        m.contains_key(k1),
        m.contains_key(k2),
        active_for(m[k1], task_id),
        active_for(m[k2], task_id),
    ensures
        cancel_target(m, task_id, None) is None,
{
    crate::safety::lemma_sole_active_two(m, task_id, k1, k2);
}

/// A reversible task is snapshotted before anything else happens.
pub proof fn law_reversible_task_snapshots_first(t: TaskView)
    requires
        t.reversible,
    ensures
        first_stage(t).1.action == RunActionView::CaptureSnapshot,
{
}

/// A task that is not Safe never runs before a restore point has been asked for.
pub proof fn law_risky_task_asks_restore_point_first(t: TaskView)
    requires
        t.risk != TaskRisk::Safe,
    ensures
        prepare_stage(t).1.action is CreateRestorePoint,
{
}

/// No two tasks of the catalogue share an id, so looking a task up by its
/// id can only find that task.
pub proof fn law_catalog_ids_are_distinct()
    ensures
        forall|i: int, j: int|
            0 <= i < catalog().len() && 0 <= j < catalog().len() && i != j ==> (#[trigger] catalog()[i]).id
                != (#[trigger] catalog()[j]).id,
{
    let c = catalog();
    reveal_strlit("limpeza_leve");
    reveal_strlit("limpeza_media");
    reveal_strlit("limpeza_pesada");
    reveal_strlit("desengordurar_telemetria");
    reveal_strlit("desengordurar_tarefas");
    reveal_strlit("diagnostico_dism_scan");
    reveal_strlit("diagnostico_dism_restore");
    reveal_strlit("diagnostico_sfc");
    reveal_strlit("diagnostico_informacoes");
    reveal_strlit("desengordurar_telemetria_avancada");
    reveal_strlit("limpeza_windows_update");
    assert(c[0].id.len() == 12);
    assert(c[1].id.len() == 13);
    assert(c[2].id.len() == 14);
    assert(c[3].id.len() == 24);
    assert(c[4].id.len() == 21);
    assert(c[5].id.len() == 21);
    assert(c[6].id.len() == 24);
    assert(c[7].id.len() == 15);
    assert(c[8].id.len() == 23);
    assert(c[9].id.len() == 33);
    assert(c[10].id.len() == 22);
    assert(c[3].id[1] != c[6].id[1]);
    assert(c[4].id[1] != c[5].id[1]);
}

/// The Express preset holds only Safe tasks.
pub proof fn law_express_is_safe_only()
    ensures
        forall|i: int|
            0 <= i < in_preset(catalog(), "express"@).len() ==> (#[trigger] in_preset(catalog(), "express"@)[i]).risk
                == TaskRisk::Safe,
{
    reveal_strlit("express");
    reveal_strlit("normal");
    reveal_strlit("turbo");
    let c = catalog();
    let p = "express"@;
    assert(p.len() == 7);
    assert("normal"@.len() == 6);
    assert("turbo"@.len() == 5);
    crate::task_registry::lemma_in_preset_members(c, p);
    assert forall|i: int|
        0 <= i < in_preset(c, p).len() implies (#[trigger] in_preset(c, p)[i]).risk == TaskRisk::Safe by {
        let t = in_preset(c, p)[i];
        assert(c.contains(t) && t.presets.contains(p));
        let k = choose|k: int| 0 <= k < c.len() && c[k] == t;
        if t.risk != TaskRisk::Safe {
            let j = choose|j: int| 0 <= j < t.presets.len() && t.presets[j] == p;
            assert(c[k].presets[j].len() != 7);
        }
    }
}

/// A task's presets are nested: one in Express is in Normal too, and one in
/// Normal is in Turbo too.
pub open spec fn presets_nested(p: Seq<Seq<char>>) -> bool {
    &&& p.contains("express"@) ==> p.contains("normal"@)
    &&& p.contains("normal"@) ==> p.contains("turbo"@)
}

proof fn lemma_preset_forms_nested(p: Seq<Seq<char>>)
    requires
        p == seq!["express"@, "normal"@, "turbo"@] || p == seq!["normal"@, "turbo"@] || p == seq!["turbo"@],
    ensures
        presets_nested(p),
{
    reveal_strlit("express");
    reveal_strlit("normal");
    reveal_strlit("turbo");
    assert("express"@.len() == 7);
    assert("normal"@.len() == 6);
    assert("turbo"@.len() == 5);
    if p == seq!["express"@, "normal"@, "turbo"@] {
        assert(p[1] == "normal"@);
        assert(p[2] == "turbo"@);
    } else if p == seq!["normal"@, "turbo"@] {
        assert(p[1] == "turbo"@);
        if p.contains("express"@) {
            let j = choose|j: int| 0 <= j < p.len() && p[j] == "express"@;
            assert(p[j].len() != 7);
        }
    } else {
        if p.contains("express"@) {
            let j = choose|j: int| 0 <= j < p.len() && p[j] == "express"@;
            assert(p[j].len() != 7);
        }
        if p.contains("normal"@) {
            let j = choose|j: int| 0 <= j < p.len() && p[j] == "normal"@;
            assert(p[j].len() != 6);
        }
        assert(p[0] == "turbo"@);
    }
}

/// The presets are nested: every task of Express belongs to Normal, and
/// every task of Normal belongs to Turbo.
pub proof fn law_presets_are_nested()
    ensures
        forall|i: int| 0 <= i < catalog().len() ==> presets_nested(#[trigger] catalog()[i].presets),
{
    let c = catalog();
    assert forall|i: int| 0 <= i < c.len() implies presets_nested(#[trigger] c[i].presets) by {
        assert(c[i].presets == seq!["express"@, "normal"@, "turbo"@] || c[i].presets == seq!["normal"@, "turbo"@]
            || c[i].presets == seq!["turbo"@]);
        lemma_preset_forms_nested(c[i].presets);
    }
}

/// A task of the catalogue is reversible exactly when it is a debloat task,
/// and every task that can be snapshotted is reversible.
pub proof fn law_reversible_tasks_are_debloat()
    ensures
        forall|i: int|
            0 <= i < catalog().len() ==> ((#[trigger] catalog()[i]).reversible <==> catalog()[i].category
                == TaskCategory::Debloat),
        forall|i: int| 0 <= i < catalog().len() && (#[trigger] strategy_of(catalog()[i].id)) is Some ==> catalog()[i].reversible,
{
    let c = catalog();
    reveal_strlit("desengordurar_telemetria");
    reveal_strlit("desengordurar_tarefas");
    assert forall|i: int| 0 <= i < c.len() && (#[trigger] strategy_of(c[i].id)) is Some implies c[i].reversible by {
        if !c[i].reversible {
            assert(c[i].id != "desengordurar_telemetria"@ && c[i].id != "desengordurar_tarefas"@) by {
                reveal_strlit("limpeza_leve");
                reveal_strlit("limpeza_media");
                reveal_strlit("limpeza_pesada");
                reveal_strlit("diagnostico_dism_scan");
                reveal_strlit("diagnostico_dism_restore");
                reveal_strlit("diagnostico_sfc");
                reveal_strlit("diagnostico_informacoes");
                reveal_strlit("limpeza_windows_update");
                assert(c[i].id[0] != 'd' || c[i].id[2] != 's');
            }
        }
    }
}

/// Every dependency of a task names a task declared before it in the
/// catalogue, so no task depends, directly or not, on itself.
pub proof fn law_dependencies_come_first()
    ensures
        forall|i: int, k: int|
            0 <= i < catalog().len() && 0 <= k < catalog()[i].dependencies.len() ==> exists|j: int|
                0 <= j < i && (#[trigger] catalog()[j]).id == #[trigger] catalog()[i].dependencies[k],
{
    let c = catalog();
    assert forall|i: int, k: int| 0 <= i < c.len() && 0 <= k < c[i].dependencies.len() implies exists|j: int|
        0 <= j < i && (#[trigger] c[j]).id == #[trigger] c[i].dependencies[k] by {
        if i == 1 {
            assert(c[0].id == c[i].dependencies[k]);
        } else if i == 2 {
            assert(c[1].id == c[i].dependencies[k]);
        } else if i == 6 {
            assert(c[5].id == c[i].dependencies[k]);
        } else if i == 9 {
            assert(c[3].id == c[i].dependencies[k]);
        } else {
            assert(c[i].dependencies.len() == 0);
        }
    }
}

/// No two tasks of the list share an id.
pub open spec fn ids_unique(s: Seq<TaskView>) -> bool {
    forall|i: int, j: int| 0 <= i < s.len() && 0 <= j < s.len() && i != j ==> (#[trigger] s[i]).id != (#[trigger] s[j]).id
}

proof fn lemma_in_preset_complete(s: Seq<TaskView>, p: Seq<char>)
    ensures
        forall|k: int| 0 <= k < s.len() && (#[trigger] s[k]).presets.contains(p) ==> in_preset(s, p).contains(s[k]),
    decreases s.len(),
{
    if s.len() > 0 {
        let q = s.drop_last();
        lemma_in_preset_complete(q, p);
        assert forall|k: int| 0 <= k < s.len() && (#[trigger] s[k]).presets.contains(p) implies in_preset(s, p).contains(
            s[k],
        ) by {
            let r = in_preset(s, p);
            if k == s.len() - 1 {
                assert(r.last() == s[k]);
            } else {
                assert(q[k] == s[k]);
                let m = choose|m: int| 0 <= m < in_preset(q, p).len() && in_preset(q, p)[m] == q[k];
                if s.last().presets.contains(p) {
                    assert(r[m] == in_preset(q, p)[m]);
                }
            }
        }
    }
}

proof fn lemma_in_preset_unique(s: Seq<TaskView>, p: Seq<char>)
    requires
        ids_unique(s),
    ensures
        ids_unique(in_preset(s, p)),
    decreases s.len(),
{
    if s.len() > 0 {
        let q = s.drop_last();
        assert(ids_unique(q)) by {
            assert forall|i: int, j: int| 0 <= i < q.len() && 0 <= j < q.len() && i != j implies (#[trigger] q[i]).id
                != (#[trigger] q[j]).id by {
                assert(q[i] == s[i] && q[j] == s[j]);
            }
        }
        lemma_in_preset_unique(q, p);
        crate::task_registry::lemma_in_preset_members(q, p);
        let a = in_preset(q, p);
        if s.last().presets.contains(p) {
            let r = a.push(s.last());
            assert forall|i: int, j: int| 0 <= i < r.len() && 0 <= j < r.len() && i != j implies (#[trigger] r[i]).id
                != (#[trigger] r[j]).id by {
                if i == a.len() || j == a.len() {
                    let o = if i == a.len() { j } else { i };
                    assert(q.contains(a[o]));
                    let m = choose|m: int| 0 <= m < q.len() && q[m] == a[o];
                    assert(s[m] == a[o]);
                    assert(s[s.len() - 1] == s.last());
                } else {
                    assert(r[i] == a[i] && r[j] == a[j]);
                }
            }
        }
    }
}

/// A preset holds exactly the catalogue's tasks that name it, each once.
pub proof fn law_preset_holds_exactly_its_tasks(p: Seq<char>)
    ensures
        forall|t: TaskView| #[trigger] in_preset(catalog(), p).contains(t) <==> (catalog().contains(t) && t.presets.contains(p)),
        ids_unique(in_preset(catalog(), p)),
{
    let c = catalog();
    crate::task_registry::lemma_in_preset_members(c, p);
    lemma_in_preset_complete(c, p);
    assert forall|t: TaskView| #[trigger] in_preset(c, p).contains(t) <==> (c.contains(t) && t.presets.contains(p)) by {
        if in_preset(c, p).contains(t) {
            let m = choose|m: int| 0 <= m < in_preset(c, p).len() && in_preset(c, p)[m] == t;
            assert(c.contains(in_preset(c, p)[m]));
        }
        if c.contains(t) && t.presets.contains(p) {
            let k = choose|k: int| 0 <= k < c.len() && c[k] == t;
            assert(c[k].presets.contains(p));
        }
    }
    law_catalog_ids_are_distinct();
    lemma_in_preset_unique(c, p);
}

/// The DISM Restore task repairs the Windows image: it runs exactly one
/// command, DISM on the running image with `/RestoreHealth`.
pub proof fn law_dism_restore_task_repairs_the_image()
    ensures
        plan_for("diagnostico_dism_restore"@) == Some(
            seq![CommandView { program: "dism"@, args: seq!["/Online"@, "/Cleanup-Image"@, "/RestoreHealth"@] }],
        ),
{
    reveal_strlit("diagnostico_dism_restore");
    reveal_strlit("limpeza_leve");
    reveal_strlit("limpeza_media");
    reveal_strlit("limpeza_pesada");
    reveal_strlit("desengordurar_telemetria");
    reveal_strlit("desengordurar_tarefas");
    reveal_strlit("diagnostico_dism_scan");
    reveal_strlit("diagnostico_sfc");
    reveal_strlit("diagnostico_informacoes");
    reveal_strlit("desengordurar_telemetria_avancada");
    reveal_strlit("limpeza_windows_update");
    let id = "diagnostico_dism_restore"@;
    assert(id.len() == 24);
    assert(id != "desengordurar_telemetria"@) by {
        assert(id[1] != "desengordurar_telemetria"@[1]);
    }
    assert(id != "diagnostico_dism_scan"@);
    let p = plan_for(id);
    assert(p is Some);
    assert(p->0 =~= seq![CommandView { program: "dism"@, args: seq!["/Online"@, "/Cleanup-Image"@, "/RestoreHealth"@] }]);
}

/// Once the rollback of one change of a session fails, the session stops
/// there: the journal is as that failed rollback left it, the answer is its
/// error, and no restore is asked of the restorer for any later change.
pub proof fn law_session_stops_at_first_failure<F: Fn(String, String) -> Result<String, String>>(
    restore: &F,
    s: Seq<ChangeRecordView>,
    ids: Seq<Seq<char>>,
    outcomes: Seq<Result<String, String>>,
)
    requires
        ids.len() > 0,
        rollback_step(s, ids[0], text_result(outcomes[0])).1 is Err,
    ensures
        session_run(s, ids, outcomes).0 == rollback_step(s, ids[0], text_result(outcomes[0])).0,
        session_run(s, ids, outcomes).1 == Err::<Seq<Seq<char>>, Seq<char>>(
            rollback_step(s, ids[0], text_result(outcomes[0])).1->Err_0,
        ),
        session_answers(restore, s, ids, outcomes) <==> (outcomes.len() > 0 && restore_answer(
            restore,
            s,
            ids[0],
            outcomes[0],
        )),
{
}

/// A session rollback that fails does no more than the changes up to the
/// one that failed: running the session over the ids up to that change
/// gives the same journal and answer, and asks the same of the restorer.
pub proof fn law_failed_session_ends_at_its_failure<F: Fn(String, String) -> Result<String, String>>(
    restore: &F,
    s: Seq<ChangeRecordView>,
    ids: Seq<Seq<char>>,
    outcomes: Seq<Result<String, String>>,
)
    requires
        session_run(s, ids, outcomes).1 is Err,
    ensures
        exists|k: int|
            0 <= k < ids.len() && #[trigger] session_run(s, ids.take(k + 1), outcomes) == session_run(s, ids, outcomes)
                && (session_answers(restore, s, ids.take(k + 1), outcomes) <==> session_answers(
                restore,
                s,
                ids,
                outcomes,
            )),
    decreases ids.len(),
{
    assert(ids.len() > 0);
    let step0 = rollback_step(s, ids[0], text_result(outcomes[0]));
    if step0.1 is Err {
        let k: int = 0;
        let t1 = ids.take(k + 1);
        assert(t1[0] == ids[0]);
        assert(t1.drop_first().len() == 0);
        assert(session_run(s, t1, outcomes) == session_run(s, ids, outcomes));
        assert(session_answers(restore, s, t1, outcomes) <==> session_answers(restore, s, ids, outcomes));
    } else {
        let rest = ids.drop_first();
        law_failed_session_ends_at_its_failure(restore, step0.0, rest, outcomes.drop_first());
        let k1 = choose|k: int|
            0 <= k < rest.len() && #[trigger] session_run(step0.0, rest.take(k + 1), outcomes.drop_first())
                == session_run(step0.0, rest, outcomes.drop_first()) && (session_answers(
                restore,
                step0.0,
                rest.take(k + 1),
                outcomes.drop_first(),
            ) <==> session_answers(restore, step0.0, rest, outcomes.drop_first()));
        let k = k1 + 1;
        let t = ids.take(k + 1);
        assert(t.drop_first() =~= rest.take(k1 + 1));
        assert(t[0] == ids[0]);
        assert(session_run(s, t, outcomes) == session_run(s, ids, outcomes));
        assert(session_answers(restore, s, t, outcomes) <==> session_answers(restore, s, ids, outcomes));
    }
}

/// A change that is the last with its id, reversible, has a snapshot and has
/// not been rolled back is always handed on to be restored, whatever its
/// earlier rollback status: a failed or partial rollback can be retried.
pub proof fn law_restorable_change_is_handed_to_restore(s: Seq<ChangeRecordView>, id: Seq<char>)
    requires
        last_change_index(s, id) >= 0,
        s[last_change_index(s, id)].reversible,
        s[last_change_index(s, id)].backup_location is Some,
        s[last_change_index(s, id)].rollback_status != RollbackStatus::RolledBack,
    ensures
        rollback_begin(s, id).1 == Ok::<int, Seq<char>>(last_change_index(s, id)),
{
}

/// After a rollback whose restore failed, a second rollback of the same
/// change goes to the restorer again, and its answer is the restorer's.
pub proof fn law_failed_restore_can_be_retried(
    s: Seq<ChangeRecordView>,
    id: Seq<char>,
    error: Seq<char>,
    second: Result<Seq<char>, Seq<char>>,
)
    requires
        rollback_begin(s, id).1 is Ok,
    ensures
        rollback_begin(rollback_step(s, id, Err(error)).0, id).1 is Ok,
        rollback_step(rollback_step(s, id, Err(error)).0, id, second).1 == second,
{
    reveal(rollback_step);
    let s2 = rollback_step(s, id, Err(error)).0;
    crate::safety::lemma_last_change_index_range(s, id);
    assert forall|k: int| 0 <= k < s.len() implies (#[trigger] s2[k]).id == s[k].id by {}
    crate::safety::lemma_last_change_index_same_ids(s, s2, id);
}

/// A failed task whose rollback failed is labelled as partial exactly when
/// the restore's error says the rollback was partial; otherwise as an error.
/// The partial label is given for a partial rollback and nothing else.
pub proof fn law_failed_rollback_label(error: Seq<char>, status: Option<RollbackStatus>)
    ensures
        failure_label(Some(status_after_restore(Err(error)))) == (if text_contains(error, "parcial"@) {
            "failed_rollback_partial"@
        } else {
            "failed_rollback_error"@
        }),
        failure_label(status) == "failed_rollback_partial"@ ==> status == Some(RollbackStatus::RollbackPartial),
        failure_label(status) == "failed_rollback_partial"@ || failure_label(status) == "failed_rollback_error"@,
{
    reveal_strlit("failed_rollback_partial");
    reveal_strlit("failed_rollback_error");
    assert("failed_rollback_partial"@ != "failed_rollback_error"@) by {
        assert("failed_rollback_partial"@.len() != "failed_rollback_error"@.len());
    }
}

/// The snapshot script of every task that can be snapshotted labels what it
/// captures with that task's strategy, so a captured snapshot passes the
/// strategy check.
pub proof fn law_snapshot_script_declares_its_strategy(task_id: Seq<char>)
    ensures
        strategy_of(task_id) matches Some(st) ==> text_contains(snapshot_script_of(st), "strategy='"@ + st + "'"@),
{
    reveal_strlit("telemetry");
    reveal_strlit("diagnostic_tasks");
    reveal_strlit("strategy='");
    reveal_strlit("'");
    reveal_strlit("strategy='telemetry'");
    reveal_strlit("strategy='diagnostic_tasks'");
    assert("telemetry"@ != "diagnostic_tasks"@) by {
        assert("telemetry"@.len() != "diagnostic_tasks"@.len());
    }
    crate::scripts::lemma_telemetry_snapshot_declares_strategy();
    crate::scripts::lemma_diagnostic_tasks_snapshot_declares_strategy();
    assert("strategy='"@ + "telemetry"@ + "'"@ =~= "strategy='telemetry'"@);
    assert("strategy='"@ + "diagnostic_tasks"@ + "'"@ =~= "strategy='diagnostic_tasks'"@);
    assert(text_contains(snapshot_script_of("telemetry"@), "strategy='telemetry'"@));
    assert(text_contains(snapshot_script_of("diagnostic_tasks"@), "strategy='diagnostic_tasks'"@));
}

} // verus!
