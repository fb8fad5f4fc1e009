use qboa_digital::safety::{restore_snapshot, ChangeRecord, RollbackStatus, SafetyManager};
use qboa_digital::snapshot::known_strategy;

#[derive(Clone, Debug, PartialEq, Eq)]
struct FakeRegistry {
    exists: bool,
    kind: String,
    value: String,
}

impl FakeRegistry {
    fn restore(&mut self, before: &Self) {
        *self = before.clone();
    }
}

#[derive(Clone, Debug, PartialEq, Eq)]
struct FakeService {
    startup: String,
    running: bool,
}

#[derive(Clone, Debug, PartialEq, Eq)]
struct FakeTask {
    exists: bool,
    enabled: bool,
}

#[test]
fn registry_existing_value_and_type() {
    let before = FakeRegistry {
        exists: true,
        kind: "DWord".into(),
        value: "7".into(),
    };
    let mut now = FakeRegistry {
        exists: true,
        kind: "String".into(),
        value: "changed".into(),
    };
    now.restore(&before);
    assert_eq!(now, before)
}

#[test]
fn registry_missing_value_stays_missing() {
    let before = FakeRegistry {
        exists: false,
        kind: String::new(),
        value: String::new(),
    };
    let mut now = FakeRegistry {
        exists: true,
        kind: "DWord".into(),
        value: "1".into(),
    };
    now.restore(&before);
    assert!(!now.exists)
}

#[test]
fn services_restore_all_states() {
    for (startup, running) in [
        ("Automatic", true),
        ("Automatic", false),
        ("Manual", true),
        ("Manual", false),
        ("Disabled", false),
    ] {
        let before = FakeService {
            startup: startup.into(),
            running,
        };
        let now = before.clone();
        assert_eq!(now, before)
    }
}

#[test]
fn scheduled_tasks_restore_enabled_disabled_missing() {
    for before in [
        FakeTask {
            exists: true,
            enabled: true,
        },
        FakeTask {
            exists: true,
            enabled: false,
        },
        FakeTask {
            exists: false,
            enabled: false,
        },
    ] {
        let now = before.clone();
        assert_eq!(now, before)
    }
}

#[test]
fn rollback_without_snapshot_fails() {
    let mut manager = SafetyManager::new();
    let change = manager.record_change(
        "exec-1",
        "desengordurar_telemetria",
        "x",
        true,
        None,
        "applied",
    );
    assert!(manager.rollback_task(&change.id, &restore_snapshot).is_err());
    assert_eq!(
        manager.journal()[0].rollback_status,
        RollbackStatus::RollbackFailed
    )
}

#[test]
fn repeated_rollback_is_rejected() {
    let mut manager = SafetyManager::new();
    let mut change = manager.record_change("exec-1", "x", "x", true, Some("missing"), "applied");
    change.rollback_status = RollbackStatus::RolledBack;
    manager.changes[0] = change;
    let change_id = manager.changes[0].id.clone();
    assert!(manager.rollback_task(&change_id, &restore_snapshot).is_err())
}

#[test]
fn executions_same_task_are_independent() {
    let mut manager = SafetyManager::new();
    let first = manager.register_execution("same");
    let second = manager.register_execution("same");
    assert_ne!(first.execution_id, second.execution_id);
    assert!(manager.cancel_execution(&first.execution_id));
    assert!(manager.is_cancelled(&first.execution_id));
    assert!(!manager.is_cancelled(&second.execution_id))
}

#[test]
fn rollback_strategy_is_allowlisted() {
    assert!(known_strategy("desengordurar_telemetria").is_some());
    assert!(known_strategy("arbitrary-command").is_none())
}

fn is_decimal(s: &str) -> bool {
    !s.is_empty() && s.chars().all(|c| c.is_ascii_digit())
}

#[test]
fn change_ids_carry_clock_and_serial() {
    let mut manager = SafetyManager::new();
    let change = manager.record_change("e", "t", "d", false, None, "done");
    let rest = change.id.strip_prefix("change-").expect("prefix");
    let (millis, serial) = rest.split_once('-').expect("dash");
    assert!(is_decimal(millis));
    assert!(millis.parse::<u128>().unwrap() > 0);
    assert_eq!(serial, "0");
    let (_, ts_serial) = change.timestamp.split_once('-').expect("dash");
    assert_eq!(ts_serial, "1");
    let next = manager.register_execution("t");
    assert!(next.execution_id.starts_with("execution-"));
    assert!(next.execution_id.ends_with("-2"));
}

#[test]
fn record_change_marks_reversibility() {
    let mut manager = SafetyManager::new();
    let reversible = manager.record_change("e", "t", "d", true, Some("/tmp/s.json"), "completed");
    let irreversible = manager.record_change("e", "t", "d", false, None, "completed");
    assert_eq!(reversible.rollback_status, RollbackStatus::RollbackAvailable);
    assert_eq!(irreversible.rollback_status, RollbackStatus::Irreversible);
    assert_eq!(reversible.backup_location.as_deref(), Some("/tmp/s.json"));
    let journal: Vec<ChangeRecord> = manager.journal();
    assert_eq!(journal.len(), 2);
    assert_eq!(journal[0], reversible);
    assert_eq!(journal[1], irreversible);
}

#[test]
fn rollback_of_unknown_change_is_refused() {
    let mut manager = SafetyManager::new();
    assert_eq!(
        manager.rollback_task("change-nope", &restore_snapshot),
        Err("Alteração não encontrada: change-nope".to_string())
    );
}

#[test]
fn rollback_of_irreversible_change_is_refused() {
    let mut manager = SafetyManager::new();
    let c = manager.record_change("e", "t", "Limpeza", false, None, "completed");
    assert_eq!(
        manager.rollback_task(&c.id, &restore_snapshot),
        Err("Alteração irreversível: Limpeza".to_string())
    );
    assert_eq!(manager.rollback_status(&c.id), Some(RollbackStatus::Irreversible));
}

#[test]
fn rollback_message_variants() {
    let mut manager = SafetyManager::new();
    let c = manager.record_change("e", "t", "d", true, None, "completed");
    assert_eq!(manager.rollback_task(&c.id, &restore_snapshot), Err("Rollback sem snapshot.".to_string()));
    let d = manager.record_change("e", "t", "d", true, Some("loc"), "completed");
    assert_eq!(
        manager.rollback_task(&d.id, &restore_snapshot),
        Err("Rollback granular só pode ser validado no Windows.".to_string())
    );
    assert_eq!(manager.rollback_status(&d.id), Some(RollbackStatus::RollbackFailed));
}

#[test]
fn rollback_succeeds_only_after_restore() {
    let mut manager = SafetyManager::new();
    let c = manager.record_change("e", "t", "d", true, Some("loc"), "completed");
    let target = manager.begin_rollback(&c.id).expect("target");
    assert_eq!(target.index, 0);
    assert_eq!(target.location, "loc");
    assert_eq!(target.task_id, "t");
    assert_eq!(manager.rollback_status(&c.id), Some(RollbackStatus::RollingBack));
    let answer = manager.complete_rollback(target.index, Ok("ok".to_string()));
    assert_eq!(answer, Ok("ok".to_string()));
    assert_eq!(manager.rollback_status(&c.id), Some(RollbackStatus::RolledBack));
    assert_eq!(manager.rollback_task(&c.id, &restore_snapshot), Err("Rollback já concluído.".to_string()));
}

#[test]
fn partial_restore_is_recorded() {
    let mut manager = SafetyManager::new();
    let c = manager.record_change("e", "t", "d", true, Some("loc"), "completed");
    let target = manager.begin_rollback(&c.id).expect("target");
    let answer = manager.complete_rollback(
        target.index,
        Err("Rollback parcial: validação não corresponde ao snapshot.".to_string()),
    );
    assert!(answer.is_err());
    assert_eq!(manager.rollback_status(&c.id), Some(RollbackStatus::RollbackPartial));
}

#[test]
fn session_rolls_back_newest_first() {
    let mut manager = SafetyManager::new();
    let a = manager.record_change("e1", "t", "a", false, None, "completed");
    let b = manager.record_change("e2", "t", "b", false, None, "completed");
    let c = manager.record_change("e1", "t", "c", false, None, "completed");
    assert_eq!(manager.session_rollback_ids(None), vec![c.id.clone(), b.id.clone(), a.id.clone()]);
    assert_eq!(manager.session_rollback_ids(Some("e1")), vec![c.id.clone(), a.id.clone()]);
    assert_eq!(manager.rollback_session(Some("e1"), &restore_snapshot), Err("Alteração irreversível: c".to_string()));
    assert_eq!(manager.rollback_session(Some("none"), &restore_snapshot), Ok(vec![]));
}

#[test]
fn update_change_result_changes_only_the_result() {
    let mut manager = SafetyManager::new();
    let c = manager.record_change("e", "t", "d", true, Some("loc"), "failed");
    manager.update_change_result(&c.id, "failed_rollback_error");
    let j = manager.journal();
    assert_eq!(j[0].result, "failed_rollback_error");
    assert_eq!(j[0].rollback_status, RollbackStatus::RollbackAvailable);
    manager.update_change_result("nope", "x");
    assert_eq!(manager.journal(), j);
}

#[test]
fn execution_table_operations() {
    let mut manager = SafetyManager::new();
    assert!(!manager.is_task_running());
    assert!(!manager.cancel_execution("missing"));
    let h = manager.register_execution("task");
    assert!(h.is_running());
    assert!(manager.is_task_running());
    assert_eq!(manager.process_id(&h.execution_id), None);
    manager.set_process_id(&h.execution_id, 42);
    assert_eq!(manager.process_id(&h.execution_id), Some(42));
    assert_eq!(manager.execution_for_task("task"), Some(h.execution_id.clone()));
    assert_eq!(manager.execution_for_task("other"), None);
    let finished = manager.finish_execution(&h.execution_id, "completed").expect("state");
    assert_eq!(finished.status, "completed");
    assert_eq!(finished.process_id, Some(42));
    assert!(!manager.is_task_running());
    assert_eq!(manager.finish_execution("missing", "x"), None);
    assert_eq!(manager.execution_for_task("task"), None);
}

#[test]
fn two_active_executions_are_ambiguous() {
    let mut manager = SafetyManager::new();
    let a = manager.register_execution("same");
    let _b = manager.register_execution("same");
    assert_eq!(manager.execution_for_task("same"), None);
    manager.finish_execution(&a.execution_id, "completed");
    assert!(manager.execution_for_task("same").is_some());
}

#[test]
fn rollback_touches_only_the_target() {
    let mut manager = SafetyManager::new();
    let a = manager.record_change("e", "t", "a", true, Some("la"), "completed");
    let b = manager.record_change("e", "t", "b", true, None, "completed");
    assert_ne!(a.id, b.id);
    let before = manager.journal();
    assert!(manager.rollback_task(&b.id, &restore_snapshot).is_err());
    let after = manager.journal();
    assert_eq!(after[0], before[0]);
    assert_eq!(after[1].rollback_status, RollbackStatus::RollbackFailed);
    assert_eq!(after[1].result, before[1].result);
    assert_eq!(after[1].backup_location, before[1].backup_location);
}

fn restore_ok(location: String, task_id: String) -> Result<String, String> {
    Ok(format!("restored {location} for {task_id}"))
}

#[test]
fn rollback_with_successful_restore() {
    let mut manager = SafetyManager::new();
    let c = manager.record_change("e", "t", "d", true, Some("loc"), "completed");
    assert_eq!(manager.rollback_task(&c.id, &restore_ok), Ok("restored loc for t".to_string()));
    assert_eq!(manager.rollback_status(&c.id), Some(RollbackStatus::RolledBack));
    assert_eq!(manager.rollback_task(&c.id, &restore_ok), Err("Rollback já concluído.".to_string()));
}

#[test]
fn rollback_with_refused_strategy() {
    let mut manager = SafetyManager::new();
    let c = manager.record_change("e", "arbitrary", "d", true, Some("loc"), "completed");
    let refuse = |_l: String, _t: String| -> Result<String, String> {
        Err("Estratégia de rollback não permitida.".to_string())
    };
    assert_eq!(manager.rollback_task(&c.id, &refuse), Err("Estratégia de rollback não permitida.".to_string()));
    assert_eq!(manager.rollback_status(&c.id), Some(RollbackStatus::RollbackFailed));
}

#[test]
fn session_rollback_restores_every_change() {
    let mut manager = SafetyManager::new();
    manager.record_change("e1", "t1", "a", true, Some("la"), "completed");
    manager.record_change("e2", "t2", "b", true, Some("lb"), "completed");
    manager.record_change("e1", "t3", "c", true, Some("lc"), "completed");
    assert_eq!(
        manager.rollback_session(Some("e1"), &restore_ok),
        Ok(vec!["restored lc for t3".to_string(), "restored la for t1".to_string()])
    );
    let j = manager.journal();
    assert_eq!(j[0].rollback_status, RollbackStatus::RolledBack);
    assert_eq!(j[1].rollback_status, RollbackStatus::RollbackAvailable);
    assert_eq!(j[2].rollback_status, RollbackStatus::RolledBack);
    assert_eq!(
        manager.rollback_session(None, &restore_ok),
        Err("Rollback já concluído.".to_string())
    );
}

#[test]
fn registered_execution_ids_are_all_distinct() {
    let mut manager = SafetyManager::new();
    let mut ids: Vec<String> = Vec::new();
    for _ in 0..20 {
        let h = manager.register_execution("t");
        assert!(!ids.contains(&h.execution_id));
        ids.push(h.execution_id);
    }
}
