use qboa_digital::engine::{
    append_output_line, cancel_task, cancellation_error, cleanup_standard, command_outcome,
    execution_plan, join_outputs, preset_run_plan, run_powershell, run_system_command,
    shutdown_command, spawn_error, start_task, task_for_request, task_result, task_risk_label,
    RunAction, RunPhase,
};
use qboa_digital::safety::{RollbackStatus, SafetyManager};
use qboa_digital::scripts::CLEANUP_STANDARD_SCRIPT;
use qboa_digital::task_registry::TaskRegistry;

fn task(id: &str) -> qboa_digital::task_registry::Task {
    TaskRegistry::new().resolve(id).unwrap().clone()
}

#[test]
fn powershell_invocation() {
    let c = run_powershell("Write-Output 1");
    assert_eq!(c.program, "powershell");
    assert_eq!(c.args, vec!["-NoProfile", "-ExecutionPolicy", "Bypass", "-Command", "Write-Output 1"]);
    let s = cleanup_standard();
    assert_eq!(s.args[4], CLEANUP_STANDARD_SCRIPT);
    let sys = run_system_command("sfc", &["/scannow"]);
    assert_eq!(sys.program, "sfc");
    assert_eq!(sys.args, vec!["/scannow"]);
}

#[test]
fn plans_of_tasks() {
    let media = execution_plan(&task("limpeza_media")).unwrap();
    let programs: Vec<&str> = media.iter().map(|c| c.program.as_str()).collect();
    assert_eq!(programs, vec!["powershell", "cleanmgr", "powershell", "dism"]);
    assert_eq!(media[3].args, vec!["/Online", "/Cleanup-Image", "/ScanHealth"]);
    let heavy = execution_plan(&task("limpeza_pesada")).unwrap();
    assert_eq!(heavy.len(), 7);
    assert_eq!(heavy[6].program, "sfc");
    let info = execution_plan(&task("diagnostico_informacoes")).unwrap();
    assert_eq!(info[0].program, "systeminfo");
    assert!(info[0].args.is_empty());
    match execution_plan(&task("desengordurar_telemetria_avancada")) {
        Err(e) => assert_eq!(e, "Task não implementada: desengordurar_telemetria_avancada"),
        Ok(_) => panic!("no implementation expected"),
    }
}

#[test]
fn outputs_and_outcomes() {
    assert_eq!(join_outputs(&vec!["a".to_string(), "b".to_string(), "c".to_string()]), "a\nb\nc");
    assert_eq!(join_outputs(&vec!["only".to_string()]), "only");
    assert_eq!(join_outputs(&vec![]), "");
    let mut out = String::from("x\n");
    append_output_line(&mut out, "y");
    assert_eq!(out, "x\ny\n");
    assert_eq!(command_outcome("sfc", true, "ok".into()), Ok("ok".to_string()));
    assert_eq!(
        command_outcome("sfc", false, "bad".into()),
        Err("Comando falhou (sfc):\nbad".to_string())
    );
    assert_eq!(cancellation_error("dism", Ok(())), "Comando cancelado: dism");
    assert_eq!(
        cancellation_error("dism", Err("denied".into())),
        "Cancelamento não confirmado para dism: denied"
    );
    assert_eq!(spawn_error("x", "not found"), "Falha ao executar 'x': not found");
    let sd = shutdown_command();
    assert_eq!(sd.program, "shutdown");
    assert_eq!(sd.args[4], "Qboa Digital concluiu a tarefa.");
}

#[test]
fn task_requests_and_results() {
    let t = task_for_request("diagnostico_sfc").unwrap();
    assert_eq!(task_risk_label(&t), "moderate");
    let r = task_result(&t, "execution-1-0");
    assert!(r.ok);
    assert_eq!(r.output, "Task iniciada: SFC /scannow");
    assert_eq!(r.risk, "moderate");
    assert!(r.restore_point_created);
    assert_eq!(r.change_id, None);
    let safe = task_for_request("limpeza_leve").unwrap();
    assert!(!task_result(&safe, "e").restore_point_created);
    match task_for_request("nada") {
        Err(e) => assert_eq!(e, "Task desconhecida: nada"),
        Ok(_) => panic!("unknown task accepted"),
    }
}

#[test]
fn preset_plans() {
    let express = preset_run_plan("express").unwrap();
    let ids: Vec<&str> = express.iter().map(|t| t.id.as_str()).collect();
    assert_eq!(ids, vec!["diagnostico_informacoes", "limpeza_leve"]);
    match preset_run_plan("rapido") {
        Err(e) => assert_eq!(e, "Preset desconhecido ou vazio: rapido"),
        Ok(_) => panic!("unknown preset accepted"),
    }
}

#[test]
fn cancel_requests() {
    let mut safety = SafetyManager::new();
    let a = safety.register_execution("t");
    assert_eq!(
        cancel_task(&mut safety, "t", None),
        Ok(format!("Tarefa marcada como cancelando: t ({})", a.execution_id))
    );
    assert!(safety.is_cancelled(&a.execution_id));
    let _b = safety.register_execution("t");
    assert_eq!(
        cancel_task(&mut safety, "t", None),
        Err("Execution ID obrigatório quando há mais de uma execução: t".to_string())
    );
    assert_eq!(
        cancel_task(&mut safety, "t", Some("missing".into())),
        Err("Tarefa não encontrada para cancelamento: t".to_string())
    );
    assert_eq!(
        cancel_task(&mut safety, "u", None),
        Err("Execution ID obrigatório quando há mais de uma execução: u".to_string())
    );
}

fn event_names(step: &qboa_digital::engine::RunStep) -> Vec<String> {
    step.events.iter().map(|e| e.event.clone()).collect()
}

#[test]
fn safe_task_runs_to_completion() {
    let mut safety = SafetyManager::new();
    let (handle, mut run, first) = start_task(&mut safety, task("limpeza_leve"), false);
    assert_eq!(handle.task_id, "limpeza_leve");
    assert!(matches!(first.action, RunAction::Execute));
    assert_eq!(event_names(&first), vec!["task-started", "task-progress"]);
    let done = run.on_execution(&mut safety, Ok("ok".into()));
    assert!(matches!(done.action, RunAction::Stop));
    assert_eq!(event_names(&done), vec!["task-output", "task-completed"]);
    assert_eq!(done.events[1].message, "Tarefa concluída: Limpeza leve");
    assert_eq!(run.phase, RunPhase::Done);
    let journal = safety.journal();
    assert_eq!(journal.len(), 1);
    assert_eq!(journal[0].result, "completed");
    assert_eq!(journal[0].rollback_status, RollbackStatus::Irreversible);
    assert!(!safety.is_task_running());
}

#[test]
fn reversible_task_snapshots_then_asks_restore_point() {
    let mut safety = SafetyManager::new();
    let (_, mut run, first) = start_task(&mut safety, task("desengordurar_telemetria"), true);
    assert!(matches!(first.action, RunAction::CaptureSnapshot));
    let next = run.on_snapshot(&mut safety, Ok("C:/snap.json".into()));
    match &next.action {
        RunAction::CreateRestorePoint { reason } => {
            assert_eq!(reason, "Qboa Digital — Antes da tarefa: Desativar telemetria")
        }
        _ => panic!("restore point expected"),
    }
    let exec = run.on_restore_point(Err("no protection".into()));
    assert!(matches!(exec.action, RunAction::Execute));
    assert_eq!(event_names(&exec), vec!["restore-point-error", "task-progress"]);
    let after = run.on_execution(&mut safety, Ok("done".into()));
    assert!(matches!(after.action, RunAction::ScheduleShutdown));
    assert_eq!(safety.journal()[0].backup_location.as_deref(), Some("C:/snap.json"));
    let last = run.on_shutdown(Ok(()));
    assert_eq!(last.events[0].event, "shutdown-scheduled");
    assert_eq!(run.phase, RunPhase::Done);
}

#[test]
fn failed_snapshot_stops_the_task() {
    let mut safety = SafetyManager::new();
    let (handle, mut run, _) = start_task(&mut safety, task("desengordurar_tarefas"), false);
    let step = run.on_snapshot(&mut safety, Err("sem snapshot".into()));
    assert!(matches!(step.action, RunAction::Stop));
    assert_eq!(step.events[0].event, "task-error");
    assert_eq!(safety.finish_execution(&handle.execution_id, "failed").unwrap().status, "failed");
    assert!(safety.journal().is_empty());
    let ignored = run.on_execution(&mut safety, Ok("late".into()));
    assert!(ignored.events.is_empty());
    assert!(safety.journal().is_empty());
}

#[test]
fn failed_reversible_task_is_rolled_back() {
    let mut safety = SafetyManager::new();
    let (_, mut run, _) = start_task(&mut safety, task("desengordurar_telemetria"), false);
    run.on_snapshot(&mut safety, Ok("snap".into()));
    run.on_restore_point(Ok("Windows Restore Point: x".into()));
    let step = run.on_execution(&mut safety, Err("Comando falhou (powershell):\n".into()));
    match &step.action {
        RunAction::RestoreSnapshot { location, task_id } => {
            assert_eq!(location, "snap");
            assert_eq!(task_id, "desengordurar_telemetria");
        }
        _ => panic!("restore expected"),
    }
    let change_before = run.change.clone();
    let end = run.on_restore(&mut safety, Ok("Rollback aplicado e validado.".into()));
    assert_eq!(
        end.events[0].message,
        "Comando falhou (powershell):\n (failed_and_rolled_back)"
    );
    assert_eq!(run.change, change_before);
    assert_eq!(run.failure, "Comando falhou (powershell):\n");
    let j = safety.journal();
    assert_eq!(j[0].rollback_status, RollbackStatus::RolledBack);
    assert_eq!(j[0].result, "failed_and_rolled_back");
}

#[test]
fn failed_rollback_is_reported() {
    let mut safety = SafetyManager::new();
    let (_, mut run, _) = start_task(&mut safety, task("desengordurar_telemetria"), false);
    run.on_snapshot(&mut safety, Ok("snap".into()));
    run.on_restore_point(Ok("p".into()));
    run.on_execution(&mut safety, Err("boom".into()));
    let end = run.on_restore(&mut safety, Err("Rollback parcial: validação".into()));
    assert_eq!(end.events[0].message, "boom (failed_rollback_partial)");
    assert_eq!(safety.journal()[0].rollback_status, RollbackStatus::RollbackPartial);
}

#[test]
fn irreversible_failure_concludes_as_failed() {
    let mut safety = SafetyManager::new();
    let (handle, mut run, _) = start_task(&mut safety, task("diagnostico_sfc"), false);
    run.on_restore_point(Ok("p".into()));
    let end = run.on_execution(&mut safety, Err("sfc failed".into()));
    assert_eq!(end.events[0].message, "sfc failed (failed)");
    assert_eq!(safety.journal()[0].result, "failed");
    assert_eq!(
        safety.finish_execution(&handle.execution_id, "failed").unwrap().status,
        "failed"
    );
}

#[test]
fn cancelled_task_ends_as_cancelled() {
    let mut safety = SafetyManager::new();
    let (handle, mut run, _) = start_task(&mut safety, task("limpeza_leve"), false);
    assert!(safety.cancel_execution(&handle.execution_id));
    let end = run.on_execution(&mut safety, Err("Comando cancelado: powershell".into()));
    assert_eq!(end.events[0].event, "task-cancelled");
    assert!(safety.journal().is_empty());
    assert!(!safety.is_task_running());
}

#[test]
fn unconfirmed_cancellation_is_a_failure() {
    let mut safety = SafetyManager::new();
    let (handle, mut run, _) = start_task(&mut safety, task("limpeza_leve"), false);
    safety.cancel_execution(&handle.execution_id);
    let end = run.on_execution(
        &mut safety,
        Err("Cancelamento não confirmado para powershell: x".into()),
    );
    assert_eq!(end.events[0].event, "task-error");
    assert_eq!(safety.journal()[0].result, "failed");
}

#[test]
fn risky_task_asks_restore_point_first() {
    let mut safety = SafetyManager::new();
    let (_, _, first) = start_task(&mut safety, task("diagnostico_sfc"), false);
    match &first.action {
        RunAction::CreateRestorePoint { reason } => {
            assert_eq!(reason, "Qboa Digital — Antes da tarefa: SFC /scannow")
        }
        _ => panic!("restore point expected"),
    }
    assert_eq!(event_names(&first), vec!["task-started"]);
}
