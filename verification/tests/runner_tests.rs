use std::cell::RefCell;

use qboa_digital::engine::{
    execution_plan, preset_run_plan, run_plan, taskkill_command, termination_outcome, CommandSpec,
    PresetAction, PresetRun,
};
use qboa_digital::scripts::{CLEANUP_STANDARD_SCRIPT, TELEMETRY_SNAPSHOT_SCRIPT};
use qboa_digital::snapshot::{restore_point_outcome, snapshot_script};
use qboa_digital::task_registry::{TaskCategory, TaskRegistry};

fn task(id: &str) -> qboa_digital::task_registry::Task {
    TaskRegistry::new().resolve(id).unwrap().clone()
}

#[test]
fn plan_runs_in_order_and_joins_outputs() {
    let plan = execution_plan(&task("limpeza_pesada")).unwrap();
    let seen = RefCell::new(Vec::new());
    let run = |c: &CommandSpec| -> Result<String, String> {
        seen.borrow_mut().push(c.program.clone());
        Ok(format!("{}-{}", c.program, seen.borrow().len()))
    };
    let answer = run_plan(&plan, &run).unwrap();
    assert_eq!(
        *seen.borrow(),
        vec!["powershell", "powershell", "powershell", "dism", "dism", "dism", "sfc"]
    );
    assert_eq!(
        answer,
        "powershell-1\npowershell-2\npowershell-3\ndism-4\ndism-5\ndism-6\nsfc-7"
    );
}

#[test]
fn plan_stops_at_first_failure() {
    let plan = execution_plan(&task("limpeza_pesada")).unwrap();
    let calls = RefCell::new(0usize);
    let run = |_c: &CommandSpec| -> Result<String, String> {
        *calls.borrow_mut() += 1;
        if *calls.borrow() == 2 {
            Err("falhou".to_string())
        } else {
            Ok("ok".to_string())
        }
    };
    assert_eq!(run_plan(&plan, &run), Err("falhou".to_string()));
    assert_eq!(*calls.borrow(), 2);
}

#[test]
fn empty_plan_answers_empty_output() {
    let run = |_c: &CommandSpec| -> Result<String, String> { Err("never".to_string()) };
    assert_eq!(run_plan(&Vec::new(), &run), Ok(String::new()));
}

#[test]
fn preset_starts_tasks_one_at_a_time() {
    let tasks = preset_run_plan("express").unwrap();
    let names: Vec<String> = tasks.iter().map(|t| t.id.clone()).collect();
    let mut run = PresetRun::new(tasks);
    match run.poll(true) {
        PresetAction::Start(t) => assert_eq!(t.id, names[0]),
        _ => panic!("first task starts at once"),
    }
    assert!(matches!(run.poll(true), PresetAction::Wait));
    match run.poll(false) {
        PresetAction::Start(t) => assert_eq!(t.id, names[1]),
        _ => panic!("second task starts once idle"),
    }
    assert!(matches!(run.poll(true), PresetAction::Wait));
    assert!(matches!(run.poll(false), PresetAction::Done));
    assert_eq!(run.started, 2);
}

#[test]
fn restore_point_answers() {
    assert_eq!(
        restore_point_outcome("Qboa", true, "ignored"),
        Ok("Windows Restore Point: Qboa".to_string())
    );
    assert_eq!(
        restore_point_outcome("Qboa", false, "acesso negado"),
        Err("Falha ao criar ponto de restauração: acesso negado".to_string())
    );
}

#[test]
fn process_tree_termination() {
    let c = taskkill_command(4242);
    assert_eq!(c.program, "taskkill");
    assert_eq!(c.args, vec!["/PID", "4242", "/T", "/F"]);
    assert_eq!(termination_outcome(true), Ok(()));
    assert_eq!(
        termination_outcome(false),
        Err("Não foi possível confirmar o encerramento da árvore de processos.".to_string())
    );
}

#[test]
fn standard_cleanup_keeps_quick_access() {
    assert!(!CLEANUP_STANDARD_SCRIPT.contains(r"Recent\*"));
    assert!(CLEANUP_STANDARD_SCRIPT.contains(r#"Get-ChildItem -Path "$env:APPDATA\Microsoft\Windows\Recent" -File"#));
    assert!(!CLEANUP_STANDARD_SCRIPT.contains("AutomaticDestinations"));
}

#[test]
fn telemetry_snapshot_covers_every_value_written() {
    let script = snapshot_script("telemetry");
    assert_eq!(script, TELEMETRY_SNAPSHOT_SCRIPT);
    for spec in [
        r"@('LocalMachine','SOFTWARE\Microsoft\Windows\CurrentVersion\Policies\DataCollection','AllowTelemetry')",
        r"@('LocalMachine','SOFTWARE\Wow6432Node\Microsoft\Windows\CurrentVersion\Policies\DataCollection','AllowTelemetry')",
        r"@('LocalMachine','SOFTWARE\Policies\Microsoft\Windows\DataCollection','DisableEnterpriseAuthProxy')",
        r"@('LocalMachine','SOFTWARE\Policies\Microsoft\Windows\WindowsAI','DisableAIDataAnalysis')",
        r"@('CurrentUser','SOFTWARE\Policies\Microsoft\Windows\WindowsAI','DisableAIDataAnalysis')",
    ] {
        assert!(script.contains(spec), "{spec}");
    }
}

#[test]
fn presets_are_nested_in_the_catalogue() {
    for t in TaskRegistry::new().list() {
        let has = |p: &str| t.presets.iter().any(|x| x == p);
        if has("express") {
            assert!(has("normal"));
        }
        if has("normal") {
            assert!(has("turbo"));
        }
        assert_eq!(t.reversible, t.category == TaskCategory::Debloat);
    }
}
