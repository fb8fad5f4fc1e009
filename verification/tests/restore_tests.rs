use qboa_digital::snapshot::{
    begin_restore, restore_command, restore_script_outcome, RegistrySnapshot, RestoreStep, SystemSnapshot,
};
use qboa_digital::text::stdout_text;

fn snap(strategy: &str, value: &str) -> SystemSnapshot {
    SystemSnapshot {
        strategy: strategy.to_string(),
        registry: vec![RegistrySnapshot {
            hive: "LocalMachine".into(),
            path: "SOFTWARE\\Policies".into(),
            value_name: "AllowTelemetry".into(),
            exists: true,
            value_type: Some("DWord".into()),
            value: Some(value.into()),
        }],
        services: vec![],
        scheduled_tasks: vec![],
        features: vec![],
    }
}

fn done(step: RestoreStep) -> Result<String, String> {
    match step {
        RestoreStep::Done(answer) => answer,
        _ => panic!("the restore should be over"),
    }
}

#[test]
fn unknown_strategy_is_refused_before_reading() {
    let (_, step) = begin_restore("loc".to_string(), "arbitrary-command");
    assert_eq!(done(step), Err("Estratégia de rollback não permitida.".to_string()));
}

#[test]
fn mismatched_snapshot_is_refused_before_running() {
    let (mut run, step) = begin_restore("loc".to_string(), "desengordurar_telemetria");
    match step {
        RestoreStep::Load(l) => assert_eq!(l, "loc"),
        _ => panic!("the snapshot should be read"),
    }
    let step = run.on_loaded(Ok((snap("diagnostic_tasks", "0"), "{}".to_string())));
    assert_eq!(done(step), Err("Snapshot e estratégia não correspondem.".to_string()));
    assert!(run.before.is_none());
}

#[test]
fn unreadable_snapshot_ends_the_restore() {
    let (mut run, _) = begin_restore("loc".to_string(), "desengordurar_telemetria");
    let step = run.on_loaded(Err("Snapshot indisponível: x".to_string()));
    assert_eq!(done(step), Err("Snapshot indisponível: x".to_string()));
}

#[test]
fn full_restore_is_validated() {
    let (mut run, _) = begin_restore("loc".to_string(), "desengordurar_telemetria");
    let step = run.on_loaded(Ok((snap("telemetry", "0"), "{'a'}".to_string())));
    match step {
        RestoreStep::Execute(c) => assert_eq!(c, restore_command("{'a'}")),
        _ => panic!("the restore command should run"),
    }
    assert_eq!(
        done(run.on_executed(Ok((false, "acesso negado".to_string())))),
        Err("Rollback falhou: acesso negado".to_string())
    );
    assert_eq!(
        done(run.on_executed(Err("Falha ao iniciar rollback: x".to_string()))),
        Err("Falha ao iniciar rollback: x".to_string())
    );
    match run.on_executed(Ok((true, String::new()))) {
        RestoreStep::Capture(s) => assert_eq!(s, "telemetry"),
        _ => panic!("the state should be captured again"),
    }
    assert_eq!(
        done(run.on_captured(Ok(snap("telemetry", "0")))),
        Ok("Rollback aplicado e validado.".to_string())
    );
    assert_eq!(
        done(run.on_captured(Ok(snap("telemetry", "1")))),
        Err("Rollback parcial: validação não corresponde ao snapshot.".to_string())
    );
    assert_eq!(
        done(run.on_captured(Err("Validação inválida: x".to_string()))),
        Err("Validação inválida: x".to_string())
    );
}

#[test]
fn restore_script_answers() {
    assert_eq!(restore_script_outcome(true, "x"), Ok(()));
    assert_eq!(restore_script_outcome(false, "x"), Err("Rollback falhou: x".to_string()));
}

#[test]
fn standard_output_is_trimmed() {
    assert_eq!(stdout_text(b"  {\"a\":1}\r\n"), "{\"a\":1}");
}
