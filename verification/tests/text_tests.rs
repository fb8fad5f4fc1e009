use qboa_digital::snapshot::{
    check_captured_snapshot, check_stored_snapshot, restore_command, restore_point_command,
    restore_point_label, rollback_strategy, snapshot_file_name, snapshot_script, snapshot_strategy,
    validate_restored, RegistrySnapshot, ServiceSnapshot, SystemSnapshot,
};
use qboa_digital::scripts::{RESTORE_SCRIPT, TELEMETRY_SNAPSHOT_SCRIPT};
use qboa_digital::text::{
    contains, decimal, escape_single_quotes, output_text, starts_with, text_eq, text_less, trim_text,
};

#[test]
fn decimal_notation() {
    assert_eq!(decimal(0), "0");
    assert_eq!(decimal(7), "7");
    assert_eq!(decimal(1234567890123), "1234567890123");
    assert_eq!(decimal(u128::MAX), u128::MAX.to_string());
}

#[test]
fn comparisons() {
    assert!(text_eq("abc", "abc"));
    assert!(!text_eq("abc", "abd"));
    assert!(text_less("DISM Scan", "Desativar"));
    assert!(text_less("Limpeza leve", "Limpeza média"));
    assert!(!text_less("b", "a"));
    assert!(!text_less("a", "a"));
    assert!(text_less("a", "ab"));
    assert!(starts_with("Cancelamento não confirmado para x", "Cancelamento não confirmado"));
    assert!(!starts_with("Cancel", "Cancelamento"));
    assert!(contains("Rollback parcial: x", "parcial"));
    assert!(!contains("Rollback falhou", "parcial"));
    assert!(contains("abc", ""));
}

#[test]
fn quote_escaping() {
    assert_eq!(escape_single_quotes("it's"), "it''s");
    assert_eq!(escape_single_quotes("''"), "''''");
    assert_eq!(escape_single_quotes("none"), "none");
    assert_eq!(
        restore_point_command("Qboa Digital — Antes da tarefa: O'Brien"),
        "Checkpoint-Computer -Description 'Qboa Digital — Antes da tarefa: O''Brien' -RestorePointType 'MODIFY_SETTINGS' -ErrorAction Stop"
    );
    assert_eq!(
        restore_command("{\"a\":\"x'y\"}"),
        format!("$s=ConvertFrom-Json -InputObject '{{\"a\":\"x''y\"}}';{}", RESTORE_SCRIPT)
    );
    assert_eq!(restore_point_label("r"), "Windows Restore Point: r");
}

#[test]
fn trimming_and_process_output() {
    assert_eq!(trim_text("  a b \n"), "a b");
    assert_eq!(trim_text("\u{3000}x\u{a0}"), "x");
    assert_eq!(trim_text("   "), "");
    assert_eq!(output_text(b" out ", b"err\n"), "out err");
    assert_eq!(output_text(&[0x66, 0xff, 0x67], b""), "f\u{fffd}g");
    assert_eq!(output_text("ção".as_bytes(), b""), "ção");
}

fn snapshot(strategy: &str, state: &str) -> SystemSnapshot {
    SystemSnapshot {
        strategy: strategy.to_string(),
        registry: vec![RegistrySnapshot {
            hive: "LocalMachine".into(),
            path: "SOFTWARE\\Policies".into(),
            value_name: "AllowTelemetry".into(),
            exists: true,
            value_type: Some("DWord".into()),
            value: Some("0".into()),
        }],
        services: vec![ServiceSnapshot {
            name: "DiagTrack".into(),
            exists: true,
            startup_type: Some("Auto".into()),
            state: Some(state.into()),
        }],
        scheduled_tasks: vec![],
        features: vec![],
    }
}

#[test]
fn snapshot_strategies_and_checks() {
    assert_eq!(snapshot_strategy("desengordurar_telemetria"), Ok("telemetry"));
    assert_eq!(snapshot_strategy("desengordurar_tarefas"), Ok("diagnostic_tasks"));
    assert_eq!(
        snapshot_strategy("limpeza_leve"),
        Err("Sem snapshot seguro para a tarefa: limpeza_leve".to_string())
    );
    assert_eq!(
        rollback_strategy("x"),
        Err("Estratégia de rollback não permitida.".to_string())
    );
    assert_eq!(snapshot_script("telemetry"), TELEMETRY_SNAPSHOT_SCRIPT);
    assert_eq!(snapshot_script("other"), "");
    let s = snapshot("telemetry", "Running");
    assert_eq!(check_captured_snapshot(&s, "telemetry"), Ok(()));
    assert_eq!(
        check_captured_snapshot(&s, "diagnostic_tasks"),
        Err("Snapshot retornou estratégia inesperada.".to_string())
    );
    assert_eq!(
        check_stored_snapshot(&s, "diagnostic_tasks"),
        Err("Snapshot e estratégia não correspondem.".to_string())
    );
    assert_eq!(snapshot_file_name("t", "1-2"), "snapshot-t-1-2.json");
}

#[test]
fn restore_is_validated_against_the_snapshot() {
    let before = snapshot("telemetry", "Running");
    assert_eq!(
        validate_restored(&before, &snapshot("telemetry", "Running")),
        Ok("Rollback aplicado e validado.".to_string())
    );
    assert_eq!(
        validate_restored(&before, &snapshot("telemetry", "Stopped")),
        Err("Rollback parcial: validação não corresponde ao snapshot.".to_string())
    );
    assert!(before.same_state(&snapshot("telemetry", "Running")));
    assert!(!before.same_state(&SystemSnapshot::default()));
}
