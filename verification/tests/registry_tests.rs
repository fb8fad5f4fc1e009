use qboa_digital::engine::resolve_task;
use qboa_digital::task_registry::{TaskRegistry, TaskRisk};

#[test]
fn known_tasks_are_resolved() {
    assert!(resolve_task("limpeza_leve").is_some());
    assert!(resolve_task("desengordurar_telemetria").is_some());
    assert!(resolve_task("diagnostico_sfc").is_some());
}

#[test]
fn unknown_tasks_are_rejected() {
    let registry = TaskRegistry::new();
    assert!(registry.resolve("task_inexistente").is_none());
}

#[test]
fn registry_resolves_known_tasks() {
    let registry = TaskRegistry::new();
    assert!(registry.resolve("limpeza_leve").is_some());
    assert!(registry.resolve("desengordurar_telemetria").is_some());
    assert!(registry.resolve("diagnostico_sfc").is_some());
}

#[test]
fn unknown_tasks_are_missing() {
    let registry = TaskRegistry::new();
    assert!(registry.resolve("task_inexistente").is_none());
}

#[test]
fn presets_are_built() {
    let registry = TaskRegistry::new();
    assert!(!registry.preset_tasks("express").is_empty());
    assert!(!registry.preset_tasks("normal").is_empty());
    assert!(!registry.preset_tasks("turbo").is_empty());
}

fn ids(tasks: &[&qboa_digital::task_registry::Task]) -> Vec<String> {
    tasks.iter().map(|t| t.id.clone()).collect()
}

#[test]
fn preset_sequences() {
    let registry = TaskRegistry::new();
    assert_eq!(
        ids(&registry.preset_tasks("express")),
        vec!["diagnostico_informacoes", "limpeza_leve"]
    );
    assert_eq!(
        ids(&registry.preset_tasks("normal")),
        vec![
            "diagnostico_dism_scan",
            "desengordurar_tarefas",
            "desengordurar_telemetria",
            "diagnostico_informacoes",
            "limpeza_leve",
            "limpeza_media",
            "diagnostico_sfc",
            "limpeza_windows_update",
        ]
    );
    let turbo = ids(&registry.preset_tasks("turbo"));
    assert_eq!(turbo.len(), 11);
    assert!(turbo.contains(&"limpeza_pesada".to_string()));
    assert!(turbo.contains(&"diagnostico_dism_restore".to_string()));
    assert!(registry.preset_tasks("unknown").is_empty());
}

#[test]
fn express_tasks_are_safe() {
    let registry = TaskRegistry::new();
    for t in registry.preset_tasks("express") {
        assert_eq!(t.risk, TaskRisk::Safe);
    }
}

#[test]
fn list_is_sorted_by_name() {
    let registry = TaskRegistry::new();
    let list = registry.list();
    assert_eq!(list.len(), 11);
    for pair in list.windows(2) {
        assert!(pair[0].name <= pair[1].name);
    }
    assert_eq!(list[0].name, "DISM Restore");
    assert_eq!(list[10].name, "Windows Update cache");
}

#[test]
fn resolved_task_metadata() {
    let registry = TaskRegistry::new();
    let t = registry.resolve("desengordurar_telemetria").unwrap();
    assert_eq!(t.name, "Desativar telemetria");
    assert_eq!(t.risk, TaskRisk::Moderate);
    assert!(t.reversible);
    assert_eq!(t.rollback_strategy, "RestoreRegistry");
    assert_eq!(t.presets, vec!["normal".to_string(), "turbo".to_string()]);
    let heavy = registry.resolve("limpeza_pesada").unwrap();
    assert_eq!(heavy.dependencies, vec!["limpeza_media".to_string()]);
    assert_eq!(heavy.estimated_duration, 18);
}

#[test]
fn risk_labels_and_restore_points() {
    assert_eq!(TaskRisk::Safe.as_str(), "safe");
    assert_eq!(TaskRisk::Moderate.as_str(), "moderate");
    assert_eq!(TaskRisk::Advanced.as_str(), "advanced");
    assert!(!TaskRisk::Safe.requires_restore_point());
    assert!(TaskRisk::Moderate.requires_restore_point());
    assert!(TaskRisk::Advanced.requires_restore_point());
}

#[test]
fn default_registry_is_empty() {
    let registry = TaskRegistry::default();
    assert!(registry.list().is_empty());
    assert!(registry.resolve("limpeza_leve").is_none());
}

#[test]
fn catalog_ids_are_distinct() {
    let list = TaskRegistry::new().list();
    let mut ids: Vec<String> = list.iter().map(|t| t.id.clone()).collect();
    ids.sort();
    ids.dedup();
    assert_eq!(ids.len(), 11);
}
