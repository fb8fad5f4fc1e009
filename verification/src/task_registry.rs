//! The catalogue of maintenance tasks: their metadata, lookup by id, and
//! the presets that group them.

use vstd::prelude::*;
use crate::text::{text_eq, text_le, text_less, text_lt, lemma_text_lt_irreflexive, lemma_text_lt_transitive};

verus! {

broadcast use vstd::seq_lib::group_to_multiset_ensures;

/// What kind of maintenance a task performs.
#[derive(Clone, Copy, Debug, PartialEq, Eq, Structural)]
pub enum TaskCategory {
    Cleanup,
    Debloat,
    Diagnostic,
}

/// How much a task can disturb the system.
#[derive(Clone, Copy, Debug, PartialEq, Eq, Structural)]
pub enum TaskRisk {
    Safe,
    Moderate,
    Advanced,
}

impl TaskRisk {
    /// The lower-case label of the risk level.
    pub open spec fn label(self) -> Seq<char> {
        match self {
            TaskRisk::Safe => "safe"@,
            TaskRisk::Moderate => "moderate"@,
            TaskRisk::Advanced => "advanced"@,
        }
    }

    /// The lower-case label of the risk level.
    pub fn as_str(&self) -> (r: &'static str)
        ensures
            r@ == self.label(),
    {
        match self {
            TaskRisk::Safe => "safe",
            TaskRisk::Moderate => "moderate",
            TaskRisk::Advanced => "advanced",
        }
    }

    /// Every risk level above `Safe` asks for a restore point first.
    pub fn requires_restore_point(&self) -> (r: bool)
        ensures
            r == (*self != TaskRisk::Safe),
    {
        match self {
            TaskRisk::Safe => false,
            _ => true,
        }
    }
}

/// How a task is carried out.
#[derive(Clone, Copy, Debug, PartialEq, Eq, Structural)]
pub enum ExecutorType {
    Command,
    PowerShell,
    Sequence,
}

/// A maintenance task and its safety metadata.
#[derive(Debug, PartialEq, Eq)]
pub struct Task {
    pub id: String,
    pub name: String,
    pub description: String,
    pub category: TaskCategory,
    pub risk: TaskRisk,
    pub requires_admin: bool,
    pub estimated_duration: u32,
    pub reversible: bool,
    pub creates_restore_point: bool,
    pub rollback_strategy: String,
    pub rollback_on_failure: bool,
    pub dependencies: Vec<String>,
    pub executor: ExecutorType,
    pub presets: Vec<String>,
}

/// A task with its texts taken as character sequences.
#[verifier::ext_equal]
pub struct TaskView {
    pub id: Seq<char>,
    pub name: Seq<char>,
    pub description: Seq<char>,
    pub category: TaskCategory,
    pub risk: TaskRisk,
    pub requires_admin: bool,
    pub estimated_duration: u32,
    pub reversible: bool,
    pub creates_restore_point: bool,
    pub rollback_strategy: Seq<char>,
    pub rollback_on_failure: bool,
    pub dependencies: Seq<Seq<char>>,
    pub executor: ExecutorType,
    pub presets: Seq<Seq<char>>,
}

/// The characters of each text.
pub open spec fn texts_view(v: Seq<String>) -> Seq<Seq<char>> {
    v.map_values(|s: String| s@)
}

/// The characters of each text slice.
pub open spec fn strs_view(v: Seq<&str>) -> Seq<Seq<char>> {
    v.map_values(|s: &str| s@)
}

impl View for Task {
    type V = TaskView;

    open spec fn view(&self) -> TaskView {
        TaskView {
            id: self.id@,
            name: self.name@,
            description: self.description@,
            category: self.category,
            risk: self.risk,
            requires_admin: self.requires_admin,
            estimated_duration: self.estimated_duration,
            reversible: self.reversible,
            creates_restore_point: self.creates_restore_point,
            rollback_strategy: self.rollback_strategy@,
            rollback_on_failure: self.rollback_on_failure,
            dependencies: texts_view(self.dependencies@),
            executor: self.executor,
            presets: texts_view(self.presets@),
        }
    }
}

/// Copies a list of texts.
pub fn copy_texts(v: &Vec<String>) -> (r: Vec<String>)
    ensures
        texts_view(r@) == texts_view(v@),
{
    let mut r: Vec<String> = Vec::new();
    let mut i: usize = 0;
    while i < v.len()
        invariant
            i <= v.len(),
            r@.len() == i,
            forall|k: int| 0 <= k < i ==> (#[trigger] r@[k])@ == v@[k]@,
        decreases v.len() - i,
    {
        r.push(v[i].clone());
        i = i + 1;
    }
    assert(texts_view(r@) =~= texts_view(v@));
    r
}

/// Owned copies of text slices.
pub fn texts_from(v: &Vec<&str>) -> (r: Vec<String>)
    ensures
        texts_view(r@) == strs_view(v@),
{
    let mut r: Vec<String> = Vec::new();
    let mut i: usize = 0;
    while i < v.len()
        invariant
            i <= v.len(),
            r@.len() == i,
            forall|k: int| 0 <= k < i ==> (#[trigger] r@[k])@ == v@[k]@,
        decreases v.len() - i,
    {
        r.push(String::from_str(v[i]));
        i = i + 1;
    }
    assert(texts_view(r@) =~= strs_view(v@));
    r
}

impl Task {
    /// A copy of the task.
    pub fn duplicate(&self) -> (r: Task)
        ensures
            r@ == self@,
    {
        Task {
            id: self.id.clone(),
            name: self.name.clone(),
            description: self.description.clone(),
            category: self.category,
            risk: self.risk,
            requires_admin: self.requires_admin,
            estimated_duration: self.estimated_duration,
            reversible: self.reversible,
            creates_restore_point: self.creates_restore_point,
            rollback_strategy: self.rollback_strategy.clone(),
            rollback_on_failure: self.rollback_on_failure,
            dependencies: copy_texts(&self.dependencies),
            executor: self.executor,
            presets: copy_texts(&self.presets),
        }
    }
}

impl Clone for Task {
    fn clone(&self) -> (r: Self)
        ensures
            r@ == self@,
    {
        self.duplicate()
    }
}

/// A task built from its fields.
fn make_task(
    id: &str,
    name: &str,
    description: &str,
    category: TaskCategory,
    risk: TaskRisk,
    requires_admin: bool,
    estimated_duration: u32,
    reversible: bool,
    creates_restore_point: bool,
    rollback_strategy: &str,
    rollback_on_failure: bool,
    dependencies: Vec<&str>,
    executor: ExecutorType,
    presets: Vec<&str>,
) -> (t: Task)
    ensures
        t@ == (TaskView {
            id: id@,
            name: name@,
            description: description@,
            category,
            risk,
            requires_admin,
            estimated_duration,
            reversible,
            creates_restore_point,
            rollback_strategy: rollback_strategy@,
            rollback_on_failure,
            dependencies: strs_view(dependencies@),
            executor,
            presets: strs_view(presets@),
        }),
{
    Task {
        id: String::from_str(id),
        name: String::from_str(name),
        description: String::from_str(description),
        category,
        risk,
        requires_admin,
        estimated_duration,
        reversible,
        creates_restore_point,
        rollback_strategy: String::from_str(rollback_strategy),
        rollback_on_failure,
        dependencies: texts_from(&dependencies),
        executor,
        presets: texts_from(&presets),
    }
}

/// The tasks the application offers, in the order they are declared.
pub open spec fn catalog() -> Seq<TaskView> {
    seq![
        TaskView {
            id: "limpeza_leve"@,
            name: "Limpeza leve"@,
            description: "Remove temporários, caches descartáveis e lixeira."@,
            category: TaskCategory::Cleanup,
            risk: TaskRisk::Safe,
            requires_admin: false,
            estimated_duration: 6,
            reversible: false,
            creates_restore_point: false,
            rollback_strategy: "None"@,
            rollback_on_failure: false,
            dependencies: seq![],
            executor: ExecutorType::PowerShell,
            presets: seq!["express"@, "normal"@, "turbo"@],
        },
        TaskView {
            id: "limpeza_media"@,
            name: "Limpeza média"@,
            description: "Executa a limpeza padrão e o Disk Cleanup do Windows."@,
            category: TaskCategory::Cleanup,
            risk: TaskRisk::Moderate,
            requires_admin: false,
            estimated_duration: 12,
            reversible: false,
            creates_restore_point: false,
            rollback_strategy: "None"@,
            rollback_on_failure: false,
            dependencies: seq!["limpeza_leve"@],
            executor: ExecutorType::Sequence,
            presets: seq!["normal"@, "turbo"@],
        },
        TaskView {
            id: "limpeza_pesada"@,
            name: "Limpeza pesada"@,
            description: "Executa limpeza profunda com remoção extra de arquivos temporários."@,
            category: TaskCategory::Cleanup,
            risk: TaskRisk::Advanced,
            requires_admin: true,
            estimated_duration: 18,
            reversible: false,
            creates_restore_point: true,
            rollback_strategy: "RestorePoint"@,
            rollback_on_failure: true,
            dependencies: seq!["limpeza_media"@],
            executor: ExecutorType::Sequence,
            presets: seq!["turbo"@],
        },
        TaskView {
            id: "desengordurar_telemetria"@,
            name: "Desativar telemetria"@,
            description: "Reduz coleta de diagnósticos e políticas de privacidade do Windows."@,
            category: TaskCategory::Debloat,
            risk: TaskRisk::Moderate,
            requires_admin: true,
            estimated_duration: 7,
            reversible: true,
            creates_restore_point: true,
            rollback_strategy: "RestoreRegistry"@,
            rollback_on_failure: true,
            dependencies: seq![],
            executor: ExecutorType::PowerShell,
            presets: seq!["normal"@, "turbo"@],
        },
        TaskView {
            id: "desengordurar_tarefas"@,
            name: "Desabilitar tarefas de diagnóstico"@,
            description: "Desativa tarefas agendadas de coleta e compatibilidade."@,
            category: TaskCategory::Debloat,
            risk: TaskRisk::Moderate,
            requires_admin: true,
            estimated_duration: 6,
            reversible: true,
            creates_restore_point: true,
            rollback_strategy: "RestoreScheduledTask"@,
            rollback_on_failure: true,
            dependencies: seq![],
            executor: ExecutorType::PowerShell,
            presets: seq!["normal"@, "turbo"@],
        },
        TaskView {
            id: "diagnostico_dism_scan"@,
            name: "DISM Scan"@,
            description: "Verifica a integridade da imagem do sistema sem reparar."@,
            category: TaskCategory::Diagnostic,
            risk: TaskRisk::Safe,
            requires_admin: true,
            estimated_duration: 15,
            reversible: false,
            creates_restore_point: false,
            rollback_strategy: "None"@,
            rollback_on_failure: false,
            dependencies: seq![],
            executor: ExecutorType::Command,
            presets: seq!["normal"@, "turbo"@],
        },
        TaskView {
            id: "diagnostico_dism_restore"@,
            name: "DISM Restore"@,
            description: "Tenta reparar componentes do Windows usando a imagem do sistema."@,
            category: TaskCategory::Diagnostic,
            risk: TaskRisk::Advanced,
            requires_admin: true,
            estimated_duration: 30,
            reversible: false,
            creates_restore_point: true,
            rollback_strategy: "RestorePoint"@,
            rollback_on_failure: true,
            dependencies: seq!["diagnostico_dism_scan"@],
            executor: ExecutorType::Command,
            presets: seq!["turbo"@],
        },
        TaskView {
            id: "diagnostico_sfc"@,
            name: "SFC /scannow"@,
            description: "Verifica a integridade dos arquivos do sistema."@,
            category: TaskCategory::Diagnostic,
            risk: TaskRisk::Moderate,
            requires_admin: true,
            estimated_duration: 20,
            reversible: false,
            creates_restore_point: true,
            rollback_strategy: "RestorePoint"@,
            rollback_on_failure: true,
            dependencies: seq![],
            executor: ExecutorType::Command,
            presets: seq!["normal"@, "turbo"@],
        },
        TaskView {
            id: "diagnostico_informacoes"@,
            name: "Informações do sistema"@,
            description: "Resumem ambiente, hardware e sistema operacional."@,
            category: TaskCategory::Diagnostic,
            risk: TaskRisk::Safe,
            requires_admin: false,
            estimated_duration: 5,
            reversible: false,
            creates_restore_point: false,
            rollback_strategy: "None"@,
            rollback_on_failure: false,
            dependencies: seq![],
            executor: ExecutorType::Command,
            presets: seq!["express"@, "normal"@, "turbo"@],
        },
        TaskView {
            id: "desengordurar_telemetria_avancada"@,
            name: "Privacidade avançada"@,
            description: "Desativa serviços, políticas e recursos do Windows AI/Recall."@,
            category: TaskCategory::Debloat,
            risk: TaskRisk::Advanced,
            requires_admin: true,
            estimated_duration: 10,
            reversible: true,
            creates_restore_point: true,
            rollback_strategy: "RestoreRegistry"@,
            rollback_on_failure: true,
            dependencies: seq!["desengordurar_telemetria"@],
            executor: ExecutorType::PowerShell,
            presets: seq!["turbo"@],
        },
        TaskView {
            id: "limpeza_windows_update"@,
            name: "Windows Update cache"@,
            description: "Remove arquivos temporários de atualização do Windows com cuidado."@,
            category: TaskCategory::Cleanup,
            risk: TaskRisk::Moderate,
            requires_admin: true,
            estimated_duration: 9,
            reversible: false,
            creates_restore_point: false,
            rollback_strategy: "None"@,
            rollback_on_failure: false,
            dependencies: seq![],
            executor: ExecutorType::PowerShell,
            presets: seq!["normal"@, "turbo"@],
        },
    ]
}

/// The views of a list of tasks.
pub open spec fn task_views(s: Seq<Task>) -> Seq<TaskView> {
    s.map_values(|t: Task| t@)
}

/// The views of a list of borrowed tasks.
pub open spec fn task_ref_views(s: Seq<&Task>) -> Seq<TaskView> {
    s.map_values(|t: &Task| t@)
}

/// Tasks come in lexicographic order of their names.
pub open spec fn sorted_by_name(s: Seq<TaskView>) -> bool {
    forall|i: int, j: int| 0 <= i < j < s.len() ==> text_le(#[trigger] s[i].name, #[trigger] s[j].name)
}

/// The tasks of `s` that belong to `preset`, in their order in `s`.
pub open spec fn in_preset(s: Seq<TaskView>, preset: Seq<char>) -> Seq<TaskView>
    decreases s.len(),
{
    if s.len() == 0 {
        Seq::empty()
    } else if s.last().presets.contains(preset) {
        in_preset(s.drop_last(), preset).push(s.last())
    } else {
        in_preset(s.drop_last(), preset)
    }
}

/// Every task of a preset is a task of the list that belongs to the preset.
pub proof fn lemma_in_preset_members(s: Seq<TaskView>, preset: Seq<char>)
    ensures
        forall|i: int|
            0 <= i < in_preset(s, preset).len() ==> s.contains(#[trigger] in_preset(s, preset)[i])
                && in_preset(s, preset)[i].presets.contains(preset),
    decreases s.len(),
{
    if s.len() > 0 {
        lemma_in_preset_members(s.drop_last(), preset);
        let r = in_preset(s, preset);
        let q = in_preset(s.drop_last(), preset);
        assert forall|i: int| 0 <= i < r.len() implies s.contains(#[trigger] r[i]) && r[i].presets.contains(
            preset,
        ) by {
            if i < q.len() {
                assert(r[i] == q[i]);
                assert(s.drop_last().contains(q[i]));
                let k = choose|k: int| 0 <= k < s.drop_last().len() && s.drop_last()[k] == q[i];
                assert(s[k] == q[i]);
            } else {
                assert(s.last().presets.contains(preset));
                assert(r[i] == s.last());
                assert(s[s.len() - 1] == r[i]);
            }
        }
    }
}

/// Inserting an element into a sequence adds it to the sequence's multiset.
pub proof fn lemma_insert_multiset<A>(s: Seq<A>, p: int, x: A)
    requires
        0 <= p <= s.len(),
    ensures
        s.insert(p, x).to_multiset() == s.to_multiset().insert(x),
{
    let t = s.insert(p, x);
    assert(t.remove(p) =~= s);
    assert(t[p] == x);
    assert(t.contains(x));
    assert(t.to_multiset() =~= s.to_multiset().insert(x));
}

proof fn lemma_insert_keeps_sorted(s: Seq<TaskView>, p: int, x: TaskView)
    requires
        sorted_by_name(s),
        0 <= p <= s.len(),
        forall|k: int| 0 <= k < p ==> !text_lt(x.name, #[trigger] s[k].name),
        p < s.len() ==> text_lt(x.name, s[p].name),
    ensures
        sorted_by_name(s.insert(p, x)),
{
    let u = s.insert(p, x);
    assert forall|i: int, j: int| 0 <= i < j < u.len() implies text_le(#[trigger] u[i].name, #[trigger] u[j].name) by {
        if j < p {
            assert(u[i] == s[i] && u[j] == s[j]);
        } else if j == p {
            assert(u[i] == s[i]);
        } else if i == p {
            assert(u[j] == s[j - 1]);
            if text_lt(s[j - 1].name, x.name) {
                lemma_text_lt_transitive(s[j - 1].name, x.name, s[p].name);
                if j - 1 == p {
                    lemma_text_lt_irreflexive(s[p].name);
                } else {
                    assert(text_le(s[p].name, s[j - 1].name));
                }
            }
        } else if i < p {
            assert(u[i] == s[i] && u[j] == s[j - 1]);
        } else {
            assert(u[i] == s[i - 1] && u[j] == s[j - 1]);
        }
    }
}

/// Puts `t` into the name-ordered list `out`, after the tasks whose names
/// it does not precede.
fn insert_by_name<'a>(out: &mut Vec<&'a Task>, t: &'a Task)
    requires
        sorted_by_name(task_ref_views(old(out)@)),
    ensures
        sorted_by_name(task_ref_views(final(out)@)),
        task_ref_views(final(out)@).to_multiset() == task_ref_views(old(out)@).to_multiset().insert(t@),
{
    let ghost s = task_ref_views(out@);
    let mut p: usize = 0;
    while p < out.len()
        invariant
            p <= out.len(),
            s == task_ref_views(out@),
            forall|k: int| 0 <= k < p ==> !text_lt(t@.name, #[trigger] s[k].name),
        ensures
            p <= out.len(),
            s == task_ref_views(out@),
            forall|k: int| 0 <= k < p ==> !text_lt(t@.name, #[trigger] s[k].name),
            p < out.len() ==> text_lt(t@.name, s[p as int].name),
        decreases out.len() - p,
    {
        if text_less(t.name.as_str(), out[p].name.as_str()) {
            break;
        }
        p = p + 1;
    }
    proof {
        lemma_insert_keeps_sorted(s, p as int, t@);
        lemma_insert_multiset(s, p as int, t@);
    }
    out.insert(p, t);
    assert(task_ref_views(out@) =~= s.insert(p as int, t@));
}

/// The catalogue of tasks, looked up by id.
#[derive(Debug)]
pub struct TaskRegistry {
    tasks: Vec<Task>,
}

impl View for TaskRegistry {
    type V = Seq<TaskView>;

    closed spec fn view(&self) -> Seq<TaskView> {
        task_views(self.tasks@)
    }
}

impl Default for TaskRegistry {
    fn default() -> (r: Self)
        ensures
            r@ == Seq::<TaskView>::empty(),
    {
        let r = TaskRegistry { tasks: Vec::new() };
        assert(r@ =~= Seq::<TaskView>::empty());
        r
    }
}

impl TaskRegistry {
    /// The registry of every task the application offers.
    pub fn new() -> (r: Self)
        ensures
            r@ == catalog(),
    {
        let mut tasks: Vec<Task> = Vec::new();
        tasks.push(make_task(
            "limpeza_leve",
            "Limpeza leve",
            "Remove temporários, caches descartáveis e lixeira.",
            TaskCategory::Cleanup,
            TaskRisk::Safe,
            false,
            6,
            false,
            false,
            "None",
            false,
            vec![],
            ExecutorType::PowerShell,
            vec!["express", "normal", "turbo"],
        ));
        tasks.push(make_task(
            "limpeza_media",
            "Limpeza média",
            "Executa a limpeza padrão e o Disk Cleanup do Windows.",
            TaskCategory::Cleanup,
            TaskRisk::Moderate,
            false,
            12,
            false,
            false,
            "None",
            false,
            vec!["limpeza_leve"],
            ExecutorType::Sequence,
            vec!["normal", "turbo"],
        ));
        tasks.push(make_task(
            "limpeza_pesada",
            "Limpeza pesada",
            "Executa limpeza profunda com remoção extra de arquivos temporários.",
            TaskCategory::Cleanup,
            TaskRisk::Advanced,
            true,
            18,
            false,
            true,
            "RestorePoint",
            true,
            vec!["limpeza_media"],
            ExecutorType::Sequence,
            vec!["turbo"],
        ));
        tasks.push(make_task(
            "desengordurar_telemetria",
            "Desativar telemetria",
            "Reduz coleta de diagnósticos e políticas de privacidade do Windows.",
            TaskCategory::Debloat,
            TaskRisk::Moderate,
            true,
            7,
            true,
            true,
            "RestoreRegistry",
            true,
            vec![],
            ExecutorType::PowerShell,
            vec!["normal", "turbo"],
        ));
        tasks.push(make_task(
            "desengordurar_tarefas",
            "Desabilitar tarefas de diagnóstico",
            "Desativa tarefas agendadas de coleta e compatibilidade.",
            TaskCategory::Debloat,
            TaskRisk::Moderate,
            true,
            6,
            true,
            true,
            "RestoreScheduledTask",
            true,
            vec![],
            ExecutorType::PowerShell,
            vec!["normal", "turbo"],
        ));
        tasks.push(make_task(
            "diagnostico_dism_scan",
            "DISM Scan",
            "Verifica a integridade da imagem do sistema sem reparar.",
            TaskCategory::Diagnostic,
            TaskRisk::Safe,
            true,
            15,
            false,
            false,
            "None",
            false,
            vec![],
            ExecutorType::Command,
            vec!["normal", "turbo"],
        ));
        tasks.push(make_task(
            "diagnostico_dism_restore",
            "DISM Restore",
            "Tenta reparar componentes do Windows usando a imagem do sistema.",
            TaskCategory::Diagnostic,
            TaskRisk::Advanced,
            true,
            30,
            false,
            true,
            "RestorePoint",
            true,
            vec!["diagnostico_dism_scan"],
            ExecutorType::Command,
            vec!["turbo"],
        ));
        tasks.push(make_task(
            "diagnostico_sfc",
            "SFC /scannow",
            "Verifica a integridade dos arquivos do sistema.",
            TaskCategory::Diagnostic,
            TaskRisk::Moderate,
            true,
            20,
            false,
            true,
            "RestorePoint",
            true,
            vec![],
            ExecutorType::Command,
            vec!["normal", "turbo"],
        ));
        tasks.push(make_task(
            "diagnostico_informacoes",
            "Informações do sistema",
            "Resumem ambiente, hardware e sistema operacional.",
            TaskCategory::Diagnostic,
            TaskRisk::Safe,
            false,
            5,
            false,
            false,
            "None",
            false,
            vec![],
            ExecutorType::Command,
            vec!["express", "normal", "turbo"],
        ));
        tasks.push(make_task(
            "desengordurar_telemetria_avancada",
            "Privacidade avançada",
            "Desativa serviços, políticas e recursos do Windows AI/Recall.",
            TaskCategory::Debloat,
            TaskRisk::Advanced,
            true,
            10,
            true,
            true,
            "RestoreRegistry",
            true,
            vec!["desengordurar_telemetria"],
            ExecutorType::PowerShell,
            vec!["turbo"],
        ));
        tasks.push(make_task(
            "limpeza_windows_update",
            "Windows Update cache",
            "Remove arquivos temporários de atualização do Windows com cuidado.",
            TaskCategory::Cleanup,
            TaskRisk::Moderate,
            true,
            9,
            false,
            false,
            "None",
            false,
            vec![],
            ExecutorType::PowerShell,
            vec!["normal", "turbo"],
        ));
        let r = TaskRegistry { tasks };
        proof {
            let c = catalog();
            assert(r@.len() == c.len());
            assert(r@[0] =~= c[0]);
            assert(r@[1] =~= c[1]);
            assert(r@[2] =~= c[2]);
            assert(r@[3] =~= c[3]);
            assert(r@[4] =~= c[4]);
            assert(r@[5] =~= c[5]);
            assert(r@[6] =~= c[6]);
            assert(r@[7] =~= c[7]);
            assert(r@[8] =~= c[8]);
            assert(r@[9] =~= c[9]);
            assert(r@[10] =~= c[10]);
            assert(r@ =~= c);
        }
        r
    }

    /// The task with the given id, if the registry holds one.
    pub fn resolve(&self, task_id: &str) -> (r: Option<&Task>)
        ensures
            r is None <==> (forall|k: int| 0 <= k < self@.len() ==> self@[k].id != task_id@),
            r matches Some(t) ==> exists|k: int|
                0 <= k < self@.len() && self@[k].id == task_id@ && t@ == self@[k] && (forall|j: int|
                    0 <= j < k ==> self@[j].id != task_id@),
    {
        let mut i: usize = 0;
        while i < self.tasks.len()
            invariant
                i <= self.tasks.len(),
                self@.len() == self.tasks.len(),
                forall|j: int| 0 <= j < i ==> self@[j].id != task_id@,
            decreases self.tasks.len() - i,
        {
            assert(self@[i as int] == self.tasks@[i as int]@);
            if text_eq(self.tasks[i].id.as_str(), task_id) {
                assert(self@[i as int].id == task_id@);
                return Some(&self.tasks[i]);
            }
            i = i + 1;
        }
        None
    }

    /// Every task, in lexicographic order of their names.
    pub fn list(&self) -> (r: Vec<Task>)
        ensures
            sorted_by_name(task_views(r@)),
            task_views(r@).to_multiset() == self@.to_multiset(),
    {
        let mut refs: Vec<&Task> = Vec::new();
        let n = self.tasks.len();
        let mut i: usize = 0;
        assert(task_ref_views(refs@) =~= Seq::<TaskView>::empty());
        assert(self@.take(0) =~= Seq::<TaskView>::empty());
        while i < n
            invariant
                n == self.tasks.len(),
                self@.len() == n,
                i <= n,
                sorted_by_name(task_ref_views(refs@)),
                task_ref_views(refs@).to_multiset() == self@.take(i as int).to_multiset(),
            decreases n - i,
        {
            insert_by_name(&mut refs, &self.tasks[i]);
            assert(self@.take(i + 1) =~= self@.take(i as int).push(self@[i as int]));
            i = i + 1;
        }
        assert(self@.take(n as int) =~= self@);
        let mut out: Vec<Task> = Vec::new();
        let mut j: usize = 0;
        while j < refs.len()
            invariant
                j <= refs.len(),
                out@.len() == j,
                forall|k: int| 0 <= k < j ==> (#[trigger] out@[k])@ == refs@[k]@,
            decreases refs.len() - j,
        {
            out.push(refs[j].duplicate());
            j = j + 1;
        }
        assert(task_views(out@) =~= task_ref_views(refs@));
        out
    }

    /// The tasks of a preset, in lexicographic order of their names.
    pub fn preset_tasks(&self, preset: &str) -> (r: Vec<&Task>)
        ensures
            sorted_by_name(task_ref_views(r@)),
            task_ref_views(r@).to_multiset() == in_preset(self@, preset@).to_multiset(),
    {
        let mut refs: Vec<&Task> = Vec::new();
        let n = self.tasks.len();
        let mut i: usize = 0;
        assert(task_ref_views(refs@) =~= Seq::<TaskView>::empty());
        assert(self@.take(0) =~= Seq::<TaskView>::empty());
        while i < n
            invariant
                n == self.tasks.len(),
                self@.len() == n,
                i <= n,
                sorted_by_name(task_ref_views(refs@)),
                task_ref_views(refs@).to_multiset() == in_preset(self@.take(i as int), preset@).to_multiset(),
            decreases n - i,
        {
            let ghost before = self@.take(i as int);
            assert(self@.take(i + 1).drop_last() =~= before);
            if has_preset(&self.tasks[i], preset) {
                insert_by_name(&mut refs, &self.tasks[i]);
            }
            i = i + 1;
        }
        assert(self@.take(n as int) =~= self@);
        refs
    }
}

/// Whether the task belongs to the preset.
pub fn has_preset(t: &Task, preset: &str) -> (r: bool)
    ensures
        r == t@.presets.contains(preset@),
{
    let mut i: usize = 0;
    while i < t.presets.len()
        invariant
            i <= t.presets.len(),
            t@.presets.len() == t.presets.len(),
            forall|k: int| 0 <= k < i ==> t@.presets[k] != preset@,
        decreases t.presets.len() - i,
    {
        if text_eq(t.presets[i].as_str(), preset) {
            assert(t@.presets[i as int] == preset@);
            return true;
        }
        i = i + 1;
    }
    false
}

} // verus!
