//! What running a task means: the commands each task runs, how their output
//! and outcome are read, and the decisions taken around an execution.

use vstd::prelude::*;
use crate::scripts::{
    CLEANUP_HEAVY_TEMP_SCRIPT, CLEANUP_STANDARD_SCRIPT, CLEANUP_WINDOWS_UPDATE_SCRIPT,
    DISABLE_DIAGNOSTIC_TASKS_SCRIPT, DISABLE_TELEMETRY_SCRIPT,
};
use crate::safety::{
    change_id_text, executions_cancelled, executions_with_status, execution_id_text, first_status, journal_with_result,
    next_serial, opt_text, rollback_begin, rollback_finish, sole_active, text_result,
    ChangeRecord, ChangeRecordView, ExecutionHandle, ExecutionStateView, RollbackStatus, SafetyManager,
};
use crate::task_registry::{
    catalog, in_preset, sorted_by_name, strs_view, task_views, texts_from, texts_view, Task,
    TaskRegistry, TaskRisk, TaskView,
};
use crate::text::{join2, join3, join4, starts_with, text_eq, text_starts_with};

verus! {

/// A program to start, with its arguments.
pub struct CommandSpec {
    pub program: String,
    pub args: Vec<String>,
}

/// A command with its texts taken as character sequences.
#[verifier::ext_equal]
pub struct CommandView {
    pub program: Seq<char>,
    pub args: Seq<Seq<char>>,
}

impl View for CommandSpec {
    type V = CommandView;

    open spec fn view(&self) -> CommandView {
        CommandView { program: self.program@, args: texts_view(self.args@) }
    }
}

/// The views of a list of commands.
pub open spec fn command_views(s: Seq<CommandSpec>) -> Seq<CommandView> {
    s.map_values(|c: CommandSpec| c@)
}

/// A program with the given arguments.
pub open spec fn system_command_view(program: Seq<char>, args: Seq<Seq<char>>) -> CommandView {
    CommandView { program, args }
}

/// PowerShell, without profile and execution policy, running the script.
pub open spec fn powershell_view(script: Seq<char>) -> CommandView {
    system_command_view(
        "powershell"@,
        seq!["-NoProfile"@, "-ExecutionPolicy"@, "Bypass"@, "-Command"@, script],
    )
}

/// DISM on the running image with one cleanup-image operation.
pub open spec fn dism_view(operation: Seq<char>) -> CommandView {
    system_command_view("dism"@, seq!["/Online"@, "/Cleanup-Image"@, operation])
}

/// SFC, which scans and repairs the protected system files.
pub open spec fn sfc_view() -> CommandView {
    system_command_view("sfc"@, seq!["/scannow"@])
}

/// The commands a task runs, one after the other; `None` for a task that
/// has no implementation.
pub open spec fn plan_for(task_id: Seq<char>) -> Option<Seq<CommandView>> {
    if task_id == "limpeza_leve"@ {
        Some(seq![powershell_view(CLEANUP_STANDARD_SCRIPT@)])
    } else if task_id == "limpeza_media"@ {
        Some(
            seq![
                powershell_view(CLEANUP_STANDARD_SCRIPT@),
                system_command_view("cleanmgr"@, seq!["/sagerun:1"@]),
                powershell_view(CLEANUP_WINDOWS_UPDATE_SCRIPT@),
                dism_view("/ScanHealth"@),
            ],
        )
    } else if task_id == "limpeza_pesada"@ {
        Some(
            seq![
                powershell_view(CLEANUP_STANDARD_SCRIPT@),
                powershell_view(CLEANUP_HEAVY_TEMP_SCRIPT@),
                powershell_view(CLEANUP_WINDOWS_UPDATE_SCRIPT@),
                dism_view("/ScanHealth"@),
                dism_view("/StartComponentCleanup"@),
                dism_view("/RestoreHealth"@),
                sfc_view(),
            ],
        )
    } else if task_id == "desengordurar_telemetria"@ {
        Some(seq![powershell_view(DISABLE_TELEMETRY_SCRIPT@)])
    } else if task_id == "desengordurar_tarefas"@ {
        Some(seq![powershell_view(DISABLE_DIAGNOSTIC_TASKS_SCRIPT@)])
    } else if task_id == "limpeza_windows_update"@ {
        Some(seq![powershell_view(CLEANUP_WINDOWS_UPDATE_SCRIPT@)])
    } else if task_id == "diagnostico_dism_scan"@ {
        Some(seq![dism_view("/ScanHealth"@)])
    } else if task_id == "diagnostico_dism_restore"@ {
        Some(seq![dism_view("/RestoreHealth"@)])
    } else if task_id == "diagnostico_sfc"@ {
        Some(seq![sfc_view()])
    } else if task_id == "diagnostico_informacoes"@ {
        Some(seq![system_command_view("systeminfo"@, seq![])])
    } else {
        None
    }
}

/// A program with its arguments.
pub fn run_system_command(command_name: &str, args: &[&str]) -> (r: CommandSpec)
    ensures
        r@ == system_command_view(command_name@, strs_view(args@)),
{
    let mut list: Vec<&str> = Vec::new();
    let mut i: usize = 0;
    while i < args.len()
        invariant
            i <= args.len(),
            list@ == args@.take(i as int),
        decreases args.len() - i,
    {
        list.push(args[i]);
        assert(args@.take(i + 1) =~= args@.take(i as int).push(args@[i as int]));
        i = i + 1;
    }
    assert(args@.take(args.len() as int) =~= args@);
    let r = CommandSpec { program: String::from_str(command_name), args: texts_from(&list) };
    assert(r@ =~= system_command_view(command_name@, strs_view(args@)));
    r
}

/// PowerShell, without profile and execution policy, running the script.
pub fn run_powershell(script: &str) -> (r: CommandSpec)
    ensures
        r@ == powershell_view(script@),
{
    let r = run_system_command("powershell", &["-NoProfile", "-ExecutionPolicy", "Bypass", "-Command", script]);
    assert(r@ =~= powershell_view(script@));
    r
}

/// The standard cleanup: temporary files, browser caches, recent lists, recycle bin.
pub fn cleanup_standard() -> (r: CommandSpec)
    ensures
        r@ == powershell_view(CLEANUP_STANDARD_SCRIPT@),
{
    run_powershell(CLEANUP_STANDARD_SCRIPT)
}

/// The heavy cleanup of temporary files and crash reports.
pub fn cleanup_heavy_temp() -> (r: CommandSpec)
    ensures
        r@ == powershell_view(CLEANUP_HEAVY_TEMP_SCRIPT@),
{
    run_powershell(CLEANUP_HEAVY_TEMP_SCRIPT)
}

/// The cleanup of Windows Update's temporary downloads.
pub fn cleanup_windows_update() -> (r: CommandSpec)
    ensures
        r@ == powershell_view(CLEANUP_WINDOWS_UPDATE_SCRIPT@),
{
    run_powershell(CLEANUP_WINDOWS_UPDATE_SCRIPT)
}

/// Turning telemetry off.
pub fn disable_telemetry() -> (r: CommandSpec)
    ensures
        r@ == powershell_view(DISABLE_TELEMETRY_SCRIPT@),
{
    run_powershell(DISABLE_TELEMETRY_SCRIPT)
}

/// Disabling the diagnostic scheduled tasks.
pub fn disable_diagnostic_tasks() -> (r: CommandSpec)
    ensures
        r@ == powershell_view(DISABLE_DIAGNOSTIC_TASKS_SCRIPT@),
{
    run_powershell(DISABLE_DIAGNOSTIC_TASKS_SCRIPT)
}

fn dism(operation: &str) -> (r: CommandSpec)
    ensures
        r@ == dism_view(operation@),
{
    let r = run_system_command("dism", &["/Online", "/Cleanup-Image", operation]);
    assert(r@ =~= dism_view(operation@));
    r
}

fn sfc() -> (r: CommandSpec)
    ensures
        r@ == sfc_view(),
{
    let r = run_system_command("sfc", &["/scannow"]);
    assert(r@ =~= sfc_view());
    r
}

/// The commands that carry out the task, one after the other, or the
/// refusal of a task that has no implementation.
pub fn execution_plan(task: &Task) -> (r: Result<Vec<CommandSpec>, String>)
    ensures
        match (r, plan_for(task.id@)) {
            (Ok(cmds), Some(p)) => command_views(cmds@) == p,
            (Err(e), None) => e@ == "Task não implementada: "@ + task.id@,
            _ => false,
        },
{
    let id = task.id.as_str();
    let mut cmds: Vec<CommandSpec> = Vec::new();
    if text_eq(id, "limpeza_leve") {
        cmds.push(cleanup_standard());
        assert(command_views(cmds@) =~= plan_for(task.id@).unwrap());
    } else if text_eq(id, "limpeza_media") {
        cmds.push(cleanup_standard());
        let disk_cleanup = run_system_command("cleanmgr", &["/sagerun:1"]);
        assert(disk_cleanup@.args =~= seq!["/sagerun:1"@]);
        cmds.push(disk_cleanup);
        cmds.push(cleanup_windows_update());
        cmds.push(dism("/ScanHealth"));
        assert(command_views(cmds@) =~= plan_for(task.id@).unwrap());
    } else if text_eq(id, "limpeza_pesada") {
        cmds.push(cleanup_standard());
        cmds.push(cleanup_heavy_temp());
        cmds.push(cleanup_windows_update());
        cmds.push(dism("/ScanHealth"));
        cmds.push(dism("/StartComponentCleanup"));
        cmds.push(dism("/RestoreHealth"));
        cmds.push(sfc());
        assert(command_views(cmds@) =~= plan_for(task.id@).unwrap());
    } else if text_eq(id, "desengordurar_telemetria") {
        cmds.push(disable_telemetry());
        assert(command_views(cmds@) =~= plan_for(task.id@).unwrap());
    } else if text_eq(id, "desengordurar_tarefas") {
        cmds.push(disable_diagnostic_tasks());
        assert(command_views(cmds@) =~= plan_for(task.id@).unwrap());
    } else if text_eq(id, "limpeza_windows_update") {
        cmds.push(cleanup_windows_update());
        assert(command_views(cmds@) =~= plan_for(task.id@).unwrap());
    } else if text_eq(id, "diagnostico_dism_scan") {
        cmds.push(dism("/ScanHealth"));
        assert(command_views(cmds@) =~= plan_for(task.id@).unwrap());
    } else if text_eq(id, "diagnostico_dism_restore") {
        cmds.push(dism("/RestoreHealth"));
        assert(command_views(cmds@) =~= plan_for(task.id@).unwrap());
    } else if text_eq(id, "diagnostico_sfc") {
        cmds.push(sfc());
        assert(command_views(cmds@) =~= plan_for(task.id@).unwrap());
    } else if text_eq(id, "diagnostico_informacoes") {
        let info = run_system_command("systeminfo", &[]);
        assert(info@.args =~= Seq::<Seq<char>>::empty());
        cmds.push(info);
        assert(command_views(cmds@) =~= plan_for(task.id@).unwrap());
    } else {
        return Err(join2("Task não implementada: ", id));
    }
    Ok(cmds)
}

/// Outputs joined line by line.
pub open spec fn joined_lines(s: Seq<Seq<char>>) -> Seq<char>
    decreases s.len(),
{
    if s.len() == 0 {
        Seq::empty()
    } else if s.len() == 1 {
        s[0]
    } else {
        joined_lines(s.drop_last()) + seq!['\n'] + s.last()
    }
}

/// The outputs of a task's commands, one per line.
pub fn join_outputs(parts: &Vec<String>) -> (r: String)
    ensures
        r@ == joined_lines(texts_view(parts@)),
{
    proof {
        reveal_strlit("\n");
    }
    if parts.len() == 0 {
        return String::new();
    }
    let mut out = parts[0].clone();
    let mut i: usize = 1;
    assert(texts_view(parts@).take(1) =~= seq![parts@[0]@]);
    while i < parts.len()
        invariant
            1 <= i <= parts.len(),
            "\n"@ == seq!['\n'],
            out@ == joined_lines(texts_view(parts@).take(i as int)),
        decreases parts.len() - i,
    {
        let ghost t = texts_view(parts@).take(i + 1);
        assert(t.drop_last() =~= texts_view(parts@).take(i as int));
        out.append("\n");
        out.append(parts[i].as_str());
        assert(t.last() == parts@[i as int]@);
        assert(out@ =~= joined_lines(t.drop_last()) + seq!['\n'] + t.last());
        i = i + 1;
    }
    assert(texts_view(parts@).take(parts.len() as int) =~= texts_view(parts@));
    out
}

/// Adds one line of a command's output, with its line break.
pub fn append_output_line(output: &mut String, line: &str)
    ensures
        final(output)@ == old(output)@ + line@ + seq!['\n'],
{
    proof {
        reveal_strlit("\n");
    }
    output.append(line);
    output.append("\n");
}

/// The answer of a command that ended: its output, or the failure with it.
pub open spec fn command_outcome_view(command: Seq<char>, success: bool, output: Seq<char>) -> Result<
    Seq<char>,
    Seq<char>,
> {
    if success {
        Ok(output)
    } else {
        Err("Comando falhou ("@ + command + "):\n"@ + output)
    }
}

/// The answer of a command that ended: its output, or the failure with it.
pub fn command_outcome(command: &str, success: bool, output: String) -> (r: Result<String, String>)
    ensures
        text_result(r) == command_outcome_view(command@, success, output@),
{
    if success {
        Ok(output)
    } else {
        Err(join4("Comando falhou (", command, "):\n", output.as_str()))
    }
}

/// The error of a command stopped on request: cancelled, or the reason the
/// process tree could not be confirmed ended.
pub open spec fn cancellation_view(command: Seq<char>, termination: Result<(), Seq<char>>) -> Seq<char> {
    match termination {
        Ok(()) => "Comando cancelado: "@ + command,
        Err(e) => "Cancelamento não confirmado para "@ + command + ": "@ + e,
    }
}

/// The error of a command stopped on request.
pub fn cancellation_error(command: &str, termination: Result<(), String>) -> (r: String)
    ensures
        r@ == cancellation_view(
            command@,
            match termination {
                Ok(()) => Ok(()),
                Err(e) => Err(e@),
            },
        ),
{
    match termination {
        Ok(()) => join2("Comando cancelado: ", command),
        Err(e) => join4("Cancelamento não confirmado para ", command, ": ", e.as_str()),
    }
}

/// The error of a command that could not be started.
pub fn spawn_error(command: &str, error: &str) -> (r: String)
    ensures
        r@ == "Falha ao executar '"@ + command@ + "': "@ + error@,
{
    join4("Falha ao executar '", command, "': ", error)
}

/// The shutdown scheduled thirty seconds after a task ends.
pub open spec fn shutdown_view() -> CommandView {
    system_command_view(
        "shutdown"@,
        seq!["/s"@, "/t"@, "30"@, "/c"@, "Qboa Digital concluiu a tarefa."@],
    )
}

/// The shutdown scheduled thirty seconds after a task ends.
pub fn shutdown_command() -> (r: CommandSpec)
    ensures
        r@ == shutdown_view(),
{
    let r = run_system_command("shutdown", &["/s", "/t", "30", "/c", "Qboa Digital concluiu a tarefa."]);
    assert(r@ =~= shutdown_view());
    r
}

/// The command that ends a process together with every process it started.
pub open spec fn taskkill_view(pid: u32) -> CommandView {
    system_command_view("taskkill"@, seq!["/PID"@, crate::text::decimal_text(pid as nat), "/T"@, "/F"@])
}

/// The command that ends a process together with every process it started.
pub fn taskkill_command(pid: u32) -> (r: CommandSpec)
    ensures
        r@ == taskkill_view(pid),
{
    let mut args: Vec<String> = Vec::new();
    args.push(String::from_str("/PID"));
    args.push(crate::text::decimal(pid as u128));
    args.push(String::from_str("/T"));
    args.push(String::from_str("/F"));
    let r = CommandSpec { program: String::from_str("taskkill"), args };
    assert(r@ =~= taskkill_view(pid));
    r
}

/// The answer once the command that ends a process tree has run: the tree is
/// confirmed ended only where the command succeeded.
pub fn termination_outcome(success: bool) -> (r: Result<(), String>)
    ensures
        success ==> r is Ok,
        !success ==> (r matches Err(e) && e@ == "Não foi possível confirmar o encerramento da árvore de processos."@),
{
    if success {
        Ok(())
    } else {
        Err(String::from_str("Não foi possível confirmar o encerramento da árvore de processos."))
    }
}

/// What a command that ended answered, as text either way.
pub open spec fn outcome_text(o: Result<String, String>) -> Seq<char> {
    match o {
        Ok(t) => t@,
        Err(e) => e@,
    }
}

/// The commands of a plan ended, in order, with the outcomes: each was the
/// runner's answer for the command at its position, every one but the last
/// succeeded, and the run stopped early only at a failure.
pub open spec fn plan_outcomes<F: Fn(&CommandSpec) -> Result<String, String>>(
    run: &F,
    plan: Seq<CommandSpec>,
    outcomes: Seq<Result<String, String>>,
) -> bool {
    &&& outcomes.len() <= plan.len()
    &&& forall|i: int| 0 <= i < outcomes.len() ==> #[trigger] run.ensures((&plan[i],), outcomes[i])
    &&& forall|i: int| 0 <= i < outcomes.len() - 1 ==> (#[trigger] outcomes[i]) is Ok
    &&& outcomes.len() < plan.len() ==> outcomes.len() > 0 && outcomes.last() is Err
}

/// The answer of a plan whose commands ended with the outcomes: the failure
/// that stopped it, or every output joined, one per line.
pub open spec fn plan_answer(outcomes: Seq<Result<String, String>>) -> Result<Seq<char>, Seq<char>> {
    if outcomes.len() > 0 && outcomes.last() is Err {
        Err(outcome_text(outcomes.last()))
    } else {
        Ok(joined_lines(outcomes.map_values(|o: Result<String, String>| outcome_text(o))))
    }
}

/// Runs a plan's commands with `run`, one after the other, stopping at the
/// first that fails; the answer is that failure, or every output joined.
pub fn run_plan<F>(plan: &Vec<CommandSpec>, run: &F) -> (r: Result<String, String>) where
    F: Fn(&CommandSpec) -> Result<String, String>,

    requires
        forall|c: &CommandSpec| #[trigger] run.requires((c,)),
    ensures
        exists|outcomes: Seq<Result<String, String>>|
            #[trigger] plan_outcomes(run, plan@, outcomes) && text_result(r) == plan_answer(outcomes),
{
    let mut parts: Vec<String> = Vec::new();
    let ghost mut outcomes: Seq<Result<String, String>> = Seq::empty();
    let mut i: usize = 0;
    while i < plan.len()
        invariant
            i <= plan.len(),
            outcomes.len() == i,
            parts@.len() == i,
            forall|c: &CommandSpec| #[trigger] run.requires((c,)),
            forall|k: int| 0 <= k < i ==> #[trigger] run.ensures((&plan@[k],), outcomes[k]),
            forall|k: int| 0 <= k < i ==> #[trigger] outcomes[k] == Ok::<String, String>(parts@[k]),
        decreases plan.len() - i,
    {
        let o = run(&plan[i]);
        let ghost go = o;
        match o {
            Err(e) => {
                proof {
                    outcomes = outcomes.push(go);
                    assert(plan_outcomes(run, plan@, outcomes));
                }
                return Err(e);
            },
            Ok(p) => {
                parts.push(p);
                proof {
                    outcomes = outcomes.push(go);
                }
            },
        }
        i = i + 1;
    }
    let joined = join_outputs(&parts);
    proof {
        assert(plan_outcomes(run, plan@, outcomes));
        assert(outcomes.map_values(|o: Result<String, String>| outcome_text(o)) =~= texts_view(parts@));
        if outcomes.len() > 0 {
            assert(outcomes.last() is Ok);
        }
    }
    Ok(joined)
}

/// What a preset's runner does next: start the task, wait for the running
/// one to end, or stop.
pub enum PresetAction {
    Start(Task),
    Wait,
    Done,
}

/// A preset on its way: its tasks, and how many of them have been started.
pub struct PresetRun {
    pub tasks: Vec<Task>,
    pub started: usize,
}

impl PresetRun {
    /// A preset run that has started nothing yet.
    pub fn new(tasks: Vec<Task>) -> (r: PresetRun)
        ensures
            r.tasks@ == tasks@,
            r.started == 0,
    {
        PresetRun { tasks, started: 0 }
    }

    /// The next move, given whether a task is still running. The first task
    /// starts at once; each later one only once nothing is running; after
    /// the last has ended the run is over.
    pub fn poll(&mut self, busy: bool) -> (r: PresetAction)
        requires
            old(self).started <= old(self).tasks@.len(),
        ensures
            final(self).tasks@ == old(self).tasks@,
            final(self).started <= final(self).tasks@.len(),
            (old(self).started == 0 || !busy) && old(self).started < old(self).tasks@.len() ==> {
                &&& r matches PresetAction::Start(t) && t@ == old(self).tasks@[old(self).started as int]@
                &&& final(self).started == old(self).started + 1
            },
            old(self).started > 0 && busy ==> (r is Wait && final(self).started == old(self).started),
            (old(self).started == 0 || !busy) && old(self).started == old(self).tasks@.len() ==> (r is Done
                && final(self).started == old(self).started),
    {
        if self.started > 0 && busy {
            PresetAction::Wait
        } else if self.started < self.tasks.len() {
            let t = self.tasks[self.started].duplicate();
            self.started = self.started + 1;
            PresetAction::Start(t)
        } else {
            PresetAction::Done
        }
    }
}

/// The catalogue's task with the id, as a copy.
pub fn resolve_task(task_id: &str) -> (r: Option<Task>)
    ensures
        r is None <==> (forall|k: int| 0 <= k < catalog().len() ==> catalog()[k].id != task_id@),
        r matches Some(t) ==> exists|k: int|
            0 <= k < catalog().len() && catalog()[k].id == task_id@ && t@ == catalog()[k] && (forall|j: int|
                0 <= j < k ==> catalog()[j].id != task_id@),
{
    let registry = TaskRegistry::new();
    match registry.resolve(task_id) {
        Some(t) => Some(t.duplicate()),
        None => None,
    }
}

/// The label of the task's risk.
pub fn task_risk_label(task: &Task) -> (r: &'static str)
    ensures
        r@ == task.risk.label(),
{
    task.risk.as_str()
}

/// The task asks for a restore point before it runs.
pub open spec fn restore_point_required(t: TaskView) -> bool {
    t.creates_restore_point || t.risk != TaskRisk::Safe
}

/// Whether the task asks for a restore point before it runs.
pub fn needs_restore_point(task: &Task) -> (r: bool)
    ensures
        r == restore_point_required(task@),
{
    task.creates_restore_point || task.risk.requires_restore_point()
}

/// What the caller of a task learns once it has started.
pub struct TaskResult {
    pub ok: bool,
    pub output: String,
    pub task_id: String,
    pub execution_id: String,
    pub risk: String,
    pub restore_point_created: bool,
    pub change_id: Option<String>,
}

/// The answer to a request to run a task that has started.
pub fn task_result(task: &Task, execution_id: &str) -> (r: TaskResult)
    ensures
        r.ok,
        r.output@ == "Task iniciada: "@ + task.name@,
        r.task_id@ == task.id@,
        r.execution_id@ == execution_id@,
        r.risk@ == task.risk.label(),
        r.restore_point_created == restore_point_required(task@),
        r.change_id is None,
{
    TaskResult {
        ok: true,
        output: join2("Task iniciada: ", task.name.as_str()),
        task_id: task.id.clone(),
        execution_id: String::from_str(execution_id),
        risk: String::from_str(task_risk_label(task)),
        restore_point_created: needs_restore_point(task),
        change_id: None,
    }
}

/// The task a request names, or the refusal of an unknown id.
pub fn task_for_request(task_id: &str) -> (r: Result<Task, String>)
    ensures
        r is Err <==> (forall|k: int| 0 <= k < catalog().len() ==> catalog()[k].id != task_id@),
        r matches Err(e) ==> e@ == "Task desconhecida: "@ + task_id@,
        r matches Ok(t) ==> exists|k: int|
            0 <= k < catalog().len() && catalog()[k].id == task_id@ && t@ == catalog()[k] && (forall|j: int|
                0 <= j < k ==> catalog()[j].id != task_id@),
{
    match resolve_task(task_id) {
        Some(t) => Ok(t),
        None => Err(join2("Task desconhecida: ", task_id)),
    }
}

/// The tasks a preset runs, in lexicographic order of their names, or the
/// refusal of a preset that is unknown or empty.
pub fn preset_run_plan(preset_id: &str) -> (r: Result<Vec<Task>, String>)
    ensures
        r is Err <==> in_preset(catalog(), preset_id@).len() == 0,
        r matches Err(e) ==> e@ == "Preset desconhecido ou vazio: "@ + preset_id@,
        r matches Ok(v) ==> {
            &&& sorted_by_name(task_views(v@))
            &&& task_views(v@).to_multiset() == in_preset(catalog(), preset_id@).to_multiset()
        },
{
    broadcast use vstd::seq_lib::group_to_multiset_ensures;

    let registry = TaskRegistry::new();
    let refs = registry.preset_tasks(preset_id);
    let mut tasks: Vec<Task> = Vec::new();
    let mut i: usize = 0;
    while i < refs.len()
        invariant
            i <= refs.len(),
            tasks@.len() == i,
            forall|k: int| 0 <= k < i ==> (#[trigger] tasks@[k])@ == refs@[k]@,
        decreases refs.len() - i,
    {
        tasks.push(refs[i].duplicate());
        i = i + 1;
    }
    assert(task_views(tasks@) =~= refs@.map_values(|t: &Task| t@));
    if tasks.len() == 0 {
        assert(task_views(tasks@).to_multiset().len() == 0);
        return Err(join2("Preset desconhecido ou vazio: ", preset_id));
    }
    assert(task_views(tasks@).to_multiset().len() > 0);
    Ok(tasks)
}

/// The execution a cancel request names: the one given, or else the
/// task's only active execution.
pub open spec fn cancel_target(
    m: Map<Seq<char>, ExecutionStateView>,
    task_id: Seq<char>,
    execution_id: Option<Seq<char>>,
) -> Option<Seq<char>> {
    match execution_id {
        Some(e) => Some(e),
        None => sole_active(m, task_id),
    }
}

/// Asks for an execution to be cancelled. Without an execution id the task
/// must have exactly one active execution; the request is refused otherwise,
/// and where the execution is unknown.
pub fn cancel_task(safety: &mut SafetyManager, task_id: &str, execution_id: Option<String>) -> (r: Result<
    String,
    String,
>)
    requires
        old(safety).wf(),
    ensures
        final(safety).wf(),
        final(safety).journal_view() == old(safety).journal_view(),
        final(safety).serial() == old(safety).serial(),
        match cancel_target(old(safety).executions(), task_id@, opt_text(execution_id)) {
            None => {
                &&& text_result(r) == Err::<Seq<char>, Seq<char>>(
                    "Execution ID obrigatório quando há mais de uma execução: "@ + task_id@,
                )
                &&& final(safety).executions() == old(safety).executions()
            },
            Some(k) => if old(safety).executions().contains_key(k) {
                &&& text_result(r) == Ok::<Seq<char>, Seq<char>>(
                    "Tarefa marcada como cancelando: "@ + task_id@ + " ("@ + k + ")"@,
                )
                &&& final(safety).executions() == executions_cancelled(old(safety).executions(), k)
            } else {
                &&& text_result(r) == Err::<Seq<char>, Seq<char>>(
                    "Tarefa não encontrada para cancelamento: "@ + task_id@,
                )
                &&& final(safety).executions() == old(safety).executions()
            },
        },
{
    let execution_id = match execution_id {
        Some(e) => e,
        None => match safety.execution_for_task(task_id) {
            Some(e) => e,
            None => {
                return Err(join2("Execution ID obrigatório quando há mais de uma execução: ", task_id));
            },
        },
    };
    if safety.cancel_execution(execution_id.as_str()) {
        let head = join3("Tarefa marcada como cancelando: ", task_id, " (");
        Ok(join3(head.as_str(), execution_id.as_str(), ")"))
    } else {
        Err(join2("Tarefa não encontrada para cancelamento: ", task_id))
    }
}

/// One event to show while a task runs.
pub struct TaskEvent {
    pub event: String,
    pub message: String,
    pub ok: bool,
    pub progress: Option<String>,
}

/// An event with its texts taken as character sequences.
pub struct TaskEventView {
    pub event: Seq<char>,
    pub message: Seq<char>,
    pub ok: bool,
    pub progress: Option<Seq<char>>,
}

impl View for TaskEvent {
    type V = TaskEventView;

    open spec fn view(&self) -> TaskEventView {
        TaskEventView {
            event: self.event@,
            message: self.message@,
            ok: self.ok,
            progress: opt_text(self.progress),
        }
    }
}

/// An event.
pub open spec fn ev(event: Seq<char>, message: Seq<char>, ok: bool, progress: Option<Seq<char>>) -> TaskEventView {
    TaskEventView { event, message, ok, progress }
}

/// The event that announces the execution itself.
pub open spec fn progress_event() -> TaskEventView {
    ev("task-progress"@, "Preparando execução e monitorando riscos."@, true, Some("30%"@))
}

fn make_event(event: &str, message: &str, ok: bool, progress: Option<&str>) -> (r: TaskEvent)
    ensures
        r@ == ev(event@, message@, ok, crate::safety::opt_str(progress)),
{
    TaskEvent {
        event: String::from_str(event),
        message: String::from_str(message),
        ok,
        progress: match progress {
            Some(p) => Some(String::from_str(p)),
            None => None,
        },
    }
}

/// What the application must do next for a running task.
pub enum RunAction {
    CaptureSnapshot,
    CreateRestorePoint { reason: String },
    Execute,
    RestoreSnapshot { location: String, task_id: String },
    ScheduleShutdown,
    Stop,
}

/// A next action with its texts taken as character sequences.
pub enum RunActionView {
    CaptureSnapshot,
    CreateRestorePoint(Seq<char>),
    Execute,
    RestoreSnapshot(Seq<char>, Seq<char>),
    ScheduleShutdown,
    Stop,
}

impl View for RunAction {
    type V = RunActionView;

    open spec fn view(&self) -> RunActionView {
        match self {
            RunAction::CaptureSnapshot => RunActionView::CaptureSnapshot,
            RunAction::CreateRestorePoint { reason } => RunActionView::CreateRestorePoint(reason@),
            RunAction::Execute => RunActionView::Execute,
            RunAction::RestoreSnapshot { location, task_id } => RunActionView::RestoreSnapshot(
                location@,
                task_id@,
            ),
            RunAction::ScheduleShutdown => RunActionView::ScheduleShutdown,
            RunAction::Stop => RunActionView::Stop,
        }
    }
}

/// The next action and the events to show before it.
pub struct RunStep {
    pub action: RunAction,
    pub events: Vec<TaskEvent>,
}

/// A step with its texts taken as character sequences.
#[verifier::ext_equal]
pub struct RunStepView {
    pub action: RunActionView,
    pub events: Seq<TaskEventView>,
}

impl View for RunStep {
    type V = RunStepView;

    open spec fn view(&self) -> RunStepView {
        RunStepView { action: self.action@, events: self.events@.map_values(|e: TaskEvent| e@) }
    }
}

/// A step.
pub open spec fn step(action: RunActionView, events: Seq<TaskEventView>) -> RunStepView {
    RunStepView { action, events }
}

/// Where a running task waits.
#[derive(Clone, Copy, Debug, PartialEq, Eq, Structural)]
pub enum RunPhase {
    AwaitSnapshot,
    AwaitRestorePoint,
    AwaitExecution,
    AwaitRestore,
    AwaitShutdown,
    Done,
}

/// A task on its way through snapshot, restore point, execution, settlement
/// and, where asked, shutdown.
pub struct TaskRun {
    pub task: Task,
    pub execution_id: String,
    pub shutdown_on_complete: bool,
    pub snapshot_location: Option<String>,
    pub phase: RunPhase,
    pub failure: String,
    pub change: Option<ChangeRecord>,
    pub rollback_index: usize,
}

/// The reason given to the restore point taken before a task.
pub open spec fn restore_point_reason(name: Seq<char>) -> Seq<char> {
    "Qboa Digital — Antes da tarefa: "@ + name
}

/// After the snapshot: a restore point where the task asks for one, else
/// the execution, announced.
pub open spec fn prepare_stage(t: TaskView) -> (RunPhase, RunStepView) {
    if restore_point_required(t) {
        (RunPhase::AwaitRestorePoint, step(RunActionView::CreateRestorePoint(restore_point_reason(t.name)), seq![]))
    } else {
        (RunPhase::AwaitExecution, step(RunActionView::Execute, seq![progress_event()]))
    }
}

/// The first stage of a task: its snapshot where it is reversible.
pub open spec fn first_stage(t: TaskView) -> (RunPhase, RunStepView) {
    let started = ev("task-started"@, t.name, true, None);
    if t.reversible {
        (RunPhase::AwaitSnapshot, step(RunActionView::CaptureSnapshot, seq![started]))
    } else {
        let (phase, next) = prepare_stage(t);
        (phase, step(next.action, seq![started] + next.events))
    }
}

/// The change a run records in the journal with the given result.
pub open spec fn change_as_recorded(run: TaskRun, c: ChangeRecordView, result: Seq<char>) -> bool {
    &&& c.execution_id == run.execution_id@
    &&& c.task_id == run.task@.id
    &&& c.description == run.task@.name
    &&& c.backup_location == opt_text(run.snapshot_location)
    &&& c.reversible == run.task@.reversible
    &&& c.rollback_status == (if run.task@.reversible {
        RollbackStatus::RollbackAvailable
    } else {
        RollbackStatus::Irreversible
    })
    &&& c.result == result
}

/// The final status of a failed task whose rollback did not succeed.
pub open spec fn failure_label(status: Option<RollbackStatus>) -> Seq<char> {
    match status {
        Some(RollbackStatus::RollbackPartial) => "failed_rollback_partial"@,
        _ => "failed_rollback_error"@,
    }
}

fn failure_label_text(status: Option<RollbackStatus>) -> (r: &'static str)
    ensures
        r@ == failure_label(status),
{
    match status {
        Some(RollbackStatus::RollbackPartial) => "failed_rollback_partial",
        _ => "failed_rollback_error",
    }
}

/// The error event that ends a failed task.
pub open spec fn failure_event(error: Seq<char>, label: Seq<char>) -> TaskEventView {
    ev("task-error"@, error + " ("@ + label + ")"@, false, None)
}

/// The run was cancelled on request and the cancellation was confirmed.
pub open spec fn cancelled_path(m: Map<Seq<char>, ExecutionStateView>, execution_id: Seq<char>, error: Seq<char>) -> bool {
    &&& m.contains_key(execution_id)
    &&& m[execution_id].cancelled
    &&& !text_starts_with(error, "Cancelamento não confirmado"@)
}

/// A failed task is concluded: the change's result and the execution's
/// status become the label, and the error is shown with it.
pub open spec fn concluded(
    before: TaskRun,
    after: TaskRun,
    journal: Seq<ChangeRecordView>,
    safety_before: SafetyManager,
    safety_after: SafetyManager,
    r: RunStepView,
    label: Seq<char>,
) -> bool {
    &&& safety_after.journal_view() == journal_with_result(journal, after.change->0@.id, label)
    &&& safety_after.executions() == executions_with_status(
        safety_before.executions(),
        before.execution_id@,
        label,
    )
    &&& r == step(RunActionView::Stop, seq![failure_event(after.failure@, label)])
    &&& after.phase == RunPhase::Done
}

/// How a failed, uncancelled execution is settled: where the task asks for
/// it and is reversible, its change is rolled back (the restore is the next
/// action, or the refusal concludes the run); otherwise the run concludes as
/// failed.
pub open spec fn failure_settled(
    before: TaskRun,
    after: TaskRun,
    sb: SafetyManager,
    sa: SafetyManager,
    r: RunStepView,
) -> bool {
    let c = after.change->0@;
    let j1 = sb.journal_view().push(c);
    if before.task@.rollback_on_failure && before.task@.reversible {
        let (j2, b) = rollback_begin(j1, c.id);
        match b {
            Ok(i) => {
                &&& sa.journal_view() == j2
                &&& sa.executions() == sb.executions()
                &&& after.phase == RunPhase::AwaitRestore
                &&& after.rollback_index == i
                &&& r == step(
                    RunActionView::RestoreSnapshot(j1[i].backup_location->0, j1[i].task_id),
                    seq![],
                )
            },
            Err(_) => concluded(before, after, j2, sb, sa, r, failure_label(first_status(j2, c.id))),
        }
    } else {
        concluded(before, after, j1, sb, sa, r, "failed"@)
    }
}

/// Starts a task: registers its execution and tells what to do first.
pub fn start_task(safety: &mut SafetyManager, task: Task, shutdown_on_complete: bool) -> (r: (
    ExecutionHandle,
    TaskRun,
    RunStep,
))
    requires
        old(safety).wf(),
    ensures
        final(safety).wf(),
        exists|m: nat| r.0.execution_id@ == execution_id_text(m, old(safety).serial() as nat),
        r.0.task_id@ == task@.id,
        r.0.status@ == "running"@,
        !r.0.cancelled,
        final(safety).executions().dom() == old(safety).executions().dom().insert(r.0.execution_id@),
        final(safety).executions() == old(safety).executions().insert(
            r.0.execution_id@,
            final(safety).executions()[r.0.execution_id@],
        ),
        final(safety).executions()[r.0.execution_id@].task_id == task@.id,
        final(safety).executions()[r.0.execution_id@].status == "running"@,
        !final(safety).executions()[r.0.execution_id@].cancelled,
        final(safety).executions()[r.0.execution_id@].process_id is None,
        final(safety).journal_view() == old(safety).journal_view(),
        final(safety).serial() == next_serial(next_serial(old(safety).serial())),
        r.1.task@ == task@,
        r.1.execution_id@ == r.0.execution_id@,
        r.1.shutdown_on_complete == shutdown_on_complete,
        r.1.snapshot_location is None,
        r.1.change is None,
        (r.1.phase, r.2@) == first_stage(task@),
{
    let handle = safety.register_execution(task.id.as_str());
    let execution_id = handle.execution_id.clone();
    let mut run = TaskRun {
        task,
        execution_id,
        shutdown_on_complete,
        snapshot_location: None,
        phase: RunPhase::AwaitSnapshot,
        failure: String::new(),
        change: None,
        rollback_index: 0,
    };
    let started = make_event("task-started", run.task.name.as_str(), true, None);
    let mut events: Vec<TaskEvent> = Vec::new();
    events.push(started);
    if run.task.reversible {
        let r = RunStep { action: RunAction::CaptureSnapshot, events };
        assert(r@ =~= first_stage(run.task@).1);
        return (handle, run, r);
    }
    let next = run.prepare();
    let mut more = next.events;
    events.append(&mut more);
    let r = RunStep { action: next.action, events };
    assert(r@.events =~= first_stage(run.task@).1.events);
    (handle, run, r)
}

impl TaskRun {
    fn prepare(&mut self) -> (r: RunStep)
        ensures
            (final(self).phase, r@) == prepare_stage(old(self).task@),
            final(self).task == old(self).task,
            final(self).execution_id == old(self).execution_id,
            final(self).shutdown_on_complete == old(self).shutdown_on_complete,
            final(self).snapshot_location == old(self).snapshot_location,
            final(self).failure == old(self).failure,
            final(self).change == old(self).change,
            final(self).rollback_index == old(self).rollback_index,
    {
        let mut events: Vec<TaskEvent> = Vec::new();
        if needs_restore_point(&self.task) {
            self.phase = RunPhase::AwaitRestorePoint;
            let reason = join2("Qboa Digital — Antes da tarefa: ", self.task.name.as_str());
            let r = RunStep { action: RunAction::CreateRestorePoint { reason }, events };
            assert(r@ =~= prepare_stage(self.task@).1);
            r
        } else {
            self.phase = RunPhase::AwaitExecution;
            events.push(make_event(
                "task-progress",
                "Preparando execução e monitorando riscos.",
                true,
                Some("30%"),
            ));
            let r = RunStep { action: RunAction::Execute, events };
            assert(r@ =~= prepare_stage(self.task@).1);
            r
        }
    }

    fn stop() -> (r: RunStep)
        ensures
            r@ == step(RunActionView::Stop, seq![]),
    {
        let r = RunStep { action: RunAction::Stop, events: Vec::new() };
        assert(r@ =~= step(RunActionView::Stop, seq![]));
        r
    }

    /// The snapshot has been captured at the location, or could not be:
    /// a task without snapshot ends as failed and is never executed.
    pub fn on_snapshot(&mut self, safety: &mut SafetyManager, outcome: Result<String, String>) -> (r: RunStep)
        requires
            old(safety).wf(),
        ensures
            final(safety).wf(),
            final(self).task == old(self).task,
            final(self).execution_id == old(self).execution_id,
            final(self).shutdown_on_complete == old(self).shutdown_on_complete,
            final(self).failure == old(self).failure,
            final(self).change == old(self).change,
            final(self).rollback_index == old(self).rollback_index,
            final(safety).journal_view() == old(safety).journal_view(),
            final(safety).serial() == old(safety).serial(),
            old(self).phase != RunPhase::AwaitSnapshot ==> {
                &&& *final(self) == *old(self)
                &&& final(safety).executions() == old(safety).executions()
                &&& r@ == step(RunActionView::Stop, seq![])
            },
            old(self).phase == RunPhase::AwaitSnapshot ==> match outcome {
                Ok(location) => {
                    &&& final(self).snapshot_location == Some(location)
                    &&& (final(self).phase, r@) == prepare_stage(old(self).task@)
                    &&& final(safety).executions() == old(safety).executions()
                },
                Err(e) => {
                    &&& final(self).phase == RunPhase::Done
                    &&& final(self).snapshot_location == old(self).snapshot_location
                    &&& final(safety).executions() == executions_with_status(
                        old(safety).executions(),
                        old(self).execution_id@,
                        "failed"@,
                    )
                    &&& r@ == step(RunActionView::Stop, seq![ev("task-error"@, e@, false, None)])
                },
            },
    {
        if self.phase != RunPhase::AwaitSnapshot {
            return Self::stop();
        }
        match outcome {
            Ok(location) => {
                self.snapshot_location = Some(location);
                self.prepare()
            },
            Err(e) => {
                safety.finish_execution(self.execution_id.as_str(), "failed");
                self.phase = RunPhase::Done;
                let mut events: Vec<TaskEvent> = Vec::new();
                events.push(make_event("task-error", e.as_str(), false, None));
                let r = RunStep { action: RunAction::Stop, events };
                assert(r@ =~= step(RunActionView::Stop, seq![ev("task-error"@, e@, false, None)]));
                r
            },
        }
    }

    /// The restore point has been created, or could not be; the task runs either way.
    pub fn on_restore_point(&mut self, outcome: Result<String, String>) -> (r: RunStep)
        ensures
            old(self).phase != RunPhase::AwaitRestorePoint ==> {
                &&& *final(self) == *old(self)
                &&& r@ == step(RunActionView::Stop, seq![])
            },
            old(self).phase == RunPhase::AwaitRestorePoint ==> {
                &&& final(self).phase == RunPhase::AwaitExecution
                &&& final(self).task == old(self).task
                &&& final(self).execution_id == old(self).execution_id
                &&& final(self).snapshot_location == old(self).snapshot_location
                &&& final(self).shutdown_on_complete == old(self).shutdown_on_complete
                &&& final(self).failure == old(self).failure
                &&& final(self).change == old(self).change
                &&& final(self).rollback_index == old(self).rollback_index
                &&& r@ == step(
                    RunActionView::Execute,
                    seq![
                        match outcome {
                            Ok(point) => ev("restore-point-created"@, point@, true, Some("100%"@)),
                            Err(e) => ev("restore-point-error"@, e@, false, None),
                        },
                        progress_event(),
                    ],
                )
            },
    {
        if self.phase != RunPhase::AwaitRestorePoint {
            return Self::stop();
        }
        let mut events: Vec<TaskEvent> = Vec::new();
        match outcome {
            Ok(point) => events.push(make_event("restore-point-created", point.as_str(), true, Some("100%"))),
            Err(e) => events.push(make_event("restore-point-error", e.as_str(), false, None)),
        }
        events.push(make_event(
            "task-progress",
            "Preparando execução e monitorando riscos.",
            true,
            Some("30%"),
        ));
        self.phase = RunPhase::AwaitExecution;
        let r = RunStep { action: RunAction::Execute, events };
        assert(r@.events =~= seq![
            match outcome {
                Ok(point) => ev("restore-point-created"@, point@, true, Some("100%"@)),
                Err(e) => ev("restore-point-error"@, e@, false, None),
            },
            progress_event(),
        ]);
        r
    }

    fn conclude(&mut self, safety: &mut SafetyManager, label: &str) -> (r: RunStep)
        requires
            old(safety).wf(),
            old(self).change is Some,
        ensures
            final(safety).wf(),
            final(self).task == old(self).task,
            final(self).execution_id == old(self).execution_id,
            final(self).shutdown_on_complete == old(self).shutdown_on_complete,
            final(self).snapshot_location == old(self).snapshot_location,
            final(self).failure == old(self).failure,
            final(self).change == old(self).change,
            final(self).rollback_index == old(self).rollback_index,
            final(safety).serial() == old(safety).serial(),
            concluded(
                *old(self),
                *final(self),
                old(safety).journal_view(),
                *old(safety),
                *final(safety),
                r@,
                label@,
            ),
    {
        let change_id = match &self.change {
            Some(c) => c.id.clone(),
            None => String::new(),
        };
        safety.update_change_result(change_id.as_str(), label);
        safety.finish_execution(self.execution_id.as_str(), label);
        self.phase = RunPhase::Done;
        let message = join4(self.failure.as_str(), " (", label, ")");
        let mut events: Vec<TaskEvent> = Vec::new();
        events.push(make_event("task-error", message.as_str(), false, None));
        let r = RunStep { action: RunAction::Stop, events };
        assert(r@ =~= step(RunActionView::Stop, seq![failure_event(self.failure@, label@)]));
        r
    }

    /// The execution has ended with its output or its error. Success records
    /// the change as completed; a confirmed cancellation ends as cancelled;
    /// any other failure records the change as failed and is settled as
    /// `failure_settled` says.
    pub fn on_execution(&mut self, safety: &mut SafetyManager, outcome: Result<String, String>) -> (r: RunStep)
        requires
            old(safety).wf(),
        ensures
            final(safety).wf(),
            final(self).task == old(self).task,
            final(self).execution_id == old(self).execution_id,
            final(self).shutdown_on_complete == old(self).shutdown_on_complete,
            final(self).snapshot_location == old(self).snapshot_location,
            old(self).phase != RunPhase::AwaitExecution ==> {
                &&& *final(self) == *old(self)
                &&& final(safety).journal_view() == old(safety).journal_view()
                &&& final(safety).executions() == old(safety).executions()
                &&& final(safety).serial() == old(safety).serial()
                &&& r@ == step(RunActionView::Stop, seq![])
            },
            old(self).phase == RunPhase::AwaitExecution ==> match outcome {
                Ok(output) => {
                    &&& final(self).change is Some
                    &&& final(self).failure == old(self).failure
                    &&& final(self).rollback_index == old(self).rollback_index
                    &&& change_as_recorded(*old(self), final(self).change->0@, "completed"@)
                    &&& exists|m: nat| final(self).change->0@.id == change_id_text(m, old(safety).serial() as nat)
                    &&& final(safety).journal_view() == old(safety).journal_view().push(final(self).change->0@)
                    &&& final(safety).executions() == executions_with_status(
                        old(safety).executions(),
                        old(self).execution_id@,
                        "completed"@,
                    )
                    &&& final(safety).serial() == next_serial(next_serial(old(safety).serial()))
                    &&& final(self).phase == (if old(self).shutdown_on_complete {
                        RunPhase::AwaitShutdown
                    } else {
                        RunPhase::Done
                    })
                    &&& r@ == step(
                        if old(self).shutdown_on_complete {
                            RunActionView::ScheduleShutdown
                        } else {
                            RunActionView::Stop
                        },
                        seq![
                            ev("task-output"@, output@, true, Some("100%"@)),
                            ev("task-completed"@, "Tarefa concluída: "@ + old(self).task@.name, true, Some("100%"@)),
                        ],
                    )
                },
                Err(e) => if cancelled_path(old(safety).executions(), old(self).execution_id@, e@) {
                    &&& final(safety).journal_view() == old(safety).journal_view()
                    &&& final(safety).serial() == old(safety).serial()
                    &&& final(safety).executions() == executions_with_status(
                        old(safety).executions(),
                        old(self).execution_id@,
                        "cancelled"@,
                    )
                    &&& final(self).phase == RunPhase::Done
                    &&& final(self).change == old(self).change
                    &&& final(self).failure == old(self).failure
                    &&& final(self).rollback_index == old(self).rollback_index
                    &&& r@ == step(RunActionView::Stop, seq![ev("task-cancelled"@, e@, false, None)])
                } else {
                    &&& final(self).failure@ == e@
                    &&& final(self).phase != RunPhase::AwaitRestore ==> final(self).rollback_index
                        == old(self).rollback_index
                    &&& final(self).change is Some
                    &&& change_as_recorded(*old(self), final(self).change->0@, "failed"@)
                    &&& exists|m: nat| final(self).change->0@.id == change_id_text(m, old(safety).serial() as nat)
                    &&& final(safety).serial() == next_serial(next_serial(old(safety).serial()))
                    &&& failure_settled(*old(self), *final(self), *old(safety), *final(safety), r@)
                },
            },
    {
        if self.phase != RunPhase::AwaitExecution {
            return Self::stop();
        }
        let snapshot: Option<&str> = match &self.snapshot_location {
            Some(l) => Some(l.as_str()),
            None => None,
        };
        match outcome {
            Ok(output) => {
                let change = safety.record_change(
                    self.execution_id.as_str(),
                    self.task.id.as_str(),
                    self.task.name.as_str(),
                    self.task.reversible,
                    snapshot,
                    "completed",
                );
                self.change = Some(change);
                safety.finish_execution(self.execution_id.as_str(), "completed");
                let mut events: Vec<TaskEvent> = Vec::new();
                events.push(make_event("task-output", output.as_str(), true, Some("100%")));
                let done = join2("Tarefa concluída: ", self.task.name.as_str());
                events.push(make_event("task-completed", done.as_str(), true, Some("100%")));
                let action = if self.shutdown_on_complete {
                    self.phase = RunPhase::AwaitShutdown;
                    RunAction::ScheduleShutdown
                } else {
                    self.phase = RunPhase::Done;
                    RunAction::Stop
                };
                let r = RunStep { action, events };
                assert(r@.events =~= seq![
                    ev("task-output"@, output@, true, Some("100%"@)),
                    ev("task-completed"@, "Tarefa concluída: "@ + old(self).task@.name, true, Some("100%"@)),
                ]);
                r
            },
            Err(e) => {
                let cancelled = safety.is_cancelled(self.execution_id.as_str());
                if cancelled && !starts_with(e.as_str(), "Cancelamento não confirmado") {
                    safety.finish_execution(self.execution_id.as_str(), "cancelled");
                    self.phase = RunPhase::Done;
                    let mut events: Vec<TaskEvent> = Vec::new();
                    events.push(make_event("task-cancelled", e.as_str(), false, None));
                    let r = RunStep { action: RunAction::Stop, events };
                    assert(r@ =~= step(RunActionView::Stop, seq![ev("task-cancelled"@, e@, false, None)]));
                    return r;
                }
                let change = safety.record_change(
                    self.execution_id.as_str(),
                    self.task.id.as_str(),
                    self.task.name.as_str(),
                    self.task.reversible,
                    snapshot,
                    "failed",
                );
                let change_id = change.id.clone();
                self.change = Some(change);
                self.failure = e;
                if self.task.rollback_on_failure && self.task.reversible {
                    match safety.begin_rollback(change_id.as_str()) {
                        Ok(target) => {
                            self.phase = RunPhase::AwaitRestore;
                            self.rollback_index = target.index;
                            let r = RunStep {
                                action: RunAction::RestoreSnapshot {
                                    location: target.location,
                                    task_id: target.task_id,
                                },
                                events: Vec::new(),
                            };
                            assert(r@.events =~= Seq::<TaskEventView>::empty());
                            r
                        },
                        Err(_) => {
                            let status = safety.rollback_status(change_id.as_str());
                            self.conclude(safety, failure_label_text(status))
                        },
                    }
                } else {
                    self.conclude(safety, "failed")
                }
            },
        }
    }

    /// The snapshot of a failed task has been restored, or not: the run
    /// concludes as rolled back, or with the rollback's failure.
    pub fn on_restore(&mut self, safety: &mut SafetyManager, outcome: Result<String, String>) -> (r: RunStep)
        requires
            old(safety).wf(),
        ensures
            final(safety).wf(),
            final(safety).serial() == old(safety).serial(),
            final(self).task == old(self).task,
            final(self).execution_id == old(self).execution_id,
            final(self).shutdown_on_complete == old(self).shutdown_on_complete,
            final(self).snapshot_location == old(self).snapshot_location,
            final(self).failure == old(self).failure,
            final(self).change == old(self).change,
            final(self).rollback_index == old(self).rollback_index,
            (old(self).phase != RunPhase::AwaitRestore || old(self).change is None) ==> {
                &&& *final(self) == *old(self)
                &&& final(safety).journal_view() == old(safety).journal_view()
                &&& final(safety).executions() == old(safety).executions()
                &&& r@ == step(RunActionView::Stop, seq![])
            },
            (old(self).phase == RunPhase::AwaitRestore && old(self).change is Some) ==> ({
                let j3 = rollback_finish(
                    old(safety).journal_view(),
                    old(self).rollback_index as int,
                    text_result(outcome),
                );
                let label = if outcome is Ok {
                    "failed_and_rolled_back"@
                } else {
                    failure_label(first_status(j3, old(self).change->0@.id))
                };
                concluded(*old(self), *final(self), j3, *old(safety), *final(safety), r@, label)
            }),
    {
        if self.phase != RunPhase::AwaitRestore || self.change.is_none() {
            return Self::stop();
        }
        let change_id = match &self.change {
            Some(c) => c.id.clone(),
            None => String::new(),
        };
        let settled = safety.complete_rollback(self.rollback_index, outcome);
        if settled.is_ok() {
            self.conclude(safety, "failed_and_rolled_back")
        } else {
            let status = safety.rollback_status(change_id.as_str());
            self.conclude(safety, failure_label_text(status))
        }
    }

    /// The shutdown has been scheduled, or could not be.
    pub fn on_shutdown(&mut self, outcome: Result<(), String>) -> (r: RunStep)
        ensures
            old(self).phase != RunPhase::AwaitShutdown ==> {
                &&& *final(self) == *old(self)
                &&& r@ == step(RunActionView::Stop, seq![])
            },
            old(self).phase == RunPhase::AwaitShutdown ==> {
                &&& final(self).phase == RunPhase::Done
                &&& final(self).task == old(self).task
                &&& final(self).execution_id == old(self).execution_id
                &&& final(self).shutdown_on_complete == old(self).shutdown_on_complete
                &&& final(self).snapshot_location == old(self).snapshot_location
                &&& final(self).failure == old(self).failure
                &&& final(self).change == old(self).change
                &&& final(self).rollback_index == old(self).rollback_index
                &&& r@ == step(
                    RunActionView::Stop,
                    seq![
                        match outcome {
                            Ok(()) => ev(
                                "shutdown-scheduled"@,
                                "Desligamento agendado para daqui a 30 segundos."@,
                                true,
                                Some("100%"@),
                            ),
                            Err(e) => ev("shutdown-error"@, e@, false, None),
                        },
                    ],
                )
            },
    {
        if self.phase != RunPhase::AwaitShutdown {
            return Self::stop();
        }
        let mut events: Vec<TaskEvent> = Vec::new();
        match &outcome {
            Ok(()) => events.push(make_event(
                "shutdown-scheduled",
                "Desligamento agendado para daqui a 30 segundos.",
                true,
                Some("100%"),
            )),
            Err(e) => events.push(make_event("shutdown-error", e.as_str(), false, None)),
        }
        self.phase = RunPhase::Done;
        let r = RunStep { action: RunAction::Stop, events };
        assert(r@.events =~= seq![
            match outcome {
                Ok(()) => ev(
                    "shutdown-scheduled"@,
                    "Desligamento agendado para daqui a 30 segundos."@,
                    true,
                    Some("100%"@),
                ),
                Err(e) => ev("shutdown-error"@, e@, false, None),
            },
        ]);
        r
    }
}

} // verus!
