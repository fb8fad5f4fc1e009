//! Snapshots of the state a reversible task changes, and the decisions
//! around capturing and restoring them: which tasks may have one, which
//! script captures it, how it is checked, and the PowerShell commands that
//! restore state or create a restore point.

use vstd::prelude::*;
use crate::safety::{opt_text, text_result};
use crate::scripts::{DIAGNOSTIC_TASKS_SNAPSHOT_SCRIPT, RESTORE_SCRIPT, TELEMETRY_SNAPSHOT_SCRIPT};
use crate::text::{escape_single_quotes, join2, join4, quote_escaped, text_eq};

verus! {

/// A registry value as captured: where it lives, whether it exists, its
/// kind, and its value as JSON text.
#[derive(Debug, PartialEq, Eq)]
pub struct RegistrySnapshot {
    pub hive: String,
    pub path: String,
    pub value_name: String,
    pub exists: bool,
    pub value_type: Option<String>,
    pub value: Option<String>,
}

/// A service as captured.
#[derive(Debug, PartialEq, Eq)]
pub struct ServiceSnapshot {
    pub name: String,
    pub exists: bool,
    pub startup_type: Option<String>,
    pub state: Option<String>,
}

/// A scheduled task as captured.
#[derive(Debug, PartialEq, Eq)]
pub struct ScheduledTaskSnapshot {
    pub task_path: String,
    pub task_name: String,
    pub exists: bool,
    pub enabled: Option<bool>,
}

/// An optional Windows feature as captured.
#[derive(Debug, PartialEq, Eq)]
pub struct FeatureSnapshot {
    pub name: String,
    pub exists: bool,
    pub state: Option<String>,
}

/// Everything a strategy captures before a reversible task runs.
#[derive(Debug, PartialEq, Eq)]
pub struct SystemSnapshot {
    pub strategy: String,
    pub registry: Vec<RegistrySnapshot>,
    pub services: Vec<ServiceSnapshot>,
    pub scheduled_tasks: Vec<ScheduledTaskSnapshot>,
    pub features: Vec<FeatureSnapshot>,
}

pub struct RegistrySnapshotView {
    pub hive: Seq<char>,
    pub path: Seq<char>,
    pub value_name: Seq<char>,
    pub exists: bool,
    pub value_type: Option<Seq<char>>,
    pub value: Option<Seq<char>>,
}

pub struct ServiceSnapshotView {
    pub name: Seq<char>,
    pub exists: bool,
    pub startup_type: Option<Seq<char>>,
    pub state: Option<Seq<char>>,
}

pub struct ScheduledTaskSnapshotView {
    pub task_path: Seq<char>,
    pub task_name: Seq<char>,
    pub exists: bool,
    pub enabled: Option<bool>,
}

pub struct FeatureSnapshotView {
    pub name: Seq<char>,
    pub exists: bool,
    pub state: Option<Seq<char>>,
}

#[verifier::ext_equal]
pub struct SystemSnapshotView {
    pub strategy: Seq<char>,
    pub registry: Seq<RegistrySnapshotView>,
    pub services: Seq<ServiceSnapshotView>,
    pub scheduled_tasks: Seq<ScheduledTaskSnapshotView>,
    pub features: Seq<FeatureSnapshotView>,
}

impl View for RegistrySnapshot {
    type V = RegistrySnapshotView;

    open spec fn view(&self) -> RegistrySnapshotView {
        RegistrySnapshotView {
            hive: self.hive@,
            path: self.path@,
            value_name: self.value_name@,
            exists: self.exists,
            value_type: opt_text(self.value_type),
            value: opt_text(self.value),
        }
    }
}

impl View for ServiceSnapshot {
    type V = ServiceSnapshotView;

    open spec fn view(&self) -> ServiceSnapshotView {
        ServiceSnapshotView {
            name: self.name@,
            exists: self.exists,
            startup_type: opt_text(self.startup_type),
            state: opt_text(self.state),
        }
    }
}

impl View for ScheduledTaskSnapshot {
    type V = ScheduledTaskSnapshotView;

    open spec fn view(&self) -> ScheduledTaskSnapshotView {
        ScheduledTaskSnapshotView {
            task_path: self.task_path@,
            task_name: self.task_name@,
            exists: self.exists,
            enabled: self.enabled,
        }
    }
}

impl View for FeatureSnapshot {
    type V = FeatureSnapshotView;

    open spec fn view(&self) -> FeatureSnapshotView {
        FeatureSnapshotView { name: self.name@, exists: self.exists, state: opt_text(self.state) }
    }
}

impl View for SystemSnapshot {
    type V = SystemSnapshotView;

    open spec fn view(&self) -> SystemSnapshotView {
        SystemSnapshotView {
            strategy: self.strategy@,
            registry: self.registry@.map_values(|x: RegistrySnapshot| x@),
            services: self.services@.map_values(|x: ServiceSnapshot| x@),
            scheduled_tasks: self.scheduled_tasks@.map_values(|x: ScheduledTaskSnapshot| x@),
            features: self.features@.map_values(|x: FeatureSnapshot| x@),
        }
    }
}

/// Whether two optional texts are the same.
pub fn same_opt_text(a: &Option<String>, b: &Option<String>) -> (r: bool)
    ensures
        r == (opt_text(*a) == opt_text(*b)),
{
    match (a, b) {
        (Some(x), Some(y)) => text_eq(x.as_str(), y.as_str()),
        (None, None) => true,
        _ => false,
    }
}

impl RegistrySnapshot {
    /// Whether both capture the same state.
    pub fn same_state(&self, other: &Self) -> (r: bool)
        ensures
            r == (self@ == other@),
    {
        text_eq(self.hive.as_str(), other.hive.as_str()) && text_eq(self.path.as_str(), other.path.as_str())
            && text_eq(self.value_name.as_str(), other.value_name.as_str()) && self.exists == other.exists
            && same_opt_text(&self.value_type, &other.value_type) && same_opt_text(&self.value, &other.value)
    }
}

impl ServiceSnapshot {
    /// Whether both capture the same state.
    pub fn same_state(&self, other: &Self) -> (r: bool)
        ensures
            r == (self@ == other@),
    {
        text_eq(self.name.as_str(), other.name.as_str()) && self.exists == other.exists
            && same_opt_text(&self.startup_type, &other.startup_type) && same_opt_text(
            &self.state,
            &other.state,
        )
    }
}

impl ScheduledTaskSnapshot {
    /// Whether both capture the same state.
    pub fn same_state(&self, other: &Self) -> (r: bool)
        ensures
            r == (self@ == other@),
    {
        text_eq(self.task_path.as_str(), other.task_path.as_str()) && text_eq(
            self.task_name.as_str(),
            other.task_name.as_str(),
        ) && self.exists == other.exists && self.enabled == other.enabled
    }
}

impl FeatureSnapshot {
    /// Whether both capture the same state.
    pub fn same_state(&self, other: &Self) -> (r: bool)
        ensures
            r == (self@ == other@),
    {
        text_eq(self.name.as_str(), other.name.as_str()) && self.exists == other.exists
            && same_opt_text(&self.state, &other.state)
    }
}

fn same_registry(a: &Vec<RegistrySnapshot>, b: &Vec<RegistrySnapshot>) -> (r: bool)
    ensures
        r == (a@.map_values(|x: RegistrySnapshot| x@) == b@.map_values(|x: RegistrySnapshot| x@)),
{
    if a.len() != b.len() {
        assert(a@.map_values(|x: RegistrySnapshot| x@).len() != b@.map_values(|x: RegistrySnapshot| x@).len());
        return false;
    }
    let mut i: usize = 0;
    while i < a.len()
        invariant
            i <= a.len(),
            a.len() == b.len(),
            forall|k: int| 0 <= k < i ==> (#[trigger] a@[k])@ == b@[k]@,
        decreases a.len() - i,
    {
        if !a[i].same_state(&b[i]) {
            assert(a@.map_values(|x: RegistrySnapshot| x@)[i as int] != b@.map_values(|x: RegistrySnapshot| x@)[i as int]);
            return false;
        }
        i = i + 1;
    }
    assert(a@.map_values(|x: RegistrySnapshot| x@) =~= b@.map_values(|x: RegistrySnapshot| x@));
    true
}

fn same_services(a: &Vec<ServiceSnapshot>, b: &Vec<ServiceSnapshot>) -> (r: bool)
    ensures
        r == (a@.map_values(|x: ServiceSnapshot| x@) == b@.map_values(|x: ServiceSnapshot| x@)),
{
    if a.len() != b.len() {
        assert(a@.map_values(|x: ServiceSnapshot| x@).len() != b@.map_values(|x: ServiceSnapshot| x@).len());
        return false;
    }
    let mut i: usize = 0;
    while i < a.len()
        invariant
            i <= a.len(),
            a.len() == b.len(),
            forall|k: int| 0 <= k < i ==> (#[trigger] a@[k])@ == b@[k]@,
        decreases a.len() - i,
    {
        if !a[i].same_state(&b[i]) {
            assert(a@.map_values(|x: ServiceSnapshot| x@)[i as int] != b@.map_values(|x: ServiceSnapshot| x@)[i as int]);
            return false;
        }
        i = i + 1;
    }
    assert(a@.map_values(|x: ServiceSnapshot| x@) =~= b@.map_values(|x: ServiceSnapshot| x@));
    true
}

fn same_tasks(a: &Vec<ScheduledTaskSnapshot>, b: &Vec<ScheduledTaskSnapshot>) -> (r: bool)
    ensures
        r == (a@.map_values(|x: ScheduledTaskSnapshot| x@) == b@.map_values(|x: ScheduledTaskSnapshot| x@)),
{
    if a.len() != b.len() {
        assert(a@.map_values(|x: ScheduledTaskSnapshot| x@).len() != b@.map_values(|x: ScheduledTaskSnapshot| x@).len());
        return false;
    }
    let mut i: usize = 0;
    while i < a.len()
        invariant
            i <= a.len(),
            a.len() == b.len(),
            forall|k: int| 0 <= k < i ==> (#[trigger] a@[k])@ == b@[k]@,
        decreases a.len() - i,
    {
        if !a[i].same_state(&b[i]) {
            assert(a@.map_values(|x: ScheduledTaskSnapshot| x@)[i as int] != b@.map_values(|x: ScheduledTaskSnapshot| x@)[i as int]);
            return false;
        }
        i = i + 1;
    }
    assert(a@.map_values(|x: ScheduledTaskSnapshot| x@) =~= b@.map_values(|x: ScheduledTaskSnapshot| x@));
    true
}

fn same_features(a: &Vec<FeatureSnapshot>, b: &Vec<FeatureSnapshot>) -> (r: bool)
    ensures
        r == (a@.map_values(|x: FeatureSnapshot| x@) == b@.map_values(|x: FeatureSnapshot| x@)),
{
    if a.len() != b.len() {
        assert(a@.map_values(|x: FeatureSnapshot| x@).len() != b@.map_values(|x: FeatureSnapshot| x@).len());
        return false;
    }
    let mut i: usize = 0;
    while i < a.len()
        invariant
            i <= a.len(),
            a.len() == b.len(),
            forall|k: int| 0 <= k < i ==> (#[trigger] a@[k])@ == b@[k]@,
        decreases a.len() - i,
    {
        if !a[i].same_state(&b[i]) {
            assert(a@.map_values(|x: FeatureSnapshot| x@)[i as int] != b@.map_values(|x: FeatureSnapshot| x@)[i as int]);
            return false;
        }
        i = i + 1;
    }
    assert(a@.map_values(|x: FeatureSnapshot| x@) =~= b@.map_values(|x: FeatureSnapshot| x@));
    true
}

impl SystemSnapshot {
    /// Whether both snapshots capture the same state under the same strategy.
    pub fn same_state(&self, other: &Self) -> (r: bool)
        ensures
            r == (self@ == other@),
    {
        let r = text_eq(self.strategy.as_str(), other.strategy.as_str()) && same_registry(
            &self.registry,
            &other.registry,
        ) && same_services(&self.services, &other.services) && same_tasks(
            &self.scheduled_tasks,
            &other.scheduled_tasks,
        ) && same_features(&self.features, &other.features);
        if r {
            assert(self@ =~= other@);
        }
        r
    }
}

impl Default for SystemSnapshot {
    fn default() -> (r: Self)
        ensures
            r@.strategy == Seq::<char>::empty(),
            r@.registry.len() == 0,
            r@.services.len() == 0,
            r@.scheduled_tasks.len() == 0,
            r@.features.len() == 0,
    {
        SystemSnapshot {
            strategy: String::new(),
            registry: Vec::new(),
            services: Vec::new(),
            scheduled_tasks: Vec::new(),
            features: Vec::new(),
        }
    }
}

/// The snapshot strategy of a task; only the tasks listed here can be
/// captured and rolled back.
pub open spec fn strategy_of(task_id: Seq<char>) -> Option<Seq<char>> {
    if task_id == "desengordurar_telemetria"@ {
        Some("telemetry"@)
    } else if task_id == "desengordurar_tarefas"@ {
        Some("diagnostic_tasks"@)
    } else {
        None
    }
}

/// The snapshot strategy of a task, where it has one.
pub fn known_strategy(task_id: &str) -> (r: Option<&'static str>)
    ensures
        match r {
            Some(s) => strategy_of(task_id@) == Some(s@),
            None => strategy_of(task_id@) is None,
        },
{
    if text_eq(task_id, "desengordurar_telemetria") {
        Some("telemetry")
    } else if text_eq(task_id, "desengordurar_tarefas") {
        Some("diagnostic_tasks")
    } else {
        None
    }
}

/// The strategy for capturing a task's snapshot, or the refusal of a task
/// that has none.
pub fn snapshot_strategy(task_id: &str) -> (r: Result<&'static str, String>)
    ensures
        match r {
            Ok(s) => strategy_of(task_id@) == Some(s@),
            Err(e) => strategy_of(task_id@) is None && e@ == "Sem snapshot seguro para a tarefa: "@ + task_id@,
        },
{
    match known_strategy(task_id) {
        Some(s) => Ok(s),
        None => Err(join2("Sem snapshot seguro para a tarefa: ", task_id)),
    }
}

/// The strategy for restoring a task's snapshot, or the refusal of a task
/// that has none.
pub fn rollback_strategy(task_id: &str) -> (r: Result<&'static str, String>)
    ensures
        match r {
            Ok(s) => strategy_of(task_id@) == Some(s@),
            Err(e) => strategy_of(task_id@) is None && e@ == "Estratégia de rollback não permitida."@,
        },
{
    match known_strategy(task_id) {
        Some(s) => Ok(s),
        None => Err(String::from_str("Estratégia de rollback não permitida.")),
    }
}

/// The script that captures a strategy's state; empty for an unknown strategy.
pub open spec fn snapshot_script_of(strategy: Seq<char>) -> Seq<char> {
    if strategy == "telemetry"@ {
        TELEMETRY_SNAPSHOT_SCRIPT@
    } else if strategy == "diagnostic_tasks"@ {
        DIAGNOSTIC_TASKS_SNAPSHOT_SCRIPT@
    } else {
        ""@
    }
}

/// The script that captures a strategy's state.
pub fn snapshot_script(strategy: &str) -> (r: &'static str)
    ensures
        r@ == snapshot_script_of(strategy@),
{
    if text_eq(strategy, "telemetry") {
        TELEMETRY_SNAPSHOT_SCRIPT
    } else if text_eq(strategy, "diagnostic_tasks") {
        DIAGNOSTIC_TASKS_SNAPSHOT_SCRIPT
    } else {
        ""
    }
}

/// The script that puts back the state held in `$s`.
pub fn restore_script() -> (r: &'static str)
    ensures
        r@ == RESTORE_SCRIPT@,
{
    RESTORE_SCRIPT
}

/// A freshly captured snapshot must come from the strategy that was asked for.
pub fn check_captured_snapshot(snapshot: &SystemSnapshot, strategy: &str) -> (r: Result<(), String>)
    ensures
        match r {
            Ok(()) => snapshot@.strategy == strategy@,
            Err(e) => snapshot@.strategy != strategy@ && e@ == "Snapshot retornou estratégia inesperada."@,
        },
{
    if text_eq(snapshot.strategy.as_str(), strategy) {
        Ok(())
    } else {
        Err(String::from_str("Snapshot retornou estratégia inesperada."))
    }
}

/// A stored snapshot must belong to the strategy of the change it restores.
pub fn check_stored_snapshot(snapshot: &SystemSnapshot, strategy: &str) -> (r: Result<(), String>)
    ensures
        match r {
            Ok(()) => snapshot@.strategy == strategy@,
            Err(e) => snapshot@.strategy != strategy@ && e@ == "Snapshot e estratégia não correspondem."@,
        },
{
    if text_eq(snapshot.strategy.as_str(), strategy) {
        Ok(())
    } else {
        Err(String::from_str("Snapshot e estratégia não correspondem."))
    }
}

/// A restore counts as done only when the state read back afterwards is
/// the snapshot itself; otherwise the rollback is partial.
pub fn validate_restored(before: &SystemSnapshot, after: &SystemSnapshot) -> (r: Result<String, String>)
    ensures
        text_result(r) == (if after@ == before@ {
            Ok::<Seq<char>, Seq<char>>("Rollback aplicado e validado."@)
        } else {
            Err::<Seq<char>, Seq<char>>("Rollback parcial: validação não corresponde ao snapshot."@)
        }),
{
    if after.same_state(before) {
        Ok(String::from_str("Rollback aplicado e validado."))
    } else {
        Err(String::from_str("Rollback parcial: validação não corresponde ao snapshot."))
    }
}

/// The PowerShell command that restores the snapshot given as JSON text.
pub fn restore_command(encoded: &str) -> (r: String)
    ensures
        r@ == "$s=ConvertFrom-Json -InputObject '"@ + quote_escaped(encoded@) + "';"@ + RESTORE_SCRIPT@,
{
    let escaped = escape_single_quotes(encoded);
    join4("$s=ConvertFrom-Json -InputObject '", escaped.as_str(), "';", restore_script())
}

/// The PowerShell command that restores the snapshot given as JSON text.
pub open spec fn restore_command_view(encoded: Seq<char>) -> Seq<char> {
    "$s=ConvertFrom-Json -InputObject '"@ + quote_escaped(encoded) + "';"@ + RESTORE_SCRIPT@
}

/// The answer once a restore script has ended: nothing where it succeeded,
/// else the failure with what it reported.
pub open spec fn restore_script_view(success: bool, output: Seq<char>) -> Result<(), Seq<char>> {
    if success {
        Ok(())
    } else {
        Err("Rollback falhou: "@ + output)
    }
}

/// The answer once a restore script has ended.
pub fn restore_script_outcome(success: bool, output: &str) -> (r: Result<(), String>)
    ensures
        match r {
            Ok(()) => restore_script_view(success, output@) == Ok::<(), Seq<char>>(()),
            Err(e) => restore_script_view(success, output@) == Err::<(), Seq<char>>(e@),
        },
{
    if success {
        Ok(())
    } else {
        Err(join2("Rollback falhou: ", output))
    }
}

/// What a snapshot's restore asks for next: the stored snapshot read from
/// its location, a restore command run, the state captured again under a
/// strategy, or nothing more, with the restore's answer.
pub enum RestoreStep {
    Load(String),
    Execute(String),
    Capture(String),
    Done(Result<String, String>),
}

/// A snapshot's restore on its way: the strategy of the task it belongs to,
/// and the stored snapshot once it has been read and checked.
pub struct RestoreRun {
    pub strategy: String,
    pub before: Option<SystemSnapshot>,
}

/// The restore answers `outcome` and asks for nothing more.
pub open spec fn done_with(step: RestoreStep, outcome: Result<Seq<char>, Seq<char>>) -> bool {
    step matches RestoreStep::Done(r) && text_result(r) == outcome
}

/// Starts the restore of the snapshot kept at `location` for the task. A
/// task without a rollback strategy is refused before anything is read;
/// otherwise the stored snapshot is to be read.
pub fn begin_restore(location: String, task_id: &str) -> (r: (RestoreRun, RestoreStep))
    ensures
        strategy_of(task_id@) is None ==> done_with(r.1, Err("Estratégia de rollback não permitida."@)),
        strategy_of(task_id@) matches Some(st) ==> {
            &&& r.0.strategy@ == st
            &&& r.0.before is None
            &&& r.1 matches RestoreStep::Load(l) && l@ == location@
        },
{
    match rollback_strategy(task_id) {
        Err(e) => (RestoreRun { strategy: String::new(), before: None }, RestoreStep::Done(Err(e))),
        Ok(st) => (RestoreRun { strategy: String::from_str(st), before: None }, RestoreStep::Load(location)),
    }
}

impl RestoreRun {
    /// The stored snapshot has been read (with its JSON text), or could
    /// not be. A snapshot of another strategy is refused; otherwise the
    /// command that restores it is to be run. Only then is a command asked for.
    pub fn on_loaded(&mut self, loaded: Result<(SystemSnapshot, String), String>) -> (r: RestoreStep)
        ensures
            final(self).strategy@ == old(self).strategy@,
            match loaded {
                Err(e) => done_with(r, Err(e@)) && final(self).before == old(self).before,
                Ok((snap, encoded)) => if snap@.strategy != old(self).strategy@ {
                    done_with(r, Err("Snapshot e estratégia não correspondem."@)) && final(self).before
                        == old(self).before
                } else {
                    &&& r matches RestoreStep::Execute(c) && c@ == restore_command_view(encoded@)
                    &&& final(self).before matches Some(b) && b@ == snap@
                },
            },
    {
        match loaded {
            Err(e) => RestoreStep::Done(Err(e)),
            Ok((snap, encoded)) => match check_stored_snapshot(&snap, self.strategy.as_str()) {
                Err(e) => RestoreStep::Done(Err(e)),
                Ok(()) => {
                    let command = restore_command(encoded.as_str());
                    self.before = Some(snap);
                    RestoreStep::Execute(command)
                },
            },
        }
    }

    /// The restore command has ended with its success flag and output, or
    /// could not start. A failure ends the restore; otherwise the state is
    /// to be captured again under the strategy.
    pub fn on_executed(&self, executed: Result<(bool, String), String>) -> (r: RestoreStep)
        ensures
            match executed {
                Err(e) => done_with(r, Err(e@)),
                Ok((success, output)) => if success {
                    r matches RestoreStep::Capture(st) && st@ == self.strategy@
                } else {
                    done_with(r, Err("Rollback falhou: "@ + output@))
                },
            },
    {
        match executed {
            Err(e) => RestoreStep::Done(Err(e)),
            Ok((success, output)) => match restore_script_outcome(success, output.as_str()) {
                Err(e) => RestoreStep::Done(Err(e)),
                Ok(()) => RestoreStep::Capture(String::from_str(self.strategy.as_str())),
            },
        }
    }

    /// The state has been captured again, or could not be. The restore is
    /// done where the state read back equals the stored snapshot, partial
    /// otherwise.
    pub fn on_captured(&self, captured: Result<SystemSnapshot, String>) -> (r: RestoreStep)
        requires
            self.before is Some,
        ensures
            match captured {
                Err(e) => done_with(r, Err(e@)),
                Ok(after) => done_with(
                    r,
                    if after@ == self.before->0@ {
                        Ok::<Seq<char>, Seq<char>>("Rollback aplicado e validado."@)
                    } else {
                        Err::<Seq<char>, Seq<char>>("Rollback parcial: validação não corresponde ao snapshot."@)
                    },
                ),
            },
    {
        match captured {
            Err(e) => RestoreStep::Done(Err(e)),
            Ok(after) => {
                let before = self.before.as_ref().unwrap();
                RestoreStep::Done(validate_restored(before, &after))
            },
        }
    }
}

/// The PowerShell command that creates a restore point with the reason.
pub fn restore_point_command(reason: &str) -> (r: String)
    ensures
        r@ == "Checkpoint-Computer -Description '"@ + quote_escaped(reason@)
            + "' -RestorePointType 'MODIFY_SETTINGS' -ErrorAction Stop"@,
{
    let escaped = escape_single_quotes(reason);
    crate::text::join3(
        "Checkpoint-Computer -Description '",
        escaped.as_str(),
        "' -RestorePointType 'MODIFY_SETTINGS' -ErrorAction Stop",
    )
}

/// How a created restore point is named to the user.
pub fn restore_point_label(reason: &str) -> (r: String)
    ensures
        r@ == "Windows Restore Point: "@ + reason@,
{
    join2("Windows Restore Point: ", reason)
}

/// The answer once the command that creates a restore point has ended: the
/// point's label where it succeeded, else the failure with what it reported.
pub open spec fn restore_point_outcome_view(reason: Seq<char>, success: bool, detail: Seq<char>) -> Result<
    Seq<char>,
    Seq<char>,
> {
    if success {
        Ok("Windows Restore Point: "@ + reason)
    } else {
        Err("Falha ao criar ponto de restauração: "@ + detail)
    }
}

/// The answer once the command that creates a restore point has ended, or
/// could not start (`success` false, `detail` the reason).
pub fn restore_point_outcome(reason: &str, success: bool, detail: &str) -> (r: Result<String, String>)
    ensures
        text_result(r) == restore_point_outcome_view(reason@, success, detail@),
{
    if success {
        Ok(restore_point_label(reason))
    } else {
        Err(join2("Falha ao criar ponto de restauração: ", detail))
    }
}

/// The file name under which a task's snapshot is kept.
pub fn snapshot_file_name(task_id: &str, unique: &str) -> (r: String)
    ensures
        r@ == "snapshot-"@ + task_id@ + "-"@ + unique@ + ".json"@,
{
    let head = join4("snapshot-", task_id, "-", unique);
    join2(head.as_str(), ".json")
}

} // verus!
