use vstd::prelude::*;

use crate::text::views;

verus! {

/// One task of a workflow: the action it runs and the data it needs.
///
/// The maps of a task are held as vectors of (key, value) pairs, in the order in which
/// they are walked.
#[derive(Debug)]
pub struct Task {
    /// The platform the action runs on (`OpenWhisk` or `Polkadot`, in any letter case).
    pub kind: String,
    /// The name of the deployed action.
    pub action_name: String,
    /// The input fields of the task: (field name, Rust type).
    pub input_args: Vec<(String, String)>,
    /// The attributes of the task's main struct: (key, value).
    pub attributes: Vec<(String, String)>,
    /// The tasks that the task depends on, each with the field pairs it receives from it:
    /// (task name, [(own field, field of the other task)]).
    pub depend_on: Vec<(String, Vec<(String, String)>)>,
}

/// A named, versioned workflow: its tasks by name.
#[derive(Debug)]
pub struct Workflow {
    pub name: String,
    pub version: String,
    pub tasks: Vec<(String, Task)>,
}

/// Why a request to the composer was refused.
#[derive(Debug, Clone, Copy, PartialEq, Eq, Structural)]
pub enum ComposerError {
    /// A workflow of that name is already held.
    DuplicateWorkflowName,
    /// The workflow name is empty.
    EmptyWorkflowName,
    /// The task kind names no supported platform.
    NotFound,
}

impl ComposerError {
    /// The message that describes the error.
    pub fn message(&self) -> (msg: String)
        ensures
            msg@ == match *self {
                ComposerError::DuplicateWorkflowName => "Workflows should not have same name"@,
                ComposerError::EmptyWorkflowName => "Workflow name should not be empty"@,
                ComposerError::NotFound => "entity not found"@,
            },
    {
        match *self {
            ComposerError::DuplicateWorkflowName => String::from_str("Workflows should not have same name"),
            ComposerError::EmptyWorkflowName => String::from_str("Workflow name should not be empty"),
            ComposerError::NotFound => String::from_str("entity not found"),
        }
    }
}

/// The composer: the configuration files it was given and the workflows they declare.
#[derive(Debug)]
pub struct Composer {
    pub config_files: Vec<String>,
    pub workflows: Vec<Workflow>,
    pub custom_types: Vec<(String, String)>,
}

/// Whether some workflow in `workflows` is named `name`.
pub open spec fn has_workflow_named(workflows: Seq<Workflow>, name: Seq<char>) -> bool {
    exists|i: int| 0 <= i < workflows.len() && #[trigger] workflows[i].name@ == name
}

/// What `add_workflow` answers when asked to add a workflow called `name` to `workflows`.
pub open spec fn add_workflow_outcome(workflows: Seq<Workflow>, name: Seq<char>) -> Result<(), ComposerError> {
    if has_workflow_named(workflows, name) {
        Err(ComposerError::DuplicateWorkflowName)
    } else if name.len() == 0 {
        Err(ComposerError::EmptyWorkflowName)
    } else {
        Ok(())
    }
}

/// No two entries of `m` share a key: what a map guarantees, for a map held as a
/// vector of (key, value) pairs.
pub open spec fn distinct_keys<V>(m: Seq<(String, V)>) -> bool {
    forall|i: int, j: int| 0 <= i < j < m.len() ==> #[trigger] m[i].0@ != #[trigger] m[j].0@
}

/// The maps of a task hold each key once: its input fields, its attributes, the tasks it
/// depends on, and the fields it reads from each of them.
pub open spec fn task_wf(task: Task) -> bool {
    &&& distinct_keys(task.input_args@)
    &&& distinct_keys(task.attributes@)
    &&& distinct_keys(task.depend_on@)
    &&& forall|j: int| 0 <= j < task.depend_on@.len() ==> distinct_keys(#[trigger] task.depend_on@[j].1@)
}

/// The tasks of a workflow have distinct names, and each task's maps hold each key once.
pub open spec fn tasks_wf(tasks: Seq<(String, Task)>) -> bool {
    &&& distinct_keys(tasks)
    &&& forall|i: int| 0 <= i < tasks.len() ==> task_wf(#[trigger] tasks[i].1)
}

/// The workflows have non-empty names, no two alike.
pub open spec fn workflows_wf(workflows: Seq<Workflow>) -> bool {
    &&& forall|i: int| 0 <= i < workflows.len() ==> #[trigger] workflows[i].name@.len() > 0
    &&& forall|i: int, j: int|
        0 <= i < j < workflows.len() ==> #[trigger] workflows[i].name@ != #[trigger] workflows[j].name@
}

/// One command of a build: the program, its arguments, run in the directory `dir` under the
/// temporary directory that holds the package, and the message to fail with where it cannot
/// be started.
pub struct BuildCommand {
    pub program: String,
    pub dir: String,
    pub args: Vec<String>,
    pub failure_message: String,
}

/// What a build does: advance the progress bar by `progress`, then run `commands` in order.
pub struct BuildPlan {
    pub progress: u64,
    pub commands: Vec<BuildCommand>,
}

/// The command `cmd` runs `program` with `args` in `dir` and fails with `failure`.
pub open spec fn command_is(
    cmd: BuildCommand,
    program: Seq<char>,
    dir: Seq<char>,
    args: Seq<Seq<char>>,
    failure: Seq<char>,
) -> bool {
    &&& cmd.program@ == program
    &&& cmd.dir@ == dir
    &&& views(cmd.args@) == args
    &&& cmd.failure_message@ == failure
}

/// A workflow to be packaged as WebAssembly: its place among the composer's workflows and
/// the package name, `{name}_{version}`, which also names the `.wasm` file.
pub struct WasmPackage {
    pub workflow_index: usize,
    pub name: String,
}

/// The packaging plan of `generate_wasm`: the amounts by which the progress bar advances
/// over a whole run, in order, and the workflows to package, in order.
pub struct WasmPlan {
    pub progress: Vec<u64>,
    pub packages: Vec<WasmPackage>,
}

/// One package per workflow, in order: its index and `{name}_{version}`.
pub open spec fn wasm_packages(workflows: Seq<Workflow>) -> Seq<(int, Seq<char>)> {
    Seq::new(workflows.len(), |i: int| (i, workflows[i].name@ + "_"@ + workflows[i].version@))
}

/// The index and package name of each package of the plan.
pub open spec fn package_views(packages: Seq<WasmPackage>) -> Seq<(int, Seq<char>)> {
    packages.map_values(|p: WasmPackage| (p.workflow_index as int, p.name@))
}

/// The progress of a whole packaging run with `configs` configuration files and `workflows`
/// workflows: one step of 12 / `configs` at the start and one after each configuration is
/// evaluated; then for each workflow a step when it starts, a step when its package is
/// laid out, and 10 / `configs` when it is built.
pub open spec fn wasm_progress(configs: nat, workflows: nat) -> Seq<u64> {
    let step = (12nat / configs) as u64;
    let build = (10nat / configs) as u64;
    Seq::new(configs + 1, |i: int| step) + Seq::new(
        3 * workflows,
        |i: int| if i % 3 == 2 { build } else { step },
    )
}

impl Composer {
    /// The composer's invariant: its workflows have non-empty names, no two alike; the tasks
    /// of each workflow have distinct names and their maps hold each key once; and each
    /// custom type is named once.
    pub open spec fn wf(&self) -> bool {
        &&& workflows_wf(self.workflows@)
        &&& forall|i: int| 0 <= i < self.workflows@.len() ==> tasks_wf(#[trigger] self.workflows@[i].tasks@)
        &&& distinct_keys(self.custom_types@)
    }

    /// Adds a configuration file to the composer.
    pub fn add_config(&mut self, config: &str)
        ensures
            views(final(self).config_files@) == views(old(self).config_files@).push(config@),
            final(self).workflows@ == old(self).workflows@,
            final(self).custom_types@ == old(self).custom_types@,
            old(self).wf() ==> final(self).wf(),
    {
        self.config_files.push(String::from_str(config));
        assert(views(self.config_files@) =~= views(old(self).config_files@).push(config@));
    }

    /// Adds a new workflow to the composer. Refused, with the composer unchanged, where a
    /// workflow of that name is already held, and else where the name is empty.
    pub fn add_workflow(&mut self, name: String, version: String, tasks: Vec<(String, Task)>) -> (res:
        Result<(), ComposerError>)
        ensures
            res == add_workflow_outcome(old(self).workflows@, name@),
            res is Ok ==> final(self).workflows@ == old(self).workflows@.push(
                Workflow { name, version, tasks },
            ),
            res is Err ==> final(self).workflows@ == old(self).workflows@,
            final(self).config_files@ == old(self).config_files@,
            final(self).custom_types@ == old(self).custom_types@,
            old(self).wf() && tasks_wf(tasks@) ==> final(self).wf(),
    {
        let n = self.workflows.len();
        let mut i: usize = 0;
        while i < n
            invariant
                n == self.workflows@.len(),
                i <= n,
                forall|j: int| 0 <= j < i ==> self.workflows@[j].name@ != name@,
            decreases n - i,
        {
            if self.workflows[i].name == name {
                return Err(ComposerError::DuplicateWorkflowName);
            }
            i = i + 1;
        }
        if name.as_str().is_empty() {
            Err(ComposerError::EmptyWorkflowName)
        } else {
            let ghost old_workflows = self.workflows@;
            let ghost new_tasks = tasks@;
            self.workflows.push(Workflow { name, version, tasks });
            proof {
                let ws = self.workflows@;
                assert(forall|j: int| 0 <= j < old_workflows.len() ==> ws[j] == old_workflows[j]);
                assert(ws[old_workflows.len() as int].tasks@ == new_tasks);
            }
            Ok(())
        }
    }

    /// What `generate_wasm` does, in order: the progress it reports over the whole run and
    /// the package of each workflow, every workflow of the composer being packaged.
    pub fn wasm_plan(&self) -> (plan: WasmPlan)
        requires
            self.config_files@.len() > 0,
        ensures
            plan.progress@ == wasm_progress(self.config_files@.len(), self.workflows@.len()),
            package_views(plan.packages@) == wasm_packages(self.workflows@),
    {
        let c = self.config_files.len();
        let step = (12 / c) as u64;
        let build = (10 / c) as u64;
        let ghost head = Seq::new((c + 1) as nat, |i: int| step);
        let mut progress: Vec<u64> = Vec::new();
        progress.push(step);
        let mut i: usize = 0;
        while i < c
            invariant
                i <= c,
                progress@ =~= Seq::new((i + 1) as nat, |k: int| step),
            decreases c - i,
        {
            progress.push(step);
            assert(progress@ =~= Seq::new((i + 2) as nat, |k: int| step));
            i = i + 1;
        }
        let mut packages: Vec<WasmPackage> = Vec::new();
        let n = self.workflows.len();
        let mut j: usize = 0;
        while j < n
            invariant
                n == self.workflows@.len(),
                j <= n,
                head == Seq::new((c + 1) as nat, |i: int| step),
                progress@ =~= head + Seq::new(3 * j as nat, |i: int| if i % 3 == 2 { build } else { step }),
                package_views(packages@) == wasm_packages(self.workflows@.take(j as int)),
            decreases n - j,
        {
            let ghost before = packages@;
            let w = &self.workflows[j];
            let mut name = w.name.clone();
            name.append("_");
            name.append(w.version.as_str());
            let ghost entry = (j as int, name@);
            assert(entry == (j as int, w.name@ + "_"@ + w.version@));
            packages.push(WasmPackage { workflow_index: j, name });
            assert(package_views(packages@) =~= package_views(before).push(entry));
            assert(wasm_packages(self.workflows@.take(j + 1)) =~= wasm_packages(self.workflows@.take(j as int)).push(entry));
            progress.push(step);
            progress.push(step);
            progress.push(build);
            assert(progress@ =~= head + Seq::new(3 * (j + 1) as nat, |i: int| if i % 3 == 2 { build } else { step })) by {
                assert((3 * j) % 3 == 0) by (nonlinear_arith);
                assert((3 * j + 1) % 3 == 1) by (nonlinear_arith);
                assert((3 * j + 2) % 3 == 2) by (nonlinear_arith);
            }
            j = j + 1;
        }
        assert(self.workflows@.take(n as int) =~= self.workflows@);
        WasmPlan { progress, packages }
    }

    /// The steps of building the generated package: the progress to report, then the
    /// commands to run in its directory (the toolchain target first where `verbose`).
    pub fn build(&self, verbose: bool) -> (plan: BuildPlan)
        requires
            self.config_files@.len() > 0,
        ensures
            plan.progress == 10nat / self.config_files@.len(),
            verbose ==> plan.commands@.len() == 2,
            verbose ==> command_is(
                plan.commands@[0],
                "rustup"@,
                "boilerplate"@,
                seq!["target"@, "add"@, "wasm32-wasi"@],
                "adding wasm32-wasi rust toolchain command failed to start"@,
            ),
            verbose ==> command_is(
                plan.commands@[1],
                "cargo"@,
                "boilerplate"@,
                seq!["build"@, "--release"@, "--target"@, "wasm32-wasi"@],
                "building wasm32 command failed to start"@,
            ),
            !verbose ==> plan.commands@.len() == 1,
            !verbose ==> command_is(
                plan.commands@[0],
                "cargo"@,
                "boilerplate"@,
                seq!["build"@, "--release"@, "--target"@, "wasm32-wasi"@, "--quiet"@],
                "building wasm32 command failed to start"@,
            ),
    {
        let progress = (10 / self.config_files.len()) as u64;
        let mut commands: Vec<BuildCommand> = Vec::new();
        if verbose {
            let args = vec![
                String::from_str("target"),
                String::from_str("add"),
                String::from_str("wasm32-wasi"),
            ];
            assert(views(args@) =~= seq!["target"@, "add"@, "wasm32-wasi"@]);
            commands.push(BuildCommand {
                program: String::from_str("rustup"),
                dir: String::from_str("boilerplate"),
                args,
                failure_message: String::from_str(
                    "adding wasm32-wasi rust toolchain command failed to start",
                ),
            });
            let args = vec![
                String::from_str("build"),
                String::from_str("--release"),
                String::from_str("--target"),
                String::from_str("wasm32-wasi"),
            ];
            assert(views(args@) =~= seq!["build"@, "--release"@, "--target"@, "wasm32-wasi"@]);
            commands.push(BuildCommand {
                program: String::from_str("cargo"),
                dir: String::from_str("boilerplate"),
                args,
                failure_message: String::from_str("building wasm32 command failed to start"),
            });
        } else {
            let args = vec![
                String::from_str("build"),
                String::from_str("--release"),
                String::from_str("--target"),
                String::from_str("wasm32-wasi"),
                String::from_str("--quiet"),
            ];
            assert(views(args@) =~= seq![
                "build"@,
                "--release"@,
                "--target"@,
                "wasm32-wasi"@,
                "--quiet"@,
            ]);
            commands.push(BuildCommand {
                program: String::from_str("cargo"),
                dir: String::from_str("boilerplate"),
                args,
                failure_message: String::from_str("building wasm32 command failed to start"),
            });
        }
        BuildPlan { progress, commands }
    }
}

impl Default for Composer {
    /// A composer with no configuration files, workflows or custom types.
    fn default() -> (c: Self)
        ensures
            c.config_files@.len() == 0,
            c.workflows@.len() == 0,
            c.custom_types@.len() == 0,
            c.wf(),
    {
        Composer { config_files: Vec::new(), workflows: Vec::new(), custom_types: Vec::new() }
    }
}

} // verus!
