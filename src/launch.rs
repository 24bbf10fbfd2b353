use vstd::prelude::*;
use crate::error::{Error, ErrorKind};
use crate::model::{Command, CommandModel, ProjectType};
use crate::register::Registry;
use crate::table::{has_key, lookup};
use crate::template::{render, render_arguments};

verus! {

/// One command ready to run: the program, its rendered arguments and the
/// directory to run it in.
#[derive(Debug)]
pub struct Invocation {
    pub program: String,
    pub arguments: Vec<String>,
    pub directory: String,
}

/// How a started command ended.
#[derive(Debug, Clone, Copy, PartialEq, Eq)]
pub enum RunResult {
    /// It exited with this status code.
    Exited(i32),
    /// It ended without a status code (killed by a signal).
    Terminated,
    /// It could not be started.
    NotStarted,
}

/// What the caller does next while opening a project.
#[derive(Debug)]
pub enum Step {
    /// Run the invocation at this position.
    Run(usize),
    /// Every command has run and succeeded.
    Finished,
    /// A command failed: the rest are not run.
    Failed(Error),
}

/// Whether `inv` is `cmd` rendered against the project at `path`.
pub open spec fn rendered_from(inv: Invocation, cmd: CommandModel, path: Seq<char>) -> bool {
    &&& inv.program@ == cmd.program
    &&& inv.directory@ == path
    &&& inv.arguments@.len() == cmd.arguments.len()
    &&& forall|j: int|
        0 <= j < cmd.arguments.len() ==> (#[trigger] inv.arguments@[j])@ == render(
            cmd.arguments[j],
            path,
        )
}

/// The line that lists one project.
pub open spec fn list_line(name: Seq<char>, path: Seq<char>) -> Seq<char> {
    name + " at "@ + path
}

/// One line for each registered project, in the registry's order.
pub fn list(registry: &Registry) -> (r: Vec<String>)
    ensures
        r@.len() == registry@.len(),
        forall|i: int|
            0 <= i < r@.len() ==> (#[trigger] r@[i])@ == list_line(registry@[i].0, registry@[i].1),
{
    let mut r: Vec<String> = Vec::new();
    let mut i: usize = 0;
    while i < registry.len()
        invariant
            i <= registry@.len(),
            r@.len() == i,
            forall|j: int|
                0 <= j < i ==> (#[trigger] r@[j])@ == list_line(registry@[j].0, registry@[j].1),
        decreases registry@.len() - i,
    {
        let (name, path) = registry.entry(i);
        let line = name.clone().concat(" at ").concat(path.as_str());
        r.push(line);
        i += 1;
    }
    r
}

/// The project named first among `names`; the others are ignored.
pub fn requested_project(names: &Vec<String>) -> (r: Result<String, Error>)
    ensures
        names@.len() == 0 <==> r is Err,
        r matches Ok(n) ==> n@ == names@[0]@,
        r matches Err(e) ==> e.kind == ErrorKind::NoProjectGiven,
{
    if names.len() == 0 {
        Err(Error::new(ErrorKind::NoProjectGiven))
    } else {
        Ok(names[0].clone())
    }
}

/// The path of the project registered as `project_name`.
pub fn open_project(registry: &Registry, project_name: &str) -> (r: Result<String, Error>)
    requires
        registry.wf(),
    ensures
        r is Ok <==> has_key(registry@, project_name@),
        r matches Ok(p) ==> lookup(registry@, project_name@) == Some(p@),
        r matches Err(e) ==> (e.kind matches ErrorKind::ProjectNotFound(n) && n@ == project_name@),
{
    let key = String::from_str(project_name);
    match registry.get(&key) {
        Some(p) => Ok(p.clone()),
        None => Err(Error::new(ErrorKind::ProjectNotFound(key))),
    }
}

/// The invocations that open the project at `path`, from the project type
/// read from its marker file; `marker` is none where that file is missing.
pub fn launch_plan(path: &str, marker: Option<&ProjectType>) -> (r: Result<Vec<Invocation>, Error>)
    ensures
        r is Ok <==> marker is Some,
        r matches Err(e) ==> (e.kind matches ErrorKind::MetadataMissing(p) && p@ == path@),
        r matches Ok(v) ==> (marker matches Some(t) && v@.len() == t@.open_commands.len() && forall|
            i: int,
        |
            0 <= i < v@.len() ==> rendered_from(#[trigger] v@[i], t@.open_commands[i], path@)),
{
    let t = match marker {
        Some(t) => t,
        None => {
            return Err(Error::new(ErrorKind::MetadataMissing(String::from_str(path))));
        },
    };
    let mut v: Vec<Invocation> = Vec::new();
    let mut i: usize = 0;
    while i < t.open_commands.len()
        invariant
            i <= t@.open_commands.len(),
            v@.len() == i,
            forall|j: int| 0 <= j < i ==> rendered_from(#[trigger] v@[j], t@.open_commands[j], path@),
        decreases t@.open_commands.len() - i,
    {
        let cmd: &Command = &t.open_commands[i];
        let inv = Invocation {
            program: cmd.program.clone(),
            arguments: render_arguments(cmd, path),
            directory: String::from_str(path),
        };
        assert(rendered_from(inv, t@.open_commands[i as int], path@));
        v.push(inv);
        i += 1;
    }
    Ok(v)
}

/// Whether a command that ended so succeeded.
pub open spec fn succeeded(result: RunResult) -> bool {
    result == RunResult::Exited(0)
}

/// The first step of running `plan`.
pub fn first_step(plan: &Vec<Invocation>) -> (r: Step)
    ensures
        plan@.len() == 0 ==> r is Finished,
        plan@.len() > 0 ==> (r matches Step::Run(i) && i == 0),
{
    if plan.len() == 0 {
        Step::Finished
    } else {
        Step::Run(0)
    }
}

/// The step after the invocation at `index` of `plan` ended with `result`:
/// the next one on success, none after a failure.
pub fn step_after(plan: &Vec<Invocation>, index: usize, result: RunResult) -> (r: Step)
    requires
        index < plan@.len(),
    ensures
        succeeded(result) && index + 1 < plan@.len() ==> (r matches Step::Run(i) && i == index + 1),
        succeeded(result) && index + 1 == plan@.len() ==> r is Finished,
        !succeeded(result) ==> (r matches Step::Failed(e) && e.kind matches ErrorKind::CommandFailure {
            index: k,
            program: p,
            result: res,
        } && k == index && p@ == plan@[index as int].program@ && res == result),
{
    match result {
        RunResult::Exited(0) => {
            if index < plan.len() - 1 {
                Step::Run(index + 1)
            } else {
                Step::Finished
            }
        },
        _ => Step::Failed(
            Error::new(
                ErrorKind::CommandFailure {
                    index,
                    program: plan[index].program.clone(),
                    result,
                },
            ),
        ),
    }
}

} // verus!
