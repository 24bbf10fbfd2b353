use vstd::prelude::*;

verus! {

/// What a command is: a program and its argument templates.
pub struct CommandModel {
    pub program: Seq<char>,
    pub arguments: Seq<Seq<char>>,
}

/// What a project type is: its name and the commands that open a project.
pub struct ProjectTypeModel {
    pub name: Seq<char>,
    pub open_commands: Seq<CommandModel>,
}

/// A program to run, with arguments that may hold the path placeholder.
#[derive(Debug)]
pub struct Command {
    pub program: String,
    pub arguments: Vec<String>,
}

/// A named, ordered list of commands that open a project of this type.
#[derive(Debug)]
pub struct ProjectType {
    pub name: String,
    pub open_commands: Vec<Command>,
}

impl View for Command {
    type V = CommandModel;

    open spec fn view(&self) -> CommandModel {
        CommandModel { program: self.program@, arguments: self.arguments@.map_values(|a: String| a@) }
    }
}

impl View for ProjectType {
    type V = ProjectTypeModel;

    open spec fn view(&self) -> ProjectTypeModel {
        ProjectTypeModel {
            name: self.name@,
            open_commands: self.open_commands@.map_values(|c: Command| c@),
        }
    }
}

/// A copy of each string of `v`.
pub fn copy_strings(v: &Vec<String>) -> (r: Vec<String>)
    ensures
        r@.map_values(|a: String| a@) == v@.map_values(|a: String| a@),
{
    let mut r: Vec<String> = Vec::new();
    let mut i: usize = 0;
    while i < v.len()
        invariant
            i <= v@.len(),
            r@.len() == i,
            forall|j: int| 0 <= j < i ==> (#[trigger] r@[j])@ == v@[j]@,
        decreases v@.len() - i,
    {
        r.push(v[i].clone());
        i += 1;
    }
    assert(r@.map_values(|a: String| a@) =~= v@.map_values(|a: String| a@));
    r
}

impl Command {
    pub fn new(program: String, arguments: Vec<String>) -> (r: Command)
        ensures
            r.program == program,
            r.arguments == arguments,
    {
        Command { program, arguments }
    }

    /// A copy of this command.
    pub fn copy(&self) -> (r: Command)
        ensures
            r@ == self@,
    {
        Command { program: self.program.clone(), arguments: copy_strings(&self.arguments) }
    }
}

impl ProjectType {
    pub fn new(name: String, open_commands: Vec<Command>) -> (r: ProjectType)
        ensures
            r.name == name,
            r.open_commands == open_commands,
    {
        ProjectType { name, open_commands }
    }

    /// A copy of this project type, as written to a project's marker file.
    pub fn copy(&self) -> (r: ProjectType)
        ensures
            r@ == self@,
    {
        let mut cmds: Vec<Command> = Vec::new();
        let mut i: usize = 0;
        while i < self.open_commands.len()
            invariant
                i <= self.open_commands@.len(),
                cmds@.len() == i,
                forall|j: int| 0 <= j < i ==> (#[trigger] cmds@[j])@ == self.open_commands@[j]@,
            decreases self.open_commands@.len() - i,
        {
            cmds.push(self.open_commands[i].copy());
            i += 1;
        }
        let r = ProjectType { name: self.name.clone(), open_commands: cmds };
        assert(r@.open_commands =~= self@.open_commands);
        r
    }
}

} // verus!
