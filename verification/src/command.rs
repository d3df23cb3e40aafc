//! A command to run, with its arguments, extra environment, search path and
//! working directory,
//! built up step by step. Running it is the caller's work.

use vstd::prelude::*;

verus! {

/// A program and what will be passed to it.
#[derive(Debug)]
pub struct CommandRunner {
    program: String,
    args: Vec<String>,
    env: Vec<(String, String)>,
    path: Option<String>,
    dir: Option<String>,
}

/// A command as mathematical values.
pub struct CommandView {
    pub program: Seq<char>,
    pub args: Seq<Seq<char>>,
    pub env: Seq<(Seq<char>, Seq<char>)>,
    pub path: Option<Seq<char>>,
    pub dir: Option<Seq<char>>,
}

impl View for CommandRunner {
    type V = CommandView;

    closed spec fn view(&self) -> CommandView {
        CommandView {
            program: self.program@,
            args: self.args.deep_view(),
            env: self.env.deep_view(),
            path: self.path.deep_view(),
            dir: self.dir.deep_view(),
        }
    }
}

/// A copy of a list of environment variables.
fn clone_env(env: &Vec<(String, String)>) -> (copy: Vec<(String, String)>)
    ensures
        copy.deep_view() == env.deep_view(),
{
    let mut copy: Vec<(String, String)> = Vec::new();
    let mut i: usize = 0;
    while i < env.len()
        invariant
            i <= env@.len(),
            copy.deep_view() == env.deep_view().take(i as int),
        decreases env@.len() - i,
    {
        let ghost prev = copy.deep_view();
        copy.push((env[i].0.clone(), env[i].1.clone()));
        assert(copy.deep_view() =~= prev.push(env.deep_view()[i as int]));
        assert(env.deep_view().take(i + 1) =~= env.deep_view().take(i as int).push(
            env.deep_view()[i as int],
        ));
        i = i + 1;
    }
    assert(env.deep_view().take(env@.len() as int) =~= env.deep_view());
    copy
}

impl Clone for CommandRunner {
    fn clone(&self) -> (runner: CommandRunner)
        ensures
            runner@ == self@,
    {
        let runner = CommandRunner {
            program: self.program.clone(),
            args: self.args.clone(),
            env: clone_env(&self.env),
            path: self.path.clone(),
            dir: self.dir.clone(),
        };
        assert(runner.args.deep_view() =~= self.args.deep_view());
        assert(runner.env.deep_view() =~= self.env.deep_view());
        runner
    }
}

impl CommandRunner {
    /// A command that runs `program` with no arguments, no extra environment
    /// and the inherited search path and working directory.
    pub fn new(program: &str) -> (runner: CommandRunner)
        ensures
            runner@.program == program@,
            runner@.args == Seq::<Seq<char>>::empty(),
            runner@.env == Seq::<(Seq<char>, Seq<char>)>::empty(),
            runner@.path is None,
            runner@.dir is None,
    {
        let runner = CommandRunner {
            program: String::from_str(program),
            args: Vec::new(),
            env: Vec::new(),
            path: None,
            dir: None,
        };
        assert(runner.args.deep_view() =~= Seq::<Seq<char>>::empty());
        assert(runner.env.deep_view() =~= Seq::<(Seq<char>, Seq<char>)>::empty());
        runner
    }

    /// Runs the command with `PATH` set to `path`.
    pub fn path(self, path: &str) -> (runner: CommandRunner)
        ensures
            runner@.program == self@.program,
            runner@.args == self@.args,
            runner@.env == self@.env,
            runner@.path == Some(path@),
            runner@.dir == self@.dir,
    {
        let mut runner = self;
        runner.path = Some(String::from_str(path));
        runner
    }

    /// Runs the command in the directory `dir`.
    pub fn current_dir(self, dir: &str) -> (runner: CommandRunner)
        ensures
            runner@.program == self@.program,
            runner@.args == self@.args,
            runner@.env == self@.env,
            runner@.path == self@.path,
            runner@.dir == Some(dir@),
    {
        let mut runner = self;
        runner.dir = Some(String::from_str(dir));
        runner
    }

    /// Appends one argument.
    pub fn arg(self, arg: &str) -> (runner: CommandRunner)
        ensures
            runner@.program == self@.program,
            runner@.args == self@.args.push(arg@),
            runner@.env == self@.env,
            runner@.path == self@.path,
            runner@.dir == self@.dir,
    {
        let mut runner = self;
        let ghost before = runner.args.deep_view();
        runner.args.push(String::from_str(arg));
        assert(runner.args.deep_view() =~= before.push(arg@));
        runner
    }

    /// Replaces the argument at `index` (which must exist).
    pub fn replace_arg_at(self, index: usize, arg: &str) -> (runner: CommandRunner)
        requires
            index < self@.args.len(),
        ensures
            runner@.program == self@.program,
            runner@.args == self@.args.update(index as int, arg@),
            runner@.env == self@.env,
            runner@.path == self@.path,
            runner@.dir == self@.dir,
    {
        let mut runner = self;
        let ghost before = runner.args.deep_view();
        runner.args.set(index, String::from_str(arg));
        assert(runner.args.deep_view() =~= before.update(index as int, arg@));
        runner
    }

    /// Appends several arguments, in order.
    pub fn args(self, args: Vec<String>) -> (runner: CommandRunner)
        ensures
            runner@.program == self@.program,
            runner@.args == self@.args + args.deep_view(),
            runner@.env == self@.env,
            runner@.path == self@.path,
            runner@.dir == self@.dir,
    {
        let mut runner = self;
        let ghost before = runner.args.deep_view();
        let mut i: usize = 0;
        while i < args.len()
            invariant
                i <= args@.len(),
                runner.program == self.program,
                runner.env == self.env,
                runner.path == self.path,
                runner.dir == self.dir,
                runner.args.deep_view() == before + args.deep_view().take(i as int),
            decreases args@.len() - i,
        {
            let ghost prev = runner.args.deep_view();
            runner.args.push(args[i].clone());
            assert(runner.args.deep_view() =~= prev.push(args.deep_view()[i as int]));
            assert(args.deep_view().take(i + 1) =~= args.deep_view().take(i as int).push(
                args.deep_view()[i as int],
            ));
            assert(runner.args.deep_view() =~= before + args.deep_view().take(i + 1));
            i = i + 1;
        }
        assert(args.deep_view().take(args@.len() as int) =~= args.deep_view());
        runner
    }

    /// Appends several environment variables, in order.
    pub fn envs(self, env: Vec<(String, String)>) -> (runner: CommandRunner)
        ensures
            runner@.program == self@.program,
            runner@.args == self@.args,
            runner@.env == self@.env + env.deep_view(),
            runner@.path == self@.path,
            runner@.dir == self@.dir,
    {
        let mut runner = self;
        let ghost before = runner.env.deep_view();
        let mut i: usize = 0;
        while i < env.len()
            invariant
                i <= env@.len(),
                runner.program == self.program,
                runner.args == self.args,
                runner.path == self.path,
                runner.dir == self.dir,
                runner.env.deep_view() == before + env.deep_view().take(i as int),
            decreases env@.len() - i,
        {
            let key = env[i].0.clone();
            let value = env[i].1.clone();
            let ghost prev = runner.env.deep_view();
            runner.env.push((key, value));
            assert(runner.env.deep_view() =~= prev.push(env.deep_view()[i as int]));
            assert(env.deep_view().take(i + 1) =~= env.deep_view().take(i as int).push(
                env.deep_view()[i as int],
            ));
            assert(runner.env.deep_view() =~= before + env.deep_view().take(i + 1));
            i = i + 1;
        }
        assert(env.deep_view().take(env@.len() as int) =~= env.deep_view());
        runner
    }

    /// The program to run.
    pub fn program(&self) -> (program: &str)
        ensures
            program@ == self@.program,
    {
        self.program.as_str()
    }

    /// The arguments, in order.
    pub fn arguments(&self) -> (args: &Vec<String>)
        ensures
            args.deep_view() == self@.args,
    {
        &self.args
    }

    /// The extra environment variables, in order.
    pub fn environment(&self) -> (env: &Vec<(String, String)>)
        ensures
            env.deep_view() == self@.env,
    {
        &self.env
    }

    /// The search path to run the program with, if one was set.
    pub fn search_path(&self) -> (path: &Option<String>)
        ensures
            path.deep_view() == self@.path,
    {
        &self.path
    }

    /// The directory to run the program in, if one was set.
    pub fn working_dir(&self) -> (dir: &Option<String>)
        ensures
            dir.deep_view() == self@.dir,
    {
        &self.dir
    }
}

} // verus!
