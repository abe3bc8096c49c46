//! Host commands as plain data.
//!
//! The library never runs a program. It says which program is to run with
//! which arguments, and it reads what came back.

use crate::text::str_views;
use vstd::prelude::*;

verus! {

/// A program to run, its arguments, and what to write to its standard input.
#[derive(Debug, PartialEq, Eq)]
pub struct HostCommand {
    pub program: String,
    pub args: Vec<String>,
    pub stdin: Option<String>,
    /// Variables to set in the program's environment, as name and value.
    pub env: Vec<(String, String)>,
}

impl HostCommand {
    /// The program followed by its arguments.
    pub open spec fn line(&self) -> Seq<Seq<char>> {
        seq![self.program@] + str_views(self.args@)
    }

    /// What is written to the program's standard input, if anything.
    pub open spec fn input(&self) -> Option<Seq<char>> {
        match self.stdin {
            Some(s) => Some(s@),
            None => None,
        }
    }

    /// The variables set for the program, as pairs of name and value.
    pub open spec fn environment(&self) -> Seq<(Seq<char>, Seq<char>)> {
        Seq::new(self.env@.len(), |i: int| (self.env@[i].0@, self.env@[i].1@))
    }

    /// The command with one more variable in its environment.
    pub fn with_env(self, name: &str, value: &str) -> (r: HostCommand)
        ensures
            r.line() == self.line(),
            r.input() == self.input(),
            r.environment() == self.environment().push((name@, value@)),
    {
        let mut c = self;
        c.env.push((name.to_owned(), value.to_owned()));
        assert(c.environment() =~= self.environment().push((name@, value@)));
        c
    }

    /// A command without standard input.
    pub fn new(program: &str, args: Vec<String>) -> (r: HostCommand)
        ensures
            r.line() == seq![program@] + str_views(args@),
            r.input() is None,
            r.environment().len() == 0,
    {
        HostCommand { program: program.to_owned(), args, stdin: None, env: Vec::new() }
    }

    /// A command that is fed `input`.
    pub fn with_input(program: &str, args: Vec<String>, input: String) -> (r: HostCommand)
        ensures
            r.line() == seq![program@] + str_views(args@),
            r.input() == Some(input@),
            r.environment().len() == 0,
    {
        HostCommand { program: program.to_owned(), args, stdin: Some(input), env: Vec::new() }
    }
}

/// What a finished program left behind.
#[derive(Debug, PartialEq, Eq)]
pub struct CommandOutput {
    /// Whether the program exited with status zero.
    pub success: bool,
    /// The exit code, where the program exited by itself.
    pub code: Option<i32>,
    pub stdout: String,
    pub stderr: String,
}

/// The views of a list of string slices.
pub open spec fn strs_view(v: Seq<&str>) -> Seq<Seq<char>> {
    Seq::new(v.len(), |i: int| v[i]@)
}

/// The command that runs `program` with `args`, without standard input.
pub fn command(program: &str, args: Vec<&str>) -> (c: HostCommand)
    ensures
        c.line() == seq![program@] + strs_view(args@),
        c.input() is None,
        c.environment().len() == 0,
{
    let mut owned: Vec<String> = Vec::new();
    let mut i: usize = 0;
    while i < args.len()
        invariant
            i <= args.len(),
            owned.len() == i,
            forall|j: int| 0 <= j < i ==> (#[trigger] owned@[j])@ == args@[j]@,
        decreases args.len() - i,
    {
        owned.push(args[i].to_owned());
        i += 1;
    }
    assert(str_views(owned@) =~= strs_view(args@));
    HostCommand::new(program, owned)
}

/// Appends a copy of `s` to a list of arguments.
pub fn push_arg(v: &mut Vec<String>, s: &str)
    ensures
        str_views(final(v)@) == str_views(old(v)@).push(s@),
{
    v.push(s.to_owned());
    assert(str_views(v@) =~= str_views(old(v)@).push(s@));
}

/// Appends `s` to a list of arguments.
pub fn push_owned(v: &mut Vec<String>, s: String)
    ensures
        str_views(final(v)@) == str_views(old(v)@).push(s@),
{
    let ghost sv = s@;
    v.push(s);
    assert(str_views(v@) =~= str_views(old(v)@).push(sv));
}

/// An empty list of arguments.
pub fn no_args() -> (v: Vec<String>)
    ensures
        str_views(v@) == Seq::<Seq<char>>::empty(),
{
    let v: Vec<String> = Vec::new();
    assert(str_views(v@) =~= Seq::<Seq<char>>::empty());
    v
}

} // verus!
