//! Scripts and their invocations: which file is run, in which directory it is
//! looked for, and with which arguments.

use std::path::PathBuf;
use vstd::prelude::*;
use vstd::string::StringExecFns;

verus! {

/// The four scripts the work is handed to, one for each operation.
#[derive(Clone, Copy, Debug, PartialEq, Eq, Structural)]
pub enum Script {
    Rebuild,
    Update,
    Clean,
    Audit,
}

impl Script {
    /// The operation's name, from which its script is named.
    pub open spec fn spec_name(self) -> Seq<char> {
        match self {
            Script::Rebuild => "rebuild"@,
            Script::Update => "update"@,
            Script::Clean => "clean"@,
            Script::Audit => "audit"@,
        }
    }

    /// The script's file name: the operation's name with the extension `sh`.
    pub open spec fn spec_file_name(self) -> Seq<char> {
        self.spec_name() + ".sh"@
    }

    /// The operation's name.
    pub fn name(self) -> (name: &'static str)
        ensures
            name@ == self.spec_name(),
    {
        match self {
            Script::Rebuild => "rebuild",
            Script::Update => "update",
            Script::Clean => "clean",
            Script::Audit => "audit",
        }
    }

    /// The script's file name.
    pub fn file_name(self) -> (file: String)
        ensures
            file@ == self.spec_file_name(),
    {
        String::from_str(self.name()).concat(".sh")
    }
}

/// One argument of an invocation: a path, handed on as it is, or text.
#[derive(Debug, PartialEq, Eq)]
pub enum Argument {
    Path(PathBuf),
    Text(String),
}

/// An [`Argument`] as contracts see it.
pub enum ArgumentView {
    Path(PathBuf),
    Text(Seq<char>),
}

impl View for Argument {
    type V = ArgumentView;

    open spec fn view(&self) -> ArgumentView {
        match *self {
            Argument::Path(path) => ArgumentView::Path(path),
            Argument::Text(text) => ArgumentView::Text(text@),
        }
    }
}

/// A script to run: the directory it is looked for in, its file name, and its
/// arguments in the order in which they are passed.
#[derive(Debug, PartialEq, Eq)]
pub struct ScriptInvocation {
    pub script_dir: String,
    pub script_file: String,
    pub args: Vec<Argument>,
}

/// A [`ScriptInvocation`] as contracts see it.
pub struct ScriptInvocationView {
    pub script_dir: Seq<char>,
    pub script_file: Seq<char>,
    pub args: Seq<ArgumentView>,
}

impl View for ScriptInvocation {
    type V = ScriptInvocationView;

    open spec fn view(&self) -> ScriptInvocationView {
        ScriptInvocationView {
            script_dir: self.script_dir@,
            script_file: self.script_file@,
            args: self.args@.map_values(|arg: Argument| arg@),
        }
    }
}

impl ScriptInvocationView {
    /// This invocation with `argument` behind the arguments it has.
    pub open spec fn with_arg(self, argument: ArgumentView) -> ScriptInvocationView {
        ScriptInvocationView { args: self.args.push(argument), ..self }
    }
}

/// An optional text as contracts see it.
pub open spec fn text_of(text: Option<&str>) -> Option<Seq<char>> {
    match text {
        Some(given) => Some(given@),
        None => None,
    }
}

/// The directory the scripts are looked for in: the configured one where
/// there is one, else the default.
pub open spec fn chosen_script_dir(configured: Option<Seq<char>>, default: Seq<char>) -> Seq<char> {
    match configured {
        Some(chosen) => chosen,
        None => default,
    }
}

/// The invocation of `script` in `script_dir` without arguments.
pub open spec fn bare_invocation(script_dir: Seq<char>, script: Script) -> ScriptInvocationView {
    ScriptInvocationView { script_dir, script_file: script.spec_file_name(), args: Seq::empty() }
}

impl ScriptInvocation {
    /// Adds `argument` behind the arguments that are already there.
    pub fn arg(&mut self, argument: Argument)
        ensures
            final(self)@ == old(self)@.with_arg(argument@),
    {
        self.args.push(argument);
        assert(self@.args =~= old(self)@.args.push(argument@));
    }
}

/// Picks the directory the scripts are looked for in: the configured one
/// where there is one, else the default.
pub fn script_dir<'a>(configured: Option<&'a str>, default: &'a str) -> (dir: &'a str)
    ensures
        dir@ == chosen_script_dir(text_of(configured), default@),
{
    match configured {
        Some(chosen) => chosen,
        None => default,
    }
}

/// Starts the invocation of `script`: the file in `script_dir` that is named
/// after it, with no argument yet.
pub fn script_command(script_dir: &str, script: Script) -> (invocation: ScriptInvocation)
    ensures
        invocation@ == bare_invocation(script_dir@, script),
{
    let invocation = ScriptInvocation {
        script_dir: String::from_str(script_dir),
        script_file: script.file_name(),
        args: Vec::new(),
    };
    assert(invocation@.args =~= Seq::empty());
    invocation
}

} // verus!
