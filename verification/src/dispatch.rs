//! Operations and their dispatch: which script an operation starts, with
//! which arguments, and what follows once a script has ended.
//!
//! The caller runs the scripts. It asks [`dispatch`] what to launch, runs it,
//! and hands the [`Outcome`] to [`settle`], which says whether another
//! operation follows or with which code the process ends.

use crate::label::{is_label, sanitize, sanitize_is_label, sanitize_label, sanitize_of_label};
use crate::script::{
    bare_invocation, script_command, text_of, Argument, ArgumentView, Script, ScriptInvocation,
    ScriptInvocationView,
};
use crate::trusted::try_resolve;
use std::path::PathBuf;
use vstd::prelude::*;
use vstd::string::StringExecFns;

verus! {

/// What the front-end can be asked to do.
#[derive(Debug, PartialEq, Eq)]
pub enum Operation {
    /// Rebuild the configuration at `path`. The rebuild is labelled with
    /// `label` or, where none is given, with `message`.
    Rebuild { path: PathBuf, label: Option<String>, message: String },
    /// Update the configuration at `path`, then rebuild it.
    Update { path: PathBuf },
    /// Clean up.
    Clean,
    /// Audit.
    Audit,
}

/// An [`Operation`] as contracts see it.
pub enum OperationView {
    Rebuild { path: PathBuf, label: Option<Seq<char>>, message: Seq<char> },
    Update { path: PathBuf },
    Clean,
    Audit,
}

impl View for Operation {
    type V = OperationView;

    open spec fn view(&self) -> OperationView {
        match *self {
            Operation::Rebuild { path, label, message } => OperationView::Rebuild {
                path,
                label: match label {
                    Some(text) => Some(text@),
                    None => None,
                },
                message: message@,
            },
            Operation::Update { path } => OperationView::Update { path },
            Operation::Clean => OperationView::Clean,
            Operation::Audit => OperationView::Audit,
        }
    }
}

/// An optional operation as contracts see it.
pub open spec fn operation_of(operation: Option<Operation>) -> Option<OperationView> {
    match operation {
        Some(given) => Some(given@),
        None => None,
    }
}

/// Why an operation came to nothing.
#[derive(Clone, Copy, Debug, PartialEq, Eq, Structural)]
pub enum DispatchError {
    /// The path could not be resolved.
    PathResolution,
    /// The script could not be started.
    ScriptSpawn,
}

impl DispatchError {
    /// The error in words, for a diagnostic.
    pub open spec fn spec_describe(self) -> Seq<char> {
        match self {
            DispatchError::PathResolution => "the path could not be resolved"@,
            DispatchError::ScriptSpawn => "the script could not be started"@,
        }
    }

    /// The error in words, for a diagnostic.
    pub fn describe(self) -> (text: &'static str)
        ensures
            text@ == self.spec_describe(),
    {
        match self {
            DispatchError::PathResolution => "the path could not be resolved",
            DispatchError::ScriptSpawn => "the script could not be started",
        }
    }
}

/// What to run next, and what is to follow it.
#[derive(Debug, PartialEq, Eq)]
pub struct Launch {
    /// The script to run now.
    pub invocation: ScriptInvocation,
    /// The operation to dispatch once that script has ended, if there is one.
    pub follow_up: Option<Operation>,
}

/// A [`Launch`] as contracts see it.
pub struct LaunchView {
    pub invocation: ScriptInvocationView,
    pub follow_up: Option<OperationView>,
}

impl View for Launch {
    type V = LaunchView;

    open spec fn view(&self) -> LaunchView {
        LaunchView { invocation: self.invocation@, follow_up: operation_of(self.follow_up) }
    }
}

/// How the run of a script ended.
#[derive(Clone, Copy, Debug, PartialEq, Eq, Structural)]
pub enum Outcome {
    /// The script ran and exited with this code.
    Exited(i32),
    /// The script ran and was stopped before it could exit with a code.
    Interrupted,
    /// The script could not be started.
    SpawnFailed,
}

/// What the caller does once a script has ended.
#[derive(Debug, PartialEq, Eq)]
pub enum Next {
    /// Dispatch this operation.
    Dispatch(Operation),
    /// End the process with this exit code.
    Exit(i32),
    /// Give up with this error.
    Fail(DispatchError),
}

/// A [`Next`] as contracts see it.
pub enum NextView {
    Dispatch(OperationView),
    Exit(i32),
    Fail(DispatchError),
}

impl View for Next {
    type V = NextView;

    open spec fn view(&self) -> NextView {
        match *self {
            Next::Dispatch(operation) => NextView::Dispatch(operation@),
            Next::Exit(code) => NextView::Exit(code),
            Next::Fail(error) => NextView::Fail(error),
        }
    }
}

/// The exit code of the process where its last script was interrupted.
pub const INTERRUPTED_EXIT_CODE: i32 = 1;

/// The text a rebuild's label is made from: the label where one is given,
/// else the message.
pub open spec fn label_source(label: Option<Seq<char>>, message: Seq<char>) -> Seq<char> {
    match label {
        Some(given) => given,
        None => message,
    }
}

/// The invocation that rebuilds the configuration at the resolved `path`: the
/// rebuild script with the path and the sanitized label, in this order.
pub open spec fn rebuild_invocation(
    script_dir: Seq<char>,
    path: PathBuf,
    label: Option<Seq<char>>,
    message: Seq<char>,
) -> ScriptInvocationView {
    bare_invocation(script_dir, Script::Rebuild).with_arg(ArgumentView::Path(path)).with_arg(
        ArgumentView::Text(sanitize(label_source(label, message))),
    )
}

/// The invocation that updates the configuration at the resolved `path`: the
/// update script with the path alone.
pub open spec fn update_invocation(script_dir: Seq<char>, path: PathBuf) -> ScriptInvocationView {
    bare_invocation(script_dir, Script::Update).with_arg(ArgumentView::Path(path))
}

/// The message of the rebuild that follows an update.
pub open spec fn update_message() -> Seq<char> {
    "update"@
}

/// The rebuild that follows an update of the configuration at the resolved
/// `path`: of that path, without a label of its own.
pub open spec fn rebuild_after_update(path: PathBuf) -> OperationView {
    OperationView::Rebuild { path, label: None, message: update_message() }
}

/// The launch of `invocation` with nothing to follow.
pub open spec fn last_launch(invocation: ScriptInvocationView) -> LaunchView {
    LaunchView { invocation, follow_up: None }
}

/// What an update of the configuration at the resolved `path` launches: the
/// update script, followed by a rebuild.
pub open spec fn update_launch(script_dir: Seq<char>, path: PathBuf) -> LaunchView {
    LaunchView {
        invocation: update_invocation(script_dir, path),
        follow_up: Some(rebuild_after_update(path)),
    }
}

/// Whether the operation names a path, which is resolved before anything runs.
pub open spec fn has_path(operation: OperationView) -> bool {
    operation is Rebuild || operation is Update
}

/// What `operation` launches where its path, if it names one, resolves to
/// `resolved`.
pub open spec fn launch_of(
    script_dir: Seq<char>,
    operation: OperationView,
    resolved: PathBuf,
) -> LaunchView {
    match operation {
        OperationView::Rebuild { path, label, message } => last_launch(
            rebuild_invocation(script_dir, resolved, label, message),
        ),
        OperationView::Update { path } => update_launch(script_dir, resolved),
        OperationView::Clean => last_launch(bare_invocation(script_dir, Script::Clean)),
        OperationView::Audit => last_launch(bare_invocation(script_dir, Script::Audit)),
    }
}

/// What follows the end of a script. A script that could not be started ends
/// everything. Otherwise the follow-up is dispatched where there is one,
/// however the script ended; where there is none, the process ends with the
/// script's exit code.
pub open spec fn settled(follow_up: Option<OperationView>, outcome: Outcome) -> NextView {
    match outcome {
        Outcome::SpawnFailed => NextView::Fail(DispatchError::ScriptSpawn),
        Outcome::Exited(code) => match follow_up {
            Some(operation) => NextView::Dispatch(operation),
            None => NextView::Exit(code),
        },
        Outcome::Interrupted => match follow_up {
            Some(operation) => NextView::Dispatch(operation),
            None => NextView::Exit(INTERRUPTED_EXIT_CODE),
        },
    }
}

/// Builds the rebuild's invocation from the outcome of resolving its path:
/// the rebuild script with the resolved path and the sanitized label. Fails
/// where the path did not resolve.
pub fn rebuild_resolved(
    script_dir: &str,
    resolved: Result<PathBuf, std::io::Error>,
    label: Option<&str>,
    message: &str,
) -> (built: Result<ScriptInvocation, DispatchError>)
    ensures
        resolved matches Ok(path) ==> (built matches Ok(invocation) && invocation@
            == rebuild_invocation(script_dir@, path, text_of(label), message@)),
        resolved is Err ==> (built matches Err(error) && error == DispatchError::PathResolution),
{
    match resolved {
        Ok(path) => {
            let source = match label {
                Some(given) => given,
                None => message,
            };
            let mut invocation = script_command(script_dir, Script::Rebuild);
            invocation.arg(Argument::Path(path));
            invocation.arg(Argument::Text(sanitize_label(source)));
            Ok(invocation)
        },
        Err(_) => Err(DispatchError::PathResolution),
    }
}

/// Resolves `nixos_path` and builds the rebuild's invocation: the rebuild
/// script with the resolved path and the sanitized label. Fails where the
/// path does not resolve.
pub fn rebuild(script_dir: &str, nixos_path: &PathBuf, label: Option<&str>, message: &str) -> (built:
    Result<ScriptInvocation, DispatchError>)
    ensures
        built matches Ok(invocation) ==> exists|path: PathBuf|
            invocation@ == rebuild_invocation(script_dir@, path, text_of(label), message@),
        built matches Err(error) ==> error == DispatchError::PathResolution,
{
    rebuild_resolved(script_dir, try_resolve(nixos_path), label, message)
}

/// Builds what an update launches from the outcome of resolving its path: the
/// update script with the resolved path, followed by a rebuild of that path
/// with the message `update`. Fails where the path did not resolve.
pub fn update_resolved(script_dir: &str, resolved: Result<PathBuf, std::io::Error>) -> (built: Result<
    Launch,
    DispatchError,
>)
    ensures
        resolved matches Ok(path) ==> (built matches Ok(launch) && launch@ == update_launch(
            script_dir@,
            path,
        )),
        resolved is Err ==> (built matches Err(error) && error == DispatchError::PathResolution),
{
    match resolved {
        Ok(path) => {
            let follow_up = Operation::Rebuild {
                path: path.clone(),
                label: None,
                message: String::from_str("update"),
            };
            let mut invocation = script_command(script_dir, Script::Update);
            invocation.arg(Argument::Path(path));
            Ok(Launch { invocation, follow_up: Some(follow_up) })
        },
        Err(_) => Err(DispatchError::PathResolution),
    }
}

/// Resolves `nixos_path` and builds what an update launches: the update
/// script with the resolved path, followed by a rebuild of that path with the
/// message `update`. Fails where the path does not resolve.
pub fn update(script_dir: &str, nixos_path: &PathBuf) -> (built: Result<Launch, DispatchError>)
    ensures
        built matches Ok(launch) ==> exists|path: PathBuf|
            launch@ == update_launch(script_dir@, path),
        built matches Err(error) ==> error == DispatchError::PathResolution,
{
    update_resolved(script_dir, try_resolve(nixos_path))
}

/// The invocation that cleans up: the clean script without arguments.
pub fn clean(script_dir: &str) -> (invocation: ScriptInvocation)
    ensures
        invocation@ == bare_invocation(script_dir@, Script::Clean),
        invocation@.args.len() == 0,
{
    script_command(script_dir, Script::Clean)
}

/// The invocation that audits: the audit script without arguments.
pub fn audit(script_dir: &str) -> (invocation: ScriptInvocation)
    ensures
        invocation@ == bare_invocation(script_dir@, Script::Audit),
        invocation@.args.len() == 0,
{
    script_command(script_dir, Script::Audit)
}

/// Says what `operation` launches. An operation that names a path has it
/// resolved first and fails where it does not resolve; the others always
/// succeed.
pub fn dispatch(script_dir: &str, operation: &Operation) -> (launched: Result<Launch, DispatchError>)
    ensures
        launched matches Ok(launch) ==> exists|resolved: PathBuf|
            launch@ == launch_of(script_dir@, operation@, resolved),
        launched matches Err(error) ==> error == DispatchError::PathResolution && has_path(
            operation@,
        ),
{
    match operation {
        Operation::Rebuild { path, label, message } => {
            let label = match label {
                Some(text) => Some(text.as_str()),
                None => None,
            };
            match rebuild(script_dir, path, label, message.as_str()) {
                Ok(invocation) => {
                    let launch = Launch { invocation, follow_up: None };
                    proof {
                        let resolved = choose|resolved: PathBuf|
                            invocation@ == rebuild_invocation(
                                script_dir@,
                                resolved,
                                text_of(label),
                                message@,
                            );
                        assert(launch@ == launch_of(script_dir@, operation@, resolved));
                    }
                    Ok(launch)
                },
                Err(error) => Err(error),
            }
        },
        Operation::Update { path } => match update(script_dir, path) {
            Ok(launch) => {
                proof {
                    let resolved = choose|resolved: PathBuf|
                        launch@ == update_launch(script_dir@, resolved);
                    assert(launch@ == launch_of(script_dir@, operation@, resolved));
                }
                Ok(launch)
            },
            Err(error) => Err(error),
        },
        Operation::Clean => {
            let launch = Launch { invocation: clean(script_dir), follow_up: None };
            assert(launch@ == launch_of(script_dir@, operation@, arbitrary()));
            Ok(launch)
        },
        Operation::Audit => {
            let launch = Launch { invocation: audit(script_dir), follow_up: None };
            assert(launch@ == launch_of(script_dir@, operation@, arbitrary()));
            Ok(launch)
        },
    }
}

/// Says what follows once the launched script has ended as `outcome` tells:
/// nothing where it could not be started, else the follow-up where there is
/// one, else the end of the process with the script's exit code.
pub fn settle(follow_up: Option<Operation>, outcome: Outcome) -> (next: Next)
    ensures
        next@ == settled(operation_of(follow_up), outcome),
{
    match outcome {
        Outcome::SpawnFailed => Next::Fail(DispatchError::ScriptSpawn),
        Outcome::Exited(code) => match follow_up {
            Some(operation) => Next::Dispatch(operation),
            None => Next::Exit(code),
        },
        Outcome::Interrupted => match follow_up {
            Some(operation) => Next::Dispatch(operation),
            None => Next::Exit(INTERRUPTED_EXIT_CODE),
        },
    }
}

/// A rebuild hands its script two arguments: the resolved path, then a label.
/// The label is made of label characters only, from the label that was given
/// or, where none was, from the message.
pub proof fn rebuild_arguments(
    script_dir: Seq<char>,
    path: PathBuf,
    label: Option<Seq<char>>,
    message: Seq<char>,
)
    ensures
        rebuild_invocation(script_dir, path, label, message).args == seq![
            ArgumentView::Path(path),
            ArgumentView::Text(sanitize(label_source(label, message))),
        ],
        label matches Some(given) ==> label_source(label, message) == given,
        label is None ==> label_source(label, message) == message,
        is_label(sanitize(label_source(label, message))),
{
    sanitize_is_label(label_source(label, message));
}

/// An update hands its script one argument, the resolved path; clean and
/// audit hand theirs none.
pub proof fn update_clean_and_audit_arguments(script_dir: Seq<char>, path: PathBuf)
    ensures
        update_invocation(script_dir, path).args == seq![ArgumentView::Path(path)],
        bare_invocation(script_dir, Script::Clean).args == Seq::<ArgumentView>::empty(),
        bare_invocation(script_dir, Script::Audit).args == Seq::<ArgumentView>::empty(),
{
}

/// However the update script ended, once it has run a rebuild of the same
/// path follows, and that rebuild is labelled `update`.
pub proof fn update_is_followed_by_rebuild(
    script_dir: Seq<char>,
    path: PathBuf,
    outcome: Outcome,
    resolved: PathBuf,
)
    requires
        !(outcome is SpawnFailed),
    ensures
        settled(update_launch(script_dir, path).follow_up, outcome) == NextView::Dispatch(
            rebuild_after_update(path),
        ),
        launch_of(script_dir, rebuild_after_update(path), resolved) == last_launch(
            bare_invocation(script_dir, Script::Rebuild).with_arg(
                ArgumentView::Path(resolved),
            ).with_arg(ArgumentView::Text(update_message())),
        ),
{
    reveal_strlit("update");
    sanitize_of_label(update_message());
}

/// What follows an operation has nothing to follow it: an operation runs two
/// scripts at most.
pub proof fn follow_up_is_last(
    script_dir: Seq<char>,
    operation: OperationView,
    resolved: PathBuf,
    resolved_again: PathBuf,
)
    ensures
        launch_of(script_dir, operation, resolved).follow_up matches Some(next) ==> launch_of(
            script_dir,
            next,
            resolved_again,
        ).follow_up is None,
{
}

/// A script that could not be started ends the dispatch: nothing is
/// dispatched after it, whatever was to follow.
pub proof fn spawn_failure_is_final(follow_up: Option<OperationView>)
    ensures
        settled(follow_up, Outcome::SpawnFailed) == NextView::Fail(DispatchError::ScriptSpawn),
{
}

/// Where nothing is to follow, the process ends with the exit code of the
/// script that ran.
pub proof fn exit_code_is_handed_on(code: i32)
    ensures
        settled(None, Outcome::Exited(code)) == NextView::Exit(code),
{
}

} // verus!
