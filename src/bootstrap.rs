//! The decisions of the bootstrap sequence. The caller performs each action
//! (write the specification, build the application state, run the server)
//! and reports its outcome back as an event, until the sequence exits.
use crate::api_types::SupportedLanguages;
use crate::language_selection::{opt_view, texts_of};
use crate::startup::{
    cli_config_spec, langs_view, lists_valid_forms, resolve_config, spec_output_path,
    spec_output_path_text, CliArgs, ConfigModel, InvalidLanguageList, StartupConfig,
};
use vstd::prelude::*;

verus! {

/// Where the bootstrap sequence stands.
#[derive(Debug)]
pub enum Phase {
    /// Waiting for the specification to be written.
    Exporting,
    /// Waiting for the application state; the server is then bound to `host:port`.
    Initializing { host: String, port: u16 },
    /// Waiting for the server to shut down.
    Serving,
    /// The sequence has exited.
    Finished,
}

/// The outcome of the action that was asked for last.
#[derive(Debug)]
pub enum Event {
    Completed,
    /// The action failed, with the cause as text.
    Failed(String),
}

/// Why a run ends with a failure.
#[derive(Debug)]
pub enum StartupError {
    InvalidLanguageList(InvalidLanguageList),
    ExportFailure(String),
    StateInitFailure(String),
    ServerFailure(String),
}

/// What the caller does next.
#[derive(Debug)]
pub enum Action {
    /// Write the API specification to `path`.
    WriteSpec { path: String },
    /// Build the application state.
    InitState { mount_dir: Option<String>, languages: Option<Vec<SupportedLanguages>> },
    /// Run the server with the state just built, until it shuts down.
    RunServer { host: String, port: u16 },
    /// End the process: with success, or with the error reported.
    Exit(Result<(), StartupError>),
}

/// The bootstrap sequence of one process run.
#[derive(Debug)]
pub struct Bootstrap {
    pub phase: Phase,
}

/// The next phase and action after `ev` in phase `p`.
pub open spec fn step_spec(p: Phase, ev: Event) -> (Phase, Action) {
    match p {
        Phase::Exporting => match ev {
            Event::Completed => (Phase::Finished, Action::Exit(Ok(()))),
            Event::Failed(m) => (
                Phase::Finished,
                Action::Exit(Err(StartupError::ExportFailure(m))),
            ),
        },
        Phase::Initializing { host, port } => match ev {
            Event::Completed => (Phase::Serving, Action::RunServer { host, port }),
            Event::Failed(m) => (
                Phase::Finished,
                Action::Exit(Err(StartupError::StateInitFailure(m))),
            ),
        },
        Phase::Serving => match ev {
            Event::Completed => (Phase::Finished, Action::Exit(Ok(()))),
            Event::Failed(m) => (
                Phase::Finished,
                Action::Exit(Err(StartupError::ServerFailure(m))),
            ),
        },
        Phase::Finished => (Phase::Finished, Action::Exit(Ok(()))),
    }
}

/// What `Bootstrap::start` gives for these arguments: export mode writes the
/// specification; an invalid language list exits at once with every offending
/// token and the valid forms; otherwise the state is built with the resolved
/// mount directory and languages, and the server is bound to the resolved
/// host and port next.
pub open spec fn start_spec(cli: CliArgs, env: Option<Seq<char>>, b: Bootstrap, a: Action) -> bool {
    match cli_config_spec(cli, env) {
        Ok(ConfigModel::ExportSpec) => {
            &&& b.phase is Exporting
            &&& a matches Action::WriteSpec { path } && path@ == spec_output_path_text()
        },
        Ok(ConfigModel::RunServer(m)) => {
            &&& b.phase matches Phase::Initializing { host, port } && host@ == m.host && port
                == m.port
            &&& a matches Action::InitState { mount_dir, languages } && opt_view(mount_dir)
                == m.mount_dir && langs_view(languages) == m.languages
        },
        Err(bad) => {
            &&& b.phase is Finished
            &&& a matches Action::Exit(Err(StartupError::InvalidLanguageList(e))) && texts_of(
                e.tokens@,
            ) == bad && lists_valid_forms(e.valid_forms@)
        },
    }
}

/// Whether `a` calls the state initializer or the server runner.
pub open spec fn starts_collaborator(a: Action) -> bool {
    a is InitState || a is RunServer
}

/// The actions taken from phase `p` as the events come in, until the sequence exits.
pub open spec fn actions_of_run(p: Phase, events: Seq<Event>) -> Seq<Action>
    decreases events.len(),
{
    if events.len() == 0 || p is Finished {
        Seq::empty()
    } else {
        let (q, a) = step_spec(p, events[0]);
        seq![a] + actions_of_run(q, events.drop_first())
    }
}

impl Bootstrap {
    /// Resolves the configuration and gives the first action.
    pub fn start(cli: CliArgs, env_languages: Option<String>) -> (r: (Bootstrap, Action))
        ensures
            start_spec(cli, opt_view(env_languages), r.0, r.1),
    {
        match resolve_config(cli, env_languages) {
            Ok(StartupConfig::ExportSpec) => (
                Bootstrap { phase: Phase::Exporting },
                Action::WriteSpec { path: spec_output_path() },
            ),
            Ok(StartupConfig::RunServer(c)) => (
                Bootstrap { phase: Phase::Initializing { host: c.host, port: c.port } },
                Action::InitState { mount_dir: c.mount_dir, languages: c.languages },
            ),
            Err(e) => (
                Bootstrap { phase: Phase::Finished },
                Action::Exit(Err(StartupError::InvalidLanguageList(e))),
            ),
        }
    }

    /// Whether the sequence has exited.
    pub fn is_finished(&self) -> (r: bool)
        ensures
            r == self.phase is Finished,
    {
        matches!(self.phase, Phase::Finished)
    }

    /// Takes the outcome of the last action and gives the next one.
    pub fn on_event(&mut self, ev: Event) -> (a: Action)
        requires
            !(old(self).phase is Finished),
        ensures
            (final(self).phase, a) == step_spec(old(self).phase, ev),
    {
        let mut p = Phase::Finished;
        std::mem::swap(&mut p, &mut self.phase);
        match p {
            Phase::Exporting => match ev {
                Event::Completed => Action::Exit(Ok(())),
                Event::Failed(m) => Action::Exit(Err(StartupError::ExportFailure(m))),
            },
            Phase::Initializing { host, port } => match ev {
                Event::Completed => {
                    self.phase = Phase::Serving;
                    Action::RunServer { host, port }
                },
                Event::Failed(m) => Action::Exit(Err(StartupError::StateInitFailure(m))),
            },
            Phase::Serving => match ev {
                Event::Completed => Action::Exit(Ok(())),
                Event::Failed(m) => Action::Exit(Err(StartupError::ServerFailure(m))),
            },
            Phase::Finished => Action::Exit(Ok(())),
        }
    }
}

/// From a finished sequence no action is taken.
pub proof fn lemma_finished_run_is_empty(events: Seq<Event>)
    ensures
        actions_of_run(Phase::Finished, events) == Seq::<Action>::empty(),
{
}

/// Once exporting, no action of the run calls the state initializer or the
/// server runner, whatever the outcomes reported.
pub proof fn lemma_exporting_run_starts_no_collaborator(events: Seq<Event>)
    ensures
        forall|i: int|
            0 <= i < actions_of_run(Phase::Exporting, events).len() ==> !starts_collaborator(
                #[trigger] actions_of_run(Phase::Exporting, events)[i],
            ),
{
    if events.len() > 0 {
        let (q, a) = step_spec(Phase::Exporting, events[0]);
        lemma_finished_run_is_empty(events.drop_first());
        assert(actions_of_run(Phase::Exporting, events) =~= seq![a]);
    }
}

/// Export mode never calls the state initializer or the server runner: not
/// as its first action, nor in the rest of the run.
pub proof fn lemma_export_mode_starts_no_collaborator(
    cli: CliArgs,
    env: Option<Seq<char>>,
    b: Bootstrap,
    first: Action,
    events: Seq<Event>,
)
    requires
        cli.write_openapi,
        start_spec(cli, env, b, first),
    ensures
        !starts_collaborator(first),
        forall|i: int|
            0 <= i < actions_of_run(b.phase, events).len() ==> !starts_collaborator(
                #[trigger] actions_of_run(b.phase, events)[i],
            ),
{
    lemma_exporting_run_starts_no_collaborator(events);
}

/// An invalid language list ends the run at once with that error: no
/// collaborator is called, first or later.
pub proof fn lemma_invalid_languages_start_no_collaborator(
    cli: CliArgs,
    env: Option<Seq<char>>,
    b: Bootstrap,
    first: Action,
    events: Seq<Event>,
)
    requires
        cli_config_spec(cli, env) is Err,
        start_spec(cli, env, b, first),
    ensures
        first matches Action::Exit(Err(StartupError::InvalidLanguageList(_))),
        !starts_collaborator(first),
        actions_of_run(b.phase, events) == Seq::<Action>::empty(),
{
    lemma_finished_run_is_empty(events);
}

} // verus!
