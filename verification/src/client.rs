//! The life of the client: from its configuration to the connections, and what it ends with.
//!
//! The caller performs the [`Stage`]s and hands back what came of them.

use vstd::prelude::*;
use vstd::string::*;

use crate::event::{Event, EventView};
use crate::store::ProviderError;

verus! {

/// Everything needed to run the client that does not concern identity, keys and servers.
#[derive(Debug, Clone)]
pub struct Config {
    /// This device's ID; `None` if the configuration does not cover multi-device operation.
    pub device_id: Option<u64>,
    /// Directory holding this client's persistent state (`contacts.json`, `nonces.json`).
    pub state_dir: String,
}

/// Whether unknown identities are blocked: never, since nobody is there to accept them.
pub fn block_unknown_identities() -> (blocked: Result<bool, ProviderError>)
    ensures
        blocked == Ok::<bool, ProviderError>(false),
{
    Ok(false)
}

/// What has to be done before messages can flow, in this order, and the flow itself.
#[derive(Debug, Clone, Copy, PartialEq, Eq, Structural)]
pub enum Stage {
    /// Create the directory for the persistent state.
    CreateStateDir,
    /// Load `nonces.json`.
    LoadNonces,
    /// Load `contacts.json`.
    LoadContacts,
    /// Put the chat server's configuration together.
    ConfigureChatServer,
    ConnectChatServer,
    ConnectMediator,
    /// Serve both connections and the message flow until one of them ends.
    Serve,
}

/// What ended first while the client was serving.
#[derive(Debug, Clone, Copy, PartialEq, Eq, Structural)]
pub enum Served {
    ChatServer,
    Mediator,
    Messages,
}

/// Why the client ended: where it failed, and the cause if there is more to say.
#[derive(Debug)]
pub struct RunError {
    pub context: Option<String>,
    pub cause: Option<String>,
}

/// The mathematical value of a [`RunError`].
#[verifier::ext_equal]
pub ghost struct RunErrorView {
    pub context: Option<Seq<char>>,
    pub cause: Option<Seq<char>>,
}

impl View for RunError {
    type V = RunErrorView;

    open spec fn view(&self) -> RunErrorView {
        RunErrorView { context: self.context.deep_view(), cause: self.cause.deep_view() }
    }
}

/// What comes after a stage.
#[derive(Debug)]
pub enum RunStep {
    Perform(Stage),
    /// The connections are up: report that, and go on with this stage.
    Connected(Event, Stage),
    Ended(Result<(), RunError>),
}

/// The mathematical value of a [`RunStep`].
#[verifier::ext_equal]
pub ghost enum RunStepView {
    Perform(Stage),
    Connected(EventView, Stage),
    Ended(Result<(), RunErrorView>),
}

impl View for RunStep {
    type V = RunStepView;

    open spec fn view(&self) -> RunStepView {
        match self {
            RunStep::Perform(stage) => RunStepView::Perform(*stage),
            RunStep::Connected(event, stage) => RunStepView::Connected(event@, *stage),
            RunStep::Ended(Ok(_)) => RunStepView::Ended(Ok(())),
            RunStep::Ended(Err(error)) => RunStepView::Ended(Err(error@)),
        }
    }
}

/// What the client ends with if the configuration does not cover multi-device operation.
pub open spec fn not_multi_device() -> RunErrorView {
    RunErrorView {
        context: Some(
            "Multi-device must be configured: pass --d2x-device-id, --csp-device-id, --device-group-key and --expected-device-slot-state"@,
        ),
        cause: None,
    }
}

/// How the client begins.
pub open spec fn begun(config: Config) -> RunStepView {
    match config.device_id {
        None => RunStepView::Ended(Err(not_multi_device())),
        Some(_) => RunStepView::Perform(Stage::CreateStateDir),
    }
}

/// Where a stage failed.
pub open spec fn context_of(stage: Stage, state_dir: Seq<char>) -> Option<Seq<char>> {
    match stage {
        Stage::CreateStateDir => Some("Failed to create "@ + state_dir),
        Stage::LoadNonces => Some("Failed to load nonces.json"@),
        Stage::LoadContacts => Some("Failed to load contacts.json"@),
        Stage::ConfigureChatServer => Some("CSP configuration should be valid"@),
        _ => None,
    }
}

/// What comes after a stage that is complete.
pub open spec fn following(stage: Stage) -> RunStepView {
    match stage {
        Stage::CreateStateDir => RunStepView::Perform(Stage::LoadNonces),
        Stage::LoadNonces => RunStepView::Perform(Stage::LoadContacts),
        Stage::LoadContacts => RunStepView::Perform(Stage::ConfigureChatServer),
        Stage::ConfigureChatServer => RunStepView::Perform(Stage::ConnectChatServer),
        Stage::ConnectChatServer => RunStepView::Perform(Stage::ConnectMediator),
        Stage::ConnectMediator => RunStepView::Connected(EventView::Connected, Stage::Serve),
        Stage::Serve => RunStepView::Ended(Ok(())),
    }
}

/// What comes after a stage.
pub open spec fn run_next(
    stage: Stage,
    outcome: Result<(), Seq<char>>,
    state_dir: Seq<char>,
) -> RunStepView {
    match outcome {
        Ok(_) => following(stage),
        Err(cause) => RunStepView::Ended(
            Err(RunErrorView { context: context_of(stage, state_dir), cause: Some(cause) }),
        ),
    }
}

/// How the client begins: without multi-device operation it does not.
pub fn begin(config: &Config) -> (step: RunStep)
    ensures
        step@ == begun(*config),
{
    if config.device_id.is_none() {
        return RunStep::Ended(
            Err(
                RunError {
                    context: Some(
                        "Multi-device must be configured: pass --d2x-device-id, --csp-device-id, --device-group-key and --expected-device-slot-state".to_owned(),
                    ),
                    cause: None,
                },
            ),
        );
    }
    RunStep::Perform(Stage::CreateStateDir)
}

/// The value of a result whose error is a text.
pub open spec fn outcome_view(outcome: Result<(), String>) -> Result<(), Seq<char>> {
    match outcome {
        Ok(_) => Ok(()),
        Err(cause) => Err(cause@),
    }
}

/// Goes on after a stage.
pub fn run(config: &Config, stage: Stage, outcome: Result<(), String>) -> (step: RunStep)
    ensures
        step@ == run_next(stage, outcome_view(outcome), config.state_dir@),
{
    let cause = match outcome {
        Ok(_) => {
            return match stage {
                Stage::CreateStateDir => RunStep::Perform(Stage::LoadNonces),
                Stage::LoadNonces => RunStep::Perform(Stage::LoadContacts),
                Stage::LoadContacts => RunStep::Perform(Stage::ConfigureChatServer),
                Stage::ConfigureChatServer => RunStep::Perform(Stage::ConnectChatServer),
                Stage::ConnectChatServer => RunStep::Perform(Stage::ConnectMediator),
                Stage::ConnectMediator => RunStep::Connected(Event::Connected, Stage::Serve),
                Stage::Serve => RunStep::Ended(Ok(())),
            };
        },
        Err(cause) => cause,
    };
    let context: Option<String> = match stage {
        Stage::CreateStateDir => {
            let mut text: String = "Failed to create ".to_owned();
            text.append(config.state_dir.as_str());
            Some(text)
        },
        Stage::LoadNonces => Some("Failed to load nonces.json".to_owned()),
        Stage::LoadContacts => Some("Failed to load contacts.json".to_owned()),
        Stage::ConfigureChatServer => Some("CSP configuration should be valid".to_owned()),
        _ => None,
    };
    RunStep::Ended(Err(RunError { context, cause: Some(cause) }))
}

/// What ended, in words.
pub open spec fn what_ended(served: Served) -> Seq<char> {
    match served {
        Served::ChatServer => "CSP connection ended"@,
        Served::Mediator => "D2M connection ended"@,
        Served::Messages => "Message processing ended"@,
    }
}

/// What the client ends with, by what ended first and how.
pub open spec fn end_of(served: Served, outcome: Result<(), Seq<char>>) -> Result<(), RunErrorView> {
    match outcome {
        Ok(_) => Ok(()),
        Err(cause) => Err(
            RunErrorView { context: Some(what_ended(served)), cause: Some(cause) },
        ),
    }
}

/// What the client ends with once one of the connections or the message flow has ended: an error
/// only if that one ended with an error.
pub fn end(served: Served, outcome: Result<(), String>) -> (result: Result<(), RunError>)
    ensures
        match outcome {
            Ok(_) => result is Ok,
            Err(cause) => result matches Err(error) && error@ == (RunErrorView {
                context: Some(what_ended(served)),
                cause: Some(cause@),
            }),
        },
        match end_of(served, outcome_view(outcome)) {
            Ok(_) => result is Ok,
            Err(expected) => result matches Err(error) && error@ == expected,
        },
{
    match outcome {
        Ok(_) => Ok(()),
        Err(cause) => {
            let context: &str = match served {
                Served::ChatServer => "CSP connection ended",
                Served::Mediator => "D2M connection ended",
                Served::Messages => "Message processing ended",
            };
            Err(RunError { context: Some(context.to_owned()), cause: Some(cause) })
        },
    }
}

/// The stages that were performed before a stage, in order.
pub open spec fn stages_before(stage: Stage) -> Seq<Stage> {
    match stage {
        Stage::CreateStateDir => Seq::empty(),
        Stage::LoadNonces => seq![Stage::CreateStateDir],
        Stage::LoadContacts => seq![Stage::CreateStateDir, Stage::LoadNonces],
        Stage::ConfigureChatServer => stages_before_chat(),
        Stage::ConnectChatServer => stages_before_chat().push(Stage::ConfigureChatServer),
        Stage::ConnectMediator => stages_before_chat().push(Stage::ConfigureChatServer).push(
            Stage::ConnectChatServer,
        ),
        Stage::Serve => stages_before_chat().push(Stage::ConfigureChatServer).push(
            Stage::ConnectChatServer,
        ).push(Stage::ConnectMediator),
    }
}

/// What happens before the chat server is dealt with.
pub open spec fn stages_before_chat() -> Seq<Stage> {
    seq![Stage::CreateStateDir, Stage::LoadNonces, Stage::LoadContacts]
}

/// That the connections are up is reported exactly when the connection to the mediator has been
/// established as the last one; a stage that fails ends the client, and a stage that is complete
/// never leads back to an earlier one.
pub proof fn connected_is_reported_once(
    stage: Stage,
    outcome: Result<(), Seq<char>>,
    state_dir: Seq<char>,
)
    ensures
        run_next(stage, outcome, state_dir) is Connected <==> stage is ConnectMediator
            && outcome is Ok,
        outcome is Err ==> (run_next(stage, outcome, state_dir) matches RunStepView::Ended(Err(_))),
        match run_next(stage, outcome, state_dir) {
            RunStepView::Perform(later) => stages_before(later) == stages_before(stage).push(stage),
            RunStepView::Connected(_, later) => stages_before(later) == stages_before(stage).push(
                stage,
            ),
            RunStepView::Ended(_) => true,
        },
{
}

/// The client goes through its stages in order: the state directory, the nonces, the contacts, the
/// chat server's configuration, both connections, and then it reports that it is connected and
/// serves; once that is over it ends without an error.
pub proof fn stages_follow_each_other(state_dir: Seq<char>)
    ensures
        run_next(Stage::CreateStateDir, Ok(()), state_dir) == RunStepView::Perform(
            Stage::LoadNonces,
        ),
        run_next(Stage::LoadNonces, Ok(()), state_dir) == RunStepView::Perform(
            Stage::LoadContacts,
        ),
        run_next(Stage::LoadContacts, Ok(()), state_dir) == RunStepView::Perform(
            Stage::ConfigureChatServer,
        ),
        run_next(Stage::ConfigureChatServer, Ok(()), state_dir) == RunStepView::Perform(
            Stage::ConnectChatServer,
        ),
        run_next(Stage::ConnectChatServer, Ok(()), state_dir) == RunStepView::Perform(
            Stage::ConnectMediator,
        ),
        run_next(Stage::ConnectMediator, Ok(()), state_dir) == RunStepView::Connected(
            EventView::Connected,
            Stage::Serve,
        ),
        run_next(Stage::Serve, Ok(()), state_dir) == RunStepView::Ended(Ok(())),
{
}

/// A stage that fails ends the client with the cause, and says where unless a connection failed.
pub proof fn failed_stages_are_explained(stage: Stage, cause: Seq<char>, state_dir: Seq<char>)
    ensures
        run_next(stage, Err(cause), state_dir) == RunStepView::Ended(
            Err(
                RunErrorView {
                    context: match stage {
                        Stage::CreateStateDir => Some("Failed to create "@ + state_dir),
                        Stage::LoadNonces => Some("Failed to load nonces.json"@),
                        Stage::LoadContacts => Some("Failed to load contacts.json"@),
                        Stage::ConfigureChatServer => Some("CSP configuration should be valid"@),
                        Stage::ConnectChatServer => None,
                        Stage::ConnectMediator => None,
                        Stage::Serve => None,
                    },
                    cause: Some(cause),
                },
            ),
        ),
        what_ended(Served::ChatServer) == "CSP connection ended"@,
        what_ended(Served::Mediator) == "D2M connection ended"@,
        what_ended(Served::Messages) == "Message processing ended"@,
{
}

/// The client begins exactly if it has a device ID, with the directory for its state; without one
/// it ends with what has to be configured.
pub proof fn multi_device_is_required(config: Config)
    ensures
        config.device_id is Some ==> begun(config) == RunStepView::Perform(Stage::CreateStateDir),
        config.device_id is None ==> begun(config) == RunStepView::Ended(
            Err(
                RunErrorView {
                    context: Some(
                        "Multi-device must be configured: pass --d2x-device-id, --csp-device-id, --device-group-key and --expected-device-slot-state"@,
                    ),
                    cause: None,
                },
            ),
        ),
{
}

/// The client ends without an error exactly if what ended first did; else the error says what ended
/// first, and why.
pub proof fn first_end_decides(served: Served, cause: Seq<char>)
    ensures
        end_of(served, Ok(())) == Ok::<(), RunErrorView>(()),
        end_of(served, Err(cause)) == Err::<(), RunErrorView>(
            RunErrorView {
                context: Some(
                    match served {
                        Served::ChatServer => "CSP connection ended"@,
                        Served::Mediator => "D2M connection ended"@,
                        Served::Messages => "Message processing ended"@,
                    },
                ),
                cause: Some(cause),
            },
        ),
{
}

} // verus!
