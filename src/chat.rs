//! One chat request, turned into exactly one session turn on a fresh backend.
//!
//! The backend and its store handle are confined to the worker that runs the
//! request, so the steps that touch them are carried out by the caller: a
//! `ChatFlow` says which step comes next and is told how it went.
use vstd::prelude::*;
use crate::config::{Config, MemoryConfig};
use crate::error::AppError;

verus! {

/// Body of `POST /api/chat`.
#[derive(Debug)]
pub struct ChatRequest {
    pub message: String,
    pub model: Option<String>,
}

/// Reply to a chat request: the backend's answer and the model that produced it.
#[derive(Debug)]
pub struct ChatResponse {
    pub response: String,
    pub model: String,
}

/// What a session backend is built with.
#[derive(Debug)]
pub struct AgentConfig {
    pub model: String,
    pub context_window: usize,
    pub reserve_tokens: usize,
}

/// The model a request asks for, or the configured default.
pub open spec fn resolved_model(requested: Option<String>, default_model: String) -> String {
    match requested {
        Some(m) => m,
        None => default_model,
    }
}

pub open spec fn agent_config_spec(config: Config, requested: Option<String>) -> AgentConfig {
    AgentConfig {
        model: resolved_model(requested, config.agent.default_model),
        context_window: config.agent.context_window,
        reserve_tokens: config.agent.reserve_tokens,
    }
}

/// Settings of the backend for one request: the requested model if any, the
/// configured default otherwise, and the configured token budgets.
pub fn agent_config(config: &Config, requested: &Option<String>) -> (r: AgentConfig)
    ensures
        r == agent_config_spec(*config, *requested),
{
    let model = match requested {
        Some(m) => m.clone(),
        None => config.agent.default_model.clone(),
    };
    AgentConfig {
        model,
        context_window: config.agent.context_window,
        reserve_tokens: config.agent.reserve_tokens,
    }
}

/// The step a flow waits on.
pub enum ChatPhase {
    OpeningStore,
    BuildingAgent,
    StartingSession,
    RunningTurn,
    Finished,
}

/// What the caller is to do next.
pub enum ChatAction {
    /// Open the memory store with these parameters.
    OpenStore(MemoryConfig),
    /// Build the backend on the opened store.
    BuildAgent(AgentConfig),
    /// Start a new session on the backend.
    StartSession,
    /// Submit this text as the session's only turn.
    RunTurn(String),
    /// Answer the request; the backend and the store are dropped.
    Reply(Result<ChatResponse, AppError>),
}

/// How the step the flow asked for went.
pub enum ChatEvent {
    /// The store opened, the backend was built, or the session started.
    Done,
    /// The turn produced this text on a backend that reports this model.
    Answered { response: String, model: String },
    /// The step failed with this message.
    Failed(String),
}

/// State of one chat request.
pub struct ChatFlow {
    pub config: Config,
    pub request: ChatRequest,
    pub phase: ChatPhase,
}

impl ChatFlow {
    /// The flow of a request that has not begun: its first step opens the store.
    pub open spec fn initial(config: Config, request: ChatRequest) -> ChatFlow {
        ChatFlow { config, request, phase: ChatPhase::OpeningStore }
    }

    pub open spec fn with_phase(self, phase: ChatPhase) -> ChatFlow {
        ChatFlow { phase, ..self }
    }

    /// Whether `e` can answer the step this flow waits on.
    pub open spec fn accepts_spec(&self, e: ChatEvent) -> bool {
        match (self.phase, e) {
            (ChatPhase::Finished, _) => false,
            (_, ChatEvent::Failed(_)) => true,
            (ChatPhase::RunningTurn, ChatEvent::Answered { .. }) => true,
            (ChatPhase::RunningTurn, _) => false,
            (_, ChatEvent::Done) => true,
            _ => false,
        }
    }

    /// The next state and action after `e`, for an event the flow accepts.
    pub open spec fn next(self, e: ChatEvent) -> (ChatFlow, ChatAction) {
        match e {
            ChatEvent::Failed(m) => (
                self.with_phase(ChatPhase::Finished),
                ChatAction::Reply(Err(AppError::Failed(m))),
            ),
            ChatEvent::Answered { response, model } => (
                self.with_phase(ChatPhase::Finished),
                ChatAction::Reply(Ok(ChatResponse { response, model })),
            ),
            ChatEvent::Done => match self.phase {
                ChatPhase::OpeningStore => (
                    self.with_phase(ChatPhase::BuildingAgent),
                    ChatAction::BuildAgent(agent_config_spec(self.config, self.request.model)),
                ),
                ChatPhase::BuildingAgent => (
                    self.with_phase(ChatPhase::StartingSession),
                    ChatAction::StartSession,
                ),
                _ => (self.with_phase(ChatPhase::RunningTurn), ChatAction::RunTurn(self.request.message)),
            },
        }
    }

    /// Begins a request: the flow owns its own copy of the configuration and
    /// asks first for the memory store.
    pub fn start(config: &Config, request: ChatRequest) -> (r: (ChatFlow, ChatAction))
        ensures
            r.0 == ChatFlow::initial(*config, request),
            r.1 == ChatAction::OpenStore(config.memory),
    {
        let memory = config.memory.clone();
        (ChatFlow { config: config.clone(), request, phase: ChatPhase::OpeningStore }, ChatAction::OpenStore(memory))
    }

    /// Whether `e` can answer the step this flow waits on.
    pub fn accepts(&self, e: &ChatEvent) -> (r: bool)
        ensures
            r == self.accepts_spec(*e),
    {
        match (&self.phase, e) {
            (ChatPhase::Finished, _) => false,
            (_, ChatEvent::Failed(_)) => true,
            (ChatPhase::RunningTurn, ChatEvent::Answered { .. }) => true,
            (ChatPhase::RunningTurn, _) => false,
            (_, ChatEvent::Done) => true,
            _ => false,
        }
    }

    /// Takes the outcome of the step asked for and says what to do next.
    pub fn step(&mut self, e: ChatEvent) -> (r: ChatAction)
        requires
            old(self).accepts_spec(e),
        ensures
            (*final(self), r) == old(self).next(e),
    {
        match e {
            ChatEvent::Failed(m) => {
                self.phase = ChatPhase::Finished;
                ChatAction::Reply(Err(AppError::Failed(m)))
            },
            ChatEvent::Answered { response, model } => {
                self.phase = ChatPhase::Finished;
                ChatAction::Reply(Ok(ChatResponse { response, model }))
            },
            ChatEvent::Done => match self.phase {
                ChatPhase::OpeningStore => {
                    self.phase = ChatPhase::BuildingAgent;
                    ChatAction::BuildAgent(agent_config(&self.config, &self.request.model))
                },
                ChatPhase::BuildingAgent => {
                    self.phase = ChatPhase::StartingSession;
                    ChatAction::StartSession
                },
                _ => {
                    self.phase = ChatPhase::RunningTurn;
                    ChatAction::RunTurn(self.request.message.clone())
                },
            },
        }
    }
}

/// The state and action once the store is open, the backend built and the
/// session started: the flow then asks for its turn.
pub open spec fn after_setup(config: Config, request: ChatRequest) -> (ChatFlow, ChatAction) {
    let f1 = ChatFlow::initial(config, request).next(ChatEvent::Done).0;
    let f2 = f1.next(ChatEvent::Done).0;
    f2.next(ChatEvent::Done)
}

/// A chat request builds its backend with the model it names, or with the
/// configured default when it names none; a backend that runs that model is
/// answered with that model's name.
pub proof fn lemma_reply_names_resolved_model(config: Config, request: ChatRequest, response: String)
    ensures
        ChatFlow::initial(config, request).next(ChatEvent::Done).1 == ChatAction::BuildAgent(
            agent_config_spec(config, request.model),
        ),
        request.model is Some ==> agent_config_spec(config, request.model).model == request.model->Some_0,
        request.model is None ==> agent_config_spec(config, request.model).model == config.agent.default_model,
        after_setup(config, request).0.accepts_spec(
            ChatEvent::Answered { response, model: agent_config_spec(config, request.model).model },
        ),
        after_setup(config, request).0.next(
            ChatEvent::Answered { response, model: agent_config_spec(config, request.model).model },
        ).1 == ChatAction::Reply(
            Ok(ChatResponse { response, model: agent_config_spec(config, request.model).model }),
        ),
{
}

/// Two requests never see each other's state: each flow submits only its own
/// message and replies only with what its own backend answered.
pub proof fn lemma_requests_are_isolated(
    config: Config,
    a: ChatRequest,
    b: ChatRequest,
    answer_a: String,
    model_a: String,
    answer_b: String,
    model_b: String,
)
    ensures
        after_setup(config, a).1 == ChatAction::RunTurn(a.message),
        after_setup(config, b).1 == ChatAction::RunTurn(b.message),
        after_setup(config, a).0.next(ChatEvent::Answered { response: answer_a, model: model_a }).1
            == ChatAction::Reply(Ok(ChatResponse { response: answer_a, model: model_a })),
        after_setup(config, b).0.next(ChatEvent::Answered { response: answer_b, model: model_b }).1
            == ChatAction::Reply(Ok(ChatResponse { response: answer_b, model: model_b })),
{
}

} // verus!
