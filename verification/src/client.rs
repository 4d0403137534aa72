//! The session: it numbers requests, tells which incoming message answers
//! the request that waits, and says when waiting has to end.
//!
//! Nothing here reads or writes a stream. A caller sends the messages that
//! these functions build and reports what happened: a message that came in,
//! the end of the stream, or one look at the server process.

use vstd::prelude::*;
use crate::error::{unexpected_shape, ClientError, ClientErrorModel, ErrorCode};
use crate::json::{put, JsonModel, JsonValue, Member};
use crate::message::{Message, MessageModel};
use crate::protocol::{
    optional_model, Notification, NotificationModel, Request, RequestId, RequestIdModel,
    RequestModel,
};
use crate::types::{
    optional_capabilities_model, CallToolResult, CallToolResultModel, ClientCapabilities,
    Implementation, InitializeResult, InitializeResultModel, ListToolsResult, ServerCapabilities,
    Tool, decode_tool_list, first_tool_named,
};

verus! {

/// How many looks at the server process a request waits through before it
/// gives up, unless the session is told otherwise.
pub const DEFAULT_POLL_LIMIT: u32 = 100;

/// The time between two looks at the server process, in milliseconds. With
/// the default limit a request waits thirty seconds.
pub const POLL_INTERVAL_MILLIS: u64 = 300;

/// Where a session stands.
#[derive(Clone, Copy, Debug, PartialEq, Eq, Structural)]
pub enum SessionState {
    Uninitialized,
    Initializing,
    Ready,
    ShuttingDown,
    Closed,
}

/// What one look at the server process found.
#[derive(Debug, PartialEq, Eq)]
pub enum ProcessStatus {
    /// The process runs.
    Running,
    /// The process has ended, with this exit status.
    Exited(String),
    /// The look itself failed, for this reason.
    Unknown(String),
}

/// A `ProcessStatus` as a mathematical value.
pub enum ProcessStatusModel {
    Running,
    Exited(Seq<char>),
    Unknown(Seq<char>),
}

impl View for ProcessStatus {
    type V = ProcessStatusModel;

    open spec fn view(&self) -> ProcessStatusModel {
        match *self {
            ProcessStatus::Running => ProcessStatusModel::Running,
            ProcessStatus::Exited(s) => ProcessStatusModel::Exited(s@),
            ProcessStatus::Unknown(s) => ProcessStatusModel::Unknown(s@),
        }
    }
}

/// What can happen while a request waits.
#[derive(Debug, PartialEq, Eq)]
pub enum Event {
    /// A message came in.
    Message(Message),
    /// A line came in that is no message; the stream goes on after it.
    Malformed(ClientError),
    /// The stream of incoming messages ended: it was closed, or reading it
    /// failed.
    Closed,
    /// One poll interval passed. A session that owns a server process
    /// reports what a look at it found, any other session `None`.
    Tick(Option<ProcessStatus>),
}

/// An `Event` as a mathematical value.
pub enum EventModel {
    Message(MessageModel),
    Malformed(ClientErrorModel),
    Closed,
    Tick(Option<ProcessStatusModel>),
}

impl View for Event {
    type V = EventModel;

    open spec fn view(&self) -> EventModel {
        match *self {
            Event::Message(m) => EventModel::Message(m@),
            Event::Malformed(e) => EventModel::Malformed(e@),
            Event::Closed => EventModel::Closed,
            Event::Tick(status) => EventModel::Tick(
                match status {
                    Some(s) => Some(s@),
                    None => None,
                },
            ),
        }
    }
}

impl EventModel {
    /// The event that an item of the stream of incoming messages is. A
    /// message arrives as itself. An item that failed because a line did
    /// not decode is a malformed line, after which the stream goes on. Any
    /// other failed item, the end of the stream or a failure to read, ends
    /// the stream.
    pub open spec fn of_item(item: Result<MessageModel, ClientErrorModel>) -> EventModel {
        match item {
            Ok(message) => EventModel::Message(message),
            Err(ClientErrorModel::Serialization(text)) => EventModel::Malformed(
                ClientErrorModel::Serialization(text),
            ),
            Err(_) => EventModel::Closed,
        }
    }
}

/// An item of the stream of incoming messages as a mathematical value.
pub open spec fn item_model(item: Result<Message, ClientError>) -> Result<
    MessageModel,
    ClientErrorModel,
> {
    match item {
        Ok(message) => Ok(message@),
        Err(e) => Err(e@),
    }
}

impl Event {
    /// The event that an item of the stream of incoming messages is to a
    /// request that waits. Forwarding ends with the event `Closed`, and
    /// with no other.
    pub fn from_item(item: Result<Message, ClientError>) -> (event: Event)
        ensures
            event@ == EventModel::of_item(item_model(item)),
    {
        match item {
            Ok(message) => Event::Message(message),
            Err(ClientError::Serialization(text)) => Event::Malformed(
                ClientError::Serialization(text),
            ),
            Err(_) => Event::Closed,
        }
    }
}

/// What a request has come to after an event.
#[derive(Debug, PartialEq, Eq)]
pub enum Progress {
    /// The request still waits.
    Waiting,
    /// The request is over, with this result.
    Done(Result<JsonValue, ClientError>),
}

/// A `Progress` as a mathematical value.
pub enum ProgressModel {
    Waiting,
    Done(Result<JsonModel, ClientErrorModel>),
}

/// The result of a request as a mathematical value.
pub open spec fn outcome_model(outcome: Result<JsonValue, ClientError>) -> Result<
    JsonModel,
    ClientErrorModel,
> {
    match outcome {
        Ok(v) => Ok(v@),
        Err(e) => Err(e@),
    }
}

impl View for Progress {
    type V = ProgressModel;

    open spec fn view(&self) -> ProgressModel {
        match *self {
            Progress::Waiting => ProgressModel::Waiting,
            Progress::Done(outcome) => ProgressModel::Done(outcome_model(outcome)),
        }
    }
}

/// A request that has been given its identifier and waits for its response.
#[derive(Debug, PartialEq, Eq)]
pub struct PendingRequest {
    request: Request,
    polls: u32,
    limit: u32,
}

/// A `PendingRequest` as a mathematical value.
pub struct PendingModel {
    /// The request as it goes on the wire.
    pub request: RequestModel,
    /// How many poll intervals have passed.
    pub polls: nat,
    /// After how many poll intervals the request gives up.
    pub limit: nat,
}

impl View for PendingRequest {
    type V = PendingModel;

    closed spec fn view(&self) -> PendingModel {
        PendingModel {
            request: self.request@,
            polls: self.polls as nat,
            limit: self.limit as nat,
        }
    }
}

/// The error of a request whose response carried neither result nor error.
pub open spec fn missing_result() -> ClientErrorModel {
    ClientErrorModel::Protocol {
        code: ErrorCode::InternalError.number(),
        message: "Response missing result"@,
        data: None,
    }
}

/// The error of a request whose stream of messages ended.
pub open spec fn connection_closed() -> ClientErrorModel {
    ClientErrorModel::Protocol {
        code: ErrorCode::InternalError.number(),
        message: "Connection closed while waiting for response"@,
        data: None,
    }
}

impl PendingModel {
    /// Whether a message is the response to this request: a response whose
    /// identifier is the one the request was given.
    pub open spec fn answered_by(self, message: MessageModel) -> bool {
        message matches MessageModel::Response(r) && r.id == self.request.id
    }

    /// What an event does to a waiting request.
    ///
    /// The response with the identifier of the request ends it: with the
    /// error of the response where it has one, else with its result, else
    /// with "missing result". Every other message is passed over, and so
    /// is a line that is no message. The end of the stream ends the request. A poll interval ends it where the
    /// server process is found ended or cannot be looked at, and where it
    /// is the last interval allowed; else one more interval is counted.
    pub open spec fn step(self, event: EventModel) -> (PendingModel, ProgressModel) {
        match event {
            EventModel::Message(message) => if self.answered_by(message) {
                let response = message->Response_0;
                (
                    self,
                    ProgressModel::Done(
                        match response.error {
                            Some(error) => Err(
                                ClientErrorModel::Protocol {
                                    code: error.code as int,
                                    message: error.message,
                                    data: error.data,
                                },
                            ),
                            None => match response.result {
                                Some(result) => Ok(result),
                                None => Err(missing_result()),
                            },
                        },
                    ),
                )
            } else {
                (self, ProgressModel::Waiting)
            },
            EventModel::Malformed(_) => (self, ProgressModel::Waiting),
            EventModel::Closed => (self, ProgressModel::Done(Err(connection_closed()))),
            EventModel::Tick(Some(ProcessStatusModel::Exited(status))) => (
                self,
                ProgressModel::Done(Err(ClientErrorModel::ProcessExited { status })),
            ),
            EventModel::Tick(Some(ProcessStatusModel::Unknown(reason))) => (
                self,
                ProgressModel::Done(Err(ClientErrorModel::ProcessUnknown { reason })),
            ),
            EventModel::Tick(_) => if self.polls + 1 >= self.limit {
                (
                    self,
                    ProgressModel::Done(
                        Err(ClientErrorModel::Timeout { method: self.request.method }),
                    ),
                )
            } else {
                (
                    PendingModel { polls: self.polls + 1, ..self },
                    ProgressModel::Waiting,
                )
            },
        }
    }

    /// What a run of events does to a waiting request: the events are taken
    /// one by one until one of them ends the request.
    pub open spec fn run(self, events: Seq<EventModel>) -> (PendingModel, ProgressModel)
        decreases events.len(),
    {
        if events.len() == 0 {
            (self, ProgressModel::Waiting)
        } else {
            let (next, progress) = self.step(events[0]);
            if progress is Done {
                (next, progress)
            } else {
                next.run(events.drop_first())
            }
        }
    }
}

impl PendingRequest {
    /// The request, as the message to send.
    pub fn message(&self) -> (message: Message)
        ensures
            message@ == MessageModel::Request(self@.request),
    {
        Message::Request(
            Request {
                jsonrpc: self.request.jsonrpc.clone(),
                method: self.request.method.clone(),
                params: crate::protocol::copy_optional(&self.request.params),
                id: self.request.id.clone(),
            },
        )
    }

    /// The identifier that the request was given.
    pub fn id(&self) -> (id: RequestId)
        ensures
            id@ == self@.request.id,
    {
        self.request.id.clone()
    }

    /// Takes one event and says whether the request still waits.
    pub fn step(&mut self, event: Event) -> (progress: Progress)
        ensures
            (final(self)@, progress@) == old(self)@.step(event@),
    {
        match event {
            Event::Message(Message::Response(response)) => {
                if response.id.matches(&self.request.id) {
                    match response.error {
                        Some(error) => Progress::Done(
                            Err(
                                ClientError::Protocol {
                                    code: error.code,
                                    message: error.message,
                                    data: error.data,
                                },
                            ),
                        ),
                        None => match response.result {
                            Some(result) => Progress::Done(Ok(result)),
                            None => Progress::Done(
                                Err(
                                    ClientError::protocol(
                                        ErrorCode::InternalError,
                                        "Response missing result",
                                    ),
                                ),
                            ),
                        },
                    }
                } else {
                    Progress::Waiting
                }
            },
            Event::Message(_) => Progress::Waiting,
            Event::Malformed(_) => Progress::Waiting,
            Event::Closed => Progress::Done(
                Err(
                    ClientError::protocol(
                        ErrorCode::InternalError,
                        "Connection closed while waiting for response",
                    ),
                ),
            ),
            Event::Tick(Some(ProcessStatus::Exited(status))) => Progress::Done(
                Err(ClientError::ProcessExited { status }),
            ),
            Event::Tick(Some(ProcessStatus::Unknown(reason))) => Progress::Done(
                Err(ClientError::ProcessUnknown { reason }),
            ),
            Event::Tick(_) => {
                if self.polls >= self.limit || self.polls + 1 >= self.limit {
                    Progress::Done(Err(ClientError::Timeout { method: self.request.method.clone() }))
                } else {
                    self.polls = self.polls + 1;
                    Progress::Waiting
                }
            },
        }
    }
}

/// How long shutdown waits for the server process to end, each of the two
/// times it waits, in seconds.
pub const EXIT_WAIT_SECONDS: u64 = 2;

/// How far the shutdown of a session has come.
#[derive(Clone, Copy, Debug, PartialEq, Eq, Structural)]
pub enum TeardownStage {
    /// No shutdown is under way.
    Idle,
    /// The transport is being closed.
    Closing,
    /// The first look at the server process is awaited.
    FirstLook,
    /// The process was found running and is given time to end by itself.
    FirstWait,
    /// The second look at the server process is awaited.
    SecondLook,
    /// The process still ran, was killed, and is given time to end.
    LastWait,
}

/// What shutdown asks its caller to do next.
#[derive(Debug, PartialEq, Eq)]
pub enum TeardownStep {
    /// Close the transport, and report how that went.
    CloseTransport,
    /// Look whether the server process runs, and report it.
    Look,
    /// Wait for the process to end, `EXIT_WAIT_SECONDS` at most.
    Wait,
    /// Kill the process, then wait for it to end, `EXIT_WAIT_SECONDS` at most.
    KillAndWait,
    /// Shutdown is over, with this result.
    Finish(Result<(), ClientError>),
}

/// A `TeardownStep` as a mathematical value.
pub enum TeardownStepModel {
    CloseTransport,
    Look,
    Wait,
    KillAndWait,
    Finish(Result<(), ClientErrorModel>),
}

impl View for TeardownStep {
    type V = TeardownStepModel;

    open spec fn view(&self) -> TeardownStepModel {
        match *self {
            TeardownStep::CloseTransport => TeardownStepModel::CloseTransport,
            TeardownStep::Look => TeardownStepModel::Look,
            TeardownStep::Wait => TeardownStepModel::Wait,
            TeardownStep::KillAndWait => TeardownStepModel::KillAndWait,
            TeardownStep::Finish(Ok(())) => TeardownStepModel::Finish(Ok(())),
            TeardownStep::Finish(Err(e)) => TeardownStepModel::Finish(Err(e@)),
        }
    }
}

/// What the caller of shutdown reports back.
#[derive(Debug, PartialEq, Eq)]
pub enum TeardownEvent {
    /// The transport was closed, or closing it failed with this error.
    Closed(Option<ClientError>),
    /// A look at the server process found it running, or not.
    Looked(bool),
    /// The wait is over.
    Waited,
}

/// A `TeardownEvent` as a mathematical value.
pub enum TeardownEventModel {
    Closed(Option<ClientErrorModel>),
    Looked(bool),
    Waited,
}

impl View for TeardownEvent {
    type V = TeardownEventModel;

    open spec fn view(&self) -> TeardownEventModel {
        match *self {
            TeardownEvent::Closed(Some(e)) => TeardownEventModel::Closed(Some(e@)),
            TeardownEvent::Closed(None) => TeardownEventModel::Closed(None),
            TeardownEvent::Looked(running) => TeardownEventModel::Looked(running),
            TeardownEvent::Waited => TeardownEventModel::Waited,
        }
    }
}

/// The step that a stage of shutdown waits on.
pub open spec fn awaited_step(stage: TeardownStage) -> TeardownStepModel {
    match stage {
        TeardownStage::Idle => TeardownStepModel::Finish(Ok(())),
        TeardownStage::Closing => TeardownStepModel::CloseTransport,
        TeardownStage::FirstLook => TeardownStepModel::Look,
        TeardownStage::FirstWait => TeardownStepModel::Wait,
        TeardownStage::SecondLook => TeardownStepModel::Look,
        TeardownStage::LastWait => TeardownStepModel::KillAndWait,
    }
}

/// What a report does to a shutdown under way: the stage it moves to and
/// the step it asks for next.
///
/// The transport is closed first; if that fails, shutdown ends with the
/// failure and the server process is left alone. A session that owns no
/// process is then done. One that does looks at the process: a process
/// that has ended needs nothing more; one that runs is given time to end,
/// looked at again, and killed if it still runs. A report that does not
/// fit the stage changes nothing: the step that the stage waits on is asked
/// for again.
pub open spec fn teardown(stage: TeardownStage, owns_process: bool, event: TeardownEventModel) -> (
    TeardownStage,
    TeardownStepModel,
) {
    match (stage, event) {
        (TeardownStage::Closing, TeardownEventModel::Closed(Some(e))) => (
            TeardownStage::Idle,
            TeardownStepModel::Finish(Err(e)),
        ),
        (TeardownStage::Closing, TeardownEventModel::Closed(None)) => if owns_process {
            (TeardownStage::FirstLook, TeardownStepModel::Look)
        } else {
            (TeardownStage::Idle, TeardownStepModel::Finish(Ok(())))
        },
        (TeardownStage::FirstLook, TeardownEventModel::Looked(running)) => if running {
            (TeardownStage::FirstWait, TeardownStepModel::Wait)
        } else {
            (TeardownStage::Idle, TeardownStepModel::Finish(Ok(())))
        },
        (TeardownStage::FirstWait, TeardownEventModel::Waited) => (
            TeardownStage::SecondLook,
            TeardownStepModel::Look,
        ),
        (TeardownStage::SecondLook, TeardownEventModel::Looked(running)) => if running {
            (TeardownStage::LastWait, TeardownStepModel::KillAndWait)
        } else {
            (TeardownStage::Idle, TeardownStepModel::Finish(Ok(())))
        },
        (TeardownStage::LastWait, TeardownEventModel::Waited) => (
            TeardownStage::Idle,
            TeardownStepModel::Finish(Ok(())),
        ),
        _ => (stage, awaited_step(stage)),
    }
}

/// The state of a session after a step of shutdown: closed once shutdown
/// has ended well, shutting down until then, and as it was where shutdown
/// was not under way.
pub open spec fn state_after_teardown(
    before: SessionState,
    stage: TeardownStage,
    next: (TeardownStage, TeardownStepModel),
) -> SessionState {
    if stage == TeardownStage::Idle {
        before
    } else if next.1 == TeardownStepModel::Finish(Ok(())) {
        SessionState::Closed
    } else {
        SessionState::ShuttingDown
    }
}

/// A session with one server.
#[derive(Debug, PartialEq, Eq)]
pub struct Client {
    state: SessionState,
    request_counter: i64,
    server_capabilities: Option<ServerCapabilities>,
    owns_process: bool,
    poll_limit: u32,
    teardown: TeardownStage,
}

/// A `Client` as a mathematical value.
pub struct ClientModel {
    /// Where the session stands.
    pub state: SessionState,
    /// The number that the last request was given; 0 before the first.
    pub counter: i64,
    /// What the server announced, once `initialize` has succeeded.
    pub capabilities: Option<JsonModel>,
    /// Whether the session owns the server process.
    pub owns_process: bool,
    /// After how many poll intervals a request gives up.
    pub poll_limit: nat,
    /// How far shutdown has come.
    pub teardown: TeardownStage,
}

impl View for Client {
    type V = ClientModel;

    closed spec fn view(&self) -> ClientModel {
        ClientModel {
            state: self.state,
            counter: self.request_counter,
            capabilities: optional_capabilities_model(self.server_capabilities),
            owns_process: self.owns_process,
            poll_limit: self.poll_limit as nat,
            teardown: self.teardown,
        }
    }
}

/// The parameters of `initialize`.
pub open spec fn initialize_params(
    implementation: crate::types::ImplementationModel,
    capabilities: JsonModel,
) -> JsonModel {
    JsonModel::Object(
        Map::empty().insert("clientInfo"@, implementation.to_json()).insert(
            "capabilities"@,
            capabilities,
        ).insert("protocolVersion"@, JsonModel::Text(crate::LATEST_PROTOCOL_VERSION@)),
    )
}

/// The parameters of `tools/call`.
pub open spec fn call_tool_params(name: Seq<char>, arguments: JsonModel) -> JsonModel {
    JsonModel::Object(
        Map::empty().insert("name"@, JsonModel::Text(name)).insert("arguments"@, arguments),
    )
}

/// The parameters of `resources/read`.
pub open spec fn read_resource_params(uri: Seq<char>) -> JsonModel {
    JsonModel::Object(Map::empty().insert("uri"@, JsonModel::Text(uri)))
}

/// The parameters of `prompts/get`.
pub open spec fn get_prompt_params(name: Seq<char>, arguments: JsonModel) -> JsonModel {
    JsonModel::Object(
        Map::empty().insert("name"@, JsonModel::Text(name)).insert("arguments"@, arguments),
    )
}

impl ClientModel {
    /// The request that a session issues next, and the session after it.
    /// The request gets the number after the last one given, so no number
    /// is given twice.
    pub open spec fn issue(self, method: Seq<char>, params: Option<JsonModel>) -> (
        ClientModel,
        PendingModel,
    ) {
        (
            ClientModel { counter: (self.counter + 1) as i64, ..self },
            PendingModel {
                request: RequestModel {
                    jsonrpc: crate::JSONRPC_VERSION@,
                    method,
                    params,
                    id: RequestIdModel::Number((self.counter + 1) as i64),
                },
                polls: 0,
                limit: self.poll_limit,
            },
        )
    }

    /// Whether the session has a number left for one more request.
    pub open spec fn can_issue(self) -> bool {
        self.counter < i64::MAX
    }
}

/// The error of a session that has given out every number it has.
pub open spec fn identifiers_used_up() -> ClientErrorModel {
    ClientErrorModel::Other("request identifiers are used up"@)
}

/// The error of an `initialize` whose result is not of the expected shape.
pub open spec fn malformed_initialize_result() -> ClientErrorModel {
    ClientErrorModel::Serialization("initialize result is not of the expected shape"@)
}

impl Client {
    /// A new session, not yet initialized. `owns_process` says whether the
    /// server is a process that this session started and has to end.
    pub fn new(owns_process: bool) -> (client: Client)
        ensures
            client@ == (ClientModel {
                state: SessionState::Uninitialized,
                counter: 0,
                capabilities: None,
                owns_process,
                poll_limit: 100,
                teardown: TeardownStage::Idle,
            }),
    {
        Client {
            state: SessionState::Uninitialized,
            request_counter: 0,
            server_capabilities: None,
            owns_process,
            poll_limit: DEFAULT_POLL_LIMIT,
            teardown: TeardownStage::Idle,
        }
    }

    /// Sets after how many poll intervals a request gives up.
    pub fn set_poll_limit(&mut self, limit: u32)
        ensures
            final(self)@ == (ClientModel { poll_limit: limit as nat, ..old(self)@ }),
    {
        self.poll_limit = limit;
    }

    /// Where the session stands.
    pub fn state(&self) -> (state: SessionState)
        ensures
            state == self@.state,
    {
        self.state
    }

    /// Whether the session owns the server process.
    pub fn owns_process(&self) -> (owns: bool)
        ensures
            owns == self@.owns_process,
    {
        self.owns_process
    }

    /// Starts a request: gives it the next number as its identifier and
    /// hands back what has to be sent and then waited for. It fails only
    /// where every number has been given out, and then changes nothing.
    pub fn request(&mut self, method: &str, params: Option<JsonValue>) -> (r: Result<
        PendingRequest,
        ClientError,
    >)
        ensures
            match r {
                Ok(pending) => old(self)@.can_issue() && (final(self)@, pending@) == old(self)@.issue(method@, optional_model(params)),
                Err(e) => !old(self)@.can_issue() && e@ == identifiers_used_up() && final(self)@
                    == old(self)@,
            },
    {
        if self.request_counter == i64::MAX {
            return Err(ClientError::Other("request identifiers are used up".to_owned()));
        }
        self.request_counter = self.request_counter + 1;
        let request = Request::new(method, params, RequestId::Number(self.request_counter));
        Ok(PendingRequest { request, polls: 0, limit: self.poll_limit })
    }

    /// Builds a notification. Nothing waits for an answer to it.
    pub fn notify(&self, method: &str, params: Option<JsonValue>) -> (message: Message)
        ensures
            message@ == MessageModel::Notification(
                NotificationModel {
                    jsonrpc: crate::JSONRPC_VERSION@,
                    method: method@,
                    params: optional_model(params),
                },
            ),
    {
        Message::Notification(Notification::new(method, params))
    }

    /// What the server announced; `None` until `initialize` has succeeded.
    pub fn capabilities(&self) -> (capabilities: Option<ServerCapabilities>)
        ensures
            optional_capabilities_model(capabilities) == self@.capabilities,
    {
        match &self.server_capabilities {
            Some(c) => Some(c.clone()),
            None => None,
        }
    }

    /// Starts `initialize`: a request that carries the identity of the
    /// client, its capabilities and the protocol version it speaks. The
    /// session is `Initializing` from here on.
    pub fn initialize(
        &mut self,
        implementation: &Implementation,
        capabilities: &ClientCapabilities,
    ) -> (r: Result<PendingRequest, ClientError>)
        ensures
            match r {
                Ok(pending) => old(self)@.can_issue() && (
                    ClientModel { state: old(self)@.state, ..final(self)@ },
                    pending@,
                ) == old(self)@.issue(
                    "initialize"@,
                    Some(initialize_params(implementation@, capabilities@)),
                ) && final(self)@.state == SessionState::Initializing,
                Err(e) => !old(self)@.can_issue() && e@ == identifiers_used_up() && final(self)@
                    == old(self)@,
            },
    {
        let mut members: Vec<Member> = Vec::new();
        put(&mut members, "clientInfo", implementation.to_json());
        put(&mut members, "capabilities", capabilities.document.clone());
        put(&mut members, "protocolVersion", JsonValue::text(crate::LATEST_PROTOCOL_VERSION));
        let pending = self.request("initialize", Some(JsonValue::Object(members)))?;
        self.state = SessionState::Initializing;
        Ok(pending)
    }

    /// Ends `initialize` with what its request came to. A result of the
    /// expected shape makes the session `Ready`: the capabilities of the
    /// server are kept, and the notification to send next is handed back
    /// with the result. Anything else, a failed request or a result of
    /// another shape, leaves the session `Uninitialized`.
    pub fn complete_initialize(&mut self, outcome: Result<JsonValue, ClientError>) -> (r: Result<
        (InitializeResult, Message),
        ClientError,
    >)
        ensures
            final(self)@.counter == old(self)@.counter,
            final(self)@.owns_process == old(self)@.owns_process,
            final(self)@.poll_limit == old(self)@.poll_limit,
            final(self)@.teardown == old(self)@.teardown,
            match r {
                Ok((result, message)) => outcome matches Ok(value)
                    && InitializeResultModel::from_json(value@) == Some(result@) && final(self)@.state == SessionState::Ready && final(self)@.capabilities == Some(
                    result@.capabilities,
                ) && message@ == MessageModel::Notification(
                    NotificationModel {
                        jsonrpc: crate::JSONRPC_VERSION@,
                        method: "notifications/initialized"@,
                        params: None,
                    },
                ),
                Err(e) => final(self)@.state == SessionState::Uninitialized && final(self)@.capabilities == old(self)@.capabilities && (match outcome {
                    Ok(value) => InitializeResultModel::from_json(value@) is None && e@
                        == malformed_initialize_result(),
                    Err(failed) => e@ == failed@,
                }),
            },
    {
        match outcome {
            Err(e) => {
                self.state = SessionState::Uninitialized;
                Err(e)
            },
            Ok(value) => match InitializeResult::from_json(&value) {
                None => {
                    self.state = SessionState::Uninitialized;
                    Err(
                        ClientError::Serialization(
                            "initialize result is not of the expected shape".to_owned(),
                        ),
                    )
                },
                Some(result) => {
                    self.server_capabilities = Some(result.capabilities.clone());
                    self.state = SessionState::Ready;
                    let message = self.notify("notifications/initialized", None);
                    Ok((result, message))
                },
            },
        }
    }

    /// Starts `tools/list`.
    pub fn list_tools(&mut self) -> (r: Result<PendingRequest, ClientError>)
        ensures
            match r {
                Ok(pending) => old(self)@.can_issue() && (final(self)@, pending@) == old(self)@.issue("tools/list"@, None),
                Err(e) => !old(self)@.can_issue() && e@ == identifiers_used_up() && final(self)@
                    == old(self)@,
            },
    {
        self.request("tools/list", None)
    }

    /// Starts `tools/call` for the tool of the given name.
    pub fn call_tool(&mut self, name: &str, arguments: JsonValue) -> (r: Result<
        PendingRequest,
        ClientError,
    >)
        ensures
            match r {
                Ok(pending) => old(self)@.can_issue() && (final(self)@, pending@) == old(self)@.issue("tools/call"@, Some(call_tool_params(name@, arguments@))),
                Err(e) => !old(self)@.can_issue() && e@ == identifiers_used_up() && final(self)@
                    == old(self)@,
            },
    {
        let mut members: Vec<Member> = Vec::new();
        put(&mut members, "name", JsonValue::text(name));
        put(&mut members, "arguments", arguments);
        self.request("tools/call", Some(JsonValue::Object(members)))
    }

    /// Starts the lookup of one tool: the server is asked for its list.
    pub fn get_tool(&mut self) -> (r: Result<PendingRequest, ClientError>)
        ensures
            match r {
                Ok(pending) => old(self)@.can_issue() && (final(self)@, pending@) == old(self)@.issue("tools/list"@, None),
                Err(e) => !old(self)@.can_issue() && e@ == identifiers_used_up() && final(self)@
                    == old(self)@,
            },
    {
        self.list_tools()
    }

    /// Starts `resources/list`.
    pub fn list_resources(&mut self) -> (r: Result<PendingRequest, ClientError>)
        ensures
            match r {
                Ok(pending) => old(self)@.can_issue() && (final(self)@, pending@) == old(self)@.issue("resources/list"@, None),
                Err(e) => !old(self)@.can_issue() && e@ == identifiers_used_up() && final(self)@
                    == old(self)@,
            },
    {
        self.request("resources/list", None)
    }

    /// Starts `prompts/list`.
    pub fn list_prompts(&mut self) -> (r: Result<PendingRequest, ClientError>)
        ensures
            match r {
                Ok(pending) => old(self)@.can_issue() && (final(self)@, pending@) == old(self)@.issue("prompts/list"@, None),
                Err(e) => !old(self)@.can_issue() && e@ == identifiers_used_up() && final(self)@
                    == old(self)@,
            },
    {
        self.request("prompts/list", None)
    }

    /// Starts `resources/read` for the resource at `uri`.
    pub fn read_resource(&mut self, uri: &str) -> (r: Result<PendingRequest, ClientError>)
        ensures
            match r {
                Ok(pending) => old(self)@.can_issue() && (final(self)@, pending@) == old(self)@.issue("resources/read"@, Some(read_resource_params(uri@))),
                Err(e) => !old(self)@.can_issue() && e@ == identifiers_used_up() && final(self)@
                    == old(self)@,
            },
    {
        let mut members: Vec<Member> = Vec::new();
        put(&mut members, "uri", JsonValue::text(uri));
        self.request("resources/read", Some(JsonValue::Object(members)))
    }

    /// Starts `prompts/get` for the prompt of the given name. The arguments
    /// are an object of strings; where none are given, the empty object.
    pub fn get_prompt(&mut self, name: &str, arguments: Option<JsonValue>) -> (r: Result<
        PendingRequest,
        ClientError,
    >)
        ensures
            match r {
                Ok(pending) => old(self)@.can_issue() && (final(self)@, pending@) == old(self)@.issue(
                    "prompts/get"@,
                    Some(
                        get_prompt_params(
                            name@,
                            match arguments {
                                Some(a) => a@,
                                None => JsonModel::Object(Map::empty()),
                            },
                        ),
                    ),
                ),
                Err(e) => !old(self)@.can_issue() && e@ == identifiers_used_up() && final(self)@
                    == old(self)@,
            },
    {
        let given = match arguments {
            Some(a) => a,
            None => JsonValue::empty_object(),
        };
        let mut members: Vec<Member> = Vec::new();
        put(&mut members, "name", JsonValue::text(name));
        put(&mut members, "arguments", given);
        self.request("prompts/get", Some(JsonValue::Object(members)))
    }

    /// Starts `prompts/complete` with the given completion request.
    pub fn complete(&mut self, request: JsonValue) -> (r: Result<PendingRequest, ClientError>)
        ensures
            match r {
                Ok(pending) => old(self)@.can_issue() && (final(self)@, pending@) == old(self)@.issue("prompts/complete"@, Some(request@)),
                Err(e) => !old(self)@.can_issue() && e@ == identifiers_used_up() && final(self)@
                    == old(self)@,
            },
    {
        self.request("prompts/complete", Some(request))
    }

    /// Starts shutdown, in whatever state the session is: the session is
    /// `ShuttingDown`, and the transport is to be closed first. A session
    /// that was shut down before is shut down again in the same way.
    pub fn shutdown(&mut self) -> (step: TeardownStep)
        ensures
            step@ == TeardownStepModel::CloseTransport,
            final(self)@ == (ClientModel {
                state: SessionState::ShuttingDown,
                teardown: TeardownStage::Closing,
                ..old(self)@
            }),
    {
        self.state = SessionState::ShuttingDown;
        self.teardown = TeardownStage::Closing;
        TeardownStep::CloseTransport
    }

    /// Takes the report on the last step of shutdown and says what to do
    /// next. The session is `Closed` once shutdown has ended well.
    pub fn shutdown_step(&mut self, event: TeardownEvent) -> (step: TeardownStep)
        ensures
            (final(self)@.teardown, step@) == teardown(
                old(self)@.teardown,
                old(self)@.owns_process,
                event@,
            ),
            final(self)@ == (ClientModel {
                state: state_after_teardown(
                    old(self)@.state,
                    old(self)@.teardown,
                    teardown(old(self)@.teardown, old(self)@.owns_process, event@),
                ),
                teardown: final(self)@.teardown,
                ..old(self)@
            }),
    {
        let stage = self.teardown;
        let step = match (stage, event) {
            (TeardownStage::Closing, TeardownEvent::Closed(Some(e))) => {
                self.teardown = TeardownStage::Idle;
                TeardownStep::Finish(Err(e))
            },
            (TeardownStage::Closing, TeardownEvent::Closed(None)) => {
                if self.owns_process {
                    self.teardown = TeardownStage::FirstLook;
                    TeardownStep::Look
                } else {
                    self.teardown = TeardownStage::Idle;
                    TeardownStep::Finish(Ok(()))
                }
            },
            (TeardownStage::FirstLook, TeardownEvent::Looked(running)) => {
                if running {
                    self.teardown = TeardownStage::FirstWait;
                    TeardownStep::Wait
                } else {
                    self.teardown = TeardownStage::Idle;
                    TeardownStep::Finish(Ok(()))
                }
            },
            (TeardownStage::FirstWait, TeardownEvent::Waited) => {
                self.teardown = TeardownStage::SecondLook;
                TeardownStep::Look
            },
            (TeardownStage::SecondLook, TeardownEvent::Looked(running)) => {
                if running {
                    self.teardown = TeardownStage::LastWait;
                    TeardownStep::KillAndWait
                } else {
                    self.teardown = TeardownStage::Idle;
                    TeardownStep::Finish(Ok(()))
                }
            },
            (TeardownStage::LastWait, TeardownEvent::Waited) => {
                self.teardown = TeardownStage::Idle;
                TeardownStep::Finish(Ok(()))
            },
            (TeardownStage::Idle, _) => TeardownStep::Finish(Ok(())),
            (TeardownStage::Closing, _) => TeardownStep::CloseTransport,
            (TeardownStage::FirstLook, _) => TeardownStep::Look,
            (TeardownStage::FirstWait, _) => TeardownStep::Wait,
            (TeardownStage::SecondLook, _) => TeardownStep::Look,
            (TeardownStage::LastWait, _) => TeardownStep::KillAndWait,
        };
        match stage {
            TeardownStage::Idle => {},
            _ => {
                match &step {
                    TeardownStep::Finish(Ok(_)) => {
                        self.state = SessionState::Closed;
                    },
                    _ => {
                        self.state = SessionState::ShuttingDown;
                    },
                }
            },
        }
        step
    }
}

/// What the result of `tools/call` means for the caller: a result of
/// another shape is a serialization error, a result in which the tool
/// reports failure is that failure with the text of the result, and any
/// other result is the outcome.
pub open spec fn tool_call_outcome(tool: Seq<char>, document: JsonModel) -> Result<
    CallToolResultModel,
    ClientErrorModel,
> {
    match CallToolResultModel::from_json(document) {
        None => Err(unexpected_shape()),
        Some(result) => if result.is_error {
            Err(ClientErrorModel::ToolExecutionFailed { tool, message: result.text() })
        } else {
            Ok(result)
        },
    }
}

/// The error of a session whose server process has no captured standard
/// error.
pub open spec fn no_stderr() -> ClientErrorModel {
    ClientErrorModel::Other("No stderr file available"@)
}

impl Client {
    /// The last lines that the server process wrote to its standard error,
    /// as one text: of the captured lines the last `tail_lines`, or the
    /// last hundred where no number is given. Where nothing was captured,
    /// there is nothing to show, and that is an error.
    pub fn get_stderr(captured: Option<&Vec<String>>, tail_lines: Option<usize>) -> (r: Result<
        String,
        ClientError,
    >)
        ensures
            match r {
                Ok(text) => captured matches Some(lines) && text@ == crate::diagnostics::tail_of(
                    crate::text::texts(lines@),
                    tail_lines,
                ),
                Err(e) => captured is None && e@ == no_stderr(),
            },
    {
        match captured {
            Some(lines) => Ok(crate::diagnostics::tail_text(lines, tail_lines)),
            None => Err(ClientError::Other("No stderr file available".to_owned())),
        }
    }

    /// Reads the result of `tools/list`.
    pub fn list_tools_result(value: &JsonValue) -> (r: Result<ListToolsResult, ClientError>)
        ensures
            match r {
                Ok(result) => decode_tool_list(value@) == Some(result@),
                Err(e) => decode_tool_list(value@) is None && e@ == unexpected_shape(),
            },
    {
        match ListToolsResult::from_json(value) {
            Some(result) => Ok(result),
            None => Err(ClientError::unexpected_shape()),
        }
    }

    /// Reads the result of `tools/call` for the tool of the given name, and
    /// turns a failure that the tool reports into an error.
    pub fn call_tool_result(name: &str, value: &JsonValue) -> (r: Result<
        CallToolResult,
        ClientError,
    >)
        ensures
            match r {
                Ok(result) => tool_call_outcome(name@, value@) == Ok::<
                    CallToolResultModel,
                    ClientErrorModel,
                >(result@),
                Err(e) => tool_call_outcome(name@, value@) == Err::<
                    CallToolResultModel,
                    ClientErrorModel,
                >(e@),
            },
    {
        match CallToolResult::from_json(value) {
            Some(result) => result.into_outcome(name),
            None => Err(ClientError::unexpected_shape()),
        }
    }

    /// Reads the result of `tools/list` and picks the first tool of the
    /// given name from it.
    pub fn get_tool_result(name: &str, value: &JsonValue) -> (r: Result<Option<Tool>, ClientError>)
        ensures
            match r {
                Ok(Some(tool)) => decode_tool_list(value@) matches Some(tools) && first_tool_named(
                    tools,
                    name@,
                ) == Some(tool@),
                Ok(None) => decode_tool_list(value@) matches Some(tools) && first_tool_named(
                    tools,
                    name@,
                ) is None,
                Err(e) => decode_tool_list(value@) is None && e@ == unexpected_shape(),
            },
    {
        let listed = Client::list_tools_result(value)?;
        Ok(listed.find(name))
    }
}

/// Where the result of a tool call says
/// that the tool failed, the caller gets an error that names the tool, and
/// the message of the error holds the text of every text block of the
/// result.
pub proof fn lemma_tool_failure_surfaces(tool: Seq<char>, document: JsonModel, i: int)
    requires
        CallToolResultModel::from_json(document) matches Some(result) && result.is_error && 0 <= i
            < result.content.len() && result.content[i] is Text,
    ensures
        tool_call_outcome(tool, document) matches Err(
            ClientErrorModel::ToolExecutionFailed { tool: named, message },
        ) && named == tool && crate::types::occurs_in(
            CallToolResultModel::from_json(document)->0.content[i]->Text_text,
            message,
        ),
{
    let result = CallToolResultModel::from_json(document)->0;
    crate::types::lemma_text_holds_every_block(result.content, result.content.len(), i);
}

/// Whether a report is the one that a stage of shutdown waits for.
pub open spec fn fits(stage: TeardownStage, event: TeardownEventModel) -> bool {
    match stage {
        TeardownStage::Idle => false,
        TeardownStage::Closing => event is Closed,
        TeardownStage::FirstLook => event is Looked,
        TeardownStage::FirstWait => event is Waited,
        TeardownStage::SecondLook => event is Looked,
        TeardownStage::LastWait => event is Waited,
    }
}

/// How many reports a stage of shutdown can still take before it is over.
pub open spec fn reports_left(stage: TeardownStage) -> nat {
    match stage {
        TeardownStage::Idle => 0,
        TeardownStage::Closing => 5,
        TeardownStage::FirstLook => 4,
        TeardownStage::FirstWait => 3,
        TeardownStage::SecondLook => 2,
        TeardownStage::LastWait => 1,
    }
}

/// Shutdown is bounded: every report that fits the stage brings shutdown
/// nearer to its end, which five such reports reach at the latest, and at
/// most two of its steps wait.
pub proof fn lemma_shutdown_is_bounded(
    stage: TeardownStage,
    owns_process: bool,
    event: TeardownEventModel,
)
    requires
        fits(stage, event),
    ensures
        reports_left(teardown(stage, owns_process, event).0) < reports_left(stage),
        teardown(stage, owns_process, event).0 == TeardownStage::Idle <==> teardown(
            stage,
            owns_process,
            event,
        ).1 is Finish,
{
}

/// Shutdown does not leave the server process running. Where it ends well,
/// the session owns no process, or the process was found ended, or it was
/// killed and waited for: the last wait is entered only by the step that
/// kills.
pub proof fn lemma_shutdown_ends_the_process(
    stage: TeardownStage,
    owns_process: bool,
    event: TeardownEventModel,
)
    requires
        stage != TeardownStage::Idle,
    ensures
        teardown(stage, owns_process, event).1 == TeardownStepModel::Finish(Ok(())) ==> (stage
            == TeardownStage::Closing && !owns_process) || event == TeardownEventModel::Looked(
            false,
        ) || stage == TeardownStage::LastWait,
        teardown(stage, owns_process, event).0 == TeardownStage::LastWait ==> teardown(
            stage,
            owns_process,
            event,
        ).1 == TeardownStepModel::KillAndWait,
        stage != TeardownStage::Closing ==> !(teardown(stage, owns_process, event).1 matches TeardownStepModel::Finish(
            Err(_),
        )),
{
}

/// A session that has been shut down can be shut
/// down again: with the transport closed once more and the process found
/// ended, the second shutdown waits for nothing, kills nothing, reports no
/// error, and leaves the session closed.
pub proof fn lemma_shutdown_twice(session: ClientModel)
    ensures
        !session.owns_process ==> teardown(
            TeardownStage::Closing,
            session.owns_process,
            TeardownEventModel::Closed(None),
        ) == (TeardownStage::Idle, TeardownStepModel::Finish(Ok(()))),
        session.owns_process ==> teardown(
            TeardownStage::Closing,
            session.owns_process,
            TeardownEventModel::Closed(None),
        ) == (TeardownStage::FirstLook, TeardownStepModel::Look) && teardown(
            TeardownStage::FirstLook,
            session.owns_process,
            TeardownEventModel::Looked(false),
        ) == (TeardownStage::Idle, TeardownStepModel::Finish(Ok(()))),
        forall|stage: TeardownStage, next: TeardownStage|
            stage != TeardownStage::Idle ==> state_after_teardown(
                session.state,
                stage,
                (next, TeardownStepModel::Finish(Ok(()))),
            ) == SessionState::Closed,
{
}

/// No identifier is given twice: of two requests that a session issues, one
/// after the other and with whatever else in between that gives out no
/// identifier or more of them, the later has the larger number.
pub proof fn lemma_identifiers_are_fresh(
    first: ClientModel,
    between: ClientModel,
    method_a: Seq<char>,
    params_a: Option<JsonModel>,
    method_b: Seq<char>,
    params_b: Option<JsonModel>,
)
    requires
        first.can_issue(),
        between.can_issue(),
        first.issue(method_a, params_a).0.counter <= between.counter,
    ensures
        first.issue(method_a, params_a).1.request.id != between.issue(
            method_b,
            params_b,
        ).1.request.id,
        first.issue(method_a, params_a).0.counter == first.counter + 1,
{
}

/// The events that a sequence of `Event` values denotes.
pub open spec fn events_model(events: Seq<Event>) -> Seq<EventModel> {
    Seq::new(events.len(), |i: int| events[i]@)
}

impl PendingRequest {
    /// Takes events in their order until one ends the request, and says
    /// what the request has come to; events after the one that ends it are
    /// not looked at.
    pub fn run(&mut self, events: Vec<Event>) -> (progress: Progress)
        ensures
            (final(self)@, progress@) == old(self)@.run(events_model(events@)),
    {
        let mut rest = events;
        assert(rest@ == events@);
        while rest.len() > 0
            invariant
                old(self)@.run(events_model(events@)) == self@.run(events_model(rest@)),
            decreases rest.len(),
        {
            let ghost before = events_model(rest@);
            let event = rest.remove(0);
            assert(before[0] == event@);
            assert(before.drop_first() =~= events_model(rest@));
            let progress = self.step(event);
            match progress {
                Progress::Waiting => {},
                done => {
                    return done;
                },
            }
        }
        Progress::Waiting
    }
}

/// Whether an event is one that a waiting request passes over: a message
/// that does not answer it, or a line that is no message.
pub open spec fn passed_over(pending: PendingModel, event: EventModel) -> bool {
    match event {
        EventModel::Message(m) => !pending.answered_by(m),
        EventModel::Malformed(_) => true,
        _ => false,
    }
}

/// The events that the items of a stream of incoming messages are.
pub open spec fn arrivals(items: Seq<Result<MessageModel, ClientErrorModel>>) -> Seq<EventModel> {
    Seq::new(items.len(), |i: int| EventModel::of_item(items[i]))
}

/// Whether an item of the stream neither answers a request nor ends the
/// stream: a message that does not answer, or a line that did not decode.
pub open spec fn passes(pending: PendingModel, item: Result<MessageModel, ClientErrorModel>) -> bool {
    match item {
        Ok(m) => !pending.answered_by(m),
        Err(e) => e is Serialization,
    }
}

/// How many of the events are poll intervals.
pub open spec fn tick_count(events: Seq<EventModel>) -> nat
    decreases events.len(),
{
    if events.len() == 0 {
        0
    } else if events[0] is Tick {
        1 + tick_count(events.drop_first())
    } else {
        tick_count(events.drop_first())
    }
}

/// What the response with the identifier of a request ends the request with.
pub open spec fn response_outcome(response: crate::protocol::ResponseModel) -> Result<
    JsonModel,
    ClientErrorModel,
> {
    match response.error {
        Some(error) => Err(
            ClientErrorModel::Protocol {
                code: error.code as int,
                message: error.message,
                data: error.data,
            },
        ),
        None => match response.result {
            Some(result) => Ok(result),
            None => Err(missing_result()),
        },
    }
}

/// Events that a request passes over leave it waiting, as it was.
pub proof fn lemma_passed_over_events_change_nothing(
    pending: PendingModel,
    events: Seq<EventModel>,
)
    requires
        forall|i: int| 0 <= i < events.len() ==> passed_over(pending, #[trigger] events[i]),
    ensures
        pending.run(events) == (pending, ProgressModel::Waiting),
    decreases events.len(),
{
    if events.len() > 0 {
        assert(passed_over(pending, events[0]));
        assert forall|i: int| 0 <= i < events.drop_first().len() implies passed_over(
            pending,
            #[trigger] events.drop_first()[i],
        ) by {
            assert(passed_over(pending, events[i + 1]));
        }
        lemma_passed_over_events_change_nothing(pending, events.drop_first());
    }
}

/// A run of events that leaves the request waiting, followed by more events,
/// goes on from where the first run ended.
pub proof fn lemma_run_continues(
    pending: PendingModel,
    first: Seq<EventModel>,
    rest: Seq<EventModel>,
)
    requires
        pending.run(first).1 is Waiting,
    ensures
        pending.run(first + rest) == pending.run(first).0.run(rest),
    decreases first.len(),
{
    if first.len() == 0 {
        assert(first + rest =~= rest);
    } else {
        let (next, progress) = pending.step(first[0]);
        assert((first + rest)[0] == first[0]);
        assert((first + rest).drop_first() =~= first.drop_first() + rest);
        lemma_run_continues(next, first.drop_first(), rest);
    }
}

/// A request is ended by the response that carries its identifier, and by
/// nothing that the stream yields before it. Whatever comes first, responses
/// to other requests, notifications, requests of the peer, lines that did
/// not decode, the request waits on; every message that follows still
/// reaches it, and it ends only when its own response comes, with what that
/// response carries: its result, or its error as a protocol error with the
/// same code, message and data.
pub proof fn lemma_correlation(
    pending: PendingModel,
    before: Seq<Result<MessageModel, ClientErrorModel>>,
    response: crate::protocol::ResponseModel,
)
    requires
        forall|i: int| 0 <= i < before.len() ==> passes(pending, #[trigger] before[i]),
        response.id == pending.request.id,
    ensures
        pending.run(arrivals(before)) == (pending, ProgressModel::Waiting),
        pending.run(arrivals(before.push(Ok(MessageModel::Response(response))))) == (
            pending,
            ProgressModel::Done(response_outcome(response)),
        ),
{
    let events = arrivals(before);
    assert forall|i: int| 0 <= i < events.len() implies passed_over(
        pending,
        #[trigger] events[i],
    ) by {
        assert(passes(pending, before[i]));
    }
    lemma_passed_over_events_change_nothing(pending, events);
    let last = seq![EventModel::Message(MessageModel::Response(response))];
    assert(arrivals(before.push(Ok(MessageModel::Response(response)))) =~= events + last);
    lemma_run_continues(pending, events, last);
    assert(last.drop_first() =~= Seq::<EventModel>::empty());
    assert(pending.answered_by(MessageModel::Response(response)));
}

/// The stream ends for a waiting request only where it ends: an item that
/// is a message, and one that is a line that did not decode, is never the
/// event that closes the stream.
pub proof fn lemma_only_the_end_closes(item: Result<MessageModel, ClientErrorModel>)
    ensures
        EventModel::of_item(item) is Closed <==> (item matches Err(e) && !(e is Serialization)),
{
}

/// A response that carries an error ends its request with a
/// protocol error of the kind that the code of the error stands for.
pub proof fn lemma_error_mapping(
    pending: PendingModel,
    response: crate::protocol::ResponseModel,
)
    requires
        response.id == pending.request.id,
        response.error is Some,
    ensures
        pending.step(EventModel::Message(MessageModel::Response(response))).1 matches ProgressModel::Done(
            Err(e),
        ) && e.kind() == Some(ErrorCode::of(response.error->0.code as int)),
{
}

/// A request does not wait for ever. Once as many poll intervals
/// have passed as its limit allows, and one at least, the request is over,
/// whatever else has arrived in between.
pub proof fn lemma_request_ends_within_limit(pending: PendingModel, events: Seq<EventModel>)
    requires
        tick_count(events) >= 1,
        pending.polls + tick_count(events) >= pending.limit,
    ensures
        pending.run(events).1 is Done,
    decreases events.len(),
{
    if events.len() > 0 {
        let (next, progress) = pending.step(events[0]);
        if progress is Waiting {
            if events[0] is Tick {
                assert(tick_count(events.drop_first()) >= 1);
            }
            lemma_request_ends_within_limit(next, events.drop_first());
        }
    }
}

/// Whether an event neither ends a request nor could: a message that does
/// not answer it, a line that is no message, or a poll interval in which
/// the server process, if there is one, runs.
pub open spec fn quiet(pending: PendingModel, event: EventModel) -> bool {
    match event {
        EventModel::Message(m) => !pending.answered_by(m),
        EventModel::Malformed(_) => true,
        EventModel::Closed => false,
        EventModel::Tick(None) => true,
        EventModel::Tick(Some(status)) => status is Running,
    }
}

/// A request that no response answers ends with `Timeout`: where every
/// event is quiet and the last of them is the poll interval that reaches the
/// limit, the request ends there, timed out, with the method it called.
pub proof fn lemma_silence_times_out(pending: PendingModel, events: Seq<EventModel>)
    requires
        forall|i: int| 0 <= i < events.len() ==> quiet(pending, #[trigger] events[i]),
        tick_count(events) >= 1,
        pending.polls + tick_count(events) >= pending.limit,
    ensures
        pending.run(events).1 == ProgressModel::Done(
            Err(ClientErrorModel::Timeout { method: pending.request.method }),
        ),
    decreases events.len(),
{
    if events.len() > 0 {
        let (next, progress) = pending.step(events[0]);
        assert(quiet(pending, events[0]));
        if progress is Waiting {
            if events[0] is Tick {
                assert(tick_count(events.drop_first()) >= 1);
            }
            assert forall|i: int| 0 <= i < events.drop_first().len() implies quiet(
                next,
                #[trigger] events.drop_first()[i],
            ) by {
                assert(quiet(pending, events[i + 1]));
            }
            lemma_silence_times_out(next, events.drop_first());
        }
    }
}

/// A look at the server process that finds it ended ends the
/// request at once, however few poll intervals have passed, with the exit
/// status that was found.
pub proof fn lemma_process_exit_ends_request(pending: PendingModel, status: Seq<char>)
    ensures
        pending.step(EventModel::Tick(Some(ProcessStatusModel::Exited(status)))) == (
            pending,
            ProgressModel::Done(Err(ClientErrorModel::ProcessExited { status })),
        ),
{
}

} // verus!
