//! What it takes to start a server process and a session with it.

use vstd::prelude::*;
use crate::client::{Client, ClientModel, PendingRequest, SessionState, TeardownStage};
use crate::error::ClientError;
use crate::json::JsonModel;
use crate::text::texts;
use crate::types::{ClientCapabilities, Implementation, ImplementationModel};

verus! {

/// One variable of the environment of a process.
#[derive(Debug, PartialEq, Eq)]
pub struct Variable {
    pub key: String,
    pub value: String,
}

/// The environment that the first `n` variables make: a later one
/// overrides an earlier one of the same name.
pub open spec fn environment_model(variables: Seq<Variable>, n: nat) -> Map<Seq<char>, Seq<char>>
    decreases n,
{
    if n == 0 || n > variables.len() {
        Map::empty()
    } else {
        environment_model(variables, (n - 1) as nat).insert(
            variables[n - 1].key@,
            variables[n - 1].value@,
        )
    }
}

/// Collects what is needed to start a server as a process and to open a
/// session with it over the standard streams of the process.
#[derive(Debug, PartialEq, Eq)]
pub struct ClientBuilder {
    command: String,
    args: Vec<String>,
    working_directory: Option<String>,
    implementation: Option<Implementation>,
    capabilities: Option<ClientCapabilities>,
    env: Vec<Variable>,
}

/// A `ClientBuilder` as a mathematical value.
pub struct ClientBuilderModel {
    /// The program to run.
    pub command: Seq<char>,
    /// Its arguments, in order.
    pub args: Seq<Seq<char>>,
    /// The directory to run it in, if not that of the caller.
    pub working_directory: Option<Seq<char>>,
    /// The identity that the client announces, if not the default.
    pub implementation: Option<ImplementationModel>,
    /// The capabilities that the client announces, if not the default.
    pub capabilities: Option<JsonModel>,
    /// The variables added to the environment of the process.
    pub env: Map<Seq<char>, Seq<char>>,
}

impl View for ClientBuilder {
    type V = ClientBuilderModel;

    closed spec fn view(&self) -> ClientBuilderModel {
        ClientBuilderModel {
            command: self.command@,
            args: texts(self.args@),
            working_directory: match self.working_directory {
                Some(d) => Some(d@),
                None => None,
            },
            implementation: match self.implementation {
                Some(i) => Some(i@),
                None => None,
            },
            capabilities: match self.capabilities {
                Some(c) => Some(c@),
                None => None,
            },
            env: environment_model(self.env@, self.env@.len()),
        }
    }
}

/// The identity that a client announces where none was set.
pub open spec fn default_implementation() -> ImplementationModel {
    ImplementationModel { name: "mcp-client"@, version: "0.1.2"@ }
}

impl ClientBuilderModel {
    /// The identity that the client announces.
    pub open spec fn announced_implementation(self) -> ImplementationModel {
        match self.implementation {
            Some(i) => i,
            None => default_implementation(),
        }
    }

    /// The capabilities that the client announces: those that were set, and
    /// else none, the empty object.
    pub open spec fn announced_capabilities(self) -> JsonModel {
        match self.capabilities {
            Some(c) => c,
            None => JsonModel::Object(Map::empty()),
        }
    }
}

impl ClientBuilder {
    /// A builder for the given program, without arguments, in the directory
    /// and with the environment of the caller.
    pub fn new(command: &str) -> (builder: ClientBuilder)
        ensures
            builder@ == (ClientBuilderModel {
                command: command@,
                args: Seq::empty(),
                working_directory: None,
                implementation: None,
                capabilities: None,
                env: Map::empty(),
            }),
    {
        let builder = ClientBuilder {
            command: command.to_owned(),
            args: Vec::new(),
            working_directory: None,
            implementation: None,
            capabilities: None,
            env: Vec::new(),
        };
        assert(texts(builder.args@) =~= Seq::<Seq<char>>::empty());
        builder
    }

    /// Adds one argument after those already there.
    pub fn arg(self, arg: &str) -> (builder: ClientBuilder)
        ensures
            builder@ == (ClientBuilderModel { args: self@.args.push(arg@), ..self@ }),
    {
        let mut builder = self;
        builder.args.push(arg.to_owned());
        assert(texts(builder.args@) =~= texts(self.args@).push(arg@));
        builder
    }

    /// Adds arguments, in their order, after those already there.
    pub fn args(self, args: Vec<String>) -> (builder: ClientBuilder)
        ensures
            builder@ == (ClientBuilderModel { args: self@.args + texts(args@), ..self@ }),
    {
        let mut builder = self;
        let mut rest = args;
        proof {
            assert(texts(builder.args@) + texts(rest@) =~= texts(self.args@ + args@));
        }
        builder.args.append(&mut rest);
        assert(texts(builder.args@) =~= texts(self.args@) + texts(args@));
        builder
    }

    /// Sets the directory that the process runs in.
    pub fn directory(self, dir: &str) -> (builder: ClientBuilder)
        ensures
            builder@ == (ClientBuilderModel { working_directory: Some(dir@), ..self@ }),
    {
        let mut builder = self;
        builder.working_directory = Some(dir.to_owned());
        builder
    }

    /// Sets the identity that the client announces.
    pub fn implementation(self, name: &str, version: &str) -> (builder: ClientBuilder)
        ensures
            builder@ == (ClientBuilderModel {
                implementation: Some(ImplementationModel { name: name@, version: version@ }),
                ..self@
            }),
    {
        let mut builder = self;
        builder.implementation = Some(Implementation::new(name, version));
        builder
    }

    /// Sets the capabilities that the client announces.
    pub fn capabilities(self, caps: ClientCapabilities) -> (builder: ClientBuilder)
        ensures
            builder@ == (ClientBuilderModel { capabilities: Some(caps@), ..self@ }),
    {
        let mut builder = self;
        builder.capabilities = Some(caps);
        builder
    }

    /// Sets one variable of the environment of the process; a variable set
    /// before under the same name gets the new value.
    pub fn env(self, key: &str, value: &str) -> (builder: ClientBuilder)
        ensures
            builder@ == (ClientBuilderModel { env: self@.env.insert(key@, value@), ..self@ }),
    {
        let mut builder = self;
        let variable = Variable { key: key.to_owned(), value: value.to_owned() };
        proof {
            lemma_environment_agrees(self.env@.push(variable), self.env@, self.env@.len());
        }
        builder.env.push(variable);
        builder
    }

    /// The program to run.
    pub fn command(&self) -> (command: &str)
        ensures
            command@ == self@.command,
    {
        self.command.as_str()
    }

    /// The arguments of the program, in order.
    pub fn arguments(&self) -> (args: &Vec<String>)
        ensures
            texts(args@) == self@.args,
    {
        &self.args
    }

    /// The directory to run the program in, if one was set.
    pub fn working_directory(&self) -> (dir: Option<&str>)
        ensures
            match dir {
                Some(d) => self@.working_directory == Some(d@),
                None => self@.working_directory is None,
            },
    {
        match &self.working_directory {
            Some(d) => Some(d.as_str()),
            None => None,
        }
    }

    /// The variables to set, in the order in which to set them: setting
    /// each in turn, a later one over an earlier one of the same name,
    /// makes the environment that was asked for.
    pub fn variables(&self) -> (variables: &Vec<Variable>)
        ensures
            environment_model(variables@, variables@.len()) == self@.env,
    {
        &self.env
    }

    /// Opens the session for the process that was started from this
    /// builder: a session that owns its server process, and the
    /// `initialize` request to send first, with the identity and the
    /// capabilities that were set, or the defaults.
    pub fn open_session(&self) -> (r: Result<(Client, PendingRequest), ClientError>)
        ensures
            r matches Ok((client, pending)) && (
                ClientModel { state: SessionState::Uninitialized, ..client@ },
                pending@,
            ) == (ClientModel {
                state: SessionState::Uninitialized,
                counter: 0,
                capabilities: None,
                owns_process: true,
                poll_limit: 100,
                teardown: TeardownStage::Idle,
            }).issue(
                "initialize"@,
                Some(
                    crate::client::initialize_params(
                        self@.announced_implementation(),
                        self@.announced_capabilities(),
                    ),
                ),
            ) && client@.state == SessionState::Initializing,
    {
        let mut client = Client::new(true);
        let fallback = Implementation::new("mcp-client", "0.1.2");
        let none = ClientCapabilities::default();
        let implementation = match &self.implementation {
            Some(i) => i,
            None => &fallback,
        };
        let capabilities = match &self.capabilities {
            Some(c) => c,
            None => &none,
        };
        let pending = client.initialize(implementation, capabilities)?;
        Ok((client, pending))
    }
}

/// What the first `n` variables make depends on those variables alone.
pub proof fn lemma_environment_agrees(a: Seq<Variable>, b: Seq<Variable>, n: nat)
    requires
        n <= a.len(),
        n <= b.len(),
        forall|j: int| 0 <= j < n ==> a[j] == b[j],
    ensures
        environment_model(a, n) == environment_model(b, n),
    decreases n,
{
    if n > 0 {
        lemma_environment_agrees(a, b, (n - 1) as nat);
    }
}

} // verus!
