//! The listening server: its settings, the builder that collects them, and
//! the decisions of its life from the first bind to the last connection.
//!
//! The server here opens no socket. Its caller binds, accepts and starts
//! threads, tells the server what came of it as a [`ServerEvent`], and does
//! what the [`Reaction`] says.

use vstd::prelude::*;
use vstd::string::StringExecFns;
use crate::log::LogLevel;
use crate::text::target;
use crate::text::target_text;

verus! {

/// What went wrong in a server, in words.
#[derive(Debug, Clone, PartialEq, Eq)]
pub struct ServerError(String);

impl View for ServerError {
    type V = Seq<char>;

    closed spec fn view(&self) -> Seq<char> {
        self.0@
    }
}

impl ServerError {
    /// An error that says `message`.
    pub fn new(message: String) -> (error: ServerError)
        ensures
            error@ == message@,
    {
        ServerError(message)
    }

    /// What the error says.
    pub fn message(&self) -> (text: &str)
        ensures
            text@ == self@,
    {
        self.0.as_str()
    }

    /// What the error says, as a text of its own.
    pub fn to_text(&self) -> (text: String)
        ensures
            text@ == self@,
    {
        String::from_str(self.0.as_str())
    }
}

/// Where a server stands in its life.
#[derive(Debug, Clone, Copy, PartialEq, Eq, Structural)]
pub enum ServerState {
    /// It has no listening socket.
    Unbound,
    /// It has a listening socket, and nothing accepts on it yet.
    Bound,
    /// Connections are accepted.
    Listening,
    /// It has ended, and stays so.
    Terminated,
}

/// What happened to a server.
#[derive(Debug, Clone, Copy, PartialEq, Eq, Structural)]
pub enum ServerEvent {
    /// It was asked to run.
    Run,
    /// The listening socket was bound.
    BindSucceeded,
    /// The listening socket could not be bound.
    BindFailed,
    /// The thread that accepts connections was started.
    Launched,
    /// The thread that accepts connections could not be started.
    LaunchFailed,
    /// A connection was accepted.
    Accepted,
    /// Accepting a connection failed.
    AcceptFailed,
}

/// What the caller does next.
#[derive(Debug, Clone, Copy, PartialEq, Eq, Structural)]
pub enum ServerAction {
    /// Bind a listening socket to the server's target.
    Bind,
    /// Start the thread that accepts connections.
    Launch,
    /// Wait for the next connection.
    Accept,
    /// Give the accepted connection to the client handler, on a thread of
    /// its own, and wait for the next connection.
    Serve,
    /// Stop: the server has ended.
    Halt,
    /// Nothing: the event does not belong to the state.
    Ignore,
}

/// A step of the server's life that is worth a line in the log.
#[derive(Debug, Clone, Copy, PartialEq, Eq, Structural)]
pub enum Notice {
    /// The server was asked to run.
    Starting,
    /// The server accepts connections.
    Listening,
}

/// A failure that the error handler is told of.
#[derive(Debug, Clone, Copy, PartialEq, Eq, Structural)]
pub enum Fault {
    /// The listening socket could not be bound.
    Bind,
    /// The thread that accepts connections could not be started.
    Launch,
    /// Accepting a connection failed.
    Accept,
}

/// What a server makes of an event.
#[derive(Debug, Clone, Copy, PartialEq, Eq, Structural)]
pub struct Reaction {
    /// Where the server stands after the event.
    pub state: ServerState,
    /// What to log, if anything.
    pub notice: Option<Notice>,
    /// What to tell the error handler, if anything.
    pub fault: Option<Fault>,
    /// What to do next.
    pub action: ServerAction,
}

/// What a server in `state` makes of `event`.
///
/// Asked to run, an unbound server logs that it starts and has a socket
/// bound. With the socket it is bound and has the accepting thread started;
/// without it the server reports the failure and ends. With the thread it
/// listens, logs so and accepts; without it the server reports the failure and
/// ends. While it listens, each connection is served and each failure to
/// accept is reported, and it goes on accepting after either. An event that
/// does not belong to the state changes nothing.
pub open spec fn react(state: ServerState, event: ServerEvent) -> Reaction {
    match (state, event) {
        (ServerState::Unbound, ServerEvent::Run) => Reaction {
            state: ServerState::Unbound,
            notice: Some(Notice::Starting),
            fault: None,
            action: ServerAction::Bind,
        },
        (ServerState::Unbound, ServerEvent::BindSucceeded) => Reaction {
            state: ServerState::Bound,
            notice: None,
            fault: None,
            action: ServerAction::Launch,
        },
        (ServerState::Unbound, ServerEvent::BindFailed) => Reaction {
            state: ServerState::Terminated,
            notice: None,
            fault: Some(Fault::Bind),
            action: ServerAction::Halt,
        },
        (ServerState::Bound, ServerEvent::Launched) => Reaction {
            state: ServerState::Listening,
            notice: Some(Notice::Listening),
            fault: None,
            action: ServerAction::Accept,
        },
        (ServerState::Bound, ServerEvent::LaunchFailed) => Reaction {
            state: ServerState::Terminated,
            notice: None,
            fault: Some(Fault::Launch),
            action: ServerAction::Halt,
        },
        (ServerState::Listening, ServerEvent::Accepted) => Reaction {
            state: ServerState::Listening,
            notice: None,
            fault: None,
            action: ServerAction::Serve,
        },
        (ServerState::Listening, ServerEvent::AcceptFailed) => Reaction {
            state: ServerState::Listening,
            notice: None,
            fault: Some(Fault::Accept),
            action: ServerAction::Accept,
        },
        _ => Reaction { state: state, notice: None, fault: None, action: ServerAction::Ignore },
    }
}

impl Notice {
    /// The level at which the notice is logged.
    pub open spec fn level(self) -> LogLevel {
        LogLevel::INFO
    }

    /// The message that is logged.
    pub open spec fn message(self) -> Seq<char> {
        match self {
            Notice::Starting => "Starting server"@,
            Notice::Listening => "Server started, listening for connections."@,
        }
    }

    /// The level at which the notice is logged.
    pub fn log_level(&self) -> (level: LogLevel)
        ensures
            level == self.level(),
    {
        LogLevel::INFO
    }

    /// The message that is logged.
    pub fn text(&self) -> (text: &'static str)
        ensures
            text@ == self.message(),
    {
        match self {
            Notice::Starting => "Starting server",
            Notice::Listening => "Server started, listening for connections.",
        }
    }
}

/// What the error handler is told of a fault of the server at `address` and
/// `port`. `cause` is what the transport said of a failure to accept; the
/// other two faults do not show it.
pub open spec fn fault_message(fault: Fault, address: Seq<char>, port: u16, cause: Seq<char>) -> Seq<
    char,
> {
    match fault {
        Fault::Bind => "failed to bind listener to address "@ + target(address, port),
        Fault::Launch => "Failed to spawn listener thread"@,
        Fault::Accept => "Connection failed: "@ + cause,
    }
}

/// The type of a handler that was never given.
#[derive(Debug, Clone, Copy, PartialEq, Eq, Structural)]
pub struct NoHandler;

/// What a server is set up with. A handler that is `None` stands for the
/// default, which writes to the console.
pub struct Settings<C, E, L> {
    pub address: Seq<char>,
    pub port: u16,
    pub error_handler: Option<E>,
    pub client_handler: Option<C>,
    pub log_handler: Option<L>,
}

/// A server: where it listens, whom it calls, and where it stands in its
/// life.
///
/// `C` is the type of the handler that is given each accepted connection, `E`
/// of the one that is told of errors, and `L` of the one that is given log
/// events. The server keeps them for its caller and never calls them itself.
pub struct Server<'a, C, E, L> {
    /// The address to listen on.
    pub address: &'a str,
    /// The port to listen on.
    pub port: u16,
    /// Who is told of errors; `None` for the console.
    pub error_handler: Option<E>,
    /// Who is given each accepted connection; `None` for a greeting on the
    /// console.
    pub client_handler: Option<C>,
    /// Who is given log events; `None` for the console.
    pub log_handler: Option<L>,
    /// Where the server stands in its life.
    pub state: ServerState,
}

impl<'a> Server<'a, NoHandler, NoHandler, NoHandler> {
    /// A server for `address` and `port` with no handler, not yet bound.
    pub fn new(address: &'a str, port: u16) -> (server: Self)
        ensures
            server.settings() == (Settings::<NoHandler, NoHandler, NoHandler> {
                address: address@,
                port: port,
                error_handler: None,
                client_handler: None,
                log_handler: None,
            }),
            server.state == ServerState::Unbound,
    {
        Server {
            address: address,
            port: port,
            error_handler: None,
            client_handler: None,
            log_handler: None,
            state: ServerState::Unbound,
        }
    }
}

impl<'a, C, E, L> Server<'a, C, E, L> {
    /// What the server is set up with.
    pub open spec fn settings(&self) -> Settings<C, E, L> {
        Settings {
            address: self.address@,
            port: self.port,
            error_handler: self.error_handler,
            client_handler: self.client_handler,
            log_handler: self.log_handler,
        }
    }

    /// Takes note of `event`: the server moves on as [`react`] says, and the
    /// reaction tells the caller what to log, what to report and what to do
    /// next. The settings stay as they are.
    pub fn handle(&mut self, event: ServerEvent) -> (reaction: Reaction)
        ensures
            reaction == react(old(self).state, event),
            final(self).state == reaction.state,
            final(self).settings() == old(self).settings(),
    {
        let reaction = decide(self.state, event);
        self.state = reaction.state;
        reaction
    }

    /// The target `address:port` that the listening socket is bound to.
    pub fn target(&self) -> (text: String)
        ensures
            text@ == target(self.address@, self.port),
    {
        target_text(self.address, self.port)
    }

    /// The error that the error handler is told for `fault`. `cause` is what
    /// the transport said of a failure to accept.
    pub fn error_for(&self, fault: Fault, cause: &str) -> (error: ServerError)
        ensures
            error@ == fault_message(fault, self.address@, self.port, cause@),
    {
        match fault {
            Fault::Bind => {
                let mut message = String::from_str("failed to bind listener to address ");
                message.append(self.target().as_str());
                ServerError::new(message)
            },
            Fault::Launch => ServerError::new(String::from_str("Failed to spawn listener thread")),
            Fault::Accept => {
                let mut message = String::from_str("Connection failed: ");
                message.append(cause);
                ServerError::new(message)
            },
        }
    }
}

/// What a server in `state` makes of `event`.
pub fn decide(state: ServerState, event: ServerEvent) -> (reaction: Reaction)
    ensures
        reaction == react(state, event),
{
    match (state, event) {
        (ServerState::Unbound, ServerEvent::Run) => Reaction {
            state: ServerState::Unbound,
            notice: Some(Notice::Starting),
            fault: None,
            action: ServerAction::Bind,
        },
        (ServerState::Unbound, ServerEvent::BindSucceeded) => Reaction {
            state: ServerState::Bound,
            notice: None,
            fault: None,
            action: ServerAction::Launch,
        },
        (ServerState::Unbound, ServerEvent::BindFailed) => Reaction {
            state: ServerState::Terminated,
            notice: None,
            fault: Some(Fault::Bind),
            action: ServerAction::Halt,
        },
        (ServerState::Bound, ServerEvent::Launched) => Reaction {
            state: ServerState::Listening,
            notice: Some(Notice::Listening),
            fault: None,
            action: ServerAction::Accept,
        },
        (ServerState::Bound, ServerEvent::LaunchFailed) => Reaction {
            state: ServerState::Terminated,
            notice: None,
            fault: Some(Fault::Launch),
            action: ServerAction::Halt,
        },
        (ServerState::Listening, ServerEvent::Accepted) => Reaction {
            state: ServerState::Listening,
            notice: None,
            fault: None,
            action: ServerAction::Serve,
        },
        (ServerState::Listening, ServerEvent::AcceptFailed) => Reaction {
            state: ServerState::Listening,
            notice: None,
            fault: Some(Fault::Accept),
            action: ServerAction::Accept,
        },
        _ => Reaction { state: state, notice: None, fault: None, action: ServerAction::Ignore },
    }
}

/// Collects the settings of a server one by one. What was not set is the
/// default: the address `0.0.0.0`, the port 4444, and no handler.
pub struct ServerBuilder<'a, C, E, L> {
    address: &'a str,
    port: u16,
    error_handler: Option<E>,
    client_handler: Option<C>,
    log_handler: Option<L>,
}

impl<'a, C, E, L> View for ServerBuilder<'a, C, E, L> {
    type V = Settings<C, E, L>;

    closed spec fn view(&self) -> Settings<C, E, L> {
        Settings {
            address: self.address@,
            port: self.port,
            error_handler: self.error_handler,
            client_handler: self.client_handler,
            log_handler: self.log_handler,
        }
    }
}

impl<'a> ServerBuilder<'a, NoHandler, NoHandler, NoHandler> {
    /// A builder with every setting at its default.
    pub fn new() -> (builder: Self)
        ensures
            builder@ == (Settings::<NoHandler, NoHandler, NoHandler> {
                address: "0.0.0.0"@,
                port: 4444,
                error_handler: None,
                client_handler: None,
                log_handler: None,
            }),
    {
        ServerBuilder {
            address: "0.0.0.0",
            port: 4444,
            error_handler: None,
            client_handler: None,
            log_handler: None,
        }
    }
}

impl<'a, C, E, L> ServerBuilder<'a, C, E, L> {
    /// Sets the address, and nothing else.
    pub fn address(self, address: &'a str) -> (builder: Self)
        ensures
            builder@ == (Settings { address: address@, ..self@ }),
    {
        ServerBuilder {
            address: address,
            port: self.port,
            error_handler: self.error_handler,
            client_handler: self.client_handler,
            log_handler: self.log_handler,
        }
    }

    /// Sets the port, and nothing else.
    pub fn port(self, port: u16) -> (builder: Self)
        ensures
            builder@ == (Settings { port: port, ..self@ }),
    {
        ServerBuilder {
            address: self.address,
            port: port,
            error_handler: self.error_handler,
            client_handler: self.client_handler,
            log_handler: self.log_handler,
        }
    }

    /// Sets the handler that is told of errors, and nothing else.
    pub fn error_handler<H>(self, handler: H) -> (builder: ServerBuilder<'a, C, H, L>)
        ensures
            builder@ == (Settings::<C, H, L> {
                address: self@.address,
                port: self@.port,
                error_handler: Some(handler),
                client_handler: self@.client_handler,
                log_handler: self@.log_handler,
            }),
    {
        ServerBuilder {
            address: self.address,
            port: self.port,
            error_handler: Some(handler),
            client_handler: self.client_handler,
            log_handler: self.log_handler,
        }
    }

    /// Sets the handler that is given each accepted connection, and nothing
    /// else.
    pub fn client_handler<H>(self, handler: H) -> (builder: ServerBuilder<'a, H, E, L>)
        ensures
            builder@ == (Settings::<H, E, L> {
                address: self@.address,
                port: self@.port,
                error_handler: self@.error_handler,
                client_handler: Some(handler),
                log_handler: self@.log_handler,
            }),
    {
        ServerBuilder {
            address: self.address,
            port: self.port,
            error_handler: self.error_handler,
            client_handler: Some(handler),
            log_handler: self.log_handler,
        }
    }

    /// Sets the handler that is given log events, and nothing else.
    pub fn log_handler<H>(self, handler: H) -> (builder: ServerBuilder<'a, C, E, H>)
        ensures
            builder@ == (Settings::<C, E, H> {
                address: self@.address,
                port: self@.port,
                error_handler: self@.error_handler,
                client_handler: self@.client_handler,
                log_handler: Some(handler),
            }),
    {
        ServerBuilder {
            address: self.address,
            port: self.port,
            error_handler: self.error_handler,
            client_handler: self.client_handler,
            log_handler: Some(handler),
        }
    }

    /// The server with the settings collected, not yet bound.
    pub fn build(self) -> (server: Server<'a, C, E, L>)
        ensures
            server.settings() == self@,
            server.state == ServerState::Unbound,
    {
        Server {
            address: self.address,
            port: self.port,
            error_handler: self.error_handler,
            client_handler: self.client_handler,
            log_handler: self.log_handler,
            state: ServerState::Unbound,
        }
    }
}

/// How far a state is along the one way that a server's life goes.
pub open spec fn rank(state: ServerState) -> nat {
    match state {
        ServerState::Unbound => 0,
        ServerState::Bound => 1,
        ServerState::Listening => 2,
        ServerState::Terminated => 3,
    }
}

/// Where a server in `state` stands after `events`, one after the other.
pub open spec fn after(state: ServerState, events: Seq<ServerEvent>) -> ServerState
    decreases events.len(),
{
    if events.len() == 0 {
        state
    } else {
        after(react(state, events[0]).state, events.drop_first())
    }
}

/// No event takes a server back: the state stays or moves on. So a server
/// that left `Unbound` is never unbound again.
pub proof fn lemma_no_way_back(state: ServerState, event: ServerEvent)
    ensures
        rank(react(state, event).state) >= rank(state),
        state != ServerState::Unbound ==> react(state, event).state != ServerState::Unbound,
{
}

/// A server that has ended stays so, whatever happens, and asks for
/// nothing.
pub proof fn lemma_terminated_stays(event: ServerEvent)
    ensures
        react(ServerState::Terminated, event) == (Reaction {
            state: ServerState::Terminated,
            notice: None,
            fault: None,
            action: ServerAction::Ignore,
        }),
{
}

/// A fault is reported exactly for a failure that belongs to the state. A
/// failure to bind or to launch ends the server; a failure to accept does not,
/// and the server goes on accepting.
pub proof fn lemma_faults(state: ServerState, event: ServerEvent)
    ensures
        react(state, event).fault == (match (state, event) {
            (ServerState::Unbound, ServerEvent::BindFailed) => Some(Fault::Bind),
            (ServerState::Bound, ServerEvent::LaunchFailed) => Some(Fault::Launch),
            (ServerState::Listening, ServerEvent::AcceptFailed) => Some(Fault::Accept),
            _ => None::<Fault>,
        }),
        react(state, event).fault == Some(Fault::Bind) || react(state, event).fault == Some(
            Fault::Launch,
        ) ==> react(state, event).state == ServerState::Terminated && react(state, event).action
            == ServerAction::Halt,
        react(state, event).fault == Some(Fault::Accept) ==> react(state, event).state
            == ServerState::Listening && react(state, event).action == ServerAction::Accept,
{
}

/// Only a launch on a bound server makes it listen, and only a bind on an
/// unbound one makes it bound.
pub proof fn lemma_one_way_in(state: ServerState, event: ServerEvent)
    ensures
        react(state, event).state == ServerState::Listening && state != ServerState::Listening
            ==> state == ServerState::Bound && event == ServerEvent::Launched,
        react(state, event).state == ServerState::Bound && state != ServerState::Bound ==> state
            == ServerState::Unbound && event == ServerEvent::BindSucceeded,
{
}

/// Over any run of events the state stays or moves on.
pub proof fn lemma_life_goes_one_way(state: ServerState, events: Seq<ServerEvent>)
    ensures
        rank(after(state, events)) >= rank(state),
    decreases events.len(),
{
    if events.len() > 0 {
        lemma_no_way_back(state, events[0]);
        lemma_life_goes_one_way(react(state, events[0]).state, events.drop_first());
    }
}

/// A server that listens goes on listening through any run of connections
/// and failures to accept: none of them ends it.
pub proof fn lemma_listening_goes_on(events: Seq<ServerEvent>)
    requires
        forall|i: int|
            0 <= i < events.len() ==> events[i] == ServerEvent::Accepted || events[i]
                == ServerEvent::AcceptFailed,
    ensures
        after(ServerState::Listening, events) == ServerState::Listening,
    decreases events.len(),
{
    if events.len() > 0 {
        let rest = events.drop_first();
        assert(forall|i: int| 0 <= i < rest.len() ==> rest[i] == events[i + 1]);
        lemma_listening_goes_on(rest);
    }
}

/// Asked to run, a server whose bind and launch succeed listens.
pub proof fn lemma_way_to_listening()
    ensures
        after(
            ServerState::Unbound,
            seq![ServerEvent::Run, ServerEvent::BindSucceeded, ServerEvent::Launched],
        ) == ServerState::Listening,
{
    let events = seq![ServerEvent::Run, ServerEvent::BindSucceeded, ServerEvent::Launched];
    let two = seq![ServerEvent::BindSucceeded, ServerEvent::Launched];
    let one = seq![ServerEvent::Launched];
    assert(events.drop_first() =~= two);
    assert(two.drop_first() =~= one);
    assert(one.drop_first() =~= Seq::<ServerEvent>::empty());
    reveal_with_fuel(after, 4);
}

} // verus!
