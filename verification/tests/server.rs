use bitsock::log::console_text;
use bitsock::server::decide;
use bitsock::server::Fault;
use bitsock::server::Notice;
use bitsock::server::Reaction;
use bitsock::server::Server;
use bitsock::server::ServerAction;
use bitsock::server::ServerBuilder;
use bitsock::server::ServerError;
use bitsock::server::ServerEvent;
use bitsock::server::ServerState;
use bitsock::LogLevel;
use bitsock::LogStage;

#[test]
fn check_server_builder() {
    let server = ServerBuilder::new()
        .address("192.168.1.84")
        .port(8580)
        .build();
    assert_eq!(server.port, 8580);
    assert_eq!(server.address, "192.168.1.84");
}

#[test]
fn builder_defaults() {
    let server = ServerBuilder::new().build();
    assert_eq!(server.address, "0.0.0.0");
    assert_eq!(server.port, 4444);
    assert!(server.error_handler.is_none());
    assert!(server.client_handler.is_none());
    assert!(server.log_handler.is_none());
    assert_eq!(server.state, ServerState::Unbound);
    assert_eq!(server.target(), "0.0.0.0:4444");
}

#[test]
fn builder_sets_one_thing_at_a_time() {
    let server = ServerBuilder::new().port(1).build();
    assert_eq!(server.address, "0.0.0.0");
    assert_eq!(server.port, 1);
    let server = ServerBuilder::new().address("::1").build();
    assert_eq!(server.address, "::1");
    assert_eq!(server.port, 4444);
    let server = ServerBuilder::new().port(1).address("a").port(2).address("b").build();
    assert_eq!(server.address, "b");
    assert_eq!(server.port, 2);
}

#[test]
fn builder_keeps_the_handlers() {
    let server = ServerBuilder::new()
        .error_handler(11u8)
        .client_handler("client")
        .log_handler(33u64)
        .port(9)
        .build();
    assert_eq!(server.error_handler, Some(11u8));
    assert_eq!(server.client_handler, Some("client"));
    assert_eq!(server.log_handler, Some(33u64));
    assert_eq!(server.port, 9);
    assert_eq!(server.address, "0.0.0.0");

    let server = ServerBuilder::new().client_handler(1u8).client_handler(2u16).build();
    assert_eq!(server.client_handler, Some(2u16));
    assert!(server.error_handler.is_none());
    assert!(server.log_handler.is_none());
}

#[test]
fn builder_keeps_a_closure() {
    let server = ServerBuilder::new().log_handler(|level: LogLevel, message: &str| {
        console_text(LogStage::SERVER, level, message)
    }).build();
    let handler = server.log_handler.unwrap();
    assert_eq!(handler(LogLevel::WARN, "careful"), "[SERVER][WARN]: careful");
}

#[test]
fn a_new_server_is_unbound() {
    let server = Server::new("127.0.0.1", 80);
    assert_eq!(server.address, "127.0.0.1");
    assert_eq!(server.port, 80);
    assert_eq!(server.state, ServerState::Unbound);
    assert!(server.error_handler.is_none());
    assert!(server.client_handler.is_none());
    assert!(server.log_handler.is_none());
    assert_eq!(server.target(), "127.0.0.1:80");
}

#[test]
fn the_way_to_listening() {
    let mut server = ServerBuilder::new().build();
    assert_eq!(
        server.handle(ServerEvent::Run),
        Reaction {
            state: ServerState::Unbound,
            notice: Some(Notice::Starting),
            fault: None,
            action: ServerAction::Bind,
        }
    );
    assert_eq!(server.state, ServerState::Unbound);
    assert_eq!(
        server.handle(ServerEvent::BindSucceeded),
        Reaction {
            state: ServerState::Bound,
            notice: None,
            fault: None,
            action: ServerAction::Launch,
        }
    );
    assert_eq!(server.state, ServerState::Bound);
    assert_eq!(
        server.handle(ServerEvent::Launched),
        Reaction {
            state: ServerState::Listening,
            notice: Some(Notice::Listening),
            fault: None,
            action: ServerAction::Accept,
        }
    );
    assert_eq!(server.state, ServerState::Listening);
    assert_eq!(server.address, "0.0.0.0");
    assert_eq!(server.port, 4444);
}

#[test]
fn a_failed_bind_ends_the_server() {
    let mut server = Server::new("10.0.0.1", 7);
    server.handle(ServerEvent::Run);
    assert_eq!(
        server.handle(ServerEvent::BindFailed),
        Reaction {
            state: ServerState::Terminated,
            notice: None,
            fault: Some(Fault::Bind),
            action: ServerAction::Halt,
        }
    );
    assert_eq!(server.state, ServerState::Terminated);
    assert_eq!(
        server.error_for(Fault::Bind, "").message(),
        "failed to bind listener to address 10.0.0.1:7"
    );
}

#[test]
fn a_failed_launch_ends_the_server() {
    let mut server = Server::new("10.0.0.1", 7);
    server.handle(ServerEvent::Run);
    server.handle(ServerEvent::BindSucceeded);
    assert_eq!(
        server.handle(ServerEvent::LaunchFailed),
        Reaction {
            state: ServerState::Terminated,
            notice: None,
            fault: Some(Fault::Launch),
            action: ServerAction::Halt,
        }
    );
    assert_eq!(server.state, ServerState::Terminated);
    assert_eq!(
        server.error_for(Fault::Launch, "ignored").message(),
        "Failed to spawn listener thread"
    );
}

#[test]
fn a_failed_accept_does_not_end_the_server() {
    let mut server = Server::new("10.0.0.1", 7);
    server.handle(ServerEvent::Run);
    server.handle(ServerEvent::BindSucceeded);
    server.handle(ServerEvent::Launched);
    for _ in 0..3 {
        assert_eq!(
            server.handle(ServerEvent::AcceptFailed),
            Reaction {
                state: ServerState::Listening,
                notice: None,
                fault: Some(Fault::Accept),
                action: ServerAction::Accept,
            }
        );
        assert_eq!(
            server.handle(ServerEvent::Accepted),
            Reaction {
                state: ServerState::Listening,
                notice: None,
                fault: None,
                action: ServerAction::Serve,
            }
        );
    }
    assert_eq!(server.state, ServerState::Listening);
    assert_eq!(
        server.error_for(Fault::Accept, "too many open files").message(),
        "Connection failed: too many open files"
    );
}

#[test]
fn a_terminated_server_stays_so() {
    let events = [
        ServerEvent::Run,
        ServerEvent::BindSucceeded,
        ServerEvent::BindFailed,
        ServerEvent::Launched,
        ServerEvent::LaunchFailed,
        ServerEvent::Accepted,
        ServerEvent::AcceptFailed,
    ];
    for event in events {
        assert_eq!(
            decide(ServerState::Terminated, event),
            Reaction {
                state: ServerState::Terminated,
                notice: None,
                fault: None,
                action: ServerAction::Ignore,
            }
        );
    }
}

#[test]
fn no_event_takes_a_server_back() {
    let states =
        [ServerState::Unbound, ServerState::Bound, ServerState::Listening, ServerState::Terminated];
    let events = [
        ServerEvent::Run,
        ServerEvent::BindSucceeded,
        ServerEvent::BindFailed,
        ServerEvent::Launched,
        ServerEvent::LaunchFailed,
        ServerEvent::Accepted,
        ServerEvent::AcceptFailed,
    ];
    for (rank, state) in states.iter().enumerate() {
        for event in events {
            let next = decide(*state, event).state;
            let next_rank = states.iter().position(|s| *s == next).unwrap();
            assert!(next_rank >= rank);
        }
    }
}

#[test]
fn an_event_out_of_place_changes_nothing() {
    let ignored = |state: ServerState| Reaction {
        state,
        notice: None,
        fault: None,
        action: ServerAction::Ignore,
    };
    assert_eq!(decide(ServerState::Unbound, ServerEvent::Accepted), ignored(ServerState::Unbound));
    assert_eq!(decide(ServerState::Unbound, ServerEvent::Launched), ignored(ServerState::Unbound));
    assert_eq!(decide(ServerState::Bound, ServerEvent::Run), ignored(ServerState::Bound));
    assert_eq!(decide(ServerState::Bound, ServerEvent::BindFailed), ignored(ServerState::Bound));
    assert_eq!(decide(ServerState::Listening, ServerEvent::Run), ignored(ServerState::Listening));
    assert_eq!(
        decide(ServerState::Listening, ServerEvent::LaunchFailed),
        ignored(ServerState::Listening)
    );
}

#[test]
fn notices() {
    assert_eq!(Notice::Starting.text(), "Starting server");
    assert_eq!(Notice::Listening.text(), "Server started, listening for connections.");
    assert_eq!(Notice::Starting.log_level(), LogLevel::INFO);
    assert_eq!(Notice::Listening.log_level(), LogLevel::INFO);
}

#[test]
fn console_lines() {
    assert_eq!(
        console_text(LogStage::SERVER, LogLevel::INFO, "Starting server"),
        "[SERVER][INFO]: Starting server"
    );
    assert_eq!(console_text(LogStage::CLIENT, LogLevel::WARN, ""), "[CLIENT][WARN]: ");
    assert_eq!(console_text(LogStage::SERVER, LogLevel::ERROR, "x y"), "[SERVER][ERROR]: x y");
    assert_eq!(LogStage::SERVER.name(), "SERVER");
    assert_eq!(LogStage::CLIENT.name(), "CLIENT");
    assert_eq!(LogLevel::INFO.name(), "INFO");
    assert_eq!(LogLevel::WARN.name(), "WARN");
    assert_eq!(LogLevel::ERROR.name(), "ERROR");
}

#[test]
fn a_server_error_says_its_message() {
    let error = ServerError::new("failed".to_string());
    assert_eq!(error.message(), "failed");
    assert_eq!(error.to_text(), "failed".to_string());
    assert_eq!(error.clone(), error);
}
