use mc_worker::command::MCServerCommands;
use mc_worker::engine::{ContainerRequest, EngineCall, EngineFault, EngineReply, PortMapping};
use mc_worker::error::MCError;
use mc_worker::options::{MCServerLogOptions, MCServerOptionsBuilder};
use mc_worker::service::{MCContainer, MCContainerService, MCService};
use mc_worker::DEFAULT_MC_PORT;
use std::cell::RefCell;

fn not_found() -> EngineReply {
    EngineReply::Fault(EngineFault { code: Some(404), message: "No such container".to_string() })
}

fn handle(id: &str) -> MCContainer {
    MCService::get_container(id.to_string())
}

/// An engine that answers from a script and keeps the calls it was handed.
struct Scripted {
    calls: RefCell<Vec<EngineCall>>,
    replies: RefCell<Vec<EngineReply>>,
}

impl Scripted {
    fn new(mut replies: Vec<EngineReply>) -> Self {
        replies.reverse();
        Scripted { calls: RefCell::new(Vec::new()), replies: RefCell::new(replies) }
    }

    fn answer(&self, call: EngineCall) -> EngineReply {
        self.calls.borrow_mut().push(call);
        self.replies.borrow_mut().pop().unwrap_or_else(not_found)
    }

    fn calls(&self) -> Vec<EngineCall> {
        self.calls.replace(Vec::new())
    }
}

#[test]
fn default_port_is_the_workload_port() {
    assert_eq!(DEFAULT_MC_PORT, 25565);
    let options = MCServerOptionsBuilder::new("test".to_string(), "/data/world".to_string()).build();
    assert_eq!(options.port(), 25565);
    assert_eq!(options.name(), "test");
    assert_eq!(options.volume(), "/data/world");
}

#[test]
fn builder_port_replaces_the_port_only() {
    let options = MCServerOptionsBuilder::new("test".to_string(), "/data/world".to_string())
        .port(25566)
        .build();
    assert_eq!(options.port(), 25566);
    assert_eq!(options.name(), "test");
    assert_eq!(options.volume(), "/data/world");
}

#[test]
fn builder_keeps_the_last_port() {
    let options = MCServerOptionsBuilder::new("a".to_string(), "/b".to_string())
        .port(1)
        .port(0)
        .port(65536)
        .build();
    assert_eq!(options.port(), 65536);
}

#[test]
fn log_options_default_to_twenty() {
    assert_eq!(MCServerLogOptions::default().limit(), "20");
}

#[test]
fn op_command_is_one_line() {
    assert_eq!(MCServerCommands::OP("Alice".to_string()).to_string(), "/op Alice\n");
    assert_eq!(MCServerCommands::OP(String::new()).to_string(), "/op \n");
}

#[test]
fn op_command_stays_one_line_whatever_the_name() {
    assert_eq!(MCServerCommands::OP("a\nb".to_string()).to_string(), "/op ab\n");
    assert_eq!(
        MCServerCommands::OP("Alice\n/stop".to_string()).to_string(),
        "/op Alice/stop\n"
    );
    assert_eq!(MCServerCommands::OP("\n".to_string()).to_string(), "/op \n");
    assert_eq!(MCServerCommands::OP("\n\nA\n\nB\n".to_string()).to_string(), "/op AB\n");
    assert_eq!(MCServerCommands::OP("Zo\u{eb}\n\u{eb}".to_string()).to_string(), "/op Zo\u{eb}\u{eb}\n");
    assert_eq!(MCServerCommands::OP("a\rb\tc".to_string()).to_string(), "/op a\rb\tc\n");
    for name in ["", "\n", "a\nb", "\na", "a\n", "Alice", "\n\n\n"] {
        let text = MCServerCommands::OP(name.to_string()).to_string();
        assert!(text.starts_with("/op "));
        assert!(text.ends_with('\n'));
        assert_eq!(text.matches('\n').count(), 1);
    }
}

#[test]
fn run_command_writes_no_second_line() {
    let call = MCContainerService::command_call(
        &handle("abc"),
        &MCServerCommands::OP("Alice\nstop".to_string()),
    );
    assert_eq!(
        call,
        EngineCall::Attach { id: "abc".to_string(), input: b"/op Alicestop\n".to_vec() }
    );
}

#[test]
fn run_command_error_keeps_the_name_as_given() {
    let command = MCServerCommands::OP("a\nb".to_string());
    let e = MCContainerService::commanded(&handle("abc"), command, not_found());
    assert_eq!(
        e,
        Err(MCError::FailedToRunCommand(
            "abc".to_string(),
            MCServerCommands::OP("a\nb".to_string())
        ))
    );
    assert_eq!(e.unwrap_err().to_string(), "failed to run command OP(\"a\\nb\") on container abc");
}

#[test]
fn command_clone_is_the_same_command() {
    let command = MCServerCommands::OP("Alice".to_string());
    assert_eq!(command.clone(), command);
}

#[test]
fn error_messages() {
    assert_eq!(MCError::FailedToCreateContainer.to_string(), "failed to create container");
    assert_eq!(
        MCError::FailedToStartContainer("abc".to_string()).to_string(),
        "failed to start container abc"
    );
    assert_eq!(
        MCError::FailedToInspectContainer("abc".to_string()).to_string(),
        "failed to inspect container abc"
    );
    assert_eq!(
        MCError::FailedToStopContainer("abc".to_string()).to_string(),
        "failed to stop container abc"
    );
    assert_eq!(
        MCError::FailedToRMContainer("abc".to_string()).to_string(),
        "failed to rm container abc"
    );
    assert_eq!(
        MCError::ContainerError("abc".to_string(), "port is already allocated".to_string())
            .to_string(),
        "port is already allocated"
    );
}

#[test]
fn run_command_error_shows_the_command_quoted() {
    let e = MCError::FailedToRunCommand("abc".to_string(), MCServerCommands::OP("Alice".to_string()));
    assert_eq!(e.to_string(), "failed to run command OP(\"Alice\") on container abc");
}

#[test]
fn run_command_error_escapes_the_argument() {
    let e = MCError::FailedToRunCommand(
        "abc".to_string(),
        MCServerCommands::OP("a\"b\\c\n".to_string()),
    );
    assert_eq!(e.to_string(), "failed to run command OP(\"a\\\"b\\\\c\\n\") on container abc");
}

#[test]
fn command_diagnostic_is_its_debug_form() {
    let command = MCServerCommands::OP("Al ice\t".to_string());
    assert_eq!(command.diagnostic(), format!("{:?}", command));
}

#[test]
fn errors_name_their_container() {
    assert_eq!(MCError::FailedToCreateContainer.container_id(), None);
    let id = "abc".to_string();
    assert_eq!(MCError::FailedToStartContainer(id.clone()).container_id(), Some(&id));
    assert_eq!(MCError::FailedToInspectContainer(id.clone()).container_id(), Some(&id));
    assert_eq!(MCError::FailedToStopContainer(id.clone()).container_id(), Some(&id));
    assert_eq!(MCError::FailedToRMContainer(id.clone()).container_id(), Some(&id));
    assert_eq!(
        MCError::FailedToRunCommand(id.clone(), MCServerCommands::OP("x".to_string()))
            .container_id(),
        Some(&id)
    );
    assert_eq!(MCError::ContainerError(id.clone(), "boom".to_string()).container_id(), Some(&id));
}

#[test]
fn every_fault_is_for_the_log() {
    for code in [None, Some(0), Some(304), Some(399), Some(400), Some(404), Some(500), Some(600)] {
        let reply = EngineReply::Fault(EngineFault { code, message: "detail".to_string() });
        assert_eq!(reply.fault(), Some(&EngineFault { code, message: "detail".to_string() }));
    }
}

#[test]
fn replies_that_are_no_fault_have_none() {
    assert_eq!(EngineReply::Accepted.fault(), None);
    assert_eq!(EngineReply::State { error: "boom".to_string() }.fault(), None);
    assert_eq!(EngineReply::Output(Vec::new()).fault(), None);
    assert_eq!(EngineReply::Created { id: "abc".to_string(), warnings: None }.fault(), None);
}

#[test]
fn create_call_carries_the_payload() {
    let options = MCServerOptionsBuilder::new("test".to_string(), "/data/world".to_string())
        .port(25566)
        .build();
    let call = MCService::new().create_call(&options);
    assert_eq!(
        call,
        EngineCall::Create(ContainerRequest {
            image: "itzg/minecraft-server".to_string(),
            env: vec!["EULA=TRUE".to_string()],
            binds: vec!["/data/world:/data".to_string()],
            attach_stdin: true,
            ports: vec![PortMapping { host_port: 25566, container_port: 25565 }],
        })
    );
}

#[test]
fn create_gives_the_engines_id() {
    let engine = Scripted::new(vec![EngineReply::Created { id: "c0ffee".to_string(), warnings: None }]);
    let options = MCServerOptionsBuilder::new("test".to_string(), "/data/world".to_string()).build();
    let service = MCService::new();
    let created = service.create(&options, &|call| engine.answer(call));
    assert_eq!(created, Ok(MCContainer { id: "c0ffee".to_string() }));
    assert_eq!(engine.calls(), vec![service.create_call(&options)]);
}

#[test]
fn create_warnings_are_no_error() {
    let reply = EngineReply::Created {
        id: "c0ffee".to_string(),
        warnings: Some(vec!["swap limit not supported".to_string()]),
    };
    assert_eq!(MCService::created(reply), Ok(MCContainer { id: "c0ffee".to_string() }));
}

#[test]
fn create_failure_has_one_error() {
    assert_eq!(MCService::created(not_found()), Err(MCError::FailedToCreateContainer));
    assert_eq!(MCService::created(EngineReply::Accepted), Err(MCError::FailedToCreateContainer));
    assert_eq!(
        MCService::created(EngineReply::State { error: String::new() }),
        Err(MCError::FailedToCreateContainer)
    );
    assert_eq!(
        MCService::created(EngineReply::Output(Vec::new())),
        Err(MCError::FailedToCreateContainer)
    );
    let engine = Scripted::new(vec![EngineReply::Fault(EngineFault {
        code: None,
        message: "connection refused".to_string(),
    })]);
    let options = MCServerOptionsBuilder::new("test".to_string(), "/nowhere".to_string()).build();
    let created = MCService::new().create(&options, &|call| engine.answer(call));
    assert_eq!(created, Err(MCError::FailedToCreateContainer));
}

#[test]
fn get_container_round_trip() {
    let engine = Scripted::new(vec![EngineReply::Created { id: "c0ffee".to_string(), warnings: None }]);
    let options = MCServerOptionsBuilder::new("test".to_string(), "/data/world".to_string()).build();
    let created = MCService::new().create(&options, &|call| engine.answer(call)).unwrap();
    let again = MCService::get_container(created.id.clone());
    assert_eq!(again, created);
    assert_eq!(again.id, "c0ffee");
}

#[test]
fn start_succeeds_on_a_sound_state() {
    let engine =
        Scripted::new(vec![EngineReply::Accepted, EngineReply::State { error: String::new() }]);
    let started = MCContainerService::new().start(&handle("abc"), &|call| engine.answer(call));
    assert_eq!(started, Ok(()));
    assert_eq!(
        engine.calls(),
        vec![
            EngineCall::Start { id: "abc".to_string() },
            EngineCall::Inspect { id: "abc".to_string() },
        ]
    );
}

#[test]
fn start_fault_after_accepted_start_is_a_container_error() {
    let engine = Scripted::new(vec![
        EngineReply::Accepted,
        EngineReply::State { error: "port is already allocated".to_string() },
    ]);
    let started = MCContainerService::new().start(&handle("abc"), &|call| engine.answer(call));
    assert_eq!(
        started,
        Err(MCError::ContainerError("abc".to_string(), "port is already allocated".to_string()))
    );
}

#[test]
fn refused_start_is_not_inspected() {
    let engine = Scripted::new(vec![
        EngineReply::Fault(EngineFault { code: Some(500), message: "boom".to_string() }),
        EngineReply::State { error: String::new() },
    ]);
    let started = MCContainerService::new().start(&handle("abc"), &|call| engine.answer(call));
    assert_eq!(started, Err(MCError::FailedToStartContainer("abc".to_string())));
    assert_eq!(engine.calls(), vec![EngineCall::Start { id: "abc".to_string() }]);
}

#[test]
fn failed_inspection_has_its_own_error() {
    let engine = Scripted::new(vec![EngineReply::Accepted, not_found()]);
    let started = MCContainerService::new().start(&handle("abc"), &|call| engine.answer(call));
    assert_eq!(started, Err(MCError::FailedToInspectContainer("abc".to_string())));
}

#[test]
fn start_steps_one_by_one() {
    let container = handle("abc");
    assert_eq!(
        MCContainerService::start_call(&container),
        EngineCall::Start { id: "abc".to_string() }
    );
    assert_eq!(
        MCContainerService::started(&container, EngineReply::Accepted),
        Ok(EngineCall::Inspect { id: "abc".to_string() })
    );
    assert_eq!(
        MCContainerService::started(&container, EngineReply::State { error: String::new() }),
        Err(MCError::FailedToStartContainer("abc".to_string()))
    );
    assert_eq!(
        MCContainerService::inspected(&container, EngineReply::State { error: String::new() }),
        Ok(())
    );
    assert_eq!(
        MCContainerService::inspected(&container, EngineReply::State { error: " ".to_string() }),
        Err(MCError::ContainerError("abc".to_string(), " ".to_string()))
    );
    assert_eq!(
        MCContainerService::inspected(&container, EngineReply::Accepted),
        Err(MCError::FailedToInspectContainer("abc".to_string()))
    );
}

#[test]
fn starting_twice_follows_the_engine() {
    let engine = Scripted::new(vec![
        EngineReply::Accepted,
        EngineReply::State { error: String::new() },
        EngineReply::Fault(EngineFault {
            code: Some(304),
            message: "container already started".to_string(),
        }),
    ]);
    let service = MCContainerService::new();
    let container = handle("abc");
    assert_eq!(service.start(&container, &|call| engine.answer(call)), Ok(()));
    assert_eq!(
        service.start(&container, &|call| engine.answer(call)),
        Err(MCError::FailedToStartContainer("abc".to_string()))
    );
    assert_eq!(engine.calls().len(), 3);
}

#[test]
fn starting_twice_on_a_lenient_engine_succeeds_twice() {
    let engine = Scripted::new(vec![
        EngineReply::Accepted,
        EngineReply::State { error: String::new() },
        EngineReply::Accepted,
        EngineReply::State { error: String::new() },
    ]);
    let service = MCContainerService::new();
    let container = handle("abc");
    assert_eq!(service.start(&container, &|call| engine.answer(call)), Ok(()));
    assert_eq!(service.start(&container, &|call| engine.answer(call)), Ok(()));
}

#[test]
fn stop_uses_the_engines_grace_period() {
    let engine = Scripted::new(vec![EngineReply::Accepted]);
    let stopped = MCContainerService::new().stop(&handle("abc"), &|call| engine.answer(call));
    assert_eq!(stopped, Ok(()));
    assert_eq!(engine.calls(), vec![EngineCall::Stop { id: "abc".to_string(), wait: None }]);
}

#[test]
fn stop_failure() {
    let engine = Scripted::new(vec![not_found()]);
    let stopped = MCContainerService::new().stop(&handle("abc"), &|call| engine.answer(call));
    assert_eq!(stopped, Err(MCError::FailedToStopContainer("abc".to_string())));
    assert_eq!(
        MCContainerService::stopped(&handle("x"), EngineReply::Output(Vec::new())),
        Err(MCError::FailedToStopContainer("x".to_string()))
    );
}

#[test]
fn run_command_writes_the_line() {
    let engine = Scripted::new(vec![EngineReply::Accepted]);
    let ran = MCContainerService::new().run_command(
        &handle("abc"),
        MCServerCommands::OP("Alice".to_string()),
        &|call| engine.answer(call),
    );
    assert_eq!(ran, Ok(()));
    assert_eq!(
        engine.calls(),
        vec![EngineCall::Attach { id: "abc".to_string(), input: b"/op Alice\n".to_vec() }]
    );
}

#[test]
fn run_command_writes_text_as_utf8() {
    let call = MCContainerService::command_call(
        &handle("abc"),
        &MCServerCommands::OP("Zo\u{eb}".to_string()),
    );
    assert_eq!(
        call,
        EngineCall::Attach {
            id: "abc".to_string(),
            input: vec![b'/', b'o', b'p', b' ', b'Z', b'o', 0xc3, 0xab, b'\n'],
        }
    );
}

#[test]
fn run_command_failure_keeps_the_command() {
    let engine = Scripted::new(vec![EngineReply::Fault(EngineFault {
        code: None,
        message: "broken pipe".to_string(),
    })]);
    let ran = MCContainerService::new().run_command(
        &handle("abc"),
        MCServerCommands::OP("Alice".to_string()),
        &|call| engine.answer(call),
    );
    assert_eq!(
        ran,
        Err(MCError::FailedToRunCommand(
            "abc".to_string(),
            MCServerCommands::OP("Alice".to_string())
        ))
    );
}

#[test]
fn logs_ask_for_both_streams_and_the_tail() {
    let engine = Scripted::new(vec![EngineReply::Output(Vec::new())]);
    let lines = MCContainerService::new().logs(
        &handle("abc"),
        &MCServerLogOptions::default(),
        &|call| engine.answer(call),
    );
    assert_eq!(lines, Ok(Vec::new()));
    assert_eq!(
        engine.calls(),
        vec![EngineCall::Logs {
            id: "abc".to_string(),
            stdout: true,
            stderr: true,
            tail: "20".to_string(),
        }]
    );
}

#[test]
fn logs_return_fewer_lines_as_they_are() {
    let emitted = vec![
        b"[Server] Starting\n".to_vec(),
        b"".to_vec(),
        b"[Server] Done (3.2s)!\n".to_vec(),
    ];
    let engine = Scripted::new(vec![EngineReply::Output(emitted)]);
    let lines = MCContainerService::new().logs(
        &handle("abc"),
        &MCServerLogOptions::default(),
        &|call| engine.answer(call),
    );
    assert_eq!(
        lines,
        Ok(vec![
            "[Server] Starting\n".to_string(),
            String::new(),
            "[Server] Done (3.2s)!\n".to_string(),
        ])
    );
}

#[test]
fn logs_replace_malformed_bytes() {
    let reply = EngineReply::Output(vec![
        vec![b'o', b'k', 0xff, b'!'],
        vec![0xe2, 0x82],
        "Zo\u{eb}".as_bytes().to_vec(),
    ]);
    assert_eq!(
        MCContainerService::logged(reply),
        Ok(vec!["ok\u{fffd}!".to_string(), "\u{fffd}".to_string(), "Zo\u{eb}".to_string()])
    );
}

#[test]
fn logs_failure_says_nothing_more() {
    assert_eq!(MCContainerService::logged(not_found()), Err(()));
    assert_eq!(MCContainerService::logged(EngineReply::Accepted), Err(()));
    let engine = Scripted::new(vec![not_found()]);
    let lines = MCContainerService::new().logs(
        &handle("abc"),
        &MCServerLogOptions::default(),
        &|call| engine.answer(call),
    );
    assert_eq!(lines, Err(()));
}

#[test]
fn rm_is_forced() {
    let engine = Scripted::new(vec![EngineReply::Accepted]);
    let removed = MCContainerService::new().rm(&handle("abc"), &|call| engine.answer(call));
    assert_eq!(removed, Ok(()));
    assert_eq!(engine.calls(), vec![EngineCall::Remove { id: "abc".to_string(), force: true }]);
}

#[test]
fn rm_failure() {
    let engine = Scripted::new(vec![not_found()]);
    let removed = MCContainerService::new().rm(&handle("abc"), &|call| engine.answer(call));
    assert_eq!(removed, Err(MCError::FailedToRMContainer("abc".to_string())));
}

#[test]
fn status_asks_nothing() {
    assert_eq!(MCContainerService::new().status(&handle("abc")), Ok(()));
    assert_eq!(MCContainerService::new().status(&handle("")), Ok(()));
}

#[test]
fn after_removal_every_operation_fails_by_name() {
    let engine = Scripted::new(vec![EngineReply::Accepted]);
    let service = MCContainerService::new();
    let container = handle("abc");
    assert_eq!(service.rm(&container, &|call| engine.answer(call)), Ok(()));
    let id = Some("abc".to_string());
    let name = |r: Result<(), MCError>| r.unwrap_err().container_id().cloned();
    assert_eq!(name(service.start(&container, &|call| engine.answer(call))), id);
    assert_eq!(name(service.stop(&container, &|call| engine.answer(call))), id);
    assert_eq!(
        name(service.run_command(
            &container,
            MCServerCommands::OP("Alice".to_string()),
            &|call| engine.answer(call)
        )),
        id
    );
    assert_eq!(name(service.rm(&container, &|call| engine.answer(call))), id);
    assert_eq!(
        service.logs(&container, &MCServerLogOptions::default(), &|call| engine.answer(call)),
        Err(())
    );
}

#[test]
fn end_to_end() {
    let canned = vec![b"[Server] Alice joined\n".to_vec(), b"[Server] Opped Alice\n".to_vec()];
    let engine = Scripted::new(vec![
        EngineReply::Created { id: "c0ffee".to_string(), warnings: Some(Vec::new()) },
        EngineReply::Accepted,
        EngineReply::State { error: String::new() },
        EngineReply::Accepted,
        EngineReply::Output(canned),
        EngineReply::Accepted,
        EngineReply::Accepted,
    ]);
    let options = MCServerOptionsBuilder::new("test".to_string(), "/data/world".to_string())
        .port(25566)
        .build();
    let h = MCService::new().create(&options, &|call| engine.answer(call)).unwrap();
    assert!(!h.id.is_empty());
    let service = MCContainerService::new();
    assert_eq!(service.start(&h, &|call| engine.answer(call)), Ok(()));
    assert_eq!(
        service.run_command(&h, MCServerCommands::OP("Alice".to_string()), &|call| engine
            .answer(call)),
        Ok(())
    );
    assert_eq!(
        service.logs(&h, &MCServerLogOptions::default(), &|call| engine.answer(call)),
        Ok(vec!["[Server] Alice joined\n".to_string(), "[Server] Opped Alice\n".to_string()])
    );
    assert_eq!(service.stop(&h, &|call| engine.answer(call)), Ok(()));
    assert_eq!(service.rm(&h, &|call| engine.answer(call)), Ok(()));
    let calls = engine.calls();
    assert_eq!(calls.len(), 7);
    assert_eq!(
        calls[3],
        EngineCall::Attach { id: "c0ffee".to_string(), input: b"/op Alice\n".to_vec() }
    );
    assert_eq!(
        calls[4],
        EngineCall::Logs {
            id: "c0ffee".to_string(),
            stdout: true,
            stderr: true,
            tail: "20".to_string()
        }
    );
    assert_eq!(calls[5], EngineCall::Stop { id: "c0ffee".to_string(), wait: None });
    assert_eq!(calls[6], EngineCall::Remove { id: "c0ffee".to_string(), force: true });
}
