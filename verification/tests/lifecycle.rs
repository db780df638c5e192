use k8s_p11_plugin::naming::register_request;
use k8s_p11_plugin::registration::{Registrar, RegistrarAction, RegistrarEvent};
use k8s_p11_plugin::registration::RegistrarEvent::{
    Closed, ConnectFailed, Connected, Message, RegisterFailed, Registered,
};
use k8s_p11_plugin::serving::{is_socket_missing, turn_after, Turn};
use k8s_p11_plugin::state::{AppState, Config, HSMType, ServerCommand};
use k8s_p11_plugin::supervisor::{
    has_stderr_line, start_pkcs11_server, StderrRead, Supervisor, SupervisorAction,
    SupervisorEvent,
};

fn state(name: &str) -> AppState {
    let hsm = HSMType {
        name: name.to_string(),
        tokens: vec!["pkcs11:a".to_string()],
        provider: None,
        max_clients: 1,
    };
    AppState::with_ids(&hsm, "/run", vec![1])
}

fn spawn(name: &str) -> SupervisorAction {
    SupervisorAction::Spawn(ServerCommand {
        program: "/usr/bin/p11-kit".to_string(),
        args: vec![
            "server".to_string(),
            "-f".to_string(),
            "-n".to_string(),
            format!("/run/pkcs11-{}.sock", name),
            "pkcs11:a".to_string(),
        ],
    })
}

fn registrar(names: &[&str]) -> Registrar {
    Registrar::new(&Config {
        hsm_types: names
            .iter()
            .map(|name| HSMType {
                name: name.to_string(),
                tokens: vec![],
                provider: None,
                max_clients: 1,
            })
            .collect(),
        p11_kit_binary: "/usr/bin/p11-kit".to_string(),
    })
}

fn after(names: &[&str], events: &[RegistrarEvent]) -> RegistrarAction {
    let mut registrar = registrar(names);
    for event in events {
        registrar.advance(*event);
    }
    registrar.action()
}

fn register(name: &str) -> RegistrarAction {
    RegistrarAction::Register(register_request(name))
}

#[test]
fn round_registers_each_type_in_order() {
    let names = ["one", "two"];
    assert_eq!(after(&names, &[]), RegistrarAction::Receive);
    assert_eq!(after(&names, &[Message]), RegistrarAction::Connect);
    assert_eq!(after(&names, &[Message, Connected]), register("one"));
    assert_eq!(after(&names, &[Message, Connected, Registered]), register("two"));
    assert_eq!(
        after(&names, &[Message, Connected, Registered, Registered]),
        RegistrarAction::Receive
    );
}

#[test]
fn round_without_types_is_empty() {
    assert_eq!(
        after(&[], &[RegistrarEvent::Message, RegistrarEvent::Connected]),
        RegistrarAction::Receive
    );
}

#[test]
fn refused_registration_ends_the_round() {
    let names = ["one", "two"];
    assert_eq!(after(&names, &[Message, Connected, RegisterFailed]), RegistrarAction::Receive);
    assert_eq!(
        after(&names, &[Message, Connected, RegisterFailed, Message, Connected]),
        register("one")
    );
}

#[test]
fn unreachable_kubelet_ends_the_round_or_everything() {
    let failed = |should_exit| [Message, ConnectFailed { should_exit }];
    assert_eq!(after(&["one"], &failed(false)), RegistrarAction::Receive);
    assert_eq!(after(&["one"], &failed(true)), RegistrarAction::Stop);
}

#[test]
fn registrar_stops_with_the_messages() {
    assert_eq!(after(&["one"], &[Closed]), RegistrarAction::Stop);
    assert_eq!(after(&["one"], &[Closed, Message, Connected]), RegistrarAction::Stop);
    assert_eq!(
        after(&["one"], &[Message, Connected, Registered, Closed]),
        RegistrarAction::Stop
    );
}

#[test]
fn unexpected_event_changes_nothing() {
    assert_eq!(after(&["one"], &[RegistrarEvent::Registered]), RegistrarAction::Receive);
    let mut supervisor = Supervisor::new("/usr/bin/p11-kit", &state("one"));
    supervisor.advance(SupervisorEvent::Slept);
    assert_eq!(supervisor.action(), spawn("one"));
}

#[test]
fn server_is_restarted_after_a_delay() {
    let mut supervisor = Supervisor::new("/usr/bin/p11-kit", &state("one"));
    for event in [
        SupervisorEvent::Exited { success: true },
        SupervisorEvent::Exited { success: false },
        SupervisorEvent::WaitFailed,
    ] {
        assert_eq!(supervisor.action(), spawn("one"));
        supervisor.advance(SupervisorEvent::Spawned);
        assert_eq!(supervisor.action(), SupervisorAction::Wait);
        supervisor.advance(event);
        assert_eq!(supervisor.action(), SupervisorAction::Sleep(5));
        supervisor.advance(SupervisorEvent::Slept);
    }
    assert_eq!(supervisor.action(), spawn("one"));
}

#[test]
fn failed_start_is_tried_again_after_a_delay() {
    let mut supervisor = Supervisor::new("/usr/bin/p11-kit", &state("one"));
    for _ in 0..100 {
        assert_eq!(supervisor.action(), spawn("one"));
        supervisor.advance(SupervisorEvent::SpawnFailed);
        assert_eq!(supervisor.action(), SupervisorAction::Sleep(5));
        supervisor.advance(SupervisorEvent::Slept);
    }
}

#[test]
fn failing_server_leaves_the_others_alone() {
    let mut all = start_pkcs11_server("/usr/bin/p11-kit", &vec![state("one"), state("two")]);
    assert_eq!(all.len(), 2);
    assert_eq!(all[1].action(), spawn("two"));
    for _ in 0..3 {
        assert_eq!(all[0].action(), spawn("one"));
        all[0].advance(SupervisorEvent::SpawnFailed);
        all[0].advance(SupervisorEvent::Slept);
        assert_eq!(all[1].action(), spawn("two"));
    }
    all[1].advance(SupervisorEvent::Spawned);
    all[0].advance(SupervisorEvent::SpawnFailed);
    assert_eq!(all[1].action(), SupervisorAction::Wait);
}

#[test]
fn error_output_is_read_to_its_end() {
    assert!(has_stderr_line(StderrRead::Bytes(1)));
    assert!(!has_stderr_line(StderrRead::Bytes(0)));
    assert!(!has_stderr_line(StderrRead::Failed));
}

#[test]
fn turns_go_round_until_exit() {
    assert_eq!(turn_after(0, 3, false), Turn::Serve(1));
    assert_eq!(turn_after(1, 3, false), Turn::Serve(2));
    assert_eq!(turn_after(2, 3, false), Turn::Serve(0));
    assert_eq!(turn_after(0, 1, false), Turn::Serve(0));
    assert_eq!(turn_after(1, 3, true), Turn::Exit);
}

#[test]
fn missing_socket_is_noticed() {
    assert!(!is_socket_missing(&vec![]));
    assert!(!is_socket_missing(&vec![true, true]));
    assert!(is_socket_missing(&vec![true, false]));
}
