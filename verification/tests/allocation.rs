use k8s_p11_plugin::device_id::UuidSource;
use k8s_p11_plugin::messages::{
    AllocateRequest, Code, ContainerAllocateRequest, ContainerAllocateResponse, Device,
    DevicePluginOptions, DeviceSpec, Status,
};
use k8s_p11_plugin::plugin::DevicePlugin;
use k8s_p11_plugin::state::{AppState, HSMType};
use k8s_p11_plugin::watch::WatchPoll;

const FIRST: u128 = 0x67e5504410b1426f9247bb680e5fe0c8;
const SECOND: u128 = 0x550e8400e29b41d4a716446655440000;
const FIRST_TEXT: &str = "67e55044-10b1-426f-9247-bb680e5fe0c8";
const SECOND_TEXT: &str = "550e8400-e29b-41d4-a716-446655440000";
const STRANGER_TEXT: &str = "f9168c5e-ceb2-4faa-b6bf-329bf39fa1e4";

fn hsm_type(max_clients: u32) -> HSMType {
    HSMType {
        name: "test".to_string(),
        tokens: vec!["pkcs11:model=YubiKey%20YK5".to_string()],
        provider: Some("/usr/lib/x86_64-linux-gnu/libykcs11.so".to_string()),
        max_clients,
    }
}

fn plugin() -> DevicePlugin {
    DevicePlugin { state: AppState::with_ids(&hsm_type(2), "/run/p11", vec![FIRST, SECOND]) }
}

fn request(containers: &[&[&str]]) -> AllocateRequest {
    AllocateRequest {
        container_requests: containers
            .iter()
            .map(|devices| ContainerAllocateRequest {
                devices_ids: devices.iter().map(|d| d.to_string()).collect(),
            })
            .collect(),
    }
}

fn granted() -> ContainerAllocateResponse {
    ContainerAllocateResponse {
        envs: vec![(
            "P11_KIT_SERVER_ADDRESS".to_string(),
            "unix:path=/dev/pkcs11-test".to_string(),
        )],
        mounts: vec![],
        annotations: vec![],
        devices: vec![DeviceSpec {
            container_path: "/dev/pkcs11-test".to_string(),
            host_path: "/run/p11/pkcs11-test.sock".to_string(),
            permissions: "rw".to_string(),
        }],
    }
}

fn responses(containers: &[&[&str]]) -> Vec<ContainerAllocateResponse> {
    plugin().allocate(request(containers)).expect("granted").container_responses
}

fn refused(containers: &[&[&str]]) -> Status {
    plugin().allocate(request(containers)).expect_err("refused")
}

fn unknown() -> Status {
    Status { code: Code::NotFound, message: "Unknown device ID".to_string() }
}

#[test]
fn known_device_is_granted() {
    assert_eq!(responses(&[&[FIRST_TEXT]]), vec![granted()]);
}

#[test]
fn number_of_devices_makes_no_difference() {
    assert_eq!(
        responses(&[&[FIRST_TEXT, SECOND_TEXT], &[], &[SECOND_TEXT, SECOND_TEXT]]),
        vec![granted(), granted(), granted()]
    );
}

#[test]
fn empty_request_gets_empty_response() {
    assert_eq!(responses(&[]), vec![]);
}

#[test]
fn every_way_to_write_an_id_is_understood() {
    assert_eq!(
        responses(&[&[
            "67e5504410b1426f9247bb680e5fe0c8",
            "67E55044-10B1-426F-9247-BB680E5FE0C8",
            "{67e55044-10b1-426f-9247-bb680e5fe0c8}",
            "urn:uuid:67e55044-10b1-426f-9247-bb680e5fe0c8",
            "URN:UUID:67e55044-10b1-426f-9247-bb680e5fe0c8",
        ]]),
        vec![granted()]
    );
}

#[test]
fn unknown_device_is_not_found() {
    assert_eq!(refused(&[&[STRANGER_TEXT]]), unknown());
}

#[test]
fn malformed_id_is_an_invalid_argument() {
    for text in ["", "{}", "!", "not-a-uuid", "67e55044-10b1-426f-9247-bb680e5fe0c", "é"] {
        let status = refused(&[&[text]]);
        assert_eq!(status.code, Code::InvalidArgument);
        assert_eq!(status.message, uuid::Uuid::parse_str(text).unwrap_err().to_string());
    }
    assert_eq!(refused(&[&[""]]).message, "invalid length: found 0");
    assert_eq!(refused(&[&["!"]]).message, "invalid character: found `!` at 0");
}

#[test]
fn first_bad_device_decides() {
    assert_eq!(refused(&[&[FIRST_TEXT], &[SECOND_TEXT, STRANGER_TEXT, "!"], &["?"]]), unknown());
    assert_eq!(
        refused(&[&[FIRST_TEXT, "!"], &[STRANGER_TEXT]]).message,
        "invalid character: found `!` at 0"
    );
}

#[test]
fn parsed_id_is_looked_up() {
    assert_eq!(plugin().check_device(Ok(FIRST)), Ok(()));
    assert_eq!(plugin().check_device(Ok(SECOND)), Ok(()));
    assert_eq!(plugin().check_device(Ok(FIRST + 1)), Err(unknown()));
    assert_eq!(
        plugin().check_device(Err("why".to_string())),
        Err(Status { code: Code::InvalidArgument, message: "why".to_string() })
    );
    assert!(plugin().has_device(SECOND));
    assert!(!plugin().has_device(0));
}

#[test]
fn devices_are_listed_once_and_healthy() {
    let mut stream = plugin().list_and_watch();
    match stream.poll_next(true) {
        WatchPoll::Ready(response) => assert_eq!(
            response.devices,
            vec![
                Device {
                    id: FIRST_TEXT.to_string(),
                    health: "Healthy".to_string(),
                    topology: None
                },
                Device {
                    id: SECOND_TEXT.to_string(),
                    health: "Healthy".to_string(),
                    topology: None
                },
            ]
        ),
        other => panic!("{:?}", other),
    }
    assert_eq!(stream.poll_next(false), WatchPoll::Pending);
    assert_eq!(stream.poll_next(false), WatchPoll::Pending);
    assert_eq!(stream.poll_next(true), WatchPoll::Ended);
    assert_eq!(stream.poll_next(false), WatchPoll::Pending);
}

#[test]
fn listed_devices_are_granted() {
    let state = AppState::from_config(&hsm_type(10), "/run/p11", &mut UuidSource::new());
    let plugin = DevicePlugin { state };
    let devices = match plugin.list_and_watch().poll_next(false) {
        WatchPoll::Ready(response) => response.devices,
        other => panic!("{:?}", other),
    };
    assert_eq!(devices.len(), 10);
    let ids: Vec<String> = devices.into_iter().map(|d| d.id).collect();
    let request = AllocateRequest {
        container_requests: vec![ContainerAllocateRequest { devices_ids: ids }],
    };
    assert_eq!(plugin.allocate(request).unwrap().container_responses, vec![granted()]);
}

#[test]
fn new_ids_are_random_uuids() {
    let mut source = UuidSource::new();
    let state = AppState::from_config(&hsm_type(20), "/run/p11", &mut source);
    assert_eq!(state.ids.len(), 20);
    for id in &state.ids {
        assert_eq!(uuid::Uuid::from_u128(*id).get_version_num(), 4);
        assert_eq!(uuid::Uuid::from_u128(*id).get_variant(), uuid::Variant::RFC4122);
    }
    assert!(AppState::from_config(&hsm_type(0), "/run/p11", &mut source).ids.is_empty());
}

#[test]
fn each_client_has_a_draw_of_its_own() {
    let mut source = UuidSource::new();
    let first = AppState::from_config(&hsm_type(50), "/run/p11", &mut source).ids;
    let second = AppState::from_config(&hsm_type(50), "/run/p11", &mut source).ids;
    let all: std::collections::HashSet<u128> = first.iter().chain(&second).copied().collect();
    assert_eq!(all.len(), 100);
}

#[test]
fn device_of_another_type_is_not_found() {
    let mut source = UuidSource::new();
    let ours = DevicePlugin { state: AppState::from_config(&hsm_type(3), "/run", &mut source) };
    let theirs = DevicePlugin { state: AppState::from_config(&hsm_type(3), "/run", &mut source) };
    let devices = match theirs.list_and_watch().poll_next(false) {
        WatchPoll::Ready(response) => response.devices,
        other => panic!("{:?}", other),
    };
    for device in devices {
        assert_eq!(ours.allocate(request(&[&[device.id.as_str()]])), Err(unknown()));
    }
}

#[test]
fn optional_calls_are_not_offered() {
    assert_eq!(
        plugin().get_device_plugin_options(),
        DevicePluginOptions {
            pre_start_required: false,
            get_preferred_allocation_available: false
        }
    );
    let status = Status { code: Code::Unimplemented, message: "".to_string() };
    assert_eq!(plugin().get_preferred_allocation(), status);
    assert_eq!(plugin().pre_start_container(), status);
}
