use k8s_p11_plugin::messages::RegisterRequest;
use k8s_p11_plugin::naming;
use k8s_p11_plugin::state::{AppState, Config, HSMType};
use k8s_p11_plugin::uds::UnixStream;

fn hsm_type(name: &str, provider: Option<&str>, tokens: &[&str]) -> HSMType {
    HSMType {
        name: name.to_string(),
        tokens: tokens.iter().map(|t| t.to_string()).collect(),
        provider: provider.map(|p| p.to_string()),
        max_clients: 1,
    }
}

#[test]
fn registration_names_resource_and_endpoint() {
    assert_eq!(
        naming::register_request("test"),
        RegisterRequest {
            version: "v1beta1".to_string(),
            endpoint: "as207960-hsm-plugin-test.sock".to_string(),
            resource_name: "hsm.as207960.net/test".to_string(),
            options: None,
        }
    );
}

#[test]
fn endpoint_is_the_bound_socket() {
    let directory = std::path::Path::new(naming::kubelet_socket()).parent().unwrap();
    assert_eq!(
        directory.join(naming::endpoint("test")).to_str().unwrap(),
        naming::plugin_socket("test")
    );
}

#[test]
fn kubelet_socket_is_in_the_plugin_directory() {
    assert_eq!(naming::kubelet_socket(), "/var/lib/kubelet/device-plugins/kubelet.sock");
}

#[test]
fn server_socket_is_joined_as_paths_are() {
    for dir in ["/run/p11", "/run/p11/", "", "/", "run", "//", "/ü", "a/b/"] {
        for name in ["test", "", "a/b", "ß"] {
            let joined = std::path::PathBuf::from(dir).join(format!("pkcs11-{}.sock", name));
            assert_eq!(naming::p11_socket(dir, name), joined.to_string_lossy());
        }
    }
    assert_eq!(naming::p11_socket("/run/p11", "test"), "/run/p11/pkcs11-test.sock");
}

#[test]
fn pods_find_the_server_at_the_device_file() {
    assert_eq!(naming::container_path("test"), "/dev/pkcs11-test");
    assert_eq!(naming::server_address("test"), "unix:path=/dev/pkcs11-test");
}

#[test]
fn different_names_do_not_collide() {
    assert_ne!(naming::plugin_socket("a"), naming::plugin_socket("b"));
    assert_ne!(naming::p11_socket("/run", "a"), naming::p11_socket("/run", "a.sock"));
    assert_ne!(naming::resource_name("a"), naming::resource_name("aa"));
}

#[test]
fn sockets_follow_the_configuration() {
    let config = Config {
        hsm_types: vec![hsm_type("one", None, &[]), hsm_type("two", None, &[])],
        p11_kit_binary: "/usr/bin/p11-kit".to_string(),
    };
    assert_eq!(
        config.plugin_sockets(),
        vec![
            "/var/lib/kubelet/device-plugins/as207960-hsm-plugin-one.sock".to_string(),
            "/var/lib/kubelet/device-plugins/as207960-hsm-plugin-two.sock".to_string(),
        ]
    );
}

#[test]
fn server_arguments_with_provider() {
    let hsm = hsm_type("test", Some("/lib/p.so"), &["pkcs11:a", "pkcs11:b"]);
    let state = AppState::with_ids(&hsm, "/run/p11", vec![]);
    assert_eq!(
        state.server_args(),
        ["server", "-f", "-n", "/run/p11/pkcs11-test.sock", "-p", "/lib/p.so", "pkcs11:a", "pkcs11:b"]
    );
}

#[test]
fn server_arguments_without_provider() {
    let state = AppState::with_ids(&hsm_type("test", None, &["pkcs11:a"]), "/run/p11", vec![]);
    assert_eq!(
        state.server_args(),
        ["server", "-f", "-n", "/run/p11/pkcs11-test.sock", "pkcs11:a"]
    );
}

#[test]
fn server_command_is_the_configured_binary() {
    let state = AppState::with_ids(&hsm_type("test", None, &["pkcs11:a"]), "/run/p11", vec![]);
    let command = state.server_command("/opt/bin/p11-kit");
    assert_eq!(command.program, "/opt/bin/p11-kit");
    assert_eq!(command.args, state.server_args());
}

#[test]
fn state_keeps_the_configuration() {
    let state = AppState::with_ids(&hsm_type("test", Some("p"), &["t"]), "/run", vec![7, 9]);
    assert_eq!(state.name, "test");
    assert_eq!(state.tokens, vec!["t".to_string()]);
    assert_eq!(state.provider, Some("p".to_string()));
    assert_eq!(state.p11_sock_path, "/run/pkcs11-test.sock");
    assert_eq!(state.ids, vec![7, 9]);
}

#[test]
fn connector_keeps_the_path() {
    assert_eq!(UnixStream::connect("/run/a.sock").path(), "/run/a.sock");
}
