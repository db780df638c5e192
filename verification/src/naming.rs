//! The names that the plugin goes by: resources, sockets and device files.

use vstd::prelude::*;

use crate::messages::RegisterRequest;
use crate::messages::RegisterRequestView;

verus! {

/// The directory in which the kubelet and its plugins keep their sockets.
pub open spec fn plugin_directory_view() -> Seq<char> {
    "/var/lib/kubelet/device-plugins/"@
}

/// The file name of the plugin's own socket for the HSM type `name`.
pub open spec fn endpoint_view(name: Seq<char>) -> Seq<char> {
    "as207960-hsm-plugin-"@ + name + ".sock"@
}

/// The path of the plugin's own socket for the HSM type `name`.
pub open spec fn plugin_socket_view(name: Seq<char>) -> Seq<char> {
    "/var/lib/kubelet/device-plugins/as207960-hsm-plugin-"@ + name + ".sock"@
}

/// The resource that Kubernetes knows the HSM type `name` by.
pub open spec fn resource_name_view(name: Seq<char>) -> Seq<char> {
    "hsm.as207960.net/"@ + name
}

/// The device file inside a pod that leads to the HSM type `name`.
pub open spec fn container_path_view(name: Seq<char>) -> Seq<char> {
    "/dev/pkcs11-"@ + name
}

/// The address by which `p11-kit` inside a pod reaches the HSM type `name`.
pub open spec fn server_address_view(name: Seq<char>) -> Seq<char> {
    "unix:path="@ + container_path_view(name)
}

/// The file `file` in the directory `dir`, where `file` is a relative path: a slash goes between
/// them unless `dir` is empty or ends in one.
pub open spec fn joined(dir: Seq<char>, file: Seq<char>) -> Seq<char> {
    if dir.len() > 0 && dir.last() != '/' {
        dir + seq!['/'] + file
    } else {
        dir + file
    }
}

/// The path of the PKCS#11 server's socket for the HSM type `name`.
pub open spec fn p11_socket_view(runtime_dir: Seq<char>, name: Seq<char>) -> Seq<char> {
    joined(runtime_dir, "pkcs11-"@ + name + ".sock"@)
}

/// The request that introduces the plugin for the HSM type `name` to the kubelet.
pub open spec fn register_request_view(name: Seq<char>) -> RegisterRequestView {
    RegisterRequestView {
        version: "v1beta1"@,
        endpoint: endpoint_view(name),
        resource_name: resource_name_view(name),
        options: None,
    }
}

/// The path of the socket on which the kubelet takes registrations.
pub fn kubelet_socket() -> (r: &'static str)
    ensures
        r@ == "/var/lib/kubelet/device-plugins/kubelet.sock"@,
        r@ == plugin_directory_view() + "kubelet.sock"@,
{
    proof {
        reveal_strlit("/var/lib/kubelet/device-plugins/kubelet.sock");
        reveal_strlit("/var/lib/kubelet/device-plugins/");
        reveal_strlit("kubelet.sock");
        assert("/var/lib/kubelet/device-plugins/kubelet.sock"@ =~= plugin_directory_view()
            + "kubelet.sock"@);
    }
    "/var/lib/kubelet/device-plugins/kubelet.sock"
}

/// The file name of the plugin's own socket for the HSM type `name`.
pub fn endpoint(name: &str) -> (r: String)
    ensures
        r@ == endpoint_view(name@),
        r@ == "as207960-hsm-plugin-"@ + name@ + ".sock"@,
{
    "as207960-hsm-plugin-".to_owned().concat(name).concat(".sock")
}

/// The path of the plugin's own socket for the HSM type `name`.
pub fn plugin_socket(name: &str) -> (r: String)
    ensures
        r@ == plugin_socket_view(name@),
        r@ == "/var/lib/kubelet/device-plugins/as207960-hsm-plugin-"@ + name@ + ".sock"@,
{
    "/var/lib/kubelet/device-plugins/as207960-hsm-plugin-".to_owned().concat(name).concat(".sock")
}

/// The resource that Kubernetes knows the HSM type `name` by.
pub fn resource_name(name: &str) -> (r: String)
    ensures
        r@ == resource_name_view(name@),
        r@ == "hsm.as207960.net/"@ + name@,
{
    "hsm.as207960.net/".to_owned().concat(name)
}

/// The device file inside a pod that leads to the HSM type `name`.
pub fn container_path(name: &str) -> (r: String)
    ensures
        r@ == container_path_view(name@),
        r@ == "/dev/pkcs11-"@ + name@,
{
    "/dev/pkcs11-".to_owned().concat(name)
}

/// The address by which `p11-kit` inside a pod reaches the HSM type `name`.
pub fn server_address(name: &str) -> (r: String)
    ensures
        r@ == server_address_view(name@),
        r@ == "unix:path=/dev/pkcs11-"@ + name@,
{
    proof {
        names_have_these_forms(name@);
    }
    let path = container_path(name);
    "unix:path=".to_owned().concat(path.as_str())
}

/// The path of the PKCS#11 server's socket for the HSM type `name`.
pub fn p11_socket(runtime_dir: &str, name: &str) -> (r: String)
    ensures
        r@ == p11_socket_view(runtime_dir@, name@),
        runtime_dir@.len() > 0 && runtime_dir@.last() != '/' ==> r@ == runtime_dir@ + "/pkcs11-"@
            + name@ + ".sock"@,
        runtime_dir@.len() == 0 || runtime_dir@.last() == '/' ==> r@ == runtime_dir@ + "pkcs11-"@
            + name@ + ".sock"@,
{
    proof {
        server_socket_lies_in_runtime_directory(runtime_dir@, name@);
    }
    let file = "pkcs11-".to_owned().concat(name).concat(".sock");
    let n: usize = runtime_dir.unicode_len();
    if n > 0 && runtime_dir.get_char(n - 1) != '/' {
        proof {
            reveal_strlit("/");
            assert("/"@ =~= seq!['/']);
        }
        runtime_dir.to_owned().concat("/").concat(file.as_str())
    } else {
        runtime_dir.to_owned().concat(file.as_str())
    }
}

/// The request that introduces the plugin for the HSM type `name` to the kubelet.
pub fn register_request(name: &str) -> (r: RegisterRequest)
    ensures
        r.deep_view() == register_request_view(name@),
        r.version@ == "v1beta1"@,
        r.endpoint@ == "as207960-hsm-plugin-"@ + name@ + ".sock"@,
        r.resource_name@ == "hsm.as207960.net/"@ + name@,
        r.options is None,
{
    RegisterRequest {
        version: "v1beta1".to_owned(),
        endpoint: endpoint(name),
        resource_name: resource_name(name),
        options: None,
    }
}

/// The kubelet finds the plugin: the socket that the plugin binds for an HSM type is the
/// registered endpoint, taken in the kubelet's plugin directory.
pub proof fn registered_endpoint_is_bound_socket(name: Seq<char>)
    ensures
        plugin_directory_view() + register_request_view(name).endpoint == plugin_socket_view(name),
{
    reveal_strlit("/var/lib/kubelet/device-plugins/");
    reveal_strlit("as207960-hsm-plugin-");
    reveal_strlit("/var/lib/kubelet/device-plugins/as207960-hsm-plugin-");
    assert(plugin_directory_view() + endpoint_view(name) =~= plugin_socket_view(name));
}

/// No two HSM types share a resource, a plugin socket, a PKCS#11 socket or a device file, unless
/// they share the name.
pub proof fn names_do_not_collide(runtime_dir: Seq<char>, a: Seq<char>, b: Seq<char>)
    requires
        a != b,
    ensures
        resource_name_view(a) != resource_name_view(b),
        endpoint_view(a) != endpoint_view(b),
        plugin_socket_view(a) != plugin_socket_view(b),
        p11_socket_view(runtime_dir, a) != p11_socket_view(runtime_dir, b),
        container_path_view(a) != container_path_view(b),
        server_address_view(a) != server_address_view(b),
{
    let none = Seq::<char>::empty();
    lemma_framed_differ("hsm.as207960.net/"@, none, a, b);
    lemma_framed_differ("as207960-hsm-plugin-"@, ".sock"@, a, b);
    lemma_framed_differ("/var/lib/kubelet/device-plugins/as207960-hsm-plugin-"@, ".sock"@, a, b);
    let (fa, fb) = ("pkcs11-"@ + a + ".sock"@, "pkcs11-"@ + b + ".sock"@);
    lemma_framed_differ("pkcs11-"@, ".sock"@, a, b);
    lemma_framed_differ(runtime_dir, none, fa, fb);
    lemma_framed_differ(runtime_dir + seq!['/'], none, fa, fb);
    lemma_framed_differ("/dev/pkcs11-"@, none, a, b);
    lemma_framed_differ("unix:path="@, none, container_path_view(a), container_path_view(b));
}

proof fn lemma_framed_differ(before: Seq<char>, after: Seq<char>, a: Seq<char>, b: Seq<char>)
    requires
        a != b,
    ensures
        before + a + after != before + b + after,
        before + a != before + b,
{
    let (n, m) = (before.len() as int, (before.len() + a.len()) as int);
    assert((before + a).subrange(n, m) =~= a);
    assert((before + a + after).subrange(n, m) =~= a);
    if a.len() == b.len() {
        assert((before + b).subrange(n, m) =~= b);
        assert((before + b + after).subrange(n, m) =~= b);
    } else {
        assert((before + a).len() != (before + b).len());
        assert((before + a + after).len() != (before + b + after).len());
    }
}

/// What the kubelet is told of an HSM type: the version of the protocol, the file name of the
/// plugin's socket and the resource, both made from the type's name, and no options.
pub proof fn registration_introduces_type_by_its_name(name: Seq<char>)
    ensures
        register_request_view(name).version == "v1beta1"@,
        register_request_view(name).endpoint == "as207960-hsm-plugin-"@ + name + ".sock"@,
        register_request_view(name).resource_name == "hsm.as207960.net/"@ + name,
        register_request_view(name).options is None,
{
}

/// The name can be read off a registration: what follows the domain in the resource is the name,
/// and so is what stands between the fixed parts of the endpoint.
pub proof fn name_is_read_off_registration(name: Seq<char>)
    ensures
        ({
            let request = register_request_view(name);
            let n = name.len() as int;
            &&& request.resource_name.len() == 17 + n
            &&& request.resource_name.skip(17) == name
            &&& request.endpoint.len() == 25 + n
            &&& request.endpoint.subrange(20, 20 + n) == name
        }),
{
    reveal_strlit("hsm.as207960.net/");
    reveal_strlit("as207960-hsm-plugin-");
    reveal_strlit(".sock");
    let request = register_request_view(name);
    let n = name.len() as int;
    assert(request.resource_name.skip(17) =~= name);
    assert(request.endpoint.subrange(20, 20 + n) =~= name);
}

/// What the names of an HSM type look like, whatever its own name.
pub proof fn names_have_these_forms(name: Seq<char>)
    ensures
        endpoint_view(name) == "as207960-hsm-plugin-"@ + name + ".sock"@,
        plugin_socket_view(name) == "/var/lib/kubelet/device-plugins/as207960-hsm-plugin-"@ + name
            + ".sock"@,
        resource_name_view(name) == "hsm.as207960.net/"@ + name,
        container_path_view(name) == "/dev/pkcs11-"@ + name,
        server_address_view(name) == "unix:path=/dev/pkcs11-"@ + name,
{
    reveal_strlit("unix:path=");
    reveal_strlit("/dev/pkcs11-");
    reveal_strlit("unix:path=/dev/pkcs11-");
    assert(server_address_view(name) =~= "unix:path=/dev/pkcs11-"@ + name);
}

/// The PKCS#11 server's socket lies in the runtime directory, under a name made from that of the
/// HSM type, with exactly the slash between that is wanting.
pub proof fn server_socket_lies_in_runtime_directory(runtime_dir: Seq<char>, name: Seq<char>)
    ensures
        runtime_dir.len() > 0 && runtime_dir.last() != '/' ==> p11_socket_view(runtime_dir, name)
            == runtime_dir + "/pkcs11-"@ + name + ".sock"@,
        runtime_dir.len() == 0 || runtime_dir.last() == '/' ==> p11_socket_view(runtime_dir, name)
            == runtime_dir + "pkcs11-"@ + name + ".sock"@,
{
    reveal_strlit("pkcs11-");
    reveal_strlit("/pkcs11-");
    let path = p11_socket_view(runtime_dir, name);
    if runtime_dir.len() > 0 && runtime_dir.last() != '/' {
        assert(path =~= runtime_dir + "/pkcs11-"@ + name + ".sock"@);
    } else {
        assert(path =~= runtime_dir + "pkcs11-"@ + name + ".sock"@);
    }
}

} // verus!
