//! The messages of the device plugin protocol (`v1beta1`), and their mathematical views.
//!
//! A view replaces each string by its characters and each vector by a sequence.

use vstd::prelude::*;

verus! {

/// The kinds of refusal that the plugin answers with.
#[derive(Clone, Copy, Debug, PartialEq, Eq, Structural)]
pub enum Code {
    InvalidArgument,
    NotFound,
    Unimplemented,
}

/// A refused request: the kind of refusal and what it says.
#[derive(Debug, PartialEq, Eq)]
pub struct Status {
    pub code: Code,
    pub message: String,
}

#[verifier::ext_equal]
pub struct StatusView {
    pub code: Code,
    pub message: Seq<char>,
}

impl DeepView for Status {
    type V = StatusView;

    open spec fn deep_view(&self) -> StatusView {
        StatusView { code: self.code, message: self.message@ }
    }
}

impl Status {
    /// A refusal for a request that makes no sense.
    pub fn invalid_argument(message: String) -> (r: Status)
        ensures
            r.code == Code::InvalidArgument,
            r.message == message,
    {
        Status { code: Code::InvalidArgument, message }
    }

    /// A refusal for a request that names something unknown.
    pub fn not_found(message: &str) -> (r: Status)
        ensures
            r.deep_view() == (StatusView { code: Code::NotFound, message: message@ }),
    {
        Status { code: Code::NotFound, message: message.to_owned() }
    }

    /// A refusal for a request that the plugin does not offer.
    pub fn unimplemented(message: &str) -> (r: Status)
        ensures
            r.deep_view() == (StatusView { code: Code::Unimplemented, message: message@ }),
    {
        Status { code: Code::Unimplemented, message: message.to_owned() }
    }
}

/// What the plugin asks of the kubelet beyond the mandatory calls.
#[derive(Clone, Copy, Debug, PartialEq, Eq)]
pub struct DevicePluginOptions {
    pub pre_start_required: bool,
    pub get_preferred_allocation_available: bool,
}

/// The plugin's introduction of itself to the kubelet.
#[derive(Debug, PartialEq, Eq)]
pub struct RegisterRequest {
    pub version: String,
    pub endpoint: String,
    pub resource_name: String,
    pub options: Option<DevicePluginOptions>,
}

#[verifier::ext_equal]
pub struct RegisterRequestView {
    pub version: Seq<char>,
    pub endpoint: Seq<char>,
    pub resource_name: Seq<char>,
    pub options: Option<DevicePluginOptions>,
}

impl DeepView for RegisterRequest {
    type V = RegisterRequestView;

    open spec fn deep_view(&self) -> RegisterRequestView {
        RegisterRequestView {
            version: self.version@,
            endpoint: self.endpoint@,
            resource_name: self.resource_name@,
            options: self.options,
        }
    }
}

/// The NUMA nodes that a device is close to.
#[derive(Debug, PartialEq, Eq)]
pub struct TopologyInfo {
    pub nodes: Vec<i64>,
}

impl DeepView for TopologyInfo {
    type V = Seq<i64>;

    open spec fn deep_view(&self) -> Seq<i64> {
        self.nodes@
    }
}

impl Clone for TopologyInfo {
    fn clone(&self) -> (r: Self)
        ensures
            r.deep_view() == self.deep_view(),
    {
        let nodes = self.nodes.clone();
        assert(nodes@ =~= self.nodes@);
        TopologyInfo { nodes }
    }
}

/// One device that the kubelet may give to a container.
#[derive(Debug, PartialEq, Eq)]
pub struct Device {
    pub id: String,
    pub health: String,
    pub topology: Option<TopologyInfo>,
}

#[verifier::ext_equal]
pub struct DeviceView {
    pub id: Seq<char>,
    pub health: Seq<char>,
    pub topology: Option<Seq<i64>>,
}

impl DeepView for Device {
    type V = DeviceView;

    open spec fn deep_view(&self) -> DeviceView {
        DeviceView {
            id: self.id@,
            health: self.health@,
            topology: self.topology.deep_view(),
        }
    }
}

impl Clone for Device {
    fn clone(&self) -> (r: Self)
        ensures
            r.deep_view() == self.deep_view(),
    {
        let topology = match &self.topology {
            Some(t) => Some(t.clone()),
            None => None,
        };
        Device { id: self.id.clone(), health: self.health.clone(), topology }
    }
}

/// The devices that the plugin has to offer.
#[derive(Debug, PartialEq, Eq)]
pub struct ListAndWatchResponse {
    pub devices: Vec<Device>,
}

impl DeepView for ListAndWatchResponse {
    type V = Seq<DeviceView>;

    open spec fn deep_view(&self) -> Seq<DeviceView> {
        self.devices.deep_view()
    }
}

/// The devices that one container is to be given.
#[derive(Debug, PartialEq, Eq)]
pub struct ContainerAllocateRequest {
    pub devices_ids: Vec<String>,
}

impl DeepView for ContainerAllocateRequest {
    type V = Seq<Seq<char>>;

    open spec fn deep_view(&self) -> Seq<Seq<char>> {
        self.devices_ids.deep_view()
    }
}

/// A request to prepare the containers of a pod.
#[derive(Debug, PartialEq, Eq)]
pub struct AllocateRequest {
    pub container_requests: Vec<ContainerAllocateRequest>,
}

impl DeepView for AllocateRequest {
    type V = Seq<Seq<Seq<char>>>;

    open spec fn deep_view(&self) -> Seq<Seq<Seq<char>>> {
        self.container_requests.deep_view()
    }
}

/// A file or directory of the host to be mounted in a container.
#[derive(Debug, PartialEq, Eq)]
pub struct Mount {
    pub container_path: String,
    pub host_path: String,
    pub read_only: bool,
}

#[verifier::ext_equal]
pub struct MountView {
    pub container_path: Seq<char>,
    pub host_path: Seq<char>,
    pub read_only: bool,
}

impl DeepView for Mount {
    type V = MountView;

    open spec fn deep_view(&self) -> MountView {
        MountView {
            container_path: self.container_path@,
            host_path: self.host_path@,
            read_only: self.read_only,
        }
    }
}

/// A device file of the host to be made available in a container.
#[derive(Debug, PartialEq, Eq)]
pub struct DeviceSpec {
    pub container_path: String,
    pub host_path: String,
    pub permissions: String,
}

#[verifier::ext_equal]
pub struct DeviceSpecView {
    pub container_path: Seq<char>,
    pub host_path: Seq<char>,
    pub permissions: Seq<char>,
}

impl DeepView for DeviceSpec {
    type V = DeviceSpecView;

    open spec fn deep_view(&self) -> DeviceSpecView {
        DeviceSpecView {
            container_path: self.container_path@,
            host_path: self.host_path@,
            permissions: self.permissions@,
        }
    }
}

/// How one container is to be prepared.  `envs` and `annotations` pair keys with values; no key
/// occurs twice in either.
#[derive(Debug, PartialEq, Eq)]
pub struct ContainerAllocateResponse {
    pub envs: Vec<(String, String)>,
    pub mounts: Vec<Mount>,
    pub annotations: Vec<(String, String)>,
    pub devices: Vec<DeviceSpec>,
}

#[verifier::ext_equal]
pub struct ContainerAllocateResponseView {
    pub envs: Seq<(Seq<char>, Seq<char>)>,
    pub mounts: Seq<MountView>,
    pub annotations: Seq<(Seq<char>, Seq<char>)>,
    pub devices: Seq<DeviceSpecView>,
}

impl DeepView for ContainerAllocateResponse {
    type V = ContainerAllocateResponseView;

    open spec fn deep_view(&self) -> ContainerAllocateResponseView {
        ContainerAllocateResponseView {
            envs: self.envs.deep_view(),
            mounts: self.mounts.deep_view(),
            annotations: self.annotations.deep_view(),
            devices: self.devices.deep_view(),
        }
    }
}

/// No key occurs twice.
pub open spec fn keys_are_distinct(pairs: Seq<(Seq<char>, Seq<char>)>) -> bool {
    forall|i: int, j: int| 0 <= i < j < pairs.len() ==> pairs[i].0 != pairs[j].0
}

impl ContainerAllocateResponseView {
    /// Both lists of pairs are maps.
    pub open spec fn well_formed(self) -> bool {
        keys_are_distinct(self.envs) && keys_are_distinct(self.annotations)
    }
}

/// How the containers of a pod are to be prepared, in the order of the request.
#[derive(Debug, PartialEq, Eq)]
pub struct AllocateResponse {
    pub container_responses: Vec<ContainerAllocateResponse>,
}

impl DeepView for AllocateResponse {
    type V = Seq<ContainerAllocateResponseView>;

    open spec fn deep_view(&self) -> Seq<ContainerAllocateResponseView> {
        self.container_responses.deep_view()
    }
}

/// The views of what the plugin sends show every field as it is.
pub proof fn views_of_answers_are_faithful(
    status: Status,
    device: Device,
    list: ListAndWatchResponse,
    mount: Mount,
    file: DeviceSpec,
    container: ContainerAllocateResponse,
    answer: AllocateResponse,
    register: RegisterRequest,
)
    ensures
        status.deep_view().code == status.code && status.deep_view().message == status.message@,
        device.deep_view().id == device.id@ && device.deep_view().health == device.health@,
        device.deep_view().topology is None <==> device.topology is None,
        device.topology matches Some(t) ==> device.deep_view().topology == Some(t.nodes@),
        list.deep_view() == list.devices.deep_view(),
        mount.deep_view().container_path == mount.container_path@,
        mount.deep_view().host_path == mount.host_path@,
        mount.deep_view().read_only == mount.read_only,
        file.deep_view().container_path == file.container_path@,
        file.deep_view().host_path == file.host_path@,
        file.deep_view().permissions == file.permissions@,
        container.deep_view().envs == container.envs.deep_view(),
        container.deep_view().mounts == container.mounts.deep_view(),
        container.deep_view().annotations == container.annotations.deep_view(),
        container.deep_view().devices == container.devices.deep_view(),
        answer.deep_view() == answer.container_responses.deep_view(),
        register.deep_view().version == register.version@,
        register.deep_view().endpoint == register.endpoint@,
        register.deep_view().resource_name == register.resource_name@,
        register.deep_view().options == register.options,
{
}

/// The view of a request for devices shows each text of each container.
pub proof fn view_of_request_is_faithful(request: AllocateRequest)
    ensures
        request.deep_view().len() == request.container_requests@.len(),
        forall|c: int|
            0 <= c < request.deep_view().len() ==> #[trigger] request.deep_view()[c].len()
                == request.container_requests@[c].devices_ids@.len(),
        forall|c: int, d: int|
            0 <= c < request.deep_view().len() && 0 <= d < request.deep_view()[c].len()
                ==> #[trigger] request.deep_view()[c][d]
                == request.container_requests@[c].devices_ids@[d]@,
{
}

} // verus!
