//! The answers of the device plugin to the kubelet's calls.

use vstd::prelude::*;

use crate::device_id::denotes;
use crate::device_id::hyphenated;
use crate::device_id::hyphenated_text_denotes;
use crate::device_id::is_uuid_text;
use crate::device_id::parse_uuid;
use crate::device_id::uuid_error_text;
use crate::device_id::uuid_of_text_is_unique;
use crate::device_id::uuid_texts_are_distinct;
use crate::device_id::uuid_to_string;
use crate::messages::AllocateRequest;
use crate::messages::AllocateResponse;
use crate::messages::Code;
use crate::messages::ContainerAllocateResponse;
use crate::messages::ContainerAllocateResponseView;
use crate::messages::Device;
use crate::messages::DevicePluginOptions;
use crate::messages::DeviceSpec;
use crate::messages::DeviceSpecView;
use crate::messages::DeviceView;
use crate::messages::Status;
use crate::messages::StatusView;
use crate::messages::view_of_request_is_faithful;
use crate::naming::container_path;
use crate::naming::container_path_view;
use crate::naming::names_have_these_forms;
use crate::naming::server_address;
use crate::naming::server_address_view;
use crate::state::ids_repeat_only_if_draws_do;
use crate::state::initial_state;
use crate::state::server_args_view;
use crate::state::AppState;
use crate::state::AppStateView;
use crate::state::HSMType;
use crate::watch::ListDevices;
use crate::watch::ListDevicesView;

verus! {

/// The devices that are offered for the IDs `ids`, in their order.
pub open spec fn offered(ids: Seq<u128>) -> Seq<DeviceView> {
    ids.map_values(
        |id: u128| DeviceView { id: hyphenated(id), health: "Healthy"@, topology: None },
    )
}

/// Whether `text` denotes one of the IDs `ids`.
pub open spec fn is_known(ids: Seq<u128>, text: Seq<char>) -> bool {
    exists|i: int| 0 <= i < ids.len() && denotes(text, #[trigger] ids[i])
}

/// Why a request for the device `text` is refused, if it is.
pub open spec fn refusal(ids: Seq<u128>, text: Seq<char>) -> Option<StatusView> {
    if is_known(ids, text) {
        None
    } else if is_uuid_text(text) {
        Some(StatusView { code: Code::NotFound, message: "Unknown device ID"@ })
    } else {
        Some(StatusView { code: Code::InvalidArgument, message: uuid_error_text(text) })
    }
}

/// The first refusal among those for `devices`.
pub open spec fn first_refusal(ids: Seq<u128>, devices: Seq<Seq<char>>) -> Option<StatusView>
    decreases devices.len(),
{
    if devices.len() == 0 {
        None
    } else {
        match first_refusal(ids, devices.drop_last()) {
            Some(status) => Some(status),
            None => refusal(ids, devices.last()),
        }
    }
}

/// The first refusal among those for the devices of all `containers`.
pub open spec fn request_refusal(
    ids: Seq<u128>,
    containers: Seq<Seq<Seq<char>>>,
) -> Option<StatusView>
    decreases containers.len(),
{
    if containers.len() == 0 {
        None
    } else {
        match request_refusal(ids, containers.drop_last()) {
            Some(status) => Some(status),
            None => first_refusal(ids, containers.last()),
        }
    }
}

/// How a container is prepared that is given access: the socket of the PKCS#11 server appears as
/// a device file, and the environment tells `p11-kit` where.
pub open spec fn container_response_view(state: AppStateView) -> ContainerAllocateResponseView {
    ContainerAllocateResponseView {
        envs: seq![("P11_KIT_SERVER_ADDRESS"@, server_address_view(state.name))],
        mounts: seq![],
        annotations: seq![],
        devices: seq![
            DeviceSpecView {
                container_path: container_path_view(state.name),
                host_path: state.p11_sock_path,
                permissions: "rw"@,
            },
        ],
    }
}

/// The answer to a request for the devices of `containers`.
pub open spec fn allocation(state: AppStateView, containers: Seq<Seq<Seq<char>>>) -> Result<
    Seq<ContainerAllocateResponseView>,
    StatusView,
> {
    match request_refusal(state.ids, containers) {
        Some(status) => Err(status),
        None => Ok(Seq::new(containers.len(), |i: int| container_response_view(state))),
    }
}

/// The device plugin for one HSM type.
#[derive(Debug)]
pub struct DevicePlugin {
    pub state: AppState,
}

impl DevicePlugin {
    /// The options of the plugin: it takes part in none of the optional calls.
    pub fn get_device_plugin_options(&self) -> (r: DevicePluginOptions)
        ensures
            r == (DevicePluginOptions {
                pre_start_required: false,
                get_preferred_allocation_available: false,
            }),
    {
        DevicePluginOptions { pre_start_required: false, get_preferred_allocation_available: false }
    }

    /// The stream of the devices that the plugin has to offer, all of them healthy.
    pub fn list_and_watch(&self) -> (r: ListDevices)
        ensures
            r@ == (ListDevicesView { devices: offered(self.state@.ids), sent: false }),
            !r@.sent,
            r@.devices.len() == self.state.ids@.len(),
            forall|i: int|
                #![trigger r@.devices[i]]
                0 <= i < r@.devices.len() ==> r@.devices[i].id == hyphenated(self.state.ids@[i])
                    && r@.devices[i].health == "Healthy"@ && r@.devices[i].topology is None,
    {
        let mut devices: Vec<Device> = Vec::new();
        for i in 0..self.state.ids.len()
            invariant
                devices@.len() == i,
                forall|k: int| #![trigger devices@[k]]
                    0 <= k < i ==> devices@[k].deep_view() == offered(self.state@.ids)[k],
        {
            devices.push(
                Device {
                    id: uuid_to_string(self.state.ids[i]),
                    health: "Healthy".to_owned(),
                    topology: None,
                },
            );
        }
        assert(devices.deep_view() =~= offered(self.state@.ids));
        ListDevices::new(devices)
    }

    /// Whether `id` is the ID of one of the plugin's devices.
    pub fn has_device(&self, id: u128) -> (r: bool)
        ensures
            r == self.state@.ids.contains(id),
    {
        for i in 0..self.state.ids.len()
            invariant
                forall|k: int| 0 <= k < i ==> self.state.ids@[k] != id,
        {
            if self.state.ids[i] == id {
                assert(self.state@.ids[i as int] == id);
                return true;
            }
        }
        false
    }

    /// Decides on a requested device, given what its ID was parsed to, or why it could not be.
    pub fn check_device(&self, parsed: Result<u128, String>) -> (r: Result<(), Status>)
        ensures
            match parsed {
                Ok(id) => if self.state@.ids.contains(id) {
                    r == Ok::<(), Status>(())
                } else {
                    r matches Err(status) && status.deep_view() == (StatusView {
                        code: Code::NotFound,
                        message: "Unknown device ID"@,
                    })
                },
                Err(message) => r matches Err(status) && status.deep_view() == (StatusView {
                    code: Code::InvalidArgument,
                    message: message@,
                }),
            },
    {
        match parsed {
            Ok(id) => if self.has_device(id) {
                Ok(())
            } else {
                Err(Status::not_found("Unknown device ID"))
            },
            Err(message) => Err(Status::invalid_argument(message)),
        }
    }

    /// How a container is prepared that is given access.
    pub fn container_response(&self) -> (r: ContainerAllocateResponse)
        ensures
            r.deep_view() == container_response_view(self.state@),
            r.envs@.len() == 1,
            r.envs@[0].0@ == "P11_KIT_SERVER_ADDRESS"@,
            r.envs@[0].1@ == "unix:path=/dev/pkcs11-"@ + self.state.name@,
            r.mounts@.len() == 0,
            r.annotations@.len() == 0,
            r.devices@.len() == 1,
            r.devices@[0].container_path@ == "/dev/pkcs11-"@ + self.state.name@,
            r.devices@[0].host_path@ == self.state.p11_sock_path@,
            r.devices@[0].permissions@ == "rw"@,
    {
        let name = self.state.name.as_str();
        let envs: Vec<(String, String)> = vec![
            ("P11_KIT_SERVER_ADDRESS".to_owned(), server_address(name)),
        ];
        let devices = vec![
            DeviceSpec {
                container_path: container_path(name),
                host_path: self.state.p11_sock_path.clone(),
                permissions: "rw".to_owned(),
            },
        ];
        let r = ContainerAllocateResponse {
            envs,
            mounts: Vec::new(),
            annotations: Vec::new(),
            devices,
        };
        assert(r.deep_view() =~= container_response_view(self.state@));
        r
    }

    /// Answers a request for devices: the first device that is no UUID or none of the plugin's
    /// refuses all of it, else each container gets access.
    pub fn allocate(&self, request: AllocateRequest) -> (r: Result<AllocateResponse, Status>)
        ensures
            match r {
                Ok(response) => allocation(self.state@, request.deep_view()) == Ok::<
                    Seq<ContainerAllocateResponseView>,
                    StatusView,
                >(response.deep_view()),
                Err(status) => allocation(self.state@, request.deep_view()) == Err::<
                    Seq<ContainerAllocateResponseView>,
                    StatusView,
                >(status.deep_view()),
            },
            r is Ok <==> (forall|c: int, d: int|
                #![trigger request.container_requests@[c].devices_ids@[d]]
                0 <= c < request.container_requests@.len() && 0 <= d
                    < request.container_requests@[c].devices_ids@.len() ==> exists|i: int|
                    0 <= i < self.state.ids@.len() && denotes(
                        request.container_requests@[c].devices_ids@[d]@,
                        #[trigger] self.state.ids@[i],
                    )),
            r matches Ok(response) ==> response.container_responses@.len()
                == request.container_requests@.len(),
            r matches Ok(response) ==> forall|k: int|
                #![trigger response.container_responses@[k]]
                0 <= k < response.container_responses@.len() ==> response.container_responses@[k].envs@.len() == 1 && response.container_responses@[k].envs@[0].0@
                        == "P11_KIT_SERVER_ADDRESS"@ && response.container_responses@[k].envs@[0].1@
                        == "unix:path=/dev/pkcs11-"@ + self.state.name@ && response.container_responses@[k].mounts@.len()
                        == 0 && response.container_responses@[k].annotations@.len() == 0 && response.container_responses@[k].devices@.len()
                        == 1 && response.container_responses@[k].devices@[0].container_path@ == "/dev/pkcs11-"@
                        + self.state.name@ && response.container_responses@[k].devices@[0].host_path@
                        == self.state.p11_sock_path@ && response.container_responses@[k].devices@[0].permissions@
                        == "rw"@,
            r matches Err(status) ==> {
                ||| status.code == Code::NotFound && status.message@ == "Unknown device ID"@
                ||| status.code == Code::InvalidArgument
            },
    {
        let ghost ids = self.state@.ids;
        let ghost containers = request.deep_view();
        proof {
            lemma_granted_by_texts(self.state, request);
        }
        let mut responses: Vec<ContainerAllocateResponse> = Vec::new();
        for c in 0..request.container_requests.len()
            invariant
                ids == self.state@.ids,
                containers == request.deep_view(),
                responses@.len() == c,
                forall|k: int| #![trigger responses@[k]]
                    0 <= k < c ==> responses@[k].deep_view() == container_response_view(self.state@),
                forall|k: int| #![trigger responses@[k]]
                    0 <= k < c ==> responses@[k].envs@.len() == 1 && responses@[k].envs@[0].0@
                        == "P11_KIT_SERVER_ADDRESS"@ && responses@[k].envs@[0].1@
                        == "unix:path=/dev/pkcs11-"@ + self.state.name@ && responses@[k].mounts@.len()
                        == 0 && responses@[k].annotations@.len() == 0 && responses@[k].devices@.len()
                        == 1 && responses@[k].devices@[0].container_path@ == "/dev/pkcs11-"@
                        + self.state.name@ && responses@[k].devices@[0].host_path@
                        == self.state.p11_sock_path@ && responses@[k].devices@[0].permissions@
                        == "rw"@,
                request_refusal(ids, containers.take(c as int)) is None,
        {
            let container = &request.container_requests[c];
            let ghost devices = containers[c as int];
            assert(containers.take(c + 1).drop_last() =~= containers.take(c as int));
            for d in 0..container.devices_ids.len()
                invariant
                    ids == self.state@.ids,
                    containers == request.deep_view(),
                    0 <= c < containers.len(),
                    devices == containers[c as int],
                    devices == container.devices_ids.deep_view(),
                    containers.take(c + 1).drop_last() == containers.take(c as int),
                    request_refusal(ids, containers.take(c as int)) is None,
                    first_refusal(ids, devices.take(d as int)) is None,
            {
                let text = container.devices_ids[d].as_str();
                let parsed = parse_uuid(text);
                proof {
                    assert(devices.take(d + 1).drop_last() =~= devices.take(d as int));
                    lemma_refusal_by_parse(ids, text@, parsed);
                }
                if let Err(status) = self.check_device(parsed) {
                    proof {
                        lemma_refusal_stands(ids, devices, d + 1);
                        lemma_request_refusal_stands(ids, containers, c + 1);
                    }
                    return Err(status);
                }
            }
            assert(devices.take(devices.len() as int) =~= devices);
            responses.push(self.container_response());
        }
        assert(containers.take(containers.len() as int) =~= containers);
        let response = AllocateResponse { container_responses: responses };
        assert(response.deep_view() =~= Seq::new(
            containers.len(),
            |i: int| container_response_view(self.state@),
        ));
        Ok(response)
    }

    /// Preferred allocations are not offered.
    pub fn get_preferred_allocation(&self) -> (r: Status)
        ensures
            r.deep_view() == (StatusView { code: Code::Unimplemented, message: ""@ }),
    {
        Status::unimplemented("")
    }

    /// No container needs anything done before it starts.
    pub fn pre_start_container(&self) -> (r: Status)
        ensures
            r.deep_view() == (StatusView { code: Code::Unimplemented, message: ""@ }),
    {
        Status::unimplemented("")
    }
}

/// What grants a request, over its texts.
proof fn lemma_granted_by_texts(state: AppState, request: AllocateRequest)
    ensures
        allocation(state@, request.deep_view()) is Ok <==> (forall|c: int, d: int|
            #![trigger request.container_requests@[c].devices_ids@[d]]
            0 <= c < request.container_requests@.len() && 0 <= d
                < request.container_requests@[c].devices_ids@.len() ==> exists|i: int|
                0 <= i < state.ids@.len() && denotes(
                    request.container_requests@[c].devices_ids@[d]@,
                    #[trigger] state.ids@[i],
                )),
{
    let containers = request.deep_view();
    view_of_request_is_faithful(request);
    granted_iff_all_devices_are_known(state@, containers);
    if allocation(state@, containers) is Ok {
        assert forall|c: int, d: int|
            #![trigger request.container_requests@[c].devices_ids@[d]]
            0 <= c < request.container_requests@.len() && 0 <= d
                < request.container_requests@[c].devices_ids@.len() implies exists|i: int|
            0 <= i < state.ids@.len() && denotes(
                request.container_requests@[c].devices_ids@[d]@,
                #[trigger] state.ids@[i],
            ) by {
            assert(containers[c].len() == request.container_requests@[c].devices_ids@.len());
            assert(is_known(state@.ids, containers[c][d]));
        }
    } else {
        let (c, d) = choose|c: int, d: int|
            0 <= c < containers.len() && 0 <= d < containers[c].len() && !is_known(
                state@.ids,
                #[trigger] containers[c][d],
            );
        assert(containers[c][d] == request.container_requests@[c].devices_ids@[d]@);
        assert(!is_known(state@.ids, request.container_requests@[c].devices_ids@[d]@));
    }
}

proof fn lemma_refusal_by_parse(ids: Seq<u128>, text: Seq<char>, parsed: Result<u128, String>)
    requires
        match parsed {
            Ok(id) => denotes(text, id),
            Err(message) => !is_uuid_text(text) && message@ == uuid_error_text(text),
        },
    ensures
        match parsed {
            Ok(id) => is_known(ids, text) == ids.contains(id) && is_uuid_text(text),
            Err(message) => !is_known(ids, text) && !is_uuid_text(text),
        },
{
    if let Ok(id) = parsed {
        if is_known(ids, text) {
            let i = choose|i: int| 0 <= i < ids.len() && denotes(text, #[trigger] ids[i]);
            uuid_of_text_is_unique(text, ids[i], id);
        }
    }
}

/// A refusal of the first `n` devices is the refusal of all of them.
proof fn lemma_refusal_stands(ids: Seq<u128>, devices: Seq<Seq<char>>, n: int)
    requires
        0 <= n <= devices.len(),
        first_refusal(ids, devices.take(n)) is Some,
    ensures
        first_refusal(ids, devices) == first_refusal(ids, devices.take(n)),
    decreases devices.len() - n,
{
    if n < devices.len() {
        assert(devices.take(n + 1).drop_last() =~= devices.take(n));
        lemma_refusal_stands(ids, devices, n + 1);
    } else {
        assert(devices.take(n) =~= devices);
    }
}

/// A refusal of the first `n` containers is the refusal of the whole request.
proof fn lemma_request_refusal_stands(ids: Seq<u128>, containers: Seq<Seq<Seq<char>>>, n: int)
    requires
        0 <= n <= containers.len(),
        request_refusal(ids, containers.take(n)) is Some,
    ensures
        request_refusal(ids, containers) == request_refusal(ids, containers.take(n)),
    decreases containers.len() - n,
{
    if n < containers.len() {
        assert(containers.take(n + 1).drop_last() =~= containers.take(n));
        lemma_request_refusal_stands(ids, containers, n + 1);
    } else {
        assert(containers.take(n) =~= containers);
    }
}

/// All devices of a list are known exactly if none of them is refused.
proof fn lemma_no_refusal(ids: Seq<u128>, devices: Seq<Seq<char>>)
    ensures
        first_refusal(ids, devices) is None <==> (forall|d: int|
            0 <= d < devices.len() ==> is_known(ids, #[trigger] devices[d])),
    decreases devices.len(),
{
    if devices.len() > 0 {
        let init = devices.drop_last();
        lemma_no_refusal(ids, init);
        if first_refusal(ids, devices) is None {
            assert forall|d: int| 0 <= d < devices.len() implies is_known(
                ids,
                #[trigger] devices[d],
            ) by {
                if d < init.len() {
                    assert(is_known(ids, init[d]));
                }
            }
        } else if first_refusal(ids, init) is Some {
            let d = choose|d: int| 0 <= d < init.len() && !is_known(ids, #[trigger] init[d]);
            assert(!is_known(ids, devices[d]));
        } else {
            assert(!is_known(ids, devices[devices.len() - 1]));
        }
    }
}

/// A request is granted exactly if each device it asks for, for whichever container, is one of the
/// plugin's.
pub proof fn granted_iff_all_devices_are_known(
    state: AppStateView,
    containers: Seq<Seq<Seq<char>>>,
)
    ensures
        allocation(state, containers) is Ok <==> (forall|c: int, d: int|
            0 <= c < containers.len() && 0 <= d < containers[c].len() ==> is_known(
                state.ids,
                #[trigger] containers[c][d],
            )),
    decreases containers.len(),
{
    if containers.len() > 0 {
        let ids = state.ids;
        let init = containers.drop_last();
        let last = containers.last();
        granted_iff_all_devices_are_known(state, init);
        lemma_no_refusal(ids, last);
        if allocation(state, containers) is Ok {
            assert forall|c: int, d: int|
                0 <= c < containers.len() && 0 <= d < containers[c].len() implies is_known(
                ids,
                #[trigger] containers[c][d],
            ) by {
                if c < init.len() {
                    assert(is_known(ids, init[c][d]));
                } else {
                    assert(is_known(ids, last[d]));
                }
            }
        } else if allocation(state, init) is Err {
            let (c, d) = choose|c: int, d: int|
                0 <= c < init.len() && 0 <= d < init[c].len() && !is_known(
                    ids,
                    #[trigger] init[c][d],
                );
            assert(!is_known(ids, containers[c][d]));
        } else {
            let d = choose|d: int| 0 <= d < last.len() && !is_known(ids, #[trigger] last[d]);
            assert(!is_known(ids, containers[containers.len() - 1][d]));
        }
    }
}

/// The first device that is not the plugin's decides the answer: if all devices of the containers
/// before `c`, and those of `c` before `d`, are known and `containers[c][d]` is not, then its refusal
/// is the answer, whatever follows.
pub proof fn first_unknown_device_decides(
    state: AppStateView,
    containers: Seq<Seq<Seq<char>>>,
    c: int,
    d: int,
)
    requires
        0 <= c < containers.len(),
        0 <= d < containers[c].len(),
        !is_known(state.ids, containers[c][d]),
        forall|i: int, j: int|
            0 <= i < c && 0 <= j < containers[i].len() ==> is_known(
                state.ids,
                #[trigger] containers[i][j],
            ),
        forall|j: int| 0 <= j < d ==> is_known(state.ids, #[trigger] containers[c][j]),
    ensures
        refusal(state.ids, containers[c][d]) is Some,
        allocation(state, containers) == Err::<Seq<ContainerAllocateResponseView>, StatusView>(
            refusal(state.ids, containers[c][d])->0,
        ),
{
    let ids = state.ids;
    let devices = containers[c];
    let before = containers.take(c);
    assert forall|i: int, j: int|
        0 <= i < before.len() && 0 <= j < before[i].len() implies is_known(
        ids,
        #[trigger] before[i][j],
    ) by {
        assert(is_known(ids, containers[i][j]));
    }
    granted_iff_all_devices_are_known(state, before);
    let earlier = devices.take(d);
    assert forall|j: int| 0 <= j < earlier.len() implies is_known(ids, #[trigger] earlier[j]) by {
        assert(is_known(ids, containers[c][j]));
    }
    lemma_no_refusal(ids, earlier);
    assert(devices.take(d + 1).drop_last() =~= earlier);
    lemma_refusal_stands(ids, devices, d + 1);
    assert(containers.take(c + 1).drop_last() =~= before);
    lemma_request_refusal_stands(ids, containers, c + 1);
}

/// What the plugin offers it grants: a request for devices from its own list succeeds, with one
/// answer for each container.
pub proof fn offered_devices_are_granted(state: AppStateView, containers: Seq<Seq<Seq<char>>>)
    requires
        forall|c: int, d: int|
            0 <= c < containers.len() && 0 <= d < containers[c].len() ==> exists|i: int|
                0 <= i < offered(state.ids).len() && (#[trigger] offered(state.ids)[i]).id
                    == #[trigger] containers[c][d],
    ensures
        allocation(state, containers) matches Ok(responses) && responses.len() == containers.len(),
{
    assert forall|c: int, d: int|
        0 <= c < containers.len() && 0 <= d < containers[c].len() implies is_known(
        state.ids,
        #[trigger] containers[c][d],
    ) by {
        let i = choose|i: int|
            0 <= i < offered(state.ids).len() && (#[trigger] offered(state.ids)[i]).id
                == containers[c][d];
        hyphenated_text_denotes(state.ids[i]);
        assert(denotes(containers[c][d], state.ids[i]));
    }
    granted_iff_all_devices_are_known(state, containers);
}

/// It makes no difference how many devices, and which, a container is given: every container of
/// every granted request is prepared in the same way.
pub proof fn containers_are_prepared_alike(state: AppStateView, containers: Seq<Seq<Seq<char>>>)
    requires
        allocation(state, containers) is Ok,
    ensures
        allocation(state, containers)->Ok_0.len() == containers.len(),
        forall|c: int|
            0 <= c < containers.len() ==> #[trigger] allocation(state, containers)->Ok_0[c]
                == container_response_view(state),
{
}

/// A prepared container finds the server: the address in its environment is that of the device file
/// `/dev/pkcs11-{name}` that it is given, which is the socket that the PKCS#11 server is told to listen on.
pub proof fn prepared_container_reaches_server(state: AppStateView)
    ensures
        ({
            let response = container_response_view(state);
            &&& response.well_formed()
            &&& response.devices[0].container_path == "/dev/pkcs11-"@ + state.name
            &&& response.envs[0].1 == "unix:path="@ + response.devices[0].container_path
            &&& response.devices[0].host_path == server_args_view(state)[3]
        }),
{
}

/// As many devices are offered as the HSM type may have clients.
pub proof fn one_device_is_offered_per_client(
    config: HSMType,
    runtime_dir: Seq<char>,
    ids: Seq<u128>,
)
    requires
        ids.len() == config.max_clients,
    ensures
        offered(initial_state(config, runtime_dir, ids).ids).len() == config.max_clients,
{
}

/// Devices with different IDs are offered under different names.
pub proof fn offered_devices_are_distinct(ids: Seq<u128>)
    requires
        ids.no_duplicates(),
    ensures
        forall|i: int, j: int|
            0 <= i < j < ids.len() ==> (#[trigger] offered(ids)[i]).id != (#[trigger] offered(
                ids,
            )[j]).id,
{
    assert forall|i: int, j: int| 0 <= i < j < ids.len() implies (#[trigger] offered(ids)[i]).id != (
    #[trigger] offered(ids)[j]).id by {
        if hyphenated(ids[i]) == hyphenated(ids[j]) {
            uuid_texts_are_distinct(ids[i], ids[j]);
        }
    }
}

/// A device of one HSM type is not found by the plugin of another, unless the source that gave both
/// types their IDs repeats itself.
pub proof fn devices_of_other_types_are_not_found(
    before: Seq<u128>,
    first: Seq<u128>,
    second: Seq<u128>,
    i: int,
)
    requires
        (before + first + second).no_duplicates(),
        0 <= i < first.len(),
    ensures
        refusal(second, offered(first)[i].id) == Some(
            StatusView { code: Code::NotFound, message: "Unknown device ID"@ },
        ),
{
    let text = offered(first)[i].id;
    ids_repeat_only_if_draws_do(before, first, second);
    hyphenated_text_denotes(first[i]);
    if is_known(second, text) {
        let j = choose|j: int| 0 <= j < second.len() && denotes(text, #[trigger] second[j]);
        uuid_of_text_is_unique(text, first[i], second[j]);
    }
}

/// Every offered device is healthy and says nothing of its topology, however many there are, and
/// the device at a position has the hyphenated text of the ID at that position.
pub proof fn offered_devices_are_healthy(ids: Seq<u128>)
    ensures
        offered(ids).len() == ids.len(),
        forall|i: int|
            #![trigger offered(ids)[i]]
            0 <= i < ids.len() ==> offered(ids)[i].id == hyphenated(ids[i]) && offered(ids)[i].health
                == "Healthy"@ && offered(ids)[i].topology is None,
{
}

/// What a device is offered as depends on its own ID alone: a list of devices is that of any first
/// part of the IDs, followed by that of the rest.
pub proof fn devices_are_offered_one_by_one(first: Seq<u128>, rest: Seq<u128>)
    ensures
        offered(first + rest) == offered(first) + offered(rest),
{
    assert(offered(first + rest) =~= offered(first) + offered(rest));
}

/// What each container of a granted request gets, whatever the state's provider, tokens and IDs and
/// whatever was asked for: one variable in its environment, with the address of its one device
/// file, which may be read and written and leads to the state's socket; no mounts and no
/// annotations.
pub proof fn granted_container_gets_device_and_address(
    state: AppStateView,
    containers: Seq<Seq<Seq<char>>>,
    c: int,
)
    requires
        allocation(state, containers) is Ok,
        0 <= c < containers.len(),
    ensures
        allocation(state, containers)->Ok_0.len() == containers.len(),
        ({
            let response = allocation(state, containers)->Ok_0[c];
            &&& response.envs.len() == 1
            &&& response.envs[0].0 == "P11_KIT_SERVER_ADDRESS"@
            &&& response.envs[0].1 == "unix:path=/dev/pkcs11-"@ + state.name
            &&& response.mounts.len() == 0
            &&& response.annotations.len() == 0
            &&& response.devices.len() == 1
            &&& response.devices[0].container_path == "/dev/pkcs11-"@ + state.name
            &&& response.devices[0].host_path == state.p11_sock_path
            &&& response.devices[0].permissions == "rw"@
        }),
{
    names_have_these_forms(state.name);
}

/// A request is granted if and only if each text in it, for whichever container, denotes one of the
/// state's IDs.
pub proof fn request_is_granted_iff_texts_denote_ids(
    state: AppStateView,
    containers: Seq<Seq<Seq<char>>>,
)
    ensures
        allocation(state, containers) is Ok <==> (forall|c: int, d: int|
            #![trigger containers[c][d]]
            0 <= c < containers.len() && 0 <= d < containers[c].len() ==> exists|i: int|
                0 <= i < state.ids.len() && denotes(containers[c][d], #[trigger] state.ids[i])),
{
    granted_iff_all_devices_are_known(state, containers);
    if allocation(state, containers) is Ok {
        assert forall|c: int, d: int|
            #![trigger containers[c][d]]
            0 <= c < containers.len() && 0 <= d < containers[c].len() implies exists|i: int|
            0 <= i < state.ids.len() && denotes(containers[c][d], #[trigger] state.ids[i]) by {
            assert(is_known(state.ids, containers[c][d]));
        }
    } else {
        let (c, d) = choose|c: int, d: int|
            0 <= c < containers.len() && 0 <= d < containers[c].len() && !is_known(
                state.ids,
                #[trigger] containers[c][d],
            );
        assert(!is_known(state.ids, containers[c][d]));
    }
}

/// What a refused request is answered: the first text that denotes none of the state's IDs decides,
/// whatever follows it.  If it denotes some other UUID, the device is said not to be found; if it
/// denotes none, the argument is said to be invalid, in the words of the parse error of that text.
pub proof fn refusal_says_what_is_wrong_with_first_bad_text(
    state: AppStateView,
    containers: Seq<Seq<Seq<char>>>,
    c: int,
    d: int,
)
    requires
        0 <= c < containers.len(),
        0 <= d < containers[c].len(),
        forall|i: int|
            0 <= i < state.ids.len() ==> !denotes(containers[c][d], #[trigger] state.ids[i]),
        forall|x: int, y: int|
            #![trigger containers[x][y]]
            0 <= x <= c && 0 <= y < containers[x].len() && (x < c || y < d) ==> exists|i: int|
                0 <= i < state.ids.len() && denotes(containers[x][y], #[trigger] state.ids[i]),
    ensures
        allocation(state, containers) is Err,
        (exists|id: u128| denotes(containers[c][d], id)) ==> allocation(state, containers)->Err_0.code
            == Code::NotFound && allocation(state, containers)->Err_0.message
            == "Unknown device ID"@,
        !(exists|id: u128| denotes(containers[c][d], id)) ==> allocation(
            state,
            containers,
        )->Err_0.code == Code::InvalidArgument && allocation(state, containers)->Err_0.message
            == uuid_error_text(containers[c][d]),
{
    assert forall|x: int, y: int|
        0 <= x < c && 0 <= y < containers[x].len() implies is_known(
        state.ids,
        #[trigger] containers[x][y],
    ) by {
        assert(exists|i: int|
            0 <= i < state.ids.len() && denotes(containers[x][y], #[trigger] state.ids[i]));
    }
    assert forall|y: int| 0 <= y < d implies is_known(state.ids, #[trigger] containers[c][y]) by {
        assert(exists|i: int|
            0 <= i < state.ids.len() && denotes(containers[c][y], #[trigger] state.ids[i]));
    }
    first_unknown_device_decides(state, containers, c, d);
}

/// The answer to a request of two parts: if the first part is refused, so is the whole, in the same
/// words; if both parts are granted, the answers follow one another.
pub proof fn parts_of_a_request_are_answered_in_order(
    state: AppStateView,
    first: Seq<Seq<Seq<char>>>,
    rest: Seq<Seq<Seq<char>>>,
)
    ensures
        allocation(state, first) is Err ==> allocation(state, first + rest) == allocation(
            state,
            first,
        ),
        allocation(state, first) is Ok && allocation(state, rest) is Ok ==> allocation(
            state,
            first + rest,
        ) is Ok && allocation(state, first + rest)->Ok_0 == allocation(state, first)->Ok_0
            + allocation(state, rest)->Ok_0,
{
    let whole = first + rest;
    let n = first.len() as int;
    assert(whole.take(n) =~= first);
    if allocation(state, first) is Err {
        lemma_request_refusal_stands(state.ids, whole, n);
    } else if allocation(state, rest) is Ok {
        granted_iff_all_devices_are_known(state, first);
        granted_iff_all_devices_are_known(state, rest);
        assert forall|c: int, d: int|
            0 <= c < whole.len() && 0 <= d < whole[c].len() implies is_known(
            state.ids,
            #[trigger] whole[c][d],
        ) by {
            if c < n {
                assert(whole[c][d] == first[c][d]);
            } else {
                assert(whole[c][d] == rest[c - n][d]);
            }
        }
        granted_iff_all_devices_are_known(state, whole);
        assert(allocation(state, whole)->Ok_0 =~= allocation(state, first)->Ok_0 + allocation(
            state,
            rest,
        )->Ok_0);
    }
}

} // verus!
