//! The configuration, and what the plugin keeps for each HSM type.

use vstd::prelude::*;

use crate::device_id::is_random_uuid;
use crate::device_id::UuidSource;
use crate::naming::p11_socket;
use crate::naming::p11_socket_view;
use crate::naming::plugin_socket;
use crate::naming::plugin_socket_view;
use crate::naming::server_socket_lies_in_runtime_directory;

verus! {

/// The configuration of the plugin.
#[derive(Debug, PartialEq, Eq)]
pub struct Config {
    /// The HSM types to expose, each as a device type of its own.
    pub hsm_types: Vec<HSMType>,
    /// The path of the `p11-kit` binary.
    pub p11_kit_binary: String,
}

/// A set of HSMs that is exposed as one device type.
#[derive(Debug, PartialEq, Eq)]
pub struct HSMType {
    /// The name by which Kubernetes knows the set.
    pub name: String,
    /// The URLs of the tokens in the set.
    pub tokens: Vec<String>,
    /// A PKCS#11 provider to use in place of the standard one.
    pub provider: Option<String>,
    /// How many pods can have access to the set at once.
    pub max_clients: u32,
}

impl Config {
    /// The names of the HSM types, in their order.
    pub open spec fn names(self) -> Seq<Seq<char>> {
        Seq::new(self.hsm_types@.len(), |i: int| self.hsm_types@[i].name@)
    }

    /// The plugin's own sockets, one for each HSM type, in their order.
    pub fn plugin_sockets(&self) -> (r: Vec<String>)
        ensures
            r.deep_view() == self.names().map_values(|name: Seq<char>| plugin_socket_view(name)),
            r@.len() == self.hsm_types@.len(),
            forall|i: int|
                0 <= i < r@.len() ==> (#[trigger] r@[i])@
                    == "/var/lib/kubelet/device-plugins/as207960-hsm-plugin-"@
                    + self.hsm_types@[i].name@ + ".sock"@,
    {
        let mut sockets: Vec<String> = Vec::new();
        for i in 0..self.hsm_types.len()
            invariant
                sockets@.len() == i,
                forall|k: int| #![trigger sockets@[k]]
                    0 <= k < i ==> sockets@[k]@ == plugin_socket_view(self.hsm_types@[k].name@)
                        && sockets@[k]@ == "/var/lib/kubelet/device-plugins/as207960-hsm-plugin-"@
                        + self.hsm_types@[k].name@ + ".sock"@,
        {
            sockets.push(plugin_socket(self.hsm_types[i].name.as_str()));
        }
        sockets
    }
}

/// What the plugin keeps for an HSM type: its configuration, the socket of its PKCS#11 server,
/// and the IDs of the devices that stand for the clients it can have.
#[derive(Clone, Debug, PartialEq, Eq)]
pub struct AppState {
    pub name: String,
    pub tokens: Vec<String>,
    pub provider: Option<String>,
    pub p11_sock_path: String,
    pub ids: Vec<u128>,
}

#[verifier::ext_equal]
pub struct AppStateView {
    pub name: Seq<char>,
    pub tokens: Seq<Seq<char>>,
    pub provider: Option<Seq<char>>,
    pub p11_sock_path: Seq<char>,
    pub ids: Seq<u128>,
}

impl View for AppState {
    type V = AppStateView;

    open spec fn view(&self) -> AppStateView {
        AppStateView {
            name: self.name@,
            tokens: self.tokens.deep_view(),
            provider: self.provider.deep_view(),
            p11_sock_path: self.p11_sock_path@,
            ids: self.ids@,
        }
    }
}

/// The state for the HSM type `config` whose devices have the IDs `ids`.
pub open spec fn initial_state(
    config: HSMType,
    runtime_dir: Seq<char>,
    ids: Seq<u128>,
) -> AppStateView {
    AppStateView {
        name: config.name@,
        tokens: config.tokens.deep_view(),
        provider: config.provider.deep_view(),
        p11_sock_path: p11_socket_view(runtime_dir, config.name@),
        ids,
    }
}

/// The arguments that start the PKCS#11 server for `state`: it stays in the foreground and listens
/// on the state's socket, for all the tokens.
pub open spec fn server_args_view(state: AppStateView) -> Seq<Seq<char>> {
    seq!["server"@, "-f"@, "-n"@, state.p11_sock_path] + (match state.provider {
        Some(provider) => seq!["-p"@, provider],
        None => seq![],
    }) + state.tokens
}

/// A command that starts a PKCS#11 server.
#[derive(Debug, PartialEq, Eq)]
pub struct ServerCommand {
    /// The path of the program.
    pub program: String,
    /// Its arguments.
    pub args: Vec<String>,
}

#[verifier::ext_equal]
pub struct ServerCommandView {
    pub program: Seq<char>,
    pub args: Seq<Seq<char>>,
}

impl DeepView for ServerCommand {
    type V = ServerCommandView;

    open spec fn deep_view(&self) -> ServerCommandView {
        ServerCommandView { program: self.program@, args: self.args.deep_view() }
    }
}

impl Clone for ServerCommand {
    fn clone(&self) -> (r: Self)
        ensures
            r.deep_view() == self.deep_view(),
    {
        let r = ServerCommand { program: self.program.clone(), args: self.args.clone() };
        assert(r.args.deep_view() =~= self.args.deep_view());
        r
    }
}

/// The command that starts the PKCS#11 server for `state`: the configured binary, with the state's
/// arguments.
pub open spec fn server_command_view(
    p11_kit_binary: Seq<char>,
    state: AppStateView,
) -> ServerCommandView {
    ServerCommandView { program: p11_kit_binary, args: server_args_view(state) }
}

impl AppState {
    /// The state for the HSM type `config`, with a new random ID for each client that it may have:
    /// each ID is a draw of its own from `source`, in the order of the draws, and nothing else is
    /// drawn.
    pub fn from_config(config: &HSMType, runtime_dir: &str, source: &mut UuidSource) -> (r: AppState)
        ensures
            r@ == initial_state(*config, runtime_dir@, r@.ids),
            r.name@ == config.name@,
            r.tokens.deep_view() == config.tokens.deep_view(),
            r.provider.deep_view() == config.provider.deep_view(),
            r.p11_sock_path@ == p11_socket_view(runtime_dir@, config.name@),
            r.ids@ == r@.ids,
            r@.ids.len() == config.max_clients,
            final(source).drawn() == old(source).drawn() + r@.ids,
            forall|i: int| 0 <= i < r@.ids.len() ==> is_random_uuid(#[trigger] r@.ids[i]),
    {
        let ghost before = source.drawn();
        let mut ids: Vec<u128> = Vec::with_capacity(config.max_clients as usize);
        for i in 0..config.max_clients
            invariant
                ids@.len() == i,
                source.drawn() =~= before + ids@,
                forall|k: int| 0 <= k < i ==> is_random_uuid(#[trigger] ids@[k]),
        {
            let id: u128 = source.draw();
            ids.push(id);
        }
        AppState::with_ids(config, runtime_dir, ids)
    }

    /// The state for the HSM type `config` whose devices have the IDs `ids`.
    pub fn with_ids(config: &HSMType, runtime_dir: &str, ids: Vec<u128>) -> (r: AppState)
        ensures
            r@ == initial_state(*config, runtime_dir@, ids@),
            r.name@ == config.name@,
            r.tokens.deep_view() == config.tokens.deep_view(),
            r.provider.deep_view() == config.provider.deep_view(),
            r.p11_sock_path@ == p11_socket_view(runtime_dir@, config.name@),
            r.ids@ == ids@,
    {
        let r = AppState {
            p11_sock_path: p11_socket(runtime_dir, config.name.as_str()),
            name: config.name.clone(),
            tokens: config.tokens.clone(),
            provider: config.provider.clone(),
            ids,
        };
        assert(r.tokens.deep_view() =~= config.tokens.deep_view());
        r
    }

    /// The command that starts the PKCS#11 server.
    pub fn server_command(&self, p11_kit_binary: &str) -> (r: ServerCommand)
        ensures
            r.deep_view() == server_command_view(p11_kit_binary@, self@),
            r.program@ == p11_kit_binary@,
            r.args.deep_view() == server_args_view(self@),
    {
        ServerCommand { program: p11_kit_binary.to_owned(), args: self.server_args() }
    }

    /// The arguments that start the PKCS#11 server.
    pub fn server_args(&self) -> (r: Vec<String>)
        ensures
            r.deep_view() == server_args_view(self@),
            r@.len() == 4 + (if self.provider is Some {
                2int
            } else {
                0int
            }) + self.tokens@.len(),
            r@[0]@ == "server"@ && r@[1]@ == "-f"@ && r@[2]@ == "-n"@,
            r@[3]@ == self.p11_sock_path@,
            self.provider matches Some(provider) ==> r@[4]@ == "-p"@ && r@[5]@ == provider@,
            forall|i: int|
                #![trigger self.tokens@[i]]
                0 <= i < self.tokens@.len() ==> r@[r@.len() - self.tokens@.len() + i]@
                    == self.tokens@[i]@,
    {
        let mut args: Vec<String> = vec![
            "server".to_owned(),
            "-f".to_owned(),
            "-n".to_owned(),
            self.p11_sock_path.clone(),
        ];
        if let Some(provider) = &self.provider {
            args.push("-p".to_owned());
            args.push(provider.clone());
        }
        let ghost before = args.deep_view();
        for i in 0..self.tokens.len()
            invariant
                args.deep_view() =~= before + self.tokens.deep_view().take(i as int),
        {
            let ghost pushed = args.deep_view();
            args.push(self.tokens[i].clone());
            assert(args.deep_view() =~= pushed.push(self.tokens.deep_view()[i as int]));
        }
        assert(self.tokens.deep_view().take(self.tokens@.len() as int) =~= self.tokens.deep_view());
        proof {
            server_is_started_for_every_token(self@);
            assert forall|i: int| 0 <= i < args@.len() implies (#[trigger] args@[i])@
                == server_args_view(self@)[i] by {
                assert(args.deep_view()[i] == args@[i]@);
            }
            assert forall|i: int|
                #![trigger self.tokens@[i]]
                0 <= i < self.tokens@.len() implies args@[args@.len() - self.tokens@.len() + i]@
                == self.tokens@[i]@ by {
                assert(self@.tokens[i] == self.tokens@[i]@);
            }
        }
        args
    }
}

/// IDs are shared only if the source repeats itself: where its draws, up to and with those for two
/// HSM types, are all different, each type's IDs differ among themselves and from the other's.
pub proof fn ids_repeat_only_if_draws_do(before: Seq<u128>, first: Seq<u128>, second: Seq<u128>)
    requires
        (before + first + second).no_duplicates(),
    ensures
        first.no_duplicates(),
        second.no_duplicates(),
        forall|i: int, j: int|
            0 <= i < first.len() && 0 <= j < second.len() ==> first[i] != second[j],
{
    let all = before + first + second;
    let (n, m) = (before.len() as int, (before.len() + first.len()) as int);
    assert(forall|i: int| 0 <= i < first.len() ==> first[i] == all[n + i]);
    assert(forall|j: int| 0 <= j < second.len() ==> second[j] == all[m + j]);
}

/// The views show the fields as they are.
pub proof fn state_views_are_faithful(state: AppState, command: ServerCommand)
    ensures
        state@.name == state.name@,
        state@.tokens == state.tokens.deep_view(),
        state@.provider == state.provider.deep_view(),
        state@.p11_sock_path == state.p11_sock_path@,
        state@.ids == state.ids@,
        command.deep_view().program == command.program@,
        command.deep_view().args == command.args.deep_view(),
{
}

/// The names of a configuration are those of all its HSM types, in their order.
pub proof fn no_type_is_left_out(config: Config)
    ensures
        config.names().len() == config.hsm_types@.len(),
        forall|i: int|
            0 <= i < config.hsm_types@.len() ==> #[trigger] config.names()[i]
                == config.hsm_types@[i].name@,
{
}

/// A state holds what the configuration says of its HSM type, the IDs that it was given, and a
/// socket path made of the runtime directory and the name.
pub proof fn state_follows_configuration(
    config: HSMType,
    runtime_dir: Seq<char>,
    ids: Seq<u128>,
)
    ensures
        ({
            let state = initial_state(config, runtime_dir, ids);
            &&& state.name == config.name@
            &&& state.tokens == config.tokens.deep_view()
            &&& state.provider == config.provider.deep_view()
            &&& state.ids == ids
            &&& state.p11_sock_path == (if runtime_dir.len() > 0 && runtime_dir.last() != '/' {
                runtime_dir + "/pkcs11-"@ + config.name@ + ".sock"@
            } else {
                runtime_dir + "pkcs11-"@ + config.name@ + ".sock"@
            })
        }),
{
    server_socket_lies_in_runtime_directory(runtime_dir, config.name@);
}

/// The server is started for every token: its arguments end in all of the tokens, in their order,
/// and before them stand the command, its flags, the socket and, if and only if there is one, the
/// provider with its flag.
pub proof fn server_is_started_for_every_token(state: AppStateView)
    ensures
        ({
            let args = server_args_view(state);
            let n = if state.provider is Some {
                6int
            } else {
                4int
            };
            &&& args.len() == n + state.tokens.len()
            &&& args[0] == "server"@
            &&& args[1] == "-f"@
            &&& args[2] == "-n"@
            &&& args[3] == state.p11_sock_path
            &&& state.provider matches Some(provider) ==> args[4] == "-p"@ && args[5] == provider
            &&& args.skip(n) == state.tokens
            &&& forall|i: int|
                #![trigger state.tokens[i]]
                0 <= i < state.tokens.len() ==> args[n + i] == state.tokens[i]
        }),
{
    let args = server_args_view(state);
    let n = if state.provider is Some {
        6int
    } else {
        4int
    };
    assert(args.skip(n) =~= state.tokens);
    assert forall|i: int| #![trigger state.tokens[i]] 0 <= i < state.tokens.len() implies args[n + i]
        == state.tokens[i] by {
        assert(args.skip(n)[i] == args[n + i]);
    }
}

/// The program of the command is the configured binary, whatever the state; its arguments are the
/// state's alone.
pub proof fn command_runs_the_configured_binary(
    binary: Seq<char>,
    other_binary: Seq<char>,
    state: AppStateView,
)
    ensures
        server_command_view(binary, state).program == binary,
        server_command_view(binary, state).args == server_args_view(state),
        server_command_view(binary, state).args == server_command_view(other_binary, state).args,
{
}

} // verus!
