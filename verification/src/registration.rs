//! Registering the plugin with the kubelet, once for each time that a socket is bound.

use vstd::prelude::*;

use crate::messages::RegisterRequest;
use crate::messages::RegisterRequestView;
use crate::naming::register_request;
use crate::naming::register_request_view;
use crate::state::Config;

verus! {

/// How long the program runs before the registrar begins, in seconds.
pub const REGISTER_DELAY_SECS: u64 = 5;

/// Where a registrar stands.
#[derive(Clone, Copy, Debug, PartialEq, Eq, Structural)]
pub enum RegistrarPhase {
    /// It waits for the message that a socket has been bound.
    Waiting,
    /// It connects to the kubelet.
    Connecting,
    /// It registers the HSM type at this position.
    Registering(usize),
    /// It has come to its end.
    Stopped,
}

/// What has become of a registrar's last action.
#[derive(Clone, Copy, Debug, PartialEq, Eq, Structural)]
pub enum RegistrarEvent {
    /// A message has come in.
    Message,
    /// There will be no more messages.
    Closed,
    /// The connection to the kubelet stands.
    Connected,
    /// The kubelet could not be reached; the flag says whether the program is about to exit.
    ConnectFailed { should_exit: bool },
    /// The kubelet has accepted the registration.
    Registered,
    /// The kubelet has not accepted the registration.
    RegisterFailed,
}

/// What a registrar wants done next.
#[derive(Debug, PartialEq, Eq)]
pub enum RegistrarAction {
    /// Wait for a message.
    Receive,
    /// Connect to the kubelet.
    Connect,
    /// Send this request over the connection.
    Register(RegisterRequest),
    /// Nothing more.
    Stop,
}

#[verifier::ext_equal]
pub enum RegistrarActionView {
    Receive,
    Connect,
    Register(RegisterRequestView),
    Stop,
}

impl DeepView for RegistrarAction {
    type V = RegistrarActionView;

    open spec fn deep_view(&self) -> RegistrarActionView {
        match self {
            RegistrarAction::Receive => RegistrarActionView::Receive,
            RegistrarAction::Connect => RegistrarActionView::Connect,
            RegistrarAction::Register(request) => RegistrarActionView::Register(
                request.deep_view(),
            ),
            RegistrarAction::Stop => RegistrarActionView::Stop,
        }
    }
}

/// The phase in which the HSM type at `position` is up for registration, of `count` in all.
pub open spec fn registering(position: int, count: nat) -> RegistrarPhase {
    if position < count {
        RegistrarPhase::Registering(position as usize)
    } else {
        RegistrarPhase::Waiting
    }
}

/// The phase after `event`, with `count` HSM types.  A failed registration gives up the rest of the
/// round; a failed connection gives up the round, and everything if the program is about to exit.
/// An event that the phase does not wait for changes nothing.
pub open spec fn next_phase(
    phase: RegistrarPhase,
    event: RegistrarEvent,
    count: nat,
) -> RegistrarPhase {
    match (phase, event) {
        (RegistrarPhase::Waiting, RegistrarEvent::Message) => RegistrarPhase::Connecting,
        (RegistrarPhase::Waiting, RegistrarEvent::Closed) => RegistrarPhase::Stopped,
        (RegistrarPhase::Connecting, RegistrarEvent::Connected) => registering(0, count),
        (RegistrarPhase::Connecting, RegistrarEvent::ConnectFailed { should_exit }) => {
            if should_exit {
                RegistrarPhase::Stopped
            } else {
                RegistrarPhase::Waiting
            }
        },
        (RegistrarPhase::Registering(i), RegistrarEvent::Registered) => registering(i + 1, count),
        (RegistrarPhase::Registering(i), RegistrarEvent::RegisterFailed) => RegistrarPhase::Waiting,
        _ => phase,
    }
}

/// What is wanted done in `phase`, for HSM types of these names.
pub open spec fn phase_action(phase: RegistrarPhase, names: Seq<Seq<char>>) -> RegistrarActionView {
    match phase {
        RegistrarPhase::Waiting => RegistrarActionView::Receive,
        RegistrarPhase::Connecting => RegistrarActionView::Connect,
        RegistrarPhase::Registering(i) => RegistrarActionView::Register(
            register_request_view(names[i as int]),
        ),
        RegistrarPhase::Stopped => RegistrarActionView::Stop,
    }
}

/// Registers the HSM types of a configuration, in their order, whenever a message asks for it.
#[derive(Debug)]
pub struct Registrar {
    names: Vec<String>,
    phase: RegistrarPhase,
}

impl Registrar {
    #[verifier::type_invariant]
    spec fn position_is_valid(self) -> bool {
        self.phase matches RegistrarPhase::Registering(i) ==> i < self.names@.len()
    }

    /// The names of the HSM types.
    pub closed spec fn names(self) -> Seq<Seq<char>> {
        self.names.deep_view()
    }

    /// Where the registrar stands.
    pub closed spec fn phase(self) -> RegistrarPhase {
        self.phase
    }

    /// A registrar that waits for its first message.
    pub fn new(config: &Config) -> (r: Registrar)
        ensures
            r.names() == config.names(),
            r.names().len() == config.hsm_types@.len(),
            forall|i: int|
                0 <= i < r.names().len() ==> #[trigger] r.names()[i] == config.hsm_types@[i].name@,
            r.phase() == RegistrarPhase::Waiting,
    {
        let mut names: Vec<String> = Vec::new();
        for i in 0..config.hsm_types.len()
            invariant
                names@.len() == i,
                forall|k: int| #![trigger names@[k]]
                    0 <= k < i ==> names@[k]@ == config.hsm_types@[k].name@,
        {
            names.push(config.hsm_types[i].name.clone());
        }
        assert(names.deep_view() =~= config.names());
        Registrar { names, phase: RegistrarPhase::Waiting }
    }

    /// What is to be done next.
    pub fn action(&self) -> (r: RegistrarAction)
        ensures
            r.deep_view() == phase_action(self.phase(), self.names()),
            match self.phase() {
                RegistrarPhase::Waiting => r == RegistrarAction::Receive,
                RegistrarPhase::Connecting => r == RegistrarAction::Connect,
                RegistrarPhase::Registering(i) => i < self.names().len() && (r
                    matches RegistrarAction::Register(request) && request.version@ == "v1beta1"@
                    && request.endpoint@ == "as207960-hsm-plugin-"@ + self.names()[i as int]
                    + ".sock"@ && request.resource_name@ == "hsm.as207960.net/"@
                    + self.names()[i as int] && request.options is None),
                RegistrarPhase::Stopped => r == RegistrarAction::Stop,
            },
    {
        proof {
            use_type_invariant(self);
        }
        match self.phase {
            RegistrarPhase::Waiting => RegistrarAction::Receive,
            RegistrarPhase::Connecting => RegistrarAction::Connect,
            RegistrarPhase::Registering(i) => RegistrarAction::Register(
                register_request(self.names[i].as_str()),
            ),
            RegistrarPhase::Stopped => RegistrarAction::Stop,
        }
    }

    /// Takes note of what has become of the last action.
    pub fn advance(&mut self, event: RegistrarEvent)
        ensures
            final(self).names() == old(self).names(),
            final(self).phase() == next_phase(old(self).phase(), event, old(self).names().len()),
    {
        proof {
            use_type_invariant(&*self);
        }
        let count: usize = self.names.len();
        let phase = match (self.phase, event) {
            (RegistrarPhase::Waiting, RegistrarEvent::Message) => RegistrarPhase::Connecting,
            (RegistrarPhase::Waiting, RegistrarEvent::Closed) => RegistrarPhase::Stopped,
            (RegistrarPhase::Connecting, RegistrarEvent::Connected) => if count > 0 {
                RegistrarPhase::Registering(0)
            } else {
                RegistrarPhase::Waiting
            },
            (RegistrarPhase::Connecting, RegistrarEvent::ConnectFailed { should_exit }) => {
                if should_exit {
                    RegistrarPhase::Stopped
                } else {
                    RegistrarPhase::Waiting
                }
            },
            (RegistrarPhase::Registering(i), RegistrarEvent::Registered) => if i + 1 < count {
                RegistrarPhase::Registering(i + 1)
            } else {
                RegistrarPhase::Waiting
            },
            (RegistrarPhase::Registering(_), RegistrarEvent::RegisterFailed) => {
                RegistrarPhase::Waiting
            },
            (phase, _) => phase,
        };
        self.phase = phase;
    }
}

/// The phase after a sequence of events.
pub open spec fn phase_after(
    phase: RegistrarPhase,
    events: Seq<RegistrarEvent>,
    count: nat,
) -> RegistrarPhase
    decreases events.len(),
{
    if events.len() == 0 {
        phase
    } else {
        next_phase(phase_after(phase, events.drop_last(), count), events.last(), count)
    }
}

/// The events of a round in which the kubelet is reached and accepts the first `n` registrations.
pub open spec fn accepted_round(n: nat) -> Seq<RegistrarEvent> {
    seq![RegistrarEvent::Message, RegistrarEvent::Connected] + Seq::new(
        n,
        |i: int| RegistrarEvent::Registered,
    )
}

/// A round registers every HSM type, once and in the order of the configuration: once the first `n`
/// registrations are accepted the request for the next HSM type is up, and after the last one the
/// registrar waits for the next message.
pub proof fn round_registers_all_in_order(names: Seq<Seq<char>>, n: nat)
    requires
        n <= names.len() <= usize::MAX,
    ensures
        phase_action(phase_after(RegistrarPhase::Waiting, accepted_round(n), names.len()), names)
            == (if n < names.len() {
            RegistrarActionView::Register(register_request_view(names[n as int]))
        } else {
            RegistrarActionView::Receive
        }),
{
    lemma_accepted_round(names.len(), n);
}

/// A refused registration ends the round: whichever it was, the registrar waits for the next
/// message, and that message starts with the first HSM type again.
pub proof fn refused_registration_restarts_with_next_message(names: Seq<Seq<char>>, n: nat)
    requires
        n < names.len() <= usize::MAX,
    ensures
        ({
            let refused = accepted_round(n).push(RegistrarEvent::RegisterFailed);
            let phase = phase_after(RegistrarPhase::Waiting, refused, names.len());
            &&& phase_action(phase, names) == RegistrarActionView::Receive
            &&& phase_action(phase_after(phase, accepted_round(0), names.len()), names)
                == RegistrarActionView::Register(register_request_view(names[0]))
        }),
{
    lemma_accepted_round(names.len(), n);
    lemma_accepted_round(names.len(), 0);
    let refused = accepted_round(n).push(RegistrarEvent::RegisterFailed);
    assert(refused.drop_last() =~= accepted_round(n));
}

/// An unreachable kubelet costs no more than the round, unless the program is about to exit.
pub proof fn unreachable_kubelet_is_tried_again_with_next_message(count: nat, should_exit: bool)
    ensures
        phase_after(
            RegistrarPhase::Waiting,
            seq![RegistrarEvent::Message, RegistrarEvent::ConnectFailed { should_exit }],
            count,
        ) == (if should_exit {
            RegistrarPhase::Stopped
        } else {
            RegistrarPhase::Waiting
        }),
{
    let events = seq![RegistrarEvent::Message, RegistrarEvent::ConnectFailed { should_exit }];
    reveal_with_fuel(phase_after, 3);
    assert(events.drop_last() =~= seq![RegistrarEvent::Message]);
    assert(events.drop_last().drop_last() =~= seq![]);
}

proof fn lemma_accepted_round(count: nat, n: nat)
    requires
        n <= count <= usize::MAX,
    ensures
        phase_after(RegistrarPhase::Waiting, accepted_round(n), count) == registering(
            n as int,
            count,
        ),
    decreases n,
{
    if n == 0 {
        let events = accepted_round(0);
        reveal_with_fuel(phase_after, 3);
        assert(events.drop_last() =~= seq![RegistrarEvent::Message]);
        assert(events.drop_last().drop_last() =~= seq![]);
    } else {
        let m = (n - 1) as nat;
        lemma_accepted_round(count, m);
        assert(accepted_round(n).drop_last() =~= accepted_round(m));
        assert(accepted_round(n).last() == RegistrarEvent::Registered);
    }
}

/// A round has one connection: the registrar connects only when a message has come in while it
/// waited, and registers only right after that or after the registration before, so that all
/// registrations of a round follow one connection.
pub proof fn round_has_one_connection(phase: RegistrarPhase, event: RegistrarEvent, count: nat)
    requires
        next_phase(phase, event, count) != phase,
    ensures
        next_phase(phase, event, count) == RegistrarPhase::Connecting <==> phase
            == RegistrarPhase::Waiting && event == RegistrarEvent::Message,
        next_phase(phase, event, count) is Registering ==> {
            ||| phase == RegistrarPhase::Connecting && event == RegistrarEvent::Connected
            ||| phase is Registering && event == RegistrarEvent::Registered
        },
{
}

/// A registrar stops only when the messages end, or when the kubelet cannot be reached and the
/// program is about to exit; a stopped registrar stays so.
pub proof fn registrar_stops_only_at_exit(
    phase: RegistrarPhase,
    event: RegistrarEvent,
    count: nat,
)
    ensures
        next_phase(phase, event, count) == RegistrarPhase::Stopped <==> {
            ||| phase == RegistrarPhase::Stopped
            ||| phase == RegistrarPhase::Waiting && event == RegistrarEvent::Closed
            ||| phase == RegistrarPhase::Connecting && event == RegistrarEvent::ConnectFailed {
                should_exit: true,
            }
        },
{
}

/// What is done in each phase: a message is awaited, the kubelet is connected to, the HSM type at
/// the position is introduced by its name, or nothing more.
pub proof fn each_phase_has_its_action(names: Seq<Seq<char>>, i: usize)
    ensures
        phase_action(RegistrarPhase::Waiting, names) == RegistrarActionView::Receive,
        phase_action(RegistrarPhase::Connecting, names) == RegistrarActionView::Connect,
        phase_action(RegistrarPhase::Stopped, names) == RegistrarActionView::Stop,
        i < names.len() ==> (phase_action(
            RegistrarPhase::Registering(i),
            names,
        ) matches RegistrarActionView::Register(request) && request.version == "v1beta1"@ && request.endpoint == "as207960-hsm-plugin-"@
            + names[i as int] + ".sock"@ && request.resource_name == "hsm.as207960.net/"@
            + names[i as int] && request.options is None),
{
}

/// How a round goes on.  A message is followed by a connection, the end of the messages by the end
/// of the registrar.  A connection is followed by the registration of the first HSM type, and each
/// accepted registration by that of the next; where there is none left, by waiting.  A refused
/// registration and a failed connection are followed by waiting, but for the exit.
pub proof fn rounds_go_on_as_they_should(count: nat, i: usize, should_exit: bool)
    requires
        count <= usize::MAX,
    ensures
        next_phase(RegistrarPhase::Waiting, RegistrarEvent::Message, count)
            == RegistrarPhase::Connecting,
        next_phase(RegistrarPhase::Waiting, RegistrarEvent::Closed, count)
            == RegistrarPhase::Stopped,
        count > 0 ==> next_phase(RegistrarPhase::Connecting, RegistrarEvent::Connected, count)
            == RegistrarPhase::Registering(0),
        next_phase(RegistrarPhase::Connecting, RegistrarEvent::Connected, 0)
            == RegistrarPhase::Waiting,
        next_phase(
            RegistrarPhase::Connecting,
            RegistrarEvent::ConnectFailed { should_exit },
            count,
        ) == RegistrarPhase::Stopped <==> should_exit,
        next_phase(
            RegistrarPhase::Connecting,
            RegistrarEvent::ConnectFailed { should_exit },
            count,
        ) == RegistrarPhase::Waiting <==> !should_exit,
        i + 1 < count ==> next_phase(
            RegistrarPhase::Registering(i),
            RegistrarEvent::Registered,
            count,
        ) == RegistrarPhase::Registering((i + 1) as usize),
        i + 1 == count ==> next_phase(
            RegistrarPhase::Registering(i),
            RegistrarEvent::Registered,
            count,
        ) == RegistrarPhase::Waiting,
        next_phase(RegistrarPhase::Registering(i), RegistrarEvent::RegisterFailed, count)
            == RegistrarPhase::Waiting,
{
}

/// An event changes nothing unless it is the outcome of what is being done.
pub proof fn stray_events_change_nothing(
    phase: RegistrarPhase,
    event: RegistrarEvent,
    count: nat,
)
    requires
        event is Message || event is Closed ==> !(phase is Waiting),
        event is Connected || event is ConnectFailed ==> !(phase is Connecting),
        event is Registered || event is RegisterFailed ==> !(phase is Registering),
    ensures
        next_phase(phase, event, count) == phase,
{
}

/// Registration begins five seconds after the program does.
pub proof fn registration_begins_after_five_seconds()
    ensures
        REGISTER_DELAY_SECS == 5,
{
}

/// The view of an action tells the actions apart and shows the whole request.
pub proof fn view_of_registrar_action_is_faithful(action: RegistrarAction)
    ensures
        match action {
            RegistrarAction::Receive => action.deep_view() == RegistrarActionView::Receive,
            RegistrarAction::Connect => action.deep_view() == RegistrarActionView::Connect,
            RegistrarAction::Register(request) => action.deep_view()
                == RegistrarActionView::Register(
                RegisterRequestView {
                    version: request.version@,
                    endpoint: request.endpoint@,
                    resource_name: request.resource_name@,
                    options: request.options,
                },
            ),
            RegistrarAction::Stop => action.deep_view() == RegistrarActionView::Stop,
        },
{
}

} // verus!
