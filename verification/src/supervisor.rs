//! Keeping the PKCS#11 servers of the HSM types running.

use vstd::prelude::*;

use crate::state::AppState;
use crate::state::AppStateView;
use crate::state::ServerCommand;
use crate::state::ServerCommandView;
use crate::state::server_args_view;
use crate::state::server_command_view;
use crate::state::server_is_started_for_every_token;

verus! {

/// How long a supervisor waits before it starts the server again, in seconds.
pub const RESTART_DELAY_SECS: u64 = 5;

/// Where a supervisor stands.
#[derive(Clone, Copy, Debug, PartialEq, Eq, Structural)]
pub enum SupervisorPhase {
    /// It starts the server.
    Starting,
    /// It waits for the server to exit.
    Running,
    /// It lets the delay before the next start pass.
    Delaying,
}

/// What has become of a supervisor's last action.
#[derive(Clone, Copy, Debug, PartialEq, Eq, Structural)]
pub enum SupervisorEvent {
    /// The server has been started.
    Spawned,
    /// The server could not be started.
    SpawnFailed,
    /// The server has exited, with or without success.
    Exited { success: bool },
    /// The server could not be waited for.
    WaitFailed,
    /// The sleep is over.
    Slept,
}

/// What a supervisor wants done next.
#[derive(Debug, PartialEq, Eq)]
pub enum SupervisorAction {
    /// Start the server by this command.
    Spawn(ServerCommand),
    /// Wait for the server to exit.
    Wait,
    /// Sleep for this many seconds.
    Sleep(u64),
}

#[verifier::ext_equal]
pub enum SupervisorActionView {
    Spawn(ServerCommandView),
    Wait,
    Sleep(u64),
}

impl DeepView for SupervisorAction {
    type V = SupervisorActionView;

    open spec fn deep_view(&self) -> SupervisorActionView {
        match self {
            SupervisorAction::Spawn(command) => SupervisorActionView::Spawn(command.deep_view()),
            SupervisorAction::Wait => SupervisorActionView::Wait,
            SupervisorAction::Sleep(secs) => SupervisorActionView::Sleep(*secs),
        }
    }
}

/// The phase after `event`: a server that is started is waited for; one that could not be started
/// or is gone, however that came, is started again after the delay.  An event that the phase does
/// not wait for changes nothing.
pub open spec fn next_phase(phase: SupervisorPhase, event: SupervisorEvent) -> SupervisorPhase {
    match (phase, event) {
        (SupervisorPhase::Starting, SupervisorEvent::Spawned) => SupervisorPhase::Running,
        (SupervisorPhase::Starting, SupervisorEvent::SpawnFailed) => SupervisorPhase::Delaying,
        (SupervisorPhase::Running, SupervisorEvent::Exited { .. }) => SupervisorPhase::Delaying,
        (SupervisorPhase::Running, SupervisorEvent::WaitFailed) => SupervisorPhase::Delaying,
        (SupervisorPhase::Delaying, SupervisorEvent::Slept) => SupervisorPhase::Starting,
        _ => phase,
    }
}

/// Keeps the PKCS#11 server of one HSM type running.
#[derive(Debug)]
pub struct Supervisor {
    command: ServerCommand,
    phase: SupervisorPhase,
}

#[verifier::ext_equal]
pub struct SupervisorView {
    pub command: ServerCommandView,
    pub phase: SupervisorPhase,
}

impl View for Supervisor {
    type V = SupervisorView;

    closed spec fn view(&self) -> SupervisorView {
        SupervisorView { command: self.command.deep_view(), phase: self.phase }
    }
}

impl DeepView for Supervisor {
    type V = SupervisorView;

    open spec fn deep_view(&self) -> SupervisorView {
        self@
    }
}

impl SupervisorView {
    /// A supervisor that is about to start the server of `state` for the first time.
    pub open spec fn initial(p11_kit_binary: Seq<char>, state: AppStateView) -> SupervisorView {
        SupervisorView {
            command: server_command_view(p11_kit_binary, state),
            phase: SupervisorPhase::Starting,
        }
    }

    /// What is wanted done next.
    pub open spec fn action(self) -> SupervisorActionView {
        match self.phase {
            SupervisorPhase::Starting => SupervisorActionView::Spawn(self.command),
            SupervisorPhase::Running => SupervisorActionView::Wait,
            SupervisorPhase::Delaying => SupervisorActionView::Sleep(RESTART_DELAY_SECS),
        }
    }

    /// The supervisor after `event`.
    pub open spec fn next(self, event: SupervisorEvent) -> SupervisorView {
        SupervisorView { phase: next_phase(self.phase, event), ..self }
    }

    /// The supervisor after a sequence of events.
    pub open spec fn after(self, events: Seq<SupervisorEvent>) -> SupervisorView
        decreases events.len(),
    {
        if events.len() == 0 {
            self
        } else {
            self.after(events.drop_last()).next(events.last())
        }
    }
}

impl Supervisor {
    /// A supervisor that is about to start the server of `state` for the first time.
    pub fn new(p11_kit_binary: &str, state: &AppState) -> (r: Supervisor)
        ensures
            r@ == SupervisorView::initial(p11_kit_binary@, state@),
            r@.phase == SupervisorPhase::Starting,
            r@.command.program == p11_kit_binary@,
            r@.command.args == server_args_view(state@),
    {
        Supervisor {
            command: state.server_command(p11_kit_binary),
            phase: SupervisorPhase::Starting,
        }
    }

    /// What is to be done next.
    pub fn action(&self) -> (r: SupervisorAction)
        ensures
            r.deep_view() == self@.action(),
            match self@.phase {
                SupervisorPhase::Starting => r matches SupervisorAction::Spawn(command)
                    && command.program@ == self@.command.program && command.args.deep_view()
                    == self@.command.args,
                SupervisorPhase::Running => r == SupervisorAction::Wait,
                SupervisorPhase::Delaying => r == SupervisorAction::Sleep(5),
            },
    {
        match self.phase {
            SupervisorPhase::Starting => SupervisorAction::Spawn(self.command.clone()),
            SupervisorPhase::Running => SupervisorAction::Wait,
            SupervisorPhase::Delaying => SupervisorAction::Sleep(RESTART_DELAY_SECS),
        }
    }

    /// Takes note of what has become of the last action.
    pub fn advance(&mut self, event: SupervisorEvent)
        ensures
            final(self)@ == old(self)@.next(event),
            final(self)@.command == old(self)@.command,
    {
        let phase = match (self.phase, event) {
            (SupervisorPhase::Starting, SupervisorEvent::Spawned) => SupervisorPhase::Running,
            (SupervisorPhase::Starting, SupervisorEvent::SpawnFailed) => SupervisorPhase::Delaying,
            (SupervisorPhase::Running, SupervisorEvent::Exited { .. }) => SupervisorPhase::Delaying,
            (SupervisorPhase::Running, SupervisorEvent::WaitFailed) => SupervisorPhase::Delaying,
            (SupervisorPhase::Delaying, SupervisorEvent::Slept) => SupervisorPhase::Starting,
            (phase, _) => phase,
        };
        self.phase = phase;
    }
}

/// The supervisors of the servers for `states`, each about to start its server for the first time.
pub open spec fn supervisors(p11_kit_binary: Seq<char>, states: Seq<AppStateView>) -> Seq<
    SupervisorView,
> {
    states.map_values(|state: AppStateView| SupervisorView::initial(p11_kit_binary, state))
}

/// A supervisor for the server of each HSM type, in the order of `states`.
pub fn start_pkcs11_server(p11_kit_binary: &str, states: &Vec<AppState>) -> (r: Vec<Supervisor>)
    ensures
        r.deep_view() == supervisors(
            p11_kit_binary@,
            states@.map_values(|state: AppState| state@),
        ),
        r@.len() == states@.len(),
        forall|i: int|
            #![trigger r@[i]]
            0 <= i < r@.len() ==> r@[i]@.phase == SupervisorPhase::Starting
                && r@[i]@.command.program == p11_kit_binary@ && r@[i]@.command.args
                == server_args_view(states@[i]@),
{
    let mut all: Vec<Supervisor> = Vec::new();
    for i in 0..states.len()
        invariant
            all@.len() == i,
            forall|k: int| #![trigger all@[k]]
                0 <= k < i ==> all@[k]@ == SupervisorView::initial(p11_kit_binary@, states@[k]@),
    {
        all.push(Supervisor::new(p11_kit_binary, &states[i]));
    }
    assert(all.deep_view() =~= supervisors(
        p11_kit_binary@,
        states@.map_values(|state: AppState| state@),
    ));
    all
}

/// What a read of a server's error output has given.
#[derive(Clone, Copy, Debug, PartialEq, Eq, Structural)]
pub enum StderrRead {
    /// This many bytes, up to the end of a line or of the output.
    Bytes(usize),
    /// An error.
    Failed,
}

/// Whether a read has given anything to report.
pub open spec fn gives_line(read: StderrRead) -> bool {
    match read {
        StderrRead::Bytes(n) => n != 0,
        StderrRead::Failed => false,
    }
}

/// Whether a read of a server's error output has given a line to report, after which there may be
/// more.  If not, reading is over.
pub fn has_stderr_line(read: StderrRead) -> (r: bool)
    ensures
        r <==> (read matches StderrRead::Bytes(n) && n > 0),
        r == gives_line(read),
{
    match read {
        StderrRead::Bytes(n) => n != 0,
        StderrRead::Failed => false,
    }
}

/// Every start and every restart is by the same command: whatever has happened, the program and the
/// arguments are those of the first start.
pub proof fn every_start_is_by_the_same_command(
    supervisor: SupervisorView,
    events: Seq<SupervisorEvent>,
)
    ensures
        supervisor.after(events).command == supervisor.command,
        supervisor.after(events).action() matches SupervisorActionView::Spawn(command) ==> command
            == supervisor.command,
    decreases events.len(),
{
    if events.len() > 0 {
        every_start_is_by_the_same_command(supervisor, events.drop_last());
    }
}

/// The ways in which an attempt to run a server ends.
pub enum Ending {
    SpawnFailed,
    WaitFailed,
    Exited { success: bool },
}

/// The events of an attempt that ends so, up to the sleep.
pub open spec fn attempt(ending: Ending) -> Seq<SupervisorEvent> {
    match ending {
        Ending::SpawnFailed => seq![SupervisorEvent::SpawnFailed],
        Ending::WaitFailed => seq![SupervisorEvent::Spawned, SupervisorEvent::WaitFailed],
        Ending::Exited { success } => seq![
            SupervisorEvent::Spawned,
            SupervisorEvent::Exited { success },
        ],
    }
}

/// The supervisor after attempts that ended so, each with the sleep that follows it.
pub open spec fn after_attempts(supervisor: SupervisorView, endings: Seq<Ending>) -> SupervisorView
    decreases endings.len(),
{
    if endings.len() == 0 {
        supervisor
    } else {
        after_attempts(supervisor, endings.drop_last()).after(attempt(endings.last())).next(
            SupervisorEvent::Slept,
        )
    }
}

/// The server is restarted without limit: after any number of attempts, however each of them ended,
/// the next one is by the same command as the first; and when that one has ended too, however it
/// does, a sleep for the delay follows.
pub proof fn server_is_restarted_without_limit(
    supervisor: SupervisorView,
    endings: Seq<Ending>,
    ending: Ending,
)
    requires
        supervisor.phase == SupervisorPhase::Starting,
    ensures
        after_attempts(supervisor, endings).action() == SupervisorActionView::Spawn(
            supervisor.command,
        ),
        after_attempts(supervisor, endings).after(attempt(ending)).action()
            == SupervisorActionView::Sleep(RESTART_DELAY_SECS),
    decreases endings.len(),
{
    if endings.len() > 0 {
        let init = endings.drop_last();
        server_is_restarted_without_limit(supervisor, init, endings.last());
        every_start_is_by_the_same_command(
            after_attempts(supervisor, init),
            attempt(endings.last()),
        );
    }
    let events = attempt(ending);
    reveal_with_fuel(SupervisorView::after, 3);
    assert(events.drop_last().len() > 0 ==> events.drop_last() =~= seq![SupervisorEvent::Spawned]);
    assert(seq![SupervisorEvent::Spawned].drop_last() =~= seq![]);
}

/// The server is never started twice without the delay between: if the supervisor is to start the
/// server after the first `j` events, and had something else to do after `i` of them, then it has
/// slept for the delay in between.
pub proof fn restarts_are_delayed(
    supervisor: SupervisorView,
    events: Seq<SupervisorEvent>,
    i: int,
    j: int,
)
    requires
        0 <= i < j <= events.len(),
        !(supervisor.after(events.take(i)).action() is Spawn),
        supervisor.after(events.take(j)).action() is Spawn,
    ensures
        exists|k: int|
            i <= k < j && supervisor.after(#[trigger] events.take(k)).action()
                == SupervisorActionView::Sleep(RESTART_DELAY_SECS) && events[k]
                == SupervisorEvent::Slept,
    decreases j - i,
{
    assert(events.take(j).drop_last() =~= events.take(j - 1));
    if supervisor.after(events.take(j - 1)).action() is Spawn {
        restarts_are_delayed(supervisor, events, i, j - 1);
    } else {
        assert(events[j - 1] == SupervisorEvent::Slept);
    }
}

/// At most one server runs at a time: a supervisor turns to starting one only from the delay, and
/// to the delay only when no server has been started or the one that was is gone.
pub proof fn server_is_started_only_when_none_runs(phase: SupervisorPhase, event: SupervisorEvent)
    requires
        next_phase(phase, event) != phase,
    ensures
        next_phase(phase, event) == SupervisorPhase::Starting <==> phase
            == SupervisorPhase::Delaying && event == SupervisorEvent::Slept,
        next_phase(phase, event) == SupervisorPhase::Delaying <==> {
            ||| phase == SupervisorPhase::Starting && event == SupervisorEvent::SpawnFailed
            ||| phase == SupervisorPhase::Running && (event is Exited || event
                == SupervisorEvent::WaitFailed)
        },
        next_phase(phase, event) == SupervisorPhase::Running <==> phase
            == SupervisorPhase::Starting && event == SupervisorEvent::Spawned,
{
}

/// Several supervisors after a sequence of events, each of which has come to the one at a position.
pub open spec fn all_after(
    all: Seq<SupervisorView>,
    events: Seq<(int, SupervisorEvent)>,
) -> Seq<SupervisorView>
    decreases events.len(),
{
    if events.len() == 0 {
        all
    } else {
        let before = all_after(all, events.drop_last());
        let (i, event) = events.last();
        if 0 <= i < before.len() {
            before.update(i, before[i].next(event))
        } else {
            before
        }
    }
}

/// The events that have come to the supervisor at position `j`, in their order.
pub open spec fn events_at(events: Seq<(int, SupervisorEvent)>, j: int) -> Seq<SupervisorEvent>
    decreases events.len(),
{
    if events.len() == 0 {
        seq![]
    } else if events.last().0 == j {
        events_at(events.drop_last(), j).push(events.last().1)
    } else {
        events_at(events.drop_last(), j)
    }
}

/// HSM types do not disturb each other: whatever happens to the servers of the others, and in
/// whatever order, the supervisor of one stands, and starts its server, as if it had been set up
/// alone.
pub proof fn servers_are_supervised_independently(
    p11_kit_binary: Seq<char>,
    states: Seq<AppStateView>,
    events: Seq<(int, SupervisorEvent)>,
    j: int,
)
    requires
        0 <= j < states.len(),
    ensures
        all_after(supervisors(p11_kit_binary, states), events).len() == states.len(),
        all_after(supervisors(p11_kit_binary, states), events)[j] == supervisors(
            p11_kit_binary,
            seq![states[j]],
        )[0].after(events_at(events, j)),
    decreases events.len(),
{
    if events.len() > 0 {
        servers_are_supervised_independently(p11_kit_binary, states, events.drop_last(), j);
        if events.last().0 == j {
            let own = events_at(events, j);
            assert(own.drop_last() =~= events_at(events.drop_last(), j));
        }
    }
}

/// There is a supervisor for each HSM type, in their order, and each begins by starting the
/// configured binary with arguments that end in all of its type's tokens and hold its type's socket.
pub proof fn every_type_has_its_supervisor(
    p11_kit_binary: Seq<char>,
    states: Seq<AppStateView>,
    i: int,
)
    requires
        0 <= i < states.len(),
    ensures
        supervisors(p11_kit_binary, states).len() == states.len(),
        supervisors(p11_kit_binary, states)[i].action() matches SupervisorActionView::Spawn(command)
            && command.program == p11_kit_binary && command.args.len() == states[i].tokens.len()
            + (if states[i].provider is Some {
            6int
        } else {
            4int
        }) && command.args[3] == states[i].p11_sock_path && command.args.skip(
            command.args.len() - states[i].tokens.len(),
        ) == states[i].tokens,
{
    server_is_started_for_every_token(states[i]);
}

/// What is done in each phase: the supervisor's own command is started, its end is awaited, or five
/// seconds pass.
pub proof fn each_phase_has_its_action(supervisor: SupervisorView)
    ensures
        supervisor.phase == SupervisorPhase::Starting ==> supervisor.action()
            == SupervisorActionView::Spawn(supervisor.command),
        supervisor.phase == SupervisorPhase::Running ==> supervisor.action()
            == SupervisorActionView::Wait,
        supervisor.phase == SupervisorPhase::Delaying ==> supervisor.action()
            == SupervisorActionView::Sleep(5),
{
}

/// How it goes on, of any supervisor: a server that was started is waited for; one that was not, or
/// that is gone, whether it succeeded or not, is followed by the sleep, and the sleep by a start with
/// the same command.
pub proof fn server_goes_from_start_to_start(supervisor: SupervisorView, success: bool)
    ensures
        supervisor.phase == SupervisorPhase::Starting ==> {
            &&& supervisor.next(SupervisorEvent::Spawned).action() == SupervisorActionView::Wait
            &&& supervisor.next(SupervisorEvent::SpawnFailed).action()
                == SupervisorActionView::Sleep(5)
        },
        supervisor.phase == SupervisorPhase::Running ==> {
            &&& supervisor.next(SupervisorEvent::Exited { success }).action()
                == SupervisorActionView::Sleep(5)
            &&& supervisor.next(SupervisorEvent::WaitFailed).action()
                == SupervisorActionView::Sleep(5)
        },
        supervisor.phase == SupervisorPhase::Delaying ==> supervisor.next(
            SupervisorEvent::Slept,
        ).action() == SupervisorActionView::Spawn(supervisor.command),
{
}

/// An event changes nothing unless it is the outcome of what is being done, and none changes the
/// command.
pub proof fn stray_events_change_nothing(supervisor: SupervisorView, event: SupervisorEvent)
    ensures
        supervisor.next(event).command == supervisor.command,
        (event is Spawned || event is SpawnFailed) && supervisor.phase != SupervisorPhase::Starting
            ==> supervisor.next(event) == supervisor,
        (event is Exited || event is WaitFailed) && supervisor.phase != SupervisorPhase::Running
            ==> supervisor.next(event) == supervisor,
        event is Slept && supervisor.phase != SupervisorPhase::Delaying ==> supervisor.next(event)
            == supervisor,
{
}

/// The view of an action tells the actions apart and shows the whole command.
pub proof fn view_of_supervisor_action_is_faithful(action: SupervisorAction)
    ensures
        match action {
            SupervisorAction::Spawn(command) => action.deep_view() == SupervisorActionView::Spawn(
                ServerCommandView { program: command.program@, args: command.args.deep_view() },
            ),
            SupervisorAction::Wait => action.deep_view() == SupervisorActionView::Wait,
            SupervisorAction::Sleep(secs) => action.deep_view() == SupervisorActionView::Sleep(
                secs,
            ),
        },
{
}

/// Reading goes on after every line, however long, and is over at the end of the output and after
/// an error.
pub proof fn error_output_is_read_to_its_end(n: usize)
    ensures
        gives_line(StderrRead::Bytes(n)) <==> n != 0,
        !gives_line(StderrRead::Failed),
{
}

} // verus!
