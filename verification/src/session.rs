//! The session arbitrator: one state machine that takes what the peripheral
//! stack reports and what the input producers command, and decides what is
//! done next.
//!
//! The machine performs nothing itself. [`Session::step`] takes an [`Event`],
//! updates the state, and returns the [`Action`] that the driver is to carry
//! out; the driver reports back with the next event. All of it is specified by
//! [`SessionModel::step`], a function on plain mathematical values.

use vstd::prelude::*;
use vstd::slice::slice_to_vec;

use crate::consts::{UUID_BATTERY_LEVEL, UUID_HID_REPORT};
use crate::gatt::{bluetooth_uuid, short_uuid};
use crate::hid::{build_mouse_report, byte_as_signed, clamp_axis, clamped_axis, mouse_report};
use crate::tracker::{lemma_key_transition_wf, InputModel, InputState, BATTERY_FULL};
use crate::ui::AppCmd;

verus! {

/// The delay before the second power query, in milliseconds.
pub const INITIAL_POLL_DELAY_MS: u64 = 50;

/// The longest delay between two power queries, in milliseconds.
pub const MAX_POLL_DELAY_MS: u64 = 1000;

/// How many services the device registers.
pub const SERVICE_COUNT: u8 = 3;

/// Where a session stands in its life.
#[derive(Clone, Copy, Debug, PartialEq, Eq, Structural)]
pub enum Phase {
    /// Created, nothing asked of the adapter yet.
    Initializing,
    /// Querying the adapter until it reports power.
    WaitingForPower,
    /// Registering the services and starting to advertise.
    BringingUp,
    /// Serving events and commands.
    Running,
    /// Asked to end; advertising is being stopped.
    ShuttingDown,
    /// Ended.
    Terminal,
}

/// The services of the device, in the order they are registered.
#[derive(Clone, Copy, Debug, PartialEq, Eq, Structural)]
pub enum ServiceId {
    Hid,
    Battery,
    DeviceInformation,
}

/// A characteristic on which the device notifies.
#[derive(Clone, Copy, Debug, PartialEq, Eq, Structural)]
pub enum Channel {
    /// The input report, shared by mouse and keyboard reports.
    Input,
    /// The battery level.
    Battery,
}

/// What the peripheral stack reports. Characteristics are named by their
/// 128-bit UUID.
#[derive(Clone, Copy, Debug, PartialEq, Eq, Structural)]
pub enum PeripheralEvent {
    /// The adapter gained or lost power.
    StateUpdate { is_powered: bool },
    /// The peer subscribed to a characteristic or unsubscribed from it.
    CharacteristicSubscriptionUpdate { characteristic: u128, subscribed: bool },
    /// The peer asks for the value of a characteristic.
    ReadRequest { characteristic: u128 },
    /// The peer writes to a characteristic.
    WriteRequest { characteristic: u128 },
}

/// What the driver reports to the session.
#[derive(Clone, Copy, Debug, PartialEq, Eq, Structural)]
pub enum Event {
    /// The session is to begin.
    Begin,
    /// The adapter answered the power query.
    Power { powered: bool },
    /// The delay asked for has passed.
    Waited,
    /// A service was registered, or the attempt failed.
    ServiceAdded { ok: bool },
    /// Advertising started, or the attempt failed.
    AdvertisingStarted { ok: bool },
    /// Advertising stopped, or the attempt failed.
    AdvertisingStopped { ok: bool },
    /// A notification or a reply was handed to the stack, or that failed.
    Delivered { ok: bool },
    /// The peripheral stack reported something.
    Peripheral(PeripheralEvent),
    /// An input producer sent a command.
    Command(AppCmd),
    /// A query failed, or one of the two sources closed.
    Closed,
}

/// What the driver is to do next.
#[derive(Debug, PartialEq, Eq)]
pub enum Action {
    /// Ask the adapter whether it has power; report `Power`, or `Closed` on
    /// failure.
    QueryPower,
    /// Sleep, then report `Waited`.
    Wait { millis: u64 },
    /// Register a service; report `ServiceAdded`.
    AddService(ServiceId),
    /// Start advertising; report `AdvertisingStarted`.
    StartAdvertising,
    /// Stop advertising; report `AdvertisingStopped`.
    StopAdvertising,
    /// Notify the peer of new bytes; report `Delivered`.
    Notify { channel: Channel, bytes: Vec<u8> },
    /// Answer a read request with success and this value; report `Delivered`.
    ReplyRead { value: Vec<u8> },
    /// Answer a write request with success; report `Delivered`.
    ReplyWrite,
    /// Wait for whichever source produces first, and report what it produced.
    Listen,
    /// Leave the loop; the session has ended, with an error if `failed`.
    Exit { failed: bool },
}

/// An action as a mathematical value.
pub enum ActionModel {
    QueryPower,
    Wait { millis: u64 },
    AddService(ServiceId),
    StartAdvertising,
    StopAdvertising,
    Notify { channel: Channel, bytes: Seq<u8> },
    ReplyRead { value: Seq<u8> },
    ReplyWrite,
    Listen,
    Exit { failed: bool },
}

impl View for Action {
    type V = ActionModel;

    open spec fn view(&self) -> ActionModel {
        match *self {
            Action::QueryPower => ActionModel::QueryPower,
            Action::Wait { millis } => ActionModel::Wait { millis },
            Action::AddService(service) => ActionModel::AddService(service),
            Action::StartAdvertising => ActionModel::StartAdvertising,
            Action::StopAdvertising => ActionModel::StopAdvertising,
            Action::Notify { channel, bytes } => ActionModel::Notify { channel, bytes: bytes@ },
            Action::ReplyRead { value } => ActionModel::ReplyRead { value: value@ },
            Action::ReplyWrite => ActionModel::ReplyWrite,
            Action::Listen => ActionModel::Listen,
            Action::Exit { failed } => ActionModel::Exit { failed },
        }
    }
}

/// The delay that follows `delay` in the backoff: twice as long, but never
/// over the maximum.
pub open spec fn next_delay(delay: u64) -> u64 {
    if 2 * delay >= MAX_POLL_DELAY_MS {
        MAX_POLL_DELAY_MS
    } else {
        (2 * delay) as u64
    }
}

/// The delay after the power query that failed as number `failures`, counting
/// from zero.
pub open spec fn poll_delay(failures: nat) -> u64
    decreases failures,
{
    if failures == 0 {
        INITIAL_POLL_DELAY_MS
    } else {
        next_delay(poll_delay((failures - 1) as nat))
    }
}

/// Doubles a delay up to the maximum.
pub fn next_poll_delay(delay: u64) -> (next: u64)
    ensures
        next == next_delay(delay),
{
    if delay >= MAX_POLL_DELAY_MS / 2 {
        MAX_POLL_DELAY_MS
    } else {
        delay * 2
    }
}

/// The service that is registered as number `index`, counting from zero.
pub open spec fn service_at(index: u8) -> ServiceId {
    if index == 0 {
        ServiceId::Hid
    } else if index == 1 {
        ServiceId::Battery
    } else {
        ServiceId::DeviceInformation
    }
}

/// What bring-up does once `registered` services are in place: the next
/// registration, or after the last one the start of advertising.
pub open spec fn bring_up_action(registered: u8) -> ActionModel {
    if registered < SERVICE_COUNT {
        ActionModel::AddService(service_at(registered))
    } else {
        ActionModel::StartAdvertising
    }
}

/// The channel that a characteristic UUID names, if it names one.
pub open spec fn channel_of(characteristic: u128) -> Option<Channel> {
    if characteristic == bluetooth_uuid(UUID_HID_REPORT) {
        Some(Channel::Input)
    } else if characteristic == bluetooth_uuid(UUID_BATTERY_LEVEL) {
        Some(Channel::Battery)
    } else {
        None
    }
}

/// A battery level limited to a percentage.
pub open spec fn limited_level(level: u8) -> u8 {
    if level > BATTERY_FULL {
        BATTERY_FULL
    } else {
        level
    }
}

/// Whether a command reports mouse or keyboard input.
pub open spec fn is_input_command(cmd: AppCmd) -> bool {
    cmd is Mouse || cmd is KeyDown || cmd is KeyUp
}

/// The session as a mathematical value.
pub struct SessionModel {
    pub phase: Phase,
    /// The tracked keys and battery level.
    pub input: InputModel,
    /// Whether the peer listens on the input report.
    pub input_notify: bool,
    /// Whether the peer listens on the battery level.
    pub battery_notify: bool,
    /// Whether the device advertises.
    pub advertising: bool,
    /// How many services are registered.
    pub registered: u8,
    /// The delay to sleep after the next failed power query.
    pub delay: u64,
    /// Whether the session ended with an error.
    pub failed: bool,
}

impl SessionModel {
    /// A session that has not begun: nothing held, nobody subscribed, not
    /// advertising.
    pub open spec fn initial() -> SessionModel {
        SessionModel {
            phase: Phase::Initializing,
            input: InputModel::initial(),
            input_notify: false,
            battery_notify: false,
            advertising: false,
            registered: 0,
            delay: INITIAL_POLL_DELAY_MS,
            failed: false,
        }
    }

    /// What holds of every session that was reached from the initial one.
    pub open spec fn wf(self) -> bool {
        &&& self.input.wf()
        &&& self.registered <= SERVICE_COUNT
        &&& INITIAL_POLL_DELAY_MS <= self.delay <= MAX_POLL_DELAY_MS
        &&& self.failed ==> self.phase == Phase::Terminal
        &&& self.phase == Phase::Running ==> self.registered == SERVICE_COUNT
        &&& self.advertising ==> self.registered == SERVICE_COUNT
    }

    /// Whether the session serves events and commands: it runs, or it has
    /// registered its services and waits for advertising to succeed.
    pub open spec fn serving(self) -> bool {
        self.phase == Phase::Running || (self.phase == Phase::BringingUp && self.registered
            >= SERVICE_COUNT)
    }

    /// Whether the peer listens on a channel.
    pub open spec fn subscribed(self, channel: Channel) -> bool {
        match channel {
            Channel::Input => self.input_notify,
            Channel::Battery => self.battery_notify,
        }
    }

    /// The session ends with an error. This is what becomes of a failure
    /// during bring-up, and of an event that arrives out of turn.
    pub open spec fn abort(self) -> (SessionModel, ActionModel) {
        (
            SessionModel { phase: Phase::Terminal, failed: true, ..self },
            ActionModel::Exit { failed: true },
        )
    }

    /// The session begins to end: advertising is stopped.
    pub open spec fn shut_down(self) -> (SessionModel, ActionModel) {
        (
            SessionModel { phase: Phase::ShuttingDown, advertising: false, ..self },
            ActionModel::StopAdvertising,
        )
    }

    /// How an event of the peripheral stack is served. A power change starts or
    /// stops advertising as needed, a subscription change is recorded, and
    /// requests are answered with success; only a read of the battery level has
    /// a value to give.
    pub open spec fn on_peripheral(self, event: PeripheralEvent) -> (SessionModel, ActionModel) {
        match event {
            PeripheralEvent::StateUpdate { is_powered } => {
                if is_powered && !self.advertising {
                    (self, ActionModel::StartAdvertising)
                } else if !is_powered && self.advertising {
                    (SessionModel { advertising: false, ..self }, ActionModel::StopAdvertising)
                } else {
                    (self, ActionModel::Listen)
                }
            },
            PeripheralEvent::CharacteristicSubscriptionUpdate { characteristic, subscribed } => {
                match channel_of(characteristic) {
                    Some(Channel::Input) => (
                        SessionModel { input_notify: subscribed, ..self },
                        ActionModel::Listen,
                    ),
                    Some(Channel::Battery) => (
                        SessionModel { battery_notify: subscribed, ..self },
                        ActionModel::Listen,
                    ),
                    None => (self, ActionModel::Listen),
                }
            },
            PeripheralEvent::ReadRequest { characteristic } => {
                if channel_of(characteristic) == Some(Channel::Battery) {
                    (self, ActionModel::ReplyRead { value: seq![self.input.battery] })
                } else {
                    (self, ActionModel::ReplyRead { value: Seq::empty() })
                }
            },
            PeripheralEvent::WriteRequest { characteristic } => (self, ActionModel::ReplyWrite),
        }
    }

    /// How a command is served. Mouse and keyboard input is turned into a
    /// report if the peer listens on the input report, and dropped without a
    /// trace if not. A battery level is applied, and sent if it changed and the
    /// peer listens for it.
    pub open spec fn on_command(self, cmd: AppCmd) -> (SessionModel, ActionModel) {
        match cmd {
            AppCmd::Mouse { buttons, dx, dy, wheel } => {
                if self.input_notify {
                    (
                        self,
                        ActionModel::Notify {
                            channel: Channel::Input,
                            bytes: mouse_report(
                                buttons,
                                clamped_axis(dx as int),
                                clamped_axis(dy as int),
                                clamped_axis(wheel as int),
                            ),
                        },
                    )
                } else {
                    (self, ActionModel::Listen)
                }
            },
            AppCmd::KeyDown(usage) => self.on_key(usage, true),
            AppCmd::KeyUp(usage) => self.on_key(usage, false),
            AppCmd::Battery(level) => {
                let level = limited_level(level);
                let next = SessionModel { input: self.input.battery_reading(level), ..self };
                if level != self.input.battery && self.battery_notify {
                    (next, ActionModel::Notify { channel: Channel::Battery, bytes: seq![level] })
                } else {
                    (next, ActionModel::Listen)
                }
            },
            AppCmd::Exit => self.shut_down(),
        }
    }

    /// How a key transition is served.
    pub open spec fn on_key(self, usage: u8, is_down: bool) -> (SessionModel, ActionModel) {
        if self.input_notify {
            let input = self.input.key_transition(usage, is_down);
            (
                SessionModel { input, ..self },
                ActionModel::Notify { channel: Channel::Input, bytes: input.keyboard_report() },
            )
        } else {
            (self, ActionModel::Listen)
        }
    }

    /// How an event is served once the services are registered. Transport
    /// failures are survived: a notification or a reply that was not delivered
    /// and advertising that did not start or stop leave the session listening.
    /// Events that belong to bring-up are out of turn here.
    pub open spec fn serve(self, event: Event) -> (SessionModel, ActionModel) {
        match event {
            Event::Peripheral(event) => self.on_peripheral(event),
            Event::Command(cmd) => self.on_command(cmd),
            Event::Closed => self.shut_down(),
            Event::AdvertisingStarted { ok } => {
                if ok {
                    (
                        SessionModel { phase: Phase::Running, advertising: true, ..self },
                        ActionModel::Listen,
                    )
                } else {
                    (self, ActionModel::Listen)
                }
            },
            Event::AdvertisingStopped { ok } => (self, ActionModel::Listen),
            Event::Delivered { ok } => (self, ActionModel::Listen),
            _ => self.abort(),
        }
    }

    /// How an event is taken while the adapter has no power yet. A query that
    /// finds no power is repeated after a delay, without end; the delay doubles
    /// each time up to the maximum. Anything but an answer or the end of a delay
    /// is fatal.
    pub open spec fn await_power(self, event: Event) -> (SessionModel, ActionModel) {
        match event {
            Event::Power { powered } => {
                if powered {
                    (
                        SessionModel { phase: Phase::BringingUp, ..self },
                        bring_up_action(self.registered),
                    )
                } else {
                    (
                        SessionModel { delay: next_delay(self.delay), ..self },
                        ActionModel::Wait { millis: self.delay },
                    )
                }
            },
            Event::Waited => (self, ActionModel::QueryPower),
            _ => self.abort(),
        }
    }

    /// How an event is taken while services are still being registered: each
    /// success leads to the next registration, anything else is fatal.
    pub open spec fn register(self, event: Event) -> (SessionModel, ActionModel) {
        match event {
            Event::ServiceAdded { ok } => {
                if ok {
                    let registered = (self.registered + 1) as u8;
                    (SessionModel { registered, ..self }, bring_up_action(registered))
                } else {
                    self.abort()
                }
            },
            _ => self.abort(),
        }
    }

    /// The state after an event, and the action that the driver is to carry
    /// out. A session that has not begun begins on any event, one that is
    /// shutting down ends on any event, and one that has ended stays as it is.
    pub open spec fn step(self, event: Event) -> (SessionModel, ActionModel) {
        match self.phase {
            Phase::Initializing => (
                SessionModel { phase: Phase::WaitingForPower, ..self },
                ActionModel::QueryPower,
            ),
            Phase::WaitingForPower => self.await_power(event),
            Phase::BringingUp => {
                if self.registered < SERVICE_COUNT {
                    self.register(event)
                } else {
                    self.serve(event)
                }
            },
            Phase::Running => self.serve(event),
            Phase::ShuttingDown => (
                SessionModel { phase: Phase::Terminal, ..self },
                ActionModel::Exit { failed: self.failed },
            ),
            Phase::Terminal => (self, ActionModel::Exit { failed: self.failed }),
        }
    }
}

/// Serving a command keeps a serving session well formed.
pub proof fn lemma_on_command_wf(session: SessionModel, cmd: AppCmd)
    requires
        session.wf(),
        session.serving(),
    ensures
        session.on_command(cmd).0.wf(),
{
    match cmd {
        AppCmd::KeyDown(usage) => {
            lemma_key_transition_wf(session.input, usage, true);
        },
        AppCmd::KeyUp(usage) => {
            lemma_key_transition_wf(session.input, usage, false);
        },
        _ => {},
    }
}

/// Serving an event of the peripheral stack keeps a session well formed.
pub proof fn lemma_on_peripheral_wf(session: SessionModel, event: PeripheralEvent)
    requires
        session.wf(),
    ensures
        session.on_peripheral(event).0.wf(),
{
}

/// Every step keeps a session well formed, so every session reached from the
/// initial one is.
pub proof fn lemma_step_wf(session: SessionModel, event: Event)
    requires
        session.wf(),
    ensures
        session.step(event).0.wf(),
        SessionModel::initial().wf(),
{
    match event {
        Event::Command(cmd) => {
            if session.serving() {
                lemma_on_command_wf(session, cmd);
            }
        },
        _ => {},
    }
}

/// The phases are passed in one direction only: a step leaves the phase as it
/// is or moves to a later one.
pub open spec fn phase_rank(phase: Phase) -> nat {
    match phase {
        Phase::Initializing => 0,
        Phase::WaitingForPower => 1,
        Phase::BringingUp => 2,
        Phase::Running => 3,
        Phase::ShuttingDown => 4,
        Phase::Terminal => 5,
    }
}

/// No step moves a session back to an earlier phase, and the two ends are as
/// described: a session that has not begun always begins, and one that is
/// shutting down always ends.
pub proof fn lemma_phases_advance(session: SessionModel, event: Event)
    ensures
        phase_rank(session.phase) <= phase_rank(session.step(event).0.phase),
        session.phase == Phase::Initializing ==> session.step(event).0.phase
            == Phase::WaitingForPower,
        session.phase == Phase::ShuttingDown ==> session.step(event).0.phase == Phase::Terminal,
        session.phase == Phase::Terminal ==> session.step(event).0 == session,
{
}

/// Once a session serves, nothing that the stack, the producers or the driver
/// report in turn ends it with an error: a transport failure is survived.
pub proof fn lemma_serving_survives_failures(session: SessionModel, event: Event)
    requires
        session.wf(),
        session.serving(),
        event is Peripheral || event is Command || event is Closed || event is AdvertisingStarted
            || event is AdvertisingStopped || event is Delivered,
    ensures
        !session.step(event).0.failed,
        session.step(event).1 !is Exit,
        event is Delivered || event is AdvertisingStopped ==> session.step(event) == (
            session,
            ActionModel::Listen,
        ),
{
}

/// Before the services are registered a failure is fatal: a power query that
/// fails, a source that closes, or a registration that is refused ends the
/// session with an error.
pub proof fn lemma_bring_up_failures_are_fatal(session: SessionModel, event: Event)
    requires
        session.phase == Phase::WaitingForPower || (session.phase == Phase::BringingUp
            && session.registered < SERVICE_COUNT),
        event is Closed || event == (Event::ServiceAdded { ok: false }),
    ensures
        session.step(event).0.phase == Phase::Terminal,
        session.step(event).0.failed,
        session.step(event).1 == (ActionModel::Exit { failed: true }),
{
}

/// Bring-up registers the three services in order and then starts to
/// advertise; the session runs once advertising has started, and waits for
/// the next power event if it has not.
pub proof fn lemma_bring_up_order(session: SessionModel)
    requires
        session.wf(),
        session.phase == Phase::WaitingForPower,
        session.registered == 0,
    ensures
        ({
            let powered = session.step(Event::Power { powered: true });
            let first = powered.0.step(Event::ServiceAdded { ok: true });
            let second = first.0.step(Event::ServiceAdded { ok: true });
            let third = second.0.step(Event::ServiceAdded { ok: true });
            let started = third.0.step(Event::AdvertisingStarted { ok: true });
            let refused = third.0.step(Event::AdvertisingStarted { ok: false });
            let retried = refused.0.step(
                Event::Peripheral(PeripheralEvent::StateUpdate { is_powered: true }),
            );
            &&& powered.1 == ActionModel::AddService(ServiceId::Hid)
            &&& first.1 == ActionModel::AddService(ServiceId::Battery)
            &&& second.1 == ActionModel::AddService(ServiceId::DeviceInformation)
            &&& third.1 == ActionModel::StartAdvertising
            &&& third.0.phase == Phase::BringingUp
            &&& started.0.phase == Phase::Running && started.0.advertising
            &&& started.1 == ActionModel::Listen
            &&& refused.0.phase == Phase::BringingUp && !refused.0.advertising
            &&& refused.1 == ActionModel::Listen
            &&& retried.1 == ActionModel::StartAdvertising
        }),
{
}

/// Nothing is sent on a channel that the peer does not listen on.
pub proof fn lemma_notify_needs_subscription(session: SessionModel, event: Event)
    ensures
        session.step(event).1 matches ActionModel::Notify { channel, bytes } ==> session.serving()
            && session.subscribed(channel) && session.step(event).0.subscribed(channel),
{
}

/// Mouse and keyboard input that arrives while the peer does not listen is
/// dropped: nothing is sent and the state is as if it had never arrived.
pub proof fn lemma_unheard_input_is_dropped(session: SessionModel, cmd: AppCmd)
    requires
        session.serving(),
        is_input_command(cmd),
        !session.input_notify,
    ensures
        session.step(Event::Command(cmd)) == (session, ActionModel::Listen),
{
}

/// Mouse and keyboard input that arrives while the peer listens is sent, one
/// report for each command.
pub proof fn lemma_heard_input_is_sent(session: SessionModel, cmd: AppCmd)
    requires
        session.serving(),
        is_input_command(cmd),
        session.input_notify,
    ensures
        session.step(Event::Command(cmd)).1 matches ActionModel::Notify { channel, bytes }
            && channel == Channel::Input,
        cmd matches AppCmd::Mouse { buttons, dx, dy, wheel } ==> session.step(
            Event::Command(cmd),
        ).1 == (ActionModel::Notify {
            channel: Channel::Input,
            bytes: mouse_report(
                buttons,
                clamped_axis(dx as int),
                clamped_axis(dy as int),
                clamped_axis(wheel as int),
            ),
        }),
        cmd matches AppCmd::KeyDown(usage) ==> session.step(Event::Command(cmd)).1
            == (ActionModel::Notify {
            channel: Channel::Input,
            bytes: session.input.key_transition(usage, true).keyboard_report(),
        }),
        cmd matches AppCmd::KeyUp(usage) ==> session.step(Event::Command(cmd)).1
            == (ActionModel::Notify {
            channel: Channel::Input,
            bytes: session.input.key_transition(usage, false).keyboard_report(),
        }),
{
}

/// No mouse report that is sent carries a motion outside -127 to 127: the
/// axes of a command are sent as they are, except that -128 becomes -127.
pub proof fn lemma_sent_motion_in_range(session: SessionModel, buttons: u8, dx: i8, dy: i8, wheel: i8)
    requires
        session.serving(),
        session.input_notify,
    ensures
        session.step(Event::Command(AppCmd::Mouse { buttons, dx, dy, wheel })).1
            matches ActionModel::Notify { channel, bytes } && bytes.len() == 5 && bytes[0] == 0x01
            && bytes[1] == buttons && -127 <= byte_as_signed(bytes[2]) <= 127 && -127
            <= byte_as_signed(bytes[3]) <= 127 && -127 <= byte_as_signed(bytes[4]) <= 127 && (dx
            != -128 ==> byte_as_signed(bytes[2]) == dx) && (dy != -128 ==> byte_as_signed(bytes[3])
            == dy) && (wheel != -128 ==> byte_as_signed(bytes[4]) == wheel),
{
}

/// The state after a run of events and the actions that were returned, one
/// for each event.
pub open spec fn run(session: SessionModel, events: Seq<Event>) -> (SessionModel, Seq<ActionModel>)
    decreases events.len(),
{
    if events.len() == 0 {
        (session, Seq::empty())
    } else {
        let first = session.step(events.first());
        let rest = run(first.0, events.drop_first());
        (rest.0, seq![first.1] + rest.1)
    }
}

/// Whether an event is mouse or keyboard input that reaches a serving session
/// while the peer does not listen on the input report.
pub open spec fn unheard(session: SessionModel, event: Event) -> bool {
    &&& session.serving()
    &&& !session.input_notify
    &&& event matches Event::Command(cmd)
    &&& is_input_command(cmd)
}

/// The events of a run without the input that was unheard when it arrived.
pub open spec fn heard(session: SessionModel, events: Seq<Event>) -> Seq<Event>
    decreases events.len(),
{
    if events.len() == 0 {
        Seq::empty()
    } else {
        let rest = heard(session.step(events.first()).0, events.drop_first());
        if unheard(session, events.first()) {
            rest
        } else {
            seq![events.first()] + rest
        }
    }
}

/// The notifications among a run of actions, in order.
pub open spec fn notifications(actions: Seq<ActionModel>) -> Seq<ActionModel>
    decreases actions.len(),
{
    if actions.len() == 0 {
        Seq::empty()
    } else {
        let rest = notifications(actions.drop_first());
        if actions.first() is Notify {
            seq![actions.first()] + rest
        } else {
            rest
        }
    }
}

/// Whatever the interleaving of commands and subscription changes, what is
/// sent is exactly what the commands that arrived while the peer listened
/// give rise to: the run without the unheard input sends the same bytes and
/// ends in the same state.
pub proof fn lemma_sent_is_heard(session: SessionModel, events: Seq<Event>)
    ensures
        run(session, heard(session, events)).0 == run(session, events).0,
        notifications(run(session, heard(session, events)).1) == notifications(
            run(session, events).1,
        ),
    decreases events.len(),
{
    if events.len() > 0 {
        let event = events.first();
        let first = session.step(event);
        let later = events.drop_first();
        lemma_sent_is_heard(first.0, later);
        let kept = heard(first.0, later);
        let all = seq![first.1] + run(first.0, later).1;
        assert(all.first() == first.1);
        assert(all.drop_first() =~= run(first.0, later).1);
        if unheard(session, event) {
            assert(first == (session, ActionModel::Listen));
        } else {
            let filtered = seq![event] + kept;
            assert(filtered.first() == event);
            assert(filtered.drop_first() =~= kept);
            let some = seq![first.1] + run(first.0, kept).1;
            assert(some.first() == first.1);
            assert(some.drop_first() =~= run(first.0, kept).1);
        }
    }
}

/// How many of the events of a run are mouse or keyboard input that reaches
/// a serving session while the peer listens on the input report.
pub open spec fn heard_inputs(session: SessionModel, events: Seq<Event>) -> nat
    decreases events.len(),
{
    if events.len() == 0 {
        0
    } else {
        let rest = heard_inputs(session.step(events.first()).0, events.drop_first());
        if session.serving() && session.input_notify && (events.first() matches Event::Command(cmd)
            && is_input_command(cmd)) {
            rest + 1
        } else {
            rest
        }
    }
}

/// How many of a run of actions are notifications on the input report.
pub open spec fn input_reports(actions: Seq<ActionModel>) -> nat
    decreases actions.len(),
{
    if actions.len() == 0 {
        0
    } else {
        let rest = input_reports(actions.drop_first());
        if actions.first() matches ActionModel::Notify { channel, bytes } && channel
            == Channel::Input {
            rest + 1
        } else {
            rest
        }
    }
}

/// Over any run of events, as many input reports are sent as mouse and
/// keyboard commands arrived while the session served and the peer listened:
/// one for each of them, and none for anything else.
pub proof fn lemma_one_report_per_heard_input(session: SessionModel, events: Seq<Event>)
    ensures
        input_reports(run(session, events).1) == heard_inputs(session, events),
    decreases events.len(),
{
    if events.len() > 0 {
        let first = session.step(events.first());
        lemma_one_report_per_heard_input(first.0, events.drop_first());
        let all = seq![first.1] + run(first.0, events.drop_first()).1;
        assert(all.first() == first.1);
        assert(all.drop_first() =~= run(first.0, events.drop_first()).1);
    }
}

/// The same battery level twice in a row is sent at most once: the second
/// command sends nothing and changes nothing. The first is sent exactly when
/// the level differs from the one applied before and the peer listens.
pub proof fn lemma_battery_sent_once(session: SessionModel, level: u8)
    requires
        session.serving(),
    ensures
        ({
            let first = session.step(Event::Command(AppCmd::Battery(level)));
            let second = first.0.step(Event::Command(AppCmd::Battery(level)));
            &&& second == (first.0, ActionModel::Listen)
            &&& first.0.input.battery == limited_level(level)
            &&& if session.battery_notify && limited_level(level) != session.input.battery {
                first.1 == (ActionModel::Notify {
                    channel: Channel::Battery,
                    bytes: seq![limited_level(level)],
                })
            } else {
                first.1 == ActionModel::Listen
            }
        }),
{
}

/// The state of a session that waits for power after `failures` more power
/// queries were answered with no and each delay was waited out.
pub open spec fn after_failed_polls(session: SessionModel, failures: nat) -> SessionModel
    decreases failures,
{
    if failures == 0 {
        session
    } else {
        after_failed_polls(session, (failures - 1) as nat).step(
            Event::Power { powered: false },
        ).0.step(Event::Waited).0
    }
}

/// The delays between power queries start at 50 ms, double after each query
/// that finds no power, and stay at 1000 ms once they have reached it.
pub proof fn lemma_poll_delays(failures: nat)
    ensures
        poll_delay(0) == 50,
        poll_delay(1) == 100,
        poll_delay(2) == 200,
        poll_delay(3) == 400,
        poll_delay(4) == 800,
        failures >= 5 ==> poll_delay(failures) == MAX_POLL_DELAY_MS,
        INITIAL_POLL_DELAY_MS <= poll_delay(failures) <= MAX_POLL_DELAY_MS,
    decreases failures,
{
    reveal_with_fuel(poll_delay, 6);
    if failures > 5 {
        lemma_poll_delays((failures - 1) as nat);
    }
}

/// A session that has begun keeps waiting for power however often the query
/// finds none, and the delay it asks for after a number of failed queries is
/// the one the backoff gives; it asks for the next query after each delay.
pub proof fn lemma_waits_with_backoff(failures: nat)
    ensures
        ({
            let begun = SessionModel::initial().step(Event::Begin);
            let waiting = after_failed_polls(begun.0, failures);
            &&& begun.1 == ActionModel::QueryPower
            &&& waiting.phase == Phase::WaitingForPower
            &&& waiting.delay == poll_delay(failures)
            &&& waiting.step(Event::Power { powered: false }).1 == (ActionModel::Wait {
                millis: poll_delay(failures),
            })
            &&& waiting.step(Event::Power { powered: false }).0.step(Event::Waited).1
                == ActionModel::QueryPower
            &&& waiting.step(Event::Power { powered: true }).1 == ActionModel::AddService(
                ServiceId::Hid,
            )
        }),
    decreases failures,
{
    if failures > 0 {
        lemma_waits_with_backoff((failures - 1) as nat);
    }
}

/// One session of the device.
pub struct Session {
    phase: Phase,
    input: InputState,
    input_notify: bool,
    battery_notify: bool,
    advertising: bool,
    registered: u8,
    delay: u64,
    failed: bool,
}

impl View for Session {
    type V = SessionModel;

    closed spec fn view(&self) -> SessionModel {
        SessionModel {
            phase: self.phase,
            input: self.input@,
            input_notify: self.input_notify,
            battery_notify: self.battery_notify,
            advertising: self.advertising,
            registered: self.registered,
            delay: self.delay,
            failed: self.failed,
        }
    }
}

impl Session {
    /// A session that has not begun.
    pub fn new() -> (session: Session)
        ensures
            session@ == SessionModel::initial(),
            session@.wf(),
    {
        Session {
            phase: Phase::Initializing,
            input: InputState::new(),
            input_notify: false,
            battery_notify: false,
            advertising: false,
            registered: 0,
            delay: INITIAL_POLL_DELAY_MS,
            failed: false,
        }
    }

    /// Where the session stands.
    pub fn phase(&self) -> (phase: Phase)
        ensures
            phase == self@.phase,
    {
        self.phase
    }

    /// Whether the session ended with an error.
    pub fn failed(&self) -> (failed: bool)
        ensures
            failed == self@.failed,
    {
        self.failed
    }

    /// Whether the device advertises.
    pub fn advertising(&self) -> (advertising: bool)
        ensures
            advertising == self@.advertising,
    {
        self.advertising
    }

    /// Whether the peer listens on a channel.
    pub fn subscribed(&self, channel: Channel) -> (listening: bool)
        ensures
            listening == self@.subscribed(channel),
    {
        match channel {
            Channel::Input => self.input_notify,
            Channel::Battery => self.battery_notify,
        }
    }

    /// The tracked keys and battery level.
    pub fn input(&self) -> (input: &InputState)
        ensures
            input@ == self@.input,
    {
        &self.input
    }

    fn abort(&mut self) -> (action: Action)
        ensures
            (final(self)@, action@) == old(self)@.abort(),
    {
        self.phase = Phase::Terminal;
        self.failed = true;
        Action::Exit { failed: true }
    }

    fn shut_down(&mut self) -> (action: Action)
        ensures
            (final(self)@, action@) == old(self)@.shut_down(),
    {
        self.phase = Phase::ShuttingDown;
        self.advertising = false;
        Action::StopAdvertising
    }

    fn bring_up(registered: u8) -> (action: Action)
        ensures
            action@ == bring_up_action(registered),
    {
        if registered == 0 {
            Action::AddService(ServiceId::Hid)
        } else if registered == 1 {
            Action::AddService(ServiceId::Battery)
        } else if registered < SERVICE_COUNT {
            Action::AddService(ServiceId::DeviceInformation)
        } else {
            Action::StartAdvertising
        }
    }

    fn channel(characteristic: u128) -> (channel: Option<Channel>)
        ensures
            channel == channel_of(characteristic),
    {
        if characteristic == short_uuid(UUID_HID_REPORT) {
            Some(Channel::Input)
        } else if characteristic == short_uuid(UUID_BATTERY_LEVEL) {
            Some(Channel::Battery)
        } else {
            None
        }
    }

    /// Serves an event of the peripheral stack.
    pub fn on_peripheral(&mut self, event: PeripheralEvent) -> (action: Action)
        ensures
            (final(self)@, action@) == old(self)@.on_peripheral(event),
            old(self)@.wf() ==> final(self)@.wf(),
    {
        proof {
            if self@.wf() {
                lemma_on_peripheral_wf(self@, event);
            }
        }
        match event {
            PeripheralEvent::StateUpdate { is_powered } => {
                if is_powered && !self.advertising {
                    Action::StartAdvertising
                } else if !is_powered && self.advertising {
                    self.advertising = false;
                    Action::StopAdvertising
                } else {
                    Action::Listen
                }
            },
            PeripheralEvent::CharacteristicSubscriptionUpdate { characteristic, subscribed } => {
                match Self::channel(characteristic) {
                    Some(Channel::Input) => {
                        self.input_notify = subscribed;
                    },
                    Some(Channel::Battery) => {
                        self.battery_notify = subscribed;
                    },
                    None => {},
                }
                Action::Listen
            },
            PeripheralEvent::ReadRequest { characteristic } => {
                let mut value: Vec<u8> = Vec::new();
                match Self::channel(characteristic) {
                    Some(Channel::Battery) => {
                        value.push(self.input.battery());
                        assert(value@ =~= seq![self@.input.battery]);
                    },
                    _ => {
                        assert(value@ =~= Seq::<u8>::empty());
                    },
                }
                Action::ReplyRead { value }
            },
            PeripheralEvent::WriteRequest { characteristic } => Action::ReplyWrite,
        }
    }

    fn on_key(&mut self, usage: u8, is_down: bool) -> (action: Action)
        ensures
            (final(self)@, action@) == old(self)@.on_key(usage, is_down),
    {
        if self.input_notify {
            self.input.apply_key_transition(usage, is_down);
            let report = self.input.snapshot_keyboard_report();
            Action::Notify { channel: Channel::Input, bytes: slice_to_vec(report.as_slice()) }
        } else {
            Action::Listen
        }
    }

    /// Serves a command of an input producer.
    pub fn on_command(&mut self, cmd: AppCmd) -> (action: Action)
        ensures
            (final(self)@, action@) == old(self)@.on_command(cmd),
            old(self)@.wf() && old(self)@.serving() ==> final(self)@.wf(),
    {
        proof {
            if self@.wf() && self@.serving() {
                lemma_on_command_wf(self@, cmd);
            }
        }
        match cmd {
            AppCmd::Mouse { buttons, dx, dy, wheel } => {
                if self.input_notify {
                    let report = build_mouse_report(
                        buttons,
                        clamp_axis(dx as i32),
                        clamp_axis(dy as i32),
                        clamp_axis(wheel as i32),
                    );
                    Action::Notify {
                        channel: Channel::Input,
                        bytes: slice_to_vec(report.as_slice()),
                    }
                } else {
                    Action::Listen
                }
            },
            AppCmd::KeyDown(usage) => self.on_key(usage, true),
            AppCmd::KeyUp(usage) => self.on_key(usage, false),
            AppCmd::Battery(level) => {
                let level = if level > BATTERY_FULL {
                    BATTERY_FULL
                } else {
                    level
                };
                let changed = self.input.apply_battery_reading(level);
                if changed && self.battery_notify {
                    let mut bytes: Vec<u8> = Vec::new();
                    bytes.push(level);
                    assert(bytes@ =~= seq![level]);
                    Action::Notify { channel: Channel::Battery, bytes }
                } else {
                    Action::Listen
                }
            },
            AppCmd::Exit => self.shut_down(),
        }
    }

    fn serve(&mut self, event: Event) -> (action: Action)
        ensures
            (final(self)@, action@) == old(self)@.serve(event),
    {
        match event {
            Event::Peripheral(event) => self.on_peripheral(event),
            Event::Command(cmd) => self.on_command(cmd),
            Event::Closed => self.shut_down(),
            Event::AdvertisingStarted { ok } => {
                if ok {
                    self.phase = Phase::Running;
                    self.advertising = true;
                }
                Action::Listen
            },
            Event::AdvertisingStopped { ok } => Action::Listen,
            Event::Delivered { ok } => Action::Listen,
            _ => self.abort(),
        }
    }

    fn await_power(&mut self, event: Event) -> (action: Action)
        ensures
            (final(self)@, action@) == old(self)@.await_power(event),
    {
        match event {
            Event::Power { powered } => {
                if powered {
                    self.phase = Phase::BringingUp;
                    Self::bring_up(self.registered)
                } else {
                    let millis = self.delay;
                    self.delay = next_poll_delay(self.delay);
                    Action::Wait { millis }
                }
            },
            Event::Waited => Action::QueryPower,
            _ => self.abort(),
        }
    }

    fn register(&mut self, event: Event) -> (action: Action)
        requires
            old(self)@.registered < SERVICE_COUNT,
        ensures
            (final(self)@, action@) == old(self)@.register(event),
    {
        match event {
            Event::ServiceAdded { ok } => {
                if ok {
                    self.registered = self.registered + 1;
                    Self::bring_up(self.registered)
                } else {
                    self.abort()
                }
            },
            _ => self.abort(),
        }
    }

    /// Takes an event and returns what the driver is to do next.
    pub fn step(&mut self, event: Event) -> (action: Action)
        ensures
            (final(self)@, action@) == old(self)@.step(event),
            old(self)@.wf() ==> final(self)@.wf(),
    {
        proof {
            if self@.wf() {
                lemma_step_wf(self@, event);
            }
        }
        match self.phase {
            Phase::Initializing => {
                self.phase = Phase::WaitingForPower;
                Action::QueryPower
            },
            Phase::WaitingForPower => self.await_power(event),
            Phase::BringingUp => {
                if self.registered < SERVICE_COUNT {
                    self.register(event)
                } else {
                    self.serve(event)
                }
            },
            Phase::Running => self.serve(event),
            Phase::ShuttingDown => {
                self.phase = Phase::Terminal;
                Action::Exit { failed: self.failed }
            },
            Phase::Terminal => Action::Exit { failed: self.failed },
        }
    }
}

} // verus!
