use bluper::gatt::short_uuid;
use bluper::session::{
    next_poll_delay, Action, Channel, Event, PeripheralEvent, Phase, ServiceId, Session,
};
use bluper::ui::AppCmd;

const INPUT: u16 = 0x2A4D;
const BATTERY: u16 = 0x2A19;

fn running() -> Session {
    let mut s = Session::new();
    assert_eq!(s.step(Event::Begin), Action::QueryPower);
    assert_eq!(s.step(Event::Power { powered: true }), Action::AddService(ServiceId::Hid));
    assert_eq!(s.step(Event::ServiceAdded { ok: true }), Action::AddService(ServiceId::Battery));
    assert_eq!(
        s.step(Event::ServiceAdded { ok: true }),
        Action::AddService(ServiceId::DeviceInformation)
    );
    assert_eq!(s.step(Event::ServiceAdded { ok: true }), Action::StartAdvertising);
    assert_eq!(s.step(Event::AdvertisingStarted { ok: true }), Action::Listen);
    s
}

fn subscribe(s: &mut Session, short: u16, subscribed: bool) {
    let event = PeripheralEvent::CharacteristicSubscriptionUpdate {
        characteristic: short_uuid(short),
        subscribed,
    };
    assert_eq!(s.step(Event::Peripheral(event)), Action::Listen);
}

fn input_bytes(action: Action) -> Vec<u8> {
    match action {
        Action::Notify { channel: Channel::Input, bytes } => bytes,
        other => panic!("expected an input notification, got {:?}", other),
    }
}

#[test]
fn new_session_is_initializing() {
    let s = Session::new();
    assert_eq!(s.phase(), Phase::Initializing);
    assert!(!s.failed());
    assert!(!s.advertising());
    assert!(!s.subscribed(Channel::Input));
    assert!(!s.subscribed(Channel::Battery));
    assert_eq!(s.input().battery(), 0);
}

#[test]
fn bring_up_reaches_running() {
    let s = running();
    assert_eq!(s.phase(), Phase::Running);
    assert!(s.advertising());
    assert!(!s.failed());
}

#[test]
fn power_poll_backs_off_and_caps() {
    let mut s = Session::new();
    assert_eq!(s.step(Event::Begin), Action::QueryPower);
    assert_eq!(s.phase(), Phase::WaitingForPower);
    let mut delays = Vec::new();
    for _ in 0..8 {
        match s.step(Event::Power { powered: false }) {
            Action::Wait { millis } => delays.push(millis),
            other => panic!("expected a wait, got {:?}", other),
        }
        assert_eq!(s.step(Event::Waited), Action::QueryPower);
        assert_eq!(s.phase(), Phase::WaitingForPower);
    }
    assert_eq!(delays, vec![50, 100, 200, 400, 800, 1000, 1000, 1000]);
    assert_eq!(s.step(Event::Power { powered: true }), Action::AddService(ServiceId::Hid));
    assert_eq!(s.phase(), Phase::BringingUp);
}

#[test]
fn next_poll_delay_doubles_up_to_the_cap() {
    assert_eq!(next_poll_delay(50), 100);
    assert_eq!(next_poll_delay(400), 800);
    assert_eq!(next_poll_delay(499), 998);
    assert_eq!(next_poll_delay(500), 1000);
    assert_eq!(next_poll_delay(800), 1000);
    assert_eq!(next_poll_delay(1000), 1000);
    assert_eq!(next_poll_delay(u64::MAX), 1000);
    assert_eq!(next_poll_delay(0), 0);
}

#[test]
fn failed_power_query_ends_the_session_with_an_error() {
    let mut s = Session::new();
    s.step(Event::Begin);
    assert_eq!(s.step(Event::Closed), Action::Exit { failed: true });
    assert_eq!(s.phase(), Phase::Terminal);
    assert!(s.failed());
    assert_eq!(s.step(Event::Power { powered: true }), Action::Exit { failed: true });
}

#[test]
fn failed_registration_ends_the_session_with_an_error() {
    let mut s = Session::new();
    s.step(Event::Begin);
    s.step(Event::Power { powered: true });
    s.step(Event::ServiceAdded { ok: true });
    assert_eq!(s.step(Event::ServiceAdded { ok: false }), Action::Exit { failed: true });
    assert_eq!(s.phase(), Phase::Terminal);
    assert!(s.failed());
}

#[test]
fn failed_advertising_is_retried_on_power_event() {
    let mut s = Session::new();
    s.step(Event::Begin);
    s.step(Event::Power { powered: true });
    s.step(Event::ServiceAdded { ok: true });
    s.step(Event::ServiceAdded { ok: true });
    assert_eq!(s.step(Event::ServiceAdded { ok: true }), Action::StartAdvertising);
    assert_eq!(s.step(Event::AdvertisingStarted { ok: false }), Action::Listen);
    assert_eq!(s.phase(), Phase::BringingUp);
    assert!(!s.advertising());
    assert!(!s.failed());
    let powered = Event::Peripheral(PeripheralEvent::StateUpdate { is_powered: true });
    assert_eq!(s.step(powered), Action::StartAdvertising);
    assert_eq!(s.step(Event::AdvertisingStarted { ok: true }), Action::Listen);
    assert_eq!(s.phase(), Phase::Running);
    assert!(s.advertising());
}

#[test]
fn power_changes_toggle_advertising() {
    let mut s = running();
    let on = Event::Peripheral(PeripheralEvent::StateUpdate { is_powered: true });
    let off = Event::Peripheral(PeripheralEvent::StateUpdate { is_powered: false });
    assert_eq!(s.step(on), Action::Listen);
    assert_eq!(s.step(off), Action::StopAdvertising);
    assert!(!s.advertising());
    assert_eq!(s.step(Event::AdvertisingStopped { ok: false }), Action::Listen);
    assert_eq!(s.step(off), Action::Listen);
    assert_eq!(s.step(on), Action::StartAdvertising);
    assert_eq!(s.step(Event::AdvertisingStarted { ok: false }), Action::Listen);
    assert!(!s.advertising());
    assert_eq!(s.step(on), Action::StartAdvertising);
    assert_eq!(s.step(Event::AdvertisingStarted { ok: true }), Action::Listen);
    assert!(s.advertising());
    assert_eq!(s.phase(), Phase::Running);
}

#[test]
fn subscription_updates_set_the_matching_flag() {
    let mut s = running();
    subscribe(&mut s, INPUT, true);
    assert!(s.subscribed(Channel::Input));
    assert!(!s.subscribed(Channel::Battery));
    subscribe(&mut s, BATTERY, true);
    assert!(s.subscribed(Channel::Battery));
    subscribe(&mut s, INPUT, false);
    assert!(!s.subscribed(Channel::Input));
    subscribe(&mut s, 0x2A4B, true);
    assert!(!s.subscribed(Channel::Input));
    assert!(s.subscribed(Channel::Battery));
    let foreign = PeripheralEvent::CharacteristicSubscriptionUpdate {
        characteristic: 0x2A4D,
        subscribed: true,
    };
    assert_eq!(s.step(Event::Peripheral(foreign)), Action::Listen);
    assert!(!s.subscribed(Channel::Input));
}

#[test]
fn requests_are_answered_with_success() {
    let mut s = running();
    s.step(Event::Command(AppCmd::Battery(77)));
    let read = |short: u16| Event::Peripheral(PeripheralEvent::ReadRequest {
        characteristic: short_uuid(short),
    });
    assert_eq!(s.step(read(BATTERY)), Action::ReplyRead { value: vec![77] });
    assert_eq!(s.step(Event::Delivered { ok: true }), Action::Listen);
    assert_eq!(s.step(read(INPUT)), Action::ReplyRead { value: vec![] });
    let write = Event::Peripheral(PeripheralEvent::WriteRequest {
        characteristic: short_uuid(0x2A4C),
    });
    assert_eq!(s.step(write), Action::ReplyWrite);
    assert_eq!(s.step(Event::Delivered { ok: false }), Action::Listen);
    assert_eq!(s.phase(), Phase::Running);
}

#[test]
fn press_a_then_shift_then_release_a() {
    let mut s = running();
    subscribe(&mut s, INPUT, true);
    let first = s.step(Event::Command(AppCmd::KeyDown(0x04)));
    assert_eq!(input_bytes(first), vec![0x02, 0, 0, 0x04, 0, 0, 0, 0, 0]);
    let second = s.step(Event::Command(AppCmd::KeyDown(0xE1)));
    assert_eq!(input_bytes(second), vec![0x02, 0x02, 0, 0x04, 0, 0, 0, 0, 0]);
    let third = s.step(Event::Command(AppCmd::KeyUp(0x04)));
    assert_eq!(input_bytes(third), vec![0x02, 0x02, 0, 0, 0, 0, 0, 0, 0]);
}

#[test]
fn seven_key_downs_keep_the_last_six() {
    let mut s = running();
    subscribe(&mut s, INPUT, true);
    let mut last = Vec::new();
    for usage in 0x04u8..=0x0A {
        last = input_bytes(s.step(Event::Command(AppCmd::KeyDown(usage))));
        assert_eq!(last.len(), 9);
        assert!(s.input().pressed().len() <= 6);
    }
    assert_eq!(s.input().pressed(), vec![0x05, 0x06, 0x07, 0x08, 0x09, 0x0A]);
    assert_eq!(last, vec![0x02, 0, 0, 0x05, 0x06, 0x07, 0x08, 0x09, 0x0A]);
}

#[test]
fn mouse_command_is_sent_when_subscribed() {
    let mut s = running();
    subscribe(&mut s, INPUT, true);
    let cmd = AppCmd::Mouse { buttons: 0b101, dx: -10, dy: 5, wheel: 1 };
    assert_eq!(input_bytes(s.step(Event::Command(cmd))), vec![0x01, 0b101, 246, 5, 1]);
    assert_eq!(s.step(Event::Delivered { ok: false }), Action::Listen);
    assert_eq!(s.phase(), Phase::Running);
}

#[test]
fn mouse_report_never_carries_minus_128() {
    let mut s = running();
    subscribe(&mut s, INPUT, true);
    let cmd = AppCmd::Mouse { buttons: 0, dx: -128, dy: -128, wheel: -128 };
    assert_eq!(input_bytes(s.step(Event::Command(cmd))), vec![0x01, 0, 129, 129, 129]);
}

#[test]
fn input_is_dropped_while_unsubscribed() {
    let mut s = running();
    assert_eq!(s.step(Event::Command(AppCmd::KeyDown(0x04))), Action::Listen);
    let cmd = AppCmd::Mouse { buttons: 1, dx: 1, dy: 1, wheel: 0 };
    assert_eq!(s.step(Event::Command(cmd)), Action::Listen);
    assert_eq!(s.input().pressed(), Vec::<u8>::new());
    subscribe(&mut s, INPUT, true);
    let sent = input_bytes(s.step(Event::Command(AppCmd::KeyDown(0x05))));
    assert_eq!(sent, vec![0x02, 0, 0, 0x05, 0, 0, 0, 0, 0]);
}

#[test]
fn bytes_sent_are_those_of_commands_heard() {
    let keys = [0x04u8, 0x05, 0x06, 0x07, 0x08];
    let listening = [false, true, true, false, true];
    let mut s = running();
    let mut heard = running();
    subscribe(&mut heard, INPUT, true);
    let mut sent = Vec::new();
    let mut expected = Vec::new();
    for (usage, on) in keys.iter().zip(listening.iter()) {
        subscribe(&mut s, INPUT, *on);
        if let Action::Notify { bytes, .. } = s.step(Event::Command(AppCmd::KeyDown(*usage))) {
            sent.push(bytes);
        }
        if *on {
            expected.push(input_bytes(heard.step(Event::Command(AppCmd::KeyDown(*usage)))));
        }
    }
    assert_eq!(sent.len(), 3);
    assert_eq!(sent, expected);
    assert_eq!(s.input().pressed(), vec![0x05, 0x06, 0x08]);
}

#[test]
fn battery_level_is_sent_once() {
    let mut s = running();
    subscribe(&mut s, BATTERY, true);
    assert_eq!(
        s.step(Event::Command(AppCmd::Battery(80))),
        Action::Notify { channel: Channel::Battery, bytes: vec![80] }
    );
    assert_eq!(s.step(Event::Command(AppCmd::Battery(80))), Action::Listen);
    assert_eq!(
        s.step(Event::Command(AppCmd::Battery(79))),
        Action::Notify { channel: Channel::Battery, bytes: vec![79] }
    );
    assert_eq!(s.input().battery(), 79);
}

#[test]
fn battery_level_is_applied_but_not_sent_while_unsubscribed() {
    let mut s = running();
    assert_eq!(s.step(Event::Command(AppCmd::Battery(80))), Action::Listen);
    assert_eq!(s.input().battery(), 80);
    subscribe(&mut s, BATTERY, true);
    assert_eq!(s.step(Event::Command(AppCmd::Battery(80))), Action::Listen);
    assert_eq!(s.step(Event::Command(AppCmd::Battery(0))),
        Action::Notify { channel: Channel::Battery, bytes: vec![0] });
}

#[test]
fn battery_level_is_limited_to_one_hundred() {
    let mut s = running();
    subscribe(&mut s, BATTERY, true);
    assert_eq!(
        s.step(Event::Command(AppCmd::Battery(200))),
        Action::Notify { channel: Channel::Battery, bytes: vec![100] }
    );
    assert_eq!(s.step(Event::Command(AppCmd::Battery(255))), Action::Listen);
    assert_eq!(s.input().battery(), 100);
}

#[test]
fn exit_command_shuts_down() {
    let mut s = running();
    assert_eq!(s.step(Event::Command(AppCmd::Exit)), Action::StopAdvertising);
    assert_eq!(s.phase(), Phase::ShuttingDown);
    assert!(!s.advertising());
    assert_eq!(s.step(Event::AdvertisingStopped { ok: false }), Action::Exit { failed: false });
    assert_eq!(s.phase(), Phase::Terminal);
    assert!(!s.failed());
    assert_eq!(s.step(Event::Command(AppCmd::KeyDown(4))), Action::Exit { failed: false });
}

#[test]
fn closed_source_shuts_down() {
    let mut s = running();
    assert_eq!(s.step(Event::Closed), Action::StopAdvertising);
    assert_eq!(s.step(Event::AdvertisingStopped { ok: true }), Action::Exit { failed: false });
    assert_eq!(s.phase(), Phase::Terminal);
    assert!(!s.failed());
}

#[test]
fn event_out_of_turn_ends_the_session_with_an_error() {
    let mut s = running();
    assert_eq!(s.step(Event::Waited), Action::Exit { failed: true });
    assert!(s.failed());
    let mut s = Session::new();
    s.step(Event::Begin);
    assert_eq!(s.step(Event::Command(AppCmd::KeyDown(4))), Action::Exit { failed: true });
    let mut s = Session::new();
    s.step(Event::Begin);
    s.step(Event::Power { powered: true });
    assert_eq!(s.step(Event::AdvertisingStarted { ok: true }), Action::Exit { failed: true });
}

#[test]
fn handlers_can_be_called_directly() {
    let mut s = Session::new();
    let update = PeripheralEvent::CharacteristicSubscriptionUpdate {
        characteristic: short_uuid(INPUT),
        subscribed: true,
    };
    assert_eq!(s.on_peripheral(update), Action::Listen);
    assert_eq!(
        s.on_command(AppCmd::KeyDown(0xE7)),
        Action::Notify { channel: Channel::Input, bytes: vec![0x02, 0x80, 0, 0, 0, 0, 0, 0, 0] }
    );
    assert_eq!(s.on_command(AppCmd::Exit), Action::StopAdvertising);
}
