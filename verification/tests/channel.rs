use global_hotkey::channel::EventChannel;
use global_hotkey::GlobalHotKeyEvent;
use global_hotkey::HotKeyState;

fn pressed(id: u32) -> GlobalHotKeyEvent {
    GlobalHotKeyEvent { id, state: HotKeyState::Pressed }
}

fn released(id: u32) -> GlobalHotKeyEvent {
    GlobalHotKeyEvent { id, state: HotKeyState::Released }
}

fn drain(channel: &mut EventChannel, listener: usize) -> Vec<GlobalHotKeyEvent> {
    let mut events = Vec::new();
    while let Some(event) = channel.try_recv(listener) {
        events.push(event);
    }
    events
}

#[test]
fn a_new_channel_has_no_listener() {
    let mut channel = EventChannel::new();
    assert_eq!(channel.listeners(), 0);
    assert_eq!(channel.try_recv(0), None);
    assert_eq!(channel.waiting_for(0), None);
    channel.send(pressed(1));
    channel.detach(3);
    assert_eq!(channel.listeners(), 0);
}

#[test]
fn a_listener_gets_what_is_sent_in_the_order_sent() {
    let mut channel = EventChannel::new();
    let listener = channel.attach();
    assert_eq!(listener, 0);
    assert_eq!(channel.try_recv(listener), None);
    channel.send(pressed(7));
    channel.send(released(7));
    channel.send(pressed(9));
    assert_eq!(channel.waiting_for(listener), Some(3));
    assert_eq!(channel.try_recv(listener), Some(pressed(7)));
    assert_eq!(channel.try_recv(listener), Some(released(7)));
    assert_eq!(channel.waiting_for(listener), Some(1));
    assert_eq!(channel.try_recv(listener), Some(pressed(9)));
    assert_eq!(channel.try_recv(listener), None);
    assert_eq!(channel.waiting_for(listener), Some(0));
}

#[test]
fn every_listener_gets_every_event() {
    let mut channel = EventChannel::new();
    let first = channel.attach();
    let second = channel.attach();
    let sent = vec![pressed(1), released(1), pressed(2), released(2)];
    for event in &sent {
        channel.send(*event);
    }
    assert_eq!(channel.try_recv(first), Some(pressed(1)));
    assert_eq!(drain(&mut channel, second), sent);
    assert_eq!(drain(&mut channel, first), sent[1..]);
}

#[test]
fn a_listener_gets_only_what_is_sent_after_it_attached() {
    let mut channel = EventChannel::new();
    channel.send(pressed(1));
    let early = channel.attach();
    channel.send(pressed(2));
    let late = channel.attach();
    channel.send(pressed(3));
    assert_eq!(late, 1);
    assert_eq!(drain(&mut channel, late), vec![pressed(3)]);
    assert_eq!(drain(&mut channel, early), vec![pressed(2), pressed(3)]);
}

#[test]
fn a_detached_listener_gets_nothing() {
    let mut channel = EventChannel::new();
    let gone = channel.attach();
    let stays = channel.attach();
    channel.send(pressed(1));
    channel.detach(gone);
    channel.send(pressed(2));
    assert_eq!(channel.try_recv(gone), None);
    assert_eq!(channel.waiting_for(gone), None);
    assert_eq!(drain(&mut channel, stays), vec![pressed(1), pressed(2)]);
    channel.detach(gone);
    assert_eq!(channel.listeners(), 2);
    let next = channel.attach();
    assert_eq!(next, 2);
    channel.send(released(2));
    assert_eq!(drain(&mut channel, next), vec![released(2)]);
    assert_eq!(drain(&mut channel, stays), vec![released(2)]);
}

#[test]
fn a_slow_listener_holds_nothing_back_for_the_others() {
    let mut channel = EventChannel::new();
    let slow = channel.attach();
    let quick = channel.attach();
    for round in 0..100 {
        channel.send(pressed(round));
        assert_eq!(channel.try_recv(quick), Some(pressed(round)));
        assert_eq!(channel.try_recv(quick), None);
        assert_eq!(channel.waiting_for(slow), Some(round as usize + 1));
    }
    for round in 0..100 {
        assert_eq!(channel.try_recv(slow), Some(pressed(round)));
    }
    assert_eq!(channel.try_recv(slow), None);
}
