use quit_modal::channel::ChannelClosed;
use quit_modal::event::AppEvent;
use quit_modal::input::{
    Event, KeyCode, KeyEvent, KeyEventKind, KeyModifiers, MouseButton, MouseEvent, MouseEventKind,
};
use quit_modal::loop_action::LoopAction;
use quit_modal::modal::quit::{QuitModal, Shortcut};
use quit_modal::modal::Handled;
use tokio::sync::mpsc::error::TryRecvError;
use tokio::sync::mpsc::{unbounded_channel, UnboundedReceiver};

/// The handler's answer when it keeps the event and every signal was heard.
fn kept() -> Result<Handled, ChannelClosed> {
    Ok(Handled { consumed: true, unheard: None })
}

/// The handler's answer when it lets the event through.
fn let_through() -> Result<Handled, ChannelClosed> {
    Ok(Handled { consumed: false, unheard: None })
}

/// The handler's answer when it keeps the event and the closing signal
/// went unheard.
fn kept_unheard() -> Result<Handled, ChannelClosed> {
    Ok(Handled { consumed: true, unheard: Some(AppEvent::CloseCurrentModal) })
}

/// The handler's failure when nobody listened from the start.
fn nobody_listens(event: AppEvent) -> Result<Handled, ChannelClosed> {
    Err(ChannelClosed { event, unheard: Some(AppEvent::CloseCurrentModal) })
}

fn key(code: KeyCode) -> Event {
    Event::Key(KeyEvent::new(code, KeyModifiers::none()))
}

fn key_with(code: KeyCode, modifiers: KeyModifiers) -> Event {
    Event::Key(KeyEvent::new(code, modifiers))
}

fn shift() -> KeyModifiers {
    let mut modifiers = KeyModifiers::none();
    modifiers.shift = true;
    modifiers
}

fn control() -> KeyModifiers {
    let mut modifiers = KeyModifiers::none();
    modifiers.control = true;
    modifiers
}

fn drain(receiver: &mut UnboundedReceiver<AppEvent>) -> Vec<AppEvent> {
    let mut events = Vec::new();
    while let Ok(event) = receiver.try_recv() {
        events.push(event);
    }
    events
}

/// Feeds one event to a fresh modal and returns what it returned, what it
/// sent and whether it asked for a render pass.
fn react(event: Event) -> (Result<Handled, ChannelClosed>, Vec<AppEvent>, bool) {
    let (sender, mut receiver) = unbounded_channel();
    let mut modal = QuitModal::new(sender);
    let mut state = ();
    let mut loop_action = LoopAction::new();
    let consumed = modal.handle_input(&mut state, &mut loop_action, &event);
    (consumed, drain(&mut receiver), loop_action.is_render_requested())
}

#[test]
fn y_closes_then_quits() {
    let (consumed, sent, render) = react(key(KeyCode::Char('y')));
    assert_eq!(consumed, kept());
    assert_eq!(sent, vec![AppEvent::CloseCurrentModal, AppEvent::Quit]);
    assert!(!render);
}

#[test]
fn d_closes_then_detaches() {
    let (consumed, sent, render) = react(key(KeyCode::Char('d')));
    assert_eq!(consumed, kept());
    assert_eq!(sent, vec![AppEvent::CloseCurrentModal, AppEvent::Detach]);
    assert!(!render);
}

#[test]
fn n_closes_and_asks_for_a_render() {
    let (consumed, sent, render) = react(key(KeyCode::Char('n')));
    assert_eq!(consumed, kept());
    assert_eq!(sent, vec![AppEvent::CloseCurrentModal]);
    assert!(render);
}

#[test]
fn escape_closes_and_asks_for_a_render() {
    let (consumed, sent, render) = react(key(KeyCode::Esc));
    assert_eq!(consumed, kept());
    assert_eq!(sent, vec![AppEvent::CloseCurrentModal]);
    assert!(render);
}

#[test]
fn other_keys_are_blocked_in_silence() {
    let codes = vec![
        KeyCode::Char('q'),
        KeyCode::Char('Y'),
        KeyCode::Char('D'),
        KeyCode::Char('N'),
        KeyCode::Char(' '),
        KeyCode::Enter,
        KeyCode::Backspace,
        KeyCode::Tab,
        KeyCode::F(1),
        KeyCode::Up,
        KeyCode::Null,
        KeyCode::Other,
    ];
    for code in codes {
        let (consumed, sent, render) = react(key(code));
        assert_eq!(consumed, kept());
        assert_eq!(sent, vec![]);
        assert!(!render);
    }
}

#[test]
fn modifiers_disable_every_shortcut() {
    let mut all = KeyModifiers::none();
    all.shift = true;
    all.control = true;
    all.alt = true;
    all.super_key = true;
    all.hyper = true;
    all.meta = true;
    let mut alt = KeyModifiers::none();
    alt.alt = true;
    let mut super_key = KeyModifiers::none();
    super_key.super_key = true;
    let mut hyper = KeyModifiers::none();
    hyper.hyper = true;
    let mut meta = KeyModifiers::none();
    meta.meta = true;
    for modifiers in vec![shift(), control(), alt, super_key, hyper, meta, all] {
        for code in vec![KeyCode::Char('y'), KeyCode::Char('d'), KeyCode::Char('n'), KeyCode::Esc] {
            let (consumed, sent, render) = react(key_with(code, modifiers));
            assert_eq!(consumed, kept());
            assert_eq!(sent, vec![]);
            assert!(!render);
        }
    }
}

#[test]
fn shortcuts_fire_on_repeat_and_release_too() {
    for kind in vec![KeyEventKind::Press, KeyEventKind::Repeat, KeyEventKind::Release] {
        let event = Event::Key(KeyEvent {
            code: KeyCode::Char('d'),
            modifiers: KeyModifiers::none(),
            kind,
        });
        let (consumed, sent, render) = react(event);
        assert_eq!(consumed, kept());
        assert_eq!(sent, vec![AppEvent::CloseCurrentModal, AppEvent::Detach]);
        assert!(!render);
    }
}

#[test]
fn mouse_events_are_blocked() {
    let kinds = vec![
        MouseEventKind::Down(MouseButton::Left),
        MouseEventKind::Up(MouseButton::Right),
        MouseEventKind::Drag(MouseButton::Middle),
        MouseEventKind::Moved,
        MouseEventKind::ScrollDown,
        MouseEventKind::ScrollUp,
        MouseEventKind::ScrollLeft,
        MouseEventKind::ScrollRight,
    ];
    for kind in kinds {
        let event =
            Event::Mouse(MouseEvent { kind, column: 3, row: 4, modifiers: KeyModifiers::none() });
        let (consumed, sent, render) = react(event);
        assert_eq!(consumed, kept());
        assert_eq!(sent, vec![]);
        assert!(!render);
    }
}

#[test]
fn paste_is_blocked_whatever_the_text() {
    for text in vec!["", "y", "d", "n", "yes, quit"] {
        let (consumed, sent, render) = react(Event::Paste(String::from(text)));
        assert_eq!(consumed, kept());
        assert_eq!(sent, vec![]);
        assert!(!render);
    }
}

#[test]
fn focus_changes_pass_through() {
    for event in vec![Event::FocusGained, Event::FocusLost] {
        let (consumed, sent, render) = react(event);
        assert_eq!(consumed, let_through());
        assert_eq!(sent, vec![]);
        assert!(!render);
    }
}

#[test]
fn resize_passes_through() {
    for (columns, rows) in vec![(80, 30), (0, 0), (1, 1), (65535, 65535)] {
        let (consumed, sent, render) = react(Event::Resize(columns, rows));
        assert_eq!(consumed, let_through());
        assert_eq!(sent, vec![]);
        assert!(!render);
    }
}

#[test]
fn resize_then_y() {
    let (sender, mut receiver) = unbounded_channel();
    let mut modal = QuitModal::new(sender);
    let mut state = ();
    let mut loop_action = LoopAction::new();

    let first = modal.handle_input(&mut state, &mut loop_action, &Event::Resize(80, 30));
    assert_eq!(first, let_through());
    assert_eq!(receiver.try_recv(), Err(TryRecvError::Empty));

    let second = modal.handle_input(&mut state, &mut loop_action, &key(KeyCode::Char('y')));
    assert_eq!(second, kept());
    assert_eq!(receiver.try_recv(), Ok(AppEvent::CloseCurrentModal));
    assert_eq!(receiver.try_recv(), Ok(AppEvent::Quit));
    assert_eq!(receiver.try_recv(), Err(TryRecvError::Empty));
    assert!(!loop_action.is_render_requested());
}

#[test]
fn signals_arrive_in_the_order_of_the_calls() {
    let (sender, mut receiver) = unbounded_channel();
    let mut modal = QuitModal::new(sender);
    let mut state = ();
    let mut loop_action = LoopAction::new();
    assert_eq!(modal.handle_input(&mut state, &mut loop_action, &key(KeyCode::Esc)), kept());
    assert_eq!(
        modal.handle_input(&mut state, &mut loop_action, &key(KeyCode::Char('d'))),
        kept()
    );
    assert_eq!(
        modal.handle_input(&mut state, &mut loop_action, &key(KeyCode::Char('y'))),
        kept()
    );
    assert_eq!(
        drain(&mut receiver),
        vec![
            AppEvent::CloseCurrentModal,
            AppEvent::CloseCurrentModal,
            AppEvent::Detach,
            AppEvent::CloseCurrentModal,
            AppEvent::Quit,
        ]
    );
}

#[test]
fn the_state_is_left_as_it_is() {
    let (sender, _receiver) = unbounded_channel();
    let mut modal = QuitModal::new(sender);
    let mut state = vec![1u8, 2, 3];
    let mut loop_action = LoopAction::new();
    for event in vec![
        key(KeyCode::Char('y')),
        key(KeyCode::Char('d')),
        key(KeyCode::Esc),
        key(KeyCode::Char('x')),
        Event::FocusGained,
        Event::Resize(10, 10),
    ] {
        let _ = modal.handle_input(&mut state, &mut loop_action, &event);
        assert_eq!(state, vec![1u8, 2, 3]);
    }
}

#[test]
fn a_render_request_is_never_taken_back() {
    let (sender, _receiver) = unbounded_channel();
    let mut modal = QuitModal::new(sender);
    let mut state = ();
    let mut loop_action = LoopAction::new();
    loop_action.render();
    for event in vec![
        key(KeyCode::Char('y')),
        key(KeyCode::Char('x')),
        Event::FocusLost,
        Event::Paste(String::from("n")),
    ] {
        let _ = modal.handle_input(&mut state, &mut loop_action, &event);
        assert!(loop_action.is_render_requested());
    }
}

#[test]
fn quit_fails_when_nobody_listens() {
    let (sender, receiver) = unbounded_channel();
    drop(receiver);
    let mut modal = QuitModal::new(sender);
    let mut state = ();
    let mut loop_action = LoopAction::new();
    let r = modal.handle_input(&mut state, &mut loop_action, &key(KeyCode::Char('y')));
    assert_eq!(r, nobody_listens(AppEvent::Quit));
    assert!(!loop_action.is_render_requested());
}

#[test]
fn detach_fails_when_nobody_listens() {
    let (sender, receiver) = unbounded_channel();
    drop(receiver);
    let mut modal = QuitModal::new(sender);
    let mut state = ();
    let mut loop_action = LoopAction::new();
    let r = modal.handle_input(&mut state, &mut loop_action, &key(KeyCode::Char('d')));
    assert_eq!(r, nobody_listens(AppEvent::Detach));
    assert!(!loop_action.is_render_requested());
}

#[test]
fn cancel_goes_on_when_nobody_listens() {
    let (sender, receiver) = unbounded_channel();
    drop(receiver);
    let mut modal = QuitModal::new(sender);
    let mut state = ();
    let mut loop_action = LoopAction::new();
    for code in vec![KeyCode::Esc, KeyCode::Char('n')] {
        let mut loop_action_here = LoopAction::new();
        let r = modal.handle_input(&mut state, &mut loop_action_here, &key(code));
        assert_eq!(r, kept_unheard());
        assert!(loop_action_here.is_render_requested());
    }
    let r = modal.handle_input(&mut state, &mut loop_action, &key(KeyCode::Char('x')));
    assert_eq!(r, kept());
    let r = modal.handle_input(&mut state, &mut loop_action, &Event::Resize(1, 1));
    assert_eq!(r, let_through());
}

#[test]
fn a_closed_receiver_still_hands_out_what_it_took() {
    let (sender, mut receiver) = unbounded_channel();
    let mut modal = QuitModal::new(sender);
    let mut state = ();
    let mut loop_action = LoopAction::new();
    assert_eq!(modal.handle_input(&mut state, &mut loop_action, &key(KeyCode::Esc)), kept());
    receiver.close();
    let r = modal.handle_input(&mut state, &mut loop_action, &key(KeyCode::Char('y')));
    assert_eq!(r, nobody_listens(AppEvent::Quit));
    assert_eq!(drain(&mut receiver), vec![AppEvent::CloseCurrentModal]);
}

#[test]
fn conclude_goes_by_the_answer() {
    let close = Some(AppEvent::CloseCurrentModal);
    assert_eq!(QuitModal::conclude(None, Ok(())), kept());
    assert_eq!(QuitModal::conclude(close, Ok(())), kept_unheard());
    assert_eq!(
        QuitModal::conclude(None, Err(AppEvent::Quit)),
        Err(ChannelClosed { event: AppEvent::Quit, unheard: None })
    );
    assert_eq!(QuitModal::conclude(close, Err(AppEvent::Quit)), nobody_listens(AppEvent::Quit));
    assert_eq!(
        QuitModal::conclude(None, Err(AppEvent::Detach)),
        Err(ChannelClosed { event: AppEvent::Detach, unheard: None })
    );
    assert_eq!(
        QuitModal::conclude(close, Err(AppEvent::Detach)),
        nobody_listens(AppEvent::Detach)
    );
}

#[test]
fn once_refused_is_refused_for_good() {
    let (sender, mut receiver) = unbounded_channel();
    let mut modal = QuitModal::new(sender);
    let mut state = ();
    let mut loop_action = LoopAction::new();
    assert_eq!(modal.handle_input(&mut state, &mut loop_action, &key(KeyCode::Esc)), kept());
    receiver.close();
    for _ in 0..3 {
        let r = modal.handle_input(&mut state, &mut loop_action, &key(KeyCode::Char('n')));
        assert_eq!(r, kept_unheard());
        let r = modal.handle_input(&mut state, &mut loop_action, &key(KeyCode::Char('d')));
        assert_eq!(r, nobody_listens(AppEvent::Detach));
        let r = modal.handle_input(&mut state, &mut loop_action, &key(KeyCode::Char('x')));
        assert_eq!(r, kept());
    }
    assert_eq!(drain(&mut receiver), vec![AppEvent::CloseCurrentModal]);
}

#[test]
fn shortcut_reads_the_table() {
    assert_eq!(QuitModal::shortcut(&key(KeyCode::Char('y'))), Some(Shortcut::Quit));
    assert_eq!(QuitModal::shortcut(&key(KeyCode::Char('d'))), Some(Shortcut::Detach));
    assert_eq!(QuitModal::shortcut(&key(KeyCode::Char('n'))), Some(Shortcut::Cancel));
    assert_eq!(QuitModal::shortcut(&key(KeyCode::Esc)), Some(Shortcut::Cancel));
    assert_eq!(QuitModal::shortcut(&key(KeyCode::Char('q'))), None);
    assert_eq!(QuitModal::shortcut(&key_with(KeyCode::Char('y'), shift())), None);
    assert_eq!(QuitModal::shortcut(&key_with(KeyCode::Esc, control())), None);
    assert_eq!(QuitModal::shortcut(&Event::Paste(String::from("y"))), None);
    assert_eq!(QuitModal::shortcut(&Event::FocusGained), None);
    assert_eq!(QuitModal::shortcut(&Event::Resize(80, 30)), None);
}

#[test]
fn blocks_tells_input_from_the_rest() {
    assert!(QuitModal::blocks(&key(KeyCode::Char('y'))));
    assert!(QuitModal::blocks(&key_with(KeyCode::Char('y'), shift())));
    assert!(QuitModal::blocks(&key(KeyCode::Home)));
    assert!(QuitModal::blocks(&Event::Paste(String::new())));
    assert!(QuitModal::blocks(&Event::Mouse(MouseEvent {
        kind: MouseEventKind::Moved,
        column: 0,
        row: 0,
        modifiers: KeyModifiers::none(),
    })));
    assert!(!QuitModal::blocks(&Event::FocusGained));
    assert!(!QuitModal::blocks(&Event::FocusLost));
    assert!(!QuitModal::blocks(&Event::Resize(80, 30)));
}

#[test]
fn no_modifier_is_the_empty_set() {
    assert!(KeyModifiers::none().is_empty());
    assert!(!shift().is_empty());
    assert!(!control().is_empty());
    let pressed = KeyEvent::new(KeyCode::Char('y'), KeyModifiers::none());
    assert_eq!(pressed.kind, KeyEventKind::Press);
    assert_eq!(pressed.code, KeyCode::Char('y'));
    assert_eq!(pressed.modifiers, KeyModifiers::none());
}

#[test]
fn loop_action_starts_idle() {
    let mut loop_action = LoopAction::new();
    assert!(!loop_action.is_render_requested());
    loop_action.render();
    assert!(loop_action.is_render_requested());
    loop_action.render();
    assert!(loop_action.is_render_requested());
}
