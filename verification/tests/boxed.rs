use quit_modal::channel::ChannelClosed;
use quit_modal::event::AppEvent;
use quit_modal::input::{Event, KeyCode, KeyEvent, KeyModifiers};
use quit_modal::layout::Area;
use quit_modal::loop_action::LoopAction;
use quit_modal::modal::quit::QuitModal;
use quit_modal::modal::{BoxedModal, Handled, Modal};
use ratatui::buffer::Buffer;
use ratatui::layout::Rect;
use tokio::sync::mpsc::error::TryRecvError;
use tokio::sync::mpsc::unbounded_channel;

fn kept() -> Result<Handled, ChannelClosed> {
    Ok(Handled { consumed: true, unheard: None })
}

fn let_through() -> Result<Handled, ChannelClosed> {
    Ok(Handled { consumed: false, unheard: None })
}

fn press(c: char) -> Event {
    Event::Key(KeyEvent::new(KeyCode::Char(c), KeyModifiers::none()))
}

#[test]
fn a_boxed_modal_handles_input_as_before() {
    let (sender, mut receiver) = unbounded_channel();
    let mut slot: BoxedModal<u32> = QuitModal::new(sender).boxed();
    let mut state: u32 = 41;
    let mut loop_action = LoopAction::new();

    assert_eq!(slot.modal.handle_input(&mut state, &mut loop_action, &Event::Resize(80, 30)), let_through());
    assert_eq!(receiver.try_recv(), Err(TryRecvError::Empty));
    assert_eq!(slot.modal.handle_input(&mut state, &mut loop_action, &press('y')), kept());
    assert_eq!(receiver.try_recv(), Ok(AppEvent::CloseCurrentModal));
    assert_eq!(receiver.try_recv(), Ok(AppEvent::Quit));
    assert_eq!(receiver.try_recv(), Err(TryRecvError::Empty));
    assert!(!loop_action.is_render_requested());
    assert_eq!(slot.modal.handle_input(&mut state, &mut loop_action, &press('n')), kept());
    assert_eq!(receiver.try_recv(), Ok(AppEvent::CloseCurrentModal));
    assert!(loop_action.is_render_requested());
    assert_eq!(state, 41);
}

#[test]
fn a_boxed_modal_fails_as_before() {
    let (sender, receiver) = unbounded_channel();
    drop(receiver);
    let mut slot: BoxedModal<()> = QuitModal::new(sender).boxed();
    let mut loop_action = LoopAction::new();
    assert_eq!(
        slot.modal.handle_input(&mut (), &mut loop_action, &press('d')),
        Err(ChannelClosed {
            event: AppEvent::Detach,
            unheard: Some(AppEvent::CloseCurrentModal),
        })
    );
}

#[test]
fn a_boxed_modal_has_its_size_and_place() {
    let (sender, _receiver) = unbounded_channel();
    let mut slot: BoxedModal<()> = QuitModal::new(sender).boxed();
    assert_eq!(slot.modal.get_size(), (36, 5));
    assert_eq!(
        slot.modal.area(Area { x: 0, y: 0, width: 100, height: 40 }),
        Area { x: 32, y: 17, width: 36, height: 5 }
    );
    assert_eq!(
        slot.modal.area(Area { x: 2, y: 3, width: 10, height: 4 }),
        Area { x: 2, y: 3, width: 10, height: 4 }
    );
}

#[test]
fn a_boxed_modal_draws_as_before() {
    let (sender, _receiver) = unbounded_channel();
    let mut plain = QuitModal::new(sender);
    let (sender, _receiver) = unbounded_channel();
    let mut slot: BoxedModal<()> = QuitModal::new(sender).boxed();
    let mut by_plain = Buffer::empty(Rect::new(0, 0, 100, 40));
    let mut by_slot = by_plain.clone();
    plain.render(&mut by_plain);
    slot.modal.render(&mut by_slot);
    assert_eq!(by_plain, by_slot);
    assert_eq!(by_slot.get(32, 17).symbol, "┌");
    assert_eq!(by_slot.get(34, 18).symbol, "y");
}

#[test]
fn the_trait_and_the_type_agree() {
    let (sender, mut receiver) = unbounded_channel();
    let mut modal = QuitModal::new(sender);
    let mut state = ();
    let mut loop_action = LoopAction::new();
    assert_eq!(Modal::<()>::get_size(&mut modal), (36, 5));
    assert_eq!(
        Modal::<()>::area(&mut modal, Area { x: 0, y: 0, width: 37, height: 6 }),
        modal.area(Area { x: 0, y: 0, width: 37, height: 6 })
    );
    assert_eq!(Modal::handle_input(&mut modal, &mut state, &mut loop_action, &press('d')), kept());
    assert_eq!(receiver.try_recv(), Ok(AppEvent::CloseCurrentModal));
    assert_eq!(receiver.try_recv(), Ok(AppEvent::Detach));
}
