//! The modal that asks whether to quit, to detach or to carry on.
//!
//! While it is shown it takes every key, mouse and paste event. Three keys,
//! pressed without a modifier, decide: `y` quits, `d` detaches, `n` or Escape
//! cancels. Each decision tells the main loop to close the modal, and the
//! first two then tell it what to do next.

use vstd::prelude::*;
use crate::canvas::{
    area_of, cleared, draw_clear, draw_panel, draw_text, extent, framed, is_well_formed,
    lettered, printable_text, same_shape, screen, short_text, texts, well_formed, Cell, Screen,
};
use crate::channel::{delivered, refused, send, ChannelClosed};
use crate::event::AppEvent;
use crate::input::{Event, KeyCode};
use crate::layout::Area;
use crate::loop_action::LoopAction;
use crate::modal::{done, failed, settles, BoxedModal, Handled, Modal};
use ratatui::buffer::Buffer;
use tokio::sync::mpsc::UnboundedSender;

verus! {

/// The width that the modal asks for, in cells.
pub const WIDTH: u16 = 36;

/// The height that the modal asks for, in cells.
pub const HEIGHT: u16 = 5;

/// What the user can decide in the dialog.
#[derive(Clone, Copy, Debug, PartialEq, Eq, Structural)]
pub enum Shortcut {
    /// End the application.
    Quit,
    /// Leave the session running.
    Detach,
    /// Carry on as before.
    Cancel,
}

/// The decision that `event` stands for, if any: a key without modifiers
/// that is `y`, `d`, `n` or Escape. Whether the key was pressed, repeated or
/// released makes no difference.
pub open spec fn shortcut_of(event: Event) -> Option<Shortcut> {
    match event {
        Event::Key(key) => if key.modifiers.is_empty() {
            match key.code {
                KeyCode::Char(c) => if c == 'y' {
                    Some(Shortcut::Quit)
                } else if c == 'd' {
                    Some(Shortcut::Detach)
                } else if c == 'n' {
                    Some(Shortcut::Cancel)
                } else {
                    None
                },
                KeyCode::Esc => Some(Shortcut::Cancel),
                _ => None,
            }
        } else {
            None
        },
        _ => None,
    }
}

/// The signals that the modal sends for `event`, in the order in which it
/// sends them.
pub open spec fn emitted(event: Event) -> Seq<AppEvent> {
    match shortcut_of(event) {
        Some(Shortcut::Quit) => seq![AppEvent::CloseCurrentModal, AppEvent::Quit],
        Some(Shortcut::Detach) => seq![AppEvent::CloseCurrentModal, AppEvent::Detach],
        Some(Shortcut::Cancel) => seq![AppEvent::CloseCurrentModal],
        None => Seq::empty(),
    }
}

/// Whether the modal keeps `event` from the rest of the application: it
/// keeps all input, and lets through what tells of the terminal itself.
pub open spec fn consumed(event: Event) -> bool {
    event is Key || event is Mouse || event is Paste
}

/// Whether the modal asks for another render pass on `event`.
pub open spec fn requests_render(event: Event) -> bool {
    shortcut_of(event) == Some(Shortcut::Cancel)
}

/// What the handler returns for the channel's answer to a signal that has to
/// arrive, after `unheard`, if any, went unheard.
pub open spec fn conclusion(
    unheard: Option<AppEvent>,
    answer: Result<(), AppEvent>,
) -> Result<Handled, ChannelClosed> {
    match answer {
        Ok(()) => done(true, unheard),
        Err(event) => failed(event, unheard),
    }
}

/// The three lines that the modal shows: the key to quit, the key to
/// detach, a key to cancel.
pub open spec fn legend_spec() -> Seq<Seq<char>> {
    seq!["<y> - quit"@, "<d> - detach"@, "<Escape> - cancel"@]
}

/// Where the modal is drawn in a frame: in the middle, as large as it asks
/// for or as the frame allows.
pub open spec fn region(frame: Area) -> Area {
    frame.centered_spec(WIDTH, HEIGHT)
}

/// Where the modal's text is drawn in a frame: one cell in from the edge of
/// the region on every side, three rows high or as many as there are.
pub open spec fn text_area(frame: Area) -> Area {
    let inner = region(frame).inner_spec(1, 1);
    Area {
        x: inner.x,
        y: inner.y,
        width: inner.width,
        height: if inner.height < 3 {
            inner.height
        } else {
            3
        },
    }
}

/// What a frame shows once the modal is drawn over `before`: the region
/// reset, a border drawn around it, the text area reset once more, and the
/// three lines written into it.
pub open spec fn painted(before: Screen, frame: Area) -> Screen {
    lettered(
        cleared(framed(cleared(before, region(frame)), region(frame)), text_area(frame)),
        text_area(frame),
        legend_spec(),
    )
}

/// The confirmation dialog. All it holds is its end of the channel to the
/// main loop.
pub struct QuitModal {
    app_sender: UnboundedSender<AppEvent>,
}

impl QuitModal {
    /// The signals that the channel has taken from this modal's sender,
    /// oldest first.
    pub closed spec fn sent(&self) -> Seq<AppEvent> {
        delivered(self.app_sender)
    }

    /// Whether the channel has refused a signal from this modal's sender.
    /// Once it has, it takes no signal from the modal any more.
    pub closed spec fn shut(&self) -> bool {
        refused(self.app_sender)
    }

    /// A modal that reports over `app_sender`.
    pub fn new(app_sender: UnboundedSender<AppEvent>) -> (r: QuitModal)
        ensures
            r.sent() == delivered(app_sender),
            r.shut() == refused(app_sender),
    {
        QuitModal { app_sender }
    }

    /// Moves the modal to the heap and forgets its kind. What is in the box
    /// is this modal: it has its size, its record of signals, its way with
    /// events and its picture.
    pub fn boxed<S>(self) -> (r: BoxedModal<S>)
        ensures
            r.modal.size() == (WIDTH, HEIGHT),
            r.modal.sent() == self.sent(),
            r.modal.shut() == self.shut(),
            forall|event: Event| #[trigger] r.modal.consumes(event) == consumed(event),
            forall|event: Event| #[trigger] r.modal.signals(event) == emitted(event),
            forall|event: Event| #[trigger] r.modal.asks_render(event) == requests_render(event),
            forall|before: Screen, frame: Area| #[trigger]
                r.modal.picture(before, frame) == painted(before, frame),
    {
        BoxedModal { modal: Box::new(self) }
    }

    /// The decision that `event` stands for, if any.
    pub fn shortcut(event: &Event) -> (r: Option<Shortcut>)
        ensures
            r == shortcut_of(*event),
    {
        match event {
            Event::Key(key) => {
                if key.modifiers.is_empty() {
                    match key.code {
                        KeyCode::Char(c) => {
                            if c == 'y' {
                                Some(Shortcut::Quit)
                            } else if c == 'd' {
                                Some(Shortcut::Detach)
                            } else if c == 'n' {
                                Some(Shortcut::Cancel)
                            } else {
                                None
                            }
                        },
                        KeyCode::Esc => Some(Shortcut::Cancel),
                        _ => None,
                    }
                } else {
                    None
                }
            },
            _ => None,
        }
    }

    /// Whether the modal keeps `event` from the rest of the application.
    pub fn blocks(event: &Event) -> (r: bool)
        ensures
            r == consumed(*event),
    {
        match event {
            Event::FocusGained => false,
            Event::FocusLost => false,
            Event::Key(_) => true,
            Event::Mouse(_) => true,
            Event::Paste(_) => true,
            Event::Resize(_, _) => false,
        }
    }

    /// Sends `event` on a best effort: if the main loop no longer listens,
    /// the event is dropped and handed back as unheard, and nothing else
    /// happens.
    fn announce(&mut self, event: AppEvent) -> (unheard: Option<AppEvent>)
        ensures
            unheard == if final(self).shut() {
                Some(event)
            } else {
                None
            },
            final(self).sent() == if final(self).shut() {
                old(self).sent()
            } else {
                old(self).sent().push(event)
            },
            old(self).shut() ==> final(self).shut(),
    {
        match send(&mut self.app_sender, event) {
            Ok(()) => None,
            Err(back) => Some(back),
        }
    }

    /// What the handler returns once the channel has answered for a signal
    /// that has to arrive: the event is consumed if the channel took the
    /// signal, and the call fails with the signal if the channel refused it.
    /// Either way the result carries `unheard`, the signal sent before on a
    /// best effort if that was refused.
    pub fn conclude(
        unheard: Option<AppEvent>,
        answer: Result<(), AppEvent>,
    ) -> (r: Result<Handled, ChannelClosed>)
        ensures
            r == conclusion(unheard, answer),
    {
        match answer {
            Ok(()) => Ok(Handled { consumed: true, unheard }),
            Err(event) => Err(ChannelClosed { event, unheard }),
        }
    }

    /// Handles one event from the terminal and says whether the modal has
    /// consumed it. The application's state is lent for the call and left as
    /// it is.
    ///
    /// On a shortcut the modal sends its signals, the closing signal first.
    /// If the main loop no longer listens, the closing signal goes unheard,
    /// which the result reports, and the call fails if the main loop was to
    /// be told to quit or to detach.
    pub fn handle_input<S>(
        &mut self,
        state: &mut S,
        loop_action: &mut LoopAction,
        event: &Event,
    ) -> (r: Result<Handled, ChannelClosed>)
        ensures
            *final(state) == *old(state),
            final(loop_action).render_requested() == (old(loop_action).render_requested()
                || requests_render(*event)),
            settles(
                emitted(*event),
                consumed(*event),
                old(self).sent(),
                old(self).shut(),
                r,
                final(self).sent(),
                final(self).shut(),
            ),
    {
        match Self::shortcut(event) {
            Some(Shortcut::Quit) => {
                let unheard = self.announce(AppEvent::CloseCurrentModal);
                let answer = send(&mut self.app_sender, AppEvent::Quit);
                Self::conclude(unheard, answer)
            },
            Some(Shortcut::Detach) => {
                let unheard = self.announce(AppEvent::CloseCurrentModal);
                let answer = send(&mut self.app_sender, AppEvent::Detach);
                Self::conclude(unheard, answer)
            },
            Some(Shortcut::Cancel) => {
                let unheard = self.announce(AppEvent::CloseCurrentModal);
                loop_action.render();
                Ok(Handled { consumed: true, unheard })
            },
            None => Ok(Handled { consumed: Self::blocks(event), unheard: None }),
        }
    }

    /// The size that the modal asks for: width, then height.
    pub fn get_size(&mut self) -> (r: (u16, u16))
        ensures
            r == (WIDTH, HEIGHT),
            *final(self) == *old(self),
    {
        (WIDTH, HEIGHT)
    }

    /// Where the modal is drawn in `frame`.
    pub fn area(&mut self, frame: Area) -> (r: Area)
        requires
            frame.on_grid(),
        ensures
            r == region(frame),
            *final(self) == *old(self),
    {
        let (width, height) = self.get_size();
        frame.centered(width, height)
    }

    /// The three lines that the modal shows.
    pub fn legend() -> (r: Vec<&'static str>)
        ensures
            texts(r@) == legend_spec(),
            printable_text(legend_spec()),
            short_text(legend_spec()),
    {
        let mut lines: Vec<&'static str> = Vec::new();
        lines.push("<y> - quit");
        lines.push("<d> - detach");
        lines.push("<Escape> - cancel");
        proof {
            reveal_strlit("<y> - quit");
            reveal_strlit("<d> - detach");
            reveal_strlit("<Escape> - cancel");
            assert(texts(lines@) =~= legend_spec());
        }
        lines
    }

    /// Draws the modal into the middle of `buffer`: the region is cleared,
    /// a bordered panel drawn over it, and inside the panel the three lines
    /// on ground cleared once more. Nothing outside the region changes, and
    /// the modal itself does not change.
    ///
    /// A buffer that is not as ratatui makes them is left as it is.
    pub fn render(&mut self, buffer: &mut Buffer)
        ensures
            *final(self) == *old(self),
            well_formed(*old(buffer)) ==> same_shape(*old(buffer), *final(buffer))
                && screen(*final(buffer)) == painted(screen(*old(buffer)), extent(*old(buffer))),
            !well_formed(*old(buffer)) ==> *final(buffer) == *old(buffer),
    {
        if !is_well_formed(buffer) {
            return ;
        }
        let frame = area_of(buffer);
        let area = self.area(frame);
        draw_clear(buffer, area);
        draw_panel(buffer, area);
        let inner = area.inner(1, 1);
        let text_area = Area {
            x: inner.x,
            y: inner.y,
            width: inner.width,
            height: if inner.height < 3 {
                inner.height
            } else {
                3
            },
        };
        draw_clear(buffer, text_area);
        let lines = Self::legend();
        draw_text(buffer, text_area, &lines);
    }
}

/// The modal as the main loop keeps it: each method is the one of the same
/// name above, the signals are `emitted`, the request for a render pass is
/// `requests_render`, and the picture is `painted`.
impl<S> Modal<S> for QuitModal {
    open spec fn size(&self) -> (u16, u16) {
        (WIDTH, HEIGHT)
    }

    open spec fn sent(&self) -> Seq<AppEvent> {
        QuitModal::sent(self)
    }

    open spec fn shut(&self) -> bool {
        QuitModal::shut(self)
    }

    open spec fn consumes(&self, event: Event) -> bool {
        consumed(event)
    }

    open spec fn signals(&self, event: Event) -> Seq<AppEvent> {
        emitted(event)
    }

    open spec fn asks_render(&self, event: Event) -> bool {
        requests_render(event)
    }

    open spec fn picture(&self, before: Screen, frame: Area) -> Screen {
        painted(before, frame)
    }

    proof fn picture_stays_in_place(&self, before: Screen, frame: Area) {
        lemma_render_stays_in_region(before, frame);
    }

    proof fn picture_is_drawn_afresh(&self, a: Screen, b: Screen, frame: Area) {
        lemma_region_is_drawn_afresh(a, b, frame);
    }

    fn get_size(&mut self) -> (r: (u16, u16)) {
        QuitModal::get_size(self)
    }

    fn handle_input(
        &mut self,
        state: &mut S,
        loop_action: &mut LoopAction,
        event: &Event,
    ) -> (r: Result<Handled, ChannelClosed>) {
        QuitModal::handle_input(self, state, loop_action, event)
    }

    fn render(&mut self, buffer: &mut Buffer) {
        QuitModal::render(self, buffer)
    }
}

/// A key with any modifier held is no shortcut. The modal sends nothing for
/// it and asks for no render pass, and the handler consumes it, as it does
/// every other key.
pub proof fn lemma_modifiers_disable_shortcuts(
    event: Event,
    before: Seq<AppEvent>,
    shut_before: bool,
    r: Result<Handled, ChannelClosed>,
    after: Seq<AppEvent>,
    shut_after: bool,
)
    requires
        event matches Event::Key(key) && !key.modifiers.is_empty(),
        settles(emitted(event), consumed(event), before, shut_before, r, after, shut_after),
    ensures
        shortcut_of(event) is None,
        emitted(event) == Seq::<AppEvent>::empty(),
        !requests_render(event),
        consumed(event),
        r == done(true, None),
        after == before,
{
}

/// `y` without modifiers sends the closing signal and then `Quit`, in that
/// order and nothing else, and asks for no render pass. The handler returns
/// that the key is consumed, and then the channel has taken both signals,
/// or it fails with `Quit`, and then the channel has taken the closing
/// signal at most and refuses the modal from now on.
pub proof fn lemma_y_quits(
    event: Event,
    before: Seq<AppEvent>,
    shut_before: bool,
    r: Result<Handled, ChannelClosed>,
    after: Seq<AppEvent>,
    shut_after: bool,
)
    requires
        event matches Event::Key(key) && key.code == KeyCode::Char('y') && key.modifiers.is_empty(),
        settles(emitted(event), consumed(event), before, shut_before, r, after, shut_after),
    ensures
        emitted(event) == seq![AppEvent::CloseCurrentModal, AppEvent::Quit],
        !requests_render(event),
        consumed(event),
        r is Ok <==> !shut_after,
        r is Ok ==> r == done(true, None) && after == before + seq![
            AppEvent::CloseCurrentModal,
            AppEvent::Quit,
        ],
        r is Err ==> {
            ||| r == failed(AppEvent::Quit, None) && after == before + seq![
                AppEvent::CloseCurrentModal,
            ]
            ||| r == failed(AppEvent::Quit, Some(AppEvent::CloseCurrentModal)) && after == before
        },
{
    assert(before.push(AppEvent::CloseCurrentModal).push(AppEvent::Quit) =~= before + seq![
        AppEvent::CloseCurrentModal,
        AppEvent::Quit,
    ]);
    assert(before.push(AppEvent::CloseCurrentModal) =~= before + seq![
        AppEvent::CloseCurrentModal,
    ]);
}

/// `d` without modifiers sends the closing signal and then `Detach`, in that
/// order and nothing else, and asks for no render pass. The handler returns
/// that the key is consumed, and then the channel has taken both signals,
/// or it fails with `Detach`, and then the channel has taken the closing
/// signal at most and refuses the modal from now on.
pub proof fn lemma_d_detaches(
    event: Event,
    before: Seq<AppEvent>,
    shut_before: bool,
    r: Result<Handled, ChannelClosed>,
    after: Seq<AppEvent>,
    shut_after: bool,
)
    requires
        event matches Event::Key(key) && key.code == KeyCode::Char('d') && key.modifiers.is_empty(),
        settles(emitted(event), consumed(event), before, shut_before, r, after, shut_after),
    ensures
        emitted(event) == seq![AppEvent::CloseCurrentModal, AppEvent::Detach],
        !requests_render(event),
        consumed(event),
        r is Ok <==> !shut_after,
        r is Ok ==> r == done(true, None) && after == before + seq![
            AppEvent::CloseCurrentModal,
            AppEvent::Detach,
        ],
        r is Err ==> {
            ||| r == failed(AppEvent::Detach, None) && after == before + seq![
                AppEvent::CloseCurrentModal,
            ]
            ||| r == failed(AppEvent::Detach, Some(AppEvent::CloseCurrentModal)) && after
                == before
        },
{
    assert(before.push(AppEvent::CloseCurrentModal).push(AppEvent::Detach) =~= before + seq![
        AppEvent::CloseCurrentModal,
        AppEvent::Detach,
    ]);
    assert(before.push(AppEvent::CloseCurrentModal) =~= before + seq![
        AppEvent::CloseCurrentModal,
    ]);
}

/// Escape or `n` without modifiers sends the closing signal and nothing
/// else, and asks for a render pass. The handler returns that the key is
/// consumed, whether or not the channel took the signal, and reports the
/// signal as unheard if the channel refused it.
pub proof fn lemma_escape_or_n_cancels(
    event: Event,
    before: Seq<AppEvent>,
    shut_before: bool,
    r: Result<Handled, ChannelClosed>,
    after: Seq<AppEvent>,
    shut_after: bool,
)
    requires
        event matches Event::Key(key) && key.modifiers.is_empty() && (key.code == KeyCode::Esc
            || key.code == KeyCode::Char('n')),
        settles(emitted(event), consumed(event), before, shut_before, r, after, shut_after),
    ensures
        emitted(event) == seq![AppEvent::CloseCurrentModal],
        requests_render(event),
        consumed(event),
        !shut_after ==> r == done(true, None) && after == before + seq![
            AppEvent::CloseCurrentModal,
        ],
        shut_after ==> r == done(true, Some(AppEvent::CloseCurrentModal)) && after == before,
{
    assert(before.push(AppEvent::CloseCurrentModal) =~= before + seq![
        AppEvent::CloseCurrentModal,
    ]);
}

/// Resize and focus events pass through. Key, mouse and paste events that
/// are no shortcut are consumed. Nothing is sent for either, and no render
/// pass is asked for.
pub proof fn lemma_pass_or_block(
    event: Event,
    before: Seq<AppEvent>,
    shut_before: bool,
    r: Result<Handled, ChannelClosed>,
    after: Seq<AppEvent>,
    shut_after: bool,
)
    requires
        shortcut_of(event) is None,
        settles(emitted(event), consumed(event), before, shut_before, r, after, shut_after),
    ensures
        emitted(event) == Seq::<AppEvent>::empty(),
        !requests_render(event),
        after == before,
        shut_after == shut_before,
        event is Resize || event is FocusGained || event is FocusLost ==> r == done(false, None),
        event is Key || event is Mouse || event is Paste ==> r == done(true, None),
{
}

/// The closing signal comes first: whatever the modal sends starts with
/// `CloseCurrentModal`, and what follows, if anything, is the one signal
/// `Quit` or `Detach`.
pub proof fn lemma_close_comes_first(event: Event)
    ensures
        emitted(event).len() <= 2,
        emitted(event).len() >= 1 ==> emitted(event)[0] == AppEvent::CloseCurrentModal,
        emitted(event).len() == 2 ==> emitted(event)[1] == AppEvent::Quit || emitted(event)[1]
            == AppEvent::Detach,
{
}

/// Each line of the legend names the key that the handler binds to what the
/// line says: the first `y`, the second `d`, the third Escape. Each fits
/// into a row of the text area of a modal at its full size.
pub proof fn lemma_legend_names_the_keys()
    ensures
        legend_spec().len() == 3,
        legend_spec()[0] == seq!['<', 'y', '>', ' ', '-', ' ', 'q', 'u', 'i', 't'],
        legend_spec()[1] == seq!['<', 'd', '>', ' ', '-', ' ', 'd', 'e', 't', 'a', 'c', 'h'],
        legend_spec()[2] == seq![
            '<',
            'E',
            's',
            'c',
            'a',
            'p',
            'e',
            '>',
            ' ',
            '-',
            ' ',
            'c',
            'a',
            'n',
            'c',
            'e',
            'l',
        ],
        forall|i: int| 0 <= i < 3 ==> (#[trigger] legend_spec()[i]).len() <= WIDTH - 2,
{
    reveal_strlit("<y> - quit");
    reveal_strlit("<d> - detach");
    reveal_strlit("<Escape> - cancel");
    assert(legend_spec()[0] =~= seq!['<', 'y', '>', ' ', '-', ' ', 'q', 'u', 'i', 't']);
    assert(legend_spec()[1] =~= seq!['<', 'd', '>', ' ', '-', ' ', 'd', 'e', 't', 'a', 'c', 'h']);
    assert(legend_spec()[2] =~= seq![
        '<',
        'E',
        's',
        'c',
        'a',
        'p',
        'e',
        '>',
        ' ',
        '-',
        ' ',
        'c',
        'a',
        'n',
        'c',
        'e',
        'l',
    ]);
}

/// The modal draws inside its region only: a cell outside the region is
/// after the drawing as it was before, symbol and style, and the frame has
/// the same cells.
pub proof fn lemma_render_stays_in_region(before: Screen, frame: Area)
    requires
        frame.on_grid(),
    ensures
        painted(before, frame).dom() == before.dom(),
        forall|x: int, y: int|
            before.dom().contains((x, y)) && !region(frame).covers(x, y)
                ==> #[trigger] painted(before, frame)[(x, y)] == before[(x, y)],
{
    assert(painted(before, frame).dom() =~= before.dom());
}

/// The region is cleared before anything is drawn into it: every cell of
/// the region has after the drawing the style of a cell that was reset, and
/// nothing of what it showed before.
pub proof fn lemma_region_is_cleared(before: Screen, frame: Area)
    requires
        frame.on_grid(),
    ensures
        forall|x: int, y: int|
            before.dom().contains((x, y)) && region(frame).covers(x, y) ==> ({
                let cell = #[trigger] painted(before, frame)[(x, y)];
                &&& cell.symbol.len() == 1
                &&& cell == Cell::blank().with_symbol(cell.symbol[0])
            }),
{
}

/// The text area holds the three lines and nothing else: a cell of the
/// text area shows the character of the legend for its row and its column,
/// or is empty. The text area lies inside the region, clear of the border.
pub proof fn lemma_text_on_cleared_ground(before: Screen, frame: Area)
    requires
        frame.on_grid(),
    ensures
        legend_spec().len() == 3,
        text_area(frame).is_empty() || text_area(frame).within(region(frame).inner_spec(1, 1)),
        forall|x: int, y: int|
            before.dom().contains((x, y)) && text_area(frame).covers(x, y)
                ==> #[trigger] painted(before, frame)[(x, y)] == ({
                let col = x - text_area(frame).x;
                let row = y - text_area(frame).y;
                if col < legend_spec()[row].len() {
                    Cell::blank().with_symbol(legend_spec()[row][col])
                } else {
                    Cell::blank()
                }
            }),
{
}

/// Every cell of the region is drawn afresh: what the region shows after
/// the drawing, symbol and style, does not depend on what the frame showed
/// before.
pub proof fn lemma_region_is_drawn_afresh(a: Screen, b: Screen, frame: Area)
    requires
        frame.on_grid(),
        a.dom() == b.dom(),
    ensures
        forall|x: int, y: int|
            a.dom().contains((x, y)) && region(frame).covers(x, y)
                ==> #[trigger] painted(a, frame)[(x, y)] == painted(b, frame)[(x, y)],
{
}

/// Drawing the modal twice over an unchanged frame shows what drawing it
/// once shows, symbol and style.
pub proof fn lemma_painted_twice_is_painted_once(before: Screen, frame: Area)
    requires
        frame.on_grid(),
    ensures
        painted(painted(before, frame), frame) == painted(before, frame),
{
    assert(painted(painted(before, frame), frame) =~= painted(before, frame));
}

} // verus!
