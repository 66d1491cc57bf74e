//! Modals: panels that sit above the main view and take the input while
//! they are shown.

use vstd::prelude::*;
use crate::canvas::{extent, same_shape, screen, well_formed, Screen};
use crate::channel::ChannelClosed;
use crate::event::AppEvent;
use crate::input::Event;
use crate::layout::Area;
use crate::loop_action::LoopAction;
use ratatui::buffer::Buffer;

pub mod quit;

verus! {

/// Where a modal of the given size is drawn in `frame`: in the middle, as
/// large as it asks for or as the frame allows.
pub open spec fn placement(frame: Area, size: (u16, u16)) -> Area {
    frame.centered_spec(size.0, size.1)
}

/// What a handler has done with an event.
#[derive(Clone, Copy, Debug, PartialEq, Eq)]
pub struct Handled {
    /// Whether the modal keeps the event from the rest of the application.
    pub consumed: bool,
    /// The signal that was sent on a best effort and that the channel
    /// refused, if there was one. Nothing follows from it; it is there to be
    /// logged.
    pub unheard: Option<AppEvent>,
}

/// What a handler returns when no signal that had to arrive was refused:
/// whether the event is consumed, and the signal that went unheard, if any.
pub open spec fn done(
    consumed: bool,
    unheard: Option<AppEvent>,
) -> Result<Handled, ChannelClosed> {
    Ok(Handled { consumed, unheard })
}

/// What a handler returns when `event` had to arrive and the channel
/// refused it, after `unheard`, if any, went unheard.
pub open spec fn failed(
    event: AppEvent,
    unheard: Option<AppEvent>,
) -> Result<Handled, ChannelClosed> {
    Err(ChannelClosed { event, unheard })
}

/// What one call of a handler leaves behind, for an event for which the
/// modal sends `signals` and which it consumes if `kept`.
///
/// `before` and `after` are the modal's records of what the channel took,
/// and `shut_before` and `shut_after` say whether the channel had refused
/// the modal, around the call. `r` is what the call returned.
///
/// A modal sends at most two signals for an event. The first is sent on a
/// best effort: if the channel refuses it the handler goes on and reports
/// it as unheard. The second has to arrive: if the channel refuses it the
/// handler fails with it. A channel that has refused once refuses ever
/// after, so a second signal arrives only behind the first.
pub open spec fn settles(
    signals: Seq<AppEvent>,
    kept: bool,
    before: Seq<AppEvent>,
    shut_before: bool,
    r: Result<Handled, ChannelClosed>,
    after: Seq<AppEvent>,
    shut_after: bool,
) -> bool {
    if signals.len() == 0 {
        r == done(kept, None) && after == before && shut_after == shut_before
    } else if signals.len() == 1 {
        if shut_after {
            r == done(kept, Some(signals[0])) && after == before
        } else {
            r == done(kept, None) && after == before.push(signals[0]) && !shut_before
        }
    } else if signals.len() == 2 {
        ||| {
            &&& r == done(kept, None)
            &&& !shut_before
            &&& !shut_after
            &&& after == before.push(signals[0]).push(signals[1])
        }
        ||| {
            &&& r == failed(signals[1], None)
            &&& !shut_before
            &&& shut_after
            &&& after == before.push(signals[0])
        }
        ||| {
            &&& r == failed(signals[1], Some(signals[0]))
            &&& shut_after
            &&& after == before
        }
    } else {
        false
    }
}

/// What the main loop asks of a modal, whatever its kind. `S` is the
/// application's state, which a modal gets for the length of one call and
/// leaves as it is.
///
/// A modal talks back in two ways only: it sends signals over its channel,
/// and it may ask for a render pass. Which signals it sends for an event,
/// whether it consumes the event and whether it asks for a render pass are
/// fixed for the modal's life, as are its size and its picture. It draws
/// into its own rectangle in the middle of the frame and nowhere else, and
/// what it draws there does not depend on what the frame showed before;
/// these two are laws that each kind of modal proves of its picture.
pub trait Modal<S> {
    /// The size that the modal asks for: width, then height.
    spec fn size(&self) -> (u16, u16);

    /// The signals that the channel has taken from the modal, oldest first.
    spec fn sent(&self) -> Seq<AppEvent>;

    /// Whether the channel has refused a signal of the modal.
    spec fn shut(&self) -> bool;

    /// Whether the modal keeps `event` from the rest of the application.
    spec fn consumes(&self, event: Event) -> bool;

    /// The signals that the modal sends for `event`, in the order in which
    /// it sends them.
    spec fn signals(&self, event: Event) -> Seq<AppEvent>;

    /// Whether the modal asks for a render pass on `event`.
    spec fn asks_render(&self, event: Event) -> bool;

    /// What `frame` shows once the modal is drawn over `before`.
    spec fn picture(&self, before: Screen, frame: Area) -> Screen;

    /// The picture has the cells of the frame, and outside the modal's
    /// rectangle each is as it was before.
    proof fn picture_stays_in_place(&self, before: Screen, frame: Area) where Self: Sized
        requires
            frame.on_grid(),
        ensures
            self.picture(before, frame).dom() == before.dom(),
            forall|x: int, y: int|
                before.dom().contains((x, y)) && !placement(frame, self.size()).covers(x, y)
                    ==> #[trigger] self.picture(before, frame)[(x, y)] == before[(x, y)],
    ;

    /// Inside the modal's rectangle the picture is drawn afresh: it is the
    /// same over any two grounds, symbol and style.
    proof fn picture_is_drawn_afresh(&self, a: Screen, b: Screen, frame: Area) where Self: Sized
        requires
            frame.on_grid(),
            a.dom() == b.dom(),
        ensures
            forall|x: int, y: int|
                a.dom().contains((x, y)) && placement(frame, self.size()).covers(x, y)
                    ==> #[trigger] self.picture(a, frame)[(x, y)]
                    == self.picture(b, frame)[(x, y)],
    ;

    /// Says which size the modal asks for, and changes nothing that shows.
    fn get_size(&mut self) -> (r: (u16, u16))
        ensures
            r == old(self).size(),
            final(self).sent() == old(self).sent(),
            final(self).shut() == old(self).shut(),
            final(self).size() == old(self).size(),
            forall|event: Event| #[trigger] final(self).consumes(event) == old(self).consumes(event),
            forall|event: Event| #[trigger] final(self).signals(event) == old(self).signals(event),
            forall|event: Event| #[trigger]
                final(self).asks_render(event) == old(self).asks_render(event),
            forall|before: Screen, frame: Area| #[trigger]
                final(self).picture(before, frame) == old(self).picture(before, frame),
    ;

    /// Handles one event and says whether the modal has consumed it; an
    /// event that is not consumed is for the rest of the application. The
    /// state is left as it is. A render pass is asked for if the modal asks
    /// for one on this event, and a request made earlier stands. The
    /// signals for the event are sent as `settles` says, which also says
    /// what the call returns and when it fails: only when a signal that had
    /// to arrive was refused. The modal's ways are afterwards what they
    /// were.
    fn handle_input(
        &mut self,
        state: &mut S,
        loop_action: &mut LoopAction,
        event: &Event,
    ) -> (r: Result<Handled, ChannelClosed>)
        ensures
            *final(state) == *old(state),
            final(loop_action).render_requested() == (old(loop_action).render_requested()
                || old(self).asks_render(*event)),
            settles(
                old(self).signals(*event),
                old(self).consumes(*event),
                old(self).sent(),
                old(self).shut(),
                r,
                final(self).sent(),
                final(self).shut(),
            ),
            final(self).size() == old(self).size(),
            forall|event: Event| #[trigger] final(self).consumes(event) == old(self).consumes(event),
            forall|event: Event| #[trigger] final(self).signals(event) == old(self).signals(event),
            forall|event: Event| #[trigger]
                final(self).asks_render(event) == old(self).asks_render(event),
            forall|before: Screen, frame: Area| #[trigger]
                final(self).picture(before, frame) == old(self).picture(before, frame),
    ;

    /// Draws the modal into `buffer`, which then shows the modal's picture.
    /// Drawing sends nothing and leaves no trace in the modal. A buffer that
    /// is not well formed is left as it is.
    fn render(&mut self, buffer: &mut Buffer)
        ensures
            well_formed(*old(buffer)) ==> same_shape(*old(buffer), *final(buffer))
                && screen(*final(buffer))
                == old(self).picture(screen(*old(buffer)), extent(*old(buffer))),
            !well_formed(*old(buffer)) ==> *final(buffer) == *old(buffer),
            final(self).sent() == old(self).sent(),
            final(self).shut() == old(self).shut(),
            final(self).size() == old(self).size(),
            forall|event: Event| #[trigger] final(self).consumes(event) == old(self).consumes(event),
            forall|event: Event| #[trigger] final(self).signals(event) == old(self).signals(event),
            forall|event: Event| #[trigger]
                final(self).asks_render(event) == old(self).asks_render(event),
            forall|before: Screen, frame: Area| #[trigger]
                final(self).picture(before, frame) == old(self).picture(before, frame),
    ;

    /// Where the modal is drawn in `frame`.
    fn area(&mut self, frame: Area) -> (r: Area)
        requires
            frame.on_grid(),
        ensures
            r == placement(frame, old(self).size()),
            final(self).sent() == old(self).sent(),
            final(self).shut() == old(self).shut(),
            final(self).size() == old(self).size(),
            forall|event: Event| #[trigger] final(self).consumes(event) == old(self).consumes(event),
            forall|event: Event| #[trigger] final(self).signals(event) == old(self).signals(event),
            forall|event: Event| #[trigger]
                final(self).asks_render(event) == old(self).asks_render(event),
            forall|before: Screen, frame: Area| #[trigger]
                final(self).picture(before, frame) == old(self).picture(before, frame),
    {
        let (width, height) = self.get_size();
        frame.centered(width, height)
    }
}

/// A modal of any kind, on the heap, so that one slot can hold whichever
/// modal is active.
#[verifier::reject_recursive_types(S)]
pub struct BoxedModal<S> {
    pub modal: Box<dyn Modal<S>>,
}

/// What a call of a handler comes to. A call that returns `Ok` returns
/// whether the event is consumed; the channel has then taken every signal
/// for the event, in their order, but the one that the call reports as
/// unheard. A call fails only where there was a second signal, with that
/// signal, and then the channel has refused the modal. The record never
/// loses anything, and a channel that had refused the modal has taken
/// nothing more.
pub proof fn lemma_settles(
    signals: Seq<AppEvent>,
    kept: bool,
    before: Seq<AppEvent>,
    shut_before: bool,
    r: Result<Handled, ChannelClosed>,
    after: Seq<AppEvent>,
    shut_after: bool,
)
    requires
        settles(signals, kept, before, shut_before, r, after, shut_after),
    ensures
        signals.len() <= 2,
        r matches Ok(handled) ==> handled.consumed == kept && (match handled.unheard {
            None => after == before + signals,
            Some(signal) => signals == seq![signal] && after == before,
        }),
        r matches Err(closed) ==> signals.len() == 2 && closed.event == signals[1]
            && (match closed.unheard {
            None => after == before.push(signals[0]),
            Some(signal) => signal == signals[0] && after == before,
        }),
        signals.len() < 2 ==> r is Ok,
        signals.len() == 2 ==> (r is Ok <==> !shut_after),
        !shut_after ==> r is Ok && after == before + signals,
        shut_before ==> shut_after && after == before,
        before.is_prefix_of(after),
{
    assert(before + Seq::<AppEvent>::empty() =~= before);
    if signals.len() == 0 {
        assert(signals =~= Seq::<AppEvent>::empty());
    } else if signals.len() == 1 {
        assert(signals =~= seq![signals[0]]);
        assert(before.push(signals[0]) =~= before + signals);
    } else {
        assert(before.push(signals[0]).push(signals[1]) =~= before + signals);
    }
}

/// Drawing a modal twice over an unchanged frame shows what drawing it once
/// shows.
pub proof fn lemma_render_twice_is_render_once<S, M: Modal<S>>(
    modal: &M,
    before: Screen,
    frame: Area,
)
    requires
        frame.on_grid(),
    ensures
        modal.picture(modal.picture(before, frame), frame) == modal.picture(before, frame),
{
    let once = modal.picture(before, frame);
    modal.picture_stays_in_place(before, frame);
    modal.picture_stays_in_place(once, frame);
    modal.picture_is_drawn_afresh(once, before, frame);
    assert forall|p: (int, int)| once.dom().contains(p) implies modal.picture(once, frame)[p]
        == once[p] by {
        let (x, y) = p;
        if placement(frame, modal.size()).covers(x, y) {
            assert(modal.picture(once, frame)[(x, y)] == modal.picture(before, frame)[(x, y)]);
        } else {
            assert(modal.picture(once, frame)[(x, y)] == once[(x, y)]);
        }
    }
    assert(modal.picture(once, frame) =~= once);
}

} // verus!
