//! The parts of a running status line, which meet on one channel: the handle
//! takes commands, the ticker moves the marker, the renderer says what is written.

use crate::channel::{open, post, share, take};
use crate::display::{DisplayState, DisplayView};
use crate::signal::{Signal, SignalView};
use crate::spinner::{Spinner, SpinnerView};
use crate::status::Status;
use std::fmt;
use std::sync::mpsc::{Receiver, Sender};
use std::time::Duration;
use vstd::prelude::*;

verus! {

/// The handle: it turns commands into events for the renderer.
#[derive(Debug)]
pub struct Loading {
    sender: Sender<Signal>,
}

/// An exit that was asked for: the end on which the renderer answers.
#[derive(Debug)]
pub struct Stopping {
    answer: Receiver<()>,
    queued: bool,
}

/// The animation: a spinner and a sending end of the channel.
#[derive(Debug)]
pub struct Ticker {
    sender: Sender<Signal>,
    spinner: Spinner,
}

/// The consumer of the channel and sole owner of the state of the line.
#[derive(Debug)]
pub struct Renderer {
    receiver: Receiver<Signal>,
    display: DisplayState,
    ack: Option<Sender<()>>,
    done: bool,
}

/// What a renderer is: the line, whether an exit is yet to be answered, and
/// whether it has stopped.
pub struct RendererView {
    pub display: DisplayView,
    pub closing: bool,
    pub done: bool,
}

impl View for Ticker {
    type V = SpinnerView;

    closed spec fn view(&self) -> SpinnerView {
        self.spinner@
    }
}

impl View for Renderer {
    type V = RendererView;

    closed spec fn view(&self) -> RendererView {
        RendererView { display: self.display@, closing: self.ack is Some, done: self.done }
    }
}

impl RendererView {
    /// A renderer that has seen no event.
    pub open spec fn fresh() -> RendererView {
        RendererView { display: DisplayView::blank(), closing: false, done: false }
    }

    /// Whether the renderer is ready for an event: it has not stopped and
    /// has no exit to answer.
    pub open spec fn waiting(self) -> bool {
        !self.done && !self.closing
    }

    /// The renderer after it has drawn `signal`.
    pub open spec fn drawn(self, signal: SignalView) -> RendererView {
        RendererView {
            display: self.display.next(signal),
            closing: signal is Exit,
            done: false,
        }
    }

    /// The renderer once it has stopped.
    pub open spec fn stopped(self) -> RendererView {
        RendererView { closing: false, done: true, ..self }
    }

    /// The renderer after `event`, which is what the channel gave: a signal,
    /// or nothing once no sender is left. A waiting renderer draws a signal;
    /// in every other case it stops.
    pub open spec fn handled(self, event: Option<SignalView>) -> RendererView {
        match event {
            Some(signal) if self.waiting() => self.drawn(signal),
            _ => self.stopped(),
        }
    }

    /// What is to be written for `event`: for a signal that a waiting
    /// renderer draws, what the line makes of it; else nothing.
    pub open spec fn written(self, event: Option<SignalView>) -> Option<Seq<char>> {
        match event {
            Some(signal) if self.waiting() => Some(self.display.output(signal)),
            _ => None,
        }
    }
}

impl RendererView {
    /// Everything that the renderer hands out for a run of signals, given to
    /// it one by one.
    pub open spec fn log(self, signals: Seq<SignalView>) -> Seq<char>
        decreases signals.len(),
    {
        if signals.len() == 0 {
            Seq::empty()
        } else {
            let first = match self.written(Some(signals[0])) {
                Some(s) => s,
                None => Seq::empty(),
            };
            first + self.handled(Some(signals[0])).log(signals.drop_first())
        }
    }
}

/// What the channel gave, without the means to answer it.
pub open spec fn event_view(event: Option<Signal>) -> Option<SignalView> {
    match event {
        Some(signal) => Some(signal@),
        None => None,
    }
}

/// The characters of what is handed out.
pub open spec fn content(out: Option<String>) -> Option<Seq<char>> {
    match out {
        Some(s) => Some(s@),
        None => None,
    }
}

impl Loading {
    /// A new channel with its three parts: the handle, a ticker over
    /// `spinner`, and a renderer that has seen no event.
    pub fn create(spinner: Spinner) -> (parts: (Loading, Ticker, Renderer))
        ensures
            parts.1@ == spinner@,
            parts.2@ == RendererView::fresh(),
    {
        let (sender, receiver) = open::<Signal>();
        let ticker = Ticker { sender: share(&sender), spinner };
        let renderer = Renderer { receiver, display: DisplayState::new(), ack: None, done: false };
        (Loading { sender }, ticker, renderer)
    }

    /// Asks the renderer to clear the line and stop, and waits for its
    /// answer. Returns at once where the renderer is gone.
    pub fn end(self) {
        let _ = self.stop().wait();
    }

    /// Asks the renderer to clear the line and stop, without waiting. The
    /// handle is used up: no command can follow the exit.
    pub fn stop(self) -> (stopping: Stopping) {
        let (ack, answer) = open::<()>();
        let queued = post(&self.sender, Signal::Exit(ack));
        Stopping { answer, queued }
    }

    /// Changes the text beside the marker.
    pub fn text<T: fmt::Display>(&self, text: T) {
        let _ = post(&self.sender, Signal::text(text));
    }

    /// Commits the line as a success; the animation goes on on the next line.
    pub fn success<T: fmt::Display>(&self, text: T) {
        let _ = post(&self.sender, Signal::commit(Status::Success, text));
    }

    /// Commits the line as a failure; the animation goes on on the next line.
    pub fn fail<T: fmt::Display>(&self, text: T) {
        let _ = post(&self.sender, Signal::commit(Status::Fail, text));
    }

    /// Commits the line as a warning; the animation goes on on the next line.
    pub fn warn<T: fmt::Display>(&self, text: T) {
        let _ = post(&self.sender, Signal::commit(Status::Warn, text));
    }

    /// Commits the line as a note; the animation goes on on the next line.
    pub fn info<T: fmt::Display>(&self, text: T) {
        let _ = post(&self.sender, Signal::commit(Status::Info, text));
    }
}

impl Stopping {
    /// Waits until the renderer has answered the exit, or is gone, and tells
    /// whether it answered. An exit that was never queued is not waited for.
    pub fn wait(self) -> (answered: bool)
        ensures
            answered ==> self.queued(),
    {
        if self.queued {
            take(&self.answer).is_some()
        } else {
            false
        }
    }

    /// Whether the exit reached the channel: it did not where the renderer
    /// was gone by then, and the sender to answer on was dropped with it.
    pub closed spec fn queued(&self) -> bool {
        self.queued
    }
}

impl Ticker {
    /// Moves the marker on by one glyph and sends it to the renderer. Tells
    /// whether the renderer is still there: once it is not, the animation is
    /// over.
    pub fn tick(&mut self) -> (alive: bool)
        ensures
            final(self)@ == old(self)@.advance(),
    {
        let glyph = self.spinner.next();
        post(&self.sender, Signal::Frame(glyph))
    }

    /// The pause between two ticks.
    pub fn pause(&self) -> (d: Duration)
        ensures
            d == self@.interval,
    {
        self.spinner.pause()
    }
}

impl Renderer {
    /// Whether the renderer is ready for an event.
    pub fn waiting(&self) -> (w: bool)
        ensures
            w == self@.waiting(),
    {
        !self.done && self.ack.is_none()
    }

    /// Takes what the channel gave and says what is to be written for it.
    ///
    /// A waiting renderer draws a signal and stays; after an exit it keeps
    /// the sender to answer on. In every other case it stops and hands out
    /// nothing: where an exit is yet to be answered it answers first, and a
    /// signal that comes then is dropped.
    pub fn handle(&mut self, event: Option<Signal>) -> (out: Option<String>)
        ensures
            final(self)@ == old(self)@.handled(event_view(event)),
            content(out) == old(self)@.written(event_view(event)),
    {
        if self.done {
            self.ack = None;
            return None;
        }
        match self.ack.take() {
            Some(ack) => {
                let _ = post(&ack, ());
                self.done = true;
                None
            },
            None => match event {
                Some(signal) => {
                    let rendered = self.display.apply(signal);
                    self.ack = rendered.ack;
                    Some(rendered.output)
                },
                None => {
                    self.done = true;
                    None
                },
            },
        }
    }

    /// Waits for the next event and says what is to be written for it; the
    /// caller writes and flushes that before it calls again. `None` ends the
    /// loop.
    ///
    /// An exit is answered by the call after the one that handed out the
    /// clearing of the line, so the answer goes out only when the line is
    /// cleared and flushed, and nothing is handed out after it. The loop also
    /// ends once no sender is left. Which event arrives is up to the senders:
    /// the call handles whatever the channel gives.
    pub fn step(&mut self) -> (out: Option<String>)
        ensures
            exists|event: Option<SignalView>|
                final(self)@ == #[trigger] old(self)@.handled(event) && content(out) == old(
                    self,
                )@.written(event),
            !old(self)@.waiting() ==> out is None && final(self)@ == old(self)@.stopped(),
    {
        let event = if self.waiting() {
            take(&self.receiver)
        } else {
            None
        };
        let ghost given = event_view(event);
        let out = self.handle(event);
        assert(self@ == old(self)@.handled(given));
        out
    }
}

/// Once a renderer has drawn an exit it draws nothing more: whatever the
/// channel gives next, it stops and hands out nothing, and so it does ever
/// after.
pub proof fn lemma_nothing_after_exit(
    renderer: RendererView,
    next: Option<SignalView>,
    later: Option<SignalView>,
)
    requires
        renderer.waiting(),
    ensures
        renderer.written(Some(SignalView::Exit)) == Some(crate::display::clear()),
        renderer.handled(Some(SignalView::Exit)).written(next) is None,
        renderer.handled(Some(SignalView::Exit)).handled(next).done,
        renderer.handled(Some(SignalView::Exit)).handled(next).written(later) is None,
        renderer.handled(Some(SignalView::Exit)).handled(next).handled(later).done,
{
}

/// A renderer that is not waiting hands out nothing, whatever it is given.
pub proof fn lemma_silent_once_not_waiting(renderer: RendererView, signals: Seq<SignalView>)
    requires
        !renderer.waiting(),
    ensures
        renderer.log(signals) == Seq::<char>::empty(),
    decreases signals.len(),
{
    if signals.len() > 0 {
        lemma_silent_once_not_waiting(
            renderer.handled(Some(signals[0])),
            signals.drop_first(),
        );
        assert(renderer.log(signals) =~= Seq::<char>::empty());
    }
}

/// What a waiting renderer hands out for a run of signals is the transcript
/// of the run from the state of its line: every signal up to the first exit
/// is drawn whole, in the order of arrival, and nothing behind the exit.
pub proof fn lemma_log_is_transcript(renderer: RendererView, signals: Seq<SignalView>)
    requires
        renderer.waiting(),
    ensures
        renderer.log(signals) == renderer.display.transcript(signals),
    decreases signals.len(),
{
    if signals.len() > 0 {
        let next = renderer.handled(Some(signals[0]));
        let rest = signals.drop_first();
        if signals[0] is Exit {
            lemma_silent_once_not_waiting(next, rest);
            assert(renderer.log(signals) =~= crate::display::clear());
        } else {
            lemma_log_is_transcript(next, rest);
        }
    }
}

} // verus!
