//! What the renderer shows: the state of the line, and the characters that
//! each event puts on the terminal.

use crate::signal::{Signal, SignalView};
use crate::status::Status;
use std::sync::mpsc::Sender;
use vstd::prelude::*;

verus! {

/// Erase the whole line (`ESC [ 2 K`), then move to column 0 (`ESC [ 0 G`).
pub open spec fn clear() -> Seq<char> {
    seq!['\x1B', '[', '2', 'K', '\x1B', '[', '0', 'G']
}

/// A rewritten line: the clearing prefix, a head, a space and a text.
pub open spec fn line(head: Seq<char>, text: Seq<char>) -> Seq<char> {
    clear() + head + seq![' '] + text
}

/// The state of the line: the last glyph of the marker and the text.
pub struct DisplayView {
    pub frame: Seq<char>,
    pub text: Seq<char>,
}

impl DisplayView {
    /// Before any event: no glyph and no text.
    pub open spec fn blank() -> DisplayView {
        DisplayView { frame: Seq::empty(), text: Seq::empty() }
    }

    /// The characters that an event puts on the terminal. A frame and a text
    /// rewrite the line without ending it, also while the text is still
    /// empty; a commit ends the line; an exit only clears it.
    pub open spec fn output(self, signal: SignalView) -> Seq<char> {
        match signal {
            SignalView::Frame(glyph) => line(glyph, self.text),
            SignalView::Text(text) => line(self.frame, text),
            SignalView::Next(status, text) => line(status.glyph(), text) + seq!['\n'],
            SignalView::Exit => clear(),
        }
    }

    /// The state after an event. A commit empties the text, so that the next
    /// frame starts a fresh line.
    pub open spec fn next(self, signal: SignalView) -> DisplayView {
        match signal {
            SignalView::Frame(glyph) => DisplayView { frame: glyph, ..self },
            SignalView::Text(text) => DisplayView { text, ..self },
            SignalView::Next(_, _) => DisplayView { text: Seq::empty(), ..self },
            SignalView::Exit => self,
        }
    }

    /// Everything that a run of events puts on the terminal, in order. The
    /// run ends with the first exit.
    pub open spec fn transcript(self, signals: Seq<SignalView>) -> Seq<char>
        decreases signals.len(),
    {
        if signals.len() == 0 {
            Seq::empty()
        } else if signals[0] is Exit {
            clear()
        } else {
            self.output(signals[0]) + self.next(signals[0]).transcript(signals.drop_first())
        }
    }
}

/// The state of the line, owned by the renderer.
#[derive(Debug)]
pub struct DisplayState {
    frame: &'static str,
    text: String,
}

impl View for DisplayState {
    type V = DisplayView;

    closed spec fn view(&self) -> DisplayView {
        DisplayView { frame: self.frame@, text: self.text@ }
    }
}

/// What one event leads to: the characters to write, and, for an exit, the
/// sender on which to answer once they are written and flushed.
#[derive(Debug)]
pub struct Rendered {
    pub output: String,
    pub ack: Option<Sender<()>>,
}

/// The clearing prefix, a head, a space and a text, and a newline where the
/// line ends.
fn compose(head: &str, text: &str, ended: bool) -> (s: String)
    ensures
        s@ == if ended {
            line(head@, text@) + seq!['\n']
        } else {
            line(head@, text@)
        },
{
    proof {
        reveal_strlit("\x1B[2K\x1B[0G");
        reveal_strlit(" ");
        reveal_strlit("\n");
    }
    let mut s = String::from_str("\x1B[2K\x1B[0G");
    assert(s@ =~= clear());
    s.append(head);
    s.append(" ");
    s.append(text);
    assert(s@ =~= line(head@, text@));
    if ended {
        s.append("\n");
        assert(s@ =~= line(head@, text@) + seq!['\n']);
    }
    s
}

impl DisplayState {
    /// A line with no glyph and no text.
    pub fn new() -> (d: DisplayState)
        ensures
            d@ == DisplayView::blank(),
    {
        proof {
            reveal_strlit("");
        }
        let d = DisplayState { frame: "", text: String::new() };
        assert(d@.frame =~= Seq::<char>::empty());
        d
    }

    /// Takes one event: says what is to be written for it and moves the
    /// state on. Only an exit hands out a sender to answer on.
    pub fn apply(&mut self, signal: Signal) -> (r: Rendered)
        ensures
            r.output@ == old(self)@.output(signal@),
            final(self)@ == old(self)@.next(signal@),
            r.ack == signal.ack(),
    {
        match signal {
            Signal::Frame(glyph) => {
                self.frame = glyph;
                Rendered { output: compose(glyph, self.text.as_str(), false), ack: None }
            },
            Signal::Text(text) => {
                let output = compose(self.frame, text.as_str(), false);
                self.text = text;
                Rendered { output, ack: None }
            },
            Signal::Next(status, text) => {
                let output = compose(status.as_str(), text.as_str(), true);
                self.text = String::new();
                Rendered { output, ack: None }
            },
            Signal::Exit(ack) => {
                proof {
                    reveal_strlit("\x1B[2K\x1B[0G");
                }
                let output = String::from_str("\x1B[2K\x1B[0G");
                assert(output@ =~= clear());
                Rendered { output, ack: Some(ack) }
            },
        }
    }
}

/// The state that a run of events leaves.
pub open spec fn after_run(state: DisplayView, signals: Seq<SignalView>) -> DisplayView
    decreases signals.len(),
{
    if signals.len() == 0 {
        state
    } else {
        after_run(state.next(signals[0]), signals.drop_first())
    }
}

/// Whether a run of events holds an exit.
pub open spec fn has_exit(signals: Seq<SignalView>) -> bool {
    exists|i: int| 0 <= i < signals.len() && signals[i] is Exit
}

/// Nothing is drawn after an exit: events behind the first exit of a run
/// change nothing of what is written.
pub proof fn lemma_exit_ends_run(state: DisplayView, before: Seq<SignalView>, after: Seq<SignalView>)
    ensures
        state.transcript(before + seq![SignalView::Exit] + after) == state.transcript(
            before + seq![SignalView::Exit],
        ),
    decreases before.len(),
{
    let cut = before + seq![SignalView::Exit];
    let all = cut + after;
    if before.len() == 0 {
        assert(cut[0] is Exit);
        assert(all[0] is Exit);
    } else {
        assert(all[0] == before[0]);
        assert(cut[0] == before[0]);
        if !(before[0] is Exit) {
            let rest = before.drop_first();
            assert(cut.drop_first() =~= rest + seq![SignalView::Exit]);
            assert(all.drop_first() =~= rest + seq![SignalView::Exit] + after);
            lemma_exit_ends_run(state.next(before[0]), rest, after);
        }
    }
}

/// A run that holds an exit leaves the line cleared: the last thing written
/// is the clearing prefix, with nothing behind it.
pub proof fn lemma_exit_clears(state: DisplayView, signals: Seq<SignalView>)
    requires
        has_exit(signals),
    ensures
        state.transcript(signals).len() >= clear().len(),
        state.transcript(signals).subrange(
            state.transcript(signals).len() - clear().len(),
            state.transcript(signals).len() as int,
        ) == clear(),
    decreases signals.len(),
{
    let i = choose|i: int| 0 <= i < signals.len() && signals[i] is Exit;
    let whole = state.transcript(signals);
    if signals[0] is Exit {
        assert(whole.subrange(0, whole.len() as int) =~= clear());
    } else {
        let rest = signals.drop_first();
        assert(rest[i - 1] is Exit);
        let head = state.output(signals[0]);
        let tail = state.next(signals[0]).transcript(rest);
        lemma_exit_clears(state.next(signals[0]), rest);
        assert(whole.subrange(whole.len() - clear().len(), whole.len() as int) =~= tail.subrange(
            tail.len() - clear().len(),
            tail.len() as int,
        ));
    }
}

/// Events are drawn one after the other, each whole: what a run writes is
/// what its first part writes, followed by what the rest writes from the
/// state that the first part left, as long as the first part holds no exit.
pub proof fn lemma_runs_compose(state: DisplayView, first: Seq<SignalView>, rest: Seq<SignalView>)
    requires
        !has_exit(first),
    ensures
        state.transcript(first + rest) == state.transcript(first) + after_run(
            state,
            first,
        ).transcript(rest),
    decreases first.len(),
{
    if first.len() == 0 {
        assert(first + rest =~= rest);
        assert(state.transcript(first) + state.transcript(rest) =~= state.transcript(rest));
    } else {
        let all = first + rest;
        assert(all[0] == first[0]);
        assert(!(first[0] is Exit));
        assert(all.drop_first() =~= first.drop_first() + rest);
        assert forall|i: int| 0 <= i < first.drop_first().len() implies !(first.drop_first()[i] is Exit) by {
            assert(first.drop_first()[i] == first[i + 1]);
        }
        lemma_runs_compose(state.next(first[0]), first.drop_first(), rest);
        assert(state.transcript(all) =~= state.transcript(first) + after_run(
            state,
            first,
        ).transcript(rest));
    }
}

/// A new text replaces the old one whole: what a text event writes, and what
/// every frame after it writes, holds nothing of the text before.
pub proof fn lemma_text_replaces(state: DisplayView, text: Seq<char>, glyph: Seq<char>)
    ensures
        state.output(SignalView::Text(text)) == line(state.frame, text),
        state.next(SignalView::Text(text)).output(SignalView::Frame(glyph)) == line(glyph, text),
{
}

/// A commit writes the mark of its outcome, a space, its text and a newline,
/// and the frame after it starts a blank line: the glyph and a space.
pub proof fn lemma_commit_resets(
    state: DisplayView,
    status: Status,
    text: Seq<char>,
    glyph: Seq<char>,
)
    ensures
        state.output(SignalView::Next(status, text)) == clear() + status.glyph() + seq![' ']
            + text + seq!['\n'],
        state.next(SignalView::Next(status, text)).output(SignalView::Frame(glyph)) == clear()
            + glyph + seq![' '],
{
    assert(line(glyph, Seq::empty()) =~= clear() + glyph + seq![' ']);
}

/// A text, then a commit, then an exit write, in this order and with nothing
/// between them: the text behind the last glyph, the committed line with its
/// mark and a newline, and the clearing of the line.
pub proof fn lemma_text_commit_exit(
    state: DisplayView,
    text: Seq<char>,
    status: Status,
    last: Seq<char>,
)
    ensures
        state.transcript(
            seq![SignalView::Text(text), SignalView::Next(status, last), SignalView::Exit],
        ) == line(state.frame, text) + (line(status.glyph(), last) + seq!['\n']) + clear(),
{
    let run = seq![SignalView::Text(text), SignalView::Next(status, last), SignalView::Exit];
    let second = seq![SignalView::Next(status, last), SignalView::Exit];
    let third = seq![SignalView::Exit];
    assert(run.drop_first() =~= second);
    assert(second.drop_first() =~= third);
    let s1 = state.next(run[0]);
    let s2 = s1.next(second[0]);
    assert(s2.transcript(third) == clear());
    assert(s1.transcript(second) == s1.output(second[0]) + s2.transcript(third));
    assert(state.transcript(run) == state.output(run[0]) + s1.transcript(second));
    assert(state.transcript(run) =~= line(state.frame, text) + (line(status.glyph(), last)
        + seq!['\n']) + clear());
}

} // verus!
