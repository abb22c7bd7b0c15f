//! The frame sequencer: an ordered, non-empty list of glyphs with a cursor.

use std::time::Duration;
use vstd::arithmetic::div_mod::{lemma_mod_add_multiples_vanish, lemma_small_mod};
use vstd::prelude::*;

verus! {

/// The duration that `Duration::from_millis` makes of a number of milliseconds.
pub uninterp spec fn millis(ms: u64) -> Duration;

/// Calls `Duration::from_millis`. The result is a function of the number
/// alone, and the contract only gives it its name.
#[verifier::external_body]
fn from_millis(ms: u64) -> (d: Duration)
    ensures
        d == millis(ms),
{
    Duration::from_millis(ms)
}

/// What a spinner is: its glyphs, the cursor, and the pause between frames.
pub struct SpinnerView {
    pub frames: Seq<Seq<char>>,
    pub index: nat,
    pub interval: Duration,
}

impl SpinnerView {
    /// There is a glyph, and the cursor is on one or just behind the last.
    pub open spec fn wf(self) -> bool {
        0 < self.frames.len() && self.index <= self.frames.len()
    }

    /// A spinner that has not been advanced yet.
    pub open spec fn fresh(frames: Seq<Seq<char>>) -> SpinnerView {
        SpinnerView { frames, index: 0, interval: millis(80) }
    }

    /// The glyph that the next advance hands out: the one under the cursor,
    /// or the first where the cursor stands behind the last.
    pub open spec fn current(self) -> Seq<char> {
        if self.index < self.frames.len() {
            self.frames[self.index as int]
        } else {
            self.frames[0]
        }
    }

    /// The spinner after one advance: the cursor moves on by one, or, from
    /// behind the last glyph, to the second position.
    pub open spec fn advance(self) -> SpinnerView {
        SpinnerView {
            index: if self.index < self.frames.len() {
                self.index + 1
            } else {
                1
            },
            ..self
        }
    }

    /// The spinner after `n` advances.
    pub open spec fn after(self, n: nat) -> SpinnerView
        decreases n,
    {
        if n == 0 {
            self
        } else {
            self.after((n - 1) as nat).advance()
        }
    }
}

/// A cycling sequence of glyphs.
#[derive(Debug)]
pub struct Spinner {
    index: usize,
    frames: Vec<&'static str>,
    interval: Duration,
}

impl View for Spinner {
    type V = SpinnerView;

    closed spec fn view(&self) -> SpinnerView {
        SpinnerView {
            frames: Seq::new(self.frames@.len(), |i: int| self.frames@[i]@),
            index: self.index as nat,
            interval: self.interval,
        }
    }
}

/// The ten braille glyphs of the default spinner.
pub open spec fn braille() -> Seq<Seq<char>> {
    seq![
        seq!['\u{280B}'],
        seq!['\u{2819}'],
        seq!['\u{2839}'],
        seq!['\u{2838}'],
        seq!['\u{283C}'],
        seq!['\u{2834}'],
        seq!['\u{2826}'],
        seq!['\u{2827}'],
        seq!['\u{2807}'],
        seq!['\u{280F}'],
    ]
}

impl Default for Spinner {
    /// The braille spinner, with a pause of 80 milliseconds.
    fn default() -> (s: Spinner)
        ensures
            s@ == SpinnerView::fresh(braille()),
    {
        proof {
            reveal_strlit("\u{280B}");
            reveal_strlit("\u{2819}");
            reveal_strlit("\u{2839}");
            reveal_strlit("\u{2838}");
            reveal_strlit("\u{283C}");
            reveal_strlit("\u{2834}");
            reveal_strlit("\u{2826}");
            reveal_strlit("\u{2827}");
            reveal_strlit("\u{2807}");
            reveal_strlit("\u{280F}");
        }
        let frames = vec![
            "\u{280B}",
            "\u{2819}",
            "\u{2839}",
            "\u{2838}",
            "\u{283C}",
            "\u{2834}",
            "\u{2826}",
            "\u{2827}",
            "\u{2807}",
            "\u{280F}",
        ];
        let s = Spinner::new(frames);
        assert forall|i: int| 0 <= i < 10 implies (#[trigger] s@.frames[i]) =~= braille()[i] by {
            assert(s@.frames[i] == frames@[i]@);
        }
        assert(s@.frames =~= braille());
        s
    }
}

impl Spinner {
    #[verifier::type_invariant]
    spec fn inv(&self) -> bool {
        0 < self.frames@.len() && self.index <= self.frames@.len()
    }

    /// A spinner over `frames`, which holds at least one glyph, with the
    /// cursor on the first and a pause of 80 milliseconds.
    pub fn new(frames: Vec<&'static str>) -> (s: Spinner)
        requires
            frames@.len() > 0,
        ensures
            s@ == SpinnerView::fresh(Seq::new(frames@.len(), |i: int| frames@[i]@)),
            s@.wf(),
    {
        Spinner { index: 0, frames, interval: from_millis(80) }
    }

    /// Sets the pause between two frames.
    pub fn interval(&mut self, interval: Duration)
        ensures
            final(self)@ == (SpinnerView { interval, ..old(self)@ }),
    {
        proof {
            use_type_invariant(&*self);
        }
        self.interval = interval;
    }

    /// The pause between two frames.
    pub fn pause(&self) -> (d: Duration)
        ensures
            d == self@.interval,
    {
        self.interval
    }

    /// Hands out the glyph under the cursor and moves the cursor on. From
    /// behind the last glyph it hands out the first and moves to the second
    /// position.
    pub fn next(&mut self) -> (glyph: &'static str)
        ensures
            old(self)@.wf(),
            glyph@ == old(self)@.current(),
            final(self)@ == old(self)@.advance(),
            final(self)@.wf(),
    {
        proof {
            use_type_invariant(&*self);
        }
        if self.index < self.frames.len() {
            let glyph = self.frames[self.index];
            self.index += 1;
            glyph
        } else {
            self.index = 1;
            self.frames[0]
        }
    }
}

/// Counted from zero, the first calls of `next` on a fresh spinner, as many
/// as it has glyphs, hand out the glyphs in order, each once.
pub proof fn lemma_first_round(v: SpinnerView, k: nat)
    requires
        v.wf(),
        v.index == 0,
        k < v.frames.len(),
    ensures
        v.after(k).index == k,
        v.after(k).frames == v.frames,
        v.after(k).current() == v.frames[k as int],
    decreases k,
{
    if k > 0 {
        lemma_first_round(v, (k - 1) as nat);
    }
}

/// After as many calls as a fresh spinner has glyphs, the next call finds the
/// cursor behind the last glyph, hands out the first glyph and leaves the
/// cursor on the second position.
pub proof fn lemma_wrap(v: SpinnerView)
    requires
        v.wf(),
        v.index == 0,
    ensures
        v.after(v.frames.len()).index == v.frames.len(),
        v.after(v.frames.len()).current() == v.frames[0],
        v.after(v.frames.len() + 1).index == 1,
{
    let n = v.frames.len();
    lemma_first_round(v, (n - 1) as nat);
    assert(v.after(n) == v.after((n - 1) as nat).advance());
    assert(v.after(n + 1) == v.after(n).advance());
}

/// A spinner keeps its glyphs and a valid cursor however often it advances.
pub proof fn lemma_after_wf(v: SpinnerView, k: nat)
    requires
        v.wf(),
    ensures
        v.after(k).wf(),
        v.after(k).frames == v.frames,
        v.after(k).interval == v.interval,
        k > 0 ==> v.after(k).index >= 1,
    decreases k,
{
    if k > 0 {
        lemma_after_wf(v, (k - 1) as nat);
    }
}

/// The glyphs repeat with the length of the list as their period: a call
/// hands out what the call that many calls earlier handed out. With the
/// first round this fixes every call: the glyphs come in order, round after
/// round, and the jump to the second position never skips a glyph.
pub proof fn lemma_period(v: SpinnerView, k: nat)
    requires
        v.wf(),
        v.index == 0,
    ensures
        v.after(k + v.frames.len()).current() == v.after(k).current(),
        k > 0 ==> v.after(k + v.frames.len()).index == v.after(k).index,
    decreases k,
{
    let n = v.frames.len();
    lemma_after_wf(v, k);
    lemma_after_wf(v, k + n);
    if k == 0 {
        lemma_wrap(v);
    } else if k == 1 {
        lemma_wrap(v);
        assert(v.after(1) == v.after(0).advance());
    } else {
        lemma_period(v, (k - 1) as nat);
        lemma_after_wf(v, (k - 1) as nat);
        assert(v.after(k) == v.after((k - 1) as nat).advance());
        assert(v.after(k + n) == v.after((k - 1 + n) as nat).advance());
        assert(v.after((k - 1 + n) as nat) == v.after(((k - 1) as nat) + n));
        lemma_after_wf(v, ((k - 1) as nat) + n);
    }
}

/// Counted from zero, the call with number `k` on a fresh spinner hands out
/// the glyph at `k` modulo the length of the list.
pub proof fn lemma_every_call(v: SpinnerView, k: nat)
    requires
        v.wf(),
        v.index == 0,
    ensures
        v.after(k).current() == v.frames[(k % v.frames.len()) as int],
    decreases k,
{
    let n = v.frames.len();
    if k < n {
        lemma_first_round(v, k);
        lemma_small_mod(k, n);
    } else {
        let j = (k - n) as nat;
        lemma_every_call(v, j);
        lemma_period(v, j);
        lemma_mod_add_multiples_vanish(j as int, n as int);
        assert(j + n == k);
    }
}

} // verus!
