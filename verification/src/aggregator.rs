//! The smoothing window: the worst excess of each of the last ten ticks,
//! reduced to the highest among them, so that the fans slow down only once
//! the last hot sample has aged out.

use vstd::prelude::*;

verus! {

/// Number of ticks that the window remembers.
pub const WINDOW: usize = 10;

/// What a slot holds before any tick has filled it: lower than any
/// reading, so that it never raises the smoothed value.
pub const UNPOPULATED: i64 = i64::MIN;

/// The window `w` after one more sample: the oldest leaves, `v` comes last.
pub open spec fn slide(w: Seq<i64>, v: i64) -> Seq<i64> {
    w.drop_first().push(v)
}

/// The window `w` after the samples `vs`, taken in order.
pub open spec fn slide_all(w: Seq<i64>, vs: Seq<i64>) -> Seq<i64>
    decreases vs.len(),
{
    if vs.len() == 0 {
        w
    } else {
        slide(slide_all(w, vs.drop_last()), vs.last())
    }
}

/// `m` is the highest of `s`: one of its items, and no item is above it.
pub open spec fn is_max_of(m: i64, s: Seq<i64>) -> bool {
    &&& exists|i: int| 0 <= i < s.len() && s[i] == m
    &&& forall|i: int| 0 <= i < s.len() ==> s[i] <= m
}

/// The highest item of `s`; of nothing, the value of an unpopulated slot.
pub open spec fn highest(s: Seq<i64>) -> i64
    decreases s.len(),
{
    if s.len() == 0 {
        UNPOPULATED
    } else {
        let before = highest(s.drop_last());
        if s.last() > before {
            s.last()
        } else {
            before
        }
    }
}

/// The window before any sample.
pub open spec fn empty_window() -> Seq<i64> {
    Seq::new(WINDOW as nat, |i: int| UNPOPULATED)
}

/// A circular history of the worst excess of each recent tick, in
/// thousandths of a degree.
#[derive(Debug)]
pub struct ExcessAggregator {
    slots: Vec<i64>,
    cursor: usize,
}

impl View for ExcessAggregator {
    type V = Seq<i64>;

    /// The window, oldest sample first.
    closed spec fn view(&self) -> Seq<i64> {
        Seq::new(
            WINDOW as nat,
            |k: int| self.slots@[(self.cursor as int + k) % (WINDOW as int)],
        )
    }
}

impl ExcessAggregator {
    /// The window has its ten slots and the cursor points at one of them.
    pub closed spec fn wf(&self) -> bool {
        self.slots@.len() == WINDOW && self.cursor < WINDOW
    }

    /// A window always holds ten samples.
    pub proof fn lemma_window_len(&self)
        requires
            self.wf(),
        ensures
            self@.len() == WINDOW,
    {
    }

    /// A window in which no tick has been recorded yet.
    pub fn new() -> (r: ExcessAggregator)
        ensures
            r.wf(),
            r@ == empty_window(),
    {
        let mut slots: Vec<i64> = Vec::new();
        let mut i: usize = 0;
        while i < WINDOW
            invariant
                i <= WINDOW,
                slots.len() == i,
                forall|k: int| 0 <= k < i ==> slots[k] == UNPOPULATED,
            decreases WINDOW - i,
        {
            slots.push(UNPOPULATED);
            i += 1;
        }
        let r = ExcessAggregator { slots, cursor: 0 };
        assert(r@ =~= empty_window());
        r
    }

    /// Records this tick's worst excess over the oldest sample.
    pub fn record(&mut self, excess: i64)
        requires
            old(self).wf(),
        ensures
            final(self).wf(),
            final(self)@ == slide(old(self)@, excess),
    {
        let at: usize = self.cursor;
        self.slots.set(at, excess);
        self.cursor = (at + 1) % WINDOW;
        assert(self@ =~= slide(old(self)@, excess));
    }

    /// The highest excess in the window.
    pub fn smoothed(&self) -> (m: i64)
        requires
            self.wf(),
        ensures
            m == highest(self@),
    {
        let mut m: i64 = self.slots[0];
        let mut at: usize = 0;
        let mut i: usize = 1;
        while i < WINDOW
            invariant
                1 <= i <= WINDOW,
                self.slots@.len() == WINDOW,
                at < i,
                m == self.slots[at as int],
                forall|k: int| 0 <= k < i ==> self.slots[k] <= m,
            decreases WINDOW - i,
        {
            if self.slots[i] > m {
                m = self.slots[i];
                at = i;
            }
            i += 1;
        }
        proof {
            let c = self.cursor as int;
            let k = (at as int + WINDOW as int - c) % (WINDOW as int);
            assert((c + k) % (WINDOW as int) == at);
            assert(self@[k] == m);
            assert(is_max_of(m, self@));
            lemma_highest_is_max(self@);
        }
        m
    }
}

/// After any samples, the window holds the last ten of what it held
/// followed by them.
pub proof fn lemma_window_is_suffix(w: Seq<i64>, vs: Seq<i64>)
    requires
        w.len() == WINDOW,
    ensures
        slide_all(w, vs) == (w + vs).subrange(vs.len() as int, vs.len() + WINDOW),
    decreases vs.len(),
{
    if vs.len() == 0 {
        assert(slide_all(w, vs) =~= (w + vs).subrange(0, WINDOW as int));
    } else {
        lemma_window_is_suffix(w, vs.drop_last());
        assert(slide_all(w, vs) =~= (w + vs).subrange(vs.len() as int, vs.len() + WINDOW));
    }
}

/// Once ten or more samples have been recorded, the window is exactly the
/// last ten of them, whatever it held before: after ten it is all of them,
/// and an eleventh evicts the first.
pub proof fn lemma_window_last_ten(w: Seq<i64>, vs: Seq<i64>)
    requires
        w.len() == WINDOW,
        vs.len() >= WINDOW,
    ensures
        slide_all(w, vs) == vs.subrange(vs.len() - WINDOW, vs.len() as int),
{
    lemma_window_is_suffix(w, vs);
    assert((w + vs).subrange(vs.len() as int, vs.len() + WINDOW) =~= vs.subrange(
        vs.len() - WINDOW,
        vs.len() as int,
    ));
}

/// The highest of a sequence that is not empty is one of its items, and
/// no item is above it; nothing else is.
pub proof fn lemma_highest_is_max(s: Seq<i64>)
    requires
        s.len() > 0,
    ensures
        is_max_of(highest(s), s),
        forall|m: i64| is_max_of(m, s) ==> m == highest(s),
    decreases s.len(),
{
    let front = s.drop_last();
    if front.len() == 0 {
        assert(highest(front) == UNPOPULATED);
        assert(s[0] == highest(s));
    } else {
        lemma_highest_is_max(front);
        let i = choose|i: int| 0 <= i < front.len() && front[i] == highest(front);
        assert(s[i] == front[i]);
        assert(s[s.len() - 1] == s.last());
        assert forall|k: int| 0 <= k < s.len() implies s[k] <= highest(s) by {
            if k < front.len() {
                assert(s[k] == front[k]);
            }
        }
    }
}

/// A window that has seen ten or more samples reports the highest of the
/// last ten.
pub proof fn lemma_smoothed_is_highest_of_last_ten(w: Seq<i64>, vs: Seq<i64>)
    requires
        w.len() == WINDOW,
        vs.len() >= WINDOW,
    ensures
        highest(slide_all(w, vs)) == highest(vs.subrange(vs.len() - WINDOW, vs.len() as int)),
        is_max_of(
            highest(slide_all(w, vs)),
            vs.subrange(vs.len() - WINDOW, vs.len() as int),
        ),
{
    lemma_window_last_ten(w, vs);
    lemma_highest_is_max(vs.subrange(vs.len() - WINDOW, vs.len() as int));
}

} // verus!
