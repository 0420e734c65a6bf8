use vstd::prelude::*;

use crate::sample::{all_in_range, sample_in_range};

verus! {

/// Window capacity used when no other bound is configured: enough recent
/// history for one display-width trace.
pub const DEFAULT_WINDOW_CAPACITY: usize = 1000;

/// One push into a window of capacity `cap`: the sample goes in at the tail,
/// and the head is evicted first when the window is already full.
pub open spec fn win_push(w: Seq<i64>, cap: nat, s: i64) -> Seq<i64> {
    if w.len() < cap {
        w.push(s)
    } else {
        w.drop_first().push(s)
    }
}

/// The window contents after pushing every sample of `pending` in order,
/// one at a time, starting from contents `w`.
pub open spec fn win_push_all(w: Seq<i64>, cap: nat, pending: Seq<i64>) -> Seq<i64>
    decreases pending.len(),
{
    if pending.len() == 0 {
        w
    } else {
        win_push_all(win_push(w, cap, pending[0]), cap, pending.drop_first())
    }
}

/// A fixed-capacity FIFO-eviction buffer of samples: insertion at the tail,
/// eviction at the head once the capacity would be exceeded, so the window
/// always holds the most recent samples in arrival order.
pub struct SlidingWindow {
    buf: Vec<i64>,
    cap: usize,
}

impl SlidingWindow {
    /// The stored samples, oldest first.
    pub closed spec fn view(&self) -> Seq<i64> {
        self.buf@
    }

    /// The capacity bound N of this window.
    pub closed spec fn spec_capacity(&self) -> nat {
        self.cap as nat
    }

    /// Well-formed: never longer than its capacity, and the capacity is positive.
    pub open spec fn wf(&self) -> bool {
        self@.len() <= self.spec_capacity() && self.spec_capacity() >= 1
    }

    /// An empty window with capacity `cap`.
    pub fn new(cap: usize) -> (w: SlidingWindow)
        requires
            cap >= 1,
        ensures
            w.wf(),
            w@ == Seq::<i64>::empty(),
            w.spec_capacity() == cap as nat,
    {
        SlidingWindow { buf: Vec::new(), cap }
    }

    /// Number of samples currently stored.
    pub fn len(&self) -> (n: usize)
        ensures
            n as nat == self@.len(),
    {
        self.buf.len()
    }

    /// The capacity bound N.
    pub fn capacity(&self) -> (n: usize)
        ensures
            n as nat == self.spec_capacity(),
    {
        self.cap
    }

    /// The oldest stored sample, or `None` when the window is empty.
    pub fn head(&self) -> (r: Option<i64>)
        ensures
            r == if self@.len() == 0 {
                None::<i64>
            } else {
                Some(self@[0])
            },
    {
        if self.buf.len() == 0 {
            None
        } else {
            Some(self.buf[0])
        }
    }

    /// Append a sample at the tail, evicting the oldest sample first when the
    /// window is already at capacity. Applied per sample, never batched, so a
    /// burst of arrivals evicts in exact FIFO order.
    pub fn push(&mut self, s: i64)
        requires
            old(self).wf(),
        ensures
            final(self).wf(),
            final(self).spec_capacity() == old(self).spec_capacity(),
            final(self)@ == win_push(old(self)@, old(self).spec_capacity(), s),
    {
        if self.buf.len() >= self.cap {
            self.buf.remove(0);
            proof {
                assert(self.buf@ =~= old(self).buf@.drop_first());
            }
        }
        self.buf.push(s);
    }

    /// The current contents in oldest-to-newest order; does not mutate the
    /// window. Presentation-layer scaling and clamping happen to this copy,
    /// never to the stored data.
    pub fn snapshot(&self) -> (v: Vec<i64>)
        ensures
            v@ == self@,
    {
        let mut v: Vec<i64> = Vec::new();
        let mut i: usize = 0;
        while i < self.buf.len()
            invariant
                i <= self.buf.len(),
                v@ == self.buf@.subrange(0, i as int),
            decreases self.buf.len() - i,
        {
            v.push(self.buf[i]);
            proof {
                assert(v@ =~= self.buf@.subrange(0, i as int + 1));
            }
            i += 1;
        }
        proof {
            assert(self.buf@.subrange(0, self.buf@.len() as int) =~= self.buf@);
        }
        v
    }
}

/// Pushing a sample in range into a window whose contents are in range
/// leaves every stored sample in range.
pub proof fn lemma_win_push_in_range(w: Seq<i64>, cap: nat, s: i64)
    requires
        all_in_range(w),
        sample_in_range(s),
        w.len() <= cap,
        cap >= 1,
    ensures
        all_in_range(win_push(w, cap, s)),
{
    let r = win_push(w, cap, s);
    assert forall|i: int| 0 <= i < r.len() implies sample_in_range(#[trigger] r[i]) by {
        if w.len() < cap {
            if i < w.len() {
                assert(r[i] == w[i]);
            }
        } else {
            if i < r.len() - 1 {
                assert(r[i] == w[i + 1]);
            }
        }
    }
}

/// The window that results from pushing `s` onto `w` is the suffix of
/// `w + s` that fits within the capacity: the most recent samples win.
pub proof fn lemma_win_push_all_suffix(w: Seq<i64>, cap: nat, s: Seq<i64>)
    requires
        w.len() <= cap,
        cap >= 1,
    ensures
        ({
            let all = w + s;
            let kept: int = if all.len() <= cap {
                all.len() as int
            } else {
                cap as int
            };
            win_push_all(w, cap, s) == all.subrange(all.len() - kept, all.len() as int)
        }),
    decreases s.len(),
{
    let all = w + s;
    let kept: int = if all.len() <= cap {
        all.len() as int
    } else {
        cap as int
    };
    if s.len() == 0 {
        assert(all =~= w);
        assert(all.subrange(all.len() - kept, all.len() as int) =~= w);
    } else {
        let w2 = win_push(w, cap, s[0]);
        lemma_win_push_all_suffix(w2, cap, s.drop_first());
        let all2 = w2 + s.drop_first();
        let kept2: int = if all2.len() <= cap {
            all2.len() as int
        } else {
            cap as int
        };
        if w.len() < cap {
            assert(all2 =~= all);
        } else {
            assert(all2 =~= all.drop_first());
            assert(all2.subrange(all2.len() - kept2, all2.len() as int) =~= all.subrange(
                all.len() - kept,
                all.len() as int,
            ));
        }
    }
}

/// Law: for any sequence of pushes into an initially empty window of
/// capacity `cap`, the window's length afterwards equals
/// `min(total_pushes, cap)`, and its contents are exactly the most recent
/// pushed samples in arrival order.
pub proof fn lemma_window_retains_most_recent(cap: nat, s: Seq<i64>)
    requires
        cap >= 1,
    ensures
        ({
            let kept: int = if s.len() <= cap {
                s.len() as int
            } else {
                cap as int
            };
            &&& win_push_all(Seq::<i64>::empty(), cap, s).len() == kept
            &&& win_push_all(Seq::<i64>::empty(), cap, s) == s.subrange(
                s.len() - kept,
                s.len() as int,
            )
        }),
{
    lemma_win_push_all_suffix(Seq::<i64>::empty(), cap, s);
    assert(Seq::<i64>::empty() + s =~= s);
}

} // verus!
