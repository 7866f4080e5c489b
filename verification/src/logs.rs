//! The bounded ring of log lines shown in the footer ticker.

use std::collections::VecDeque;
use vstd::prelude::*;

verus! {

/// The newest lines of a log, at most `cap` of them, oldest first.
#[derive(Debug)]
pub struct LogBuffer {
    lines: VecDeque<String>,
    cap: usize,
}

/// The mathematical value of a `LogBuffer`: the lines it holds, oldest
/// first, and how many it may hold.
pub struct LogView {
    pub lines: Seq<Seq<char>>,
    pub cap: nat,
}

/// The last `n` elements of `s` (all of `s` when it is shorter), in order.
pub open spec fn keep_last<A>(s: Seq<A>, n: nat) -> Seq<A> {
    if s.len() <= n {
        s
    } else {
        s.subrange(s.len() - n, s.len() as int)
    }
}

/// A buffer holds at least one line's room, at most `usize::MAX`, and never
/// more lines than its room.
pub open spec fn log_wf(v: LogView) -> bool {
    1 <= v.cap && v.cap <= usize::MAX && v.lines.len() <= v.cap
}

/// The buffer after one more line: the newest `cap` of its lines and the new one.
pub open spec fn push_spec(v: LogView, line: Seq<char>) -> LogView {
    LogView { lines: keep_last(v.lines.push(line), v.cap), cap: v.cap }
}

impl View for LogBuffer {
    type V = LogView;

    closed spec fn view(&self) -> LogView {
        LogView { lines: self.lines@.map_values(|s: String| s@), cap: self.cap as nat }
    }
}

impl LogBuffer {
    /// The buffer holds at least one line's room and never more lines than that.
    #[verifier::type_invariant]
    closed spec fn inv(&self) -> bool {
        1 <= self.cap && self.lines@.len() <= self.cap
    }

    /// An empty buffer with room for `cap` lines (one line when `cap` is 0).
    pub fn new(cap: usize) -> (b: Self)
        ensures
            log_wf(b@),
            b@.lines == Seq::<Seq<char>>::empty(),
            b@.cap == (if cap == 0 {
                1
            } else {
                cap
            }),
    {
        let b = LogBuffer { lines: VecDeque::new(), cap: if cap == 0 {
            1
        } else {
            cap
        } };
        proof {
            assert(b@.lines =~= Seq::<Seq<char>>::empty());
        }
        b
    }

    /// Appends a line, dropping the oldest one when the buffer is full.
    pub fn push(&mut self, line: String)
        ensures
            log_wf(final(self)@),
            final(self)@ == push_spec(old(self)@, line@),
    {
        proof {
            use_type_invariant(&*self);
        }
        let ghost old_lines = self.lines@;
        // The invariant must hold whenever the field is borrowed, so the lines
        // are edited outside the struct and put back.
        let mut lines: VecDeque<String> = VecDeque::new();
        std::mem::swap(&mut lines, &mut self.lines);
        if lines.len() == self.cap {
            lines.pop_front();
        }
        lines.push_back(line);
        std::mem::swap(&mut lines, &mut self.lines);
        proof {
            let v = old_lines.map_values(|s: String| s@).push(line@);
            if old_lines.len() == self.cap {
                assert(self.lines@ == old_lines.subrange(1, old_lines.len() as int).push(line));
            } else {
                assert(self.lines@ == old_lines.push(line));
            }
            assert(self@.lines =~= keep_last(v, self.cap as nat));
        }
    }

    /// The last `n` lines (all of them when there are fewer), oldest first.
    pub fn tail(&self, n: usize) -> (r: Vec<String>)
        ensures
            r@.map_values(|s: String| s@) == keep_last(self@.lines, n as nat),
    {
        let len = self.lines.len();
        let skip = len.saturating_sub(n);
        let mut r: Vec<String> = Vec::new();
        let mut i: usize = skip;
        while i < len
            invariant
                len == self.lines@.len(),
                skip <= i <= len,
                r@.len() == i - skip,
                forall|j: int| 0 <= j < r@.len() ==> r@[j]@ == #[trigger] self.lines@[skip + j]@,
            decreases len - i,
        {
            r.push(self.lines[i].clone());
            i = i + 1;
        }
        proof {
            let lv = self@.lines;
            assert(lv.len() == len);
            assert(skip == len - keep_last(lv, n as nat).len());
            assert forall|j: int| 0 <= j < r@.len() implies r@.map_values(|s: String| s@)[j]
                == #[trigger] keep_last(lv, n as nat)[j] by {
                assert(lv[skip + j] == self.lines@[skip + j]@);
            }
            assert(r@.map_values(|s: String| s@) =~= keep_last(lv, n as nat));
        }
        r
    }

    /// Whether no line has been kept yet.
    pub fn is_empty(&self) -> (r: bool)
        ensures
            r == (self@.lines.len() == 0),
    {
        self.lines.len() == 0
    }
}

} // verus!
