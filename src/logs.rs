use vstd::prelude::*;
use std::collections::VecDeque;

verus! {

/// How many lines a freshly made viewer keeps before it drops the oldest.
pub const DEFAULT_MAX_LOGS: usize = 1000;

/// A bounded buffer of log lines: it keeps the most recent lines, at most
/// `max_logs` of them, oldest first.
pub struct LogViewer {
    logs: VecDeque<String>,
    max_logs: usize,
}

impl LogViewer {
    /// The lines held, oldest first.
    pub closed spec fn view_lines(&self) -> Seq<String> {
        self.logs@
    }

    /// The most lines the buffer keeps.
    pub closed spec fn capacity(&self) -> nat {
        self.max_logs as nat
    }

    pub closed spec fn wf(&self) -> bool {
        &&& self.max_logs > 0
        &&& self.logs@.len() <= self.max_logs
    }

    pub fn new() -> (r: Self)
        ensures
            r.wf(),
            r.view_lines() == Seq::<String>::empty(),
            r.capacity() == DEFAULT_MAX_LOGS,
    {
        LogViewer { logs: VecDeque::new(), max_logs: DEFAULT_MAX_LOGS }
    }

    /// Appends a line; when the buffer is full the oldest line is dropped first.
    pub fn add_log(&mut self, log: String)
        requires
            old(self).wf(),
        ensures
            final(self).wf(),
            final(self).capacity() == old(self).capacity(),
            final(self).view_lines() == appended(old(self).view_lines(), old(self).capacity(), log),
    {
        if self.logs.len() >= self.max_logs {
            self.logs.pop_front();
        }
        self.logs.push_back(log);
    }

    /// A copy of the lines held, oldest first.
    pub fn get_logs(&self) -> (r: Vec<String>)
        ensures
            r@ == self.view_lines(),
    {
        let mut r: Vec<String> = Vec::new();
        let n = self.logs.len();
        let mut i: usize = 0;
        while i < n
            invariant
                n == self.logs@.len(),
                i <= n,
                r@ == self.logs@.subrange(0, i as int),
            decreases n - i,
        {
            r.push(self.logs[i].clone());
            proof {
                assert(r@ =~= self.logs@.subrange(0, i + 1));
            }
            i = i + 1;
        }
        proof {
            assert(r@ =~= self.logs@);
        }
        r
    }

    /// Drops every line held.
    pub fn clear(&mut self)
        requires
            old(self).wf(),
        ensures
            final(self).wf(),
            final(self).capacity() == old(self).capacity(),
            final(self).view_lines() == Seq::<String>::empty(),
    {
        self.logs.clear();
    }

    /// Reloads the buffer from its source. No source is attached, so the
    /// buffer is left as it is.
    pub fn refresh(&mut self)
        ensures
            *final(self) == *old(self),
    {
    }
}

/// The lines after `log` is added to `lines` in a buffer that keeps at most
/// `cap` lines.
pub open spec fn appended(lines: Seq<String>, cap: nat, log: String) -> Seq<String> {
    if lines.len() >= cap {
        lines.drop_first().push(log)
    } else {
        lines.push(log)
    }
}

} // verus!
