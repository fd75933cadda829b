//! The command-line editor's value and history.
//!
//! Key decoding and drawing happen outside the crate; what is kept here
//! is the edited line and the walk through previously run commands.
use vstd::prelude::*;
use vstd::view::View as _;

use crate::text::str_eq;

verus! {

/// The index of the first entry of `s` that reads `value`.
pub open spec fn find_line(s: Seq<String>, value: Seq<char>) -> Option<int>
    decreases s.len(),
{
    if s.len() == 0 {
        None
    } else if s[0]@ == value {
        Some(0int)
    } else {
        match find_line(s.drop_first(), value) {
            Some(j) => Some(j + 1),
            None => None,
        }
    }
}

/// The command line: the line being edited and the history behind it.
#[derive(Debug)]
pub struct CmdLine {
    /// The line currently edited.
    pub value: String,
    /// Previously run lines, oldest first.
    pub history: Vec<String>,
    /// Where the history walk stands, if one is under way.
    pub cur_history_item: Option<usize>,
}

impl CmdLine {
    /// A history walk always stands on an existing entry.
    pub open spec fn wf(self) -> bool {
        match self.cur_history_item {
            Some(c) => c < self.history@.len(),
            None => true,
        }
    }

    pub fn new() -> (r: CmdLine)
        ensures
            r.wf(),
            r.value@ == Seq::<char>::empty(),
            r.history@ == Seq::<String>::empty(),
            r.cur_history_item is None,
    {
        CmdLine { value: String::new(), history: Vec::new(), cur_history_item: None }
    }

    pub fn value(&self) -> (r: &String)
        ensures
            r == self.value,
    {
        &self.value
    }

    /// Empties the edited line and ends any history walk.
    pub fn clear(&mut self)
        ensures
            final(self).wf(),
            *final(self) == (CmdLine {
                value: final(self).value,
                cur_history_item: None,
                ..*old(self)
            }),
            final(self).value@ == Seq::<char>::empty(),
    {
        self.value = String::new();
        self.cur_history_item = None;
    }

    /// Records a run line: an older duplicate is dropped first, so the
    /// history holds each line once, most recently run last.
    pub fn push_history(&mut self, line: String)
        requires
            old(self).wf(),
        ensures
            final(self).wf(),
            final(self).history@ == (match find_line(old(self).history@, line@) {
                Some(j) => old(self).history@.remove(j),
                None => old(self).history@,
            }).push(line),
            final(self).value == old(self).value,
            final(self).cur_history_item == old(self).cur_history_item,
    {
        let n = self.history.len();
        proof {
            assert(self.history@.subrange(0, n as int) =~= self.history@);
        }
        let mut k: usize = 0;
        while k < n
            invariant
                *self == *old(self),
                old(self).wf(),
                n == self.history@.len(),
                k <= n,
                find_line(self.history@, line@) == match find_line(
                    self.history@.subrange(k as int, n as int),
                    line@,
                ) {
                    Some(j) => Some(j + k),
                    None => None::<int>,
                },
            decreases n - k,
        {
            let ghost rest = self.history@.subrange(k as int, n as int);
            proof {
                assert(rest[0] == self.history@[k as int]);
                assert(rest.drop_first() =~= self.history@.subrange(k as int + 1, n as int));
            }
            if str_eq(self.history[k].as_str(), line.as_str()) {
                proof {
                    assert(find_line(rest, line@) == Some(0int));
                    assert(find_line(self.history@, line@) == Some(k as int));
                }
                let _ = self.history.remove(k);
                self.history.push(line);
                return;
            }
            k = k + 1;
        }
        proof {
            assert(self.history@.subrange(n as int, n as int) =~= Seq::<String>::empty());
            assert(find_line(self.history@, line@) is None);
        }
        self.history.push(line);
    }

    /// Steps the history walk towards newer lines; past the newest the
    /// line empties and the walk ends.
    pub fn next_history(&mut self)
        requires
            old(self).wf(),
        ensures
            final(self).wf(),
            old(self).history@.len() == 0 ==> *final(self) == *old(self),
            old(self).history@.len() > 0 ==> match old(self).cur_history_item {
                None => *final(self) == *old(self),
                Some(cur) => if cur as int + 1 >= old(self).history@.len() {
                    &&& final(self).value@ == Seq::<char>::empty()
                    &&& final(self).cur_history_item is None
                    &&& final(self).history == old(self).history
                } else {
                    &&& final(self).value == old(self).history@[cur as int + 1]
                    &&& final(self).cur_history_item == Some((cur + 1) as usize)
                    &&& final(self).history == old(self).history
                },
            },
    {
        let history_len = self.history.len();
        if history_len == 0 {
            return;
        }
        let cur_item = match self.cur_history_item {
            Some(cur) => cur,
            None => {
                return;
            },
        };
        let cur_item = cur_item.saturating_add(1);

        if cur_item >= history_len {
            self.value = String::new();
            self.cur_history_item = None;
        } else {
            self.value = self.history[cur_item].clone();
            self.cur_history_item = Some(cur_item);
        }
    }

    /// Steps the history walk towards older lines, starting at the newest
    /// and stopping at the oldest.
    pub fn prev_history(&mut self)
        requires
            old(self).wf(),
        ensures
            final(self).wf(),
            old(self).history@.len() == 0 ==> *final(self) == *old(self),
            old(self).history@.len() > 0 ==> ({
                let cur = match old(self).cur_history_item {
                    Some(c) => if c > 0 {
                        c - 1
                    } else {
                        0
                    },
                    None => old(self).history@.len() - 1,
                };
                &&& final(self).value == old(self).history@[cur as int]
                &&& final(self).cur_history_item == Some(cur as usize)
                &&& final(self).history == old(self).history
            }),
    {
        let history_len = self.history.len();
        if history_len == 0 {
            return;
        }
        let cur_item = match self.cur_history_item {
            Some(cur) => cur.saturating_sub(1),
            None => history_len - 1,
        };
        self.value = self.history[cur_item].clone();
        self.cur_history_item = Some(cur_item);
    }
}

} // verus!
