use vstd::prelude::*;
use crate::strutil::{chars_to_string, is_blank, spec_is_blank, str_to_chars, string_eq_str};

verus! {

/// The input-history entries the editor keeps at most.
pub const HISTORY_LIMIT: usize = 100;

/// One key event the line editor reacts to, already decoded from the
/// terminal by the surrounding loop.
#[derive(Debug, Clone, Copy, PartialEq, Eq, Structural)]
pub enum EditorKey {
    Char(char),
    CtrlC,
    CtrlU,
    Backspace,
    Delete,
    Left,
    Right,
    Home,
    End,
    Up,
    Down,
    Enter,
}

/// What one key did: the editing goes on (and the line may need redrawing),
/// the user cancelled the input, or the user submitted the trimmed line.
#[derive(Debug)]
pub enum EditorStep {
    Continue { redraw: bool },
    Cancelled,
    Submitted(String),
}

/// The characters of `s` with leading blanks removed.
pub open spec fn spec_trim_start(s: Seq<char>) -> Seq<char>
    decreases s.len(),
{
    if s.len() == 0 {
        s
    } else if spec_is_blank(s[0]) {
        spec_trim_start(s.drop_first())
    } else {
        s
    }
}

/// The characters of `s` with trailing blanks removed.
pub open spec fn spec_trim_end(s: Seq<char>) -> Seq<char>
    decreases s.len(),
{
    if s.len() == 0 {
        s
    } else if spec_is_blank(s.last()) {
        spec_trim_end(s.drop_last())
    } else {
        s
    }
}

/// The characters of `s` with leading and trailing blanks removed.
pub open spec fn spec_trim(s: Seq<char>) -> Seq<char> {
    spec_trim_start(spec_trim_end(s))
}

/// Removes leading and trailing blanks.
pub fn trim_chars(s: &Vec<char>) -> (r: Vec<char>)
    ensures
        r@ == spec_trim(s@),
{
    let n = s.len();
    let mut end: usize = n;
    proof {
        assert(s@.subrange(0, n as int) =~= s@);
    }
    while end > 0 && is_blank(s[end - 1])
        invariant
            n == s@.len(),
            0 <= end <= n,
            spec_trim_end(s@) == spec_trim_end(s@.subrange(0, end as int)),
        decreases end,
    {
        proof {
            assert(s@.subrange(0, end as int).drop_last() =~= s@.subrange(0, end - 1));
        }
        end = end - 1;
    }
    proof {
        assert(spec_trim_end(s@.subrange(0, end as int)) == s@.subrange(0, end as int));
    }
    let mut start: usize = 0;
    while start < end && is_blank(s[start])
        invariant
            n == s@.len(),
            0 <= start <= end <= n,
            spec_trim_end(s@) == s@.subrange(0, end as int),
            spec_trim_start(s@.subrange(0, end as int)) == spec_trim_start(
                s@.subrange(start as int, end as int),
            ),
        decreases end - start,
    {
        proof {
            assert(s@.subrange(start as int, end as int).drop_first() =~= s@.subrange(
                start + 1,
                end as int,
            ));
        }
        start = start + 1;
    }
    proof {
        if start < end {
            assert(spec_trim_start(s@.subrange(start as int, end as int)) == s@.subrange(
                start as int,
                end as int,
            ));
        } else {
            assert(s@.subrange(start as int, end as int) =~= Seq::<char>::empty());
        }
    }
    let mut out: Vec<char> = Vec::new();
    let mut i: usize = start;
    while i < end
        invariant
            n == s@.len(),
            0 <= start <= i <= end <= n,
            out@ == s@.subrange(start as int, i as int),
        decreases end - i,
    {
        out.push(s[i]);
        proof {
            assert(out@ =~= s@.subrange(start as int, i + 1));
        }
        i = i + 1;
    }
    proof {
        assert(out@ =~= s@.subrange(start as int, end as int));
    }
    out
}

/// The line editor's state: the buffer being edited, the cursor (a
/// character position, never past the end), the submitted-input history,
/// and, while the user browses that history, which entry is shown and what
/// the line held before browsing began.
#[derive(Debug)]
pub struct LineEditor {
    pub buffer: Vec<char>,
    pub cursor: usize,
    pub history: Vec<String>,
    pub history_index: Option<usize>,
    pub snapshot: Vec<char>,
}

impl LineEditor {
    /// The editor's structural invariant: the cursor stays within the
    /// buffer and a browsed history entry exists.
    pub open spec fn wf(&self) -> bool {
        &&& self.cursor <= self.buffer@.len()
        &&& match self.history_index {
            Some(i) => (i as int) < self.history@.len(),
            None => true,
        }
    }

    /// An editor over the given initial line (the cursor at its end) and
    /// the given input history.
    pub fn new(initial: Option<String>, history: Vec<String>) -> (r: LineEditor)
        ensures
            r.wf(),
            r.buffer@ == (match initial {
                Some(s) => s@,
                None => Seq::<char>::empty(),
            }),
            r.cursor == r.buffer@.len(),
            r.history@ == history@,
            r.history_index is None,
    {
        let buffer = match &initial {
            Some(s) => str_to_chars(s.as_str()),
            None => Vec::new(),
        };
        let cursor = buffer.len();
        LineEditor { buffer, cursor, history, history_index: None, snapshot: Vec::new() }
    }

    /// Takes one key. Characters are inserted at the cursor; backspace and
    /// delete remove around it; the arrow, home and end keys move it; up
    /// and down browse the history, keeping a snapshot of the line being
    /// edited; enter trims the line, records it in the history (skipping
    /// blank lines and immediate repeats, and dropping the oldest entry
    /// over the limit) and submits it; control-C cancels the input.
    pub fn handle_key(&mut self, key: EditorKey) -> (r: EditorStep)
        requires
            old(self).wf(),
            old(self).buffer@.len() < usize::MAX,
        ensures
            final(self).wf(),
            final(self).history@.len() <= old(self).history@.len() + 1,
            match key {
                EditorKey::Char(c) => {
                    &&& r matches EditorStep::Continue { redraw: true }
                    &&& final(self).buffer@ == old(self).buffer@.insert(
                        old(self).cursor as int,
                        c,
                    )
                    &&& final(self).cursor == old(self).cursor + 1
                    &&& final(self).history@ == old(self).history@
                },
                EditorKey::CtrlC => r is Cancelled && *final(self) == *old(self),
                EditorKey::CtrlU => {
                    &&& r matches EditorStep::Continue { redraw: true }
                    &&& final(self).buffer@.len() == 0
                    &&& final(self).cursor == 0
                    &&& final(self).history@ == old(self).history@
                },
                EditorKey::Backspace => {
                    &&& if old(self).cursor > 0 {
                        &&& r matches EditorStep::Continue { redraw: true }
                        &&& final(self).buffer@ == old(self).buffer@.remove(
                            old(self).cursor - 1,
                        )
                        &&& final(self).cursor == old(self).cursor - 1
                    } else {
                        r matches EditorStep::Continue { redraw: false } && *final(self) == *old(
                            self,
                        )
                    }
                    &&& final(self).history@ == old(self).history@
                },
                EditorKey::Delete => {
                    &&& if old(self).cursor < old(self).buffer@.len() {
                        &&& r matches EditorStep::Continue { redraw: true }
                        &&& final(self).buffer@ == old(self).buffer@.remove(
                            old(self).cursor as int,
                        )
                        &&& final(self).cursor == old(self).cursor
                    } else {
                        r matches EditorStep::Continue { redraw: false } && *final(self) == *old(
                            self,
                        )
                    }
                    &&& final(self).history@ == old(self).history@
                },
                EditorKey::Left => {
                    &&& final(self).buffer@ == old(self).buffer@
                    &&& final(self).history@ == old(self).history@
                    &&& if old(self).cursor > 0 {
                        final(self).cursor == old(self).cursor - 1 && r matches
                            EditorStep::Continue { redraw: true }
                    } else {
                        final(self).cursor == old(self).cursor && r matches EditorStep::Continue {
                            redraw: false }
                    }
                },
                EditorKey::Right => {
                    &&& final(self).buffer@ == old(self).buffer@
                    &&& final(self).history@ == old(self).history@
                    &&& if old(self).cursor < old(self).buffer@.len() {
                        final(self).cursor == old(self).cursor + 1 && r matches
                            EditorStep::Continue { redraw: true }
                    } else {
                        final(self).cursor == old(self).cursor && r matches EditorStep::Continue {
                            redraw: false }
                    }
                },
                EditorKey::Home => {
                    &&& r matches EditorStep::Continue { redraw: true }
                    &&& final(self).buffer@ == old(self).buffer@
                    &&& final(self).cursor == 0
                    &&& final(self).history@ == old(self).history@
                },
                EditorKey::End => {
                    &&& r matches EditorStep::Continue { redraw: true }
                    &&& final(self).buffer@ == old(self).buffer@
                    &&& final(self).cursor == old(self).buffer@.len()
                    &&& final(self).history@ == old(self).history@
                },
                EditorKey::Up => {
                    &&& final(self).history@ == old(self).history@
                    &&& if old(self).history@.len() == 0 {
                        r matches EditorStep::Continue { redraw: false } && *final(self) == *old(
                            self,
                        )
                    } else {
                        ({
                            let idx = match old(self).history_index {
                                Some(i) => if i > 0 {
                                    (i - 1) as int
                                } else {
                                    0
                                },
                                None => old(self).history@.len() - 1,
                            };
                            &&& r matches EditorStep::Continue { redraw: true }
                            &&& final(self).history_index == Some(idx as usize)
                            &&& final(self).buffer@ == old(self).history@[idx]@
                            &&& final(self).cursor == final(self).buffer@.len()
                            &&& final(self).snapshot@ == (if old(self).history_index is None {
                                old(self).buffer@
                            } else {
                                old(self).snapshot@
                            })
                        })
                    }
                },
                EditorKey::Down => {
                    &&& final(self).history@ == old(self).history@
                    &&& match old(self).history_index {
                        None => r matches EditorStep::Continue { redraw: false } && *final(self)
                            == *old(self),
                        Some(i) => {
                            &&& r matches EditorStep::Continue { redraw: true }
                            &&& final(self).snapshot@ == old(self).snapshot@
                            &&& if i + 1 < old(self).history@.len() {
                                &&& final(self).history_index == Some((i + 1) as usize)
                                &&& final(self).buffer@ == old(self).history@[i + 1]@
                                &&& final(self).cursor == final(self).buffer@.len()
                            } else {
                                &&& final(self).history_index is None
                                &&& final(self).buffer@ == old(self).snapshot@
                                &&& final(self).cursor == final(self).buffer@.len()
                            }
                        },
                    }
                },
                EditorKey::Enter => {
                    &&& r matches EditorStep::Submitted(line) && line@ == spec_trim(
                        old(self).buffer@,
                    )
                    &&& ({
                        let trimmed = spec_trim(old(self).buffer@);
                        let pushed = trimmed.len() > 0 && !(old(self).history@.len() > 0 && old(
                            self,
                        ).history@.last()@ == trimmed);
                        if pushed {
                            if old(self).history@.len() + 1 > HISTORY_LIMIT as int {
                                final(self).history@.len() == old(self).history@.len()
                                    && final(self).history@ == old(self).history@.drop_first().push(
                                    final(self).history@.last(),
                                ) && final(self).history@.last()@ == trimmed
                            } else {
                                final(self).history@.len() == old(self).history@.len() + 1
                                    && final(self).history@.drop_last() == old(self).history@
                                    && final(self).history@.last()@ == trimmed
                            }
                        } else {
                            final(self).history@ == old(self).history@
                        }
                    })
                },
            },
    {
        match key {
            EditorKey::Char(c) => {
                self.buffer.insert(self.cursor, c);
                self.cursor = self.cursor + 1;
                EditorStep::Continue { redraw: true }
            },
            EditorKey::CtrlC => EditorStep::Cancelled,
            EditorKey::CtrlU => {
                self.buffer.clear();
                self.cursor = 0;
                EditorStep::Continue { redraw: true }
            },
            EditorKey::Backspace => {
                if self.cursor > 0 {
                    self.buffer.remove(self.cursor - 1);
                    self.cursor = self.cursor - 1;
                    EditorStep::Continue { redraw: true }
                } else {
                    EditorStep::Continue { redraw: false }
                }
            },
            EditorKey::Delete => {
                if self.cursor < self.buffer.len() {
                    self.buffer.remove(self.cursor);
                    EditorStep::Continue { redraw: true }
                } else {
                    EditorStep::Continue { redraw: false }
                }
            },
            EditorKey::Left => {
                if self.cursor > 0 {
                    self.cursor = self.cursor - 1;
                    EditorStep::Continue { redraw: true }
                } else {
                    EditorStep::Continue { redraw: false }
                }
            },
            EditorKey::Right => {
                if self.cursor < self.buffer.len() {
                    self.cursor = self.cursor + 1;
                    EditorStep::Continue { redraw: true }
                } else {
                    EditorStep::Continue { redraw: false }
                }
            },
            EditorKey::Home => {
                self.cursor = 0;
                EditorStep::Continue { redraw: true }
            },
            EditorKey::End => {
                self.cursor = self.buffer.len();
                EditorStep::Continue { redraw: true }
            },
            EditorKey::Up => {
                if self.history.len() == 0 {
                    EditorStep::Continue { redraw: false }
                } else {
                    let idx = match self.history_index {
                        Some(i) => if i > 0 {
                            i - 1
                        } else {
                            0
                        },
                        None => {
                            let mut snap: Vec<char> = Vec::new();
                            core::mem::swap(&mut snap, &mut self.buffer);
                            self.snapshot = snap;
                            self.history.len() - 1
                        },
                    };
                    self.history_index = Some(idx);
                    self.buffer = str_to_chars(self.history[idx].as_str());
                    self.cursor = self.buffer.len();
                    EditorStep::Continue { redraw: true }
                }
            },
            EditorKey::Down => {
                match self.history_index {
                    None => EditorStep::Continue { redraw: false },
                    Some(i) => {
                        let hl = self.history.len();
                        if i + 1 < hl {
                            self.history_index = Some(i + 1);
                            self.buffer = str_to_chars(self.history[i + 1].as_str());
                            self.cursor = self.buffer.len();
                        } else {
                            self.history_index = None;
                            self.buffer = crate::strutil::copy_chars(&self.snapshot);
                            self.cursor = self.buffer.len();
                        }
                        EditorStep::Continue { redraw: true }
                    },
                }
            },
            EditorKey::Enter => {
                let trimmed = trim_chars(&self.buffer);
                let line = chars_to_string(&trimmed);
                let is_repeat = if self.history.len() > 0 {
                    string_eq_str(&self.history[self.history.len() - 1], line.as_str())
                } else {
                    false
                };
                if trimmed.len() > 0 && !is_repeat {
                    self.history.push(line.clone());
                    if self.history.len() > HISTORY_LIMIT {
                        self.history.remove(0);
                        proof {
                            assert(self.history@ =~= old(self).history@.drop_first().push(
                                self.history@.last(),
                            ));
                        }
                    }
                }
                EditorStep::Submitted(line)
            },
        }
    }
}

} // verus!
