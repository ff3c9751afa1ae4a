//! The interactive session's editable state: the line being typed, the
//! history it can recall, the accumulated output and its scroll
//! position, and how a delegate message lands in the output.
//!
//! The surrounding binary owns the terminal and the running delegate; it
//! reads keys, calls these methods, and renders.

use vstd::prelude::*;
use vstd::string::StringExecFns;
use crate::delegate::DelegateMessage;
use crate::strutil::{lossy_utf8_of, push_char, pop_char, utf8_lossy, i32_to_string, spec_i32_digits};

verus! {

/// A direction to move through history or scrollback.
#[derive(Debug, Clone, Copy, PartialEq, Eq, Structural)]
pub enum Direction {
    Up,
    Down,
}

/// The session state the keyboard edits.
#[derive(Debug)]
pub struct State {
    /// The prompt shown before the input line.
    pub prompt: String,
    /// The line being typed.
    pub input: String,
    /// Past command lines, oldest first.
    pub history: Vec<String>,
    /// How far back history recall stands; 0 is the newest entry.
    pub history_pos: usize,
    /// Everything the session has printed.
    pub output: String,
    /// How many lines up the output is scrolled.
    pub scroll_y: usize,
    /// The output's line count when scrolling left the bottom.
    pub scrolled_when_len: Option<usize>,
}

/// The number of newlines in a text.
pub open spec fn spec_newline_count(s: Seq<char>) -> int
    decreases s.len(),
{
    if s.len() == 0 {
        0
    } else {
        spec_newline_count(s.drop_last()) + if s.last() == '\n' {
            1int
        } else {
            0int
        }
    }
}

/// The number of lines a text renders as: newline-terminated pieces,
/// plus an unterminated last piece if there is one.
pub open spec fn spec_line_count(s: Seq<char>) -> int {
    if s.len() == 0 {
        0
    } else if s.last() == '\n' {
        spec_newline_count(s)
    } else {
        spec_newline_count(s) + 1
    }
}

proof fn lemma_newline_count_bounds(s: Seq<char>)
    ensures
        0 <= spec_newline_count(s) <= s.len(),
    decreases s.len(),
{
    if s.len() > 0 {
        lemma_newline_count_bounds(s.drop_last());
    }
}

/// Counts the lines of a text as the screen shows them.
pub fn count_lines(s: &str) -> (n: usize)
    ensures
        n == spec_line_count(s@),
{
    let chars = crate::strutil::str_to_chars(s);
    let len = chars.len();
    let mut cnt: usize = 0;
    let mut i: usize = 0;
    while i < len
        invariant
            i <= len,
            len == s@.len(),
            chars@ == s@,
            cnt == spec_newline_count(s@.subrange(0, i as int)),
            cnt <= i,
        decreases len - i,
    {
        let ghost pre = s@.subrange(0, i as int);
        if chars[i] == '\n' {
            cnt = cnt + 1;
        }
        i = i + 1;
        proof {
            let cur = s@.subrange(0, i as int);
            assert(cur.drop_last() =~= pre);
            assert(cur.last() == s@[i - 1]);
            lemma_newline_count_bounds(cur);
        }
    }
    proof {
        assert(s@.subrange(0, len as int) =~= s@);
    }
    if len == 0 {
        0
    } else if chars[len - 1] == '\n' {
        proof {
            assert(s@.last() == s@[len - 1]);
        }
        cnt
    } else {
        proof {
            assert(s@.last() == s@[len - 1]);
            lemma_newline_count_bounds(s@.drop_last());
            assert(spec_newline_count(s@) == spec_newline_count(s@.drop_last()));
        }
        cnt + 1
    }
}

impl State {
    /// History recall never points past the oldest entry.
    pub open spec fn wf(&self) -> bool {
        self.history_pos == 0 || self.history_pos < self.history@.len()
    }

    /// A fresh session with the given prompt.
    pub fn new(prompt: String) -> (s: State)
        ensures
            s.wf(),
            s.prompt == prompt,
            s.input@ == Seq::<char>::empty(),
            s.history@.len() == 0,
            s.history_pos == 0,
            s.output@ == Seq::<char>::empty(),
            s.scroll_y == 0,
            s.scrolled_when_len is None,
    {
        State {
            prompt,
            input: String::new(),
            history: Vec::new(),
            history_pos: 0,
            output: String::new(),
            scroll_y: 0,
            scrolled_when_len: None,
        }
    }

    /// Files the typed line into history — unless it repeats the newest
    /// entry, in which case the line stays put — and rewinds recall.
    pub fn push_history(&mut self)
        requires
            old(self).wf(),
        ensures
            final(self).wf(),
            final(self).history_pos == 0,
            final(self).prompt == old(self).prompt,
            final(self).output == old(self).output,
            final(self).scroll_y == old(self).scroll_y,
            final(self).scrolled_when_len == old(self).scrolled_when_len,
            ({
                let h = old(self).history@;
                if h.len() > 0 && h.last()@ == old(self).input@ {
                    final(self).history@ == h && final(self).input == old(self).input
                } else {
                    final(self).history@.len() == h.len() + 1 && final(self).history@.drop_last()
                        == h && final(self).history@.last()@ == old(self).input@ && final(self).input@ == Seq::<char>::empty()
                }
            }),
    {
        let len = self.history.len();
        let repeats = if len > 0 {
            self.history[len - 1] == self.input
        } else {
            false
        };
        if !repeats {
            let mut taken = String::new();
            core::mem::swap(&mut taken, &mut self.input);
            self.history.push(taken);
            proof {
                assert(self.history@.drop_last() =~= old(self).history@);
            }
        }
        self.history_pos = 0;
    }

    /// Appends one typed character to the input line.
    pub fn push_char(&mut self, c: char)
        requires
            old(self).wf(),
        ensures
            final(self).wf(),
            final(self).input@ == old(self).input@.push(c),
            final(self).history@ == old(self).history@,
            final(self).history_pos == old(self).history_pos,
            final(self).output == old(self).output,
    {
        push_char(&mut self.input, c);
    }

    /// Removes the last typed character, if any.
    pub fn pop_char(&mut self)
        requires
            old(self).wf(),
        ensures
            final(self).wf(),
            old(self).input@.len() == 0 ==> final(self).input@ == old(self).input@,
            old(self).input@.len() > 0 ==> final(self).input@ == old(self).input@.drop_last(),
            final(self).history@ == old(self).history@,
            final(self).history_pos == old(self).history_pos,
            final(self).output == old(self).output,
    {
        let _ = pop_char(&mut self.input);
    }

    /// Moves through history: up recalls the entry recall stands on and
    /// steps recall older; down recalls it and steps recall newer,
    /// clearing the line once recall is already at the newest entry.
    pub fn mutate_history_pos(&mut self, direction: Direction)
        requires
            old(self).wf(),
        ensures
            final(self).wf(),
            final(self).history@ == old(self).history@,
            final(self).output == old(self).output,
            ({
                let h = old(self).history@;
                let pos = old(self).history_pos as int;
                match direction {
                    Direction::Up => {
                        if h.len() == 0 {
                            final(self).input == old(self).input && final(self).history_pos == old(self).history_pos
                        } else {
                            final(self).input@ == h[h.len() - 1 - pos]@ && final(self).history_pos == if pos + 1 <= h.len() - 1 {
                                pos + 1
                            } else {
                                h.len() - 1
                            }
                        }
                    },
                    Direction::Down => {
                        if h.len() == 0 {
                            final(self).input == old(self).input && final(self).history_pos == old(self).history_pos
                        } else {
                            final(self).history_pos == if pos > 0 {
                                pos - 1
                            } else {
                                0
                            } && if pos == 0 {
                                final(self).input@ == Seq::<char>::empty()
                            } else {
                                final(self).input@ == h[h.len() - 1 - pos]@
                            }
                        }
                    },
                }
            }),
    {
        match direction {
            Direction::Up => {
                let len = self.history.len();
                if len > 0 {
                    self.input = self.history[len - 1 - self.history_pos].clone();
                    let bumped = self.history_pos + 1;
                    self.history_pos = if bumped <= len - 1 {
                        bumped
                    } else {
                        len - 1
                    };
                }
            },
            Direction::Down => {
                let len = self.history.len();
                if len > 0 {
                    self.input = self.history[len - 1 - self.history_pos].clone();
                    if self.history_pos == 0 {
                        self.input = String::new();
                    } else {
                        self.history_pos = self.history_pos - 1;
                    }
                }
            },
        }
    }

    /// Appends text to the session output.
    pub fn push_output(&mut self, text: &str)
        requires
            old(self).wf(),
        ensures
            final(self).wf(),
            final(self).output@ == old(self).output@ + text@,
            final(self).input == old(self).input,
            final(self).history@ == old(self).history@,
            final(self).history_pos == old(self).history_pos,
    {
        self.output.append(text);
    }

    /// Scrolls the output: up moves one line back, never past the
    /// output's top once a screen of the given height is shown; down
    /// moves one line forward, and at the bottom clears the
    /// scrolled-back mark.
    pub fn mutate_scroll_pos(&mut self, direction: Direction, height: usize)
        requires
            old(self).wf(),
            height >= 2,
            old(self).scroll_y < usize::MAX,
        ensures
            final(self).wf(),
            final(self).input == old(self).input,
            final(self).output == old(self).output,
            final(self).history@ == old(self).history@,
            ({
                let lines = spec_line_count(old(self).output@);
                match direction {
                    Direction::Up => {
                        let stepped = if old(self).scroll_y + 1 <= lines {
                            old(self).scroll_y + 1
                        } else {
                            lines
                        };
                        let limit = if lines >= height - 2 {
                            lines - (height - 2)
                        } else {
                            0
                        };
                        final(self).scroll_y == (if stepped <= limit {
                            stepped
                        } else {
                            limit
                        }) && final(self).scrolled_when_len == (if stepped != 0 {
                            Some(lines as usize)
                        } else {
                            old(self).scrolled_when_len
                        })
                    },
                    Direction::Down => {
                        let dropped = if old(self).scroll_y > 0 {
                            old(self).scroll_y - 1
                        } else {
                            0
                        };
                        final(self).scroll_y == dropped && final(self).scrolled_when_len == (
                        if dropped == 0 {
                            None::<usize>
                        } else {
                            old(self).scrolled_when_len
                        })
                    },
                }
            }),
    {
        match direction {
            Direction::Up => {
                let lines = count_lines(self.output.as_str());
                let bumped = self.scroll_y + 1;
                let stepped = if bumped <= lines {
                    bumped
                } else {
                    lines
                };
                if stepped != 0 {
                    self.scrolled_when_len = Some(lines);
                }
                let available = height - 2;
                let limit = if lines >= available {
                    lines - available
                } else {
                    0
                };
                self.scroll_y = if stepped <= limit {
                    stepped
                } else {
                    limit
                };
            },
            Direction::Down => {
                self.scroll_y = if self.scroll_y > 0 {
                    self.scroll_y - 1
                } else {
                    0
                };
                if self.scroll_y == 0 {
                    self.scrolled_when_len = None;
                }
            },
        }
    }

    /// Lands one delegate message in the output: stream chunks append
    /// their decoded text; a terminal message appends an exit or error
    /// line and reports that nothing is running any more.
    pub fn apply_message(&mut self, msg: DelegateMessage) -> (running: bool)
        requires
            old(self).wf(),
        ensures
            final(self).wf(),
            final(self).input == old(self).input,
            final(self).history@ == old(self).history@,
            final(self).history_pos == old(self).history_pos,
            match msg {
                DelegateMessage::Stdout(d) => running && final(self).output@ == old(self).output@
                    + lossy_utf8_of(d@),
                DelegateMessage::Stderr(d) => running && final(self).output@ == old(self).output@
                    + lossy_utf8_of(d@),
                DelegateMessage::Exit(code) => !running && final(self).output@ == old(self).output@
                    + "exit: "@ + (match code {
                    Some(c) => spec_i32_digits(c as int),
                    None => "none"@,
                }) + "\n"@,
                DelegateMessage::Error(e) => !running && final(self).output@ == old(self).output@
                    + "error: "@ + e@ + "\n"@,
            },
    {
        match msg {
            DelegateMessage::Stdout(d) => {
                let text = utf8_lossy(&d);
                self.output.append(text.as_str());
                true
            },
            DelegateMessage::Stderr(d) => {
                let text = utf8_lossy(&d);
                self.output.append(text.as_str());
                true
            },
            DelegateMessage::Exit(code) => {
                self.output.append("exit: ");
                match code {
                    Some(c) => {
                        let digits = i32_to_string(c);
                        self.output.append(digits.as_str());
                    },
                    None => {
                        self.output.append("none");
                    },
                }
                self.output.append("\n");
                false
            },
            DelegateMessage::Error(e) => {
                self.output.append("error: ");
                self.output.append(e.as_str());
                self.output.append("\n");
                false
            },
        }
    }
}

} // verus!
