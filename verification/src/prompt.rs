//! Modal single-line text prompt: a character-by-character editor with a
//! cursor, an optional secrecy flag, an error line, and a submit rule that
//! judges the entered text.
use vstd::prelude::*;
use crate::key::Key;

verus! {

/// How a prompt judges submitted text: a fixed, inspectable rule in place
/// of an arbitrary callback. Every rule maps the submitted text to success
/// or to a validation error message; the rules here decide without reading
/// the text itself.
#[derive(Debug)]
pub enum SubmitRule {
    /// Every submission passes.
    AcceptAny,
    /// Every submission fails with this message.
    RejectWith(String),
}

/// The outcome a rule assigns to submitted text.
pub open spec fn verdict(rule: SubmitRule, text: Seq<char>) -> Result<(), String> {
    match rule {
        SubmitRule::AcceptAny => Ok(()),
        SubmitRule::RejectWith(m) => Err(m),
    }
}

impl Clone for SubmitRule {
    fn clone(&self) -> (r: Self)
        ensures
            r == *self,
    {
        match self {
            SubmitRule::AcceptAny => SubmitRule::AcceptAny,
            SubmitRule::RejectWith(m) => SubmitRule::RejectWith(m.clone()),
        }
    }
}

impl SubmitRule {
    /// Apply the rule to the entered text.
    pub fn check(&self, text: &Vec<char>) -> (r: Result<(), String>)
        ensures
            r == verdict(*self, text@),
    {
        match self {
            SubmitRule::AcceptAny => Ok(()),
            SubmitRule::RejectWith(m) => Err(m.clone()),
        }
    }
}

/// The modal text editor overlaying the dashboard while active: a title,
/// a secrecy flag (mask characters on render), the text with a cursor at a
/// character offset in `0..=text.len()`, the current error message (empty
/// means none), and the submit rule.
pub struct Prompt {
    pub title: String,
    pub secret: bool,
    pub rule: SubmitRule,
    pub cursor: usize,
    pub text: Vec<char>,
    pub error: String,
}

/// The text after one key: insertion at the cursor, deletion before or at
/// it, and nothing for every other key.
pub open spec fn text_after(k: Key, text: Seq<char>, cursor: int) -> Seq<char> {
    match k {
        Key::Char(c) => text.insert(cursor, c),
        Key::Backspace => if cursor > 0 {
            text.remove(cursor - 1)
        } else {
            text
        },
        Key::Delete => if cursor < text.len() {
            text.remove(cursor)
        } else {
            text
        },
        _ => text,
    }
}

/// The cursor after one key, clamped to the bounds of the new text.
pub open spec fn cursor_after(k: Key, text: Seq<char>, cursor: int) -> int {
    match k {
        Key::Char(_) => cursor + 1,
        Key::Backspace => if cursor > 0 {
            cursor - 1
        } else {
            0
        },
        Key::Left => if cursor > 0 {
            cursor - 1
        } else {
            0
        },
        Key::Right => if cursor < text.len() {
            cursor + 1
        } else {
            cursor
        },
        Key::Home => 0,
        Key::End => text.len() as int,
        _ => cursor,
    }
}

/// The error line after one key: Enter submits the text and a failing
/// verdict replaces the message; everything else leaves it alone.
pub open spec fn error_after(k: Key, rule: SubmitRule, text: Seq<char>, error: String) -> String {
    if k is Enter {
        match verdict(rule, text) {
            Err(m) => m,
            Ok(u) => error,
        }
    } else {
        error
    }
}

/// One editing step: how a prompt relates to itself after one key.
pub open spec fn stepped(pre: Prompt, post: Prompt, k: Key) -> bool {
    &&& post.title == pre.title
    &&& post.secret == pre.secret
    &&& post.rule == pre.rule
    &&& post.text@ == text_after(k, pre.text@, pre.cursor as int)
    &&& post.cursor as int == cursor_after(k, pre.text@, pre.cursor as int)
    &&& post.error == error_after(k, pre.rule, pre.text@, pre.error)
}

/// A prompt exactly as `new`/`secret` build it: empty text and error,
/// cursor at zero.
pub open spec fn fresh(p: Prompt, title: Seq<char>, secret: bool, rule: SubmitRule) -> bool {
    &&& p.title@ == title
    &&& p.secret == secret
    &&& p.rule == rule
    &&& p.cursor == 0
    &&& p.text@ == Seq::<char>::empty()
    &&& p.error@ == Seq::<char>::empty()
}

impl Prompt {
    /// The cursor always sits inside or just past the text.
    pub open spec fn wf(&self) -> bool {
        self.cursor <= self.text@.len()
    }

    /// A fresh unmasked prompt.
    pub fn new(title: &str, rule: SubmitRule) -> (r: Prompt)
        ensures
            fresh(r, title@, false, rule),
            r.wf(),
    {
        Prompt {
            title: title.to_owned(),
            secret: false,
            rule,
            cursor: 0,
            text: Vec::new(),
            error: String::new(),
        }
    }

    /// A fresh prompt whose characters are masked on render.
    pub fn secret(title: &str, rule: SubmitRule) -> (r: Prompt)
        ensures
            fresh(r, title@, true, rule),
            r.wf(),
    {
        Prompt {
            title: title.to_owned(),
            secret: true,
            rule,
            cursor: 0,
            text: Vec::new(),
            error: String::new(),
        }
    }

    /// The error line a frame draws: present exactly when the current
    /// error message is non-empty.
    pub fn error_line(&self) -> (r: Option<String>)
        ensures
            match r {
                Some(e) => e@ == self.error@ && self.error@.len() > 0,
                None => self.error@.len() == 0,
            },
    {
        if self.error.as_str().is_empty() {
            None
        } else {
            Some(self.error.clone())
        }
    }

    /// Apply one key to the editor.
    pub fn input(&mut self, k: Key)
        requires
            old(self).wf(),
        ensures
            final(self).wf(),
            stepped(*old(self), *final(self), k),
    {
        match k {
            Key::Char(c) => {
                self.text.insert(self.cursor, c);
                let n: usize = self.text.len();
                proof {
                    assert(self.cursor < n);
                }
                self.cursor = self.cursor + 1;
            },
            Key::Backspace => {
                if self.cursor > 0 {
                    self.text.remove(self.cursor - 1);
                    self.cursor = self.cursor - 1;
                }
            },
            Key::Delete => {
                if self.cursor < self.text.len() {
                    self.text.remove(self.cursor);
                }
            },
            Key::Left => {
                if self.cursor > 0 {
                    self.cursor = self.cursor - 1;
                }
            },
            Key::Right => {
                if self.cursor < self.text.len() {
                    self.cursor = self.cursor + 1;
                }
            },
            Key::Home => {
                self.cursor = 0;
            },
            Key::End => {
                self.cursor = self.text.len();
            },
            Key::Enter => {
                match self.rule.check(&self.text) {
                    Err(e) => {
                        self.error = e;
                    },
                    Ok(u) => {},
                }
            },
            _ => {},
        }
    }
}

} // verus!
