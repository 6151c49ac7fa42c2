//! The dashboard controller: the top-level state every input event and
//! render pass goes through. It holds the two job slots, the menu cursor,
//! the optional active prompt and the quit flag, and routes each key event
//! to the prompt or to menu navigation.
use vstd::prelude::*;
use crate::job::{started, CommandSpec, JobError, JobSlot, SlotId, SpawnRequest};
use crate::job::title_of;
use crate::key::Key;
use crate::logbuf::{retained, LogBuffer};
use crate::menu::{Action, Menu, MenuItem};
use crate::prompt::{fresh, stepped, Prompt};
use crate::util::texts_view;

verus! {

/// The dashboard state. A render pass reads all of it; key handling
/// mutates it one event at a time.
pub struct Model {
    pub job1: JobSlot,
    pub job2: JobSlot,
    pub prompt: Option<Prompt>,
    pub menu: Option<usize>,
    pub quit: bool,
}

/// Job slots, prompt and quit flag agree between two states; the menu
/// cursor is left unconstrained.
pub open spec fn same_core(pre: Model, post: Model) -> bool {
    &&& post.job1 == pre.job1
    &&& post.job2 == pre.job2
    &&& post.prompt == pre.prompt
    &&& post.quit == pre.quit
}

/// Everything but the named slot and the menu cursor agrees between two
/// states.
pub open spec fn unchanged_except_slot(pre: Model, post: Model, s: SlotId) -> bool {
    &&& match s {
        SlotId::First => post.job2 == pre.job2,
        SlotId::Second => post.job1 == pre.job1,
    }
    &&& post.prompt == pre.prompt
    &&& post.quit == pre.quit
}

/// What dispatching one leaf action does to the dashboard (the menu cursor
/// aside, which the caller moves separately): nothing, opening a fresh
/// prompt, or starting a job — where starting on an occupied slot changes
/// nothing and surfaces no spawn request.
pub open spec fn action_applied(
    pre: Model,
    post: Model,
    a: Action,
    spawn: Option<SpawnRequest>,
) -> bool {
    match a {
        Action::Noop => same_core(pre, post) && spawn is None,
        Action::OpenPrompt { title, secret, rule } => {
            &&& (post.prompt matches Some(p) && fresh(p, title@, secret, rule))
            &&& post.job1 == pre.job1
            &&& post.job2 == pre.job2
            &&& post.quit == pre.quit
            &&& spawn is None
        },
        Action::StartJob { slot, command } => {
            if pre.slot(slot).occupied() {
                same_core(pre, post) && spawn is None
            } else {
                &&& started(post.slot(slot), command)
                &&& unchanged_except_slot(pre, post, slot)
                &&& (spawn matches Some(rq) && rq.slot == slot && rq.program@ == command.program@
                    && texts_view(rq.args@) == texts_view(command.args@))
            }
        },
    }
}

/// One appended output line, as it lands in a slot: into the buffer of a
/// running slot with FIFO eviction, nowhere on an idle slot.
pub open spec fn appended_slot(pre: JobSlot, post: JobSlot, line: String) -> bool {
    &&& post.title == pre.title
    &&& match (pre.buffer, post.buffer) {
        (Some(ob), Some(nb)) => nb@ == retained(ob@.push(line)),
        (None, None) => post == pre,
        _ => false,
    }
}

/// The routing contract of `handle_key`: with a prompt active every key
/// goes to the prompt except Escape, which dismisses it and is consumed;
/// otherwise `j` toggles the menu, `q` quits, and Escape/Up/Down/Enter
/// drive menu navigation only while the menu is open.
pub open spec fn routed(
    menu: Menu,
    pre: Model,
    post: Model,
    k: Key,
    spawn: Option<SpawnRequest>,
) -> bool {
    match pre.prompt {
        Some(p) => {
            &&& post.job1 == pre.job1
            &&& post.job2 == pre.job2
            &&& post.menu == pre.menu
            &&& post.quit == pre.quit
            &&& spawn is None
            &&& if k is Esc {
                post.prompt is None
            } else {
                post.prompt matches Some(q) && stepped(p, q, k)
            }
        },
        None => match k {
            Key::Char(c) => if c == 'j' {
                &&& post.menu == (if pre.menu is None {
                    Some(menu.first_spec())
                } else {
                    None::<usize>
                })
                &&& same_core(pre, post)
                &&& spawn is None
            } else if c == 'q' {
                &&& post.quit == true
                &&& post.job1 == pre.job1
                &&& post.job2 == pre.job2
                &&& post.prompt == pre.prompt
                &&& post.menu == pre.menu
                &&& spawn is None
            } else {
                post == pre && spawn is None
            },
            Key::Esc => {
                &&& post.menu == (match pre.menu {
                    Some(idx) => menu.back_spec(idx),
                    None => None::<usize>,
                })
                &&& same_core(pre, post)
                &&& spawn is None
            },
            Key::Up => {
                &&& post.menu == (match pre.menu {
                    Some(idx) => Some(menu.up_spec(idx)),
                    None => None::<usize>,
                })
                &&& same_core(pre, post)
                &&& spawn is None
            },
            Key::Down => {
                &&& post.menu == (match pre.menu {
                    Some(idx) => Some(menu.down_spec(idx)),
                    None => None::<usize>,
                })
                &&& same_core(pre, post)
                &&& spawn is None
            },
            Key::Enter => {
                match pre.menu {
                    Some(idx) => {
                        &&& post.menu == Some(menu.enter_target_spec(idx))
                        &&& match menu.0@[idx as int] {
                            MenuItem::Item { action: a, .. } => action_applied(pre, post, a, spawn),
                            MenuItem::Section { .. } => same_core(pre, post) && spawn is None,
                        }
                    },
                    None => post == pre && spawn is None,
                }
            },
            _ => post == pre && spawn is None,
        },
    }
}

impl Model {
    /// The named job slot.
    pub open spec fn slot(&self, s: SlotId) -> JobSlot {
        match s {
            SlotId::First => self.job1,
            SlotId::Second => self.job2,
        }
    }

    /// Both slots' buffers respect their capacity and an active prompt's
    /// cursor sits inside its text.
    pub open spec fn wf(&self) -> bool {
        &&& self.job1.wf()
        &&& self.job2.wf()
        &&& match self.prompt {
            Some(p) => p.wf(),
            None => true,
        }
    }

    /// The menu cursor, when the menu is open, rests on a selectable node
    /// of the given menu.
    pub open spec fn cursor_ok(&self, menu: &Menu) -> bool {
        match self.menu {
            Some(idx) => menu.selectable(idx),
            None => true,
        }
    }

    /// The dashboard as it starts: idle slots, no prompt, menu closed.
    pub fn new() -> (r: Model)
        ensures
            !r.job1.occupied(),
            !r.job2.occupied(),
            r.job1.title@ == Seq::<char>::empty(),
            r.job2.title@ == Seq::<char>::empty(),
            r.prompt is None,
            r.menu is None,
            r.quit == false,
            r.wf(),
    {
        Model {
            job1: JobSlot::empty(),
            job2: JobSlot::empty(),
            prompt: None,
            menu: None,
            quit: false,
        }
    }

    /// Start a job in a slot: refused with `AlreadyRunning` — and with the
    /// whole state, the occupying job's buffer and title included, left
    /// untouched — when the slot is occupied; otherwise the slot gets the
    /// command's short display title and a fresh empty log buffer, and the
    /// caller is owed the spawn of the command's process.
    pub fn start_job(&mut self, s: SlotId, c: &CommandSpec) -> (r: Result<(), JobError>)
        requires
            old(self).wf(),
        ensures
            final(self).wf(),
            match r {
                Err(e) => {
                    &&& e == JobError::AlreadyRunning
                    &&& old(self).slot(s).occupied()
                    &&& *final(self) == *old(self)
                },
                Ok(u) => {
                    &&& !old(self).slot(s).occupied()
                    &&& started(final(self).slot(s), *c)
                    &&& unchanged_except_slot(*old(self), *final(self), s)
                    &&& final(self).menu == old(self).menu
                },
            },
    {
        match s {
            SlotId::First => {
                if self.job1.buffer.is_some() {
                    return Err(JobError::AlreadyRunning);
                }
                let text = c.text();
                let title = title_of(&text);
                self.job1 = JobSlot { title, buffer: Some(LogBuffer::new()) };
                Ok(())
            },
            SlotId::Second => {
                if self.job2.buffer.is_some() {
                    return Err(JobError::AlreadyRunning);
                }
                let text = c.text();
                let title = title_of(&text);
                self.job2 = JobSlot { title, buffer: Some(LogBuffer::new()) };
                Ok(())
            },
        }
    }

    /// Deliver one line of process output to a slot's log buffer, in
    /// arrival order with FIFO eviction. A line for an idle slot (a worker
    /// that outlived its job) is dropped.
    pub fn append_log(&mut self, s: SlotId, line: String)
        requires
            old(self).wf(),
        ensures
            final(self).wf(),
            appended_slot(old(self).slot(s), final(self).slot(s), line),
            unchanged_except_slot(*old(self), *final(self), s),
            final(self).menu == old(self).menu,
    {
        match s {
            SlotId::First => {
                match &mut self.job1.buffer {
                    Some(b) => b.append(line),
                    None => {},
                }
            },
            SlotId::Second => {
                match &mut self.job2.buffer {
                    Some(b) => b.append(line),
                    None => {},
                }
            },
        }
    }

    /// Dispatch one leaf action against the dashboard. A start refused
    /// because the slot is occupied is reported to this caller and ignored,
    /// as menu-driven starts surface no further channel.
    pub fn apply_action(&mut self, a: &Action) -> (spawn: Option<SpawnRequest>)
        requires
            old(self).wf(),
        ensures
            final(self).wf(),
            final(self).menu == old(self).menu,
            action_applied(*old(self), *final(self), *a, spawn),
    {
        match a {
            Action::Noop => None,
            Action::OpenPrompt { title, secret, rule } => {
                if *secret {
                    self.prompt = Some(Prompt::secret(title.as_str(), rule.clone()));
                } else {
                    self.prompt = Some(Prompt::new(title.as_str(), rule.clone()));
                }
                None
            },
            Action::StartJob { slot, command } => {
                match self.start_job(*slot, command) {
                    Ok(u) => Some(SpawnRequest::for_command(*slot, command)),
                    Err(e) => None,
                }
            },
        }
    }

    /// Route one key event: to the prompt while one is active (Escape
    /// dismissing it), otherwise to menu toggling, quitting, or menu
    /// navigation. Returns the spawn request the surrounding program owes a
    /// process for, if the key started a job.
    pub fn handle_key(&mut self, menu: &Menu, k: Key) -> (spawn: Option<SpawnRequest>)
        requires
            menu.wf(),
            old(self).wf(),
            old(self).cursor_ok(menu),
            (k == Key::Char('j') && old(self).prompt is None && old(self).menu is None)
                ==> menu.has_first(),
        ensures
            final(self).wf(),
            final(self).cursor_ok(menu),
            routed(*menu, *old(self), *final(self), k, spawn),
    {
        if self.prompt.is_some() {
            if k == Key::Esc {
                self.prompt = None;
            } else {
                match &mut self.prompt {
                    Some(p) => p.input(k),
                    None => {},
                }
            }
            return None;
        }
        match k {
            Key::Char(c) => {
                if c == 'j' {
                    if self.menu.is_none() {
                        self.menu = Some(menu.first());
                    } else {
                        self.menu = None;
                    }
                } else if c == 'q' {
                    self.quit = true;
                }
                None
            },
            Key::Esc => {
                if let Some(idx) = self.menu {
                    self.menu = menu.back(idx);
                }
                None
            },
            Key::Up => {
                if let Some(idx) = self.menu {
                    self.menu = Some(menu.up(idx));
                }
                None
            },
            Key::Down => {
                if let Some(idx) = self.menu {
                    self.menu = Some(menu.down(idx));
                }
                None
            },
            Key::Enter => {
                match self.menu {
                    Some(idx) => {
                        let (t, spawn) = menu.enter(idx, self);
                        self.menu = Some(t);
                        spawn
                    },
                    None => None,
                }
            },
            _ => None,
        }
    }
}

} // verus!
