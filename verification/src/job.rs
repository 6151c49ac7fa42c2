//! Jobs: an external command description, the two job slots of the
//! dashboard, the display title a slot derives from its command, and the
//! request a started job hands to the surrounding program, which spawns the
//! process and streams its output back into the slot's log buffer.
use vstd::prelude::*;
use crate::logbuf::LogBuffer;
use crate::util::{copy_vec, copy_texts, texts_view};

verus! {

/// Which of the two concurrent job slots is meant.
#[derive(Clone, Copy, PartialEq, Eq, Structural, Debug)]
pub enum SlotId {
    First,
    Second,
}

/// The one error `Model::start_job` reports: the slot already holds a
/// running job.
#[derive(Clone, Copy, PartialEq, Eq, Structural, Debug)]
pub enum JobError {
    AlreadyRunning,
}

impl JobError {
    /// The message the dashboard shows for this error.
    pub fn text(&self) -> (r: &'static str)
        ensures
            r@ == "Job is already running."@,
    {
        "Job is already running."
    }
}

/// An external command: a program and its arguments, kept as plain
/// character vectors. What the command does is opaque to the core.
#[derive(Debug)]
pub struct CommandSpec {
    pub program: Vec<char>,
    pub args: Vec<Vec<char>>,
}

/// The command rendered as one line of text: the program, then each
/// argument preceded by a single space.
pub open spec fn command_text(program: Seq<char>, args: Seq<Seq<char>>) -> Seq<char>
    decreases args.len(),
{
    if args.len() == 0 {
        program
    } else {
        command_text(program, args.drop_last()) + seq![' '] + args.last()
    }
}

/// The short display form of a command line: text of more than ten
/// characters is truncated to its first seven plus an ellipsis marker.
pub open spec fn display_title(text: Seq<char>) -> Seq<char> {
    if text.len() > 10 {
        text.subrange(0, 7) + seq!['.', '.', '.']
    } else {
        text
    }
}

impl CommandSpec {
    /// The rendered command line of this description.
    pub open spec fn text_spec(&self) -> Seq<char> {
        command_text(self.program@, texts_view(self.args@))
    }

    /// Render the command as one line of text.
    pub fn text(&self) -> (r: Vec<char>)
        ensures
            r@ == self.text_spec(),
    {
        let mut r = copy_vec(&self.program);
        let n = self.args.len();
        for i in 0..n
            invariant
                n == self.args@.len(),
                r@ == command_text(self.program@, texts_view(self.args@).subrange(0, i as int)),
        {
            r.push(' ');
            let arg = &self.args[i];
            let m = arg.len();
            for j in 0..m
                invariant
                    m == arg@.len(),
                    r@ == command_text(self.program@, texts_view(self.args@).subrange(0, i as int))
                        + seq![' '] + arg@.subrange(0, j as int),
            {
                r.push(arg[j]);
                proof {
                    assert(r@ =~= command_text(
                        self.program@,
                        texts_view(self.args@).subrange(0, i as int),
                    ) + seq![' '] + arg@.subrange(0, j + 1));
                }
            }
            proof {
                let head = texts_view(self.args@).subrange(0, i + 1);
                assert(head.drop_last() =~= texts_view(self.args@).subrange(0, i as int));
                assert(head.last() =~= arg@);
                assert(arg@.subrange(0, m as int) =~= arg@);
                assert(r@ =~= command_text(self.program@, head));
            }
        }
        proof {
            assert(texts_view(self.args@).subrange(0, n as int) =~= texts_view(self.args@));
        }
        r
    }
}

/// Truncate a rendered command line to its short display form.
pub fn title_of(text: &Vec<char>) -> (r: Vec<char>)
    ensures
        r@ == display_title(text@),
{
    if text.len() > 10 {
        let mut r: Vec<char> = Vec::new();
        for i in 0..7usize
            invariant
                text@.len() > 10,
                r@ == text@.subrange(0, i as int),
        {
            r.push(text[i]);
            proof {
                assert(r@ =~= text@.subrange(0, i + 1));
            }
        }
        r.push('.');
        r.push('.');
        r.push('.');
        proof {
            assert(r@ =~= display_title(text@));
        }
        r
    } else {
        copy_vec(text)
    }
}

/// What a started job hands to the surrounding program: which slot it
/// occupies and the command to spawn. The spawned process's output lines
/// come back through `Model::append_log`.
pub struct SpawnRequest {
    pub slot: SlotId,
    pub program: Vec<char>,
    pub args: Vec<Vec<char>>,
}

impl SpawnRequest {
    /// A request carrying a copy of the given command.
    pub fn for_command(slot: SlotId, c: &CommandSpec) -> (r: SpawnRequest)
        ensures
            r.slot == slot,
            r.program@ == c.program@,
            texts_view(r.args@) == texts_view(c.args@),
    {
        SpawnRequest { slot, program: copy_vec(&c.program), args: copy_texts(&c.args) }
    }
}

/// One job execution context: a display title and, while a job runs, its
/// log buffer. A slot without a buffer is not running. The process handle
/// itself lives with the surrounding program.
pub struct JobSlot {
    pub title: Vec<char>,
    pub buffer: Option<LogBuffer>,
}

impl JobSlot {
    /// Whether a job currently occupies this slot.
    pub open spec fn occupied(&self) -> bool {
        self.buffer is Some
    }

    /// The slot's buffer, if any, stays within its capacity.
    pub open spec fn wf(&self) -> bool {
        match self.buffer {
            Some(b) => b.wf(),
            None => true,
        }
    }

    /// An empty, not-running slot with no title.
    pub fn empty() -> (r: JobSlot)
        ensures
            !r.occupied(),
            r.title@ == Seq::<char>::empty(),
            r.wf(),
    {
        JobSlot { title: Vec::new(), buffer: None }
    }
}

/// A slot freshly started for a command: an empty buffer and the command's
/// short display title.
pub open spec fn started(post: JobSlot, c: CommandSpec) -> bool {
    &&& post.title@ == display_title(c.text_spec())
    &&& post.buffer matches Some(b) && b@ == Seq::<String>::empty()
}

} // verus!
