use vstd::prelude::*;
use crate::reply::answer_of;

verus! {

/// Whether build-output directories are really deleted or only reported.
#[derive(Clone, Copy, PartialEq, Eq, Structural, Debug)]
pub enum Mode {
    Dry,
    Remove,
}

/// The removal policy of a whole run, fixed at startup.
#[derive(Clone, Copy, PartialEq, Eq, Structural, Debug)]
pub struct Remover {
    pub mode: Mode,
    pub log: bool,
    pub confirm: bool,
}

/// What happens to the handling of one path, fed to the remover in turn.
#[derive(Clone, Copy, PartialEq, Eq, Structural, Debug)]
pub enum Event {
    /// A path has been handed over for removal.
    Start,
    /// The operator typed a line at the prompt; its answer, if it is one.
    Reply(Option<bool>),
    /// The directory and all it held were deleted.
    Deleted,
}

/// How the handling of one path ended.
#[derive(Clone, Copy, PartialEq, Eq, Structural, Debug)]
pub enum Outcome {
    WouldRemove,
    Removed,
    Skipped,
}

/// What is to be done next for the path.
#[derive(Clone, Copy, PartialEq, Eq, Structural, Debug)]
pub enum Action {
    /// Ask the operator, and feed back the reply.
    Prompt,
    /// Delete the directory recursively, and feed back `Deleted`.
    Delete,
    /// Print one line that reports the outcome; the path is done.
    Report(Outcome),
    /// The path is done, with nothing printed.
    Done,
}

pub open spec fn finish(r: Remover, o: Outcome) -> Action {
    if r.log {
        Action::Report(o)
    } else {
        Action::Done
    }
}

pub open spec fn action_of(r: Remover, ev: Event) -> Action {
    match r.mode {
        Mode::Dry => finish(r, Outcome::WouldRemove),
        Mode::Remove => match ev {
            Event::Start => if r.confirm {
                Action::Prompt
            } else {
                Action::Delete
            },
            Event::Reply(None) => Action::Prompt,
            Event::Reply(Some(true)) => Action::Delete,
            Event::Reply(Some(false)) => finish(r, Outcome::Skipped),
            Event::Deleted => finish(r, Outcome::Removed),
        },
    }
}

/// An action with the report line left out.
pub open spec fn silenced(a: Action) -> Action {
    match a {
        Action::Report(_) => Action::Done,
        _ => a,
    }
}

impl Default for Remover {
    /// Real removal, with logging and confirmation.
    fn default() -> (r: Remover)
        ensures
            r == (Remover { mode: Mode::Remove, log: true, confirm: true }),
    {
        Remover { mode: Mode::Remove, log: true, confirm: true }
    }
}

impl Remover {
    fn finish(&self, o: Outcome) -> (a: Action)
        ensures
            a == finish(*self, o),
    {
        if self.log {
            Action::Report(o)
        } else {
            Action::Done
        }
    }

    /// Decides the next action for a path handed over for removal. A dry run
    /// only reports; a real one asks first when confirmation is required,
    /// deletes on a yes, skips on a no and asks again on anything else.
    pub fn remove(&self, ev: Event) -> (a: Action)
        ensures
            a == action_of(*self, ev),
    {
        match self.mode {
            Mode::Dry => self.finish(Outcome::WouldRemove),
            Mode::Remove => match ev {
                Event::Start => if self.confirm {
                    Action::Prompt
                } else {
                    Action::Delete
                },
                Event::Reply(None) => Action::Prompt,
                Event::Reply(Some(true)) => Action::Delete,
                Event::Reply(Some(false)) => self.finish(Outcome::Skipped),
                Event::Deleted => self.finish(Outcome::Removed),
            },
        }
    }
}

/// A dry run never deletes nor prompts, whatever the confirmation setting:
/// each path handed over ends at once in a single "would remove" line, or
/// in nothing when logging is off.
pub proof fn lemma_dry_run_pure(r: Remover, ev: Event)
    requires
        r.mode == Mode::Dry,
    ensures
        action_of(r, ev) != Action::Delete,
        action_of(r, ev) != Action::Prompt,
        r.log ==> action_of(r, ev) == Action::Report(Outcome::WouldRemove),
        !r.log ==> action_of(r, ev) == Action::Done,
{
}

/// With confirmation required, a real run asks before anything else; `n` or
/// `no` skips the path, reported when logging is on, without deleting it; `y`
/// or `yes` deletes it; any other line asks again.
pub proof fn lemma_confirmation_gating(r: Remover, line: Seq<char>)
    requires
        r.mode == Mode::Remove,
        r.confirm,
    ensures
        action_of(r, Event::Start) == Action::Prompt,
        answer_of(line) == Some(false) ==> action_of(r, Event::Reply(answer_of(line))) == finish(
            r,
            Outcome::Skipped,
        ),
        answer_of(line) == Some(true) ==> action_of(r, Event::Reply(answer_of(line)))
            == Action::Delete,
        answer_of(line) == None::<bool> ==> action_of(r, Event::Reply(answer_of(line)))
            == Action::Prompt,
        answer_of("n"@) == Some(false),
        answer_of("no"@) == Some(false),
        answer_of("y"@) == Some(true),
        answer_of("yes"@) == Some(true),
{
    reveal_strlit("y");
    reveal_strlit("yes");
    reveal_strlit("n");
    reveal_strlit("no");
    assert("n"@[0] != "y"@[0]);
    assert("n"@.len() != "yes"@.len());
    assert("no"@.len() != "y"@.len());
    assert("no"@.len() != "yes"@.len());
}

/// Turning logging off takes every report line away and changes nothing
/// else: the same paths are asked about, deleted and skipped.
pub proof fn lemma_silent_same_decisions(r: Remover, ev: Event)
    ensures
        action_of(Remover { log: false, ..r }, ev) == silenced(action_of(r, ev)),
        action_of(Remover { log: false, ..r }, ev) != Action::Report(Outcome::WouldRemove),
        action_of(Remover { log: false, ..r }, ev) != Action::Report(Outcome::Removed),
        action_of(Remover { log: false, ..r }, ev) != Action::Report(Outcome::Skipped),
{
}

} // verus!
