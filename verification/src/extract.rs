//! The archive extraction, step by step, with the journal that lets a failed
//! or aborted extraction be undone.

use vstd::prelude::*;
use crate::error::InstallError;

verus! {

/// One path that the extraction wrote to, noted before the write.
#[derive(Debug, PartialEq, Eq)]
pub struct JournalEntry {
    /// The path below the target directory.
    pub path: String,
    /// Whether something was at the path before; it was then saved, to be
    /// put back by a rollback.
    pub replaced: bool,
}

impl Clone for JournalEntry {
    fn clone(&self) -> (copy: Self)
        ensures
            copy == *self,
    {
        JournalEntry { path: self.path.clone(), replaced: self.replaced }
    }
}

/// How far an extraction has come.
#[derive(Clone, Copy, Debug, PartialEq, Eq, Structural)]
pub enum ExtractPhase {
    /// Entries are still being written.
    Unpacking,
    /// Every entry was written.
    Finished,
    /// The extraction failed and what it wrote is to be undone.
    RolledBack(InstallError),
}

/// What happened while unpacking.
#[derive(Debug, PartialEq, Eq)]
pub enum ExtractEvent {
    /// The next entry of the archive, or a directory that it needs, is about
    /// to be written to this path.
    EntryStarting(JournalEntry),
    /// The entry in hand could not be written.
    WriteFailed,
    /// The entry in hand is corrupt or compressed in an unsupported way.
    EntryCorrupt,
    /// The archive has no further entry.
    EndOfArchive,
}

/// What the caller has to do next.
#[derive(Clone, Copy, Debug, PartialEq, Eq, Structural)]
pub enum ExtractAction {
    /// Write the entry, then report what comes next.
    Write,
    /// Undo what the rollback plan lists, in its order, and fail with this
    /// error.
    RollBack(InstallError),
    /// Drop the saved copies, delete the archive and succeed.
    Finish,
    /// The extraction is over: nothing is left to do.
    Nothing,
}

/// An extraction in progress.
pub struct Extraction {
    /// The paths written to so far, oldest first.
    pub journal: Vec<JournalEntry>,
    /// How far the extraction has come.
    pub phase: ExtractPhase,
}

/// An extraction as contracts see it.
pub struct ExtractionView {
    pub journal: Seq<JournalEntry>,
    pub phase: ExtractPhase,
}

impl View for Extraction {
    type V = ExtractionView;

    open spec fn view(&self) -> ExtractionView {
        ExtractionView { journal: self.journal@, phase: self.phase }
    }
}

impl ExtractionView {
    /// The extraction after something happened, and what the caller has to
    /// do. `abort_requested` is the abort flag as read between two entries,
    /// and once more at the end of the archive.
    pub open spec fn step(self, event: ExtractEvent, abort_requested: bool) -> (
        ExtractionView,
        ExtractAction,
    ) {
        if self.phase != ExtractPhase::Unpacking {
            (self, ExtractAction::Nothing)
        } else {
            match event {
                ExtractEvent::WriteFailed => (
                    ExtractionView { phase: ExtractPhase::RolledBack(InstallError::IoError), ..self },
                    ExtractAction::RollBack(InstallError::IoError),
                ),
                ExtractEvent::EntryCorrupt => (
                    ExtractionView {
                        phase: ExtractPhase::RolledBack(InstallError::ArchiveError),
                        ..self
                    },
                    ExtractAction::RollBack(InstallError::ArchiveError),
                ),
                ExtractEvent::EntryStarting(entry) => if abort_requested {
                    (
                        ExtractionView {
                            phase: ExtractPhase::RolledBack(InstallError::Cancelled),
                            ..self
                        },
                        ExtractAction::RollBack(InstallError::Cancelled),
                    )
                } else {
                    (
                        ExtractionView { journal: self.journal.push(entry), ..self },
                        ExtractAction::Write,
                    )
                },
                ExtractEvent::EndOfArchive => if abort_requested {
                    (
                        ExtractionView {
                            phase: ExtractPhase::RolledBack(InstallError::Cancelled),
                            ..self
                        },
                        ExtractAction::RollBack(InstallError::Cancelled),
                    )
                } else {
                    (ExtractionView { phase: ExtractPhase::Finished, ..self }, ExtractAction::Finish)
                },
            }
        }
    }
}

impl Extraction {
    /// An extraction that has written nothing yet.
    pub fn begin() -> (x: Extraction)
        ensures
            x@.journal == Seq::<JournalEntry>::empty(),
            x@.phase == ExtractPhase::Unpacking,
    {
        Extraction { journal: Vec::new(), phase: ExtractPhase::Unpacking }
    }

    /// How far the extraction has come.
    pub fn phase(&self) -> (p: ExtractPhase)
        ensures
            p == self@.phase,
    {
        self.phase
    }

    /// Takes what happened while unpacking and says what to do next.
    ///
    /// While unpacking, an entry about to be written is noted in the journal
    /// and may be written, unless the abort flag is set: then, as at the end
    /// of the archive with the flag set, the extraction is rolled back as
    /// `Cancelled`. A failed write rolls it back as `IoError`, a corrupt
    /// entry as `ArchiveError`. The end of the archive finishes it. Once
    /// finished or rolled back, nothing changes any more.
    pub fn step_exec(&mut self, event: ExtractEvent, abort_requested: bool) -> (action:
        ExtractAction)
        ensures
            (final(self)@, action) == old(self)@.step(event, abort_requested),
    {
        match self.phase {
            ExtractPhase::Unpacking => {},
            _ => {
                return ExtractAction::Nothing;
            },
        }
        match event {
            ExtractEvent::WriteFailed => {
                self.phase = ExtractPhase::RolledBack(InstallError::IoError);
                ExtractAction::RollBack(InstallError::IoError)
            },
            ExtractEvent::EntryCorrupt => {
                self.phase = ExtractPhase::RolledBack(InstallError::ArchiveError);
                ExtractAction::RollBack(InstallError::ArchiveError)
            },
            ExtractEvent::EntryStarting(entry) => {
                if abort_requested {
                    self.phase = ExtractPhase::RolledBack(InstallError::Cancelled);
                    ExtractAction::RollBack(InstallError::Cancelled)
                } else {
                    self.journal.push(entry);
                    ExtractAction::Write
                }
            },
            ExtractEvent::EndOfArchive => {
                if abort_requested {
                    self.phase = ExtractPhase::RolledBack(InstallError::Cancelled);
                    ExtractAction::RollBack(InstallError::Cancelled)
                } else {
                    self.phase = ExtractPhase::Finished;
                    ExtractAction::Finish
                }
            },
        }
    }

    /// The paths to undo, newest first: for each, put the saved copy back
    /// where the path was replaced, and remove the path where it was not.
    pub fn rollback_plan(&self) -> (plan: Vec<JournalEntry>)
        ensures
            plan@ == self@.journal.reverse(),
    {
        let mut plan: Vec<JournalEntry> = Vec::new();
        let mut left: usize = self.journal.len();
        while left > 0
            invariant
                left <= self.journal@.len(),
                plan@.len() == self.journal@.len() - left,
                forall|k: int|
                    0 <= k < plan@.len() ==> #[trigger] plan@[k] == self.journal@[self.journal@.len()
                        - 1 - k],
            decreases left,
        {
            left -= 1;
            plan.push(self.journal[left].clone());
        }
        assert(plan@ =~= self@.journal.reverse());
        plan
    }
}

/// With the abort flag set, whatever happens while unpacking rolls the
/// extraction back without a further write, and never finishes it; where
/// nothing else went wrong, it fails as `Cancelled`.
pub proof fn law_abort_stops_extraction(x: ExtractionView, event: ExtractEvent)
    requires
        x.phase == ExtractPhase::Unpacking,
    ensures
        ({
            let (next, action) = x.step(event, true);
            &&& action is RollBack
            &&& next.phase == ExtractPhase::RolledBack(action->RollBack_0)
            &&& next.journal == x.journal
            &&& (event is EntryStarting || event is EndOfArchive) ==> action
                == ExtractAction::RollBack(InstallError::Cancelled)
        }),
{
}

/// A directory tree as the rollback sees it: what each path holds.
pub type Tree = Map<Seq<char>, Seq<u8>>;

/// A write to the tree: the path and what it holds afterwards.
pub struct TreeWrite {
    pub path: Seq<char>,
    pub content: Seq<u8>,
}

/// What a rollback has in hand to undo one write: the path, and the saved
/// copy of what the write replaced, which exists exactly where the journal
/// marks the path as replaced.
pub struct Undo {
    pub path: Seq<char>,
    pub saved: Option<Seq<u8>>,
}

/// The tree after `writes`, first to last.
pub open spec fn written(tree: Tree, writes: Seq<TreeWrite>) -> Tree
    decreases writes.len(),
{
    if writes.len() == 0 {
        tree
    } else {
        written(tree, writes.drop_last()).insert(writes.last().path, writes.last().content)
    }
}

/// What is kept to undo a write to `path` that finds the tree as `found`.
pub open spec fn undo_for(found: Tree, path: Seq<char>) -> Undo {
    Undo {
        path,
        saved: if found.contains_key(path) {
            Some(found[path])
        } else {
            None
        },
    }
}

/// What is kept while `writes` are made to a tree that began as `start`,
/// oldest first, as the journal is.
pub open spec fn undo_log(start: Tree, writes: Seq<TreeWrite>) -> Seq<Undo>
    decreases writes.len(),
{
    if writes.len() == 0 {
        Seq::empty()
    } else {
        undo_log(start, writes.drop_last()).push(
            undo_for(written(start, writes.drop_last()), writes.last().path),
        )
    }
}

/// The tree after undoing one write: the saved copy goes back where the
/// path was replaced, and the path is removed where it was not.
pub open spec fn undone(tree: Tree, undo: Undo) -> Tree {
    match undo.saved {
        Some(content) => tree.insert(undo.path, content),
        None => tree.remove(undo.path),
    }
}

/// The tree after undoing what `plan` lists, in its order.
pub open spec fn rolled_back(tree: Tree, plan: Seq<Undo>) -> Tree
    decreases plan.len(),
{
    if plan.len() == 0 {
        tree
    } else {
        rolled_back(undone(tree, plan[0]), plan.skip(1))
    }
}

/// Undoing every write of an extraction, newest first as the rollback plan
/// lists them, leaves the tree as it was before the extraction, whatever
/// was written and wherever.
pub proof fn law_rollback_restores(start: Tree, writes: Seq<TreeWrite>)
    ensures
        rolled_back(written(start, writes), undo_log(start, writes).reverse()) == start,
    decreases writes.len(),
{
    if writes.len() > 0 {
        let earlier = writes.drop_last();
        let before = written(start, earlier);
        let after = written(start, writes);
        let last = undo_for(before, writes.last().path);
        let plan = undo_log(start, writes).reverse();
        assert(plan[0] == last);
        assert(plan.skip(1) =~= undo_log(start, earlier).reverse());
        assert(undone(after, last) =~= before);
        law_rollback_restores(start, earlier);
    }
}

/// Undoing a write that never reached the tree changes nothing, so a
/// rollback may undo an entry whose write failed before it began.
pub proof fn law_undo_of_nothing(found: Tree, path: Seq<char>)
    ensures
        undone(found, undo_for(found, path)) == found,
{
    assert(undone(found, undo_for(found, path)) =~= found);
}

} // verus!
