use jn_installer::error::InstallError;
use jn_installer::extract::{ExtractAction, ExtractEvent, ExtractPhase, Extraction, JournalEntry};
use jn_installer::flags::SharedFlags;

fn entry(path: &str, replaced: bool) -> JournalEntry {
    JournalEntry { path: path.to_string(), replaced }
}

#[test]
fn extraction_writes_entries_and_finishes() {
    let mut x = Extraction::begin();
    assert_eq!(x.phase(), ExtractPhase::Unpacking);
    assert_eq!(
        x.step_exec(ExtractEvent::EntryStarting(entry("game", false)), false),
        ExtractAction::Write
    );
    assert_eq!(
        x.step_exec(ExtractEvent::EntryStarting(entry("game/a.rpy", true)), false),
        ExtractAction::Write
    );
    assert_eq!(x.journal, vec![entry("game", false), entry("game/a.rpy", true)]);
    assert_eq!(x.step_exec(ExtractEvent::EndOfArchive, false), ExtractAction::Finish);
    assert_eq!(x.phase(), ExtractPhase::Finished);
    assert_eq!(x.step_exec(ExtractEvent::WriteFailed, false), ExtractAction::Nothing);
    assert_eq!(x.phase(), ExtractPhase::Finished);
}

#[test]
fn rollback_plan_is_the_journal_newest_first() {
    let mut x = Extraction::begin();
    assert_eq!(x.rollback_plan(), Vec::new());
    for (path, replaced) in [("a", false), ("a/b", true), ("c", false)] {
        x.step_exec(ExtractEvent::EntryStarting(entry(path, replaced)), false);
    }
    assert_eq!(x.rollback_plan(), vec![entry("c", false), entry("a/b", true), entry("a", false)]);
}

#[test]
fn abort_between_entries_rolls_back_as_cancelled() {
    let mut x = Extraction::begin();
    x.step_exec(ExtractEvent::EntryStarting(entry("a", false)), false);
    assert_eq!(
        x.step_exec(ExtractEvent::EntryStarting(entry("b", false)), true),
        ExtractAction::RollBack(InstallError::Cancelled)
    );
    assert_eq!(x.phase(), ExtractPhase::RolledBack(InstallError::Cancelled));
    assert_eq!(x.rollback_plan(), vec![entry("a", false)]);
    assert_eq!(x.step_exec(ExtractEvent::EndOfArchive, false), ExtractAction::Nothing);
    assert_eq!(x.phase(), ExtractPhase::RolledBack(InstallError::Cancelled));
}

#[test]
fn abort_at_the_end_of_the_archive_rolls_back() {
    let mut x = Extraction::begin();
    x.step_exec(ExtractEvent::EntryStarting(entry("a", false)), false);
    assert_eq!(
        x.step_exec(ExtractEvent::EndOfArchive, true),
        ExtractAction::RollBack(InstallError::Cancelled)
    );
    assert_eq!(x.rollback_plan(), vec![entry("a", false)]);
}

#[test]
fn failed_write_rolls_back_as_io_error() {
    let mut x = Extraction::begin();
    x.step_exec(ExtractEvent::EntryStarting(entry("a", true)), false);
    assert_eq!(
        x.step_exec(ExtractEvent::WriteFailed, false),
        ExtractAction::RollBack(InstallError::IoError)
    );
    assert_eq!(x.phase(), ExtractPhase::RolledBack(InstallError::IoError));
    assert_eq!(x.rollback_plan(), vec![entry("a", true)]);
}

#[test]
fn corrupt_entry_rolls_back_as_archive_error() {
    let mut x = Extraction::begin();
    assert_eq!(
        x.step_exec(ExtractEvent::EntryCorrupt, true),
        ExtractAction::RollBack(InstallError::ArchiveError)
    );
    assert_eq!(x.phase(), ExtractPhase::RolledBack(InstallError::ArchiveError));
    assert_eq!(x.rollback_plan(), Vec::new());
}

#[test]
fn journal_entry_clone_is_equal() {
    let e = entry("game/script.rpy", true);
    assert_eq!(e.clone(), e);
}

#[test]
fn flags_start_clear_and_remember_the_request() {
    let mut flags = SharedFlags::new();
    assert!(!flags.is_abort_requested());
    flags.request_abort();
    assert!(flags.is_abort_requested());
    flags.request_abort();
    assert!(flags.is_abort_requested());
    flags.reset();
    assert!(!flags.is_abort_requested());
}
