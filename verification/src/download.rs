//! The asset download, step by step: what to do after each thing that
//! happens to the stream, and which progress to report.

use vstd::prelude::*;
use crate::error::InstallError;
use crate::progress::{fraction, lemma_fraction_bounded, lemma_fraction_monotonic, Progress, FULL};

verus! {

/// How far a download has come.
#[derive(Clone, Copy, Debug, PartialEq, Eq, Structural)]
pub enum DownloadPhase {
    /// Chunks are still being written to the temporary file.
    Streaming,
    /// The temporary file was moved to its destination.
    Committed,
    /// The temporary file was deleted and the download failed.
    Discarded(InstallError),
}

/// What happened to the stream.
#[derive(Clone, Copy, Debug, PartialEq, Eq, Structural)]
pub enum DownloadEvent {
    /// A chunk of this many bytes was written to the temporary file.
    Chunk(u64),
    /// The response body ended.
    EndOfStream,
    /// The transport broke.
    TransportFailed,
    /// The temporary file could not be written.
    WriteFailed,
}

/// What the caller has to do after reporting the progress of a step.
#[derive(Clone, Copy, Debug, PartialEq, Eq, Structural)]
pub enum DownloadNext {
    /// Read the next chunk.
    Continue,
    /// Move the temporary file to its destination and return the
    /// destination.
    Commit,
    /// Stop, delete the temporary file and fail with this error.
    Discard(InstallError),
    /// The download is over: nothing is left to do.
    Nothing,
}

/// What a step asks of the caller: first to report the progress, if there
/// is one, then to do what `next` says.
#[derive(Clone, Copy, Debug, PartialEq, Eq, Structural)]
pub struct DownloadAction {
    /// The progress to report.
    pub report: Option<Progress>,
    /// What to do then.
    pub next: DownloadNext,
}

/// A download in progress.
#[derive(Clone, Copy, Debug, PartialEq, Eq, Structural)]
pub struct Download {
    /// The size that the release feed declared for the asset; zero if unknown.
    pub size: u64,
    /// The bytes written so far, saturating.
    pub written: u64,
    /// How far the download has come.
    pub phase: DownloadPhase,
}

/// The progress that an action reports, if any.
pub open spec fn reported(action: DownloadAction) -> Seq<nat> {
    match action.report {
        Some(p) => seq![p@],
        None => Seq::empty(),
    }
}

impl Download {
    /// The byte count after `len` more bytes, held at the largest count.
    pub open spec fn written_after(self, len: u64) -> u64 {
        if self.written + len > u64::MAX {
            u64::MAX
        } else {
            (self.written + len) as u64
        }
    }

    /// The download after something happened to the stream, and what the
    /// caller has to do. `abort_requested` is the abort flag as read after
    /// the event; it is looked at after each chunk, once the chunk's
    /// progress is reported.
    pub open spec fn step(self, event: DownloadEvent, abort_requested: bool) -> (
        Download,
        DownloadAction,
    ) {
        if self.phase != DownloadPhase::Streaming {
            (self, DownloadAction { report: None, next: DownloadNext::Nothing })
        } else {
            match event {
                DownloadEvent::Chunk(len) => {
                    let written = self.written_after(len);
                    let report = Some(
                        Progress { millionths: fraction(written as nat, self.size as nat) as u32 },
                    );
                    if abort_requested {
                        (
                            Download {
                                written,
                                phase: DownloadPhase::Discarded(InstallError::Cancelled),
                                ..self
                            },
                            DownloadAction {
                                report,
                                next: DownloadNext::Discard(InstallError::Cancelled),
                            },
                        )
                    } else {
                        (
                            Download { written, ..self },
                            DownloadAction { report, next: DownloadNext::Continue },
                        )
                    }
                },
                DownloadEvent::EndOfStream => (
                    Download { phase: DownloadPhase::Committed, ..self },
                    DownloadAction {
                        report: Some(Progress { millionths: FULL }),
                        next: DownloadNext::Commit,
                    },
                ),
                DownloadEvent::TransportFailed => (
                    Download { phase: DownloadPhase::Discarded(InstallError::NetworkError), ..self },
                    DownloadAction {
                        report: None,
                        next: DownloadNext::Discard(InstallError::NetworkError),
                    },
                ),
                DownloadEvent::WriteFailed => (
                    Download { phase: DownloadPhase::Discarded(InstallError::IoError), ..self },
                    DownloadAction {
                        report: None,
                        next: DownloadNext::Discard(InstallError::IoError),
                    },
                ),
            }
        }
    }

    /// The progress values reported while `inputs` happen one after the
    /// other, each an event and the abort flag read after it.
    pub open spec fn reports(self, inputs: Seq<(DownloadEvent, bool)>) -> Seq<nat>
        decreases inputs.len(),
    {
        if inputs.len() == 0 {
            Seq::empty()
        } else {
            let (next, action) = self.step(inputs[0].0, inputs[0].1);
            reported(action) + next.reports(inputs.skip(1))
        }
    }

    /// The download after `inputs` have happened one after the other.
    pub open spec fn after(self, inputs: Seq<(DownloadEvent, bool)>) -> Download
        decreases inputs.len(),
    {
        if inputs.len() == 0 {
            self
        } else {
            self.step(inputs[0].0, inputs[0].1).0.after(inputs.skip(1))
        }
    }

    /// A download of an asset of the declared `size`, with nothing written.
    pub fn begin(size: u64) -> (d: Download)
        ensures
            d == (Download { size, written: 0, phase: DownloadPhase::Streaming }),
    {
        Download { size, written: 0, phase: DownloadPhase::Streaming }
    }

    /// The progress of what is on disk.
    pub fn progress(&self) -> (p: Progress)
        ensures
            p@ == fraction(self.written as nat, self.size as nat),
            p.wf(),
    {
        Progress::of(self.written, self.size)
    }

    /// Takes what happened to the stream and says what to do next.
    ///
    /// While streaming, a chunk adds to the bytes written and the new
    /// fraction is reported; with the abort flag set the download is then
    /// discarded as `Cancelled`. The end of the stream reports one whole and
    /// commits the download. A broken transport discards it as
    /// `NetworkError`, a failed write as `IoError`. Once committed or
    /// discarded, nothing changes any more. A reported fraction is never
    /// below the fraction on disk before.
    pub fn step_exec(&mut self, event: DownloadEvent, abort_requested: bool) -> (action:
        DownloadAction)
        ensures
            (*final(self), action) == old(self).step(event, abort_requested),
            action.report matches Some(p) ==> p.wf() && fraction(
                old(self).written as nat,
                old(self).size as nat,
            ) <= p@,
            action.next == DownloadNext::Commit ==> action.report == Some(
                Progress { millionths: FULL },
            ),
    {
        proof {
            lemma_fraction_bounded(self.written as nat, self.size as nat);
            lemma_fraction_monotonic(
                self.written as nat,
                self.written_after(event->Chunk_0) as nat,
                self.size as nat,
            );
        }
        match self.phase {
            DownloadPhase::Streaming => {},
            _ => {
                return DownloadAction { report: None, next: DownloadNext::Nothing };
            },
        }
        match event {
            DownloadEvent::Chunk(len) => {
                self.written = if len > u64::MAX - self.written {
                    u64::MAX
                } else {
                    self.written + len
                };
                let report = Some(Progress::of(self.written, self.size));
                if abort_requested {
                    self.phase = DownloadPhase::Discarded(InstallError::Cancelled);
                    DownloadAction { report, next: DownloadNext::Discard(InstallError::Cancelled) }
                } else {
                    DownloadAction { report, next: DownloadNext::Continue }
                }
            },
            DownloadEvent::EndOfStream => {
                self.phase = DownloadPhase::Committed;
                DownloadAction { report: Some(Progress::full()), next: DownloadNext::Commit }
            },
            DownloadEvent::TransportFailed => {
                self.phase = DownloadPhase::Discarded(InstallError::NetworkError);
                DownloadAction {
                    report: None,
                    next: DownloadNext::Discard(InstallError::NetworkError),
                }
            },
            DownloadEvent::WriteFailed => {
                self.phase = DownloadPhase::Discarded(InstallError::IoError);
                DownloadAction { report: None, next: DownloadNext::Discard(InstallError::IoError) }
            },
        }
    }
}

/// Every progress value reported from a download on is at least the fraction
/// on disk and at most one whole.
pub proof fn lemma_reports_bounded(d: Download, inputs: Seq<(DownloadEvent, bool)>)
    ensures
        forall|k: int|
            0 <= k < d.reports(inputs).len() ==> fraction(d.written as nat, d.size as nat)
                <= #[trigger] d.reports(inputs)[k] <= FULL,
    decreases inputs.len(),
{
    if inputs.len() > 0 {
        let (next, action) = d.step(inputs[0].0, inputs[0].1);
        let tail = next.reports(inputs.skip(1));
        lemma_reports_bounded(next, inputs.skip(1));
        lemma_fraction_bounded(next.written as nat, d.size as nat);
        lemma_fraction_monotonic(d.written as nat, next.written as nat, d.size as nat);
        assert forall|k: int| 0 <= k < d.reports(inputs).len() implies fraction(
            d.written as nat,
            d.size as nat,
        ) <= #[trigger] d.reports(inputs)[k] <= FULL by {
            let head = reported(action);
            if head.len() == 0 {
                assert(d.reports(inputs) =~= tail);
            } else if k > 0 {
                assert(d.reports(inputs)[k] == tail[k - 1]);
            }
        }
    }
}

/// The progress values reported in the course of a download never decrease,
/// whatever happens to the stream.
pub proof fn law_progress_never_decreases(d: Download, inputs: Seq<(DownloadEvent, bool)>)
    ensures
        forall|i: int, j: int|
            0 <= i <= j < d.reports(inputs).len() ==> d.reports(inputs)[i] <= d.reports(inputs)[j],
    decreases inputs.len(),
{
    if inputs.len() > 0 {
        let (next, action) = d.step(inputs[0].0, inputs[0].1);
        let tail = next.reports(inputs.skip(1));
        law_progress_never_decreases(next, inputs.skip(1));
        lemma_reports_bounded(next, inputs.skip(1));
        lemma_fraction_bounded(next.written as nat, next.size as nat);
        assert forall|i: int, j: int| 0 <= i <= j < d.reports(inputs).len() implies d.reports(
            inputs,
        )[i] <= d.reports(inputs)[j] by {
            let head = reported(action);
            if head.len() == 0 {
                assert(d.reports(inputs) =~= tail);
            } else if i > 0 {
                assert(d.reports(inputs)[i] == tail[i - 1]);
                assert(d.reports(inputs)[j] == tail[j - 1]);
            } else if j > 0 {
                assert(d.reports(inputs)[j] == tail[j - 1]);
                if next.phase != DownloadPhase::Streaming {
                    lemma_over_reports_nothing(next, inputs.skip(1));
                }
            }
        }
    }
}

/// A download that is over reports nothing more and stays as it is.
pub proof fn lemma_over_reports_nothing(d: Download, inputs: Seq<(DownloadEvent, bool)>)
    requires
        d.phase != DownloadPhase::Streaming,
    ensures
        d.reports(inputs) == Seq::<nat>::empty(),
        d.after(inputs) == d,
    decreases inputs.len(),
{
    if inputs.len() > 0 {
        lemma_over_reports_nothing(d, inputs.skip(1));
    }
}

/// A download that ends committed has reported one whole as its last
/// progress value.
pub proof fn law_committed_ends_at_full(d: Download, inputs: Seq<(DownloadEvent, bool)>)
    requires
        d.phase == DownloadPhase::Streaming,
        d.after(inputs).phase == DownloadPhase::Committed,
    ensures
        d.reports(inputs).len() > 0,
        d.reports(inputs).last() == FULL,
    decreases inputs.len(),
{
    if inputs.len() > 0 {
        let (next, action) = d.step(inputs[0].0, inputs[0].1);
        let rest = inputs.skip(1);
        if next.phase == DownloadPhase::Streaming {
            law_committed_ends_at_full(next, rest);
            assert(d.reports(inputs).last() == next.reports(rest).last());
        } else {
            lemma_over_reports_nothing(next, rest);
            assert(d.reports(inputs) =~= reported(action));
        }
    }
}

/// Once the abort flag is seen after a chunk, the download is discarded as
/// cancelled and nothing that follows revives it or is reported.
pub proof fn law_abort_cancels(d: Download, len: u64, later: Seq<(DownloadEvent, bool)>)
    requires
        d.phase == DownloadPhase::Streaming,
    ensures
        d.step(DownloadEvent::Chunk(len), true).1.next == DownloadNext::Discard(
            InstallError::Cancelled,
        ),
        d.step(DownloadEvent::Chunk(len), true).0.after(later).phase == DownloadPhase::Discarded(
            InstallError::Cancelled,
        ),
        d.step(DownloadEvent::Chunk(len), true).0.reports(later) == Seq::<nat>::empty(),
{
    lemma_over_reports_nothing(d.step(DownloadEvent::Chunk(len), true).0, later);
}

} // verus!
