//! Tailing the game's journal for screenshot notifications.
//!
//! Reading the journal blocks and is done elsewhere; this module decides what
//! becomes of each record that was read.

use vstd::prelude::*;

verus! {

/// Cancellation signal for the journal tailer.
#[derive(Debug, Clone, Copy)]
pub struct Exit;

/// The journal's notice that a screenshot was saved.
#[derive(Debug, Clone, PartialEq, Eq)]
pub struct ScreenshotEvent {
    /// File name as the journal gives it, with backslash-separated directories.
    pub filename: String,
    /// Name of the body that the ship was near, if any.
    pub body: Option<String>,
    /// Name of the star system, if known.
    pub system: Option<String>,
}

/// A screenshot notice as plain text.
pub struct ScreenshotEventView {
    pub filename: Seq<char>,
    pub body: Option<Seq<char>>,
    pub system: Option<Seq<char>>,
}

/// The text of an optional string.
pub open spec fn text_of(value: Option<String>) -> Option<Seq<char>> {
    match value {
        Some(s) => Some(s@),
        None => None,
    }
}

impl View for ScreenshotEvent {
    type V = ScreenshotEventView;

    open spec fn view(&self) -> ScreenshotEventView {
        ScreenshotEventView {
            filename: self.filename@,
            body: text_of(self.body),
            system: text_of(self.system),
        }
    }
}

/// One record read from the journal.
#[derive(Debug, Clone, PartialEq, Eq)]
pub enum JournalRecord {
    /// A screenshot was saved.
    Screenshot(ScreenshotEvent),
    /// Any other event.
    Other,
    /// A line that could not be decoded.
    Malformed,
}

pub enum JournalRecordView {
    Screenshot(ScreenshotEventView),
    Other,
    Malformed,
}

impl View for JournalRecord {
    type V = JournalRecordView;

    open spec fn view(&self) -> JournalRecordView {
        match self {
            JournalRecord::Screenshot(event) => JournalRecordView::Screenshot(event@),
            JournalRecord::Other => JournalRecordView::Other,
            JournalRecord::Malformed => JournalRecordView::Malformed,
        }
    }
}

/// What the tailer does with a record.
#[derive(Debug, Clone, PartialEq, Eq)]
pub enum TailAction {
    /// Leave the loop; the record is dropped.
    Stop,
    /// Send the event to the coordinator.
    Publish(ScreenshotEvent),
    /// Drop the record.
    Discard,
    /// Log that a line was unreadable and go on.
    Report,
}

pub enum TailActionView {
    Stop,
    Publish(ScreenshotEventView),
    Discard,
    Report,
}

impl View for TailAction {
    type V = TailActionView;

    open spec fn view(&self) -> TailActionView {
        match self {
            TailAction::Stop => TailActionView::Stop,
            TailAction::Publish(event) => TailActionView::Publish(event@),
            TailAction::Discard => TailActionView::Discard,
            TailAction::Report => TailActionView::Report,
        }
    }
}

/// The action for a record that arrived while a cancellation was pending or
/// not. Cancellation is looked at first, so the record that reveals it is
/// never published.
pub open spec fn action_for(exit_pending: bool, record: JournalRecordView) -> TailActionView {
    if exit_pending {
        TailActionView::Stop
    } else {
        match record {
            JournalRecordView::Screenshot(event) => TailActionView::Publish(event),
            JournalRecordView::Other => TailActionView::Discard,
            JournalRecordView::Malformed => TailActionView::Report,
        }
    }
}

/// Decides what becomes of a record.
pub fn on_record(exit_pending: bool, record: JournalRecord) -> (action: TailAction)
    ensures
        action@ == action_for(exit_pending, record@),
{
    if exit_pending {
        TailAction::Stop
    } else {
        match record {
            JournalRecord::Screenshot(event) => TailAction::Publish(event),
            JournalRecord::Other => TailAction::Discard,
            JournalRecord::Malformed => TailAction::Report,
        }
    }
}

/// A record together with whether a cancellation was pending when it arrived.
pub struct Arrival {
    pub exit_pending: bool,
    pub record: JournalRecordView,
}

/// Everything a tailer publishes over a run of arrivals, oldest first.
pub open spec fn published(run: Seq<Arrival>) -> Seq<ScreenshotEventView>
    decreases run.len(),
{
    if run.len() == 0 {
        Seq::empty()
    } else {
        match action_for(run[0].exit_pending, run[0].record) {
            TailActionView::Stop => Seq::empty(),
            TailActionView::Publish(event) => seq![event] + published(run.drop_first()),
            _ => published(run.drop_first()),
        }
    }
}

/// The screenshot notices among a run of arrivals, oldest first.
pub open spec fn notices(run: Seq<Arrival>) -> Seq<ScreenshotEventView>
    decreases run.len(),
{
    if run.len() == 0 {
        Seq::empty()
    } else {
        match run[0].record {
            JournalRecordView::Screenshot(event) => seq![event] + notices(run.drop_first()),
            _ => notices(run.drop_first()),
        }
    }
}

/// Until it is cancelled a tailer publishes every screenshot notice, each
/// once and in the order of the journal, and nothing else.
pub proof fn lemma_publishes_every_notice(run: Seq<Arrival>)
    requires
        forall|i: int| 0 <= i < run.len() ==> !(#[trigger] run[i]).exit_pending,
    ensures
        published(run) == notices(run),
    decreases run.len(),
{
    if run.len() > 0 {
        let rest = run.drop_first();
        assert forall|i: int| 0 <= i < rest.len() implies !(#[trigger] rest[i]).exit_pending by {
            assert(rest[i] == run[i + 1]);
        }
        lemma_publishes_every_notice(rest);
    }
}

/// Once a record arrives with a cancellation pending, nothing more is
/// published: neither that record nor any later one.
pub proof fn lemma_cancellation_ends_publication(run: Seq<Arrival>, at: int)
    requires
        0 <= at < run.len(),
        run[at].exit_pending,
    ensures
        published(run) == published(run.take(at)),
    decreases at,
{
    if run[0].exit_pending {
        if at > 0 {
            assert(run.take(at)[0] == run[0]);
        }
    } else {
        let rest = run.drop_first();
        assert(rest[at - 1] == run[at]);
        lemma_cancellation_ends_publication(rest, at - 1);
        assert(run.take(at)[0] == run[0]);
        assert(run.take(at).drop_first() =~= rest.take(at - 1));
    }
}

} // verus!
