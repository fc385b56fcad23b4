//! Matching a screenshot request with the file that the game saved.
//!
//! A [`Capture`] is the coordinator's protocol as a state machine. It first
//! drains the notices that are already queued, then has the screenshot
//! requested, then waits for one fresh notice and has the file looked up.
//! The caller owns the channel, the keyboard and the disk: it makes each
//! call that the machine names and hands the answer back.

use vstd::prelude::*;
use vstd::string::StrSliceExecFns;
use vstd::string::StringExecFns;

use crate::error::{CaptureError, RequestError};
use crate::screenshot::watch::{ScreenshotEvent, ScreenshotEventView};

pub mod request;
pub mod watch;

verus! {

broadcast use vstd::string::group_string_axioms;

/// Milliseconds to wait for each queued notice while draining.
pub const DRAIN_POLL_MILLIS: u64 = 100;

/// Milliseconds to wait for the notice that answers a request.
pub const CAPTURE_WAIT_MILLIS: u64 = 10_000;

/// The part of a journal file name that follows its last backslash: all of
/// it where there is none, nothing where it ends in one.
pub open spec fn final_segment(name: Seq<char>) -> Seq<char>
    decreases name.len(),
{
    if name.len() == 0 {
        name
    } else if name.last() == '\\' {
        Seq::empty()
    } else {
        final_segment(name.drop_last()).push(name.last())
    }
}

/// The final segment is the longest tail of the name without a backslash.
pub proof fn lemma_final_segment(name: Seq<char>)
    ensures
        final_segment(name).len() <= name.len(),
        final_segment(name) == name.subrange(
            name.len() - final_segment(name).len(),
            name.len() as int,
        ),
        !final_segment(name).contains('\\'),
        final_segment(name).len() < name.len() ==> name[name.len() - final_segment(name).len() - 1]
            == '\\',
    decreases name.len(),
{
    if name.len() > 0 && name.last() != '\\' {
        let front = name.drop_last();
        lemma_final_segment(front);
        let tail = final_segment(front);
        assert(final_segment(name) =~= name.subrange(name.len() - tail.len() - 1, name.len() as int));
        assert forall|i: int| 0 <= i < final_segment(name).len() implies final_segment(name)[i]
            != '\\' by {
            if i < tail.len() {
                assert(tail.contains(tail[i]));
            }
        }
    } else {
        assert(final_segment(name) =~= name.subrange(name.len() as int, name.len() as int));
    }
}

/// Strips the directories that the game writes in front of a screenshot's
/// file name.
pub fn file_name_of(filename: &str) -> (name: String)
    ensures
        name@ == final_segment(filename@),
{
    let n: usize = filename.unicode_len();
    let mut start: usize = 0;
    let mut seen: usize = 0;
    for c in it: filename.chars()
        invariant
            n == filename@.len(),
            it.seq() == filename@,
            seen == it.index(),
            start <= seen <= n,
            start == seen - final_segment(filename@.take(seen as int)).len(),
    {
        assert(filename@.take(seen + 1).drop_last() =~= filename@.take(seen as int));
        seen = seen + 1;
        if c == '\\' {
            start = seen;
        }
    }
    proof {
        assert(filename@.take(seen as int) =~= filename@);
        lemma_final_segment(filename@);
    }
    String::from_str(filename.substring_char(start, n))
}

/// The label of a screenshot without any hint of where it was taken.
pub open spec fn unknown_location() -> Seq<char> {
    "Unknown location"@
}

/// Where a screenshot was taken: the body if the journal names one, else the
/// star system, else `unknown_location`.
pub open spec fn location_of(event: ScreenshotEventView) -> Seq<char> {
    match event.body {
        Some(body) => body,
        None => match event.system {
            Some(system) => system,
            None => unknown_location(),
        },
    }
}

/// The folders below the user's pictures directory in which the game saves
/// its screenshots, outermost first.
pub open spec fn game_folders() -> Seq<Seq<char>> {
    seq!["Frontier Developments"@, "Elite Dangerous"@]
}

pub fn screenshot_folders() -> (folders: Vec<String>)
    ensures
        folders.deep_view() == game_folders(),
{
    let mut folders: Vec<String> = Vec::new();
    folders.push(String::from_str("Frontier Developments"));
    folders.push(String::from_str("Elite Dangerous"));
    assert(folders.deep_view() =~= game_folders());
    folders
}

/// A screenshot that was found on disk.
#[derive(Debug, Clone, PartialEq, Eq)]
pub struct Screenshot {
    /// Where the file is.
    pub path: String,
    /// Where the picture was taken.
    pub location: String,
}

pub struct ScreenshotView {
    pub path: Seq<char>,
    pub location: Seq<char>,
}

impl View for Screenshot {
    type V = ScreenshotView;

    open spec fn view(&self) -> ScreenshotView {
        ScreenshotView { path: self.path@, location: self.location@ }
    }
}

/// What a notice resolves to, once `path` was looked up on disk: a screenshot
/// if there is a file, and `FileMissing` if there is none.
pub open spec fn resolved(event: ScreenshotEventView, path: Seq<char>, is_file: bool) -> Result<
    ScreenshotView,
    CaptureError,
> {
    if is_file {
        Ok(ScreenshotView { path, location: location_of(event) })
    } else {
        Err(CaptureError::FileMissing)
    }
}

/// The plain form of a capture's end.
pub open spec fn outcome_view(outcome: Result<Screenshot, CaptureError>) -> Result<
    ScreenshotView,
    CaptureError,
> {
    match outcome {
        Ok(screenshot) => Ok(screenshot@),
        Err(error) => Err(error),
    }
}

impl Screenshot {
    /// Names the place of a notice.
    pub fn resolve_location(event: ScreenshotEvent) -> (location: String)
        ensures
            location@ == location_of(event@),
    {
        match event.body {
            Some(body) => body,
            None => match event.system {
                Some(system) => system,
                None => String::from_str("Unknown location"),
            },
        }
    }

    /// Turns a notice into a screenshot. `path` is where the file named by
    /// the notice should be, and `is_file` says whether a file is there.
    pub fn try_from(event: ScreenshotEvent, path: String, is_file: bool) -> (made: Result<
        Screenshot,
        CaptureError,
    >)
        ensures
            outcome_view(made) == resolved(event@, path@, is_file),
    {
        if !is_file {
            Err(CaptureError::FileMissing)
        } else {
            let location = Screenshot::resolve_location(event);
            Ok(Screenshot { path, location })
        }
    }
}

/// How far a capture has come.
#[derive(Debug, Clone, PartialEq, Eq)]
pub enum CapturePhase {
    /// No capture is under way.
    Idle,
    /// Throwing away the notices that were queued before the request.
    Draining,
    /// The request is being made.
    Requesting,
    /// Waiting for the notice that answers the request.
    Awaiting,
    /// The notice came; its file is being looked up.
    Probing(ScreenshotEvent),
}

pub enum CapturePhaseView {
    Idle,
    Draining,
    Requesting,
    Awaiting,
    Probing(ScreenshotEventView),
}

impl View for CapturePhase {
    type V = CapturePhaseView;

    open spec fn view(&self) -> CapturePhaseView {
        match self {
            CapturePhase::Idle => CapturePhaseView::Idle,
            CapturePhase::Draining => CapturePhaseView::Draining,
            CapturePhase::Requesting => CapturePhaseView::Requesting,
            CapturePhase::Awaiting => CapturePhaseView::Awaiting,
            CapturePhase::Probing(event) => CapturePhaseView::Probing(event@),
        }
    }
}

/// The coordinator's state.
#[derive(Debug, Clone, PartialEq, Eq)]
pub struct Capture {
    pub high_res: bool,
    pub phase: CapturePhase,
}

pub struct CaptureView {
    pub high_res: bool,
    pub phase: CapturePhaseView,
}

impl View for Capture {
    type V = CaptureView;

    open spec fn view(&self) -> CaptureView {
        CaptureView { high_res: self.high_res, phase: self.phase@ }
    }
}

/// A call that the coordinator asks its caller to make.
#[derive(Debug, PartialEq, Eq)]
pub enum CaptureCall {
    /// Nothing: no capture is under way.
    Rest,
    /// Wait up to `millis` for a notice. Answer: `Notice`, or `Silence` when
    /// none came.
    Poll { millis: u64 },
    /// Request a screenshot. Answer: `Requested`.
    Request { high_res: bool },
    /// Look for `file_name` in `folders` below the pictures directory.
    /// Answer: `Probed`.
    Probe { folders: Vec<String>, file_name: String },
    /// The capture is over; this is how it ended.
    Done(Result<Screenshot, CaptureError>),
}

pub enum CaptureCallView {
    Rest,
    Poll { millis: u64 },
    Request { high_res: bool },
    Probe { folders: Seq<Seq<char>>, file_name: Seq<char> },
    Done(Result<ScreenshotView, CaptureError>),
}

impl View for CaptureCall {
    type V = CaptureCallView;

    open spec fn view(&self) -> CaptureCallView {
        match self {
            CaptureCall::Rest => CaptureCallView::Rest,
            CaptureCall::Poll { millis } => CaptureCallView::Poll { millis: *millis },
            CaptureCall::Request { high_res } => CaptureCallView::Request { high_res: *high_res },
            CaptureCall::Probe { folders, file_name } => CaptureCallView::Probe {
                folders: folders.deep_view(),
                file_name: file_name@,
            },
            CaptureCall::Done(outcome) => CaptureCallView::Done(outcome_view(*outcome)),
        }
    }
}

/// The answer to a call.
#[derive(Debug, PartialEq, Eq)]
pub enum CaptureReply {
    /// A notice arrived.
    Notice(ScreenshotEvent),
    /// No notice arrived in time.
    Silence,
    /// The request was made, or failed.
    Requested(Result<(), RequestError>),
    /// The file was looked up at `path`.
    Probed { path: String, is_file: bool },
}

pub enum CaptureReplyView {
    Notice(ScreenshotEventView),
    Silence,
    Requested(Result<(), RequestError>),
    Probed { path: Seq<char>, is_file: bool },
}

impl View for CaptureReply {
    type V = CaptureReplyView;

    open spec fn view(&self) -> CaptureReplyView {
        match self {
            CaptureReply::Notice(event) => CaptureReplyView::Notice(event@),
            CaptureReply::Silence => CaptureReplyView::Silence,
            CaptureReply::Requested(outcome) => CaptureReplyView::Requested(*outcome),
            CaptureReply::Probed { path, is_file } => CaptureReplyView::Probed {
                path: path@,
                is_file: *is_file,
            },
        }
    }
}

/// The call that is due in a state.
pub open spec fn due_call(state: CaptureView) -> CaptureCallView {
    match state.phase {
        CapturePhaseView::Idle => CaptureCallView::Rest,
        CapturePhaseView::Draining => CaptureCallView::Poll { millis: DRAIN_POLL_MILLIS },
        CapturePhaseView::Requesting => CaptureCallView::Request { high_res: state.high_res },
        CapturePhaseView::Awaiting => CaptureCallView::Poll { millis: CAPTURE_WAIT_MILLIS },
        CapturePhaseView::Probing(event) => CaptureCallView::Probe {
            folders: game_folders(),
            file_name: final_segment(event.filename),
        },
    }
}

/// The state in `phase`.
pub open spec fn in_phase(state: CaptureView, phase: CapturePhaseView) -> CaptureView {
    CaptureView { high_res: state.high_res, phase }
}

/// The state after a reply, and the call that follows. A reply that does not
/// answer the call that is due changes nothing, and the call is due again.
pub open spec fn step(state: CaptureView, reply: CaptureReplyView) -> (CaptureView, CaptureCallView) {
    let idle = in_phase(state, CapturePhaseView::Idle);
    match (state.phase, reply) {
        (CapturePhaseView::Draining, CaptureReplyView::Notice(_)) => (state, due_call(state)),
        (CapturePhaseView::Draining, CaptureReplyView::Silence) => {
            let next = in_phase(state, CapturePhaseView::Requesting);
            (next, due_call(next))
        },
        (CapturePhaseView::Requesting, CaptureReplyView::Requested(Ok(_))) => {
            let next = in_phase(state, CapturePhaseView::Awaiting);
            (next, due_call(next))
        },
        (CapturePhaseView::Requesting, CaptureReplyView::Requested(Err(error))) => (
            idle,
            CaptureCallView::Done(Err(CaptureError::RequestFailed(error))),
        ),
        (CapturePhaseView::Awaiting, CaptureReplyView::Notice(event)) => {
            let next = in_phase(state, CapturePhaseView::Probing(event));
            (next, due_call(next))
        },
        (CapturePhaseView::Awaiting, CaptureReplyView::Silence) => (
            idle,
            CaptureCallView::Done(Err(CaptureError::Timeout)),
        ),
        (CapturePhaseView::Probing(event), CaptureReplyView::Probed { path, is_file }) => (
            idle,
            CaptureCallView::Done(resolved(event, path, is_file)),
        ),
        _ => (state, due_call(state)),
    }
}

/// The state in which a capture starts.
pub open spec fn started(high_res: bool) -> CaptureView {
    CaptureView { high_res, phase: CapturePhaseView::Draining }
}

impl Capture {
    /// A coordinator at rest.
    pub fn new() -> (capture: Capture)
        ensures
            capture@ == (CaptureView { high_res: false, phase: CapturePhaseView::Idle }),
    {
        Capture { high_res: false, phase: CapturePhase::Idle }
    }

    /// Starts a capture, dropping whatever was under way, and names its
    /// first call.
    pub fn take_screenshot(&mut self, high_res: bool) -> (call: CaptureCall)
        ensures
            final(self)@ == started(high_res),
            call@ == due_call(started(high_res)),
    {
        self.high_res = high_res;
        self.phase = CapturePhase::Draining;
        CaptureCall::Poll { millis: DRAIN_POLL_MILLIS }
    }

    /// The call to make now.
    pub fn next_call(&self) -> (call: CaptureCall)
        ensures
            call@ == due_call(self@),
    {
        match &self.phase {
            CapturePhase::Idle => CaptureCall::Rest,
            CapturePhase::Draining => CaptureCall::Poll { millis: DRAIN_POLL_MILLIS },
            CapturePhase::Requesting => CaptureCall::Request { high_res: self.high_res },
            CapturePhase::Awaiting => CaptureCall::Poll { millis: CAPTURE_WAIT_MILLIS },
            CapturePhase::Probing(event) => CaptureCall::Probe {
                folders: screenshot_folders(),
                file_name: file_name_of(event.filename.as_str()),
            },
        }
    }

    /// Takes the answer to the call that was due and names the next call.
    pub fn advance(&mut self, reply: CaptureReply) -> (call: CaptureCall)
        ensures
            (final(self)@, call@) == step(old(self)@, reply@),
    {
        let mut phase = CapturePhase::Idle;
        std::mem::swap(&mut self.phase, &mut phase);
        match (phase, reply) {
            (CapturePhase::Draining, CaptureReply::Silence) => {
                self.phase = CapturePhase::Requesting;
                self.next_call()
            },
            (CapturePhase::Requesting, CaptureReply::Requested(Ok(_))) => {
                self.phase = CapturePhase::Awaiting;
                self.next_call()
            },
            (CapturePhase::Requesting, CaptureReply::Requested(Err(error))) => {
                CaptureCall::Done(Err(CaptureError::RequestFailed(error)))
            },
            (CapturePhase::Awaiting, CaptureReply::Notice(event)) => {
                self.phase = CapturePhase::Probing(event);
                self.next_call()
            },
            (CapturePhase::Awaiting, CaptureReply::Silence) => {
                CaptureCall::Done(Err(CaptureError::Timeout))
            },
            (CapturePhase::Probing(event), CaptureReply::Probed { path, is_file }) => {
                CaptureCall::Done(Screenshot::try_from(event, path, is_file))
            },
            (phase, _) => {
                self.phase = phase;
                self.next_call()
            },
        }
    }
}

/// The state after a run of replies, oldest first, and the call that is due then.
pub open spec fn after_replies(state: CaptureView, replies: Seq<CaptureReplyView>) -> (
    CaptureView,
    CaptureCallView,
)
    decreases replies.len(),
{
    if replies.len() == 0 {
        (state, due_call(state))
    } else {
        step(after_replies(state, replies.drop_last()).0, replies.last())
    }
}

/// Notices as the replies that deliver them.
pub open spec fn as_notices(events: Seq<ScreenshotEventView>) -> Seq<CaptureReplyView> {
    Seq::new(events.len(), |i: int| CaptureReplyView::Notice(events[i]))
}

/// Draining swallows every notice that is queued: however many arrive before
/// the first silence, the capture has not moved and polls again.
pub proof fn lemma_drain_swallows(high_res: bool, stale: Seq<ScreenshotEventView>)
    ensures
        after_replies(started(high_res), as_notices(stale)) == (
            started(high_res),
            due_call(started(high_res)),
        ),
    decreases stale.len(),
{
    if stale.len() > 0 {
        lemma_drain_swallows(high_res, stale.drop_last());
        assert(as_notices(stale).drop_last() =~= as_notices(stale.drop_last()));
    }
}

/// Feeding one reply more is one more step.
pub proof fn lemma_one_more_reply(state: CaptureView, replies: Seq<CaptureReplyView>, reply: CaptureReplyView)
    ensures
        after_replies(state, replies.push(reply)) == step(after_replies(state, replies).0, reply),
{
    assert(replies.push(reply).drop_last() =~= replies);
}

/// The replies of a capture in which `stale` notices were queued at the
/// start, the request went through, and `fresh` arrived afterwards and was
/// looked up at `path`.
pub open spec fn answered_run(
    stale: Seq<ScreenshotEventView>,
    fresh: ScreenshotEventView,
    path: Seq<char>,
    is_file: bool,
) -> Seq<CaptureReplyView> {
    as_notices(stale).push(CaptureReplyView::Silence).push(
        CaptureReplyView::Requested(Ok(())),
    ).push(CaptureReplyView::Notice(fresh)).push(CaptureReplyView::Probed { path, is_file })
}

/// Only the notice that arrives after the request counts. Whatever was
/// queued before is thrown away and leaves no trace in the result, which is
/// built from the fresh notice alone.
pub proof fn lemma_fresh_notice_is_used(
    high_res: bool,
    stale: Seq<ScreenshotEventView>,
    fresh: ScreenshotEventView,
    path: Seq<char>,
    is_file: bool,
)
    ensures
        after_replies(started(high_res), answered_run(stale, fresh, path, is_file)).1
            == CaptureCallView::Done(resolved(fresh, path, is_file)),
        after_replies(started(high_res), answered_run(stale, fresh, path, is_file)).0.phase
            == CapturePhaseView::Idle,
{
    let start = started(high_res);
    let drained = as_notices(stale);
    let quiet = drained.push(CaptureReplyView::Silence);
    let asked = quiet.push(CaptureReplyView::Requested(Ok(())));
    let noticed = asked.push(CaptureReplyView::Notice(fresh));
    lemma_drain_swallows(high_res, stale);
    lemma_one_more_reply(start, drained, CaptureReplyView::Silence);
    lemma_one_more_reply(start, quiet, CaptureReplyView::Requested(Ok(())));
    lemma_one_more_reply(start, asked, CaptureReplyView::Notice(fresh));
    lemma_one_more_reply(start, noticed, CaptureReplyView::Probed { path, is_file });
}

/// Notices that were queued before the request never answer it: when
/// nothing arrives after the request, the capture times out, however many
/// notices were drained.
pub proof fn lemma_silence_is_a_timeout(high_res: bool, stale: Seq<ScreenshotEventView>)
    ensures
        after_replies(
            started(high_res),
            as_notices(stale).push(CaptureReplyView::Silence).push(
                CaptureReplyView::Requested(Ok(())),
            ).push(CaptureReplyView::Silence),
        ).1 == CaptureCallView::Done(Err(CaptureError::Timeout)),
{
    let start = started(high_res);
    let drained = as_notices(stale);
    let quiet = drained.push(CaptureReplyView::Silence);
    let asked = quiet.push(CaptureReplyView::Requested(Ok(())));
    lemma_drain_swallows(high_res, stale);
    lemma_one_more_reply(start, drained, CaptureReplyView::Silence);
    lemma_one_more_reply(start, quiet, CaptureReplyView::Requested(Ok(())));
    lemma_one_more_reply(start, asked, CaptureReplyView::Silence);
}

/// A capture succeeds only on the word that the file is there: the step that
/// ends it with a screenshot is the answer to a probe, the probe found a
/// file, and the screenshot carries the path that was probed.
pub proof fn lemma_success_means_file_found(state: CaptureView, reply: CaptureReplyView)
    ensures
        step(state, reply).1 matches CaptureCallView::Done(Ok(screenshot)) ==> {
            &&& state.phase matches CapturePhaseView::Probing(event)
            &&& reply matches CaptureReplyView::Probed { path, is_file }
            &&& is_file
            &&& screenshot.path == path
            &&& screenshot.location == location_of(event)
        },
{
}

/// A request is made only when the queue was just found empty: the step
/// that moves a capture to requesting is a silence while draining.
pub proof fn lemma_request_follows_drain(state: CaptureView, reply: CaptureReplyView)
    requires
        !(state.phase is Requesting),
        step(state, reply).0.phase is Requesting,
    ensures
        state.phase is Draining,
        reply is Silence,
        step(state, reply).1 == (CaptureCallView::Request { high_res: state.high_res }),
{
}

/// The file that is looked for is named by the last segment of the
/// journal's file name alone, in the game's folders.
pub proof fn lemma_probe_uses_final_segment(state: CaptureView, fresh: ScreenshotEventView)
    requires
        state.phase is Awaiting,
    ensures
        step(state, CaptureReplyView::Notice(fresh)).1 == (CaptureCallView::Probe {
            folders: game_folders(),
            file_name: final_segment(fresh.filename),
        }),
        !final_segment(fresh.filename).contains('\\'),
{
    lemma_final_segment(fresh.filename);
}

/// A notice without a body and without a system is labelled
/// `unknown_location`; with a body the body wins, and else the system does.
pub proof fn lemma_location_fallback(event: ScreenshotEventView)
    ensures
        event.body is None && event.system is None ==> location_of(event) == unknown_location(),
        event.body matches Some(body) ==> location_of(event) == body,
        event.body is None ==> (event.system matches Some(system) ==> location_of(event)
            == system),
{
}

} // verus!
