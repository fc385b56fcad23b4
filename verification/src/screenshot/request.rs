//! Asking the game for a screenshot by synthetic key presses.
//!
//! The operating system does the work; this module decides what to ask of it
//! and in which order. A [`Request`] is a small state machine: `next_call`
//! names the one call that is due, the caller makes it and feeds the answer to
//! `advance`, until `next_call` says `Done`.

use vstd::prelude::*;

use crate::error::{FocusStep, KeyPhase, RequestError};

verus! {

/// Scan code of the F10 key, which saves a screenshot.
pub const KEYSCAN_F10: u16 = 0x44;

/// Scan code of the left Alt key, which turns F10 into a high-resolution capture.
pub const KEYSCAN_LALT: u16 = 0x38;

/// Flag of a keyboard event that releases the key.
pub const KEYEVENTF_KEYUP: u32 = 0x0002;

/// Milliseconds to let the game's window settle before and after the key presses.
pub const SETTLE_MILLIS: u64 = 60;

/// Exact title of the game's window.
pub fn target_window_title() -> (title: &'static str)
    ensures
        title@ == "Elite - Dangerous (CLIENT)"@,
{
    "Elite - Dangerous (CLIENT)"
}

/// One synthetic keyboard event, field by field as the operating system takes it.
#[derive(Debug, Clone, Copy, PartialEq, Eq, Structural)]
pub struct KeyInput {
    pub virtual_key: u16,
    pub scan: u16,
    pub flags: u32,
    pub time: u32,
    pub extra_info: usize,
}

/// The event for the key with scan code `wscan` and the flags `dwflag`; the
/// key is named by its scan code alone and the system stamps the time.
pub open spec fn key_event(wscan: u16, dwflag: u32) -> KeyInput {
    KeyInput { virtual_key: 0, scan: wscan, flags: dwflag, time: 0, extra_info: 0 }
}

pub fn keyscan_input(wscan: u16, dwflag: u32) -> (input: KeyInput)
    ensures
        input == key_event(wscan, dwflag),
{
    KeyInput { virtual_key: 0, scan: wscan, flags: dwflag, time: 0, extra_info: 0 }
}

/// The keys of a capture, in the order in which they go down.
pub open spec fn capture_keys(high_res: bool) -> Seq<u16> {
    if high_res {
        seq![KEYSCAN_LALT, KEYSCAN_F10]
    } else {
        seq![KEYSCAN_F10]
    }
}

/// Key-down events for `keys`, in order.
pub open spec fn presses(keys: Seq<u16>) -> Seq<KeyInput> {
    Seq::new(keys.len(), |i: int| key_event(keys[i], 0))
}

/// Key-up events for `keys`, last key first.
pub open spec fn releases(keys: Seq<u16>) -> Seq<KeyInput> {
    Seq::new(keys.len(), |i: int| key_event(keys[keys.len() - 1 - i], KEYEVENTF_KEYUP))
}

/// The events of one phase of a capture.
pub open spec fn capture_events(high_res: bool, phase: KeyPhase) -> Seq<KeyInput> {
    match phase {
        KeyPhase::Down => presses(capture_keys(high_res)),
        KeyPhase::Up => releases(capture_keys(high_res)),
    }
}

pub fn key_sequence(high_res: bool) -> (keys: Vec<u16>)
    ensures
        keys@ == capture_keys(high_res),
{
    let mut keys: Vec<u16> = Vec::new();
    if high_res {
        keys.push(KEYSCAN_LALT);
    }
    keys.push(KEYSCAN_F10);
    assert(keys@ =~= capture_keys(high_res));
    keys
}

pub fn key_presses(keys: &Vec<u16>) -> (events: Vec<KeyInput>)
    ensures
        events@ == presses(keys@),
{
    let mut events: Vec<KeyInput> = Vec::new();
    let mut i: usize = 0;
    while i < keys.len()
        invariant
            i <= keys.len(),
            events@ == presses(keys@.take(i as int)),
        decreases keys.len() - i,
    {
        events.push(keyscan_input(keys[i], 0));
        i += 1;
        assert(events@ =~= presses(keys@.take(i as int)));
    }
    assert(keys@.take(i as int) =~= keys@);
    events
}

pub fn key_releases(keys: &Vec<u16>) -> (events: Vec<KeyInput>)
    ensures
        events@ == releases(keys@),
{
    let n: usize = keys.len();
    let mut events: Vec<KeyInput> = Vec::new();
    let mut i: usize = 0;
    while i < n
        invariant
            n == keys.len(),
            i <= n,
            events@.len() == i,
            forall|j: int| 0 <= j < i ==> events@[j] == key_event(keys@[n - 1 - j], KEYEVENTF_KEYUP),
        decreases n - i,
    {
        events.push(keyscan_input(keys[n - 1 - i], KEYEVENTF_KEYUP));
        i += 1;
    }
    assert(events@ =~= releases(keys@));
    events
}

/// The keyboard events to inject in `phase` of a capture.
pub fn key_events(high_res: bool, phase: KeyPhase) -> (events: Vec<KeyInput>)
    ensures
        events@ == capture_events(high_res, phase),
{
    let keys = key_sequence(high_res);
    match phase {
        KeyPhase::Down => key_presses(&keys),
        KeyPhase::Up => key_releases(&keys),
    }
}

/// Keys come up in the reverse of the order in which they went down, and
/// every key that went down comes up.
pub proof fn lemma_releases_mirror_presses(keys: Seq<u16>, i: int)
    requires
        0 <= i < keys.len(),
    ensures
        releases(keys).len() == presses(keys).len(),
        releases(keys)[i].scan == presses(keys)[keys.len() - 1 - i].scan,
        presses(keys)[i].flags == 0,
        releases(keys)[i].flags == KEYEVENTF_KEYUP,
{
}

/// A call that the machine asks its caller to make.
#[derive(Debug, Clone, Copy, PartialEq, Eq)]
pub enum OsCall {
    /// Ask which window has the focus. Answer: `Window`.
    ForegroundWindow,
    /// Look the game's window up by `target_window_title`. Answer: `Window`,
    /// with handle 0 when there is none.
    FindTarget,
    /// Make the window the foreground window. Answer: `Granted`.
    SetForeground(isize),
    /// Bring the window to the top of the z-order. Answer: `Granted`.
    BringToTop(isize),
    /// Sleep for so many milliseconds. Answer: `Slept`.
    Sleep(u64),
    /// Inject `key_events` of the phase. Answer: `Sent`, with the number of
    /// events that the system took.
    SendKeys(KeyPhase),
    /// Give the focus back to the window that had it. Answer: `Granted`,
    /// whatever the system said.
    RestoreForeground(isize),
    /// Nothing is left to do; this is how the request ended.
    Done(Result<(), RequestError>),
}

/// The answer to a call.
#[derive(Debug, Clone, Copy, PartialEq, Eq)]
pub enum OsReply {
    Window(isize),
    Granted(bool),
    Slept,
    Sent(u32),
}

/// How far a request has come.
#[derive(Debug, Clone, Copy, PartialEq, Eq)]
pub enum RequestPhase {
    ReadFocus,
    Locate,
    Focus,
    Raise,
    SettleBeforePress,
    Press,
    SettleAfterPress,
    Release,
    Restore,
    Finished(Result<(), RequestError>),
}

/// A screenshot request in progress.
#[derive(Debug, Clone, Copy, PartialEq, Eq)]
pub struct Request {
    pub high_res: bool,
    pub phase: RequestPhase,
    /// The window that had the focus; meaningful once `ReadFocus` is over.
    pub previous: isize,
    /// The game's window; meaningful once `Locate` is over.
    pub target: isize,
}

/// A request on which nothing has been done yet.
pub open spec fn fresh_request(high_res: bool) -> Request {
    Request { high_res, phase: RequestPhase::ReadFocus, previous: 0, target: 0 }
}

/// The call that is due in a state.
pub open spec fn call_of(request: Request) -> OsCall {
    match request.phase {
        RequestPhase::ReadFocus => OsCall::ForegroundWindow,
        RequestPhase::Locate => OsCall::FindTarget,
        RequestPhase::Focus => OsCall::SetForeground(request.target),
        RequestPhase::Raise => OsCall::BringToTop(request.target),
        RequestPhase::SettleBeforePress => OsCall::Sleep(SETTLE_MILLIS),
        RequestPhase::Press => OsCall::SendKeys(KeyPhase::Down),
        RequestPhase::SettleAfterPress => OsCall::Sleep(SETTLE_MILLIS),
        RequestPhase::Release => OsCall::SendKeys(KeyPhase::Up),
        RequestPhase::Restore => OsCall::RestoreForeground(request.previous),
        RequestPhase::Finished(outcome) => OsCall::Done(outcome),
    }
}

/// The state that the request is in from `phase` on.
pub open spec fn moved(request: Request, phase: RequestPhase) -> Request {
    Request { phase, ..request }
}

/// The state after `reply` arrived. A reply that does not answer the call
/// that is due changes nothing.
pub open spec fn after_reply(request: Request, reply: OsReply) -> Request {
    let wanted = capture_keys(request.high_res).len();
    match (request.phase, reply) {
        (RequestPhase::ReadFocus, OsReply::Window(handle)) => Request {
            previous: handle,
            phase: RequestPhase::Locate,
            ..request
        },
        (RequestPhase::Locate, OsReply::Window(handle)) => if handle == 0 {
            moved(request, RequestPhase::Finished(Err(RequestError::TargetNotRunning)))
        } else {
            Request { target: handle, phase: RequestPhase::Focus, ..request }
        },
        (RequestPhase::Focus, OsReply::Granted(granted)) => if granted {
            moved(request, RequestPhase::Raise)
        } else {
            moved(
                request,
                RequestPhase::Finished(Err(RequestError::FocusError(FocusStep::Foreground))),
            )
        },
        (RequestPhase::Raise, OsReply::Granted(granted)) => if granted {
            moved(request, RequestPhase::SettleBeforePress)
        } else {
            moved(request, RequestPhase::Finished(Err(RequestError::FocusError(FocusStep::Top))))
        },
        (RequestPhase::SettleBeforePress, OsReply::Slept) => moved(request, RequestPhase::Press),
        (RequestPhase::Press, OsReply::Sent(count)) => if count == wanted {
            moved(request, RequestPhase::SettleAfterPress)
        } else {
            moved(
                request,
                RequestPhase::Finished(Err(RequestError::InputInjectionFailed(KeyPhase::Down))),
            )
        },
        (RequestPhase::SettleAfterPress, OsReply::Slept) => moved(request, RequestPhase::Release),
        (RequestPhase::Release, OsReply::Sent(count)) => if count == wanted {
            moved(request, RequestPhase::Restore)
        } else {
            moved(
                request,
                RequestPhase::Finished(Err(RequestError::InputInjectionFailed(KeyPhase::Up))),
            )
        },
        (RequestPhase::Restore, OsReply::Granted(_)) => moved(
            request,
            RequestPhase::Finished(Ok(())),
        ),
        _ => request,
    }
}

/// Starts a screenshot request: normal resolution, or high resolution.
pub fn request_screenshot(high_res: bool) -> (request: Request)
    ensures
        request == fresh_request(high_res),
{
    Request { high_res, phase: RequestPhase::ReadFocus, previous: 0, target: 0 }
}

impl Request {
    /// How many key events each phase injects.
    pub fn key_count(&self) -> (count: u32)
        ensures
            count == capture_keys(self.high_res).len(),
    {
        if self.high_res {
            2
        } else {
            1
        }
    }

    /// The call to make now.
    pub fn next_call(&self) -> (call: OsCall)
        ensures
            call == call_of(*self),
    {
        match self.phase {
            RequestPhase::ReadFocus => OsCall::ForegroundWindow,
            RequestPhase::Locate => OsCall::FindTarget,
            RequestPhase::Focus => OsCall::SetForeground(self.target),
            RequestPhase::Raise => OsCall::BringToTop(self.target),
            RequestPhase::SettleBeforePress => OsCall::Sleep(SETTLE_MILLIS),
            RequestPhase::Press => OsCall::SendKeys(KeyPhase::Down),
            RequestPhase::SettleAfterPress => OsCall::Sleep(SETTLE_MILLIS),
            RequestPhase::Release => OsCall::SendKeys(KeyPhase::Up),
            RequestPhase::Restore => OsCall::RestoreForeground(self.previous),
            RequestPhase::Finished(outcome) => OsCall::Done(outcome),
        }
    }

    /// How the request ended, once it has.
    pub fn outcome(&self) -> (outcome: Option<Result<(), RequestError>>)
        ensures
            outcome == match self.phase {
                RequestPhase::Finished(ended) => Some(ended),
                _ => None,
            },
    {
        match self.phase {
            RequestPhase::Finished(ended) => Some(ended),
            _ => None,
        }
    }

    /// Takes the answer to the call that was due.
    pub fn advance(&mut self, reply: OsReply)
        ensures
            *final(self) == after_reply(*old(self), reply),
    {
        let wanted: u32 = self.key_count();
        match (self.phase, reply) {
            (RequestPhase::ReadFocus, OsReply::Window(handle)) => {
                self.previous = handle;
                self.phase = RequestPhase::Locate;
            },
            (RequestPhase::Locate, OsReply::Window(handle)) => {
                if handle == 0 {
                    self.phase = RequestPhase::Finished(Err(RequestError::TargetNotRunning));
                } else {
                    self.target = handle;
                    self.phase = RequestPhase::Focus;
                }
            },
            (RequestPhase::Focus, OsReply::Granted(granted)) => {
                if granted {
                    self.phase = RequestPhase::Raise;
                } else {
                    self.phase = RequestPhase::Finished(
                        Err(RequestError::FocusError(FocusStep::Foreground)),
                    );
                }
            },
            (RequestPhase::Raise, OsReply::Granted(granted)) => {
                if granted {
                    self.phase = RequestPhase::SettleBeforePress;
                } else {
                    self.phase = RequestPhase::Finished(
                        Err(RequestError::FocusError(FocusStep::Top)),
                    );
                }
            },
            (RequestPhase::SettleBeforePress, OsReply::Slept) => {
                self.phase = RequestPhase::Press;
            },
            (RequestPhase::Press, OsReply::Sent(count)) => {
                if count == wanted {
                    self.phase = RequestPhase::SettleAfterPress;
                } else {
                    self.phase = RequestPhase::Finished(
                        Err(RequestError::InputInjectionFailed(KeyPhase::Down)),
                    );
                }
            },
            (RequestPhase::SettleAfterPress, OsReply::Slept) => {
                self.phase = RequestPhase::Release;
            },
            (RequestPhase::Release, OsReply::Sent(count)) => {
                if count == wanted {
                    self.phase = RequestPhase::Restore;
                } else {
                    self.phase = RequestPhase::Finished(
                        Err(RequestError::InputInjectionFailed(KeyPhase::Up)),
                    );
                }
            },
            (RequestPhase::Restore, OsReply::Granted(_)) => {
                self.phase = RequestPhase::Finished(Ok(()));
            },
            _ => {},
        }
    }
}

/// The state after a run of replies, oldest first.
pub open spec fn after_replies(request: Request, replies: Seq<OsReply>) -> Request
    decreases replies.len(),
{
    if replies.len() == 0 {
        request
    } else {
        after_reply(after_replies(request, replies.drop_last()), replies.last())
    }
}

/// How a request ends, given what the operating system answers: the first
/// step that fails decides, and with none failing the request succeeds.
pub open spec fn verdict(
    high_res: bool,
    target: isize,
    foreground: bool,
    top: bool,
    pressed: u32,
    released: u32,
) -> Result<(), RequestError> {
    let wanted = capture_keys(high_res).len();
    if target == 0 {
        Err(RequestError::TargetNotRunning)
    } else if !foreground {
        Err(RequestError::FocusError(FocusStep::Foreground))
    } else if !top {
        Err(RequestError::FocusError(FocusStep::Top))
    } else if pressed != wanted {
        Err(RequestError::InputInjectionFailed(KeyPhase::Down))
    } else if released != wanted {
        Err(RequestError::InputInjectionFailed(KeyPhase::Up))
    } else {
        Ok(())
    }
}

/// The answers of a whole request, in the order of its calls.
pub open spec fn full_run(
    previous: isize,
    target: isize,
    foreground: bool,
    top: bool,
    pressed: u32,
    released: u32,
    restored: bool,
) -> Seq<OsReply> {
    seq![
        OsReply::Window(previous),
        OsReply::Window(target),
        OsReply::Granted(foreground),
        OsReply::Granted(top),
        OsReply::Slept,
        OsReply::Sent(pressed),
        OsReply::Slept,
        OsReply::Sent(released),
        OsReply::Granted(restored),
    ]
}

/// A request ends as `verdict` says: it fails with the error of the first
/// step that the system refused and succeeds when none was refused. Whether
/// the focus could be given back in the end does not matter.
pub proof fn lemma_request_verdict(
    high_res: bool,
    previous: isize,
    target: isize,
    foreground: bool,
    top: bool,
    pressed: u32,
    released: u32,
    restored: bool,
)
    ensures
        after_replies(
            fresh_request(high_res),
            full_run(previous, target, foreground, top, pressed, released, restored),
        ).phase == RequestPhase::Finished(
            verdict(high_res, target, foreground, top, pressed, released),
        ),
{
    let run = full_run(previous, target, foreground, top, pressed, released, restored);
    let start = fresh_request(high_res);
    assert(after_replies(start, run.take(0)) == start);
    lemma_one_more_reply(start, run, 0);
    lemma_one_more_reply(start, run, 1);
    lemma_one_more_reply(start, run, 2);
    lemma_one_more_reply(start, run, 3);
    lemma_one_more_reply(start, run, 4);
    lemma_one_more_reply(start, run, 5);
    lemma_one_more_reply(start, run, 6);
    lemma_one_more_reply(start, run, 7);
    lemma_one_more_reply(start, run, 8);
    assert(run.take(9) =~= run);
}

/// Feeding one reply more is one more step.
pub proof fn lemma_one_more_reply(request: Request, replies: Seq<OsReply>, n: int)
    requires
        0 <= n < replies.len(),
    ensures
        after_replies(request, replies.take(n + 1)) == after_reply(
            after_replies(request, replies.take(n)),
            replies[n],
        ),
{
    assert(replies.take(n + 1).drop_last() =~= replies.take(n));
}

/// A finished request stays finished: later replies change nothing.
pub proof fn lemma_finished_is_final(request: Request, replies: Seq<OsReply>)
    requires
        request.phase is Finished,
    ensures
        after_replies(request, replies) == request,
    decreases replies.len(),
{
    if replies.len() > 0 {
        lemma_finished_is_final(request, replies.drop_last());
    }
}

/// The states in which the game's window is known.
pub open spec fn target_known(request: Request) -> bool {
    match request.phase {
        RequestPhase::ReadFocus | RequestPhase::Locate | RequestPhase::Finished(_) => true,
        _ => request.target != 0,
    }
}

/// Whatever the replies, the machine never asks to focus, raise or type into
/// a window that was not found: from `Focus` on the target handle is not 0.
pub proof fn lemma_target_is_a_window(high_res: bool, replies: Seq<OsReply>)
    ensures
        target_known(after_replies(fresh_request(high_res), replies)),
        after_replies(fresh_request(high_res), replies).high_res == high_res,
    decreases replies.len(),
{
    if replies.len() > 0 {
        lemma_target_is_a_window(high_res, replies.drop_last());
    }
}

} // verus!
