//! The timelapse scheduler: tick arithmetic and the controlling handle.
//!
//! Time is measured in nanoseconds on a monotonic clock whose zero is the
//! moment the schedule started. Tick `k` is due at `k * interval`; every
//! target is computed from the tick index, never from the previous target,
//! so no drift accumulates. A tick whose instant has come while the work of
//! an earlier one still ran is missed, not caught up.

use std::sync::mpsc::{Receiver, Sender};
use vstd::arithmetic::div_mod::{
    lemma_fundamental_div_mod, lemma_mod_bound, lemma_mod_multiples_basic,
};
use vstd::prelude::*;
use vstd::string::StringExecFns;

use crate::error::SetupError;
use crate::screenshot::{Screenshot, ScreenshotView};

verus! {

broadcast use vstd::string::group_string_axioms;

/// Nanoseconds in a second.
pub const NANOS_PER_SECOND: u64 = 1_000_000_000;

/// A span of `seconds` whole seconds and `subsec_nanos` nanoseconds, counted
/// in nanoseconds. `None` when the count does not fit in 64 bits.
pub fn duration_nanos(seconds: u64, subsec_nanos: u32) -> (nanos: Option<u64>)
    ensures
        nanos == if seconds * NANOS_PER_SECOND + subsec_nanos <= u64::MAX {
            Some((seconds * NANOS_PER_SECOND + subsec_nanos) as u64)
        } else {
            None
        },
{
    match seconds.checked_mul(NANOS_PER_SECOND) {
        Some(whole) => whole.checked_add(subsec_nanos as u64),
        None => None,
    }
}

/// Cancellation signal for the scheduler loop.
#[derive(Debug, Clone, Copy)]
pub struct Exit;

/// What the scheduler loop is doing.
///
/// `Waiting` carries the next target in nanoseconds after the schedule's start.
#[derive(Debug, Clone, Copy, PartialEq, Eq, Structural)]
pub enum Status {
    Capturing,
    Waiting(u64),
}

/// Receiving end of a std channel. Verus sees nothing inside it.
#[verifier::external_type_specification]
#[verifier::external_body]
#[verifier::reject_recursive_types(T)]
pub struct ExReceiver<T>(Receiver<T>);

/// Sending end of a std channel. Verus sees nothing inside it.
#[verifier::external_type_specification]
#[verifier::external_body]
#[verifier::reject_recursive_types(T)]
pub struct ExSender<T>(Sender<T>);

/// Calls `Receiver::try_iter` and collects what it yields: the messages that
/// are queued right now, oldest first, without blocking. What they are depends
/// on the sending thread, so nothing is claimed of the result.
#[verifier::external_body]
fn pending_statuses(rx: &Receiver<Status>) -> (pending: Vec<Status>) {
    rx.try_iter().collect()
}

/// Calls `Sender::send` with the cancellation signal and reports whether the
/// channel took it. `send` fails only when the receiver is gone; it never
/// blocks and never panics. Whether the receiver is gone depends on the other
/// thread, so nothing is claimed of the result.
#[verifier::external_body]
fn send_exit(tx: &Sender<Exit>) -> (delivered: bool) {
    tx.send(Exit).is_ok()
}

/// The status a handle shows once `pending` has arrived on top of `current`:
/// the newest message wins, and with no message the status stays.
pub open spec fn latest(current: Status, pending: Seq<Status>) -> Status {
    if pending.len() == 0 {
        current
    } else {
        pending.last()
    }
}

/// Coalesces a batch of status messages, oldest first, into the one to show.
pub fn latest_status(current: Status, pending: &Vec<Status>) -> (status: Status)
    ensures
        status == latest(current, pending@),
{
    let n: usize = pending.len();
    if n == 0 {
        current
    } else {
        pending[n - 1]
    }
}

/// Coalescing a batch in two parts gives the same status as coalescing it at
/// once: polling more often never changes what is shown in the end.
pub proof fn lemma_latest_splits(current: Status, first: Seq<Status>, second: Seq<Status>)
    ensures
        latest(latest(current, first), second) == latest(current, first + second),
{
    if second.len() > 0 {
        assert((first + second).last() == second.last());
    } else {
        assert(first + second =~= first);
    }
}

/// The controlling side of a running timelapse.
#[derive(Debug)]
pub struct TimelapseControl {
    pub exit_tx: Sender<Exit>,
    pub status_rx: Receiver<Status>,
    pub status: Status,
}

impl TimelapseControl {
    /// A handle for a loop that was just started: it reads the loop's status
    /// from `status_rx`, cancels it through `exit_tx`, and shows `Capturing`
    /// until told otherwise.
    pub fn new(exit_tx: Sender<Exit>, status_rx: Receiver<Status>) -> (control: Self)
        ensures
            control.status == Status::Capturing,
            control.exit_tx == exit_tx,
            control.status_rx == status_rx,
    {
        TimelapseControl { exit_tx, status_rx, status: Status::Capturing }
    }

    /// Replaces the shown status by the newest of `pending`, if there is one.
    pub fn absorb(&mut self, pending: &Vec<Status>)
        ensures
            final(self).status == latest(old(self).status, pending@),
            final(self).exit_tx == old(self).exit_tx,
            final(self).status_rx == old(self).status_rx,
    {
        self.status = latest_status(self.status, pending);
    }

    /// Drains every status message that is queued, without blocking, and keeps
    /// only the most recent. Which messages are queued is up to the loop.
    pub fn update_status(&mut self)
        ensures
            final(self).exit_tx == old(self).exit_tx,
            final(self).status_rx == old(self).status_rx,
    {
        let pending = pending_statuses(&self.status_rx);
        self.absorb(&pending);
    }

    /// Asks the loop to stop and does not wait for it. Returns whether the
    /// signal was handed over; `false` means the loop has already exited,
    /// which is harmless.
    pub fn stop(&self) -> (delivered: bool) {
        send_exit(&self.exit_tx)
    }
}

/// Whether the work of tick `index` ended after the next tick was due.
pub open spec fn overran(interval: int, index: int, now: int) -> bool {
    now > (index + 1) * interval
}

/// The index of the tick to wait for, when the tick `index` has just been
/// worked off and the clock shows `now`. Work that ends by the time the next
/// tick is due waits for that tick. After an overrun the ticks whose
/// instants have come are skipped, so that the wait is for the first tick
/// that still lies ahead.
pub open spec fn next_index(interval: int, index: int, now: int) -> int {
    if overran(interval, index, now) {
        now / interval + 1
    } else {
        index + 1
    }
}

/// The instant of that tick.
pub open spec fn next_target(interval: int, index: int, now: int) -> int {
    next_index(interval, index, now) * interval
}

/// What the loop does at the top of a tick.
#[derive(Debug, Clone, Copy, PartialEq, Eq, Structural)]
pub enum TickAction {
    /// A cancellation signal is pending: leave the loop.
    Stop,
    /// Publish `Capturing` and take a screenshot.
    Capture,
}

/// The action at the top of a tick, given whether a cancellation is pending.
pub open spec fn tick_action(exit_pending: bool) -> TickAction {
    if exit_pending {
        TickAction::Stop
    } else {
        TickAction::Capture
    }
}

/// How many captures a loop starts, given for the top of each tick in turn
/// whether a cancellation was pending there: one for every tick before the
/// first that finds one.
pub open spec fn captures_started(pending: Seq<bool>) -> nat
    decreases pending.len(),
{
    if pending.len() == 0 || tick_action(pending[0]) == TickAction::Stop {
        0
    } else {
        1 + captures_started(pending.drop_first())
    }
}

/// Stopping is final and stopping again is harmless: once the top of a tick
/// finds a cancellation pending, no capture starts there or later, whatever
/// is signalled afterwards.
pub proof fn lemma_cancellation_ends_the_loop(pending: Seq<bool>, at: int)
    requires
        0 <= at < pending.len(),
        pending[at],
    ensures
        captures_started(pending) == captures_started(pending.take(at)),
        captures_started(pending) <= at,
    decreases at,
{
    if pending[0] {
        if at > 0 {
            assert(pending.take(at)[0] == pending[0]);
        }
    } else {
        let rest = pending.drop_first();
        assert(rest[at - 1] == pending[at]);
        lemma_cancellation_ends_the_loop(rest, at - 1);
        assert(pending.take(at)[0] == pending[0]);
        assert(pending.take(at).drop_first() =~= rest.take(at - 1));
    }
}

/// The outcome of a tick: which tick comes next and when.
#[derive(Debug, Clone, Copy, PartialEq, Eq, Structural)]
pub struct Tick {
    /// Index of the tick to wait for.
    pub index: u64,
    /// When it is due, in nanoseconds after the start.
    pub target: u64,
    /// How many ticks were skipped because their instants had passed.
    pub missed: u64,
}

impl Tick {
    /// How long to sleep when the clock shows `now`: the time left until the
    /// target, and nothing if the target has passed meanwhile.
    pub fn sleep_nanos(&self, now: u64) -> (nanos: u64)
        ensures
            nanos == if now <= self.target { self.target - now } else { 0 },
    {
        if now <= self.target {
            self.target - now
        } else {
            0
        }
    }

    /// The status the loop publishes while it sleeps towards this tick.
    pub fn status(&self) -> (status: Status)
        ensures
            status == Status::Waiting(self.target),
    {
        Status::Waiting(self.target)
    }
}

/// Scheduler state: a fixed interval and the index of the last tick worked off.
#[derive(Debug, Clone, Copy, PartialEq, Eq, Structural)]
pub struct Schedule {
    /// Nanoseconds between two ticks; never zero.
    pub interval: u64,
    /// Index of the tick whose capture ran last; tick 0 runs at the start.
    pub index: u64,
}

impl Schedule {
    /// A schedule is well formed when its interval is not zero.
    pub open spec fn wf(&self) -> bool {
        self.interval > 0
    }

    /// A schedule that fires every `interval` nanoseconds, about to work off
    /// tick 0. An interval of zero is a configuration error.
    pub fn new(interval: u64) -> (made: Result<Schedule, SetupError>)
        ensures
            made == if interval == 0 {
                Err(SetupError::ZeroInterval)
            } else {
                Ok(Schedule { interval, index: 0 })
            },
            made matches Ok(s) ==> s.wf(),
    {
        if interval == 0 {
            Err(SetupError::ZeroInterval)
        } else {
            Ok(Schedule { interval, index: 0 })
        }
    }

    /// A schedule whose interval is `seconds` whole seconds and
    /// `subsec_nanos` nanoseconds. An interval that does not fit in 64 bits
    /// of nanoseconds is a configuration error, as is one of zero.
    pub fn from_duration(seconds: u64, subsec_nanos: u32) -> (made: Result<Schedule, SetupError>)
        ensures
            made == if seconds * NANOS_PER_SECOND + subsec_nanos > u64::MAX {
                Err(SetupError::IntervalTooLong)
            } else if seconds == 0 && subsec_nanos == 0 {
                Err(SetupError::ZeroInterval)
            } else {
                Ok(
                    Schedule {
                        interval: (seconds * NANOS_PER_SECOND + subsec_nanos) as u64,
                        index: 0,
                    },
                )
            },
            made matches Ok(s) ==> s.wf(),
    {
        match duration_nanos(seconds, subsec_nanos) {
            Some(interval) => Schedule::new(interval),
            None => Err(SetupError::IntervalTooLong),
        }
    }

    /// The decision at the top of a tick: a pending cancellation ends the
    /// loop, anything else starts a capture.
    pub fn begin_tick(&self, exit_pending: bool) -> (action: TickAction)
        ensures
            action == tick_action(exit_pending),
    {
        if exit_pending {
            TickAction::Stop
        } else {
            TickAction::Capture
        }
    }

    /// Closes a tick whose work ended at `now`: picks the tick to wait for
    /// and moves the schedule to it. That is the next tick where the work
    /// ended by the time it is due, and after an overrun the first tick
    /// whose instant still lies ahead. Returns `None`, and leaves the
    /// schedule as it was, exactly when that tick's instant does not fit in
    /// 64 bits of nanoseconds.
    pub fn end_tick(&mut self, now: u64) -> (tick: Option<Tick>)
        requires
            old(self).wf(),
        ensures
            final(self).wf(),
            final(self).interval == old(self).interval,
            tick is Some <==> next_target(old(self).interval as int, old(self).index as int, now as int)
                <= u64::MAX,
            tick is None ==> *final(self) == *old(self),
            tick matches Some(t) ==> {
                &&& t.index == next_index(old(self).interval as int, old(self).index as int, now as int)
                &&& t.target == next_target(old(self).interval as int, old(self).index as int, now as int)
                &&& t.missed == t.index - (old(self).index + 1)
                &&& t.target >= now
                &&& now > (old(self).index + 1) * old(self).interval ==> t.target > now
                &&& final(self).index == t.index
            },
    {
        let interval: u128 = self.interval as u128;
        let due: u128 = self.index as u128 + 1;
        proof {
            assert(due * interval <= 0x1_0000_0000_0000_0000 * 0xffff_ffff_ffff_ffff)
                by (nonlinear_arith)
                requires
                    0 <= due <= 0x1_0000_0000_0000_0000,
                    0 <= interval <= 0xffff_ffff_ffff_ffff,
            ;
        }
        let next: u128 = if now as u128 > due * interval {
            now as u128 / interval + 1
        } else {
            due
        };
        proof {
            lemma_next_index_lies_ahead(interval as int, self.index as int, now as int);
            assert(now as int / interval as int <= now) by (nonlinear_arith)
                requires
                    interval >= 1,
                    now >= 0,
            ;
            assert(next * interval <= 0x1_0000_0000_0000_0000 * 0xffff_ffff_ffff_ffff)
                by (nonlinear_arith)
                requires
                    0 <= next <= 0x1_0000_0000_0000_0000,
                    0 <= interval <= 0xffff_ffff_ffff_ffff,
            ;
            assert(next * interval >= next) by (nonlinear_arith)
                requires
                    interval >= 1,
                    next >= 0,
            ;
        }
        let target: u128 = next * interval;
        if target > u64::MAX as u128 {
            None
        } else {
            self.index = next as u64;
            Some(Tick { index: next as u64, target: target as u64, missed: (next - due) as u64 })
        }
    }
}

/// The tick to wait for comes after the one worked off and is never in
/// the past; after an overrun it is neither the next tick nor the present
/// instant, but strictly ahead.
pub proof fn lemma_next_index_lies_ahead(interval: int, index: int, now: int)
    requires
        interval > 0,
        index >= 0,
        now >= 0,
    ensures
        next_index(interval, index, now) > index,
        next_target(interval, index, now) >= now,
        overran(interval, index, now) ==> next_target(interval, index, now) > now,
        overran(interval, index, now) ==> next_index(interval, index, now) > index + 1,
{
    if overran(interval, index, now) {
        let q = now / interval;
        lemma_fundamental_div_mod(now, interval);
        lemma_mod_bound(now, interval);
        assert(interval * q == q * interval) by (nonlinear_arith);
        assert((q + 1) * interval == q * interval + interval) by (nonlinear_arith);
        if q <= index {
            assert(q * interval + interval <= (index + 1) * interval) by (nonlinear_arith)
                requires
                    q <= index,
                    interval > 0,
            ;
        }
    }
}

/// The tick that `end_tick` picks is the first that will do. Where the work
/// ended on time that is the very next tick. After an overrun it is the
/// first tick whose instant is later than `now`: none before it is.
pub proof fn lemma_next_index_is_least(interval: int, index: int, now: int, k: int)
    requires
        interval > 0,
        index >= 0,
        now >= 0,
    ensures
        !overran(interval, index, now) ==> next_index(interval, index, now) == index + 1,
        overran(interval, index, now) && k * interval > now ==> next_index(interval, index, now)
            <= k,
{
    if overran(interval, index, now) && k * interval > now {
        let q = now / interval;
        lemma_fundamental_div_mod(now, interval);
        lemma_mod_bound(now, interval);
        assert(interval * q == q * interval) by (nonlinear_arith);
        if k <= q {
            assert(k * interval <= q * interval) by (nonlinear_arith)
                requires
                    k <= q,
                    interval > 0,
            ;
        }
    }
}

/// Without an overrun the schedule does not skip: when the work of tick
/// `index` ends no later than the next tick is due, that tick is the one
/// waited for.
pub proof fn lemma_on_time_tick(interval: int, index: int, now: int)
    requires
        interval > 0,
        index >= 0,
        0 <= now <= (index + 1) * interval,
    ensures
        next_index(interval, index, now) == index + 1,
        next_target(interval, index, now) == (index + 1) * interval,
{
}

/// The tick index after a run of ticks whose work ended at `nows`, in order,
/// starting from tick 0.
pub open spec fn index_after(interval: int, nows: Seq<int>) -> int
    decreases nows.len(),
{
    if nows.len() == 0 {
        0
    } else {
        next_index(interval, index_after(interval, nows.drop_last()), nows.last())
    }
}

/// No drift: in a run without overruns, where the work of every tick `i` ends
/// by `(i + 1) * interval`, the `n`th wait targets exactly `n * interval`.
pub proof fn lemma_no_drift(interval: int, nows: Seq<int>)
    requires
        interval > 0,
        forall|i: int| 0 <= i < nows.len() ==> 0 <= #[trigger] nows[i] <= (i + 1) * interval,
    ensures
        index_after(interval, nows) == nows.len(),
        nows.len() > 0 ==> next_target(
            interval,
            index_after(interval, nows.drop_last()),
            nows.last(),
        ) == nows.len() * interval,
    decreases nows.len(),
{
    if nows.len() > 0 {
        let before = nows.drop_last();
        assert forall|i: int| 0 <= i < before.len() implies 0 <= #[trigger] before[i] <= (i + 1)
            * interval by {
            assert(before[i] == nows[i]);
        }
        lemma_no_drift(interval, before);
        lemma_on_time_tick(interval, before.len() as int, nows.last());
    }
}

/// Recovery after an overrun: however late the work of a tick ends, the next
/// target is a whole multiple of the interval and lies strictly in the
/// future, and at least one tick is skipped.
pub proof fn lemma_missed_tick_recovery(interval: int, index: int, now: int)
    requires
        interval > 0,
        index >= 0,
        now > (index + 1) * interval,
    ensures
        next_target(interval, index, now) % interval == 0,
        next_target(interval, index, now) > now,
        next_index(interval, index, now) > index + 1,
{
    lemma_next_index_lies_ahead(interval, index, now);
    lemma_mod_multiples_basic(next_index(interval, index, now), interval);
}

/// How the date and the time of day in a stored file's place are written,
/// as `strftime` patterns: year, month and day, and hour, minute and second.
pub fn date_pattern() -> (pattern: &'static str)
    ensures
        pattern@ == "%Y-%m-%d"@,
{
    "%Y-%m-%d"
}

pub fn time_pattern() -> (pattern: &'static str)
    ensures
        pattern@ == "%H-%M-%S"@,
{
    "%H-%M-%S"
}

/// Name of the folder that collects the screenshots of one day and place.
pub open spec fn dated_folder(date: Seq<char>, location: Seq<char>) -> Seq<char> {
    date + " "@ + location
}

/// Name of a stored screenshot taken at `time`.
pub open spec fn stored_name(time: Seq<char>) -> Seq<char> {
    time + ".jpg"@
}

/// What to do with a screenshot that is to be kept in the timelapse folder:
/// re-encode `source` as `<root>/<folder>/<file_name>`, and afterwards
/// delete `source` if `remove_original` says so.
#[derive(Debug, Clone, PartialEq, Eq)]
pub struct StorePlan {
    pub source: String,
    pub folder: String,
    pub file_name: String,
    pub remove_original: bool,
}

pub struct StorePlanView {
    pub source: Seq<char>,
    pub folder: Seq<char>,
    pub file_name: Seq<char>,
    pub remove_original: bool,
}

impl View for StorePlan {
    type V = StorePlanView;

    open spec fn view(&self) -> StorePlanView {
        StorePlanView {
            source: self.source@,
            folder: self.folder@,
            file_name: self.file_name@,
            remove_original: self.remove_original,
        }
    }
}

/// The plan for a screenshot taken on `date` at `time`.
pub open spec fn store_plan(
    screenshot: ScreenshotView,
    remove_original: bool,
    date: Seq<char>,
    time: Seq<char>,
) -> StorePlanView {
    StorePlanView {
        source: screenshot.path,
        folder: dated_folder(date, screenshot.location),
        file_name: stored_name(time),
        remove_original,
    }
}

/// Plans the storing of a screenshot. `date` and `time` are the local date
/// and time of day, written after `date_pattern` and `time_pattern`.
pub fn store_screenshot(
    screenshot: Screenshot,
    remove_original: bool,
    date: &str,
    time: &str,
) -> (plan: StorePlan)
    ensures
        plan@ == store_plan(screenshot@, remove_original, date@, time@),
{
    let mut folder = String::from_str(date);
    folder.append(" ");
    folder.append(screenshot.location.as_str());
    let mut file_name = String::from_str(time);
    file_name.append(".jpg");
    StorePlan { source: screenshot.path, folder, file_name, remove_original }
}

/// What becomes of a screenshot once it is taken.
#[derive(Debug, Clone, PartialEq, Eq)]
pub enum Delivery {
    /// It stays where the game saved it; this is its path.
    Keep(String),
    /// It is moved into the timelapse folder.
    Store(StorePlan),
}

pub enum DeliveryView {
    Keep(Seq<char>),
    Store(StorePlanView),
}

impl View for Delivery {
    type V = DeliveryView;

    open spec fn view(&self) -> DeliveryView {
        match self {
            Delivery::Keep(path) => DeliveryView::Keep(path@),
            Delivery::Store(plan) => DeliveryView::Store(plan@),
        }
    }
}

/// Decides what becomes of a screenshot: with `organize` it is stored after
/// `store_plan`, without it is left in place.
pub fn deliver(
    screenshot: Screenshot,
    organize: bool,
    remove_original: bool,
    date: &str,
    time: &str,
) -> (delivery: Delivery)
    ensures
        delivery@ == if organize {
            DeliveryView::Store(store_plan(screenshot@, remove_original, date@, time@))
        } else {
            DeliveryView::Keep(screenshot@.path)
        },
{
    if organize {
        Delivery::Store(store_screenshot(screenshot, remove_original, date, time))
    } else {
        Delivery::Keep(screenshot.path)
    }
}

} // verus!
