//! The shipper's decisions: the small handoff queue between buffer and
//! worker, the retry schedule for connecting, and what the worker does on
//! each event. Connecting, streaming and sleeping are the caller's part.
//!
//! Factors are given in thousandths: a backoff factor of two is 2000, a
//! jitter of a tenth is 100.

use crate::buffer::{bump, Batch, BatchModel};
use crate::record::NormalizedLog;
use crate::trusted::random_between;
use crate::wire::{stream_duplicates, stream_records, wire_forms, WireLog};
use std::collections::VecDeque;
use vstd::prelude::*;

verus! {

/// What can go wrong when shipping.
#[derive(Clone, Debug, PartialEq, Eq)]
pub enum ShipperError {
    QueueFull,
    ConnectionFailed(String),
    StreamError(String),
}

impl ShipperError {
    /// The error in words.
    pub fn message(&self) -> (text: String)
        ensures
            text@ == match self {
                ShipperError::QueueFull => "Queue is full"@,
                ShipperError::ConnectionFailed(why) => "connection failed: "@ + why@,
                ShipperError::StreamError(why) => "stream error: "@ + why@,
            },
    {
        match self {
            ShipperError::QueueFull => "Queue is full".to_owned(),
            ShipperError::ConnectionFailed(why) => {
                let mut text = "connection failed: ".to_owned();
                text.append(why.as_str());
                text
            },
            ShipperError::StreamError(why) => {
                let mut text = "stream error: ".to_owned();
                text.append(why.as_str());
                text
            },
        }
    }
}

/// A batch that the handoff queue did not take, with the reason.
#[derive(Debug, PartialEq, Eq)]
pub struct Rejected {
    pub error: ShipperError,
    pub batch: Batch,
}

/// How reconnecting is paced.
#[derive(Clone, Copy, Debug, PartialEq, Eq, Structural)]
pub struct RetryPolicy {
    pub initial_retry_delay_ms: u64,
    pub max_retry_delay_ms: u64,
    /// Factor by which the delay grows after each failure, in thousandths.
    pub backoff_permille: u64,
    /// Half-width of the random spread around the delay, in thousandths.
    pub jitter_permille: u64,
    /// After this many failed attempts connecting is given up; `None` means
    /// never.
    pub max_reconnect_attempts: Option<u64>,
}

/// Where a run of connection attempts stands.
#[derive(Clone, Copy, Debug, PartialEq, Eq, Structural)]
pub struct RetryState {
    /// Attempts that have failed so far.
    pub attempts: u64,
    /// Delay before jitter that the next failure sleeps.
    pub delay_ms: u64,
}

/// What follows a failed connection attempt.
#[derive(Clone, Copy, Debug, PartialEq, Eq, Structural)]
pub enum RetryDecision {
    /// The attempts are used up.
    GiveUp,
    /// Sleep this many milliseconds, then try again.
    SleepThenRetry(u64),
}

/// `delay_ms` times `permille` thousandths, rounded down, and capped at the
/// largest `u64`.
pub open spec fn scaled(delay_ms: u64, permille: u64) -> u64 {
    if delay_ms * permille / 1000 > u64::MAX {
        u64::MAX
    } else {
        (delay_ms * permille / 1000) as u64
    }
}

/// Smallest jitter factor in thousandths: one minus the jitter, not below
/// zero.
pub open spec fn jitter_low(p: RetryPolicy) -> u64 {
    if p.jitter_permille >= 1000 {
        0
    } else {
        (1000 - p.jitter_permille) as u64
    }
}

/// Largest jitter factor in thousandths: one plus the jitter.
pub open spec fn jitter_high(p: RetryPolicy) -> u64 {
    if p.jitter_permille > u64::MAX - 1000 {
        u64::MAX
    } else {
        (1000 + p.jitter_permille) as u64
    }
}

/// The delay after one more failure: grown by the backoff factor and capped
/// at the largest delay.
pub open spec fn next_delay(p: RetryPolicy, delay_ms: u64) -> u64 {
    if scaled(delay_ms, p.backoff_permille) <= p.max_retry_delay_ms {
        scaled(delay_ms, p.backoff_permille)
    } else {
        p.max_retry_delay_ms
    }
}

/// Whether connecting is given up once `failed` attempts have failed.
pub open spec fn gives_up(p: RetryPolicy, failed: u64) -> bool {
    match p.max_reconnect_attempts {
        Some(limit) => failed >= limit,
        None => false,
    }
}

/// The decision after a failure, for a jitter factor that was drawn.
pub open spec fn decision_of(p: RetryPolicy, s: RetryState, jitter: u64) -> RetryDecision {
    if gives_up(p, bump(s.attempts)) {
        RetryDecision::GiveUp
    } else {
        RetryDecision::SleepThenRetry(scaled(s.delay_ms, jitter))
    }
}

/// The state after a failure.
pub open spec fn state_after_failure(p: RetryPolicy, s: RetryState) -> RetryState {
    if gives_up(p, bump(s.attempts)) {
        RetryState { attempts: bump(s.attempts), delay_ms: s.delay_ms }
    } else {
        RetryState { attempts: bump(s.attempts), delay_ms: next_delay(p, s.delay_ms) }
    }
}

fn scale(delay_ms: u64, permille: u64) -> (r: u64)
    ensures
        r == scaled(delay_ms, permille),
{
    assert(delay_ms * permille <= u64::MAX * u64::MAX) by (nonlinear_arith)
        requires
            0 <= delay_ms <= u64::MAX,
            0 <= permille <= u64::MAX,
    ;
    let product: u128 = (delay_ms as u128) * (permille as u128);
    let v: u128 = product / 1000;
    if v > u64::MAX as u128 {
        u64::MAX
    } else {
        v as u64
    }
}

impl RetryPolicy {
    /// Smallest jitter factor in thousandths.
    pub fn lowest_jitter(&self) -> (r: u64)
        ensures
            r == jitter_low(*self),
            r <= 1000,
    {
        if self.jitter_permille >= 1000 {
            0
        } else {
            1000 - self.jitter_permille
        }
    }

    /// Largest jitter factor in thousandths.
    pub fn highest_jitter(&self) -> (r: u64)
        ensures
            r == jitter_high(*self),
            r >= 1000,
    {
        if self.jitter_permille > u64::MAX - 1000 {
            u64::MAX
        } else {
            1000 + self.jitter_permille
        }
    }
}

impl RetryState {
    /// The state before the first attempt: nothing has failed, and the first
    /// failure sleeps the initial delay.
    pub fn new(policy: &RetryPolicy) -> (s: RetryState)
        ensures
            s == (RetryState { attempts: 0, delay_ms: policy.initial_retry_delay_ms }),
    {
        RetryState { attempts: 0, delay_ms: policy.initial_retry_delay_ms }
    }

    /// Takes note of a failed attempt, given the jitter factor that was
    /// drawn for it, in thousandths. Once the attempts are used up the answer
    /// is to give up; else it is to sleep the current delay times the jitter
    /// factor, and the delay grows by the backoff factor up to its cap.
    pub fn on_failure(&mut self, policy: &RetryPolicy, jitter: u64) -> (d: RetryDecision)
        ensures
            d == decision_of(*policy, *old(self), jitter),
            *final(self) == state_after_failure(*policy, *old(self)),
    {
        let failed = if self.attempts < u64::MAX {
            self.attempts + 1
        } else {
            self.attempts
        };
        self.attempts = failed;
        let stop = match policy.max_reconnect_attempts {
            Some(limit) => failed >= limit,
            None => false,
        };
        if stop {
            return RetryDecision::GiveUp;
        }
        let sleep = scale(self.delay_ms, jitter);
        let grown = scale(self.delay_ms, policy.backoff_permille);
        self.delay_ms = if grown <= policy.max_retry_delay_ms {
            grown
        } else {
            policy.max_retry_delay_ms
        };
        RetryDecision::SleepThenRetry(sleep)
    }

    /// Takes note of a failed attempt and draws the jitter factor itself,
    /// evenly between one minus the jitter and one plus the jitter. The sleep
    /// lies between the delay times the smallest factor and the delay times
    /// the largest.
    pub fn connect_with_retry(&mut self, policy: &RetryPolicy) -> (d: RetryDecision)
        ensures
            *final(self) == state_after_failure(*policy, *old(self)),
            gives_up(*policy, bump(old(self).attempts)) ==> d == RetryDecision::GiveUp,
            !gives_up(*policy, bump(old(self).attempts)) ==> exists|jitter: u64|
                jitter_low(*policy) <= jitter <= jitter_high(*policy) && d
                    == #[trigger] decision_of(*policy, *old(self), jitter),
    {
        let jitter = random_between(policy.lowest_jitter(), policy.highest_jitter());
        self.on_failure(policy, jitter)
    }
}

/// Scaling grows with the factor: a larger factor never gives a shorter
/// delay.
pub proof fn lemma_scaled_is_monotonic(delay_ms: u64, a: u64, b: u64)
    requires
        a <= b,
    ensures
        scaled(delay_ms, a) <= scaled(delay_ms, b),
{
    assert(delay_ms * a <= delay_ms * b) by (nonlinear_arith)
        requires
            0 <= delay_ms,
            0 <= a <= b,
    ;
}

/// Without jitter a failure sleeps exactly the current delay.
pub proof fn lemma_no_jitter_sleeps_the_delay(p: RetryPolicy, s: RetryState)
    requires
        p.jitter_permille == 0,
        !gives_up(p, bump(s.attempts)),
    ensures
        jitter_low(p) == 1000,
        jitter_high(p) == 1000,
        decision_of(p, s, 1000) == RetryDecision::SleepThenRetry(s.delay_ms),
{
    assert(s.delay_ms * 1000 / 1000 == s.delay_ms) by (nonlinear_arith);
}

/// The delay never passes its cap once it has been grown.
pub proof fn lemma_delay_stays_capped(p: RetryPolicy, delay_ms: u64)
    ensures
        next_delay(p, delay_ms) <= p.max_retry_delay_ms,
{
}

/// Where the worker stands.
#[derive(Clone, Copy, Debug, PartialEq, Eq, Structural)]
pub enum WorkerState {
    /// No connection; one is being made.
    Connecting,
    /// Connected; the stream is being opened.
    Opening,
    /// The stream is open and batches are forwarded.
    Streaming,
    /// Shutdown: the last records are out and the final responses are awaited.
    Closing,
    /// The worker has exited.
    Stopped,
}

/// What the worker is told.
#[derive(Clone, Copy, Debug, PartialEq, Eq, Structural)]
pub enum WorkerEvent {
    ShutdownRequested,
    Connected,
    ConnectFailed,
    StreamOpened,
    StreamOpenFailed,
    /// A batch waits in the handoff queue.
    BatchReady,
    /// Every record of the forwarded batch was written to the request stream.
    BatchWritten,
    /// Writing to the request stream failed after this many records of the
    /// forwarded batch were written.
    SendFailed(usize),
    /// No sender is left for the handoff queue.
    HandoffClosed,
    ResponseReceived,
    ResponseFailed,
    ResponseStreamEnded,
    /// The final responses have come, or their deadline has passed.
    FinalResponsesDone,
}

/// The kinds of thing that the worker does next.
#[derive(Clone, Copy, Debug, PartialEq, Eq, Structural)]
pub enum ActionKind {
    Connect,
    OpenStream,
    SleepThenConnect(u64),
    Forward,
    DrainAndClose,
    Wait,
    Exit,
}

/// What the worker does next.
#[derive(Debug, PartialEq, Eq)]
pub enum WorkerAction {
    /// Connect to the embedder, with retries.
    Connect,
    /// Open the streaming call on the connection.
    OpenStream,
    /// Sleep this many milliseconds, then connect.
    SleepThenConnect(u64),
    /// Write these records to the request stream, in this order, and report
    /// `BatchWritten`, or `SendFailed` with the number of records written.
    /// The batch stays at the head of the handoff queue until then.
    Forward(Vec<WireLog>),
    /// Write these records to the request stream, in this order, as far as
    /// the stream takes them; then close the request stream and await the
    /// final responses.
    DrainAndClose(Vec<WireLog>),
    /// Nothing to do until the next event.
    Wait,
    /// Leave the worker loop.
    Exit,
}

impl WorkerAction {
    /// The kind of the action.
    pub open spec fn kind(&self) -> ActionKind {
        match self {
            WorkerAction::Connect => ActionKind::Connect,
            WorkerAction::OpenStream => ActionKind::OpenStream,
            WorkerAction::SleepThenConnect(ms) => ActionKind::SleepThenConnect(*ms),
            WorkerAction::Forward(_) => ActionKind::Forward,
            WorkerAction::DrainAndClose(_) => ActionKind::DrainAndClose,
            WorkerAction::Wait => ActionKind::Wait,
            WorkerAction::Exit => ActionKind::Exit,
        }
    }

    /// The records that the action writes to the request stream.
    pub open spec fn records(&self) -> Seq<WireLog> {
        match self {
            WorkerAction::Forward(r) => r@,
            WorkerAction::DrainAndClose(r) => r@,
            _ => Seq::empty(),
        }
    }
}

/// How long the worker sleeps after the stream could not be opened.
pub const STREAM_RETRY_SLEEP_MS: u64 = 5000;

/// The batches of a handoff queue as mathematical values.
pub open spec fn batches(handoff: Seq<Batch>) -> Seq<BatchModel> {
    handoff.map_values(|b: Batch| b@)
}

/// The records of the batches that wait in the handoff queue, batch after
/// batch, each batch in its own order.
pub open spec fn pending_records(handoff: Seq<BatchModel>) -> Seq<NormalizedLog>
    decreases handoff.len(),
{
    if handoff.len() == 0 {
        Seq::empty()
    } else {
        handoff[0].records + pending_records(handoff.drop_first())
    }
}

/// The handoff queue after the first `written` records of its head batch
/// were written: the unsent records of the batch stay at the head, under the
/// id of the batch; a batch of which nothing is left is gone.
pub open spec fn without_written(handoff: Seq<BatchModel>, written: usize) -> Seq<BatchModel> {
    if handoff.len() == 0 {
        handoff
    } else if written >= handoff[0].records.len() {
        handoff.drop_first()
    } else {
        seq![
            BatchModel {
                id: handoff[0].id,
                records: handoff[0].records.subrange(
                    written as int,
                    handoff[0].records.len() as int,
                ),
            },
        ] + handoff.drop_first()
    }
}

/// The shipper as a mathematical value.
pub struct ShipperModel {
    pub handoff: Seq<BatchModel>,
    pub capacity: usize,
    pub state: WorkerState,
    /// Whether the head batch has been forwarded and its writing is not
    /// reported yet.
    pub in_flight: bool,
}

/// What an event leads to: the shipper afterwards, the kind of action, and
/// the records that go out.
pub struct Plan {
    pub next: ShipperModel,
    pub action: ActionKind,
    pub sent: Seq<WireLog>,
}

impl ShipperModel {
    /// Whether the handoff queue takes a batch: the worker has not begun to
    /// shut down and a slot is free.
    pub open spec fn takes_batch(self) -> bool {
        self.state != WorkerState::Closing && self.state != WorkerState::Stopped
            && self.handoff.len() < self.capacity
    }

    /// The batches that have not been handed out for writing: all but the
    /// one in flight.
    pub open spec fn not_handed_out(self) -> Seq<BatchModel> {
        if self.in_flight && self.handoff.len() > 0 {
            self.handoff.drop_first()
        } else {
            self.handoff
        }
    }

    /// Nothing changes and nothing is done.
    pub open spec fn stay(self) -> Plan {
        Plan { next: self, action: ActionKind::Wait, sent: Seq::empty() }
    }

    /// The worker exits.
    pub open spec fn exit(self) -> Plan {
        Plan {
            next: ShipperModel { state: WorkerState::Stopped, in_flight: false, ..self },
            action: ActionKind::Exit,
            sent: Seq::empty(),
        }
    }

    /// The stream is torn down and a connection is made anew, with the given
    /// handoff queue.
    pub open spec fn reconnect(self, handoff: Seq<BatchModel>) -> Plan {
        Plan {
            next: ShipperModel {
                state: WorkerState::Connecting,
                in_flight: false,
                handoff,
                ..self
            },
            action: ActionKind::Connect,
            sent: Seq::empty(),
        }
    }

    /// The head batch is forwarded, if there is one and none is in flight.
    pub open spec fn forward(self) -> Plan {
        if self.handoff.len() > 0 && !self.in_flight {
            Plan {
                next: ShipperModel { in_flight: true, ..self },
                action: ActionKind::Forward,
                sent: wire_forms(self.handoff[0].records),
            }
        } else {
            self.stay()
        }
    }

    /// The worker's transition table.
    ///
    /// While connecting or opening, a shutdown ends the worker at once. Once
    /// the stream is open, the batch at the head of the queue is forwarded
    /// and stays in the queue until it is reported written; then it leaves
    /// and the next one is forwarded. A failed send keeps the unsent records
    /// of the batch at the head of the queue, and any failure of sending or
    /// receiving tears the stream down and connects anew. A shutdown sends
    /// everything that has not been handed out yet and closes. A stopped
    /// worker stays stopped.
    pub open spec fn plan(self, event: WorkerEvent) -> Plan {
        match self.state {
            WorkerState::Connecting => match event {
                WorkerEvent::ShutdownRequested => self.exit(),
                WorkerEvent::Connected => Plan {
                    next: ShipperModel { state: WorkerState::Opening, ..self },
                    action: ActionKind::OpenStream,
                    sent: Seq::empty(),
                },
                WorkerEvent::ConnectFailed => self.reconnect(self.handoff),
                _ => self.stay(),
            },
            WorkerState::Opening => match event {
                WorkerEvent::ShutdownRequested => self.exit(),
                WorkerEvent::StreamOpened => (ShipperModel {
                    state: WorkerState::Streaming,
                    in_flight: false,
                    ..self
                }).forward(),
                WorkerEvent::StreamOpenFailed => Plan {
                    next: ShipperModel { state: WorkerState::Connecting, ..self },
                    action: ActionKind::SleepThenConnect(STREAM_RETRY_SLEEP_MS),
                    sent: Seq::empty(),
                },
                _ => self.stay(),
            },
            WorkerState::Streaming => match event {
                WorkerEvent::ShutdownRequested => Plan {
                    next: ShipperModel {
                        state: WorkerState::Closing,
                        in_flight: false,
                        handoff: Seq::empty(),
                        ..self
                    },
                    action: ActionKind::DrainAndClose,
                    sent: wire_forms(pending_records(self.not_handed_out())),
                },
                WorkerEvent::BatchReady => self.forward(),
                WorkerEvent::BatchWritten => if self.in_flight && self.handoff.len() > 0 {
                    (ShipperModel { handoff: self.handoff.drop_first(), in_flight: false, ..self })
                        .forward()
                } else {
                    self.stay()
                },
                WorkerEvent::SendFailed(written) => if self.in_flight {
                    self.reconnect(without_written(self.handoff, written))
                } else {
                    self.reconnect(self.handoff)
                },
                WorkerEvent::HandoffClosed => self.exit(),
                WorkerEvent::ResponseFailed => self.reconnect(self.handoff),
                WorkerEvent::ResponseStreamEnded => self.reconnect(self.handoff),
                _ => self.stay(),
            },
            WorkerState::Closing => match event {
                WorkerEvent::FinalResponsesDone => self.exit(),
                WorkerEvent::ResponseFailed => self.exit(),
                WorkerEvent::ResponseStreamEnded => self.exit(),
                WorkerEvent::SendFailed(_) => self.exit(),
                WorkerEvent::HandoffClosed => self.exit(),
                _ => self.stay(),
            },
            WorkerState::Stopped => self.exit(),
        }
    }
}

/// A response of the embedder. The worker keeps reading responses, since the
/// health of the stream depends on it, but does not look into them.
#[derive(Clone, Debug, PartialEq, Eq)]
pub struct EmbedResponse {
    pub payload: Vec<u8>,
}

/// Takes a response of the embedder. Responses are acknowledgements and need
/// no action.
pub fn handle_embed_response(resp: EmbedResponse) {
    let _acknowledged = resp;
}

/// The shipper: the handoff queue and the state of the worker that empties
/// it.
#[derive(Debug)]
pub struct Shipper {
    pub handoff: VecDeque<Batch>,
    pub capacity: usize,
    pub state: WorkerState,
    pub in_flight: bool,
}

impl View for Shipper {
    type V = ShipperModel;

    open spec fn view(&self) -> ShipperModel {
        ShipperModel {
            handoff: batches(self.handoff@),
            capacity: self.capacity,
            state: self.state,
            in_flight: self.in_flight,
        }
    }
}

impl Shipper {
    /// A shipper with an empty handoff queue of the given number of slots,
    /// about to connect.
    pub fn new(capacity: usize) -> (s: Shipper)
        ensures
            s@ == (ShipperModel {
                handoff: Seq::empty(),
                capacity,
                state: WorkerState::Connecting,
                in_flight: false,
            }),
    {
        let s = Shipper {
            handoff: VecDeque::new(),
            capacity,
            state: WorkerState::Connecting,
            in_flight: false,
        };
        assert(batches(s.handoff@) =~= Seq::<BatchModel>::empty());
        s
    }

    /// Hands a batch to the worker. The batch joins the end of the handoff
    /// queue if a slot is free and the worker has not begun to shut down;
    /// else it comes back with `QueueFull` and nothing changes.
    pub fn send(&mut self, batch: Batch) -> (r: Result<(), Rejected>)
        ensures
            match r {
                Ok(_) => {
                    &&& old(self)@.takes_batch()
                    &&& final(self)@ == (ShipperModel {
                        handoff: old(self)@.handoff.push(batch@),
                        ..old(self)@
                    })
                },
                Err(rejected) => {
                    &&& !old(self)@.takes_batch()
                    &&& rejected == (Rejected { error: ShipperError::QueueFull, batch })
                    &&& final(self)@ == old(self)@
                },
            },
    {
        let open = match self.state {
            WorkerState::Closing => false,
            WorkerState::Stopped => false,
            _ => true,
        };
        if open && self.handoff.len() < self.capacity {
            let ghost b = batch@;
            self.handoff.push_back(batch);
            assert(batches(self.handoff@) =~= batches(old(self).handoff@).push(b));
            Ok(())
        } else {
            Err(Rejected { error: ShipperError::QueueFull, batch })
        }
    }

    fn drain_handoff(&mut self) -> (out: Vec<WireLog>)
        ensures
            out@ == wire_forms(pending_records(old(self)@.handoff)),
            final(self)@ == (ShipperModel { handoff: Seq::empty(), ..old(self)@ }),
    {
        let mut out: Vec<WireLog> = Vec::new();
        let ghost all = pending_records(batches(self.handoff@));
        assert(out@ + wire_forms(all) =~= wire_forms(all));
        while self.handoff.len() > 0
            invariant
                out@ + wire_forms(pending_records(batches(self.handoff@))) == wire_forms(all),
                self.capacity == old(self).capacity,
                self.state == old(self).state,
                self.in_flight == old(self).in_flight,
            decreases self.handoff.len(),
        {
            let ghost before = batches(self.handoff@);
            let ghost sent = out@;
            match self.handoff.pop_front() {
                Some(batch) => {
                    let mut wire = stream_records(batch.records);
                    out.append(&mut wire);
                    proof {
                        assert(batches(self.handoff@) =~= before.drop_first());
                        let head = before[0].records;
                        let rest = pending_records(before.drop_first());
                        assert(wire_forms(head + rest) =~= wire_forms(head) + wire_forms(rest));
                        assert(out@ + wire_forms(rest) =~= sent + (wire_forms(head) + wire_forms(
                            rest,
                        )));
                    }
                },
                None => {},
            }
        }
        assert(batches(self.handoff@) =~= Seq::<BatchModel>::empty());
        assert(out@ + wire_forms(pending_records(batches(self.handoff@))) =~= out@);
        out
    }

    fn forward_head(&mut self) -> (action: WorkerAction)
        ensures
            final(self)@ == old(self)@.forward().next,
            action.kind() == old(self)@.forward().action,
            action.records() == old(self)@.forward().sent,
    {
        if self.handoff.len() > 0 && !self.in_flight {
            let out = stream_duplicates(&self.handoff[0].records);
            self.in_flight = true;
            WorkerAction::Forward(out)
        } else {
            WorkerAction::Wait
        }
    }

    fn drop_written(&mut self, written: usize)
        ensures
            final(self)@ == (ShipperModel {
                handoff: without_written(old(self)@.handoff, written),
                ..old(self)@
            }),
    {
        let ghost before = batches(self.handoff@);
        match self.handoff.pop_front() {
            Some(batch) => {
                assert(batches(self.handoff@) =~= before.drop_first());
                let mut records = batch.records;
                if written < records.len() {
                    let rest = records.split_off(written);
                    let ghost tail = batches(self.handoff@);
                    let head = Batch { id: batch.id, records: rest };
                    let ghost kept = head@;
                    self.handoff.push_front(head);
                    assert(batches(self.handoff@) =~= seq![kept] + tail);
                }
            },
            None => {
                assert(batches(self.handoff@) =~= before);
            },
        }
    }

    fn pop_head(&mut self)
        requires
            old(self).handoff@.len() > 0,
        ensures
            final(self)@ == (ShipperModel {
                handoff: old(self)@.handoff.drop_first(),
                ..old(self)@
            }),
    {
        let ghost before = batches(self.handoff@);
        let _written = self.handoff.pop_front();
        assert(batches(self.handoff@) =~= before.drop_first());
    }

    /// Tells the worker of an event and returns what it does next, following
    /// the transition table.
    pub fn poll(&mut self, event: WorkerEvent) -> (action: WorkerAction)
        ensures
            final(self)@ == old(self)@.plan(event).next,
            action.kind() == old(self)@.plan(event).action,
            action.records() == old(self)@.plan(event).sent,
    {
        match self.state {
            WorkerState::Connecting => match event {
                WorkerEvent::ShutdownRequested => {
                    self.state = WorkerState::Stopped;
                    self.in_flight = false;
                    WorkerAction::Exit
                },
                WorkerEvent::Connected => {
                    self.state = WorkerState::Opening;
                    WorkerAction::OpenStream
                },
                WorkerEvent::ConnectFailed => {
                    self.in_flight = false;
                    WorkerAction::Connect
                },
                _ => WorkerAction::Wait,
            },
            WorkerState::Opening => match event {
                WorkerEvent::ShutdownRequested => {
                    self.state = WorkerState::Stopped;
                    self.in_flight = false;
                    WorkerAction::Exit
                },
                WorkerEvent::StreamOpened => {
                    self.state = WorkerState::Streaming;
                    self.in_flight = false;
                    self.forward_head()
                },
                WorkerEvent::StreamOpenFailed => {
                    self.state = WorkerState::Connecting;
                    WorkerAction::SleepThenConnect(STREAM_RETRY_SLEEP_MS)
                },
                _ => WorkerAction::Wait,
            },
            WorkerState::Streaming => match event {
                WorkerEvent::ShutdownRequested => {
                    if self.in_flight && self.handoff.len() > 0 {
                        self.pop_head();
                    }
                    let out = self.drain_handoff();
                    self.state = WorkerState::Closing;
                    self.in_flight = false;
                    WorkerAction::DrainAndClose(out)
                },
                WorkerEvent::BatchReady => self.forward_head(),
                WorkerEvent::BatchWritten => {
                    if self.in_flight && self.handoff.len() > 0 {
                        self.pop_head();
                        self.in_flight = false;
                        self.forward_head()
                    } else {
                        WorkerAction::Wait
                    }
                },
                WorkerEvent::SendFailed(written) => {
                    if self.in_flight {
                        self.drop_written(written);
                    }
                    self.state = WorkerState::Connecting;
                    self.in_flight = false;
                    WorkerAction::Connect
                },
                WorkerEvent::HandoffClosed => {
                    self.state = WorkerState::Stopped;
                    self.in_flight = false;
                    WorkerAction::Exit
                },
                WorkerEvent::ResponseFailed => {
                    self.state = WorkerState::Connecting;
                    self.in_flight = false;
                    WorkerAction::Connect
                },
                WorkerEvent::ResponseStreamEnded => {
                    self.state = WorkerState::Connecting;
                    self.in_flight = false;
                    WorkerAction::Connect
                },
                _ => WorkerAction::Wait,
            },
            WorkerState::Closing => match event {
                WorkerEvent::FinalResponsesDone => {
                    self.state = WorkerState::Stopped;
                    self.in_flight = false;
                    WorkerAction::Exit
                },
                WorkerEvent::ResponseFailed => {
                    self.state = WorkerState::Stopped;
                    self.in_flight = false;
                    WorkerAction::Exit
                },
                WorkerEvent::ResponseStreamEnded => {
                    self.state = WorkerState::Stopped;
                    self.in_flight = false;
                    WorkerAction::Exit
                },
                WorkerEvent::SendFailed(_) => {
                    self.state = WorkerState::Stopped;
                    self.in_flight = false;
                    WorkerAction::Exit
                },
                WorkerEvent::HandoffClosed => {
                    self.state = WorkerState::Stopped;
                    self.in_flight = false;
                    WorkerAction::Exit
                },
                _ => WorkerAction::Wait,
            },
            WorkerState::Stopped => {
                self.in_flight = false;
                WorkerAction::Exit
            },
        }
    }

    /// Begins the shutdown of the worker: the same as telling it that a
    /// shutdown was requested.
    pub fn shutdown(&mut self) -> (action: WorkerAction)
        ensures
            final(self)@ == old(self)@.plan(WorkerEvent::ShutdownRequested).next,
            action.kind() == old(self)@.plan(WorkerEvent::ShutdownRequested).action,
            action.records() == old(self)@.plan(WorkerEvent::ShutdownRequested).sent,
    {
        self.poll(WorkerEvent::ShutdownRequested)
    }
}

/// What is flushed is streamed as it is: the records that a forwarded batch
/// puts on the request stream are the records of the batch in the same order,
/// one wire form per record, so none is left out and none is repeated. The
/// batch stays at the head of the queue while it is in flight, and is not
/// forwarded a second time on the same stream.
pub proof fn lemma_batch_is_streamed_in_order(m: ShipperModel, i: int)
    requires
        m.state == WorkerState::Streaming,
        !m.in_flight,
        m.handoff.len() > 0,
        0 <= i < m.handoff[0].records.len(),
    ensures
        m.plan(WorkerEvent::BatchReady).action == ActionKind::Forward,
        m.plan(WorkerEvent::BatchReady).sent.len() == m.handoff[0].records.len(),
        m.plan(WorkerEvent::BatchReady).sent[i] == crate::wire::wire_of(m.handoff[0].records[i]),
        m.plan(WorkerEvent::BatchReady).next.handoff == m.handoff,
        m.plan(WorkerEvent::BatchReady).next.plan(WorkerEvent::BatchReady).action
            == ActionKind::Wait,
{
}

/// A batch that was written leaves the queue, and only then: the report that
/// the batch in flight was written removes it from the head, and the batch
/// behind it is forwarded next.
pub proof fn lemma_written_batch_leaves(m: ShipperModel)
    requires
        m.state == WorkerState::Streaming,
        m.in_flight,
        m.handoff.len() > 0,
    ensures
        m.plan(WorkerEvent::BatchWritten).next.handoff == m.handoff.drop_first(),
        m.handoff.len() > 1 ==> m.plan(WorkerEvent::BatchWritten).sent == wire_forms(
            m.handoff[1].records,
        ),
{
}

/// A failed send loses no unsent record: after a send has failed with
/// `written` records of the batch in flight written, what waits in the queue
/// is what waited before without those written records, in the same order.
pub proof fn lemma_failed_send_keeps_unsent_records(m: ShipperModel, written: usize)
    requires
        m.state == WorkerState::Streaming,
        m.in_flight,
        m.handoff.len() > 0,
        written <= m.handoff[0].records.len(),
    ensures
        m.plan(WorkerEvent::SendFailed(written)).next.state == WorkerState::Connecting,
        m.plan(WorkerEvent::SendFailed(written)).action == ActionKind::Connect,
        pending_records(m.plan(WorkerEvent::SendFailed(written)).next.handoff) == pending_records(
            m.handoff,
        ).subrange(written as int, pending_records(m.handoff).len() as int),
{
    let head = m.handoff[0].records;
    let rest = pending_records(m.handoff.drop_first());
    let after = without_written(m.handoff, written);
    if written >= head.len() {
        assert((head + rest).subrange(written as int, (head + rest).len() as int) =~= rest);
    } else {
        assert(after.drop_first() =~= m.handoff.drop_first());
        assert(pending_records(after) == head.subrange(written as int, head.len() as int) + rest);
        assert((head + rest).subrange(written as int, (head + rest).len() as int)
            =~= head.subrange(written as int, head.len() as int) + rest);
    }
}

/// A failed stream loses no batch: where receiving fails, the stream is torn
/// down and the handoff queue stays as it was, the batch in flight still at
/// its head.
pub proof fn lemma_failure_keeps_the_queue(m: ShipperModel, event: WorkerEvent)
    requires
        m.state == WorkerState::Streaming,
        event == WorkerEvent::ResponseFailed || event == WorkerEvent::ResponseStreamEnded,
    ensures
        m.plan(event).next.handoff == m.handoff,
        m.plan(event).next.state == WorkerState::Connecting,
        !m.plan(event).next.in_flight,
        m.plan(event).action == ActionKind::Connect,
{
}

/// A shutdown while streaming sends every record that has not been handed
/// out: the records of all waiting batches go out, batch after batch, and the
/// queue is empty afterwards. The batch in flight was handed out before and
/// is not sent again.
pub proof fn lemma_shutdown_sends_what_waits(m: ShipperModel)
    requires
        m.state == WorkerState::Streaming,
    ensures
        !m.in_flight ==> m.plan(WorkerEvent::ShutdownRequested).sent == wire_forms(
            pending_records(m.handoff),
        ),
        m.in_flight && m.handoff.len() > 0 ==> m.plan(WorkerEvent::ShutdownRequested).sent
            == wire_forms(pending_records(m.handoff.drop_first())),
        m.plan(WorkerEvent::ShutdownRequested).next.handoff.len() == 0,
        m.plan(WorkerEvent::ShutdownRequested).next.state == WorkerState::Closing,
{
}

/// No record goes out twice on one stream: whatever follows the forwarding
/// of a batch on the same stream, a second notice that a batch is ready or a
/// shutdown, the records of the batch in flight are not sent again.
pub proof fn lemma_forwarded_batch_is_not_sent_again(m: ShipperModel)
    requires
        m.state == WorkerState::Streaming,
        !m.in_flight,
        m.handoff.len() > 0,
    ensures
        ({
            let forwarded = m.plan(WorkerEvent::BatchReady).next;
            &&& forwarded.plan(WorkerEvent::BatchReady).sent.len() == 0
            &&& forwarded.plan(WorkerEvent::ShutdownRequested).sent == wire_forms(
                pending_records(m.handoff.drop_first()),
            )
            &&& forwarded.plan(WorkerEvent::ResponseReceived).sent.len() == 0
        }),
{
}

/// What waits goes out when the stream opens: after a failed send and a
/// reconnect, the unsent records at the head of the queue are forwarded as
/// soon as the stream is open again, without a further notice.
pub proof fn lemma_open_stream_forwards_what_waits(m: ShipperModel)
    requires
        m.state == WorkerState::Opening,
        m.handoff.len() > 0,
    ensures
        m.plan(WorkerEvent::StreamOpened).action == ActionKind::Forward,
        m.plan(WorkerEvent::StreamOpened).sent == wire_forms(m.handoff[0].records),
        m.plan(WorkerEvent::StreamOpened).next.state == WorkerState::Streaming,
        m.plan(WorkerEvent::StreamOpened).next.in_flight,
{
}

} // verus!
