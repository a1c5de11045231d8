//! The capture session: a state machine that the thread running the capture
//! loop drives. Each method takes the outcome of the last action (a clock
//! reading, the cancellation flag, a polled frame, a write result) and returns
//! the next action to perform.

use vstd::prelude::*;
use crate::frame::{encode, png_rgb8_of, EncodedImage, RawFrame};
use crate::pacing::{is_due, lemma_interval_bounds, Pacer, MICROS_PER_SECOND};

verus! {

/// How long the loop sleeps after the frame source reports that no frame is
/// ready, in microseconds. It trades CPU use against cancellation latency.
pub const BACKOFF_MICROS: u64 = 1_000;

/// Microseconds per millisecond.
pub const MICROS_PER_MILLI: u64 = 1_000;

/// Settings of one session, fixed when it starts.
#[derive(Clone, Debug)]
pub struct CaptureConfig {
    /// Frames per second; never zero.
    pub frame_rate: u32,
    pub output_directory: String,
    /// Length of the session in milliseconds.
    pub max_duration_ms: u64,
}

/// A configuration that cannot start a session.
#[derive(Clone, Copy, Debug, PartialEq, Eq, Structural)]
pub enum ConfigError {
    ZeroFrameRate,
}

impl CaptureConfig {
    pub open spec fn wf(&self) -> bool {
        self.frame_rate > 0
    }

    /// A configuration, or `ZeroFrameRate` when `frame_rate` is zero.
    pub fn new(frame_rate: u32, output_directory: String, max_duration_ms: u64) -> (r: Result<
        CaptureConfig,
        ConfigError,
    >)
        ensures
            (frame_rate == 0) <==> (r == Err::<CaptureConfig, ConfigError>(ConfigError::ZeroFrameRate)),
            r matches Ok(c) ==> {
                &&& c.wf()
                &&& c.frame_rate == frame_rate
                &&& c.output_directory@ == output_directory@
                &&& c.max_duration_ms == max_duration_ms
            },
    {
        if frame_rate == 0 {
            Err(ConfigError::ZeroFrameRate)
        } else {
            Ok(CaptureConfig { frame_rate, output_directory, max_duration_ms })
        }
    }
}

/// A failure that ends a session.
#[derive(Clone, Copy, Debug, PartialEq, Eq, Structural)]
pub enum SessionError {
    /// The output directory could not be created.
    DirectoryUnavailable,
    /// The frame source failed for good (for example, the display went away).
    SourceFailed,
}

/// Why a session ended.
#[derive(Clone, Copy, Debug, PartialEq, Eq, Structural)]
pub enum EndReason {
    Cancelled,
    Expired,
    Failed(SessionError),
}

/// Where the session stands, and so which method the loop calls next.
#[derive(Clone, Copy, Debug, PartialEq, Eq, Structural)]
pub enum Stage {
    /// Waiting for the output directory to be created: `directory_result`.
    Preparing,
    /// At the top of an iteration: `begin_iteration`.
    AtTop,
    /// Waiting for the frame source: `on_poll`.
    Polling,
    /// Waiting for a frame file to be written: `write_result`.
    Writing,
    /// The loop has exited; nothing more is written.
    Terminated(EndReason),
}

/// What one poll of the frame source gave.
#[derive(Debug)]
pub enum Poll {
    Frame(RawFrame),
    NotReady,
    Fatal,
}

/// What the loop does next.
#[derive(Debug)]
pub enum Action {
    /// Go back to the top of the loop.
    Iterate,
    /// Poll the frame source.
    Poll,
    /// Sleep for `BACKOFF_MICROS`, then go back to the top of the loop.
    Backoff,
    /// Write `image` as frame `index` into the output directory.
    Write { index: u64, image: EncodedImage },
    /// Leave the loop and release the session.
    Finish(EndReason),
}

/// Number of method calls from `stage` before the loop is back at the top,
/// where it looks at the cancellation flag.
pub open spec fn calls_before_check(stage: Stage) -> nat {
    match stage {
        Stage::Preparing => 1,
        Stage::AtTop => 0,
        Stage::Polling => 2,
        Stage::Writing => 1,
        Stage::Terminated(_) => 0,
    }
}

/// Time elapsed between `start` and `now`; a clock reading before the
/// start counts as no time.
pub open spec fn elapsed(start: u64, now: u64) -> nat {
    if now >= start {
        (now - start) as nat
    } else {
        0
    }
}

/// The session's length has been reached at `now`.
pub open spec fn expired(start: u64, now: u64, max_duration_ms: u64) -> bool {
    elapsed(start, now) >= max_duration_ms * MICROS_PER_MILLI
}

/// One capture session, owned by the thread that runs its loop.
pub struct CaptureSession {
    pub config: CaptureConfig,
    pub pacer: Pacer,
    /// Clock reading when the session started, in microseconds.
    pub started_at: u64,
    pub stage: Stage,
    /// Index of the next frame file; also the number of frames written.
    pub frame_index: u64,
    /// Clock reading of the last frame written.
    pub last_capture: Option<u64>,
    /// Clock reading of the frame being written, while `stage` is `Writing`.
    pub pending_at: u64,
    /// Due frames that were dropped because they could not be encoded.
    pub skipped_frames: u64,
    /// Frame writes that failed.
    pub failed_writes: u64,
    /// Each frame written so far: its index and the clock reading at which
    /// it was polled, in the order of writing.
    pub written: Ghost<Seq<(nat, u64)>>,
}

impl CaptureSession {
    pub open spec fn wf(&self) -> bool {
        let w = self.written@;
        let n = w.len();
        &&& self.config.wf()
        &&& self.pacer.wf()
        &&& self.pacer.frame_rate == self.config.frame_rate
        &&& n == self.frame_index
        &&& forall|k: int| 0 <= k < n ==> (#[trigger] w[k]).0 == k
        &&& forall|k: int| 0 <= k < n ==> (#[trigger] w[k]).1 >= k
        &&& forall|k: int|
            0 <= k < n - 1 ==> #[trigger] w[k + 1].1 >= w[k].1 + self.pacer.interval_micros
        &&& self.last_capture == if n == 0 {
            None::<u64>
        } else {
            Some(w[n - 1].1)
        }
        &&& self.stage == Stage::Writing ==> {
            &&& is_due(self.pacer.interval_micros as nat, self.last_capture, self.pending_at)
            &&& self.frame_index <= self.pending_at < u64::MAX
        }
    }

    /// The indices of the frames written so far.
    pub open spec fn written_indices(&self) -> Seq<nat> {
        self.written@.map_values(|e: (nat, u64)| e.0)
    }

    /// The clock readings of the frames written so far, in order.
    pub open spec fn written_times(&self) -> Seq<u64> {
        self.written@.map_values(|e: (nat, u64)| e.1)
    }

    /// A session accepted at clock reading `now`. The loop first creates the
    /// output directory and reports the result to `directory_result`.
    pub fn new(config: CaptureConfig, now: u64) -> (r: CaptureSession)
        requires
            config.wf(),
        ensures
            r.wf(),
            r.config == config,
            r.started_at == now,
            r.stage == Stage::Preparing,
            r.frame_index == 0,
            r.written@.len() == 0,
            r.skipped_frames == 0,
            r.failed_writes == 0,
    {
        let pacer = Pacer::new(config.frame_rate);
        CaptureSession {
            config,
            pacer,
            started_at: now,
            stage: Stage::Preparing,
            frame_index: 0,
            last_capture: None,
            pending_at: 0,
            skipped_frames: 0,
            failed_writes: 0,
            written: Ghost(Seq::empty()),
        }
    }

    /// Whether the loop has exited.
    pub fn is_terminated(&self) -> (r: bool)
        ensures
            r == (self.stage is Terminated),
    {
        match self.stage {
            Stage::Terminated(_) => true,
            _ => false,
        }
    }

    /// Takes the result of creating the output directory. Without it no
    /// frame can be written, so a failure ends the session at once.
    pub fn directory_result(&mut self, created: bool) -> (r: Action)
        requires
            old(self).wf(),
            old(self).stage == Stage::Preparing,
        ensures
            final(self).wf(),
            final(self).frame_index == old(self).frame_index,
            final(self).written@ == old(self).written@,
            created ==> final(self).stage == Stage::AtTop && r is Iterate,
            !created ==> {
                let reason = EndReason::Failed(SessionError::DirectoryUnavailable);
                &&& final(self).stage == Stage::Terminated(reason)
                &&& r == Action::Finish(reason)
            },
            final(self).stage is Terminated || calls_before_check(final(self).stage)
                < calls_before_check(old(self).stage),
            step_after_stop(old(self).stage, final(self).stage),
    {
        if created {
            self.stage = Stage::AtTop;
            Action::Iterate
        } else {
            let reason = EndReason::Failed(SessionError::DirectoryUnavailable);
            self.stage = Stage::Terminated(reason);
            Action::Finish(reason)
        }
    }

    /// The top of an iteration. A raised cancellation flag ends the session,
    /// then an elapsed maximum duration does; otherwise the source is polled.
    pub fn begin_iteration(&mut self, now: u64, cancelled: bool) -> (r: Action)
        requires
            old(self).wf(),
            old(self).stage == Stage::AtTop,
        ensures
            final(self).wf(),
            final(self).frame_index == old(self).frame_index,
            final(self).written@ == old(self).written@,
            final(self).last_capture == old(self).last_capture,
            cancelled ==> {
                &&& final(self).stage == Stage::Terminated(EndReason::Cancelled)
                &&& r == Action::Finish(EndReason::Cancelled)
                &&& step_after_stop(old(self).stage, final(self).stage)
            },
            !cancelled && expired(old(self).started_at, now, old(self).config.max_duration_ms) ==> {
                &&& final(self).stage == Stage::Terminated(EndReason::Expired)
                &&& r == Action::Finish(EndReason::Expired)
            },
            !cancelled && !expired(old(self).started_at, now, old(self).config.max_duration_ms)
                ==> final(self).stage == Stage::Polling && r is Poll,
    {
        if cancelled {
            self.stage = Stage::Terminated(EndReason::Cancelled);
            return Action::Finish(EndReason::Cancelled);
        }
        let limit = self.config.max_duration_ms;
        let since_start: u64 = if now >= self.started_at {
            now - self.started_at
        } else {
            0
        };
        let done = since_start / MICROS_PER_MILLI >= limit;
        proof {
            let e = elapsed(self.started_at, now) as int;
            let m = limit as int;
            assert((e / 1000 >= m) <==> (e >= m * 1000)) by (nonlinear_arith)
                requires
                    e >= 0,
                    m >= 0,
            ;
        }
        if done {
            self.stage = Stage::Terminated(EndReason::Expired);
            Action::Finish(EndReason::Expired)
        } else {
            self.stage = Stage::Polling;
            Action::Poll
        }
    }

    /// Takes the outcome of polling the frame source at clock reading `now`.
    ///
    /// A source that is not ready sends the loop to back off; a fatal source
    /// error ends the session. A frame that is not yet due is dropped. A due
    /// frame that cannot be encoded is skipped and counted; any other due
    /// frame is encoded and handed out to be written under the next index.
    pub fn on_poll(&mut self, poll: Poll, now: u64) -> (r: Action)
        requires
            old(self).wf(),
            old(self).stage == Stage::Polling,
            now < u64::MAX,
        ensures
            final(self).wf(),
            final(self).frame_index == old(self).frame_index,
            final(self).written@ == old(self).written@,
            final(self).last_capture == old(self).last_capture,
            final(self).failed_writes == old(self).failed_writes,
            final(self).stage is Terminated || calls_before_check(final(self).stage)
                < calls_before_check(old(self).stage),
            step_after_stop(old(self).stage, final(self).stage),
            poll is NotReady ==> {
                &&& r is Backoff
                &&& final(self).stage == Stage::AtTop
                &&& final(self).skipped_frames == old(self).skipped_frames
            },
            poll is Fatal ==> {
                let reason = EndReason::Failed(SessionError::SourceFailed);
                &&& final(self).stage == Stage::Terminated(reason)
                &&& r == Action::Finish(reason)
            },
            poll matches Poll::Frame(f) ==> {
                let due = is_due(old(self).pacer.interval_micros as nat, old(self).last_capture, now);
                &&& !due ==> r is Iterate && final(self).stage == Stage::AtTop
                    && final(self).skipped_frames == old(self).skipped_frames
                &&& due ==> match r {
                    Action::Write { index, image } => {
                        &&& index == old(self).frame_index
                        &&& image.png@ == png_rgb8_of(f.width, f.height, f.pixels@)
                        &&& final(self).stage == Stage::Writing
                        &&& final(self).pending_at == now
                        &&& final(self).skipped_frames == old(self).skipped_frames
                    },
                    Action::Iterate => {
                        &&& final(self).stage == Stage::AtTop
                        &&& final(self).skipped_frames as int == saturating_inc(
                            old(self).skipped_frames,
                        )
                    },
                    _ => false,
                }
                &&& due && f.pixels@.len() != crate::frame::expected_len(f.width, f.height)
                    ==> r is Iterate
                &&& due && f.pixels@.len() == crate::frame::expected_len(f.width, f.height)
                    && f.width > 0 && f.height > 0 ==> r is Write
            },
    {
        match poll {
            Poll::NotReady => {
                self.stage = Stage::AtTop;
                Action::Backoff
            },
            Poll::Fatal => {
                let reason = EndReason::Failed(SessionError::SourceFailed);
                self.stage = Stage::Terminated(reason);
                Action::Finish(reason)
            },
            Poll::Frame(frame) => {
                if !self.pacer.ready_for_next_frame(self.last_capture, now) {
                    self.stage = Stage::AtTop;
                    return Action::Iterate;
                }
                match encode(&frame) {
                    Ok(image) => {
                        self.stage = Stage::Writing;
                        self.pending_at = now;
                        proof {
                            let w = self.written@;
                            let n = w.len() as int;
                            if n > 0 {
                                assert(w[n - 1].1 >= n - 1);
                            }
                            lemma_interval_bounds(self.pacer.frame_rate as nat);
                        }
                        Action::Write { index: self.frame_index, image }
                    },
                    Err(_) => {
                        if self.skipped_frames < u64::MAX {
                            self.skipped_frames = self.skipped_frames + 1;
                        }
                        self.stage = Stage::AtTop;
                        Action::Iterate
                    },
                }
            },
        }
    }

    /// Takes the result of writing the pending frame. A written frame takes
    /// the index it was handed out with; a failed write is counted and its
    /// index is handed out again for the next due frame.
    pub fn write_result(&mut self, ok: bool) -> (r: Action)
        requires
            old(self).wf(),
            old(self).stage == Stage::Writing,
        ensures
            final(self).wf(),
            r is Iterate,
            final(self).stage == Stage::AtTop,
            calls_before_check(final(self).stage) < calls_before_check(old(self).stage),
            step_after_stop(old(self).stage, final(self).stage),
            final(self).skipped_frames == old(self).skipped_frames,
            ok ==> {
                &&& final(self).frame_index == old(self).frame_index + 1
                &&& final(self).written@ == old(self).written@.push(
                    (old(self).frame_index as nat, old(self).pending_at),
                )
                &&& final(self).last_capture == Some(old(self).pending_at)
                &&& final(self).failed_writes == old(self).failed_writes
            },
            !ok ==> {
                &&& final(self).frame_index == old(self).frame_index
                &&& final(self).written@ == old(self).written@
                &&& final(self).failed_writes as int == saturating_inc(old(self).failed_writes)
            },
    {
        if ok {
            let t = self.pending_at;
            proof {
                lemma_interval_bounds(self.pacer.frame_rate as nat);
            }
            self.written = Ghost(self.written@.push((self.frame_index as nat, t)));
            self.frame_index = self.frame_index + 1;
            self.last_capture = Some(t);
        } else if self.failed_writes < u64::MAX {
            self.failed_writes = self.failed_writes + 1;
        }
        self.stage = Stage::AtTop;
        Action::Iterate
    }
}

/// `n + 1`, or `n` when it is already the largest `u64`.
pub open spec fn saturating_inc(n: u64) -> int {
    if n < u64::MAX {
        n + 1
    } else {
        n as int
    }
}

} // verus!

verus! {

/// Between any two consecutive frames that a session wrote, at least
/// `1 / frame_rate` seconds passed on the session clock, however fast the
/// frame source delivers.
pub proof fn lemma_pacing_lower_bound(s: &CaptureSession, k: int)
    requires
        s.wf(),
        0 <= k,
        k + 1 < s.written_times().len(),
    ensures
        (s.written_times()[k + 1] - s.written_times()[k]) * s.config.frame_rate
            >= MICROS_PER_SECOND,
{
    let rate = s.config.frame_rate as int;
    let interval = s.pacer.interval_micros as int;
    lemma_interval_bounds(rate as nat);
    let w = s.written@;
    assert(w[k + 1].1 >= w[k].1 + interval);
    let gap = s.written_times()[k + 1] - s.written_times()[k];
    assert(gap >= interval);
    assert(gap * rate >= interval * rate) by (nonlinear_arith)
        requires
            gap >= interval,
            rate > 0,
    ;
}

/// The frames that a session wrote are numbered `0, 1, ..., N - 1` in the
/// order they were written, with `N` the session's frame index: no index is
/// skipped or used twice.
pub proof fn lemma_written_indices_contiguous(s: &CaptureSession)
    requires
        s.wf(),
    ensures
        s.written_indices() == Seq::new(s.frame_index as nat, |i: int| i as nat),
        s.written_indices().to_set() == Set::new(|i: nat| i < s.frame_index),
{
    let n = s.frame_index as nat;
    assert(s.written_indices() =~= Seq::new(n, |i: int| i as nat));
    let idx = s.written_indices();
    assert forall|i: nat| idx.to_set().contains(i) <==> i < n by {
        if i < n {
            assert(idx[i as int] == i);
        }
    }
    assert(idx.to_set() =~= Set::new(|i: nat| i < n));
}

/// One method call on a session whose cancellation flag is raised, from
/// stage `a` to stage `b`, as the methods' contracts allow it: the top of an
/// iteration ends the session, and every other method either ends it or
/// moves closer to the top.
pub open spec fn step_after_stop(a: Stage, b: Stage) -> bool {
    match a {
        Stage::Preparing => b == Stage::AtTop || b is Terminated,
        Stage::AtTop => b == Stage::Terminated(EndReason::Cancelled),
        Stage::Polling => b == Stage::AtTop || b == Stage::Writing || b is Terminated,
        Stage::Writing => b == Stage::AtTop,
        Stage::Terminated(_) => false,
    }
}

/// Once a stop request is visible to the loop, the session is terminated
/// within `calls_before_check(stage) + 1` method calls, and so within three
/// from any stage: at most one poll, one frame write and the check at the
/// top of the next iteration. No session runs on after a stop.
pub proof fn lemma_stop_ends_session(trace: Seq<Stage>)
    requires
        trace.len() >= 1,
        forall|i: int| 0 <= i < trace.len() - 1 ==> step_after_stop(#[trigger] trace[i], trace[i + 1]),
    ensures
        trace[0] is Terminated ==> trace.len() == 1,
        trace.len() - 1 <= calls_before_check(trace[0]) + 1,
        trace.len() <= 4,
    decreases trace.len(),
{
    if trace.len() > 1 {
        let rest = trace.drop_first();
        assert forall|i: int| 0 <= i < rest.len() - 1 implies step_after_stop(
            #[trigger] rest[i],
            rest[i + 1],
        ) by {
            assert(step_after_stop(trace[i + 1], trace[i + 2]));
        }
        assert(step_after_stop(trace[0], trace[1]));
        lemma_stop_ends_session(rest);
    }
}

} // verus!
