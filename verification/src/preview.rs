//! The Preview Relay: a throttled, encoded snapshot stream for the UI.
//!
//! The worker offers the relay one chance per render tick; the relay's
//! rate limiter lets at most one emission through per
//! [`PREVIEW_INTERVAL_MS`] of wall-clock time.  An emission packages the
//! downsampled pixel readback as a base64 string together with the preview
//! dimensions.  The control channel and handle with which the owner stops
//! a preview worker live here too.

use vstd::prelude::*;
use vstd::arithmetic::div_mod::lemma_div_is_ordered;
use vstd::arithmetic::div_mod::lemma_div_multiples_vanish;
use crate::pump::Dims;

verus! {

/// Minimum wall-clock distance between two preview emissions (about 15 Hz).
pub const PREVIEW_INTERVAL_MS: u64 = 66;

/// The one command a render worker accepts.
#[derive(Clone, Copy, Debug, PartialEq, Eq, Structural)]
pub enum RenderCommand {
    /// Stop rendering and tear the session down.
    Stop,
}

/// The control plane of a worker: a single-producer, single-consumer
/// channel over which only [`RenderCommand::Stop`] ever travels.  Sending
/// `Stop` more than once is harmless; one pending stop is all the worker
/// ever observes.
#[derive(Clone, Copy, Debug)]
pub struct ControlChannel {
    pub stop_pending: bool,
}

impl ControlChannel {
    pub fn new() -> (c: ControlChannel)
        ensures
            !c.stop_pending,
    {
        ControlChannel { stop_pending: false }
    }

    /// Ask the worker to stop.  Idempotent: a second send changes nothing.
    pub fn send_stop(&mut self)
        ensures
            final(self).stop_pending,
    {
        self.stop_pending = true;
    }

    /// The worker's non-blocking poll: takes the pending stop, if any.
    pub fn try_recv(&mut self) -> (r: Option<RenderCommand>)
        ensures
            r == if old(self).stop_pending {
                Some(RenderCommand::Stop)
            } else {
                None::<RenderCommand>
            },
            !final(self).stop_pending,
    {
        if self.stop_pending {
            self.stop_pending = false;
            Some(RenderCommand::Stop)
        } else {
            None
        }
    }
}

/// The caller's handle on a preview worker: the sending end of its control
/// channel.
#[derive(Clone, Copy, Debug)]
pub struct PreviewHandle {
    pub chan: ControlChannel,
}

impl PreviewHandle {
    pub fn new() -> (h: PreviewHandle)
        ensures
            !h.chan.stop_pending,
    {
        PreviewHandle { chan: ControlChannel::new() }
    }

    /// Request the worker to stop.  Safe to call any number of times.
    pub fn stop(&mut self)
        ensures
            final(self).chan.stop_pending,
    {
        self.chan.send_stop();
    }
}

/// The preview throttle: remembers when it last let an emission through.
#[derive(Clone, Copy, Debug)]
pub struct RateLimiter {
    /// Minimum distance between emissions, in milliseconds.
    pub interval_ms: u64,
    /// Wall-clock time of the last emission, if any.
    pub last_emit: Option<u64>,
}

impl RateLimiter {
    pub open spec fn wf(self) -> bool {
        self.interval_ms >= 1
    }

    /// An emission is due when none has happened yet, or the last one lies
    /// a full interval in the past.
    pub open spec fn due(self, now_ms: u64) -> bool {
        match self.last_emit {
            None => true,
            Some(t) => now_ms >= t + self.interval_ms,
        }
    }

    /// One offered tick: whether it emits, and the limiter afterwards.
    pub open spec fn spec_note(self, now_ms: u64) -> (RateLimiter, bool) {
        if self.due(now_ms) {
            (RateLimiter { last_emit: Some(now_ms), ..self }, true)
        } else {
            (self, false)
        }
    }

    pub fn new(interval_ms: u64) -> (r: RateLimiter)
        requires
            interval_ms >= 1,
        ensures
            r.interval_ms == interval_ms,
            r.last_emit is None,
            r.wf(),
    {
        RateLimiter { interval_ms, last_emit: None }
    }

    /// Offer the limiter the current tick; it answers whether to emit now.
    pub fn note_tick(&mut self, now_ms: u64) -> (emit: bool)
        ensures
            (*final(self), emit) == old(self).spec_note(now_ms),
    {
        let due = match self.last_emit {
            None => true,
            Some(t) => now_ms >= t && now_ms - t >= self.interval_ms,
        };
        if due {
            self.last_emit = Some(now_ms);
            true
        } else {
            false
        }
    }
}

/// A whole session offered to a fresh limiter: the limiter after all ticks,
/// and how many of them emitted.
pub open spec fn spec_run(rl: RateLimiter, ticks_ms: Seq<u64>) -> (RateLimiter, nat)
    decreases ticks_ms.len(),
{
    if ticks_ms.len() == 0 {
        (rl, 0nat)
    } else {
        let prev = spec_run(rl, ticks_ms.drop_last());
        let step = prev.0.spec_note(ticks_ms.last());
        (step.0, prev.1 + if step.1 { 1nat } else { 0nat })
    }
}

proof fn lemma_run_invariant(rl: RateLimiter, ticks_ms: Seq<u64>, lo: u64, hi: u64)
    requires
        rl.wf(),
        rl.last_emit is None,
        lo <= hi,
        forall|i: int| 0 <= i < ticks_ms.len() ==> lo <= #[trigger] ticks_ms[i] <= hi,
        forall|i: int, j: int| 0 <= i <= j < ticks_ms.len() ==> ticks_ms[i] <= ticks_ms[j],
    ensures
        ({
            let (r2, c) = spec_run(rl, ticks_ms);
            &&& r2.interval_ms == rl.interval_ms
            &&& (c == 0 ==> r2.last_emit is None)
            &&& (c >= 1 ==> {
                &&& r2.last_emit is Some
                &&& (exists|i: int|
                    0 <= i < ticks_ms.len() && ticks_ms[i] == r2.last_emit->0)
                &&& lo + (c - 1) * rl.interval_ms <= r2.last_emit->0
            })
        }),
    decreases ticks_ms.len(),
{
    if ticks_ms.len() == 0 {
    } else {
        let prefix = ticks_ms.drop_last();
        let e = ticks_ms.last();
        lemma_run_invariant(rl, prefix, lo, hi);
        let (r1, c1) = spec_run(rl, prefix);
        let (r2, c) = spec_run(rl, ticks_ms);
        if c1 == 0 {
            // First emission: `e` is always due.
            assert(r2.last_emit == Some(e));
            assert(lo <= e);
        } else {
            let i0 = choose|i: int| 0 <= i < prefix.len() && prefix[i] == r1.last_emit->0;
            assert(ticks_ms[i0] == prefix[i0]);
            let t_prev = r1.last_emit->0;
            // The session's ticks are in time order, so the newest tick is
            // no earlier than the last emission.
            assert(t_prev <= e);
            if r1.due(e) {
                assert(r2.last_emit == Some(e));
                assert(lo + (c1 - 1) * rl.interval_ms <= t_prev);
                assert(lo + c1 * rl.interval_ms <= e) by {
                    assert(c1 * rl.interval_ms == (c1 - 1) * rl.interval_ms + rl.interval_ms)
                        by (nonlinear_arith);
                }
            } else {
                assert(ticks_ms[i0] == r2.last_emit->0);
            }
        }
    }
}

/// Preview rate ceiling: however fast the Frame Pump ticks, a relay that
/// starts fresh emits at most one preview more than the session's duration
/// divided by the emission interval.  `ticks_ms` are the tick times of one
/// session, in order, all within the window `[lo, hi]`.
pub proof fn lemma_preview_rate_ceiling(rl: RateLimiter, ticks_ms: Seq<u64>, lo: u64, hi: u64)
    requires
        rl.wf(),
        rl.last_emit is None,
        lo <= hi,
        forall|i: int| 0 <= i < ticks_ms.len() ==> lo <= #[trigger] ticks_ms[i] <= hi,
        forall|i: int, j: int| 0 <= i <= j < ticks_ms.len() ==> ticks_ms[i] <= ticks_ms[j],
    ensures
        spec_run(rl, ticks_ms).1 <= (hi - lo) / (rl.interval_ms as int) + 1,
{
    lemma_run_invariant(rl, ticks_ms, lo, hi);
    let (r2, c) = spec_run(rl, ticks_ms);
    if c >= 1 {
        let t_last = r2.last_emit->0;
        let iv = rl.interval_ms as int;
        assert(lo + (c - 1) * iv <= t_last);
        assert(t_last <= hi) by {
            let i0 = choose|i: int| 0 <= i < ticks_ms.len() && ticks_ms[i] == r2.last_emit->0;
            assert(ticks_ms[i0] <= hi);
        }
        assert((c - 1) * iv <= hi - lo);
        lemma_div_is_ordered((c - 1) * iv, hi - lo, iv);
        lemma_div_multiples_vanish(c - 1, iv);
        assert((c - 1) * iv / iv == c - 1);
    }
}

/// What base64's standard, padded engine produces for a byte sequence — a
/// fixed function of the bytes alone.
pub uninterp spec fn base64_of(bytes: Seq<u8>) -> Seq<char>;

/// Relies on `base64::engine::general_purpose::STANDARD.encode`: encodes
/// the buffer with the standard padded alphabet, four output characters
/// for every three input bytes, rounded up.
#[verifier::external_body]
fn base64_encode(bytes: &Vec<u8>) -> (r: String)
    requires
        bytes@.len() <= usize::MAX / 2,
    ensures
        r@ == base64_of(bytes@),
        r@.len() == 4 * ((bytes@.len() + 2) / 3),
{
    base64::Engine::encode(&base64::engine::general_purpose::STANDARD, bytes.as_slice())
}

/// One preview event payload: the downsampled size and the base64-encoded
/// raw pixel readback.
#[derive(Clone, Debug)]
pub struct PreviewFrame {
    pub width: u32,
    pub height: u32,
    pub data: String,
}

/// Package a pixel readback of the preview surface as a UI event payload.
/// The worker calls this only on ticks [`RateLimiter::note_tick`] lets
/// through, after a successful downsample and readback.
pub fn encode_preview(pixels: &Vec<u8>, dims: Dims) -> (f: PreviewFrame)
    requires
        pixels@.len() <= usize::MAX / 2,
    ensures
        f.width == dims.width,
        f.height == dims.height,
        f.data@ == base64_of(pixels@),
        f.data@.len() == 4 * ((pixels@.len() + 2) / 3),
{
    PreviewFrame { width: dims.width, height: dims.height, data: base64_encode(pixels) }
}

} // verus!
