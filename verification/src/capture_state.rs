//! What the live thumbnails keep per window between compositor events: the
//! buffer size the compositor asks for, whether the last frame arrived or
//! failed, and the damage it reported. Also the choice of buffer layout and
//! the way 64-bit values travel as two 32-bit halves on the wire.
//! Talking to the compositor and the GPU is the caller's part.
use vstd::prelude::*;
use crate::capture::FrameStats;

verus! {

/// The layout modifier that marks an unusable entry.
pub const MOD_INVALID: u64 = 0x00FF_FFFF_FFFF_FFFF;

/// The plain row-by-row layout.
pub const MOD_LINEAR: u64 = 0;

/// How long a new buffer size must hold, in nanoseconds, before the buffer
/// is allocated again.
pub const RESIZE_SETTLE_NS: u64 = 200_000_000;

/// The offered layouts without the unusable ones, in order.
pub open spec fn usable(mods: Seq<u64>) -> Seq<u64>
    decreases mods.len(),
{
    if mods.len() == 0 {
        seq![]
    } else {
        let rest = usable(mods.drop_last());
        if mods.last() != MOD_INVALID {
            rest.push(mods.last())
        } else {
            rest
        }
    }
}

/// The layouts a new buffer may use: the plain one alone when it is offered,
/// else every usable one.
pub open spec fn chosen_modifiers(mods: Seq<u64>) -> Seq<u64> {
    if usable(mods).contains(MOD_LINEAR) {
        seq![MOD_LINEAR]
    } else {
        usable(mods)
    }
}

/// The layouts to allocate a buffer with, out of those the compositor offers.
pub fn choose_modifiers(mods: &Vec<u64>) -> (r: Vec<u64>)
    ensures
        r@ == chosen_modifiers(mods@),
{
    let mut out: Vec<u64> = Vec::new();
    let mut linear = false;
    let mut i: usize = 0;
    while i < mods.len()
        invariant
            i <= mods.len(),
            out@ == usable(mods@.take(i as int)),
            linear == out@.contains(MOD_LINEAR),
        decreases mods.len() - i,
    {
        proof {
            assert(mods@.take(i + 1).drop_last() =~= mods@.take(i as int));
        }
        let m = mods[i];
        if m != MOD_INVALID {
            proof {
                let s = out@.push(m);
                if m == MOD_LINEAR {
                    assert(s[out@.len() as int] == MOD_LINEAR);
                } else if s.contains(MOD_LINEAR) {
                    let j = choose|j: int| 0 <= j < s.len() && s[j] == MOD_LINEAR;
                    assert(out@[j] == MOD_LINEAR);
                }
                if out@.contains(MOD_LINEAR) {
                    let j = choose|j: int| 0 <= j < out@.len() && out@[j] == MOD_LINEAR;
                    assert(s[j] == MOD_LINEAR);
                }
            }
            out.push(m);
            linear = linear || m == MOD_LINEAR;
        }
        i = i + 1;
    }
    proof {
        assert(mods@.take(i as int) =~= mods@);
    }
    if linear {
        let mut only: Vec<u64> = Vec::new();
        only.push(MOD_LINEAR);
        proof {
            assert(only@ =~= seq![MOD_LINEAR]);
        }
        only
    } else {
        out
    }
}

/// The upper 32 bits of `v`.
pub open spec fn high(v: u64) -> u32 {
    (v / 0x1_0000_0000) as u32
}

/// The lower 32 bits of `v`.
pub open spec fn low(v: u64) -> u32 {
    (v % 0x1_0000_0000) as u32
}

/// The 64-bit value with these halves.
pub open spec fn joined(hi: u32, lo: u32) -> u64 {
    (hi * 0x1_0000_0000 + lo) as u64
}

/// Splits a 64-bit value (a buffer layout modifier) into the halves the
/// protocol sends.
pub fn split_u64(v: u64) -> (r: (u32, u32))
    ensures
        r == (high(v), low(v)),
{
    let upper: u64 = v >> 32u64;
    let lower: u64 = v & 0xFFFF_FFFFu64;
    assert(upper == v / 0x1_0000_0000 && lower == v % 0x1_0000_0000 && upper <= 0xFFFF_FFFFu64)
        by (bit_vector)
        requires
            upper == v >> 32u64,
            lower == v & 0xFFFF_FFFFu64,
    ;
    (upper as u32, lower as u32)
}

/// Joins the halves of a 64-bit value the protocol sent (a window address).
pub fn join_u64(hi: u32, lo: u32) -> (r: u64)
    ensures
        r == joined(hi, lo),
{
    let r = ((hi as u64) << 32u64) | (lo as u64);
    assert(r == (hi * 0x1_0000_0000 + lo) as u64) by (bit_vector)
        requires
            r == ((hi as u64) << 32u64) | (lo as u64),
    ;
    r
}

/// Joining the two halves of a value gives the value back, and splitting a
/// joined value gives its halves back.
pub proof fn law_halves_round_trip(v: u64, hi: u32, lo: u32)
    ensures
        joined(high(v), low(v)) == v,
        high(joined(hi, lo)) == hi,
        low(joined(hi, lo)) == lo,
{
    assert(joined(high(v), low(v)) == v) by (bit_vector);
    assert(high(joined(hi, lo)) == hi && low(joined(hi, lo)) == lo) by (bit_vector);
}

/// The state of one window's capture between compositor events. Times are
/// in nanoseconds on a clock that does not go back.
#[derive(Debug, Clone, Copy, PartialEq, Eq)]
pub struct CaptureState {
    /// The buffer size the compositor last asked for.
    pub buffer_geometry: Option<(u32, u32)>,
    /// The compositor has described the buffers it accepts.
    pub session_done: bool,
    /// The last requested frame arrived.
    pub ready: bool,
    /// The last requested frame failed.
    pub failed: bool,
    /// When the asked-for size last changed, while that change is not acted
    /// on yet.
    pub size_changed_at: Option<u64>,
    /// Damaged regions of the last frame.
    pub damage_count: u32,
    /// Damaged area of the last frame.
    pub damage_area: u64,
    /// When the last frame was requested.
    pub frame_requested_at: Option<u64>,
}

/// What to do when the next frame of a window is wanted.
#[derive(Debug, Clone, Copy, PartialEq, Eq, Structural)]
pub enum FramePlan {
    /// The size changed a moment ago: leave the window alone for now.
    Wait,
    /// Request a frame into the current buffer.
    Capture,
    /// Allocate a buffer of this size first, then request a frame.
    Reallocate(u32, u32),
}

/// The size changed but no size is known: the capture is broken.
#[derive(Debug, Clone, Copy, PartialEq, Eq, Structural)]
pub enum CaptureError {
    NoBufferGeometry,
}

/// Time from `t` to `now`, zero when `now` is earlier.
pub open spec fn since(now: u64, t: u64) -> u64 {
    if now >= t {
        (now - t) as u64
    } else {
        0
    }
}

/// The magnitude of a signed size.
pub open spec fn magnitude(v: i32) -> u64 {
    if v < 0 {
        (-v) as u64
    } else {
        v as u64
    }
}

impl CaptureState {
    /// A window seen for the first time.
    pub open spec fn fresh() -> CaptureState {
        CaptureState {
            buffer_geometry: None,
            session_done: false,
            ready: false,
            failed: false,
            size_changed_at: None,
            damage_count: 0,
            damage_area: 0,
            frame_requested_at: None,
        }
    }

    /// Waiting for the outcome of a requested frame.
    pub open spec fn pending(self) -> bool {
        !self.ready && !self.failed
    }

    pub open spec fn sized(self, width: u32, height: u32, now: u64) -> CaptureState {
        CaptureState {
            buffer_geometry: Some((width, height)),
            size_changed_at: if self.buffer_geometry is Some && self.buffer_geometry != Some(
                (width, height),
            ) {
                Some(now)
            } else {
                self.size_changed_at
            },
            ..self
        }
    }

    pub open spec fn damaged(self, width: i32, height: i32) -> CaptureState {
        CaptureState {
            damage_count: (self.damage_count + 1) as u32,
            damage_area: (self.damage_area + magnitude(width) * magnitude(height)) as u64,
            ..self
        }
    }

    /// The plan for the next frame, and the state once the plan is made.
    pub open spec fn planned(self, now: u64) -> (CaptureState, Result<FramePlan, CaptureError>) {
        match self.size_changed_at {
            None => (self, Ok(FramePlan::Capture)),
            Some(t) => if since(now, t) > RESIZE_SETTLE_NS {
                let s = CaptureState { size_changed_at: None, ..self };
                match self.buffer_geometry {
                    Some((w, h)) => (s, Ok(FramePlan::Reallocate(w, h))),
                    None => (s, Err(CaptureError::NoBufferGeometry)),
                }
            } else {
                (self, Ok(FramePlan::Wait))
            },
        }
    }

    pub open spec fn requested(self, now: u64) -> CaptureState {
        CaptureState {
            ready: false,
            failed: false,
            damage_area: 0,
            damage_count: 0,
            frame_requested_at: Some(now),
            ..self
        }
    }

    pub fn new() -> (r: Self)
        ensures
            r == Self::fresh(),
    {
        CaptureState {
            buffer_geometry: None,
            session_done: false,
            ready: false,
            failed: false,
            size_changed_at: None,
            damage_count: 0,
            damage_area: 0,
            frame_requested_at: None,
        }
    }

    /// The compositor asks for buffers of this size. A change of a known
    /// size is noted with its time.
    pub fn on_buffer_size(&mut self, width: u32, height: u32, now: u64)
        ensures
            *final(self) == old(self).sized(width, height, now),
    {
        let changed = match self.buffer_geometry {
            Some((w, h)) => w != width || h != height,
            None => false,
        };
        if changed {
            self.size_changed_at = Some(now);
        }
        self.buffer_geometry = Some((width, height));
    }

    /// The compositor has described the buffers it accepts.
    pub fn on_session_done(&mut self)
        ensures
            *final(self) == (CaptureState { session_done: true, ..*old(self) }),
    {
        self.session_done = true;
    }

    /// A damaged region of the frame being captured.
    pub fn on_damage(&mut self, width: i32, height: i32)
        requires
            old(self).damage_count < u32::MAX,
            old(self).damage_area + magnitude(width) * magnitude(height) <= u64::MAX,
        ensures
            *final(self) == old(self).damaged(width, height),
    {
        let w: u64 = if width < 0 {
            (-(width as i64)) as u64
        } else {
            width as u64
        };
        let h: u64 = if height < 0 {
            (-(height as i64)) as u64
        } else {
            height as u64
        };
        assert(w * h <= 0x8000_0000u64 * 0x8000_0000u64) by (nonlinear_arith)
            requires
                w <= 0x8000_0000u64,
                h <= 0x8000_0000u64,
        ;
        self.damage_count = self.damage_count + 1;
        self.damage_area = self.damage_area + w * h;
    }

    /// The requested frame arrived.
    pub fn on_ready(&mut self)
        ensures
            *final(self) == (CaptureState { ready: true, ..*old(self) }),
    {
        self.ready = true;
    }

    /// The requested frame failed.
    pub fn on_failed(&mut self)
        ensures
            *final(self) == (CaptureState { failed: true, ..*old(self) }),
    {
        self.failed = true;
    }

    /// Whether the outcome of the requested frame is still unknown.
    pub fn is_pending(&self) -> (r: bool)
        ensures
            r == self.pending(),
    {
        !self.ready && !self.failed
    }

    /// Decides what the next frame needs. A size change is acted on once it
    /// has held for the settle time; before that the window waits.
    pub fn plan_frame(&mut self, now: u64) -> (r: Result<FramePlan, CaptureError>)
        ensures
            (*final(self), r) == old(self).planned(now),
    {
        match self.size_changed_at {
            None => Ok(FramePlan::Capture),
            Some(t) => {
                let elapsed = if now >= t {
                    now - t
                } else {
                    0
                };
                if elapsed > RESIZE_SETTLE_NS {
                    self.size_changed_at = None;
                    match self.buffer_geometry {
                        Some((w, h)) => Ok(FramePlan::Reallocate(w, h)),
                        None => Err(CaptureError::NoBufferGeometry),
                    }
                } else {
                    Ok(FramePlan::Wait)
                }
            },
        }
    }

    /// A new frame was requested at `now`: its outcome and damage start
    /// afresh.
    pub fn frame_requested(&mut self, now: u64)
        ensures
            *final(self) == old(self).requested(now),
    {
        self.ready = false;
        self.failed = false;
        self.damage_area = 0;
        self.damage_count = 0;
        self.frame_requested_at = Some(now);
    }

    /// Statistics of the last frame, read at `now`, for a buffer of this
    /// size.
    pub fn frame_stats(&self, width: u32, height: u32, now: u64) -> (r: FrameStats)
        ensures
            r.latency == (match self.frame_requested_at {
                Some(t) => Some(since(now, t)),
                None => None,
            }),
            r.damage_count == self.damage_count,
            r.damage_area == self.damage_area,
            r.buffer_area == width * height,
    {
        let latency = match self.frame_requested_at {
            Some(t) => Some(
                if now >= t {
                    now - t
                } else {
                    0
                },
            ),
            None => None,
        };
        assert(width * height <= 0xFFFF_FFFFu64 * 0xFFFF_FFFFu64) by (nonlinear_arith)
            requires
                width <= 0xFFFF_FFFFu64,
                height <= 0xFFFF_FFFFu64,
        ;
        FrameStats {
            latency,
            damage_count: self.damage_count,
            damage_area: self.damage_area,
            buffer_area: (width as u64) * (height as u64),
        }
    }
}

/// How many captures wait for the outcome of their frame.
pub open spec fn pending_in(states: Seq<CaptureState>) -> nat
    decreases states.len(),
{
    if states.len() == 0 {
        0
    } else {
        pending_in(states.drop_last()) + if states.last().pending() {
            1nat
        } else {
            0nat
        }
    }
}

/// How many captures wait for the outcome of their frame.
pub fn pending_count(states: &Vec<CaptureState>) -> (r: usize)
    ensures
        r == pending_in(states@),
{
    let mut n: usize = 0;
    let mut i: usize = 0;
    while i < states.len()
        invariant
            i <= states.len(),
            n == pending_in(states@.take(i as int)),
            n <= i,
        decreases states.len() - i,
    {
        proof {
            assert(states@.take(i + 1).drop_last() =~= states@.take(i as int));
        }
        if states[i].is_pending() {
            n = n + 1;
        }
        i = i + 1;
    }
    proof {
        assert(states@.take(i as int) =~= states@);
    }
    n
}

/// A requested frame stays pending through size, description and damage
/// events, and stops being pending once it arrives or fails.
pub proof fn law_pending_until_answered(
    s: CaptureState,
    now: u64,
    width: u32,
    height: u32,
    dw: i32,
    dh: i32,
)
    ensures
        s.requested(now).pending(),
        s.sized(width, height, now).pending() == s.pending(),
        s.damaged(dw, dh).pending() == s.pending(),
        (CaptureState { session_done: true, ..s }).pending() == s.pending(),
        !(CaptureState { ready: true, ..s }).pending(),
        !(CaptureState { failed: true, ..s }).pending(),
        s.planned(now).0.pending() == s.pending(),
{
}

/// A size change is never acted on before it has held for the settle time,
/// and once acted on it is forgotten; with no change pending the frame is
/// captured at once.
pub proof fn law_resize_settles(s: CaptureState, now: u64)
    ensures
        s.size_changed_at is None ==> s.planned(now) == (s, Ok::<FramePlan, CaptureError>(
            FramePlan::Capture,
        )),
        s.size_changed_at matches Some(t) && since(now, t) <= RESIZE_SETTLE_NS ==> s.planned(now)
            == (s, Ok::<FramePlan, CaptureError>(FramePlan::Wait)),
        s.size_changed_at matches Some(t) && since(now, t) > RESIZE_SETTLE_NS ==> s.planned(
            now,
        ).0.size_changed_at is None && s.planned(now).1 == match s.buffer_geometry {
            Some((w, h)) => Ok::<FramePlan, CaptureError>(FramePlan::Reallocate(w, h)),
            None => Err(CaptureError::NoBufferGeometry),
        },
{
}

} // verus!
