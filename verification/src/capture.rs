//! Decisions of one refresh of the live window thumbnails, and the
//! statistics of a refresh. Talking to the compositor and building textures
//! is the caller's part.
use vstd::prelude::*;

verus! {

/// Statistics of one captured frame.
#[derive(Debug, Clone, Copy, PartialEq, Eq, Structural)]
pub struct FrameStats {
    /// Time from the request to the frame, in nanoseconds, when known.
    pub latency: Option<u64>,
    pub damage_count: u32,
    pub damage_area: u64,
    pub buffer_area: u64,
}

/// What to do with one window's capture before reading it.
#[derive(Debug, Clone, Copy, PartialEq, Eq, Structural)]
pub struct CapturePlan {
    /// Ask for a new frame first (the last one failed).
    pub restart: bool,
    /// A frame is ready to be read.
    pub take: bool,
}

/// In continuous mode a failed capture is restarted; only a ready capture is
/// read.
pub fn plan_capture(failed: bool, ready: bool, continuous: bool) -> (r: CapturePlan)
    ensures
        r.restart == (failed && continuous),
        r.take == ready,
{
    CapturePlan { restart: failed && continuous, take: ready }
}

/// After reading a frame: in continuous mode, a frame that became a texture
/// asks for the next one.
pub fn capture_next_after(continuous: bool, got_texture: bool) -> (r: bool)
    ensures
        r == (continuous && got_texture),
{
    continuous && got_texture
}

/// Totals over the frames read in one refresh.
#[derive(Debug, Clone, Copy, PartialEq, Eq, Structural)]
pub struct TickStats {
    /// Captures that had a frame ready.
    pub ready: u32,
    /// Ready frames without damage.
    pub no_damage: u32,
    pub damage_area: u64,
    pub buffer_area: u64,
    /// Largest known latency, in nanoseconds (0 when none is known).
    pub max_latency: u64,
}

/// The totals after one more ready frame with these statistics (when known).
pub open spec fn with_frame(t: TickStats, stats: Option<FrameStats>) -> TickStats {
    let t = TickStats { ready: (t.ready + 1) as u32, ..t };
    match stats {
        None => t,
        Some(s) => TickStats {
            no_damage: if s.damage_count == 0 {
                (t.no_damage + 1) as u32
            } else {
                t.no_damage
            },
            damage_area: (t.damage_area + s.damage_area) as u64,
            buffer_area: (t.buffer_area + s.buffer_area) as u64,
            max_latency: match s.latency {
                Some(l) => if l > t.max_latency {
                    l
                } else {
                    t.max_latency
                },
                None => t.max_latency,
            },
            ..t
        },
    }
}

/// The totals can take one more frame without overflow.
pub open spec fn fits(t: TickStats, stats: Option<FrameStats>) -> bool {
    &&& t.ready < u32::MAX
    &&& stats matches Some(s) ==> t.no_damage < u32::MAX && t.damage_area + s.damage_area
        <= u64::MAX && t.buffer_area + s.buffer_area <= u64::MAX
}

impl TickStats {
    pub fn new() -> (r: Self)
        ensures
            r == (TickStats { ready: 0, no_damage: 0, damage_area: 0, buffer_area: 0, max_latency: 0 }),
    {
        TickStats { ready: 0, no_damage: 0, damage_area: 0, buffer_area: 0, max_latency: 0 }
    }

    /// Counts a ready frame and its statistics, when known.
    pub fn record(&mut self, stats: Option<FrameStats>)
        requires
            fits(*old(self), stats),
        ensures
            *final(self) == with_frame(*old(self), stats),
    {
        self.ready = self.ready + 1;
        if let Some(s) = stats {
            if s.damage_count == 0 {
                self.no_damage = self.no_damage + 1;
            }
            self.damage_area = self.damage_area + s.damage_area;
            self.buffer_area = self.buffer_area + s.buffer_area;
            if let Some(l) = s.latency {
                if l > self.max_latency {
                    self.max_latency = l;
                }
            }
        }
    }
}

/// What happens to the thumbnail timer after a refresh.
#[derive(Debug, Clone, Copy, PartialEq, Eq, Structural)]
pub enum TimerChange {
    /// The running timer stays.
    Keep,
    /// The fast first-frames timer is removed and none replaces it.
    Stop,
    /// The fast first-frames timer is replaced by one with this period, in
    /// milliseconds.
    Slow(u64),
}

/// The refresh mode after one refresh.
#[derive(Debug, Clone, Copy, PartialEq, Eq, Structural)]
pub struct RefreshStep {
    /// Still waiting for the first frame of some window.
    pub burst: bool,
    pub timer: TimerChange,
}

/// While waiting for first frames (`burst`), refreshes are fast and captures
/// are not continuous. Once no capture is pending, the fast timer goes and a
/// slow one of `refresh_ms` takes its place, unless `refresh_ms` is 0.
pub fn after_refresh(burst: bool, pending: usize, refresh_ms: u64) -> (r: RefreshStep)
    ensures
        r.burst == (burst && pending != 0),
        r.timer == (if burst && pending == 0 {
            if refresh_ms == 0 {
                TimerChange::Stop
            } else {
                TimerChange::Slow(refresh_ms)
            }
        } else {
            TimerChange::Keep
        }),
{
    if burst && pending == 0 {
        let timer = if refresh_ms == 0 {
            TimerChange::Stop
        } else {
            TimerChange::Slow(refresh_ms)
        };
        RefreshStep { burst: false, timer }
    } else {
        RefreshStep { burst, timer: TimerChange::Keep }
    }
}

} // verus!
