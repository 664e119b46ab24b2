use vstd::prelude::*;
use crate::color::Color;
use crate::brightness::{scale_color, scaled_seq};
use crate::wheel::{rainbow_color, wheel_color};

verus! {

/// Number of animation steps in one phase window; after the window the
/// animation restarts from phase 0.
pub const PHASE_WINDOW: u16 = 256 * 5;

/// Default inter-frame delay, in time units, between two transmits.
pub const FRAME_DELAY_UNITS: u64 = 10;

/// Default brightness level, out of 255, applied to every frame.
pub const DEFAULT_BRIGHTNESS: u8 = 32;

/// Default number of LEDs on the strip.
pub const DEFAULT_STRIP_LEN: usize = 1;

/// A transport-level transmit failure. Fatal for the animation: the frame
/// driver stops rather than continue with partial output.
#[derive(Clone, Copy, PartialEq, Eq, Structural, Debug)]
pub struct TransportError;

/// The three interchangeable transport backends. All three carry the same
/// transmit contract and produce the same animation; they differ only in how
/// the calling context suspends during a transmit.
#[derive(Clone, Copy, PartialEq, Eq, Structural, Debug)]
pub enum TransportKind {
    /// A dedicated pulse-train peripheral; transmit blocks the thread.
    BlockingPulse,
    /// A serial bus clocked to reproduce the LED protocol's bit timing;
    /// transmit blocks the thread.
    BlockingSerial,
    /// The same serial bus driven from a cooperative scheduler; transmit is
    /// a suspension point that yields until the transfer completes.
    AsyncSerial,
}

impl TransportKind {
    /// The human-readable name of the variant, for the single startup log
    /// line that identifies which transport is active.
    pub fn label(self) -> (r: &'static str)
        ensures
            self is BlockingPulse ==> r@ == "pulse (blocking)"@,
            self is BlockingSerial ==> r@ == "serial (blocking)"@,
            self is AsyncSerial ==> r@ == "serial (async)"@,
    {
        match self {
            TransportKind::BlockingPulse => "pulse (blocking)",
            TransportKind::BlockingSerial => "serial (blocking)",
            TransportKind::AsyncSerial => "serial (async)",
        }
    }
}

/// One frame of the animation: the color of each LED on a strip of
/// `strip_len` LEDs at animation step `phase`.
pub open spec fn frame_seq(strip_len: int, phase: int) -> Seq<Color>
    recommends
        strip_len >= 1,
{
    Seq::new(strip_len as nat, |i: int| rainbow_color(i, strip_len, phase))
}

/// Fill the LED buffer in place with the frame for animation step `phase`.
/// The buffer keeps its length; only its colors change.
pub fn render_frame(buffer: &mut Vec<Color>, phase: u16)
    requires
        old(buffer).len() >= 1,
    ensures
        final(buffer)@ == frame_seq(old(buffer)@.len() as int, phase as int),
{
    let n = buffer.len();
    let mut i: usize = 0;
    while i < n
        invariant
            1 <= n == buffer@.len(),
            i <= n,
            forall|k: int| 0 <= k < i ==> buffer@[k] == rainbow_color(k, n as int, phase as int),
        decreases n - i,
    {
        let c = wheel_color(i, n, phase);
        buffer.set(i, c);
        i += 1;
    }
    proof {
        assert(buffer@ =~= frame_seq(n as int, phase as int));
    }
}

/// The phase after one more frame: one step forward, wrapping at the end of
/// the window.
pub open spec fn next_phase(phase: int) -> int {
    (phase + 1) % (PHASE_WINDOW as int)
}

/// The frame driver: owns the LED buffer and the animation state, and paces
/// the perpetually repeating phase window. Each frame it fills the buffer in
/// place, hands the brightness-scaled view out for transmission, and records
/// the transmit outcome; a failure stops it for good.
pub struct FrameDriver {
    /// The one LED buffer of the animation; its length never changes.
    pub buffer: Vec<Color>,
    /// Brightness level out of 255 applied to every frame.
    pub level: u8,
    /// Inter-frame delay in time units.
    pub delay_units: u64,
    /// Animation step within the current phase window.
    pub phase: u16,
    /// Frames transmitted successfully since the start.
    pub frames_sent: u64,
    /// Time units of inter-frame pacing accounted for so far.
    pub elapsed_units: u64,
    /// Set once a transmit has failed; the driver then refuses further
    /// frames.
    pub failed: bool,
}

impl FrameDriver {
    /// The number of LEDs the driver animates.
    pub open spec fn strip_len(self) -> int {
        self.buffer@.len() as int
    }

    /// Well-formedness of the driver state: a non-empty strip, a phase
    /// inside the window, and pacing counters that agree with the number of
    /// frames sent so far.
    pub open spec fn wf(self) -> bool {
        &&& self.strip_len() >= 1
        &&& self.phase < PHASE_WINDOW
        &&& self.phase == self.frames_sent as int % (PHASE_WINDOW as int)
        &&& self.elapsed_units == self.frames_sent * self.delay_units
    }

    /// Start a driver for a strip of `strip_len` LEDs with the given
    /// brightness level and inter-frame delay, at the beginning of the
    /// phase window.
    pub fn with_settings(strip_len: usize, level: u8, delay_units: u64) -> (d: FrameDriver)
        requires
            strip_len >= 1,
        ensures
            d.wf(),
            d.strip_len() == strip_len,
            d.level == level,
            d.delay_units == delay_units,
            d.phase == 0,
            d.frames_sent == 0,
            d.elapsed_units == 0,
            !d.failed,
    {
        let mut buffer: Vec<Color> = Vec::new();
        let mut i: usize = 0;
        while i < strip_len
            invariant
                i <= strip_len,
                buffer@.len() == i,
            decreases strip_len - i,
        {
            buffer.push(Color::black());
            i += 1;
        }
        FrameDriver {
            buffer,
            level,
            delay_units,
            phase: 0,
            frames_sent: 0,
            elapsed_units: 0,
            failed: false,
        }
    }

    /// Start a driver with the default brightness level and inter-frame
    /// delay.
    pub fn new(strip_len: usize) -> (d: FrameDriver)
        requires
            strip_len >= 1,
        ensures
            d.wf(),
            d.strip_len() == strip_len,
            d.level == DEFAULT_BRIGHTNESS,
            d.delay_units == FRAME_DELAY_UNITS,
            d.phase == 0,
            d.frames_sent == 0,
            d.elapsed_units == 0,
            !d.failed,
    {
        FrameDriver::with_settings(strip_len, DEFAULT_BRIGHTNESS, FRAME_DELAY_UNITS)
    }

    /// Produce the current frame: fill the LED buffer in place with the
    /// wheel colors for the current phase, and hand back the
    /// brightness-scaled view that goes to the transport. The buffer itself
    /// keeps the unscaled frame and its length.
    pub fn frame_colors(&mut self) -> (colors: Vec<Color>)
        requires
            old(self).wf(),
            !old(self).failed,
        ensures
            final(self).wf(),
            final(self).buffer@ == frame_seq(old(self).strip_len(), old(self).phase as int),
            final(self).strip_len() == old(self).strip_len(),
            final(self).level == old(self).level,
            final(self).delay_units == old(self).delay_units,
            final(self).phase == old(self).phase,
            final(self).frames_sent == old(self).frames_sent,
            final(self).elapsed_units == old(self).elapsed_units,
            final(self).failed == old(self).failed,
            colors@ == scaled_seq(
                frame_seq(old(self).strip_len(), old(self).phase as int),
                old(self).level as int,
            ),
    {
        let n = self.buffer.len();
        let phase = self.phase;
        render_frame(&mut self.buffer, phase);
        let mut colors: Vec<Color> = Vec::new();
        let mut i: usize = 0;
        while i < n
            invariant
                n == self.buffer@.len(),
                self.buffer@ == frame_seq(n as int, phase as int),
                i <= n,
                colors@.len() == i,
                forall|k: int|
                    0 <= k < i ==> colors@[k] == crate::brightness::scaled_color(
                        self.buffer@[k],
                        self.level as int,
                    ),
            decreases n - i,
        {
            let c = scale_color(self.buffer[i], self.level);
            colors.push(c);
            i += 1;
        }
        proof {
            assert(colors@ =~= scaled_seq(frame_seq(n as int, phase as int), self.level as int));
        }
        colors
    }

    /// Record the transport's outcome for the frame just transmitted. On
    /// success the phase advances by one step (wrapping at the end of the
    /// window), the frame count grows by one, and the inter-frame delay is
    /// added to the pacing time. On failure the driver stops: the error is
    /// surfaced unchanged, the state freezes, and no further frame is
    /// produced.
    pub fn record_transmit(&mut self, outcome: Result<(), TransportError>) -> (r: Result<
        (),
        TransportError,
    >)
        requires
            old(self).wf(),
            !old(self).failed,
            old(self).frames_sent < u64::MAX,
            old(self).elapsed_units + old(self).delay_units <= u64::MAX,
        ensures
            final(self).wf(),
            r == outcome,
            final(self).buffer == old(self).buffer,
            final(self).level == old(self).level,
            final(self).delay_units == old(self).delay_units,
            outcome is Ok ==> {
                &&& !final(self).failed
                &&& final(self).phase == next_phase(old(self).phase as int)
                &&& final(self).frames_sent == old(self).frames_sent + 1
                &&& final(self).elapsed_units == old(self).elapsed_units + old(self).delay_units
            },
            outcome is Err ==> {
                &&& final(self).failed
                &&& final(self).phase == old(self).phase
                &&& final(self).frames_sent == old(self).frames_sent
                &&& final(self).elapsed_units == old(self).elapsed_units
            },
    {
        match outcome {
            Ok(()) => {
                proof {
                    lemma_next_phase_tracks_count(
                        old(self).frames_sent as int,
                        old(self).phase as int,
                    );
                    let f = old(self).frames_sent as int;
                    let u = old(self).delay_units as int;
                    assert((f + 1) * u == f * u + u) by (nonlinear_arith);
                }
                if self.phase + 1 < PHASE_WINDOW {
                    self.phase = self.phase + 1;
                } else {
                    self.phase = 0;
                }
                self.frames_sent = self.frames_sent + 1;
                self.elapsed_units = self.elapsed_units + self.delay_units;
            },
            Err(_) => {
                self.failed = true;
            },
        }
        outcome
    }
}

/// Advancing the phase keeps it in step with the frame count: if the phase
/// is the frame count reduced modulo the window, the next phase is the next
/// frame count reduced modulo the window.
proof fn lemma_next_phase_tracks_count(frames: int, phase: int)
    requires
        0 <= frames,
        0 <= phase < PHASE_WINDOW as int,
        phase == frames % (PHASE_WINDOW as int),
    ensures
        next_phase(phase) == (frames + 1) % (PHASE_WINDOW as int),
        next_phase(phase) == if phase + 1 < PHASE_WINDOW as int {
            phase + 1
        } else {
            0
        },
{
    let w = PHASE_WINDOW as int;
    vstd::arithmetic::div_mod::lemma_fundamental_div_mod(frames, w);
    vstd::arithmetic::div_mod::lemma_mod_multiples_vanish(frames / w, phase + 1, w);
    if phase + 1 < w {
        vstd::arithmetic::div_mod::lemma_small_mod((phase + 1) as nat, w as nat);
    } else {
        vstd::arithmetic::div_mod::lemma_mod_self_0(w);
    }
}

/// One full pass over the phase window accounts for the whole window's
/// pacing: a driver that has sent a whole window of frames has wrapped its
/// phase back to the start, and its pacing time is the full window times the
/// inter-frame delay.
pub proof fn lemma_full_window_pacing(d: FrameDriver)
    requires
        d.wf(),
        d.frames_sent == PHASE_WINDOW as int,
    ensures
        d.phase == 0,
        d.elapsed_units == PHASE_WINDOW as int * d.delay_units,
{
    vstd::arithmetic::div_mod::lemma_mod_self_0(PHASE_WINDOW as int);
}

} // verus!
