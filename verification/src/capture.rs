//! Pacing of the screen and camera capture loops.
use vstd::prelude::*;

verus! {

/// How long a screen recording lasts, in seconds.
pub const RECORDING_SECONDS: u64 = 10;

/// The key that ends the camera preview (Escape).
pub const ESCAPE_KEY: i32 = 27;

/// Whether a time of `secs` seconds and `nanos` nanoseconds is past the end of
/// a recording.
pub open spec fn past_recording(secs: u64, nanos: u32) -> bool {
    secs > RECORDING_SECONDS || (secs == RECORDING_SECONDS && nanos > 0)
}

/// The whole milliseconds in `secs` seconds and `nanos` nanoseconds.
pub open spec fn millis(secs: u64, nanos: u32) -> int {
    secs * 1000 + nanos / 1_000_000
}

/// What the recording loop does after a frame was captured.
#[derive(Debug, Clone, Copy, PartialEq, Eq)]
pub enum CaptureStep {
    /// Encode the frame with this time stamp, in milliseconds.
    Encode(i64),
    /// The recording is over: flush the encoder and finish the file.
    Stop,
}

/// The step for a frame captured `secs` seconds and `nanos` nanoseconds after
/// the recording began: stop once more than ten seconds have passed, else
/// encode the frame at its time in whole milliseconds.
pub fn recording_step(secs: u64, nanos: u32) -> (r: CaptureStep)
    requires
        nanos < 1_000_000_000,
    ensures
        past_recording(secs, nanos) ==> r == CaptureStep::Stop,
        !past_recording(secs, nanos) ==> r == CaptureStep::Encode(millis(secs, nanos) as i64)
            && 0 <= millis(secs, nanos) <= 10_000,
        r is Stop <==> (secs > 10 || (secs == 10 && nanos > 0)),
        r matches CaptureStep::Encode(ms) ==> ms == secs * 1000 + nanos / 1_000_000,
{
    if secs > RECORDING_SECONDS || (secs == RECORDING_SECONDS && nanos > 0) {
        return CaptureStep::Stop;
    }
    let ms: u64 = secs * 1000 + (nanos / 1_000_000) as u64;
    CaptureStep::Encode(ms as i64)
}

/// The time of an encoded frame in nanoseconds, from its time stamp in
/// milliseconds.
pub fn frame_time_ns(pts: i64) -> (r: u64)
    requires
        0 <= pts,
        pts * 1_000_000 <= u64::MAX,
    ensures
        r == pts * 1_000_000,
{
    pts as u64 * 1_000_000
}

/// The size of a monitor in captured pixels: its size times its scale.
pub fn capture_size(width: u32, height: u32, scale: u32) -> (r: (u32, u32))
    requires
        width * scale <= u32::MAX,
        height * scale <= u32::MAX,
    ensures
        r.0 == width * scale,
        r.1 == height * scale,
{
    (width * scale, height * scale)
}

/// Whether a camera frame of this width is shown: only one with pixels.
pub fn should_show_frame(width: i32) -> (r: bool)
    ensures
        r == (width > 0),
{
    width > 0
}

/// Whether the key read after a camera frame ends the preview.
pub fn is_stop_key(key: i32) -> (r: bool)
    ensures
        r == (key == ESCAPE_KEY),
{
    key == ESCAPE_KEY
}

/// A recording that has ended stays ended, and the time stamps of the frames
/// it encodes never go backwards.
pub proof fn law_recording_is_monotone(secs1: u64, nanos1: u32, secs2: u64, nanos2: u32)
    requires
        nanos1 < 1_000_000_000,
        nanos2 < 1_000_000_000,
        secs1 < secs2 || (secs1 == secs2 && nanos1 <= nanos2),
    ensures
        past_recording(secs1, nanos1) ==> past_recording(secs2, nanos2),
        millis(secs1, nanos1) <= millis(secs2, nanos2),
{
    assert(nanos1 / 1_000_000 <= 999) by (nonlinear_arith)
        requires nanos1 < 1_000_000_000;
    if secs1 == secs2 {
        assert(nanos1 / 1_000_000 <= nanos2 / 1_000_000) by (nonlinear_arith)
            requires nanos1 <= nanos2;
    }
}

/// A recording ends exactly when more than ten seconds, counted in
/// nanoseconds, have passed; a frame's time stamp is the elapsed time in whole
/// milliseconds, rounded down.
pub proof fn law_recording_step_measures_elapsed_time(secs: u64, nanos: u32)
    requires
        nanos < 1_000_000_000,
    ensures
        past_recording(secs, nanos) <==> secs * 1_000_000_000 + nanos > 10_000_000_000,
        millis(secs, nanos) * 1_000_000 <= secs * 1_000_000_000 + nanos,
        secs * 1_000_000_000 + nanos < (millis(secs, nanos) + 1) * 1_000_000,
{
    let q = nanos / 1_000_000;
    assert(q * 1_000_000 <= nanos < (q + 1) * 1_000_000) by (nonlinear_arith)
        requires
            q == nanos / 1_000_000,
    ;
    assert(secs > 10 ==> secs * 1_000_000_000 >= 11_000_000_000) by (nonlinear_arith);
    assert(secs < 10 ==> secs * 1_000_000_000 <= 9_000_000_000) by (nonlinear_arith);
}

} // verus!
