//! Tone and DTMF playback requests for PJMEDIA's tone generator.

use vstd::prelude::*;

verus! {

/// Describes a single tone (dual-frequency) for playback.
#[derive(Debug, Clone, Copy)]
pub struct ToneDesc {
    /// First frequency in Hz (0 to disable).
    pub freq1: i16,
    /// Second frequency in Hz (0 to disable).
    pub freq2: i16,
    /// Duration of the tone in milliseconds.
    pub on_ms: i16,
    /// Silence after the tone in milliseconds.
    pub off_ms: i16,
    /// Volume (0 = default).
    pub volume: i16,
}

/// Describes a single DTMF digit for playback.
#[derive(Debug, Clone, Copy)]
pub struct DtmfDigit {
    /// The digit character ('0'-'9', '*', '#', 'A'-'D').
    pub digit: char,
    /// Duration of the digit tone in milliseconds.
    pub on_ms: i16,
    /// Silence after the digit in milliseconds.
    pub off_ms: i16,
    /// Volume (0 = default).
    pub volume: i16,
}

/// Plain-value form of `pjmedia_tone_digit`.
#[derive(Debug, Clone, Copy, PartialEq, Eq, Structural)]
pub struct ToneDigitCode {
    /// The digit as a C `char`.
    pub digit: i8,
    pub on_msec: i16,
    pub off_msec: i16,
    pub volume: i16,
}

/// Plain-value form of `pjmedia_tone_desc`.
#[derive(Debug, Clone, Copy, PartialEq, Eq, Structural)]
pub struct ToneDescCode {
    pub freq1: i16,
    pub freq2: i16,
    pub on_msec: i16,
    pub off_msec: i16,
    pub volume: i16,
    pub flags: u32,
}

/// The native form of a DTMF digit: the character as a C `char` (its code
/// truncated to a byte), and its timings.
pub open spec fn digit_code(d: DtmfDigit) -> ToneDigitCode {
    ToneDigitCode { digit: (d.digit as u32) as i8, on_msec: d.on_ms, off_msec: d.off_ms, volume: d.volume }
}

/// The native form of a tone, with no flags.
pub open spec fn tone_code(t: ToneDesc) -> ToneDescCode {
    ToneDescCode {
        freq1: t.freq1,
        freq2: t.freq2,
        on_msec: t.on_ms,
        off_msec: t.off_ms,
        volume: t.volume,
        flags: 0,
    }
}

/// A DTMF digit reaches PJMEDIA as its ASCII code (every digit `0`-`9`,
/// `*`, `#`, `A`-`D` is ASCII) with its timings unchanged, and a tone with
/// its frequencies and timings unchanged and no flags.
pub proof fn law_tone_codes(d: DtmfDigit, t: ToneDesc)
    ensures
        (d.digit as u32) < 128 ==> digit_code(d).digit as int == d.digit as u32 as int,
        digit_code(d).on_msec == d.on_ms && digit_code(d).off_msec == d.off_ms
            && digit_code(d).volume == d.volume,
        tone_code(t).freq1 == t.freq1 && tone_code(t).freq2 == t.freq2,
        tone_code(t).on_msec == t.on_ms && tone_code(t).off_msec == t.off_ms,
        tone_code(t).volume == t.volume && tone_code(t).flags == 0,
{
    let c: u32 = d.digit as u32;
    assert(c < 128 ==> (c as i8) as int == c as int) by (bit_vector);
}

/// What `play_digits` hands to `pjmedia_tonegen_play_digits`: nothing for
/// an empty list (nothing is played and the call succeeds), else the digits
/// in order.
pub fn digits_to_play(digits: &[DtmfDigit]) -> (r: Option<Vec<ToneDigitCode>>)
    ensures
        digits@.len() == 0 ==> r is None,
        digits@.len() > 0 ==> (r matches Some(v) && v@.len() == digits@.len() && forall|i: int|
            0 <= i < digits@.len() ==> #[trigger] v@[i] == digit_code(digits@[i])),
{
    if digits.len() == 0 {
        return None;
    }
    let mut out: Vec<ToneDigitCode> = Vec::new();
    let mut i: usize = 0;
    while i < digits.len()
        invariant
            i <= digits@.len(),
            out@.len() == i,
            forall|j: int| 0 <= j < i ==> #[trigger] out@[j] == digit_code(digits@[j]),
        decreases digits@.len() - i,
    {
        let d = digits[i];
        out.push(ToneDigitCode {
            digit: (d.digit as u32) as i8,
            on_msec: d.on_ms,
            off_msec: d.off_ms,
            volume: d.volume,
        });
        i += 1;
    }
    Some(out)
}

/// What `play_tones` hands to `pjmedia_tonegen_play`: nothing for an empty
/// list (nothing is played and the call succeeds), else the tones in order.
pub fn tones_to_play(tones: &[ToneDesc]) -> (r: Option<Vec<ToneDescCode>>)
    ensures
        tones@.len() == 0 ==> r is None,
        tones@.len() > 0 ==> (r matches Some(v) && v@.len() == tones@.len() && forall|i: int|
            0 <= i < tones@.len() ==> #[trigger] v@[i] == tone_code(tones@[i])),
{
    if tones.len() == 0 {
        return None;
    }
    let mut out: Vec<ToneDescCode> = Vec::new();
    let mut i: usize = 0;
    while i < tones.len()
        invariant
            i <= tones@.len(),
            out@.len() == i,
            forall|j: int| 0 <= j < i ==> #[trigger] out@[j] == tone_code(tones@[j]),
        decreases tones@.len() - i,
    {
        let t = tones[i];
        out.push(ToneDescCode {
            freq1: t.freq1,
            freq2: t.freq2,
            on_msec: t.on_ms,
            off_msec: t.off_ms,
            volume: t.volume,
            flags: 0,
        });
        i += 1;
    }
    Some(out)
}

} // verus!
