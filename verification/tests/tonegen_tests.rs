use pjsua_rust::tonegen::{digits_to_play, tones_to_play, ToneDigitCode};
use pjsua_rust::{DtmfDigit, ToneDesc};

#[test]
fn tone_desc_construction() {
    let tone = ToneDesc { freq1: 440, freq2: 0, on_ms: 200, off_ms: 100, volume: 0 };
    assert_eq!(tone.freq1, 440);
}

#[test]
fn dtmf_digit_construction() {
    let digit = DtmfDigit { digit: '5', on_ms: 100, off_ms: 50, volume: 0 };
    assert_eq!(digit.digit, '5');
}

#[test]
fn dtmf_digit_all_valid_chars() {
    for ch in "0123456789*#ABCD".chars() {
        let d = DtmfDigit { digit: ch, on_ms: 100, off_ms: 50, volume: 0 };
        assert_eq!(d.digit, ch);
    }
}

#[test]
fn empty_requests_play_nothing() {
    assert!(digits_to_play(&[]).is_none());
    assert!(tones_to_play(&[]).is_none());
}

#[test]
fn digits_become_c_chars() {
    let digits = [
        DtmfDigit { digit: '1', on_ms: 100, off_ms: 50, volume: 0 },
        DtmfDigit { digit: '#', on_ms: 80, off_ms: 40, volume: 5 },
    ];
    let codes = digits_to_play(&digits).unwrap();
    assert_eq!(
        codes,
        vec![
            ToneDigitCode { digit: b'1' as i8, on_msec: 100, off_msec: 50, volume: 0 },
            ToneDigitCode { digit: b'#' as i8, on_msec: 80, off_msec: 40, volume: 5 },
        ]
    );
}

#[test]
fn tones_keep_order_and_clear_flags() {
    let tones = [
        ToneDesc { freq1: 350, freq2: 440, on_ms: 500, off_ms: 0, volume: 0 },
        ToneDesc { freq1: 440, freq2: 0, on_ms: 200, off_ms: 100, volume: 3 },
    ];
    let codes = tones_to_play(&tones).unwrap();
    assert_eq!(codes.len(), 2);
    assert_eq!(codes[0].freq1, 350);
    assert_eq!(codes[0].freq2, 440);
    assert_eq!(codes[1].on_msec, 200);
    assert_eq!(codes[1].off_msec, 100);
    assert_eq!(codes[1].volume, 3);
    assert!(codes.iter().all(|c| c.flags == 0));
}
