//! The four fixed single-cycle wavetables and the selector that picks one.
//!
//! Each table holds exactly one period of a waveform, sampled as 256 signed
//! 8-bit values. The tables are immutable shared data: an oscillator never
//! copies or mutates them, it only reads one entry per output sample.

use vstd::prelude::*;

verus! {

/// Selects which of the four fixed wavetables an oscillator reads.
#[derive(Debug, Copy, Clone, PartialEq, Eq, Structural)]
pub enum Waveform {
    Sine,
    Sawtooth,
    Square,
    Noise,
}

/// A complete sine wave sampled as 256 signed 8-bit values.
pub const SINE_256: [i8; 256] = [
    0, 3, 6, 9, 12, 15, 18, 21, 24, 27, 30, 33, 36, 39, 42, 45, 48, 51, 54, 57, 59, 62, 65, 67,
    70, 73, 75, 78, 80, 82, 85, 87, 89, 91, 94, 96, 98, 100, 102, 103, 105, 107, 108, 110, 112,
    113, 114, 116, 117, 118, 119, 120, 121, 122, 123, 123, 124, 125, 125, 126, 126, 126, 126,
    126, 127, 126, 126, 126, 126, 126, 125, 125, 124, 123, 123, 122, 121, 120, 119, 118, 117,
    116, 114, 113, 112, 110, 108, 107, 105, 103, 102, 100, 98, 96, 94, 91, 89, 87, 85, 82, 80,
    78, 75, 73, 70, 67, 65, 62, 59, 57, 54, 51, 48, 45, 42, 39, 36, 33, 30, 27, 24, 21, 18, 15,
    12, 9, 6, 3, 0, -3, -6, -9, -12, -15, -18, -21, -24, -27, -30, -33, -36, -39, -42, -45, -48,
    -51, -54, -57, -59, -62, -65, -67, -70, -73, -75, -78, -80, -82, -85, -87, -89, -91, -94,
    -96, -98, -100, -102, -103, -105, -107, -108, -110, -112, -113, -114, -116, -117, -118, -119,
    -120, -121, -122, -123, -123, -124, -125, -125, -126, -126, -126, -126, -126, -127, -126,
    -126, -126, -126, -126, -125, -125, -124, -123, -123, -122, -121, -120, -119, -118, -117,
    -116, -114, -113, -112, -110, -108, -107, -105, -103, -102, -100, -98, -96, -94, -91, -89,
    -87, -85, -82, -80, -78, -75, -73, -70, -67, -65, -62, -59, -57, -54, -51, -48, -45, -42,
    -39, -36, -33, -30, -27, -24, -21, -18, -15, -12, -9, -6, -3,
];

/// A square wave sampled as 256 signed 8-bit values.
pub const SQUARE_256: [i8; 256] = [
    127, 127, 127, 127, 127, 127, 127, 127, 127, 127, 127, 127, 127, 127, 127, 127, 127, 127,
    127, 127, 127, 127, 127, 127, 127, 127, 127, 127, 127, 127, 127, 127, 127, 127, 127, 127,
    127, 127, 127, 127, 127, 127, 127, 127, 127, 127, 127, 127, 127, 127, 127, 127, 127, 127,
    127, 127, 127, 127, 127, 127, 127, 127, 127, 127, 127, 127, 127, 127, 127, 127, 127, 127,
    127, 127, 127, 127, 127, 127, 127, 127, 127, 127, 127, 127, 127, 127, 127, 127, 127, 127,
    127, 127, 127, 127, 127, 127, 127, 127, 127, 127, 127, 127, 127, 127, 127, 127, 127, 127,
    127, 127, 127, 127, 127, 127, 127, 127, 127, 127, 127, 127, 127, 127, 127, 127, 127, 127,
    127, 127, -127, -127, -127, -127, -127, -127, -127, -127, -127, -127, -127, -127, -127, -127,
    -127, -127, -127, -127, -127, -127, -127, -127, -127, -127, -127, -127, -127, -127, -127,
    -127, -127, -127, -127, -127, -127, -127, -127, -127, -127, -127, -127, -127, -127, -127,
    -127, -127, -127, -127, -127, -127, -127, -127, -127, -127, -127, -127, -127, -127, -127,
    -127, -127, -127, -127, -127, -127, -127, -127, -127, -127, -127, -127, -127, -127, -127,
    -127, -127, -127, -127, -127, -127, -127, -127, -127, -127, -127, -127, -127, -127, -127,
    -127, -127, -127, -127, -127, -127, -127, -127, -127, -127, -127, -127, -127, -127, -127,
    -127, -127, -127, -127, -127, -127, -127, -127, -127, -127, -127, -127, -127, -127, -127,
    -127, -127, -127, -127, -127, -127, -127, -127, -127,
];

/// Static white noise sampled as 256 signed 8-bit values.
pub const NOISE_256: [i8; 256] = [
    -63, -8, -26, -77, -14, 44, -42, 96, 114, -103, 78, 117, -127, 90, 94, 72, 75, -1, 81, -60,
    27, -90, -115, 49, 126, -123, -84, 89, -42, 84, 73, -123, -51, -90, 77, 105, -65, -57, -52,
    -128, -101, 32, 14, 126, -43, -101, 13, 20, 28, 92, -12, -94, 31, -103, -68, 76, 87, -92, 3,
    -60, 88, -99, 38, 8, 29, 87, -84, 43, -32, 61, -110, 41, 6, 2, -26, -102, -63, 100, 39, 13,
    -119, -55, -99, -84, 110, 5, -11, 58, -95, -35, -116, 115, 25, 78, -127, -5, -111, -58, -121,
    -128, 9, -98, 12, 97, 99, 117, 115, 50, 106, 6, -122, 89, -83, -7, -19, -87, -119, -108, -85,
    -105, 91, -84, -109, 64, -61, 58, -84, 49, -83, -52, 36, -84, 13, 68, 92, -74, 39, -3, 23,
    -23, 56, 18, 53, -20, 66, 54, 16, -91, 30, -90, -54, -106, 94, 56, -35, -41, 121, -66, 75,
    46, 120, -105, -48, -34, 120, 58, -48, 18, -87, -127, -32, -38, 12, 115, -62, 22, 87, 93,
    -51, 30, 29, -1, 109, -13, -61, 93, -79, 31, 0, 117, -86, -79, 66, -52, 81, 119, 5, -85, 90,
    125, 78, 123, -75, -70, -1, 122, -43, -55, 96, -106, 39, 50, -74, -125, -96, 57, -35, -29,
    17, 30, 5, -48, -24, 55, -102, -95, -85, 44, -84, -52, 4, -77, 98, 25, -117, 46, -75, 39,
    -52, 102, 113, 98, -88, -25, -121, 83, -9, 85, -35, 49, -89, -116, 66, -95, 99, -33,
];

/// A sawtooth wave sampled as 256 signed 8-bit values.
pub const SAWTOOTH_256: [i8; 256] = [
    -127, -127, -126, -125, -124, -123, -122, -121, -120, -119, -118, -117, -116, -115, -114,
    -113, -112, -111, -110, -109, -108, -107, -106, -105, -104, -103, -102, -101, -100, -99, -98,
    -97, -96, -95, -94, -93, -92, -91, -90, -89, -88, -87, -86, -85, -84, -83, -82, -81, -80,
    -79, -78, -77, -76, -75, -74, -73, -72, -71, -70, -69, -68, -67, -66, -65, -64, -63, -62,
    -61, -60, -59, -58, -57, -56, -55, -54, -53, -52, -51, -50, -49, -48, -47, -46, -45, -44,
    -43, -42, -41, -40, -39, -38, -37, -36, -35, -34, -33, -32, -31, -30, -29, -28, -27, -26,
    -25, -24, -23, -22, -21, -20, -19, -18, -17, -16, -15, -14, -13, -12, -11, -10, -9, -8, -7,
    -6, -5, -4, -3, -2, -1, 0, 1, 2, 3, 4, 5, 6, 7, 8, 9, 10, 11, 12, 13, 14, 15, 16, 17, 18, 19,
    20, 21, 22, 23, 24, 25, 26, 27, 28, 29, 30, 31, 32, 33, 34, 35, 36, 37, 38, 39, 40, 41, 42,
    43, 44, 45, 46, 47, 48, 49, 50, 51, 52, 53, 54, 55, 56, 57, 58, 59, 60, 61, 62, 63, 64, 65,
    66, 67, 68, 69, 70, 71, 72, 73, 74, 75, 76, 77, 78, 79, 80, 81, 82, 83, 84, 85, 86, 87, 88,
    89, 90, 91, 92, 93, 94, 95, 96, 97, 98, 99, 100, 101, 102, 103, 104, 105, 106, 107, 108, 109,
    110, 111, 112, 113, 114, 115, 116, 117, 118, 119, 120, 121, 122, 123, 124, 125, 126, 127,
];

/// The table entry an oscillator with waveform `w` reads at table index `i`.
pub open spec fn wave_entry(w: Waveform, i: int) -> i8 {
    match w {
        Waveform::Sine => SINE_256[i],
        Waveform::Sawtooth => SAWTOOTH_256[i],
        Waveform::Square => SQUARE_256[i],
        Waveform::Noise => NOISE_256[i],
    }
}

/// Reads one entry of the wavetable selected by `w`.
pub fn wave_lookup(w: Waveform, index: u8) -> (entry: i8)
    ensures
        entry == wave_entry(w, index as int),
{
    match w {
        Waveform::Sine => SINE_256[index as usize],
        Waveform::Sawtooth => SAWTOOTH_256[index as usize],
        Waveform::Square => SQUARE_256[index as usize],
        Waveform::Noise => NOISE_256[index as usize],
    }
}

} // verus!
