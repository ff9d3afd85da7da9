//! Frequency-band classification of impulse events.
//!
//! The refined dominant frequency maps to a label through disjoint bands
//! with exact boundary policy: `[1900 Hz, 2800 Hz]` is band A,
//! `[700 Hz, 899 Hz)` band B, `[900 Hz, 1700 Hz)` band C, and everything
//! else — including the deliberate gaps `[899 Hz, 900 Hz)`, below 700 Hz
//! and above 2800 Hz — is unknown, never rounded to a neighbouring band.

use vstd::prelude::*;

verus! {

/// The band a detected impulse falls in.
#[derive(Clone, Copy, PartialEq, Eq, Structural, Debug)]
pub enum Classification {
    A,
    B,
    C,
    Unknown,
}

/// The band table over millihertz, with its half-open and closed ends
/// exactly as deployed.
pub open spec fn classify_spec(freq_mhz: int) -> Classification {
    if 1900000 <= freq_mhz && freq_mhz <= 2800000 {
        Classification::A
    } else if 700000 <= freq_mhz && freq_mhz < 899000 {
        Classification::B
    } else if 900000 <= freq_mhz && freq_mhz < 1700000 {
        Classification::C
    } else {
        Classification::Unknown
    }
}

/// The wire and display label of each band.
pub open spec fn label_spec(c: Classification) -> Seq<u8> {
    match c {
        Classification::A => seq![65u8],
        Classification::B => seq![66u8],
        Classification::C => seq![67u8],
        Classification::Unknown => seq![85u8, 78u8, 75u8, 78u8, 79u8, 87u8, 78u8],
    }
}

/// Classifies a refined dominant frequency, given in millihertz.
pub fn classify(frequency_mhz: u32) -> (c: Classification)
    ensures
        c == classify_spec(frequency_mhz as int),
{
    if 1900000 <= frequency_mhz && frequency_mhz <= 2800000 {
        Classification::A
    } else if 700000 <= frequency_mhz && frequency_mhz < 899000 {
        Classification::B
    } else if 900000 <= frequency_mhz && frequency_mhz < 1700000 {
        Classification::C
    } else {
        Classification::Unknown
    }
}

/// The label as bytes, `"A"`, `"B"`, `"C"` or `"UNKNOWN"` in ASCII.
pub fn label_bytes(c: Classification) -> (v: Vec<u8>)
    ensures
        v@ == label_spec(c),
{
    let mut v: Vec<u8> = Vec::new();
    match c {
        Classification::A => {
            v.push(65);
        },
        Classification::B => {
            v.push(66);
        },
        Classification::C => {
            v.push(67);
        },
        Classification::Unknown => {
            v.push(85);
            v.push(78);
            v.push(75);
            v.push(78);
            v.push(79);
            v.push(87);
            v.push(78);
        },
    }
    proof {
        assert(v@ =~= label_spec(c));
    }
    v
}

} // verus!
