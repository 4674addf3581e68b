//! Signal-quality telemetry decoding for the SIM7600.
//!
//! The modem reports signal quality as two raw integer codes; these pure,
//! total functions map them to physical RSSI buckets and bit-error-rate
//! bands exactly as the modem's documented encoding prescribes.

use vstd::prelude::*;

verus! {

/// Bit Error Rate as a percentage
#[derive(Clone, Copy, Debug, PartialEq, Eq, Structural)]
pub enum BitErrorRate {
    /// < 0.01%
    LT001,
    /// 0.01% - 0.1%
    LT01,
    /// 0.1% - 0.5%
    LT05,
    /// 0.5% - 1%
    LT1,
    /// 1% - 2%
    LT2,
    /// 2% - 4%
    LT4,
    /// 4% - 8%
    LT8,
    /// >=8%
    GT8,
    /// unknown or undetectable
    Unknown,
}

/// The documented table: codes 0 through 7 name the eight percentage
/// bands; every other code decodes to `Unknown`.
pub open spec fn ber_spec(raw: int) -> BitErrorRate {
    if raw == 0 {
        BitErrorRate::LT001
    } else if raw == 1 {
        BitErrorRate::LT01
    } else if raw == 2 {
        BitErrorRate::LT05
    } else if raw == 3 {
        BitErrorRate::LT1
    } else if raw == 4 {
        BitErrorRate::LT2
    } else if raw == 5 {
        BitErrorRate::LT4
    } else if raw == 6 {
        BitErrorRate::LT8
    } else if raw == 7 {
        BitErrorRate::GT8
    } else {
        BitErrorRate::Unknown
    }
}

impl From<i32> for BitErrorRate {
    fn from(value: i32) -> (r: Self)
        ensures
            r == ber_spec(value as int),
    {
        match value {
            0 => Self::LT001,
            1 => Self::LT01,
            2 => Self::LT05,
            3 => Self::LT1,
            4 => Self::LT2,
            5 => Self::LT4,
            6 => Self::LT8,
            7 => Self::GT8,
            _ => Self::Unknown,
        }
    }
}

impl vstd::std_specs::convert::FromSpecImpl<i32> for BitErrorRate {
    open spec fn obeys_from_spec() -> bool {
        true
    }

    open spec fn from_spec(t: i32) -> BitErrorRate {
        ber_spec(t as int)
    }
}

/// The percentage band each variant stands for, as text.
pub open spec fn ber_text_spec(b: BitErrorRate) -> Seq<char> {
    match b {
        BitErrorRate::LT001 => "< 0.01%"@,
        BitErrorRate::LT01 => "0.01% - 0.1%"@,
        BitErrorRate::LT05 => "0.1% - 0.5%"@,
        BitErrorRate::LT1 => "0.5% - 1%"@,
        BitErrorRate::LT2 => "1% - 2%"@,
        BitErrorRate::LT4 => "2% - 4%"@,
        BitErrorRate::LT8 => "4% - 8%"@,
        BitErrorRate::GT8 => ">= 8%"@,
        BitErrorRate::Unknown => "Unknown"@,
    }
}

impl BitErrorRate {
    /// Text form of the band, e.g. `">= 8%"` for [`BitErrorRate::GT8`].
    pub fn describe(&self) -> (r: &'static str)
        ensures
            r@ == ber_text_spec(*self),
    {
        match *self {
            BitErrorRate::LT001 => "< 0.01%",
            BitErrorRate::LT01 => "0.01% - 0.1%",
            BitErrorRate::LT05 => "0.1% - 0.5%",
            BitErrorRate::LT1 => "0.5% - 1%",
            BitErrorRate::LT2 => "1% - 2%",
            BitErrorRate::LT4 => "2% - 4%",
            BitErrorRate::LT8 => "4% - 8%",
            BitErrorRate::GT8 => ">= 8%",
            BitErrorRate::Unknown => "Unknown",
        }
    }
}

/// Received Signal Strength Indication
#[derive(Clone, Copy, Debug, PartialEq, Eq, Structural)]
pub enum RSSI {
    /// -113 dBm or less
    DBMLT113,
    /// -111 dBm
    DBM111,
    /// -109 to -53 dBm
    DBM109_53(i32),
    /// -51 dBm or greater
    DBMGT51,
    /// not known or not detectable
    Unknown,
    /// -116 dBm or less
    DBMLT116,
    /// -115 dBm
    DBM115,
    /// -114 to -26 dBm
    DBM114_26(i32),
    /// -25 dBm or greater
    DBMGT25,
}

/// The documented piecewise decoding of the raw RSSI code.
///
/// Codes 2..=30 map linearly through the anchor points (2, -109) and
/// (30, -53), giving `dBm = 2 * raw - 113`. Codes 102..=191 use the
/// vendor's simplified table with the slope truncated to 1, giving
/// `dBm = raw - 216`. Every code outside the named ranges is `Unknown`.
pub open spec fn rssi_spec(raw: int) -> RSSI {
    if raw == 0 {
        RSSI::DBMLT113
    } else if raw == 1 {
        RSSI::DBM111
    } else if 2 <= raw && raw <= 30 {
        RSSI::DBM109_53((2 * raw - 113) as i32)
    } else if raw == 31 {
        RSSI::DBMGT51
    } else if raw == 99 {
        RSSI::Unknown
    } else if raw == 100 {
        RSSI::DBMLT116
    } else if raw == 101 {
        RSSI::DBM115
    } else if 102 <= raw && raw <= 191 {
        RSSI::DBM114_26((raw - 216) as i32)
    } else {
        RSSI::Unknown
    }
}

impl RSSI {
    /// Decode a raw RSSI code. Total over all of `i32`: codes outside the
    /// documented ranges (including every negative) decode to `Unknown`.
    pub fn parse(raw: i32) -> (r: RSSI)
        ensures
            r == rssi_spec(raw as int),
    {
        match raw {
            0 => Self::DBMLT113,
            1 => Self::DBM111,
            2..=30 => Self::DBM109_53(RSSI::map2_30_to_109_53(raw)),
            31 => Self::DBMGT51,
            99 => Self::Unknown,
            100 => Self::DBMLT116,
            101 => Self::DBM115,
            102..=191 => Self::DBM114_26(RSSI::map102_191_to_114_26(raw)),
            _ => Self::Unknown,
        }
    }

    /// Linear map through (2, -109) and (30, -53): slope 2, offset -113.
    fn map2_30_to_109_53(raw: i32) -> (r: i32)
        requires
            2 <= raw <= 30,
        ensures
            r == 2 * raw - 113,
    {
        (2 * raw) - 113
    }

    /// Vendor-simplified map anchored at (102, -114) with the slope
    /// truncated to 1 (the exact interpolated slope 88/89 is non-integral),
    /// so the upper end comes out at (191, -25): offset -216.
    fn map102_191_to_114_26(raw: i32) -> (r: i32)
        requires
            102 <= raw <= 191,
        ensures
            r == raw - 216,
    {
        raw - 216
    }
}

} // verus!
