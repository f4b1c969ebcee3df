//! Axis labels for a graph: what stands at the top, the middle and the
//! bottom of the value axis, and the unit they are given in.

use crate::text::{decimal, decimal_string, half_string, half_text, ratio_string, ratio_text};
use crate::units::{magnitude_divisor, magnitude_unit, GIGA_LIMIT, KILO_LIMIT, MEGA_LIMIT};
use vstd::prelude::*;
use vstd::string::StringExecFns;

verus! {

/// One hundred percent, in thousandths of a percent.
pub const FULL_PERCENTAGE: u64 = 100_000;

/// How a graph turns its ceiling into axis labels.
#[derive(Clone, Copy, Debug, PartialEq, Eq, Structural)]
pub enum LabelPolicy {
    /// The ceiling counts thousandths of a percent. Up to one hundred percent
    /// the axis reads 100 / 50 / 0; above, it follows the ceiling, rounded up
    /// to a whole percent.
    Percentage,
    /// The ceiling counts kilobytes. The axis picks kB, MB, GB or TB by the
    /// ceiling's size and gives top and middle in that one unit.
    ByteMagnitude,
    /// The ceiling counts bytes. It is taken in whole kilobytes and then
    /// shown as under `ByteMagnitude`.
    ByteCount,
    /// The ceiling counts thousandths of a degree Celsius.
    Temperature,
}

/// The four strings of a value axis.
pub struct AxisLabels {
    pub top: String,
    pub mid: String,
    pub bottom: String,
    pub unit: String,
}

/// The four strings of a value axis, as character sequences.
pub struct AxisText {
    pub top: Seq<char>,
    pub mid: Seq<char>,
    pub bottom: Seq<char>,
    pub unit: Seq<char>,
}

impl View for AxisLabels {
    type V = AxisText;

    open spec fn view(&self) -> AxisText {
        AxisText { top: self.top@, mid: self.mid@, bottom: self.bottom@, unit: self.unit@ }
    }
}

/// A percentage ceiling in whole percent, rounded up.
pub open spec fn whole_percent(ceiling: nat) -> nat {
    (ceiling + 999) / 1_000
}

/// The axis of a percentage graph.
pub open spec fn percentage_axis(ceiling: nat) -> AxisText {
    if ceiling > FULL_PERCENTAGE {
        AxisText {
            top: decimal(whole_percent(ceiling)),
            mid: decimal(whole_percent(ceiling) / 2),
            bottom: seq!['0'],
            unit: seq!['%'],
        }
    } else {
        AxisText {
            top: seq!['1', '0', '0'],
            mid: seq!['5', '0'],
            bottom: seq!['0'],
            unit: seq!['%'],
        }
    }
}

/// The axis of a graph of byte magnitudes, the ceiling given in kilobytes.
/// Below the first threshold top and middle are plain numbers; above it they
/// carry one fractional digit.
pub open spec fn magnitude_axis(ceiling: nat) -> AxisText {
    if ceiling < KILO_LIMIT {
        AxisText {
            top: decimal(ceiling),
            mid: half_text(ceiling),
            bottom: seq!['0'],
            unit: magnitude_unit(ceiling),
        }
    } else {
        AxisText {
            top: ratio_text(ceiling, magnitude_divisor(ceiling)),
            mid: ratio_text(ceiling, 2 * magnitude_divisor(ceiling)),
            bottom: seq!['0'],
            unit: magnitude_unit(ceiling),
        }
    }
}

/// The axis of a graph of byte counts: the ceiling, given in bytes, is
/// divided by one thousand and the whole kilobytes are shown as a byte
/// magnitude.
pub open spec fn byte_axis(ceiling: nat) -> AxisText {
    magnitude_axis(ceiling / 1_000)
}

/// The axis of a temperature graph.
pub open spec fn temperature_axis(ceiling: nat) -> AxisText {
    AxisText {
        top: ratio_text(ceiling, 1_000),
        mid: ratio_text(ceiling, 2_000),
        bottom: seq!['0'],
        unit: seq!['\u{b0}', 'C'],
    }
}

/// The axis that `policy` gives for `ceiling`.
pub open spec fn axis_text(policy: LabelPolicy, ceiling: nat) -> AxisText {
    match policy {
        LabelPolicy::Percentage => percentage_axis(ceiling),
        LabelPolicy::ByteMagnitude => magnitude_axis(ceiling),
        LabelPolicy::ByteCount => byte_axis(ceiling),
        LabelPolicy::Temperature => temperature_axis(ceiling),
    }
}

fn percentage_labels(ceiling: u64) -> (labels: AxisLabels)
    ensures
        labels@ == percentage_axis(ceiling as nat),
{
    proof {
        reveal_strlit("100");
        reveal_strlit("50");
        reveal_strlit("0");
        reveal_strlit("%");
    }
    let labels = if ceiling > FULL_PERCENTAGE {
        let rest: u64 = if ceiling % 1_000 != 0 {
            1
        } else {
            0
        };
        let whole: u64 = ceiling / 1_000 + rest;
        assert(whole == whole_percent(ceiling as nat));
        AxisLabels {
            top: decimal_string(whole),
            mid: decimal_string(whole / 2),
            bottom: String::from_str("0"),
            unit: String::from_str("%"),
        }
    } else {
        AxisLabels {
            top: String::from_str("100"),
            mid: String::from_str("50"),
            bottom: String::from_str("0"),
            unit: String::from_str("%"),
        }
    };
    assert(labels@.top =~= percentage_axis(ceiling as nat).top);
    assert(labels@.mid =~= percentage_axis(ceiling as nat).mid);
    assert(labels@.bottom =~= percentage_axis(ceiling as nat).bottom);
    assert(labels@.unit =~= percentage_axis(ceiling as nat).unit);
    labels
}

fn magnitude_labels(ceiling: u64) -> (labels: AxisLabels)
    ensures
        labels@ == magnitude_axis(ceiling as nat),
{
    proof {
        reveal_strlit("0");
        reveal_strlit("kB");
        reveal_strlit("MB");
        reveal_strlit("GB");
        reveal_strlit("TB");
    }
    let labels = if ceiling < KILO_LIMIT {
        AxisLabels {
            top: decimal_string(ceiling),
            mid: half_string(ceiling),
            bottom: String::from_str("0"),
            unit: String::from_str("kB"),
        }
    } else if ceiling < MEGA_LIMIT {
        AxisLabels {
            top: ratio_string(ceiling, 1_000),
            mid: ratio_string(ceiling, 2_000),
            bottom: String::from_str("0"),
            unit: String::from_str("MB"),
        }
    } else if ceiling < GIGA_LIMIT {
        AxisLabels {
            top: ratio_string(ceiling, 1_000_000),
            mid: ratio_string(ceiling, 2_000_000),
            bottom: String::from_str("0"),
            unit: String::from_str("GB"),
        }
    } else {
        AxisLabels {
            top: ratio_string(ceiling, 1_000_000_000),
            mid: ratio_string(ceiling, 2_000_000_000),
            bottom: String::from_str("0"),
            unit: String::from_str("TB"),
        }
    };
    assert(labels@.bottom =~= magnitude_axis(ceiling as nat).bottom);
    assert(labels@.unit =~= magnitude_axis(ceiling as nat).unit);
    labels
}

fn temperature_labels(ceiling: u64) -> (labels: AxisLabels)
    ensures
        labels@ == temperature_axis(ceiling as nat),
{
    proof {
        reveal_strlit("0");
        reveal_strlit("\u{b0}C");
    }
    let labels = AxisLabels {
        top: ratio_string(ceiling, 1_000),
        mid: ratio_string(ceiling, 2_000),
        bottom: String::from_str("0"),
        unit: String::from_str("\u{b0}C"),
    };
    assert(labels@.bottom =~= temperature_axis(ceiling as nat).bottom);
    assert(labels@.unit =~= temperature_axis(ceiling as nat).unit);
    labels
}

/// The axis labels that `policy` gives for `ceiling`.
pub fn axis_labels(policy: LabelPolicy, ceiling: u64) -> (labels: AxisLabels)
    ensures
        labels@ == axis_text(policy, ceiling as nat),
{
    match policy {
        LabelPolicy::Percentage => percentage_labels(ceiling),
        LabelPolicy::ByteMagnitude => magnitude_labels(ceiling),
        LabelPolicy::ByteCount => magnitude_labels(ceiling / 1_000),
        LabelPolicy::Temperature => temperature_labels(ceiling),
    }
}

} // verus!
