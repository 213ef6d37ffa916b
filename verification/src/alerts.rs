//! Threshold classifiers: from a reading to an alert level or a comfort band,
//! and from there to the colour the indicator should show.
//!
//! Readings arrive as IEEE-754 single-precision bit patterns. Each classifier
//! holds its boundaries in one ascending table and finds the band with a
//! single ordered lookup, so no band can be unreachable or covered twice.

use crate::ieee754::{
    is_below, is_nan, is_negative, lemma_denotes_integer, lemma_less_than_by_pattern,
    lemma_less_than_integer, lemma_less_than_is_strict, less_than, scaled, spec_is_finite,
    spec_less_than,
};
use crate::rgb_led::Color;
use vstd::arithmetic::power2::{lemma2_to64, pow2};
use vstd::prelude::*;

verus! {

/// Bit pattern of 1000: from here on the CO2 level is a warning.
pub const WARN_LIMIT: u32 = 0x447a_0000;

/// Bit pattern of 2000: from here on the CO2 level is critical.
pub const UPPER_LIMIT: u32 = 0x44fa_0000;

/// Bit pattern of 20: the lower edge of "crisp".
pub const CRISP_FROM: u32 = 0x41a0_0000;

/// Bit pattern of 22: the lower edge of "pleasant".
pub const PLEASANT_FROM: u32 = 0x41b0_0000;

/// Bit pattern of 24: the lower edge of "warm".
pub const WARM_FROM: u32 = 0x41c0_0000;

/// Bit pattern of 26: the lower edge of "hot".
pub const HOT_FROM: u32 = 0x41d0_0000;

/// Severity of a CO2 concentration.
#[derive(Clone, Copy, Debug, PartialEq, Eq, Structural)]
pub enum AlertLevel {
    /// Below 1000 ppm.
    Normal,
    /// From 1000 ppm, below 2000 ppm.
    Warning,
    /// 2000 ppm and above.
    Critical,
    /// The reading is not a number.
    Unknown,
}

/// How a room temperature feels.
#[derive(Clone, Copy, Debug, PartialEq, Eq, Structural)]
pub enum ComfortLevel {
    /// Below 20 degrees.
    Cold,
    /// From 20, below 22 degrees.
    Crisp,
    /// From 22, below 24 degrees.
    Pleasant,
    /// From 24, below 26 degrees.
    Warm,
    /// 26 degrees and above.
    Hot,
    /// The reading is not a number.
    Unknown,
}

/// The alert level of a CO2 reading in ppm.
pub open spec fn co2_level(co2: u32) -> AlertLevel {
    if is_nan(co2) {
        AlertLevel::Unknown
    } else if is_below(co2, 1000) {
        AlertLevel::Normal
    } else if is_below(co2, 2000) {
        AlertLevel::Warning
    } else {
        AlertLevel::Critical
    }
}

/// The comfort band of a temperature reading in degrees Celsius. Each band
/// includes its lower edge and excludes its upper edge.
pub open spec fn comfort_band(temperature: u32) -> ComfortLevel {
    if is_nan(temperature) {
        ComfortLevel::Unknown
    } else if is_below(temperature, 20) {
        ComfortLevel::Cold
    } else if is_below(temperature, 22) {
        ComfortLevel::Crisp
    } else if is_below(temperature, 24) {
        ComfortLevel::Pleasant
    } else if is_below(temperature, 26) {
        ComfortLevel::Warm
    } else {
        ComfortLevel::Hot
    }
}

/// The boundary constants are finite and denote the integers they are named
/// for.
pub proof fn lemma_boundary_values()
    ensures
        spec_is_finite(WARN_LIMIT) && scaled(WARN_LIMIT) == 1000 * pow2(149),
        spec_is_finite(UPPER_LIMIT) && scaled(UPPER_LIMIT) == 2000 * pow2(149),
        spec_is_finite(CRISP_FROM) && scaled(CRISP_FROM) == 20 * pow2(149),
        spec_is_finite(PLEASANT_FROM) && scaled(PLEASANT_FROM) == 22 * pow2(149),
        spec_is_finite(WARM_FROM) && scaled(WARM_FROM) == 24 * pow2(149),
        spec_is_finite(HOT_FROM) && scaled(HOT_FROM) == 26 * pow2(149),
{
    lemma2_to64();
    lemma_denotes_integer(WARN_LIMIT, 14, 1000);
    lemma_denotes_integer(UPPER_LIMIT, 13, 2000);
    lemma_denotes_integer(CRISP_FROM, 19, 20);
    lemma_denotes_integer(PLEASANT_FROM, 19, 22);
    lemma_denotes_integer(WARM_FROM, 19, 24);
    lemma_denotes_integer(HOT_FROM, 19, 26);
}

/// The alert level read off the bit pattern: a reading that is a number is
/// normal if its sign bit is set or its pattern is smaller than that of 1000,
/// a warning if its pattern is smaller than that of 2000, and critical
/// otherwise.
pub proof fn lemma_co2_level_by_pattern(co2: u32)
    ensures
        co2_level(co2) == if is_nan(co2) {
            AlertLevel::Unknown
        } else if is_negative(co2) || co2 < WARN_LIMIT {
            AlertLevel::Normal
        } else if co2 < UPPER_LIMIT {
            AlertLevel::Warning
        } else {
            AlertLevel::Critical
        },
{
    lemma_boundary_values();
    if !is_nan(co2) {
        lemma_less_than_integer(co2, WARN_LIMIT, 1000);
        lemma_less_than_integer(co2, UPPER_LIMIT, 2000);
        lemma_less_than_by_pattern(co2, WARN_LIMIT);
        lemma_less_than_by_pattern(co2, UPPER_LIMIT);
    }
}

/// The comfort band read off the bit pattern, in the same way.
pub proof fn lemma_comfort_band_by_pattern(temperature: u32)
    ensures
        comfort_band(temperature) == if is_nan(temperature) {
            ComfortLevel::Unknown
        } else if is_negative(temperature) || temperature < CRISP_FROM {
            ComfortLevel::Cold
        } else if temperature < PLEASANT_FROM {
            ComfortLevel::Crisp
        } else if temperature < WARM_FROM {
            ComfortLevel::Pleasant
        } else if temperature < HOT_FROM {
            ComfortLevel::Warm
        } else {
            ComfortLevel::Hot
        },
{
    lemma_boundary_values();
    if !is_nan(temperature) {
        lemma_less_than_integer(temperature, CRISP_FROM, 20);
        lemma_less_than_integer(temperature, PLEASANT_FROM, 22);
        lemma_less_than_integer(temperature, WARM_FROM, 24);
        lemma_less_than_integer(temperature, HOT_FROM, 26);
        lemma_less_than_by_pattern(temperature, CRISP_FROM);
        lemma_less_than_by_pattern(temperature, PLEASANT_FROM);
        lemma_less_than_by_pattern(temperature, WARM_FROM);
        lemma_less_than_by_pattern(temperature, HOT_FROM);
    }
}

/// The bands follow the order of the readings: a reading that is not below
/// another is in no lower band.
pub proof fn lemma_levels_are_monotonic(lower: u32, higher: u32)
    requires
        !is_nan(lower),
        !is_nan(higher),
        !spec_less_than(higher, lower),
    ensures
        co2_level(lower) == AlertLevel::Critical ==> co2_level(higher) == AlertLevel::Critical,
        co2_level(higher) == AlertLevel::Normal ==> co2_level(lower) == AlertLevel::Normal,
        comfort_rank(comfort_band(lower)) <= comfort_rank(comfort_band(higher)),
{
    lemma_co2_level_by_pattern(lower);
    lemma_co2_level_by_pattern(higher);
    lemma_comfort_band_by_pattern(lower);
    lemma_comfort_band_by_pattern(higher);
    lemma_less_than_by_pattern(higher, lower);
}

/// Position of a comfort band, from cold to hot.
pub open spec fn comfort_rank(level: ComfortLevel) -> nat {
    match level {
        ComfortLevel::Unknown => 0,
        ComfortLevel::Cold => 1,
        ComfortLevel::Crisp => 2,
        ComfortLevel::Pleasant => 3,
        ComfortLevel::Warm => 4,
        ComfortLevel::Hot => 5,
    }
}

/// Each boundary of the table lies below the next.
pub open spec fn is_ascending(boundaries: Seq<u32>) -> bool {
    forall|i: int, j: int|
        0 <= i < j < boundaries.len() ==> spec_less_than(
            #[trigger] boundaries[i],
            #[trigger] boundaries[j],
        )
}

/// `band` is where the lookup puts `reading`: at the first boundary that the
/// reading lies below, or past the table if there is none.
pub open spec fn is_band_of(band: int, reading: u32, boundaries: Seq<u32>) -> bool {
    &&& 0 <= band <= boundaries.len()
    &&& forall|j: int| 0 <= j < band ==> !spec_less_than(reading, #[trigger] boundaries[j])
    &&& band < boundaries.len() ==> spec_less_than(reading, boundaries[band])
}

/// In an ascending table the band of a reading splits the boundaries in two:
/// the reading lies below none of those before its band and below all of those
/// from its band on. So every reading that is a number is in exactly one band,
/// and no band is covered twice.
pub proof fn lemma_band_splits_table(band: int, reading: u32, boundaries: Seq<u32>)
    requires
        is_ascending(boundaries),
        is_band_of(band, reading, boundaries),
    ensures
        forall|j: int| 0 <= j < band ==> !spec_less_than(reading, #[trigger] boundaries[j]),
        forall|j: int|
            band <= j < boundaries.len() ==> spec_less_than(reading, #[trigger] boundaries[j]),
{
    assert forall|j: int| band <= j < boundaries.len() implies spec_less_than(
        reading,
        #[trigger] boundaries[j],
    ) by {
        if band < j {
            lemma_less_than_is_strict(reading, boundaries[band], boundaries[j]);
        }
    }
}

/// The tables of both classifiers are ascending.
pub proof fn lemma_tables_are_ascending()
    ensures
        is_ascending(seq![WARN_LIMIT, UPPER_LIMIT]),
        is_ascending(seq![CRISP_FROM, PLEASANT_FROM, WARM_FROM, HOT_FROM]),
{
    lemma_less_than_by_pattern(WARN_LIMIT, UPPER_LIMIT);
    lemma_less_than_by_pattern(CRISP_FROM, PLEASANT_FROM);
    lemma_less_than_by_pattern(CRISP_FROM, WARM_FROM);
    lemma_less_than_by_pattern(CRISP_FROM, HOT_FROM);
    lemma_less_than_by_pattern(PLEASANT_FROM, WARM_FROM);
    lemma_less_than_by_pattern(PLEASANT_FROM, HOT_FROM);
    lemma_less_than_by_pattern(WARM_FROM, HOT_FROM);
}

/// Finds the band of a reading in an ascending table of boundaries: the index
/// of the first boundary that the reading lies below, or the length of the
/// table if there is none.
pub fn band_index(reading: u32, boundaries: &[u32]) -> (band: usize)
    ensures
        is_band_of(band as int, reading, boundaries@),
{
    let mut band: usize = 0;
    while band < boundaries.len()
        invariant
            band <= boundaries@.len(),
            forall|j: int| 0 <= j < band ==> !spec_less_than(reading, #[trigger] boundaries@[j]),
        decreases boundaries@.len() - band,
    {
        if less_than(reading, boundaries[band]) {
            return band;
        }
        band += 1;
    }
    band
}

/// Classifies a CO2 reading in ppm.
pub fn check_levels(co2: u32) -> (level: AlertLevel)
    ensures
        level == co2_level(co2),
{
    if is_nan(co2) {
        return AlertLevel::Unknown;
    }
    let table: [u32; 2] = [WARN_LIMIT, UPPER_LIMIT];
    let band: usize = band_index(co2, table.as_slice());
    proof {
        lemma_boundary_values();
        lemma_less_than_integer(co2, WARN_LIMIT, 1000);
        lemma_less_than_integer(co2, UPPER_LIMIT, 2000);
    }
    if band == 0 {
        AlertLevel::Normal
    } else if band == 1 {
        AlertLevel::Warning
    } else {
        AlertLevel::Critical
    }
}

/// Classifies a temperature reading in degrees Celsius.
pub fn comfort_level(temperature: u32) -> (level: ComfortLevel)
    ensures
        level == comfort_band(temperature),
{
    if is_nan(temperature) {
        return ComfortLevel::Unknown;
    }
    let table: [u32; 4] = [CRISP_FROM, PLEASANT_FROM, WARM_FROM, HOT_FROM];
    let band: usize = band_index(temperature, table.as_slice());
    proof {
        lemma_boundary_values();
        lemma_less_than_integer(temperature, CRISP_FROM, 20);
        lemma_less_than_integer(temperature, PLEASANT_FROM, 22);
        lemma_less_than_integer(temperature, WARM_FROM, 24);
        lemma_less_than_integer(temperature, HOT_FROM, 26);
    }
    if band == 0 {
        ComfortLevel::Cold
    } else if band == 1 {
        ComfortLevel::Crisp
    } else if band == 2 {
        ComfortLevel::Pleasant
    } else if band == 3 {
        ComfortLevel::Warm
    } else {
        ComfortLevel::Hot
    }
}

impl AlertLevel {
    /// The colour that signals the level. A reading that is not a number has
    /// no level to signal, and so no colour.
    pub open spec fn spec_indicator(self) -> Option<Color> {
        match self {
            AlertLevel::Normal => Some(Color::Green),
            AlertLevel::Warning => Some(Color::Yellow),
            AlertLevel::Critical => Some(Color::Red),
            AlertLevel::Unknown => None,
        }
    }

    /// Returns the colour that signals the level, if there is one.
    #[verifier::when_used_as_spec(spec_indicator)]
    pub fn indicator(self) -> (color: Option<Color>)
        ensures
            color == self.spec_indicator(),
    {
        match self {
            AlertLevel::Normal => Some(Color::Green),
            AlertLevel::Warning => Some(Color::Yellow),
            AlertLevel::Critical => Some(Color::Red),
            AlertLevel::Unknown => None,
        }
    }

    /// Tells whether the level calls for the audible alarm: only a critical
    /// one does.
    pub fn sounds_alarm(self) -> (alarm: bool)
        ensures
            alarm == (self == AlertLevel::Critical),
    {
        match self {
            AlertLevel::Critical => true,
            _ => false,
        }
    }
}

impl ComfortLevel {
    /// The colour that signals the band. A reading that is not a number is in
    /// no band, and has no colour.
    pub open spec fn spec_indicator(self) -> Option<Color> {
        match self {
            ComfortLevel::Cold => Some(Color::Blue),
            ComfortLevel::Crisp => Some(Color::LightBlue),
            ComfortLevel::Pleasant => Some(Color::Green),
            ComfortLevel::Warm => Some(Color::Yellow),
            ComfortLevel::Hot => Some(Color::Red),
            ComfortLevel::Unknown => None,
        }
    }

    /// Returns the colour that signals the band, if there is one.
    #[verifier::when_used_as_spec(spec_indicator)]
    pub fn indicator(self) -> (color: Option<Color>)
        ensures
            color == self.spec_indicator(),
    {
        match self {
            ComfortLevel::Cold => Some(Color::Blue),
            ComfortLevel::Crisp => Some(Color::LightBlue),
            ComfortLevel::Pleasant => Some(Color::Green),
            ComfortLevel::Warm => Some(Color::Yellow),
            ComfortLevel::Hot => Some(Color::Red),
            ComfortLevel::Unknown => None,
        }
    }
}

/// Each level has a colour of its own, and so has each comfort band.
pub proof fn lemma_indicators_are_distinct(
    a: AlertLevel,
    b: AlertLevel,
    c: ComfortLevel,
    d: ComfortLevel,
)
    ensures
        a.spec_indicator() == b.spec_indicator() ==> a == b,
        c.spec_indicator() == d.spec_indicator() ==> c == d,
{
}

} // verus!
