use vstd::prelude::*;

use crate::text::{
    all_digits, decimal, digits_value, find_char, first_index, is_digit, last_index,
    lemma_decimal_short, lemma_first_index, lemma_last_index, lemma_padded_digits, parse_digits,
    push_char, push_decimal, push_str, rfind_char, zero_padded,
};
use crate::time::{
    format_stamp, parse_stamp, stamp_instant, stamp_text, valid_stamp, valid_time, Seconds,
    Timestamp, DAY, MAX_TIME, MINUTE,
};

verus! {

pub type RadarId = u32;

/// The kinds of image a radar publishes: four ranges, Doppler wind and four rainfall
/// accumulations.
#[derive(Clone, Copy, Debug, PartialEq, Eq, Structural, PartialOrd, Ord, Hash)]
pub enum RadarType {
    SixtyFourKm,
    OneTwentyEightKm,
    TwoFiftySixKm,
    FiveTwelveKm,
    DopplerWind,
    AccumulatedFiveMin,
    AccumulatedOneHour,
    AccumulatedSinceNine,
    AccumulatedPreviousTwentyFour,
}

/// Why a file name could not be read as a radar image.
#[derive(Clone, Copy, Debug, PartialEq, Eq, Structural)]
pub enum FilenameError {
    /// The name does not have the dots of a radar image file.
    NotRadarImage,
    /// The character before the first dot names no radar type.
    InvalidRadarType(char),
    /// The radar number is not a number.
    InvalidRadarId,
    /// The timestamp is not a `YYYYMMDDHHMM` minute.
    InvalidTimestamp,
    /// The overlay name is not a known feature.
    InvalidFeature,
}

impl RadarType {
    pub open spec fn spec_id(self) -> char {
        match self {
            RadarType::FiveTwelveKm => '1',
            RadarType::TwoFiftySixKm => '2',
            RadarType::OneTwentyEightKm => '3',
            RadarType::SixtyFourKm => '4',
            RadarType::DopplerWind => 'I',
            RadarType::AccumulatedFiveMin => 'A',
            RadarType::AccumulatedOneHour => 'B',
            RadarType::AccumulatedSinceNine => 'C',
            RadarType::AccumulatedPreviousTwentyFour => 'D',
        }
    }

    pub open spec fn spec_from_id(c: char) -> Option<RadarType> {
        if c == '1' {
            Some(RadarType::FiveTwelveKm)
        } else if c == '2' {
            Some(RadarType::TwoFiftySixKm)
        } else if c == '3' {
            Some(RadarType::OneTwentyEightKm)
        } else if c == '4' {
            Some(RadarType::SixtyFourKm)
        } else if c == 'I' {
            Some(RadarType::DopplerWind)
        } else if c == 'A' {
            Some(RadarType::AccumulatedFiveMin)
        } else if c == 'B' {
            Some(RadarType::AccumulatedOneHour)
        } else if c == 'C' {
            Some(RadarType::AccumulatedSinceNine)
        } else if c == 'D' {
            Some(RadarType::AccumulatedPreviousTwentyFour)
        } else {
            None
        }
    }

    pub open spec fn spec_size(self) -> RadarType {
        match self {
            RadarType::DopplerWind | RadarType::AccumulatedFiveMin | RadarType::AccumulatedOneHour
            | RadarType::AccumulatedSinceNine | RadarType::AccumulatedPreviousTwentyFour => {
                RadarType::OneTwentyEightKm
            },
            _ => self,
        }
    }

    pub open spec fn spec_update_frequency(self) -> int {
        match self {
            RadarType::AccumulatedSinceNine => 15 * MINUTE,
            RadarType::AccumulatedPreviousTwentyFour => DAY as int,
            _ => 5 * MINUTE,
        }
    }

    pub open spec fn spec_check_after(self) -> int {
        match self {
            RadarType::AccumulatedSinceNine => 15 * MINUTE,
            RadarType::AccumulatedPreviousTwentyFour => 10 * MINUTE,
            _ => 2 * MINUTE,
        }
    }

    pub open spec fn spec_min_image_count(self) -> int {
        match self {
            RadarType::AccumulatedPreviousTwentyFour => 10,
            RadarType::AccumulatedSinceNine => 30,
            _ => 18,
        }
    }

    pub open spec fn spec_legend_type(self) -> RadarLegendType {
        match self {
            RadarType::SixtyFourKm | RadarType::OneTwentyEightKm | RadarType::TwoFiftySixKm
            | RadarType::FiveTwelveKm => RadarLegendType::Rainfall,
            RadarType::DopplerWind => RadarLegendType::DopplerWind,
            _ => RadarLegendType::AccumulatedRainfall,
        }
    }

    /// The radar type that a file-name character stands for.
    pub fn from_id(id: char) -> (r: Result<Self, FilenameError>)
        ensures
            r == (match Self::spec_from_id(id) {
                Some(t) => Ok(t),
                None => Err(FilenameError::InvalidRadarType(id)),
            }),
    {
        if id == '1' {
            Ok(RadarType::FiveTwelveKm)
        } else if id == '2' {
            Ok(RadarType::TwoFiftySixKm)
        } else if id == '3' {
            Ok(RadarType::OneTwentyEightKm)
        } else if id == '4' {
            Ok(RadarType::SixtyFourKm)
        } else if id == 'I' {
            Ok(RadarType::DopplerWind)
        } else if id == 'A' {
            Ok(RadarType::AccumulatedFiveMin)
        } else if id == 'B' {
            Ok(RadarType::AccumulatedOneHour)
        } else if id == 'C' {
            Ok(RadarType::AccumulatedSinceNine)
        } else if id == 'D' {
            Ok(RadarType::AccumulatedPreviousTwentyFour)
        } else {
            Err(FilenameError::InvalidRadarType(id))
        }
    }

    /// The character that stands for this type in file names.
    pub fn id(&self) -> (r: char)
        ensures
            r == self.spec_id(),
            Self::spec_from_id(r) == Some(*self),
    {
        match self {
            RadarType::FiveTwelveKm => '1',
            RadarType::TwoFiftySixKm => '2',
            RadarType::OneTwentyEightKm => '3',
            RadarType::SixtyFourKm => '4',
            RadarType::DopplerWind => 'I',
            RadarType::AccumulatedFiveMin => 'A',
            RadarType::AccumulatedOneHour => 'B',
            RadarType::AccumulatedSinceNine => 'C',
            RadarType::AccumulatedPreviousTwentyFour => 'D',
        }
    }

    /// The range whose overlays this type is drawn on: the accumulations and Doppler wind
    /// are drawn at 128 km.
    pub fn size(&self) -> (r: Self)
        ensures
            r == self.spec_size(),
    {
        match self {
            RadarType::DopplerWind | RadarType::AccumulatedFiveMin | RadarType::AccumulatedOneHour
            | RadarType::AccumulatedSinceNine | RadarType::AccumulatedPreviousTwentyFour => {
                RadarType::OneTwentyEightKm
            },
            _ => *self,
        }
    }

    /// Seconds between two images of this type.
    pub fn update_frequency(self) -> (r: Seconds)
        ensures
            r == self.spec_update_frequency(),
            0 < r <= DAY,
    {
        match self {
            RadarType::AccumulatedSinceNine => 15 * MINUTE,
            RadarType::AccumulatedPreviousTwentyFour => DAY,
            _ => 5 * MINUTE,
        }
    }

    /// How long after its timestamp an image can be expected to have been published.
    pub fn check_after(self) -> (r: Seconds)
        ensures
            r == self.spec_check_after(),
            0 < r <= 15 * MINUTE,
    {
        match self {
            RadarType::AccumulatedSinceNine => 15 * MINUTE,
            RadarType::AccumulatedPreviousTwentyFour => 10 * MINUTE,
            _ => 2 * MINUTE,
        }
    }

    /// How many images of this type are kept at least.
    pub fn min_image_count(self) -> (r: i32)
        ensures
            r == self.spec_min_image_count(),
            1 <= r <= 30,
    {
        match self {
            RadarType::AccumulatedPreviousTwentyFour => 10,
            RadarType::AccumulatedSinceNine => 30,
            _ => 18,
        }
    }

    /// The legend drawn under images of this type.
    pub fn legend_type(&self) -> (r: RadarLegendType)
        ensures
            r == self.spec_legend_type(),
    {
        match self {
            RadarType::SixtyFourKm | RadarType::OneTwentyEightKm | RadarType::TwoFiftySixKm
            | RadarType::FiveTwelveKm => RadarLegendType::Rainfall,
            RadarType::DopplerWind => RadarLegendType::DopplerWind,
            _ => RadarLegendType::AccumulatedRainfall,
        }
    }
}

#[derive(Clone, Copy, Debug, PartialEq, Eq, Structural)]
pub enum RadarLegendType {
    Rainfall,
    AccumulatedRainfall,
    DopplerWind,
}

impl RadarLegendType {
    pub open spec fn spec_id(self) -> u8 {
        match self {
            RadarLegendType::Rainfall => 0,
            RadarLegendType::AccumulatedRainfall => 1,
            RadarLegendType::DopplerWind => 2,
        }
    }

    /// The number of this legend in the bureau's file names.
    pub fn id(&self) -> (r: u8)
        ensures
            r == self.spec_id(),
    {
        match self {
            RadarLegendType::Rainfall => 0,
            RadarLegendType::AccumulatedRainfall => 1,
            RadarLegendType::DopplerWind => 2,
        }
    }
}

/// A static legend that serves as the base layer for a radar image.
#[derive(Clone, Debug)]
pub struct RadarImageLegend {
    pub legend_type: RadarLegendType,
    pub png_buf: Vec<u8>,
}

/// The geographic overlays, in the order in which they are stacked.
#[derive(Clone, Copy, Debug, PartialEq, Eq, Structural)]
pub enum RadarImageFeature {
    Background,
    Topography,
    Range,
    Waterways,
    Roads,
    ForecastDistricts,
    Rail,
    Catchments,
    Locations,
}

impl RadarImageFeature {
    pub open spec fn spec_name(self) -> Seq<char> {
        match self {
            RadarImageFeature::Background => "background"@,
            RadarImageFeature::Topography => "topography"@,
            RadarImageFeature::Range => "range"@,
            RadarImageFeature::Waterways => "waterways"@,
            RadarImageFeature::Roads => "roads"@,
            RadarImageFeature::ForecastDistricts => "wthrDistricts"@,
            RadarImageFeature::Rail => "rail"@,
            RadarImageFeature::Catchments => "catchments"@,
            RadarImageFeature::Locations => "locations"@,
        }
    }

    /// Features drawn under the radar data rather than over it.
    pub open spec fn spec_is_base(self) -> bool {
        self == RadarImageFeature::Background || self == RadarImageFeature::Topography
    }

    /// The feature's name in file names.
    pub fn name(&self) -> (r: &'static str)
        ensures
            r@ == self.spec_name(),
    {
        match self {
            RadarImageFeature::Background => "background",
            RadarImageFeature::Topography => "topography",
            RadarImageFeature::Range => "range",
            RadarImageFeature::Waterways => "waterways",
            RadarImageFeature::Roads => "roads",
            RadarImageFeature::ForecastDistricts => "wthrDistricts",
            RadarImageFeature::Rail => "rail",
            RadarImageFeature::Catchments => "catchments",
            RadarImageFeature::Locations => "locations",
        }
    }

    /// Whether the feature is painted under the legend's data rather than over it.
    pub fn is_base(&self) -> (r: bool)
        ensures
            r == self.spec_is_base(),
    {
        match self {
            RadarImageFeature::Background | RadarImageFeature::Topography => true,
            _ => false,
        }
    }

    /// Every feature, in stacking order.
    pub fn all() -> (r: Vec<RadarImageFeature>)
        ensures
            r@ == seq![
                RadarImageFeature::Background,
                RadarImageFeature::Topography,
                RadarImageFeature::Range,
                RadarImageFeature::Waterways,
                RadarImageFeature::Roads,
                RadarImageFeature::ForecastDistricts,
                RadarImageFeature::Rail,
                RadarImageFeature::Catchments,
                RadarImageFeature::Locations,
            ],
    {
        let r = vec![
            RadarImageFeature::Background,
            RadarImageFeature::Topography,
            RadarImageFeature::Range,
            RadarImageFeature::Waterways,
            RadarImageFeature::Roads,
            RadarImageFeature::ForecastDistricts,
            RadarImageFeature::Rail,
            RadarImageFeature::Catchments,
            RadarImageFeature::Locations,
        ];
        assert(r@ =~= seq![
            RadarImageFeature::Background,
            RadarImageFeature::Topography,
            RadarImageFeature::Range,
            RadarImageFeature::Waterways,
            RadarImageFeature::Roads,
            RadarImageFeature::ForecastDistricts,
            RadarImageFeature::Rail,
            RadarImageFeature::Catchments,
            RadarImageFeature::Locations,
        ]);
        r
    }

    /// The feature whose file name is `s[from..to]`.
    pub fn from_name(s: &str, from: usize, to: usize) -> (r: Option<RadarImageFeature>)
        requires
            from <= to <= s@.len(),
        ensures
            r == feature_of_name(s@.subrange(from as int, to as int)),
    {
        let all = Self::all();
        let mut i: usize = 0;
        while i < all.len()
            invariant
                from <= to <= s@.len(),
                i <= all@.len(),
                all@.len() == 9,
                all@ == seq![
                    RadarImageFeature::Background,
                    RadarImageFeature::Topography,
                    RadarImageFeature::Range,
                    RadarImageFeature::Waterways,
                    RadarImageFeature::Roads,
                    RadarImageFeature::ForecastDistricts,
                    RadarImageFeature::Rail,
                    RadarImageFeature::Catchments,
                    RadarImageFeature::Locations,
                ],
                forall|j: int| 0 <= j < i ==> all@[j].spec_name() != s@.subrange(from as int, to as int),
            decreases all@.len() - i,
        {
            let f = all[i];
            if substring_equals(s, from, to, f.name()) {
                return Some(f);
            }
            i = i + 1;
        }
        None
    }
}

/// The feature named `n`, trying the features in stacking order.
pub open spec fn feature_of_name(n: Seq<char>) -> Option<RadarImageFeature> {
    if n == RadarImageFeature::Background.spec_name() {
        Some(RadarImageFeature::Background)
    } else if n == RadarImageFeature::Topography.spec_name() {
        Some(RadarImageFeature::Topography)
    } else if n == RadarImageFeature::Range.spec_name() {
        Some(RadarImageFeature::Range)
    } else if n == RadarImageFeature::Waterways.spec_name() {
        Some(RadarImageFeature::Waterways)
    } else if n == RadarImageFeature::Roads.spec_name() {
        Some(RadarImageFeature::Roads)
    } else if n == RadarImageFeature::ForecastDistricts.spec_name() {
        Some(RadarImageFeature::ForecastDistricts)
    } else if n == RadarImageFeature::Rail.spec_name() {
        Some(RadarImageFeature::Rail)
    } else if n == RadarImageFeature::Catchments.spec_name() {
        Some(RadarImageFeature::Catchments)
    } else if n == RadarImageFeature::Locations.spec_name() {
        Some(RadarImageFeature::Locations)
    } else {
        None
    }
}

/// Whether `s[from..to]` is exactly `t`.
pub fn substring_equals(s: &str, from: usize, to: usize, t: &str) -> (r: bool)
    requires
        from <= to <= s@.len(),
    ensures
        r == (s@.subrange(from as int, to as int) == t@),
{
    let n = t.unicode_len();
    if to - from != n {
        return false;
    }
    let mut i: usize = 0;
    while i < n
        invariant
            n == t@.len(),
            to - from == n,
            from <= to <= s@.len(),
            i <= n,
            forall|j: int| 0 <= j < i ==> s@[from + j] == t@[j],
        decreases n - i,
    {
        if s.get_char(from + i) != t.get_char(i) {
            assert(s@.subrange(from as int, to as int)[i as int] != t@[i as int]);
            return false;
        }
        i = i + 1;
    }
    assert(s@.subrange(from as int, to as int) =~= t@);
    true
}

/// The dots that split a radar file name: the first and the last, which must differ.
pub open spec fn dot_indices(s: Seq<char>) -> Option<(int, int)> {
    match (first_index(s, '.'), last_index(s, '.')) {
        (Some(f), Some(l)) => if f != l && f >= 4 {
            Some((f, l))
        } else {
            None
        },
        _ => None,
    }
}

/// The radar number of a file name whose first dot is at `f`: the digits from the fourth
/// character up to the type character.
pub open spec fn radar_id_of(s: Seq<char>, f: int) -> Option<RadarId> {
    let t = s.subrange(3, f - 1);
    if t.len() > 0 && all_digits(t) && digits_value(t) <= u32::MAX {
        Some(digits_value(t) as RadarId)
    } else {
        None
    }
}

/// What a data-layer file name such as `IDR023.T.202311130334.png` says: the radar,
/// the type and the instant.
pub open spec fn decode_data_layer(s: Seq<char>) -> Result<(RadarId, RadarType, int), FilenameError> {
    match dot_indices(s) {
        None => Err(FilenameError::NotRadarImage),
        Some((f, l)) => if f + 3 > l {
            Err(FilenameError::NotRadarImage)
        } else {
            let stamp = s.subrange(f + 3, l);
            if !valid_stamp(stamp) {
                Err(FilenameError::InvalidTimestamp)
            } else {
                match RadarType::spec_from_id(s[f - 1]) {
                    None => Err(FilenameError::InvalidRadarType(s[f - 1])),
                    Some(t) => match radar_id_of(s, f) {
                        None => Err(FilenameError::InvalidRadarId),
                        Some(id) => Ok((id, t, stamp_instant(stamp))),
                    },
                }
            }
        },
    }
}

/// What a feature-layer file name such as `IDR023.catchments.png` says: the radar, the
/// range and the feature.
pub open spec fn decode_feature_layer(s: Seq<char>) -> Result<
    (RadarId, RadarType, RadarImageFeature),
    FilenameError,
> {
    match dot_indices(s) {
        None => Err(FilenameError::NotRadarImage),
        Some((f, l)) => match feature_of_name(s.subrange(f + 1, l)) {
            None => Err(FilenameError::InvalidFeature),
            Some(feature) => match RadarType::spec_from_id(s[f - 1]) {
                None => Err(FilenameError::InvalidRadarType(s[f - 1])),
                Some(t) => match radar_id_of(s, f) {
                    None => Err(FilenameError::InvalidRadarId),
                    Some(id) => Ok((id, t, feature)),
                },
            },
        },
    }
}

/// The common start of a radar's file names for one type: `IDR`, the radar number with
/// at least two digits, and the type character.
pub open spec fn name_prefix(id: RadarId, t: RadarType) -> Seq<char> {
    seq!['I', 'D', 'R'] + zero_padded(decimal(id as nat), 2) + seq![t.spec_id()]
}

/// The file name of a data layer with the given stamp.
pub open spec fn data_layer_text(id: RadarId, t: RadarType, stamp: Seq<char>) -> Seq<char> {
    name_prefix(id, t) + seq!['.', 'T', '.'] + stamp + seq!['.', 'p', 'n', 'g']
}

/// The file name of a data layer taken at `datetime`.
pub open spec fn data_layer_name(id: RadarId, t: RadarType, datetime: int) -> Seq<char> {
    data_layer_text(id, t, stamp_text(datetime))
}

/// The file name of a feature layer.
pub open spec fn feature_layer_name(id: RadarId, t: RadarType, f: RadarImageFeature) -> Seq<char> {
    name_prefix(id, t) + seq!['.'] + f.spec_name() + seq!['.', 'p', 'n', 'g']
}

/// Splits a radar file name at its first and last dot.
fn dot_positions(name: &str) -> (r: Option<(usize, usize)>)
    ensures
        r matches Some((f, l)) ==> dot_indices(name@) == Some((f as int, l as int)) && 4 <= f < l
            < name@.len(),
        r is None ==> dot_indices(name@) is None,
{
    let first = find_char(name, '.');
    let last = rfind_char(name, '.');
    match (first, last) {
        (Some(f), Some(l)) => {
            if f != l && f >= 4 {
                Some((f, l))
            } else {
                None
            }
        },
        _ => None,
    }
}

/// The radar number in `name`, whose first dot is at `f`.
fn parse_radar_id(name: &str, f: usize) -> (r: Option<RadarId>)
    requires
        4 <= f <= name@.len(),
    ensures
        r == radar_id_of(name@, f as int),
{
    proof {
        if all_digits(name@.subrange(3, f - 1)) {
            crate::text::lemma_digits_nonneg(name@.subrange(3, f - 1));
        }
    }
    match parse_digits(name, 3, f - 1, 4294967295) {
        Some(v) => Some(v as RadarId),
        None => None,
    }
}

/// Writes the start of a radar's file names.
pub fn push_name_prefix(s: &mut String, id: RadarId, t: RadarType)
    ensures
        final(s)@ == old(s)@ + name_prefix(id, t),
{
    push_char(s, 'I');
    push_char(s, 'D');
    push_char(s, 'R');
    push_decimal(s, id as u64, 2);
    push_char(s, t.id());
    assert(final(s)@ =~= old(s)@ + name_prefix(id, t));
}

/// The common start of a radar's file names for one type.
pub fn name_prefix_of(id: RadarId, t: RadarType) -> (r: String)
    ensures
        r@ == name_prefix(id, t),
{
    let mut s = String::new();
    push_name_prefix(&mut s, id, t);
    assert(s@ =~= name_prefix(id, t));
    s
}

/// The file name of a data layer taken at `datetime`.
///
/// Reading the name back gives the radar, the type and `datetime` again, for radars
/// numbered below 100 and instants on the minute.
pub fn data_layer_filename(radar_id: RadarId, radar_type: RadarType, datetime: Timestamp) -> (r:
    String)
    requires
        valid_time(datetime as int),
    ensures
        r@ == data_layer_name(radar_id, radar_type, datetime as int),
        radar_id <= 99 && datetime % MINUTE == 0 ==> decode_data_layer(r@) == Ok::<_, FilenameError>(
            (radar_id, radar_type, datetime as int),
        ),
{
    let mut s = String::new();
    push_name_prefix(&mut s, radar_id, radar_type);
    push_char(&mut s, '.');
    push_char(&mut s, 'T');
    push_char(&mut s, '.');
    let stamp = format_stamp(datetime);
    push_str(&mut s, stamp.as_str());
    push_char(&mut s, '.');
    push_char(&mut s, 'p');
    push_char(&mut s, 'n');
    push_char(&mut s, 'g');
    assert(s@ =~= data_layer_text(radar_id, radar_type, stamp@));
    proof {
        if radar_id <= 99 && datetime % MINUTE == 0 {
            lemma_decode_data_layer_text(radar_id, radar_type, stamp@);
        }
    }
    s
}

/// The file name of an animation of a radar's frames taken from `first` to `last`, such as
/// `IDR023.T.202311130334-202311130529.png`.
pub fn animation_filename(
    radar_id: RadarId,
    radar_type: RadarType,
    first: Timestamp,
    last: Timestamp,
) -> (r: String)
    requires
        valid_time(first as int),
        valid_time(last as int),
    ensures
        r@ == name_prefix(radar_id, radar_type) + seq!['.', 'T', '.'] + stamp_text(first as int)
            + seq!['-'] + stamp_text(last as int) + seq!['.', 'p', 'n', 'g'],
{
    let mut s = String::new();
    push_name_prefix(&mut s, radar_id, radar_type);
    push_char(&mut s, '.');
    push_char(&mut s, 'T');
    push_char(&mut s, '.');
    let start = format_stamp(first);
    push_str(&mut s, start.as_str());
    push_char(&mut s, '-');
    let end = format_stamp(last);
    push_str(&mut s, end.as_str());
    push_char(&mut s, '.');
    push_char(&mut s, 'p');
    push_char(&mut s, 'n');
    push_char(&mut s, 'g');
    assert(s@ =~= name_prefix(radar_id, radar_type) + seq!['.', 'T', '.'] + stamp_text(first as int)
        + seq!['-'] + stamp_text(last as int) + seq!['.', 'p', 'n', 'g']);
    s
}

/// The file name of a feature layer.
pub fn feature_layer_filename(radar_id: RadarId, size: RadarType, feature: RadarImageFeature) -> (r:
    String)
    ensures
        r@ == feature_layer_name(radar_id, size, feature),
{
    let mut s = String::new();
    push_name_prefix(&mut s, radar_id, size);
    push_char(&mut s, '.');
    push_str(&mut s, feature.name());
    push_char(&mut s, '.');
    push_char(&mut s, 'p');
    push_char(&mut s, 'n');
    push_char(&mut s, 'g');
    assert(s@ =~= feature_layer_name(radar_id, size, feature));
    s
}

/// Reading back a data-layer name built from a valid stamp gives its parts.
pub proof fn lemma_decode_data_layer_text(id: RadarId, t: RadarType, stamp: Seq<char>)
    requires
        id <= 99,
        valid_stamp(stamp),
    ensures
        decode_data_layer(data_layer_text(id, t, stamp)) == Ok::<_, FilenameError>((id, t, stamp_instant(stamp))),
{
    reveal(valid_stamp);
    let s = data_layer_text(id, t, stamp);
    lemma_decimal_short(id as nat);
    lemma_padded_digits(id as nat, 2);
    let digits = zero_padded(decimal(id as nat), 2);
    assert(digits.len() == 2);
    assert(s.len() == 13 + stamp.len());
    assert(s.len() == 25);
    assert(s.subrange(3, 5) =~= digits);
    assert(s.subrange(9, 21) =~= stamp);
    assert(s[5] == t.spec_id());
    assert(s[6] == '.');
    assert(s[21] == '.');
    assert forall|j: int| 0 <= j < 6 implies s[j] != '.' by {
        if 3 <= j < 5 {
            assert(is_digit(digits[j - 3]));
        }
    }
    assert forall|j: int| 21 < j < 25 implies s[j] != '.' by {}
    lemma_first_index(s, '.', 6);
    lemma_last_index(s, '.', 21);
    assert(RadarType::spec_from_id(t.spec_id()) == Some(t));
}

/// A static layer that overlays geographical information onto a radar image.
#[derive(Clone, Debug)]
pub struct RadarImageFeatureLayer {
    pub feature: RadarImageFeature,
    pub size: RadarType,
    pub radar_id: RadarId,
    pub png_buf: Vec<u8>,
    pub filename: String,
}

impl RadarImageFeatureLayer {
    /// Reads a feature-layer file name; the image is left empty.
    #[verifier::rlimit(50)]
    pub fn from_filename(name: &str) -> (r: Result<Self, FilenameError>)
        ensures
            match r {
                Ok(layer) => decode_feature_layer(name@) == Ok::<_, FilenameError>(
                    (layer.radar_id, layer.size, layer.feature),
                ) && layer.filename@ == name@ && layer.png_buf@.len() == 0,
                Err(e) => decode_feature_layer(name@) == Err::<
                    (RadarId, RadarType, RadarImageFeature),
                    FilenameError,
                >(e),
            },
    {
        let (first, last) = match dot_positions(name) {
            Some(p) => p,
            None => return Err(FilenameError::NotRadarImage),
        };
        let feature = match RadarImageFeature::from_name(name, first + 1, last) {
            Some(f) => f,
            None => return Err(FilenameError::InvalidFeature),
        };
        let size = RadarType::from_id(name.get_char(first - 1))?;
        let radar_id = match parse_radar_id(name, first) {
            Some(id) => id,
            None => return Err(FilenameError::InvalidRadarId),
        };
        Ok(RadarImageFeatureLayer {
            feature,
            size,
            radar_id,
            png_buf: Vec::new(),
            filename: crate::text::string_of(name),
        })
    }
}

/// One radar sweep: the data drawn over the legend and under the overlays.
#[derive(Clone, Debug)]
pub struct RadarImageDataLayer {
    pub radar_type: RadarType,
    pub png_buf: Vec<u8>,
    pub radar_id: RadarId,
    pub datetime: Timestamp,
    pub filename: String,
}

impl RadarImageDataLayer {
    /// Whether the layer's file name names its radar, type and instant.
    pub open spec fn named(&self) -> bool {
        decode_data_layer(self.filename@) == Ok::<_, FilenameError>((self.radar_id, self.radar_type, self.datetime as int))
    }

    pub open spec fn spec_next_datetime(&self) -> int {
        self.datetime + self.radar_type.spec_update_frequency()
    }

    /// Reads a data-layer file name; the image is left empty.
    #[verifier::rlimit(50)]
    pub fn from_filename(name: &str) -> (r: Result<Self, FilenameError>)
        ensures
            match r {
                Ok(layer) => decode_data_layer(name@) == Ok::<_, FilenameError>(
                    (layer.radar_id, layer.radar_type, layer.datetime as int),
                ) && layer.filename@ == name@ && layer.png_buf@.len() == 0 && layer.named(),
                Err(e) => decode_data_layer(name@) == Err::<(RadarId, RadarType, int), FilenameError>(
                    e,
                ),
            },
    {
        let (first, last) = match dot_positions(name) {
            Some(p) => p,
            None => return Err(FilenameError::NotRadarImage),
        };
        if last - first < 3 {
            return Err(FilenameError::NotRadarImage);
        }
        let datetime = match parse_stamp_at(name, first + 3, last) {
            Some(t) => t,
            None => return Err(FilenameError::InvalidTimestamp),
        };
        let radar_type = RadarType::from_id(name.get_char(first - 1))?;
        let radar_id = match parse_radar_id(name, first) {
            Some(id) => id,
            None => return Err(FilenameError::InvalidRadarId),
        };
        let filename = crate::text::string_of(name);
        Ok(RadarImageDataLayer { radar_type, png_buf: Vec::new(), radar_id, datetime, filename })
    }

    /// When the next image of this radar and type is taken.
    pub fn next_datetime(&self) -> (r: Timestamp)
        requires
            self.datetime <= MAX_TIME,
        ensures
            r == self.spec_next_datetime(),
    {
        self.datetime + self.radar_type.update_frequency()
    }

    /// The layer expected next: same radar and type, one period later, with no image yet.
    pub fn expected_next(&self) -> (r: Self)
        requires
            valid_time(self.spec_next_datetime()),
        ensures
            r.radar_id == self.radar_id,
            r.radar_type == self.radar_type,
            r.datetime == self.spec_next_datetime(),
            r.filename@ == data_layer_name(self.radar_id, self.radar_type, r.datetime as int),
            r.png_buf@.len() == 0,
            self.radar_id <= 99 && r.datetime % MINUTE == 0 ==> r.named(),
    {
        let datetime = self.next_datetime();
        RadarImageDataLayer {
            radar_id: self.radar_id,
            radar_type: self.radar_type,
            png_buf: Vec::new(),
            datetime,
            filename: data_layer_filename(self.radar_id, self.radar_type, datetime),
        }
    }

    /// The file name of the layer expected next.
    pub fn next_filename(&self) -> (r: String)
        requires
            valid_time(self.spec_next_datetime()),
        ensures
            r@ == data_layer_name(self.radar_id, self.radar_type, self.spec_next_datetime()),
    {
        data_layer_filename(self.radar_id, self.radar_type, self.next_datetime())
    }

    /// Layers are the same when their file names are.
    pub fn same_layer(&self, other: &Self) -> (r: bool)
        ensures
            r == (self.filename@ == other.filename@),
    {
        let n = self.filename.as_str().unicode_len();
        let r = substring_equals(self.filename.as_str(), 0, n, other.filename.as_str());
        assert(self.filename@.subrange(0, n as int) =~= self.filename@);
        r
    }
}

/// The instant of the stamp `s[from..to]`, if it is one.
fn parse_stamp_at(s: &str, from: usize, to: usize) -> (r: Option<Timestamp>)
    requires
        from <= to <= s@.len(),
    ensures
        r is Some <==> valid_stamp(s@.subrange(from as int, to as int)),
        r matches Some(t) ==> t as int == stamp_instant(s@.subrange(from as int, to as int)),
{
    if to - from != 12 {
        proof {
            reveal(valid_stamp);
        }
        return None;
    }
    let mut i: usize = from;
    while i < to
        invariant
            from <= i <= to <= s@.len(),
            forall|j: int| from <= j < i ==> is_digit(s@[j]),
        decreases to - i,
    {
        let c = s.get_char(i);
        if !('0' <= c && c <= '9') {
            proof {
                reveal(valid_stamp);
                assert(!is_digit(s@.subrange(from as int, to as int)[i - from]));
            }
            return None;
        }
        i = i + 1;
    }
    let stamp = s.substring_char(from, to);
    assert(all_digits(stamp@));
    parse_stamp(stamp)
}

} // verus!
