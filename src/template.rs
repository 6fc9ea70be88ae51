use vstd::prelude::*;

use crate::current::{push_tenths, tenths_text, text_or_empty, CurrentWeather};
use crate::radar::substring_equals;
use crate::text::{decimal, first_index, lemma_first_index, lemma_no_index, push_decimal, push_str, zero_padded};

verus! {

/// The placeholders a format string may use, each written as `{name}`.
#[derive(Clone, Copy, Debug, PartialEq, Eq, Structural)]
pub enum FstringKey {
    Temp,
    TempFeelsLike,
    Icon,
    NextTemp,
    NextLabel,
    LaterTemp,
    LaterLabel,
    MaxTemp,
    OvernightMin,
    TomorrowMax,
    RainSince9am,
    HourlyRainChance,
    HourlyRainMin,
    HourlyRainMax,
    TodayRainChance,
    TodayRainMin,
    TodayRainMax,
    ShortText,
    ExtendedText,
    WindSpeed,
    WindDirection,
    WindGust,
}

/// Why a format string could not be filled in.
#[derive(Clone, Debug)]
pub enum FormatError {
    /// A `{` without a `}` after it; holds the whole format string.
    InvalidFormatString(String),
    /// A placeholder that names no key; holds the name.
    InvalidKey(String),
}

impl FormatError {
    /// A sentence describing the error.
    pub fn message(&self) -> (r: String)
        ensures
            r@ == match self {
                FormatError::InvalidFormatString(f) => f@ + " is not a valid format string"@,
                FormatError::InvalidKey(k) => k@ + " is not a valid key"@,
            },
    {
        let mut s = String::new();
        match self {
            FormatError::InvalidFormatString(f) => {
                push_str(&mut s, f.as_str());
                push_str(&mut s, " is not a valid format string");
            },
            FormatError::InvalidKey(k) => {
                push_str(&mut s, k.as_str());
                push_str(&mut s, " is not a valid key");
            },
        }
        assert(s@ =~= match self {
            FormatError::InvalidFormatString(f) => f@ + " is not a valid format string"@,
            FormatError::InvalidKey(k) => k@ + " is not a valid key"@,
        });
        s
    }
}

/// Every key, in the order in which they are listed.
pub open spec fn all_keys() -> Seq<FstringKey> {
    seq![
        FstringKey::Temp,
        FstringKey::TempFeelsLike,
        FstringKey::Icon,
        FstringKey::NextTemp,
        FstringKey::NextLabel,
        FstringKey::LaterTemp,
        FstringKey::LaterLabel,
        FstringKey::MaxTemp,
        FstringKey::OvernightMin,
        FstringKey::TomorrowMax,
        FstringKey::RainSince9am,
        FstringKey::HourlyRainChance,
        FstringKey::HourlyRainMin,
        FstringKey::HourlyRainMax,
        FstringKey::TodayRainChance,
        FstringKey::TodayRainMin,
        FstringKey::TodayRainMax,
        FstringKey::ShortText,
        FstringKey::ExtendedText,
        FstringKey::WindSpeed,
        FstringKey::WindDirection,
        FstringKey::WindGust,
    ]
}

/// The first of `keys` whose name is `n`.
pub open spec fn first_named(keys: Seq<FstringKey>, n: Seq<char>) -> Option<FstringKey>
    decreases keys.len(),
{
    if keys.len() == 0 {
        None
    } else if keys[0].spec_name() == n {
        Some(keys[0])
    } else {
        first_named(keys.drop_first(), n)
    }
}

/// The key named `n`.
pub open spec fn key_of_name(n: Seq<char>) -> Option<FstringKey> {
    first_named(all_keys(), n)
}

impl FstringKey {
    pub open spec fn spec_name(self) -> Seq<char> {
        match self {
            FstringKey::Temp => "temp"@,
            FstringKey::TempFeelsLike => "temp_feels_like"@,
            FstringKey::Icon => "icon"@,
            FstringKey::NextTemp => "next_temp"@,
            FstringKey::NextLabel => "next_label"@,
            FstringKey::LaterTemp => "later_temp"@,
            FstringKey::LaterLabel => "later_label"@,
            FstringKey::MaxTemp => "max_temp"@,
            FstringKey::OvernightMin => "overnight_min"@,
            FstringKey::TomorrowMax => "tomorrow_max"@,
            FstringKey::RainSince9am => "rain_since_9am"@,
            FstringKey::HourlyRainChance => "hourly_rain_chance"@,
            FstringKey::HourlyRainMin => "hourly_rain_min"@,
            FstringKey::HourlyRainMax => "hourly_rain_max"@,
            FstringKey::TodayRainChance => "today_rain_chance"@,
            FstringKey::TodayRainMin => "today_rain_min"@,
            FstringKey::TodayRainMax => "today_rain_max"@,
            FstringKey::ShortText => "short_text"@,
            FstringKey::ExtendedText => "extended_text"@,
            FstringKey::WindSpeed => "wind_speed"@,
            FstringKey::WindDirection => "wind_direction"@,
            FstringKey::WindGust => "wind_gust"@,
        }
    }

    /// The text that replaces this key's placeholder.
    pub open spec fn spec_value(self, w: CurrentWeather) -> Seq<char> {
        match self {
            FstringKey::Temp => tenths_text(w.temp as int),
            FstringKey::TempFeelsLike => tenths_text(w.temp_feels_like as int),
            FstringKey::Icon => w.icon@,
            FstringKey::NextTemp => tenths_text(w.next_temp as int),
            FstringKey::NextLabel => w.next_label@,
            FstringKey::LaterTemp => tenths_text(w.later_temp as int),
            FstringKey::LaterLabel => w.later_label@,
            FstringKey::MaxTemp => tenths_text(w.max_temp as int),
            FstringKey::OvernightMin => tenths_text(w.overnight_min as int),
            FstringKey::TomorrowMax => tenths_text(w.tomorrow_max as int),
            FstringKey::RainSince9am => match w.rain_since_9am {
                Some(r) => tenths_text(r as int),
                None => seq!['?', '?'],
            },
            FstringKey::HourlyRainChance => decimal(w.hourly_rain_chance as nat),
            FstringKey::HourlyRainMin => decimal(w.hourly_rain_min as nat),
            FstringKey::HourlyRainMax => decimal(w.hourly_rain_max as nat),
            FstringKey::TodayRainChance => decimal(w.today_rain_chance as nat),
            FstringKey::TodayRainMin => decimal(w.today_rain_min as nat),
            FstringKey::TodayRainMax => decimal(w.today_rain_max as nat),
            FstringKey::ShortText => text_or_empty(w.short_text),
            FstringKey::ExtendedText => text_or_empty(w.extended_text),
            FstringKey::WindSpeed => decimal(w.wind_speed as nat),
            FstringKey::WindDirection => w.wind_direction@,
            FstringKey::WindGust => decimal(w.gust as nat),
        }
    }

    /// The key's name in format strings.
    pub fn name(&self) -> (r: &'static str)
        ensures
            r@ == self.spec_name(),
    {
        match self {
            FstringKey::Temp => "temp",
            FstringKey::TempFeelsLike => "temp_feels_like",
            FstringKey::Icon => "icon",
            FstringKey::NextTemp => "next_temp",
            FstringKey::NextLabel => "next_label",
            FstringKey::LaterTemp => "later_temp",
            FstringKey::LaterLabel => "later_label",
            FstringKey::MaxTemp => "max_temp",
            FstringKey::OvernightMin => "overnight_min",
            FstringKey::TomorrowMax => "tomorrow_max",
            FstringKey::RainSince9am => "rain_since_9am",
            FstringKey::HourlyRainChance => "hourly_rain_chance",
            FstringKey::HourlyRainMin => "hourly_rain_min",
            FstringKey::HourlyRainMax => "hourly_rain_max",
            FstringKey::TodayRainChance => "today_rain_chance",
            FstringKey::TodayRainMin => "today_rain_min",
            FstringKey::TodayRainMax => "today_rain_max",
            FstringKey::ShortText => "short_text",
            FstringKey::ExtendedText => "extended_text",
            FstringKey::WindSpeed => "wind_speed",
            FstringKey::WindDirection => "wind_direction",
            FstringKey::WindGust => "wind_gust",
        }
    }

    /// Every key, in the order in which they are listed.
    pub fn all() -> (r: Vec<FstringKey>)
        ensures
            r@ == all_keys(),
    {
        let r = vec![
            FstringKey::Temp,
            FstringKey::TempFeelsLike,
            FstringKey::Icon,
            FstringKey::NextTemp,
            FstringKey::NextLabel,
            FstringKey::LaterTemp,
            FstringKey::LaterLabel,
            FstringKey::MaxTemp,
            FstringKey::OvernightMin,
            FstringKey::TomorrowMax,
            FstringKey::RainSince9am,
            FstringKey::HourlyRainChance,
            FstringKey::HourlyRainMin,
            FstringKey::HourlyRainMax,
            FstringKey::TodayRainChance,
            FstringKey::TodayRainMin,
            FstringKey::TodayRainMax,
            FstringKey::ShortText,
            FstringKey::ExtendedText,
            FstringKey::WindSpeed,
            FstringKey::WindDirection,
            FstringKey::WindGust,
        ];
        assert(r@ =~= all_keys());
        r
    }

    /// The key named `s[from..to]`.
    pub fn from_name(s: &str, from: usize, to: usize) -> (r: Option<FstringKey>)
        requires
            from <= to <= s@.len(),
        ensures
            r == key_of_name(s@.subrange(from as int, to as int)),
    {
        let keys = Self::all();
        let ghost n = s@.subrange(from as int, to as int);
        let mut i: usize = 0;
        assert(keys@.subrange(0, keys@.len() as int) =~= keys@);
        while i < keys.len()
            invariant
                from <= to <= s@.len(),
                n == s@.subrange(from as int, to as int),
                i <= keys@.len(),
                keys@ == all_keys(),
                key_of_name(n) == first_named(keys@.subrange(i as int, keys@.len() as int), n),
            decreases keys@.len() - i,
        {
            let ghost rest = keys@.subrange(i as int, keys@.len() as int);
            assert(rest[0] == keys@[i as int]);
            assert(rest.drop_first() =~= keys@.subrange(i + 1, keys@.len() as int));
            let k = keys[i];
            if substring_equals(s, from, to, k.name()) {
                return Some(k);
            }
            i = i + 1;
        }
        None
    }

    /// Appends this key's value.
    fn push_value(&self, s: &mut String, w: &CurrentWeather)
        ensures
            final(s)@ == old(s)@ + self.spec_value(*w),
    {
        let ghost start = s@;
        match self {
            FstringKey::Temp => push_tenths(s, w.temp),
            FstringKey::TempFeelsLike => push_tenths(s, w.temp_feels_like),
            FstringKey::Icon => push_str(s, w.icon.as_str()),
            FstringKey::NextTemp => push_tenths(s, w.next_temp),
            FstringKey::NextLabel => push_str(s, w.next_label.as_str()),
            FstringKey::LaterTemp => push_tenths(s, w.later_temp),
            FstringKey::LaterLabel => push_str(s, w.later_label.as_str()),
            FstringKey::MaxTemp => push_tenths(s, w.max_temp),
            FstringKey::OvernightMin => push_tenths(s, w.overnight_min),
            FstringKey::TomorrowMax => push_tenths(s, w.tomorrow_max),
            FstringKey::RainSince9am => {
                // the API reports 0 when there has been no rain, so a missing value means
                // the measurement is unavailable
                match w.rain_since_9am {
                    Some(rain) => push_tenths(s, rain),
                    None => {
                        push_str(s, "??");
                        proof {
                            reveal_strlit("??");
                        }
                        assert(s@ =~= start + seq!['?', '?']);
                    },
                }
            },
            FstringKey::HourlyRainChance => push_number(s, w.hourly_rain_chance as u64),
            FstringKey::HourlyRainMin => push_number(s, w.hourly_rain_min as u64),
            FstringKey::HourlyRainMax => push_number(s, w.hourly_rain_max as u64),
            FstringKey::TodayRainChance => push_number(s, w.today_rain_chance as u64),
            FstringKey::TodayRainMin => push_number(s, w.today_rain_min as u64),
            FstringKey::TodayRainMax => push_number(s, w.today_rain_max as u64),
            FstringKey::ShortText => push_text(s, &w.short_text),
            FstringKey::ExtendedText => push_text(s, &w.extended_text),
            FstringKey::WindSpeed => push_number(s, w.wind_speed as u64),
            FstringKey::WindDirection => push_str(s, w.wind_direction.as_str()),
            FstringKey::WindGust => push_number(s, w.gust as u64),
        }
    }
}

fn push_number(s: &mut String, n: u64)
    ensures
        final(s)@ == old(s)@ + decimal(n as nat),
{
    push_decimal(s, n, 0);
    assert(zero_padded(decimal(n as nat), 0) == decimal(n as nat));
}

fn push_text(s: &mut String, t: &Option<String>)
    ensures
        final(s)@ == old(s)@ + text_or_empty(*t),
{
    match t {
        Some(text) => push_str(s, text.as_str()),
        None => {
            assert(old(s)@ + Seq::<char>::empty() =~= old(s)@);
        },
    }
}

/// What filling in the format string `s` gives: the text, or the name of the first
/// unknown key (`Err(Some(..))`), or `Err(None)` when a `{` has no `}` after it.
///
/// Placeholders run from the first `{` to the first `}` after it; there is no escaping
/// and no nesting.
pub open spec fn render(s: Seq<char>, w: CurrentWeather) -> Result<Seq<char>, Option<Seq<char>>>
    decreases s.len(),
{
    if s.len() == 0 {
        Ok(Seq::empty())
    } else {
        match first_index(s, '{') {
            None => Ok(s),
            Some(b) => if b < 0 || b >= s.len() {
                Err(None)
            } else {
                let after = s.subrange(b + 1, s.len() as int);
                match first_index(after, '}') {
                    None => Err(None),
                    Some(e) => if e < 0 || e >= after.len() {
                        Err(None)
                    } else {
                        let key = after.subrange(0, e);
                        match key_of_name(key) {
                            None => Err(Some(key)),
                            Some(k) => match render(after.subrange(e + 1, after.len() as int), w) {
                                Ok(rest) => Ok(s.subrange(0, b) + k.spec_value(w) + rest),
                                Err(x) => Err(x),
                            },
                        }
                    },
                }
            },
        }
    }
}

/// Index of the first `c` at or after `from`.
fn find_from(s: &str, c: char, from: usize) -> (r: Option<usize>)
    requires
        from <= s@.len(),
    ensures
        r matches Some(i) ==> from <= i < s@.len() && first_index(
            s@.subrange(from as int, s@.len() as int),
            c,
        ) == Some(i - from),
        r is None ==> first_index(s@.subrange(from as int, s@.len() as int), c) is None,
{
    let n = s.unicode_len();
    let ghost rest = s@.subrange(from as int, s@.len() as int);
    let mut i: usize = from;
    while i < n
        invariant
            n == s@.len(),
            from <= i <= n,
            rest == s@.subrange(from as int, s@.len() as int),
            forall|j: int| 0 <= j < i - from ==> rest[j] != c,
        decreases n - i,
    {
        if s.get_char(i) == c {
            proof {
                lemma_first_index(rest, c, i - from);
            }
            return Some(i);
        }
        i = i + 1;
    }
    proof {
        lemma_no_index(rest, c);
    }
    None
}

impl CurrentWeather {
    /// Fills in a format string such as `"{icon} {temp} ({temp_feels_like})"`.
    pub fn process_fstring(&self, fstring: &str) -> (r: Result<String, FormatError>)
        ensures
            match r {
                Ok(out) => render(fstring@, *self) == Ok::<_, Option<Seq<char>>>(out@),
                Err(FormatError::InvalidFormatString(f)) => render(fstring@, *self) == Err::<
                    Seq<char>,
                    _,
                >(None::<Seq<char>>) && f@ == fstring@,
                Err(FormatError::InvalidKey(k)) => render(fstring@, *self) == Err::<Seq<char>, _>(
                    Some(k@),
                ),
            },
    {
        let n = fstring.unicode_len();
        let mut output = String::new();
        let mut pos: usize = 0;
        proof {
            assert(fstring@.subrange(0, n as int) =~= fstring@);
            match render(fstring@, *self) {
                Ok(rest) => {
                    assert(output@ + rest =~= rest);
                },
                Err(_) => {},
            }
        }
        while pos < n
            invariant
                n == fstring@.len(),
                pos <= n,
                render(fstring@, *self) == (match render(
                    fstring@.subrange(pos as int, n as int),
                    *self,
                ) {
                    Ok(rest) => Ok(output@ + rest),
                    Err(x) => Err(x),
                }),
            decreases n - pos,
        {
            let ghost rem = fstring@.subrange(pos as int, n as int);
            let open = match find_from(fstring, '{', pos) {
                Some(b) => b,
                None => {
                    push_rest(&mut output, fstring, pos);
                    assert(render(rem, *self) == Ok::<_, Option<Seq<char>>>(rem));
                    return Ok(output);
                },
            };
            assert(rem.subrange(open - pos + 1, rem.len() as int) =~= fstring@.subrange(
                open + 1,
                n as int,
            ));
            let close = match find_from(fstring, '}', open + 1) {
                Some(e) => e,
                None => {
                    return Err(FormatError::InvalidFormatString(crate::text::string_of(fstring)));
                },
            };
            assert(fstring@.subrange(open + 1, n as int).subrange(0, close - open - 1) =~= fstring@.subrange(
                open + 1,
                close as int,
            ));
            assert(fstring@.subrange(open + 1, n as int).subrange(
                close - open,
                n - open - 1,
            ) =~= fstring@.subrange(close + 1, n as int));
            let key = match FstringKey::from_name(fstring, open + 1, close) {
                Some(k) => k,
                None => {
                    let name = fstring.substring_char(open + 1, close);
                    assert(rem.subrange(open - pos + 1, close - pos) =~= fstring@.subrange(
                        open + 1,
                        close as int,
                    ));
                    return Err(FormatError::InvalidKey(crate::text::string_of(name)));
                },
            };
            assert(rem.subrange(open - pos + 1, close - pos) =~= fstring@.subrange(
                open + 1,
                close as int,
            ));
            assert(rem.subrange(close - pos + 1, rem.len() as int) =~= fstring@.subrange(
                close + 1,
                n as int,
            ));
            let ghost before = output@;
            let prefix = fstring.substring_char(pos, open);
            push_str(&mut output, prefix);
            key.push_value(&mut output, self);
            assert(rem.subrange(0, open - pos) =~= prefix@);
            assert(output@ =~= before + (rem.subrange(0, open - pos) + key.spec_value(*self)));
            proof {
                let next = fstring@.subrange(close + 1, n as int);
                assert(render(rem, *self) == match render(next, *self) {
                    Ok(rest) => Ok(rem.subrange(0, open - pos) + key.spec_value(*self) + rest),
                    Err(x) => Err(x),
                });
                match render(next, *self) {
                    Ok(rest) => {
                        assert(before + (rem.subrange(0, open - pos) + key.spec_value(*self) + rest)
                            =~= output@ + rest);
                    },
                    Err(_) => {},
                }
            }
            pos = close + 1;
        }
        assert(fstring@.subrange(pos as int, n as int) =~= Seq::<char>::empty());
        assert(output@ + Seq::<char>::empty() =~= output@);
        Ok(output)
    }
}

/// Appends `s[from..]`.
fn push_rest(out: &mut String, s: &str, from: usize)
    requires
        from <= s@.len(),
    ensures
        final(out)@ == old(out)@ + s@.subrange(from as int, s@.len() as int),
{
    let n = s.unicode_len();
    let rest = s.substring_char(from, n);
    push_str(out, rest);
}

} // verus!
