//! The weather tool: the query URL, the reading of the provider's JSON
//! body, and the formatted multi-line summary. Temperatures and wind
//! speed are truncated to whole units by dropping the fractional part of
//! the number's decimal text.

use vstd::prelude::*;
use crate::timestamp::{digit_run_end, is_dec_digit, lemma_digit_run_end_is};

verus! {

/// The pieces of a weather provider response that the summary uses,
/// still in their textual form.
pub struct WeatherRaw {
    /// `weather[0].main`; absent when the `weather` array is empty.
    pub condition: Option<String>,
    /// The text of the JSON number `main.temp_min`.
    pub temp_min: String,
    /// The text of the JSON number `main.temp_max`.
    pub temp_max: String,
    /// The text of the JSON number `wind.speed`.
    pub speed: String,
}

pub open spec fn opt_string_view(o: Option<String>) -> Option<Seq<char>> {
    match o {
        Some(s) => Some(s@),
        None => None,
    }
}

/// What a weather provider body denotes: the first condition (if any
/// weather entry is present), and the texts of the three numbers
/// `main.temp_min`, `main.temp_max` and `wind.speed`; or nothing when the
/// body lacks that structure.
pub uninterp spec fn weather_fields_of(body: Seq<u8>) -> Option<
    (Option<Seq<char>>, Seq<char>, Seq<char>, Seq<char>),
>;

/// Relies on `serde_json::from_slice` for `serde_json::Value` and on the
/// accessors `Value::get`, `Value::as_array`, `Value::as_str`,
/// `Value::pointer`, `Value::is_number` and `Value`'s `Display`: what the
/// body's JSON holds at `weather[0].main`, `main.temp_min`,
/// `main.temp_max` and `wind.speed` depends on the bytes alone.
#[verifier::external_body]
fn parse_weather_body(body: &Vec<u8>) -> (r: Option<WeatherRaw>)
    ensures
        match r {
            Some(w) => weather_fields_of(body@) matches Some(f) && opt_string_view(w.condition)
                == f.0 && w.temp_min@ == f.1 && w.temp_max@ == f.2 && w.speed@ == f.3,
            None => weather_fields_of(body@) is None,
        },
{
    let v: serde_json::Value = serde_json::from_slice(body.as_slice()).ok()?;
    let condition = match v.get("weather")?.as_array()?.first() {
        None => None,
        Some(f) => Some(f.get("main")?.as_str()?.to_string()),
    };
    let tn = v.pointer("/main/temp_min")?;
    let tx = v.pointer("/main/temp_max")?;
    let sp = v.pointer("/wind/speed")?;
    if !(tn.is_number() && tx.is_number() && sp.is_number()) {
        return None;
    }
    let (temp_min, temp_max, speed) = (tn.to_string(), tx.to_string(), sp.to_string());
    Some(WeatherRaw { condition, temp_min, temp_max, speed })
}

/// A plain decimal number text: an optional minus sign, digits, and
/// optionally a dot followed by more digits.
pub open spec fn decimal_shape(s: Seq<char>) -> bool {
    let i0: int = if s.len() > 0 && s[0] == '-' {
        1
    } else {
        0
    };
    let ie = digit_run_end(s, i0);
    &&& ie - i0 >= 1
    &&& if ie == s.len() {
        true
    } else {
        &&& s[ie] == '.'
        &&& s.len() > ie + 1
        &&& digit_run_end(s, ie + 1) == s.len()
    }
}

/// The whole-unit part of a decimal number text: its digits before the
/// dot, signed unless they are all zero (`-0.4` truncates to `0`).
pub open spec fn truncated_text(s: Seq<char>) -> Option<Seq<char>> {
    if !decimal_shape(s) {
        None
    } else {
        let i0: int = if s[0] == '-' {
            1
        } else {
            0
        };
        let ie = digit_run_end(s, i0);
        if i0 == 1 && (forall|k: int| 1 <= k < ie ==> s[k] == '0') {
            Some(s.subrange(1, ie))
        } else {
            Some(s.subrange(0, ie))
        }
    }
}

/// Truncates a decimal number text toward zero, keeping the text form.
pub fn truncate_decimal(s: &str) -> (r: Option<String>)
    ensures
        match r {
            Some(t) => truncated_text(s@) == Some(t@),
            None => truncated_text(s@) is None,
        },
{
    let n = s.unicode_len();
    let mut i0: usize = 0;
    if n > 0 && s.get_char(0) == '-' {
        i0 = 1;
    }
    let mut ie: usize = i0;
    while ie < n && is_digit_exec(s.get_char(ie))
        invariant
            n == s@.len(),
            i0 <= ie <= n,
            forall|k: int| i0 <= k < ie ==> is_dec_digit(#[trigger] s@[k]),
        decreases n - ie,
    {
        ie += 1;
    }
    proof {
        lemma_digit_run_end_is(s@, i0 as int, ie as int);
    }
    if ie - i0 < 1 {
        return None;
    }
    if ie < n {
        if s.get_char(ie) != '.' || n - ie < 2 {
            return None;
        }
        let mut je: usize = ie + 1;
        while je < n && is_digit_exec(s.get_char(je))
            invariant
                n == s@.len(),
                ie + 1 <= je <= n,
                forall|k: int| ie + 1 <= k < je ==> is_dec_digit(#[trigger] s@[k]),
            decreases n - je,
        {
            je += 1;
        }
        proof {
            lemma_digit_run_end_is(s@, ie as int + 1, je as int);
        }
        if je < n {
            return None;
        }
    }
    if i0 == 1 {
        let mut all_zero = true;
        let mut k: usize = 1;
        while k < ie
            invariant
                n == s@.len(),
                1 <= k <= ie <= n,
                all_zero == (forall|t: int| 1 <= t < k ==> s@[t] == '0'),
            decreases ie - k,
        {
            if s.get_char(k) != '0' {
                all_zero = false;
            }
            k += 1;
        }
        if all_zero {
            return Some(s.substring_char(1, ie).to_owned());
        }
    }
    Some(s.substring_char(0, ie).to_owned())
}

fn is_digit_exec(c: char) -> (r: bool)
    ensures
        r == is_dec_digit(c),
{
    '0' <= c && c <= '9'
}

/// The fixed reply used when the provider cannot be reached, answers
/// with a non-success status, or hands back a malformed body.
pub open spec fn weather_failure_text() -> Seq<char> {
    "No city or incorrect spelling"@
}

/// The multi-line weather summary for a city.
pub open spec fn weather_report_text(
    city: Seq<char>,
    condition: Option<Seq<char>>,
    temp_min: Seq<char>,
    temp_max: Seq<char>,
    speed: Seq<char>,
) -> Seq<char> {
    "\nToday in "@ + city + "\n"@ + (match condition {
        Some(c) => c,
        None => "Unknown"@,
    }) + "\nLow temperature: "@ + temp_min + " \u{b0}C,\nHigh temperature: "@ + temp_max
        + " \u{b0}C,\nWind Speed: "@ + speed + " km/h"@
}

/// The weather tool's reply, determined by the HTTP status and body: the
/// summary on a success status and a well-shaped body, the fixed failure
/// text otherwise.
pub open spec fn weather_outcome_text(city: Seq<char>, ok_status: bool, body: Seq<u8>) -> Seq<
    char,
> {
    if !ok_status {
        weather_failure_text()
    } else {
        match weather_fields_of(body) {
            None => weather_failure_text(),
            Some(f) => match (truncated_text(f.1), truncated_text(f.2), truncated_text(f.3)) {
                (Some(tn), Some(tx), Some(sp)) => weather_report_text(city, f.0, tn, tx, sp),
                _ => weather_failure_text(),
            },
        }
    }
}

/// A status code in the success range.
pub fn status_is_success(code: u16) -> (r: bool)
    ensures
        r == (200 <= code < 300),
{
    200 <= code && code < 300
}

/// The weather tool's reply for a reachable provider.
pub fn weather_body_text(city: &str, ok_status: bool, body: &Vec<u8>) -> (r: String)
    ensures
        r@ == weather_outcome_text(city@, ok_status, body@),
{
    if !ok_status {
        return String::from_str("No city or incorrect spelling");
    }
    let parsed = match parse_weather_body(body) {
        Some(w) => w,
        None => {
            return String::from_str("No city or incorrect spelling");
        },
    };
    let tn = truncate_decimal(parsed.temp_min.as_str());
    let tx = truncate_decimal(parsed.temp_max.as_str());
    let sp = truncate_decimal(parsed.speed.as_str());
    match (tn, tx, sp) {
        (Some(tn), Some(tx), Some(sp)) => {
            let mut out = String::from_str("\nToday in ");
            out.append(city);
            out.append("\n");
            match &parsed.condition {
                Some(c) => out.append(c.as_str()),
                None => out.append("Unknown"),
            }
            out.append("\nLow temperature: ");
            out.append(tn.as_str());
            out.append(" \u{b0}C,\nHigh temperature: ");
            out.append(tx.as_str());
            out.append(" \u{b0}C,\nWind Speed: ");
            out.append(sp.as_str());
            out.append(" km/h");
            proof {
                assert(out@ =~= weather_outcome_text(city@, ok_status, body@));
            }
            out
        },
        _ => String::from_str("No city or incorrect spelling"),
    }
}

/// The weather provider's query URL for a city, with the API key filled
/// in.
pub open spec fn weather_query_url(city: Seq<char>, key: Seq<char>) -> Seq<char> {
    "https://api.openweathermap.org/data/2.5/weather?q="@ + city + "&units=metric&appid="@ + key
}

pub fn build_weather_url(city: &str, key: &str) -> (r: String)
    ensures
        r@ == weather_query_url(city@, key@),
{
    let mut out = String::from_str("https://api.openweathermap.org/data/2.5/weather?q=");
    out.append(city);
    out.append("&units=metric&appid=");
    out.append(key);
    proof {
        assert(out@ =~= weather_query_url(city@, key@));
    }
    out
}

} // verus!
