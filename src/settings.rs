//! Start-up settings of the bridge: the listening port, the screenshot wait
//! schedule, and the order in which fonts are tried.
use vstd::prelude::*;

verus! {

/// Port the server listens on when no usable setting is given.
pub const DEFAULT_PORT: u16 = 9222;

/// First interval between checks for a screenshot file, in milliseconds.
pub const CAPTURE_POLL_INITIAL_MS: u64 = 50;

/// Factor by which the interval between checks grows.
pub const CAPTURE_POLL_MULTIPLIER: u64 = 2;

/// Largest interval between checks for a screenshot file, in milliseconds.
pub const CAPTURE_POLL_MAX_INTERVAL_MS: u64 = 500;

/// Total time spent waiting for a screenshot file, in milliseconds.
pub const CAPTURE_WAIT_BUDGET_MS: u64 = 5000;

/// Whether `c` is an ASCII decimal digit.
pub open spec fn is_digit(c: char) -> bool {
    '0' <= c && c <= '9'
}

/// Value of a string of decimal digits.
pub open spec fn decimal_value(s: Seq<char>) -> nat
    decreases s.len(),
{
    if s.len() == 0 {
        0
    } else {
        decimal_value(s.drop_last()) * 10 + ((s.last() as u32) - ('0' as u32)) as nat
    }
}

/// A port number written in decimal: an optional `+`, then one or more
/// digits, with a value that fits in 16 bits.
pub open spec fn parsed_u16(s: Seq<char>) -> Option<u16> {
    let d = if s.len() > 0 && s[0] == '+' {
        s.drop_first()
    } else {
        s
    };
    if d.len() > 0 && (forall|i: int| 0 <= i < d.len() ==> is_digit(#[trigger] d[i]))
        && decimal_value(d) <= u16::MAX {
        Some(decimal_value(d) as u16)
    } else {
        None
    }
}

/// Relies on std's `FromStr for u16` (`str::parse::<u16>`), documented to take
/// an optional `+` followed by decimal digits only and to fail on anything
/// else, an empty string, or a value above `u16::MAX`.
#[verifier::external_body]
fn parse_u16(s: &str) -> (r: Option<u16>)
    ensures
        r == parsed_u16(s@),
{
    s.parse::<u16>().ok()
}

/// The port to listen on, given the port setting if there is one: its value
/// where it is a valid port number, else the default.
pub fn port_from_setting(setting: Option<&str>) -> (r: u16)
    ensures
        r == match setting {
            Some(s) => match parsed_u16(s@) {
                Some(p) => p,
                None => DEFAULT_PORT,
            },
            None => DEFAULT_PORT,
        },
{
    match setting {
        Some(s) => match parse_u16(s) {
            Some(p) => p,
            None => DEFAULT_PORT,
        },
        None => DEFAULT_PORT,
    }
}

/// Font settings.
#[derive(Clone, Debug, Default)]
pub struct FontConfig {
    /// A font file chosen by the user, tried before the system fonts.
    pub font_path: Option<String>,
}

/// The font files to try, in order: the configured one first, then `defaults`.
pub fn font_candidates(config: &FontConfig, defaults: &Vec<String>) -> (r: Vec<String>)
    ensures
        r@ == match config.font_path {
            Some(p) => seq![p].add(defaults@),
            None => defaults@,
        },
{
    let mut r: Vec<String> = Vec::new();
    match &config.font_path {
        Some(p) => r.push(p.clone()),
        None => {},
    }
    let ghost start = r@;
    let mut k: usize = 0;
    while k < defaults.len()
        invariant
            k <= defaults@.len(),
            r@ == start.add(defaults@.take(k as int)),
        decreases defaults@.len() - k,
    {
        r.push(defaults[k].clone());
        proof {
            assert(defaults@.take(k as int + 1) =~= defaults@.take(k as int).push(defaults@[k as int]));
        }
        k = k + 1;
    }
    assert(defaults@.take(defaults@.len() as int) =~= defaults@);
    assert(r@ =~= start.add(defaults@));
    r
}

} // verus!
