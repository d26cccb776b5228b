use vstd::prelude::*;

verus! {

/// The latest wind snapshot shown to the user.
///
/// The default value (empty direction, no speed, no gust) stands for "no data".
#[derive(Clone, Debug)]
pub struct ObservationData {
    pub wind_dir: String,
    pub wind_spd_kt: Option<i32>,
    pub gust_kt: Option<i32>,
}

impl ObservationData {
    /// The "no data" observation.
    pub open spec fn is_no_data(&self) -> bool {
        &&& self.wind_dir@.len() == 0
        &&& self.wind_spd_kt is None
        &&& self.gust_kt is None
    }
}

impl Default for ObservationData {
    fn default() -> (r: ObservationData)
        ensures
            r.is_no_data(),
    {
        ObservationData { wind_dir: String::new(), wind_spd_kt: None, gust_kt: None }
    }
}

/// One entry of the station's observation list, as decoded from the response.
/// Every field may be absent.
#[derive(Clone, Debug)]
pub struct ObservationEntry {
    pub wind_dir: Option<String>,
    pub wind_spd_kt: Option<i32>,
    pub gust_kt: Option<i32>,
}

/// Why a fetch produced no observation list.
#[derive(Clone, Copy, Debug, PartialEq, Eq)]
pub enum FetchFailure {
    /// The request could not be sent or the response could not be read.
    Transport,
    /// The response body was not a well-formed observation document.
    Decode,
}

/// The characters of an optional text, an absent text reading as empty.
pub open spec fn text_or_empty(t: Option<String>) -> Seq<char> {
    match t {
        Some(s) => s@,
        None => Seq::empty(),
    }
}

/// `o` is the observation built from `e`: absent fields stay absent,
/// an absent direction becomes the empty direction.
pub open spec fn built_from_entry(o: ObservationData, e: ObservationEntry) -> bool {
    &&& o.wind_dir@ == text_or_empty(e.wind_dir)
    &&& o.wind_spd_kt == e.wind_spd_kt
    &&& o.gust_kt == e.gust_kt
}

/// `o` is the observation built from a decoded list: the first entry if there
/// is one, otherwise "no data".
pub open spec fn built_from_entries(o: ObservationData, entries: Seq<ObservationEntry>) -> bool {
    if entries.len() == 0 {
        o.is_no_data()
    } else {
        built_from_entry(o, entries[0])
    }
}

/// `o` is the observation that a fetch outcome leaves on display: "no data"
/// on any failure, else what the decoded list gives.
pub open spec fn built_from_fetch(
    o: ObservationData,
    outcome: Result<Vec<ObservationEntry>, FetchFailure>,
) -> bool {
    match outcome {
        Ok(entries) => built_from_entries(o, entries@),
        Err(_) => o.is_no_data(),
    }
}

/// A failed fetch, whatever the failure, leaves the "no data" observation.
pub proof fn lemma_failure_gives_no_data(o: ObservationData, failure: FetchFailure)
    requires
        built_from_fetch(o, Err(failure)),
    ensures
        o.wind_dir@.len() == 0,
        o.wind_spd_kt is None,
        o.gust_kt is None,
{
}

/// Builds the observation from a decoded observation list. Only the first
/// entry is consulted.
pub fn observation_from_entries(entries: Vec<ObservationEntry>) -> (r: ObservationData)
    ensures
        built_from_entries(r, entries@),
{
    let mut entries = entries;
    if entries.len() == 0 {
        return ObservationData::default();
    }
    let first = entries.swap_remove(0);
    let wind_dir = match first.wind_dir {
        Some(d) => d,
        None => String::new(),
    };
    ObservationData { wind_dir, wind_spd_kt: first.wind_spd_kt, gust_kt: first.gust_kt }
}

/// The observation to display after a fetch completes. Never fails: any
/// transport or decode failure yields the "no data" observation.
pub fn observation_from_fetch(outcome: Result<Vec<ObservationEntry>, FetchFailure>) -> (r:
    ObservationData)
    ensures
        built_from_fetch(r, outcome),
{
    match outcome {
        Ok(entries) => observation_from_entries(entries),
        Err(_) => ObservationData::default(),
    }
}

/// Whether `c` has the Unicode `White_Space` property.
pub open spec fn is_white_space(c: char) -> bool {
    ||| '\u{9}' <= c <= '\u{d}'
    ||| c == ' '
    ||| c == '\u{85}'
    ||| c == '\u{a0}'
    ||| c == '\u{1680}'
    ||| '\u{2000}' <= c <= '\u{200a}'
    ||| c == '\u{2028}'
    ||| c == '\u{2029}'
    ||| c == '\u{202f}'
    ||| c == '\u{205f}'
    ||| c == '\u{3000}'
}

/// The text without its leading white space.
pub open spec fn trim_start_of(s: Seq<char>) -> Seq<char>
    decreases s.len(),
{
    if s.len() > 0 && is_white_space(s[0]) {
        trim_start_of(s.drop_first())
    } else {
        s
    }
}

/// The text without its trailing white space.
pub open spec fn trim_end_of(s: Seq<char>) -> Seq<char>
    decreases s.len(),
{
    if s.len() > 0 && is_white_space(s.last()) {
        trim_end_of(s.drop_last())
    } else {
        s
    }
}

/// The text without its leading and trailing white space.
pub open spec fn trimmed(s: Seq<char>) -> Seq<char> {
    trim_end_of(trim_start_of(s))
}

/// Relies on `str::trim`: the input without leading and trailing characters
/// of the Unicode `White_Space` property.
#[verifier::external_body]
fn trim_text(s: &str) -> (r: &str)
    ensures
        r@ == trimmed(s@),
{
    s.trim()
}

/// The character of a decimal digit.
pub open spec fn digit_char(d: nat) -> char {
    if d == 0 {
        '0'
    } else if d == 1 {
        '1'
    } else if d == 2 {
        '2'
    } else if d == 3 {
        '3'
    } else if d == 4 {
        '4'
    } else if d == 5 {
        '5'
    } else if d == 6 {
        '6'
    } else if d == 7 {
        '7'
    } else if d == 8 {
        '8'
    } else {
        '9'
    }
}

/// The decimal digits of a natural number, most significant first, without
/// leading zeros.
pub open spec fn digits_of(n: nat) -> Seq<char>
    decreases n,
{
    if n < 10 {
        seq![digit_char(n)]
    } else {
        digits_of(n / 10).push(digit_char(n % 10))
    }
}

/// The decimal text of an integer, with a leading `-` when it is negative.
pub open spec fn decimal_of(v: int) -> Seq<char> {
    if v < 0 {
        seq!['-'] + digits_of((-v) as nat)
    } else {
        digits_of(v as nat)
    }
}

/// Whether a direction shows as `-`: it is empty or white space only.
pub open spec fn is_blank(dir: Seq<char>) -> bool {
    trimmed(dir).len() == 0
}

/// The direction as shown: `-` in place of a blank direction.
pub open spec fn direction_label(dir: Seq<char>, blank: bool) -> Seq<char> {
    if blank {
        seq!['-']
    } else {
        dir
    }
}

/// What follows the direction: the speed and the gust in knots where they
/// are present.
pub open spec fn wind_suffix(speed: Option<i32>, gust: Option<i32>) -> Seq<char> {
    let kt = seq!['k', 't'];
    let gust_word = seq![' ', 'g', 'u', 's', 't', ' '];
    match (speed, gust) {
        (Some(s), Some(g)) => seq![' '] + decimal_of(s as int) + kt + gust_word + decimal_of(
            g as int,
        ) + kt,
        (Some(s), None) => seq![' '] + decimal_of(s as int) + kt,
        (None, Some(g)) => gust_word + decimal_of(g as int) + kt,
        (None, None) => Seq::empty(),
    }
}

/// The wind text shown in the panel.
pub open spec fn wind_text(dir: Seq<char>, speed: Option<i32>, gust: Option<i32>) -> Seq<char> {
    direction_label(dir, is_blank(dir)) + wind_suffix(speed, gust)
}

/// A blank direction shows as `-` followed by the suffix that any other
/// direction gets; a direction that is not blank is shown as it is.
pub proof fn lemma_blank_direction_shows_dash(
    dir: Seq<char>,
    other: Seq<char>,
    speed: Option<i32>,
    gust: Option<i32>,
)
    requires
        !is_blank(other),
    ensures
        wind_text(Seq::empty(), speed, gust) == seq!['-'] + wind_suffix(speed, gust),
        is_blank(dir) ==> wind_text(dir, speed, gust) == seq!['-'] + wind_suffix(speed, gust),
        wind_text(other, speed, gust) == other + wind_suffix(speed, gust),
{
    assert(trim_start_of(Seq::<char>::empty()) == Seq::<char>::empty());
    assert(trim_end_of(Seq::<char>::empty()) == Seq::<char>::empty());
}

fn digit_str(d: u64) -> (r: &'static str)
    requires
        d < 10,
    ensures
        r@ == seq![digit_char(d as nat)],
{
    proof {
        reveal_strlit("0");
        reveal_strlit("1");
        reveal_strlit("2");
        reveal_strlit("3");
        reveal_strlit("4");
        reveal_strlit("5");
        reveal_strlit("6");
        reveal_strlit("7");
        reveal_strlit("8");
        reveal_strlit("9");
    }
    if d == 0 {
        "0"
    } else if d == 1 {
        "1"
    } else if d == 2 {
        "2"
    } else if d == 3 {
        "3"
    } else if d == 4 {
        "4"
    } else if d == 5 {
        "5"
    } else if d == 6 {
        "6"
    } else if d == 7 {
        "7"
    } else if d == 8 {
        "8"
    } else {
        "9"
    }
}

fn push_digits(out: &mut String, n: u64)
    ensures
        final(out)@ == old(out)@ + digits_of(n as nat),
    decreases n,
{
    if n < 10 {
        out.append(digit_str(n));
    } else {
        push_digits(out, n / 10);
        out.append(digit_str(n % 10));
        assert(final(out)@ =~= old(out)@ + digits_of(n as nat));
    }
}

/// Appends the decimal text of `v`.
pub fn push_decimal(out: &mut String, v: i32)
    ensures
        final(out)@ == old(out)@ + decimal_of(v as int),
{
    if v < 0 {
        proof {
            reveal_strlit("-");
        }
        out.append("-");
        let mag: u64 = (0i64 - v as i64) as u64;
        push_digits(out, mag);
        assert(final(out)@ =~= old(out)@ + decimal_of(v as int));
    } else {
        push_digits(out, v as u64);
    }
}

/// Formats the wind text of an observation, given whether its direction is
/// blank.
pub fn wind_details_given_blank(obs: &ObservationData, blank: bool) -> (r: String)
    ensures
        r@ == direction_label(obs.wind_dir@, blank) + wind_suffix(obs.wind_spd_kt, obs.gust_kt),
{
    proof {
        reveal_strlit("-");
        reveal_strlit(" ");
        reveal_strlit("kt");
        reveal_strlit(" gust ");
    }
    let mut out = if blank {
        String::from_str("-")
    } else {
        obs.wind_dir.clone()
    };
    match (obs.wind_spd_kt, obs.gust_kt) {
        (Some(speed), Some(gust)) => {
            out.append(" ");
            push_decimal(&mut out, speed);
            out.append("kt");
            out.append(" gust ");
            push_decimal(&mut out, gust);
            out.append("kt");
        },
        (Some(speed), None) => {
            out.append(" ");
            push_decimal(&mut out, speed);
            out.append("kt");
        },
        (None, Some(gust)) => {
            out.append(" gust ");
            push_decimal(&mut out, gust);
            out.append("kt");
        },
        (None, None) => {},
    }
    assert(out@ =~= direction_label(obs.wind_dir@, blank) + wind_suffix(
        obs.wind_spd_kt,
        obs.gust_kt,
    ));
    out
}

/// Formats the wind text of an observation.
pub fn wind_details(obs: &ObservationData) -> (r: String)
    ensures
        r@ == wind_text(obs.wind_dir@, obs.wind_spd_kt, obs.gust_kt),
{
    let blank = trim_text(obs.wind_dir.as_str()).is_empty();
    wind_details_given_blank(obs, blank)
}

} // verus!
