use vstd::prelude::*;

verus! {

/// Shortest cooldown the interactive setup accepts, in milliseconds: the
/// kernel passes at most about forty events per second from one device.
pub const MIN_COOLDOWN: u64 = 25;

/// Linux input code of the left control key.
pub const KEY_LEFTCTRL: u16 = 29;

/// Linux input code of the C key.
pub const KEY_C: u16 = 46;

/// Unicode White_Space: the characters that `str::trim` removes.
pub open spec fn is_white_space(c: char) -> bool {
    let u = c as u32;
    (0x9 <= u <= 0xd) || u == 0x20 || u == 0x85 || u == 0xa0 || u == 0x1680 || (0x2000 <= u
        <= 0x200a) || u == 0x2028 || u == 0x2029 || u == 0x202f || u == 0x205f || u == 0x3000
}

/// `s` without its leading white space.
pub open spec fn trim_start_text(s: Seq<char>) -> Seq<char>
    decreases s.len(),
{
    if s.len() > 0 && is_white_space(s[0]) {
        trim_start_text(s.drop_first())
    } else {
        s
    }
}

/// `s` without its trailing white space.
pub open spec fn trim_end_text(s: Seq<char>) -> Seq<char>
    decreases s.len(),
{
    if s.len() > 0 && is_white_space(s.last()) {
        trim_end_text(s.drop_last())
    } else {
        s
    }
}

/// `s` without its leading and trailing white space.
pub open spec fn trimmed_text(s: Seq<char>) -> Seq<char> {
    trim_end_text(trim_start_text(s))
}

pub open spec fn is_ascii_digit(c: char) -> bool {
    0x30 <= (c as u32) <= 0x39
}

/// The value of a string of decimal digits.
pub open spec fn digits_value(d: Seq<char>) -> nat
    decreases d.len(),
{
    if d.len() == 0 {
        0
    } else {
        digits_value(d.drop_last()) * 10 + ((d.last() as u32) - 0x30) as nat
    }
}

/// The number a text spells: an optional `+`, then one or more ASCII digits
/// whose value fits a `usize`.
pub open spec fn usize_text_value(s: Seq<char>) -> Option<usize> {
    let d = if s.len() > 0 && s[0] == '+' {
        s.drop_first()
    } else {
        s
    };
    if d.len() > 0 && (forall|i: int| 0 <= i < d.len() ==> is_ascii_digit(#[trigger] d[i]))
        && digits_value(d) <= usize::MAX {
        Some(digits_value(d) as usize)
    } else {
        None
    }
}

/// Relies on str::trim, which removes leading and trailing White_Space.
#[verifier::external_body]
fn trim(s: &str) -> (r: &str)
    ensures
        r@ == trimmed_text(s@),
{
    s.trim()
}

/// Relies on str::parse for usize (`usize::from_str_radix` in base 10): an
/// optional `+`, then digits only, with a value in range; anything else is an
/// error.
#[verifier::external_body]
fn parse_usize(s: &str) -> (r: Option<usize>)
    ensures
        r == usize_text_value(s@),
{
    s.parse::<usize>().ok()
}

/// The cooldown the interactive setup keeps: never below the minimum.
pub fn clamp_cooldown(cooldown: u64) -> (r: u64)
    ensures
        r == if cooldown < MIN_COOLDOWN {
            MIN_COOLDOWN
        } else {
            cooldown
        },
{
    if cooldown < MIN_COOLDOWN {
        MIN_COOLDOWN
    } else {
        cooldown
    }
}

/// Keys that cannot be bound, since they are needed to stop the program.
pub fn is_blacklisted_key(code: u16) -> (r: bool)
    ensures
        r == (code == KEY_LEFTCTRL || code == KEY_C),
{
    code == KEY_LEFTCTRL || code == KEY_C
}

/// Whether `s` begins with `prefix`.
pub fn starts_with(s: &str, prefix: &str) -> (r: bool)
    ensures
        r == (prefix@.len() <= s@.len() && s@.subrange(0, prefix@.len() as int) == prefix@),
{
    let n = s.unicode_len();
    let m = prefix.unicode_len();
    if m > n {
        return false;
    }
    let mut i: usize = 0;
    while i < m
        invariant
            m == prefix@.len(),
            n == s@.len(),
            m <= n,
            i <= m,
            forall|j: int| 0 <= j < i ==> s@[j] == prefix@[j],
        decreases m - i,
    {
        if s.get_char(i) != prefix.get_char(i) {
            assert(s@.subrange(0, m as int)[i as int] != prefix@[i as int]);
            return false;
        }
        i = i + 1;
    }
    assert(s@.subrange(0, m as int) =~= prefix@);
    true
}

/// How a device query names its device.
#[derive(Clone, Copy, Debug, PartialEq, Eq, Structural)]
pub enum QueryKind {
    /// Nothing was given.
    Empty,
    /// A path, which starts with `/`.
    Path,
    /// A device name, matched exactly first and then as a part.
    Name,
}

pub fn query_kind(query: &str) -> (r: QueryKind)
    ensures
        query@.len() == 0 <==> r == QueryKind::Empty,
        query@.len() > 0 ==> (r == QueryKind::Path <==> query@[0] == '/'),
{
    if query.unicode_len() == 0 {
        QueryKind::Empty
    } else if query.get_char(0) == '/' {
        QueryKind::Path
    } else {
        QueryKind::Name
    }
}

/// Whether a device file belongs to the legacy protocol: `mouse<N>` and `mice`
/// start with `mouse` or are `mice`.
pub fn is_legacy_device(file_name: &str) -> (r: bool)
    ensures
        r == ("mouse"@.len() <= file_name@.len() && file_name@.subrange(0, "mouse"@.len() as int) == "mouse"@),
{
    starts_with(file_name, "mouse")
}

/// Whether a device file is the aggregate of every mouse, which no variant can use.
pub fn is_aggregate_mouse(file_name: &str) -> (r: bool)
    ensures
        r == (file_name@ == "mice"@),
{
    String::from_str(file_name) == String::from_str("mice")
}

/// The words that answer a question with yes.
pub open spec fn is_yes_word(w: Seq<char>) -> bool {
    w == "Yes"@ || w == "yes"@ || w == "Y"@ || w == "y"@
}

/// Whether a trimmed answer is a yes.
pub fn yes_word(w: &str) -> (r: bool)
    ensures
        r == is_yes_word(w@),
{
    let s = String::from_str(w);
    s == String::from_str("Yes") || s == String::from_str("yes") || s == String::from_str("Y") || s
        == String::from_str("y")
}

/// Whether an answer to a yes/no question means yes: a yes word, or nothing
/// at all when yes is the default.
pub fn answer_is_yes(answer: &str, default: bool) -> (r: bool)
    ensures
        r == (is_yes_word(trimmed_text(answer@)) || (default && answer@.len() == 0)),
{
    yes_word(trim(answer)) || (default && answer.unicode_len() == 0)
}

/// The number an answer gives: the default for an empty answer where there is
/// one, otherwise what the answer spells.
pub fn answer_number(answer: &str, default: Option<usize>) -> (r: Option<usize>)
    ensures
        r == if default is Some && answer@.len() == 0 {
            default
        } else {
            usize_text_value(answer@)
        },
{
    if default.is_some() && answer.unicode_len() == 0 {
        default
    } else {
        parse_usize(answer)
    }
}

} // verus!
