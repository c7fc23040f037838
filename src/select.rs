use vstd::prelude::*;

verus! {

/// Whether `c` has Unicode's `White_Space` property.
pub open spec fn is_white(c: char) -> bool {
    ||| ('\u{9}' <= c && c <= '\u{d}')
    ||| c == ' '
    ||| c == '\u{85}'
    ||| c == '\u{a0}'
    ||| c == '\u{1680}'
    ||| ('\u{2000}' <= c && c <= '\u{200a}')
    ||| c == '\u{2028}'
    ||| c == '\u{2029}'
    ||| c == '\u{202f}'
    ||| c == '\u{205f}'
    ||| c == '\u{3000}'
}

/// `s` without its leading white space.
pub open spec fn trim_start(s: Seq<char>) -> Seq<char>
    decreases s.len(),
{
    if s.len() > 0 && is_white(s[0]) {
        trim_start(s.drop_first())
    } else {
        s
    }
}

/// `s` without its trailing white space.
pub open spec fn trim_end(s: Seq<char>) -> Seq<char>
    decreases s.len(),
{
    if s.len() > 0 && is_white(s.last()) {
        trim_end(s.drop_last())
    } else {
        s
    }
}

/// `s` without its leading and trailing white space.
pub open spec fn trimmed(s: Seq<char>) -> Seq<char> {
    trim_end(trim_start(s))
}

/// Whether `c` is an ASCII decimal digit.
pub open spec fn is_digit(c: char) -> bool {
    '0' <= c && c <= '9'
}

/// The number that a string of decimal digits writes.
pub open spec fn digits_value(s: Seq<char>) -> nat
    decreases s.len(),
{
    if s.len() == 0 {
        0
    } else {
        digits_value(s.drop_last()) * 10 + ((s.last() as int) - ('0' as int)) as nat
    }
}

/// `s` without one leading `+`, if it has one.
pub open spec fn unsigned_digits(s: Seq<char>) -> Seq<char> {
    if s.len() > 0 && s[0] == '+' {
        s.drop_first()
    } else {
        s
    }
}

/// Whether `s` writes a `usize`: an optional `+`, then one or more decimal
/// digits whose value fits.
pub open spec fn parses_as_usize(s: Seq<char>) -> bool {
    let d = unsigned_digits(s);
    &&& d.len() > 0
    &&& forall|i: int| 0 <= i < d.len() ==> is_digit(#[trigger] d[i])
    &&& digits_value(d) <= usize::MAX
}

/// Relies on `str::trim`: leading and trailing white space (Unicode's
/// `White_Space`) removed.
#[verifier::external_body]
fn trim_whitespace(s: &str) -> (r: &str)
    ensures
        r@ == trimmed(s@),
{
    s.trim()
}

/// Relies on `usize`'s `FromStr`: an optional `+` and decimal digits whose
/// value fits are accepted, anything else is refused.
#[verifier::external_body]
fn parse_usize(s: &str) -> (r: Option<usize>)
    ensures
        r is Some <==> parses_as_usize(s@),
        r is Some ==> r->Some_0 == digits_value(unsigned_digits(s@)),
{
    s.parse::<usize>().ok()
}

/// Which theme a user's answer picks.
#[derive(Debug, PartialEq, Eq, Structural)]
pub enum Selection {
    /// Any theme, drawn at random.
    Random,
    /// The theme at this position, counted from zero.
    Index(usize),
}

/// Why a user's answer picks no theme.
#[derive(Debug, PartialEq, Eq, Structural)]
pub enum SelectError {
    /// There is no theme to pick from.
    NoThemes,
    /// The answer is not a number.
    NotANumber,
    /// The number is zero or larger than the number of themes.
    OutOfRange { count: usize },
}

/// Reads a user's answer to the list of `count` themes, numbered from one.
/// An empty answer (once white space is trimmed) asks for a random theme.
pub fn select_theme(input: &String, count: usize) -> (r: Result<Selection, SelectError>)
    ensures
        trimmed(input@).len() == 0 ==> r == if count == 0 {
            Err::<Selection, SelectError>(SelectError::NoThemes)
        } else {
            Ok(Selection::Random)
        },
        trimmed(input@).len() != 0 && !parses_as_usize(trimmed(input@)) ==> r == Err::<
            Selection,
            SelectError,
        >(SelectError::NotANumber),
        trimmed(input@).len() != 0 && parses_as_usize(trimmed(input@)) ==> {
            let v = digits_value(unsigned_digits(trimmed(input@)));
            r == if v == 0 || v > count {
                Err::<Selection, SelectError>(SelectError::OutOfRange { count })
            } else {
                Ok(Selection::Index((v - 1) as usize))
            }
        },
{
    let answer = trim_whitespace(input.as_str());
    if answer.is_empty() {
        if count == 0 {
            return Err(SelectError::NoThemes);
        }
        return Ok(Selection::Random);
    }
    match parse_usize(answer) {
        None => Err(SelectError::NotANumber),
        Some(v) => {
            if v == 0 || v > count {
                Err(SelectError::OutOfRange { count })
            } else {
                Ok(Selection::Index(v - 1))
            }
        },
    }
}

} // verus!
