//! Configuration values read from the environment: parsing and defaults.
//! The caller reads each variable and hands over its text, if set.
use vstd::prelude::*;
use vstd::string::StrSliceExecFns;
use crate::b64::{b64u_decode, b64u_decoded};

verus! {

#[derive(Clone, Copy, Debug)]
pub enum Error {
    MissingEnv(&'static str),
    WrongFormat(&'static str),
}

pub open spec fn is_digit(c: char) -> bool {
    '0' <= c <= '9'
}

/// The number a string of decimal digits denotes.
pub open spec fn digits_value(s: Seq<char>) -> nat
    decreases s.len(),
{
    if s.len() == 0 {
        0
    } else {
        digits_value(s.drop_last()) * 10 + (s.last() as nat - '0' as nat) as nat
    }
}

/// The digits of an unsigned number's text: after an optional `+`.
pub open spec fn unsigned_body(s: Seq<char>) -> Seq<char> {
    if s.len() > 0 && s[0] == '+' {
        s.drop_first()
    } else {
        s
    }
}

/// The value of `s` read as an unsigned decimal no greater than `max`, as
/// `FromStr` reads unsigned integers: an optional `+`, then one or more
/// digits.
pub open spec fn unsigned_of(s: Seq<char>, max: nat) -> Option<nat> {
    let body = unsigned_body(s);
    if body.len() > 0 && (forall|i: int| 0 <= i < body.len() ==> is_digit(body[i]))
        && digits_value(body) <= max {
        Some(digits_value(body))
    } else {
        None
    }
}

/// The boolean `s` denotes, as `FromStr` reads it.
pub open spec fn bool_of(s: Seq<char>) -> Option<bool> {
    if s == "true"@ {
        Some(true)
    } else if s == "false"@ {
        Some(false)
    } else {
        None
    }
}

proof fn lemma_prefix_value_le(s: Seq<char>, j: int)
    requires
        0 <= j <= s.len(),
        forall|i: int| 0 <= i < s.len() ==> is_digit(s[i]),
    ensures
        digits_value(s.subrange(0, j)) <= digits_value(s),
    decreases s.len(),
{
    if j < s.len() {
        assert(s.drop_last().subrange(0, j) =~= s.subrange(0, j));
        lemma_prefix_value_le(s.drop_last(), j);
    } else {
        assert(s.subrange(0, j) =~= s);
    }
}

/// Reads an unsigned decimal no greater than `max`.
pub fn parse_unsigned(s: &str, max: u64) -> (r: Option<u64>)
    ensures
        r matches Some(v) ==> unsigned_of(s@, max as nat) == Some(v as nat),
        r is None ==> unsigned_of(s@, max as nat) is None,
{
    let n = s.unicode_len();
    let mut start: usize = 0;
    if n > 0 && s.get_char(0) == '+' {
        start = 1;
    }
    let ghost body = unsigned_body(s@);
    assert(body =~= s@.subrange(start as int, n as int));
    if start == n {
        return None;
    }
    let mut acc: u64 = 0;
    let mut i: usize = start;
    while i < n
        invariant
            n == s@.len(),
            start <= i <= n,
            body == unsigned_body(s@),
            body == s@.subrange(start as int, n as int),
            forall|m: int| 0 <= m < i - start ==> is_digit(body[m]),
            acc as nat == digits_value(body.subrange(0, i - start)),
            acc <= max,
        decreases n - i,
    {
        let c = s.get_char(i);
        assert(body[i - start] == c);
        if !('0' <= c && c <= '9') {
            assert(!is_digit(body[i - start]));
            return None;
        }
        let d = (c as u32 - '0' as u32) as u64;
        let ghost pre = body.subrange(0, i - start);
        assert(body.subrange(0, i + 1 - start).drop_last() =~= pre);
        assert(digits_value(body.subrange(0, i + 1 - start)) == acc * 10 + d);
        if d > max || acc > (max - d) / 10 {
            proof {
                if d <= max {
                    assert(acc * 10 + d > max) by (nonlinear_arith)
                        requires
                            acc > (max - d) / 10,
                            d <= max,
                    {
                    }
                }
                if forall|m: int| 0 <= m < body.len() ==> is_digit(body[m]) {
                    lemma_prefix_value_le(body, i + 1 - start);
                }
            }
            return None;
        }
        proof {
            assert(acc * 10 + d <= max) by (nonlinear_arith)
                requires
                    acc <= (max - d) / 10,
                    d <= max,
            {
            }
        }
        acc = acc * 10 + d;
        i = i + 1;
    }
    assert(body.subrange(0, n - start) =~= body);
    Some(acc)
}

/// The trait of values a configuration variable can be read as.
pub trait EnvParse: Sized {
    /// The value that the text `s` denotes, if any.
    spec fn parsed(s: Seq<char>) -> Option<Self>;

    fn parse_env(s: &str) -> (r: Option<Self>)
        ensures
            r == Self::parsed(s@),
    ;
}

impl EnvParse for u32 {
    open spec fn parsed(s: Seq<char>) -> Option<u32> {
        match unsigned_of(s, u32::MAX as nat) {
            Some(v) => Some(v as u32),
            None => None,
        }
    }

    fn parse_env(s: &str) -> (r: Option<u32>) {
        match parse_unsigned(s, u32::MAX as u64) {
            Some(v) => Some(v as u32),
            None => None,
        }
    }
}

impl EnvParse for u64 {
    open spec fn parsed(s: Seq<char>) -> Option<u64> {
        match unsigned_of(s, u64::MAX as nat) {
            Some(v) => Some(v as u64),
            None => None,
        }
    }

    fn parse_env(s: &str) -> (r: Option<u64>) {
        parse_unsigned(s, u64::MAX)
    }
}

impl EnvParse for bool {
    open spec fn parsed(s: Seq<char>) -> Option<bool> {
        bool_of(s)
    }

    fn parse_env(s: &str) -> (r: Option<bool>) {
        let n = s.unicode_len();
        proof {
            reveal_strlit("true");
            reveal_strlit("false");
        }
        if n == 4 && s.get_char(0) == 't' && s.get_char(1) == 'r' && s.get_char(2) == 'u'
            && s.get_char(3) == 'e' {
            assert(s@ =~= "true"@);
            Some(true)
        } else if n == 5 && s.get_char(0) == 'f' && s.get_char(1) == 'a' && s.get_char(2) == 'l'
            && s.get_char(3) == 's' && s.get_char(4) == 'e' {
            assert(s@ =~= "false"@);
            Some(false)
        } else {
            assert(s@ != "true"@ && s@ != "false"@) by {
                if s@ == "true"@ {
                    assert(s@[1] == 'r');
                }
                if s@ == "false"@ {
                    assert(s@[1] == 'a');
                }
            }
            None
        }
    }
}

/// The text of a variable that must be set: `MissingEnv` when it is not.
pub fn get_env(name: &'static str, value: Option<String>) -> (r: Result<String, Error>)
    ensures
        value matches Some(s) ==> r == Ok::<String, Error>(s),
        value is None ==> r == Err::<String, Error>(Error::MissingEnv(name)),
{
    match value {
        Some(s) => Ok(s),
        None => Err(Error::MissingEnv(name)),
    }
}

/// A variable read as a `T`: `MissingEnv` when it is not set, `WrongFormat`
/// when its text denotes no `T`.
pub fn get_env_parse<T: EnvParse>(name: &'static str, value: Option<String>) -> (r: Result<T, Error>)
    ensures
        value is None ==> r == Err::<T, Error>(Error::MissingEnv(name)),
        value matches Some(s) ==> r == (match T::parsed(s@) {
            Some(v) => Ok::<T, Error>(v),
            None => Err(Error::WrongFormat(name)),
        }),
{
    match value {
        Some(s) => match T::parse_env(s.as_str()) {
            Some(v) => Ok(v),
            None => Err(Error::WrongFormat(name)),
        },
        None => Err(Error::MissingEnv(name)),
    }
}

/// A variable read as URL-safe, unpadded base64: `MissingEnv` when it is not
/// set, `WrongFormat` when its text is not such base64.
pub fn get_env_b64u_as_u8s(name: &'static str, value: Option<String>) -> (r: Result<Vec<u8>, Error>)
    ensures
        value is None ==> r == Err::<Vec<u8>, Error>(Error::MissingEnv(name)),
        value matches Some(s) ==> match b64u_decoded(s@) {
            Some(b) => r matches Ok(v) && v@ == b,
            None => r == Err::<Vec<u8>, Error>(Error::WrongFormat(name)),
        },
{
    let s = get_env(name, value)?;
    match b64u_decode(s.as_str()) {
        Some(v) => Ok(v),
        None => Err(Error::WrongFormat(name)),
    }
}

/// `r`, or `default` when `r` says the variable is not set.
pub fn if_missing<T>(r: Result<T, Error>, default: T) -> (out: Result<T, Error>)
    ensures
        r matches Err(Error::MissingEnv(_)) ==> out == Ok::<T, Error>(default),
        !(r matches Err(Error::MissingEnv(_))) ==> out == r,
{
    match r {
        Err(Error::MissingEnv(_)) => Ok(default),
        other => other,
    }
}

} // verus!
