//! URL-safe base64 without padding.
use vstd::prelude::*;
use vstd::string::StrSliceExecFns;

verus! {

/// The 6-bit value of a URL-safe base64 digit.
pub open spec fn sextet(c: char) -> Option<u32> {
    if 'A' <= c <= 'Z' {
        Some((c as u32 - 'A' as u32) as u32)
    } else if 'a' <= c <= 'z' {
        Some((c as u32 - 'a' as u32 + 26) as u32)
    } else if '0' <= c <= '9' {
        Some((c as u32 - '0' as u32 + 52) as u32)
    } else if c == '-' {
        Some(62)
    } else if c == '_' {
        Some(63)
    } else {
        None
    }
}

/// The bytes of one group of two to four digits; the bits a short group
/// leaves over must be zero.
pub open spec fn group_bytes(g: Seq<char>) -> Option<Seq<u8>> {
    if g.len() < 2 || g.len() > 4 || sextet(g[0]) is None || sextet(g[1]) is None {
        None
    } else {
        let a = sextet(g[0])->Some_0;
        let b = sextet(g[1])->Some_0;
        if g.len() == 2 {
            if b % 16 == 0 {
                Some(seq![(a * 4 + b / 16) as u8])
            } else {
                None
            }
        } else if sextet(g[2]) is None {
            None
        } else {
            let c = sextet(g[2])->Some_0;
            if g.len() == 3 {
                if c % 4 == 0 {
                    Some(seq![(a * 4 + b / 16) as u8, ((b % 16) * 16 + c / 4) as u8])
                } else {
                    None
                }
            } else if sextet(g[3]) is None {
                None
            } else {
                let d = sextet(g[3])->Some_0;
                Some(
                    seq![
                        (a * 4 + b / 16) as u8,
                        ((b % 16) * 16 + c / 4) as u8,
                        ((c % 4) * 64 + d) as u8,
                    ],
                )
            }
        }
    }
}

/// The bytes that URL-safe, unpadded base64 text denotes.
pub open spec fn b64u_decoded(s: Seq<char>) -> Option<Seq<u8>>
    decreases s.len(),
{
    if s.len() == 0 {
        Some(Seq::empty())
    } else if s.len() <= 4 {
        group_bytes(s)
    } else {
        match (group_bytes(s.subrange(0, 4)), b64u_decoded(s.subrange(4, s.len() as int))) {
            (Some(g), Some(r)) => Some(g + r),
            _ => None,
        }
    }
}

fn sextet_of(c: char) -> (r: Option<u32>)
    ensures
        r == sextet(c),
{
    if 'A' <= c && c <= 'Z' {
        Some(c as u32 - 'A' as u32)
    } else if 'a' <= c && c <= 'z' {
        Some(c as u32 - 'a' as u32 + 26)
    } else if '0' <= c && c <= '9' {
        Some(c as u32 - '0' as u32 + 52)
    } else if c == '-' {
        Some(62)
    } else if c == '_' {
        Some(63)
    } else {
        None
    }
}

/// Decodes the group `s[i..i + len]` onto `out`.
fn decode_group(s: &str, i: usize, len: usize, out: &mut Vec<u8>) -> (ok: bool)
    requires
        2 <= len <= 4,
        i + len <= s@.len(),
        s@.len() <= usize::MAX,
    ensures
        ok == (group_bytes(s@.subrange(i as int, i + len)) is Some),
        ok ==> final(out)@ == old(out)@ + group_bytes(s@.subrange(i as int, i + len))->Some_0,
{
    let ghost g = s@.subrange(i as int, i + len);
    let a = match sextet_of(s.get_char(i)) {
        Some(v) => v,
        None => return false,
    };
    let b = match sextet_of(s.get_char(i + 1)) {
        Some(v) => v,
        None => return false,
    };
    assert(g[0] == s@[i as int] && g[1] == s@[i + 1]);
    if len == 2 {
        if b % 16 != 0 {
            return false;
        }
        out.push((a * 4 + b / 16) as u8);
        assert(out@ =~= old(out)@ + seq![(a * 4 + b / 16) as u8]);
        return true;
    }
    let c = match sextet_of(s.get_char(i + 2)) {
        Some(v) => v,
        None => return false,
    };
    assert(g[2] == s@[i + 2]);
    if len == 3 {
        if c % 4 != 0 {
            return false;
        }
        out.push((a * 4 + b / 16) as u8);
        out.push(((b % 16) * 16 + c / 4) as u8);
        assert(out@ =~= old(out)@ + seq![(a * 4 + b / 16) as u8, ((b % 16) * 16 + c / 4) as u8]);
        return true;
    }
    let d = match sextet_of(s.get_char(i + 3)) {
        Some(v) => v,
        None => return false,
    };
    assert(g[3] == s@[i + 3]);
    out.push((a * 4 + b / 16) as u8);
    out.push(((b % 16) * 16 + c / 4) as u8);
    out.push(((c % 4) * 64 + d) as u8);
    assert(out@ =~= old(out)@ + seq![
        (a * 4 + b / 16) as u8,
        ((b % 16) * 16 + c / 4) as u8,
        ((c % 4) * 64 + d) as u8,
    ]);
    true
}

/// The bytes of URL-safe, unpadded base64 text, or `None` when it is not such text.
pub fn b64u_decode(s: &str) -> (r: Option<Vec<u8>>)
    ensures
        r matches Some(v) ==> b64u_decoded(s@) == Some(v@),
        r is None ==> b64u_decoded(s@) is None,
{
    let n = s.unicode_len();
    let mut out: Vec<u8> = Vec::new();
    let mut i: usize = 0;
    assert(s@.subrange(0, n as int) =~= s@);
    while n - i > 4
        invariant
            n == s@.len(),
            i <= n,
            b64u_decoded(s@) == (match b64u_decoded(s@.subrange(i as int, n as int)) {
                Some(rest) => Some(out@ + rest),
                None => None,
            }),
        decreases n - i,
    {
        let ghost tail = s@.subrange(i as int, n as int);
        assert(tail.subrange(0, 4) =~= s@.subrange(i as int, i + 4));
        assert(tail.subrange(4, tail.len() as int) =~= s@.subrange(i + 4, n as int));
        let ghost before = out@;
        if !decode_group(s, i, 4, &mut out) {
            return None;
        }
        proof {
            let g = group_bytes(s@.subrange(i as int, i + 4))->Some_0;
            match b64u_decoded(s@.subrange(i + 4, n as int)) {
                Some(rest) => {
                    assert(before + (g + rest) =~= (before + g) + rest);
                },
                None => {},
            }
        }
        i = i + 4;
    }
    let ghost tail = s@.subrange(i as int, n as int);
    if n - i == 0 {
        assert(out@ + Seq::<u8>::empty() =~= out@);
        return Some(out);
    }
    if n - i == 1 {
        return None;
    }
    assert(tail =~= s@.subrange(i as int, i + (n - i)));
    if decode_group(s, i, n - i, &mut out) {
        Some(out)
    } else {
        None
    }
}

} // verus!
