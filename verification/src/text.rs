//! Verified string algorithms: substring search, extraction between
//! delimiters, replacement of every occurrence, and decimal formatting.
//! Everything the protocol layer does with page text is built on these.

use vstd::prelude::*;
use vstd::string::*;

use crate::error::WltError;

verus! {

/// `p` occurs in `t` at position `i`.
pub open spec fn match_at(t: Seq<char>, p: Seq<char>, i: int) -> bool {
    &&& 0 <= i
    &&& i + p.len() <= t.len()
    &&& t.subrange(i, i + p.len() as int) == p
}

/// `p` occurs somewhere in `t`.
pub open spec fn contains_seq(t: Seq<char>, p: Seq<char>) -> bool {
    exists|i: int| match_at(t, p, i)
}

/// Position of the leftmost occurrence of `p` in `t`, if any.
pub open spec fn find_seq(t: Seq<char>, p: Seq<char>) -> Option<int>
    decreases t.len(),
{
    if t.len() < p.len() {
        None
    } else if p.len() == 0 {
        Some(0)
    } else if t.subrange(0, p.len() as int) == p {
        Some(0)
    } else {
        match find_seq(t.drop_first(), p) {
            None => None,
            Some(i) => Some(i + 1),
        }
    }
}

/// `find_seq` returns the leftmost occurrence, and returns `None` exactly
/// when there is no occurrence at all.
pub proof fn lemma_find_seq_characterizes(t: Seq<char>, p: Seq<char>)
    ensures
        match find_seq(t, p) {
            Some(i) => 0 <= i && match_at(t, p, i) && (forall|j: int|
                0 <= j < i ==> !match_at(t, p, j)),
            None => forall|j: int| !match_at(t, p, j),
        },
    decreases t.len(),
{
    if t.len() < p.len() {
    } else if p.len() == 0 {
        assert(t.subrange(0, 0) =~= p);
    } else if t.subrange(0, p.len() as int) == p {
    } else {
        let t2 = t.drop_first();
        lemma_find_seq_characterizes(t2, p);
        assert forall|j: int| 0 <= j implies match_at(t, p, j + 1) == match_at(t2, p, j) by {
            if j + p.len() <= t2.len() {
                assert(t2.subrange(j, j + p.len() as int) =~= t.subrange(
                    j + 1,
                    j + 1 + p.len() as int,
                ));
            }
        }
        match find_seq(t2, p) {
            None => {
                assert forall|j: int| !match_at(t, p, j) by {
                    if j > 0 {
                        assert(!match_at(t2, p, j - 1));
                    }
                }
            },
            Some(i) => {
                assert(match_at(t, p, i + 1));
                assert forall|j: int| 0 <= j < i + 1 implies !match_at(t, p, j) by {
                    if j > 0 {
                        assert(!match_at(t2, p, j - 1));
                    }
                }
            },
        }
    }
}

/// A sequence contains `p` exactly when `find_seq` finds it.
pub proof fn lemma_contains_find(t: Seq<char>, p: Seq<char>)
    ensures
        contains_seq(t, p) <==> find_seq(t, p) is Some,
{
    lemma_find_seq_characterizes(t, p);
    if find_seq(t, p) is Some {
        assert(match_at(t, p, find_seq(t, p)->0));
    }
}

/// Does `p` occur in `t` starting exactly at `i`?
fn match_at_str(t: &str, p: &str, i: usize) -> (b: bool)
    requires
        i + p@.len() <= t@.len(),
        t@.len() <= usize::MAX,
    ensures
        b == match_at(t@, p@, i as int),
{
    let plen = p.unicode_len();
    let mut j: usize = 0;
    while j < plen
        invariant
            plen == p@.len(),
            i + plen <= t@.len() <= usize::MAX,
            j <= plen,
            forall|k: int| 0 <= k < j ==> t@[i + k] == p@[k],
        decreases plen - j,
    {
        if t.get_char(i + j) != p.get_char(j) {
            assert(t@.subrange(i as int, i + plen as int)[j as int] != p@[j as int]);
            return false;
        }
        j += 1;
    }
    assert(t@.subrange(i as int, i + plen as int) =~= p@);
    true
}

/// Index of the leftmost occurrence of `p` in `t`, or `None` when `p` does
/// not occur in `t`.
pub fn find_str(t: &str, p: &str) -> (r: Option<usize>)
    ensures
        match r {
            Some(i) => find_seq(t@, p@) == Some(i as int),
            None => find_seq(t@, p@) is None,
        },
{
    let tlen = t.unicode_len();
    let plen = p.unicode_len();
    proof {
        lemma_find_seq_characterizes(t@, p@);
    }
    if plen > tlen {
        return None;
    }
    if plen == 0 {
        proof {
            assert(t@.subrange(0, 0) =~= p@);
            assert(match_at(t@, p@, 0));
            if find_seq(t@, p@) is None {
                assert(!match_at(t@, p@, 0));
            }
        }
        return Some(0);
    }
    let mut i: usize = 0;
    loop
        invariant
            tlen == t@.len() <= usize::MAX,
            plen == p@.len() <= tlen,
            1 <= plen,
            i <= tlen - plen + 1,
            forall|j: int| 0 <= j < i ==> !match_at(t@, p@, j),
        decreases tlen + 1 - i,
    {
        if i > tlen - plen {
            assert forall|j: int| !match_at(t@, p@, j) by {
                if 0 <= j <= tlen - plen {
                    assert(!match_at(t@, p@, j));
                }
            }
            assert(find_seq(t@, p@) is None) by {
                lemma_find_seq_characterizes(t@, p@);
                if find_seq(t@, p@) is Some {
                    assert(match_at(t@, p@, find_seq(t@, p@)->0));
                }
            }
            return None;
        }
        if match_at_str(t, p, i) {
            proof {
                lemma_find_seq_characterizes(t@, p@);
                match find_seq(t@, p@) {
                    Some(k) => {
                        if k < i {
                            assert(!match_at(t@, p@, k));
                        }
                        if k > i {
                            assert(!match_at(t@, p@, i as int));
                        }
                    },
                    None => {
                        assert(!match_at(t@, p@, i as int));
                    },
                }
            }
            return Some(i);
        }
        i += 1;
    }
}

/// Does `t` begin with `p`?
pub fn starts_with_str(t: &str, p: &str) -> (b: bool)
    ensures
        b == (t@.len() >= p@.len() && t@.subrange(0, p@.len() as int) == p@),
{
    let tlen = t.unicode_len();
    let plen = p.unicode_len();
    if plen > tlen {
        return false;
    }
    match_at_str(t, p, 0)
}

/// Exact equality of two strings' character sequences.
pub fn str_eq(a: &str, b: &str) -> (r: bool)
    ensures
        r == (a@ == b@),
{
    let alen = a.unicode_len();
    let blen = b.unicode_len();
    if alen != blen {
        return false;
    }
    let r = starts_with_str(a, b);
    proof {
        assert(a@.subrange(0, alen as int) =~= a@);
    }
    r
}

/// `p` occurs somewhere in `t`.
pub fn contains_str(t: &str, p: &str) -> (b: bool)
    ensures
        b == contains_seq(t@, p@),
{
    proof {
        lemma_contains_find(t@, p@);
    }
    match find_str(t, p) {
        Some(_) => true,
        None => false,
    }
}

/// The text strictly between the leftmost occurrence of `l` and the leftmost
/// following occurrence of `r`, or `None` when either delimiter is absent.
pub open spec fn between_seq(t: Seq<char>, l: Seq<char>, r: Seq<char>) -> Option<Seq<char>> {
    match find_seq(t, l) {
        None => None,
        Some(i) => {
            let rest = t.subrange(i + l.len() as int, t.len() as int);
            match find_seq(rest, r) {
                None => None,
                Some(j) => Some(rest.subrange(0, j)),
            }
        },
    }
}

/// The substring of `text` strictly between the leftmost occurrence of
/// `left` and the next occurrence of `right` after it.  Fails with a parse
/// error naming the missing delimiter when one of them is absent.
pub fn get_str_between<'a>(text: &'a str, left: &str, right: &str) -> (res: Result<
    &'a str,
    WltError,
>)
    ensures
        match res {
            Ok(s) => between_seq(text@, left@, right@) == Some(s@),
            Err(e) => between_seq(text@, left@, right@) is None && (e matches WltError::Missing {
                needle,
            } && if find_seq(text@, left@) is None {
                needle@ == left@
            } else {
                needle@ == right@
            }),
        },
{
    let tlen = text.unicode_len();
    let llen = left.unicode_len();
    let i = match find_str(text, left) {
        Some(i) => i,
        None => {
            return Err(WltError::Missing { needle: String::from_str(left) });
        },
    };
    proof {
        lemma_find_seq_characterizes(text@, left@);
    }
    let rest = text.substring_char(i + llen, tlen);
    let j = match find_str(rest, right) {
        Some(j) => j,
        None => {
            return Err(WltError::Missing { needle: String::from_str(right) });
        },
    };
    proof {
        lemma_find_seq_characterizes(rest@, right@);
    }
    Ok(rest.substring_char(0, j))
}

/// `t` with every (leftmost-first, non-overlapping) occurrence of `p`
/// replaced by `to`; `t` itself when `p` is empty.
pub open spec fn replace_seq(t: Seq<char>, p: Seq<char>, to: Seq<char>) -> Seq<char>
    decreases t.len(),
{
    if p.len() == 0 || t.len() < p.len() {
        t
    } else if t.subrange(0, p.len() as int) == p {
        to + replace_seq(t.subrange(p.len() as int, t.len() as int), p, to)
    } else {
        seq![t[0]] + replace_seq(t.drop_first(), p, to)
    }
}

/// `t` with every occurrence of `p` replaced by `to` (leftmost first,
/// non-overlapping); `t` unchanged when `p` is empty.
pub fn replace_all(t: &str, p: &str, to: &str) -> (r: String)
    ensures
        r@ == replace_seq(t@, p@, to@),
{
    let tlen = t.unicode_len();
    let plen = p.unicode_len();
    if plen == 0 {
        return String::from_str(t);
    }
    let mut out = String::new();
    let mut i: usize = 0;
    proof {
        assert(t@.subrange(0, tlen as int) =~= t@);
        assert(out@ + replace_seq(t@, p@, to@) =~= replace_seq(t@, p@, to@));
    }
    while tlen - i >= plen
        invariant
            tlen == t@.len() <= usize::MAX,
            plen == p@.len(),
            plen >= 1,
            i <= tlen,
            out@ + replace_seq(t@.subrange(i as int, tlen as int), p@, to@) == replace_seq(
                t@,
                p@,
                to@,
            ),
        decreases tlen - i,
    {
        let ghost suffix = t@.subrange(i as int, tlen as int);
        let ghost out0 = out@;
        if match_at_str(t, p, i) {
            out.append(to);
            proof {
                let rest = t@.subrange(i + plen as int, tlen as int);
                assert(suffix.subrange(0, plen as int) =~= t@.subrange(i as int, i + plen as int));
                assert(suffix.subrange(plen as int, suffix.len() as int) =~= rest);
                assert(replace_seq(suffix, p@, to@) == to@ + replace_seq(rest, p@, to@));
                assert((out0 + to@) + replace_seq(rest, p@, to@) =~= out0 + (to@ + replace_seq(
                    rest,
                    p@,
                    to@,
                )));
            }
            i += plen;
        } else {
            let c = t.substring_char(i, i + 1);
            out.append(c);
            proof {
                let rest = t@.subrange(i + 1 as int, tlen as int);
                assert(suffix.subrange(0, plen as int) =~= t@.subrange(i as int, i + plen as int));
                assert(suffix.drop_first() =~= rest);
                assert(seq![suffix[0]] =~= c@);
                assert(replace_seq(suffix, p@, to@) == c@ + replace_seq(rest, p@, to@));
                assert((out0 + c@) + replace_seq(rest, p@, to@) =~= out0 + (c@ + replace_seq(
                    rest,
                    p@,
                    to@,
                )));
            }
            i += 1;
        }
    }
    let tail = t.substring_char(i, tlen);
    out.append(tail);
    proof {
        assert(replace_seq(tail@, p@, to@) == tail@);
    }
    out
}

/// The decimal digits of `n`, most significant first, no sign, no padding.
pub open spec fn dec_seq(n: nat) -> Seq<char>
    decreases n,
{
    if n < 10 {
        seq![digit_char(n)]
    } else {
        dec_seq(n / 10).push(digit_char(n % 10))
    }
}

/// The character for the decimal digit `d` (only the values 0 to 9 matter).
pub open spec fn digit_char(d: nat) -> char {
    if d == 0 {
        '0'
    } else if d == 1 {
        '1'
    } else if d == 2 {
        '2'
    } else if d == 3 {
        '3'
    } else if d == 4 {
        '4'
    } else if d == 5 {
        '5'
    } else if d == 6 {
        '6'
    } else if d == 7 {
        '7'
    } else if d == 8 {
        '8'
    } else {
        '9'
    }
}

/// The one-character string for the decimal digit `d`.
pub fn digit_str(d: u32) -> (r: &'static str)
    requires
        d < 10,
    ensures
        r@ =~= seq![digit_char(d as nat)],
{
    let r: &'static str = if d == 0 {
        proof {
            reveal_strlit("0");
        }
        "0"
    } else if d == 1 {
        proof {
            reveal_strlit("1");
        }
        "1"
    } else if d == 2 {
        proof {
            reveal_strlit("2");
        }
        "2"
    } else if d == 3 {
        proof {
            reveal_strlit("3");
        }
        "3"
    } else if d == 4 {
        proof {
            reveal_strlit("4");
        }
        "4"
    } else if d == 5 {
        proof {
            reveal_strlit("5");
        }
        "5"
    } else if d == 6 {
        proof {
            reveal_strlit("6");
        }
        "6"
    } else if d == 7 {
        proof {
            reveal_strlit("7");
        }
        "7"
    } else if d == 8 {
        proof {
            reveal_strlit("8");
        }
        "8"
    } else {
        proof {
            reveal_strlit("9");
        }
        "9"
    };
    r
}

/// `n` written in decimal.
pub fn u32_dec(n: u32) -> (r: String)
    ensures
        r@ == dec_seq(n as nat),
    decreases n,
{
    let d = digit_str(n % 10);
    if n < 10 {
        String::from_str(d)
    } else {
        let mut s = u32_dec(n / 10);
        s.append(d);
        proof {
            assert(dec_seq((n / 10) as nat) + seq![digit_char((n % 10) as nat)] =~= dec_seq(
                (n / 10) as nat,
            ).push(digit_char((n % 10) as nat)));
        }
        s
    }
}

} // verus!

