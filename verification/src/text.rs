//! Character-level building blocks: decimal rendering of submission
//! identifiers and resolution of the `{dir}` placeholder in toolchain
//! command templates.

use vstd::prelude::*;

verus! {

use vstd::string::StringExecFns;
use vstd::string::StrSliceExecFns;
use vstd::arithmetic::div_mod::lemma_fundamental_div_mod;

/// The character that writes the decimal digit `d`.
pub open spec fn digit_char(d: int) -> char {
    if d == 0 {
        '0'
    } else if d == 1 {
        '1'
    } else if d == 2 {
        '2'
    } else if d == 3 {
        '3'
    } else if d == 4 {
        '4'
    } else if d == 5 {
        '5'
    } else if d == 6 {
        '6'
    } else if d == 7 {
        '7'
    } else if d == 8 {
        '8'
    } else {
        '9'
    }
}

/// The value a decimal digit character stands for.
pub open spec fn digit_val(c: char) -> int {
    if c == '0' {
        0
    } else if c == '1' {
        1
    } else if c == '2' {
        2
    } else if c == '3' {
        3
    } else if c == '4' {
        4
    } else if c == '5' {
        5
    } else if c == '6' {
        6
    } else if c == '7' {
        7
    } else if c == '8' {
        8
    } else {
        9
    }
}

/// The decimal writing of `n`, most significant digit first, with no
/// leading zero except for `n == 0` itself.
pub open spec fn dec_seq(n: nat) -> Seq<char>
    decreases n,
{
    if n < 10 {
        seq![digit_char(n as int)]
    } else {
        dec_seq(n / 10).push(digit_char((n % 10) as int))
    }
}

/// The number a sequence of decimal digit characters writes.
pub open spec fn dec_val(s: Seq<char>) -> int
    decreases s.len(),
{
    if s.len() == 0 {
        0
    } else {
        dec_val(s.drop_last()) * 10 + digit_val(s.last())
    }
}

/// Reading back the decimal writing of `n` yields `n`.
proof fn lemma_dec_seq_val(n: nat)
    ensures
        dec_val(dec_seq(n)) == n,
    decreases n,
{
    if n < 10 {
        assert(dec_seq(n).drop_last() =~= Seq::<char>::empty());
        assert(dec_val(Seq::<char>::empty()) == 0);
        assert(dec_seq(n).last() == digit_char(n as int));
        assert(digit_val(digit_char(n as int)) == n);
    } else {
        lemma_dec_seq_val(n / 10);
        assert(dec_seq(n).drop_last() =~= dec_seq(n / 10));
        assert(dec_seq(n).last() == digit_char((n % 10) as int));
        assert(digit_val(digit_char((n % 10) as int)) == n % 10);
        lemma_fundamental_div_mod(n as int, 10);
        assert(dec_val(dec_seq(n)) == (n / 10) * 10 + n % 10);
    }
}

/// Distinct numbers have distinct decimal writings.
pub proof fn lemma_dec_seq_injective(a: nat, b: nat)
    requires
        a != b,
    ensures
        dec_seq(a) != dec_seq(b),
{
    lemma_dec_seq_val(a);
    lemma_dec_seq_val(b);
}

/// The one-character string for the decimal digit `d`.
fn digit_str(d: u64) -> (s: &'static str)
    requires
        d < 10,
    ensures
        s@.len() == 1,
        s@[0] == digit_char(d as int),
{
    match d {
        0 => {
            proof {
                reveal_strlit("0");
            }
            "0"
        },
        1 => {
            proof {
                reveal_strlit("1");
            }
            "1"
        },
        2 => {
            proof {
                reveal_strlit("2");
            }
            "2"
        },
        3 => {
            proof {
                reveal_strlit("3");
            }
            "3"
        },
        4 => {
            proof {
                reveal_strlit("4");
            }
            "4"
        },
        5 => {
            proof {
                reveal_strlit("5");
            }
            "5"
        },
        6 => {
            proof {
                reveal_strlit("6");
            }
            "6"
        },
        7 => {
            proof {
                reveal_strlit("7");
            }
            "7"
        },
        8 => {
            proof {
                reveal_strlit("8");
            }
            "8"
        },
        _ => {
            proof {
                reveal_strlit("9");
            }
            "9"
        },
    }
}

/// Writes `n` in decimal.
pub fn u64_string(n: u64) -> (s: String)
    ensures
        s@ == dec_seq(n as nat),
    decreases n,
{
    if n < 10 {
        let s = digit_str(n).to_owned();
        proof {
            assert(s@ =~= dec_seq(n as nat));
        }
        s
    } else {
        proof {
            assert(n / 10 < n) by (nonlinear_arith)
                requires
                    n >= 10,
            ;
        }
        let mut s = u64_string(n / 10);
        s.append(digit_str(n % 10));
        proof {
            assert(s@ =~= dec_seq(n as nat));
        }
        s
    }
}

/// The placeholder that a command template writes where the submission's
/// workspace directory path belongs.
pub open spec fn placeholder() -> Seq<char> {
    seq!['{', 'd', 'i', 'r', '}']
}

/// `t` with every occurrence of the placeholder replaced by `d`, scanning
/// left to right.
pub open spec fn resolve_seq(t: Seq<char>, d: Seq<char>) -> Seq<char>
    decreases t.len(),
{
    if t.len() == 0 {
        Seq::empty()
    } else if t.len() >= 5 && t.take(5) == placeholder() {
        d + resolve_seq(t.skip(5), d)
    } else {
        seq![t[0]] + resolve_seq(t.skip(1), d)
    }
}

/// Whether the placeholder stands in `t` at position `i`.
fn matches_placeholder_at(t: &str, i: usize, n: usize) -> (r: bool)
    requires
        n == t@.len(),
        i < n,
    ensures
        r == (i + 5 <= t@.len() && t@.skip(i as int).take(5) == placeholder()),
{
    if n - i < 5 {
        return false;
    }
    let r = t.get_char(i) == '{' && t.get_char(i + 1) == 'd' && t.get_char(i + 2) == 'i'
        && t.get_char(i + 3) == 'r' && t.get_char(i + 4) == '}';
    proof {
        let w = t@.skip(i as int).take(5);
        assert(w.len() == 5);
        assert(w[0] == t@[i as int] && w[1] == t@[i as int + 1] && w[2] == t@[i as int + 2]
            && w[3] == t@[i as int + 3] && w[4] == t@[i as int + 4]);
        if r {
            assert(w =~= placeholder());
        } else {
            assert(w != placeholder());
        }
    }
    r
}

/// Replaces every occurrence of the `{dir}` placeholder in the template `t`
/// with the directory path `d`.
pub fn resolve_template(t: &str, d: &str) -> (r: String)
    ensures
        r@ == resolve_seq(t@, d@),
{
    let n = t.unicode_len();
    let mut r = String::new();
    let mut i: usize = 0;
    proof {
        assert(t@.skip(0) =~= t@);
        assert(Seq::<char>::empty() + resolve_seq(t@, d@) =~= resolve_seq(t@, d@));
    }
    while i < n
        invariant
            i <= n,
            n == t@.len(),
            resolve_seq(t@, d@) == r@ + resolve_seq(t@.skip(i as int), d@),
        decreases n - i,
    {
        if matches_placeholder_at(t, i, n) {
            proof {
                assert(t@.skip(i as int).skip(5) =~= t@.skip(i as int + 5));
                assert((r@ + d@) + resolve_seq(t@.skip(i as int + 5), d@) =~= r@ + (d@
                    + resolve_seq(t@.skip(i as int + 5), d@)));
            }
            r.append(d);
            i = i + 5;
        } else {
            let piece = t.substring_char(i, i + 1);
            proof {
                let rest = t@.skip(i as int);
                assert(rest[0] == t@[i as int]);
                assert(piece@ =~= seq![rest[0]]);
                assert(rest.skip(1) =~= t@.skip(i as int + 1));
                assert((r@ + piece@) + resolve_seq(t@.skip(i as int + 1), d@) =~= r@ + (
                piece@ + resolve_seq(t@.skip(i as int + 1), d@)));
            }
            r.append(piece);
            i = i + 1;
        }
    }
    proof {
        assert(t@.skip(n as int) =~= Seq::<char>::empty());
        assert(r@ + Seq::<char>::empty() =~= r@);
    }
    r
}

/// The elementwise resolution of a list of command templates.
pub open spec fn resolve_all_seq(ts: Seq<Seq<char>>, d: Seq<char>) -> Seq<Seq<char>> {
    ts.map_values(|t: Seq<char>| resolve_seq(t, d))
}

/// Resolves the `{dir}` placeholder in every argument of a command template.
pub fn resolve_all(ts: &Vec<String>, d: &str) -> (r: Vec<String>)
    ensures
        r.deep_view() == resolve_all_seq(ts.deep_view(), d@),
{
    let mut r: Vec<String> = Vec::new();
    let n = ts.len();
    for i in 0..n
        invariant
            n == ts.len(),
            r@.len() == i,
            r.deep_view() =~= resolve_all_seq(ts.deep_view(), d@).take(i as int),
    {
        let val = resolve_template(ts[i].as_str(), d);
        let ghost vv = val@;
        r.push(val);
        proof {
            assert(r@.len() == i + 1);
            assert(r@[i as int]@ == vv);
            assert(ts.deep_view()[i as int] == ts@[i as int]@);
            assert(vv == resolve_seq(ts.deep_view()[i as int], d@));
            assert(resolve_all_seq(ts.deep_view(), d@)[i as int] == resolve_seq(
                ts.deep_view()[i as int],
                d@,
            ));
            assert(r.deep_view() =~= resolve_all_seq(ts.deep_view(), d@).take(i as int + 1));
        }
    }
    proof {
        assert(resolve_all_seq(ts.deep_view(), d@).take(n as int) =~= resolve_all_seq(
            ts.deep_view(),
            d@,
        ));
    }
    r
}

} // verus!
