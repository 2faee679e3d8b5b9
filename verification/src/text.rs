//! Verified text helpers: whitespace normalization of phrases and
//! decimal rendering of path indices.

use vstd::prelude::*;

verus! {

/// The characters with the Unicode `White_Space` property, the set that
/// `str::split_whitespace` splits on.
pub open spec fn is_space_char(c: char) -> bool {
    ||| c == '\u{09}'
    ||| c == '\u{0a}'
    ||| c == '\u{0b}'
    ||| c == '\u{0c}'
    ||| c == '\u{0d}'
    ||| c == ' '
    ||| c == '\u{85}'
    ||| c == '\u{a0}'
    ||| c == '\u{1680}'
    ||| c == '\u{2000}'
    ||| c == '\u{2001}'
    ||| c == '\u{2002}'
    ||| c == '\u{2003}'
    ||| c == '\u{2004}'
    ||| c == '\u{2005}'
    ||| c == '\u{2006}'
    ||| c == '\u{2007}'
    ||| c == '\u{2008}'
    ||| c == '\u{2009}'
    ||| c == '\u{200a}'
    ||| c == '\u{2028}'
    ||| c == '\u{2029}'
    ||| c == '\u{202f}'
    ||| c == '\u{205f}'
    ||| c == '\u{3000}'
}

/// Decides `is_space_char`.
pub fn is_space(c: char) -> (r: bool)
    ensures
        r == is_space_char(c),
{
    c == '\u{09}' || c == '\u{0a}' || c == '\u{0b}' || c == '\u{0c}' || c == '\u{0d}' || c == ' '
        || c == '\u{85}' || c == '\u{a0}' || c == '\u{1680}' || c == '\u{2000}' || c == '\u{2001}'
        || c == '\u{2002}' || c == '\u{2003}' || c == '\u{2004}' || c == '\u{2005}'
        || c == '\u{2006}' || c == '\u{2007}' || c == '\u{2008}' || c == '\u{2009}'
        || c == '\u{200a}' || c == '\u{2028}' || c == '\u{2029}' || c == '\u{202f}'
        || c == '\u{205f}' || c == '\u{3000}'
}

/// The normalization of the first `i` characters of `s`: words separated
/// by single spaces, with no leading or trailing whitespace.
pub open spec fn norm_upto(s: Seq<char>, i: int) -> Seq<char>
    decreases i,
{
    if i <= 0 {
        Seq::<char>::empty()
    } else {
        let prev = norm_upto(s, i - 1);
        let c = s[i - 1];
        if is_space_char(c) {
            prev
        } else if prev.len() == 0 {
            prev.push(c)
        } else if is_space_char(s[i - 2]) {
            prev + seq![' ', c]
        } else {
            prev.push(c)
        }
    }
}

/// Whitespace normalization of a whole string: runs of whitespace collapse
/// to one space, and leading and trailing whitespace is dropped.
pub open spec fn normalize_spec(s: Seq<char>) -> Seq<char> {
    norm_upto(s, s.len() as int)
}

/// A string in normal form: its only whitespace is single plain spaces
/// strictly between non-space characters.
pub open spec fn is_normalized(s: Seq<char>) -> bool {
    &&& forall|j: int| 0 <= j < s.len() ==> (is_space_char(#[trigger] s[j]) ==> s[j] == ' ')
    &&& s.len() > 0 ==> !is_space_char(s[0]) && !is_space_char(s[s.len() - 1])
    &&& forall|j: int| 1 <= j < s.len() ==> !(is_space_char(s[j - 1]) && is_space_char(#[trigger] s[j]))
}

/// Every normalization prefix is in normal form.
proof fn lemma_norm_upto_normalized(s: Seq<char>, i: int)
    ensures
        is_normalized(norm_upto(s, i)),
    decreases i,
{
    if i <= 0 {
    } else {
        lemma_norm_upto_normalized(s, i - 1);
        let prev = norm_upto(s, i - 1);
        let c = s[i - 1];
        let o = norm_upto(s, i);
        if is_space_char(c) {
        } else if prev.len() == 0 {
            assert(o =~= seq![c]);
        } else if is_space_char(s[i - 2]) {
            assert(o == prev + seq![' ', c]);
            assert(o[o.len() - 1] == c);
            assert(forall|j: int| 0 <= j < prev.len() ==> o[j] == prev[j]);
            assert(o[prev.len() as int] == ' ');
            assert(!is_space_char(prev[prev.len() - 1]));
        } else {
            assert(o == prev.push(c));
            assert(forall|j: int| 0 <= j < prev.len() ==> o[j] == prev[j]);
            assert(o[o.len() - 1] == c);
        }
    }
}

/// The normalization of any string is in normal form.
pub proof fn lemma_normalize_normalized(s: Seq<char>)
    ensures
        is_normalized(normalize_spec(s)),
{
    lemma_norm_upto_normalized(s, s.len() as int);
}

/// Collapses runs of whitespace into single spaces and trims both ends,
/// as `split_whitespace` followed by a single-space join would.
pub fn normalize(s: &str) -> (r: String)
    ensures
        r@ == normalize_spec(s@),
        is_normalized(r@),
{
    let n = s.unicode_len();
    let mut out = String::new();
    let mut i: usize = 0;
    let mut prev_space = true;
    while i < n
        invariant
            i <= n,
            n == s@.len(),
            out@ == norm_upto(s@, i as int),
            i > 0 ==> prev_space == is_space_char(s@[i as int - 1]),
        decreases n - i,
    {
        let c = s.get_char(i);
        let c_space = is_space(c);
        if !c_space {
            let piece = s.substring_char(i, i + 1);
            proof {
                assert(piece@ =~= seq![s@[i as int]]);
            }
            if out.as_str().unicode_len() == 0 {
                out.append(piece);
                proof {
                    assert(out@ =~= norm_upto(s@, i as int + 1));
                }
            } else if prev_space {
                proof {
                    reveal_strlit(" ");
                }
                out.append(" ");
                out.append(piece);
                proof {
                    assert(i > 0);
                    assert(out@ =~= norm_upto(s@, i as int + 1));
                }
            } else {
                out.append(piece);
                proof {
                    assert(out@ =~= norm_upto(s@, i as int + 1));
                }
            }
        }
        prev_space = c_space;
        i = i + 1;
    }
    proof {
        lemma_normalize_normalized(s@);
    }
    out
}

/// How many spaces `s` holds.
pub open spec fn space_count(s: Seq<char>) -> nat
    decreases s.len(),
{
    if s.len() == 0 {
        0
    } else {
        space_count(s.drop_last()) + if s.last() == ' ' {
            1nat
        } else {
            0nat
        }
    }
}

/// How many words a normalized string holds: one more than its spaces,
/// and none when it is empty.
pub open spec fn word_count_sq(s: Seq<char>) -> nat {
    if s.len() == 0 {
        0
    } else {
        space_count(s) + 1
    }
}

/// The decimal digit `d` as a character.
pub open spec fn digit_char(d: nat) -> char {
    if d == 0 {
        '0'
    } else if d == 1 {
        '1'
    } else if d == 2 {
        '2'
    } else if d == 3 {
        '3'
    } else if d == 4 {
        '4'
    } else if d == 5 {
        '5'
    } else if d == 6 {
        '6'
    } else if d == 7 {
        '7'
    } else if d == 8 {
        '8'
    } else {
        '9'
    }
}

/// The usual decimal rendering of `n`, with no leading zeros except for
/// `n == 0` itself.
pub open spec fn dec_str(n: nat) -> Seq<char>
    decreases n,
{
    if n < 10 {
        seq![digit_char(n)]
    } else {
        dec_str(n / 10).push(digit_char(n % 10))
    }
}

/// Appends the single decimal digit `d` to `out`.
fn append_digit(out: &mut String, d: usize)
    requires
        d < 10,
    ensures
        final(out)@ == old(out)@ + seq![digit_char(d as nat)],
{
    proof {
        reveal_strlit("0");
        reveal_strlit("1");
        reveal_strlit("2");
        reveal_strlit("3");
        reveal_strlit("4");
        reveal_strlit("5");
        reveal_strlit("6");
        reveal_strlit("7");
        reveal_strlit("8");
        reveal_strlit("9");
    }
    if d == 0 {
        out.append("0");
    } else if d == 1 {
        out.append("1");
    } else if d == 2 {
        out.append("2");
    } else if d == 3 {
        out.append("3");
    } else if d == 4 {
        out.append("4");
    } else if d == 5 {
        out.append("5");
    } else if d == 6 {
        out.append("6");
    } else if d == 7 {
        out.append("7");
    } else if d == 8 {
        out.append("8");
    } else {
        out.append("9");
    }
    proof {
        assert(out@ =~= old(out)@ + seq![digit_char(d as nat)]);
    }
}

/// Appends the decimal rendering of `n` to `out`.
pub fn append_decimal(out: &mut String, n: usize)
    ensures
        final(out)@ == old(out)@ + dec_str(n as nat),
    decreases n,
{
    if n < 10 {
        append_digit(out, n);
    } else {
        proof {
            assert(n / 10 < n) by (nonlinear_arith)
                requires
                    n >= 10,
            ;
        }
        append_decimal(out, n / 10);
        append_digit(out, n % 10);
        proof {
            assert(out@ =~= old(out)@ + dec_str(n as nat));
        }
    }
}

} // verus!
