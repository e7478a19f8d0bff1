//! Verified text helpers: locating a separator, splitting on a separator,
//! and character-wise equality of string slices.

use vstd::prelude::*;

verus! {

/// The sequence of views of a sequence of strings.
pub open spec fn seq_view(v: Seq<String>) -> Seq<Seq<char>> {
    v.map_values(|s: String| s@)
}

/// Index of the first occurrence of `sep` in `s`, or `-1` when `sep` does not
/// occur.
pub open spec fn find_char(s: Seq<char>, sep: char) -> int
    decreases s.len(),
{
    if s.len() == 0 {
        -1
    } else if s[0] == sep {
        0
    } else {
        let r = find_char(s.drop_first(), sep);
        if r < 0 {
            -1
        } else {
            r + 1
        }
    }
}

/// `find_char` returns either the position of the first occurrence of the
/// separator or `-1` when there is none.
pub proof fn lemma_find_char(s: Seq<char>, sep: char)
    ensures
        find_char(s, sep) >= 0 ==> {
            &&& find_char(s, sep) < s.len()
            &&& s[find_char(s, sep)] == sep
            &&& forall|j: int| 0 <= j < find_char(s, sep) ==> s[j] != sep
        },
        find_char(s, sep) < 0 ==> forall|j: int| 0 <= j < s.len() ==> s[j] != sep,
    decreases s.len(),
{
    if s.len() == 0 {
    } else if s[0] == sep {
    } else {
        lemma_find_char(s.drop_first(), sep);
        assert forall|j: int| 0 <= j < s.len() && j >= 1 implies s[j] == s.drop_first()[j - 1] by {}
    }
}

/// A position holding the separator, with none before it, is exactly what
/// `find_char` returns.
pub proof fn lemma_find_char_first(s: Seq<char>, sep: char, i: int)
    requires
        0 <= i < s.len(),
        s[i] == sep,
        forall|j: int| 0 <= j < i ==> s[j] != sep,
    ensures
        find_char(s, sep) == i,
    decreases i,
{
    if i == 0 {
    } else {
        assert(s[0] != sep);
        assert(s.drop_first()[i - 1] == s[i]);
        assert forall|j: int| 0 <= j < i - 1 implies s.drop_first()[j] != sep by {
            assert(s.drop_first()[j] == s[j + 1]);
        }
        lemma_find_char_first(s.drop_first(), sep, i - 1);
    }
}

/// The pieces of `s` between occurrences of `sep`, in order; a string without
/// the separator is one piece, and every separator ends a piece.
pub open spec fn split_on(s: Seq<char>, sep: char) -> Seq<Seq<char>>
    decreases s.len(),
    via split_on_decreases
{
    let i = find_char(s, sep);
    if i < 0 {
        seq![s]
    } else {
        seq![s.take(i)] + split_on(s.skip(i + 1), sep)
    }
}

#[via_fn]
proof fn split_on_decreases(s: Seq<char>, sep: char) {
    lemma_find_char(s, sep);
}

/// Position of the first occurrence of `sep` in `s`, when there is one.
pub fn find_in_str(s: &str, sep: char) -> (r: Option<usize>)
    ensures
        match r {
            Some(i) => find_char(s@, sep) == i as int,
            None => find_char(s@, sep) < 0,
        },
{
    let n = s.unicode_len();
    let mut j: usize = 0;
    while j < n
        invariant
            j <= n,
            n == s@.len(),
            forall|k: int| 0 <= k < j ==> s@[k] != sep,
        decreases n - j,
    {
        if s.get_char(j) == sep {
            proof {
                lemma_find_char_first(s@, sep, j as int);
            }
            return Some(j);
        }
        j += 1;
    }
    proof {
        lemma_find_char(s@, sep);
    }
    None
}

/// The pieces of `s` between occurrences of `sep`, as owned strings.
pub fn split_str(s: &str, sep: char) -> (r: Vec<String>)
    ensures
        seq_view(r@) == split_on(s@, sep),
{
    let mut out: Vec<String> = Vec::new();
    let mut rest: &str = s;
    loop
        invariant_except_break
            split_on(s@, sep) == seq_view(out@) + split_on(rest@, sep),
        ensures
            split_on(s@, sep) == seq_view(out@),
        decreases rest@.len(),
    {
        let ghost prev = out@;
        let ghost rest_view = rest@;
        match find_in_str(rest, sep) {
            Some(i) => {
                proof {
                    lemma_find_char(rest@, sep);
                }
                let n = rest.unicode_len();
                let head = rest.substring_char(0, i).to_owned();
                out.push(head);
                rest = rest.substring_char(i + 1, n);
                proof {
                    assert(split_on(rest_view, sep) == seq![rest_view.take(i as int)] + split_on(
                        rest_view.skip(i as int + 1),
                        sep,
                    ));
                    assert(seq_view(out@) =~= seq_view(prev).push(rest_view.take(i as int)));
                    assert(seq_view(prev).push(rest_view.take(i as int)) + split_on(rest@, sep)
                        =~= seq_view(prev) + split_on(rest_view, sep));
                }
            },
            None => {
                out.push(rest.to_owned());
                proof {
                    assert(split_on(rest_view, sep) == seq![rest_view]);
                    assert(seq_view(out@) =~= seq_view(prev).push(rest_view));
                    assert(seq_view(prev).push(rest_view) =~= seq_view(prev) + seq![rest_view]);
                }
                break;
            },
        }
    }
    out
}

/// Character-wise equality of two string slices.
pub fn str_eq(a: &str, b: &str) -> (r: bool)
    ensures
        r == (a@ == b@),
{
    let na = a.unicode_len();
    let nb = b.unicode_len();
    if na != nb {
        return false;
    }
    let mut j: usize = 0;
    while j < na
        invariant
            j <= na,
            na == a@.len(),
            na == b@.len(),
            forall|k: int| 0 <= k < j ==> a@[k] == b@[k],
        decreases na - j,
    {
        if a.get_char(j) != b.get_char(j) {
            return false;
        }
        j += 1;
    }
    proof {
        assert(a@ =~= b@);
    }
    true
}

/// The strings a vector holds, copied.
pub fn copy_strings(v: &Vec<String>) -> (r: Vec<String>)
    ensures
        seq_view(r@) == seq_view(v@),
{
    let mut out: Vec<String> = Vec::new();
    let mut i: usize = 0;
    while i < v.len()
        invariant
            i <= v.len(),
            out@.len() == i,
            forall|k: int| 0 <= k < i ==> out@[k]@ == v@[k]@,
        decreases v.len() - i,
    {
        out.push(v[i].clone());
        i += 1;
    }
    proof {
        assert(seq_view(out@) =~= seq_view(v@));
    }
    out
}

/// The strings of `v` in reverse order.
pub fn reverse_strings(v: Vec<String>) -> (r: Vec<String>)
    ensures
        seq_view(r@) == seq_view(v@).reverse(),
{
    let mut out: Vec<String> = Vec::new();
    let mut i: usize = v.len();
    while i > 0
        invariant
            i <= v.len(),
            out@.len() == v@.len() - i,
            forall|k: int| 0 <= k < out@.len() ==> out@[k]@ == v@[v@.len() - 1 - k]@,
        decreases i,
    {
        i = i - 1;
        out.push(v[i].clone());
    }
    proof {
        assert(seq_view(out@) =~= seq_view(v@).reverse());
    }
    out
}

} // verus!
