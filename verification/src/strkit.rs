//! String helpers: concatenation, suffix tests, and lexicographic order
//! on character sequences, with an insertion sort over lists of strings.

use vstd::multiset::Multiset;
use vstd::prelude::*;
use vstd::string::StrSliceExecFns;
use vstd::string::StringExecFns;

verus! {

/// Appends `b` to a copy of `a`.
pub fn str_concat(a: &str, b: &str) -> (r: String)
    ensures
        r@ == a@ + b@,
{
    let mut r = a.to_owned();
    r.append(b);
    r
}

/// Whether `t` is a suffix of `s`.
pub open spec fn ends_with(s: Seq<char>, t: Seq<char>) -> bool {
    t.len() <= s.len() && s.skip(s.len() - t.len()) == t
}

/// Suffix test over characters.
pub fn str_ends_with(s: &str, suffix: &str) -> (r: bool)
    ensures
        r == ends_with(s@, suffix@),
{
    let n = s.unicode_len();
    let m = suffix.unicode_len();
    if m > n {
        return false;
    }
    let mut i: usize = 0;
    while i < m
        invariant
            i <= m,
            m <= n,
            n == s@.len(),
            m == suffix@.len(),
            forall|j: int| 0 <= j < i ==> s@[n - m + j] == suffix@[j],
        decreases m - i,
    {
        if s.get_char(n - m + i) != suffix.get_char(i) {
            proof {
                assert(s@.skip(n - m) != suffix@) by {
                    assert(s@.skip(s@.len() - m)[i as int] == s@[n - m + i]);
                }
            }
            return false;
        }
        i += 1;
    }
    proof {
        assert(s@.skip(n - m) =~= suffix@);
    }
    true
}

/// Lexicographic order on character sequences, by code point.
pub open spec fn lex_leq(a: Seq<char>, b: Seq<char>) -> bool
    decreases a.len(),
{
    if a.len() == 0 {
        true
    } else if b.len() == 0 {
        false
    } else if a[0] != b[0] {
        (a[0] as u32) < (b[0] as u32)
    } else {
        lex_leq(a.skip(1), b.skip(1))
    }
}

/// Decides [`lex_leq`] on two strings.
pub fn str_lex_leq(a: &str, b: &str) -> (r: bool)
    ensures
        r == lex_leq(a@, b@),
{
    let an = a.unicode_len();
    let bn = b.unicode_len();
    let mut i: usize = 0;
    proof {
        assert(a@.skip(0) =~= a@);
        assert(b@.skip(0) =~= b@);
    }
    loop
        invariant
            i <= an,
            i <= bn,
            an == a@.len(),
            bn == b@.len(),
            lex_leq(a@, b@) == lex_leq(a@.skip(i as int), b@.skip(i as int)),
        decreases an - i,
    {
        if i == an {
            return true;
        }
        if i == bn {
            return false;
        }
        let ca = a.get_char(i);
        let cb = b.get_char(i);
        proof {
            assert(a@.skip(i as int)[0] == a@[i as int]);
            assert(b@.skip(i as int)[0] == b@[i as int]);
        }
        if ca != cb {
            return (ca as u32) < (cb as u32);
        }
        proof {
            assert(a@.skip(i as int).skip(1) =~= a@.skip(i + 1));
            assert(b@.skip(i as int).skip(1) =~= b@.skip(i + 1));
        }
        i += 1;
    }
}

/// The part of a path after its last separator; the whole path when it
/// has none, and empty when it ends in one.
pub open spec fn basename_spec(s: Seq<char>) -> Seq<char>
    decreases s.len(),
{
    if s.len() == 0 {
        s
    } else if s.last() == '/' {
        Seq::<char>::empty()
    } else {
        basename_spec(s.drop_last()).push(s.last())
    }
}

/// `basename_spec` is the suffix after the last separator.
proof fn lemma_basename_skip(s: Seq<char>, cut: int)
    requires
        0 <= cut <= s.len(),
        forall|j: int| cut <= j < s.len() ==> s[j] != '/',
        cut == 0 || s[cut - 1] == '/',
    ensures
        basename_spec(s) == s.skip(cut),
    decreases s.len(),
{
    if cut == s.len() {
        if s.len() > 0 {
            assert(s.last() == '/');
        }
        assert(basename_spec(s) =~= s.skip(cut));
    } else {
        assert(s.last() != '/');
        lemma_basename_skip(s.drop_last(), cut);
        assert(basename_spec(s.drop_last()).push(s.last()) =~= s.skip(cut));
    }
}

/// Extracts [`basename_spec`] from a path.
pub fn path_basename(s: &str) -> (r: String)
    ensures
        r@ == basename_spec(s@),
{
    let n = s.unicode_len();
    let mut cut = n;
    while cut > 0
        invariant
            cut <= n,
            n == s@.len(),
            forall|j: int| cut <= j < s@.len() ==> s@[j] != '/',
        ensures
            cut <= n,
            forall|j: int| cut <= j < s@.len() ==> s@[j] != '/',
            cut == 0 || s@[cut - 1] == '/',
        decreases cut,
    {
        if s.get_char(cut - 1) == '/' {
            break ;
        }
        cut -= 1;
    }
    proof {
        lemma_basename_skip(s@, cut as int);
    }
    let r = s.substring_char(cut, n);
    r.to_owned()
}

/// Whether `s` is sorted under [`lex_leq`].
pub open spec fn sorted_lex(s: Seq<Seq<char>>) -> bool {
    forall|i: int, j: int| 0 <= i < j < s.len() ==> lex_leq(#[trigger] s[i], #[trigger] s[j])
}

/// [`lex_leq`] is total: one direction always holds.
pub proof fn lemma_lex_total(a: Seq<char>, b: Seq<char>)
    ensures
        lex_leq(a, b) || lex_leq(b, a),
    decreases a.len(),
{
    if a.len() == 0 {
    } else if b.len() == 0 {
    } else if a[0] != b[0] {
        vstd::utf8::char_u32_cast(a[0], a[0] as u32);
        vstd::utf8::char_u32_cast(b[0], b[0] as u32);
        assert((a[0] as u32) != (b[0] as u32));
    } else {
        lemma_lex_total(a.skip(1), b.skip(1));
    }
}

/// [`lex_leq`] is transitive.
pub proof fn lemma_lex_trans(a: Seq<char>, b: Seq<char>, c: Seq<char>)
    requires
        lex_leq(a, b),
        lex_leq(b, c),
    ensures
        lex_leq(a, c),
    decreases a.len(),
{
    if a.len() == 0 {
    } else {
        assert(b.len() > 0);
        assert(c.len() > 0);
        if a[0] == b[0] && b[0] == c[0] {
            lemma_lex_trans(a.skip(1), b.skip(1), c.skip(1));
        }
    }
}

/// Where `x` belongs in the already sorted `s`: before the first element
/// it does not exceed, keeping everything else in place.
pub open spec fn insert_sorted_spec(x: Seq<char>, s: Seq<Seq<char>>) -> Seq<Seq<char>>
    decreases s.len(),
{
    if s.len() == 0 {
        seq![x]
    } else if lex_leq(x, s[0]) {
        seq![x] + s
    } else {
        seq![s[0]] + insert_sorted_spec(x, s.skip(1))
    }
}

/// The insertion sort of `s` under [`lex_leq`].
pub open spec fn sort_strs(s: Seq<Seq<char>>) -> Seq<Seq<char>>
    decreases s.len(),
{
    if s.len() == 0 {
        Seq::<Seq<char>>::empty()
    } else {
        insert_sorted_spec(s[0], sort_strs(s.skip(1)))
    }
}

/// Inserting into a sorted list keeps it sorted and adds exactly the
/// new element.
pub proof fn lemma_insert_sorted_spec(x: Seq<char>, s: Seq<Seq<char>>)
    requires
        sorted_lex(s),
    ensures
        sorted_lex(insert_sorted_spec(x, s)),
        insert_sorted_spec(x, s).to_multiset() == s.to_multiset().insert(x),
        insert_sorted_spec(x, s).len() == s.len() + 1,
    decreases s.len(),
{
    broadcast use vstd::seq_lib::group_to_multiset_ensures;

    let out = insert_sorted_spec(x, s);
    if s.len() == 0 {
        assert(seq![x] =~= Seq::<Seq<char>>::empty().insert(0, x));
        vstd::seq_lib::to_multiset_insert(Seq::<Seq<char>>::empty(), 0, x);
        assert(Seq::<Seq<char>>::empty().to_multiset() =~= Multiset::<Seq<char>>::empty());
    } else if lex_leq(x, s[0]) {
        assert(out =~= s.insert(0, x));
        vstd::seq_lib::to_multiset_insert(s, 0, x);
        assert forall|i: int, j: int| 0 <= i < j < out.len() implies lex_leq(out[i], out[j]) by {
            if i == 0 {
                if j > 1 {
                    lemma_lex_trans(x, s[0], s[j - 1]);
                }
            }
        }
    } else {
        let rest = s.skip(1);
        assert(forall|i: int| 0 <= i < rest.len() ==> rest[i] == s[i + 1]);
        assert(sorted_lex(rest));
        lemma_insert_sorted_spec(x, rest);
        let ins = insert_sorted_spec(x, rest);
        assert(out =~= ins.insert(0, s[0]));
        vstd::seq_lib::to_multiset_insert(ins, 0, s[0]);
        assert(rest =~= s.skip(1));
        assert(s =~= rest.insert(0, s[0]));
        vstd::seq_lib::to_multiset_insert(rest, 0, s[0]);
        lemma_lex_total(x, s[0]);
        assert(lex_leq(s[0], x));
        assert forall|i: int, j: int| 0 <= i < j < out.len() implies lex_leq(out[i], out[j]) by {
            if i == 0 {
                let y = ins[j - 1];
                assert(ins.to_multiset().contains(y));
                if y == x {
                    assert(lex_leq(s[0], y));
                } else {
                    assert(rest.to_multiset().contains(y));
                    assert(rest.contains(y));
                    let k = choose|k: int| 0 <= k < rest.len() && rest[k] == y;
                    assert(lex_leq(s[0], s[k + 1]));
                }
            } else {
                assert(lex_leq(ins[i - 1], ins[j - 1]));
            }
        }
    }
}

/// The insertion sort is sorted and a permutation of its input.
pub proof fn lemma_sort_strs_sorted(s: Seq<Seq<char>>)
    ensures
        sorted_lex(sort_strs(s)),
        sort_strs(s).to_multiset() == s.to_multiset(),
        sort_strs(s).len() == s.len(),
    decreases s.len(),
{
    broadcast use vstd::seq_lib::group_to_multiset_ensures;

    if s.len() == 0 {
        assert(sort_strs(s) =~= Seq::<Seq<char>>::empty());
    } else {
        let rest = s.skip(1);
        lemma_sort_strs_sorted(rest);
        lemma_insert_sorted_spec(s[0], sort_strs(rest));
        assert(s =~= rest.insert(0, s[0]));
        vstd::seq_lib::to_multiset_insert(rest, 0, s[0]);
    }
}

/// Inserts `x` into the sorted list `v` as [`insert_sorted_spec`] says.
pub fn insert_sorted(x: String, v: Vec<String>) -> (r: Vec<String>)
    ensures
        r.deep_view() == insert_sorted_spec(x@, v.deep_view()),
    decreases v.len(),
{
    let mut v = v;
    if v.len() == 0 {
        v.push(x);
        proof {
            assert(v.deep_view() =~= seq![x@]);
        }
        v
    } else if str_lex_leq(x.as_str(), v[0].as_str()) {
        proof {
            assert(v.deep_view()[0] == v@[0]@);
        }
        let ghost pre = v.deep_view();
        let mut r: Vec<String> = Vec::new();
        r.push(x);
        r.append(&mut v);
        proof {
            assert(r.deep_view() =~= seq![x@] + pre);
        }
        r
    } else {
        proof {
            assert(v.deep_view()[0] == v@[0]@);
        }
        let ghost pre = v.deep_view();
        let first = v.remove(0);
        proof {
            assert(v.deep_view() =~= pre.skip(1));
        }
        let rest = insert_sorted(x, v);
        let mut r: Vec<String> = Vec::new();
        r.push(first);
        let mut rest = rest;
        r.append(&mut rest);
        proof {
            assert(r.deep_view() =~= seq![first@] + insert_sorted_spec(x@, pre.skip(1)));
        }
        r
    }
}

/// Sorts `v` under [`lex_leq`] as [`sort_strs`] says.
pub fn sort_strings(v: Vec<String>) -> (r: Vec<String>)
    ensures
        r.deep_view() == sort_strs(v.deep_view()),
    decreases v.len(),
{
    let mut v = v;
    if v.len() == 0 {
        proof {
            assert(v.deep_view() =~= Seq::<Seq<char>>::empty());
        }
        v
    } else {
        proof {
            assert(v.deep_view()[0] == v@[0]@);
        }
        let ghost pre = v.deep_view();
        let first = v.remove(0);
        proof {
            assert(v.deep_view() =~= pre.skip(1));
        }
        let sorted = sort_strings(v);
        insert_sorted(first, sorted)
    }
}

} // verus!
