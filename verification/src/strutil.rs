//! Verified helpers on strings and character sequences: comparison,
//! lexicographic order, sorted tag lists, trimming and searching.
use vstd::prelude::*;

verus! {

/// Compare two string slices character for character.
pub fn str_eq(a: &str, b: &str) -> (r: bool)
    ensures
        r == (a@ == b@),
{
    let n = a.unicode_len();
    let m = b.unicode_len();
    if n != m {
        proof {
            assert(a@.len() != b@.len());
        }
        return false;
    }
    let mut i: usize = 0;
    while i < n
        invariant
            n == a@.len(),
            n == b@.len(),
            i <= n,
            forall|k: int| 0 <= k < i ==> a@[k] == b@[k],
        decreases n - i,
    {
        if a.get_char(i) != b.get_char(i) {
            return false;
        }
        i += 1;
    }
    proof {
        assert(a@ =~= b@);
    }
    true
}

/// Compare two strings character for character.
pub fn string_eq(a: &String, b: &String) -> (r: bool)
    ensures
        r == (a@ == b@),
{
    a.eq(b)
}

/// Relies on String::push: appends one character at the end of the string.
#[verifier::external_body]
pub fn push_char(s: &mut String, c: char)
    ensures
        final(s)@ == old(s)@.push(c),
{
    s.push(c);
}

/// The characters of a string slice, as a vector.
pub fn chars_of(s: &str) -> (r: Vec<char>)
    ensures
        r@ == s@,
{
    let n = s.unicode_len();
    let mut out: Vec<char> = Vec::new();
    let mut i: usize = 0;
    while i < n
        invariant
            n == s@.len(),
            i <= n,
            out@ == s@.take(i as int),
        decreases n - i,
    {
        out.push(s.get_char(i));
        proof {
            assert(out@ =~= s@.take(i + 1));
        }
        i += 1;
    }
    proof {
        assert(s@.take(n as int) =~= s@);
    }
    out
}

/// Build a string out of a vector of characters.
pub fn string_from_chars(v: &Vec<char>) -> (r: String)
    ensures
        r@ == v@,
{
    let mut s = String::new();
    let mut i: usize = 0;
    while i < v.len()
        invariant
            i <= v@.len(),
            s@ == v@.take(i as int),
        decreases v@.len() - i,
    {
        push_char(&mut s, v[i]);
        proof {
            assert(s@ =~= v@.take(i + 1));
        }
        i += 1;
    }
    proof {
        assert(v@.take(v@.len() as int) =~= v@);
    }
    s
}

/// Strict lexicographic order on character sequences.
pub open spec fn lex_lt(a: Seq<char>, b: Seq<char>) -> bool
    decreases a.len(),
{
    if b.len() == 0 {
        false
    } else if a.len() == 0 {
        true
    } else if a[0] != b[0] {
        (a[0] as int) < (b[0] as int)
    } else {
        lex_lt(a.drop_first(), b.drop_first())
    }
}

/// The order is irreflexive.
pub proof fn lemma_lex_lt_irrefl(a: Seq<char>)
    ensures
        !lex_lt(a, a),
    decreases a.len(),
{
    if a.len() > 0 {
        lemma_lex_lt_irrefl(a.drop_first());
    }
}

/// Of two distinct sequences, exactly one precedes the other.
pub proof fn lemma_lex_lt_trichotomy(a: Seq<char>, b: Seq<char>)
    ensures
        lex_lt(a, b) || lex_lt(b, a) || a == b,
        !(lex_lt(a, b) && lex_lt(b, a)),
        lex_lt(a, b) ==> a != b,
    decreases a.len() + b.len(),
{
    if a.len() == 0 && b.len() == 0 {
        assert(a =~= b);
    } else if a.len() > 0 && b.len() > 0 {
        lemma_lex_lt_trichotomy(a.drop_first(), b.drop_first());
        if a[0] == b[0] && a.drop_first() == b.drop_first() {
            assert forall|i: int| 0 <= i < a.len() implies a[i] == b[i] by {
                if i > 0 {
                    assert(a.drop_first()[i - 1] == b.drop_first()[i - 1]);
                }
            }
            assert(a =~= b);
        }
        lemma_lex_lt_irrefl(a);
    }
}

/// The order is transitive.
pub proof fn lemma_lex_lt_trans(a: Seq<char>, b: Seq<char>, c: Seq<char>)
    requires
        lex_lt(a, b),
        lex_lt(b, c),
    ensures
        lex_lt(a, c),
    decreases a.len() + b.len() + c.len(),
{
    if b.len() == 0 {
        // lex_lt(a, b) impossible
    } else if c.len() == 0 {
        // lex_lt(b, c) impossible
    } else if a.len() == 0 {
        // lex_lt(a, c) trivial
    } else {
        if a[0] == b[0] && b[0] == c[0] {
            lemma_lex_lt_trans(a.drop_first(), b.drop_first(), c.drop_first());
        }
    }
}

/// How the order is decided at the first differing position.
proof fn lemma_lex_lt_at(a: Seq<char>, b: Seq<char>, i: int)
    requires
        0 <= i <= a.len(),
        0 <= i <= b.len(),
        forall|j: int| 0 <= j < i ==> a[j] == b[j],
    ensures
        i < a.len() && i < b.len() && a[i] != b[i] ==> lex_lt(a, b) == ((a[i] as int) < (b[i] as int)),
        i == a.len() && i < b.len() ==> lex_lt(a, b),
        i == b.len() && i < a.len() ==> !lex_lt(a, b),
        i == a.len() && i == b.len() ==> !lex_lt(a, b),
    decreases i,
{
    if i == 0 {
        if a.len() > 0 && b.len() > 0 && a[0] == b[0] {
        }
        if i == a.len() && i == b.len() {
            lemma_lex_lt_irrefl(a);
            assert(a =~= b);
        }
    } else {
        assert(a.len() > 0 && b.len() > 0 && a[0] == b[0]);
        let a1 = a.drop_first();
        let b1 = b.drop_first();
        assert(forall|j: int| 0 <= j < i - 1 ==> a1[j] == b1[j]);
        lemma_lex_lt_at(a1, b1, i - 1);
        if i == a.len() && i == b.len() {
            lemma_lex_lt_irrefl(a);
        }
    }
}

/// Decide the lexicographic order of two string slices.
pub fn str_lt(a: &str, b: &str) -> (r: bool)
    ensures
        r == lex_lt(a@, b@),
{
    let n = a.unicode_len();
    let m = b.unicode_len();
    let mut i: usize = 0;
    loop
        invariant
            n == a@.len(),
            m == b@.len(),
            i <= n,
            i <= m,
            forall|j: int| 0 <= j < i ==> a@[j] == b@[j],
        decreases n - i,
    {
        if i >= n || i >= m {
            proof {
                lemma_lex_lt_at(a@, b@, i as int);
            }
            return n < m;
        }
        let ca = a.get_char(i);
        let cb = b.get_char(i);
        if ca != cb {
            proof {
                lemma_lex_lt_at(a@, b@, i as int);
            }
            return (ca as u32) < (cb as u32);
        }
        i += 1;
    }
}

/// A list of tags in strictly increasing order (hence without duplicates).
pub open spec fn strictly_sorted(s: Seq<Seq<char>>) -> bool {
    forall|i: int, j: int| 0 <= i < j < s.len() ==> lex_lt(s[i], s[j])
}

/// A strictly sorted list is determined by which elements it contains.
pub proof fn lemma_sorted_unique(a: Seq<Seq<char>>, b: Seq<Seq<char>>)
    requires
        strictly_sorted(a),
        strictly_sorted(b),
        forall|e: Seq<char>| a.contains(e) <==> b.contains(e),
    ensures
        a == b,
    decreases a.len(),
{
    if a.len() == 0 {
        if b.len() > 0 {
            assert(b.contains(b[0]));
            assert(a.contains(b[0]));
        }
        assert(a =~= b);
    } else {
        assert(a.contains(a[0]));
        assert(b.contains(a[0]));
        let j = choose|j: int| 0 <= j < b.len() && b[j] == a[0];
        assert(b.contains(b[0]));
        assert(a.contains(b[0]));
        let k = choose|k: int| 0 <= k < a.len() && a[k] == b[0];
        if a[0] != b[0] {
            assert(j != 0);
            assert(lex_lt(b[0], b[j]));
            assert(k != 0);
            assert(lex_lt(a[0], a[k]));
            lemma_lex_lt_trichotomy(a[0], b[0]);
            assert(false);
        }
        let a1 = a.drop_first();
        let b1 = b.drop_first();
        assert forall|e: Seq<char>| a1.contains(e) implies b1.contains(e) by {
            let i = choose|i: int| 0 <= i < a1.len() && a1[i] == e;
            assert(a[i + 1] == e);
            assert(lex_lt(a[0], a[i + 1]));
            lemma_lex_lt_trichotomy(a[0], e);
            assert(e != b[0]);
            assert(a.contains(e));
            assert(b.contains(e));
            let m = choose|m: int| 0 <= m < b.len() && b[m] == e;
            assert(m != 0);
            assert(b1[m - 1] == e);
        }
        assert forall|e: Seq<char>| b1.contains(e) implies a1.contains(e) by {
            let i = choose|i: int| 0 <= i < b1.len() && b1[i] == e;
            assert(b[i + 1] == e);
            assert(lex_lt(b[0], b[i + 1]));
            lemma_lex_lt_trichotomy(b[0], e);
            assert(e != a[0]);
            assert(b.contains(e));
            assert(a.contains(e));
            let m = choose|m: int| 0 <= m < a.len() && a[m] == e;
            assert(m != 0);
            assert(a1[m - 1] == e);
        }
        assert(strictly_sorted(a1)) by {
            assert(forall|i: int, j: int|
                0 <= i < j < a1.len() ==> lex_lt(a[i + 1], a[j + 1]) && a1[i] == a[i + 1] && a1[j]
                    == a[j + 1]);
        }
        assert(strictly_sorted(b1)) by {
            assert(forall|i: int, j: int|
                0 <= i < j < b1.len() ==> lex_lt(b[i + 1], b[j + 1]) && b1[i] == b[i + 1] && b1[j]
                    == b[j + 1]);
        }
        lemma_sorted_unique(a1, b1);
        assert forall|i: int| 0 <= i < a.len() implies a[i] == b[i] by {
            if i > 0 {
                assert(a1[i - 1] == b1[i - 1]);
            }
        }
        assert(a =~= b);
    }
}

/// Insert a tag into a strictly sorted list, keeping it sorted and
/// without duplicates.
pub fn insert_tag(v: &mut Vec<String>, x: String)
    requires
        strictly_sorted(old(v).deep_view()),
    ensures
        strictly_sorted(final(v).deep_view()),
        forall|e: Seq<char>| #[trigger]
            final(v).deep_view().contains(e) <==> (old(v).deep_view().contains(e) || e == x@),
    decreases old(v)@.len(),
{
    let ghost pre = v.deep_view();
    let mut i: usize = 0;
    while i < v.len() && str_lt(v[i].as_str(), x.as_str())
        invariant
            v.deep_view() == pre,
            strictly_sorted(pre),
            i <= pre.len(),
            forall|k: int| 0 <= k < i ==> lex_lt(pre[k], x@),
        decreases pre.len() - i,
    {
        i += 1;
    }
    if i < v.len() {
        if string_eq(&v[i], &x) {
            proof {
                assert(v.deep_view().contains(x@)) by {
                    assert(v.deep_view()[i as int] == x@);
                }
            }
            return;
        }
        proof {
            lemma_lex_lt_trichotomy(pre[i as int], x@);
            assert(lex_lt(x@, pre[i as int]));
        }
    }
    v.insert(i, x);
    proof {
        let post = v.deep_view();
        assert(post =~= pre.take(i as int).push(x@) + pre.skip(i as int));
        assert forall|p: int, q: int| 0 <= p < q < post.len() implies lex_lt(post[p], post[q]) by {
            let n = i as int;
            if p < n && q < n {
                assert(post[p] == pre[p] && post[q] == pre[q]);
            } else if p < n && q == n {
                assert(post[p] == pre[p] && post[q] == x@);
            } else if p < n && q > n {
                assert(post[p] == pre[p] && post[q] == pre[q - 1]);
                if q - 1 > p {
                } else {
                    assert(q - 1 == p);
                    assert(lex_lt(pre[p], x@));
                    assert(lex_lt(x@, pre[q - 1]));
                    lemma_lex_lt_trichotomy(pre[p], x@);
                }
                if n <= q - 1 {
                    if p < q - 1 {
                        assert(lex_lt(pre[p], pre[q - 1]));
                    } else {
                        assert(lex_lt(pre[p], x@));
                        if n < pre.len() {
                            lemma_lex_lt_trans(pre[p], x@, pre[q - 1]);
                        }
                    }
                }
            } else if p == n {
                assert(post[p] == x@ && post[q] == pre[q - 1]);
                if n < q - 1 {
                    lemma_lex_lt_trans(x@, pre[n], pre[q - 1]);
                } else {
                    assert(q - 1 == n);
                }
            } else {
                assert(post[p] == pre[p - 1] && post[q] == pre[q - 1]);
            }
        }
        assert forall|e: Seq<char>| #[trigger] post.contains(e) implies (pre.contains(e) || e == x@) by {
            let m = choose|m: int| 0 <= m < post.len() && post[m] == e;
            if m < i as int {
                assert(pre[m] == e);
            } else if m == i as int {
            } else {
                assert(pre[m - 1] == e);
            }
        }
        assert forall|e: Seq<char>| pre.contains(e) || e == x@ implies #[trigger] post.contains(e) by {
            if e == x@ {
                assert(post[i as int] == e);
            } else {
                let m = choose|m: int| 0 <= m < pre.len() && pre[m] == e;
                if m < i as int {
                    assert(post[m] == e);
                } else {
                    assert(post[m + 1] == e);
                }
            }
        }
    }
}

/// Sort a list of tags and drop duplicates: the result is the strictly
/// sorted list holding exactly the tags of the input.
pub fn sort_dedup_tags(v: Vec<String>) -> (r: Vec<String>)
    ensures
        strictly_sorted(r.deep_view()),
        forall|e: Seq<char>| #[trigger] r.deep_view().contains(e) <==> v.deep_view().contains(e),
{
    let n = v.len();
    let mut out: Vec<String> = Vec::new();
    let mut i: usize = 0;
    let mut rest = v;
    proof {
        assert(rest.deep_view().skip(0) =~= rest.deep_view());
    }
    let ghost all = rest.deep_view();
    while i < n
        invariant
            n == all.len(),
            i <= n,
            rest.deep_view() == all,
            strictly_sorted(out.deep_view()),
            forall|e: Seq<char>| #[trigger]
                out.deep_view().contains(e) <==> all.take(i as int).contains(e),
        decreases n - i,
    {
        let ghost outpre = out.deep_view();
        let x = rest[i].clone();
        insert_tag(&mut out, x);
        proof {
            let t1 = all.take(i + 1);
            let t0 = all.take(i as int);
            assert forall|e: Seq<char>| #[trigger] out.deep_view().contains(e) implies t1.contains(e) by {
                if outpre.contains(e) {
                    let m = choose|m: int| 0 <= m < t0.len() && t0[m] == e;
                    assert(t1[m] == e);
                } else {
                    assert(t1[i as int] == e);
                }
            }
            assert forall|e: Seq<char>| #[trigger] t1.contains(e) implies out.deep_view().contains(e) by {
                let m = choose|m: int| 0 <= m < t1.len() && t1[m] == e;
                if m < i as int {
                    assert(t0[m] == e);
                } else {
                    assert(e == all[i as int]);
                }
            }
        }
        i += 1;
    }
    proof {
        assert(all.take(n as int) =~= all);
    }
    out
}

/// Whether `h` holds `n` as a contiguous run of characters.
pub open spec fn contains_seq(h: Seq<char>, n: Seq<char>) -> bool {
    exists|i: int| 0 <= i <= h.len() - n.len() && #[trigger] h.subrange(i, i + n.len() as int) == n
}

/// Whether the haystack holds the needle as a substring.
pub fn str_contains(h: &str, needle: &str) -> (r: bool)
    ensures
        r == contains_seq(h@, needle@),
{
    let hn = h.unicode_len();
    let nn = needle.unicode_len();
    if nn > hn {
        return false;
    }
    if nn == 0 {
        proof {
            assert(h@.subrange(0, 0 + needle@.len() as int) =~= needle@);
        }
        return true;
    }
    let mut i: usize = 0;
    while i <= hn - nn
        invariant
            hn == h@.len(),
            nn == needle@.len(),
            0 < nn <= hn,
            i <= hn - nn + 1,
            forall|k: int| 0 <= k < i ==> #[trigger] h@.subrange(k, k + nn as int) != needle@,
        decreases hn - i,
    {
        let mut j: usize = 0;
        let mut matched = true;
        while j < nn
            invariant
                hn == h@.len(),
                nn == needle@.len(),
                i + nn <= hn,
                j <= nn,
                matched ==> forall|k: int| 0 <= k < j ==> h@[i + k] == needle@[k],
                !matched ==> h@.subrange(i as int, i + nn as int) != needle@,
            decreases nn - j,
        {
            if matched && h.get_char(i + j) != needle.get_char(j) {
                matched = false;
                proof {
                    let sub = h@.subrange(i as int, i + nn as int);
                    assert(sub[j as int] == h@[i + j]);
                    assert(sub != needle@);
                }
            }
            j += 1;
        }
        if matched {
            proof {
                assert(h@.subrange(i as int, i as int + needle@.len() as int) =~= needle@);
            }
            return true;
        }
        i += 1;
    }
    proof {
        assert forall|k: int| 0 <= k <= h@.len() - needle@.len() implies #[trigger] h@.subrange(
            k,
            k + needle@.len() as int,
        ) != needle@ by {
            assert(k < i);
        }
    }
    false
}

/// The whitespace characters that trimming removes.
pub open spec fn is_space(c: char) -> bool {
    c == ' ' || c == '\t' || c == '\n' || c == '\r' || c == '\u{b}' || c == '\u{c}'
}

/// Decide whether a character counts as whitespace.
pub fn is_space_char(c: char) -> (r: bool)
    ensures
        r == is_space(c),
{
    c == ' ' || c == '\t' || c == '\n' || c == '\r' || c == '\u{b}' || c == '\u{c}'
}

/// A sequence with its leading and trailing whitespace removed.
pub open spec fn trim_spec(s: Seq<char>) -> Seq<char> {
    let start = first_non_space(s, 0);
    let end = last_non_space_end(s);
    if start < end {
        s.subrange(start, end)
    } else {
        Seq::empty()
    }
}

/// The first index at or after `i` holding a non-whitespace character,
/// or the length if there is none.
pub open spec fn first_non_space(s: Seq<char>, i: int) -> int
    decreases s.len() - i,
{
    if i < 0 || i >= s.len() {
        s.len() as int
    } else if is_space(s[i]) {
        first_non_space(s, i + 1)
    } else {
        i
    }
}

/// One past the last index holding a non-whitespace character, or zero
/// if there is none.
pub open spec fn last_non_space_end(s: Seq<char>) -> int
    decreases s.len(),
{
    if s.len() == 0 {
        0
    } else if is_space(s[s.len() - 1]) {
        last_non_space_end(s.drop_last())
    } else {
        s.len() as int
    }
}

proof fn lemma_first_non_space_bounds(s: Seq<char>, i: int)
    requires
        0 <= i <= s.len(),
    ensures
        i <= first_non_space(s, i) <= s.len(),
        forall|k: int| i <= k < first_non_space(s, i) ==> is_space(s[k]),
        first_non_space(s, i) < s.len() ==> !is_space(s[first_non_space(s, i)]),
    decreases s.len() - i,
{
    if i < s.len() && is_space(s[i]) {
        lemma_first_non_space_bounds(s, i + 1);
    }
}

proof fn lemma_last_non_space_bounds(s: Seq<char>)
    ensures
        0 <= last_non_space_end(s) <= s.len(),
        forall|k: int| last_non_space_end(s) <= k < s.len() ==> is_space(s[k]),
        last_non_space_end(s) > 0 ==> !is_space(s[last_non_space_end(s) - 1]),
    decreases s.len(),
{
    if s.len() > 0 && is_space(s[s.len() - 1]) {
        lemma_last_non_space_bounds(s.drop_last());
        assert(forall|k: int|
            0 <= k < s.len() - 1 ==> s.drop_last()[k] == s[k]);
    }
}

/// Walking past leading whitespace computes `first_non_space`.
proof fn lemma_first_non_space_at(s: Seq<char>, i: int)
    requires
        0 <= i <= s.len(),
        forall|k: int| 0 <= k < i ==> is_space(s[k]),
        i < s.len() ==> !is_space(s[i]),
    ensures
        first_non_space(s, 0) == i,
    decreases i,
{
    lemma_first_non_space_bounds(s, 0);
    let f = first_non_space(s, 0);
    if f < i {
        assert(is_space(s[f]));
    } else if f > i {
        assert(i < s.len());
        assert(is_space(s[i]));
    }
}

/// Walking back over trailing whitespace computes `last_non_space_end`.
proof fn lemma_last_non_space_at(s: Seq<char>, e: int)
    requires
        0 <= e <= s.len(),
        forall|k: int| e <= k < s.len() ==> is_space(s[k]),
        e > 0 ==> !is_space(s[e - 1]),
    ensures
        last_non_space_end(s) == e,
{
    lemma_last_non_space_bounds(s);
    let l = last_non_space_end(s);
    if l < e {
        assert(is_space(s[e - 1]));
    } else if l > e {
        assert(is_space(s[l - 1]));
    }
}

/// The characters of `s` with leading and trailing whitespace removed.
pub fn trim_chars(s: &Vec<char>) -> (r: Vec<char>)
    ensures
        r@ == trim_spec(s@),
{
    let n = s.len();
    let mut start: usize = 0;
    while start < n && is_space_char(s[start])
        invariant
            n == s@.len(),
            start <= n,
            forall|k: int| 0 <= k < start ==> is_space(s@[k]),
        decreases n - start,
    {
        start += 1;
    }
    proof {
        lemma_first_non_space_at(s@, start as int);
    }
    let mut end: usize = n;
    while end > start && is_space_char(s[end - 1])
        invariant
            n == s@.len(),
            start <= end <= n,
            forall|k: int| 0 <= k < start ==> is_space(s@[k]),
            forall|k: int| end <= k < n ==> is_space(s@[k]),
        decreases end,
    {
        end -= 1;
    }
    let mut out: Vec<char> = Vec::new();
    let mut i: usize = start;
    while i < end
        invariant
            n == s@.len(),
            start <= i <= end <= n,
            out@ == s@.subrange(start as int, i as int),
        decreases end - i,
    {
        out.push(s[i]);
        proof {
            assert(out@ =~= s@.subrange(start as int, i + 1));
        }
        i += 1;
    }
    proof {
        if start == end {
            if end == n {
                lemma_last_non_space_bounds(s@);
                assert(out@ =~= trim_spec(s@));
            } else {
                // every character from end on is a space, and everything
                // before start is a space, so the trimmed sequence is empty
                assert(!is_space(s@[end as int]) || end == n);
                if end > 0 && !is_space(s@[end - 1]) {
                    lemma_last_non_space_at(s@, end as int);
                } else {
                    assert(forall|k: int| 0 <= k < n ==> is_space(s@[k]));
                    lemma_last_non_space_at(s@, 0);
                }
                assert(out@ =~= trim_spec(s@));
            }
        } else {
            assert(!is_space(s@[end - 1]));
            lemma_last_non_space_at(s@, end as int);
            assert(out@ =~= trim_spec(s@));
        }
    }
    out
}

/// A character mapped to lower case, for the ASCII letters.
pub open spec fn lower_char(c: char) -> char {
    if 'A' <= c <= 'Z' {
        ((c as u8) + 32) as char
    } else {
        c
    }
}

/// The sequence with every ASCII letter mapped to lower case.
pub open spec fn lower_seq(s: Seq<char>) -> Seq<char> {
    s.map_values(|c: char| lower_char(c))
}

/// Map the ASCII letters of a string to lower case.
pub fn lower_string(s: &str) -> (r: String)
    ensures
        r@ == lower_seq(s@),
{
    let n = s.unicode_len();
    let mut out: Vec<char> = Vec::new();
    let mut i: usize = 0;
    while i < n
        invariant
            n == s@.len(),
            i <= n,
            out@ == lower_seq(s@.take(i as int)),
        decreases n - i,
    {
        let c = s.get_char(i);
        let lc: char = if c >= 'A' && c <= 'Z' {
            (((c as u8) + 32) as char)
        } else {
            c
        };
        proof {
            assert(lc == lower_char(c));
        }
        out.push(lc);
        proof {
            assert(out@ =~= lower_seq(s@.take(i + 1)));
        }
        i += 1;
    }
    proof {
        assert(s@.take(n as int) =~= s@);
        assert(out@ =~= lower_seq(s@));
    }
    string_from_chars(&out)
}


/// A character mapped to upper case, for the ASCII letters.
pub open spec fn upper_char(c: char) -> char {
    if 'a' <= c <= 'z' {
        ((c as u8) - 32) as char
    } else {
        c
    }
}

/// The sequence with every ASCII letter mapped to upper case.
pub open spec fn upper_seq(s: Seq<char>) -> Seq<char> {
    s.map_values(|c: char| upper_char(c))
}

/// Map the ASCII letters of a string to upper case.
pub fn upper_string(s: &str) -> (r: String)
    ensures
        r@ == upper_seq(s@),
{
    let n = s.unicode_len();
    let mut out: Vec<char> = Vec::new();
    let mut i: usize = 0;
    while i < n
        invariant
            n == s@.len(),
            i <= n,
            out@ == upper_seq(s@.take(i as int)),
        decreases n - i,
    {
        let c = s.get_char(i);
        let uc: char = if c >= 'a' && c <= 'z' {
            (((c as u8) - 32) as char)
        } else {
            c
        };
        proof {
            assert(uc == upper_char(c));
        }
        out.push(uc);
        proof {
            assert(out@ =~= upper_seq(s@.take(i + 1)));
        }
        i += 1;
    }
    proof {
        assert(s@.take(n as int) =~= s@);
        assert(out@ =~= upper_seq(s@));
    }
    string_from_chars(&out)
}

/// Merge two tag lists into one strictly sorted list holding exactly
/// the tags of both.
pub fn merge_sorted_tags(base: Vec<String>, adds: Vec<String>) -> (r: Vec<String>)
    ensures
        strictly_sorted(r.deep_view()),
        forall|e: Seq<char>| #[trigger]
            r.deep_view().contains(e) <==> (base.deep_view().contains(e)
                || adds.deep_view().contains(e)),
{
    let ghost base_view = base.deep_view();
    let ghost adds_view = adds.deep_view();
    let mut merged: Vec<String> = Vec::new();
    let mut i: usize = 0;
    while i < base.len()
        invariant
            i <= base@.len(),
            base.deep_view() == base_view,
            strictly_sorted(merged.deep_view()),
            forall|e: Seq<char>| #[trigger]
                merged.deep_view().contains(e) <==> base_view.take(i as int).contains(e),
        decreases base@.len() - i,
    {
        let t = base[i].clone();
        let ghost pre = merged.deep_view();
        insert_tag(&mut merged, t);
        proof {
            let t1 = base_view.take(i + 1);
            let t0 = base_view.take(i as int);
            assert forall|e: Seq<char>| #[trigger] merged.deep_view().contains(e) implies t1.contains(
                e,
            ) by {
                if pre.contains(e) {
                    let m = choose|m: int| 0 <= m < t0.len() && t0[m] == e;
                    assert(t1[m] == e);
                } else {
                    assert(t1[i as int] == e);
                }
            }
            assert forall|e: Seq<char>| #[trigger] t1.contains(e) implies merged.deep_view().contains(
                e,
            ) by {
                let m = choose|m: int| 0 <= m < t1.len() && t1[m] == e;
                if m < i as int {
                    assert(t0[m] == e);
                } else {
                    assert(e == base_view[i as int]);
                }
            }
        }
        i += 1;
    }
    proof {
        assert(base_view.take(base_view.len() as int) =~= base_view);
    }
    let mut j: usize = 0;
    while j < adds.len()
        invariant
            j <= adds@.len(),
            adds.deep_view() == adds_view,
            strictly_sorted(merged.deep_view()),
            forall|e: Seq<char>| #[trigger]
                merged.deep_view().contains(e) <==> (base_view.contains(e) || adds_view.take(
                    j as int,
                ).contains(e)),
        decreases adds@.len() - j,
    {
        let t = adds[j].clone();
        let ghost pre = merged.deep_view();
        insert_tag(&mut merged, t);
        proof {
            let t1 = adds_view.take(j + 1);
            let t0 = adds_view.take(j as int);
            assert forall|e: Seq<char>| #[trigger] merged.deep_view().contains(e) implies (
            base_view.contains(e) || t1.contains(e)) by {
                if pre.contains(e) {
                    if t0.contains(e) {
                        let m = choose|m: int| 0 <= m < t0.len() && t0[m] == e;
                        assert(t1[m] == e);
                    }
                } else {
                    assert(t1[j as int] == e);
                }
            }
            assert forall|e: Seq<char>| base_view.contains(e) || #[trigger] t1.contains(e)
                implies merged.deep_view().contains(e) by {
                if t1.contains(e) {
                    let m = choose|m: int| 0 <= m < t1.len() && t1[m] == e;
                    if m < j as int {
                        assert(t0[m] == e);
                    } else {
                        assert(e == adds_view[j as int]);
                    }
                }
            }
        }
        j += 1;
    }
    proof {
        assert(adds_view.take(adds_view.len() as int) =~= adds_view);
    }
    merged
}


/// The decimal digits of a number, most significant first.
pub open spec fn decimal_seq(n: nat) -> Seq<char>
    decreases n,
{
    if n < 10 {
        seq![digit_char(n)]
    } else {
        decimal_seq(n / 10).push(digit_char(n % 10))
    }
}

/// The character of one decimal digit.
pub open spec fn digit_char(d: nat) -> char {
    if d == 0 {
        '0'
    } else if d == 1 {
        '1'
    } else if d == 2 {
        '2'
    } else if d == 3 {
        '3'
    } else if d == 4 {
        '4'
    } else if d == 5 {
        '5'
    } else if d == 6 {
        '6'
    } else if d == 7 {
        '7'
    } else if d == 8 {
        '8'
    } else {
        '9'
    }
}

/// Render a number in decimal.
pub fn u64_to_string(n: u64) -> (r: String)
    ensures
        r@ == decimal_seq(n as nat),
{
    let mut digits: Vec<char> = Vec::new();
    let mut m = n;
    while m >= 10
        invariant
            decimal_seq(n as nat) == decimal_seq(m as nat) + digits@.reverse(),
        decreases m,
    {
        let d = m % 10;
        let c = digit_of(d);
        let ghost pre = digits@;
        digits.push(c);
        m = m / 10;
        proof {
            assert(digits@.reverse() =~= seq![c] + pre.reverse());
            assert(decimal_seq((m * 10 + d) as nat) == decimal_seq(m as nat).push(digit_char(
                d as nat,
            )));
            assert(decimal_seq(m as nat).push(c) + pre.reverse() =~= decimal_seq(m as nat) + (seq![
                c,
            ] + pre.reverse()));
        }
    }
    let c0 = digit_of(m);
    let mut out: Vec<char> = Vec::new();
    out.push(c0);
    let ghost ds = digits@;
    let mut i: usize = digits.len();
    while i > 0
        invariant
            i <= ds.len(),
            digits@ == ds,
            out@ == seq![digit_char(m as nat)] + ds.reverse().take(ds.len() - i),
        decreases i,
    {
        i -= 1;
        out.push(digits[i]);
        proof {
            assert(ds.reverse()[ds.len() - i - 1] == ds[i as int]);
            assert(out@ =~= seq![digit_char(m as nat)] + ds.reverse().take(ds.len() - i));
        }
    }
    proof {
        assert(ds.reverse().take(ds.len() as int) =~= ds.reverse());
        assert(out@ =~= decimal_seq(m as nat) + ds.reverse());
    }
    string_from_chars(&out)
}

/// The character of one decimal digit.
fn digit_of(d: u64) -> (r: char)
    requires
        d < 10,
    ensures
        r == digit_char(d as nat),
{
    if d == 0 {
        '0'
    } else if d == 1 {
        '1'
    } else if d == 2 {
        '2'
    } else if d == 3 {
        '3'
    } else if d == 4 {
        '4'
    } else if d == 5 {
        '5'
    } else if d == 6 {
        '6'
    } else if d == 7 {
        '7'
    } else if d == 8 {
        '8'
    } else {
        '9'
    }
}

/// A sequence with its trailing slashes removed.
pub open spec fn trim_trailing_slashes(s: Seq<char>) -> Seq<char>
    decreases s.len(),
{
    if s.len() > 0 && s.last() == '/' {
        trim_trailing_slashes(s.drop_last())
    } else {
        s
    }
}

/// Remove every trailing slash from a string.
pub fn trim_slashes(s: &str) -> (r: String)
    ensures
        r@ == trim_trailing_slashes(s@),
{
    let cs = chars_of(s);
    let mut end: usize = cs.len();
    proof {
        assert(s@.take(end as int) =~= s@);
    }
    while end > 0 && cs[end - 1] == '/'
        invariant
            end <= cs@.len(),
            cs@ == s@,
            trim_trailing_slashes(s@) == trim_trailing_slashes(s@.take(end as int)),
        decreases end,
    {
        proof {
            assert(s@.take(end as int).last() == s@[end - 1]);
            assert(s@.take(end as int).drop_last() =~= s@.take(end - 1));
        }
        end -= 1;
    }
    let mut out: Vec<char> = Vec::new();
    let mut i: usize = 0;
    while i < end
        invariant
            i <= end <= cs@.len(),
            cs@ == s@,
            out@ == s@.take(end as int).take(i as int),
        decreases end - i,
    {
        out.push(cs[i]);
        proof {
            assert(out@ =~= s@.take(end as int).take(i + 1));
        }
        i += 1;
    }
    proof {
        let t = s@.take(end as int);
        assert(t.take(t.len() as int) =~= t);
        if end < cs@.len() {
            assert(trim_trailing_slashes(t) == t) by {
                assert(end == 0 || t.last() != '/');
            }
        } else {
            assert(t =~= s@);
            assert(trim_trailing_slashes(t) == trim_trailing_slashes(s@));
            assert(out@ == t);
            assert(trim_trailing_slashes(s@) == trim_trailing_slashes(s@));
        }
    }
    string_from_chars(&out)
}

} // verus!
