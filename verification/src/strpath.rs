//! Character-sequence utilities shared by the mask grammar, the identifier
//! type and the policy evaluator: splitting and joining slash-delimited
//! paths, character search and prefix tests, all specified over `Seq<char>`.

use vstd::prelude::*;

verus! {

/// Splitting a character sequence on a separator, defined from the front:
/// the empty sequence splits into one empty segment, a leading separator
/// contributes an empty segment, and any other leading character extends
/// the first segment of the tail's split.
pub open spec fn spec_split(s: Seq<char>, sep: char) -> Seq<Seq<char>>
    decreases s.len(),
{
    if s.len() == 0 {
        seq![Seq::<char>::empty()]
    } else if s[0] == sep {
        seq![Seq::<char>::empty()] + spec_split(s.drop_first(), sep)
    } else {
        let r = spec_split(s.drop_first(), sep);
        seq![seq![s[0]] + r[0]] + r.drop_first()
    }
}

/// Joining segments with a separator, defined from the front.
pub open spec fn spec_join(segs: Seq<Seq<char>>, sep: char) -> Seq<char>
    decreases segs.len(),
{
    if segs.len() == 0 {
        Seq::<char>::empty()
    } else if segs.len() == 1 {
        segs[0]
    } else {
        segs[0] + seq![sep] + spec_join(segs.drop_first(), sep)
    }
}

/// A split always yields at least one segment.
pub proof fn lemma_split_len(s: Seq<char>, sep: char)
    ensures
        spec_split(s, sep).len() >= 1,
    decreases s.len(),
{
    if s.len() != 0 {
        lemma_split_len(s.drop_first(), sep);
    }
}

/// Appending a non-separator character extends the last segment.
pub proof fn lemma_split_push(s: Seq<char>, sep: char, c: char)
    requires
        c != sep,
    ensures
        spec_split(s.push(c), sep) =~~= spec_split(s, sep).drop_last().push(
            spec_split(s, sep).last().push(c),
        ),
    decreases s.len(),
{
    lemma_split_len(s, sep);
    let t = s.push(c);
    if s.len() == 0 {
        assert(t[0] == c);
        assert(t.drop_first() =~= Seq::<char>::empty());
        assert(spec_split(Seq::<char>::empty(), sep) =~~= seq![Seq::<char>::empty()]);
        assert(spec_split(t, sep) =~~= seq![seq![c]]);
        assert(spec_split(s, sep) =~~= seq![Seq::<char>::empty()]);
    } else {
        lemma_split_len(s.drop_first(), sep);
        assert(t[0] == s[0]);
        assert(t.drop_first() =~= s.drop_first().push(c));
        lemma_split_push(s.drop_first(), sep, c);
        if s[0] == sep {
            lemma_split_len(s.drop_first().push(c), sep);
        }
    }
}

/// Appending the separator adds a fresh empty segment.
pub proof fn lemma_split_push_sep(s: Seq<char>, sep: char)
    ensures
        spec_split(s.push(sep), sep) =~~= spec_split(s, sep).push(Seq::<char>::empty()),
    decreases s.len(),
{
    lemma_split_len(s, sep);
    let t = s.push(sep);
    if s.len() == 0 {
        assert(t[0] == sep);
        assert(t.drop_first() =~= Seq::<char>::empty());
        assert(spec_split(Seq::<char>::empty(), sep) =~~= seq![Seq::<char>::empty()]);
        assert(spec_split(t, sep) =~~= seq![Seq::<char>::empty(), Seq::<char>::empty()]);
        assert(spec_split(s, sep) =~~= seq![Seq::<char>::empty()]);
    } else {
        lemma_split_len(s.drop_first(), sep);
        assert(t[0] == s[0]);
        assert(t.drop_first() =~= s.drop_first().push(sep));
        lemma_split_push_sep(s.drop_first(), sep);
        lemma_split_len(s.drop_first().push(sep), sep);
    }
}

/// A separator glues two splits together.
pub proof fn lemma_split_concat(a: Seq<char>, b: Seq<char>, sep: char)
    ensures
        spec_split(a + seq![sep] + b, sep) =~~= spec_split(a, sep) + spec_split(b, sep),
    decreases a.len(),
{
    if a.len() == 0 {
        assert(a + seq![sep] + b =~= seq![sep] + b);
        assert((seq![sep] + b)[0] == sep);
        assert((seq![sep] + b).drop_first() =~= b);
    } else {
        let s = a + seq![sep] + b;
        assert(s[0] == a[0]);
        assert(s.drop_first() =~= a.drop_first() + seq![sep] + b);
        lemma_split_concat(a.drop_first(), b, sep);
        lemma_split_len(a.drop_first(), sep);
        lemma_split_len(b, sep);
    }
}

/// Splitting a sequence without separators gives that one segment back.
pub proof fn lemma_split_whole(a: Seq<char>, sep: char)
    requires
        !a.contains(sep),
    ensures
        spec_split(a, sep) =~~= seq![a],
    decreases a.len(),
{
    if a.len() != 0 {
        assert(a[0] != sep);
        assert(forall|i: int| 0 <= i < a.drop_first().len() ==> a.drop_first()[i] == a[i + 1]);
        lemma_split_whole(a.drop_first(), sep);
        assert(spec_split(a, sep) =~~= seq![seq![a[0]] + a.drop_first()]);
        assert(seq![a[0]] + a.drop_first() =~= a);
    }
}

/// Joining then splitting restores the segments, provided none holds the
/// separator.
pub proof fn lemma_split_of_join(segs: Seq<Seq<char>>, sep: char)
    requires
        segs.len() >= 1,
        forall|i: int| 0 <= i < segs.len() ==> !(#[trigger] segs[i]).contains(sep),
    ensures
        spec_split(spec_join(segs, sep), sep) =~~= segs,
    decreases segs.len(),
{
    if segs.len() == 1 {
        lemma_split_whole(segs[0], sep);
        assert(spec_split(spec_join(segs, sep), sep) =~~= seq![segs[0]]);
        assert(seq![segs[0]] =~~= segs);
    } else {
        lemma_split_concat(segs[0], spec_join(segs.drop_first(), sep), sep);
        lemma_split_whole(segs[0], sep);
        lemma_split_of_join(segs.drop_first(), sep);
        assert(spec_split(spec_join(segs, sep), sep) =~~= seq![segs[0]] + segs.drop_first());
        assert(seq![segs[0]] + segs.drop_first() =~~= segs);
    }
}

/// No segment of a split holds the separator.
pub proof fn lemma_split_segs_free(s: Seq<char>, sep: char)
    ensures
        forall|i: int|
            0 <= i < spec_split(s, sep).len() ==> !(#[trigger] spec_split(s, sep)[
                i
            ]).contains(sep),
    decreases s.len(),
{
    let r = spec_split(s, sep);
    if s.len() == 0 {
        assert forall|i: int| 0 <= i < r.len() implies !(#[trigger] r[i]).contains(
            sep,
        ) by {
            assert(r[i].len() == 0);
        }
    } else if s[0] == sep {
        lemma_split_segs_free(s.drop_first(), sep);
        let rest = spec_split(s.drop_first(), sep);
        assert forall|i: int| 0 <= i < r.len() implies !(#[trigger] r[i]).contains(
            sep,
        ) by {
            if i == 0 {
                assert(r[0].len() == 0);
            } else {
                assert(r[i] == rest[i - 1]);
            }
        }
    } else {
        lemma_split_segs_free(s.drop_first(), sep);
        lemma_split_len(s.drop_first(), sep);
        let rest = spec_split(s.drop_first(), sep);
        assert forall|i: int| 0 <= i < r.len() implies !(#[trigger] r[i]).contains(
            sep,
        ) by {
            if i == 0 {
                assert(r[0] == seq![s[0]] + rest[0]);
                assert(!rest[0].contains(sep));
                if r[0].contains(sep) {
                    let k = choose|k: int| 0 <= k < r[0].len() && r[0][k] == sep;
                    if k == 0 {
                        assert(r[0][0] == s[0]);
                    } else {
                        assert(r[0][k] == rest[0][k - 1]);
                        assert(rest[0].contains(sep));
                    }
                }
            } else {
                assert(r[i] == rest.drop_first()[i - 1]);
                assert(rest.drop_first()[i - 1] == rest[i]);
            }
        }
    }
}

/// Relies on `String::push`: appends exactly one character.
#[verifier::external_body]
pub fn push_char(s: &mut String, c: char)
    ensures
        final(s)@ == old(s)@.push(c),
{
    s.push(c);
}

/// Splits a string on a separator character, as `str::split` does: the
/// result always holds at least one (possibly empty) segment.
pub fn split_str(s: &str, sep: char) -> (r: Vec<String>)
    ensures
        r.deep_view() =~~= spec_split(s@, sep),
        r.len() >= 1,
{
    let n = s.unicode_len();
    let mut done: Vec<String> = Vec::new();
    let mut cur: String = String::new();
    let mut i: usize = 0;
    proof {
        assert(s@.take(0) =~= Seq::<char>::empty());
    }
    while i < n
        invariant
            n == s@.len(),
            i <= n,
            done.deep_view().push(cur@) =~~= spec_split(s@.take(i as int), sep),
        decreases n - i,
    {
        let c = s.get_char(i);
        proof {
            assert(s@.take(i + 1) =~= s@.take(i as int).push(s@[i as int]));
            lemma_split_len(s@.take(i as int), sep);
        }
        if c == sep {
            done.push(cur);
            cur = String::new();
            proof {
                lemma_split_push_sep(s@.take(i as int), sep);
            }
        } else {
            push_char(&mut cur, c);
            proof {
                lemma_split_push(s@.take(i as int), sep, c);
                assert(spec_split(s@.take(i as int), sep).drop_last()
                    =~~= done.deep_view());
            }
        }
        i += 1;
    }
    proof {
        assert(s@.take(n as int) =~= s@);
    }
    done.push(cur);
    done
}

/// Joins segments with a separator character.
pub fn join_segs(v: &Vec<String>, sep: char) -> (r: String)
    ensures
        r@ =~= spec_join(v.deep_view(), sep),
{
    let mut res = String::new();
    let mut i: usize = 0;
    while i < v.len()
        invariant
            i <= v.len(),
            res@ =~= spec_join(v.deep_view().take(i as int), sep),
        decreases v.len() - i,
    {
        if i > 0 {
            push_char(&mut res, sep);
        }
        res.append(v[i].as_str());
        proof {
            lemma_join_push(v.deep_view().take(i as int), sep, v.deep_view()[i as int]);
            assert(v.deep_view().take(i + 1) =~~= v.deep_view().take(i as int).push(
                v.deep_view()[i as int],
            ));
        }
        i += 1;
    }
    proof {
        assert(v.deep_view().take(v.len() as int) =~~= v.deep_view());
    }
    res
}

/// Joining one more segment appends a separator and the segment, unless
/// the list was empty.
pub proof fn lemma_join_push(segs: Seq<Seq<char>>, sep: char, seg: Seq<char>)
    ensures
        spec_join(segs.push(seg), sep) =~= if segs.len() == 0 {
            seg
        } else {
            spec_join(segs, sep) + seq![sep] + seg
        },
    decreases segs.len(),
{
    if segs.len() == 0 {
        assert(segs.push(seg) =~~= seq![seg]);
    } else if segs.len() == 1 {
        assert(segs.push(seg)[0] == segs[0]);
        assert(segs.push(seg).drop_first() =~~= seq![seg]);
        assert(spec_join(seq![seg], sep) == seg);
        assert(spec_join(segs.push(seg), sep) =~= segs[0] + seq![sep] + seg);
    } else {
        assert(segs.push(seg)[0] == segs[0]);
        assert(segs.push(seg).drop_first() =~~= segs.drop_first().push(seg));
        lemma_join_push(segs.drop_first(), sep, seg);
        assert(spec_join(segs.push(seg), sep) =~= segs[0] + seq![sep] + (spec_join(
            segs.drop_first(),
            sep,
        ) + seq![sep] + seg));
    }
}

/// Character-wise string equality.
pub fn str_eq(a: &str, b: &str) -> (r: bool)
    ensures
        r == (a@ == b@),
{
    let n = a.unicode_len();
    let m = b.unicode_len();
    if n != m {
        return false;
    }
    let mut i: usize = 0;
    while i < n
        invariant
            n == a@.len(),
            n == b@.len(),
            i <= n,
            forall|j: int| 0 <= j < i ==> a@[j] == b@[j],
        decreases n - i,
    {
        if a.get_char(i) != b.get_char(i) {
            return false;
        }
        i += 1;
    }
    proof {
        assert(a@ =~= b@);
    }
    true
}

/// First occurrence of a character, by character index.
pub fn find_char(s: &str, c: char) -> (r: Option<usize>)
    ensures
        match r {
            Some(i) => i < s@.len() && s@[i as int] == c && forall|j: int|
                0 <= j < i ==> s@[j] != c,
            None => forall|j: int| 0 <= j < s@.len() ==> s@[j] != c,
        },
{
    let n = s.unicode_len();
    let mut i: usize = 0;
    while i < n
        invariant
            n == s@.len(),
            i <= n,
            forall|j: int| 0 <= j < i ==> s@[j] != c,
        decreases n - i,
    {
        if s.get_char(i) == c {
            return Some(i);
        }
        i += 1;
    }
    None
}

/// Last occurrence of a character, by character index.
pub fn rfind_char(s: &str, c: char) -> (r: Option<usize>)
    ensures
        match r {
            Some(i) => i < s@.len() && s@[i as int] == c && forall|j: int|
                i < j < s@.len() ==> s@[j] != c,
            None => forall|j: int| 0 <= j < s@.len() ==> s@[j] != c,
        },
{
    let n = s.unicode_len();
    let mut i: usize = n;
    while i > 0
        invariant
            n == s@.len(),
            i <= n,
            forall|j: int| i <= j < n ==> s@[j] != c,
        decreases i,
    {
        i -= 1;
        if s.get_char(i) == c {
            return Some(i);
        }
    }
    None
}

/// The first sequence begins with the second.
pub open spec fn has_prefix(s: Seq<char>, p: Seq<char>) -> bool {
    p.len() <= s.len() && s.take(p.len() as int) == p
}

/// Prefix test over characters.
pub fn starts_with(s: &str, p: &str) -> (r: bool)
    ensures
        r == has_prefix(s@, p@),
{
    let n = s.unicode_len();
    let m = p.unicode_len();
    if m > n {
        assert(!has_prefix(s@, p@));
        return false;
    }
    let mut i: usize = 0;
    while i < m
        invariant
            n == s@.len(),
            m == p@.len(),
            m <= n,
            i <= m,
            forall|j: int| 0 <= j < i ==> s@[j] == p@[j],
        decreases m - i,
    {
        if s.get_char(i) != p.get_char(i) {
            assert(s@.take(p@.len() as int)[i as int] != p@[i as int]);
            return false;
        }
        i += 1;
    }
    proof {
        assert(s@.take(p@.len() as int) =~= p@);
    }
    true
}

/// The index of the first occurrence of a character, if any.
pub open spec fn spec_find(s: Seq<char>, c: char) -> Option<int>
    decreases s.len(),
{
    if s.len() == 0 {
        None
    } else if s[0] == c {
        Some(0)
    } else {
        match spec_find(s.drop_first(), c) {
            Some(i) => Some(i + 1),
            None => None,
        }
    }
}

/// `spec_find` returns the first occurrence, or reports that none exists.
pub proof fn lemma_spec_find(s: Seq<char>, c: char)
    ensures
        match spec_find(s, c) {
            Some(t) => 0 <= t < s.len() && s[t] == c && forall|j: int| 0 <= j < t ==> s[j]
                != c,
            None => forall|j: int| 0 <= j < s.len() ==> s[j] != c,
        },
    decreases s.len(),
{
    if s.len() > 0 && s[0] != c {
        lemma_spec_find(s.drop_first(), c);
        let d = s.drop_first();
        assert(forall|j: int| 0 <= j < d.len() ==> #[trigger] d[j] == s[j + 1]);
        match spec_find(d, c) {
            Some(i) => {
                assert(s[i + 1] == c);
                assert forall|j: int| 0 <= j < i + 1 implies s[j] != c by {
                    if j > 0 {
                        assert(d[j - 1] == s[j]);
                    }
                }
            },
            None => {
                assert forall|j: int| 0 <= j < s.len() implies s[j] != c by {
                    if j > 0 {
                        assert(d[j - 1] == s[j]);
                    }
                }
            },
        }
    }
}

/// A token that matches a whole remaining path: `#` or `*`.
pub open spec fn seg_is_all(s: Seq<char>) -> bool {
    s.len() == 1 && (s[0] == '#' || s[0] == '*')
}

/// A token that matches exactly one segment: `+` or `?`.
pub open spec fn seg_is_any(s: Seq<char>) -> bool {
    s.len() == 1 && (s[0] == '+' || s[0] == '?')
}

/// What `char::is_alphanumeric` returns; a Unicode property, named
/// rather than spelled out.
pub uninterp spec fn char_alphanumeric(c: char) -> bool;

/// Relies on `char::is_alphanumeric`: a pure function of the character,
/// true for every ASCII letter and digit, and false for the ASCII
/// punctuation the path grammar treats specially.
#[verifier::external_body]
pub fn is_alphanumeric_char(c: char) -> (r: bool)
    ensures
        r == char_alphanumeric(c),
        r ==> c != '/' && c != ':' && c != ',' && c != '#' && c != '*' && c != '+' && c
            != '?' && c != '~',
        ('a' <= c && c <= 'z') || ('A' <= c && c <= 'Z') || ('0' <= c && c <= '9') ==> r,
{
    c.is_alphanumeric()
}

} // verus!
