//! Wildcard masks over slash-delimited paths, deduplicated mask lists with
//! multi-pattern matching, and the policy record with its evaluator.

use vstd::prelude::*;

use crate::error::{EResult, Error, ErrorKind};
use crate::oid::{full_id_fits, ItemKind, OID};
use crate::strpath::{
    char_alphanumeric, has_prefix, is_alphanumeric_char, lemma_spec_find, push_char,
    seg_is_all, seg_is_any, spec_find, spec_join, spec_split, split_str, starts_with,
    str_eq,
};

verus! {

// ---------------------------------------------------------------------
// Per-mask matching
// ---------------------------------------------------------------------

/// The lockstep walk of one mask against one subject, token against
/// segment: an all-token matches the whole remaining subject (which must
/// hold at least one more segment), an any-token consumes exactly one
/// segment, a literal must equal its segment, and the walk succeeds when
/// both sides run out together.
pub open spec fn chunks_match(m: Seq<Seq<char>>, p: Seq<Seq<char>>) -> bool
    decreases p.len(),
{
    if p.len() == 0 {
        m.len() == 0
    } else if m.len() == 0 {
        false
    } else if seg_is_all(m[0]) {
        true
    } else if !seg_is_any(m[0]) && m[0] != p[0] {
        false
    } else {
        chunks_match(m.drop_first(), p.drop_first())
    }
}

/// A mask matches a subject: the bare all-mask (`None`) matches anything,
/// including the empty subject; otherwise the chunk walk decides.
pub open spec fn mask_matches(m: Option<Seq<Seq<char>>>, p: Seq<Seq<char>>) -> bool {
    match m {
        None => true,
        Some(cs) => chunks_match(cs, p),
    }
}

/// Exec walk of one chunk list against one segment list.
fn chunks_match_exec(m: &Vec<String>, p: &Vec<String>) -> (r: bool)
    ensures
        r == chunks_match(m.deep_view(), p.deep_view()),
{
    let mut i: usize = 0;
    proof {
        assert(m.deep_view().skip(0) =~~= m.deep_view());
        assert(p.deep_view().skip(0) =~~= p.deep_view());
    }
    loop
        invariant
            i <= m.len(),
            i <= p.len(),
            m.deep_view().len() == m@.len(),
            p.deep_view().len() == p@.len(),
            chunks_match(m.deep_view(), p.deep_view()) == chunks_match(
                m.deep_view().skip(i as int),
                p.deep_view().skip(i as int),
            ),
        decreases p.len() - i,
    {
        let ghost ms = m.deep_view().skip(i as int);
        let ghost ps = p.deep_view().skip(i as int);
        if i >= p.len() {
            proof {
                assert(ps.len() == 0);
            }
            return i >= m.len();
        }
        if i >= m.len() {
            proof {
                assert(ms.len() == 0 && ps.len() > 0);
            }
            return false;
        }
        proof {
            assert(ms[0] == m.deep_view()[i as int]);
            assert(ps[0] == p.deep_view()[i as int]);
            assert(m.deep_view()[i as int] == m@[i as int]@);
            assert(p.deep_view()[i as int] == p@[i as int]@);
        }
        if crate::is_str_wildcard(m[i].as_str()) {
            return true;
        }
        if !crate::is_str_any(m[i].as_str()) && !str_eq(m[i].as_str(), p[i].as_str()) {
            return false;
        }
        proof {
            assert(ms.drop_first() =~~= m.deep_view().skip(i + 1));
            assert(ps.drop_first() =~~= p.deep_view().skip(i + 1));
        }
        i += 1;
    }
}

// ---------------------------------------------------------------------
// PathMask
// ---------------------------------------------------------------------

/// The chunk list a non-wildcard pattern parses to: its segments up to the
/// first all-token, which is kept, canonicalized to `#`, and ends the
/// list; everything after it is discarded.
pub open spec fn parse_chunks(segs: Seq<Seq<char>>) -> Seq<Seq<char>>
    decreases segs.len(),
{
    if segs.len() == 0 {
        Seq::<Seq<char>>::empty()
    } else if seg_is_all(segs[0]) {
        seq![seq!['#']]
    } else {
        seq![segs[0]] + parse_chunks(segs.drop_first())
    }
}

/// What a pattern text parses to: the bare wildcard gives the all-mask,
/// anything else its chunk list.
pub open spec fn parse_mask_view(s: Seq<char>) -> Option<Seq<Seq<char>>> {
    if seg_is_all(s) {
        None
    } else {
        Some(parse_chunks(spec_split(s, '/')))
    }
}

/// When no segment is an all-token, parsing keeps every segment.
pub proof fn lemma_parse_chunks_no_all(segs: Seq<Seq<char>>)
    requires
        forall|i: int| 0 <= i < segs.len() ==> !seg_is_all(#[trigger] segs[i]),
    ensures
        parse_chunks(segs) =~~= segs,
    decreases segs.len(),
{
    if segs.len() > 0 {
        lemma_parse_chunks_no_all(segs.drop_first());
        assert(seq![segs[0]] + segs.drop_first() =~~= segs);
    }
}

/// When the first all-token sits at `i`, parsing keeps the segments before
/// it and ends with the canonical `#`.
pub proof fn lemma_parse_chunks_first_all(segs: Seq<Seq<char>>, i: int)
    requires
        0 <= i < segs.len(),
        seg_is_all(segs[i]),
        forall|j: int| 0 <= j < i ==> !seg_is_all(#[trigger] segs[j]),
    ensures
        parse_chunks(segs) =~~= segs.take(i).push(seq!['#']),
    decreases segs.len(),
{
    if i == 0 {
        assert(segs.take(0).push(seq!['#']) =~~= seq![seq!['#']]);
    } else {
        lemma_parse_chunks_first_all(segs.drop_first(), i - 1);
        assert(segs.drop_first().take(i - 1) =~~= segs.take(i).drop_first());
        assert(seq![segs[0]] + segs.take(i).drop_first().push(seq!['#']) =~~= segs.take(
            i,
        ).push(seq!['#']));
    }
}

/// One wildcard pattern over slash-delimited segments: either the bare
/// all-mask or an ordered, non-empty chunk list.
#[derive(Debug)]
pub struct PathMask {
    chunks: Option<Vec<String>>,
}

impl PathMask {
    /// The chunk list, as contracts see it; `None` is the bare all-mask.
    pub closed spec fn spec_chunks(&self) -> Option<Seq<Seq<char>>> {
        match self.chunks {
            Some(v) => Some(v.deep_view()),
            None => None,
        }
    }

    /// This mask matches the given subject segments.
    pub open spec fn spec_matches(&self, p: Seq<Seq<char>>) -> bool {
        mask_matches(self.spec_chunks(), p)
    }

    /// The canonical text: chunks joined by `/`, or `#` for the all-mask.
    pub open spec fn spec_render(&self) -> Seq<char> {
        match self.spec_chunks() {
            None => seq!['#'],
            Some(cs) => spec_join(cs, '/'),
        }
    }

    /// The bare all-mask.
    pub fn new_any() -> (r: Self)
        ensures
            r.spec_chunks() is None,
    {
        Self { chunks: None }
    }

    /// Parses a pattern text. Only the empty text is rejected; the bare
    /// wildcard parses to the all-mask, anything else to its chunk list.
    pub fn parse(s: &str) -> (r: EResult<Self>)
        ensures
            r is Ok <==> s@.len() > 0,
            r matches Ok(m) ==> m.spec_chunks() == parse_mask_view(s@),
            r matches Err(e) ==> e.spec_kind() == ErrorKind::InvalidData,
    {
        if s.is_empty() {
            Err(Error::invalid_data("Empty path mask"))
        } else if crate::is_str_wildcard(s) {
            Ok(Self::new_any())
        } else {
            let segs = split_str(s, '/');
            let ghost sv = spec_split(s@, '/');
            proof {
                assert(segs.deep_view().len() == segs@.len());
                assert(segs@.len() == sv.len());
                assert forall|j: int| 0 <= j < segs@.len() implies (#[trigger] segs@[j])@
                    == sv[j] by {
                    assert(segs.deep_view()[j] == segs@[j]@);
                }
            }
            let mut chunks: Vec<String> = Vec::new();
            let mut i: usize = 0;
            while i < segs.len()
                invariant
                    s@.len() > 0,
                    !seg_is_all(s@),
                    sv == spec_split(s@, '/'),
                    segs@.len() == sv.len(),
                    forall|j: int| 0 <= j < segs@.len() ==> (#[trigger] segs@[j])@ == sv[j],
                    i <= segs@.len(),
                    chunks@.len() == i,
                    forall|j: int| 0 <= j < i ==> (#[trigger] chunks@[j])@ == sv[j],
                    forall|j: int| 0 <= j < i ==> !seg_is_all(#[trigger] sv[j]),
                decreases segs@.len() - i,
            {
                if crate::is_str_wildcard(segs[i].as_str()) {
                    chunks.push("#".to_owned());
                    proof {
                        reveal_strlit("#");
                        assert("#"@ =~= seq!['#']);
                        lemma_parse_chunks_first_all(sv, i as int);
                        assert forall|j: int| 0 <= j < chunks.deep_view().len() implies
                            #[trigger] chunks.deep_view()[j] == sv.take(i as int).push(
                            seq!['#'],
                        )[j] by {
                            assert(chunks.deep_view()[j] == chunks@[j]@);
                        }
                        assert(chunks.deep_view() =~~= sv.take(i as int).push(seq!['#']));
                    }
                    return Ok(Self { chunks: Some(chunks) });
                }
                chunks.push(segs[i].clone());
                i += 1;
            }
            proof {
                lemma_parse_chunks_no_all(sv);
                assert forall|j: int| 0 <= j < chunks.deep_view().len() implies #[trigger]
                    chunks.deep_view()[j] == sv[j] by {
                    assert(chunks.deep_view()[j] == chunks@[j]@);
                }
                assert(chunks.deep_view() =~~= sv);
            }
            Ok(Self { chunks: Some(chunks) })
        }
    }

    /// The canonical text of this mask.
    pub fn to_string(&self) -> (r: String)
        ensures
            r@ == self.spec_render(),
    {
        match &self.chunks {
            None => {
                let r = "#".to_owned();
                proof {
                    reveal_strlit("#");
                    assert(r@ =~= seq!['#']);
                }
                r
            },
            Some(v) => crate::strpath::join_segs(v, '/'),
        }
    }

    /// The chunk list, cloned; `None` for the bare all-mask.
    pub fn chunks(&self) -> (r: Option<Vec<String>>)
        ensures
            match r {
                Some(v) => self.spec_chunks() == Some(v.deep_view()),
                None => self.spec_chunks() is None,
            },
    {
        match &self.chunks {
            Some(v) => Some(clone_string_vec(v)),
            None => None,
        }
    }

    /// The mask is the bare all-mask.
    pub fn is_any(&self) -> (r: bool)
        ensures
            r == (self.spec_chunks() is None),
    {
        self.chunks.is_none()
    }

    /// This mask matches the path, split on `/`.
    pub fn matches(&self, path: &str) -> (r: bool)
        ensures
            r == self.spec_matches(spec_split(path@, '/')),
    {
        match &self.chunks {
            None => true,
            Some(cs) => {
                let segs = split_str(path, '/');
                chunks_match_exec(cs, &segs)
            },
        }
    }
}

impl Clone for PathMask {
    fn clone(&self) -> (r: Self)
        ensures
            r.spec_chunks() == self.spec_chunks(),
    {
        match &self.chunks {
            Some(v) => PathMask { chunks: Some(clone_string_vec(v)) },
            None => PathMask { chunks: None },
        }
    }
}

impl core::str::FromStr for PathMask {
    type Err = Error;

    fn from_str(s: &str) -> Result<PathMask, Error> {
        PathMask::parse(s)
    }
}

/// Clones a list of strings, keeping its view.
fn clone_string_vec(v: &Vec<String>) -> (r: Vec<String>)
    ensures
        r.deep_view() =~~= v.deep_view(),
{
    let mut r: Vec<String> = Vec::new();
    let mut i: usize = 0;
    while i < v.len()
        invariant
            i <= v@.len(),
            r@.len() == i,
            forall|j: int| 0 <= j < i ==> (#[trigger] r@[j])@ == v@[j]@,
        decreases v@.len() - i,
    {
        r.push(v[i].clone());
        i += 1;
    }
    proof {
        assert(r.deep_view().len() == v.deep_view().len());
        assert forall|j: int| 0 <= j < r.deep_view().len() implies #[trigger] r
            .deep_view()[j] == v.deep_view()[j] by {
            assert(r.deep_view()[j] == r@[j]@);
            assert(v.deep_view()[j] == v@[j]@);
        }
    }
    r
}

/// View equality of two path masks.
fn mask_eq(a: &PathMask, b: &PathMask) -> (r: bool)
    ensures
        r == (a.spec_chunks() == b.spec_chunks()),
{
    match (&a.chunks, &b.chunks) {
        (None, None) => true,
        (Some(x), Some(y)) => {
            if x.len() != y.len() {
                proof {
                    assert(x.deep_view().len() != y.deep_view().len());
                }
                return false;
            }
            let mut i: usize = 0;
            while i < x.len()
                invariant
                    a.spec_chunks() == Some(x.deep_view()),
                    b.spec_chunks() == Some(y.deep_view()),
                    x@.len() == y@.len(),
                    i <= x@.len(),
                    forall|j: int| 0 <= j < i ==> (#[trigger] x@[j])@ == y@[j]@,
                decreases x.len() - i,
            {
                if !str_eq(x[i].as_str(), y[i].as_str()) {
                    proof {
                        assert(x.deep_view()[i as int] == x@[i as int]@);
                        assert(y.deep_view()[i as int] == y@[i as int]@);
                    }
                    return false;
                }
                i += 1;
            }
            proof {
                assert forall|j: int| 0 <= j < x.deep_view().len() implies x.deep_view()[j]
                    == y.deep_view()[j] by {
                    assert(x.deep_view()[j] == x@[j]@);
                    assert(y.deep_view()[j] == y@[j]@);
                }
                assert(x.deep_view() =~~= y.deep_view());
            }
            true
        },
        _ => false,
    }
}

// ---------------------------------------------------------------------
// PathMaskList
// ---------------------------------------------------------------------

/// A deduplicated set of parsed path masks; matching asks whether any
/// stored mask matches the subject.
#[derive(Debug)]
pub struct PathMaskList {
    masks: Vec<PathMask>,
}

impl PathMaskList {
    /// The stored mask views, in storage order.
    pub closed spec fn spec_masks(&self) -> Seq<Option<Seq<Seq<char>>>> {
        self.masks@.map_values(|m: PathMask| m.spec_chunks())
    }

    #[verifier::type_invariant]
    closed spec fn wf(&self) -> bool {
        forall|i: int, j: int|
            0 <= i < j < self.spec_masks().len() ==> self.spec_masks()[i]
                != self.spec_masks()[j]
    }

    /// Some stored mask matches the subject segments.
    pub open spec fn spec_matches(&self, p: Seq<Seq<char>>) -> bool {
        exists|i: int|
            0 <= i < self.spec_masks().len() && mask_matches(#[trigger] self.spec_masks()[i], p)
    }

    /// An empty list, which matches nothing.
    pub fn empty() -> (r: Self)
        ensures
            r.spec_masks() =~= Seq::<Option<Seq<Seq<char>>>>::empty(),
    {
        Self { masks: Vec::new() }
    }

    /// Builds a list from pattern texts; empty texts are skipped, and
    /// patterns parsing to an already-stored mask are dropped, so the
    /// stored masks are exactly the distinct parses of the non-empty
    /// inputs, in first-appearance order.
    pub fn from_str_list(s_masks: &[&str]) -> (r: Self)
        ensures
            r.spec_masks() == masks_of_texts(s_masks@.map_values(|t: &str| t@)),
    {
        let mut texts: Vec<&str> = Vec::new();
        let mut i: usize = 0;
        while i < s_masks.len()
            invariant
                i <= s_masks@.len(),
                texts@.len() == i,
                forall|k: int| 0 <= k < i ==> (#[trigger] texts@[k])@ == s_masks@[k]@,
            decreases s_masks@.len() - i,
        {
            texts.push(s_masks[i]);
            i += 1;
        }
        let r = Self::from_texts(&texts);
        proof {
            assert(texts@.map_values(|t: &str| t@) =~~= s_masks@.map_values(
                |t: &str| t@,
            ));
        }
        r
    }

    /// As `from_str_list`, over owned strings.
    pub fn from_string_list(s_masks: &[String]) -> (r: Self)
        ensures
            r.spec_masks() == masks_of_texts(s_masks@.map_values(|t: String| t@)),
    {
        let mut texts: Vec<&str> = Vec::new();
        let mut i: usize = 0;
        while i < s_masks.len()
            invariant
                i <= s_masks@.len(),
                texts@.len() == i,
                forall|k: int| 0 <= k < i ==> (#[trigger] texts@[k])@ == s_masks@[k]@,
            decreases s_masks@.len() - i,
        {
            texts.push(s_masks[i].as_str());
            i += 1;
        }
        let r = Self::from_texts(&texts);
        proof {
            assert(texts@.map_values(|t: &str| t@) =~~= s_masks@.map_values(
                |t: String| t@,
            ));
        }
        r
    }

    /// Builds a list from one comma-delimited string of patterns; the
    /// empty string gives the empty list.
    pub fn from_comma_str(s: &str) -> (r: PathMaskList)
        ensures
            s@.len() == 0 ==> r.spec_masks().len() == 0,
            s@.len() > 0 ==> r.spec_masks() == masks_of_texts(spec_split(s@, ',')),
    {
        if s.is_empty() {
            return Self::empty();
        }
        let parts = split_str(s, ',');
        let mut texts: Vec<&str> = Vec::new();
        let mut i: usize = 0;
        proof {
            assert(parts.deep_view().len() == parts@.len());
        }
        while i < parts.len()
            invariant
                parts.deep_view() =~~= spec_split(s@, ','),
                parts.deep_view().len() == parts@.len(),
                i <= parts@.len(),
                texts@.len() == i,
                forall|k: int| 0 <= k < i ==> (#[trigger] texts@[k])@ == parts@[k]@,
            decreases parts@.len() - i,
        {
            texts.push(parts[i].as_str());
            i += 1;
        }
        let r = Self::from_texts(&texts);
        proof {
            assert forall|k: int| 0 <= k < texts@.len() implies (#[trigger] texts@[k])@
                == spec_split(s@, ',')[k] by {
                assert(parts.deep_view()[k] == parts@[k]@);
            }
            assert(texts@.map_values(|t: &str| t@) =~~= spec_split(s@, ','));
        }
        r
    }

    /// The shared list builder over borrowed pattern texts.
    fn from_texts(texts: &Vec<&str>) -> (r: Self)
        ensures
            r.spec_masks() == masks_of_texts(texts@.map_values(|t: &str| t@)),
    {
        let ghost tv = texts@.map_values(|t: &str| t@);
        let mut masks: Vec<PathMask> = Vec::new();
        let mut i: usize = 0;
        proof {
            assert(tv.take(0) =~~= Seq::<Seq<char>>::empty());
        }
        while i < texts.len()
            invariant
                tv == texts@.map_values(|t: &str| t@),
                tv.len() == texts@.len(),
                i <= texts@.len(),
                masks@.map_values(|x: PathMask| x.spec_chunks()) == masks_of_texts(
                    tv.take(i as int),
                ),
            decreases texts@.len() - i,
        {
            let s = texts[i];
            proof {
                assert(tv[i as int] == texts@[i as int]@);
                assert(tv.take(i + 1).drop_last() =~~= tv.take(i as int));
                assert(tv.take(i + 1).last() == tv[i as int]);
            }
            if !s.is_empty() {
                let m = match PathMask::parse(s) {
                    Ok(m) => m,
                    Err(_) => {
                        proof {
                            assert(false);
                        }
                        unreached()
                    },
                };
                insert_path_mask(&mut masks, m);
            }
            i += 1;
        }
        proof {
            assert(tv.take(tv.len() as int) =~~= tv);
            lemma_masks_of_texts(tv);
            let vs = masks@.map_values(|x: PathMask| x.spec_chunks());
            assert(vs.no_duplicates());
        }
        Self { masks }
    }

    /// True iff any stored mask matches the path.
    pub fn matches(&self, path: &str) -> (r: bool)
        ensures
            r == self.spec_matches(spec_split(path@, '/')),
    {
        let segs = split_str(path, '/');
        let mut i: usize = 0;
        while i < self.masks.len()
            invariant
                i <= self.masks@.len(),
                segs.deep_view() =~~= spec_split(path@, '/'),
                forall|j: int|
                    0 <= j < i ==> !mask_matches(
                        #[trigger] self.spec_masks()[j],
                        spec_split(path@, '/'),
                    ),
            decreases self.masks@.len() - i,
        {
            let m = &self.masks[i];
            let hit = match &m.chunks {
                None => true,
                Some(cs) => chunks_match_exec(cs, &segs),
            };
            proof {
                assert(self.spec_masks()[i as int] == m.spec_chunks());
            }
            if hit {
                return true;
            }
            i += 1;
        }
        false
    }

    /// The list holds no masks.
    pub fn is_empty(&self) -> (r: bool)
        ensures
            r == (self.spec_masks().len() == 0),
    {
        self.masks.len() == 0
    }

    /// The canonical texts of the stored masks, in storage order.
    pub fn as_string_vec(&self) -> (r: Vec<String>)
        ensures
            r@.len() == self.spec_masks().len(),
            forall|j: int|
                0 <= j < r@.len() ==> (#[trigger] r@[j])@ == render_of(
                    self.spec_masks()[j],
                ),
    {
        let mut r: Vec<String> = Vec::new();
        let mut i: usize = 0;
        while i < self.masks.len()
            invariant
                i <= self.masks@.len(),
                r@.len() == i,
                forall|j: int|
                    0 <= j < i ==> (#[trigger] r@[j])@ == render_of(self.spec_masks()[j]),
            decreases self.masks@.len() - i,
        {
            r.push(self.masks[i].to_string());
            proof {
                assert(self.spec_masks()[i as int] == self.masks@[i as int].spec_chunks());
                assert(r@[i as int]@ == render_of(self.spec_masks()[i as int]));
            }
            i += 1;
        }
        r
    }

}

/// The chunk view of one stored mask.
pub open spec fn view_of(m: PathMask) -> Option<Seq<Seq<char>>> {
    m.spec_chunks()
}

/// The canonical text of one mask view.
pub open spec fn render_of(m: Option<Seq<Seq<char>>>) -> Seq<char> {
    match m {
        None => seq!['#'],
        Some(cs) => spec_join(cs, '/'),
    }
}

/// The mask views that a list of pattern texts builds: the distinct
/// parses of the non-empty texts, in first-appearance order.
pub open spec fn masks_of_texts(ts: Seq<Seq<char>>) -> Seq<Option<Seq<Seq<char>>>>
    decreases ts.len(),
{
    if ts.len() == 0 {
        Seq::<Option<Seq<Seq<char>>>>::empty()
    } else {
        let rest = masks_of_texts(ts.drop_last());
        let t = ts.last();
        if t.len() == 0 {
            rest
        } else if rest.contains(parse_mask_view(t)) {
            rest
        } else {
            rest.push(parse_mask_view(t))
        }
    }
}

/// What the built list holds: a view occurs iff some non-empty text
/// parses to it, and no view occurs twice.
pub proof fn lemma_masks_of_texts(ts: Seq<Seq<char>>)
    ensures
        forall|v: Option<Seq<Seq<char>>>|
            #[trigger] masks_of_texts(ts).contains(v) <==> exists|k: int|
                0 <= k < ts.len() && (#[trigger] ts[k]).len() > 0 && parse_mask_view(
                    ts[k],
                ) == v,
        masks_of_texts(ts).no_duplicates(),
    decreases ts.len(),
{
    if ts.len() == 0 {
        assert forall|v: Option<Seq<Seq<char>>>| !(#[trigger] masks_of_texts(
            ts,
        ).contains(v)) by {}
    } else {
        lemma_masks_of_texts(ts.drop_last());
        let rest = masks_of_texts(ts.drop_last());
        let t = ts.last();
        let full = masks_of_texts(ts);
        assert forall|v: Option<Seq<Seq<char>>>| #[trigger] full.contains(v) implies
            exists|k: int|
                0 <= k < ts.len() && (#[trigger] ts[k]).len() > 0 && parse_mask_view(
                    ts[k],
                ) == v by {
            if rest.contains(v) {
                let k0 = choose|k0: int|
                    0 <= k0 < ts.drop_last().len() && (#[trigger] ts.drop_last()[k0]).len()
                        > 0 && parse_mask_view(ts.drop_last()[k0]) == v;
                assert(ts[k0] == ts.drop_last()[k0]);
            } else {
                assert(t.len() > 0 && parse_mask_view(t) == v);
                assert(ts[ts.len() - 1] == t);
            }
        }
        assert forall|v: Option<Seq<Seq<char>>>|
            (exists|k: int|
                0 <= k < ts.len() && (#[trigger] ts[k]).len() > 0 && parse_mask_view(
                    ts[k],
                ) == v) implies #[trigger] full.contains(v) by {
            let k0 = choose|k0: int|
                0 <= k0 < ts.len() && (#[trigger] ts[k0]).len() > 0 && parse_mask_view(
                    ts[k0],
                ) == v;
            if k0 < ts.len() - 1 {
                assert(ts.drop_last()[k0] == ts[k0]);
                assert(rest.contains(v));
                if t.len() == 0 || rest.contains(parse_mask_view(t)) {
                    assert(full.contains(v));
                } else {
                    assert(full == rest.push(parse_mask_view(t)));
                    assert(full[choose|i: int|
                        0 <= i < rest.len() && rest[i] == v] == v);
                }
            } else {
                assert(ts[k0] == t);
                if rest.contains(parse_mask_view(t)) {
                    assert(full.contains(v));
                } else {
                    assert(full == rest.push(parse_mask_view(t)));
                    assert(full[full.len() - 1] == v);
                }
            }
        }
        if t.len() > 0 && !rest.contains(parse_mask_view(t)) {
            assert(full == rest.push(parse_mask_view(t)));
            assert forall|i: int, j: int|
                0 <= i < full.len() && 0 <= j < full.len() && i != j implies full[i]
                    != full[j] by {
                if i < rest.len() && j < rest.len() {
                    assert(rest.no_duplicates());
                } else if i < rest.len() {
                    assert(rest[i] == full[i]);
                    assert(rest.contains(rest[i]));
                } else if j < rest.len() {
                    assert(rest[j] == full[j]);
                    assert(rest.contains(rest[j]));
                }
            }
        }
    }
}

/// Appends a mask unless one with the same view is already stored.
fn insert_path_mask(masks: &mut Vec<PathMask>, m: PathMask)
    ensures
        ({
            let vs0 = old(masks)@.map_values(|x: PathMask| x.spec_chunks());
            let vs1 = final(masks)@.map_values(|x: PathMask| x.spec_chunks());
            vs1 == if vs0.contains(m.spec_chunks()) {
                vs0
            } else {
                vs0.push(m.spec_chunks())
            }
        }),
{
    let ghost vs0 = masks@.map_values(|x: PathMask| x.spec_chunks());
    let n = masks.len();
    let mut i: usize = 0;
    while i < n
        invariant
            n == masks@.len(),
            vs0 == masks@.map_values(|x: PathMask| x.spec_chunks()),
            i <= n,
            masks@ == old(masks)@,
            forall|j: int| 0 <= j < i ==> #[trigger] vs0[j] != m.spec_chunks(),
        decreases n - i,
    {
        if mask_eq(&masks[i], &m) {
            proof {
                assert(vs0[i as int] == m.spec_chunks());
                assert(vs0.contains(m.spec_chunks()));
            }
            return;
        }
        i += 1;
    }
    proof {
        assert(forall|j: int| 0 <= j < vs0.len() ==> #[trigger] vs0[j] != m.spec_chunks());
        assert(!vs0.contains(m.spec_chunks()));
    }
    let ghost pre = masks@;
    masks.push(m);
    proof {
        assert(masks@ =~= pre.push(m));
        assert(masks@.map_values(|x: PathMask| x.spec_chunks()) =~~= vs0.push(
            m.spec_chunks(),
        ));
    }
}


// ---------------------------------------------------------------------
// OIDMask
// ---------------------------------------------------------------------

/// What identifies one identity mask: its optional kind filter and its
/// path mask view.
pub type MaskKey = (Option<ItemKind>, Option<Seq<Seq<char>>>);

/// The punctuation an identity-mask path may hold besides letters and
/// digits: the identifier symbols plus the wildcard tokens and `~`.
pub open spec fn mask_symbol(c: char) -> bool {
    c == '~' || c == '_' || c == '.' || c == '(' || c == ')' || c == '[' || c == ']' || c
        == '-' || c == '+' || c == '?' || c == '#' || c == '*' || c == '\\'
}

/// Exec test for `mask_symbol`.
fn is_mask_symbol(c: char) -> (r: bool)
    ensures
        r == mask_symbol(c),
{
    c == '~' || c == '_' || c == '.' || c == '(' || c == ')' || c == '[' || c == ']' || c
        == '-' || c == '+' || c == '?' || c == '#' || c == '*' || c == '\\'
}

/// A character a mask path may hold.
pub open spec fn mask_char_ok(c: char) -> bool {
    char_alphanumeric(c) || mask_symbol(c) || c == '/'
}

/// A text is acceptable as a mask path: bounded in length (counted in
/// characters, which agrees with bytes for all-ASCII text) and made of
/// allowed characters only.
pub open spec fn mask_text_ok(s: Seq<char>) -> bool {
    s.len() <= 65000 && forall|i: int| 0 <= i < s.len() ==> mask_char_ok(#[trigger] s[i])
}

/// Validates mask-path text; the length cap deliberately counts
/// characters, not bytes.
fn check_mask_text(s: &str) -> (r: EResult<()>)
    ensures
        r is Ok <==> mask_text_ok(s@),
        r matches Err(e) ==> e.spec_kind() == ErrorKind::InvalidData,
{
    let n = s.unicode_len();
    if n > 65000 {
        return Err(Error::invalid_data("OID mask too long"));
    }
    let mut i: usize = 0;
    while i < n
        invariant
            n == s@.len(),
            i <= n,
            forall|j: int| 0 <= j < i ==> mask_char_ok(#[trigger] s@[j]),
        decreases n - i,
    {
        let c = s.get_char(i);
        let alnum = is_alphanumeric_char(c);
        if !(alnum || is_mask_symbol(c) || c == '/') {
            let mut m = "Invalid symbol in OID mask: ".to_owned();
            push_char(&mut m, c);
            return Err(Error::new(ErrorKind::InvalidData, m.as_str()));
        }
        i += 1;
    }
    Ok(())
}

/// The kind filter a kind text denotes: the any-token means no filter.
pub open spec fn kind_filter_view(h: Seq<char>) -> Option<ItemKind> {
    if seg_is_any(h) {
        None
    } else {
        ItemKind::spec_parse(h)
    }
}

/// A text parses as an identity mask with the given separator.
pub open spec fn identity_parse_ok(s: Seq<char>, sep: char) -> bool {
    if seg_is_all(s) {
        true
    } else {
        match spec_find(s, sep) {
            None => ItemKind::spec_parse(s) is Some,
            Some(t) => (seg_is_any(s.take(t)) || ItemKind::spec_parse(s.take(t)) is Some)
                && mask_text_ok(s.skip(t + 1)) && s.skip(t + 1).len() > 0,
        }
    }
}

/// The key a well-formed identity-mask text parses to.
pub open spec fn identity_mask_view(s: Seq<char>, sep: char) -> MaskKey {
    if seg_is_all(s) {
        (None, None)
    } else {
        match spec_find(s, sep) {
            None => (ItemKind::spec_parse(s), None),
            Some(t) => (kind_filter_view(s.take(t)), parse_mask_view(s.skip(t + 1))),
        }
    }
}

/// A mask key matches an identifier of the given kind and full id.
pub open spec fn key_matches(key: MaskKey, kind: ItemKind, full_id: Seq<char>) -> bool {
    (match key.0 {
        Some(k) => k == kind,
        None => true,
    }) && mask_matches(key.1, spec_split(full_id, '/'))
}

/// One identity mask: an optional kind filter plus a path mask over the
/// identifier's full id.
#[derive(Debug)]
pub struct OIDMask {
    kind: Option<ItemKind>,
    path: PathMask,
}

impl OIDMask {
    /// The kind filter, as contracts see it.
    pub closed spec fn spec_kind(&self) -> Option<ItemKind> {
        self.kind
    }

    /// The path-mask view, as contracts see it.
    pub closed spec fn spec_chunks(&self) -> Option<Seq<Seq<char>>> {
        self.path.spec_chunks()
    }

    /// The identifying key.
    pub open spec fn spec_key(&self) -> MaskKey {
        (self.spec_kind(), self.spec_chunks())
    }

    /// This mask matches identifiers of the given kind and full id.
    pub open spec fn spec_matches_oid(&self, kind: ItemKind, full_id: Seq<char>) -> bool {
        key_matches(self.spec_key(), kind, full_id)
    }

    /// The kind filter.
    pub fn kind(&self) -> (r: Option<ItemKind>)
        ensures
            r == self.spec_kind(),
    {
        self.kind
    }

    /// The mask that matches every identifier.
    pub fn new_any() -> (r: Self)
        ensures
            r.spec_key() == (None::<ItemKind>, None::<Seq<Seq<char>>>),
    {
        OIDMask { kind: None, path: PathMask::new_any() }
    }

    /// Parses the `kind:path` form (separator `:`); the bare wildcard
    /// parses to the match-everything mask and a lone kind name to
    /// `kind` with the all-path.
    pub fn parse(s: &str) -> (r: EResult<Self>)
        ensures
            r is Ok <==> identity_parse_ok(s@, ':'),
            r matches Ok(m) ==> m.spec_key() == identity_mask_view(s@, ':'),
            r matches Err(e) ==> e.spec_kind() == ErrorKind::InvalidData,
    {
        Self::parse_oid_mask(s, ':')
    }

    /// Parses the `kind/path` form (separator `/`), used when the mask is
    /// embedded in a path-shaped string.
    pub fn from_path(s: &str) -> (r: EResult<Self>)
        ensures
            r is Ok <==> identity_parse_ok(s@, '/'),
            r matches Ok(m) ==> m.spec_key() == identity_mask_view(s@, '/'),
            r matches Err(e) ==> e.spec_kind() == ErrorKind::InvalidData,
    {
        Self::parse_oid_mask(s, '/')
    }

    fn parse_oid_mask(s: &str, c: char) -> (r: EResult<Self>)
        ensures
            r is Ok <==> identity_parse_ok(s@, c),
            r matches Ok(m) ==> m.spec_key() == identity_mask_view(s@, c),
            r matches Err(e) ==> e.spec_kind() == ErrorKind::InvalidData,
    {
        proof {
            lemma_spec_find(s@, c);
        }
        if crate::is_str_wildcard(s) {
            return Ok(Self::new_any());
        }
        match find_char_exec(s, c) {
            None => {
                let kind = ItemKind::parse(s)?;
                Ok(OIDMask { kind: Some(kind), path: PathMask::new_any() })
            },
            Some(tpos) => {
                let head = s.substring_char(0, tpos);
                proof {
                    assert(head@ =~= s@.take(tpos as int));
                }
                let kind: Option<ItemKind> = if crate::is_str_any(head) {
                    None
                } else {
                    Some(ItemKind::parse(head)?)
                };
                let n = s.unicode_len();
                let tail = s.substring_char(tpos + 1, n);
                proof {
                    assert(tail@ =~= s@.skip(tpos + 1));
                }
                let checked = check_mask_text(tail);
                if let Err(e) = checked {
                    return Err(e);
                }
                let path = PathMask::parse(tail)?;
                Ok(OIDMask { kind, path })
            },
        }
    }

    /// The path-shaped rendering: the kind (or `+`) and the path mask,
    /// joined by `/`; the bare match-everything mask renders as `#`.
    pub open spec fn spec_as_path(&self) -> Seq<char> {
        match (self.spec_kind(), self.spec_chunks()) {
            (Some(k), Some(cs)) => k.spec_str() + seq!['/'] + spec_join(cs, '/'),
            (None, Some(cs)) => seq!['+', '/'] + spec_join(cs, '/'),
            (Some(k), None) => k.spec_str() + seq!['/', '#'],
            (None, None) => seq!['#'],
        }
    }

    /// Renders the path-shaped form.
    pub fn as_path(&self) -> (r: String)
        ensures
            r@ == self.spec_as_path(),
    {
        match (&self.kind, &self.path.chunks) {
            (Some(k), Some(_)) => {
                let mut r = k.as_str().to_owned();
                push_char(&mut r, '/');
                let tail = self.path.to_string();
                r.append(tail.as_str());
                proof {
                    assert(r@ =~= self.spec_as_path());
                }
                r
            },
            (None, Some(_)) => {
                let mut r = "+".to_owned();
                proof {
                    reveal_strlit("+");
                }
                push_char(&mut r, '/');
                let tail = self.path.to_string();
                r.append(tail.as_str());
                proof {
                    assert(r@ =~= self.spec_as_path());
                }
                r
            },
            (Some(k), None) => {
                let mut r = k.as_str().to_owned();
                push_char(&mut r, '/');
                push_char(&mut r, '#');
                proof {
                    assert(r@ =~= self.spec_as_path());
                }
                r
            },
            (None, None) => {
                let r = "#".to_owned();
                proof {
                    reveal_strlit("#");
                    assert(r@ =~= self.spec_as_path());
                }
                r
            },
        }
    }

    /// The canonical textual form: `kind:path`, `+:path`, or `#`.
    pub open spec fn spec_render(&self) -> Seq<char> {
        identity_render(self.spec_key())
    }

    /// Renders the canonical textual form.
    pub fn to_string(&self) -> (r: String)
        ensures
            r@ == self.spec_render(),
    {
        match (&self.kind, &self.path.chunks) {
            (Some(k), _) => {
                let mut r = k.as_str().to_owned();
                push_char(&mut r, ':');
                let tail = self.path.to_string();
                r.append(tail.as_str());
                proof {
                    assert(r@ =~= self.spec_render());
                }
                r
            },
            (None, None) => {
                let r = "#".to_owned();
                proof {
                    reveal_strlit("#");
                    assert(r@ =~= self.spec_render());
                }
                r
            },
            (None, Some(_)) => {
                let mut r = "+".to_owned();
                proof {
                    reveal_strlit("+");
                }
                push_char(&mut r, ':');
                let tail = self.path.to_string();
                r.append(tail.as_str());
                proof {
                    assert(r@ =~= self.spec_render());
                }
                r
            },
        }
    }

    /// The path-mask chunks, cloned; `None` for the all-path.
    pub fn chunks(&self) -> (r: Option<Vec<String>>)
        ensures
            match r {
                Some(v) => self.spec_chunks() == Some(v.deep_view()),
                None => self.spec_chunks() is None,
            },
    {
        self.path.chunks()
    }

    /// This mask matches the identifier.
    pub fn matches(&self, oid: &OID) -> (r: bool)
        ensures
            r == self.spec_matches_oid(oid.spec_kind(), oid.spec_full_id()),
    {
        if let Some(k) = self.kind {
            if k != oid.kind() {
                return false;
            }
        }
        self.path.matches(oid.full_id())
    }

    /// A mask converts to a wildcard identifier only when its path holds
    /// no any-token; an all-token is always the terminal whole-suffix
    /// token by construction, so it never stands in the way.
    pub open spec fn spec_wildcardable(&self) -> bool {
        match self.spec_chunks() {
            None => true,
            Some(cs) => chunks_wildcardable(cs),
        }
    }

    /// Converts the mask to a wildcard identifier: an identifier whose
    /// leaf id is the wildcard token, usable with stores that support
    /// native wildcard selection.
    pub fn to_wildcard_oid(&self) -> (r: EResult<OID>)
        ensures
            r is Ok <==> self.spec_kind() is Some && self.spec_wildcardable() && match self
                .spec_kind() {
                Some(k) => full_id_fits(k, render_of(self.spec_chunks())),
                None => false,
            },
            r matches Ok(o) ==> self.spec_kind() == Some(o.spec_kind())
                && o.spec_full_id() == render_of(self.spec_chunks()),
            r matches Err(e) ==> e.spec_kind() == (if self.spec_kind() is None
                || !self.spec_wildcardable() {
                ErrorKind::Unsupported
            } else {
                ErrorKind::InvalidData
            }),
    {
        let kind = match self.kind {
            Some(k) => k,
            None => {
                return Err(Error::unsupported("Invalid OID mask for this op"));
            },
        };
        if let Some(ch) = &self.path.chunks {
            let mut i: usize = 0;
            while i < ch.len()
                invariant
                    self.spec_chunks() == Some(ch.deep_view()),
                    ch.deep_view().len() == ch@.len(),
                    i <= ch@.len(),
                    forall|j: int|
                        0 <= j < i ==> !seg_is_any(#[trigger] ch.deep_view()[j]),
                decreases ch@.len() - i,
            {
                proof {
                    assert(ch.deep_view()[i as int] == ch@[i as int]@);
                }
                if crate::is_str_any(ch[i].as_str()) {
                    proof {
                        let cs = ch.deep_view();
                        assert((i as int) < cs.len());
                        assert(seg_is_any(cs[i as int]));
                        assert(!chunks_wildcardable(cs));
                        assert(self.spec_chunks() == Some(cs));
                        assert(!self.spec_wildcardable());
                    }
                    return Err(Error::unsupported("Invalid OID mask for this op"));
                }
                i += 1;
            }
        }
        let rendered = self.path.to_string();
        OID::new0_unchecked(kind, rendered.as_str())
    }
}

impl Clone for OIDMask {
    fn clone(&self) -> (r: Self)
        ensures
            r.spec_key() == self.spec_key(),
    {
        OIDMask { kind: self.kind, path: self.path.clone() }
    }
}

impl core::str::FromStr for OIDMask {
    type Err = Error;

    fn from_str(s: &str) -> Result<OIDMask, Error> {
        OIDMask::parse(s)
    }
}

/// No chunk of the list is an any-token.
pub open spec fn chunks_wildcardable(cs: Seq<Seq<char>>) -> bool {
    forall|i: int| 0 <= i < cs.len() ==> !seg_is_any(#[trigger] cs[i])
}

/// The canonical text of one mask key.
pub open spec fn identity_render(key: MaskKey) -> Seq<char> {
    match key.0 {
        Some(k) => k.spec_str() + seq![':'] + render_of(key.1),
        None => match key.1 {
            None => seq!['#'],
            Some(cs) => seq!['+', ':'] + spec_join(cs, '/'),
        },
    }
}

/// First occurrence of a character, by character index (exec).
fn find_char_exec(s: &str, c: char) -> (r: Option<usize>)
    ensures
        match r {
            Some(i) => spec_find(s@, c) == Some(i as int),
            None => spec_find(s@, c) is None,
        },
{
    let r = crate::strpath::find_char(s, c);
    proof {
        lemma_spec_find(s@, c);
        match r {
            Some(i) => {
                match spec_find(s@, c) {
                    Some(t) => {
                        assert(!(t < i) && !(i < t));
                    },
                    None => {
                        assert(false);
                    },
                }
            },
            None => {
                assert(spec_find(s@, c) is None);
            },
        }
    }
    r
}

// ---------------------------------------------------------------------
// OIDMaskList
// ---------------------------------------------------------------------

/// The distinct keys of a run of masks, in first-appearance order.
pub open spec fn dedup_keys(ks: Seq<MaskKey>) -> Seq<MaskKey>
    decreases ks.len(),
{
    if ks.len() == 0 {
        Seq::<MaskKey>::empty()
    } else {
        let rest = dedup_keys(ks.drop_last());
        if rest.contains(ks.last()) {
            rest
        } else {
            rest.push(ks.last())
        }
    }
}

/// What deduplication keeps: a key occurs iff it occurred, and only once.
pub proof fn lemma_dedup_keys(ks: Seq<MaskKey>)
    ensures
        forall|v: MaskKey| #[trigger] dedup_keys(ks).contains(v) <==> ks.contains(v),
        dedup_keys(ks).no_duplicates(),
    decreases ks.len(),
{
    if ks.len() == 0 {
        assert forall|v: MaskKey| !(#[trigger] dedup_keys(ks).contains(v)) by {}
        assert forall|v: MaskKey| !(#[trigger] ks.contains(v)) by {}
    } else {
        lemma_dedup_keys(ks.drop_last());
        let rest = dedup_keys(ks.drop_last());
        let full = dedup_keys(ks);
        assert forall|v: MaskKey| #[trigger] full.contains(v) implies ks.contains(v) by {
            if rest.contains(v) {
                let k0 = choose|k0: int|
                    0 <= k0 < ks.drop_last().len() && ks.drop_last()[k0] == v;
                assert(ks[k0] == v);
            } else {
                assert(v == ks.last());
                assert(ks[ks.len() - 1] == v);
            }
        }
        assert forall|v: MaskKey| #[trigger] ks.contains(v) implies full.contains(v) by {
            let k0 = choose|k0: int| 0 <= k0 < ks.len() && ks[k0] == v;
            if k0 < ks.len() - 1 {
                assert(ks.drop_last()[k0] == v);
                assert(rest.contains(v));
                if rest.contains(ks.last()) {
                    assert(full.contains(v));
                } else {
                    assert(full == rest.push(ks.last()));
                    assert(full[choose|i: int| 0 <= i < rest.len() && rest[i] == v] == v);
                }
            } else {
                assert(ks[k0] == ks.last());
                if rest.contains(ks.last()) {
                    assert(full.contains(v));
                } else {
                    assert(full == rest.push(ks.last()));
                    assert(full[full.len() - 1] == v);
                }
            }
        }
        if !rest.contains(ks.last()) {
            assert(full == rest.push(ks.last()));
            assert forall|i: int, j: int|
                0 <= i < full.len() && 0 <= j < full.len() && i != j implies full[i]
                    != full[j] by {
                if i < rest.len() && j < rest.len() {
                    assert(rest.no_duplicates());
                } else if i < rest.len() {
                    assert(rest.contains(rest[i]));
                } else if j < rest.len() {
                    assert(rest.contains(rest[j]));
                }
            }
        }
    }
}

/// A deduplicated set of identity masks; matching asks whether any stored
/// mask matches the identifier.
#[derive(Debug)]
pub struct OIDMaskList {
    oid_masks: Vec<OIDMask>,
}

impl OIDMaskList {
    /// The stored mask keys, in storage order.
    pub closed spec fn spec_keys(&self) -> Seq<MaskKey> {
        self.oid_masks@.map_values(|m: OIDMask| m.spec_key())
    }

    #[verifier::type_invariant]
    closed spec fn wf(&self) -> bool {
        forall|i: int, j: int|
            0 <= i < j < self.spec_keys().len() ==> self.spec_keys()[i]
                != self.spec_keys()[j]
    }

    /// Some stored mask matches an identifier with this kind and full id.
    pub open spec fn spec_matches_oid(&self, kind: ItemKind, full_id: Seq<char>) -> bool {
        exists|i: int|
            0 <= i < self.spec_keys().len() && key_matches(
                #[trigger] self.spec_keys()[i],
                kind,
                full_id,
            )
    }

    /// Builds a list from parsed masks, dropping duplicates.
    pub fn new(oid_masks: Vec<OIDMask>) -> (r: Self)
        ensures
            r.spec_keys() == dedup_keys(oid_masks@.map_values(|m: OIDMask| m.spec_key())),
    {
        let ghost kv = oid_masks@.map_values(|m: OIDMask| m.spec_key());
        let mut masks: Vec<OIDMask> = Vec::new();
        let mut i: usize = 0;
        proof {
            assert(kv.take(0) =~~= Seq::<MaskKey>::empty());
        }
        while i < oid_masks.len()
            invariant
                kv == oid_masks@.map_values(|m: OIDMask| m.spec_key()),
                kv.len() == oid_masks@.len(),
                i <= oid_masks@.len(),
                masks@.map_values(|m: OIDMask| m.spec_key()) == dedup_keys(
                    kv.take(i as int),
                ),
            decreases oid_masks@.len() - i,
        {
            proof {
                assert(kv[i as int] == oid_masks@[i as int].spec_key());
                assert(kv.take(i + 1).drop_last() =~~= kv.take(i as int));
                assert(kv.take(i + 1).last() == kv[i as int]);
            }
            let m = oid_masks[i].clone();
            insert_oid_mask(&mut masks, m);
            i += 1;
        }
        proof {
            assert(kv.take(kv.len() as int) =~~= kv);
            lemma_dedup_keys(kv);
        }
        Self { oid_masks: masks }
    }

    /// A list holding one mask.
    pub fn new0(oid_mask: OIDMask) -> (r: Self)
        ensures
            r.spec_keys() =~= seq![oid_mask.spec_key()],
    {
        let ghost key = oid_mask.spec_key();
        let mut masks: Vec<OIDMask> = Vec::new();
        masks.push(oid_mask);
        let r = Self { oid_masks: masks };
        proof {
            assert(r.spec_keys() =~= seq![key]);
        }
        r
    }

    /// A list holding the match-everything mask.
    pub fn new_any() -> (r: Self)
        ensures
            r.spec_keys() =~= seq![(None::<ItemKind>, None::<Seq<Seq<char>>>)],
    {
        Self::new0(OIDMask::new_any())
    }

    /// An empty list, which matches nothing.
    pub fn empty() -> (r: Self)
        ensures
            r.spec_keys() =~= Seq::<MaskKey>::empty(),
    {
        Self { oid_masks: Vec::new() }
    }

    /// Builds a list from mask texts in the `kind:path` form; any
    /// unparsable text fails the whole list.
    pub fn from_str_list(s_masks: &[&str]) -> (r: EResult<Self>)
        ensures
            r is Ok <==> forall|k: int|
                0 <= k < s_masks@.len() ==> identity_parse_ok((#[trigger] s_masks@[k])@, ':'),
            r matches Ok(l) ==> l.spec_keys() == dedup_keys(
                s_masks@.map_values(|t: &str| identity_mask_view(t@, ':')),
            ),
            r matches Err(e) ==> e.spec_kind() == ErrorKind::InvalidData && exists|k: int|
                0 <= k < s_masks@.len() && !identity_parse_ok((#[trigger] s_masks@[k])@, ':')
                    && (forall|j: int|
                    0 <= j < k ==> identity_parse_ok((#[trigger] s_masks@[j])@, ':')),
    {
        let mut parsed: Vec<OIDMask> = Vec::new();
        let mut i: usize = 0;
        while i < s_masks.len()
            invariant
                i <= s_masks@.len(),
                parsed@.len() == i,
                forall|k: int|
                    0 <= k < i ==> identity_parse_ok((#[trigger] s_masks@[k])@, ':'),
                forall|k: int|
                    0 <= k < i ==> (#[trigger] parsed@[k]).spec_key() == identity_mask_view(
                        s_masks@[k]@,
                        ':',
                    ),
            decreases s_masks@.len() - i,
        {
            let m = match OIDMask::parse(s_masks[i]) {
                Ok(m) => m,
                Err(e) => {
                    proof {
                        assert(!identity_parse_ok((s_masks@[i as int])@, ':'));
                    }
                    return Err(e);
                },
            };
            parsed.push(m);
            i += 1;
        }
        let r = Self::new(parsed);
        proof {
            assert(parsed@.map_values(|m: OIDMask| m.spec_key()) =~~= s_masks@.map_values(
                |t: &str| identity_mask_view(t@, ':'),
            ));
        }
        Ok(r)
    }

    /// As `from_str_list`, over owned strings.
    pub fn from_string_list(s_masks: &[String]) -> (r: EResult<Self>)
        ensures
            r is Ok <==> forall|k: int|
                0 <= k < s_masks@.len() ==> identity_parse_ok((#[trigger] s_masks@[k])@, ':'),
            r matches Ok(l) ==> l.spec_keys() == dedup_keys(
                s_masks@.map_values(|t: String| identity_mask_view(t@, ':')),
            ),
            r matches Err(e) ==> e.spec_kind() == ErrorKind::InvalidData && exists|k: int|
                0 <= k < s_masks@.len() && !identity_parse_ok((#[trigger] s_masks@[k])@, ':')
                    && (forall|j: int|
                    0 <= j < k ==> identity_parse_ok((#[trigger] s_masks@[j])@, ':')),
    {
        let mut parsed: Vec<OIDMask> = Vec::new();
        let mut i: usize = 0;
        while i < s_masks.len()
            invariant
                i <= s_masks@.len(),
                parsed@.len() == i,
                forall|k: int|
                    0 <= k < i ==> identity_parse_ok((#[trigger] s_masks@[k])@, ':'),
                forall|k: int|
                    0 <= k < i ==> (#[trigger] parsed@[k]).spec_key() == identity_mask_view(
                        s_masks@[k]@,
                        ':',
                    ),
            decreases s_masks@.len() - i,
        {
            let m = match OIDMask::parse(s_masks[i].as_str()) {
                Ok(m) => m,
                Err(e) => {
                    proof {
                        assert(!identity_parse_ok((s_masks@[i as int])@, ':'));
                    }
                    return Err(e);
                },
            };
            parsed.push(m);
            i += 1;
        }
        let r = Self::new(parsed);
        proof {
            assert(parsed@.map_values(|m: OIDMask| m.spec_key()) =~~= s_masks@.map_values(
                |t: String| identity_mask_view(t@, ':'),
            ));
        }
        Ok(r)
    }

    /// Builds a list from one comma-delimited string of masks; the empty
    /// string gives the empty list, and any unparsable entry fails the
    /// whole list.
    pub fn from_comma_str(s: &str) -> (r: EResult<Self>)
        ensures
            s@.len() == 0 ==> (r matches Ok(l) && l.spec_keys().len() == 0),
            s@.len() > 0 ==> (r is Ok <==> forall|k: int|
                0 <= k < spec_split(s@, ',').len() ==> identity_parse_ok(
                    #[trigger] spec_split(s@, ',')[k],
                    ':',
                )),
            s@.len() > 0 ==> (r matches Ok(l) ==> l.spec_keys() == dedup_keys(
                spec_split(s@, ',').map_values(|t: Seq<char>| identity_mask_view(t, ':')),
            )),
            r matches Err(e) ==> e.spec_kind() == ErrorKind::InvalidData && exists|k: int|
                0 <= k < spec_split(s@, ',').len() && !identity_parse_ok(
                    #[trigger] spec_split(s@, ',')[k],
                    ':',
                ) && (forall|j: int|
                    0 <= j < k ==> identity_parse_ok(#[trigger] spec_split(s@, ',')[j], ':')),
    {
        if s.is_empty() {
            return Ok(Self::empty());
        }
        let parts = split_str(s, ',');
        let ghost sv = spec_split(s@, ',');
        proof {
            assert(parts.deep_view().len() == parts@.len());
            assert forall|k: int| 0 <= k < parts@.len() implies (#[trigger] parts@[k])@
                == sv[k] by {
                assert(parts.deep_view()[k] == parts@[k]@);
            }
        }
        let mut parsed: Vec<OIDMask> = Vec::new();
        let mut i: usize = 0;
        while i < parts.len()
            invariant
                s@.len() > 0,
                sv == spec_split(s@, ','),
                parts@.len() == sv.len(),
                forall|k: int| 0 <= k < parts@.len() ==> (#[trigger] parts@[k])@ == sv[k],
                i <= parts@.len(),
                parsed@.len() == i,
                forall|k: int| 0 <= k < i ==> identity_parse_ok(#[trigger] sv[k], ':'),
                forall|k: int|
                    0 <= k < i ==> (#[trigger] parsed@[k]).spec_key() == identity_mask_view(
                        sv[k],
                        ':',
                    ),
            decreases parts@.len() - i,
        {
            let m = match OIDMask::parse(parts[i].as_str()) {
                Ok(m) => m,
                Err(e) => {
                    proof {
                        assert(!identity_parse_ok(spec_split(s@, ',')[i as int], ':'));
                    }
                    return Err(e);
                },
            };
            parsed.push(m);
            i += 1;
        }
        let r = Self::new(parsed);
        proof {
            assert(parsed@.map_values(|m: OIDMask| m.spec_key()) =~~= sv.map_values(
                |t: Seq<char>| identity_mask_view(t, ':'),
            ));
        }
        Ok(r)
    }

    /// True iff any stored mask matches the identifier.
    pub fn matches(&self, oid: &OID) -> (r: bool)
        ensures
            r == self.spec_matches_oid(oid.spec_kind(), oid.spec_full_id()),
    {
        let mut i: usize = 0;
        while i < self.oid_masks.len()
            invariant
                i <= self.oid_masks@.len(),
                forall|j: int|
                    0 <= j < i ==> !key_matches(
                        #[trigger] self.spec_keys()[j],
                        oid.spec_kind(),
                        oid.spec_full_id(),
                    ),
            decreases self.oid_masks@.len() - i,
        {
            let hit = self.oid_masks[i].matches(oid);
            proof {
                assert(self.spec_keys()[i as int] == self.oid_masks@[i as int].spec_key());
            }
            if hit {
                return true;
            }
            i += 1;
        }
        false
    }

    /// The list holds no masks.
    pub fn is_empty(&self) -> (r: bool)
        ensures
            r == (self.spec_keys().len() == 0),
    {
        self.oid_masks.len() == 0
    }

    /// The stored masks.
    pub fn oid_masks(&self) -> (r: &Vec<OIDMask>)
        ensures
            r@.map_values(|m: OIDMask| m.spec_key()) == self.spec_keys(),
    {
        &self.oid_masks
    }

    /// The canonical texts of the stored masks, in storage order.
    pub fn as_string_vec(&self) -> (r: Vec<String>)
        ensures
            r@.len() == self.spec_keys().len(),
            forall|j: int|
                0 <= j < r@.len() ==> (#[trigger] r@[j])@ == identity_render(
                    self.spec_keys()[j],
                ),
    {
        let mut r: Vec<String> = Vec::new();
        let mut i: usize = 0;
        while i < self.oid_masks.len()
            invariant
                i <= self.oid_masks@.len(),
                r@.len() == i,
                forall|j: int|
                    0 <= j < i ==> (#[trigger] r@[j])@ == identity_render(
                        self.spec_keys()[j],
                    ),
            decreases self.oid_masks@.len() - i,
        {
            r.push(self.oid_masks[i].to_string());
            proof {
                assert(self.spec_keys()[i as int] == self.oid_masks@[i as int].spec_key());
            }
            i += 1;
        }
        r
    }
}

/// Key equality of two identity masks.
fn oid_mask_eq(a: &OIDMask, b: &OIDMask) -> (r: bool)
    ensures
        r == (a.spec_key() == b.spec_key()),
{
    let kind_same = match (&a.kind, &b.kind) {
        (None, None) => true,
        (Some(x), Some(y)) => *x == *y,
        _ => false,
    };
    kind_same && mask_eq(&a.path, &b.path)
}

/// Appends a mask unless one with the same key is already stored.
fn insert_oid_mask(masks: &mut Vec<OIDMask>, m: OIDMask)
    ensures
        ({
            let ks0 = old(masks)@.map_values(|x: OIDMask| x.spec_key());
            let ks1 = final(masks)@.map_values(|x: OIDMask| x.spec_key());
            ks1 == if ks0.contains(m.spec_key()) {
                ks0
            } else {
                ks0.push(m.spec_key())
            }
        }),
{
    let ghost ks0 = masks@.map_values(|x: OIDMask| x.spec_key());
    let n = masks.len();
    let mut i: usize = 0;
    while i < n
        invariant
            n == masks@.len(),
            ks0 == masks@.map_values(|x: OIDMask| x.spec_key()),
            i <= n,
            masks@ == old(masks)@,
            forall|j: int| 0 <= j < i ==> #[trigger] ks0[j] != m.spec_key(),
        decreases n - i,
    {
        if oid_mask_eq(&masks[i], &m) {
            proof {
                assert(ks0[i as int] == m.spec_key());
                assert(ks0.contains(m.spec_key()));
            }
            return;
        }
        i += 1;
    }
    proof {
        assert(forall|j: int| 0 <= j < ks0.len() ==> #[trigger] ks0[j] != m.spec_key());
        assert(!ks0.contains(m.spec_key()));
    }
    let ghost pre = masks@;
    masks.push(m);
    proof {
        assert(masks@ =~= pre.push(m));
        assert(masks@.map_values(|x: OIDMask| x.spec_key()) =~~= ks0.push(m.spec_key()));
    }
}


// ---------------------------------------------------------------------
// Policy record and evaluator
// ---------------------------------------------------------------------

/// The opaque structured value carried as policy metadata.
#[verifier::external_type_specification]
#[verifier::external_body]
pub struct ExJsonValue(serde_json::Value);

/// Operator capability tags, independent of resource masks.
#[derive(Debug, Clone, Copy, PartialEq, Eq, Hash, Structural)]
pub enum Op {
    Log,
    Moderator,
    Supervisor,
}

impl Op {
    /// The canonical tag text.
    pub open spec fn spec_str(self) -> Seq<char> {
        match self {
            Op::Log => "log"@,
            Op::Moderator => "moderator"@,
            Op::Supervisor => "supervisor"@,
        }
    }

    pub fn as_str(&self) -> (r: &'static str)
        ensures
            r@ == self.spec_str(),
    {
        match self {
            Op::Log => "log",
            Op::Moderator => "moderator",
            Op::Supervisor => "supervisor",
        }
    }

    /// Which texts parse to which tag.
    pub open spec fn spec_parse(s: Seq<char>) -> Option<Op> {
        if s == "log"@ {
            Some(Op::Log)
        } else if s == "moderator"@ {
            Some(Op::Moderator)
        } else if s == "supervisor"@ {
            Some(Op::Supervisor)
        } else {
            None
        }
    }

    /// Parses a capability tag.
    pub fn parse(s: &str) -> (r: EResult<Op>)
        ensures
            match r {
                Ok(op) => Self::spec_parse(s@) == Some(op),
                Err(e) => Self::spec_parse(s@) is None && e.spec_kind()
                    == ErrorKind::InvalidData,
            },
    {
        if str_eq(s, "log") {
            Ok(Op::Log)
        } else if str_eq(s, "moderator") {
            Ok(Op::Moderator)
        } else if str_eq(s, "supervisor") {
            Ok(Op::Supervisor)
        } else {
            let mut m = "Invalid op: ".to_owned();
            m.append(s);
            Err(Error::new(ErrorKind::InvalidData, m.as_str()))
        }
    }
}

/// One category of mask lists: typed item identifiers, private paths and
/// reverse-proxy private paths.
#[derive(Debug)]
pub struct AclItemsPvt {
    pub items: OIDMaskList,
    pub pvt: PathMaskList,
    pub rpvt: PathMaskList,
}

impl AclItemsPvt {
    pub fn new(items: OIDMaskList, pvt: PathMaskList, rpvt: PathMaskList) -> (r: Self)
        ensures
            r.items == items,
            r.pvt == pvt,
            r.rpvt == rpvt,
    {
        AclItemsPvt { items, pvt, rpvt }
    }

    /// A category with empty lists, which matches nothing.
    pub fn empty() -> (r: Self)
        ensures
            r.items.spec_keys().len() == 0,
            r.pvt.spec_masks().len() == 0,
            r.rpvt.spec_masks().len() == 0,
    {
        AclItemsPvt {
            items: OIDMaskList::empty(),
            pvt: PathMaskList::empty(),
            rpvt: PathMaskList::empty(),
        }
    }
}

/// Strips one HTTP scheme prefix, if present.
pub open spec fn strip_scheme(uri: Seq<char>) -> Seq<char> {
    if has_prefix(uri, "https://"@) {
        uri.skip("https://"@.len() as int)
    } else if has_prefix(uri, "http://"@) {
        uri.skip("http://"@.len() as int)
    } else {
        uri
    }
}

/// The normalized form of a reverse-proxy path `node/uri`: the node, a
/// separator, and the uri with a leading HTTP scheme stripped. A path
/// without a separator has no normal form.
pub open spec fn rpvt_normalized(p: Seq<char>) -> Option<Seq<char>> {
    match spec_find(p, '/') {
        None => None,
        Some(t) => Some(p.take(t) + seq!['/'] + strip_scheme(p.skip(t + 1))),
    }
}

/// Normalizes a reverse-proxy path.
fn normalize_rpvt(path: &str) -> (r: Option<String>)
    ensures
        match r {
            Some(q) => rpvt_normalized(path@) == Some(q@),
            None => rpvt_normalized(path@) is None,
        },
{
    proof {
        lemma_spec_find(path@, '/');
    }
    match find_char_exec(path, '/') {
        None => None,
        Some(t) => {
            let n = path.unicode_len();
            let node = path.substring_char(0, t);
            let uri = path.substring_char(t + 1, n);
            proof {
                assert(node@ =~= path@.take(t as int));
                assert(uri@ =~= path@.skip(t + 1));
            }
            let un = uri.unicode_len();
            let stripped: &str = if starts_with(uri, "https://") {
                proof {
                    reveal_strlit("https://");
                }
                uri.substring_char(8, un)
            } else if starts_with(uri, "http://") {
                proof {
                    reveal_strlit("https://");
                    reveal_strlit("http://");
                }
                uri.substring_char(7, un)
            } else {
                proof {
                    reveal_strlit("https://");
                    reveal_strlit("http://");
                }
                uri
            };
            proof {
                assert(stripped@ =~= strip_scheme(uri@));
            }
            let mut q = node.to_owned();
            push_char(&mut q, '/');
            q.append(stripped);
            proof {
                assert(q@ =~= path@.take(t as int) + seq!['/'] + strip_scheme(
                    path@.skip(t + 1),
                ));
            }
            Some(q)
        },
    }
}

/// The distinct texts of a run of texts, in first-appearance order,
/// appended to an accumulator.
pub open spec fn dedup_into(acc: Seq<Seq<char>>, ss: Seq<Seq<char>>) -> Seq<Seq<char>>
    decreases ss.len(),
{
    if ss.len() == 0 {
        acc
    } else {
        let acc2 = if acc.contains(ss[0]) {
            acc
        } else {
            acc.push(ss[0])
        };
        dedup_into(acc2, ss.drop_first())
    }
}

/// Appends to `dst` each text of `src` not already present.
fn push_unique_strings(dst: &mut Vec<String>, src: &Vec<String>)
    ensures
        final(dst)@.map_values(|x: String| x@) == dedup_into(
            old(dst)@.map_values(|x: String| x@),
            src@.map_values(|x: String| x@),
        ),
{
    let ghost sv = src@.map_values(|x: String| x@);
    let ghost total = dedup_into(old(dst)@.map_values(|x: String| x@), sv);
    let mut i: usize = 0;
    proof {
        assert(sv.skip(0) =~~= sv);
    }
    while i < src.len()
        invariant
            sv == src@.map_values(|x: String| x@),
            sv.len() == src@.len(),
            i <= src@.len(),
            total == dedup_into(dst@.map_values(|x: String| x@), sv.skip(i as int)),
        decreases src@.len() - i,
    {
        let ghost acc = dst@.map_values(|x: String| x@);
        proof {
            assert(sv.skip(i as int)[0] == sv[i as int]);
            assert(sv[i as int] == src@[i as int]@);
            assert(sv.skip(i as int).drop_first() =~~= sv.skip(i + 1));
        }
        let present = vec_contains_str(dst, src[i].as_str());
        if !present {
            let ghost pre = dst@;
            dst.push(src[i].clone());
            proof {
                assert(dst@ =~= pre.push(src@[i as int]));
                assert(dst@.map_values(|x: String| x@) =~~= acc.push(sv[i as int]));
            }
        }
        i += 1;
    }
    proof {
        assert(sv.skip(sv.len() as int) =~~= Seq::<Seq<char>>::empty());
    }
}

/// The vector holds a string with this text.
fn vec_contains_str(v: &Vec<String>, s: &str) -> (r: bool)
    ensures
        r == v@.map_values(|x: String| x@).contains(s@),
{
    let ghost vv = v@.map_values(|x: String| x@);
    let mut i: usize = 0;
    while i < v.len()
        invariant
            vv == v@.map_values(|x: String| x@),
            vv.len() == v@.len(),
            i <= v@.len(),
            forall|j: int| 0 <= j < i ==> #[trigger] vv[j] != s@,
        decreases v@.len() - i,
    {
        proof {
            assert(vv[i as int] == v@[i as int]@);
        }
        if str_eq(v[i].as_str(), s) {
            proof {
                assert(vv.contains(s@));
            }
            return true;
        }
        i += 1;
    }
    proof {
        assert(forall|j: int| 0 <= j < vv.len() ==> #[trigger] vv[j] != s@);
        assert(!vv.contains(s@));
    }
    false
}

/// The full access-control record for one identity: categorized mask
/// lists, the admin flag, capability tags, opaque metadata and lineage.
/// Built once, then read-only.
#[derive(Debug)]
pub struct Acl {
    id: String,
    admin: bool,
    read: AclItemsPvt,
    write: AclItemsPvt,
    deny_read: AclItemsPvt,
    deny_write: AclItemsPvt,
    ops: Vec<Op>,
    meta: Option<serde_json::Value>,
    from: Vec<String>,
}

impl Acl {
    /// The record's identity key, as contracts see it.
    pub closed spec fn spec_id(&self) -> Seq<char> {
        self.id@
    }

    /// The admin flag, as contracts see it.
    pub closed spec fn spec_admin(&self) -> bool {
        self.admin
    }

    pub closed spec fn spec_read(&self) -> AclItemsPvt {
        self.read
    }

    pub closed spec fn spec_write(&self) -> AclItemsPvt {
        self.write
    }

    pub closed spec fn spec_deny_read(&self) -> AclItemsPvt {
        self.deny_read
    }

    pub closed spec fn spec_deny_write(&self) -> AclItemsPvt {
        self.deny_write
    }

    pub closed spec fn spec_ops(&self) -> Seq<Op> {
        self.ops@
    }

    pub closed spec fn spec_from(&self) -> Seq<String> {
        self.from@
    }

    pub closed spec fn spec_has_meta(&self) -> bool {
        self.meta is Some
    }

    /// Builds a record from its parts.
    pub fn new(
        id: &str,
        admin: bool,
        read: AclItemsPvt,
        write: AclItemsPvt,
        deny_read: AclItemsPvt,
        deny_write: AclItemsPvt,
        ops: Vec<Op>,
        meta: Option<serde_json::Value>,
        from: Vec<String>,
    ) -> (r: Self)
        ensures
            r.spec_id() == id@,
            r.spec_admin() == admin,
            r.spec_read() == read,
            r.spec_write() == write,
            r.spec_deny_read() == deny_read,
            r.spec_deny_write() == deny_write,
            r.spec_ops() == ops@,
            r.spec_from() == from@,
            r.spec_has_meta() == (meta is Some),
    {
        Acl {
            id: id.to_owned(),
            admin,
            read,
            write,
            deny_read,
            deny_write,
            ops,
            meta,
            from,
        }
    }

    pub fn id(&self) -> (r: &str)
        ensures
            r@ == self.spec_id(),
    {
        self.id.as_str()
    }

    // -------------------- evaluator specifications --------------------

    pub open spec fn spec_check_admin(&self) -> bool {
        self.spec_admin()
    }

    pub open spec fn spec_check_op(&self, op: Op) -> bool {
        self.spec_admin() || self.spec_ops().contains(op)
    }

    pub open spec fn spec_check_item_read(&self, oid: OID) -> bool {
        self.spec_admin() || ((self.spec_read().items.spec_matches_oid(
            oid.spec_kind(),
            oid.spec_full_id(),
        ) || self.spec_write().items.spec_matches_oid(oid.spec_kind(), oid.spec_full_id()))
            && !self.spec_deny_read().items.spec_matches_oid(
            oid.spec_kind(),
            oid.spec_full_id(),
        ))
    }

    pub open spec fn spec_check_item_write(&self, oid: OID) -> bool {
        self.spec_admin() || (self.spec_write().items.spec_matches_oid(
            oid.spec_kind(),
            oid.spec_full_id(),
        ) && !self.spec_deny_write().items.spec_matches_oid(
            oid.spec_kind(),
            oid.spec_full_id(),
        ) && !self.spec_deny_read().items.spec_matches_oid(
            oid.spec_kind(),
            oid.spec_full_id(),
        ))
    }

    pub open spec fn spec_check_pvt_read(&self, path: Seq<char>) -> bool {
        self.spec_admin() || (self.spec_read().pvt.spec_matches(spec_split(path, '/'))
            && !self.spec_deny_read().pvt.spec_matches(spec_split(path, '/')))
    }

    pub open spec fn spec_check_pvt_write(&self, path: Seq<char>) -> bool {
        self.spec_admin() || (self.spec_write().pvt.spec_matches(spec_split(path, '/'))
            && !self.spec_deny_write().pvt.spec_matches(spec_split(path, '/'))
            && !self.spec_deny_read().pvt.spec_matches(spec_split(path, '/')))
    }

    pub open spec fn spec_check_rpvt_read(&self, path: Seq<char>) -> bool {
        self.spec_admin() || match rpvt_normalized(path) {
            None => false,
            Some(q) => self.spec_read().rpvt.spec_matches(spec_split(q, '/'))
                && !self.spec_deny_read().rpvt.spec_matches(spec_split(q, '/')),
        }
    }

    // -------------------- evaluator --------------------

    pub fn check_admin(&self) -> (r: bool)
        ensures
            r == self.spec_check_admin(),
    {
        self.admin
    }

    pub fn check_op(&self, op: Op) -> (r: bool)
        ensures
            r == self.spec_check_op(op),
    {
        if self.admin {
            return true;
        }
        let mut i: usize = 0;
        while i < self.ops.len()
            invariant
                i <= self.ops@.len(),
                forall|j: int| 0 <= j < i ==> #[trigger] self.ops@[j] != op,
            decreases self.ops@.len() - i,
        {
            if self.ops[i] == op {
                proof {
                    assert(self.spec_ops().contains(op));
                }
                return true;
            }
            i += 1;
        }
        proof {
            assert(!self.spec_ops().contains(op));
        }
        false
    }

    pub fn check_item_read(&self, oid: &OID) -> (r: bool)
        ensures
            r == self.spec_check_item_read(*oid),
    {
        self.admin || ((self.read.items.matches(oid) || self.write.items.matches(oid))
            && !self.deny_read.items.matches(oid))
    }

    pub fn check_item_write(&self, oid: &OID) -> (r: bool)
        ensures
            r == self.spec_check_item_write(*oid),
    {
        self.admin || (self.write.items.matches(oid) && !self.deny_write.items.matches(oid)
            && !self.deny_read.items.matches(oid))
    }

    pub fn check_pvt_read(&self, path: &str) -> (r: bool)
        ensures
            r == self.spec_check_pvt_read(path@),
    {
        self.admin || (self.read.pvt.matches(path) && !self.deny_read.pvt.matches(path))
    }

    pub fn check_pvt_write(&self, path: &str) -> (r: bool)
        ensures
            r == self.spec_check_pvt_write(path@),
    {
        self.admin || (self.write.pvt.matches(path) && !self.deny_write.pvt.matches(path)
            && !self.deny_read.pvt.matches(path))
    }

    pub fn check_rpvt_read(&self, path: &str) -> (r: bool)
        ensures
            r == self.spec_check_rpvt_read(path@),
    {
        if self.admin {
            return true;
        }
        match normalize_rpvt(path) {
            None => false,
            Some(q) => {
                self.read.rpvt.matches(q.as_str()) && !self.deny_read.rpvt.matches(
                    q.as_str(),
                )
            },
        }
    }

    // -------------------- require wrappers --------------------

    pub fn require_admin(&self) -> (r: EResult<()>)
        ensures
            r is Ok <==> self.spec_check_admin(),
            r matches Err(e) ==> e.spec_kind() == ErrorKind::AccessDenied
                && e.spec_message() == Some("admin access required"@),
    {
        if self.check_admin() {
            Ok(())
        } else {
            Err(Error::access("admin access required"))
        }
    }

    pub fn require_op(&self, op: Op) -> (r: EResult<()>)
        ensures
            r is Ok <==> self.spec_check_op(op),
            r matches Err(e) ==> e.spec_kind() == ErrorKind::AccessDenied
                && e.spec_message() == Some("operation access required: "@ + op.spec_str()),
    {
        if self.check_op(op) {
            Ok(())
        } else {
            let mut m = "operation access required: ".to_owned();
            m.append(op.as_str());
            Err(Error::access(m.as_str()))
        }
    }

    pub fn require_item_read(&self, oid: &OID) -> (r: EResult<()>)
        ensures
            r is Ok <==> self.spec_check_item_read(*oid),
            r matches Err(e) ==> e.spec_kind() == ErrorKind::AccessDenied
                && e.spec_message() == Some("read access required for: "@ + oid.spec_str()),
    {
        if self.check_item_read(oid) {
            Ok(())
        } else {
            let mut m = "read access required for: ".to_owned();
            m.append(oid.as_str());
            Err(Error::access(m.as_str()))
        }
    }

    pub fn require_item_write(&self, oid: &OID) -> (r: EResult<()>)
        ensures
            r is Ok <==> self.spec_check_item_write(*oid),
            r matches Err(e) ==> e.spec_kind() == ErrorKind::AccessDenied
                && e.spec_message() == Some(
                "write access required for: "@ + oid.spec_str(),
            ),
    {
        if self.check_item_write(oid) {
            Ok(())
        } else {
            let mut m = "write access required for: ".to_owned();
            m.append(oid.as_str());
            Err(Error::access(m.as_str()))
        }
    }

    pub fn require_pvt_read(&self, path: &str) -> (r: EResult<()>)
        ensures
            r is Ok <==> self.spec_check_pvt_read(path@),
            r matches Err(e) ==> e.spec_kind() == ErrorKind::AccessDenied
                && e.spec_message() == Some("read access required for: "@ + path@),
    {
        if self.check_pvt_read(path) {
            Ok(())
        } else {
            let mut m = "read access required for: ".to_owned();
            m.append(path);
            Err(Error::access(m.as_str()))
        }
    }

    pub fn require_pvt_write(&self, path: &str) -> (r: EResult<()>)
        ensures
            r is Ok <==> self.spec_check_pvt_write(path@),
            r matches Err(e) ==> e.spec_kind() == ErrorKind::AccessDenied
                && e.spec_message() == Some("write access required for: "@ + path@),
    {
        if self.check_pvt_write(path) {
            Ok(())
        } else {
            let mut m = "write access required for: ".to_owned();
            m.append(path);
            Err(Error::access(m.as_str()))
        }
    }

    pub fn require_rpvt_read(&self, path: &str) -> (r: EResult<()>)
        ensures
            r is Ok <==> self.spec_check_rpvt_read(path@),
            r matches Err(e) ==> e.spec_kind() == ErrorKind::AccessDenied
                && e.spec_message() == Some("read access required for: "@ + path@),
    {
        if self.check_rpvt_read(path) {
            Ok(())
        } else {
            let mut m = "read access required for: ".to_owned();
            m.append(path);
            Err(Error::access(m.as_str()))
        }
    }

    // -------------------- other accessors --------------------

    /// The allow and deny mask texts for reading items: for an admin the
    /// universal mask and nothing denied; otherwise the distinct canonical
    /// texts of the read and write item masks, and of the deny-read ones.
    pub fn get_items_allow_deny_reading(&self) -> (r: (Vec<String>, Vec<String>))
        ensures
            self.spec_admin() ==> r.0@.map_values(|x: String| x@) =~~= seq![seq!['#']]
                && r.1@.len() == 0,
            !self.spec_admin() ==> r.0@.map_values(|x: String| x@) == dedup_into(
                dedup_into(
                    Seq::<Seq<char>>::empty(),
                    self.spec_read().items.spec_keys().map_values(|k: MaskKey|
                        identity_render(k)),
                ),
                self.spec_write().items.spec_keys().map_values(|k: MaskKey|
                    identity_render(k)),
            ) && r.1@.len() == self.spec_deny_read().items.spec_keys().len() && forall|
                j: int,
            |
                0 <= j < r.1@.len() ==> (#[trigger] r.1@[j])@ == identity_render(
                    self.spec_deny_read().items.spec_keys()[j],
                ),
    {
        if self.admin {
            let mut allow: Vec<String> = Vec::new();
            let w = "#".to_owned();
            proof {
                reveal_strlit("#");
            }
            allow.push(w);
            let deny: Vec<String> = Vec::new();
            proof {
                assert(allow@.map_values(|x: String| x@) =~~= seq![seq!['#']]);
            }
            (allow, deny)
        } else {
            let read_strs = self.read.items.as_string_vec();
            let write_strs = self.write.items.as_string_vec();
            let mut allow: Vec<String> = Vec::new();
            proof {
                assert(allow@.map_values(|x: String| x@) =~~= Seq::<Seq<char>>::empty());
            }
            push_unique_strings(&mut allow, &read_strs);
            push_unique_strings(&mut allow, &write_strs);
            let deny = self.deny_read.items.as_string_vec();
            proof {
                assert(read_strs@.map_values(|x: String| x@) =~~= self.spec_read().items
                    .spec_keys().map_values(|k: MaskKey| identity_render(k)));
                assert(write_strs@.map_values(|x: String| x@) =~~= self.spec_write().items
                    .spec_keys().map_values(|k: MaskKey| identity_render(k)));
            }
            (allow, deny)
        }
    }

    /// The record's lineage holds the given ancestor id.
    pub open spec fn spec_contains_acl(&self, acl_id: Seq<char>) -> bool {
        exists|i: int| 0 <= i < self.spec_from().len() && (#[trigger] self.spec_from()[i])@
            == acl_id
    }

    pub fn contains_acl(&self, acl_id: &str) -> (r: bool)
        ensures
            r == self.spec_contains_acl(acl_id@),
    {
        let mut i: usize = 0;
        while i < self.from.len()
            invariant
                i <= self.from@.len(),
                forall|j: int| 0 <= j < i ==> (#[trigger] self.spec_from()[j])@ != acl_id@,
            decreases self.from@.len() - i,
        {
            if str_eq(self.from[i].as_str(), acl_id) {
                proof {
                    assert((self.spec_from()[i as int])@ == acl_id@);
                }
                return true;
            }
            i += 1;
        }
        proof {
            assert(!self.spec_contains_acl(acl_id@));
        }
        false
    }

    /// The opaque metadata, if any.
    pub fn meta(&self) -> (r: Option<&serde_json::Value>)
        ensures
            r is Some <==> self.spec_has_meta(),
    {
        self.meta.as_ref()
    }

    /// The lineage: the ids of the records this one was composed from.
    pub fn from(&self) -> (r: &Vec<String>)
        ensures
            r@ == self.spec_from(),
    {
        &self.from
    }
}

// ---------------------------------------------------------------------
// Laws of the evaluator
// ---------------------------------------------------------------------

/// The admin flag forces every check to pass, whatever the mask lists
/// hold.
pub proof fn lemma_admin_overrides(acl: &Acl, oid: OID, path: Seq<char>, op: Op)
    requires
        acl.spec_check_admin(),
    ensures
        acl.spec_check_op(op),
        acl.spec_check_item_read(oid),
        acl.spec_check_item_write(oid),
        acl.spec_check_pvt_read(path),
        acl.spec_check_pvt_write(path),
        acl.spec_check_rpvt_read(path),
{
}

/// Without the admin flag, a matching deny list overrides any allow
/// list, however the lists were built: deny-read blocks reading and
/// writing of items and private paths and reading of reverse-proxy
/// paths, and deny-write blocks writing.
pub proof fn lemma_deny_overrides(acl: &Acl, oid: OID, path: Seq<char>)
    requires
        !acl.spec_check_admin(),
    ensures
        acl.spec_deny_read().items.spec_matches_oid(oid.spec_kind(), oid.spec_full_id())
            ==> !acl.spec_check_item_read(oid) && !acl.spec_check_item_write(oid),
        acl.spec_deny_write().items.spec_matches_oid(oid.spec_kind(), oid.spec_full_id())
            ==> !acl.spec_check_item_write(oid),
        acl.spec_deny_read().pvt.spec_matches(spec_split(path, '/'))
            ==> !acl.spec_check_pvt_read(path) && !acl.spec_check_pvt_write(path),
        acl.spec_deny_write().pvt.spec_matches(spec_split(path, '/'))
            ==> !acl.spec_check_pvt_write(path),
        (match rpvt_normalized(path) {
            Some(q) => acl.spec_deny_read().rpvt.spec_matches(spec_split(q, '/')),
            None => true,
        }) ==> !acl.spec_check_rpvt_read(path),
{
}

/// The asymmetric precedence: a matching deny-read item list blocks
/// writing, even where the deny-write list does not match.
pub proof fn lemma_deny_read_blocks_write(acl: &Acl, oid: OID)
    requires
        !acl.spec_check_admin(),
        acl.spec_deny_read().items.spec_matches_oid(oid.spec_kind(), oid.spec_full_id()),
    ensures
        !acl.spec_check_item_write(oid),
{
}

/// Literal chunks (no wildcard tokens) match exactly one segment list:
/// their own.
pub proof fn lemma_literal_chunks_exact(m: Seq<Seq<char>>, p: Seq<Seq<char>>)
    requires
        forall|i: int|
            0 <= i < m.len() ==> !seg_is_all(#[trigger] m[i]) && !seg_is_any(m[i]),
    ensures
        chunks_match(m, p) <==> m =~~= p,
    decreases p.len(),
{
    if p.len() == 0 {
    } else if m.len() == 0 {
    } else {
        assert(forall|i: int|
            0 <= i < m.drop_first().len() ==> m.drop_first()[i] == m[i + 1]);
        lemma_literal_chunks_exact(m.drop_first(), p.drop_first());
        assert(!seg_is_all(m[0]) && !seg_is_any(m[0]));
        if chunks_match(m, p) {
            assert(m[0] == p[0]);
            assert(m.drop_first() =~~= p.drop_first());
            assert(m.len() == p.len());
            assert(forall|k: int|
                1 <= k < m.len() ==> #[trigger] m[k] == m.drop_first()[k - 1]);
            assert(forall|k: int|
                1 <= k < p.len() ==> #[trigger] p[k] == p.drop_first()[k - 1]);
            assert(m =~~= p);
        }
        if m =~~= p {
            assert(m.drop_first() =~~= p.drop_first());
        }
    }
}

/// A mask parsed from a literal path (no wildcard segments) matches that
/// path, and matches nothing but that path: no proper extension or
/// truncation of it.
pub proof fn lemma_literal_path_mask_exact(s: Seq<char>, q: Seq<char>)
    requires
        s.len() > 0,
        forall|i: int|
            0 <= i < spec_split(s, '/').len() ==> !seg_is_all(
                #[trigger] spec_split(s, '/')[i],
            ) && !seg_is_any(spec_split(s, '/')[i]),
    ensures
        mask_matches(parse_mask_view(s), spec_split(s, '/')),
        mask_matches(parse_mask_view(s), spec_split(q, '/')) <==> spec_split(q, '/')
            =~~= spec_split(s, '/'),
{
    let segs = spec_split(s, '/');
    crate::strpath::lemma_split_len(s, '/');
    if seg_is_all(s) {
        assert(!s.contains('/')) by {
            assert(s.len() == 1 && (s[0] == '#' || s[0] == '*'));
        }
        crate::strpath::lemma_split_whole(s, '/');
        assert(segs[0] == s);
        assert(false);
    }
    lemma_parse_chunks_no_all(segs);
    assert(parse_mask_view(s) == Some(segs));
    lemma_literal_chunks_exact(segs, segs);
    lemma_literal_chunks_exact(segs, spec_split(q, '/'));
}

/// Every path mask parsed from the bare wildcard matches every subject,
/// including the empty one.
pub proof fn lemma_all_mask_matches_everything(s: Seq<char>, p: Seq<Seq<char>>)
    requires
        seg_is_all(s),
    ensures
        mask_matches(parse_mask_view(s), p),
{
}

/// The shape of parsed chunks: every chunk is separator-free when the
/// segments were, and an all-token occurs at most once, canonical and
/// last.
pub proof fn lemma_parse_chunks_shape(segs: Seq<Seq<char>>)
    requires
        forall|i: int| 0 <= i < segs.len() ==> !(#[trigger] segs[i]).contains('/'),
    ensures
        segs.len() > 0 ==> parse_chunks(segs).len() >= 1,
        forall|i: int|
            0 <= i < parse_chunks(segs).len() ==> !(#[trigger] parse_chunks(segs)[
                i
            ]).contains('/'),
        forall|i: int|
            0 <= i < parse_chunks(segs).len() - 1 ==> !seg_is_all(
                #[trigger] parse_chunks(segs)[i],
            ),
        forall|i: int|
            0 <= i < parse_chunks(segs).len() && seg_is_all(
                #[trigger] parse_chunks(segs)[i],
            ) ==> parse_chunks(segs)[i] == seq!['#'],
    decreases segs.len(),
{
    let r = parse_chunks(segs);
    if segs.len() == 0 {
    } else if seg_is_all(segs[0]) {
        assert(r =~~= seq![seq!['#']]);
        assert forall|i: int| 0 <= i < r.len() implies !(#[trigger] r[i]).contains(
            '/',
        ) by {
            assert(r[i] == seq!['#']);
            if r[i].contains('/') {
                let k = choose|k: int| 0 <= k < r[i].len() && r[i][k] == '/';
                assert(r[i][0] == '#');
            }
        }
    } else {
        assert(forall|i: int|
            0 <= i < segs.drop_first().len() ==> segs.drop_first()[i] == segs[i + 1]);
        lemma_parse_chunks_shape(segs.drop_first());
        let rest = parse_chunks(segs.drop_first());
        assert(r == seq![segs[0]] + rest);
        assert(r[0] == segs[0]);
        assert(forall|i: int| 1 <= i < r.len() ==> #[trigger] r[i] == rest[i - 1]);
        assert forall|i: int| 0 <= i < r.len() implies !(#[trigger] r[i]).contains(
            '/',
        ) by {
            if i == 0 {
                assert(segs[0] == r[0]);
            } else {
                assert(r[i] == rest[i - 1]);
            }
        }
    }
}

/// Parsing parsed chunks back gives them unchanged.
pub proof fn lemma_parse_chunks_idempotent(cs: Seq<Seq<char>>)
    requires
        forall|i: int| 0 <= i < cs.len() - 1 ==> !seg_is_all(#[trigger] cs[i]),
        forall|i: int|
            0 <= i < cs.len() && seg_is_all(#[trigger] cs[i]) ==> cs[i] == seq!['#'],
    ensures
        parse_chunks(cs) =~~= cs,
{
    if cs.len() == 0 {
        assert(parse_chunks(cs) =~~= cs);
    } else if seg_is_all(cs.last()) {
        lemma_parse_chunks_first_all(cs, cs.len() - 1);
        assert(cs.last() == seq!['#']);
        assert(cs.take(cs.len() - 1).push(seq!['#']) =~~= cs);
    } else {
        assert(forall|i: int| 0 <= i < cs.len() ==> !seg_is_all(#[trigger] cs[i]));
        lemma_parse_chunks_no_all(cs);
    }
}

/// The canonical rendering is faithful: rendering a parsed mask and
/// parsing the rendering gives a mask that matches exactly the same
/// paths. The rendering is lossy only where parsing already was: content
/// after the first all-token never returns.
pub proof fn lemma_render_parse_roundtrip(s: Seq<char>, q: Seq<char>)
    requires
        s.len() > 0,
    ensures
        mask_matches(parse_mask_view(render_of(parse_mask_view(s))), spec_split(q, '/'))
            == mask_matches(parse_mask_view(s), spec_split(q, '/')),
{
    crate::strpath::lemma_split_len(q, '/');
    let pq = spec_split(q, '/');
    if seg_is_all(s) {
        assert(render_of(parse_mask_view(s)) =~= seq!['#']);
        assert(seg_is_all(seq!['#']));
    } else {
        let segs = spec_split(s, '/');
        crate::strpath::lemma_split_len(s, '/');
        crate::strpath::lemma_split_segs_free(s, '/');
        lemma_parse_chunks_shape(segs);
        let cs = parse_chunks(segs);
        let rendered = spec_join(cs, '/');
        assert(parse_mask_view(s) == Some(cs));
        assert(render_of(parse_mask_view(s)) == rendered);
        if cs =~~= seq![seq!['#']] {
            assert(rendered =~= seq!['#']);
            assert(seg_is_all(rendered));
            assert(parse_mask_view(rendered) is None);
            assert(chunks_match(cs, pq)) by {
                assert(pq.len() >= 1);
                assert(seg_is_all(cs[0]));
            }
        } else {
            crate::strpath::lemma_split_of_join(cs, '/');
            assert(spec_split(rendered, '/') =~~= cs);
            if seg_is_all(rendered) {
                assert(rendered.len() == 1 && (rendered[0] == '#' || rendered[0] == '*'));
                assert(!rendered.contains('/')) by {
                    if rendered.contains('/') {
                        let k = choose|k: int|
                            0 <= k < rendered.len() && rendered[k] == '/';
                        assert(k == 0);
                    }
                }
                crate::strpath::lemma_split_whole(rendered, '/');
                assert(cs =~~= seq![rendered]);
                assert(seg_is_all(cs[0]));
                assert(cs[0] == seq!['#']);
                assert(cs =~~= seq![seq!['#']]);
                assert(false);
            }
            lemma_parse_chunks_idempotent(cs);
            assert(parse_chunks(spec_split(rendered, '/')) =~~= cs);
            assert(parse_mask_view(rendered) == Some(parse_chunks(spec_split(
                rendered,
                '/',
            ))));
        }
    }
}

/// Adding a pattern whose parse is already present leaves the stored
/// masks unchanged, so matching behavior and serialized size are
/// unchanged: insertion is idempotent.
pub proof fn lemma_mask_list_insert_idempotent(ts: Seq<Seq<char>>, x: Seq<char>)
    requires
        x.len() > 0,
        exists|k: int|
            0 <= k < ts.len() && (#[trigger] ts[k]).len() > 0 && parse_mask_view(ts[k])
                == parse_mask_view(x),
    ensures
        masks_of_texts(ts.push(x)) == masks_of_texts(ts),
{
    lemma_masks_of_texts(ts);
    assert(ts.push(x).drop_last() =~~= ts);
    assert(ts.push(x).last() == x);
    assert(masks_of_texts(ts).contains(parse_mask_view(x)));
}

/// The same, for identity masks: a run of masks with a repeated key
/// deduplicates to the same list.
pub proof fn lemma_oid_mask_list_insert_idempotent(ks: Seq<MaskKey>, x: MaskKey)
    requires
        ks.contains(x),
    ensures
        dedup_keys(ks.push(x)) == dedup_keys(ks),
{
    lemma_dedup_keys(ks);
    assert(ks.push(x).drop_last() =~~= ks);
    assert(ks.push(x).last() == x);
    assert(dedup_keys(ks).contains(x));
}

} // verus!
