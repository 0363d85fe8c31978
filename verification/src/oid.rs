//! Typed resource identifiers: a kind tag plus a non-empty slash-delimited
//! path, kept together with its two rendered forms (`kind:path` and
//! `kind/path`).

use vstd::prelude::*;

use crate::error::{EResult, Error, ErrorKind};
use crate::strpath::{
    char_alphanumeric, find_char, is_alphanumeric_char, push_char, rfind_char, seg_is_all,
    str_eq,
};

verus! {

/// The closed enumeration of item kinds.
#[derive(Debug, Clone, Copy, PartialEq, Eq, Hash, Structural)]
pub enum ItemKind {
    Unit,
    Sensor,
    Lvar,
    Lmacro,
}

impl ItemKind {
    /// The canonical name of the kind.
    pub open spec fn spec_str(self) -> Seq<char> {
        match self {
            ItemKind::Unit => "unit"@,
            ItemKind::Sensor => "sensor"@,
            ItemKind::Lvar => "lvar"@,
            ItemKind::Lmacro => "lmacro"@,
        }
    }

    pub fn as_str(&self) -> (r: &'static str)
        ensures
            r@ == self.spec_str(),
    {
        match self {
            ItemKind::Unit => "unit",
            ItemKind::Sensor => "sensor",
            ItemKind::Lvar => "lvar",
            ItemKind::Lmacro => "lmacro",
        }
    }

    /// Which texts parse to which kind: the canonical name or its short
    /// alias.
    pub open spec fn spec_parse(s: Seq<char>) -> Option<ItemKind> {
        if s == "unit"@ || s == "U"@ {
            Some(ItemKind::Unit)
        } else if s == "sensor"@ || s == "S"@ {
            Some(ItemKind::Sensor)
        } else if s == "lvar"@ || s == "LV"@ {
            Some(ItemKind::Lvar)
        } else if s == "lmacro"@ || s == "K"@ {
            Some(ItemKind::Lmacro)
        } else {
            None
        }
    }

    /// Parses a kind name; rejects anything but the names and aliases
    /// `spec_parse` accepts.
    pub fn parse(s: &str) -> (r: EResult<ItemKind>)
        ensures
            match r {
                Ok(k) => Self::spec_parse(s@) == Some(k),
                Err(e) => Self::spec_parse(s@) is None && e.spec_kind()
                    == ErrorKind::InvalidData,
            },
    {
        if str_eq(s, "unit") || str_eq(s, "U") {
            Ok(ItemKind::Unit)
        } else if str_eq(s, "sensor") || str_eq(s, "S") {
            Ok(ItemKind::Sensor)
        } else if str_eq(s, "lvar") || str_eq(s, "LV") {
            Ok(ItemKind::Lvar)
        } else if str_eq(s, "lmacro") || str_eq(s, "K") {
            Ok(ItemKind::Lmacro)
        } else {
            let mut m = "Invalid item type: ".to_owned();
            m.append(s);
            Err(Error::new(ErrorKind::InvalidData, m.as_str()))
        }
    }

    /// The canonical kind names are short words without separators.
    pub proof fn lemma_kind_str_chars(self)
        ensures
            forall|i: int|
                0 <= i < self.spec_str().len() ==> #[trigger] self.spec_str()[i] != '/'
                    && self.spec_str()[i] != ':',
            1 <= self.spec_str().len() <= 6,
    {
        reveal_strlit("unit");
        reveal_strlit("sensor");
        reveal_strlit("lvar");
        reveal_strlit("lmacro");
    }
}

impl core::str::FromStr for ItemKind {
    type Err = Error;

    fn from_str(s: &str) -> Result<ItemKind, Error> {
        ItemKind::parse(s)
    }
}

/// The punctuation a plain identifier may hold besides letters and digits.
pub open spec fn oid_symbol(c: char) -> bool {
    c == '_' || c == '.' || c == '(' || c == ')' || c == '[' || c == ']' || c == '-' || c
        == '\\'
}

/// Exec test for `oid_symbol`.
pub fn is_oid_symbol(c: char) -> (r: bool)
    ensures
        r == oid_symbol(c),
{
    c == '_' || c == '.' || c == '(' || c == ')' || c == '[' || c == ']' || c == '-' || c
        == '\\'
}

/// A character an identifier may hold: alphanumeric, allowed punctuation,
/// or (in a path position) the separator.
pub open spec fn oid_char_ok(c: char, is_path: bool) -> bool {
    char_alphanumeric(c) || oid_symbol(c) || (is_path && c == '/')
}

/// A text is acceptable as (part of) an identifier: bounded in length
/// (counted in characters, which agrees with bytes for all-ASCII text)
/// and made of allowed characters only.
pub open spec fn oid_text_ok(s: Seq<char>, is_path: bool) -> bool {
    s.len() <= 65000 && forall|i: int|
        0 <= i < s.len() ==> oid_char_ok(#[trigger] s[i], is_path)
}

/// The conditions under which a full id builds an identifier of kind `k`.
pub open spec fn full_id_fits(k: ItemKind, s: Seq<char>) -> bool {
    s.len() > 0 && k.spec_str().len() + s.len() < 65535
}

/// Validates identifier text; the length cap deliberately counts
/// characters, not bytes. On success, when `is_path` is false, no
/// character is a separator.
fn check_oid_text(s: &str, is_path: bool) -> (r: EResult<()>)
    ensures
        r is Ok <==> oid_text_ok(s@, is_path),
        r is Ok && !is_path ==> forall|i: int| 0 <= i < s@.len() ==> s@[i] != '/',
        r matches Err(e) ==> e.spec_kind() == ErrorKind::InvalidData,
{
    let n = s.unicode_len();
    if n > 65000 {
        return Err(Error::invalid_data("OID too long"));
    }
    let mut i: usize = 0;
    while i < n
        invariant
            n == s@.len(),
            i <= n,
            forall|j: int| 0 <= j < i ==> oid_char_ok(#[trigger] s@[j], is_path),
            forall|j: int| 0 <= j < i && !is_path ==> s@[j] != '/',
        decreases n - i,
    {
        let c = s.get_char(i);
        let alnum = is_alphanumeric_char(c);
        if !(alnum || is_oid_symbol(c) || (is_path && c == '/')) {
            let mut m = "Invalid symbol in OID: ".to_owned();
            push_char(&mut m, c);
            return Err(Error::new(ErrorKind::InvalidData, m.as_str()));
        }
        i += 1;
    }
    Ok(())
}

/// Everything after the last separator; the whole sequence when none
/// occurs.
pub open spec fn spec_after_last(s: Seq<char>, sep: char) -> Seq<char>
    decreases s.len(),
{
    if s.len() == 0 {
        s
    } else if s.last() == sep {
        Seq::<char>::empty()
    } else {
        spec_after_last(s.drop_last(), sep).push(s.last())
    }
}

/// Everything before the last separator; `None` when none occurs.
pub open spec fn spec_before_last(s: Seq<char>, sep: char) -> Option<Seq<char>>
    decreases s.len(),
{
    if s.len() == 0 {
        None
    } else if s.last() == sep {
        Some(s.drop_last())
    } else {
        spec_before_last(s.drop_last(), sep)
    }
}

/// Positions the `after`/`before` split: if `g` is the index of the last
/// separator, the parts are the subsequences around it.
pub proof fn lemma_last_sep_parts(s: Seq<char>, sep: char, g: int)
    requires
        0 <= g < s.len(),
        s[g] == sep,
        forall|i: int| g < i < s.len() ==> s[i] != sep,
    ensures
        spec_before_last(s, sep) == Some(s.take(g)),
        spec_after_last(s, sep) =~= s.skip(g + 1),
    decreases s.len(),
{
    if g == s.len() - 1 {
        assert(s.drop_last() =~= s.take(g));
        assert(s.skip(g + 1) =~= Seq::<char>::empty());
    } else {
        assert(s.last() != sep);
        assert(forall|i: int| g < i < s.drop_last().len() ==> s.drop_last()[i] != sep);
        lemma_last_sep_parts(s.drop_last(), sep, g);
        assert(s.drop_last().take(g) =~= s.take(g));
        assert(s.drop_last().skip(g + 1).push(s.last()) =~= s.skip(g + 1));
    }
}

/// When no separator occurs, nothing is split off.
pub proof fn lemma_no_sep_parts(s: Seq<char>, sep: char)
    requires
        forall|i: int| 0 <= i < s.len() ==> s[i] != sep,
    ensures
        spec_before_last(s, sep) is None,
        spec_after_last(s, sep) =~= s,
    decreases s.len(),
{
    if s.len() > 0 {
        lemma_no_sep_parts(s.drop_last(), sep);
        assert(s.drop_last().push(s.last()) =~= s);
    }
}

/// A typed resource identifier.
///
/// Holds its two rendered forms and the character positions that cut them
/// into kind, group and id; the type invariant ties all of that together.
#[derive(Debug)]
pub struct OID {
    kind: ItemKind,
    oid_str: String,
    path_str: String,
    tpos: usize,
    grp_pos: Option<usize>,
}

impl Clone for OID {
    fn clone(&self) -> (r: Self)
        ensures
            r == *self,
    {
        proof {
            use_type_invariant(self);
        }
        OID {
            kind: self.kind,
            oid_str: self.oid_str.clone(),
            path_str: self.path_str.clone(),
            tpos: self.tpos,
            grp_pos: self.grp_pos,
        }
    }
}

impl OID {
    /// The kind, as contracts see it.
    pub closed spec fn spec_kind(&self) -> ItemKind {
        self.kind
    }

    /// The rendered `kind:full_id` form, as contracts see it.
    pub closed spec fn spec_str(&self) -> Seq<char> {
        self.oid_str@
    }

    /// The path without the kind prefix.
    pub open spec fn spec_full_id(&self) -> Seq<char> {
        self.spec_str().skip(self.spec_kind().spec_str().len() + 1 as int)
    }

    /// The rendered `kind/full_id` form.
    pub open spec fn spec_path(&self) -> Seq<char> {
        self.spec_kind().spec_str() + seq!['/'] + self.spec_full_id()
    }

    /// The leaf id: the full id after its last separator.
    pub open spec fn spec_id(&self) -> Seq<char> {
        spec_after_last(self.spec_full_id(), '/')
    }

    /// The group: the full id before its last separator, if any.
    pub open spec fn spec_group(&self) -> Option<Seq<char>> {
        spec_before_last(self.spec_full_id(), '/')
    }

    #[verifier::type_invariant]
    closed spec fn wf(&self) -> bool {
        let k = self.kind.spec_str();
        let s = self.oid_str@;
        &&& self.tpos == k.len() + 1
        &&& s.len() > self.tpos
        &&& s.take(k.len() as int) == k
        &&& s[k.len() as int] == ':'
        &&& self.path_str@ == k + seq!['/'] + s.skip(self.tpos as int)
        &&& match self.grp_pos {
            None => forall|i: int| self.tpos <= i < s.len() ==> s[i] != '/',
            Some(g) => self.tpos <= g < s.len() && s[g as int] == '/' && forall|i: int|
                g < i < s.len() ==> s[i] != '/',
        }
    }

    /// Builds an identifier from kind, group and id parts.
    ///
    /// Rejected: empty parts, a bare `+`, characters outside the allowed
    /// set (the separator is allowed inside the group only), and texts
    /// whose rendered form would not fit the platform's length cap.
    pub fn new(kind: ItemKind, group: &str, id: &str) -> (r: EResult<Self>)
        ensures
            r is Ok <==> {
                &&& oid_text_ok(group@, true)
                &&& oid_text_ok(id@, false)
                &&& group@ != "+"@
                &&& id@ != "+"@
                &&& group@.len() > 0
                &&& id@.len() > 0
                &&& kind.spec_str().len() + id@.len() + group@.len() + 2 <= 65535
            },
            r matches Ok(o) ==> o.spec_kind() == kind && o.spec_full_id() == group@
                + seq!['/'] + id@,
    {
        let group_ok = check_oid_text(group, true);
        if let Err(e) = group_ok {
            return Err(e);
        }
        let id_ok = check_oid_text(id, false);
        if let Err(e) = id_ok {
            return Err(e);
        }
        if str_eq(group, "+") || str_eq(id, "+") {
            return Err(Error::invalid_data("OID group or id can not be equal to +"));
        }
        let tp_str = kind.as_str();
        proof {
            kind.lemma_kind_str_chars();
        }
        if id.is_empty() || group.is_empty() {
            Err(Error::invalid_data("Invalid OID format"))
        } else if tp_str.unicode_len() + id.unicode_len() + group.unicode_len() + 2
            > 65535 {
            Err(Error::invalid_data("OID too long"))
        } else {
            let mut full = group.to_owned();
            push_char(&mut full, '/');
            full.append(id);
            proof {
                assert(full@ =~= group@ + seq!['/'] + id@);
            }
            Ok(Self::assemble(kind, full.as_str()))
        }
    }

    /// Builds an identifier from kind and full id, validating the text.
    pub fn new0(kind: ItemKind, id: &str) -> (r: EResult<Self>)
        ensures
            r is Ok <==> oid_text_ok(id@, true) && full_id_fits(kind, id@),
            r matches Ok(o) ==> o.spec_kind() == kind && o.spec_full_id() == id@,
            r matches Err(e) ==> e.spec_kind() == ErrorKind::InvalidData,
    {
        let ok = check_oid_text(id, true);
        if let Err(e) = ok {
            return Err(e);
        }
        Self::new0_unchecked(kind, id)
    }

    /// Builds an identifier from kind and full id without validating the
    /// characters; used for wildcard identifiers, whose id is a wildcard
    /// token.
    pub fn new0_unchecked(kind: ItemKind, id: &str) -> (r: EResult<Self>)
        ensures
            r is Ok <==> full_id_fits(kind, id@),
            r matches Ok(o) ==> o.spec_kind() == kind && o.spec_full_id() == id@,
            r matches Err(e) ==> e.spec_kind() == ErrorKind::InvalidData,
    {
        let tp_str = kind.as_str();
        proof {
            kind.lemma_kind_str_chars();
        }
        if id.is_empty() {
            Err(Error::invalid_data("Invalid OID format"))
        } else if id.unicode_len() >= 65535 - tp_str.unicode_len() {
            Err(Error::invalid_data("OID too long"))
        } else {
            Ok(Self::assemble(kind, id))
        }
    }

    /// Builds the stored strings and positions; the id text is taken as
    /// given.
    fn assemble(kind: ItemKind, id: &str) -> (r: Self)
        requires
            id@.len() > 0,
        ensures
            r.spec_kind() == kind,
            r.spec_full_id() == id@,
    {
        proof {
            kind.lemma_kind_str_chars();
        }
        let tp_str = kind.as_str();
        let tpos = tp_str.unicode_len() + 1;

        let mut oid_str = tp_str.to_owned();
        push_char(&mut oid_str, ':');
        oid_str.append(id);

        let mut path_str = tp_str.to_owned();
        push_char(&mut path_str, '/');
        path_str.append(id);

        proof {
            assert(oid_str@ =~= kind.spec_str() + seq![':'] + id@);
            assert(path_str@ =~= kind.spec_str() + seq!['/'] + id@);
            assert(oid_str@.skip(tpos as int) =~= id@);
            assert(oid_str@.take(kind.spec_str().len() as int) =~= kind.spec_str());
        }
        let grp_pos: Option<usize> = rfind_char(oid_str.as_str(), '/');
        proof {
            if let Some(g) = grp_pos {
                assert(oid_str@[g as int] == '/');
                assert(g >= tpos);
            }
        }
        let r = Self { kind, oid_str, path_str, tpos, grp_pos };
        proof {
            assert(r.spec_full_id() =~= id@);
        }
        r
    }

    /// The leaf id.
    pub fn id(&self) -> (r: &str)
        ensures
            r@ == self.spec_id(),
    {
        proof {
            use_type_invariant(self);
            assert(self.spec_full_id() =~= self.spec_str().skip(self.tpos as int));
        }
        let n = self.oid_str.as_str().unicode_len();
        match self.grp_pos {
            Some(g) => {
                let r = self.oid_str.as_str().substring_char(g + 1, n);
                proof {
                    lemma_last_sep_parts(self.spec_full_id(), '/', g - self.tpos as int);
                    assert(self.spec_full_id().skip(g + 1 - self.tpos) =~= self.spec_str()
                        .subrange(g + 1, n as int));
                }
                r
            },
            None => {
                let r = self.oid_str.as_str().substring_char(self.tpos, n);
                proof {
                    lemma_no_sep_parts(self.spec_full_id(), '/');
                    assert(r@ =~= self.spec_full_id());
                }
                r
            },
        }
    }

    /// The path without the kind prefix.
    pub fn full_id(&self) -> (r: &str)
        ensures
            r@ == self.spec_full_id(),
    {
        proof {
            use_type_invariant(self);
        }
        let n = self.oid_str.as_str().unicode_len();
        let r = self.oid_str.as_str().substring_char(self.tpos, n);
        proof {
            assert(r@ =~= self.spec_full_id());
        }
        r
    }

    /// The group, when the full id has at least two segments.
    pub fn group(&self) -> (r: Option<&str>)
        ensures
            match r {
                Some(g) => self.spec_group() == Some(g@),
                None => self.spec_group() is None,
            },
    {
        proof {
            use_type_invariant(self);
            assert(self.spec_full_id() =~= self.spec_str().skip(self.tpos as int));
        }
        match self.grp_pos {
            Some(g) => {
                let r = self.oid_str.as_str().substring_char(self.tpos, g);
                proof {
                    lemma_last_sep_parts(self.spec_full_id(), '/', g - self.tpos as int);
                    assert(self.spec_full_id().take(g - self.tpos) =~= self.spec_str()
                        .subrange(self.tpos as int, g as int));
                }
                Some(r)
            },
            None => {
                proof {
                    lemma_no_sep_parts(self.spec_full_id(), '/');
                }
                None
            },
        }
    }

    pub fn kind(&self) -> (r: ItemKind)
        ensures
            r == self.spec_kind(),
    {
        self.kind
    }

    /// The rendered `kind:full_id` form.
    pub fn as_str(&self) -> (r: &str)
        ensures
            r@ == self.spec_str(),
    {
        self.oid_str.as_str()
    }

    /// The rendered `kind/full_id` form.
    pub fn as_path(&self) -> (r: &str)
        ensures
            r@ == self.spec_path(),
    {
        proof {
            use_type_invariant(self);
            assert(self.path_str@ =~= self.spec_path());
        }
        self.path_str.as_str()
    }

    /// The identifier is a wildcard one: its leaf id is an all-token.
    pub fn is_wildcard(&self) -> (r: bool)
        ensures
            r == seg_is_all(self.spec_id()),
    {
        crate::is_str_wildcard(self.id())
    }

    /// Renders `kind:(group/)suffix`, replacing the leaf id with the given
    /// wildcard suffix; used to query stores with native wildcard search.
    pub fn to_wildcard_str(&self, wildcard_suffix: &str) -> (r: String)
        ensures
            r@ == match self.spec_group() {
                Some(g) => self.spec_kind().spec_str() + seq![':'] + g + seq!['/']
                    + wildcard_suffix@,
                None => self.spec_kind().spec_str() + seq![':'] + wildcard_suffix@,
            },
    {
        let mut s = self.kind.as_str().to_owned();
        push_char(&mut s, ':');
        match self.group() {
            Some(g) => {
                s.append(g);
                push_char(&mut s, '/');
            },
            None => {},
        }
        s.append(wildcard_suffix);
        proof {
            match self.spec_group() {
                Some(g) => {
                    assert(s@ =~= self.spec_kind().spec_str() + seq![':'] + g + seq!['/']
                        + wildcard_suffix@);
                },
                None => {
                    assert(s@ =~= self.spec_kind().spec_str() + seq![':']
                        + wildcard_suffix@);
                },
            }
        }
        s
    }

    /// Parses `text` as an identifier of the expected kind: either a bare
    /// full id, or a `kind:full_id` form whose kind must agree.
    pub fn from_str_type(tp: ItemKind, s: &str) -> (r: EResult<Self>)
        ensures
            r is Ok <==> {
                ||| (!spec_has_char(s@, ':') && oid_text_ok(s@, true) && full_id_fits(
                    tp,
                    s@,
                ))
                ||| exists|t: int|
                    {
                        &&& #[trigger] first_sep_at(s@, ':', t)
                        &&& ItemKind::spec_parse(s@.take(t)) == Some(tp)
                        &&& oid_text_ok(s@.skip(t + 1), true)
                        &&& full_id_fits(tp, s@.skip(t + 1))
                    }
            },
            r matches Ok(o) ==> o.spec_kind() == tp,
    {
        match find_char(s, ':') {
            Some(tpos) => {
                proof {
                    assert(first_sep_at(s@, ':', tpos as int));
                    lemma_first_sep_unique(s@, ':', tpos as int);
                }
                let head = s.substring_char(0, tpos);
                proof {
                    assert(head@ =~= s@.take(tpos as int));
                }
                let otp = match ItemKind::parse(head) {
                    Ok(k) => k,
                    Err(e) => {
                        return Err(e);
                    },
                };
                if otp == tp {
                    let n = s.unicode_len();
                    let tail = s.substring_char(tpos + 1, n);
                    proof {
                        assert(tail@ =~= s@.skip(tpos + 1));
                    }
                    Self::new0(tp, tail)
                } else {
                    let mut m = "OID type mismatch, expected: ".to_owned();
                    m.append(tp.as_str());
                    m.append(", found: ");
                    m.append(otp.as_str());
                    Err(Error::invalid_data(m.as_str()))
                }
            },
            None => Self::new0(tp, s),
        }
    }

    /// Parses the `kind:full_id` form.
    pub fn parse(s: &str) -> (r: EResult<Self>)
        ensures
            r is Ok <==> oid_parse_ok(s@, ':'),
            r matches Ok(o) ==> forall|t: int|
                #[trigger] first_sep_at(s@, ':', t) ==> ItemKind::spec_parse(s@.take(t))
                    == Some(o.spec_kind()) && o.spec_full_id() == s@.skip(t + 1),
    {
        Self::parse_oid(s, ':')
    }

    /// Parses the `kind/full_id` form.
    pub fn from_path(s: &str) -> (r: EResult<Self>)
        ensures
            r is Ok <==> oid_parse_ok(s@, '/'),
            r matches Ok(o) ==> forall|t: int|
                #[trigger] first_sep_at(s@, '/', t) ==> ItemKind::spec_parse(s@.take(t))
                    == Some(o.spec_kind()) && o.spec_full_id() == s@.skip(t + 1),
    {
        Self::parse_oid(s, '/')
    }

    fn parse_oid(s: &str, c: char) -> (r: EResult<Self>)
        ensures
            r is Ok <==> oid_parse_ok(s@, c),
            r matches Ok(o) ==> forall|t: int|
                #[trigger] first_sep_at(s@, c, t) ==> ItemKind::spec_parse(s@.take(t))
                    == Some(o.spec_kind()) && o.spec_full_id() == s@.skip(t + 1),
    {
        match find_char(s, c) {
            Some(tpos) => {
                proof {
                    assert(first_sep_at(s@, c, tpos as int));
                    lemma_first_sep_unique(s@, c, tpos as int);
                }
                let head = s.substring_char(0, tpos);
                proof {
                    assert(head@ =~= s@.take(tpos as int));
                }
                let tp = match ItemKind::parse(head) {
                    Ok(k) => k,
                    Err(e) => {
                        return Err(e);
                    },
                };
                let n = s.unicode_len();
                let tail = s.substring_char(tpos + 1, n);
                proof {
                    assert(tail@ =~= s@.skip(tpos + 1));
                }
                Self::new0(tp, tail)
            },
            None => {
                let mut m = "Invalid OID format: ".to_owned();
                m.append(s);
                Err(Error::invalid_data(m.as_str()))
            },
        }
    }
}

/// Some character of `s` is `c`.
pub open spec fn spec_has_char(s: Seq<char>, c: char) -> bool {
    exists|i: int| 0 <= i < s.len() && s[i] == c
}

/// `t` is the first occurrence of `sep` in `s`.
pub open spec fn first_sep_at(s: Seq<char>, sep: char, t: int) -> bool {
    0 <= t < s.len() && s[t] == sep && forall|j: int| 0 <= j < t ==> s[j] != sep
}

/// A text parses as an identifier with the given separator: it has a
/// separator, the part before the first one names a kind, and the rest is
/// an acceptable full id.
pub open spec fn oid_parse_ok(s: Seq<char>, sep: char) -> bool {
    exists|t: int|
        {
            &&& #[trigger] first_sep_at(s, sep, t)
            &&& match ItemKind::spec_parse(s.take(t)) {
                Some(k) => oid_text_ok(s.skip(t + 1), true) && full_id_fits(
                    k,
                    s.skip(t + 1),
                ),
                None => false,
            }
        }
}

/// Only one position can be the first occurrence.
pub proof fn lemma_first_sep_unique(s: Seq<char>, sep: char, t: int)
    requires
        first_sep_at(s, sep, t),
    ensures
        forall|u: int| #[trigger] first_sep_at(s, sep, u) ==> u == t,
{
}

impl core::str::FromStr for OID {
    type Err = Error;

    fn from_str(s: &str) -> Result<OID, Error> {
        OID::parse(s)
    }
}

} // verus!
