//! What a binding was configured with: parameter values, and the map that
//! holds them by id.
//!
//! The map keeps its entries sorted by id, with no id twice, so that reading
//! it back yields them in the order a `BTreeMap` of the same entries would.

use vstd::prelude::*;

use crate::text::{joined, str_eq};

verus! {

// ---------------------------------------------------------------------------
// ParamValue
// ---------------------------------------------------------------------------

/// What one parameter holds: a value, or several.
///
/// A parameter is single-valued unless its declaration says otherwise, and
/// both shapes live in the same map because a binding stores one map whatever
/// its parameters declared.
#[derive(Debug, PartialEq, Eq)]
pub enum ParamValue {
    /// One value.
    One(String),
    /// Several, in the order the user arranged them.
    Many(Vec<String>),
}

impl Clone for ParamValue {
    fn clone(&self) -> (r: Self)
        ensures
            r@ == self@,
    {
        match self {
            ParamValue::One(v) => {
                let c: String = String::clone(v);
                ParamValue::One(c)
            },
            ParamValue::Many(vs) => {
                let mut out: Vec<String> = Vec::new();
                let mut i: usize = 0;
                while i < vs.len()
                    invariant
                        i <= vs@.len(),
                        out@ == vs@.subrange(0, i as int),
                    decreases vs@.len() - i,
                {
                    out.push(vs[i].clone());
                    i = i + 1;
                }
                assert(out@ =~= vs@);
                proof {
                    assert(string_views(out@) =~= string_views(vs@));
                }
                ParamValue::Many(out)
            },
        }
    }
}

/// What a parameter holds, by view.
pub enum ParamValueView {
    /// One value.
    One(Seq<char>),
    /// Several, in order.
    Many(Seq<Seq<char>>),
}

impl View for ParamValue {
    type V = ParamValueView;

    open spec fn view(&self) -> ParamValueView {
        match self {
            ParamValue::One(s) => ParamValueView::One(s@),
            ParamValue::Many(vs) => ParamValueView::Many(string_views(vs@)),
        }
    }
}

/// The non-empty strings of `s`, in order.
pub open spec fn keep_nonempty(s: Seq<Seq<char>>) -> Seq<Seq<char>>
    decreases s.len(),
{
    if s.len() == 0 {
        Seq::empty()
    } else if s.last().len() > 0 {
        keep_nonempty(s.drop_last()).push(s.last())
    } else {
        keep_nonempty(s.drop_last())
    }
}

/// The views of a list of strings.
pub open spec fn string_views(s: Seq<String>) -> Seq<Seq<char>> {
    s.map_values(|x: String| x@)
}

/// The views of a list of string slices.
pub open spec fn str_views(s: Seq<&str>) -> Seq<Seq<char>> {
    s.map_values(|x: &str| x@)
}

/// The single value a parameter holds: `None` for an empty one and for a list.
pub open spec fn one_value(v: ParamValueView) -> Option<Seq<char>> {
    match v {
        ParamValueView::One(s) => if s.len() > 0 {
            Some(s)
        } else {
            None
        },
        ParamValueView::Many(_) => None,
    }
}

/// Every value a parameter holds, a single one reading as a list of one, and
/// empty strings dropped.
pub open spec fn all_values(v: ParamValueView) -> Seq<Seq<char>> {
    match v {
        ParamValueView::One(s) => if s.len() > 0 {
            seq![s]
        } else {
            Seq::empty()
        },
        ParamValueView::Many(vs) => keep_nonempty(vs),
    }
}

/// A `&str` option, by view.
pub open spec fn opt_str_view(o: Option<&str>) -> Option<Seq<char>> {
    match o {
        Some(s) => Some(s@),
        None => None,
    }
}

impl ParamValue {
    /// The single value, or `None` if this holds a list.
    ///
    /// **Not the first element**, deliberately: an addon that declared a
    /// single-valued parameter and receives a list has been given something
    /// it did not ask for. An empty value reads as absent.
    pub fn one(&self) -> (r: Option<&str>)
        ensures
            opt_str_view(r) == one_value(self@),
    {
        match self {
            ParamValue::One(v) => {
                if v.as_str().unicode_len() > 0 {
                    Some(v.as_str())
                } else {
                    None
                }
            },
            ParamValue::Many(_) => None,
        }
    }

    /// Every value, whether this holds one or several. Empty strings are
    /// dropped: a cleared box is not a configured value.
    pub fn all(&self) -> (r: Vec<&str>)
        ensures
            str_views(r@) == all_values(self@),
    {
        match self {
            ParamValue::One(v) => {
                let mut out: Vec<&str> = Vec::new();
                if v.as_str().unicode_len() > 0 {
                    out.push(v.as_str());
                }
                assert(str_views(out@) =~= all_values(self@));
                out
            },
            ParamValue::Many(vs) => {
                let mut out: Vec<&str> = Vec::new();
                let mut i: usize = 0;
                while i < vs.len()
                    invariant
                        i <= vs@.len(),
                        str_views(out@) == keep_nonempty(string_views(vs@.subrange(0, i as int))),
                    decreases vs@.len() - i,
                {
                    let s = vs[i].as_str();
                    let ghost before = string_views(vs@.subrange(0, i as int));
                    let ghost after = string_views(vs@.subrange(0, i + 1));
                    assert(after.drop_last() =~= before);
                    assert(after.last() == vs@[i as int]@);
                    if s.unicode_len() > 0 {
                        out.push(s);
                        assert(str_views(out@) =~= keep_nonempty(after));
                    }
                    i = i + 1;
                }
                assert(vs@.subrange(0, vs@.len() as int) =~= vs@);
                out
            },
        }
    }
}

/// A parameter that holds exactly one value reads as a list of that one.
pub proof fn law_a_single_value_reads_as_a_list_of_one(v: ParamValueView)
    requires
        one_value(v) is Some,
    ensures
        all_values(v) == seq![one_value(v)->0],
{
}

/// No value read out of a parameter is empty.
pub proof fn law_no_value_read_out_is_empty(v: ParamValueView)
    ensures
        forall|i: int| 0 <= i < all_values(v).len() ==> #[trigger] all_values(v)[i].len() > 0,
{
    match v {
        ParamValueView::One(_) => {},
        ParamValueView::Many(vs) => lemma_keep_nonempty_nonempty(vs),
    }
}

/// A list with no blank in it reads back whole and in order: only blanks
/// are ever dropped.
pub proof fn law_a_list_without_blanks_reads_back_whole(vs: Seq<Seq<char>>)
    requires
        forall|i: int| 0 <= i < vs.len() ==> #[trigger] vs[i].len() > 0,
    ensures
        all_values(ParamValueView::Many(vs)) == vs,
    decreases vs.len(),
{
    if vs.len() > 0 {
        law_a_list_without_blanks_reads_back_whole(vs.drop_last());
        assert(vs.last().len() > 0);
        assert(vs.drop_last().push(vs.last()) =~= vs);
    }
}

proof fn lemma_keep_nonempty_nonempty(s: Seq<Seq<char>>)
    ensures
        forall|i: int|
            0 <= i < keep_nonempty(s).len() ==> #[trigger] keep_nonempty(s)[i].len() > 0,
    decreases s.len(),
{
    if s.len() > 0 {
        lemma_keep_nonempty_nonempty(s.drop_last());
        let k = keep_nonempty(s.drop_last());
        assert forall|i: int| 0 <= i < keep_nonempty(s).len() implies #[trigger] keep_nonempty(
            s,
        )[i].len() > 0 by {
            if s.last().len() > 0 {
                if i < k.len() {
                    assert(keep_nonempty(s)[i] == k[i]);
                }
            }
        }
    }
}

// ---------------------------------------------------------------------------
// The order on ids
// ---------------------------------------------------------------------------

/// Lexicographic order on character sequences, by code point. This is the
/// order a `BTreeMap<String, _>` keeps its keys in.
pub open spec fn text_lt(a: Seq<char>, b: Seq<char>) -> bool
    decreases a.len(),
{
    if a.len() == 0 {
        b.len() > 0
    } else if b.len() == 0 {
        false
    } else if a[0] != b[0] {
        a[0] < b[0]
    } else {
        text_lt(a.drop_first(), b.drop_first())
    }
}

/// The order is lexicographic by code point: of two texts that agree on
/// their first `i` characters, the one that ends there comes first, and
/// otherwise the one with the smaller character at `i`.
pub proof fn law_text_order_is_lexicographic(a: Seq<char>, b: Seq<char>, i: int)
    requires
        0 <= i <= a.len(),
        i <= b.len(),
        a.subrange(0, i) == b.subrange(0, i),
    ensures
        i == a.len() && i < b.len() ==> text_lt(a, b),
        i < a.len() && i < b.len() && a[i] < b[i] ==> text_lt(a, b),
        i < a.len() && i < b.len() && b[i] < a[i] ==> !text_lt(a, b),
    decreases i,
{
    if i > 0 {
        assert(a[0] == a.subrange(0, i)[0]);
        assert(b[0] == b.subrange(0, i)[0]);
        assert(a.drop_first().subrange(0, i - 1) =~= b.drop_first().subrange(0, i - 1)) by {
            assert forall|j: int| 0 <= j < i - 1 implies a.drop_first()[j] == b.drop_first()[j] by {
                assert(a.subrange(0, i)[j + 1] == b.subrange(0, i)[j + 1]);
                assert(a.subrange(0, i)[j + 1] == a[j + 1]);
                assert(b.subrange(0, i)[j + 1] == b[j + 1]);
                assert(a.drop_first()[j] == a[j + 1]);
                assert(b.drop_first()[j] == b[j + 1]);
            }
        }
        law_text_order_is_lexicographic(a.drop_first(), b.drop_first(), i - 1);
    }
}

/// Nothing is before itself.
pub proof fn lemma_text_lt_irreflexive(a: Seq<char>)
    ensures
        !text_lt(a, a),
    decreases a.len(),
{
    if a.len() > 0 {
        lemma_text_lt_irreflexive(a.drop_first());
    }
}

/// The order is transitive.
pub proof fn lemma_text_lt_transitive(a: Seq<char>, b: Seq<char>, c: Seq<char>)
    requires
        text_lt(a, b),
        text_lt(b, c),
    ensures
        text_lt(a, c),
    decreases a.len(),
{
    if a.len() > 0 && b.len() > 0 && c.len() > 0 {
        if a[0] == b[0] && b[0] == c[0] {
            lemma_text_lt_transitive(a.drop_first(), b.drop_first(), c.drop_first());
        }
    }
}

/// Two different sequences are ordered one way or the other.
pub proof fn lemma_text_lt_total(a: Seq<char>, b: Seq<char>)
    requires
        a != b,
    ensures
        text_lt(a, b) || text_lt(b, a),
    decreases a.len(),
{
    if a.len() == 0 {
        assert(b.len() > 0) by {
            if b.len() == 0 {
                assert(a =~= b);
            }
        }
    } else if b.len() == 0 {
    } else if a[0] != b[0] {
    } else {
        assert(a.drop_first() != b.drop_first()) by {
            if a.drop_first() == b.drop_first() {
                assert(a =~= seq![a[0]] + a.drop_first());
                assert(b =~= seq![b[0]] + b.drop_first());
            }
        }
        lemma_text_lt_total(a.drop_first(), b.drop_first());
    }
}

/// The order compares what follows a common prefix.
proof fn lemma_text_lt_skip(a: Seq<char>, b: Seq<char>, i: int)
    requires
        0 <= i <= a.len(),
        i <= b.len(),
        a.subrange(0, i) == b.subrange(0, i),
    ensures
        text_lt(a, b) == text_lt(a.subrange(i, a.len() as int), b.subrange(i, b.len() as int)),
    decreases i,
{
    if i > 0 {
        assert(a[0] == a.subrange(0, i)[0]);
        assert(b[0] == b.subrange(0, i)[0]);
        assert(a.drop_first().subrange(0, i - 1) =~= a.subrange(0, i).drop_first());
        assert(b.drop_first().subrange(0, i - 1) =~= b.subrange(0, i).drop_first());
        lemma_text_lt_skip(a.drop_first(), b.drop_first(), i - 1);
        assert(a.drop_first().subrange(i - 1, a.len() - 1) =~= a.subrange(i, a.len() as int));
        assert(b.drop_first().subrange(i - 1, b.len() - 1) =~= b.subrange(i, b.len() as int));
    } else {
        assert(a.subrange(0, a.len() as int) =~= a);
        assert(b.subrange(0, b.len() as int) =~= b);
    }
}

/// Whether `a` comes before `b` in the order ids are kept in.
pub fn text_less(a: &str, b: &str) -> (r: bool)
    ensures
        r == text_lt(a@, b@),
{
    let n = a.unicode_len();
    let m = b.unicode_len();
    let mut i: usize = 0;
    while i < n && i < m && a.get_char(i) == b.get_char(i)
        invariant
            n == a@.len(),
            m == b@.len(),
            i <= n,
            i <= m,
            a@.subrange(0, i as int) == b@.subrange(0, i as int),
        decreases n - i,
    {
        assert(a@.subrange(0, i + 1) =~= a@.subrange(0, i as int).push(a@[i as int]));
        assert(b@.subrange(0, i + 1) =~= b@.subrange(0, i as int).push(b@[i as int]));
        i = i + 1;
    }
    proof {
        lemma_text_lt_skip(a@, b@, i as int);
    }
    let ghost ra = a@.subrange(i as int, n as int);
    let ghost rb = b@.subrange(i as int, m as int);
    if i == n {
        assert(ra.len() == 0);
        i < m
    } else if i == m {
        assert(rb.len() == 0);
        false
    } else {
        let ca = a.get_char(i);
        let cb = b.get_char(i);
        assert(ra[0] == ca && rb[0] == cb);
        ca < cb
    }
}

// ---------------------------------------------------------------------------
// Entries, and the map they make
// ---------------------------------------------------------------------------

/// The entry at `i` has id `k`.
pub open spec fn key_at(s: Seq<(String, ParamValue)>, k: Seq<char>, i: int) -> bool {
    0 <= i < s.len() && s[i].0@ == k
}

/// Ids strictly increasing, hence none twice.
pub open spec fn sorted_keys(s: Seq<(String, ParamValue)>) -> bool {
    forall|i: int, j: int| 0 <= i < j < s.len() ==> text_lt(#[trigger] s[i].0@, #[trigger] s[j].0@)
}

/// The map the entries make: each id to its value.
pub open spec fn entries_map(s: Seq<(String, ParamValue)>) -> Map<Seq<char>, ParamValueView> {
    Map::new(
        |k: Seq<char>| exists|i: int| key_at(s, k, i),
        |k: Seq<char>| s[choose|i: int| key_at(s, k, i)].1@,
    )
}

/// In sorted entries an id is found at one index only.
pub proof fn lemma_sorted_unique(s: Seq<(String, ParamValue)>, i: int, j: int)
    requires
        sorted_keys(s),
        0 <= i < s.len(),
        0 <= j < s.len(),
        s[i].0@ == s[j].0@,
    ensures
        i == j,
{
    if i < j {
        lemma_text_lt_irreflexive(s[i].0@);
    } else if j < i {
        lemma_text_lt_irreflexive(s[i].0@);
    }
}

/// What the map holds under the id found at `i`.
pub proof fn lemma_entries_map_at(s: Seq<(String, ParamValue)>, i: int)
    requires
        sorted_keys(s),
        0 <= i < s.len(),
    ensures
        entries_map(s).contains_key(s[i].0@),
        entries_map(s)[s[i].0@] == s[i].1@,
{
    let k = s[i].0@;
    assert(key_at(s, k, i));
    let c = choose|c: int| key_at(s, k, c);
    lemma_sorted_unique(s, i, c);
}

/// The value of the first entry with id `k`, if there is one.
pub fn lookup<'a>(entries: &'a [(String, ParamValue)], key: &str) -> (r: Option<&'a ParamValue>)
    requires
        sorted_keys(entries@),
    ensures
        match r {
            Some(v) => entries_map(entries@).contains_key(key@) && v@ == entries_map(
                entries@,
            )[key@],
            None => !entries_map(entries@).contains_key(key@),
        },
{
    let mut i: usize = 0;
    while i < entries.len()
        invariant
            i <= entries@.len(),
            sorted_keys(entries@),
            forall|j: int| 0 <= j < i ==> entries@[j].0@ != key@,
        decreases entries@.len() - i,
    {
        if str_eq(entries[i].0.as_str(), key) {
            proof {
                lemma_entries_map_at(entries@, i as int);
            }
            return Some(&entries[i].1);
        }
        i = i + 1;
    }
    None
}

// ---------------------------------------------------------------------------
// Params
// ---------------------------------------------------------------------------

/// A binding's parameters, by id.
///
/// Sorted by id with none twice, so that it reads back in the order a
/// `BTreeMap` would give and an id has one value.
#[derive(Debug, PartialEq, Eq)]
pub struct Params {
    entries: Vec<(String, ParamValue)>,
}

impl Clone for Params {
    fn clone(&self) -> (r: Self)
        ensures
            r@ == self@,
    {
        proof {
            use_type_invariant(self);
        }
        let ghost src = self.entries@;
        let mut out: Vec<(String, ParamValue)> = Vec::new();
        let mut i: usize = 0;
        while i < self.entries.len()
            invariant
                i <= src.len(),
                src == self.entries@,
                out@.len() == i,
                forall|j: int| 0 <= j < i ==> (#[trigger] out@[j]).0@ == src[j].0@ && out@[j].1@ == src[j].1@,
            decreases src.len() - i,
        {
            let k = self.entries[i].0.clone();
            let v = self.entries[i].1.clone();
            out.push((k, v));
            i = i + 1;
        }
        proof {
            let o = out@;
            assert(sorted_keys(o)) by {
                assert forall|a: int, b: int| 0 <= a < b < o.len() implies text_lt(
                    #[trigger] o[a].0@,
                    #[trigger] o[b].0@,
                ) by {
                    assert(text_lt(src[a].0@, src[b].0@));
                }
            }
            assert(entries_map(o) =~= entries_map(src)) by {
                assert forall|q: Seq<char>| #[trigger] entries_map(o).contains_key(q) == entries_map(
                    src,
                ).contains_key(q) by {
                    if exists|t: int| key_at(o, q, t) {
                        let t = choose|t: int| key_at(o, q, t);
                        assert(key_at(src, q, t));
                    }
                    if exists|t: int| key_at(src, q, t) {
                        let t = choose|t: int| key_at(src, q, t);
                        assert(key_at(o, q, t));
                    }
                }
                assert forall|q: Seq<char>| #[trigger] entries_map(o).contains_key(q) implies entries_map(
                    o,
                )[q] == entries_map(src)[q] by {
                    let t = choose|t: int| key_at(o, q, t);
                    lemma_entries_map_at(o, t);
                    assert(key_at(src, q, t));
                    lemma_entries_map_at(src, t);
                }
            }
        }
        Params { entries: out }
    }
}

impl View for Params {
    type V = Map<Seq<char>, ParamValueView>;

    open spec fn view(&self) -> Map<Seq<char>, ParamValueView> {
        entries_map(self.entry_seq())
    }
}

impl Params {
    /// The entries, in id order.
    pub closed spec fn entry_seq(&self) -> Seq<(String, ParamValue)> {
        self.entries@
    }

    #[verifier::type_invariant]
    spec fn sorted(&self) -> bool {
        sorted_keys(self.entries@)
    }

    /// Nothing configured.
    pub fn new() -> (r: Params)
        ensures
            r.entry_seq().len() == 0,
            r@ == Map::<Seq<char>, ParamValueView>::empty(),
    {
        let r = Params { entries: Vec::new() };
        assert(r@ =~= Map::<Seq<char>, ParamValueView>::empty());
        r
    }

    /// The entries, in id order, each id once.
    pub fn entries(&self) -> (r: &[(String, ParamValue)])
        ensures
            r@ == self.entry_seq(),
            sorted_keys(r@),
            forall|i: int, j: int| 0 <= i < j < r@.len() ==> r@[i].0@ != r@[j].0@,
    {
        proof {
            use_type_invariant(self);
            assert forall|i: int, j: int| 0 <= i < j < self.entries@.len() implies self.entries@[i].0@
                != self.entries@[j].0@ by {
                if self.entries@[i].0@ == self.entries@[j].0@ {
                    lemma_text_lt_irreflexive(self.entries@[i].0@);
                }
            }
        }
        self.entries.as_slice()
    }

    /// How many parameters are set.
    pub fn len(&self) -> (r: usize)
        ensures
            r == self.entry_seq().len(),
            r == self@.dom().len(),
    {
        proof {
            use_type_invariant(self);
            lemma_entries_map_dom_len(self.entries@);
        }
        self.entries.len()
    }

    /// Whether nothing is set.
    pub fn is_empty(&self) -> (r: bool)
        ensures
            r == (self@.dom().len() == 0),
    {
        self.len() == 0
    }

    /// One parameter's value, by id.
    pub fn get(&self, key: &str) -> (r: Option<&ParamValue>)
        ensures
            match r {
                Some(v) => self@.contains_key(key@) && v@ == self@[key@],
                None => !self@.contains_key(key@),
            },
    {
        proof {
            use_type_invariant(self);
        }
        lookup(self.entries.as_slice(), key)
    }

    /// Set one parameter, returning what it held before.
    pub fn insert(&mut self, key: String, value: ParamValue) -> (r: Option<ParamValue>)
        ensures
            final(self)@ == old(self)@.insert(key@, value@),
            match r {
                Some(v) => old(self)@.contains_key(key@) && v@ == old(self)@[key@],
                None => !old(self)@.contains_key(key@),
            },
    {
        proof {
            use_type_invariant(&*self);
        }
        let ghost old_entries = self.entries@;
        let ghost vv = value@;
        let mut entries: Vec<(String, ParamValue)> = Vec::new();
        std::mem::swap(&mut entries, &mut self.entries);
        let mut i: usize = 0;
        while i < entries.len() && text_less(entries[i].0.as_str(), key.as_str())
            invariant
                i <= entries@.len(),
                entries@ == old_entries,
                sorted_keys(old_entries),
                forall|j: int| 0 <= j < i ==> text_lt(#[trigger] old_entries[j].0@, key@),
            decreases entries@.len() - i,
        {
            i = i + 1;
        }
        // Every id from `i` on is not before `key`; so each is `key` or after it.
        proof {
            assert forall|j: int| i <= j < old_entries.len() && old_entries[j].0@ != key@
                implies text_lt(key@, #[trigger] old_entries[j].0@) by {
                if j > i {
                    assert(text_lt(old_entries[i as int].0@, old_entries[j].0@));
                    if old_entries[i as int].0@ != key@ {
                        lemma_text_lt_total(old_entries[i as int].0@, key@);
                        lemma_text_lt_transitive(key@, old_entries[i as int].0@, old_entries[j].0@);
                    }
                } else {
                    lemma_text_lt_total(old_entries[j].0@, key@);
                }
            }
            assert forall|j: int| 0 <= j < i implies old_entries[j].0@ != key@ by {
                lemma_text_lt_irreflexive(key@);
            }
        }
        if i < entries.len() && str_eq(entries[i].0.as_str(), key.as_str()) {
            let ghost k = key@;
            proof {
                lemma_entries_map_at(old_entries, i as int);
            }
            let replaced = entries.remove(i);
            entries.insert(i, (key, value));
            proof {
                let s = entries@;
                assert(s =~= old_entries.update(i as int, s[i as int]));
                assert(sorted_keys(s)) by {
                    assert forall|a: int, b: int| 0 <= a < b < s.len() implies text_lt(
                        #[trigger] s[a].0@,
                        #[trigger] s[b].0@,
                    ) by {
                        assert(s[a].0@ == old_entries[a].0@);
                        assert(s[b].0@ == old_entries[b].0@);
                    }
                }
                assert(entries_map(s) =~= entries_map(old_entries).insert(k, vv)) by {
                    assert forall|q: Seq<char>| #[trigger]
                        entries_map(s).contains_key(q) == entries_map(old_entries).insert(k, vv).contains_key(q) by {
                        if exists|t: int| key_at(old_entries, q, t) {
                            let t = choose|t: int| key_at(old_entries, q, t);
                            assert(key_at(s, q, t));
                        }
                        if exists|t: int| key_at(s, q, t) {
                            let t = choose|t: int| key_at(s, q, t);
                            if t != i {
                                assert(key_at(old_entries, q, t));
                            }
                        }
                        if q == k {
                            assert(key_at(s, q, i as int));
                        }
                    }
                    assert forall|q: Seq<char>| #[trigger]
                        entries_map(s).contains_key(q) implies entries_map(s)[q] == entries_map(
                        old_entries,
                    ).insert(k, vv)[q] by {
                        let t = choose|t: int| key_at(s, q, t);
                        lemma_entries_map_at(s, t);
                        if t != i {
                            assert(key_at(old_entries, q, t));
                            lemma_entries_map_at(old_entries, t);
                        }
                    }
                }
            }
            self.entries = entries;
            Some(replaced.1)
        } else {
            let ghost k = key@;
            entries.insert(i, (key, value));
            proof {
                let s = entries@;
                assert(s =~= old_entries.subrange(0, i as int).push((key, value)) + old_entries.subrange(
                    i as int,
                    old_entries.len() as int,
                ));
                assert forall|j: int| 0 <= j < old_entries.len() implies old_entries[j].0@ != k by {
                    if j >= i {
                        if old_entries[j].0@ == k {
                            assert(i < old_entries.len());
                        }
                    }
                }
                assert(sorted_keys(s)) by {
                    assert forall|a: int, b: int| 0 <= a < b < s.len() implies text_lt(
                        #[trigger] s[a].0@,
                        #[trigger] s[b].0@,
                    ) by {
                        if b < i {
                            assert(s[a] == old_entries[a] && s[b] == old_entries[b]);
                        } else if b == i {
                            assert(s[a] == old_entries[a]);
                        } else if a < i {
                            assert(s[a] == old_entries[a] && s[b] == old_entries[b - 1]);
                            assert(text_lt(old_entries[a].0@, k));
                            assert(text_lt(k, old_entries[b - 1].0@));
                            lemma_text_lt_transitive(old_entries[a].0@, k, old_entries[b - 1].0@);
                        } else if a == i {
                            assert(s[b] == old_entries[b - 1]);
                        } else {
                            assert(s[a] == old_entries[a - 1] && s[b] == old_entries[b - 1]);
                        }
                    }
                }
                assert(!entries_map(old_entries).contains_key(k));
                assert(entries_map(s) =~= entries_map(old_entries).insert(k, vv)) by {
                    assert forall|q: Seq<char>| #[trigger]
                        entries_map(s).contains_key(q) == entries_map(old_entries).insert(k, vv).contains_key(q) by {
                        if exists|t: int| key_at(old_entries, q, t) {
                            let t = choose|t: int| key_at(old_entries, q, t);
                            if t < i {
                                assert(key_at(s, q, t));
                            } else {
                                assert(key_at(s, q, t + 1));
                            }
                        }
                        if exists|t: int| key_at(s, q, t) {
                            let t = choose|t: int| key_at(s, q, t);
                            if t < i {
                                assert(key_at(old_entries, q, t));
                            } else if t > i {
                                assert(key_at(old_entries, q, t - 1));
                            }
                        }
                        if q == k {
                            assert(key_at(s, q, i as int));
                        }
                    }
                    assert forall|q: Seq<char>| #[trigger]
                        entries_map(s).contains_key(q) implies entries_map(s)[q] == entries_map(
                        old_entries,
                    ).insert(k, vv)[q] by {
                        let t = choose|t: int| key_at(s, q, t);
                        lemma_entries_map_at(s, t);
                        if t < i {
                            assert(key_at(old_entries, q, t));
                            lemma_entries_map_at(old_entries, t);
                        } else if t > i {
                            assert(key_at(old_entries, q, t - 1));
                            lemma_entries_map_at(old_entries, t - 1);
                        }
                    }
                }
            }
            self.entries = entries;
            None
        }
    }
}

/// The map's domain has as many ids as there are entries.
proof fn lemma_entries_map_dom_len(s: Seq<(String, ParamValue)>)
    requires
        sorted_keys(s),
    ensures
        entries_map(s).dom().len() == s.len(),
        entries_map(s).dom().finite(),
    decreases s.len(),
{
    if s.len() == 0 {
        assert(entries_map(s).dom() =~= Set::<Seq<char>>::empty());
    } else {
        let p = s.drop_last();
        assert(sorted_keys(p));
        lemma_entries_map_dom_len(p);
        let k = s.last().0@;
        assert forall|j: int| 0 <= j < p.len() implies p[j].0@ != k by {
            assert(text_lt(s[j].0@, s[s.len() - 1].0@));
            lemma_text_lt_irreflexive(k);
        }
        assert(entries_map(s).dom() =~= entries_map(p).dom().insert(k)) by {
            assert forall|q: Seq<char>| #[trigger] entries_map(s).dom().contains(q) implies entries_map(
                p,
            ).dom().insert(k).contains(q) by {
                let t = choose|t: int| key_at(s, q, t);
                if t < p.len() {
                    assert(key_at(p, q, t));
                }
            }
            assert forall|q: Seq<char>| #[trigger] entries_map(p).dom().insert(k).contains(q) implies entries_map(
                s,
            ).dom().contains(q) by {
                if q == k {
                    assert(key_at(s, q, s.len() - 1));
                } else {
                    let t = choose|t: int| key_at(p, q, t);
                    assert(key_at(s, q, t));
                }
            }
        }
    }
}

/// A read gives back the last write: once [`Params::insert`] has set `key`
/// to `value`, [`Params::get`] of `key` reads `value`, and every other id
/// reads as it did before.
pub proof fn law_a_read_gives_back_the_last_write(
    before: Params,
    after: Params,
    key: Seq<char>,
    value: ParamValueView,
    other: Seq<char>,
)
    requires
        after@ == before@.insert(key, value),
    ensures
        after@.contains_key(key) && after@[key] == value,
        other != key ==> after@.contains_key(other) == before@.contains_key(other),
        other != key && before@.contains_key(other) ==> after@[other] == before@[other],
{
}

/// Every id with its values read out, lists rendered comma-separated: what a
/// log line about a binding shows.
pub open spec fn rendered(s: Seq<(String, ParamValue)>) -> Seq<(Seq<char>, Seq<char>)> {
    s.map_values(|e: (String, ParamValue)| (e.0@, joined(all_values(e.1@), ", "@)))
}

} // verus!
