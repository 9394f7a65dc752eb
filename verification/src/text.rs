//! Character-level text operations the rest of the crate is built on.
//!
//! Strings are reasoned about through their views, `Seq<char>`. Everything
//! here works on those sequences: the comparisons an application name needs,
//! the joins a log line needs, and the few `String` mutations std offers that
//! vstd does not describe.

use vstd::prelude::*;
use vstd::string::StringExecFns;

verus! {

// ---------------------------------------------------------------------------
// Specifications
// ---------------------------------------------------------------------------

/// `c` with an ASCII capital replaced by its small letter; anything else as is.
pub open spec fn ascii_lower_char(c: char) -> char {
    if 'A' <= c && c <= 'Z' {
        ((c as u32) + 32) as char
    } else {
        c
    }
}

/// `s` with every ASCII capital lowered, which is what `to_ascii_lowercase` does.
pub open spec fn ascii_lower(s: Seq<char>) -> Seq<char> {
    s.map_values(|c: char| ascii_lower_char(c))
}

/// `needle` occurs in `hay` starting at `i`.
pub open spec fn occurs_at(hay: Seq<char>, needle: Seq<char>, i: int) -> bool {
    &&& 0 <= i
    &&& i + needle.len() <= hay.len()
    &&& hay.subrange(i, i + needle.len()) == needle
}

/// `needle` occurs somewhere in `hay`.
pub open spec fn contains(hay: Seq<char>, needle: Seq<char>) -> bool {
    exists|i: int| occurs_at(hay, needle, i)
}

/// `s` ends with `suffix`.
pub open spec fn ends_with(s: Seq<char>, suffix: Seq<char>) -> bool {
    &&& suffix.len() <= s.len()
    &&& s.subrange(s.len() - suffix.len(), s.len() as int) == suffix
}

/// `s` with `suffix` removed from its end for as long as it is there, which is
/// what `trim_end_matches` does with a non-empty string pattern.
pub open spec fn trim_suffix_all(s: Seq<char>, suffix: Seq<char>) -> Seq<char>
    decreases s.len(),
{
    if suffix.len() > 0 && ends_with(s, suffix) {
        trim_suffix_all(s.subrange(0, s.len() - suffix.len()), suffix)
    } else {
        s
    }
}

/// What follows the last `sep` in `s`, or the whole of `s` when there is none,
/// which is what `rsplit(sep).next()` yields.
pub open spec fn after_last(s: Seq<char>, sep: char) -> Seq<char>
    decreases s.len(),
{
    if s.len() == 0 {
        s
    } else if s.last() == sep {
        Seq::empty()
    } else {
        after_last(s.drop_last(), sep).push(s.last())
    }
}

/// The parts, with `sep` between each neighbouring two.
pub open spec fn joined(parts: Seq<Seq<char>>, sep: Seq<char>) -> Seq<char>
    decreases parts.len(),
{
    if parts.len() == 0 {
        Seq::empty()
    } else if parts.len() == 1 {
        parts[0]
    } else {
        joined(parts.drop_last(), sep) + sep + parts.last()
    }
}

/// `k` is at `i` in `keys` and nowhere before it.
pub open spec fn first_at(keys: Seq<Seq<char>>, k: Seq<char>, i: int) -> bool {
    &&& 0 <= i < keys.len()
    &&& keys[i] == k
    &&& forall|j: int| 0 <= j < i ==> keys[j] != k
}

/// `k` is nowhere in `keys`.
pub open spec fn absent(keys: Seq<Seq<char>>, k: Seq<char>) -> bool {
    forall|j: int| 0 <= j < keys.len() ==> keys[j] != k
}

/// The decimal spelling of `n`, without leading zeros.
pub open spec fn decimal(n: nat) -> Seq<char>
    decreases n,
{
    if n < 10 {
        seq![digit_char(n)]
    } else {
        decimal(n / 10).push(digit_char(n % 10))
    }
}

/// The character for one decimal digit.
pub open spec fn digit_char(d: nat) -> char {
    (('0' as u32) + d) as char
}

// ---------------------------------------------------------------------------
// What the operations above mean
// ---------------------------------------------------------------------------

/// The tail `after_last` gives is exactly what follows the last separator:
/// it holds no separator, `s` ends with it, and unless it is the whole of
/// `s` a separator stands just before it.
pub proof fn law_after_last_is_what_follows_the_last_separator(s: Seq<char>, sep: char)
    ensures
        forall|i: int| 0 <= i < after_last(s, sep).len() ==> after_last(s, sep)[i] != sep,
        ends_with(s, after_last(s, sep)),
        after_last(s, sep).len() < s.len() ==> s[s.len() - after_last(s, sep).len() - 1] == sep,
    decreases s.len(),
{
    let t = after_last(s, sep);
    if s.len() == 0 {
        assert(s.subrange(0, 0) =~= t);
    } else if s.last() == sep {
        assert(s.subrange(s.len() as int, s.len() as int) =~= t);
    } else {
        law_after_last_is_what_follows_the_last_separator(s.drop_last(), sep);
        let p = after_last(s.drop_last(), sep);
        assert(t == p.push(s.last()));
        assert(s.subrange(s.len() - t.len(), s.len() as int) =~= s.drop_last().subrange(
            s.drop_last().len() - p.len(),
            s.drop_last().len() as int,
        ).push(s.last()));
        if t.len() < s.len() {
            assert(s[s.len() - t.len() - 1] == s.drop_last()[s.drop_last().len() - p.len() - 1]);
        }
    }
}

/// Trimming a non-empty suffix removes every trailing copy of it and nothing
/// else: what is left is a prefix of `s` that no longer ends with it, and
/// what was removed is copies of it.
pub proof fn law_trimming_removes_every_trailing_copy(s: Seq<char>, suffix: Seq<char>)
    requires
        suffix.len() > 0,
    ensures
        !ends_with(trim_suffix_all(s, suffix), suffix),
        trim_suffix_all(s, suffix).len() <= s.len(),
        s.subrange(0, trim_suffix_all(s, suffix).len() as int) == trim_suffix_all(s, suffix),
        (s.len() - trim_suffix_all(s, suffix).len()) % (suffix.len() as int) == 0,
    decreases s.len(),
{
    if ends_with(s, suffix) {
        let p = s.subrange(0, s.len() - suffix.len());
        law_trimming_removes_every_trailing_copy(p, suffix);
        let t = trim_suffix_all(p, suffix);
        assert(s.subrange(0, t.len() as int) =~= p.subrange(0, t.len() as int));
        let x: int = p.len() - t.len();
        let l: int = suffix.len() as int;
        assert(s.len() - t.len() == x + l);
        vstd::arithmetic::div_mod::lemma_mod_add_multiples_vanish(x, l);
        assert(trim_suffix_all(s, suffix) == t);
        assert(x % l == 0);
        assert((l + x) % l == 0);
    } else {
        assert(s.subrange(0, s.len() as int) =~= s);
        assert(trim_suffix_all(s, suffix) == s);
        assert(0int % (suffix.len() as int) == 0);
    }
}

/// The number a string of decimal digits spells.
pub open spec fn digits_value(s: Seq<char>) -> int
    decreases s.len(),
{
    if s.len() == 0 {
        0
    } else {
        digits_value(s.drop_last()) * 10 + (s.last() as int - '0' as int)
    }
}

/// A digit's character is `0` moved on by the digit.
proof fn lemma_digit_char(d: nat)
    requires
        d < 10,
    ensures
        digit_char(d) as int == '0' as int + d,
        '0' <= digit_char(d) <= '9',
{
    assert(('0' as u32) == 48);
}

/// `decimal` spells `n` in base ten: it reads back as `n`, every character
/// is a digit, and there is no leading zero.
pub proof fn law_decimal_reads_back_as_its_number(n: nat)
    ensures
        digits_value(decimal(n)) == n,
        decimal(n).len() > 0,
        forall|i: int| 0 <= i < decimal(n).len() ==> '0' <= #[trigger] decimal(n)[i] <= '9',
        n >= 10 ==> decimal(n)[0] != '0',
    decreases n,
{
    lemma_digit_char(n % 10);
    if n < 10 {
        lemma_digit_char(n);
        let d = decimal(n);
        assert(d.drop_last() =~= Seq::<char>::empty());
        assert(digits_value(d.drop_last()) == 0);
        assert(digits_value(d) == digits_value(d.drop_last()) * 10 + (d.last() as int - '0' as int));
    } else {
        law_decimal_reads_back_as_its_number(n / 10);
        let d = decimal(n);
        assert(d.drop_last() =~= decimal(n / 10));
        assert(d.last() == digit_char(n % 10));
        assert(n == (n / 10) * 10 + n % 10);
        assert(digits_value(d) == digits_value(d.drop_last()) * 10 + (d.last() as int - '0' as int));
        assert(digits_value(d.drop_last()) == n / 10);
        assert forall|i: int| 0 <= i < d.len() implies '0' <= #[trigger] d[i] <= '9' by {
            if i < d.len() - 1 {
                assert(d[i] == decimal(n / 10)[i]);
            }
        }
        if n / 10 < 10 {
            assert(decimal(n / 10)[0] == digit_char(n / 10));
        }
        assert(d[0] == decimal(n / 10)[0]);
    }
}

// ---------------------------------------------------------------------------
// std's `String::push` and `Debug`, which vstd does not describe
// ---------------------------------------------------------------------------

/// How `{:?}` spells a string: quoted, with escapes.
pub uninterp spec fn debug_text(s: Seq<char>) -> Seq<char>;

/// `String::push`: appends one character.
#[verifier::external_body]
pub(crate) fn push_char(s: &mut String, c: char)
    ensures
        final(s)@ == old(s)@.push(c),
{
    s.push(c);
}

/// `format!("{s:?}")`: the Debug rendering of a string slice.
#[verifier::external_body]
pub(crate) fn debug_quoted(s: &str) -> (r: String)
    ensures
        r@ == debug_text(s@),
{
    format!("{s:?}")
}

// ---------------------------------------------------------------------------
// Executable operations
// ---------------------------------------------------------------------------

/// The characters of `s`, in order.
pub fn chars_of(s: &str) -> (r: Vec<char>)
    ensures
        r@ == s@,
{
    let n = s.unicode_len();
    let mut out: Vec<char> = Vec::new();
    let mut i: usize = 0;
    while i < n
        invariant
            n == s@.len(),
            i <= n,
            out@ == s@.subrange(0, i as int),
        decreases n - i,
    {
        out.push(s.get_char(i));
        i = i + 1;
    }
    out
}

/// Concatenation, as a new `String`.
pub fn concat(a: &str, b: &str) -> (r: String)
    ensures
        r@ == a@ + b@,
{
    let mut out = String::new();
    out.append(a);
    out.append(b);
    out
}

/// The characters of `cs` from `from` up to `to`.
pub fn sub_chars(cs: &[char], from: usize, to: usize) -> (r: Vec<char>)
    requires
        from <= to <= cs@.len(),
    ensures
        r@ == cs@.subrange(from as int, to as int),
{
    let mut out: Vec<char> = Vec::new();
    let mut i: usize = from;
    while i < to
        invariant
            from <= i <= to <= cs@.len(),
            out@ == cs@.subrange(from as int, i as int),
        decreases to - i,
    {
        out.push(cs[i]);
        i = i + 1;
    }
    out
}

/// Whether two string slices hold the same characters.
pub fn str_eq(a: &str, b: &str) -> (r: bool)
    ensures
        r == (a@ == b@),
{
    let n = a.unicode_len();
    let m = b.unicode_len();
    if n != m {
        return false;
    }
    let mut i: usize = 0;
    while i < n
        invariant
            n == a@.len(),
            m == b@.len(),
            n == m,
            i <= n,
            a@.subrange(0, i as int) == b@.subrange(0, i as int),
        decreases n - i,
    {
        if a.get_char(i) != b.get_char(i) {
            return false;
        }
        assert(a@.subrange(0, i + 1) == a@.subrange(0, i as int).push(a@[i as int]));
        assert(b@.subrange(0, i + 1) == b@.subrange(0, i as int).push(b@[i as int]));
        i = i + 1;
    }
    assert(a@ == a@.subrange(0, n as int));
    assert(b@ == b@.subrange(0, n as int));
    true
}

/// One character, lowered if it is an ASCII capital.
pub fn lower_char(c: char) -> (r: char)
    ensures
        r == ascii_lower_char(c),
{
    if 'A' <= c && c <= 'Z' {
        let b: u8 = c as u8;
        (b + 32) as char
    } else {
        c
    }
}

/// Every character lowered if it is an ASCII capital.
pub fn lower_chars(cs: &[char]) -> (r: Vec<char>)
    ensures
        r@ == ascii_lower(cs@),
{
    let mut out: Vec<char> = Vec::new();
    let mut i: usize = 0;
    while i < cs.len()
        invariant
            i <= cs@.len(),
            out@ == ascii_lower(cs@.subrange(0, i as int)),
        decreases cs@.len() - i,
    {
        let c = lower_char(cs[i]);
        proof {
            assert(ascii_lower(cs@.subrange(0, i + 1)) == ascii_lower(
                cs@.subrange(0, i as int),
            ).push(ascii_lower_char(cs@[i as int])));
        }
        out.push(c);
        i = i + 1;
    }
    assert(cs@.subrange(0, cs@.len() as int) == cs@);
    out
}

/// Whether `needle` occurs in `hay` starting at `i`.
fn occurs_at_exec(hay: &[char], needle: &[char], i: usize) -> (r: bool)
    requires
        i + needle@.len() <= hay@.len(),
    ensures
        r == occurs_at(hay@, needle@, i as int),
{
    let hl = hay.len();
    let mut j: usize = 0;
    while j < needle.len()
        invariant
            hl == hay@.len(),
            i + needle@.len() <= hay@.len(),
            j <= needle@.len(),
            forall|k: int| 0 <= k < j ==> hay@[i + k] == needle@[k],
        decreases needle@.len() - j,
    {
        assert(i + j < hay@.len());
        let at: usize = i + j;
        if hay[at] != needle[j] {
            assert(hay@.subrange(i as int, i + needle@.len())[j as int] != needle@[j as int]);
            return false;
        }
        j = j + 1;
    }
    assert(hay@.subrange(i as int, i + needle@.len()) =~= needle@);
    true
}

/// Whether `needle` occurs anywhere in `hay`.
pub fn contains_chars(hay: &[char], needle: &[char]) -> (r: bool)
    ensures
        r == contains(hay@, needle@),
{
    if needle.len() > hay.len() {
        assert forall|i: int| !occurs_at(hay@, needle@, i) by {}
        return false;
    }
    let last = hay.len() - needle.len();
    let mut i: usize = 0;
    while i < last
        invariant
            last == hay@.len() - needle@.len(),
            i <= last,
            forall|k: int| 0 <= k < i ==> !occurs_at(hay@, needle@, k),
        decreases last - i,
    {
        if occurs_at_exec(hay, needle, i) {
            return true;
        }
        i = i + 1;
    }
    if occurs_at_exec(hay, needle, last) {
        return true;
    }
    assert forall|k: int| !occurs_at(hay@, needle@, k) by {
        if 0 <= k && k + needle@.len() <= hay@.len() {
            assert(k <= i);
        }
    }
    false
}

/// Whether the first `end` characters of `cs` end with `suffix`.
fn prefix_ends_with(cs: &[char], end: usize, suffix: &[char]) -> (r: bool)
    requires
        end <= cs@.len(),
    ensures
        r == ends_with(cs@.subrange(0, end as int), suffix@),
{
    if suffix.len() > end {
        return false;
    }
    let start = end - suffix.len();
    let mut j: usize = 0;
    while j < suffix.len()
        invariant
            end <= cs@.len(),
            start + suffix@.len() == end,
            j <= suffix@.len(),
            forall|k: int| 0 <= k < j ==> cs@[start + k] == suffix@[k],
        decreases suffix@.len() - j,
    {
        if cs[start + j] != suffix[j] {
            let ghost p = cs@.subrange(0, end as int);
            assert(p.subrange(p.len() - suffix@.len(), p.len() as int)[j as int] != suffix@[j as int]);
            return false;
        }
        j = j + 1;
    }
    let ghost p = cs@.subrange(0, end as int);
    assert(p.subrange(p.len() - suffix@.len(), p.len() as int) =~= suffix@);
    true
}

/// How many of `cs`'s first characters remain once `suffix` is trimmed off
/// their end for as long as it is there.
pub fn trim_suffix_all_len(cs: &[char], end: usize, suffix: &[char]) -> (r: usize)
    requires
        end <= cs@.len(),
    ensures
        r <= end,
        cs@.subrange(0, r as int) == trim_suffix_all(cs@.subrange(0, end as int), suffix@),
    decreases end,
{
    if suffix.len() > 0 && prefix_ends_with(cs, end, suffix) {
        let shorter = end - suffix.len();
        assert(cs@.subrange(0, end as int).subrange(0, shorter as int) =~= cs@.subrange(
            0,
            shorter as int,
        ));
        trim_suffix_all_len(cs, shorter, suffix)
    } else {
        end
    }
}

/// The index at which what follows the last `sep` in `cs` begins.
pub fn after_last_start(cs: &[char], sep: char) -> (r: usize)
    ensures
        r <= cs@.len(),
        cs@.subrange(r as int, cs@.len() as int) == after_last(cs@, sep),
{
    let n = cs.len();
    let mut j: usize = n;
    assert(cs@.subrange(0, n as int) =~= cs@);
    assert(cs@.subrange(n as int, n as int) =~= Seq::<char>::empty());
    while j > 0
        invariant
            n == cs@.len(),
            j <= n,
            after_last(cs@, sep) == after_last(cs@.subrange(0, j as int), sep) + cs@.subrange(
                j as int,
                n as int,
            ),
        decreases j,
    {
        let ghost pre = cs@.subrange(0, j as int);
        assert(pre.last() == cs@[j - 1]);
        assert(pre.drop_last() =~= cs@.subrange(0, j - 1));
        if cs[j - 1] == sep {
            assert(after_last(pre, sep) == Seq::<char>::empty());
            assert(after_last(cs@, sep) =~= cs@.subrange(j as int, n as int));
            return j;
        }
        assert(after_last(pre, sep) == after_last(cs@.subrange(0, j - 1), sep).push(cs@[j - 1]));
        assert(cs@.subrange(j - 1, n as int) =~= seq![cs@[j - 1]] + cs@.subrange(j as int, n as int));
        assert(after_last(cs@, sep) =~= after_last(cs@.subrange(0, j - 1), sep) + cs@.subrange(
            j - 1,
            n as int,
        ));
        j = j - 1;
    }
    assert(cs@.subrange(0, 0) =~= Seq::<char>::empty());
    assert(after_last(cs@, sep) =~= cs@.subrange(0, n as int));
    0
}

/// `parts` with `sep` between each neighbouring two.
pub fn join(parts: &[&str], sep: &str) -> (r: String)
    ensures
        r@ == joined(parts@.map_values(|p: &str| p@), sep@),
{
    let ghost views = parts@.map_values(|p: &str| p@);
    let mut out = String::new();
    let mut i: usize = 0;
    while i < parts.len()
        invariant
            i <= parts@.len(),
            views == parts@.map_values(|p: &str| p@),
            out@ == joined(views.subrange(0, i as int), sep@),
        decreases parts@.len() - i,
    {
        let ghost before = views.subrange(0, i as int);
        let ghost after = views.subrange(0, i + 1);
        assert(after.drop_last() =~= before);
        assert(after.last() == parts@[i as int]@);
        if i > 0 {
            out.append(sep);
        } else {
            assert(before =~= Seq::<Seq<char>>::empty());
        }
        out.append(parts[i]);
        proof {
            if i == 0 {
                assert(out@ =~= after[0]);
            }
        }
        i = i + 1;
    }
    assert(views.subrange(0, parts@.len() as int) =~= views);
    out
}

/// `parts` with `sep` between each neighbouring two.
pub fn join_strings(parts: &[String], sep: &str) -> (r: String)
    ensures
        r@ == joined(parts@.map_values(|p: String| p@), sep@),
{
    let ghost views = parts@.map_values(|p: String| p@);
    let mut out = String::new();
    let mut i: usize = 0;
    while i < parts.len()
        invariant
            i <= parts@.len(),
            views == parts@.map_values(|p: String| p@),
            out@ == joined(views.subrange(0, i as int), sep@),
        decreases parts@.len() - i,
    {
        let ghost before = views.subrange(0, i as int);
        let ghost after = views.subrange(0, i + 1);
        assert(after.drop_last() =~= before);
        assert(after.last() == parts@[i as int]@);
        if i > 0 {
            out.append(sep);
        } else {
            assert(before =~= Seq::<Seq<char>>::empty());
        }
        out.append(parts[i].as_str());
        proof {
            if i == 0 {
                assert(out@ =~= after[0]);
            }
        }
        i = i + 1;
    }
    assert(views.subrange(0, parts@.len() as int) =~= views);
    out
}

/// The decimal spelling of `n`.
pub fn decimal_string(n: u16) -> (r: String)
    ensures
        r@ == decimal(n as nat),
    decreases n,
{
    if n < 10 {
        let mut out = String::new();
        push_char(&mut out, digit(n));
        return out;
    }
    let mut out = decimal_string(n / 10);
    push_char(&mut out, digit(n % 10));
    out
}

/// The character for one decimal digit.
fn digit(d: u16) -> (r: char)
    requires
        d < 10,
    ensures
        r == digit_char(d as nat),
{
    let b: u8 = d as u8;
    (b + 48) as char
}

} // verus!
