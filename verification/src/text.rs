//! Character-sequence helpers shared by the parsers of this crate.
//!
//! Every helper is specified over `Seq<char>`; the executable versions work on
//! `Vec<char>` and are proved against those specifications.

use vstd::prelude::*;

verus! {

broadcast use vstd::string::group_string_axioms;

// ---------------------------------------------------------------------------
// Conversions between strings and character vectors
// ---------------------------------------------------------------------------

/// Appends one character to a string.
///
/// Trusted: `String::push` extends the string by exactly the given character.
#[verifier::external_body]
pub(crate) fn push_char(s: &mut String, c: char)
    ensures
        final(s)@ == old(s)@.push(c),
{
    s.push(c);
}

/// The characters of `s`, in order.
pub fn chars_of(s: &str) -> (out: Vec<char>)
    ensures
        out@ == s@,
{
    let mut out: Vec<char> = Vec::new();
    for c in it: s.chars()
        invariant
            it.seq() == s@,
            out@ == it.seq().subrange(0, it.index()),
    {
        out.push(c);
        assert(out@ =~= it.seq().subrange(0, it.index() + 1));
    }
    assert(out@ =~= s@);
    out
}

/// The string made of the characters of `v`.
pub fn string_of(v: &Vec<char>) -> (out: String)
    ensures
        out@ == v@,
{
    let mut out = String::new();
    let mut i: usize = 0;
    while i < v.len()
        invariant
            i <= v.len(),
            out@ == v@.take(i as int),
        decreases v.len() - i,
    {
        push_char(&mut out, v[i]);
        i += 1;
        assert(out@ =~= v@.take(i as int));
    }
    assert(v@.take(v.len() as int) =~= v@);
    out
}

/// Whether two strings hold the same characters.
pub fn str_eq(a: &str, b: &str) -> (r: bool)
    ensures
        r == (a@ == b@),
{
    let x = a.to_owned();
    let y = b.to_owned();
    x == y
}

/// `a` followed by `b`.
pub fn concat2(a: &str, b: &str) -> (out: String)
    ensures
        out@ == a@ + b@,
{
    let mut out = a.to_owned();
    out.append(b);
    out
}

/// `a`, `b` and `c` in a row.
pub fn concat3(a: &str, b: &str, c: &str) -> (out: String)
    ensures
        out@ == a@ + b@ + c@,
{
    let mut out = a.to_owned();
    out.append(b);
    out.append(c);
    out
}

/// The views of a list of character vectors.
pub open spec fn views(v: Seq<Vec<char>>) -> Seq<Seq<char>> {
    Seq::new(v.len(), |i: int| v[i]@)
}

/// The views of a list of strings.
pub open spec fn str_views(v: Seq<String>) -> Seq<Seq<char>> {
    Seq::new(v.len(), |i: int| v[i]@)
}

/// Turns each character vector into a string.
pub fn strings_of(v: &Vec<Vec<char>>) -> (out: Vec<String>)
    ensures
        str_views(out@) == views(v@),
{
    let mut out: Vec<String> = Vec::new();
    let mut i: usize = 0;
    while i < v.len()
        invariant
            i <= v.len(),
            out.len() == i,
            forall|j: int| 0 <= j < i ==> out@[j]@ == v@[j]@,
        decreases v.len() - i,
    {
        out.push(string_of(&v[i]));
        i += 1;
    }
    assert(str_views(out@) =~= views(v@));
    out
}

/// A copy of `v[a..b]`.
pub fn slice(v: &Vec<char>, a: usize, b: usize) -> (out: Vec<char>)
    requires
        a <= b <= v.len(),
    ensures
        out@ == v@.subrange(a as int, b as int),
{
    let mut out: Vec<char> = Vec::new();
    let mut i: usize = a;
    while i < b
        invariant
            a <= i <= b <= v.len(),
            out@ == v@.subrange(a as int, i as int),
        decreases b - i,
    {
        out.push(v[i]);
        i += 1;
        assert(out@ =~= v@.subrange(a as int, i as int));
    }
    out
}

/// Appends the characters of `src` to `dst`.
pub fn extend(dst: &mut Vec<char>, src: &Vec<char>)
    ensures
        final(dst)@ == old(dst)@ + src@,
{
    let mut i: usize = 0;
    assert(dst@ =~= old(dst)@ + src@.take(0));
    while i < src.len()
        invariant
            i <= src.len(),
            dst@ == old(dst)@ + src@.take(i as int),
        decreases src.len() - i,
    {
        dst.push(src[i]);
        i += 1;
        assert(dst@ =~= old(dst)@ + src@.take(i as int));
    }
    assert(src@.take(src.len() as int) =~= src@);
}

// ---------------------------------------------------------------------------
// Character classes and searching
// ---------------------------------------------------------------------------

/// Unicode white space, as `char::is_whitespace` defines it.
pub open spec fn is_space(c: char) -> bool {
    let u = c as u32;
    (0x09 <= u <= 0x0D) || u == 0x20 || u == 0x85 || u == 0xA0 || u == 0x1680 || (0x2000 <= u
        <= 0x200A) || u == 0x2028 || u == 0x2029 || u == 0x202F || u == 0x205F || u == 0x3000
}

/// Executable form of [`is_space`].
pub fn is_space_char(c: char) -> (r: bool)
    ensures
        r == is_space(c),
{
    let u: u32 = c as u32;
    (0x09 <= u && u <= 0x0D) || u == 0x20 || u == 0x85 || u == 0xA0 || u == 0x1680 || (0x2000 <= u
        && u <= 0x200A) || u == 0x2028 || u == 0x2029 || u == 0x202F || u == 0x205F || u == 0x3000
}

/// A set of characters to search for.
#[derive(Clone, Copy, Debug)]
pub enum CharClass {
    /// Exactly this character.
    Is(char),
    /// Any white space.
    Space,
    /// Anything but white space.
    NonSpace,
    /// Anything but this character.
    Not(char),
}

impl CharClass {
    /// Whether `c` belongs to the class.
    pub open spec fn holds(self, c: char) -> bool {
        match self {
            CharClass::Is(x) => c == x,
            CharClass::Space => is_space(c),
            CharClass::NonSpace => !is_space(c),
            CharClass::Not(x) => c != x,
        }
    }

    /// Executable form of [`CharClass::holds`].
    pub fn test(self, c: char) -> (r: bool)
        ensures
            r == self.holds(c),
    {
        match self {
            CharClass::Is(x) => c == x,
            CharClass::Space => is_space_char(c),
            CharClass::NonSpace => !is_space_char(c),
            CharClass::Not(x) => c != x,
        }
    }
}

/// Index of the first character of `s` in `cls`, or `s.len()` if there is none.
pub open spec fn first_match(s: Seq<char>, cls: CharClass) -> int
    decreases s.len(),
{
    if s.len() == 0 {
        0
    } else if cls.holds(s[0]) {
        0
    } else {
        1 + first_match(s.drop_first(), cls)
    }
}

/// `first_match` is in range, nothing before it matches, and it matches if it
/// is a position of `s`.
pub proof fn lemma_first_match(s: Seq<char>, cls: CharClass)
    ensures
        0 <= first_match(s, cls) <= s.len(),
        forall|j: int| 0 <= j < first_match(s, cls) ==> !cls.holds(#[trigger] s[j]),
        first_match(s, cls) < s.len() ==> cls.holds(s[first_match(s, cls)]),
    decreases s.len(),
{
    if s.len() != 0 && !cls.holds(s[0]) {
        let t = s.drop_first();
        lemma_first_match(t, cls);
        assert forall|j: int| 0 <= j < first_match(s, cls) implies !cls.holds(#[trigger] s[j]) by {
            if j > 0 {
                assert(s[j] == t[j - 1]);
            }
        }
        assert(s[first_match(s, cls)] == t[first_match(t, cls)] || first_match(t, cls) >= t.len());
    }
}

/// Any position with the properties of `first_match` is `first_match`.
pub proof fn lemma_first_match_unique(s: Seq<char>, cls: CharClass, k: int)
    requires
        0 <= k <= s.len(),
        forall|j: int| 0 <= j < k ==> !cls.holds(#[trigger] s[j]),
        k < s.len() ==> cls.holds(s[k]),
    ensures
        first_match(s, cls) == k,
    decreases s.len(),
{
    if s.len() != 0 {
        if cls.holds(s[0]) {
            assert(k == 0);
        } else {
            let t = s.drop_first();
            assert(k > 0);
            assert forall|j: int| 0 <= j < k - 1 implies !cls.holds(#[trigger] t[j]) by {
                assert(t[j] == s[j + 1]);
            }
            lemma_first_match_unique(t, cls, k - 1);
        }
    }
}

/// Position of the first character in `cls` at or after `from`, or `v.len()`.
pub fn find(v: &Vec<char>, from: usize, cls: CharClass) -> (r: usize)
    requires
        from <= v.len(),
    ensures
        from <= r <= v.len(),
        r == from + first_match(v@.skip(from as int), cls),
{
    let mut i: usize = from;
    while i < v.len() && !cls.test(v[i])
        invariant
            from <= i <= v.len(),
            forall|j: int| from <= j < i ==> !cls.holds(#[trigger] v@[j]),
        decreases v.len() - i,
    {
        i += 1;
    }
    proof {
        let t = v@.skip(from as int);
        assert forall|j: int| 0 <= j < i - from implies !cls.holds(#[trigger] t[j]) by {
            assert(t[j] == v@[from + j]);
        }
        lemma_first_match_unique(t, cls, i - from);
    }
    i
}

// ---------------------------------------------------------------------------
// Trimming
// ---------------------------------------------------------------------------

/// `s` without its leading white space.
pub open spec fn trim_start(s: Seq<char>) -> Seq<char> {
    s.skip(first_match(s, CharClass::NonSpace))
}

/// `s` without its trailing white space.
pub open spec fn trim_end(s: Seq<char>) -> Seq<char>
    decreases s.len(),
{
    if s.len() > 0 && is_space(s.last()) {
        trim_end(s.drop_last())
    } else {
        s
    }
}

/// `s` without leading and trailing white space.
pub open spec fn trimmed(s: Seq<char>) -> Seq<char> {
    trim_end(trim_start(s))
}

/// Removes leading and trailing white space.
pub fn trim(v: &Vec<char>) -> (out: Vec<char>)
    ensures
        out@ == trimmed(v@),
{
    let start = find(v, 0, CharClass::NonSpace);
    assert(v@.skip(0) =~= v@);
    let mut end: usize = v.len();
    assert(v@.subrange(start as int, end as int) =~= trim_start(v@));
    while end > start && is_space_char(v[end - 1])
        invariant
            start <= end <= v.len(),
            trim_end(v@.subrange(start as int, end as int)) == trimmed(v@),
        decreases end,
    {
        proof {
            let cur = v@.subrange(start as int, end as int);
            assert(cur.last() == v@[end - 1]);
            assert(cur.drop_last() =~= v@.subrange(start as int, end - 1));
        }
        end -= 1;
    }
    proof {
        let cur = v@.subrange(start as int, end as int);
        if end > start {
            assert(cur.last() == v@[end - 1]);
        }
    }
    slice(v, start, end)
}

// ---------------------------------------------------------------------------
// Splitting
// ---------------------------------------------------------------------------

/// The pieces of `s` between occurrences of `sep`; never empty.
pub open spec fn split(s: Seq<char>, sep: char) -> Seq<Seq<char>>
    decreases s.len(),
{
    let k = first_match(s, CharClass::Is(sep));
    if k < 0 || k >= s.len() {
        seq![s]
    } else {
        seq![s.take(k)] + split(s.skip(k + 1), sep)
    }
}

/// A split has at least one piece.
pub proof fn lemma_split_nonempty(s: Seq<char>, sep: char)
    ensures
        split(s, sep).len() >= 1,
{
}

/// At most two pieces: what stands before the first `sep`, and the rest.
pub open spec fn split_once(s: Seq<char>, sep: char) -> Seq<Seq<char>> {
    let k = first_match(s, CharClass::Is(sep));
    if k < 0 || k >= s.len() {
        seq![s]
    } else {
        seq![s.take(k), s.skip(k + 1)]
    }
}

/// The maximal runs of characters of `s` that are not white space.
pub open spec fn words(s: Seq<char>) -> Seq<Seq<char>>
    decreases s.len(),
{
    let a = first_match(s, CharClass::NonSpace);
    if a < 0 || a >= s.len() {
        Seq::empty()
    } else {
        let t = s.skip(a);
        let n = first_match(t, CharClass::Space);
        if n <= 0 || n > t.len() {
            Seq::empty()
        } else {
            seq![t.take(n)] + words(t.skip(n))
        }
    }
}

/// `s` without one trailing carriage return.
pub open spec fn strip_cr(s: Seq<char>) -> Seq<char> {
    if s.len() > 0 && s.last() == '\r' {
        s.drop_last()
    } else {
        s
    }
}

/// The lines of `s`: pieces ended by a line feed, each without its line feed
/// and without a carriage return before it; a final piece that no line feed
/// ends is a line too, unless it is empty.
pub open spec fn lines(s: Seq<char>) -> Seq<Seq<char>>
    decreases s.len(),
{
    if s.len() == 0 {
        Seq::empty()
    } else {
        let k = first_match(s, CharClass::Is('\n'));
        if k < 0 || k >= s.len() {
            seq![s]
        } else {
            seq![strip_cr(s.take(k))] + lines(s.skip(k + 1))
        }
    }
}

/// Splits `v` at every `sep`.
pub fn split_at_char(v: &Vec<char>, sep: char) -> (out: Vec<Vec<char>>)
    ensures
        views(out@) == split(v@, sep),
{
    let mut out: Vec<Vec<char>> = Vec::new();
    let mut start: usize = 0;
    assert(v@.skip(0) =~= v@);
    assert(views(out@) + split(v@.skip(0), sep) =~= split(v@, sep));
    loop
        invariant_except_break
            start <= v.len(),
            views(out@) + split(v@.skip(start as int), sep) == split(v@, sep),
        ensures
            views(out@) == split(v@, sep),
        decreases v.len() - start,
    {
        let k = find(v, start, CharClass::Is(sep));
        let ghost rest = v@.skip(start as int);
        let ghost before = views(out@);
        if k >= v.len() {
            let piece = slice(v, start, v.len());
            out.push(piece);
            proof {
                assert(piece@ =~= rest);
                assert(split(rest, sep) == seq![rest]);
                assert(views(out@) =~= before + seq![rest]);
            }
            break ;
        }
        let piece = slice(v, start, k);
        out.push(piece);
        proof {
            assert(piece@ =~= rest.take(k - start));
            assert(rest.skip(k - start + 1) =~= v@.skip(k + 1));
            assert(split(rest, sep) == seq![rest.take(k - start)] + split(v@.skip(k + 1), sep));
            assert(views(out@) =~= before + seq![rest.take(k - start)]);
            assert(views(out@) + split(v@.skip(k + 1), sep) =~= before + split(rest, sep));
        }
        start = k + 1;
    }
    out
}

/// Splits `v` at its first `sep`, if it has one.
pub fn split_once_at(v: &Vec<char>, sep: char) -> (out: Vec<Vec<char>>)
    ensures
        views(out@) == split_once(v@, sep),
{
    let mut out: Vec<Vec<char>> = Vec::new();
    assert(v@.skip(0) =~= v@);
    let k = find(v, 0, CharClass::Is(sep));
    if k >= v.len() {
        let piece = slice(v, 0, v.len());
        assert(piece@ =~= v@);
        out.push(piece);
        assert(views(out@) =~= seq![v@]);
    } else {
        let a = slice(v, 0, k);
        let b = slice(v, k + 1, v.len());
        assert(a@ =~= v@.take(k as int));
        assert(b@ =~= v@.skip(k + 1));
        out.push(a);
        out.push(b);
        assert(views(out@) =~= seq![v@.take(k as int), v@.skip(k + 1)]);
    }
    out
}

/// Splits `v` into its words.
pub fn split_words(v: &Vec<char>) -> (out: Vec<Vec<char>>)
    ensures
        views(out@) == words(v@),
{
    let mut out: Vec<Vec<char>> = Vec::new();
    let mut start: usize = 0;
    assert(v@.skip(0) =~= v@);
    assert(views(out@) + words(v@.skip(0)) =~= words(v@));
    loop
        invariant_except_break
            start <= v.len(),
            views(out@) + words(v@.skip(start as int)) == words(v@),
        ensures
            views(out@) == words(v@),
        decreases v.len() - start,
    {
        let ghost rest = v@.skip(start as int);
        let ghost before = views(out@);
        let a = find(v, start, CharClass::NonSpace);
        if a >= v.len() {
            proof {
                assert(words(rest) =~= Seq::<Seq<char>>::empty());
                assert(before + words(rest) =~= before);
            }
            break ;
        }
        let b = find(v, a, CharClass::Space);
        proof {
            let t = rest.skip(a - start);
            assert(t =~= v@.skip(a as int));
            lemma_first_match(rest, CharClass::NonSpace);
            assert(rest[a - start] == v@[a as int]);
            assert(t[0] == v@[a as int]);
            lemma_first_match(t, CharClass::Space);
            assert(b > a) by {
                if b == a {
                    assert(CharClass::Space.holds(t[0]));
                }
            }
        }
        let piece = slice(v, a, b);
        out.push(piece);
        proof {
            let t = rest.skip(a - start);
            assert(piece@ =~= t.take(b - a));
            assert(t.skip(b - a) =~= v@.skip(b as int));
            assert(words(rest) == seq![t.take(b - a)] + words(v@.skip(b as int)));
            assert(views(out@) =~= before + seq![t.take(b - a)]);
            assert(views(out@) + words(v@.skip(b as int)) =~= before + words(rest));
        }
        start = b;
    }
    out
}

/// Splits `v` into its lines.
pub fn split_lines(v: &Vec<char>) -> (out: Vec<Vec<char>>)
    ensures
        views(out@) == lines(v@),
{
    let mut out: Vec<Vec<char>> = Vec::new();
    let mut start: usize = 0;
    assert(v@.skip(0) =~= v@);
    assert(views(out@) + lines(v@.skip(0)) =~= lines(v@));
    loop
        invariant_except_break
            start <= v.len(),
            views(out@) + lines(v@.skip(start as int)) == lines(v@),
        ensures
            views(out@) == lines(v@),
        decreases v.len() - start,
    {
        let ghost rest = v@.skip(start as int);
        let ghost before = views(out@);
        if start >= v.len() {
            proof {
                assert(lines(rest) =~= Seq::<Seq<char>>::empty());
                assert(before + lines(rest) =~= before);
            }
            break ;
        }
        let k = find(v, start, CharClass::Is('\n'));
        if k >= v.len() {
            let piece = slice(v, start, v.len());
            out.push(piece);
            proof {
                assert(piece@ =~= rest);
                assert(lines(rest) == seq![rest]);
                assert(views(out@) =~= before + seq![rest]);
            }
            break ;
        }
        let end: usize = if k > start && v[k - 1] == '\r' {
            k - 1
        } else {
            k
        };
        let piece = slice(v, start, end);
        out.push(piece);
        proof {
            let raw = rest.take(k - start);
            assert(raw =~= v@.subrange(start as int, k as int));
            if k > start {
                assert(raw.last() == v@[k - 1]);
            }
            assert(piece@ =~= strip_cr(raw));
            assert(rest.skip(k - start + 1) =~= v@.skip(k + 1));
            assert(lines(rest) == seq![strip_cr(raw)] + lines(v@.skip(k + 1)));
            assert(views(out@) =~= before + seq![strip_cr(raw)]);
            assert(views(out@) + lines(v@.skip(k + 1)) =~= before + lines(rest));
        }
        start = k + 1;
    }
    out
}

/// `s` without the run of `c` at its start.
pub open spec fn strip_leading(s: Seq<char>, c: char) -> Seq<char> {
    s.skip(first_match(s, CharClass::Not(c)))
}

/// Removes every `c` at the start of `v`.
pub fn strip_leading_char(v: &Vec<char>, c: char) -> (out: Vec<char>)
    ensures
        out@ == strip_leading(v@, c),
{
    assert(v@.skip(0) =~= v@);
    let k = find(v, 0, CharClass::Not(c));
    let out = slice(v, k, v.len());
    assert(out@ =~= v@.skip(k as int));
    out
}

/// `s` with every match of `from` replaced by `to`, matches being looked for
/// from left to right and never overlapping. `from` is not empty.
pub open spec fn replaced(s: Seq<char>, from: Seq<char>, to: Seq<char>) -> Seq<char>
    decreases s.len(),
{
    if from.len() == 0 || s.len() < from.len() {
        s
    } else if s.take(from.len() as int) == from {
        to + replaced(s.skip(from.len() as int), from, to)
    } else {
        seq![s[0]] + replaced(s.drop_first(), from, to)
    }
}

/// Replaces every match of `from` by `to`.
pub fn replace(v: &Vec<char>, from: &Vec<char>, to: &Vec<char>) -> (out: Vec<char>)
    requires
        from.len() > 0,
    ensures
        out@ == replaced(v@, from@, to@),
{
    let mut out: Vec<char> = Vec::new();
    let mut i: usize = 0;
    assert(v@.skip(0) =~= v@);
    assert(out@ + replaced(v@.skip(0), from@, to@) =~= replaced(v@, from@, to@));
    while i < v.len()
        invariant
            i <= v.len(),
            from.len() > 0,
            out@ + replaced(v@.skip(i as int), from@, to@) == replaced(v@, from@, to@),
        decreases v.len() - i,
    {
        let ghost rest = v@.skip(i as int);
        let ghost before = out@;
        if matches_at(v, from, i) {
            extend(&mut out, to);
            proof {
                assert(rest.take(from.len() as int) =~= v@.subrange(i as int, i + from.len()));
                assert(rest.skip(from.len() as int) =~= v@.skip(i + from.len()));
                assert(out@ + replaced(v@.skip(i + from.len()), from@, to@) =~= before + replaced(
                    rest,
                    from@,
                    to@,
                ));
            }
            i += from.len();
        } else {
            out.push(v[i]);
            proof {
                if rest.len() >= from.len() {
                    assert(rest.take(from.len() as int) =~= v@.subrange(i as int, i + from.len()));
                }
                assert(rest.drop_first() =~= v@.skip(i + 1));
                assert(rest[0] == v@[i as int]);
                assert(out@ + replaced(v@.skip(i + 1), from@, to@) =~= before + replaced(
                    rest,
                    from@,
                    to@,
                ));
            }
            i += 1;
        }
    }
    proof {
        assert(v@.skip(i as int).len() == 0);
        assert(out@ + replaced(v@.skip(i as int), from@, to@) =~= out@);
    }
    out
}

/// The pieces of `list` in a row, with `sep` between neighbours.
pub open spec fn joined_with(list: Seq<Seq<char>>, sep: Seq<char>) -> Seq<char>
    decreases list.len(),
{
    if list.len() == 0 {
        Seq::empty()
    } else if list.len() == 1 {
        list[0]
    } else {
        joined_with(list.drop_last(), sep) + sep + list.last()
    }
}

/// Joins strings, with `sep` between neighbours.
pub fn join_strings(list: &Vec<String>, sep: &str) -> (out: String)
    ensures
        out@ == joined_with(str_views(list@), sep@),
{
    let mut out = String::new();
    let mut i: usize = 0;
    let ghost all = str_views(list@);
    assert(all.take(0) =~= Seq::<Seq<char>>::empty());
    while i < list.len()
        invariant
            i <= list.len(),
            all == str_views(list@),
            out@ == joined_with(all.take(i as int), sep@),
        decreases list.len() - i,
    {
        let ghost prev = all.take(i as int);
        if i > 0 {
            out.append(sep);
        }
        out.append(list[i].as_str());
        proof {
            let next = all.take(i + 1);
            assert(next.drop_last() =~= prev);
            assert(next.last() == list@[i as int]@);
            if i == 0 {
                assert(prev.len() == 0);
                assert(out@ =~= list@[i as int]@);
            }
        }
        i += 1;
    }
    assert(all.take(list.len() as int) =~= all);
    out
}

// ---------------------------------------------------------------------------
// Prefixes, containment, letter case
// ---------------------------------------------------------------------------

/// Whether `s` begins with `p`.
pub open spec fn has_prefix(s: Seq<char>, p: Seq<char>) -> bool {
    p.len() <= s.len() && s.take(p.len() as int) == p
}

/// Whether `p` occurs in `s` at position `i`.
pub open spec fn occurs_at(s: Seq<char>, p: Seq<char>, i: int) -> bool {
    0 <= i && i + p.len() <= s.len() && s.subrange(i, i + p.len()) == p
}

/// Whether `p` occurs somewhere in `s`.
pub open spec fn has_infix(s: Seq<char>, p: Seq<char>) -> bool {
    exists|i: int| occurs_at(s, p, i)
}

/// Whether `p` stands in `v` at position `at`.
pub fn matches_at(v: &Vec<char>, p: &Vec<char>, at: usize) -> (r: bool)
    requires
        at <= v.len(),
    ensures
        r == occurs_at(v@, p@, at as int),
{
    if p.len() > v.len() - at {
        return false;
    }
    let mut i: usize = 0;
    while i < p.len()
        invariant
            i <= p.len(),
            at + p.len() <= v.len(),
            forall|j: int| 0 <= j < i ==> v@[at + j] == p@[j],
        decreases p.len() - i,
    {
        if v[at + i] != p[i] {
            proof {
                let w = v@.subrange(at as int, at + p.len());
                assert(w[i as int] == v@[at + i]);
            }
            return false;
        }
        i += 1;
    }
    assert(v@.subrange(at as int, at + p.len()) =~= p@);
    true
}

/// Whether `v` begins with `p`.
pub fn starts_with(v: &Vec<char>, p: &Vec<char>) -> (r: bool)
    ensures
        r == has_prefix(v@, p@),
{
    let r = matches_at(v, p, 0);
    proof {
        if p.len() <= v.len() {
            assert(v@.take(p.len() as int) =~= v@.subrange(0, 0 + p.len()));
        }
    }
    r
}

/// Whether `p` occurs in `v`.
pub fn contains(v: &Vec<char>, p: &Vec<char>) -> (r: bool)
    ensures
        r == has_infix(v@, p@),
{
    let mut i: usize = 0;
    while i < v.len()
        invariant
            i <= v.len(),
            forall|j: int| 0 <= j < i ==> !occurs_at(v@, p@, j),
        decreases v.len() - i,
    {
        if matches_at(v, p, i) {
            return true;
        }
        i += 1;
    }
    matches_at(v, p, i)
}

/// The lower-case form of an ASCII capital; any other character unchanged.
pub open spec fn lower_char(c: char) -> char {
    if 'A' <= c <= 'Z' {
        ((c as u8 + 32) as u8) as char
    } else {
        c
    }
}

/// The upper-case form of an ASCII small letter; any other character unchanged.
pub open spec fn upper_char(c: char) -> char {
    if 'a' <= c <= 'z' {
        ((c as u8 - 32) as u8) as char
    } else {
        c
    }
}

/// `s` with its ASCII capitals made small.
pub open spec fn lower(s: Seq<char>) -> Seq<char> {
    Seq::new(s.len(), |i: int| lower_char(s[i]))
}

/// `s` with its ASCII small letters made capital.
pub open spec fn upper(s: Seq<char>) -> Seq<char> {
    Seq::new(s.len(), |i: int| upper_char(s[i]))
}

/// Executable form of [`lower_char`].
pub fn to_lower_char(c: char) -> (r: char)
    ensures
        r == lower_char(c),
{
    if 'A' <= c && c <= 'Z' {
        let b: u8 = c as u8;
        (b + 32) as char
    } else {
        c
    }
}

/// Executable form of [`upper_char`].
pub fn to_upper_char(c: char) -> (r: char)
    ensures
        r == upper_char(c),
{
    if 'a' <= c && c <= 'z' {
        let b: u8 = c as u8;
        (b - 32) as char
    } else {
        c
    }
}

/// Executable form of [`lower`].
pub fn to_lower(v: &Vec<char>) -> (out: Vec<char>)
    ensures
        out@ == lower(v@),
{
    let mut out: Vec<char> = Vec::new();
    let mut i: usize = 0;
    while i < v.len()
        invariant
            i <= v.len(),
            out.len() == i,
            forall|j: int| 0 <= j < i ==> out@[j] == lower_char(v@[j]),
        decreases v.len() - i,
    {
        out.push(to_lower_char(v[i]));
        i += 1;
    }
    assert(out@ =~= lower(v@));
    out
}

/// Executable form of [`upper`].
pub fn to_upper(v: &Vec<char>) -> (out: Vec<char>)
    ensures
        out@ == upper(v@),
{
    let mut out: Vec<char> = Vec::new();
    let mut i: usize = 0;
    while i < v.len()
        invariant
            i <= v.len(),
            out.len() == i,
            forall|j: int| 0 <= j < i ==> out@[j] == upper_char(v@[j]),
        decreases v.len() - i,
    {
        out.push(to_upper_char(v[i]));
        i += 1;
    }
    assert(out@ =~= upper(v@));
    out
}

/// Whether two character vectors hold the same characters.
pub fn same_chars(a: &Vec<char>, b: &Vec<char>) -> (r: bool)
    ensures
        r == (a@ == b@),
{
    if a.len() != b.len() {
        return false;
    }
    let r = matches_at(a, b, 0);
    assert(a@.subrange(0, 0 + b.len()) =~= a@);
    r
}

/// Whether the characters of `v` are those of `s`.
pub fn is_text(v: &Vec<char>, s: &str) -> (r: bool)
    ensures
        r == (v@ == s@),
{
    let w = chars_of(s);
    if v.len() != w.len() {
        return false;
    }
    let r = matches_at(v, &w, 0);
    assert(v@.subrange(0, 0 + w.len()) =~= v@);
    r
}

} // verus!
