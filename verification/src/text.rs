//! Text as sequences of characters: the searches, trims and replacements that
//! the extraction rules are written in, each with its meaning as a function on
//! `Seq<char>`.

use vstd::prelude::*;

verus! {

/// Appending one character to a `String` (`String::push`).
pub assume_specification[ String::push ](s: &mut String, c: char)
    ensures
        final(s)@ == old(s)@.push(c),
;

/// The characters of a string slice, in order.
pub fn chars_of(s: &str) -> (v: Vec<char>)
    ensures
        v@ == s@,
{
    let mut v: Vec<char> = Vec::new();
    for c in it: s.chars()
        invariant
            v@ == it.seq().take(it.index() as int),
            it.seq() == s@,
    {
        v.push(c);
    }
    v
}

/// The string made of the given characters.
pub fn string_of(chars: &Vec<char>) -> (s: String)
    ensures
        s@ == chars@,
{
    let mut s = String::new();
    let mut i: usize = 0;
    while i < chars.len()
        invariant
            i <= chars.len(),
            s@ == chars@.take(i as int),
        decreases chars.len() - i,
    {
        s.push(chars[i]);
        i += 1;
    }
    s
}

/// A copy of the characters at positions `from..to`.
pub fn slice_of(chars: &Vec<char>, from: usize, to: usize) -> (v: Vec<char>)
    requires
        from <= to <= chars.len(),
    ensures
        v@ == chars@.subrange(from as int, to as int),
{
    let mut v: Vec<char> = Vec::new();
    let mut i: usize = from;
    while i < to
        invariant
            from <= i <= to <= chars.len(),
            v@ == chars@.subrange(from as int, i as int),
        decreases to - i,
    {
        v.push(chars[i]);
        i += 1;
    }
    v
}

/// Appends the characters of `tail` to `out`.
pub fn append(out: &mut Vec<char>, tail: &Vec<char>)
    ensures
        final(out)@ == old(out)@ + tail@,
{
    let mut i: usize = 0;
    while i < tail.len()
        invariant
            i <= tail.len(),
            out@ == old(out)@ + tail@.take(i as int),
        decreases tail.len() - i,
    {
        out.push(tail[i]);
        i += 1;
    }
}

/// Whether two texts hold the same characters.
pub fn same_text(a: &Vec<char>, b: &Vec<char>) -> (r: bool)
    ensures
        r == (a@ == b@),
{
    if a.len() != b.len() {
        return false;
    }
    let mut i: usize = 0;
    while i < a.len()
        invariant
            i <= a.len(),
            a.len() == b.len(),
            a@.take(i as int) == b@.take(i as int),
        decreases a.len() - i,
    {
        if a[i] != b[i] {
            return false;
        }
        assert(a@.take(i + 1) == a@.take(i as int).push(a@[i as int]));
        assert(b@.take(i + 1) == b@.take(i as int).push(b@[i as int]));
        i += 1;
    }
    assert(a@ == a@.take(a.len() as int));
    assert(b@ == b@.take(b.len() as int));
    true
}

/// The characters with the Unicode property `White_Space`.
pub open spec fn is_whitespace(c: char) -> bool {
    let n = c as u32;
    ||| 0x09 <= n <= 0x0D
    ||| n == 0x20
    ||| n == 0x85
    ||| n == 0xA0
    ||| n == 0x1680
    ||| 0x2000 <= n <= 0x200A
    ||| n == 0x2028
    ||| n == 0x2029
    ||| n == 0x202F
    ||| n == 0x205F
    ||| n == 0x3000
}

/// Whether `c` is white space.
pub fn is_space(c: char) -> (r: bool)
    ensures
        r == is_whitespace(c),
{
    let n: u32 = c as u32;
    (0x09 <= n && n <= 0x0D) || n == 0x20 || n == 0x85 || n == 0xA0 || n == 0x1680 || (0x2000 <= n
        && n <= 0x200A) || n == 0x2028 || n == 0x2029 || n == 0x202F || n == 0x205F || n
        == 0x3000
}

/// `s` without its leading white space.
pub open spec fn trim_start(s: Seq<char>) -> Seq<char>
    decreases s.len(),
{
    if s.len() > 0 && is_whitespace(s[0]) {
        trim_start(s.subrange(1, s.len() as int))
    } else {
        s
    }
}

/// `s` without its trailing white space.
pub open spec fn trim_end(s: Seq<char>) -> Seq<char>
    decreases s.len(),
{
    if s.len() > 0 && is_whitespace(s.last()) {
        trim_end(s.drop_last())
    } else {
        s
    }
}

/// `s` without leading and trailing white space.
pub open spec fn trim(s: Seq<char>) -> Seq<char> {
    trim_end(trim_start(s))
}

/// The text without the white space at both ends.
pub fn trimmed(chars: &Vec<char>) -> (v: Vec<char>)
    ensures
        v@ == trim(chars@),
{
    let n = chars.len();
    let mut from: usize = 0;
    assert(chars@.subrange(0, n as int) == chars@);
    while from < n && is_space(chars[from])
        invariant
            from <= n == chars.len(),
            trim_start(chars@) == trim_start(chars@.subrange(from as int, n as int)),
        decreases n - from,
    {
        assert(chars@.subrange(from as int, n as int).subrange(1, n - from) == chars@.subrange(
            from + 1,
            n as int,
        ));
        from += 1;
    }
    let mut to: usize = n;
    while to > from && is_space(chars[to - 1])
        invariant
            from <= to <= n == chars.len(),
            trim(chars@) == trim_end(chars@.subrange(from as int, to as int)),
        decreases to,
    {
        assert(chars@.subrange(from as int, to as int).drop_last() == chars@.subrange(
            from as int,
            to - 1,
        ));
        to -= 1;
    }
    slice_of(chars, from, to)
}

/// Whether `pattern` stands in `s` at position `at`.
pub open spec fn occurs_at(s: Seq<char>, pattern: Seq<char>, at: int) -> bool {
    &&& 0 <= at
    &&& at + pattern.len() <= s.len()
    &&& s.subrange(at, at + pattern.len()) == pattern
}

/// Whether `pattern` stands somewhere in `s`.
pub open spec fn contains(s: Seq<char>, pattern: Seq<char>) -> bool {
    exists|at: int| occurs_at(s, pattern, at)
}

/// Whether `s` begins with `pattern`.
pub open spec fn starts_with(s: Seq<char>, pattern: Seq<char>) -> bool {
    occurs_at(s, pattern, 0)
}

/// Whether `pattern` stands in the text at position `at`.
pub fn found_at(chars: &Vec<char>, pattern: &Vec<char>, at: usize) -> (r: bool)
    ensures
        r == occurs_at(chars@, pattern@, at as int),
{
    let m = pattern.len();
    if at > chars.len() || m > chars.len() - at {
        return false;
    }
    let mut j: usize = 0;
    while j < m
        invariant
            j <= m == pattern.len(),
            at + m <= chars.len(),
            chars@.subrange(at as int, at + j) == pattern@.take(j as int),
        decreases m - j,
    {
        if chars[at + j] != pattern[j] {
            assert(chars@.subrange(at as int, at + m)[j as int] != pattern@[j as int]);
            return false;
        }
        assert(chars@.subrange(at as int, at + j + 1) == chars@.subrange(at as int, at + j).push(
            chars@[at + j],
        ));
        assert(pattern@.take(j + 1) == pattern@.take(j as int).push(pattern@[j as int]));
        j += 1;
    }
    assert(pattern@.take(m as int) == pattern@);
    true
}

/// Whether the text begins with `pattern`.
pub fn begins_with(chars: &Vec<char>, pattern: &Vec<char>) -> (r: bool)
    ensures
        r == starts_with(chars@, pattern@),
{
    found_at(chars, pattern, 0)
}

/// Whether `pattern` stands somewhere in the text.
pub fn has(chars: &Vec<char>, pattern: &Vec<char>) -> (r: bool)
    ensures
        r == contains(chars@, pattern@),
{
    let n = chars.len();
    let m = pattern.len();
    if m > n {
        return false;
    }
    let last: usize = n - m;
    let mut at: usize = 0;
    while at < last
        invariant
            at <= last,
            forall|k: int| 0 <= k < at ==> !occurs_at(chars@, pattern@, k),
        decreases last - at,
    {
        if found_at(chars, pattern, at) {
            return true;
        }
        at += 1;
    }
    found_at(chars, pattern, last)
}

/// `s` with every occurrence of `pattern` taken out, going from left to right
/// and going on behind each occurrence.
pub open spec fn without(s: Seq<char>, pattern: Seq<char>) -> Seq<char>
    decreases s.len(),
{
    if s.len() == 0 {
        s
    } else if pattern.len() > 0 && occurs_at(s, pattern, 0) {
        without(s.subrange(pattern.len() as int, s.len() as int), pattern)
    } else {
        seq![s[0]] + without(s.subrange(1, s.len() as int), pattern)
    }
}

/// The text with every occurrence of `pattern` taken out.
pub fn removed(chars: &Vec<char>, pattern: &Vec<char>) -> (v: Vec<char>)
    ensures
        v@ == without(chars@, pattern@),
{
    let n = chars.len();
    let m = pattern.len();
    let mut v: Vec<char> = Vec::new();
    let mut i: usize = 0;
    assert(chars@.subrange(0, n as int) == chars@);
    while i < n
        invariant
            i <= n == chars.len(),
            m == pattern.len(),
            without(chars@, pattern@) == v@ + without(
                chars@.subrange(i as int, n as int),
                pattern@,
            ),
        decreases n - i,
    {
        let ghost rest = chars@.subrange(i as int, n as int);
        if m > 0 && found_at(chars, pattern, i) {
            assert(rest.subrange(0, m as int) == chars@.subrange(i as int, i + m));
            assert(rest.subrange(m as int, rest.len() as int) == chars@.subrange(
                i + m,
                n as int,
            ));
            i += m;
        } else {
            assert(m > 0 && i + m <= n ==> rest.subrange(0, m as int) == chars@.subrange(
                i as int,
                i + m,
            ));
            assert(rest.subrange(1, rest.len() as int) == chars@.subrange(i + 1, n as int));
            assert(v@.push(chars@[i as int]) + without(
                chars@.subrange(i + 1, n as int),
                pattern@,
            ) == v@ + (seq![rest[0]] + without(rest.subrange(1, rest.len() as int), pattern@)));
            v.push(chars[i]);
            i += 1;
        }
    }
    assert(v@ + Seq::<char>::empty() == v@);
    v
}

/// `s` with each `from` turned into `to`.
pub open spec fn swap_char(s: Seq<char>, from: char, to: char) -> Seq<char> {
    Seq::new(
        s.len(),
        |i: int|
            if s[i] == from {
                to
            } else {
                s[i]
            },
    )
}

/// The text with each `from` turned into `to`.
pub fn swapped(chars: &Vec<char>, from: char, to: char) -> (v: Vec<char>)
    ensures
        v@ == swap_char(chars@, from, to),
{
    let mut v: Vec<char> = Vec::new();
    let mut i: usize = 0;
    while i < chars.len()
        invariant
            i <= chars.len(),
            v@ == swap_char(chars@, from, to).take(i as int),
        decreases chars.len() - i,
    {
        if chars[i] == from {
            v.push(to);
        } else {
            v.push(chars[i]);
        }
        i += 1;
    }
    v
}

/// The texts behind a run of strings, in order.
pub open spec fn texts_of(parts: Seq<String>) -> Seq<Seq<char>> {
    parts.map_values(|part: String| part@)
}

/// The parts one after the other, with `separator` between each two.
pub open spec fn join(parts: Seq<Seq<char>>, separator: Seq<char>) -> Seq<char>
    decreases parts.len(),
{
    if parts.len() == 0 {
        Seq::empty()
    } else if parts.len() == 1 {
        parts[0]
    } else {
        join(parts.drop_last(), separator) + separator + parts.last()
    }
}

/// The strings one after the other, with `separator` between each two.
pub fn joined(parts: &Vec<String>, separator: &str) -> (v: Vec<char>)
    ensures
        v@ == join(texts_of(parts@), separator@),
{
    let mut v: Vec<char> = Vec::new();
    let between = chars_of(separator);
    let mut i: usize = 0;
    assert(texts_of(parts@).take(0) == Seq::<Seq<char>>::empty());
    while i < parts.len()
        invariant
            i <= parts.len(),
            between@ == separator@,
            v@ == join(texts_of(parts@).take(i as int), separator@),
        decreases parts.len() - i,
    {
        let ghost done = texts_of(parts@).take(i as int);
        let ghost next = texts_of(parts@).take(i + 1);
        assert(next.drop_last() == done);
        assert(next.last() == parts@[i as int]@);
        if i > 0 {
            append(&mut v, &between);
        }
        let part = chars_of(parts[i].as_str());
        append(&mut v, &part);
        assert(i == 0 ==> Seq::<char>::empty() + part@ == part@);
        i += 1;
    }
    assert(texts_of(parts@).take(parts.len() as int) == texts_of(parts@));
    v
}

/// The lines of a text: what stands between its line feeds. A text with `n`
/// line feeds has `n + 1` lines, of which any may be empty.
pub open spec fn lines(s: Seq<char>) -> Seq<Seq<char>>
    decreases s.len(),
{
    if s.len() == 0 {
        seq![Seq::empty()]
    } else {
        let before = lines(s.drop_last());
        if s.last() == '\n' {
            before.push(Seq::empty())
        } else {
            before.drop_last().push(before.last().push(s.last()))
        }
    }
}

/// The lines of the text, each as a string.
pub fn split_lines(chars: &Vec<char>) -> (parts: Vec<Vec<char>>)
    ensures
        parts@.map_values(|part: Vec<char>| part@) == lines(chars@),
{
    let ghost view = |part: Vec<char>| part@;
    let n = chars.len();
    let mut parts: Vec<Vec<char>> = Vec::new();
    let mut start: usize = 0;
    let mut i: usize = 0;
    assert(chars@.take(0) == Seq::<char>::empty());
    assert(parts@.map_values(view) == Seq::<Seq<char>>::empty());
    assert(seq![Seq::<char>::empty()].drop_last() == Seq::<Seq<char>>::empty());
    assert(chars@.subrange(0, 0) == Seq::<char>::empty());
    while i < n
        invariant
            start <= i <= n == chars.len(),
            view == |part: Vec<char>| part@,
            lines(chars@.take(i as int)).len() >= 1,
            parts@.map_values(view) == lines(chars@.take(i as int)).drop_last(),
            lines(chars@.take(i as int)).last() == chars@.subrange(start as int, i as int),
        decreases n - i,
    {
        let ghost before = lines(chars@.take(i as int));
        let ghost after = lines(chars@.take(i + 1));
        assert(chars@.take(i + 1).drop_last() == chars@.take(i as int));
        assert(chars@.take(i + 1).last() == chars@[i as int]);
        if chars[i] == '\n' {
            let line = slice_of(chars, start, i);
            proof {
                assert(after == before.push(Seq::empty()));
                assert(after.drop_last() == before);
                assert(before == before.drop_last().push(before.last()));
                parts@.lemma_push_map_commute(view, line);
                assert(chars@.subrange(i + 1, i + 1) == Seq::<char>::empty());
            }
            parts.push(line);
            start = i + 1;
        } else {
            proof {
                assert(after == before.drop_last().push(before.last().push(chars@[i as int])));
                assert(after.drop_last() == before.drop_last());
                assert(chars@.subrange(start as int, i + 1) == chars@.subrange(
                    start as int,
                    i as int,
                ).push(chars@[i as int]));
            }
        }
        i += 1;
    }
    let line = slice_of(chars, start, n);
    proof {
        let all = lines(chars@.take(n as int));
        assert(chars@.take(n as int) == chars@);
        assert(all == all.drop_last().push(all.last()));
        parts@.lemma_push_map_commute(view, line);
    }
    parts.push(line);
    parts
}

/// Each part stands in what the parts are joined to.
pub proof fn lemma_join_contains(parts: Seq<Seq<char>>, separator: Seq<char>, i: int)
    requires
        0 <= i < parts.len(),
    ensures
        contains(join(parts, separator), parts[i]),
    decreases parts.len(),
{
    let whole = join(parts, separator);
    if parts.len() == 1 {
        assert(whole.subrange(0, parts[0].len() as int) == parts[0]);
        assert(occurs_at(whole, parts[i], 0));
    } else {
        let before = join(parts.drop_last(), separator);
        let lead = before + separator;
        assert(whole == lead + parts.last());
        if i == parts.len() - 1 {
            assert(whole.subrange(lead.len() as int, (lead.len() + parts[i].len()) as int)
                == parts[i]);
            assert(occurs_at(whole, parts[i], lead.len() as int));
        } else {
            lemma_join_contains(parts.drop_last(), separator, i);
            let at = choose|at: int| occurs_at(before, parts[i], at);
            assert(whole.subrange(at, at + parts[i].len()) == before.subrange(
                at,
                at + parts[i].len(),
            ));
            assert(occurs_at(whole, parts[i], at));
        }
    }
}

} // verus!
