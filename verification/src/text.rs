//! Text as sequences of characters: whitespace, trimming, lines, words and
//! substring search, each with a mathematical definition over `Seq<char>` and
//! an executable scanner over a vector of characters.
//!
//! The executable functions work on a span `from..to` of a character vector;
//! their contracts speak of the subsequence that the span denotes.

use vstd::prelude::*;

verus! {

/// The characters that Unicode classes as `White_Space`.
pub open spec fn is_whitespace(c: char) -> bool {
    let n = c as u32;
    ||| 0x0009 <= n <= 0x000d
    ||| n == 0x0020
    ||| n == 0x0085
    ||| n == 0x00a0
    ||| n == 0x1680
    ||| 0x2000 <= n <= 0x200a
    ||| n == 0x2028
    ||| n == 0x2029
    ||| n == 0x202f
    ||| n == 0x205f
    ||| n == 0x3000
}

/// Whether `c` is whitespace.
pub fn char_is_whitespace(c: char) -> (b: bool)
    ensures
        b == is_whitespace(c),
{
    let n: u32 = c as u32;
    (0x0009 <= n && n <= 0x000d) || n == 0x0020 || n == 0x0085 || n == 0x00a0 || n == 0x1680 || (
    0x2000 <= n && n <= 0x200a) || n == 0x2028 || n == 0x2029 || n == 0x202f || n == 0x205f || n
        == 0x3000
}

/// A class of characters that a scan runs over.
#[derive(Clone, Copy)]
pub enum CharClass {
    /// Whitespace characters.
    Whitespace,
    /// Characters that are not whitespace.
    Word,
    /// Every character but the given one.
    Before(char),
}

impl CharClass {
/// `c` belongs to the class.
    pub open spec fn holds(self, c: char) -> bool {
        match self {
            CharClass::Whitespace => is_whitespace(c),
            CharClass::Word => !is_whitespace(c),
            CharClass::Before(stop) => c != stop,
        }
    }

/// Whether `c` belongs to the class.
    pub fn test(&self, c: char) -> (b: bool)
        ensures
            b == self.holds(c),
    {
        match self {
            CharClass::Whitespace => char_is_whitespace(c),
            CharClass::Word => !char_is_whitespace(c),
            CharClass::Before(stop) => c != *stop,
        }
    }
}

/// The number of characters at the front of `s` that belong to `class`.
pub open spec fn run_length(s: Seq<char>, class: CharClass) -> nat
    decreases s.len(),
{
    if s.len() > 0 && class.holds(s[0]) {
        1 + run_length(s.drop_first(), class)
    } else {
        0
    }
}

/// The number of whitespace characters at the back of `s`.
pub open spec fn trailing_whitespace(s: Seq<char>) -> nat
    decreases s.len(),
{
    if s.len() > 0 && is_whitespace(s.last()) {
        1 + trailing_whitespace(s.drop_last())
    } else {
        0
    }
}

/// `s` without its leading whitespace.
pub open spec fn trim_start(s: Seq<char>) -> Seq<char> {
    s.skip(run_length(s, CharClass::Whitespace) as int)
}

/// `s` without its trailing whitespace.
pub open spec fn trim_end(s: Seq<char>) -> Seq<char> {
    s.take(s.len() - trailing_whitespace(s))
}

/// `s` without leading and trailing whitespace.
pub open spec fn trim(s: Seq<char>) -> Seq<char> {
    trim_end(trim_start(s))
}

/// `s` is empty or holds whitespace only.
pub open spec fn is_blank(s: Seq<char>) -> bool {
    forall|i: int| 0 <= i < s.len() ==> is_whitespace(#[trigger] s[i])
}

/// `s` begins with `prefix`.
pub open spec fn starts_with(s: Seq<char>, prefix: Seq<char>) -> bool {
    prefix.len() <= s.len() && s.subrange(0, prefix.len() as int) == prefix
}

/// `needle` stands in `s` at index `at`.
pub open spec fn occurs_at(s: Seq<char>, needle: Seq<char>, at: int) -> bool {
    0 <= at && at + needle.len() <= s.len() && s.subrange(at, at + needle.len()) == needle
}

/// `needle` stands somewhere in `s`.
pub open spec fn contains(s: Seq<char>, needle: Seq<char>) -> bool {
    exists|at: int| occurs_at(s, needle, at)
}

/// `line` without one carriage return at its end.
pub open spec fn strip_carriage_return(line: Seq<char>) -> Seq<char> {
    if line.len() > 0 && line.last() == '\r' {
        line.drop_last()
    } else {
        line
    }
}

/// The lines of `s`. A line ends with a line feed, or with a carriage return
/// and a line feed; neither belongs to the line. What follows the last line
/// feed is a line too, unless it is empty.
pub open spec fn lines(s: Seq<char>) -> Seq<Seq<char>>
    decreases s.len(),
{
    if s.len() == 0 {
        Seq::empty()
    } else {
        let n = run_length(s, CharClass::Before('\n'));
        if n >= s.len() {
            seq![s]
        } else {
            seq![strip_carriage_return(s.take(n as int))] + lines(s.skip(n as int + 1))
        }
    }
}

/// The words of `s`: its maximal runs of characters that are not whitespace.
pub open spec fn words(s: Seq<char>) -> Seq<Seq<char>>
    decreases s.len(),
{
    let rest = trim_start(s);
    let n = run_length(rest, CharClass::Word);
    if n == 0 {
        Seq::empty()
    } else {
        proof {
            lemma_run_length(s, CharClass::Whitespace);
            lemma_run_length(rest, CharClass::Word);
        }
        seq![rest.take(n as int)] + words(rest.skip(n as int))
    }
}

/// The second word of `s`, where it has two.
pub open spec fn second_word(s: Seq<char>) -> Option<Seq<char>> {
    if words(s).len() >= 2 {
        Some(words(s)[1])
    } else {
        None
    }
}

/// `parts` with a line feed between each two neighbours.
pub open spec fn join_lines(parts: Seq<Seq<char>>) -> Seq<char>
    decreases parts.len(),
{
    if parts.len() == 0 {
        Seq::empty()
    } else if parts.len() == 1 {
        parts[0]
    } else {
        join_lines(parts.drop_last()) + seq!['\n'] + parts.last()
    }
}

/// The number of bytes that `c` takes in UTF-8.
pub open spec fn utf8_width(c: char) -> nat {
    let n = c as u32;
    if n < 0x80 {
        1
    } else if n < 0x800 {
        2
    } else if n < 0x10000 {
        3
    } else {
        4
    }
}

/// The number of bytes that `s` takes in UTF-8.
pub open spec fn utf8_len(s: Seq<char>) -> nat
    decreases s.len(),
{
    if s.len() == 0 {
        0
    } else {
        utf8_len(s.drop_last()) + utf8_width(s.last())
    }
}

/// A run ends at the first character outside the class, or at the end.
pub proof fn lemma_run_length(s: Seq<char>, class: CharClass)
    ensures
        run_length(s, class) <= s.len(),
        forall|i: int| 0 <= i < run_length(s, class) ==> class.holds(#[trigger] s[i]),
        run_length(s, class) < s.len() ==> !class.holds(s[run_length(s, class) as int]),
    decreases s.len(),
{
    if s.len() > 0 && class.holds(s[0]) {
        let rest = s.drop_first();
        lemma_run_length(rest, class);
        assert forall|i: int| 0 <= i < run_length(s, class) implies class.holds(
            #[trigger] s[i],
        ) by {
            if i > 0 {
                assert(s[i] == rest[i - 1]);
            }
        }
        if run_length(s, class) < s.len() {
            assert(s[run_length(s, class) as int] == rest[run_length(rest, class) as int]);
        }
    }
}

/// The length of a run is the only index at which a run can end.
pub proof fn lemma_run_length_is(s: Seq<char>, class: CharClass, n: int)
    requires
        0 <= n <= s.len(),
        forall|i: int| 0 <= i < n ==> class.holds(#[trigger] s[i]),
        n < s.len() ==> !class.holds(s[n]),
    ensures
        run_length(s, class) == n,
    decreases s.len(),
{
    if n > 0 {
        let rest = s.drop_first();
        assert(class.holds(s[0]));
        assert forall|i: int| 0 <= i < n - 1 implies class.holds(#[trigger] rest[i]) by {
            assert(rest[i] == s[i + 1]);
        }
        if n - 1 < rest.len() {
            assert(rest[n - 1] == s[n]);
        }
        lemma_run_length_is(rest, class, n - 1);
    }
}

/// Trailing whitespace ends at the last character that is not whitespace.
pub proof fn lemma_trailing_whitespace_is(s: Seq<char>, n: int)
    requires
        0 <= n <= s.len(),
        forall|i: int| s.len() - n <= i < s.len() ==> is_whitespace(#[trigger] s[i]),
        n < s.len() ==> !is_whitespace(s[s.len() - n - 1]),
    ensures
        trailing_whitespace(s) == n,
    decreases s.len(),
{
    if n > 0 {
        let rest = s.drop_last();
        assert(is_whitespace(s[s.len() - 1]));
        assert forall|i: int| rest.len() - (n - 1) <= i < rest.len() implies is_whitespace(
            #[trigger] rest[i],
        ) by {
            assert(rest[i] == s[i]);
        }
        if n - 1 < rest.len() {
            assert(rest[rest.len() - (n - 1) - 1] == s[s.len() - n - 1]);
        }
        lemma_trailing_whitespace_is(rest, n - 1);
    }
}

/// A text is blank exactly if trimming leaves nothing of it.
pub proof fn lemma_blank_iff_trim_empty(s: Seq<char>)
    ensures
        is_blank(s) <==> trim(s).len() == 0,
        is_blank(s) <==> run_length(s, CharClass::Whitespace) == s.len(),
{
    let lead = run_length(s, CharClass::Whitespace);
    lemma_run_length(s, CharClass::Whitespace);
    let rest = trim_start(s);
    if is_blank(s) {
        if lead < s.len() {
            assert(is_whitespace(s[lead as int]));
        }
        assert(rest.len() == 0);
    } else {
        let i = choose|i: int| 0 <= i < s.len() && !is_whitespace(#[trigger] s[i]);
        assert(lead <= i);
        assert(rest.len() > 0);
        assert(rest[0] == s[lead as int]);
        lemma_trailing_whitespace_bound(rest);
    }
}

/// Trailing whitespace never reaches past a character that is not whitespace.
pub proof fn lemma_trailing_whitespace_bound(s: Seq<char>)
    ensures
        trailing_whitespace(s) <= s.len(),
        forall|i: int|
            0 <= i < s.len() && !is_whitespace(#[trigger] s[i]) ==> trailing_whitespace(s)
                < s.len() - i,
    decreases s.len(),
{
    if s.len() > 0 && is_whitespace(s.last()) {
        let rest = s.drop_last();
        lemma_trailing_whitespace_bound(rest);
        assert forall|i: int|
            0 <= i < s.len() && !is_whitespace(#[trigger] s[i]) implies trailing_whitespace(s)
            < s.len() - i by {
            assert(i < s.len() - 1);
            assert(rest[i] == s[i]);
        }
    }
}

/// The index at which the run of `class` that starts at `from` ends.
pub fn scan(v: &Vec<char>, from: usize, to: usize, class: CharClass) -> (end: usize)
    requires
        from <= to <= v.len(),
    ensures
        from <= end <= to,
        end - from == run_length(v@.subrange(from as int, to as int), class),
{
    let mut i: usize = from;
    while i < to
        invariant
            from <= i <= to <= v.len(),
            forall|k: int| from <= k < i ==> class.holds(#[trigger] v@[k]),
        ensures
            from <= i <= to,
            forall|k: int| from <= k < i ==> class.holds(#[trigger] v@[k]),
            i < to ==> !class.holds(v@[i as int]),
        decreases to - i,
    {
        if !class.test(v[i]) {
            break ;
        }
        i += 1;
    }
    proof {
        let s = v@.subrange(from as int, to as int);
        assert forall|k: int| 0 <= k < i - from implies class.holds(#[trigger] s[k]) by {
            assert(s[k] == v@[from + k]);
        }
        lemma_run_length_is(s, class, i - from);
    }
    i
}

/// The index at which the trailing whitespace of the span begins.
pub fn scan_back_whitespace(v: &Vec<char>, from: usize, to: usize) -> (start: usize)
    requires
        from <= to <= v.len(),
    ensures
        from <= start <= to,
        to - start == trailing_whitespace(v@.subrange(from as int, to as int)),
{
    let mut i: usize = to;
    while i > from
        invariant
            from <= i <= to <= v.len(),
            forall|k: int| i <= k < to ==> is_whitespace(#[trigger] v@[k]),
        ensures
            from <= i <= to,
            forall|k: int| i <= k < to ==> is_whitespace(#[trigger] v@[k]),
            i > from ==> !is_whitespace(v@[i - 1]),
        decreases i - from,
    {
        if !char_is_whitespace(v[i - 1]) {
            break ;
        }
        i -= 1;
    }
    proof {
        let s = v@.subrange(from as int, to as int);
        assert forall|k: int| s.len() - (to - i) <= k < s.len() implies is_whitespace(
            #[trigger] s[k],
        ) by {
            assert(s[k] == v@[from + k]);
        }
        lemma_trailing_whitespace_is(s, to - i);
    }
    i
}

/// The span that is left of `from..to` when the whitespace at both ends goes.
pub fn trim_span(v: &Vec<char>, from: usize, to: usize) -> (span: (usize, usize))
    requires
        from <= to <= v.len(),
    ensures
        from <= span.0 <= span.1 <= to,
        v@.subrange(span.0 as int, span.1 as int) == trim(v@.subrange(from as int, to as int)),
{
    let start = scan(v, from, to, CharClass::Whitespace);
    let end = scan_back_whitespace(v, start, to);
    proof {
        let s = v@.subrange(from as int, to as int);
        assert(trim_start(s) =~= v@.subrange(start as int, to as int));
        assert(trim(s) =~= v@.subrange(start as int, end as int));
    }
    (start, end)
}

/// Whether the span holds whitespace only.
pub fn span_is_blank(v: &Vec<char>, from: usize, to: usize) -> (b: bool)
    requires
        from <= to <= v.len(),
    ensures
        b == is_blank(v@.subrange(from as int, to as int)),
{
    let end = scan(v, from, to, CharClass::Whitespace);
    proof {
        lemma_blank_iff_trim_empty(v@.subrange(from as int, to as int));
    }
    end == to
}

/// Whether `needle` stands in `v` at index `at`.
pub fn matches_at(v: &Vec<char>, at: usize, needle: &Vec<char>) -> (b: bool)
    requires
        at + needle.len() <= v.len(),
    ensures
        b == (v@.subrange(at as int, at + needle.len()) == needle@),
{
    let mut k: usize = 0;
    while k < needle.len()
        invariant
            k <= needle.len(),
            at + needle.len() <= v.len(),
            forall|j: int| 0 <= j < k ==> v@[at + j] == #[trigger] needle@[j],
        decreases needle.len() - k,
    {
        if v[at + k] != needle[k] {
            proof {
                let window = v@.subrange(at as int, at + needle.len());
                assert(window[k as int] != needle@[k as int]);
            }
            return false;
        }
        k += 1;
    }
    assert(v@.subrange(at as int, at + needle.len()) =~= needle@);
    true
}

/// Whether the span begins with `prefix`.
pub fn span_starts_with(v: &Vec<char>, from: usize, to: usize, prefix: &Vec<char>) -> (b: bool)
    requires
        from <= to <= v.len(),
    ensures
        b == starts_with(v@.subrange(from as int, to as int), prefix@),
{
    if prefix.len() > to - from {
        return false;
    }
    let found = matches_at(v, from, prefix);
    proof {
        let s = v@.subrange(from as int, to as int);
        assert(s.subrange(0, prefix.len() as int) =~= v@.subrange(
            from as int,
            from + prefix.len(),
        ));
    }
    found
}

/// Whether `needle` stands somewhere in the span.
pub fn span_contains(v: &Vec<char>, from: usize, to: usize, needle: &Vec<char>) -> (b: bool)
    requires
        from <= to <= v.len(),
    ensures
        b == contains(v@.subrange(from as int, to as int), needle@),
{
    let ghost s = v@.subrange(from as int, to as int);
    if needle.len() > to - from {
        return false;
    }
    let last: usize = to - needle.len();
    let mut at: usize = from;
    while at < last
        invariant
            from <= at <= last,
            last + needle.len() == to,
            to <= v.len(),
            s == v@.subrange(from as int, to as int),
            forall|j: int| 0 <= j < at - from ==> !occurs_at(s, needle@, j),
        decreases last - at,
    {
        let found = matches_at(v, at, needle);
        proof {
            assert(s.subrange(at - from, at - from + needle.len()) =~= v@.subrange(
                at as int,
                at + needle.len(),
            ));
        }
        if found {
            assert(occurs_at(s, needle@, at - from));
            return true;
        }
        at += 1;
    }
    let found = matches_at(v, last, needle);
    proof {
        assert(s.subrange(last - from, last - from + needle.len()) =~= v@.subrange(
            last as int,
            last + needle.len(),
        ));
        if found {
            assert(occurs_at(s, needle@, last - from));
        }
    }
    found
}

/// The lines of `v`, each as the span that holds it.
pub fn line_spans(v: &Vec<char>) -> (spans: Vec<(usize, usize)>)
    ensures
        spans.len() == lines(v@).len(),
        forall|i: int|
            0 <= i < spans.len() ==> {
                &&& (#[trigger] spans[i]).0 <= spans[i].1 <= v.len()
                &&& v@.subrange(spans[i].0 as int, spans[i].1 as int) == lines(v@)[i]
            },
{
    let mut spans: Vec<(usize, usize)> = Vec::new();
    let mut pos: usize = 0;
    let ghost mut done: Seq<Seq<char>> = Seq::empty();
    assert(v@.skip(0) =~= v@);
    while pos < v.len()
        invariant
            pos <= v.len(),
            lines(v@) == done + lines(v@.skip(pos as int)),
            spans.len() == done.len(),
            forall|i: int|
                0 <= i < spans.len() ==> {
                    &&& (#[trigger] spans[i]).0 <= spans[i].1 <= v.len()
                    &&& v@.subrange(spans[i].0 as int, spans[i].1 as int) == done[i]
                },
        decreases v.len() - pos,
    {
        let ghost rest = v@.skip(pos as int);
        assert(rest =~= v@.subrange(pos as int, v.len() as int));
        let feed = scan(v, pos, v.len(), CharClass::Before('\n'));
        let ghost n = (feed - pos) as int;
        let ghost line;
        if feed == v.len() {
            spans.push((pos, feed));
            proof {
                line = rest;
                assert(lines(rest) == seq![rest]);
                assert(lines(v@.skip(feed as int)) =~= Seq::<Seq<char>>::empty());
                assert(done + lines(rest) =~= done.push(line) + lines(v@.skip(feed as int)));
            }
            pos = feed;
        } else {
            let end = if feed > pos && v[feed - 1] == '\r' {
                feed - 1
            } else {
                feed
            };
            spans.push((pos, end));
            proof {
                let raw = rest.take(n);
                assert(raw =~= v@.subrange(pos as int, feed as int));
                line = strip_carriage_return(raw);
                assert(line =~= v@.subrange(pos as int, end as int));
                assert(rest.skip(n + 1) =~= v@.skip(feed + 1));
                assert(lines(rest) == seq![line] + lines(rest.skip(n + 1)));
                assert(done + lines(rest) =~= done.push(line) + lines(v@.skip(feed + 1)));
            }
            pos = feed + 1;
        }
        proof {
            done = done.push(line);
        }
    }
    proof {
        assert(lines(v@.skip(pos as int)) =~= Seq::<Seq<char>>::empty());
        assert(done + Seq::<Seq<char>>::empty() =~= done);
    }
    spans
}

/// The span of the second word of `from..to`, where it has two words.
pub fn second_word_span(v: &Vec<char>, from: usize, to: usize) -> (span: Option<(usize, usize)>)
    requires
        from <= to <= v.len(),
    ensures
        match span {
            Some((a, b)) => from <= a < b <= to && second_word(
                v@.subrange(from as int, to as int),
            ) == Some(v@.subrange(a as int, b as int)),
            None => second_word(v@.subrange(from as int, to as int)) is None,
        },
{
    let ghost s = v@.subrange(from as int, to as int);
    let a1 = scan(v, from, to, CharClass::Whitespace);
    let b1 = scan(v, a1, to, CharClass::Word);
    let a2 = scan(v, b1, to, CharClass::Whitespace);
    let b2 = scan(v, a2, to, CharClass::Word);
    proof {
        let t1 = trim_start(s);
        assert(t1 =~= v@.subrange(a1 as int, to as int));
        let s2 = v@.subrange(b1 as int, to as int);
        let t2 = trim_start(s2);
        assert(t2 =~= v@.subrange(a2 as int, to as int));
        lemma_run_length(t1, CharClass::Word);
        lemma_run_length(t2, CharClass::Word);
        if b1 > a1 {
            assert(t1.skip(b1 - a1) =~= s2);
            assert(words(s) == seq![t1.take(b1 - a1)] + words(s2));
            if b2 > a2 {
                assert(words(s2) == seq![t2.take(b2 - a2)] + words(t2.skip(b2 - a2)));
                assert(t2.take(b2 - a2) =~= v@.subrange(a2 as int, b2 as int));
                assert(words(s)[1] == words(s2)[0]);
            } else {
                assert(words(s2) =~= Seq::<Seq<char>>::empty());
            }
        } else {
            assert(words(s) =~= Seq::<Seq<char>>::empty());
        }
    }
    if b1 > a1 && b2 > a2 {
        Some((a2, b2))
    } else {
        None
    }
}

/// Whether the span takes more than `limit` bytes in UTF-8.
pub fn span_utf8_longer_than(v: &Vec<char>, from: usize, to: usize, limit: u8) -> (b: bool)
    requires
        from <= to <= v.len(),
    ensures
        b == (utf8_len(v@.subrange(from as int, to as int)) > limit),
{
    let ghost s = v@.subrange(from as int, to as int);
    let mut total: u16 = 0;
    let mut i: usize = from;
    assert(v@.subrange(from as int, from as int) =~= Seq::<char>::empty());
    while i < to
        invariant
            from <= i <= to <= v.len(),
            total == utf8_len(v@.subrange(from as int, i as int)),
            total <= limit,
        decreases to - i,
    {
        let n: u32 = v[i] as u32;
        let width: u16 = if n < 0x80 {
            1
        } else if n < 0x800 {
            2
        } else if n < 0x10000 {
            3
        } else {
            4
        };
        proof {
            let next = v@.subrange(from as int, i + 1);
            assert(next.drop_last() =~= v@.subrange(from as int, i as int));
            assert(next.last() == v@[i as int]);
            assert(utf8_len(next) == total + width);
        }
        total = total + width;
        i += 1;
        if total > limit as u16 {
            proof {
                lemma_utf8_len_grows(v@.subrange(from as int, to as int), i - from);
                assert(v@.subrange(from as int, to as int).take(i - from) =~= v@.subrange(
                    from as int,
                    i as int,
                ));
            }
            return true;
        }
    }
    false
}

/// A text takes at least as many bytes as each of its beginnings.
pub proof fn lemma_utf8_len_grows(s: Seq<char>, n: int)
    requires
        0 <= n <= s.len(),
    ensures
        utf8_len(s.take(n)) <= utf8_len(s),
    decreases s.len(),
{
    if n < s.len() {
        assert(s.drop_last().take(n) =~= s.take(n));
        lemma_utf8_len_grows(s.drop_last(), n);
    } else {
        assert(s.take(n) =~= s);
    }
}

/// The characters of `s`, in order.
pub fn chars_of(s: &str) -> (v: Vec<char>)
    ensures
        v@ == s@,
{
    let mut v: Vec<char> = Vec::new();
    let it = s.chars();
    for c in iter: it
        invariant
            v@ == iter.seq().take(iter.index() as int),
            iter.seq() == s@,
    {
        v.push(c);
    }
    v
}

/// Whether `needle` stands somewhere in `v`.
pub fn text_contains(v: &Vec<char>, needle: &str) -> (b: bool)
    ensures
        b == contains(v@, needle@),
{
    let n = chars_of(needle);
    assert(v@.subrange(0, v.len() as int) =~= v@);
    span_contains(v, 0, v.len(), &n)
}

/// Whether `s` is empty or holds whitespace only.
pub fn is_blank_text(s: &str) -> (b: bool)
    ensures
        b == is_blank(s@),
{
    let v = chars_of(s);
    assert(v@.subrange(0, v.len() as int) =~= v@);
    span_is_blank(&v, 0, v.len())
}

/// The text of `s` between the character indices `from` and `to`.
pub fn slice_text(s: &str, from: usize, to: usize) -> (r: String)
    requires
        from <= to <= s@.len(),
    ensures
        r@ == s@.subrange(from as int, to as int),
{
    s.substring_char(from, to).to_string()
}

} // verus!
