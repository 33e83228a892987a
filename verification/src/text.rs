//! Text operations that the rest of the crate is stated in.

use vstd::prelude::*;
use vstd::string::StringExecFns;
use vstd::string::StrSliceExecFns;

verus! {

// ---------------------------------------------------------------------
// White space
// ---------------------------------------------------------------------
/// Whether a character has the Unicode property `White_Space`: the characters
/// from the tab to the carriage return, the space, the next line, the no-break
/// space, and the spaces and separators beyond.
pub open spec fn white_space(c: char) -> bool {
    let n = c as int;
    ||| 0x0009 <= n <= 0x000D
    ||| n == 0x0020
    ||| n == 0x0085
    ||| n == 0x00A0
    ||| n == 0x1680
    ||| 0x2000 <= n <= 0x200A
    ||| n == 0x2028
    ||| n == 0x2029
    ||| n == 0x202F
    ||| n == 0x205F
    ||| n == 0x3000
}

/// Whether a character is white space.
fn is_white_space(c: char) -> (white: bool)
    ensures
        white == white_space(c),
{
    let n: u32 = c as u32;
    (0x0009 <= n && n <= 0x000D) || n == 0x0020 || n == 0x0085 || n == 0x00A0 || n == 0x1680 || (
    0x2000 <= n && n <= 0x200A) || n == 0x2028 || n == 0x2029 || n == 0x202F || n == 0x205F || n
        == 0x3000
}

/// `s` without its leading white space.
pub open spec fn trim_front(s: Seq<char>) -> Seq<char>
    decreases s.len(),
{
    if s.len() > 0 && white_space(s[0]) {
        trim_front(s.subrange(1, s.len() as int))
    } else {
        s
    }
}

/// `s` without its trailing white space.
pub open spec fn trim_back(s: Seq<char>) -> Seq<char>
    decreases s.len(),
{
    if s.len() > 0 && white_space(s.last()) {
        trim_back(s.drop_last())
    } else {
        s
    }
}

/// `s` without the white space at its two ends.
pub open spec fn trimmed(s: Seq<char>) -> Seq<char> {
    trim_back(trim_front(s))
}

/// The text without the white space at its two ends.
pub fn trim(s: &str) -> (t: &str)
    ensures
        t@ == trimmed(s@),
{
    let n: usize = s.unicode_len();
    let mut start: usize = 0;
    proof {
        assert(s@.subrange(0, n as int) =~= s@);
    }
    while start < n && is_white_space(s.get_char(start))
        invariant
            start <= n == s@.len(),
            trim_front(s@) == trim_front(s@.subrange(start as int, n as int)),
        decreases n - start,
    {
        proof {
            let rest = s@.subrange(start as int, n as int);
            assert(rest.subrange(1, rest.len() as int) =~= s@.subrange(start + 1, n as int));
        }
        start = start + 1;
    }
    let ghost front = s@.subrange(start as int, n as int);
    let mut end: usize = n;
    while end > start && is_white_space(s.get_char(end - 1))
        invariant
            start <= end <= n == s@.len(),
            trim_back(front) == trim_back(s@.subrange(start as int, end as int)),
        decreases end,
    {
        proof {
            assert(s@.subrange(start as int, end as int).drop_last() =~= s@.subrange(
                start as int,
                end - 1,
            ));
        }
        end = end - 1;
    }
    s.substring_char(start, end)
}

/// Neither end of a trimmed text is white space, and trimming again changes
/// nothing.
pub proof fn trimmed_has_clean_ends(s: Seq<char>)
    ensures
        trimmed(s).len() > 0 ==> !white_space(trimmed(s)[0]) && !white_space(trimmed(s).last()),
        trimmed(trimmed(s)) == trimmed(s),
{
    lemma_trim_front_clean(s);
    lemma_trim_back_clean(trim_front(s));
}

proof fn lemma_trim_front_clean(s: Seq<char>)
    ensures
        trim_front(s).len() > 0 ==> !white_space(trim_front(s)[0]),
    decreases s.len(),
{
    if s.len() > 0 && white_space(s[0]) {
        lemma_trim_front_clean(s.subrange(1, s.len() as int));
    }
}

proof fn lemma_trim_back_clean(s: Seq<char>)
    ensures
        trim_back(s).len() > 0 ==> !white_space(trim_back(s).last()) && trim_back(s)[0] == s[0],
        s.len() > 0 && !white_space(s[0]) ==> trim_back(s).len() > 0,
        trim_back(s).len() <= s.len(),
    decreases s.len(),
{
    if s.len() > 0 && white_space(s.last()) {
        lemma_trim_back_clean(s.drop_last());
    }
}

/// Trimming takes white space away at the two ends, and nothing else: what is left
/// stands between white space and white space.
pub proof fn trimming_takes_only_white_space(s: Seq<char>) -> (ends: (int, int))
    ensures
        0 <= ends.0 <= ends.1 <= s.len(),
        trimmed(s) == s.subrange(ends.0, ends.1),
        forall|i: int| 0 <= i < ends.0 || ends.1 <= i < s.len() ==> white_space(#[trigger] s[i]),
{
    let n = s.len() as int;
    let start = lemma_trim_front_part(s);
    let front = s.subrange(start, n);
    let len = lemma_trim_back_part(front);
    assert(front.subrange(0, len) =~= s.subrange(start, start + len));
    assert forall|i: int| 0 <= i < start || start + len <= i < n implies white_space(
        #[trigger] s[i],
    ) by {
        if i >= start + len {
            assert(s[i] == front[i - start]);
        }
    }
    (start, start + len)
}

proof fn lemma_trim_front_part(s: Seq<char>) -> (start: int)
    ensures
        0 <= start <= s.len(),
        trim_front(s) == s.subrange(start, s.len() as int),
        forall|i: int| 0 <= i < start ==> white_space(#[trigger] s[i]),
    decreases s.len(),
{
    if s.len() > 0 && white_space(s[0]) {
        let rest = s.subrange(1, s.len() as int);
        let start = lemma_trim_front_part(rest);
        assert(rest.subrange(start, rest.len() as int) =~= s.subrange(start + 1, s.len() as int));
        assert forall|i: int| 0 <= i < start + 1 implies white_space(#[trigger] s[i]) by {
            if i > 0 {
                assert(s[i] == rest[i - 1]);
            }
        }
        start + 1
    } else {
        assert(s.subrange(0, s.len() as int) =~= s);
        0
    }
}

proof fn lemma_trim_back_part(s: Seq<char>) -> (len: int)
    ensures
        0 <= len <= s.len(),
        trim_back(s) == s.subrange(0, len),
        forall|i: int| len <= i < s.len() ==> white_space(#[trigger] s[i]),
    decreases s.len(),
{
    if s.len() > 0 && white_space(s.last()) {
        let rest = s.drop_last();
        let len = lemma_trim_back_part(rest);
        assert(rest.subrange(0, len) =~= s.subrange(0, len));
        assert forall|i: int| len <= i < s.len() implies white_space(#[trigger] s[i]) by {
            if i < rest.len() {
                assert(s[i] == rest[i]);
            }
        }
        len
    } else {
        assert(s.subrange(0, s.len() as int) =~= s);
        s.len() as int
    }
}

// ---------------------------------------------------------------------
// Case and search
// ---------------------------------------------------------------------
/// The lower-case form of a text under the Unicode case mapping.
pub uninterp spec fn lowered(s: Seq<char>) -> Seq<char>;

/// `str::to_lowercase` of std, the Unicode lower-case mapping of a whole text.
/// The contract only gives the result a name.
#[verifier::external_body]
pub(crate) fn lower(s: &str) -> (t: String)
    ensures
        t@ == lowered(s@),
{
    s.to_lowercase()
}

/// Whether `needle` stands somewhere inside `hay`.
pub open spec fn is_inside(needle: Seq<char>, hay: Seq<char>) -> bool {
    exists|i: int| stands_at(needle, hay, i)
}

/// Whether `needle` stands inside `hay` at position `i`.
pub open spec fn stands_at(needle: Seq<char>, hay: Seq<char>, i: int) -> bool {
    0 <= i <= hay.len() - needle.len() && hay.subrange(i, i + needle.len()) == needle
}

/// The characters of a text, one by one.
pub fn chars_of(s: &str) -> (chars: Vec<char>)
    ensures
        chars@ == s@,
{
    let mut chars: Vec<char> = Vec::new();
    for c in iter: s.chars()
        invariant
            chars@ == s@.take(iter.index() as int),
            iter.seq() == s@,
    {
        proof {
            assert(s@.take(iter.index() as int).push(c) =~= s@.take(iter.index() + 1));
        }
        chars.push(c);
    }
    chars
}

/// Whether `needle` stands somewhere inside `hay`.
pub fn contains(hay: &str, needle: &str) -> (found: bool)
    ensures
        found == is_inside(needle@, hay@),
{
    let h: Vec<char> = chars_of(hay);
    let n: Vec<char> = chars_of(needle);
    if n.len() > h.len() {
        return false;
    }
    let last: usize = h.len() - n.len();
    let mut i: usize = 0;
    while i <= last
        invariant
            n@ == needle@,
            h@ == hay@,
            last == h.len() - n.len(),
            i <= last + 1,
            forall|k: int| 0 <= k < i ==> !stands_at(n@, h@, k),
        decreases last + 1 - i,
    {
        let mut j: usize = 0;
        while j < n.len() && h[i + j] == n[j]
            invariant
                j <= n.len(),
                i + n.len() <= h.len(),
                forall|k: int| 0 <= k < j ==> h[i + k] == n[k],
            decreases n.len() - j,
        {
            j = j + 1;
        }
        if j == n.len() {
            proof {
                assert(h@.subrange(i as int, i + n.len()) =~= n@);
                assert(stands_at(needle@, hay@, i as int));
            }
            return true;
        }
        proof {
            assert(h@.subrange(i as int, i + n.len())[j as int] != n@[j as int]);
        }
        if i == usize::MAX {
            return false;
        }
        i = i + 1;
    }
    false
}

/// Every text holds the empty text, and itself.
pub proof fn empty_and_self_are_inside(s: Seq<char>)
    ensures
        is_inside(Seq::empty(), s),
        is_inside(s, s),
{
    assert(s.subrange(0, 0) =~= Seq::empty());
    assert(stands_at(Seq::empty(), s, 0));
    assert(s.subrange(0, s.len() as int) =~= s);
    assert(stands_at(s, s, 0));
}

/// A text is inside another one if and only if the other one is made of something,
/// the text, and something.
pub proof fn inside_means_between(needle: Seq<char>, front: Seq<char>, back: Seq<char>)
    ensures
        is_inside(needle, front + needle + back),
        forall|hay: Seq<char>| #[trigger]
            is_inside(needle, hay) ==> exists|i: int| 0 <= i <= hay.len() - needle.len() && hay == (
            #[trigger] hay.take(i)) + needle + hay.skip(i + needle.len()),
{
    let whole = front + needle + back;
    let at = front.len() as int;
    assert(whole.subrange(at, at + needle.len()) =~= needle);
    assert(stands_at(needle, whole, at));
    assert forall|hay: Seq<char>| #[trigger] is_inside(needle, hay) implies exists|i: int|
        0 <= i <= hay.len() - needle.len() && hay == (#[trigger] hay.take(i)) + needle + hay.skip(
            i + needle.len(),
        ) by {
        let i = choose|i: int| stands_at(needle, hay, i);
        assert(hay =~= hay.take(i) + hay.subrange(i, i + needle.len()) + hay.skip(
            i + needle.len(),
        ));
    }
}

/// Whether `s` begins with `prefix`.
pub open spec fn begins_with(s: Seq<char>, prefix: Seq<char>) -> bool {
    prefix.len() <= s.len() && s.subrange(0, prefix.len() as int) == prefix
}

/// Whether two texts are the same.
pub fn same(a: &str, b: &str) -> (equal: bool)
    ensures
        equal == (a@ == b@),
{
    let x: Vec<char> = chars_of(a);
    let y: Vec<char> = chars_of(b);
    if x.len() != y.len() {
        return false;
    }
    let mut i: usize = 0;
    while i < x.len()
        invariant
            i <= x.len() == y.len(),
            x@ == a@,
            y@ == b@,
            forall|k: int| 0 <= k < i ==> x[k] == y[k],
        decreases x.len() - i,
    {
        if x[i] != y[i] {
            return false;
        }
        i = i + 1;
    }
    proof {
        assert(a@ =~= b@);
    }
    true
}

/// What stands behind `prefix`, if `s` begins with it.
pub fn strip_prefix(s: &str, prefix: &str) -> (rest: Option<String>)
    ensures
        match rest {
            Some(r) => begins_with(s@, prefix@) && r@ == s@.subrange(
                prefix@.len() as int,
                s@.len() as int,
            ),
            None => !begins_with(s@, prefix@),
        },
{
    let n: usize = s.unicode_len();
    let k: usize = prefix.unicode_len();
    if k > n || !same(s.substring_char(0, k), prefix) {
        None
    } else {
        Some(owned(s.substring_char(k, n)))
    }
}

// ---------------------------------------------------------------------
// Lines
// ---------------------------------------------------------------------
/// Position of the first line feed in `s`, or its length.
pub open spec fn line_end(s: Seq<char>) -> int
    decreases s.len(),
{
    if s.len() == 0 || s[0] == '\n' {
        0
    } else {
        1 + line_end(s.subrange(1, s.len() as int))
    }
}

/// `s` without the carriage returns at its end.
pub open spec fn without_returns(s: Seq<char>) -> Seq<char>
    decreases s.len(),
{
    if s.len() > 0 && s.last() == '\r' {
        without_returns(s.drop_last())
    } else {
        s
    }
}

pub proof fn lemma_line_end(s: Seq<char>)
    ensures
        0 <= line_end(s) <= s.len(),
        line_end(s) < s.len() ==> s[line_end(s)] == '\n',
        forall|i: int| 0 <= i < line_end(s) ==> s[i] != '\n',
    decreases s.len(),
{
    if s.len() > 0 && s[0] != '\n' {
        let rest = s.subrange(1, s.len() as int);
        lemma_line_end(rest);
        assert forall|i: int| 0 <= i < line_end(s) implies s[i] != '\n' by {
            if i > 0 {
                assert(rest[i - 1] == s[i]);
            }
        }
    }
}

/// The first line of a text, without the carriage returns at its end, and what
/// stands behind the line.
pub fn split_first_line(s: &str) -> (parts: (String, String))
    ensures
        parts.0@ == without_returns(s@.take(line_end(s@))),
        parts.1@ == (if line_end(s@) < s@.len() {
            s@.skip(line_end(s@) + 1)
        } else {
            Seq::empty()
        }),
{
    let chars: Vec<char> = chars_of(s);
    let n: usize = chars.len();
    let mut end: usize = 0;
    while end < n && chars[end] != '\n'
        invariant
            end <= n == chars.len(),
            chars@ == s@,
            forall|i: int| 0 <= i < end ==> s@[i] != '\n',
        decreases n - end,
    {
        end = end + 1;
    }
    proof {
        lemma_line_end(s@);
        assert(end == line_end(s@));
    }
    let mut stop: usize = end;
    proof {
        assert(s@.take(end as int).take(end as int) =~= s@.take(end as int));
    }
    while stop > 0 && chars[stop - 1] == '\r'
        invariant
            stop <= end <= n == chars.len(),
            chars@ == s@,
            without_returns(s@.take(end as int)) == without_returns(s@.take(stop as int)),
        decreases stop,
    {
        proof {
            assert(s@.take(stop as int).drop_last() =~= s@.take(stop - 1));
        }
        stop = stop - 1;
    }
    proof {
        assert(s@.subrange(0, stop as int) =~= s@.take(stop as int));
    }
    let first: String = owned(s.substring_char(0, stop));
    let rest: String = if end < n {
        proof {
            assert(s@.subrange(end + 1, n as int) =~= s@.skip(end + 1));
        }
        owned(s.substring_char(end + 1, n))
    } else {
        String::new()
    };
    (first, rest)
}

/// `s` without a carriage return at its end.
pub open spec fn without_return(s: Seq<char>) -> Seq<char> {
    if s.len() > 0 && s.last() == '\r' {
        s.drop_last()
    } else {
        s
    }
}

/// The lines of a text. A line ends with a line feed, or with a carriage return
/// and a line feed; an end of line at the end of the text begins no further line.
pub open spec fn text_lines(s: Seq<char>) -> Seq<Seq<char>>
    decreases s.len(),
{
    if s.len() == 0 {
        Seq::empty()
    } else if 0 <= line_end(s) < s.len() {
        seq![without_return(s.take(line_end(s)))] + text_lines(s.skip(line_end(s) + 1))
    } else {
        seq![s]
    }
}

/// The contents of a list of texts.
pub open spec fn contents(texts: Seq<String>) -> Seq<Seq<char>> {
    Seq::new(texts.len(), |i: int| texts[i]@)
}

/// The lines of a text, one by one.
pub fn lines(s: &str) -> (found: Vec<String>)
    ensures
        contents(found@) == text_lines(s@),
{
    let chars: Vec<char> = chars_of(s);
    let n: usize = chars.len();
    let mut found: Vec<String> = Vec::new();
    let mut start: usize = 0;
    proof {
        assert(s@.skip(0) =~= s@);
        assert(contents(found@) + text_lines(s@) =~= text_lines(s@));
    }
    while start < n
        invariant
            start <= n == chars.len(),
            chars@ == s@,
            contents(found@) + text_lines(s@.skip(start as int)) == text_lines(s@),
        decreases n - start,
    {
        let ghost rest = s@.skip(start as int);
        let mut end: usize = start;
        while end < n && chars[end] != '\n'
            invariant
                start <= end <= n == chars.len(),
                chars@ == s@,
                rest == s@.skip(start as int),
                forall|i: int| 0 <= i < end - start ==> rest[i] != '\n',
            decreases n - end,
        {
            end = end + 1;
        }
        proof {
            lemma_line_end(rest);
            if end < n {
                assert(rest[end - start] == '\n');
            }
            assert(line_end(rest) == end - start);
        }
        let stop: usize = if end < n && end > start && chars[end - 1] == '\r' {
            end - 1
        } else {
            end
        };
        let ghost before = found@;
        let line: String = owned(s.substring_char(start, stop));
        proof {
            assert(rest.take(end - start) =~= s@.subrange(start as int, end as int));
            if end < n {
                assert(line@ =~= without_return(rest.take(end - start)));
            } else {
                assert(line@ =~= rest);
            }
        }
        found.push(line);
        proof {
            assert(contents(found@) =~= contents(before) + seq![line@]);
            if end < n {
                assert(rest.skip(end - start + 1) =~= s@.skip(end + 1));
                assert(contents(before) + (seq![line@] + text_lines(s@.skip(end + 1)))
                    =~= contents(found@) + text_lines(s@.skip(end + 1)));
            } else {
                assert(s@.skip(n as int) =~= Seq::empty());
                assert(contents(before) + seq![line@] =~= contents(found@) + text_lines(
                    s@.skip(n as int),
                ));
            }
        }
        start = if end < n {
            end + 1
        } else {
            n
        };
    }
    proof {
        assert(s@.skip(n as int) =~= Seq::empty());
        assert(contents(found@) + Seq::<Seq<char>>::empty() =~= contents(found@));
    }
    found
}

/// No line of a text holds a line feed, and a text has a line unless it is empty.
pub proof fn lines_hold_no_line_feed(s: Seq<char>)
    ensures
        forall|i: int| 0 <= i < text_lines(s).len() ==> !(#[trigger] text_lines(s)[i]).contains('\n'),
        text_lines(s).len() == 0 <==> s.len() == 0,
    decreases s.len(),
{
    if s.len() > 0 {
        lemma_line_end(s);
        let end = line_end(s);
        let first = without_return(s.take(end));
        if end < s.len() {
            lines_hold_no_line_feed(s.skip(end + 1));
            assert forall|i: int| 0 <= i < text_lines(s).len() implies !(#[trigger] text_lines(
                s,
            )[i]).contains('\n') by {
                if i == 0 {
                    assert(text_lines(s)[0] == first);
                    assert forall|k: int| 0 <= k < first.len() implies first[k] != '\n' by {
                        assert(first[k] == s[k]);
                    }
                } else {
                    assert(text_lines(s)[i] == text_lines(s.skip(end + 1))[i - 1]);
                }
            }
        }
    }
}

// ---------------------------------------------------------------------
// Order
// ---------------------------------------------------------------------
/// Whether `a` does not come after `b` when texts are ordered character by
/// character.
pub open spec fn not_after(a: Seq<char>, b: Seq<char>) -> bool
    decreases a.len(),
{
    if a.len() == 0 {
        true
    } else if b.len() == 0 {
        false
    } else if a[0] == b[0] {
        not_after(a.skip(1), b.skip(1))
    } else {
        (a[0] as int) < (b[0] as int)
    }
}

/// Whether `a` does not come after `b`.
pub fn is_not_after(a: &str, b: &str) -> (r: bool)
    ensures
        r == not_after(a@, b@),
{
    let x: Vec<char> = chars_of(a);
    let y: Vec<char> = chars_of(b);
    let mut i: usize = 0;
    proof {
        assert(a@.skip(0) =~= a@);
        assert(b@.skip(0) =~= b@);
    }
    while i < x.len() && i < y.len() && x[i] == y[i]
        invariant
            i <= x.len(),
            i <= y.len(),
            x@ == a@,
            y@ == b@,
            not_after(a@, b@) == not_after(a@.skip(i as int), b@.skip(i as int)),
        decreases x.len() - i,
    {
        proof {
            assert(a@.skip(i as int).skip(1) =~= a@.skip(i + 1));
            assert(b@.skip(i as int).skip(1) =~= b@.skip(i + 1));
        }
        i = i + 1;
    }
    if i == x.len() {
        true
    } else if i == y.len() {
        false
    } else {
        x[i] < y[i]
    }
}

/// Of two texts one does not come after the other, and texts that do not come
/// after each other are the same.
pub proof fn order_is_total(a: Seq<char>, b: Seq<char>)
    ensures
        not_after(a, b) || not_after(b, a),
        not_after(a, b) && not_after(b, a) ==> a == b,
    decreases a.len(),
{
    if a.len() > 0 && b.len() > 0 && a[0] == b[0] {
        order_is_total(a.skip(1), b.skip(1));
        if not_after(a, b) && not_after(b, a) {
            assert(seq![a[0]] + a.skip(1) =~= a);
            assert(seq![b[0]] + b.skip(1) =~= b);
        }
    } else if a.len() == 0 && b.len() == 0 {
        assert(a =~= b);
    }
}

/// A text that does not come after a second one, which does not come after a
/// third one, does not come after the third one.
pub proof fn order_is_transitive(a: Seq<char>, b: Seq<char>, c: Seq<char>)
    requires
        not_after(a, b),
        not_after(b, c),
    ensures
        not_after(a, c),
    decreases a.len(),
{
    if a.len() > 0 && a[0] == b[0] && b[0] == c[0] {
        order_is_transitive(a.skip(1), b.skip(1), c.skip(1));
    }
}

// ---------------------------------------------------------------------
// Numbers
// ---------------------------------------------------------------------
/// The decimal digit of a number below ten.
pub open spec fn digit(d: int) -> char {
    ('0' as int + d) as char
}

/// The decimal notation of `n`.
pub open spec fn decimal(n: nat) -> Seq<char>
    decreases n,
{
    if n < 10 {
        seq![digit(n as int)]
    } else {
        decimal(n / 10).push(digit((n % 10) as int))
    }
}

fn digit_text(d: u64) -> (t: &'static str)
    requires
        d < 10,
    ensures
        t@ == seq![digit(d as int)],
{
    proof {
        reveal_strlit("0");
        reveal_strlit("1");
        reveal_strlit("2");
        reveal_strlit("3");
        reveal_strlit("4");
        reveal_strlit("5");
        reveal_strlit("6");
        reveal_strlit("7");
        reveal_strlit("8");
        reveal_strlit("9");
    }
    let t: &'static str = match d {
        0 => "0",
        1 => "1",
        2 => "2",
        3 => "3",
        4 => "4",
        5 => "5",
        6 => "6",
        7 => "7",
        8 => "8",
        _ => "9",
    };
    proof {
        assert(t@ =~= seq![digit(d as int)]);
    }
    t
}

/// The decimal notation of `n`.
pub fn decimal_text(n: u64) -> (t: String)
    ensures
        t@ == decimal(n as nat),
    decreases n,
{
    if n < 10 {
        String::from_str(digit_text(n))
    } else {
        let mut t: String = decimal_text(n / 10);
        t.append(digit_text(n % 10));
        proof {
            assert(t@ =~= decimal(n as nat));
        }
        t
    }
}

/// A copy of a text.
pub fn owned(s: &str) -> (t: String)
    ensures
        t@ == s@,
{
    String::from_str(s)
}

/// Two texts, one behind the other.
pub fn joined(a: &str, b: &str) -> (t: String)
    ensures
        t@ == a@ + b@,
{
    let mut t: String = String::from_str(a);
    t.append(b);
    t
}

/// Lines are separated by line feeds, with or without a carriage return in front of
/// them, and nothing else separates them: a text without line feed is one line, and
/// behind a line feed the next lines follow.
pub proof fn lines_are_separated_by_line_feeds(a: Seq<char>, b: Seq<char>)
    requires
        !a.contains('\n'),
    ensures
        a.len() > 0 ==> text_lines(a) == seq![a],
        a.len() == 0 || a.last() != '\r' ==> text_lines(a + seq!['\n'] + b) == seq![a] + text_lines(
            b,
        ),
        text_lines(a + seq!['\r', '\n'] + b) == seq![a] + text_lines(b),
{
    lemma_line_end(a);
    if a.len() > 0 {
        assert(line_end(a) == a.len()) by {
            if line_end(a) < a.len() {
                assert(a.contains(a[line_end(a)]));
            }
        }
    }
    let n = a.len() as int;
    let one = a + seq!['\n'] + b;
    lemma_first_line(a, seq!['\n'] + b);
    assert(a + (seq!['\n'] + b) =~= one);
    assert(one.take(n) =~= a);
    assert(one.skip(n + 1) =~= b);
    let two = a + seq!['\r', '\n'] + b;
    let c = a.push('\r');
    assert(!c.contains('\n')) by {
        assert forall|i: int| 0 <= i < c.len() implies c[i] != '\n' by {
            if i < n {
                assert(a.contains(a[i]));
            }
        }
    }
    lemma_first_line(c, seq!['\n'] + b);
    assert(c + (seq!['\n'] + b) =~= two);
    assert(two.take(n + 1) =~= c);
    assert(two.skip(n + 2) =~= b);
    assert(without_return(c) =~= a);
}

proof fn lemma_first_line(a: Seq<char>, rest: Seq<char>)
    requires
        !a.contains('\n'),
        rest.len() > 0,
        rest[0] == '\n',
    ensures
        line_end(a + rest) == a.len(),
{
    let s = a + rest;
    lemma_line_end(s);
    if line_end(s) < a.len() {
        assert(a[line_end(s)] == '\n');
        assert(a.contains('\n'));
    }
    if line_end(s) > a.len() {
        assert(s[a.len() as int] == '\n');
    }
}

/// Numbers are written digit by digit: every digit is one, and a number is the one
/// in front of its last digit, ten times, and that digit.
pub proof fn numbers_are_written_in_digits(n: nat)
    ensures
        decimal(n).len() > 0,
        forall|i: int| 0 <= i < decimal(n).len() ==> '0' <= #[trigger] decimal(n)[i] <= '9',
        n < 10 ==> decimal(n).len() == 1 && decimal(n)[0] as int == '0' as int + n,
        n >= 10 ==> decimal(n).drop_last() == decimal(n / 10) && decimal(n).last() as int
            == '0' as int + n % 10,
    decreases n,
{
    if n >= 10 {
        numbers_are_written_in_digits(n / 10);
        assert(decimal(n).drop_last() =~= decimal(n / 10));
        assert forall|i: int| 0 <= i < decimal(n).len() implies '0' <= #[trigger] decimal(n)[i]
            <= '9' by {
            if i < decimal(n).len() - 1 {
                assert(decimal(n)[i] == decimal(n / 10)[i]);
            }
        }
    }
}

/// The order of texts is that of their first different character, and a text comes
/// before every longer one that begins with it.
pub proof fn texts_are_ordered_by_characters(front: Seq<char>, a: Seq<char>, b: Seq<char>)
    ensures
        not_after(front, front + a),
        a.len() > 0 ==> !not_after(front + a, front),
        a.len() > 0 && b.len() > 0 && a[0] != b[0] ==> (not_after(front + a, front + b) <==> (
        a[0] as int) < (b[0] as int)),
    decreases front.len(),
{
    if front.len() == 0 {
        assert(front + a =~= a);
        assert(front + b =~= b);
    } else {
        let rest = front.skip(1);
        texts_are_ordered_by_characters(rest, a, b);
        assert((front + a).skip(1) =~= rest + a);
        assert((front + b).skip(1) =~= rest + b);
    }
}

/// What is said here of texts is said of the functions that take and give them.
pub proof fn texts_are_handled_like_this(
    s: &str,
    other: &str,
    trimmed_one: &str,
    held: bool,
    equal: bool,
    before: bool,
    parts: Vec<String>,
    n: u64,
    digits: String,
    both: String,
)
    requires
        call_ensures(trim, (s,), trimmed_one),
        call_ensures(contains, (s, other), held),
        call_ensures(same, (s, other), equal),
        call_ensures(is_not_after, (s, other), before),
        call_ensures(lines, (s,), parts),
        call_ensures(decimal_text, (n,), digits),
        call_ensures(joined, (s, other), both),
    ensures
        trimmed_one@ == trimmed(s@),
        held == is_inside(other@, s@),
        equal <==> s@ == other@,
        before == not_after(s@, other@),
        contents(parts@) == text_lines(s@),
        digits@ == decimal(n as nat),
        both@ == s@ + other@,
{
}

} // verus!
