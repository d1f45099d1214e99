//! Character-level text operations: suffix and prefix tests, searching,
//! splitting on a separator and joining, each with its mathematical
//! definition over `Seq<char>`.

use vstd::prelude::*;
use vstd::string::StringExecFns;

verus! {

/// `String::push` of the standard library appends one character to the end
/// of the string and leaves the characters before it as they were.
pub assume_specification[ String::push ](s: &mut String, c: char)
    ensures
        final(s)@ == old(s)@.push(c),
;

/// `s` ends with `suffix`.
pub open spec fn ends_with(s: Seq<char>, suffix: Seq<char>) -> bool {
    suffix.len() <= s.len() && s.skip(s.len() - suffix.len()) == suffix
}

/// `s` begins with `prefix`.
pub open spec fn starts_with(s: Seq<char>, prefix: Seq<char>) -> bool {
    prefix.len() <= s.len() && s.take(prefix.len() as int) == prefix
}

/// The position of the last occurrence of `c` in `s`, if there is one.
pub open spec fn last_index_of(s: Seq<char>, c: char) -> Option<int>
    decreases s.len(),
{
    if s.len() == 0 {
        None
    } else if s.last() == c {
        Some(s.len() - 1)
    } else {
        last_index_of(s.drop_last(), c)
    }
}

/// The position of the first occurrence of `c` in `s`, if there is one.
pub open spec fn first_index_of(s: Seq<char>, c: char) -> Option<int>
    decreases s.len(),
{
    if s.len() == 0 {
        None
    } else if s[0] == c {
        Some(0)
    } else {
        match first_index_of(s.skip(1), c) {
            Some(p) => Some(p + 1),
            None => None,
        }
    }
}

/// `pattern` stands in `s` at position `p`.
pub open spec fn occurs_at(s: Seq<char>, pattern: Seq<char>, p: int) -> bool {
    0 <= p && p + pattern.len() <= s.len() && s.subrange(p, p + pattern.len()) == pattern
}

/// The last position at or before `from` at which `pattern` stands in `s`.
pub open spec fn last_occurrence_up_to(s: Seq<char>, pattern: Seq<char>, from: int) -> Option<
    int,
>
    decreases from + 1,
{
    if from < 0 {
        None
    } else if occurs_at(s, pattern, from) {
        Some(from)
    } else {
        last_occurrence_up_to(s, pattern, from - 1)
    }
}

/// The last position at which `pattern` stands in `s`, if it stands in `s`.
pub open spec fn last_occurrence(s: Seq<char>, pattern: Seq<char>) -> Option<int> {
    last_occurrence_up_to(s, pattern, s.len() - pattern.len())
}

/// `s` with every copy of `suffix` at its end taken off.
pub open spec fn without_trailing(s: Seq<char>, suffix: Seq<char>) -> Seq<char>
    decreases s.len(),
{
    if suffix.len() > 0 && ends_with(s, suffix) {
        without_trailing(s.take(s.len() - suffix.len()), suffix)
    } else {
        s
    }
}

/// The segments of `s` between occurrences of `sep`. Reading from the left,
/// every separator opens a new (possibly empty) segment and every other
/// character extends the segment that is open. The empty text has one empty
/// segment.
pub open spec fn split_on(s: Seq<char>, sep: char) -> Seq<Seq<char>>
    decreases s.len(),
{
    if s.len() == 0 {
        seq![Seq::<char>::empty()]
    } else {
        let before = split_on(s.drop_last(), sep);
        if s.last() == sep {
            before.push(Seq::<char>::empty())
        } else {
            before.drop_last().push(before.last().push(s.last()))
        }
    }
}

/// The segments written one after the other with `sep` between neighbours.
pub open spec fn join(parts: Seq<Seq<char>>, sep: char) -> Seq<char>
    decreases parts.len(),
{
    if parts.len() == 0 {
        Seq::<char>::empty()
    } else if parts.len() == 1 {
        parts.last()
    } else {
        join(parts.drop_last(), sep).push(sep) + parts.last()
    }
}

/// Every part preceded by `sep`, written one after the other.
pub open spec fn each_led_by(parts: Seq<Seq<char>>, sep: Seq<char>) -> Seq<char>
    decreases parts.len(),
{
    if parts.len() == 0 {
        Seq::<char>::empty()
    } else {
        sep + parts[0] + each_led_by(parts.skip(1), sep)
    }
}

/// The parts written one after the other with the text `sep` between
/// neighbours.
pub open spec fn join_with(parts: Seq<Seq<char>>, sep: Seq<char>) -> Seq<char> {
    if parts.len() == 0 {
        Seq::<char>::empty()
    } else {
        parts[0] + each_led_by(parts.skip(1), sep)
    }
}

/// A line without the carriage return at its end, if it has one there.
pub open spec fn without_final_cr(line: Seq<char>) -> Seq<char> {
    if line.len() > 0 && line.last() == '\r' {
        line.drop_last()
    } else {
        line
    }
}

/// The lines of a text. A line ends with a line feed or with a carriage
/// return and a line feed; neither belongs to the line. What follows the
/// last line feed is a line too, unless it is empty.
pub open spec fn lines_of(text: Seq<char>) -> Seq<Seq<char>> {
    let pieces = split_on(text, '\n');
    let ended = Seq::new((pieces.len() - 1) as nat, |i: int| without_final_cr(pieces[i]));
    if pieces.last().len() == 0 {
        ended
    } else {
        ended.push(pieces.last())
    }
}

/// The first `limit` lines of a text, or all of them if it has fewer.
pub open spec fn first_lines_of(text: Seq<char>, limit: nat) -> Seq<Seq<char>> {
    let lines = lines_of(text);
    if lines.len() <= limit {
        lines
    } else {
        lines.take(limit as int)
    }
}

/// The texts of a sequence of strings.
pub open spec fn texts_of(v: Seq<String>) -> Seq<Seq<char>> {
    Seq::new(v.len(), |i: int| v[i]@)
}

/// The view of a vector of segments: the sequence of the segments' views.
pub open spec fn segments_view(parts: Seq<Vec<char>>) -> Seq<Seq<char>> {
    Seq::new(parts.len(), |i: int| parts[i]@)
}

/// `last_index_of` finds an occurrence, and nothing occurs after it; it
/// finds none exactly when the character does not occur.
pub proof fn lemma_last_index_of(s: Seq<char>, c: char)
    ensures
        match last_index_of(s, c) {
            Some(p) => 0 <= p < s.len() && s[p] == c && forall|j: int|
                p < j < s.len() ==> s[j] != c,
            None => !s.contains(c),
        },
    decreases s.len(),
{
    if s.len() > 0 && s.last() != c {
        let t = s.drop_last();
        lemma_last_index_of(t, c);
        match last_index_of(t, c) {
            Some(p) => {
                assert forall|j: int| p < j < s.len() implies s[j] != c by {
                    if j < t.len() {
                        assert(t[j] == s[j]);
                    }
                }
            },
            None => {
                assert forall|j: int| 0 <= j < s.len() implies s[j] != c by {
                    if j < t.len() {
                        assert(t[j] == s[j]);
                        assert(t.contains(t[j]));
                    }
                }
            },
        }
    }
}

/// `first_index_of` finds an occurrence, and nothing occurs before it; it
/// finds none exactly when the character does not occur.
pub proof fn lemma_first_index_of(s: Seq<char>, c: char)
    ensures
        match first_index_of(s, c) {
            Some(p) => 0 <= p < s.len() && s[p] == c && forall|j: int|
                0 <= j < p ==> s[j] != c,
            None => !s.contains(c),
        },
    decreases s.len(),
{
    if s.len() > 0 && s[0] != c {
        let t = s.skip(1);
        lemma_first_index_of(t, c);
        match first_index_of(t, c) {
            Some(p) => {
                assert(t[p] == s[p + 1]);
                assert forall|j: int| 0 <= j < p + 1 implies s[j] != c by {
                    if j > 0 {
                        assert(t[j - 1] == s[j]);
                    }
                }
            },
            None => {
                assert forall|j: int| 0 <= j < s.len() implies s[j] != c by {
                    if j > 0 {
                        assert(t[j - 1] == s[j]);
                        assert(t.contains(t[j - 1]));
                    }
                }
            },
        }
    }
}

/// Joining the segments of a text with the separator that split it gives the
/// text back.
pub proof fn lemma_join_split(s: Seq<char>, sep: char)
    ensures
        join(split_on(s, sep), sep) == s,
    decreases s.len(),
{
    if s.len() == 0 {
        assert(join(split_on(s, sep), sep) =~= s);
    } else {
        let t = s.drop_last();
        let before = split_on(t, sep);
        lemma_join_split(t, sep);
        let parts = split_on(s, sep);
        if s.last() == sep {
            assert(parts.drop_last() =~= before);
            assert(join(parts, sep) =~= t.push(sep) + Seq::<char>::empty());
            assert(t.push(sep) =~= s);
        } else {
            let c = s.last();
            if before.len() == 1 {
                assert(before.last() == t);
                assert(parts.last() =~= s);
            } else {
                assert(parts.drop_last() =~= before.drop_last());
                assert(join(before, sep) == join(before.drop_last(), sep).push(sep)
                    + before.last());
                assert(join(parts, sep) == join(parts.drop_last(), sep).push(sep)
                    + parts.last());
                assert(join(parts, sep) =~= t.push(c));
                assert(t.push(c) =~= s);
            }
        }
    }
}

/// The characters of a string slice, as a vector.
pub fn str_chars(s: &str) -> (v: Vec<char>)
    ensures
        v@ == s@,
{
    broadcast use vstd::string::group_string_axioms;

    let mut v: Vec<char> = Vec::new();
    for c in it: s.chars()
        invariant
            it.seq() == s@,
            v@ == s@.take(it.index()),
    {
        v.push(c);
    }
    assert(s@.take(s@.len() as int) == s@);
    v
}

/// The string made of the given characters.
pub fn chars_to_string(v: &Vec<char>) -> (s: String)
    ensures
        s@ == v@,
{
    let mut s = String::new();
    let mut i: usize = 0;
    while i < v.len()
        invariant
            i <= v.len(),
            s@ == v@.take(i as int),
        decreases v.len() - i,
    {
        s.push(v[i]);
        i += 1;
    }
    assert(v@.take(v@.len() as int) == v@);
    s
}

/// Appends the characters of `src` to `dst`.
pub fn push_chars(dst: &mut Vec<char>, src: &Vec<char>)
    ensures
        final(dst)@ == old(dst)@ + src@,
{
    let mut i: usize = 0;
    while i < src.len()
        invariant
            i <= src.len(),
            dst@ == old(dst)@ + src@.take(i as int),
        decreases src.len() - i,
    {
        dst.push(src[i]);
        i += 1;
    }
    assert(src@.take(src@.len() as int) == src@);
}

/// The characters of `s` from position `from` up to, not including, `to`.
pub fn sub_chars(s: &Vec<char>, from: usize, to: usize) -> (r: Vec<char>)
    requires
        from <= to <= s.len(),
    ensures
        r@ == s@.subrange(from as int, to as int),
{
    let mut r: Vec<char> = Vec::new();
    let mut i: usize = from;
    while i < to
        invariant
            from <= i <= to <= s.len(),
            r@ == s@.subrange(from as int, i as int),
        decreases to - i,
    {
        r.push(s[i]);
        i += 1;
    }
    r
}

/// Whether two character vectors hold the same text.
pub fn chars_equal(a: &Vec<char>, b: &Vec<char>) -> (r: bool)
    ensures
        r == (a@ == b@),
{
    if a.len() != b.len() {
        return false;
    }
    let mut i: usize = 0;
    while i < a.len()
        invariant
            i <= a.len(),
            a.len() == b.len(),
            a@.take(i as int) == b@.take(i as int),
        decreases a.len() - i,
    {
        if a[i] != b[i] {
            return false;
        }
        assert(a@.take(i + 1) == a@.take(i as int).push(a@[i as int]));
        assert(b@.take(i + 1) == b@.take(i as int).push(b@[i as int]));
        i += 1;
    }
    assert(a@.take(a@.len() as int) == a@);
    assert(b@.take(b@.len() as int) == b@);
    true
}

/// Whether `s` ends with `suffix`.
pub fn chars_end_with(s: &Vec<char>, suffix: &Vec<char>) -> (r: bool)
    ensures
        r == ends_with(s@, suffix@),
{
    if suffix.len() > s.len() {
        return false;
    }
    let offset: usize = s.len() - suffix.len();
    let ghost tail = s@.skip(offset as int);
    let mut i: usize = 0;
    while i < suffix.len()
        invariant
            i <= suffix.len(),
            offset + suffix.len() == s.len(),
            tail == s@.skip(offset as int),
            tail.take(i as int) == suffix@.take(i as int),
        decreases suffix.len() - i,
    {
        if s[offset + i] != suffix[i] {
            assert(tail[i as int] != suffix@[i as int]);
            return false;
        }
        assert(tail.take(i + 1) == tail.take(i as int).push(tail[i as int]));
        assert(suffix@.take(i + 1) == suffix@.take(i as int).push(suffix@[i as int]));
        i += 1;
    }
    assert(tail.take(tail.len() as int) == tail);
    assert(suffix@.take(suffix@.len() as int) == suffix@);
    true
}

/// Whether `s` begins with `prefix`.
pub fn chars_start_with(s: &Vec<char>, prefix: &Vec<char>) -> (r: bool)
    ensures
        r == starts_with(s@, prefix@),
{
    if prefix.len() > s.len() {
        return false;
    }
    let ghost head = s@.take(prefix.len() as int);
    let mut i: usize = 0;
    while i < prefix.len()
        invariant
            i <= prefix.len() <= s.len(),
            head == s@.take(prefix.len() as int),
            head.take(i as int) == prefix@.take(i as int),
        decreases prefix.len() - i,
    {
        if s[i] != prefix[i] {
            assert(head[i as int] != prefix@[i as int]);
            return false;
        }
        assert(head.take(i + 1) == head.take(i as int).push(head[i as int]));
        assert(prefix@.take(i + 1) == prefix@.take(i as int).push(prefix@[i as int]));
        i += 1;
    }
    assert(head.take(head.len() as int) == head);
    assert(prefix@.take(prefix@.len() as int) == prefix@);
    true
}

/// Whether `c` occurs in `s`.
pub fn chars_contain(s: &Vec<char>, c: char) -> (r: bool)
    ensures
        r == s@.contains(c),
{
    let mut i: usize = 0;
    while i < s.len()
        invariant
            i <= s.len(),
            forall|j: int| 0 <= j < i ==> s@[j] != c,
        decreases s.len() - i,
    {
        if s[i] == c {
            return true;
        }
        i += 1;
    }
    false
}

/// The position of the last occurrence of `c` in `s`.
pub fn last_position(s: &Vec<char>, c: char) -> (r: Option<usize>)
    ensures
        match r {
            Some(p) => last_index_of(s@, c) == Some(p as int),
            None => last_index_of(s@, c) is None,
        },
{
    let mut i: usize = s.len();
    assert(s@.take(i as int) == s@);
    while i > 0
        invariant
            i <= s.len(),
            last_index_of(s@, c) == last_index_of(s@.take(i as int), c),
        decreases i,
    {
        let ghost cur = s@.take(i as int);
        i -= 1;
        assert(cur.last() == s@[i as int]);
        if s[i] == c {
            return Some(i);
        }
        assert(cur.drop_last() == s@.take(i as int));
    }
    None
}

/// The position of the first occurrence of `c` in `s`.
pub fn first_position(s: &Vec<char>, c: char) -> (r: Option<usize>)
    ensures
        match r {
            Some(p) => first_index_of(s@, c) == Some(p as int) && p < s.len(),
            None => first_index_of(s@, c) is None,
        },
{
    let mut i: usize = 0;
    while i < s.len()
        invariant
            i <= s.len(),
            forall|j: int| 0 <= j < i ==> s@[j] != c,
        decreases s.len() - i,
    {
        if s[i] == c {
            proof {
                lemma_first_index_of(s@, c);
            }
            return Some(i);
        }
        i += 1;
    }
    proof {
        lemma_first_index_of(s@, c);
    }
    None
}

/// Whether `pattern` stands in `s` at position `p`.
pub fn stands_at(s: &Vec<char>, pattern: &Vec<char>, p: usize) -> (r: bool)
    ensures
        r == occurs_at(s@, pattern@, p as int),
{
    if pattern.len() > s.len() || p > s.len() - pattern.len() {
        return false;
    }
    let ghost window = s@.subrange(p as int, p + pattern.len());
    let mut i: usize = 0;
    while i < pattern.len()
        invariant
            i <= pattern.len(),
            p + pattern.len() <= s.len(),
            window == s@.subrange(p as int, p + pattern.len()),
            window.take(i as int) == pattern@.take(i as int),
        decreases pattern.len() - i,
    {
        if s[p + i] != pattern[i] {
            assert(window[i as int] != pattern@[i as int]);
            return false;
        }
        assert(window.take(i + 1) == window.take(i as int).push(window[i as int]));
        assert(pattern@.take(i + 1) == pattern@.take(i as int).push(pattern@[i as int]));
        i += 1;
    }
    assert(window.take(window.len() as int) == window);
    assert(pattern@.take(pattern@.len() as int) == pattern@);
    true
}

/// The last position at which `pattern` stands in `s`.
pub fn last_match(s: &Vec<char>, pattern: &Vec<char>) -> (r: Option<usize>)
    ensures
        match r {
            Some(p) => last_occurrence(s@, pattern@) == Some(p as int) && p + pattern.len()
                <= s.len(),
            None => last_occurrence(s@, pattern@) is None,
        },
{
    if pattern.len() > s.len() {
        return None;
    }
    let mut i: usize = s.len() - pattern.len();
    loop
        invariant
            pattern.len() <= s.len(),
            i <= s.len() - pattern.len(),
            last_occurrence(s@, pattern@) == last_occurrence_up_to(s@, pattern@, i as int),
        decreases i,
    {
        if stands_at(s, pattern, i) {
            return Some(i);
        }
        if i == 0 {
            return None;
        }
        i -= 1;
    }
}

/// `s` with every copy of `suffix` at its end taken off.
pub fn strip_trailing(s: &Vec<char>, suffix: &Vec<char>) -> (r: Vec<char>)
    ensures
        r@ == without_trailing(s@, suffix@),
{
    let mut end: usize = s.len();
    assert(s@.take(end as int) == s@);
    if suffix.len() > 0 {
        loop
            invariant
                suffix.len() > 0,
                end <= s.len(),
                without_trailing(s@, suffix@) == without_trailing(s@.take(end as int), suffix@),
            ensures
                !ends_with(s@.take(end as int), suffix@),
            decreases end,
        {
            let head = sub_chars(s, 0, end);
            if !chars_end_with(&head, suffix) {
                break ;
            }
            assert(s@.take(end as int).take(end - suffix.len()) == s@.take(end - suffix.len()));
            end = end - suffix.len();
        }
    }
    sub_chars(s, 0, end)
}

/// The parts written one after the other with `sep` between neighbours.
pub fn join_strings(parts: &Vec<String>, sep: &str) -> (r: String)
    ensures
        r@ == join_with(texts_of(parts@), sep@),
{
    let ghost texts = texts_of(parts@);
    let mut out = String::new();
    if parts.len() == 0 {
        return out;
    }
    out.append(parts[0].as_str());
    let mut i: usize = 1;
    assert(out@ =~= texts[0]);
    while i < parts.len()
        invariant
            1 <= i <= parts.len(),
            texts == texts_of(parts@),
            out@ + each_led_by(texts.skip(i as int), sep@) == join_with(texts, sep@),
        decreases parts.len() - i,
    {
        let ghost rest = texts.skip(i as int);
        let ghost before = out@;
        assert(rest[0] == parts@[i as int]@);
        assert(rest.skip(1) == texts.skip(i + 1));
        out.append(sep);
        out.append(parts[i].as_str());
        assert(out@ + each_led_by(texts.skip(i + 1), sep@) =~= before + each_led_by(rest, sep@));
        i += 1;
    }
    assert(each_led_by(texts.skip(texts.len() as int), sep@) =~= Seq::<char>::empty());
    assert(out@ + Seq::<char>::empty() =~= out@);
    out
}

/// The first `limit` lines of a text.
pub fn first_lines(text: &str, limit: usize) -> (lines: Vec<String>)
    ensures
        texts_of(lines@) == first_lines_of(text@, limit as nat),
{
    let pieces = split_chars(&str_chars(text), '\n');
    let ghost segs = segments_view(pieces@);
    let ghost all = lines_of(text@);
    let last = pieces.len() - 1;
    let mut lines: Vec<String> = Vec::new();
    let mut i: usize = 0;
    assert(texts_of(lines@) =~= all.take(0));
    while i < last && i < limit
        invariant
            i <= last,
            i <= limit,
            last == pieces.len() - 1,
            segs == segments_view(pieces@),
            segs == split_on(text@, '\n'),
            all == lines_of(text@),
            texts_of(lines@) == all.take(i as int),
        decreases last - i,
    {
        let piece = &pieces[i];
        assert(segs[i as int] == piece@);
        let end: usize = if piece.len() > 0 && piece[piece.len() - 1] == '\r' {
            piece.len() - 1
        } else {
            piece.len()
        };
        let line = sub_chars(piece, 0, end);
        assert(line@ == without_final_cr(piece@));
        let ghost before = texts_of(lines@);
        lines.push(chars_to_string(&line));
        assert(texts_of(lines@) =~= before.push(line@));
        assert(all.take(i + 1) =~= all.take(i as int).push(all[i as int]));
        i += 1;
    }
    if i < limit && pieces[last].len() > 0 {
        assert(segs[last as int] == pieces@[last as int]@);
        let ghost before = texts_of(lines@);
        lines.push(chars_to_string(&pieces[last]));
        assert(texts_of(lines@) =~= before.push(pieces@[last as int]@));
        assert(all.take(all.len() as int) == all);
        assert(texts_of(lines@) =~= all);
    } else {
        assert(texts_of(lines@) =~= first_lines_of(text@, limit as nat));
    }
    lines
}

/// Splits `s` at every occurrence of `sep`.
pub fn split_chars(s: &Vec<char>, sep: char) -> (parts: Vec<Vec<char>>)
    ensures
        segments_view(parts@) == split_on(s@, sep),
        parts.len() >= 1,
{
    let mut done: Vec<Vec<char>> = Vec::new();
    let mut open: Vec<char> = Vec::new();
    let mut i: usize = 0;
    assert(segments_view(done@).push(open@) =~= split_on(s@.take(0), sep));
    while i < s.len()
        invariant
            i <= s.len(),
            segments_view(done@).push(open@) == split_on(s@.take(i as int), sep),
        decreases s.len() - i,
    {
        let ghost seen = s@.take(i as int);
        let ghost next = s@.take(i + 1);
        let ghost before = segments_view(done@).push(open@);
        assert(next.drop_last() == seen);
        assert(next.last() == s@[i as int]);
        if s[i] == sep {
            done.push(open);
            open = Vec::new();
            assert(segments_view(done@) =~= before);
            assert(segments_view(done@).push(open@) =~= before.push(Seq::<char>::empty()));
        } else {
            let ghost old_open = open@;
            open.push(s[i]);
            assert(before.drop_last() =~= segments_view(done@));
            assert(before.last() == old_open);
        }
        i += 1;
    }
    assert(s@.take(s@.len() as int) == s@);
    let ghost before = segments_view(done@).push(open@);
    done.push(open);
    assert(segments_view(done@) =~= before);
    done
}

} // verus!
