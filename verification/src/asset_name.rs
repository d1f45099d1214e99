//! Version-agnostic names for release assets.
//!
//! An asset such as `bat-v0.26.1-x86_64-unknown-linux-gnu.tar.gz` gets the
//! stable name `latest-x86_64-unknown-linux-gnu.tar.gz`, so that one link can
//! always point at the newest build for a platform and archive format.

use crate::text::{
    chars_contain, chars_end_with, chars_to_string, ends_with, join, last_index_of,
    last_position, lemma_last_index_of, push_chars, segments_view, split_chars, split_on,
    str_chars, sub_chars,
};
use vstd::prelude::*;
use vstd::string::StrSliceExecFns;

verus! {

/// The extensions that are recognised as such whatever precedes them, in the
/// order in which they are tried: the more specific ones come first.
pub open spec fn known_exts() -> Seq<Seq<char>> {
    seq![
        ".tar.gz.sha256"@,
        ".tar.xz.sha256"@,
        ".tar.bz2.sha256"@,
        ".tar.zst.sha256"@,
        ".zip.sha256"@,
        ".xz.sha256"@,
        ".gz.sha256"@,
        ".bz2.sha256"@,
        ".xz.asc"@,
        ".tar.gz"@,
        ".tar.xz"@,
        ".tar.bz2"@,
        ".tar.zst"@,
        ".xz"@,
        ".gz"@,
        ".bz2"@,
        ".zst"@,
        ".zip"@,
        ".sha256"@,
        ".sha512"@,
        ".exe"@,
        ".msi"@,
        ".deb"@,
        ".rpm"@,
    ]
}

/// The number of known extensions.
pub const KNOWN_EXT_COUNT: usize = 24;

/// The known extension at position `i` of the table.
pub fn known_ext(i: usize) -> (e: &'static str)
    requires
        i < KNOWN_EXT_COUNT,
    ensures
        e@ == known_exts()[i as int],
{
    match i {
        0 => ".tar.gz.sha256",
        1 => ".tar.xz.sha256",
        2 => ".tar.bz2.sha256",
        3 => ".tar.zst.sha256",
        4 => ".zip.sha256",
        5 => ".xz.sha256",
        6 => ".gz.sha256",
        7 => ".bz2.sha256",
        8 => ".xz.asc",
        9 => ".tar.gz",
        10 => ".tar.xz",
        11 => ".tar.bz2",
        12 => ".tar.zst",
        13 => ".xz",
        14 => ".gz",
        15 => ".bz2",
        16 => ".zst",
        17 => ".zip",
        18 => ".sha256",
        19 => ".sha512",
        20 => ".exe",
        21 => ".msi",
        22 => ".deb",
        _ => ".rpm",
    }
}

/// The first known extension, at position `from` of the table or later, that
/// `name` ends with.
pub open spec fn first_known_ext(name: Seq<char>, from: int) -> Option<int>
    decreases known_exts().len() - from,
{
    if from < 0 || from >= known_exts().len() {
        None
    } else if ends_with(name, known_exts()[from]) {
        Some(from)
    } else {
        first_known_ext(name, from + 1)
    }
}

/// `c` is one of the ten ASCII decimal digits.
pub open spec fn is_digit(c: char) -> bool {
    '0' <= c && c <= '9'
}

/// Every character of `s` is an ASCII decimal digit.
pub open spec fn all_digits(s: Seq<char>) -> bool {
    forall|i: int| 0 <= i < s.len() ==> is_digit(#[trigger] s[i])
}

/// What follows the last dot of a name counts as a file type only if it is
/// not empty, holds no dash and is not a number: the `2` of `linux-6.19.2`
/// belongs to a version.
pub open spec fn looks_like_file_type(suffix: Seq<char>) -> bool {
    suffix.len() > 0 && !suffix.contains('-') && !all_digits(suffix)
}

/// A file name parted into stem and extension. A known extension wins, the
/// first of the table that fits; else the name is parted at its last dot if
/// what follows looks like a file type; else the whole name is the stem.
pub open spec fn spec_split_stem_ext(name: Seq<char>) -> (Seq<char>, Seq<char>) {
    match first_known_ext(name, 0) {
        Some(i) => (name.take(name.len() - known_exts()[i].len()), known_exts()[i]),
        None => match last_index_of(name, '.') {
            Some(p) => if looks_like_file_type(name.skip(p + 1)) {
                (name.take(p), name.skip(p))
            } else {
                (name, Seq::<char>::empty())
            },
            None => (name, Seq::<char>::empty()),
        },
    }
}

/// The number that a text of decimal digits denotes.
pub open spec fn digits_value(s: Seq<char>) -> nat
    decreases s.len(),
{
    if s.len() == 0 {
        0
    } else {
        digits_value(s.drop_last()) * 10 + (s.last() as u32 - '0' as u32) as nat
    }
}

/// `s` is the decimal notation of an integer between 0 and `u64::MAX`: one
/// or more digits, after an optional plus sign.
pub open spec fn parses_as_u64(s: Seq<char>) -> bool {
    let digits = if s.len() > 0 && s[0] == '+' {
        s.skip(1)
    } else {
        s
    };
    digits.len() > 0 && all_digits(digits) && digits_value(digits) <= u64::MAX
}

/// A segment is version-shaped if, after an optional leading `v`, its first
/// two dot-separated fields are both numbers: `14.0.2`, `v0.26.1`.
pub open spec fn is_version_segment(seg: Seq<char>) -> bool {
    let body = if seg.len() > 0 && seg[0] == 'v' {
        seg.skip(1)
    } else {
        seg
    };
    let fields = split_on(body, '.');
    fields.len() >= 2 && parses_as_u64(fields[0]) && parses_as_u64(fields[1])
}

/// The position of the first version-shaped segment at `from` or later.
pub open spec fn first_version_from(parts: Seq<Seq<char>>, from: int) -> Option<int>
    decreases parts.len() - from,
{
    if from < 0 || from >= parts.len() {
        None
    } else if is_version_segment(parts[from]) {
        Some(from)
    } else {
        first_version_from(parts, from + 1)
    }
}

/// The character that separates the fields of a stem: a dash if the stem
/// holds one, else an underscore.
pub open spec fn separator_of(stem: Seq<char>) -> char {
    if stem.contains('-') {
        '-'
    } else {
        '_'
    }
}

/// The segments that stay: those after the version segment or, where there
/// is no version segment, all but the first.
pub open spec fn kept_segments(parts: Seq<Seq<char>>) -> Seq<Seq<char>> {
    match first_version_from(parts, 0) {
        Some(i) => parts.skip(i + 1),
        None => parts.skip(1),
    }
}

/// The stable name of an asset: `latest`, then the kept segments of the stem,
/// each behind the separator, then the extension.
pub open spec fn spec_rename_to_latest(name: Seq<char>) -> Seq<char> {
    let (stem, ext) = spec_split_stem_ext(name);
    let sep = separator_of(stem);
    let kept = kept_segments(split_on(stem, sep));
    let middle = if kept.len() > 0 {
        seq![sep] + join(kept, sep)
    } else {
        Seq::<char>::empty()
    };
    "latest"@ + middle + ext
}

/// What a requested extension is compared with: `tar.gz`, `tar.bz2` or
/// `tar.xz` where the name ends so, else what follows the last dot, else the
/// whole name.
pub open spec fn spec_extract_extension(name: Seq<char>) -> Seq<char> {
    if ends_with(name, ".tar.gz"@) {
        "tar.gz"@
    } else if ends_with(name, ".tar.bz2"@) {
        "tar.bz2"@
    } else if ends_with(name, ".tar.xz"@) {
        "tar.xz"@
    } else {
        match last_index_of(name, '.') {
            Some(p) => name.skip(p + 1),
            None => name,
        }
    }
}

/// Each segment preceded by the separator, written one after the other.
spec fn led_by(parts: Seq<Seq<char>>, sep: char) -> Seq<char>
    decreases parts.len(),
{
    if parts.len() == 0 {
        Seq::<char>::empty()
    } else {
        led_by(parts.drop_last(), sep).push(sep) + parts.last()
    }
}

proof fn lemma_led_by_is_join(parts: Seq<Seq<char>>, sep: char)
    requires
        parts.len() > 0,
    ensures
        led_by(parts, sep) == seq![sep] + join(parts, sep),
    decreases parts.len(),
{
    if parts.len() == 1 {
        assert(parts.drop_last().len() == 0);
        assert(led_by(parts.drop_last(), sep) =~= Seq::<char>::empty());
        assert(led_by(parts, sep) =~= seq![sep] + join(parts, sep));
    } else {
        lemma_led_by_is_join(parts.drop_last(), sep);
        assert(led_by(parts, sep) =~= seq![sep] + join(parts, sep));
    }
}

/// A prefix of a text of digits denotes no more than the whole text.
proof fn lemma_digits_value_grows(s: Seq<char>, n: int)
    requires
        0 <= n <= s.len(),
    ensures
        digits_value(s.take(n)) <= digits_value(s),
    decreases s.len(),
{
    if n == s.len() {
        assert(s.take(n) == s);
    } else {
        assert(s.drop_last().take(n) == s.take(n));
        lemma_digits_value_grows(s.drop_last(), n);
    }
}

/// The stem and the extension of a name are the name cut in two.
pub proof fn lemma_split_is_a_cut(name: Seq<char>)
    ensures
        spec_split_stem_ext(name).0 + spec_split_stem_ext(name).1 == name,
{
    match first_known_ext(name, 0) {
        Some(i) => {
            lemma_first_known_ext(name, 0);
            let ext = known_exts()[i];
            assert(name.take(name.len() - ext.len()) + name.skip(name.len() - ext.len())
                =~= name);
        },
        None => {
            lemma_last_index_of(name, '.');
            match last_index_of(name, '.') {
                Some(p) => {
                    assert(name.take(p) + name.skip(p) =~= name);
                    assert(name + Seq::<char>::empty() =~= name);
                },
                None => {
                    assert(name + Seq::<char>::empty() =~= name);
                },
            }
        },
    }
}

proof fn lemma_first_known_ext(name: Seq<char>, from: int)
    ensures
        first_known_ext(name, from) matches Some(i) ==> from <= i < known_exts().len()
            && ends_with(name, known_exts()[i]),
    decreases known_exts().len() - from,
{
    if 0 <= from < known_exts().len() && !ends_with(name, known_exts()[from]) {
        lemma_first_known_ext(name, from + 1);
    }
}

/// Whether `c` is an ASCII decimal digit.
fn char_is_digit(c: char) -> (r: bool)
    ensures
        r == is_digit(c),
{
    '0' <= c && c <= '9'
}

/// Whether every character of `s` is an ASCII decimal digit.
fn chars_all_digits(s: &Vec<char>) -> (r: bool)
    ensures
        r == all_digits(s@),
{
    let mut i: usize = 0;
    while i < s.len()
        invariant
            i <= s.len(),
            forall|j: int| 0 <= j < i ==> is_digit(#[trigger] s@[j]),
        decreases s.len() - i,
    {
        if !char_is_digit(s[i]) {
            assert(!is_digit(s@[i as int]));
            return false;
        }
        i += 1;
    }
    true
}

/// Whether `s` is the decimal notation of a `u64`, as `parses_as_u64` says.
pub fn is_u64_text(s: &Vec<char>) -> (r: bool)
    ensures
        r == parses_as_u64(s@),
{
    let start: usize = if s.len() > 0 && s[0] == '+' {
        1
    } else {
        0
    };
    let ghost digits = s@.skip(start as int);
    assert(digits == if s@.len() > 0 && s@[0] == '+' {
        s@.skip(1)
    } else {
        s@
    });
    if start == s.len() {
        return false;
    }
    let mut acc: u64 = 0;
    let mut i: usize = start;
    assert(digits.take(0) =~= Seq::<char>::empty());
    while i < s.len()
        invariant
            start <= i <= s.len(),
            digits == s@.skip(start as int),
            digits == if s@.len() > 0 && s@[0] == '+' {
                s@.skip(1)
            } else {
                s@
            },
            all_digits(digits.take(i - start)),
            acc == digits_value(digits.take(i - start)),
        decreases s.len() - i,
    {
        let c = s[i];
        let ghost seen = digits.take(i - start);
        let ghost next = digits.take(i - start + 1);
        assert(digits[i - start] == c);
        if !char_is_digit(c) {
            assert(!is_digit(digits[i - start]));
            return false;
        }
        assert(next.drop_last() == seen);
        assert(next.last() == c);
        assert(all_digits(next)) by {
            assert forall|j: int| 0 <= j < next.len() implies is_digit(#[trigger] next[j]) by {
                if j < seen.len() {
                    assert(seen[j] == next[j]);
                }
            }
        }
        let d: u64 = (c as u32 - '0' as u32) as u64;
        let grown = match acc.checked_mul(10) {
            Some(tenfold) => tenfold.checked_add(d),
            None => None,
        };
        match grown {
            Some(value) => {
                acc = value;
            },
            None => {
                proof {
                    assert(digits_value(next) > u64::MAX);
                    lemma_digits_value_grows(digits, i - start + 1);
                }
                return false;
            },
        }
        i += 1;
    }
    assert(digits.take(digits.len() as int) == digits);
    true
}

/// Whether a segment is version-shaped.
pub fn segment_is_version(seg: &Vec<char>) -> (r: bool)
    ensures
        r == is_version_segment(seg@),
{
    let start: usize = if seg.len() > 0 && seg[0] == 'v' {
        1
    } else {
        0
    };
    let body = sub_chars(seg, start, seg.len());
    assert(body@ == if seg@.len() > 0 && seg@[0] == 'v' {
        seg@.skip(1)
    } else {
        seg@
    });
    let fields = split_chars(&body, '.');
    if fields.len() < 2 {
        return false;
    }
    assert(segments_view(fields@)[0] == fields@[0]@);
    assert(segments_view(fields@)[1] == fields@[1]@);
    is_u64_text(&fields[0]) && is_u64_text(&fields[1])
}

/// The position of the first version-shaped segment.
fn first_version(parts: &Vec<Vec<char>>) -> (r: Option<usize>)
    ensures
        match r {
            Some(i) => i < parts.len() && first_version_from(segments_view(parts@), 0) == Some(
                i as int,
            ),
            None => first_version_from(segments_view(parts@), 0) is None,
        },
{
    let ghost segs = segments_view(parts@);
    let mut i: usize = 0;
    while i < parts.len()
        invariant
            i <= parts.len(),
            segs == segments_view(parts@),
            first_version_from(segs, 0) == first_version_from(segs, i as int),
        decreases parts.len() - i,
    {
        assert(segs[i as int] == parts@[i as int]@);
        if segment_is_version(&parts[i]) {
            return Some(i);
        }
        i += 1;
    }
    None
}

/// Where the extension of `name` begins: the length of its stem.
fn stem_length(name: &Vec<char>) -> (k: usize)
    ensures
        k <= name.len(),
        (name@.take(k as int), name@.skip(k as int)) == spec_split_stem_ext(name@),
{
    let mut i: usize = 0;
    assert(known_exts().len() == KNOWN_EXT_COUNT);
    while i < KNOWN_EXT_COUNT
        invariant
            i <= KNOWN_EXT_COUNT,
            known_exts().len() == KNOWN_EXT_COUNT,
            first_known_ext(name@, 0) == first_known_ext(name@, i as int),
        decreases KNOWN_EXT_COUNT - i,
    {
        let ext = str_chars(known_ext(i));
        if chars_end_with(name, &ext) {
            return name.len() - ext.len();
        }
        i += 1;
    }
    assert(first_known_ext(name@, 0) is None);
    match last_position(name, '.') {
        Some(p) => {
            assert(p < name.len()) by {
                lemma_last_index_of(name@, '.');
            }
            let suffix = sub_chars(name, p + 1, name.len());
            if suffix.len() > 0 && !chars_contain(&suffix, '-') && !chars_all_digits(&suffix) {
                p
            } else {
                assert(name@.take(name@.len() as int) == name@);
                assert(name@.skip(name@.len() as int) == Seq::<char>::empty());
                name.len()
            }
        },
        None => {
            assert(name@.take(name@.len() as int) == name@);
            assert(name@.skip(name@.len() as int) == Seq::<char>::empty());
            name.len()
        },
    }
}

/// Parts a file name into its stem and its extension. The extension is one
/// of the known extensions, or what follows the last dot where that looks
/// like a file type, or empty.
pub fn split_stem_ext(filename: &str) -> (r: (&str, &str))
    ensures
        (r.0@, r.1@) == spec_split_stem_ext(filename@),
        r.0@ + r.1@ == filename@,
{
    let chars = str_chars(filename);
    let k = stem_length(&chars);
    proof {
        lemma_split_is_a_cut(filename@);
    }
    (filename.substring_char(0, k), filename.substring_char(k, chars.len()))
}

/// The stable name of an asset: its file name with the application's name
/// and the version taken out and `latest` put in their place.
pub fn rename_to_latest(filename: &str) -> (r: String)
    ensures
        r@ == spec_rename_to_latest(filename@),
{
    let chars = str_chars(filename);
    let k = stem_length(&chars);
    let stem = sub_chars(&chars, 0, k);
    let ext = sub_chars(&chars, k, chars.len());
    let sep: char = if chars_contain(&stem, '-') {
        '-'
    } else {
        '_'
    };
    let parts = split_chars(&stem, sep);
    let ghost segs = segments_view(parts@);

    let first_kept: usize = match first_version(&parts) {
        Some(version) => version + 1,
        None => 1,
    };
    let ghost kept = segs.skip(first_kept as int);
    assert(kept == kept_segments(segs));

    let mut out = str_chars("latest");
    let mut j: usize = first_kept;
    assert(kept.take(0) =~= Seq::<Seq<char>>::empty());
    assert(out@ =~= "latest"@ + led_by(kept.take(0), sep));
    while j < parts.len()
        invariant
            first_kept <= j <= parts.len(),
            segs == segments_view(parts@),
            kept == segs.skip(first_kept as int),
            out@ == "latest"@ + led_by(kept.take(j - first_kept), sep),
        decreases parts.len() - j,
    {
        let ghost done = kept.take(j - first_kept);
        let ghost more = kept.take(j - first_kept + 1);
        assert(more.drop_last() =~= done);
        assert(more.last() == parts@[j as int]@);
        out.push(sep);
        push_chars(&mut out, &parts[j]);
        assert(out@ =~= "latest"@ + led_by(more, sep));
        j += 1;
    }
    proof {
        assert(kept.take(kept.len() as int) == kept);
        if kept.len() > 0 {
            lemma_led_by_is_join(kept, sep);
        }
    }
    push_chars(&mut out, &ext);
    chars_to_string(&out)
}

/// The extension by which an asset is found when only an extension is asked
/// for.
pub fn extract_extension(name: &str) -> (r: String)
    ensures
        r@ == spec_extract_extension(name@),
{
    let chars = str_chars(name);
    if chars_end_with(&chars, &str_chars(".tar.gz")) {
        return "tar.gz".to_owned();
    }
    if chars_end_with(&chars, &str_chars(".tar.bz2")) {
        return "tar.bz2".to_owned();
    }
    if chars_end_with(&chars, &str_chars(".tar.xz")) {
        return "tar.xz".to_owned();
    }
    match last_position(&chars, '.') {
        Some(p) => {
            assert(p < chars.len()) by {
                lemma_last_index_of(name@, '.');
            }
            let tail = sub_chars(&chars, p + 1, chars.len());
            chars_to_string(&tail)
        },
        None => chars_to_string(&chars),
    }
}

} // verus!
