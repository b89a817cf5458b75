//! Labels and classification of file attachments.
use vstd::prelude::*;

verus! {

/// Stems longer than this many characters are shortened for display.
pub const MAX_LEN_TO_FORMAT_NAME: usize = 15;

/// Index of the last occurrence of `c` in `s`, or `-1` when there is none.
pub open spec fn last_index_of(s: Seq<char>, c: char) -> int
    decreases s.len(),
{
    if s.len() == 0 {
        -1
    } else if s.last() == c {
        s.len() - 1
    } else {
        last_index_of(s.drop_last(), c)
    }
}

/// Where the file's own name lies within a path, as `[start, end)`: the
/// last `/`-separated component, after dropping empty and `.` components.
/// There is none when no component is left, or when the last one is `..`.
pub open spec fn file_name_range(s: Seq<char>) -> Option<(int, int)>
    decreases s.len(),
    via file_name_range_decreases
{
    let k = last_index_of(s, '/');
    let seg = s.subrange(k + 1, s.len() as int);
    if seg.len() == 0 || seg == seq!['.'] {
        if k < 0 {
            None
        } else {
            file_name_range(s.subrange(0, k))
        }
    } else if seg == seq!['.', '.'] {
        None
    } else {
        Some((k + 1, s.len() as int))
    }
}

#[via_fn]
proof fn file_name_range_decreases(s: Seq<char>) {
    lemma_last_index_bounds(s, '/');
}

/// The file's own name, or the empty sequence when the path names none.
pub open spec fn file_name_of(s: Seq<char>) -> Seq<char> {
    match file_name_range(s) {
        Some((start, end)) => s.subrange(start, end),
        None => Seq::empty(),
    }
}

/// A file name has an extension when a dot follows at least one leading
/// character (a lone leading dot, as in `.bashrc`, starts no extension).
pub open spec fn has_extension(f: Seq<char>) -> bool {
    last_index_of(f, '.') > 0
}

/// The file's name without its extension.
pub open spec fn stem_of(s: Seq<char>) -> Seq<char> {
    let f = file_name_of(s);
    if has_extension(f) {
        f.subrange(0, last_index_of(f, '.'))
    } else {
        f
    }
}

/// The extension of the file's name with its leading dot, or the empty
/// sequence.
pub open spec fn extension_of(s: Seq<char>) -> Seq<char> {
    let f = file_name_of(s);
    if has_extension(f) {
        f.subrange(last_index_of(f, '.'), f.len() as int)
    } else {
        Seq::empty()
    }
}

/// The label shown for a file: the name itself when its stem is short,
/// otherwise the name's first seven characters, an ellipsis, the last two
/// characters of the stem and the extension.
pub open spec fn display_name(s: Seq<char>) -> Seq<char> {
    let stem = stem_of(s);
    if stem.len() > MAX_LEN_TO_FORMAT_NAME {
        s.subrange(0, 7) + seq!['.', '.', '.'] + stem.subrange(stem.len() - 2, stem.len() as int)
            + extension_of(s)
    } else {
        s
    }
}

proof fn lemma_last_index_bounds(s: Seq<char>, c: char)
    ensures
        -1 <= last_index_of(s, c) < s.len(),
        last_index_of(s, c) >= 0 ==> s[last_index_of(s, c)] == c,
    decreases s.len(),
{
    if s.len() > 0 && s.last() != c {
        lemma_last_index_bounds(s.drop_last(), c);
    }
}

proof fn lemma_file_name_range_bounds(s: Seq<char>)
    ensures
        file_name_range(s) matches Some((start, end)) ==> 0 <= start < end <= s.len(),
    decreases s.len(),
{
    lemma_last_index_bounds(s, '/');
    let k = last_index_of(s, '/');
    if k >= 0 {
        lemma_file_name_range_bounds(s.subrange(0, k));
    }
}

/// Position of the last `c` in `s`, if any.
fn find_last(s: &str, c: char) -> (r: Option<usize>)
    ensures
        r is None <==> last_index_of(s@, c) == -1,
        r matches Some(i) ==> i == last_index_of(s@, c),
{
    let n = s.unicode_len();
    let mut last: Option<usize> = None;
    let mut i: usize = 0;
    while i < n
        invariant
            n == s@.len(),
            i <= n,
            last is None <==> last_index_of(s@.subrange(0, i as int), c) == -1,
            last matches Some(k) ==> k == last_index_of(s@.subrange(0, i as int), c),
        decreases n - i,
    {
        assert(s@.subrange(0, i + 1).drop_last() == s@.subrange(0, i as int));
        if s.get_char(i) == c {
            last = Some(i);
        }
        i = i + 1;
    }
    assert(s@.subrange(0, n as int) == s@);
    last
}

/// Where the file's own name lies within `s`.
fn file_name_bounds(s: &str) -> (r: Option<(usize, usize)>)
    ensures
        r is None <==> file_name_range(s@) is None,
        r matches Some((start, end)) ==> file_name_range(s@) == Some((start as int, end as int))
            && start < end <= s@.len(),
{
    let n = s.unicode_len();
    let mut end: usize = n;
    assert(s@.subrange(0, n as int) == s@);
    loop
        invariant
            n == s@.len(),
            end <= n,
            file_name_range(s@.subrange(0, end as int)) == file_name_range(s@),
        decreases end,
    {
        let prefix = s.substring_char(0, end);
        let ghost p = prefix@;
        proof {
            lemma_last_index_bounds(p, '/');
        }
        let k = find_last(prefix, '/');
        let start: usize = match k {
            Some(k) => k + 1,
            None => 0,
        };
        let ghost seg = p.subrange(start as int, end as int);
        assert(seg == s@.subrange(start as int, end as int));
        let len: usize = end - start;
        let is_dot = len == 1 && s.get_char(start) == '.';
        let is_dot_dot = len == 2 && s.get_char(start) == '.' && s.get_char(start + 1) == '.';
        if is_dot {
            assert(seg =~= seq!['.']);
        } else if len == 1 {
            assert(seg[0] != seq!['.'][0]);
        }
        if is_dot_dot {
            assert(seg =~= seq!['.', '.']);
        } else if len == 2 {
            assert(seg[0] != seq!['.', '.'][0] || seg[1] != seq!['.', '.'][1]);
        }
        if len == 0 || is_dot {
            match k {
                None => {
                    return None;
                },
                Some(k) => {
                    assert(p.subrange(0, k as int) == s@.subrange(0, k as int));
                    end = k;
                },
            }
        } else if is_dot_dot {
            return None;
        } else {
            return Some((start, end));
        }
    }
}

/// The parts of the file's own name within `s`: the stem is
/// `[start, stem_end)` and the extension `[stem_end, end)`.
fn name_parts(s: &str) -> (r: (usize, usize, usize))
    ensures
        r.0 <= r.1 <= r.2 <= s@.len(),
        stem_of(s@) == s@.subrange(r.0 as int, r.1 as int),
        extension_of(s@) == s@.subrange(r.1 as int, r.2 as int),
{
    let n = s.unicode_len();
    match file_name_bounds(s) {
        None => {
            assert(s@.subrange(n as int, n as int) =~= Seq::<char>::empty());
            (n, n, n)
        },
        Some((start, end)) => {
            let f = s.substring_char(start, end);
            proof {
                lemma_last_index_bounds(f@, '.');
            }
            match find_last(f, '.') {
                Some(d) => {
                    if d > 0 {
                        assert(f@.subrange(0, d as int) == s@.subrange(
                            start as int,
                            start + d,
                        ));
                        assert(f@.subrange(d as int, f@.len() as int) == s@.subrange(
                            start + d,
                            end as int,
                        ));
                        (start, start + d, end)
                    } else {
                        assert(s@.subrange(end as int, end as int) =~= Seq::<char>::empty());
                        (start, end, end)
                    }
                },
                None => {
                    assert(s@.subrange(end as int, end as int) =~= Seq::<char>::empty());
                    (start, end, end)
                },
            }
        },
    }
}

/// Returns the name unchanged together with its display label.
pub fn get_text(file_name: String) -> (r: (String, String))
    ensures
        r.0@ == file_name@,
        r.1@ == display_name(file_name@),
{
    let s = file_name.as_str();
    let (start, stem_end, end) = name_parts(s);
    if stem_end - start > MAX_LEN_TO_FORMAT_NAME {
        let mut formatted = String::from_str(s.substring_char(0, 7));
        proof {
            reveal_strlit("...");
        }
        formatted.append("...");
        formatted.append(s.substring_char(stem_end - 2, stem_end));
        formatted.append(s.substring_char(stem_end, end));
        let ghost stem = s@.subrange(start as int, stem_end as int);
        assert(stem.subrange(stem.len() - 2, stem.len() as int) == s@.subrange(
            stem_end - 2,
            stem_end as int,
        ));
        (file_name, formatted)
    } else {
        let formatted = file_name.clone();
        (file_name, formatted)
    }
}

/// Whether the lowercase form of `c` is the single character `lower`, where
/// `lower` is a dot, a digit or an ASCII lowercase letter: `c` is `lower`,
/// its ASCII uppercase form, or, for `k`, the Kelvin sign (U+212A), the one
/// other character whose lowercase form is an ASCII letter.
pub open spec fn lowers_to(c: char, lower: char) -> bool {
    ||| c == lower
    ||| ('a' <= lower <= 'z' && c as u32 + 32 == lower as u32)
    ||| (lower == 'k' && c == '\u{212A}')
}

/// The lowercase form of `e` is `pat`, whose characters are dots, digits and
/// ASCII lowercase letters.
pub open spec fn matches_ignoring_case(e: Seq<char>, pat: Seq<char>) -> bool {
    e.len() == pat.len() && forall|i: int|
        0 <= i < e.len() ==> lowers_to(#[trigger] e[i], pat[i])
}

/// The extensions, in lowercase and with their dot, of video files.
pub const VIDEO_FILE_EXTENSIONS: [&'static str; 8] = [
    ".mp4", ".mov", ".mkv", ".avi", ".flv", ".wmv", ".m4v", ".3gp",
];

/// The characters of `VIDEO_FILE_EXTENSIONS`.
pub open spec fn video_extensions() -> Seq<Seq<char>> {
    seq![
        seq!['.', 'm', 'p', '4'],
        seq!['.', 'm', 'o', 'v'],
        seq!['.', 'm', 'k', 'v'],
        seq!['.', 'a', 'v', 'i'],
        seq!['.', 'f', 'l', 'v'],
        seq!['.', 'w', 'm', 'v'],
        seq!['.', 'm', '4', 'v'],
        seq!['.', '3', 'g', 'p'],
    ]
}

/// A file is a video when its extension, in lowercase, is one of
/// `video_extensions()`.
pub open spec fn is_video_name(s: Seq<char>) -> bool {
    exists|k: int|
        0 <= k < video_extensions().len() && matches_ignoring_case(
            extension_of(s),
            #[trigger] video_extensions()[k],
        )
}

/// Compares the characters of `s` in `[start, end)` with the lowercase `pat`.
fn range_matches_ignoring_case(s: &str, start: usize, end: usize, pat: &Vec<char>) -> (r: bool)
    requires
        start <= end <= s@.len(),
    ensures
        r == matches_ignoring_case(s@.subrange(start as int, end as int), pat@),
{
    let n = s.unicode_len();
    let ghost e = s@.subrange(start as int, end as int);
    if end - start != pat.len() {
        return false;
    }
    let mut i: usize = 0;
    while i < pat.len()
        invariant
            n == s@.len(),
            start <= end <= n,
            e == s@.subrange(start as int, end as int),
            e.len() == pat@.len(),
            i <= pat@.len(),
            forall|j: int| 0 <= j < i ==> lowers_to(#[trigger] e[j], pat@[j]),
        decreases pat@.len() - i,
    {
        let c = s.get_char(start + i);
        let p = pat[i];
        let same = c == p || ('a' <= p && p <= 'z' && c as u32 + 32 == p as u32) || (p == 'k'
            && c == '\u{212A}');
        if !same {
            assert(!lowers_to(e[i as int], pat@[i as int]));
            return false;
        }
        i = i + 1;
    }
    true
}

/// The extensions of `video_extensions()`, as vectors.
fn video_extension_table() -> (t: Vec<Vec<char>>)
    ensures
        t@.len() == video_extensions().len(),
        forall|k: int| 0 <= k < t@.len() ==> (#[trigger] t@[k])@ == video_extensions()[k],
{
    let t = vec![
        vec!['.', 'm', 'p', '4'],
        vec!['.', 'm', 'o', 'v'],
        vec!['.', 'm', 'k', 'v'],
        vec!['.', 'a', 'v', 'i'],
        vec!['.', 'f', 'l', 'v'],
        vec!['.', 'w', 'm', 'v'],
        vec!['.', 'm', '4', 'v'],
        vec!['.', '3', 'g', 'p'],
    ];
    assert(t@.len() == video_extensions().len());
    t
}

/// Whether the file is a video, judged by its extension in any letter case.
pub fn is_video(file_name: String) -> (r: bool)
    ensures
        r == is_video_name(file_name@),
{
    let s = file_name.as_str();
    let (_, stem_end, end) = name_parts(s);
    let table = video_extension_table();
    let mut k: usize = 0;
    while k < table.len()
        invariant
            s@ == file_name@,
            stem_end <= end <= s@.len(),
            extension_of(s@) == s@.subrange(stem_end as int, end as int),
            table@.len() == video_extensions().len(),
            forall|j: int| 0 <= j < table@.len() ==> (#[trigger] table@[j])@ == video_extensions()[j],
            k <= table@.len(),
            forall|j: int|
                0 <= j < k ==> !matches_ignoring_case(extension_of(s@), #[trigger] video_extensions()[j]),
        decreases table@.len() - k,
    {
        if range_matches_ignoring_case(s, stem_end, end, &table[k]) {
            assert(table@[k as int]@ == video_extensions()[k as int]);
            assert(matches_ignoring_case(extension_of(s@), video_extensions()[k as int]));
            return true;
        }
        assert(table@[k as int]@ == video_extensions()[k as int]);
        k = k + 1;
    }
    false
}

/// A path whose file name has no extension is not a video.
pub proof fn lemma_no_extension_not_video(s: Seq<char>)
    requires
        !has_extension(file_name_of(s)),
    ensures
        !is_video_name(s),
{
    assert forall|k: int| 0 <= k < video_extensions().len() implies !matches_ignoring_case(
        extension_of(s),
        #[trigger] video_extensions()[k],
    ) by {
        assert(video_extensions()[k].len() == 4);
    }
}

/// A name whose stem has at most fifteen characters is shown unchanged.
pub proof fn lemma_short_name_unchanged(s: Seq<char>)
    requires
        stem_of(s).len() <= MAX_LEN_TO_FORMAT_NAME,
    ensures
        display_name(s) == s,
{
}

/// A name whose stem has more than fifteen characters is shown as its first
/// seven characters, an ellipsis, the last two characters of the stem and the
/// extension; the label is then shorter than the name.
pub proof fn lemma_long_name_shortened(s: Seq<char>)
    requires
        stem_of(s).len() > MAX_LEN_TO_FORMAT_NAME,
    ensures
        display_name(s) == s.subrange(0, 7) + seq!['.', '.', '.'] + stem_of(s).subrange(
            stem_of(s).len() - 2,
            stem_of(s).len() as int,
        ) + extension_of(s),
        display_name(s).len() == 12 + extension_of(s).len(),
        stem_of(s).len() + extension_of(s).len() <= s.len(),
        display_name(s).len() < s.len(),
{
    lemma_file_name_range_bounds(s);
    lemma_last_index_bounds(file_name_of(s), '.');
}

} // verus!
