//! Rules on path text: where the file name of a path starts, what its stem and
//! extension are, which paths are conversion candidates and where the output of
//! a candidate goes.
//!
//! A path is a sequence of characters with `/` as the separator. The file name
//! of a path is what follows its last separator, so a path that ends in a
//! separator names no file.

use vstd::prelude::*;
use vstd::string::*;

verus! {

/// Index of the last occurrence of `c` in `s`, or `-1` where `s` holds none.
pub open spec fn last_index_of(s: Seq<char>, c: char) -> int
    decreases s.len(),
{
    if s.len() == 0 {
        -1
    } else if s.last() == c {
        s.len() - 1
    } else {
        last_index_of(s.drop_last(), c)
    }
}

/// `i` is the place of the last `c` in `s`: `s` holds `c` there and nowhere
/// behind it, or `i` is `-1` and `s` holds no `c` at all.
pub open spec fn is_last_index_of(s: Seq<char>, c: char, i: int) -> bool {
    &&& -1 <= i < s.len()
    &&& i >= 0 ==> s[i] == c
    &&& forall|j: int| i < j < s.len() ==> s[j] != c
}

/// `last_index_of` is the one index that `is_last_index_of` describes.
pub proof fn lemma_last_index_of(s: Seq<char>, c: char)
    ensures
        is_last_index_of(s, c, last_index_of(s, c)),
        forall|i: int| is_last_index_of(s, c, i) ==> i == last_index_of(s, c),
    decreases s.len(),
{
    if s.len() > 0 && s.last() != c {
        let t = s.drop_last();
        lemma_last_index_of(t, c);
        let k = last_index_of(t, c);
        assert(is_last_index_of(s, c, k)) by {
            assert(k >= 0 ==> s[k] == t[k]);
            assert forall|j: int| k < j < s.len() implies s[j] != c by {
                if j < t.len() {
                    assert(s[j] == t[j]);
                }
            }
        }
    }
    let r = last_index_of(s, c);
    assert forall|i: int| is_last_index_of(s, c, i) implies i == r by {
        if i < r {
            assert(s[r] == c);
        } else if r < i {
            assert(s[i] == c);
        }
    }
}

/// ASCII capitals go to their small letters, every other character to itself.
pub open spec fn ascii_lower(c: char) -> char {
    if 'A' <= c && c <= 'Z' {
        ((c as u8) + 32) as char
    } else {
        c
    }
}

/// Equality of two texts up to the case of their ASCII letters.
pub open spec fn eq_ignore_ascii_case(a: Seq<char>, b: Seq<char>) -> bool {
    &&& a.len() == b.len()
    &&& forall|i: int| 0 <= i < a.len() ==> ascii_lower(a[i]) == ascii_lower(b[i])
}

/// Extension of the source format.
pub open spec fn source_extension() -> Seq<char> {
    seq!['h', 'e', 'i', 'c']
}

/// Extension of the target format.
pub open spec fn target_extension() -> Seq<char> {
    seq!['j', 'p', 'g']
}

/// The file name of `path`: what follows its last separator.
pub open spec fn spec_file_name(path: Seq<char>) -> Seq<char> {
    path.subrange(last_index_of(path, '/') + 1, path.len() as int)
}

/// Index in the file name `name` of the dot that parts stem and extension.
/// A name has none where it holds no dot, where its only dot comes first, and
/// where it is `..`.
pub open spec fn extension_dot(name: Seq<char>) -> Option<int> {
    let dot = last_index_of(name, '.');
    if dot <= 0 || name == seq!['.', '.'] {
        None
    } else {
        Some(dot)
    }
}

/// The extension of `path`: what follows the extension dot of its file name.
pub open spec fn spec_extension(path: Seq<char>) -> Option<Seq<char>> {
    let name = spec_file_name(path);
    match extension_dot(name) {
        Some(dot) => Some(name.subrange(dot + 1, name.len() as int)),
        None => None,
    }
}

/// The stem of `path`: its file name up to the extension dot, or the whole
/// file name where it has no extension.
pub open spec fn spec_file_stem(path: Seq<char>) -> Seq<char> {
    let name = spec_file_name(path);
    match extension_dot(name) {
        Some(dot) => name.subrange(0, dot),
        None => name,
    }
}

/// A path is a candidate where its extension is that of the source format,
/// whatever the case of its letters.
pub open spec fn spec_is_candidate(path: Seq<char>) -> bool {
    match spec_extension(path) {
        Some(ext) => eq_ignore_ascii_case(ext, source_extension()),
        None => false,
    }
}

/// `name` placed in the directory `dir`: a separator comes between the two
/// unless `dir` is empty or ends in one.
pub open spec fn spec_join(dir: Seq<char>, name: Seq<char>) -> Seq<char> {
    if dir.len() == 0 || dir.last() == '/' {
        dir + name
    } else {
        dir + seq!['/'] + name
    }
}

/// File name of the output for `source`: its stem, a dot and the target
/// extension.
pub open spec fn spec_output_name(source: Seq<char>) -> Seq<char> {
    spec_file_stem(source) + seq!['.'] + target_extension()
}

/// Where the output for `source` goes: its output name, directly in
/// `output_root`.
pub open spec fn spec_output_path(output_root: Seq<char>, source: Seq<char>) -> Seq<char> {
    spec_join(output_root, spec_output_name(source))
}

/// The last `c` of a text that is cut at `k` is the last `c` of the whole text
/// where that lies at or behind `k`, and the cut text holds none otherwise.
pub proof fn lemma_last_index_of_suffix(s: Seq<char>, k: int, c: char)
    requires
        0 <= k <= s.len(),
    ensures
        last_index_of(s.subrange(k, s.len() as int), c) == if last_index_of(s, c) >= k {
            last_index_of(s, c) - k
        } else {
            -1
        },
{
    let t = s.subrange(k, s.len() as int);
    let whole = last_index_of(s, c);
    let cut = if whole >= k {
        whole - k
    } else {
        -1
    };
    lemma_last_index_of(s, c);
    lemma_last_index_of(t, c);
    assert(is_last_index_of(t, c, cut)) by {
        assert forall|j: int| cut < j < t.len() implies t[j] != c by {
            assert(t[j] == s[j + k]);
        }
    }
}

/// The last `c` of two texts put together is the last `c` of the second, or
/// that of the first where the second holds none.
pub proof fn lemma_last_index_of_concat(a: Seq<char>, b: Seq<char>, c: char)
    ensures
        last_index_of(a + b, c) == if last_index_of(b, c) >= 0 {
            a.len() + last_index_of(b, c)
        } else {
            last_index_of(a, c)
        },
{
    let whole = a + b;
    let joined = if last_index_of(b, c) >= 0 {
        a.len() + last_index_of(b, c)
    } else {
        last_index_of(a, c)
    };
    lemma_last_index_of(a, c);
    lemma_last_index_of(b, c);
    lemma_last_index_of(whole, c);
    assert(is_last_index_of(whole, c, joined)) by {
        assert forall|j: int| joined < j < whole.len() implies whole[j] != c by {
            if j < a.len() {
                assert(whole[j] == a[j]);
            } else {
                assert(whole[j] == b[j - a.len()]);
            }
        }
        if last_index_of(b, c) >= 0 {
            assert(whole[joined] == b[joined - a.len()]);
        } else if joined >= 0 {
            assert(whole[joined] == a[joined]);
        }
    }
}

/// A path is what leads to its file name, then the file name. The file name
/// holds no separator, and what leads to it is empty or ends in one.
pub proof fn lemma_file_name(path: Seq<char>)
    ensures
        0 <= last_index_of(path, '/') + 1 <= path.len(),
        path == path.subrange(0, last_index_of(path, '/') + 1) + spec_file_name(path),
        !spec_file_name(path).contains('/'),
        last_index_of(path, '/') >= 0 ==> path[last_index_of(path, '/')] == '/',
{
    lemma_last_index_of(path, '/');
    let start = last_index_of(path, '/') + 1;
    let name = spec_file_name(path);
    assert(path =~= path.subrange(0, start) + name);
    assert forall|i: int| 0 <= i < name.len() implies name[i] != '/' by {
        assert(name[i] == path[start + i]);
    }
}

/// A file name is its stem where it has no extension, and its stem, a dot and
/// its extension where it has one. No stem is empty but that of an empty file
/// name, and neither stem nor extension holds a separator.
pub proof fn lemma_stem_and_extension(path: Seq<char>)
    ensures
        match spec_extension(path) {
            Some(ext) => spec_file_name(path) == spec_file_stem(path) + seq!['.'] + ext
                && !ext.contains('.') && !ext.contains('/'),
            None => spec_file_name(path) == spec_file_stem(path),
        },
        spec_file_stem(path).len() == 0 <==> spec_file_name(path).len() == 0,
        !spec_file_stem(path).contains('/'),
{
    lemma_file_name(path);
    let name = spec_file_name(path);
    let stem = spec_file_stem(path);
    lemma_last_index_of(name, '.');
    assert forall|i: int| 0 <= i < stem.len() implies stem[i] != '/' by {
        assert(stem[i] == name[i]);
        assert(name.contains(name[i]));
    }
    match spec_extension(path) {
        Some(ext) => {
            let dot = last_index_of(name, '.');
            assert(name =~= stem + seq!['.'] + ext);
            assert forall|i: int| 0 <= i < ext.len() implies ext[i] != '.' && ext[i] != '/' by {
                assert(ext[i] == name[dot + 1 + i]);
                assert(name.contains(name[dot + 1 + i]));
            }
        },
        None => {},
    }
}

/// The stem of a candidate is not empty.
pub proof fn lemma_candidate_has_stem(path: Seq<char>)
    requires
        spec_is_candidate(path),
    ensures
        spec_file_stem(path).len() > 0,
        spec_file_name(path).len() == spec_file_stem(path).len() + 5,
{
    lemma_stem_and_extension(path);
}

/// The output for a source with a stem lies directly in the output root: its
/// file name is the output name of the source. It keeps the stem of the
/// source and has the target extension.
pub proof fn lemma_output_path_parts(output_root: Seq<char>, source: Seq<char>)
    requires
        spec_file_stem(source).len() > 0,
    ensures
        spec_file_name(spec_output_path(output_root, source)) == spec_output_name(source),
        spec_file_stem(spec_output_path(output_root, source)) == spec_file_stem(source),
        spec_extension(spec_output_path(output_root, source)) == Some(target_extension()),
{
    let stem = spec_file_stem(source);
    let name = spec_output_name(source);
    let out = spec_output_path(output_root, source);
    lemma_stem_and_extension(source);
    // The output name holds no separator, and its last dot is the one behind the stem.
    let tail = seq!['.'] + target_extension();
    assert(name =~= stem + tail);
    assert(is_last_index_of(tail, '/', -1));
    assert(is_last_index_of(tail, '.', 0));
    lemma_last_index_of(tail, '/');
    lemma_last_index_of(tail, '.');
    lemma_last_index_of(stem, '/');
    assert(last_index_of(stem, '/') == -1) by {
        if last_index_of(stem, '/') >= 0 {
            assert(stem.contains(stem[last_index_of(stem, '/')]));
        }
    }
    lemma_last_index_of_concat(stem, tail, '/');
    lemma_last_index_of_concat(stem, tail, '.');
    // What leads to the output name ends in a separator, or is empty.
    let lead = if output_root.len() == 0 || output_root.last() == '/' {
        output_root
    } else {
        output_root + seq!['/']
    };
    assert(out =~= lead + name);
    lemma_last_index_of(lead, '/');
    lemma_last_index_of_concat(lead, name, '/');
    assert(last_index_of(lead, '/') == lead.len() - 1) by {
        if lead.len() > 0 {
            assert(is_last_index_of(lead, '/', lead.len() - 1));
        }
    }
    assert(spec_file_name(out) =~= name);
    assert(name.subrange(0, stem.len() as int) =~= stem);
    assert(name.subrange(stem.len() as int + 1, name.len() as int) =~= target_extension());
    assert(name.len() == stem.len() + 4);
    assert(name != seq!['.', '.']) by {
        assert(seq!['.', '.'].len() == 2);
    }
}

/// Two sources go to the same output in one output root exactly where they
/// have the same stem.
pub proof fn lemma_same_output_iff_same_stem(output_root: Seq<char>, a: Seq<char>, b: Seq<char>)
    ensures
        spec_output_path(output_root, a) == spec_output_path(output_root, b) <==> spec_file_stem(a)
            == spec_file_stem(b),
{
    let lead = if output_root.len() == 0 || output_root.last() == '/' {
        output_root
    } else {
        output_root + seq!['/']
    };
    let tail = seq!['.'] + target_extension();
    let sa = spec_file_stem(a);
    let sb = spec_file_stem(b);
    let oa = spec_output_path(output_root, a);
    let ob = spec_output_path(output_root, b);
    assert(oa =~= lead + sa + tail);
    assert(ob =~= lead + sb + tail);
    if oa == ob {
        assert(sa.len() == sb.len());
        assert forall|i: int| 0 <= i < sa.len() implies sa[i] == sb[i] by {
            assert(oa[lead.len() + i] == sa[i]);
            assert(ob[lead.len() + i] == sb[i]);
        }
        assert(sa =~= sb);
    }
}

/// The characters of a text, one by one.
fn chars_of(text: &str) -> (chars: Vec<char>)
    ensures
        chars@ == text@,
{
    let mut chars: Vec<char> = Vec::new();
    for c in it: text.chars()
        invariant
            chars@ == it.seq().take(it.index() as int),
    {
        chars.push(c);
    }
    chars
}

/// The small letter of an ASCII capital, and any other character unchanged.
fn to_ascii_lower(c: char) -> (lower: char)
    ensures
        lower == ascii_lower(c),
{
    if 'A' <= c && c <= 'Z' {
        ((c as u8) + 32) as char
    } else {
        c
    }
}

/// Place of the last `c` among `chars`.
fn find_last(chars: &Vec<char>, c: char) -> (found: Option<usize>)
    ensures
        match found {
            Some(i) => i < chars.len() && i as int == last_index_of(chars@, c),
            None => last_index_of(chars@, c) == -1,
        },
{
    let mut i: usize = chars.len();
    while i > 0
        invariant
            i <= chars.len(),
            forall|j: int| i <= j < chars.len() ==> chars@[j] != c,
        decreases i,
    {
        i -= 1;
        if chars[i] == c {
            proof {
                lemma_last_index_of(chars@, c);
                assert(is_last_index_of(chars@, c, i as int));
            }
            return Some(i);
        }
    }
    proof {
        lemma_last_index_of(chars@, c);
        assert(is_last_index_of(chars@, c, -1));
    }
    None
}

/// Where the parts of a path lie among its characters.
struct Parts {
    /// Index of the first character of the file name.
    name_start: usize,
    /// Index of the extension dot, or the length of the path where the file
    /// name has no extension.
    stem_end: usize,
    /// Number of characters of the path.
    len: usize,
}

impl Parts {
    /// The bounds are those of the file name, stem and extension of `path`.
    spec fn describes(self, path: Seq<char>) -> bool {
        &&& self.len == path.len()
        &&& self.name_start == last_index_of(path, '/') + 1
        &&& self.name_start <= self.stem_end <= self.len
        &&& match extension_dot(spec_file_name(path)) {
            Some(dot) => self.stem_end == self.name_start + dot && self.stem_end < self.len,
            None => self.stem_end == self.len,
        }
    }
}

/// Finds the file name, stem and extension among the characters of a path.
fn locate(chars: &Vec<char>) -> (parts: Parts)
    ensures
        parts.describes(chars@),
{
    let len = chars.len();
    let name_start: usize = match find_last(chars, '/') {
        Some(i) => i + 1,
        None => 0,
    };
    let ghost name = spec_file_name(chars@);
    proof {
        lemma_last_index_of(chars@, '/');
        lemma_last_index_of(chars@, '.');
        lemma_last_index_of(name, '.');
        lemma_last_index_of_suffix(chars@, name_start as int, '.');
    }
    let dotted: bool = len - name_start == 2 && chars[name_start] == '.' && chars[name_start + 1]
        == '.';
    proof {
        if dotted {
            assert(name =~= seq!['.', '.']);
        } else if name == seq!['.', '.'] {
            assert(name[0] == '.' && name[1] == '.');
        }
    }
    let stem_end: usize = match find_last(chars, '.') {
        Some(dot) => if dot > name_start && !dotted {
            dot
        } else {
            len
        },
        None => len,
    };
    Parts { name_start, stem_end, len }
}

/// The file name of `path`: what follows its last separator.
pub fn file_name(path: &str) -> (name: String)
    ensures
        name@ == spec_file_name(path@),
{
    let chars = chars_of(path);
    let parts = locate(&chars);
    path.substring_char(parts.name_start, parts.len).to_owned()
}

/// The stem of `path`: its file name without the extension.
pub fn file_stem(path: &str) -> (stem: String)
    ensures
        stem@ == spec_file_stem(path@),
{
    let chars = chars_of(path);
    let parts = locate(&chars);
    proof {
        let name = spec_file_name(path@);
        assert(name.subrange(0, parts.stem_end - parts.name_start) =~= path@.subrange(
            parts.name_start as int,
            parts.stem_end as int,
        ));
    }
    path.substring_char(parts.name_start, parts.stem_end).to_owned()
}

/// The extension of `path`, without its dot, or `None` where the file name
/// has none.
pub fn extension(path: &str) -> (ext: Option<String>)
    ensures
        match ext {
            Some(e) => spec_extension(path@) == Some(e@),
            None => spec_extension(path@) is None,
        },
{
    let chars = chars_of(path);
    let parts = locate(&chars);
    if parts.stem_end < parts.len {
        proof {
            let name = spec_file_name(path@);
            assert(name.subrange(parts.stem_end - parts.name_start + 1, name.len() as int)
                =~= path@.subrange(parts.stem_end + 1, parts.len as int));
        }
        Some(path.substring_char(parts.stem_end + 1, parts.len).to_owned())
    } else {
        None
    }
}

/// Whether `path` is a conversion candidate: its extension is `heic` in any
/// mix of small and capital letters.
pub fn is_candidate(path: &str) -> (candidate: bool)
    ensures
        candidate == spec_is_candidate(path@),
{
    let chars = chars_of(path);
    let parts = locate(&chars);
    if parts.stem_end < parts.len && parts.len - parts.stem_end == 5 {
        let first = parts.stem_end + 1;
        let matches = to_ascii_lower(chars[first]) == 'h' && to_ascii_lower(chars[first + 1])
            == 'e' && to_ascii_lower(chars[first + 2]) == 'i' && to_ascii_lower(chars[first + 3])
            == 'c';
        proof {
            let ext = spec_extension(path@).unwrap();
            let want = source_extension();
            assert(ext =~= path@.subrange(first as int, parts.len as int));
            assert(ext[0] == chars@[first as int] && ext[1] == chars@[first + 1] && ext[2]
                == chars@[first + 2] && ext[3] == chars@[first + 3]);
            assert(want[0] == 'h' && want[1] == 'e' && want[2] == 'i' && want[3] == 'c');
        }
        matches
    } else {
        proof {
            if spec_extension(path@) is Some {
                let ext = spec_extension(path@).unwrap();
                assert(ext.len() == parts.len - parts.stem_end - 1);
            }
        }
        false
    }
}

/// The name of the target format, which is also the extension of every
/// output.
pub fn target_format() -> (format: &'static str)
    ensures
        format@ == target_extension(),
{
    proof {
        reveal_strlit("jpg");
        assert("jpg"@ =~= target_extension());
    }
    "jpg"
}

/// Where the output for `source` goes: directly in `output_root`, under the
/// stem of `source` with the extension `jpg`.
pub fn output_path(output_root: &str, source: &str) -> (destination: String)
    ensures
        destination@ == spec_output_path(output_root@, source@),
{
    let stem = file_stem(source);
    let mut destination = output_root.to_owned();
    let root_len = output_root.unicode_len();
    if root_len > 0 && output_root.get_char(root_len - 1) != '/' {
        destination.append("/");
    }
    destination.append(stem.as_str());
    destination.append(".");
    destination.append(target_format());
    proof {
        reveal_strlit("/");
        reveal_strlit(".");
        assert("."@ =~= seq!['.']);
        assert("/"@ =~= seq!['/']);
        assert(destination@ =~= spec_output_path(output_root@, source@));
    }
    destination
}

} // verus!
