//! File-name extensions and the list of recognised image formats.

use vstd::prelude::*;

verus! {

/// Whether extensions are compared exactly or with ASCII letters folded.
#[derive(Clone, Copy, Debug, PartialEq, Eq, Structural)]
pub enum CaseMode {
    Sensitive,
    Insensitive,
}

/// The code point of `c` with an ASCII upper-case letter taken to its
/// lower-case form; any other character keeps its own code point.
pub open spec fn ascii_lower(c: char) -> u32 {
    if 'A' <= c && c <= 'Z' {
        ((c as u32) + 32) as u32
    } else {
        c as u32
    }
}

/// The code points of `s` with ASCII letters folded to lower case.
pub open spec fn ascii_lower_seq(s: Seq<char>) -> Seq<u32> {
    s.map_values(|c: char| ascii_lower(c))
}

/// Index of the last `'.'` in `s`, or -1 when there is none.
pub open spec fn last_dot(s: Seq<char>) -> int
    decreases s.len(),
{
    if s.len() == 0 {
        -1
    } else if s.last() == '.' {
        s.len() - 1
    } else {
        last_dot(s.drop_last())
    }
}

/// The extension of a file name: what follows its last dot, provided that
/// dot is not the name's first character (a hidden file such as `.png` has
/// no extension).
pub open spec fn extension_of(name: Seq<char>) -> Option<Seq<char>> {
    let d = last_dot(name);
    if d > 0 {
        Some(name.subrange(d + 1, name.len() as int))
    } else {
        None
    }
}

/// Whether an extension is the same as a listed format under `mode`.
pub open spec fn ext_matches(ext: Seq<char>, format: Seq<char>, mode: CaseMode) -> bool {
    match mode {
        CaseMode::Sensitive => ext == format,
        CaseMode::Insensitive => ascii_lower_seq(ext) == ascii_lower_seq(format),
    }
}

/// Whether `ext` is one of `formats` under `mode`.
pub open spec fn is_listed(ext: Seq<char>, formats: Seq<String>, mode: CaseMode) -> bool {
    exists|k: int| 0 <= k < formats.len() && ext_matches(ext, #[trigger] formats[k]@, mode)
}

/// The extensions this viewer can decode.
pub open spec fn supported_formats() -> Seq<Seq<char>> {
    seq!["jpeg"@, "jpg"@, "png"@, "gif"@, "bmp"@, "tiff"@, "ico"@, "webp"@]
}

/// The code point of `c`, with an ASCII upper-case letter folded to lower case.
pub fn lower_char(c: char) -> (r: u32)
    ensures
        r == ascii_lower(c),
{
    if 'A' <= c && c <= 'Z' {
        (c as u32) + 32
    } else {
        c as u32
    }
}

/// The extensions of image files that the viewer lists.
pub fn get_supported_file_extensions() -> (r: Vec<String>)
    ensures
        r@.map_values(|s: String| s@) == supported_formats(),
{
    let r: Vec<String> = vec![
        String::from_str("jpeg"),
        String::from_str("jpg"),
        String::from_str("png"),
        String::from_str("gif"),
        String::from_str("bmp"),
        String::from_str("tiff"),
        String::from_str("ico"),
        String::from_str("webp"),
    ];
    assert(r@.map_values(|s: String| s@) =~= supported_formats());
    r
}

/// Position of the last dot of `name`, if any.
fn find_last_dot(name: &str) -> (r: Option<usize>)
    ensures
        match r {
            Some(d) => d as int == last_dot(name@) && d < name@.len(),
            None => last_dot(name@) == -1,
        },
{
    let n = name.unicode_len();
    let mut i: usize = n;
    assert(name@.subrange(0, n as int) =~= name@);
    while i > 0
        invariant
            i <= n == name@.len(),
            last_dot(name@) == last_dot(name@.subrange(0, i as int)),
        decreases i,
    {
        let ghost pre = name@.subrange(0, i as int);
        assert(pre.drop_last() =~= name@.subrange(0, i - 1));
        if name.get_char(i - 1) == '.' {
            return Some(i - 1);
        }
        i = i - 1;
    }
    assert(name@.subrange(0, 0) =~= Seq::<char>::empty());
    None
}

/// The extension of a file name, as `extension_of` describes it.
pub fn file_extension(name: &str) -> (r: Option<&str>)
    ensures
        match r {
            Some(e) => extension_of(name@) == Some(e@),
            None => extension_of(name@) is None,
        },
{
    proof { lemma_last_dot_bounds(name@); }
    let n = name.unicode_len();
    match find_last_dot(name) {
        Some(d) => {
            if d > 0 {
                Some(name.substring_char(d + 1, n))
            } else {
                None
            }
        },
        None => None,
    }
}

proof fn lemma_last_dot_bounds(s: Seq<char>)
    ensures
        -1 <= last_dot(s) < s.len(),
        last_dot(s) >= 0 ==> s[last_dot(s)] == '.',
    decreases s.len(),
{
    if s.len() > 0 && s.last() != '.' {
        lemma_last_dot_bounds(s.drop_last());
    }
}

/// Whether two extensions match under `mode`.
pub fn extension_matches(ext: &str, format: &str, mode: CaseMode) -> (r: bool)
    ensures
        r == ext_matches(ext@, format@, mode),
{
    let n = ext.unicode_len();
    if n != format.unicode_len() {
        proof {
            if mode == CaseMode::Insensitive {
                assert(ascii_lower_seq(ext@).len() != ascii_lower_seq(format@).len());
            }
        }
        return false;
    }
    let mut i: usize = 0;
    while i < n
        invariant
            n == ext@.len() == format@.len(),
            i <= n,
            forall|j: int|
                0 <= j < i ==> (match mode {
                    CaseMode::Sensitive => ext@[j] == format@[j],
                    CaseMode::Insensitive => ascii_lower(ext@[j]) == ascii_lower(format@[j]),
                }),
        decreases n - i,
    {
        let a = ext.get_char(i);
        let b = format.get_char(i);
        let same = match mode {
            CaseMode::Sensitive => a == b,
            CaseMode::Insensitive => lower_char(a) == lower_char(b),
        };
        if !same {
            proof {
                match mode {
                    CaseMode::Sensitive => assert(ext@[i as int] != format@[i as int]),
                    CaseMode::Insensitive => {
                        assert(ascii_lower_seq(ext@)[i as int] != ascii_lower_seq(format@)[i as int]);
                    },
                }
            }
            return false;
        }
        i = i + 1;
    }
    proof {
        match mode {
            CaseMode::Sensitive => assert(ext@ =~= format@),
            CaseMode::Insensitive => assert(ascii_lower_seq(ext@) =~= ascii_lower_seq(format@)),
        }
    }
    true
}

/// Whether `ext` is one of `formats` under `mode`.
pub fn is_supported_extension(ext: &str, formats: &Vec<String>, mode: CaseMode) -> (r: bool)
    ensures
        r == is_listed(ext@, formats@, mode),
{
    let mut k: usize = 0;
    while k < formats.len()
        invariant
            k <= formats@.len(),
            forall|j: int| 0 <= j < k ==> !ext_matches(ext@, #[trigger] formats@[j]@, mode),
        decreases formats.len() - k,
    {
        if extension_matches(ext, formats[k].as_str(), mode) {
            return true;
        }
        k = k + 1;
    }
    false
}

} // verus!
