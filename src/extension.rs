use vstd::prelude::*;
use vstd::string::*;
use crate::outside::{extension_of, path_extension};

verus! {

/// ASCII lower-case of one character; other characters are kept.
pub open spec fn ascii_lower(c: char) -> char {
    if 'A' <= c && c <= 'Z' {
        (((c as u32) + 32) as u8) as char
    } else {
        c
    }
}

/// Two strings are equal when ASCII letters are compared without case.
pub open spec fn eq_ignore_ascii_case(a: Seq<char>, b: Seq<char>) -> bool {
    &&& a.len() == b.len()
    &&& forall|i: int| 0 <= i < a.len() ==> #[trigger] ascii_lower(a[i]) == ascii_lower(b[i])
}

/// The extension that marks a FLAC file.
pub open spec fn flac_word() -> Seq<char> {
    seq!['f', 'l', 'a', 'c']
}

/// A path names a FLAC file when its extension is `flac`, in any case.
pub open spec fn is_flac_name(p: Seq<char>) -> bool {
    extension_of(p) is Some && eq_ignore_ascii_case(extension_of(p).unwrap(), flac_word())
}

fn lower_char(c: char) -> (r: char)
    ensures
        r == ascii_lower(c),
{
    if 'A' <= c && c <= 'Z' {
        (((c as u32) + 32) as u8) as char
    } else {
        c
    }
}

/// Whether `ext` equals `flac` when ASCII case is ignored.
pub fn is_flac_extension(ext: &str) -> (r: bool)
    ensures
        r == eq_ignore_ascii_case(ext@, flac_word()),
{
    proof {
        reveal_strlit("flac");
    }
    let word = "flac";
    let n = ext.unicode_len();
    if n != 4 {
        return false;
    }
    let mut i: usize = 0;
    while i < 4
        invariant
            n == 4,
            ext@.len() == 4,
            word@ == flac_word(),
            0 <= i <= 4,
            forall|j: int| 0 <= j < i ==> #[trigger] ascii_lower(ext@[j]) == ascii_lower(word@[j]),
        decreases 4 - i,
    {
        if lower_char(ext.get_char(i)) != lower_char(word.get_char(i)) {
            return false;
        }
        i = i + 1;
    }
    true
}

/// Whether the file at `path` qualifies as FLAC by its extension.
pub fn is_flac_path(path: &str) -> (r: bool)
    ensures
        r == is_flac_name(path@),
{
    match path_extension(path) {
        Some(ext) => is_flac_extension(ext.as_str()),
        None => false,
    }
}

} // verus!
