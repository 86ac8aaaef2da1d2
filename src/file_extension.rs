use vstd::prelude::*;

use crate::filesystem_error::{FSErrorKind, FileSystemError, FileSystemResult};

verus! {

/// The kinds of asset file that the application tells apart by their suffix.
#[derive(Debug, Clone, Copy, PartialEq, Eq, Hash, Structural)]
pub enum FileExtension {
    GLTF,
    FLAC,
    OGG,
    TGA,
    TOML,
}

/// The index of the last `c` in `s`, or -1 where `s` holds none.
pub open spec fn last_index_of(s: Seq<char>, c: char) -> int
    decreases s.len(),
{
    if s.len() == 0 {
        -1
    } else if s.last() == c {
        s.len() - 1
    } else {
        last_index_of(s.drop_last(), c)
    }
}

/// The last component of the path `p`: what follows its last separator.
pub open spec fn file_name(p: Seq<char>) -> Seq<char> {
    p.subrange(last_index_of(p, '/') + 1, p.len() as int)
}

/// The suffix of the file name of `p`: what follows the last dot of the file
/// name, where that dot is not its first character.
pub open spec fn extension(p: Seq<char>) -> Option<Seq<char>> {
    let name = file_name(p);
    let dot = last_index_of(name, '.');
    if dot <= 0 {
        None
    } else {
        Some(name.subrange(dot + 1, name.len() as int))
    }
}

/// The asset kind that a suffix names.
pub open spec fn extension_kind(ext: Seq<char>) -> Option<FileExtension> {
    if ext == "gltf"@ {
        Some(FileExtension::GLTF)
    } else if ext == "flac"@ {
        Some(FileExtension::FLAC)
    } else if ext == "ogg"@ {
        Some(FileExtension::OGG)
    } else if ext == "tga"@ {
        Some(FileExtension::TGA)
    } else if ext == "toml"@ {
        Some(FileExtension::TOML)
    } else {
        None
    }
}

/// The asset kind of the path `p`, if its suffix names one.
pub open spec fn spec_file_extension(p: Seq<char>) -> Option<FileExtension> {
    match extension(p) {
        Some(ext) => extension_kind(ext),
        None => None,
    }
}

/// The detail of the error for a path without a supported suffix.
pub open spec fn extension_error_detail() -> Seq<char> {
    "The file has no supported extension"@
}

proof fn lemma_last_index_of_bounds(s: Seq<char>, c: char)
    ensures
        -1 <= last_index_of(s, c) < s.len(),
        last_index_of(s, c) >= 0 ==> s[last_index_of(s, c)] == c,
    decreases s.len(),
{
    if s.len() > 0 && s.last() != c {
        lemma_last_index_of_bounds(s.drop_last(), c);
    }
}

/// The index of the last `c` in `s`.
fn find_last(s: &str, c: char) -> (r: Option<usize>)
    ensures
        match r {
            Some(i) => last_index_of(s@, c) == i as int,
            None => last_index_of(s@, c) == -1,
        },
{
    let mut i = s.unicode_len();
    assert(s@.subrange(0, i as int) =~= s@);
    while i > 0
        invariant
            i <= s@.len(),
            last_index_of(s@, c) == last_index_of(s@.subrange(0, i as int), c),
        decreases i,
    {
        let prefix = Ghost(s@.subrange(0, i as int));
        assert(prefix@.drop_last() =~= s@.subrange(0, i - 1));
        if s.get_char(i - 1) == c {
            return Some(i - 1);
        }
        i = i - 1;
    }
    assert(s@.subrange(0, 0).len() == 0);
    None
}

/// Whether `a` and `b` hold the same characters.
fn same_text(a: &str, b: &str) -> (r: bool)
    ensures
        r == (a@ == b@),
{
    let n = a.unicode_len();
    if n != b.unicode_len() {
        return false;
    }
    let mut i: usize = 0;
    while i < n
        invariant
            n == a@.len(),
            n == b@.len(),
            i <= n,
            forall|j: int| 0 <= j < i ==> a@[j] == b@[j],
        decreases n - i,
    {
        if a.get_char(i) != b.get_char(i) {
            return false;
        }
        i = i + 1;
    }
    assert(a@ =~= b@);
    true
}

/// The asset kind of `path`, taken from the suffix of its file name. A path
/// whose file name has no suffix, or one of another kind, is an extension
/// error.
pub fn get_extension(path: &str) -> (r: FileSystemResult<FileExtension>)
    ensures
        match spec_file_extension(path@) {
            Some(kind) => r matches Ok(k) && k == kind,
            None => r matches Err(e) && e@ is ExtensionError && e@.detail() == extension_error_detail(),
        },
{
    let len = path.unicode_len();
    proof {
        lemma_last_index_of_bounds(path@, '/');
    }
    let start = match find_last(path, '/') {
        Some(i) => i + 1,
        None => 0,
    };
    let name = path.substring_char(start, len);
    assert(name@ == file_name(path@));
    let found = match find_last(name, '.') {
        Some(dot) => {
            if dot == 0 {
                None
            } else {
                proof {
                    lemma_last_index_of_bounds(name@, '.');
                }
                let ext = name.substring_char(dot + 1, name.unicode_len());
                if same_text(ext, "gltf") {
                    Some(FileExtension::GLTF)
                } else if same_text(ext, "flac") {
                    Some(FileExtension::FLAC)
                } else if same_text(ext, "ogg") {
                    Some(FileExtension::OGG)
                } else if same_text(ext, "tga") {
                    Some(FileExtension::TGA)
                } else if same_text(ext, "toml") {
                    Some(FileExtension::TOML)
                } else {
                    None
                }
            }
        },
        None => None,
    };
    match found {
        Some(kind) => Ok(kind),
        None => Err(
            FileSystemError::new(FSErrorKind::ExtensionError(String::from_str("The file has no supported extension"))),
        ),
    }
}

} // verus!
