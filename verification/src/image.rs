use vstd::prelude::*;

use crate::ids::{is_random_uuid, new_uuid};
use base64::Engine;

verus! {

// ---------------------------------------------------------------------------
// File extensions
// ---------------------------------------------------------------------------

/// Index of the last occurrence of `c` in `s`, or -1 when `c` does not occur.
pub open spec fn last_index_of(s: Seq<char>, c: char) -> int
    decreases s.len(),
{
    if s.len() == 0 {
        -1
    } else if s.last() == c {
        s.len() - 1
    } else {
        last_index_of(s.drop_last(), c)
    }
}

/// The last component of a `/`-separated path.
pub open spec fn file_name_of(path: Seq<char>) -> Seq<char> {
    path.subrange(last_index_of(path, '/') + 1, path.len() as int)
}

/// The extension of a path: what follows the last `.` of its file name, where
/// that `.` is not the file name's first character. A file name without such
/// a dot (`"README"`, `".bashrc"`) has no extension.
pub open spec fn extension_of(path: Seq<char>) -> Option<Seq<char>> {
    let name = file_name_of(path);
    let dot = last_index_of(name, '.');
    if dot <= 0 {
        None
    } else {
        Some(name.subrange(dot + 1, name.len() as int))
    }
}

/// `last_index_of` is the position of the last `c`.
proof fn lemma_last_index_of(s: Seq<char>, c: char, k: int)
    requires
        -1 <= k < s.len(),
        k >= 0 ==> s[k] == c,
        forall|j: int| k < j < s.len() ==> s[j] != c,
    ensures
        last_index_of(s, c) == k,
    decreases s.len(),
{
    if s.len() > 0 && s.last() != c {
        lemma_last_index_of(s.drop_last(), c, k);
    }
}

/// Position of the last `c` in `s[lo..n]`, searching from the end.
fn rfind_char(s: &str, n: usize, lo: usize, c: char) -> (r: Option<usize>)
    requires
        n == s@.len(),
        lo <= n,
    ensures
        match r {
            Some(i) => lo <= i < n && s@[i as int] == c && forall|j: int| i < j < n ==> s@[j] != c,
            None => forall|j: int| lo <= j < n ==> s@[j] != c,
        },
{
    let mut i = n;
    while i > lo
        invariant
            n == s@.len(),
            lo <= i <= n,
            forall|j: int| i <= j < n ==> s@[j] != c,
        decreases i,
    {
        if s.get_char(i - 1) == c {
            return Some(i - 1);
        }
        i = i - 1;
    }
    None
}

/// The extension of `path`, as `extension_of` defines it: when there is one,
/// it is what follows a `.` that is neither the path's first character nor
/// right after a `/`, with no `.` or `/` after that dot; when there is none,
/// every such dot has a `/` somewhere after it.
pub fn file_extension(path: &str) -> (r: Option<&str>)
    ensures
        match r {
            Some(ext) => {
                let n = path@.len() as int;
                let d = n - ext@.len() - 1;
                &&& extension_of(path@) == Some(ext@)
                &&& 1 <= d
                &&& path@[d] == '.'
                &&& path@[d - 1] != '/'
                &&& ext@ == path@.subrange(d + 1, n)
                &&& forall|j: int| d < j < n ==> path@[j] != '.' && path@[j] != '/'
            },
            None => {
                &&& extension_of(path@) is None
                &&& forall|j: int|
                    0 < j < path@.len() && #[trigger] path@[j] == '.' && path@[j - 1] != '/' ==> exists|k: int|
                        j < k < path@.len() && #[trigger] path@[k] == '/'
            },
        },
{
    let n = path.unicode_len();
    let slash = rfind_char(path, n, 0, '/');
    let start = match slash {
        Some(i) => i + 1,
        None => 0,
    };
    proof {
        lemma_last_index_of(path@, '/', start - 1);
    }
    let ghost name = path@.subrange(start as int, n as int);
    let dot = rfind_char(path, n, start, '.');
    match dot {
        Some(d) => {
            proof {
                lemma_last_index_of(name, '.', d - start);
            }
            if d > start {
                let ext = path.substring_char(d + 1, n);
                assert(ext@ =~= name.subrange(d - start + 1, name.len() as int));
                Some(ext)
            } else {
                proof {
                    assert forall|j: int|
                        0 < j < path@.len() && #[trigger] path@[j] == '.' && path@[j - 1] != '/' implies exists|
                            k: int,
                        |
                            j < k < path@.len() && #[trigger] path@[k] == '/' by {
                        assert(path@[start - 1] == '/');
                    }
                }
                None
            }
        },
        None => {
            proof {
                lemma_last_index_of(name, '.', -1);
                assert forall|j: int|
                    0 < j < path@.len() && #[trigger] path@[j] == '.' && path@[j - 1] != '/' implies exists|k: int|
                        j < k < path@.len() && #[trigger] path@[k] == '/' by {
                    assert(path@[start - 1] == '/');
                }
            }
            None
        },
    }
}

/// The extension depends on the file name alone: putting a file name (no
/// `/` in it) in a directory does not change its extension.
pub proof fn law_extension_ignores_directory(dir: Seq<char>, name: Seq<char>)
    requires
        dir.len() > 0,
        dir.last() == '/',
        forall|k: int| 0 <= k < name.len() ==> name[k] != '/',
    ensures
        extension_of(dir + name) == extension_of(name),
{
    let p = dir + name;
    lemma_last_index_of(p, '/', dir.len() - 1);
    lemma_last_index_of(name, '/', -1);
    assert(file_name_of(p) =~= name);
    assert(file_name_of(name) =~= name);
}

/// A file name whose last `.` is not its first character has as extension
/// exactly what follows that dot.
pub proof fn law_extension_after_last_dot(name: Seq<char>, k: int)
    requires
        forall|j: int| 0 <= j < name.len() ==> name[j] != '/',
        0 < k < name.len(),
        name[k] == '.',
        forall|j: int| k < j < name.len() ==> name[j] != '.',
    ensures
        extension_of(name) == Some(name.subrange(k + 1, name.len() as int)),
{
    lemma_last_index_of(name, '/', -1);
    assert(file_name_of(name) =~= name);
    lemma_last_index_of(name, '.', k);
}

/// A file name with no `.` past its first character (no dot at all, or a
/// dotfile such as `.bashrc`) has no extension.
pub proof fn law_no_extension_without_inner_dot(name: Seq<char>)
    requires
        forall|j: int| 0 <= j < name.len() ==> name[j] != '/',
        forall|j: int| 0 < j < name.len() ==> name[j] != '.',
    ensures
        extension_of(name) is None,
{
    lemma_last_index_of(name, '/', -1);
    assert(file_name_of(name) =~= name);
    if name.len() > 0 && name[0] == '.' {
        lemma_last_index_of(name, '.', 0);
    } else {
        lemma_last_index_of(name, '.', -1);
    }
}

// ---------------------------------------------------------------------------
// Embedded images
// ---------------------------------------------------------------------------

/// The standard base64 encoding (RFC 4648 alphabet, `=` padding) of `data`,
/// as `base64::engine::general_purpose::STANDARD` computes it.
pub uninterp spec fn base64_standard(data: Seq<u8>) -> Seq<char>;

/// Calls `Engine::encode_string` of `base64::engine::general_purpose::STANDARD`,
/// which appends the base64 encoding of `data` to `buf`. The outside function
/// panics only when the grown string would exceed `isize::MAX` bytes, which
/// the `requires` rules out (a char takes at most 4 bytes; the encoding takes
/// at most `2 * len + 4` bytes).
#[verifier::external_body]
fn append_base64(data: &[u8], buf: &mut String)
    requires
        4 * old(buf)@.len() + 2 * data@.len() + 4 <= isize::MAX,
    ensures
        final(buf)@ == old(buf)@ + base64_standard(data@),
{
    base64::engine::general_purpose::STANDARD.encode_string(data, buf)
}

/// The prefix of a data URL that holds a base64-encoded PNG image.
pub open spec fn png_data_url_prefix() -> Seq<char> {
    "data:image/png;base64,"@
}

/// An image embedded in the scene as a data URL.
#[derive(Debug)]
pub struct Image {
    /// A UUID, as its 128-bit value.
    pub uuid: u128,
    pub url: String,
}

impl Image {
    /// Whether the file at `url` can be embedded: its extension is exactly `png`.
    pub fn is_supported(url: &str) -> (b: bool)
        ensures
            b == (extension_of(url@) == Some(seq!['p', 'n', 'g'])),
    {
        match file_extension(url) {
            Some(ext) => is_png_extension(ext),
            None => false,
        }
    }

    /// Embeds the PNG file at `url`, whose bytes are `data`, under a fresh
    /// random (version-4) identifier. Only PNG files are supported: the
    /// file's extension must be exactly `png` (see `is_supported`).
    pub fn new(url: &str, data: &[u8]) -> (image: Image)
        requires
            extension_of(url@) == Some(seq!['p', 'n', 'g']),
            2 * data@.len() + 100 <= isize::MAX,
        ensures
            image.url@ == png_data_url_prefix() + base64_standard(data@),
            is_random_uuid(image.uuid),
    {
        let mut buf = String::new();
        buf.append("data:image/png;base64,");
        proof {
            reveal_strlit("data:image/png;base64,");
        }
        append_base64(data, &mut buf);
        Image { uuid: new_uuid(), url: buf }
    }
}

/// Whether an extension is exactly `png`.
fn is_png_extension(ext: &str) -> (b: bool)
    ensures
        b == (ext@ == seq!['p', 'n', 'g']),
{
    let n = ext.unicode_len();
    if n != 3 {
        return false;
    }
    let b = ext.get_char(0) == 'p' && ext.get_char(1) == 'n' && ext.get_char(2) == 'g';
    assert(b ==> ext@ =~= seq!['p', 'n', 'g']);
    b
}

} // verus!
