//! The extension catalog and the extension filter.
//!
//! Each category owns a fixed, lower-case list of file extensions. A run
//! unions the lists of its enabled categories into the active extension
//! set, and a file matches when the characters after the last `'.'` of its
//! name, folded to lower case, are a member of that set.

use vstd::prelude::*;
use vstd::string::StringExecFns;
use vstd::string::StrSliceExecFns;

verus! {

/// A user-facing grouping of file extensions.
#[derive(Clone, Copy, PartialEq, Eq, Structural)]
pub enum ExtensionCategory {
    Images,
    Videos,
    CompressedFiles,
    Sounds,
}

/// Which categories one search has enabled.
#[derive(Clone, Copy, PartialEq, Eq, Structural)]
pub struct CategorySelection {
    pub images: bool,
    pub videos: bool,
    pub compressed_files: bool,
    pub sounds: bool,
}

/// The fixed extension list of one category.
pub open spec fn spec_category_extensions(c: ExtensionCategory) -> Seq<Seq<char>> {
    match c {
        ExtensionCategory::Images => seq![
            "jpg"@, "jpeg"@, "png"@, "gif"@, "bmp"@, "tiff"@, "webp"@, "svg"@,
        ],
        ExtensionCategory::Videos => seq![
            "mp4"@, "mkv"@, "avi"@, "mov"@, "wmv"@, "flv"@, "webm"@, "mpeg"@, "3gp"@,
        ],
        ExtensionCategory::CompressedFiles => seq![
            "zip"@, "rar"@, "7z"@, "tar"@, "gz"@, "bz2"@, "xz"@,
        ],
        ExtensionCategory::Sounds => seq![
            "mp3"@, "wav"@, "ogg"@, "flac"@, "aac"@, "m4a"@, "alac"@, "wma"@, "aiff"@, "opus"@,
        ],
    }
}

/// The active extension set of a selection: the enabled categories' lists,
/// in catalog order.
pub open spec fn spec_active_extensions(sel: CategorySelection) -> Seq<Seq<char>> {
    (if sel.images {
        spec_category_extensions(ExtensionCategory::Images)
    } else {
        Seq::empty()
    }) + (if sel.videos {
        spec_category_extensions(ExtensionCategory::Videos)
    } else {
        Seq::empty()
    }) + (if sel.compressed_files {
        spec_category_extensions(ExtensionCategory::CompressedFiles)
    } else {
        Seq::empty()
    }) + (if sel.sounds {
        spec_category_extensions(ExtensionCategory::Sounds)
    } else {
        Seq::empty()
    })
}

/// The fixed extension list of one category, as strings.
pub fn category_extensions(c: &ExtensionCategory) -> (r: Vec<String>)
    ensures
        r.deep_view() == spec_category_extensions(*c),
{
    let mut r: Vec<String> = Vec::new();
    match c {
        ExtensionCategory::Images => {
            r.push(String::from_str("jpg"));
            r.push(String::from_str("jpeg"));
            r.push(String::from_str("png"));
            r.push(String::from_str("gif"));
            r.push(String::from_str("bmp"));
            r.push(String::from_str("tiff"));
            r.push(String::from_str("webp"));
            r.push(String::from_str("svg"));
        },
        ExtensionCategory::Videos => {
            r.push(String::from_str("mp4"));
            r.push(String::from_str("mkv"));
            r.push(String::from_str("avi"));
            r.push(String::from_str("mov"));
            r.push(String::from_str("wmv"));
            r.push(String::from_str("flv"));
            r.push(String::from_str("webm"));
            r.push(String::from_str("mpeg"));
            r.push(String::from_str("3gp"));
        },
        ExtensionCategory::CompressedFiles => {
            r.push(String::from_str("zip"));
            r.push(String::from_str("rar"));
            r.push(String::from_str("7z"));
            r.push(String::from_str("tar"));
            r.push(String::from_str("gz"));
            r.push(String::from_str("bz2"));
            r.push(String::from_str("xz"));
        },
        ExtensionCategory::Sounds => {
            r.push(String::from_str("mp3"));
            r.push(String::from_str("wav"));
            r.push(String::from_str("ogg"));
            r.push(String::from_str("flac"));
            r.push(String::from_str("aac"));
            r.push(String::from_str("m4a"));
            r.push(String::from_str("alac"));
            r.push(String::from_str("wma"));
            r.push(String::from_str("aiff"));
            r.push(String::from_str("opus"));
        },
    }
    proof {
        assert(r.deep_view() =~= spec_category_extensions(*c));
    }
    r
}

/// The active extension set for the four category toggles: the enabled
/// categories' fixed lists, unioned in catalog order.
pub fn get_avaliable_extentions(
    images: bool,
    videos: bool,
    compressed_files: bool,
    sounds: bool,
) -> (r: Vec<String>)
    ensures
        r.deep_view() == spec_active_extensions(
            CategorySelection { images, videos, compressed_files, sounds },
        ),
{
    let mut r: Vec<String> = Vec::new();
    if images {
        let mut v = category_extensions(&ExtensionCategory::Images);
        r.append(&mut v);
    }
    let ghost after_images = r.deep_view();
    if videos {
        let mut v = category_extensions(&ExtensionCategory::Videos);
        r.append(&mut v);
    }
    if compressed_files {
        let mut v = category_extensions(&ExtensionCategory::CompressedFiles);
        r.append(&mut v);
    }
    if sounds {
        let mut v = category_extensions(&ExtensionCategory::Sounds);
        r.append(&mut v);
    }
    proof {
        let sel = CategorySelection { images, videos, compressed_files, sounds };
        assert(after_images =~= (if sel.images {
            spec_category_extensions(ExtensionCategory::Images)
        } else {
            Seq::empty()
        }));
        assert(r.deep_view() =~= spec_active_extensions(sel));
    }
    r
}

/// Concatenating duplicate-free, disjoint sequences yields a
/// duplicate-free sequence.
proof fn lemma_no_dup_concat_disjoint<T>(a: Seq<T>, b: Seq<T>)
    requires
        a.no_duplicates(),
        b.no_duplicates(),
        a.disjoint(b),
    ensures
        (a + b).no_duplicates(),
{
    let c = a + b;
    assert forall|i: int, j: int|
        (0 <= i < c.len() && 0 <= j < c.len() && i != j) implies c[i] != c[j] by {
        if i < a.len() && j >= a.len() {
            assert(c[i] == a[i] && c[j] == b[j - a.len()]);
        } else if i >= a.len() && j < a.len() {
            assert(c[i] == b[i - a.len()] && c[j] == a[j]);
        }
    }
}

/// Disjointness from a third sequence survives concatenation.
proof fn lemma_concat_disjoint<T>(a: Seq<T>, b: Seq<T>, c: Seq<T>)
    requires
        a.disjoint(c),
        b.disjoint(c),
    ensures
        (a + b).disjoint(c),
{
    let ab = a + b;
    assert forall|i: int, j: int|
        0 <= i < ab.len() && 0 <= j < c.len() implies ab[i] != c[j] by {
        if i >= a.len() {
            assert(ab[i] == b[i - a.len()]);
        }
    }
}

/// The four catalog lists hold no duplicates, and no extension stands in
/// two categories.
#[verifier::rlimit(100)]
proof fn lemma_catalog_distinct()
    ensures
        spec_category_extensions(ExtensionCategory::Images).no_duplicates(),
        spec_category_extensions(ExtensionCategory::Videos).no_duplicates(),
        spec_category_extensions(ExtensionCategory::CompressedFiles).no_duplicates(),
        spec_category_extensions(ExtensionCategory::Sounds).no_duplicates(),
        spec_category_extensions(ExtensionCategory::Images).disjoint(
            spec_category_extensions(ExtensionCategory::Videos),
        ),
        spec_category_extensions(ExtensionCategory::Images).disjoint(
            spec_category_extensions(ExtensionCategory::CompressedFiles),
        ),
        spec_category_extensions(ExtensionCategory::Images).disjoint(
            spec_category_extensions(ExtensionCategory::Sounds),
        ),
        spec_category_extensions(ExtensionCategory::Videos).disjoint(
            spec_category_extensions(ExtensionCategory::CompressedFiles),
        ),
        spec_category_extensions(ExtensionCategory::Videos).disjoint(
            spec_category_extensions(ExtensionCategory::Sounds),
        ),
        spec_category_extensions(ExtensionCategory::CompressedFiles).disjoint(
            spec_category_extensions(ExtensionCategory::Sounds),
        ),
{
    broadcast use vstd::string::group_string_axioms;

    reveal_strlit("jpg");
    reveal_strlit("jpeg");
    reveal_strlit("png");
    reveal_strlit("gif");
    reveal_strlit("bmp");
    reveal_strlit("tiff");
    reveal_strlit("webp");
    reveal_strlit("svg");
    reveal_strlit("mp4");
    reveal_strlit("mkv");
    reveal_strlit("avi");
    reveal_strlit("mov");
    reveal_strlit("wmv");
    reveal_strlit("flv");
    reveal_strlit("webm");
    reveal_strlit("mpeg");
    reveal_strlit("3gp");
    reveal_strlit("zip");
    reveal_strlit("rar");
    reveal_strlit("7z");
    reveal_strlit("tar");
    reveal_strlit("gz");
    reveal_strlit("bz2");
    reveal_strlit("xz");
    reveal_strlit("mp3");
    reveal_strlit("wav");
    reveal_strlit("ogg");
    reveal_strlit("flac");
    reveal_strlit("aac");
    reveal_strlit("m4a");
    reveal_strlit("alac");
    reveal_strlit("wma");
    reveal_strlit("aiff");
    reveal_strlit("opus");
    // Pinning each literal's length and characters lets the solver tell
    // every pair of catalog entries apart.
    assert("jpg"@.len() == 3 && "jpg"@[0] == 'j' && "jpg"@[1] == 'p' && "jpg"@[2] == 'g');
    assert("jpeg"@.len() == 4 && "jpeg"@[0] == 'j' && "jpeg"@[1] == 'p' && "jpeg"@[2] == 'e' && "jpeg"@[3] == 'g');
    assert("png"@.len() == 3 && "png"@[0] == 'p' && "png"@[1] == 'n' && "png"@[2] == 'g');
    assert("gif"@.len() == 3 && "gif"@[0] == 'g' && "gif"@[1] == 'i' && "gif"@[2] == 'f');
    assert("bmp"@.len() == 3 && "bmp"@[0] == 'b' && "bmp"@[1] == 'm' && "bmp"@[2] == 'p');
    assert("tiff"@.len() == 4 && "tiff"@[0] == 't' && "tiff"@[1] == 'i' && "tiff"@[2] == 'f' && "tiff"@[3] == 'f');
    assert("webp"@.len() == 4 && "webp"@[0] == 'w' && "webp"@[1] == 'e' && "webp"@[2] == 'b' && "webp"@[3] == 'p');
    assert("svg"@.len() == 3 && "svg"@[0] == 's' && "svg"@[1] == 'v' && "svg"@[2] == 'g');
    assert("mp4"@.len() == 3 && "mp4"@[0] == 'm' && "mp4"@[1] == 'p' && "mp4"@[2] == '4');
    assert("mkv"@.len() == 3 && "mkv"@[0] == 'm' && "mkv"@[1] == 'k' && "mkv"@[2] == 'v');
    assert("avi"@.len() == 3 && "avi"@[0] == 'a' && "avi"@[1] == 'v' && "avi"@[2] == 'i');
    assert("mov"@.len() == 3 && "mov"@[0] == 'm' && "mov"@[1] == 'o' && "mov"@[2] == 'v');
    assert("wmv"@.len() == 3 && "wmv"@[0] == 'w' && "wmv"@[1] == 'm' && "wmv"@[2] == 'v');
    assert("flv"@.len() == 3 && "flv"@[0] == 'f' && "flv"@[1] == 'l' && "flv"@[2] == 'v');
    assert("webm"@.len() == 4 && "webm"@[0] == 'w' && "webm"@[1] == 'e' && "webm"@[2] == 'b' && "webm"@[3] == 'm');
    assert("mpeg"@.len() == 4 && "mpeg"@[0] == 'm' && "mpeg"@[1] == 'p' && "mpeg"@[2] == 'e' && "mpeg"@[3] == 'g');
    assert("3gp"@.len() == 3 && "3gp"@[0] == '3' && "3gp"@[1] == 'g' && "3gp"@[2] == 'p');
    assert("zip"@.len() == 3 && "zip"@[0] == 'z' && "zip"@[1] == 'i' && "zip"@[2] == 'p');
    assert("rar"@.len() == 3 && "rar"@[0] == 'r' && "rar"@[1] == 'a' && "rar"@[2] == 'r');
    assert("7z"@.len() == 2 && "7z"@[0] == '7' && "7z"@[1] == 'z');
    assert("tar"@.len() == 3 && "tar"@[0] == 't' && "tar"@[1] == 'a' && "tar"@[2] == 'r');
    assert("gz"@.len() == 2 && "gz"@[0] == 'g' && "gz"@[1] == 'z');
    assert("bz2"@.len() == 3 && "bz2"@[0] == 'b' && "bz2"@[1] == 'z' && "bz2"@[2] == '2');
    assert("xz"@.len() == 2 && "xz"@[0] == 'x' && "xz"@[1] == 'z');
    assert("mp3"@.len() == 3 && "mp3"@[0] == 'm' && "mp3"@[1] == 'p' && "mp3"@[2] == '3');
    assert("wav"@.len() == 3 && "wav"@[0] == 'w' && "wav"@[1] == 'a' && "wav"@[2] == 'v');
    assert("ogg"@.len() == 3 && "ogg"@[0] == 'o' && "ogg"@[1] == 'g' && "ogg"@[2] == 'g');
    assert("flac"@.len() == 4 && "flac"@[0] == 'f' && "flac"@[1] == 'l' && "flac"@[2] == 'a' && "flac"@[3] == 'c');
    assert("aac"@.len() == 3 && "aac"@[0] == 'a' && "aac"@[1] == 'a' && "aac"@[2] == 'c');
    assert("m4a"@.len() == 3 && "m4a"@[0] == 'm' && "m4a"@[1] == '4' && "m4a"@[2] == 'a');
    assert("alac"@.len() == 4 && "alac"@[0] == 'a' && "alac"@[1] == 'l' && "alac"@[2] == 'a' && "alac"@[3] == 'c');
    assert("wma"@.len() == 3 && "wma"@[0] == 'w' && "wma"@[1] == 'm' && "wma"@[2] == 'a');
    assert("aiff"@.len() == 4 && "aiff"@[0] == 'a' && "aiff"@[1] == 'i' && "aiff"@[2] == 'f' && "aiff"@[3] == 'f');
    assert("opus"@.len() == 4 && "opus"@[0] == 'o' && "opus"@[1] == 'p' && "opus"@[2] == 'u' && "opus"@[3] == 's');
}

/// The active set is exactly the union of the enabled categories' fixed
/// lists: every member comes from an enabled category, nothing extraneous
/// enters, no entry repeats, and an empty selection yields the empty set.
pub proof fn lemma_active_extensions_exact(sel: CategorySelection)
    ensures
        spec_active_extensions(sel).to_set() =~= (if sel.images {
            spec_category_extensions(ExtensionCategory::Images).to_set()
        } else {
            Set::<Seq<char>>::empty()
        }).union(
            if sel.videos {
                spec_category_extensions(ExtensionCategory::Videos).to_set()
            } else {
                Set::<Seq<char>>::empty()
            },
        ).union(
            if sel.compressed_files {
                spec_category_extensions(ExtensionCategory::CompressedFiles).to_set()
            } else {
                Set::<Seq<char>>::empty()
            },
        ).union(
            if sel.sounds {
                spec_category_extensions(ExtensionCategory::Sounds).to_set()
            } else {
                Set::<Seq<char>>::empty()
            },
        ),
        spec_active_extensions(sel).no_duplicates(),
        (!sel.images && !sel.videos && !sel.compressed_files && !sel.sounds)
            ==> spec_active_extensions(sel) =~= Seq::<Seq<char>>::empty(),
{
    broadcast use vstd::seq_lib::lemma_seq_concat_contains_all_elements;
    broadcast use vstd::seq_lib::lemma_seq_empty_contains_nothing;

    lemma_catalog_distinct();
    let a: Seq<Seq<char>> = if sel.images {
        spec_category_extensions(ExtensionCategory::Images)
    } else {
        Seq::empty()
    };
    let b: Seq<Seq<char>> = if sel.videos {
        spec_category_extensions(ExtensionCategory::Videos)
    } else {
        Seq::empty()
    };
    let c: Seq<Seq<char>> = if sel.compressed_files {
        spec_category_extensions(ExtensionCategory::CompressedFiles)
    } else {
        Seq::empty()
    };
    let d: Seq<Seq<char>> = if sel.sounds {
        spec_category_extensions(ExtensionCategory::Sounds)
    } else {
        Seq::empty()
    };
    lemma_no_dup_concat_disjoint(a, b);
    lemma_concat_disjoint(a, b, c);
    lemma_no_dup_concat_disjoint(a + b, c);
    lemma_concat_disjoint(a, b, d);
    lemma_concat_disjoint(a + b, c, d);
    lemma_no_dup_concat_disjoint((a + b) + c, d);
    assert(spec_active_extensions(sel) == ((a + b) + c) + d);
}

/// The lower-case form of one character: the letters 'A' through 'Z' fold
/// to their lower-case counterparts, every other character stays as it is.
pub open spec fn spec_lower_char(c: char) -> char {
    if 'A' <= c && c <= 'Z' {
        ((c as u8) + 32) as char
    } else {
        c
    }
}

/// A string folded to lower case, character by character.
pub open spec fn spec_lower(s: Seq<char>) -> Seq<char> {
    s.map_values(|c: char| spec_lower_char(c))
}

/// Folds one character to lower case.
pub fn lower_char(c: char) -> (r: char)
    ensures
        r == spec_lower_char(c),
{
    if 'A' <= c && c <= 'Z' {
        ((c as u8) + 32) as char
    } else {
        c
    }
}

/// The characters after the last `'.'` of `name`, or `None` when `name`
/// holds no `'.'` at all.
pub open spec fn spec_extension_of(name: Seq<char>) -> Option<Seq<char>>
    decreases name.len(),
{
    if name.len() == 0 {
        None
    } else if name.last() == '.' {
        Some(Seq::empty())
    } else {
        match spec_extension_of(name.drop_last()) {
            Some(e) => Some(e.push(name.last())),
            None => None,
        }
    }
}

/// Whether a file named `name` carries an extension whose lower-case form
/// is a member of the active set `exts`. A name without a `'.'` never
/// matches.
pub open spec fn spec_has_valid_extension(name: Seq<char>, exts: Seq<Seq<char>>) -> bool {
    match spec_extension_of(name) {
        Some(e) => exts.contains(spec_lower(e)),
        None => false,
    }
}

/// A name without a dot has no extension.
proof fn lemma_no_dot_no_extension(name: Seq<char>)
    requires
        forall|j: int| 0 <= j < name.len() ==> name[j] != '.',
    ensures
        spec_extension_of(name) is None,
    decreases name.len(),
{
    if name.len() > 0 {
        lemma_no_dot_no_extension(name.drop_last());
    }
}

/// When position `d` holds the last dot of `name`, the extension is the
/// part after `d`.
proof fn lemma_extension_after_last_dot(name: Seq<char>, d: int)
    requires
        0 <= d < name.len(),
        name[d] == '.',
        forall|j: int| d < j < name.len() ==> name[j] != '.',
    ensures
        spec_extension_of(name) == Some(name.subrange(d + 1, name.len() as int)),
    decreases name.len(),
{
    if d == name.len() - 1 {
        assert(name.subrange(d + 1, name.len() as int) =~= Seq::empty());
    } else {
        lemma_extension_after_last_dot(name.drop_last(), d);
        assert(name.drop_last().subrange(d + 1, name.len() - 1).push(name.last()) =~= name
            .subrange(d + 1, name.len() as int));
    }
}

/// Folding to lower case keeps every dot and introduces none, so it keeps
/// the extension, folded.
proof fn lemma_extension_of_lower(name: Seq<char>)
    ensures
        spec_extension_of(spec_lower(name)) == (match spec_extension_of(name) {
            Some(e) => Some(spec_lower(e)),
            None => None::<Seq<char>>,
        }),
    decreases name.len(),
{
    if name.len() == 0 {
        assert(spec_lower(name) =~= Seq::empty());
    } else {
        assert(spec_lower(name).last() == spec_lower_char(name.last()));
        assert(spec_lower(name).drop_last() =~= spec_lower(name.drop_last()));
        if name.last() == '.' {
            assert(spec_lower(Seq::empty()) =~= Seq::empty());
        } else {
            assert(spec_lower_char(name.last()) != '.');
            lemma_extension_of_lower(name.drop_last());
            match spec_extension_of(name.drop_last()) {
                Some(e) => {
                    assert(spec_lower(e).push(spec_lower_char(name.last())) =~= spec_lower(
                        e.push(name.last()),
                    ));
                },
                None => {},
            }
        }
    }
}

/// Folding to lower case twice is folding once.
proof fn lemma_lower_idempotent(s: Seq<char>)
    ensures
        spec_lower(spec_lower(s)) == spec_lower(s),
{
    assert(spec_lower(spec_lower(s)) =~= spec_lower(s));
}

/// The filter is case-insensitive: a name matches the active set exactly
/// when its lower-case form does. In particular `PHOTO.JPG` matches
/// whenever `photo.jpg` does; a name without an extension matches in
/// neither spelling.
pub proof fn lemma_match_case_insensitive(name: Seq<char>, exts: Seq<Seq<char>>)
    ensures
        spec_has_valid_extension(spec_lower(name), exts) == spec_has_valid_extension(name, exts),
{
    lemma_extension_of_lower(name);
    match spec_extension_of(name) {
        Some(e) => {
            lemma_lower_idempotent(e);
        },
        None => {},
    }
}

/// Whether the lower-case form of `s` equals `t`.
fn lower_matches(s: &str, t: &str) -> (r: bool)
    ensures
        r == (spec_lower(s@) == t@),
{
    let n = s.unicode_len();
    if n != t.unicode_len() {
        return false;
    }
    let mut i: usize = 0;
    while i < n
        invariant
            i <= n,
            n == s@.len(),
            n == t@.len(),
            forall|j: int| 0 <= j < i ==> spec_lower_char(s@[j]) == t@[j],
        decreases n - i,
    {
        if lower_char(s.get_char(i)) != t.get_char(i) {
            assert(spec_lower(s@)[i as int] != t@[i as int]);
            return false;
        }
        i = i + 1;
    }
    proof {
        assert(spec_lower(s@) =~= t@);
    }
    true
}

/// Whether the path carries an extension (the characters after its last
/// `'.'`) whose lower-case form stands in `extensions`. Callers hand in a
/// file's base name; a name without a dot never matches.
pub fn has_valid_extension(path: &str, extensions: &Vec<String>) -> (r: bool)
    ensures
        r == spec_has_valid_extension(path@, extensions.deep_view()),
{
    let n = path.unicode_len();
    let mut i: usize = n;
    while i > 0
        invariant
            i <= n,
            n == path@.len(),
            forall|j: int| i <= j < n ==> path@[j] != '.',
        decreases i,
    {
        i = i - 1;
        if path.get_char(i) == '.' {
            let ext = path.substring_char(i + 1, n);
            proof {
                lemma_extension_after_last_dot(path@, i as int);
            }
            let mut k: usize = 0;
            while k < extensions.len()
                invariant
                    k <= extensions@.len(),
                    spec_extension_of(path@) == Some(ext@),
                    forall|j: int| 0 <= j < k ==> extensions.deep_view()[j] != spec_lower(ext@),
                decreases extensions@.len() - k,
            {
                if lower_matches(ext, extensions[k].as_str()) {
                    proof {
                        assert(extensions.deep_view()[k as int] == spec_lower(ext@));
                    }
                    return true;
                }
                k = k + 1;
            }
            proof {
                assert(!extensions.deep_view().contains(spec_lower(ext@)));
            }
            return false;
        }
    }
    proof {
        lemma_no_dot_no_extension(path@);
    }
    false
}

} // verus!
