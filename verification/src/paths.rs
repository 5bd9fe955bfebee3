//! Paths: which loader a model file goes to, and where the asset directory is.
use vstd::prelude::*;

verus! {

/// What `std::path::Path::extension` returns for a path, as text, on the
/// Unix targets the viewer is built for.
pub uninterp spec fn file_extension(path: Seq<char>) -> Option<Seq<char>>;

/// What `std::path::Path::join` returns for a base and a path, as text, on
/// the Unix targets the viewer is built for.
pub uninterp spec fn path_join(base: Seq<char>, child: Seq<char>) -> Seq<char>;

/// Calls `std::path::Path::extension` on `path`. The contract claims that
/// the result is the named extension of the path, that a path without a dot
/// has none, and that an extension holds no dot (it is the part of the file
/// name after its last dot). The extension of a `str` path is a piece of it
/// and so valid UTF-8, which makes the text conversion lossless. Which part
/// of the path is the file name is not stated.
#[verifier::external_body]
fn extension_of(path: &str) -> (ext: Option<String>)
    ensures
        match ext {
            Some(e) => file_extension(path@) == Some(e@) && !e@.contains('.'),
            None => file_extension(path@) is None,
        },
        !path@.contains('.') ==> ext is None,
{
    match std::path::Path::new(path).extension() {
        Some(e) => Some(e.to_string_lossy().into_owned()),
        None => None,
    }
}

/// Calls `std::path::Path::join` on `base` and `child`. The contract claims
/// that the result is the named join of the two, and that an absolute
/// `child` replaces `base`; both are `str`, so the joined path is valid UTF-8
/// and its conversion to text is lossless. How a relative `child` is
/// appended (the separator put between them) is not stated.
#[verifier::external_body]
fn join_paths(base: &str, child: &str) -> (joined: String)
    ensures
        joined@ == path_join(base@, child@),
        child@.len() > 0 && child@[0] == '/' ==> joined@ == child@,
{
    std::path::Path::new(base).join(child).to_string_lossy().into_owned()
}

/// `c` is the ASCII letter `lower` in either case.
pub open spec fn ascii_letter_is(c: char, lower: char, upper: char) -> bool {
    c == lower || c == upper
}

/// The extension is `obj`, ignoring ASCII case.
pub open spec fn is_obj_extension(e: Seq<char>) -> bool {
    &&& e.len() == 3
    &&& ascii_letter_is(e[0], 'o', 'O')
    &&& ascii_letter_is(e[1], 'b', 'B')
    &&& ascii_letter_is(e[2], 'j', 'J')
}

/// The model at `path` is an OBJ file: its extension is `obj` in any ASCII
/// case.
pub open spec fn is_obj_path_spec(path: Seq<char>) -> bool {
    match file_extension(path) {
        Some(e) => is_obj_extension(e),
        None => false,
    }
}

/// Whether the model at `path` is loaded as OBJ (else as glTF/GLB).
pub fn is_obj_path(path: &str) -> (obj: bool)
    ensures
        obj == is_obj_path_spec(path@),
        !path@.contains('.') ==> !obj,
{
    match extension_of(path) {
        None => false,
        Some(e) => {
            let s = e.as_str();
            if s.unicode_len() != 3 {
                return false;
            }
            let c0 = s.get_char(0);
            let c1 = s.get_char(1);
            let c2 = s.get_char(2);
            (c0 == 'o' || c0 == 'O') && (c1 == 'b' || c1 == 'B') && (c2 == 'j' || c2 == 'J')
        },
    }
}

/// The `assets` directory under a directory.
pub fn assets_dir(base: &str) -> (dir: String)
    ensures
        dir@ == path_join(base@, "assets"@),
{
    join_paths(base, "assets")
}

/// A candidate asset directory and whether it is a directory on disk.
pub struct RootCandidate {
    pub path: String,
    pub is_dir: bool,
}

/// The asset directory: the `assets` directory of the working directory if it
/// exists, else the one beside the executable if it exists, else the `assets`
/// path under the working directory (under `.` when there is none) even
/// though it does not exist.
pub open spec fn asset_root_spec(
    cwd_assets: Option<RootCandidate>,
    exe_assets: Option<RootCandidate>,
    fallback_base: Option<String>,
) -> Seq<char> {
    if cwd_assets is Some && cwd_assets->0.is_dir {
        cwd_assets->0.path@
    } else if exe_assets is Some && exe_assets->0.is_dir {
        exe_assets->0.path@
    } else {
        match fallback_base {
            Some(b) => path_join(b@, "assets"@),
            None => path_join("."@, "assets"@),
        }
    }
}

/// Chooses the asset directory. `cwd_assets` is the `assets` directory of
/// the working directory and `exe_assets` the one beside the executable,
/// each when that base is known; `fallback_base` is the working directory,
/// read again, when it is known.
pub fn determine_asset_root(
    cwd_assets: Option<RootCandidate>,
    exe_assets: Option<RootCandidate>,
    fallback_base: Option<String>,
) -> (root: String)
    ensures
        root@ == asset_root_spec(cwd_assets, exe_assets, fallback_base),
{
    if let Some(c) = &cwd_assets {
        if c.is_dir {
            return c.path.clone();
        }
    }
    if let Some(c) = &exe_assets {
        if c.is_dir {
            return c.path.clone();
        }
    }
    match &fallback_base {
        Some(b) => assets_dir(b.as_str()),
        None => assets_dir("."),
    }
}

/// A character in ASCII lower case.
pub open spec fn ascii_lower(c: char) -> char {
    if 'A' <= c <= 'Z' {
        ((c as int) + 32) as char
    } else {
        c
    }
}

/// An extension is OBJ when, lowered to ASCII lower case, it is `obj`.
pub proof fn law_obj_extension_ignores_case(e: Seq<char>)
    ensures
        is_obj_extension(e) <==> (e.len() == 3 && ascii_lower(e[0]) == 'o' && ascii_lower(e[1]) == 'b'
            && ascii_lower(e[2]) == 'j'),
{
}

/// The asset directory prefers the working directory's `assets` when it
/// exists, then the one beside the executable when it exists, and falls back
/// to the working directory's (or `.`'s) `assets` path otherwise.
pub proof fn law_asset_root_preference(
    cwd_assets: Option<RootCandidate>,
    exe_assets: Option<RootCandidate>,
    fallback_base: Option<String>,
)
    ensures
        cwd_assets is Some && cwd_assets->0.is_dir ==> asset_root_spec(cwd_assets, exe_assets, fallback_base)
            == cwd_assets->0.path@,
        !(cwd_assets is Some && cwd_assets->0.is_dir) && (exe_assets is Some && exe_assets->0.is_dir)
            ==> asset_root_spec(cwd_assets, exe_assets, fallback_base) == exe_assets->0.path@,
        !(cwd_assets is Some && cwd_assets->0.is_dir) && !(exe_assets is Some && exe_assets->0.is_dir)
            ==> asset_root_spec(cwd_assets, exe_assets, fallback_base) == path_join(
            (if fallback_base is Some {
                fallback_base->0@
            } else {
                "."@
            }),
            "assets"@,
        ),
{
}

} // verus!
