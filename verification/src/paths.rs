use vstd::prelude::*;

verus! {

/// What `Path::join` gives for `base` joined with `rel`, as text.
pub uninterp spec fn joined_path(base: Seq<char>, rel: Seq<char>) -> Seq<char>;

/// What `Path::is_absolute` says of `p`.
pub uninterp spec fn is_absolute_path(p: Seq<char>) -> bool;

/// What `Path::file_stem` gives for `p`, as text.
pub uninterp spec fn file_stem_of(p: Seq<char>) -> Option<Seq<char>>;

/// What `Path::file_name` gives for `p`, as text.
pub uninterp spec fn file_name_of(p: Seq<char>) -> Option<Seq<char>>;

/// What `Path::extension` gives for `p`, as text.
pub uninterp spec fn extension_of(p: Seq<char>) -> Option<Seq<char>>;

/// Calls `Path::join`; the joined path is named, not stated. Both inputs are UTF-8, so the
/// joined path is too and converts to text without loss.
#[verifier::external_body]
pub(crate) fn path_join(base: &str, rel: &str) -> (r: String)
    ensures
        r@ == joined_path(base@, rel@),
{
    std::path::Path::new(base).join(rel).to_string_lossy().into_owned()
}

/// Calls `Path::is_absolute`; its answer is named, not stated.
#[verifier::external_body]
pub(crate) fn path_is_absolute(p: &str) -> (r: bool)
    ensures
        r == is_absolute_path(p@),
{
    std::path::Path::new(p).is_absolute()
}

/// Calls `Path::file_stem`; the stem is named, not stated. A stem of a UTF-8 path is UTF-8.
#[verifier::external_body]
pub(crate) fn path_file_stem(p: &str) -> (r: Option<String>)
    ensures
        r is None ==> file_stem_of(p@) is None,
        r matches Some(s) ==> file_stem_of(p@) == Some(s@),
{
    std::path::Path::new(p).file_stem().map(|s| s.to_string_lossy().into_owned())
}

/// Calls `Path::file_name`; the name is named, not stated. The name is the path's final
/// component, a piece of the path's own text cut at separators, so it is UTF-8 and each of its
/// characters occurs in the path.
#[verifier::external_body]
pub(crate) fn path_file_name(p: &str) -> (r: Option<String>)
    ensures
        r is None ==> file_name_of(p@) is None,
        r matches Some(s) ==> file_name_of(p@) == Some(s@),
        r matches Some(s) ==> forall|i: int| 0 <= i < s@.len() ==> p@.contains(#[trigger] s@[i]),
{
    std::path::Path::new(p).file_name().map(|s| s.to_string_lossy().into_owned())
}

/// Calls `Path::extension`; the extension is named, not stated.
#[verifier::external_body]
pub(crate) fn path_extension(p: &str) -> (r: Option<String>)
    ensures
        r is None ==> extension_of(p@) is None,
        r matches Some(s) ==> extension_of(p@) == Some(s@),
{
    std::path::Path::new(p).extension().map(|s| s.to_string_lossy().into_owned())
}

/// `path` itself when it is absolute, otherwise `path` below `manifest_dir`.
pub open spec fn spec_resolve_manifest_path(manifest_dir: Seq<char>, path: Seq<char>) -> Seq<
    char,
> {
    if is_absolute_path(path) {
        path
    } else {
        joined_path(manifest_dir, path)
    }
}

/// Resolves a path given relative to a crate's manifest directory.
pub fn resolve_manifest_path(manifest_dir: &str, path: &str) -> (r: String)
    ensures
        r@ == spec_resolve_manifest_path(manifest_dir@, path@),
{
    if path_is_absolute(path) {
        String::from_str(path)
    } else {
        path_join(manifest_dir, path)
    }
}

} // verus!
