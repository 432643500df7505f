//! The packaged asset directory and what can be read from it.
//!
//! The directory itself is an `include_dir::Dir`, built when the
//! application is compiled. Nothing here looks inside it: the two lookups
//! below are the only way in, and their contracts are taken on trust.

use vstd::prelude::*;

verus! {

#[verifier::external_type_specification]
#[verifier::external_body]
pub struct ExDir<'a>(include_dir::Dir<'a>);

/// The files that a lookup in `dir` finds, by the path asked for: a path is
/// in the domain exactly when `Dir::get_file` finds a file for it, and is
/// mapped to that file's contents.
pub uninterp spec fn packaged_files(dir: include_dir::Dir) -> Map<Seq<char>, Seq<u8>>;

/// The content type that `mime_guess` gives for a path: the first media type
/// listed for the path's extension, or `application/octet-stream` where the
/// extension is missing or unknown.
pub uninterp spec fn guessed_type(path: Seq<char>) -> Seq<char>;

/// Calls `include_dir::Dir::get_file` and copies out `File::contents`.
///
/// Trusted: the lookup reads an immutable directory, so what it finds for a
/// path is `packaged_files` of the directory at that path, and nothing is
/// found for a path outside that map.
#[verifier::external_body]
fn read_file(dir: &include_dir::Dir, path: &str) -> (found: Option<Vec<u8>>)
    ensures
        found is Some <==> packaged_files(*dir).contains_key(path@),
        found matches Some(bytes) ==> bytes@ == packaged_files(*dir)[path@],
{
    dir.get_file(path).map(|file| file.contents().to_vec())
}

/// Calls `mime_guess::from_path` and `MimeGuess::first_or_octet_stream`.
///
/// Trusted: the guess depends on the path's text alone, through a table
/// fixed when `mime_guess` is compiled, so it is `guessed_type` of the path.
#[verifier::external_body]
fn guess_type(path: &str) -> (content_type: String)
    ensures
        content_type@ == guessed_type(path@),
{
    mime_guess::from_path(path).first_or_octet_stream().as_ref().to_string()
}

/// A packaged file as it is served.
#[derive(Debug, PartialEq, Eq)]
pub struct Asset {
    pub path: String,
    pub content_type: String,
    pub bytes: Vec<u8>,
}

/// What an [`Asset`] holds, as plain mathematics.
pub struct AssetView {
    pub path: Seq<char>,
    pub content_type: Seq<char>,
    pub bytes: Seq<u8>,
}

impl View for Asset {
    type V = AssetView;

    open spec fn view(&self) -> AssetView {
        AssetView { path: self.path@, content_type: self.content_type@, bytes: self.bytes@ }
    }
}

/// The asset stored under `key`, if there is one.
pub open spec fn asset_at(files: Map<Seq<char>, Seq<u8>>, key: Seq<char>) -> Option<AssetView> {
    if files.contains_key(key) {
        Some(AssetView { path: key, content_type: guessed_type(key), bytes: files[key] })
    } else {
        None
    }
}

/// The view of an optional asset.
pub open spec fn option_view(asset: Option<Asset>) -> Option<AssetView> {
    match asset {
        Some(a) => Some(a@),
        None => None,
    }
}

/// Looks `key` up in the packaged directory and types what it finds.
pub fn find_asset(dir: &include_dir::Dir, key: &str) -> (found: Option<Asset>)
    ensures
        option_view(found) == asset_at(packaged_files(*dir), key@),
{
    match read_file(dir, key) {
        Some(bytes) => {
            let content_type = guess_type(key);
            Some(Asset { path: key.to_owned(), content_type, bytes })
        },
        None => None,
    }
}

} // verus!
