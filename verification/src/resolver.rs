//! The local asset resolver: from a host and a path to a response.

use vstd::prelude::*;
use vstd::string::StringExecFns;
use crate::assets::asset_at;
use crate::assets::find_asset;
use crate::assets::guessed_type;
use crate::assets::option_view;
use crate::assets::packaged_files;
use crate::assets::Asset;
use crate::assets::AssetView;
use crate::guard::has_backslash;
use crate::guard::has_parent_marker;
use crate::guard::is_unsafe_key;
use crate::guard::is_unsafe_path;
use crate::response::bad_request_view;
use crate::response::found_view;
use crate::response::not_found_view;
use crate::response::Response;
use crate::response::ResponseView;

verus! {

/// The key under which the file for `path` on `host` is packaged.
pub open spec fn asset_key(host: Seq<char>, path: Seq<char>) -> Seq<char> {
    host + path
}

/// The key of the index page of `host`.
pub open spec fn index_key(host: Seq<char>) -> Seq<char> {
    host + "/index.html"@
}

/// The answer for given findings: refusal first, then the exact file, then
/// the index page, then nothing.
pub open spec fn selected(
    refused: bool,
    exact: Option<AssetView>,
    index: Option<AssetView>,
) -> ResponseView {
    if refused {
        bad_request_view()
    } else if let Some(a) = exact {
        found_view(a.content_type, a.bytes)
    } else if let Some(a) = index {
        found_view(a.content_type, a.bytes)
    } else {
        not_found_view()
    }
}

/// The answer to a request for `path` on `host`, over the packaged files.
pub open spec fn resolve(
    files: Map<Seq<char>, Seq<u8>>,
    host: Seq<char>,
    path: Seq<char>,
) -> ResponseView {
    selected(
        is_unsafe_key(asset_key(host, path)),
        asset_at(files, asset_key(host, path)),
        asset_at(files, index_key(host)),
    )
}

/// Builds the answer from what the guard and the two lookups found.
pub fn select_response(refused: bool, exact: Option<Asset>, index: Option<Asset>) -> (r: Response)
    ensures
        r@ == selected(refused, option_view(exact), option_view(index)),
{
    if refused {
        return Response::bad_request();
    }
    match exact {
        Some(asset) => Response::found(asset.content_type, asset.bytes),
        None => match index {
            Some(asset) => Response::found(asset.content_type, asset.bytes),
            None => Response::not_found(),
        },
    }
}

/// Answers a request for `path` on the virtual host `host` from the
/// packaged directory `assets`.
pub fn handle_local_assets(assets: &include_dir::Dir, host: &str, path: &str) -> (r: Response)
    ensures
        r@ == resolve(packaged_files(*assets), host@, path@),
{
    let key = String::from_str(host).concat(path);
    if is_unsafe_path(key.as_str()) {
        return select_response(true, None, None);
    }
    let exact = find_asset(assets, key.as_str());
    if exact.is_some() {
        return select_response(false, exact, None);
    }
    let fallback = String::from_str(host).concat("/index.html");
    let index = find_asset(assets, fallback.as_str());
    select_response(false, None, index)
}

/// A path that holds two consecutive dots or a backslash is refused with
/// 400, whatever the host and whatever is packaged.
pub proof fn unsafe_path_is_refused(
    files: Map<Seq<char>, Seq<u8>>,
    host: Seq<char>,
    path: Seq<char>,
)
    requires
        has_parent_marker(path) || has_backslash(path),
    ensures
        resolve(files, host, path) == bad_request_view(),
        resolve(files, host, path).status == 400,
{
    let key = asset_key(host, path);
    let shift = host.len() as int;
    if has_parent_marker(path) {
        let i = choose|i: int|
            0 <= i && i + 1 < path.len() && path[i] == '.' && #[trigger] path[i + 1] == '.';
        assert(key[shift + i] == '.' && key[shift + i + 1] == '.');
        assert(has_parent_marker(key));
    } else {
        let i = choose|i: int| 0 <= i < path.len() && #[trigger] path[i] == '\\';
        assert(key[shift + i] == '\\');
        assert(has_backslash(key));
    }
}

/// A request whose key is safe and packaged is answered with 200, the
/// stored bytes unchanged and the content type of that key.
pub proof fn packaged_file_is_served(
    files: Map<Seq<char>, Seq<u8>>,
    host: Seq<char>,
    path: Seq<char>,
)
    requires
        !is_unsafe_key(asset_key(host, path)),
        files.contains_key(asset_key(host, path)),
    ensures
        resolve(files, host, path) == found_view(
            guessed_type(asset_key(host, path)),
            files[asset_key(host, path)],
        ),
        resolve(files, host, path).status == 200,
        resolve(files, host, path).body == files[asset_key(host, path)],
{
}

/// A request whose key is safe and not packaged, on a host whose index
/// page is packaged, is answered with 200 and the index page.
pub proof fn missing_file_falls_back_to_index(
    files: Map<Seq<char>, Seq<u8>>,
    host: Seq<char>,
    path: Seq<char>,
)
    requires
        !is_unsafe_key(asset_key(host, path)),
        !files.contains_key(asset_key(host, path)),
        files.contains_key(index_key(host)),
    ensures
        resolve(files, host, path) == found_view(
            guessed_type(index_key(host)),
            files[index_key(host)],
        ),
        resolve(files, host, path).status == 200,
        resolve(files, host, path).body == files[index_key(host)],
{
}

/// A request whose key is safe, with neither the file nor the host's index
/// page packaged, is answered with 404 and the fixed body.
pub proof fn missing_file_without_index_is_not_found(
    files: Map<Seq<char>, Seq<u8>>,
    host: Seq<char>,
    path: Seq<char>,
)
    requires
        !is_unsafe_key(asset_key(host, path)),
        !files.contains_key(asset_key(host, path)),
        !files.contains_key(index_key(host)),
    ensures
        resolve(files, host, path) == not_found_view(),
        resolve(files, host, path).status == 404,
{
}

/// Two answers to the same request over the same directory are the same:
/// status, headers and every byte of the body.
pub proof fn same_request_same_response(
    dir: include_dir::Dir,
    host: Seq<char>,
    path: Seq<char>,
    first: Response,
    second: Response,
)
    requires
        first@ == resolve(packaged_files(dir), host, path),
        second@ == resolve(packaged_files(dir), host, path),
    ensures
        first@ == second@,
        first.status == second.status,
        first.body@ == second.body@,
{
}

/// Every answer of the resolver has one of three statuses.
pub proof fn resolve_has_three_outcomes(
    files: Map<Seq<char>, Seq<u8>>,
    host: Seq<char>,
    path: Seq<char>,
)
    ensures
        resolve(files, host, path).status == 200 || resolve(files, host, path).status == 400
            || resolve(files, host, path).status == 404,
{
}

} // verus!
