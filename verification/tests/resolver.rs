use include_dir::{Dir, DirEntry, File};
use local_assets::assets::find_asset;
use local_assets::assets::Asset;
use local_assets::resolver::handle_local_assets;
use local_assets::resolver::select_response;
use local_assets::response::Response;

const PNG: &[u8] = &[0x89, b'P', b'N', b'G', 0x0d, 0x0a, 0x1a, 0x0a, 0x00, 0x01];
const INDEX: &[u8] = b"<!doctype html><title>app</title>";
const CONFIG: &[u8] = b"{\"theme\":\"dark\"}";
const ICON: &[u8] = &[0, 0, 1, 0];
const NOTES: &[u8] = b"plain notes";

fn with_assets<R>(run: impl FnOnce(&Dir<'_>) -> R) -> R {
    let app_files = [
        DirEntry::File(File::new("myapp.localhost/index.html", INDEX)),
        DirEntry::File(File::new("myapp.localhost/logo.png", PNG)),
        DirEntry::File(File::new("myapp.localhost/config.json", CONFIG)),
        DirEntry::File(File::new("myapp.localhost/favicon.ico", ICON)),
        DirEntry::File(File::new("myapp.localhost/PHOTO.PNG", PNG)),
        DirEntry::File(File::new("myapp.localhost/blob", NOTES)),
    ];
    let bare_files = [
        DirEntry::File(File::new("bare/notes.txt", NOTES)),
        DirEntry::File(File::new("bare/data.unknownkind", NOTES)),
        DirEntry::File(File::new("bare/up..down.txt", NOTES)),
    ];
    let hosts = [
        DirEntry::Dir(Dir::new("myapp.localhost", &app_files)),
        DirEntry::Dir(Dir::new("bare", &bare_files)),
    ];
    let root = Dir::new("", &hosts);
    run(&root)
}

fn resolve(host: &str, path: &str) -> Response {
    with_assets(|assets| handle_local_assets(assets, host, path))
}

fn header<'a>(r: &'a Response, name: &str) -> Option<&'a str> {
    r.headers.iter().find(|h| h.name == name).map(|h| h.value.as_str())
}

fn header_names(r: &Response) -> Vec<&str> {
    r.headers.iter().map(|h| h.name.as_str()).collect()
}

#[test]
fn logo_is_served_as_png() {
    let r = resolve("myapp.localhost", "/logo.png");
    assert_eq!(r.status, 200);
    assert_eq!(header(&r, "Content-Type"), Some("image/png"));
    assert_eq!(r.body, PNG.to_vec());
}

#[test]
fn parent_directory_request_is_refused() {
    let r = resolve("myapp.localhost", "/../secret");
    assert_eq!(r.status, 400);
    assert_eq!(r.body, b"Invalid path".to_vec());
    assert!(r.headers.is_empty());
}

#[test]
fn found_response_has_three_headers_in_order() {
    let r = resolve("myapp.localhost", "/config.json");
    assert_eq!(r.status, 200);
    assert_eq!(header_names(&r), vec!["Content-Type", "Access-Control-Allow-Origin", "Content-Length"]);
    assert_eq!(header(&r, "Content-Type"), Some("application/json"));
    assert_eq!(header(&r, "Access-Control-Allow-Origin"), Some("*"));
    assert_eq!(header(&r, "Content-Length"), Some("16"));
    assert_eq!(r.body, CONFIG.to_vec());
}

#[test]
fn icon_and_html_have_their_types() {
    let icon = resolve("myapp.localhost", "/favicon.ico");
    assert_eq!(icon.status, 200);
    assert_eq!(header(&icon, "Content-Type"), Some("image/x-icon"));
    assert_eq!(icon.body, ICON.to_vec());
    let page = resolve("myapp.localhost", "/index.html");
    assert_eq!(page.status, 200);
    assert_eq!(header(&page, "Content-Type"), Some("text/html"));
    assert_eq!(page.body, INDEX.to_vec());
}

#[test]
fn extension_is_matched_without_regard_to_case() {
    let r = resolve("myapp.localhost", "/PHOTO.PNG");
    assert_eq!(r.status, 200);
    assert_eq!(header(&r, "Content-Type"), Some("image/png"));
}

#[test]
fn file_without_known_extension_is_an_octet_stream() {
    let blob = resolve("myapp.localhost", "/blob");
    assert_eq!(blob.status, 200);
    assert_eq!(header(&blob, "Content-Type"), Some("application/octet-stream"));
    assert_eq!(blob.body, NOTES.to_vec());
    let odd = resolve("bare", "/data.unknownkind");
    assert_eq!(odd.status, 200);
    assert_eq!(header(&odd, "Content-Type"), Some("application/octet-stream"));
}

#[test]
fn missing_file_falls_back_to_the_index_page() {
    let r = resolve("myapp.localhost", "/settings/profile");
    assert_eq!(r.status, 200);
    assert_eq!(header(&r, "Content-Type"), Some("text/html"));
    assert_eq!(header(&r, "Content-Length"), Some("33"));
    assert_eq!(r.body, INDEX.to_vec());
}

#[test]
fn root_request_gets_the_index_page() {
    let r = resolve("myapp.localhost", "/");
    assert_eq!(r.status, 200);
    assert_eq!(header(&r, "Content-Type"), Some("text/html"));
    assert_eq!(r.body, INDEX.to_vec());
}

#[test]
fn fallback_type_is_that_of_the_index_page_not_of_the_request() {
    let r = resolve("myapp.localhost", "/missing.png");
    assert_eq!(r.status, 200);
    assert_eq!(header(&r, "Content-Type"), Some("text/html"));
    assert_eq!(r.body, INDEX.to_vec());
}

#[test]
fn missing_file_without_index_is_not_found() {
    let r = resolve("bare", "/nothing.txt");
    assert_eq!(r.status, 404);
    assert_eq!(r.body, b"404 Not Found".to_vec());
    assert_eq!(header_names(&r), vec!["Content-Type", "Access-Control-Allow-Origin"]);
    assert_eq!(header(&r, "Content-Type"), Some("text/plain"));
    assert_eq!(header(&r, "Access-Control-Allow-Origin"), Some("*"));
}

#[test]
fn unknown_host_is_not_found() {
    let r = resolve("other.localhost", "/logo.png");
    assert_eq!(r.status, 404);
    assert_eq!(r.body, b"404 Not Found".to_vec());
}

#[test]
fn plain_text_is_served_from_a_host_without_index() {
    let r = resolve("bare", "/notes.txt");
    assert_eq!(r.status, 200);
    assert_eq!(header(&r, "Content-Type"), Some("text/plain"));
    assert_eq!(header(&r, "Content-Length"), Some("11"));
    assert_eq!(r.body, NOTES.to_vec());
}

#[test]
fn backslash_is_refused() {
    let r = resolve("myapp.localhost", "/images\\logo.png");
    assert_eq!(r.status, 400);
    assert_eq!(r.body, b"Invalid path".to_vec());
}

#[test]
fn two_dots_inside_a_name_are_refused_even_when_packaged() {
    let r = resolve("bare", "/up..down.txt");
    assert_eq!(r.status, 400);
    assert_eq!(r.body, b"Invalid path".to_vec());
}

#[test]
fn two_dots_in_the_host_are_refused() {
    let r = resolve("my..app", "/logo.png");
    assert_eq!(r.status, 400);
}

#[test]
fn dot_ending_the_host_and_dot_starting_the_path_are_refused() {
    let r = resolve("myapp.", "./logo.png");
    assert_eq!(r.status, 400);
}

#[test]
fn single_dots_are_accepted() {
    let r = resolve("myapp.localhost", "/logo.png");
    assert_eq!(r.status, 200);
    let r = resolve("bare", "/.hidden");
    assert_eq!(r.status, 404);
}

#[test]
fn refusal_comes_before_lookup_and_fallback() {
    let r = resolve("myapp.localhost", "/..");
    assert_eq!(r.status, 400);
    let r = resolve("myapp.localhost", "/a/../index.html");
    assert_eq!(r.status, 400);
}

#[test]
fn same_request_gives_the_same_response() {
    let requests = [
        ("myapp.localhost", "/logo.png"),
        ("myapp.localhost", "/nowhere"),
        ("bare", "/nowhere"),
        ("bare", "/../x"),
    ];
    for (host, path) in requests {
        let first = resolve(host, path);
        let second = resolve(host, path);
        assert_eq!(first, second);
        assert_eq!(first.body, second.body);
    }
}

#[test]
fn find_asset_types_what_it_finds() {
    let found = with_assets(|assets| find_asset(assets, "myapp.localhost/logo.png"));
    assert_eq!(
        found,
        Some(Asset {
            path: "myapp.localhost/logo.png".to_string(),
            content_type: "image/png".to_string(),
            bytes: PNG.to_vec(),
        })
    );
}

#[test]
fn find_asset_finds_nothing_for_a_directory_or_a_missing_file() {
    assert_eq!(with_assets(|assets| find_asset(assets, "myapp.localhost")), None);
    assert_eq!(with_assets(|assets| find_asset(assets, "myapp.localhost/none.png")), None);
    assert_eq!(with_assets(|assets| find_asset(assets, "")), None);
}

fn asset(content_type: &str, bytes: &[u8]) -> Asset {
    Asset { path: "h/p".to_string(), content_type: content_type.to_string(), bytes: bytes.to_vec() }
}

#[test]
fn select_response_refuses_first() {
    let r = select_response(true, Some(asset("image/png", PNG)), Some(asset("text/html", INDEX)));
    assert_eq!(r, Response::bad_request());
}

#[test]
fn select_response_prefers_the_exact_file() {
    let r = select_response(false, Some(asset("image/png", PNG)), Some(asset("text/html", INDEX)));
    assert_eq!(r, Response::found("image/png".to_string(), PNG.to_vec()));
}

#[test]
fn select_response_falls_back_to_the_index() {
    let r = select_response(false, None, Some(asset("text/html", INDEX)));
    assert_eq!(r, Response::found("text/html".to_string(), INDEX.to_vec()));
}

#[test]
fn select_response_without_findings_is_not_found() {
    let r = select_response(false, None, None);
    assert_eq!(r, Response::not_found());
}
