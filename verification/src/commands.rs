//! The commands the shell offers to the web view: a greeting, and a
//! diagnostic table of URLs under which the packaged assets can be tried.

use vstd::prelude::*;
use vstd::string::StringExecFns;
use std::collections::HashMap;

verus! {

/// The greeting for `name`.
pub open spec fn greeting(name: Seq<char>) -> Seq<char> {
    "Hello, "@ + name + "! You've been greeted from Rust!"@
}

/// Greets `name`.
pub fn greet(name: &str) -> (text: String)
    ensures
        text@ == greeting(name@),
{
    String::from_str("Hello, ").concat(name).concat("! You've been greeted from Rust!")
}

/// One URL to try, under the name of what it should load.
#[derive(Debug, PartialEq, Eq)]
pub struct TestUrl {
    pub name: String,
    pub report: String,
}

impl View for TestUrl {
    type V = (Seq<char>, Seq<char>);

    open spec fn view(&self) -> (Seq<char>, Seq<char>) {
        (self.name@, self.report@)
    }
}

/// The URLs to try on one host.
#[derive(Debug, PartialEq, Eq)]
pub struct HostTests {
    pub host: String,
    pub urls: Vec<TestUrl>,
}

impl View for HostTests {
    type V = (Seq<char>, Seq<(Seq<char>, Seq<char>)>);

    open spec fn view(&self) -> (Seq<char>, Seq<(Seq<char>, Seq<char>)>) {
        (self.host@, Seq::new(self.urls@.len(), |i: int| self.urls@[i]@))
    }
}

/// The views of a list of hosts, in order.
pub open spec fn hosts_view(hosts: Seq<HostTests>) -> Seq<(Seq<char>, Seq<(Seq<char>, Seq<char>)>)> {
    Seq::new(hosts.len(), |i: int| hosts[i]@)
}

/// What is reported for a URL.
pub open spec fn url_report(url: Seq<char>) -> Seq<char> {
    "URL: "@ + url
}

/// The four URLs to try below `base`.
pub open spec fn urls_below(base: Seq<char>) -> Seq<(Seq<char>, Seq<char>)> {
    seq![
        ("index"@, url_report(base + "/"@)),
        ("config"@, url_report(base + "/config.json"@)),
        ("favicon"@, url_report(base + "/favicon.ico"@)),
        ("logo"@, url_report(base + "/logo.png"@)),
    ]
}

/// The diagnostic table: the virtual host over HTTP, then the loopback
/// address over the custom scheme.
pub open spec fn test_table() -> Seq<(Seq<char>, Seq<(Seq<char>, Seq<char>)>)> {
    seq![
        ("qwerty.localhost"@, urls_below("http://qwerty.localhost"@)),
        ("127.0.0.1:3000"@, urls_below("qwerty://127.0.0.1:3000"@)),
    ]
}

fn test_url(name: &str, base: &str, path: &str) -> (t: TestUrl)
    ensures
        t@ == (name@, url_report(base@ + path@)),
{
    let report = String::from_str("URL: ").concat(base).concat(path);
    assert(report@ =~= url_report(base@ + path@));
    TestUrl { name: String::from_str(name), report }
}

fn host_tests(host: &str, base: &str) -> (h: HostTests)
    ensures
        h@ == (host@, urls_below(base@)),
{
    let mut urls: Vec<TestUrl> = Vec::new();
    urls.push(test_url("index", base, "/"));
    urls.push(test_url("config", base, "/config.json"));
    urls.push(test_url("favicon", base, "/favicon.ico"));
    urls.push(test_url("logo", base, "/logo.png"));
    let h = HostTests { host: String::from_str(host), urls };
    assert(h@.1 =~= urls_below(base@));
    h
}

/// Lists the URLs to try, host by host.
pub fn test_urls() -> (hosts: Vec<HostTests>)
    ensures
        hosts_view(hosts@) == test_table(),
{
    let mut hosts: Vec<HostTests> = Vec::new();
    hosts.push(host_tests("qwerty.localhost", "http://qwerty.localhost"));
    hosts.push(host_tests("127.0.0.1:3000", "qwerty://127.0.0.1:3000"));
    assert(hosts_view(hosts@) =~= test_table());
    hosts
}

#[verifier::external_type_specification]
#[verifier::external_body]
pub struct ExJsonValue(serde_json::Value);

#[verifier::external_type_specification]
#[verifier::external_body]
pub struct ExJsonError(serde_json::Error);

/// The members of a JSON object whose members are objects of strings: each
/// member's name, mapped to its own members by name.
pub uninterp spec fn json_members(value: serde_json::Value) -> Map<
    Seq<char>,
    Map<Seq<char>, Seq<char>>,
>;

/// The map that a list of named reports fills, a later entry replacing an
/// earlier one of the same name.
pub open spec fn reports_by_name(urls: Seq<(Seq<char>, Seq<char>)>) -> Map<Seq<char>, Seq<char>>
    decreases urls.len(),
{
    if urls.len() == 0 {
        Map::empty()
    } else {
        reports_by_name(urls.drop_last()).insert(urls.last().0, urls.last().1)
    }
}

/// The map that a list of hosts fills, a later entry replacing an earlier
/// one of the same host.
pub open spec fn tests_by_host(hosts: Seq<(Seq<char>, Seq<(Seq<char>, Seq<char>)>)>) -> Map<
    Seq<char>,
    Map<Seq<char>, Seq<char>>,
>
    decreases hosts.len(),
{
    if hosts.len() == 0 {
        Map::empty()
    } else {
        tests_by_host(hosts.drop_last()).insert(hosts.last().0, reports_by_name(hosts.last().1))
    }
}

/// Fills a `HashMap` of `HashMap`s from the table and calls
/// `serde_json::to_value` on it.
///
/// Trusted, in two parts. The call succeeds: `to_value` is documented to
/// fail only where a `Serialize` impl fails of itself or a map has keys
/// that are not strings, and a map from `String` to maps from `String` to
/// `String` has neither. The value is a JSON object with one member for
/// each host, itself an object with one string member for each named
/// report, as serde writes a map with string keys.
#[verifier::external_body]
fn to_json(table: &Vec<HostTests>) -> (r: Result<serde_json::Value, serde_json::Error>)
    ensures
        r is Ok,
        r matches Ok(value) ==> json_members(value) == tests_by_host(hosts_view(table@)),
{
    let mut hosts: HashMap<String, HashMap<String, String>> = HashMap::new();
    for entry in table {
        let mut urls: HashMap<String, String> = HashMap::new();
        for url in &entry.urls {
            urls.insert(url.name.clone(), url.report.clone());
        }
        hosts.insert(entry.host.clone(), urls);
    }
    serde_json::to_value(hosts)
}

/// Why a command could not answer.
#[derive(Debug, Clone, Copy, PartialEq, Eq)]
pub enum CommandError {
    /// The table could not be written as JSON.
    NotSerializable,
}

/// The reports for the four URLs below `base`, by name.
pub open spec fn reports_below(base: Seq<char>) -> Map<Seq<char>, Seq<char>> {
    map![
        "index"@ => url_report(base + "/"@),
        "config"@ => url_report(base + "/config.json"@),
        "favicon"@ => url_report(base + "/favicon.ico"@),
        "logo"@ => url_report(base + "/logo.png"@),
    ]
}

/// The diagnostic table as the JSON object holds it.
pub open spec fn test_report() -> Map<Seq<char>, Map<Seq<char>, Seq<char>>> {
    map![
        "qwerty.localhost"@ => reports_below("http://qwerty.localhost"@),
        "127.0.0.1:3000"@ => reports_below("qwerty://127.0.0.1:3000"@),
    ]
}

/// Filling a map from the four URLs below a base gives its reports by name.
pub proof fn urls_below_by_name(base: Seq<char>)
    ensures
        reports_by_name(urls_below(base)) == reports_below(base),
{
    let s4 = urls_below(base);
    let s3 = s4.drop_last();
    let s2 = s3.drop_last();
    let s1 = s2.drop_last();
    let s0 = s1.drop_last();
    assert(s0.len() == 0);
    assert(reports_by_name(s0) == Map::<Seq<char>, Seq<char>>::empty());
    assert(reports_by_name(s1) == reports_by_name(s0).insert(s1.last().0, s1.last().1));
    assert(reports_by_name(s2) == reports_by_name(s1).insert(s2.last().0, s2.last().1));
    assert(reports_by_name(s3) == reports_by_name(s2).insert(s3.last().0, s3.last().1));
    assert(reports_by_name(s4) == reports_by_name(s3).insert(s4.last().0, s4.last().1));
    assert(reports_by_name(s4) =~= reports_below(base));
}

/// Filling a map from the diagnostic table gives the diagnostic report.
pub proof fn test_table_by_host()
    ensures
        tests_by_host(test_table()) == test_report(),
{
    let t2 = test_table();
    let t1 = t2.drop_last();
    let t0 = t1.drop_last();
    urls_below_by_name("http://qwerty.localhost"@);
    urls_below_by_name("qwerty://127.0.0.1:3000"@);
    assert(t0.len() == 0);
    assert(tests_by_host(t0) == Map::<Seq<char>, Map<Seq<char>, Seq<char>>>::empty());
    assert(tests_by_host(t1) == tests_by_host(t0).insert(t1.last().0, reports_by_name(t1.last().1)));
    assert(tests_by_host(t2) == tests_by_host(t1).insert(t2.last().0, reports_by_name(t2.last().1)));
    assert(tests_by_host(t2) =~= test_report());
}

/// Reports the URLs to try as a JSON object: one member for each host,
/// holding one member for each URL. The report is always given: the error
/// is there for the command's signature, and no table of strings meets it.
pub fn test_local_assets() -> (r: Result<serde_json::Value, CommandError>)
    ensures
        r is Ok,
        r matches Ok(value) ==> json_members(value) == test_report(),
{
    let table = test_urls();
    proof {
        test_table_by_host();
    }
    match to_json(&table) {
        Ok(value) => Ok(value),
        Err(_) => Err(CommandError::NotSerializable),
    }
}

} // verus!
