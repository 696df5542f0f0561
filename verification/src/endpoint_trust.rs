//! Canonical first-party endpoint trust checks.
//!
//! Third-party compatibility is derived from the base URL itself: an endpoint is first-party
//! only when it lies under the compiled-in proxy base or is an HTTPS route of the `x.ai`
//! domain, and everything that does not parse is third-party.

use crate::text::{chars_of, same_text};
use vstd::prelude::*;

verus! {

/// The host of a URL.
#[derive(Debug)]
pub enum UrlHost {
    Domain(String),
    /// The address as a number, first octet highest.
    Ipv4(u32),
    /// The address as a number, first segment highest.
    Ipv6(u128),
}

/// What the trust checks read of a URL.
#[derive(Debug)]
pub struct UrlParts {
    pub scheme: String,
    pub host: Option<UrlHost>,
    /// The host as it is written in the URL.
    pub host_text: Option<String>,
    /// The port, or the one that the scheme implies.
    pub port: Option<u16>,
    pub path: String,
}

/// The host of a URL, by its characters.
pub enum HostView {
    Domain(Seq<char>),
    Ipv4(u32),
    Ipv6(u128),
}

/// What the trust checks read of a URL, by its characters.
pub struct UrlView {
    pub scheme: Seq<char>,
    pub host: Option<HostView>,
    pub host_text: Option<Seq<char>>,
    pub port: Option<u16>,
    pub path: Seq<char>,
}

impl View for UrlHost {
    type V = HostView;

    open spec fn view(&self) -> HostView {
        match *self {
            UrlHost::Domain(domain) => HostView::Domain(domain@),
            UrlHost::Ipv4(address) => HostView::Ipv4(address),
            UrlHost::Ipv6(address) => HostView::Ipv6(address),
        }
    }
}

impl View for UrlParts {
    type V = UrlView;

    open spec fn view(&self) -> UrlView {
        UrlView {
            scheme: self.scheme@,
            host: match self.host {
                Some(host) => Some(host@),
                None => None,
            },
            host_text: match self.host_text {
                Some(text) => Some(text@),
                None => None,
            },
            port: self.port,
            path: self.path@,
        }
    }
}

/// The view of an optional URL.
pub open spec fn optional_view(parts: Option<UrlParts>) -> Option<UrlView> {
    match parts {
        Some(parts) => Some(parts@),
        None => None,
    }
}

/// What `url::Url::parse` makes of a text, as far as the trust checks read it; nothing where
/// the text is no absolute URL.
pub uninterp spec fn parsed_url(text: Seq<char>) -> Option<UrlView>;

/// `url::Url::parse` and the accessors of its result: scheme, host, written host, port or
/// the scheme's own one, and path. The contract names them all at once.
#[verifier::external_body]
fn parse_url(text: &str) -> (parts: Option<UrlParts>)
    ensures
        optional_view(parts) == parsed_url(text@),
{
    let parsed = url::Url::parse(text).ok()?;
    let host = match parsed.host() {
        Some(url::Host::Domain(domain)) => Some(UrlHost::Domain(domain.to_owned())),
        Some(url::Host::Ipv4(address)) => Some(UrlHost::Ipv4(u32::from(address))),
        Some(url::Host::Ipv6(address)) => Some(UrlHost::Ipv6(u128::from(address))),
        None => None,
    };
    let scheme = parsed.scheme().to_owned();
    let host_text = parsed.host_str().map(str::to_owned);
    let port = parsed.port_or_known_default();
    Some(UrlParts { scheme, host, host_text, port, path: parsed.path().to_owned() })
}

/// Whether `path` is `base` or lies below it.
pub open spec fn path_under(path: Seq<char>, base: Seq<char>) -> bool {
    ||| path == base
    ||| base.len() < path.len() && path.take(base.len() as int) == base && path[base.len() as int]
        == '/'
}

/// Whether `candidate` is a route under `trusted`: same scheme, host and port, and a path
/// at or below the trusted one.
pub open spec fn lies_under(candidate: Option<UrlView>, trusted: Option<UrlView>) -> bool {
    match (candidate, trusted) {
        (Some(candidate), Some(trusted)) => {
            &&& candidate.scheme == trusted.scheme
            &&& candidate.host_text == trusted.host_text
            &&& candidate.port == trusted.port
            &&& path_under(candidate.path, trusted.path)
        },
        _ => false,
    }
}

/// Whether the host is the local machine: `localhost`, `127.0.0.0/8` or `::1`.
pub open spec fn is_loopback(host: Option<HostView>) -> bool {
    match host {
        Some(HostView::Domain(domain)) => domain == "localhost"@,
        Some(HostView::Ipv4(address)) => 0x7f00_0000 <= address < 0x8000_0000,
        Some(HostView::Ipv6(address)) => address == 1,
        None => false,
    }
}

/// Whether `s` ends in `ending`.
pub open spec fn ends_in(s: Seq<char>, ending: Seq<char>) -> bool {
    ending.len() <= s.len() && s.skip(s.len() - ending.len()) == ending
}

/// Whether the written host is the `x.ai` domain or one below it.
pub open spec fn is_xai_host(host_text: Option<Seq<char>>) -> bool {
    match host_text {
        Some(host) => host == "x.ai"@ || ends_in(host, ".x.ai"@),
        None => false,
    }
}

/// Whether a URL is a trusted first-party HTTPS route.
pub open spec fn is_trusted_https(url: Option<UrlView>, proxy_base: Option<UrlView>) -> bool {
    match url {
        Some(parts) => {
            &&& parts.scheme == "https"@
            &&& !is_loopback(parts.host)
            &&& lies_under(url, proxy_base) || is_xai_host(parts.host_text)
        },
        None => false,
    }
}

/// Whether a URL is a third-party route.
pub open spec fn is_third_party(url: Option<UrlView>, proxy_base: Option<UrlView>) -> bool {
    !(lies_under(url, proxy_base) || is_trusted_https(url, proxy_base))
}

fn same_optional_text(left: &Option<String>, right: &Option<String>) -> (same: bool)
    ensures
        same == ((match *left {
            Some(text) => Some(text@),
            None => None,
        }) == (match *right {
            Some(text) => Some(text@),
            None => None,
        })),
{
    match (left, right) {
        (Some(left), Some(right)) => same_text(left.as_str(), right.as_str()),
        (None, None) => true,
        _ => false,
    }
}

fn same_port(left: Option<u16>, right: Option<u16>) -> (same: bool)
    ensures
        same == (left == right),
{
    match (left, right) {
        (Some(left), Some(right)) => left == right,
        (None, None) => true,
        _ => false,
    }
}

/// Whether `path` is `base` or lies below it.
pub fn path_lies_under(path: &str, base: &str) -> (under: bool)
    ensures
        under == path_under(path@, base@),
{
    let path_chars = chars_of(path);
    let base_chars = chars_of(base);
    if path_chars.len() < base_chars.len() {
        return false;
    }
    let lead = path.substring_char(0, base_chars.len());
    assert(lead@ =~= path@.take(base@.len() as int));
    if !same_text(lead, base) {
        assert(path@.len() == base@.len() ==> lead@ =~= path@);
        return false;
    }
    if path_chars.len() == base_chars.len() {
        assert(lead@ =~= path@);
        return true;
    }
    path_chars[base_chars.len()] == '/'
}

/// Whether `s` ends in `ending`.
pub fn text_ends_in(s: &str, ending: &str) -> (ends: bool)
    ensures
        ends == ends_in(s@, ending@),
{
    let length = s.unicode_len();
    let ending_length = ending.unicode_len();
    if length < ending_length {
        return false;
    }
    let tail = s.substring_char(length - ending_length, length);
    assert(tail@ =~= s@.skip(s@.len() - ending@.len()));
    same_text(tail, ending)
}

/// Whether `candidate` is a route under `trusted`.
pub fn parts_lie_under(candidate: &UrlParts, trusted: &UrlParts) -> (under: bool)
    ensures
        under == lies_under(Some(candidate@), Some(trusted@)),
{
    same_text(candidate.scheme.as_str(), trusted.scheme.as_str()) && same_optional_text(
        &candidate.host_text,
        &trusted.host_text,
    ) && same_port(candidate.port, trusted.port) && path_lies_under(
        candidate.path.as_str(),
        trusted.path.as_str(),
    )
}

fn is_loopback_host(parts: &UrlParts) -> (loopback: bool)
    ensures
        loopback == is_loopback(parts@.host),
{
    match &parts.host {
        Some(UrlHost::Domain(domain)) => same_text(domain.as_str(), "localhost"),
        Some(UrlHost::Ipv4(address)) => 0x7f00_0000 <= *address && *address < 0x8000_0000,
        Some(UrlHost::Ipv6(address)) => *address == 1,
        None => false,
    }
}

/// Whether a URL is a trusted first-party HTTPS route, given whether it lies under the
/// proxy base.
pub fn parts_are_trusted_https(parts: &UrlParts, under_proxy_base: bool) -> (trusted: bool)
    ensures
        trusted == {
            &&& parts@.scheme == "https"@
            &&& !is_loopback(parts@.host)
            &&& under_proxy_base || is_xai_host(parts@.host_text)
        },
{
    if !same_text(parts.scheme.as_str(), "https") {
        return false;
    }
    if is_loopback_host(parts) {
        return false;
    }
    if under_proxy_base {
        return true;
    }
    match &parts.host_text {
        Some(host) => same_text(host.as_str(), "x.ai") || text_ends_in(host.as_str(), ".x.ai"),
        None => false,
    }
}

/// Whether `candidate` is a route under `trusted_base`.
pub fn matches_trusted_base_url(candidate: &str, trusted_base: &str) -> (matches: bool)
    ensures
        matches == lies_under(parsed_url(candidate@), parsed_url(trusted_base@)),
{
    match (parse_url(candidate), parse_url(trusted_base)) {
        (Some(candidate), Some(trusted)) => parts_lie_under(&candidate, &trusted),
        _ => false,
    }
}

/// Whether `url` lies under `proxy_base`, the production cli-chat-proxy base.
pub fn is_prod_cli_chat_proxy_url(url: &str, proxy_base: &str) -> (prod: bool)
    ensures
        prod == lies_under(parsed_url(url@), parsed_url(proxy_base@)),
{
    matches_trusted_base_url(url, proxy_base)
}

/// True for configured first-party cli-chat-proxy routes, excluding arbitrary loopback
/// URLs. It is suitable for first-party request extensions.
pub fn is_trusted_cli_chat_proxy_url(url: &str, proxy_base: &str) -> (trusted: bool)
    ensures
        trusted == lies_under(parsed_url(url@), parsed_url(proxy_base@)),
{
    is_prod_cli_chat_proxy_url(url, proxy_base)
}

/// True for trusted first-party HTTPS routes, excluding arbitrary loopback URLs.
pub fn is_trusted_xai_https_url(url: &str, proxy_base: &str) -> (trusted: bool)
    ensures
        trusted == is_trusted_https(parsed_url(url@), parsed_url(proxy_base@)),
{
    match parse_url(url) {
        Some(parts) => parts_are_trusted_https(
            &parts,
            is_trusted_cli_chat_proxy_url(url, proxy_base),
        ),
        None => false,
    }
}

/// Whether `base_url` is a third-party route that gets a clean standard-protocol payload.
/// Anything else is first-party.
pub fn is_third_party_base_url(base_url: &str, proxy_base: &str) -> (third_party: bool)
    ensures
        third_party == is_third_party(parsed_url(base_url@), parsed_url(proxy_base@)),
{
    !(is_trusted_cli_chat_proxy_url(base_url, proxy_base) || is_trusted_xai_https_url(
        base_url,
        proxy_base,
    ))
}

/// A text that does not parse is third-party: the check fails closed.
pub proof fn unparseable_is_third_party(proxy_base: Option<UrlView>)
    ensures
        is_third_party(None, proxy_base),
{
}

/// Trust requires HTTPS, even for first-party hosts, as long as the proxy base does.
pub proof fn cleartext_is_third_party(url: UrlView, proxy_base: Option<UrlView>)
    requires
        url.scheme != "https"@,
        proxy_base matches Some(base) ==> base.scheme == "https"@,
    ensures
        is_third_party(Some(url), proxy_base),
{
}

/// A host outside the `x.ai` domain is third-party unless it is the proxy base's own.
pub proof fn lookalike_hosts_are_third_party(url: UrlView, proxy_base: Option<UrlView>)
    requires
        !is_xai_host(url.host_text),
        proxy_base matches Some(base) ==> base.host_text != url.host_text,
    ensures
        is_third_party(Some(url), proxy_base),
{
}

/// The local machine is never trusted by the HTTPS check, and never first-party unless it
/// is the proxy base's own host.
pub proof fn loopback_is_never_trusted(url: UrlView, proxy_base: Option<UrlView>)
    requires
        is_loopback(url.host),
    ensures
        !is_trusted_https(Some(url), proxy_base),
        (proxy_base matches Some(base) ==> base.host_text != url.host_text) ==> is_third_party(
            Some(url),
            proxy_base,
        ),
{
}

/// The proxy base itself is first-party, and so is every route below it.
pub proof fn proxy_routes_are_first_party(base: UrlView, below: Seq<char>)
    ensures
        !is_third_party(Some(base), Some(base)),
        !is_third_party(
            Some(UrlView { path: base.path + seq!['/'] + below, ..base }),
            Some(base),
        ),
{
    let path = base.path + seq!['/'] + below;
    assert(path.take(base.path.len() as int) =~= base.path);
}

/// A path is under a base exactly where it is the base, followed by nothing or by a slash and
/// anything.
pub proof fn paths_are_under_at_a_slash(path: Seq<char>, base: Seq<char>, rest: Seq<char>)
    ensures
        path_under(base + rest, base) <==> rest.len() == 0 || rest[0] == '/',
        path_under(path, base) ==> exists|below: Seq<char>|
            path == #[trigger] (base + below) && (below.len() == 0 || below[0] == '/'),
{
    let whole = base + rest;
    assert(whole.take(base.len() as int) =~= base);
    if rest.len() == 0 {
        assert(whole =~= base);
    } else {
        assert(whole.len() != base.len());
    }
    if path_under(path, base) {
        let below = path.skip(base.len() as int);
        assert(path =~= base + below);
    }
}

/// A route under a base has the scheme, the host and the port of the base and a path under its
/// own, and whatever has these lies under it.
pub proof fn routes_share_scheme_host_and_port(url: UrlView, base: UrlView, rest: Seq<char>)
    ensures
        !lies_under(None, Some(base)),
        !lies_under(Some(url), None),
        lies_under(Some(url), Some(base)) ==> url.scheme == base.scheme,
        lies_under(Some(url), Some(base)) ==> url.host_text == base.host_text,
        lies_under(Some(url), Some(base)) ==> url.port == base.port,
        lies_under(Some(url), Some(base)) ==> base.path.is_prefix_of(url.path),
        url.scheme == base.scheme && url.host_text == base.host_text && url.port == base.port
            && url.path == base.path + rest ==> (lies_under(Some(url), Some(base)) <==> rest.len()
            == 0 || rest[0] == '/'),
{
    paths_are_under_at_a_slash(url.path, base.path, rest);
    if lies_under(Some(url), Some(base)) {
        let below = choose|below: Seq<char>|
            url.path == #[trigger] (base.path + below) && (below.len() == 0 || below[0] == '/');
        assert(url.path.subrange(0, base.path.len() as int) =~= base.path);
    }
}

/// Over HTTPS the domain `x.ai` and every domain below it are first-party, whatever the port and
/// the path.
pub proof fn xai_domains_are_first_party(
    url: UrlView,
    proxy_base: Option<UrlView>,
    domain: Seq<char>,
    lead: Seq<char>,
)
    requires
        url.scheme == "https"@,
        url.host == Some(HostView::Domain(domain)),
        domain != "localhost"@,
        url.host_text == Some("x.ai"@) || url.host_text == Some(lead + ".x.ai"@),
    ensures
        is_trusted_https(Some(url), proxy_base),
        !is_third_party(Some(url), proxy_base),
{
    let host = lead + ".x.ai"@;
    assert(host.skip(host.len() - ".x.ai"@.len()) =~= ".x.ai"@);
}

/// A host that merely ends in the letters `x.ai` is no domain of the first party.
pub proof fn lookalike_domains_are_third_party(
    url: UrlView,
    proxy_base: Option<UrlView>,
    lead: Seq<char>,
    tail: Seq<char>,
)
    requires
        proxy_base is Some ==> proxy_base->0.host_text != url.host_text,
        url.host_text is None || url.host_text == Some(lead + "x.ai"@) && lead.len() > 0
            && lead.last() != '.' || url.host_text == Some(lead + tail) && tail.len() == 5 && tail
            != ".x.ai"@,
    ensures
        !is_trusted_https(Some(url), proxy_base),
        is_third_party(Some(url), proxy_base),
{
    reveal_strlit("x.ai");
    reveal_strlit(".x.ai");
    match url.host_text {
        Some(host) => {
            let ending = ".x.ai"@;
            if host == lead + "x.ai"@ && lead.len() > 0 && lead.last() != '.' {
                assert(host.len() > "x.ai"@.len());
                assert(host.skip(host.len() - ending.len())[0] == lead.last());
                assert(ending[0] == '.');
            } else {
                assert(host.skip(host.len() - ending.len()) =~= tail);
                assert(host.len() >= 5);
            }
        },
        None => {},
    }
}

/// A route under an HTTPS proxy base is trusted, unless its host is the local machine: the name
/// `localhost`, an address whose first octet is 127, or `::1`.
pub proof fn proxy_routes_are_trusted_off_the_local_machine(url: UrlView, base: UrlView)
    requires
        lies_under(Some(url), Some(base)),
        base.scheme == "https"@,
    ensures
        url.host == Some(HostView::Domain("localhost"@)) ==> !is_trusted_https(
            Some(url),
            Some(base),
        ),
        url.host is Some && url.host->0 is Domain && url.host->0->Domain_0 != "localhost"@
            ==> is_trusted_https(Some(url), Some(base)),
        url.host is Some && url.host->0 is Ipv4 ==> (is_trusted_https(Some(url), Some(base))
            <==> url.host->0->Ipv4_0 as int / 16777216 != 127),
        url.host is Some && url.host->0 is Ipv6 ==> (is_trusted_https(Some(url), Some(base))
            <==> url.host->0->Ipv6_0 != 1),
        url.host is None ==> is_trusted_https(Some(url), Some(base)),
        !is_third_party(Some(url), Some(base)),
{
}

} // verus!
