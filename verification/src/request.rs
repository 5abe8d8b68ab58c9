use vstd::prelude::*;
use vstd::string::*;

verus! {

/// A GET request: where it goes and the headers it carries, in order.
#[derive(Debug, Clone, PartialEq, Eq)]
pub struct HttpRequest {
    pub url: String,
    pub headers: Vec<(String, String)>,
}

/// The mathematical value of an [`HttpRequest`].
pub struct RequestView {
    pub url: Seq<char>,
    pub headers: Seq<(Seq<char>, Seq<char>)>,
}

impl View for HttpRequest {
    type V = RequestView;

    open spec fn view(&self) -> RequestView {
        RequestView { url: self.url@, headers: self.headers.deep_view() }
    }
}

/// The repository whose releases are installed.
pub open spec fn repository() -> Seq<char> {
    "nomaggames/astra"@
}

/// The name by which the client makes itself known.
pub open spec fn client_tag() -> Seq<char> {
    "ASTRA-Launcher"@
}

/// The address of the feed's latest release.
pub open spec fn feed_url() -> Seq<char> {
    "https://api.github.com/repos/"@ + repository() + "/releases/latest"@
}

/// The headers that every request carries: the client's name and the
/// credential.
pub open spec fn common_headers(token: Seq<char>) -> Seq<(Seq<char>, Seq<char>)> {
    seq![("User-Agent"@, client_tag()), ("Authorization"@, "Bearer "@ + token)]
}

/// The request for the latest release.
pub open spec fn feed_request(token: Seq<char>) -> RequestView {
    RequestView { url: feed_url(), headers: common_headers(token) }
}

/// The request for an asset: it asks for the bytes themselves.
pub open spec fn asset_request(download_url: Seq<char>, token: Seq<char>) -> RequestView {
    RequestView {
        url: download_url,
        headers: common_headers(token).push(("Accept"@, "application/octet-stream"@)),
    }
}

fn identify(token: &str) -> (headers: Vec<(String, String)>)
    ensures
        headers.deep_view() == common_headers(token@),
{
    let mut headers: Vec<(String, String)> = Vec::new();
    headers.push(("User-Agent".to_owned(), "ASTRA-Launcher".to_owned()));
    let mut credential = "Bearer ".to_owned();
    credential.append(token);
    headers.push(("Authorization".to_owned(), credential));
    headers
}

/// The request that asks the feed for the latest release, made with the
/// credential `token`.
pub fn latest_release_request(token: &str) -> (request: HttpRequest)
    ensures
        request@ == feed_request(token@),
{
    let mut url = "https://api.github.com/repos/".to_owned();
    url.append("nomaggames/astra");
    url.append("/releases/latest");
    HttpRequest { url, headers: identify(token) }
}

/// The request that downloads the asset at `download_url`, made with the
/// credential `token`.
pub fn asset_download_request(download_url: &str, token: &str) -> (request: HttpRequest)
    ensures
        request@ == asset_request(download_url@, token@),
{
    let mut headers = identify(token);
    headers.push(("Accept".to_owned(), "application/octet-stream".to_owned()));
    proof {
        assert(headers.deep_view() =~= common_headers(token@).push(
            ("Accept"@, "application/octet-stream"@),
        ));
    }
    HttpRequest { url: download_url.to_owned(), headers }
}

} // verus!
