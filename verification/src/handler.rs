//! The request handler: from a directory listing to the HTML fragment.

use crate::config::{authority, Config};
use crate::image::{Image, NotFoundError};
use crate::listing::Listing;
use vstd::prelude::*;
use vstd::string::StringExecFns;

verus! {

/// Status of every response of the request handler.
pub const STATUS_OK: u16 = 200;

/// Status of the response to a failure of the static file service.
pub const STATUS_INTERNAL_SERVER_ERROR: u16 = 500;

/// What the request handler answers: a status and an HTML body.
#[derive(Debug, PartialEq, Eq)]
pub struct HtmlResponse {
    /// HTTP status code.
    pub status: u16,
    /// The HTML fragment.
    pub body: String,
}

/// The absolute URL of the file at `path`: `http://host:port/path`.
pub open spec fn url_of(host: Seq<char>, port: nat, path: Seq<char>) -> Seq<char> {
    "http://"@ + authority(host, port) + "/"@ + path
}

/// The fragment that embeds the image at `url`.
pub open spec fn image_html(url: Seq<char>) -> Seq<char> {
    "<img src=\""@ + url + "\" alt=\"Random Image\">"@
}

/// The fragment that is served when no image could be picked.
pub open spec fn fallback_html() -> Seq<char> {
    "<p>No images found</p>"@
}

/// The body that answers a pick: the embedded image, or the fallback.
pub open spec fn body_for(config: Config, picked: Result<Image, NotFoundError>) -> Seq<char> {
    match picked {
        Ok(image) => image_html(url_of(config.host@, config.port as nat, image@)),
        Err(_) => fallback_html(),
    }
}

/// Whether the body of `response` embeds one of the eligible paths of
/// `directory`, under the host and port of `config`.
pub open spec fn embeds_eligible(config: Config, directory: Listing, response: HtmlResponse) -> bool {
    exists|path: Seq<char>| #[trigger]
        directory.eligible().contains(path) && response.body@ == image_html(
            url_of(config.host@, config.port as nat, path),
        )
}

/// Whether `response` answers a request against `directory`: the status is
/// 200, and the body embeds one of the eligible paths, or is the fallback
/// when there is none.
pub open spec fn answers(config: Config, directory: Listing, response: HtmlResponse) -> bool {
    &&& response.status == STATUS_OK
    &&& if directory.eligible().len() == 0 {
        response.body@ == fallback_html()
    } else {
        embeds_eligible(config, directory, response)
    }
}

/// The absolute URL under which `image` is served.
pub fn image_url(config: &Config, image: &Image) -> (url: String)
    ensures
        url@ == url_of(config.host@, config.port as nat, image@),
{
    let mut url = "http://".to_owned();
    url.append(config.bind_address().as_str());
    url.append("/");
    url.append(image.path.as_str());
    url
}

/// Renders the response to a pick. A failed pick is answered with the
/// fallback fragment and the same status as a successful one.
pub fn render(config: &Config, picked: &Result<Image, NotFoundError>) -> (response: HtmlResponse)
    ensures
        response.status == STATUS_OK,
        response.body@ == body_for(*config, *picked),
{
    match picked {
        Ok(image) => {
            let mut body = "<img src=\"".to_owned();
            body.append(image_url(config, image).as_str());
            body.append("\" alt=\"Random Image\">");
            HtmlResponse { status: STATUS_OK, body }
        },
        Err(_) => HtmlResponse { status: STATUS_OK, body: "<p>No images found</p>".to_owned() },
    }
}

/// Handles one request: picks a regular file of `directory` at random and
/// renders the fragment that embeds it, or the fallback if there is none.
pub fn random_image(config: &Config, directory: &Listing) -> (response: HtmlResponse)
    ensures
        answers(*config, *directory, response),
{
    let picked = Image::random_from_directory(directory);
    render(config, &picked)
}

/// The body that reports a failure of the static file service: a fixed
/// notice, then the description of the failure.
pub open spec fn static_error_body(detail: Seq<char>) -> Seq<char> {
    "处理静态资源出错："@ + detail
}

/// Answers a failure of the static file service: status 500, and a body
/// that carries `detail`, the description of the failure.
pub fn static_serve_error(detail: &str) -> (response: (u16, String))
    ensures
        response.0 == STATUS_INTERNAL_SERVER_ERROR,
        response.1@ == static_error_body(detail@),
{
    let mut body = "处理静态资源出错：".to_owned();
    body.append(detail);
    (STATUS_INTERNAL_SERVER_ERROR, body)
}

/// An image fragment is never the fallback fragment, whatever the URL.
pub proof fn lemma_image_html_is_not_fallback(url: Seq<char>)
    ensures
        image_html(url) != fallback_html(),
{
    reveal_strlit("<img src=\"");
    reveal_strlit("<p>No images found</p>");
    assert(image_html(url)[1] == 'i');
    assert(fallback_html()[1] == 'p');
}

/// A response that embeds an eligible path is not the fallback.
pub proof fn lemma_embedding_is_not_fallback(
    config: Config,
    directory: Listing,
    response: HtmlResponse,
)
    requires
        embeds_eligible(config, directory, response),
    ensures
        response.body@ != fallback_html(),
{
    let path = choose|path: Seq<char>| #[trigger]
        directory.eligible().contains(path) && response.body@ == image_html(
            url_of(config.host@, config.port as nat, path),
        );
    lemma_image_html_is_not_fallback(url_of(config.host@, config.port as nat, path));
}

/// Requests against an unchanging directory do not depend on one another:
/// whatever two of them were answered, each answer alone has status 200. If
/// the directory holds a regular file, both embed an eligible path and
/// neither is the fallback; if it holds none, both are the fallback.
pub proof fn lemma_requests_are_independent(
    config: Config,
    directory: Listing,
    first: HtmlResponse,
    second: HtmlResponse,
)
    requires
        answers(config, directory, first),
        answers(config, directory, second),
    ensures
        first.status == STATUS_OK,
        second.status == STATUS_OK,
        directory.eligible().len() == 0 ==> first.body@ == fallback_html() && second.body@
            == fallback_html(),
        directory.eligible().len() > 0 ==> embeds_eligible(config, directory, first)
            && embeds_eligible(config, directory, second),
        directory.eligible().len() > 0 ==> first.body@ != fallback_html() && second.body@
            != fallback_html(),
{
    if directory.eligible().len() > 0 {
        lemma_embedding_is_not_fallback(config, directory, first);
        lemma_embedding_is_not_fallback(config, directory, second);
    }
}

} // verus!
