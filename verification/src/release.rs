//! The two requests of a roll, and the reading of the answer to the first.

use vstd::prelude::*;
use vstd::string::StringExecFns;
use crate::error::RollError;
use crate::json::{json_document, parse, Json};

verus! {

/// Address under which the remote catalogue keeps its releases.
pub const BASE_DISCOGS_URL: &'static str = "https://api.discogs.com/releases";

/// How this client names itself to the remote catalogue.
pub const USER_AGENT: &'static str = "RustRecordRandomiser/0.1 +https://frippertronics.com";

/// What stands before the token in the authorization header.
pub const AUTHORIZATION_PREFIX: &'static str = "Authorization: Discogs token=";

/// A GET request: where it goes, the header lines that it carries, and the
/// name under which the client sends it.
#[derive(Debug, PartialEq, Eq)]
pub struct Request {
    pub url: String,
    pub headers: Vec<String>,
    pub user_agent: String,
}

/// A request as characters.
pub ghost struct RequestView {
    pub url: Seq<char>,
    pub headers: Seq<Seq<char>>,
    pub user_agent: Seq<char>,
}

impl View for Request {
    type V = RequestView;

    open spec fn view(&self) -> RequestView {
        RequestView {
            url: self.url@,
            headers: self.headers.deep_view(),
            user_agent: self.user_agent@,
        }
    }
}

/// The request for the description of release `release_id`, made in the name
/// of the holder of `token`.
pub open spec fn release_request_spec(release_id: Seq<char>, token: Seq<char>) -> RequestView {
    RequestView {
        url: BASE_DISCOGS_URL@ + "/"@ + release_id,
        headers: seq![AUTHORIZATION_PREFIX@ + token],
        user_agent: USER_AGENT@,
    }
}

/// The request for the image at `uri`: it goes to that address as it stands
/// and carries no header line, so nothing of the user's token.
pub open spec fn image_request_spec(uri: Seq<char>) -> RequestView {
    RequestView { url: uri, headers: Seq::empty(), user_agent: USER_AGENT@ }
}

/// Builds the request for the description of a release.
pub fn release_request(release_id: &str, token: &str) -> (request: Request)
    ensures
        request@ == release_request_spec(release_id@, token@),
{
    let url = String::from_str(BASE_DISCOGS_URL).concat("/").concat(release_id);
    let authorization = String::from_str(AUTHORIZATION_PREFIX).concat(token);
    let mut headers: Vec<String> = Vec::new();
    headers.push(authorization);
    let request = Request { url, headers, user_agent: String::from_str(USER_AGENT) };
    assert(request.headers.deep_view() =~= seq![AUTHORIZATION_PREFIX@ + token@]);
    request
}

/// Builds the request for an image.
pub fn image_request(uri: &str) -> (request: Request)
    ensures
        request@ == image_request_spec(uri@),
{
    let request = Request {
        url: String::from_str(uri),
        headers: Vec::new(),
        user_agent: String::from_str(USER_AGENT),
    };
    assert(request.headers.deep_view() =~= Seq::<Seq<char>>::empty());
    request
}

/// The address of the first image of a release, as its description gives it:
/// the member `uri` of the first element of the member `images`, where all of
/// them exist and the last is a string.
pub open spec fn primary_uri(doc: Json) -> Option<Seq<char>> {
    match doc.member("images"@) {
        Some(images) => match images.element(0) {
            Some(first) => match first.member("uri"@) {
                Some(uri) => uri.text(),
                None => None,
            },
            None => None,
        },
        None => None,
    }
}

/// A description whose `images` is an empty array names no first image.
pub proof fn lemma_empty_images_names_no_image(doc: Json)
    requires
        doc.member("images"@) matches Some(Json::Array(items)) && items@.len() == 0,
    ensures
        primary_uri(doc) is None,
{
}

/// A description whose `images` begins with an object whose `uri` is a
/// string names exactly that string.
pub proof fn lemma_first_uri_is_named(doc: Json, images: Json, first: Json, uri: String)
    requires
        doc.member("images"@) == Some(images),
        images.element(0) == Some(first),
        first.member("uri"@) == Some(Json::Text(uri)),
    ensures
        primary_uri(doc) == Some(uri@),
{
}

/// Finds the address of the first image in the description of a release.
/// A description without one is the failure `NoImage`.
pub fn primary_image_uri(doc: &Json) -> (found: Result<String, RollError>)
    ensures
        match found {
            Ok(uri) => primary_uri(*doc) == Some(uri@),
            Err(e) => e == RollError::NoImage && primary_uri(*doc) is None,
        },
{
    let images = match doc.get("images") {
        Some(images) => images,
        None => return Err(RollError::NoImage),
    };
    let first = match images.at(0) {
        Some(first) => first,
        None => return Err(RollError::NoImage),
    };
    let uri = match first.get("uri") {
        Some(uri) => uri,
        None => return Err(RollError::NoImage),
    };
    match uri.as_str() {
        Some(s) => Ok(String::from_str(s)),
        None => Err(RollError::NoImage),
    }
}

/// What the answer `body` to a release request says of the first image.
pub open spec fn image_uri_of_response(body: Seq<u8>) -> Result<Seq<char>, RollError> {
    match json_document(body) {
        Some(doc) => match primary_uri(doc) {
            Some(uri) => Ok(uri),
            None => Err(RollError::NoImage),
        },
        None => Err(RollError::MalformedResponse),
    }
}

/// Reads the answer to a release request: the address of the first image, or
/// `MalformedResponse` where the answer is no JSON text, or `NoImage` where it
/// is one and names no such address.
pub fn image_uri_from_response(body: &[u8]) -> (found: Result<String, RollError>)
    ensures
        match found {
            Ok(uri) => image_uri_of_response(body@) == Ok::<Seq<char>, RollError>(uri@),
            Err(e) => image_uri_of_response(body@) == Err::<Seq<char>, RollError>(e),
        },
{
    match parse(body) {
        Some(doc) => primary_image_uri(&doc),
        None => Err(RollError::MalformedResponse),
    }
}

} // verus!
