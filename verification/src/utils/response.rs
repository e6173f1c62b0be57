//! What is sent back: a status, the headers that say what the body is and how
//! long it may be kept, and the body.

use crate::utils::media::application_json;
use crate::utils::media::header_text;
use crate::utils::media::header_value_ok;
use crate::utils::media::image_png;
use crate::utils::media::text_css_utf_8;
use crate::utils::media::text_html_utf_8;
use crate::utils::media::text_plain_utf_8;
use crate::utils::media::text_xml;
use vstd::prelude::*;

verus! {

pub const OK: u16 = 200;

pub const SEE_OTHER: u16 = 303;

pub const TEMPORARY_REDIRECT: u16 = 307;

pub const PERMANENT_REDIRECT: u16 = 308;

pub const BAD_REQUEST: u16 = 400;

pub const NOT_FOUND: u16 = 404;

pub const INTERNAL_SERVER_ERROR: u16 = 500;

/// A response before it is put on the wire.
#[derive(Debug)]
pub struct Response<T> {
    pub status: u16,
    pub content_type: Option<String>,
    pub cache_control: Option<String>,
    pub location: Option<String>,
    pub body: T,
}

impl<T> Response<T> {
    /// Whether this is the response with status 200 that declares `body` to
    /// be of type `content_type`, to be kept as `cache_control` allows.
    pub open spec fn serves(self, content_type: Seq<char>, cache_control: Seq<char>, body: T) -> bool {
        &&& self.status == OK
        &&& self.content_type matches Some(t) && t@ == content_type
        &&& self.cache_control matches Some(c) && c@ == cache_control
        &&& self.location is None
        &&& self.body == body
    }
}

/// How long a static asset may be kept.
pub open spec fn asset_lifetime() -> Seq<char> {
    "max-age=31536000, immutable"@
}

/// How long a generated page may be kept.
pub open spec fn page_lifetime() -> Seq<char> {
    "max-age=300, private"@
}

fn served<T>(content_type: String, cache_control: &str, body: T) -> (res: Response<T>)
    ensures
        res.serves(content_type@, cache_control@, body),
{
    Response {
        status: OK,
        content_type: Some(content_type),
        cache_control: Some(cache_control.to_owned()),
        location: None,
        body,
    }
}

/// A style sheet.
pub struct Css<T>(pub T);

impl<T> Css<T> {
    pub fn into_response(self) -> (res: Response<T>)
        ensures
            res.serves("text/css; charset=utf-8"@, asset_lifetime(), self.0),
    {
        served(text_css_utf_8(), "max-age=31536000, immutable", self.0)
    }
}

/// An icon.
pub struct Ico<T>(pub T);

impl<T> Ico<T> {
    pub fn into_response(self) -> (res: Response<T>)
        ensures
            res.serves("image/x-icon"@, asset_lifetime(), self.0),
    {
        served("image/x-icon".to_owned(), "max-age=31536000, immutable", self.0)
    }
}

/// A JSON document.
pub struct Json<T>(pub T);

impl<T> Json<T> {
    pub fn into_response(self) -> (res: Response<T>)
        ensures
            res.serves("application/json"@, asset_lifetime(), self.0),
    {
        served(application_json(), "max-age=31536000, immutable", self.0)
    }
}

/// A PNG image.
pub struct Png<T>(pub T);

impl<T> Png<T> {
    pub fn into_response(self) -> (res: Response<T>)
        ensures
            res.serves("image/png"@, asset_lifetime(), self.0),
    {
        served(image_png(), "max-age=31536000, immutable", self.0)
    }
}

/// Plain text.
pub struct Text<T>(pub T);

impl<T> Text<T> {
    pub fn into_response(self) -> (res: Response<T>)
        ensures
            res.serves("text/plain; charset=utf-8"@, page_lifetime(), self.0),
    {
        served(text_plain_utf_8(), "max-age=300, private", self.0)
    }
}

/// What is sent where a page could not be rendered.
pub open spec fn render_failure(res: Response<String>) -> bool {
    &&& res.status == INTERNAL_SERVER_ERROR
    &&& res.content_type matches Some(t) && t@ == "text/html; charset=utf-8"@
    &&& res.cache_control is None
    &&& res.location is None
    &&& res.body@ == "a serious error has occured"@
}

fn failed_to_render() -> (res: Response<String>)
    ensures
        render_failure(res),
{
    Response {
        status: INTERNAL_SERVER_ERROR,
        content_type: Some(text_html_utf_8()),
        cache_control: None,
        location: None,
        body: "a serious error has occured".to_owned(),
    }
}

/// An HTML page as its template rendered it, or `None` where rendering
/// failed.
pub struct Html(pub Option<String>);

impl Html {
    pub fn into_response(self) -> (res: Response<String>)
        ensures
            match self.0 {
                Some(page) => res.serves("text/html; charset=utf-8"@, page_lifetime(), page),
                None => render_failure(res),
            },
    {
        match self.0 {
            Some(page) => served(text_html_utf_8(), "max-age=300, private", page),
            None => failed_to_render(),
        }
    }
}

/// An XML document as its template rendered it, or `None` where rendering
/// failed.
pub struct Xml(pub Option<String>);

impl Xml {
    pub fn into_response(self) -> (res: Response<String>)
        ensures
            match self.0 {
                Some(page) => res.serves("text/xml"@, page_lifetime(), page),
                None => render_failure(res),
            },
    {
        match self.0 {
            Some(page) => served(text_xml(), "max-age=300, private", page),
            None => failed_to_render(),
        }
    }
}

/// A redirection to another location.
#[must_use]
#[derive(Debug, Clone)]
pub struct Redirect {
    status_code: u16,
    location: String,
}

impl Redirect {
    /// Whether this redirection answers with `status_code` and points to
    /// `location`.
    pub closed spec fn leads(self, status_code: u16, location: Seq<char>) -> bool {
        self.status_code == status_code && self.location@ == location
    }

    /// The lasting redirection to the front page.
    pub fn permanent_root() -> (res: Redirect)
        ensures
            res.leads(PERMANENT_REDIRECT, "/"@),
    {
        Redirect { status_code: PERMANENT_REDIRECT, location: "/".to_owned() }
    }

    /// The passing redirection to the front page.
    pub fn temporary_root() -> (res: Redirect)
        ensures
            res.leads(TEMPORARY_REDIRECT, "/"@),
    {
        Redirect { status_code: TEMPORARY_REDIRECT, location: "/".to_owned() }
    }

    /// Sends the client to `uri` with a GET request, where `uri` can stand
    /// in a header.
    pub fn to(uri: &str) -> (res: Option<Redirect>)
        ensures
            res is Some <==> header_text(uri@),
            res matches Some(r) ==> r.leads(SEE_OTHER, uri@),
    {
        Self::with_status_code(SEE_OTHER, uri)
    }

    /// Sends the client to `uri` for now, where `uri` can stand in a header.
    pub fn temporary(uri: &str) -> (res: Option<Redirect>)
        ensures
            res is Some <==> header_text(uri@),
            res matches Some(r) ==> r.leads(TEMPORARY_REDIRECT, uri@),
    {
        Self::with_status_code(TEMPORARY_REDIRECT, uri)
    }

    /// Sends the client to `uri` for good, where `uri` can stand in a header.
    pub fn permanent(uri: &str) -> (res: Option<Redirect>)
        ensures
            res is Some <==> header_text(uri@),
            res matches Some(r) ==> r.leads(PERMANENT_REDIRECT, uri@),
    {
        Self::with_status_code(PERMANENT_REDIRECT, uri)
    }

    fn with_status_code(status_code: u16, uri: &str) -> (res: Option<Redirect>)
        requires
            300 <= status_code < 400,
        ensures
            res is Some <==> header_text(uri@),
            res matches Some(r) ==> r.leads(status_code, uri@),
    {
        if header_value_ok(uri) {
            Some(Redirect { status_code, location: uri.to_owned() })
        } else {
            None
        }
    }

    pub fn into_response(self) -> (res: Response<()>)
        ensures
            self.leads(res.status, res.location.unwrap()@),
            res.location is Some,
            res.content_type is None,
            res.cache_control is None,
    {
        Response {
            status: self.status_code,
            content_type: None,
            cache_control: None,
            location: Some(self.location),
            body: (),
        }
    }
}

/// Why the parameters in the path of a request could not be taken.
#[derive(Clone, Copy, Debug, PartialEq, Eq, Structural)]
pub enum PathRejection {
    /// A parameter did not pass its check.
    Malformed,
    /// A parameter is asked for as a type that no path can give.
    Unsupported,
    /// The route has no parameters to take.
    Missing,
}

/// The status to answer a rejected path with: the request is at fault where
/// a parameter is malformed, the server in every other case.
pub fn rejection_status(rejection: PathRejection) -> (res: u16)
    ensures
        res == if rejection == PathRejection::Malformed {
            BAD_REQUEST
        } else {
            INTERNAL_SERVER_ERROR
        },
{
    match rejection {
        PathRejection::Malformed => BAD_REQUEST,
        PathRejection::Unsupported => INTERNAL_SERVER_ERROR,
        PathRejection::Missing => INTERNAL_SERVER_ERROR,
    }
}

/// The page that says a request failed, and with which status.
#[derive(Debug, Clone, Copy)]
pub struct ErrorPage {
    pub status: u16,
}

impl ErrorPage {
    /// The page for a failure of the server itself.
    pub fn new() -> (res: ErrorPage)
        ensures
            res.status == INTERNAL_SERVER_ERROR,
    {
        ErrorPage { status: INTERNAL_SERVER_ERROR }
    }

    /// The same page, with `status`.
    pub fn with_status(self, status: u16) -> (res: ErrorPage)
        ensures
            res.status == status,
    {
        ErrorPage { status }
    }
}

} // verus!
