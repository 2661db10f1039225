//! The HTTP response model: status, the two headers this server sets, and a
//! body that is either text or opaque bytes.  The application converts a
//! value of this model into a transport-level response unchanged.

use vstd::prelude::*;

verus! {

/// A response body: text read or rendered as a string, or opaque bytes.
pub enum BodyData {
    TextBody(String),
    ByteBody(Vec<u8>),
}

/// Mathematical model of a body.
pub enum BodyModel {
    TextModel(Seq<char>),
    ByteModel(Seq<u8>),
}

impl View for BodyData {
    type V = BodyModel;

    open spec fn view(&self) -> BodyModel {
        match self {
            BodyData::TextBody(s) => BodyModel::TextModel(s@),
            BodyData::ByteBody(b) => BodyModel::ByteModel(b@),
        }
    }
}

/// A complete response: the only observable outcome of a request.
pub struct HttpResponse {
    pub status: u16,
    pub content_type: Option<String>,
    pub cache_control: Option<String>,
    pub body: BodyData,
}

/// Mathematical model of a response.
pub struct RespModel {
    pub status: u16,
    pub content_type: Option<Seq<char>>,
    pub cache_control: Option<Seq<char>>,
    pub body: BodyModel,
}

impl View for HttpResponse {
    type V = RespModel;

    open spec fn view(&self) -> RespModel {
        RespModel {
            status: self.status,
            content_type: match self.content_type {
                Some(s) => Some(s@),
                None => None,
            },
            cache_control: match self.cache_control {
                Some(s) => Some(s@),
                None => None,
            },
            body: self.body@,
        }
    }
}

/// A 200 text response: subtype `mime` under `text/`, short-lived caching,
/// and the file's characters verbatim as the body.
pub open spec fn model_text_response(mime: Seq<char>, content: Seq<char>) -> RespModel {
    RespModel {
        status: 200,
        content_type: Some("text/"@ + mime),
        cache_control: Some("public, max-age=600"@),
        body: BodyModel::TextModel(content),
    }
}

pub fn text_response(mime: &str, content: String) -> (r: HttpResponse)
    ensures
        r@ == model_text_response(mime@, content@),
{
    let header = crate::strutil::str_concat("text/", mime);
    HttpResponse {
        status: 200,
        content_type: Some(header),
        cache_control: Some(String::from_str("public, max-age=600")),
        body: BodyData::TextBody(content),
    }
}

/// A 200 binary response: long-lived caching and the file's bytes verbatim.
pub open spec fn model_binary_response(content: Seq<u8>) -> RespModel {
    RespModel {
        status: 200,
        content_type: None,
        cache_control: Some("public, max-age=3600"@),
        body: BodyModel::ByteModel(content),
    }
}

pub fn binary_response(content: Vec<u8>) -> (r: HttpResponse)
    ensures
        r@ == model_binary_response(content@),
{
    HttpResponse {
        status: 200,
        content_type: None,
        cache_control: Some(String::from_str("public, max-age=3600")),
        body: BodyData::ByteBody(content),
    }
}

/// A 200 response carrying a rendered directory listing, with no extra
/// headers.
pub open spec fn model_listing_response(html: Seq<char>) -> RespModel {
    RespModel {
        status: 200,
        content_type: None,
        cache_control: None,
        body: BodyModel::TextModel(html),
    }
}

pub fn listing_response(html: String) -> (r: HttpResponse)
    ensures
        r@ == model_listing_response(html@),
{
    HttpResponse {
        status: 200,
        content_type: None,
        cache_control: None,
        body: BodyData::TextBody(html),
    }
}

/// The fixed not-found body used when the content root has no custom page.
pub open spec fn model_not_found_fallback() -> Seq<char> {
    "404 Not Found."@
}

/// A 404 response: the custom page's characters when one was read, else the
/// fixed fallback text.
pub open spec fn model_not_found_response(page: Option<Seq<char>>) -> RespModel {
    match page {
        Some(content) => RespModel {
            status: 404,
            content_type: Some("text/html"@),
            cache_control: Some("public, max-age=600"@),
            body: BodyModel::TextModel(content),
        },
        None => RespModel {
            status: 404,
            content_type: None,
            cache_control: None,
            body: BodyModel::TextModel(model_not_found_fallback()),
        },
    }
}

pub fn not_found_response(page: Option<String>) -> (r: HttpResponse)
    ensures
        r@ == model_not_found_response(page.deep_view()),
{
    match page {
        Some(content) => HttpResponse {
            status: 404,
            content_type: Some(String::from_str("text/html")),
            cache_control: Some(String::from_str("public, max-age=600")),
            body: BodyData::TextBody(content),
        },
        None => HttpResponse {
            status: 404,
            content_type: None,
            cache_control: None,
            body: BodyData::TextBody(String::from_str("404 Not Found.")),
        },
    }
}

/// A 500 response with its fixed plaintext body.
pub open spec fn model_server_error_response() -> RespModel {
    RespModel {
        status: 500,
        content_type: None,
        cache_control: None,
        body: BodyModel::TextModel("Internal server error."@),
    }
}

pub fn server_error_response() -> (r: HttpResponse)
    ensures
        r@ == model_server_error_response(),
{
    HttpResponse {
        status: 500,
        content_type: None,
        cache_control: None,
        body: BodyData::TextBody(String::from_str("Internal server error.")),
    }
}

} // verus!
