//! Turning a rendering outcome into an HTTP response, and the error type of
//! the server.
use vstd::prelude::*;

verus! {

/// Status of a page that was rendered.
pub const STATUS_OK: u16 = 200;

/// Status of every failure; the client learns nothing more.
pub const STATUS_INTERNAL_ERROR: u16 = 500;

/// The server's error: a generic content failure, or a template that could
/// not be rendered. The message is for the operator only.
#[derive(Debug, Clone)]
pub enum Error {
    Static(String),
    TemplateError(String),
}

/// An error as its kind and message.
pub enum ErrorView {
    Static(Seq<char>),
    TemplateError(Seq<char>),
}

impl View for Error {
    type V = ErrorView;

    open spec fn view(&self) -> ErrorView {
        match self {
            Error::Static(m) => ErrorView::Static(m@),
            Error::TemplateError(m) => ErrorView::TemplateError(m@),
        }
    }
}

/// A response as the transport will write it: status, optional
/// `Content-Type` header, and body.
#[derive(Debug, Clone)]
pub struct Page {
    pub status: u16,
    pub content_type: Option<String>,
    pub body: String,
}

pub struct PageView {
    pub status: u16,
    pub content_type: Option<Seq<char>>,
    pub body: Seq<char>,
}

impl View for Page {
    type V = PageView;

    open spec fn view(&self) -> PageView {
        PageView {
            status: self.status,
            content_type: match self.content_type {
                Some(t) => Some(t@),
                None => None,
            },
            body: self.body@,
        }
    }
}

/// The text that `{:?}` gives for a string: escaped and quoted.
pub uninterp spec fn debug_quoted(s: Seq<char>) -> Seq<char>;

/// Relies on the `Debug` impl of `str` (through `format!`): its output is
/// determined by the characters of the string alone.
#[verifier::external_body]
fn debug_str(s: &str) -> (r: String)
    ensures
        r@ == debug_quoted(s@),
{
    format!("{:?}", s)
}

/// The operator-facing line that names an error's kind and message.
pub open spec fn description(e: ErrorView) -> Seq<char> {
    match e {
        ErrorView::Static(m) => "Static Error: "@ + debug_quoted(m),
        ErrorView::TemplateError(m) => "Template Error: "@ + debug_quoted(m),
    }
}

/// The response to every failure: status 500, no content type, empty body.
pub open spec fn error_page() -> PageView {
    PageView { status: STATUS_INTERNAL_ERROR, content_type: None, body: Seq::empty() }
}

/// The response to a page that rendered.
pub open spec fn rendered_page(body: Seq<char>, mime: Seq<char>) -> PageView {
    PageView { status: STATUS_OK, content_type: Some(mime), body }
}

pub open spec fn rendered_view(rendered: Result<String, String>) -> Result<Seq<char>, Seq<char>> {
    match rendered {
        Ok(b) => Ok(b@),
        Err(m) => Err(m@),
    }
}

pub open spec fn outcome_view(outcome: Result<Page, Error>) -> Result<PageView, ErrorView> {
    match outcome {
        Ok(p) => Ok(p@),
        Err(e) => Err(e@),
    }
}

/// A rendering outcome as a page, or as a template error with the renderer's
/// message.
pub open spec fn into_response_spec(rendered: Result<Seq<char>, Seq<char>>, mime: Seq<char>) -> Result<
    PageView,
    ErrorView,
> {
    match rendered {
        Ok(b) => Ok(rendered_page(b, mime)),
        Err(m) => Err(ErrorView::TemplateError(m)),
    }
}

/// What the client receives for a handler's outcome.
pub open spec fn respond_spec(outcome: Result<PageView, ErrorView>) -> PageView {
    match outcome {
        Ok(p) => p,
        Err(_) => error_page(),
    }
}

impl Error {
    /// The line to record for the operator: the kind, then the quoted message.
    pub fn describe(&self) -> (r: String)
        ensures
            r@ == description(self@),
    {
        match self {
            Error::Static(m) => {
                let mut s = String::from_str("Static Error: ");
                s.append(debug_str(m.as_str()).as_str());
                s
            },
            Error::TemplateError(m) => {
                let mut s = String::from_str("Template Error: ");
                s.append(debug_str(m.as_str()).as_str());
                s
            },
        }
    }

    /// Every error becomes the same bare 500 response; the message stays out of it.
    pub fn into_response(self) -> (r: Page)
        ensures
            r@ == error_page(),
    {
        let r = Page { status: STATUS_INTERNAL_ERROR, content_type: None, body: String::new() };
        proof {
            assert(r@.body =~= Seq::<char>::empty());
        }
        r
    }
}

/// Wraps what the renderer returned: a body becomes a 200 page with `mime` as
/// its content type; a failure becomes a template error carrying its message.
pub fn into_response(rendered: Result<String, String>, mime: &str) -> (r: Result<Page, Error>)
    ensures
        outcome_view(r) == into_response_spec(rendered_view(rendered), mime@),
{
    match rendered {
        Ok(body) => Ok(Page { status: STATUS_OK, content_type: Some(String::from_str(mime)), body }),
        Err(msg) => Err(Error::TemplateError(msg)),
    }
}

/// The response the client receives for a handler's outcome.
pub fn respond(outcome: Result<Page, Error>) -> (r: Page)
    ensures
        r@ == respond_spec(outcome_view(outcome)),
{
    match outcome {
        Ok(p) => p,
        Err(e) => e.into_response(),
    }
}

/// A page that rendered reaches the client unchanged: status 200, the
/// renderer's content type, and the rendered body.
pub proof fn lemma_success_round_trip(body: Seq<char>, mime: Seq<char>)
    ensures
        respond_spec(into_response_spec(Ok(body), mime)) == rendered_page(body, mime),
        rendered_page(body, mime).status == STATUS_OK,
        rendered_page(body, mime).content_type == Some(mime),
        rendered_page(body, mime).body == body,
{
}

/// A rendering failure never reaches the client: whatever its message, the
/// response is a 500 with no content type and an empty body.
pub proof fn lemma_failure_contained(msg: Seq<char>, mime: Seq<char>)
    ensures
        respond_spec(into_response_spec(Err(msg), mime)) == error_page(),
        error_page().status == STATUS_INTERNAL_ERROR,
        error_page().content_type is None,
        error_page().body.len() == 0,
{
}

} // verus!
