//! The diagnostics server, seen from the side of its answers.
//!
//! Three read-only endpoints report on the pipeline. Each request resolves
//! the pipeline anew, so every function here takes the outcome of that
//! resolution as an argument: a pipeline that is gone is an ordinary case
//! with an answer of its own, never a fault.

use vstd::prelude::*;
use vstd::string::*;
use crate::render::{
    outcome_of, render_result, rendered_view, RenderError, RenderErrorView, RunReport, RunReportView,
};

verus! {

/// The only request method that the server answers.
pub const METHOD: &'static str = "GET";

/// Path of the health check.
pub const HEALTHCHECK_PATH: &'static str = "/healthcheck";

/// Path of the pipeline's graph description.
pub const DIAGRAM_PATH: &'static str = "/pipeline-diagram";

/// Path of the pipeline's graph, rendered as an image.
pub const DIAGRAM_IMAGE_PATH: &'static str = "/pipeline-diagram.png";

/// Page of the health check while the pipeline lives.
pub const INFO_PAGE: &'static str = "<h1>Info</h1><br>Add some interesting stats here...";

/// Page shown in place of a pipeline that is gone.
pub const GONE_PAGE: &'static str = "<h1>Pipeline gone...</h1>";

/// Message of the image endpoint for a pipeline that is gone.
pub const GONE_MESSAGE: &'static str = "Pipeline is gone!";

/// Status of an answer that carries what was asked for.
pub const STATUS_OK: u16 = 200;

/// Status of an answer for something that is not there.
pub const STATUS_NOT_FOUND: u16 = 404;

/// Status of an answer for a failure on the server's side.
pub const STATUS_INTERNAL_SERVER_ERROR: u16 = 500;

/// Where the server listens.
#[derive(Clone, Copy, Debug, PartialEq, Eq)]
pub struct ListenAddress {
    /// The four bytes of the IPv4 address.
    pub octets: [u8; 4],
    pub port: u16,
}

/// The address that reaches every interface of the host on `port`.
pub fn listen_address(port: u16) -> (address: ListenAddress)
    ensures
        address.octets@ == seq![0u8, 0u8, 0u8, 0u8],
        address.port == port,
{
    let address = ListenAddress { octets: [0, 0, 0, 0], port };
    assert(address.octets@ =~= seq![0u8, 0u8, 0u8, 0u8]);
    address
}

/// The endpoints of the server.
#[derive(Clone, Copy, Debug, PartialEq, Eq, Structural)]
pub enum Endpoint {
    Healthcheck,
    PipelineDiagram,
    PipelineDiagramImage,
}

impl Endpoint {
    /// The path under which the endpoint is served.
    pub open spec fn path_text(self) -> Seq<char> {
        match self {
            Endpoint::Healthcheck => HEALTHCHECK_PATH@,
            Endpoint::PipelineDiagram => DIAGRAM_PATH@,
            Endpoint::PipelineDiagramImage => DIAGRAM_IMAGE_PATH@,
        }
    }

    /// The path under which the endpoint is served.
    pub fn path(&self) -> (path: &'static str)
        ensures
            path@ == self.path_text(),
    {
        match self {
            Endpoint::Healthcheck => HEALTHCHECK_PATH,
            Endpoint::PipelineDiagram => DIAGRAM_PATH,
            Endpoint::PipelineDiagramImage => DIAGRAM_IMAGE_PATH,
        }
    }
}

/// True if a request with this method and path addresses `endpoint`.
pub open spec fn addresses(method: Seq<char>, path: Seq<char>, endpoint: Endpoint) -> bool {
    method == METHOD@ && path == endpoint.path_text()
}

fn same_text(left: &str, right: &str) -> (same: bool)
    ensures
        same == (left@ == right@),
{
    String::from_str(left) == String::from_str(right)
}

/// Finds the endpoint that a request addresses, if there is one.
pub fn route(method: &str, path: &str) -> (found: Option<Endpoint>)
    ensures
        match found {
            Some(endpoint) => addresses(method@, path@, endpoint),
            None => forall|endpoint: Endpoint| !addresses(method@, path@, endpoint),
        },
{
    if !same_text(method, METHOD) {
        None
    } else if same_text(path, HEALTHCHECK_PATH) {
        Some(Endpoint::Healthcheck)
    } else if same_text(path, DIAGRAM_PATH) {
        Some(Endpoint::PipelineDiagram)
    } else if same_text(path, DIAGRAM_IMAGE_PATH) {
        Some(Endpoint::PipelineDiagramImage)
    } else {
        None
    }
}

/// No two endpoints share a path, so a request addresses one endpoint at
/// most and [`route`] has one possible answer.
pub proof fn lemma_paths_are_distinct(a: Endpoint, b: Endpoint)
    ensures
        a.path_text() == b.path_text() ==> a == b,
{
    reveal_strlit("/healthcheck");
    reveal_strlit("/pipeline-diagram");
    reveal_strlit("/pipeline-diagram.png");
    assert(HEALTHCHECK_PATH@[1] == 'h');
    assert(DIAGRAM_PATH@[1] == 'p');
    assert(DIAGRAM_IMAGE_PATH@[1] == 'p');
    assert(DIAGRAM_PATH@.len() == 17);
    assert(DIAGRAM_IMAGE_PATH@.len() == 21);
}

/// What an answer carries; the kind fixes the content type.
#[derive(Clone, Debug, PartialEq, Eq)]
pub enum Payload {
    /// A page of HTML.
    Html(String),
    /// A line of plain text.
    Text(String),
    /// An image in PNG format.
    Png(Vec<u8>),
}

/// Mathematical value of a [`Payload`].
pub enum PayloadView {
    Html(Seq<char>),
    Text(Seq<char>),
    Png(Seq<u8>),
}

impl View for Payload {
    type V = PayloadView;

    open spec fn view(&self) -> PayloadView {
        match self {
            Payload::Html(page) => PayloadView::Html(page@),
            Payload::Text(line) => PayloadView::Text(line@),
            Payload::Png(image) => PayloadView::Png(image@),
        }
    }
}

impl PayloadView {
    /// The content type announced for the payload.
    pub open spec fn content_type(self) -> Seq<char> {
        match self {
            PayloadView::Html(_) => "text/html; charset=utf-8"@,
            PayloadView::Text(_) => "text/plain; charset=utf-8"@,
            PayloadView::Png(_) => "image/png"@,
        }
    }
}

impl Payload {
    /// The content type announced for the payload.
    pub fn content_type(&self) -> (name: &'static str)
        ensures
            name@ == self@.content_type(),
    {
        match self {
            Payload::Html(_) => "text/html; charset=utf-8",
            Payload::Text(_) => "text/plain; charset=utf-8",
            Payload::Png(_) => "image/png",
        }
    }
}

/// An answer to a request.
#[derive(Clone, Debug, PartialEq, Eq)]
pub struct Response {
    /// The HTTP status code.
    pub status: u16,
    pub payload: Payload,
}

/// Mathematical value of a [`Response`].
pub struct ResponseView {
    pub status: u16,
    pub payload: PayloadView,
}

impl View for Response {
    type V = ResponseView;

    open spec fn view(&self) -> ResponseView {
        ResponseView { status: self.status, payload: self.payload@ }
    }
}

impl ResponseView {
    /// The line that the server writes to its log for this answer: the
    /// diagnostic of a failure on the server's side, and nothing for any
    /// other answer. A pipeline that is gone is no failure.
    pub open spec fn log_line(self) -> Option<Seq<char>> {
        match self.payload {
            PayloadView::Text(line) => if self.status == STATUS_INTERNAL_SERVER_ERROR {
                Some(line)
            } else {
                None
            },
            _ => None,
        }
    }
}

impl Response {
    /// The line to write to the log for this answer, if it calls for one.
    pub fn log_line(&self) -> (line: Option<String>)
        ensures
            text_view(line) == self@.log_line(),
    {
        match &self.payload {
            Payload::Text(text) => {
                if self.status == STATUS_INTERNAL_SERVER_ERROR {
                    Some(text.clone())
                } else {
                    None
                }
            },
            _ => None,
        }
    }
}

/// The answer of the health check: always a success, with one page for a
/// pipeline that lives and another for one that is gone.
pub open spec fn healthcheck_answer(present: bool) -> ResponseView {
    ResponseView {
        status: STATUS_OK,
        payload: PayloadView::Html(
            if present {
                INFO_PAGE@
            } else {
                GONE_PAGE@
            },
        ),
    }
}

/// Answers the health check; `present` says whether the pipeline resolved.
pub fn healthcheck(present: bool) -> (response: Response)
    ensures
        response@ == healthcheck_answer(present),
        response.status == 200,
        response@.log_line() is None,
{
    let page = if present {
        INFO_PAGE
    } else {
        GONE_PAGE
    };
    Response { status: STATUS_OK, payload: Payload::Html(String::from_str(page)) }
}

/// The health check tells a living pipeline from one that is gone by the
/// page alone: the status is a success either way and the pages differ.
pub proof fn lemma_healthcheck_tells_presence()
    ensures
        forall|present: bool| (#[trigger] healthcheck_answer(present)).status == 200,
        healthcheck_answer(true).payload != healthcheck_answer(false).payload,
{
    reveal_strlit("<h1>Info</h1><br>Add some interesting stats here...");
    reveal_strlit("<h1>Pipeline gone...</h1>");
    assert(INFO_PAGE@[4] == 'I');
    assert(GONE_PAGE@[4] == 'P');
}

/// The answer of the diagram endpoint: the graph description as it was
/// handed in, or the page for a pipeline that is gone; a success either way.
pub open spec fn diagram_answer(graph: Option<Seq<char>>) -> ResponseView {
    ResponseView {
        status: STATUS_OK,
        payload: PayloadView::Html(
            match graph {
                Some(text) => text,
                None => GONE_PAGE@,
            },
        ),
    }
}

/// Mathematical value of an optional text.
pub open spec fn text_view(text: Option<String>) -> Option<Seq<char>> {
    match text {
        Some(t) => Some(t@),
        None => None,
    }
}

/// Answers the diagram endpoint; `graph` is the pipeline's description of
/// itself, or `None` if the pipeline did not resolve.
pub fn pipeline_diagram(graph: Option<String>) -> (response: Response)
    ensures
        response@ == diagram_answer(text_view(graph)),
        response.status == 200,
        graph is None ==> response@.payload == PayloadView::Html(GONE_PAGE@),
        response@.log_line() is None,
{
    let page = match graph {
        Some(text) => text,
        None => String::from_str(GONE_PAGE),
    };
    Response { status: STATUS_OK, payload: Payload::Html(page) }
}

/// The answer of the image endpoint to a finished rendering: the image
/// bytes untouched, or a server error that carries the diagnostic.
pub open spec fn image_answer(rendered: Result<Seq<u8>, RenderErrorView>) -> ResponseView {
    match rendered {
        Ok(image) => ResponseView { status: STATUS_OK, payload: PayloadView::Png(image) },
        Err(error) => ResponseView {
            status: STATUS_INTERNAL_SERVER_ERROR,
            payload: PayloadView::Text(error.diagnostic()),
        },
    }
}

/// Answers the image endpoint once the renderer has run.
pub fn image_response(rendered: Result<Vec<u8>, RenderError>) -> (response: Response)
    ensures
        response@ == image_answer(rendered_view(rendered)),
        match rendered {
            Ok(image) => {
                &&& response.status == 200
                &&& response@.payload == PayloadView::Png(image@)
                &&& response@.payload.content_type() == "image/png"@
                &&& response@.log_line() is None
            },
            Err(error) => {
                &&& response.status == 500
                &&& response@.payload == PayloadView::Text(error@.diagnostic())
                &&& response@.log_line() == Some(error@.diagnostic())
            },
        },
{
    match rendered {
        Ok(image) => Response { status: STATUS_OK, payload: Payload::Png(image) },
        Err(error) => Response {
            status: STATUS_INTERNAL_SERVER_ERROR,
            payload: Payload::Text(error.diagnostic()),
        },
    }
}

/// How far a request to the image endpoint has come.
#[derive(Clone, Debug, PartialEq, Eq)]
pub enum ImageStage {
    /// The pipeline was resolved; `graph` is its description of itself, or
    /// `None` if it is gone.
    Resolved { graph: Option<String> },
    /// The renderer was run on the description.
    Rendered { report: RunReport },
}

/// Mathematical value of an [`ImageStage`].
pub enum ImageStageView {
    Resolved { graph: Option<Seq<char>> },
    Rendered { report: RunReportView },
}

impl View for ImageStage {
    type V = ImageStageView;

    open spec fn view(&self) -> ImageStageView {
        match self {
            ImageStage::Resolved { graph } => ImageStageView::Resolved { graph: text_view(*graph) },
            ImageStage::Rendered { report } => ImageStageView::Rendered { report: report@ },
        }
    }
}

/// What a request to the image endpoint needs next.
#[derive(Clone, Debug, PartialEq, Eq)]
pub enum ImageStep {
    /// Run the renderer on `graph` and come back with the report.
    Render { graph: String },
    /// Send the answer; the request is done.
    Respond(Response),
}

/// Mathematical value of an [`ImageStep`].
pub enum ImageStepView {
    Render { graph: Seq<char> },
    Respond(ResponseView),
}

impl View for ImageStep {
    type V = ImageStepView;

    open spec fn view(&self) -> ImageStepView {
        match self {
            ImageStep::Render { graph } => ImageStepView::Render { graph: graph@ },
            ImageStep::Respond(response) => ImageStepView::Respond(response@),
        }
    }
}

/// The course of a request to the image endpoint. A pipeline that is gone
/// is answered as not found, and the renderer is not run. A pipeline that
/// lives has its description handed to the renderer as it is. A run of the
/// renderer is answered with the image or with the server error that its
/// failure stands for.
pub open spec fn image_step(stage: ImageStageView) -> ImageStepView {
    match stage {
        ImageStageView::Resolved { graph: None } => ImageStepView::Respond(
            ResponseView { status: STATUS_NOT_FOUND, payload: PayloadView::Text(GONE_MESSAGE@) },
        ),
        ImageStageView::Resolved { graph: Some(text) } => ImageStepView::Render { graph: text },
        ImageStageView::Rendered { report } => ImageStepView::Respond(
            image_answer(outcome_of(report)),
        ),
    }
}

/// Decides the next step of a request to the image endpoint.
pub fn pipeline_diagram_image(stage: ImageStage) -> (next: ImageStep)
    ensures
        next@ == image_step(stage@),
        next is Render <==> stage matches ImageStage::Resolved { graph: Some(_) },
        stage matches ImageStage::Resolved { graph: None } ==> {
            &&& next matches ImageStep::Respond(response)
            &&& response.status == 404
            &&& response@.log_line() is None
        },
{
    match stage {
        ImageStage::Resolved { graph: None } => ImageStep::Respond(
            Response {
                status: STATUS_NOT_FOUND,
                payload: Payload::Text(String::from_str(GONE_MESSAGE)),
            },
        ),
        ImageStage::Resolved { graph: Some(text) } => ImageStep::Render { graph: text },
        ImageStage::Rendered { report } => ImageStep::Respond(image_response(render_result(report))),
    }
}

} // verus!
