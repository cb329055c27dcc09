use vstd::prelude::*;
use vstd::string::StringExecFns;
use crate::orders::OrderKind;

verus! {

/// Failures tied to a filesystem path: the path itself is unusable, or the
/// file behind it could not be read.
#[derive(Debug)]
pub enum OperationError {
    InvalidPath(String),
    FileLoad(String),
}

pub enum OperationErrorView {
    InvalidPath(Seq<char>),
    FileLoad(Seq<char>),
}

impl View for OperationError {
    type V = OperationErrorView;

    open spec fn view(&self) -> OperationErrorView {
        match self {
            OperationError::InvalidPath(p) => OperationErrorView::InvalidPath(p@),
            OperationError::FileLoad(p) => OperationErrorView::FileLoad(p@),
        }
    }
}

/// The text an operation error shows.
pub open spec fn operation_message_spec(v: OperationErrorView) -> Seq<char> {
    match v {
        OperationErrorView::InvalidPath(p) => "path provided was not valid: "@ + p,
        OperationErrorView::FileLoad(p) => "could not load file: "@ + p,
    }
}

impl OperationError {
    pub fn message(&self) -> (r: String)
        ensures
            r@ == operation_message_spec(self@),
    {
        match self {
            OperationError::InvalidPath(p) => {
                "path provided was not valid: ".to_owned().concat(p.as_str())
            },
            OperationError::FileLoad(p) => "could not load file: ".to_owned().concat(p.as_str()),
        }
    }
}

/// Failures of the declarative document's content: a required item is
/// absent, or a field's text cannot be read as what it must denote.
#[derive(Debug)]
pub enum ParseError {
    MissingItem(String),
    InvalidPort(String),
}

pub enum ParseErrorView {
    MissingItem(Seq<char>),
    InvalidPort(Seq<char>),
}

impl View for ParseError {
    type V = ParseErrorView;

    open spec fn view(&self) -> ParseErrorView {
        match self {
            ParseError::MissingItem(s) => ParseErrorView::MissingItem(s@),
            ParseError::InvalidPort(s) => ParseErrorView::InvalidPort(s@),
        }
    }
}

/// The text a document-content error shows.
pub open spec fn parse_message_spec(v: ParseErrorView) -> Seq<char> {
    match v {
        ParseErrorView::MissingItem(s) => "missing required item: "@ + s,
        ParseErrorView::InvalidPort(s) => "invalid port: "@ + s,
    }
}

impl ParseError {
    pub fn message(&self) -> (r: String)
        ensures
            r@ == parse_message_spec(self@),
    {
        match self {
            ParseError::MissingItem(s) => "missing required item: ".to_owned().concat(s.as_str()),
            ParseError::InvalidPort(s) => "invalid port: ".to_owned().concat(s.as_str()),
        }
    }
}

/// Failures of one correlated request/response exchange with the proxy.
#[derive(Debug)]
pub enum RpcError {
    MalformedMessage(String),
    ExecutionFailure(String),
    UnsupportedOrder(OrderKind),
    NoResponse(String),
}

pub enum RpcErrorView {
    MalformedMessage(Seq<char>),
    ExecutionFailure(Seq<char>),
    UnsupportedOrder(OrderKind),
    NoResponse(Seq<char>),
}

impl View for RpcError {
    type V = RpcErrorView;

    open spec fn view(&self) -> RpcErrorView {
        match self {
            RpcError::MalformedMessage(s) => RpcErrorView::MalformedMessage(s@),
            RpcError::ExecutionFailure(s) => RpcErrorView::ExecutionFailure(s@),
            RpcError::UnsupportedOrder(k) => RpcErrorView::UnsupportedOrder(*k),
            RpcError::NoResponse(s) => RpcErrorView::NoResponse(s@),
        }
    }
}

/// The text naming an order kind in reports and errors.
pub open spec fn kind_text_spec(k: OrderKind) -> Seq<char> {
    match k {
        OrderKind::AddApplication => "AddApplication"@,
        OrderKind::RemoveApplication => "RemoveApplication"@,
        OrderKind::AddCertificate => "AddCertificate"@,
        OrderKind::RemoveCertificate => "RemoveCertificate"@,
        OrderKind::ReplaceCertificate => "ReplaceCertificate"@,
        OrderKind::AddHttpFront => "AddHttpFront"@,
        OrderKind::RemoveHttpFront => "RemoveHttpFront"@,
        OrderKind::AddHttpsFront => "AddHttpsFront"@,
        OrderKind::RemoveHttpsFront => "RemoveHttpsFront"@,
        OrderKind::Other => "Other"@,
    }
}

pub fn kind_text(k: OrderKind) -> (r: String)
    ensures
        r@ == kind_text_spec(k),
{
    match k {
        OrderKind::AddApplication => "AddApplication".to_owned(),
        OrderKind::RemoveApplication => "RemoveApplication".to_owned(),
        OrderKind::AddCertificate => "AddCertificate".to_owned(),
        OrderKind::RemoveCertificate => "RemoveCertificate".to_owned(),
        OrderKind::ReplaceCertificate => "ReplaceCertificate".to_owned(),
        OrderKind::AddHttpFront => "AddHttpFront".to_owned(),
        OrderKind::RemoveHttpFront => "RemoveHttpFront".to_owned(),
        OrderKind::AddHttpsFront => "AddHttpsFront".to_owned(),
        OrderKind::RemoveHttpsFront => "RemoveHttpsFront".to_owned(),
        OrderKind::Other => "Other".to_owned(),
    }
}

/// The text an exchange failure shows.
pub open spec fn rpc_message_spec(v: RpcErrorView) -> Seq<char> {
    match v {
        RpcErrorView::MalformedMessage(s) => "message wasn't properly formed: "@ + s,
        RpcErrorView::ExecutionFailure(s) => "failed to execute order: "@ + s,
        RpcErrorView::UnsupportedOrder(k) => "unknown order: "@ + kind_text_spec(k),
        RpcErrorView::NoResponse(s) => "no response from the proxy while attempting '"@ + s
            + "'"@,
    }
}

impl RpcError {
    pub fn message(&self) -> (r: String)
        ensures
            r@ == rpc_message_spec(self@),
    {
        match self {
            RpcError::MalformedMessage(s) => {
                "message wasn't properly formed: ".to_owned().concat(s.as_str())
            },
            RpcError::ExecutionFailure(s) => {
                "failed to execute order: ".to_owned().concat(s.as_str())
            },
            RpcError::UnsupportedOrder(k) => {
                "unknown order: ".to_owned().concat(kind_text(*k).as_str())
            },
            RpcError::NoResponse(s) => {
                "no response from the proxy while attempting '".to_owned().concat(s.as_str())
                    .concat("'")
            },
        }
    }
}

/// Why one translation pass failed; translation aborts at the first of
/// these and returns no partial state.
#[derive(Debug)]
pub enum TranslateError {
    Operation(OperationError),
    Parse(ParseError),
    Fingerprint,
    MalformedDocument(String),
}

pub enum TranslateErrorView {
    Operation(OperationErrorView),
    Parse(ParseErrorView),
    Fingerprint,
    MalformedDocument(Seq<char>),
}

impl View for TranslateError {
    type V = TranslateErrorView;

    open spec fn view(&self) -> TranslateErrorView {
        match self {
            TranslateError::Operation(e) => TranslateErrorView::Operation(e@),
            TranslateError::Parse(e) => TranslateErrorView::Parse(e@),
            TranslateError::Fingerprint => TranslateErrorView::Fingerprint,
            TranslateError::MalformedDocument(s) => TranslateErrorView::MalformedDocument(s@),
        }
    }
}

/// The text a translation failure shows.
pub open spec fn translate_message_spec(v: TranslateErrorView) -> Seq<char> {
    match v {
        TranslateErrorView::Operation(e) => operation_message_spec(e),
        TranslateErrorView::Parse(e) => parse_message_spec(e),
        TranslateErrorView::Fingerprint => "could not calculate fingerprint"@,
        TranslateErrorView::MalformedDocument(s) => "could not parse the document: "@ + s,
    }
}

impl TranslateError {
    pub fn message(&self) -> (r: String)
        ensures
            r@ == translate_message_spec(self@),
    {
        match self {
            TranslateError::Operation(e) => e.message(),
            TranslateError::Parse(e) => e.message(),
            TranslateError::Fingerprint => "could not calculate fingerprint".to_owned(),
            TranslateError::MalformedDocument(s) => {
                "could not parse the document: ".to_owned().concat(s.as_str())
            },
        }
    }
}

} // verus!
