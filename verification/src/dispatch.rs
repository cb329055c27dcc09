//! The order dispatcher's decision logic: request ids, response
//! correlation, status interpretation and batch outcomes. The channel the
//! envelopes travel on is the caller's business; every decision about what
//! an exchange meant is made — and verified — here.

use vstd::prelude::*;
use vstd::string::StringExecFns;
use crate::errors::{kind_text, kind_text_spec, RpcError, RpcErrorView};
use crate::orders::OrderKind;
use crate::proxy::random_token;

verus! {

/// The status a proxy answer carries.
#[derive(Clone, Copy, Debug, PartialEq, Eq, Structural)]
pub enum ResponseStatus {
    Completed,
    Processing,
    Error,
}

/// One answer received from the proxy, reduced to the fields the
/// correlation protocol reads.
#[derive(Debug)]
pub struct ResponseEnvelope {
    pub id: String,
    pub status: ResponseStatus,
    pub message: String,
}

pub struct ResponseEnvelopeView {
    pub id: Seq<char>,
    pub status: ResponseStatus,
    pub message: Seq<char>,
}

impl View for ResponseEnvelope {
    type V = ResponseEnvelopeView;

    open spec fn view(&self) -> ResponseEnvelopeView {
        ResponseEnvelopeView { id: self.id@, status: self.status, message: self.message@ }
    }
}

/// What an order is called in a success report.
#[derive(Clone, Copy, Debug, PartialEq, Eq, Structural)]
pub enum ItemLabel {
    Application,
    Certificate,
    HttpFront,
    HttpsFront,
}

/// What was done to it.
#[derive(Clone, Copy, Debug, PartialEq, Eq, Structural)]
pub enum ActionLabel {
    Added,
    Removed,
    Replaced,
}

/// The report a recognized order kind earns on an `Ok` answer; an order
/// kind outside the recognized set earns none.
pub open spec fn report_of(kind: OrderKind) -> Option<(ItemLabel, ActionLabel)> {
    match kind {
        OrderKind::AddApplication => Some((ItemLabel::Application, ActionLabel::Added)),
        OrderKind::RemoveApplication => Some((ItemLabel::Application, ActionLabel::Removed)),
        OrderKind::AddCertificate => Some((ItemLabel::Certificate, ActionLabel::Added)),
        OrderKind::RemoveCertificate => Some((ItemLabel::Certificate, ActionLabel::Removed)),
        OrderKind::ReplaceCertificate => Some((ItemLabel::Certificate, ActionLabel::Replaced)),
        OrderKind::AddHttpFront => Some((ItemLabel::HttpFront, ActionLabel::Added)),
        OrderKind::RemoveHttpFront => Some((ItemLabel::HttpFront, ActionLabel::Removed)),
        OrderKind::AddHttpsFront => Some((ItemLabel::HttpsFront, ActionLabel::Added)),
        OrderKind::RemoveHttpsFront => Some((ItemLabel::HttpsFront, ActionLabel::Removed)),
        OrderKind::Other => None,
    }
}

/// How one exchange resolves. An absent answer is a distinct failure; an
/// answer whose id differs from the sent one is a protocol violation and
/// never counts as success; a `Processing` answer resolves the request
/// without a report; an `Error` answer fails with the proxy's text; an
/// `Ok` answer earns the kind's report, or an unsupported-order failure
/// for a kind outside the recognized set.
pub open spec fn classify_spec(
    sent_id: Seq<char>,
    kind: OrderKind,
    response: Option<ResponseEnvelopeView>,
) -> Result<Option<(ItemLabel, ActionLabel)>, RpcErrorView> {
    match response {
        None => Err(RpcErrorView::NoResponse(kind_text_spec(kind))),
        Some(resp) => if resp.id != sent_id {
            Err(RpcErrorView::MalformedMessage("Invalid message ID"@))
        } else {
            match resp.status {
                ResponseStatus::Processing => Ok(None),
                ResponseStatus::Error => Err(RpcErrorView::ExecutionFailure(resp.message)),
                ResponseStatus::Completed => match report_of(kind) {
                    Some(report) => Ok(Some(report)),
                    None => Err(RpcErrorView::UnsupportedOrder(kind)),
                },
            }
        },
    }
}

/// Resolves one sent request against the answer that came back, if any,
/// exactly as `classify_spec` says.
pub fn classify_response(sent_id: &String, kind: OrderKind, response: Option<&ResponseEnvelope>)
    -> (r: Result<Option<(ItemLabel, ActionLabel)>, RpcError>)
    ensures
        ({
            let expected = classify_spec(
                sent_id@,
                kind,
                match response {
                    Some(resp) => Some(resp@),
                    None => None,
                },
            );
            match (r, expected) {
                (Ok(report), Ok(report_s)) => report == report_s,
                (Err(e), Err(e_s)) => e@ == e_s,
                _ => false,
            }
        }),
{
    let resp = match response {
        Some(resp) => resp,
        None => {
            return Err(RpcError::NoResponse(kind_text(kind)));
        },
    };
    if !resp.id.eq(sent_id) {
        return Err(RpcError::MalformedMessage("Invalid message ID".to_owned()));
    }
    match resp.status {
        ResponseStatus::Processing => Ok(None),
        ResponseStatus::Error => Err(RpcError::ExecutionFailure(resp.message.clone())),
        ResponseStatus::Completed => match kind {
            OrderKind::AddApplication => Ok(Some((ItemLabel::Application, ActionLabel::Added))),
            OrderKind::RemoveApplication => Ok(Some((ItemLabel::Application, ActionLabel::Removed))),
            OrderKind::AddCertificate => Ok(Some((ItemLabel::Certificate, ActionLabel::Added))),
            OrderKind::RemoveCertificate => Ok(Some((ItemLabel::Certificate, ActionLabel::Removed))),
            OrderKind::ReplaceCertificate => Ok(Some((ItemLabel::Certificate, ActionLabel::Replaced))),
            OrderKind::AddHttpFront => Ok(Some((ItemLabel::HttpFront, ActionLabel::Added))),
            OrderKind::RemoveHttpFront => Ok(Some((ItemLabel::HttpFront, ActionLabel::Removed))),
            OrderKind::AddHttpsFront => Ok(Some((ItemLabel::HttpsFront, ActionLabel::Added))),
            OrderKind::RemoveHttpsFront => Ok(Some((ItemLabel::HttpsFront, ActionLabel::Removed))),
            OrderKind::Other => Err(RpcError::UnsupportedOrder(kind)),
        },
    }
}

/// A fresh correlation id: the fixed prefix and six random alphanumeric
/// characters. Uniqueness is only needed across the requests in flight at
/// once, and is not statable of a random draw; the contract pins the
/// shape.
pub fn generate_id() -> (r: String)
    ensures
        r@.len() == 9,
        r@.subrange(0, 3) == "ID-"@,
        forall|i: int|
            3 <= i < 9 ==> crate::authority::alphanumeric_char(#[trigger] r@[i]),
{
    let token = random_token(6);
    let mut id = "ID-".to_owned();
    id.append(token.as_str());
    proof {
        reveal_strlit("ID-");
        assert(id@.subrange(0, 3) =~= "ID-"@);
        assert forall|i: int| 3 <= i < 9 implies crate::authority::alphanumeric_char(
            #[trigger] id@[i],
        ) by {
            assert(id@[i] == token@[i - 3]);
        }
    }
    id
}

/// The text naming a report's item.
pub open spec fn item_text_spec(i: ItemLabel) -> Seq<char> {
    match i {
        ItemLabel::Application => "Application"@,
        ItemLabel::Certificate => "Certificate"@,
        ItemLabel::HttpFront => "HTTP front"@,
        ItemLabel::HttpsFront => "HTTPS front"@,
    }
}

pub fn item_text(i: ItemLabel) -> (r: String)
    ensures
        r@ == item_text_spec(i),
{
    match i {
        ItemLabel::Application => "Application".to_owned(),
        ItemLabel::Certificate => "Certificate".to_owned(),
        ItemLabel::HttpFront => "HTTP front".to_owned(),
        ItemLabel::HttpsFront => "HTTPS front".to_owned(),
    }
}

/// The text naming a report's action.
pub open spec fn action_text_spec(a: ActionLabel) -> Seq<char> {
    match a {
        ActionLabel::Added => "added"@,
        ActionLabel::Removed => "removed"@,
        ActionLabel::Replaced => "replaced"@,
    }
}

pub fn action_text(a: ActionLabel) -> (r: String)
    ensures
        r@ == action_text_spec(a),
{
    match a {
        ActionLabel::Added => "added".to_owned(),
        ActionLabel::Removed => "removed".to_owned(),
        ActionLabel::Replaced => "replaced".to_owned(),
    }
}

/// Resolves a dump-state exchange: the answer must exist, carry the sent
/// id back unchanged, and hold a parsable state in its message text. The
/// returned store holds exactly the content the message carried.
pub fn resolve_state_answer(sent_id: &String, response: Option<&ResponseEnvelope>) -> (r: Result<
    sozu_command_lib::state::ConfigState,
    RpcError,
>)
    ensures
        match response {
            None => r matches Err(e) && e@ == RpcErrorView::NoResponse("DumpState"@),
            Some(resp) => if resp@.id != sent_id@ {
                r matches Err(e) && e@ == RpcErrorView::MalformedMessage("Invalid message ID"@)
            } else {
                match crate::proxy::dump_state_of(resp@.message) {
                    Some(m) => r matches Ok(state) && crate::proxy::state_model(state) == m,
                    None => r matches Err(e) && e@ == RpcErrorView::MalformedMessage(resp@.message),
                }
            },
        },
{
    let resp = match response {
        Some(resp) => resp,
        None => {
            return Err(RpcError::NoResponse("DumpState".to_owned()));
        },
    };
    if !resp.id.eq(sent_id) {
        return Err(RpcError::MalformedMessage("Invalid message ID".to_owned()));
    }
    match crate::proxy::parse_dump_answer(&resp.message) {
        Some(state) => Ok(state),
        None => Err(RpcError::MalformedMessage(resp.message.clone())),
    }
}

/// Whether every outcome in a batch succeeded.
pub open spec fn all_ok_spec(
    outcomes: Seq<Result<Option<(ItemLabel, ActionLabel)>, RpcError>>,
) -> bool {
    forall|i: int| 0 <= i < outcomes.len() ==> outcomes[i] is Ok
}

/// The batch outcome: success only if every order in the batch succeeded.
/// On any failure the caller must not assume the mirror matches the
/// desired state.
pub fn all_succeeded(outcomes: &Vec<Result<Option<(ItemLabel, ActionLabel)>, RpcError>>) -> (b:
    bool)
    ensures
        b == all_ok_spec(outcomes@),
{
    let n = outcomes.len();
    let mut i: usize = 0;
    while i < n
        invariant
            0 <= i <= n,
            n == outcomes.len(),
            forall|j: int| 0 <= j < i ==> outcomes@[j] is Ok,
        decreases n - i,
    {
        if outcomes[i].is_err() {
            return false;
        }
        i = i + 1;
    }
    true
}

} // verus!
