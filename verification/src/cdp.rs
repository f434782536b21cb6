//! The browser debugging protocol as the collector speaks it: the commands
//! it sends, the events it reads, and how a received frame is sorted.  The
//! JSON encoding of these values is done around the library.

use vstd::prelude::*;

use crate::signer::{spec_is_im_fetch_url, spec_is_wss_push_url};

verus! {

#[derive(Debug, Clone, Copy, PartialEq, Eq)]
pub struct SetDiscoverTargetsParams {
    pub discover: bool,
}

#[derive(Debug, Clone, PartialEq, Eq)]
pub struct CreateTargetParams {
    pub url: String,
}

#[derive(Debug, Clone, PartialEq, Eq)]
pub struct CloseTargetParams {
    pub target_id: String,
}

#[derive(Debug, Clone, PartialEq, Eq)]
pub struct PageEnableParams {
    pub session_id: Option<String>,
}

#[derive(Debug, Clone, PartialEq, Eq)]
pub struct NavigateParams {
    pub url: String,
    pub session_id: Option<String>,
    pub referrer: Option<String>,
}

#[derive(Debug, Clone, PartialEq, Eq)]
pub struct NetworkEnableParams {
    pub session_id: Option<String>,
}

#[derive(Debug, Clone, Copy, PartialEq, Eq)]
pub struct NetworkDisableParams {}

#[derive(Debug, Clone, PartialEq, Eq)]
pub struct RuntimeEvaluateParams {
    pub expression: String,
    pub session_id: Option<String>,
    pub return_by_value: Option<bool>,
}

/// A command to the browser, with its request id.
#[derive(Debug, Clone, PartialEq, Eq)]
pub enum CdpCommand {
    SetDiscoverTargets { id: i64, params: SetDiscoverTargetsParams },
    CreateTarget { id: i64, params: CreateTargetParams },
    CloseTarget { id: i64, params: CloseTargetParams },
    PageEnable { id: i64, params: PageEnableParams },
    PageNavigate { id: i64, params: NavigateParams },
    NetworkEnable { id: i64, params: NetworkEnableParams },
    NetworkDisable { id: i64, params: NetworkDisableParams },
    RuntimeEvaluate { id: i64, params: RuntimeEvaluateParams },
    GetVersion { id: i64 },
}

/// The protocol method of each command.
pub open spec fn command_method(c: CdpCommand) -> Seq<char> {
    match c {
        CdpCommand::SetDiscoverTargets { .. } => "Target.setDiscoverTargets"@,
        CdpCommand::CreateTarget { .. } => "Target.createTarget"@,
        CdpCommand::CloseTarget { .. } => "Target.closeTarget"@,
        CdpCommand::PageEnable { .. } => "Page.enable"@,
        CdpCommand::PageNavigate { .. } => "Page.navigate"@,
        CdpCommand::NetworkEnable { .. } => "Network.enable"@,
        CdpCommand::NetworkDisable { .. } => "Network.disable"@,
        CdpCommand::RuntimeEvaluate { .. } => "Runtime.evaluate"@,
        CdpCommand::GetVersion { .. } => "Browser.getVersion"@,
    }
}

/// Each command goes out under the debugging protocol's own name for it:
/// enabling the network domain is `Network.enable`, navigating is
/// `Page.navigate`, and so on for every command; in particular enabling and
/// disabling the network domain are never sent under one name.
pub proof fn lemma_command_methods(c: CdpCommand, d: CdpCommand)
    ensures
        c is SetDiscoverTargets ==> command_method(c) == "Target.setDiscoverTargets"@,
        c is CreateTarget ==> command_method(c) == "Target.createTarget"@,
        c is CloseTarget ==> command_method(c) == "Target.closeTarget"@,
        c is PageEnable ==> command_method(c) == "Page.enable"@,
        c is PageNavigate ==> command_method(c) == "Page.navigate"@,
        c is NetworkEnable ==> command_method(c) == "Network.enable"@,
        c is NetworkDisable ==> command_method(c) == "Network.disable"@,
        c is RuntimeEvaluate ==> command_method(c) == "Runtime.evaluate"@,
        c is GetVersion ==> command_method(c) == "Browser.getVersion"@,
        c is NetworkEnable && d is NetworkDisable ==> command_method(c) != command_method(d),
{
    reveal_strlit("Network.enable");
    reveal_strlit("Network.disable");
    assert("Network.enable"@.len() == 14 && "Network.disable"@.len() == 15);
}

pub open spec fn command_id(c: CdpCommand) -> i64 {
    match c {
        CdpCommand::SetDiscoverTargets { id, .. } => id,
        CdpCommand::CreateTarget { id, .. } => id,
        CdpCommand::CloseTarget { id, .. } => id,
        CdpCommand::PageEnable { id, .. } => id,
        CdpCommand::PageNavigate { id, .. } => id,
        CdpCommand::NetworkEnable { id, .. } => id,
        CdpCommand::NetworkDisable { id, .. } => id,
        CdpCommand::RuntimeEvaluate { id, .. } => id,
        CdpCommand::GetVersion { id } => id,
    }
}

impl CdpCommand {
    /// The protocol method name.
    pub fn method(&self) -> (r: &'static str)
        ensures
            r@ == command_method(*self),
    {
        match self {
            CdpCommand::SetDiscoverTargets { .. } => "Target.setDiscoverTargets",
            CdpCommand::CreateTarget { .. } => "Target.createTarget",
            CdpCommand::CloseTarget { .. } => "Target.closeTarget",
            CdpCommand::PageEnable { .. } => "Page.enable",
            CdpCommand::PageNavigate { .. } => "Page.navigate",
            CdpCommand::NetworkEnable { .. } => "Network.enable",
            CdpCommand::NetworkDisable { .. } => "Network.disable",
            CdpCommand::RuntimeEvaluate { .. } => "Runtime.evaluate",
            CdpCommand::GetVersion { .. } => "Browser.getVersion",
        }
    }

    /// The request id.
    pub fn id(&self) -> (r: i64)
        ensures
            r == command_id(*self),
    {
        match self {
            CdpCommand::SetDiscoverTargets { id, .. } => *id,
            CdpCommand::CreateTarget { id, .. } => *id,
            CdpCommand::CloseTarget { id, .. } => *id,
            CdpCommand::PageEnable { id, .. } => *id,
            CdpCommand::PageNavigate { id, .. } => *id,
            CdpCommand::NetworkEnable { id, .. } => *id,
            CdpCommand::NetworkDisable { id, .. } => *id,
            CdpCommand::RuntimeEvaluate { id, .. } => *id,
            CdpCommand::GetVersion { id } => *id,
        }
    }
}

/// The error a command was answered with.
#[derive(Debug, Clone, PartialEq, Eq)]
pub struct CdpErrorBody {
    pub code: i64,
    pub message: String,
}

#[derive(Debug, Clone, PartialEq, Eq)]
pub struct CreateTargetResult {
    pub target_id: String,
}

/// A request the page is about to send.
#[derive(Debug, Clone, PartialEq, Eq)]
pub struct Request {
    pub url: String,
    pub method: String,
    pub headers: Vec<(String, String)>,
}

#[derive(Debug, Clone, PartialEq, Eq)]
pub struct RequestWillBeSentParams {
    pub request_id: String,
    pub request: Request,
}

#[derive(Debug, Clone, PartialEq, Eq)]
pub struct TargetInfo {
    pub target_id: String,
    pub target_type: String,
    pub url: String,
}

#[derive(Debug, Clone, PartialEq, Eq)]
pub struct AttachedToTargetParams {
    pub session_id: String,
    pub target_info: TargetInfo,
}

#[derive(Debug, Clone, PartialEq, Eq)]
pub struct DetachedFromTargetParams {
    pub session_id: String,
    pub target_id: String,
}

/// An event from the browser; `Unknown` for the ones not followed.
#[derive(Debug, Clone, PartialEq, Eq)]
pub enum CdpEvent {
    RequestWillBeSent { params: RequestWillBeSentParams },
    AttachedToTarget { params: AttachedToTargetParams },
    DetachedFromTarget { params: DetachedFromTargetParams },
    LoadEventFired,
    Unknown,
}

/// A browser tab the collector drives: its target and its session.
#[derive(Debug, Clone, PartialEq, Eq)]
pub struct TabSession {
    pub target_id: String,
    pub session_id: String,
}

/// How a received frame is read: an answer carries an id, an event a
/// method; anything else is ignored.
#[derive(Debug, Clone, Copy, PartialEq, Eq)]
pub enum FrameKind {
    Response,
    Event,
    Ignore,
}

pub fn classify_frame(has_id: bool, has_method: bool) -> (r: FrameKind)
    ensures
        has_id ==> r == FrameKind::Response,
        !has_id && has_method ==> r == FrameKind::Event,
        !has_id && !has_method ==> r == FrameKind::Ignore,
{
    if has_id {
        FrameKind::Response
    } else if has_method {
        FrameKind::Event
    } else {
        FrameKind::Ignore
    }
}

/// Whether an event shows the page sending a signed request: a push or a
/// fetch URL.
pub fn is_signed_request(e: &CdpEvent) -> (r: bool)
    ensures
        r == (*e matches CdpEvent::RequestWillBeSent { params } && (spec_is_wss_push_url(
            params.request.url@,
        ) || spec_is_im_fetch_url(params.request.url@))),
{
    match e {
        CdpEvent::RequestWillBeSent { params } => crate::signer::is_wss_push_url(
            params.request.url.as_str(),
        ) || crate::signer::is_im_fetch_url(params.request.url.as_str()),
        _ => false,
    }
}

} // verus!
