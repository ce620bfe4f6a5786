//! The webview plugin's wire types, its main-thread events, and the checks
//! made on engine-lifecycle and controller events.

use vstd::prelude::*;

use crate::bridge::{
    accepted_or, ensure_accepted, outcome, unsupported_event, unsupported_event_reason,
    BridgeContextRequirement, BridgeError, BridgeNapiType, BridgePlugin,
};
use crate::keyed::text_eq;
use crate::text::{blank, is_blank};

verus! {

/// The webview bridge plugin; its controller events need a UI context.
pub struct WebviewBridgePlugin;

impl BridgePlugin for WebviewBridgePlugin {
    const ID: &'static str = "ohos.webview";

    open spec fn spec_required_contexts() -> Seq<BridgeContextRequirement> {
        seq![BridgeContextRequirement::UiContext]
    }

    fn required_contexts() -> (r: &'static [BridgeContextRequirement]) {
        let r: &'static [BridgeContextRequirement] = &[BridgeContextRequirement::UiContext];
        r
    }
}

/// Engine event: the native module's schemes are sealed.
pub const SEAL_ENGINE_SCHEMES_EVENT: &'static str = "seal-engine-schemes";

/// Engine event: the process-global Web engine is about to initialize.
pub const BEFORE_ENGINE_INIT_EVENT: &'static str = "before-engine-init";

/// Engine event: the Web engine initialized.
pub const ENGINE_INITIALIZED_EVENT: &'static str = "engine-initialized";

/// Controller event: an ArkWeb controller attached to a webview.
pub const CONTROLLER_ATTACHED_EVENT: &'static str = "controller-attached";

/// Whether a main-thread event is one of the engine-lifecycle events.
pub open spec fn is_engine_event(name: Seq<char>) -> bool {
    name == SEAL_ENGINE_SCHEMES_EVENT@ || name == BEFORE_ENGINE_INIT_EVENT@ || name
        == ENGINE_INITIALIZED_EVENT@
}

impl WebviewBridgePlugin {
    /// The contexts a main-thread event needs: engine-lifecycle events only
    /// need the ability; every other event needs the UI context.
    pub fn required_contexts_for_main_thread_event(&self, event_name: &str) -> (r: &'static [BridgeContextRequirement])
        ensures
            is_engine_event(event_name@) ==> r@ == seq![BridgeContextRequirement::Ability],
            !is_engine_event(event_name@) ==> r@ == seq![BridgeContextRequirement::UiContext],
    {
        if text_eq(event_name, SEAL_ENGINE_SCHEMES_EVENT) || text_eq(event_name, BEFORE_ENGINE_INIT_EVENT)
            || text_eq(event_name, ENGINE_INITIALIZED_EVENT) {
            let r: &'static [BridgeContextRequirement] = &[BridgeContextRequirement::Ability];
            r
        } else {
            Self::required_contexts()
        }
    }
}

#[derive(Clone, Debug)]
pub struct WebviewSchemeDeclaration {
    pub scheme: String,
    pub options: u32,
}

impl BridgeNapiType for WebviewSchemeDeclaration {
    const TYPE_NAME: &'static str = "ohos.webview.SchemeDeclaration";
}

#[derive(Clone, Debug)]
pub struct WebviewEngineLifecycleEvent {
    pub phase: String,
    pub schemes: Vec<WebviewSchemeDeclaration>,
}

impl BridgeNapiType for WebviewEngineLifecycleEvent {
    const TYPE_NAME: &'static str = "ohos.webview.EngineLifecycleEvent";
}

#[derive(Clone, Debug)]
pub struct WebviewEngineLifecycleResponse {
    pub accepted: bool,
    pub schemes: Vec<WebviewSchemeDeclaration>,
}

impl BridgeNapiType for WebviewEngineLifecycleResponse {
    const TYPE_NAME: &'static str = "ohos.webview.EngineLifecycleResponse";
}

#[derive(Clone, Debug)]
pub struct WebviewControllerEvent {
    pub id: String,
    pub native_tag: String,
}

impl BridgeNapiType for WebviewControllerEvent {
    const TYPE_NAME: &'static str = "ohos.webview.ControllerEvent";
}

/// Which webview callbacks ArkTS should forward.
#[derive(Clone, Copy, Debug)]
pub struct WebviewCallbackOptions {
    pub navigation_intercept: bool,
    pub download_start: bool,
    pub download_end: bool,
    pub title_change: bool,
    pub drag_drop: bool,
    pub new_window: bool,
    pub page_begin: bool,
    pub page_end: bool,
}

/// A script run on matching pages before they load.
#[derive(Clone, Debug)]
pub struct WebviewInitializationScript {
    pub script: String,
    pub script_rules: Vec<String>,
}

#[derive(Clone, Debug)]
pub struct WebviewNavigationRequest {
    pub id: String,
    pub native_tag: String,
    pub url: String,
}

impl BridgeNapiType for WebviewNavigationRequest {
    const TYPE_NAME: &'static str = "ohos.webview.NavigationRequest";
}

#[derive(Clone, Copy, Debug)]
pub struct WebviewNavigationResponse {
    pub intercept: bool,
}

impl BridgeNapiType for WebviewNavigationResponse {
    const TYPE_NAME: &'static str = "ohos.webview.NavigationResponse";
}

#[derive(Clone, Debug)]
pub struct WebviewDownloadStartRequest {
    pub id: String,
    pub native_tag: String,
    pub url: String,
    pub temp_path: Option<String>,
}

impl BridgeNapiType for WebviewDownloadStartRequest {
    const TYPE_NAME: &'static str = "ohos.webview.DownloadStartRequest";
}

#[derive(Clone, Debug)]
pub struct WebviewDownloadStartResponse {
    pub allow: bool,
    pub temp_path: Option<String>,
}

impl BridgeNapiType for WebviewDownloadStartResponse {
    const TYPE_NAME: &'static str = "ohos.webview.DownloadStartResponse";
}

impl WebviewDownloadStartResponse {
    /// Lets the download proceed, optionally into `temp_path`.
    pub fn allow(temp_path: Option<String>) -> (r: Self)
        ensures
            r.allow && r.temp_path == temp_path,
    {
        WebviewDownloadStartResponse { allow: true, temp_path }
    }

    /// Cancels the download.
    pub fn cancel() -> (r: Self)
        ensures
            !r.allow && r.temp_path is None,
    {
        WebviewDownloadStartResponse { allow: false, temp_path: None }
    }
}

#[derive(Clone, Debug)]
pub struct WebviewHttpsInterceptRequest {
    pub id: String,
    pub native_tag: String,
    pub url: String,
}

impl BridgeNapiType for WebviewHttpsInterceptRequest {
    const TYPE_NAME: &'static str = "ohos.webview.HttpsInterceptRequest";
}

#[derive(Clone, Debug)]
pub struct WebviewHttpsInterceptResponse {
    pub handled: bool,
    pub status: u16,
    pub mime_type: String,
    pub body: Vec<u8>,
}

impl BridgeNapiType for WebviewHttpsInterceptResponse {
    const TYPE_NAME: &'static str = "ohos.webview.HttpsInterceptResponse";
}

impl WebviewHttpsInterceptResponse {
    /// Leaves the request to the network: nothing handled, no status, no body.
    pub fn passthrough() -> (r: Self)
        ensures
            !r.handled && r.status == 0 && r.mime_type@.len() == 0 && r.body@.len() == 0,
    {
        WebviewHttpsInterceptResponse { handled: false, status: 0, mime_type: String::new(), body: Vec::new() }
    }
}

#[derive(Clone, Debug)]
pub struct WebviewRegisterHttpsInterceptRequest {
    pub id: String,
    pub protocols: Vec<String>,
}

impl BridgeNapiType for WebviewRegisterHttpsInterceptRequest {
    const TYPE_NAME: &'static str = "ohos.webview.RegisterHttpsInterceptRequest";
}

#[derive(Clone, Debug)]
pub struct WebviewDownloadEndEvent {
    pub id: String,
    pub native_tag: String,
    pub url: String,
    pub temp_path: Option<String>,
    pub success: bool,
}

impl BridgeNapiType for WebviewDownloadEndEvent {
    const TYPE_NAME: &'static str = "ohos.webview.DownloadEndEvent";
}

#[derive(Clone, Debug)]
pub struct WebviewTitleChangeEvent {
    pub id: String,
    pub native_tag: String,
    pub title: String,
}

impl BridgeNapiType for WebviewTitleChangeEvent {
    const TYPE_NAME: &'static str = "ohos.webview.TitleChangeEvent";
}

#[derive(Clone, Copy, Debug)]
pub struct WebviewEventAcknowledgement {
    pub accepted: bool,
}

impl BridgeNapiType for WebviewEventAcknowledgement {
    const TYPE_NAME: &'static str = "ohos.webview.EventAcknowledgement";
}

#[derive(Clone, Copy, Debug)]
pub struct WebviewPrintResponse {
    pub success: bool,
}

impl BridgeNapiType for WebviewPrintResponse {
    const TYPE_NAME: &'static str = "ohos.webview.PrintResponse";
}

#[derive(Clone, Debug)]
pub struct WebviewPrintStateEvent {
    pub id: String,
    pub state: String,
    pub error: Option<String>,
}

impl BridgeNapiType for WebviewPrintStateEvent {
    const TYPE_NAME: &'static str = "ohos.webview.PrintStateEvent";
}

#[derive(Clone, Debug)]
pub struct WebviewSnapshotRequest {
    pub id: String,
}

impl BridgeNapiType for WebviewSnapshotRequest {
    const TYPE_NAME: &'static str = "ohos.webview.SnapshotRequest";
}

#[derive(Clone, Copy, Debug)]
pub struct WebviewSnapshotResponse {
    pub success: bool,
    pub width: u32,
    pub height: u32,
    pub rgba_len: u32,
}

impl BridgeNapiType for WebviewSnapshotResponse {
    const TYPE_NAME: &'static str = "ohos.webview.SnapshotResponse";
}

#[derive(Clone, Debug)]
pub struct WebviewCaptureResponse {
    pub png_base64: String,
    pub width: u32,
    pub height: u32,
}

impl BridgeNapiType for WebviewCaptureResponse {
    const TYPE_NAME: &'static str = "ohos.webview.CaptureResponse";
}

#[derive(Clone, Copy, Debug)]
pub struct WebviewPickColorResponse {
    pub r: u32,
    pub g: u32,
    pub b: u32,
    pub a: u32,
}

impl BridgeNapiType for WebviewPickColorResponse {
    const TYPE_NAME: &'static str = "ohos.webview.PickColorResponse";
}

#[derive(Clone, Debug)]
pub struct WebviewSetCookieRequest {
    pub id: String,
    pub url: String,
    pub value: String,
}

impl BridgeNapiType for WebviewSetCookieRequest {
    const TYPE_NAME: &'static str = "ohos.webview.SetCookieRequest";
}

#[derive(Clone, Debug)]
pub struct WebviewUserAgentRequest {
    pub id: String,
    pub user_agent: String,
}

impl BridgeNapiType for WebviewUserAgentRequest {
    const TYPE_NAME: &'static str = "ohos.webview.UserAgentRequest";
}

#[derive(Clone, Debug)]
pub struct WebviewNewWindowRequest {
    pub id: String,
    pub native_tag: String,
    pub target_url: String,
    pub is_alert: bool,
    pub is_user_trigger: bool,
}

impl BridgeNapiType for WebviewNewWindowRequest {
    const TYPE_NAME: &'static str = "ohos.webview.NewWindowRequest";
}

#[derive(Clone, Copy, Debug)]
pub struct WebviewNewWindowResponse {
    pub allow: bool,
}

impl BridgeNapiType for WebviewNewWindowResponse {
    const TYPE_NAME: &'static str = "ohos.webview.NewWindowResponse";
}

#[derive(Clone, Debug)]
pub struct WebviewPageEvent {
    pub id: String,
    pub native_tag: String,
    pub url: String,
}

impl BridgeNapiType for WebviewPageEvent {
    const TYPE_NAME: &'static str = "ohos.webview.PageEvent";
}

#[derive(Clone, Debug)]
pub struct WebviewCreateResponse {
    pub id: String,
}

impl BridgeNapiType for WebviewCreateResponse {
    const TYPE_NAME: &'static str = "ohos.webview.CreateResponse";
}

#[derive(Clone, Debug)]
pub struct WebviewScriptRequest {
    pub id: String,
    pub script: String,
}

impl BridgeNapiType for WebviewScriptRequest {
    const TYPE_NAME: &'static str = "ohos.webview.ScriptRequest";
}

#[derive(Clone, Debug)]
pub struct WebviewScriptResponse {
    pub result: Option<String>,
}

impl BridgeNapiType for WebviewScriptResponse {
    const TYPE_NAME: &'static str = "ohos.webview.ScriptResponse";
}

#[derive(Clone, Debug)]
pub struct WebviewStringResponse {
    pub value: Option<String>,
}

impl BridgeNapiType for WebviewStringResponse {
    const TYPE_NAME: &'static str = "ohos.webview.StringResponse";
}

#[derive(Clone, Copy, Debug)]
pub struct WebviewAcknowledgement {
    pub accepted: bool,
}

impl BridgeNapiType for WebviewAcknowledgement {
    const TYPE_NAME: &'static str = "ohos.webview.Acknowledgement";
}

impl WebviewAcknowledgement {
    /// `Ok` when the plugin accepted the operation.
    pub fn ensure(self) -> (r: Result<(), BridgeError>)
        ensures
            outcome(r) == accepted_or(self.accepted, "WebView plugin rejected the requested operation"@),
    {
        ensure_accepted(self.accepted, "WebView plugin rejected the requested operation")
    }
}

/// The reason an engine-lifecycle event arrives in the wrong phase.
pub open spec fn phase_mismatch_reason(phase: Seq<char>, expected: Seq<char>) -> Seq<char> {
    "Invalid WebView engine lifecycle phase '"@ + phase + "', expected '"@ + expected + "'"@
}

/// Checks that an engine-lifecycle event reports the expected phase.
pub fn expect_engine_phase(event: &WebviewEngineLifecycleEvent, expected: &str) -> (r: Result<(), BridgeError>)
    ensures
        r is Ok <==> event.phase@ == expected@,
        r matches Err(e) ==> e.reason@ == phase_mismatch_reason(event.phase@, expected@),
{
    if text_eq(event.phase.as_str(), expected) {
        Ok(())
    } else {
        let mut reason = String::from_str("Invalid WebView engine lifecycle phase '");
        reason.append(event.phase.as_str());
        reason.append("', expected '");
        reason.append(expected);
        reason.append("'");
        Err(BridgeError { reason })
    }
}

/// The (scheme, options) pairs of a scheme list.
pub open spec fn scheme_pairs(schemes: Seq<WebviewSchemeDeclaration>) -> Seq<(Seq<char>, u32)> {
    schemes.map_values(|d: WebviewSchemeDeclaration| (d.scheme@, d.options))
}

/// The (text, options) view of a list of scheme pairs.
pub open spec fn pair_views(pairs: Seq<(String, u32)>) -> Seq<(Seq<char>, u32)> {
    pairs.map_values(|p: (String, u32)| (p.0@, p.1))
}

/// The schemes an engine-lifecycle event reports, as (scheme, options) pairs.
pub fn engine_scheme_pairs(event: &WebviewEngineLifecycleEvent) -> (r: Vec<(String, u32)>)
    ensures
        pair_views(r@) == scheme_pairs(event.schemes@),
{
    let mut pairs: Vec<(String, u32)> = Vec::new();
    let mut i: usize = 0;
    while i < event.schemes.len()
        invariant
            i <= event.schemes@.len(),
            pairs@.len() == i,
            forall|k: int| 0 <= k < i ==> #[trigger] pairs@[k].0@ == event.schemes@[k].scheme@
                && pairs@[k].1 == event.schemes@[k].options,
        decreases event.schemes.len() - i,
    {
        let d = &event.schemes[i];
        let scheme = d.scheme.clone();
        pairs.push((scheme, d.options));
        i += 1;
    }
    assert(pair_views(pairs@) =~= scheme_pairs(event.schemes@));
    pairs
}

/// The answer to an engine-lifecycle event: accepted, with the schemes this
/// native module declared.
pub fn engine_lifecycle_response(declared: Vec<(String, u32)>) -> (r: WebviewEngineLifecycleResponse)
    ensures
        r.accepted,
        scheme_pairs(r.schemes@) == pair_views(declared@),
{
    let mut schemes: Vec<WebviewSchemeDeclaration> = Vec::new();
    let mut rest = declared;
    let ghost all = rest@;
    let total = rest.len();
    let mut i: usize = 0;
    while rest.len() > 0
        invariant
            i <= all.len(),
            total == all.len(),
            rest@ == all.skip(i as int),
            schemes@.len() == i,
            forall|k: int| 0 <= k < i ==> #[trigger] schemes@[k].scheme@ == all[k].0@
                && schemes@[k].options == all[k].1,
        decreases rest.len(),
    {
        assert(all.skip(i as int).len() > 0);
        let (scheme, options) = rest.remove(0);
        assert(rest@ =~= all.skip(i + 1));
        schemes.push(WebviewSchemeDeclaration { scheme, options });
        i += 1;
    }
    assert(all.skip(i as int).len() == 0);
    assert(scheme_pairs(schemes@) =~= pair_views(all));
    WebviewEngineLifecycleResponse { accepted: true, schemes }
}

/// The webview id and the process-native ArkWeb tag of a controller event;
/// both must be nonblank.
pub fn controller_identity(event: WebviewControllerEvent) -> (r: Result<(String, String), BridgeError>)
    ensures
        is_blank(event.id@) ==> (r matches Err(e) && e.reason@ == "WebView controller event id must not be empty"@),
        !is_blank(event.id@) && is_blank(event.native_tag@) ==> (r matches Err(e) && e.reason@
            == "WebView controller event nativeTag must not be empty"@),
        !is_blank(event.id@) && !is_blank(event.native_tag@) ==> r == Ok::<(String, String), BridgeError>(
            (event.id, event.native_tag),
        ),
{
    if blank(event.id.as_str()) {
        return Err(BridgeError::from_reason("WebView controller event id must not be empty"));
    }
    if blank(event.native_tag.as_str()) {
        return Err(BridgeError::from_reason("WebView controller event nativeTag must not be empty"));
    }
    Ok((event.id, event.native_tag))
}

/// Checks a create request: a nonblank id and exactly one source (a URL or
/// HTML). The id is otherwise opaque.
pub fn validate_create_request(id: &str, has_url: bool, has_html: bool) -> (r: Result<(), BridgeError>)
    ensures
        is_blank(id@) ==> (r matches Err(e) && e.reason@ == "WebView id must not be empty"@),
        !is_blank(id@) && has_url == has_html ==> (r matches Err(e) && e.reason@
            == "WebView requires exactly one source: url or html"@),
        !is_blank(id@) && has_url != has_html ==> r is Ok,
{
    if blank(id) {
        return Err(BridgeError::from_reason("WebView id must not be empty"));
    }
    if has_url == has_html {
        return Err(BridgeError::from_reason("WebView requires exactly one source: url or html"));
    }
    Ok(())
}

/// The main-thread events of the webview plugin.
#[derive(Debug, Clone, Copy, PartialEq, Eq, Structural)]
pub enum WebviewEventKind {
    SealEngineSchemes,
    BeforeEngineInit,
    EngineInitialized,
    ControllerAttached,
    ControllerRemoved,
    NavigationRequest,
    DragEnter,
    DragOver,
    DragDrop,
    DragLeave,
    NewWindowRequest,
    PageBegin,
    PageEnd,
    DownloadStart,
    HttpsIntercept,
    DownloadEnd,
    TitleChange,
    PrintState,
}

/// The name of each webview main-thread event.
pub open spec fn webview_event_name(k: WebviewEventKind) -> Seq<char> {
    match k {
        WebviewEventKind::SealEngineSchemes => "seal-engine-schemes"@,
        WebviewEventKind::BeforeEngineInit => "before-engine-init"@,
        WebviewEventKind::EngineInitialized => "engine-initialized"@,
        WebviewEventKind::ControllerAttached => "controller-attached"@,
        WebviewEventKind::ControllerRemoved => "controller-removed"@,
        WebviewEventKind::NavigationRequest => "navigation-request"@,
        WebviewEventKind::DragEnter => "drag-enter"@,
        WebviewEventKind::DragOver => "drag-over"@,
        WebviewEventKind::DragDrop => "drag-drop"@,
        WebviewEventKind::DragLeave => "drag-leave"@,
        WebviewEventKind::NewWindowRequest => "new-window-request"@,
        WebviewEventKind::PageBegin => "page-begin"@,
        WebviewEventKind::PageEnd => "page-end"@,
        WebviewEventKind::DownloadStart => "download-start"@,
        WebviewEventKind::HttpsIntercept => "https-intercept"@,
        WebviewEventKind::DownloadEnd => "download-end"@,
        WebviewEventKind::TitleChange => "title-change"@,
        WebviewEventKind::PrintState => "print-state"@,
    }
}

/// Which webview main-thread event a name denotes; an unknown name is
/// refused.
pub fn webview_event_kind(name: &str) -> (r: Result<WebviewEventKind, BridgeError>)
    ensures
        r matches Ok(k) ==> webview_event_name(k) == name@,
        r is Err ==> (forall|k: WebviewEventKind| webview_event_name(k) != name@) && (r matches Err(e)
            && e.reason@ == unsupported_event_reason("ohos.webview"@, name@)),
{
    if text_eq(name, "seal-engine-schemes") {
        Ok(WebviewEventKind::SealEngineSchemes)
    } else if text_eq(name, "before-engine-init") {
        Ok(WebviewEventKind::BeforeEngineInit)
    } else if text_eq(name, "engine-initialized") {
        Ok(WebviewEventKind::EngineInitialized)
    } else if text_eq(name, "controller-attached") {
        Ok(WebviewEventKind::ControllerAttached)
    } else if text_eq(name, "controller-removed") {
        Ok(WebviewEventKind::ControllerRemoved)
    } else if text_eq(name, "navigation-request") {
        Ok(WebviewEventKind::NavigationRequest)
    } else if text_eq(name, "drag-enter") {
        Ok(WebviewEventKind::DragEnter)
    } else if text_eq(name, "drag-over") {
        Ok(WebviewEventKind::DragOver)
    } else if text_eq(name, "drag-drop") {
        Ok(WebviewEventKind::DragDrop)
    } else if text_eq(name, "drag-leave") {
        Ok(WebviewEventKind::DragLeave)
    } else if text_eq(name, "new-window-request") {
        Ok(WebviewEventKind::NewWindowRequest)
    } else if text_eq(name, "page-begin") {
        Ok(WebviewEventKind::PageBegin)
    } else if text_eq(name, "page-end") {
        Ok(WebviewEventKind::PageEnd)
    } else if text_eq(name, "download-start") {
        Ok(WebviewEventKind::DownloadStart)
    } else if text_eq(name, "https-intercept") {
        Ok(WebviewEventKind::HttpsIntercept)
    } else if text_eq(name, "download-end") {
        Ok(WebviewEventKind::DownloadEnd)
    } else if text_eq(name, "title-change") {
        Ok(WebviewEventKind::TitleChange)
    } else if text_eq(name, "print-state") {
        Ok(WebviewEventKind::PrintState)
    } else {
        Err(unsupported_event(WebviewBridgePlugin::ID, name))
    }
}

/// Whether an app lifecycle event drops every attached-controller record: the
/// UI context or the ability went away.
pub fn clears_attached_state(event: &crate::lifecycle::PluginLifecycleEvent) -> (r: bool)
    ensures
        r == (event is AbilityDestroyed || event is UiContextDestroyed),
{
    match event {
        crate::lifecycle::PluginLifecycleEvent::AbilityDestroyed { .. } => true,
        crate::lifecycle::PluginLifecycleEvent::UiContextDestroyed => true,
        _ => false,
    }
}

/// The id of a created webview: the plugin must answer with the id asked for.
pub fn created_webview_id(request_id: &str, response: WebviewCreateResponse) -> (r: Result<String, BridgeError>)
    ensures
        response.id@ == request_id@ ==> r == Ok::<String, BridgeError>(response.id),
        response.id@ != request_id@ ==> (r matches Err(e) && e.reason@
            == "WebView plugin returned a mismatched controller ID"@),
{
    if text_eq(response.id.as_str(), request_id) {
        Ok(response.id)
    } else {
        Err(BridgeError::from_reason("WebView plugin returned a mismatched controller ID"))
    }
}

/// The current URL a `get-url` answer carries.
pub fn current_url(response: WebviewStringResponse) -> (r: Result<String, BridgeError>)
    ensures
        response.value matches Some(v) ==> r == Ok::<String, BridgeError>(v),
        response.value is None ==> (r matches Err(e) && e.reason@
            == "WebView controller returned no current URL"@),
{
    match response.value {
        Some(v) => Ok(v),
        None => Err(BridgeError::from_reason("WebView controller returned no current URL")),
    }
}

/// The cookie string a `cookies-with-url` answer carries.
pub fn cookie_string(response: WebviewStringResponse) -> (r: Result<String, BridgeError>)
    ensures
        response.value matches Some(v) ==> r == Ok::<String, BridgeError>(v),
        response.value is None ==> (r matches Err(e) && e.reason@
            == "WebView cookie manager returned no cookie string"@),
{
    match response.value {
        Some(v) => Ok(v),
        None => Err(BridgeError::from_reason("WebView cookie manager returned no cookie string")),
    }
}

/// The result of a `create-pdf` request.
pub fn pdf_result(response: WebviewPrintResponse) -> (r: Result<(), BridgeError>)
    ensures
        outcome(r) == accepted_or(
            response.success,
            "WebView create-pdf failed (API 14+ required or page not loaded)"@,
        ),
{
    ensure_accepted(response.success, "WebView create-pdf failed (API 14+ required or page not loaded)")
}

/// The result of a `web-page-snapshot` request: the snapshot when it succeeded.
pub fn snapshot_result(response: WebviewSnapshotResponse) -> (r: Result<WebviewSnapshotResponse, BridgeError>)
    ensures
        response.success ==> r == Ok::<WebviewSnapshotResponse, BridgeError>(response),
        !response.success ==> (r matches Err(e) && e.reason@
            == "WebView web-page-snapshot failed (page not loaded or snapshot error)"@),
{
    if response.success {
        Ok(response)
    } else {
        Err(BridgeError::from_reason("WebView web-page-snapshot failed (page not loaded or snapshot error)"))
    }
}

/// The webview a builder creates: its tag must be given, and it mounts on
/// the primary window unless another window is named.
pub fn webview_build_target(id: Option<String>, window_id: Option<i64>) -> (r: Result<(String, i64), BridgeError>)
    ensures
        id is None ==> (r matches Err(e) && e.reason@ == "WebTag should be provided"@),
        id matches Some(i) ==> r == Ok::<(String, i64), BridgeError>((i, match window_id {
            Some(w) => w,
            None => 0,
        })),
{
    match id {
        None => Err(BridgeError::from_reason("WebTag should be provided")),
        Some(i) => {
            let w = match window_id {
                Some(w) => w,
                None => 0,
            };
            Ok((i, w))
        },
    }
}

/// A raw webview snapshot: RGBA bytes and the image size.
#[derive(Clone, Debug)]
pub struct SnapshotData {
    pub rgba: Vec<u8>,
    pub width: u32,
    pub height: u32,
}

/// The app's answer to a download start.
#[derive(Clone, Debug)]
pub struct DownloadStartResult {
    pub allow: bool,
    pub temp_path: Option<String>,
}

/// The app's answer to a page opening a new window.
#[derive(Clone, Copy, Debug)]
pub struct OnWindowNewResult {
    pub allow: bool,
    pub is_create: bool,
}

/// Each main-thread event is named by its own wire name, and no two events
/// share a name, so a name decodes to the one event it spells.
pub proof fn law_webview_events_have_their_wire_names(k: WebviewEventKind, j: WebviewEventKind)
    ensures
        webview_event_name(WebviewEventKind::SealEngineSchemes) == "seal-engine-schemes"@,
        webview_event_name(WebviewEventKind::BeforeEngineInit) == "before-engine-init"@,
        webview_event_name(WebviewEventKind::EngineInitialized) == "engine-initialized"@,
        webview_event_name(WebviewEventKind::ControllerAttached) == "controller-attached"@,
        webview_event_name(WebviewEventKind::ControllerRemoved) == "controller-removed"@,
        webview_event_name(WebviewEventKind::NavigationRequest) == "navigation-request"@,
        webview_event_name(WebviewEventKind::DragEnter) == "drag-enter"@,
        webview_event_name(WebviewEventKind::DragOver) == "drag-over"@,
        webview_event_name(WebviewEventKind::DragDrop) == "drag-drop"@,
        webview_event_name(WebviewEventKind::DragLeave) == "drag-leave"@,
        webview_event_name(WebviewEventKind::NewWindowRequest) == "new-window-request"@,
        webview_event_name(WebviewEventKind::PageBegin) == "page-begin"@,
        webview_event_name(WebviewEventKind::PageEnd) == "page-end"@,
        webview_event_name(WebviewEventKind::DownloadStart) == "download-start"@,
        webview_event_name(WebviewEventKind::HttpsIntercept) == "https-intercept"@,
        webview_event_name(WebviewEventKind::DownloadEnd) == "download-end"@,
        webview_event_name(WebviewEventKind::TitleChange) == "title-change"@,
        webview_event_name(WebviewEventKind::PrintState) == "print-state"@,
        webview_event_name(k) == webview_event_name(j) ==> k == j,
{
    reveal_strlit("seal-engine-schemes");
    reveal_strlit("before-engine-init");
    reveal_strlit("engine-initialized");
    reveal_strlit("controller-attached");
    reveal_strlit("controller-removed");
    reveal_strlit("navigation-request");
    reveal_strlit("drag-enter");
    reveal_strlit("drag-over");
    reveal_strlit("drag-drop");
    reveal_strlit("drag-leave");
    reveal_strlit("new-window-request");
    reveal_strlit("page-begin");
    reveal_strlit("page-end");
    reveal_strlit("download-start");
    reveal_strlit("https-intercept");
    reveal_strlit("download-end");
    reveal_strlit("title-change");
    reveal_strlit("print-state");
    match k {
        WebviewEventKind::SealEngineSchemes => {
            match j {
                WebviewEventKind::SealEngineSchemes => {},
                WebviewEventKind::BeforeEngineInit => { assert(webview_event_name(j).len() != webview_event_name(k).len()); },
                WebviewEventKind::EngineInitialized => { assert(webview_event_name(j).len() != webview_event_name(k).len()); },
                WebviewEventKind::ControllerAttached => { assert(webview_event_name(j)[0] != webview_event_name(k)[0]); },
                WebviewEventKind::ControllerRemoved => { assert(webview_event_name(j).len() != webview_event_name(k).len()); },
                WebviewEventKind::NavigationRequest => { assert(webview_event_name(j).len() != webview_event_name(k).len()); },
                WebviewEventKind::DragEnter => { assert(webview_event_name(j).len() != webview_event_name(k).len()); },
                WebviewEventKind::DragOver => { assert(webview_event_name(j).len() != webview_event_name(k).len()); },
                WebviewEventKind::DragDrop => { assert(webview_event_name(j).len() != webview_event_name(k).len()); },
                WebviewEventKind::DragLeave => { assert(webview_event_name(j).len() != webview_event_name(k).len()); },
                WebviewEventKind::NewWindowRequest => { assert(webview_event_name(j).len() != webview_event_name(k).len()); },
                WebviewEventKind::PageBegin => { assert(webview_event_name(j).len() != webview_event_name(k).len()); },
                WebviewEventKind::PageEnd => { assert(webview_event_name(j).len() != webview_event_name(k).len()); },
                WebviewEventKind::DownloadStart => { assert(webview_event_name(j).len() != webview_event_name(k).len()); },
                WebviewEventKind::HttpsIntercept => { assert(webview_event_name(j).len() != webview_event_name(k).len()); },
                WebviewEventKind::DownloadEnd => { assert(webview_event_name(j).len() != webview_event_name(k).len()); },
                WebviewEventKind::TitleChange => { assert(webview_event_name(j).len() != webview_event_name(k).len()); },
                WebviewEventKind::PrintState => { assert(webview_event_name(j).len() != webview_event_name(k).len()); },
            }
        },
        WebviewEventKind::BeforeEngineInit => {
            match j {
                WebviewEventKind::SealEngineSchemes => { assert(webview_event_name(j).len() != webview_event_name(k).len()); },
                WebviewEventKind::BeforeEngineInit => {},
                WebviewEventKind::EngineInitialized => { assert(webview_event_name(j)[0] != webview_event_name(k)[0]); },
                WebviewEventKind::ControllerAttached => { assert(webview_event_name(j).len() != webview_event_name(k).len()); },
                WebviewEventKind::ControllerRemoved => { assert(webview_event_name(j)[0] != webview_event_name(k)[0]); },
                WebviewEventKind::NavigationRequest => { assert(webview_event_name(j)[0] != webview_event_name(k)[0]); },
                WebviewEventKind::DragEnter => { assert(webview_event_name(j).len() != webview_event_name(k).len()); },
                WebviewEventKind::DragOver => { assert(webview_event_name(j).len() != webview_event_name(k).len()); },
                WebviewEventKind::DragDrop => { assert(webview_event_name(j).len() != webview_event_name(k).len()); },
                WebviewEventKind::DragLeave => { assert(webview_event_name(j).len() != webview_event_name(k).len()); },
                WebviewEventKind::NewWindowRequest => { assert(webview_event_name(j)[0] != webview_event_name(k)[0]); },
                WebviewEventKind::PageBegin => { assert(webview_event_name(j).len() != webview_event_name(k).len()); },
                WebviewEventKind::PageEnd => { assert(webview_event_name(j).len() != webview_event_name(k).len()); },
                WebviewEventKind::DownloadStart => { assert(webview_event_name(j).len() != webview_event_name(k).len()); },
                WebviewEventKind::HttpsIntercept => { assert(webview_event_name(j).len() != webview_event_name(k).len()); },
                WebviewEventKind::DownloadEnd => { assert(webview_event_name(j).len() != webview_event_name(k).len()); },
                WebviewEventKind::TitleChange => { assert(webview_event_name(j).len() != webview_event_name(k).len()); },
                WebviewEventKind::PrintState => { assert(webview_event_name(j).len() != webview_event_name(k).len()); },
            }
        },
        WebviewEventKind::EngineInitialized => {
            match j {
                WebviewEventKind::SealEngineSchemes => { assert(webview_event_name(j).len() != webview_event_name(k).len()); },
                WebviewEventKind::BeforeEngineInit => { assert(webview_event_name(j)[0] != webview_event_name(k)[0]); },
                WebviewEventKind::EngineInitialized => {},
                WebviewEventKind::ControllerAttached => { assert(webview_event_name(j).len() != webview_event_name(k).len()); },
                WebviewEventKind::ControllerRemoved => { assert(webview_event_name(j)[0] != webview_event_name(k)[0]); },
                WebviewEventKind::NavigationRequest => { assert(webview_event_name(j)[0] != webview_event_name(k)[0]); },
                WebviewEventKind::DragEnter => { assert(webview_event_name(j).len() != webview_event_name(k).len()); },
                WebviewEventKind::DragOver => { assert(webview_event_name(j).len() != webview_event_name(k).len()); },
                WebviewEventKind::DragDrop => { assert(webview_event_name(j).len() != webview_event_name(k).len()); },
                WebviewEventKind::DragLeave => { assert(webview_event_name(j).len() != webview_event_name(k).len()); },
                WebviewEventKind::NewWindowRequest => { assert(webview_event_name(j)[0] != webview_event_name(k)[0]); },
                WebviewEventKind::PageBegin => { assert(webview_event_name(j).len() != webview_event_name(k).len()); },
                WebviewEventKind::PageEnd => { assert(webview_event_name(j).len() != webview_event_name(k).len()); },
                WebviewEventKind::DownloadStart => { assert(webview_event_name(j).len() != webview_event_name(k).len()); },
                WebviewEventKind::HttpsIntercept => { assert(webview_event_name(j).len() != webview_event_name(k).len()); },
                WebviewEventKind::DownloadEnd => { assert(webview_event_name(j).len() != webview_event_name(k).len()); },
                WebviewEventKind::TitleChange => { assert(webview_event_name(j).len() != webview_event_name(k).len()); },
                WebviewEventKind::PrintState => { assert(webview_event_name(j).len() != webview_event_name(k).len()); },
            }
        },
        WebviewEventKind::ControllerAttached => {
            match j {
                WebviewEventKind::SealEngineSchemes => { assert(webview_event_name(j)[0] != webview_event_name(k)[0]); },
                WebviewEventKind::BeforeEngineInit => { assert(webview_event_name(j).len() != webview_event_name(k).len()); },
                WebviewEventKind::EngineInitialized => { assert(webview_event_name(j).len() != webview_event_name(k).len()); },
                WebviewEventKind::ControllerAttached => {},
                WebviewEventKind::ControllerRemoved => { assert(webview_event_name(j).len() != webview_event_name(k).len()); },
                WebviewEventKind::NavigationRequest => { assert(webview_event_name(j).len() != webview_event_name(k).len()); },
                WebviewEventKind::DragEnter => { assert(webview_event_name(j).len() != webview_event_name(k).len()); },
                WebviewEventKind::DragOver => { assert(webview_event_name(j).len() != webview_event_name(k).len()); },
                WebviewEventKind::DragDrop => { assert(webview_event_name(j).len() != webview_event_name(k).len()); },
                WebviewEventKind::DragLeave => { assert(webview_event_name(j).len() != webview_event_name(k).len()); },
                WebviewEventKind::NewWindowRequest => { assert(webview_event_name(j).len() != webview_event_name(k).len()); },
                WebviewEventKind::PageBegin => { assert(webview_event_name(j).len() != webview_event_name(k).len()); },
                WebviewEventKind::PageEnd => { assert(webview_event_name(j).len() != webview_event_name(k).len()); },
                WebviewEventKind::DownloadStart => { assert(webview_event_name(j).len() != webview_event_name(k).len()); },
                WebviewEventKind::HttpsIntercept => { assert(webview_event_name(j).len() != webview_event_name(k).len()); },
                WebviewEventKind::DownloadEnd => { assert(webview_event_name(j).len() != webview_event_name(k).len()); },
                WebviewEventKind::TitleChange => { assert(webview_event_name(j).len() != webview_event_name(k).len()); },
                WebviewEventKind::PrintState => { assert(webview_event_name(j).len() != webview_event_name(k).len()); },
            }
        },
        WebviewEventKind::ControllerRemoved => {
            match j {
                WebviewEventKind::SealEngineSchemes => { assert(webview_event_name(j).len() != webview_event_name(k).len()); },
                WebviewEventKind::BeforeEngineInit => { assert(webview_event_name(j)[0] != webview_event_name(k)[0]); },
                WebviewEventKind::EngineInitialized => { assert(webview_event_name(j)[0] != webview_event_name(k)[0]); },
                WebviewEventKind::ControllerAttached => { assert(webview_event_name(j).len() != webview_event_name(k).len()); },
                WebviewEventKind::ControllerRemoved => {},
                WebviewEventKind::NavigationRequest => { assert(webview_event_name(j)[0] != webview_event_name(k)[0]); },
                WebviewEventKind::DragEnter => { assert(webview_event_name(j).len() != webview_event_name(k).len()); },
                WebviewEventKind::DragOver => { assert(webview_event_name(j).len() != webview_event_name(k).len()); },
                WebviewEventKind::DragDrop => { assert(webview_event_name(j).len() != webview_event_name(k).len()); },
                WebviewEventKind::DragLeave => { assert(webview_event_name(j).len() != webview_event_name(k).len()); },
                WebviewEventKind::NewWindowRequest => { assert(webview_event_name(j)[0] != webview_event_name(k)[0]); },
                WebviewEventKind::PageBegin => { assert(webview_event_name(j).len() != webview_event_name(k).len()); },
                WebviewEventKind::PageEnd => { assert(webview_event_name(j).len() != webview_event_name(k).len()); },
                WebviewEventKind::DownloadStart => { assert(webview_event_name(j).len() != webview_event_name(k).len()); },
                WebviewEventKind::HttpsIntercept => { assert(webview_event_name(j).len() != webview_event_name(k).len()); },
                WebviewEventKind::DownloadEnd => { assert(webview_event_name(j).len() != webview_event_name(k).len()); },
                WebviewEventKind::TitleChange => { assert(webview_event_name(j).len() != webview_event_name(k).len()); },
                WebviewEventKind::PrintState => { assert(webview_event_name(j).len() != webview_event_name(k).len()); },
            }
        },
        WebviewEventKind::NavigationRequest => {
            match j {
                WebviewEventKind::SealEngineSchemes => { assert(webview_event_name(j).len() != webview_event_name(k).len()); },
                WebviewEventKind::BeforeEngineInit => { assert(webview_event_name(j)[0] != webview_event_name(k)[0]); },
                WebviewEventKind::EngineInitialized => { assert(webview_event_name(j)[0] != webview_event_name(k)[0]); },
                WebviewEventKind::ControllerAttached => { assert(webview_event_name(j).len() != webview_event_name(k).len()); },
                WebviewEventKind::ControllerRemoved => { assert(webview_event_name(j)[0] != webview_event_name(k)[0]); },
                WebviewEventKind::NavigationRequest => {},
                WebviewEventKind::DragEnter => { assert(webview_event_name(j).len() != webview_event_name(k).len()); },
                WebviewEventKind::DragOver => { assert(webview_event_name(j).len() != webview_event_name(k).len()); },
                WebviewEventKind::DragDrop => { assert(webview_event_name(j).len() != webview_event_name(k).len()); },
                WebviewEventKind::DragLeave => { assert(webview_event_name(j).len() != webview_event_name(k).len()); },
                WebviewEventKind::NewWindowRequest => { assert(webview_event_name(j)[1] != webview_event_name(k)[1]); },
                WebviewEventKind::PageBegin => { assert(webview_event_name(j).len() != webview_event_name(k).len()); },
                WebviewEventKind::PageEnd => { assert(webview_event_name(j).len() != webview_event_name(k).len()); },
                WebviewEventKind::DownloadStart => { assert(webview_event_name(j).len() != webview_event_name(k).len()); },
                WebviewEventKind::HttpsIntercept => { assert(webview_event_name(j).len() != webview_event_name(k).len()); },
                WebviewEventKind::DownloadEnd => { assert(webview_event_name(j).len() != webview_event_name(k).len()); },
                WebviewEventKind::TitleChange => { assert(webview_event_name(j).len() != webview_event_name(k).len()); },
                WebviewEventKind::PrintState => { assert(webview_event_name(j).len() != webview_event_name(k).len()); },
            }
        },
        WebviewEventKind::DragEnter => {
            match j {
                WebviewEventKind::SealEngineSchemes => { assert(webview_event_name(j).len() != webview_event_name(k).len()); },
                WebviewEventKind::BeforeEngineInit => { assert(webview_event_name(j).len() != webview_event_name(k).len()); },
                WebviewEventKind::EngineInitialized => { assert(webview_event_name(j).len() != webview_event_name(k).len()); },
                WebviewEventKind::ControllerAttached => { assert(webview_event_name(j).len() != webview_event_name(k).len()); },
                WebviewEventKind::ControllerRemoved => { assert(webview_event_name(j).len() != webview_event_name(k).len()); },
                WebviewEventKind::NavigationRequest => { assert(webview_event_name(j).len() != webview_event_name(k).len()); },
                WebviewEventKind::DragEnter => {},
                WebviewEventKind::DragOver => { assert(webview_event_name(j).len() != webview_event_name(k).len()); },
                WebviewEventKind::DragDrop => { assert(webview_event_name(j).len() != webview_event_name(k).len()); },
                WebviewEventKind::DragLeave => { assert(webview_event_name(j)[5] != webview_event_name(k)[5]); },
                WebviewEventKind::NewWindowRequest => { assert(webview_event_name(j).len() != webview_event_name(k).len()); },
                WebviewEventKind::PageBegin => { assert(webview_event_name(j)[0] != webview_event_name(k)[0]); },
                WebviewEventKind::PageEnd => { assert(webview_event_name(j).len() != webview_event_name(k).len()); },
                WebviewEventKind::DownloadStart => { assert(webview_event_name(j).len() != webview_event_name(k).len()); },
                WebviewEventKind::HttpsIntercept => { assert(webview_event_name(j).len() != webview_event_name(k).len()); },
                WebviewEventKind::DownloadEnd => { assert(webview_event_name(j).len() != webview_event_name(k).len()); },
                WebviewEventKind::TitleChange => { assert(webview_event_name(j).len() != webview_event_name(k).len()); },
                WebviewEventKind::PrintState => { assert(webview_event_name(j).len() != webview_event_name(k).len()); },
            }
        },
        WebviewEventKind::DragOver => {
            match j {
                WebviewEventKind::SealEngineSchemes => { assert(webview_event_name(j).len() != webview_event_name(k).len()); },
                WebviewEventKind::BeforeEngineInit => { assert(webview_event_name(j).len() != webview_event_name(k).len()); },
                WebviewEventKind::EngineInitialized => { assert(webview_event_name(j).len() != webview_event_name(k).len()); },
                WebviewEventKind::ControllerAttached => { assert(webview_event_name(j).len() != webview_event_name(k).len()); },
                WebviewEventKind::ControllerRemoved => { assert(webview_event_name(j).len() != webview_event_name(k).len()); },
                WebviewEventKind::NavigationRequest => { assert(webview_event_name(j).len() != webview_event_name(k).len()); },
                WebviewEventKind::DragEnter => { assert(webview_event_name(j).len() != webview_event_name(k).len()); },
                WebviewEventKind::DragOver => {},
                WebviewEventKind::DragDrop => { assert(webview_event_name(j)[5] != webview_event_name(k)[5]); },
                WebviewEventKind::DragLeave => { assert(webview_event_name(j).len() != webview_event_name(k).len()); },
                WebviewEventKind::NewWindowRequest => { assert(webview_event_name(j).len() != webview_event_name(k).len()); },
                WebviewEventKind::PageBegin => { assert(webview_event_name(j).len() != webview_event_name(k).len()); },
                WebviewEventKind::PageEnd => { assert(webview_event_name(j).len() != webview_event_name(k).len()); },
                WebviewEventKind::DownloadStart => { assert(webview_event_name(j).len() != webview_event_name(k).len()); },
                WebviewEventKind::HttpsIntercept => { assert(webview_event_name(j).len() != webview_event_name(k).len()); },
                WebviewEventKind::DownloadEnd => { assert(webview_event_name(j).len() != webview_event_name(k).len()); },
                WebviewEventKind::TitleChange => { assert(webview_event_name(j).len() != webview_event_name(k).len()); },
                WebviewEventKind::PrintState => { assert(webview_event_name(j).len() != webview_event_name(k).len()); },
            }
        },
        WebviewEventKind::DragDrop => {
            match j {
                WebviewEventKind::SealEngineSchemes => { assert(webview_event_name(j).len() != webview_event_name(k).len()); },
                WebviewEventKind::BeforeEngineInit => { assert(webview_event_name(j).len() != webview_event_name(k).len()); },
                WebviewEventKind::EngineInitialized => { assert(webview_event_name(j).len() != webview_event_name(k).len()); },
                WebviewEventKind::ControllerAttached => { assert(webview_event_name(j).len() != webview_event_name(k).len()); },
                WebviewEventKind::ControllerRemoved => { assert(webview_event_name(j).len() != webview_event_name(k).len()); },
                WebviewEventKind::NavigationRequest => { assert(webview_event_name(j).len() != webview_event_name(k).len()); },
                WebviewEventKind::DragEnter => { assert(webview_event_name(j).len() != webview_event_name(k).len()); },
                WebviewEventKind::DragOver => { assert(webview_event_name(j)[5] != webview_event_name(k)[5]); },
                WebviewEventKind::DragDrop => {},
                WebviewEventKind::DragLeave => { assert(webview_event_name(j).len() != webview_event_name(k).len()); },
                WebviewEventKind::NewWindowRequest => { assert(webview_event_name(j).len() != webview_event_name(k).len()); },
                WebviewEventKind::PageBegin => { assert(webview_event_name(j).len() != webview_event_name(k).len()); },
                WebviewEventKind::PageEnd => { assert(webview_event_name(j).len() != webview_event_name(k).len()); },
                WebviewEventKind::DownloadStart => { assert(webview_event_name(j).len() != webview_event_name(k).len()); },
                WebviewEventKind::HttpsIntercept => { assert(webview_event_name(j).len() != webview_event_name(k).len()); },
                WebviewEventKind::DownloadEnd => { assert(webview_event_name(j).len() != webview_event_name(k).len()); },
                WebviewEventKind::TitleChange => { assert(webview_event_name(j).len() != webview_event_name(k).len()); },
                WebviewEventKind::PrintState => { assert(webview_event_name(j).len() != webview_event_name(k).len()); },
            }
        },
        WebviewEventKind::DragLeave => {
            match j {
                WebviewEventKind::SealEngineSchemes => { assert(webview_event_name(j).len() != webview_event_name(k).len()); },
                WebviewEventKind::BeforeEngineInit => { assert(webview_event_name(j).len() != webview_event_name(k).len()); },
                WebviewEventKind::EngineInitialized => { assert(webview_event_name(j).len() != webview_event_name(k).len()); },
                WebviewEventKind::ControllerAttached => { assert(webview_event_name(j).len() != webview_event_name(k).len()); },
                WebviewEventKind::ControllerRemoved => { assert(webview_event_name(j).len() != webview_event_name(k).len()); },
                WebviewEventKind::NavigationRequest => { assert(webview_event_name(j).len() != webview_event_name(k).len()); },
                WebviewEventKind::DragEnter => { assert(webview_event_name(j)[5] != webview_event_name(k)[5]); },
                WebviewEventKind::DragOver => { assert(webview_event_name(j).len() != webview_event_name(k).len()); },
                WebviewEventKind::DragDrop => { assert(webview_event_name(j).len() != webview_event_name(k).len()); },
                WebviewEventKind::DragLeave => {},
                WebviewEventKind::NewWindowRequest => { assert(webview_event_name(j).len() != webview_event_name(k).len()); },
                WebviewEventKind::PageBegin => { assert(webview_event_name(j)[0] != webview_event_name(k)[0]); },
                WebviewEventKind::PageEnd => { assert(webview_event_name(j).len() != webview_event_name(k).len()); },
                WebviewEventKind::DownloadStart => { assert(webview_event_name(j).len() != webview_event_name(k).len()); },
                WebviewEventKind::HttpsIntercept => { assert(webview_event_name(j).len() != webview_event_name(k).len()); },
                WebviewEventKind::DownloadEnd => { assert(webview_event_name(j).len() != webview_event_name(k).len()); },
                WebviewEventKind::TitleChange => { assert(webview_event_name(j).len() != webview_event_name(k).len()); },
                WebviewEventKind::PrintState => { assert(webview_event_name(j).len() != webview_event_name(k).len()); },
            }
        },
        WebviewEventKind::NewWindowRequest => {
            match j {
                WebviewEventKind::SealEngineSchemes => { assert(webview_event_name(j).len() != webview_event_name(k).len()); },
                WebviewEventKind::BeforeEngineInit => { assert(webview_event_name(j)[0] != webview_event_name(k)[0]); },
                WebviewEventKind::EngineInitialized => { assert(webview_event_name(j)[0] != webview_event_name(k)[0]); },
                WebviewEventKind::ControllerAttached => { assert(webview_event_name(j).len() != webview_event_name(k).len()); },
                WebviewEventKind::ControllerRemoved => { assert(webview_event_name(j)[0] != webview_event_name(k)[0]); },
                WebviewEventKind::NavigationRequest => { assert(webview_event_name(j)[1] != webview_event_name(k)[1]); },
                WebviewEventKind::DragEnter => { assert(webview_event_name(j).len() != webview_event_name(k).len()); },
                WebviewEventKind::DragOver => { assert(webview_event_name(j).len() != webview_event_name(k).len()); },
                WebviewEventKind::DragDrop => { assert(webview_event_name(j).len() != webview_event_name(k).len()); },
                WebviewEventKind::DragLeave => { assert(webview_event_name(j).len() != webview_event_name(k).len()); },
                WebviewEventKind::NewWindowRequest => {},
                WebviewEventKind::PageBegin => { assert(webview_event_name(j).len() != webview_event_name(k).len()); },
                WebviewEventKind::PageEnd => { assert(webview_event_name(j).len() != webview_event_name(k).len()); },
                WebviewEventKind::DownloadStart => { assert(webview_event_name(j).len() != webview_event_name(k).len()); },
                WebviewEventKind::HttpsIntercept => { assert(webview_event_name(j).len() != webview_event_name(k).len()); },
                WebviewEventKind::DownloadEnd => { assert(webview_event_name(j).len() != webview_event_name(k).len()); },
                WebviewEventKind::TitleChange => { assert(webview_event_name(j).len() != webview_event_name(k).len()); },
                WebviewEventKind::PrintState => { assert(webview_event_name(j).len() != webview_event_name(k).len()); },
            }
        },
        WebviewEventKind::PageBegin => {
            match j {
                WebviewEventKind::SealEngineSchemes => { assert(webview_event_name(j).len() != webview_event_name(k).len()); },
                WebviewEventKind::BeforeEngineInit => { assert(webview_event_name(j).len() != webview_event_name(k).len()); },
                WebviewEventKind::EngineInitialized => { assert(webview_event_name(j).len() != webview_event_name(k).len()); },
                WebviewEventKind::ControllerAttached => { assert(webview_event_name(j).len() != webview_event_name(k).len()); },
                WebviewEventKind::ControllerRemoved => { assert(webview_event_name(j).len() != webview_event_name(k).len()); },
                WebviewEventKind::NavigationRequest => { assert(webview_event_name(j).len() != webview_event_name(k).len()); },
                WebviewEventKind::DragEnter => { assert(webview_event_name(j)[0] != webview_event_name(k)[0]); },
                WebviewEventKind::DragOver => { assert(webview_event_name(j).len() != webview_event_name(k).len()); },
                WebviewEventKind::DragDrop => { assert(webview_event_name(j).len() != webview_event_name(k).len()); },
                WebviewEventKind::DragLeave => { assert(webview_event_name(j)[0] != webview_event_name(k)[0]); },
                WebviewEventKind::NewWindowRequest => { assert(webview_event_name(j).len() != webview_event_name(k).len()); },
                WebviewEventKind::PageBegin => {},
                WebviewEventKind::PageEnd => { assert(webview_event_name(j).len() != webview_event_name(k).len()); },
                WebviewEventKind::DownloadStart => { assert(webview_event_name(j).len() != webview_event_name(k).len()); },
                WebviewEventKind::HttpsIntercept => { assert(webview_event_name(j).len() != webview_event_name(k).len()); },
                WebviewEventKind::DownloadEnd => { assert(webview_event_name(j).len() != webview_event_name(k).len()); },
                WebviewEventKind::TitleChange => { assert(webview_event_name(j).len() != webview_event_name(k).len()); },
                WebviewEventKind::PrintState => { assert(webview_event_name(j).len() != webview_event_name(k).len()); },
            }
        },
        WebviewEventKind::PageEnd => {
            match j {
                WebviewEventKind::SealEngineSchemes => { assert(webview_event_name(j).len() != webview_event_name(k).len()); },
                WebviewEventKind::BeforeEngineInit => { assert(webview_event_name(j).len() != webview_event_name(k).len()); },
                WebviewEventKind::EngineInitialized => { assert(webview_event_name(j).len() != webview_event_name(k).len()); },
                WebviewEventKind::ControllerAttached => { assert(webview_event_name(j).len() != webview_event_name(k).len()); },
                WebviewEventKind::ControllerRemoved => { assert(webview_event_name(j).len() != webview_event_name(k).len()); },
                WebviewEventKind::NavigationRequest => { assert(webview_event_name(j).len() != webview_event_name(k).len()); },
                WebviewEventKind::DragEnter => { assert(webview_event_name(j).len() != webview_event_name(k).len()); },
                WebviewEventKind::DragOver => { assert(webview_event_name(j).len() != webview_event_name(k).len()); },
                WebviewEventKind::DragDrop => { assert(webview_event_name(j).len() != webview_event_name(k).len()); },
                WebviewEventKind::DragLeave => { assert(webview_event_name(j).len() != webview_event_name(k).len()); },
                WebviewEventKind::NewWindowRequest => { assert(webview_event_name(j).len() != webview_event_name(k).len()); },
                WebviewEventKind::PageBegin => { assert(webview_event_name(j).len() != webview_event_name(k).len()); },
                WebviewEventKind::PageEnd => {},
                WebviewEventKind::DownloadStart => { assert(webview_event_name(j).len() != webview_event_name(k).len()); },
                WebviewEventKind::HttpsIntercept => { assert(webview_event_name(j).len() != webview_event_name(k).len()); },
                WebviewEventKind::DownloadEnd => { assert(webview_event_name(j).len() != webview_event_name(k).len()); },
                WebviewEventKind::TitleChange => { assert(webview_event_name(j).len() != webview_event_name(k).len()); },
                WebviewEventKind::PrintState => { assert(webview_event_name(j).len() != webview_event_name(k).len()); },
            }
        },
        WebviewEventKind::DownloadStart => {
            match j {
                WebviewEventKind::SealEngineSchemes => { assert(webview_event_name(j).len() != webview_event_name(k).len()); },
                WebviewEventKind::BeforeEngineInit => { assert(webview_event_name(j).len() != webview_event_name(k).len()); },
                WebviewEventKind::EngineInitialized => { assert(webview_event_name(j).len() != webview_event_name(k).len()); },
                WebviewEventKind::ControllerAttached => { assert(webview_event_name(j).len() != webview_event_name(k).len()); },
                WebviewEventKind::ControllerRemoved => { assert(webview_event_name(j).len() != webview_event_name(k).len()); },
                WebviewEventKind::NavigationRequest => { assert(webview_event_name(j).len() != webview_event_name(k).len()); },
                WebviewEventKind::DragEnter => { assert(webview_event_name(j).len() != webview_event_name(k).len()); },
                WebviewEventKind::DragOver => { assert(webview_event_name(j).len() != webview_event_name(k).len()); },
                WebviewEventKind::DragDrop => { assert(webview_event_name(j).len() != webview_event_name(k).len()); },
                WebviewEventKind::DragLeave => { assert(webview_event_name(j).len() != webview_event_name(k).len()); },
                WebviewEventKind::NewWindowRequest => { assert(webview_event_name(j).len() != webview_event_name(k).len()); },
                WebviewEventKind::PageBegin => { assert(webview_event_name(j).len() != webview_event_name(k).len()); },
                WebviewEventKind::PageEnd => { assert(webview_event_name(j).len() != webview_event_name(k).len()); },
                WebviewEventKind::DownloadStart => {},
                WebviewEventKind::HttpsIntercept => { assert(webview_event_name(j).len() != webview_event_name(k).len()); },
                WebviewEventKind::DownloadEnd => { assert(webview_event_name(j).len() != webview_event_name(k).len()); },
                WebviewEventKind::TitleChange => { assert(webview_event_name(j).len() != webview_event_name(k).len()); },
                WebviewEventKind::PrintState => { assert(webview_event_name(j).len() != webview_event_name(k).len()); },
            }
        },
        WebviewEventKind::HttpsIntercept => {
            match j {
                WebviewEventKind::SealEngineSchemes => { assert(webview_event_name(j).len() != webview_event_name(k).len()); },
                WebviewEventKind::BeforeEngineInit => { assert(webview_event_name(j).len() != webview_event_name(k).len()); },
                WebviewEventKind::EngineInitialized => { assert(webview_event_name(j).len() != webview_event_name(k).len()); },
                WebviewEventKind::ControllerAttached => { assert(webview_event_name(j).len() != webview_event_name(k).len()); },
                WebviewEventKind::ControllerRemoved => { assert(webview_event_name(j).len() != webview_event_name(k).len()); },
                WebviewEventKind::NavigationRequest => { assert(webview_event_name(j).len() != webview_event_name(k).len()); },
                WebviewEventKind::DragEnter => { assert(webview_event_name(j).len() != webview_event_name(k).len()); },
                WebviewEventKind::DragOver => { assert(webview_event_name(j).len() != webview_event_name(k).len()); },
                WebviewEventKind::DragDrop => { assert(webview_event_name(j).len() != webview_event_name(k).len()); },
                WebviewEventKind::DragLeave => { assert(webview_event_name(j).len() != webview_event_name(k).len()); },
                WebviewEventKind::NewWindowRequest => { assert(webview_event_name(j).len() != webview_event_name(k).len()); },
                WebviewEventKind::PageBegin => { assert(webview_event_name(j).len() != webview_event_name(k).len()); },
                WebviewEventKind::PageEnd => { assert(webview_event_name(j).len() != webview_event_name(k).len()); },
                WebviewEventKind::DownloadStart => { assert(webview_event_name(j).len() != webview_event_name(k).len()); },
                WebviewEventKind::HttpsIntercept => {},
                WebviewEventKind::DownloadEnd => { assert(webview_event_name(j).len() != webview_event_name(k).len()); },
                WebviewEventKind::TitleChange => { assert(webview_event_name(j).len() != webview_event_name(k).len()); },
                WebviewEventKind::PrintState => { assert(webview_event_name(j).len() != webview_event_name(k).len()); },
            }
        },
        WebviewEventKind::DownloadEnd => {
            match j {
                WebviewEventKind::SealEngineSchemes => { assert(webview_event_name(j).len() != webview_event_name(k).len()); },
                WebviewEventKind::BeforeEngineInit => { assert(webview_event_name(j).len() != webview_event_name(k).len()); },
                WebviewEventKind::EngineInitialized => { assert(webview_event_name(j).len() != webview_event_name(k).len()); },
                WebviewEventKind::ControllerAttached => { assert(webview_event_name(j).len() != webview_event_name(k).len()); },
                WebviewEventKind::ControllerRemoved => { assert(webview_event_name(j).len() != webview_event_name(k).len()); },
                WebviewEventKind::NavigationRequest => { assert(webview_event_name(j).len() != webview_event_name(k).len()); },
                WebviewEventKind::DragEnter => { assert(webview_event_name(j).len() != webview_event_name(k).len()); },
                WebviewEventKind::DragOver => { assert(webview_event_name(j).len() != webview_event_name(k).len()); },
                WebviewEventKind::DragDrop => { assert(webview_event_name(j).len() != webview_event_name(k).len()); },
                WebviewEventKind::DragLeave => { assert(webview_event_name(j).len() != webview_event_name(k).len()); },
                WebviewEventKind::NewWindowRequest => { assert(webview_event_name(j).len() != webview_event_name(k).len()); },
                WebviewEventKind::PageBegin => { assert(webview_event_name(j).len() != webview_event_name(k).len()); },
                WebviewEventKind::PageEnd => { assert(webview_event_name(j).len() != webview_event_name(k).len()); },
                WebviewEventKind::DownloadStart => { assert(webview_event_name(j).len() != webview_event_name(k).len()); },
                WebviewEventKind::HttpsIntercept => { assert(webview_event_name(j).len() != webview_event_name(k).len()); },
                WebviewEventKind::DownloadEnd => {},
                WebviewEventKind::TitleChange => { assert(webview_event_name(j)[0] != webview_event_name(k)[0]); },
                WebviewEventKind::PrintState => { assert(webview_event_name(j).len() != webview_event_name(k).len()); },
            }
        },
        WebviewEventKind::TitleChange => {
            match j {
                WebviewEventKind::SealEngineSchemes => { assert(webview_event_name(j).len() != webview_event_name(k).len()); },
                WebviewEventKind::BeforeEngineInit => { assert(webview_event_name(j).len() != webview_event_name(k).len()); },
                WebviewEventKind::EngineInitialized => { assert(webview_event_name(j).len() != webview_event_name(k).len()); },
                WebviewEventKind::ControllerAttached => { assert(webview_event_name(j).len() != webview_event_name(k).len()); },
                WebviewEventKind::ControllerRemoved => { assert(webview_event_name(j).len() != webview_event_name(k).len()); },
                WebviewEventKind::NavigationRequest => { assert(webview_event_name(j).len() != webview_event_name(k).len()); },
                WebviewEventKind::DragEnter => { assert(webview_event_name(j).len() != webview_event_name(k).len()); },
                WebviewEventKind::DragOver => { assert(webview_event_name(j).len() != webview_event_name(k).len()); },
                WebviewEventKind::DragDrop => { assert(webview_event_name(j).len() != webview_event_name(k).len()); },
                WebviewEventKind::DragLeave => { assert(webview_event_name(j).len() != webview_event_name(k).len()); },
                WebviewEventKind::NewWindowRequest => { assert(webview_event_name(j).len() != webview_event_name(k).len()); },
                WebviewEventKind::PageBegin => { assert(webview_event_name(j).len() != webview_event_name(k).len()); },
                WebviewEventKind::PageEnd => { assert(webview_event_name(j).len() != webview_event_name(k).len()); },
                WebviewEventKind::DownloadStart => { assert(webview_event_name(j).len() != webview_event_name(k).len()); },
                WebviewEventKind::HttpsIntercept => { assert(webview_event_name(j).len() != webview_event_name(k).len()); },
                WebviewEventKind::DownloadEnd => { assert(webview_event_name(j)[0] != webview_event_name(k)[0]); },
                WebviewEventKind::TitleChange => {},
                WebviewEventKind::PrintState => { assert(webview_event_name(j).len() != webview_event_name(k).len()); },
            }
        },
        WebviewEventKind::PrintState => {
            match j {
                WebviewEventKind::SealEngineSchemes => { assert(webview_event_name(j).len() != webview_event_name(k).len()); },
                WebviewEventKind::BeforeEngineInit => { assert(webview_event_name(j).len() != webview_event_name(k).len()); },
                WebviewEventKind::EngineInitialized => { assert(webview_event_name(j).len() != webview_event_name(k).len()); },
                WebviewEventKind::ControllerAttached => { assert(webview_event_name(j).len() != webview_event_name(k).len()); },
                WebviewEventKind::ControllerRemoved => { assert(webview_event_name(j).len() != webview_event_name(k).len()); },
                WebviewEventKind::NavigationRequest => { assert(webview_event_name(j).len() != webview_event_name(k).len()); },
                WebviewEventKind::DragEnter => { assert(webview_event_name(j).len() != webview_event_name(k).len()); },
                WebviewEventKind::DragOver => { assert(webview_event_name(j).len() != webview_event_name(k).len()); },
                WebviewEventKind::DragDrop => { assert(webview_event_name(j).len() != webview_event_name(k).len()); },
                WebviewEventKind::DragLeave => { assert(webview_event_name(j).len() != webview_event_name(k).len()); },
                WebviewEventKind::NewWindowRequest => { assert(webview_event_name(j).len() != webview_event_name(k).len()); },
                WebviewEventKind::PageBegin => { assert(webview_event_name(j).len() != webview_event_name(k).len()); },
                WebviewEventKind::PageEnd => { assert(webview_event_name(j).len() != webview_event_name(k).len()); },
                WebviewEventKind::DownloadStart => { assert(webview_event_name(j).len() != webview_event_name(k).len()); },
                WebviewEventKind::HttpsIntercept => { assert(webview_event_name(j).len() != webview_event_name(k).len()); },
                WebviewEventKind::DownloadEnd => { assert(webview_event_name(j).len() != webview_event_name(k).len()); },
                WebviewEventKind::TitleChange => { assert(webview_event_name(j).len() != webview_event_name(k).len()); },
                WebviewEventKind::PrintState => {},
            }
        },
    }
}

} // verus!
