//! What the replies of the daemon mean.
//!
//! A reply is one JSON document. The functions here take the parsed document,
//! so that what a reply means is stated for every document.

use vstd::prelude::*;

use crate::error::{WlError, WlErrorView, WlResult, result_view};
use crate::json::{Json, JsonView};
use crate::model::{
    AudioChannelState, AuthRole, RuntimeState, UsbClaim, UsbClaimView, VmAudioState,
    VmAudioStateView, VmCapabilities, VmFeatures,
};
use crate::sources::{
    AudioStatus, AudioStatusEntry, AudioStatusEntryView, AudioStatusError, AudioStatusErrorView,
    AudioStatusView, Auth, Inventory, InventoryVm, InventoryVmView, InventoryView, StatusModel,
    StatusModelView, UsbProbe, UsbProbeView, VmStatus, VmStatusView,
};
use crate::text::{
    begins, chars_are, chars_begin, chars_contain, chars_of, decimal, decimal_text, empty,
    first_where, lemma_first_where_at, lemma_first_where_none, lower_chars, lowered, number_of,
    occurs, opt_view, parse_number, same_text, starts_with, views,
};

verus! {

/// An error that the daemon reported.
pub struct DaemonError {
    pub kind: String,
    pub exit_code: Option<u8>,
    pub message: String,
    pub remediation: Option<String>,
}

/// The mathematical form of [`DaemonError`].
pub struct DaemonErrorView {
    pub kind: Seq<char>,
    pub exit_code: Option<u8>,
    pub message: Seq<char>,
    pub remediation: Option<Seq<char>>,
}

impl View for DaemonError {
    type V = DaemonErrorView;

    open spec fn view(&self) -> DaemonErrorView {
        DaemonErrorView {
            kind: self.kind@,
            exit_code: self.exit_code,
            message: self.message@,
            remediation: opt_view(self.remediation),
        }
    }
}

/// The text of a part that is a string.
pub open spec fn part_text(part: Option<JsonView>) -> Option<Seq<char>> {
    match part {
        Some(value) => value.text(),
        None => None,
    }
}

/// Whether a part, if there is one, is a string or null.
pub open spec fn optional_text_fits(part: Option<JsonView>) -> bool {
    match part {
        Some(value) => value is Text || value is Null,
        None => true,
    }
}

/// Whether a part, if there is one, is a small number or null.
pub open spec fn optional_code_fits(part: Option<JsonView>) -> bool {
    match part {
        Some(value) => value is Null || (value is Unsigned && value->Unsigned_0 <= 255),
        None => true,
    }
}

/// The small number that a part is, if there is one.
pub open spec fn part_code(part: Option<JsonView>) -> Option<u8> {
    match part {
        Some(JsonView::Unsigned(number)) => Some(number as u8),
        _ => None,
    }
}

/// The view of a borrowed part.
pub open spec fn part_view(part: Option<&Json>) -> Option<JsonView> {
    match part {
        Some(value) => Some(value@),
        None => None,
    }
}

/// The error a document describes, as an object or as an array of kind, exit code,
/// message and remediation: its kind and message are strings, an object gives its
/// exit code at most once, as `exitCode` or `code`, and all it gives is of the
/// right type. What follows the message may be left out of an array.
pub open spec fn described_error(value: JsonView) -> Option<DaemonErrorView> {
    let kind = value.part("kind"@, 0);
    let exit_code = value.part("exitCode"@, 1);
    let alias = value.field("code"@);
    let message = value.part("message"@, 2);
    let remediation = value.part("remediation"@, 3);
    if value.within(4) && part_text(kind) is Some && part_text(message) is Some && !(exit_code is Some
        && alias is Some) && optional_code_fits(exit_code) && optional_code_fits(alias)
        && optional_text_fits(remediation) {
        Some(
            DaemonErrorView {
                kind: part_text(kind)->Some_0,
                exit_code: if exit_code is Some {
                    part_code(exit_code)
                } else {
                    part_code(alias)
                },
                message: part_text(message)->Some_0,
                remediation: part_text(remediation),
            },
        )
    } else {
        None
    }
}

fn read_text(part: Option<&Json>) -> (text: Option<String>)
    ensures
        opt_view(text) == part_text(part_view(part)),
{
    match part {
        Some(value) => match value.as_text() {
            Some(text) => Some(text.clone()),
            None => None,
        },
        None => None,
    }
}

fn text_or_null(part: Option<&Json>) -> (fits: bool)
    ensures
        fits == optional_text_fits(part_view(part)),
{
    match part {
        Some(value) => match value {
            Json::Text(_) => true,
            Json::Null => true,
            _ => false,
        },
        None => true,
    }
}

/// The small number that a part is: `Err` where it is of another type.
fn code_or_null(part: Option<&Json>) -> (code: Result<Option<u8>, ()>)
    ensures
        code is Ok <==> optional_code_fits(part_view(part)),
        code is Ok ==> code->Ok_0 == part_code(part_view(part)),
{
    match part {
        Some(value) => match value {
            Json::Unsigned(number) => if *number <= 255 {
                Ok(Some(*number as u8))
            } else {
                Err(())
            },
            Json::Null => Ok(None),
            _ => Err(()),
        },
        None => Ok(None),
    }
}

/// Reads the error that a document describes.
pub fn parse_daemon_error(value: &Json) -> (error: Option<DaemonError>)
    ensures
        opt_view(error) == described_error(value@),
{
    if !value.is_within(4) {
        return None;
    }
    let kind = match read_text(value.part("kind", 0)) {
        Some(kind) => kind,
        None => {
            return None;
        },
    };
    let message = match read_text(value.part("message", 2)) {
        Some(message) => message,
        None => {
            return None;
        },
    };
    let exit_code = value.part("exitCode", 1);
    let alias = value.get("code");
    let named = exit_code.is_some();
    if named && alias.is_some() {
        return None;
    }
    let by_name = match code_or_null(exit_code) {
        Ok(code) => code,
        Err(()) => {
            return None;
        },
    };
    let by_alias = match code_or_null(alias) {
        Ok(code) => code,
        Err(()) => {
            return None;
        },
    };
    let remediation = value.part("remediation", 3);
    if !text_or_null(remediation) {
        return None;
    }
    let exit_code = if named {
        by_name
    } else {
        by_alias
    };
    Some(DaemonError { kind, exit_code, message, remediation: read_text(remediation) })
}

/// The one-line message of a daemon error.
pub open spec fn daemon_message(error: DaemonErrorView) -> Seq<char> {
    match error.remediation {
        Some(remediation) => if remediation.len() > 0 {
            error.kind + ": "@ + error.message + " ("@ + remediation + ")"@
        } else {
            error.kind + ": "@ + error.message
        },
        None => error.kind + ": "@ + error.message,
    }
}

/// What a daemon error is to the client: a refusal of access, a protocol
/// failure, or a failure of the daemon.
pub open spec fn daemon_verdict(error: DaemonErrorView) -> WlErrorView {
    if begins(error.kind, "authz-"@) || error.exit_code == Some(10u8) || error.exit_code == Some(
        11u8,
    ) {
        WlErrorView::Denied(daemon_message(error))
    } else if begins(error.kind, "wire-"@) {
        WlErrorView::Protocol(daemon_message(error))
    } else {
        WlErrorView::Nixling(daemon_message(error))
    }
}

/// Said where the daemon reports an error without describing it.
pub open spec fn undescribed_error() -> DaemonErrorView {
    DaemonErrorView {
        kind: "error"@,
        exit_code: None,
        message: "nixlingd returned an error"@,
        remediation: None,
    }
}

impl DaemonError {
    /// Said where the daemon reports an error without describing it.
    fn undescribed() -> (error: Self)
        ensures
            error@ == undescribed_error(),
    {
        DaemonError {
            kind: "error".to_owned(),
            exit_code: None,
            message: "nixlingd returned an error".to_owned(),
            remediation: None,
        }
    }

    /// What the error is to the client.
    pub fn into_wl_error(self) -> (error: WlError)
        ensures
            error@ == daemon_verdict(self@),
    {
        let mut message = self.kind.clone();
        message.append(": ");
        message.append(self.message.as_str());
        if let Some(remediation) = &self.remediation {
            if !empty(remediation.as_str()) {
                message.append(" (");
                message.append(remediation.as_str());
                message.append(")");
            }
        }
        let denied_code = match self.exit_code {
            Some(code) => code == 10 || code == 11,
            None => false,
        };
        if starts_with(self.kind.as_str(), "authz-") || denied_code {
            WlError::Denied(message)
        } else if starts_with(self.kind.as_str(), "wire-") {
            WlError::Protocol(message)
        } else {
            WlError::Nixling(message)
        }
    }
}

/// The error that a reply reports, if it is an error reply.
pub open spec fn reported_error(value: JsonView) -> Option<WlErrorView> {
    if value.text_field("type"@) == Some("error"@) {
        Some(
            daemon_verdict(
                match value.field("error"@) {
                    Some(detail) => match described_error(detail) {
                        Some(error) => error,
                        None => undescribed_error(),
                    },
                    None => undescribed_error(),
                },
            ),
        )
    } else if value.text_field("kind"@) == Some("error"@) {
        Some(
            daemon_verdict(
                match described_error(
                    match value.field("payload"@) {
                        Some(payload) => payload,
                        None => value,
                    },
                ) {
                    Some(error) => error,
                    None => undescribed_error(),
                },
            ),
        )
    } else {
        None
    }
}

fn text_field_is(value: &Json, name: &str, wanted: &str) -> (yes: bool)
    ensures
        yes == (value@.text_field(name@) == Some(wanted@)),
{
    match value.text_field(name) {
        Some(text) => same_text(text.as_str(), wanted),
        None => false,
    }
}

/// Fails on an error reply.
pub fn reject_error_response(value: &Json) -> (verdict: WlResult<()>)
    ensures
        match reported_error(value@) {
            Some(error) => verdict is Err && verdict->Err_0@ == error,
            None => verdict is Ok,
        },
{
    if text_field_is(value, "type", "error") {
        let described = match value.get("error") {
            Some(detail) => parse_daemon_error(detail),
            None => None,
        };
        let error = match described {
            Some(error) => error,
            None => DaemonError::undescribed(),
        };
        return Err(error.into_wl_error());
    }
    if text_field_is(value, "kind", "error") {
        let described = match value.get("payload") {
            Some(payload) => parse_daemon_error(payload),
            None => parse_daemon_error(value),
        };
        let error = match described {
            Some(error) => error,
            None => DaemonError::undescribed(),
        };
        return Err(error.into_wl_error());
    }
    Ok(())
}

/// How many characters stand before the first dot.
pub open spec fn dot_length(text: Seq<char>) -> nat
    decreases text.len(),
{
    if text.len() == 0 || text[0] == '.' {
        0
    } else {
        1 + dot_length(text.drop_first())
    }
}

/// Whether a protocol version is one that this client speaks: 0.4 or any patch
/// of it.
pub open spec fn version_supported(version: Seq<char>) -> bool {
    let first = dot_length(version);
    let rest = version.skip(first as int + 1);
    &&& first < version.len()
    &&& number_of(version.take(first as int)) == Some(0nat)
    &&& number_of(rest.take(dot_length(rest) as int)) == Some(4nat)
}

fn find_dot(chars: &Vec<char>, from: usize) -> (at: usize)
    requires
        from <= chars@.len(),
    ensures
        from <= at <= chars@.len(),
        at - from == dot_length(chars@.skip(from as int)),
    decreases chars@.len() - from,
{
    if from == chars.len() {
        from
    } else if chars[from] == '.' {
        assert(chars@.skip(from as int)[0] == '.');
        from
    } else {
        assert(chars@.skip(from as int)[0] == chars@[from as int]);
        assert(chars@.skip(from as int).drop_first() =~= chars@.skip(from + 1));
        find_dot(chars, from + 1)
    }
}

/// Whether a protocol version is one that this client speaks.
pub fn selected_version_supported(version: &str) -> (yes: bool)
    ensures
        yes == version_supported(version@),
{
    let chars = chars_of(version);
    let first: usize = find_dot(&chars, 0);
    assert(version@.skip(0) =~= version@);
    if first == chars.len() {
        return false;
    }
    let second: usize = find_dot(&chars, first + 1);
    proof {
        let rest = version@.skip(first + 1);
        assert(version@.subrange(0, first as int) =~= version@.take(first as int));
        assert(version@.subrange(first + 1, second as int) =~= rest.take(
            dot_length(rest) as int,
        ));
    }
    let major = parse_number(version.substring_char(0, first));
    let minor = parse_number(version.substring_char(first + 1, second));
    match (major, minor) {
        (Some(0), Some(4)) => true,
        _ => false,
    }
}

/// What a reply to the hello message decides.
pub open spec fn hello_verdict(value: JsonView) -> Option<WlErrorView> {
    let named_type = value.text_field("type"@);
    if reported_error(value) is Some {
        reported_error(value)
    } else if named_type == Some("helloRejected"@) {
        Some(hello_rejection(value))
    } else if !(named_type == Some("helloOk"@) || (named_type is None && value.field(
        "serverVersion"@,
    ) is Some && value.field("selectedVersion"@) is Some)) {
        Some(WlErrorView::Protocol("unexpected nixlingd hello response"@))
    } else {
        match value.text_field("selectedVersion"@) {
            None => Some(WlErrorView::Protocol("helloOk missing selectedVersion"@)),
            Some(selected) => if version_supported(selected) {
                None
            } else {
                Some(
                    WlErrorView::Protocol(
                        "nixlingd selected unsupported protocol version "@ + selected,
                    ),
                )
            },
        }
    }
}

/// Why a rejected hello was rejected.
pub open spec fn hello_rejection(value: JsonView) -> WlErrorView {
    let reason = match value.text_field("reason"@) {
        Some(reason) => reason,
        None => "unknown"@,
    };
    let described = match value.field("error"@) {
        Some(detail) => described_error(detail),
        None => None,
    };
    match described {
        Some(error) => daemon_verdict(error),
        None => if reason == "versionMismatch"@ {
            WlErrorView::Protocol("nixlingd rejected client version"@)
        } else if reason == "capabilityNegotiationFailed"@ {
            WlErrorView::Protocol("nixlingd rejected client capabilities"@)
        } else {
            WlErrorView::Nixling("nixlingd rejected hello: "@ + reason)
        },
    }
}

fn reject_hello(value: &Json) -> (error: WlError)
    ensures
        error@ == hello_rejection(value@),
{
    let reason = match value.text_field("reason") {
        Some(reason) => reason,
        None => "unknown".to_owned(),
    };
    let described = match value.get("error") {
        Some(detail) => parse_daemon_error(detail),
        None => None,
    };
    match described {
        Some(error) => error.into_wl_error(),
        None => if same_text(reason.as_str(), "versionMismatch") {
            WlError::Protocol("nixlingd rejected client version".to_owned())
        } else if same_text(reason.as_str(), "capabilityNegotiationFailed") {
            WlError::Protocol("nixlingd rejected client capabilities".to_owned())
        } else {
            WlError::Nixling("nixlingd rejected hello: ".to_owned().concat(reason.as_str()))
        },
    }
}

/// Decides on a reply to the hello message: the connection goes on only when the
/// daemon selected a version that this client speaks.
pub fn parse_hello_reply(value: &Json) -> (verdict: WlResult<()>)
    ensures
        match hello_verdict(value@) {
            Some(error) => verdict is Err && verdict->Err_0@ == error,
            None => verdict is Ok,
        },
{
    if let Err(error) = reject_error_response(value) {
        return Err(error);
    }
    if text_field_is(value, "type", "helloRejected") {
        return Err(reject_hello(value));
    }
    let typed = value.text_field("type").is_some();
    let hello_ok = text_field_is(value, "type", "helloOk") || (!typed && value.get(
        "serverVersion",
    ).is_some() && value.get("selectedVersion").is_some());
    if !hello_ok {
        return Err(WlError::Protocol("unexpected nixlingd hello response".to_owned()));
    }
    match value.text_field("selectedVersion") {
        None => Err(WlError::Protocol("helloOk missing selectedVersion".to_owned())),
        Some(selected) => if selected_version_supported(selected.as_str()) {
            Ok(())
        } else {
            Err(
                WlError::Protocol(
                    "nixlingd selected unsupported protocol version ".to_owned().concat(
                        selected.as_str(),
                    ),
                ),
            )
        },
    }
}

/// The part of a reply that carries the answer. A reply that reports an error
/// carries none: the error is the daemon's own. Any other reply names its type, or
/// its kind, or neither; what it names must be what was asked for. A typed reply
/// may wrap the answer in a member; a reply of a kind holds it as `payload`.
pub open spec fn answer_of(
    value: JsonView,
    expected_type: Seq<char>,
    expected_kind: Seq<char>,
    wrapper: Option<Seq<char>>,
) -> Result<JsonView, WlErrorView> {
    match reported_error(value) {
        Some(error) => Err(error),
        None => match value.text_field("type"@) {
            Some(named_type) => if named_type != expected_type {
                Err(
                    WlErrorView::Protocol("expected "@ + expected_type + ", got "@ + named_type),
                )
            } else {
                match wrapper {
                    Some(name) => match value.field(name) {
                        Some(answer) => Ok(answer),
                        None => Ok(value),
                    },
                    None => Ok(value),
                }
            },
            None => match value.text_field("kind"@) {
                Some(kind) => if kind != expected_kind {
                    Err(
                        WlErrorView::Protocol(
                            "expected response kind '"@ + expected_kind + "', got '"@ + kind + "'"@,
                        ),
                    )
                } else {
                    match value.field("payload"@) {
                        Some(answer) => Ok(answer),
                        None => Ok(JsonView::Null),
                    }
                },
                None => Ok(value),
            },
        },
    }
}

/// The view of a borrowed answer.
pub open spec fn answer_view(answer: WlResult<&Json>) -> Result<JsonView, WlErrorView> {
    match answer {
        Ok(value) => Ok(value@),
        Err(error) => Err(error@),
    }
}

/// Finds the part of a reply that carries the answer; `null` stands in for an
/// absent payload.
pub fn response_payload<'a>(
    value: &'a Json,
    expected_type: &str,
    expected_kind: &str,
    wrapper: Option<&str>,
    null: &'a Json,
) -> (answer: WlResult<&'a Json>)
    requires
        null@ == JsonView::Null,
    ensures
        answer_view(answer) == answer_of(
            value@,
            expected_type@,
            expected_kind@,
            opt_view(wrapper),
        ),
{
    if let Err(error) = reject_error_response(value) {
        return Err(error);
    }
    if let Some(named_type) = value.text_field("type") {
        if !same_text(named_type.as_str(), expected_type) {
            let mut text = "expected ".to_owned();
            text.append(expected_type);
            text.append(", got ");
            text.append(named_type.as_str());
            return Err(WlError::Protocol(text));
        }
        return match wrapper {
            Some(name) => match value.get(name) {
                Some(answer) => Ok(answer),
                None => Ok(value),
            },
            None => Ok(value),
        };
    }
    if let Some(kind) = value.text_field("kind") {
        if !same_text(kind.as_str(), expected_kind) {
            let mut text = "expected response kind '".to_owned();
            text.append(expected_kind);
            text.append("', got '");
            text.append(kind.as_str());
            text.append("'");
            return Err(WlError::Protocol(text));
        }
        return match value.get("payload") {
            Some(answer) => Ok(answer),
            None => Ok(null),
        };
    }
    Ok(value)
}

/// The role that a role name gives, in any case of its letters.
pub open spec fn role_named(name: Option<Seq<char>>) -> AuthRole {
    match name {
        Some(text) => if lowered(text) == "admin"@ {
            AuthRole::Admin
        } else if lowered(text) == "launcher"@ {
            AuthRole::Launcher
        } else {
            AuthRole::NoRole
        },
        None => AuthRole::NoRole,
    }
}

/// The role that a role name gives, in any case of its letters.
pub fn map_auth_role(name: Option<String>) -> (role: AuthRole)
    ensures
        role == role_named(opt_view(name)),
{
    match name {
        Some(text) => {
            let lower = lower_chars(text.as_str());
            if chars_are(&lower, "admin") {
                AuthRole::Admin
            } else if chars_are(&lower, "launcher") {
                AuthRole::Launcher
            } else {
                AuthRole::NoRole
            }
        },
        None => AuthRole::NoRole,
    }
}

/// What a reply to an authorization request says.
pub open spec fn auth_answer(value: JsonView) -> Result<Auth, WlErrorView> {
    match answer_of(value, "authStatusResponse"@, "auth status"@, Some("auth"@)) {
        Ok(answer) => Ok(Auth { role: role_named(answer.text_field("role"@)) }),
        Err(error) => Err(error),
    }
}

/// Reads a reply to an authorization request.
pub fn auth_from_reply(value: &Json) -> (auth: WlResult<Auth>)
    ensures
        match auth {
            Ok(answer) => auth_answer(value@) == Ok::<Auth, WlErrorView>(answer),
            Err(error) => auth_answer(value@) == Err::<Auth, WlErrorView>(error@),
        },
{
    let null = Json::Null;
    match response_payload(value, "authStatusResponse", "auth status", Some("auth"), &null) {
        Ok(answer) => Ok(Auth { role: map_auth_role(answer.text_field("role")) }),
        Err(error) => Err(error),
    }
}

/// A boolean feature: directly on the entry, or else among its features.
pub open spec fn feature(value: JsonView, name: Seq<char>, other: Seq<char>) -> bool {
    match value.flag_field_or(name, other) {
        Some(flag) => flag,
        None => match value.field("features"@) {
            Some(features) => match features.flag_field(name) {
                Some(flag) => flag,
                None => false,
            },
            None => false,
        },
    }
}

fn read_feature(value: &Json, name: &str, other: &str) -> (flag: bool)
    ensures
        flag == feature(value@, name@, other@),
{
    match value.flag_field_or(name, other) {
        Some(flag) => flag,
        None => match value.get("features") {
            Some(features) => match features.flag_field(name) {
                Some(flag) => flag,
                None => false,
            },
            None => false,
        },
    }
}

/// The text that describes a runtime: the value itself, or its detail.
pub open spec fn runtime_description(value: JsonView) -> Option<Seq<char>> {
    match value.field("runtime"@) {
        Some(runtime) => match runtime.text() {
            Some(text) => Some(text),
            None => runtime.text_field("detail"@),
        },
        None => None,
    }
}

fn runtime_text(value: &Json) -> (text: Option<String>)
    ensures
        opt_view(text) == runtime_description(value@),
{
    match value.get("runtime") {
        Some(runtime) => match runtime.as_text() {
            Some(text) => Some(text.clone()),
            None => runtime.text_field("detail"),
        },
        None => None,
    }
}

/// The lifecycle state an entry names.
pub open spec fn lifecycle_name(value: JsonView) -> Option<Seq<char>> {
    match value.field("lifecycle"@) {
        Some(lifecycle) => lifecycle.text_field("state"@),
        None => None,
    }
}

fn lifecycle_text(value: &Json) -> (text: Option<String>)
    ensures
        opt_view(text) == lifecycle_name(value@),
{
    match value.get("lifecycle") {
        Some(lifecycle) => lifecycle.text_field("state"),
        None => None,
    }
}

/// The operation capabilities an entry reports.
pub open spec fn operations_of(value: JsonView) -> Option<JsonView> {
    match value.field("runtime"@) {
        Some(runtime) => runtime.field("operationCapabilities"@),
        None => None,
    }
}

/// Whether an operation is supported; one that is not reported is.
pub open spec fn operation(value: JsonView, group: Seq<char>, name: Seq<char>) -> bool {
    match operations_of(value) {
        Some(operations) => match operations.field(group) {
            Some(members) => match members.flag_field(name) {
                Some(flag) => flag,
                None => true,
            },
            None => true,
        },
        None => true,
    }
}

fn read_operation(value: &Json, group: &str, name: &str) -> (flag: bool)
    ensures
        flag == operation(value@, group@, name@),
{
    let operations = match value.get("runtime") {
        Some(runtime) => runtime.get("operationCapabilities"),
        None => None,
    };
    match operations {
        Some(operations) => match operations.get(group) {
            Some(members) => match members.flag_field(name) {
                Some(flag) => flag,
                None => true,
            },
            None => true,
        },
        None => true,
    }
}

/// The capabilities an entry reports.
pub open spec fn reported_capabilities(value: JsonView) -> VmCapabilities {
    VmCapabilities {
        start: operation(value, "lifecycle"@, "start"@),
        stop: operation(value, "lifecycle"@, "stop"@),
        restart: operation(value, "lifecycle"@, "restart"@),
        switch: operation(value, "lifecycle"@, "switch"@),
        build: operation(value, "lifecycle"@, "build"@),
        boot: operation(value, "lifecycle"@, "boot"@),
        usb_hotplug: operation(value, "media"@, "usbHotplug"@),
        store_verify: operation(value, "storage"@, "storeSync"@),
        terminal: operation(value, "guest"@, "exec"@),
    }
}

/// Reads the capabilities an entry reports.
pub fn capabilities_from_value(value: &Json) -> (capabilities: VmCapabilities)
    ensures
        capabilities == reported_capabilities(value@),
{
    VmCapabilities {
        start: read_operation(value, "lifecycle", "start"),
        stop: read_operation(value, "lifecycle", "stop"),
        restart: read_operation(value, "lifecycle", "restart"),
        switch: read_operation(value, "lifecycle", "switch"),
        build: read_operation(value, "lifecycle", "build"),
        boot: read_operation(value, "lifecycle", "boot"),
        usb_hotplug: read_operation(value, "media", "usbHotplug"),
        store_verify: read_operation(value, "storage", "storeSync"),
        terminal: read_operation(value, "guest", "exec"),
    }
}

/// The inventory entry that a document describes, if it names a VM.
pub open spec fn inventory_entry(value: JsonView) -> Option<InventoryVmView> {
    match value.text_field_or("name"@, "vm"@) {
        Some(name) => Some(
            InventoryVmView {
                name,
                env: value.text_field("env"@),
                is_net_vm: value.flag_field_or("isNetVm"@, "is_net_vm"@) == Some(true),
                features: VmFeatures {
                    graphics: feature(value, "graphics"@, "graphics"@),
                    tpm: feature(value, "tpm"@, "tpm"@),
                    usbip: feature(value, "usbip"@, "usbipYubikey"@),
                    audio: feature(value, "audio"@, "audio"@),
                },
                capabilities: reported_capabilities(value),
                static_ip: value.text_field_or("staticIp"@, "static_ip"@),
                coarse_status: match value.text_field("status"@) {
                    Some(status) => Some(status),
                    None => match lifecycle_name(value) {
                        Some(state) => Some(state),
                        None => runtime_description(value),
                    },
                },
            },
        ),
        None => None,
    }
}

/// Reads one inventory entry.
pub fn inventory_vm_from_value(value: &Json) -> (entry: Option<InventoryVm>)
    ensures
        opt_view(entry) == inventory_entry(value@),
{
    let name = match value.text_field_or("name", "vm") {
        Some(name) => name,
        None => {
            return None;
        },
    };
    let is_net_vm = match value.flag_field_or("isNetVm", "is_net_vm") {
        Some(flag) => flag,
        None => false,
    };
    let coarse_status = match value.text_field("status") {
        Some(status) => Some(status),
        None => match lifecycle_text(value) {
            Some(state) => Some(state),
            None => runtime_text(value),
        },
    };
    Some(
        InventoryVm {
            name,
            env: value.text_field("env"),
            is_net_vm,
            features: VmFeatures {
                graphics: read_feature(value, "graphics", "graphics"),
                tpm: read_feature(value, "tpm", "tpm"),
                usbip: read_feature(value, "usbip", "usbipYubikey"),
                audio: read_feature(value, "audio", "audio"),
            },
            capabilities: capabilities_from_value(value),
            static_ip: value.text_field_or("staticIp", "static_ip"),
            coarse_status,
        },
    )
}

/// The entries that a list of documents describes, without those that describe
/// none.
pub open spec fn inventory_entries(items: Seq<JsonView>) -> Seq<InventoryVmView> {
    items.filter_map(|item: JsonView| inventory_entry(item))
}

fn read_inventory(items: &Vec<Json>) -> (vms: Vec<InventoryVm>)
    ensures
        views(vms@) == inventory_entries(views(items@)),
{
    let ghost all = views(items@);
    let ghost entry = |item: JsonView| inventory_entry(item);
    let mut vms: Vec<InventoryVm> = Vec::new();
    let mut i: usize = 0;
    assert(all.take(0).filter_map(entry) =~= Seq::<InventoryVmView>::empty());
    while i < items.len()
        invariant
            i <= items@.len(),
            all == views(items@),
            entry == |item: JsonView| inventory_entry(item),
            views(vms@) == all.take(i as int).filter_map(entry),
        decreases items@.len() - i,
    {
        let ghost before = views(vms@);
        proof {
            assert(all[i as int] == items@[i as int]@);
            all.lemma_filter_map_take_succ(entry, i as int);
        }
        match inventory_vm_from_value(&items[i]) {
            Some(vm) => {
                vms.push(vm);
                assert(views(vms@) =~= before + seq![vm@]);
            },
            None => {
                assert(before + Seq::<InventoryVmView>::empty() =~= before);
            },
        }
        i = i + 1;
    }
    assert(all.take(i as int) =~= all);
    vms
}

/// What a reply to a list request says.
pub open spec fn inventory_answer(value: JsonView) -> Result<InventoryView, WlErrorView> {
    match answer_of(value, "listResponse"@, "list"@, None) {
        Ok(answer) => Ok(
            InventoryView {
                vms: match answer.items_field("vms"@) {
                    Some(items) => inventory_entries(items),
                    None => Seq::empty(),
                },
            },
        ),
        Err(error) => Err(error),
    }
}

/// Reads a reply to a list request.
pub fn inventory_from_reply(value: &Json) -> (inventory: WlResult<Inventory>)
    ensures
        result_view(inventory) == inventory_answer(value@),
{
    let null = Json::Null;
    match response_payload(value, "listResponse", "list", None, &null) {
        Ok(answer) => {
            let vms = match answer.items_field("vms") {
                Some(items) => read_inventory(items),
                None => Vec::new(),
            };
            let inventory = Inventory { vms };
            assert(inventory@.vms =~= inventory_answer(value@)->Ok_0.vms);
            Ok(inventory)
        },
        Err(error) => Err(error),
    }
}

/// The state a lifecycle name gives.
pub open spec fn lifecycle_reading(name: Seq<char>) -> RuntimeState {
    if name == "Running"@ || name == "running"@ {
        RuntimeState::Running
    } else if name == "Starting"@ || name == "starting"@ || name == "Booted"@ || name == "booted"@
        || name == "Restarting"@ || name == "restarting"@ {
        RuntimeState::Starting
    } else if name == "Stopping"@ || name == "stopping"@ {
        RuntimeState::Stopping
    } else if name == "Stopped"@ || name == "stopped"@ {
        RuntimeState::Stopped
    } else {
        RuntimeState::Unknown
    }
}

/// The state a lifecycle name gives.
pub fn lifecycle_state(name: &str) -> (state: RuntimeState)
    ensures
        state == lifecycle_reading(name@),
{
    if same_text(name, "Running") || same_text(name, "running") {
        RuntimeState::Running
    } else if same_text(name, "Starting") || same_text(name, "starting") || same_text(
        name,
        "Booted",
    ) || same_text(name, "booted") || same_text(name, "Restarting") || same_text(
        name,
        "restarting",
    ) {
        RuntimeState::Starting
    } else if same_text(name, "Stopping") || same_text(name, "stopping") {
        RuntimeState::Stopping
    } else if same_text(name, "Stopped") || same_text(name, "stopped") {
        RuntimeState::Stopped
    } else {
        RuntimeState::Unknown
    }
}

/// The state an api-ready report gives: a text, or an object with an `error`
/// text. Other texts give none.
pub open spec fn api_ready_reading(value: JsonView) -> Option<RuntimeState> {
    let text = match value.text() {
        Some(text) => Some(text),
        None => value.text_field("error"@),
    };
    match text {
        Some(text) => if text == "yes"@ || text == "Yes"@ || text == "ready"@ || text == "Ready"@ {
            Some(RuntimeState::Running)
        } else if text == "pending"@ || text == "Pending"@ {
            Some(RuntimeState::Starting)
        } else if text == "timeout"@ || text == "Timeout"@ {
            Some(RuntimeState::Unknown)
        } else {
            None
        },
        None => None,
    }
}

/// The state an api-ready report gives.
pub fn api_ready_state(value: &Json) -> (state: Option<RuntimeState>)
    ensures
        state == api_ready_reading(value@),
{
    let text = match value.as_text() {
        Some(text) => Some(text.clone()),
        None => value.text_field("error"),
    };
    match text {
        Some(text) => {
            let text = text.as_str();
            if same_text(text, "yes") || same_text(text, "Yes") || same_text(text, "ready")
                || same_text(text, "Ready") {
                Some(RuntimeState::Running)
            } else if same_text(text, "pending") || same_text(text, "Pending") {
                Some(RuntimeState::Starting)
            } else if same_text(text, "timeout") || same_text(text, "Timeout") {
                Some(RuntimeState::Unknown)
            } else {
                None
            }
        },
        None => None,
    }
}

/// The state a free text gives, in any case of its letters.
pub open spec fn text_reading(text: Seq<char>) -> RuntimeState {
    let lower = lowered(text);
    if begins(lower, "running"@) {
        RuntimeState::Running
    } else if begins(lower, "starting"@) || begins(lower, "booted"@) || begins(lower, "restarting"@)
        || occurs(lower, "pending"@) {
        RuntimeState::Starting
    } else if begins(lower, "stopping"@) {
        RuntimeState::Stopping
    } else if begins(lower, "stopped"@) {
        RuntimeState::Stopped
    } else {
        RuntimeState::Unknown
    }
}

/// The state a free text gives, in any case of its letters.
pub fn text_state(text: &str) -> (state: RuntimeState)
    ensures
        state == text_reading(text@),
{
    let lower = lower_chars(text);
    if chars_begin(&lower, "running") {
        RuntimeState::Running
    } else if chars_begin(&lower, "starting") || chars_begin(&lower, "booted") || chars_begin(
        &lower,
        "restarting",
    ) || chars_contain(&lower, "pending") {
        RuntimeState::Starting
    } else if chars_begin(&lower, "stopping") {
        RuntimeState::Stopping
    } else if chars_begin(&lower, "stopped") {
        RuntimeState::Stopped
    } else {
        RuntimeState::Unknown
    }
}

/// The state of a service, held back by an api-ready report that is not
/// positive.
pub open spec fn service_reading(
    service: Seq<char>,
    api_ready: Option<JsonView>,
) -> RuntimeState {
    if text_reading(service) == RuntimeState::Running {
        match api_ready {
            Some(report) => match api_ready_reading(report) {
                Some(RuntimeState::Starting) => RuntimeState::Starting,
                Some(RuntimeState::Unknown) => RuntimeState::Unknown,
                _ => RuntimeState::Running,
            },
            None => RuntimeState::Running,
        }
    } else {
        text_reading(service)
    }
}

/// The state of a service, held back by an api-ready report.
pub fn service_state(service: &str, api_ready: Option<&Json>) -> (state: RuntimeState)
    ensures
        state == service_reading(service@, opt_view(api_ready)),
{
    let state = text_state(service);
    if state == RuntimeState::Running {
        let reported = match api_ready {
            Some(report) => api_ready_state(report),
            None => None,
        };
        match reported {
            Some(RuntimeState::Starting) => RuntimeState::Starting,
            Some(RuntimeState::Unknown) => RuntimeState::Unknown,
            _ => RuntimeState::Running,
        }
    } else {
        state
    }
}

/// The api-ready report of an entry, under either of its names.
pub open spec fn api_ready_report(value: JsonView) -> Option<JsonView> {
    match value.field("apiReady"@) {
        Some(report) => Some(report),
        None => value.field("api_ready"@),
    }
}

/// The name of the service that runs a VM.
pub open spec fn vm_service(value: JsonView) -> Option<Seq<char>> {
    match value.field("services"@) {
        Some(services) => match services.text_field_or("microvm"@, "ch"@) {
            Some(service) => Some(service),
            None => services.text_field("cloudHypervisor"@),
        },
        None => None,
    }
}

/// The state a status entry gives: by its lifecycle, or else by its api-ready
/// report, or else by its service, or else by its runtime text.
pub open spec fn status_reading(value: JsonView) -> RuntimeState {
    let reported = match api_ready_report(value) {
        Some(report) => api_ready_reading(report),
        None => None,
    };
    if lifecycle_name(value) is Some {
        lifecycle_reading(lifecycle_name(value)->Some_0)
    } else if reported is Some {
        reported->Some_0
    } else if vm_service(value) is Some {
        service_reading(vm_service(value)->Some_0, api_ready_report(value))
    } else {
        match runtime_description(value) {
            Some(text) => text_reading(text),
            None => RuntimeState::Unknown,
        }
    }
}

/// The state a status entry gives.
pub fn state_from_status(value: &Json) -> (state: RuntimeState)
    ensures
        state == status_reading(value@),
{
    if let Some(name) = lifecycle_text(value) {
        return lifecycle_state(name.as_str());
    }
    let api_ready = match value.get("apiReady") {
        Some(report) => Some(report),
        None => value.get("api_ready"),
    };
    if let Some(report) = api_ready {
        if let Some(state) = api_ready_state(report) {
            return state;
        }
    }
    if let Some(services) = value.get("services") {
        let service = match services.text_field_or("microvm", "ch") {
            Some(service) => Some(service),
            None => services.text_field("cloudHypervisor"),
        };
        if let Some(service) = service {
            return service_state(service.as_str(), api_ready);
        }
    }
    match runtime_text(value) {
        Some(text) => text_state(text.as_str()),
        None => RuntimeState::Unknown,
    }
}

/// The texts in a list.
pub open spec fn texts_of(items: Seq<JsonView>) -> Seq<Seq<char>> {
    items.filter_map(|item: JsonView| item.text())
}

fn read_texts(items: &Vec<Json>) -> (texts: Vec<String>)
    ensures
        views(texts@) == texts_of(views(items@)),
{
    let ghost all = views(items@);
    let ghost text = |item: JsonView| item.text();
    let mut texts: Vec<String> = Vec::new();
    let mut i: usize = 0;
    assert(all.take(0).filter_map(text) =~= Seq::<Seq<char>>::empty());
    while i < items.len()
        invariant
            i <= items@.len(),
            all == views(items@),
            text == |item: JsonView| item.text(),
            views(texts@) == all.take(i as int).filter_map(text),
        decreases items@.len() - i,
    {
        let ghost before = views(texts@);
        proof {
            assert(all[i as int] == items@[i as int]@);
            all.lemma_filter_map_take_succ(text, i as int);
        }
        match items[i].as_text() {
            Some(found) => {
                texts.push(found.clone());
                assert(views(texts@) =~= before + seq![found@]);
            },
            None => {
                assert(before + Seq::<Seq<char>>::empty() =~= before);
            },
        }
        i = i + 1;
    }
    assert(all.take(i as int) =~= all);
    texts
}

/// The list of entries in a status answer, under either of its names.
pub open spec fn status_entries(answer: JsonView) -> Option<Seq<JsonView>> {
    match answer.items_field("entries"@) {
        Some(items) => Some(items),
        None => answer.items_field("vms"@),
    }
}

/// The part of a status answer that is about a VM: of a list the entry that
/// names it, or else the first; otherwise the `vm` object, or else the answer.
pub open spec fn status_entry(answer: JsonView, vm: Seq<char>) -> Option<JsonView> {
    match status_entries(answer) {
        Some(items) => match first_where(
            items,
            |item: JsonView| item.text_field_or("name"@, "vm"@) == Some(vm),
        ) {
            Some(entry) => Some(entry),
            None => if items.len() > 0 {
                Some(items[0])
            } else {
                None
            },
        },
        None => match answer.field("vm"@) {
            Some(JsonView::Object(members)) => Some(JsonView::Object(members)),
            _ => Some(answer),
        },
    }
}

fn find_status_entry<'a>(answer: &'a Json, vm: &str) -> (entry: Option<&'a Json>)
    ensures
        match entry {
            Some(found) => status_entry(answer@, vm@) == Some(found@),
            None => status_entry(answer@, vm@) is None,
        },
{
    let items = match answer.items_field("entries") {
        Some(items) => Some(items),
        None => answer.items_field("vms"),
    };
    if let Some(items) = items {
        let ghost all = views(items@);
        let ghost wanted = |item: JsonView| item.text_field_or("name"@, "vm"@) == Some(vm@);
        let mut i: usize = 0;
        while i < items.len()
            invariant
                i <= items@.len(),
                all == views(items@),
                status_entries(answer@) == Some(all),
                wanted == |item: JsonView| item.text_field_or("name"@, "vm"@) == Some(vm@),
                forall|k: int| 0 <= k < i ==> !wanted(#[trigger] all[k]),
            decreases items@.len() - i,
        {
            assert(all[i as int] == items@[i as int]@);
            if let Some(name) = items[i].text_field_or("name", "vm") {
                if same_text(name.as_str(), vm) {
                    proof {
                        lemma_first_where_at(all, wanted, i as int);
                    }
                    return Some(&items[i]);
                }
            }
            i = i + 1;
        }
        proof {
            lemma_first_where_none(all, wanted);
        }
        return if items.len() > 0 {
            assert(all[0] == items@[0]@);
            Some(&items[0])
        } else {
            None
        };
    }
    match answer.get("vm") {
        Some(member) => match member {
            Json::Object(_) => Some(member),
            _ => Some(answer),
        },
        None => Some(answer),
    }
}

/// The status that an entry gives of a VM.
pub open spec fn entry_status(entry: JsonView, vm: Seq<char>) -> VmStatusView {
    VmStatusView {
        name: match entry.text_field_or("name"@, "vm"@) {
            Some(name) => name,
            None => vm,
        },
        state: status_reading(entry),
        pending_restart: match entry.flag_field_or("pendingRestart"@, "pending_restart"@) {
            Some(flag) => flag,
            None => match entry.field("lifecycle"@) {
                Some(lifecycle) => lifecycle.flag_field("pendingRestart"@) == Some(true),
                None => false,
            },
        },
        readiness: match entry.items_field("readiness"@) {
            Some(items) => texts_of(items),
            None => Seq::empty(),
        },
        capabilities: reported_capabilities(entry),
    }
}

/// The status that an answer gives of a VM.
pub open spec fn answered_status(answer: JsonView, vm: Seq<char>) -> Option<VmStatusView> {
    match status_entry(answer, vm) {
        Some(entry) => Some(entry_status(entry, vm)),
        None => None,
    }
}

fn read_entry_status(entry: &Json, vm: &str) -> (status: VmStatus)
    ensures
        status@ == entry_status(entry@, vm@),
{
    let name = match entry.text_field_or("name", "vm") {
        Some(name) => name,
        None => vm.to_owned(),
    };
    let pending_restart = match entry.flag_field_or("pendingRestart", "pending_restart") {
        Some(flag) => flag,
        None => match entry.get("lifecycle") {
            Some(lifecycle) => match lifecycle.flag_field("pendingRestart") {
                Some(flag) => flag,
                None => false,
            },
            None => false,
        },
    };
    let readiness: Vec<String> = match entry.items_field("readiness") {
        Some(items) => read_texts(items),
        None => Vec::new(),
    };
    let status = VmStatus {
        name,
        state: state_from_status(entry),
        pending_restart,
        readiness,
        capabilities: capabilities_from_value(entry),
    };
    assert(status@.readiness =~= entry_status(entry@, vm@).readiness);
    status
}

/// Reads the status that an answer gives of a VM.
pub fn status_from_payload(answer: &Json, vm: &str) -> (status: Option<VmStatus>)
    ensures
        opt_view(status) == answered_status(answer@, vm@),
{
    match find_status_entry(answer, vm) {
        Some(entry) => Some(read_entry_status(entry, vm)),
        None => None,
    }
}

/// What a reply to a status request says.
pub open spec fn status_answer(value: JsonView, vm: Seq<char>) -> Result<
    VmStatusView,
    WlErrorView,
> {
    match answer_of(value, "statusResponse"@, "status"@, Some("status"@)) {
        Ok(answer) => match answered_status(answer, vm) {
            Some(status) => Ok(status),
            None => Err(
                WlErrorView::Protocol(
                    "status response did not contain an entry for VM '"@ + vm + "'"@,
                ),
            ),
        },
        Err(error) => Err(error),
    }
}

/// Reads a reply to a status request.
pub fn status_from_reply(value: &Json, vm: &str) -> (status: WlResult<VmStatus>)
    ensures
        result_view(status) == status_answer(value@, vm@),
{
    let null = Json::Null;
    match response_payload(value, "statusResponse", "status", Some("status"), &null) {
        Ok(answer) => match status_from_payload(answer, vm) {
            Some(status) => Ok(status),
            None => {
                let mut text = "status response did not contain an entry for VM '".to_owned();
                text.append(vm);
                text.append("'");
                Err(WlError::Protocol(text))
            },
        },
        Err(error) => Err(error),
    }
}

/// The outcome of a mutating request as the daemon reports it.
pub struct MutatingVerbResponse {
    pub verb: String,
    pub outcome: String,
    pub target_wave: Option<String>,
    pub summary: Option<String>,
    pub remediation: Option<String>,
}

/// The mathematical form of [`MutatingVerbResponse`].
pub struct MutatingVerbResponseView {
    pub verb: Seq<char>,
    pub outcome: Seq<char>,
    pub target_wave: Option<Seq<char>>,
    pub summary: Option<Seq<char>>,
    pub remediation: Option<Seq<char>>,
}

impl View for MutatingVerbResponse {
    type V = MutatingVerbResponseView;

    open spec fn view(&self) -> MutatingVerbResponseView {
        MutatingVerbResponseView {
            verb: self.verb@,
            outcome: self.outcome@,
            target_wave: opt_view(self.target_wave),
            summary: opt_view(self.summary),
            remediation: opt_view(self.remediation),
        }
    }
}

/// The outcome that a document describes, as an object or as an array of verb,
/// outcome, target wave, summary and remediation: verb and outcome are strings, and
/// all else it gives is of the right type. What follows the outcome may be left out
/// of an array.
pub open spec fn described_outcome(value: JsonView) -> Option<MutatingVerbResponseView> {
    let verb = value.part("verb"@, 0);
    let outcome = value.part("outcome"@, 1);
    let target_wave = value.part("targetWave"@, 2);
    let summary = value.part("summary"@, 3);
    let remediation = value.part("remediation"@, 4);
    if value.within(5) && part_text(verb) is Some && part_text(outcome) is Some
        && optional_text_fits(target_wave) && optional_text_fits(summary) && optional_text_fits(
        remediation,
    ) {
        Some(
            MutatingVerbResponseView {
                verb: part_text(verb)->Some_0,
                outcome: part_text(outcome)->Some_0,
                target_wave: part_text(target_wave),
                summary: part_text(summary),
                remediation: part_text(remediation),
            },
        )
    } else {
        None
    }
}

/// Reads the outcome that a document describes.
pub fn parse_mutating_response(value: &Json) -> (response: Option<MutatingVerbResponse>)
    ensures
        opt_view(response) == described_outcome(value@),
{
    if !value.is_within(5) {
        return None;
    }
    let target_wave = value.part("targetWave", 2);
    let summary = value.part("summary", 3);
    let remediation = value.part("remediation", 4);
    match (read_text(value.part("verb", 0)), read_text(value.part("outcome", 1))) {
        (Some(verb), Some(outcome)) => if text_or_null(target_wave) && text_or_null(summary)
            && text_or_null(remediation) {
            Some(
                MutatingVerbResponse {
                    verb,
                    outcome,
                    target_wave: read_text(target_wave),
                    summary: read_text(summary),
                    remediation: read_text(remediation),
                },
            )
        } else {
            None
        },
        _ => None,
    }
}

/// The text of an optional part, with what stands around it.
pub open spec fn optional_part(
    before: Seq<char>,
    part: Option<Seq<char>>,
    after: Seq<char>,
) -> Seq<char> {
    match part {
        Some(text) => before + text + after,
        None => Seq::empty(),
    }
}

/// What is said of an outcome that is not `applied`.
pub open spec fn failure_text(response: MutatingVerbResponseView) -> Seq<char> {
    response.verb + " returned "@ + response.outcome + optional_part(
        ": "@,
        response.summary,
        Seq::empty(),
    ) + optional_part(" (target wave "@, response.target_wave, ")"@) + optional_part(
        "; "@,
        response.remediation,
        Seq::empty(),
    )
}

impl MutatingVerbResponse {
    /// What is said of an outcome that is not `applied`.
    pub fn failure_message(&self) -> (text: String)
        ensures
            text@ == failure_text(self@),
    {
        let mut text = self.verb.clone();
        text.append(" returned ");
        text.append(self.outcome.as_str());
        let ghost start = text@;
        if let Some(summary) = &self.summary {
            text.append(": ");
            text.append(summary.as_str());
        }
        let ghost first = optional_part(": "@, self@.summary, Seq::empty());
        assert(text@ =~= start + first);
        if let Some(target_wave) = &self.target_wave {
            text.append(" (target wave ");
            text.append(target_wave.as_str());
            text.append(")");
        }
        let ghost second = optional_part(" (target wave "@, self@.target_wave, ")"@);
        assert(text@ =~= start + first + second);
        if let Some(remediation) = &self.remediation {
            text.append("; ");
            text.append(remediation.as_str());
        }
        assert(text@ =~= failure_text(self@));
        text
    }
}

/// What an outcome is to the client. Only `applied` is a success.
pub open spec fn outcome_verdict(response: MutatingVerbResponseView) -> Result<
    Seq<char>,
    WlErrorView,
> {
    if response.outcome == "applied"@ {
        match response.summary {
            Some(summary) => Ok(summary),
            None => Ok(response.verb + " "@ + response.outcome),
        }
    } else if response.outcome == "api-ready-timeout"@ {
        Err(WlErrorView::Timeout(failure_text(response)))
    } else if response.outcome == "invalid-request"@ {
        Err(WlErrorView::Protocol(failure_text(response)))
    } else if response.outcome == "dry-run-planned"@ || response.outcome == "not-yet-implemented"@
        || response.outcome == "broker-error"@ {
        Err(WlErrorView::Nixling(failure_text(response)))
    } else {
        Err(
            WlErrorView::Protocol(
                "unknown mutating verb outcome '"@ + response.outcome + "'"@,
            ),
        )
    }
}

impl MutatingVerbResponse {
    /// The summary of an applied request, or the error that another outcome is.
    pub fn into_summary(self) -> (summary: WlResult<String>)
        ensures
            result_view(summary) == outcome_verdict(self@),
    {
        let outcome = self.outcome.as_str();
        if same_text(outcome, "applied") {
            match self.summary {
                Some(summary) => Ok(summary),
                None => {
                    let mut text = self.verb.clone();
                    text.append(" ");
                    text.append(self.outcome.as_str());
                    Ok(text)
                },
            }
        } else if same_text(outcome, "api-ready-timeout") {
            Err(WlError::Timeout(self.failure_message()))
        } else if same_text(outcome, "invalid-request") {
            Err(WlError::Protocol(self.failure_message()))
        } else if same_text(outcome, "dry-run-planned") || same_text(outcome, "not-yet-implemented")
            || same_text(outcome, "broker-error") {
            Err(WlError::Nixling(self.failure_message()))
        } else {
            let mut text = "unknown mutating verb outcome '".to_owned();
            text.append(outcome);
            text.append("'");
            Err(WlError::Protocol(text))
        }
    }
}

/// What a reply to a mutating request says.
pub open spec fn mutation_answer(value: JsonView) -> Result<Seq<char>, WlErrorView> {
    match answer_of(value, "mutatingVerbResponse"@, "mutating verb"@, None) {
        Ok(answer) => match described_outcome(answer) {
            Some(response) => outcome_verdict(response),
            None => Err(WlErrorView::Protocol("malformed mutatingVerbResponse"@)),
        },
        Err(error) => Err(error),
    }
}

/// Reads a reply to a mutating request: the summary of what was applied.
pub fn mutation_from_reply(value: &Json) -> (summary: WlResult<String>)
    ensures
        result_view(summary) == mutation_answer(value@),
{
    let null = Json::Null;
    match response_payload(value, "mutatingVerbResponse", "mutating verb", None, &null) {
        Ok(answer) => match parse_mutating_response(answer) {
            Some(response) => response.into_summary(),
            None => Err(WlError::Protocol("malformed mutatingVerbResponse".to_owned())),
        },
        Err(error) => Err(error),
    }
}

/// The counter that a part is: zero where there is none, nothing where the part is
/// not a number of 32 bits.
pub open spec fn counter(part: Option<JsonView>) -> Option<u64> {
    match part {
        Some(JsonView::Unsigned(number)) => if number <= u32::MAX {
            Some(number)
        } else {
            None
        },
        Some(_) => None,
        None => Some(0u64),
    }
}

fn read_counter(part: Option<&Json>) -> (number: Option<u64>)
    ensures
        number == counter(part_view(part)),
{
    match part {
        Some(value) => match value {
            Json::Unsigned(number) => if *number <= u32::MAX as u64 {
                Some(*number)
            } else {
                None
            },
            _ => None,
        },
        None => Some(0),
    }
}

/// The summary of a store verification, which is an object or an array of VM,
/// status and the counts of checked, drifted and repaired paths. What follows the
/// status may be left out of an array.
pub open spec fn store_summary(answer: JsonView) -> Option<Seq<char>> {
    let vm = part_text(answer.part("vm"@, 0));
    let status = part_text(answer.part("status"@, 1));
    let checked = counter(answer.part("checked"@, 2));
    let drifted = counter(answer.part("drifted"@, 3));
    let repaired = counter(answer.part("repaired"@, 4));
    if answer.within(5) && vm is Some && status is Some && checked is Some && drifted is Some
        && repaired is Some {
        Some(
            "store verify "@ + vm->Some_0 + ": status="@ + status->Some_0 + " checked="@ + decimal(
                checked->Some_0 as nat,
            ) + " drifted="@ + decimal(drifted->Some_0 as nat) + " repaired="@ + decimal(
                repaired->Some_0 as nat,
            ),
        )
    } else {
        None
    }
}

/// What a reply to a store verification says.
pub open spec fn store_answer(value: JsonView) -> Result<Seq<char>, WlErrorView> {
    match answer_of(value, "storeVerifyResponse"@, "store verify"@, None) {
        Ok(answer) => match store_summary(answer) {
            Some(summary) => Ok(summary),
            None => Err(WlErrorView::Protocol("malformed storeVerifyResponse"@)),
        },
        Err(error) => Err(error),
    }
}

fn summarize_store(answer: &Json) -> (summary: Option<String>)
    ensures
        opt_view(summary) == store_summary(answer@),
{
    if !answer.is_within(5) {
        return None;
    }
    match (read_text(answer.part("vm", 0)), read_text(answer.part("status", 1))) {
        (Some(vm), Some(status)) => match (
            read_counter(answer.part("checked", 2)),
            read_counter(answer.part("drifted", 3)),
            read_counter(answer.part("repaired", 4)),
        ) {
            (Some(checked), Some(drifted), Some(repaired)) => {
                let mut text = "store verify ".to_owned();
                text.append(vm.as_str());
                text.append(": status=");
                text.append(status.as_str());
                text.append(" checked=");
                text.append(decimal_text(checked).as_str());
                text.append(" drifted=");
                text.append(decimal_text(drifted).as_str());
                text.append(" repaired=");
                text.append(decimal_text(repaired).as_str());
                Some(text)
            },
            _ => None,
        },
        _ => None,
    }
}

/// Reads a reply to a store verification: its summary.
pub fn parse_store_verify(value: &Json) -> (summary: WlResult<String>)
    ensures
        result_view(summary) == store_answer(value@),
{
    let null = Json::Null;
    match response_payload(value, "storeVerifyResponse", "store verify", None, &null) {
        Ok(answer) => match summarize_store(answer) {
            Some(summary) => Ok(summary),
            None => Err(WlError::Protocol("malformed storeVerifyResponse".to_owned())),
        },
        Err(error) => Err(error),
    }
}

/// The USB claim that a document describes, if it names VM, environment and
/// busid.
pub open spec fn claim_entry(value: JsonView) -> Option<UsbClaimView> {
    if value.text_field("vm"@) is Some && value.text_field("env"@) is Some && value.text_field_or(
        "busId"@,
        "bus_id"@,
    ) is Some {
        Some(
            UsbClaimView {
                vm: value.text_field("vm"@)->Some_0,
                env: value.text_field("env"@)->Some_0,
                bus_id: value.text_field_or("busId"@, "bus_id"@)->Some_0,
                bound: match value.flag_field("bound"@) {
                    Some(flag) => flag,
                    None => value.text_field("status"@) == Some("bound"@),
                },
                owner_vm: value.text_field_or("ownerVm"@, "owner_vm"@),
            },
        )
    } else {
        None
    }
}

/// Reads one USB claim.
pub fn usb_claim_from_value(value: &Json) -> (claim: Option<UsbClaim>)
    ensures
        opt_view(claim) == claim_entry(value@),
{
    match (
        value.text_field("vm"),
        value.text_field("env"),
        value.text_field_or("busId", "bus_id"),
    ) {
        (Some(vm), Some(env), Some(bus_id)) => {
            let bound = match value.flag_field("bound") {
                Some(flag) => flag,
                None => text_field_is(value, "status", "bound"),
            };
            Some(
                UsbClaim {
                    vm,
                    env,
                    bus_id,
                    bound,
                    owner_vm: value.text_field_or("ownerVm", "owner_vm"),
                },
            )
        },
        _ => None,
    }
}

/// The claims that a list of documents describes.
pub open spec fn claim_entries(items: Seq<JsonView>) -> Seq<UsbClaimView> {
    items.filter_map(|item: JsonView| claim_entry(item))
}

fn read_claims(items: &Vec<Json>) -> (claims: Vec<UsbClaim>)
    ensures
        views(claims@) == claim_entries(views(items@)),
{
    let ghost all = views(items@);
    let ghost entry = |item: JsonView| claim_entry(item);
    let mut claims: Vec<UsbClaim> = Vec::new();
    let mut i: usize = 0;
    assert(all.take(0).filter_map(entry) =~= Seq::<UsbClaimView>::empty());
    while i < items.len()
        invariant
            i <= items@.len(),
            all == views(items@),
            entry == |item: JsonView| claim_entry(item),
            views(claims@) == all.take(i as int).filter_map(entry),
        decreases items@.len() - i,
    {
        let ghost before = views(claims@);
        proof {
            assert(all[i as int] == items@[i as int]@);
            all.lemma_filter_map_take_succ(entry, i as int);
        }
        match usb_claim_from_value(&items[i]) {
            Some(claim) => {
                claims.push(claim);
                assert(views(claims@) =~= before + seq![claim@]);
            },
            None => {
                assert(before + Seq::<UsbClaimView>::empty() =~= before);
            },
        }
        i = i + 1;
    }
    assert(all.take(i as int) =~= all);
    claims
}

/// What a reply to a USB probe says. A daemon that cannot probe answers with the
/// outcome of a failed request, which is then the error.
pub open spec fn probe_answer(value: JsonView) -> Result<UsbProbeView, WlErrorView> {
    if value.text_field("type"@) == Some("mutatingVerbResponse"@) && mutation_answer(value) is Err {
        Err(mutation_answer(value)->Err_0)
    } else {
        match answer_of(value, "usbipProbeResponse"@, "usb probe"@, None) {
            Ok(answer) => Ok(
                UsbProbeView {
                    claims: match answer.items_field("entries"@) {
                        Some(items) => claim_entries(items),
                        None => Seq::empty(),
                    },
                },
            ),
            Err(error) => Err(error),
        }
    }
}

/// Reads a reply to a USB probe.
pub fn usb_probe_from_reply(value: &Json) -> (probe: WlResult<UsbProbe>)
    ensures
        result_view(probe) == probe_answer(value@),
{
    if text_field_is(value, "type", "mutatingVerbResponse") {
        if let Err(error) = mutation_from_reply(value) {
            return Err(error);
        }
    }
    let null = Json::Null;
    match response_payload(value, "usbipProbeResponse", "usb probe", None, &null) {
        Ok(answer) => {
            let claims = match answer.items_field("entries") {
                Some(items) => read_claims(items),
                None => Vec::new(),
            };
            let probe = UsbProbe { claims };
            assert(probe@.claims =~= probe_answer(value@)->Ok_0.claims);
            Ok(probe)
        },
        Err(error) => Err(error),
    }
}

/// The status that an entry gives of the VM it names.
pub open spec fn named_status(entry: JsonView) -> Option<VmStatusView> {
    match entry.text_field_or("name"@, "vm"@) {
        Some(name) => Some(entry_status(entry, name)),
        None => None,
    }
}

/// The statuses that some entries give.
pub open spec fn named_statuses(items: Seq<JsonView>) -> Seq<VmStatusView> {
    items.filter_map(|item: JsonView| named_status(item))
}

fn read_statuses(items: &Vec<Json>) -> (statuses: Vec<VmStatus>)
    ensures
        views(statuses@) == named_statuses(views(items@)),
{
    let ghost all = views(items@);
    let ghost entry = |item: JsonView| named_status(item);
    let mut statuses: Vec<VmStatus> = Vec::new();
    let mut i: usize = 0;
    assert(all.take(0).filter_map(entry) =~= Seq::<VmStatusView>::empty());
    while i < items.len()
        invariant
            i <= items@.len(),
            all == views(items@),
            entry == |item: JsonView| named_status(item),
            views(statuses@) == all.take(i as int).filter_map(entry),
        decreases items@.len() - i,
    {
        let ghost before = views(statuses@);
        proof {
            assert(all[i as int] == items@[i as int]@);
            all.lemma_filter_map_take_succ(entry, i as int);
        }
        match items[i].text_field_or("name", "vm") {
            Some(name) => {
                let status = read_entry_status(&items[i], name.as_str());
                statuses.push(status);
                assert(views(statuses@) =~= before + seq![status@]);
            },
            None => {
                assert(before + Seq::<VmStatusView>::empty() =~= before);
            },
        }
        i = i + 1;
    }
    assert(all.take(i as int) =~= all);
    statuses
}

/// The claims that an entry lists under `usb`.
pub open spec fn entry_claims(entry: JsonView) -> Seq<UsbClaimView> {
    match entry.field("usb"@) {
        Some(usb) => match usb.items_field("entries"@) {
            Some(items) => claim_entries(items),
            None => Seq::empty(),
        },
        None => Seq::empty(),
    }
}

/// The claims that some entries list, one entry after the other.
pub open spec fn listed_claims(items: Seq<JsonView>) -> Seq<UsbClaimView>
    decreases items.len(),
{
    if items.len() == 0 {
        Seq::empty()
    } else {
        listed_claims(items.drop_last()) + entry_claims(items.last())
    }
}

fn read_entry_claims(entry: &Json) -> (claims: Vec<UsbClaim>)
    ensures
        views(claims@) == entry_claims(entry@),
{
    let none: Vec<UsbClaim> = Vec::new();
    assert(views(none@) =~= Seq::<UsbClaimView>::empty());
    match entry.get("usb") {
        Some(usb) => match usb.items_field("entries") {
            Some(items) => read_claims(items),
            None => none,
        },
        None => none,
    }
}

fn read_listed_claims(items: &Vec<Json>) -> (claims: Vec<UsbClaim>)
    ensures
        views(claims@) == listed_claims(views(items@)),
{
    let ghost all = views(items@);
    let mut claims: Vec<UsbClaim> = Vec::new();
    let mut i: usize = 0;
    assert(views(claims@) =~= listed_claims(all.take(0)));
    while i < items.len()
        invariant
            i <= items@.len(),
            all == views(items@),
            views(claims@) == listed_claims(all.take(i as int)),
        decreases items@.len() - i,
    {
        let ghost before = views(claims@);
        let mut added = read_entry_claims(&items[i]);
        let ghost more = views(added@);
        claims.append(&mut added);
        proof {
            let next = all.take(i + 1);
            assert(next.drop_last() =~= all.take(i as int));
            assert(next.last() == items@[i as int]@);
            assert(views(claims@) =~= before + more);
        }
        i = i + 1;
    }
    assert(all.take(i as int) =~= all);
    claims
}

/// What a reply to a request for all statuses says: the declared VMs, their
/// statuses and their USB claims.
pub open spec fn model_answer(value: JsonView) -> Result<StatusModelView, WlErrorView> {
    match answer_of(value, "statusResponse"@, "status"@, Some("status"@)) {
        Ok(answer) => match status_entries(answer) {
            Some(items) => Ok(
                StatusModelView {
                    inventory: InventoryView { vms: inventory_entries(items) },
                    statuses: named_statuses(items),
                    usb: UsbProbeView { claims: listed_claims(items) },
                },
            ),
            None => Err(WlErrorView::Protocol("status response did not contain VM entries"@)),
        },
        Err(error) => Err(error),
    }
}

/// Reads a reply to a request for all statuses.
pub fn status_model_from_reply(value: &Json) -> (model: WlResult<StatusModel>)
    ensures
        result_view(model) == model_answer(value@),
{
    let null = Json::Null;
    let answer = match response_payload(value, "statusResponse", "status", Some("status"), &null) {
        Ok(answer) => answer,
        Err(error) => {
            return Err(error);
        },
    };
    let items = match answer.items_field("entries") {
        Some(items) => Some(items),
        None => answer.items_field("vms"),
    };
    match items {
        Some(items) => Ok(
            StatusModel {
                inventory: Inventory { vms: read_inventory(items) },
                statuses: read_statuses(items),
                usb: UsbProbe { claims: read_listed_claims(items) },
            },
        ),
        None => Err(WlError::Protocol("status response did not contain VM entries".to_owned())),
    }
}

proof fn lemma_same_names(items: Seq<JsonView>)
    ensures
        inventory_entries(items).len() == named_statuses(items).len(),
        forall|i: int|
            0 <= i < inventory_entries(items).len() ==> (#[trigger] inventory_entries(
                items,
            )[i]).name == named_statuses(items)[i].name,
    decreases items.len(),
{
    reveal(Seq::filter_map);
    if items.len() > 0 {
        lemma_same_names(items.drop_last());
    }
}

/// An answer about all VMs gives a status for each VM it declares, in the same
/// order.
pub proof fn law_model_gives_every_status(value: JsonView)
    requires
        model_answer(value) is Ok,
    ensures
        ({
            let model = model_answer(value)->Ok_0;
            &&& model.inventory.vms.len() == model.statuses.len()
            &&& forall|i: int|
                0 <= i < model.statuses.len() ==> (#[trigger] model.statuses[i]).name
                    == model.inventory.vms[i].name
        }),
{
    let answer = answer_of(value, "statusResponse"@, "status"@, Some("status"@));
    lemma_same_names(status_entries(answer->Ok_0)->Some_0);
}

/// The state of an audio channel that a document describes, if it says whether
/// the channel is muted.
pub open spec fn channel_entry(value: JsonView) -> Option<AudioChannelState> {
    match value.flag_field("muted"@) {
        Some(muted) => Some(
            AudioChannelState {
                level: if optional_code_fits(value.field("level"@)) {
                    part_code(value.field("level"@))
                } else {
                    None
                },
                muted,
            },
        ),
        None => None,
    }
}

fn channel_from_value(value: &Json) -> (channel: Option<AudioChannelState>)
    ensures
        channel == channel_entry(value@),
{
    match value.flag_field("muted") {
        Some(muted) => {
            let level = match code_or_null(value.get("level")) {
                Ok(level) => level,
                Err(()) => None,
            };
            Some(AudioChannelState { level, muted })
        },
        None => None,
    }
}

/// The state of the audio channel under a name.
pub open spec fn channel_field(value: JsonView, name: Seq<char>) -> Option<AudioChannelState> {
    match value.field(name) {
        Some(member) => channel_entry(member),
        None => None,
    }
}

fn read_channel(value: &Json, name: &str) -> (channel: Option<AudioChannelState>)
    ensures
        channel == channel_field(value@, name@),
{
    match value.get(name) {
        Some(member) => channel_from_value(member),
        None => None,
    }
}

/// The audio state that a document describes, if it names the VM and both
/// channels.
pub open spec fn audio_entry(value: JsonView) -> Option<AudioStatusEntryView> {
    if value.text_field("vm"@) is Some && channel_field(value, "speaker"@) is Some
        && channel_field(value, "microphone"@) is Some {
        Some(
            AudioStatusEntryView {
                vm: value.text_field("vm"@)->Some_0,
                audio: VmAudioStateView {
                    speaker: channel_field(value, "speaker"@)->Some_0,
                    microphone: channel_field(value, "microphone"@)->Some_0,
                    provider_kind: value.text_field("providerKind"@),
                    enforcement: match value.text_field("enforcement"@) {
                        Some(enforcement) => enforcement,
                        None => "unknown"@,
                    },
                    error_kind: value.text_field("errorKind"@),
                    remediation: value.text_field("remediation"@),
                },
            },
        )
    } else {
        None
    }
}

fn audio_entry_from_value(value: &Json) -> (entry: Option<AudioStatusEntry>)
    ensures
        opt_view(entry) == audio_entry(value@),
{
    match (
        value.text_field("vm"),
        read_channel(value, "speaker"),
        read_channel(value, "microphone"),
    ) {
        (Some(vm), Some(speaker), Some(microphone)) => {
            let enforcement = match value.text_field("enforcement") {
                Some(enforcement) => enforcement,
                None => "unknown".to_owned(),
            };
            Some(
                AudioStatusEntry {
                    vm,
                    audio: VmAudioState {
                        speaker,
                        microphone,
                        provider_kind: value.text_field("providerKind"),
                        enforcement,
                        error_kind: value.text_field("errorKind"),
                        remediation: value.text_field("remediation"),
                    },
                },
            )
        },
        _ => None,
    }
}

/// The audio failure that a document describes, if it names VM and kind.
pub open spec fn audio_failure(value: JsonView) -> Option<AudioStatusErrorView> {
    if value.text_field("vm"@) is Some && value.text_field("kind"@) is Some {
        Some(
            AudioStatusErrorView {
                vm: value.text_field("vm"@)->Some_0,
                kind: value.text_field("kind"@)->Some_0,
                remediation: value.text_field("remediation"@),
            },
        )
    } else {
        None
    }
}

fn audio_failure_from_value(value: &Json) -> (failure: Option<AudioStatusError>)
    ensures
        opt_view(failure) == audio_failure(value@),
{
    match (value.text_field("vm"), value.text_field("kind")) {
        (Some(vm), Some(kind)) => Some(
            AudioStatusError { vm, kind, remediation: value.text_field("remediation") },
        ),
        _ => None,
    }
}

/// The audio states in an audio status answer.
pub open spec fn audio_entries(answer: JsonView) -> Seq<AudioStatusEntryView> {
    match answer.items_field("entries"@) {
        Some(items) => items.filter_map(|item: JsonView| audio_entry(item)),
        None => Seq::empty(),
    }
}

/// The audio failures in an audio status answer.
pub open spec fn audio_failures(answer: JsonView) -> Seq<AudioStatusErrorView> {
    match answer.items_field("errors"@) {
        Some(items) => items.filter_map(|item: JsonView| audio_failure(item)),
        None => Seq::empty(),
    }
}

fn read_audio_entries(answer: &Json) -> (entries: Vec<AudioStatusEntry>)
    ensures
        views(entries@) == audio_entries(answer@),
{
    let mut entries: Vec<AudioStatusEntry> = Vec::new();
    if let Some(items) = answer.items_field("entries") {
        let ghost all = views(items@);
        let ghost entry = |item: JsonView| audio_entry(item);
        let mut i: usize = 0;
        assert(all.take(0).filter_map(entry) =~= Seq::<AudioStatusEntryView>::empty());
        assert(views(entries@) =~= Seq::<AudioStatusEntryView>::empty());
        while i < items.len()
            invariant
                i <= items@.len(),
                all == views(items@),
                entry == |item: JsonView| audio_entry(item),
                views(entries@) == all.take(i as int).filter_map(entry),
            decreases items@.len() - i,
        {
            let ghost before = views(entries@);
            proof {
                assert(all[i as int] == items@[i as int]@);
                all.lemma_filter_map_take_succ(entry, i as int);
            }
            match audio_entry_from_value(&items[i]) {
                Some(found) => {
                    entries.push(found);
                    assert(views(entries@) =~= before + seq![found@]);
                },
                None => {
                    assert(before + Seq::<AudioStatusEntryView>::empty() =~= before);
                },
            }
            i = i + 1;
        }
        assert(all.take(i as int) =~= all);
    }
    assert(views(entries@) =~= audio_entries(answer@));
    entries
}

fn read_audio_failures(answer: &Json) -> (failures: Vec<AudioStatusError>)
    ensures
        views(failures@) == audio_failures(answer@),
{
    let mut failures: Vec<AudioStatusError> = Vec::new();
    if let Some(items) = answer.items_field("errors") {
        let ghost all = views(items@);
        let ghost failure = |item: JsonView| audio_failure(item);
        let mut i: usize = 0;
        assert(all.take(0).filter_map(failure) =~= Seq::<AudioStatusErrorView>::empty());
        assert(views(failures@) =~= Seq::<AudioStatusErrorView>::empty());
        while i < items.len()
            invariant
                i <= items@.len(),
                all == views(items@),
                failure == |item: JsonView| audio_failure(item),
                views(failures@) == all.take(i as int).filter_map(failure),
            decreases items@.len() - i,
        {
            let ghost before = views(failures@);
            proof {
                assert(all[i as int] == items@[i as int]@);
                all.lemma_filter_map_take_succ(failure, i as int);
            }
            match audio_failure_from_value(&items[i]) {
                Some(found) => {
                    failures.push(found);
                    assert(views(failures@) =~= before + seq![found@]);
                },
                None => {
                    assert(before + Seq::<AudioStatusErrorView>::empty() =~= before);
                },
            }
            i = i + 1;
        }
        assert(all.take(i as int) =~= all);
    }
    assert(views(failures@) =~= audio_failures(answer@));
    failures
}

/// What a reply to an audio status request says.
pub open spec fn audio_status_answer(value: JsonView) -> Result<AudioStatusView, WlErrorView> {
    match answer_of(value, "audioOpResponse"@, "audio"@, Some("result"@)) {
        Ok(answer) => Ok(
            AudioStatusView { entries: audio_entries(answer), errors: audio_failures(answer) },
        ),
        Err(error) => Err(error),
    }
}

/// Reads a reply to an audio status request.
pub fn audio_status_from_reply(value: &Json) -> (status: WlResult<AudioStatus>)
    ensures
        result_view(status) == audio_status_answer(value@),
{
    let null = Json::Null;
    match response_payload(value, "audioOpResponse", "audio", Some("result"), &null) {
        Ok(answer) => Ok(
            AudioStatus {
                entries: read_audio_entries(answer),
                errors: read_audio_failures(answer),
            },
        ),
        Err(error) => Err(error),
    }
}

/// What a reply to an audio operation says: whether it was carried out.
pub open spec fn audio_op_answer(value: JsonView) -> Result<(), WlErrorView> {
    match answer_of(value, "audioOpResponse"@, "audio"@, Some("result"@)) {
        Ok(answer) => Ok(()),
        Err(error) => Err(error),
    }
}

/// Reads a reply to an audio operation.
pub fn audio_op_from_reply(value: &Json) -> (verdict: WlResult<()>)
    ensures
        match verdict {
            Ok(()) => audio_op_answer(value@) is Ok,
            Err(error) => audio_op_answer(value@) == Err::<(), WlErrorView>(error@),
        },
{
    let null = Json::Null;
    match response_payload(value, "audioOpResponse", "audio", Some("result"), &null) {
        Ok(_) => Ok(()),
        Err(error) => Err(error),
    }
}

/// An error that the daemon reports is returned as it stands, whatever was asked
/// for.
pub proof fn law_reported_error_is_returned(value: JsonView, vm: Seq<char>)
    requires
        reported_error(value) is Some,
    ensures
        ({
            let error = reported_error(value)->Some_0;
            &&& auth_answer(value) == Err::<Auth, WlErrorView>(error)
            &&& inventory_answer(value) == Err::<InventoryView, WlErrorView>(error)
            &&& status_answer(value, vm) == Err::<VmStatusView, WlErrorView>(error)
            &&& model_answer(value) == Err::<StatusModelView, WlErrorView>(error)
            &&& mutation_answer(value) == Err::<Seq<char>, WlErrorView>(error)
            &&& store_answer(value) == Err::<Seq<char>, WlErrorView>(error)
            &&& probe_answer(value) == Err::<UsbProbeView, WlErrorView>(error)
            &&& audio_status_answer(value) == Err::<AudioStatusView, WlErrorView>(error)
            &&& audio_op_answer(value) == Err::<(), WlErrorView>(error)
        }),
{
}

} // verus!
