//! Replies: what the documents of the daemon are read as.

use vstd::prelude::*;

use crate::error::WlErrorView;
use crate::json::JsonView;
use crate::model::{
    AudioChannelState, AuthRole, RuntimeState, UsbClaimView, VmCapabilities, VmFeatures,
};
use crate::reply::{
    api_ready_reading, audio_op_answer, audio_status_answer, auth_answer, claim_entries,
    claim_entry, entry_claims, entry_status, hello_verdict, inventory_answer, inventory_entries,
    inventory_entry, lifecycle_name, lifecycle_reading, listed_claims, model_answer,
    mutation_answer, named_status, operation, probe_answer, reported_capabilities, reported_error,
    service_reading, status_answer, status_reading, store_answer, text_reading, version_supported,
};
use crate::sources::{AudioStatusEntryView, AudioStatusErrorView, InventoryVmView, VmStatusView};
use crate::text::{
    begins, decimal, lemma_first_where_at, lemma_first_where_none, lowered, occurs, occurs_at,
};

use super::reduction::{lemma_says, says};
use super::selection::{lemma_filter_map_drawn, lemma_filter_map_related, drawn, related};

verus! {

/// Whether a reply reports an error.
pub open spec fn is_error(value: JsonView) -> bool {
    value.text_field("type"@) == Some("error"@) || value.text_field("kind"@) == Some("error"@)
}

/// Whether a reply carries an answer: as the member that wraps it, or as itself, where
/// it names the type that was asked for; as its payload, where it names the kind; and
/// as itself, where it names neither.
pub open spec fn carries(
    value: JsonView,
    named_type: Seq<char>,
    kind: Seq<char>,
    wrapper: Option<Seq<char>>,
    answer: JsonView,
) -> bool {
    &&& !is_error(value)
    &&& {
        ||| value.text_field("type"@) == Some(named_type) && wrapper is Some && value.field(
            wrapper->Some_0,
        ) == Some(answer)
        ||| value.text_field("type"@) == Some(named_type) && (wrapper is None || value.field(
            wrapper->Some_0,
        ) is None) && answer == value
        ||| value.text_field("type"@) is None && value.text_field("kind"@) == Some(kind)
            && value.field("payload"@) == Some(answer)
        ||| value.text_field("type"@) is None && value.text_field("kind"@) == Some(kind)
            && value.field("payload"@) is None && answer is Null
        ||| value.text_field("type"@) is None && value.text_field("kind"@) is None && answer
            == value
    }
}

/// The failure that a reply of another type or kind is.
pub open spec fn is_misnamed(
    value: JsonView,
    named_type: Seq<char>,
    kind: Seq<char>,
    error: WlErrorView,
) -> bool {
    &&& !is_error(value)
    &&& {
        ||| value.text_field("type"@) is Some && value.text_field("type"@)->Some_0 != named_type
            && error == WlErrorView::Protocol(
            "expected "@ + named_type + ", got "@ + value.text_field("type"@)->Some_0,
        )
        ||| value.text_field("type"@) is None && value.text_field("kind"@) is Some
            && value.text_field("kind"@)->Some_0 != kind && error == WlErrorView::Protocol(
            "expected response kind '"@ + kind + "', got '"@ + value.text_field("kind"@)->Some_0
                + "'"@,
        )
    }
}

/// Whether a result is a failure with an error.
pub open spec fn fails_with<T>(result: Result<T, WlErrorView>, error: WlErrorView) -> bool {
    result is Err && result->Err_0 == error
}

/// A reply of another type or kind than the one that was asked for is refused, and
/// the refusal names both.
pub proof fn law_misnamed_replies_are_refused(value: JsonView, vm: Seq<char>, error: WlErrorView)
    ensures
        is_misnamed(value, "authStatusResponse"@, "auth status"@, error) ==> fails_with(
            auth_answer(value),
            error,
        ),
        is_misnamed(value, "listResponse"@, "list"@, error) ==> fails_with(
            inventory_answer(value),
            error,
        ),
        is_misnamed(value, "statusResponse"@, "status"@, error) ==> fails_with(
            status_answer(value, vm),
            error,
        ) && fails_with(model_answer(value), error),
        is_misnamed(value, "mutatingVerbResponse"@, "mutating verb"@, error) ==> fails_with(
            mutation_answer(value),
            error,
        ),
        is_misnamed(value, "storeVerifyResponse"@, "store verify"@, error) ==> fails_with(
            store_answer(value),
            error,
        ),
        is_misnamed(value, "usbipProbeResponse"@, "usb probe"@, error) && value.text_field(
            "type"@,
        ) != Some("mutatingVerbResponse"@) ==> fails_with(probe_answer(value), error),
        is_misnamed(value, "audioOpResponse"@, "audio"@, error) ==> fails_with(
            audio_status_answer(value),
            error,
        ) && fails_with(audio_op_answer(value), error),
{
}

/// An error of the daemon is told with its kind, its message and the remedy it gives:
/// as a refusal where its kind begins with `authz-` or its exit code is 10 or 11, as a
/// failure of the protocol where its kind begins with `wire-`, and otherwise as a
/// failure of the daemon.
pub proof fn law_daemon_errors_are_told(
    value: JsonView,
    detail: JsonView,
    kind: Seq<char>,
    message: Seq<char>,
)
    requires
        value.text_field("type"@) == Some("error"@) && value.field("error"@) == Some(detail) || (
        value.text_field("type"@) != Some("error"@) && value.text_field("kind"@) == Some("error"@)
            && (value.field("payload"@) == Some(detail) || (value.field("payload"@) is None && detail
            == value))),
        detail is Object,
        detail.text_field("kind"@) == Some(kind),
        detail.text_field("message"@) == Some(message),
        detail.field("remediation"@) is None || detail.field("remediation"@)->Some_0 is Null
            || detail.field("remediation"@)->Some_0 is Text,
        detail.field("exitCode"@) is None || detail.field("exitCode"@)->Some_0 is Null || (
        detail.field("exitCode"@)->Some_0 is Unsigned && detail.field(
            "exitCode"@,
        )->Some_0->Unsigned_0 <= 255),
        detail.field("code"@) is None,
    ensures
        ({
            let remedy = detail.text_field("remediation"@);
            let text = kind + ": "@ + message + (if remedy is Some && remedy->Some_0.len() > 0 {
                " ("@ + remedy->Some_0 + ")"@
            } else {
                ""@
            });
            let refused = says(Some(kind), "authz-"@) || detail.field("exitCode"@) == Some(
                JsonView::Unsigned(10),
            ) || detail.field("exitCode"@) == Some(JsonView::Unsigned(11));
            reported_error(value) == Some(
                if refused {
                    WlErrorView::Denied(text)
                } else if says(Some(kind), "wire-"@) {
                    WlErrorView::Protocol(text)
                } else {
                    WlErrorView::Nixling(text)
                },
            )
        }),
{
    reveal_strlit("");
    lemma_says(kind, "authz-"@);
    lemma_says(kind, "wire-"@);
    let remedy = detail.text_field("remediation"@);
    let text = kind + ": "@ + message + (if remedy is Some && remedy->Some_0.len() > 0 {
        " ("@ + remedy->Some_0 + ")"@
    } else {
        ""@
    });
    let error = crate::reply::described_error(detail)->Some_0;
    assert(crate::reply::daemon_message(error) =~= text);
}

/// An error that is not described is told as a failure of the daemon all the same, and
/// only error replies are.
pub proof fn law_only_error_replies_report_errors(value: JsonView)
    ensures
        reported_error(value) is Some <==> is_error(value),
        value.text_field("type"@) == Some("error"@) && value.field("error"@) is None
            ==> reported_error(value) == Some(
            WlErrorView::Nixling("error: nixlingd returned an error"@),
        ),
{
    reveal_strlit("error");
    reveal_strlit(": ");
    reveal_strlit("nixlingd returned an error");
    reveal_strlit("error: nixlingd returned an error");
    reveal_strlit("authz-");
    reveal_strlit("wire-");
    assert("error"@ + ": "@ + "nixlingd returned an error"@
        =~= "error: nixlingd returned an error"@);
    assert("error"@.len() == 5);
    assert("authz-"@.len() == 6);
    if begins("error"@, "wire-"@) {
        assert("error"@.take(5)[0] == "wire-"@[0]);
    }
}

/// Whether the lifecycle of an entry names a state.
pub open spec fn lifecycle_says(entry: JsonView, name: Seq<char>) -> bool {
    entry.field("lifecycle"@) is Some && entry.field("lifecycle"@)->Some_0.text_field("state"@)
        == Some(name)
}

/// Whether an entry has a lifecycle that names a state.
pub open spec fn has_lifecycle(entry: JsonView) -> bool {
    entry.field("lifecycle"@) is Some && entry.field("lifecycle"@)->Some_0.text_field(
        "state"@,
    ) is Some
}

/// Whether an api-ready report is a text, or holds it as its error.
pub open spec fn report_says(report: JsonView, text: Seq<char>) -> bool {
    report == JsonView::Text(text) || (!(report is Text) && report.text_field("error"@) == Some(
        text,
    ))
}

/// Whether the api-ready report of an entry, under either of its names, says a text.
pub open spec fn ready_says(entry: JsonView, text: Seq<char>) -> bool {
    ||| entry.field("apiReady"@) is Some && report_says(entry.field("apiReady"@)->Some_0, text)
    ||| entry.field("apiReady"@) is None && entry.field("api_ready"@) is Some && report_says(
        entry.field("api_ready"@)->Some_0,
        text,
    )
}

/// Whether a report is one of those that decide a state.
pub open spec fn ready_decides(entry: JsonView) -> bool {
    ||| ready_says(entry, "yes"@)
    ||| ready_says(entry, "Yes"@)
    ||| ready_says(entry, "ready"@)
    ||| ready_says(entry, "Ready"@)
    ||| ready_says(entry, "pending"@)
    ||| ready_says(entry, "Pending"@)
    ||| ready_says(entry, "timeout"@)
    ||| ready_says(entry, "Timeout"@)
}

/// Whether a text holds another.
pub open spec fn holds(text: Seq<char>, part: Seq<char>) -> bool {
    exists|before: Seq<char>, after: Seq<char>| text == before + part + after
}

/// Whether a free text is read as a state: by how it begins, in small letters, and as
/// starting where it holds `pending`.
pub open spec fn text_tells(text: Seq<char>, state: RuntimeState) -> bool {
    let small = Some(lowered(text));
    let running = says(small, "running"@);
    let starting = says(small, "starting"@) || says(small, "booted"@) || says(
        small,
        "restarting"@,
    ) || holds(lowered(text), "pending"@);
    &&& state == RuntimeState::Running <==> running
    &&& state == RuntimeState::Starting <==> !running && starting
    &&& state == RuntimeState::Stopping <==> says(small, "stopping"@) && !starting
    &&& state == RuntimeState::Stopped <==> says(small, "stopped"@) && !starting
}

/// Whether a state is the one that a lifecycle names.
pub open spec fn lifecycle_tells(name: Seq<char>, state: RuntimeState) -> bool {
    &&& state == RuntimeState::Running <==> name == "Running"@ || name == "running"@
    &&& state == RuntimeState::Starting <==> name == "Starting"@ || name == "starting"@ || name
        == "Booted"@ || name == "booted"@ || name == "Restarting"@ || name == "restarting"@
    &&& state == RuntimeState::Stopping <==> name == "Stopping"@ || name == "stopping"@
    &&& state == RuntimeState::Stopped <==> name == "Stopped"@ || name == "stopped"@
}

/// Whether a state is the one that a status entry tells: by its lifecycle, or else by
/// an api-ready report that decides, or else by its service, or else by its runtime.
pub open spec fn state_told(entry: JsonView, state: RuntimeState) -> bool {
    &&& forall|name: Seq<char>| #[trigger]
        lifecycle_says(entry, name) ==> lifecycle_tells(name, state)
    &&& !has_lifecycle(entry) ==> {
        &&& ready_says(entry, "yes"@) || ready_says(entry, "Yes"@) || ready_says(entry, "ready"@)
            || ready_says(entry, "Ready"@) ==> state == RuntimeState::Running
        &&& ready_says(entry, "pending"@) || ready_says(entry, "Pending"@) ==> state
            == RuntimeState::Starting
        &&& ready_says(entry, "timeout"@) || ready_says(entry, "Timeout"@) ==> state
            == RuntimeState::Unknown
        &&& !ready_decides(entry) ==> {
            &&& forall|text: Seq<char>| #[trigger]
                service_says(entry, text) ==> text_tells(text, state)
            &&& !has_service(entry) ==> {
                &&& forall|text: Seq<char>| #[trigger]
                    runtime_says(entry, text) ==> text_tells(text, state)
                &&& !has_runtime(entry) ==> state == RuntimeState::Unknown
            }
        }
    }
}

/// Whether the service that runs the VM of an entry has a state text.
pub open spec fn service_says(entry: JsonView, text: Seq<char>) -> bool {
    entry.field("services"@) is Some && {
        let services = entry.field("services"@)->Some_0;
        ||| services.text_field("microvm"@) == Some(text)
        ||| services.text_field("microvm"@) is None && services.text_field("ch"@) == Some(text)
        ||| services.text_field("microvm"@) is None && services.text_field("ch"@) is None
            && services.text_field("cloudHypervisor"@) == Some(text)
    }
}

/// Whether an entry has the state text of a service that runs its VM.
pub open spec fn has_service(entry: JsonView) -> bool {
    entry.field("services"@) is Some && {
        let services = entry.field("services"@)->Some_0;
        ||| services.text_field("microvm"@) is Some
        ||| services.text_field("ch"@) is Some
        ||| services.text_field("cloudHypervisor"@) is Some
    }
}

/// Whether the runtime of an entry is a text, or gives it as its detail.
pub open spec fn runtime_says(entry: JsonView, text: Seq<char>) -> bool {
    entry.field("runtime"@) is Some && {
        let runtime = entry.field("runtime"@)->Some_0;
        ||| runtime == JsonView::Text(text)
        ||| !(runtime is Text) && runtime.text_field("detail"@) == Some(text)
    }
}

/// Whether an entry has a runtime text.
pub open spec fn has_runtime(entry: JsonView) -> bool {
    entry.field("runtime"@) is Some && (entry.field("runtime"@)->Some_0 is Text || entry.field(
        "runtime"@,
    )->Some_0.text_field("detail"@) is Some)
}

proof fn lemma_lifecycle_words(name: Seq<char>)
    ensures
        lifecycle_tells(name, lifecycle_reading(name)),
{
    reveal_strlit("Running");
    reveal_strlit("running");
    reveal_strlit("Starting");
    reveal_strlit("starting");
    reveal_strlit("Booted");
    reveal_strlit("booted");
    reveal_strlit("Restarting");
    reveal_strlit("restarting");
    reveal_strlit("Stopping");
    reveal_strlit("stopping");
    reveal_strlit("Stopped");
    reveal_strlit("stopped");
    if name == "Running"@ || name == "running"@ {
        assert(name.len() == 7 && name[1] == 'u');
    }
    if name == "Starting"@ || name == "starting"@ {
        assert(name.len() == 8 && name[2] == 'a');
    }
    if name == "Booted"@ || name == "booted"@ {
        assert(name.len() == 6);
    }
    if name == "Restarting"@ || name == "restarting"@ {
        assert(name.len() == 10);
    }
    if name == "Stopping"@ || name == "stopping"@ {
        assert(name.len() == 8 && name[2] == 'o');
    }
    if name == "Stopped"@ || name == "stopped"@ {
        assert(name.len() == 7 && name[1] == 't');
    }
}

/// A text holds what occurs in it.
pub proof fn lemma_holds(text: Seq<char>, part: Seq<char>)
    ensures
        holds(text, part) <==> occurs(text, part),
{
    if holds(text, part) {
        let (before, after) = choose|before: Seq<char>, after: Seq<char>|
            text == before + part + after;
        let at = before.len() as int;
        assert(text.subrange(at, at + part.len()) =~= part);
        assert(occurs_at(text, part, at));
    }
    if occurs(text, part) {
        let at = choose|at: int| occurs_at(text, part, at);
        let before = text.take(at);
        let after = text.skip(at + part.len());
        assert(text =~= before + text.subrange(at, at + part.len()) + after);
        assert(text == before + part + after);
    }
}

proof fn lemma_text_words(text: Seq<char>)
    ensures
        text_tells(text, text_reading(text)),
{
    reveal_strlit("running");
    reveal_strlit("starting");
    reveal_strlit("booted");
    reveal_strlit("restarting");
    reveal_strlit("pending");
    reveal_strlit("stopping");
    reveal_strlit("stopped");
    let small = lowered(text);
    lemma_says(small, "running"@);
    lemma_says(small, "starting"@);
    lemma_says(small, "booted"@);
    lemma_says(small, "restarting"@);
    lemma_says(small, "stopping"@);
    lemma_says(small, "stopped"@);
    lemma_holds(small, "pending"@);
    if begins(small, "running"@) {
        assert(small.take(7)[0] == 'r');
    }
    if begins(small, "stopping"@) {
        assert(small.take(8)[0] == 's' && small.take(8)[6] == 'n');
    }
    if begins(small, "stopped"@) {
        assert(small.take(7)[0] == 's' && small.take(7)[6] == 'd');
    }
}

/// A status entry whose lifecycle names a state is read as that state: as running
/// exactly where it says `Running` or `running`, as stopping exactly where it says
/// `Stopping` or `stopping`, and so on; any other word is read as unknown.
pub proof fn law_lifecycle_decides(entry: JsonView, name: Seq<char>)
    requires
        entry.field("lifecycle"@) is Some,
        entry.field("lifecycle"@)->Some_0.text_field("state"@) == Some(name),
    ensures
        status_reading(entry) == RuntimeState::Running <==> name == "Running"@ || name
            == "running"@,
        status_reading(entry) == RuntimeState::Starting <==> name == "Starting"@ || name
            == "starting"@ || name == "Booted"@ || name == "booted"@ || name == "Restarting"@
            || name == "restarting"@,
        status_reading(entry) == RuntimeState::Stopping <==> name == "Stopping"@ || name
            == "stopping"@,
        status_reading(entry) == RuntimeState::Stopped <==> name == "Stopped"@ || name
            == "stopped"@,
{
    lemma_lifecycle_words(name);
}

/// A lifecycle word is read as the state it names.
pub proof fn law_lifecycle_words(name: Seq<char>)
    ensures
        lifecycle_tells(name, lifecycle_reading(name)),
{
    lemma_lifecycle_words(name);
}

/// A free text is read by how it begins, in small letters.
pub proof fn law_state_texts(text: Seq<char>)
    ensures
        text_tells(text, text_reading(text)),
{
    lemma_text_words(text);
}

/// Small letters: those of the Latin alphabet change, nothing else does.
pub proof fn law_small_letters(text: Seq<char>)
    ensures
        lowered(text).len() == text.len(),
        forall|i: int|
            0 <= i < text.len() ==> if 'A' <= #[trigger] text[i] <= 'Z' {
                lowered(text)[i] as u32 == text[i] as u32 + 32
            } else {
                lowered(text)[i] == text[i]
            },
{
    assert forall|i: int| 0 <= i < text.len() implies if 'A' <= #[trigger] text[i] <= 'Z' {
        lowered(text)[i] as u32 == text[i] as u32 + 32
    } else {
        lowered(text)[i] == text[i]
    } by {
        assert(lowered(text)[i] == crate::text::lower(text[i]));
    }
}

/// An api-ready report is read as running where it says yes or ready, as starting
/// where it says pending, as unknown where it timed out, and otherwise not at all.
pub proof fn law_ready_reports(report: JsonView, text: Seq<char>)
    requires
        report_says(report, text),
    ensures
        api_ready_reading(report) == Some(RuntimeState::Running) <==> text == "yes"@ || text
            == "Yes"@ || text == "ready"@ || text == "Ready"@,
        api_ready_reading(report) == Some(RuntimeState::Starting) <==> text == "pending"@ || text
            == "Pending"@,
        api_ready_reading(report) == Some(RuntimeState::Unknown) <==> text == "timeout"@ || text
            == "Timeout"@,
        !(api_ready_reading(report) == Some(RuntimeState::Stopped) || api_ready_reading(report)
            == Some(RuntimeState::Stopping)),
{
    lemma_ready_words(text);
}

proof fn lemma_ready_words(text: Seq<char>)
    ensures
        text == "yes"@ || text == "Yes"@ ==> text.len() == 3,
        text == "ready"@ || text == "Ready"@ ==> text.len() == 5,
        text == "pending"@ || text == "Pending"@ ==> text.len() == 7 && text[1] == 'e',
        text == "timeout"@ || text == "Timeout"@ ==> text.len() == 7 && text[1] == 'i',
{
    reveal_strlit("yes");
    reveal_strlit("Yes");
    reveal_strlit("ready");
    reveal_strlit("Ready");
    reveal_strlit("pending");
    reveal_strlit("Pending");
    reveal_strlit("timeout");
    reveal_strlit("Timeout");
}

/// A running service counts as running unless its api-ready report says pending or
/// timeout; a service that is not running counts as what its text says.
pub proof fn law_services_are_held_back(service: Seq<char>, report: Option<JsonView>)
    ensures
        !says(Some(lowered(service)), "running"@) ==> text_tells(
            service,
            service_reading(service, report),
        ),
        says(Some(lowered(service)), "running"@) ==> {
            let state = service_reading(service, report);
            let pending = report is Some && (report_says(report->Some_0, "pending"@)
                || report_says(report->Some_0, "Pending"@));
            let late = report is Some && (report_says(report->Some_0, "timeout"@) || report_says(
                report->Some_0,
                "Timeout"@,
            ));
            &&& state == RuntimeState::Starting <==> pending
            &&& state == RuntimeState::Unknown <==> late
            &&& state == RuntimeState::Running <==> !pending && !late
        },
{
    lemma_text_words(service);
    lemma_ready_words("pending"@);
    lemma_ready_words("Pending"@);
    lemma_ready_words("timeout"@);
    lemma_ready_words("Timeout"@);
    if let Some(given) = report {
        let text = match given.text() {
            Some(text) => Some(text),
            None => given.text_field("error"@),
        };
        if let Some(said) = text {
            assert(report_says(given, said));
            lemma_ready_words(said);
        }
    }
}

proof fn lemma_state_told(entry: JsonView)
    ensures
        state_told(entry, status_reading(entry)),
{
    let state = status_reading(entry);
    assert forall|name: Seq<char>| #[trigger] lifecycle_says(entry, name) implies lifecycle_tells(
        name,
        state,
    ) by {
        lemma_lifecycle_words(name);
    }
    if !has_lifecycle(entry) {
        assert(lifecycle_name(entry) is None);
        lemma_ready_words("yes"@);
        lemma_ready_words("Yes"@);
        lemma_ready_words("ready"@);
        lemma_ready_words("Ready"@);
        lemma_ready_words("pending"@);
        lemma_ready_words("Pending"@);
        lemma_ready_words("timeout"@);
        lemma_ready_words("Timeout"@);
        if !ready_decides(entry) {
            lemma_undecided(entry);
            assert forall|text: Seq<char>| #[trigger] service_says(entry, text) implies text_tells(
                text,
                state,
            ) by {
                lemma_text_words(text);
            }
            if !has_service(entry) {
                assert forall|text: Seq<char>| #[trigger]
                    runtime_says(entry, text) implies text_tells(text, state) by {
                    lemma_text_words(text);
                }
            }
        }
    }
}

proof fn lemma_undecided(entry: JsonView)
    requires
        !ready_decides(entry),
    ensures
        match crate::reply::api_ready_report(entry) {
            Some(report) => api_ready_reading(report) is None,
            None => true,
        },
{
    if let Some(report) = crate::reply::api_ready_report(entry) {
        let text = match report.text() {
            Some(text) => Some(text),
            None => report.text_field("error"@),
        };
        if let Some(said) = text {
            assert(ready_says(entry, said));
        }
    }
}

/// Whether an entry names a VM.
pub open spec fn is_named(entry: JsonView, name: Seq<char>) -> bool {
    ||| entry.text_field("name"@) == Some(name)
    ||| entry.text_field("name"@) is None && entry.text_field("vm"@) == Some(name)
}

/// Whether an entry names any VM.
pub open spec fn has_a_name(entry: JsonView) -> bool {
    entry.text_field("name"@) is Some || entry.text_field("vm"@) is Some
}

/// Whether a document allows an operation: it does unless it says otherwise.
pub open spec fn allows(entry: JsonView, group: Seq<char>, name: Seq<char>) -> bool {
    !(entry.field("runtime"@) is Some && entry.field("runtime"@)->Some_0.field(
        "operationCapabilities"@,
    ) is Some && entry.field("runtime"@)->Some_0.field("operationCapabilities"@)->Some_0.field(
        group,
    ) is Some && entry.field("runtime"@)->Some_0.field("operationCapabilities"@)->Some_0.field(
        group,
    )->Some_0.field(name) == Some(JsonView::Bool(false)))
}

/// Whether capabilities are those that a document allows.
pub open spec fn capabilities_told(entry: JsonView, capabilities: VmCapabilities) -> bool {
    &&& capabilities.start <==> allows(entry, "lifecycle"@, "start"@)
    &&& capabilities.stop <==> allows(entry, "lifecycle"@, "stop"@)
    &&& capabilities.restart <==> allows(entry, "lifecycle"@, "restart"@)
    &&& capabilities.switch <==> allows(entry, "lifecycle"@, "switch"@)
    &&& capabilities.build <==> allows(entry, "lifecycle"@, "build"@)
    &&& capabilities.boot <==> allows(entry, "lifecycle"@, "boot"@)
    &&& capabilities.usb_hotplug <==> allows(entry, "media"@, "usbHotplug"@)
    &&& capabilities.store_verify <==> allows(entry, "storage"@, "storeSync"@)
    &&& capabilities.terminal <==> allows(entry, "guest"@, "exec"@)
}

proof fn lemma_allows(entry: JsonView, group: Seq<char>, name: Seq<char>)
    ensures
        operation(entry, group, name) <==> allows(entry, group, name),
{
}

proof fn lemma_capabilities(entry: JsonView)
    ensures
        capabilities_told(entry, reported_capabilities(entry)),
{
    lemma_allows(entry, "lifecycle"@, "start"@);
    lemma_allows(entry, "lifecycle"@, "stop"@);
    lemma_allows(entry, "lifecycle"@, "restart"@);
    lemma_allows(entry, "lifecycle"@, "switch"@);
    lemma_allows(entry, "lifecycle"@, "build"@);
    lemma_allows(entry, "lifecycle"@, "boot"@);
    lemma_allows(entry, "media"@, "usbHotplug"@);
    lemma_allows(entry, "storage"@, "storeSync"@);
    lemma_allows(entry, "guest"@, "exec"@);
}

/// Whether a flag is given as a member under either of two names, the first first.
pub open spec fn flag_given(entry: JsonView, name: Seq<char>, other: Seq<char>, flag: bool) -> bool {
    ||| entry.field(name) == Some(JsonView::Bool(flag))
    ||| !(entry.field(name) is Some && entry.field(name)->Some_0 is Bool) && entry.field(other)
        == Some(JsonView::Bool(flag))
}

/// Whether a restart is pending by what an entry says, itself or in its lifecycle.
pub open spec fn restart_pends(entry: JsonView) -> bool {
    ||| flag_given(entry, "pendingRestart"@, "pending_restart"@, true)
    ||| !flag_given(entry, "pendingRestart"@, "pending_restart"@, false) && entry.field(
        "lifecycle"@,
    ) is Some && entry.field("lifecycle"@)->Some_0.field("pendingRestart"@) == Some(
        JsonView::Bool(true),
    )
}

/// Whether a status tells what an entry says.
pub open spec fn status_told(entry: JsonView, status: VmStatusView) -> bool {
    &&& state_told(entry, status.state)
    &&& status.pending_restart <==> restart_pends(entry)
    &&& entry.items_field("readiness"@) is None ==> status.readiness.len() == 0
    &&& entry.items_field("readiness"@) is Some ==> drawn(
        entry.items_field("readiness"@)->Some_0,
        status.readiness,
        |item: JsonView|
            match item {
                JsonView::Text(text) => Some(text),
                _ => None,
            },
    )
    &&& capabilities_told(entry, status.capabilities)
}

proof fn lemma_status_told(entry: JsonView, vm: Seq<char>)
    ensures
        status_told(entry, entry_status(entry, vm)),
        forall|name: Seq<char>| #[trigger]
            is_named(entry, name) ==> entry_status(entry, vm).name == name,
        !has_a_name(entry) ==> entry_status(entry, vm).name == vm,
{
    lemma_state_told(entry);
    lemma_capabilities(entry);
    if let Some(items) = entry.items_field("readiness"@) {
        let text = |item: JsonView| item.text();
        let said = |item: JsonView|
            match item {
                JsonView::Text(text) => Some(text),
                _ => None,
            };
        assert(text =~= said);
        lemma_filter_map_drawn(items, text);
    }
}

/// Whether an answer lists entries: under `entries`, or else under `vms`.
pub open spec fn lists_entries(answer: JsonView, items: Seq<JsonView>) -> bool {
    ||| answer.field("entries"@) == Some(JsonView::Array(items))
    ||| !(answer.field("entries"@) is Some && answer.field("entries"@)->Some_0 is Array)
        && answer.field("vms"@) == Some(JsonView::Array(items))
}

/// The status of a VM is read from the first entry that names it.
pub proof fn law_status_is_read_from_the_entry_of_the_vm(
    value: JsonView,
    vm: Seq<char>,
    answer: JsonView,
    items: Seq<JsonView>,
    at: int,
)
    requires
        carries(value, "statusResponse"@, "status"@, Some("status"@), answer),
        lists_entries(answer, items),
        0 <= at < items.len(),
        is_named(items[at], vm),
        forall|k: int| 0 <= k < at ==> !is_named(#[trigger] items[k], vm),
    ensures
        status_answer(value, vm) is Ok,
        status_answer(value, vm)->Ok_0.name == vm,
        status_told(items[at], status_answer(value, vm)->Ok_0),
{
    reveal_strlit("status");
    reveal_strlit("statusResponse");
    reveal_strlit("error");
    let wanted = |item: JsonView| item.text_field_or("name"@, "vm"@) == Some(vm);
    assert forall|k: int| 0 <= k < at implies !wanted(#[trigger] items[k]) by {
        assert(!is_named(items[k], vm));
    }
    lemma_first_where_at(items, wanted, at);
    lemma_status_told(items[at], vm);
}

/// Where no entry names the VM the first one stands for it, and without any entry
/// there is no status.
pub proof fn law_status_without_an_entry_of_the_vm(
    value: JsonView,
    vm: Seq<char>,
    answer: JsonView,
    items: Seq<JsonView>,
)
    requires
        carries(value, "statusResponse"@, "status"@, Some("status"@), answer),
        lists_entries(answer, items),
        forall|k: int| 0 <= k < items.len() ==> !is_named(#[trigger] items[k], vm),
    ensures
        items.len() > 0 ==> status_answer(value, vm) is Ok && status_told(
            items[0],
            status_answer(value, vm)->Ok_0,
        ),
        items.len() == 0 ==> status_answer(value, vm) == Err::<VmStatusView, WlErrorView>(
            WlErrorView::Protocol(
                "status response did not contain an entry for VM '"@ + vm + "'"@,
            ),
        ),
{
    let wanted = |item: JsonView| item.text_field_or("name"@, "vm"@) == Some(vm);
    assert forall|k: int| 0 <= k < items.len() implies !wanted(#[trigger] items[k]) by {
        assert(!is_named(items[k], vm));
    }
    lemma_first_where_none(items, wanted);
    if items.len() > 0 {
        lemma_status_told(items[0], vm);
    }
}

/// An answer that lists no entries is itself the entry, or holds it under `vm`.
pub proof fn law_status_of_a_single_vm(value: JsonView, vm: Seq<char>, answer: JsonView)
    requires
        carries(value, "statusResponse"@, "status"@, Some("status"@), answer),
        answer.items_field("entries"@) is None,
        answer.items_field("vms"@) is None,
    ensures
        status_answer(value, vm) is Ok,
        status_told(
            if answer.field("vm"@) is Some && answer.field("vm"@)->Some_0 is Object {
                answer.field("vm"@)->Some_0
            } else {
                answer
            },
            status_answer(value, vm)->Ok_0,
        ),
{
    let entry = if answer.field("vm"@) is Some && answer.field("vm"@)->Some_0 is Object {
        answer.field("vm"@)->Some_0
    } else {
        answer
    };
    lemma_status_told(entry, vm);
}

/// Whether a feature is given, itself or among the features.
pub open spec fn feature_given(entry: JsonView, name: Seq<char>, other: Seq<char>) -> bool {
    ||| flag_given(entry, name, other, true)
    ||| !flag_given(entry, name, other, false) && entry.field("features"@) is Some && entry.field(
        "features"@,
    )->Some_0.field(name) == Some(JsonView::Bool(true))
}

/// Whether a text is given as a member under either of two names, the first first.
pub open spec fn text_given(
    entry: JsonView,
    name: Seq<char>,
    other: Seq<char>,
    text: Option<Seq<char>>,
) -> bool {
    text == if entry.field(name) is Some && entry.field(name)->Some_0 is Text {
        Some(entry.field(name)->Some_0->Text_0)
    } else if entry.field(other) is Some && entry.field(other)->Some_0 is Text {
        Some(entry.field(other)->Some_0->Text_0)
    } else {
        None
    }
}

/// Whether a listed VM tells what an entry says.
pub open spec fn listing_told(entry: JsonView, vm: InventoryVmView) -> bool {
    &&& is_named(entry, vm.name)
    &&& text_given(entry, "env"@, "env"@, vm.env)
    &&& vm.is_net_vm <==> flag_given(entry, "isNetVm"@, "is_net_vm"@, true)
    &&& vm.features == (VmFeatures {
        graphics: feature_given(entry, "graphics"@, "graphics"@),
        tpm: feature_given(entry, "tpm"@, "tpm"@),
        usbip: feature_given(entry, "usbip"@, "usbipYubikey"@),
        audio: feature_given(entry, "audio"@, "audio"@),
    })
    &&& text_given(entry, "staticIp"@, "static_ip"@, vm.static_ip)
    &&& capabilities_told(entry, vm.capabilities)
    &&& entry.text_field("status"@) is Some ==> vm.coarse_status == entry.text_field("status"@)
    &&& entry.text_field("status"@) is None ==> {
        &&& forall|name: Seq<char>| #[trigger]
            lifecycle_says(entry, name) ==> vm.coarse_status == Some(name)
        &&& !has_lifecycle(entry) ==> {
            &&& forall|text: Seq<char>| #[trigger]
                runtime_says(entry, text) ==> vm.coarse_status == Some(text)
            &&& !has_runtime(entry) ==> vm.coarse_status is None
        }
    }
}

proof fn lemma_listing_told(entry: JsonView)
    ensures
        inventory_entry(entry) is Some <==> has_a_name(entry),
        inventory_entry(entry) is Some ==> listing_told(entry, inventory_entry(entry)->Some_0),
{
    lemma_capabilities(entry);
    lemma_feature(entry, "graphics"@, "graphics"@);
    lemma_feature(entry, "tpm"@, "tpm"@);
    lemma_feature(entry, "usbip"@, "usbipYubikey"@);
    lemma_feature(entry, "audio"@, "audio"@);
}

proof fn lemma_feature(entry: JsonView, name: Seq<char>, other: Seq<char>)
    ensures
        crate::reply::feature(entry, name, other) <==> feature_given(entry, name, other),
{
}

proof fn lemma_inventory_related(items: Seq<JsonView>)
    ensures
        related(
            items,
            inventory_entries(items),
            |item: JsonView| has_a_name(item),
            |item: JsonView, vm: InventoryVmView| listing_told(item, vm),
        ),
{
    let reading = |item: JsonView| inventory_entry(item);
    assert forall|item: JsonView| #[trigger] reading(item) is Some <==> has_a_name(item) by {
        lemma_listing_told(item);
    }
    assert forall|item: JsonView| #[trigger] reading(item) is Some implies listing_told(
        item,
        reading(item)->Some_0,
    ) by {
        lemma_listing_told(item);
    }
    lemma_filter_map_related(
        items,
        reading,
        |item: JsonView| has_a_name(item),
        |item: JsonView, vm: InventoryVmView| listing_told(item, vm),
    );
}

/// A listing gives one VM for each entry of `vms` that names one, in their order, and
/// of each what its entry says.
pub proof fn law_listing_gives_the_named_entries(value: JsonView, answer: JsonView)
    requires
        carries(value, "listResponse"@, "list"@, None, answer),
    ensures
        inventory_answer(value) is Ok,
        answer.items_field("vms"@) is None ==> inventory_answer(value)->Ok_0.vms.len() == 0,
        answer.items_field("vms"@) is Some ==> related(
            answer.items_field("vms"@)->Some_0,
            inventory_answer(value)->Ok_0.vms,
            |item: JsonView| has_a_name(item),
            |item: JsonView, vm: InventoryVmView| listing_told(item, vm),
        ),
{
    if let Some(items) = answer.items_field("vms"@) {
        lemma_inventory_related(items);
    }
}

/// Whether an entry describes a USB claim.
pub open spec fn is_claim(entry: JsonView) -> bool {
    &&& entry.text_field("vm"@) is Some
    &&& entry.text_field("env"@) is Some
    &&& entry.text_field("busId"@) is Some || entry.text_field("bus_id"@) is Some
}

/// Whether a claim tells what an entry says.
pub open spec fn claim_told(entry: JsonView, claim: UsbClaimView) -> bool {
    &&& entry.text_field("vm"@) == Some(claim.vm)
    &&& entry.text_field("env"@) == Some(claim.env)
    &&& text_given(entry, "busId"@, "bus_id"@, Some(claim.bus_id))
    &&& claim.bound <==> (entry.field("bound"@) == Some(JsonView::Bool(true)) || (!(entry.field(
        "bound"@,
    ) is Some && entry.field("bound"@)->Some_0 is Bool) && entry.text_field("status"@) == Some(
        "bound"@,
    )))
    &&& text_given(entry, "ownerVm"@, "owner_vm"@, claim.owner_vm)
}

proof fn lemma_claims_related(items: Seq<JsonView>)
    ensures
        related(
            items,
            claim_entries(items),
            |item: JsonView| is_claim(item),
            |item: JsonView, claim: UsbClaimView| claim_told(item, claim),
        ),
{
    lemma_filter_map_related(
        items,
        |item: JsonView| claim_entry(item),
        |item: JsonView| is_claim(item),
        |item: JsonView, claim: UsbClaimView| claim_told(item, claim),
    );
}

/// A USB probe gives one claim for each entry that describes one, in their order, and
/// of each what its entry says.
pub proof fn law_probe_gives_the_described_claims(value: JsonView, answer: JsonView)
    requires
        carries(value, "usbipProbeResponse"@, "usb probe"@, None, answer),
    ensures
        probe_answer(value) is Ok,
        answer.items_field("entries"@) is None ==> probe_answer(value)->Ok_0.claims.len() == 0,
        answer.items_field("entries"@) is Some ==> related(
            answer.items_field("entries"@)->Some_0,
            probe_answer(value)->Ok_0.claims,
            |item: JsonView| is_claim(item),
            |item: JsonView, claim: UsbClaimView| claim_told(item, claim),
        ),
{
    reveal_strlit("mutatingVerbResponse");
    reveal_strlit("usbipProbeResponse");
    assert("mutatingVerbResponse"@.len() == 20);
    assert("usbipProbeResponse"@.len() == 18);
    if let Some(items) = answer.items_field("entries"@) {
        lemma_claims_related(items);
    }
}

/// The claims of all entries together, one entry behind the other.
pub open spec fn gathered(items: Seq<JsonView>, claims: Seq<UsbClaimView>, cuts: Seq<int>) -> bool {
    &&& cuts.len() == items.len() + 1
    &&& cuts[0] == 0
    &&& cuts[items.len() as int] == claims.len()
    &&& forall|i: int| 0 <= i < items.len() ==> 0 <= #[trigger] cuts[i] <= cuts[i + 1]
        <= claims.len() && entry_claims_told(items[i], claims.subrange(cuts[i], cuts[i + 1]))
}

/// Whether claims are those that an entry lists under `usb`.
pub open spec fn entry_claims_told(entry: JsonView, claims: Seq<UsbClaimView>) -> bool {
    let listed = entry.field("usb"@) is Some && entry.field("usb"@)->Some_0.items_field(
        "entries"@,
    ) is Some;
    &&& !listed ==> claims.len() == 0
    &&& listed ==> related(
        entry.field("usb"@)->Some_0.items_field("entries"@)->Some_0,
        claims,
        |item: JsonView| is_claim(item),
        |item: JsonView, claim: UsbClaimView| claim_told(item, claim),
    )
}

proof fn lemma_entry_claims(entry: JsonView)
    ensures
        entry_claims_told(entry, entry_claims(entry)),
{
    if let Some(usb) = entry.field("usb"@) {
        if let Some(items) = usb.items_field("entries"@) {
            lemma_claims_related(items);
        }
    }
}

proof fn lemma_gathered(items: Seq<JsonView>) -> (cuts: Seq<int>)
    ensures
        gathered(items, listed_claims(items), cuts),
    decreases items.len(),
{
    let claims = listed_claims(items);
    if items.len() == 0 {
        seq![0int]
    } else {
        let front = items.drop_last();
        let before = lemma_gathered(front);
        let own = entry_claims(items.last());
        lemma_entry_claims(items.last());
        let cuts = before.push(claims.len() as int);
        assert forall|i: int| 0 <= i < items.len() implies 0 <= #[trigger] cuts[i] <= cuts[i + 1]
            <= claims.len() && entry_claims_told(
            items[i],
            claims.subrange(cuts[i], cuts[i + 1]),
        ) by {
            if i < front.len() {
                assert(cuts[i] == before[i] && cuts[i + 1] == before[i + 1]);
                assert(items[i] == front[i]);
                assert(claims.subrange(cuts[i], cuts[i + 1]) =~= listed_claims(front).subrange(
                    before[i],
                    before[i + 1],
                ));
            } else {
                assert(claims.subrange(cuts[i], cuts[i + 1]) =~= own);
            }
        }
        cuts
    }
}

/// One status answer gives the listing, the statuses and the USB claims of all its
/// entries: a VM and a status for each entry that names one, and the claims that each
/// entry lists, all in the order of the entries.
pub proof fn law_status_model_gives_all(
    value: JsonView,
    answer: JsonView,
    items: Seq<JsonView>,
) -> (cuts: Seq<int>)
    requires
        carries(value, "statusResponse"@, "status"@, Some("status"@), answer),
        lists_entries(answer, items),
    ensures
        model_answer(value) is Ok,
        related(
            items,
            model_answer(value)->Ok_0.inventory.vms,
            |item: JsonView| has_a_name(item),
            |item: JsonView, vm: InventoryVmView| listing_told(item, vm),
        ),
        related(
            items,
            model_answer(value)->Ok_0.statuses,
            |item: JsonView| has_a_name(item),
            |item: JsonView, status: VmStatusView|
                is_named(item, status.name) && status_told(item, status),
        ),
        gathered(items, model_answer(value)->Ok_0.usb.claims, cuts),
{
    lemma_inventory_related(items);
    let reading = |item: JsonView| named_status(item);
    let tells = |item: JsonView, status: VmStatusView|
        is_named(item, status.name) && status_told(item, status);
    assert forall|item: JsonView| #[trigger] reading(item) is Some implies tells(
        item,
        reading(item)->Some_0,
    ) by {
        lemma_status_told(item, item.text_field_or("name"@, "vm"@)->Some_0);
    }
    lemma_filter_map_related(items, reading, |item: JsonView| has_a_name(item), tells);
    lemma_gathered(items)
}

/// A status answer without entries is refused.
pub proof fn law_status_model_needs_entries(value: JsonView, answer: JsonView)
    requires
        carries(value, "statusResponse"@, "status"@, Some("status"@), answer),
        answer.items_field("entries"@) is None,
        answer.items_field("vms"@) is None,
    ensures
        model_answer(value) is Err,
        model_answer(value)->Err_0 == WlErrorView::Protocol(
            "status response did not contain VM entries"@,
        ),
{
}

/// The role is admin or launcher exactly where the answer says so, in whatever
/// letters, and otherwise none.
pub proof fn law_role_is_the_one_named(value: JsonView, answer: JsonView)
    requires
        carries(value, "authStatusResponse"@, "auth status"@, Some("auth"@), answer),
    ensures
        auth_answer(value) is Ok,
        ({
            let role = auth_answer(value)->Ok_0.role;
            let named = answer.text_field("role"@);
            &&& role == AuthRole::Admin <==> named is Some && lowered(named->Some_0) == "admin"@
            &&& role == AuthRole::Launcher <==> named is Some && lowered(named->Some_0)
                == "launcher"@
        }),
{
    reveal_strlit("admin");
    reveal_strlit("launcher");
    assert("admin"@.len() == 5 && "launcher"@.len() == 8);
}

/// Whether an optional text is given as a member or in its place.
pub open spec fn optional_given(part: Option<JsonView>, text: Option<Seq<char>>) -> bool {
    ||| (part is None || part->Some_0 is Null) && text is None
    ||| part is Some && part->Some_0 is Text && text == Some(part->Some_0->Text_0)
}

/// A change succeeds exactly where the daemon says that it was applied, with the
/// summary it gives; any other outcome is an error that tells the verb, the outcome
/// and all else that the daemon says of it.
pub proof fn law_outcomes_decide(
    value: JsonView,
    answer: JsonView,
    verb: Seq<char>,
    outcome: Seq<char>,
    wave: Option<Seq<char>>,
    summary: Option<Seq<char>>,
    remedy: Option<Seq<char>>,
)
    requires
        carries(value, "mutatingVerbResponse"@, "mutating verb"@, None, answer),
        answer.within(5),
        answer.part("verb"@, 0) == Some(JsonView::Text(verb)),
        answer.part("outcome"@, 1) == Some(JsonView::Text(outcome)),
        optional_given(answer.part("targetWave"@, 2), wave),
        optional_given(answer.part("summary"@, 3), summary),
        optional_given(answer.part("remediation"@, 4), remedy),
    ensures
        ({
            let text = verb + " returned "@ + outcome + (if summary is Some {
                ": "@ + summary->Some_0
            } else {
                ""@
            }) + (if wave is Some {
                " (target wave "@ + wave->Some_0 + ")"@
            } else {
                ""@
            }) + (if remedy is Some {
                "; "@ + remedy->Some_0
            } else {
                ""@
            });
            let result = mutation_answer(value);
            &&& result is Ok <==> outcome == "applied"@
            &&& outcome == "applied"@ && summary is Some ==> result == Ok::<
                Seq<char>,
                WlErrorView,
            >(summary->Some_0)
            &&& outcome == "applied"@ && summary is None ==> result == Ok::<
                Seq<char>,
                WlErrorView,
            >(verb + " applied"@)
            &&& outcome == "api-ready-timeout"@ ==> result == Err::<Seq<char>, WlErrorView>(
                WlErrorView::Timeout(text),
            )
            &&& outcome == "invalid-request"@ ==> result == Err::<Seq<char>, WlErrorView>(
                WlErrorView::Protocol(text),
            )
            &&& outcome == "dry-run-planned"@ || outcome == "not-yet-implemented"@ || outcome
                == "broker-error"@ ==> result == Err::<Seq<char>, WlErrorView>(
                WlErrorView::Nixling(text),
            )
            &&& !(outcome == "applied"@ || outcome == "api-ready-timeout"@ || outcome
                == "invalid-request"@ || outcome == "dry-run-planned"@ || outcome
                == "not-yet-implemented"@ || outcome == "broker-error"@) ==> result == Err::<
                Seq<char>,
                WlErrorView,
            >(WlErrorView::Protocol("unknown mutating verb outcome '"@ + outcome + "'"@))
        }),
{
    reveal_strlit("");
    reveal_strlit(" ");
    reveal_strlit(" applied");
    reveal_strlit("applied");
    reveal_strlit("api-ready-timeout");
    reveal_strlit("invalid-request");
    reveal_strlit("dry-run-planned");
    reveal_strlit("not-yet-implemented");
    reveal_strlit("broker-error");
    assert("applied"@.len() == 7);
    assert("api-ready-timeout"@.len() == 17);
    assert("invalid-request"@.len() == 15 && "invalid-request"@[0] == 'i');
    assert("dry-run-planned"@.len() == 15 && "dry-run-planned"@[0] == 'd');
    assert("not-yet-implemented"@.len() == 19);
    assert("broker-error"@.len() == 12);
    assert(" "@ + "applied"@ =~= " applied"@);
    let response = crate::reply::described_outcome(answer)->Some_0;
    let text = verb + " returned "@ + outcome + (if summary is Some {
        ": "@ + summary->Some_0
    } else {
        ""@
    }) + (if wave is Some {
        " (target wave "@ + wave->Some_0 + ")"@
    } else {
        ""@
    }) + (if remedy is Some {
        "; "@ + remedy->Some_0
    } else {
        ""@
    });
    assert(crate::reply::failure_text(response) =~= text);
    assert(verb + " "@ + "applied"@ =~= verb + " applied"@);
}

/// An answer without a verb or an outcome is refused.
pub proof fn law_outcomes_are_named(value: JsonView, answer: JsonView)
    requires
        carries(value, "mutatingVerbResponse"@, "mutating verb"@, None, answer),
        !(answer.part("verb"@, 0) is Some && answer.part("verb"@, 0)->Some_0 is Text) || !(
        answer.part("outcome"@, 1) is Some && answer.part("outcome"@, 1)->Some_0 is Text),
    ensures
        mutation_answer(value) == Err::<Seq<char>, WlErrorView>(
            WlErrorView::Protocol("malformed mutatingVerbResponse"@),
        ),
{
}

/// Whether a counter is given, or zero where it is not.
pub open spec fn counter_given(part: Option<JsonView>, count: u64) -> bool {
    ||| part is None && count == 0
    ||| part == Some(JsonView::Unsigned(count)) && count <= u32::MAX
}

/// A verified store is told with its VM, its status and its three counters.
pub proof fn law_store_verification_is_told(
    value: JsonView,
    answer: JsonView,
    vm: Seq<char>,
    status: Seq<char>,
    checked: u64,
    drifted: u64,
    repaired: u64,
)
    requires
        carries(value, "storeVerifyResponse"@, "store verify"@, None, answer),
        answer.within(5),
        answer.part("vm"@, 0) == Some(JsonView::Text(vm)),
        answer.part("status"@, 1) == Some(JsonView::Text(status)),
        counter_given(answer.part("checked"@, 2), checked),
        counter_given(answer.part("drifted"@, 3), drifted),
        counter_given(answer.part("repaired"@, 4), repaired),
    ensures
        store_answer(value) == Ok::<Seq<char>, WlErrorView>(
            "store verify "@ + vm + ": status="@ + status + " checked="@ + decimal(checked as nat)
                + " drifted="@ + decimal(drifted as nat) + " repaired="@ + decimal(
                repaired as nat,
            ),
        ),
{
}

/// A verification that does not name its VM or its status is refused.
pub proof fn law_store_verification_is_named(value: JsonView, answer: JsonView)
    requires
        carries(value, "storeVerifyResponse"@, "store verify"@, None, answer),
        !(answer.part("vm"@, 0) is Some && answer.part("vm"@, 0)->Some_0 is Text) || !(answer.part(
            "status"@,
            1,
        ) is Some && answer.part("status"@, 1)->Some_0 is Text),
    ensures
        store_answer(value) == Err::<Seq<char>, WlErrorView>(
            WlErrorView::Protocol("malformed storeVerifyResponse"@),
        ),
{
}

/// A probe that is answered with the outcome of a failed change fails with that.
pub proof fn law_refused_probes_are_told(value: JsonView)
    requires
        value.text_field("type"@) == Some("mutatingVerbResponse"@),
        mutation_answer(value) is Err,
    ensures
        fails_with(probe_answer(value), mutation_answer(value)->Err_0),
{
}

/// An exit code may also be given as the code of an error: 10 and 11 are refusals.
pub proof fn law_error_codes(value: JsonView, detail: JsonView, kind: Seq<char>, code: u64)
    requires
        value.text_field("type"@) == Some("error"@),
        value.field("error"@) == Some(detail),
        detail is Object,
        detail.text_field("kind"@) == Some(kind),
        detail.text_field("message"@) is Some,
        detail.field("remediation"@) is None,
        detail.field("exitCode"@) is None,
        detail.field("code"@) == Some(JsonView::Unsigned(code)),
        code <= 255,
        !says(Some(kind), "authz-"@),
    ensures
        reported_error(value) is Some,
        reported_error(value)->Some_0 is Denied <==> code == 10 || code == 11,
{
    lemma_says(kind, "authz-"@);
}

/// Whether an entry describes the state of an audio channel.
pub open spec fn is_channel(entry: JsonView, name: Seq<char>) -> bool {
    entry.field(name) is Some && entry.field(name)->Some_0.field("muted"@) is Some && entry.field(
        name,
    )->Some_0.field("muted"@)->Some_0 is Bool
}

/// Whether a channel state tells what an entry says: whether it is muted, and its level
/// where that is a number of one byte.
pub open spec fn channel_told(entry: JsonView, name: Seq<char>, channel: AudioChannelState) -> bool {
    &&& entry.field(name)->Some_0.field("muted"@) == Some(JsonView::Bool(channel.muted))
    &&& channel.level is Some ==> entry.field(name)->Some_0.field("level"@) == Some(
        JsonView::Unsigned(channel.level->Some_0 as u64),
    )
    &&& channel.level is None ==> !(entry.field(name)->Some_0.field("level"@) is Some
        && entry.field(name)->Some_0.field("level"@)->Some_0 is Unsigned && entry.field(
        name,
    )->Some_0.field("level"@)->Some_0->Unsigned_0 <= 255)
}

/// Whether an entry describes the audio of a VM.
pub open spec fn is_audio_entry(entry: JsonView) -> bool {
    &&& entry.text_field("vm"@) is Some
    &&& is_channel(entry, "speaker"@)
    &&& is_channel(entry, "microphone"@)
}

/// Whether an audio state tells what an entry says.
pub open spec fn audio_told(entry: JsonView, audio: AudioStatusEntryView) -> bool {
    &&& entry.text_field("vm"@) == Some(audio.vm)
    &&& channel_told(entry, "speaker"@, audio.audio.speaker)
    &&& channel_told(entry, "microphone"@, audio.audio.microphone)
    &&& audio.audio.provider_kind == entry.text_field("providerKind"@)
    &&& audio.audio.enforcement == if entry.text_field("enforcement"@) is Some {
        entry.text_field("enforcement"@)->Some_0
    } else {
        "unknown"@
    }
    &&& audio.audio.error_kind == entry.text_field("errorKind"@)
    &&& audio.audio.remediation == entry.text_field("remediation"@)
}

/// Whether an audio failure tells what an entry says.
pub open spec fn audio_failure_told(entry: JsonView, error: AudioStatusErrorView) -> bool {
    &&& entry.text_field("vm"@) == Some(error.vm)
    &&& entry.text_field("kind"@) == Some(error.kind)
    &&& error.remediation == entry.text_field("remediation"@)
}

/// An audio status gives one state for each entry that describes one and one failure
/// for each error that names a VM and a kind, in their order.
pub proof fn law_audio_status_gives_the_described(value: JsonView, answer: JsonView)
    requires
        carries(value, "audioOpResponse"@, "audio"@, Some("result"@), answer),
    ensures
        audio_status_answer(value) is Ok,
        audio_op_answer(value) is Ok,
        answer.items_field("entries"@) is None ==> audio_status_answer(value)->Ok_0.entries.len()
            == 0,
        answer.items_field("entries"@) is Some ==> related(
            answer.items_field("entries"@)->Some_0,
            audio_status_answer(value)->Ok_0.entries,
            |item: JsonView| is_audio_entry(item),
            |item: JsonView, entry: AudioStatusEntryView| audio_told(item, entry),
        ),
        answer.items_field("errors"@) is None ==> audio_status_answer(value)->Ok_0.errors.len()
            == 0,
        answer.items_field("errors"@) is Some ==> related(
            answer.items_field("errors"@)->Some_0,
            audio_status_answer(value)->Ok_0.errors,
            |item: JsonView| item.text_field("vm"@) is Some && item.text_field("kind"@) is Some,
            |item: JsonView, error: AudioStatusErrorView| audio_failure_told(item, error),
        ),
{
    if let Some(items) = answer.items_field("entries"@) {
        lemma_filter_map_related(
            items,
            |item: JsonView| crate::reply::audio_entry(item),
            |item: JsonView| is_audio_entry(item),
            |item: JsonView, entry: AudioStatusEntryView| audio_told(item, entry),
        );
    }
    if let Some(items) = answer.items_field("errors"@) {
        lemma_filter_map_related(
            items,
            |item: JsonView| crate::reply::audio_failure(item),
            |item: JsonView| item.text_field("vm"@) is Some && item.text_field("kind"@) is Some,
            |item: JsonView, error: AudioStatusErrorView| audio_failure_told(item, error),
        );
    }
}

/// Whether a document is the hello of a daemon: it says so, or it names no type and
/// gives both versions.
pub open spec fn is_hello(value: JsonView) -> bool {
    ||| value.text_field("type"@) == Some("helloOk"@)
    ||| value.text_field("type"@) is None && value.field("serverVersion"@) is Some && value.field(
        "selectedVersion"@,
    ) is Some
}

/// A hello is accepted exactly where it is one, reports no error, and selects a
/// version that this client speaks.
pub proof fn law_hello_is_accepted(value: JsonView)
    ensures
        hello_verdict(value) is None <==> !is_error(value) && is_hello(value) && value.text_field(
            "selectedVersion"@,
        ) is Some && version_supported(value.text_field("selectedVersion"@)->Some_0),
        !is_error(value) && is_hello(value) && value.text_field("selectedVersion"@) is None
            ==> hello_verdict(value) == Some(
            WlErrorView::Protocol("helloOk missing selectedVersion"@),
        ),
        !is_error(value) && is_hello(value) && value.text_field("selectedVersion"@) is Some
            && !version_supported(value.text_field("selectedVersion"@)->Some_0) ==> hello_verdict(
            value,
        ) == Some(
            WlErrorView::Protocol(
                "nixlingd selected unsupported protocol version "@ + value.text_field(
                    "selectedVersion"@,
                )->Some_0,
            ),
        ),
        !is_error(value) && !is_hello(value) && value.text_field("type"@) != Some(
            "helloRejected"@,
        ) ==> hello_verdict(value) == Some(
            WlErrorView::Protocol("unexpected nixlingd hello response"@),
        ),
{
    reveal_strlit("helloOk");
    reveal_strlit("helloRejected");
    assert("helloOk"@.len() == 7 && "helloRejected"@.len() == 13);
}

/// A rejected hello without a description is told by its reason.
pub proof fn law_rejected_hello_is_told(value: JsonView)
    requires
        value.text_field("type"@) == Some("helloRejected"@),
        value.text_field("kind"@) != Some("error"@),
        value.field("error"@) is None,
    ensures
        value.text_field("reason"@) == Some("versionMismatch"@) ==> hello_verdict(value) == Some(
            WlErrorView::Protocol("nixlingd rejected client version"@),
        ),
        value.text_field("reason"@) == Some("capabilityNegotiationFailed"@) ==> hello_verdict(value)
            == Some(WlErrorView::Protocol("nixlingd rejected client capabilities"@)),
        forall|reason: Seq<char>|
            value.text_field("reason"@) == Some(reason) && reason != "versionMismatch"@ && reason
                != "capabilityNegotiationFailed"@ ==> hello_verdict(value) == Some(
                WlErrorView::Nixling(#[trigger] ("nixlingd rejected hello: "@ + reason)),
            ),
{
    reveal_strlit("helloRejected");
    reveal_strlit("error");
    reveal_strlit("versionMismatch");
    reveal_strlit("capabilityNegotiationFailed");
    reveal_strlit("unknown");
    assert("helloRejected"@.len() == 13 && "error"@.len() == 5);
    assert("versionMismatch"@.len() == 15 && "capabilityNegotiationFailed"@.len() == 27);
    assert("unknown"@.len() == 7);
}

proof fn lemma_dot(text: Seq<char>, at: int)
    requires
        0 <= at <= text.len(),
        at < text.len() ==> text[at] == '.',
        forall|i: int| 0 <= i < at ==> #[trigger] text[i] != '.',
    ensures
        crate::reply::dot_length(text) == at,
    decreases text.len(),
{
    if at > 0 {
        let rest = text.drop_first();
        assert forall|i: int| 0 <= i < at - 1 implies #[trigger] rest[i] != '.' by {
            assert(rest[i] == text[i + 1]);
        }
        assert(at < text.len() ==> rest[at - 1] == text[at]);
        lemma_dot(rest, at - 1);
    }
}

/// Of the versions that begin with a major and a minor number, exactly those that
/// begin with 0.4 are spoken, whatever follows behind a further dot.
pub proof fn law_spoken_versions(major: nat, minor: nat, rest: Seq<char>)
    requires
        rest.len() > 0 ==> rest[0] == '.',
    ensures
        version_supported(decimal(major) + "."@ + decimal(minor) + rest) <==> major == 0 && minor
            == 4,
{
    reveal_strlit(".");
    crate::text::lemma_decimal_denotes(major);
    crate::text::lemma_decimal_denotes(minor);
    let version = decimal(major) + "."@ + decimal(minor) + rest;
    let first = decimal(major).len() as int;
    assert forall|i: int| 0 <= i < first implies #[trigger] version[i] != '.' by {
        assert(version[i] == decimal(major)[i]);
        assert(crate::text::is_digit(decimal(major)[i]));
    }
    assert(version[first] == "."@[0]);
    lemma_dot(version, first);
    assert(version.take(first) =~= decimal(major));
    let tail = version.skip(first + 1);
    assert(tail =~= decimal(minor) + rest);
    let second = decimal(minor).len() as int;
    assert forall|i: int| 0 <= i < second implies #[trigger] tail[i] != '.' by {
        assert(tail[i] == decimal(minor)[i]);
        assert(crate::text::is_digit(decimal(minor)[i]));
    }
    assert(second < tail.len() ==> tail[second] == rest[0]);
    lemma_dot(tail, second);
    assert(tail.take(second) =~= decimal(minor));
}

} // verus!
