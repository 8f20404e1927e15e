//! What holds across the functions of the library, stated over the values
//! that their contracts speak of, and proved.

use crate::config::ConfigView;
use crate::git::{confirmation, is_commit, is_staged_diff, GitErrorView, NOTHING_STAGED};
use crate::json::{json_rendered, lemma_member_added, string, strings_in, JsonView};
use crate::protocol::{
    config_after, dispatched, handshake, lemma_methods_differ, method_not_found, reply, response,
    DispatchView, PayloadView, RequestView, INITIALIZE, INITIALIZED, JSONRPC_VERSION, TOOLS_CALL,
    TOOLS_LIST,
};
use crate::server::{
    answered, config_after_line, config_after_lines, line_request, may_answer, may_answer_line,
    may_answer_lines, rendered,
};
use crate::tools::{
    catalog, catalog_json, commit_report, diff_report, lemma_tools_differ, may_report,
    requested_call, staged_diff_description, staging_report, unstaged_report, ToolCallView,
    ToolResultView, DIFF_GUIDANCE, EXECUTE_COMMIT, GET_STAGED_DIFF, LIST_UNSTAGED, STAGE_FILES,
    UNKNOWN_TOOL,
};
use vstd::prelude::*;

verus! {

/// Every response carries the protocol version and, under `id`, the id it
/// was made for.
pub proof fn law_response_echoes_id(id: JsonView, payload: PayloadView)
    ensures
        response(id, payload).member("id"@) == Some(id),
        response(id, payload).member("jsonrpc"@) == Some(string(JSONRPC_VERSION)),
        payload matches PayloadView::Result(result) ==> response(id, payload).member("result"@)
            == Some(result) && response(id, payload).member("error"@) is None,
        payload is MethodNotFound ==> response(id, payload).member("result"@) is None
            && response(id, payload).member("error"@) is Some,
{
    reveal_strlit("jsonrpc");
    reveal_strlit("id");
    reveal_strlit("result");
    reveal_strlit("error");
    assert("jsonrpc"@.len() == 7);
    assert("id"@.len() == 2);
    assert("result"@.len() == 6);
    assert("error"@.len() == 5);
    let empty = JsonView::object();
    let first = empty.with("jsonrpc", string(JSONRPC_VERSION));
    let head = first.with("id", id);
    assert(empty.member("result"@) is None);
    assert(empty.member("error"@) is None);
    lemma_member_added(empty, "jsonrpc", string(JSONRPC_VERSION), "jsonrpc"@);
    lemma_member_added(empty, "jsonrpc", string(JSONRPC_VERSION), "result"@);
    lemma_member_added(empty, "jsonrpc", string(JSONRPC_VERSION), "error"@);
    lemma_member_added(first, "id", id, "id"@);
    lemma_member_added(first, "id", id, "jsonrpc"@);
    lemma_member_added(first, "id", id, "result"@);
    lemma_member_added(first, "id", id, "error"@);
    match payload {
        PayloadView::Result(result) => {
            lemma_member_added(head, "result", result, "id"@);
            lemma_member_added(head, "result", result, "jsonrpc"@);
            lemma_member_added(head, "result", result, "result"@);
            lemma_member_added(head, "result", result, "error"@);
        },
        PayloadView::MethodNotFound => {
            let error = method_not_found();
            lemma_member_added(head, "error", error, "id"@);
            lemma_member_added(head, "error", error, "jsonrpc"@);
            lemma_member_added(head, "error", error, "result"@);
            lemma_member_added(head, "error", error, "error"@);
        },
    }
}

/// A request with an id gets a response, and the response carries that id;
/// a notification gets none. The acknowledgement of the handshake is left
/// out here: it is never answered, whether it carries an id or not.
pub proof fn law_response_iff_id(request: RequestView, config: ConfigView, answer: Option<JsonView>)
    requires
        may_answer(request, config, answer),
        request.method != INITIALIZED@,
    ensures
        request.id is None ==> answer is None,
        request.id matches Some(id) ==> answer matches Some(a) && a.member("id"@) == Some(id),
{
    if let Some(id) = request.id {
        match dispatched(request, config) {
            DispatchView::Done(payload) => {
                law_response_echoes_id(id, payload->0);
            },
            DispatchView::Call(call) => {
                let report = choose|report: ToolResultView|
                    may_report(call, report) && answer == reply(
                        request.id,
                        Some(PayloadView::Result(report.json())),
                    );
                law_response_echoes_id(id, PayloadView::Result(report.json()));
            },
        }
    }
}

/// A notification is never answered, whatever its method: not with a
/// result, not with the report of a tool, and not with the error for an
/// unknown method.
pub proof fn law_notification_unanswered(
    request: RequestView,
    config: ConfigView,
    answer: Option<JsonView>,
)
    requires
        may_answer(request, config, answer),
        request.id is None,
    ensures
        answer is None,
{
}

/// The acknowledgement of the handshake is never answered and changes
/// nothing.
pub proof fn law_acknowledgement_unanswered(
    request: RequestView,
    config: ConfigView,
    answer: Option<JsonView>,
)
    requires
        may_answer(request, config, answer),
        request.method == INITIALIZED@,
    ensures
        answer is None,
        config_after(request, config) == config,
{
    lemma_methods_differ();
}

/// A line that is no JSON, or whose JSON holds no request, gets no response
/// and leaves the configuration as it was: the lines after it are handled
/// as if it had never come.
pub proof fn law_malformed_line_dropped(line: Seq<char>, config: ConfigView, answer: Option<Seq<char>>)
    requires
        line_request(line) is None,
        may_answer_line(line, config, answer),
    ensures
        answer is None,
        config_after_line(line, config) == config,
{
}

/// A line that holds a request with an id is answered with one line, the
/// text of a response that carries that id, unless the request is the
/// acknowledgement of the handshake; a line that holds a notification is not
/// answered.
pub proof fn law_line_answered_iff_id(
    line: Seq<char>,
    request: RequestView,
    config: ConfigView,
    answer: Option<Seq<char>>,
)
    requires
        line_request(line) == Some(request),
        request.method != INITIALIZED@,
        may_answer_line(line, config, answer),
    ensures
        answer is Some <==> request.id is Some,
        answer matches Some(text) ==> exists|response: JsonView|
            text == json_rendered(response) && response.member("id"@) == request.id,
{
    let a = choose|a: Option<JsonView>|
        may_answer(request, config, a) && answer == rendered(a);
    law_response_iff_id(request, config, a);
    if let Some(response) = a {
        assert(answer->0 == json_rendered(response) && response.member("id"@) == request.id);
    }
}

/// No more lines are written than were read: every line gets one answer or
/// none.
pub proof fn law_at_most_one_answer_each(
    lines: Seq<Seq<char>>,
    config: ConfigView,
    written: Seq<Seq<char>>,
)
    requires
        may_answer_lines(lines, config, written),
    ensures
        written.len() <= lines.len(),
    decreases lines.len(),
{
    if lines.len() > 0 {
        let (earlier, answer) = choose|earlier: Seq<Seq<char>>, answer: Option<Seq<char>>|
            may_answer_lines(lines.drop_last(), config, earlier) && may_answer_line(
                lines.last(),
                config_after_lines(lines.drop_last(), config),
                answer,
            ) && written == earlier + answered(answer);
        law_at_most_one_answer_each(lines.drop_last(), config, earlier);
    }
}

/// A line that holds no request leaves no trace: what is written for the
/// lines around it, and the configuration that they leave, are what they
/// would be had the line never come.
pub proof fn law_malformed_line_leaves_no_trace(
    before: Seq<Seq<char>>,
    malformed: Seq<char>,
    after: Seq<Seq<char>>,
    config: ConfigView,
    written: Seq<Seq<char>>,
)
    requires
        line_request(malformed) is None,
        may_answer_lines(before + seq![malformed] + after, config, written),
    ensures
        may_answer_lines(before + after, config, written),
        config_after_lines(before + seq![malformed] + after, config) == config_after_lines(
            before + after,
            config,
        ),
    decreases after.len(),
{
    let with = before + seq![malformed] + after;
    let without = before + after;
    let (earlier, answer) = choose|earlier: Seq<Seq<char>>, answer: Option<Seq<char>>|
        may_answer_lines(with.drop_last(), config, earlier) && may_answer_line(
            with.last(),
            config_after_lines(with.drop_last(), config),
            answer,
        ) && written == earlier + answered(answer);
    if after.len() == 0 {
        assert(with.drop_last() =~= before);
        assert(without =~= before);
        assert(with.last() == malformed);
        assert(written =~= earlier);
    } else {
        assert(with.drop_last() =~= before + seq![malformed] + after.drop_last());
        assert(without.drop_last() =~= before + after.drop_last());
        assert(with.last() == after.last());
        assert(without.last() == after.last());
        law_malformed_line_leaves_no_trace(before, malformed, after.drop_last(), config, earlier);
    }
}

/// The strings of an array with one more entry at its end: one more string
/// where the entry is a string, else the same strings. With the empty array,
/// which holds none, this fixes the strings of every array: they keep their
/// order, and every other entry is left out.
pub proof fn law_strings_in_order(items: Seq<JsonView>, last: JsonView)
    ensures
        strings_in(Seq::empty()) == Seq::<Seq<char>>::empty(),
        last matches JsonView::Str(text) ==> strings_in(items.push(last)) == strings_in(
            items,
        ).push(text),
        !(last is Str) ==> strings_in(items.push(last)) == strings_in(items),
{
    let pick = |item: JsonView| item.as_text();
    assert(items.push(last).drop_last() =~= items);
    assert(items.push(last).last() == last);
    assert(items.push(last).filter_map(pick) == strings_in(items.push(last)));
    if let JsonView::Str(text) = last {
        assert(strings_in(items) + seq![text] =~= strings_in(items).push(text));
    }
}

/// A handshake whose options hold a string under `commitFormat` leaves a
/// template of exactly that one line; one whose options hold an array there
/// leaves the strings of the array, in their order.
pub proof fn law_commit_format_replaced(
    request: RequestView,
    config: ConfigView,
    options: JsonView,
)
    requires
        request.method == INITIALIZE@,
        request.params matches Some(params) && params.member("options"@) == Some(options),
    ensures
        options.member("commitFormat"@) matches Some(JsonView::Str(line)) ==> config_after(
            request,
            config,
        ).commit_format == seq![line],
        options.member("commitFormat"@) matches Some(JsonView::Array(items)) ==> config_after(
            request,
            config,
        ).commit_format == strings_in(items),
        options.member("extraConstraints"@) matches Some(JsonView::Array(items)) ==> config_after(
            request,
            config,
        ).extra_constraints == strings_in(items),
{
}

/// A handshake without options, or with options that hold neither
/// `commitFormat` nor `extraConstraints`, leaves the template and the
/// constraints as they were, so that the diff tool is described as before;
/// and it is answered with the fixed result.
pub proof fn law_unconfigured_handshake_keeps_config(
    request: RequestView,
    config: ConfigView,
    answer: Option<JsonView>,
)
    requires
        request.method == INITIALIZE@,
        request.params matches Some(params) ==> (params.member("options"@) matches Some(options)
            ==> options.member("commitFormat"@) is None && options.member("extraConstraints"@)
            is None),
        may_answer(request, config, answer),
    ensures
        config_after(request, config) == config,
        staged_diff_description(config_after(request, config)) == staged_diff_description(config),
        answer == reply(request.id, Some(PayloadView::Result(handshake()))),
{
}

/// A handshake is answered with the same result whatever its parameters
/// hold, and whatever the configuration was.
pub proof fn law_handshake_fixed(request: RequestView, config: ConfigView, answer: Option<JsonView>)
    requires
        request.method == INITIALIZE@,
        may_answer(request, config, answer),
    ensures
        answer == reply(request.id, Some(PayloadView::Result(handshake()))),
{
}

/// The catalog holds the four tools, in this order, under every
/// configuration; only the description of the diff tool depends on it.
pub proof fn law_catalog_has_four_tools(config: ConfigView, other: ConfigView)
    ensures
        catalog(config).len() == 4,
        catalog(config)[0].name == LIST_UNSTAGED@,
        catalog(config)[1].name == STAGE_FILES@,
        catalog(config)[2].name == GET_STAGED_DIFF@,
        catalog(config)[3].name == EXECUTE_COMMIT@,
        catalog(config)[0] == catalog(other)[0],
        catalog(config)[1] == catalog(other)[1],
        catalog(config)[2].input_schema == catalog(other)[2].input_schema,
        catalog(config)[3] == catalog(other)[3],
{
}

/// A request for the catalog that follows a handshake is answered from the
/// configuration that the handshake left: the description of the diff tool
/// is rendered from the template and the constraints of that moment.
pub proof fn law_catalog_follows_handshake(
    handshake: RequestView,
    listing: RequestView,
    config: ConfigView,
    answer: Option<JsonView>,
)
    requires
        handshake.method == INITIALIZE@,
        listing.method == TOOLS_LIST@,
        listing.id is Some,
        may_answer(listing, config_after(handshake, config), answer),
    ensures
        answer == Some(
            response(
                listing.id->0,
                PayloadView::Result(catalog_json(config.configured(handshake.params))),
            ),
        ),
        catalog(config.configured(handshake.params))[2].name == GET_STAGED_DIFF@,
        catalog(config.configured(handshake.params))[2].description == staged_diff_description(
            config.configured(handshake.params),
        ),
        config_after(listing, config_after(handshake, config)) == config.configured(
            handshake.params,
        ),
{
    lemma_methods_differ();
}

/// A call of a tool that the catalog does not hold, or a call without a
/// name, is answered like any other call: with a result, whose report is
/// marked as an error.
pub proof fn law_unknown_tool_in_band(
    request: RequestView,
    config: ConfigView,
    answer: Option<JsonView>,
)
    requires
        request.method == TOOLS_CALL@,
        request.id is Some,
        may_answer(request, config, answer),
        request.params matches Some(params) ==> (params.member("name"@) matches Some(
            JsonView::Str(name),
        ) ==> name != LIST_UNSTAGED@ && name != STAGE_FILES@ && name != GET_STAGED_DIFF@ && name
            != EXECUTE_COMMIT@),
    ensures
        requested_call(request.params) is Unknown,
        answer == Some(
            response(request.id->0, PayloadView::Result(ToolResultView::unknown_tool().json())),
        ),
        ToolResultView::unknown_tool().is_error,
        ToolResultView::unknown_tool().text == UNKNOWN_TOOL@,
        config_after(request, config) == config,
{
    lemma_methods_differ();
}

/// A call of a tool that carries an id is always answered, under that id,
/// with a result and never with an error object, whatever its parameters
/// hold and whatever the repository does: the result is the report of the
/// call for some outcome.
pub proof fn law_tool_call_answered_in_band(
    request: RequestView,
    config: ConfigView,
    answer: Option<JsonView>,
)
    requires
        request.method == TOOLS_CALL@,
        request.id is Some,
        may_answer(request, config, answer),
    ensures
        answer matches Some(a) && a.member("id"@) == request.id && a.member("error"@) is None
            && exists|report: ToolResultView|
            may_report(requested_call(request.params), report) && a.member("result"@) == Some(
                report.json(),
            ),
        config_after(request, config) == config,
{
    lemma_methods_differ();
    let call = requested_call(request.params);
    let report = choose|report: ToolResultView|
        may_report(call, report) && answer == reply(
            request.id,
            Some(PayloadView::Result(report.json())),
        );
    law_response_echoes_id(request.id->0, PayloadView::Result(report.json()));
    assert(may_report(call, report) && answer->0.member("result"@) == Some(report.json()));
}

/// A failure of the repository is reported by every tool in the same way:
/// with the message of the error, marked as an error.
pub proof fn law_failure_reported_with_message(error: GitErrorView)
    ensures
        unstaged_report(Err(error)) == ToolResultView::failure(error),
        staging_report(Err(error)) == ToolResultView::failure(error),
        diff_report(Err(error)) == ToolResultView::failure(error),
        commit_report(Err(error)) == ToolResultView::failure(error),
        ToolResultView::failure(error).is_error,
        ToolResultView::failure(error).text == error.message(),
{
}

/// A report of the diff tool that tells of no failure holds a diff that is
/// not empty, and the guidance after it.
pub proof fn law_reported_diff_not_empty(report: ToolResultView)
    requires
        may_report(ToolCallView::GetStagedDiff, report),
        !report.is_error,
    ensures
        exists|diff: Seq<char>| diff.len() > 0 && report.text == diff + DIFF_GUIDANCE@,
{
    let outcome = choose|outcome: Result<Seq<char>, GitErrorView>|
        is_staged_diff(outcome) && report == diff_report(outcome);
    let diff = outcome->Ok_0;
    assert(diff.len() > 0 && report.text == diff + DIFF_GUIDANCE@);
}

/// A report of the commit tool that tells of no failure is the confirmation
/// of a commit whose identifier is not empty.
pub proof fn law_reported_commit_names_identifier(message: Seq<char>, report: ToolResultView)
    requires
        may_report(ToolCallView::ExecuteCommit(message), report),
        !report.is_error,
    ensures
        exists|id: Seq<char>| id.len() > 0 && report.text == confirmation(id),
{
    let outcome = choose|outcome: Result<Seq<char>, GitErrorView>|
        is_commit(outcome) && report == commit_report(outcome);
    assert(outcome is Ok);
}

/// A call of the staging tool whose arguments are missing, or hold no array
/// under `paths`, or an empty one, asks to stage nothing.
pub proof fn law_missing_paths_stage_nothing(params: JsonView)
    requires
        params.member("name"@) == Some(JsonView::Str(STAGE_FILES@)),
        params.member("arguments"@) matches Some(arguments) ==> (arguments.member("paths"@)
            matches Some(JsonView::Array(items)) ==> items.len() == 0),
    ensures
        requested_call(Some(params)) == ToolCallView::StageFiles(Seq::empty()),
{
    lemma_tools_differ();
}

/// Where nothing is staged, the diff tool reports a failure, with the text
/// of that error: never a success with an empty diff.
pub proof fn law_nothing_staged_reported_as_failure()
    ensures
        diff_report(Err(GitErrorView::NothingStaged)) == (ToolResultView {
            text: NOTHING_STAGED@,
            is_error: true,
        }),
{
}

} // verus!
