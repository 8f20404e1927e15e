//! The session: from a line of input to the line to write.

use crate::config::{ConfigView, ServerConfig};
use crate::git::CURRENT_DIRECTORY;
use crate::json::{json_parsed, json_rendered, option_view, parse, render, Json, JsonView};
use crate::protocol::{
    config_after, decoded, dispatch, dispatched, reply, request_view, respond, Dispatch,
    DispatchView, Payload, PayloadView, Request, RequestView,
};
use crate::text::lines_of;
use crate::tools::{may_report, run_tool, ToolResult, ToolResultView};
use vstd::prelude::*;

verus! {

/// Whether `answer` is what the server may hand back for `request` under
/// the configuration `config`. Where the request calls a tool, the answer
/// carries what the tool reports for some outcome that the repository can
/// give; everywhere else the request and the configuration decide it.
pub open spec fn may_answer(request: RequestView, config: ConfigView, answer: Option<JsonView>) -> bool {
    match dispatched(request, config) {
        DispatchView::Done(payload) => answer == reply(request.id, payload),
        DispatchView::Call(call) => exists|report: ToolResultView|
            may_report(call, report) && answer == reply(
                request.id,
                Some(PayloadView::Result(report.json())),
            ),
    }
}

/// The text of an optional answer.
pub open spec fn rendered(answer: Option<JsonView>) -> Option<Seq<char>> {
    match answer {
        Some(a) => Some(json_rendered(a)),
        None => None,
    }
}

/// The text of an optional line.
pub open spec fn line_view(line: Option<String>) -> Option<Seq<char>> {
    match line {
        Some(text) => Some(text@),
        None => None,
    }
}

/// The request that the line `line` holds: none where the line is no JSON
/// or its JSON holds no request.
pub open spec fn line_request(line: Seq<char>) -> Option<RequestView> {
    match json_parsed(line) {
        Some(message) => decoded(message),
        None => None,
    }
}

/// Whether `answer` is what the server may write for the line `line`:
/// nothing where the line holds no request.
pub open spec fn may_answer_line(
    line: Seq<char>,
    config: ConfigView,
    answer: Option<Seq<char>>,
) -> bool {
    match line_request(line) {
        Some(request) => exists|a: Option<JsonView>|
            may_answer(request, config, a) && answer == rendered(a),
        None => answer is None,
    }
}

/// The configuration after the line `line`.
pub open spec fn config_after_line(line: Seq<char>, config: ConfigView) -> ConfigView {
    match line_request(line) {
        Some(request) => config_after(request, config),
        None => config,
    }
}

/// What an answer adds to the lines written: the line, where there is one.
pub open spec fn answered(answer: Option<Seq<char>>) -> Seq<Seq<char>> {
    match answer {
        Some(line) => seq![line],
        None => Seq::empty(),
    }
}

/// The configuration after the lines `lines`, handled in their order.
pub open spec fn config_after_lines(lines: Seq<Seq<char>>, config: ConfigView) -> ConfigView
    decreases lines.len(),
{
    if lines.len() == 0 {
        config
    } else {
        config_after_line(lines.last(), config_after_lines(lines.drop_last(), config))
    }
}

/// Whether `written` is what the server may write for the lines `lines`:
/// the answers to the lines in the order of the lines, each line handled
/// under the configuration that the lines before it left, and nothing for a
/// line that gets no answer.
pub open spec fn may_answer_lines(
    lines: Seq<Seq<char>>,
    config: ConfigView,
    written: Seq<Seq<char>>,
) -> bool
    decreases lines.len(),
{
    if lines.len() == 0 {
        written.len() == 0
    } else {
        exists|earlier: Seq<Seq<char>>, answer: Option<Seq<char>>|
            may_answer_lines(lines.drop_last(), config, earlier) && may_answer_line(
                lines.last(),
                config_after_lines(lines.drop_last(), config),
                answer,
            ) && written == earlier + answered(answer)
    }
}

/// Reads the request that `line` holds, where it holds one.
pub fn decode_line(line: &str) -> (r: Option<Request>)
    ensures
        request_view(r) == line_request(line@),
{
    match parse(line) {
        Some(message) => Request::decode(message),
        None => None,
    }
}

/// Writes `response` as one line of compact JSON.
pub fn encode_line(response: &Json) -> (r: String)
    ensures
        r@ == json_rendered(response@),
{
    render(response)
}

/// The response to a call of a tool that reported `report`, for a message
/// with the id `id`.
pub fn respond_with_report(id: Option<Json>, report: ToolResult) -> (r: Option<Json>)
    ensures
        option_view(r) == reply(option_view(id), Some(PayloadView::Result(report@.json()))),
{
    respond(id, Some(Payload::Result(report.into_json())))
}

/// A session: the configuration, and the directory of the repository that
/// the tools work on.
#[derive(Debug, PartialEq, Eq)]
pub struct Server {
    pub config: ServerConfig,
    pub repo_dir: String,
}

impl Server {
    /// A session on the repository in the current directory, with the
    /// configuration that every session starts with.
    pub fn new() -> (r: Server)
        ensures
            r.config@ == ConfigView::initial(),
            r.repo_dir@ == CURRENT_DIRECTORY@,
    {
        Server::at(CURRENT_DIRECTORY)
    }

    /// A session on the repository at `dir`, with the configuration that
    /// every session starts with.
    pub fn at(dir: &str) -> (r: Server)
        ensures
            r.config@ == ConfigView::initial(),
            r.repo_dir@ == dir@,
    {
        Server { config: ServerConfig::new(), repo_dir: dir.to_owned() }
    }

    /// Carries out `request` and hands back the response, where one is due.
    /// A call of a tool is carried out on the repository whether the request
    /// carries an id or not; only the response depends on the id.
    pub fn handle_request(&mut self, request: Request) -> (r: Option<Json>)
        ensures
            may_answer(request@, old(self).config@, option_view(r)),
            final(self).config@ == config_after(request@, old(self).config@),
            final(self).repo_dir@ == old(self).repo_dir@,
    {
        let step = dispatch(&request, &mut self.config);
        match step {
            Dispatch::Done(payload) => respond(request.id, payload),
            Dispatch::Call(call) => {
                let report = run_tool(call, self.repo_dir.as_str());
                respond_with_report(request.id, report)
            },
        }
    }

    /// Handles one line of input and hands back the line to write, where a
    /// response is due. A line that holds no request is dropped: it changes
    /// nothing and gets no response.
    pub fn handle_line(&mut self, line: &str) -> (r: Option<String>)
        ensures
            may_answer_line(line@, old(self).config@, line_view(r)),
            final(self).config@ == config_after_line(line@, old(self).config@),
            final(self).repo_dir@ == old(self).repo_dir@,
    {
        match decode_line(line) {
            Some(request) => {
                let answer = self.handle_request(request);
                let ghost seen = option_view(answer);
                let written = match answer {
                    Some(response) => Some(encode_line(&response)),
                    None => None,
                };
                assert(may_answer(line_request(line@)->0, old(self).config@, seen) && line_view(
                    written,
                ) == rendered(seen));
                written
            },
            None => None,
        }
    }

    /// Handles the lines `lines` one after another and hands back the lines
    /// to write, in the order of the lines that they answer.
    pub fn handle_lines(&mut self, lines: &Vec<String>) -> (written: Vec<String>)
        ensures
            may_answer_lines(lines_of(lines@), old(self).config@, lines_of(written@)),
            final(self).config@ == config_after_lines(lines_of(lines@), old(self).config@),
            final(self).repo_dir@ == old(self).repo_dir@,
    {
        let ghost all = lines_of(lines@);
        let ghost start = self.config@;
        let mut written: Vec<String> = Vec::new();
        let mut i: usize = 0;
        proof {
            assert(all.take(0).len() == 0);
            assert(lines_of(written@).len() == 0);
        }
        while i < lines.len()
            invariant
                i <= lines.len(),
                all == lines_of(lines@),
                may_answer_lines(all.take(i as int), start, lines_of(written@)),
                self.config@ == config_after_lines(all.take(i as int), start),
                self.repo_dir@ == old(self).repo_dir@,
            decreases lines.len() - i,
        {
            let ghost earlier = lines_of(written@);
            let answer = self.handle_line(lines[i].as_str());
            let ghost seen = line_view(answer);
            if let Some(line) = answer {
                written.push(line);
            }
            proof {
                let upto = all.take(i + 1);
                assert(upto.last() == lines@[i as int]@);
                assert(upto.drop_last() =~= all.take(i as int));
                assert(lines_of(written@) =~= earlier + answered(seen));
            }
            i += 1;
        }
        proof {
            assert(all.take(lines.len() as int) =~= all);
        }
        written
    }
}

} // verus!
