//! The catalog of tools, the calls that a request can ask for, and what each
//! call reports for every outcome of its work on the repository.

use crate::config::{ConfigView, ServerConfig};
use crate::git::{
    files_outcome, is_commit, is_listing, is_staged_diff, is_staging, text_outcome, GitError,
    GitErrorView, GitHandler,
};
use crate::json::{
    lemma_array_view, ref_view, string, string_items, strings_in, views, Json, JsonView,
};
use crate::text::{is_text, join, joined, lines_of};
use vstd::prelude::*;
use vstd::string::StringExecFns;

verus! {

/// The name of the tool that lists unstaged files.
pub const LIST_UNSTAGED: &'static str = "list_unstaged";

/// The name of the tool that stages files.
pub const STAGE_FILES: &'static str = "stage_files";

/// The name of the tool that fetches the staged diff.
pub const GET_STAGED_DIFF: &'static str = "get_staged_diff";

/// The name of the tool that commits.
pub const EXECUTE_COMMIT: &'static str = "execute_commit";

/// What the listing tool is advertised with.
pub const LIST_UNSTAGED_DESCRIPTION: &'static str = "列出当前项目中所有未暂存（unstaged）或未跟踪（untracked）的文件。";

/// What the staging tool is advertised with.
pub const STAGE_FILES_DESCRIPTION: &'static str = "将指定的文件添加到 Git 暂存区。";

/// What the `paths` argument is advertised with.
pub const PATHS_DESCRIPTION: &'static str = "要暂存的文件路径列表";

/// How the description of the diff tool begins: the workflow that a caller
/// has to follow, up to the heading of the commit format.
pub const STAGED_DIFF_INTRODUCTION: &'static str = "获取当前 git 暂存区的变更内容 (git diff --staged)。\n\n\
    ### 工作流要求：\n\
    1. 生成提交信息：根据变更内容总结出一个提交信息草稿。\n\
    2. 处理 PMS 单号：\n\
    - 如果无法确定单号，**必须**询问用户提供。\n\
    - 如果用户提供了单号，将其填入提交信息。\n\
    - 如果用户明确表示没有单号，**必须从最终提交信息中删除整个 PMS 行**。\n\
    3. 用户预览与修改：展示草稿，询问用户确认。\n\
    4. 严禁直接提交：必须得到用户明确确认后才能执行 execute_commit。\n\n\
    ### 提交格式要求：\n";

/// What stands between the commit format and the constraints in the
/// description of the diff tool.
pub const CONSTRAINTS_HEADING: &'static str = "\n\n### 额外约束：\n";

/// What the commit tool is advertised with.
pub const EXECUTE_COMMIT_DESCRIPTION: &'static str = "执行提交。请在用户确认了你总结的提交信息后再调用此工具。";

/// What the `message` argument is advertised with.
pub const MESSAGE_DESCRIPTION: &'static str = "提交信息";

/// The listing of a working tree without unstaged files.
pub const NOTHING_UNSTAGED: &'static str = "暂无未暂存的文件。";

/// What stands above a listing of unstaged files.
pub const UNSTAGED_HEADING: &'static str = "未暂存的文件：\n";

/// What follows a listing of unstaged files: the caller confirms the
/// selection with the user before staging.
pub const UNSTAGED_GUIDANCE: &'static str = "\n\n工作流提醒：\n1. 请向用户展示上述文件列表。\n2. **必须**请用户确认哪些文件需要被暂存（git add）。\n3. 只有在用户明确指定文件后，才可调用 `stage_files`。";

/// The report of a successful staging, with the hint to fetch the diff next.
pub const STAGED_GUIDANCE: &'static str = "文件已成功暂存。\n\n提示：现在请使用 `get_staged_diff` 获取变更差异并生成提交信息草稿。";

/// What follows a staged diff: the caller drafts a message, confirms the
/// issue reference and asks for confirmation before committing.
pub const DIFF_GUIDANCE: &'static str = "\n\n工作流提醒：\n1. 请根据上述差异总结一个提交信息草稿。\n2. **必须**询问用户确认 PMS 单号（格式如 BUG-123 或 TASK-456）。\n3. 展示最终提交信息并请求用户明确确认。\n4. 只有在用户确认后，才可调用 `execute_commit`。";

/// The report of a call to a tool that the catalog does not hold.
pub const UNKNOWN_TOOL: &'static str = "未知工具";

/// The names of the four tools differ from one another.
pub proof fn lemma_tools_differ()
    ensures
        LIST_UNSTAGED@ != STAGE_FILES@,
        LIST_UNSTAGED@ != GET_STAGED_DIFF@,
        LIST_UNSTAGED@ != EXECUTE_COMMIT@,
        STAGE_FILES@ != GET_STAGED_DIFF@,
        STAGE_FILES@ != EXECUTE_COMMIT@,
        GET_STAGED_DIFF@ != EXECUTE_COMMIT@,
{
    reveal_strlit("list_unstaged");
    reveal_strlit("stage_files");
    reveal_strlit("get_staged_diff");
    reveal_strlit("execute_commit");
    assert(LIST_UNSTAGED@.len() == 13);
    assert(STAGE_FILES@.len() == 11);
    assert(GET_STAGED_DIFF@.len() == 15);
    assert(EXECUTE_COMMIT@.len() == 14);
}

/// A tool as the catalog advertises it.
#[derive(Debug, PartialEq, Eq)]
pub struct Tool {
    pub name: String,
    pub description: String,
    pub input_schema: Json,
}

/// The mathematical value of a [`Tool`].
pub struct ToolView {
    pub name: Seq<char>,
    pub description: Seq<char>,
    pub input_schema: JsonView,
}

impl View for Tool {
    type V = ToolView;

    open spec fn view(&self) -> ToolView {
        ToolView {
            name: self.name@,
            description: self.description@,
            input_schema: self.input_schema@,
        }
    }
}

/// The values of a list of tools, one for one.
pub open spec fn tool_views(tools: Seq<Tool>) -> Seq<ToolView> {
    Seq::new(tools.len(), |i: int| tools[i]@)
}

/// The schema of a tool that takes no argument.
pub open spec fn no_arguments() -> JsonView {
    JsonView::object().with("type", string("object")).with("properties", JsonView::object())
}

/// The schema of a tool that takes the one required argument `name`, whose
/// own schema is `schema`.
pub open spec fn one_argument(name: &str, schema: JsonView) -> JsonView {
    JsonView::object().with("type", string("object")).with(
        "properties",
        JsonView::object().with(name, schema),
    ).with("required", JsonView::list_of(string(name)))
}

/// The schema of the `paths` argument: an array of strings.
pub open spec fn paths_schema() -> JsonView {
    JsonView::object().with("type", string("array")).with(
        "items",
        JsonView::object().with("type", string("string")),
    ).with("description", string(PATHS_DESCRIPTION))
}

/// The schema of the `message` argument: a string.
pub open spec fn message_schema() -> JsonView {
    JsonView::object().with("type", string("string")).with(
        "description",
        string(MESSAGE_DESCRIPTION),
    )
}

/// The description of the diff tool under the configuration `config`: the
/// workflow, then the commit format, then the constraints.
pub open spec fn staged_diff_description(config: ConfigView) -> Seq<char> {
    STAGED_DIFF_INTRODUCTION@ + config.format_hint() + CONSTRAINTS_HEADING@
        + config.constraints_hint()
}

/// The four tools, as advertised under the configuration `config`.
pub open spec fn catalog(config: ConfigView) -> Seq<ToolView> {
    seq![
        ToolView {
            name: LIST_UNSTAGED@,
            description: LIST_UNSTAGED_DESCRIPTION@,
            input_schema: no_arguments(),
        },
        ToolView {
            name: STAGE_FILES@,
            description: STAGE_FILES_DESCRIPTION@,
            input_schema: one_argument("paths", paths_schema()),
        },
        ToolView {
            name: GET_STAGED_DIFF@,
            description: staged_diff_description(config),
            input_schema: no_arguments(),
        },
        ToolView {
            name: EXECUTE_COMMIT@,
            description: EXECUTE_COMMIT_DESCRIPTION@,
            input_schema: one_argument("message", message_schema()),
        },
    ]
}

impl ToolView {
    /// The tool as a JSON object.
    pub open spec fn json(self) -> JsonView {
        JsonView::object().with("name", JsonView::Str(self.name)).with(
            "description",
            JsonView::Str(self.description),
        ).with("input_schema", self.input_schema)
    }
}

/// The answer to a request for the catalog: all tools under `tools`.
pub open spec fn catalog_json(config: ConfigView) -> JsonView {
    JsonView::object().with(
        "tools",
        JsonView::Array(catalog(config).map_values(|tool: ToolView| tool.json())),
    )
}

/// The schema of a tool that takes no argument.
fn schema_without_arguments() -> (r: Json)
    ensures
        r@ == no_arguments(),
{
    Json::object().with("type", Json::text("object")).with("properties", Json::object())
}

/// The schema of a tool that takes the one required argument `name`.
fn schema_with_argument(name: &'static str, schema: Json) -> (r: Json)
    ensures
        r@ == one_argument(name, schema@),
{
    Json::object().with("type", Json::text("object")).with(
        "properties",
        Json::object().with(name, schema),
    ).with("required", Json::list_of(Json::text(name)))
}

/// The schema of the `paths` argument.
fn schema_of_paths() -> (r: Json)
    ensures
        r@ == paths_schema(),
{
    Json::object().with("type", Json::text("array")).with(
        "items",
        Json::object().with("type", Json::text("string")),
    ).with("description", Json::text(PATHS_DESCRIPTION))
}

/// The schema of the `message` argument.
fn schema_of_message() -> (r: Json)
    ensures
        r@ == message_schema(),
{
    Json::object().with("type", Json::text("string")).with(
        "description",
        Json::text(MESSAGE_DESCRIPTION),
    )
}

/// The description of the diff tool under `config`.
pub fn describe_staged_diff(config: &ServerConfig) -> (r: String)
    ensures
        r@ == staged_diff_description(config@),
{
    let mut text = STAGED_DIFF_INTRODUCTION.to_owned();
    let format_hint = config.format_hint();
    text.append(format_hint.as_str());
    text.append(CONSTRAINTS_HEADING);
    let constraints_hint = config.constraints_hint();
    text.append(constraints_hint.as_str());
    text
}

/// The four tools, the description of the diff tool rendered from `config`
/// as it is now.
pub fn tool_catalog(config: &ServerConfig) -> (r: Vec<Tool>)
    ensures
        tool_views(r@) == catalog(config@),
{
    let mut tools: Vec<Tool> = Vec::new();
    tools.push(
        Tool {
            name: LIST_UNSTAGED.to_owned(),
            description: LIST_UNSTAGED_DESCRIPTION.to_owned(),
            input_schema: schema_without_arguments(),
        },
    );
    tools.push(
        Tool {
            name: STAGE_FILES.to_owned(),
            description: STAGE_FILES_DESCRIPTION.to_owned(),
            input_schema: schema_with_argument("paths", schema_of_paths()),
        },
    );
    tools.push(
        Tool {
            name: GET_STAGED_DIFF.to_owned(),
            description: describe_staged_diff(config),
            input_schema: schema_without_arguments(),
        },
    );
    tools.push(
        Tool {
            name: EXECUTE_COMMIT.to_owned(),
            description: EXECUTE_COMMIT_DESCRIPTION.to_owned(),
            input_schema: schema_with_argument("message", schema_of_message()),
        },
    );
    proof {
        assert(tool_views(tools@) =~= catalog(config@));
    }
    tools
}

impl Tool {
    /// The tool as a JSON object.
    pub fn into_json(self) -> (r: Json)
        ensures
            r@ == self@.json(),
    {
        Json::object().with("name", Json::Str(self.name)).with(
            "description",
            Json::Str(self.description),
        ).with("input_schema", self.input_schema)
    }
}

/// The answer to a request for the catalog under `config`.
pub fn list_tools(config: &ServerConfig) -> (r: Json)
    ensures
        r@ == catalog_json(config@),
{
    let mut tools = tool_catalog(config);
    let ghost all = tool_views(tools@);
    let mut items: Vec<Json> = Vec::new();
    while tools.len() > 0
        invariant
            items.len() + tools.len() == all.len(),
            forall|k: int| 0 <= k < items.len() ==> (#[trigger] items@[k])@ == all[k].json(),
            forall|k: int| 0 <= k < tools.len() ==> (#[trigger] tools@[k])@ == all[items.len() + k],
        decreases tools.len(),
    {
        let tool = tools.remove(0);
        items.push(tool.into_json());
    }
    proof {
        assert(views(items@) =~= all.map_values(|tool: ToolView| tool.json()));
    }
    Json::object().with("tools", Json::array(items))
}

/// What a call asks for: one of the four tools with its arguments, or a
/// tool that the catalog does not hold.
#[derive(Debug, PartialEq, Eq)]
pub enum ToolCall {
    ListUnstaged,
    StageFiles(Vec<String>),
    GetStagedDiff,
    ExecuteCommit(String),
    Unknown,
}

/// The mathematical value of a [`ToolCall`].
pub enum ToolCallView {
    ListUnstaged,
    StageFiles(Seq<Seq<char>>),
    GetStagedDiff,
    ExecuteCommit(Seq<char>),
    Unknown,
}

impl View for ToolCall {
    type V = ToolCallView;

    open spec fn view(&self) -> ToolCallView {
        match self {
            ToolCall::ListUnstaged => ToolCallView::ListUnstaged,
            ToolCall::StageFiles(paths) => ToolCallView::StageFiles(lines_of(paths@)),
            ToolCall::GetStagedDiff => ToolCallView::GetStagedDiff,
            ToolCall::ExecuteCommit(message) => ToolCallView::ExecuteCommit(message@),
            ToolCall::Unknown => ToolCallView::Unknown,
        }
    }
}

/// The paths to stage: the strings of the array under `paths`, and none
/// where the arguments hold no such array.
pub open spec fn requested_paths(arguments: Option<JsonView>) -> Seq<Seq<char>> {
    match arguments {
        Some(a) => match a.member("paths"@) {
            Some(JsonView::Array(items)) => strings_in(items),
            _ => Seq::empty(),
        },
        None => Seq::empty(),
    }
}

/// The commit message: the string under `message`, and the empty text where
/// the arguments hold no such string.
pub open spec fn requested_message(arguments: Option<JsonView>) -> Seq<char> {
    match arguments {
        Some(a) => match a.member("message"@) {
            Some(JsonView::Str(message)) => message,
            _ => Seq::empty(),
        },
        None => Seq::empty(),
    }
}

/// The call of the tool `name` with `arguments`.
pub open spec fn named_call(name: Seq<char>, arguments: Option<JsonView>) -> ToolCallView {
    if name == LIST_UNSTAGED@ {
        ToolCallView::ListUnstaged
    } else if name == STAGE_FILES@ {
        ToolCallView::StageFiles(requested_paths(arguments))
    } else if name == GET_STAGED_DIFF@ {
        ToolCallView::GetStagedDiff
    } else if name == EXECUTE_COMMIT@ {
        ToolCallView::ExecuteCommit(requested_message(arguments))
    } else {
        ToolCallView::Unknown
    }
}

/// The call that the parameters of a request ask for. Parameters without a
/// string under `name` ask for no tool of the catalog.
pub open spec fn requested_call(params: Option<JsonView>) -> ToolCallView {
    match params {
        Some(p) => match p.member("name"@) {
            Some(JsonView::Str(name)) => named_call(name, p.member("arguments"@)),
            _ => ToolCallView::Unknown,
        },
        None => ToolCallView::Unknown,
    }
}

impl ToolCall {
    /// The paths to stage that `arguments` hold.
    pub fn paths_in(arguments: Option<&Json>) -> (r: Vec<String>)
        ensures
            lines_of(r@) == requested_paths(ref_view(arguments)),
    {
        if let Some(a) = arguments {
            if let Some(Json::Array(items)) = a.get("paths") {
                proof {
                    lemma_array_view(*items);
                }
                return string_items(items);
            }
        }
        let none: Vec<String> = Vec::new();
        proof {
            assert(lines_of(none@) =~= Seq::empty());
        }
        none
    }

    /// The commit message that `arguments` hold.
    pub fn message_in(arguments: Option<&Json>) -> (r: String)
        ensures
            r@ == requested_message(ref_view(arguments)),
    {
        if let Some(a) = arguments {
            if let Some(Json::Str(message)) = a.get("message") {
                return message.clone();
            }
        }
        String::new()
    }

    /// The call that the parameters of a request ask for.
    pub fn parse(params: Option<&Json>) -> (r: ToolCall)
        ensures
            r@ == requested_call(ref_view(params)),
    {
        let p = match params {
            Some(p) => p,
            None => {
                return ToolCall::Unknown;
            },
        };
        let name = match p.get("name") {
            Some(Json::Str(name)) => name,
            _ => {
                return ToolCall::Unknown;
            },
        };
        let arguments = p.get("arguments");
        if is_text(name, LIST_UNSTAGED) {
            ToolCall::ListUnstaged
        } else if is_text(name, STAGE_FILES) {
            ToolCall::StageFiles(Self::paths_in(arguments))
        } else if is_text(name, GET_STAGED_DIFF) {
            ToolCall::GetStagedDiff
        } else if is_text(name, EXECUTE_COMMIT) {
            ToolCall::ExecuteCommit(Self::message_in(arguments))
        } else {
            ToolCall::Unknown
        }
    }
}

/// What a call reports: a text, and whether it tells of a failure.
#[derive(Debug, PartialEq, Eq)]
pub struct ToolResult {
    pub text: String,
    pub is_error: bool,
}

/// The mathematical value of a [`ToolResult`].
pub struct ToolResultView {
    pub text: Seq<char>,
    pub is_error: bool,
}

impl View for ToolResult {
    type V = ToolResultView;

    open spec fn view(&self) -> ToolResultView {
        ToolResultView { text: self.text@, is_error: self.is_error }
    }
}

impl ToolResultView {
    /// The report of a success with the text `text`.
    pub open spec fn success(text: Seq<char>) -> ToolResultView {
        ToolResultView { text, is_error: false }
    }

    /// The report of the failure `error`: its message, marked as an error.
    pub open spec fn failure(error: GitErrorView) -> ToolResultView {
        ToolResultView { text: error.message(), is_error: true }
    }

    /// The report of a call to a tool that the catalog does not hold.
    pub open spec fn unknown_tool() -> ToolResultView {
        ToolResultView { text: UNKNOWN_TOOL@, is_error: true }
    }

    /// The report as the result of a request: one block of text under
    /// `content`, and `isError` where it tells of a failure.
    pub open spec fn json(self) -> JsonView {
        let content = JsonView::list_of(
            JsonView::object().with("type", string("text")).with("text", JsonView::Str(self.text)),
        );
        if self.is_error {
            JsonView::object().with("content", content).with("isError", JsonView::Bool(true))
        } else {
            JsonView::object().with("content", content)
        }
    }
}

/// The listing of `files`: a fixed text where there are none, else the paths
/// one per line between the heading and the guidance.
pub open spec fn listing(files: Seq<Seq<char>>) -> Seq<char> {
    if files.len() == 0 {
        NOTHING_UNSTAGED@
    } else {
        UNSTAGED_HEADING@ + joined(files, "\n"@) + UNSTAGED_GUIDANCE@
    }
}

/// The report of listing the unstaged files.
pub open spec fn unstaged_report(outcome: Result<Seq<Seq<char>>, GitErrorView>) -> ToolResultView {
    match outcome {
        Ok(files) => ToolResultView::success(listing(files)),
        Err(e) => ToolResultView::failure(e),
    }
}

/// The report of staging.
pub open spec fn staging_report(outcome: Result<Seq<char>, GitErrorView>) -> ToolResultView {
    match outcome {
        Ok(_) => ToolResultView::success(STAGED_GUIDANCE@),
        Err(e) => ToolResultView::failure(e),
    }
}

/// The report of fetching the staged diff: the diff, then the guidance.
pub open spec fn diff_report(outcome: Result<Seq<char>, GitErrorView>) -> ToolResultView {
    match outcome {
        Ok(diff) => ToolResultView::success(diff + DIFF_GUIDANCE@),
        Err(e) => ToolResultView::failure(e),
    }
}

/// The report of committing: the confirmation as it came.
pub open spec fn commit_report(outcome: Result<Seq<char>, GitErrorView>) -> ToolResultView {
    match outcome {
        Ok(confirmation) => ToolResultView::success(confirmation),
        Err(e) => ToolResultView::failure(e),
    }
}

/// Whether `report` is what `call` reports for some outcome that the
/// repository can give.
pub open spec fn may_report(call: ToolCallView, report: ToolResultView) -> bool {
    match call {
        ToolCallView::ListUnstaged => exists|outcome: Result<Seq<Seq<char>>, GitErrorView>|
            is_listing(outcome) && report == unstaged_report(outcome),
        ToolCallView::StageFiles(_) => exists|outcome: Result<Seq<char>, GitErrorView>|
            is_staging(outcome) && report == staging_report(outcome),
        ToolCallView::GetStagedDiff => exists|outcome: Result<Seq<char>, GitErrorView>|
            is_staged_diff(outcome) && report == diff_report(outcome),
        ToolCallView::ExecuteCommit(_) => exists|outcome: Result<Seq<char>, GitErrorView>|
            is_commit(outcome) && report == commit_report(outcome),
        ToolCallView::Unknown => report == ToolResultView::unknown_tool(),
    }
}

impl ToolResult {
    /// The report of a success with the text `text`.
    pub fn success(text: String) -> (r: ToolResult)
        ensures
            r@ == ToolResultView::success(text@),
    {
        ToolResult { text, is_error: false }
    }

    /// The report of the failure `error`.
    pub fn failure(error: &GitError) -> (r: ToolResult)
        ensures
            r@ == ToolResultView::failure(error@),
    {
        ToolResult { text: error.message(), is_error: true }
    }

    /// The report of a call to a tool that the catalog does not hold.
    pub fn unknown_tool() -> (r: ToolResult)
        ensures
            r@ == ToolResultView::unknown_tool(),
    {
        ToolResult { text: UNKNOWN_TOOL.to_owned(), is_error: true }
    }

    /// The report as the result of a request.
    pub fn into_json(self) -> (r: Json)
        ensures
            r@ == self@.json(),
    {
        let content = Json::list_of(
            Json::object().with("type", Json::text("text")).with("text", Json::Str(self.text)),
        );
        if self.is_error {
            Json::object().with("content", content).with("isError", Json::Bool(true))
        } else {
            Json::object().with("content", content)
        }
    }
}

/// The report of listing the unstaged files, for the outcome `outcome`.
pub fn report_unstaged(outcome: Result<Vec<String>, GitError>) -> (r: ToolResult)
    ensures
        r@ == unstaged_report(files_outcome(outcome)),
{
    match outcome {
        Ok(files) => {
            if files.len() == 0 {
                ToolResult::success(NOTHING_UNSTAGED.to_owned())
            } else {
                let mut text = UNSTAGED_HEADING.to_owned();
                let lines = join(&files, "\n");
                text.append(lines.as_str());
                text.append(UNSTAGED_GUIDANCE);
                ToolResult::success(text)
            }
        },
        Err(e) => ToolResult::failure(&e),
    }
}

/// The report of staging, for the outcome `outcome`.
pub fn report_staging(outcome: Result<String, GitError>) -> (r: ToolResult)
    ensures
        r@ == staging_report(text_outcome(outcome)),
{
    match outcome {
        Ok(_) => ToolResult::success(STAGED_GUIDANCE.to_owned()),
        Err(e) => ToolResult::failure(&e),
    }
}

/// The report of fetching the staged diff, for the outcome `outcome`.
pub fn report_diff(outcome: Result<String, GitError>) -> (r: ToolResult)
    ensures
        r@ == diff_report(text_outcome(outcome)),
{
    match outcome {
        Ok(diff) => {
            let mut text = diff;
            text.append(DIFF_GUIDANCE);
            ToolResult::success(text)
        },
        Err(e) => ToolResult::failure(&e),
    }
}

/// The report of committing, for the outcome `outcome`.
pub fn report_commit(outcome: Result<String, GitError>) -> (r: ToolResult)
    ensures
        r@ == commit_report(text_outcome(outcome)),
{
    match outcome {
        Ok(confirmation) => ToolResult::success(confirmation),
        Err(e) => ToolResult::failure(&e),
    }
}

/// Carries out `call` on the repository at `dir` and reports the outcome. A
/// failure of the repository never leaves this function: it becomes a report
/// marked as an error.
pub fn run_tool(call: ToolCall, dir: &str) -> (r: ToolResult)
    ensures
        may_report(call@, r@),
{
    match call {
        ToolCall::ListUnstaged => {
            let outcome = GitHandler::get_unstaged_files_in(dir);
            let ghost seen = files_outcome(outcome);
            let report = report_unstaged(outcome);
            assert(is_listing(seen) && report@ == unstaged_report(seen));
            report
        },
        ToolCall::StageFiles(paths) => {
            let outcome = GitHandler::stage_files_in(dir, paths);
            let ghost seen = text_outcome(outcome);
            let report = report_staging(outcome);
            assert(is_staging(seen) && report@ == staging_report(seen));
            report
        },
        ToolCall::GetStagedDiff => {
            let outcome = GitHandler::get_staged_diff_in(dir);
            let ghost seen = text_outcome(outcome);
            let report = report_diff(outcome);
            assert(is_staged_diff(seen) && report@ == diff_report(seen));
            report
        },
        ToolCall::ExecuteCommit(message) => {
            let outcome = GitHandler::commit_in(dir, message.as_str());
            let ghost seen = text_outcome(outcome);
            let report = report_commit(outcome);
            assert(is_commit(seen) && report@ == commit_report(seen));
            report
        },
        ToolCall::Unknown => ToolResult::unknown_tool(),
    }
}

} // verus!
