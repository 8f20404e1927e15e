//! The configuration of a session and what a handshake does to it.

use crate::json::{lemma_array_view, string_items, strings_in, Json, JsonView};
use crate::text::{copy_lines, join, joined, lines_of, prefix_each, prefixed};
use vstd::prelude::*;

verus! {

/// What shapes the advertised description of the diff tool: the template of
/// a commit message, line by line, and further constraints on the message.
#[derive(Debug, PartialEq, Eq)]
pub struct ServerConfig {
    pub commit_format: Vec<String>,
    pub extra_constraints: Vec<String>,
}

/// The mathematical value of a [`ServerConfig`].
pub struct ConfigView {
    pub commit_format: Seq<Seq<char>>,
    pub extra_constraints: Seq<Seq<char>>,
}

impl View for ServerConfig {
    type V = ConfigView;

    open spec fn view(&self) -> ConfigView {
        ConfigView {
            commit_format: lines_of(self.commit_format@),
            extra_constraints: lines_of(self.extra_constraints@),
        }
    }
}

impl Clone for ServerConfig {
    /// A copy with the same template and the same constraints.
    fn clone(&self) -> (r: ServerConfig)
        ensures
            r@ == self@,
    {
        ServerConfig {
            commit_format: copy_lines(&self.commit_format),
            extra_constraints: copy_lines(&self.extra_constraints),
        }
    }
}

/// The template that a session starts with.
pub open spec fn default_commit_format() -> Seq<Seq<char>> {
    seq![
        "<type>[optional scope]: <english description>"@,
        ""@,
        "[English body]"@,
        ""@,
        "[Chinese body]"@,
        ""@,
        "Log: [short description of the change use chinese language]"@,
        "PMS: <BUG-number> or <TASK-number> (必须包含 'BUG-' 或 'TASK-' 前缀。如果没有，必须询问用户；若用户明确不提供，则从提交信息中删除此行)"@,
        "Influence: Explain in Chinese the potential impact of this submission."@,
    ]
}

/// The constraints that a session starts with.
pub open spec fn default_extra_constraints() -> Seq<Seq<char>> {
    seq![
        "Body 的每一行不得超过 80 个字符。"@,
        "中英文 Body 必须成对出现，不得只写其中一个。"@,
    ]
}

impl ConfigView {
    /// The configuration that a session starts with.
    pub open spec fn initial() -> ConfigView {
        ConfigView {
            commit_format: default_commit_format(),
            extra_constraints: default_extra_constraints(),
        }
    }

    /// The configuration after the options of a handshake were applied. A
    /// string under `commitFormat` becomes a template of one line, an array
    /// the strings among its entries; an array under `extraConstraints`
    /// becomes the strings among its entries. Anything else changes nothing.
    pub open spec fn with_options(self, options: JsonView) -> ConfigView {
        ConfigView {
            commit_format: match options.member("commitFormat"@) {
                Some(JsonView::Str(line)) => seq![line],
                Some(JsonView::Array(items)) => strings_in(items),
                _ => self.commit_format,
            },
            extra_constraints: match options.member("extraConstraints"@) {
                Some(JsonView::Array(items)) => strings_in(items),
                _ => self.extra_constraints,
            },
        }
    }

    /// The configuration after a handshake with the parameters `params`.
    pub open spec fn configured(self, params: Option<JsonView>) -> ConfigView {
        match params {
            Some(p) => match p.member("options"@) {
                Some(options) => self.with_options(options),
                None => self,
            },
            None => self,
        }
    }

    /// The template as one text, a line break between its lines.
    pub open spec fn format_hint(self) -> Seq<char> {
        joined(self.commit_format, "\n"@)
    }

    /// The constraints as a bulleted list, one per line.
    pub open spec fn constraints_hint(self) -> Seq<char> {
        joined(prefixed(self.extra_constraints, "- "@), "\n"@)
    }
}

impl ServerConfig {
    /// The configuration that a session starts with.
    pub fn new() -> (r: ServerConfig)
        ensures
            r@ == ConfigView::initial(),
    {
        let mut commit_format: Vec<String> = Vec::new();
        commit_format.push("<type>[optional scope]: <english description>".to_owned());
        commit_format.push("".to_owned());
        commit_format.push("[English body]".to_owned());
        commit_format.push("".to_owned());
        commit_format.push("[Chinese body]".to_owned());
        commit_format.push("".to_owned());
        commit_format.push("Log: [short description of the change use chinese language]".to_owned());
        commit_format.push("PMS: <BUG-number> or <TASK-number> (必须包含 'BUG-' 或 'TASK-' 前缀。如果没有，必须询问用户；若用户明确不提供，则从提交信息中删除此行)".to_owned());
        commit_format.push("Influence: Explain in Chinese the potential impact of this submission.".to_owned());
        let mut extra_constraints: Vec<String> = Vec::new();
        extra_constraints.push("Body 的每一行不得超过 80 个字符。".to_owned());
        extra_constraints.push("中英文 Body 必须成对出现，不得只写其中一个。".to_owned());
        proof {
            assert(lines_of(commit_format@) =~= default_commit_format());
            assert(lines_of(extra_constraints@) =~= default_extra_constraints());
        }
        ServerConfig { commit_format, extra_constraints }
    }

    /// Applies the options of a handshake.
    pub fn apply_options(&mut self, options: &Json)
        ensures
            final(self)@ == old(self)@.with_options(options@),
    {
        match options.get("commitFormat") {
            Some(Json::Str(line)) => {
                let mut lines: Vec<String> = Vec::new();
                lines.push(line.clone());
                proof {
                    assert(lines_of(lines@) =~= seq![line@]);
                }
                self.commit_format = lines;
            },
            Some(Json::Array(items)) => {
                proof {
                    lemma_array_view(*items);
                }
                self.commit_format = string_items(items);
            },
            _ => {},
        }
        match options.get("extraConstraints") {
            Some(Json::Array(items)) => {
                proof {
                    lemma_array_view(*items);
                }
                self.extra_constraints = string_items(items);
            },
            _ => {},
        }
    }

    /// Applies the parameters of a handshake: the options under `options`,
    /// where there are any.
    pub fn configure(&mut self, params: Option<&Json>)
        ensures
            final(self)@ == old(self)@.configured(
                match params {
                    Some(p) => Some(p@),
                    None => None,
                },
            ),
    {
        if let Some(p) = params {
            if let Some(options) = p.get("options") {
                self.apply_options(options);
            }
        }
    }

    /// The template as one text, a line break between its lines.
    pub fn format_hint(&self) -> (r: String)
        ensures
            r@ == self@.format_hint(),
    {
        join(&self.commit_format, "\n")
    }

    /// The constraints as a bulleted list, one per line.
    pub fn constraints_hint(&self) -> (r: String)
        ensures
            r@ == self@.constraints_hint(),
    {
        let bullets = prefix_each(&self.extra_constraints, "- ");
        join(&bullets, "\n")
    }
}

} // verus!
