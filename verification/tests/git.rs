use git_summarizer::git::{
    append_line, collect_unstaged, commit_confirmation, found_or_none, staged_text, GitError,
    GitHandler, StatusRecord,
};
use git_summarizer::server::Server;
use std::io::Write;
use std::path::Path;

fn new_repo() -> (tempfile::TempDir, git2::Repository) {
    let dir = tempfile::tempdir().unwrap();
    let repo = git2::Repository::init(dir.path()).unwrap();
    let mut config = repo.config().unwrap();
    config.set_str("user.name", "A Tester").unwrap();
    config.set_str("user.email", "tester@example.com").unwrap();
    (dir, repo)
}

fn write_file(dir: &Path, name: &str, content: &str) {
    let mut file = tempfile::NamedTempFile::new_in(dir).unwrap();
    file.write_all(content.as_bytes()).unwrap();
    file.persist(dir.join(name)).unwrap();
}

fn path_of(dir: &tempfile::TempDir) -> &str {
    dir.path().to_str().unwrap()
}

fn record(flags: [bool; 4], path: Option<&str>) -> StatusRecord {
    StatusRecord {
        wt_new: flags[0],
        wt_modified: flags[1],
        wt_deleted: flags[2],
        wt_renamed: flags[3],
        path: path.map(|p| p.to_string()),
    }
}

fn text_of(response: &str) -> (String, bool) {
    let value: serde_json::Value = serde_json::from_str(response).unwrap();
    let result = &value["result"];
    assert_eq!(result["content"].as_array().unwrap().len(), 1);
    assert_eq!(result["content"][0]["type"], "text");
    let is_error = match result.get("isError") {
        Some(flag) => flag.as_bool().unwrap(),
        None => false,
    };
    (result["content"][0]["text"].as_str().unwrap().to_string(), is_error)
}

#[test]
fn collect_unstaged_keeps_working_tree_changes() {
    let records = vec![
        record([true, false, false, false], Some("new.txt")),
        record([false, false, false, false], Some("staged_only.txt")),
        record([false, true, false, false], Some("modified.txt")),
        record([false, false, true, false], Some("deleted.txt")),
        record([false, false, false, true], Some("renamed.txt")),
        record([true, true, false, false], None),
        record([true, true, true, true], Some("all.txt")),
    ];
    assert_eq!(
        collect_unstaged(&records),
        vec!["new.txt", "modified.txt", "deleted.txt", "renamed.txt", "all.txt"]
    );
}

#[test]
fn collect_unstaged_of_nothing() {
    assert_eq!(collect_unstaged(&vec![]), Vec::<String>::new());
    assert_eq!(
        collect_unstaged(&vec![record([false, false, false, false], Some("a"))]),
        Vec::<String>::new()
    );
}

#[test]
fn staged_text_of_an_empty_patch_is_an_error() {
    assert_eq!(staged_text(vec![]), Err(GitError::NothingStaged));
}

#[test]
fn staged_text_reads_utf8() {
    assert_eq!(staged_text(b"+hello\n".to_vec()), Ok("+hello\n".to_string()));
    assert_eq!(staged_text("变更".as_bytes().to_vec()), Ok("变更".to_string()));
}

#[test]
fn staged_text_replaces_invalid_bytes() {
    assert_eq!(staged_text(vec![0x66, 0xff, 0x6f]), Ok("f\u{fffd}o".to_string()));
    assert_eq!(staged_text(vec![0xc3]), Ok("\u{fffd}".to_string()));
}

#[test]
fn append_line_marks_added_removed_and_unchanged_lines() {
    let mut patch = b"@@ -1 +1,2 @@\n".to_vec();
    append_line(&mut patch, ' ', b"a\n");
    append_line(&mut patch, '+', b"b\n");
    append_line(&mut patch, '-', b"c\n");
    assert_eq!(patch, b"@@ -1 +1,2 @@\n a\n+b\n-c\n".to_vec());
}

#[test]
fn append_line_leaves_other_lines_unmarked() {
    let mut patch = Vec::new();
    append_line(&mut patch, 'F', b"diff --git a/p b/p\n");
    append_line(&mut patch, 'H', b"@@ -1 +1 @@\n");
    append_line(&mut patch, '=', b"\n\\ No newline at end of file\n");
    append_line(&mut patch, '>', b"x");
    append_line(&mut patch, '<', b"y");
    append_line(&mut patch, 'B', b"z");
    assert_eq!(
        patch,
        b"diff --git a/p b/p\n@@ -1 +1 @@\n\n\\ No newline at end of file\nxyz".to_vec()
    );
}

#[test]
fn append_line_with_no_content() {
    let mut patch = b"x".to_vec();
    append_line(&mut patch, '+', b"");
    assert_eq!(patch, b"x+".to_vec());
    append_line(&mut patch, 'H', b"");
    assert_eq!(patch, b"x+".to_vec());
}

#[test]
fn found_or_none_keeps_a_value() {
    assert_eq!(found_or_none(Ok(7)), Some(7));
    assert_eq!(found_or_none(Ok("head".to_string())), Some("head".to_string()));
}

#[test]
fn found_or_none_drops_an_error() {
    assert_eq!(found_or_none::<i32>(Err(git2::Error::from_str("no head"))), None);
    let unborn = git2::Error::new(
        git2::ErrorCode::UnbornBranch,
        git2::ErrorClass::Reference,
        "reference 'refs/heads/main' not found",
    );
    assert_eq!(found_or_none::<String>(Err(unborn)), None);
}

#[test]
fn confirmation_names_the_commit() {
    assert_eq!(commit_confirmation("0123abcd"), "Commit successful: 0123abcd");
    assert_eq!(commit_confirmation(""), "Commit successful: ");
}

#[test]
fn error_messages() {
    assert_eq!(GitError::NothingStaged.message(), "没有发现已暂存的变更。");
    assert_eq!(GitError::Repository("index is locked".to_string()).message(), "index is locked");
}

#[test]
fn unstaged_files_of_a_fresh_repository() {
    let (dir, _repo) = new_repo();
    assert_eq!(GitHandler::get_unstaged_files_in(path_of(&dir)), Ok(vec![]));
}

#[test]
fn unstaged_files_lists_untracked_files() {
    let (dir, _repo) = new_repo();
    write_file(dir.path(), "b.txt", "b\n");
    write_file(dir.path(), "a.txt", "a\n");
    assert_eq!(
        GitHandler::get_unstaged_files_in(path_of(&dir)),
        Ok(vec!["a.txt".to_string(), "b.txt".to_string()])
    );
}

#[test]
fn unstaged_files_lists_the_files_of_untracked_directories() {
    let (dir, _repo) = new_repo();
    let sub = tempfile::Builder::new().prefix("sub").tempdir_in(dir.path()).unwrap();
    write_file(sub.path(), "inner.txt", "x\n");
    let name = sub.path().file_name().unwrap().to_str().unwrap().to_string();
    assert_eq!(
        GitHandler::get_unstaged_files_in(path_of(&dir)),
        Ok(vec![format!("{}/inner.txt", name)])
    );
}

#[test]
fn unstaged_files_leaves_out_staged_files() {
    let (dir, _repo) = new_repo();
    write_file(dir.path(), "a.txt", "a\n");
    write_file(dir.path(), "b.txt", "b\n");
    GitHandler::stage_files_in(path_of(&dir), vec!["a.txt".to_string()]).unwrap();
    assert_eq!(GitHandler::get_unstaged_files_in(path_of(&dir)), Ok(vec!["b.txt".to_string()]));
}

#[test]
fn unstaged_files_lists_modified_and_deleted_files() {
    let (dir, _repo) = new_repo();
    write_file(dir.path(), "kept.txt", "one\n");
    write_file(dir.path(), "gone.txt", "two\n");
    let both = vec!["kept.txt".to_string(), "gone.txt".to_string()];
    GitHandler::stage_files_in(path_of(&dir), both).unwrap();
    GitHandler::commit_in(path_of(&dir), "first").unwrap();
    assert_eq!(GitHandler::get_unstaged_files_in(path_of(&dir)), Ok(vec![]));
    write_file(dir.path(), "kept.txt", "changed\n");
    drop(tempfile::TempPath::from_path(dir.path().join("gone.txt")));
    assert_eq!(
        GitHandler::get_unstaged_files_in(path_of(&dir)),
        Ok(vec!["gone.txt".to_string(), "kept.txt".to_string()])
    );
}

#[test]
fn stage_files_with_no_paths_succeeds() {
    let (dir, repo) = new_repo();
    write_file(dir.path(), "a.txt", "a\n");
    assert_eq!(
        GitHandler::stage_files_in(path_of(&dir), vec![]),
        Ok("Files staged successfully".to_string())
    );
    assert_eq!(repo.index().unwrap().len(), 0);
    assert_eq!(GitHandler::get_staged_diff_in(path_of(&dir)), Err(GitError::NothingStaged));
}

#[test]
fn stage_files_adds_the_paths_to_the_index() {
    let (dir, repo) = new_repo();
    write_file(dir.path(), "a.txt", "a\n");
    write_file(dir.path(), "b.txt", "b\n");
    write_file(dir.path(), "c.txt", "c\n");
    let paths = vec!["c.txt".to_string(), "a.txt".to_string()];
    assert_eq!(
        GitHandler::stage_files_in(path_of(&dir), paths),
        Ok("Files staged successfully".to_string())
    );
    let mut index = repo.index().unwrap();
    index.read(true).unwrap();
    let staged: Vec<String> =
        index.iter().map(|e| String::from_utf8(e.path).unwrap()).collect();
    assert_eq!(staged, vec!["a.txt".to_string(), "c.txt".to_string()]);
}

#[test]
fn stage_files_stops_at_the_first_bad_path_and_writes_nothing() {
    let (dir, repo) = new_repo();
    write_file(dir.path(), "a.txt", "a\n");
    let paths = vec!["a.txt".to_string(), "missing.txt".to_string()];
    let outcome = GitHandler::stage_files_in(path_of(&dir), paths);
    assert!(matches!(outcome, Err(GitError::Repository(_))));
    let mut index = repo.index().unwrap();
    index.read(true).unwrap();
    assert_eq!(index.len(), 0);
    assert_eq!(GitHandler::get_staged_diff_in(path_of(&dir)), Err(GitError::NothingStaged));
}

#[test]
fn staged_diff_of_a_fresh_repository_is_an_error() {
    let (dir, _repo) = new_repo();
    assert_eq!(GitHandler::get_staged_diff_in(path_of(&dir)), Err(GitError::NothingStaged));
    write_file(dir.path(), "untracked.txt", "x\n");
    assert_eq!(GitHandler::get_staged_diff_in(path_of(&dir)), Err(GitError::NothingStaged));
}

#[test]
fn staged_diff_shows_a_staged_addition() {
    let (dir, _repo) = new_repo();
    write_file(dir.path(), "added.txt", "first line\nsecond line\n");
    GitHandler::stage_files_in(path_of(&dir), vec!["added.txt".to_string()]).unwrap();
    let diff = GitHandler::get_staged_diff_in(path_of(&dir)).unwrap();
    assert!(!diff.is_empty());
    assert!(diff.contains("added.txt"));
    assert!(diff.starts_with("diff --git a/added.txt b/added.txt\n"));
    assert!(diff.contains("\n--- /dev/null\n+++ b/added.txt\n@@ -0,0 +1,2 @@\n"));
    assert!(diff.ends_with("\n+first line\n+second line\n"));
}

#[test]
fn staged_diff_is_a_unified_patch() {
    let (dir, _repo) = new_repo();
    write_file(dir.path(), "p.txt", "a\n");
    GitHandler::stage_files_in(path_of(&dir), vec!["p.txt".to_string()]).unwrap();
    GitHandler::commit_in(path_of(&dir), "first").unwrap();
    write_file(dir.path(), "p.txt", "a\nb\n");
    GitHandler::stage_files_in(path_of(&dir), vec!["p.txt".to_string()]).unwrap();
    let diff = GitHandler::get_staged_diff_in(path_of(&dir)).unwrap();
    assert!(diff.starts_with("diff --git a/p.txt b/p.txt\nindex "));
    assert!(diff.ends_with("\n--- a/p.txt\n+++ b/p.txt\n@@ -1 +1,2 @@\n a\n+b\n"));
}

#[test]
fn staged_diff_marks_removed_lines() {
    let (dir, _repo) = new_repo();
    write_file(dir.path(), "p.txt", "keep\ndrop\n");
    GitHandler::stage_files_in(path_of(&dir), vec!["p.txt".to_string()]).unwrap();
    GitHandler::commit_in(path_of(&dir), "first").unwrap();
    write_file(dir.path(), "p.txt", "keep\n");
    GitHandler::stage_files_in(path_of(&dir), vec!["p.txt".to_string()]).unwrap();
    let diff = GitHandler::get_staged_diff_in(path_of(&dir)).unwrap();
    assert!(diff.ends_with("\n@@ -1,2 +1 @@\n keep\n-drop\n"));
}

#[test]
fn staged_diff_of_a_repository_without_commits_shows_all_as_added() {
    let (dir, repo) = new_repo();
    assert!(repo.head().is_err());
    write_file(dir.path(), "p.txt", "hello\n");
    GitHandler::stage_files_in(path_of(&dir), vec!["p.txt".to_string()]).unwrap();
    let diff = GitHandler::get_staged_diff_in(path_of(&dir)).unwrap();
    assert!(diff.contains("p.txt"));
    assert!(diff.contains("new file mode"));
    assert!(diff.ends_with("\n@@ -0,0 +1 @@\n+hello\n"));
}

#[test]
fn staged_diff_is_taken_against_the_head() {
    let (dir, _repo) = new_repo();
    write_file(dir.path(), "a.txt", "old\n");
    GitHandler::stage_files_in(path_of(&dir), vec!["a.txt".to_string()]).unwrap();
    GitHandler::commit_in(path_of(&dir), "first").unwrap();
    assert_eq!(GitHandler::get_staged_diff_in(path_of(&dir)), Err(GitError::NothingStaged));
    write_file(dir.path(), "a.txt", "new\n");
    assert_eq!(GitHandler::get_staged_diff_in(path_of(&dir)), Err(GitError::NothingStaged));
    GitHandler::stage_files_in(path_of(&dir), vec!["a.txt".to_string()]).unwrap();
    let diff = GitHandler::get_staged_diff_in(path_of(&dir)).unwrap();
    assert!(diff.contains("a.txt"));
    assert!(diff.ends_with("\n@@ -1 +1 @@\n-old\n+new\n"));
}

#[test]
fn first_commit_has_no_parent() {
    let (dir, repo) = new_repo();
    write_file(dir.path(), "a.txt", "a\n");
    GitHandler::stage_files_in(path_of(&dir), vec!["a.txt".to_string()]).unwrap();
    let text = GitHandler::commit_in(path_of(&dir), "feat: first").unwrap();
    let head = repo.head().unwrap().peel_to_commit().unwrap();
    assert_eq!(text, format!("Commit successful: {}", head.id()));
    assert_eq!(text.len(), "Commit successful: ".len() + 40);
    assert_eq!(head.parent_count(), 0);
    assert_eq!(head.message().unwrap(), "feat: first");
    assert_eq!(head.author().name().unwrap(), "A Tester");
    assert_eq!(head.committer().email().unwrap(), "tester@example.com");
    assert!(head.tree().unwrap().get_name("a.txt").is_some());
}

#[test]
fn later_commit_has_the_head_as_parent() {
    let (dir, repo) = new_repo();
    write_file(dir.path(), "a.txt", "a\n");
    GitHandler::stage_files_in(path_of(&dir), vec!["a.txt".to_string()]).unwrap();
    GitHandler::commit_in(path_of(&dir), "first").unwrap();
    let first = repo.head().unwrap().peel_to_commit().unwrap().id();
    write_file(dir.path(), "b.txt", "b\n");
    GitHandler::stage_files_in(path_of(&dir), vec!["b.txt".to_string()]).unwrap();
    let text = GitHandler::commit_in(path_of(&dir), "second").unwrap();
    let head = repo.head().unwrap().peel_to_commit().unwrap();
    assert_ne!(head.id(), first);
    assert_eq!(text, format!("Commit successful: {}", head.id()));
    assert_eq!(head.parent_count(), 1);
    assert_eq!(head.parent_id(0).unwrap(), first);
    assert!(head.tree().unwrap().get_name("a.txt").is_some());
    assert!(head.tree().unwrap().get_name("b.txt").is_some());
}

#[test]
fn commit_takes_an_empty_message() {
    let (dir, repo) = new_repo();
    write_file(dir.path(), "a.txt", "a\n");
    GitHandler::stage_files_in(path_of(&dir), vec!["a.txt".to_string()]).unwrap();
    assert!(GitHandler::commit_in(path_of(&dir), "").is_ok());
    assert_eq!(repo.head().unwrap().peel_to_commit().unwrap().message().unwrap(), "");
}

#[test]
fn commit_without_an_identity_fails() {
    let dir = tempfile::tempdir().unwrap();
    let repo = git2::Repository::init(dir.path()).unwrap();
    if repo.signature().is_err() {
        let outcome = GitHandler::commit_in(path_of(&dir), "message");
        assert!(matches!(outcome, Err(GitError::Repository(_))));
        assert!(repo.head().is_err());
    }
}

#[test]
fn operations_outside_a_repository_fail() {
    let dir = tempfile::tempdir().unwrap();
    let here = path_of(&dir);
    assert!(matches!(GitHandler::get_unstaged_files_in(here), Err(GitError::Repository(_))));
    assert!(matches!(GitHandler::get_staged_diff_in(here), Err(GitError::Repository(_))));
    assert!(matches!(GitHandler::stage_files_in(here, vec![]), Err(GitError::Repository(_))));
    assert!(matches!(GitHandler::commit_in(here, "m"), Err(GitError::Repository(_))));
    match GitHandler::get_unstaged_files_in(here) {
        Err(e) => assert!(!e.message().is_empty()),
        Ok(_) => panic!("a directory without a repository was opened"),
    }
}

#[test]
fn operations_without_a_directory_use_the_current_one() {
    assert_eq!(GitHandler::get_unstaged_files().is_ok(), GitHandler::get_unstaged_files_in(".").is_ok());
    assert_eq!(
        GitHandler::get_staged_diff().map_err(|e| e.message()),
        GitHandler::get_staged_diff_in(".").map_err(|e| e.message())
    );
}

#[test]
fn tool_list_unstaged_on_a_clean_tree() {
    let (dir, _repo) = new_repo();
    let mut server = Server::at(path_of(&dir));
    let written = server
        .handle_line(r#"{"jsonrpc":"2.0","id":1,"method":"tools/call","params":{"name":"list_unstaged"}}"#)
        .unwrap();
    assert_eq!(text_of(&written), ("暂无未暂存的文件。".to_string(), false));
}

#[test]
fn tool_list_unstaged_lists_the_files() {
    let (dir, _repo) = new_repo();
    write_file(dir.path(), "a.txt", "a\n");
    write_file(dir.path(), "b.txt", "b\n");
    let mut server = Server::at(path_of(&dir));
    let written = server
        .handle_line(r#"{"jsonrpc":"2.0","id":1,"method":"tools/call","params":{"name":"list_unstaged","arguments":{}}}"#)
        .unwrap();
    assert_eq!(text_of(&written), ("未暂存的文件：\na.txt\nb.txt\n\n工作流提醒：\n1. 请向用户展示上述文件列表。\n2. **必须**请用户确认哪些文件需要被暂存（git add）。\n3. 只有在用户明确指定文件后，才可调用 `stage_files`。".to_string(), false));
}

#[test]
fn tool_stage_files_then_diff_then_commit() {
    let (dir, repo) = new_repo();
    write_file(dir.path(), "a.txt", "hello\n");
    let mut server = Server::at(path_of(&dir));
    let staged = server
        .handle_line(r#"{"jsonrpc":"2.0","id":1,"method":"tools/call","params":{"name":"stage_files","arguments":{"paths":["a.txt"]}}}"#)
        .unwrap();
    assert_eq!(text_of(&staged), ("文件已成功暂存。\n\n提示：现在请使用 `get_staged_diff` 获取变更差异并生成提交信息草稿。".to_string(), false));
    let diff = server
        .handle_line(r#"{"jsonrpc":"2.0","id":2,"method":"tools/call","params":{"name":"get_staged_diff"}}"#)
        .unwrap();
    let (text, is_error) = text_of(&diff);
    assert!(!is_error);
    assert!(text.starts_with("diff --git a/a.txt b/a.txt"));
    assert!(text.contains("\n@@ -0,0 +1 @@\n+hello\n"));
    assert!(text.ends_with("\n\n工作流提醒：\n1. 请根据上述差异总结一个提交信息草稿。\n2. **必须**询问用户确认 PMS 单号（格式如 BUG-123 或 TASK-456）。\n3. 展示最终提交信息并请求用户明确确认。\n4. 只有在用户确认后，才可调用 `execute_commit`。"));
    let committed = server
        .handle_line(r#"{"jsonrpc":"2.0","id":3,"method":"tools/call","params":{"name":"execute_commit","arguments":{"message":"feat: add a"}}}"#)
        .unwrap();
    let head = repo.head().unwrap().peel_to_commit().unwrap();
    assert_eq!(text_of(&committed), (format!("Commit successful: {}", head.id()), false));
    assert_eq!(head.message().unwrap(), "feat: add a");
    assert_eq!(head.parent_count(), 0);
}

#[test]
fn tool_stage_files_without_paths_stages_nothing() {
    let (dir, repo) = new_repo();
    write_file(dir.path(), "a.txt", "hello\n");
    let mut server = Server::at(path_of(&dir));
    let lines = [
        r#"{"jsonrpc":"2.0","id":1,"method":"tools/call","params":{"name":"stage_files"}}"#,
        r#"{"jsonrpc":"2.0","id":1,"method":"tools/call","params":{"name":"stage_files","arguments":{}}}"#,
        r#"{"jsonrpc":"2.0","id":1,"method":"tools/call","params":{"name":"stage_files","arguments":{"paths":[]}}}"#,
        r#"{"jsonrpc":"2.0","id":1,"method":"tools/call","params":{"name":"stage_files","arguments":{"paths":"a.txt"}}}"#,
        r#"{"jsonrpc":"2.0","id":1,"method":"tools/call","params":{"name":"stage_files","arguments":{"paths":[1,null]}}}"#,
    ];
    for line in lines {
        let written = server.handle_line(line).unwrap();
        assert_eq!(text_of(&written), ("文件已成功暂存。\n\n提示：现在请使用 `get_staged_diff` 获取变更差异并生成提交信息草稿。".to_string(), false));
        let mut index = repo.index().unwrap();
        index.read(true).unwrap();
        assert_eq!(index.len(), 0);
    }
}

#[test]
fn tool_get_staged_diff_with_nothing_staged_fails_in_band() {
    let (dir, _repo) = new_repo();
    let mut server = Server::at(path_of(&dir));
    let written = server
        .handle_line(r#"{"jsonrpc":"2.0","id":"d","method":"tools/call","params":{"name":"get_staged_diff"}}"#)
        .unwrap();
    assert_eq!(
        written,
        r#"{"id":"d","jsonrpc":"2.0","result":{"content":[{"text":"没有发现已暂存的变更。","type":"text"}],"isError":true}}"#
    );
}

#[test]
fn tool_failures_are_reported_in_band() {
    let dir = tempfile::tempdir().unwrap();
    let mut server = Server::at(path_of(&dir));
    for name in ["list_unstaged", "stage_files", "get_staged_diff", "execute_commit"] {
        let line = format!(
            r#"{{"jsonrpc":"2.0","id":1,"method":"tools/call","params":{{"name":"{}"}}}}"#,
            name
        );
        let written = server.handle_line(&line).unwrap();
        let value: serde_json::Value = serde_json::from_str(&written).unwrap();
        assert!(value.get("error").is_none());
        let (text, is_error) = text_of(&written);
        assert!(is_error);
        assert!(!text.is_empty());
    }
}

#[test]
fn tool_called_as_a_notification_runs_without_a_response() {
    let (dir, repo) = new_repo();
    write_file(dir.path(), "a.txt", "hello\n");
    let mut server = Server::at(path_of(&dir));
    let written = server.handle_line(
        r#"{"jsonrpc":"2.0","method":"tools/call","params":{"name":"stage_files","arguments":{"paths":["a.txt"]}}}"#,
    );
    assert_eq!(written, None);
    let mut index = repo.index().unwrap();
    index.read(true).unwrap();
    assert_eq!(index.len(), 1);
}

#[test]
fn tool_stage_files_reports_a_bad_path_in_band() {
    let (dir, _repo) = new_repo();
    let mut server = Server::at(path_of(&dir));
    let written = server
        .handle_line(r#"{"jsonrpc":"2.0","id":1,"method":"tools/call","params":{"name":"stage_files","arguments":{"paths":["nowhere.txt"]}}}"#)
        .unwrap();
    let (text, is_error) = text_of(&written);
    assert!(is_error);
    assert!(text.contains("nowhere.txt"));
}
