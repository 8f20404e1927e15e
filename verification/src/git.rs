//! The operations on the repository: the unstaged files, staging, the
//! staged diff and the commit.
//!
//! The repository itself is the work of `git2`. Each call into it stands in a
//! small function of its own whose contract is believed, not proved. Where
//! the outcome of such a call depends on what is on disk, its contract claims
//! nothing of it. What is proved is what the library makes of every outcome:
//! which lines of a patch get a marker, that a missing head is no error, that
//! an empty patch is one, and how a commit is confirmed.

use crate::text::lines_of;
use vstd::prelude::*;
use vstd::string::StringExecFns;

verus! {

/// `git2::Repository`: a value of it is carried through, never looked into.
#[verifier::external_type_specification]
#[verifier::external_body]
pub struct ExRepository(git2::Repository);

/// `git2::Error`: a value of it is carried through, never looked into.
#[verifier::external_type_specification]
#[verifier::external_body]
pub struct ExError(git2::Error);

/// `git2::Reference`: a value of it is carried through, never looked into.
#[verifier::external_type_specification]
#[verifier::external_body]
pub struct ExReference<'repo>(git2::Reference<'repo>);

/// `git2::Tree`: a value of it is carried through, never looked into.
#[verifier::external_type_specification]
#[verifier::external_body]
pub struct ExTree<'repo>(git2::Tree<'repo>);

/// `git2::Commit`: a value of it is carried through, never looked into.
#[verifier::external_type_specification]
#[verifier::external_body]
pub struct ExCommit<'repo>(git2::Commit<'repo>);

/// `git2::Diff`: a value of it is carried through, never looked into.
#[verifier::external_type_specification]
#[verifier::external_body]
pub struct ExDiff<'repo>(git2::Diff<'repo>);

/// `git2::Index`: a value of it is carried through, never looked into.
#[verifier::external_type_specification]
#[verifier::external_body]
pub struct ExIndex(git2::Index);

/// `git2::Oid`: a value of it is carried through, never looked into.
#[verifier::external_type_specification]
#[verifier::external_body]
pub struct ExOid(git2::Oid);

/// `git2::Signature`: a value of it is carried through, never looked into.
#[verifier::external_type_specification]
#[verifier::external_body]
pub struct ExSignature<'a>(git2::Signature<'a>);

/// The directory whose repository is worked on where none is named.
pub const CURRENT_DIRECTORY: &'static str = ".";

/// What a successful staging returns.
pub const FILES_STAGED: &'static str = "Files staged successfully";

/// How the confirmation of a commit begins; the commit's identifier follows.
pub const COMMIT_SUCCESSFUL: &'static str = "Commit successful: ";

/// The text of the error for an index that holds no change.
pub const NOTHING_STAGED: &'static str = "没有发现已暂存的变更。";

/// Why an operation on the repository failed.
#[derive(Debug, PartialEq, Eq)]
pub enum GitError {
    /// The index holds nothing that differs from the head.
    NothingStaged,
    /// The repository reported an error; the text is its report.
    Repository(String),
}

/// The mathematical value of a [`GitError`].
pub enum GitErrorView {
    NothingStaged,
    Repository(Seq<char>),
}

impl View for GitError {
    type V = GitErrorView;

    open spec fn view(&self) -> GitErrorView {
        match self {
            GitError::NothingStaged => GitErrorView::NothingStaged,
            GitError::Repository(report) => GitErrorView::Repository(report@),
        }
    }
}

impl GitErrorView {
    /// The text shown for the error.
    pub open spec fn message(self) -> Seq<char> {
        match self {
            GitErrorView::NothingStaged => NOTHING_STAGED@,
            GitErrorView::Repository(report) => report,
        }
    }
}

impl GitError {
    /// The text shown for the error.
    pub fn message(&self) -> (r: String)
        ensures
            r@ == self@.message(),
    {
        match self {
            GitError::NothingStaged => NOTHING_STAGED.to_owned(),
            GitError::Repository(report) => report.clone(),
        }
    }

    /// The error that stands for a failure reported by the repository.
    fn reported(error: git2::Error) -> (r: GitError)
        ensures
            r is Repository,
    {
        GitError::Repository(error_text(&error))
    }
}

/// What the repository says of one path: which kinds of change the working
/// tree shows against the index, and the path where it is valid UTF-8.
#[derive(Debug, PartialEq, Eq)]
pub struct StatusRecord {
    pub wt_new: bool,
    pub wt_modified: bool,
    pub wt_deleted: bool,
    pub wt_renamed: bool,
    pub path: Option<String>,
}

/// The mathematical value of a [`StatusRecord`].
pub struct StatusRecordView {
    pub wt_new: bool,
    pub wt_modified: bool,
    pub wt_deleted: bool,
    pub wt_renamed: bool,
    pub path: Option<Seq<char>>,
}

impl View for StatusRecord {
    type V = StatusRecordView;

    open spec fn view(&self) -> StatusRecordView {
        StatusRecordView {
            wt_new: self.wt_new,
            wt_modified: self.wt_modified,
            wt_deleted: self.wt_deleted,
            wt_renamed: self.wt_renamed,
            path: match self.path {
                Some(p) => Some(p@),
                None => None,
            },
        }
    }
}

impl StatusRecordView {
    /// Whether the path is new, modified, deleted or renamed in the working
    /// tree.
    pub open spec fn is_unstaged(self) -> bool {
        self.wt_new || self.wt_modified || self.wt_deleted || self.wt_renamed
    }

    /// The path, where it counts as unstaged and is known.
    pub open spec fn unstaged_path(self) -> Option<Seq<char>> {
        if self.is_unstaged() {
            self.path
        } else {
            None
        }
    }
}

/// The values of a list of records, one for one.
pub open spec fn record_views(records: Seq<StatusRecord>) -> Seq<StatusRecordView> {
    Seq::new(records.len(), |i: int| records[i]@)
}

/// The paths of the records that count as unstaged, in the records' order.
pub open spec fn unstaged_paths(records: Seq<StatusRecordView>) -> Seq<Seq<char>> {
    records.filter_map(|record: StatusRecordView| record.unstaged_path())
}

/// The text that `String::from_utf8_lossy` makes of `bytes`.
pub uninterp spec fn lossy_text(bytes: Seq<u8>) -> Seq<char>;

/// The confirmation of a commit with the identifier `id`.
pub open spec fn confirmation(id: Seq<char>) -> Seq<char> {
    COMMIT_SUCCESSFUL@ + id
}

/// The value of an outcome that is a text.
pub open spec fn text_outcome(outcome: Result<String, GitError>) -> Result<
    Seq<char>,
    GitErrorView,
> {
    match outcome {
        Ok(text) => Ok(text@),
        Err(e) => Err(e@),
    }
}

/// The value of an outcome that is a list of paths.
pub open spec fn files_outcome(outcome: Result<Vec<String>, GitError>) -> Result<
    Seq<Seq<char>>,
    GitErrorView,
> {
    match outcome {
        Ok(files) => Ok(lines_of(files@)),
        Err(e) => Err(e@),
    }
}

/// What holds of every outcome of listing the unstaged files: a failure is
/// one that the repository reported.
pub open spec fn is_listing(outcome: Result<Seq<Seq<char>>, GitErrorView>) -> bool {
    outcome matches Err(e) ==> e is Repository
}

/// What holds of every outcome of staging: success returns the fixed text, a
/// failure is one that the repository reported.
pub open spec fn is_staging(outcome: Result<Seq<char>, GitErrorView>) -> bool {
    &&& outcome matches Ok(text) ==> text == FILES_STAGED@
    &&& outcome matches Err(e) ==> e is Repository
}

/// What holds of every outcome of fetching the staged diff: success returns
/// a text that is not empty, the text of a patch that is not empty.
pub open spec fn is_staged_diff(outcome: Result<Seq<char>, GitErrorView>) -> bool {
    outcome matches Ok(text) ==> text.len() > 0 && exists|patch: Seq<u8>|
        patch.len() > 0 && text == lossy_text(patch)
}

/// What holds of every outcome of committing: success returns the
/// confirmation of a commit whose identifier is not empty, a failure is one
/// that the repository reported.
pub open spec fn is_commit(outcome: Result<Seq<char>, GitErrorView>) -> bool {
    &&& outcome matches Ok(text) ==> exists|id: Seq<char>|
        id.len() > 0 && text == confirmation(id)
    &&& outcome matches Err(e) ==> e is Repository
}

/// What a patch shows in front of a line of the origin `origin`: `+` for an
/// added line, `-` for a removed one, a space for an unchanged one, and
/// nothing for any other line (the headers of files and hunks, and the notes
/// on a missing line break, come whole).
pub open spec fn line_marker(origin: char) -> Seq<u8> {
    if origin == '+' {
        seq![0x2bu8]
    } else if origin == '-' {
        seq![0x2du8]
    } else if origin == ' ' {
        seq![0x20u8]
    } else {
        Seq::empty()
    }
}

/// The patch `patch` with one more line at its end: the marker of the line's
/// origin, then the line's content.
pub open spec fn with_line(patch: Seq<u8>, origin: char, content: Seq<u8>) -> Seq<u8> {
    patch + line_marker(origin) + content
}

/// What is found in `outcome`: its value, and nothing where it is an error.
pub open spec fn found<T>(outcome: Result<T, git2::Error>) -> Option<T> {
    match outcome {
        Ok(value) => Some(value),
        Err(_) => None,
    }
}

/// Calls `Display` of `git2::Error` through `to_string`. Nothing is claimed
/// of the text.
#[verifier::external_body]
fn error_text(error: &git2::Error) -> String {
    error.to_string()
}

/// Calls `git2::Repository::open` on `dir`. Nothing is claimed of the
/// outcome.
#[verifier::external_body]
fn open_repository(dir: &str) -> Result<git2::Repository, git2::Error> {
    git2::Repository::open(dir)
}

/// Calls `git2::Repository::head`. Nothing is claimed of the outcome.
#[verifier::external_body]
fn repository_head<'repo>(repo: &'repo git2::Repository) -> Result<
    git2::Reference<'repo>,
    git2::Error,
> {
    repo.head()
}

/// Calls `git2::Reference::peel_to_tree`. Nothing is claimed of the outcome.
#[verifier::external_body]
fn peel_to_tree<'repo>(reference: &git2::Reference<'repo>) -> Result<
    git2::Tree<'repo>,
    git2::Error,
> {
    reference.peel_to_tree()
}

/// Calls `git2::Reference::peel_to_commit`. Nothing is claimed of the
/// outcome.
#[verifier::external_body]
fn peel_to_commit<'repo>(reference: &git2::Reference<'repo>) -> Result<
    git2::Commit<'repo>,
    git2::Error,
> {
    reference.peel_to_commit()
}

/// Calls `git2::Repository::diff_tree_to_index` with `old_tree`, the
/// repository's own index and fresh `git2::DiffOptions`. Nothing is claimed
/// of the outcome.
#[verifier::external_body]
fn diff_tree_to_index<'repo>(
    repo: &'repo git2::Repository,
    old_tree: Option<&git2::Tree<'repo>>,
) -> Result<git2::Diff<'repo>, git2::Error> {
    let mut options = git2::DiffOptions::new();
    repo.diff_tree_to_index(old_tree, None, Some(&mut options))
}

/// Calls `git2::Diff::print` in patch format and has [`append_line`] add
/// every line that it hands out, with the line's origin and content as
/// `git2::DiffLine` gives them. Nothing is claimed of the outcome.
#[verifier::external_body]
fn patch_bytes(diff: &git2::Diff<'_>) -> Result<Vec<u8>, git2::Error> {
    let mut bytes = Vec::new();
    diff.print(
        git2::DiffFormat::Patch,
        |_delta, _hunk, line|
            {
                append_line(&mut bytes, line.origin(), line.content());
                true
            },
    )?;
    Ok(bytes)
}

/// Calls `String::from_utf8_lossy`. The contract claims that the text is a
/// function of the bytes alone, and gives it the name [`lossy_text`]; and
/// that bytes that are not empty give a text that is not empty, since every
/// byte is kept as part of a character or replaced by one.
#[verifier::external_body]
fn decode_lossy(bytes: &Vec<u8>) -> (r: String)
    ensures
        r@ == lossy_text(bytes@),
        bytes@.len() > 0 ==> r@.len() > 0,
{
    String::from_utf8_lossy(bytes).to_string()
}

/// Calls `git2::Repository::index`. Nothing is claimed of the outcome.
#[verifier::external_body]
fn repository_index(repo: &git2::Repository) -> Result<git2::Index, git2::Error> {
    repo.index()
}

/// Calls `git2::Index::write_tree`. Nothing is claimed of the outcome.
#[verifier::external_body]
fn index_write_tree(index: &mut git2::Index) -> Result<git2::Oid, git2::Error> {
    index.write_tree()
}

/// Calls `git2::Repository::find_tree`. Nothing is claimed of the outcome.
#[verifier::external_body]
fn find_tree<'repo>(repo: &'repo git2::Repository, id: git2::Oid) -> Result<
    git2::Tree<'repo>,
    git2::Error,
> {
    repo.find_tree(id)
}

/// Calls `git2::Repository::signature`. Nothing is claimed of the outcome.
#[verifier::external_body]
fn repository_signature(repo: &git2::Repository) -> Result<
    git2::Signature<'static>,
    git2::Error,
> {
    repo.signature()
}

/// Calls `git2::Repository::commit` so that `update_ref` comes to point at
/// the new commit, with one signature as author and committer and with
/// `parent`, where there is one, as the only parent. Nothing is claimed of
/// the outcome.
#[verifier::external_body]
fn create_commit(
    repo: &git2::Repository,
    update_ref: &str,
    signature: &git2::Signature<'_>,
    message: &str,
    tree: &git2::Tree<'_>,
    parent: Option<&git2::Commit<'_>>,
) -> Result<git2::Oid, git2::Error> {
    let parents: Vec<&git2::Commit<'_>> = parent.into_iter().collect();
    repo.commit(Some(update_ref), signature, signature, message, tree, &parents)
}

/// Calls `Display` of `git2::Oid` through `to_string`, which writes the
/// identifier in hexadecimal digits. The contract claims that the text is
/// not empty.
#[verifier::external_body]
fn oid_text(id: &git2::Oid) -> (r: String)
    ensures
        r@.len() > 0,
{
    id.to_string()
}

/// Calls `git2::Repository::statuses` with the two options given and hands
/// out each entry as a [`StatusRecord`]. Nothing is claimed of the outcome.
#[verifier::external_body]
fn read_statuses(
    repo: &git2::Repository,
    include_untracked: bool,
    recurse_untracked_dirs: bool,
) -> Result<Vec<StatusRecord>, git2::Error> {
    let mut options = git2::StatusOptions::new();
    options.include_untracked(include_untracked).recurse_untracked_dirs(recurse_untracked_dirs);
    let statuses = repo.statuses(Some(&mut options))?;
    Ok(statuses.iter().map(|entry| StatusRecord {
        wt_new: entry.status().is_wt_new(),
        wt_modified: entry.status().is_wt_modified(),
        wt_deleted: entry.status().is_wt_deleted(),
        wt_renamed: entry.status().is_wt_renamed(),
        path: entry.path().ok().map(|p| p.to_string()),
    }).collect())
}

/// Calls `git2::Index::add_path`. Nothing is claimed of the outcome.
#[verifier::external_body]
fn index_add_path(index: &mut git2::Index, path: &str) -> Result<(), git2::Error> {
    index.add_path(std::path::Path::new(path))
}

/// Calls `git2::Index::write`. Nothing is claimed of the outcome.
#[verifier::external_body]
fn index_write(index: &mut git2::Index) -> Result<(), git2::Error> {
    index.write()
}

/// The paths among `records` that count as unstaged, in the records' order.
pub fn collect_unstaged(records: &Vec<StatusRecord>) -> (r: Vec<String>)
    ensures
        lines_of(r@) == unstaged_paths(record_views(records@)),
{
    let ghost pick = |record: StatusRecordView| record.unstaged_path();
    let ghost all = record_views(records@);
    let mut files: Vec<String> = Vec::new();
    let mut i: usize = 0;
    while i < records.len()
        invariant
            i <= records.len(),
            all == record_views(records@),
            pick == |record: StatusRecordView| record.unstaged_path(),
            lines_of(files@) == all.take(i as int).filter_map(pick),
        decreases records.len() - i,
    {
        let ghost before = lines_of(files@);
        proof {
            all.lemma_filter_map_take_succ(pick, i as int);
        }
        let record = &records[i];
        if record.wt_new || record.wt_modified || record.wt_deleted || record.wt_renamed {
            if let Some(path) = &record.path {
                files.push(path.clone());
                assert(lines_of(files@) =~= before + seq![path@]);
            }
        }
        i += 1;
    }
    proof {
        assert(all.take(records.len() as int) == all);
    }
    files
}

/// Adds a line to the patch `patch`: the marker of the line's origin, then
/// the line's content.
pub fn append_line(patch: &mut Vec<u8>, origin: char, content: &[u8])
    ensures
        final(patch)@ == with_line(old(patch)@, origin, content@),
{
    if origin == '+' {
        patch.push(0x2bu8);
    } else if origin == '-' {
        patch.push(0x2du8);
    } else if origin == ' ' {
        patch.push(0x20u8);
    }
    let ghost marked = patch@;
    let mut i: usize = 0;
    while i < content.len()
        invariant
            i <= content.len(),
            patch@ == marked + content@.subrange(0, i as int),
        decreases content.len() - i,
    {
        patch.push(content[i]);
        i += 1;
    }
    proof {
        assert(content@.subrange(0, content.len() as int) == content@);
        assert(marked == old(patch)@ + line_marker(origin));
    }
}

/// What is found in `outcome`: its value, and nothing where it is an error.
pub fn found_or_none<T>(outcome: Result<T, git2::Error>) -> (r: Option<T>)
    ensures
        r == found(outcome),
{
    match outcome {
        Ok(value) => Some(value),
        Err(_) => None,
    }
}

/// The staged diff as text: an error where the patch is empty, else the
/// patch read as UTF-8, with a replacement character for what is not.
pub fn staged_text(patch: Vec<u8>) -> (r: Result<String, GitError>)
    ensures
        patch@.len() == 0 ==> r == Err::<String, GitError>(GitError::NothingStaged),
        patch@.len() > 0 ==> (r matches Ok(text) && text@ == lossy_text(patch@) && text@.len()
            > 0),
{
    if patch.len() == 0 {
        Err(GitError::NothingStaged)
    } else {
        Ok(decode_lossy(&patch))
    }
}

/// The confirmation of a commit with the identifier `id`.
pub fn commit_confirmation(id: &str) -> (r: String)
    ensures
        r@ == confirmation(id@),
{
    let mut text = COMMIT_SUCCESSFUL.to_owned();
    text.append(id);
    text
}

/// The tree of the commit that the head points at: what is found in the
/// outcome of peeling the head, and nothing where no head is found, as in a
/// repository without commits.
fn head_tree<'repo>(repo: &'repo git2::Repository) -> Option<git2::Tree<'repo>> {
    match found_or_none(repository_head(repo)) {
        Some(head) => found_or_none(peel_to_tree(&head)),
        None => None,
    }
}

/// The commit that the head points at: what is found in the outcome of
/// peeling the head, and nothing where no head is found, as in a repository
/// without commits.
fn head_commit<'repo>(repo: &'repo git2::Repository) -> Option<git2::Commit<'repo>> {
    match found_or_none(repository_head(repo)) {
        Some(head) => found_or_none(peel_to_commit(&head)),
        None => None,
    }
}

/// The name of the reference that a commit moves.
pub const HEAD: &'static str = "HEAD";

/// The operations on a working repository. Each comes twice: for the
/// repository in the current directory, and for the one in a directory that
/// the caller names.
pub struct GitHandler;

impl GitHandler {
    /// The staged diff of the repository in the current directory.
    pub fn get_staged_diff() -> (r: Result<String, GitError>)
        ensures
            is_staged_diff(text_outcome(r)),
    {
        Self::get_staged_diff_in(CURRENT_DIRECTORY)
    }

    /// The diff between the head of the repository at `dir`, or nothing
    /// where it has no commit yet, and its index, as a unified patch: an
    /// added line starts with `+`, a removed one with `-`, an unchanged one
    /// with a space. Fails with [`GitError::NothingStaged`] where the two do
    /// not differ.
    pub fn get_staged_diff_in(dir: &str) -> (r: Result<String, GitError>)
        ensures
            is_staged_diff(text_outcome(r)),
    {
        let repo = match open_repository(dir) {
            Ok(repo) => repo,
            Err(e) => {
                return Err(GitError::reported(e));
            },
        };
        let base = head_tree(&repo);
        let diff = match diff_tree_to_index(&repo, base.as_ref()) {
            Ok(diff) => diff,
            Err(e) => {
                return Err(GitError::reported(e));
            },
        };
        let patch = match patch_bytes(&diff) {
            Ok(patch) => patch,
            Err(e) => {
                return Err(GitError::reported(e));
            },
        };
        staged_text(patch)
    }

    /// Commits the index of the repository in the current directory.
    pub fn commit(message: &str) -> (r: Result<String, GitError>)
        ensures
            is_commit(text_outcome(r)),
    {
        Self::commit_in(CURRENT_DIRECTORY, message)
    }

    /// Writes the index of the repository at `dir` as a new commit on the
    /// head, with the head's commit as its parent where there is one, signed
    /// with the repository's configured identity. Returns the confirmation
    /// that holds the new commit's identifier.
    pub fn commit_in(dir: &str, message: &str) -> (r: Result<String, GitError>)
        ensures
            is_commit(text_outcome(r)),
    {
        let repo = match open_repository(dir) {
            Ok(repo) => repo,
            Err(e) => {
                return Err(GitError::reported(e));
            },
        };
        let mut index = match repository_index(&repo) {
            Ok(index) => index,
            Err(e) => {
                return Err(GitError::reported(e));
            },
        };
        let tree_id = match index_write_tree(&mut index) {
            Ok(id) => id,
            Err(e) => {
                return Err(GitError::reported(e));
            },
        };
        let tree = match find_tree(&repo, tree_id) {
            Ok(tree) => tree,
            Err(e) => {
                return Err(GitError::reported(e));
            },
        };
        let signature = match repository_signature(&repo) {
            Ok(signature) => signature,
            Err(e) => {
                return Err(GitError::reported(e));
            },
        };
        let parent = head_commit(&repo);
        match create_commit(&repo, HEAD, &signature, message, &tree, parent.as_ref()) {
            Ok(id) => {
                let id_text = oid_text(&id);
                Ok(commit_confirmation(id_text.as_str()))
            },
            Err(e) => Err(GitError::reported(e)),
        }
    }

    /// The unstaged and untracked files of the repository in the current
    /// directory.
    pub fn get_unstaged_files() -> (r: Result<Vec<String>, GitError>)
        ensures
            is_listing(files_outcome(r)),
    {
        Self::get_unstaged_files_in(CURRENT_DIRECTORY)
    }

    /// The paths of the repository at `dir` that are new, modified, deleted
    /// or renamed in the working tree, untracked files and the files of
    /// untracked directories included.
    pub fn get_unstaged_files_in(dir: &str) -> (r: Result<Vec<String>, GitError>)
        ensures
            is_listing(files_outcome(r)),
    {
        let repo = match open_repository(dir) {
            Ok(repo) => repo,
            Err(e) => {
                return Err(GitError::reported(e));
            },
        };
        match read_statuses(&repo, true, true) {
            Ok(records) => Ok(collect_unstaged(&records)),
            Err(e) => Err(GitError::reported(e)),
        }
    }

    /// Stages `paths` in the repository in the current directory.
    pub fn stage_files(paths: Vec<String>) -> (r: Result<String, GitError>)
        ensures
            is_staging(text_outcome(r)),
    {
        Self::stage_files_in(CURRENT_DIRECTORY, paths)
    }

    /// Adds `paths` to the index of the repository at `dir`, in their order,
    /// and writes the index once all are added. Stops at the first path that
    /// cannot be added, and then writes nothing.
    pub fn stage_files_in(dir: &str, paths: Vec<String>) -> (r: Result<String, GitError>)
        ensures
            is_staging(text_outcome(r)),
    {
        let repo = match open_repository(dir) {
            Ok(repo) => repo,
            Err(e) => {
                return Err(GitError::reported(e));
            },
        };
        let mut index = match repository_index(&repo) {
            Ok(index) => index,
            Err(e) => {
                return Err(GitError::reported(e));
            },
        };
        let mut i: usize = 0;
        while i < paths.len()
            invariant
                i <= paths.len(),
            decreases paths.len() - i,
        {
            match index_add_path(&mut index, paths[i].as_str()) {
                Ok(()) => {},
                Err(e) => {
                    return Err(GitError::reported(e));
                },
            }
            i += 1;
        }
        match index_write(&mut index) {
            Ok(()) => Ok(FILES_STAGED.to_owned()),
            Err(e) => Err(GitError::reported(e)),
        }
    }
}

} // verus!
