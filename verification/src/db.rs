//! The upsert layer: which statements to run for a batch of records, with
//! which values, and what to do when one of them fails.
//!
//! Nothing here touches a database. A caller performs the step that a batch
//! names and reports how it went; the batch decides the next step. What the
//! steps do to a table is modelled in [`crate::store`], where the laws of
//! this layer are proved.

use vstd::prelude::*;
use crate::errors::{DataError, DataErrorView};
use crate::records::{
    instant_text, opt_view, text_view, views_of, GitHubCommit, GitHubCommitView,
    GitHubContributor, GitHubContributorView, GitHubIssue, GitHubIssueView, GitHubPullRequest,
    GitHubPullRequestView, GitHubUser, GitHubUserView, Timestamp, TimestampView,
};

verus! {

broadcast use vstd::string::group_string_axioms;

/// Switches on enforcement of foreign keys; run once on a new connection.
pub const FOREIGN_KEYS_SQL: &'static str = "PRAGMA foreign_keys = ON;";

/// Opens the transaction of a batch.
pub const BEGIN_SQL: &'static str = "BEGIN TRANSACTION;";

/// Makes the writes of a batch durable.
pub const COMMIT_SQL: &'static str = "COMMIT;";

/// Undoes the writes of a batch.
pub const ROLLBACK_SQL: &'static str = "ROLLBACK;";

/// Creates the four tables where they do not exist yet, in a transaction
/// of its own.
pub const SCHEMA_SQL: &'static str = "BEGIN;
CREATE TABLE IF NOT EXISTS github_commits (
    sha TEXT PRIMARY KEY,
    repo_name TEXT,
    author_login TEXT,
    committer_login TEXT,
    message TEXT,
    commit_timestamp TEXT,
    api_url TEXT
);
CREATE TABLE IF NOT EXISTS github_pull_requests (
    id INTEGER PRIMARY KEY,
    number INTEGER,
    repo_name TEXT,
    state TEXT,
    title TEXT,
    user_login TEXT,
    created_at TEXT,
    updated_at TEXT,
    closed_at TEXT,
    merged_at TEXT,
    merge_commit_sha TEXT,
    UNIQUE (repo_name, number)
);
CREATE TABLE IF NOT EXISTS github_issues (
    id INTEGER PRIMARY KEY,
    number INTEGER,
    repo_name TEXT,
    state TEXT,
    title TEXT,
    user_login TEXT,
    created_at TEXT,
    updated_at TEXT,
    closed_at TEXT,
    comments_count INTEGER,
    UNIQUE (repo_name, number)
);
CREATE TABLE IF NOT EXISTS github_contributors (
    id INTEGER,
    repo_name TEXT,
    login TEXT,
    contributions INTEGER,
    contributor_type TEXT,
    PRIMARY KEY (repo_name, login)
);
COMMIT;";

/// One of the four tables.
#[derive(Clone, Copy, Debug, PartialEq, Eq)]
pub enum Table {
    Commits,
    PullRequests,
    Issues,
    Contributors,
}

/// A value bound to a statement.
#[derive(Debug, PartialEq, Eq)]
pub enum SqlValue {
    Null,
    Integer(i64),
    Text(String),
}

/// The mathematical value of a [`SqlValue`].
pub enum SqlValueView {
    Null,
    Integer(int),
    Text(Seq<char>),
}

impl View for SqlValue {
    type V = SqlValueView;

    open spec fn view(&self) -> SqlValueView {
        match *self {
            SqlValue::Null => SqlValueView::Null,
            SqlValue::Integer(n) => SqlValueView::Integer(n as int),
            SqlValue::Text(t) => SqlValueView::Text(t@),
        }
    }
}

/// A row: the values of its columns, in the order of the statement.
pub type RowView = Seq<SqlValueView>;

/// The values of a vector of bound values.
pub open spec fn row_view(values: Vec<SqlValue>) -> RowView {
    Seq::new(values@.len(), |i: int| values@[i]@)
}

/// The rows of a vector of rows.
pub open spec fn rows_view(rows: Seq<Vec<SqlValue>>) -> Seq<RowView> {
    Seq::new(rows.len(), |i: int| row_view(rows[i]))
}

/// The statement that writes one row of `table`, replacing what it
/// conflicts with.
pub open spec fn statement(table: Table) -> Seq<char> {
    match table {
        Table::Commits =>
            "INSERT OR REPLACE INTO github_commits (sha, repo_name, author_login, committer_login, message, commit_timestamp, api_url) VALUES (?1, ?2, ?3, ?4, ?5, ?6, ?7)"@,
        Table::PullRequests =>
            "INSERT OR REPLACE INTO github_pull_requests (id, number, repo_name, state, title, user_login, created_at, updated_at, closed_at, merged_at, merge_commit_sha) VALUES (?1, ?2, ?3, ?4, ?5, ?6, ?7, ?8, ?9, ?10, ?11)"@,
        Table::Issues =>
            "INSERT OR REPLACE INTO github_issues (id, number, repo_name, state, title, user_login, created_at, updated_at, closed_at, comments_count) VALUES (?1, ?2, ?3, ?4, ?5, ?6, ?7, ?8, ?9, ?10)"@,
        Table::Contributors =>
            "INSERT OR REPLACE INTO github_contributors (id, repo_name, login, contributions, contributor_type) VALUES (?1, ?2, ?3, ?4, ?5)"@,
    }
}

/// The login of a user as a column value; null where there is no user.
pub open spec fn login_of(user: Option<GitHubUserView>) -> SqlValueView {
    match user {
        Some(u) => SqlValueView::Text(u.login),
        None => SqlValueView::Null,
    }
}

/// An optional text as a column value.
pub open spec fn text_or_null(text: Option<Seq<char>>) -> SqlValueView {
    match text {
        Some(t) => SqlValueView::Text(t),
        None => SqlValueView::Null,
    }
}

/// An optional instant as a column value: its RFC 3339 text, or null.
pub open spec fn time_or_null(time: Option<TimestampView>) -> SqlValueView {
    match time {
        Some(t) => SqlValueView::Text(instant_text(t)),
        None => SqlValueView::Null,
    }
}

/// When a commit entered the hosted history: the date of its committer.
pub open spec fn commit_time(c: GitHubCommitView) -> Option<TimestampView> {
    match c.commit.committer {
        Some(who) => who.date,
        None => None,
    }
}

/// The row of a commit of repository `repo`.
pub open spec fn commit_row(c: GitHubCommitView, repo: Seq<char>) -> RowView {
    seq![
        SqlValueView::Text(c.sha),
        SqlValueView::Text(repo),
        login_of(c.author),
        login_of(c.committer),
        text_or_null(c.commit.message),
        time_or_null(commit_time(c)),
        SqlValueView::Text(c.url),
    ]
}

/// The row of a pull request of repository `repo`.
pub open spec fn pull_request_row(p: GitHubPullRequestView, repo: Seq<char>) -> RowView {
    seq![
        SqlValueView::Integer(p.id),
        SqlValueView::Integer(p.number),
        SqlValueView::Text(repo),
        SqlValueView::Text(p.state),
        SqlValueView::Text(p.title),
        login_of(p.user),
        SqlValueView::Text(instant_text(p.created_at)),
        SqlValueView::Text(instant_text(p.updated_at)),
        time_or_null(p.closed_at),
        time_or_null(p.merged_at),
        text_or_null(p.merge_commit_sha),
    ]
}

/// The row of an issue of repository `repo`.
pub open spec fn issue_row(i: GitHubIssueView, repo: Seq<char>) -> RowView {
    seq![
        SqlValueView::Integer(i.id),
        SqlValueView::Integer(i.number),
        SqlValueView::Text(repo),
        SqlValueView::Text(i.state),
        SqlValueView::Text(i.title),
        login_of(i.user),
        SqlValueView::Text(instant_text(i.created_at)),
        SqlValueView::Text(instant_text(i.updated_at)),
        time_or_null(i.closed_at),
        SqlValueView::Integer(i.comments),
    ]
}

/// The row of a contributor of repository `repo`.
pub open spec fn contributor_row(c: GitHubContributorView, repo: Seq<char>) -> RowView {
    seq![
        SqlValueView::Integer(c.id),
        SqlValueView::Text(repo),
        SqlValueView::Text(c.login),
        SqlValueView::Integer(c.contributions),
        SqlValueView::Text(c.contributor_type),
    ]
}

/// The rows of a batch of commits, in order.
pub open spec fn commit_rows(commits: Seq<GitHubCommitView>, repo: Seq<char>) -> Seq<RowView> {
    Seq::new(commits.len(), |i: int| commit_row(commits[i], repo))
}

/// The rows of a batch of pull requests, in order.
pub open spec fn pull_request_rows(prs: Seq<GitHubPullRequestView>, repo: Seq<char>) -> Seq<
    RowView,
> {
    Seq::new(prs.len(), |i: int| pull_request_row(prs[i], repo))
}

/// The rows of a batch of issues, in order.
pub open spec fn issue_rows(issues: Seq<GitHubIssueView>, repo: Seq<char>) -> Seq<RowView> {
    Seq::new(issues.len(), |i: int| issue_row(issues[i], repo))
}

/// The rows of a batch of contributors, in order.
pub open spec fn contributor_rows(contributors: Seq<GitHubContributorView>, repo: Seq<char>) -> Seq<
    RowView,
> {
    Seq::new(contributors.len(), |i: int| contributor_row(contributors[i], repo))
}

/// What the caller of a batch is to do next.
#[derive(Debug, PartialEq, Eq)]
pub enum StoreStep<'a> {
    /// Prepare this statement for the writes that follow.
    Prepare(&'static str),
    /// Open the transaction.
    Begin,
    /// Run the prepared statement with these values.
    Write(&'a Vec<SqlValue>),
    /// Commit the transaction.
    Commit,
    /// Roll the transaction back.
    Rollback,
    /// Nothing more: take the result.
    Done,
}

/// The mathematical value of a [`StoreStep`].
pub enum StoreStepView {
    Prepare(Seq<char>),
    Begin,
    Write(RowView),
    Commit,
    Rollback,
    Done,
}

impl<'a> View for StoreStep<'a> {
    type V = StoreStepView;

    open spec fn view(&self) -> StoreStepView {
        match *self {
            StoreStep::Prepare(sql) => StoreStepView::Prepare(sql@),
            StoreStep::Begin => StoreStepView::Begin,
            StoreStep::Write(values) => StoreStepView::Write(row_view(*values)),
            StoreStep::Commit => StoreStepView::Commit,
            StoreStep::Rollback => StoreStepView::Rollback,
            StoreStep::Done => StoreStepView::Done,
        }
    }
}

/// Where a batch stands.
#[derive(Debug, PartialEq, Eq)]
enum BatchPhase {
    Prepare,
    Begin,
    Write(usize),
    Commit,
    Rollback(String),
    Committed,
    Failed(String),
}

/// Where a batch stands, as a mathematical value.
pub enum BatchPhaseView {
    /// The statement is to be prepared.
    Prepare,
    /// The transaction is to be opened.
    Begin,
    /// The row at this index is to be written.
    Write(int),
    /// Every row is written; the transaction is to be committed.
    Commit,
    /// A step failed with this complaint; the transaction is to be rolled
    /// back.
    Rollback(Seq<char>),
    /// The batch is durable.
    Committed,
    /// The batch failed with this complaint and left nothing behind.
    Failed(Seq<char>),
}

/// One batch of rows for one table, written as a whole or not at all.
#[derive(Debug, PartialEq, Eq)]
pub struct UpsertBatch {
    table: Table,
    rows: Vec<Vec<SqlValue>>,
    phase: BatchPhase,
}

/// The mathematical value of an [`UpsertBatch`].
pub struct BatchView {
    pub table: Table,
    pub rows: Seq<RowView>,
    pub phase: BatchPhaseView,
}

/// A batch that has yet to take its first step.
pub open spec fn start_batch(table: Table, rows: Seq<RowView>) -> BatchView {
    BatchView { table, rows, phase: BatchPhaseView::Prepare }
}

/// The phase that writes row `i`, or commits where every row is written.
pub open spec fn write_or_commit(rows: Seq<RowView>, i: int) -> BatchPhaseView {
    if i < rows.len() {
        BatchPhaseView::Write(i)
    } else {
        BatchPhaseView::Commit
    }
}

/// What a batch asks of its caller.
pub open spec fn step_of(b: BatchView) -> StoreStepView {
    match b.phase {
        BatchPhaseView::Prepare => StoreStepView::Prepare(statement(b.table)),
        BatchPhaseView::Begin => StoreStepView::Begin,
        BatchPhaseView::Write(i) => StoreStepView::Write(b.rows[i]),
        BatchPhaseView::Commit => StoreStepView::Commit,
        BatchPhaseView::Rollback(complaint) => StoreStepView::Rollback,
        BatchPhaseView::Committed => StoreStepView::Done,
        BatchPhaseView::Failed(complaint) => StoreStepView::Done,
    }
}

/// The batch after its caller performed the step and reported `outcome`.
///
/// A failure before the transaction is open ends the batch. A failure
/// inside the transaction leads to a rollback, after which the batch has
/// failed with the first complaint, however the rollback went.
pub open spec fn after_step(b: BatchView, outcome: Result<(), Seq<char>>) -> BatchView {
    let phase = match b.phase {
        BatchPhaseView::Prepare => match outcome {
            Ok(_) => BatchPhaseView::Begin,
            Err(complaint) => BatchPhaseView::Failed(complaint),
        },
        BatchPhaseView::Begin => match outcome {
            Ok(_) => write_or_commit(b.rows, 0),
            Err(complaint) => BatchPhaseView::Failed(complaint),
        },
        BatchPhaseView::Write(i) => match outcome {
            Ok(_) => write_or_commit(b.rows, i + 1),
            Err(complaint) => BatchPhaseView::Rollback(complaint),
        },
        BatchPhaseView::Commit => match outcome {
            Ok(_) => BatchPhaseView::Committed,
            Err(complaint) => BatchPhaseView::Rollback(complaint),
        },
        BatchPhaseView::Rollback(complaint) => BatchPhaseView::Failed(complaint),
        BatchPhaseView::Committed => BatchPhaseView::Committed,
        BatchPhaseView::Failed(complaint) => BatchPhaseView::Failed(complaint),
    };
    BatchView { phase, ..b }
}

/// What a batch has to report: nothing while steps are outstanding.
pub open spec fn result_of(b: BatchView) -> Option<Result<(), DataErrorView>> {
    match b.phase {
        BatchPhaseView::Committed => Some(Ok(())),
        BatchPhaseView::Failed(complaint) => Some(Err(DataErrorView::DbError(complaint))),
        _ => None,
    }
}

/// The value of a reported outcome.
pub open spec fn outcome_view(outcome: Result<(), String>) -> Result<(), Seq<char>> {
    match outcome {
        Ok(_) => Ok(()),
        Err(complaint) => Err(complaint@),
    }
}

/// The value of a reported result.
pub open spec fn result_view(result: Option<Result<(), DataError>>) -> Option<
    Result<(), DataErrorView>,
> {
    match result {
        Some(Ok(_)) => Some(Ok(())),
        Some(Err(e)) => Some(Err(e@)),
        None => None,
    }
}

impl View for UpsertBatch {
    type V = BatchView;

    closed spec fn view(&self) -> BatchView {
        BatchView {
            table: self.table,
            rows: rows_view(self.rows@),
            phase: match self.phase {
                BatchPhase::Prepare => BatchPhaseView::Prepare,
                BatchPhase::Begin => BatchPhaseView::Begin,
                BatchPhase::Write(i) => BatchPhaseView::Write(i as int),
                BatchPhase::Commit => BatchPhaseView::Commit,
                BatchPhase::Rollback(complaint) => BatchPhaseView::Rollback(complaint@),
                BatchPhase::Committed => BatchPhaseView::Committed,
                BatchPhase::Failed(complaint) => BatchPhaseView::Failed(complaint@),
            },
        }
    }
}

/// The statement that writes one row of `table`.
pub fn upsert_sql(table: Table) -> (sql: &'static str)
    ensures
        sql@ == statement(table),
{
    match table {
        Table::Commits =>
            "INSERT OR REPLACE INTO github_commits (sha, repo_name, author_login, committer_login, message, commit_timestamp, api_url) VALUES (?1, ?2, ?3, ?4, ?5, ?6, ?7)",
        Table::PullRequests =>
            "INSERT OR REPLACE INTO github_pull_requests (id, number, repo_name, state, title, user_login, created_at, updated_at, closed_at, merged_at, merge_commit_sha) VALUES (?1, ?2, ?3, ?4, ?5, ?6, ?7, ?8, ?9, ?10, ?11)",
        Table::Issues =>
            "INSERT OR REPLACE INTO github_issues (id, number, repo_name, state, title, user_login, created_at, updated_at, closed_at, comments_count) VALUES (?1, ?2, ?3, ?4, ?5, ?6, ?7, ?8, ?9, ?10)",
        Table::Contributors =>
            "INSERT OR REPLACE INTO github_contributors (id, repo_name, login, contributions, contributor_type) VALUES (?1, ?2, ?3, ?4, ?5)",
    }
}

impl UpsertBatch {
    #[verifier::type_invariant]
    spec fn cursor_in_range(self) -> bool {
        self.phase matches BatchPhase::Write(i) ==> i < self.rows@.len()
    }

    /// A batch of `rows` for `table` that has yet to take its first step.
    fn new(table: Table, rows: Vec<Vec<SqlValue>>) -> (batch: UpsertBatch)
        ensures
            batch@ == start_batch(table, rows_view(rows@)),
    {
        UpsertBatch { table, rows, phase: BatchPhase::Prepare }
    }

    /// What the caller is to do next.
    pub fn next_step(&self) -> (step: StoreStep<'_>)
        ensures
            step@ == step_of(self@),
    {
        proof {
            use_type_invariant(self);
        }
        match &self.phase {
            BatchPhase::Prepare => StoreStep::Prepare(upsert_sql(self.table)),
            BatchPhase::Begin => StoreStep::Begin,
            BatchPhase::Write(i) => StoreStep::Write(&self.rows[*i]),
            BatchPhase::Commit => StoreStep::Commit,
            BatchPhase::Rollback(_) => StoreStep::Rollback,
            BatchPhase::Committed => StoreStep::Done,
            BatchPhase::Failed(_) => StoreStep::Done,
        }
    }

    /// Takes in how the step went: `Ok`, or the store's complaint.
    pub fn record(self, outcome: Result<(), String>) -> (next: UpsertBatch)
        ensures
            next@ == after_step(self@, outcome_view(outcome)),
    {
        proof {
            use_type_invariant(&self);
        }
        let count = self.rows.len();
        let phase = match self.phase {
            BatchPhase::Prepare => match outcome {
                Ok(_) => BatchPhase::Begin,
                Err(complaint) => BatchPhase::Failed(complaint),
            },
            BatchPhase::Begin => match outcome {
                Ok(_) => if 0 < count {
                    BatchPhase::Write(0)
                } else {
                    BatchPhase::Commit
                },
                Err(complaint) => BatchPhase::Failed(complaint),
            },
            BatchPhase::Write(i) => match outcome {
                Ok(_) => if i + 1 < count {
                    BatchPhase::Write(i + 1)
                } else {
                    BatchPhase::Commit
                },
                Err(complaint) => BatchPhase::Rollback(complaint),
            },
            BatchPhase::Commit => match outcome {
                Ok(_) => BatchPhase::Committed,
                Err(complaint) => BatchPhase::Rollback(complaint),
            },
            BatchPhase::Rollback(complaint) => BatchPhase::Failed(complaint),
            BatchPhase::Committed => BatchPhase::Committed,
            BatchPhase::Failed(complaint) => BatchPhase::Failed(complaint),
        };
        UpsertBatch { table: self.table, rows: self.rows, phase }
    }

    /// `Ok` once the batch is durable, the storage failure once it has
    /// failed, and `None` while steps are outstanding.
    pub fn result(&self) -> (r: Option<Result<(), DataError>>)
        ensures
            result_view(r) == result_of(self@),
    {
        match &self.phase {
            BatchPhase::Committed => Some(Ok(())),
            BatchPhase::Failed(complaint) => Some(Err(DataError::DbError(complaint.clone()))),
            _ => None,
        }
    }
}

fn login_value(user: &Option<GitHubUser>) -> (v: SqlValue)
    ensures
        v@ == login_of(opt_view(*user)),
{
    match user {
        Some(u) => SqlValue::Text(u.login.clone()),
        None => SqlValue::Null,
    }
}

fn text_value(text: &Option<String>) -> (v: SqlValue)
    ensures
        v@ == text_or_null(text_view(*text)),
{
    match text {
        Some(t) => SqlValue::Text(t.clone()),
        None => SqlValue::Null,
    }
}

fn time_value(time: &Option<Timestamp>) -> (v: SqlValue)
    ensures
        v@ == time_or_null(opt_view(*time)),
{
    match time {
        Some(t) => SqlValue::Text(t.to_rfc3339()),
        None => SqlValue::Null,
    }
}

/// The values of the row of a commit, in the order of the statement.
pub fn commit_values(c: &GitHubCommit, repo_name_full: &str) -> (values: Vec<SqlValue>)
    ensures
        row_view(values) == commit_row(c@, repo_name_full@),
{
    let when = match &c.commit.committer {
        Some(who) => who.date,
        None => None,
    };
    let mut values: Vec<SqlValue> = Vec::new();
    values.push(SqlValue::Text(c.sha.clone()));
    values.push(SqlValue::Text(String::from_str(repo_name_full)));
    values.push(login_value(&c.author));
    values.push(login_value(&c.committer));
    values.push(text_value(&c.commit.message));
    values.push(time_value(&when));
    values.push(SqlValue::Text(c.url.clone()));
    assert(row_view(values) =~= commit_row(c@, repo_name_full@));
    values
}

/// The values of the row of a pull request, in the order of the statement.
pub fn pull_request_values(p: &GitHubPullRequest, repo_name_full: &str) -> (values: Vec<SqlValue>)
    ensures
        row_view(values) == pull_request_row(p@, repo_name_full@),
{
    let mut values: Vec<SqlValue> = Vec::new();
    values.push(SqlValue::Integer(p.id));
    values.push(SqlValue::Integer(p.number));
    values.push(SqlValue::Text(String::from_str(repo_name_full)));
    values.push(SqlValue::Text(p.state.clone()));
    values.push(SqlValue::Text(p.title.clone()));
    values.push(login_value(&p.user));
    values.push(SqlValue::Text(p.created_at.to_rfc3339()));
    values.push(SqlValue::Text(p.updated_at.to_rfc3339()));
    values.push(time_value(&p.closed_at));
    values.push(time_value(&p.merged_at));
    values.push(text_value(&p.merge_commit_sha));
    assert(row_view(values) =~= pull_request_row(p@, repo_name_full@));
    values
}

/// The values of the row of an issue, in the order of the statement.
pub fn issue_values(i: &GitHubIssue, repo_name_full: &str) -> (values: Vec<SqlValue>)
    ensures
        row_view(values) == issue_row(i@, repo_name_full@),
{
    let mut values: Vec<SqlValue> = Vec::new();
    values.push(SqlValue::Integer(i.id));
    values.push(SqlValue::Integer(i.number));
    values.push(SqlValue::Text(String::from_str(repo_name_full)));
    values.push(SqlValue::Text(i.state.clone()));
    values.push(SqlValue::Text(i.title.clone()));
    values.push(login_value(&i.user));
    values.push(SqlValue::Text(i.created_at.to_rfc3339()));
    values.push(SqlValue::Text(i.updated_at.to_rfc3339()));
    values.push(time_value(&i.closed_at));
    values.push(SqlValue::Integer(i.comments));
    assert(row_view(values) =~= issue_row(i@, repo_name_full@));
    values
}

/// The values of the row of a contributor, in the order of the statement.
pub fn contributor_values(c: &GitHubContributor, repo_name_full: &str) -> (values: Vec<SqlValue>)
    ensures
        row_view(values) == contributor_row(c@, repo_name_full@),
{
    let mut values: Vec<SqlValue> = Vec::new();
    values.push(SqlValue::Integer(c.id));
    values.push(SqlValue::Text(String::from_str(repo_name_full)));
    values.push(SqlValue::Text(c.login.clone()));
    values.push(SqlValue::Integer(c.contributions));
    values.push(SqlValue::Text(c.contributor_type.clone()));
    assert(row_view(values) =~= contributor_row(c@, repo_name_full@));
    values
}

/// The batch that writes `commits` as rows of repository `repo_name_full`:
/// one row for each, in order, written together or not at all.
pub fn insert_github_commits(commits: &[GitHubCommit], repo_name_full: &str) -> (batch:
    UpsertBatch)
    ensures
        batch@ == start_batch(Table::Commits, commit_rows(views_of(commits@), repo_name_full@)),
{
    let mut rows: Vec<Vec<SqlValue>> = Vec::new();
    let mut i: usize = 0;
    while i < commits.len()
        invariant
            i <= commits.len(),
            rows@.len() == i,
            forall|j: int|
                0 <= j < i ==> row_view(#[trigger] rows@[j]) == commit_row(commits@[j]@, repo_name_full@),
        decreases commits.len() - i,
    {
        rows.push(commit_values(&commits[i], repo_name_full));
        i = i + 1;
    }
    assert(rows_view(rows@) =~= commit_rows(views_of(commits@), repo_name_full@));
    UpsertBatch::new(Table::Commits, rows)
}

/// The batch that writes `prs` as rows of repository `repo_name_full`.
pub fn insert_github_pull_requests(prs: &[GitHubPullRequest], repo_name_full: &str) -> (batch:
    UpsertBatch)
    ensures
        batch@ == start_batch(Table::PullRequests, pull_request_rows(views_of(prs@), repo_name_full@)),
{
    let mut rows: Vec<Vec<SqlValue>> = Vec::new();
    let mut i: usize = 0;
    while i < prs.len()
        invariant
            i <= prs.len(),
            rows@.len() == i,
            forall|j: int|
                0 <= j < i ==> row_view(#[trigger] rows@[j]) == pull_request_row(prs@[j]@, repo_name_full@),
        decreases prs.len() - i,
    {
        rows.push(pull_request_values(&prs[i], repo_name_full));
        i = i + 1;
    }
    assert(rows_view(rows@) =~= pull_request_rows(views_of(prs@), repo_name_full@));
    UpsertBatch::new(Table::PullRequests, rows)
}

/// The batch that writes `issues` as rows of repository `repo_name_full`.
pub fn insert_github_issues(issues: &[GitHubIssue], repo_name_full: &str) -> (batch: UpsertBatch)
    ensures
        batch@ == start_batch(Table::Issues, issue_rows(views_of(issues@), repo_name_full@)),
{
    let mut rows: Vec<Vec<SqlValue>> = Vec::new();
    let mut i: usize = 0;
    while i < issues.len()
        invariant
            i <= issues.len(),
            rows@.len() == i,
            forall|j: int|
                0 <= j < i ==> row_view(#[trigger] rows@[j]) == issue_row(issues@[j]@, repo_name_full@),
        decreases issues.len() - i,
    {
        rows.push(issue_values(&issues[i], repo_name_full));
        i = i + 1;
    }
    assert(rows_view(rows@) =~= issue_rows(views_of(issues@), repo_name_full@));
    UpsertBatch::new(Table::Issues, rows)
}

/// The batch that writes `contributors` as rows of repository
/// `repo_name_full`.
pub fn insert_github_contributors(contributors: &[GitHubContributor], repo_name_full: &str) -> (batch:
    UpsertBatch)
    ensures
        batch@ == start_batch(
            Table::Contributors,
            contributor_rows(views_of(contributors@), repo_name_full@),
        ),
{
    let mut rows: Vec<Vec<SqlValue>> = Vec::new();
    let mut i: usize = 0;
    while i < contributors.len()
        invariant
            i <= contributors.len(),
            rows@.len() == i,
            forall|j: int|
                0 <= j < i ==> row_view(#[trigger] rows@[j]) == contributor_row(contributors@[j]@, repo_name_full@),
        decreases contributors.len() - i,
    {
        rows.push(contributor_values(&contributors[i], repo_name_full));
        i = i + 1;
    }
    assert(rows_view(rows@) =~= contributor_rows(views_of(contributors@), repo_name_full@));
    UpsertBatch::new(Table::Contributors, rows)
}

} // verus!
