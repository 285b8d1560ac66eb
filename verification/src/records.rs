//! The record shapes that the API returns, as plain data, each with its
//! mathematical value.

use vstd::prelude::*;

verus! {

/// The RFC 3339 text of the instant `secs` whole seconds and `nanos`
/// nanoseconds after the Unix epoch, in UTC, or `None` where the calendar
/// holds no such instant.
pub uninterp spec fn rfc3339_text(secs: int, nanos: int) -> Option<Seq<char>>;

/// The characters of an optional string.
pub open spec fn text_view(s: Option<String>) -> Option<Seq<char>> {
    match s {
        Some(t) => Some(t@),
        None => None,
    }
}

/// The value of an optional record.
pub open spec fn opt_view<T: View>(o: Option<T>) -> Option<T::V> {
    match o {
        Some(x) => Some(x@),
        None => None,
    }
}

/// The values of a sequence of records, in order.
pub open spec fn views_of<T: View>(s: Seq<T>) -> Seq<T::V> {
    Seq::new(s.len(), |i: int| s[i]@)
}

/// The values of a vector of records, in order.
pub open spec fn seq_view<T: View>(v: Vec<T>) -> Seq<T::V> {
    views_of(v@)
}

/// Whether the instant lies in the years 0000 to 9999 and its nanoseconds
/// make less than a second.
pub open spec fn in_common_years(secs: int, nanos: int) -> bool {
    -62_167_219_200 <= secs <= 253_402_300_799 && 0 <= nanos < 1_000_000_000
}

/// Calls `chrono::DateTime::<Utc>::from_timestamp` and, where it yields an
/// instant, `DateTime::to_rfc3339` on it. Both depend on their arguments
/// alone; the contract gives their combined result its name. It adds one
/// fact: the calendar, which reaches some 262,000 years either way, holds
/// every instant of the years 0000 to 9999.
#[verifier::external_body]
fn render_rfc3339(secs: i64, nanos: u32) -> (r: Option<String>)
    ensures
        text_view(r) == rfc3339_text(secs as int, nanos as int),
        in_common_years(secs as int, nanos as int) ==> r is Some,
{
    match chrono::DateTime::from_timestamp(secs, nanos) {
        Some(instant) => Some(instant.to_rfc3339()),
        None => None,
    }
}

/// An instant in UTC that the calendar can represent.
#[derive(Clone, Copy, Debug, PartialEq, Eq)]
pub struct Timestamp {
    secs: i64,
    nanos: u32,
}

/// The mathematical value of a [`Timestamp`].
pub struct TimestampView {
    /// Whole seconds since the Unix epoch.
    pub secs: int,
    /// Nanoseconds past the whole second.
    pub nanos: int,
}

/// The RFC 3339 text of a representable instant.
pub open spec fn instant_text(t: TimestampView) -> Seq<char> {
    rfc3339_text(t.secs, t.nanos)->0
}

/// The instant `days` whole days before `t`.
pub open spec fn earlier(t: TimestampView, days: int) -> TimestampView {
    TimestampView { secs: t.secs - days * 86_400, nanos: t.nanos }
}

impl View for Timestamp {
    type V = TimestampView;

    closed spec fn view(&self) -> TimestampView {
        TimestampView { secs: self.secs as int, nanos: self.nanos as int }
    }
}

impl Timestamp {
    #[verifier::type_invariant]
    spec fn representable(self) -> bool {
        rfc3339_text(self.secs as int, self.nanos as int) is Some
    }

    /// The instant `secs` seconds and `nanos` nanoseconds after the Unix
    /// epoch, where the calendar holds it, as it does every instant of the
    /// years 0000 to 9999.
    pub fn new(secs: i64, nanos: u32) -> (r: Option<Timestamp>)
        ensures
            r is Some <==> rfc3339_text(secs as int, nanos as int) is Some,
            in_common_years(secs as int, nanos as int) ==> r is Some,
            r matches Some(t) ==> t@ == (TimestampView { secs: secs as int, nanos: nanos as int }),
    {
        match render_rfc3339(secs, nanos) {
            Some(_) => Some(Timestamp { secs, nanos }),
            None => None,
        }
    }

    /// Whole seconds since the Unix epoch.
    pub fn unix_seconds(&self) -> (r: i64)
        ensures
            r == self@.secs,
    {
        self.secs
    }

    /// Nanoseconds past the whole second.
    pub fn subsec_nanos(&self) -> (r: u32)
        ensures
            r == self@.nanos,
    {
        self.nanos
    }

    /// The instant `days` whole days before this one, where the calendar
    /// holds it.
    pub fn days_earlier(&self, days: u32) -> (r: Option<Timestamp>)
        ensures
            r is Some <==> i64::MIN <= self@.secs - days * 86_400 && rfc3339_text(
                self@.secs - days * 86_400,
                self@.nanos,
            ) is Some,
            r matches Some(t) ==> t@ == earlier(self@, days as int),
            in_common_years(self@.secs - days * 86_400, self@.nanos) ==> r is Some,
    {
        let span: i64 = days as i64 * 86_400;
        if self.secs < i64::MIN + span {
            None
        } else {
            Timestamp::new(self.secs - span, self.nanos)
        }
    }

    /// The RFC 3339 text of this instant, as the store keeps it.
    pub fn to_rfc3339(&self) -> (r: String)
        ensures
            r@ == instant_text(self@),
    {
        proof {
            use_type_invariant(self);
        }
        match render_rfc3339(self.secs, self.nanos) {
            Some(text) => text,
            None => String::new(),
        }
    }
}

/// Days of history that a run looks back on: twelve months of thirty days.
pub const LOOKBACK_DAYS: u32 = 360;

/// Where the window of a run that starts at `now` begins.
pub fn lookback_start(now: Timestamp) -> (r: Option<Timestamp>)
    ensures
        r is Some <==> i64::MIN <= now@.secs - 31_104_000 && rfc3339_text(
            now@.secs - 31_104_000,
            now@.nanos,
        ) is Some,
        r matches Some(t) ==> t@ == earlier(now@, 360),
        in_common_years(now@.secs - 31_104_000, now@.nanos) ==> r is Some,
{
    now.days_earlier(LOOKBACK_DAYS)
}

/// A user of the host, as other records refer to one.
#[derive(Clone, Debug, PartialEq, Eq)]
pub struct GitHubUser {
    pub login: String,
    pub id: i64,
}

/// The mathematical value of a [`GitHubUser`].
pub struct GitHubUserView {
    pub login: Seq<char>,
    pub id: int,
}

impl View for GitHubUser {
    type V = GitHubUserView;

    open spec fn view(&self) -> GitHubUserView {
        GitHubUserView {
            login: self.login@,
            id: self.id as int,
        }
    }
}

/// Who wrote or committed a change, as the commit itself records it.
#[derive(Clone, Debug, PartialEq, Eq)]
pub struct CommitAuthor {
    pub name: Option<String>,
    pub email: Option<String>,
    pub date: Option<Timestamp>,
}

/// The mathematical value of a [`CommitAuthor`].
pub struct CommitAuthorView {
    pub name: Option<Seq<char>>,
    pub email: Option<Seq<char>>,
    pub date: Option<TimestampView>,
}

impl View for CommitAuthor {
    type V = CommitAuthorView;

    open spec fn view(&self) -> CommitAuthorView {
        CommitAuthorView {
            name: text_view(self.name),
            email: text_view(self.email),
            date: opt_view(self.date),
        }
    }
}

/// The version-control part of a commit record.
#[derive(Clone, Debug, PartialEq, Eq)]
pub struct GitCommit {
    pub author: Option<CommitAuthor>,
    pub committer: Option<CommitAuthor>,
    pub message: Option<String>,
    pub url: Option<String>,
    pub comment_count: Option<i64>,
}

/// The mathematical value of a [`GitCommit`].
pub struct GitCommitView {
    pub author: Option<CommitAuthorView>,
    pub committer: Option<CommitAuthorView>,
    pub message: Option<Seq<char>>,
    pub url: Option<Seq<char>>,
    pub comment_count: Option<int>,
}

impl View for GitCommit {
    type V = GitCommitView;

    open spec fn view(&self) -> GitCommitView {
        GitCommitView {
            author: opt_view(self.author),
            committer: opt_view(self.committer),
            message: text_view(self.message),
            url: text_view(self.url),
            comment_count: match self.comment_count {
                Some(n) => Some(n as int),
                None => None,
            },
        }
    }
}

/// A commit as the host lists it.
#[derive(Clone, Debug, PartialEq, Eq)]
pub struct GitHubCommit {
    pub sha: String,
    pub commit: GitCommit,
    pub url: String,
    pub html_url: String,
    pub comments_url: String,
    pub author: Option<GitHubUser>,
    pub committer: Option<GitHubUser>,
}

/// The mathematical value of a [`GitHubCommit`].
pub struct GitHubCommitView {
    pub sha: Seq<char>,
    pub commit: GitCommitView,
    pub url: Seq<char>,
    pub html_url: Seq<char>,
    pub comments_url: Seq<char>,
    pub author: Option<GitHubUserView>,
    pub committer: Option<GitHubUserView>,
}

impl View for GitHubCommit {
    type V = GitHubCommitView;

    open spec fn view(&self) -> GitHubCommitView {
        GitHubCommitView {
            sha: self.sha@,
            commit: self.commit@,
            url: self.url@,
            html_url: self.html_url@,
            comments_url: self.comments_url@,
            author: opt_view(self.author),
            committer: opt_view(self.committer),
        }
    }
}

/// The description of a repository.
#[derive(Debug, PartialEq, Eq)]
pub struct RepoInfo {
    pub id: i64,
    pub name: String,
    pub full_name: String,
    pub description: Option<String>,
    pub html_url: String,
    pub created_at: Timestamp,
    pub updated_at: Timestamp,
    pub pushed_at: Timestamp,
    pub stargazers_count: i32,
    pub watchers_count: i32,
    pub forks_count: i32,
    pub open_issues_count: i32,
    pub default_branch: String,
    pub language: Option<String>,
}

/// The mathematical value of a [`RepoInfo`].
pub struct RepoInfoView {
    pub id: int,
    pub name: Seq<char>,
    pub full_name: Seq<char>,
    pub description: Option<Seq<char>>,
    pub html_url: Seq<char>,
    pub created_at: TimestampView,
    pub updated_at: TimestampView,
    pub pushed_at: TimestampView,
    pub stargazers_count: int,
    pub watchers_count: int,
    pub forks_count: int,
    pub open_issues_count: int,
    pub default_branch: Seq<char>,
    pub language: Option<Seq<char>>,
}

impl View for RepoInfo {
    type V = RepoInfoView;

    open spec fn view(&self) -> RepoInfoView {
        RepoInfoView {
            id: self.id as int,
            name: self.name@,
            full_name: self.full_name@,
            description: text_view(self.description),
            html_url: self.html_url@,
            created_at: self.created_at@,
            updated_at: self.updated_at@,
            pushed_at: self.pushed_at@,
            stargazers_count: self.stargazers_count as int,
            watchers_count: self.watchers_count as int,
            forks_count: self.forks_count as int,
            open_issues_count: self.open_issues_count as int,
            default_branch: self.default_branch@,
            language: text_view(self.language),
        }
    }
}

/// A pull request as the host lists it.
#[derive(Clone, Debug, PartialEq, Eq)]
pub struct GitHubPullRequest {
    pub id: i64,
    pub number: i64,
    pub html_url: String,
    pub state: String,
    pub title: String,
    pub user: Option<GitHubUser>,
    pub body: Option<String>,
    pub created_at: Timestamp,
    pub updated_at: Timestamp,
    pub closed_at: Option<Timestamp>,
    pub merged_at: Option<Timestamp>,
    pub merge_commit_sha: Option<String>,
    pub merged: Option<bool>,
    pub mergeable: Option<bool>,
    pub rebaseable: Option<bool>,
    pub mergeable_state: Option<String>,
    pub merged_by: Option<GitHubUser>,
    pub comments_url: String,
    pub review_comments_url: String,
    pub statuses_url: String,
}

/// The mathematical value of a [`GitHubPullRequest`].
pub struct GitHubPullRequestView {
    pub id: int,
    pub number: int,
    pub html_url: Seq<char>,
    pub state: Seq<char>,
    pub title: Seq<char>,
    pub user: Option<GitHubUserView>,
    pub body: Option<Seq<char>>,
    pub created_at: TimestampView,
    pub updated_at: TimestampView,
    pub closed_at: Option<TimestampView>,
    pub merged_at: Option<TimestampView>,
    pub merge_commit_sha: Option<Seq<char>>,
    pub merged: Option<bool>,
    pub mergeable: Option<bool>,
    pub rebaseable: Option<bool>,
    pub mergeable_state: Option<Seq<char>>,
    pub merged_by: Option<GitHubUserView>,
    pub comments_url: Seq<char>,
    pub review_comments_url: Seq<char>,
    pub statuses_url: Seq<char>,
}

impl View for GitHubPullRequest {
    type V = GitHubPullRequestView;

    open spec fn view(&self) -> GitHubPullRequestView {
        GitHubPullRequestView {
            id: self.id as int,
            number: self.number as int,
            html_url: self.html_url@,
            state: self.state@,
            title: self.title@,
            user: opt_view(self.user),
            body: text_view(self.body),
            created_at: self.created_at@,
            updated_at: self.updated_at@,
            closed_at: opt_view(self.closed_at),
            merged_at: opt_view(self.merged_at),
            merge_commit_sha: text_view(self.merge_commit_sha),
            merged: self.merged,
            mergeable: self.mergeable,
            rebaseable: self.rebaseable,
            mergeable_state: text_view(self.mergeable_state),
            merged_by: opt_view(self.merged_by),
            comments_url: self.comments_url@,
            review_comments_url: self.review_comments_url@,
            statuses_url: self.statuses_url@,
        }
    }
}

/// A label attached to an issue.
#[derive(Clone, Debug, PartialEq, Eq)]
pub struct GitHubLabel {
    pub id: i64,
    pub name: String,
    pub color: String,
    pub description: Option<String>,
}

/// The mathematical value of a [`GitHubLabel`].
pub struct GitHubLabelView {
    pub id: int,
    pub name: Seq<char>,
    pub color: Seq<char>,
    pub description: Option<Seq<char>>,
}

impl View for GitHubLabel {
    type V = GitHubLabelView;

    open spec fn view(&self) -> GitHubLabelView {
        GitHubLabelView {
            id: self.id as int,
            name: self.name@,
            color: self.color@,
            description: text_view(self.description),
        }
    }
}

/// An issue as the host lists it.
#[derive(Clone, Debug, PartialEq, Eq)]
pub struct GitHubIssue {
    pub id: i64,
    pub number: i64,
    pub html_url: String,
    pub state: String,
    pub title: String,
    pub user: Option<GitHubUser>,
    pub labels: Vec<GitHubLabel>,
    pub assignee: Option<GitHubUser>,
    pub assignees: Vec<GitHubUser>,
    pub locked: bool,
    pub comments: i64,
    pub created_at: Timestamp,
    pub updated_at: Timestamp,
    pub closed_at: Option<Timestamp>,
    pub body: Option<String>,
    pub closed_by: Option<GitHubUser>,
}

/// The mathematical value of a [`GitHubIssue`].
pub struct GitHubIssueView {
    pub id: int,
    pub number: int,
    pub html_url: Seq<char>,
    pub state: Seq<char>,
    pub title: Seq<char>,
    pub user: Option<GitHubUserView>,
    pub labels: Seq<GitHubLabelView>,
    pub assignee: Option<GitHubUserView>,
    pub assignees: Seq<GitHubUserView>,
    pub locked: bool,
    pub comments: int,
    pub created_at: TimestampView,
    pub updated_at: TimestampView,
    pub closed_at: Option<TimestampView>,
    pub body: Option<Seq<char>>,
    pub closed_by: Option<GitHubUserView>,
}

impl View for GitHubIssue {
    type V = GitHubIssueView;

    open spec fn view(&self) -> GitHubIssueView {
        GitHubIssueView {
            id: self.id as int,
            number: self.number as int,
            html_url: self.html_url@,
            state: self.state@,
            title: self.title@,
            user: opt_view(self.user),
            labels: seq_view(self.labels),
            assignee: opt_view(self.assignee),
            assignees: seq_view(self.assignees),
            locked: self.locked,
            comments: self.comments as int,
            created_at: self.created_at@,
            updated_at: self.updated_at@,
            closed_at: opt_view(self.closed_at),
            body: text_view(self.body),
            closed_by: opt_view(self.closed_by),
        }
    }
}

/// A contributor of a repository, human or bot.
#[derive(Clone, Debug, PartialEq, Eq)]
pub struct GitHubContributor {
    pub login: String,
    pub id: i64,
    pub contributions: i64,
    pub contributor_type: String,
    pub html_url: String,
}

/// The mathematical value of a [`GitHubContributor`].
pub struct GitHubContributorView {
    pub login: Seq<char>,
    pub id: int,
    pub contributions: int,
    pub contributor_type: Seq<char>,
    pub html_url: Seq<char>,
}

impl View for GitHubContributor {
    type V = GitHubContributorView;

    open spec fn view(&self) -> GitHubContributorView {
        GitHubContributorView {
            login: self.login@,
            id: self.id as int,
            contributions: self.contributions as int,
            contributor_type: self.contributor_type@,
            html_url: self.html_url@,
        }
    }
}

} // verus!
