use data_loader_rust::db::{
    insert_github_commits, insert_github_contributors, insert_github_issues,
    insert_github_pull_requests, SqlValue, StoreStep, UpsertBatch, BEGIN_SQL, COMMIT_SQL,
    FOREIGN_KEYS_SQL, ROLLBACK_SQL, SCHEMA_SQL,
};
use data_loader_rust::errors::DataError;
use data_loader_rust::records::{
    CommitAuthor, GitCommit, GitHubCommit, GitHubContributor, GitHubIssue, GitHubPullRequest,
    GitHubUser, Timestamp,
};
use rusqlite::types::Value;
use rusqlite::{params_from_iter, Connection};

fn store() -> Connection {
    let conn = Connection::open_in_memory().expect("an in-memory database");
    conn.execute_batch(FOREIGN_KEYS_SQL).expect("the pragma");
    conn.execute_batch(SCHEMA_SQL).expect("the schema");
    conn
}

fn bound(values: &[SqlValue]) -> Vec<Value> {
    values
        .iter()
        .map(|v| match v {
            SqlValue::Null => Value::Null,
            SqlValue::Integer(n) => Value::Integer(*n),
            SqlValue::Text(t) => Value::Text(t.clone()),
        })
        .collect()
}

/// Performs the steps of `batch` on `conn`, as a caller of the library does.
fn perform(conn: &Connection, mut batch: UpsertBatch) -> Result<(), DataError> {
    let mut statement = "";
    loop {
        let outcome = match batch.next_step() {
            StoreStep::Prepare(sql) => {
                statement = sql;
                conn.prepare_cached(sql).map(|_| ())
            }
            StoreStep::Begin => conn.execute_batch(BEGIN_SQL),
            StoreStep::Write(values) => conn
                .prepare_cached(statement)
                .and_then(|mut s| s.execute(params_from_iter(bound(values))))
                .map(|_| ()),
            StoreStep::Commit => conn.execute_batch(COMMIT_SQL),
            StoreStep::Rollback => conn.execute_batch(ROLLBACK_SQL),
            StoreStep::Done => break,
        };
        batch = batch.record(outcome.map_err(|e| e.to_string()));
    }
    batch.result().expect("a batch at its end has a result")
}

fn rows(conn: &Connection, table: &str, columns: usize, order: &str) -> Vec<Vec<Value>> {
    let sql = format!("SELECT * FROM {} ORDER BY {}", table, order);
    let mut statement = conn.prepare(&sql).expect("a query");
    let found = statement
        .query_map([], |row| {
            let mut values = Vec::new();
            for i in 0..columns {
                values.push(row.get::<usize, Value>(i)?);
            }
            Ok(values)
        })
        .expect("rows");
    found.map(|r| r.expect("a row")).collect()
}

fn count(conn: &Connection, table: &str) -> i64 {
    conn.query_row(&format!("SELECT COUNT(*) FROM {}", table), [], |row| {
        row.get(0)
    })
    .expect("a count")
}

fn at(secs: i64) -> Timestamp {
    Timestamp::new(secs, 0).expect("a representable instant")
}

fn user(login: &str) -> GitHubUser {
    GitHubUser {
        login: login.to_string(),
        id: 1,
    }
}

fn commit(sha: &str, author: Option<&str>, message: Option<&str>) -> GitHubCommit {
    GitHubCommit {
        sha: sha.to_string(),
        commit: GitCommit {
            author: None,
            committer: Some(CommitAuthor {
                name: None,
                email: None,
                date: Some(at(1302796849)),
            }),
            message: message.map(String::from),
            url: None,
            comment_count: None,
        },
        url: format!("https://api.github.com/repos/x/commits/{}", sha),
        html_url: String::new(),
        comments_url: String::new(),
        author: author.map(user),
        committer: None,
    }
}

fn pull_request(id: i64, number: i64, title: &str) -> GitHubPullRequest {
    GitHubPullRequest {
        id,
        number,
        html_url: String::new(),
        state: "open".to_string(),
        title: title.to_string(),
        user: Some(user("mona")),
        body: None,
        created_at: at(1686832200),
        updated_at: at(1704067200),
        closed_at: None,
        merged_at: None,
        merge_commit_sha: None,
        merged: None,
        mergeable: None,
        rebaseable: None,
        mergeable_state: None,
        merged_by: None,
        comments_url: String::new(),
        review_comments_url: String::new(),
        statuses_url: String::new(),
    }
}

fn issue(id: i64, number: i64, comments: i64) -> GitHubIssue {
    GitHubIssue {
        id,
        number,
        html_url: String::new(),
        state: "open".to_string(),
        title: "t".to_string(),
        user: None,
        labels: Vec::new(),
        assignee: None,
        assignees: Vec::new(),
        locked: false,
        comments,
        created_at: at(1686832200),
        updated_at: at(1704067200),
        closed_at: Some(at(1709251199)),
        body: None,
        closed_by: None,
    }
}

fn contributor(login: &str, contributions: i64) -> GitHubContributor {
    GitHubContributor {
        login: login.to_string(),
        id: 5,
        contributions,
        contributor_type: "User".to_string(),
        html_url: String::new(),
    }
}

fn reject_sha(conn: &Connection, sha: &str) {
    conn.execute_batch(&format!(
        "CREATE TRIGGER reject_commit BEFORE INSERT ON github_commits \
         WHEN NEW.sha = '{}' BEGIN SELECT RAISE(ABORT, 'sha rejected'); END;",
        sha
    ))
    .expect("a trigger");
}

#[test]
fn schema_creation_can_be_repeated() {
    let conn = store();
    perform(&conn, insert_github_commits(&[commit("a", None, None)], "o/n")).expect("a batch");
    conn.execute_batch(SCHEMA_SQL).expect("the schema again");
    let tables: i64 = conn
        .query_row(
            "SELECT COUNT(*) FROM sqlite_master WHERE type = 'table' AND name LIKE 'github_%'",
            [],
            |row| row.get(0),
        )
        .expect("a count");
    assert_eq!(tables, 4);
    assert_eq!(count(&conn, "github_commits"), 1);
}

#[test]
fn upserting_twice_is_upserting_once() {
    let conn = store();
    let batch = vec![
        commit("a1", Some("mona"), Some("one")),
        commit("b2", None, Some("two")),
        commit("c3", Some("hubot"), None),
    ];
    perform(&conn, insert_github_commits(&batch, "o/n")).expect("the first time");
    let once = rows(&conn, "github_commits", 7, "sha");
    assert_eq!(once.len(), 3);
    perform(&conn, insert_github_commits(&batch, "o/n")).expect("the second time");
    let twice = rows(&conn, "github_commits", 7, "sha");
    assert_eq!(count(&conn, "github_commits"), 3);
    assert_eq!(once, twice);
}

#[test]
fn upserting_pull_requests_and_issues_twice_is_upserting_once() {
    let conn = store();
    let prs = vec![pull_request(1, 10, "a"), pull_request(2, 11, "b")];
    let issues = vec![issue(1, 10, 0), issue(2, 11, 4)];
    perform(&conn, insert_github_pull_requests(&prs, "o/n")).expect("pull requests");
    perform(&conn, insert_github_issues(&issues, "o/n")).expect("issues");
    let prs_once = rows(&conn, "github_pull_requests", 11, "id");
    let issues_once = rows(&conn, "github_issues", 10, "id");
    perform(&conn, insert_github_pull_requests(&prs, "o/n")).expect("pull requests again");
    perform(&conn, insert_github_issues(&issues, "o/n")).expect("issues again");
    assert_eq!(rows(&conn, "github_pull_requests", 11, "id"), prs_once);
    assert_eq!(rows(&conn, "github_issues", 10, "id"), issues_once);
    assert_eq!(prs_once.len(), 2);
    assert_eq!(issues_once.len(), 2);
}

#[test]
fn stored_commit_has_the_fields_of_the_record() {
    let conn = store();
    perform(
        &conn,
        insert_github_commits(&[commit("a1", Some("mona"), Some("one"))], "o/n"),
    )
    .expect("a batch");
    assert_eq!(
        rows(&conn, "github_commits", 7, "sha"),
        vec![vec![
            Value::Text("a1".to_string()),
            Value::Text("o/n".to_string()),
            Value::Text("mona".to_string()),
            Value::Null,
            Value::Text("one".to_string()),
            Value::Text("2011-04-14T16:00:49+00:00".to_string()),
            Value::Text("https://api.github.com/repos/x/commits/a1".to_string()),
        ]]
    );
}

#[test]
fn last_write_replaces_the_whole_row() {
    let conn = store();
    perform(
        &conn,
        insert_github_commits(&[commit("a1", Some("mona"), Some("one"))], "o/n"),
    )
    .expect("the first write");
    perform(&conn, insert_github_commits(&[commit("a1", None, None)], "o/n"))
        .expect("the second write");
    let found = rows(&conn, "github_commits", 7, "sha");
    assert_eq!(found.len(), 1);
    assert_eq!(found[0][2], Value::Null);
    assert_eq!(found[0][4], Value::Null);
}

#[test]
fn later_record_of_a_batch_wins() {
    let conn = store();
    let batch = vec![
        commit("a1", Some("first"), None),
        commit("a1", Some("second"), None),
    ];
    perform(&conn, insert_github_commits(&batch, "o/n")).expect("a batch");
    let found = rows(&conn, "github_commits", 7, "sha");
    assert_eq!(found.len(), 1);
    assert_eq!(found[0][2], Value::Text("second".to_string()));
}

#[test]
fn failed_batch_leaves_none_of_its_rows() {
    let conn = store();
    reject_sha(&conn, "bad");
    let batch = vec![
        commit("a1", None, None),
        commit("b2", None, None),
        commit("bad", None, None),
        commit("c3", None, None),
    ];
    let result = perform(&conn, insert_github_commits(&batch, "o/n"));
    assert_eq!(
        result,
        Err(DataError::DbError("sha rejected".to_string()))
    );
    assert_eq!(count(&conn, "github_commits"), 0);
}

#[test]
fn failed_batch_leaves_earlier_rows_as_they_were() {
    let conn = store();
    perform(
        &conn,
        insert_github_commits(&[commit("a1", Some("mona"), Some("kept"))], "o/n"),
    )
    .expect("the earlier batch");
    let before = rows(&conn, "github_commits", 7, "sha");
    reject_sha(&conn, "bad");
    let batch = vec![
        commit("a1", None, Some("replaced")),
        commit("bad", None, None),
    ];
    let result = perform(&conn, insert_github_commits(&batch, "o/n"));
    assert!(matches!(result, Err(DataError::DbError(_))));
    assert_eq!(rows(&conn, "github_commits", 7, "sha"), before);
}

#[test]
fn kinds_are_written_in_transactions_of_their_own() {
    let conn = store();
    perform(&conn, insert_github_pull_requests(&[pull_request(1, 10, "a")], "o/n"))
        .expect("pull requests");
    reject_sha(&conn, "bad");
    let result = perform(&conn, insert_github_commits(&[commit("bad", None, None)], "o/n"));
    assert!(matches!(result, Err(DataError::DbError(_))));
    assert_eq!(count(&conn, "github_pull_requests"), 1);
}

#[test]
fn store_is_usable_after_a_failed_batch() {
    let conn = store();
    reject_sha(&conn, "bad");
    let failed = perform(&conn, insert_github_commits(&[commit("bad", None, None)], "o/n"));
    assert!(failed.is_err());
    perform(&conn, insert_github_commits(&[commit("a1", None, None)], "o/n"))
        .expect("the next batch");
    assert_eq!(count(&conn, "github_commits"), 1);
}

#[test]
fn missing_table_fails_before_any_write() {
    let conn = Connection::open_in_memory().expect("an in-memory database");
    let result = perform(&conn, insert_github_commits(&[commit("a1", None, None)], "o/n"));
    assert!(matches!(result, Err(DataError::DbError(_))));
}

#[test]
fn commits_of_one_repository_leave_the_other_alone() {
    let conn = store();
    let ours = vec![commit("a1", Some("mona"), Some("one")), commit("b2", None, None)];
    perform(&conn, insert_github_commits(&ours, "bitcoin/bitcoin")).expect("the first repository");
    let before = rows(&conn, "github_commits", 7, "sha");
    let theirs = vec![commit("c3", None, None), commit("d4", Some("hubot"), None)];
    perform(&conn, insert_github_commits(&theirs, "bitcoinknots/bitcoin"))
        .expect("the second repository");
    let after = rows(&conn, "github_commits", 7, "sha");
    let kept: Vec<Vec<Value>> = after
        .iter()
        .filter(|r| r[1] == Value::Text("bitcoin/bitcoin".to_string()))
        .cloned()
        .collect();
    assert_eq!(kept, before);
    let added: Vec<&Vec<Value>> = after
        .iter()
        .filter(|r| r[1] != Value::Text("bitcoin/bitcoin".to_string()))
        .collect();
    assert_eq!(added.len(), 2);
    assert!(added
        .iter()
        .all(|r| r[1] == Value::Text("bitcoinknots/bitcoin".to_string())));
}

#[test]
fn commit_hash_is_the_key_across_repositories() {
    let conn = store();
    perform(
        &conn,
        insert_github_commits(&[commit("a1", None, None)], "bitcoin/bitcoin"),
    )
    .expect("the first repository");
    perform(
        &conn,
        insert_github_commits(&[commit("a1", None, None)], "bitcoinknots/bitcoin"),
    )
    .expect("the second repository");
    let found = rows(&conn, "github_commits", 7, "sha");
    assert_eq!(found.len(), 1);
    assert_eq!(found[0][1], Value::Text("bitcoinknots/bitcoin".to_string()));
}

#[test]
fn pull_request_number_is_unique_within_a_repository() {
    let conn = store();
    perform(&conn, insert_github_pull_requests(&[pull_request(1, 10, "old")], "o/n"))
        .expect("the first write");
    perform(&conn, insert_github_pull_requests(&[pull_request(2, 10, "new")], "o/n"))
        .expect("the second write");
    let found = rows(&conn, "github_pull_requests", 11, "id");
    assert_eq!(found.len(), 1);
    assert_eq!(found[0][0], Value::Integer(2));
    assert_eq!(found[0][4], Value::Text("new".to_string()));
    perform(&conn, insert_github_pull_requests(&[pull_request(3, 10, "other")], "p/q"))
        .expect("another repository");
    assert_eq!(count(&conn, "github_pull_requests"), 2);
}

#[test]
fn issue_keeps_dates_as_text_and_absence_as_null() {
    let conn = store();
    let mut open = issue(2, 2, 1);
    open.closed_at = None;
    perform(&conn, insert_github_issues(&[issue(1, 1, 9), open], "o/n")).expect("a batch");
    let found = rows(&conn, "github_issues", 10, "id");
    assert_eq!(found[0][6], Value::Text("2023-06-15T12:30:00+00:00".to_string()));
    assert_eq!(found[0][8], Value::Text("2024-02-29T23:59:59+00:00".to_string()));
    assert_eq!(found[0][9], Value::Integer(9));
    assert_eq!(found[1][8], Value::Null);
}

#[test]
fn contributors_are_persisted_by_repository_and_login() {
    let conn = store();
    let batch = vec![contributor("mona", 10), contributor("hubot", 3)];
    perform(&conn, insert_github_contributors(&batch, "o/n")).expect("the first write");
    perform(&conn, insert_github_contributors(&[contributor("mona", 12)], "o/n"))
        .expect("the second write");
    perform(&conn, insert_github_contributors(&[contributor("mona", 1)], "p/q"))
        .expect("another repository");
    let found = rows(&conn, "github_contributors", 5, "repo_name, login");
    assert_eq!(
        found,
        vec![
            vec![
                Value::Integer(5),
                Value::Text("o/n".to_string()),
                Value::Text("hubot".to_string()),
                Value::Integer(3),
                Value::Text("User".to_string()),
            ],
            vec![
                Value::Integer(5),
                Value::Text("o/n".to_string()),
                Value::Text("mona".to_string()),
                Value::Integer(12),
                Value::Text("User".to_string()),
            ],
            vec![
                Value::Integer(5),
                Value::Text("p/q".to_string()),
                Value::Text("mona".to_string()),
                Value::Integer(1),
                Value::Text("User".to_string()),
            ],
        ]
    );
}

#[test]
fn empty_batch_changes_nothing() {
    let conn = store();
    perform(&conn, insert_github_commits(&[commit("a1", None, None)], "o/n")).expect("a batch");
    perform(&conn, insert_github_commits(&[], "o/n")).expect("an empty batch");
    assert_eq!(count(&conn, "github_commits"), 1);
}
