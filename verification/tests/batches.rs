use data_loader_rust::db::{
    insert_github_commits, insert_github_contributors, upsert_sql, SqlValue, StoreStep, Table,
    UpsertBatch,
};
use data_loader_rust::errors::DataError;
use data_loader_rust::records::{GitCommit, GitHubCommit, GitHubContributor};

fn commit(sha: &str) -> GitHubCommit {
    GitHubCommit {
        sha: sha.to_string(),
        commit: GitCommit {
            author: None,
            committer: None,
            message: None,
            url: None,
            comment_count: None,
        },
        url: format!("https://api.github.com/repos/o/n/commits/{}", sha),
        html_url: String::new(),
        comments_url: String::new(),
        author: None,
        committer: None,
    }
}

fn row(sha: &str) -> Vec<SqlValue> {
    vec![
        SqlValue::Text(sha.to_string()),
        SqlValue::Text("o/n".to_string()),
        SqlValue::Null,
        SqlValue::Null,
        SqlValue::Null,
        SqlValue::Null,
        SqlValue::Text(format!("https://api.github.com/repos/o/n/commits/{}", sha)),
    ]
}

fn fail(complaint: &str) -> Result<(), String> {
    Err(complaint.to_string())
}

fn two_commits() -> UpsertBatch {
    insert_github_commits(&[commit("a1"), commit("b2")], "o/n")
}

#[test]
fn steps_of_a_batch_that_succeeds() {
    let batch = two_commits();
    assert_eq!(
        batch.next_step(),
        StoreStep::Prepare(upsert_sql(Table::Commits))
    );
    assert_eq!(batch.result(), None);
    let batch = batch.record(Ok(()));
    assert_eq!(batch.next_step(), StoreStep::Begin);
    let batch = batch.record(Ok(()));
    assert_eq!(batch.next_step(), StoreStep::Write(&row("a1")));
    assert_eq!(batch.result(), None);
    let batch = batch.record(Ok(()));
    assert_eq!(batch.next_step(), StoreStep::Write(&row("b2")));
    let batch = batch.record(Ok(()));
    assert_eq!(batch.next_step(), StoreStep::Commit);
    assert_eq!(batch.result(), None);
    let batch = batch.record(Ok(()));
    assert_eq!(batch.next_step(), StoreStep::Done);
    assert_eq!(batch.result(), Some(Ok(())));
}

#[test]
fn empty_batch_still_runs_its_transaction() {
    let batch = insert_github_commits(&[], "o/n");
    assert_eq!(
        batch.next_step(),
        StoreStep::Prepare(upsert_sql(Table::Commits))
    );
    let batch = batch.record(Ok(()));
    assert_eq!(batch.next_step(), StoreStep::Begin);
    let batch = batch.record(Ok(()));
    assert_eq!(batch.next_step(), StoreStep::Commit);
    let batch = batch.record(Ok(()));
    assert_eq!(batch.next_step(), StoreStep::Done);
    assert_eq!(batch.result(), Some(Ok(())));
}

#[test]
fn failed_write_rolls_back_and_reports_storage_failure() {
    let batch = two_commits()
        .record(Ok(()))
        .record(Ok(()))
        .record(Ok(()))
        .record(fail("constraint failed"));
    assert_eq!(batch.next_step(), StoreStep::Rollback);
    assert_eq!(batch.result(), None);
    let batch = batch.record(Ok(()));
    assert_eq!(batch.next_step(), StoreStep::Done);
    assert_eq!(
        batch.result(),
        Some(Err(DataError::DbError("constraint failed".to_string())))
    );
}

#[test]
fn failed_first_write_skips_the_rest() {
    let batch = two_commits()
        .record(Ok(()))
        .record(Ok(()))
        .record(fail("disk full"));
    assert_eq!(batch.next_step(), StoreStep::Rollback);
    let batch = batch.record(Ok(()));
    assert_eq!(
        batch.result(),
        Some(Err(DataError::DbError("disk full".to_string())))
    );
}

#[test]
fn failed_commit_rolls_back() {
    let batch = two_commits()
        .record(Ok(()))
        .record(Ok(()))
        .record(Ok(()))
        .record(Ok(()))
        .record(fail("busy"));
    assert_eq!(batch.next_step(), StoreStep::Rollback);
    let batch = batch.record(Ok(()));
    assert_eq!(
        batch.result(),
        Some(Err(DataError::DbError("busy".to_string())))
    );
}

#[test]
fn failed_rollback_keeps_the_first_complaint() {
    let batch = two_commits()
        .record(Ok(()))
        .record(Ok(()))
        .record(fail("first"))
        .record(fail("second"));
    assert_eq!(batch.next_step(), StoreStep::Done);
    assert_eq!(
        batch.result(),
        Some(Err(DataError::DbError("first".to_string())))
    );
}

#[test]
fn failure_before_the_transaction_needs_no_rollback() {
    let batch = two_commits().record(fail("no such table"));
    assert_eq!(batch.next_step(), StoreStep::Done);
    assert_eq!(
        batch.result(),
        Some(Err(DataError::DbError("no such table".to_string())))
    );
    let batch = two_commits().record(Ok(())).record(fail("locked"));
    assert_eq!(batch.next_step(), StoreStep::Done);
    assert_eq!(
        batch.result(),
        Some(Err(DataError::DbError("locked".to_string())))
    );
}

#[test]
fn a_finished_batch_takes_no_more_outcomes() {
    let batch = insert_github_commits(&[], "o/n")
        .record(Ok(()))
        .record(Ok(()))
        .record(Ok(()))
        .record(fail("late"))
        .record(Ok(()));
    assert_eq!(batch.next_step(), StoreStep::Done);
    assert_eq!(batch.result(), Some(Ok(())));
    let batch = two_commits()
        .record(fail("early"))
        .record(Ok(()))
        .record(fail("late"));
    assert_eq!(
        batch.result(),
        Some(Err(DataError::DbError("early".to_string())))
    );
}

#[test]
fn contributors_are_written_like_every_other_kind() {
    let contributor = GitHubContributor {
        login: "mona".to_string(),
        id: 1,
        contributions: 9,
        contributor_type: "Bot".to_string(),
        html_url: String::new(),
    };
    let batch = insert_github_contributors(&[contributor], "o/n");
    assert_eq!(
        batch.next_step(),
        StoreStep::Prepare(upsert_sql(Table::Contributors))
    );
    let batch = batch.record(Ok(())).record(Ok(()));
    assert_eq!(
        batch.next_step(),
        StoreStep::Write(&vec![
            SqlValue::Integer(1),
            SqlValue::Text("o/n".to_string()),
            SqlValue::Text("mona".to_string()),
            SqlValue::Integer(9),
            SqlValue::Text("Bot".to_string()),
        ])
    );
    let batch = batch.record(Ok(()));
    assert_eq!(batch.next_step(), StoreStep::Commit);
}
