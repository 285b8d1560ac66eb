//! A model of the store, and the laws of the upsert layer stated over it.
//!
//! A table is the set of its rows. Writing a row with `INSERT OR REPLACE`
//! removes every row that the new one conflicts with on a key of the table
//! and then adds the new row. A transaction works on a copy of the table
//! that replaces the table when it commits and is dropped when it rolls
//! back.

use vstd::prelude::*;
use crate::db::{
    after_step, commit_rows, contributor_rows, result_of, start_batch, step_of, write_or_commit,
    BatchPhaseView, BatchView, RowView, SqlValueView, StoreStepView, Table,
};
use crate::errors::DataErrorView;
use crate::records::{GitHubCommitView, GitHubContributorView};

verus! {

/// Whether rows `a` and `b` cannot both be in `table`: they agree on its
/// primary key or on a column set that it declares unique.
pub open spec fn conflicts(table: Table, a: RowView, b: RowView) -> bool {
    match table {
        Table::Commits => a[0] == b[0],
        Table::PullRequests => a[0] == b[0] || (a[2] == b[2] && a[1] == b[1]),
        Table::Issues => a[0] == b[0] || (a[2] == b[2] && a[1] == b[1]),
        Table::Contributors => a[1] == b[1] && a[2] == b[2],
    }
}

/// The column that holds the repository's full name.
pub open spec fn repo_column(table: Table) -> int {
    match table {
        Table::Commits => 1,
        Table::PullRequests => 2,
        Table::Issues => 2,
        Table::Contributors => 1,
    }
}

/// The table after `row` was written: without what `row` conflicts with,
/// and with `row`.
pub open spec fn upsert(table: Table, rows: Set<RowView>, row: RowView) -> Set<RowView> {
    Set::new(|x: RowView| x == row || (rows.contains(x) && !conflicts(table, x, row)))
}

/// The table after every row of `batch` was written, in order.
pub open spec fn upsert_all(table: Table, rows: Set<RowView>, batch: Seq<RowView>) -> Set<RowView>
    decreases batch.len(),
{
    if batch.len() == 0 {
        rows
    } else {
        upsert(table, upsert_all(table, rows, batch.drop_last()), batch.last())
    }
}

/// Whether `row` conflicts with no row of `batch`.
pub open spec fn clear_of(table: Table, row: RowView, batch: Seq<RowView>) -> bool {
    forall|i: int| 0 <= i < batch.len() ==> !conflicts(table, row, #[trigger] batch[i])
}

/// One table of the store: its durable rows, and the working copy of the
/// open transaction where there is one.
pub struct TableModel {
    pub stored: Set<RowView>,
    pub pending: Option<Set<RowView>>,
}

/// The store after a step of a batch was tried on it. A step that fails
/// changes nothing.
pub open spec fn perform(table: Table, s: TableModel, step: StoreStepView, ok: bool) -> TableModel {
    if !ok {
        s
    } else {
        match step {
            StoreStepView::Prepare(sql) => s,
            StoreStepView::Begin => TableModel { pending: Some(s.stored), ..s },
            StoreStepView::Write(row) => match s.pending {
                Some(working) => TableModel { pending: Some(upsert(table, working, row)), ..s },
                None => TableModel { stored: upsert(table, s.stored, row), ..s },
            },
            StoreStepView::Commit => match s.pending {
                Some(working) => TableModel { stored: working, pending: None },
                None => s,
            },
            StoreStepView::Rollback => TableModel { pending: None, ..s },
            StoreStepView::Done => s,
        }
    }
}

/// The batch and the store after the batch was driven to its end, where
/// step `k` went as `outcomes[k]` says.
pub open spec fn run(b: BatchView, s: TableModel, outcomes: Seq<Result<(), Seq<char>>>) -> (
    BatchView,
    TableModel,
)
    decreases outcomes.len(),
{
    if outcomes.len() == 0 || step_of(b) is Done {
        (b, s)
    } else {
        run(
            after_step(b, outcomes[0]),
            perform(b.table, s, step_of(b), outcomes[0] is Ok),
            outcomes.drop_first(),
        )
    }
}

/// The complaint of the first failure among the first `limit` outcomes.
pub open spec fn first_failure(outcomes: Seq<Result<(), Seq<char>>>, limit: int) -> Option<
    Seq<char>,
>
    decreases outcomes.len(),
{
    if limit <= 0 || outcomes.len() == 0 {
        None
    } else {
        match outcomes[0] {
            Err(complaint) => Some(complaint),
            Ok(_) => first_failure(outcomes.drop_first(), limit - 1),
        }
    }
}

/// What a finished batch reports and leaves behind: `Ok` and every row
/// written where no step failed; the first complaint and the table as it
/// was where one did.
pub open spec fn settled(
    table: Table,
    before: Set<RowView>,
    rows: Seq<RowView>,
    failure: Option<Seq<char>>,
    end: (BatchView, TableModel),
) -> bool {
    match failure {
        None => result_of(end.0) == Some(Ok::<(), DataErrorView>(())) && end.1.stored
            == upsert_all(table, before, rows),
        Some(complaint) => result_of(end.0) == Some(
            Err::<(), DataErrorView>(DataErrorView::DbError(complaint)),
        ) && end.1.stored == before,
    }
}

/// A batch that is about to roll back ends failed with its complaint, and
/// leaves the durable rows as they are.
proof fn lemma_run_rollback(
    table: Table,
    rows: Seq<RowView>,
    complaint: Seq<char>,
    s: TableModel,
    outcomes: Seq<Result<(), Seq<char>>>,
)
    requires
        outcomes.len() >= 1,
    ensures
        ({
            let b = BatchView { table, rows, phase: BatchPhaseView::Rollback(complaint) };
            let end = run(b, s, outcomes);
            &&& result_of(end.0) == Some(
                Err::<(), DataErrorView>(DataErrorView::DbError(complaint)),
            )
            &&& end.1.stored == s.stored
        }),
{
    let b = BatchView { table, rows, phase: BatchPhaseView::Rollback(complaint) };
    let b1 = after_step(b, outcomes[0]);
    let s1 = perform(table, s, step_of(b), outcomes[0] is Ok);
    assert(run(b, s, outcomes) == run(b1, s1, outcomes.drop_first()));
    assert(step_of(b1) is Done);
    assert(run(b1, s1, outcomes.drop_first()) == (b1, s1));
}

/// A batch that has written its first `i` rows inside its transaction
/// settles as the outcomes of the remaining steps say.
proof fn lemma_run_writes(
    table: Table,
    rows: Seq<RowView>,
    i: int,
    before: Set<RowView>,
    outcomes: Seq<Result<(), Seq<char>>>,
)
    requires
        0 <= i <= rows.len(),
        outcomes.len() >= rows.len() - i + 2,
    ensures
        settled(
            table,
            before,
            rows,
            first_failure(outcomes, rows.len() - i + 1),
            run(
                BatchView { table, rows, phase: write_or_commit(rows, i) },
                TableModel {
                    stored: before,
                    pending: Some(upsert_all(table, before, rows.take(i))),
                },
                outcomes,
            ),
        ),
    decreases rows.len() - i,
{
    let b = BatchView { table, rows, phase: write_or_commit(rows, i) };
    let working = upsert_all(table, before, rows.take(i));
    let s = TableModel { stored: before, pending: Some(working) };
    let rest = outcomes.drop_first();
    let b1 = after_step(b, outcomes[0]);
    let s1 = perform(table, s, step_of(b), outcomes[0] is Ok);
    assert(run(b, s, outcomes) == run(b1, s1, rest));
    match outcomes[0] {
        Err(complaint) => {
            assert(s1 == s);
            lemma_run_rollback(table, rows, complaint, s1, rest);
        },
        Ok(_) => {
            if i < rows.len() {
                assert(rows.take(i + 1).drop_last() =~= rows.take(i));
                assert(rows.take(i + 1).last() == rows[i]);
                assert(upsert_all(table, before, rows.take(i + 1)) == upsert(
                    table,
                    working,
                    rows[i],
                ));
                lemma_run_writes(table, rows, i + 1, before, rest);
                assert(first_failure(outcomes, rows.len() - i + 1) == first_failure(
                    rest,
                    rows.len() - (i + 1) + 1,
                ));
            } else {
                assert(rows.take(i) =~= rows);
                assert(step_of(b1) is Done);
                assert(run(b1, s1, rest) == (b1, s1));
                assert(first_failure(rest, 0) is None);
            }
        },
    }
}

/// A batch is atomic. Driven to its end from its first step, against a
/// table with no transaction open, it reports `Ok` and leaves the table
/// with every row of the batch written, in order, where every step
/// succeeded; where a step failed, it reports the storage failure with the
/// complaint of the first step that failed, and the table is as it was
/// before the batch: no row of the batch is visible.
pub proof fn lemma_batch_atomic(
    table: Table,
    rows: Seq<RowView>,
    before: Set<RowView>,
    outcomes: Seq<Result<(), Seq<char>>>,
)
    requires
        outcomes.len() >= rows.len() + 4,
    ensures
        settled(
            table,
            before,
            rows,
            first_failure(outcomes, rows.len() as int + 3),
            run(start_batch(table, rows), TableModel { stored: before, pending: None }, outcomes),
        ),
{
    let b = start_batch(table, rows);
    let s = TableModel { stored: before, pending: None };
    let rest = outcomes.drop_first();
    let b1 = after_step(b, outcomes[0]);
    assert(run(b, s, outcomes) == run(b1, s, rest));
    match outcomes[0] {
        Err(complaint) => {
            assert(step_of(b1) is Done);
            assert(run(b1, s, rest) == (b1, s));
        },
        Ok(_) => {
            let rest2 = rest.drop_first();
            let b2 = after_step(b1, rest[0]);
            let s2 = perform(table, s, step_of(b1), rest[0] is Ok);
            assert(run(b1, s, rest) == run(b2, s2, rest2));
            assert(first_failure(outcomes, rows.len() as int + 3) == first_failure(rest, rows.len() as int + 2));
            match rest[0] {
                Err(complaint) => {
                    assert(step_of(b2) is Done);
                    assert(run(b2, s2, rest2) == (b2, s2));
                },
                Ok(_) => {
                    assert(rows.take(0) =~= Seq::<RowView>::empty());
                    lemma_run_writes(table, rows, 0, before, rest2);
                    assert(first_failure(rest, rows.len() as int + 2) == first_failure(
                        rest2,
                        rows.len() as int + 1,
                    ));
                },
            }
        },
    }
}

/// A row is clear of a batch exactly if it is clear of all rows but the
/// last and does not conflict with the last.
proof fn lemma_clear_of_push(table: Table, x: RowView, batch: Seq<RowView>)
    requires
        batch.len() > 0,
    ensures
        clear_of(table, x, batch) <==> clear_of(table, x, batch.drop_last()) && !conflicts(
            table,
            x,
            batch.last(),
        ),
{
    let before = batch.drop_last();
    let last = batch.last();
    if clear_of(table, x, batch) {
        assert forall|i: int| 0 <= i < before.len() implies !conflicts(
            table,
            x,
            #[trigger] before[i],
        ) by {
            assert(before[i] == batch[i]);
        }
        assert(batch[batch.len() - 1] == last);
    }
    if clear_of(table, x, before) && !conflicts(table, x, last) {
        assert forall|i: int| 0 <= i < batch.len() implies !conflicts(
            table,
            x,
            #[trigger] batch[i],
        ) by {
            if i < before.len() {
                assert(before[i] == batch[i]);
            }
        }
    }
}

/// Writing a batch to a table gives the rows that the batch leaves in an
/// empty table, and of the table's own rows those that conflict with no
/// row of the batch.
pub proof fn lemma_upsert_all_parts(table: Table, rows: Set<RowView>, batch: Seq<RowView>)
    ensures
        forall|x: RowView| #[trigger]
            upsert_all(table, rows, batch).contains(x) <==> upsert_all(
                table,
                Set::empty(),
                batch,
            ).contains(x) || (rows.contains(x) && clear_of(table, x, batch)),
    decreases batch.len(),
{
    if batch.len() > 0 {
        let before = batch.drop_last();
        let last = batch.last();
        lemma_upsert_all_parts(table, rows, before);
        assert forall|x: RowView| #[trigger]
            upsert_all(table, rows, batch).contains(x) <==> upsert_all(
                table,
                Set::empty(),
                batch,
            ).contains(x) || (rows.contains(x) && clear_of(table, x, batch)) by {
            lemma_clear_of_push(table, x, batch);
            let whole = upsert_all(table, rows, before);
            let fresh = upsert_all(table, Set::empty(), before);
            assert(whole.contains(x) <==> fresh.contains(x) || (rows.contains(x) && clear_of(
                table,
                x,
                before,
            )));
            assert(upsert_all(table, rows, batch) == upsert(table, whole, last));
            assert(upsert_all(table, Set::empty(), batch) == upsert(table, fresh, last));
            assert(upsert(table, whole, last).contains(x) <==> x == last || (whole.contains(x)
                && !conflicts(table, x, last)));
            assert(upsert(table, fresh, last).contains(x) <==> x == last || (fresh.contains(x)
                && !conflicts(table, x, last)));
        }
    }
}

/// Every row that a batch leaves in an empty table is a row of the batch.
pub proof fn lemma_upsert_all_from_batch(table: Table, batch: Seq<RowView>, x: RowView)
    requires
        upsert_all(table, Set::empty(), batch).contains(x),
    ensures
        exists|i: int| 0 <= i < batch.len() && #[trigger] batch[i] == x,
    decreases batch.len(),
{
    if batch.len() > 0 {
        if x == batch.last() {
            assert(batch[batch.len() - 1] == x);
        } else {
            let before = batch.drop_last();
            lemma_upsert_all_from_batch(table, before, x);
            let i = choose|i: int| 0 <= i < before.len() && #[trigger] before[i] == x;
            assert(batch[i] == x);
        }
    }
}

/// Upserting is idempotent: writing the same batch a second time leaves
/// the table exactly as the first time left it, with the same rows and so
/// the same number of rows.
pub proof fn lemma_upsert_idempotent(table: Table, rows: Set<RowView>, batch: Seq<RowView>)
    ensures
        upsert_all(table, upsert_all(table, rows, batch), batch) == upsert_all(table, rows, batch),
{
    let once = upsert_all(table, rows, batch);
    let twice = upsert_all(table, once, batch);
    lemma_upsert_all_parts(table, rows, batch);
    lemma_upsert_all_parts(table, once, batch);
    assert forall|x: RowView| twice.contains(x) <==> once.contains(x) by {
        assert(twice.contains(x) <==> upsert_all(table, Set::empty(), batch).contains(x) || (
        once.contains(x) && clear_of(table, x, batch)));
        assert(once.contains(x) <==> upsert_all(table, Set::empty(), batch).contains(x) || (
        rows.contains(x) && clear_of(table, x, batch)));
    }
    assert(twice =~= once);
}

/// The last write wins, and wins the whole row: after a batch the table
/// holds the last row of the batch as it was written, and no other row
/// that conflicts with it on a key of the table.
pub proof fn lemma_last_write_wins(table: Table, rows: Set<RowView>, batch: Seq<RowView>)
    requires
        batch.len() > 0,
    ensures
        upsert_all(table, rows, batch).contains(batch.last()),
        forall|x: RowView|
            x != batch.last() && conflicts(table, x, batch.last()) ==> !upsert_all(
                table,
                rows,
                batch,
            ).contains(x),
{
}

/// Whether every row of `batch` belongs to repository `repo`.
pub open spec fn stamped(table: Table, batch: Seq<RowView>, repo: Seq<char>) -> bool {
    forall|i: int|
        0 <= i < batch.len() ==> (#[trigger] batch[i])[repo_column(table)] == SqlValueView::Text(
            repo,
        )
}

/// A batch for one repository leaves the rows of every other repository
/// alone. A row `other` that belongs to another repository is in the table
/// afterwards only if it was there before, and a row that was there before
/// is still there unless a row of the batch conflicts with it on a key of
/// the table.
pub proof fn lemma_upsert_isolated(
    table: Table,
    rows: Set<RowView>,
    batch: Seq<RowView>,
    repo: Seq<char>,
    other: RowView,
)
    requires
        stamped(table, batch, repo),
        other[repo_column(table)] != SqlValueView::Text(repo),
    ensures
        upsert_all(table, rows, batch).contains(other) ==> rows.contains(other),
        rows.contains(other) && clear_of(table, other, batch) ==> upsert_all(
            table,
            rows,
            batch,
        ).contains(other),
{
    lemma_upsert_all_parts(table, rows, batch);
    if upsert_all(table, Set::empty(), batch).contains(other) {
        lemma_upsert_all_from_batch(table, batch, other);
        let i = choose|i: int| 0 <= i < batch.len() && #[trigger] batch[i] == other;
        assert(batch[i][repo_column(table)] == SqlValueView::Text(repo));
    }
}

/// Writing the commits of repository `repo` creates no row of another
/// repository, whatever the table and the commits hold.
pub proof fn lemma_commits_create_nothing_foreign(
    rows: Set<RowView>,
    commits: Seq<GitHubCommitView>,
    repo: Seq<char>,
    other: RowView,
)
    requires
        other[1] != SqlValueView::Text(repo),
        upsert_all(Table::Commits, rows, commit_rows(commits, repo)).contains(other),
    ensures
        rows.contains(other),
{
    let batch = commit_rows(commits, repo);
    assert(stamped(Table::Commits, batch, repo));
    lemma_upsert_isolated(Table::Commits, rows, batch, repo, other);
}

/// Commits are isolated by repository. Writing the commits of repository
/// `repo` neither creates nor removes nor changes a row of another
/// repository, provided none of the written commits has the hash of that
/// row. The hash alone is the key of the table: a commit that two
/// repositories share is stored once, for the repository written last.
pub proof fn lemma_commits_isolated(
    rows: Set<RowView>,
    commits: Seq<GitHubCommitView>,
    repo: Seq<char>,
    other: RowView,
)
    requires
        other[1] != SqlValueView::Text(repo),
        forall|i: int|
            0 <= i < commits.len() ==> other[0] != SqlValueView::Text(
                (#[trigger] commits[i]).sha,
            ),
    ensures
        upsert_all(Table::Commits, rows, commit_rows(commits, repo)).contains(other)
            == rows.contains(other),
{
    let batch = commit_rows(commits, repo);
    assert(stamped(Table::Commits, batch, repo));
    lemma_upsert_isolated(Table::Commits, rows, batch, repo, other);
    assert forall|i: int| 0 <= i < batch.len() implies !conflicts(
        Table::Commits,
        other,
        #[trigger] batch[i],
    ) by {
        assert(batch[i][0] == SqlValueView::Text(commits[i].sha));
    }
}

/// Contributors are isolated by repository without condition: writing the
/// contributors of repository `repo` neither creates nor removes a row of
/// another repository.
pub proof fn lemma_contributors_isolated(
    rows: Set<RowView>,
    contributors: Seq<GitHubContributorView>,
    repo: Seq<char>,
    other: RowView,
)
    requires
        other[1] != SqlValueView::Text(repo),
    ensures
        upsert_all(Table::Contributors, rows, contributor_rows(contributors, repo)).contains(other)
            == rows.contains(other),
{
    let batch = contributor_rows(contributors, repo);
    assert(stamped(Table::Contributors, batch, repo));
    lemma_upsert_isolated(Table::Contributors, rows, batch, repo, other);
    assert forall|i: int| 0 <= i < batch.len() implies !conflicts(
        Table::Contributors,
        other,
        #[trigger] batch[i],
    ) by {
        assert(batch[i][1] == SqlValueView::Text(repo));
    }
}

} // verus!
