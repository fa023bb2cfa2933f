//! Where the matcher and the compiled SQL agree.
//!
//! The matcher folds a list from the left. SQL reads the text that the
//! compiler writes for the same list by its own precedence: `AND` binds
//! tighter than `OR`, and a parenthesised group is one operand. The two
//! readings differ on a list such as `a OR b AND c`. This module states the
//! SQL reading over the same tree, taking each comparison to hold in SQL
//! exactly when the matcher's leaf holds, and proves that both readings give
//! one truth value on every list in which no `AND` follows an `OR`.

use crate::json::Json;
use crate::matcher::{item_outcome, items_outcome, query_outcome, MatchFailure};
use crate::query::{ItemView, QueryFilterOperation, QueryView};
use crate::sql::{filter_items, limit_sql, select_compiled, CompileError};
use vstd::prelude::*;

verus! {

/// Whether SQL holds an item to be true: a leaf as the matcher decides it,
/// a group by the SQL reading of its list.
pub open spec fn sql_item_truth(item: ItemView, doc: Json) -> bool
    decreases item, 0nat,
{
    match item {
        ItemView::Filter { .. } => item_outcome(item, doc) == Ok::<bool, MatchFailure>(true),
        ItemView::Condition { children, .. } => sql_truth(children, doc),
    }
}

/// The SQL reading of a list in two parts: whether some finished run of
/// operands joined by `AND` is true, and whether the run that the last
/// operand belongs to is true so far. An `OR` finishes the run before it.
pub open spec fn sql_runs(items: Seq<ItemView>, doc: Json) -> (bool, bool)
    decreases items, 0nat,
{
    if items.len() == 0 {
        (false, true)
    } else if items.len() == 1 {
        (false, sql_item_truth(items.last(), doc))
    } else {
        let before = sql_runs(items.drop_last(), doc);
        let last = sql_item_truth(items.last(), doc);
        if items.last().operation() == QueryFilterOperation::Or {
            (before.0 || before.1, last)
        } else {
            (before.0, before.1 && last)
        }
    }
}

/// Whether SQL holds a list to be true: some run of operands joined by
/// `AND` is true.
pub open spec fn sql_truth(items: Seq<ItemView>, doc: Json) -> bool
    decreases items, 1nat,
{
    sql_runs(items, doc).0 || sql_runs(items, doc).1
}

/// Whether no item after the first is joined by `OR`.
pub open spec fn no_or(items: Seq<ItemView>) -> bool
    decreases items.len(),
{
    if items.len() <= 1 {
        true
    } else {
        no_or(items.drop_last()) && items.last().operation() != QueryFilterOperation::Or
    }
}

/// Whether an item reads the same both ways: a leaf always, a group where
/// its list does.
pub open spec fn item_reads_alike(item: ItemView) -> bool
    decreases item,
{
    match item {
        ItemView::Filter { .. } => true,
        ItemView::Condition { children, .. } => reads_alike(children),
    }
}

/// Whether a list reads the same both ways: after the first item every
/// joiner is `AND` or `OR`, no `AND` follows an `OR`, and every group under
/// the list is such a list again.
pub open spec fn reads_alike(items: Seq<ItemView>) -> bool
    decreases items,
{
    if items.len() == 0 {
        true
    } else if items.len() == 1 {
        item_reads_alike(items.last())
    } else {
        &&& reads_alike(items.drop_last())
        &&& item_reads_alike(items.last())
        &&& items.last().operation() != QueryFilterOperation::Not
        &&& items.last().operation() == QueryFilterOperation::And ==> no_or(items.drop_last())
    }
}

/// In a list without `OR` no run is ever finished.
pub proof fn lemma_no_or_one_run(items: Seq<ItemView>, doc: Json)
    requires
        no_or(items),
    ensures
        !sql_runs(items, doc).0,
    decreases items.len(),
{
    if items.len() > 1 {
        lemma_no_or_one_run(items.drop_last(), doc);
    }
}

/// A list that the matcher can decide has items that it can decide.
pub proof fn lemma_settled_parts(items: Seq<ItemView>, doc: Json)
    requires
        items.len() > 0,
        items_outcome(items, doc) is Ok,
    ensures
        items_outcome(items.drop_last(), doc) is Ok,
        item_outcome(items.last(), doc) is Ok,
{
}

/// Where the matcher decides an item that reads the same both ways, SQL
/// decides it the same.
pub proof fn lemma_item_agrees(item: ItemView, doc: Json)
    requires
        item_reads_alike(item),
        item_outcome(item, doc) is Ok,
    ensures
        item_outcome(item, doc) == Ok::<bool, MatchFailure>(sql_item_truth(item, doc)),
    decreases item,
{
    match item {
        ItemView::Filter { .. } => {},
        ItemView::Condition { children, .. } => {
            lemma_items_agree(children, doc);
        },
    }
}

/// The matcher and SQL agree on a list in which no `AND` follows an `OR`:
/// where the left fold gives a truth value for a document, it is the truth
/// value that SQL's precedence gives the compiled list.
pub proof fn lemma_items_agree(items: Seq<ItemView>, doc: Json)
    requires
        reads_alike(items),
        items_outcome(items, doc) is Ok,
    ensures
        items_outcome(items, doc) == Ok::<bool, MatchFailure>(sql_truth(items, doc)),
    decreases items,
{
    if items.len() == 0 {
    } else if items.len() == 1 {
        lemma_item_agrees(items.last(), doc);
    } else {
        lemma_settled_parts(items, doc);
        lemma_items_agree(items.drop_last(), doc);
        lemma_item_agrees(items.last(), doc);
        if items.last().operation() == QueryFilterOperation::And {
            lemma_no_or_one_run(items.drop_last(), doc);
        }
    }
}

/// The matcher and SQL agree on a query whose filter list reads the same
/// both ways: where the matcher gives a truth value for a document, it is
/// the truth value that SQL's precedence gives the compiled filter.
pub proof fn lemma_query_agrees(query: QueryView, doc: Json)
    requires
        reads_alike(filter_items(query)),
        query_outcome(query, doc) is Ok,
    ensures
        query_outcome(query, doc) == Ok::<bool, MatchFailure>(
            sql_truth(filter_items(query), doc),
        ),
{
    match query.filter {
        Some(items) => lemma_items_agree(items, doc),
        None => {},
    }
}

/// A query without filter items holds of every document, and its statement
/// selects every row: it has no `WHERE` clause and binds no parameter.
pub proof fn lemma_no_filter_matches_all(table: Seq<char>, query: QueryView, doc: Json)
    requires
        filter_items(query).len() == 0,
    ensures
        query_outcome(query, doc) == Ok::<bool, MatchFailure>(true),
        select_compiled(table, Some(query)) == Ok::<(Seq<char>, Seq<Json>), CompileError>(
            ("SELECT data FROM "@ + table + limit_sql(query.limit), Seq::empty()),
        ),
{
    assert(crate::sql::items_params(filter_items(query)) =~= Seq::<Json>::empty());
    assert("SELECT data FROM "@ + table + Seq::<char>::empty() + limit_sql(query.limit)
        =~= "SELECT data FROM "@ + table + limit_sql(query.limit));
}

} // verus!
