//! What a storage backend decides with a query in hand: which of the records
//! it holds in memory to return, and what to send to a database.

use crate::json::{json_model, json_models, value_clone, Json};
use crate::matcher::{query_outcome, MatchError, MatchFailure};
use crate::query::{clone_items, clone_sort, option_view, Query, QueryLimit, QueryView};
use crate::sql::{compiled_view, select_compiled, to_sql, CompileError};
use serde_json::Value;
use vstd::prelude::*;

verus! {

/// A type whose records live in one named collection.
pub trait Collection {
    /// The name of the collection.
    fn name() -> String;
}

/// A type whose records are found by an identity.
pub trait Identity {
    /// The query that finds the record with the given identity.
    fn identity_query(id: Value) -> Query;

    /// The attribute that identifies a record once it is serialized.
    fn key(&self) -> &str;

    /// The value of the identifying attribute.
    fn id(&self) -> Value;

    /// The identifying attribute with its value.
    fn identity(&self) -> Value;
}

/// The failure of the first record that a query cannot be matched against.
pub open spec fn first_failure(records: Seq<Json>, query: QueryView) -> Option<MatchFailure>
    decreases records.len(),
{
    if records.len() == 0 {
        None
    } else {
        match first_failure(records.drop_last(), query) {
            Some(e) => Some(e),
            None => match query_outcome(query, records.last()) {
                Err(e) => Some(e),
                Ok(_) => None,
            },
        }
    }
}

/// The records that a query holds of, in their order.
pub open spec fn selected(records: Seq<Json>, query: QueryView) -> Seq<Json>
    decreases records.len(),
{
    if records.len() == 0 {
        Seq::empty()
    } else if query_outcome(query, records.last()) == Ok::<bool, MatchFailure>(true) {
        selected(records.drop_last(), query).push(records.last())
    } else {
        selected(records.drop_last(), query)
    }
}

/// What a search for all matching records gives: with no query every
/// record; with one, the records that it holds of, in their order, or the
/// failure of the first record that cannot be matched.
pub open spec fn find_outcome(records: Seq<Json>, query: Option<QueryView>) -> Result<
    Seq<Json>,
    MatchFailure,
> {
    match query {
        None => Ok(records),
        Some(q) => match first_failure(records, q) {
            Some(e) => Err(e),
            None => Ok(selected(records, q)),
        },
    }
}

/// What a search for one record gives: with no query the first record, if
/// there is one; with a query the first record that it holds of, or the
/// failure of a record before that one which cannot be matched.
pub open spec fn find_one_outcome(records: Seq<Json>, query: Option<QueryView>) -> Result<
    Option<Json>,
    MatchFailure,
>
    decreases records.len(),
{
    if records.len() == 0 {
        Ok(None)
    } else {
        match query {
            None => Ok(Some(records.first())),
            Some(q) => match query_outcome(q, records.first()) {
                Err(e) => Err(e),
                Ok(true) => Ok(Some(records.first())),
                Ok(false) => find_one_outcome(records.drop_first(), query),
            },
        }
    }
}

/// The value of what a search for all matching records returns.
pub open spec fn found_view(r: Result<Vec<Value>, MatchError>) -> Result<Seq<Json>, MatchFailure> {
    match r {
        Ok(records) => Ok(json_models(records@)),
        Err(e) => Err(e@),
    }
}

/// The value of what a search for one record returns.
pub open spec fn found_one_view(r: Result<Option<Value>, MatchError>) -> Result<
    Option<Json>,
    MatchFailure,
> {
    match r {
        Ok(Some(record)) => Ok(Some(json_model(record))),
        Ok(None) => Ok(None),
        Err(e) => Err(e@),
    }
}

/// Once a record in a prefix cannot be matched, the first failure of the
/// whole list is the one of the prefix.
pub proof fn lemma_first_failure_stays(records: Seq<Json>, k: int, query: QueryView)
    requires
        0 <= k <= records.len(),
        first_failure(records.take(k), query) is Some,
    ensures
        first_failure(records, query) == first_failure(records.take(k), query),
    decreases records.len() - k,
{
    if k == records.len() {
        assert(records.take(k) =~= records);
    } else {
        assert(records.take(k + 1).drop_last() =~= records.take(k));
        lemma_first_failure_stays(records, k + 1, query);
    }
}

/// Copies of the records that a query holds of, in their order; every
/// record where there is no query.
pub fn find_records(records: &Vec<Value>, query: &Option<Query>) -> (r: Result<
    Vec<Value>,
    MatchError,
>)
    ensures
        found_view(r) == find_outcome(json_models(records@), option_view(*query)),
{
    let ghost all = json_models(records@);
    let mut found: Vec<Value> = Vec::new();
    let mut i: usize = 0;
    match query {
        None => {
            while i < records.len()
                invariant
                    i <= records.len(),
                    all == json_models(records@),
                    json_models(found@) =~= all.take(i as int),
                decreases records.len() - i,
            {
                let ghost before = found@;
                let copy = value_clone(&records[i]);
                found.push(copy);
                assert(json_models(found@) =~= json_models(before).push(json_model(copy)));
                assert(all.take(i + 1) =~= all.take(i as int).push(all[i as int]));
                i += 1;
            }
            assert(all.take(i as int) =~= all);
            Ok(found)
        },
        Some(q) => {
            while i < records.len()
                invariant
                    i <= records.len(),
                    all == json_models(records@),
                    option_view(*query) == Some(q@),
                    first_failure(all.take(i as int), q@) is None,
                    json_models(found@) =~= selected(all.take(i as int), q@),
                decreases records.len() - i,
            {
                assert(all.take(i + 1).drop_last() =~= all.take(i as int));
                assert(all.take(i + 1).last() == json_model(records@[i as int]));
                match q.matches(&records[i]) {
                    Ok(holds) => {
                        if holds {
                            let ghost before = found@;
                            let copy = value_clone(&records[i]);
                            found.push(copy);
                            assert(json_models(found@) =~= json_models(before).push(
                                json_model(copy),
                            ));
                        }
                    },
                    Err(e) => {
                        proof {
                            assert(first_failure(all.take(i + 1), q@) == Some(e@));
                            lemma_first_failure_stays(all, i + 1, q@);
                        }
                        return Err(e);
                    },
                }
                i += 1;
            }
            assert(all.take(i as int) =~= all);
            Ok(found)
        },
    }
}

/// A copy of the first record that a query holds of; of the first record
/// where there is no query.
pub fn find_one_record(records: &Vec<Value>, query: &Option<Query>) -> (r: Result<
    Option<Value>,
    MatchError,
>)
    ensures
        found_one_view(r) == find_one_outcome(json_models(records@), option_view(*query)),
{
    let ghost all = json_models(records@);
    let mut i: usize = 0;
    assert(all.skip(0) =~= all);
    while i < records.len()
        invariant
            i <= records.len(),
            all == json_models(records@),
            find_one_outcome(all, option_view(*query)) == find_one_outcome(
                all.skip(i as int),
                option_view(*query),
            ),
        decreases records.len() - i,
    {
        assert(all.skip(i as int).first() == json_model(records@[i as int]));
        assert(all.skip(i as int).drop_first() =~= all.skip(i + 1));
        match query {
            None => {
                return Ok(Some(value_clone(&records[i])));
            },
            Some(query) => match query.matches(&records[i]) {
                Ok(holds) => {
                    if holds {
                        return Ok(Some(value_clone(&records[i])));
                    }
                },
                Err(e) => {
                    return Err(e);
                },
            },
        }
        i += 1;
    }
    assert(all.skip(i as int).len() == 0);
    Ok(None)
}

/// The query that a search for one row sends: the same filter and sort,
/// limited to one row, with no offset.
pub open spec fn one_row(query: QueryView) -> QueryView {
    QueryView {
        filter: query.filter,
        sort: query.sort,
        limit: Some(QueryLimit { limit: Some(1), offset: None }),
    }
}

/// What a search for one row sends to the database: the query's statement
/// limited to one row, or a bare `SELECT` of one row where there is no query.
pub open spec fn find_one_compiled(table: Seq<char>, query: Option<QueryView>) -> Result<
    (Seq<char>, Seq<Json>),
    CompileError,
> {
    match query {
        None => Ok(("SELECT * FROM "@ + table + " LIMIT 1"@, Seq::empty())),
        Some(q) => select_compiled(table, Some(one_row(q))),
    }
}

/// Compiles a search for one row: the query limited to one row, or a bare
/// `SELECT` of one row where there is no query.
pub fn find_one_sql(table: &str, query: &Option<Query>) -> (r: Result<
    (String, Vec<Value>),
    CompileError,
>)
    ensures
        compiled_view(r) == find_one_compiled(table@, option_view(*query)),
{
    match query {
        Some(query) => {
            let limited = Query {
                filter: match &query.filter {
                    Some(items) => Some(clone_items(items)),
                    None => None,
                },
                sort: match &query.sort {
                    Some(keys) => Some(clone_sort(keys)),
                    None => None,
                },
                limit: Some(QueryLimit { limit: Some(1), offset: None }),
            };
            assert(limited@ == one_row(query@));
            to_sql(table, &Some(limited))
        },
        None => {
            let mut sql = String::from_str("SELECT * FROM ");
            sql.append(table);
            sql.append(" LIMIT 1");
            let none: Vec<Value> = Vec::new();
            assert(json_models(none@) =~= Seq::<Json>::empty());
            Ok((sql, none))
        },
    }
}

} // verus!
