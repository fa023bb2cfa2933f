//! A fluent builder: each call appends one item, in the order of the calls.

use crate::json::{json_model, Json};
use crate::query::{
    clone_items, items_view, ItemView, LeafView, Query, QueryFilter, QueryFilterCondition,
    QueryFilterFilter, QueryFilterItem, QueryFilterOperation, QueryFilterOperator, QueryView,
};
use serde_json::Value;
use vstd::prelude::*;

verus! {

/// Why the builder refused a call.
#[derive(Clone, Copy, Debug, PartialEq, Eq, Structural)]
pub enum BuildError {
    /// A nested group was given no items.
    EmptyGroup,
}

impl BuildError {
    /// This error in words.
    pub fn message(&self) -> (r: String)
        ensures
            r@ == "a nested group needs at least one filter item"@,
    {
        String::from_str("a nested group needs at least one filter item")
    }
}

/// Collects filter items for a [`Query`].
#[derive(Debug)]
pub struct QueryBuilder {
    filter: Vec<QueryFilterItem>,
}

impl View for QueryBuilder {
    type V = Seq<ItemView>;

    closed spec fn view(&self) -> Seq<ItemView> {
        items_view(self.filter@)
    }
}

impl Default for QueryBuilder {
    fn default() -> (r: QueryBuilder)
        ensures
            r@ == Seq::<ItemView>::empty(),
    {
        QueryBuilder::new()
    }
}

/// The value of a leaf item.
pub open spec fn leaf_item(
    operation: QueryFilterOperation,
    field: Seq<char>,
    operator: QueryFilterOperator,
    value: Json,
) -> ItemView {
    ItemView::Filter { operation, leaf: LeafView { field, operator, value } }
}

impl QueryBuilder {
    /// A builder with no items.
    pub fn new() -> (r: QueryBuilder)
        ensures
            r@ == Seq::<ItemView>::empty(),
    {
        let r = QueryBuilder { filter: Vec::new() };
        assert(r@ =~= Seq::<ItemView>::empty());
        r
    }

    fn push_leaf(
        &mut self,
        operation: QueryFilterOperation,
        field: &str,
        operator: QueryFilterOperator,
        value: Value,
    )
        ensures
            final(self)@ == old(self)@.push(
                leaf_item(operation, field@, operator, json_model(value)),
            ),
    {
        let item = QueryFilterItem::Filter(
            QueryFilterFilter {
                operation,
                filter: QueryFilter { field: field.to_owned(), operator, value },
            },
        );
        self.filter.push(item);
        assert(self@ =~= old(self)@.push(
            leaf_item(operation, field@, operator, json_model(value)),
        ));
    }

    /// Appends `field = value`, joined by `And`.
    pub fn wher(&mut self, field: &str, value: Value) -> (r: &mut QueryBuilder)
        ensures
            r@ == old(self)@.push(
                leaf_item(
                    QueryFilterOperation::And,
                    field@,
                    QueryFilterOperator::Equals,
                    json_model(value),
                ),
            ),
            final(self)@ == final(r)@,
    {
        self.push_leaf(QueryFilterOperation::And, field, QueryFilterOperator::Equals, value);
        self
    }

    /// Appends `field = value`, joined by `Or`.
    pub fn or_wher(&mut self, field: &str, value: Value) -> (r: &mut QueryBuilder)
        ensures
            r@ == old(self)@.push(
                leaf_item(
                    QueryFilterOperation::Or,
                    field@,
                    QueryFilterOperator::Equals,
                    json_model(value),
                ),
            ),
            final(self)@ == final(r)@,
    {
        self.push_leaf(QueryFilterOperation::Or, field, QueryFilterOperator::Equals, value);
        self
    }

    /// Appends `field = value`, joined by `And`: another name for [`Self::wher`].
    pub fn and_wher(&mut self, field: &str, value: Value) -> (r: &mut QueryBuilder)
        ensures
            r@ == old(self)@.push(
                leaf_item(
                    QueryFilterOperation::And,
                    field@,
                    QueryFilterOperator::Equals,
                    json_model(value),
                ),
            ),
            final(self)@ == final(r)@,
    {
        self.wher(field, value)
    }

    /// Appends `field = value`, joined by `And`.
    pub fn eq(&mut self, field: &str, value: Value) -> (r: &mut QueryBuilder)
        ensures
            r@ == old(self)@.push(
                leaf_item(
                    QueryFilterOperation::And,
                    field@,
                    QueryFilterOperator::Equals,
                    json_model(value),
                ),
            ),
            final(self)@ == final(r)@,
    {
        self.push_leaf(QueryFilterOperation::And, field, QueryFilterOperator::Equals, value);
        self
    }

    /// Appends `field <> value`, joined by `And`.
    pub fn not_eq(&mut self, field: &str, value: Value) -> (r: &mut QueryBuilder)
        ensures
            r@ == old(self)@.push(
                leaf_item(
                    QueryFilterOperation::And,
                    field@,
                    QueryFilterOperator::NotEquals,
                    json_model(value),
                ),
            ),
            final(self)@ == final(r)@,
    {
        self.push_leaf(QueryFilterOperation::And, field, QueryFilterOperator::NotEquals, value);
        self
    }

    /// Appends `field > value`, joined by `And`.
    pub fn gt(&mut self, field: &str, value: Value) -> (r: &mut QueryBuilder)
        ensures
            r@ == old(self)@.push(
                leaf_item(
                    QueryFilterOperation::And,
                    field@,
                    QueryFilterOperator::GreaterThan,
                    json_model(value),
                ),
            ),
            final(self)@ == final(r)@,
    {
        self.push_leaf(QueryFilterOperation::And, field, QueryFilterOperator::GreaterThan, value);
        self
    }

    /// Appends the filter list of a finished query as one group, joined by
    /// `And`. A query without items makes no group: that is `EmptyGroup`, and
    /// the builder stays as it was.
    pub fn and_query(&mut self, query: Query) -> (r: Result<&mut QueryBuilder, BuildError>)
        ensures
            match r {
                Ok(b) => group_items(query@) is Some && b@ == old(self)@.push(
                    ItemView::Condition {
                        operation: QueryFilterOperation::And,
                        children: group_items(query@)->0,
                    },
                ) && final(self)@ == final(b)@,
                Err(e) => group_items(query@) is None && e == BuildError::EmptyGroup
                    && final(self)@ == old(self)@,
            },
    {
        let items = match query.filter {
            Some(items) => items,
            None => {
                return Err(BuildError::EmptyGroup);
            },
        };
        if items.len() == 0 {
            return Err(BuildError::EmptyGroup);
        }
        let condition = QueryFilterCondition { operation: QueryFilterOperation::And, filter: items };
        proof {
            crate::query::lemma_condition_view(condition);
        }
        self.filter.push(QueryFilterItem::Condition(condition));
        assert(self@ =~= old(self)@.push(
            ItemView::Condition {
                operation: QueryFilterOperation::And,
                children: group_items(query@)->0,
            },
        ));
        Ok(self)
    }

    /// Builds a nested group: hands a fresh builder to `query_fn` and appends
    /// the filter list of the query that comes back, as [`Self::and_query`] does.
    pub fn and<F>(&mut self, mut query_fn: F) -> (r: Result<&mut QueryBuilder, BuildError>) where
        F: FnMut(QueryBuilder) -> Query,

        requires
            forall|fresh: QueryBuilder|
                fresh@ == Seq::<ItemView>::empty() ==> call_requires(query_fn, (fresh,)),
        ensures
            exists|fresh: QueryBuilder, query: Query|
                fresh@ == Seq::<ItemView>::empty() && call_ensures(query_fn, (fresh,), query)
                    && match r {
                    Ok(b) => group_items(query@) is Some && b@ == old(self)@.push(
                        ItemView::Condition {
                            operation: QueryFilterOperation::And,
                            children: group_items(query@)->0,
                        },
                    ) && final(self)@ == final(b)@,
                    Err(e) => group_items(query@) is None && e == BuildError::EmptyGroup
                        && final(self)@ == old(self)@,
                },
    {
        let query_builder = QueryBuilder::new();
        let query = query_fn(query_builder);
        self.and_query(query)
    }

    /// The query that filters by the items collected so far.
    pub fn build(&self) -> (r: Query)
        ensures
            r@ == (QueryView { filter: Some(self@), sort: None, limit: None }),
    {
        Query { filter: Some(clone_items(&self.filter)), sort: None, limit: None }
    }
}

impl Query {
    /// A builder with no items.
    pub fn builder() -> (r: QueryBuilder)
        ensures
            r@ == Seq::<ItemView>::empty(),
    {
        QueryBuilder::new()
    }
}

/// The items that a query gives to a group: its filter list, if it has one
/// and the list is not empty.
pub open spec fn group_items(query: QueryView) -> Option<Seq<ItemView>> {
    match query.filter {
        Some(items) => if items.len() > 0 {
            Some(items)
        } else {
            None
        },
        None => None,
    }
}

} // verus!
