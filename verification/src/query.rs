//! The query tree: an ordered list of filter items, each a leaf comparison
//! or a parenthesised group, with sort and pagination beside it.
//!
//! Each type has a view that states its value without `String`, `Vec` or
//! `serde_json::Value`; the contracts of the matcher, the SQL compiler and
//! the wire format all speak of these views.

use crate::json::{json_model, value_clone, Json};
use serde_json::Value;
use vstd::prelude::*;

verus! {

/// How an item joins the items before it in its list.
#[derive(Clone, Copy, Debug, PartialEq, Eq, Structural)]
pub enum QueryFilterOperation {
    And,
    Or,
    Not,
}

/// The comparison that a leaf makes.
#[derive(Clone, Copy, Debug, PartialEq, Eq, Structural)]
pub enum QueryFilterOperator {
    Equals,
    NotEquals,
    GreaterThan,
    GreaterThanOrEquals,
    LessThan,
    LessThanOrEquals,
    Exists,
    NotExists,
    In,
    NotIn,
}

/// The direction of a sort key.
#[derive(Clone, Copy, Debug, PartialEq, Eq, Structural)]
pub enum QuerySortDirection {
    Ascending,
    Descending,
}

/// One sort key.
#[derive(Debug, PartialEq, Eq)]
pub struct QuerySortItem {
    pub field: String,
    pub direction: QuerySortDirection,
}

/// How many rows to return and how many to skip first.
#[derive(Clone, Copy, Debug, PartialEq, Eq, Structural)]
pub struct QueryLimit {
    pub limit: Option<u32>,
    pub offset: Option<u32>,
}

/// A leaf: one field compared with one value.
#[derive(Debug, PartialEq)]
pub struct QueryFilter {
    pub field: String,
    pub operator: QueryFilterOperator,
    pub value: Value,
}

/// A leaf with the operation that joins it to what precedes it.
#[derive(Debug, PartialEq)]
pub struct QueryFilterFilter {
    pub operation: QueryFilterOperation,
    pub filter: QueryFilter,
}

/// A group of items with the operation that joins it to what precedes it.
#[derive(Debug, PartialEq)]
pub struct QueryFilterCondition {
    pub operation: QueryFilterOperation,
    pub filter: Vec<QueryFilterItem>,
}

/// One item of a filter list.
#[derive(Debug, PartialEq)]
pub enum QueryFilterItem {
    Filter(QueryFilterFilter),
    Condition(QueryFilterCondition),
}

/// A query. No filter at all matches every document.
#[derive(Debug, PartialEq)]
pub struct Query {
    pub filter: Option<Vec<QueryFilterItem>>,
    pub sort: Option<Vec<QuerySortItem>>,
    pub limit: Option<QueryLimit>,
}

/// The value of a sort key.
pub struct SortItemView {
    pub field: Seq<char>,
    pub direction: QuerySortDirection,
}

/// The value of a leaf.
pub struct LeafView {
    pub field: Seq<char>,
    pub operator: QueryFilterOperator,
    pub value: Json,
}

/// The value of a filter item.
pub enum ItemView {
    Filter { operation: QueryFilterOperation, leaf: LeafView },
    Condition { operation: QueryFilterOperation, children: Seq<ItemView> },
}

/// The value of a query.
pub struct QueryView {
    pub filter: Option<Seq<ItemView>>,
    pub sort: Option<Seq<SortItemView>>,
    pub limit: Option<QueryLimit>,
}

impl ItemView {
    /// The operation that joins this item to the ones before it.
    pub open spec fn operation(self) -> QueryFilterOperation {
        match self {
            ItemView::Filter { operation, .. } => operation,
            ItemView::Condition { operation, .. } => operation,
        }
    }
}

impl View for QuerySortItem {
    type V = SortItemView;

    open spec fn view(&self) -> SortItemView {
        SortItemView { field: self.field@, direction: self.direction }
    }
}

impl View for QueryFilter {
    type V = LeafView;

    open spec fn view(&self) -> LeafView {
        LeafView { field: self.field@, operator: self.operator, value: json_model(self.value) }
    }
}

/// The value of an item; a group's value lists the values of its items.
pub open spec fn item_view(item: QueryFilterItem) -> ItemView
    decreases item,
{
    match item {
        QueryFilterItem::Filter(f) => ItemView::Filter { operation: f.operation, leaf: f.filter@ },
        QueryFilterItem::Condition(c) => ItemView::Condition {
            operation: c.operation,
            children: Seq::new(
                c.filter@.len(),
                |i: int|
                    if 0 <= i < c.filter@.len() {
                        item_view(c.filter@[i])
                    } else {
                        arbitrary()
                    },
            ),
        },
    }
}

impl QueryFilterItem {
    /// The operation that joins this item to the ones before it.
    pub fn operation(&self) -> (r: QueryFilterOperation)
        ensures
            r == self@.operation(),
    {
        match self {
            QueryFilterItem::Filter(f) => f.operation,
            QueryFilterItem::Condition(c) => c.operation,
        }
    }
}

impl View for QueryFilterItem {
    type V = ItemView;

    open spec fn view(&self) -> ItemView {
        item_view(*self)
    }
}

impl View for QueryFilterFilter {
    type V = ItemView;

    open spec fn view(&self) -> ItemView {
        ItemView::Filter { operation: self.operation, leaf: self.filter@ }
    }
}

impl View for QueryFilterCondition {
    type V = ItemView;

    open spec fn view(&self) -> ItemView {
        ItemView::Condition { operation: self.operation, children: items_view(self.filter@) }
    }
}

impl View for Query {
    type V = QueryView;

    open spec fn view(&self) -> QueryView {
        QueryView {
            filter: match self.filter {
                Some(items) => Some(items_view(items@)),
                None => None,
            },
            sort: match self.sort {
                Some(keys) => Some(sort_view(keys@)),
                None => None,
            },
            limit: self.limit,
        }
    }
}

/// The value of an optional query.
pub open spec fn option_view(query: Option<Query>) -> Option<QueryView> {
    match query {
        Some(q) => Some(q@),
        None => None,
    }
}

/// The values of a list of items, one for one.
pub open spec fn items_view(items: Seq<QueryFilterItem>) -> Seq<ItemView> {
    Seq::new(items.len(), |i: int| items[i]@)
}

/// The values of a list of sort keys, one for one.
pub open spec fn sort_view(keys: Seq<QuerySortItem>) -> Seq<SortItemView> {
    Seq::new(keys.len(), |i: int| keys[i]@)
}

/// A group's value lists the values of its items.
pub proof fn lemma_condition_view(c: QueryFilterCondition)
    ensures
        QueryFilterItem::Condition(c)@ == (ItemView::Condition {
            operation: c.operation,
            children: items_view(c.filter@),
        }),
{
    let item = QueryFilterItem::Condition(c);
    let children = item@->Condition_children;
    assert(children.len() == c.filter@.len());
    assert forall|i: int| 0 <= i < children.len() implies children[i] == items_view(
        c.filter@,
    )[i] by {
        assert(children[i] == c.filter@[i]@);
    }
    assert(children =~= items_view(c.filter@));
}

impl Clone for QuerySortItem {
    fn clone(&self) -> (r: Self)
        ensures
            r@ == self@,
    {
        QuerySortItem { field: self.field.clone(), direction: self.direction }
    }
}

impl Clone for QueryFilter {
    fn clone(&self) -> (r: Self)
        ensures
            r@ == self@,
    {
        QueryFilter {
            field: self.field.clone(),
            operator: self.operator,
            value: value_clone(&self.value),
        }
    }
}

impl Clone for QueryFilterFilter {
    fn clone(&self) -> (r: Self)
        ensures
            r@ == self@,
    {
        QueryFilterFilter { operation: self.operation, filter: self.filter.clone() }
    }
}

impl Clone for QueryFilterItem {
    fn clone(&self) -> (r: Self)
        ensures
            r@ == self@,
        decreases self,
    {
        match self {
            QueryFilterItem::Filter(f) => QueryFilterItem::Filter(f.clone()),
            QueryFilterItem::Condition(c) => {
                let copy = QueryFilterCondition {
                    operation: c.operation,
                    filter: clone_items(&c.filter),
                };
                proof {
                    lemma_condition_view(*c);
                    lemma_condition_view(copy);
                }
                QueryFilterItem::Condition(copy)
            },
        }
    }
}

impl Clone for QueryFilterCondition {
    fn clone(&self) -> (r: Self)
        ensures
            r@ == self@,
    {
        QueryFilterCondition { operation: self.operation, filter: clone_items(&self.filter) }
    }
}

impl Clone for Query {
    fn clone(&self) -> (r: Self)
        ensures
            r@ == self@,
    {
        Query {
            filter: match &self.filter {
                Some(items) => Some(clone_items(items)),
                None => None,
            },
            sort: match &self.sort {
                Some(keys) => Some(clone_sort(keys)),
                None => None,
            },
            limit: self.limit,
        }
    }
}

/// A copy of a list of items, item for item.
pub fn clone_items(items: &Vec<QueryFilterItem>) -> (r: Vec<QueryFilterItem>)
    ensures
        items_view(r@) == items_view(items@),
    decreases items,
{
    let mut copy: Vec<QueryFilterItem> = Vec::new();
    let mut i: usize = 0;
    while i < items.len()
        invariant
            i <= items.len(),
            copy.len() == i,
            forall|k: int| 0 <= k < i ==> copy@[k]@ == items@[k]@,
        decreases items.len() - i,
    {
        let item = items[i].clone();
        copy.push(item);
        i += 1;
    }
    assert(items_view(copy@) =~= items_view(items@));
    copy
}

/// A copy of a list of sort keys, key for key.
pub fn clone_sort(keys: &Vec<QuerySortItem>) -> (r: Vec<QuerySortItem>)
    ensures
        sort_view(r@) == sort_view(keys@),
{
    let mut copy: Vec<QuerySortItem> = Vec::new();
    let mut i: usize = 0;
    while i < keys.len()
        invariant
            i <= keys.len(),
            copy.len() == i,
            forall|k: int| 0 <= k < i ==> copy@[k]@ == keys@[k]@,
        decreases keys.len() - i,
    {
        copy.push(keys[i].clone());
        i += 1;
    }
    assert(sort_view(copy@) =~= sort_view(keys@));
    copy
}

} // verus!
