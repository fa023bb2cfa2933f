//! The in-memory matcher: does a JSON document satisfy a query?
//!
//! A list of items is folded from the left. The first item gives the running
//! result; every later item is joined to it by that item's own operation.
//! A group is folded on its own and then takes part like a leaf. Every item is
//! evaluated, in order, and the first failure met is the outcome of the whole.

use crate::json::{
    json_member, json_model, json_models, number_less, value_clone, value_equal, value_get,
    value_is_number, value_items, value_less, Json,
};
use crate::query::{
    items_view, lemma_condition_view, ItemView, LeafView, Query, QueryFilter,
    QueryFilterCondition, QueryFilterFilter, QueryFilterItem, QueryFilterOperation,
    QueryFilterOperator, QueryView,
};
use crate::wire::operator_tag;
use serde_json::Value;
use vstd::prelude::*;

verus! {

/// Why a document could not be matched.
#[derive(Debug, PartialEq, Eq)]
pub enum MatchError {
    /// The document has no member under the leaf's field.
    FieldNotFound { field: String },
    /// The operator does not apply to the kinds of value it was given: the
    /// value found under the field, and the leaf's comparison value.
    TypeMismatch { field: String, operator: QueryFilterOperator, found: Value, value: Value },
    /// The matcher does not implement the operator.
    UnsupportedOperator { operator: QueryFilterOperator },
}

/// The value of a [`MatchError`].
pub enum MatchFailure {
    FieldNotFound { field: Seq<char> },
    TypeMismatch { field: Seq<char>, operator: QueryFilterOperator, found: Json, value: Json },
    UnsupportedOperator { operator: QueryFilterOperator },
}

impl View for MatchError {
    type V = MatchFailure;

    open spec fn view(&self) -> MatchFailure {
        match self {
            MatchError::FieldNotFound { field } => MatchFailure::FieldNotFound { field: field@ },
            MatchError::TypeMismatch { field, operator, found, value } => MatchFailure::TypeMismatch {
                field: field@,
                operator: *operator,
                found: json_model(*found),
                value: json_model(*value),
            },
            MatchError::UnsupportedOperator { operator } => MatchFailure::UnsupportedOperator {
                operator: *operator,
            },
        }
    }
}

/// What a failure says in words.
pub open spec fn failure_text(e: MatchFailure) -> Seq<char> {
    match e {
        MatchFailure::FieldNotFound { field } => "field '"@ + field + "' not found"@,
        MatchFailure::TypeMismatch { field, operator, .. } => "operator "@ + operator_tag(operator)
            + " does not apply to field '"@ + field + "'"@,
        MatchFailure::UnsupportedOperator { operator } => "operator "@ + operator_tag(operator)
            + " is not supported"@,
    }
}

impl MatchError {
    /// This error in words.
    pub fn message(&self) -> (r: String)
        ensures
            r@ == failure_text(self@),
    {
        match self {
            MatchError::FieldNotFound { field } => {
                let mut text = String::from_str("field '");
                text.append(field.as_str());
                text.append("' not found");
                text
            },
            MatchError::TypeMismatch { field, operator, .. } => {
                let mut text = String::from_str("operator ");
                text.append(operator.tag());
                text.append(" does not apply to field '");
                text.append(field.as_str());
                text.append("'");
                text
            },
            MatchError::UnsupportedOperator { operator } => {
                let mut text = String::from_str("operator ");
                text.append(operator.tag());
                text.append(" is not supported");
                text
            },
        }
    }
}

/// The value of what a matching function returns.
pub open spec fn outcome_view(r: Result<bool, MatchError>) -> Result<bool, MatchFailure> {
    match r {
        Ok(b) => Ok(b),
        Err(e) => Err(e@),
    }
}

/// The failure of a leaf whose operator does not apply to the value found
/// under its field or to its comparison value.
pub open spec fn mismatch(leaf: LeafView, found: Json) -> MatchFailure {
    MatchFailure::TypeMismatch {
        field: leaf.field,
        operator: leaf.operator,
        found,
        value: leaf.value,
    }
}

/// What a leaf decides about a document. The field is looked up first, so a
/// missing field fails whatever the operator is.
pub open spec fn leaf_outcome(leaf: LeafView, doc: Json) -> Result<bool, MatchFailure> {
    match json_member(doc, leaf.field) {
        None => Err(MatchFailure::FieldNotFound { field: leaf.field }),
        Some(found) => match leaf.operator {
            QueryFilterOperator::Equals => Ok(found == leaf.value),
            QueryFilterOperator::NotEquals => Ok(found != leaf.value),
            QueryFilterOperator::LessThan => match (found, leaf.value) {
                (Json::Number(a), Json::Number(b)) => Ok(number_less(a, b)),
                _ => Err(mismatch(leaf, found)),
            },
            QueryFilterOperator::GreaterThan => match (found, leaf.value) {
                (Json::Number(a), Json::Number(b)) => Ok(number_less(b, a)),
                _ => Err(mismatch(leaf, found)),
            },
            QueryFilterOperator::In => match leaf.value {
                Json::Array(items) => Ok(items.contains(found)),
                _ => Err(mismatch(leaf, found)),
            },
            QueryFilterOperator::NotIn => match leaf.value {
                Json::Array(items) => Ok(!items.contains(found)),
                _ => Err(mismatch(leaf, found)),
            },
            _ => Err(MatchFailure::UnsupportedOperator { operator: leaf.operator }),
        },
    }
}

/// How an item's truth value joins the running result. `Not` is reserved: an
/// item tagged with it joins as `And` does.
pub open spec fn join(operation: QueryFilterOperation, acc: bool, b: bool) -> bool {
    match operation {
        QueryFilterOperation::Or => acc || b,
        _ => acc && b,
    }
}

/// What one item decides about a document: a leaf by its comparison, a group
/// by the fold of its items.
pub open spec fn item_outcome(item: ItemView, doc: Json) -> Result<bool, MatchFailure>
    decreases item,
{
    match item {
        ItemView::Filter { leaf, .. } => leaf_outcome(leaf, doc),
        ItemView::Condition { children, .. } => items_outcome(children, doc),
    }
}

/// The left fold of a list. An empty list holds of every document; the
/// operation of the first item plays no part.
pub open spec fn items_outcome(items: Seq<ItemView>, doc: Json) -> Result<bool, MatchFailure>
    decreases items,
{
    if items.len() == 0 {
        Ok(true)
    } else if items.len() == 1 {
        item_outcome(items.last(), doc)
    } else {
        match items_outcome(items.drop_last(), doc) {
            Err(e) => Err(e),
            Ok(acc) => match item_outcome(items.last(), doc) {
                Err(e) => Err(e),
                Ok(b) => Ok(join(items.last().operation(), acc, b)),
            },
        }
    }
}

/// What a query decides about a document.
pub open spec fn query_outcome(query: QueryView, doc: Json) -> Result<bool, MatchFailure> {
    match query.filter {
        None => Ok(true),
        Some(items) => items_outcome(items, doc),
    }
}

/// Once a prefix of a list has failed, the whole list fails the same way.
pub proof fn lemma_failure_stays(items: Seq<ItemView>, k: int, doc: Json)
    requires
        0 <= k <= items.len(),
        items_outcome(items.take(k), doc) is Err,
    ensures
        items_outcome(items, doc) == items_outcome(items.take(k), doc),
    decreases items.len() - k,
{
    if k == items.len() {
        assert(items.take(k) =~= items);
    } else {
        let longer = items.take(k + 1);
        assert(longer.drop_last() =~= items.take(k));
        assert(items.take(k).len() >= 1);
        assert(items_outcome(longer, doc) == items_outcome(items.take(k), doc));
        lemma_failure_stays(items, k + 1, doc);
    }
}

/// A leaf whose field the document lacks fails with `FieldNotFound`,
/// whatever its operator and its comparison value are.
pub proof fn lemma_missing_field(leaf: LeafView, doc: Json)
    requires
        json_member(doc, leaf.field) is None,
    ensures
        leaf_outcome(leaf, doc) == Err::<bool, MatchFailure>(
            MatchFailure::FieldNotFound { field: leaf.field },
        ),
{
}

/// `LessThan` and `GreaterThan` on a field that is present fail with
/// `TypeMismatch` unless both the field's value and the comparison value are
/// numbers, and decide by the order of the two numbers when both are.
pub proof fn lemma_order_needs_numbers(leaf: LeafView, doc: Json)
    requires
        leaf.operator == QueryFilterOperator::LessThan || leaf.operator
            == QueryFilterOperator::GreaterThan,
        json_member(doc, leaf.field) is Some,
    ensures
        !(json_member(doc, leaf.field)->0 is Number && leaf.value is Number) ==> leaf_outcome(
            leaf,
            doc,
        ) == Err::<bool, MatchFailure>(mismatch(leaf, json_member(doc, leaf.field)->0)),
        json_member(doc, leaf.field)->0 is Number && leaf.value is Number ==> leaf_outcome(
            leaf,
            doc,
        ) is Ok,
{
}

/// `In` and `NotIn` on a field that is present fail with `TypeMismatch`
/// unless the comparison value is an array. With an array, `In` holds exactly
/// when some item of it is the very value of the field, kind included, and
/// `NotIn` holds exactly when `In` does not.
pub proof fn lemma_membership(leaf: LeafView, doc: Json)
    requires
        leaf.operator == QueryFilterOperator::In || leaf.operator == QueryFilterOperator::NotIn,
        json_member(doc, leaf.field) is Some,
    ensures
        !(leaf.value is Array) ==> leaf_outcome(leaf, doc) == Err::<bool, MatchFailure>(
            mismatch(leaf, json_member(doc, leaf.field)->0),
        ),
        leaf.value matches Json::Array(items) ==> leaf_outcome(leaf, doc) == Ok::<
            bool,
            MatchFailure,
        >(
            (leaf.operator == QueryFilterOperator::In) == (exists|i: int|
                0 <= i < items.len() && items[i] == json_member(doc, leaf.field)->0),
        ),
{
}

/// Equality is sensitive to kind: a string is never equal to a number,
/// whatever the two hold.
pub proof fn lemma_string_is_no_number(text: Seq<char>, number: crate::json::JsonNumber)
    ensures
        Json::String(text) != Json::Number(number),
{
}

/// An item with its operation replaced.
pub open spec fn with_operation(item: ItemView, operation: QueryFilterOperation) -> ItemView {
    match item {
        ItemView::Filter { leaf, .. } => ItemView::Filter { operation, leaf },
        ItemView::Condition { children, .. } => ItemView::Condition { operation, children },
    }
}

/// The operation of the first item of a list plays no part: whatever it is
/// replaced by, the fold of the list stays the same.
pub proof fn lemma_first_operation_inert(
    items: Seq<ItemView>,
    operation: QueryFilterOperation,
    doc: Json,
)
    requires
        items.len() > 0,
    ensures
        items_outcome(items.update(0, with_operation(items[0], operation)), doc) == items_outcome(
            items,
            doc,
        ),
    decreases items.len(),
{
    let changed = items.update(0, with_operation(items[0], operation));
    assert(item_outcome(with_operation(items[0], operation), doc) == item_outcome(items[0], doc));
    if items.len() > 1 {
        lemma_first_operation_inert(items.drop_last(), operation, doc);
        assert(changed.drop_last() =~= items.drop_last().update(
            0,
            with_operation(items[0], operation),
        ));
        assert(changed.last() == items.last());
    }
}

/// The fold reports the first failure in list order: where an item fails
/// and every item before it gives a truth value, the list fails as that
/// item does, whatever the items after it are.
pub proof fn lemma_first_failure(items: Seq<ItemView>, k: int, doc: Json)
    requires
        0 <= k < items.len(),
        forall|j: int| 0 <= j < k ==> item_outcome(#[trigger] items[j], doc) is Ok,
        item_outcome(items[k], doc) is Err,
    ensures
        items_outcome(items, doc) == item_outcome(items[k], doc),
{
    lemma_prefix_settles(items, k, doc);
    let longer = items.take(k + 1);
    assert(longer.drop_last() =~= items.take(k));
    assert(longer.last() == items[k]);
    lemma_failure_stays(items, k + 1, doc);
}

/// A prefix whose items all give a truth value gives one itself.
pub proof fn lemma_prefix_settles(items: Seq<ItemView>, k: int, doc: Json)
    requires
        0 <= k <= items.len(),
        forall|j: int| 0 <= j < k ==> item_outcome(#[trigger] items[j], doc) is Ok,
    ensures
        items_outcome(items.take(k), doc) is Ok,
    decreases k,
{
    if k > 0 {
        lemma_prefix_settles(items, k - 1, doc);
        let prefix = items.take(k);
        assert(prefix.drop_last() =~= items.take(k - 1));
        assert(prefix.last() == items[k - 1]);
    }
}

/// Whether a value is equal to one of the items.
fn contains_value(items: &Vec<Value>, v: &Value) -> (r: bool)
    ensures
        r == json_models(items@).contains(json_model(*v)),
{
    let mut i: usize = 0;
    while i < items.len()
        invariant
            i <= items.len(),
            forall|k: int| 0 <= k < i ==> json_models(items@)[k] != json_model(*v),
        decreases items.len() - i,
    {
        if value_equal(&items[i], v) {
            assert(json_models(items@)[i as int] == json_model(*v));
            return true;
        }
        i += 1;
    }
    false
}

impl QueryFilter {
    /// The failure of this leaf on a value that its operator does not
    /// apply to.
    fn mismatch(&self, found: &Value) -> (r: MatchError)
        ensures
            r@ == mismatch(self@, json_model(*found)),
    {
        MatchError::TypeMismatch {
            field: self.field.clone(),
            operator: self.operator,
            found: value_clone(found),
            value: value_clone(&self.value),
        }
    }

    /// Tests one document against this leaf.
    pub fn matches(&self, value: &Value) -> (r: Result<bool, MatchError>)
        ensures
            outcome_view(r) == leaf_outcome(self@, json_model(*value)),
    {
        let found = match value_get(value, self.field.as_str()) {
            Some(found) => found,
            None => {
                return Err(MatchError::FieldNotFound { field: self.field.clone() });
            },
        };
        match self.operator {
            QueryFilterOperator::Equals => Ok(value_equal(found, &self.value)),
            QueryFilterOperator::NotEquals => Ok(!value_equal(found, &self.value)),
            QueryFilterOperator::LessThan => if value_is_number(found) && value_is_number(
                &self.value,
            ) {
                Ok(value_less(found, &self.value))
            } else {
                Err(self.mismatch(found))
            },
            QueryFilterOperator::GreaterThan => if value_is_number(found) && value_is_number(
                &self.value,
            ) {
                Ok(value_less(&self.value, found))
            } else {
                Err(self.mismatch(found))
            },
            QueryFilterOperator::In => match value_items(&self.value) {
                Some(items) => Ok(contains_value(items, found)),
                None => Err(self.mismatch(found)),
            },
            QueryFilterOperator::NotIn => match value_items(&self.value) {
                Some(items) => Ok(!contains_value(items, found)),
                None => Err(self.mismatch(found)),
            },
            _ => Err(MatchError::UnsupportedOperator { operator: self.operator }),
        }
    }
}

impl QueryFilterFilter {
    /// Tests one document against the leaf; the operation plays no part here.
    pub fn matches(&self, value: &Value) -> (r: Result<bool, MatchError>)
        ensures
            outcome_view(r) == item_outcome(self@, json_model(*value)),
    {
        self.filter.matches(value)
    }
}

impl QueryFilterCondition {
    /// Tests one document against the fold of the group's items.
    pub fn matches(&self, value: &Value) -> (r: Result<bool, MatchError>)
        ensures
            outcome_view(r) == item_outcome(self@, json_model(*value)),
        decreases self,
    {
        items_match(&self.filter, value)
    }
}

impl QueryFilterItem {
    /// Tests one document against this item.
    pub fn matches(&self, value: &Value) -> (r: Result<bool, MatchError>)
        ensures
            outcome_view(r) == item_outcome(self@, json_model(*value)),
        decreases self,
    {
        match self {
            QueryFilterItem::Filter(filter) => filter.matches(value),
            QueryFilterItem::Condition(condition) => {
                proof {
                    lemma_condition_view(*condition);
                }
                condition.matches(value)
            },
        }
    }
}

impl Query {
    /// Tests one document against the query's filter.
    pub fn matches(&self, value: &Value) -> (r: Result<bool, MatchError>)
        ensures
            outcome_view(r) == query_outcome(self@, json_model(*value)),
    {
        match &self.filter {
            Some(items) => items_match(items, value),
            None => Ok(true),
        }
    }
}

/// Folds a list of items over one document.
pub fn items_match(items: &Vec<QueryFilterItem>, value: &Value) -> (r: Result<bool, MatchError>)
    ensures
        outcome_view(r) == items_outcome(items_view(items@), json_model(*value)),
    decreases items,
{
    let ghost all = items_view(items@);
    let ghost doc = json_model(*value);
    let mut acc: bool = true;
    let mut i: usize = 0;
    while i < items.len()
        invariant
            i <= items.len(),
            all == items_view(items@),
            doc == json_model(*value),
            items_outcome(all.take(i as int), doc) == Ok::<bool, MatchFailure>(acc),
        decreases items.len() - i,
    {
        let item = &items[i];
        let ghost longer = all.take(i + 1);
        assert(longer.drop_last() =~= all.take(i as int));
        assert(longer.last() == item@);
        match item.matches(value) {
            Ok(b) => {
                acc = if i == 0 {
                    b
                } else {
                    match item.operation() {
                        QueryFilterOperation::Or => acc || b,
                        _ => acc && b,
                    }
                };
            },
            Err(e) => {
                proof {
                    lemma_failure_stays(all, i + 1, doc);
                }
                return Err(e);
            },
        }
        i += 1;
    }
    assert(all.take(i as int) =~= all);
    Ok(acc)
}

} // verus!
