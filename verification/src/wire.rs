//! The wire format: a query as a JSON value, and back.

use crate::json::{
    json_member, json_members, json_model, json_models, json_parse, json_text, parse_value,
    print_value, value_clone, value_equal, value_from_items, value_from_members,
    value_from_string, value_from_u64, value_get, value_is_object, value_items, value_null,
    value_str, value_u64, Json, JsonNumber,
};
use crate::query::{
    items_view, lemma_condition_view, option_view, sort_view, ItemView, LeafView, Query, QueryFilter,
    QueryFilterCondition, QueryFilterFilter, QueryFilterItem, QueryFilterOperation,
    QueryFilterOperator, QueryLimit, QuerySortDirection, QuerySortItem, QueryView, SortItemView,
};
use crate::text::str_equal;
use serde_json::Value;
use vstd::prelude::*;

verus! {

/// The tag of an operation.
pub open spec fn operation_tag(operation: QueryFilterOperation) -> Seq<char> {
    match operation {
        QueryFilterOperation::And => "and"@,
        QueryFilterOperation::Or => "or"@,
        QueryFilterOperation::Not => "not"@,
    }
}

/// The tag of an operator.
pub open spec fn operator_tag(operator: QueryFilterOperator) -> Seq<char> {
    match operator {
        QueryFilterOperator::Equals => "equals"@,
        QueryFilterOperator::NotEquals => "notEquals"@,
        QueryFilterOperator::GreaterThan => "greaterThan"@,
        QueryFilterOperator::GreaterThanOrEquals => "greaterThanOrEquals"@,
        QueryFilterOperator::LessThan => "lessThan"@,
        QueryFilterOperator::LessThanOrEquals => "lessThanOrEquals"@,
        QueryFilterOperator::Exists => "exists"@,
        QueryFilterOperator::NotExists => "notExists"@,
        QueryFilterOperator::In => "in"@,
        QueryFilterOperator::NotIn => "notIn"@,
    }
}

/// The tag of a sort direction.
pub open spec fn direction_tag(direction: QuerySortDirection) -> Seq<char> {
    match direction {
        QuerySortDirection::Ascending => "1"@,
        QuerySortDirection::Descending => "-1"@,
    }
}

/// An object with three members.
pub open spec fn object3(
    k1: Seq<char>,
    v1: Json,
    k2: Seq<char>,
    v2: Json,
    k3: Seq<char>,
    v3: Json,
) -> Json {
    Json::Object(Map::empty().insert(k1, v1).insert(k2, v2).insert(k3, v3))
}

/// An object with two members.
pub open spec fn object2(k1: Seq<char>, v1: Json, k2: Seq<char>, v2: Json) -> Json {
    Json::Object(Map::empty().insert(k1, v1).insert(k2, v2))
}

/// A leaf on the wire.
pub open spec fn encode_leaf(leaf: LeafView) -> Json {
    object3(
        "field"@,
        Json::String(leaf.field),
        "operator"@,
        Json::String(operator_tag(leaf.operator)),
        "value"@,
        leaf.value,
    )
}

/// An item on the wire: tagged `filter` with its leaf, or `condition` with
/// its list.
pub open spec fn encode_item(item: ItemView) -> Json
    decreases item,
{
    match item {
        ItemView::Filter { operation, leaf } => object3(
            "type"@,
            Json::String("filter"@),
            "operation"@,
            Json::String(operation_tag(operation)),
            "filter"@,
            encode_leaf(leaf),
        ),
        ItemView::Condition { operation, children } => object3(
            "type"@,
            Json::String("condition"@),
            "operation"@,
            Json::String(operation_tag(operation)),
            "filter"@,
            Json::Array(encode_items(children)),
        ),
    }
}

/// A list of items on the wire, item for item.
pub open spec fn encode_items(items: Seq<ItemView>) -> Seq<Json>
    decreases items,
{
    if items.len() == 0 {
        Seq::empty()
    } else {
        encode_items(items.drop_last()).push(encode_item(items.last()))
    }
}

/// A sort key on the wire.
pub open spec fn encode_sort_item(key: SortItemView) -> Json {
    object2("field"@, Json::String(key.field), "direction"@, Json::String(direction_tag(key.direction)))
}

/// A list of sort keys on the wire, key for key.
pub open spec fn encode_sort(keys: Seq<SortItemView>) -> Seq<Json>
    decreases keys.len(),
{
    if keys.len() == 0 {
        Seq::empty()
    } else {
        encode_sort(keys.drop_last()).push(encode_sort_item(keys.last()))
    }
}

/// A count on the wire; one that is not set is `null`.
pub open spec fn encode_count(n: Option<u32>) -> Json {
    match n {
        Some(n) => Json::Number(JsonNumber::PosInt(n as u64)),
        None => Json::Null,
    }
}

/// Pagination on the wire.
pub open spec fn encode_limit(limit: QueryLimit) -> Json {
    object2("limit"@, encode_count(limit.limit), "offset"@, encode_count(limit.offset))
}

/// A query on the wire. All three members are written; one that is not set
/// is `null`.
pub open spec fn encode_query(query: QueryView) -> Json {
    object3(
        "filter"@,
        match query.filter {
            Some(items) => Json::Array(encode_items(items)),
            None => Json::Null,
        },
        "sort"@,
        match query.sort {
            Some(keys) => Json::Array(encode_sort(keys)),
            None => Json::Null,
        },
        "limit"@,
        match query.limit {
            Some(limit) => encode_limit(limit),
            None => Json::Null,
        },
    )
}

/// The operation that a tag names.
pub open spec fn decode_operation(j: Json) -> Option<QueryFilterOperation> {
    match j {
        Json::String(s) => if s == "and"@ {
            Some(QueryFilterOperation::And)
        } else if s == "or"@ {
            Some(QueryFilterOperation::Or)
        } else if s == "not"@ {
            Some(QueryFilterOperation::Not)
        } else {
            None
        },
        _ => None,
    }
}

/// The operator that a tag names.
pub open spec fn decode_operator(j: Json) -> Option<QueryFilterOperator> {
    match j {
        Json::String(s) => if s == "equals"@ {
            Some(QueryFilterOperator::Equals)
        } else if s == "notEquals"@ {
            Some(QueryFilterOperator::NotEquals)
        } else if s == "greaterThan"@ {
            Some(QueryFilterOperator::GreaterThan)
        } else if s == "greaterThanOrEquals"@ {
            Some(QueryFilterOperator::GreaterThanOrEquals)
        } else if s == "lessThan"@ {
            Some(QueryFilterOperator::LessThan)
        } else if s == "lessThanOrEquals"@ {
            Some(QueryFilterOperator::LessThanOrEquals)
        } else if s == "exists"@ {
            Some(QueryFilterOperator::Exists)
        } else if s == "notExists"@ {
            Some(QueryFilterOperator::NotExists)
        } else if s == "in"@ {
            Some(QueryFilterOperator::In)
        } else if s == "notIn"@ {
            Some(QueryFilterOperator::NotIn)
        } else {
            None
        },
        _ => None,
    }
}

/// The direction that a tag names.
pub open spec fn decode_direction(j: Json) -> Option<QuerySortDirection> {
    match j {
        Json::String(s) => if s == "1"@ {
            Some(QuerySortDirection::Ascending)
        } else if s == "-1"@ {
            Some(QuerySortDirection::Descending)
        } else {
            None
        },
        _ => None,
    }
}

/// The leaf that a value describes: an object with a string `field`, an
/// operator tag `operator` and any `value`.
pub open spec fn decode_leaf(j: Json) -> Option<LeafView> {
    match (json_member(j, "field"@), json_member(j, "operator"@), json_member(j, "value"@)) {
        (Some(Json::String(field)), Some(tag), Some(value)) => match decode_operator(tag) {
            Some(operator) => Some(LeafView { field, operator, value }),
            None => None,
        },
        _ => None,
    }
}

/// The item that a value describes: an object whose `type` says whether its
/// `filter` is a leaf or a list.
pub open spec fn decode_item(j: Json) -> Option<ItemView>
    decreases j,
{
    match j {
        Json::Object(members) => if members.contains_key("type"@) && members.contains_key(
            "operation"@,
        ) && members.contains_key("filter"@) {
            match decode_operation(members["operation"@]) {
                Some(operation) => if members["type"@] == Json::String("filter"@) {
                    match decode_leaf(members["filter"@]) {
                        Some(leaf) => Some(ItemView::Filter { operation, leaf }),
                        None => None,
                    }
                } else if members["type"@] == Json::String("condition"@) {
                    match members["filter"@] {
                        Json::Array(list) => match decode_items(list) {
                            Some(children) => Some(ItemView::Condition { operation, children }),
                            None => None,
                        },
                        _ => None,
                    }
                } else {
                    None
                },
                None => None,
            }
        } else {
            None
        },
        _ => None,
    }
}

/// The items that a list of values describes, if each describes one.
pub open spec fn decode_items(list: Seq<Json>) -> Option<Seq<ItemView>>
    decreases list,
{
    if list.len() == 0 {
        Some(Seq::empty())
    } else {
        match (decode_items(list.drop_last()), decode_item(list.last())) {
            (Some(items), Some(item)) => Some(items.push(item)),
            _ => None,
        }
    }
}

/// The sort key that a value describes: an object with a string `field`
/// and a direction tag `direction`.
pub open spec fn decode_sort_item(j: Json) -> Option<SortItemView> {
    match (json_member(j, "field"@), json_member(j, "direction"@)) {
        (Some(Json::String(field)), Some(tag)) => match decode_direction(tag) {
            Some(direction) => Some(SortItemView { field, direction }),
            None => None,
        },
        _ => None,
    }
}

/// The sort keys that a list of values describes, if each describes one.
pub open spec fn decode_sort(list: Seq<Json>) -> Option<Seq<SortItemView>>
    decreases list.len(),
{
    if list.len() == 0 {
        Some(Seq::empty())
    } else {
        match (decode_sort(list.drop_last()), decode_sort_item(list.last())) {
            (Some(keys), Some(key)) => Some(keys.push(key)),
            _ => None,
        }
    }
}

/// A member that may be left out: `null` under the key counts as no member.
pub open spec fn optional_member(j: Json, key: Seq<char>) -> Option<Json> {
    match json_member(j, key) {
        Some(Json::Null) => None,
        other => other,
    }
}

/// The count that an optional member gives: not set where the member is
/// missing, else an integer that fits 32 bits.
pub open spec fn decode_count(member: Option<Json>) -> Option<Option<u32>> {
    match member {
        None => Some(None),
        Some(Json::Number(JsonNumber::PosInt(n))) => if n <= u32::MAX {
            Some(Some(n as u32))
        } else {
            None
        },
        Some(_) => None,
    }
}

/// The pagination that a value describes: an object with optional counts
/// `limit` and `offset`.
pub open spec fn decode_limit(j: Json) -> Option<QueryLimit> {
    if j is Object {
        match (
            decode_count(optional_member(j, "limit"@)),
            decode_count(optional_member(j, "offset"@)),
        ) {
            (Some(limit), Some(offset)) => Some(QueryLimit { limit, offset }),
            _ => None,
        }
    } else {
        None
    }
}

/// The filter list that an optional member gives.
pub open spec fn decode_filter_member(member: Option<Json>) -> Option<Option<Seq<ItemView>>> {
    match member {
        None => Some(None),
        Some(Json::Array(list)) => match decode_items(list) {
            Some(items) => Some(Some(items)),
            None => None,
        },
        Some(_) => None,
    }
}

/// The sort keys that an optional member gives.
pub open spec fn decode_sort_member(member: Option<Json>) -> Option<Option<Seq<SortItemView>>> {
    match member {
        None => Some(None),
        Some(Json::Array(list)) => match decode_sort(list) {
            Some(keys) => Some(Some(keys)),
            None => None,
        },
        Some(_) => None,
    }
}

/// The pagination that an optional member gives.
pub open spec fn decode_limit_member(member: Option<Json>) -> Option<Option<QueryLimit>> {
    match member {
        None => Some(None),
        Some(j) => match decode_limit(j) {
            Some(limit) => Some(Some(limit)),
            None => None,
        },
    }
}

/// The query that a value describes: an object whose members `filter`,
/// `sort` and `limit` may each be left out or `null`. Members under other
/// keys are passed over. `None` where the value breaks the schema.
pub open spec fn decode_query(j: Json) -> Option<QueryView> {
    if j is Object {
        match (
            decode_filter_member(optional_member(j, "filter"@)),
            decode_sort_member(optional_member(j, "sort"@)),
            decode_limit_member(optional_member(j, "limit"@)),
        ) {
            (Some(filter), Some(sort), Some(limit)) => Some(QueryView { filter, sort, limit }),
            _ => None,
        }
    } else {
        None
    }
}

/// The tags of the operations name them back.
pub proof fn lemma_operation_tag(operation: QueryFilterOperation)
    ensures
        decode_operation(Json::String(operation_tag(operation))) == Some(operation),
{
    reveal_strlit("and");
    reveal_strlit("or");
    reveal_strlit("not");
    assert("and"@.len() == 3 && "or"@.len() == 2 && "not"@.len() == 3);
    assert("and"@[0] == 'a' && "not"@[0] == 'n');
}

/// The tags of the operators name them back.
pub proof fn lemma_operator_tag(operator: QueryFilterOperator)
    ensures
        decode_operator(Json::String(operator_tag(operator))) == Some(operator),
{
    reveal_strlit("equals");
    reveal_strlit("notEquals");
    reveal_strlit("greaterThan");
    reveal_strlit("greaterThanOrEquals");
    reveal_strlit("lessThan");
    reveal_strlit("lessThanOrEquals");
    reveal_strlit("exists");
    reveal_strlit("notExists");
    reveal_strlit("in");
    reveal_strlit("notIn");
    assert("equals"@.len() == 6 && "exists"@.len() == 6);
    assert("equals"@[1] == 'q' && "exists"@[1] == 'x');
    assert("notEquals"@.len() == 9 && "notExists"@.len() == 9);
    assert("notEquals"@[4] == 'q' && "notExists"@[4] == 'x');
    assert("greaterThan"@.len() == 11 && "greaterThanOrEquals"@.len() == 19);
    assert("lessThan"@.len() == 8 && "lessThanOrEquals"@.len() == 16);
    assert("in"@.len() == 2 && "notIn"@.len() == 5);
}

/// The tags of the directions name them back.
pub proof fn lemma_direction_tag(direction: QuerySortDirection)
    ensures
        decode_direction(Json::String(direction_tag(direction))) == Some(direction),
{
    reveal_strlit("1");
    reveal_strlit("-1");
    assert("1"@.len() == 1 && "-1"@.len() == 2);
}

/// The member keys of the wire format are six different texts.
pub proof fn lemma_keys_differ()
    ensures
        "field"@ != "operator"@,
        "field"@ != "value"@,
        "operator"@ != "value"@,
        "type"@ != "operation"@,
        "type"@ != "filter"@,
        "operation"@ != "filter"@,
        "field"@ != "direction"@,
        "limit"@ != "offset"@,
        "filter"@ != "sort"@,
        "filter"@ != "limit"@,
        "sort"@ != "limit"@,
        "filter"@ != "condition"@,
{
    reveal_strlit("field");
    reveal_strlit("operator");
    reveal_strlit("value");
    reveal_strlit("type");
    reveal_strlit("operation");
    reveal_strlit("filter");
    reveal_strlit("direction");
    reveal_strlit("limit");
    reveal_strlit("offset");
    reveal_strlit("sort");
    reveal_strlit("condition");
    assert("field"@.len() == 5 && "operator"@.len() == 8 && "value"@.len() == 5);
    assert("field"@[0] == 'f' && "value"@[0] == 'v');
    assert("type"@.len() == 4 && "operation"@.len() == 9 && "filter"@.len() == 6);
    assert("direction"@.len() == 9 && "condition"@.len() == 9);
    assert("limit"@.len() == 5 && "offset"@.len() == 6 && "sort"@.len() == 4);
}

/// Reading back what was written for a leaf gives the leaf.
pub proof fn lemma_leaf_round_trip(leaf: LeafView)
    ensures
        decode_leaf(encode_leaf(leaf)) == Some(leaf),
{
    lemma_keys_differ();
    lemma_operator_tag(leaf.operator);
}

/// Reading back what was written for an item gives the item.
pub proof fn lemma_item_round_trip(item: ItemView)
    ensures
        decode_item(encode_item(item)) == Some(item),
    decreases item,
{
    lemma_keys_differ();
    lemma_operation_tag(item.operation());
    match item {
        ItemView::Filter { operation, leaf } => {
            lemma_leaf_round_trip(leaf);
        },
        ItemView::Condition { operation, children } => {
            lemma_items_round_trip(children);
        },
    }
}

/// Reading back what was written for a list of items gives the list.
pub proof fn lemma_items_round_trip(items: Seq<ItemView>)
    ensures
        decode_items(encode_items(items)) == Some(items),
    decreases items,
{
    if items.len() == 0 {
        assert(items =~= Seq::empty());
    } else {
        lemma_items_round_trip(items.drop_last());
        lemma_item_round_trip(items.last());
        let written = encode_items(items);
        assert(written.drop_last() =~= encode_items(items.drop_last()));
        assert(written.last() == encode_item(items.last()));
        assert(items.drop_last().push(items.last()) =~= items);
    }
}

/// Reading back what was written for a list of sort keys gives the list.
pub proof fn lemma_sort_round_trip(keys: Seq<SortItemView>)
    ensures
        decode_sort(encode_sort(keys)) == Some(keys),
    decreases keys.len(),
{
    lemma_keys_differ();
    if keys.len() == 0 {
        assert(keys =~= Seq::empty());
    } else {
        lemma_sort_round_trip(keys.drop_last());
        lemma_direction_tag(keys.last().direction);
        let written = encode_sort(keys);
        assert(written.drop_last() =~= encode_sort(keys.drop_last()));
        assert(written.last() == encode_sort_item(keys.last()));
        assert(decode_sort_item(written.last()) == Some(keys.last()));
        assert(keys.drop_last().push(keys.last()) =~= keys);
    }
}

/// Reading back what was written for a query gives the query: the wire
/// format loses nothing.
pub proof fn lemma_query_round_trip(query: QueryView)
    ensures
        decode_query(encode_query(query)) == Some(query),
{
    lemma_keys_differ();
    match query.filter {
        Some(items) => lemma_items_round_trip(items),
        None => {},
    }
    match query.sort {
        Some(keys) => lemma_sort_round_trip(keys),
        None => {},
    }
    match query.limit {
        Some(limit) => {
            assert(decode_limit(encode_limit(limit)) == Some(limit));
        },
        None => {},
    }
}

/// Builds an object with two members.
fn object2_value(k1: &str, v1: Value, k2: &str, v2: Value) -> (r: Value)
    ensures
        json_model(r) == object2(k1@, json_model(v1), k2@, json_model(v2)),
{
    let mut members: Vec<(String, Value)> = Vec::new();
    members.push((k1.to_owned(), v1));
    members.push((k2.to_owned(), v2));
    proof {
        reveal_with_fuel(json_members, 3);
        assert(members@.drop_last().drop_last() =~= Seq::empty());
    }
    value_from_members(members)
}

/// Builds an object with three members.
fn object3_value(k1: &str, v1: Value, k2: &str, v2: Value, k3: &str, v3: Value) -> (r: Value)
    ensures
        json_model(r) == object3(k1@, json_model(v1), k2@, json_model(v2), k3@, json_model(v3)),
{
    let mut members: Vec<(String, Value)> = Vec::new();
    members.push((k1.to_owned(), v1));
    members.push((k2.to_owned(), v2));
    members.push((k3.to_owned(), v3));
    proof {
        reveal_with_fuel(json_members, 4);
        assert(members@.drop_last().drop_last().drop_last() =~= Seq::empty());
    }
    value_from_members(members)
}

impl QueryFilterOperation {
    /// The tag of this operation on the wire.
    pub fn tag(&self) -> (r: &'static str)
        ensures
            r@ == operation_tag(*self),
    {
        match self {
            QueryFilterOperation::And => "and",
            QueryFilterOperation::Or => "or",
            QueryFilterOperation::Not => "not",
        }
    }

    /// The operation that a tag names, if it names one.
    pub fn from_tag(tag: &str) -> (r: Option<QueryFilterOperation>)
        ensures
            r == decode_operation(Json::String(tag@)),
    {
        if str_equal(tag, "and") {
            Some(QueryFilterOperation::And)
        } else if str_equal(tag, "or") {
            Some(QueryFilterOperation::Or)
        } else if str_equal(tag, "not") {
            Some(QueryFilterOperation::Not)
        } else {
            None
        }
    }
}

impl QueryFilterOperator {
    /// The tag of this operator on the wire.
    pub fn tag(&self) -> (r: &'static str)
        ensures
            r@ == operator_tag(*self),
    {
        match self {
            QueryFilterOperator::Equals => "equals",
            QueryFilterOperator::NotEquals => "notEquals",
            QueryFilterOperator::GreaterThan => "greaterThan",
            QueryFilterOperator::GreaterThanOrEquals => "greaterThanOrEquals",
            QueryFilterOperator::LessThan => "lessThan",
            QueryFilterOperator::LessThanOrEquals => "lessThanOrEquals",
            QueryFilterOperator::Exists => "exists",
            QueryFilterOperator::NotExists => "notExists",
            QueryFilterOperator::In => "in",
            QueryFilterOperator::NotIn => "notIn",
        }
    }

    /// The operator that a tag names, if it names one.
    pub fn from_tag(tag: &str) -> (r: Option<QueryFilterOperator>)
        ensures
            r == decode_operator(Json::String(tag@)),
    {
        if str_equal(tag, "equals") {
            Some(QueryFilterOperator::Equals)
        } else if str_equal(tag, "notEquals") {
            Some(QueryFilterOperator::NotEquals)
        } else if str_equal(tag, "greaterThan") {
            Some(QueryFilterOperator::GreaterThan)
        } else if str_equal(tag, "greaterThanOrEquals") {
            Some(QueryFilterOperator::GreaterThanOrEquals)
        } else if str_equal(tag, "lessThan") {
            Some(QueryFilterOperator::LessThan)
        } else if str_equal(tag, "lessThanOrEquals") {
            Some(QueryFilterOperator::LessThanOrEquals)
        } else if str_equal(tag, "exists") {
            Some(QueryFilterOperator::Exists)
        } else if str_equal(tag, "notExists") {
            Some(QueryFilterOperator::NotExists)
        } else if str_equal(tag, "in") {
            Some(QueryFilterOperator::In)
        } else if str_equal(tag, "notIn") {
            Some(QueryFilterOperator::NotIn)
        } else {
            None
        }
    }
}

impl QuerySortDirection {
    /// The tag of this direction on the wire.
    pub fn tag(&self) -> (r: &'static str)
        ensures
            r@ == direction_tag(*self),
    {
        match self {
            QuerySortDirection::Ascending => "1",
            QuerySortDirection::Descending => "-1",
        }
    }

    /// The direction that a tag names, if it names one.
    pub fn from_tag(tag: &str) -> (r: Option<QuerySortDirection>)
        ensures
            r == decode_direction(Json::String(tag@)),
    {
        if str_equal(tag, "1") {
            Some(QuerySortDirection::Ascending)
        } else if str_equal(tag, "-1") {
            Some(QuerySortDirection::Descending)
        } else {
            None
        }
    }
}

impl QueryFilter {
    /// This leaf as a JSON value.
    pub fn to_value(&self) -> (r: Value)
        ensures
            json_model(r) == encode_leaf(self@),
    {
        object3_value(
            "field",
            value_from_string(self.field.clone()),
            "operator",
            value_from_string(self.operator.tag().to_owned()),
            "value",
            value_clone(&self.value),
        )
    }

    /// The leaf that a JSON value describes, if it describes one.
    pub fn from_value(v: &Value) -> (r: Option<QueryFilter>)
        ensures
            decode_leaf(json_model(*v)) == match r {
                Some(leaf) => Some(leaf@),
                None => None,
            },
    {
        let field = match value_get(v, "field") {
            Some(field) => field,
            None => {
                return None;
            },
        };
        let tag = match value_get(v, "operator") {
            Some(tag) => tag,
            None => {
                return None;
            },
        };
        let value = match value_get(v, "value") {
            Some(value) => value,
            None => {
                return None;
            },
        };
        let field = match value_str(field) {
            Some(field) => field,
            None => {
                return None;
            },
        };
        let operator = match value_str(tag) {
            Some(tag) => match QueryFilterOperator::from_tag(tag) {
                Some(operator) => operator,
                None => {
                    return None;
                },
            },
            None => {
                return None;
            },
        };
        Some(QueryFilter { field: field.to_owned(), operator, value: value_clone(value) })
    }
}

impl QueryFilterItem {
    /// This item as a JSON value.
    pub fn to_value(&self) -> (r: Value)
        ensures
            json_model(r) == encode_item(self@),
        decreases self,
    {
        match self {
            QueryFilterItem::Filter(f) => object3_value(
                "type",
                value_from_string("filter".to_owned()),
                "operation",
                value_from_string(f.operation.tag().to_owned()),
                "filter",
                f.filter.to_value(),
            ),
            QueryFilterItem::Condition(c) => {
                proof {
                    lemma_condition_view(*c);
                }
                object3_value(
                    "type",
                    value_from_string("condition".to_owned()),
                    "operation",
                    value_from_string(c.operation.tag().to_owned()),
                    "filter",
                    items_to_value(&c.filter),
                )
            },
        }
    }

    /// The item that a JSON value describes, if it describes one.
    pub fn from_value(v: &Value) -> (r: Option<QueryFilterItem>)
        ensures
            decode_item(json_model(*v)) == match r {
                Some(item) => Some(item@),
                None => None,
            },
        decreases json_model(*v),
    {
        let kind = match value_get(v, "type") {
            Some(kind) => kind,
            None => {
                return None;
            },
        };
        let tag = match value_get(v, "operation") {
            Some(tag) => tag,
            None => {
                return None;
            },
        };
        let body = match value_get(v, "filter") {
            Some(body) => body,
            None => {
                return None;
            },
        };
        let operation = match value_str(tag) {
            Some(tag) => match QueryFilterOperation::from_tag(tag) {
                Some(operation) => operation,
                None => {
                    return None;
                },
            },
            None => {
                return None;
            },
        };
        let kind = match value_str(kind) {
            Some(kind) => kind,
            None => {
                return None;
            },
        };
        if str_equal(kind, "filter") {
            match QueryFilter::from_value(body) {
                Some(filter) => Some(
                    QueryFilterItem::Filter(QueryFilterFilter { operation, filter }),
                ),
                None => None,
            }
        } else if str_equal(kind, "condition") {
            match value_items(body) {
                Some(list) => match items_from_values(list) {
                    Some(filter) => {
                        let condition = QueryFilterCondition { operation, filter };
                        proof {
                            lemma_condition_view(condition);
                        }
                        Some(QueryFilterItem::Condition(condition))
                    },
                    None => None,
                },
                None => None,
            }
        } else {
            None
        }
    }
}

/// A list of items as a JSON array.
pub fn items_to_value(items: &Vec<QueryFilterItem>) -> (r: Value)
    ensures
        json_model(r) == Json::Array(encode_items(items_view(items@))),
    decreases items,
{
    let ghost all = items_view(items@);
    let mut written: Vec<Value> = Vec::new();
    let mut i: usize = 0;
    while i < items.len()
        invariant
            i <= items.len(),
            all == items_view(items@),
            json_models(written@) =~= encode_items(all.take(i as int)),
        decreases items.len() - i,
    {
        let one = items[i].to_value();
        assert(all.take(i + 1).drop_last() =~= all.take(i as int));
        written.push(one);
        i += 1;
    }
    assert(all.take(i as int) =~= all);
    value_from_items(written)
}

/// Once a prefix of a list fails to describe items, so does the whole list.
pub proof fn lemma_decode_items_fails(list: Seq<Json>, k: int)
    requires
        0 <= k <= list.len(),
        decode_items(list.take(k)) is None,
    ensures
        decode_items(list) is None,
    decreases list.len() - k,
{
    if k == list.len() {
        assert(list.take(k) =~= list);
    } else {
        assert(list.take(k + 1).drop_last() =~= list.take(k));
        lemma_decode_items_fails(list, k + 1);
    }
}

/// The items that a list of JSON values describes, if each describes one.
pub fn items_from_values(list: &Vec<Value>) -> (r: Option<Vec<QueryFilterItem>>)
    ensures
        decode_items(json_models(list@)) == match r {
            Some(items) => Some(items_view(items@)),
            None => None,
        },
    decreases json_models(list@),
{
    let ghost all = json_models(list@);
    let mut items: Vec<QueryFilterItem> = Vec::new();
    let mut i: usize = 0;
    assert(items_view(items@) =~= Seq::empty());
    while i < list.len()
        invariant
            i <= list.len(),
            all == json_models(list@),
            decode_items(all.take(i as int)) == Some(items_view(items@)),
        decreases list.len() - i,
    {
        assert(all.take(i + 1).drop_last() =~= all.take(i as int));
        assert(all.take(i + 1).last() == json_model(list@[i as int]));
        match QueryFilterItem::from_value(&list[i]) {
            Some(item) => {
                let ghost before = items_view(items@);
                items.push(item);
                assert(items_view(items@) =~= before.push(item@));
            },
            None => {
                proof {
                    lemma_decode_items_fails(all, i + 1);
                }
                return None;
            },
        }
        i += 1;
    }
    assert(all.take(i as int) =~= all);
    Some(items)
}

impl QuerySortItem {
    /// This sort key as a JSON value.
    pub fn to_value(&self) -> (r: Value)
        ensures
            json_model(r) == encode_sort_item(self@),
    {
        object2_value(
            "field",
            value_from_string(self.field.clone()),
            "direction",
            value_from_string(self.direction.tag().to_owned()),
        )
    }

    /// The sort key that a JSON value describes, if it describes one.
    pub fn from_value(v: &Value) -> (r: Option<QuerySortItem>)
        ensures
            decode_sort_item(json_model(*v)) == match r {
                Some(key) => Some(key@),
                None => None,
            },
    {
        let field = match value_get(v, "field") {
            Some(field) => field,
            None => {
                return None;
            },
        };
        let tag = match value_get(v, "direction") {
            Some(tag) => tag,
            None => {
                return None;
            },
        };
        let field = match value_str(field) {
            Some(field) => field,
            None => {
                return None;
            },
        };
        let direction = match value_str(tag) {
            Some(tag) => match QuerySortDirection::from_tag(tag) {
                Some(direction) => direction,
                None => {
                    return None;
                },
            },
            None => {
                return None;
            },
        };
        Some(QuerySortItem { field: field.to_owned(), direction })
    }
}

/// A list of sort keys as a JSON array.
pub fn sort_to_value(keys: &Vec<QuerySortItem>) -> (r: Value)
    ensures
        json_model(r) == Json::Array(encode_sort(sort_view(keys@))),
{
    let ghost all = sort_view(keys@);
    let mut written: Vec<Value> = Vec::new();
    let mut i: usize = 0;
    while i < keys.len()
        invariant
            i <= keys.len(),
            all == sort_view(keys@),
            json_models(written@) =~= encode_sort(all.take(i as int)),
        decreases keys.len() - i,
    {
        let one = keys[i].to_value();
        assert(all.take(i + 1).drop_last() =~= all.take(i as int));
        written.push(one);
        i += 1;
    }
    assert(all.take(i as int) =~= all);
    value_from_items(written)
}

/// Once a prefix of a list fails to describe sort keys, so does the whole list.
pub proof fn lemma_decode_sort_fails(list: Seq<Json>, k: int)
    requires
        0 <= k <= list.len(),
        decode_sort(list.take(k)) is None,
    ensures
        decode_sort(list) is None,
    decreases list.len() - k,
{
    if k == list.len() {
        assert(list.take(k) =~= list);
    } else {
        assert(list.take(k + 1).drop_last() =~= list.take(k));
        lemma_decode_sort_fails(list, k + 1);
    }
}

/// The sort keys that a list of JSON values describes, if each describes one.
pub fn sort_from_values(list: &Vec<Value>) -> (r: Option<Vec<QuerySortItem>>)
    ensures
        decode_sort(json_models(list@)) == match r {
            Some(keys) => Some(sort_view(keys@)),
            None => None,
        },
{
    let ghost all = json_models(list@);
    let mut keys: Vec<QuerySortItem> = Vec::new();
    let mut i: usize = 0;
    assert(sort_view(keys@) =~= Seq::empty());
    while i < list.len()
        invariant
            i <= list.len(),
            all == json_models(list@),
            decode_sort(all.take(i as int)) == Some(sort_view(keys@)),
        decreases list.len() - i,
    {
        assert(all.take(i + 1).drop_last() =~= all.take(i as int));
        assert(all.take(i + 1).last() == json_model(list@[i as int]));
        match QuerySortItem::from_value(&list[i]) {
            Some(key) => {
                let ghost before = sort_view(keys@);
                keys.push(key);
                assert(sort_view(keys@) =~= before.push(key@));
            },
            None => {
                proof {
                    lemma_decode_sort_fails(all, i + 1);
                }
                return None;
            },
        }
        i += 1;
    }
    assert(all.take(i as int) =~= all);
    Some(keys)
}

/// A member that may be left out, with `null` taken as no member.
fn optional_member_value<'a>(v: &'a Value, key: &str) -> (r: Option<&'a Value>)
    ensures
        optional_member(json_model(*v), key@) == match r {
            Some(member) => Some(json_model(*member)),
            None => None,
        },
{
    match value_get(v, key) {
        Some(member) => {
            let null = value_null();
            if value_equal(member, &null) {
                None
            } else {
                Some(member)
            }
        },
        None => None,
    }
}

/// A count as a JSON value.
fn count_to_value(n: Option<u32>) -> (r: Value)
    ensures
        json_model(r) == encode_count(n),
{
    match n {
        Some(n) => value_from_u64(n as u64),
        None => value_null(),
    }
}

/// The count that an optional member gives.
fn count_from_value(member: Option<&Value>) -> (r: Option<Option<u32>>)
    ensures
        r == decode_count(
            match member {
                Some(v) => Some(json_model(*v)),
                None => None,
            },
        ),
{
    match member {
        None => Some(None),
        Some(v) => match value_u64(v) {
            Some(n) => if n <= 0xffff_ffff {
                Some(Some(n as u32))
            } else {
                None
            },
            None => None,
        },
    }
}

impl QueryLimit {
    /// This pagination as a JSON value.
    pub fn to_value(&self) -> (r: Value)
        ensures
            json_model(r) == encode_limit(*self),
    {
        object2_value("limit", count_to_value(self.limit), "offset", count_to_value(self.offset))
    }

    /// The pagination that a JSON value describes, if it describes one.
    pub fn from_value(v: &Value) -> (r: Option<QueryLimit>)
        ensures
            r == decode_limit(json_model(*v)),
    {
        if !value_is_object(v) {
            return None;
        }
        let limit = match count_from_value(optional_member_value(v, "limit")) {
            Some(limit) => limit,
            None => {
                return None;
            },
        };
        let offset = match count_from_value(optional_member_value(v, "offset")) {
            Some(offset) => offset,
            None => {
                return None;
            },
        };
        Some(QueryLimit { limit, offset })
    }
}

/// A text that does not describe a query: it is no JSON, or its JSON breaks
/// the schema. Holds the text that was given.
#[derive(Debug, PartialEq, Eq)]
pub struct MalformedQuery {
    pub text: String,
}

impl MalformedQuery {
    /// This error in words.
    pub fn message(&self) -> (r: String)
        ensures
            r@ == "malformed query: "@ + self.text@,
    {
        let mut text = String::from_str("malformed query: ");
        text.append(self.text.as_str());
        text
    }
}

impl Query {
    /// This query as a JSON value.
    pub fn to_value(&self) -> (r: Value)
        ensures
            json_model(r) == encode_query(self@),
    {
        let filter = match &self.filter {
            Some(items) => items_to_value(items),
            None => value_null(),
        };
        let sort = match &self.sort {
            Some(keys) => sort_to_value(keys),
            None => value_null(),
        };
        let limit = match &self.limit {
            Some(limit) => limit.to_value(),
            None => value_null(),
        };
        object3_value("filter", filter, "sort", sort, "limit", limit)
    }

    /// The query that a JSON value describes, or `None` where the value
    /// breaks the schema.
    pub fn from_value(v: &Value) -> (r: Option<Query>)
        ensures
            option_view(r) == decode_query(json_model(*v)),
    {
        if !value_is_object(v) {
            return None;
        }
        let filter = match optional_member_value(v, "filter") {
            None => None,
            Some(member) => match value_items(member) {
                Some(list) => match items_from_values(list) {
                    Some(items) => Some(items),
                    None => {
                        return None;
                    },
                },
                None => {
                    return None;
                },
            },
        };
        let sort = match optional_member_value(v, "sort") {
            None => None,
            Some(member) => match value_items(member) {
                Some(list) => match sort_from_values(list) {
                    Some(keys) => Some(keys),
                    None => {
                        return None;
                    },
                },
                None => {
                    return None;
                },
            },
        };
        let limit = match optional_member_value(v, "limit") {
            None => None,
            Some(member) => match QueryLimit::from_value(member) {
                Some(limit) => Some(limit),
                None => {
                    return None;
                },
            },
        };
        Some(Query { filter, sort, limit })
    }

    /// Reads a query from JSON text. Fails, with the text, where
    /// `serde_json` rejects the text or the value it reads breaks the schema.
    pub fn from_json(json: &str) -> (r: Result<Query, MalformedQuery>)
        ensures
            match r {
                Ok(query) => json_parse(json@) is Some && decode_query(json_parse(json@)->0)
                    == Some(query@),
                Err(e) => e.text@ == json@ && (json_parse(json@) is None || decode_query(
                    json_parse(json@)->0,
                ) is None),
            },
    {
        let parsed = match parse_value(json) {
            Ok(value) => Query::from_value(&value),
            Err(_) => None,
        };
        match parsed {
            Some(query) => Ok(query),
            None => Err(MalformedQuery { text: json.to_owned() }),
        }
    }

    /// Writes this query as JSON text: the text that `serde_json` writes for
    /// a value that holds this query's wire form. Every query has one.
    pub fn to_json(&self) -> (r: Option<String>)
        ensures
            r is Some,
            r matches Some(text) ==> exists|v: Value|
                json_model(v) == encode_query(self@) && text@ == #[trigger] json_text(v),
    {
        let value = self.to_value();
        match print_value(&value) {
            Ok(text) => Some(text),
            Err(_) => None,
        }
    }
}

} // verus!
