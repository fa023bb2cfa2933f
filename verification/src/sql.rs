//! The SQL compiler: lowers a query to a `SELECT` over a JSON column named
//! `data`, with one positional parameter per leaf.
//!
//! Items are rendered in list order and joined by each later item's own
//! operation; a group is rendered in parentheses. A list can be compiled with
//! the bare placeholder `?` at every leaf, as [`items_to_sql`] does, and
//! [`enumerate_placeholders`] turns the placeholders of such a text into `$1`,
//! `$2`, and so on. [`to_sql`] writes the numbered marker at each leaf as it
//! compiles it, so that a `?` in a field name is never taken for a
//! placeholder; where no field name holds one, the two ways give the same
//! text. A query without filter items holds of every row and gets no `WHERE`
//! clause. The table name is written into the text as it is: callers pass
//! only names that their own code has fixed.

use crate::json::{json_model, json_models, value_clone, Json};
use crate::query::{
    items_view, lemma_condition_view, option_view, ItemView, LeafView, Query,
    QueryFilterCondition, QueryFilterFilter, QueryFilterItem, QueryFilterOperation,
    QueryFilterOperator, QueryLimit, QueryView,
};
use crate::text::{decimal, push_decimal};
use serde_json::Value;
use vstd::prelude::*;
use vstd::std_specs::iter::IteratorSpec;

verus! {

broadcast use vstd::string::group_string_axioms;

/// Why a query could not be compiled.
#[derive(Clone, Copy, Debug, PartialEq, Eq, Structural)]
pub enum CompileError {
    /// The compiler has no SQL token for the operator.
    UnsupportedOperator { operator: QueryFilterOperator },
}

impl CompileError {
    /// This error in words.
    pub fn message(&self) -> (r: String)
        ensures
            r@ == "operator "@ + crate::wire::operator_tag(self->operator) + " has no SQL form"@,
    {
        match self {
            CompileError::UnsupportedOperator { operator } => {
                let mut text = String::from_str("operator ");
                text.append(operator.tag());
                text.append(" has no SQL form");
                text
            },
        }
    }
}

/// The SQL keyword of an operation.
pub open spec fn operation_sql(operation: QueryFilterOperation) -> Seq<char> {
    match operation {
        QueryFilterOperation::And => "AND"@,
        QueryFilterOperation::Or => "OR"@,
        QueryFilterOperation::Not => "NOT"@,
    }
}

/// The SQL token of an operator, for the operators that have one.
pub open spec fn operator_sql(operator: QueryFilterOperator) -> Option<Seq<char>> {
    match operator {
        QueryFilterOperator::Equals => Some("="@),
        QueryFilterOperator::NotEquals => Some("<>"@),
        QueryFilterOperator::GreaterThan => Some(">"@),
        _ => None,
    }
}

/// The SQL token of a leaf's operator; empty where it has none.
pub open spec fn leaf_token(leaf: LeafView) -> Seq<char> {
    match operator_sql(leaf.operator) {
        Some(token) => token,
        None => Seq::empty(),
    }
}

/// The text of a leaf: the field taken out of `data`, the token, a placeholder.
pub open spec fn leaf_sql(leaf: LeafView) -> Seq<char> {
    "data->'"@ + leaf.field + "' "@ + leaf_token(leaf) + " ?"@
}

/// The positional marker with a given number.
pub open spec fn marker(n: nat) -> Seq<char> {
    seq!['$'] + decimal(n)
}

/// The text of a leaf with the marker of a given number in place of `?`.
pub open spec fn leaf_numbered(leaf: LeafView, n: nat) -> Seq<char> {
    "data->'"@ + leaf.field + "' "@ + leaf_token(leaf) + " "@ + marker(n)
}

/// The text of an item whose leaves carry the markers from `n` upwards.
pub open spec fn item_numbered(item: ItemView, n: nat) -> Seq<char>
    decreases item,
{
    match item {
        ItemView::Filter { leaf, .. } => leaf_numbered(leaf, n),
        ItemView::Condition { children, .. } => "("@ + items_numbered(children, n) + ")"@,
    }
}

/// The text of a list whose leaves carry the markers from `n` upwards, in
/// list order: each item starts where the leaves before it end.
pub open spec fn items_numbered(items: Seq<ItemView>, n: nat) -> Seq<char>
    decreases items,
{
    if items.len() == 0 {
        Seq::empty()
    } else if items.len() == 1 {
        item_numbered(items.last(), n)
    } else {
        items_numbered(items.drop_last(), n) + " "@ + operation_sql(items.last().operation())
            + " "@ + item_numbered(items.last(), n + items_params(items.drop_last()).len())
    }
}

/// The text of a leaf in either form: with the marker of number `n`, or
/// with a bare `?`.
pub open spec fn leaf_text(leaf: LeafView, numbered: bool, n: nat) -> Seq<char> {
    if numbered {
        leaf_numbered(leaf, n)
    } else {
        leaf_sql(leaf)
    }
}

/// The text of a list in either form: with the markers from `n` upwards,
/// or with a bare `?` at every leaf.
pub open spec fn items_text(items: Seq<ItemView>, numbered: bool, n: nat) -> Seq<char> {
    if numbered {
        items_numbered(items, n)
    } else {
        items_sql(items)
    }
}

/// The text of one item; a group is the text of its list in parentheses.
pub open spec fn item_sql(item: ItemView) -> Seq<char>
    decreases item,
{
    match item {
        ItemView::Filter { leaf, .. } => leaf_sql(leaf),
        ItemView::Condition { children, .. } => "("@ + items_sql(children) + ")"@,
    }
}

/// The text of a list: its items in order, each one after the first led by
/// its own operation between single spaces.
pub open spec fn items_sql(items: Seq<ItemView>) -> Seq<char>
    decreases items,
{
    if items.len() == 0 {
        Seq::empty()
    } else if items.len() == 1 {
        item_sql(items.last())
    } else {
        items_sql(items.drop_last()) + " "@ + operation_sql(items.last().operation()) + " "@
            + item_sql(items.last())
    }
}

/// The comparison values under one item, in the order of their placeholders.
pub open spec fn item_params(item: ItemView) -> Seq<Json>
    decreases item,
{
    match item {
        ItemView::Filter { leaf, .. } => seq![leaf.value],
        ItemView::Condition { children, .. } => items_params(children),
    }
}

/// The comparison values under a list, in the order of their placeholders.
pub open spec fn items_params(items: Seq<ItemView>) -> Seq<Json>
    decreases items,
{
    if items.len() == 0 {
        Seq::empty()
    } else {
        items_params(items.drop_last()) + item_params(items.last())
    }
}

/// The operator of the first leaf under an item that has no SQL token.
pub open spec fn item_unsupported(item: ItemView) -> Option<QueryFilterOperator>
    decreases item,
{
    match item {
        ItemView::Filter { leaf, .. } => if operator_sql(leaf.operator) is None {
            Some(leaf.operator)
        } else {
            None
        },
        ItemView::Condition { children, .. } => items_unsupported(children),
    }
}

/// The operator of the first leaf under a list that has no SQL token.
pub open spec fn items_unsupported(items: Seq<ItemView>) -> Option<QueryFilterOperator>
    decreases items,
{
    if items.len() == 0 {
        None
    } else {
        match items_unsupported(items.drop_last()) {
            Some(operator) => Some(operator),
            None => item_unsupported(items.last()),
        }
    }
}

/// What compiling a list gives: its text and parameters, or the first
/// operator that cannot be compiled.
pub open spec fn items_compiled(items: Seq<ItemView>) -> Result<
    (Seq<char>, Seq<Json>),
    CompileError,
> {
    match items_unsupported(items) {
        Some(operator) => Err(CompileError::UnsupportedOperator { operator }),
        None => Ok((items_sql(items), items_params(items))),
    }
}

/// A text with its placeholders numbered from `next` upwards, left to right.
pub open spec fn renumber_from(s: Seq<char>, next: nat) -> Seq<char>
    decreases s.len(),
{
    if s.len() == 0 {
        s
    } else if s.first() == '?' {
        marker(next) + renumber_from(s.drop_first(), next + 1)
    } else {
        seq![s.first()] + renumber_from(s.drop_first(), next)
    }
}

/// A text with its placeholders numbered from 1.
pub open spec fn renumber(s: Seq<char>) -> Seq<char> {
    renumber_from(s, 1)
}

/// The `LIMIT` and `OFFSET` clauses, each only where it is set.
pub open spec fn limit_sql(limit: Option<QueryLimit>) -> Seq<char> {
    match limit {
        None => Seq::empty(),
        Some(l) => (match l.limit {
            Some(n) => " LIMIT "@ + decimal(n as nat),
            None => Seq::empty(),
        }) + (match l.offset {
            Some(n) => " OFFSET "@ + decimal(n as nat),
            None => Seq::empty(),
        }),
    }
}

/// The list that a query filters by; no filter is the empty list.
pub open spec fn filter_items(query: QueryView) -> Seq<ItemView> {
    match query.filter {
        Some(items) => items,
        None => Seq::empty(),
    }
}

/// The `WHERE` clause of a filter list: none for an empty list, which
/// holds of every row; else the list with the markers `$1`, `$2`, and so on
/// at its leaves, in list order.
pub open spec fn where_sql(items: Seq<ItemView>) -> Seq<char> {
    if items.len() == 0 {
        Seq::empty()
    } else {
        " WHERE "@ + items_numbered(items, 1)
    }
}

/// What compiling a query for a table gives: the whole table where there
/// is no query; else the statement that selects the rows that the filter
/// list holds of, with the clauses for limit and offset. A query with no
/// filter, or with an empty list, matches every row: its statement has no
/// `WHERE` clause and no parameters.
pub open spec fn select_compiled(table: Seq<char>, query: Option<QueryView>) -> Result<
    (Seq<char>, Seq<Json>),
    CompileError,
> {
    match query {
        None => Ok(("SELECT data FROM "@ + table, Seq::empty())),
        Some(q) => match items_unsupported(filter_items(q)) {
            Some(operator) => Err(CompileError::UnsupportedOperator { operator }),
            None => Ok(
                (
                    "SELECT data FROM "@ + table + where_sql(filter_items(q)) + limit_sql(q.limit),
                    items_params(filter_items(q)),
                ),
            ),
        },
    }
}

/// The value of what a compiling function returns.
pub open spec fn compiled_view(r: Result<(String, Vec<Value>), CompileError>) -> Result<
    (Seq<char>, Seq<Json>),
    CompileError,
> {
    match r {
        Ok((text, params)) => Ok((text@, json_models(params@))),
        Err(e) => Err(e),
    }
}

/// Once a prefix of a list holds an operator without a token, the first such
/// operator of the whole list is the one of the prefix.
pub proof fn lemma_unsupported_stays(items: Seq<ItemView>, k: int)
    requires
        0 <= k <= items.len(),
        items_unsupported(items.take(k)) is Some,
    ensures
        items_unsupported(items) == items_unsupported(items.take(k)),
    decreases items.len() - k,
{
    if k == items.len() {
        assert(items.take(k) =~= items);
    } else {
        assert(items.take(k + 1).drop_last() =~= items.take(k));
        lemma_unsupported_stays(items, k + 1);
    }
}

/// Compiles a whole query for a table: the `SELECT` text and the parameters
/// to bind, in the order of their markers. Each leaf carries the marker of
/// its place among the leaves, whatever its field name holds. A query
/// without filter items gets no `WHERE` clause. The table name goes into the
/// text unchanged, so it must be a name that the calling code has fixed,
/// never text from outside.
pub fn to_sql(table: &str, query: &Option<Query>) -> (r: Result<
    (String, Vec<Value>),
    CompileError,
>)
    ensures
        compiled_view(r) == select_compiled(table@, option_view(*query)),
{
    let mut sql = String::from_str("SELECT data FROM ");
    sql.append(table);
    let mut params: Vec<Value> = Vec::new();
    assert(json_models(params@) =~= Seq::<Json>::empty());
    let query = match query {
        Some(query) => query,
        None => {
            return Ok((sql, params));
        },
    };
    assert(items_params(Seq::<ItemView>::empty()) =~= Seq::<Json>::empty());
    match &query.filter {
        Some(filters) => {
            assert(items_view(filters@).len() == filters@.len());
            if filters.len() > 0 {
                match compile_items(filters, true, &mut params) {
                    Ok(body) => {
                        sql.append(" WHERE ");
                        sql.append(body.as_str());
                    },
                    Err(e) => {
                        return Err(e);
                    },
                }
            } else {
                assert(items_view(filters@) =~= Seq::<ItemView>::empty());
            }
        },
        None => {},
    }
    assert(json_models(params@) =~= items_params(filter_items(query@)));
    assert(sql@ =~= "SELECT data FROM "@ + table@ + where_sql(filter_items(query@)));
    if let Some(limit_def) = &query.limit {
        if let Some(limit) = limit_def.limit {
            sql.append(" LIMIT ");
            push_decimal(&mut sql, limit as u128);
        }
        if let Some(offset) = limit_def.offset {
            sql.append(" OFFSET ");
            push_decimal(&mut sql, offset as u128);
        }
    }
    assert(sql@ =~= "SELECT data FROM "@ + table@ + where_sql(filter_items(query@)) + limit_sql(
        query@.limit,
    ));
    Ok((sql, params))
}

/// Compiles a list of items to the body of a `WHERE` clause, with `?` for
/// every parameter.
pub fn items_to_sql(items: &Vec<QueryFilterItem>) -> (r: Result<
    (String, Vec<Value>),
    CompileError,
>)
    ensures
        compiled_view(r) == items_compiled(items_view(items@)),
{
    let mut params: Vec<Value> = Vec::new();
    assert(json_models(params@) =~= Seq::<Json>::empty());
    match compile_items(items, false, &mut params) {
        Ok(text) => {
            assert(json_models(params@) =~= items_params(items_view(items@)));
            Ok((text, params))
        },
        Err(e) => Err(e),
    }
}

/// Compiles a list of items in either form and appends its comparison
/// values to `params`. With `numbered`, each leaf carries the marker of its
/// place in `params`, counted from 1; without, a bare `?`.
fn compile_items(items: &Vec<QueryFilterItem>, numbered: bool, params: &mut Vec<Value>) -> (r:
    Result<String, CompileError>)
    ensures
        match r {
            Ok(text) => {
                &&& items_unsupported(items_view(items@)) is None
                &&& text@ == items_text(
                    items_view(items@),
                    numbered,
                    (old(params)@.len() + 1) as nat,
                )
                &&& json_models(final(params)@) == json_models(old(params)@) + items_params(
                    items_view(items@),
                )
            },
            Err(e) => items_unsupported(items_view(items@)) == Some(e->operator),
        },
    decreases items,
{
    let ghost all = items_view(items@);
    let ghost start = json_models(params@);
    let ghost first = (params@.len() + 1) as nat;
    let mut where_str = String::new();
    let mut i: usize = 0;
    assert(json_models(params@) =~= start + items_params(all.take(0)));
    while i < items.len()
        invariant
            i <= items.len(),
            all == items_view(items@),
            start.len() + 1 == first,
            items_unsupported(all.take(i as int)) is None,
            where_str@ == items_text(all.take(i as int), numbered, first),
            json_models(params@) == start + items_params(all.take(i as int)),
        decreases items.len() - i,
    {
        let item = &items[i];
        let ghost longer = all.take(i + 1);
        let ghost before = json_models(params@);
        let ghost place = (params@.len() + 1) as nat;
        assert(longer.drop_last() =~= all.take(i as int));
        assert(longer.last() == item@);
        assert(json_models(params@).len() == params@.len());
        assert(place == first + items_params(longer.drop_last()).len());
        if i > 0 {
            where_str.append(" ");
            let joiner = operation_to_sql(&item.operation());
            where_str.append(joiner.as_str());
            where_str.append(" ");
        }
        match item {
            QueryFilterItem::Filter(filter) => {
                assert(item_unsupported(item@) == if operator_sql(filter.filter.operator) is None {
                    Some(filter.filter.operator)
                } else {
                    None
                });
                assert(item_sql(item@) == leaf_sql(filter.filter@));
                assert(item_numbered(item@, place) == leaf_numbered(filter.filter@, place));
                assert(item_params(item@) == seq![filter.filter@.value]);
                let number: u128 = params.len() as u128 + 1;
                match compile_leaf(filter, numbered, number) {
                    Ok((filter_str, value)) => {
                        where_str.append(filter_str.as_str());
                        params.push(value);
                        assert(json_models(params@) =~= before + seq![json_model(value)]);
                    },
                    Err(e) => {
                        proof {
                            lemma_unsupported_stays(all, i + 1);
                        }
                        return Err(e);
                    },
                }
            },
            QueryFilterItem::Condition(condition) => {
                proof {
                    lemma_condition_view(*condition);
                }
                assert(item_unsupported(item@) == items_unsupported(
                    items_view(condition.filter@),
                ));
                assert(item_sql(item@) == "("@ + items_sql(items_view(condition.filter@)) + ")"@);
                assert(item_numbered(item@, place) == "("@ + items_numbered(
                    items_view(condition.filter@),
                    place,
                ) + ")"@);
                assert(item_params(item@) == items_params(items_view(condition.filter@)));
                match compile_items(&condition.filter, numbered, params) {
                    Ok(inner) => {
                        where_str.append("(");
                        where_str.append(inner.as_str());
                        where_str.append(")");
                    },
                    Err(e) => {
                        proof {
                            lemma_unsupported_stays(all, i + 1);
                        }
                        return Err(e);
                    },
                }
            },
        }
        assert(json_models(params@) =~= start + items_params(longer));
        assert(where_str@ =~= items_text(longer, numbered, first));
        i += 1;
    }
    assert(all.take(i as int) =~= all);
    Ok(where_str)
}

/// Numbers the placeholders of a text: the first `?` becomes `$1`, the
/// second `$2`, and so on; every other character stays.
pub fn enumerate_placeholders(sql: &str) -> (r: String)
    ensures
        r@ == renumber(sql@),
{
    let len = sql.unicode_len();
    let mut out = String::new();
    let mut seen: usize = 0;
    let mut chars = sql.chars();
    let ghost mut pos: int = 0;
    assert(sql@.skip(0) =~= sql@);
    loop
        invariant
            0 <= pos <= sql@.len(),
            len == sql@.len(),
            seen <= pos,
            chars.obeys_prophetic_iter_laws(),
            chars.remaining() == sql@.skip(pos),
            out@ + renumber_from(sql@.skip(pos), (seen + 1) as nat) == renumber(sql@),
        ensures
            out@ == renumber(sql@),
        decreases sql@.len() - pos,
    {
        let ghost rest = sql@.skip(pos);
        let ghost done = out@;
        let ghost before = seen;
        match chars.next() {
            Some(c) => {
                assert(rest.drop_first() =~= sql@.skip(pos + 1));
                if c == '?' {
                    out.push('$');
                    push_decimal(&mut out, (seen + 1) as u128);
                    seen = seen + 1;
                    assert(out@ =~= done + marker(seen as nat));
                } else {
                    out.push(c);
                    assert(out@ =~= done + seq![c]);
                }
                proof {
                    pos = pos + 1;
                    assert(out@ + renumber_from(sql@.skip(pos), (seen + 1) as nat) =~= done
                        + renumber_from(rest, (before + 1) as nat));
                }
            },
            None => {
                assert(rest.len() == 0);
                assert(out@ + rest =~= out@);
                break;
            },
        }
    }
    out
}

/// The SQL keyword of an operation.
pub fn operation_to_sql(oper: &QueryFilterOperation) -> (r: String)
    ensures
        r@ == operation_sql(*oper),
{
    match oper {
        QueryFilterOperation::And => String::from_str("AND"),
        QueryFilterOperation::Or => String::from_str("OR"),
        QueryFilterOperation::Not => String::from_str("NOT"),
    }
}

/// Compiles one leaf: its text with a `?`, and its comparison value.
pub fn filter_to_sql(def: &QueryFilterFilter) -> (r: Result<(String, Value), CompileError>)
    ensures
        match r {
            Ok((text, value)) => operator_sql(def.filter.operator) is Some && text@ == leaf_sql(
                def.filter@,
            ) && json_model(value) == def.filter@.value,
            Err(e) => operator_sql(def.filter.operator) is None && e
                == (CompileError::UnsupportedOperator { operator: def.filter.operator }),
        },
{
    compile_leaf(def, false, 0)
}

/// Compiles one leaf in either form: its text, with the marker of the given
/// number or with a bare `?`, and its comparison value.
fn compile_leaf(def: &QueryFilterFilter, numbered: bool, number: u128) -> (r: Result<
    (String, Value),
    CompileError,
>)
    ensures
        match r {
            Ok((text, value)) => operator_sql(def.filter.operator) is Some && text@ == leaf_text(
                def.filter@,
                numbered,
                number as nat,
            ) && json_model(value) == def.filter@.value,
            Err(e) => operator_sql(def.filter.operator) is None && e
                == (CompileError::UnsupportedOperator { operator: def.filter.operator }),
        },
{
    let filter = &def.filter;
    let token = match filter.operator {
        QueryFilterOperator::Equals => "=",
        QueryFilterOperator::NotEquals => "<>",
        QueryFilterOperator::GreaterThan => ">",
        _ => {
            return Err(CompileError::UnsupportedOperator { operator: filter.operator });
        },
    };
    let mut text = String::from_str("data->'");
    text.append(filter.field.as_str());
    text.append("' ");
    text.append(token);
    if numbered {
        text.append(" ");
        text.push('$');
        push_decimal(&mut text, number);
        assert(text@ =~= leaf_numbered(filter@, number as nat));
    } else {
        text.append(" ?");
        assert(text@ =~= leaf_sql(filter@));
    }
    Ok((text, value_clone(&filter.value)))
}

/// Compiles a group: the text of its list in parentheses, and its parameters.
pub fn to_sql_condition(condition: &QueryFilterCondition) -> (r: Result<
    (String, Vec<Value>),
    CompileError,
>)
    ensures
        match r {
            Ok((text, params)) => item_unsupported(condition@) is None && text@ == item_sql(
                condition@,
            ) && json_models(params@) == item_params(condition@),
            Err(e) => item_unsupported(condition@) == Some(e->operator),
        },
{
    match items_to_sql(&condition.filter) {
        Ok((where_str, params)) => {
            let mut text = String::from_str("(");
            text.append(where_str.as_str());
            text.append(")");
            Ok((text, params))
        },
        Err(e) => Err(e),
    }
}

} // verus!
