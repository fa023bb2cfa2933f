use docquery::matcher::{items_match, MatchError};
use docquery::query::{
    Query, QueryFilter, QueryFilterCondition, QueryFilterFilter, QueryFilterItem,
    QueryFilterOperation, QueryFilterOperator,
};
use serde_json::{Number, Value};

fn object(members: Vec<(&str, Value)>) -> Value {
    Value::Object(
        members
            .into_iter()
            .map(|(key, value)| (key.to_string(), value))
            .collect(),
    )
}

fn float(x: f64) -> Value {
    Value::Number(Number::from_f64(x).unwrap())
}

fn user() -> Value {
    object(vec![
        ("id", Value::from("123")),
        ("name", Value::from("John")),
        ("age", Value::from(43)),
        ("score", float(1.5)),
        ("tags", Value::Array(vec![Value::from("a"), Value::from("b")])),
        ("nick", Value::Null),
    ])
}

fn filter(field: &str, operator: QueryFilterOperator, value: Value) -> QueryFilter {
    QueryFilter {
        field: field.to_string(),
        operator,
        value,
    }
}

fn leaf(
    operation: QueryFilterOperation,
    field: &str,
    operator: QueryFilterOperator,
    value: Value,
) -> QueryFilterItem {
    QueryFilterItem::Filter(QueryFilterFilter {
        operation,
        filter: filter(field, operator, value),
    })
}

fn group(operation: QueryFilterOperation, items: Vec<QueryFilterItem>) -> QueryFilterItem {
    QueryFilterItem::Condition(QueryFilterCondition {
        operation,
        filter: items,
    })
}

fn holds(name: &str) -> QueryFilterItem {
    leaf(QueryFilterOperation::And, "name", QueryFilterOperator::Equals, Value::from(name))
}

fn truth(operation: QueryFilterOperation, b: bool) -> QueryFilterItem {
    let name = if b { "John" } else { "Jane" };
    leaf(operation, "name", QueryFilterOperator::Equals, Value::from(name))
}

fn type_mismatch(field: &str, operator: QueryFilterOperator, value: Value) -> MatchError {
    MatchError::TypeMismatch {
        field: field.to_string(),
        operator,
        found: user()[field].clone(),
        value,
    }
}

#[test]
fn no_filter_matches_everything() {
    let query = Query {
        filter: None,
        sort: None,
        limit: None,
    };
    assert_eq!(query.matches(&user()), Ok(true));
    assert_eq!(query.matches(&Value::Null), Ok(true));
}

#[test]
fn empty_filter_matches_everything() {
    let query = Query {
        filter: Some(vec![]),
        sort: None,
        limit: None,
    };
    assert_eq!(query.matches(&user()), Ok(true));
    assert_eq!(group(QueryFilterOperation::And, vec![]).matches(&user()), Ok(true));
}

#[test]
fn equals_is_structural_and_sensitive_to_kind() {
    let doc = user();
    assert_eq!(filter("id", QueryFilterOperator::Equals, Value::from("123")).matches(&doc), Ok(true));
    assert_eq!(filter("id", QueryFilterOperator::Equals, Value::from(123)).matches(&doc), Ok(false));
    assert_eq!(filter("age", QueryFilterOperator::Equals, Value::from(43)).matches(&doc), Ok(true));
    assert_eq!(filter("age", QueryFilterOperator::Equals, Value::from("43")).matches(&doc), Ok(false));
    assert_eq!(filter("age", QueryFilterOperator::Equals, float(43.0)).matches(&doc), Ok(false));
    assert_eq!(filter("nick", QueryFilterOperator::Equals, Value::Null).matches(&doc), Ok(true));
    assert_eq!(
        filter(
            "tags",
            QueryFilterOperator::Equals,
            Value::Array(vec![Value::from("a"), Value::from("b")])
        )
        .matches(&doc),
        Ok(true)
    );
    assert_eq!(
        filter(
            "tags",
            QueryFilterOperator::Equals,
            Value::Array(vec![Value::from("b"), Value::from("a")])
        )
        .matches(&doc),
        Ok(false)
    );
}

#[test]
fn equal_objects_may_list_members_in_any_order() {
    let doc = object(vec![(
        "pos",
        object(vec![("x", Value::from(1)), ("y", Value::from(2))]),
    )]);
    let same = object(vec![("y", Value::from(2)), ("x", Value::from(1))]);
    assert_eq!(filter("pos", QueryFilterOperator::Equals, same).matches(&doc), Ok(true));
}

#[test]
fn not_equals_negates_equals() {
    let doc = user();
    assert_eq!(filter("id", QueryFilterOperator::NotEquals, Value::from("123")).matches(&doc), Ok(false));
    assert_eq!(filter("id", QueryFilterOperator::NotEquals, Value::from(123)).matches(&doc), Ok(true));
}

#[test]
fn less_than_compares_numbers() {
    let doc = user();
    assert_eq!(filter("age", QueryFilterOperator::LessThan, Value::from(44)).matches(&doc), Ok(true));
    assert_eq!(filter("age", QueryFilterOperator::LessThan, Value::from(43)).matches(&doc), Ok(false));
    assert_eq!(filter("age", QueryFilterOperator::LessThan, float(43.5)).matches(&doc), Ok(true));
    assert_eq!(filter("age", QueryFilterOperator::LessThan, Value::from(-1)).matches(&doc), Ok(false));
    assert_eq!(filter("score", QueryFilterOperator::LessThan, Value::from(2)).matches(&doc), Ok(true));
    assert_eq!(filter("score", QueryFilterOperator::LessThan, float(1.5)).matches(&doc), Ok(false));
}

#[test]
fn greater_than_compares_numbers() {
    let doc = user();
    assert_eq!(filter("age", QueryFilterOperator::GreaterThan, Value::from(18)).matches(&doc), Ok(true));
    assert_eq!(filter("age", QueryFilterOperator::GreaterThan, Value::from(43)).matches(&doc), Ok(false));
    assert_eq!(filter("age", QueryFilterOperator::GreaterThan, float(42.5)).matches(&doc), Ok(true));
    assert_eq!(filter("score", QueryFilterOperator::GreaterThan, Value::from(2)).matches(&doc), Ok(false));
}

#[test]
fn order_needs_numbers_on_both_sides() {
    let doc = user();
    for operator in [QueryFilterOperator::LessThan, QueryFilterOperator::GreaterThan] {
        assert_eq!(
            filter("name", operator, Value::from(1)).matches(&doc),
            Err(type_mismatch("name", operator, Value::from(1)))
        );
        assert_eq!(
            filter("age", operator, Value::from("1")).matches(&doc),
            Err(type_mismatch("age", operator, Value::from("1")))
        );
        assert_eq!(
            filter("nick", operator, Value::Null).matches(&doc),
            Err(type_mismatch("nick", operator, Value::Null))
        );
        assert_eq!(
            filter("tags", operator, Value::Array(vec![])).matches(&doc),
            Err(type_mismatch("tags", operator, Value::Array(vec![])))
        );
    }
}

#[test]
fn membership_uses_structural_equality() {
    let doc = user();
    let with_text = Value::Array(vec![Value::from("123"), Value::from(7)]);
    let with_number = Value::Array(vec![Value::from(123)]);
    assert_eq!(filter("id", QueryFilterOperator::In, with_text.clone()).matches(&doc), Ok(true));
    assert_eq!(filter("id", QueryFilterOperator::In, with_number.clone()).matches(&doc), Ok(false));
    assert_eq!(filter("id", QueryFilterOperator::In, Value::Array(vec![])).matches(&doc), Ok(false));
    assert_eq!(filter("id", QueryFilterOperator::NotIn, with_text).matches(&doc), Ok(false));
    assert_eq!(filter("id", QueryFilterOperator::NotIn, with_number).matches(&doc), Ok(true));
    assert_eq!(filter("id", QueryFilterOperator::NotIn, Value::Array(vec![])).matches(&doc), Ok(true));
}

#[test]
fn membership_needs_an_array() {
    let doc = user();
    for operator in [QueryFilterOperator::In, QueryFilterOperator::NotIn] {
        assert_eq!(
            filter("id", operator, Value::from("123")).matches(&doc),
            Err(type_mismatch("id", operator, Value::from("123")))
        );
        assert_eq!(
            filter("id", operator, object(vec![("123", Value::Null)])).matches(&doc),
            Err(type_mismatch("id", operator, object(vec![("123", Value::Null)])))
        );
    }
}

#[test]
fn missing_field_is_an_error_for_every_operator() {
    let doc = user();
    let operators = [
        QueryFilterOperator::Equals,
        QueryFilterOperator::NotEquals,
        QueryFilterOperator::GreaterThan,
        QueryFilterOperator::GreaterThanOrEquals,
        QueryFilterOperator::LessThan,
        QueryFilterOperator::LessThanOrEquals,
        QueryFilterOperator::Exists,
        QueryFilterOperator::NotExists,
        QueryFilterOperator::In,
        QueryFilterOperator::NotIn,
    ];
    for operator in operators {
        assert_eq!(
            filter("email", operator, Value::from(1)).matches(&doc),
            Err(MatchError::FieldNotFound {
                field: "email".to_string()
            })
        );
    }
}

#[test]
fn a_document_that_is_no_object_has_no_fields() {
    let f = filter("id", QueryFilterOperator::Equals, Value::from(1));
    let missing = Err(MatchError::FieldNotFound {
        field: "id".to_string(),
    });
    assert_eq!(f.matches(&Value::from(1)), missing);
    assert_eq!(f.matches(&Value::Array(vec![Value::from(1)])), missing);
    assert_eq!(f.matches(&Value::Null), missing);
}

#[test]
fn other_operators_are_unsupported() {
    let doc = user();
    let operators = [
        QueryFilterOperator::GreaterThanOrEquals,
        QueryFilterOperator::LessThanOrEquals,
        QueryFilterOperator::Exists,
        QueryFilterOperator::NotExists,
    ];
    for operator in operators {
        assert_eq!(
            filter("age", operator, Value::from(1)).matches(&doc),
            Err(MatchError::UnsupportedOperator { operator })
        );
    }
}

#[test]
fn fold_joins_by_each_items_own_operation() {
    let doc = user();
    let and = QueryFilterOperation::And;
    let or = QueryFilterOperation::Or;
    for a in [false, true] {
        for b in [false, true] {
            for c in [false, true] {
                let and_or = vec![truth(and, a), truth(and, b), truth(or, c)];
                assert_eq!(items_match(&and_or, &doc), Ok((a && b) || c));
                let or_and = vec![truth(and, a), truth(or, b), truth(and, c)];
                assert_eq!(items_match(&or_and, &doc), Ok((a || b) && c));
            }
        }
    }
}

#[test]
fn fold_is_left_to_right_where_sql_precedence_would_differ() {
    let doc = user();
    let items = vec![
        truth(QueryFilterOperation::And, true),
        truth(QueryFilterOperation::Or, false),
        truth(QueryFilterOperation::And, false),
    ];
    assert_eq!(items_match(&items, &doc), Ok(false));
}

#[test]
fn first_operation_is_inert() {
    let doc = user();
    for operation in [
        QueryFilterOperation::And,
        QueryFilterOperation::Or,
        QueryFilterOperation::Not,
    ] {
        for b in [false, true] {
            assert_eq!(items_match(&vec![truth(operation, b)], &doc), Ok(b));
            let two = vec![truth(operation, b), truth(QueryFilterOperation::And, true)];
            assert_eq!(items_match(&two, &doc), Ok(b));
        }
    }
}

#[test]
fn not_joins_as_and_does() {
    let doc = user();
    for a in [false, true] {
        for b in [false, true] {
            let items = vec![truth(QueryFilterOperation::And, a), truth(QueryFilterOperation::Not, b)];
            assert_eq!(items_match(&items, &doc), Ok(a && b));
        }
    }
}

#[test]
fn group_is_folded_on_its_own() {
    let doc = user();
    let and = QueryFilterOperation::And;
    let or = QueryFilterOperation::Or;
    let items = vec![
        truth(and, false),
        group(or, vec![truth(and, false), truth(or, true)]),
        group(and, vec![truth(and, true), group(and, vec![truth(or, true)])]),
    ];
    assert_eq!(items_match(&items, &doc), Ok(true));
    let items = vec![truth(and, true), group(and, vec![truth(and, true), truth(and, false)])];
    assert_eq!(items_match(&items, &doc), Ok(false));
    assert_eq!(
        group(or, vec![truth(and, false), truth(or, true)]).matches(&doc),
        Ok(true)
    );
}

#[test]
fn first_failure_in_order_is_reported() {
    let doc = user();
    let and = QueryFilterOperation::And;
    let or = QueryFilterOperation::Or;
    let missing = leaf(and, "email", QueryFilterOperator::Equals, Value::from(1));
    let mismatch = leaf(and, "name", QueryFilterOperator::LessThan, Value::from(1));
    let not_found = Err(MatchError::FieldNotFound {
        field: "email".to_string(),
    });
    let mismatched = Err(type_mismatch("name", QueryFilterOperator::LessThan, Value::from(1)));

    let items = vec![holds("John"), missing.clone(), mismatch.clone()];
    assert_eq!(items_match(&items, &doc), not_found);
    let items = vec![holds("John"), mismatch.clone(), missing.clone()];
    assert_eq!(items_match(&items, &doc), mismatched);
    let items = vec![truth(and, false), missing.clone()];
    assert_eq!(items_match(&items, &doc), not_found);
    let items = vec![truth(and, true), truth(or, true), group(or, vec![holds("John"), missing.clone()])];
    assert_eq!(items_match(&items, &doc), not_found);
    let items = vec![group(and, vec![mismatch]), missing];
    assert_eq!(items_match(&items, &doc), mismatched);
}

#[test]
fn query_matches_by_its_filter() {
    let doc = user();
    let query = Query::builder()
        .wher("id", Value::from("000"))
        .or_wher("name", Value::from("John"))
        .gt("age", Value::from(18))
        .build();
    assert_eq!(query.matches(&doc), Ok(true));
    let query = Query::builder()
        .wher("id", Value::from("123"))
        .gt("age", Value::from(50))
        .build();
    assert_eq!(query.matches(&doc), Ok(false));
}
