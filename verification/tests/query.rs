use docquery::builder::{BuildError, QueryBuilder};
use docquery::query::{
    Query, QueryFilter, QueryFilterCondition, QueryFilterFilter, QueryFilterItem,
    QueryFilterOperation, QueryFilterOperator, QueryLimit, QuerySortDirection, QuerySortItem,
};
use docquery::wire::MalformedQuery;
use serde_json::Value;

fn leaf(
    operation: QueryFilterOperation,
    field: &str,
    operator: QueryFilterOperator,
    value: Value,
) -> QueryFilterItem {
    QueryFilterItem::Filter(QueryFilterFilter {
        operation,
        filter: QueryFilter {
            field: field.to_string(),
            operator,
            value,
        },
    })
}

#[test]
fn test_query_builder() {
    let query = Query::builder()
        .wher("id", Value::from(2))
        .or_wher("name", Value::from("John"))
        .and(|mut q| {
            q.and(|mut q| {
                q.not_eq("id", Value::from(1))
                    .eq("name", Value::from("Felipe"))
                    .and(|mut q| q.gt("age", Value::from(18)).build())
                    .unwrap()
                    .build()
            })
            .unwrap()
            .build()
        })
        .unwrap()
        .build();

    let json = query.to_json().unwrap();
    let expected = r#"{"filter":[{"type":"filter","operation":"and","filter":{"field":"id","operator":"equals","value":2}},{"type":"filter","operation":"or","filter":{"field":"name","operator":"equals","value":"John"}},{"type":"condition","operation":"and","filter":[{"type":"condition","operation":"and","filter":[{"type":"filter","operation":"and","filter":{"field":"id","operator":"notEquals","value":1}},{"type":"filter","operation":"and","filter":{"field":"name","operator":"equals","value":"Felipe"}},{"type":"condition","operation":"and","filter":[{"type":"filter","operation":"and","filter":{"field":"age","operator":"greaterThan","value":18}}]}]}]}],"sort":null,"limit":null}"#;
    assert_eq!(json, expected);
}

#[test]
fn test_query() {
    let query = Query {
        filter: Some(vec![QueryFilterItem::Filter(QueryFilterFilter {
            operation: QueryFilterOperation::And,
            filter: QueryFilter {
                field: "name".to_string(),
                operator: QueryFilterOperator::Equals,
                value: Value::String("test".to_string()),
            },
        })]),
        sort: Some(vec![QuerySortItem {
            field: "name".to_string(),
            direction: QuerySortDirection::Ascending,
        }]),
        limit: Some(QueryLimit {
            limit: Some(10),
            offset: Some(30),
        }),
    };

    let json = query.to_value();
    assert_eq!(json["filter"].as_array().unwrap().len(), 1);

    let filter = json["filter"][0].clone();
    assert_eq!(filter["type"], "filter");
    assert_eq!(filter["operation"], "and");

    let filter = filter["filter"].clone();
    assert_eq!(filter["field"], "name");
    assert_eq!(filter["operator"], "equals");
    assert_eq!(filter["value"], "test");
}

#[test]
fn complex_query() {
    let query = Query {
        filter: Some(vec![QueryFilterItem::Condition(QueryFilterCondition {
            operation: QueryFilterOperation::And,
            filter: vec![
                QueryFilterItem::Filter(QueryFilterFilter {
                    operation: QueryFilterOperation::And,
                    filter: QueryFilter {
                        field: "id".to_string(),
                        operator: QueryFilterOperator::NotEquals,
                        value: Value::Number(1.into()),
                    },
                }),
                QueryFilterItem::Filter(QueryFilterFilter {
                    operation: QueryFilterOperation::And,
                    filter: QueryFilter {
                        field: "age".to_string(),
                        operator: QueryFilterOperator::GreaterThan,
                        value: Value::Number(18.into()),
                    },
                }),
            ],
        })]),
        sort: Some(vec![QuerySortItem {
            field: "name".to_string(),
            direction: QuerySortDirection::Ascending,
        }]),
        limit: Some(QueryLimit {
            limit: Some(10),
            offset: Some(30),
        }),
    };

    let expected = r#"{"filter":[{"type":"condition","operation":"and","filter":[{"type":"filter","operation":"and","filter":{"field":"id","operator":"notEquals","value":1}},{"type":"filter","operation":"and","filter":{"field":"age","operator":"greaterThan","value":18}}]}],"sort":[{"field":"name","direction":"1"}],"limit":{"limit":10,"offset":30}}"#;
    let json = query.to_json().unwrap();
    assert_eq!(json, expected);
}

#[test]
fn builder_keeps_call_order() {
    let query = QueryBuilder::new()
        .wher("a", Value::from(1))
        .or_wher("b", Value::from(2))
        .and_wher("c", Value::from(3))
        .eq("d", Value::from(4))
        .not_eq("e", Value::from(5))
        .gt("f", Value::from(6))
        .build();
    let expected = vec![
        leaf(QueryFilterOperation::And, "a", QueryFilterOperator::Equals, Value::from(1)),
        leaf(QueryFilterOperation::Or, "b", QueryFilterOperator::Equals, Value::from(2)),
        leaf(QueryFilterOperation::And, "c", QueryFilterOperator::Equals, Value::from(3)),
        leaf(QueryFilterOperation::And, "d", QueryFilterOperator::Equals, Value::from(4)),
        leaf(QueryFilterOperation::And, "e", QueryFilterOperator::NotEquals, Value::from(5)),
        leaf(QueryFilterOperation::And, "f", QueryFilterOperator::GreaterThan, Value::from(6)),
    ];
    assert_eq!(query.filter, Some(expected));
    assert_eq!(query.sort, None);
    assert_eq!(query.limit, None);
}

#[test]
fn empty_builder_builds_an_empty_list() {
    let query = Query::builder().build();
    assert_eq!(query.filter, Some(vec![]));
}

#[test]
fn empty_group_is_refused() {
    let mut builder = QueryBuilder::new();
    builder.wher("id", Value::from(1));
    let refused = builder.and(|q| q.build()).map(|_| ());
    assert_eq!(refused, Err(BuildError::EmptyGroup));
    assert_eq!(
        builder.build().filter,
        Some(vec![leaf(
            QueryFilterOperation::And,
            "id",
            QueryFilterOperator::Equals,
            Value::from(1)
        )])
    );
}

#[test]
fn group_without_a_filter_list_is_refused() {
    let mut builder = QueryBuilder::new();
    let refused = builder
        .and_query(Query {
            filter: None,
            sort: None,
            limit: None,
        })
        .map(|_| ());
    assert_eq!(refused, Err(BuildError::EmptyGroup));
    assert_eq!(builder.build().filter, Some(vec![]));
}

#[test]
fn group_is_appended_as_a_condition() {
    let mut builder = QueryBuilder::new();
    builder
        .and(|mut q| q.wher("x", Value::from(1)).or_wher("y", Value::from(2)).build())
        .unwrap();
    let expected = vec![QueryFilterItem::Condition(QueryFilterCondition {
        operation: QueryFilterOperation::And,
        filter: vec![
            leaf(QueryFilterOperation::And, "x", QueryFilterOperator::Equals, Value::from(1)),
            leaf(QueryFilterOperation::Or, "y", QueryFilterOperator::Equals, Value::from(2)),
        ],
    })];
    assert_eq!(builder.build().filter, Some(expected));
}

#[test]
fn clone_is_equal() {
    let query = Query {
        filter: Some(vec![QueryFilterItem::Condition(QueryFilterCondition {
            operation: QueryFilterOperation::Or,
            filter: vec![leaf(
                QueryFilterOperation::Not,
                "tags",
                QueryFilterOperator::In,
                Value::Array(vec![Value::from("a"), Value::Null]),
            )],
        })]),
        sort: Some(vec![QuerySortItem {
            field: "name".to_string(),
            direction: QuerySortDirection::Descending,
        }]),
        limit: Some(QueryLimit {
            limit: None,
            offset: Some(7),
        }),
    };
    assert_eq!(query.clone(), query);
}

#[test]
fn round_trip_through_text() {
    let query = Query {
        filter: Some(vec![
            leaf(QueryFilterOperation::Or, "a", QueryFilterOperator::LessThanOrEquals, Value::Null),
            QueryFilterItem::Condition(QueryFilterCondition {
                operation: QueryFilterOperation::Not,
                filter: vec![
                    leaf(
                        QueryFilterOperation::And,
                        "b",
                        QueryFilterOperator::NotIn,
                        Value::Array(vec![Value::from(1), Value::from("x")]),
                    ),
                    QueryFilterItem::Condition(QueryFilterCondition {
                        operation: QueryFilterOperation::Or,
                        filter: vec![],
                    }),
                ],
            }),
        ]),
        sort: Some(vec![
            QuerySortItem {
                field: "n".to_string(),
                direction: QuerySortDirection::Descending,
            },
            QuerySortItem {
                field: "m".to_string(),
                direction: QuerySortDirection::Ascending,
            },
        ]),
        limit: Some(QueryLimit {
            limit: Some(4294967295),
            offset: None,
        }),
    };
    let text = query.to_json().unwrap();
    assert_eq!(Query::from_json(&text), Ok(query));
}

#[test]
fn round_trip_of_every_tag() {
    let operators = [
        (QueryFilterOperator::Equals, "equals"),
        (QueryFilterOperator::NotEquals, "notEquals"),
        (QueryFilterOperator::GreaterThan, "greaterThan"),
        (QueryFilterOperator::GreaterThanOrEquals, "greaterThanOrEquals"),
        (QueryFilterOperator::LessThan, "lessThan"),
        (QueryFilterOperator::LessThanOrEquals, "lessThanOrEquals"),
        (QueryFilterOperator::Exists, "exists"),
        (QueryFilterOperator::NotExists, "notExists"),
        (QueryFilterOperator::In, "in"),
        (QueryFilterOperator::NotIn, "notIn"),
    ];
    for (operator, tag) in operators {
        assert_eq!(operator.tag(), tag);
        assert_eq!(QueryFilterOperator::from_tag(tag), Some(operator));
    }
    let operations = [
        (QueryFilterOperation::And, "and"),
        (QueryFilterOperation::Or, "or"),
        (QueryFilterOperation::Not, "not"),
    ];
    for (operation, tag) in operations {
        assert_eq!(operation.tag(), tag);
        assert_eq!(QueryFilterOperation::from_tag(tag), Some(operation));
    }
    assert_eq!(QuerySortDirection::Ascending.tag(), "1");
    assert_eq!(QuerySortDirection::Descending.tag(), "-1");
    assert_eq!(QuerySortDirection::from_tag("1"), Some(QuerySortDirection::Ascending));
    assert_eq!(QuerySortDirection::from_tag("-1"), Some(QuerySortDirection::Descending));
    assert_eq!(QuerySortDirection::from_tag("0"), None);
    assert_eq!(QueryFilterOperator::from_tag("Equals"), None);
    assert_eq!(QueryFilterOperation::from_tag("xor"), None);
}

#[test]
fn members_may_be_left_out() {
    let empty = Query {
        filter: None,
        sort: None,
        limit: None,
    };
    assert_eq!(Query::from_json("{}"), Ok(empty.clone()));
    assert_eq!(
        Query::from_json(r#"{"filter":null,"sort":null,"limit":null,"more":1}"#),
        Ok(empty)
    );
    assert_eq!(
        Query::from_json(r#"{"limit":{"offset":3}}"#),
        Ok(Query {
            filter: None,
            sort: None,
            limit: Some(QueryLimit {
                limit: None,
                offset: Some(3)
            }),
        })
    );
}

fn malformed(text: &str) {
    assert_eq!(
        Query::from_json(text),
        Err(MalformedQuery {
            text: text.to_string()
        })
    );
}

#[test]
fn text_that_is_no_json_is_malformed() {
    malformed("");
    malformed("{");
    malformed(r#"{"filter": [}"#);
}

#[test]
fn json_that_is_no_object_is_malformed() {
    malformed("5");
    malformed("[]");
    malformed("null");
    malformed(r#""query""#);
}

#[test]
fn unknown_tags_are_malformed() {
    malformed(r#"{"filter":[{"type":"leaf","operation":"and","filter":{"field":"a","operator":"equals","value":1}}]}"#);
    malformed(r#"{"filter":[{"type":"filter","operation":"xor","filter":{"field":"a","operator":"equals","value":1}}]}"#);
    malformed(r#"{"filter":[{"type":"filter","operation":"and","filter":{"field":"a","operator":"like","value":1}}]}"#);
    malformed(r#"{"sort":[{"field":"a","direction":"up"}]}"#);
}

#[test]
fn wrong_kinds_are_malformed() {
    malformed(r#"{"filter":{}}"#);
    malformed(r#"{"sort":"name"}"#);
    malformed(r#"{"limit":5}"#);
    malformed(r#"{"limit":{"limit":-1}}"#);
    malformed(r#"{"limit":{"limit":1.5}}"#);
    malformed(r#"{"limit":{"limit":4294967296}}"#);
    malformed(r#"{"limit":{"offset":"3"}}"#);
    malformed(r#"{"filter":[{"type":"filter","operation":"and","filter":{"field":7,"operator":"equals","value":1}}]}"#);
    malformed(r#"{"filter":[{"type":"filter","operation":"and","filter":[]}]}"#);
    malformed(r#"{"filter":[{"type":"condition","operation":"and","filter":{"field":"a","operator":"equals","value":1}}]}"#);
    malformed(r#"{"sort":[{"field":"a","direction":1}]}"#);
    malformed(r#"{"filter":[7]}"#);
}

#[test]
fn missing_members_are_malformed() {
    malformed(r#"{"filter":[{"operation":"and","filter":{"field":"a","operator":"equals","value":1}}]}"#);
    malformed(r#"{"filter":[{"type":"filter","filter":{"field":"a","operator":"equals","value":1}}]}"#);
    malformed(r#"{"filter":[{"type":"filter","operation":"and"}]}"#);
    malformed(r#"{"filter":[{"type":"filter","operation":"and","filter":{"operator":"equals","value":1}}]}"#);
    malformed(r#"{"filter":[{"type":"filter","operation":"and","filter":{"field":"a","value":1}}]}"#);
    malformed(r#"{"filter":[{"type":"filter","operation":"and","filter":{"field":"a","operator":"equals"}}]}"#);
    malformed(r#"{"sort":[{"field":"a"}]}"#);
    malformed(r#"{"sort":[{"direction":"1"}]}"#);
}

#[test]
fn a_null_comparison_value_is_kept() {
    let query = Query::from_json(
        r#"{"filter":[{"type":"filter","operation":"and","filter":{"field":"a","operator":"equals","value":null}}]}"#,
    )
    .unwrap();
    assert_eq!(
        query.filter,
        Some(vec![leaf(
            QueryFilterOperation::And,
            "a",
            QueryFilterOperator::Equals,
            Value::Null
        )])
    );
}

#[test]
fn from_value_reads_what_to_value_wrote() {
    let query = Query::builder()
        .wher("id", Value::from(2))
        .or_wher("name", Value::from("John"))
        .build();
    let value = query.to_value();
    assert_eq!(Query::from_value(&value), Some(query));
    assert_eq!(Query::from_value(&Value::from(3)), None);
}

#[test]
fn every_query_has_a_text() {
    let empty = Query {
        filter: None,
        sort: None,
        limit: None,
    };
    assert_eq!(
        empty.to_json(),
        Some(r#"{"filter":null,"sort":null,"limit":null}"#.to_string())
    );
    let query = Query::builder()
        .wher("x", Value::Number(serde_json::Number::from_f64(-0.5).unwrap()))
        .build();
    assert_eq!(
        query.to_json(),
        Some(
            r#"{"filter":[{"type":"filter","operation":"and","filter":{"field":"x","operator":"equals","value":-0.5}}],"sort":null,"limit":null}"#
                .to_string()
        )
    );
}
