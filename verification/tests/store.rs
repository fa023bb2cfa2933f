use docquery::matcher::MatchError;
use docquery::query::{
    Query, QueryFilterOperator, QueryLimit, QuerySortDirection, QuerySortItem,
};
use docquery::sql::CompileError;
use docquery::store::{find_one_record, find_one_sql, find_records, Collection, Identity};
use serde_json::Value;

fn record(id: &str, name: &str) -> Value {
    Value::Object(
        vec![
            ("id".to_string(), Value::from(id)),
            ("name".to_string(), Value::from(name)),
        ]
        .into_iter()
        .collect(),
    )
}

fn users() -> Vec<Value> {
    vec![record("123", "John"), record("456", "Jane"), record("789", "John")]
}

struct User;

impl Collection for User {
    fn name() -> String {
        "users".to_string()
    }
}

impl Identity for User {
    fn identity_query(id: Value) -> Query {
        Query::builder().eq("id", id).build()
    }

    fn key(&self) -> &str {
        "id"
    }

    fn id(&self) -> Value {
        Value::from("123")
    }

    fn identity(&self) -> Value {
        record("123", "John")
    }
}

#[test]
fn identity_query_finds_the_record() {
    let query = User::identity_query(Value::String("456".to_string()));
    let found = find_one_record(&users(), &Some(query)).unwrap();
    assert_eq!(found.unwrap()["name"], "Jane");
    assert_eq!(User::name(), "users");
}

#[test]
fn find_without_a_query_returns_every_record() {
    assert_eq!(find_records(&users(), &None), Ok(users()));
    assert_eq!(find_records(&vec![], &None), Ok(vec![]));
}

#[test]
fn find_returns_the_matching_records_in_order() {
    let query = Query::builder().wher("name", Value::from("John")).build();
    assert_eq!(
        find_records(&users(), &Some(query)),
        Ok(vec![record("123", "John"), record("789", "John")])
    );
    let query = Query::builder().wher("name", Value::from("Joe")).build();
    assert_eq!(find_records(&users(), &Some(query)), Ok(vec![]));
}

#[test]
fn find_reports_the_first_record_that_cannot_be_matched() {
    let mut records = users();
    records.insert(1, Value::from(5));
    records.push(Value::Null);
    let query = Query::builder().wher("name", Value::from("John")).build();
    assert_eq!(
        find_records(&records, &Some(query)),
        Err(MatchError::FieldNotFound {
            field: "name".to_string()
        })
    );
    let query = Query::builder().gt("name", Value::from(1)).build();
    assert_eq!(
        find_records(&users(), &Some(query)),
        Err(MatchError::TypeMismatch {
            field: "name".to_string(),
            operator: QueryFilterOperator::GreaterThan,
            found: Value::from("John"),
            value: Value::from(1)
        })
    );
}

#[test]
fn find_one_without_a_query_returns_the_first_record() {
    assert_eq!(find_one_record(&users(), &None), Ok(Some(record("123", "John"))));
    assert_eq!(find_one_record(&vec![], &None), Ok(None));
}

#[test]
fn find_one_returns_the_first_match() {
    let query = Query::builder().wher("name", Value::from("Jane")).build();
    assert_eq!(
        find_one_record(&users(), &Some(query)),
        Ok(Some(record("456", "Jane")))
    );
    let query = Query::builder().wher("name", Value::from("John")).build();
    assert_eq!(
        find_one_record(&users(), &Some(query)),
        Ok(Some(record("123", "John")))
    );
    let query = Query::builder().wher("name", Value::from("Joe")).build();
    assert_eq!(find_one_record(&users(), &Some(query)), Ok(None));
}

#[test]
fn find_one_stops_at_the_first_match() {
    let mut records = users();
    records.push(Value::Null);
    let query = Query::builder().wher("name", Value::from("Jane")).build();
    assert_eq!(
        find_one_record(&records, &Some(query)),
        Ok(Some(record("456", "Jane")))
    );
    let query = Query::builder().wher("name", Value::from("Joe")).build();
    assert_eq!(
        find_one_record(&records, &Some(query)),
        Err(MatchError::FieldNotFound {
            field: "name".to_string()
        })
    );
}

#[test]
fn find_one_sql_limits_to_one_row() {
    let mut query = Query::builder().wher("id", Value::from("456")).build();
    query.limit = Some(QueryLimit {
        limit: Some(50),
        offset: Some(10),
    });
    query.sort = Some(vec![QuerySortItem {
        field: "name".to_string(),
        direction: QuerySortDirection::Ascending,
    }]);
    assert_eq!(
        find_one_sql("users", &Some(query)),
        Ok((
            "SELECT data FROM users WHERE data->'id' = $1 LIMIT 1".to_string(),
            vec![Value::from("456")]
        ))
    );
}

#[test]
fn find_one_sql_with_a_query_without_filter() {
    let query = Query {
        filter: None,
        sort: None,
        limit: None,
    };
    assert_eq!(
        find_one_sql("users", &Some(query)),
        Ok(("SELECT data FROM users LIMIT 1".to_string(), vec![]))
    );
}

#[test]
fn find_one_sql_without_a_query() {
    assert_eq!(
        find_one_sql("users", &None),
        Ok(("SELECT * FROM users LIMIT 1".to_string(), vec![]))
    );
}

#[test]
fn find_one_sql_reports_unsupported_operators() {
    let query = Query::from_json(
        r#"{"filter":[{"type":"filter","operation":"and","filter":{"field":"a","operator":"exists","value":null}}]}"#,
    )
    .unwrap();
    assert_eq!(
        find_one_sql("users", &Some(query)),
        Err(CompileError::UnsupportedOperator {
            operator: QueryFilterOperator::Exists
        })
    );
}
