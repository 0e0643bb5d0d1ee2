//! The agents query, asked over HTTP as a client asks it.

use std::sync::Arc;

use async_graphql::dynamic::{Field, FieldFuture, FieldValue, Object, Schema, TypeRef};
use async_graphql::Value;
use async_graphql_axum::GraphQL;
use axum::body::Body;
use axum::http::{Request, StatusCode};
use axum::routing::post_service;
use axum::Router;
use tower::ServiceExt;
use vf_planning::model::Agent;
use vf_planning::query::QueryRoot;
use vf_planning::row::{Column, Row, Value as Cell};

fn agent_object() -> Object {
    Object::new("Agent")
        .field(Field::new("id", TypeRef::named_nn(TypeRef::STRING), |ctx| {
            FieldFuture::new(async move {
                let agent = ctx.parent_value.try_downcast_ref::<Agent>()?;
                Ok(Some(Value::from(agent.id.clone())))
            })
        }))
        .field(Field::new("name", TypeRef::named_nn(TypeRef::STRING), |ctx| {
            FieldFuture::new(async move {
                let agent = ctx.parent_value.try_downcast_ref::<Agent>()?;
                Ok(Some(Value::from(agent.name.clone())))
            })
        }))
        .field(Field::new("email", TypeRef::named(TypeRef::STRING), |ctx| {
            FieldFuture::new(async move {
                let agent = ctx.parent_value.try_downcast_ref::<Agent>()?;
                Ok(agent.email.clone().map(Value::from))
            })
        }))
}

fn query_object(table: Arc<Vec<Row>>) -> Object {
    Object::new("Query").field(Field::new(
        "agents",
        TypeRef::named_nn_list_nn("Agent"),
        move |_ctx| {
            let table = table.clone();
            FieldFuture::new(async move {
                let agents = QueryRoot
                    .agents(&table)
                    .map_err(|e| async_graphql::Error::new(e.message()))?;
                Ok(Some(FieldValue::list(
                    agents.into_iter().map(FieldValue::owned_any),
                )))
            })
        },
    ))
}

fn application(table: Vec<Row>) -> Router {
    let schema = Schema::build("Query", None, None)
        .register(agent_object())
        .register(query_object(Arc::new(table)))
        .finish()
        .unwrap();
    Router::new().route("/graphql", post_service(GraphQL::new(schema)))
}

fn post(application: Router, path: &str, body: &'static str) -> (StatusCode, String) {
    let runtime = tokio::runtime::Builder::new_current_thread()
        .enable_all()
        .build()
        .unwrap();
    runtime.block_on(async move {
        let request = Request::builder()
            .method("POST")
            .uri(path)
            .header("content-type", "application/json")
            .body(Body::from(body))
            .unwrap();
        let response = application.oneshot(request).await.unwrap();
        let status = response.status();
        let bytes = axum::body::to_bytes(response.into_body(), usize::MAX)
            .await
            .unwrap();
        (status, String::from_utf8(bytes.to_vec()).unwrap())
    })
}

fn text(name: &str, value: &str) -> Column {
    Column {
        name: name.to_string(),
        value: Cell::Text(value.to_string()),
    }
}

#[test]
fn graphql_agents() {
    let (status, body) = post(
        application(Vec::new()),
        "/graphql",
        r#"{"query": "{ agents {id, name, email}}"}"#,
    );
    assert_eq!(status, StatusCode::OK);
    assert_eq!(body, r#"{"data":{"agents":[]}}"#);
}

#[test]
fn graphql_agents_lists_the_rows_in_order() {
    let table = vec![
        Row {
            columns: vec![
                text("id", "01BX5ZZKBKACTAV9WEVGEMMVRZ"),
                text("name", "Bob"),
                text("unique_name", "bob"),
                text("agent_type", "Individual"),
                Column {
                    name: "email".to_string(),
                    value: Cell::Null,
                },
            ],
        },
        Row {
            columns: vec![
                text("id", "01ARZ3NDEKTSV4RRFFQ69G5FAV"),
                text("name", "Alice"),
                text("unique_name", "alice"),
                text("agent_type", "Organization"),
                text("email", "alice@example.org"),
            ],
        },
    ];
    let (status, body) = post(
        application(table),
        "/graphql",
        r#"{"query": "{ agents {id, name, email}}"}"#,
    );
    assert_eq!(status, StatusCode::OK);
    assert_eq!(
        body,
        r#"{"data":{"agents":[{"id":"01BX5ZZKBKACTAV9WEVGEMMVRZ","name":"Bob","email":null},{"id":"01ARZ3NDEKTSV4RRFFQ69G5FAV","name":"Alice","email":"alice@example.org"}]}}"#
    );
}

#[test]
fn graphql_agents_reports_a_row_that_does_not_decode() {
    let table = vec![Row {
        columns: vec![text("id", "01BX5ZZKBKACTAV9WEVGEMMVRZ"), text("name", "Bob")],
    }];
    let (status, body) = post(
        application(table),
        "/graphql",
        r#"{"query": "{ agents {id, name, email}}"}"#,
    );
    assert_eq!(status, StatusCode::OK);
    assert!(body.contains(r#""data":null"#));
    assert!(body.contains("decode error: missing column unique_name"));
}
