use iasql::api::{ensure_sql_extension, get_aws_regions, record_word, PlanMeta, PlanResponse};
use iasql::device::{code_url, device_code_request_body, poll_url};
use iasql::http::{
    api_url, bearer_value, classify_response, classify_v1_response, db_server, v1_url, HttpError,
    PostV1Error,
};
use iasql::text::{contains_string, join_with};

#[test]
fn success_statuses_pass_the_body_through() {
    assert_eq!(classify_response(200, "ok".to_string()).unwrap(), "ok");
    assert_eq!(classify_response(204, "".to_string()).unwrap(), "");
    assert_eq!(classify_response(299, "edge".to_string()).unwrap(), "edge");
}

#[test]
fn failure_statuses_carry_status_and_body() {
    let e = classify_response(404, "missing".to_string()).unwrap_err();
    assert_eq!(e.status, 404);
    assert_eq!(e.message, "missing");
    let e = classify_response(300, "redirect".to_string()).unwrap_err();
    assert_eq!(e.status, 300);
}

#[test]
fn client_errors_use_the_conventional_status() {
    let e = HttpError::new_client("no route".to_string());
    assert_eq!(e.status, 400);
    assert_eq!(e.message, "no route");
    let e = HttpError::new("boom".to_string(), 502);
    assert_eq!(e.status, 502);
}

#[test]
fn database_endpoint_errors_are_sorted_by_status() {
    assert!(matches!(
        classify_v1_response(408, "t".to_string()),
        Err(PostV1Error::Timeout)
    ));
    assert!(matches!(
        classify_v1_response(403, "f".to_string()),
        Err(PostV1Error::Forbidden)
    ));
    assert!(matches!(
        classify_v1_response(409, "c".to_string()),
        Err(PostV1Error::Conflict)
    ));
    match classify_v1_response(500, "server fire".to_string()) {
        Err(PostV1Error::Other(body)) => assert_eq!(body, "server fire"),
        other => panic!("expected the body to be carried, got {:?}", other.is_ok()),
    }
    assert_eq!(classify_v1_response(201, "made".to_string()).unwrap(), "made");
}

#[test]
fn deployment_addresses() {
    assert_eq!(api_url(&Some("local".to_string()), false), "http://localhost:8088");
    assert_eq!(api_url(&Some("staging".to_string()), false), "https://api-staging.iasql.com");
    assert_eq!(api_url(&Some("production".to_string()), true), "https://api.iasql.com");
    assert_eq!(api_url(&None, true), "http://localhost:8088");
    assert_eq!(api_url(&None, false), "https://api.iasql.com");

    assert_eq!(db_server(&Some("local".to_string()), false), "localhost:5432");
    assert_eq!(db_server(&None, true), "localhost:5432");
    assert_eq!(db_server(&None, false), "db.iasql.com");
    assert_eq!(db_server(&Some("staging".to_string()), true), "db.iasql.com");
}

#[test]
fn request_pieces_are_assembled_verbatim() {
    assert_eq!(v1_url("https://api.iasql.com", "db/list"), "https://api.iasql.com/v1/db/list");
    assert_eq!(bearer_value("tok123"), "Bearer tok123");
    assert_eq!(code_url(), "https://auth.iasql.com/oauth/device/code");
    assert_eq!(poll_url(), "https://auth.iasql.com/oauth/token");
    assert!(device_code_request_body().contains("FWIYK0GhLdMCLid0hxjmEEwxaifdAkpQ"));
}

#[test]
fn dump_files_get_the_sql_extension_once() {
    assert_eq!(ensure_sql_extension("backup".to_string()), "backup.sql");
    assert_eq!(ensure_sql_extension("backup.sql".to_string()), "backup.sql");
    assert_eq!(ensure_sql_extension("a".to_string()), "a.sql");
    assert_eq!(ensure_sql_extension("".to_string()), ".sql");
    assert_eq!(ensure_sql_extension("x.sql.gz".to_string()), "x.sql.gz.sql");
}

#[test]
fn record_word_is_singular_only_for_one() {
    assert_eq!(record_word(1), "record");
    assert_eq!(record_word(0), "records");
    assert_eq!(record_word(2), "records");
}

#[test]
fn the_region_listing_is_fixed() {
    let regions = get_aws_regions();
    assert_eq!(regions.len(), 17);
    assert_eq!(regions[0], "ap-northeast-1");
    assert_eq!(regions[14], "us-east-2");
    assert_eq!(regions[16], "us-west-2");
    assert!(contains_string(&regions, "eu-west-3"));
    assert!(!contains_string(&regions, "mars-central-1"));
}

#[test]
fn an_empty_plan_is_detected() {
    let empty = PlanResponse {
        iasql_plan_version: 1,
        to_create: vec![],
        to_update: vec![],
        to_delete: vec![],
    };
    assert!(empty.is_empty_plan());

    let meta = PlanMeta { columns: vec!["id".to_string()], records: vec![vec!["1".to_string()]] };
    let busy = PlanResponse {
        iasql_plan_version: 1,
        to_create: vec![("table_a".to_string(), meta)],
        to_update: vec![],
        to_delete: vec![],
    };
    assert!(!busy.is_empty_plan());
}

#[test]
fn joining_names() {
    let none: Vec<String> = vec![];
    assert_eq!(join_with(&none, "\n"), "");
    let one = vec!["db1".to_string()];
    assert_eq!(join_with(&one, "\n"), "db1");
    let three = vec!["a".to_string(), "b".to_string(), "c".to_string()];
    assert_eq!(join_with(&three, ", "), "a, b, c");
}
