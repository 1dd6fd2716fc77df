use flowaim::error::ProvisionError;
use flowaim::requests::{
    create_schema, create_table_request, drop_schema, insert_row_request, joined_resource_name,
    remote_outcome, resource_name, EventRow,
};
use flowaim::text::{decimal_text, join};

#[test]
fn create_schema_uses_the_bearer_token_only() {
    let request = create_schema("org", "https://api.example", "tok");
    assert_eq!(request.url, "https://api.example/v1/sql/ddl");
    assert_eq!(request.authorization, "Bearer tok");
    assert_eq!(request.biscuit, None);
    assert_eq!(request.resource_id, None);
    assert_eq!(request.sql_text, "CREATE SCHEMA org");
}

#[test]
fn drop_schema_uses_the_bearer_token_only() {
    let request = drop_schema("org", "https://api.example", "tok");
    assert_eq!(request.url, "https://api.example/v1/sql/ddl");
    assert_eq!(request.authorization, "Bearer tok");
    assert_eq!(request.biscuit, None);
    assert_eq!(request.resource_id, None);
    assert_eq!(request.sql_text, "DROP SCHEMA org");
}

#[test]
fn resource_name_is_upper_case() {
    assert_eq!(resource_name("org", "dev"), "ORG.EVENTS_DEV");
    assert_eq!(resource_name("My_Org", "Prod"), "MY_ORG.EVENTS_PROD");
    assert_eq!(resource_name("straße", "ü"), "STRASSE.EVENTS_Ü");
    assert_eq!(resource_name("", ""), ".EVENTS_");
}

#[test]
fn create_table_request_carries_both_credentials() {
    let request = create_table_request("ORG.EVENTS_DEV", "abcd", "https://api.example", "tok", "bisc");
    assert_eq!(request.url, "https://api.example/v1/sql/ddl");
    assert_eq!(request.authorization, "Bearer tok");
    assert_eq!(request.biscuit, Some("bisc".to_string()));
    assert_eq!(request.resource_id, Some("ORG.EVENTS_DEV".to_string()));
    assert_eq!(
        request.sql_text,
        "CREATE TABLE ORG.EVENTS_DEV (ID INT NOT NULL PRIMARY KEY, PUBLISHER_ID INT, DECK_ID INT, EVENT_TYPE VARCHAR, EVENT_TIMESTAMP TIMESTAMP, PUBLIC_KEY_STRING VARCHAR, SIGNED_TIMESTAMP VARCHAR, TIMESTAMP_UTC_START_SESSION VARCHAR, TIMESTAMP_UTC_END_SESSION VARCHAR) WITH \"template=partitioned,backups=1,public_key=abcd,access_type=public_append\""
    );
}

#[test]
fn insert_row_request_writes_the_values_in_order() {
    let row = EventRow {
        id: 2147483647,
        publisher_id: -9223372036854775808,
        deck_id: 0,
        event_type: "ad_click".to_string(),
        event_timestamp: "2023-06-05T21:20:00+00:00".to_string(),
    };
    let request = insert_row_request("ORG.EVENTS_DEV", "https://api.example", "tok", "bisc", &row);
    assert_eq!(request.url, "https://api.example/v1/sql/dml");
    assert_eq!(request.authorization, "Bearer tok");
    assert_eq!(request.biscuit, Some("bisc".to_string()));
    assert_eq!(request.resource_id, Some("ORG.EVENTS_DEV".to_string()));
    assert_eq!(
        request.sql_text,
        "INSERT INTO ORG.EVENTS_DEV (ID, PUBLISHER_ID, DECK_ID, EVENT_TYPE, EVENT_TIMESTAMP, PUBLIC_KEY_STRING, SIGNED_TIMESTAMP, TIMESTAMP_UTC_START_SESSION, TIMESTAMP_UTC_END_SESSION) VALUES ('2147483647', '-9223372036854775808', '0', 'ad_click', '2023-06-05T21:20:00+00:00', '0xF4E20531CD11Fb8b70896AA9710FeDbEb9be87c3', '0x5f9e3a4a', '23-03-1990', '19-04-1990')"
    );
}

#[test]
fn decimal_text_writes_numerals() {
    assert_eq!(decimal_text(0), "0");
    assert_eq!(decimal_text(7), "7");
    assert_eq!(decimal_text(10), "10");
    assert_eq!(decimal_text(-1), "-1");
    assert_eq!(decimal_text(1234567890), "1234567890");
    assert_eq!(decimal_text(-9001), "-9001");
    assert_eq!(decimal_text(i64::MAX), "9223372036854775807");
    assert_eq!(decimal_text(i64::MIN), "-9223372036854775808");
}

#[test]
fn decimal_text_agrees_with_the_standard_library() {
    let mut value: i64 = -1_000_003;
    for _ in 0..500 {
        assert_eq!(decimal_text(value), value.to_string());
        value = value.wrapping_mul(31).wrapping_add(17);
    }
}

#[test]
fn join_puts_one_text_after_the_other() {
    assert_eq!(join("", ""), "");
    assert_eq!(join("a", ""), "a");
    assert_eq!(join("", "b"), "b");
    assert_eq!(join("ab", "cd"), "abcd");
}

#[test]
fn answer_that_is_no_success_is_a_rejection() {
    assert_eq!(remote_outcome(true), Ok(()));
    assert_eq!(remote_outcome(false), Err(ProvisionError::RemoteRejected));
}

#[test]
fn joined_resource_name_takes_both_parts_as_they_are() {
    assert_eq!(joined_resource_name("Org", "dev"), "Org.EVENTS_dev");
    assert_eq!(joined_resource_name("", ""), ".EVENTS_");
    assert_eq!(joined_resource_name("A.B", "x y"), "A.B.EVENTS_x y");
}
