//! The privileged requests that the client sends to the platform.
//!
//! A request is composed here and sent by the caller. Every request carries
//! the bearer access token; requests on a resource also carry the resource's
//! capability token and name the resource.

use crate::error::ProvisionError;
use crate::text::{decimal, decimal_text, join, to_uppercase, uppercase};
use vstd::prelude::*;

verus! {

/// One request to the platform, ready to be sent as a POST with a JSON body.
pub struct Request {
    /// The endpoint's address.
    pub url: String,
    /// The value of the `authorization` header.
    pub authorization: String,
    /// The value of the `biscuit` header, where the request carries one.
    pub biscuit: Option<String>,
    /// The `resourceId` field of the body, where the request names a resource.
    pub resource_id: Option<String>,
    /// The `sqlText` field of the body.
    pub sql_text: String,
}

/// A request as plain values.
pub struct RequestView {
    pub url: Seq<char>,
    pub authorization: Seq<char>,
    pub biscuit: Option<Seq<char>>,
    pub resource_id: Option<Seq<char>>,
    pub sql_text: Seq<char>,
}

/// The view of a text that may be absent.
pub open spec fn optional_text(text: Option<String>) -> Option<Seq<char>> {
    match text {
        Some(text) => Some(text@),
        None => None,
    }
}

impl View for Request {
    type V = RequestView;

    open spec fn view(&self) -> RequestView {
        RequestView {
            url: self.url@,
            authorization: self.authorization@,
            biscuit: optional_text(self.biscuit),
            resource_id: optional_text(self.resource_id),
            sql_text: self.sql_text@,
        }
    }
}

/// The address of the endpoint that executes data definition statements.
pub open spec fn ddl_url(api_url: Seq<char>) -> Seq<char> {
    api_url + "/v1/sql/ddl"@
}

/// The address of the endpoint that executes data manipulation statements.
pub open spec fn dml_url(api_url: Seq<char>) -> Seq<char> {
    api_url + "/v1/sql/dml"@
}

/// The address of the endpoint that executes queries.
pub open spec fn dql_url(api_url: Seq<char>) -> Seq<char> {
    api_url + "/v1/sql/dql"@
}

/// The `authorization` header for a bearer access token.
pub open spec fn bearer(access_token: Seq<char>) -> Seq<char> {
    "Bearer "@ + access_token
}

/// The name of the resource of a schema and an environment: both in upper
/// case, the table being `EVENTS_` and the environment.
pub open spec fn resource_name_text(schema_name: Seq<char>, env: Seq<char>) -> Seq<char> {
    uppercase(schema_name) + ".EVENTS_"@ + uppercase(env)
}

/// The statement that creates the events table of a resource and registers
/// the resource's public key as its verification key.
pub open spec fn create_table_sql(resource_name: Seq<char>, public_key: Seq<char>) -> Seq<char> {
    "CREATE TABLE "@ + resource_name
        + " (ID INT NOT NULL PRIMARY KEY, PUBLISHER_ID INT, DECK_ID INT, EVENT_TYPE VARCHAR, EVENT_TIMESTAMP TIMESTAMP, PUBLIC_KEY_STRING VARCHAR, SIGNED_TIMESTAMP VARCHAR, TIMESTAMP_UTC_START_SESSION VARCHAR, TIMESTAMP_UTC_END_SESSION VARCHAR) WITH \"template=partitioned,backups=1,public_key="@
        + public_key + ",access_type=public_append\""@
}

/// The query for the number of events of each type on each of the last seven
/// days.
pub open spec fn stats_sql(resource_name: Seq<char>) -> Seq<char> {
    "SELECT DATE(event_timestamp) AS date, event_type, COUNT(*) as count FROM "@ + resource_name
        + " WHERE event_timestamp >= NOW() - INTERVAL '7 days' GROUP BY date, event_type ORDER BY date, event_type;"@
}

/// The values of one row of the events table that vary from row to row.
#[derive(Debug)]
pub struct EventRow {
    pub id: i32,
    pub publisher_id: i64,
    pub deck_id: i64,
    pub event_type: String,
    pub event_timestamp: String,
}

/// The values of a row as plain values.
pub struct EventRowView {
    pub id: int,
    pub publisher_id: int,
    pub deck_id: int,
    pub event_type: Seq<char>,
    pub event_timestamp: Seq<char>,
}

impl View for EventRow {
    type V = EventRowView;

    open spec fn view(&self) -> EventRowView {
        EventRowView {
            id: self.id as int,
            publisher_id: self.publisher_id as int,
            deck_id: self.deck_id as int,
            event_type: self.event_type@,
            event_timestamp: self.event_timestamp@,
        }
    }
}

/// The statement that inserts one row.
pub open spec fn insert_sql(
    resource_name: Seq<char>,
    id: int,
    publisher_id: int,
    deck_id: int,
    event_type: Seq<char>,
    event_timestamp: Seq<char>,
) -> Seq<char> {
    "INSERT INTO "@ + resource_name
        + " (ID, PUBLISHER_ID, DECK_ID, EVENT_TYPE, EVENT_TIMESTAMP, PUBLIC_KEY_STRING, SIGNED_TIMESTAMP, TIMESTAMP_UTC_START_SESSION, TIMESTAMP_UTC_END_SESSION) VALUES ('"@
        + decimal(id) + "', '"@ + decimal(publisher_id) + "', '"@ + decimal(deck_id) + "', '"@
        + event_type + "', '"@ + event_timestamp
        + "', '0xF4E20531CD11Fb8b70896AA9710FeDbEb9be87c3', '0x5f9e3a4a', '23-03-1990', '19-04-1990')"@
}

/// The request that creates a schema: bearer token only.
pub open spec fn create_schema_view(
    schema_name: Seq<char>,
    api_url: Seq<char>,
    access_token: Seq<char>,
) -> RequestView {
    RequestView {
        url: ddl_url(api_url),
        authorization: bearer(access_token),
        biscuit: None,
        resource_id: None,
        sql_text: "CREATE SCHEMA "@ + schema_name,
    }
}

/// The request that drops a schema: bearer token only.
pub open spec fn drop_schema_view(
    schema_name: Seq<char>,
    api_url: Seq<char>,
    access_token: Seq<char>,
) -> RequestView {
    RequestView {
        url: ddl_url(api_url),
        authorization: bearer(access_token),
        biscuit: None,
        resource_id: None,
        sql_text: "DROP SCHEMA "@ + schema_name,
    }
}

/// The request that creates the table of a resource.
pub open spec fn create_table_view(
    resource_name: Seq<char>,
    public_key: Seq<char>,
    api_url: Seq<char>,
    access_token: Seq<char>,
    biscuit: Seq<char>,
) -> RequestView {
    RequestView {
        url: ddl_url(api_url),
        authorization: bearer(access_token),
        biscuit: Some(biscuit),
        resource_id: Some(resource_name),
        sql_text: create_table_sql(resource_name, public_key),
    }
}

/// The request that inserts one row into a resource.
pub open spec fn insert_row_view(
    resource_name: Seq<char>,
    api_url: Seq<char>,
    access_token: Seq<char>,
    biscuit: Seq<char>,
    row: EventRowView,
) -> RequestView {
    RequestView {
        url: dml_url(api_url),
        authorization: bearer(access_token),
        biscuit: Some(biscuit),
        resource_id: Some(resource_name),
        sql_text: insert_sql(
            resource_name,
            row.id,
            row.publisher_id,
            row.deck_id,
            row.event_type,
            row.event_timestamp,
        ),
    }
}

/// The request that queries the statistics of a resource.
pub open spec fn stats_view(
    resource_name: Seq<char>,
    api_url: Seq<char>,
    access_token: Seq<char>,
    biscuit: Seq<char>,
) -> RequestView {
    RequestView {
        url: dql_url(api_url),
        authorization: bearer(access_token),
        biscuit: Some(biscuit),
        resource_id: Some(resource_name),
        sql_text: stats_sql(resource_name),
    }
}

/// Three texts, one after the other.
pub(crate) fn enclose(head: &str, middle: &str, tail: &str) -> (text: String)
    ensures
        text@ == head@ + middle@ + tail@,
{
    let mut text = String::from_str(head);
    text.append(middle);
    text.append(tail);
    text
}

/// The `authorization` header for a bearer access token.
pub(crate) fn bearer_header(access_token: &str) -> (header: String)
    ensures
        header@ == bearer(access_token@),
{
    let mut header = String::from_str("Bearer ");
    header.append(access_token);
    header
}

/// Joins a schema and an environment, both as they are, to the name of a
/// resource: the schema, a dot, and the table `EVENTS_` with the environment.
pub fn joined_resource_name(schema_name: &str, env: &str) -> (name: String)
    ensures
        name@ == schema_name@ + ".EVENTS_"@ + env@,
{
    enclose(schema_name, ".EVENTS_", env)
}

/// The name of the resource of a schema and an environment: both are put in
/// upper case and joined.
pub fn resource_name(schema_name: &str, env: &str) -> (name: String)
    ensures
        name@ == resource_name_text(schema_name@, env@),
{
    let schema = to_uppercase(schema_name);
    let raised = to_uppercase(env);
    joined_resource_name(schema.as_str(), raised.as_str())
}

/// Composes the request that creates a schema.
pub fn create_schema(schema_name: &str, api_url: &str, access_token: &str) -> (request: Request)
    ensures
        request@ == create_schema_view(schema_name@, api_url@, access_token@),
{
    Request {
        url: join(api_url, "/v1/sql/ddl"),
        authorization: bearer_header(access_token),
        biscuit: None,
        resource_id: None,
        sql_text: join("CREATE SCHEMA ", schema_name),
    }
}

/// Composes the request that drops a schema.
pub fn drop_schema(schema_name: &str, api_url: &str, access_token: &str) -> (request: Request)
    ensures
        request@ == drop_schema_view(schema_name@, api_url@, access_token@),
{
    Request {
        url: join(api_url, "/v1/sql/ddl"),
        authorization: bearer_header(access_token),
        biscuit: None,
        resource_id: None,
        sql_text: join("DROP SCHEMA ", schema_name),
    }
}

/// Composes the request that creates the table of a resource. The request
/// carries the resource's capability token, and its statement registers the
/// resource's public key.
pub fn create_table_request(
    resource_name: &str,
    public_key: &str,
    api_url: &str,
    access_token: &str,
    biscuit: &str,
) -> (request: Request)
    ensures
        request@ == create_table_view(
            resource_name@,
            public_key@,
            api_url@,
            access_token@,
            biscuit@,
        ),
{
    let mut sql_text = enclose(
        "CREATE TABLE ",
        resource_name,
        " (ID INT NOT NULL PRIMARY KEY, PUBLISHER_ID INT, DECK_ID INT, EVENT_TYPE VARCHAR, EVENT_TIMESTAMP TIMESTAMP, PUBLIC_KEY_STRING VARCHAR, SIGNED_TIMESTAMP VARCHAR, TIMESTAMP_UTC_START_SESSION VARCHAR, TIMESTAMP_UTC_END_SESSION VARCHAR) WITH \"template=partitioned,backups=1,public_key=",
    );
    sql_text.append(public_key);
    sql_text.append(",access_type=public_append\"");
    Request {
        url: join(api_url, "/v1/sql/ddl"),
        authorization: bearer_header(access_token),
        biscuit: Some(String::from_str(biscuit)),
        resource_id: Some(String::from_str(resource_name)),
        sql_text,
    }
}

/// Composes the request that inserts one row into a resource.
pub fn insert_row_request(
    resource_name: &str,
    api_url: &str,
    access_token: &str,
    biscuit: &str,
    row: &EventRow,
) -> (request: Request)
    ensures
        request@ == insert_row_view(resource_name@, api_url@, access_token@, biscuit@, row@),
{
    let id = decimal_text(row.id as i64);
    let publisher_id = decimal_text(row.publisher_id);
    let deck_id = decimal_text(row.deck_id);
    let mut sql_text = enclose(
        "INSERT INTO ",
        resource_name,
        " (ID, PUBLISHER_ID, DECK_ID, EVENT_TYPE, EVENT_TIMESTAMP, PUBLIC_KEY_STRING, SIGNED_TIMESTAMP, TIMESTAMP_UTC_START_SESSION, TIMESTAMP_UTC_END_SESSION) VALUES ('",
    );
    sql_text.append(id.as_str());
    sql_text.append("', '");
    sql_text.append(publisher_id.as_str());
    sql_text.append("', '");
    sql_text.append(deck_id.as_str());
    sql_text.append("', '");
    sql_text.append(row.event_type.as_str());
    sql_text.append("', '");
    sql_text.append(row.event_timestamp.as_str());
    sql_text.append(
        "', '0xF4E20531CD11Fb8b70896AA9710FeDbEb9be87c3', '0x5f9e3a4a', '23-03-1990', '19-04-1990')",
    );
    Request {
        url: join(api_url, "/v1/sql/dml"),
        authorization: bearer_header(access_token),
        biscuit: Some(String::from_str(biscuit)),
        resource_id: Some(String::from_str(resource_name)),
        sql_text,
    }
}

/// What the platform's answer to a request means for the operation: a
/// request that was not accepted is a rejection, and nothing else is.
pub fn remote_outcome(accepted: bool) -> (res: Result<(), ProvisionError>)
    ensures
        accepted <==> res is Ok,
        res matches Err(error) ==> error == ProvisionError::RemoteRejected,
{
    if accepted {
        Ok(())
    } else {
        Err(ProvisionError::RemoteRejected)
    }
}

} // verus!
