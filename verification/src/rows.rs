//! Loading rows into a resource: one request per row, one after the other.
//!
//! A row gets a random id and a random timestamp. When the platform rejects
//! a request the run ends there; the rows accepted before stay inserted.

use crate::error::ProvisionError;
use crate::requests::{insert_row_request, insert_row_view, EventRow, EventRowView, Request};
use crate::tables::{Provisioning, Stage};
use rand::Rng;
use vstd::prelude::*;

verus! {

/// The first second of the window from which timestamps are drawn:
/// 2023-06-03 00:00:00 UTC, in seconds since 1970.
pub const WINDOW_START: i64 = 1685750400;

/// The last second of the window from which timestamps are drawn:
/// 2023-06-11 23:59:59 UTC, in seconds since 1970.
pub const WINDOW_END: i64 = 1686527999;

/// The last second of the year 9999, in seconds since 1970.
pub const LAST_FOUR_DIGIT_SECOND: i64 = 253402300799;

/// The text that `chrono` writes for a moment in UTC given in whole seconds
/// since 1970, in the format of RFC 3339.
pub uninterp spec fn rfc3339_utc(seconds: int) -> Seq<char>;

/// Calls `Rng::gen_range` of `rand` on the thread's generator with the
/// inclusive range, which must not be empty. The number drawn lies in the
/// range.
#[verifier::external_body]
pub(crate) fn random_between(low: i64, high: i64) -> (drawn: i64)
    requires
        low <= high,
    ensures
        low <= drawn <= high,
{
    rand::thread_rng().gen_range(low..=high)
}

/// Calls `DateTime::<Utc>::from_timestamp` of `chrono` with no nanoseconds,
/// and `to_rfc3339` on the moment. Moments up to the end of the year 9999
/// are in chrono's range.
#[verifier::external_body]
pub(crate) fn format_timestamp(seconds: i64) -> (text: Option<String>)
    ensures
        0 <= seconds <= LAST_FOUR_DIGIT_SECOND ==> text is Some,
        text matches Some(written) ==> written@ == rfc3339_utc(seconds as int),
{
    chrono::DateTime::<chrono::Utc>::from_timestamp(seconds, 0).map(|moment| moment.to_rfc3339())
}

/// Draws the id of a row: a positive 32-bit number.
pub fn random_i64() -> (id: i32)
    ensures
        1 <= id <= i32::MAX,
{
    let drawn = random_between(1, 2147483647);
    drawn as i32
}

/// Whether a text is the timestamp of a moment in the window.
pub open spec fn is_window_timestamp(text: Seq<char>) -> bool {
    exists|seconds: int| WINDOW_START <= seconds <= WINDOW_END && text == rfc3339_utc(seconds)
}

/// Writes a moment of the window as a timestamp. A moment outside the
/// window gets none.
pub fn postgresql_timestamp(seconds: i64) -> (text: Option<String>)
    ensures
        match text {
            Some(written) => WINDOW_START <= seconds <= WINDOW_END && written@ == rfc3339_utc(
                seconds as int,
            ),
            None => !(WINDOW_START <= seconds <= WINDOW_END),
        },
{
    if seconds < WINDOW_START || seconds > WINDOW_END {
        return None;
    }
    let written = format_timestamp(seconds).unwrap();
    Some(written)
}

/// Draws a moment in the window and writes it as a timestamp.
pub fn random_postgresql_timestamp() -> (text: String)
    ensures
        is_window_timestamp(text@),
{
    let seconds = random_between(WINDOW_START, WINDOW_END);
    postgresql_timestamp(seconds).unwrap()
}

/// What is fixed for one run of loading rows.
pub struct InsertJob {
    pub resource_name: String,
    pub api_url: String,
    pub access_token: String,
    pub biscuit: String,
    /// How many rows to insert; a number below one asks for none.
    pub table_rows: i8,
    pub publisher_id: i64,
    pub deck_id: i64,
    pub event_type: String,
}

impl InsertJob {
    /// The number of rows that the job asks for.
    pub open spec fn wanted(&self) -> nat {
        if self.table_rows > 0 {
            self.table_rows as nat
        } else {
            0
        }
    }

    /// Whether a row is one that the job may insert: its id is positive, its
    /// timestamp lies in the window, and the rest is as the job says.
    pub open spec fn admits(&self, row: EventRowView) -> bool {
        &&& 1 <= row.id <= i32::MAX
        &&& row.publisher_id == self.publisher_id
        &&& row.deck_id == self.deck_id
        &&& row.event_type == self.event_type@
        &&& is_window_timestamp(row.event_timestamp)
    }

    /// Whether a request inserts one row that the job admits, on the job's
    /// resource and with the job's credentials.
    pub open spec fn sends(&self, request: Request) -> bool {
        exists|row: EventRowView| #[trigger]
            self.admits(row) && request@ == insert_row_view(
                self.resource_name@,
                self.api_url@,
                self.access_token@,
                self.biscuit@,
                row,
            )
    }

    /// Makes the values of the next row: a random id and a random moment in
    /// the window.
    pub fn next_row(&self) -> (row: EventRow)
        ensures
            self.admits(row@),
    {
        EventRow {
            id: random_i64(),
            publisher_id: self.publisher_id,
            deck_id: self.deck_id,
            event_type: self.event_type.clone(),
            event_timestamp: random_postgresql_timestamp(),
        }
    }

    /// Composes the request for the next row.
    fn next_request(&self) -> (request: Request)
        ensures
            self.sends(request),
    {
        let row = self.next_row();
        let request = insert_row_request(
            self.resource_name.as_str(),
            self.api_url.as_str(),
            self.access_token.as_str(),
            self.biscuit.as_str(),
            &row,
        );
        assert(self.admits(row@));
        request
    }
}

/// Plans the loading of rows into a resource. Only a resource that is
/// `Ready` takes rows; the job gets its name and its capability token from
/// the resource's record.
pub fn insert_job(
    state: &Provisioning,
    api_url: &str,
    access_token: &str,
    table_rows: i8,
    publisher_id: i64,
    deck_id: i64,
    event_type: &str,
) -> (res: Result<InsertJob, ProvisionError>)
    ensures
        match res {
            Ok(job) => {
                &&& *state matches Provisioning::Ready { record }
                &&& job.resource_name@ == record.resource_name@
                &&& job.biscuit@ == record.biscuit@
                &&& job.api_url@ == api_url@
                &&& job.access_token@ == access_token@
                &&& job.table_rows == table_rows
                &&& job.publisher_id == publisher_id
                &&& job.deck_id == deck_id
                &&& job.event_type@ == event_type@
            },
            Err(error) => error == ProvisionError::ConfigMissing && state.stage() != Stage::Ready,
        },
{
    match state.ready_record() {
        Some(record) => Ok(
            InsertJob {
                resource_name: record.resource_name.clone(),
                api_url: String::from_str(api_url),
                access_token: String::from_str(access_token),
                biscuit: record.biscuit.clone(),
                table_rows,
                publisher_id,
                deck_id,
                event_type: String::from_str(event_type),
            },
        ),
        None => Err(ProvisionError::ConfigMissing),
    }
}

/// How far a run has come.
#[derive(Clone, Copy, Debug, PartialEq, Eq, Structural)]
pub enum InsertState {
    /// Nothing has been sent.
    Pending,
    /// A request is on its way; so many rows were accepted before it.
    Sending { accepted: u8 },
    /// All rows were accepted.
    Done { accepted: u8 },
    /// A request was rejected; so many rows were accepted before it.
    Failed { accepted: u8 },
}

/// What the caller reports to the next step.
#[derive(Clone, Copy, Debug, PartialEq, Eq, Structural)]
pub enum InsertEvent {
    /// The run begins.
    Start,
    /// The platform answered the last request with success.
    RemoteAccepted,
    /// The platform answered the last request with anything else, or the
    /// request could not be sent.
    RemoteRejected,
}

/// What a step asks the caller to do.
pub enum InsertAction {
    /// Send the request and report how the platform answered.
    SendRow(Request),
    /// All rows are inserted.
    Finish,
    /// The run is over; report the failure.
    Abort(ProvisionError),
    /// The event does not belong to the state; nothing has changed.
    Ignore,
}

/// The kind of an action, without its data.
#[derive(Clone, Copy, Debug, PartialEq, Eq, Structural)]
pub enum InsertTag {
    SendRow,
    Finish,
    Abort,
    Ignore,
}

impl InsertAction {
    pub open spec fn tag(&self) -> InsertTag {
        match self {
            InsertAction::SendRow(_) => InsertTag::SendRow,
            InsertAction::Finish => InsertTag::Finish,
            InsertAction::Abort(_) => InsertTag::Abort,
            InsertAction::Ignore => InsertTag::Ignore,
        }
    }
}

/// What one step does to the state, and the kind of action it asks for,
/// when `wanted` rows are to be inserted.
pub open spec fn insert_step(wanted: nat, state: InsertState, event: InsertEvent) -> (
    InsertState,
    InsertTag,
) {
    match (state, event) {
        (InsertState::Pending, InsertEvent::Start) => if wanted == 0 {
            (InsertState::Done { accepted: 0 }, InsertTag::Finish)
        } else {
            (InsertState::Sending { accepted: 0 }, InsertTag::SendRow)
        },
        (InsertState::Sending { accepted }, InsertEvent::RemoteAccepted) => if accepted + 1
            == wanted {
            (InsertState::Done { accepted: (accepted + 1) as u8 }, InsertTag::Finish)
        } else if accepted + 1 < wanted {
            (InsertState::Sending { accepted: (accepted + 1) as u8 }, InsertTag::SendRow)
        } else {
            (state, InsertTag::Ignore)
        },
        (InsertState::Sending { accepted }, InsertEvent::RemoteRejected) => (
            InsertState::Failed { accepted },
            InsertTag::Abort,
        ),
        _ => (state, InsertTag::Ignore),
    }
}

/// Takes one step of loading rows.
///
/// Every request inserts one row that the job admits. A rejection ends the
/// run with `RemoteRejected`; no request follows it.
pub fn insert_rows(job: &InsertJob, state: InsertState, event: InsertEvent) -> (next: (
    InsertState,
    InsertAction,
))
    ensures
        (next.0, next.1.tag()) == insert_step(job.wanted(), state, event),
        next.1 matches InsertAction::SendRow(request) ==> job.sends(request),
        next.1 matches InsertAction::Abort(error) ==> error == ProvisionError::RemoteRejected,
{
    let wanted: u8 = if job.table_rows > 0 {
        job.table_rows as u8
    } else {
        0
    };
    match (state, event) {
        (InsertState::Pending, InsertEvent::Start) => {
            if wanted == 0 {
                (InsertState::Done { accepted: 0 }, InsertAction::Finish)
            } else {
                (InsertState::Sending { accepted: 0 }, InsertAction::SendRow(job.next_request()))
            }
        },
        (InsertState::Sending { accepted }, InsertEvent::RemoteAccepted) => {
            if accepted >= wanted {
                (state, InsertAction::Ignore)
            } else if accepted + 1 == wanted {
                (InsertState::Done { accepted: accepted + 1 }, InsertAction::Finish)
            } else {
                (
                    InsertState::Sending { accepted: accepted + 1 },
                    InsertAction::SendRow(job.next_request()),
                )
            }
        },
        (InsertState::Sending { accepted }, InsertEvent::RemoteRejected) => (
            InsertState::Failed { accepted },
            InsertAction::Abort(ProvisionError::RemoteRejected),
        ),
        _ => (state, InsertAction::Ignore),
    }
}

/// The state that a run reaches on a sequence of events, with the kinds of
/// the actions that its steps asked for.
pub open spec fn insert_run(wanted: nat, events: Seq<InsertEvent>) -> (InsertState, Seq<InsertTag>)
    decreases events.len(),
{
    if events.len() == 0 {
        (InsertState::Pending, Seq::empty())
    } else {
        let before = insert_run(wanted, events.drop_last());
        let step = insert_step(wanted, before.0, events.last());
        (step.0, before.1.push(step.1))
    }
}

/// The events of a run in which the platform accepts so many requests.
pub open spec fn accepting(accepted: nat) -> Seq<InsertEvent> {
    seq![InsertEvent::Start] + Seq::new(accepted, |i: int| InsertEvent::RemoteAccepted)
}

/// The events of a run in which the platform rejects the request that
/// follows so many accepted ones.
pub open spec fn rejecting_after(accepted: nat) -> Seq<InsertEvent> {
    accepting(accepted).push(InsertEvent::RemoteRejected)
}

/// While fewer rows are accepted than wanted, the run keeps sending: after
/// `accepted` successes it has asked for one request more than that and
/// waits for its answer.
pub proof fn lemma_run_while_accepted(wanted: nat, accepted: nat)
    requires
        accepted < wanted <= 127,
    ensures
        insert_run(wanted, accepting(accepted)).0 == (InsertState::Sending {
            accepted: accepted as u8,
        }),
        insert_run(wanted, accepting(accepted)).1 == Seq::new(
            accepted + 1,
            |i: int| InsertTag::SendRow,
        ),
    decreases accepted,
{
    let events = accepting(accepted);
    if accepted == 0 {
        assert(events.drop_last() =~= Seq::<InsertEvent>::empty());
        assert(events.last() == InsertEvent::Start);
        assert(insert_run(wanted, events.drop_last()).0 == InsertState::Pending);
        assert(insert_run(wanted, events).1 =~= Seq::new(1, |i: int| InsertTag::SendRow));
    } else {
        let fewer = (accepted - 1) as nat;
        lemma_run_while_accepted(wanted, fewer);
        assert(events.drop_last() =~= accepting(fewer));
        assert(events.last() == InsertEvent::RemoteAccepted);
        assert(insert_run(wanted, events).1 =~= Seq::new(
            accepted + 1,
            |i: int| InsertTag::SendRow,
        ));
    }
}

/// A run whose `failing`-th request is rejected has sent exactly that many
/// requests, of which all before the last were accepted, and ends in failure:
/// its last action is `Abort`, and it never finishes.
pub proof fn lemma_rejection_ends_the_run(wanted: nat, failing: nat)
    requires
        1 <= failing <= wanted <= 127,
    ensures
        insert_run(wanted, rejecting_after((failing - 1) as nat)).0 == (InsertState::Failed {
            accepted: (failing - 1) as u8,
        }),
        insert_run(wanted, rejecting_after((failing - 1) as nat)).1 == Seq::new(
            failing,
            |i: int| InsertTag::SendRow,
        ).push(InsertTag::Abort),
{
    let accepted = (failing - 1) as nat;
    let events = rejecting_after(accepted);
    lemma_run_while_accepted(wanted, accepted);
    assert(events.drop_last() =~= accepting(accepted));
    assert(events.last() == InsertEvent::RemoteRejected);
}

/// A run in which every request is accepted sends one request per row
/// wanted and then finishes.
pub proof fn lemma_acceptance_completes_the_run(wanted: nat)
    requires
        1 <= wanted <= 127,
    ensures
        insert_run(wanted, accepting(wanted)).0 == (InsertState::Done { accepted: wanted as u8 }),
        insert_run(wanted, accepting(wanted)).1 == Seq::new(
            wanted,
            |i: int| InsertTag::SendRow,
        ).push(InsertTag::Finish),
{
    let fewer = (wanted - 1) as nat;
    let events = accepting(wanted);
    lemma_run_while_accepted(wanted, fewer);
    assert(events.drop_last() =~= accepting(fewer));
    assert(events.last() == InsertEvent::RemoteAccepted);
}

} // verus!
