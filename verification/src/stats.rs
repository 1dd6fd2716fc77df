//! Statistics of a resource: the query for the events of the last seven
//! days, and the order in which its rows are shown. The caller sends the
//! query and prints the table; what is sent and what is shown is decided
//! here.
//!
//! Rows are shown by date; within a date the start of a deck comes first,
//! then its end, then the views of an advertisement, then every other kind
//! of event, and the clicks on an advertisement last.

use crate::error::ProvisionError;
use crate::requests::{bearer_header, enclose, stats_view, Request};
use crate::text::join;
use vstd::prelude::*;
use vstd::set_lib::{lemma_int_range, lemma_subset_equality, set_int_range};
use vstd::utf8::encode_utf8;

verus! {

/// One row of the statistics: how often a kind of event occurred on a date.
#[derive(Debug)]
pub struct EventCount {
    pub date: String,
    pub event_type: String,
    pub count: i32,
}

/// A row as plain values.
pub struct EventCountView {
    pub date: Seq<char>,
    pub event_type: Seq<char>,
    pub count: int,
}

impl View for EventCount {
    type V = EventCountView;

    open spec fn view(&self) -> EventCountView {
        EventCountView { date: self.date@, event_type: self.event_type@, count: self.count as int }
    }
}

impl EventCount {
    /// A copy of the row.
    pub fn duplicate(&self) -> (copy: EventCount)
        ensures
            copy == *self,
    {
        EventCount {
            date: self.date.clone(),
            event_type: self.event_type.clone(),
            count: self.count,
        }
    }
}

/// The views of a list of rows, in order.
pub open spec fn row_views(rows: Seq<EventCount>) -> Seq<EventCountView> {
    Seq::new(rows.len(), |i: int| rows[i]@)
}

/// The place of a kind of event among the rows of one date.
pub open spec fn event_rank(event_type: Seq<char>) -> int {
    if event_type == "deck_start"@ {
        0
    } else if event_type == "deck_end"@ {
        1
    } else if event_type == "ad_view"@ {
        2
    } else if event_type == "ad_click"@ {
        4
    } else {
        3
    }
}

/// Whether one byte string comes before another in the order of the
/// standard library's strings: byte by byte, a proper prefix first.
pub open spec fn bytes_before(left: Seq<u8>, right: Seq<u8>) -> bool
    decreases left.len(),
{
    if right.len() == 0 {
        false
    } else if left.len() == 0 {
        true
    } else if left[0] != right[0] {
        left[0] < right[0]
    } else {
        bytes_before(left.drop_first(), right.drop_first())
    }
}

/// What a row is sorted by: the bytes of its date, then the rank of its
/// kind of event.
pub open spec fn sort_key(row: EventCountView) -> (Seq<u8>, int) {
    (encode_utf8(row.date), event_rank(row.event_type))
}

/// Whether one key comes before another.
pub open spec fn key_before(left: (Seq<u8>, int), right: (Seq<u8>, int)) -> bool {
    bytes_before(left.0, right.0) || (left.0 == right.0 && left.1 < right.1)
}

/// Whether `output` holds the rows of `input` sorted by key, each taken from
/// the place `origin` names, rows of equal key in the order they had.
pub open spec fn sorts(
    input: Seq<EventCountView>,
    output: Seq<EventCountView>,
    origin: Seq<int>,
) -> bool {
    &&& output.len() == input.len()
    &&& origin.len() == input.len()
    &&& forall|k: int|
        0 <= k < output.len() ==> 0 <= #[trigger] origin[k] < input.len() && output[k]
            == input[origin[k]]
    &&& forall|k: int, l: int|
        0 <= k < l < output.len() ==> key_before(
            sort_key(#[trigger] output[k]),
            sort_key(#[trigger] output[l]),
        ) || (sort_key(output[k]) == sort_key(output[l]) && origin[k] < origin[l])
}

/// Whether `output` is `input` in display order: sorted by key, rows of
/// equal key in the order in which they came.
pub open spec fn in_display_order(input: Seq<EventCountView>, output: Seq<EventCountView>) -> bool {
    exists|origin: Seq<int>| sorts(input, output, origin)
}

/// Of two different byte strings one comes before the other, and never both.
pub proof fn lemma_bytes_order_is_total(left: Seq<u8>, right: Seq<u8>)
    ensures
        left == right ==> !bytes_before(left, right),
        left != right ==> (bytes_before(left, right) <==> !bytes_before(right, left)),
    decreases left.len(),
{
    if left.len() == 0 || right.len() == 0 {
        if left.len() == 0 && right.len() == 0 {
            assert(left =~= right);
        }
    } else if left[0] == right[0] {
        lemma_bytes_order_is_total(left.drop_first(), right.drop_first());
        if left.drop_first() == right.drop_first() {
            assert(left =~= seq![left[0]] + left.drop_first());
            assert(right =~= seq![right[0]] + right.drop_first());
        }
    }
}

/// The order of byte strings is transitive.
pub proof fn lemma_bytes_order_is_transitive(first: Seq<u8>, second: Seq<u8>, third: Seq<u8>)
    requires
        bytes_before(first, second),
        bytes_before(second, third),
    ensures
        bytes_before(first, third),
    decreases first.len(),
{
    if first.len() > 0 && first[0] == second[0] && second[0] == third[0] {
        lemma_bytes_order_is_transitive(
            first.drop_first(),
            second.drop_first(),
            third.drop_first(),
        );
    }
}

/// The order of keys is strict and transitive, and of two different keys one
/// comes before the other.
pub proof fn lemma_key_order(first: (Seq<u8>, int), second: (Seq<u8>, int), third: (Seq<u8>, int))
    ensures
        !key_before(first, first),
        key_before(first, second) ==> !key_before(second, first),
        key_before(first, second) && key_before(second, third) ==> key_before(first, third),
        first != second ==> key_before(first, second) || key_before(second, first),
{
    lemma_bytes_order_is_total(first.0, first.0);
    lemma_bytes_order_is_total(first.0, second.0);
    lemma_bytes_order_is_total(second.0, third.0);
    lemma_bytes_order_is_total(first.0, third.0);
    if bytes_before(first.0, second.0) && bytes_before(second.0, third.0) {
        lemma_bytes_order_is_transitive(first.0, second.0, third.0);
    }
}

/// A display order uses every row of the input exactly once.
pub proof fn lemma_origin_is_a_permutation(
    input: Seq<EventCountView>,
    output: Seq<EventCountView>,
    origin: Seq<int>,
)
    requires
        sorts(input, output, origin),
    ensures
        origin.no_duplicates(),
        forall|i: int| 0 <= i < input.len() ==> origin.contains(i),
{
    let count = input.len() as int;
    assert forall|k: int, l: int|
        0 <= k < origin.len() && 0 <= l < origin.len() && k != l implies origin[k]
        != origin[l] by {
        if origin[k] == origin[l] {
            let key = sort_key(output[k]);
            assert(output[k] == input[origin[k]]);
            assert(output[l] == input[origin[l]]);
            lemma_key_order(key, key, key);
            if k < l {
                assert(key_before(sort_key(output[k]), sort_key(output[l])) || origin[k]
                    < origin[l]);
            } else {
                assert(key_before(sort_key(output[l]), sort_key(output[k])) || origin[l]
                    < origin[k]);
            }
        }
    }
    origin.unique_seq_to_set();
    lemma_int_range(0, count);
    vstd::seq_lib::seq_to_set_is_finite(origin);
    assert forall|i: int| origin.to_set().contains(i) implies set_int_range(0, count).contains(
        i,
    ) by {
        let k = choose|k: int| 0 <= k < origin.len() && origin[k] == i;
        assert(0 <= origin[k] < input.len());
    }
    lemma_subset_equality(origin.to_set(), set_int_range(0, count));
    assert forall|i: int| 0 <= i < input.len() implies origin.contains(i) by {
        assert(set_int_range(0, count).contains(i));
        assert(origin.to_set().contains(i));
    }
}

/// Two display orders of one input take their first rows from the same
/// places.
proof fn lemma_origins_agree(
    input: Seq<EventCountView>,
    first: Seq<EventCountView>,
    first_origin: Seq<int>,
    second: Seq<EventCountView>,
    second_origin: Seq<int>,
    upto: int,
)
    requires
        sorts(input, first, first_origin),
        sorts(input, second, second_origin),
        0 <= upto <= input.len(),
    ensures
        forall|j: int| 0 <= j < upto ==> first_origin[j] == second_origin[j],
    decreases upto,
{
    if upto > 0 {
        let at = upto - 1;
        lemma_origins_agree(input, first, first_origin, second, second_origin, at);
        let mine = first_origin[at];
        let theirs = second_origin[at];
        if mine != theirs {
            lemma_origin_is_a_permutation(input, first, first_origin);
            lemma_origin_is_a_permutation(input, second, second_origin);
            assert(0 <= mine < input.len());
            assert(0 <= theirs < input.len());
            // Where the second order holds the row that the first has here.
            assert(second_origin.contains(mine));
            let later = choose|p: int| 0 <= p < second_origin.len() && second_origin[p] == mine;
            if later < at {
                assert(first_origin[later] == second_origin[later]);
            }
            assert(at < later);
            // Where the first order holds the row that the second has here.
            assert(first_origin.contains(theirs));
            let other = choose|q: int| 0 <= q < first_origin.len() && first_origin[q] == theirs;
            if other < at {
                assert(first_origin[other] == second_origin[other]);
            }
            assert(at < other);
            let my_key = sort_key(input[mine]);
            let their_key = sort_key(input[theirs]);
            assert(first[at] == input[mine] && first[other] == input[theirs]);
            assert(second[at] == input[theirs] && second[later] == input[mine]);
            assert(key_before(sort_key(first[at]), sort_key(first[other])) || (sort_key(first[at])
                == sort_key(first[other]) && first_origin[at] < first_origin[other]));
            assert(key_before(sort_key(second[at]), sort_key(second[later])) || (sort_key(
                second[at],
            ) == sort_key(second[later]) && second_origin[at] < second_origin[later]));
            lemma_key_order(my_key, their_key, my_key);
            lemma_key_order(their_key, my_key, their_key);
            assert(false);
        }
    }
}

/// The display order of a list of rows is unique: whatever puts the rows
/// in display order arrives at the same list.
pub proof fn lemma_display_order_is_unique(
    input: Seq<EventCountView>,
    first: Seq<EventCountView>,
    second: Seq<EventCountView>,
)
    requires
        in_display_order(input, first),
        in_display_order(input, second),
    ensures
        first == second,
{
    let first_origin = choose|origin: Seq<int>| sorts(input, first, origin);
    let second_origin = choose|origin: Seq<int>| sorts(input, second, origin);
    lemma_origins_agree(input, first, first_origin, second, second_origin, input.len() as int);
    assert forall|k: int| 0 <= k < first.len() implies first[k] == second[k] by {
        assert(first[k] == input[first_origin[k]]);
        assert(second[k] == input[second_origin[k]]);
    }
    assert(first =~= second);
}

/// In a display order no row stands before a row that its key puts it
/// after.
pub proof fn lemma_display_order_is_sorted(
    input: Seq<EventCountView>,
    output: Seq<EventCountView>,
    k: int,
    l: int,
)
    requires
        in_display_order(input, output),
        0 <= k < l < output.len(),
    ensures
        !key_before(sort_key(output[l]), sort_key(output[k])),
{
    let origin = choose|origin: Seq<int>| sorts(input, output, origin);
    assert(key_before(sort_key(output[k]), sort_key(output[l])) || (sort_key(output[k])
        == sort_key(output[l]) && origin[k] < origin[l]));
    lemma_key_order(sort_key(output[k]), sort_key(output[l]), sort_key(output[k]));
}

/// Whether the first byte string comes before the second.
fn date_before(left: &[u8], right: &[u8]) -> (before: bool)
    ensures
        before == bytes_before(left@, right@),
{
    let mut index: usize = 0;
    assert(left@.skip(0) =~= left@);
    assert(right@.skip(0) =~= right@);
    while index < left.len() && index < right.len()
        invariant
            index <= left@.len(),
            index <= right@.len(),
            bytes_before(left@, right@) == bytes_before(
                left@.skip(index as int),
                right@.skip(index as int),
            ),
        decreases left@.len() - index,
    {
        let ghost rest_left = left@.skip(index as int);
        let ghost rest_right = right@.skip(index as int);
        assert(rest_left[0] == left@[index as int]);
        assert(rest_right[0] == right@[index as int]);
        assert(rest_left.drop_first() =~= left@.skip(index as int + 1));
        assert(rest_right.drop_first() =~= right@.skip(index as int + 1));
        if left[index] != right[index] {
            return left[index] < right[index];
        }
        index += 1;
    }
    assert(left@.skip(index as int).len() == left@.len() - index);
    assert(right@.skip(index as int).len() == right@.len() - index);
    index < right.len()
}

/// The rank of a kind of event.
fn rank_of(event_type: &String) -> (rank: u8)
    ensures
        rank == event_rank(event_type@),
{
    if *event_type == String::from_str("deck_start") {
        0
    } else if *event_type == String::from_str("deck_end") {
        1
    } else if *event_type == String::from_str("ad_view") {
        2
    } else if *event_type == String::from_str("ad_click") {
        4
    } else {
        3
    }
}

/// Whether the first row is shown before the second by its key.
pub fn shown_before(left: &EventCount, right: &EventCount) -> (before: bool)
    ensures
        before == key_before(sort_key(left@), sort_key(right@)),
{
    let left_date = left.date.as_str().as_bytes();
    let right_date = right.date.as_str().as_bytes();
    if date_before(left_date, right_date) {
        true
    } else if date_before(right_date, left_date) {
        proof {
            lemma_bytes_order_is_total(left_date@, right_date@);
        }
        false
    } else {
        proof {
            lemma_bytes_order_is_total(left_date@, right_date@);
        }
        rank_of(&left.event_type) < rank_of(&right.event_type)
    }
}

/// Puts the rows of the statistics in display order.
///
/// The rows come out sorted by date and, within a date, by the rank of
/// their kind of event. Rows that agree in both keep the order in which
/// they came, so the outcome is the same whenever the input is.
pub fn sort_events(events: &Vec<EventCount>) -> (sorted: Vec<EventCount>)
    ensures
        in_display_order(row_views(events@), row_views(sorted@)),
{
    let mut sorted: Vec<EventCount> = Vec::new();
    let ghost mut origin: Seq<int> = Seq::empty();
    let mut taken: usize = 0;
    while taken < events.len()
        invariant
            taken <= events@.len(),
            sorted@.len() == taken,
            origin.len() == taken,
            forall|k: int|
                0 <= k < taken ==> 0 <= #[trigger] origin[k] < taken && sorted@[k]@
                    == events@[origin[k]]@,
            forall|k: int, l: int|
                0 <= k < l < taken ==> key_before(
                    sort_key(#[trigger] sorted@[k]@),
                    sort_key(#[trigger] sorted@[l]@),
                ) || (sort_key(sorted@[k]@) == sort_key(sorted@[l]@) && origin[k] < origin[l]),
        decreases events@.len() - taken,
    {
        let item = events[taken].duplicate();
        let mut place: usize = sorted.len();
        loop
            invariant
                place <= sorted@.len(),
                forall|l: int|
                    place <= l < sorted@.len() ==> key_before(
                        sort_key(item@),
                        sort_key(#[trigger] sorted@[l]@),
                    ),
            ensures
                place <= sorted@.len(),
                forall|l: int|
                    place <= l < sorted@.len() ==> key_before(
                        sort_key(item@),
                        sort_key(#[trigger] sorted@[l]@),
                    ),
                place > 0 ==> !key_before(sort_key(item@), sort_key(sorted@[place - 1]@)),
            decreases place,
        {
            if place == 0 {
                break ;
            }
            if !shown_before(&item, &sorted[place - 1]) {
                break ;
            }
            place -= 1;
        }
        let ghost before = sorted@;
        let ghost before_origin = origin;
        let ghost key = sort_key(item@);
        sorted.insert(place, item);
        proof {
            origin = before_origin.insert(place as int, taken as int);
            assert forall|k: int| 0 <= k < taken + 1 implies 0 <= #[trigger] origin[k] < taken + 1
                && sorted@[k]@ == events@[origin[k]]@ by {
                if k < place {
                    assert(sorted@[k] == before[k]);
                    assert(origin[k] == before_origin[k]);
                } else if k > place {
                    assert(sorted@[k] == before[k - 1]);
                    assert(origin[k] == before_origin[k - 1]);
                }
            }
            assert forall|k: int, l: int| 0 <= k < l < taken + 1 implies key_before(
                sort_key(#[trigger] sorted@[k]@),
                sort_key(#[trigger] sorted@[l]@),
            ) || (sort_key(sorted@[k]@) == sort_key(sorted@[l]@) && origin[k] < origin[l]) by {
                if l < place {
                    assert(sorted@[k] == before[k] && sorted@[l] == before[l]);
                    assert(origin[k] == before_origin[k] && origin[l] == before_origin[l]);
                } else if k > place {
                    assert(sorted@[k] == before[k - 1] && sorted@[l] == before[l - 1]);
                    assert(origin[k] == before_origin[k - 1] && origin[l] == before_origin[l - 1]);
                } else if k == place {
                    assert(sorted@[l] == before[l - 1]);
                } else if l == place {
                    // The row before the place does not come after the new
                    // one, and everything further left does not come after
                    // that row.
                    let last = sort_key(before[place - 1]@);
                    let this = sort_key(before[k]@);
                    assert(sorted@[k] == before[k]);
                    assert(origin[k] == before_origin[k]);
                    assert(origin[l] == taken);
                    lemma_key_order(last, key, this);
                    lemma_key_order(this, last, key);
                    if k < place - 1 {
                        assert(key_before(this, last) || (this == last && before_origin[k]
                            < before_origin[place - 1]));
                    }
                } else {
                    assert(sorted@[k] == before[k]);
                    assert(sorted@[l] == before[l - 1]);
                    assert(origin[k] == before_origin[k]);
                    assert(origin[l] == before_origin[l - 1]);
                }
            }
        }
        taken += 1;
    }
    proof {
        let input = row_views(events@);
        let output = row_views(sorted@);
        assert forall|k: int| 0 <= k < output.len() implies 0 <= #[trigger] origin[k] < input.len()
            && output[k] == input[origin[k]] by {
            assert(sorted@[k]@ == events@[origin[k]]@);
        }
        assert forall|k: int, l: int| 0 <= k < l < output.len() implies key_before(
            sort_key(#[trigger] output[k]),
            sort_key(#[trigger] output[l]),
        ) || (sort_key(output[k]) == sort_key(output[l]) && origin[k] < origin[l]) by {
            assert(output[k] == sorted@[k]@);
            assert(output[l] == sorted@[l]@);
        }
        assert(sorts(input, output, origin));
    }
    sorted
}

/// Composes the query for the statistics of a resource.
pub fn stats_request(
    resource_name: &str,
    api_url: &str,
    access_token: &str,
    biscuit: &str,
) -> (request: Request)
    ensures
        request@ == stats_view(resource_name@, api_url@, access_token@, biscuit@),
{
    Request {
        url: join(api_url, "/v1/sql/dql"),
        authorization: bearer_header(access_token),
        biscuit: Some(String::from_str(biscuit)),
        resource_id: Some(String::from_str(resource_name)),
        sql_text: enclose(
            "SELECT DATE(event_timestamp) AS date, event_type, COUNT(*) as count FROM ",
            resource_name,
            " WHERE event_timestamp >= NOW() - INTERVAL '7 days' GROUP BY date, event_type ORDER BY date, event_type;",
        ),
    }
}

/// How far the showing of statistics has come.
#[derive(Clone, Copy, Debug, PartialEq, Eq, Structural)]
pub enum StatsState {
    /// Nothing has been sent.
    Pending,
    /// The query is on its way.
    AwaitingRows,
    /// The rows have been handed out for showing.
    Shown,
    /// The query was rejected, or its answer could not be used.
    Failed,
}

/// Why statistics could not be shown.
#[derive(Clone, Copy, Debug, PartialEq, Eq, Structural)]
pub enum StatsFailure {
    /// The platform did not answer the query with success.
    Provisioning(ProvisionError),
    /// The answer did not hold rows of a date, a kind of event and a count.
    MalformedAnswer,
}

impl StatsFailure {
    /// The text shown to the operator, naming the step that failed.
    pub open spec fn message_text(self) -> Seq<char> {
        match self {
            StatsFailure::Provisioning(error) => error.message_text(),
            StatsFailure::MalformedAnswer => "statistics: malformed answer"@,
        }
    }

    pub fn message(&self) -> (text: String)
        ensures
            text@ == self.message_text(),
    {
        match self {
            StatsFailure::Provisioning(error) => error.message(),
            StatsFailure::MalformedAnswer => String::from_str("statistics: malformed answer"),
        }
    }
}

/// What the caller reports to the next step.
#[derive(Debug)]
pub enum StatsEvent {
    /// The showing begins.
    Start,
    /// The platform answered the query with these rows.
    RowsReceived(Vec<EventCount>),
    /// The platform answered the query with anything but success, or the
    /// query could not be sent.
    RemoteRejected,
    /// The platform answered with success, but not with rows of the
    /// expected shape.
    Malformed,
}

/// What a step asks the caller to do.
pub enum StatsAction {
    /// Send the query and report the rows that come back.
    Query(Request),
    /// Show these rows, from top to bottom.
    Show(Vec<EventCount>),
    /// The showing is over and nothing is shown; report the failure.
    Abort(StatsFailure),
    /// The event does not belong to the state; nothing has changed.
    Ignore,
}

/// What one step of showing the statistics of a resource does.
///
/// The query names the resource and carries both credentials. The rows that
/// the platform answers with are shown in display order: every row once,
/// sorted by date and then by the rank of its kind of event, rows that agree
/// in both in the order in which they came. A rejected query ends the
/// showing with `RemoteRejected`, an answer of the wrong shape with
/// `MalformedAnswer`; in neither case is anything shown.
pub open spec fn stats_step(
    resource_name: Seq<char>,
    api_url: Seq<char>,
    access_token: Seq<char>,
    biscuit: Seq<char>,
    before: StatsState,
    event: StatsEvent,
    after: StatsState,
    action: StatsAction,
) -> bool {
    match (before, event) {
        (StatsState::Pending, StatsEvent::Start) => {
            &&& after == StatsState::AwaitingRows
            &&& action matches StatsAction::Query(request)
            &&& request@ == stats_view(resource_name, api_url, access_token, biscuit)
        },
        (StatsState::AwaitingRows, StatsEvent::RowsReceived(rows)) => {
            &&& after == StatsState::Shown
            &&& action matches StatsAction::Show(shown)
            &&& in_display_order(row_views(rows@), row_views(shown@))
        },
        (StatsState::AwaitingRows, StatsEvent::RemoteRejected) => {
            &&& after == StatsState::Failed
            &&& action matches StatsAction::Abort(failure)
            &&& failure == StatsFailure::Provisioning(ProvisionError::RemoteRejected)
        },
        (StatsState::AwaitingRows, StatsEvent::Malformed) => {
            &&& after == StatsState::Failed
            &&& action matches StatsAction::Abort(failure)
            &&& failure == StatsFailure::MalformedAnswer
        },
        _ => after == before && action is Ignore,
    }
}

/// Takes one step of showing the statistics of a resource: first the query,
/// then, on the platform's answer, the rows in the order in which they are
/// shown.
pub fn print_stats(
    resource_name: &str,
    api_url: &str,
    access_token: &str,
    biscuit: &str,
    state: StatsState,
    event: StatsEvent,
) -> (next: (StatsState, StatsAction))
    ensures
        stats_step(
            resource_name@,
            api_url@,
            access_token@,
            biscuit@,
            state,
            event,
            next.0,
            next.1,
        ),
{
    match (state, event) {
        (StatsState::Pending, StatsEvent::Start) => (
            StatsState::AwaitingRows,
            StatsAction::Query(stats_request(resource_name, api_url, access_token, biscuit)),
        ),
        (StatsState::AwaitingRows, StatsEvent::RowsReceived(rows)) => (
            StatsState::Shown,
            StatsAction::Show(sort_events(&rows)),
        ),
        (StatsState::AwaitingRows, StatsEvent::RemoteRejected) => (
            StatsState::Failed,
            StatsAction::Abort(StatsFailure::Provisioning(ProvisionError::RemoteRejected)),
        ),
        (StatsState::AwaitingRows, StatsEvent::Malformed) => (
            StatsState::Failed,
            StatsAction::Abort(StatsFailure::MalformedAnswer),
        ),
        _ => (state, StatsAction::Ignore),
    }
}

/// What is shown for the rows of an answer is one list and no other: any
/// two steps that show the same rows show them in the same order.
pub proof fn lemma_shown_rows_are_determined(
    rows: Seq<EventCount>,
    first: Seq<EventCount>,
    second: Seq<EventCount>,
)
    requires
        in_display_order(row_views(rows), row_views(first)),
        in_display_order(row_views(rows), row_views(second)),
    ensures
        row_views(first) == row_views(second),
{
    lemma_display_order_is_unique(row_views(rows), row_views(first), row_views(second));
}

} // verus!
