//! Provisioning of a resource, step by step.
//!
//! A resource goes from `Unprovisioned` through `KeysGenerated`,
//! `TokenMinted`, `RemoteCreated` and `PersistedLocally` to `Ready`. The
//! steps that need the network or the disk are handed to the caller as
//! actions; the caller reports their outcome as the next event. Nothing is
//! written locally before the platform has accepted the resource.

use crate::capability::{
    create_biscuit, fact_views, minted_facts, signed_by, CapabilityToken, ResourceKeyPair,
};
use crate::encoding::hex_lower;
use crate::signing::ed25519_public_key;
use crate::error::{ProvisionError, TokenError};
use crate::record::{
    decoded, encode_record, encoded, load_record, ResourceConfig, ResourceConfigView,
};
use crate::requests::{
    create_table_request, create_table_sql, create_table_view, resource_name, resource_name_text,
    Request,
};
use vstd::prelude::*;

verus! {

/// What is fixed for one provisioning run.
pub struct TablePlan {
    pub schema_name: String,
    /// The environment that the table serves; the local record is kept under
    /// it.
    pub env: String,
    pub api_url: String,
    pub access_token: String,
}

impl TablePlan {
    /// The name of the resource that the plan provisions.
    pub open spec fn resource(&self) -> Seq<char> {
        resource_name_text(self.schema_name@, self.env@)
    }
}

/// Where a resource stands, without the data that belongs to the stage.
#[derive(Clone, Copy, Debug, PartialEq, Eq, Structural)]
pub enum Stage {
    Unprovisioned,
    KeysGenerated,
    TokenMinted,
    RemoteCreated,
    PersistedLocally,
    Ready,
    /// The platform holds the resource, the local record was not written.
    Unrecorded,
    /// The run ended before the platform created anything.
    Failed,
}

/// Why a provisioning run ended early.
#[derive(Clone, Copy, Debug, PartialEq, Eq, Structural)]
pub enum Failure {
    Minting(TokenError),
    Provisioning(ProvisionError),
}

/// Where a resource stands, with what has been made for it so far.
pub enum Provisioning {
    Unprovisioned,
    KeysGenerated { keys: ResourceKeyPair },
    TokenMinted { keys: ResourceKeyPair, token: CapabilityToken },
    RemoteCreated { record: ResourceConfig },
    PersistedLocally { record: ResourceConfig },
    Ready { record: ResourceConfig },
    /// The platform has created the resource but the local record could not
    /// be written. The record is kept so that it can be stored by hand.
    Unrecorded { record: ResourceConfig },
    /// The run ended before the platform created anything; nothing durable
    /// exists.
    Failed { failure: Failure },
}

/// What the caller reports to the next step.
#[derive(Clone, Copy, Debug, PartialEq, Eq, Structural)]
pub enum ProvisionEvent {
    /// The run begins.
    Start,
    /// The previous step asked to be called again.
    Continue,
    /// The platform answered the create-table request with success.
    RemoteAccepted,
    /// The platform answered the create-table request with anything else.
    RemoteRejected,
    /// The record was written to local storage.
    RecordWritten,
    /// The record could not be written to local storage.
    RecordNotWritten,
}

/// What a step asks the caller to do.
pub enum ProvisionAction {
    /// Call the next step with `Continue`.
    Proceed,
    /// Send the request and report how the platform answered.
    SendCreateTable(Request),
    /// Store the document under the environment and report whether it was
    /// written.
    WriteRecord { env: String, document: String },
    /// The resource is ready.
    Finish,
    /// The run is over; report the failure.
    Abort(Failure),
    /// The event does not belong to the stage; nothing has changed.
    Ignore,
}

/// The kind of an action, without its data.
#[derive(Clone, Copy, Debug, PartialEq, Eq, Structural)]
pub enum ActionTag {
    Proceed,
    SendCreateTable,
    WriteRecord,
    Finish,
    Abort,
    Ignore,
}

impl Provisioning {
    pub open spec fn stage(&self) -> Stage {
        match self {
            Provisioning::Unprovisioned => Stage::Unprovisioned,
            Provisioning::KeysGenerated { .. } => Stage::KeysGenerated,
            Provisioning::TokenMinted { .. } => Stage::TokenMinted,
            Provisioning::RemoteCreated { .. } => Stage::RemoteCreated,
            Provisioning::PersistedLocally { .. } => Stage::PersistedLocally,
            Provisioning::Ready { .. } => Stage::Ready,
            Provisioning::Unrecorded { .. } => Stage::Unrecorded,
            Provisioning::Failed { .. } => Stage::Failed,
        }
    }

    /// The record of a resource on which rows may be inserted and queries
    /// run: only a resource that is `Ready` has one.
    pub fn ready_record(&self) -> (record: Option<&ResourceConfig>)
        ensures
            match record {
                Some(record) => *self == (Provisioning::Ready { record: *record }),
                None => self.stage() != Stage::Ready,
            },
    {
        match self {
            Provisioning::Ready { record } => Some(record),
            _ => None,
        }
    }
}

impl ProvisionAction {
    pub open spec fn tag(&self) -> ActionTag {
        match self {
            ProvisionAction::Proceed => ActionTag::Proceed,
            ProvisionAction::SendCreateTable(_) => ActionTag::SendCreateTable,
            ProvisionAction::WriteRecord { .. } => ActionTag::WriteRecord,
            ProvisionAction::Finish => ActionTag::Finish,
            ProvisionAction::Abort(_) => ActionTag::Abort,
            ProvisionAction::Ignore => ActionTag::Ignore,
        }
    }
}

/// The steps that a resource can take: from a stage, on an event, to the
/// next stage, with the kind of action that is asked of the caller. An event
/// that does not belong to the stage changes nothing.
pub open spec fn stage_step(
    before: Stage,
    event: ProvisionEvent,
    after: Stage,
    action: ActionTag,
) -> bool {
    match (before, event) {
        (Stage::Unprovisioned, ProvisionEvent::Start) => after == Stage::KeysGenerated && action
            == ActionTag::Proceed,
        (Stage::KeysGenerated, ProvisionEvent::Continue) => (after == Stage::TokenMinted && action
            == ActionTag::SendCreateTable) || (after == Stage::Failed && action
            == ActionTag::Abort),
        (Stage::TokenMinted, ProvisionEvent::RemoteAccepted) => (after == Stage::RemoteCreated
            && action == ActionTag::WriteRecord) || (after == Stage::Unrecorded && action
            == ActionTag::Abort),
        (Stage::TokenMinted, ProvisionEvent::RemoteRejected) => after == Stage::Failed && action
            == ActionTag::Abort,
        (Stage::RemoteCreated, ProvisionEvent::RecordWritten) => after == Stage::PersistedLocally
            && action == ActionTag::Proceed,
        (Stage::RemoteCreated, ProvisionEvent::RecordNotWritten) => after == Stage::Unrecorded
            && action == ActionTag::Abort,
        (Stage::PersistedLocally, ProvisionEvent::Continue) => after == Stage::Ready && action
            == ActionTag::Finish,
        _ => after == before && action == ActionTag::Ignore,
    }
}

/// The record of a resource made from its name, its key pair and its token.
pub open spec fn record_view(
    resource: Seq<char>,
    keys: ResourceKeyPair,
    token: CapabilityToken,
) -> ResourceConfigView {
    ResourceConfigView {
        resource_name: resource,
        table_private_key: hex_lower(keys.private_key@),
        table_public_key: hex_lower(keys.public_key@),
        biscuit: token.encoded@,
    }
}

/// What one step does, data included.
pub open spec fn provisioning_step(
    plan: &TablePlan,
    before: Provisioning,
    event: ProvisionEvent,
    after: Provisioning,
    action: ProvisionAction,
) -> bool {
    match (before, event) {
        (Provisioning::Unprovisioned, ProvisionEvent::Start) => {
            &&& after matches Provisioning::KeysGenerated { keys }
            &&& keys.well_formed()
            &&& action is Proceed
        },
        (Provisioning::KeysGenerated { keys }, ProvisionEvent::Continue) => match after {
            Provisioning::TokenMinted { keys: kept, token } => {
                &&& kept == keys
                &&& fact_views(token.facts@) == minted_facts(plan.resource())
                &&& signed_by(
                    token.encoded@,
                    minted_facts(plan.resource()),
                    ed25519_public_key(keys.private_key@),
                )
                &&& action matches ProvisionAction::SendCreateTable(request)
                &&& request@ == create_table_view(
                    plan.resource(),
                    hex_lower(keys.public_key@),
                    plan.api_url@,
                    plan.access_token@,
                    token.encoded@,
                )
            },
            Provisioning::Failed { failure } => {
                &&& failure == Failure::Minting(TokenError::SigningFailure)
                &&& action == ProvisionAction::Abort(failure)
            },
            _ => false,
        },
        (Provisioning::TokenMinted { keys, token }, ProvisionEvent::RemoteAccepted) => match after {
            Provisioning::RemoteCreated { record } => {
                &&& record@ == record_view(plan.resource(), keys, token)
                &&& action matches ProvisionAction::WriteRecord { env, document }
                &&& env@ == plan.env@
                &&& encoded(record@) == Ok::<Seq<char>, ProvisionError>(document@)
            },
            Provisioning::Unrecorded { record } => {
                &&& record@ == record_view(plan.resource(), keys, token)
                &&& encoded(record@) is Err
                &&& action == ProvisionAction::Abort(
                    Failure::Provisioning(ProvisionError::PersistFailure),
                )
            },
            _ => false,
        },
        (Provisioning::TokenMinted { .. }, ProvisionEvent::RemoteRejected) => {
            &&& after == (Provisioning::Failed {
                failure: Failure::Provisioning(ProvisionError::RemoteRejected),
            })
            &&& action == ProvisionAction::Abort(
                Failure::Provisioning(ProvisionError::RemoteRejected),
            )
        },
        (Provisioning::RemoteCreated { record }, ProvisionEvent::RecordWritten) => {
            &&& after == (Provisioning::PersistedLocally { record })
            &&& action is Proceed
        },
        (Provisioning::RemoteCreated { record }, ProvisionEvent::RecordNotWritten) => {
            &&& after == (Provisioning::Unrecorded { record })
            &&& action == ProvisionAction::Abort(
                Failure::Provisioning(ProvisionError::PersistFailure),
            )
        },
        (Provisioning::PersistedLocally { record }, ProvisionEvent::Continue) => {
            &&& after == (Provisioning::Ready { record })
            &&& action is Finish
        },
        _ => after == before && action is Ignore,
    }
}

/// Every step with its data is one of the steps that the stages allow, so
/// what holds of all runs of stages holds of all runs of `create_table`.
pub proof fn lemma_steps_follow_the_stages(
    plan: &TablePlan,
    before: Provisioning,
    event: ProvisionEvent,
    after: Provisioning,
    action: ProvisionAction,
)
    requires
        provisioning_step(plan, before, event, after, action),
    ensures
        stage_step(before.stage(), event, after.stage(), action.tag()),
{
}

/// Takes one step of provisioning the table of a schema and an environment.
///
/// The key pair is generated and the token minted before the create-table
/// request is composed, so that the request can carry the token and register
/// the public key. The record is handed out for writing only when the
/// platform has accepted the request.
pub fn create_table(plan: &TablePlan, state: Provisioning, event: ProvisionEvent) -> (next: (
    Provisioning,
    ProvisionAction,
))
    ensures
        provisioning_step(plan, state, event, next.0, next.1),
        stage_step(state.stage(), event, next.0.stage(), next.1.tag()),
{
    match (state, event) {
        (Provisioning::Unprovisioned, ProvisionEvent::Start) => {
            let keys = ResourceKeyPair::generate();
            (Provisioning::KeysGenerated { keys }, ProvisionAction::Proceed)
        },
        (Provisioning::KeysGenerated { keys }, ProvisionEvent::Continue) => {
            let name = resource_name(plan.schema_name.as_str(), plan.env.as_str());
            match create_biscuit(name.as_str(), &keys) {
                Ok(token) => {
                    let public_key = keys.public_hex();
                    let request = create_table_request(
                        name.as_str(),
                        public_key.as_str(),
                        plan.api_url.as_str(),
                        plan.access_token.as_str(),
                        token.encoded.as_str(),
                    );
                    (
                        Provisioning::TokenMinted { keys, token },
                        ProvisionAction::SendCreateTable(request),
                    )
                },
                Err(error) => {
                    let failure = Failure::Minting(error);
                    (Provisioning::Failed { failure }, ProvisionAction::Abort(failure))
                },
            }
        },
        (Provisioning::TokenMinted { keys, token }, ProvisionEvent::RemoteAccepted) => {
            let record = ResourceConfig {
                resource_name: resource_name(plan.schema_name.as_str(), plan.env.as_str()),
                table_private_key: keys.private_hex(),
                table_public_key: keys.public_hex(),
                biscuit: token.encoded,
            };
            match encode_record(&record) {
                Ok(document) => (
                    Provisioning::RemoteCreated { record },
                    ProvisionAction::WriteRecord { env: plan.env.clone(), document },
                ),
                Err(error) => (
                    Provisioning::Unrecorded { record },
                    ProvisionAction::Abort(Failure::Provisioning(error)),
                ),
            }
        },
        (Provisioning::TokenMinted { .. }, ProvisionEvent::RemoteRejected) => {
            let failure = Failure::Provisioning(ProvisionError::RemoteRejected);
            (Provisioning::Failed { failure }, ProvisionAction::Abort(failure))
        },
        (Provisioning::RemoteCreated { record }, ProvisionEvent::RecordWritten) => (
            Provisioning::PersistedLocally { record },
            ProvisionAction::Proceed,
        ),
        (Provisioning::RemoteCreated { record }, ProvisionEvent::RecordNotWritten) => (
            Provisioning::Unrecorded { record },
            ProvisionAction::Abort(Failure::Provisioning(ProvisionError::PersistFailure)),
        ),
        (Provisioning::PersistedLocally { record }, ProvisionEvent::Continue) => (
            Provisioning::Ready { record },
            ProvisionAction::Finish,
        ),
        (state, _) => (state, ProvisionAction::Ignore),
    }
}

/// Takes up a resource that an earlier invocation has provisioned, from
/// what the local store returned for its environment. A stored record makes
/// the resource `Ready`; without one there is nothing to work on.
pub fn resume(stored: Option<&str>) -> (res: Result<Provisioning, ProvisionError>)
    ensures
        match res {
            Ok(state) => {
                &&& state matches Provisioning::Ready { record }
                &&& stored matches Some(document)
                &&& decoded(document@) == Ok::<ResourceConfigView, ProvisionError>(record@)
            },
            Err(error) => {
                &&& error == ProvisionError::ConfigMissing
                &&& stored matches Some(document) ==> decoded(document@) is Err
            },
        },
{
    match load_record(stored) {
        Ok(record) => Ok(Provisioning::Ready { record }),
        Err(error) => Err(error),
    }
}

/// A successful run is of one piece. The key pair that is generated is a
/// pair; the request that is sent names the resource, carries the minted
/// token and registers the public half of the pair; that token holds the
/// facts of the resource and is signed with that very pair; and the document
/// that is handed out for writing reads back to a record with that same name
/// and that same token, and with the two halves of that key pair in
/// hexadecimal.
pub proof fn lemma_written_record_is_what_was_sent(
    plan: &TablePlan,
    generated: Provisioning,
    first: ProvisionAction,
    minted: Provisioning,
    second: ProvisionAction,
    created: Provisioning,
    third: ProvisionAction,
)
    requires
        provisioning_step(
            plan,
            Provisioning::Unprovisioned,
            ProvisionEvent::Start,
            generated,
            first,
        ),
        provisioning_step(plan, generated, ProvisionEvent::Continue, minted, second),
        second is SendCreateTable,
        provisioning_step(plan, minted, ProvisionEvent::RemoteAccepted, created, third),
        third is WriteRecord,
    ensures
        ({
            &&& generated matches Provisioning::KeysGenerated { keys }
            &&& second matches ProvisionAction::SendCreateTable(request)
            &&& third matches ProvisionAction::WriteRecord { env, document }
            &&& decoded(document@) matches Ok(read)
            &&& keys.well_formed()
            &&& env@ == plan.env@
            &&& request@.resource_id == Some(read.resource_name)
            &&& request@.biscuit == Some(read.biscuit)
            &&& request@.sql_text == create_table_sql(plan.resource(), read.table_public_key)
            &&& signed_by(read.biscuit, minted_facts(plan.resource()), keys.public_key@)
            &&& read.resource_name == plan.resource()
            &&& read.table_public_key == hex_lower(keys.public_key@)
            &&& read.table_private_key == hex_lower(keys.private_key@)
        }),
{
}

/// A run of provisioning: the stages that a resource went through, starting
/// at `Unprovisioned`, with the event reported and the kind of action asked
/// at every step.
pub open spec fn is_run(
    stages: Seq<Stage>,
    events: Seq<ProvisionEvent>,
    actions: Seq<ActionTag>,
) -> bool {
    &&& stages.len() == events.len() + 1
    &&& actions.len() == events.len()
    &&& stages[0] == Stage::Unprovisioned
    &&& forall|i: int|
        0 <= i < events.len() ==> stage_step(
            stages[i],
            events[i],
            stages[i + 1],
            #[trigger] actions[i],
        )
}

/// Whether the create-table request was asked to be sent before step `at`.
pub open spec fn sent_before(actions: Seq<ActionTag>, at: int) -> bool {
    exists|j: int| 0 <= j < at && actions[j] == ActionTag::SendCreateTable
}

/// Whether, before step `at`, the record was handed out for writing on the
/// platform's report of success.
pub open spec fn accepted_before(
    events: Seq<ProvisionEvent>,
    actions: Seq<ActionTag>,
    at: int,
) -> bool {
    exists|j: int|
        0 <= j < at && actions[j] == ActionTag::WriteRecord && events[j]
            == ProvisionEvent::RemoteAccepted
}

/// Whether the caller reported before step `at` that the record was written.
pub open spec fn written_before(events: Seq<ProvisionEvent>, stages: Seq<Stage>, at: int) -> bool {
    exists|j: int|
        0 <= j < at && events[j] == ProvisionEvent::RecordWritten && stages[j]
            == Stage::RemoteCreated
}

/// What the stage reached after `at` steps tells of the steps before.
proof fn lemma_history(
    stages: Seq<Stage>,
    events: Seq<ProvisionEvent>,
    actions: Seq<ActionTag>,
    at: int,
)
    requires
        is_run(stages, events, actions),
        0 <= at <= events.len(),
    ensures
        stages[at] == Stage::TokenMinted || stages[at] == Stage::RemoteCreated || stages[at]
            == Stage::PersistedLocally || stages[at] == Stage::Ready || stages[at]
            == Stage::Unrecorded ==> sent_before(actions, at),
        stages[at] == Stage::RemoteCreated || stages[at] == Stage::PersistedLocally || stages[at]
            == Stage::Ready ==> accepted_before(events, actions, at),
        stages[at] == Stage::PersistedLocally || stages[at] == Stage::Ready ==> written_before(
            events,
            stages,
            at,
        ),
        stages[at] == Stage::Unprovisioned || stages[at] == Stage::KeysGenerated || stages[at]
            == Stage::TokenMinted || stages[at] == Stage::Failed ==> forall|j: int|
            0 <= j < at ==> #[trigger] actions[j] != ActionTag::WriteRecord,
    decreases at,
{
    if at > 0 {
        let last = at - 1;
        lemma_history(stages, events, actions, last);
        assert(stage_step(stages[last], events[last], stages[last + 1], actions[last]));
        if sent_before(actions, last) {
            let j = choose|j: int| 0 <= j < last && actions[j] == ActionTag::SendCreateTable;
            assert(0 <= j < at && actions[j] == ActionTag::SendCreateTable);
        }
        if accepted_before(events, actions, last) {
            let j = choose|j: int|
                0 <= j < last && actions[j] == ActionTag::WriteRecord && events[j]
                    == ProvisionEvent::RemoteAccepted;
            assert(0 <= j < at && actions[j] == ActionTag::WriteRecord && events[j]
                == ProvisionEvent::RemoteAccepted);
        }
        if written_before(events, stages, last) {
            let j = choose|j: int|
                0 <= j < last && events[j] == ProvisionEvent::RecordWritten && stages[j]
                    == Stage::RemoteCreated;
            assert(0 <= j < at && events[j] == ProvisionEvent::RecordWritten && stages[j]
                == Stage::RemoteCreated);
        }
        if actions[last] == ActionTag::SendCreateTable {
            assert(0 <= last < at && actions[last] == ActionTag::SendCreateTable);
        }
        if actions[last] == ActionTag::WriteRecord {
            assert(0 <= last < at && actions[last] == ActionTag::WriteRecord && events[last]
                == ProvisionEvent::RemoteAccepted);
        }
        if events[last] == ProvisionEvent::RecordWritten && stages[last] == Stage::RemoteCreated {
            assert(0 <= last < at && events[last] == ProvisionEvent::RecordWritten && stages[last]
                == Stage::RemoteCreated);
        }
        if stages[at] == Stage::Unprovisioned || stages[at] == Stage::KeysGenerated || stages[at]
            == Stage::TokenMinted || stages[at] == Stage::Failed {
            assert forall|j: int| 0 <= j < at implies #[trigger] actions[j]
                != ActionTag::WriteRecord by {
                if j < last {
                    assert(actions[j] != ActionTag::WriteRecord);
                }
            }
        }
    }
}

/// Provisioning is sequential. In every run, whatever the events:
/// the create-table request is sent only by the step that has just minted
/// the token; the record is handed out for writing only on the platform's
/// report of success for a request that was sent before; the run finishes
/// only after the record was reported written; and a run that failed before
/// the platform created the resource never handed out a record.
pub proof fn lemma_provisioning_is_sequential(
    stages: Seq<Stage>,
    events: Seq<ProvisionEvent>,
    actions: Seq<ActionTag>,
    at: int,
)
    requires
        is_run(stages, events, actions),
        0 <= at < actions.len(),
    ensures
        actions[at] == ActionTag::SendCreateTable ==> stages[at] == Stage::KeysGenerated
            && stages[at + 1] == Stage::TokenMinted,
        actions[at] == ActionTag::WriteRecord ==> events[at] == ProvisionEvent::RemoteAccepted
            && stages[at + 1] == Stage::RemoteCreated && sent_before(actions, at),
        actions[at] == ActionTag::Finish ==> stages[at + 1] == Stage::Ready && accepted_before(
            events,
            actions,
            at,
        ) && written_before(events, stages, at),
        stages[at + 1] == Stage::Failed ==> forall|j: int|
            0 <= j <= at ==> #[trigger] actions[j] != ActionTag::WriteRecord,
{
    lemma_history(stages, events, actions, at);
    lemma_history(stages, events, actions, at + 1);
    assert(stage_step(stages[at], events[at], stages[at + 1], actions[at]));
}

} // verus!
