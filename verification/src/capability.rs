//! Capability tokens: the fixed list of permission facts for one resource,
//! signed with the resource's root key pair and serialised as base64 text.

use crate::encoding::{hex_encode, hex_lower};
use crate::error::TokenError;
use crate::signing::{ed25519_public_key, KEY_BYTES};
use crate::text::{lowercase, to_lowercase};
use vstd::prelude::*;

verus! {

/// What the holder of a token may do to the resource.
#[derive(Clone, Copy, Debug, PartialEq, Eq, Structural)]
pub enum ActionKind {
    DdlCreate,
    DdlAlter,
    DdlDrop,
    DmlInsert,
    DqlSelect,
    StreamCreate,
    StreamRead,
    StreamUpdate,
}

impl ActionKind {
    /// The name under which the action is written into a token.
    pub open spec fn wire_name(self) -> Seq<char> {
        match self {
            ActionKind::DdlCreate => "ddl_create"@,
            ActionKind::DdlAlter => "ddl_alter"@,
            ActionKind::DdlDrop => "ddl_drop"@,
            ActionKind::DmlInsert => "dml_insert"@,
            ActionKind::DqlSelect => "dql_select"@,
            ActionKind::StreamCreate => "stream_create"@,
            ActionKind::StreamRead => "stream_read"@,
            ActionKind::StreamUpdate => "stream_update"@,
        }
    }

    /// The place of the action in the fixed order of a token.
    pub open spec fn position(self) -> int {
        match self {
            ActionKind::DdlCreate => 0,
            ActionKind::DdlAlter => 1,
            ActionKind::DdlDrop => 2,
            ActionKind::DmlInsert => 3,
            ActionKind::DqlSelect => 4,
            ActionKind::StreamCreate => 5,
            ActionKind::StreamRead => 6,
            ActionKind::StreamUpdate => 7,
        }
    }

    pub fn name(&self) -> (text: &'static str)
        ensures
            text@ == self.wire_name(),
    {
        match self {
            ActionKind::DdlCreate => "ddl_create",
            ActionKind::DdlAlter => "ddl_alter",
            ActionKind::DdlDrop => "ddl_drop",
            ActionKind::DmlInsert => "dml_insert",
            ActionKind::DqlSelect => "dql_select",
            ActionKind::StreamCreate => "stream_create",
            ActionKind::StreamRead => "stream_read",
            ActionKind::StreamUpdate => "stream_update",
        }
    }
}

/// The eight actions in the order in which a token lists them.
pub open spec fn all_actions() -> Seq<ActionKind> {
    seq![
        ActionKind::DdlCreate,
        ActionKind::DdlAlter,
        ActionKind::DdlDrop,
        ActionKind::DmlInsert,
        ActionKind::DqlSelect,
        ActionKind::StreamCreate,
        ActionKind::StreamRead,
        ActionKind::StreamUpdate,
    ]
}

/// One permission: an action allowed on a resource.
#[derive(Debug)]
pub struct PermissionFact {
    pub action: ActionKind,
    pub resource: String,
}

impl View for PermissionFact {
    type V = (ActionKind, Seq<char>);

    open spec fn view(&self) -> (ActionKind, Seq<char>) {
        (self.action, self.resource@)
    }
}

/// The views of a list of facts, in order.
pub open spec fn fact_views(facts: Seq<PermissionFact>) -> Seq<(ActionKind, Seq<char>)> {
    Seq::new(facts.len(), |i: int| facts[i]@)
}

/// The facts of a token for a resource whose name is already normalised:
/// every action once, in the fixed order, all on that one resource.
pub open spec fn capability_facts(resource: Seq<char>) -> Seq<(ActionKind, Seq<char>)> {
    Seq::new(all_actions().len(), |i: int| (all_actions()[i], resource))
}

/// The facts of the token that is minted for a resource name as given: the
/// name is put in lower case first.
pub open spec fn minted_facts(resource_name: Seq<char>) -> Seq<(ActionKind, Seq<char>)> {
    capability_facts(lowercase(resource_name))
}

/// Builds the list of facts for a resource whose name is taken as it is:
/// every action once, in the fixed order, all on that one name.
pub fn scoped_facts(resource: &str) -> (facts: Vec<PermissionFact>)
    ensures
        fact_views(facts@) == capability_facts(resource@),
{
    let actions = [
        ActionKind::DdlCreate,
        ActionKind::DdlAlter,
        ActionKind::DdlDrop,
        ActionKind::DmlInsert,
        ActionKind::DqlSelect,
        ActionKind::StreamCreate,
        ActionKind::StreamRead,
        ActionKind::StreamUpdate,
    ];
    assert(actions@ =~= all_actions());
    let mut facts: Vec<PermissionFact> = Vec::new();
    let mut index: usize = 0;
    while index < actions.len()
        invariant
            actions@ == all_actions(),
            index <= actions@.len(),
            facts@.len() == index,
            forall|k: int|
                0 <= k < index ==> (#[trigger] facts@[k])@ == (all_actions()[k], resource@),
        decreases actions@.len() - index,
    {
        facts.push(
            PermissionFact { action: actions[index], resource: String::from_str(resource) },
        );
        index += 1;
    }
    assert(fact_views(facts@) =~= capability_facts(resource@));
    facts
}

/// Builds the list of facts for a resource name, which is put in lower case.
pub fn permission_facts(resource_name: &str) -> (facts: Vec<PermissionFact>)
    ensures
        fact_views(facts@) == minted_facts(resource_name@),
{
    let scoped = to_lowercase(resource_name);
    scoped_facts(scoped.as_str())
}

/// A token holds exactly the eight kinds of action, each once and at its own
/// place, and every fact of it is scoped to the one resource.
pub proof fn lemma_capability_facts_are_the_eight(resource: Seq<char>)
    ensures
        capability_facts(resource).len() == 8,
        forall|i: int|
            0 <= i < 8 ==> (#[trigger] capability_facts(resource)[i]).1 == resource,
        forall|kind: ActionKind|
            0 <= #[trigger] kind.position() < 8 && capability_facts(resource)[kind.position()].0
                == kind,
        forall|i: int|
            0 <= i < 8 ==> (#[trigger] capability_facts(resource)[i]).0.position() == i,
{
}

/// The key pair that is the root of trust of one resource. Its secret half
/// signs the resource's token and never leaves the local record; its public
/// half is registered with the platform as the resource's verification key.
/// The type has no `Debug`, so that the secret half cannot end up in a log.
pub struct ResourceKeyPair {
    pub private_key: Vec<u8>,
    pub public_key: Vec<u8>,
}

impl ResourceKeyPair {
    /// Both halves have the length of an Ed25519 key, and the public half is
    /// the one that belongs to the secret half.
    pub open spec fn well_formed(&self) -> bool {
        &&& self.private_key@.len() == KEY_BYTES
        &&& self.public_key@.len() == KEY_BYTES
        &&& self.public_key@ == ed25519_public_key(self.private_key@)
    }

    /// Makes a fresh pair. Every call draws new key material, so no two
    /// resources share a root of trust.
    pub fn generate() -> (pair: ResourceKeyPair)
        ensures
            pair.well_formed(),
    {
        let (private_key, public_key) = generate_key_bytes();
        ResourceKeyPair { private_key, public_key }
    }

    /// The public half as lowercase hexadecimal text.
    pub fn public_hex(&self) -> (text: String)
        ensures
            text@ == hex_lower(self.public_key@),
    {
        hex_encode(self.public_key.as_slice())
    }

    /// The secret half as lowercase hexadecimal text.
    pub fn private_hex(&self) -> (text: String)
        ensures
            text@ == hex_lower(self.private_key@),
    {
        hex_encode(self.private_key.as_slice())
    }
}

/// A minted token: the facts it was built from, and the signed token in its
/// transportable base64 form. A token is never edited after minting.
pub struct CapabilityToken {
    pub facts: Vec<PermissionFact>,
    pub encoded: String,
}

impl CapabilityToken {
    /// A token is scoped to a single resource: its facts are the eight
    /// permissions on one and the same name, and its text is that of a
    /// signed token which holds exactly these facts and nothing besides.
    pub open spec fn well_formed(&self) -> bool {
        &&& exists|resource: Seq<char>| fact_views(self.facts@) == capability_facts(resource)
        &&& encodes(self.encoded@, fact_views(self.facts@))
    }
}

/// The name of the predicate under which every fact of a token is written.
pub open spec fn capability_predicate() -> Seq<char> {
    "sxt:capability"@
}

/// The facts as they are handed to the token builder: the predicate, then
/// the action's name and the resource as two string terms.
pub open spec fn wire_facts(facts: Seq<(ActionKind, Seq<char>)>) -> Seq<
    (Seq<char>, Seq<Seq<char>>),
> {
    Seq::new(
        facts.len(),
        |i: int| (capability_predicate(), seq![facts[i].0.wire_name(), facts[i].1]),
    )
}

/// The builder of `biscuit_auth` for the first block of a token. What it
/// holds is spoken of through `builder_facts` and `builder_rules`.
#[verifier::external_type_specification]
#[verifier::external_body]
pub struct ExBiscuitBuilder(biscuit_auth::builder::BiscuitBuilder);

/// A signed token of `biscuit_auth`, carried from building to serialising.
/// What it holds is spoken of through `token_facts`, `token_surplus`,
/// `token_root` and `token_text`.
#[verifier::external_type_specification]
#[verifier::external_body]
pub struct ExBiscuit(biscuit_auth::Biscuit);

/// The error of `biscuit_auth`; nothing of it is read.
#[verifier::external_type_specification]
#[verifier::external_body]
pub struct ExTokenError(biscuit_auth::error::Token);

/// The facts that a token builder holds, in the order in which they were
/// added: of each its predicate's name and the texts of its string terms.
pub uninterp spec fn builder_facts(builder: biscuit_auth::builder::BiscuitBuilder) -> Seq<
    (Seq<char>, Seq<Seq<char>>),
>;

/// The number of rules and checks that a token builder holds.
pub uninterp spec fn builder_rules(builder: biscuit_auth::builder::BiscuitBuilder) -> nat;

/// The facts of the first block of a signed token, in order: of each its
/// predicate's name and the texts of its string terms.
pub uninterp spec fn token_facts(token: biscuit_auth::Biscuit) -> Seq<(Seq<char>, Seq<Seq<char>>)>;

/// What a signed token holds beyond the facts of its first block: the number
/// of rules and checks of that block, and of blocks after it.
pub uninterp spec fn token_surplus(token: biscuit_auth::Biscuit) -> nat;

/// The public key of the key pair with which the first block of a signed
/// token was signed: the key under which the token is to be verified.
pub uninterp spec fn token_root(token: biscuit_auth::Biscuit) -> Seq<u8>;

/// The base64 text that `Biscuit::to_base64` writes for a signed token, or
/// `None` where it cannot serialise the token.
pub uninterp spec fn token_text(token: biscuit_auth::Biscuit) -> Option<Seq<char>>;

/// Whether a text is the serialised form of a signed token that holds
/// exactly the wire forms of the facts, in order, in its first block, and no
/// rule, check or further block.
pub open spec fn encodes(text: Seq<char>, facts: Seq<(ActionKind, Seq<char>)>) -> bool {
    exists|token: biscuit_auth::Biscuit|
        token_facts(token) == wire_facts(facts) && token_surplus(token) == 0
            && #[trigger] token_text(token) == Some(text)
}

/// Whether a text is the serialised form of a signed token that holds
/// exactly the facts and was signed with the key pair of the given public
/// key.
pub open spec fn signed_by(
    text: Seq<char>,
    facts: Seq<(ActionKind, Seq<char>)>,
    root_public_key: Seq<u8>,
) -> bool {
    exists|token: biscuit_auth::Biscuit|
        token_facts(token) == wire_facts(facts) && token_surplus(token) == 0 && token_root(token)
            == root_public_key && #[trigger] token_text(token) == Some(text)
}

/// A text that is signed with some key pair encodes the facts.
pub proof fn lemma_signed_text_encodes(
    text: Seq<char>,
    facts: Seq<(ActionKind, Seq<char>)>,
    root_public_key: Seq<u8>,
)
    requires
        signed_by(text, facts, root_public_key),
    ensures
        encodes(text, facts),
{
    let token = choose|token: biscuit_auth::Biscuit|
        token_facts(token) == wire_facts(facts) && token_surplus(token) == 0 && token_root(token)
            == root_public_key && #[trigger] token_text(token) == Some(text);
    assert(token_facts(token) == wire_facts(facts) && token_surplus(token) == 0 && token_text(token)
        == Some(text));
}

/// Calls `KeyPair::new`, which draws a secret key from the operating system's
/// random source and derives the public key from it, and hands out both
/// halves as bytes.
#[verifier::external_body]
pub(crate) fn generate_key_bytes() -> (halves: (Vec<u8>, Vec<u8>))
    ensures
        halves.0@.len() == KEY_BYTES,
        halves.1@.len() == KEY_BYTES,
        halves.1@ == ed25519_public_key(halves.0@),
{
    let root = biscuit_auth::KeyPair::new();
    (root.private().to_bytes().to_vec(), root.public().to_bytes().to_vec())
}

/// Calls `Biscuit::builder`, which starts with no facts, rules or checks.
#[verifier::external_body]
pub(crate) fn new_builder() -> (builder: biscuit_auth::builder::BiscuitBuilder)
    ensures
        builder_facts(builder) == Seq::<(Seq<char>, Seq<Seq<char>>)>::empty(),
        builder_rules(builder) == 0,
{
    biscuit_auth::Biscuit::builder()
}

/// Calls `BiscuitBuilder::add_fact` with a fact of two string terms, made
/// by `builder::fact` and `builder::string`. Adding a fact fails only where
/// the fact cannot be converted or has a parameter left open; a fact that is
/// handed over as a fact, with string terms alone, has neither. So the call
/// succeeds, and the fact is the last one of the builder. Rules and checks
/// are not touched.
#[verifier::external_body]
pub(crate) fn add_string_fact(
    builder: &mut biscuit_auth::builder::BiscuitBuilder,
    predicate: &str,
    first: &str,
    second: &str,
) -> (res: Result<(), biscuit_auth::error::Token>)
    ensures
        res is Ok,
        builder_facts(*final(builder)) == builder_facts(*old(builder)).push(
            (predicate@, seq![first@, second@]),
        ),
        builder_rules(*final(builder)) == builder_rules(*old(builder)),
{
    builder.add_fact(
        biscuit_auth::builder::fact(
            predicate,
            &[biscuit_auth::builder::string(first), biscuit_auth::builder::string(second)],
        ),
    )
}

/// Calls `PrivateKey::from_bytes`, which takes exactly 32 bytes of any
/// value, `KeyPair::from`, which derives the public half as `ed25519_dalek`
/// does, and `BiscuitBuilder::build` with that pair. Building makes the
/// first block of the builder's facts, rules and checks, in their order,
/// signs it with the pair, and adds no further block. The signature chain
/// goes on with a fresh random key, so the token differs from call to call;
/// whether building succeeds with a usable key is left open.
#[verifier::external_body]
pub(crate) fn build_signed(
    builder: biscuit_auth::builder::BiscuitBuilder,
    private_key: &[u8],
) -> (res: Result<biscuit_auth::Biscuit, biscuit_auth::error::Token>)
    ensures
        private_key@.len() != KEY_BYTES ==> res is Err,
        res matches Ok(token) ==> {
            &&& token_facts(token) == builder_facts(builder)
            &&& token_surplus(token) == builder_rules(builder)
            &&& token_root(token) == ed25519_public_key(private_key@)
        },
{
    let key = biscuit_auth::PrivateKey::from_bytes(private_key).map_err(
        biscuit_auth::error::Token::Format,
    )?;
    builder.build(&biscuit_auth::KeyPair::from(&key))
}

/// Calls `Biscuit::to_base64`, which serialises the token as base64 text.
/// The text depends on the token alone.
#[verifier::external_body]
pub(crate) fn token_to_base64(token: &biscuit_auth::Biscuit) -> (res: Result<
    String,
    biscuit_auth::error::Token,
>)
    ensures
        match res {
            Ok(text) => token_text(*token) == Some(text@),
            Err(_) => token_text(*token) is None,
        },
{
    token.to_base64()
}

/// Puts the facts into a new token builder, in order. Every list of facts
/// is taken: the builder that comes back holds exactly their wire forms, and
/// no rule or check.
pub(crate) fn fill_builder(facts: &Vec<PermissionFact>) -> (res: Result<
    biscuit_auth::builder::BiscuitBuilder,
    biscuit_auth::error::Token,
>)
    ensures
        res matches Ok(builder) && builder_facts(builder) == wire_facts(fact_views(facts@))
            && builder_rules(builder) == 0,
{
    let mut builder = new_builder();
    let mut index: usize = 0;
    while index < facts.len()
        invariant
            index <= facts@.len(),
            builder_facts(builder) == wire_facts(fact_views(facts@)).subrange(0, index as int),
            builder_rules(builder) == 0,
        decreases facts@.len() - index,
    {
        let fact = &facts[index];
        let added = add_string_fact(
            &mut builder,
            "sxt:capability",
            fact.action.name(),
            fact.resource.as_str(),
        );
        match added {
            Ok(_) => {},
            Err(error) => {
                // Not reached: a fact of string terms is always taken.
                return Err(error);
            },
        }
        proof {
            let wire = wire_facts(fact_views(facts@));
            assert(wire.subrange(0, index as int).push(wire[index as int]) =~= wire.subrange(
                0,
                index as int + 1,
            ));
        }
        index += 1;
    }
    proof {
        let wire = wire_facts(fact_views(facts@));
        assert(wire.subrange(0, index as int) =~= wire);
    }
    Ok(builder)
}

/// Signs the facts with the root key pair and serialises the token.
///
/// Whether signing succeeds is for the signing library to say. Where it
/// does, the text is that of a token which holds exactly these facts, in
/// order, and nothing besides, signed with the pair that belongs to the
/// root's secret key. A secret key of the wrong length is refused before
/// anything is signed.
pub fn sign_facts(facts: &Vec<PermissionFact>, root: &ResourceKeyPair) -> (res: Result<
    String,
    TokenError,
>)
    ensures
        res matches Ok(text) ==> signed_by(
            text@,
            fact_views(facts@),
            ed25519_public_key(root.private_key@),
        ),
        res matches Err(error) ==> error == TokenError::SigningFailure,
        root.private_key@.len() != KEY_BYTES ==> res is Err,
{
    let builder = match fill_builder(facts) {
        Ok(builder) => builder,
        Err(_) => {
            // Not reached: every list of facts is taken.
            return Err(TokenError::SigningFailure);
        },
    };
    let token = match build_signed(builder, root.private_key.as_slice()) {
        Ok(token) => token,
        Err(_) => {
            return Err(TokenError::SigningFailure);
        },
    };
    match token_to_base64(&token) {
        Ok(text) => Ok(text),
        Err(_) => Err(TokenError::SigningFailure),
    }
}

/// Joins the facts with the outcome of signing them: a token that carries
/// exactly these facts and the signed text, or the failure to sign. What the
/// text holds is for the caller to know; `create_biscuit` hands in the text
/// that `sign_facts` made of the same facts.
pub fn seal(facts: Vec<PermissionFact>, signed: Result<String, TokenError>) -> (res: Result<
    CapabilityToken,
    TokenError,
>)
    ensures
        match signed {
            Ok(text) => res matches Ok(token) && token.facts == facts && token.encoded == text,
            Err(error) => res == Err::<CapabilityToken, TokenError>(error),
        },
{
    match signed {
        Ok(encoded) => Ok(CapabilityToken { facts, encoded }),
        Err(error) => Err(error),
    }
}

/// Mints the capability token of a resource.
///
/// The token carries the eight permission facts, in their fixed order, all
/// scoped to the resource name in lower case. Its text is that of a signed
/// token which holds exactly these facts and nothing besides, signed with
/// the resource's own root key pair: the pair whose public half is derived
/// from the root's secret key. The facts do not depend on the key pair.
pub fn create_biscuit(resource_name: &str, root: &ResourceKeyPair) -> (res: Result<
    CapabilityToken,
    TokenError,
>)
    ensures
        res matches Ok(token) ==> {
            &&& token.well_formed()
            &&& fact_views(token.facts@) == minted_facts(resource_name@)
            &&& signed_by(
                token.encoded@,
                minted_facts(resource_name@),
                ed25519_public_key(root.private_key@),
            )
        },
        res matches Err(error) ==> error == TokenError::SigningFailure,
        root.private_key@.len() != KEY_BYTES ==> res is Err,
{
    let facts = permission_facts(resource_name);
    let signed = sign_facts(&facts, root);
    proof {
        if signed is Ok {
            lemma_signed_text_encodes(
                signed->Ok_0@,
                fact_views(facts@),
                ed25519_public_key(root.private_key@),
            );
        }
    }
    seal(facts, signed)
}

/// Minting is deterministic in structure: two tokens minted for the same
/// resource name carry the same facts in the same order, whichever key pairs
/// signed them.
pub proof fn lemma_minting_is_deterministic(
    resource_name: Seq<char>,
    first: Seq<PermissionFact>,
    second: Seq<PermissionFact>,
)
    requires
        fact_views(first) == minted_facts(resource_name),
        fact_views(second) == minted_facts(resource_name),
    ensures
        first.len() == second.len(),
        forall|i: int| 0 <= i < first.len() ==> (#[trigger] first[i])@ == second[i]@,
{
    assert(fact_views(first).len() == first.len());
    assert(fact_views(second).len() == second.len());
    assert forall|i: int| 0 <= i < first.len() implies (#[trigger] first[i])@ == second[i]@ by {
        assert(fact_views(first)[i] == first[i]@);
        assert(fact_views(second)[i] == second[i]@);
    }
}

} // verus!
