use flowaim::capability::{
    create_biscuit, permission_facts, scoped_facts, seal, sign_facts, ActionKind, PermissionFact,
    ResourceKeyPair,
};
use flowaim::error::TokenError;

const EIGHT: [ActionKind; 8] = [
    ActionKind::DdlCreate,
    ActionKind::DdlAlter,
    ActionKind::DdlDrop,
    ActionKind::DmlInsert,
    ActionKind::DqlSelect,
    ActionKind::StreamCreate,
    ActionKind::StreamRead,
    ActionKind::StreamUpdate,
];

fn pairs(facts: &[PermissionFact]) -> Vec<(ActionKind, String)> {
    facts
        .iter()
        .map(|fact| (fact.action, fact.resource.clone()))
        .collect()
}

#[test]
fn action_names_are_the_wire_names() {
    let names: Vec<&str> = EIGHT.iter().map(|kind| kind.name()).collect();
    assert_eq!(
        names,
        vec![
            "ddl_create",
            "ddl_alter",
            "ddl_drop",
            "dml_insert",
            "dql_select",
            "stream_create",
            "stream_read",
            "stream_update"
        ]
    );
}

#[test]
fn facts_are_the_eight_kinds_in_order_on_the_lowercase_name() {
    let facts = permission_facts("ORG.EVENTS_DEV");
    let expected: Vec<(ActionKind, String)> = EIGHT
        .iter()
        .map(|kind| (*kind, "org.events_dev".to_string()))
        .collect();
    assert_eq!(pairs(&facts), expected);
}

#[test]
fn facts_fold_case_beyond_ascii() {
    let facts = permission_facts("ÄRGER.Events_Ω");
    assert_eq!(facts.len(), 8);
    for fact in &facts {
        assert_eq!(fact.resource, "ärger.events_ω");
    }
}

#[test]
fn facts_of_an_empty_name_are_scoped_to_the_empty_name() {
    let facts = permission_facts("");
    assert_eq!(facts.len(), 8);
    assert!(facts.iter().all(|fact| fact.resource.is_empty()));
}

#[test]
fn generated_key_pair_is_a_pair() {
    let pair = ResourceKeyPair::generate();
    assert_eq!(pair.private_key.len(), 32);
    assert_eq!(pair.public_key.len(), 32);
    let secret = ed25519_dalek::SecretKey::from_bytes(&pair.private_key).unwrap();
    let derived = ed25519_dalek::PublicKey::from(&secret);
    assert_eq!(derived.to_bytes().to_vec(), pair.public_key);
}

#[test]
fn generated_key_pairs_are_fresh() {
    let first = ResourceKeyPair::generate();
    let second = ResourceKeyPair::generate();
    assert_ne!(first.private_key, second.private_key);
    assert_ne!(first.public_key, second.public_key);
}

#[test]
fn key_halves_are_written_in_lowercase_hex() {
    let pair = ResourceKeyPair {
        private_key: vec![0x00, 0x01, 0x0f, 0x10, 0xab, 0xff],
        public_key: vec![0xde, 0xad, 0xbe, 0xef],
    };
    assert_eq!(pair.private_hex(), "00010f10abff");
    assert_eq!(pair.public_hex(), "deadbeef");
}

#[test]
fn minted_token_carries_the_eight_facts() {
    let root = ResourceKeyPair::generate();
    let token = create_biscuit("Org.EVENTS_Dev", &root).unwrap();
    let expected: Vec<(ActionKind, String)> = EIGHT
        .iter()
        .map(|kind| (*kind, "org.events_dev".to_string()))
        .collect();
    assert_eq!(pairs(&token.facts), expected);
}

#[test]
fn minted_token_verifies_under_the_root_public_key_and_holds_the_facts() {
    let root = ResourceKeyPair::generate();
    let token = create_biscuit("ORG.EVENTS_DEV", &root).unwrap();
    let public = biscuit_auth::PublicKey::from_bytes(&root.public_key).unwrap();
    let parsed = biscuit_auth::Biscuit::from_base64(&token.encoded, public).unwrap();
    assert_eq!(parsed.block_count(), 1);
    let source = parsed.print_block_source(0).unwrap();
    let lines: Vec<&str> = source.lines().filter(|line| !line.is_empty()).collect();
    assert_eq!(
        lines,
        vec![
            "sxt:capability(\"ddl_create\", \"org.events_dev\");",
            "sxt:capability(\"ddl_alter\", \"org.events_dev\");",
            "sxt:capability(\"ddl_drop\", \"org.events_dev\");",
            "sxt:capability(\"dml_insert\", \"org.events_dev\");",
            "sxt:capability(\"dql_select\", \"org.events_dev\");",
            "sxt:capability(\"stream_create\", \"org.events_dev\");",
            "sxt:capability(\"stream_read\", \"org.events_dev\");",
            "sxt:capability(\"stream_update\", \"org.events_dev\");",
        ]
    );
}

#[test]
fn minted_token_is_refused_under_another_public_key() {
    let root = ResourceKeyPair::generate();
    let other = ResourceKeyPair::generate();
    let token = create_biscuit("ORG.EVENTS_DEV", &root).unwrap();
    let public = biscuit_auth::PublicKey::from_bytes(&other.public_key).unwrap();
    assert!(biscuit_auth::Biscuit::from_base64(&token.encoded, public).is_err());
}

#[test]
fn minting_is_deterministic_in_structure() {
    let first_root = ResourceKeyPair::generate();
    let second_root = ResourceKeyPair::generate();
    let first = create_biscuit("ORG.EVENTS_DEV", &first_root).unwrap();
    let second = create_biscuit("ORG.EVENTS_DEV", &second_root).unwrap();
    assert_eq!(pairs(&first.facts), pairs(&second.facts));
    assert_ne!(first.encoded, second.encoded);
}

#[test]
fn minting_with_an_unusable_secret_key_fails() {
    let root = ResourceKeyPair {
        private_key: vec![1, 2, 3],
        public_key: vec![0; 32],
    };
    assert_eq!(
        create_biscuit("ORG.EVENTS_DEV", &root).err(),
        Some(TokenError::SigningFailure)
    );
    let facts = permission_facts("ORG.EVENTS_DEV");
    assert_eq!(sign_facts(&facts, &root), Err(TokenError::SigningFailure));
}

#[test]
fn sealing_joins_facts_and_signed_text() {
    let facts = permission_facts("a.b");
    let token = seal(facts, Ok("signed".to_string())).unwrap();
    assert_eq!(token.encoded, "signed");
    assert_eq!(token.facts.len(), 8);
    assert_eq!(token.facts[3].action, ActionKind::DmlInsert);
    assert_eq!(token.facts[3].resource, "a.b");
}

#[test]
fn sealing_a_failure_reports_signing_failure() {
    let facts = permission_facts("a.b");
    let failed = seal(facts, Err(TokenError::SigningFailure));
    assert_eq!(failed.err(), Some(TokenError::SigningFailure));
    let failed = seal(Vec::new(), Err(TokenError::SigningFailure));
    assert_eq!(failed.err(), Some(TokenError::SigningFailure));
}

#[test]
fn signing_uses_the_facts_that_are_handed_in() {
    let root = ResourceKeyPair::generate();
    let facts = vec![
        PermissionFact { action: ActionKind::DqlSelect, resource: "x.y".to_string() },
        PermissionFact { action: ActionKind::DdlDrop, resource: "x.z".to_string() },
    ];
    let encoded = sign_facts(&facts, &root).unwrap();
    let public = biscuit_auth::PublicKey::from_bytes(&root.public_key).unwrap();
    let parsed = biscuit_auth::Biscuit::from_base64(&encoded, public).unwrap();
    let source = parsed.print_block_source(0).unwrap();
    let lines: Vec<&str> = source.lines().filter(|line| !line.is_empty()).collect();
    assert_eq!(
        lines,
        vec![
            "sxt:capability(\"dql_select\", \"x.y\");",
            "sxt:capability(\"ddl_drop\", \"x.z\");",
        ]
    );
}

#[test]
fn facts_with_awkward_texts_are_taken_by_the_builder() {
    let root = ResourceKeyPair::generate();
    let awkward = [
        "",
        "with \"quotes\" and \\ backslash",
        "line\nbreak",
        "{parameter}",
        "$variable",
        "ünïcödé ✓",
        "right(\"file\", \"read\")",
    ];
    for text in awkward {
        let facts = vec![
            PermissionFact { action: ActionKind::DdlCreate, resource: text.to_string() },
            PermissionFact { action: ActionKind::StreamUpdate, resource: text.to_string() },
        ];
        let encoded = sign_facts(&facts, &root).unwrap();
        let public = biscuit_auth::PublicKey::from_bytes(&root.public_key).unwrap();
        let parsed = biscuit_auth::Biscuit::from_base64(&encoded, public).unwrap();
        assert_eq!(parsed.block_count(), 1);
    }
}

#[test]
fn empty_list_of_facts_is_signed_as_an_empty_token() {
    let root = ResourceKeyPair::generate();
    let encoded = sign_facts(&Vec::new(), &root).unwrap();
    let public = biscuit_auth::PublicKey::from_bytes(&root.public_key).unwrap();
    let parsed = biscuit_auth::Biscuit::from_base64(&encoded, public).unwrap();
    let source = parsed.print_block_source(0).unwrap();
    assert!(source.lines().all(|line| line.is_empty()));
}

#[test]
fn scoped_facts_take_the_name_as_it_is() {
    let facts = scoped_facts("Org.EVENTS_Dev");
    let expected: Vec<(ActionKind, String)> = EIGHT
        .iter()
        .map(|kind| (*kind, "Org.EVENTS_Dev".to_string()))
        .collect();
    assert_eq!(pairs(&facts), expected);
    assert_eq!(scoped_facts("").len(), 8);
}

#[test]
fn minted_token_has_one_block_of_facts_and_nothing_besides() {
    let root = ResourceKeyPair::generate();
    let token = create_biscuit("ORG.EVENTS_DEV", &root).unwrap();
    let public = biscuit_auth::PublicKey::from_bytes(&root.public_key).unwrap();
    let parsed = biscuit_auth::Biscuit::from_base64(&token.encoded, public).unwrap();
    assert_eq!(parsed.block_count(), 1);
    let source = parsed.print_block_source(0).unwrap();
    let lines: Vec<&str> = source.lines().filter(|line| !line.is_empty()).collect();
    assert_eq!(lines.len(), 8);
    assert!(lines.iter().all(|line| line.starts_with("sxt:capability(")));
    assert!(!source.contains("<-"));
    assert!(!source.contains("check "));
}

#[test]
fn token_is_signed_with_the_pair_of_the_secret_key_alone() {
    // The public half that the pair carries plays no part in signing.
    let real = ResourceKeyPair::generate();
    let other = ResourceKeyPair::generate();
    let mixed = ResourceKeyPair {
        private_key: real.private_key.clone(),
        public_key: other.public_key.clone(),
    };
    let token = create_biscuit("ORG.EVENTS_DEV", &mixed).unwrap();
    let derived = biscuit_auth::PublicKey::from_bytes(&real.public_key).unwrap();
    assert!(biscuit_auth::Biscuit::from_base64(&token.encoded, derived).is_ok());
    let carried = biscuit_auth::PublicKey::from_bytes(&other.public_key).unwrap();
    assert!(biscuit_auth::Biscuit::from_base64(&token.encoded, carried).is_err());
}
