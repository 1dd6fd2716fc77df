use flowaim::error::ProvisionError;
use flowaim::record::{decode_record, encode_record, load_record, ResourceConfig};

fn sample() -> ResourceConfig {
    ResourceConfig {
        resource_name: "ORG.EVENTS_DEV".to_string(),
        table_private_key: "00ff".to_string(),
        table_public_key: "abcd".to_string(),
        biscuit: "En0KEwoR_-=".to_string(),
    }
}

#[test]
fn record_round_trips_through_its_document() {
    let record = sample();
    let document = encode_record(&record).unwrap();
    let read = decode_record(&document).unwrap();
    assert_eq!(read.resource_name, record.resource_name);
    assert_eq!(read.table_private_key, record.table_private_key);
    assert_eq!(read.table_public_key, record.table_public_key);
    assert_eq!(read.biscuit, record.biscuit);
}

#[test]
fn record_with_awkward_characters_round_trips() {
    let record = ResourceConfig {
        resource_name: "a \"quoted\" name\\with\nbreaks and ünïcödé".to_string(),
        table_private_key: String::new(),
        table_public_key: "'single'".to_string(),
        biscuit: "# not a comment = [x]".to_string(),
    };
    let document = encode_record(&record).unwrap();
    let read = decode_record(&document).unwrap();
    assert_eq!(read.resource_name, record.resource_name);
    assert_eq!(read.table_private_key, record.table_private_key);
    assert_eq!(read.table_public_key, record.table_public_key);
    assert_eq!(read.biscuit, record.biscuit);
}

#[test]
fn document_is_a_key_value_document() {
    let document = encode_record(&sample()).unwrap();
    assert_eq!(
        document,
        "biscuit = \"En0KEwoR_-=\"\nresource_name = \"ORG.EVENTS_DEV\"\ntable_private_key = \"00ff\"\ntable_public_key = \"abcd\"\n"
    );
}

#[test]
fn entries_are_the_four_fields() {
    let entries = sample().entries();
    assert_eq!(
        entries,
        vec![
            ("resource_name".to_string(), "ORG.EVENTS_DEV".to_string()),
            ("table_private_key".to_string(), "00ff".to_string()),
            ("table_public_key".to_string(), "abcd".to_string()),
            ("biscuit".to_string(), "En0KEwoR_-=".to_string()),
        ]
    );
}

#[test]
fn record_is_read_whatever_the_order_of_the_entries() {
    let document = "table_public_key = \"p\"\nbiscuit = \"b\"\nextra = 1\nresource_name = \"n\"\ntable_private_key = \"s\"\n";
    let read = decode_record(document).unwrap();
    assert_eq!(read.resource_name, "n");
    assert_eq!(read.table_private_key, "s");
    assert_eq!(read.table_public_key, "p");
    assert_eq!(read.biscuit, "b");
}

#[test]
fn from_entries_takes_the_first_entry_of_a_key() {
    let entries = vec![
        ("biscuit".to_string(), Some("b".to_string())),
        ("resource_name".to_string(), Some("first".to_string())),
        ("resource_name".to_string(), Some("second".to_string())),
        ("table_private_key".to_string(), Some("s".to_string())),
        ("table_public_key".to_string(), Some("p".to_string())),
    ];
    let record = ResourceConfig::from_entries(&entries).unwrap();
    assert_eq!(record.resource_name, "first");
}

#[test]
fn from_entries_needs_every_field_as_text() {
    let mut entries = vec![
        ("biscuit".to_string(), Some("b".to_string())),
        ("resource_name".to_string(), Some("n".to_string())),
        ("table_private_key".to_string(), None),
        ("table_public_key".to_string(), Some("p".to_string())),
    ];
    assert!(ResourceConfig::from_entries(&entries).is_none());
    entries[2].1 = Some("s".to_string());
    assert!(ResourceConfig::from_entries(&entries).is_some());
    entries.remove(0);
    assert!(ResourceConfig::from_entries(&entries).is_none());
    assert!(ResourceConfig::from_entries(&Vec::new()).is_none());
}

#[test]
fn missing_field_means_no_record() {
    let document = "resource_name = \"n\"\ntable_private_key = \"s\"\ntable_public_key = \"p\"\n";
    assert_eq!(decode_record(document).err(), Some(ProvisionError::ConfigMissing));
}

#[test]
fn field_that_is_no_text_means_no_record() {
    let document =
        "resource_name = \"n\"\ntable_private_key = 5\ntable_public_key = \"p\"\nbiscuit = \"b\"\n";
    assert_eq!(decode_record(document).err(), Some(ProvisionError::ConfigMissing));
}

#[test]
fn unreadable_document_means_no_record() {
    assert_eq!(decode_record("this is = = not toml").err(), Some(ProvisionError::ConfigMissing));
    assert_eq!(decode_record("").err(), Some(ProvisionError::ConfigMissing));
}

#[test]
fn absent_document_means_config_missing() {
    assert_eq!(load_record(None).err(), Some(ProvisionError::ConfigMissing));
}

#[test]
fn stored_document_is_loaded() {
    let document = encode_record(&sample()).unwrap();
    let record = load_record(Some(&document)).unwrap();
    assert_eq!(record.resource_name, "ORG.EVENTS_DEV");
    assert_eq!(record.biscuit, "En0KEwoR_-=");
}

#[test]
fn written_document_reads_back_to_the_record() {
    let records = vec![
        sample(),
        ResourceConfig {
            resource_name: String::new(),
            table_private_key: String::new(),
            table_public_key: String::new(),
            biscuit: String::new(),
        },
        ResourceConfig {
            resource_name: "tab\there \u{7f} \u{1} d\u{e9}j\u{e0} \u{1F600}".to_string(),
            table_private_key: "\"\"\"".to_string(),
            table_public_key: "\r\n".to_string(),
            biscuit: "'single' and ''two''".to_string(),
        },
    ];
    for record in &records {
        let document = encode_record(record).unwrap();
        let read = decode_record(&document).unwrap();
        assert!(read.same_as(record));
        assert!(record.same_as(&read));
    }
}

#[test]
fn records_are_compared_field_by_field() {
    let record = sample();
    assert!(record.same_as(&sample()));
    let mut other = sample();
    other.resource_name.push('x');
    assert!(!record.same_as(&other));
    let mut other = sample();
    other.table_private_key.push('x');
    assert!(!record.same_as(&other));
    let mut other = sample();
    other.table_public_key.push('x');
    assert!(!record.same_as(&other));
    let mut other = sample();
    other.biscuit.push('x');
    assert!(!record.same_as(&other));
}
