//! The local record of a provisioned resource: its name, its root key pair
//! and its capability token, kept as a key-value document.

use crate::error::ProvisionError;
use vstd::prelude::*;

verus! {

/// What is kept of a resource between invocations. The record is written
/// once, after the platform has created the resource, and read whenever rows
/// are loaded or statistics are queried.
pub struct ResourceConfig {
    pub resource_name: String,
    /// The secret half of the resource's key pair, in hexadecimal.
    pub table_private_key: String,
    /// The public half of the resource's key pair, in hexadecimal.
    pub table_public_key: String,
    /// The capability token in its base64 form.
    pub biscuit: String,
}

/// A record as plain values.
pub struct ResourceConfigView {
    pub resource_name: Seq<char>,
    pub table_private_key: Seq<char>,
    pub table_public_key: Seq<char>,
    pub biscuit: Seq<char>,
}

impl View for ResourceConfig {
    type V = ResourceConfigView;

    open spec fn view(&self) -> ResourceConfigView {
        ResourceConfigView {
            resource_name: self.resource_name@,
            table_private_key: self.table_private_key@,
            table_public_key: self.table_public_key@,
            biscuit: self.biscuit@,
        }
    }
}

/// The key of the resource name in the document.
pub open spec fn name_key() -> Seq<char> {
    "resource_name"@
}

/// The key of the secret key in the document.
pub open spec fn private_key_key() -> Seq<char> {
    "table_private_key"@
}

/// The key of the public key in the document.
pub open spec fn public_key_key() -> Seq<char> {
    "table_public_key"@
}

/// The key of the capability token in the document.
pub open spec fn biscuit_key() -> Seq<char> {
    "biscuit"@
}

/// The entries of the document of a record: one per field, each a text.
pub open spec fn record_entries(record: ResourceConfigView) -> Seq<(Seq<char>, Seq<char>)> {
    seq![
        (name_key(), record.resource_name),
        (private_key_key(), record.table_private_key),
        (public_key_key(), record.table_public_key),
        (biscuit_key(), record.biscuit),
    ]
}

/// The text under a key among the entries of a parsed document: that of the
/// first entry with the key, if it is a text.
pub open spec fn lookup(entries: Seq<(Seq<char>, Option<Seq<char>>)>, key: Seq<char>) -> Option<
    Seq<char>,
>
    decreases entries.len(),
{
    if entries.len() == 0 {
        None
    } else if entries[0].0 == key {
        entries[0].1
    } else {
        lookup(entries.drop_first(), key)
    }
}

/// The record that the entries of a parsed document stand for. All four
/// fields have to be there as texts; entries under other keys are ignored.
pub open spec fn record_of(entries: Seq<(Seq<char>, Option<Seq<char>>)>) -> Option<
    ResourceConfigView,
> {
    match (
        lookup(entries, name_key()),
        lookup(entries, private_key_key()),
        lookup(entries, public_key_key()),
        lookup(entries, biscuit_key()),
    ) {
        (Some(resource_name), Some(table_private_key), Some(table_public_key), Some(biscuit)) => {
            Some(ResourceConfigView { resource_name, table_private_key, table_public_key, biscuit })
        },
        _ => None,
    }
}

/// The entries as a parser hands them out, every value being a text.
pub open spec fn as_parsed(entries: Seq<(Seq<char>, Seq<char>)>) -> Seq<
    (Seq<char>, Option<Seq<char>>),
> {
    Seq::new(entries.len(), |i: int| (entries[i].0, Some(entries[i].1)))
}

/// The views of a list of entries.
pub open spec fn entry_views(entries: Seq<(String, String)>) -> Seq<(Seq<char>, Seq<char>)> {
    Seq::new(entries.len(), |i: int| (entries[i].0@, entries[i].1@))
}

/// The views of a list of parsed entries.
pub open spec fn parsed_views(entries: Seq<(String, Option<String>)>) -> Seq<
    (Seq<char>, Option<Seq<char>>),
> {
    Seq::new(
        entries.len(),
        |i: int|
            (
                entries[i].0@,
                match entries[i].1 {
                    Some(text) => Some(text@),
                    None => None,
                },
            ),
    )
}

/// The document that the `toml` crate writes for a table with these entries,
/// or `None` where it refuses to write one.
pub uninterp spec fn toml_document(entries: Seq<(Seq<char>, Seq<char>)>) -> Option<Seq<char>>;

/// The top-level entries of the table that the `toml` crate reads from a
/// document, each value that is a text as `Some`, any other as `None`; or
/// `None` where it cannot read the document.
pub uninterp spec fn toml_entries(document: Seq<char>) -> Option<
    Seq<(Seq<char>, Option<Seq<char>>)>,
>;

/// The error of the `toml` writer; nothing of it is read.
#[verifier::external_type_specification]
#[verifier::external_body]
pub struct ExTomlSerError(toml::ser::Error);

/// The error of the `toml` reader; nothing of it is read.
#[verifier::external_type_specification]
#[verifier::external_body]
pub struct ExTomlDeError(toml::de::Error);

/// Fills a `toml::Table` with the entries as string values, a later entry
/// replacing an earlier one under the same key, and calls `toml::to_string`
/// on it.
#[verifier::external_body]
pub(crate) fn toml_encode(entries: &Vec<(String, String)>) -> (res: Result<
    String,
    toml::ser::Error,
>)
    ensures
        match res {
            Ok(document) => toml_document(entry_views(entries@)) == Some(document@),
            Err(_) => toml_document(entry_views(entries@)) is None,
        },
{
    let mut table = toml::Table::new();
    for (key, value) in entries.iter() {
        table.insert(key.clone(), toml::Value::String(value.clone()));
    }
    toml::to_string(&table)
}

/// Parses a document as a `toml::Table` and hands out its top-level entries
/// in the table's order, with the text of each value that is a string.
#[verifier::external_body]
pub(crate) fn toml_decode(document: &str) -> (res: Result<
    Vec<(String, Option<String>)>,
    toml::de::Error,
>)
    ensures
        match res {
            Ok(entries) => toml_entries(document@) == Some(parsed_views(entries@)),
            Err(_) => toml_entries(document@) is None,
        },
{
    let table = document.parse::<toml::Table>()?;
    let mut entries = Vec::new();
    for (key, value) in table {
        entries.push((key, value.as_str().map(str::to_owned)));
    }
    Ok(entries)
}

/// Finds the text under a key among parsed entries.
fn find(entries: &Vec<(String, Option<String>)>, key: &str) -> (found: Option<String>)
    ensures
        match found {
            Some(text) => lookup(parsed_views(entries@), key@) == Some(text@),
            None => lookup(parsed_views(entries@), key@) is None,
        },
{
    let wanted = String::from_str(key);
    let mut index: usize = 0;
    assert(parsed_views(entries@).skip(0) =~= parsed_views(entries@));
    while index < entries.len()
        invariant
            index <= entries@.len(),
            wanted@ == key@,
            lookup(parsed_views(entries@), key@) == lookup(
                parsed_views(entries@).skip(index as int),
                key@,
            ),
        decreases entries@.len() - index,
    {
        let ghost rest = parsed_views(entries@).skip(index as int);
        assert(rest[0] == parsed_views(entries@)[index as int]);
        assert(rest.drop_first() =~= parsed_views(entries@).skip(index as int + 1));
        if entries[index].0 == wanted {
            return match &entries[index].1 {
                Some(text) => Some(text.clone()),
                None => None,
            };
        }
        index += 1;
    }
    assert(parsed_views(entries@).skip(index as int).len() == 0);
    None
}

impl ResourceConfig {
    /// The entries of the record's document.
    pub fn entries(&self) -> (entries: Vec<(String, String)>)
        ensures
            entry_views(entries@) == record_entries(self@),
    {
        let mut entries: Vec<(String, String)> = Vec::new();
        entries.push((String::from_str("resource_name"), self.resource_name.clone()));
        entries.push((String::from_str("table_private_key"), self.table_private_key.clone()));
        entries.push((String::from_str("table_public_key"), self.table_public_key.clone()));
        entries.push((String::from_str("biscuit"), self.biscuit.clone()));
        assert(entry_views(entries@) =~= record_entries(self@));
        entries
    }

    /// The record that parsed entries stand for, if all its fields are there.
    pub fn from_entries(entries: &Vec<(String, Option<String>)>) -> (record: Option<ResourceConfig>)
        ensures
            match record {
                Some(record) => record_of(parsed_views(entries@)) == Some(record@),
                None => record_of(parsed_views(entries@)) is None,
            },
    {
        let resource_name = find(entries, "resource_name");
        let table_private_key = find(entries, "table_private_key");
        let table_public_key = find(entries, "table_public_key");
        let biscuit = find(entries, "biscuit");
        match (resource_name, table_private_key, table_public_key, biscuit) {
            (
                Some(resource_name),
                Some(table_private_key),
                Some(table_public_key),
                Some(biscuit),
            ) => Some(
                ResourceConfig { resource_name, table_private_key, table_public_key, biscuit },
            ),
            _ => None,
        }
    }
}

/// The outcome of reading a document: the record it holds, or the report
/// that no usable record is there.
pub open spec fn decoded(document: Seq<char>) -> Result<ResourceConfigView, ProvisionError> {
    match toml_entries(document) {
        Some(entries) => match record_of(entries) {
            Some(record) => Ok(record),
            None => Err(ProvisionError::ConfigMissing),
        },
        None => Err(ProvisionError::ConfigMissing),
    }
}

/// The outcome of writing a record as a document. A document is handed out
/// only if it reads back to the record it was written for; one that does
/// not is no better than none.
pub open spec fn encoded(record: ResourceConfigView) -> Result<Seq<char>, ProvisionError> {
    match toml_document(record_entries(record)) {
        Some(document) => if decoded(document) == Ok::<ResourceConfigView, ProvisionError>(
            record,
        ) {
            Ok(document)
        } else {
            Err(ProvisionError::PersistFailure)
        },
        None => Err(ProvisionError::PersistFailure),
    }
}

impl ResourceConfig {
    /// Whether two records hold the same name, keys and token.
    pub fn same_as(&self, other: &ResourceConfig) -> (same: bool)
        ensures
            same == (self@ == other@),
    {
        self.resource_name == other.resource_name && self.table_private_key
            == other.table_private_key && self.table_public_key == other.table_public_key
            && self.biscuit == other.biscuit
    }
}

/// Writes a record as the document that is stored for the resource.
///
/// The document is read back before it is handed out, and compared with the
/// record. So whatever is handed out for storing reads back to the record
/// it was written for: the name, both keys and the token, letter for letter.
pub fn encode_record(record: &ResourceConfig) -> (res: Result<String, ProvisionError>)
    ensures
        match res {
            Ok(document) => encoded(record@) == Ok::<Seq<char>, ProvisionError>(document@),
            Err(error) => encoded(record@) == Err::<Seq<char>, ProvisionError>(error),
        },
        res matches Ok(document) ==> decoded(document@) == Ok::<
            ResourceConfigView,
            ProvisionError,
        >(record@),
{
    let entries = record.entries();
    let document = match toml_encode(&entries) {
        Ok(document) => document,
        Err(_) => {
            return Err(ProvisionError::PersistFailure);
        },
    };
    match decode_record(document.as_str()) {
        Ok(read) => {
            if read.same_as(record) {
                Ok(document)
            } else {
                Err(ProvisionError::PersistFailure)
            }
        },
        Err(_) => Err(ProvisionError::PersistFailure),
    }
}

/// Reads the record of a resource back from its stored document.
pub fn decode_record(document: &str) -> (res: Result<ResourceConfig, ProvisionError>)
    ensures
        match res {
            Ok(record) => decoded(document@) == Ok::<ResourceConfigView, ProvisionError>(record@),
            Err(error) => decoded(document@) == Err::<ResourceConfigView, ProvisionError>(error),
        },
{
    match toml_decode(document) {
        Ok(entries) => match ResourceConfig::from_entries(&entries) {
            Some(record) => Ok(record),
            None => Err(ProvisionError::ConfigMissing),
        },
        Err(_) => Err(ProvisionError::ConfigMissing),
    }
}

/// Looks a resource's record up among what the local store returned: the
/// stored document of the environment, or nothing where none exists.
pub fn load_record(stored: Option<&str>) -> (res: Result<ResourceConfig, ProvisionError>)
    ensures
        match stored {
            Some(document) => match res {
                Ok(record) => decoded(document@) == Ok::<ResourceConfigView, ProvisionError>(
                    record@,
                ),
                Err(error) => decoded(document@) == Err::<ResourceConfigView, ProvisionError>(
                    error,
                ),
            },
            None => res matches Err(error) && error == ProvisionError::ConfigMissing,
        },
{
    match stored {
        Some(document) => decode_record(document),
        None => Err(ProvisionError::ConfigMissing),
    }
}

/// A record survives being taken apart into entries and put together again:
/// the name, both keys and the token come back as they were.
pub proof fn lemma_entries_round_trip(record: ResourceConfigView)
    ensures
        record_of(as_parsed(record_entries(record))) == Some(record),
{
    reveal_strlit("resource_name");
    reveal_strlit("table_private_key");
    reveal_strlit("table_public_key");
    reveal_strlit("biscuit");
    let parsed = as_parsed(record_entries(record));
    let first = parsed.drop_first();
    let second = first.drop_first();
    let third = second.drop_first();
    assert(name_key() != private_key_key()) by {
        assert(name_key()[0] != private_key_key()[0]);
    }
    assert(name_key() != public_key_key()) by {
        assert(name_key()[0] != public_key_key()[0]);
    }
    assert(name_key() != biscuit_key()) by {
        assert(name_key()[0] != biscuit_key()[0]);
    }
    assert(private_key_key() != public_key_key()) by {
        assert(private_key_key()[7] != public_key_key()[7]);
    }
    assert(private_key_key() != biscuit_key()) by {
        assert(private_key_key()[0] != biscuit_key()[0]);
    }
    assert(public_key_key() != biscuit_key()) by {
        assert(public_key_key()[0] != biscuit_key()[0]);
    }
    assert(parsed[0] == (name_key(), Some(record.resource_name)));
    assert(first[0] == (private_key_key(), Some(record.table_private_key)));
    assert(second[0] == (public_key_key(), Some(record.table_public_key)));
    assert(third[0] == (biscuit_key(), Some(record.biscuit)));
    assert(lookup(parsed, name_key()) == Some(record.resource_name));
    assert(lookup(first, private_key_key()) == Some(record.table_private_key));
    assert(lookup(parsed, private_key_key()) == Some(record.table_private_key));
    assert(lookup(second, public_key_key()) == Some(record.table_public_key));
    assert(lookup(first, public_key_key()) == Some(record.table_public_key));
    assert(lookup(parsed, public_key_key()) == Some(record.table_public_key));
    assert(lookup(third, biscuit_key()) == Some(record.biscuit));
    assert(lookup(second, biscuit_key()) == Some(record.biscuit));
    assert(lookup(first, biscuit_key()) == Some(record.biscuit));
    assert(lookup(parsed, biscuit_key()) == Some(record.biscuit));
}

/// A record survives being written and read: the document that is handed
/// out for a record reads back to that record, with its name, both keys and
/// its token unchanged.
pub proof fn lemma_document_round_trip(record: ResourceConfigView, document: Seq<char>)
    requires
        encoded(record) == Ok::<Seq<char>, ProvisionError>(document),
    ensures
        decoded(document) == Ok::<ResourceConfigView, ProvisionError>(record),
        decoded(document) matches Ok(read) && read.resource_name == record.resource_name
            && read.table_private_key == record.table_private_key && read.table_public_key
            == record.table_public_key && read.biscuit == record.biscuit,
{
}

} // verus!
