//! Where resource records are kept: in a database, by DID, or in one file each.

use crate::config;
use crate::error::{self, ApiError};
use crate::json::{self, JsonModel};
use crate::text;
use serde_json::Value;
use vstd::prelude::*;

verus! {

/// What keeps the records.
#[derive(Clone, Copy, Debug, PartialEq, Eq, Structural)]
pub enum RecordStore {
    Sqlite,
    Postgres,
    Files,
}

/// Where a record is kept: under a key in a namespace of the database, or in a file below
/// the data directory.
#[derive(Debug)]
pub struct RecordSlot {
    pub namespace: String,
    pub key: String,
    pub file: String,
}

/// The name of the file for a DID.
pub open spec fn file_name(did: Seq<char>) -> Seq<char> {
    did.map_values(
        |c: char|
            if c == ':' {
                '_'
            } else {
                c
            },
    ) + ".json"@
}

/// The file of a record, below the data directory.
pub open spec fn record_file(did: Seq<char>) -> Seq<char> {
    "resource-records/"@ + file_name(did)
}

/// The database that a URL leads to, or what is wrong with the URL.
pub open spec fn database_of(url: Seq<char>) -> Result<RecordStore, Seq<char>> {
    match config::sqlite_path(url) {
        Some(path) => if path.len() == 0 {
            Err("database path is empty"@)
        } else {
            Ok(RecordStore::Sqlite)
        },
        None => if text::begins_with(url, "postgres://"@) || text::begins_with(
            url,
            "postgresql://"@,
        ) {
            Ok(RecordStore::Postgres)
        } else {
            Err("unsupported database url scheme"@)
        },
    }
}

/// What keeps the records, by the database URL of the configuration.
pub open spec fn store_of(database_url: Option<String>) -> Result<RecordStore, Seq<char>> {
    match database_url {
        Some(url) => if url@.len() == 0 {
            Ok(RecordStore::Files)
        } else {
            database_of(url@)
        },
        None => Ok(RecordStore::Files),
    }
}

/// `oan_storage::did_to_file_name`: the DID with underscores for its colons, and `.json`.
#[verifier::external_body]
pub(crate) fn did_to_file_name(did: &str) -> (name: String)
    ensures
        name@ == file_name(did@),
{
    oan_storage::did_to_file_name(did)
}

/// `oan_storage::DatabaseConfig::parse` and the backend that it finds. SQLite URLs need a
/// path; the schemes of Postgres are `postgres` and `postgresql`; there are no others.
#[verifier::external_body]
fn parse_database_url(url: &str) -> (result: Result<RecordStore, String>)
    ensures
        match database_of(url@) {
            Ok(store) => result is Ok && result->Ok_0 == store,
            Err(complaint) => result is Err && result->Err_0@ == complaint,
        },
{
    match oan_storage::DatabaseConfig::parse(url) {
        Ok(config) => match config.backend() {
            oan_storage::DatabaseBackend::Sqlite => Ok(RecordStore::Sqlite),
            oan_storage::DatabaseBackend::Postgres => Ok(RecordStore::Postgres),
        },
        Err(error) => Err(error.to_string()),
    }
}

/// What keeps the records, by the database URL of the configuration.
pub fn choose_store(database_url: &Option<String>) -> (result: Result<RecordStore, String>)
    ensures
        match store_of(*database_url) {
            Ok(store) => result is Ok && result->Ok_0 == store,
            Err(complaint) => result is Err && result->Err_0@ == complaint,
        },
{
    match database_url {
        Some(url) => if url.as_str().is_empty() {
            Ok(RecordStore::Files)
        } else {
            parse_database_url(url.as_str())
        },
        None => Ok(RecordStore::Files),
    }
}

/// Where the record of a DID is kept.
pub fn record_slot(did: &str) -> (slot: RecordSlot)
    ensures
        slot.namespace@ == "registrar.resource_records"@,
        slot.key@ == did@,
        slot.file@ == record_file(did@),
{
    RecordSlot {
        namespace: "registrar.resource_records".to_owned(),
        key: did.to_owned(),
        file: text::joined("resource-records/", did_to_file_name(did).as_str()),
    }
}

/// Where a record has to be written. A record without a DID is refused.
pub fn write_slot(record: &Value) -> (result: Result<RecordSlot, ApiError>)
    ensures
        match json::text_field(json::contents(*record), "resourceDid"@) {
            Some(did) => {
                &&& result is Ok
                &&& result->Ok_0.namespace@ == "registrar.resource_records"@
                &&& result->Ok_0.key@ == did
                &&& result->Ok_0.file@ == record_file(did)
            },
            None => result is Err && result->Err_0@ == error::bad_request("resource_did_missing"@),
        },
{
    match json::get_text(record, "resourceDid") {
        Some(did) => Ok(record_slot(did.as_str())),
        None => Err(ApiError::bad_request("resource_did_missing")),
    }
}

/// A file in the directory of records: its name, and what it holds if it could be read as
/// JSON.
#[derive(Debug)]
pub struct RecordFile {
    pub name: String,
    pub value: Option<Value>,
}

/// Whether a file is one that records are kept in.
pub open spec fn has_json_extension(name: Seq<char>) -> bool {
    name.len() > ".json"@.len() && text::ends_in(name, ".json"@)
}

/// The records in the files of the directory, those left out that could not be read.
pub open spec fn records_in(files: Seq<RecordFile>) -> Seq<JsonModel>
    decreases files.len(),
{
    if files.len() == 0 {
        Seq::empty()
    } else {
        let file = files.last();
        let before = records_in(files.drop_last());
        match file.value {
            Some(value) => if has_json_extension(file.name@) {
                before.push(json::contents(value))
            } else {
                before
            },
            None => before,
        }
    }
}

/// Whether a file is one that records are kept in.
pub fn is_record_file(name: &str) -> (found: bool)
    ensures
        found == has_json_extension(name@),
{
    let chars = text::characters(name);
    let extension = text::characters(".json");
    if chars.len() <= extension.len() {
        return false;
    }
    let start: usize = chars.len() - extension.len();
    let mut i: usize = 0;
    while i < extension.len()
        invariant
            i <= extension@.len(),
            start + extension@.len() == chars@.len(),
            chars@ == name@,
            extension@ == ".json"@,
            chars@.len() <= usize::MAX,
            forall|j: int| 0 <= j < i ==> chars@[start + j] == extension@[j],
        decreases extension@.len() - i,
    {
        if chars[start + i] != extension[i] {
            assert(name@.skip(start as int)[i as int] != ".json"@[i as int]);
            return false;
        }
        i = i + 1;
    }
    assert(name@.skip(start as int) == ".json"@);
    true
}

/// The records that are kept in files: those of the index where there is one that could be
/// read, else those of the directory.
pub fn kept_records(index: Option<Vec<Value>>, files: &Vec<RecordFile>) -> (kept: Vec<Value>)
    ensures
        json::contents_of(kept@) == (match index {
            Some(listed) => json::contents_of(listed@),
            None => records_in(files@),
        }),
{
    if let Some(listed) = index {
        return listed;
    }
    let mut kept: Vec<Value> = Vec::new();
    let mut i: usize = 0;
    assert(json::contents_of(kept@) == records_in(files@.take(0)));
    while i < files.len()
        invariant
            i <= files@.len(),
            json::contents_of(kept@) == records_in(files@.take(i as int)),
        decreases files@.len() - i,
    {
        proof {
            assert(files@.take(i + 1).drop_last() == files@.take(i as int));
        }
        let ghost before = kept@;
        if is_record_file(files[i].name.as_str()) {
            if let Some(value) = &files[i].value {
                kept.push(value.clone());
                assert(json::contents_of(kept@) == json::contents_of(before).push(
                    json::contents(*value),
                ));
            }
        }
        i = i + 1;
    }
    assert(files@.take(files@.len() as int) == files@);
    kept
}

/// Two DIDs without an underscore never share a file.
pub proof fn law_files_belong_to_one_did(left: Seq<char>, right: Seq<char>)
    requires
        !left.contains('_'),
        !right.contains('_'),
        record_file(left) == record_file(right),
    ensures
        left == right,
{
    let head = "resource-records/"@;
    let tail = ".json"@;
    assert(record_file(left).len() == head.len() + left.len() + tail.len());
    assert(record_file(right).len() == head.len() + right.len() + tail.len());
    assert forall|i: int| 0 <= i < left.len() implies left[i] == right[i] by {
        assert(record_file(left)[head.len() + i] == file_name(left)[i]);
        assert(record_file(right)[head.len() + i] == file_name(right)[i]);
        assert(left.contains(left[i]));
        assert(right.contains(right[i]));
    }
    assert(left =~= right);
}

/// The file of a record stands in the directory of records. Its name is the DID, character by
/// character, with underscores for colons, and the extension.
pub proof fn law_files_are_named_after_the_did(did: Seq<char>)
    ensures
        file_name(did).len() == did.len() + 5,
        forall|i: int|
            0 <= i < did.len() ==> #[trigger] file_name(did)[i] == (if did[i] == ':' {
                '_'
            } else {
                did[i]
            }),
        file_name(did)[did.len() as int] == '.',
        file_name(did)[did.len() as int + 1] == 'j',
        file_name(did)[did.len() as int + 2] == 's',
        file_name(did)[did.len() as int + 3] == 'o',
        file_name(did)[did.len() as int + 4] == 'n',
        record_file(did) == "resource-records/"@ + file_name(did),
{
    reveal_strlit(".json");
}

/// The file that a record is written to is one that records are read from, unless the DID is
/// empty.
pub proof fn law_written_files_are_read(did: Seq<char>)
    ensures
        has_json_extension(file_name(did)) <==> did.len() > 0,
{
    reveal_strlit(".json");
    let name = file_name(did);
    assert(name.skip(name.len() - ".json"@.len()) == ".json"@);
}

/// A record file has a name before its extension.
pub proof fn law_record_files_have_a_name(name: Seq<char>)
    ensures
        has_json_extension(name + ".json"@) <==> name.len() > 0,
        has_json_extension(name) ==> exists|stem: Seq<char>|
            #![trigger stem.len()]
            stem.len() > 0 && name == stem + ".json"@,
{
    reveal_strlit(".json");
    let longer = name + ".json"@;
    assert(longer.skip(longer.len() - 5) == ".json"@);
    if has_json_extension(name) {
        let stem = name.take(name.len() - 5);
        assert(name =~= stem + name.skip(name.len() - 5));
        assert(stem.len() > 0);
    }
}

/// The records are read file by file, in order: one more file is one more record behind the
/// others if it is a record file that could be read, and none otherwise.
pub proof fn law_records_are_read_file_by_file(files: Seq<RecordFile>, file: RecordFile)
    ensures
        records_in(Seq::empty()) == Seq::<JsonModel>::empty(),
        has_json_extension(file.name@) && file.value is Some ==> records_in(files.push(file))
            == records_in(files).push(json::contents(file.value->0)),
        !has_json_extension(file.name@) || file.value is None ==> records_in(files.push(file))
            == records_in(files),
{
    assert(files.push(file).drop_last() == files);
}

/// Without a database URL, or with an empty one, records are kept in files. Any other URL leads
/// to a database or is refused: never to files.
pub proof fn law_files_are_used_without_a_database(database_url: Option<String>)
    ensures
        store_of(None) == Ok::<RecordStore, Seq<char>>(RecordStore::Files),
        database_url is Some && database_url->0@.len() == 0 ==> store_of(database_url) == Ok::<
            RecordStore,
            Seq<char>,
        >(RecordStore::Files),
        database_url is Some && database_url->0@.len() > 0 ==> store_of(database_url) != Ok::<
            RecordStore,
            Seq<char>,
        >(RecordStore::Files),
{
}

/// Postgres is used for the two schemes that it has, whatever follows them.
pub proof fn law_postgres_has_two_schemes(rest: Seq<char>)
    ensures
        database_of("postgres://"@ + rest) == Ok::<RecordStore, Seq<char>>(RecordStore::Postgres),
        database_of("postgresql://"@ + rest) == Ok::<RecordStore, Seq<char>>(
            RecordStore::Postgres,
        ),
        database_of("sqlite://"@ + rest) == (if rest.len() > 0 {
            Ok::<RecordStore, Seq<char>>(RecordStore::Sqlite)
        } else {
            Err("database path is empty"@)
        }),
{
    reveal_strlit("postgres://");
    reveal_strlit("postgresql://");
    reveal_strlit("sqlite://");
    reveal_strlit("sqlite:");
    let first = "postgres://"@ + rest;
    let second = "postgresql://"@ + rest;
    let third = "sqlite://"@ + rest;
    assert(first.take("postgres://"@.len() as int) == "postgres://"@);
    assert(second.take("postgresql://"@.len() as int) == "postgresql://"@);
    assert(third.take("sqlite://"@.len() as int) == "sqlite://"@);
    assert(third.skip("sqlite://"@.len() as int) == rest);
    assert(first.take(7)[0] == 'p');
    assert(first.take(9)[0] == 'p');
    assert(second.take(7)[0] == 'p');
    assert(second.take(9)[0] == 'p');
}

/// A URL that begins with no scheme of SQLite or Postgres is refused as one that is not supported.
/// SQLite takes its path behind the plain scheme too.
pub proof fn law_other_databases_are_not_supported(url: Seq<char>, rest: Seq<char>)
    ensures
        !text::begins_with(url, "sqlite:"@) && !text::begins_with(url, "postgres://"@)
            && !text::begins_with(url, "postgresql://"@) ==> database_of(url) == Err::<
            RecordStore,
            Seq<char>,
        >("unsupported database url scheme"@),
        !text::begins_with(rest, "//"@) ==> database_of("sqlite:"@ + rest) == (if rest.len() > 0 {
            Ok::<RecordStore, Seq<char>>(RecordStore::Sqlite)
        } else {
            Err("database path is empty"@)
        }),
{
    config::law_sqlite_paths_follow_the_scheme(url);
    config::law_sqlite_paths_follow_the_scheme(rest);
}

/// What the URL of the configuration leads to is what decides, if there is one.
pub proof fn law_the_url_decides(url: String)
    requires
        url@.len() > 0,
    ensures
        store_of(Some(url)) == database_of(url@),
{
}

} // verus!
