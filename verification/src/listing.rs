//! Listing the resource records in pages.
//!
//! Records are listed in the order of their DIDs. A page starts after a given DID, holds as
//! many records as its limit allows, and names the DID after which the next page starts.

use crate::error::{self, ApiError};
use crate::json::{self, JsonModel};
use crate::records::{self, public_resource_record_projection_from_json};
use crate::text;
use serde_json::Value;
use vstd::prelude::*;

verus! {

/// The size of a page whose size was not asked for.
pub const REGISTRAR_DEFAULT_PAGE_SIZE: u32 = 100;

/// The largest size that may be asked for.
pub const REGISTRAR_MAX_PAGE_SIZE: u32 = 500;

/// What a caller asks of a listing.
#[derive(Debug)]
pub struct ResourceListQuery {
    pub after_did: Option<String>,
    pub limit: Option<u32>,
}

impl Default for ResourceListQuery {
    fn default() -> (query: ResourceListQuery)
        ensures
            query.after_did is None,
            query.limit is None,
    {
        ResourceListQuery { after_did: None, limit: None }
    }
}

/// A record that a listing shows, under its DID.
pub struct Row {
    pub did: Seq<char>,
    /// The record's text.
    pub text: Seq<char>,
}

/// The DID after which a page starts. The empty text comes before every DID.
pub open spec fn after_did(query: ResourceListQuery) -> Seq<char> {
    match query.after_did {
        Some(did) => did@,
        None => Seq::empty(),
    }
}

/// The number of records that a page holds, unless the caller asked for an impossible one.
pub open spec fn page_limit(query: ResourceListQuery) -> error::Answer<int> {
    let limit = match query.limit {
        Some(limit) => limit as int,
        None => REGISTRAR_DEFAULT_PAGE_SIZE as int,
    };
    if 1 <= limit <= REGISTRAR_MAX_PAGE_SIZE {
        Ok(limit)
    } else {
        Err(error::bad_request("invalid_resource_page_limit"@))
    }
}

/// `rows` with one more row, behind those whose DID is not greater.
pub open spec fn with_row(rows: Seq<Row>, row: Row) -> Seq<Row>
    decreases rows.len(),
{
    if rows.len() > 0 && text::text_before(row.did, rows.last().did) {
        with_row(rows.drop_last(), row).push(rows.last())
    } else {
        rows.push(row)
    }
}

/// Whether a record is listed after the given DID.
pub open spec fn listed_after(record: JsonModel, after: Seq<char>) -> bool {
    match json::text_field(record, "resourceDid"@) {
        Some(did) => text::text_before(after, did),
        None => false,
    }
}

/// The row of a record that has a DID.
pub open spec fn row_of(record: JsonModel) -> Row {
    Row { did: json::text_field(record, "resourceDid"@)->0, text: json::printed(record) }
}

/// The rows of the records whose DID comes after the given one, by DID. Records with one
/// DID stay in the order in which they are kept.
pub open spec fn listing(kept: Seq<JsonModel>, after: Seq<char>) -> Seq<Row>
    decreases kept.len(),
{
    if kept.len() == 0 {
        Seq::empty()
    } else if listed_after(kept.last(), after) {
        with_row(listing(kept.drop_last(), after), row_of(kept.last()))
    } else {
        listing(kept.drop_last(), after)
    }
}

/// The DID of a record that has one.
pub open spec fn did_of(record: JsonModel) -> Seq<char> {
    json::text_field(record, "resourceDid"@)->0
}

/// `records` with one more record, behind those whose DID is not greater.
pub open spec fn with_record(records: Seq<JsonModel>, record: JsonModel) -> Seq<JsonModel>
    decreases records.len(),
{
    if records.len() > 0 && text::text_before(did_of(record), did_of(records.last())) {
        with_record(records.drop_last(), record).push(records.last())
    } else {
        records.push(record)
    }
}

/// The records whose DID comes after the given one, by DID, as a listing has their rows.
pub open spec fn listed_records(kept: Seq<JsonModel>, after: Seq<char>) -> Seq<JsonModel>
    decreases kept.len(),
{
    if kept.len() == 0 {
        Seq::empty()
    } else if listed_after(kept.last(), after) {
        with_record(listed_records(kept.drop_last(), after), kept.last())
    } else {
        listed_records(kept.drop_last(), after)
    }
}

/// The rows of records.
pub open spec fn rows_of(listed: Seq<JsonModel>) -> Seq<Row> {
    listed.map_values(|record: JsonModel| row_of(record))
}

/// What the public sees of records.
pub open spec fn public_items(listed: Seq<JsonModel>) -> Seq<JsonModel> {
    listed.map_values(|record: JsonModel| records::public_record(record))
}

/// The records that stand on a page of at most `limit`.
pub open spec fn first_records(listed: Seq<JsonModel>, limit: int) -> Seq<JsonModel> {
    listed.take(if listed.len() <= limit { listed.len() as int } else { limit })
}

/// Parsing what a record is printed as gives the record back.
pub open spec fn reads_back(record: JsonModel) -> bool {
    json::reads_as(json::printed(record), record)
}

/// All of the records are plain.
pub open spec fn all_plain(listed: Seq<JsonModel>) -> bool {
    forall|k: int|
        0 <= k < listed.len() ==> json::is_plain(#[trigger] listed[k], json::MAX_DEPTH as nat)
}

/// Whether rows are small enough for one page, or the refusal that the first row leads to
/// that is too large, or makes the page too large.
pub open spec fn size_verdict(rows: Seq<Row>) -> error::Answer<()>
    decreases rows.len(),
{
    if rows.len() == 0 {
        Ok(())
    } else {
        match size_verdict(rows.drop_last()) {
            Err(refusal) => Err(refusal),
            Ok(()) => if records::byte_length(rows.last().text)
                > records::REGISTRAR_MAX_RECORD_BYTES {
                Err(error::bad_request("resource_record_too_large"@))
            } else if rows_bytes(rows) > records::REGISTRAR_MAX_PAGE_BYTES {
                Err(error::bad_request("resource_page_too_large"@))
            } else {
                Ok(())
            },
        }
    }
}

/// The answer to a query over plain records: their public forms, unless they are too large.
pub open spec fn plain_answer(
    kept: Seq<JsonModel>,
    query: ResourceListQuery,
) -> error::Answer<JsonModel> {
    match page_limit(query) {
        Err(refusal) => Err(refusal),
        Ok(limit) => {
            let listed = listed_records(kept, after_did(query));
            let page = first_records(listed, limit);
            let has_more = listed.len() > limit;
            match size_verdict(rows_of(page)) {
                Err(refusal) => Err(refusal),
                Ok(()) => Ok(
                    page_body(
                        public_items(page),
                        after_did(query),
                        next_did(rows_of(page), has_more),
                        has_more,
                    ),
                ),
            }
        },
    }
}

/// The rows that stand on a page of at most `limit` rows.
pub open spec fn first_rows(rows: Seq<Row>, limit: int) -> Seq<Row> {
    rows.take(if rows.len() <= limit { rows.len() as int } else { limit })
}

/// The bytes of the rows' texts.
pub open spec fn rows_bytes(rows: Seq<Row>) -> int
    decreases rows.len(),
{
    if rows.len() == 0 {
        0
    } else {
        rows_bytes(rows.drop_last()) + records::byte_length(rows.last().text)
    }
}

/// What a page shows of the rows, or the refusal that the first row that cannot be shown
/// leads to.
pub open spec fn shown_rows(rows: Seq<Row>) -> error::Answer<Seq<JsonModel>>
    decreases rows.len(),
{
    if rows.len() == 0 {
        Ok(Seq::empty())
    } else {
        match shown_rows(rows.drop_last()) {
            Err(refusal) => Err(refusal),
            Ok(items) => match records::listed_item(
                rows.last().text,
                rows_bytes(rows.drop_last()),
            ) {
                Err(refusal) => Err(refusal),
                Ok(item) => Ok(items.push(item)),
            },
        }
    }
}

/// The DID after which the next page starts, if there is one.
pub open spec fn next_did(rows: Seq<Row>, has_more: bool) -> Option<Seq<char>> {
    if has_more && rows.len() > 0 {
        Some(rows.last().did)
    } else {
        None
    }
}

/// A text, or null where there is none.
pub open spec fn text_or_null(held: Option<Seq<char>>) -> JsonModel {
    match held {
        Some(text) => JsonModel::Text(text),
        None => JsonModel::Null,
    }
}

/// A page as it is sent.
pub open spec fn page_body(
    items: Seq<JsonModel>,
    after: Seq<char>,
    next: Option<Seq<char>>,
    has_more: bool,
) -> JsonModel {
    JsonModel::Object(
        Map::empty().insert("items"@, JsonModel::Array(items)).insert(
            "count"@,
            JsonModel::Integer(items.len() as int),
        ).insert(
            "afterDid"@,
            if after.len() == 0 {
                JsonModel::Null
            } else {
                JsonModel::Text(after)
            },
        ).insert("nextDid"@, text_or_null(next)).insert("hasMore"@, JsonModel::Bool(has_more)),
    )
}

/// The answer to a page of the given rows.
pub open spec fn page_answer(
    rows: Seq<Row>,
    after: Seq<char>,
    has_more: bool,
) -> error::Answer<JsonModel> {
    match shown_rows(rows) {
        Ok(items) => Ok(page_body(items, after, next_did(rows, has_more), has_more)),
        Err(refusal) => Err(refusal),
    }
}

/// The answer to a query over the records that are kept.
pub open spec fn list_answer(
    kept: Seq<JsonModel>,
    query: ResourceListQuery,
) -> error::Answer<JsonModel> {
    match page_limit(query) {
        Err(refusal) => Err(refusal),
        Ok(limit) => {
            let rows = listing(kept, after_did(query));
            page_answer(first_rows(rows, limit), after_did(query), rows.len() > limit)
        },
    }
}

/// A refusable JSON answer as a mathematical value.
pub open spec fn json_answer(result: Result<Value, ApiError>) -> error::Answer<JsonModel> {
    match result {
        Ok(value) => Ok(json::contents(value)),
        Err(error) => Err(error@),
    }
}

/// A page in the making: rows are added one by one, in the order of their DIDs.
pub struct ResourcePage {
    after: String,
    limit: u32,
    items: Vec<Value>,
    last_did: Option<String>,
    page_bytes: usize,
    rows: Ghost<Seq<Row>>,
}

impl ResourcePage {
    /// The DID after which the page starts.
    pub closed spec fn after(self) -> Seq<char> {
        self.after@
    }

    /// The most rows that the page may hold.
    pub closed spec fn limit(self) -> int {
        self.limit as int
    }

    /// The rows that were added, each of which could be shown.
    pub closed spec fn rows(self) -> Seq<Row> {
        self.rows@
    }

    #[verifier::type_invariant]
    spec fn well_formed(self) -> bool {
        &&& shown_rows(self.rows@) == Ok::<Seq<JsonModel>, error::Refusal>(
            json::contents_of(self.items@),
        )
        &&& self.items@.len() == self.rows@.len()
        &&& self.page_bytes as int == rows_bytes(self.rows@)
        &&& text::opt_text(self.last_did) == (if self.rows@.len() == 0 {
            None
        } else {
            Some(self.rows@.last().did)
        })
    }

    /// An empty page for the query, unless the query asks for an impossible size.
    pub fn new(query: &ResourceListQuery) -> (result: Result<ResourcePage, ApiError>)
        ensures
            match page_limit(*query) {
                Ok(limit) => {
                    &&& result is Ok
                    &&& result->Ok_0.after() == after_did(*query)
                    &&& result->Ok_0.limit() == limit
                    &&& result->Ok_0.rows() == Seq::<Row>::empty()
                },
                Err(refusal) => result is Err && result->Err_0@ == refusal,
            },
    {
        let limit: u32 = match query.limit {
            Some(limit) => limit,
            None => REGISTRAR_DEFAULT_PAGE_SIZE,
        };
        if limit == 0 || limit > REGISTRAR_MAX_PAGE_SIZE {
            return Err(ApiError::bad_request("invalid_resource_page_limit"));
        }
        let after = match &query.after_did {
            Some(did) => did.clone(),
            None => String::new(),
        };
        let items: Vec<Value> = Vec::new();
        assert(json::contents_of(items@) == Seq::<JsonModel>::empty());
        Ok(
            ResourcePage {
                after,
                limit,
                items,
                last_did: None,
                page_bytes: 0,
                rows: Ghost(Seq::empty()),
            },
        )
    }

    /// The number of rows that the page may hold.
    pub fn size(&self) -> (limit: u32)
        ensures
            limit == self.limit(),
    {
        self.limit
    }

    /// The DID behind which further rows would have to be looked for: that of the last row,
    /// or where the page starts.
    pub fn last_seen(&self) -> (did: String)
        ensures
            did@ == (if self.rows().len() == 0 {
                self.after()
            } else {
                self.rows().last().did
            }),
    {
        proof {
            use_type_invariant(self);
        }
        match &self.last_did {
            Some(did) => did.clone(),
            None => self.after.clone(),
        }
    }

    /// The page with one more row, or the refusal that the row leads to.
    pub fn with(self, did: String, value_json: &str) -> (result: Result<ResourcePage, ApiError>)
        ensures
            ({
                let rows = self.rows().push(Row { did: did@, text: value_json@ });
                match shown_rows(rows) {
                    Ok(items) => {
                        &&& result is Ok
                        &&& result->Ok_0.rows() == rows
                        &&& result->Ok_0.after() == self.after()
                        &&& result->Ok_0.limit() == self.limit()
                    },
                    Err(refusal) => result is Err && result->Err_0@ == refusal,
                }
            }),
    {
        proof {
            use_type_invariant(&self);
        }
        let ghost before = self.rows@;
        let ghost rows = self.rows@.push(Row { did: did@, text: value_json@ });
        assert(rows.drop_last() == before);
        let mut page_bytes: usize = self.page_bytes;
        match public_resource_record_projection_from_json(value_json, &mut page_bytes) {
            Err(error) => Err(error),
            Ok(item) => {
                let mut items = self.items;
                let ghost held = items@;
                items.push(item);
                assert(json::contents_of(items@) == json::contents_of(held).push(
                    json::contents(item),
                ));
                Ok(
                    ResourcePage {
                        after: self.after,
                        limit: self.limit,
                        items,
                        last_did: Some(did),
                        page_bytes,
                        rows: Ghost(rows),
                    },
                )
            },
        }
    }

    /// The page as it is sent.
    pub fn finish(self, has_more: bool) -> (page: Value)
        ensures
            page_answer(self.rows(), self.after(), has_more) == Ok::<JsonModel, error::Refusal>(
                json::contents(page),
            ),
    {
        proof {
            use_type_invariant(&self);
        }
        let ghost items = json::contents_of(self.items@);
        let count: u64 = self.items.len() as u64;
        let after = if self.after.as_str().is_empty() {
            json::null()
        } else {
            json::text(self.after.as_str())
        };
        let next = match &self.last_did {
            Some(did) => if has_more {
                json::text(did.as_str())
            } else {
                json::null()
            },
            None => json::null(),
        };
        let mut page = json::object();
        json::set(&mut page, "items", json::array(self.items));
        json::set(&mut page, "count", json::unsigned(count));
        json::set(&mut page, "afterDid", after);
        json::set(&mut page, "nextDid", next);
        json::set(&mut page, "hasMore", json::boolean(has_more));
        page
    }
}

/// The rows are in the order of their DIDs.
pub open spec fn sorted_rows(rows: Seq<Row>) -> bool {
    forall|i: int, j: int|
        0 <= i < j < rows.len() ==> !text::text_before(#[trigger] rows[j].did, #[trigger] rows[i].did)
}

/// The row is that of one of the records, and where the record is plain, the item is what the
/// public sees of that very record.
pub open spec fn shows_record(kept: Seq<JsonModel>, row: Row, item: JsonModel) -> bool {
    exists|i: int|
        {
            &&& 0 <= i < kept.len()
            &&& row_of(#[trigger] kept[i]) == row
            &&& json::is_plain(kept[i], json::MAX_DEPTH as nat) ==> item == records::public_record(
                kept[i],
            )
        }
}

/// The item of a row that is shown is what the public sees of the record that its text says.
proof fn shown_items_are_those_of_their_rows(rows: Seq<Row>, k: int)
    requires
        shown_rows(rows) is Ok,
        0 <= k < rows.len(),
    ensures
        shown_rows(rows)->Ok_0.len() == rows.len(),
        json::parsed(rows[k].text) is Ok,
        shown_rows(rows)->Ok_0[k] == records::public_record(json::parsed(rows[k].text)->Ok_0),
    decreases rows.len(),
{
    law_shown_pages_are_small(rows);
    law_shown_pages_are_small(rows.drop_last());
    if k < rows.len() - 1 {
        shown_items_are_those_of_their_rows(rows.drop_last(), k);
    }
}

/// The position that `with_row` gives the row.
spec fn slot(rows: Seq<Row>, row: Row) -> int
    decreases rows.len(),
{
    if rows.len() > 0 && text::text_before(row.did, rows.last().did) {
        slot(rows.drop_last(), row)
    } else {
        rows.len() as int
    }
}

/// The position of a row is behind the rows that are not greater and before those that are.
proof fn slot_is_where_the_row_goes(rows: Seq<Row>, row: Row)
    ensures
        0 <= slot(rows, row) <= rows.len(),
        with_row(rows, row) == rows.insert(slot(rows, row), row),
        forall|j: int|
            slot(rows, row) <= j < rows.len() ==> text::text_before(row.did, #[trigger] rows[j].did),
        slot(rows, row) > 0 ==> !text::text_before(row.did, rows[slot(rows, row) - 1].did),
    decreases rows.len(),
{
    if rows.len() > 0 && text::text_before(row.did, rows.last().did) {
        slot_is_where_the_row_goes(rows.drop_last(), row);
        let at = slot(rows, row);
        assert(rows.drop_last().insert(at, row).push(rows.last()) == rows.insert(at, row));
        assert forall|j: int| at <= j < rows.len() implies text::text_before(
            row.did,
            #[trigger] rows[j].did,
        ) by {
            if j < rows.len() - 1 {
                assert(rows.drop_last()[j] == rows[j]);
            }
        }
    } else {
        assert(rows.push(row) == rows.insert(rows.len() as int, row));
    }
}

/// In sorted rows there is one position with nothing greater before it and nothing that is
/// not greater behind it.
proof fn slot_is_unique(rows: Seq<Row>, row: Row, at: int)
    requires
        0 <= at <= rows.len(),
        forall|j: int| 0 <= j < at ==> !text::text_before(row.did, #[trigger] rows[j].did),
        forall|j: int| at <= j < rows.len() ==> text::text_before(row.did, #[trigger] rows[j].did),
    ensures
        with_row(rows, row) == rows.insert(at, row),
        slot(rows, row) == at,
{
    slot_is_where_the_row_goes(rows, row);
    let there = slot(rows, row);
    if there < at {
        assert(!text::text_before(row.did, rows[there].did));
    } else if at < there {
        assert(text::text_before(row.did, rows[there - 1].did));
    }
}

/// A record goes where its row goes.
proof fn records_go_where_their_rows_go(listed: Seq<JsonModel>, record: JsonModel)
    ensures
        ({
            let at = slot(rows_of(listed), row_of(record));
            &&& 0 <= at <= listed.len()
            &&& with_record(listed, record) == listed.insert(at, record)
        }),
        rows_of(with_record(listed, record)) == with_row(rows_of(listed), row_of(record)),
    decreases listed.len(),
{
    let rows = rows_of(listed);
    let row = row_of(record);
    slot_is_where_the_row_goes(rows, row);
    if listed.len() > 0 {
        assert(rows.last() == row_of(listed.last()));
        assert(rows_of(listed.drop_last()) == rows.drop_last());
        records_go_where_their_rows_go(listed.drop_last(), record);
    }
    let at = slot(rows, row);
    assert(with_record(listed, record) == listed.insert(at, record));
    assert(rows_of(listed.insert(at, record)) == rows.insert(at, row));
}

/// The rows of a listing are those of the listed records, in the same order.
pub proof fn law_rows_are_those_of_the_records(kept: Seq<JsonModel>, after: Seq<char>)
    ensures
        listing(kept, after) == rows_of(listed_records(kept, after)),
    decreases kept.len(),
{
    if kept.len() > 0 {
        law_rows_are_those_of_the_records(kept.drop_last(), after);
        records_go_where_their_rows_go(listed_records(kept.drop_last(), after), kept.last());
    } else {
        assert(rows_of(Seq::empty()) == Seq::<Row>::empty());
    }
}

/// Where the records read back, a page shows them if their rows are small enough for it.
proof fn pages_show_what_reads_back(listed: Seq<JsonModel>)
    requires
        forall|k: int| 0 <= k < listed.len() ==> reads_back(#[trigger] listed[k]),
    ensures
        shown_rows(rows_of(listed)) == (match size_verdict(rows_of(listed)) {
            Ok(()) => Ok(public_items(listed)),
            Err(refusal) => Err(refusal),
        }),
    decreases listed.len(),
{
    let rows = rows_of(listed);
    if listed.len() == 0 {
        assert(rows == Seq::<Row>::empty());
        assert(public_items(listed) == Seq::<JsonModel>::empty());
    } else {
        let fewer = listed.drop_last();
        assert(rows_of(fewer) == rows.drop_last());
        assert(reads_back(listed[listed.len() - 1]));
        pages_show_what_reads_back(fewer);
        assert(public_items(listed) == public_items(fewer).push(
            records::public_record(listed.last()),
        ));
    }
}

/// Adding a row keeps the rows in order.
proof fn with_row_keeps_order(rows: Seq<Row>, row: Row)
    requires
        sorted_rows(rows),
    ensures
        sorted_rows(with_row(rows, row)),
{
    slot_is_where_the_row_goes(rows, row);
    let at = slot(rows, row);
    let all = rows.insert(at, row);
    assert forall|i: int, j: int| 0 <= i < j < all.len() implies !text::text_before(
        #[trigger] all[j].did,
        #[trigger] all[i].did,
    ) by {
        if i == at {
            assert(all[j] == rows[j - 1]);
            if text::text_before(all[j].did, row.did) {
                text::text_before_transitive(row.did, all[j].did, row.did);
                text::text_before_irreflexive(row.did);
            }
        } else if j == at {
            assert(all[i] == rows[i]);
            if text::text_before(row.did, rows[i].did) && i < at - 1 {
                sorted_rows_are_ordered(rows, row.did, i, at - 1);
            }
        } else {
            let p = if i < at { i } else { i - 1 };
            let q = if j < at { j } else { j - 1 };
            assert(all[i] == rows[p] && all[j] == rows[q]);
        }
    }
}

/// What comes before a row of sorted rows comes before the later ones too.
proof fn sorted_rows_are_ordered(rows: Seq<Row>, did: Seq<char>, i: int, j: int)
    requires
        sorted_rows(rows),
        0 <= i <= j < rows.len(),
        text::text_before(did, rows[i].did),
    ensures
        text::text_before(did, rows[j].did),
{
    if rows[i].did != rows[j].did {
        assert(!text::text_before(rows[j].did, rows[i].did));
        text::text_before_total(rows[i].did, rows[j].did);
        text::text_before_transitive(did, rows[i].did, rows[j].did);
    }
}

/// A listing is in the order of the DIDs.
pub proof fn law_listing_is_sorted(kept: Seq<JsonModel>, after: Seq<char>)
    ensures
        sorted_rows(listing(kept, after)),
    decreases kept.len(),
{
    if kept.len() > 0 {
        law_listing_is_sorted(kept.drop_last(), after);
        if listed_after(kept.last(), after) {
            with_row_keeps_order(listing(kept.drop_last(), after), row_of(kept.last()));
        }
    }
}

/// Finds where a DID goes among sorted rows.
fn find_slot(rows: &Vec<(String, usize)>, did: &str, Ghost(model): Ghost<Seq<Row>>) -> (at: usize)
    requires
        rows@.len() == model.len(),
        sorted_rows(model),
        forall|j: int| 0 <= j < rows@.len() ==> (#[trigger] rows@[j]).0@ == model[j].did,
    ensures
        at <= rows@.len(),
        forall|j: int| 0 <= j < at ==> !text::text_before(did@, #[trigger] model[j].did),
        forall|j: int| at <= j < rows@.len() ==> text::text_before(did@, #[trigger] model[j].did),
{
    let mut low: usize = 0;
    let mut high: usize = rows.len();
    while low < high
        invariant
            low <= high <= rows@.len(),
            rows@.len() == model.len(),
            sorted_rows(model),
            forall|j: int| 0 <= j < rows@.len() ==> (#[trigger] rows@[j]).0@ == model[j].did,
            forall|j: int| 0 <= j < low ==> !text::text_before(did@, #[trigger] model[j].did),
            forall|j: int|
                high <= j < rows@.len() ==> text::text_before(did@, #[trigger] model[j].did),
        decreases high - low,
    {
        let middle: usize = low + (high - low) / 2;
        if text::comes_before(did, rows[middle].0.as_str()) {
            proof {
                assert forall|j: int| middle <= j < rows@.len() implies text::text_before(
                    did@,
                    #[trigger] model[j].did,
                ) by {
                    sorted_rows_are_ordered(model, did@, middle as int, j);
                }
            }
            high = middle;
        } else {
            proof {
                assert forall|j: int| 0 <= j < middle + 1 implies !text::text_before(
                    did@,
                    #[trigger] model[j].did,
                ) by {
                    if text::text_before(did@, model[j].did) {
                        sorted_rows_are_ordered(model, did@, j, middle as int);
                    }
                }
            }
            low = middle + 1;
        }
    }
    low
}

/// The DIDs of a listing, each with the position of its record.
fn list_records(kept: &Vec<Value>, after: &str) -> (rows: Vec<(String, usize)>)
    ensures
        rows@.len() == listing(json::contents_of(kept@), after@).len(),
        forall|j: int|
            0 <= j < rows@.len() ==> {
                let row = listing(json::contents_of(kept@), after@)[j];
                &&& (#[trigger] rows@[j]).0@ == row.did
                &&& rows@[j].1 < kept@.len()
                &&& row_of(json::contents(kept@[rows@[j].1 as int])) == row
                &&& json::contents(kept@[rows@[j].1 as int]) == listed_records(
                    json::contents_of(kept@),
                    after@,
                )[j]
            },
{
    let ghost models = json::contents_of(kept@);
    let mut rows: Vec<(String, usize)> = Vec::new();
    let mut i: usize = 0;
    while i < kept.len()
        invariant
            i <= kept@.len(),
            models == json::contents_of(kept@),
            rows@.len() == listing(models.take(i as int), after@).len(),
            forall|j: int|
                0 <= j < rows@.len() ==> {
                    let row = listing(models.take(i as int), after@)[j];
                    &&& (#[trigger] rows@[j]).0@ == row.did
                    &&& rows@[j].1 < i
                    &&& row_of(json::contents(kept@[rows@[j].1 as int])) == row
                    &&& json::contents(kept@[rows@[j].1 as int]) == listed_records(
                        models.take(i as int),
                        after@,
                    )[j]
                },
        decreases kept@.len() - i,
    {
        let ghost before = listing(models.take(i as int), after@);
        let ghost records_before = listed_records(models.take(i as int), after@);
        let ghost old_rows = rows@;
        proof {
            law_listing_is_sorted(models.take(i as int), after@);
            assert(models.take(i + 1).drop_last() == models.take(i as int));
            assert(models.take(i + 1).last() == json::contents(kept@[i as int]));
        }
        if let Some(did) = json::get_text(&kept[i], "resourceDid") {
            if text::comes_before(after, did.as_str()) {
                let at = find_slot(&rows, did.as_str(), Ghost(before));
                proof {
                    slot_is_unique(before, row_of(models[i as int]), at as int);
                    law_rows_are_those_of_the_records(models.take(i as int), after@);
                    records_go_where_their_rows_go(records_before, models[i as int]);
                }
                rows.insert(at, (did, i));
                proof {
                    let row = row_of(models[i as int]);
                    let now = before.insert(at as int, row);
                    let records_now = records_before.insert(at as int, models[i as int]);
                    assert(listing(models.take(i + 1), after@) == now);
                    assert(listed_records(models.take(i + 1), after@) == records_now);
                    assert forall|j: int| 0 <= j < rows@.len() implies {
                        &&& (#[trigger] rows@[j]).0@ == now[j].did
                        &&& rows@[j].1 < i + 1
                        &&& row_of(json::contents(kept@[rows@[j].1 as int])) == now[j]
                        &&& json::contents(kept@[rows@[j].1 as int]) == records_now[j]
                    } by {
                        if j < at {
                            assert(rows@[j] == old_rows[j]);
                        } else if j > at {
                            assert(rows@[j] == old_rows[j - 1]);
                        }
                    }
                }
            }
        }
        i = i + 1;
    }
    assert(models.take(models.len() as int) == models);
    rows
}

/// Answers a query over the records that are kept in files. What is shown of a record is what
/// the public sees of the record itself, though its text is printed and parsed in between.
/// Where the records of the page are plain, the query is refused for their size alone.
pub fn api_resources(kept: &Vec<Value>, query: &ResourceListQuery) -> (result: Result<
    Value,
    ApiError,
>)
    ensures
        json_answer(result) == list_answer(json::contents_of(kept@), *query),
        result is Ok ==> ({
            let models = json::contents_of(kept@);
            let rows = first_rows(listing(models, after_did(*query)), page_limit(*query)->Ok_0);
            forall|k: int|
                0 <= k < rows.len() ==> shows_record(
                    models,
                    #[trigger] rows[k],
                    shown_rows(rows)->Ok_0[k],
                )
        }),
        page_limit(*query) is Ok ==> ({
            let models = json::contents_of(kept@);
            let listed = listed_records(models, after_did(*query));
            let page = first_records(listed, page_limit(*query)->Ok_0);
            &&& all_plain(page) ==> json_answer(result) == plain_answer(models, *query)
            &&& result is Ok ==> forall|k: int|
                0 <= k < page.len() && json::is_plain(#[trigger] page[k], json::MAX_DEPTH as nat)
                    ==> reads_back(page[k])
        }),
{
    let mut page = match ResourcePage::new(query) {
        Ok(page) => page,
        Err(error) => {
            return Err(error);
        },
    };
    let after = page.last_seen();
    let limit: usize = page.size() as usize;
    let rows = list_records(kept, after.as_str());
    let ghost all = listing(json::contents_of(kept@), after@);
    let ghost shown = first_rows(all, limit as int);
    let ghost models = json::contents_of(kept@);
    let ghost listed = listed_records(models, after@);
    let ghost chosen = first_records(listed, limit as int);
    proof {
        law_rows_are_those_of_the_records(models, after@);
        assert(rows_of(chosen) == shown);
    }
    let has_more = rows.len() > limit;
    let count: usize = if has_more {
        limit
    } else {
        rows.len()
    };
    let mut i: usize = 0;
    while i < count
        invariant
            i <= count <= rows@.len(),
            rows@.len() == all.len(),
            all == listing(json::contents_of(kept@), after@),
            shown == all.take(count as int),
            page.rows() == shown.take(i as int),
            page.after() == after@,
            has_more == (all.len() > limit),
            after@ == after_did(*query),
            page_limit(*query) == Ok::<int, error::Refusal>(limit as int),
            shown == first_rows(all, limit as int),
            models == json::contents_of(kept@),
            shown_rows(shown.take(i as int)) is Ok,
            listed == listed_records(models, after@),
            chosen == first_records(listed, limit as int),
            rows_of(chosen) == shown,
            all == rows_of(listed),
            listed.len() == all.len(),
            forall|j: int|
                0 <= j < i && json::is_plain(#[trigger] listed[j], json::MAX_DEPTH as nat)
                    ==> reads_back(listed[j]),
            forall|j: int|
                0 <= j < rows@.len() ==> {
                    &&& (#[trigger] rows@[j]).0@ == all[j].did
                    &&& rows@[j].1 < kept@.len()
                    &&& row_of(json::contents(kept@[rows@[j].1 as int])) == all[j]
                    &&& json::contents(kept@[rows@[j].1 as int]) == listed[j]
                },
        decreases count - i,
    {
        proof {
            assert(shown.take(i + 1).drop_last() == shown.take(i as int));
            assert(shown.take(i + 1).last() == all[i as int]);
        }
        let position: usize = rows[i].1;
        let did = rows[i].0.clone();
        match json::print(&kept[position]) {
            Err(complaint) => {
                return Err(ApiError::internal(complaint.as_str()));
            },
            Ok(value_json) => {
                let ghost row = Row { did: did@, text: value_json@ };
                assert(json::contents(kept@[position as int]) == listed[i as int]);
                assert(json::is_plain(listed[i as int], json::MAX_DEPTH as nat) ==> reads_back(
                    listed[i as int],
                ));
                assert(page.rows().push(row) == shown.take(i + 1));
                match page.with(did, value_json.as_str()) {
                    Err(error) => {
                        proof {
                            first_refusal_stands(shown, i + 1);
                            if all_plain(chosen) {
                                assert forall|k: int| 0 <= k < i + 1 implies reads_back(
                                    #[trigger] chosen[k],
                                ) by {
                                    assert(chosen[k] == listed[k]);
                                }
                                plain_pages_are_refused_for_size(chosen, i + 1);
                            }
                        }
                        return Err(error);
                    },
                    Ok(next) => {
                        page = next;
                    },
                }
            },
        }
        i = i + 1;
    }
    assert(shown.take(count as int) == shown);
    proof {
        let items = shown_rows(shown)->Ok_0;
        assert forall|k: int| 0 <= k < shown.len() implies shows_record(
            models,
            #[trigger] shown[k],
            items[k],
        ) by {
            shown_items_are_those_of_their_rows(shown, k);
            assert(shown[k] == all[k]);
            let position = rows@[k].1 as int;
            assert(models[position] == json::contents(kept@[position]));
            assert(row_of(models[position]) == shown[k]);
            assert(models[position] == listed[k]);
        }
        assert forall|k: int|
            0 <= k < chosen.len() && json::is_plain(
                #[trigger] chosen[k],
                json::MAX_DEPTH as nat,
            ) implies reads_back(chosen[k]) by {
            assert(chosen[k] == listed[k]);
        }
        if all_plain(chosen) {
            pages_show_what_reads_back(chosen);
        }
    }
    Ok(page.finish(has_more))
}

/// A row that leads to a refusal leads to the same one on every longer page.
proof fn first_refusal_stands(rows: Seq<Row>, count: int)
    requires
        0 <= count <= rows.len(),
        shown_rows(rows.take(count)) is Err,
    ensures
        shown_rows(rows) == shown_rows(rows.take(count)),
    decreases rows.len() - count,
{
    if count < rows.len() {
        assert(rows.take(count + 1).drop_last() == rows.take(count));
        first_refusal_stands(rows, count + 1);
    } else {
        assert(rows.take(count) == rows);
    }
}

/// Where the first records of a page read back and one of them leads to a refusal, the page is
/// refused for its size.
proof fn plain_pages_are_refused_for_size(page: Seq<JsonModel>, count: int)
    requires
        0 <= count <= page.len(),
        forall|k: int| 0 <= k < count ==> reads_back(#[trigger] page[k]),
        shown_rows(rows_of(page).take(count)) is Err,
    ensures
        size_verdict(rows_of(page)) is Err,
        shown_rows(rows_of(page)) is Err,
        shown_rows(rows_of(page))->Err_0 == size_verdict(rows_of(page))->Err_0,
{
    let rows = rows_of(page);
    let first = page.take(count);
    assert forall|k: int| 0 <= k < first.len() implies reads_back(#[trigger] first[k]) by {
        assert(first[k] == page[k]);
    }
    assert(rows_of(first) == rows.take(count));
    pages_show_what_reads_back(first);
    first_refusal_stands(rows, count);
    first_large_row_stands(rows, count);
}

/// A row that is too large is too large on every longer page.
proof fn first_large_row_stands(rows: Seq<Row>, count: int)
    requires
        0 <= count <= rows.len(),
        size_verdict(rows.take(count)) is Err,
    ensures
        size_verdict(rows) == size_verdict(rows.take(count)),
    decreases rows.len() - count,
{
    if count < rows.len() {
        assert(rows.take(count + 1).drop_last() == rows.take(count));
        first_large_row_stands(rows, count + 1);
    } else {
        assert(rows.take(count) == rows);
    }
}

/// No two records that have a DID have the same one.
pub open spec fn distinct_dids(kept: Seq<JsonModel>) -> bool {
    forall|i: int, j: int|
        0 <= i < j < kept.len() && json::text_field(#[trigger] kept[i], "resourceDid"@) is Some
            ==> json::text_field(kept[i], "resourceDid"@) != json::text_field(
            #[trigger] kept[j],
            "resourceDid"@,
        )
}

/// Each DID comes before the next ones.
pub open spec fn strictly_sorted(rows: Seq<Row>) -> bool {
    forall|i: int, j: int|
        0 <= i < j < rows.len() ==> text::text_before(#[trigger] rows[i].did, #[trigger] rows[j].did)
}

/// What a caller has seen who asked for `pages` pages, each starting where the last one said
/// that the next one starts.
pub open spec fn walked(kept: Seq<JsonModel>, after: Seq<char>, limit: int, pages: nat) -> Seq<Row>
    decreases pages,
{
    if pages == 0 {
        Seq::empty()
    } else {
        let rows = listing(kept, after);
        let page = first_rows(rows, limit);
        match next_did(page, rows.len() > limit) {
            Some(did) => page + walked(kept, did, limit, (pages - 1) as nat),
            None => page,
        }
    }
}

/// A listing holds the rows of the records after the DID, and no others.
pub proof fn law_listing_is_complete(kept: Seq<JsonModel>, after: Seq<char>, row: Row)
    ensures
        listing(kept, after).contains(row) <==> exists|i: int|
            0 <= i < kept.len() && listed_after(#[trigger] kept[i], after) && row_of(kept[i]) == row,
    decreases kept.len(),
{
    if kept.len() > 0 {
        let fewer = kept.drop_last();
        let last = kept.last();
        law_listing_is_complete(fewer, after, row);
        let rows = listing(fewer, after);
        if listed_after(last, after) {
            slot_is_where_the_row_goes(rows, row_of(last));
            let at = slot(rows, row_of(last));
            let all = rows.insert(at, row_of(last));
            if all.contains(row) {
                let j = choose|j: int| 0 <= j < all.len() && all[j] == row;
                if j == at {
                    assert(kept[kept.len() - 1] == last);
                } else {
                    let p = if j < at { j } else { j - 1 };
                    assert(rows[p] == row);
                }
            }
            if rows.contains(row) {
                let p = choose|p: int| 0 <= p < rows.len() && rows[p] == row;
                let j = if p < at { p } else { p + 1 };
                assert(all[j] == row);
            }
            assert(all[at] == row_of(last));
        }
        if exists|i: int|
            0 <= i < fewer.len() && listed_after(#[trigger] fewer[i], after) && row_of(fewer[i])
                == row {
            let i = choose|i: int|
                0 <= i < fewer.len() && listed_after(#[trigger] fewer[i], after) && row_of(fewer[i])
                    == row;
            assert(kept[i] == fewer[i]);
        }
        if exists|i: int|
            0 <= i < kept.len() && listed_after(#[trigger] kept[i], after) && row_of(kept[i])
                == row {
            let i = choose|i: int|
                0 <= i < kept.len() && listed_after(#[trigger] kept[i], after) && row_of(kept[i])
                    == row;
            if i < kept.len() - 1 {
                assert(fewer[i] == kept[i]);
            }
        }
    }
}

/// Where no two records have one DID, no two rows of a listing have one DID.
pub proof fn law_listing_holds_each_did_once(kept: Seq<JsonModel>, after: Seq<char>)
    requires
        distinct_dids(kept),
    ensures
        strictly_sorted(listing(kept, after)),
    decreases kept.len(),
{
    if kept.len() > 0 {
        let fewer = kept.drop_last();
        let last = kept.last();
        assert forall|i: int, j: int|
            0 <= i < j < fewer.len() && json::text_field(
                #[trigger] fewer[i],
                "resourceDid"@,
            ) is Some implies json::text_field(fewer[i], "resourceDid"@) != json::text_field(
            #[trigger] fewer[j],
            "resourceDid"@,
        ) by {
            assert(fewer[i] == kept[i] && fewer[j] == kept[j]);
        }
        law_listing_holds_each_did_once(fewer, after);
        if listed_after(last, after) {
            let rows = listing(fewer, after);
            let row = row_of(last);
            assert forall|j: int| 0 <= j < rows.len() implies (#[trigger] rows[j]).did
                != row.did by {
                law_listing_is_complete(fewer, after, rows[j]);
                assert(rows.contains(rows[j]));
                let i = choose|i: int|
                    0 <= i < fewer.len() && listed_after(#[trigger] fewer[i], after) && row_of(
                        fewer[i],
                    ) == rows[j];
                assert(kept[i] == fewer[i]);
                assert(kept[kept.len() - 1] == last);
            }
            law_listing_is_sorted(kept, after);
            slot_is_where_the_row_goes(rows, row);
            let at = slot(rows, row);
            let all = rows.insert(at, row);
            assert forall|i: int, j: int| 0 <= i < j < all.len() implies text::text_before(
                #[trigger] all[i].did,
                #[trigger] all[j].did,
            ) by {
                assert(!text::text_before(all[j].did, all[i].did));
                if i == at {
                    assert(all[j] == rows[j - 1]);
                    text::text_before_total(all[i].did, all[j].did);
                } else if j == at {
                    assert(all[i] == rows[i]);
                    text::text_before_total(all[i].did, all[j].did);
                } else {
                    let p = if i < at { i } else { i - 1 };
                    let q = if j < at { j } else { j - 1 };
                    assert(all[i] == rows[p] && all[j] == rows[q]);
                }
            }
        }
    }
}

/// Rows in strict order are determined by which rows they are.
proof fn strict_order_is_unique(left: Seq<Row>, right: Seq<Row>)
    requires
        strictly_sorted(left),
        strictly_sorted(right),
        forall|row: Row| left.contains(row) <==> right.contains(row),
    ensures
        left == right,
    decreases left.len(),
{
    if left.len() == 0 {
        if right.len() > 0 {
            assert(right.contains(right[0]));
        }
    } else if right.len() == 0 {
        assert(left.contains(left[0]));
    } else {
        let a = left.last();
        let b = right.last();
        assert(left.contains(a) && right.contains(b));
        let i = choose|i: int| 0 <= i < right.len() && right[i] == a;
        let j = choose|j: int| 0 <= j < left.len() && left[j] == b;
        if a != b {
            assert(text::text_before(right[i].did, right[right.len() - 1].did));
            assert(text::text_before(left[j].did, left[left.len() - 1].did));
            text::text_before_transitive(a.did, b.did, a.did);
            text::text_before_irreflexive(a.did);
        }
        assert forall|row: Row| left.drop_last().contains(row) <==> right.drop_last().contains(
            row,
        ) by {
            last_row_is_the_only_one_of_its_did(left, row);
            last_row_is_the_only_one_of_its_did(right, row);
        }
        strict_order_is_unique(left.drop_last(), right.drop_last());
        assert(left == left.drop_last().push(a));
        assert(right == right.drop_last().push(b));
    }
}

/// The rows before the last one are those that differ from it.
proof fn last_row_is_the_only_one_of_its_did(rows: Seq<Row>, row: Row)
    requires
        strictly_sorted(rows),
        rows.len() > 0,
    ensures
        rows.drop_last().contains(row) <==> rows.contains(row) && row != rows.last(),
{
    if rows.drop_last().contains(row) {
        let i = choose|i: int| 0 <= i < rows.drop_last().len() && rows.drop_last()[i] == row;
        assert(rows[i] == row);
        assert(text::text_before(rows[i].did, rows[rows.len() - 1].did));
        text::text_before_irreflexive(row.did);
    }
    if rows.contains(row) && row != rows.last() {
        let i = choose|i: int| 0 <= i < rows.len() && rows[i] == row;
        assert(rows.drop_last()[i] == row);
    }
}

/// Where no two records have one DID, the listing after the last DID of a page is the rest
/// of the listing that the page was taken from.
pub proof fn law_next_page_goes_on_where_the_page_ends(
    kept: Seq<JsonModel>,
    after: Seq<char>,
    limit: int,
)
    requires
        distinct_dids(kept),
        1 <= limit < listing(kept, after).len(),
    ensures
        listing(kept, first_rows(listing(kept, after), limit).last().did) == listing(
            kept,
            after,
        ).skip(limit),
{
    let rows = listing(kept, after);
    let did = rows[limit - 1].did;
    assert(first_rows(rows, limit).last() == rows[limit - 1]);
    law_listing_holds_each_did_once(kept, after);
    law_listing_holds_each_did_once(kept, did);
    let rest = rows.skip(limit);
    assert forall|i: int, j: int| 0 <= i < j < rest.len() implies text::text_before(
        #[trigger] rest[i].did,
        #[trigger] rest[j].did,
    ) by {
        assert(rest[i] == rows[i + limit] && rest[j] == rows[j + limit]);
    }
    law_listing_is_complete(kept, after, rows[limit - 1]);
    assert(rows.contains(rows[limit - 1]));
    assert(text::text_before(after, did));
    assert forall|row: Row| listing(kept, did).contains(row) <==> rest.contains(row) by {
        law_listing_is_complete(kept, did, row);
        law_listing_is_complete(kept, after, row);
        if rest.contains(row) {
            let j = choose|j: int| 0 <= j < rest.len() && rest[j] == row;
            assert(rows[j + limit] == row);
            assert(rows.contains(row));
            assert(text::text_before(rows[limit - 1].did, rows[j + limit].did));
            let i = choose|i: int|
                0 <= i < kept.len() && listed_after(#[trigger] kept[i], after) && row_of(kept[i])
                    == row;
            assert(listed_after(kept[i], did));
        }
        if listing(kept, did).contains(row) {
            let i = choose|i: int|
                0 <= i < kept.len() && listed_after(#[trigger] kept[i], did) && row_of(kept[i])
                    == row;
            text::text_before_transitive(after, did, row.did);
            assert(listed_after(kept[i], after));
            assert(rows.contains(row));
            let j = choose|j: int| 0 <= j < rows.len() && rows[j] == row;
            if j < limit {
                if j < limit - 1 {
                    assert(text::text_before(rows[j].did, rows[limit - 1].did));
                    text::text_before_transitive(did, row.did, did);
                }
                text::text_before_irreflexive(did);
            }
            assert(rest[j - limit] == row);
        }
    }
    strict_order_is_unique(listing(kept, did), rest);
}

/// Where no two records have one DID, following the pages shows the listing from its start,
/// in order, each row once and none left out: after so many pages, so many times the limit.
pub proof fn law_following_the_pages_shows_the_listing(
    kept: Seq<JsonModel>,
    after: Seq<char>,
    limit: int,
    pages: nat,
)
    requires
        distinct_dids(kept),
        1 <= limit,
    ensures
        walked(kept, after, limit, pages) == first_rows(listing(kept, after), pages * limit),
    decreases pages,
{
    let rows = listing(kept, after);
    if pages == 0 {
        assert(pages * limit == 0) by (nonlinear_arith)
            requires
                pages == 0,
        ;
        assert(first_rows(rows, 0) == Seq::<Row>::empty());
    } else {
        let fewer = (pages - 1) as nat;
        assert(pages * limit == fewer * limit + limit) by (nonlinear_arith)
            requires
                pages == fewer + 1,
        ;
        assert(fewer * limit >= 0) by (nonlinear_arith)
            requires
                limit >= 1,
        ;
        let page = first_rows(rows, limit);
        if rows.len() > limit {
            let did = page.last().did;
            law_next_page_goes_on_where_the_page_ends(kept, after, limit);
            law_following_the_pages_shows_the_listing(kept, did, limit, fewer);
            assert(page + first_rows(rows.skip(limit), fewer * limit) == first_rows(
                rows,
                pages * limit,
            ));
        } else {
            assert(page == first_rows(rows, pages * limit));
        }
    }
}

/// What a caller is shown who asks for `pages` pages, each starting where the one before said
/// that the next one starts, until one says that there are no more: the items, and whether
/// there are more. The first refusal ends it.
pub open spec fn walked_items(
    kept: Seq<JsonModel>,
    after: Seq<char>,
    limit: int,
    pages: nat,
) -> error::Answer<(Seq<JsonModel>, bool)>
    decreases pages,
{
    if pages == 0 {
        Ok((Seq::empty(), true))
    } else {
        let rows = listing(kept, after);
        let page = first_rows(rows, limit);
        match shown_rows(page) {
            Err(refusal) => Err(refusal),
            Ok(items) => match next_did(page, rows.len() > limit) {
                None => Ok((items, false)),
                Some(did) => match walked_items(kept, did, limit, (pages - 1) as nat) {
                    Err(refusal) => Err(refusal),
                    Ok((rest, more)) => Ok((items + rest, more)),
                },
            },
        }
    }
}

/// How many calls it takes to be shown so many records, page by page: one at least.
pub open spec fn calls_needed(count: int, limit: int) -> int
    decreases count,
{
    if count <= limit || limit < 1 {
        1
    } else {
        1 + calls_needed(count - limit, limit)
    }
}

/// A listed record is one of those that are kept.
proof fn listed_records_are_kept(kept: Seq<JsonModel>, after: Seq<char>, k: int)
    requires
        0 <= k < listed_records(kept, after).len(),
    ensures
        exists|i: int|
            0 <= i < kept.len() && listed_after(#[trigger] kept[i], after) && kept[i]
                == listed_records(kept, after)[k],
    decreases kept.len(),
{
    if kept.len() > 0 {
        let fewer = kept.drop_last();
        let before = listed_records(fewer, after);
        let last = kept.last();
        let p = if listed_after(last, after) {
            records_go_where_their_rows_go(before, last);
            let at = slot(rows_of(before), row_of(last));
            if k < at {
                k
            } else if k == at {
                -1
            } else {
                k - 1
            }
        } else {
            k
        };
        if p == -1 {
            assert(kept[kept.len() - 1] == last);
        } else {
            listed_records_are_kept(fewer, after, p);
            let i = choose|i: int|
                0 <= i < fewer.len() && listed_after(#[trigger] fewer[i], after) && fewer[i]
                    == before[p];
            assert(kept[i] == fewer[i]);
        }
    }
}

/// Records that read back are determined by their rows.
proof fn rows_determine_records(left: Seq<JsonModel>, right: Seq<JsonModel>)
    requires
        rows_of(left) == rows_of(right),
        forall|k: int| 0 <= k < left.len() ==> reads_back(#[trigger] left[k]),
        forall|k: int| 0 <= k < right.len() ==> reads_back(#[trigger] right[k]),
    ensures
        left == right,
{
    assert(rows_of(left).len() == left.len() && rows_of(right).len() == right.len());
    assert forall|k: int| 0 <= k < left.len() implies left[k] == right[k] by {
        assert(rows_of(left)[k] == row_of(left[k]));
        assert(rows_of(right)[k] == row_of(right[k]));
        assert(reads_back(left[k]) && reads_back(right[k]));
    }
    assert(left =~= right);
}

/// Following the pages shows the public forms of the records, by DID, each once: after so many
/// pages so many times the limit, and there are more as long as that is not all. It holds of
/// records no two of which have one DID and which read back from their text, where no page is
/// refused.
pub proof fn law_following_the_pages_shows_the_records(
    kept: Seq<JsonModel>,
    after: Seq<char>,
    limit: int,
    pages: nat,
)
    requires
        distinct_dids(kept),
        forall|i: int|
            0 <= i < kept.len() && listed_after(#[trigger] kept[i], after) ==> reads_back(kept[i]),
        1 <= limit,
        1 <= pages,
        walked_items(kept, after, limit, pages) is Ok,
    ensures
        ({
            let listed = listed_records(kept, after);
            &&& walked_items(kept, after, limit, pages)->Ok_0.0 == public_items(
                first_records(listed, pages * limit),
            )
            &&& walked_items(kept, after, limit, pages)->Ok_0.1 == (listed.len() > pages * limit)
        }),
    decreases pages,
{
    let listed = listed_records(kept, after);
    let rows = listing(kept, after);
    let page = first_records(listed, limit);
    law_rows_are_those_of_the_records(kept, after);
    assert(rows.len() == listed.len());
    assert(first_rows(rows, limit) == rows_of(page));
    assert forall|k: int| 0 <= k < listed.len() implies reads_back(#[trigger] listed[k]) by {
        listed_records_are_kept(kept, after, k);
    }
    assert forall|k: int| 0 <= k < page.len() implies reads_back(#[trigger] page[k]) by {
        assert(page[k] == listed[k]);
    }
    pages_show_what_reads_back(page);
    let fewer = (pages - 1) as nat;
    assert(pages * limit == fewer * limit + limit && fewer * limit >= 0) by (nonlinear_arith)
        requires
            pages == fewer + 1,
            limit >= 1,
    ;
    if rows.len() > limit {
        let did = rows_of(page).last().did;
        law_next_page_goes_on_where_the_page_ends(kept, after, limit);
        let rest = listed_records(kept, did);
        law_rows_are_those_of_the_records(kept, did);
        law_listing_is_complete(kept, after, rows[limit - 1]);
        assert(rows.contains(rows[limit - 1]));
        assert(text::text_before(after, did));
        assert forall|i: int|
            0 <= i < kept.len() && listed_after(#[trigger] kept[i], did) implies reads_back(
            kept[i],
        ) by {
            text::text_before_transitive(after, did, did_of(kept[i]));
            assert(listed_after(kept[i], after));
        }
        assert forall|k: int| 0 <= k < rest.len() implies reads_back(#[trigger] rest[k]) by {
            listed_records_are_kept(kept, did, k);
        }
        let tail = listed.skip(limit);
        assert forall|k: int| 0 <= k < tail.len() implies reads_back(#[trigger] tail[k]) by {
            assert(tail[k] == listed[k + limit]);
        }
        assert(rows_of(tail) == rows.skip(limit));
        rows_determine_records(rest, tail);
        if fewer == 0 {
            assert(fewer * limit == 0) by (nonlinear_arith)
                requires
                    fewer == 0,
            ;
            assert(first_records(listed, pages * limit) == page);
            assert(public_items(page) + Seq::<JsonModel>::empty() == public_items(page));
        } else {
            law_following_the_pages_shows_the_records(kept, did, limit, fewer);
            assert(public_items(page) + public_items(first_records(tail, fewer * limit))
                == public_items(first_records(listed, pages * limit)));
        }
    } else {
        assert(first_records(listed, pages * limit) == page);
    }
}

/// So many calls show so many records, and fewer do not: the number of records divided by the
/// limit, rounded up, and one for no records.
pub proof fn law_calls_needed_are_enough_and_no_more(count: int, limit: int, pages: int)
    requires
        0 <= count,
        1 <= limit,
    ensures
        1 <= calls_needed(count, limit),
        count <= calls_needed(count, limit) * limit,
        1 <= pages < calls_needed(count, limit) ==> pages * limit < count,
    decreases count,
{
    let calls = calls_needed(count, limit);
    if count <= limit {
        assert(calls * limit == limit) by (nonlinear_arith)
            requires
                calls == 1,
        ;
    } else {
        law_calls_needed_are_enough_and_no_more(count - limit, limit, pages - 1);
        assert(calls * limit == (calls - 1) * limit + limit) by (nonlinear_arith);
        assert(pages * limit == (pages - 1) * limit + limit) by (nonlinear_arith);
        if pages == 1 {
            assert((pages - 1) * limit == 0) by (nonlinear_arith)
                requires
                    pages == 1,
            ;
        }
    }
}

/// Where every record comes after the DID, all of them are listed.
proof fn all_records_are_listed(kept: Seq<JsonModel>, after: Seq<char>)
    requires
        forall|i: int| 0 <= i < kept.len() ==> listed_after(#[trigger] kept[i], after),
    ensures
        listed_records(kept, after).len() == kept.len(),
        listed_records(kept, after).to_multiset() == kept.to_multiset(),
    decreases kept.len(),
{
    broadcast use vstd::seq_lib::group_to_multiset_ensures;

    if kept.len() > 0 {
        let fewer = kept.drop_last();
        assert forall|i: int| 0 <= i < fewer.len() implies listed_after(
            #[trigger] fewer[i],
            after,
        ) by {
            assert(fewer[i] == kept[i]);
        }
        assert(listed_after(kept[kept.len() - 1], after));
        all_records_are_listed(fewer, after);
        let before = listed_records(fewer, after);
        records_go_where_their_rows_go(before, kept.last());
        let at = slot(rows_of(before), row_of(kept.last()));
        vstd::seq_lib::to_multiset_insert(before, at, kept.last());
        assert(kept == fewer.push(kept.last()));
    } else {
        assert(kept == Seq::<JsonModel>::empty());
    }
}

/// A caller who starts with no DID and follows the pages to the end is shown all records, each
/// once and in the order of their DIDs, in as many calls as it takes. What is shown is the same
/// for every limit. It holds of records that have a DID each, no two the same, and that read
/// back from their text, where no page is refused.
pub proof fn law_following_the_pages_to_the_end_shows_all(
    kept: Seq<JsonModel>,
    limit: int,
    pages: nat,
)
    requires
        distinct_dids(kept),
        forall|i: int|
            0 <= i < kept.len() ==> listed_after(#[trigger] kept[i], Seq::empty()) && reads_back(
                kept[i],
            ),
        1 <= limit,
        1 <= pages,
        walked_items(kept, Seq::empty(), limit, pages) is Ok,
    ensures
        ({
            let listed = listed_records(kept, Seq::empty());
            let walked = walked_items(kept, Seq::empty(), limit, pages)->Ok_0;
            &&& listed.to_multiset() == kept.to_multiset()
            &&& strictly_sorted(rows_of(listed))
            &&& pages < calls_needed(kept.len() as int, limit) ==> walked.1
            &&& pages == calls_needed(kept.len() as int, limit) ==> walked == (
                public_items(listed),
                false,
            )
        }),
{
    let listed = listed_records(kept, Seq::empty());
    all_records_are_listed(kept, Seq::empty());
    law_rows_are_those_of_the_records(kept, Seq::empty());
    law_listing_holds_each_did_once(kept, Seq::empty());
    law_following_the_pages_shows_the_records(kept, Seq::empty(), limit, pages);
    law_calls_needed_are_enough_and_no_more(kept.len() as int, limit, pages as int);
    if pages == calls_needed(kept.len() as int, limit) {
        assert(first_records(listed, pages * limit) == listed);
    }
}

/// A page that is shown holds no more bytes than a page may.
pub proof fn law_shown_pages_are_small(rows: Seq<Row>)
    requires
        shown_rows(rows) is Ok,
    ensures
        rows_bytes(rows) <= records::REGISTRAR_MAX_PAGE_BYTES,
        shown_rows(rows)->Ok_0.len() == rows.len(),
    decreases rows.len(),
{
    if rows.len() > 0 {
        law_shown_pages_are_small(rows.drop_last());
    }
}

/// An answered query shows at most as many records as it asked for, and never more than
/// the largest page.
pub proof fn law_answers_keep_the_limit(kept: Seq<JsonModel>, query: ResourceListQuery)
    requires
        list_answer(kept, query) is Ok,
    ensures
        page_limit(query) is Ok,
        first_rows(listing(kept, after_did(query)), page_limit(query)->Ok_0).len()
            <= page_limit(query)->Ok_0 <= REGISTRAR_MAX_PAGE_SIZE,
{
}

/// Where no two records have one DID, it does not matter in which order the records are kept.
pub proof fn law_listing_ignores_the_order_of_records(
    left: Seq<JsonModel>,
    right: Seq<JsonModel>,
    after: Seq<char>,
)
    requires
        distinct_dids(left),
        distinct_dids(right),
        left.to_multiset() == right.to_multiset(),
    ensures
        listing(left, after) == listing(right, after),
{
    law_listing_holds_each_did_once(left, after);
    law_listing_holds_each_did_once(right, after);
    assert forall|row: Row| listing(left, after).contains(row) <==> listing(right, after).contains(
        row,
    ) by {
        law_listing_is_complete(left, after, row);
        law_listing_is_complete(right, after, row);
        same_records_have_the_same_rows(left, right, after, row);
        same_records_have_the_same_rows(right, left, after, row);
    }
    strict_order_is_unique(listing(left, after), listing(right, after));
}

/// A row of some records is a row of the same records in another order.
proof fn same_records_have_the_same_rows(
    left: Seq<JsonModel>,
    right: Seq<JsonModel>,
    after: Seq<char>,
    row: Row,
)
    requires
        left.to_multiset() == right.to_multiset(),
    ensures
        (exists|i: int|
            0 <= i < left.len() && listed_after(#[trigger] left[i], after) && row_of(left[i])
                == row) ==> (exists|i: int|
            0 <= i < right.len() && listed_after(#[trigger] right[i], after) && row_of(right[i])
                == row),
{
    broadcast use vstd::seq_lib::group_to_multiset_ensures;

    if exists|i: int|
        0 <= i < left.len() && listed_after(#[trigger] left[i], after) && row_of(left[i]) == row {
        let i = choose|i: int|
            0 <= i < left.len() && listed_after(#[trigger] left[i], after) && row_of(left[i])
                == row;
        assert(left.contains(left[i]));
        assert(right.to_multiset().count(left[i]) > 0);
        assert(right.contains(left[i]));
        let j = choose|j: int| 0 <= j < right.len() && right[j] == left[i];
        assert(listed_after(right[j], after));
    }
}

/// The keys of a page are all different.
proof fn page_keys_differ()
    ensures
        "items"@.len() == 5 && "items"@[0] == 'i',
        "count"@.len() == 5 && "count"@[0] == 'c',
        "afterDid"@.len() == 8,
        "nextDid"@.len() == 7 && "nextDid"@[0] == 'n',
        "hasMore"@.len() == 7 && "hasMore"@[0] == 'h',
{
    reveal_strlit("items");
    reveal_strlit("count");
    reveal_strlit("afterDid");
    reveal_strlit("nextDid");
    reveal_strlit("hasMore");
}

/// A page holds a hundred records unless another number was asked for. That has to lie between
/// one and five hundred; the page then holds just as many.
pub proof fn law_pages_hold_as_many_as_asked_for(query: ResourceListQuery)
    ensures
        query.limit is None ==> page_limit(query) == Ok::<int, error::Refusal>(100),
        query.limit is Some && 1 <= query.limit->0 <= 500 ==> page_limit(query) == Ok::<
            int,
            error::Refusal,
        >(query.limit->0 as int),
        query.limit is Some && (query.limit->0 == 0 || query.limit->0 > 500) ==> page_limit(query)
            == Err::<int, error::Refusal>(
            error::Refusal { status: 400, message: "invalid_resource_page_limit"@ },
        ),
{
}

/// A page starts after the DID that was asked for. Where none was, it starts at the first record:
/// every DID but the empty one comes after nothing.
pub proof fn law_pages_start_after_the_did(query: ResourceListQuery, record: JsonModel)
    ensures
        query.after_did is Some ==> after_did(query) == query.after_did->0@,
        query.after_did is None ==> after_did(query) == Seq::<char>::empty(),
        listed_after(record, Seq::empty()) <==> json::text_field(record, "resourceDid"@) is Some
            && json::text_field(record, "resourceDid"@)->0.len() > 0,
        listed_after(record, after_did(query)) ==> json::text_field(record, "resourceDid"@)
            != Some(after_did(query)),
{
    text::text_before_irreflexive(after_did(query));
}

/// Where a row goes among others: behind those whose DID is not greater, before those whose DID
/// is.
pub open spec fn goes_between(rows: Seq<Row>, row: Row, at: int) -> bool {
    &&& 0 <= at <= rows.len()
    &&& forall|j: int| 0 <= j < at ==> !text::text_before(row.did, #[trigger] rows[j].did)
    &&& forall|j: int| at <= j < rows.len() ==> text::text_before(row.did, #[trigger] rows[j].did)
}

/// One more record after the DID is one more row, behind all whose DID is not greater: records
/// with one DID are listed in the order in which they are kept. Any other record is no row.
pub proof fn law_one_more_record_is_listed_in_its_place(
    kept: Seq<JsonModel>,
    after: Seq<char>,
    record: JsonModel,
    at: int,
)
    ensures
        listing(Seq::empty(), after) == Seq::<Row>::empty(),
        !listed_after(record, after) ==> listing(kept.push(record), after) == listing(kept, after),
        listed_after(record, after) && goes_between(listing(kept, after), row_of(record), at)
            ==> listing(kept.push(record), after) == listing(kept, after).insert(
            at,
            row_of(record),
        ),
{
    assert(kept.push(record).drop_last() == kept);
    if listed_after(record, after) && goes_between(listing(kept, after), row_of(record), at) {
        slot_is_unique(listing(kept, after), row_of(record), at);
    }
}

/// A row is the DID of its record, and the record as it is printed.
pub proof fn law_rows_hold_the_record(record: JsonModel, did: Seq<char>)
    requires
        json::field(record, "resourceDid"@) == Some(JsonModel::Text(did)),
    ensures
        row_of(record).did == did,
        row_of(record).text == json::printed(record),
        did_of(record) == did,
{
}

/// The bytes of rows are those of their texts, added up.
pub proof fn law_bytes_of_rows_add_up(rows: Seq<Row>, row: Row)
    ensures
        rows_bytes(Seq::empty()) == 0,
        rows_bytes(rows.push(row)) == rows_bytes(rows) + vstd::utf8::encode_utf8(row.text).len(),
{
    assert(rows.push(row).drop_last() == rows);
}

/// Rows are shown one by one, in order. The first that cannot be shown decides for all.
pub proof fn law_rows_are_shown_one_by_one(rows: Seq<Row>, row: Row)
    ensures
        shown_rows(Seq::empty()) == Ok::<Seq<JsonModel>, error::Refusal>(Seq::empty()),
        shown_rows(rows) is Err ==> shown_rows(rows.push(row)) == shown_rows(rows),
        shown_rows(rows) is Ok ==> match records::listed_item(row.text, rows_bytes(rows)) {
            Ok(item) => shown_rows(rows.push(row)) == Ok::<Seq<JsonModel>, error::Refusal>(
                shown_rows(rows)->Ok_0.push(item),
            ),
            Err(refusal) => shown_rows(rows.push(row)) == Err::<Seq<JsonModel>, error::Refusal>(
                refusal,
            ),
        },
{
    assert(rows.push(row).drop_last() == rows);
}

/// Rows are small enough if and only if each is, and all of them together are.
pub proof fn law_small_pages_have_small_rows(rows: Seq<Row>)
    ensures
        size_verdict(rows) is Ok <==> ((forall|k: int|
            0 <= k < rows.len() ==> records::byte_length((#[trigger] rows[k]).text) <= 1048576)
            && rows_bytes(rows) <= 8388608),
        0 <= rows_bytes(rows),
        size_verdict(rows) is Err ==> size_verdict(rows)->Err_0 == (error::Refusal {
            status: 400,
            message: "resource_record_too_large"@,
        }) || size_verdict(rows)->Err_0 == (error::Refusal {
            status: 400,
            message: "resource_page_too_large"@,
        }),
    decreases rows.len(),
{
    if rows.len() > 0 {
        let fewer = rows.drop_last();
        law_small_pages_have_small_rows(fewer);
        assert(rows_bytes(fewer) <= rows_bytes(rows));
        if size_verdict(rows) is Ok {
            assert forall|k: int| 0 <= k < rows.len() implies records::byte_length(
                (#[trigger] rows[k]).text,
            ) <= 1048576 by {
                if k < rows.len() - 1 {
                    assert(fewer[k] == rows[k]);
                }
            }
        }
        if (forall|k: int|
            0 <= k < rows.len() ==> records::byte_length((#[trigger] rows[k]).text) <= 1048576)
            && rows_bytes(rows) <= 8388608 {
            assert forall|k: int| 0 <= k < fewer.len() implies records::byte_length(
                (#[trigger] fewer[k]).text,
            ) <= 1048576 by {
                assert(fewer[k] == rows[k]);
            }
            assert(records::byte_length(rows[rows.len() - 1].text) <= 1048576);
        }
    }
}

/// What a page says: the records that it shows, as the public sees them and in the order of the
/// listing, as many as its limit allows; how many these are; where it starts; whether there are
/// more; and if so, that the next one starts after its last DID.
pub proof fn law_pages_say_what_they_hold(kept: Seq<JsonModel>, query: ResourceListQuery)
    requires
        list_answer(kept, query) is Ok,
    ensures
        ({
            let body = list_answer(kept, query)->Ok_0;
            let limit = page_limit(query)->Ok_0;
            let rows = listing(kept, after_did(query));
            let shown = if rows.len() <= limit {
                rows.len() as int
            } else {
                limit
            };
            let items = json::array_field(body, "items"@);
            &&& items is Some
            &&& items->0.len() == shown
            &&& forall|k: int|
                0 <= k < shown ==> json::parsed(rows[k].text) is Ok && #[trigger] items->0[k]
                    == records::public_record(json::parsed(rows[k].text)->Ok_0)
            &&& json::field(body, "count"@) == Some(JsonModel::Integer(shown))
            &&& json::field(body, "afterDid"@) == Some(
                if after_did(query).len() == 0 {
                    JsonModel::Null
                } else {
                    JsonModel::Text(after_did(query))
                },
            )
            &&& json::field(body, "hasMore"@) == Some(JsonModel::Bool(rows.len() > limit))
            &&& json::field(body, "nextDid"@) == Some(
                if rows.len() > limit {
                    JsonModel::Text(rows[limit - 1].did)
                } else {
                    JsonModel::Null
                },
            )
            &&& body->Object_0.dom() =~= set![
                "items"@, "count"@, "afterDid"@, "nextDid"@, "hasMore"@,
            ]
        }),
{
    page_keys_differ();
    let limit = page_limit(query)->Ok_0;
    let rows = listing(kept, after_did(query));
    let page = first_rows(rows, limit);
    law_shown_pages_are_small(page);
    let items = shown_rows(page)->Ok_0;
    assert forall|k: int| 0 <= k < page.len() implies json::parsed(rows[k].text) is Ok
        && #[trigger] items[k] == records::public_record(json::parsed(rows[k].text)->Ok_0) by {
        shown_items_are_those_of_their_rows(page, k);
        assert(page[k] == rows[k]);
    }
    if rows.len() > limit {
        assert(page.last() == rows[limit - 1]);
    }
}

/// A listing is refused for its limit, or for the records on its page, and for nothing else.
pub proof fn law_listings_are_refused_for_their_page(kept: Seq<JsonModel>, query: ResourceListQuery)
    ensures
        page_limit(query) is Err ==> list_answer(kept, query) == Err::<JsonModel, error::Refusal>(
            page_limit(query)->Err_0,
        ),
        page_limit(query) is Ok ==> {
            let page = first_rows(listing(kept, after_did(query)), page_limit(query)->Ok_0);
            &&& list_answer(kept, query) is Err <==> shown_rows(page) is Err
            &&& shown_rows(page) is Err ==> list_answer(kept, query) == Err::<
                JsonModel,
                error::Refusal,
            >(shown_rows(page)->Err_0)
        },
{
}

/// An answer is seen as what it is.
pub proof fn law_answers_are_seen_as_they_are(result: Result<Value, ApiError>)
    ensures
        json_answer(result) is Ok <==> result is Ok,
        result is Ok ==> json_answer(result)->Ok_0 == json::contents(result->Ok_0),
        result is Err ==> json_answer(result)->Err_0.status == result->Err_0.status
            && json_answer(result)->Err_0.message == result->Err_0.message@,
{
}

/// A record is listed after a DID if its own DID comes after it, and for no other reason left out.
/// A record without a DID is not listed.
pub proof fn law_records_are_listed_by_their_did(
    record: JsonModel,
    did: Seq<char>,
    after: Seq<char>,
)
    ensures
        json::field(record, "resourceDid"@) == Some(JsonModel::Text(did)) ==> (listed_after(
            record,
            after,
        ) <==> text::text_before(after, did)),
        !(json::member_or_null(record, "resourceDid"@) is Text) ==> !listed_after(record, after),
{
}

} // verus!
