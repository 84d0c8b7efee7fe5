//! What the SQLite store writes and reads: the codec between domain values and table rows, and
//! the checks that the store makes before it writes. The SQL itself runs outside this crate.
use vstd::prelude::*;

use crate::json::spec_json_string;
use crate::text::{nat_text, str_eq};

use crate::abort::Abort;
use crate::cadence::GateCadence;
use crate::gate::{CooldownState, GateError, GateOp, GatePhase, GateState, LockedState, gate_applied};
use crate::ids::{GateId, ItemId, uuid_bytes, uuid_from_slice, uuid_to_bytes, uuid_version, lemma_uuid_bytes_injective};
use crate::item::{Answer, ChoiceIndex, Item, ItemError, McqChoices};
use crate::time::{Timestamp, rfc3339_round_trips, text_instant_is, timestamp_text};

verus! {

/// The schema version that `migrate` writes into `PRAGMA user_version`.
pub const SCHEMA_VERSION: i32 = 1;

/// The cooldown after an abort when the settings hold none: one minute.
pub const DEFAULT_COOLDOWN_MS: i64 = 60000;

/// Why a store operation failed.
#[derive(Debug, Clone, PartialEq, Eq)]
pub enum StoreError {
    CorruptDatabase,
    Gate(GateError),
    InvalidPrompt(String),
    Item(ItemError),
    ItemMissing,
    ItemSuspended,
    Sqlite(String),
    /// An instant too far from the epoch for its RFC 3339 text to be written.
    TimestampOutOfRange,
}

/// The text of a store error.
pub open spec fn store_error_text(e: StoreError) -> Seq<char> {
    match e {
        StoreError::CorruptDatabase => "database is corrupt or not a recallgate store"@,
        StoreError::Gate(GateError::AlreadyLocked) => "AlreadyLocked"@,
        StoreError::Gate(GateError::NotLocked) => "NotLocked"@,
        StoreError::Gate(GateError::IllegalTransition) => "IllegalTransition"@,
        StoreError::InvalidPrompt(msg) => msg@,
        StoreError::Item(ItemError::InvalidChosenIndex) => "InvalidChosenIndex"@,
        StoreError::ItemMissing => "item not found in deck"@,
        StoreError::ItemSuspended => "item is suspended and cannot be locked"@,
        StoreError::Sqlite(msg) => msg@,
        StoreError::TimestampOutOfRange => "timestamp out of range"@,
    }
}

impl StoreError {
    /// The text that describes the error to a user.
    pub fn message(&self) -> (r: String)
        ensures
            r@ == store_error_text(*self),
    {
        proof {
            reveal_strlit("database is corrupt or not a recallgate store");
            reveal_strlit("AlreadyLocked");
            reveal_strlit("NotLocked");
            reveal_strlit("IllegalTransition");
            reveal_strlit("InvalidChosenIndex");
            reveal_strlit("item not found in deck");
            reveal_strlit("item is suspended and cannot be locked");
            reveal_strlit("timestamp out of range");
        }
        match self {
            StoreError::CorruptDatabase => String::from_str("database is corrupt or not a recallgate store"),
            StoreError::Gate(GateError::AlreadyLocked) => String::from_str("AlreadyLocked"),
            StoreError::Gate(GateError::NotLocked) => String::from_str("NotLocked"),
            StoreError::Gate(GateError::IllegalTransition) => String::from_str("IllegalTransition"),
            StoreError::InvalidPrompt(msg) => msg.clone(),
            StoreError::Item(ItemError::InvalidChosenIndex) => String::from_str("InvalidChosenIndex"),
            StoreError::ItemMissing => String::from_str("item not found in deck"),
            StoreError::ItemSuspended => String::from_str("item is suspended and cannot be locked"),
            StoreError::Sqlite(msg) => msg.clone(),
            StoreError::TimestampOutOfRange => String::from_str("timestamp out of range"),
        }
    }
}

impl From<GateError> for StoreError {
    fn from(value: GateError) -> (r: StoreError) {
        StoreError::Gate(value)
    }
}

impl vstd::std_specs::convert::FromSpecImpl<GateError> for StoreError {
    open spec fn obeys_from_spec() -> bool {
        true
    }

    open spec fn from_spec(v: GateError) -> StoreError {
        StoreError::Gate(v)
    }
}

impl From<ItemError> for StoreError {
    fn from(value: ItemError) -> (r: StoreError) {
        StoreError::Item(value)
    }
}

impl vstd::std_specs::convert::FromSpecImpl<ItemError> for StoreError {
    open spec fn obeys_from_spec() -> bool {
        true
    }

    open spec fn from_spec(v: ItemError) -> StoreError {
        StoreError::Item(v)
    }
}

/// The JSON strings of a list of texts, separated by commas.
pub open spec fn json_string_items(items: Seq<Seq<char>>) -> Seq<char>
    decreases items.len(),
{
    if items.len() == 0 {
        Seq::empty()
    } else if items.len() == 1 {
        spec_json_string(items[0])
    } else {
        json_string_items(items.drop_last()) + seq![','] + spec_json_string(items.last())
    }
}

/// The JSON text that serde_json writes for a list of strings: its JSON strings between
/// brackets, separated by commas, with no white space.
pub open spec fn spec_json_string_array(items: Seq<Seq<char>>) -> Seq<char> {
    seq!['['] + json_string_items(items) + seq![']']
}

/// The list of strings that serde_json reads from a JSON text, if it is a JSON array of strings.
pub uninterp spec fn spec_parse_json_string_array(text: Seq<char>) -> Option<Seq<Seq<char>>>;

/// The texts of a list of strings.
pub open spec fn string_views(items: Seq<String>) -> Seq<Seq<char>> {
    items.map_values(|s: String| s@)
}

/// Calls `serde_json::to_string` on a slice of strings, which writes `[`, the strings as
/// `json_encode_str` writes them with `,` between them, and `]` (serde_json's compact
/// formatter). Serialising strings cannot fail, and `serde_json::from_str::<Vec<String>>` reads
/// the text back to the same strings.
#[verifier::external_body]
pub(crate) fn json_encode_strings(items: &[String]) -> (r: String)
    ensures
        r@ == spec_json_string_array(string_views(items@)),
        spec_parse_json_string_array(r@) == Some(string_views(items@)),
{
    match serde_json::to_string(items) {
        Ok(text) => text,
        Err(_) => String::new(),
    }
}

/// Calls `serde_json::from_str::<Vec<String>>`; what it accepts is named by
/// `spec_parse_json_string_array`.
#[verifier::external_body]
fn json_decode_strings(text: &str) -> (r: Option<Vec<String>>)
    ensures
        (match r {
            Some(v) => spec_parse_json_string_array(text@) == Some(string_views(v@)),
            None => spec_parse_json_string_array(text@) is None,
        }),
{
    match serde_json::from_str::<Vec<String>>(text) {
        Ok(v) => Some(v),
        Err(_) => None,
    }
}

fn clone_opt_string(s: &Option<String>) -> (r: Option<String>)
    ensures
        r == *s,
{
    match s {
        Some(text) => Some(text.clone()),
        None => None,
    }
}

/// The text of an optional string.
pub open spec fn opt_view(s: Option<String>) -> Option<Seq<char>> {
    match s {
        Some(text) => Some(text@),
        None => None,
    }
}

// ---------------------------------------------------------------------------------------------
// Identifier blobs and timestamp texts.

/// A blob holds the 16 bytes of a version 4 UUID `value`.
pub open spec fn blob_holds_id(blob: Option<Seq<u8>>, value: u128) -> bool {
    blob == Some(uuid_bytes(value)) && uuid_version(value) == 4
}

/// A text holds the RFC 3339 form of an instant.
pub open spec fn text_holds_time(text: Option<Seq<char>>, t: Timestamp) -> bool {
    text matches Some(s) && text_instant_is(s, t)
}

pub open spec fn blob_view(blob: Option<Vec<u8>>) -> Option<Seq<u8>> {
    match blob {
        Some(b) => Some(b@),
        None => None,
    }
}

/// Reads the UUID of an identifier column; `CorruptDatabase` when the column holds no
/// version 4 UUID.
fn read_uuid_blob(blob: &Option<Vec<u8>>) -> (r: Result<u128, StoreError>)
    ensures
        (match r {
            Ok(v) => blob_holds_id(blob_view(*blob), v),
            Err(e) => e == StoreError::CorruptDatabase && forall|v: u128| !blob_holds_id(blob_view(*blob), v),
        }),
{
    match blob {
        None => Err(StoreError::CorruptDatabase),
        Some(bytes) => match uuid_from_slice(bytes.as_slice()) {
            Err(_) => {
                assert forall|v: u128| !blob_holds_id(blob_view(*blob), v) by {
                    assert(uuid_bytes(v).len() == 16);
                }
                Err(StoreError::CorruptDatabase)
            },
            Ok(value) => {
                if crate::ids::ItemId::from_uuid(value).is_ok() {
                    Ok(value)
                } else {
                    assert forall|v: u128| !blob_holds_id(blob_view(*blob), v) by {
                        if uuid_bytes(v) == bytes@ {
                            lemma_uuid_bytes_injective(v, value);
                        }
                    }
                    Err(StoreError::CorruptDatabase)
                }
            },
        },
    }
}

/// Reads the item identifier stored in a blob column.
pub fn read_item_id(blob: &Option<Vec<u8>>) -> (r: Result<ItemId, StoreError>)
    ensures
        (match r {
            Ok(id) => blob_holds_id(blob_view(*blob), id@),
            Err(e) => e == StoreError::CorruptDatabase && forall|v: u128| !blob_holds_id(blob_view(*blob), v),
        }),
{
    let value = read_uuid_blob(blob)?;
    match ItemId::from_uuid(value) {
        Ok(id) => Ok(id),
        Err(_) => Err(StoreError::CorruptDatabase),
    }
}

/// Reads the session identifier stored in a blob column.
pub fn read_gate_id(blob: &Option<Vec<u8>>) -> (r: Result<GateId, StoreError>)
    ensures
        (match r {
            Ok(id) => blob_holds_id(blob_view(*blob), id@),
            Err(e) => e == StoreError::CorruptDatabase && forall|v: u128| !blob_holds_id(blob_view(*blob), v),
        }),
{
    let value = read_uuid_blob(blob)?;
    match GateId::from_uuid(value) {
        Ok(id) => Ok(id),
        Err(_) => Err(StoreError::CorruptDatabase),
    }
}

/// Reads an instant stored as RFC 3339 text; `CorruptDatabase` when the column holds none.
pub fn read_timestamp(text: &Option<String>) -> (r: Result<Timestamp, StoreError>)
    ensures
        (match r {
            Ok(t) => text_holds_time(opt_view(*text), t),
            Err(e) => e == StoreError::CorruptDatabase && forall|t: Timestamp| !text_holds_time(opt_view(*text), t),
        }),
{
    match text {
        None => Err(StoreError::CorruptDatabase),
        Some(s) => match Timestamp::parse_rfc3339(s.as_str()) {
            Some(t) => Ok(t),
            None => Err(StoreError::CorruptDatabase),
        },
    }
}

/// Writes an instant as RFC 3339 text.
pub fn write_timestamp(t: Timestamp) -> (r: Result<String, StoreError>)
    ensures
        (match r {
            Ok(text) => timestamp_text(t) == Some(text@),
            Err(e) => e == StoreError::TimestampOutOfRange && timestamp_text(t) is None,
        }),
        rfc3339_round_trips(t) ==> (r matches Ok(text) && text_holds_time(Some(text@), t)),
{
    match t.to_rfc3339() {
        Some(text) => Ok(text),
        None => Err(StoreError::TimestampOutOfRange),
    }
}

// ---------------------------------------------------------------------------------------------
// The row of phase data.

/// The single row of `gate_singleton`: phase name, session id, item id, start, cooldown end.
#[derive(Debug, Clone, PartialEq, Eq)]
pub struct GateRow {
    pub phase: String,
    pub gate_id: Option<Vec<u8>>,
    pub item_id: Option<Vec<u8>>,
    pub started_at: Option<String>,
    pub until: Option<String>,
}

/// A gate row as plain values.
pub struct GateRowView {
    pub phase: Seq<char>,
    pub gate_id: Option<Seq<u8>>,
    pub item_id: Option<Seq<u8>>,
    pub started_at: Option<Seq<char>>,
    pub until: Option<Seq<char>>,
}

impl View for GateRow {
    type V = GateRowView;

    open spec fn view(&self) -> GateRowView {
        GateRowView {
            phase: self.phase@,
            gate_id: blob_view(self.gate_id),
            item_id: blob_view(self.item_id),
            started_at: opt_view(self.started_at),
            until: opt_view(self.until),
        }
    }
}

/// The row that `encode_gate` writes for a phase: its name, the identifier bytes and the RFC 3339
/// texts of the columns that the phase uses, the other columns empty.
pub open spec fn gate_row_writes(row: GateRowView, phase: GatePhase) -> bool {
    match phase {
        GatePhase::Idle => row.phase == "idle"@ && row.gate_id is None && row.item_id is None
            && row.started_at is None && row.until is None,
        GatePhase::Locked(l) => row.phase == "locked"@ && row.gate_id == Some(uuid_bytes(l.gate_id@))
            && row.item_id == Some(uuid_bytes(l.item_id@)) && row.started_at == timestamp_text(l.started_at) && row.until is None,
        GatePhase::Cooldown(c) => row.phase == "cooldown"@ && row.gate_id == Some(uuid_bytes(c.gate_id@))
            && row.item_id is None && row.started_at is None && row.until == timestamp_text(c.until),
    }
}

/// A row holds a phase: it names the phase and the columns that the phase uses hold its
/// identifiers and texts that read back as its instants.
pub open spec fn gate_row_holds(row: GateRowView, phase: GatePhase) -> bool {
    match phase {
        GatePhase::Idle => row.phase == "idle"@,
        GatePhase::Locked(l) => row.phase == "locked"@ && row.gate_id == Some(uuid_bytes(l.gate_id@))
            && row.item_id == Some(uuid_bytes(l.item_id@)) && text_holds_time(row.started_at, l.started_at),
        GatePhase::Cooldown(c) => row.phase == "cooldown"@ && row.gate_id == Some(uuid_bytes(c.gate_id@))
            && text_holds_time(row.until, c.until),
    }
}

/// Whether a row reads back as `r`: the phase named by the row, with the identifiers and
/// instants held in its columns, or `CorruptDatabase` when the name is unknown or a column
/// that the phase needs holds no valid value.
pub open spec fn gate_row_decodes(row: GateRowView, r: Result<GatePhase, StoreError>) -> bool {
    if row.phase == "idle"@ {
        r == Ok::<GatePhase, StoreError>(GatePhase::Idle)
    } else if row.phase == "locked"@ {
        match r {
            Ok(GatePhase::Locked(l)) => blob_holds_id(row.gate_id, l.gate_id@) && blob_holds_id(
                row.item_id,
                l.item_id@,
            ) && text_holds_time(row.started_at, l.started_at),
            Ok(_) => false,
            Err(e) => e == StoreError::CorruptDatabase && ((forall|v: u128| !blob_holds_id(row.gate_id, v))
                || (forall|v: u128| !blob_holds_id(row.item_id, v)) || (forall|t: Timestamp|
                !text_holds_time(row.started_at, t))),
        }
    } else if row.phase == "cooldown"@ {
        match r {
            Ok(GatePhase::Cooldown(c)) => blob_holds_id(row.gate_id, c.gate_id@) && text_holds_time(
                row.until,
                c.until,
            ),
            Ok(_) => false,
            Err(e) => e == StoreError::CorruptDatabase && ((forall|v: u128| !blob_holds_id(row.gate_id, v))
                || (forall|t: Timestamp| !text_holds_time(row.until, t))),
        }
    } else {
        r == Err::<GatePhase, StoreError>(StoreError::CorruptDatabase)
    }
}

/// The identifiers that a phase holds are version 4 UUIDs, as every identifier value is.
pub open spec fn phase_ids_valid(phase: GatePhase) -> bool {
    match phase {
        GatePhase::Idle => true,
        GatePhase::Locked(l) => uuid_version(l.gate_id@) == 4 && uuid_version(l.item_id@) == 4,
        GatePhase::Cooldown(c) => uuid_version(c.gate_id@) == 4,
    }
}

/// The instants that a phase stores.
pub open spec fn phase_times_round_trip(phase: GatePhase) -> bool {
    match phase {
        GatePhase::Idle => true,
        GatePhase::Locked(l) => rfc3339_round_trips(l.started_at),
        GatePhase::Cooldown(c) => rfc3339_round_trips(c.until),
    }
}


/// The row that stores a gate phase.
pub fn encode_gate(phase: &GatePhase) -> (r: Result<GateRow, StoreError>)
    ensures
        (match r {
            Ok(row) => gate_row_writes(row@, *phase),
            Err(e) => e == StoreError::TimestampOutOfRange,
        }),
        phase_times_round_trip(*phase) ==> (r matches Ok(row) && gate_row_holds(row@, *phase)),
{
    match phase {
        GatePhase::Idle => {
            let name = String::from_str("idle");
            proof {
                reveal_strlit("idle");
            }
            Ok(GateRow { phase: name, gate_id: None, item_id: None, started_at: None, until: None })
        },
        GatePhase::Locked(locked) => {
            let started = write_timestamp(locked.started_at)?;
            let name = String::from_str("locked");
            proof {
                reveal_strlit("locked");
            }
            Ok(
                GateRow {
                    phase: name,
                    gate_id: Some(uuid_to_bytes(locked.gate_id.as_uuid())),
                    item_id: Some(uuid_to_bytes(locked.item_id.as_uuid())),
                    started_at: Some(started),
                    until: None,
                },
            )
        },
        GatePhase::Cooldown(cooldown) => {
            let until = write_timestamp(cooldown.until)?;
            let name = String::from_str("cooldown");
            proof {
                reveal_strlit("cooldown");
            }
            Ok(
                GateRow {
                    phase: name,
                    gate_id: Some(uuid_to_bytes(cooldown.gate_id.as_uuid())),
                    item_id: None,
                    started_at: None,
                    until: Some(until),
                },
            )
        },
    }
}

/// The phase that a stored row holds.
pub fn decode_gate_row(row: &GateRow) -> (r: Result<GatePhase, StoreError>)
    ensures
        gate_row_decodes(row@, r),
{
    proof {
        reveal_strlit("idle");
        reveal_strlit("locked");
        reveal_strlit("cooldown");
    }
    if str_eq(row.phase.as_str(), "idle") {
        Ok(GatePhase::Idle)
    } else if str_eq(row.phase.as_str(), "locked") {
        let gate_id = read_gate_id(&row.gate_id)?;
        let item_id = read_item_id(&row.item_id)?;
        let started_at = read_timestamp(&row.started_at)?;
        Ok(GatePhase::Locked(LockedState::new(gate_id, item_id, started_at)))
    } else if str_eq(row.phase.as_str(), "cooldown") {
        let gate_id = read_gate_id(&row.gate_id)?;
        let until = read_timestamp(&row.until)?;
        Ok(GatePhase::Cooldown(CooldownState::new(gate_id, until)))
    } else {
        Err(StoreError::CorruptDatabase)
    }
}

/// A phase written to the phase row reads back as the same phase: a freeze that was open when the
/// daemon stopped is still open when it starts again.
pub proof fn law_gate_row_round_trip(phase: GatePhase, row: GateRowView, r: Result<GatePhase, StoreError>)
    requires
        phase_ids_valid(phase),
        gate_row_holds(row, phase),
        gate_row_decodes(row, r),
    ensures
        r == Ok::<GatePhase, StoreError>(phase),
{
    reveal_strlit("idle");
    reveal_strlit("locked");
    reveal_strlit("cooldown");
    assert("idle"@ != "locked"@ && "idle"@ != "cooldown"@ && "locked"@ != "cooldown"@) by {
        assert("idle"@.len() != "locked"@.len());
        assert("idle"@[0] != "cooldown"@[0]);
        assert("locked"@.len() != "cooldown"@.len());
    }
    match phase {
        GatePhase::Idle => {},
        GatePhase::Locked(l) => {
            assert(blob_holds_id(row.gate_id, l.gate_id@));
            assert(blob_holds_id(row.item_id, l.item_id@));
            match r {
                Ok(GatePhase::Locked(m)) => {
                    lemma_uuid_bytes_injective(m.gate_id@, l.gate_id@);
                    lemma_uuid_bytes_injective(m.item_id@, l.item_id@);
                    crate::ids::lemma_gate_id_view_injective(m.gate_id, l.gate_id);
                    crate::ids::lemma_item_id_view_injective(m.item_id, l.item_id);
                },
                _ => {},
            }
        },
        GatePhase::Cooldown(c) => {
            assert(blob_holds_id(row.gate_id, c.gate_id@));
            match r {
                Ok(GatePhase::Cooldown(m)) => {
                    lemma_uuid_bytes_injective(m.gate_id@, c.gate_id@);
                    crate::ids::lemma_gate_id_view_injective(m.gate_id, c.gate_id);
                },
                _ => {},
            }
        },
    }
}

// ---------------------------------------------------------------------------------------------
// Item rows.

/// A row of `items` (the identifier is its key): stem, choices as a JSON array, correct index,
/// suspended flag (0 or 1), external reference.
#[derive(Debug, Clone, PartialEq, Eq)]
pub struct ItemRow {
    pub stem: String,
    pub choices_json: String,
    pub correct_index: i64,
    pub suspended: i64,
    pub external_ref: Option<String>,
}

/// An item as plain values: identifier, stem, choices, correct index, suspended, reference.
pub open spec fn item_fields(item: Item) -> (ItemId, Seq<char>, Seq<Seq<char>>, u8, bool, Option<Seq<char>>) {
    (
        item.id,
        item.stem@,
        string_views(item.choices.choices()),
        item.correct_index@,
        item.suspended,
        opt_view(item.external_ref),
    )
}

/// What reading an item row gives: `CorruptDatabase` unless the choices column is a JSON array
/// of four strings, then the index error unless the stored index (taken modulo 256) is 0 to 3,
/// then the item.
pub open spec fn item_row_reads(
    id: ItemId,
    row: ItemRow,
) -> Result<(ItemId, Seq<char>, Seq<Seq<char>>, u8, bool, Option<Seq<char>>), StoreError> {
    match spec_parse_json_string_array(row.choices_json@) {
        None => Err(StoreError::CorruptDatabase),
        Some(choices) => if choices.len() != 4 {
            Err(StoreError::CorruptDatabase)
        } else if (row.correct_index as u8) > 3 {
            Err(StoreError::Item(ItemError::InvalidChosenIndex))
        } else {
            Ok((id, row.stem@, choices, row.correct_index as u8, row.suspended != 0, opt_view(row.external_ref)))
        },
    }
}

/// The row that stores an item. Reading it back gives the same item.
pub fn encode_item_row(item: &Item) -> (r: ItemRow)
    ensures
        r.stem@ == item.stem@,
        r.choices_json@ == spec_json_string_array(string_views(item.choices.choices())),
        r.correct_index == item.correct_index@ as i64,
        r.suspended == (if item.suspended { 1i64 } else { 0i64 }),
        opt_view(r.external_ref) == opt_view(item.external_ref),
        item_row_reads(item.id, r) == Ok::<_, StoreError>(item_fields(*item)),
{
    let choices_json = json_encode_strings(item.choices.as_slice());
    let index = item.correct_index.index();
    ItemRow {
        stem: item.stem.clone(),
        choices_json,
        correct_index: index as i64,
        suspended: if item.suspended {
            1
        } else {
            0
        },
        external_ref: clone_opt_string(&item.external_ref),
    }
}

/// Reads an item row.
pub fn decode_item_row(id: ItemId, row: &ItemRow) -> (r: Result<Item, StoreError>)
    ensures
        (match r {
            Ok(item) => item_row_reads(id, *row) == Ok::<_, StoreError>(item_fields(item)),
            Err(e) => item_row_reads(id, *row) == Err::<(ItemId, Seq<char>, Seq<Seq<char>>, u8, bool, Option<Seq<char>>), StoreError>(e),
        }),
{
    let choices = match json_decode_strings(row.choices_json.as_str()) {
        Some(v) => v,
        None => return Err(StoreError::CorruptDatabase),
    };
    if choices.len() != 4 {
        return Err(StoreError::CorruptDatabase);
    }
    let arr: [String; 4] = [choices[0].clone(), choices[1].clone(), choices[2].clone(), choices[3].clone()];
    #[verifier::truncate]
    let raw = row.correct_index as u8;
    let correct = match ChoiceIndex::try_new(raw) {
        Ok(c) => c,
        Err(e) => return Err(StoreError::Item(e)),
    };
    let mcq = McqChoices::new(arr);
    assert(string_views(mcq.choices()) =~= string_views(choices@));
    Ok(Item::new(id, row.stem.clone(), mcq, correct, row.suspended != 0, clone_opt_string(&row.external_ref)))
}

// ---------------------------------------------------------------------------------------------
// Answers and aborts.

/// A row of `answers`: item id bytes, chosen index, correct flag (0 or 1), instant text.
#[derive(Debug, Clone, PartialEq, Eq)]
pub struct AnswerRow {
    pub item_id: Vec<u8>,
    pub chosen_index: i64,
    pub correct: i64,
    pub answered_at: String,
}

/// A row of `aborts`: session id bytes, method, instant text, cost paid.
#[derive(Debug, Clone, PartialEq, Eq)]
pub struct AbortRow {
    pub gate_id: Vec<u8>,
    pub method: String,
    pub at: String,
    pub cost_paid: i64,
}

/// The row that records an answer.
pub fn encode_answer(answer: &Answer) -> (r: Result<AnswerRow, StoreError>)
    ensures
        (match r {
            Ok(row) => row.item_id@ == uuid_bytes(answer@.0@) && row.chosen_index == answer@.1@ as i64
                && row.correct == (if answer@.2 { 1i64 } else { 0i64 }) && timestamp_text(answer@.3) == Some(row.answered_at@),
            Err(e) => e == StoreError::TimestampOutOfRange && timestamp_text(answer@.3) is None,
        }),
{
    let at = write_timestamp(answer.answered_at())?;
    let chosen = answer.chosen_index().index();
    Ok(AnswerRow {
        item_id: uuid_to_bytes(answer.item_id().as_uuid()),
        chosen_index: chosen as i64,
        correct: if answer.correct() {
            1
        } else {
            0
        },
        answered_at: at,
    })
}

/// The row that records an abort. It has no item, no choice and no grade.
pub fn encode_abort(abort: &Abort) -> (r: Result<AbortRow, StoreError>)
    ensures
        (match r {
            Ok(row) => row.gate_id@ == uuid_bytes(abort.gate_id@) && row.method@ == abort.method@
                && row.cost_paid == abort.cost_paid as i64 && timestamp_text(abort.at) == Some(
                row.at@,
            ),
            Err(e) => e == StoreError::TimestampOutOfRange && timestamp_text(abort.at) is None,
        }),
{
    let at = write_timestamp(abort.at)?;
    Ok(AbortRow {
        gate_id: uuid_to_bytes(abort.gate_id.as_uuid()),
        method: abort.method.clone(),
        at,
        cost_paid: abort.cost_paid as i64,
    })
}

// ---------------------------------------------------------------------------------------------
// Prompts pushed by clients.

/// The fields of a `gate_push_prompt` request.
#[derive(Debug, Clone, PartialEq, Eq)]
pub struct PushPrompt {
    pub stem: String,
    pub choices: Vec<String>,
    pub correct_index: u8,
    pub external_ref: Option<String>,
}

/// Builds the deck item for a pushed prompt: it needs exactly four choices and an index 0 to 3,
/// and it starts not suspended.
pub fn item_from_push_prompt(prompt: PushPrompt, id: ItemId) -> (r: Result<Item, StoreError>)
    ensures
        prompt.choices@.len() != 4 ==> r matches Err(StoreError::InvalidPrompt(_)),
        prompt.choices@.len() == 4 && prompt.correct_index > 3 ==> r == Err::<Item, StoreError>(
            StoreError::Item(ItemError::InvalidChosenIndex),
        ),
        prompt.choices@.len() == 4 && prompt.correct_index <= 3 ==> (r matches Ok(item) && item.id
            == id && item.stem == prompt.stem && item.choices.choices() == prompt.choices@
            && item.correct_index@ == prompt.correct_index && !item.suspended && item.external_ref
            == prompt.external_ref),
{
    if prompt.choices.len() != 4 {
        return Err(StoreError::InvalidPrompt(String::from_str("choices must contain exactly four strings")));
    }
    let correct_index = match ChoiceIndex::try_new(prompt.correct_index) {
        Ok(c) => c,
        Err(e) => return Err(StoreError::Item(e)),
    };
    let PushPrompt { stem, choices, correct_index: _, external_ref } = prompt;
    let ghost before = choices@;
    let mut choices = choices;
    let d = choices.pop().unwrap();
    let c = choices.pop().unwrap();
    let b = choices.pop().unwrap();
    let a = choices.pop().unwrap();
    let arr: [String; 4] = [a, b, c, d];
    assert(arr@ =~= before);
    Ok(Item::new(id, stem, McqChoices::new(arr), correct_index, false, external_ref))
}

// ---------------------------------------------------------------------------------------------
// Opening a freeze.

/// The store's check before it opens a freeze: the item must exist and not be suspended, and
/// then the phase machine must accept the lock.
pub fn begin_lock_checked(item: &Option<Item>, gate: &mut GateState, locked: LockedState) -> (r: Result<(), StoreError>)
    ensures
        item is None ==> r == Err::<(), StoreError>(StoreError::ItemMissing) && final(gate)@ == old(gate)@,
        item matches Some(it) && it.suspended ==> r == Err::<(), StoreError>(StoreError::ItemSuspended)
            && final(gate)@ == old(gate)@,
        item matches Some(it) && !it.suspended ==> (match crate::gate::gate_step(old(gate)@, GateOp::BeginLock(locked)) {
            Ok(next) => r is Ok && final(gate)@ == next,
            Err(e) => r == Err::<(), StoreError>(StoreError::Gate(e)) && final(gate)@ == old(gate)@,
        }),
{
    match item {
        None => Err(StoreError::ItemMissing),
        Some(it) => {
            if it.suspended {
                return Err(StoreError::ItemSuspended);
            }
            match gate.begin_lock(locked) {
                Ok(()) => Ok(()),
                Err(e) => Err(StoreError::Gate(e)),
            }
        },
    }
}

// ---------------------------------------------------------------------------------------------
// Settings.

/// Reads the lock interval setting (milliseconds); a negative value means a corrupt store.
pub fn cadence_from_ms(ms: i64) -> (r: Result<GateCadence, StoreError>)
    ensures
        ms < 0 ==> r == Err::<GateCadence, StoreError>(StoreError::CorruptDatabase),
        ms >= 0 ==> r == Ok::<GateCadence, StoreError>(GateCadence { lock_interval_ms: ms as u64 }),
{
    if ms < 0 {
        return Err(StoreError::CorruptDatabase);
    }
    Ok(GateCadence::new(ms as u64))
}

/// The stored form of a lock interval; intervals beyond `i64::MAX` milliseconds cannot be stored.
pub fn cadence_to_ms(cadence: GateCadence) -> (r: Result<i64, StoreError>)
    ensures
        cadence.lock_interval_ms > i64::MAX ==> r == Err::<i64, StoreError>(StoreError::CorruptDatabase),
        cadence.lock_interval_ms <= i64::MAX ==> r == Ok::<i64, StoreError>(cadence.lock_interval_ms as i64),
{
    if cadence.lock_interval_ms > i64::MAX as u64 {
        return Err(StoreError::CorruptDatabase);
    }
    Ok(cadence.lock_interval_ms as i64)
}

/// A stored lock interval reads back as the same cadence.
pub proof fn law_cadence_round_trip(cadence: GateCadence)
    requires
        cadence.lock_interval_ms <= i64::MAX,
    ensures
        cadence.lock_interval_ms as i64 >= 0,
        (GateCadence { lock_interval_ms: (cadence.lock_interval_ms as i64) as u64 }) == cadence,
{
}

/// Reads the cooldown setting (milliseconds); a negative value means a corrupt store.
pub fn cooldown_from_ms(ms: i64) -> (r: Result<u64, StoreError>)
    ensures
        ms < 0 ==> r == Err::<u64, StoreError>(StoreError::CorruptDatabase),
        ms >= 0 ==> r == Ok::<u64, StoreError>(ms as u64),
{
    if ms < 0 {
        return Err(StoreError::CorruptDatabase);
    }
    Ok(ms as u64)
}

/// The stored form of a cooldown duration in milliseconds.
pub fn cooldown_to_ms(ms: u64) -> (r: Result<i64, StoreError>)
    ensures
        ms > i64::MAX ==> r == Err::<i64, StoreError>(StoreError::CorruptDatabase),
        ms <= i64::MAX ==> r == Ok::<i64, StoreError>(ms as i64),
{
    if ms > i64::MAX as u64 {
        return Err(StoreError::CorruptDatabase);
    }
    Ok(ms as i64)
}

/// A count read from SQLite (`COUNT(*)` is never negative).
pub fn count_from_sql(count: i64) -> (r: Result<u64, StoreError>)
    ensures
        count < 0 ==> r == Err::<u64, StoreError>(StoreError::CorruptDatabase),
        count >= 0 ==> r == Ok::<u64, StoreError>(count as u64),
{
    if count < 0 {
        return Err(StoreError::CorruptDatabase);
    }
    Ok(count as u64)
}

// ---------------------------------------------------------------------------------------------
// Opening the file.

/// Whether the file still needs the schema to be created.
pub fn needs_migration(user_version: i32) -> (r: bool)
    ensures
        r == (user_version < SCHEMA_VERSION),
{
    user_version < SCHEMA_VERSION
}

/// Checks what `sqlite_master` and the singleton rows hold: every required table exists, and the
/// gate and settings tables each hold their one row.
pub fn check_schema(table_counts: &[i64], gate_rows: i64, settings_rows: i64) -> (r: Result<(), StoreError>)
    ensures
        r is Ok <==> (forall|i: int| 0 <= i < table_counts@.len() ==> table_counts@[i] != 0) && gate_rows == 1
            && settings_rows == 1,
        r is Err ==> r == Err::<(), StoreError>(StoreError::CorruptDatabase),
{
    let n = table_counts.len();
    for i in 0..n
        invariant
            n == table_counts@.len(),
            forall|j: int| 0 <= j < i ==> table_counts@[j] != 0,
    {
        if table_counts[i] == 0 {
            return Err(StoreError::CorruptDatabase);
        }
    }
    if gate_rows != 1 || settings_rows != 1 {
        return Err(StoreError::CorruptDatabase);
    }
    Ok(())
}

/// The error for a file that SQLite could not open: `CorruptDatabase` when SQLite reports that it
/// is not a database, otherwise SQLite's message.
pub fn open_error(not_a_database: bool, message: String) -> (r: StoreError)
    ensures
        not_a_database ==> r == StoreError::CorruptDatabase,
        !not_a_database ==> r == StoreError::Sqlite(message),
{
    if not_a_database {
        StoreError::CorruptDatabase
    } else {
        StoreError::Sqlite(message)
    }
}

/// The text of SQLite's column type error for a blob column: what
/// `rusqlite::Error::InvalidColumnType(index, name, Type::Blob).to_string()` gives. Its
/// `Display` writes `Invalid column type {type} at index: {index}, name: {name}`, and the
/// blob type displays as `Blob`.
#[verifier::external_body]
fn blob_column_type_error_text(index: usize, name: &str) -> (r: String)
    ensures
        r@ == "Invalid column type Blob at index: "@ + nat_text(index as nat) + ", name: "@ + name@,
{
    rusqlite::Error::InvalidColumnType(index, name.to_string(), rusqlite::types::Type::Blob).to_string()
}

/// The error that `gate_due` reports for a row whose `id` column holds no item identifier:
/// SQLite's column type error for column 0, `id`.
pub open spec fn due_row_error_text() -> Seq<char> {
    "Invalid column type Blob at index: "@ + nat_text(0) + ", name: "@ + "id"@
}

/// Reads the identifiers listed by `gate_due`; the first row that holds no item identifier
/// ends the read with SQLite's column type error for the `id` column.
pub fn decode_due_ids(blobs: &Vec<Vec<u8>>) -> (r: Result<Vec<ItemId>, StoreError>)
    ensures
        (match r {
            Ok(ids) => ids@.len() == blobs@.len() && forall|i: int|
                0 <= i < ids@.len() ==> blob_holds_id(Some(blobs@[i]@), (#[trigger] ids@[i])@),
            Err(e) => e matches StoreError::Sqlite(m) && m@ == due_row_error_text() && exists|i: int|
                0 <= i < blobs@.len() && forall|v: u128| !blob_holds_id(Some((#[trigger] blobs@[i])@), v),
        }),
{
    let mut ids: Vec<ItemId> = Vec::new();
    let n = blobs.len();
    for i in 0..n
        invariant
            n == blobs@.len(),
            ids@.len() == i,
            forall|j: int| 0 <= j < i ==> blob_holds_id(Some(blobs@[j]@), (#[trigger] ids@[j])@),
    {
        let blob = Some(blobs[i].clone());
        match read_item_id(&blob) {
            Ok(id) => ids.push(id),
            Err(_) => {
                assert(forall|v: u128| !blob_holds_id(Some(blobs@[i as int]@), v));
                let text = blob_column_type_error_text(0, "id");
                return Err(StoreError::Sqlite(text));
            },
        }
    }
    Ok(ids)
}

} // verus!
