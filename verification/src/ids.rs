//! Identifiers of deck items and of gate sessions: random (version 4) UUIDs.
use vstd::prelude::*;

verus! {

#[verifier::external_type_specification]
#[verifier::external_body]
pub struct ExUuidError(uuid::Error);

/// The version field of a UUID given as its 128-bit big-endian value (the high nibble of byte 6).
pub open spec fn uuid_version(value: u128) -> u128 {
    (value >> 76u128) & 0xfu128
}

/// The version number that marks a random UUID.
pub const UUID_VERSION_RANDOM: usize = 4;

/// The lower-case hexadecimal digit for `d < 16`.
pub open spec fn hex_digit_lower(d: u128) -> char {
    if d < 10 {
        (48 + d) as char
    } else {
        (87 + d) as char
    }
}

/// For a position of the 36-character hyphenated form, the index of the hex digit written there.
pub open spec fn uuid_text_digit_index(i: int) -> int {
    if i < 8 {
        i
    } else if i < 13 {
        i - 1
    } else if i < 18 {
        i - 2
    } else if i < 23 {
        i - 3
    } else {
        i - 4
    }
}

/// The hyphenated lower-case text of a UUID, such as `a1a2a3a4-b1b2-c1c2-d1d2-d3d4d5d6d7d8`.
pub open spec fn uuid_text(value: u128) -> Seq<char> {
    Seq::new(
        36,
        |i: int|
            if i == 8 || i == 13 || i == 18 || i == 23 {
                '-'
            } else {
                hex_digit_lower(
                    (value >> ((4 * (31 - uuid_text_digit_index(i))) as u128)) & 0xfu128,
                )
            },
    )
}

/// The 16 big-endian bytes of a UUID.
pub open spec fn uuid_bytes(value: u128) -> Seq<u8> {
    Seq::new(16, |i: int| ((value >> ((8 * (15 - i)) as u128)) & 0xffu128) as u8)
}

/// The UUID that `uuid::Uuid::parse_str` reads from a text, if it accepts it.
pub uninterp spec fn spec_uuid_parse(text: Seq<char>) -> Option<u128>;

/// Calls `uuid::Uuid::new_v4`. The value is random; the source masks the version nibble to 4.
#[verifier::external_body]
fn uuid_new_v4() -> (r: u128)
    ensures
        uuid_version(r) == 4,
{
    uuid::Uuid::new_v4().as_u128()
}

/// Calls `uuid::Uuid::get_version_num`, which the source computes as `as_bytes()[6] >> 4`.
#[verifier::external_body]
fn uuid_version_num(value: u128) -> (r: usize)
    ensures
        r == uuid_version(value),
{
    uuid::Uuid::from_u128(value).get_version_num()
}

/// Calls `uuid::Uuid::parse_str`; what it accepts is named by `spec_uuid_parse`.
#[verifier::external_body]
fn uuid_parse_str(text: &str) -> (r: Result<u128, uuid::Error>)
    ensures
        (match r {
            Ok(value) => spec_uuid_parse(text@) == Some(value),
            Err(_) => spec_uuid_parse(text@) is None,
        }),
{
    match uuid::Uuid::parse_str(text) {
        Ok(uuid) => Ok(uuid.as_u128()),
        Err(err) => Err(err),
    }
}

/// Writes a UUID with `uuid::fmt::Hyphenated`'s `Display`: 32 lower-case hex digits with
/// hyphens after the 8th, 12th, 16th and 20th. `parse_str` accepts that form and gives back the
/// same UUID.
#[verifier::external_body]
fn uuid_hyphenated(value: u128) -> (r: String)
    ensures
        r@ == uuid_text(value),
        spec_uuid_parse(r@) == Some(value),
{
    uuid::Uuid::from_u128(value).hyphenated().to_string()
}

/// Calls `uuid::Uuid::as_bytes` (the big-endian bytes of the value).
#[verifier::external_body]
pub(crate) fn uuid_to_bytes(value: u128) -> (r: Vec<u8>)
    ensures
        r@ == uuid_bytes(value),
{
    uuid::Uuid::from_u128(value).as_bytes().to_vec()
}

/// Calls `uuid::Uuid::from_slice`, which fails exactly when the slice does not hold 16 bytes
/// and otherwise takes them as the big-endian bytes of the UUID.
#[verifier::external_body]
pub(crate) fn uuid_from_slice(bytes: &[u8]) -> (r: Result<u128, uuid::Error>)
    ensures
        (match r {
            Ok(value) => bytes@.len() == 16 && uuid_bytes(value) == bytes@,
            Err(_) => bytes@.len() != 16,
        }),
{
    match uuid::Uuid::from_slice(bytes) {
        Ok(uuid) => Ok(uuid.as_u128()),
        Err(err) => Err(err),
    }
}

/// Two UUIDs with the same bytes are the same UUID.
pub proof fn lemma_uuid_bytes_injective(a: u128, b: u128)
    requires
        uuid_bytes(a) == uuid_bytes(b),
    ensures
        a == b,
{
    // Naming each of the sixteen bytes lets the solver read its shift and mask.
    let (x, y) = (uuid_bytes(a), uuid_bytes(b));
    assert(x[0] == y[0] && x[1] == y[1] && x[2] == y[2] && x[3] == y[3]);
    assert(x[4] == y[4] && x[5] == y[5] && x[6] == y[6] && x[7] == y[7]);
    assert(x[8] == y[8] && x[9] == y[9] && x[10] == y[10] && x[11] == y[11]);
    assert(x[12] == y[12] && x[13] == y[13] && x[14] == y[14] && x[15] == y[15]);
    assert(a == b) by (bit_vector)
        requires
            ((a >> 120u128) & 0xffu128) as u8 == ((b >> 120u128) & 0xffu128) as u8,
            ((a >> 112u128) & 0xffu128) as u8 == ((b >> 112u128) & 0xffu128) as u8,
            ((a >> 104u128) & 0xffu128) as u8 == ((b >> 104u128) & 0xffu128) as u8,
            ((a >> 96u128) & 0xffu128) as u8 == ((b >> 96u128) & 0xffu128) as u8,
            ((a >> 88u128) & 0xffu128) as u8 == ((b >> 88u128) & 0xffu128) as u8,
            ((a >> 80u128) & 0xffu128) as u8 == ((b >> 80u128) & 0xffu128) as u8,
            ((a >> 72u128) & 0xffu128) as u8 == ((b >> 72u128) & 0xffu128) as u8,
            ((a >> 64u128) & 0xffu128) as u8 == ((b >> 64u128) & 0xffu128) as u8,
            ((a >> 56u128) & 0xffu128) as u8 == ((b >> 56u128) & 0xffu128) as u8,
            ((a >> 48u128) & 0xffu128) as u8 == ((b >> 48u128) & 0xffu128) as u8,
            ((a >> 40u128) & 0xffu128) as u8 == ((b >> 40u128) & 0xffu128) as u8,
            ((a >> 32u128) & 0xffu128) as u8 == ((b >> 32u128) & 0xffu128) as u8,
            ((a >> 24u128) & 0xffu128) as u8 == ((b >> 24u128) & 0xffu128) as u8,
            ((a >> 16u128) & 0xffu128) as u8 == ((b >> 16u128) & 0xffu128) as u8,
            ((a >> 8u128) & 0xffu128) as u8 == ((b >> 8u128) & 0xffu128) as u8,
            ((a >> 0u128) & 0xffu128) as u8 == ((b >> 0u128) & 0xffu128) as u8,
    ;
}

/// Why a value is not an identifier.
#[derive(Debug, PartialEq, Eq)]
pub enum IdError {
    /// A UUID of another version than 4.
    NotVersion4,
    /// Not the text of a UUID at all.
    Parse(uuid::Error),
}

impl IdError {
    /// The message that the error shows to a user.
    pub fn message(&self) -> (r: String)
        ensures
            self is NotVersion4 ==> r@ == "identifier must be a UUID version 4"@,
    {
        match self {
            IdError::NotVersion4 => {
                let text = String::from_str("identifier must be a UUID version 4");
                proof {
                    reveal_strlit("identifier must be a UUID version 4");
                }
                text
            },
            IdError::Parse(err) => uuid_error_text(err),
        }
    }
}

/// Writes a `uuid::Error` with its `Display` impl; the text is not described here.
#[verifier::external_body]
fn uuid_error_text(err: &uuid::Error) -> String {
    err.to_string()
}

/// What parsing a text gives as an identifier: the UUID it names, when that UUID is of
/// version 4; `NotVersion4` for another version; `Parse` when it names no UUID.
pub open spec fn parse_id_spec(text: Seq<char>) -> Option<Result<u128, ()>> {
    match spec_uuid_parse(text) {
        None => None,
        Some(value) => if uuid_version(value) == 4 {
            Some(Ok(value))
        } else {
            Some(Err(()))
        },
    }
}

/// Checks that a UUID is a random one.
fn validate_v4(value: u128) -> (r: Result<u128, IdError>)
    ensures
        (match r {
            Ok(v) => v == value && uuid_version(value) == 4,
            Err(e) => e is NotVersion4 && uuid_version(value) != 4,
        }),
{
    if uuid_version_num(value) == UUID_VERSION_RANDOM {
        Ok(value)
    } else {
        Err(IdError::NotVersion4)
    }
}

/// Identifies one deck item (a card and the prompt that shows it).
#[derive(Debug, Clone, Copy, PartialEq, Eq, Hash, Structural)]
pub struct ItemId(u128);

/// Identifies one freeze (a gate session).
#[derive(Debug, Clone, Copy, PartialEq, Eq, Hash, Structural)]
pub struct GateId(u128);

impl View for ItemId {
    type V = u128;

    closed spec fn view(&self) -> u128 {
        self.0
    }
}

impl View for GateId {
    type V = u128;

    closed spec fn view(&self) -> u128 {
        self.0
    }
}

impl ItemId {
    /// Every item identifier is a version 4 UUID.
    #[verifier::type_invariant]
    spec fn is_v4(self) -> bool {
        uuid_version(self.0) == 4
    }

    /// A fresh random identifier.
    pub fn new() -> (r: ItemId)
        ensures
            uuid_version(r@) == 4,
    {
        ItemId(uuid_new_v4())
    }

    /// The identifier for a UUID, which must be of version 4.
    pub fn from_uuid(value: u128) -> (r: Result<ItemId, IdError>)
        ensures
            (match r {
                Ok(id) => id@ == value && uuid_version(value) == 4,
                Err(e) => e is NotVersion4 && uuid_version(value) != 4,
            }),
    {
        match validate_v4(value) {
            Ok(v) => Ok(ItemId(v)),
            Err(e) => Err(e),
        }
    }

    /// The UUID of this identifier.
    pub fn as_uuid(&self) -> (r: u128)
        ensures
            r == self@,
            uuid_version(r) == 4,
    {
        proof {
            use_type_invariant(self);
        }
        self.0
    }

    /// The hyphenated text of the UUID. Parsing it gives this identifier back.
    pub fn to_string(&self) -> (r: String)
        ensures
            r@ == uuid_text(self@),
            parse_id_spec(r@) == Some(Ok::<u128, ()>(self@)),
    {
        proof {
            use_type_invariant(self);
        }
        uuid_hyphenated(self.0)
    }

    /// Reads the text of a UUID of version 4.
    pub fn parse_str(text: &str) -> (r: Result<ItemId, IdError>)
        ensures
            (match parse_id_spec(text@) {
                None => r matches Err(IdError::Parse(_)),
                Some(Err(_)) => r matches Err(IdError::NotVersion4),
                Some(Ok(value)) => r matches Ok(id) && id@ == value,
            }),
    {
        match uuid_parse_str(text) {
            Ok(value) => ItemId::from_uuid(value),
            Err(err) => Err(IdError::Parse(err)),
        }
    }
}

impl GateId {
    /// Every session identifier is a version 4 UUID.
    #[verifier::type_invariant]
    spec fn is_v4(self) -> bool {
        uuid_version(self.0) == 4
    }

    /// A fresh random identifier.
    pub fn new() -> (r: GateId)
        ensures
            uuid_version(r@) == 4,
    {
        GateId(uuid_new_v4())
    }

    /// The identifier for a UUID, which must be of version 4.
    pub fn from_uuid(value: u128) -> (r: Result<GateId, IdError>)
        ensures
            (match r {
                Ok(id) => id@ == value && uuid_version(value) == 4,
                Err(e) => e is NotVersion4 && uuid_version(value) != 4,
            }),
    {
        match validate_v4(value) {
            Ok(v) => Ok(GateId(v)),
            Err(e) => Err(e),
        }
    }

    /// The UUID of this identifier.
    pub fn as_uuid(&self) -> (r: u128)
        ensures
            r == self@,
            uuid_version(r) == 4,
    {
        proof {
            use_type_invariant(self);
        }
        self.0
    }

    /// The hyphenated text of the UUID. Parsing it gives this identifier back.
    pub fn to_string(&self) -> (r: String)
        ensures
            r@ == uuid_text(self@),
            parse_id_spec(r@) == Some(Ok::<u128, ()>(self@)),
    {
        proof {
            use_type_invariant(self);
        }
        uuid_hyphenated(self.0)
    }

    /// Reads the text of a UUID of version 4.
    pub fn parse_str(text: &str) -> (r: Result<GateId, IdError>)
        ensures
            (match parse_id_spec(text@) {
                None => r matches Err(IdError::Parse(_)),
                Some(Err(_)) => r matches Err(IdError::NotVersion4),
                Some(Ok(value)) => r matches Ok(id) && id@ == value,
            }),
    {
        match uuid_parse_str(text) {
            Ok(value) => GateId::from_uuid(value),
            Err(err) => Err(IdError::Parse(err)),
        }
    }
}

impl Default for ItemId {
    fn default() -> (r: ItemId)
        ensures
            uuid_version(r@) == 4,
    {
        ItemId::new()
    }
}

impl Default for GateId {
    fn default() -> (r: GateId)
        ensures
            uuid_version(r@) == 4,
    {
        GateId::new()
    }
}

impl core::str::FromStr for ItemId {
    type Err = IdError;

    fn from_str(text: &str) -> (r: Result<ItemId, IdError>)
        ensures
            (match parse_id_spec(text@) {
                None => r matches Err(IdError::Parse(_)),
                Some(Err(_)) => r matches Err(IdError::NotVersion4),
                Some(Ok(value)) => r matches Ok(id) && id@ == value,
            }),
    {
        ItemId::parse_str(text)
    }
}

impl core::str::FromStr for GateId {
    type Err = IdError;

    fn from_str(text: &str) -> (r: Result<GateId, IdError>)
        ensures
            (match parse_id_spec(text@) {
                None => r matches Err(IdError::Parse(_)),
                Some(Err(_)) => r matches Err(IdError::NotVersion4),
                Some(Ok(value)) => r matches Ok(id) && id@ == value,
            }),
    {
        GateId::parse_str(text)
    }
}

/// Two item identifiers with the same UUID are the same identifier.
pub proof fn lemma_item_id_view_injective(a: ItemId, b: ItemId)
    requires
        a@ == b@,
    ensures
        a == b,
{
}

/// Two session identifiers with the same UUID are the same identifier.
pub proof fn lemma_gate_id_view_injective(a: GateId, b: GateId)
    requires
        a@ == b@,
    ensures
        a == b,
{
}

} // verus!
