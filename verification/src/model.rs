//! The stored documents, held as plain values.
use vstd::prelude::*;

verus! {

/// A MongoDB object id: the twelve bytes that identify a document.
#[derive(Clone, Copy, Debug, PartialEq, Eq, Hash)]
pub struct ObjectId {
    pub bytes: [u8; 12],
}

/// The lower-case hexadecimal digit of a value below sixteen.
pub open spec fn hex_digit(nibble: int) -> char {
    if nibble < 10 {
        (nibble + 48) as char
    } else {
        (nibble + 87) as char
    }
}

/// Lower-case hexadecimal text of `bytes`: two digits per byte, the high
/// half first.
pub open spec fn hex_lower(bytes: Seq<u8>) -> Seq<char>
    decreases bytes.len(),
{
    if bytes.len() == 0 {
        Seq::empty()
    } else {
        seq![hex_digit(bytes[0] as int / 16), hex_digit(bytes[0] as int % 16)] + hex_lower(bytes.drop_first())
    }
}

/// Calls bson's `ObjectId::to_hex` on the id made of `bytes`
/// (`ObjectId::from_bytes`).  bson encodes the twelve bytes with
/// `hex::encode`, which writes each byte as two lower-case hexadecimal
/// digits, high half first; this is also the text that bson's `Display`
/// gives an object id.
#[verifier::external_body]
fn bson_object_id_hex(bytes: [u8; 12]) -> (hex: String)
    ensures
        hex@ == hex_lower(bytes@),
{
    mongodb::bson::oid::ObjectId::from_bytes(bytes).to_hex()
}

impl ObjectId {
    /// The id as text: 24 lower-case hexadecimal digits.
    pub fn to_hex(&self) -> (hex: String)
        ensures
            hex@ == hex_lower(self.bytes@),
    {
        bson_object_id_hex(self.bytes)
    }
}

/// A one-time password issued for an e-mail address.
///
/// `created_at_ms` is the issue time in milliseconds since the Unix epoch
/// (the precision with which MongoDB stores dates).
#[derive(Clone, Debug)]
pub struct Otp {
    pub id: Option<ObjectId>,
    pub email: String,
    pub code: String,
    pub created_at_ms: i64,
    pub failed_attempts: i32,
}

impl Otp {
    /// The OTP as stored: it takes the id the server reports for the insert
    /// when that id is an object id, and keeps its own id otherwise.
    pub fn with_inserted_id(self, inserted: Option<ObjectId>) -> (res: Otp)
        ensures
            res.id == (match inserted {
                Some(id) => Some(id),
                None => self.id,
            }),
            res.email == self.email,
            res.code == self.code,
            res.created_at_ms == self.created_at_ms,
            res.failed_attempts == self.failed_attempts,
    {
        let mut stored = self;
        if let Some(id) = inserted {
            stored.id = Some(id);
        }
        stored
    }
}

/// A saved template of an RPC call, owned by a user.
#[derive(Clone, Debug)]
pub struct RecipeTemplate {
    pub id: Option<ObjectId>,
    pub user_id: ObjectId,
    pub name: String,
    pub content: String,
}

impl RecipeTemplate {
    /// The template as stored: its id is the one the server reports for the
    /// insert, or none when that is not an object id.
    pub fn with_inserted_id(self, inserted: Option<ObjectId>) -> (res: RecipeTemplate)
        ensures
            res.id == inserted,
            res.user_id == self.user_id,
            res.name == self.name,
            res.content == self.content,
    {
        let mut stored = self;
        stored.id = inserted;
        stored
    }
}

/// A request saved in one of a user's collections.
#[derive(Clone, Debug)]
pub struct SavedRequest {
    pub id: Option<ObjectId>,
    pub collection_id: ObjectId,
    pub name: String,
    pub method: String,
    pub params: String,
}

impl SavedRequest {
    /// The request as stored: its id is the one the server reports for the
    /// insert, or none when that is not an object id.
    pub fn with_inserted_id(self, inserted: Option<ObjectId>) -> (res: SavedRequest)
        ensures
            res.id == inserted,
            res.collection_id == self.collection_id,
            res.name == self.name,
            res.method == self.method,
            res.params == self.params,
    {
        let mut stored = self;
        stored.id = inserted;
        stored
    }
}

/// One logged RPC call.
#[derive(Clone, Debug)]
pub struct RpcLog {
    pub id: Option<ObjectId>,
    pub user_id: ObjectId,
    pub chain: String,
    pub method: String,
    pub success: bool,
    pub created_at_ms: i64,
}

/// A workspace of a user; `created_at_ms` is its creation time in
/// milliseconds since the Unix epoch.
#[derive(Clone, Debug)]
pub struct Workspace {
    pub id: Option<ObjectId>,
    pub user_id: ObjectId,
    pub name: String,
    pub created_at_ms: i64,
}

impl Workspace {
    /// The workspace as stored: its id is the one the server reports for the
    /// insert, or none when that is not an object id.
    pub fn with_inserted_id(self, inserted: Option<ObjectId>) -> (res: Workspace)
        ensures
            res.id == inserted,
            res.user_id == self.user_id,
            res.name == self.name,
            res.created_at_ms == self.created_at_ms,
    {
        let mut stored = self;
        stored.id = inserted;
        stored
    }
}

} // verus!
