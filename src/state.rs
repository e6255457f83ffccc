use vstd::prelude::*;
use vstd::bytes::{
    lemma_auto_spec_u32_to_from_le_bytes, spec_u32_from_le_bytes, spec_u32_to_le_bytes,
    u32_from_le_bytes, u32_to_le_bytes,
};
use vstd::utf8::{decode_utf8, encode_utf8, encode_utf8_decode_utf8, encode_utf8_valid_utf8, valid_utf8};
use vstd::string::StringSliceAdditionalSpecFns;
use vstd::string::StrSliceExecFns;
use crate::address::Address;
use crate::error::OnchainAccountError;

verus! {

/// Size in bytes of the account that holds a record.
pub const RECORD_ACCOUNT_LEN: usize = 1000;

/// Bytes of an encoded record besides its name: flag, id, length prefix
/// and creator.
pub const RECORD_OVERHEAD: usize = 38;

/// Largest record identifier.
pub const MAX_RECORD_ID: u8 = 15;

/// A per-creator, per-identifier record as it is stored on the ledger.
pub struct OnchainAccountState {
    pub is_initialized: bool,
    pub id: u8,
    pub name: String,
    pub creator: Address,
}

/// What a record holds, as mathematical values.
pub ghost struct RecordModel {
    pub is_initialized: bool,
    pub id: u8,
    pub name: Seq<char>,
    pub creator: Seq<u8>,
}

impl View for OnchainAccountState {
    type V = RecordModel;

    open spec fn view(&self) -> RecordModel {
        RecordModel {
            is_initialized: self.is_initialized,
            id: self.id,
            name: self.name@,
            creator: self.creator@,
        }
    }
}

/// Encoded size of a record whose name takes `name_len` bytes: flag, id,
/// length prefix, name, creator.
pub open spec fn record_len(name_len: int) -> int {
    1 + 1 + (4 + name_len) + 32
}

/// The byte layout of a record: flag, id, little-endian name length, the
/// name's UTF-8 bytes, and the creator's 32 bytes.
pub open spec fn encode_record(m: RecordModel) -> Seq<u8> {
    let name = encode_utf8(m.name);
    seq![if m.is_initialized { 1u8 } else { 0u8 }, m.id]
        + spec_u32_to_le_bytes(name.len() as u32)
        + name
        + m.creator
}

/// A record fits in its account when its encoding takes at most
/// `RECORD_ACCOUNT_LEN` bytes and its creator is a 32-byte key.
pub open spec fn record_fits(m: RecordModel) -> bool {
    &&& record_len(encode_utf8(m.name).len() as int) <= RECORD_ACCOUNT_LEN
    &&& m.creator.len() == 32
}

/// Length of the name declared by the prefix at bytes 2..6.
pub open spec fn declared_name_len(b: Seq<u8>) -> int {
    spec_u32_from_le_bytes(b.subrange(2, 6)) as int
}

/// Reads a record from the start of `b`; bytes after the record are ignored.
/// The flag must be 0 or 1 and the name valid UTF-8.
pub open spec fn decode_record(b: Seq<u8>) -> Option<RecordModel> {
    if b.len() < 6 || b[0] > 1 {
        None
    } else {
        let n = declared_name_len(b);
        if b.len() < 6 + n + 32 || !valid_utf8(b.subrange(6, 6 + n)) {
            None
        } else {
            Some(
                RecordModel {
                    is_initialized: b[0] == 1,
                    id: b[1],
                    name: decode_utf8(b.subrange(6, 6 + n)),
                    creator: b.subrange(6 + n, 6 + n + 32),
                },
            )
        }
    }
}

/// Relies on std's `String::from_utf8`: it succeeds exactly on valid UTF-8,
/// and the string then holds the characters that the bytes encode.
#[verifier::external_body]
pub(crate) fn string_from_utf8(b: Vec<u8>) -> (r: Option<String>)
    ensures
        r is Some <==> valid_utf8(b@),
        r matches Some(s) ==> s@ == decode_utf8(b@),
{
    String::from_utf8(b).ok()
}

/// The UTF-8 bytes of a string.
pub(crate) fn string_bytes(s: &String) -> (r: Vec<u8>)
    ensures
        r@ == encode_utf8(s@),
{
    s.as_str().as_bytes_vec()
}

/// Encoding a record that fits and decoding the bytes gives the record back.
pub proof fn lemma_record_round_trip(m: RecordModel)
    requires
        record_fits(m),
    ensures
        decode_record(encode_record(m)) == Some(m),
{
    lemma_auto_spec_u32_to_from_le_bytes();
    encode_utf8_valid_utf8(m.name);
    encode_utf8_decode_utf8(m.name);
    let name = encode_utf8(m.name);
    let n = name.len() as u32;
    let b = encode_record(m);
    assert(b.subrange(2, 6) =~= spec_u32_to_le_bytes(n));
    assert(b.subrange(6, 6 + n as int) =~= name);
    assert(b.subrange(6 + n as int, 6 + n as int + 32) =~= m.creator);
}

/// Trailing bytes after a record do not change what is read.
pub proof fn lemma_decode_ignores_trailing(m: RecordModel, rest: Seq<u8>)
    requires
        record_fits(m),
    ensures
        decode_record(encode_record(m) + rest) == Some(m),
{
    lemma_record_round_trip(m);
    let b = encode_record(m);
    let c = b + rest;
    lemma_auto_spec_u32_to_from_le_bytes();
    assert(c.subrange(2, 6) =~= b.subrange(2, 6));
    let n = declared_name_len(b);
    assert(c.subrange(6, 6 + n) =~= b.subrange(6, 6 + n));
    assert(c.subrange(6 + n, 6 + n + 32) =~= b.subrange(6 + n, 6 + n + 32));
}

impl OnchainAccountState {
    /// Whether the record has been written by a successful creation.
    pub fn is_initialized(&self) -> (r: bool)
        ensures
            r == self.is_initialized,
    {
        self.is_initialized
    }

    /// Encodes the record; fails with `OversizedRecord` exactly when the
    /// encoding would exceed the account size.
    pub fn pack(&self) -> (r: Result<Vec<u8>, OnchainAccountError>)
        ensures
            match r {
                Ok(b) => record_fits(self@) && b@ == encode_record(self@),
                Err(e) => !record_fits(self@) && e == OnchainAccountError::OversizedRecord,
            },
    {
        let name = string_bytes(&self.name);
        if name.len() > RECORD_ACCOUNT_LEN - RECORD_OVERHEAD {
            return Err(OnchainAccountError::OversizedRecord);
        }
        let mut out: Vec<u8> = Vec::new();
        out.push(if self.is_initialized { 1u8 } else { 0u8 });
        out.push(self.id);
        let len_bytes = u32_to_le_bytes(name.len() as u32);
        out.extend_from_slice(len_bytes.as_slice());
        out.extend_from_slice(name.as_slice());
        out.extend_from_slice(self.creator.bytes.as_slice());
        assert(out@ =~= encode_record(self@));
        Ok(out)
    }

    /// Reads a record from the start of an account's data.
    pub fn unpack(data: &[u8]) -> (r: Result<OnchainAccountState, OnchainAccountError>)
        ensures
            match decode_record(data@) {
                Some(m) => r matches Ok(s) && s@ == m,
                None => r == Err::<OnchainAccountState, _>(OnchainAccountError::InvalidAccountData),
            },
    {
        if data.len() < 6 || data[0] > 1 {
            return Err(OnchainAccountError::InvalidAccountData);
        }
        let n = u32_from_le_bytes(vstd::slice::slice_subrange(data, 2, 6)) as usize;
        if data.len() - 6 < n || data.len() - 6 - n < 32 {
            return Err(OnchainAccountError::InvalidAccountData);
        }
        let name_bytes = vstd::slice::slice_to_vec(vstd::slice::slice_subrange(data, 6, 6 + n));
        let name = match string_from_utf8(name_bytes) {
            Some(s) => s,
            None => return Err(OnchainAccountError::InvalidAccountData),
        };
        let creator = Address::from_slice(vstd::slice::slice_subrange(data, 6 + n, 6 + n + 32));
        Ok(OnchainAccountState { is_initialized: data[0] == 1, id: data[1], name, creator })
    }
}

} // verus!
