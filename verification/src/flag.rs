//! The persisted trigger flag: one key whose value is the word `true` or the
//! word `false`, and an image of that record in memory.

use vstd::prelude::*;

verus! {

/// The bytes of the word `true`.
pub open spec fn true_bytes() -> Seq<u8> {
    seq![0x74u8, 0x72u8, 0x75u8, 0x65u8]
}

/// The bytes of the word `false`.
pub open spec fn false_bytes() -> Seq<u8> {
    seq![0x66u8, 0x61u8, 0x6cu8, 0x73u8, 0x65u8]
}

/// The bytes that are stored for a flag.
pub open spec fn flag_bytes(v: bool) -> Seq<u8> {
    if v {
        true_bytes()
    } else {
        false_bytes()
    }
}

/// The flag that stored bytes stand for. A missing value, and any value
/// other than the word `true`, reads as `false`.
pub open spec fn flag_of(raw: Option<Seq<u8>>) -> bool {
    raw == Some(true_bytes())
}

/// What a stored value holds, as a sequence of bytes.
pub open spec fn raw_view(raw: Option<Vec<u8>>) -> Option<Seq<u8>> {
    match raw {
        Some(bytes) => Some(bytes@),
        None => None,
    }
}

/// The key under which the flag is stored.
pub fn flag_key() -> (k: &'static str)
    ensures
        k@ == "triggered"@,
{
    "triggered"
}

pub fn encode_flag(v: bool) -> (bytes: Vec<u8>)
    ensures
        bytes@ == flag_bytes(v),
{
    let mut bytes: Vec<u8> = Vec::new();
    if v {
        bytes.push(0x74);
        bytes.push(0x72);
        bytes.push(0x75);
        bytes.push(0x65);
    } else {
        bytes.push(0x66);
        bytes.push(0x61);
        bytes.push(0x6c);
        bytes.push(0x73);
        bytes.push(0x65);
    }
    assert(bytes@ =~= flag_bytes(v));
    bytes
}

pub fn decode_flag(raw: &Option<Vec<u8>>) -> (v: bool)
    ensures
        v == flag_of(raw_view(*raw)),
{
    match raw {
        Some(bytes) => {
            let hit = bytes.len() == 4 && bytes[0] == 0x74 && bytes[1] == 0x72 && bytes[2] == 0x75
                && bytes[3] == 0x65;
            assert(hit == (bytes@ =~= true_bytes()));
            hit
        },
        None => false,
    }
}

/// The flag after a read of the store: a read that failed counts as `false`.
pub fn flag_from_read<E>(read: &Result<Option<Vec<u8>>, E>) -> (v: bool)
    ensures
        v == match *read {
            Ok(raw) => flag_of(raw_view(raw)),
            Err(_) => false,
        },
{
    match read {
        Ok(raw) => decode_flag(raw),
        Err(_) => false,
    }
}

/// The stored record as it is held in memory: the bytes under the flag's
/// key, or nothing where the key is absent.
#[derive(Clone, Debug)]
pub struct FlagRecord {
    raw: Option<Vec<u8>>,
}

impl View for FlagRecord {
    type V = Option<Seq<u8>>;

    closed spec fn view(&self) -> Option<Seq<u8>> {
        raw_view(self.raw)
    }
}

impl FlagRecord {
    /// The flag that the record stands for.
    pub open spec fn triggered(self) -> bool {
        flag_of(self@)
    }

    /// The record of a store that never held the flag.
    pub fn absent() -> (r: FlagRecord)
        ensures
            r@ is None,
            !r.triggered(),
    {
        FlagRecord { raw: None }
    }

    /// The record with the bytes that a store gave back.
    pub fn from_raw(raw: Option<Vec<u8>>) -> (r: FlagRecord)
        ensures
            r@ == raw_view(raw),
    {
        FlagRecord { raw }
    }

    /// The bytes to hand to a store.
    pub fn into_raw(self) -> (raw: Option<Vec<u8>>)
        ensures
            raw_view(raw) == self@,
    {
        self.raw
    }

    pub fn get_triggered(&self) -> (v: bool)
        ensures
            v == self.triggered(),
    {
        decode_flag(&self.raw)
    }

    pub fn set_triggered(&mut self, v: bool)
        ensures
            final(self)@ == Some(flag_bytes(v)),
            final(self).triggered() == v,
    {
        self.raw = Some(encode_flag(v));
        proof {
            lemma_flag_round_trip(v);
        }
    }
}

/// Reading back what was written for a flag gives that flag, and a store
/// that holds nothing reads as `false`.
pub proof fn lemma_flag_round_trip(v: bool)
    ensures
        flag_of(Some(flag_bytes(v))) == v,
        !flag_of(None),
{
    assert(true_bytes().len() == 4);
    assert(false_bytes().len() == 5);
}

/// A record that is taken apart and built again from its bytes, as after a
/// restart, still stands for the same flag.
pub proof fn lemma_record_survives_reload(before: FlagRecord, raw: Option<Vec<u8>>, after: FlagRecord)
    requires
        raw_view(raw) == before@,
        after@ == raw_view(raw),
    ensures
        after.triggered() == before.triggered(),
{
}

} // verus!
