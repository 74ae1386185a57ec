use vstd::prelude::*;
use vstd::bytes::lemma_auto_spec_u64_to_from_le_bytes;
use vstd::bytes::spec_u64_from_le_bytes;
use vstd::bytes::spec_u64_to_le_bytes;
use vstd::bytes::u64_from_le_bytes;
use vstd::bytes::u64_to_le_bytes;
use vstd::slice::slice_subrange;

verus! {

/// The per-owner counter record: the running count and the unix timestamp of
/// the last successful increment. On chain it is persisted as an 8-byte
/// account discriminator followed by the 16-byte record body.
#[derive(Clone, Copy, Debug, PartialEq, Eq, Structural)]
pub struct Counter {
    pub counter: u64,
    pub last_modified: i64,
}

/// The transfer-authority record: the unix timestamp of the last successful
/// token transfer. On chain it is persisted as an 8-byte account
/// discriminator followed by the 8-byte record body.
#[derive(Clone, Copy, Debug, PartialEq, Eq, Structural)]
pub struct PdaAuth {
    pub last_transfer: i64,
}

/// The 16-byte body of a persisted `Counter` account: the count, then the
/// timestamp, each as 8 little-endian bytes (the timestamp in two's
/// complement).
pub open spec fn spec_counter_to_bytes(c: Counter) -> Seq<u8> {
    spec_u64_to_le_bytes(c.counter) + spec_u64_to_le_bytes(c.last_modified as u64)
}

/// The `Counter` record a 16-byte account body denotes.
pub open spec fn spec_counter_from_bytes(s: Seq<u8>) -> Counter
    recommends
        s.len() == 16,
{
    Counter {
        counter: spec_u64_from_le_bytes(s.subrange(0, 8)),
        last_modified: spec_u64_from_le_bytes(s.subrange(8, 16)) as i64,
    }
}

/// The 8-byte body of a persisted `PdaAuth` account: the timestamp as 8
/// little-endian bytes in two's complement.
pub open spec fn spec_pda_auth_to_bytes(p: PdaAuth) -> Seq<u8> {
    spec_u64_to_le_bytes(p.last_transfer as u64)
}

/// The `PdaAuth` record an 8-byte account body denotes.
pub open spec fn spec_pda_auth_from_bytes(s: Seq<u8>) -> PdaAuth
    recommends
        s.len() == 8,
{
    PdaAuth { last_transfer: spec_u64_from_le_bytes(s) as i64 }
}

impl Counter {
    /// Persisted account size: 8 discriminator bytes plus the record body.
    pub const LEN: usize = 8 + 8 * 2;

    /// The record a freshly allocated, zero-filled account holds.
    pub fn new() -> (r: Counter)
        ensures
            r.counter == 0,
            r.last_modified == 0,
    {
        Counter { counter: 0, last_modified: 0 }
    }

    /// Serialize the record body as it is persisted on chain.
    pub fn to_bytes(&self) -> (r: Vec<u8>)
        ensures
            r@ == spec_counter_to_bytes(*self),
            r@.len() + 8 == Counter::LEN,
    {
        proof {
            lemma_auto_spec_u64_to_from_le_bytes();
        }
        let mut out = u64_to_le_bytes(self.counter);
        let mut tail = u64_to_le_bytes(self.last_modified as u64);
        out.append(&mut tail);
        out
    }

    /// Deserialize a record body; exactly the 16-byte bodies are accepted.
    pub fn from_bytes(bytes: &[u8]) -> (r: Option<Counter>)
        ensures
            r is Some <==> bytes@.len() + 8 == Counter::LEN,
            r matches Some(c) ==> c == spec_counter_from_bytes(bytes@),
    {
        if bytes.len() == 16 {
            let counter = u64_from_le_bytes(slice_subrange(bytes, 0, 8));
            let stamp = u64_from_le_bytes(slice_subrange(bytes, 8, 16));
            Some(Counter { counter, last_modified: stamp as i64 })
        } else {
            None
        }
    }
}

impl PdaAuth {
    /// Persisted account size: 8 discriminator bytes plus the record body.
    pub const LEN: usize = 8 + 8;

    /// The record a freshly allocated, zero-filled account holds.
    pub fn new() -> (r: PdaAuth)
        ensures
            r.last_transfer == 0,
    {
        PdaAuth { last_transfer: 0 }
    }

    /// Serialize the record body as it is persisted on chain.
    pub fn to_bytes(&self) -> (r: Vec<u8>)
        ensures
            r@ == spec_pda_auth_to_bytes(*self),
            r@.len() + 8 == PdaAuth::LEN,
    {
        proof {
            lemma_auto_spec_u64_to_from_le_bytes();
        }
        u64_to_le_bytes(self.last_transfer as u64)
    }

    /// Deserialize a record body; exactly the 8-byte bodies are accepted.
    pub fn from_bytes(bytes: &[u8]) -> (r: Option<PdaAuth>)
        ensures
            r is Some <==> bytes@.len() + 8 == PdaAuth::LEN,
            r matches Some(p) ==> p == spec_pda_auth_from_bytes(bytes@),
    {
        if bytes.len() == 8 {
            let stamp = u64_from_le_bytes(bytes);
            Some(PdaAuth { last_transfer: stamp as i64 })
        } else {
            None
        }
    }
}

/// Round trip of a `Counter` record through its persisted form: serializing
/// and deserializing gives the record back, and the body is 16 bytes.
pub proof fn lemma_counter_round_trip(c: Counter)
    ensures
        spec_counter_to_bytes(c).len() == 16,
        spec_counter_from_bytes(spec_counter_to_bytes(c)) == c,
{
    lemma_auto_spec_u64_to_from_le_bytes();
    let s = spec_counter_to_bytes(c);
    assert(s.subrange(0, 8) =~= spec_u64_to_le_bytes(c.counter));
    assert(s.subrange(8, 16) =~= spec_u64_to_le_bytes(c.last_modified as u64));
    let stamp = c.last_modified;
    assert(((stamp as u64) as i64) == stamp) by (bit_vector);
}

/// Round trip of a 16-byte body through the `Counter` record: deserializing
/// and serializing gives the bytes back.
pub proof fn lemma_counter_bytes_round_trip(s: Seq<u8>)
    requires
        s.len() == 16,
    ensures
        spec_counter_to_bytes(spec_counter_from_bytes(s)) == s,
{
    lemma_auto_spec_u64_to_from_le_bytes();
    let stamp = spec_u64_from_le_bytes(s.subrange(8, 16));
    assert(((stamp as i64) as u64) == stamp) by (bit_vector);
    assert(spec_counter_to_bytes(spec_counter_from_bytes(s)) =~= s);
}

/// Round trip of a `PdaAuth` record through its persisted form: serializing
/// and deserializing gives the record back, and the body is 8 bytes.
pub proof fn lemma_pda_auth_round_trip(p: PdaAuth)
    ensures
        spec_pda_auth_to_bytes(p).len() == 8,
        spec_pda_auth_from_bytes(spec_pda_auth_to_bytes(p)) == p,
{
    lemma_auto_spec_u64_to_from_le_bytes();
    let stamp = p.last_transfer;
    assert(((stamp as u64) as i64) == stamp) by (bit_vector);
}

/// Round trip of an 8-byte body through the `PdaAuth` record: deserializing
/// and serializing gives the bytes back.
pub proof fn lemma_pda_auth_bytes_round_trip(s: Seq<u8>)
    requires
        s.len() == 8,
    ensures
        spec_pda_auth_to_bytes(spec_pda_auth_from_bytes(s)) == s,
{
    lemma_auto_spec_u64_to_from_le_bytes();
    let stamp = spec_u64_from_le_bytes(s);
    assert(((stamp as i64) as u64) == stamp) by (bit_vector);
}

} // verus!
