use vstd::prelude::*;
use crate::address::Address;
use crate::error::TipError;
use crate::fee::MAX_FEE_BPS;
use crate::le::{
    le_bytes, le_value, lemma_le_bytes_len, lemma_le_canonical, lemma_le_round_trip,
    lemma_le_value_bound, lemma_radix_values, push_u16_le, push_u64_le, read_u16_le, read_u64_le,
};

verus! {

/// Bytes that an encoded record takes: a flag, two addresses, the rate and
/// two counters.
pub const CONFIG_SIZE: usize = 83;

/// The configuration record, one per deployment.
#[derive(Clone, Copy, Debug, PartialEq, Eq)]
pub struct TipConfig {
    /// Set once the record has been created.
    pub is_initialized: bool,
    /// The only authority that may change the fee rate.
    pub admin: Address,
    /// The token account that receives the fees.
    pub treasury: Address,
    /// Fee rate in basis points.
    pub fee_bps: u16,
    /// Tips settled so far.
    pub total_tips: u64,
    /// Sum of the gross amounts of the tips settled so far.
    pub total_volume: u64,
}

impl TipConfig {
    /// The record's invariant: the fee rate is at most ten percent.
    pub open spec fn wf(self) -> bool {
        self.fee_bps <= MAX_FEE_BPS
    }

    /// The record's fixed layout: flag, admin, treasury, rate, tips, volume,
    /// integers little-endian.
    pub open spec fn encoding(self) -> Seq<u8> {
        seq![if self.is_initialized { 1u8 } else { 0u8 }] + self.admin@ + self.treasury@ + le_bytes(
            self.fee_bps as nat,
            2,
        ) + le_bytes(self.total_tips as nat, 8) + le_bytes(self.total_volume as nat, 8)
    }

    /// Whether `bytes` is the encoding of some record: the right length and
    /// a flag byte of zero or one.
    pub open spec fn well_encoded(bytes: Seq<u8>) -> bool {
        bytes.len() == CONFIG_SIZE && bytes[0] <= 1
    }

    /// The record that `bytes` encodes, if any.
    pub open spec fn decoded(bytes: Seq<u8>) -> Option<TipConfig> {
        if exists|r: TipConfig| r.encoding() == bytes {
            Some(choose|r: TipConfig| r.encoding() == bytes)
        } else {
            None
        }
    }

    /// Where each field lies in the encoding.
    pub proof fn lemma_encoding_fields(self)
        ensures
            self.encoding().len() == CONFIG_SIZE,
            self.encoding()[0] == if self.is_initialized { 1u8 } else { 0u8 },
            self.encoding().subrange(1, 33) == self.admin@,
            self.encoding().subrange(33, 65) == self.treasury@,
            self.encoding().subrange(65, 67) == le_bytes(self.fee_bps as nat, 2),
            self.encoding().subrange(67, 75) == le_bytes(self.total_tips as nat, 8),
            self.encoding().subrange(75, 83) == le_bytes(self.total_volume as nat, 8),
            TipConfig::well_encoded(self.encoding()),
    {
        lemma_le_bytes_len(self.fee_bps as nat, 2);
        lemma_le_bytes_len(self.total_tips as nat, 8);
        lemma_le_bytes_len(self.total_volume as nat, 8);
        let e = self.encoding();
        assert(e.subrange(1, 33) =~= self.admin@);
        assert(e.subrange(33, 65) =~= self.treasury@);
        assert(e.subrange(65, 67) =~= le_bytes(self.fee_bps as nat, 2));
        assert(e.subrange(67, 75) =~= le_bytes(self.total_tips as nat, 8));
        assert(e.subrange(75, 83) =~= le_bytes(self.total_volume as nat, 8));
    }

    /// Two records with the same encoding are the same record.
    pub proof fn lemma_encoding_injective(a: TipConfig, b: TipConfig)
        requires
            a.encoding() == b.encoding(),
        ensures
            a == b,
    {
        a.lemma_encoding_fields();
        b.lemma_encoding_fields();
        lemma_radix_values();
        Address::lemma_view_injective(a.admin, b.admin);
        Address::lemma_view_injective(a.treasury, b.treasury);
        lemma_le_round_trip(a.fee_bps as nat, 2);
        lemma_le_round_trip(b.fee_bps as nat, 2);
        lemma_le_round_trip(a.total_tips as nat, 8);
        lemma_le_round_trip(b.total_tips as nat, 8);
        lemma_le_round_trip(a.total_volume as nat, 8);
        lemma_le_round_trip(b.total_volume as nat, 8);
    }

    /// Decoding the encoding of a record gives the record back, whatever its
    /// fields hold.
    pub proof fn lemma_round_trip(self)
        ensures
            TipConfig::decoded(self.encoding()) == Some(self),
    {
        let found = choose|r: TipConfig| r.encoding() == self.encoding();
        TipConfig::lemma_encoding_injective(found, self);
    }

    /// Only well-encoded bytes decode, and what they decode to encodes to
    /// the same bytes again.
    pub proof fn lemma_decoded_encodes(bytes: Seq<u8>)
        ensures
            TipConfig::decoded(bytes) is Some ==> TipConfig::well_encoded(bytes),
            TipConfig::decoded(bytes) matches Some(r) ==> r.encoding() == bytes,
    {
        if let Some(r) = TipConfig::decoded(bytes) {
            r.lemma_encoding_fields();
        }
    }

    /// Encodes the record in its fixed layout.
    pub fn encode(&self) -> (out: Vec<u8>)
        ensures
            out@ == self.encoding(),
            out@.len() == CONFIG_SIZE,
    {
        let mut out: Vec<u8> = Vec::with_capacity(CONFIG_SIZE);
        out.push(if self.is_initialized { 1 } else { 0 });
        out.extend_from_slice(self.admin.bytes.as_slice());
        out.extend_from_slice(self.treasury.bytes.as_slice());
        push_u16_le(&mut out, self.fee_bps);
        push_u64_le(&mut out, self.total_tips);
        push_u64_le(&mut out, self.total_volume);
        proof {
            self.lemma_encoding_fields();
            assert(out@ =~= self.encoding());
        }
        out
    }

    /// Decodes a record. Fails exactly on bytes of the wrong length or with
    /// a flag byte other than zero or one.
    pub fn decode(bytes: &[u8]) -> (r: Result<TipConfig, TipError>)
        ensures
            r is Ok <==> TipConfig::well_encoded(bytes@),
            match r {
                Ok(record) => TipConfig::decoded(bytes@) == Some(record) && record.encoding()
                    == bytes@,
                Err(e) => e == TipError::DecodeError && TipConfig::decoded(bytes@) is None,
            },
    {
        if bytes.len() != CONFIG_SIZE || bytes[0] > 1 {
            proof {
                if let Some(r) = TipConfig::decoded(bytes@) {
                    r.lemma_encoding_fields();
                }
            }
            return Err(TipError::DecodeError);
        }
        let record = TipConfig {
            is_initialized: bytes[0] == 1,
            admin: read_address(bytes, 1),
            treasury: read_address(bytes, 33),
            fee_bps: read_u16_le(bytes, 65),
            total_tips: read_u64_le(bytes, 67),
            total_volume: read_u64_le(bytes, 75),
        };
        proof {
            record.lemma_encoding_fields();
            lemma_le_canonical(bytes@.subrange(65, 67));
            lemma_le_canonical(bytes@.subrange(67, 75));
            lemma_le_canonical(bytes@.subrange(75, 83));
            assert(record.encoding() =~= bytes@);
            record.lemma_round_trip();
        }
        Ok(record)
    }

    /// Writes the encoding over the first bytes of an account's data and
    /// leaves the rest as it was. Fails, changing nothing, on data too
    /// small to hold a record.
    pub fn store(&self, data: &mut Vec<u8>) -> (r: Result<(), TipError>)
        ensures
            r is Ok <==> old(data)@.len() >= CONFIG_SIZE,
            match r {
                Ok(_) => final(data)@ == self.encoding() + old(data)@.subrange(
                    CONFIG_SIZE as int,
                    old(data)@.len() as int,
                ),
                Err(e) => e == TipError::EncodeError && final(data)@ == old(data)@,
            },
    {
        if data.len() < CONFIG_SIZE {
            return Err(TipError::EncodeError);
        }
        let encoded = self.encode();
        let mut i: usize = 0;
        while i < CONFIG_SIZE
            invariant
                i <= CONFIG_SIZE,
                encoded@ == self.encoding(),
                encoded@.len() == CONFIG_SIZE,
                data@.len() == old(data)@.len(),
                data@.len() >= CONFIG_SIZE,
                forall|j: int| 0 <= j < i ==> data@[j] == encoded@[j],
                forall|j: int| i <= j < data@.len() ==> data@[j] == old(data)@[j],
            decreases CONFIG_SIZE - i,
        {
            data.set(i, encoded[i]);
            i += 1;
        }
        assert(data@ =~= self.encoding() + old(data)@.subrange(
            CONFIG_SIZE as int,
            old(data)@.len() as int,
        ));
        Ok(())
    }
}

/// Reads the address whose 32 bytes start at `at`.
pub fn read_address(bytes: &[u8], at: usize) -> (address: Address)
    requires
        at + 32 <= bytes@.len(),
    ensures
        address@ == bytes@.subrange(at as int, at + 32),
{
    let len = bytes.len();
    let mut out = [0u8; 32];
    let mut i: usize = 0;
    while i < 32
        invariant
            i <= 32,
            at + 32 <= bytes@.len() == len,
            forall|j: int| 0 <= j < i ==> out@[j] == bytes@[at + j],
        decreases 32 - i,
    {
        out[i] = bytes[at + i];
        i += 1;
    }
    let address = Address { bytes: out };
    assert(address@ =~= bytes@.subrange(at as int, at + 32));
    address
}

} // verus!
