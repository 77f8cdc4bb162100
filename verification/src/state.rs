//! Data model of the sale core: account identities, the lifecycle tag, the
//! per-investor ledger entry and the sale configuration record, together with
//! their fixed persisted byte layouts.

use vstd::prelude::*;

use crate::codec::{
    decode_i64_le, decode_u64_le, encode_i64_le, encode_u64_le, i64_unrepr, le_u64_at, u64_le_seq,
    u64_repr,
};
use crate::error::TokensellError;

verus! {

/// Byte length of a persisted participant record.
pub const PARTICIPANT_SIZE: usize = 81;

/// Byte length of a persisted sale record.
pub const TOKENSELL_SELL_SIZE: usize = 236;

/// A 32-byte account identity of the host ledger.
#[derive(Clone, Copy, Debug, PartialEq, Eq)]
pub struct Address {
    pub bytes: [u8; 32],
}

impl View for Address {
    type V = Seq<u8>;

    open spec fn view(&self) -> Seq<u8> {
        self.bytes@
    }
}

impl Address {
    /// Identity comparison, byte for byte.
    pub fn equals(&self, other: &Address) -> (r: bool)
        ensures
            r == (self@ == other@),
    {
        let mut i: usize = 0;
        while i < 32
            invariant
                i <= 32,
                forall|j: int| 0 <= j < i ==> self.bytes@[j] == other.bytes@[j],
            decreases 32 - i,
        {
            if self.bytes[i] != other.bytes[i] {
                assert(self@[i as int] != other@[i as int]);
                return false;
            }
            i += 1;
        }
        proof {
            assert(self@ =~= other@);
        }
        true
    }
}

/// Appends the 32 bytes of an identity to `out`.
pub fn push_address(out: &mut Vec<u8>, a: &Address)
    ensures
        final(out)@ == old(out)@ + a@,
{
    let mut i: usize = 0;
    while i < 32
        invariant
            i <= 32,
            out@ =~= old(out)@ + a@.subrange(0, i as int),
        decreases 32 - i,
    {
        out.push(a.bytes[i]);
        i += 1;
    }
    proof {
        assert(out@ =~= old(out)@ + a@);
    }
}

/// Reads the identity held at offset `off` of `b`.
pub fn read_address(b: &Vec<u8>, off: usize) -> (r: Address)
    requires
        off + 32 <= b@.len(),
    ensures
        r@ == b@.subrange(off as int, off as int + 32),
{
    let _len: usize = b.len();
    let bytes: [u8; 32] = [
        b[off],
        b[off + 1],
        b[off + 2],
        b[off + 3],
        b[off + 4],
        b[off + 5],
        b[off + 6],
        b[off + 7],
        b[off + 8],
        b[off + 9],
        b[off + 10],
        b[off + 11],
        b[off + 12],
        b[off + 13],
        b[off + 14],
        b[off + 15],
        b[off + 16],
        b[off + 17],
        b[off + 18],
        b[off + 19],
        b[off + 20],
        b[off + 21],
        b[off + 22],
        b[off + 23],
        b[off + 24],
        b[off + 25],
        b[off + 26],
        b[off + 27],
        b[off + 28],
        b[off + 29],
        b[off + 30],
        b[off + 31],
    ];
    let r = Address { bytes };
    proof {
        assert(r@ =~= b@.subrange(off as int, off as int + 32));
    }
    r
}

/// Lifecycle tag at the head of every persisted record.
#[derive(Clone, Copy, Debug, PartialEq, Eq, Structural)]
pub enum Key {
    Uninitialized,
    ParticipantData,
    SellData,
}

/// The byte a lifecycle tag is persisted as.
pub open spec fn spec_key_tag(k: Key) -> u8 {
    match k {
        Key::Uninitialized => 0,
        Key::ParticipantData => 1,
        Key::SellData => 2,
    }
}

/// The lifecycle tag a byte decodes to, if any.
pub open spec fn spec_key_from_tag(t: u8) -> Option<Key> {
    if t == 0 {
        Some(Key::Uninitialized)
    } else if t == 1 {
        Some(Key::ParticipantData)
    } else if t == 2 {
        Some(Key::SellData)
    } else {
        None
    }
}

pub fn key_tag(k: Key) -> (r: u8)
    ensures
        r == spec_key_tag(k),
{
    match k {
        Key::Uninitialized => 0,
        Key::ParticipantData => 1,
        Key::SellData => 2,
    }
}

pub fn key_from_tag(t: u8) -> (r: Option<Key>)
    ensures
        r == spec_key_from_tag(t),
{
    if t == 0 {
        Some(Key::Uninitialized)
    } else if t == 1 {
        Some(Key::ParticipantData)
    } else if t == 2 {
        Some(Key::SellData)
    } else {
        None
    }
}

/// One investor's cumulative deposit/claim ledger for a sale.
#[derive(Clone, Copy, Debug, PartialEq, Eq)]
pub struct ParticipantData {
    pub key: Key,
    pub owner: Address,
    pub sell: Address,
    /// Cumulative sale-token entitlement purchased.
    pub amount: u64,
    /// Cumulative sale-token units already transferred out.
    pub claimed: u64,
}

/// The persisted bytes of a participant record.
pub open spec fn spec_participant_bytes(p: ParticipantData) -> Seq<u8> {
    seq![spec_key_tag(p.key)] + p.owner@ + p.sell@ + u64_le_seq(p.amount) + u64_le_seq(p.claimed)
}

impl ParticipantData {
    /// The record invariant: an investor never claims beyond the entitlement.
    pub open spec fn wf(&self) -> bool {
        self.claimed <= self.amount
    }

    /// Persists the record in its fixed 81-byte layout.
    pub fn serialize(&self) -> (r: Vec<u8>)
        ensures
            r@ == spec_participant_bytes(*self),
            r@.len() == PARTICIPANT_SIZE,
    {
        let mut out: Vec<u8> = Vec::new();
        out.push(key_tag(self.key));
        push_address(&mut out, &self.owner);
        push_address(&mut out, &self.sell);
        encode_u64_le(self.amount, &mut out);
        encode_u64_le(self.claimed, &mut out);
        proof {
            assert(out@ =~= spec_participant_bytes(*self));
        }
        out
    }

    /// Reads a record back from its persisted bytes. Succeeds exactly on
    /// 81-byte buffers whose leading tag byte is a known lifecycle tag.
    pub fn try_from_slice(data: &Vec<u8>) -> (r: Result<ParticipantData, TokensellError>)
        ensures
            r is Ok <==> data@.len() == PARTICIPANT_SIZE && spec_key_from_tag(data@[0]) is Some,
            r matches Ok(p) ==> {
                &&& Some(p.key) == spec_key_from_tag(data@[0])
                &&& p.owner@ == data@.subrange(1, 33)
                &&& p.sell@ == data@.subrange(33, 65)
                &&& p.amount == le_u64_at(data@, 65)
                &&& p.claimed == le_u64_at(data@, 73)
            },
            r matches Err(e) ==> e == TokensellError::DeserializationFailed,
    {
        if data.len() != PARTICIPANT_SIZE {
            return Err(TokensellError::DeserializationFailed);
        }
        let key = match key_from_tag(data[0]) {
            Some(k) => k,
            None => {
                return Err(TokensellError::DeserializationFailed);
            },
        };
        proof {
            crate::codec::lemma_le_u64_at_bound(data@, 65);
            crate::codec::lemma_le_u64_at_bound(data@, 73);
        }
        Ok(
            ParticipantData {
                key,
                owner: read_address(data, 1),
                sell: read_address(data, 33),
                amount: decode_u64_le(data, 65),
                claimed: decode_u64_le(data, 73),
            },
        )
    }
}

/// Parsing the persisted bytes of a participant record gives the record back.
pub proof fn lemma_participant_roundtrip(p: ParticipantData, b: Seq<u8>)
    requires
        b == spec_participant_bytes(p),
    ensures
        b.len() == PARTICIPANT_SIZE,
        spec_key_from_tag(b[0]) == Some(p.key),
        b.subrange(1, 33) == p.owner@,
        b.subrange(33, 65) == p.sell@,
        le_u64_at(b, 65) == p.amount,
        le_u64_at(b, 73) == p.claimed,
{
    assert(b.subrange(1, 33) =~= p.owner@);
    assert(b.subrange(33, 65) =~= p.sell@);
    assert(b.subrange(65, 73) =~= u64_le_seq(p.amount));
    assert(b.subrange(73, 81) =~= u64_le_seq(p.claimed));
    crate::codec::lemma_u64_le_roundtrip(p.amount);
    crate::codec::lemma_u64_le_roundtrip(p.claimed);
    lemma_le_u64_at_subrange(b, 65);
    lemma_le_u64_at_subrange(b, 73);
}

/// Reading a word at an offset is reading it at the head of the subrange.
proof fn lemma_le_u64_at_subrange(b: Seq<u8>, off: int)
    requires
        0 <= off,
        off + 8 <= b.len(),
    ensures
        le_u64_at(b, off) == le_u64_at(b.subrange(off, off + 8), 0),
{
}

/// A run of `n` zero bytes.
pub open spec fn zero_bytes(n: nat) -> Seq<u8> {
    Seq::new(n, |i: int| 0u8)
}

/// Appends `n` zero bytes to `out`.
pub fn push_zero_bytes(out: &mut Vec<u8>, n: usize)
    ensures
        final(out)@ == old(out)@ + zero_bytes(n as nat),
{
    let mut i: usize = 0;
    while i < n
        invariant
            i <= n,
            out@ =~= old(out)@ + zero_bytes(i as nat),
        decreases n - i,
    {
        out.push(0u8);
        i += 1;
    }
    proof {
        assert(out@ =~= old(out)@ + zero_bytes(n as nat));
    }
}

/// The 33-byte image of an optional identity: a presence flag, then the
/// identity's bytes, zero-filled while absent.
pub open spec fn opt_addr_bytes(o: Option<Address>) -> Seq<u8> {
    match o {
        Option::None => seq![0u8] + zero_bytes(32),
        Option::Some(a) => seq![1u8] + a@,
    }
}

/// The 9-byte image of the optional unlock-epoch timestamp.
pub open spec fn opt_ts_bytes(o: Option<i64>) -> Seq<u8> {
    match o {
        Option::None => seq![0u8] + zero_bytes(8),
        Option::Some(t) => seq![1u8] + u64_le_seq(u64_repr(t)),
    }
}

/// Configuration and lifecycle state of one sale.
#[derive(Clone, Copy, Debug, PartialEq, Eq)]
pub struct SellData {
    pub key: Key,
    /// The administrator permitted to fix the unlock epoch.
    pub owner: Address,
    /// Mint of the payment token investors deposit.
    pub source_mint: Address,
    /// Mint of the distributed sale token; absent until the unlock epoch is set.
    pub target_mint: Option<Address>,
    /// Custody vault of the sale token; absent until the unlock epoch is set.
    pub source_vault: Option<Address>,
    /// Account that receives investor payments.
    pub target_acc: Address,
    /// Payment-token units owed per unit of sale-token purchase right.
    pub exchange_rate: u64,
    /// Inclusive start of the deposit window.
    pub start_time: i64,
    /// Inclusive end of the deposit window.
    pub end_time: i64,
    /// The unlock-epoch timestamp, once set.
    pub tge: Option<i64>,
    /// Percentage of the allocation released immediately at the unlock epoch.
    pub initial_perc: u64,
    /// Number of equal monthly tranches for the remainder.
    pub total_months: u64,
    /// Minimum payment amount that opens a participant record.
    pub min_deposit: u64,
    pub amount_total: u64,
    pub amount_left: u64,
}

/// The persisted 236-byte image of a sale record. Every field sits at a fixed
/// offset; optional fields carry a one-byte presence flag.
pub open spec fn spec_sell_bytes(s: SellData) -> Seq<u8> {
    seq![spec_key_tag(s.key)] + s.owner@ + s.source_mint@ + opt_addr_bytes(s.target_mint)
        + opt_addr_bytes(s.source_vault) + s.target_acc@ + u64_le_seq(s.exchange_rate)
        + u64_le_seq(u64_repr(s.start_time)) + u64_le_seq(u64_repr(s.end_time)) + opt_ts_bytes(
        s.tge,
    ) + u64_le_seq(s.initial_perc) + u64_le_seq(s.total_months) + u64_le_seq(s.min_deposit)
        + u64_le_seq(s.amount_total) + u64_le_seq(s.amount_left)
}

impl SellData {
    /// Persists the record in its fixed 236-byte layout.
    pub fn serialize(&self) -> (r: Vec<u8>)
        ensures
            r@ == spec_sell_bytes(*self),
            r@.len() == TOKENSELL_SELL_SIZE,
    {
        let mut out: Vec<u8> = Vec::new();
        out.push(key_tag(self.key));
        push_address(&mut out, &self.owner);
        push_address(&mut out, &self.source_mint);
        proof {
            assert(out@ =~= seq![spec_key_tag(self.key)] + self.owner@ + self.source_mint@);
        }
        let ghost head = out@;
        match &self.target_mint {
            Some(a) => {
                out.push(1u8);
                push_address(&mut out, a);
            },
            None => {
                out.push(0u8);
                push_zero_bytes(&mut out, 32);
            },
        }
        proof {
            assert(out@ =~= head + opt_addr_bytes(self.target_mint));
        }
        let ghost head = out@;
        match &self.source_vault {
            Some(a) => {
                out.push(1u8);
                push_address(&mut out, a);
            },
            None => {
                out.push(0u8);
                push_zero_bytes(&mut out, 32);
            },
        }
        proof {
            assert(out@ =~= head + opt_addr_bytes(self.source_vault));
        }
        push_address(&mut out, &self.target_acc);
        encode_u64_le(self.exchange_rate, &mut out);
        encode_i64_le(self.start_time, &mut out);
        encode_i64_le(self.end_time, &mut out);
        let ghost head = out@;
        match self.tge {
            Some(t) => {
                out.push(1u8);
                encode_i64_le(t, &mut out);
            },
            None => {
                out.push(0u8);
                push_zero_bytes(&mut out, 8);
            },
        }
        proof {
            assert(out@ =~= head + opt_ts_bytes(self.tge));
        }
        encode_u64_le(self.initial_perc, &mut out);
        encode_u64_le(self.total_months, &mut out);
        encode_u64_le(self.min_deposit, &mut out);
        encode_u64_le(self.amount_total, &mut out);
        encode_u64_le(self.amount_left, &mut out);
        proof {
            assert(out@ =~= spec_sell_bytes(*self));
        }
        out
    }

    /// Reads a sale record back from the head of an account's bytes, ignoring
    /// anything past the fixed layout. Fails with `SizeMismatch` on a buffer
    /// shorter than the layout, and with `DeserializationFailed` on an unknown
    /// lifecycle tag or presence flag.
    pub fn from_account_info(data: &Vec<u8>) -> (r: Result<SellData, TokensellError>)
        ensures
            r is Ok <==> {
                &&& data@.len() >= TOKENSELL_SELL_SIZE
                &&& spec_key_from_tag(data@[0]) is Some
                &&& data@[65] <= 1
                &&& data@[98] <= 1
                &&& data@[187] <= 1
            },
            r matches Ok(s) ==> {
                &&& Some(s.key) == spec_key_from_tag(data@[0])
                &&& s.owner@ == data@.subrange(1, 33)
                &&& s.source_mint@ == data@.subrange(33, 65)
                &&& (data@[65] == 0 ==> s.target_mint is None)
                &&& (data@[65] == 1 ==> (s.target_mint matches Some(a) && a@ == data@.subrange(
                    66,
                    98,
                )))
                &&& (data@[98] == 0 ==> s.source_vault is None)
                &&& (data@[98] == 1 ==> (s.source_vault matches Some(a) && a@ == data@.subrange(
                    99,
                    131,
                )))
                &&& s.target_acc@ == data@.subrange(131, 163)
                &&& s.exchange_rate == le_u64_at(data@, 163)
                &&& s.start_time == i64_unrepr(le_u64_at(data@, 171) as u64)
                &&& s.end_time == i64_unrepr(le_u64_at(data@, 179) as u64)
                &&& (data@[187] == 0 ==> s.tge is None)
                &&& (data@[187] == 1 ==> (s.tge matches Some(t) && t == i64_unrepr(
                    le_u64_at(data@, 188) as u64,
                )))
                &&& s.initial_perc == le_u64_at(data@, 196)
                &&& s.total_months == le_u64_at(data@, 204)
                &&& s.min_deposit == le_u64_at(data@, 212)
                &&& s.amount_total == le_u64_at(data@, 220)
                &&& s.amount_left == le_u64_at(data@, 228)
            },
            r matches Err(e) ==> {
                &&& (e == TokensellError::SizeMismatch <==> data@.len() < TOKENSELL_SELL_SIZE)
                &&& (e == TokensellError::SizeMismatch || e
                    == TokensellError::DeserializationFailed)
            },
    {
        if data.len() < TOKENSELL_SELL_SIZE {
            return Err(TokensellError::SizeMismatch);
        }
        let key = match key_from_tag(data[0]) {
            Some(k) => k,
            None => {
                return Err(TokensellError::DeserializationFailed);
            },
        };
        let tm_flag = data[65];
        let sv_flag = data[98];
        let tge_flag = data[187];
        if tm_flag > 1 || sv_flag > 1 || tge_flag > 1 {
            return Err(TokensellError::DeserializationFailed);
        }
        let target_mint = if tm_flag == 1 {
            Some(read_address(data, 66))
        } else {
            None
        };
        let source_vault = if sv_flag == 1 {
            Some(read_address(data, 99))
        } else {
            None
        };
        let tge = if tge_flag == 1 {
            Some(decode_i64_le(data, 188))
        } else {
            None
        };
        proof {
            crate::codec::lemma_le_u64_at_bound(data@, 163);
            crate::codec::lemma_le_u64_at_bound(data@, 196);
            crate::codec::lemma_le_u64_at_bound(data@, 204);
            crate::codec::lemma_le_u64_at_bound(data@, 212);
            crate::codec::lemma_le_u64_at_bound(data@, 220);
            crate::codec::lemma_le_u64_at_bound(data@, 228);
        }
        Ok(
            SellData {
                key,
                owner: read_address(data, 1),
                source_mint: read_address(data, 33),
                target_mint,
                source_vault,
                target_acc: read_address(data, 131),
                exchange_rate: decode_u64_le(data, 163),
                start_time: decode_i64_le(data, 171),
                end_time: decode_i64_le(data, 179),
                tge,
                initial_perc: decode_u64_le(data, 196),
                total_months: decode_u64_le(data, 204),
                min_deposit: decode_u64_le(data, 212),
                amount_total: decode_u64_le(data, 220),
                amount_left: decode_u64_le(data, 228),
            },
        )
    }
}

/// Parsing the persisted bytes of a sale record gives the record back: the
/// fields of `from_account_info`'s contract name exactly the fields of `s`.
#[verifier::rlimit(100)]
pub proof fn lemma_sell_roundtrip(s: SellData, b: Seq<u8>)
    requires
        b == spec_sell_bytes(s),
    ensures
        b.len() == TOKENSELL_SELL_SIZE,
        spec_key_from_tag(b[0]) == Some(s.key),
        b.subrange(1, 33) == s.owner@,
        b.subrange(33, 65) == s.source_mint@,
        b[65] <= 1,
        b[65] == 1 <==> s.target_mint is Some,
        s.target_mint matches Some(a) ==> b.subrange(66, 98) == a@,
        b[98] <= 1,
        b[98] == 1 <==> s.source_vault is Some,
        s.source_vault matches Some(a) ==> b.subrange(99, 131) == a@,
        b.subrange(131, 163) == s.target_acc@,
        le_u64_at(b, 163) == s.exchange_rate,
        i64_unrepr(le_u64_at(b, 171) as u64) == s.start_time,
        i64_unrepr(le_u64_at(b, 179) as u64) == s.end_time,
        b[187] <= 1,
        b[187] == 1 <==> s.tge is Some,
        s.tge matches Some(t) ==> i64_unrepr(le_u64_at(b, 188) as u64) == t,
        le_u64_at(b, 196) == s.initial_perc,
        le_u64_at(b, 204) == s.total_months,
        le_u64_at(b, 212) == s.min_deposit,
        le_u64_at(b, 220) == s.amount_total,
        le_u64_at(b, 228) == s.amount_left,
{
    assert(opt_addr_bytes(s.target_mint).len() == 33);
    assert(opt_addr_bytes(s.source_vault).len() == 33);
    assert(opt_ts_bytes(s.tge).len() == 9);
    assert(b.subrange(1, 33) =~= s.owner@);
    assert(b.subrange(33, 65) =~= s.source_mint@);
    assert(b.subrange(65, 98) =~= opt_addr_bytes(s.target_mint));
    assert(b.subrange(98, 131) =~= opt_addr_bytes(s.source_vault));
    assert(b.subrange(131, 163) =~= s.target_acc@);
    assert(b.subrange(163, 171) =~= u64_le_seq(s.exchange_rate));
    assert(b.subrange(171, 179) =~= u64_le_seq(u64_repr(s.start_time)));
    assert(b.subrange(179, 187) =~= u64_le_seq(u64_repr(s.end_time)));
    assert(b.subrange(187, 196) =~= opt_ts_bytes(s.tge));
    assert(b.subrange(196, 204) =~= u64_le_seq(s.initial_perc));
    assert(b.subrange(204, 212) =~= u64_le_seq(s.total_months));
    assert(b.subrange(212, 220) =~= u64_le_seq(s.min_deposit));
    assert(b.subrange(220, 228) =~= u64_le_seq(s.amount_total));
    assert(b.subrange(228, 236) =~= u64_le_seq(s.amount_left));
    if let Some(a) = s.target_mint {
        assert(b.subrange(66, 98) =~= b.subrange(65, 98).subrange(1, 33));
        assert(b.subrange(66, 98) =~= a@);
    }
    if let Some(a) = s.source_vault {
        assert(b.subrange(99, 131) =~= b.subrange(98, 131).subrange(1, 33));
        assert(b.subrange(99, 131) =~= a@);
    }
    if let Some(t) = s.tge {
        assert(b.subrange(188, 196) =~= b.subrange(187, 196).subrange(1, 9));
        assert(b.subrange(188, 196) =~= u64_le_seq(u64_repr(t)));
        lemma_le_u64_at_subrange(b, 188);
        crate::codec::lemma_u64_le_roundtrip(u64_repr(t));
    }
    lemma_le_u64_at_subrange(b, 163);
    lemma_le_u64_at_subrange(b, 171);
    lemma_le_u64_at_subrange(b, 179);
    lemma_le_u64_at_subrange(b, 196);
    lemma_le_u64_at_subrange(b, 204);
    lemma_le_u64_at_subrange(b, 212);
    lemma_le_u64_at_subrange(b, 220);
    lemma_le_u64_at_subrange(b, 228);
    crate::codec::lemma_u64_le_roundtrip(s.exchange_rate);
    crate::codec::lemma_u64_le_roundtrip(u64_repr(s.start_time));
    crate::codec::lemma_u64_le_roundtrip(u64_repr(s.end_time));
    crate::codec::lemma_u64_le_roundtrip(s.initial_perc);
    crate::codec::lemma_u64_le_roundtrip(s.total_months);
    crate::codec::lemma_u64_le_roundtrip(s.min_deposit);
    crate::codec::lemma_u64_le_roundtrip(s.amount_total);
    crate::codec::lemma_u64_le_roundtrip(s.amount_left);
}

} // verus!
