//! Persisted state: one escrow slot, the fixed-width registry of slots, and
//! the canonical byte codec between them and the registry buffer.
//!
//! Byte layout of one slot (little-endian numeric fields):
//! `[1 byte: active flag][4 bytes: amount_expected][32 bytes: token_expected]`
//! `[32 bytes: holding_account][32 bytes: owner_account]`, 101 bytes in all.

use vstd::prelude::*;
use vstd::bytes::{
    spec_u32_from_le_bytes, spec_u32_to_le_bytes, lemma_auto_spec_u32_to_from_le_bytes,
    u32_from_le_bytes, u32_to_le_bytes,
};
use vstd::slice::slice_subrange;
use vstd::pervasive::VecAdditionalExecFns;
use crate::error::EscrowError;
use crate::pubkey::{Pubkey, zero_address};

verus! {

/// Encoded length of one slot.
pub const DATA_LEN: usize = 101;

/// Number of slots in the deployed registry.
pub const COLLECTION_WIDTH: usize = 5;

/// One pending or free swap offer.
#[derive(Debug, PartialEq, Eq)]
pub struct Escrow {
    /// Whether this slot holds a pending offer.
    pub active: bool,
    /// Quantity the depositor expects from an executor.
    pub amount_expected: u32,
    /// Asset type the depositor expects from an executor.
    pub token_expected: Pubkey,
    /// Address of the deposited asset account under custody.
    pub holding_account: Pubkey,
    /// Address of the depositing party.
    pub owner_account: Pubkey,
}

/// The mathematical model of one slot.
pub ghost struct EscrowV {
    pub active: bool,
    pub amount_expected: u32,
    pub token_expected: Seq<u8>,
    pub holding_account: Seq<u8>,
    pub owner_account: Seq<u8>,
}

impl View for Escrow {
    type V = EscrowV;

    open spec fn view(&self) -> EscrowV {
        EscrowV {
            active: self.active,
            amount_expected: self.amount_expected,
            token_expected: self.token_expected@,
            holding_account: self.holding_account@,
            owner_account: self.owner_account@,
        }
    }
}

/// A well-formed slot model: every address field holds exactly 32 bytes.
pub open spec fn slot_wf(e: EscrowV) -> bool {
    &&& e.token_expected.len() == 32
    &&& e.holding_account.len() == 32
    &&& e.owner_account.len() == 32
}

/// The canonical free slot: inactive with every other field zeroed.
pub open spec fn released_slot() -> EscrowV {
    EscrowV {
        active: false,
        amount_expected: 0,
        token_expected: zero_address(),
        holding_account: zero_address(),
        owner_account: zero_address(),
    }
}

/// What releasing a slot leaves behind, whatever it held before.
pub open spec fn spec_release(e: EscrowV) -> EscrowV {
    released_slot()
}

/// Releasing a slot twice leaves exactly the state one release leaves.
pub proof fn lemma_release_idempotent(e: EscrowV)
    ensures
        spec_release(spec_release(e)) == spec_release(e),
{
}

/// The canonical encoding of one slot model.
pub open spec fn spec_encode_slot(e: EscrowV) -> Seq<u8> {
    seq![if e.active { 1u8 } else { 0u8 }] + spec_u32_to_le_bytes(e.amount_expected)
        + e.token_expected + e.holding_account + e.owner_account
}

/// The slot model read from a 101-byte buffer.
pub open spec fn spec_decode_slot(b: Seq<u8>) -> EscrowV
    recommends
        b.len() == 101,
{
    EscrowV {
        active: b[0] != 0,
        amount_expected: spec_u32_from_le_bytes(b.subrange(1, 5)),
        token_expected: b.subrange(5, 37),
        holding_account: b.subrange(37, 69),
        owner_account: b.subrange(69, 101),
    }
}

/// The buffers the slot decoder accepts: exactly 101 bytes with a canonical
/// boolean flag byte, so that re-encoding reproduces the buffer exactly.
pub open spec fn slot_bytes_ok(b: Seq<u8>) -> bool {
    b.len() == 101 && (b[0] == 0 || b[0] == 1)
}

/// The buffers the registry decoder accepts: exactly `n` slot regions, each
/// with a canonical boolean flag byte.
pub open spec fn registry_bytes_ok(b: Seq<u8>, n: nat) -> bool {
    &&& b.len() == 101 * n
    &&& forall|i: int| 0 <= i < n ==> #[trigger] b[101 * i] == 0 || b[101 * i] == 1
}

/// An encoded well-formed slot takes exactly 101 bytes.
pub proof fn lemma_encode_slot_len(e: EscrowV)
    requires
        slot_wf(e),
    ensures
        spec_encode_slot(e).len() == 101,
{
    lemma_auto_spec_u32_to_from_le_bytes();
}

/// Decoding recovers every well-formed slot that was encoded.
pub proof fn lemma_slot_decode_encode(e: EscrowV)
    requires
        slot_wf(e),
    ensures
        spec_encode_slot(e).len() == 101,
        spec_decode_slot(spec_encode_slot(e)) == e,
{
    lemma_auto_spec_u32_to_from_le_bytes();
    let b = spec_encode_slot(e);
    assert(b.subrange(1, 5) =~= spec_u32_to_le_bytes(e.amount_expected));
    assert(b.subrange(5, 37) =~= e.token_expected);
    assert(b.subrange(37, 69) =~= e.holding_account);
    assert(b.subrange(69, 101) =~= e.owner_account);
}

/// Encoding is canonical: it reproduces every buffer the slot decoder
/// accepts, byte for byte.
pub proof fn lemma_slot_encode_decode(b: Seq<u8>)
    requires
        slot_bytes_ok(b),
    ensures
        spec_encode_slot(spec_decode_slot(b)) == b,
{
    lemma_auto_spec_u32_to_from_le_bytes();
    let e = spec_decode_slot(b);
    assert(spec_u32_to_le_bytes(spec_u32_from_le_bytes(b.subrange(1, 5))) == b.subrange(1, 5));
    assert(spec_encode_slot(e) =~= b);
}

impl Escrow {
    /// A well-formed slot value.
    pub open spec fn wf(&self) -> bool {
        slot_wf(self@)
    }

    /// A fresh, free slot.
    pub fn new_free() -> (r: Escrow)
        ensures
            r@ == released_slot(),
            r.wf(),
    {
        Escrow {
            active: false,
            amount_expected: 0,
            token_expected: Pubkey::zeroed(),
            holding_account: Pubkey::zeroed(),
            owner_account: Pubkey::zeroed(),
        }
    }

    /// Zeroes every field and marks the slot free; idempotent.
    pub fn reset(&mut self)
        ensures
            final(self)@ == released_slot(),
            final(self)@ == spec_release(old(self)@),
            final(self).wf(),
    {
        self.active = false;
        self.amount_expected = 0;
        self.token_expected = Pubkey::zeroed();
        self.holding_account = Pubkey::zeroed();
        self.owner_account = Pubkey::zeroed();
    }

    /// Encodes this slot into its canonical 101-byte form.
    pub fn pack(&self) -> (r: Vec<u8>)
        requires
            self.wf(),
        ensures
            r@ == spec_encode_slot(self@),
            r@.len() == 101,
    {
        let mut r: Vec<u8> = Vec::new();
        r.push(if self.active { 1u8 } else { 0u8 });
        let amt = u32_to_le_bytes(self.amount_expected);
        append_bytes(&mut r, &amt);
        append_bytes(&mut r, &self.token_expected.bytes);
        append_bytes(&mut r, &self.holding_account.bytes);
        append_bytes(&mut r, &self.owner_account.bytes);
        proof {
            lemma_encode_slot_len(self@);
            assert(r@ =~= spec_encode_slot(self@));
        }
        r
    }

    /// Decodes one slot from a buffer that must be exactly 101 bytes long
    /// with a canonical boolean flag byte, so that re-encoding the result
    /// reproduces the buffer exactly.
    pub fn unpack_from_slice(src: &Vec<u8>) -> (r: Result<Escrow, EscrowError>)
        ensures
            match r {
                Ok(e) => slot_bytes_ok(src@) && e@ == spec_decode_slot(src@) && e.wf(),
                Err(e) => !slot_bytes_ok(src@) && e@
                    == crate::error::EscrowErrorV::MalformedState,
            },
    {
        if src.len() != DATA_LEN {
            return Err(EscrowError::MalformedState);
        }
        if src[0] > 1 {
            return Err(EscrowError::MalformedState);
        }
        proof {
            assert(src@.subrange(0, 101) =~= src@);
        }
        Ok(unpack_at(src, 0))
    }
}

/// Appends all of `src` to `dst`.
fn append_bytes(dst: &mut Vec<u8>, src: &Vec<u8>)
    ensures
        final(dst)@ == old(dst)@ + src@,
{
    let mut i: usize = 0;
    while i < src.len()
        invariant
            i <= src@.len(),
            dst@ =~= old(dst)@ + src@.take(i as int),
        decreases src@.len() - i,
    {
        dst.push(src[i]);
        i = i + 1;
    }
    proof {
        assert(dst@ =~= old(dst)@ + src@);
    }
}

/// Copies `len` bytes of `src` starting at `start` into a fresh vector.
pub(crate) fn copy_range(src: &Vec<u8>, start: usize, len: usize) -> (r: Vec<u8>)
    requires
        start + len <= src@.len(),
    ensures
        r@ == src@.subrange(start as int, start + len),
{
    // Pins the buffer length into the usize range for the index arithmetic.
    let _buf_len = src.len();
    let mut r: Vec<u8> = Vec::new();
    let mut i: usize = 0;
    while i < len
        invariant
            i <= len,
            start + len <= src@.len(),
            src@.len() <= usize::MAX,
            r@ =~= src@.subrange(start as int, start + i),
        decreases len - i,
    {
        r.push(src[start + i]);
        proof {
            assert(r@ =~= src@.subrange(start as int, start + i + 1));
        }
        i = i + 1;
    }
    r
}

/// Decodes the slot stored at `offset` in a registry buffer.
fn unpack_at(src: &Vec<u8>, offset: usize) -> (r: Escrow)
    requires
        offset + 101 <= src@.len(),
    ensures
        r@ == spec_decode_slot(src@.subrange(offset as int, offset + 101)),
        r.wf(),
{
    let ghost b = src@.subrange(offset as int, offset + 101);
    // Pins the buffer length into the usize range for the index arithmetic.
    let _buf_len = src.len();
    let active = *vstd::slice::slice_index_get(src.as_slice(), offset) != 0;
    let amount_expected = u32_from_le_bytes(slice_subrange(src.as_slice(), offset + 1, offset + 5));
    let token_expected = Pubkey { bytes: copy_range(src, offset + 5, 32) };
    let holding_account = Pubkey { bytes: copy_range(src, offset + 37, 32) };
    let owner_account = Pubkey { bytes: copy_range(src, offset + 69, 32) };
    proof {
        assert(src@.subrange(offset + 1, offset + 5) =~= b.subrange(1, 5));
        assert(src@.subrange(offset + 5, offset + 37) =~= b.subrange(5, 37));
        assert(src@.subrange(offset + 37, offset + 69) =~= b.subrange(37, 69));
        assert(src@.subrange(offset + 69, offset + 101) =~= b.subrange(69, 101));
    }
    Escrow { active, amount_expected, token_expected, holding_account, owner_account }
}

// ---------------------------------------------------------------------------
// The registry: a fixed-length ordered sequence of slots.
// ---------------------------------------------------------------------------

/// A well-formed registry model: every slot is well formed.
pub open spec fn coll_wf(s: Seq<EscrowV>) -> bool {
    forall|i: int| 0 <= i < s.len() ==> slot_wf(#[trigger] s[i])
}

/// The canonical encoding of a registry model: the slot encodings in order.
pub open spec fn spec_encode_collection(s: Seq<EscrowV>) -> Seq<u8>
    decreases s.len(),
{
    if s.len() == 0 {
        Seq::empty()
    } else {
        spec_encode_collection(s.drop_last()) + spec_encode_slot(s.last())
    }
}

/// The registry model read from a buffer of `n` slot regions.
pub open spec fn spec_decode_collection(b: Seq<u8>, n: nat) -> Seq<EscrowV> {
    Seq::new(n, |i: int| spec_decode_slot(b.subrange(101 * i, 101 * i + 101)))
}

/// An encoded well-formed registry takes exactly 101 bytes per slot.
pub proof fn lemma_encode_collection_len(s: Seq<EscrowV>)
    requires
        coll_wf(s),
    ensures
        spec_encode_collection(s).len() == 101 * s.len(),
    decreases s.len(),
{
    if s.len() > 0 {
        assert(coll_wf(s.drop_last()));
        lemma_encode_collection_len(s.drop_last());
        lemma_encode_slot_len(s.last());
    }
}

/// Slot `i` of a registry encoding occupies bytes `101*i .. 101*i + 101`.
pub proof fn lemma_encode_collection_index(s: Seq<EscrowV>, i: int)
    requires
        coll_wf(s),
        0 <= i < s.len(),
    ensures
        spec_encode_collection(s).len() == 101 * s.len(),
        spec_encode_collection(s).subrange(101 * i, 101 * i + 101) == spec_encode_slot(s[i]),
    decreases s.len(),
{
    lemma_encode_collection_len(s);
    assert(coll_wf(s.drop_last()));
    lemma_encode_collection_len(s.drop_last());
    lemma_encode_slot_len(s.last());
    if i == s.len() - 1 {
        assert(spec_encode_collection(s).subrange(101 * i, 101 * i + 101)
            =~= spec_encode_slot(s.last()));
    } else {
        lemma_encode_collection_index(s.drop_last(), i);
        assert(spec_encode_collection(s).subrange(101 * i, 101 * i + 101)
            =~= spec_encode_collection(s.drop_last()).subrange(101 * i, 101 * i + 101));
    }
}

/// Decoding recovers every well-formed registry that was encoded.
pub proof fn lemma_collection_decode_encode(s: Seq<EscrowV>)
    requires
        coll_wf(s),
    ensures
        spec_encode_collection(s).len() == 101 * s.len(),
        spec_decode_collection(spec_encode_collection(s), s.len()) == s,
{
    let b = spec_encode_collection(s);
    lemma_encode_collection_len(s);
    assert forall|i: int| 0 <= i < s.len() implies spec_decode_collection(b, s.len())[i]
        == s[i] by {
        lemma_encode_collection_index(s, i);
        lemma_slot_decode_encode(s[i]);
    }
    assert(spec_decode_collection(b, s.len()) =~= s);
}

/// Encoding is canonical: it reproduces every buffer the registry decoder
/// accepts, byte for byte.
pub proof fn lemma_collection_encode_decode(b: Seq<u8>, n: nat)
    requires
        registry_bytes_ok(b, n),
    ensures
        spec_encode_collection(spec_decode_collection(b, n)) == b,
{
    let s = spec_decode_collection(b, n);
    assert(coll_wf(s));
    lemma_encode_collection_len(s);
    assert forall|j: int| 0 <= j < 101 * n implies spec_encode_collection(s)[j] == b[j] by {
        let i = j / 101;
        assert(j == 101 * (j / 101) + j % 101 && 0 <= j % 101 < 101) by (nonlinear_arith)
            requires j >= 0;
        assert(0 <= i);
        assert(i < n) by {
            if i >= n {
                assert(101 * i >= 101 * n);
            }
        }
        lemma_encode_collection_index(s, i);
        lemma_slot_encode_decode(b.subrange(101 * i, 101 * i + 101));
        assert(spec_encode_collection(s)[j]
            == spec_encode_collection(s).subrange(101 * i, 101 * i + 101)[j - 101 * i]);
        assert(b[j] == b.subrange(101 * i, 101 * i + 101)[j - 101 * i]);
    }
    assert(spec_encode_collection(s) =~= b);
}

/// Index `i` is the lowest-index free slot of `s`.
pub open spec fn is_first_free(s: Seq<EscrowV>, i: int) -> bool {
    &&& 0 <= i < s.len()
    &&& !s[i].active
    &&& forall|j: int| 0 <= j < i ==> (#[trigger] s[j]).active
}

/// The lowest-index free slot of `s`, if any slot is free.
pub open spec fn first_free(s: Seq<EscrowV>) -> Option<int> {
    if exists|i: int| is_first_free(s, i) {
        Some(choose|i: int| is_first_free(s, i))
    } else {
        None
    }
}

/// At most one index is the first free slot.
pub proof fn lemma_first_free_unique(s: Seq<EscrowV>, i: int)
    requires
        is_first_free(s, i),
    ensures
        first_free(s) == Some(i),
{
    let k = choose|k: int| is_first_free(s, k);
    if k < i {
        assert(s[k].active);
    }
    if i < k {
        assert(s[i].active);
    }
}

/// Wherever some slot is free, a lowest-index free slot exists.
pub proof fn lemma_first_free_exists(s: Seq<EscrowV>, j: int)
    requires
        0 <= j < s.len(),
        !s[j].active,
    ensures
        first_free(s) is Some,
    decreases j,
{
    if forall|k: int| 0 <= k < j ==> (#[trigger] s[k]).active {
        assert(is_first_free(s, j));
        lemma_first_free_unique(s, j);
    } else {
        let k = choose|k: int| 0 <= k < j && !(#[trigger] s[k]).active;
        lemma_first_free_exists(s, k);
    }
}

/// Index `i` is the lowest-index occupied slot of `s` holding `key`.
pub open spec fn is_first_match(s: Seq<EscrowV>, key: Seq<u8>, i: int) -> bool {
    &&& 0 <= i < s.len()
    &&& s[i].active
    &&& s[i].holding_account == key
    &&& forall|j: int| 0 <= j < i ==> !((#[trigger] s[j]).active && s[j].holding_account == key)
}

/// The lowest-index occupied slot of `s` holding `key`, if one exists.
pub open spec fn find_match(s: Seq<EscrowV>, key: Seq<u8>) -> Option<int> {
    if exists|i: int| is_first_match(s, key, i) {
        Some(choose|i: int| is_first_match(s, key, i))
    } else {
        None
    }
}

/// At most one index is the first match for `key`.
pub proof fn lemma_find_match_unique(s: Seq<EscrowV>, key: Seq<u8>, i: int)
    requires
        is_first_match(s, key, i),
    ensures
        find_match(s, key) == Some(i),
{
    let k = choose|k: int| is_first_match(s, key, k);
    if k < i {
        assert(!(s[k].active && s[k].holding_account == key));
    }
    if i < k {
        assert(!(s[i].active && s[i].holding_account == key));
    }
}

/// The decoded registry: an ordered, fixed-length sequence of slots.
#[derive(Debug)]
pub struct EscrowCollection {
    /// The slots, in persisted order.
    pub items: Vec<Escrow>,
}

impl View for EscrowCollection {
    type V = Seq<EscrowV>;

    open spec fn view(&self) -> Seq<EscrowV> {
        self.items@.map_values(|e: Escrow| e@)
    }
}

impl EscrowCollection {
    /// A well-formed registry value.
    pub open spec fn wf(&self) -> bool {
        coll_wf(self@)
    }

    /// A fresh registry of `width` free slots.
    pub fn new(width: usize) -> (r: Self)
        ensures
            r@.len() == width,
            forall|i: int| 0 <= i < width ==> r@[i] == released_slot(),
            r.wf(),
    {
        let mut items: Vec<Escrow> = Vec::new();
        let mut i: usize = 0;
        while i < width
            invariant
                i <= width,
                items@.len() == i,
                forall|j: int| 0 <= j < i ==> (#[trigger] items@[j])@ == released_slot(),
            decreases width - i,
        {
            items.push(Escrow::new_free());
            i = i + 1;
        }
        EscrowCollection { items }
    }

    /// Replaces slot `i`.
    pub fn set_slot(&mut self, i: usize, e: Escrow)
        requires
            i < old(self)@.len(),
        ensures
            final(self)@ == old(self)@.update(i as int, e@),
    {
        self.items.set(i, e);
        proof {
            assert(final(self)@ =~= old(self)@.update(i as int, e@));
        }
    }

    /// Zeroes slot `i` and marks it free; idempotent.
    pub fn release(&mut self, i: usize)
        requires
            i < old(self)@.len(),
        ensures
            final(self)@ == old(self)@.update(i as int, released_slot()),
    {
        self.set_slot(i, Escrow::new_free());
    }

    /// First-fit scan for a free slot, in slot-index order.
    pub fn find_next_available(&self) -> (r: Option<usize>)
        ensures
            match r {
                Some(i) => is_first_free(self@, i as int) && first_free(self@) == Some(i as int),
                None => (forall|j: int| 0 <= j < self@.len() ==> (#[trigger] self@[j]).active)
                    && first_free(self@) == None::<int>,
            },
    {
        let mut i: usize = 0;
        while i < self.items.len()
            invariant
                i <= self@.len(),
                self@.len() == self.items@.len(),
                forall|j: int| 0 <= j < i ==> (#[trigger] self@[j]).active,
            decreases self@.len() - i,
        {
            if !self.items[i].active {
                proof {
                    lemma_first_free_unique(self@, i as int);
                }
                return Some(i);
            }
            i = i + 1;
        }
        None
    }

    /// Linear scan for the occupied slot holding `token_account`.
    pub fn find_by_token_account(&self, token_account: &Pubkey) -> (r: Option<usize>)
        ensures
            match r {
                Some(i) => is_first_match(self@, token_account@, i as int)
                    && find_match(self@, token_account@) == Some(i as int),
                None => (forall|j: int| 0 <= j < self@.len()
                    ==> !((#[trigger] self@[j]).active && self@[j].holding_account
                        == token_account@))
                    && find_match(self@, token_account@) == None::<int>,
            },
    {
        let mut i: usize = 0;
        while i < self.items.len()
            invariant
                i <= self@.len(),
                self@.len() == self.items@.len(),
                forall|j: int| 0 <= j < i
                    ==> !((#[trigger] self@[j]).active && self@[j].holding_account
                        == token_account@),
            decreases self@.len() - i,
        {
            if self.items[i].active && self.items[i].holding_account.key_eq(token_account) {
                proof {
                    lemma_find_match_unique(self@, token_account@, i as int);
                }
                return Some(i);
            }
            i = i + 1;
        }
        None
    }

    /// Encodes the whole registry into `dst`, replacing its contents.
    pub fn pack_into_slice(&self, dst: &mut Vec<u8>)
        requires
            self.wf(),
        ensures
            final(dst)@ == spec_encode_collection(self@),
    {
        dst.clear();
        let mut i: usize = 0;
        while i < self.items.len()
            invariant
                i <= self@.len(),
                self@.len() == self.items@.len(),
                coll_wf(self@),
                dst@ == spec_encode_collection(self@.take(i as int)),
            decreases self@.len() - i,
        {
            proof {
                assert(self@[i as int] == self.items@[i as int]@);
            }
            let sb = self.items[i].pack();
            append_bytes(dst, &sb);
            proof {
                assert(self@.take(i + 1).drop_last() =~= self@.take(i as int));
                assert(self@.take(i + 1).last() == self@[i as int]);
            }
            i = i + 1;
        }
        proof {
            assert(self@.take(self@.len() as int) =~= self@);
        }
    }

    /// Decodes a registry of `width` slots from a buffer that must be
    /// exactly `width` slot regions long, each with a canonical boolean flag
    /// byte, so that re-encoding the result reproduces the buffer exactly.
    pub fn unpack_from_slice(src: &Vec<u8>, width: usize) -> (r: Result<EscrowCollection,
        EscrowError>)
        ensures
            match r {
                Ok(c) => {
                    &&& registry_bytes_ok(src@, width as nat)
                    &&& c@ == spec_decode_collection(src@, width as nat)
                    &&& c@.len() == width
                    &&& c.wf()
                },
                Err(e) => !registry_bytes_ok(src@, width as nat) && e@
                    == crate::error::EscrowErrorV::MalformedState,
            },
    {
        let n = src.len();
        if n % DATA_LEN != 0 || n / DATA_LEN != width {
            proof {
                assert(n == 101 * (n / 101) + n % 101) by (nonlinear_arith);
            }
            return Err(EscrowError::MalformedState);
        }
        proof {
            assert(n == 101 * (n / 101) + n % 101) by (nonlinear_arith);
        }
        let mut k: usize = 0;
        while k < width
            invariant
                k <= width,
                src@.len() == 101 * width,
                src@.len() <= usize::MAX,
                forall|j: int| 0 <= j < k ==> #[trigger] src@[101 * j] == 0 || src@[101 * j]
                    == 1,
            decreases width - k,
        {
            proof {
                assert(101 * k + 101 <= 101 * width) by (nonlinear_arith)
                    requires k < width;
            }
            if src[k * DATA_LEN] > 1 {
                return Err(EscrowError::MalformedState);
            }
            k = k + 1;
        }
        let mut items: Vec<Escrow> = Vec::new();
        let mut i: usize = 0;
        while i < width
            invariant
                i <= width,
                src@.len() == 101 * width,
                src@.len() <= usize::MAX,
                items@.len() == i,
                forall|j: int| 0 <= j < i ==> (#[trigger] items@[j])@
                    == spec_decode_slot(src@.subrange(101 * j, 101 * j + 101)),
            decreases width - i,
        {
            proof {
                assert(101 * i + 101 <= 101 * width) by (nonlinear_arith)
                    requires i < width;
            }
            let e = unpack_at(src, i * DATA_LEN);
            items.push(e);
            i = i + 1;
        }
        let c = EscrowCollection { items };
        proof {
            assert(c@ =~= spec_decode_collection(src@, width as nat));
        }
        Ok(c)
    }
}

} // verus!
