//! Blocks: records that carry the digest of their predecessor and their own.

use crate::encoding::build_digest_input;
use crate::encoding::digest_input;
use crate::encoding::lemma_data_changes_input;
use crate::encoding::lemma_index_changes_input;
use crate::encoding::lemma_previous_hash_changes_input;
use crate::encoding::lemma_secs_changes_input;
use crate::error::BlockError;
use crate::sha::collide;
use crate::sha::sha256;
use crate::sha::sha256_digest;
use crate::sha::DIGEST_LEN;
use crate::time::Timestamp;
use crate::time::NANOS_PER_SEC;
use vstd::prelude::*;
use vstd::std_specs::cmp::PartialEqSpecImpl;

verus! {

/// One record of the ledger.
///
/// A block is made as the genesis block, by mining on a predecessor, or from
/// its five parts as they are. Only the first two make sure that the stored
/// digest is the digest of the other four fields.
#[derive(Debug, Eq, PartialOrd, Ord)]
pub struct Block {
    index: u64,
    previous_hash: Vec<u8>,
    timestamp: Timestamp,
    data: Vec<u8>,
    hash: Vec<u8>,
}

/// What a block holds, as mathematical values.
#[verifier::ext_equal]
pub struct BlockView {
    /// The position in the chain.
    pub index: nat,
    /// The digest that the predecessor stores; empty in the genesis block.
    pub previous_hash: Seq<u8>,
    /// The time of creation, in nanoseconds since the epoch.
    pub timestamp: nat,
    /// The payload.
    pub data: Seq<u8>,
    /// The digest that the block stores for itself.
    pub hash: Seq<u8>,
}

/// Why one block may not follow another.
#[derive(Clone, Copy, Debug, PartialEq, Eq, Structural)]
pub enum LinkFault {
    /// The index is not one more than the index of the block before.
    BadIndex,
    /// The block does not name the digest that the block before stores.
    BadLink,
    /// The digest that the block stores is not the digest of its other
    /// fields.
    BadSelfDigest,
}

impl BlockView {
    /// The whole seconds of the timestamp.
    pub open spec fn secs(self) -> nat {
        self.timestamp / (NANOS_PER_SEC as nat)
    }

    /// The bytes that the digest is taken over. Of the timestamp only the
    /// whole seconds go into them.
    pub open spec fn digest_input(self) -> Seq<u8> {
        digest_input(self.index, self.previous_hash, self.secs(), self.data)
    }

    /// The digest of the four fields other than `hash`.
    pub open spec fn digest(self) -> Seq<u8> {
        sha256(self.digest_input())
    }

    /// Whether the block is consistent with itself: the digest that it
    /// stores is the digest of its other fields.
    pub open spec fn is_sealed(self) -> bool {
        self.hash == self.digest()
    }

    /// The block with its stored digest replaced by the digest of its other
    /// fields.
    pub open spec fn sealed(self) -> BlockView {
        BlockView { hash: self.digest(), ..self }
    }

    /// The block with its payload replaced by `data` and nothing else
    /// changed, the stored digest neither.
    pub open spec fn with_data(self, data: Seq<u8>) -> BlockView {
        BlockView { data, ..self }
    }

    /// Whether this block and `other` differ in exactly one of the four
    /// values that the digest covers: the index, the predecessor's digest,
    /// the second of the timestamp, the payload.
    pub open spec fn one_field_differs(self, other: BlockView) -> bool {
        let index = self.index == other.index;
        let previous_hash = self.previous_hash == other.previous_hash;
        let secs = self.secs() == other.secs();
        let data = self.data == other.data;
        ||| !index && previous_hash && secs && data
        ||| index && !previous_hash && secs && data
        ||| index && previous_hash && !secs && data
        ||| index && previous_hash && secs && !data
    }

    /// Whether `next` may follow this block: its index is the next one, it
    /// names this block's stored digest as its predecessor's, and it is
    /// consistent with itself. Whether this block is consistent with itself
    /// plays no part.
    pub open spec fn is_valid_next(self, next: BlockView) -> bool {
        &&& next.index == self.index + 1
        &&& next.previous_hash == self.hash
        &&& next.is_sealed()
    }

    /// The first of the three conditions of `is_valid_next`, in the order
    /// index, link, own digest, that `next` does not meet, if there is one.
    pub open spec fn link_fault(self, next: BlockView) -> Option<LinkFault> {
        if next.index != self.index + 1 {
            Some(LinkFault::BadIndex)
        } else if next.previous_hash != self.hash {
            Some(LinkFault::BadLink)
        } else if !next.is_sealed() {
            Some(LinkFault::BadSelfDigest)
        } else {
            None
        }
    }

    /// The block that mining on this one at time `timestamp` with payload
    /// `data` gives.
    pub open spec fn mined(self, timestamp: nat, data: Seq<u8>) -> BlockView {
        BlockView {
            index: self.index + 1,
            previous_hash: self.hash,
            timestamp,
            data,
            hash: Seq::empty(),
        }.sealed()
    }
}

/// The payload of the genesis block: the ASCII text `initial data`.
pub open spec fn genesis_data() -> Seq<u8> {
    seq![105u8, 110u8, 105u8, 116u8, 105u8, 97u8, 108u8, 32u8, 100u8, 97u8, 116u8, 97u8]
}

/// The genesis block: index 0, no predecessor, made at the epoch, with the
/// fixed payload and the digest of these.
pub open spec fn genesis() -> BlockView {
    BlockView {
        index: 0,
        previous_hash: Seq::empty(),
        timestamp: 0,
        data: genesis_data(),
        hash: Seq::empty(),
    }.sealed()
}

impl View for Block {
    type V = BlockView;

    closed spec fn view(&self) -> BlockView {
        BlockView {
            index: self.index as nat,
            previous_hash: self.previous_hash@,
            timestamp: self.timestamp@,
            data: self.data@,
            hash: self.hash@,
        }
    }
}

/// Whether two byte strings are the same.
fn same_bytes(a: &Vec<u8>, b: &Vec<u8>) -> (r: bool)
    ensures
        r == (a@ == b@),
{
    let r = a == b;
    proof {
        if r {
            assert(a@ =~= b@);
        }
    }
    r
}

impl PartialEq for Block {
    fn eq(&self, other: &Block) -> (r: bool) {
        self.index == other.index && same_bytes(&self.previous_hash, &other.previous_hash)
            && self.timestamp.as_nanos() == other.timestamp.as_nanos() && same_bytes(
            &self.data,
            &other.data,
        ) && same_bytes(&self.hash, &other.hash)
    }
}

impl PartialEqSpecImpl for Block {
    open spec fn obeys_eq_spec() -> bool {
        true
    }

    /// Blocks are equal when all five fields are.
    open spec fn eq_spec(&self, other: &Block) -> bool {
        self@ == other@
    }
}

impl Default for Block {
    /// The genesis block.
    fn default() -> (b: Block)
        ensures
            b@ == genesis(),
            b@.is_sealed(),
            b@.hash.len() == DIGEST_LEN,
    {
        let mut b = Block {
            index: 0,
            previous_hash: Vec::new(),
            timestamp: Timestamp::epoch(),
            data: vec![105u8, 110u8, 105u8, 116u8, 105u8, 97u8, 108u8, 32u8, 100u8, 97u8, 116u8, 97u8],
            hash: Vec::new(),
        };
        b.add_hash();
        b
    }
}

impl Block {
    /// Computes the digest of the four fields other than the stored digest.
    pub fn hash(&self) -> (digest: Vec<u8>)
        ensures
            digest@ == self@.digest(),
            digest@.len() == DIGEST_LEN,
    {
        let input = build_digest_input(
            self.index,
            self.previous_hash.as_slice(),
            self.timestamp.as_secs(),
            self.data.as_slice(),
        );
        sha256_digest(input.as_slice())
    }

    /// Stores the digest of the other four fields as the block's own, which
    /// makes the block consistent with itself.
    pub fn add_hash(&mut self)
        ensures
            final(self)@ == old(self)@.sealed(),
            final(self)@.is_sealed(),
            final(self)@.hash.len() == DIGEST_LEN,
    {
        self.hash = self.hash();
    }

    /// Whether the block is consistent with itself: whether the digest that
    /// it stores is the digest of its other fields, computed afresh.
    pub fn is_sealed(&self) -> (r: bool)
        ensures
            r == self@.is_sealed(),
    {
        same_bytes(&self.hash, &self.hash())
    }

    /// Why `next` may not follow this block in a chain, or `None` when it
    /// may. Of several reasons the first is given, in the order index, link,
    /// own digest.
    pub fn check_next_block(&self, next: &Block) -> (fault: Option<LinkFault>)
        ensures
            fault == self@.link_fault(next@),
    {
        if self.index == u64::MAX || self.index + 1 != next.index {
            Some(LinkFault::BadIndex)
        } else if !same_bytes(&self.hash, &next.previous_hash) {
            Some(LinkFault::BadLink)
        } else if !next.is_sealed() {
            Some(LinkFault::BadSelfDigest)
        } else {
            None
        }
    }

    /// Whether `next` may follow this block in a chain.
    pub fn is_valid_next_block(&self, next: &Block) -> (r: bool)
        ensures
            r == self@.is_valid_next(next@),
    {
        self.check_next_block(next).is_none()
    }

    /// The block that follows this one when it is made at `timestamp` with
    /// the payload `data`: it has the next index, a copy of this block's
    /// stored digest as its predecessor's, and the digest of these as its
    /// own.
    pub fn mine_at(&self, timestamp: Timestamp, data: Box<[u8]>) -> (next: Block)
        requires
            self@.index < u64::MAX,
        ensures
            next@ == self@.mined(timestamp@, data@),
            next@.hash.len() == DIGEST_LEN,
            self@.is_valid_next(next@),
    {
        let mut next = Block {
            index: self.index + 1,
            previous_hash: self.hash.clone(),
            timestamp,
            data: data.into_vec(),
            hash: Vec::new(),
        };
        next.add_hash();
        next
    }

    /// Mines on this block now: reads the system clock and makes the block
    /// that follows this one at that time with the payload `data`.
    ///
    /// Fails with `InvalidTimestamp` when the clock stands before the epoch,
    /// and then no block is made.
    pub fn mine(&self, data: Box<[u8]>) -> (r: Result<Block, BlockError>)
        requires
            self@.index < u64::MAX,
        ensures
            match r {
                Ok(next) => {
                    &&& next@ == self@.mined(next@.timestamp, data@)
                    &&& next@.hash.len() == DIGEST_LEN
                    &&& self@.is_valid_next(next@)
                },
                Err(e) => e == BlockError::InvalidTimestamp,
            },
    {
        match Timestamp::now() {
            Ok(timestamp) => Ok(self.mine_at(timestamp, data)),
            Err(e) => Err(e),
        }
    }

    /// The block with these five fields, stored as they are given: `hash` is
    /// not compared with the digest of the others.
    pub fn from_parts(
        index: u64,
        previous_hash: Vec<u8>,
        timestamp: Timestamp,
        data: Vec<u8>,
        hash: Vec<u8>,
    ) -> (b: Block)
        ensures
            b@ == (BlockView {
                index: index as nat,
                previous_hash: previous_hash@,
                timestamp: timestamp@,
                data: data@,
                hash: hash@,
            }),
    {
        Block { index, previous_hash, timestamp, data, hash }
    }

    /// The position in the chain.
    pub fn index(&self) -> (index: u64)
        ensures
            index == self@.index,
    {
        self.index
    }

    /// The digest of the predecessor, as this block records it.
    pub fn previous_hash(&self) -> (bytes: &[u8])
        ensures
            bytes@ == self@.previous_hash,
    {
        self.previous_hash.as_slice()
    }

    /// The time of creation.
    pub fn timestamp(&self) -> (timestamp: Timestamp)
        ensures
            timestamp@ == self@.timestamp,
    {
        self.timestamp
    }

    /// The payload.
    pub fn data(&self) -> (bytes: &[u8])
        ensures
            bytes@ == self@.data,
    {
        self.data.as_slice()
    }

    /// The digest that the block stores for itself.
    pub fn stored_hash(&self) -> (bytes: &[u8])
        ensures
            bytes@ == self@.hash,
    {
        self.hash.as_slice()
    }
}

/// The digest is determined by the index, the predecessor's digest, the
/// second of the timestamp and the payload: blocks that agree on these have
/// the same digest, however often it is computed.
pub proof fn lemma_digest_determined(a: BlockView, b: BlockView)
    requires
        a.index == b.index,
        a.previous_hash == b.previous_hash,
        a.secs() == b.secs(),
        a.data == b.data,
    ensures
        a.digest() == b.digest(),
{
}

/// Changing one of the four values that the digest covers changes the bytes
/// that are hashed, so the digest stays the same only if SHA-256 gives two
/// different inputs one digest.
///
/// Changing two of the values at once may leave the bytes as they were,
/// because nothing separates the values: index 1 with second 23 and index 12
/// with second 3 give the same bytes when no predecessor's digest stands
/// between them.
pub proof fn lemma_one_change_changes_digest_input(a: BlockView, b: BlockView)
    requires
        a.one_field_differs(b),
    ensures
        a.digest_input() != b.digest_input(),
        (a.digest() == b.digest()) == collide(a.digest_input(), b.digest_input()),
{
    if a.index != b.index {
        lemma_index_changes_input(a.index, b.index, a.previous_hash, a.secs(), a.data);
    } else if a.previous_hash != b.previous_hash {
        lemma_previous_hash_changes_input(
            a.index,
            a.previous_hash,
            b.previous_hash,
            a.secs(),
            a.data,
        );
    } else if a.secs() != b.secs() {
        lemma_secs_changes_input(a.index, a.previous_hash, a.secs(), b.secs(), a.data);
    } else {
        lemma_data_changes_input(a.index, a.previous_hash, a.secs(), a.data, b.data);
    }
}

/// A block may follow another exactly when nothing is wrong with the link
/// between them.
pub proof fn lemma_valid_next_has_no_fault(b: BlockView, next: BlockView)
    ensures
        b.is_valid_next(next) == (b.link_fault(next) is None),
{
}

/// A block mined on `b` may follow `b`, whenever it is mined and whatever
/// its payload.
pub proof fn lemma_mined_is_valid_next(b: BlockView, timestamp: nat, data: Seq<u8>)
    ensures
        b.is_valid_next(b.mined(timestamp, data)),
{
}

/// Tampering with the payload of a block that may follow `prev`, without
/// storing a new digest, is detected unless the tampered block hashes to the
/// digest that is stored: the tampered block may follow `prev` only where
/// SHA-256 gives the two different inputs one digest. Where it may not, what
/// is wrong with it is its own digest.
pub proof fn lemma_tampered_payload(prev: BlockView, next: BlockView, data: Seq<u8>)
    requires
        prev.is_valid_next(next),
        data != next.data,
    ensures
        next.with_data(data).digest_input() != next.digest_input(),
        prev.is_valid_next(next.with_data(data)) == collide(
            next.with_data(data).digest_input(),
            next.digest_input(),
        ),
        !prev.is_valid_next(next.with_data(data)) ==> prev.link_fault(next.with_data(data))
            == Some(LinkFault::BadSelfDigest),
{
    lemma_one_change_changes_digest_input(next.with_data(data), next);
}

} // verus!
