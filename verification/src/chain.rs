//! Chains of blocks and their validation.

use crate::block::genesis;
use crate::block::lemma_mined_is_valid_next;
use crate::block::Block;
use crate::block::BlockView;
use crate::block::LinkFault;
use vstd::prelude::*;

verus! {

/// What validating a chain finds.
#[derive(Clone, Copy, Debug, PartialEq, Eq, Structural)]
pub enum ChainStatus {
    /// The chain is valid.
    Valid,
    /// The chain is not empty and does not start with the genesis block.
    NotGenesis,
    /// The chain starts with the genesis block, the block at `position + 1`
    /// may not follow the block at `position`, for `reason`, and this is the
    /// first pair of which that is so.
    InvalidAt { position: usize, reason: LinkFault },
}

/// The views of the blocks of a chain, in order.
pub open spec fn block_views(chain: Seq<Block>) -> Seq<BlockView> {
    chain.map_values(|b: Block| b@)
}

/// Whether every block but the first may follow the one before it.
pub open spec fn linked(chain: Seq<BlockView>) -> bool {
    forall|i: int, j: int|
        #![trigger chain[i], chain[j]]
        0 <= i && j == i + 1 && j < chain.len() ==> chain[i].is_valid_next(chain[j])
}

/// Whether a chain is valid: it is empty, or it starts with the genesis
/// block, equal to it in every field, and every other block may follow the
/// one before it.
pub open spec fn valid_chain(chain: Seq<BlockView>) -> bool {
    chain.len() == 0 || (chain[0] == genesis() && linked(chain))
}

/// Whether `status` is what validating `chain` finds. Each chain has one
/// such status.
pub open spec fn is_status_of(status: ChainStatus, chain: Seq<BlockView>) -> bool {
    match status {
        ChainStatus::Valid => valid_chain(chain),
        ChainStatus::NotGenesis => chain.len() > 0 && chain[0] != genesis(),
        ChainStatus::InvalidAt { position, reason } => {
            &&& position + 1 < chain.len()
            &&& chain[0] == genesis()
            &&& linked(chain.take(position + 1))
            &&& chain[position as int].link_fault(chain[position + 1]) == Some(reason)
        },
    }
}

/// Validates `chain` and says what is wrong with it, if anything: whether it
/// starts with the genesis block and, if so, which is the first block that
/// may not follow the one before it, and why.
pub fn check_chain(chain: &[Block]) -> (status: ChainStatus)
    ensures
        is_status_of(status, block_views(chain@)),
{
    let n: usize = chain.len();
    if n == 0 {
        return ChainStatus::Valid;
    }
    let first = Block::default();
    if !chain[0].eq(&first) {
        return ChainStatus::NotGenesis;
    }
    let ghost views = block_views(chain@);
    let mut i: usize = 1;
    while i < n
        invariant
            1 <= i <= n,
            n == chain@.len(),
            views == block_views(chain@),
            views[0] == genesis(),
            forall|k: int, j: int|
                #![trigger views[k], views[j]]
                0 <= k && j == k + 1 && j < i ==> views[k].is_valid_next(views[j]),
        decreases n - i,
    {
        match chain[i - 1].check_next_block(&chain[i]) {
            Some(reason) => {
                assert(linked(views.take(i as int)));
                return ChainStatus::InvalidAt { position: i - 1, reason };
            },
            None => {},
        }
        i += 1;
    }
    ChainStatus::Valid
}

/// Whether `chain` is valid.
pub fn is_valid_chain(chain: &[Block]) -> (r: bool)
    ensures
        r == valid_chain(block_views(chain@)),
{
    let status = check_chain(chain);
    proof {
        lemma_status_tells_validity(status, block_views(chain@));
    }
    match status {
        ChainStatus::Valid => true,
        _ => false,
    }
}

/// A chain is valid exactly when its status is `Valid`.
pub proof fn lemma_status_tells_validity(status: ChainStatus, chain: Seq<BlockView>)
    requires
        is_status_of(status, chain),
    ensures
        valid_chain(chain) == (status == ChainStatus::Valid),
{
}

/// A chain has no two statuses: the position that an `InvalidAt` names is
/// that of the first pair with a fault, and the reason is the first thing
/// wrong with that pair.
pub proof fn lemma_status_unique(a: ChainStatus, b: ChainStatus, chain: Seq<BlockView>)
    requires
        is_status_of(a, chain),
        is_status_of(b, chain),
    ensures
        a == b,
{
    lemma_status_tells_validity(a, chain);
    lemma_status_tells_validity(b, chain);
    match (a, b) {
        (
            ChainStatus::InvalidAt { position: p, reason: _ },
            ChainStatus::InvalidAt { position: q, reason: _ },
        ) => {
            if p < q {
                let before = chain.take(q + 1);
                assert(before[p as int].is_valid_next(before[p + 1]));
            } else if q < p {
                let before = chain.take(p + 1);
                assert(before[q as int].is_valid_next(before[q + 1]));
            }
        },
        _ => {},
    }
}

/// The empty chain is valid.
pub proof fn lemma_empty_chain_valid()
    ensures
        valid_chain(Seq::<BlockView>::empty()),
{
}

/// A chain of one block is valid exactly when that block is the genesis
/// block; so the chain that holds the genesis block alone is valid.
pub proof fn lemma_single_block_chain(b: BlockView)
    ensures
        valid_chain(seq![b]) == (b == genesis()),
        valid_chain(seq![genesis()]),
{
}

/// Mining on the last block of a valid chain and appending the new block
/// gives a valid chain again.
pub proof fn lemma_mining_extends_valid_chain(
    chain: Seq<BlockView>,
    timestamp: nat,
    data: Seq<u8>,
)
    requires
        chain.len() > 0,
        valid_chain(chain),
    ensures
        valid_chain(chain.push(chain.last().mined(timestamp, data))),
{
    let longer = chain.push(chain.last().mined(timestamp, data));
    lemma_mined_is_valid_next(chain.last(), timestamp, data);
    assert(linked(longer));
}

/// In a valid chain every block stands at the position that its index
/// names: the indices are 0, 1, 2 and so on.
pub proof fn lemma_valid_chain_indices(chain: Seq<BlockView>, i: int)
    requires
        valid_chain(chain),
        0 <= i < chain.len(),
    ensures
        chain[i].index == i,
    decreases i,
{
    if i > 0 {
        lemma_valid_chain_indices(chain, i - 1);
    }
}

/// In a valid chain every block is consistent with itself, and every block
/// but the first names the digest of the fields of the block before it.
pub proof fn lemma_valid_chain_sealed(chain: Seq<BlockView>, i: int)
    requires
        valid_chain(chain),
        0 <= i < chain.len(),
    ensures
        chain[i].is_sealed(),
        i > 0 ==> chain[i].previous_hash == chain[i - 1].digest(),
{
    if i > 0 {
        assert(chain[i - 1].is_valid_next(chain[i]));
    }
    if i > 1 {
        assert(chain[i - 2].is_valid_next(chain[i - 1]));
    }
}

/// No two blocks of a valid chain have the same index.
pub proof fn lemma_valid_chain_indices_distinct(chain: Seq<BlockView>, i: int, j: int)
    requires
        valid_chain(chain),
        0 <= i < j < chain.len(),
    ensures
        chain[i].index != chain[j].index,
{
    lemma_valid_chain_indices(chain, i);
    lemma_valid_chain_indices(chain, j);
}

/// A chain in which some block's index is not one more than the index of
/// the block before it, be it the same index again or a later one, is not
/// valid.
pub proof fn lemma_index_gap_invalid(chain: Seq<BlockView>, i: int)
    requires
        0 <= i,
        i + 1 < chain.len(),
        chain[i + 1].index != chain[i].index + 1,
    ensures
        !valid_chain(chain),
{
}

} // verus!
