//! The walk from a block back over its ancestors, one block per step.
use super::responses::{Block, BlockView};
use vstd::prelude::*;

verus! {

/// Where a walk over the last blocks stands.
#[derive(Debug, Clone, PartialEq, Eq)]
pub enum BlockWalk {
    /// The walk starts at the newest block, whose hash is not known yet.
    /// `left` blocks are to come, at least one.
    Starting { left: u64 },
    /// `left` blocks are to come, at least one; the next has the hash `next`.
    Walking { left: u64, next: String },
    /// All blocks have come; no block is to come.
    Finished,
    /// A request failed: the walk was cut short, and no block is to come.
    Failed,
}

/// What a [`BlockWalk`] holds.
pub enum BlockWalkView {
    Starting { left: u64 },
    Walking { left: u64, next: Seq<char> },
    Finished,
    Failed,
}

/// What a walk asks of the node next.
#[derive(Debug, Clone, PartialEq, Eq)]
pub enum WalkRequest {
    /// The hash of the newest block.
    BestBlockHash,
    /// The block with this hash.
    Block(String),
    /// Nothing: the walk is over.
    Nothing,
}

/// What a [`WalkRequest`] holds.
pub enum WalkRequestView {
    BestBlockHash,
    Block(Seq<char>),
    Nothing,
}

impl View for WalkRequest {
    type V = WalkRequestView;

    open spec fn view(&self) -> WalkRequestView {
        match self {
            WalkRequest::BestBlockHash => WalkRequestView::BestBlockHash,
            WalkRequest::Block(hash) => WalkRequestView::Block(hash@),
            WalkRequest::Nothing => WalkRequestView::Nothing,
        }
    }
}

impl View for BlockWalk {
    type V = BlockWalkView;

    open spec fn view(&self) -> BlockWalkView {
        match self {
            BlockWalk::Starting { left } => BlockWalkView::Starting { left: *left },
            BlockWalk::Walking { left, next } => BlockWalkView::Walking { left: *left, next: next@ },
            BlockWalk::Finished => BlockWalkView::Finished,
            BlockWalk::Failed => BlockWalkView::Failed,
        }
    }
}

impl BlockWalkView {
    /// The walk over `blocks_count` blocks that starts at the given block,
    /// or at the newest block where none is given. A walk over no block is
    /// over at once.
    pub open spec fn start(start_block_hash: Option<Seq<char>>, blocks_count: u64) -> BlockWalkView {
        if blocks_count == 0 {
            BlockWalkView::Finished
        } else {
            match start_block_hash {
                Some(hash) => BlockWalkView::Walking { left: blocks_count, next: hash },
                None => BlockWalkView::Starting { left: blocks_count },
            }
        }
    }

    /// What the walk asks next.
    pub open spec fn request(self) -> WalkRequestView {
        match self {
            BlockWalkView::Starting { .. } => WalkRequestView::BestBlockHash,
            BlockWalkView::Walking { next, .. } => WalkRequestView::Block(next),
            BlockWalkView::Finished => WalkRequestView::Nothing,
            BlockWalkView::Failed => WalkRequestView::Nothing,
        }
    }

    /// The walk after the node has named its newest block. A walk that did
    /// not ask stays as it is.
    pub open spec fn best_block_hash(self, hash: Seq<char>) -> BlockWalkView {
        match self {
            BlockWalkView::Starting { left } => BlockWalkView::Walking { left, next: hash },
            _ => self,
        }
    }

    /// The walk after the node has answered with a block: one block fewer
    /// is to come, and the next one is the block before the answer. A walk
    /// that did not ask for a block stays as it is.
    pub open spec fn block(self, block: BlockView) -> BlockWalkView {
        match self {
            BlockWalkView::Walking { left, next } => if left <= 1 {
                BlockWalkView::Finished
            } else {
                BlockWalkView::Walking {
                    left: (left - 1) as u64,
                    next: block.previousblockhash,
                }
            },
            _ => self,
        }
    }

    /// The walk after a request has failed: it is cut short. A walk that
    /// had all its blocks stays complete.
    pub open spec fn failed(self) -> BlockWalkView {
        match self {
            BlockWalkView::Finished => BlockWalkView::Finished,
            _ => BlockWalkView::Failed,
        }
    }

    /// The walk after one answer of the node: a block, or a failure.
    pub open spec fn answer(self, answer: Option<BlockView>) -> BlockWalkView {
        match answer {
            Some(block) => self.block(block),
            None => self.failed(),
        }
    }

    /// The walk after some answers of the node, one after the other.
    pub open spec fn answers(self, answers: Seq<Option<BlockView>>) -> BlockWalkView
        decreases answers.len(),
    {
        if answers.len() == 0 {
            self
        } else {
            self.answers(answers.drop_last()).answer(answers.last())
        }
    }

    /// The blocks that the walk yields over some answers of the node: each
    /// block that answers a request for a block, in the order of the
    /// answers.
    pub open spec fn yields(self, answers: Seq<Option<BlockView>>) -> Seq<BlockView>
        decreases answers.len(),
    {
        if answers.len() == 0 {
            Seq::empty()
        } else {
            let before = self.yields(answers.drop_last());
            match answers.last() {
                Some(block) => if self.answers(answers.drop_last()) is Walking {
                    before.push(block)
                } else {
                    before
                },
                None => before,
            }
        }
    }

    /// The walk after the node has answered with these blocks, one after
    /// the other.
    pub open spec fn blocks(self, blocks: Seq<BlockView>) -> BlockWalkView
        decreases blocks.len(),
    {
        if blocks.len() == 0 {
            self
        } else {
            self.blocks(blocks.drop_last()).block(blocks.last())
        }
    }

    /// Whether the walk keeps what its states promise: a walk that is not
    /// over has at least one block to come.
    pub open spec fn wf(self) -> bool {
        match self {
            BlockWalkView::Starting { left } => left > 0,
            BlockWalkView::Walking { left, .. } => left > 0,
            BlockWalkView::Finished => true,
            BlockWalkView::Failed => true,
        }
    }
}

/// The hash that a walk from `start` asks for after the answers `blocks`:
/// `start` at first, then the block before the last answer.
pub open spec fn requested_hash(start: Seq<char>, blocks: Seq<BlockView>) -> Seq<char> {
    if blocks.len() == 0 {
        start
    } else {
        blocks.last().previousblockhash
    }
}

/// Whether each block is the one that the walk from `start` asked for: the
/// first has the hash `start`, and every later one is the block before its
/// predecessor in the sequence.
pub open spec fn answers_walk(start: Seq<char>, blocks: Seq<BlockView>) -> bool {
    forall|i: int|
        0 <= i < blocks.len() ==> (#[trigger] blocks[i]).hash == requested_hash(
            start,
            blocks.take(i),
        )
}

impl BlockWalk {
    /// Begins the walk over the last `blocks_count` blocks, from the block
    /// `start_block_hash` or, without one, from the newest block.
    ///
    /// A walk over no block is over before it asks the node anything.
    pub fn start(start_block_hash: Option<String>, blocks_count: u64) -> (r: Self)
        ensures
            r@ == BlockWalkView::start(
                match start_block_hash {
                    Some(h) => Some(h@),
                    None => None,
                },
                blocks_count,
            ),
            r@.wf(),
            blocks_count == 0 ==> r@.request() == WalkRequestView::Nothing,
    {
        if blocks_count == 0 {
            BlockWalk::Finished
        } else {
            match start_block_hash {
                Some(hash) => BlockWalk::Walking { left: blocks_count, next: hash },
                None => BlockWalk::Starting { left: blocks_count },
            }
        }
    }

    /// What to ask the node next.
    pub fn request(&self) -> (r: WalkRequest)
        ensures
            r@ == self@.request(),
    {
        match self {
            BlockWalk::Starting { .. } => WalkRequest::BestBlockHash,
            BlockWalk::Walking { next, .. } => WalkRequest::Block(next.clone()),
            BlockWalk::Finished => WalkRequest::Nothing,
            BlockWalk::Failed => WalkRequest::Nothing,
        }
    }

    /// Takes the hash of the newest block.
    pub fn best_block_hash(self, hash: String) -> (r: Self)
        ensures
            r@ == self@.best_block_hash(hash@),
            self@.wf() ==> r@.wf(),
    {
        match self {
            BlockWalk::Starting { left } => BlockWalk::Walking { left, next: hash },
            other => other,
        }
    }

    /// Takes a block that the node answered with.
    pub fn block(self, block: &Block) -> (r: Self)
        ensures
            r@ == self@.block(block@),
            self@.wf() ==> r@.wf(),
    {
        match self {
            BlockWalk::Walking { left, next } => {
                if left <= 1 {
                    BlockWalk::Finished
                } else {
                    BlockWalk::Walking { left: left - 1, next: block.previousblockhash.clone() }
                }
            },
            other => other,
        }
    }

    /// Takes the failure of a request: the walk is cut short. The blocks
    /// that came before stay yielded; the error follows them, and nothing
    /// follows the error.
    pub fn failed(self) -> (r: Self)
        ensures
            r@ == self@.failed(),
            r@.wf(),
            r@.request() == WalkRequestView::Nothing,
    {
        match self {
            BlockWalk::Finished => BlockWalk::Finished,
            _ => BlockWalk::Failed,
        }
    }

    /// Whether all blocks of the walk have come. A walk that was cut short
    /// never reports this.
    pub fn is_complete(&self) -> (r: bool)
        ensures
            r == (self@ is Finished),
    {
        match self {
            BlockWalk::Finished => true,
            _ => false,
        }
    }

    /// How many blocks are still to come.
    pub fn blocks_left(&self) -> (r: u64)
        ensures
            r == match self@ {
                BlockWalkView::Starting { left } => left,
                BlockWalkView::Walking { left, .. } => left,
                BlockWalkView::Finished => 0,
                BlockWalkView::Failed => 0,
            },
    {
        match self {
            BlockWalk::Starting { left } => *left,
            BlockWalk::Walking { left, .. } => *left,
            BlockWalk::Finished => 0,
            BlockWalk::Failed => 0,
        }
    }
}

/// A walk over `n` blocks from the hash `start` that has taken `k` blocks
/// has `n - k` blocks to come and asks for the block before the last one
/// taken; after `n` blocks it is over. So a walk yields exactly `n` blocks.
pub proof fn law_walk_takes_exactly(start: Seq<char>, n: u64, blocks: Seq<BlockView>)
    requires
        blocks.len() <= n,
    ensures
        BlockWalkView::start(Some(start), n).blocks(blocks) == if blocks.len() == n {
            BlockWalkView::Finished
        } else {
            BlockWalkView::Walking {
                left: (n - blocks.len()) as u64,
                next: requested_hash(start, blocks),
            }
        },
    decreases blocks.len(),
{
    if blocks.len() > 0 {
        law_walk_takes_exactly(start, n, blocks.drop_last());
    }
}

/// Once a walk is over, further blocks change nothing.
pub proof fn law_walk_stays_finished(blocks: Seq<BlockView>)
    ensures
        BlockWalkView::Finished.blocks(blocks) == BlockWalkView::Finished,
    decreases blocks.len(),
{
    if blocks.len() > 0 {
        law_walk_stays_finished(blocks.drop_last());
    }
}

/// Where every block is the one that the walk asked for, the blocks come
/// in reverse chain order: each is the block before its predecessor.
pub proof fn law_walk_follows_chain(start: Seq<char>, blocks: Seq<BlockView>, i: int)
    requires
        answers_walk(start, blocks),
        0 <= i,
        i + 1 < blocks.len(),
    ensures
        blocks[i + 1].hash == blocks[i].previousblockhash,
        blocks[0].hash == start,
{
    assert(blocks[i + 1].hash == requested_hash(start, blocks.take(i + 1)));
    assert(blocks.take(i + 1).last() == blocks[i]);
    assert(blocks[0].hash == requested_hash(start, blocks.take(0)));
}

/// The answers of a node that answers every request with a block.
pub open spec fn all_blocks(blocks: Seq<BlockView>) -> Seq<Option<BlockView>> {
    Seq::new(blocks.len(), |i: int| Some(blocks[i]))
}

/// A walk over `n` blocks yields every block that it is answered with, up
/// to `n` of them.
pub proof fn law_walk_yields_its_blocks(start: Seq<char>, n: u64, blocks: Seq<BlockView>)
    requires
        blocks.len() <= n,
    ensures
        BlockWalkView::start(Some(start), n).answers(all_blocks(blocks)) == BlockWalkView::start(
            Some(start),
            n,
        ).blocks(blocks),
        BlockWalkView::start(Some(start), n).yields(all_blocks(blocks)) == blocks,
    decreases blocks.len(),
{
    let walk = BlockWalkView::start(Some(start), n);
    if blocks.len() > 0 {
        let before = blocks.drop_last();
        law_walk_yields_its_blocks(start, n, before);
        law_walk_takes_exactly(start, n, before);
        assert(all_blocks(blocks).drop_last() =~= all_blocks(before));
        assert(all_blocks(blocks).last() == Some(blocks.last()));
        assert(walk.yields(all_blocks(blocks)) =~= blocks);
    } else {
        assert(walk.yields(all_blocks(blocks)) =~= blocks);
    }
}

/// A walk whose request fails after `k` blocks, with `k` less than the
/// `n` asked for, yields exactly these `k` blocks in their order and is cut
/// short: whatever comes after the failure, it yields no further block and
/// is never complete.
pub proof fn law_walk_cut_short(
    start: Seq<char>,
    n: u64,
    blocks: Seq<BlockView>,
    rest: Seq<Option<BlockView>>,
)
    requires
        blocks.len() < n,
    ensures
        BlockWalkView::start(Some(start), n).answers(all_blocks(blocks).push(None) + rest)
            == BlockWalkView::Failed,
        BlockWalkView::start(Some(start), n).yields(all_blocks(blocks).push(None) + rest)
            == blocks,
    decreases rest.len(),
{
    let walk = BlockWalkView::start(Some(start), n);
    let head = all_blocks(blocks).push(None);
    law_walk_yields_its_blocks(start, n, blocks);
    law_walk_takes_exactly(start, n, blocks);
    if rest.len() == 0 {
        assert(head + rest =~= head);
        assert(head.drop_last() =~= all_blocks(blocks));
    } else {
        law_walk_cut_short(start, n, blocks, rest.drop_last());
        assert((head + rest).drop_last() =~= head + rest.drop_last());
        assert((head + rest).last() == rest.last());
    }
}

} // verus!
