//! The synchronisation of one shard, as a state machine: the caller performs
//! each action (a query to the API or to ClickHouse, after an optional pause)
//! and hands the outcome back as the next event.
use vstd::prelude::*;
use crate::config::SyncConfig;
use crate::models::{ApiBlock, ApiTransaction, BlockRow, BlockRowView, TransactionRow, TransactionRowView};
use crate::normalizer::{block_row_of, kind_of, normalize_block, normalize_transaction, transaction_row_of};
use crate::models::opt_text;
use crate::text::parse_u128_spec;

verus! {

/// Pause, in seconds, before a block listing is asked for again after it failed.
pub const RETRY_DELAY_SECS: u64 = 5;

/// Pause, in seconds, between two batches when following the latest blocks.
pub const POLL_DELAY_SECS: u64 = 6;

/// What the caller reports back after performing an action.
pub enum SyncEvent {
    /// The shard's checkpoint was read (zero where none is stored).
    CheckpointLoaded(u64),
    /// The checkpoint could not be read.
    CheckpointFailed,
    /// The API listed these blocks.
    BlocksFetched(Vec<ApiBlock>),
    /// The block listing failed.
    BlocksFailed,
    /// The block rows were written (`ok`) or writing them failed.
    BlocksStored { ok: bool },
    /// The gateway gave these transactions of the block asked for.
    TransactionsFetched(Vec<ApiTransaction>),
    /// The transactions of the block asked for could not be read.
    TransactionsFailed,
    /// The transaction rows were written (`ok`) or writing them failed.
    TransactionsStored { ok: bool },
    /// The checkpoint was written (`ok`) or writing it failed.
    CheckpointSaved { ok: bool },
}

/// What the caller is to do next.
#[derive(Debug)]
pub enum SyncAction {
    /// Read the shard's checkpoint.
    LoadCheckpoint { shard: u32 },
    /// Wait `delay_secs` seconds, then list blocks from `from_nonce` (the
    /// latest blocks where it is `None`).
    FetchBlocks { from_nonce: Option<u64>, delay_secs: u64 },
    /// Write these rows to the `blocks` table.
    StoreBlocks { rows: Vec<BlockRow> },
    /// Read the transactions of the block with this hash from the shard.
    FetchTransactions { block_hash: String, shard: u32 },
    /// Write these rows to the `transactions` table.
    StoreTransactions { rows: Vec<TransactionRow> },
    /// Record `last_nonce` as the shard's checkpoint.
    SaveCheckpoint { shard: u32, last_nonce: u64 },
    /// The shard is synchronised: no block is left.
    Finish,
    /// The synchronisation stops on an error.
    Abort,
}

/// An event, its lists as sequences.
pub enum SyncEventView {
    CheckpointLoaded(u64),
    CheckpointFailed,
    BlocksFetched(Seq<ApiBlock>),
    BlocksFailed,
    BlocksStored { ok: bool },
    TransactionsFetched(Seq<ApiTransaction>),
    TransactionsFailed,
    TransactionsStored { ok: bool },
    CheckpointSaved { ok: bool },
}

/// An action, its rows and texts as sequences.
pub enum SyncActionView {
    LoadCheckpoint { shard: u32 },
    FetchBlocks { from_nonce: Option<u64>, delay_secs: u64 },
    StoreBlocks { rows: Seq<BlockRowView> },
    FetchTransactions { block_hash: Seq<char>, shard: u32 },
    StoreTransactions { rows: Seq<TransactionRowView> },
    SaveCheckpoint { shard: u32, last_nonce: u64 },
    Finish,
    Abort,
}

impl View for SyncEvent {
    type V = SyncEventView;

    open spec fn view(&self) -> SyncEventView {
        match self {
            SyncEvent::CheckpointLoaded(c) => SyncEventView::CheckpointLoaded(*c),
            SyncEvent::CheckpointFailed => SyncEventView::CheckpointFailed,
            SyncEvent::BlocksFetched(bs) => SyncEventView::BlocksFetched(bs@),
            SyncEvent::BlocksFailed => SyncEventView::BlocksFailed,
            SyncEvent::BlocksStored { ok } => SyncEventView::BlocksStored { ok: *ok },
            SyncEvent::TransactionsFetched(txs) => SyncEventView::TransactionsFetched(txs@),
            SyncEvent::TransactionsFailed => SyncEventView::TransactionsFailed,
            SyncEvent::TransactionsStored { ok } => SyncEventView::TransactionsStored { ok: *ok },
            SyncEvent::CheckpointSaved { ok } => SyncEventView::CheckpointSaved { ok: *ok },
        }
    }
}

/// The contents of a list of block rows.
pub open spec fn block_row_views(rows: Seq<BlockRow>) -> Seq<BlockRowView> {
    rows.map_values(|r: BlockRow| r@)
}

/// The contents of a list of transaction rows.
pub open spec fn transaction_row_views(rows: Seq<TransactionRow>) -> Seq<TransactionRowView> {
    rows.map_values(|r: TransactionRow| r@)
}

impl View for SyncAction {
    type V = SyncActionView;

    open spec fn view(&self) -> SyncActionView {
        match self {
            SyncAction::LoadCheckpoint { shard } => SyncActionView::LoadCheckpoint { shard: *shard },
            SyncAction::FetchBlocks { from_nonce, delay_secs } => SyncActionView::FetchBlocks {
                from_nonce: *from_nonce,
                delay_secs: *delay_secs,
            },
            SyncAction::StoreBlocks { rows } => SyncActionView::StoreBlocks {
                rows: block_row_views(rows@),
            },
            SyncAction::FetchTransactions { block_hash, shard } => SyncActionView::FetchTransactions {
                block_hash: block_hash@,
                shard: *shard,
            },
            SyncAction::StoreTransactions { rows } => SyncActionView::StoreTransactions {
                rows: transaction_row_views(rows@),
            },
            SyncAction::SaveCheckpoint { shard, last_nonce } => SyncActionView::SaveCheckpoint {
                shard: *shard,
                last_nonce: *last_nonce,
            },
            SyncAction::Finish => SyncActionView::Finish,
            SyncAction::Abort => SyncActionView::Abort,
        }
    }
}

/// Where a shard's synchronisation stands.
enum Stage {
    LoadingCheckpoint,
    FetchingBlocks,
    StoringBlocks { blocks: Vec<ApiBlock> },
    FetchingTransactions { blocks: Vec<ApiBlock>, at: usize, rows: Vec<TransactionRow> },
    StoringTransactions { last_nonce: u64 },
    SavingCheckpoint,
    Finished,
    Failed,
}

/// Where a shard's synchronisation stands, its lists as sequences.
///
/// While a batch is handled, `blocks` are the batch's blocks of the shard;
/// `at` is the block whose transactions are asked for and `rows` the
/// transaction rows gathered so far.
pub enum StageView {
    LoadingCheckpoint,
    FetchingBlocks,
    StoringBlocks { blocks: Seq<ApiBlock> },
    FetchingTransactions { blocks: Seq<ApiBlock>, at: nat, rows: Seq<TransactionRowView> },
    StoringTransactions { last_nonce: u64 },
    SavingCheckpoint,
    Finished,
    Failed,
}

/// The state of one shard's synchronisation.
pub struct SyncState {
    shard: u32,
    from_genesis: bool,
    genesis_nonce: u64,
    cursor: u64,
    stage: Stage,
}

/// The state of one shard's synchronisation: the shard, the mode, the nonce
/// the next listing starts from (`cursor`) and the stage.
pub struct SyncStateView {
    pub shard: u32,
    pub from_genesis: bool,
    pub genesis_nonce: u64,
    pub cursor: u64,
    pub stage: StageView,
}

impl View for SyncState {
    type V = SyncStateView;

    closed spec fn view(&self) -> SyncStateView {
        SyncStateView {
            shard: self.shard,
            from_genesis: self.from_genesis,
            genesis_nonce: self.genesis_nonce,
            cursor: self.cursor,
            stage: match self.stage {
                Stage::LoadingCheckpoint => StageView::LoadingCheckpoint,
                Stage::FetchingBlocks => StageView::FetchingBlocks,
                Stage::StoringBlocks { blocks } => StageView::StoringBlocks { blocks: blocks@ },
                Stage::FetchingTransactions { blocks, at, rows } => StageView::FetchingTransactions {
                    blocks: blocks@,
                    at: at as nat,
                    rows: transaction_row_views(rows@),
                },
                Stage::StoringTransactions { last_nonce } => StageView::StoringTransactions {
                    last_nonce,
                },
                Stage::SavingCheckpoint => StageView::SavingCheckpoint,
                Stage::Finished => StageView::Finished,
                Stage::Failed => StageView::Failed,
            },
        }
    }
}

/// A reachable state: a batch being stored holds at least one block, the
/// block whose transactions are asked for is one of the batch, and every
/// transaction row gathered belongs to the synchronised shard.
pub open spec fn wf(s: SyncStateView) -> bool {
    match s.stage {
        StageView::StoringBlocks { blocks } => blocks.len() > 0,
        StageView::FetchingTransactions { blocks, at, rows } => {
            &&& at < blocks.len()
            &&& forall|i: int| 0 <= i < rows.len() ==> (#[trigger] rows[i]).shard == s.shard
        },
        _ => true,
    }
}

impl SyncState {
    #[verifier::type_invariant]
    spec fn reachable(self) -> bool {
        wf(self@)
    }
}

/// The nonce a block listing starts from: the cursor when synchronising from
/// genesis and the cursor is past zero, else none (the latest blocks).
pub open spec fn request_nonce(from_genesis: bool, cursor: u64) -> Option<u64> {
    if from_genesis && cursor > 0 {
        Some(cursor)
    } else {
        None
    }
}

/// The blocks of a listing that belong to the shard, in listing order.
pub open spec fn shard_blocks(blocks: Seq<ApiBlock>, shard: u32) -> Seq<ApiBlock> {
    blocks.filter(|b: ApiBlock| b.shard == shard)
}

/// The first block at or after `from` that holds transactions.
pub open spec fn next_with_transactions(blocks: Seq<ApiBlock>, from: nat) -> Option<nat>
    decreases blocks.len() - from,
{
    if from >= blocks.len() {
        None
    } else if blocks[from as int].tx_count != 0 {
        Some(from)
    } else {
        next_with_transactions(blocks, from + 1)
    }
}

/// The transaction rows of one block of the shard.
pub open spec fn block_transaction_rows(txs: Seq<ApiTransaction>, block: ApiBlock, shard: u32) -> Seq<
    TransactionRowView,
> {
    txs.map_values(|tx: ApiTransaction| transaction_row_of(tx, block.hash@, block.nonce, shard, block.timestamp))
}

/// The state `s` with another stage.
pub open spec fn with_stage(s: SyncStateView, stage: StageView) -> SyncStateView {
    SyncStateView { stage: stage, ..s }
}

/// Going on with a batch from block `from`: the transactions of the next
/// block that holds some are asked for; when none is left, the gathered rows
/// are written.
pub open spec fn continue_batch(
    s: SyncStateView,
    blocks: Seq<ApiBlock>,
    from: nat,
    rows: Seq<TransactionRowView>,
) -> (SyncStateView, SyncActionView) {
    match next_with_transactions(blocks, from) {
        Some(j) => (
            with_stage(s, StageView::FetchingTransactions { blocks, at: j, rows }),
            SyncActionView::FetchTransactions { block_hash: blocks[j as int].hash@, shard: s.shard },
        ),
        None => (
            with_stage(s, StageView::StoringTransactions { last_nonce: blocks.last().nonce }),
            SyncActionView::StoreTransactions { rows },
        ),
    }
}

/// The state a shard's synchronisation starts in, and its first action.
pub open spec fn initial(shard: u32, from_genesis: bool, genesis_nonce: u64) -> (SyncStateView, SyncActionView) {
    if from_genesis {
        (
            SyncStateView { shard, from_genesis, genesis_nonce, cursor: 0, stage: StageView::LoadingCheckpoint },
            SyncActionView::LoadCheckpoint { shard },
        )
    } else {
        (
            SyncStateView { shard, from_genesis, genesis_nonce, cursor: 0, stage: StageView::FetchingBlocks },
            SyncActionView::FetchBlocks { from_nonce: None, delay_secs: 0 },
        )
    }
}

/// One step of a shard's synchronisation: the next state and action after
/// an event.
///
/// - A stored checkpoint past zero is where listing resumes; otherwise the
///   configured genesis nonce is.
/// - An empty listing ends the synchronisation.
/// - A listing without a block of the shard moves the cursor past its last
///   block and lists again at once.
/// - Otherwise the shard's blocks are written, then the transactions of each
///   of them that holds some are read, block by block (a failed read is
///   skipped), then all their rows are written, then the last block's nonce
///   is recorded as checkpoint and the cursor moves past it; the next
///   listing follows at once from genesis, after a pause otherwise.
/// - A failed listing is asked for again after a pause.
/// - Whether a write succeeded does not change the course.
/// - A failed checkpoint read, a cursor that would pass `u64::MAX`, or an
///   event that does not answer the pending action stops with an error.
pub open spec fn next(s: SyncStateView, e: SyncEventView) -> (SyncStateView, SyncActionView) {
    match s.stage {
        StageView::LoadingCheckpoint => match e {
            SyncEventView::CheckpointLoaded(c) => {
                let cursor = if c > 0 { c } else { s.genesis_nonce };
                (
                    SyncStateView { cursor, stage: StageView::FetchingBlocks, ..s },
                    SyncActionView::FetchBlocks { from_nonce: request_nonce(s.from_genesis, cursor), delay_secs: 0 },
                )
            },
            _ => (with_stage(s, StageView::Failed), SyncActionView::Abort),
        },
        StageView::FetchingBlocks => match e {
            SyncEventView::BlocksFetched(bs) => {
                if bs.len() == 0 {
                    (with_stage(s, StageView::Finished), SyncActionView::Finish)
                } else if shard_blocks(bs, s.shard).len() == 0 {
                    if bs.last().nonce == u64::MAX {
                        (with_stage(s, StageView::Failed), SyncActionView::Abort)
                    } else {
                        let cursor = (bs.last().nonce + 1) as u64;
                        (
                            SyncStateView { cursor, ..s },
                            SyncActionView::FetchBlocks {
                                from_nonce: request_nonce(s.from_genesis, cursor),
                                delay_secs: 0,
                            },
                        )
                    }
                } else {
                    let blocks = shard_blocks(bs, s.shard);
                    (
                        with_stage(s, StageView::StoringBlocks { blocks }),
                        SyncActionView::StoreBlocks { rows: blocks.map_values(|b: ApiBlock| block_row_of(b)) },
                    )
                }
            },
            SyncEventView::BlocksFailed => (
                s,
                SyncActionView::FetchBlocks {
                    from_nonce: request_nonce(s.from_genesis, s.cursor),
                    delay_secs: RETRY_DELAY_SECS,
                },
            ),
            _ => (with_stage(s, StageView::Failed), SyncActionView::Abort),
        },
        StageView::StoringBlocks { blocks } => match e {
            SyncEventView::BlocksStored { ok } => continue_batch(s, blocks, 0, Seq::empty()),
            _ => (with_stage(s, StageView::Failed), SyncActionView::Abort),
        },
        StageView::FetchingTransactions { blocks, at, rows } => match e {
            SyncEventView::TransactionsFetched(txs) => continue_batch(
                s,
                blocks,
                at + 1,
                rows + block_transaction_rows(txs, blocks[at as int], s.shard),
            ),
            SyncEventView::TransactionsFailed => continue_batch(s, blocks, at + 1, rows),
            _ => (with_stage(s, StageView::Failed), SyncActionView::Abort),
        },
        StageView::StoringTransactions { last_nonce } => match e {
            SyncEventView::TransactionsStored { ok } => {
                if last_nonce == u64::MAX {
                    (with_stage(s, StageView::Failed), SyncActionView::Abort)
                } else {
                    (
                        SyncStateView {
                            cursor: (last_nonce + 1) as u64,
                            stage: StageView::SavingCheckpoint,
                            ..s
                        },
                        SyncActionView::SaveCheckpoint { shard: s.shard, last_nonce },
                    )
                }
            },
            _ => (with_stage(s, StageView::Failed), SyncActionView::Abort),
        },
        StageView::SavingCheckpoint => match e {
            SyncEventView::CheckpointSaved { ok } => (
                with_stage(s, StageView::FetchingBlocks),
                SyncActionView::FetchBlocks {
                    from_nonce: request_nonce(s.from_genesis, s.cursor),
                    delay_secs: if s.from_genesis { 0 } else { POLL_DELAY_SECS },
                },
            ),
            _ => (with_stage(s, StageView::Failed), SyncActionView::Abort),
        },
        StageView::Finished => (s, SyncActionView::Finish),
        StageView::Failed => (s, SyncActionView::Abort),
    }
}

proof fn lemma_next_with_transactions_bounds(blocks: Seq<ApiBlock>, from: nat)
    ensures
        next_with_transactions(blocks, from) matches Some(j) ==> from <= j < blocks.len()
            && blocks[j as int].tx_count != 0,
    decreases blocks.len() - from,
{
    if from < blocks.len() && blocks[from as int].tx_count == 0 {
        lemma_next_with_transactions_bounds(blocks, from + 1);
    }
}

/// The blocks of the shard, in listing order.
fn take_shard_blocks(blocks: Vec<ApiBlock>, shard: u32) -> (kept: Vec<ApiBlock>)
    ensures
        kept@ == shard_blocks(blocks@, shard),
{
    let ghost all = blocks@;
    let ghost pred = |b: ApiBlock| b.shard == shard;
    let mut rest = blocks;
    let mut kept: Vec<ApiBlock> = Vec::new();
    let mut k: usize = 0;
    let _ = rest.len();
    assert(all.take(0) =~= Seq::<ApiBlock>::empty());
    while rest.len() > 0
        invariant
            pred == (|b: ApiBlock| b.shard == shard),
            k <= all.len(),
            all.len() <= usize::MAX,
            k + rest@.len() == all.len(),
            rest@ == all.skip(k as int),
            kept@ == all.take(k as int).filter(pred),
        decreases rest.len(),
    {
        let b = rest.remove(0);
        proof {
            assert(b == all[k as int]);
            assert(rest@ =~= all.skip(k + 1));
            assert(all.take(k + 1).drop_last() =~= all.take(k as int));
            assert(all.take(k + 1).last() == b);
            reveal(Seq::filter);
            assert(all.take(k + 1).filter(pred) == if pred(b) {
                all.take(k as int).filter(pred).push(b)
            } else {
                all.take(k as int).filter(pred)
            });
        }
        let ghost prev = kept@;
        if b.shard == shard {
            assert(pred(b));
            kept.push(b);
        } else {
            assert(!pred(b));
        }
        assert(kept@ == all.take(k + 1).filter(pred));
        k = k + 1;
    }
    assert(all.take(k as int) =~= all);
    kept
}

/// The `blocks` rows of a batch.
fn block_rows(blocks: &Vec<ApiBlock>) -> (rows: Vec<BlockRow>)
    ensures
        block_row_views(rows@) == blocks@.map_values(|b: ApiBlock| block_row_of(b)),
{
    let mut rows: Vec<BlockRow> = Vec::new();
    let mut i: usize = 0;
    while i < blocks.len()
        invariant
            i <= blocks@.len(),
            block_row_views(rows@) =~= blocks@.take(i as int).map_values(|b: ApiBlock| block_row_of(b)),
        decreases blocks@.len() - i,
    {
        let row = normalize_block(&blocks[i]);
        let ghost prev = rows@;
        rows.push(row);
        proof {
            assert(rows@ == prev.push(row));
            assert(block_row_views(rows@) =~= block_row_views(prev).push(row@));
            assert(blocks@.take(i + 1) =~= blocks@.take(i as int).push(blocks@[i as int]));
        }
        i += 1;
    }
    assert(blocks@.take(i as int) =~= blocks@);
    rows
}

/// Appends the transaction rows of one block to `rows`.
fn push_transaction_rows(rows: &mut Vec<TransactionRow>, txs: &Vec<ApiTransaction>, block: &ApiBlock, shard: u32)
    ensures
        transaction_row_views(final(rows)@) == transaction_row_views(old(rows)@)
            + block_transaction_rows(txs@, *block, shard),
{
    let ghost start = transaction_row_views(rows@);
    let mut i: usize = 0;
    while i < txs.len()
        invariant
            i <= txs@.len(),
            transaction_row_views(rows@) =~= start + block_transaction_rows(txs@.take(i as int), *block, shard),
        decreases txs@.len() - i,
    {
        let row = normalize_transaction(&txs[i], block.hash.as_str(), block.nonce, shard, block.timestamp);
        let ghost prev = rows@;
        rows.push(row);
        proof {
            assert(rows@ == prev.push(row));
            assert(transaction_row_views(rows@) =~= transaction_row_views(prev).push(row@));
            assert(txs@.take(i + 1) =~= txs@.take(i as int).push(txs@[i as int]));
            assert(block_transaction_rows(txs@.take(i + 1), *block, shard) =~= block_transaction_rows(
                txs@.take(i as int),
                *block,
                shard,
            ).push(row@));
        }
        i += 1;
    }
    assert(txs@.take(i as int) =~= txs@);
}

/// The first block at or after `from` that holds transactions.
fn find_next_with_transactions(blocks: &Vec<ApiBlock>, from: usize) -> (found: Option<usize>)
    ensures
        match found {
            Some(j) => next_with_transactions(blocks@, from as nat) == Some(j as nat),
            None => next_with_transactions(blocks@, from as nat) is None,
        },
{
    let mut i = from;
    while i < blocks.len()
        invariant
            from <= i,
            next_with_transactions(blocks@, from as nat) == next_with_transactions(blocks@, i as nat),
        decreases blocks@.len() - i,
    {
        if blocks[i].tx_count != 0 {
            return Some(i);
        }
        i += 1;
    }
    None
}

impl SyncState {
    /// The shard this state synchronises.
    pub fn shard(&self) -> (shard: u32)
        ensures
            shard == self@.shard,
    {
        self.shard
    }

    /// The nonce the next listing starts from.
    pub fn cursor(&self) -> (cursor: u64)
        ensures
            cursor == self@.cursor,
    {
        self.cursor
    }

    /// The start of a shard's synchronisation under the given settings:
    /// from genesis the checkpoint is read first, otherwise the latest
    /// blocks are listed at once.
    pub fn start(shard: u32, sync: &SyncConfig) -> (res: (SyncState, SyncAction))
        ensures
            (res.0@, res.1@) == initial(shard, sync.from_genesis, sync.genesis_nonce),
    {
        if sync.from_genesis {
            (
                SyncState {
                    shard,
                    from_genesis: true,
                    genesis_nonce: sync.genesis_nonce,
                    cursor: 0,
                    stage: Stage::LoadingCheckpoint,
                },
                SyncAction::LoadCheckpoint { shard },
            )
        } else {
            (
                SyncState {
                    shard,
                    from_genesis: false,
                    genesis_nonce: sync.genesis_nonce,
                    cursor: 0,
                    stage: Stage::FetchingBlocks,
                },
                SyncAction::FetchBlocks { from_nonce: None, delay_secs: 0 },
            )
        }
    }
}

/// The listing's start for the given mode and cursor (see [`request_nonce`]).
fn request_from(from_genesis: bool, cursor: u64) -> (r: Option<u64>)
    ensures
        r == request_nonce(from_genesis, cursor),
{
    if from_genesis && cursor > 0 {
        Some(cursor)
    } else {
        None
    }
}

/// Builds the state of an ongoing batch and its action (see [`continue_batch`]).
fn continue_batch_exec(
    shard: u32,
    from_genesis: bool,
    genesis_nonce: u64,
    cursor: u64,
    blocks: Vec<ApiBlock>,
    from: usize,
    rows: Vec<TransactionRow>,
) -> (res: (SyncState, SyncAction))
    requires
        blocks@.len() > 0,
        forall|i: int|
            0 <= i < rows@.len() ==> (#[trigger] transaction_row_views(rows@)[i]).shard == shard,
    ensures
        (res.0@, res.1@) == continue_batch(
            SyncStateView { shard, from_genesis, genesis_nonce, cursor, stage: StageView::Failed },
            blocks@,
            from as nat,
            transaction_row_views(rows@),
        ),
{
    proof {
        lemma_next_with_transactions_bounds(blocks@, from as nat);
    }
    match find_next_with_transactions(&blocks, from) {
        Some(j) => {
            let block_hash = blocks[j].hash.clone();
            (
                SyncState {
                    shard,
                    from_genesis,
                    genesis_nonce,
                    cursor,
                    stage: Stage::FetchingTransactions { blocks, at: j, rows },
                },
                SyncAction::FetchTransactions { block_hash, shard },
            )
        },
        None => {
            let last_nonce = blocks[blocks.len() - 1].nonce;
            (
                SyncState {
                    shard,
                    from_genesis,
                    genesis_nonce,
                    cursor,
                    stage: Stage::StoringTransactions { last_nonce },
                },
                SyncAction::StoreTransactions { rows },
            )
        },
    }
}

impl SyncState {
    fn failed(shard: u32, from_genesis: bool, genesis_nonce: u64, cursor: u64) -> (res: (SyncState, SyncAction))
        ensures
            res.0@ == (SyncStateView { shard, from_genesis, genesis_nonce, cursor, stage: StageView::Failed }),
            res.1@ == SyncActionView::Abort,
    {
        (SyncState { shard, from_genesis, genesis_nonce, cursor, stage: Stage::Failed }, SyncAction::Abort)
    }

    /// One step of the synchronisation (see [`next`]).
    pub fn step(self, event: SyncEvent) -> (res: (SyncState, SyncAction))
        ensures
            (res.0@, res.1@) == next(self@, event@),
    {
        proof {
            use_type_invariant(&self);
        }
        let SyncState { shard, from_genesis, genesis_nonce, cursor, stage } = self;
        match stage {
            Stage::LoadingCheckpoint => match event {
                SyncEvent::CheckpointLoaded(c) => {
                    let cursor = if c > 0 { c } else { genesis_nonce };
                    (
                        SyncState { shard, from_genesis, genesis_nonce, cursor, stage: Stage::FetchingBlocks },
                        SyncAction::FetchBlocks { from_nonce: request_from(from_genesis, cursor), delay_secs: 0 },
                    )
                },
                _ => SyncState::failed(shard, from_genesis, genesis_nonce, cursor),
            },
            Stage::FetchingBlocks => match event {
                SyncEvent::BlocksFetched(bs) => {
                    if bs.len() == 0 {
                        return (
                            SyncState { shard, from_genesis, genesis_nonce, cursor, stage: Stage::Finished },
                            SyncAction::Finish,
                        );
                    }
                    let last_nonce = bs[bs.len() - 1].nonce;
                    let blocks = take_shard_blocks(bs, shard);
                    if blocks.len() == 0 {
                        if last_nonce == u64::MAX {
                            SyncState::failed(shard, from_genesis, genesis_nonce, cursor)
                        } else {
                            let cursor = last_nonce + 1;
                            (
                                SyncState { shard, from_genesis, genesis_nonce, cursor, stage: Stage::FetchingBlocks },
                                SyncAction::FetchBlocks {
                                    from_nonce: request_from(from_genesis, cursor),
                                    delay_secs: 0,
                                },
                            )
                        }
                    } else {
                        let rows = block_rows(&blocks);
                        (
                            SyncState {
                                shard,
                                from_genesis,
                                genesis_nonce,
                                cursor,
                                stage: Stage::StoringBlocks { blocks },
                            },
                            SyncAction::StoreBlocks { rows },
                        )
                    }
                },
                SyncEvent::BlocksFailed => (
                    SyncState { shard, from_genesis, genesis_nonce, cursor, stage: Stage::FetchingBlocks },
                    SyncAction::FetchBlocks {
                        from_nonce: request_from(from_genesis, cursor),
                        delay_secs: RETRY_DELAY_SECS,
                    },
                ),
                _ => SyncState::failed(shard, from_genesis, genesis_nonce, cursor),
            },
            Stage::StoringBlocks { blocks } => match event {
                SyncEvent::BlocksStored { ok } => {
                    let rows: Vec<TransactionRow> = Vec::new();
                    assert(transaction_row_views(rows@) =~= Seq::<TransactionRowView>::empty());
                    continue_batch_exec(shard, from_genesis, genesis_nonce, cursor, blocks, 0, rows)
                },
                _ => SyncState::failed(shard, from_genesis, genesis_nonce, cursor),
            },
            Stage::FetchingTransactions { blocks, at, rows } => {
            let n = blocks.len();
            assert(at < n);
            match event {
                SyncEvent::TransactionsFetched(txs) => {
                    let mut rows = rows;
                    let ghost before = transaction_row_views(rows@);
                    push_transaction_rows(&mut rows, &txs, &blocks[at], shard);
                    proof {
                        let added = block_transaction_rows(txs@, blocks@[at as int], shard);
                        assert forall|i: int| 0 <= i < rows@.len() implies (#[trigger] transaction_row_views(
                            rows@,
                        )[i]).shard == shard by {
                            assert(transaction_row_views(rows@) == before + added);
                            assert(transaction_row_views(rows@).len() == rows@.len());
                            assert(added.len() == txs@.len());
                            if i >= before.len() {
                                assert(added[i - before.len()].shard == shard);
                            }
                        }
                    }
                    continue_batch_exec(shard, from_genesis, genesis_nonce, cursor, blocks, at + 1, rows)
                },
                SyncEvent::TransactionsFailed => {
                    continue_batch_exec(shard, from_genesis, genesis_nonce, cursor, blocks, at + 1, rows)
                },
                _ => SyncState::failed(shard, from_genesis, genesis_nonce, cursor),
            }},
            Stage::StoringTransactions { last_nonce } => match event {
                SyncEvent::TransactionsStored { ok } => {
                    if last_nonce == u64::MAX {
                        SyncState::failed(shard, from_genesis, genesis_nonce, cursor)
                    } else {
                        (
                            SyncState {
                                shard,
                                from_genesis,
                                genesis_nonce,
                                cursor: last_nonce + 1,
                                stage: Stage::SavingCheckpoint,
                            },
                            SyncAction::SaveCheckpoint { shard, last_nonce },
                        )
                    }
                },
                _ => SyncState::failed(shard, from_genesis, genesis_nonce, cursor),
            },
            Stage::SavingCheckpoint => match event {
                SyncEvent::CheckpointSaved { ok } => (
                    SyncState { shard, from_genesis, genesis_nonce, cursor, stage: Stage::FetchingBlocks },
                    SyncAction::FetchBlocks {
                        from_nonce: request_from(from_genesis, cursor),
                        delay_secs: if from_genesis { 0 } else { POLL_DELAY_SECS },
                    },
                ),
                _ => SyncState::failed(shard, from_genesis, genesis_nonce, cursor),
            },
            Stage::Finished => (
                SyncState { shard, from_genesis, genesis_nonce, cursor, stage: Stage::Finished },
                SyncAction::Finish,
            ),
            Stage::Failed => SyncState::failed(shard, from_genesis, genesis_nonce, cursor),
        }
    }
}

/// Every step keeps the state reachable: a batch being written is never
/// empty, and the block whose transactions are asked for is in the batch.
pub proof fn law_step_keeps_state_reachable(s: SyncStateView, e: SyncEventView)
    requires
        wf(s),
    ensures
        wf(next(s, e).0),
{
    match s.stage {
        StageView::FetchingBlocks => {
            if let SyncEventView::BlocksFetched(bs) = e {
                let blocks = shard_blocks(bs, s.shard);
                if bs.len() != 0 && blocks.len() != 0 {
                    assert(wf(next(s, e).0));
                }
            }
        },
        StageView::StoringBlocks { blocks } => {
            lemma_next_with_transactions_bounds(blocks, 0);
        },
        StageView::FetchingTransactions { blocks, at, rows } => {
            lemma_next_with_transactions_bounds(blocks, at + 1);
        },
        _ => {},
    }
}

/// Only the shard's own blocks are written: the rows written after a listing
/// are the listing's blocks of the shard, in listing order, each carried
/// over unchanged, and each of them belongs to the shard.
pub proof fn law_only_shard_blocks_are_stored(s: SyncStateView, bs: Seq<ApiBlock>)
    requires
        s.stage == StageView::FetchingBlocks,
    ensures
        next(s, SyncEventView::BlocksFetched(bs)).1 matches SyncActionView::StoreBlocks { rows } ==> {
            &&& rows == shard_blocks(bs, s.shard).map_values(|b: ApiBlock| block_row_of(b))
            &&& forall|i: int| 0 <= i < rows.len() ==> (#[trigger] rows[i]).shard == s.shard
        },
{
    let blocks = shard_blocks(bs, s.shard);
    if next(s, SyncEventView::BlocksFetched(bs)).1 is StoreBlocks {
        bs.filter_lemma(|b: ApiBlock| b.shard == s.shard);
    }
}

/// An empty listing ends the synchronisation, and the end is final: a
/// finished synchronisation stays finished whatever comes.
pub proof fn law_empty_listing_finishes(s: SyncStateView, e: SyncEventView)
    requires
        s.stage == StageView::FetchingBlocks,
    ensures
        next(s, SyncEventView::BlocksFetched(Seq::empty())).1 == SyncActionView::Finish,
        next(next(s, SyncEventView::BlocksFetched(Seq::empty())).0, e) == (
            next(s, SyncEventView::BlocksFetched(Seq::empty())).0,
            SyncActionView::Finish,
        ),
{
}

/// A failed listing changes nothing and is asked for again, from the same
/// nonce, after the retry pause.
pub proof fn law_failed_listing_is_retried(s: SyncStateView)
    requires
        s.stage == StageView::FetchingBlocks,
    ensures
        next(s, SyncEventView::BlocksFailed) == (
            s,
            SyncActionView::FetchBlocks {
                from_nonce: request_nonce(s.from_genesis, s.cursor),
                delay_secs: RETRY_DELAY_SECS,
            },
        ),
{
}

/// Whether a write to ClickHouse succeeded does not change the course of
/// the synchronisation.
pub proof fn law_write_outcome_is_ignored(s: SyncStateView)
    ensures
        next(s, SyncEventView::BlocksStored { ok: true }) == next(s, SyncEventView::BlocksStored { ok: false }),
        next(s, SyncEventView::TransactionsStored { ok: true }) == next(
            s,
            SyncEventView::TransactionsStored { ok: false },
        ),
        next(s, SyncEventView::CheckpointSaved { ok: true }) == next(s, SyncEventView::CheckpointSaved { ok: false }),
{
}

/// Following the latest blocks, no listing ever names a nonce.
pub proof fn law_live_mode_lists_latest(s: SyncStateView, e: SyncEventView, shard: u32, genesis_nonce: u64)
    requires
        !s.from_genesis,
    ensures
        initial(shard, false, genesis_nonce).1 == (SyncActionView::FetchBlocks { from_nonce: None, delay_secs: 0 }),
        !next(s, e).0.from_genesis,
        next(s, e).1 matches SyncActionView::FetchBlocks { from_nonce, delay_secs } ==> from_nonce is None,
{
}

/// Resuming from genesis: a stored checkpoint past zero is where listing
/// starts again (that block is listed once more); without one, listing
/// starts from the configured genesis nonce, or from the latest blocks when
/// that is zero.
pub proof fn law_resume_from_checkpoint(shard: u32, genesis_nonce: u64, checkpoint: u64)
    ensures
        ({
            let (s, a) = initial(shard, true, genesis_nonce);
            &&& a == SyncActionView::LoadCheckpoint { shard }
            &&& next(s, SyncEventView::CheckpointLoaded(checkpoint)).1 == (SyncActionView::FetchBlocks {
                from_nonce: if checkpoint > 0 {
                    Some(checkpoint)
                } else if genesis_nonce > 0 {
                    Some(genesis_nonce)
                } else {
                    None
                },
                delay_secs: 0,
            })
        }),
{
}

/// Transactions are asked for only for blocks of the batch that hold some,
/// from the synchronised shard; the rows gathered are never lost (the rows
/// written at the end of a batch extend those gathered before), and every
/// transaction row written belongs to the synchronised shard.
pub proof fn law_transactions_fetched_only_where_present(s: SyncStateView, e: SyncEventView)
    requires
        wf(s),
    ensures
        ({
            let (t, a) = next(s, e);
            &&& a matches SyncActionView::FetchTransactions { block_hash, shard } ==> {
                &&& shard == s.shard
                &&& t.stage matches StageView::FetchingTransactions { blocks, at, rows }
                &&& blocks[at as int].hash@ == block_hash
                &&& blocks[at as int].tx_count != 0
            }
            &&& s.stage matches StageView::FetchingTransactions { blocks, at, rows } ==> (
            a matches SyncActionView::StoreTransactions { rows: written } ==> rows.is_prefix_of(written))
            &&& a matches SyncActionView::StoreTransactions { rows: written } ==> forall|i: int|
                0 <= i < written.len() ==> (#[trigger] written[i]).shard == s.shard
        }),
{
    match s.stage {
        StageView::StoringBlocks { blocks } => {
            lemma_next_with_transactions_bounds(blocks, 0);
        },
        StageView::FetchingTransactions { blocks, at, rows } => {
            lemma_next_with_transactions_bounds(blocks, at + 1);
            if let SyncEventView::TransactionsFetched(txs) = e {
                let more = rows + block_transaction_rows(txs, blocks[at as int], s.shard);
                assert(more.subrange(0, rows.len() as int) =~= rows);
            }
            assert(rows.subrange(0, rows.len() as int) =~= rows);
        },
        _ => {},
    }
}

/// The checkpoint recorded after a batch is the nonce of the batch's last
/// block of the shard, and the next listing starts right after it.
pub proof fn law_checkpoint_is_last_block(s: SyncStateView, e: SyncEventView, ok1: bool, ok2: bool)
    requires
        wf(s),
        s.from_genesis,
        s.stage matches StageView::FetchingTransactions { blocks, at, rows } || s.stage is StoringBlocks,
        next(s, e).1 is StoreTransactions,
    ensures
        ({
            let blocks = match s.stage {
                StageView::FetchingTransactions { blocks, at, rows } => blocks,
                StageView::StoringBlocks { blocks } => blocks,
                _ => Seq::empty(),
            };
            let last = blocks.last().nonce;
            let t1 = next(s, e).0;
            let (t2, a2) = next(t1, SyncEventView::TransactionsStored { ok: ok1 });
            let (t3, a3) = next(t2, SyncEventView::CheckpointSaved { ok: ok2 });
            last < u64::MAX ==> {
                &&& a2 == SyncActionView::SaveCheckpoint { shard: s.shard, last_nonce: last }
                &&& a3 == SyncActionView::FetchBlocks { from_nonce: Some((last + 1) as u64), delay_secs: 0 }
                &&& t3.stage == StageView::FetchingBlocks
            }
        }),
{
}

/// The events that answer an action: those its performer can report.
/// Nothing answers the end of the synchronisation.
pub open spec fn answers(a: SyncActionView, e: SyncEventView) -> bool {
    match a {
        SyncActionView::LoadCheckpoint { .. } => e is CheckpointLoaded || e is CheckpointFailed,
        SyncActionView::FetchBlocks { .. } => e is BlocksFetched || e is BlocksFailed,
        SyncActionView::StoreBlocks { .. } => e is BlocksStored,
        SyncActionView::FetchTransactions { .. } => e is TransactionsFetched || e is TransactionsFailed,
        SyncActionView::StoreTransactions { .. } => e is TransactionsStored,
        SyncActionView::SaveCheckpoint { .. } => e is CheckpointSaved,
        SyncActionView::Finish => false,
        SyncActionView::Abort => false,
    }
}

/// The state and pending action after the events `es`, from state `s` with
/// action `a` pending.
pub open spec fn run(s: SyncStateView, a: SyncActionView, es: Seq<SyncEventView>) -> (SyncStateView, SyncActionView)
    decreases es.len(),
{
    if es.len() == 0 {
        (s, a)
    } else {
        next(run(s, a, es.drop_last()).0, es.last())
    }
}

/// Each of the events `es` answers the action pending when it comes.
pub open spec fn answered(s: SyncStateView, a: SyncActionView, es: Seq<SyncEventView>) -> bool
    decreases es.len(),
{
    es.len() == 0 || (answered(s, a, es.drop_last()) && answers(run(s, a, es.drop_last()).1, es.last()))
}

/// The nonce a listing starts from, the latest blocks counted as zero.
pub open spec fn nonce_or_zero(from_nonce: Option<u64>) -> nat {
    match from_nonce {
        Some(n) => n as nat,
        None => 0,
    }
}

/// A listing holds only blocks at or after the nonce it was asked from.
pub open spec fn page_from_request(a: SyncActionView, e: SyncEventView) -> bool {
    match a {
        SyncActionView::FetchBlocks { from_nonce, delay_secs } => match e {
            SyncEventView::BlocksFetched(bs) => forall|k: int|
                0 <= k < bs.len() ==> (#[trigger] bs[k]).nonce >= nonce_or_zero(from_nonce),
            _ => true,
        },
        _ => true,
    }
}

/// Each listing among the events `es` holds only blocks at or after the
/// nonce it was asked from.
pub open spec fn pages_from_requests(s: SyncStateView, a: SyncActionView, es: Seq<SyncEventView>) -> bool
    decreases es.len(),
{
    es.len() == 0 || (pages_from_requests(s, a, es.drop_last()) && page_from_request(
        run(s, a, es.drop_last()).1,
        es.last(),
    ))
}

/// The step stops on a cursor that would pass `u64::MAX`.
pub open spec fn cursor_overflows(s: SyncStateView, e: SyncEventView) -> bool {
    ||| (s.stage is FetchingBlocks && (e matches SyncEventView::BlocksFetched(bs) && bs.len() > 0
        && shard_blocks(bs, s.shard).len() == 0 && bs.last().nonce == u64::MAX))
    ||| (s.stage == StageView::StoringTransactions { last_nonce: u64::MAX } && e is TransactionsStored)
}

/// The pending action is the one of the state's stage.
pub open spec fn coherent(s: SyncStateView, a: SyncActionView) -> bool {
    &&& match a {
        SyncActionView::LoadCheckpoint { .. } => s.stage is LoadingCheckpoint,
        SyncActionView::FetchBlocks { .. } => s.stage is FetchingBlocks,
        SyncActionView::StoreBlocks { .. } => s.stage is StoringBlocks,
        SyncActionView::FetchTransactions { .. } => s.stage is FetchingTransactions,
        SyncActionView::StoreTransactions { .. } => s.stage is StoringTransactions,
        SyncActionView::SaveCheckpoint { .. } => s.stage is SavingCheckpoint,
        SyncActionView::Finish => s.stage is Finished,
        SyncActionView::Abort => s.stage is Failed,
    }
    &&& (s.stage is LoadingCheckpoint ==> s.from_genesis)
}

proof fn lemma_next_coherent(s: SyncStateView, e: SyncEventView)
    requires
        s.stage is LoadingCheckpoint ==> s.from_genesis,
    ensures
        coherent(next(s, e).0, next(s, e).1),
        next(s, e).0.from_genesis == s.from_genesis,
        next(s, e).0.shard == s.shard,
{
    match s.stage {
        StageView::StoringBlocks { blocks } => {},
        StageView::FetchingTransactions { blocks, at, rows } => {},
        _ => {},
    }
}

proof fn lemma_run_coherent(s: SyncStateView, a: SyncActionView, es: Seq<SyncEventView>)
    requires
        coherent(s, a),
    ensures
        coherent(run(s, a, es).0, run(s, a, es).1),
        run(s, a, es).0.from_genesis == s.from_genesis,
        run(s, a, es).0.shard == s.shard,
    decreases es.len(),
{
    if es.len() > 0 {
        lemma_run_coherent(s, a, es.drop_last());
        lemma_next_coherent(run(s, a, es.drop_last()).0, es.last());
    }
}

proof fn lemma_run_prefix(s: SyncStateView, a: SyncActionView, es: Seq<SyncEventView>, k: int)
    requires
        0 <= k < es.len(),
    ensures
        run(s, a, es.take(k + 1)) == next(run(s, a, es.take(k)).0, es[k]),
{
    assert(es.take(k + 1).drop_last() =~= es.take(k));
}

proof fn lemma_answered_prefix(s: SyncStateView, a: SyncActionView, es: Seq<SyncEventView>, k: int)
    requires
        answered(s, a, es),
        pages_from_requests(s, a, es),
        0 <= k < es.len(),
    ensures
        answers(run(s, a, es.take(k)).1, es[k]),
        page_from_request(run(s, a, es.take(k)).1, es[k]),
    decreases es.len(),
{
    if k == es.len() - 1 {
        assert(es.take(k) =~= es.drop_last());
    } else {
        lemma_answered_prefix(s, a, es.drop_last(), k);
        assert(es.drop_last().take(k) =~= es.take(k));
    }
}

/// A shard's synchronisation stops with an error only on a failed
/// checkpoint read (which only happens from genesis) or on a cursor that
/// would pass `u64::MAX`; it ends only on an empty listing. Failed listings,
/// failed transaction reads and failed writes never stop it.
pub proof fn law_sync_stops_only_on_checkpoint_error_or_empty_listing(
    shard: u32,
    from_genesis: bool,
    genesis_nonce: u64,
    es: Seq<SyncEventView>,
)
    requires
        answered(initial(shard, from_genesis, genesis_nonce).0, initial(shard, from_genesis, genesis_nonce).1, es),
    ensures
        ({
            let (s0, a0) = initial(shard, from_genesis, genesis_nonce);
            let before = run(s0, a0, es.drop_last()).0;
            let end = run(s0, a0, es).1;
            &&& end == SyncActionView::Abort ==> es.len() > 0 && ((es.last() == SyncEventView::CheckpointFailed
                && from_genesis) || cursor_overflows(before, es.last()))
            &&& end == SyncActionView::Finish ==> es.len() > 0 && es.last() == SyncEventView::BlocksFetched(
                Seq::empty(),
            )
        }),
{
    let (s0, a0) = initial(shard, from_genesis, genesis_nonce);
    if es.len() > 0 {
        lemma_run_coherent(s0, a0, es.drop_last());
        let before = run(s0, a0, es.drop_last()).0;
        let e = es.last();
        if let SyncEventView::BlocksFetched(bs) = e {
            if bs.len() == 0 {
                assert(bs =~= Seq::<ApiBlock>::empty());
            }
        }
    }
}

/// The nonces of the shard's blocks in a listing are among those of the listing.
proof fn lemma_shard_blocks_from(bs: Seq<ApiBlock>, shard: u32, r: nat)
    requires
        forall|k: int| 0 <= k < bs.len() ==> (#[trigger] bs[k]).nonce >= r,
    ensures
        forall|k: int| 0 <= k < shard_blocks(bs, shard).len() ==> (#[trigger] shard_blocks(bs, shard)[k]).nonce >= r,
{
    let p = |b: ApiBlock| b.shard == shard;
    assert forall|k: int| 0 <= k < shard_blocks(bs, shard).len() implies (#[trigger] shard_blocks(
        bs,
        shard,
    )[k]).nonce >= r by {
        let x = bs.filter(p)[k];
        assert(bs.filter(p).contains(x));
        bs.lemma_filter_contains_rev(p, x);
    }
}

/// Within a batch listed from nonce `r`: the cursor stays at `r` while the
/// batch's blocks (whose last nonce is at least `r`) are handled, and has
/// moved past `r` once the checkpoint is recorded.
pub open spec fn batch_after(s: SyncStateView, r: nat) -> bool {
    match s.stage {
        StageView::StoringBlocks { blocks } => s.cursor == r && blocks.len() > 0 && blocks.last().nonce >= r,
        StageView::FetchingTransactions { blocks, at, rows } => s.cursor == r && blocks.len() > 0
            && blocks.last().nonce >= r,
        StageView::StoringTransactions { last_nonce } => s.cursor == r && last_nonce >= r,
        StageView::SavingCheckpoint => s.cursor > r,
        StageView::FetchingBlocks => s.cursor > r,
        StageView::Finished => true,
        StageView::Failed => true,
        StageView::LoadingCheckpoint => false,
    }
}

proof fn lemma_batch_step(s: SyncStateView, e: SyncEventView, r: nat)
    requires
        batch_after(s, r),
        !(s.stage is FetchingBlocks),
    ensures
        batch_after(next(s, e).0, r),
{
}

proof fn lemma_batch_segment(
    s0: SyncStateView,
    a0: SyncActionView,
    es: Seq<SyncEventView>,
    i: int,
    k: int,
    r: nat,
)
    requires
        coherent(s0, a0),
        0 <= i < k <= es.len(),
        batch_after(run(s0, a0, es.take(i + 1)).0, r),
        forall|m: int| i < m < k ==> !(#[trigger] run(s0, a0, es.take(m)).1 is FetchBlocks),
    ensures
        batch_after(run(s0, a0, es.take(k)).0, r),
    decreases k - i,
{
    if k > i + 1 {
        lemma_batch_segment(s0, a0, es, i, k - 1, r);
        let m = k - 1;
        assert(!(run(s0, a0, es.take(m)).1 is FetchBlocks));
        lemma_run_coherent(s0, a0, es.take(m));
        lemma_run_prefix(s0, a0, es, m);
        lemma_batch_step(run(s0, a0, es.take(m)).0, es[m], r);
    }
}

/// From genesis, listing makes progress. Given that each listing holds only
/// blocks at or after the nonce asked for, of two successive listings the
/// second never starts before the first: it starts from the same nonce
/// after a failed listing and strictly later after a non-empty one.
pub proof fn law_listing_nonce_progresses(shard: u32, genesis_nonce: u64, es: Seq<SyncEventView>, i: int, j: int)
    requires
        answered(initial(shard, true, genesis_nonce).0, initial(shard, true, genesis_nonce).1, es),
        pages_from_requests(initial(shard, true, genesis_nonce).0, initial(shard, true, genesis_nonce).1, es),
        0 <= i < j <= es.len(),
        run(initial(shard, true, genesis_nonce).0, initial(shard, true, genesis_nonce).1, es.take(i)).1 is FetchBlocks,
        run(initial(shard, true, genesis_nonce).0, initial(shard, true, genesis_nonce).1, es.take(j)).1 is FetchBlocks,
        forall|k: int|
            i < k < j ==> !(#[trigger] run(
                initial(shard, true, genesis_nonce).0,
                initial(shard, true, genesis_nonce).1,
                es.take(k),
            ).1 is FetchBlocks),
    ensures
        ({
            let (s0, a0) = initial(shard, true, genesis_nonce);
            let first = nonce_or_zero(run(s0, a0, es.take(i)).1->from_nonce);
            let second = nonce_or_zero(run(s0, a0, es.take(j)).1->from_nonce);
            &&& first <= second
            &&& es[i] is BlocksFailed ==> second == first
            &&& (es[i] matches SyncEventView::BlocksFetched(bs) ==> (bs.len() > 0 ==> second > first))
        }),
{
    let (s0, a0) = initial(shard, true, genesis_nonce);
    let si = run(s0, a0, es.take(i)).0;
    let ai = run(s0, a0, es.take(i)).1;
    lemma_run_coherent(s0, a0, es.take(i));
    lemma_run_coherent(s0, a0, es.take(j));
    lemma_answered_prefix(s0, a0, es, i);
    lemma_run_prefix(s0, a0, es, i);
    // the pending listing asks from the cursor
    if i == 0 {
        assert(es.take(0) =~= Seq::<SyncEventView>::empty());
    } else {
        lemma_run_coherent(s0, a0, es.take(i - 1));
        lemma_run_prefix(s0, a0, es, i - 1);
    }
    assert(nonce_or_zero(ai->from_nonce) == si.cursor);
    let r = si.cursor as nat;
    let e = es[i];
    let (t, b) = next(si, e);
    assert(run(s0, a0, es.take(i + 1)) == (t, b));
    if j > i + 1 {
        // the step after the listing is not a listing: the batch goes on
        assert(!(run(s0, a0, es.take(i + 1)).1 is FetchBlocks));
        lemma_answered_prefix(s0, a0, es, i + 1);
        assert(answers(b, es[i + 1]));
        if let SyncEventView::BlocksFetched(bs) = e {
            lemma_shard_blocks_from(bs, shard, r);
            assert(batch_after(t, r));
        }
        lemma_batch_segment(s0, a0, es, i, j, r);
    } else {
        assert(es.take(j) =~= es.take(i + 1));
    }
    lemma_run_coherent(s0, a0, es.take(j));
    if j > 0 {
        lemma_run_coherent(s0, a0, es.take(j - 1));
        lemma_run_prefix(s0, a0, es, j - 1);
    }
}

/// The transaction rows gathered once a step has answered a read of a
/// block's transactions: those kept in the next state, or those handed to
/// be written.
pub open spec fn gathered_rows(r: (SyncStateView, SyncActionView)) -> Seq<TransactionRowView> {
    match r.1 {
        SyncActionView::StoreTransactions { rows } => rows,
        _ => match r.0.stage {
            StageView::FetchingTransactions { blocks, at, rows } => rows,
            _ => Seq::empty(),
        },
    }
}

/// Each transaction read for a block of the batch adds one row, in order,
/// after the rows gathered before; the row holds the transaction's own
/// hash, parties, value text, status, gas figures and nonce, the amount and
/// kind that its value and type give, and the block's hash, nonce and
/// timestamp with the synchronised shard. A failed read adds no row.
pub proof fn law_transaction_rows_come_from_fetched_transactions(s: SyncStateView, txs: Seq<ApiTransaction>)
    requires
        wf(s),
        s.stage is FetchingTransactions,
    ensures
        s.stage matches StageView::FetchingTransactions { blocks, at, rows } ==> {
            let block = blocks[at as int];
            let out = gathered_rows(next(s, SyncEventView::TransactionsFetched(txs)));
            &&& gathered_rows(next(s, SyncEventView::TransactionsFailed)) == rows
            &&& out.len() == rows.len() + txs.len()
            &&& out.subrange(0, rows.len() as int) == rows
            &&& forall|i: int|
                #![trigger txs[i]]
                0 <= i < txs.len() ==> {
                    let row = out[rows.len() + i];
                    let tx = txs[i];
                    &&& row.tx_hash == tx.tx_hash@
                    &&& row.sender == tx.sender@
                    &&& row.receiver == tx.receiver@
                    &&& row.value_raw == tx.value@
                    &&& row.status == tx.status@
                    &&& row.gas_used == tx.gas_used
                    &&& row.gas_price == tx.gas_price
                    &&& row.gas_limit == tx.gas_limit
                    &&& row.nonce == tx.nonce
                    &&& row.value_units == if tx.value@.len() == 0 {
                        Some(0u128)
                    } else {
                        parse_u128_spec(tx.value@)
                    }
                    &&& row.tx_type == kind_of(tx.tx_type@, opt_text(tx.data), tx.value@)
                    &&& row.block_hash == block.hash@
                    &&& row.block_nonce == block.nonce
                    &&& row.timestamp == block.timestamp
                    &&& row.shard == s.shard
                }
        },
{
    if let StageView::FetchingTransactions { blocks, at, rows } = s.stage {
        let added = block_transaction_rows(txs, blocks[at as int], s.shard);
        let out = rows + added;
        assert(out.subrange(0, rows.len() as int) =~= rows);
        assert forall|i: int| #![trigger txs[i]] 0 <= i < txs.len() implies out[rows.len() + i] == added[i] by {}
    }
}

/// The shard's blocks of a listing: none of an empty listing, and one more
/// block is kept at the end exactly when it belongs to the shard.
pub proof fn law_shard_blocks_by_block(bs: Seq<ApiBlock>, b: ApiBlock, shard: u32)
    ensures
        shard_blocks(Seq::empty(), shard) == Seq::<ApiBlock>::empty(),
        shard_blocks(bs.push(b), shard) == if b.shard == shard {
            shard_blocks(bs, shard).push(b)
        } else {
            shard_blocks(bs, shard)
        },
{
    reveal(Seq::filter);
    assert(bs.push(b).drop_last() =~= bs);
    assert(Seq::<ApiBlock>::empty().filter(|x: ApiBlock| x.shard == shard) =~= Seq::<ApiBlock>::empty());
}

/// The blocks of a batch are visited in order: after the block rows are
/// written, the transactions asked for first are those of the first block
/// that holds some; after a block's transactions are read (or failed), those
/// of the next block after it that holds some; every block passed over
/// holds none, and when no block is left that holds some, the gathered rows
/// are written.
pub proof fn law_batch_visits_blocks_in_order(s: SyncStateView, e: SyncEventView)
    requires
        wf(s),
        s.stage is StoringBlocks && e is BlocksStored || s.stage is FetchingTransactions && (
        e is TransactionsFetched || e is TransactionsFailed),
    ensures
        ({
            let (blocks, from) = match s.stage {
                StageView::StoringBlocks { blocks } => (blocks, 0int),
                StageView::FetchingTransactions { blocks, at, rows } => (blocks, at + 1int),
                _ => (Seq::empty(), 0int),
            };
            let (t, a) = next(s, e);
            &&& a is FetchTransactions || a is StoreTransactions
            &&& a is FetchTransactions ==> (t.stage matches StageView::FetchingTransactions { blocks: b2, at: j, rows }
                && b2 == blocks && from <= j < blocks.len() && blocks[j as int].tx_count != 0 && (forall|k: int|
                from <= k < j ==> (#[trigger] blocks[k]).tx_count == 0))
            &&& a is StoreTransactions ==> t.stage == StageView::StoringTransactions {
                last_nonce: blocks.last().nonce,
            } && (forall|k: int| from <= k < blocks.len() ==> (#[trigger] blocks[k]).tx_count == 0)
        }),
{
    match s.stage {
        StageView::StoringBlocks { blocks } => {
            lemma_next_with_transactions_skips(blocks, 0);
        },
        StageView::FetchingTransactions { blocks, at, rows } => {
            lemma_next_with_transactions_skips(blocks, at + 1);
        },
        _ => {},
    }
}

proof fn lemma_next_with_transactions_skips(blocks: Seq<ApiBlock>, from: nat)
    ensures
        match next_with_transactions(blocks, from) {
            Some(j) => from <= j < blocks.len() && blocks[j as int].tx_count != 0 && forall|k: int|
                from <= k < j ==> (#[trigger] blocks[k]).tx_count == 0,
            None => forall|k: int| from <= k < blocks.len() ==> (#[trigger] blocks[k]).tx_count == 0,
        },
    decreases blocks.len() - from,
{
    if from < blocks.len() && blocks[from as int].tx_count == 0 {
        lemma_next_with_transactions_skips(blocks, from + 1);
    }
}

/// The pauses: a failed listing is asked for again after 5 seconds;
/// following the latest blocks, the next listing after a batch waits 6
/// seconds; from genesis it follows at once.
pub proof fn law_pauses(s: SyncStateView, ok: bool)
    ensures
        s.stage is FetchingBlocks ==> (next(s, SyncEventView::BlocksFailed).1 matches SyncActionView::FetchBlocks {
            from_nonce,
            delay_secs,
        } && delay_secs == 5),
        s.stage is SavingCheckpoint ==> (next(s, SyncEventView::CheckpointSaved { ok }).1 matches SyncActionView::FetchBlocks {
            from_nonce,
            delay_secs,
        } && delay_secs == if s.from_genesis {
            0u64
        } else {
            6u64
        }),
{
}

} // verus!
