//! The watcher engine: the block cursor, the log queries it issues, and how
//! fetched logs are folded into the state.
use vstd::prelude::*;

use crate::events::{
    decode_priority_logs, decode_token_logs, priority_log_gives, priority_logs_decoded,
    token_log_gives, token_logs_decoded, PriorityOp, TokenAddedEvent,
};
use crate::pubdata::DecodeError;
use crate::state::{registry_after, ETHState};

verus! {

/// One end of a block range.
#[derive(Debug, Clone, Copy, PartialEq, Eq, Structural)]
pub enum BlockBound {
    /// The first block of the chain.
    Earliest,
    Number(u64),
}

/// A deployed contract and the topic of the one event read from it.
#[derive(Debug, Clone)]
pub struct ContractRef {
    pub address: Vec<u8>,
    pub event_topic: Vec<u8>,
}

/// A log query: the logs of `address` whose first topic is `topic`, in the
/// blocks from `from` to `to`, both included.
#[derive(Debug, Clone)]
pub struct LogQuery {
    pub address: Vec<u8>,
    pub topic: Vec<u8>,
    pub from: BlockBound,
    pub to: BlockBound,
}

/// Why an advance over new blocks did not happen.
#[derive(Debug, Clone, Copy, PartialEq, Eq, Structural)]
pub enum AdvanceError {
    /// The chain client failed to deliver the logs.
    ChainClient,
    /// A delivered log could not be decoded.
    Decode(DecodeError),
}

/// Logs that the chain client delivered for the two queries of one range.
pub struct FetchedLogs {
    /// Data of each `TokenAdded` log, in block order.
    pub token_logs: Vec<Vec<u8>>,
    /// Data of each `NewPriorityRequest` log, in block order.
    pub priority_logs: Vec<Vec<u8>>,
}

/// `q` asks for the event of `c` in the blocks from `from` to `to`.
pub open spec fn query_of(q: LogQuery, c: ContractRef, from: BlockBound, to: BlockBound) -> bool {
    &&& q.address@ == c.address@
    &&& q.topic@ == c.event_topic@
    &&& q.from == from
    &&& q.to == to
}

/// `after` is `before` with the events decoded from `fetched` folded in:
/// priority operations appended in order, registrations applied in order.
pub open spec fn folds_logs(before: ETHState, after: ETHState, fetched: FetchedLogs) -> bool {
    exists|ops: Seq<PriorityOp>, evs: Seq<TokenAddedEvent>|
        {
            &&& #[trigger] priority_logs_decoded(fetched.priority_logs@, ops)
            &&& #[trigger] token_logs_decoded(fetched.token_logs@, evs)
            &&& after.priority_queue@ == before.priority_queue@ + ops
            &&& after.registry_view() == registry_after(before.registry_view(), evs)
        }
}

/// One of the logs in `fetched` fails to decode with `e`.
pub open spec fn some_log_fails(fetched: FetchedLogs, e: DecodeError) -> bool {
    ||| exists|i: int|
        0 <= i < fetched.token_logs@.len() && token_log_gives(
            #[trigger] fetched.token_logs@[i]@,
            Err(e),
        )
    ||| exists|i: int|
        0 <= i < fetched.priority_logs@.len() && priority_log_gives(
            #[trigger] fetched.priority_logs@[i]@,
            Err(e),
        )
}

/// First block of the priority window of a catch-up at `block`.
pub open spec fn catch_up_start(block: u64, expiration: u64) -> u64 {
    if block >= expiration {
        (block - expiration) as u64
    } else {
        0
    }
}

/// The engine: the two contracts it reads and the highest block folded in.
pub struct EthWatch {
    main_contract: ContractRef,
    gov_contract: ContractRef,
    processed_block: u64,
}

impl EthWatch {
    /// The settlement contract, which emits `NewPriorityRequest`.
    pub closed spec fn main_contract_spec(&self) -> ContractRef {
        self.main_contract
    }

    /// The governance contract, which emits `TokenAdded`.
    pub closed spec fn gov_contract_spec(&self) -> ContractRef {
        self.gov_contract
    }

    /// The highest block already folded into the state.
    pub closed spec fn cursor(&self) -> u64 {
        self.processed_block
    }

    /// An engine over the two contracts, with nothing processed yet.
    pub fn new(main_contract: ContractRef, gov_contract: ContractRef) -> (r: EthWatch)
        ensures
            r.main_contract_spec() == main_contract,
            r.gov_contract_spec() == gov_contract,
            r.cursor() == 0,
    {
        EthWatch { main_contract, gov_contract, processed_block: 0 }
    }

    /// The highest block already folded into the state.
    pub fn processed_block(&self) -> (r: u64)
        ensures
            r == self.cursor(),
    {
        self.processed_block
    }

    fn make_query(c: &ContractRef, from: BlockBound, to: BlockBound) -> (r: LogQuery)
        ensures
            query_of(r, *c, from, to),
    {
        LogQuery { address: c.address.clone(), topic: c.event_topic.clone(), from, to }
    }

    /// The query for `TokenAdded` logs of the governance contract.
    pub fn get_new_token_event_filter(&self, from: BlockBound, to: BlockBound) -> (r: LogQuery)
        ensures
            query_of(r, self.gov_contract_spec(), from, to),
    {
        Self::make_query(&self.gov_contract, from, to)
    }

    /// The query for `NewPriorityRequest` logs of the settlement contract.
    pub fn get_priority_op_event_filter(&self, from: BlockBound, to: BlockBound) -> (r: LogQuery)
        ensures
            query_of(r, self.main_contract_spec(), from, to),
    {
        Self::make_query(&self.main_contract, from, to)
    }

    /// The queries of a catch-up at height `block`: priority requests over
    /// the last `expiration` blocks (from block zero where fewer came before),
    /// registrations over the whole history. Returned as (priority, token).
    pub fn catch_up_queries(&self, block: u64, expiration: u64) -> (r: (LogQuery, LogQuery))
        ensures
            query_of(
                r.0,
                self.main_contract_spec(),
                BlockBound::Number(catch_up_start(block, expiration)),
                BlockBound::Number(block),
            ),
            query_of(r.1, self.gov_contract_spec(), BlockBound::Earliest, BlockBound::Number(block)),
    {
        let start = block.saturating_sub(expiration);
        let p = self.get_priority_op_event_filter(BlockBound::Number(start), BlockBound::Number(block));
        let t = self.get_new_token_event_filter(BlockBound::Earliest, BlockBound::Number(block));
        (p, t)
    }

    /// The queries for the blocks after the cursor up to `last_block`.
    /// Returned as (priority, token).
    pub fn new_blocks_queries(&self, last_block: u64) -> (r: (LogQuery, LogQuery))
        requires
            self.cursor() < last_block,
        ensures
            query_of(
                r.0,
                self.main_contract_spec(),
                BlockBound::Number((self.cursor() + 1) as u64),
                BlockBound::Number(last_block),
            ),
            query_of(
                r.1,
                self.gov_contract_spec(),
                BlockBound::Number((self.cursor() + 1) as u64),
                BlockBound::Number(last_block),
            ),
    {
        let from = BlockBound::Number(self.processed_block + 1);
        let p = self.get_priority_op_event_filter(from, BlockBound::Number(last_block));
        let t = self.get_new_token_event_filter(from, BlockBound::Number(last_block));
        (p, t)
    }

    /// Decodes `fetched` and folds it into `state`; on a decode failure the
    /// state is left as it was.
    fn fold_fetched(state: &mut ETHState, fetched: &FetchedLogs) -> (r: Result<(), DecodeError>)
        ensures
            r is Ok ==> folds_logs(*old(state), *final(state), *fetched),
            r is Err ==> *final(state) == *old(state) && some_log_fails(*fetched, r->Err_0),
    {
        let ops = match decode_priority_logs(&fetched.priority_logs) {
            Ok(ops) => ops,
            Err(e) => {
                return Err(e);
            },
        };
        let evs = match decode_token_logs(&fetched.token_logs) {
            Ok(evs) => evs,
            Err(e) => {
                return Err(e);
            },
        };
        let ghost ops_seq = ops@;
        let ghost evs_seq = evs@;
        state.apply_events(ops, evs);
        assert(priority_logs_decoded(fetched.priority_logs@, ops_seq));
        assert(token_logs_decoded(fetched.token_logs@, evs_seq));
        Ok(())
    }

    /// Catch-up at height `block`, from the logs that the two queries of
    /// `catch_up_queries` delivered: the cursor moves to `block` and the
    /// events are folded into `state`. On a decode failure neither changes.
    pub fn restore_state_from_eth(&mut self, state: &mut ETHState, block: u64, fetched: &FetchedLogs) -> (r: Result<(), DecodeError>)
        ensures
            final(self).main_contract_spec() == old(self).main_contract_spec(),
            final(self).gov_contract_spec() == old(self).gov_contract_spec(),
            r is Ok ==> final(self).cursor() == block && folds_logs(*old(state), *final(state), *fetched),
            r is Err ==> final(self).cursor() == old(self).cursor() && *final(state) == *old(state)
                && some_log_fails(*fetched, r->Err_0),
    {
        let r = Self::fold_fetched(state, fetched);
        if r.is_ok() {
            self.processed_block = block;
        }
        r
    }

    /// Advances over the blocks after the cursor up to `last_block`, from what
    /// the chain client delivered for the two queries of `new_blocks_queries`
    /// (`None` where it failed). Only a complete success moves the cursor, to
    /// `last_block`; any failure leaves the cursor and the state unchanged.
    pub fn process_new_blocks(
        &mut self,
        state: &mut ETHState,
        last_block: u64,
        fetched: Option<FetchedLogs>,
    ) -> (r: Result<(), AdvanceError>)
        requires
            old(self).cursor() < last_block,
        ensures
            final(self).main_contract_spec() == old(self).main_contract_spec(),
            final(self).gov_contract_spec() == old(self).gov_contract_spec(),
            r is Ok ==> fetched is Some && final(self).cursor() == last_block && folds_logs(
                *old(state),
                *final(state),
                fetched->Some_0,
            ),
            r is Err ==> final(self).cursor() == old(self).cursor() && *final(state) == *old(state),
            r == Err::<(), AdvanceError>(AdvanceError::ChainClient) <==> fetched is None,
            r matches Err(AdvanceError::Decode(e)) ==> fetched is Some && some_log_fails(fetched->Some_0, e),
    {
        match fetched {
            None => Err(AdvanceError::ChainClient),
            Some(logs) => match Self::fold_fetched(state, &logs) {
                Ok(()) => {
                    self.processed_block = last_block;
                    Ok(())
                },
                Err(e) => Err(AdvanceError::Decode(e)),
            },
        }
    }

    /// The block to advance to on a poll tick that saw chain height `height`
    /// (`None` where the height query failed): the height, when it is past
    /// the cursor; otherwise nothing, and the tick is skipped.
    pub fn tick_target(&self, height: Option<u64>) -> (r: Option<u64>)
        ensures
            r matches Some(t) ==> height == Some(t) && t > self.cursor(),
            r is None ==> (height matches Some(h) ==> h <= self.cursor()),
    {
        match height {
            Some(h) => if h > self.processed_block {
                Some(h)
            } else {
                None
            },
            None => None,
        }
    }
}

} // verus!
