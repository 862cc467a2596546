//! The aggregation pipeline as a transition system over plain values: which
//! accounts have been consumed, which lookup is outstanding, and what has
//! been put out so far.

use crate::account::{DecodedTokenAccountView, RawAccountView};
use crate::market::{lookup_outcome, request_url_text, snapshot_or_zero, LookupReply};
use crate::record::{block_text, log_text, merged, EnrichedTokenRecordView};
use crate::selection::{
    account_or_none, decodable, decoded_accounts, lemma_decoded_accounts_prefix,
    lemma_decoded_accounts_step,
};
use vstd::prelude::*;

verus! {

/// The state of a run.
pub struct PipelineState {
    /// Root of the market-data service.
    pub market_base_url: Seq<char>,
    /// The raw accounts, in the order in which the ledger returned them.
    pub inputs: Seq<RawAccountView>,
    /// How many of the inputs have been consumed.
    pub cursor: nat,
    /// The decoded account whose market data has been asked for, if any.
    pub awaiting: Option<DecodedTokenAccountView>,
    /// The records put out so far.
    pub records: Seq<EnrichedTokenRecordView>,
    /// The log buffer so far.
    pub log: Seq<char>,
}

/// What the pipeline asks of its driver.
pub enum PipelineAction {
    /// Ask the market-data service about `mint` at `url`, and hand in the reply.
    Lookup { mint: Seq<char>, url: Seq<char> },
    /// Every input has been consumed: take the records and the log.
    Finished,
}

/// The accounts of a sequence of records, in its order.
pub open spec fn accounts_of(records: Seq<EnrichedTokenRecordView>) -> Seq<
    DecodedTokenAccountView,
> {
    records.map_values(|record: EnrichedTokenRecordView| record.account)
}

/// The first index at or after `from` whose input decodes; the number of
/// inputs where there is none.
pub open spec fn next_decodable(inputs: Seq<RawAccountView>, from: nat) -> nat
    decreases inputs.len() - from,
{
    if from >= inputs.len() {
        inputs.len()
    } else if decodable(inputs[from as int]) is Some {
        from
    } else {
        next_decodable(inputs, from + 1)
    }
}

/// The state before anything has been consumed.
pub open spec fn initial(market_base_url: Seq<char>, inputs: Seq<RawAccountView>) -> PipelineState {
    PipelineState {
        market_base_url,
        inputs,
        cursor: 0,
        awaiting: None,
        records: Seq::empty(),
        log: Seq::empty(),
    }
}

impl PipelineState {
    /// What has been put out is what the consumed inputs give: the records
    /// and the outstanding account are the decoded accounts of the consumed
    /// inputs, and the log holds the records' blocks.
    pub open spec fn wf(self) -> bool {
        &&& self.cursor <= self.inputs.len()
        &&& accounts_of(self.records) + account_or_none(self.awaiting) == decoded_accounts(
            self.inputs.take(self.cursor as int),
        )
        &&& self.log == log_text(self.records)
    }

    /// Every input has been consumed and no lookup is outstanding.
    pub open spec fn finished(self) -> bool {
        self.cursor == self.inputs.len() && self.awaiting is None
    }

    /// Moves to the next account that decodes, skipping those that do not.
    /// With a lookup outstanding, nothing moves.
    pub open spec fn advanced(self) -> PipelineState {
        if self.awaiting is Some {
            self
        } else {
            let i = next_decodable(self.inputs, self.cursor);
            if i < self.inputs.len() {
                PipelineState {
                    cursor: i + 1,
                    awaiting: decodable(self.inputs[i as int]),
                    ..self
                }
            } else {
                PipelineState { cursor: self.inputs.len(), ..self }
            }
        }
    }

    /// What to do in this state.
    pub open spec fn action(self) -> PipelineAction {
        match self.awaiting {
            Some(account) => PipelineAction::Lookup {
                mint: account.mint,
                url: request_url_text(self.market_base_url, account.mint),
            },
            None => PipelineAction::Finished,
        }
    }

    /// Takes in the reply to the outstanding lookup: the account and its
    /// snapshot, all zero where the lookup failed, become the next record, and
    /// the record's block is appended to the log. With no lookup outstanding,
    /// the reply is dropped.
    pub open spec fn resolved(self, reply: LookupReply) -> PipelineState {
        match self.awaiting {
            None => self,
            Some(account) => {
                let record = merged(account, snapshot_or_zero(lookup_outcome(reply)));
                PipelineState {
                    awaiting: None,
                    records: self.records.push(record),
                    log: self.log + block_text(record),
                    ..self
                }
            },
        }
    }
}

/// Between `from` and the next input that decodes, none decodes.
pub proof fn lemma_next_decodable(inputs: Seq<RawAccountView>, from: nat)
    requires
        from <= inputs.len(),
    ensures
        from <= next_decodable(inputs, from) <= inputs.len(),
        next_decodable(inputs, from) < inputs.len() ==> decodable(
            inputs[next_decodable(inputs, from) as int],
        ) is Some,
        forall|j: int| from <= j < next_decodable(inputs, from) ==> decodable(#[trigger] inputs[j])
            is None,
        decoded_accounts(inputs.take(next_decodable(inputs, from) as int)) == decoded_accounts(
            inputs.take(from as int),
        ),
    decreases inputs.len() - from,
{
    if from < inputs.len() && decodable(inputs[from as int]) is None {
        lemma_next_decodable(inputs, from + 1);
        lemma_decoded_accounts_step(inputs, from as int);
    }
}

/// The initial state is well-formed.
pub proof fn lemma_initial_wf(market_base_url: Seq<char>, inputs: Seq<RawAccountView>)
    ensures
        initial(market_base_url, inputs).wf(),
        initial(market_base_url, inputs).inputs == inputs,
{
}

/// Advancing keeps a state well-formed, keeps its inputs, records and log,
/// and ends either with a lookup outstanding or finished.
pub proof fn lemma_advanced_wf(s: PipelineState)
    requires
        s.wf(),
    ensures
        s.advanced().wf(),
        s.advanced().inputs == s.inputs,
        s.advanced().records == s.records,
        s.advanced().log == s.log,
        s.advanced().awaiting is Some || s.advanced().finished(),
        s.advanced().cursor >= s.cursor,
        s.awaiting is None && s.advanced().awaiting is Some ==> s.advanced().cursor > s.cursor,
{
    if s.awaiting is None {
        lemma_next_decodable(s.inputs, s.cursor);
        let i = next_decodable(s.inputs, s.cursor);
        if i < s.inputs.len() {
            lemma_decoded_accounts_step(s.inputs, i as int);
        }
    }
}

/// Taking in a reply keeps a state well-formed and keeps its inputs; with a
/// lookup outstanding, it adds exactly one record and one block.
pub proof fn lemma_resolved_wf(s: PipelineState, reply: LookupReply)
    requires
        s.wf(),
    ensures
        s.resolved(reply).wf(),
        s.resolved(reply).inputs == s.inputs,
        s.resolved(reply).awaiting is None,
        s.awaiting is Some ==> s.resolved(reply).records.len() == s.records.len() + 1,
{
    match s.awaiting {
        None => {},
        Some(account) => {
            let record = merged(account, snapshot_or_zero(lookup_outcome(reply)));
            let t = s.resolved(reply);
            assert(t.records.drop_last() =~= s.records);
            assert(accounts_of(t.records) + account_or_none(t.awaiting) =~= accounts_of(s.records)
                + account_or_none(s.awaiting));
        },
    }
}

/// At the end of a run the records are, in order, those of the inputs that
/// decode, one for each, and the log holds one block for each record, in the
/// records' order.
pub proof fn lemma_finished_output(s: PipelineState)
    requires
        s.wf(),
        s.finished(),
    ensures
        accounts_of(s.records) == decoded_accounts(s.inputs),
        s.records.len() == decoded_accounts(s.inputs).len(),
        s.log == log_text(s.records),
{
    assert(s.inputs.take(s.cursor as int) =~= s.inputs);
}

/// The state after taking in `replies`, one for each lookup in turn: before
/// each, the pipeline advances to the account that the reply is for.
pub open spec fn fed(start: PipelineState, replies: Seq<LookupReply>) -> PipelineState
    decreases replies.len(),
{
    if replies.len() == 0 {
        start
    } else {
        fed(start, replies.drop_last()).advanced().resolved(replies.last())
    }
}

/// The records of `accounts` where the lookup for account number `i` was
/// answered by reply number `i`.
pub open spec fn enriched(
    accounts: Seq<DecodedTokenAccountView>,
    replies: Seq<LookupReply>,
) -> Seq<EnrichedTokenRecordView> {
    Seq::new(
        accounts.len(),
        |i: int| merged(accounts[i], snapshot_or_zero(lookup_outcome(replies[i]))),
    )
}

/// After as many replies as lookups were asked for, the records are those of
/// the first accounts that decode, each with the snapshot of its own reply.
pub proof fn lemma_fed(
    market_base_url: Seq<char>,
    inputs: Seq<RawAccountView>,
    replies: Seq<LookupReply>,
)
    requires
        replies.len() <= decoded_accounts(inputs).len(),
    ensures
        fed(initial(market_base_url, inputs), replies).wf(),
        fed(initial(market_base_url, inputs), replies).inputs == inputs,
        fed(initial(market_base_url, inputs), replies).market_base_url == market_base_url,
        fed(initial(market_base_url, inputs), replies).awaiting is None,
        fed(initial(market_base_url, inputs), replies).records == enriched(
            decoded_accounts(inputs).take(replies.len() as int),
            replies,
        ),
    decreases replies.len(),
{
    let all = decoded_accounts(inputs);
    let start = initial(market_base_url, inputs);
    if replies.len() == 0 {
        lemma_initial_wf(market_base_url, inputs);
        assert(start.records =~= enriched(all.take(0), replies));
    } else {
        let k = replies.len() as int;
        let earlier = replies.drop_last();
        lemma_fed(market_base_url, inputs, earlier);
        let s = fed(start, earlier);
        lemma_advanced_wf(s);
        let a = s.advanced();
        assert(accounts_of(s.records) =~= all.take(k - 1));
        if a.awaiting is None {
            lemma_finished_output(a);
        }
        let account = a.awaiting->0;
        lemma_resolved_wf(a, replies.last());
        lemma_decoded_accounts_prefix(inputs, a.cursor as int);
        let consumed = decoded_accounts(inputs.take(a.cursor as int));
        assert(consumed.len() == k);
        assert(consumed[k - 1] == account);
        assert(a.resolved(replies.last()).records =~= enriched(all.take(k), replies));
    }
}

/// A whole run, with reply number `i` given to the lookup for the account
/// number `i` among those that decode: the run ends finished, each record is
/// that of its account and of its own reply, whatever the other replies were,
/// and the log holds the records' blocks.
pub proof fn lemma_run_output(
    market_base_url: Seq<char>,
    inputs: Seq<RawAccountView>,
    replies: Seq<LookupReply>,
)
    requires
        replies.len() == decoded_accounts(inputs).len(),
    ensures
        fed(initial(market_base_url, inputs), replies).advanced().finished(),
        fed(initial(market_base_url, inputs), replies).advanced().records == enriched(
            decoded_accounts(inputs),
            replies,
        ),
        fed(initial(market_base_url, inputs), replies).advanced().log == log_text(
            enriched(decoded_accounts(inputs), replies),
        ),
{
    let all = decoded_accounts(inputs);
    lemma_fed(market_base_url, inputs, replies);
    let s = fed(initial(market_base_url, inputs), replies);
    lemma_advanced_wf(s);
    let a = s.advanced();
    assert(all.take(all.len() as int) =~= all);
    assert(accounts_of(s.records) =~= all);
    if a.awaiting is Some {
        lemma_decoded_accounts_prefix(inputs, a.cursor as int);
    }
}

} // verus!
