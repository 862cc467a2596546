//! The aggregator: drives the pipeline over the raw accounts of one run and
//! gathers the enriched records and the log buffer.

use crate::account::{decode, DecodedTokenAccount, RawAccount, RawAccountView};
use crate::market::{lookup, request_url, request_url_text, LookupReply, MarketSnapshot};
use crate::pipeline::{
    accounts_of, initial, lemma_advanced_wf, lemma_finished_output, lemma_initial_wf,
    lemma_next_decodable, lemma_resolved_wf, next_decodable, PipelineAction, PipelineState,
};
use crate::record::{log_text, record_views, EnrichedTokenRecord};
use crate::selection::decoded_accounts;
use vstd::prelude::*;
use vstd::string::*;

verus! {

/// Where the pipeline finds its collaborators.
#[derive(Clone, Debug, PartialEq, Eq)]
pub struct PipelineConfig {
    /// Endpoint of the ledger's query service.
    pub ledger_endpoint: String,
    /// Identifier of the token program whose accounts are enumerated.
    pub token_program_id: String,
    /// Root of the market-data service.
    pub market_base_url: String,
}

/// A configuration as plain values.
pub struct PipelineConfigView {
    pub ledger_endpoint: Seq<char>,
    pub token_program_id: Seq<char>,
    pub market_base_url: Seq<char>,
}

impl View for PipelineConfig {
    type V = PipelineConfigView;

    open spec fn view(&self) -> PipelineConfigView {
        PipelineConfigView {
            ledger_endpoint: self.ledger_endpoint@,
            token_program_id: self.token_program_id@,
            market_base_url: self.market_base_url@,
        }
    }
}

/// The configuration of the public main network and the public price index.
pub open spec fn default_config() -> PipelineConfigView {
    PipelineConfigView {
        ledger_endpoint: "https://api.mainnet-beta.solana.com"@,
        token_program_id: "TokenkegQfeZyiNwAJbNbGKPFXCWuBvf9Ss623VQ5DA"@,
        market_base_url: "https://api.coingecko.com/api/v3"@,
    }
}

impl Default for PipelineConfig {
    fn default() -> (config: PipelineConfig)
        ensures
            config@ == default_config(),
    {
        PipelineConfig {
            ledger_endpoint: String::from_str("https://api.mainnet-beta.solana.com"),
            token_program_id: String::from_str("TokenkegQfeZyiNwAJbNbGKPFXCWuBvf9Ss623VQ5DA"),
            market_base_url: String::from_str("https://api.coingecko.com/api/v3"),
        }
    }
}

/// What the aggregator asks of its driver.
#[derive(Clone, Debug, PartialEq, Eq)]
pub enum Action {
    /// Ask the market-data service about `mint` at `url`, then hand the
    /// reply to `resolve`.
    Lookup { mint: String, url: String },
    /// Every raw account has been consumed.
    Finished,
}

impl View for Action {
    type V = PipelineAction;

    open spec fn view(&self) -> PipelineAction {
        match self {
            Action::Lookup { mint, url } => PipelineAction::Lookup { mint: mint@, url: url@ },
            Action::Finished => PipelineAction::Finished,
        }
    }
}

/// What a run leaves: the records in the order of their accounts, and the log
/// buffer to append to the log sink.
#[derive(Clone, Debug, PartialEq, Eq)]
pub struct RunOutput {
    pub records: Vec<EnrichedTokenRecord>,
    pub log: String,
}

/// The views of the raw accounts of a sequence, in its order.
pub open spec fn raw_views(raws: Seq<RawAccount>) -> Seq<RawAccountView> {
    raws.map_values(|raw: RawAccount| raw@)
}

/// The state of one run over a fixed sequence of raw accounts.
pub struct Aggregator {
    market_base_url: String,
    inputs: Vec<RawAccount>,
    cursor: usize,
    awaiting: Option<DecodedTokenAccount>,
    records: Vec<EnrichedTokenRecord>,
    log: String,
}

impl View for Aggregator {
    type V = PipelineState;

    closed spec fn view(&self) -> PipelineState {
        PipelineState {
            market_base_url: self.market_base_url@,
            inputs: raw_views(self.inputs@),
            cursor: self.cursor as nat,
            awaiting: match self.awaiting {
                Some(account) => Some(account@),
                None => None,
            },
            records: record_views(self.records@),
            log: self.log@,
        }
    }
}

fn lookup_action(market_base_url: &String, account: &DecodedTokenAccount) -> (action: Action)
    ensures
        action@ == (PipelineAction::Lookup {
            mint: account@.mint,
            url: request_url_text(market_base_url@, account@.mint),
        }),
{
    Action::Lookup {
        mint: account.mint.clone(),
        url: request_url(market_base_url.as_str(), account.mint.as_str()),
    }
}

impl Aggregator {
    #[verifier::type_invariant]
    closed spec fn inv(&self) -> bool {
        self@.wf()
    }

    /// Starts a run over `raw_accounts`, with nothing consumed yet.
    pub fn new(config: &PipelineConfig, raw_accounts: Vec<RawAccount>) -> (agg: Aggregator)
        ensures
            agg@ == initial(config@.market_base_url, raw_views(raw_accounts@)),
            agg@.wf(),
    {
        proof {
            lemma_initial_wf(config@.market_base_url, raw_views(raw_accounts@));
        }
        let agg = Aggregator {
            market_base_url: config.market_base_url.clone(),
            inputs: raw_accounts,
            cursor: 0,
            awaiting: None,
            records: Vec::new(),
            log: String::new(),
        };
        assert(agg@.records =~= Seq::empty());
        agg
    }

    /// Tells whether every raw account has been consumed and no lookup is
    /// outstanding.
    pub fn is_finished(&self) -> (done: bool)
        ensures
            done == self@.finished(),
    {
        proof {
            use_type_invariant(self);
        }
        self.cursor == self.inputs.len() && self.awaiting.is_none()
    }

    /// The records put out so far, in the order of their accounts.
    pub fn records(&self) -> (records: &Vec<EnrichedTokenRecord>)
        ensures
            record_views(records@) == self@.records,
    {
        &self.records
    }

    /// The log buffer so far: one block for each record put out.
    pub fn log(&self) -> (log: &String)
        ensures
            log@ == self@.log,
            log@ == log_text(self@.records),
    {
        proof {
            use_type_invariant(self);
        }
        &self.log
    }

    /// Moves to the next raw account that decodes, skipping those that do
    /// not, and says what to do: look up its mint, or stop when none is left.
    /// With a lookup outstanding, asks for that lookup again.
    pub fn advance(self) -> (next: (Aggregator, Action))
        ensures
            next.0@ == self@.advanced(),
            next.1@ == next.0@.action(),
            next.0@.wf(),
    {
        proof {
            use_type_invariant(&self);
            lemma_advanced_wf(self@);
            lemma_next_decodable(self@.inputs, self@.cursor);
        }
        let ghost before = self@;
        let Aggregator { market_base_url, inputs, cursor, awaiting, records, log } = self;
        match awaiting {
            Some(account) => {
                let action = lookup_action(&market_base_url, &account);
                let agg = Aggregator {
                    market_base_url,
                    inputs,
                    cursor,
                    awaiting: Some(account),
                    records,
                    log,
                };
                (agg, action)
            },
            None => {
                let n: usize = inputs.len();
                let mut i: usize = cursor;
                while i < n
                    invariant
                        cursor <= i <= n,
                        n == inputs.len(),
                        before.inputs == raw_views(inputs@),
                        next_decodable(before.inputs, cursor as nat) == next_decodable(
                            before.inputs,
                            i as nat,
                        ),
                        before.cursor == cursor,
                        before.awaiting is None,
                        before.market_base_url == market_base_url@,
                        before.records == record_views(records@),
                        before.log == log@,
                        before.advanced().wf(),
                        before == self@,
                    decreases n - i,
                {
                    match decode(&inputs[i]) {
                        Ok(account) => {
                            let action = lookup_action(&market_base_url, &account);
                            let agg = Aggregator {
                                market_base_url,
                                inputs,
                                cursor: i + 1,
                                awaiting: Some(account),
                                records,
                                log,
                            };
                            return (agg, action);
                        },
                        Err(_) => {
                            i = i + 1;
                        },
                    }
                }
                let agg = Aggregator {
                    market_base_url,
                    inputs,
                    cursor: n,
                    awaiting: None,
                    records,
                    log,
                };
                (agg, Action::Finished)
            },
        }
    }

    /// Takes in the reply to the outstanding lookup: appends the record of
    /// the account and its snapshot, all zero where the lookup failed, and
    /// appends the record's block to the log. With no lookup outstanding, the
    /// reply is dropped.
    pub fn resolve(self, reply: LookupReply) -> (next: Aggregator)
        ensures
            next@ == self@.resolved(reply),
            next@.wf(),
    {
        proof {
            use_type_invariant(&self);
            lemma_resolved_wf(self@, reply);
        }
        let ghost before = self@;
        let Aggregator { market_base_url, inputs, cursor, awaiting, mut records, mut log } = self;
        match awaiting {
            None => {
                Aggregator { market_base_url, inputs, cursor, awaiting: None, records, log }
            },
            Some(account) => {
                let snapshot = MarketSnapshot::or_zero(lookup(&reply));
                let record = EnrichedTokenRecord::merge(account, snapshot);
                let block: String = record.format_block();
                let ghost added = record@;
                log.append(block.as_str());
                records.push(record);
                proof {
                    assert(record_views(records@) =~= before.records.push(added));
                }
                Aggregator { market_base_url, inputs, cursor, awaiting: None, records, log }
            },
        }
    }

    /// Ends the run and hands out the records and the log buffer. Once the
    /// run is finished, the records are those of the raw accounts that
    /// decode, in their order, and the log holds one block for each.
    pub fn finish(self) -> (output: RunOutput)
        ensures
            record_views(output.records@) == self@.records,
            output.log@ == self@.log,
            output.log@ == log_text(record_views(output.records@)),
            self@.finished() ==> accounts_of(record_views(output.records@)) == decoded_accounts(
                self@.inputs,
            ),
    {
        proof {
            use_type_invariant(&self);
            if self@.finished() {
                lemma_finished_output(self@);
            }
        }
        let Aggregator { market_base_url: _, inputs: _, cursor: _, awaiting: _, records, log } =
            self;
        RunOutput { records, log }
    }
}

} // verus!
