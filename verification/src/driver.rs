//! A whole run in one call, for a driver that can answer a lookup on the spot.

use crate::account::{RawAccount, RawAccountView};
use crate::aggregator::{raw_views, Action, Aggregator, PipelineConfig, RunOutput};
use crate::market::{lookup_outcome, request_url_text, snapshot_or_zero, LookupReply};
use crate::pipeline::{accounts_of, lemma_advanced_wf, lemma_resolved_wf};
use crate::record::{log_text, record_views, EnrichedTokenRecordView};
use crate::selection::decoded_accounts;
use vstd::prelude::*;

verus! {

/// The market data of `record` are those of a reply that `ask` gave for the
/// record's mint, asked at the address that belongs to it under `base`.
pub open spec fn answered_by<F: Fn(&str, &str) -> LookupReply>(
    ask: F,
    base: Seq<char>,
    record: EnrichedTokenRecordView,
) -> bool {
    exists|mint: &str, url: &str, reply: LookupReply|
        {
            &&& mint@ == record.account.mint
            &&& url@ == request_url_text(base, record.account.mint)
            &&& #[trigger] ask.ensures((mint, url), reply)
            &&& record.market == snapshot_or_zero(lookup_outcome(reply))
        }
}

/// Runs the pipeline over `raw_accounts`, one account at a time and in their
/// order: decodes the account, skips it where that fails, asks `ask` for the
/// market data of its mint, and puts out the record and its block.
///
/// The records are those of the accounts that decode, in their order; the
/// market data of each come from one reply of `ask` for its mint, all zero
/// where that lookup failed; the log holds the records' blocks.
pub fn run<F: Fn(&str, &str) -> LookupReply>(
    config: &PipelineConfig,
    raw_accounts: Vec<RawAccount>,
    ask: F,
) -> (output: RunOutput)
    requires
        forall|mint: &str, url: &str|
            url@ == request_url_text(config@.market_base_url, mint@) ==> #[trigger] ask.requires(
                (mint, url),
            ),
    ensures
        accounts_of(record_views(output.records@)) == decoded_accounts(raw_views(raw_accounts@)),
        forall|i: int|
            0 <= i < output.records@.len() ==> answered_by(
                ask,
                config@.market_base_url,
                #[trigger] record_views(output.records@)[i],
            ),
        output.log@ == log_text(record_views(output.records@)),
{
    let ghost inputs: Seq<RawAccountView> = raw_views(raw_accounts@);
    let ghost base: Seq<char> = config@.market_base_url;
    let mut agg: Aggregator = Aggregator::new(config, raw_accounts);
    loop
        invariant
            agg@.wf(),
            agg@.inputs == inputs,
            agg@.market_base_url == base,
            agg@.awaiting is None,
            forall|mint: &str, url: &str|
                url@ == request_url_text(base, mint@) ==> #[trigger] ask.requires((mint, url)),
            forall|i: int|
                0 <= i < agg@.records.len() ==> answered_by(ask, base, #[trigger] agg@.records[i]),
            base == config@.market_base_url,
            inputs == raw_views(raw_accounts@),
        decreases agg@.inputs.len() - agg@.cursor,
    {
        let ghost before = agg@;
        proof {
            lemma_advanced_wf(before);
        }
        let (next, action) = agg.advance();
        match action {
            Action::Finished => {
                let output = next.finish();
                return output;
            },
            Action::Lookup { mint, url } => {
                let mint_text: &str = mint.as_str();
                let url_text: &str = url.as_str();
                let reply: LookupReply = ask(mint_text, url_text);
                proof {
                    lemma_resolved_wf(next@, reply);
                }
                let ghost asked = next@;
                agg = next.resolve(reply);
                proof {
                    assert(agg@.records == asked.records.push(agg@.records.last()));
                    assert(answered_by(ask, base, agg@.records.last())) by {
                        assert(ask.ensures((mint_text, url_text), reply));
                    }
                }
            },
        }
    }
}

} // verus!
