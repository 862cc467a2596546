//! Enriched records and the text block that the log holds for each.

use crate::account::{DecodedTokenAccount, DecodedTokenAccountView};
use crate::market::MarketSnapshot;
use crate::money::money_text;
use vstd::prelude::*;
use vstd::string::*;

verus! {

/// A token account together with the market data of its mint.
#[derive(Clone, Debug, PartialEq, Eq)]
pub struct EnrichedTokenRecord {
    pub account: DecodedTokenAccount,
    pub market: MarketSnapshot,
}

/// An enriched record as plain values.
pub struct EnrichedTokenRecordView {
    pub account: DecodedTokenAccountView,
    pub market: MarketSnapshot,
}

impl View for EnrichedTokenRecord {
    type V = EnrichedTokenRecordView;

    open spec fn view(&self) -> EnrichedTokenRecordView {
        EnrichedTokenRecordView { account: self.account@, market: self.market }
    }
}

/// The views of the records of a sequence, in its order.
pub open spec fn record_views(records: Seq<EnrichedTokenRecord>) -> Seq<EnrichedTokenRecordView> {
    records.map_values(|r: EnrichedTokenRecord| r@)
}

/// The record of an account and a snapshot.
pub open spec fn merged(
    account: DecodedTokenAccountView,
    market: MarketSnapshot,
) -> EnrichedTokenRecordView {
    EnrichedTokenRecordView { account, market }
}

/// The seven labelled lines of a record, as shown and as logged, without
/// their line ends.
pub open spec fn label_lines(record: EnrichedTokenRecordView) -> Seq<Seq<char>> {
    seq![
        "Token Account Pubkey: "@ + record.account.address,
        "Mint: "@ + record.account.mint,
        "Owner: "@ + record.account.owner,
        "Amount: "@ + record.account.amount,
        "Price: $"@ + money_text(record.market.price_usd.hundredths),
        "Market Cap: $"@ + money_text(record.market.market_cap_usd.hundredths),
        "24h Volume: $"@ + money_text(record.market.volume_24h_usd.hundredths),
    ]
}

/// The block of a record: its seven labelled lines and a separator line, each
/// ended by a line feed.
pub open spec fn block_text(record: EnrichedTokenRecordView) -> Seq<char> {
    let lines = label_lines(record);
    lines[0] + "\n"@ + lines[1] + "\n"@ + lines[2] + "\n"@ + lines[3] + "\n"@ + lines[4] + "\n"@
        + lines[5] + "\n"@ + lines[6] + "\n"@ + "====================\n"@
}

/// The log of a sequence of records: their blocks, one after the other.
pub open spec fn log_text(records: Seq<EnrichedTokenRecordView>) -> Seq<char>
    decreases records.len(),
{
    if records.len() == 0 {
        Seq::empty()
    } else {
        log_text(records.drop_last()) + block_text(records.last())
    }
}

/// The log of two runs of records, one after the other, is the log of the
/// first followed by the log of the second.
pub proof fn lemma_log_text_concat(
    first: Seq<EnrichedTokenRecordView>,
    second: Seq<EnrichedTokenRecordView>,
)
    ensures
        log_text(first + second) == log_text(first) + log_text(second),
    decreases second.len(),
{
    if second.len() > 0 {
        lemma_log_text_concat(first, second.drop_last());
        assert((first + second).drop_last() =~= first + second.drop_last());
    }
}

impl EnrichedTokenRecord {
    /// Merges a decoded account and the snapshot of its mint.
    pub fn merge(account: DecodedTokenAccount, market: MarketSnapshot) -> (record:
        EnrichedTokenRecord)
        ensures
            record@ == merged(account@, market),
    {
        EnrichedTokenRecord { account, market }
    }

    /// The seven labelled lines of this record, for showing it.
    pub fn labels(&self) -> (lines: Vec<String>)
        ensures
            lines@.len() == 7,
            lines@.map_values(|line: String| line@) == label_lines(self@),
    {
        let mut lines: Vec<String> = Vec::new();
        lines.push(labelled("Token Account Pubkey: ", self.account.address.as_str()));
        lines.push(labelled("Mint: ", self.account.mint.as_str()));
        lines.push(labelled("Owner: ", self.account.owner.as_str()));
        lines.push(labelled("Amount: ", self.account.amount.as_str()));
        lines.push(labelled("Price: $", self.market.price_usd.to_text().as_str()));
        lines.push(labelled("Market Cap: $", self.market.market_cap_usd.to_text().as_str()));
        lines.push(labelled("24h Volume: $", self.market.volume_24h_usd.to_text().as_str()));
        lines
    }

    /// Formats the block that the log holds for this record.
    pub fn format_block(&self) -> (block: String)
        ensures
            block@ == block_text(self@),
    {
        let lines: Vec<String> = self.labels();
        let mut block: String = String::new();
        block.append(lines[0].as_str());
        block.append("\n");
        block.append(lines[1].as_str());
        block.append("\n");
        block.append(lines[2].as_str());
        block.append("\n");
        block.append(lines[3].as_str());
        block.append("\n");
        block.append(lines[4].as_str());
        block.append("\n");
        block.append(lines[5].as_str());
        block.append("\n");
        block.append(lines[6].as_str());
        block.append("\n");
        block.append("====================\n");
        block
    }
}

fn labelled(label: &str, value: &str) -> (line: String)
    ensures
        line@ == label@ + value@,
{
    let mut line: String = String::from_str(label);
    line.append(value);
    line
}

} // verus!
