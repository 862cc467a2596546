//! Which raw accounts enter the output: those that decode, in the order in
//! which the ledger returned them.

use crate::account::{decoded, DecodeError, DecodedTokenAccountView, RawAccountView};
use vstd::prelude::*;

verus! {

/// The decoded account of a raw account, where it has one.
pub open spec fn decodable(raw: RawAccountView) -> Option<DecodedTokenAccountView> {
    match decoded(raw) {
        Ok(account) => Some(account),
        Err(_) => None,
    }
}

/// The decoded accounts of the inputs that decode, in the inputs' order.
pub open spec fn decoded_accounts(inputs: Seq<RawAccountView>) -> Seq<DecodedTokenAccountView> {
    inputs.filter_map(|raw: RawAccountView| decodable(raw))
}

/// An account as a sequence of one, none as the empty sequence.
pub open spec fn account_or_none(account: Option<DecodedTokenAccountView>) -> Seq<
    DecodedTokenAccountView,
> {
    match account {
        Some(account) => seq![account],
        None => Seq::empty(),
    }
}

/// Consuming one more input adds its decoded account, if it has one.
pub proof fn lemma_decoded_accounts_step(inputs: Seq<RawAccountView>, k: int)
    requires
        0 <= k < inputs.len(),
    ensures
        decoded_accounts(inputs.take(k + 1)) == decoded_accounts(inputs.take(k)) + account_or_none(
            decodable(inputs[k]),
        ),
{
    assert(inputs.take(k + 1).drop_last() =~= inputs.take(k));
}

/// The decoded accounts of two runs of inputs, one after the other, are those
/// of the first followed by those of the second.
pub proof fn lemma_decoded_accounts_concat(first: Seq<RawAccountView>, second: Seq<RawAccountView>)
    ensures
        decoded_accounts(first + second) == decoded_accounts(first) + decoded_accounts(second),
    decreases second.len(),
{
    if second.len() > 0 {
        lemma_decoded_accounts_concat(first, second.drop_last());
        assert((first + second).drop_last() =~= first + second.drop_last());
    }
}

/// The decoded accounts of the first `k` inputs open the decoded accounts of
/// all inputs.
pub proof fn lemma_decoded_accounts_prefix(inputs: Seq<RawAccountView>, k: int)
    requires
        0 <= k <= inputs.len(),
    ensures
        decoded_accounts(inputs.take(k)).len() <= decoded_accounts(inputs).len(),
        decoded_accounts(inputs.take(k)) == decoded_accounts(inputs).take(
            decoded_accounts(inputs.take(k)).len() as int,
        ),
{
    lemma_decoded_accounts_concat(inputs.take(k), inputs.skip(k));
    assert(inputs.take(k) + inputs.skip(k) =~= inputs);
}

/// There are as many decoded accounts as inputs that decode, and so no more
/// than inputs.
pub proof fn lemma_decoded_accounts_len(inputs: Seq<RawAccountView>)
    ensures
        decoded_accounts(inputs).len() == inputs.filter(
            |raw: RawAccountView| decoded(raw) is Ok,
        ).len(),
        decoded_accounts(inputs).len() <= inputs.len(),
    decreases inputs.len(),
{
    reveal(Seq::filter);
    if inputs.len() > 0 {
        lemma_decoded_accounts_len(inputs.drop_last());
    }
}

/// An input that does not decode contributes nothing: with it or without it,
/// the decoded accounts are the same.
pub proof fn lemma_undecodable_contributes_nothing(inputs: Seq<RawAccountView>, i: int)
    requires
        0 <= i < inputs.len(),
        decoded(inputs[i]) is Err,
    ensures
        decoded_accounts(inputs.remove(i)) == decoded_accounts(inputs),
        decoded_accounts(inputs).len() < inputs.len(),
{
    let before = inputs.take(i);
    let after = inputs.skip(i + 1);
    let one = seq![inputs[i]];
    assert(inputs =~= before + one + after);
    lemma_decoded_accounts_concat(before, one);
    lemma_decoded_accounts_concat(before + one, after);
    lemma_decoded_accounts_concat(before, after);
    assert(decoded_accounts(one.drop_last()) =~= Seq::<DecodedTokenAccountView>::empty());
    lemma_decoded_accounts_len(inputs.remove(i));
}

/// The index, among the inputs, of the input that gave the decoded account
/// number `j`.
pub open spec fn source_index(inputs: Seq<RawAccountView>, j: int) -> int
    decreases inputs.len(),
{
    if inputs.len() == 0 {
        0
    } else if j < decoded_accounts(inputs.drop_last()).len() {
        source_index(inputs.drop_last(), j)
    } else {
        inputs.len() - 1
    }
}

/// Each decoded account is that of the input at its source index.
pub proof fn lemma_source_index(inputs: Seq<RawAccountView>, j: int)
    requires
        0 <= j < decoded_accounts(inputs).len(),
    ensures
        0 <= source_index(inputs, j) < inputs.len(),
        decoded(inputs[source_index(inputs, j)]) == Ok::<DecodedTokenAccountView, DecodeError>(
            decoded_accounts(inputs)[j],
        ),
    decreases inputs.len(),
{
    if inputs.len() > 0 {
        let rest = inputs.drop_last();
        if j < decoded_accounts(rest).len() {
            lemma_source_index(rest, j);
        }
    }
}

/// The decoded accounts stand in the order of their inputs: of two of them,
/// the earlier one stems from the earlier input.
pub proof fn lemma_source_index_increases(inputs: Seq<RawAccountView>, j: int, k: int)
    requires
        0 <= j < k < decoded_accounts(inputs).len(),
    ensures
        source_index(inputs, j) < source_index(inputs, k),
    decreases inputs.len(),
{
    if inputs.len() > 0 {
        let rest = inputs.drop_last();
        if k < decoded_accounts(rest).len() {
            lemma_source_index_increases(rest, j, k);
        } else {
            lemma_source_index(rest, j);
        }
    }
}

/// Every decoded account carries an amount that is a run of decimal digits.
pub proof fn lemma_decoded_accounts_wf(inputs: Seq<RawAccountView>, j: int)
    requires
        0 <= j < decoded_accounts(inputs).len(),
    ensures
        decoded_accounts(inputs)[j].wf(),
{
    lemma_source_index(inputs, j);
}

} // verus!
