use vstd::prelude::*;
use vstd::string::*;

use crate::error::MintError;

verus! {

/// A quote to mint tokens against a Lightning invoice.
pub struct Bolt11MintQuote {
    pub quote_id: u128,
    pub payment_request: String,
    pub expiry: u64,
    pub paid: bool,
}

/// A quote to mint tokens against a bill of exchange.
pub struct BitcreditMintQuote {
    pub quote_id: u128,
    pub bill_id: String,
    pub node_id: String,
    pub sent: bool,
    pub amount: u64,
    pub endorsed: bool,
}

/// A bill's request to mint: the bill's private key, its id, the date on
/// which it matures and its amount.
pub struct BitcreditRequestToMint {
    pub bill_key: String,
    pub bill_id: String,
    pub maturity_date: i64,
    pub bill_amount: u64,
}

/// A quote to melt tokens by paying a Lightning invoice; the amounts are in
/// satoshis.
pub struct Bolt11MeltQuote {
    pub quote_id: u128,
    pub amount: u64,
    pub fee_reserve: u64,
    pub expiry: u64,
    pub payment_request: String,
    pub paid: bool,
}

/// The question whether a node holds a quote for a bill.
pub struct BitcreditQuoteCheck {
    pub node_id: String,
    pub bill_id: String,
}

/// The value of a Lightning mint quote, in the model of contracts.
pub struct Bolt11MintQuoteView {
    pub quote_id: u128,
    pub payment_request: Seq<char>,
    pub expiry: u64,
    pub paid: bool,
}

/// The value of a bitcredit mint quote, in the model of contracts.
pub struct BitcreditMintQuoteView {
    pub quote_id: u128,
    pub bill_id: Seq<char>,
    pub node_id: Seq<char>,
    pub sent: bool,
    pub amount: u64,
    pub endorsed: bool,
}

/// The value of a Lightning melt quote, in the model of contracts.
pub struct Bolt11MeltQuoteView {
    pub quote_id: u128,
    pub amount: u64,
    pub fee_reserve: u64,
    pub expiry: u64,
    pub payment_request: Seq<char>,
    pub paid: bool,
}

impl View for Bolt11MintQuote {
    type V = Bolt11MintQuoteView;

    open spec fn view(&self) -> Bolt11MintQuoteView {
        Bolt11MintQuoteView {
            quote_id: self.quote_id,
            payment_request: self.payment_request@,
            expiry: self.expiry,
            paid: self.paid,
        }
    }
}

impl View for BitcreditMintQuote {
    type V = BitcreditMintQuoteView;

    open spec fn view(&self) -> BitcreditMintQuoteView {
        BitcreditMintQuoteView {
            quote_id: self.quote_id,
            bill_id: self.bill_id@,
            node_id: self.node_id@,
            sent: self.sent,
            amount: self.amount,
            endorsed: self.endorsed,
        }
    }
}

impl View for Bolt11MeltQuote {
    type V = Bolt11MeltQuoteView;

    open spec fn view(&self) -> Bolt11MeltQuoteView {
        Bolt11MeltQuoteView {
            quote_id: self.quote_id,
            amount: self.amount,
            fee_reserve: self.fee_reserve,
            expiry: self.expiry,
            payment_request: self.payment_request@,
            paid: self.paid,
        }
    }
}

/// A Lightning mint quote with its payment state set to `paid`, all else kept.
pub open spec fn mint_quote_paid_as(q: Bolt11MintQuoteView, paid: bool) -> Bolt11MintQuoteView {
    Bolt11MintQuoteView { paid, ..q }
}

/// A Lightning melt quote with its payment state set to `paid`, all else kept.
pub open spec fn melt_quote_paid_as(q: Bolt11MeltQuoteView, paid: bool) -> Bolt11MeltQuoteView {
    Bolt11MeltQuoteView { paid, ..q }
}

/// A bitcredit mint quote marked as endorsed and sent, all else kept.
pub open spec fn endorsed_and_sent(q: BitcreditMintQuoteView) -> BitcreditMintQuoteView {
    BitcreditMintQuoteView { endorsed: true, sent: true, ..q }
}

impl Bolt11MintQuote {
    /// A new quote to mint against the invoice `payment_request`; it is not
    /// paid yet.
    pub fn new(quote_id: u128, payment_request: String, expiry: u64) -> (q: Bolt11MintQuote)
        ensures
            q@ == (Bolt11MintQuoteView {
                quote_id,
                payment_request: payment_request@,
                expiry,
                paid: false,
            }),
    {
        Bolt11MintQuote { quote_id, payment_request, expiry, paid: false }
    }

    /// The quote with its payment state replaced by `paid`, as the invoice's
    /// state was read from the Lightning node.
    pub fn with_paid(self, paid: bool) -> (q: Bolt11MintQuote)
        ensures
            q@ == mint_quote_paid_as(self@, paid),
    {
        Bolt11MintQuote { paid, ..self }
    }
}

impl BitcreditMintQuote {
    /// A new quote for `amount` against the bill `bill_id`, asked for by the
    /// node `node_id`; it is neither endorsed nor sent yet.
    pub fn new(quote_id: u128, bill_id: String, node_id: String, amount: u64) -> (q:
        BitcreditMintQuote)
        ensures
            q@ == (BitcreditMintQuoteView {
                quote_id,
                bill_id: bill_id@,
                node_id: node_id@,
                sent: false,
                amount,
                endorsed: false,
            }),
    {
        BitcreditMintQuote { quote_id, bill_id, node_id, sent: false, amount, endorsed: false }
    }

    /// The quote once its tokens have been minted: endorsed and sent.
    pub fn endorse_and_send(self) -> (q: BitcreditMintQuote)
        ensures
            q@ == endorsed_and_sent(self@),
    {
        BitcreditMintQuote { endorsed: true, sent: true, ..self }
    }
}

impl BitcreditRequestToMint {
    /// The request to mint that a bill's holder submits: the bill's private
    /// key in PEM form is kept as the bill's key.
    pub fn new(bill_id: String, private_key_pem: String, maturity_date: i64, bill_amount: u64) -> (r:
        BitcreditRequestToMint)
        ensures
            r.bill_key@ == private_key_pem@,
            r.bill_id@ == bill_id@,
            r.maturity_date == maturity_date,
            r.bill_amount == bill_amount,
    {
        BitcreditRequestToMint { bill_key: private_key_pem, bill_id, maturity_date, bill_amount }
    }
}

impl Bolt11MeltQuote {
    /// A new quote to pay the invoice `payment_request` of `amount_msat`
    /// millisatoshis, with a fee reserve of `fee_reserve_msat`
    /// millisatoshis; both amounts are kept in whole satoshis, rounded down.
    /// It is not paid yet.
    pub fn new(
        quote_id: u128,
        amount_msat: u64,
        fee_reserve_msat: u64,
        expiry: u64,
        payment_request: String,
    ) -> (q: Bolt11MeltQuote)
        ensures
            q@ == (Bolt11MeltQuoteView {
                quote_id,
                amount: amount_msat / 1000,
                fee_reserve: fee_reserve_msat / 1000,
                expiry,
                payment_request: payment_request@,
                paid: false,
            }),
    {
        Bolt11MeltQuote {
            quote_id,
            amount: amount_msat / 1000,
            fee_reserve: fee_reserve_msat / 1000,
            expiry,
            payment_request,
            paid: false,
        }
    }

    /// What a melt of this stored quote pays: the quote's invoice, with the
    /// quote's fee reserve in satoshis.
    pub fn melt_terms(&self) -> (terms: (String, u64))
        ensures
            terms.0@ == self.payment_request@,
            terms.1 == self.fee_reserve,
    {
        (self.payment_request.clone(), self.fee_reserve)
    }

    /// The quote with its payment state replaced by the outcome of the melt.
    pub fn with_paid(self, paid: bool) -> (q: Bolt11MeltQuote)
        ensures
            q@ == melt_quote_paid_as(self@, paid),
    {
        Bolt11MeltQuote { paid, ..self }
    }
}

impl BitcreditQuoteCheck {
    /// The check whether `node_id` holds a quote for `bill_id`.
    pub fn new(node_id: String, bill_id: String) -> (c: BitcreditQuoteCheck)
        ensures
            c.node_id@ == node_id@,
            c.bill_id@ == bill_id@,
    {
        BitcreditQuoteCheck { node_id, bill_id }
    }
}

/// The amount of an invoice that a melt quote is asked for, in
/// millisatoshis: an invoice without an amount is refused.
pub fn invoice_amount_msat(amount: Option<u64>) -> (r: Result<u64, MintError>)
    ensures
        amount matches Some(a) ==> r == Ok::<u64, MintError>(a),
        amount is None ==> (r matches Err(MintError::InvalidAmount(m)) && m@ == "invalid invoice"@),
{
    match amount {
        Some(a) => Ok(a),
        None => Err(MintError::InvalidAmount(String::from_str("invalid invoice"))),
    }
}

/// Setting the payment state of a Lightning mint quote twice keeps only the
/// second state; setting it changes nothing else.
pub proof fn lemma_mint_quote_paid_last_wins(q: Bolt11MintQuoteView, a: bool, b: bool)
    ensures
        mint_quote_paid_as(mint_quote_paid_as(q, a), b) == mint_quote_paid_as(q, b),
        mint_quote_paid_as(q, q.paid) == q,
{
}

/// Setting the payment state of a melt quote twice keeps only the second
/// state; setting it changes nothing else.
pub proof fn lemma_melt_quote_paid_last_wins(q: Bolt11MeltQuoteView, a: bool, b: bool)
    ensures
        melt_quote_paid_as(melt_quote_paid_as(q, a), b) == melt_quote_paid_as(q, b),
        melt_quote_paid_as(q, q.paid) == q,
{
}

/// Endorsing and sending a bitcredit quote a second time changes nothing.
pub proof fn lemma_endorse_idempotent(q: BitcreditMintQuoteView)
    ensures
        endorsed_and_sent(endorsed_and_sent(q)) == endorsed_and_sent(q),
{
}

} // verus!
