use moksha_mint::fee::{fee_token_mint_address, fee_token_mint_url};
use moksha_mint::flow::{
    advance, is_failure_tolerated, route_plan, PaymentMethod, Progress, Route, Step, SwapSigner,
};
use moksha_mint::keysets::{swap_keyset, SwapKeyset};
use moksha_mint::quotes::Bolt11MeltQuote;

fn run(route: Route, outcomes: &[bool]) -> Progress {
    let mut at = 0usize;
    loop {
        match advance(route, at, outcomes[at]) {
            Progress::Next(n) => at = n,
            p => return p,
        }
    }
}

#[test]
fn keysets_by_id_ignores_failed_registration() {
    assert_eq!(run(Route::KeysetsById, &[true, true, false, true]), Progress::Finished);
    assert_eq!(run(Route::KeysetsById, &[true, true, true, true]), Progress::Finished);
    assert_eq!(run(Route::KeysetsById, &[true, false, true, true]), Progress::Aborted);
    assert_eq!(run(Route::KeysetsById, &[true, true, false, false]), Progress::Aborted);
}

#[test]
fn only_keyset_registration_failure_is_tolerated() {
    assert!(is_failure_tolerated(Route::KeysetsById, Step::StoreMintKeyset));
    assert!(!is_failure_tolerated(Route::KeysetsById, Step::Commit));
    assert!(!is_failure_tolerated(Route::MintBitcredit, Step::GenerateFeeToken));
}

#[test]
fn melt_aborts_at_first_failure() {
    assert_eq!(advance(Route::MeltBolt11, 3, false), Progress::Aborted);
    assert_eq!(advance(Route::MeltBolt11, 3, true), Progress::Next(4));
    assert_eq!(advance(Route::MeltBolt11, 5, true), Progress::Finished);
}

#[test]
fn melt_plan_loads_pays_records_commits() {
    assert_eq!(
        route_plan(Route::MeltBolt11),
        vec![
            Step::BeginTx,
            Step::ParseQuoteId,
            Step::LoadBolt11MeltQuote,
            Step::MeltBolt11,
            Step::UpdateBolt11MeltQuote,
            Step::Commit
        ]
    );
}

#[test]
fn mint_quote_status_checks_invoice_after_commit_and_stores_nothing() {
    let p = route_plan(Route::MintQuoteBolt11Status);
    assert_eq!(p.last(), Some(&Step::CheckInvoicePaid));
    assert!(!p.contains(&Step::UpdateBolt11MintQuote));
}

#[test]
fn bill_swap_reads_time_after_commit() {
    assert_eq!(
        route_plan(Route::BillSwap),
        vec![Step::BeginTx, Step::LoadRequestToMint, Step::Commit, Step::ReadAtomicTime, Step::Swap(SwapSigner::ByMaturity)]
    );
}

#[test]
fn melt_uses_stored_invoice_and_fee_reserve() {
    let q = Bolt11MeltQuote::new(9, 5_000_000, 12_345, 1, "lnbc5".to_string());
    let (invoice, reserve) = q.melt_terms();
    assert_eq!(invoice, "lnbc5");
    assert_eq!(reserve, 12);
}

#[test]
fn matured_stays_matured_past_the_signed_range() {
    let t1 = u64::MAX - 10;
    assert_eq!(swap_keyset(-20, t1), SwapKeyset::Mint);
    assert_eq!(swap_keyset(-20, u64::MAX), SwapKeyset::Mint);
}

#[test]
fn fee_token_mint_url_is_the_parse_of_its_address() {
    let text = fee_token_mint_address("bill-7");
    let url = fee_token_mint_url("bill-7").unwrap();
    assert_eq!(url, url::Url::parse(&text).unwrap());
    assert_eq!(url.as_str(), "http://127.0.0.1:3338/bill-7/cr-sat");
}

#[test]
fn plain_swap_signs_with_the_mint_keyset() {
    assert_eq!(route_plan(Route::Swap), vec![Step::Swap(SwapSigner::MintKeyset)]);
}

#[test]
fn mint_routes_name_their_payment_method() {
    assert!(route_plan(Route::MintBolt11).contains(&Step::MintTokens(PaymentMethod::Bolt11)));
    assert!(route_plan(Route::MintBitcredit).contains(&Step::MintTokens(PaymentMethod::Bitcredit)));
}

#[test]
fn failed_fee_token_brings_the_task_down() {
    let p = route_plan(Route::MintBitcredit);
    assert_eq!(p[5], Step::GenerateFeeToken);
    assert_eq!(advance(Route::MintBitcredit, 5, false), Progress::Panicked);
    assert_eq!(advance(Route::MintBitcredit, 5, true), Progress::Next(6));
    assert_eq!(run(Route::MintBitcredit, &[true, true, true, true, true, false, true, true, true, true]), Progress::Panicked);
}
