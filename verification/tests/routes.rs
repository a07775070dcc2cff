use moksha_mint::error::MintError;
use moksha_mint::expiry::{quote_expiry, quote_expiry_at, utc_now_timestamp, QUOTE_EXPIRY_MINUTES};
use moksha_mint::fee::{
    bill_fee_amount, fee_token_mint_address, fee_token_mint_url, pair_in_order, MINT_URL,
};
use moksha_mint::info::{mint_info, MintInfoSettings};
use moksha_mint::keysets::{keys_source, swap_keyset, KeysSource, SwapKeyset};
use moksha_mint::quote_id::{new_quote_id, parse_quote_id, quote_id_text};
use moksha_mint::quotes::{
    invoice_amount_msat, BitcreditMintQuote, BitcreditQuoteCheck, BitcreditRequestToMint,
    Bolt11MeltQuote, Bolt11MintQuote,
};

#[test]
fn swap_uses_mint_keyset_once_matured() {
    assert_eq!(swap_keyset(1_700_000_000, 1_700_000_000), SwapKeyset::Mint);
    assert_eq!(swap_keyset(1_700_000_000, 1_800_000_000), SwapKeyset::Mint);
}

#[test]
fn swap_uses_bill_keyset_before_maturity() {
    assert_eq!(swap_keyset(1_700_000_001, 1_700_000_000), SwapKeyset::Bill);
    assert_eq!(swap_keyset(i64::MAX, 0), SwapKeyset::Bill);
}

#[test]
fn swap_reads_the_time_as_a_signed_timestamp() {
    // A time past i64::MAX reads as a negative timestamp, as the cast does.
    assert_eq!(swap_keyset(0, u64::MAX), SwapKeyset::Bill);
    assert_eq!(swap_keyset(-1, u64::MAX), SwapKeyset::Mint);
}

#[test]
fn swap_stays_on_mint_keyset_later() {
    let maturity = 1_000;
    assert_eq!(swap_keyset(maturity, 1_000), SwapKeyset::Mint);
    for t in [1_001u64, 50_000, i64::MAX as u64] {
        assert_eq!(swap_keyset(maturity, t), SwapKeyset::Mint);
    }
}

#[test]
fn keys_for_credit_unit_come_from_the_bill() {
    let r = keys_source(true, &"anything".to_string(), &"00ab".to_string());
    assert!(matches!(r, Ok(KeysSource::BillKeyset)));
}

#[test]
fn keys_for_own_keyset_come_from_the_mint() {
    let r = keys_source(false, &"00ab".to_string(), &"00ab".to_string());
    assert!(matches!(r, Ok(KeysSource::MintKeyset)));
}

#[test]
fn keys_for_unknown_keyset_are_refused() {
    let r = keys_source(false, &"00cd".to_string(), &"00ab".to_string());
    match r {
        Err(MintError::KeysetNotFound(id)) => assert_eq!(id, "00cd"),
        _ => panic!("expected KeysetNotFound"),
    }
}

#[test]
fn quote_id_text_is_hyphenated_lower_case() {
    let id: u128 = 0xa1a2a3a4b1b2c1c2d1d2d3d4d5d6d7d8;
    assert_eq!(quote_id_text(id), "a1a2a3a4-b1b2-c1c2-d1d2-d3d4d5d6d7d8");
    assert_eq!(quote_id_text(0), "00000000-0000-0000-0000-000000000000");
}

#[test]
fn quote_id_round_trip() {
    for id in [0u128, 1, u128::MAX, 0x550e8400e29b41d4a716446655440000] {
        let text = quote_id_text(id);
        assert_eq!(parse_quote_id(&text).ok(), Some(id));
    }
}

#[test]
fn quote_id_parses_other_forms() {
    let id: u128 = 0x550e8400e29b41d4a716446655440000;
    assert_eq!(parse_quote_id("550E8400-E29B-41D4-A716-446655440000").ok(), Some(id));
    assert_eq!(parse_quote_id("550e8400e29b41d4a716446655440000").ok(), Some(id));
}

#[test]
fn malformed_quote_id_is_refused() {
    assert!(matches!(parse_quote_id("not-a-uuid"), Err(MintError::InvalidUuid(_))));
    assert!(matches!(parse_quote_id(""), Err(MintError::InvalidUuid(_))));
}

#[test]
fn new_quote_id_is_a_random_uuid() {
    let a = new_quote_id();
    let b = new_quote_id();
    assert_ne!(a, b);
    assert_eq!(a & 0xF000_C000_0000_0000_0000, 0x4000_8000_0000_0000_0000);
    assert_eq!(parse_quote_id(&quote_id_text(a)).ok(), Some(a));
}

#[test]
fn quote_expires_thirty_minutes_later() {
    assert_eq!(QUOTE_EXPIRY_MINUTES, 30);
    assert_eq!(quote_expiry_at(1_700_000_000), Some(1_700_001_800));
    assert_eq!(quote_expiry_at(0), Some(1_800));
}

#[test]
fn quote_expiry_beyond_chrono_range_is_none() {
    assert_eq!(quote_expiry_at(8_210_266_874_999), Some(8_210_266_876_799));
    assert_eq!(quote_expiry_at(8_210_266_875_000), None);
    assert_eq!(quote_expiry_at(i64::MAX), None);
}

#[test]
fn quote_expiry_of_negative_time_wraps() {
    assert_eq!(quote_expiry_at(-1_801), Some(u64::MAX));
}

#[test]
fn quote_expiry_now_is_in_the_future() {
    let before = std::time::SystemTime::now()
        .duration_since(std::time::UNIX_EPOCH)
        .unwrap()
        .as_secs();
    let e = quote_expiry().unwrap();
    assert!(e >= before + 1_800);
    assert!(e <= before + 1_800 + 60);
}

#[test]
fn new_mint_quotes_are_unpaid() {
    let q = Bolt11MintQuote::new(7, "lnbc1".to_string(), 99);
    assert_eq!(q.quote_id, 7);
    assert_eq!(q.payment_request, "lnbc1");
    assert_eq!(q.expiry, 99);
    assert!(!q.paid);
}

#[test]
fn mint_quote_paid_state_last_wins() {
    let q = Bolt11MintQuote::new(7, "lnbc1".to_string(), 99);
    let q = q.with_paid(true).with_paid(false).with_paid(true);
    assert!(q.paid);
    assert_eq!(q.quote_id, 7);
    assert_eq!(q.payment_request, "lnbc1");
    assert_eq!(q.expiry, 99);
}

#[test]
fn bitcredit_quote_starts_unendorsed_and_endorses_once() {
    let q = BitcreditMintQuote::new(3, "bill".to_string(), "node".to_string(), 500);
    assert!(!q.sent && !q.endorsed);
    let q = q.endorse_and_send();
    assert!(q.sent && q.endorsed);
    let q = q.endorse_and_send();
    assert!(q.sent && q.endorsed);
    assert_eq!((q.quote_id, q.bill_id.as_str(), q.node_id.as_str(), q.amount), (3, "bill", "node", 500));
}

#[test]
fn request_to_mint_keeps_the_private_key() {
    let r = BitcreditRequestToMint::new("bill".to_string(), "PRIV".to_string(), 1234, 1000);
    assert_eq!(r.bill_key, "PRIV");
    assert_eq!(r.bill_id, "bill");
    assert_eq!(r.maturity_date, 1234);
    assert_eq!(r.bill_amount, 1000);
}

#[test]
fn melt_quote_rounds_down_to_satoshis() {
    let q = Bolt11MeltQuote::new(1, 2_500_999, 10_999, 77, "lnbc2".to_string());
    assert_eq!(q.amount, 2_500);
    assert_eq!(q.fee_reserve, 10);
    assert_eq!(q.expiry, 77);
    assert!(!q.paid);
    let q = q.with_paid(true);
    assert!(q.paid);
    assert_eq!(q.amount, 2_500);
}

#[test]
fn invoice_without_amount_is_refused() {
    assert_eq!(invoice_amount_msat(Some(21_000)).ok(), Some(21_000));
    match invoice_amount_msat(None) {
        Err(MintError::InvalidAmount(m)) => assert_eq!(m, "invalid invoice"),
        _ => panic!("expected InvalidAmount"),
    }
}

#[test]
fn quote_check_names_node_and_bill() {
    let c = BitcreditQuoteCheck::new("node".to_string(), "bill".to_string());
    assert_eq!(c.node_id, "node");
    assert_eq!(c.bill_id, "bill");
}

#[test]
fn fee_is_bill_amount_less_quote_amount() {
    assert_eq!(bill_fee_amount(1_000, 970), 30);
    assert_eq!(bill_fee_amount(1_000, 1_000), 0);
    assert_eq!(bill_fee_amount(1_000, 0), 1_000);
}

#[test]
fn fee_token_is_minted_under_the_bill_path() {
    assert_eq!(MINT_URL, "http://127.0.0.1:3338");
    assert_eq!(fee_token_mint_address("b1"), "http://127.0.0.1:3338/b1/cr-sat");
    let url = fee_token_mint_url("b1").unwrap();
    assert_eq!(url.as_str(), "http://127.0.0.1:3338/b1/cr-sat");
    assert_eq!(url.path(), "/b1/cr-sat");
}

#[test]
fn pairing_stops_at_the_shorter_list() {
    let p = pair_in_order(vec![1u64, 2, 4, 8], vec!["a", "b", "c"]);
    assert_eq!(p, vec![(1, "a"), (2, "b"), (4, "c")]);
    let p = pair_in_order(vec![1u64], vec!["a", "b"]);
    assert_eq!(p, vec![(1, "a")]);
    let p: Vec<(u64, &str)> = pair_in_order(vec![], vec!["a"]);
    assert!(p.is_empty());
}

fn settings() -> MintInfoSettings {
    MintInfoSettings {
        name: Some("mint".to_string()),
        version: true,
        description: Some("short".to_string()),
        description_long: None,
        contact_email: Some("a@b.c".to_string()),
        contact_twitter: None,
        contact_nostr: Some("npub1".to_string()),
        motd: Some("hello".to_string()),
    }
}

#[test]
fn mint_info_lists_configured_contacts_in_order() {
    let info = mint_info(settings(), "02ab", 17u8, "moksha 0.2".to_string());
    assert_eq!(
        info.contact,
        Some(vec![
            vec!["email".to_string(), "a@b.c".to_string()],
            vec!["nostr".to_string(), "npub1".to_string()],
        ])
    );
    assert_eq!(info.version.as_deref(), Some("moksha 0.2"));
    assert_eq!(info.name.as_deref(), Some("mint"));
    assert_eq!(info.description.as_deref(), Some("short"));
    assert_eq!(info.description_long, None);
    assert_eq!(info.motd.as_deref(), Some("hello"));
    assert_eq!(info.pubkey, "02ab");
    assert_eq!(info.nuts, 17u8);
}

#[test]
fn mint_info_without_contacts_or_version() {
    let mut s = settings();
    s.version = false;
    s.contact_email = None;
    s.contact_nostr = None;
    let info = mint_info(s, (), (), "v".to_string());
    assert_eq!(info.contact, Some(vec![]));
    assert_eq!(info.version, None);
}

#[test]
fn mint_info_with_all_contacts() {
    let mut s = settings();
    s.contact_twitter = Some("@mint".to_string());
    let info = mint_info(s, (), (), "v".to_string());
    let c = info.contact.unwrap();
    assert_eq!(c.len(), 3);
    assert_eq!(c[1], vec!["twitter".to_string(), "@mint".to_string()]);
}

#[test]
fn clock_reads_as_seconds_since_the_epoch() {
    let before = std::time::SystemTime::now()
        .duration_since(std::time::UNIX_EPOCH)
        .unwrap()
        .as_secs() as i64;
    let now = utc_now_timestamp().unwrap();
    assert!(now >= before && now <= before + 60);
}
