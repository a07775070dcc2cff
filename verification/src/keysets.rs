use vstd::prelude::*;

use crate::error::MintError;

verus! {

/// The keyset that signs a swap on a bill's route.
#[derive(PartialEq, Eq, Structural, Debug, Clone, Copy)]
pub enum SwapKeyset {
    /// The mint's own keyset: the bill has matured, so it pays out debit tokens.
    Mint,
    /// The keyset derived from the bill's key: the bill has not matured yet,
    /// so it pays out credit tokens.
    Bill,
}

/// A bill has matured at `now` when its maturity date is not after `now`,
/// `now` being read as a signed timestamp.
pub open spec fn bill_matured(maturity_date: i64, now: u64) -> bool {
    maturity_date <= now as i64
}

/// Chooses the keyset for a swap on a bill's route, from the bill's maturity
/// date and the current time.
pub fn swap_keyset(maturity_date: i64, current_timestamp: u64) -> (k: SwapKeyset)
    ensures
        (k == SwapKeyset::Mint) <==> bill_matured(maturity_date, current_timestamp),
        (k == SwapKeyset::Bill) <==> !bill_matured(maturity_date, current_timestamp),
{
    if maturity_date <= current_timestamp as i64 {
        SwapKeyset::Mint
    } else {
        SwapKeyset::Bill
    }
}

/// Once a bill has matured it stays matured: a later swap also uses the
/// mint's keyset, as long as the later time does not cross from the
/// timestamps that read as non-negative to those that wrap to negative ones.
pub proof fn lemma_matured_stays_matured(maturity_date: i64, t1: u64, t2: u64)
    requires
        bill_matured(maturity_date, t1),
        t1 <= t2,
        t2 <= i64::MAX || t1 > i64::MAX,
    ensures
        bill_matured(maturity_date, t2),
{
    if t1 > i64::MAX {
        assert(t1 > 0x7fff_ffff_ffff_ffffu64 && t1 <= t2 ==> (t1 as i64) <= (t2 as i64))
            by (bit_vector);
    }
}

/// Where the keys asked for by id and unit come from.
#[derive(PartialEq, Eq, Structural, Debug, Clone, Copy)]
pub enum KeysSource {
    /// The keyset of the bill whose id was asked for, derived from the bill's
    /// stored request to mint.
    BillKeyset,
    /// The mint's own keyset.
    MintKeyset,
}

/// Decides where the keys for `requested_id` come from. A credit unit asks
/// for a bill's keyset; any other unit must name the mint's own keyset.
pub fn keys_source(unit_is_credit: bool, requested_id: &String, mint_keyset_id: &String) -> (r:
    Result<KeysSource, MintError>)
    ensures
        unit_is_credit ==> r == Ok::<KeysSource, MintError>(KeysSource::BillKeyset),
        !unit_is_credit && requested_id@ == mint_keyset_id@ ==> r == Ok::<KeysSource, MintError>(
            KeysSource::MintKeyset,
        ),
        !unit_is_credit && requested_id@ != mint_keyset_id@ ==> (r matches Err(
            MintError::KeysetNotFound(id),
        ) && id@ == requested_id@),
{
    if unit_is_credit {
        Ok(KeysSource::BillKeyset)
    } else if *requested_id != *mint_keyset_id {
        Err(MintError::KeysetNotFound(requested_id.clone()))
    } else {
        Ok(KeysSource::MintKeyset)
    }
}

} // verus!
