use vstd::prelude::*;

verus! {

/// Which keyset signs the outputs of a swap.
#[derive(PartialEq, Eq, Structural, Debug, Clone, Copy)]
pub enum SwapSigner {
    /// The mint's own keyset.
    MintKeyset,
    /// The keyset that `keysets::swap_keyset` chooses from the bill's
    /// maturity date and the time read before the swap.
    ByMaturity,
}

/// How the tokens that a mint step issues were paid for.
#[derive(PartialEq, Eq, Structural, Debug, Clone, Copy)]
pub enum PaymentMethod {
    Bolt11,
    Bitcredit,
}

/// One step of serving a route: a piece of outside work (on the database,
/// the Lightning node, the clock or the token engine) or a reading of the
/// request.
#[derive(PartialEq, Eq, Structural, Debug, Clone, Copy)]
pub enum Step {
    BeginTx,
    ParseQuoteId,
    ReadInvoiceAmount,
    LoadRequestToMint,
    LoadBolt11MintQuote,
    LoadBitcreditMintQuote,
    LoadBolt11MeltQuote,
    StoreMintKeyset,
    StoreBolt11MintQuote,
    StoreBitcreditMintQuote,
    StoreRequestToMint,
    StoreBolt11MeltQuote,
    UpdateBolt11MintQuote,
    UpdateBitcreditMintQuote,
    UpdateBolt11MeltQuote,
    CheckBitcreditQuote,
    CreateInvoice,
    DecodeInvoice,
    CheckInvoicePaid,
    ReadAtomicTime,
    /// Issue signatures on the request's outputs with the mint's keyset.
    MintTokens(PaymentMethod),
    /// Swap the request's inputs for signatures on its outputs.
    Swap(SwapSigner),
    MeltBolt11,
    /// Build and sign the token that carries the mint's fee on a bill. It
    /// runs on a task of its own, and a failure there brings the serving
    /// task down instead of answering with an error.
    GenerateFeeToken,
    Commit,
}

/// The routes whose service takes several steps.
#[derive(PartialEq, Eq, Structural, Debug, Clone, Copy)]
pub enum Route {
    /// A swap against the mint's keyset.
    Swap,
    /// A swap on a bill's route: the bill's keyset or the mint's, by maturity.
    BillSwap,
    /// The keys of a bill's keyset.
    BillKeys,
    /// The keysets of a bill, registering the bill's keyset with the mint.
    KeysetsById,
    MintQuoteBolt11,
    MintQuoteBitcredit,
    RequestToMintBitcredit,
    MintBolt11,
    MintBitcredit,
    MeltQuoteBolt11,
    MeltBolt11,
    /// The state of a Lightning mint quote, with the invoice's live payment state.
    MintQuoteBolt11Status,
    CheckBitcreditQuote,
    MintQuoteBitcreditStatus,
    MeltQuoteBolt11Status,
}

/// The steps of a route, in the order in which they are taken.
pub open spec fn plan(route: Route) -> Seq<Step> {
    match route {
        Route::Swap => seq![Step::Swap(SwapSigner::MintKeyset)],
        Route::BillSwap => seq![
            Step::BeginTx,
            Step::LoadRequestToMint,
            Step::Commit,
            Step::ReadAtomicTime,
            Step::Swap(SwapSigner::ByMaturity),
        ],
        Route::BillKeys => seq![Step::BeginTx, Step::LoadRequestToMint, Step::Commit],
        Route::KeysetsById => seq![
            Step::BeginTx,
            Step::LoadRequestToMint,
            Step::StoreMintKeyset,
            Step::Commit,
        ],
        Route::MintQuoteBolt11 => seq![
            Step::CreateInvoice,
            Step::BeginTx,
            Step::StoreBolt11MintQuote,
            Step::Commit,
        ],
        Route::MintQuoteBitcredit => seq![Step::BeginTx, Step::StoreBitcreditMintQuote, Step::Commit],
        Route::RequestToMintBitcredit => seq![Step::BeginTx, Step::StoreRequestToMint, Step::Commit],
        Route::MintBolt11 => seq![
            Step::BeginTx,
            Step::MintTokens(PaymentMethod::Bolt11),
            Step::ParseQuoteId,
            Step::LoadBolt11MintQuote,
            Step::UpdateBolt11MintQuote,
            Step::Commit,
        ],
        Route::MintBitcredit => seq![
            Step::BeginTx,
            Step::ParseQuoteId,
            Step::LoadBitcreditMintQuote,
            Step::LoadRequestToMint,
            Step::MintTokens(PaymentMethod::Bitcredit),
            Step::GenerateFeeToken,
            Step::ParseQuoteId,
            Step::LoadBitcreditMintQuote,
            Step::UpdateBitcreditMintQuote,
            Step::Commit,
        ],
        Route::MeltQuoteBolt11 => seq![
            Step::DecodeInvoice,
            Step::ReadInvoiceAmount,
            Step::BeginTx,
            Step::StoreBolt11MeltQuote,
            Step::Commit,
        ],
        Route::MeltBolt11 => seq![
            Step::BeginTx,
            Step::ParseQuoteId,
            Step::LoadBolt11MeltQuote,
            Step::MeltBolt11,
            Step::UpdateBolt11MeltQuote,
            Step::Commit,
        ],
        Route::MintQuoteBolt11Status => seq![
            Step::BeginTx,
            Step::ParseQuoteId,
            Step::LoadBolt11MintQuote,
            Step::Commit,
            Step::CheckInvoicePaid,
        ],
        Route::CheckBitcreditQuote => seq![Step::BeginTx, Step::CheckBitcreditQuote, Step::Commit],
        Route::MintQuoteBitcreditStatus => seq![
            Step::BeginTx,
            Step::ParseQuoteId,
            Step::LoadBitcreditMintQuote,
            Step::Commit,
        ],
        Route::MeltQuoteBolt11Status => seq![
            Step::BeginTx,
            Step::ParseQuoteId,
            Step::LoadBolt11MeltQuote,
            Step::Commit,
        ],
    }
}

/// Whether a failure of `step` on `route` is only logged, the route going on
/// as if it had succeeded. So it is for registering a bill's keyset with the
/// mint, which may already hold it; every other failure ends the route with
/// that error.
pub open spec fn failure_tolerated(route: Route, step: Step) -> bool {
    route == Route::KeysetsById && step == Step::StoreMintKeyset
}

/// Whether a failure of `step` brings the serving task down (a panic)
/// instead of answering with the step's error.
pub open spec fn failure_panics(step: Step) -> bool {
    step == Step::GenerateFeeToken
}

/// Whether a step writes to the mint's database.
pub open spec fn writes(step: Step) -> bool {
    match step {
        Step::StoreMintKeyset | Step::StoreBolt11MintQuote | Step::StoreBitcreditMintQuote
        | Step::StoreRequestToMint | Step::StoreBolt11MeltQuote | Step::UpdateBolt11MintQuote
        | Step::UpdateBitcreditMintQuote | Step::UpdateBolt11MeltQuote => true,
        _ => false,
    }
}

/// Where a route stands after a step.
#[derive(PartialEq, Eq, Structural, Debug, Clone, Copy)]
pub enum Progress {
    /// Go on with the step at this position of the plan.
    Next(usize),
    /// All steps are taken: the route answers with its result.
    Finished,
    /// A step failed: the route answers with that step's error.
    Aborted,
    /// A step failed in a way that brings the serving task down.
    Panicked,
}

/// Where a route stands after the step at position `at` of its plan.
pub open spec fn progress_after(route: Route, at: int, succeeded: bool) -> Progress {
    if !succeeded && failure_panics(plan(route)[at]) {
        Progress::Panicked
    } else if !succeeded && !failure_tolerated(route, plan(route)[at]) {
        Progress::Aborted
    } else if at + 1 == plan(route).len() {
        Progress::Finished
    } else {
        Progress::Next((at + 1) as usize)
    }
}

/// A route finishes, given the outcomes of its steps in order, when every
/// step that failed is one whose failure is tolerated.
pub open spec fn finishes(route: Route, outcomes: Seq<bool>) -> bool {
    forall|i: int|
        0 <= i < plan(route).len() ==> #[trigger] outcomes[i] || failure_tolerated(
            route,
            plan(route)[i],
        )
}

/// The steps of a route, in order.
pub fn route_plan(route: Route) -> (steps: Vec<Step>)
    ensures
        steps@ == plan(route),
{
    let steps = match route {
        Route::Swap => vec![Step::Swap(SwapSigner::MintKeyset)],
        Route::BillSwap => vec![
            Step::BeginTx,
            Step::LoadRequestToMint,
            Step::Commit,
            Step::ReadAtomicTime,
            Step::Swap(SwapSigner::ByMaturity),
        ],
        Route::BillKeys => vec![Step::BeginTx, Step::LoadRequestToMint, Step::Commit],
        Route::KeysetsById => vec![
            Step::BeginTx,
            Step::LoadRequestToMint,
            Step::StoreMintKeyset,
            Step::Commit,
        ],
        Route::MintQuoteBolt11 => vec![
            Step::CreateInvoice,
            Step::BeginTx,
            Step::StoreBolt11MintQuote,
            Step::Commit,
        ],
        Route::MintQuoteBitcredit => vec![Step::BeginTx, Step::StoreBitcreditMintQuote, Step::Commit],
        Route::RequestToMintBitcredit => vec![Step::BeginTx, Step::StoreRequestToMint, Step::Commit],
        Route::MintBolt11 => vec![
            Step::BeginTx,
            Step::MintTokens(PaymentMethod::Bolt11),
            Step::ParseQuoteId,
            Step::LoadBolt11MintQuote,
            Step::UpdateBolt11MintQuote,
            Step::Commit,
        ],
        Route::MintBitcredit => vec![
            Step::BeginTx,
            Step::ParseQuoteId,
            Step::LoadBitcreditMintQuote,
            Step::LoadRequestToMint,
            Step::MintTokens(PaymentMethod::Bitcredit),
            Step::GenerateFeeToken,
            Step::ParseQuoteId,
            Step::LoadBitcreditMintQuote,
            Step::UpdateBitcreditMintQuote,
            Step::Commit,
        ],
        Route::MeltQuoteBolt11 => vec![
            Step::DecodeInvoice,
            Step::ReadInvoiceAmount,
            Step::BeginTx,
            Step::StoreBolt11MeltQuote,
            Step::Commit,
        ],
        Route::MeltBolt11 => vec![
            Step::BeginTx,
            Step::ParseQuoteId,
            Step::LoadBolt11MeltQuote,
            Step::MeltBolt11,
            Step::UpdateBolt11MeltQuote,
            Step::Commit,
        ],
        Route::MintQuoteBolt11Status => vec![
            Step::BeginTx,
            Step::ParseQuoteId,
            Step::LoadBolt11MintQuote,
            Step::Commit,
            Step::CheckInvoicePaid,
        ],
        Route::CheckBitcreditQuote => vec![Step::BeginTx, Step::CheckBitcreditQuote, Step::Commit],
        Route::MintQuoteBitcreditStatus => vec![
            Step::BeginTx,
            Step::ParseQuoteId,
            Step::LoadBitcreditMintQuote,
            Step::Commit,
        ],
        Route::MeltQuoteBolt11Status => vec![
            Step::BeginTx,
            Step::ParseQuoteId,
            Step::LoadBolt11MeltQuote,
            Step::Commit,
        ],
    };
    assert(steps@ =~= plan(route));
    steps
}

/// Whether a failure of `step` on `route` is only logged.
pub fn is_failure_tolerated(route: Route, step: Step) -> (t: bool)
    ensures
        t == failure_tolerated(route, step),
{
    route == Route::KeysetsById && step == Step::StoreMintKeyset
}

/// Where a route stands once the step at position `at` of its plan has
/// succeeded or failed.
pub fn advance(route: Route, at: usize, succeeded: bool) -> (p: Progress)
    requires
        at < plan(route).len(),
    ensures
        p == progress_after(route, at as int, succeeded),
{
    let steps = route_plan(route);
    if !succeeded && steps[at] == Step::GenerateFeeToken {
        Progress::Panicked
    } else if !succeeded && !is_failure_tolerated(route, steps[at]) {
        Progress::Aborted
    } else if at + 1 == steps.len() {
        Progress::Finished
    } else {
        Progress::Next(at + 1)
    }
}

/// Taking the steps of a route one by one with `advance`: as long as every
/// step so far succeeded or failed in a tolerated way, none of them ended
/// the route, and after the last one the route has finished.
pub proof fn lemma_run_finishes(route: Route, outcomes: Seq<bool>, k: int)
    requires
        0 <= k <= plan(route).len(),
        forall|i: int| 0 <= i < k ==> #[trigger] outcomes[i] || failure_tolerated(route, plan(route)[i]),
    ensures
        forall|i: int| 0 <= i < k ==> #[trigger] progress_after(route, i, outcomes[i]) is Next || (i
            == plan(route).len() - 1 && progress_after(route, i, outcomes[i]) == Progress::Finished),
        k == plan(route).len() && k > 0 ==> progress_after(route, k - 1, outcomes[k - 1]) == Progress::Finished,
{
}

/// Taking the steps of a route one by one with `advance`, the route ends at
/// the first step that fails in a way that is not tolerated: the steps
/// before it go on, and that step answers with its error, or brings the
/// serving task down where its failure does so.
pub proof fn lemma_run_ends_at_first_failure(route: Route, outcomes: Seq<bool>, k: int)
    requires
        0 <= k < plan(route).len(),
        forall|i: int| 0 <= i < k ==> #[trigger] outcomes[i] || failure_tolerated(route, plan(route)[i]),
        !outcomes[k],
        !failure_tolerated(route, plan(route)[k]),
    ensures
        forall|i: int| 0 <= i < k ==> #[trigger] progress_after(route, i, outcomes[i]) is Next,
        progress_after(route, k, outcomes[k]) == (if failure_panics(plan(route)[k]) {
            Progress::Panicked
        } else {
            Progress::Aborted
        }),
{
}

/// Registering a bill's keyset never decides the answer: the keysets of a
/// bill are served whenever the other steps succeed, whether the
/// registration succeeded or failed.
pub proof fn lemma_keysets_by_id_ignores_registration(outcomes: Seq<bool>)
    requires
        outcomes.len() == plan(Route::KeysetsById).len(),
    ensures
        finishes(Route::KeysetsById, outcomes) <==> (outcomes[0] && outcomes[1] && outcomes[3]),
        finishes(Route::KeysetsById, outcomes) == finishes(
            Route::KeysetsById,
            outcomes.update(2, !outcomes[2]),
        ),
{
    let p = plan(Route::KeysetsById);
    assert(p[2] == Step::StoreMintKeyset);
    if outcomes[0] && outcomes[1] && outcomes[3] {
        assert forall|i: int| 0 <= i < p.len() implies #[trigger] outcomes[i] || failure_tolerated(
            Route::KeysetsById,
            p[i],
        ) by {
            if i == 2 {
            }
        }
        let o2 = outcomes.update(2, !outcomes[2]);
        assert forall|i: int| 0 <= i < p.len() implies #[trigger] o2[i] || failure_tolerated(
            Route::KeysetsById,
            p[i],
        ) by {
            if i == 2 {
            }
        }
    } else {
        let o2 = outcomes.update(2, !outcomes[2]);
        if !outcomes[0] {
            assert(!(outcomes[0] || failure_tolerated(Route::KeysetsById, p[0])));
            assert(!(o2[0] || failure_tolerated(Route::KeysetsById, p[0])));
        } else if !outcomes[1] {
            assert(!(outcomes[1] || failure_tolerated(Route::KeysetsById, p[1])));
            assert(!(o2[1] || failure_tolerated(Route::KeysetsById, p[1])));
        } else {
            assert(!(outcomes[3] || failure_tolerated(Route::KeysetsById, p[3])));
            assert(!(o2[3] || failure_tolerated(Route::KeysetsById, p[3])));
        }
    }
}

/// The routes that only report the state of a quote write nothing: in
/// particular the live payment state of a Lightning invoice is reported but
/// not stored.
pub proof fn lemma_status_routes_write_nothing(route: Route, i: int)
    requires
        route == Route::MintQuoteBolt11Status || route == Route::MintQuoteBitcreditStatus || route
            == Route::MeltQuoteBolt11Status || route == Route::BillKeys,
        0 <= i < plan(route).len(),
    ensures
        !writes(plan(route)[i]),
{
}

/// A melt loads the stored quote before paying, pays before recording the
/// outcome on the quote, and records it before committing.
pub proof fn lemma_melt_order()
    ensures
        plan(Route::MeltBolt11)[2] == Step::LoadBolt11MeltQuote,
        plan(Route::MeltBolt11)[3] == Step::MeltBolt11,
        plan(Route::MeltBolt11)[4] == Step::UpdateBolt11MeltQuote,
        plan(Route::MeltBolt11)[5] == Step::Commit,
        plan(Route::MeltBolt11).len() == 6,
{
}

/// Each route takes exactly these steps, in this order.
pub proof fn lemma_route_steps()
    ensures
        plan(Route::Swap) == seq![Step::Swap(SwapSigner::MintKeyset)],
        plan(Route::BillSwap) == seq![
            Step::BeginTx,
            Step::LoadRequestToMint,
            Step::Commit,
            Step::ReadAtomicTime,
            Step::Swap(SwapSigner::ByMaturity),
        ],
        plan(Route::BillKeys) == seq![Step::BeginTx, Step::LoadRequestToMint, Step::Commit],
        plan(Route::KeysetsById) == seq![
            Step::BeginTx,
            Step::LoadRequestToMint,
            Step::StoreMintKeyset,
            Step::Commit,
        ],
        plan(Route::MintQuoteBolt11) == seq![
            Step::CreateInvoice,
            Step::BeginTx,
            Step::StoreBolt11MintQuote,
            Step::Commit,
        ],
        plan(Route::MintQuoteBitcredit) == seq![
            Step::BeginTx,
            Step::StoreBitcreditMintQuote,
            Step::Commit,
        ],
        plan(Route::RequestToMintBitcredit) == seq![
            Step::BeginTx,
            Step::StoreRequestToMint,
            Step::Commit,
        ],
        plan(Route::MintBolt11) == seq![
            Step::BeginTx,
            Step::MintTokens(PaymentMethod::Bolt11),
            Step::ParseQuoteId,
            Step::LoadBolt11MintQuote,
            Step::UpdateBolt11MintQuote,
            Step::Commit,
        ],
        plan(Route::MintBitcredit) == seq![
            Step::BeginTx,
            Step::ParseQuoteId,
            Step::LoadBitcreditMintQuote,
            Step::LoadRequestToMint,
            Step::MintTokens(PaymentMethod::Bitcredit),
            Step::GenerateFeeToken,
            Step::ParseQuoteId,
            Step::LoadBitcreditMintQuote,
            Step::UpdateBitcreditMintQuote,
            Step::Commit,
        ],
        plan(Route::MeltQuoteBolt11) == seq![
            Step::DecodeInvoice,
            Step::ReadInvoiceAmount,
            Step::BeginTx,
            Step::StoreBolt11MeltQuote,
            Step::Commit,
        ],
        plan(Route::MeltBolt11) == seq![
            Step::BeginTx,
            Step::ParseQuoteId,
            Step::LoadBolt11MeltQuote,
            Step::MeltBolt11,
            Step::UpdateBolt11MeltQuote,
            Step::Commit,
        ],
        plan(Route::MintQuoteBolt11Status) == seq![
            Step::BeginTx,
            Step::ParseQuoteId,
            Step::LoadBolt11MintQuote,
            Step::Commit,
            Step::CheckInvoicePaid,
        ],
        plan(Route::CheckBitcreditQuote) == seq![
            Step::BeginTx,
            Step::CheckBitcreditQuote,
            Step::Commit,
        ],
        plan(Route::MintQuoteBitcreditStatus) == seq![
            Step::BeginTx,
            Step::ParseQuoteId,
            Step::LoadBitcreditMintQuote,
            Step::Commit,
        ],
        plan(Route::MeltQuoteBolt11Status) == seq![
            Step::BeginTx,
            Step::ParseQuoteId,
            Step::LoadBolt11MeltQuote,
            Step::Commit,
        ],
{
}

/// A route that creates a record writes it inside its transaction: the
/// write comes after the transaction opens and right before the commit that
/// ends the route, so a later lookup by the id handed out finds it.
pub proof fn lemma_created_records_are_stored(route: Route)
    requires
        route == Route::MintQuoteBolt11 || route == Route::MintQuoteBitcredit || route
            == Route::RequestToMintBitcredit || route == Route::MeltQuoteBolt11,
    ensures
        plan(route).len() >= 3,
        plan(route)[plan(route).len() - 1] == Step::Commit,
        plan(route)[plan(route).len() - 3] == Step::BeginTx,
        route == Route::MintQuoteBolt11 ==> plan(route)[plan(route).len() - 2]
            == Step::StoreBolt11MintQuote,
        route == Route::MintQuoteBitcredit ==> plan(route)[plan(route).len() - 2]
            == Step::StoreBitcreditMintQuote,
        route == Route::RequestToMintBitcredit ==> plan(route)[plan(route).len() - 2]
            == Step::StoreRequestToMint,
        route == Route::MeltQuoteBolt11 ==> plan(route)[plan(route).len() - 2]
            == Step::StoreBolt11MeltQuote,
{
}

/// A route that mints tokens records the quote's new state after minting
/// and before the commit that ends the route: a Lightning quote is marked
/// paid, a bitcredit quote endorsed and sent.
pub proof fn lemma_minting_updates_quote_before_commit()
    ensures
        plan(Route::MintBolt11)[1] == Step::MintTokens(PaymentMethod::Bolt11),
        plan(Route::MintBolt11)[4] == Step::UpdateBolt11MintQuote,
        plan(Route::MintBolt11)[5] == Step::Commit,
        plan(Route::MintBolt11).len() == 6,
        plan(Route::MintBitcredit)[4] == Step::MintTokens(PaymentMethod::Bitcredit),
        plan(Route::MintBitcredit)[8] == Step::UpdateBitcreditMintQuote,
        plan(Route::MintBitcredit)[9] == Step::Commit,
        plan(Route::MintBitcredit).len() == 10,
{
}

/// Only one failure is tolerated anywhere: the registration of a bill's
/// keyset on the keysets-by-id route. Every other failed step ends its
/// route, with the step's error or, for the fee token, a panic.
pub proof fn lemma_only_keyset_registration_tolerated(route: Route, at: int)
    requires
        0 <= at < plan(route).len(),
    ensures
        failure_tolerated(route, plan(route)[at]) ==> route == Route::KeysetsById
            && plan(route)[at] == Step::StoreMintKeyset,
        !(route == Route::KeysetsById && plan(route)[at] == Step::StoreMintKeyset) ==> (
        progress_after(route, at, false) == Progress::Aborted || progress_after(route, at, false)
            == Progress::Panicked),
        route == Route::KeysetsById && plan(route)[at] == Step::StoreMintKeyset ==> (progress_after(
            route,
            at,
            false,
        ) is Next || progress_after(route, at, false) == Progress::Finished),
{
}

/// Only a failed fee token brings the serving task down; every other
/// failed step, a quote id that is not a UUID among them, answers with its
/// error (or is tolerated).
pub proof fn lemma_only_fee_token_panics(route: Route, at: int)
    requires
        0 <= at < plan(route).len(),
    ensures
        progress_after(route, at, false) == Progress::Panicked ==> plan(route)[at]
            == Step::GenerateFeeToken,
        plan(route)[at] == Step::GenerateFeeToken ==> progress_after(route, at, false)
            == Progress::Panicked,
        plan(route)[at] == Step::ParseQuoteId ==> progress_after(route, at, false)
            == Progress::Aborted,
        plan(route)[at] == Step::ReadInvoiceAmount ==> progress_after(route, at, false)
            == Progress::Aborted,
        progress_after(route, at, true) != Progress::Aborted && progress_after(route, at, true)
            != Progress::Panicked,
{
}

} // verus!
