use vstd::prelude::*;
use vstd::string::*;

verus! {

/// `url::Url`, a parsed absolute URL.
#[verifier::external_type_specification]
#[verifier::external_body]
pub struct ExUrl(url::Url);

/// `url::ParseError`, why a text is not an absolute URL.
#[verifier::external_type_specification]
#[verifier::external_body]
pub struct ExUrlParseError(url::ParseError);

/// The address that the mint's own wallet uses to reach the mint.
pub const MINT_URL: &'static str = "http://127.0.0.1:3338";

/// What `url::Url::parse` makes of a text: the parsed absolute URL, or
/// nothing where the text is not one.
pub uninterp spec fn url_parse(s: Seq<char>) -> Option<url::Url>;

/// Calls `url::Url::parse`. Claimed: it succeeds exactly on the texts that
/// the crate accepts, and the URL it returns is the crate's parse of the
/// text, named `url_parse`; what that URL holds is not described.
#[verifier::external_body]
fn parse_url(text: &str) -> (r: Result<url::Url, url::ParseError>)
    ensures
        r is Ok <==> url_parse(text@) is Some,
        r matches Ok(u) ==> url_parse(text@) == Some(u),
{
    url::Url::parse(text)
}

/// The fee that the mint keeps when it mints against a bill: the bill's
/// amount less the amount that the quote pays out.
pub fn bill_fee_amount(bill_amount: u64, quote_amount: u64) -> (fee: u64)
    requires
        quote_amount <= bill_amount,
    ensures
        fee == bill_amount - quote_amount,
        fee + quote_amount == bill_amount,
{
    bill_amount - quote_amount
}

/// The path under which a bill's credit tokens are minted.
pub open spec fn bill_mint_path(bill_id: Seq<char>) -> Seq<char> {
    "/"@ + bill_id + "/cr-sat"@
}

/// The address, as text, of the mint of a bill's credit tokens.
pub open spec fn fee_token_mint_text(bill_id: Seq<char>) -> Seq<char> {
    MINT_URL@ + bill_mint_path(bill_id)
}

/// The address, as text, under which the fee token for `bill_id` is minted.
pub fn fee_token_mint_address(bill_id: &str) -> (s: String)
    ensures
        s@ == fee_token_mint_text(bill_id@),
        s@ == "http://127.0.0.1:3338"@ + "/"@ + bill_id@ + "/cr-sat"@,
{
    let path = String::from_str("/").concat(bill_id).concat("/cr-sat");
    let address = String::from_str(MINT_URL).concat(path.as_str());
    assert(address@ =~= fee_token_mint_text(bill_id@));
    address
}

/// The URL of the mint that issues the fee token for `bill_id`, or why that
/// address does not parse.
pub fn fee_token_mint_url(bill_id: &str) -> (r: Result<url::Url, url::ParseError>)
    ensures
        r is Ok <==> url_parse(fee_token_mint_text(bill_id@)) is Some,
        r matches Ok(u) ==> url_parse(fee_token_mint_text(bill_id@)) == Some(u),
        r is Ok <==> url_parse("http://127.0.0.1:3338"@ + "/"@ + bill_id@ + "/cr-sat"@) is Some,
        r matches Ok(u) ==> url_parse("http://127.0.0.1:3338"@ + "/"@ + bill_id@ + "/cr-sat"@)
            == Some(u),
{
    let address = fee_token_mint_address(bill_id);
    parse_url(address.as_str())
}

/// The fee token of a bill is minted under the mint's address followed by
/// the whole bill id and the credit unit: the address is exactly
/// `http://127.0.0.1:3338/<bill_id>/cr-sat`, so it is 29 characters longer
/// than the bill id, and the bill id stands in it whole, from the 23rd
/// character on.
pub proof fn lemma_fee_token_mint_text(bill_id: Seq<char>)
    ensures
        fee_token_mint_text(bill_id) == "http://127.0.0.1:3338"@ + "/"@ + bill_id + "/cr-sat"@,
        fee_token_mint_text(bill_id).len() == bill_id.len() + 29,
        fee_token_mint_text(bill_id).subrange(22, 22 + bill_id.len() as int) == bill_id,
        fee_token_mint_text(bill_id).subrange(0, 22) == "http://127.0.0.1:3338/"@,
        fee_token_mint_text(bill_id).subrange(22 + bill_id.len() as int, 29 + bill_id.len() as int) == "/cr-sat"@,
{
    reveal_strlit("http://127.0.0.1:3338");
    reveal_strlit("http://127.0.0.1:3338/");
    reveal_strlit("/");
    reveal_strlit("/cr-sat");
    let t = fee_token_mint_text(bill_id);
    assert(t =~= "http://127.0.0.1:3338"@ + "/"@ + bill_id + "/cr-sat"@);
    assert(t.subrange(22, 22 + bill_id.len() as int) =~= bill_id);
    assert(t.subrange(0, 22) =~= "http://127.0.0.1:3338/"@);
    assert(t.subrange(22 + bill_id.len() as int, 29 + bill_id.len() as int) =~= "/cr-sat"@);
}

/// Pairs two lists element by element, in order, as far as the shorter one
/// goes; the rest of the longer one is dropped.
pub fn pair_in_order<A, B>(a: Vec<A>, b: Vec<B>) -> (pairs: Vec<(A, B)>)
    ensures
        pairs@.len() == if a@.len() <= b@.len() {
            a@.len()
        } else {
            b@.len()
        },
        forall|i: int| 0 <= i < pairs@.len() ==> #[trigger] pairs@[i] == (a@[i], b@[i]),
{
    let ghost a0 = a@;
    let ghost b0 = b@;
    let n: usize = if a.len() <= b.len() {
        a.len()
    } else {
        b.len()
    };
    let mut a = a;
    let mut b = b;
    let mut pairs: Vec<(A, B)> = Vec::new();
    let mut i: usize = 0;
    while i < n
        invariant
            i <= n,
            n <= a0.len(),
            n <= b0.len(),
            a@ == a0.skip(i as int),
            b@ == b0.skip(i as int),
            pairs@.len() == i,
            forall|j: int| 0 <= j < i ==> #[trigger] pairs@[j] == (a0[j], b0[j]),
        decreases n - i,
    {
        let x = a.remove(0);
        let y = b.remove(0);
        pairs.push((x, y));
        assert(a@ =~= a0.skip(i + 1));
        assert(b@ =~= b0.skip(i + 1));
        i = i + 1;
    }
    pairs
}

} // verus!
