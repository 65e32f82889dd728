//! The request payload: an identifier fresh for each call, the partner it
//! belongs to, and the fixed incentive value — together with its one JSON
//! rendering, which serves both as the transmitted body and as the input to
//! the payload hash.

use vstd::prelude::*;

verus! {

use crate::codec::decimal_of_int;
use crate::codec::i64_to_decimal;
use crate::codec::json_quote;
use crate::codec::json_string_of;
use vstd::string::StrSliceExecFns;
use vstd::string::StringExecFns;

/// The incentive granted by one request.
#[derive(Debug)]
pub struct RequestPayloadValue {
    pub currency_code: String,
    pub amount: i64,
}

/// One gift-card creation request. The creation request identifier begins
/// with the partner id followed by a hyphen.
#[derive(Debug)]
pub struct RequestPayload {
    pub creation_request_id: String,
    pub partner_id: String,
    pub value: RequestPayloadValue,
}

/// The JSON rendering of a payload, field for field in the fixed order the
/// wire format asks for.
pub open spec fn payload_json_of(
    id: Seq<char>,
    partner: Seq<char>,
    currency: Seq<char>,
    amount: int,
) -> Seq<char> {
    "{\"creationRequestId\":"@ + json_string_of(id) + ",\"partnerId\":"@ + json_string_of(partner)
        + ",\"value\":{\"currencyCode\":"@ + json_string_of(currency) + ",\"amount\":"@
        + decimal_of_int(amount) + "}}"@
}

/// The JSON rendering of one payload value.
pub open spec fn payload_json_view(p: RequestPayload) -> Seq<char> {
    payload_json_of(
        p.creation_request_id@,
        p.partner_id@,
        p.value.currency_code@,
        p.value.amount as int,
    )
}

/// Relies on `uuid::Uuid::new_v4` and its hyphenated `Display` form: 36
/// ASCII characters. The value is random: nothing relates two calls.
#[verifier::external_body]
fn fresh_uuid_string() -> (r: String)
    ensures
        r@.len() == 36,
{
    uuid::Uuid::new_v4().to_string()
}

impl RequestPayload {
    /// Builds a payload with a fresh creation request identifier
    /// `<partner_id>-<random_segment>`. The identifier stays within 40
    /// characters whenever the partner id has at most 26.
    pub fn new(aws_partner_id: String, amount: i64) -> (r: Self)
        ensures
            r.partner_id@ == aws_partner_id@,
            r.value.currency_code@ == "USD"@,
            r.value.amount == amount,
            r.creation_request_id@.len() == aws_partner_id@.len() + 14,
            r.creation_request_id@.subrange(0, aws_partner_id@.len() as int) == aws_partner_id@,
            r.creation_request_id@[aws_partner_id@.len() as int] == '-',
            aws_partner_id@.len() <= 26 ==> r.creation_request_id@.len() <= 40,
    {
        let uuid_string = fresh_uuid_string();
        // 13 characters of the rendering keep the full identifier within the
        // 40-character budget for partner ids of up to 26.
        let uuid_segment = uuid_string.as_str().substring_char(0, 13);
        let creation_request_id = aws_partner_id.clone().concat("-").concat(uuid_segment);
        proof {
            reveal_strlit("-");
            assert(creation_request_id@.subrange(0, aws_partner_id@.len() as int)
                =~= aws_partner_id@);
        }
        Self {
            creation_request_id,
            partner_id: aws_partner_id,
            value: RequestPayloadValue { currency_code: "USD".to_owned(), amount },
        }
    }

    /// Renders the payload as JSON, exactly once per request: the same string
    /// is used as the transmitted body and as the input to the payload hash.
    pub fn to_json(&self) -> (r: String)
        ensures
            r@ == payload_json_view(*self),
    {
        let r = "{\"creationRequestId\":".to_owned()
            .concat(json_quote(self.creation_request_id.as_str()).as_str())
            .concat(",\"partnerId\":")
            .concat(json_quote(self.partner_id.as_str()).as_str())
            .concat(",\"value\":{\"currencyCode\":")
            .concat(json_quote(self.value.currency_code.as_str()).as_str())
            .concat(",\"amount\":")
            .concat(i64_to_decimal(self.value.amount).as_str())
            .concat("}}");
        proof {
            assert(r@ =~= payload_json_view(*self));
        }
        r
    }
}

} // verus!
