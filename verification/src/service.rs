//! The request-signing engine and the orchestrator around it: the canonical
//! request, the derived signing key, the string to sign, the authorization
//! header, and the one operation that issues a claim code through a caller
//! supplied transport.

use vstd::prelude::*;

verus! {

use crate::codec::header_value_ok;
use crate::codec::valid_header_value;
use crate::errors::GiftCardError;
use crate::hashing::hex_of;
use crate::hashing::hmac_sha256;
use crate::hashing::hmac_sha256_of;
use crate::hashing::sha256;
use crate::hashing::sha256_of;
use crate::hashing::to_hex;
use crate::request::payload_json_view;
use crate::request::RequestPayload;
use crate::response::claim_code_member;
use crate::response::decode_claim_code;
use crate::response::json_document_ok;
use crate::response::json_string_members;
use vstd::string::StrSliceExecFns;
use vstd::string::StringExecFns;
use vstd::utf8::encode_utf8;

/// The value of the `x-amz-target` header for the one action this crate
/// performs.
pub open spec fn amazon_target_of(service: Seq<char>) -> Seq<char> {
    "com.amazonaws.agcod."@ + service + ".CreateGiftCard"@
}

/// The fixed-layout canonical request: method, path, the signed header subset
/// in the protocol-fixed order, the signed-header name list, and the hex
/// digest of the payload. The trimmed form is hashed as it stands here, with
/// no trailing whitespace.
pub open spec fn canonical_request_of(
    host: Seq<char>,
    service: Seq<char>,
    date: Seq<char>,
    payload_json: Seq<char>,
) -> Seq<char> {
    "POST\n/CreateGiftCard\n\naccept:application/json\nhost:"@ + host + "\nx-amz-date:"@ + date
        + "\nx-amz-target:"@ + amazon_target_of(service)
        + "\n\naccept;host;x-amz-date;x-amz-target\n"@ + hex_of(sha256_of(payload_json))
}

/// The hex SHA-256 digest of the canonical request: a pure function of the
/// host, the action's service name, the timestamp and the payload bytes.
pub open spec fn canonical_request_hash_of(
    host: Seq<char>,
    service: Seq<char>,
    date: Seq<char>,
    payload_json: Seq<char>,
) -> Seq<char> {
    hex_of(sha256_of(canonical_request_of(host, service, date, payload_json)))
}

/// The four-step keyed-hash chain deriving the per-request signing key from
/// the secret, the 8-character date, the region and the service name.
pub open spec fn derived_key_of(
    secret: Seq<char>,
    date8: Seq<char>,
    region: Seq<char>,
    service: Seq<char>,
) -> Seq<u8> {
    hmac_sha256_of(
        "aws4_request"@,
        hmac_sha256_of(service, hmac_sha256_of(region, hmac_sha256_of(date8, encode_utf8("AWS4"@ + secret)))),
    )
}

/// The string to sign: algorithm tag, full timestamp, credential scope, and
/// the canonical request hash, each on its own line. The scope's date is the
/// timestamp's own first 8 characters: header date and key-chain date cannot
/// drift apart.
pub open spec fn string_to_sign_of(
    date: Seq<char>,
    region: Seq<char>,
    service: Seq<char>,
    canonical_hash: Seq<char>,
) -> Seq<char>
    recommends
        date.len() >= 8,
{
    "AWS4-HMAC-SHA256\n"@ + date + "\n"@ + date.subrange(0, 8) + "/"@ + region + "/"@ + service
        + "/aws4_request\n"@ + canonical_hash
}

/// The hex request signature: the string to sign keyed-hashed under the
/// derived signing key, both taken from the same timestamp.
pub open spec fn signature_of(
    secret: Seq<char>,
    region: Seq<char>,
    service: Seq<char>,
    date: Seq<char>,
    canonical_hash: Seq<char>,
) -> Seq<char> {
    hex_of(
        hmac_sha256_of(
            string_to_sign_of(date, region, service, canonical_hash),
            derived_key_of(secret, date.subrange(0, 8), region, service),
        ),
    )
}

/// The signed-header list as the authorization header carries it, membership
/// and order fixed by the protocol.
pub open spec fn signed_headers_clause() -> Seq<char> {
    "SignedHeaders=accept;host;x-amz-date;x-amz-target"@
}

/// The authorization header value: algorithm tag, credential scope,
/// signed-header list, hex signature.
pub open spec fn authorization_header_of(
    access: Seq<char>,
    date8: Seq<char>,
    region: Seq<char>,
    service: Seq<char>,
    signature: Seq<char>,
) -> Seq<char> {
    "AWS4-HMAC-SHA256 Credential="@ + access + "/"@ + date8 + "/"@ + region + "/"@ + service
        + "/aws4_request, "@ + signed_headers_clause() + ", Signature="@ + signature
}

/// The immutable configuration of the service: set at construction, never
/// mutated, safe to share between concurrent calls.
pub struct ServiceImpl {
    pub aws_partner_id: String,
    pub aws_incentives_secret_signing_key: String,
    pub aws_incentives_access_key: String,
    pub aws_incentives_host: String,
    pub aws_incentives_url: String,
    pub aws_region_name: String,
    pub aws_service_name: String,
    pub incentive_amount: i64,
}

impl ServiceImpl {
    /// Builds the configuration. Region, service name and incentive amount
    /// are fixed constants of this deployment.
    pub fn new(
        aws_partner_id: String,
        aws_incentives_access_key: String,
        aws_incentives_secret_signing_key: String,
        aws_incentives_host: String,
        aws_incentives_url: String,
    ) -> (r: Self)
        ensures
            r.aws_partner_id@ == aws_partner_id@,
            r.aws_incentives_access_key@ == aws_incentives_access_key@,
            r.aws_incentives_secret_signing_key@ == aws_incentives_secret_signing_key@,
            r.aws_incentives_host@ == aws_incentives_host@,
            r.aws_incentives_url@ == aws_incentives_url@,
            r.aws_region_name@ == "us-east-1"@,
            r.aws_service_name@ == "AGCODService"@,
            r.incentive_amount == 5,
    {
        Self {
            aws_partner_id,
            aws_incentives_secret_signing_key,
            aws_incentives_access_key,
            aws_incentives_host,
            aws_incentives_url,
            aws_region_name: "us-east-1".to_owned(),
            aws_service_name: "AGCODService".to_owned(),
            incentive_amount: 5,
        }
    }

    /// Builds the canonical request from the timestamp and the payload's one
    /// JSON rendering, and reduces it to its hex SHA-256 digest. The
    /// canonical host is the configured transport host itself.
    pub fn generate_canonical_request(&self, date: &str, payload_json: &str) -> (r: String)
        ensures
            r@ == canonical_request_hash_of(
                self.aws_incentives_host@,
                self.aws_service_name@,
                date@,
                payload_json@,
            ),
    {
        let payload_hash = to_hex(&sha256(payload_json));
        let request = "POST\n/CreateGiftCard\n\naccept:application/json\nhost:".to_owned()
            .concat(self.aws_incentives_host.as_str())
            .concat("\nx-amz-date:")
            .concat(date)
            .concat("\nx-amz-target:")
            .concat("com.amazonaws.agcod.")
            .concat(self.aws_service_name.as_str())
            .concat(".CreateGiftCard")
            .concat("\n\naccept;host;x-amz-date;x-amz-target\n")
            .concat(payload_hash.as_str());
        proof {
            assert(request@ =~= canonical_request_of(
                self.aws_incentives_host@,
                self.aws_service_name@,
                date@,
                payload_json@,
            ));
        }
        to_hex(&sha256(request.as_str()))
    }

    /// Builds the string to sign from the canonical request hash and the
    /// timestamp whose first 8 characters scope the credential.
    pub fn build_string_to_sign(&self, canonical_request_hash: String, date: &str) -> (r: String)
        requires
            date@.len() >= 8,
        ensures
            r@ == string_to_sign_of(
                date@,
                self.aws_region_name@,
                self.aws_service_name@,
                canonical_request_hash@,
            ),
    {
        let abridged_date = date.substring_char(0, 8);
        let r = "AWS4-HMAC-SHA256\n".to_owned()
            .concat(date)
            .concat("\n")
            .concat(abridged_date)
            .concat("/")
            .concat(self.aws_region_name.as_str())
            .concat("/")
            .concat(self.aws_service_name.as_str())
            .concat("/aws4_request\n")
            .concat(canonical_request_hash.as_str());
        proof {
            assert(r@ =~= string_to_sign_of(
                date@,
                self.aws_region_name@,
                self.aws_service_name@,
                canonical_request_hash@,
            ));
        }
        r
    }

    /// Derives the per-request signing key by the four-round keyed-hash
    /// chain over the secret, the date, the region and the service name.
    pub fn build_derived_key(&self, date: &str) -> (r: Vec<u8>)
        requires
            date@.len() >= 8,
        ensures
            r@ == derived_key_of(
                self.aws_incentives_secret_signing_key@,
                date@.subrange(0, 8),
                self.aws_region_name@,
                self.aws_service_name@,
            ),
    {
        let signature_aws_key = "AWS4".to_owned().concat(
            self.aws_incentives_secret_signing_key.as_str(),
        );
        let abridged_date = date.substring_char(0, 8);
        let date_key = hmac_sha256(abridged_date, signature_aws_key.as_str().as_bytes());
        let region_key = hmac_sha256(self.aws_region_name.as_str(), date_key.as_slice());
        let service_key = hmac_sha256(self.aws_service_name.as_str(), region_key.as_slice());
        let signing_key = hmac_sha256("aws4_request", service_key.as_slice());
        signing_key
    }

    /// Assembles the authorization header value: credential scope,
    /// signed-header list and the hex signature of the string to sign under
    /// the derived key.
    pub fn generate_authorization_header(&self, string_to_sign: String, date: &str) -> (r: String)
        requires
            date@.len() >= 8,
        ensures
            r@ == authorization_header_of(
                self.aws_incentives_access_key@,
                date@.subrange(0, 8),
                self.aws_region_name@,
                self.aws_service_name@,
                hex_of(
                    hmac_sha256_of(
                        string_to_sign@,
                        derived_key_of(
                            self.aws_incentives_secret_signing_key@,
                            date@.subrange(0, 8),
                            self.aws_region_name@,
                            self.aws_service_name@,
                        ),
                    ),
                ),
            ),
    {
        let derived_key = self.build_derived_key(date);
        let final_signature = hmac_sha256(string_to_sign.as_str(), derived_key.as_slice());
        let signature_hex = to_hex(&final_signature);
        let abridged_date = date.substring_char(0, 8);
        let r = "AWS4-HMAC-SHA256 Credential=".to_owned()
            .concat(self.aws_incentives_access_key.as_str())
            .concat("/")
            .concat(abridged_date)
            .concat("/")
            .concat(self.aws_region_name.as_str())
            .concat("/")
            .concat(self.aws_service_name.as_str())
            .concat("/aws4_request, ")
            .concat("SignedHeaders=accept;host;x-amz-date;x-amz-target")
            .concat(", Signature=")
            .concat(signature_hex.as_str());
        proof {
            assert(r@ =~= authorization_header_of(
                self.aws_incentives_access_key@,
                date@.subrange(0, 8),
                self.aws_region_name@,
                self.aws_service_name@,
                signature_hex@,
            ));
        }
        r
    }
}

/// The authorization header value a configuration produces for one timestamp
/// and one payload rendering.
pub open spec fn authorization_of(c: ServiceImpl, date: Seq<char>, payload_json: Seq<char>) -> Seq<
    char,
> {
    authorization_header_of(
        c.aws_incentives_access_key@,
        date.subrange(0, 8),
        c.aws_region_name@,
        c.aws_service_name@,
        signature_of(
            c.aws_incentives_secret_signing_key@,
            c.aws_region_name@,
            c.aws_service_name@,
            date,
            canonical_request_hash_of(
                c.aws_incentives_host@,
                c.aws_service_name@,
                date,
                payload_json,
            ),
        ),
    )
}

/// The headers of one signed request, name and value, in the order they are
/// assembled: the signed subset, the content type, the informational region
/// and service names, and the authorization header.
pub open spec fn service_headers_of(
    c: ServiceImpl,
    date: Seq<char>,
    payload_json: Seq<char>,
) -> Seq<(Seq<char>, Seq<char>)> {
    seq![
        ("host"@, c.aws_incentives_host@),
        ("x-amz-date"@, date),
        ("x-amz-target"@, amazon_target_of(c.aws_service_name@)),
        ("accept"@, "application/json"@),
        ("content-type"@, "application/json"@),
        ("regionName"@, c.aws_region_name@),
        ("serviceName"@, c.aws_service_name@),
        ("Authorization"@, authorization_of(c, date, payload_json)),
    ]
}

/// Whether a configuration and a timestamp yield headers the transport's
/// header encoding accepts. The signature never decides this: it renders in
/// hex, which every header accepts, so the payload standing in for the body
/// is immaterial and the empty rendering serves as the canonical one.
pub open spec fn header_values_acceptable(c: ServiceImpl, date: Seq<char>) -> bool {
    forall|i: int|
        0 <= i < service_headers_of(c, date, Seq::empty()).len() ==> valid_header_value(
            service_headers_of(c, date, Seq::empty())[i].1,
        )
}

/// Whether a request's headers are acceptable depends on the configuration
/// and the timestamp alone, never on the payload: only the authorization
/// header sees the payload, and only through the hex signature, which every
/// header accepts.
pub proof fn lemma_header_acceptance_ignores_payload(
    c: ServiceImpl,
    date: Seq<char>,
    payload_json: Seq<char>,
)
    ensures
        (forall|i: int|
            0 <= i < service_headers_of(c, date, payload_json).len() ==> valid_header_value(
                service_headers_of(c, date, payload_json)[i].1,
            )) <==> header_values_acceptable(c, date),
{
    let with_payload = service_headers_of(c, date, payload_json);
    let canonical = service_headers_of(c, date, Seq::empty());
    let front = "AWS4-HMAC-SHA256 Credential="@ + c.aws_incentives_access_key@ + "/"@
        + date.subrange(0, 8) + "/"@ + c.aws_region_name@ + "/"@ + c.aws_service_name@
        + "/aws4_request, "@ + signed_headers_clause() + ", Signature="@;
    let sig_with = signature_of(
        c.aws_incentives_secret_signing_key@,
        c.aws_region_name@,
        c.aws_service_name@,
        date,
        canonical_request_hash_of(c.aws_incentives_host@, c.aws_service_name@, date, payload_json),
    );
    let sig_canonical = signature_of(
        c.aws_incentives_secret_signing_key@,
        c.aws_region_name@,
        c.aws_service_name@,
        date,
        canonical_request_hash_of(
            c.aws_incentives_host@,
            c.aws_service_name@,
            date,
            Seq::empty(),
        ),
    );
    assert(authorization_of(c, date, payload_json) == front + sig_with);
    assert(authorization_of(c, date, Seq::empty()) == front + sig_canonical);
    crate::codec::lemma_valid_header_value_concat(front, sig_with);
    crate::codec::lemma_valid_header_value_concat(front, sig_canonical);
    crate::codec::lemma_hex_is_valid_header_value(
        hmac_sha256_of(
            string_to_sign_of(
                date,
                c.aws_region_name@,
                c.aws_service_name@,
                canonical_request_hash_of(
                    c.aws_incentives_host@,
                    c.aws_service_name@,
                    date,
                    payload_json,
                ),
            ),
            derived_key_of(
                c.aws_incentives_secret_signing_key@,
                date.subrange(0, 8),
                c.aws_region_name@,
                c.aws_service_name@,
            ),
        ),
    );
    crate::codec::lemma_hex_is_valid_header_value(
        hmac_sha256_of(
            string_to_sign_of(
                date,
                c.aws_region_name@,
                c.aws_service_name@,
                canonical_request_hash_of(
                    c.aws_incentives_host@,
                    c.aws_service_name@,
                    date,
                    Seq::empty(),
                ),
            ),
            derived_key_of(
                c.aws_incentives_secret_signing_key@,
                date.subrange(0, 8),
                c.aws_region_name@,
                c.aws_service_name@,
            ),
        ),
    );
    assert(valid_header_value(with_payload[7].1) <==> valid_header_value(canonical[7].1));
    assert forall|i: int| 0 <= i < 7 implies with_payload[i].1 == canonical[i].1 by {}
    if (forall|i: int|
        0 <= i < with_payload.len() ==> valid_header_value(with_payload[i].1)) {
        assert forall|i: int|
            0 <= i < canonical.len() implies valid_header_value(canonical[i].1) by {
            assert(valid_header_value(with_payload[i].1));
        }
    }
    if (forall|i: int| 0 <= i < canonical.len() ==> valid_header_value(canonical[i].1)) {
        assert forall|i: int|
            0 <= i < with_payload.len() implies valid_header_value(with_payload[i].1) by {
            assert(valid_header_value(canonical[i].1));
        }
    }
}

/// One fully assembled request, ready to dispatch: the target URL, the
/// headers in order, and the body — the payload's one JSON rendering.
#[derive(Debug)]
pub struct SignedRequest {
    pub url: String,
    pub headers: Vec<(String, String)>,
    pub body: String,
}

/// The outward HTTP transport, an external collaborator: implementers send
/// one POST and hand back the raw response body, or the cause of a transport
/// failure. Its contract promises nothing: callers handle every outcome.
pub trait Transport {
    fn post(&self, url: &String, headers: &Vec<(String, String)>, body: &String) -> Result<
        Vec<u8>,
        String,
    >;
}

impl ServiceImpl {
    /// Assembles the one signed request for a timestamp and a payload: body,
    /// URL and every header, the authorization header derived from the same
    /// timestamp and the same payload rendering as the body. Construction
    /// fails fast on the first header value the transport's header encoding
    /// would refuse, naming the header.
    pub fn build_signed_request(&self, date: &str, payload: &RequestPayload) -> (r: Result<
        SignedRequest,
        GiftCardError,
    >)
        requires
            date@.len() >= 8,
        ensures
            (r is Ok <==> forall|i: int|
                0 <= i < service_headers_of(*self, date@, payload_json_view(*payload)).len()
                    ==> valid_header_value(
                    service_headers_of(*self, date@, payload_json_view(*payload))[i].1,
                )),
            (r matches Ok(req) ==> {
                &&& req.url@ == self.aws_incentives_url@ + "/CreateGiftCard"@
                &&& req.body@ == payload_json_view(*payload)
                &&& req.headers@.len() == service_headers_of(
                    *self,
                    date@,
                    payload_json_view(*payload),
                ).len()
                &&& forall|i: int|
                    0 <= i < req.headers@.len() ==> req.headers@[i].0@ == service_headers_of(
                        *self,
                        date@,
                        payload_json_view(*payload),
                    )[i].0 && req.headers@[i].1@ == service_headers_of(
                        *self,
                        date@,
                        payload_json_view(*payload),
                    )[i].1
            }),
            (r matches Err(e) ==> e matches GiftCardError::InvalidHeader { name } && (exists|
                i: int,
            |
                0 <= i < service_headers_of(*self, date@, payload_json_view(*payload)).len()
                    && name@ == service_headers_of(*self, date@, payload_json_view(*payload))[i].0
                    && !valid_header_value(
                    service_headers_of(*self, date@, payload_json_view(*payload))[i].1,
                ) && (forall|j: int|
                    0 <= j < i ==> valid_header_value(
                        service_headers_of(*self, date@, payload_json_view(*payload))[j].1,
                    )))),
    {
        let ghost spec_headers = service_headers_of(*self, date@, payload_json_view(*payload));
        let payload_json = payload.to_json();
        let canonical_hash = self.generate_canonical_request(date, payload_json.as_str());
        let string_to_sign = self.build_string_to_sign(canonical_hash, date);
        let authorization = self.generate_authorization_header(string_to_sign, date);
        let amazon_target = "com.amazonaws.agcod.".to_owned().concat(
            self.aws_service_name.as_str(),
        ).concat(".CreateGiftCard");
        let mut headers: Vec<(String, String)> = Vec::new();
        headers.push(("host".to_owned(), self.aws_incentives_host.clone()));
        headers.push(("x-amz-date".to_owned(), date.to_owned()));
        headers.push(("x-amz-target".to_owned(), amazon_target));
        headers.push(("accept".to_owned(), "application/json".to_owned()));
        headers.push(("content-type".to_owned(), "application/json".to_owned()));
        headers.push(("regionName".to_owned(), self.aws_region_name.clone()));
        headers.push(("serviceName".to_owned(), self.aws_service_name.clone()));
        headers.push(("Authorization".to_owned(), authorization));
        proof {
            assert forall|i: int| 0 <= i < 8 implies headers@[i].0@ == spec_headers[i].0
                && headers@[i].1@ == spec_headers[i].1 by {
                assert(amazon_target_of(self.aws_service_name@) == "com.amazonaws.agcod."@
                    + self.aws_service_name@ + ".CreateGiftCard"@);
            }
        }
        let mut i: usize = 0;
        while i < headers.len()
            invariant
                i <= headers.len(),
                headers@.len() == 8,
                spec_headers == service_headers_of(*self, date@, payload_json_view(*payload)),
                spec_headers.len() == 8,
                forall|k: int|
                    0 <= k < 8 ==> headers@[k].0@ == spec_headers[k].0 && headers@[k].1@
                        == spec_headers[k].1,
                forall|j: int| 0 <= j < i ==> valid_header_value(spec_headers[j].1),
            decreases headers.len() - i,
        {
            if !header_value_ok(headers[i].1.as_str()) {
                let name = headers[i].0.clone();
                proof {
                    assert((i as int) < spec_headers.len() && name@ == spec_headers[i as int].0
                        && !valid_header_value(spec_headers[i as int].1));
                    assert(!(forall|k: int|
                        0 <= k < spec_headers.len() ==> valid_header_value(spec_headers[k].1)));
                }
                return Err(GiftCardError::InvalidHeader { name });
            }
            i = i + 1;
        }
        let url = self.aws_incentives_url.clone().concat("/CreateGiftCard");
        Ok(SignedRequest { url, headers, body: payload_json })
    }

    /// Issues one claim code for one already captured timestamp: builds the
    /// payload with a fresh request identifier, signs, dispatches through the
    /// given transport, and decodes the response. A transport failure
    /// surfaces as a transport error; a body without the claim code as a
    /// decode error carrying the raw body; a configuration whose headers the
    /// transport encoding refuses is reported before anything is sent.
    pub fn generate_giftcard_code<T: Transport>(&self, transport: &T, date: &str) -> (r: Result<
        String,
        GiftCardError,
    >)
        requires
            date@.len() >= 8,
        ensures
            (r matches Ok(code) ==> exists|b: Seq<u8>|
                json_document_ok(b) && json_string_members(b).contains_key(claim_code_member())
                    && code@ == json_string_members(b)[claim_code_member()]),
            (r matches Err(e) ==> (e matches GiftCardError::DecodeError { body, cause: _ } ==> !(
            json_document_ok(body@) && json_string_members(body@).contains_key(
                claim_code_member(),
            )))),
            (r matches Err(GiftCardError::InvalidHeader { .. })) <==> !header_values_acceptable(
                *self,
                date@,
            ),
            (r matches Err(GiftCardError::TransportError { .. }) ==> header_values_acceptable(
                *self,
                date@,
            )),
    {
        let payload = RequestPayload::new(self.aws_partner_id.clone(), self.incentive_amount);
        let built = self.build_signed_request(date, &payload);
        proof {
            lemma_header_acceptance_ignores_payload(*self, date@, payload_json_view(payload));
        }
        let request = match built {
            Ok(request) => request,
            Err(e) => { return Err(e) },
        };
        let outcome = transport.post(&request.url, &request.headers, &request.body);
        let ghost delivered = outcome;
        let r = settle_transport_outcome(outcome);
        proof {
            if r is Ok && delivered is Ok {
                let bytes = delivered->Ok_0;
                assert(json_document_ok(bytes@) && json_string_members(bytes@).contains_key(
                    claim_code_member(),
                ) && r->Ok_0@ == json_string_members(bytes@)[claim_code_member()]);
            }
        }
        r
    }
}

/// Settles one transport outcome, whatever the transport did: a transport
/// failure becomes exactly a transport error carrying the cause and nothing
/// else does; a delivered body is decoded, and the claim code or the decode
/// error carrying that body is fixed by the body alone.
pub fn settle_transport_outcome(outcome: Result<Vec<u8>, String>) -> (r: Result<
    String,
    GiftCardError,
>)
    ensures
        (outcome matches Err(cause) ==> r matches Err(GiftCardError::TransportError { cause: c })
            && c@ == cause@),
        (r matches Err(GiftCardError::TransportError { .. }) ==> outcome is Err),
        (outcome matches Ok(bytes) ==> {
            &&& (r is Ok <==> json_document_ok(bytes@) && json_string_members(
                bytes@,
            ).contains_key(claim_code_member()))
            &&& (r matches Ok(code) ==> code@ == json_string_members(bytes@)[claim_code_member()])
            &&& (r matches Err(e) ==> e matches GiftCardError::DecodeError { body: raw, cause: _ }
                && raw@ == bytes@)
        }),
{
    match outcome {
        Ok(bytes) => match decode_claim_code(&bytes) {
            Ok(response) => Ok(response.claim_code().to_owned()),
            Err(e) => Err(e),
        },
        Err(cause) => Err(GiftCardError::TransportError { cause }),
    }
}

/// Issues fresh gift-card claim codes: one call, one new unrelated code or
/// one terminal error. A returned code is always one that some delivered
/// body carried as its `gcClaimCode` member, and a decode error is returned
/// only for a body that carries none.
pub trait IncentivesService {
    fn generate(&self) -> (r: Result<String, GiftCardError>)
        ensures
            (r matches Ok(code) ==> exists|b: Seq<u8>|
                json_document_ok(b) && json_string_members(b).contains_key(claim_code_member())
                    && code@ == json_string_members(b)[claim_code_member()]),
            (r matches Err(e) ==> (e matches GiftCardError::DecodeError { body, cause: _ } ==> !(
            json_document_ok(body@) && json_string_members(body@).contains_key(
                claim_code_member(),
            )))),
    ;
}

/// Relies on `chrono::Utc::now` and `DateTime::to_rfc3339_opts` with seconds
/// precision and the `Z` suffix: one UTC instant, rendered compact by
/// stripping the date hyphens and the time colons. Every rendering chrono can
/// produce leaves at least 16 characters.
#[verifier::external_body]
fn now_amz_date() -> (r: String)
    ensures
        r@.len() >= 16,
{
    chrono::Utc::now().to_rfc3339_opts(chrono::SecondsFormat::Secs, true).replace(":", "").replace(
        "-",
        "",
    )
}

/// The configuration paired with a transport: the complete service. Each call
/// captures its own instant and builds its own payload and signature; no
/// state is shared between calls.
pub struct Client<T> {
    pub service: ServiceImpl,
    pub transport: T,
}

impl<T: Transport> Client<T> {
    /// Pairs a configuration with a transport.
    pub fn new(service: ServiceImpl, transport: T) -> (r: Self)
        ensures
            r.service == service,
            r.transport == transport,
    {
        Client { service, transport }
    }
}

impl<T: Transport> IncentivesService for Client<T> {
    fn generate(&self) -> Result<String, GiftCardError> {
        let date = now_amz_date();
        self.service.generate_giftcard_code(&self.transport, date.as_str())
    }
}

/// Builds the configuration from the required construction-time values.
pub fn new_service(
    aws_partner_id: String,
    aws_incentives_access_key: String,
    aws_incentives_secret_signing_key: String,
    aws_incentives_host: String,
    aws_incentives_url: String,
) -> (r: ServiceImpl)
    ensures
        r.aws_partner_id@ == aws_partner_id@,
        r.aws_incentives_access_key@ == aws_incentives_access_key@,
        r.aws_incentives_secret_signing_key@ == aws_incentives_secret_signing_key@,
        r.aws_incentives_host@ == aws_incentives_host@,
        r.aws_incentives_url@ == aws_incentives_url@,
        r.aws_region_name@ == "us-east-1"@,
        r.aws_service_name@ == "AGCODService"@,
        r.incentive_amount == 5,
{
    ServiceImpl::new(
        aws_partner_id,
        aws_incentives_access_key,
        aws_incentives_secret_signing_key,
        aws_incentives_host,
        aws_incentives_url,
    )
}

} // verus!
