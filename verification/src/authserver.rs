//! Requests to an authorization server's token and revocation endpoints.
//!
//! The gateway authenticates with a `private_key_jwt` client assertion and
//! shows a DPoP proof without `ath`. A server may answer with a `DPoP-Nonce`
//! challenge; the request is then made once more, with a new assertion and
//! a proof that carries the nonce.

use crate::codec::{percent_encode, percent_encoded};
use crate::error::{AppError, ErrorKind};
use crate::http::{header_of, header_value, FormPost, FormPostView, Header};
use crate::jwt::{
    client_assertion,
    dpop_proof,
    generate_client_assertion,
    make_dpop_proof,
    ProofAudience,
};
use crate::models::{DPoPKeyPair, DPoPKeyPairView};
use crate::stamp::{Stamp, Stamps};
use vstd::prelude::*;
use vstd::string::*;
use vstd::utf8::encode_utf8;

verus! {

/// The gateway as an OAuth client: its identifier and the key it signs
/// assertions with.
#[derive(Debug)]
pub struct ClientIdentity {
    pub client_id: String,
    /// The identifier of the active signing key.
    pub kid: String,
    /// The private scalar of the active signing key.
    pub secret: Vec<u8>,
}

impl ClientIdentity {
    /// Both are the same client with the same key.
    pub open spec fn same_as(&self, other: ClientIdentity) -> bool {
        self.client_id@ == other.client_id@ && self.kid@ == other.kid@ && self.secret@
            == other.secret@
    }

    /// A copy of this identity.
    pub fn duplicate(&self) -> (r: ClientIdentity)
        ensures
            r.same_as(*self),
    {
        ClientIdentity {
            client_id: self.client_id.clone(),
            kid: self.kid.clone(),
            secret: self.secret.clone(),
        }
    }
}

/// Which form is posted.
#[derive(Clone, Copy, Debug, PartialEq, Eq, Structural)]
pub enum Grant {
    /// `grant_type=refresh_token` to the token endpoint.
    Refresh,
    /// A token to the revocation endpoint.
    Revoke,
}

/// The assertion type of a `private_key_jwt` client.
pub open spec fn assertion_type() -> Seq<char> {
    "urn:ietf:params:oauth:client-assertion-type:jwt-bearer"@
}

/// `text`, percent-encoded for a form.
pub open spec fn form_value(text: Seq<char>) -> Seq<char> {
    percent_encoded(encode_utf8(text))
}

/// The form posted for `grant` with `token` (the refresh token to use, or
/// the token to revoke).
pub open spec fn form_body(
    grant: Grant,
    token: Seq<char>,
    client_id: Seq<char>,
    assertion: Seq<char>,
) -> Seq<char> {
    (match grant {
        Grant::Refresh => "grant_type=refresh_token&refresh_token="@,
        Grant::Revoke => "token="@,
    }) + form_value(token) + "&client_id="@ + form_value(client_id) + "&client_assertion_type="@
        + form_value(assertion_type()) + "&client_assertion="@ + form_value(assertion)
}

/// The request of one attempt: a new client assertion (stamped with
/// `stamps.assertion_jti`), a DPoP proof for `POST endpoint` without `ath`
/// (stamped with `stamps.proof_jti`, carrying `nonce` if there is one), and
/// the form.
pub open spec fn auth_post(
    grant: Grant,
    endpoint: Seq<char>,
    token: Seq<char>,
    client_id: Seq<char>,
    kid: Seq<char>,
    secret: Seq<u8>,
    key: DPoPKeyPairView,
    nonce: Option<Seq<char>>,
    now: i64,
    assertion_jti: Seq<char>,
    proof_jti: Seq<char>,
) -> Result<FormPostView, ErrorKind> {
    match client_assertion(client_id, kid, secret, endpoint, assertion_jti, now) {
        Err(kind) => Err(kind),
        Ok(assertion) => match dpop_proof(
            ProofAudience::AuthorizationServer,
            key,
            "POST"@,
            endpoint,
            Seq::empty(),
            nonce,
            proof_jti,
            now,
        ) {
            Err(kind) => Err(kind),
            Ok(proof) => Ok(
                FormPostView {
                    url: endpoint,
                    dpop: proof,
                    body: form_body(grant, token, client_id, assertion),
                },
            ),
        },
    }
}

/// A built request as plain values; of an error, its kind.
pub open spec fn post_outcome(r: Result<FormPost, AppError>) -> Result<FormPostView, ErrorKind> {
    match r {
        Ok(p) => Ok(p@),
        Err(e) => Err(e@.kind),
    }
}

/// The nonce a response challenges with: the value of its `DPoP-Nonce`
/// header, if its status is 400, or 401 where `on_unauthorized` is set.
pub open spec fn nonce_challenge(
    status: u16,
    headers: Seq<Header>,
    on_unauthorized: bool,
) -> Option<Seq<char>> {
    if status == 400 || (on_unauthorized && status == 401) {
        header_of(headers, "dpop-nonce"@)
    } else {
        None
    }
}

/// Builds the request of one attempt.
pub fn build_post(
    grant: Grant,
    endpoint: &str,
    token: &str,
    client: &ClientIdentity,
    key: &DPoPKeyPair,
    nonce: Option<String>,
    stamps: &Stamps,
) -> (r: Result<FormPost, AppError>)
    ensures
        post_outcome(r) == auth_post(
            grant,
            endpoint@,
            token@,
            client.client_id@,
            client.kid@,
            client.secret@,
            key@,
            nonce.deep_view(),
            stamps.now,
            stamps.assertion_jti@,
            stamps.proof_jti@,
        ),
{
    let assertion_stamp = Stamp { now: stamps.now, jti: stamps.assertion_jti.clone() };
    let proof_stamp = Stamp { now: stamps.now, jti: stamps.proof_jti.clone() };
    let assertion = match generate_client_assertion(
        client.client_id.as_str(),
        client.kid.as_str(),
        client.secret.as_slice(),
        endpoint,
        &assertion_stamp,
    ) {
        Ok(a) => a,
        Err(e) => {
            return Err(e);
        },
    };
    let proof = match make_dpop_proof(
        ProofAudience::AuthorizationServer,
        key,
        "POST",
        endpoint,
        "",
        nonce,
        &proof_stamp,
    ) {
        Ok(p) => p,
        Err(e) => {
            return Err(e);
        },
    };
    let mut body = match grant {
        Grant::Refresh => String::from_str("grant_type=refresh_token&refresh_token="),
        Grant::Revoke => String::from_str("token="),
    };
    body.append(percent_encode(token).as_str());
    body.append("&client_id=");
    body.append(percent_encode(client.client_id.as_str()).as_str());
    body.append("&client_assertion_type=");
    body.append(
        percent_encode("urn:ietf:params:oauth:client-assertion-type:jwt-bearer").as_str(),
    );
    body.append("&client_assertion=");
    body.append(percent_encode(assertion.as_str()).as_str());
    proof {
        reveal_strlit("");
        assert(""@ =~= Seq::<char>::empty());
    }
    Ok(FormPost { url: String::from_str(endpoint), dpop: proof, body })
}

/// The nonce a response challenges with, if it does.
pub fn challenge(status: u16, headers: &Vec<Header>, on_unauthorized: bool) -> (r: Option<String>)
    ensures
        r.deep_view() == nonce_challenge(status, headers@, on_unauthorized),
{
    if status == 400 || (on_unauthorized && status == 401) {
        header_value(headers, "dpop-nonce")
    } else {
        None
    }
}

} // verus!
