//! The transfer orchestrator: turning a request and a resolved origin set
//! into a concrete, authenticated transfer plan, and judging the response.
//! No file or network side effect happens before a credential is confirmed:
//! the caller gets a complete plan, or an error and nothing else.

use vstd::prelude::*;
use vstd::string::StringExecFns;

use crate::credentials::selection_ok;
use crate::credentials::Credentials;
use crate::error::MyError;
use crate::pelican::PelicanInfo;
use crate::strings::seq_after_prefix;
use crate::strings::spec_decimal;
use crate::strings::str_strip_prefix;
use crate::strings::u16_to_decimal;

verus! {

/// The direction of a transfer.
#[derive(Clone, Copy, Debug, PartialEq, Eq, Structural)]
pub enum Verb {
    /// Upload the local file to the origin.
    Put,
    /// Download the object into the local file.
    Get,
}

/// One requested transfer: the federation URL, the local file, the direction.
#[derive(Debug)]
pub struct Transfer {
    /// The federation-namespaced URL of the object.
    pub url: String,
    /// The local file to read from or write to.
    pub filename: String,
    /// The direction of the transfer.
    pub mode: Verb,
}

/// Everything needed to perform the transfer itself: computed and checked
/// before any file is opened or any byte is sent.
#[derive(Debug)]
pub struct TransferPlan {
    /// The concrete origin URL to address.
    pub url: String,
    /// The value of the `Authorization` header.
    pub auth_header: String,
    /// The direction of the transfer.
    pub verb: Verb,
    /// The local file to read from or write to.
    pub filename: String,
}

/// A name for what `url::Url::parse` followed by `url::Url::join` computes:
/// the RFC 3986 resolution of `suffix` against `base`, rendered back to a
/// string, or `None` when the base does not parse or the join fails.
pub uninterp spec fn join_of(base: Seq<char>, suffix: Seq<char>) -> Option<Seq<char>>;

/// Relies on `url::Url::parse` and `url::Url::join` (RFC 3986 reference
/// resolution): the outcome is a function of the two strings alone.
#[verifier::external_body]
fn url_join(base: &str, suffix: &str) -> (r: Option<String>)
    ensures
        match r {
            Some(s) => join_of(base@, suffix@) == Some(s@),
            None => join_of(base@, suffix@) is None,
        },
{
    match url::Url::parse(base) {
        Ok(u) => match u.join(suffix) {
            Ok(joined) => Some(joined.to_string()),
            Err(_) => None,
        },
        Err(_) => None,
    }
}

/// The diagnostic message for a failed transfer response.
pub open spec fn spec_failure_message(verb: Verb, status: u16, body: Seq<char>) -> Seq<char> {
    (match verb {
        Verb::Get => "Error getting file. status "@,
        Verb::Put => "Error transferring file. status "@,
    }) + spec_decimal(status as nat) + ", body "@ + body
}

/// Judge a transfer response: success exactly for a 2xx status; anything
/// else is a transfer error carrying the status and the response body text.
pub fn check_response(verb: Verb, status: u16, body: &str) -> (r: Result<(), MyError>)
    ensures
        r is Ok <==> 200 <= status < 300,
        r matches Err(e) ==> (e matches MyError::TransferError(m) && m@ == spec_failure_message(
            verb,
            status,
            body@,
        )),
{
    if 200 <= status && status < 300 {
        Ok(())
    } else {
        let head = match verb {
            Verb::Get => String::from_str("Error getting file. status "),
            Verb::Put => String::from_str("Error transferring file. status "),
        };
        let rendered = u16_to_decimal(status);
        let msg = head.concat(rendered.as_str()).concat(", body ").concat(body);
        Err(MyError::TransferError(msg))
    }
}

impl Transfer {
    /// A new transfer request.
    pub fn new(url: String, filename: String, mode: Verb) -> (r: Transfer)
        ensures
            r.url@ == url@,
            r.filename@ == filename@,
            r.mode == mode,
    {
        Transfer { url, filename, mode }
    }

    /// The concrete URL of this transfer: a randomly chosen origin base,
    /// joined with what remains of the request URL after the namespace
    /// prefix.
    pub fn get_origin_url(&self, origin: &PelicanInfo) -> (r: Result<String, MyError>)
        ensures
            origin.origins@.len() == 0 ==> (r matches Err(e) && e matches MyError::PelicanError(m)
                && m@ == "No origins available"@),
            origin.origins@.len() > 0 && !origin.osdf_prefix@.is_prefix_of(self.url@) ==> (
            r matches Err(e) && e matches MyError::TransferError(m) && m@
                == "url does not match OSDF prefix"@),
            r matches Ok(s) ==> {
                &&& origin.osdf_prefix@.is_prefix_of(self.url@)
                &&& exists|i: int|
                    0 <= i < origin.origins@.len() && Some(s@) == join_of(
                        origin.origins@[i]@,
                        seq_after_prefix(self.url@, origin.osdf_prefix@),
                    )
            },
            (origin.origins@.len() > 0 && origin.osdf_prefix@.is_prefix_of(self.url@) && (
            forall|i: int|
                0 <= i < origin.origins@.len() ==> join_of(
                    origin.origins@[i]@,
                    seq_after_prefix(self.url@, origin.osdf_prefix@),
                ) is Some)) ==> r is Ok,
            r matches Err(e) ==> (e is PelicanError || e is TransferError),
    {
        let origin_url = match origin.choose_origin() {
            Ok(o) => o,
            Err(e) => {
                return Err(e);
            },
        };
        let suffix = match str_strip_prefix(self.url.as_str(), origin.get_osdf_prefix()) {
            Some(s) => s,
            None => {
                return Err(
                    MyError::TransferError(String::from_str("url does not match OSDF prefix")),
                );
            },
        };
        match url_join(origin_url, suffix) {
            Some(s) => Ok(s),
            None => Err(MyError::TransferError(String::from_str("Error joining origin URL"))),
        }
    }

    /// Prepare the transfer: select a credential for the request, rewrite the
    /// URL onto a chosen origin, and assemble the `Authorization` header. An
    /// error here means nothing has been transferred, created or opened.
    pub fn prepare(&self, creds: &Credentials, origin: &PelicanInfo, now_ms: u64) -> (r: Result<
        TransferPlan,
        MyError,
    >)
        ensures
            ({
                let path = seq_after_prefix(self.url@, origin.osdf_prefix@);
                &&& (r matches Ok(p) ==> {
                    &&& p.verb == self.mode
                    &&& p.filename@ == self.filename@
                    &&& origin.osdf_prefix@.is_prefix_of(self.url@)
                    &&& (exists|c: crate::credentials::Credential|
                        selection_ok(creds.0@, self.mode, path, now_ms, c) && p.auth_header@
                            == "Bearer "@ + c.access_token@)
                    &&& (exists|i: int|
                        0 <= i < origin.origins@.len() && Some(p.url@) == join_of(
                            origin.origins@[i]@,
                            path,
                        ))
                })
                &&& (!origin.osdf_prefix@.is_prefix_of(self.url@) ==> (r matches Err(e)
                    && e matches MyError::CredentialsError(m) && m@
                    == "url does not match OSDF prefix"@))
                &&& (origin.osdf_prefix@.is_prefix_of(self.url@) && (forall|i: int|
                    0 <= i < creds.0@.len() ==> !crate::credentials::cred_grants(
                        creds.0@[i],
                        self.mode,
                        path,
                    )) ==> (r matches Err(e) && e matches MyError::CredentialsError(m) && m@
                    == "No matching credentials for url"@))
                &&& (origin.osdf_prefix@.is_prefix_of(self.url@) && (exists|i: int|
                    0 <= i < creds.0@.len() && crate::credentials::cred_grants(
                        creds.0@[i],
                        self.mode,
                        path,
                    )) && origin.origins@.len() == 0 ==> (r matches Err(e)
                    && e matches MyError::PelicanError(m) && m@ == "No origins available"@))
                &&& (origin.osdf_prefix@.is_prefix_of(self.url@) && (exists|i: int|
                    0 <= i < creds.0@.len() && crate::credentials::cred_grants(
                        creds.0@[i],
                        self.mode,
                        path,
                    )) && origin.origins@.len() > 0 && (forall|i: int|
                    0 <= i < origin.origins@.len() ==> join_of(origin.origins@[i]@, path) is Some)
                    ==> r is Ok)
            }),
    {
        let cred = match creds.get_correct_cred(self, origin, now_ms) {
            Ok(c) => c,
            Err(e) => {
                return Err(e);
            },
        };
        let final_url = match self.get_origin_url(origin) {
            Ok(u) => u,
            Err(e) => {
                return Err(e);
            },
        };
        let auth_header = String::from_str("Bearer ").concat(cred.access_token.as_str());
        Ok(
            TransferPlan {
                url: final_url,
                auth_header,
                verb: self.mode,
                filename: self.filename.clone(),
            },
        )
    }
}

} // verus!
