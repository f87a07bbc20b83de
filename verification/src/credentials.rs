//! The credential store: scoped bearer tokens and the policy that picks one
//! for a request. A scope entry `action:path-prefix` authorizes a verb class
//! for a path subtree; the first live matching credential wins, and when all
//! matching credentials are expired the last of them is still handed out, as
//! a degraded fallback preferred over outright failure.

use vstd::prelude::*;
use vstd::string::StringExecFns;

use crate::error::MyError;
use crate::pelican::PelicanInfo;
use crate::strings::has_char;
use crate::strings::seq_after_prefix;
use crate::strings::split_after;
use crate::strings::split_before;
use crate::strings::split_once_char;
use crate::strings::str_eq;
use crate::strings::str_starts_with;
use crate::strings::str_strip_prefix;
use crate::transfer::Transfer;
use crate::transfer::Verb;

verus! {

/// One scoped bearer token, immutable once loaded.
#[derive(Debug, Clone, PartialEq)]
pub struct Credential {
    /// The bearer token itself.
    pub access_token: String,
    /// The token's type, as issued (e.g. `bearer`).
    pub token_type: String,
    /// The issued lifetime, in seconds.
    pub expires_in: u32,
    /// The expiry instant, in milliseconds since the Unix epoch.
    pub expires_at: u64,
    /// Scope entries, each `action:path-prefix`, in issued order.
    pub scope: Vec<String>,
}

/// The set of credentials available to the process, in load order.
pub struct Credentials(pub Vec<Credential>);

/// The action of a scope entry authorizes the verb: `storage.read` for a
/// download; `storage.create` or `storage.modify` for an upload. The action
/// set is open (the federation may add actions), so this names only the
/// mapping used at the point of a transfer.
pub open spec fn verb_action_ok(verb: Verb, action: Seq<char>) -> bool {
    match verb {
        Verb::Get => action == "storage.read"@,
        Verb::Put => action == "storage.create"@ || action == "storage.modify"@,
    }
}

/// The scope entry (split at its first `:` into action and path prefix)
/// authorizes `verb` on `path`: the action covers the verb and the path
/// begins with the entry's prefix (a plain character-prefix match).
pub open spec fn scope_grants(verb: Verb, scope: Seq<char>, path: Seq<char>) -> bool {
    &&& has_char(scope, ':')
    &&& verb_action_ok(verb, split_before(scope, ':'))
    &&& split_after(scope, ':').is_prefix_of(path)
}

/// Some scope entry of the credential authorizes `verb` on `path`.
pub open spec fn cred_grants(c: Credential, verb: Verb, path: Seq<char>) -> bool {
    exists|j: int| 0 <= j < c.scope@.len() && scope_grants(verb, c.scope@[j]@, path)
}

/// The credential has not expired at `now_ms`.
pub open spec fn cred_live(c: Credential, now_ms: u64) -> bool {
    c.expires_at > now_ms
}

/// `c` is what selection must hand out of `creds` for `verb` on `path` at
/// `now_ms`: the first credential with a live matching scope when one
/// exists, and otherwise (all matches being expired) the last credential
/// with a matching scope.
pub open spec fn selection_ok(
    creds: Seq<Credential>,
    verb: Verb,
    path: Seq<char>,
    now_ms: u64,
    c: Credential,
) -> bool {
    ||| (exists|i: int|
        {
            &&& 0 <= i < creds.len()
            &&& c == creds[i]
            &&& cred_grants(creds[i], verb, path)
            &&& cred_live(creds[i], now_ms)
            &&& forall|k: int|
                0 <= k < i ==> !(cred_grants(creds[k], verb, path) && cred_live(
                    creds[k],
                    now_ms,
                ))
        })
    ||| ((forall|i: int|
        0 <= i < creds.len() ==> !(cred_grants(creds[i], verb, path) && cred_live(
            creds[i],
            now_ms,
        ))) && (exists|i: int|
        {
            &&& 0 <= i < creds.len()
            &&& c == creds[i]
            &&& cred_grants(creds[i], verb, path)
            &&& forall|k: int| i < k < creds.len() ==> !cred_grants(creds[k], verb, path)
        }))
}

fn scope_grant_check(scope: &str, verb: Verb, path: &str) -> (b: bool)
    ensures
        b == scope_grants(verb, scope@, path@),
{
    match split_once_char(scope, ':') {
        None => false,
        Some((action, prefix)) => {
            let action_ok = match verb {
                Verb::Get => str_eq(action, "storage.read"),
                Verb::Put => str_eq(action, "storage.create") || str_eq(action, "storage.modify"),
            };
            if action_ok {
                str_starts_with(path, prefix)
            } else {
                false
            }
        },
    }
}

fn cred_has_grant(c: &Credential, verb: Verb, path: &str) -> (b: bool)
    ensures
        b == cred_grants(*c, verb, path@),
{
    let m = c.scope.len();
    let mut j: usize = 0;
    while j < m
        invariant
            m == c.scope@.len(),
            0 <= j <= m,
            forall|k: int| 0 <= k < j ==> !scope_grants(verb, c.scope@[k]@, path@),
        decreases m - j,
    {
        if scope_grant_check(c.scope[j].as_str(), verb, path) {
            return true;
        }
        j = j + 1;
    }
    false
}

impl Credentials {
    /// A store over the given records.
    pub fn new(data: Vec<Credential>) -> (r: Credentials)
        ensures
            r.0@ == data@,
    {
        Credentials(data)
    }

    /// Select the credential that authorizes this transfer under the resolved
    /// namespace: scan the store in order; the first credential with a live
    /// matching scope wins; failing that, the last credential with a matching
    /// (but expired) scope is handed out rather than failing; failing that,
    /// an error. The request URL must begin with the namespace prefix.
    pub fn get_correct_cred<'a>(
        &'a self,
        transfer: &Transfer,
        info: &PelicanInfo,
        now_ms: u64,
    ) -> (r: Result<&'a Credential, MyError>)
        ensures
            !info.osdf_prefix@.is_prefix_of(transfer.url@) ==> (r matches Err(e)
                && e matches MyError::CredentialsError(m) && m@
                == "url does not match OSDF prefix"@),
            info.osdf_prefix@.is_prefix_of(transfer.url@) ==> {
                let path = seq_after_prefix(transfer.url@, info.osdf_prefix@);
                &&& (r is Ok <==> exists|i: int|
                    0 <= i < self.0@.len() && cred_grants(self.0@[i], transfer.mode, path))
                &&& (r matches Ok(c) ==> selection_ok(self.0@, transfer.mode, path, now_ms, *c))
                &&& (r matches Err(e) ==> (e matches MyError::CredentialsError(m) && m@
                    == "No matching credentials for url"@))
            },
    {
        let path = match str_strip_prefix(transfer.url.as_str(), info.get_osdf_prefix()) {
            Some(p) => p,
            None => {
                return Err(
                    MyError::CredentialsError(String::from_str("url does not match OSDF prefix")),
                );
            },
        };
        let n = self.0.len();
        let mut expired_idx: Option<usize> = None;
        let mut i: usize = 0;
        while i < n
            invariant
                n == self.0@.len(),
                0 <= i <= n,
                info.osdf_prefix@.is_prefix_of(transfer.url@),
                path@ == seq_after_prefix(transfer.url@, info.osdf_prefix@),
                forall|k: int|
                    0 <= k < i ==> !(cred_grants(self.0@[k], transfer.mode, path@) && cred_live(
                        self.0@[k],
                        now_ms,
                    )),
                match expired_idx {
                    Some(e) => {
                        &&& e < i
                        &&& cred_grants(self.0@[e as int], transfer.mode, path@)
                        &&& forall|k: int|
                            e < k < i ==> !cred_grants(self.0@[k], transfer.mode, path@)
                    },
                    None => forall|k: int|
                        0 <= k < i ==> !cred_grants(self.0@[k], transfer.mode, path@),
                },
            decreases n - i,
        {
            let cred = &self.0[i];
            if cred_has_grant(cred, transfer.mode, path) {
                if cred.expires_at > now_ms {
                    return Ok(cred);
                }
                expired_idx = Some(i);
            }
            i = i + 1;
        }
        match expired_idx {
            Some(e) => Ok(&self.0[e]),
            None => Err(
                MyError::CredentialsError(String::from_str("No matching credentials for url")),
            ),
        }
    }
}

} // verus!
