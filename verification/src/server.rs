//! The server-facing listen path: an address string plus an optional
//! credential in, the one bind action out.
//!
//! A server classifies with the Server role: a `unix://` scheme wins, a
//! supplied credential means TLS, and plaintext TCP is the fall-back. The
//! side that owns the sockets performs the returned [`ListenPlan`].

use vstd::prelude::*;

use crate::address::{
    classify, lemma_scheme_prefixes_distinct, spec_classify, spec_listen, spec_starts_with,
    AddressView, ListenPlan, ListenPlanView, Role, ServerKey, ServerKeyView,
};
use crate::error::{result_view, ErrorKind, MultiStreamError};

verus! {

/// Simple structure that holds file paths to the TLS certificate and key.
#[derive(Debug)]
pub struct CertAndKeyFilePaths {
    /// Path to the TLS certificate file.
    pub cert: String,
    /// Path to the TLS key file.
    pub key: String,
}

impl CertAndKeyFilePaths {
    /// Creates a new cert/key file path pair.
    pub fn new(cert: String, key: String) -> (r: CertAndKeyFilePaths)
        ensures
            r.cert@ == cert@,
            r.key@ == key@,
    {
        CertAndKeyFilePaths { cert, key }
    }
}

/// The image of an optional cert/key file pair as a credential.
pub open spec fn spec_cred_files(cred: Option<CertAndKeyFilePaths>) -> Option<ServerKeyView> {
    match cred {
        Some(paths) => Some(ServerKeyView { cert: paths.cert@, key: paths.key@ }),
        None => None,
    }
}

/// A server classification fails exactly on an explicit `tls://` address
/// without a credential — and then as an illegal state — and every intent
/// it does yield binds: the listen dispatch on it succeeds.
pub proof fn lemma_server_classify(addr: Seq<char>, cred: Option<ServerKeyView>)
    ensures
        spec_classify(addr, Role::Server, cred) is Err <==> (spec_starts_with(addr, "tls://"@)
            && cred is None),
        spec_classify(addr, Role::Server, cred) is Err ==> spec_classify(addr, Role::Server, cred)
            == Err::<AddressView, ErrorKind>(ErrorKind::IllegalState),
        spec_classify(addr, Role::Server, cred) matches Ok(a) ==> spec_listen(a) is Ok,
{
    lemma_scheme_prefixes_distinct(addr);
}

/// The decision core of a server `listen(address, cert_and_key)`: classify
/// the address for the Server role and resolve the intent to its bind
/// action. Fails, as an illegal state, exactly when the address carries an
/// explicit `tls://` scheme and no credential was supplied.
pub fn listen_plan(address: &str, cert_and_key: Option<CertAndKeyFilePaths>) -> (r: Result<
    ListenPlan,
    MultiStreamError,
>)
    ensures
        spec_classify(address@, Role::Server, spec_cred_files(cert_and_key)) matches Ok(a)
            ==> result_view(r) == spec_listen(a),
        r is Err <==> (spec_starts_with(address@, "tls://"@) && cert_and_key is None),
        r is Err ==> r->Err_0@ == ErrorKind::IllegalState,
{
    proof {
        lemma_server_classify(address@, spec_cred_files(cert_and_key));
    }
    let credential = match cert_and_key {
        Some(paths) => Some(ServerKey::new(paths.cert, paths.key)),
        None => None,
    };
    let intent = match classify(address, Role::Server, credential) {
        Ok(intent) => intent,
        Err(e) => {
            return Err(e);
        },
    };
    match intent.listen() {
        Ok(plan) => Ok(plan),
        Err(_) => unreached(),
    }
}

/// The peer identity reported with an accepted stream: for TCP and TLS the
/// remote address observed at the transport layer, for a Unix acceptor the
/// path it bound — a Unix peer address is anonymous, so the bound path is
/// the only meaningful identity.
pub fn accepted_peer(plan: &ListenPlan, remote: String) -> (r: String)
    ensures
        plan@ matches ListenPlanView::Unix(path) ==> r@ == path,
        !(plan@ matches ListenPlanView::Unix(_)) ==> r@ == remote@,
{
    match plan {
        ListenPlan::Unix(path) => path.clone(),
        _ => remote,
    }
}

} // verus!
