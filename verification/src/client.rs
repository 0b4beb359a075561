//! The client-facing connect path: an address string in, the one outbound
//! action out.
//!
//! A client classifies with no credential and TLS as the safe default, so
//! classification never fails and never yields an intent that cannot dial.
//! The side that owns the sockets performs the returned [`ConnectPlan`].

use vstd::prelude::*;

use crate::address::{
    classify, lemma_default_rule, spec_classify, spec_connect, spec_starts_with,
    spec_strip_scheme, ConnectPlan, ConnectPlanView, Role,
};
use crate::error::ErrorKind;

verus! {

/// A client classification always succeeds, and the connect dispatch on
/// the intent it yields succeeds too: a client never constructs a
/// server-rooted intent.
pub proof fn lemma_client_classify_ok(addr: Seq<char>)
    ensures
        spec_classify(addr, Role::Client, None) is Ok,
        spec_connect(spec_classify(addr, Role::Client, None)->Ok_0) is Ok,
{
}

/// Law: a client address without a recognized scheme — a bare host, or an
/// opaque scheme hint — is planned as the TLS action on the stripped
/// address. There is no silent fall-back to plaintext: a failure to reach
/// a TLS peer surfaces as a resolution, connection, or handshake error.
pub proof fn lemma_client_default_is_tls(addr: Seq<char>)
    requires
        !spec_starts_with(addr, "unix://"@),
        !spec_starts_with(addr, "tcp://"@),
        !spec_starts_with(addr, "tls://"@),
    ensures
        spec_connect(spec_classify(addr, Role::Client, None)->Ok_0) == Ok::<
            ConnectPlanView,
            ErrorKind,
        >(ConnectPlanView::Tls(spec_strip_scheme(addr))),
{
    lemma_default_rule(addr, None);
}

/// The decision core of a client `connect(address)`: classify the address
/// for the Client role and resolve the intent to its outbound action.
///
/// Total: every address string yields a plan. An address without a
/// recognized scheme — opaque hints such as `http://` included — is
/// planned as TLS, never silently as plaintext.
pub fn connect_plan(address: &str) -> (r: ConnectPlan)
    ensures
        Ok::<ConnectPlanView, ErrorKind>(r@) == spec_connect(
            spec_classify(address@, Role::Client, None)->Ok_0,
        ),
{
    proof {
        lemma_client_classify_ok(address@);
    }
    let intent = match classify(address, Role::Client, None) {
        Ok(intent) => intent,
        Err(_) => unreached(),
    };
    match intent.connect() {
        Ok(plan) => plan,
        Err(_) => unreached(),
    }
}

} // verus!
