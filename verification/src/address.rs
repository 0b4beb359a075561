//! The Transport Selector: the rules that interpret an address string into a
//! transport intent, and the dispatch decisions behind `connect` and
//! `listen`.
//!
//! An address string has the shape `[scheme"://"]rest`. An explicit `tcp://`,
//! `tls://`, or `unix://` scheme picks the transport; any other scheme is an
//! opaque application-level hint and is stripped; what is left falls to the
//! default rule: TLS for clients, and for servers TLS exactly when a
//! credential is supplied, else plaintext TCP.

use vstd::prelude::*;
use vstd::string::*;

use crate::error::{result_view, ErrorKind, MultiStreamError};

verus! {

/// The side of the conversation an address is classified for.
#[derive(Clone, Copy, Debug, PartialEq, Eq, Structural)]
pub enum Role {
    Client,
    Server,
}

/// Certificate and private-key file paths establishing a TLS server
/// identity. The paths are only carried; their contents are read by the TLS
/// layer at listen time.
#[derive(Debug)]
pub struct ServerKey {
    cert: String,
    key: String,
}

/// The mathematical image of a [`ServerKey`]: both paths as character
/// sequences.
pub struct ServerKeyView {
    pub cert: Seq<char>,
    pub key: Seq<char>,
}

impl View for ServerKey {
    type V = ServerKeyView;

    closed spec fn view(&self) -> ServerKeyView {
        ServerKeyView { cert: self.cert@, key: self.key@ }
    }
}

impl ServerKey {
    /// Pairs a certificate file path with a private-key file path.
    pub fn new(cert: String, key: String) -> (r: ServerKey)
        ensures
            r@.cert == cert@,
            r@.key == key@,
    {
        ServerKey { cert, key }
    }

    /// The certificate file path.
    pub fn cert_file(&self) -> (r: &String)
        ensures
            r@ == self@.cert,
    {
        &self.cert
    }

    /// The private-key file path.
    pub fn key_file(&self) -> (r: &String)
        ensures
            r@ == self@.key,
    {
        &self.key
    }
}

/// The TLS side of an intent: a client dials a host; a server holds the
/// host it will bind together with its credential.
#[derive(Debug)]
pub enum TlsType {
    Client(String),
    Server(String, ServerKey),
}

/// The mathematical image of a [`TlsType`].
pub enum TlsTypeView {
    Client(Seq<char>),
    Server(Seq<char>, ServerKeyView),
}

impl View for TlsType {
    type V = TlsTypeView;

    open spec fn view(&self) -> TlsTypeView {
        match self {
            TlsType::Client(host) => TlsTypeView::Client(host@),
            TlsType::Server(host, key) => TlsTypeView::Server(host@, key@),
        }
    }
}

/// A transport intent: the resolved decision of which transport a given
/// address string implies. Exactly one variant is active, fixed at
/// construction.
#[derive(Debug)]
pub enum StreamAddress {
    /// A plaintext TCP endpoint.
    Tcp(String),
    /// A TLS endpoint, client- or server-rooted.
    Tls(TlsType),
    /// A Unix domain socket path.
    Unix(String),
}

/// The mathematical image of a [`StreamAddress`].
pub enum AddressView {
    Tcp(Seq<char>),
    Tls(TlsTypeView),
    Unix(Seq<char>),
}

impl View for StreamAddress {
    type V = AddressView;

    open spec fn view(&self) -> AddressView {
        match self {
            StreamAddress::Tcp(endpoint) => AddressView::Tcp(endpoint@),
            StreamAddress::Tls(tls) => AddressView::Tls(tls@),
            StreamAddress::Unix(path) => AddressView::Unix(path@),
        }
    }
}

impl PartialEq for ServerKey {
    fn eq(&self, other: &ServerKey) -> bool {
        self.cert == other.cert && self.key == other.key
    }
}

impl vstd::std_specs::cmp::PartialEqSpecImpl for ServerKey {
    open spec fn obeys_eq_spec() -> bool {
        true
    }

    open spec fn eq_spec(&self, other: &ServerKey) -> bool {
        self@.cert == other@.cert && self@.key == other@.key
    }
}

impl PartialEq for TlsType {
    fn eq(&self, other: &TlsType) -> bool {
        match (self, other) {
            (TlsType::Client(a), TlsType::Client(b)) => *a == *b,
            (TlsType::Server(a, ak), TlsType::Server(b, bk)) => *a == *b && *ak == *bk,
            _ => false,
        }
    }
}

impl vstd::std_specs::cmp::PartialEqSpecImpl for TlsType {
    open spec fn obeys_eq_spec() -> bool {
        true
    }

    open spec fn eq_spec(&self, other: &TlsType) -> bool {
        match (self@, other@) {
            (TlsTypeView::Client(a), TlsTypeView::Client(b)) => a == b,
            (TlsTypeView::Server(a, ak), TlsTypeView::Server(b, bk)) => a == b && ak.cert
                == bk.cert && ak.key == bk.key,
            _ => false,
        }
    }
}

impl PartialEq for StreamAddress {
    fn eq(&self, other: &StreamAddress) -> bool {
        match (self, other) {
            (StreamAddress::Tcp(a), StreamAddress::Tcp(b)) => *a == *b,
            (StreamAddress::Tls(a), StreamAddress::Tls(b)) => *a == *b,
            (StreamAddress::Unix(a), StreamAddress::Unix(b)) => *a == *b,
            _ => false,
        }
    }
}

impl vstd::std_specs::cmp::PartialEqSpecImpl for StreamAddress {
    open spec fn obeys_eq_spec() -> bool {
        true
    }

    open spec fn eq_spec(&self, other: &StreamAddress) -> bool {
        match (self@, other@) {
            (AddressView::Tcp(a), AddressView::Tcp(b)) => a == b,
            (AddressView::Tls(x), AddressView::Tls(y)) => match (x, y) {
                (TlsTypeView::Client(a), TlsTypeView::Client(b)) => a == b,
                (TlsTypeView::Server(a, ak), TlsTypeView::Server(b, bk)) => a == b && ak.cert
                    == bk.cert && ak.key == bk.key,
                _ => false,
            },
            (AddressView::Unix(a), AddressView::Unix(b)) => a == b,
            _ => false,
        }
    }
}

/// True when `p` opens `s`.
pub open spec fn spec_starts_with(s: Seq<char>, p: Seq<char>) -> bool {
    p.len() <= s.len() && s.subrange(0, p.len() as int) == p
}

/// True when the three characters of a scheme separator stand at `i`.
pub open spec fn sep_at(s: Seq<char>, i: int) -> bool {
    &&& 0 <= i
    &&& i + 3 <= s.len()
    &&& s[i] == ':'
    &&& s[i + 1] == '/'
    &&& s[i + 2] == '/'
}

/// The position of the first scheme separator at or after `i`, if any.
pub open spec fn first_sep_from(s: Seq<char>, i: int) -> Option<int>
    decreases s.len() - i,
{
    if i < 0 || i + 3 > s.len() {
        None
    } else if sep_at(s, i) {
        Some(i)
    } else {
        first_sep_from(s, i + 1)
    }
}

/// The position of the first scheme separator in `s`, if any.
pub open spec fn spec_first_sep(s: Seq<char>) -> Option<int> {
    first_sep_from(s, 0)
}

/// What remains of an address once a leading `scheme://` is stripped:
/// everything past the first separator, or the address itself when no
/// separator occurs.
pub open spec fn spec_strip_scheme(s: Seq<char>) -> Seq<char> {
    match spec_first_sep(s) {
        Some(i) => s.subrange(i + 3, s.len() as int),
        None => s,
    }
}

/// The Secure intent an explicit `tls://` address resolves to: a client
/// dials without a credential; a server must hold one.
pub open spec fn spec_secure(rest: Seq<char>, role: Role, cred: Option<ServerKeyView>) -> Result<
    AddressView,
    ErrorKind,
> {
    match role {
        Role::Client => Ok(AddressView::Tls(TlsTypeView::Client(rest))),
        Role::Server => match cred {
            Some(key) => Ok(AddressView::Tls(TlsTypeView::Server(rest, key))),
            None => Err(ErrorKind::IllegalState),
        },
    }
}

/// The default rule for an address without a recognized scheme: a client
/// assumes TLS; a server assumes TLS exactly when a credential is supplied,
/// else plaintext TCP.
pub open spec fn spec_default(rest: Seq<char>, role: Role, cred: Option<ServerKeyView>) -> Result<
    AddressView,
    ErrorKind,
> {
    match role {
        Role::Client => Ok(AddressView::Tls(TlsTypeView::Client(rest))),
        Role::Server => match cred {
            Some(key) => Ok(AddressView::Tls(TlsTypeView::Server(rest, key))),
            None => Ok(AddressView::Tcp(rest)),
        },
    }
}

/// The classification rules, in precedence order: an explicit `unix://`,
/// `tcp://` or `tls://` prefix picks the transport; anything else is
/// stripped of an opaque scheme, if one occurs, and falls to the default
/// rule.
pub open spec fn spec_classify(addr: Seq<char>, role: Role, cred: Option<ServerKeyView>) -> Result<
    AddressView,
    ErrorKind,
> {
    if spec_starts_with(addr, "unix://"@) {
        Ok(AddressView::Unix(addr.subrange(7, addr.len() as int)))
    } else if spec_starts_with(addr, "tcp://"@) {
        Ok(AddressView::Tcp(addr.subrange(6, addr.len() as int)))
    } else if spec_starts_with(addr, "tls://"@) {
        spec_secure(addr.subrange(6, addr.len() as int), role, cred)
    } else {
        spec_default(spec_strip_scheme(addr), role, cred)
    }
}

/// The image of an optional credential.
pub open spec fn spec_cred(cred: Option<ServerKey>) -> Option<ServerKeyView> {
    match cred {
        Some(key) => Some(key@),
        None => None,
    }
}

/// True exactly when `prefix`'s characters open `s`.
pub fn has_prefix(s: &str, prefix: &str) -> (r: bool)
    ensures
        r == spec_starts_with(s@, prefix@),
{
    let n: usize = s.unicode_len();
    let pn: usize = prefix.unicode_len();
    if pn > n {
        return false;
    }
    let mut i: usize = 0;
    while i < pn
        invariant
            i <= pn <= n,
            n == s@.len(),
            pn == prefix@.len(),
            forall|j: int| 0 <= j < i ==> s@[j] == prefix@[j],
        decreases pn - i,
    {
        if s.get_char(i) != prefix.get_char(i) {
            proof {
                if spec_starts_with(s@, prefix@) {
                    assert(s@.subrange(0, pn as int)[i as int] == s@[i as int]);
                }
            }
            return false;
        }
        i += 1;
    }
    proof {
        assert(s@.subrange(0, pn as int) =~= prefix@);
    }
    true
}

/// The position of the first `"://"` in `s`, if any.
pub fn find_scheme_sep(s: &str) -> (r: Option<usize>)
    ensures
        match r {
            Some(i) => spec_first_sep(s@) == Some(i as int),
            None => spec_first_sep(s@) is None,
        },
{
    let n: usize = s.unicode_len();
    if n < 3 {
        return None;
    }
    let mut i: usize = 0;
    while i <= n - 3
        invariant
            3 <= n == s@.len(),
            i <= n - 2,
            spec_first_sep(s@) == first_sep_from(s@, i as int),
        decreases n - i,
    {
        if s.get_char(i) == ':' && s.get_char(i + 1) == '/' && s.get_char(i + 2) == '/' {
            proof {
                assert(sep_at(s@, i as int));
            }
            return Some(i);
        }
        proof {
            assert(!sep_at(s@, i as int));
        }
        i += 1;
    }
    None
}

/// Strips a leading `scheme://` from `s`, as [`spec_strip_scheme`] says.
pub fn strip_scheme(s: &str) -> (r: String)
    ensures
        r@ == spec_strip_scheme(s@),
{
    let n: usize = s.unicode_len();
    match find_scheme_sep(s) {
        Some(i) => {
            proof {
                lemma_first_sep_bounds(s@, 0, i as int);
            }
            s.substring_char(i + 3, n).to_owned()
        },
        None => s.to_owned(),
    }
}

/// The Secure intent for a host already stripped of its scheme: a client
/// dials it; a server needs the credential, and is rejected as an illegal
/// state without one.
fn secure_intent(host: String, role: Role, credential: Option<ServerKey>) -> (r: Result<
    StreamAddress,
    MultiStreamError,
>)
    ensures
        result_view(r) == spec_secure(host@, role, spec_cred(credential)),
{
    match role {
        Role::Client => Ok(StreamAddress::Tls(TlsType::Client(host))),
        Role::Server => match credential {
            Some(key) => Ok(StreamAddress::Tls(TlsType::Server(host, key))),
            None => Err(
                MultiStreamError::new(
                    ErrorKind::IllegalState,
                    String::from_str("a TLS server address needs a certificate and key"),
                ),
            ),
        },
    }
}

/// The Transport Selector: interprets an address string as a transport
/// intent for the given role, following [`spec_classify`].
///
/// A pure decision: no resolution, connection, or bind is attempted here.
/// The one rejected input is an explicit `tls://` address classified for a
/// server without a credential.
pub fn classify(address: &str, role: Role, credential: Option<ServerKey>) -> (r: Result<
    StreamAddress,
    MultiStreamError,
>)
    ensures
        result_view(r) == spec_classify(address@, role, spec_cred(credential)),
{
    proof {
        reveal_strlit("unix://");
        reveal_strlit("tcp://");
        reveal_strlit("tls://");
    }
    let n: usize = address.unicode_len();
    if has_prefix(address, "unix://") {
        Ok(StreamAddress::Unix(address.substring_char(7, n).to_owned()))
    } else if has_prefix(address, "tcp://") {
        Ok(StreamAddress::Tcp(address.substring_char(6, n).to_owned()))
    } else if has_prefix(address, "tls://") {
        secure_intent(address.substring_char(6, n).to_owned(), role, credential)
    } else {
        let rest = strip_scheme(address);
        match role {
            Role::Client => Ok(StreamAddress::Tls(TlsType::Client(rest))),
            Role::Server => match credential {
                Some(key) => Ok(StreamAddress::Tls(TlsType::Server(rest, key))),
                None => Ok(StreamAddress::Tcp(rest)),
            },
        }
    }
}

/// The outbound action `connect` resolves an intent to. The side that owns
/// the sockets performs it: one connection attempt, no retries.
#[derive(Debug)]
pub enum ConnectPlan {
    /// Open a plaintext TCP connection to this endpoint.
    Tcp(String),
    /// Resolve this host and run a TLS client handshake over the connection.
    Tls(String),
    /// Open a Unix domain connection to this path.
    Unix(String),
}

/// The mathematical image of a [`ConnectPlan`].
pub enum ConnectPlanView {
    Tcp(Seq<char>),
    Tls(Seq<char>),
    Unix(Seq<char>),
}

impl View for ConnectPlan {
    type V = ConnectPlanView;

    open spec fn view(&self) -> ConnectPlanView {
        match self {
            ConnectPlan::Tcp(endpoint) => ConnectPlanView::Tcp(endpoint@),
            ConnectPlan::Tls(host) => ConnectPlanView::Tls(host@),
            ConnectPlan::Unix(path) => ConnectPlanView::Unix(path@),
        }
    }
}

/// The bind action `listen` resolves an intent to.
#[derive(Debug)]
pub enum ListenPlan {
    /// Bind and listen on this endpoint, plaintext.
    Tcp(String),
    /// Bind this host and wrap the listener with a TLS acceptor initialized
    /// from the credential.
    Tls(String, ServerKey),
    /// Bind a Unix listener at this path.
    Unix(String),
}

/// The mathematical image of a [`ListenPlan`].
pub enum ListenPlanView {
    Tcp(Seq<char>),
    Tls(Seq<char>, ServerKeyView),
    Unix(Seq<char>),
}

impl View for ListenPlan {
    type V = ListenPlanView;

    open spec fn view(&self) -> ListenPlanView {
        match self {
            ListenPlan::Tcp(endpoint) => ListenPlanView::Tcp(endpoint@),
            ListenPlan::Tls(host, key) => ListenPlanView::Tls(host@, key@),
            ListenPlan::Unix(path) => ListenPlanView::Unix(path@),
        }
    }
}

/// What `connect` decides for each intent: a server-rooted Secure intent
/// cannot dial and is an illegal state; everything else maps to the one
/// matching outbound action.
pub open spec fn spec_connect(a: AddressView) -> Result<ConnectPlanView, ErrorKind> {
    match a {
        AddressView::Tcp(endpoint) => Ok(ConnectPlanView::Tcp(endpoint)),
        AddressView::Tls(TlsTypeView::Client(host)) => Ok(ConnectPlanView::Tls(host)),
        AddressView::Tls(TlsTypeView::Server(_, _)) => Err(ErrorKind::IllegalState),
        AddressView::Unix(path) => Ok(ConnectPlanView::Unix(path)),
    }
}

/// What `listen` decides for each intent: a client-rooted Secure intent
/// cannot bind and is an illegal state; everything else maps to the one
/// matching bind action.
pub open spec fn spec_listen(a: AddressView) -> Result<ListenPlanView, ErrorKind> {
    match a {
        AddressView::Tcp(endpoint) => Ok(ListenPlanView::Tcp(endpoint)),
        AddressView::Tls(TlsTypeView::Server(host, key)) => Ok(ListenPlanView::Tls(host, key)),
        AddressView::Tls(TlsTypeView::Client(_)) => Err(ErrorKind::IllegalState),
        AddressView::Unix(path) => Ok(ListenPlanView::Unix(path)),
    }
}

impl StreamAddress {
    /// An intent for a plaintext TCP endpoint.
    pub fn tcp(host: String) -> (r: StreamAddress)
        ensures
            r@ == AddressView::Tcp(host@),
    {
        StreamAddress::Tcp(host)
    }

    /// An intent for a TLS endpoint: server-rooted when a key is supplied,
    /// client-rooted otherwise.
    pub fn tls(host: String, server_key: Option<ServerKey>) -> (r: StreamAddress)
        ensures
            server_key matches Some(key) ==> r@ == AddressView::Tls(
                TlsTypeView::Server(host@, key@),
            ),
            server_key is None ==> r@ == AddressView::Tls(TlsTypeView::Client(host@)),
    {
        match server_key {
            Some(key) => StreamAddress::Tls(TlsType::Server(host, key)),
            None => StreamAddress::Tls(TlsType::Client(host)),
        }
    }

    /// An intent for a Unix domain socket at `path`.
    pub fn unix(path: String) -> (r: StreamAddress)
        ensures
            r@ == AddressView::Unix(path@),
    {
        StreamAddress::Unix(path)
    }

    /// Decides the outbound action for this intent, as [`spec_connect`]
    /// says. A pure decision: a server-rooted Secure intent is rejected
    /// here, before any connection attempt could be made.
    pub fn connect(&self) -> (r: Result<ConnectPlan, MultiStreamError>)
        ensures
            result_view(r) == spec_connect(self@),
            r is Err <==> self@ matches AddressView::Tls(TlsTypeView::Server(_, _)),
    {
        match self {
            StreamAddress::Tcp(endpoint) => Ok(ConnectPlan::Tcp(endpoint.clone())),
            StreamAddress::Tls(TlsType::Client(host)) => Ok(ConnectPlan::Tls(host.clone())),
            StreamAddress::Tls(TlsType::Server(_, _)) => Err(
                MultiStreamError::new(
                    ErrorKind::IllegalState,
                    String::from_str("connect called on Server subvariant"),
                ),
            ),
            StreamAddress::Unix(path) => Ok(ConnectPlan::Unix(path.clone())),
        }
    }

    /// Decides the bind action for this intent, as [`spec_listen`] says. A
    /// pure decision: a client-rooted Secure intent is rejected here,
    /// before any bind could be attempted.
    pub fn listen(&self) -> (r: Result<ListenPlan, MultiStreamError>)
        ensures
            result_view(r) == spec_listen(self@),
            r is Err <==> self@ matches AddressView::Tls(TlsTypeView::Client(_)),
    {
        match self {
            StreamAddress::Tcp(endpoint) => Ok(ListenPlan::Tcp(endpoint.clone())),
            StreamAddress::Tls(TlsType::Server(host, key)) => Ok(
                ListenPlan::Tls(
                    host.clone(),
                    ServerKey { cert: key.cert.clone(), key: key.key.clone() },
                ),
            ),
            StreamAddress::Tls(TlsType::Client(_)) => Err(
                MultiStreamError::new(
                    ErrorKind::IllegalState,
                    String::from_str("listen called on Client subvariant"),
                ),
            ),
            StreamAddress::Unix(path) => Ok(ListenPlan::Unix(path.clone())),
        }
    }
}

/// Law: an explicit `unix://`, `tcp://`, or `tls://` prefix picks the
/// corresponding intent variant, whatever the role and credential — except
/// a `tls://` address classified for a server without a credential, which
/// is rejected as an illegal state.
pub proof fn lemma_explicit_scheme_wins(addr: Seq<char>, role: Role, cred: Option<ServerKeyView>)
    ensures
        spec_starts_with(addr, "unix://"@) ==> spec_classify(addr, role, cred) == Ok::<
            AddressView,
            ErrorKind,
        >(AddressView::Unix(addr.subrange(7, addr.len() as int))),
        spec_starts_with(addr, "tcp://"@) ==> spec_classify(addr, role, cred) == Ok::<
            AddressView,
            ErrorKind,
        >(AddressView::Tcp(addr.subrange(6, addr.len() as int))),
        spec_starts_with(addr, "tls://"@) ==> spec_classify(addr, role, cred) == spec_secure(
            addr.subrange(6, addr.len() as int),
            role,
            cred,
        ),
        spec_starts_with(addr, "tls://"@) && role == Role::Server && cred is None
            ==> spec_classify(addr, role, cred) == Err::<AddressView, ErrorKind>(
            ErrorKind::IllegalState,
        ),
{
    lemma_scheme_prefixes_distinct(addr);
}

/// Law: with no recognized scheme, a client is always classified Secure,
/// and a server Secure exactly when a credential is supplied, else Plain.
/// An opaque scheme is stripped first; the credential carried by a Secure
/// intent is the one supplied.
pub proof fn lemma_default_rule(addr: Seq<char>, cred: Option<ServerKeyView>)
    requires
        !spec_starts_with(addr, "unix://"@),
        !spec_starts_with(addr, "tcp://"@),
        !spec_starts_with(addr, "tls://"@),
    ensures
        spec_classify(addr, Role::Client, cred) == Ok::<AddressView, ErrorKind>(
            AddressView::Tls(TlsTypeView::Client(spec_strip_scheme(addr))),
        ),
        cred matches Some(key) ==> spec_classify(addr, Role::Server, cred) == Ok::<
            AddressView,
            ErrorKind,
        >(AddressView::Tls(TlsTypeView::Server(spec_strip_scheme(addr), key))),
        cred is None ==> spec_classify(addr, Role::Server, cred) == Ok::<AddressView, ErrorKind>(
            AddressView::Tcp(spec_strip_scheme(addr)),
        ),
{
}

/// Law: classification is a function of the address, role, and credential
/// alone — no hidden state. Two classifications of equal inputs are equal.
pub proof fn lemma_classify_deterministic(
    addr1: Seq<char>,
    addr2: Seq<char>,
    role1: Role,
    role2: Role,
    cred1: Option<ServerKeyView>,
    cred2: Option<ServerKeyView>,
)
    requires
        addr1 == addr2,
        role1 == role2,
        cred1 == cred2,
    ensures
        spec_classify(addr1, role1, cred1) == spec_classify(addr2, role2, cred2),
{
}

/// Law: `connect` against a server-rooted Secure intent is an illegal
/// state. The decision is pure, so no connection attempt is ever made for
/// such an intent.
pub proof fn lemma_connect_rejects_server_intent(a: AddressView)
    requires
        a matches AddressView::Tls(TlsTypeView::Server(_, _)),
    ensures
        spec_connect(a) == Err::<ConnectPlanView, ErrorKind>(ErrorKind::IllegalState),
{
}

/// Law: `listen` against a client-rooted Secure intent is an illegal
/// state. The decision is pure, so no bind is ever attempted for such an
/// intent.
pub proof fn lemma_listen_rejects_client_intent(a: AddressView)
    requires
        a matches AddressView::Tls(TlsTypeView::Client(_)),
    ensures
        spec_listen(a) == Err::<ListenPlanView, ErrorKind>(ErrorKind::IllegalState),
{
}

/// The three recognized scheme prefixes are mutually exclusive: no address
/// starts with two of them.
pub proof fn lemma_scheme_prefixes_distinct(s: Seq<char>)
    ensures
        spec_starts_with(s, "tls://"@) ==> !spec_starts_with(s, "unix://"@),
        spec_starts_with(s, "tls://"@) ==> !spec_starts_with(s, "tcp://"@),
        spec_starts_with(s, "tcp://"@) ==> !spec_starts_with(s, "unix://"@),
{
    reveal_strlit("unix://");
    reveal_strlit("tcp://");
    reveal_strlit("tls://");
    if spec_starts_with(s, "tls://"@) && spec_starts_with(s, "unix://"@) {
        assert(s.subrange(0, 6)[0] == s[0]);
        assert(s.subrange(0, 7)[0] == s[0]);
        assert(false);
    }
    if spec_starts_with(s, "tls://"@) && spec_starts_with(s, "tcp://"@) {
        assert(s.subrange(0, 6)[1] == s[1]);
        assert(false);
    }
    if spec_starts_with(s, "tcp://"@) && spec_starts_with(s, "unix://"@) {
        assert(s.subrange(0, 6)[0] == s[0]);
        assert(s.subrange(0, 7)[0] == s[0]);
        assert(false);
    }
}

/// Where the first separator at or after `j` stands, a separator does stand
/// there: its position is in range.
proof fn lemma_first_sep_bounds(s: Seq<char>, j: int, i: int)
    requires
        first_sep_from(s, j) == Some(i),
    ensures
        j <= i,
        sep_at(s, i),
    decreases s.len() - j,
{
    if j < 0 || j + 3 > s.len() {
    } else if sep_at(s, j) {
    } else {
        lemma_first_sep_bounds(s, j + 1, i);
    }
}

} // verus!
