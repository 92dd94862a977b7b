//! A signed-request dispatch layer for a trading-exchange REST API.
//!
//! A caller describes an operation as a [`request::Request`] value; the
//! library turns it into a canonical route, a canonical signing string,
//! an HMAC-SHA1 signature, and a fully parameterized outgoing request
//! ready for a transport to send.

pub mod request;
pub mod response;
pub mod text;

use core::marker::PhantomData;
use vstd::prelude::*;

use crate::request::{Method, Prefix, Request};
use crate::text::{bytes_to_hex, dec_digits, hex_str, u64_to_dec};
use vstd::utf8::encode_utf8;

verus! {

/// How a call can fail before it reaches the transport.
#[derive(Debug)]
pub enum Error {
    /// The request value does not fit the operation invoked, or a batch
    /// holds an element that is not a pending order; carries the
    /// offending value.
    InvalidRequest(Request),
    /// The signature over this request could not be produced; carries
    /// the request that was being signed.
    InvalidSignature(Request),
    /// Key material was rejected or the digest engine failed to start.
    Crypto,
    /// The public-key handshake authentication mode is declared but not
    /// yet operable.
    Unsupported,
}

/// The HMAC-SHA1 bytes over a message under a key. What they are takes
/// the whole digest construction to state; the contracts only rely on
/// their being a function of key and message alone.
pub uninterp spec fn hmac_sha1_of(key: Seq<u8>, msg: Seq<u8>) -> Seq<u8>;

#[verifier::external_type_specification]
#[verifier::external_body]
pub struct ExErrorStack(openssl::error::ErrorStack);

/// Relies on openssl: `PKey::hmac` loads the key (it panics above
/// `i32::MAX` bytes, hence the bound), `Signer::new` with
/// `MessageDigest::sha1` starts a keyed SHA-1 digest, and `update` /
/// `sign_to_vec` produce the HMAC bytes, a function of key and message
/// alone.
#[verifier::external_body]
fn hmac_sha1(key: &[u8], msg: &[u8]) -> (r: Result<Vec<u8>, openssl::error::ErrorStack>)
    requires
        key@.len() <= 0x7fff_ffff,
    ensures
        r matches Ok(v) ==> v@ == hmac_sha1_of(key@, msg@),
{
    let pkey = openssl::pkey::PKey::hmac(key)?;
    let mut signer = openssl::sign::Signer::new(openssl::hash::MessageDigest::sha1(), &pkey)?;
    signer.update(msg)?;
    signer.sign_to_vec()
}

/// Wraps a secret key and signs canonical strings with HMAC-SHA1.
pub struct Signer {
    secret_key: String,
}

impl Signer {
    pub closed spec fn spec_key(self) -> Seq<char> {
        self.secret_key@
    }

    pub fn new(secret: String) -> (s: Signer)
        ensures
            s.spec_key() == secret@,
    {
        Signer { secret_key: secret }
    }

    /// The signature bytes over the canonical string: deterministic in
    /// key and input, failing only on a crypto setup fault.
    pub fn sign(&self, formalized: String) -> (r: Result<Vec<u8>, Error>)
        ensures
            r matches Ok(v) ==> v@ == hmac_sha1_of(
                encode_utf8(self.spec_key()),
                encode_utf8(formalized@),
            ),
            r matches Err(e) ==> e is Crypto,
    {
        let kb = self.secret_key.as_str().as_bytes();
        if kb.len() > 0x7fff_ffff {
            return Err(Error::Crypto);
        }
        match hmac_sha1(kb, formalized.as_str().as_bytes()) {
            Ok(v) => Ok(v),
            Err(_) => Err(Error::Crypto),
        }
    }

    fn key(&self) -> (s: &str)
        ensures
            s@ == self.spec_key(),
    {
        self.secret_key.as_str()
    }
}

/// Signing is deterministic: one key and one message always yield the
/// same signature bytes.
pub proof fn lemma_sign_deterministic(key: Seq<u8>, msg: Seq<u8>, r1: Seq<u8>, r2: Seq<u8>)
    requires
        r1 == hmac_sha1_of(key, msg),
        r2 == hmac_sha1_of(key, msg),
    ensures
        r1 == r2,
{
}

/// Which canonical signing string a client assembles: the static-secret
/// lineage signs the secret, the timestamp, the route and the fragment;
/// the handshake lineage signs the fragment alone.
#[derive(Debug, Clone, Copy, PartialEq, Eq, Structural)]
pub enum CanonicalScheme {
    Full,
    FragmentOnly,
}

/// The full canonical signing string: secret, timestamp and route,
/// comma-joined, with the signing fragment appended after one more
/// comma when the request has one.
pub open spec fn spec_canonical(
    secret: Seq<char>,
    ts: Seq<char>,
    uri: Seq<char>,
    frag: Option<Seq<char>>,
) -> Seq<char> {
    match frag {
        Some(f) => secret + ","@ + ts + ","@ + uri + ","@ + f,
        None => secret + ","@ + ts + ","@ + uri,
    }
}

pub open spec fn spec_fragment_only(frag: Option<Seq<char>>) -> Seq<char> {
    match frag {
        Some(f) => f,
        None => Seq::empty(),
    }
}

pub open spec fn spec_canonical_for(
    scheme: CanonicalScheme,
    secret: Seq<char>,
    ts: Seq<char>,
    uri: Seq<char>,
    frag: Option<Seq<char>>,
) -> Seq<char> {
    match scheme {
        CanonicalScheme::Full => spec_canonical(secret, ts, uri, frag),
        CanonicalScheme::FragmentOnly => spec_fragment_only(frag),
    }
}

/// The canonical signing string under the given scheme.
pub fn canonical_string(
    scheme: CanonicalScheme,
    secret: &str,
    timestamp: &str,
    uri: &str,
    frag: &Option<String>,
) -> (r: String)
    ensures
        r@ == spec_canonical_for(scheme, secret@, timestamp@, uri@, frag.deep_view()),
{
    match scheme {
        CanonicalScheme::Full => {
            let mut s = String::from_str(secret);
            s.append(",");
            s.append(timestamp);
            s.append(",");
            s.append(uri);
            match frag {
                Some(f) => {
                    s.append(",");
                    s.append(f.as_str());
                    proof {
                        assert(s@ =~= secret@ + ","@ + timestamp@ + ","@ + uri@ + ","@ + f@);
                    }
                },
                None => {
                    proof {
                        assert(s@ =~= secret@ + ","@ + timestamp@ + ","@ + uri@);
                    }
                },
            }
            s
        },
        CanonicalScheme::FragmentOnly => {
            match frag {
                Some(f) => String::from_str(f.as_str()),
                None => String::new(),
            }
        },
    }
}

/// Within one canonical string the timestamp stands right after the
/// secret's comma, byte for byte the same characters that go into the
/// timestamp header.
pub proof fn lemma_timestamp_consistent(
    secret: Seq<char>,
    ts: Seq<char>,
    uri: Seq<char>,
    frag: Option<Seq<char>>,
)
    ensures
        spec_canonical(secret, ts, uri, frag).subrange(
            secret.len() as int + 1,
            secret.len() + 1 + ts.len() as int,
        ) == ts,
{
    reveal_strlit(",");
    let c = spec_canonical(secret, ts, uri, frag);
    assert(c.subrange(secret.len() as int + 1, secret.len() + 1 + ts.len() as int) =~= ts);
}

/// A fully parameterized outgoing call: the verb, the absolute URL, the
/// authentication header values, and the JSON body when the operation
/// carries one.
pub struct PreparedRequest {
    pub method: Method,
    pub url: String,
    pub timestamp: String,
    pub address: String,
    pub signature: String,
    pub body: Option<String>,
}

/// An immutable, ready-to-use client: endpoint, account address and
/// signer, bound to one route prefix.
pub struct FxdxClient<P> {
    endpoint: String,
    address: String,
    signer: Signer,
    _marker: PhantomData<P>,
}

impl<P: Prefix> FxdxClient<P> {
    pub closed spec fn spec_endpoint(self) -> Seq<char> {
        self.endpoint@
    }

    pub closed spec fn spec_address(self) -> Seq<char> {
        self.address@
    }

    pub closed spec fn spec_secret(self) -> Seq<char> {
        self.signer.spec_key()
    }

    /// What a prepared call looks like for this client, request and
    /// timestamp: verb and route from the request model, one timestamp
    /// in the header and in the signed canonical string, the signature
    /// the hex of the HMAC over that string under the client's secret,
    /// and the body exactly the request's payload.
    pub open spec fn prepared_ok(
        self,
        req: Request,
        timestamp: u64,
        p: PreparedRequest,
    ) -> bool {
        &&& p.method == req.spec_method()
        &&& p.url@ == self.spec_endpoint() + req.spec_uri(P::spec_prefix())
        &&& p.timestamp@ == dec_digits(timestamp as nat)
        &&& p.address@ == self.spec_address()
        &&& p.signature@ == hex_str(
            hmac_sha1_of(
                encode_utf8(self.spec_secret()),
                encode_utf8(
                    spec_canonical(
                        self.spec_secret(),
                        dec_digits(timestamp as nat),
                        req.spec_uri(P::spec_prefix()),
                        req.spec_formalize(),
                    ),
                ),
            ),
        )
        &&& (p.body is Some <==> req.spec_payload() is Some)
        &&& (p.body matches Some(b) ==> req.spec_payload() == Some(b@))
    }

    /// What every dispatch operation promises: an ill-formed batch comes
    /// back as an invalid-request error carrying the value; otherwise
    /// the call is prepared as `prepared_ok` states, failing only when
    /// the signature could not be produced.
    pub open spec fn dispatch_ensures(
        self,
        req: Request,
        timestamp: u64,
        r: Result<PreparedRequest, Error>,
    ) -> bool {
        &&& !req.batch_ok() ==> (r matches Err(Error::InvalidRequest(q)) && q == req)
        &&& req.batch_ok() ==> match r {
            Ok(p) => self.prepared_ok(req, timestamp, p),
            Err(e) => e matches Error::InvalidSignature(q) && q == req,
        }
    }

    /// Assembles the canonical route, signing string, signature and
    /// headers for one call at the given Unix timestamp.
    pub fn prepare(&self, req: Request, timestamp: u64) -> (r: Result<PreparedRequest, Error>)
        ensures
            self.dispatch_ensures(req, timestamp, r),
    {
        if !check_batch(&req) {
            return Err(Error::InvalidRequest(req));
        }
        let uri = req.uri::<P>();
        let ts = u64_to_dec(timestamp);
        let frag = req.formalize();
        let canonical = canonical_string(
            CanonicalScheme::Full,
            self.signer.key(),
            ts.as_str(),
            uri.as_str(),
            &frag,
        );
        let sig = match self.signer.sign(canonical) {
            Ok(v) => v,
            Err(_) => {
                return Err(Error::InvalidSignature(req));
            },
        };
        let signature = bytes_to_hex(sig.as_slice());
        let body = req.payload();
        let method = req.method();
        let mut url = String::from_str(self.endpoint.as_str());
        url.append(uri.as_str());
        let address = self.address.clone();
        Ok(
            PreparedRequest {
                method,
                url,
                timestamp: ts,
                address,
                signature,
                body,
            },
        )
    }

    /// Renews the handshake-derived credential; the handshake mode is
    /// not yet operable.
    pub fn fresh(&self) -> (r: Result<(), Error>)
        ensures
            r matches Err(e) && e is Unsupported,
    {
        Err(Error::Unsupported)
    }

    /// Prepares a single pending order; any other variant is rejected.
    pub fn pending_order(&self, req: Request, timestamp: u64) -> (r: Result<
        PreparedRequest,
        Error,
    >)
        ensures
            req is PendingOrder ==> self.dispatch_ensures(req, timestamp, r),
            !(req is PendingOrder) ==> (r matches Err(Error::InvalidRequest(q)) && q == req),
    {
        let ok = match &req {
            Request::PendingOrder { .. } => true,
            _ => false,
        };
        if ok {
            self.prepare(req, timestamp)
        } else {
            Err(Error::InvalidRequest(req))
        }
    }

    /// Prepares a batch of pending orders; any other variant is
    /// rejected.
    pub fn batch_pending_orders(&self, req: Request, timestamp: u64) -> (r: Result<
        PreparedRequest,
        Error,
    >)
        ensures
            req is BatchPendingOrders ==> self.dispatch_ensures(req, timestamp, r),
            !(req is BatchPendingOrders) ==> (r matches Err(Error::InvalidRequest(q)) && q == req),
    {
        let ok = match &req {
            Request::BatchPendingOrders(..) => true,
            _ => false,
        };
        if ok {
            self.prepare(req, timestamp)
        } else {
            Err(Error::InvalidRequest(req))
        }
    }

    /// Prepares a single order cancellation; any other variant is
    /// rejected.
    pub fn cancel_order(&self, req: Request, timestamp: u64) -> (r: Result<PreparedRequest, Error>)
        ensures
            req is CancelOrder ==> self.dispatch_ensures(req, timestamp, r),
            !(req is CancelOrder) ==> (r matches Err(Error::InvalidRequest(q)) && q == req),
    {
        let ok = match &req {
            Request::CancelOrder { .. } => true,
            _ => false,
        };
        if ok {
            self.prepare(req, timestamp)
        } else {
            Err(Error::InvalidRequest(req))
        }
    }

    /// Prepares a batch cancellation; any other variant is rejected.
    pub fn batch_cancel_orders(&self, req: Request, timestamp: u64) -> (r: Result<
        PreparedRequest,
        Error,
    >)
        ensures
            req is BatchCancelOrders ==> self.dispatch_ensures(req, timestamp, r),
            !(req is BatchCancelOrders) ==> (r matches Err(Error::InvalidRequest(q)) && q == req),
    {
        let ok = match &req {
            Request::BatchCancelOrders { .. } => true,
            _ => false,
        };
        if ok {
            self.prepare(req, timestamp)
        } else {
            Err(Error::InvalidRequest(req))
        }
    }

    /// Prepares a query for one order by id; any other variant is
    /// rejected.
    pub fn query_order_by_id(&self, req: Request, timestamp: u64) -> (r: Result<
        PreparedRequest,
        Error,
    >)
        ensures
            req is OrderById ==> self.dispatch_ensures(req, timestamp, r),
            !(req is OrderById) ==> (r matches Err(Error::InvalidRequest(q)) && q == req),
    {
        let ok = match &req {
            Request::OrderById { .. } => true,
            _ => false,
        };
        if ok {
            self.prepare(req, timestamp)
        } else {
            Err(Error::InvalidRequest(req))
        }
    }

    /// Prepares a paged order query; any other variant is rejected.
    pub fn query_orders_by_page(&self, req: Request, timestamp: u64) -> (r: Result<
        PreparedRequest,
        Error,
    >)
        ensures
            req is OrderByPage ==> self.dispatch_ensures(req, timestamp, r),
            !(req is OrderByPage) ==> (r matches Err(Error::InvalidRequest(q)) && q == req),
    {
        let ok = match &req {
            Request::OrderByPage { .. } => true,
            _ => false,
        };
        if ok {
            self.prepare(req, timestamp)
        } else {
            Err(Error::InvalidRequest(req))
        }
    }

    /// Prepares a balance query; any other variant is rejected.
    pub fn query_account_balance(&self, req: Request, timestamp: u64) -> (r: Result<
        PreparedRequest,
        Error,
    >)
        ensures
            req is Balances ==> self.dispatch_ensures(req, timestamp, r),
            !(req is Balances) ==> (r matches Err(Error::InvalidRequest(q)) && q == req),
    {
        let ok = match &req {
            Request::Balances => true,
            _ => false,
        };
        if ok {
            self.prepare(req, timestamp)
        } else {
            Err(Error::InvalidRequest(req))
        }
    }

    /// Prepares a depth query; any other variant is rejected.
    pub fn query_depth(&self, req: Request, timestamp: u64) -> (r: Result<PreparedRequest, Error>)
        ensures
            req is Depth ==> self.dispatch_ensures(req, timestamp, r),
            !(req is Depth) ==> (r matches Err(Error::InvalidRequest(q)) && q == req),
    {
        let ok = match &req {
            Request::Depth { .. } => true,
            _ => false,
        };
        if ok {
            self.prepare(req, timestamp)
        } else {
            Err(Error::InvalidRequest(req))
        }
    }

    /// Prepares a kline query; any other variant is rejected.
    pub fn query_kline(&self, req: Request, timestamp: u64) -> (r: Result<PreparedRequest, Error>)
        ensures
            req is Kline ==> self.dispatch_ensures(req, timestamp, r),
            !(req is Kline) ==> (r matches Err(Error::InvalidRequest(q)) && q == req),
    {
        let ok = match &req {
            Request::Kline { .. } => true,
            _ => false,
        };
        if ok {
            self.prepare(req, timestamp)
        } else {
            Err(Error::InvalidRequest(req))
        }
    }

    /// Prepares a symbols query; any other variant is rejected.
    pub fn query_symbols(&self, req: Request, timestamp: u64) -> (r: Result<
        PreparedRequest,
        Error,
    >)
        ensures
            req is Symbols ==> self.dispatch_ensures(req, timestamp, r),
            !(req is Symbols) ==> (r matches Err(Error::InvalidRequest(q)) && q == req),
    {
        let ok = match &req {
            Request::Symbols => true,
            _ => false,
        };
        if ok {
            self.prepare(req, timestamp)
        } else {
            Err(Error::InvalidRequest(req))
        }
    }
}

/// Whether a request's batch, if it is one, holds only pending orders.
fn check_batch(req: &Request) -> (b: bool)
    ensures
        b == req.batch_ok(),
{
    match req {
        Request::BatchPendingOrders(orders) => {
            let n = orders.len();
            for i in 0..n
                invariant
                    n == orders@.len(),
                    req is BatchPendingOrders,
                    req->BatchPendingOrders_0 == *orders,
                    forall|j: int| #![auto] 0 <= j < i ==> orders@[j] is PendingOrder,
            {
                let elem_ok = match &orders[i] {
                    Request::PendingOrder { .. } => true,
                    _ => false,
                };
                if !elem_ok {
                    proof {
                        assert(req->BatchPendingOrders_0 == *orders);
                        assert(!(orders@[i as int] is PendingOrder));
                        assert(!req.batch_ok());
                    }
                    return false;
                }
            }
            true
        },
        _ => true,
    }
}

/// Which authentication mode a builder has resolved: none yet, a static
/// shared secret, or the public-key handshake.
#[derive(Debug)]
pub enum Mode {
    Unset,
    StaticSecret { secret_key: String },
    Handshake { address: String, private_key: String },
}

/// Accumulates endpoint and authentication mode, then builds exactly
/// one client.
pub struct FxdxBuilder<P> {
    endpoint: String,
    mode: Mode,
    _marker: PhantomData<P>,
}

impl<P: Prefix> FxdxBuilder<P> {
    pub closed spec fn spec_endpoint(self) -> Seq<char> {
        self.endpoint@
    }

    pub closed spec fn spec_mode(self) -> Mode {
        self.mode
    }

    /// Starts a builder at the given base URL, no mode resolved yet.
    pub fn endpoint(endpoint: String) -> (b: Self)
        ensures
            b.spec_endpoint() == endpoint@,
            b.spec_mode() is Unset,
    {
        FxdxBuilder { endpoint, mode: Mode::Unset, _marker: PhantomData }
    }

    /// Selects the public-key handshake mode, recording the account
    /// address and key material pending a future handshake.
    pub fn sr25519(self, address: String, private_key: String) -> (b: Self)
        ensures
            b.spec_endpoint() == self.spec_endpoint(),
            b.spec_mode() == (Mode::Handshake { address, private_key }),
    {
        FxdxBuilder {
            endpoint: self.endpoint,
            mode: Mode::Handshake { address, private_key },
            _marker: PhantomData,
        }
    }

    /// Selects the static shared-secret mode. Calling this once the
    /// handshake mode is set is a call-sequence error, excluded by
    /// contract.
    pub fn secret(self, secret_key: String) -> (b: Self)
        requires
            !(self.spec_mode() is Handshake),
        ensures
            b.spec_endpoint() == self.spec_endpoint(),
            b.spec_mode() == (Mode::StaticSecret { secret_key }),
    {
        FxdxBuilder {
            endpoint: self.endpoint,
            mode: Mode::StaticSecret { secret_key },
            _marker: PhantomData,
        }
    }

    /// Terminal step: in static-secret mode (or with no mode resolved,
    /// which builds with an empty secret) yields the immutable client;
    /// in handshake mode the build is not yet supported and says so.
    pub fn build(self) -> (r: Result<FxdxClient<P>, Error>)
        ensures
            self.spec_mode() is Handshake ==> (r matches Err(e) && e is Unsupported),
            !(self.spec_mode() is Handshake) ==> (r matches Ok(c) && c.spec_endpoint()
                == self.spec_endpoint() && c.spec_address() == Seq::<char>::empty()
                && c.spec_secret() == (match self.spec_mode() {
                Mode::StaticSecret { secret_key } => secret_key@,
                _ => Seq::<char>::empty(),
            })),
    {
        match self.mode {
            Mode::Handshake { .. } => Err(Error::Unsupported),
            Mode::StaticSecret { secret_key } => Ok(
                FxdxClient {
                    endpoint: self.endpoint,
                    address: String::new(),
                    signer: Signer::new(secret_key),
                    _marker: PhantomData,
                },
            ),
            Mode::Unset => Ok(
                FxdxClient {
                    endpoint: self.endpoint,
                    address: String::new(),
                    signer: Signer::new(String::new()),
                    _marker: PhantomData,
                },
            ),
        }
    }
}

} // verus!
