//! The request model: a closed set of operation variants, each knowing
//! its HTTP verb, its route, its canonical signing fragment, and (for
//! body-bearing writes) its JSON body.

use vstd::prelude::*;

use crate::text::{
    bool_to_str, dec_digits, i32_to_dec, int_str, join_seq, join_strings, json_escape,
    json_escaped, spec_bool_str,
};

verus! {

/// The route namespace a client is bound to: its base path segment.
pub trait Prefix {
    spec fn spec_prefix() -> Seq<char>;

    fn prefix() -> (s: &'static str)
        ensures
            s@ == Self::spec_prefix(),
    ;
}

/// The namespace for static shared-secret authentication.
pub struct PrivPub;

/// The namespace for the public-key handshake authentication mode.
pub struct Sr25519;

impl Prefix for PrivPub {
    open spec fn spec_prefix() -> Seq<char> {
        "/maker"@
    }

    fn prefix() -> (s: &'static str) {
        "/maker"
    }
}

impl Prefix for Sr25519 {
    open spec fn spec_prefix() -> Seq<char> {
        "/api"@
    }

    fn prefix() -> (s: &'static str) {
        "/api"
    }
}

/// The HTTP verb of an operation.
#[derive(Debug, Clone, Copy, PartialEq, Eq, Structural)]
pub enum Method {
    Get,
    Post,
    Delete,
}

/// The side of an order, coded 0 (ask) / 1 (bid) on the wire.
#[derive(Debug, Clone, Copy, PartialEq, Eq, Structural)]
pub enum OrderType {
    Ask,
    Bid,
}

impl OrderType {
    /// The wire code of the order side.
    pub fn code(&self) -> (c: u8)
        ensures
            c == self.spec_code(),
    {
        match self {
            OrderType::Ask => 0,
            OrderType::Bid => 1,
        }
    }

    pub open spec fn spec_code(self) -> u8 {
        match self {
            OrderType::Ask => 0,
            OrderType::Bid => 1,
        }
    }
}

/// The fill status of an order, coded 1 to 4 on the wire.
#[derive(Debug, Clone, Copy, PartialEq, Eq, Structural)]
pub enum OrderStatus {
    Undeal,
    Cancel,
    Dealed,
    PartialDealed,
}

impl OrderStatus {
    /// The wire code of the order status.
    pub fn code(&self) -> (c: u8)
        ensures
            c == self.spec_code(),
    {
        match self {
            OrderStatus::Undeal => 1,
            OrderStatus::Cancel => 2,
            OrderStatus::Dealed => 3,
            OrderStatus::PartialDealed => 4,
        }
    }

    pub open spec fn spec_code(self) -> u8 {
        match self {
            OrderStatus::Undeal => 1,
            OrderStatus::Cancel => 2,
            OrderStatus::Dealed => 3,
            OrderStatus::PartialDealed => 4,
        }
    }
}

/// A candlestick granularity, one of eight fixed steps.
#[derive(Debug, Clone, Copy, PartialEq, Eq, Structural)]
pub enum Scale {
    Minute,
    Minute5,
    Minute15,
    Minute30,
    Hour,
    Hour4,
    Day,
    Week,
}

impl Scale {
    pub open spec fn spec_str(self) -> Seq<char> {
        match self {
            Scale::Minute => "MINUTE"@,
            Scale::Minute5 => "MINUTE_5"@,
            Scale::Minute15 => "MINUTE_15"@,
            Scale::Minute30 => "MINUTE_30"@,
            Scale::Hour => "HOUR"@,
            Scale::Hour4 => "HOUR4"@,
            Scale::Day => "DAY"@,
            Scale::Week => "WEEK"@,
        }
    }

    /// The wire name of the granularity.
    pub fn to_string(&self) -> (s: &'static str)
        ensures
            s@ == self.spec_str(),
    {
        match self {
            Scale::Minute => "MINUTE",
            Scale::Minute5 => "MINUTE_5",
            Scale::Minute15 => "MINUTE_15",
            Scale::Minute30 => "MINUTE_30",
            Scale::Hour => "HOUR",
            Scale::Hour4 => "HOUR4",
            Scale::Day => "DAY",
            Scale::Week => "WEEK",
        }
    }
}

pub open spec fn is_digit_char(c: char) -> bool {
    48 <= c as u32 <= 57
}

/// One step of the decimal-literal recognizer. States: 0 start, 5 after
/// a minus sign, 1 after a leading zero, 2 inside integer digits,
/// 3 right after the dot, 4 inside fraction digits; -1 rejects.
pub open spec fn dec_step(st: int, c: char) -> int {
    if st == 0 || st == 5 {
        if st == 0 && c == '-' {
            5
        } else if c == '0' {
            1
        } else if is_digit_char(c) {
            2
        } else {
            -1
        }
    } else if st == 1 {
        if c == '.' {
            3
        } else {
            -1
        }
    } else if st == 2 {
        if is_digit_char(c) {
            2
        } else if c == '.' {
            3
        } else {
            -1
        }
    } else if st == 3 || st == 4 {
        if is_digit_char(c) {
            4
        } else {
            -1
        }
    } else {
        -1
    }
}

pub open spec fn dec_run(st: int, s: Seq<char>) -> int
    decreases s.len(),
{
    if s.len() == 0 {
        st
    } else {
        dec_run(dec_step(st, s.first()), s.drop_first())
    }
}

/// A plain decimal literal: an optional minus sign, an integer part
/// without superfluous leading zeros, and an optional dot followed by
/// at least one fraction digit.
pub open spec fn is_decimal_str(s: Seq<char>) -> bool {
    dec_run(0, s) == 1 || dec_run(0, s) == 2 || dec_run(0, s) == 4
}

/// An arbitrary-precision decimal, held as its canonical text.
#[derive(Debug, Clone)]
pub struct Decimal {
    repr: String,
}

impl View for Decimal {
    type V = Seq<char>;

    closed spec fn view(&self) -> Seq<char> {
        self.repr@
    }
}

impl Decimal {
    pub open spec fn wf(self) -> bool {
        is_decimal_str(self@)
    }

    /// Accepts exactly the plain decimal literals, as `is_decimal_str`
    /// states them.
    pub fn new(repr: String) -> (r: Option<Decimal>)
        ensures
            r is Some <==> is_decimal_str(repr@),
            r matches Some(d) ==> d@ == repr@ && d.wf(),
    {
        let n = repr.as_str().unicode_len();
        let mut st: i32 = 0;
        proof {
            assert(repr@.skip(0) == repr@);
        }
        for i in 0..n
            invariant
                n == repr@.len(),
                dec_run(0, repr@) == dec_run(st as int, repr@.skip(i as int)),
                -1 <= st <= 5,
        {
            let c = repr.as_str().get_char(i);
            let u: u32 = c as u32;
            let next: i32 = if st == 0 || st == 5 {
                if st == 0 && c == '-' {
                    5
                } else if c == '0' {
                    1
                } else if 48 <= u && u <= 57 {
                    2
                } else {
                    -1
                }
            } else if st == 1 {
                if c == '.' {
                    3
                } else {
                    -1
                }
            } else if st == 2 {
                if 48 <= u && u <= 57 {
                    2
                } else if c == '.' {
                    3
                } else {
                    -1
                }
            } else if st == 3 || st == 4 {
                if 48 <= u && u <= 57 {
                    4
                } else {
                    -1
                }
            } else {
                -1
            };
            proof {
                assert(next as int == dec_step(st as int, repr@.skip(i as int).first()));
                assert(repr@.skip(i as int).drop_first() == repr@.skip(i + 1));
            }
            st = next;
        }
        if st == 1 || st == 2 || st == 4 {
            Some(Decimal { repr })
        } else {
            None
        }
    }

    /// The decimal's text.
    pub fn as_str(&self) -> (s: &str)
        ensures
            s@ == self@,
    {
        self.repr.as_str()
    }
}

/// One supported API operation, carrying exactly the fields that
/// operation needs.
#[derive(Debug)]
pub enum Request {
    Nonce,
    Token { nonce: String, pubkey: String, signature: String },
    PendingOrder { order_type: String, symbol: String, price: Decimal, amount: Decimal },
    BatchPendingOrders(Vec<Request>),
    CancelOrder { symbol: String, order_id: String },
    BatchCancelOrders { symbol: String, order_ids: Vec<String> },
    OrderById { symbol: String, order_id: String },
    OrderByPage { symbol: String, page: i32, size: i32, pending: bool },
    Balances,
    Depth { symbol: String },
    Kline { symbol: String, scale: Scale },
    Symbols,
}

impl Request {
    /// A batch of pending orders may hold only `PendingOrder` elements;
    /// every other variant satisfies this trivially.
    pub open spec fn batch_ok(self) -> bool {
        match self {
            Request::BatchPendingOrders(orders) => forall|i: int|
                #![auto]
                0 <= i < orders@.len() ==> orders@[i] is PendingOrder,
            _ => true,
        }
    }

    /// The canonical signing fragment of a single pending order:
    /// amount, price, symbol, type, comma-joined in that fixed order.
    pub open spec fn pending_frag(self) -> Seq<char> {
        match self {
            Request::PendingOrder { order_type, symbol, price, amount } => amount@ + ","@ + price@
                + ","@ + symbol@ + ","@ + order_type@,
            _ => Seq::empty(),
        }
    }

    /// The route of the operation under the given prefix.
    pub open spec fn spec_uri(self, prefix: Seq<char>) -> Seq<char> {
        match self {
            Request::Nonce => "/maker/nonce"@,
            Request::Token { .. } => prefix + "/token"@,
            Request::PendingOrder { .. } => prefix + "/order"@,
            Request::BatchPendingOrders(..) => prefix + "/orders"@,
            Request::CancelOrder { symbol, order_id } => prefix + "/order/"@ + symbol@ + "/"@
                + order_id@,
            Request::BatchCancelOrders { symbol, order_ids } => prefix + "/order/"@ + symbol@
                + "/"@ + join_seq(order_ids@.map_values(|p: String| p@), "|"@),
            Request::OrderById { symbol, order_id } => prefix + "/order/"@ + symbol@ + "/"@
                + order_id@,
            Request::OrderByPage { symbol, page, size, pending } => prefix + "/orders/"@ + symbol@
                + "/"@ + int_str(page as int) + "/"@ + int_str(size as int) + "/"@ + spec_bool_str(
                pending,
            ),
            Request::Balances => prefix + "/balances"@,
            Request::Depth { symbol } => prefix + "/depth/"@ + symbol@,
            Request::Kline { symbol, scale } => prefix + "/kline/"@ + symbol@ + "/"@
                + scale.spec_str(),
            Request::Symbols => prefix + "/symbols"@,
        }
    }

    /// The HTTP verb of the operation: write operations post, cancels
    /// delete, every query gets.
    pub open spec fn spec_method(self) -> Method {
        match self {
            Request::Nonce => Method::Post,
            Request::Token { .. } => Method::Post,
            Request::PendingOrder { .. } => Method::Post,
            Request::BatchPendingOrders(..) => Method::Post,
            Request::CancelOrder { .. } => Method::Delete,
            Request::BatchCancelOrders { .. } => Method::Delete,
            Request::OrderById { .. } => Method::Get,
            Request::OrderByPage { .. } => Method::Get,
            Request::Balances => Method::Get,
            Request::Depth { .. } => Method::Get,
            Request::Kline { .. } => Method::Get,
            Request::Symbols => Method::Get,
        }
    }

    /// The canonical signing fragment, in the fixed per-variant field
    /// order; nothing for the variants that sign no body-derived
    /// material.
    pub open spec fn spec_formalize(self) -> Option<Seq<char>> {
        match self {
            Request::PendingOrder { .. } => Some(self.pending_frag()),
            Request::BatchPendingOrders(orders) => Some(
                join_seq(orders@.map_values(|o: Request| o.pending_frag()), ","@),
            ),
            Request::CancelOrder { symbol, order_id } => Some(order_id@ + ","@ + symbol@),
            Request::BatchCancelOrders { symbol, order_ids } => Some(
                join_seq(order_ids@.map_values(|p: String| p@), "|"@) + ","@ + symbol@,
            ),
            Request::OrderById { symbol, order_id } => Some(order_id@ + ","@ + symbol@),
            Request::OrderByPage { symbol, page, size, pending } => Some(
                int_str(page as int) + ","@ + spec_bool_str(pending) + ","@ + int_str(size as int)
                    + ","@ + symbol@,
            ),
            Request::Depth { symbol } => Some(symbol@),
            Request::Kline { symbol, scale } => Some(scale.spec_str() + ","@ + symbol@),
            _ => None,
        }
    }

    /// The JSON body of one pending order: type, symbol, price, amount,
    /// in declaration order, each value a JSON string.
    pub open spec fn pending_payload(self) -> Seq<char> {
        match self {
            Request::PendingOrder { order_type, symbol, price, amount } => "{\"type\":\""@
                + json_escaped(order_type@) + "\",\"symbol\":\""@ + json_escaped(symbol@)
                + "\",\"price\":\""@ + price@ + "\",\"amount\":\""@ + amount@ + "\"}"@,
            _ => Seq::empty(),
        }
    }

    /// The JSON body of the operation: an object for a token request or
    /// a single pending order, an array of order objects for a batch,
    /// nothing for every other variant.
    pub open spec fn spec_payload(self) -> Option<Seq<char>> {
        match self {
            Request::Token { nonce, pubkey, signature } => Some(
                "{\"nonce\":\""@ + json_escaped(nonce@) + "\",\"pubkey\":\""@ + json_escaped(
                    pubkey@,
                ) + "\",\"signature\":\""@ + json_escaped(signature@) + "\"}"@,
            ),
            Request::PendingOrder { .. } => Some(self.pending_payload()),
            Request::BatchPendingOrders(orders) => Some(
                "["@ + join_seq(orders@.map_values(|o: Request| o.pending_payload()), ","@) + "]"@,
            ),
            _ => None,
        }
    }

    pub fn uri<P: Prefix>(&self) -> (r: String)
        ensures
            r@ == self.spec_uri(P::spec_prefix()),
    {
        match self {
            Request::Nonce => String::from_str("/maker/nonce"),
            Request::Token { .. } => {
                let mut s = String::from_str(P::prefix());
                s.append("/token");
                s
            },
            Request::PendingOrder { .. } => {
                let mut s = String::from_str(P::prefix());
                s.append("/order");
                s
            },
            Request::BatchPendingOrders(..) => {
                let mut s = String::from_str(P::prefix());
                s.append("/orders");
                s
            },
            Request::CancelOrder { symbol, order_id } => {
                let mut s = String::from_str(P::prefix());
                s.append("/order/");
                s.append(symbol.as_str());
                s.append("/");
                s.append(order_id.as_str());
                proof {
                    assert(s@ =~= self.spec_uri(P::spec_prefix()));
                }
                s
            },
            Request::BatchCancelOrders { symbol, order_ids } => {
                let mut s = String::from_str(P::prefix());
                s.append("/order/");
                s.append(symbol.as_str());
                s.append("/");
                let joined = join_strings(order_ids, "|");
                s.append(joined.as_str());
                proof {
                    assert(s@ =~= self.spec_uri(P::spec_prefix()));
                }
                s
            },
            Request::OrderById { symbol, order_id } => {
                let mut s = String::from_str(P::prefix());
                s.append("/order/");
                s.append(symbol.as_str());
                s.append("/");
                s.append(order_id.as_str());
                proof {
                    assert(s@ =~= self.spec_uri(P::spec_prefix()));
                }
                s
            },
            Request::OrderByPage { symbol, page, size, pending } => {
                let mut s = String::from_str(P::prefix());
                s.append("/orders/");
                s.append(symbol.as_str());
                s.append("/");
                let p = i32_to_dec(*page);
                s.append(p.as_str());
                s.append("/");
                let z = i32_to_dec(*size);
                s.append(z.as_str());
                s.append("/");
                s.append(bool_to_str(*pending));
                proof {
                    assert(s@ =~= self.spec_uri(P::spec_prefix()));
                }
                s
            },
            Request::Balances => {
                let mut s = String::from_str(P::prefix());
                s.append("/balances");
                s
            },
            Request::Depth { symbol } => {
                let mut s = String::from_str(P::prefix());
                s.append("/depth/");
                s.append(symbol.as_str());
                proof {
                    assert(s@ =~= self.spec_uri(P::spec_prefix()));
                }
                s
            },
            Request::Kline { symbol, scale } => {
                let mut s = String::from_str(P::prefix());
                s.append("/kline/");
                s.append(symbol.as_str());
                s.append("/");
                s.append(scale.to_string());
                proof {
                    assert(s@ =~= self.spec_uri(P::spec_prefix()));
                }
                s
            },
            Request::Symbols => {
                let mut s = String::from_str(P::prefix());
                s.append("/symbols");
                s
            },
        }
    }

    pub fn method(&self) -> (r: Method)
        ensures
            r == self.spec_method(),
    {
        match self {
            Request::Nonce => Method::Post,
            Request::Token { .. } => Method::Post,
            Request::PendingOrder { .. } => Method::Post,
            Request::BatchPendingOrders(..) => Method::Post,
            Request::CancelOrder { .. } => Method::Delete,
            Request::BatchCancelOrders { .. } => Method::Delete,
            Request::OrderById { .. } => Method::Get,
            Request::OrderByPage { .. } => Method::Get,
            Request::Balances => Method::Get,
            Request::Depth { .. } => Method::Get,
            Request::Kline { .. } => Method::Get,
            Request::Symbols => Method::Get,
        }
    }

    pub fn formalize(&self) -> (r: Option<String>)
        requires
            self.batch_ok(),
        ensures
            match r {
                Some(s) => self.spec_formalize() == Some(s@),
                None => self.spec_formalize() is None,
            },
    {
        match self {
            Request::PendingOrder { order_type, symbol, price, amount } => {
                Some(pending_fragment(order_type, symbol, price, amount))
            },
            Request::BatchPendingOrders(orders) => {
                let ghost frags = orders@.map_values(|o: Request| o.pending_frag());
                let mut acc = String::new();
                let n = orders.len();
                for i in 0..n
                    invariant
                        n == orders@.len(),
                        frags == orders@.map_values(|o: Request| o.pending_frag()),
                        forall|j: int| #![auto] 0 <= j < orders@.len() ==> orders@[j] is PendingOrder,
                        acc@ == join_seq(frags.take(i as int), ","@),
                {
                    if i > 0 {
                        acc.append(",");
                    }
                    let frag = match &orders[i] {
                        Request::PendingOrder { order_type, symbol, price, amount } => {
                            pending_fragment(order_type, symbol, price, amount)
                        },
                        _ => {
                            proof {
                                assert(false);
                            }
                            String::new()
                        },
                    };
                    acc.append(frag.as_str());
                    proof {
                        assert(frags.take(i + 1) =~= frags.take(i as int).push(frags[i as int]));
                        crate::text::lemma_join_push(frags.take(i as int), frags[i as int], ","@);
                    }
                }
                proof {
                    assert(frags.take(n as int) == frags);
                }
                Some(acc)
            },
            Request::CancelOrder { symbol, order_id } => {
                let mut s = String::from_str(order_id.as_str());
                s.append(",");
                s.append(symbol.as_str());
                proof {
                    assert(s@ =~= order_id@ + ","@ + symbol@);
                }
                Some(s)
            },
            Request::BatchCancelOrders { symbol, order_ids } => {
                let mut s = join_strings(order_ids, "|");
                s.append(",");
                s.append(symbol.as_str());
                proof {
                    assert(s@ =~= join_seq(order_ids@.map_values(|p: String| p@), "|"@) + ","@
                        + symbol@);
                }
                Some(s)
            },
            Request::OrderById { symbol, order_id } => {
                let mut s = String::from_str(order_id.as_str());
                s.append(",");
                s.append(symbol.as_str());
                proof {
                    assert(s@ =~= order_id@ + ","@ + symbol@);
                }
                Some(s)
            },
            Request::OrderByPage { symbol, page, size, pending } => {
                let mut s = i32_to_dec(*page);
                s.append(",");
                s.append(bool_to_str(*pending));
                s.append(",");
                let z = i32_to_dec(*size);
                s.append(z.as_str());
                s.append(",");
                s.append(symbol.as_str());
                proof {
                    assert(s@ =~= int_str(*page as int) + ","@ + spec_bool_str(*pending) + ","@
                        + int_str(*size as int) + ","@ + symbol@);
                }
                Some(s)
            },
            Request::Depth { symbol } => Some(String::from_str(symbol.as_str())),
            Request::Kline { symbol, scale } => {
                let mut s = String::from_str(scale.to_string());
                s.append(",");
                s.append(symbol.as_str());
                proof {
                    assert(s@ =~= scale.spec_str() + ","@ + symbol@);
                }
                Some(s)
            },
            Request::Nonce => None,
            Request::Token { .. } => None,
            Request::Balances => None,
            Request::Symbols => None,
        }
    }
    pub fn payload(&self) -> (r: Option<String>)
        requires
            self.batch_ok(),
        ensures
            match r {
                Some(s) => self.spec_payload() == Some(s@),
                None => self.spec_payload() is None,
            },
    {
        match self {
            Request::Token { nonce, pubkey, signature } => {
                let mut s = String::from_str("{\"nonce\":\"");
                let e_nonce = json_escape(nonce.as_str());
                s.append(e_nonce.as_str());
                s.append("\",\"pubkey\":\"");
                let e_pubkey = json_escape(pubkey.as_str());
                s.append(e_pubkey.as_str());
                s.append("\",\"signature\":\"");
                let e_sig = json_escape(signature.as_str());
                s.append(e_sig.as_str());
                s.append("\"}");
                proof {
                    assert(s@ =~= "{\"nonce\":\""@ + json_escaped(nonce@) + "\",\"pubkey\":\""@
                        + json_escaped(pubkey@) + "\",\"signature\":\""@ + json_escaped(signature@)
                        + "\"}"@);
                }
                Some(s)
            },
            Request::PendingOrder { order_type, symbol, price, amount } => {
                Some(pending_order_json(order_type, symbol, price, amount))
            },
            Request::BatchPendingOrders(orders) => {
                let ghost bodies = orders@.map_values(|o: Request| o.pending_payload());
                let mut acc = String::from_str("[");
                let n = orders.len();
                for i in 0..n
                    invariant
                        n == orders@.len(),
                        bodies == orders@.map_values(|o: Request| o.pending_payload()),
                        forall|j: int| #![auto] 0 <= j < orders@.len() ==> orders@[j] is PendingOrder,
                        acc@ == "["@ + join_seq(bodies.take(i as int), ","@),
                {
                    if i > 0 {
                        acc.append(",");
                    }
                    let body = match &orders[i] {
                        Request::PendingOrder { order_type, symbol, price, amount } => {
                            pending_order_json(order_type, symbol, price, amount)
                        },
                        _ => {
                            proof {
                                assert(false);
                            }
                            String::new()
                        },
                    };
                    acc.append(body.as_str());
                    proof {
                        assert(bodies.take(i + 1) =~= bodies.take(i as int).push(
                            bodies[i as int],
                        ));
                        crate::text::lemma_join_push(bodies.take(i as int), bodies[i as int], ","@);
                    }
                }
                acc.append("]");
                proof {
                    assert(bodies.take(n as int) == bodies);
                    assert(acc@ =~= "["@ + join_seq(bodies, ","@) + "]"@);
                }
                Some(acc)
            },
            _ => None,
        }
    }
}

/// The JSON object of one pending order, as `pending_payload` states it.
fn pending_order_json(order_type: &String, symbol: &String, price: &Decimal, amount: &Decimal) -> (
    r: String)
    ensures
        r@ == "{\"type\":\""@ + json_escaped(order_type@) + "\",\"symbol\":\""@ + json_escaped(
            symbol@,
        ) + "\",\"price\":\""@ + price@ + "\",\"amount\":\""@ + amount@ + "\"}"@,
{
    let mut s = String::from_str("{\"type\":\"");
    let e_type = json_escape(order_type.as_str());
    s.append(e_type.as_str());
    s.append("\",\"symbol\":\"");
    let e_symbol = json_escape(symbol.as_str());
    s.append(e_symbol.as_str());
    s.append("\",\"price\":\"");
    s.append(price.as_str());
    s.append("\",\"amount\":\"");
    s.append(amount.as_str());
    s.append("\"}");
    proof {
        assert(s@ =~= "{\"type\":\""@ + json_escaped(order_type@) + "\",\"symbol\":\""@
            + json_escaped(symbol@) + "\",\"price\":\""@ + price@ + "\",\"amount\":\""@ + amount@
            + "\"}"@);
    }
    s
}

/// The signing fragment of one pending order, amount first, type last.
fn pending_fragment(order_type: &String, symbol: &String, price: &Decimal, amount: &Decimal) -> (r:
    String)
    ensures
        r@ == amount@ + ","@ + price@ + ","@ + symbol@ + ","@ + order_type@,
{
    let mut s = String::from_str(amount.as_str());
    s.append(",");
    s.append(price.as_str());
    s.append(",");
    s.append(symbol.as_str());
    s.append(",");
    s.append(order_type.as_str());
    proof {
        assert(s@ =~= amount@ + ","@ + price@ + ","@ + symbol@ + ","@ + order_type@);
    }
    s
}

/// For one request and one prefix the route is a single fixed string:
/// any two routes that `uri`'s contract admits for the same inputs are
/// equal.
pub proof fn lemma_uri_deterministic(req: Request, prefix: Seq<char>, r1: Seq<char>, r2: Seq<char>)
    requires
        r1 == req.spec_uri(prefix),
        r2 == req.spec_uri(prefix),
    ensures
        r1 == r2,
{
}

/// A batch's signing fragment is its orders' own fragments joined with
/// commas in list order: for a pair, the first order's fragment, a
/// comma, then the second's.
pub proof fn lemma_batch_fragment_pair(orders: Vec<Request>)
    requires
        orders@.len() == 2,
        orders@[0] is PendingOrder,
        orders@[1] is PendingOrder,
    ensures
        Request::BatchPendingOrders(orders).spec_formalize() == Some(
            orders@[0].pending_frag() + ","@ + orders@[1].pending_frag(),
        ),
        orders@[0].spec_formalize() == Some(orders@[0].pending_frag()),
        orders@[1].spec_formalize() == Some(orders@[1].pending_frag()),
{
    let frags = orders@.map_values(|o: Request| o.pending_frag());
    assert(frags.len() == 2);
    assert(frags.drop_first() =~= seq![frags[1]]);
    assert(join_seq(frags, ","@) == frags[0] + ","@ + join_seq(frags.drop_first(), ","@));
    assert(join_seq(frags.drop_first(), ","@) == frags[1]);
}

} // verus!
