use fxdx::request::{Decimal, Method, OrderStatus, OrderType, Prefix, PrivPub, Request, Scale, Sr25519};

fn dec(s: &str) -> Decimal {
    Decimal::new(s.to_string()).unwrap()
}

struct MockClient<T> {
    _marker: std::marker::PhantomData<T>,
}

impl<T> MockClient<T>
where
    T: Prefix,
{
    fn new() -> Self {
        MockClient { _marker: std::marker::PhantomData }
    }

    fn prefix(&self) -> &'static str {
        T::prefix()
    }
}

#[test]
fn test_generic_type() {
    let client = MockClient::<PrivPub>::new();
    assert_eq!(client.prefix(), "/maker")
}

#[test]
fn prefix_values() {
    assert_eq!(PrivPub::prefix(), "/maker");
    assert_eq!(Sr25519::prefix(), "/api");
}

#[test]
fn uri_per_variant_maker() {
    assert_eq!(Request::Nonce.uri::<PrivPub>(), "/maker/nonce");
    let token = Request::Token {
        nonce: "n".to_string(),
        pubkey: "p".to_string(),
        signature: "s".to_string(),
    };
    assert_eq!(token.uri::<PrivPub>(), "/maker/token");
    let order = Request::PendingOrder {
        order_type: "0".to_string(),
        symbol: "ETHUSDT".to_string(),
        price: dec("1.5"),
        amount: dec("10"),
    };
    assert_eq!(order.uri::<PrivPub>(), "/maker/order");
    let batch = Request::BatchPendingOrders(vec![]);
    assert_eq!(batch.uri::<PrivPub>(), "/maker/orders");
    let cancel = Request::CancelOrder { symbol: "ETHUSDT".to_string(), order_id: "1".to_string() };
    assert_eq!(cancel.uri::<PrivPub>(), "/maker/order/ETHUSDT/1");
    let by_id = Request::OrderById { symbol: "ETHUSDT".to_string(), order_id: "7".to_string() };
    assert_eq!(by_id.uri::<PrivPub>(), "/maker/order/ETHUSDT/7");
    let by_page = Request::OrderByPage {
        symbol: "ETHUSDT".to_string(),
        page: 2,
        size: 50,
        pending: true,
    };
    assert_eq!(by_page.uri::<PrivPub>(), "/maker/orders/ETHUSDT/2/50/true");
    assert_eq!(Request::Balances.uri::<PrivPub>(), "/maker/balances");
    let depth = Request::Depth { symbol: "ETHUSDT".to_string() };
    assert_eq!(depth.uri::<PrivPub>(), "/maker/depth/ETHUSDT");
    let kline = Request::Kline { symbol: "ETHUSDT".to_string(), scale: Scale::Minute5 };
    assert_eq!(kline.uri::<PrivPub>(), "/maker/kline/ETHUSDT/MINUTE_5");
    assert_eq!(Request::Symbols.uri::<PrivPub>(), "/maker/symbols");
}

#[test]
fn uri_per_variant_api() {
    assert_eq!(Request::Nonce.uri::<Sr25519>(), "/maker/nonce");
    assert_eq!(Request::Symbols.uri::<Sr25519>(), "/api/symbols");
    let depth = Request::Depth { symbol: "BTCUSDT".to_string() };
    assert_eq!(depth.uri::<Sr25519>(), "/api/depth/BTCUSDT");
}

#[test]
fn uri_batch_cancel_joins_ids_with_bar() {
    let many = Request::BatchCancelOrders {
        symbol: "ETHUSDT".to_string(),
        order_ids: vec!["1".to_string(), "2".to_string(), "3".to_string()],
    };
    assert_eq!(many.uri::<PrivPub>(), "/maker/order/ETHUSDT/1|2|3");
    let single = Request::BatchCancelOrders {
        symbol: "ETHUSDT".to_string(),
        order_ids: vec!["9".to_string()],
    };
    assert_eq!(single.uri::<PrivPub>(), "/maker/order/ETHUSDT/9");
    let none = Request::BatchCancelOrders { symbol: "ETHUSDT".to_string(), order_ids: vec![] };
    assert_eq!(none.uri::<PrivPub>(), "/maker/order/ETHUSDT/");
}

#[test]
fn uri_is_deterministic() {
    let a = Request::Depth { symbol: "ETHUSDT".to_string() };
    let b = Request::Depth { symbol: "ETHUSDT".to_string() };
    assert_eq!(a.uri::<PrivPub>(), b.uri::<PrivPub>());
    assert_eq!(a.uri::<PrivPub>(), a.uri::<PrivPub>());
}

#[test]
fn method_per_variant() {
    assert_eq!(Request::Nonce.method(), Method::Post);
    let token = Request::Token {
        nonce: "n".to_string(),
        pubkey: "p".to_string(),
        signature: "s".to_string(),
    };
    assert_eq!(token.method(), Method::Post);
    let order = Request::PendingOrder {
        order_type: "0".to_string(),
        symbol: "ETHUSDT".to_string(),
        price: dec("1.5"),
        amount: dec("10"),
    };
    assert_eq!(order.method(), Method::Post);
    assert_eq!(Request::BatchPendingOrders(vec![]).method(), Method::Post);
    let cancel = Request::CancelOrder { symbol: "ETHUSDT".to_string(), order_id: "1".to_string() };
    assert_eq!(cancel.method(), Method::Delete);
    let batch_cancel = Request::BatchCancelOrders {
        symbol: "ETHUSDT".to_string(),
        order_ids: vec!["1".to_string()],
    };
    assert_eq!(batch_cancel.method(), Method::Delete);
    let by_id = Request::OrderById { symbol: "ETHUSDT".to_string(), order_id: "1".to_string() };
    assert_eq!(by_id.method(), Method::Get);
    let by_page = Request::OrderByPage {
        symbol: "ETHUSDT".to_string(),
        page: 1,
        size: 10,
        pending: false,
    };
    assert_eq!(by_page.method(), Method::Get);
    assert_eq!(Request::Balances.method(), Method::Get);
    let depth = Request::Depth { symbol: "ETHUSDT".to_string() };
    assert_eq!(depth.method(), Method::Get);
    let kline = Request::Kline { symbol: "ETHUSDT".to_string(), scale: Scale::Day };
    assert_eq!(kline.method(), Method::Get);
    assert_eq!(Request::Symbols.method(), Method::Get);
}

#[test]
fn formalize_pending_order_fixed_field_order() {
    let order = Request::PendingOrder {
        order_type: "0".to_string(),
        symbol: "ETHUSDT".to_string(),
        price: dec("1.5"),
        amount: dec("10"),
    };
    assert_eq!(order.formalize(), Some("10,1.5,ETHUSDT,0".to_string()));
}

#[test]
fn formalize_batch_is_comma_joined_fragments() {
    let a = Request::PendingOrder {
        order_type: "0".to_string(),
        symbol: "ETHUSDT".to_string(),
        price: dec("1.5"),
        amount: dec("10"),
    };
    let b = Request::PendingOrder {
        order_type: "1".to_string(),
        symbol: "BTCUSDT".to_string(),
        price: dec("30000"),
        amount: dec("0.25"),
    };
    let frag_a = a.formalize().unwrap();
    let frag_b = b.formalize().unwrap();
    let batch = Request::BatchPendingOrders(vec![a, b]);
    assert_eq!(batch.formalize().unwrap(), format!("{},{}", frag_a, frag_b));
    assert_eq!(
        batch.formalize().unwrap(),
        "10,1.5,ETHUSDT,0,0.25,30000,BTCUSDT,1"
    );
}

#[test]
fn formalize_other_variants() {
    let cancel = Request::CancelOrder { symbol: "ETHUSDT".to_string(), order_id: "5".to_string() };
    assert_eq!(cancel.formalize(), Some("5,ETHUSDT".to_string()));
    let batch_cancel = Request::BatchCancelOrders {
        symbol: "ETHUSDT".to_string(),
        order_ids: vec!["5".to_string(), "6".to_string()],
    };
    assert_eq!(batch_cancel.formalize(), Some("5|6,ETHUSDT".to_string()));
    let by_id = Request::OrderById { symbol: "ETHUSDT".to_string(), order_id: "5".to_string() };
    assert_eq!(by_id.formalize(), Some("5,ETHUSDT".to_string()));
    let by_page = Request::OrderByPage {
        symbol: "ETHUSDT".to_string(),
        page: 2,
        size: 50,
        pending: false,
    };
    assert_eq!(by_page.formalize(), Some("2,false,50,ETHUSDT".to_string()));
    let depth = Request::Depth { symbol: "ETHUSDT".to_string() };
    assert_eq!(depth.formalize(), Some("ETHUSDT".to_string()));
    let kline = Request::Kline { symbol: "ETHUSDT".to_string(), scale: Scale::Hour4 };
    assert_eq!(kline.formalize(), Some("HOUR4,ETHUSDT".to_string()));
    assert_eq!(Request::Nonce.formalize(), None);
    assert_eq!(Request::Balances.formalize(), None);
    assert_eq!(Request::Symbols.formalize(), None);
    let token = Request::Token {
        nonce: "n".to_string(),
        pubkey: "p".to_string(),
        signature: "s".to_string(),
    };
    assert_eq!(token.formalize(), None);
}

#[test]
fn formalize_negative_page() {
    let by_page = Request::OrderByPage {
        symbol: "ETHUSDT".to_string(),
        page: -1,
        size: -20,
        pending: true,
    };
    assert_eq!(by_page.formalize(), Some("-1,true,-20,ETHUSDT".to_string()));
    assert_eq!(by_page.uri::<PrivPub>(), "/maker/orders/ETHUSDT/-1/-20/true");
}

#[test]
fn payload_per_variant() {
    let token = Request::Token {
        nonce: "abc".to_string(),
        pubkey: "key".to_string(),
        signature: "sig".to_string(),
    };
    assert_eq!(
        token.payload(),
        Some("{\"nonce\":\"abc\",\"pubkey\":\"key\",\"signature\":\"sig\"}".to_string())
    );
    let order = Request::PendingOrder {
        order_type: "0".to_string(),
        symbol: "ETHUSDT".to_string(),
        price: dec("1.5"),
        amount: dec("10"),
    };
    assert_eq!(
        order.payload(),
        Some(
            "{\"type\":\"0\",\"symbol\":\"ETHUSDT\",\"price\":\"1.5\",\"amount\":\"10\"}"
                .to_string()
        )
    );
    let cancel = Request::CancelOrder { symbol: "ETHUSDT".to_string(), order_id: "1".to_string() };
    assert_eq!(cancel.payload(), None);
    assert_eq!(Request::Balances.payload(), None);
    assert_eq!(Request::Symbols.payload(), None);
    assert_eq!(Request::Nonce.payload(), None);
}

#[test]
fn payload_batch_is_json_array() {
    let a = Request::PendingOrder {
        order_type: "0".to_string(),
        symbol: "ETHUSDT".to_string(),
        price: dec("1.5"),
        amount: dec("10"),
    };
    let b = Request::PendingOrder {
        order_type: "1".to_string(),
        symbol: "BTCUSDT".to_string(),
        price: dec("30000"),
        amount: dec("0.25"),
    };
    let batch = Request::BatchPendingOrders(vec![a, b]);
    let body = batch.payload().unwrap();
    assert_eq!(
        body,
        "[{\"type\":\"0\",\"symbol\":\"ETHUSDT\",\"price\":\"1.5\",\"amount\":\"10\"},\
         {\"type\":\"1\",\"symbol\":\"BTCUSDT\",\"price\":\"30000\",\"amount\":\"0.25\"}]"
    );
    let parsed: serde_json::Value = serde_json::from_str(&body).unwrap();
    assert_eq!(parsed.as_array().unwrap().len(), 2);
    assert_eq!(parsed[0]["symbol"], serde_json::Value::String("ETHUSDT".to_string()));
    assert_eq!(parsed[1]["price"], serde_json::Value::String("30000".to_string()));
}

#[test]
fn payload_escapes_json_strings() {
    let token = Request::Token {
        nonce: "a\"b".to_string(),
        pubkey: "c\\d".to_string(),
        signature: "e\nf".to_string(),
    };
    let body = token.payload().unwrap();
    assert_eq!(
        body,
        "{\"nonce\":\"a\\\"b\",\"pubkey\":\"c\\\\d\",\"signature\":\"e\\u000af\"}"
    );
    let parsed: serde_json::Value = serde_json::from_str(&body).unwrap();
    assert_eq!(parsed["nonce"], serde_json::Value::String("a\"b".to_string()));
    assert_eq!(parsed["pubkey"], serde_json::Value::String("c\\d".to_string()));
    assert_eq!(parsed["signature"], serde_json::Value::String("e\nf".to_string()));
}

#[test]
fn decimal_accepts_plain_literals() {
    for ok in ["0", "10", "1.5", "-1.5", "0.25", "-0.5", "123456789012345678901234567890.5"] {
        let d = Decimal::new(ok.to_string());
        assert!(d.is_some(), "{} should parse", ok);
        assert_eq!(d.unwrap().as_str(), ok);
    }
}

#[test]
fn decimal_rejects_malformed_literals() {
    for bad in ["", "-", ".", "01", "-01", "1.", ".5", "1.2.3", "1,5", "abc", "--1", "1e5", " 1"] {
        assert!(Decimal::new(bad.to_string()).is_none(), "{} should be rejected", bad);
    }
}

#[test]
fn scale_wire_names() {
    assert_eq!(Scale::Minute.to_string(), "MINUTE");
    assert_eq!(Scale::Minute5.to_string(), "MINUTE_5");
    assert_eq!(Scale::Minute15.to_string(), "MINUTE_15");
    assert_eq!(Scale::Minute30.to_string(), "MINUTE_30");
    assert_eq!(Scale::Hour.to_string(), "HOUR");
    assert_eq!(Scale::Hour4.to_string(), "HOUR4");
    assert_eq!(Scale::Day.to_string(), "DAY");
    assert_eq!(Scale::Week.to_string(), "WEEK");
}

#[test]
fn order_enums_wire_codes() {
    assert_eq!(OrderType::Ask.code(), 0);
    assert_eq!(OrderType::Bid.code(), 1);
    assert_eq!(OrderStatus::Undeal.code(), 1);
    assert_eq!(OrderStatus::Cancel.code(), 2);
    assert_eq!(OrderStatus::Dealed.code(), 3);
    assert_eq!(OrderStatus::PartialDealed.code(), 4);
}
