use addie::{
    decimal_string, Field, FieldValue, settle, Addie, AddieError, AddieUser, Method, PaymentIntent, SignedRequest,
    Spell, DEFAULT_BASE_URL,
};
use sessionless::hex::FromHex;
use sessionless::{PublicKey, Signature};

const UUID: &str = "6f1c2a3b-4d5e-4f60-8a7b-9c0d1e2f3a4b";

fn verifies(addie: &Addie, request: &SignedRequest) -> bool {
    let key = PublicKey::from_hex(addie.public_key()).unwrap();
    let signature = Signature::from_hex(request.signature()).unwrap();
    addie.sessionless.verify(request.message(), &key, &signature).is_ok()
}

#[test]
fn decimal_forms() {
    assert_eq!(decimal_string(0), "0");
    assert_eq!(decimal_string(7), "7");
    assert_eq!(decimal_string(2000), "2000");
    assert_eq!(decimal_string(1700000000123), "1700000000123");
    assert_eq!(decimal_string(u64::MAX), "18446744073709551615");
}

#[test]
fn default_base_url() {
    let addie = Addie::new(None);
    assert_eq!(addie.base_url, DEFAULT_BASE_URL);
    let local = Addie::new(Some("http://localhost:3005/".to_string()));
    assert_eq!(local.base_url, "http://localhost:3005/");
}

#[test]
fn create_user_request() {
    let addie = Addie::new(Some("http://localhost:3005/".to_string()));
    let key = addie.public_key();
    assert_eq!(key.len(), 66);
    let r = addie.create_user(1700000000123);
    assert_eq!(r.method(), Method::Put);
    assert_eq!(r.message(), format!("1700000000123{}", key));
    assert_eq!(addie.url(&r), "http://localhost:3005/user/create");
    assert_eq!(r.timestamp_text(), "1700000000123");
    assert_eq!(r.signature().len(), 128);
    match &r {
        SignedRequest::CreateUser { pub_key, timestamp, .. } => {
            assert_eq!(pub_key, &key);
            assert_eq!(*timestamp, 1700000000123);
        }
        _ => panic!("wrong request kind"),
    }
    assert!(verifies(&addie, &r));
}

#[test]
fn get_user_request() {
    let addie = Addie::new(Some("http://localhost:3005/".to_string()));
    let r = addie.get_user_by_uuid(UUID, 1700000000123);
    assert_eq!(r.method(), Method::Get);
    assert_eq!(r.message(), format!("1700000000123{}", UUID));
    let expected = format!(
        "http://localhost:3005/user/{}?timestamp=1700000000123&signature={}",
        UUID,
        r.signature()
    );
    assert_eq!(addie.url(&r), expected);
    assert!(verifies(&addie, &r));
}

#[test]
fn add_processor_account_request() {
    let addie = Addie::new(Some("http://localhost:3005/".to_string()));
    let r = addie.add_processor_account(UUID, "Foo", "test@example.com", 42);
    assert_eq!(r.method(), Method::Put);
    assert_eq!(r.message(), format!("42{}Footest@example.com", UUID));
    assert_eq!(addie.url(&r), format!("http://localhost:3005/user/{}/processor/stripe", UUID));
    match &r {
        SignedRequest::BindProcessor { uuid, name, email, .. } => {
            assert_eq!(uuid, UUID);
            assert_eq!(name, "Foo");
            assert_eq!(email, "test@example.com");
        }
        _ => panic!("wrong request kind"),
    }
    assert!(verifies(&addie, &r));
}

#[test]
fn payment_intent_request() {
    let addie = Addie::new(Some("http://localhost:3005/".to_string()));
    let payees: Vec<String> = Vec::new();
    let r = addie.get_payment_intent(UUID, "stripe", &2000, "USD", &payees, 1700000000123);
    assert_eq!(r.method(), Method::Post);
    assert_eq!(r.message(), format!("1700000000123{}2000USD", UUID));
    assert_eq!(
        addie.url(&r),
        format!("http://localhost:3005/user/{}/processor/stripe/intent", UUID)
    );
    match &r {
        SignedRequest::CreateIntent { amount, currency, payees, processor, .. } => {
            assert_eq!(*amount, 2000);
            assert_eq!(currency, "USD");
            assert!(payees.is_empty());
            assert_eq!(processor, "stripe");
        }
        _ => panic!("wrong request kind"),
    }
    assert!(verifies(&addie, &r));
}

#[test]
fn payment_intent_keeps_payees_in_order() {
    let addie = Addie::new(None);
    let payees = vec!["02aa".to_string(), "03bb".to_string()];
    let r = addie.get_payment_intent(UUID, "square", &5, "EUR", &payees, 9);
    assert_eq!(r.message(), format!("9{}5EUR", UUID));
    match &r {
        SignedRequest::CreateIntent { payees: sent, .. } => assert_eq!(sent, &payees),
        _ => panic!("wrong request kind"),
    }
    assert_eq!(addie.url(&r), format!("{}user/{}/processor/square/intent", DEFAULT_BASE_URL, UUID));
}

#[test]
fn delete_user_request() {
    let addie = Addie::new(Some("http://localhost:3005/".to_string()));
    let r = addie.delete_user(UUID, 5);
    assert_eq!(r.method(), Method::Delete);
    assert_eq!(r.message(), format!("5{}", UUID));
    assert_eq!(addie.url(&r), format!("http://localhost:3005/user/{}", UUID));
    assert!(verifies(&addie, &r));
}

#[test]
fn signature_over_other_message_fails() {
    let addie = Addie::new(None);
    let r = addie.delete_user(UUID, 5);
    let other = addie.delete_user(UUID, 6);
    let key = PublicKey::from_hex(addie.public_key()).unwrap();
    let signature = Signature::from_hex(r.signature()).unwrap();
    assert!(addie.sessionless.verify(other.message(), &key, &signature).is_err());
}

#[test]
fn fresh_timestamps_give_fresh_signatures() {
    let addie = Addie::new(None);
    let a = addie.get_user_by_uuid(UUID, 1000);
    let b = addie.get_user_by_uuid(UUID, 1001);
    assert_ne!(a.message(), b.message());
    assert_ne!(a.signature(), b.signature());
    let again = addie.get_user_by_uuid(UUID, 1000);
    assert_eq!(a.signature(), again.signature());
}

#[test]
fn settle_success() {
    let r: Result<u32, AddieError> = settle(200, Ok(7));
    assert_eq!(r, Ok(7));
    let r: Result<u32, AddieError> = settle(299, Ok(8));
    assert_eq!(r, Ok(8));
}

#[test]
fn settle_status_is_transport() {
    let r: Result<u32, AddieError> = settle(404, Ok(7));
    let e = r.unwrap_err();
    assert_eq!(e, AddieError::Status(404));
    assert!(e.is_transport());
    assert!(!e.is_decode());
    let r: Result<u32, AddieError> = settle(199, Err("bad".to_string()));
    assert_eq!(r, Err(AddieError::Status(199)));
}

#[test]
fn settle_decode_failure() {
    let r: Result<u32, AddieError> = settle(200, Err("missing field `uuid`".to_string()));
    let e = r.unwrap_err();
    assert_eq!(e, AddieError::Decode("missing field `uuid`".to_string()));
    assert!(e.is_decode());
    assert!(!e.is_transport());
    assert!(AddieError::Transport("refused".to_string()).is_transport());
    assert!(!AddieError::Transport("refused".to_string()).is_decode());
}

#[test]
fn empty_records() {
    let user = AddieUser::default();
    assert!(user.uuid.is_empty() && user.pub_key.is_empty() && user.stripe_account_id.is_empty());
    let intent = PaymentIntent::new();
    assert!(intent.customer.is_empty() && intent.payment_intent.is_empty());
    assert!(intent.ephemeral_key.is_empty() && intent.publishable_key.is_empty());
    let spell = Spell::default();
    assert_eq!(spell.timestamp, "now");
    assert_eq!(spell.spell, "test");
    assert_eq!(spell.total_cost, 200);
    assert!(spell.mp);
    assert_eq!(spell.ordinal, 1);
    assert!(spell.extra.is_empty() && spell.gateways.is_empty());
}

fn text_of(f: &Field) -> &str {
    match &f.value {
        FieldValue::Text(t) => t.as_str(),
        _ => panic!("not a text field"),
    }
}

fn keys(b: &[Field]) -> Vec<&str> {
    b.iter().map(|f| f.key.as_str()).collect()
}

#[test]
fn create_user_body() {
    let addie = Addie::new(None);
    let r = addie.create_user(77);
    let b = r.body();
    assert_eq!(keys(&b), vec!["timestamp", "pubKey", "signature"]);
    assert_eq!(text_of(&b[0]), "77");
    assert_eq!(text_of(&b[1]), addie.public_key());
    assert_eq!(text_of(&b[2]), r.signature());
    assert_eq!(r.message(), format!("{}{}", text_of(&b[0]), text_of(&b[1])));
}

#[test]
fn get_user_has_no_body() {
    let addie = Addie::new(None);
    assert!(addie.get_user_by_uuid(UUID, 1).body().is_empty());
}

#[test]
fn processor_body() {
    let addie = Addie::new(None);
    let r = addie.add_processor_account(UUID, "Foo", "test@example.com", 1234);
    let b = r.body();
    assert_eq!(keys(&b), vec!["timestamp", "name", "email", "signature"]);
    assert_eq!(text_of(&b[0]), "1234");
    assert_eq!(text_of(&b[1]), "Foo");
    assert_eq!(text_of(&b[2]), "test@example.com");
    assert_eq!(text_of(&b[3]), r.signature());
}

#[test]
fn payment_intent_body() {
    let addie = Addie::new(None);
    let payees = vec!["02aa".to_string()];
    let r = addie.get_payment_intent(UUID, "stripe", &2000, "USD", &payees, 31);
    let b = r.body();
    assert_eq!(keys(&b), vec!["timestamp", "amount", "currency", "payees", "signature"]);
    assert_eq!(text_of(&b[0]), "31");
    assert!(matches!(b[1].value, FieldValue::Number(2000)));
    assert_eq!(text_of(&b[2]), "USD");
    match &b[3].value {
        FieldValue::List(ps) => assert_eq!(ps, &payees),
        _ => panic!("payees are not a list"),
    }
    assert_eq!(text_of(&b[4]), r.signature());
}

#[test]
fn delete_user_body() {
    let addie = Addie::new(None);
    let r = addie.delete_user(UUID, 8);
    let b = r.body();
    assert_eq!(keys(&b), vec!["timestamp", "uuid", "signature"]);
    assert_eq!(text_of(&b[0]), "8");
    assert_eq!(text_of(&b[1]), UUID);
    assert_eq!(text_of(&b[2]), r.signature());
    assert_eq!(r.message(), format!("{}{}", text_of(&b[0]), text_of(&b[1])));
}
