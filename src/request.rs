use crate::decimal::{decimal, decimal_string, lemma_decimal_injective, push_decimal};
use vstd::prelude::*;
use vstd::string::StringExecFns;

verus! {

/// The HTTP verb of a request.
#[derive(Clone, Copy, Debug, PartialEq, Eq, Structural)]
pub enum Method {
    Get,
    Put,
    Post,
    Delete,
}

/// The value of one field of a JSON request body.
#[derive(Debug)]
pub enum FieldValue {
    /// A JSON string.
    Text(String),
    /// A JSON unsigned integer.
    Number(u32),
    /// A JSON array of strings.
    List(Vec<String>),
}

/// One named field of a JSON request body.
#[derive(Debug)]
pub struct Field {
    pub key: String,
    pub value: FieldValue,
}

/// Field `i` of `b` is the string field `key` holding `value`.
pub open spec fn text_field(b: Seq<Field>, i: int, key: Seq<char>, value: Seq<char>) -> bool {
    &&& b[i].key@ == key
    &&& b[i].value matches FieldValue::Text(t) && t@ == value
}

fn text(key: &str, value: String) -> (f: Field)
    ensures
        f.key@ == key@,
        f.value matches FieldValue::Text(t) && t@ == value@,
{
    Field { key: String::from_str(key), value: FieldValue::Text(value) }
}

/// A request to the service, with the fields it carries and the signature over
/// its canonical message.
///
/// The URL is derived from the request against a base URL (see `url`); a `Get`
/// carries its timestamp and signature in the query string, the other verbs in a
/// JSON body made of the remaining fields.
#[derive(Debug)]
pub enum SignedRequest {
    /// `PUT user/create` with body `{timestamp, pubKey, signature}`.
    CreateUser { timestamp: u64, pub_key: String, signature: String },
    /// `GET user/{uuid}?timestamp=..&signature=..`.
    GetUser { uuid: String, timestamp: u64, signature: String },
    /// `PUT user/{uuid}/processor/stripe` with body `{timestamp, name, email, signature}`.
    BindProcessor { uuid: String, timestamp: u64, name: String, email: String, signature: String },
    /// `POST user/{uuid}/processor/{processor}/intent` with body
    /// `{timestamp, amount, currency, payees, signature}`.
    CreateIntent {
        uuid: String,
        processor: String,
        timestamp: u64,
        amount: u32,
        currency: String,
        payees: Vec<String>,
        signature: String,
    },
    /// `DELETE user/{uuid}` with body `{timestamp, uuid, signature}`.
    DeleteUser { uuid: String, timestamp: u64, signature: String },
}

impl SignedRequest {
    pub open spec fn spec_timestamp(self) -> u64 {
        match self {
            SignedRequest::CreateUser { timestamp, .. } => timestamp,
            SignedRequest::GetUser { timestamp, .. } => timestamp,
            SignedRequest::BindProcessor { timestamp, .. } => timestamp,
            SignedRequest::CreateIntent { timestamp, .. } => timestamp,
            SignedRequest::DeleteUser { timestamp, .. } => timestamp,
        }
    }

    pub open spec fn spec_signature(self) -> Seq<char> {
        match self {
            SignedRequest::CreateUser { signature, .. } => signature@,
            SignedRequest::GetUser { signature, .. } => signature@,
            SignedRequest::BindProcessor { signature, .. } => signature@,
            SignedRequest::CreateIntent { signature, .. } => signature@,
            SignedRequest::DeleteUser { signature, .. } => signature@,
        }
    }

    /// The canonical message: the decimal timestamp followed by the operation's
    /// own fields, in a fixed order, with no delimiter.
    pub open spec fn spec_message(self) -> Seq<char> {
        match self {
            SignedRequest::CreateUser { timestamp, pub_key, .. } => decimal(timestamp as nat)
                + pub_key@,
            SignedRequest::GetUser { uuid, timestamp, .. } => decimal(timestamp as nat) + uuid@,
            SignedRequest::BindProcessor { uuid, timestamp, name, email, .. } => decimal(
                timestamp as nat,
            ) + uuid@ + name@ + email@,
            SignedRequest::CreateIntent { uuid, timestamp, amount, currency, .. } => decimal(
                timestamp as nat,
            ) + uuid@ + decimal(amount as nat) + currency@,
            SignedRequest::DeleteUser { uuid, timestamp, .. } => decimal(timestamp as nat) + uuid@,
        }
    }

    pub open spec fn spec_method(self) -> Method {
        match self {
            SignedRequest::CreateUser { .. } => Method::Put,
            SignedRequest::GetUser { .. } => Method::Get,
            SignedRequest::BindProcessor { .. } => Method::Put,
            SignedRequest::CreateIntent { .. } => Method::Post,
            SignedRequest::DeleteUser { .. } => Method::Delete,
        }
    }

    /// `b` is the JSON body of the request, field by field and in order. A `Get`
    /// has none.
    pub open spec fn is_body(self, b: Seq<Field>) -> bool {
        match self {
            SignedRequest::CreateUser { timestamp, pub_key, signature } => {
                &&& b.len() == 3
                &&& text_field(b, 0, "timestamp"@, decimal(timestamp as nat))
                &&& text_field(b, 1, "pubKey"@, pub_key@)
                &&& text_field(b, 2, "signature"@, signature@)
            },
            SignedRequest::GetUser { .. } => b.len() == 0,
            SignedRequest::BindProcessor { timestamp, name, email, signature, .. } => {
                &&& b.len() == 4
                &&& text_field(b, 0, "timestamp"@, decimal(timestamp as nat))
                &&& text_field(b, 1, "name"@, name@)
                &&& text_field(b, 2, "email"@, email@)
                &&& text_field(b, 3, "signature"@, signature@)
            },
            SignedRequest::CreateIntent { timestamp, amount, currency, payees, signature, .. } => {
                &&& b.len() == 5
                &&& text_field(b, 0, "timestamp"@, decimal(timestamp as nat))
                &&& b[1].key@ == "amount"@
                &&& b[1].value matches FieldValue::Number(n) && n == amount
                &&& text_field(b, 2, "currency"@, currency@)
                &&& b[3].key@ == "payees"@
                &&& b[3].value matches FieldValue::List(ps) && ps.deep_view() == payees.deep_view()
                &&& text_field(b, 4, "signature"@, signature@)
            },
            SignedRequest::DeleteUser { uuid, timestamp, signature } => {
                &&& b.len() == 3
                &&& text_field(b, 0, "timestamp"@, decimal(timestamp as nat))
                &&& text_field(b, 1, "uuid"@, uuid@)
                &&& text_field(b, 2, "signature"@, signature@)
            },
        }
    }

    /// The full URL of the request under `base`, which is expected to end in `/`.
    pub open spec fn spec_url(self, base: Seq<char>) -> Seq<char> {
        match self {
            SignedRequest::CreateUser { .. } => base + "user/create"@,
            SignedRequest::GetUser { uuid, timestamp, signature } => base + "user/"@ + uuid@
                + "?timestamp="@ + decimal(timestamp as nat) + "&signature="@ + signature@,
            SignedRequest::BindProcessor { uuid, .. } => base + "user/"@ + uuid@
                + "/processor/stripe"@,
            SignedRequest::CreateIntent { uuid, processor, .. } => base + "user/"@ + uuid@
                + "/processor/"@ + processor@ + "/intent"@,
            SignedRequest::DeleteUser { uuid, .. } => base + "user/"@ + uuid@,
        }
    }

    /// The same request carrying `sig` as its signature.
    pub open spec fn signed_with(self, sig: String) -> SignedRequest {
        match self {
            SignedRequest::CreateUser { timestamp, pub_key, .. } => SignedRequest::CreateUser {
                timestamp,
                pub_key,
                signature: sig,
            },
            SignedRequest::GetUser { uuid, timestamp, .. } => SignedRequest::GetUser {
                uuid,
                timestamp,
                signature: sig,
            },
            SignedRequest::BindProcessor { uuid, timestamp, name, email, .. } =>
                SignedRequest::BindProcessor { uuid, timestamp, name, email, signature: sig },
            SignedRequest::CreateIntent { uuid, processor, timestamp, amount, currency, payees, .. } =>
                SignedRequest::CreateIntent {
                uuid,
                processor,
                timestamp,
                amount,
                currency,
                payees,
                signature: sig,
            },
            SignedRequest::DeleteUser { uuid, timestamp, .. } => SignedRequest::DeleteUser {
                uuid,
                timestamp,
                signature: sig,
            },
        }
    }

    /// The same request stamped at `t` instead.
    pub open spec fn restamped(self, t: u64) -> SignedRequest {
        match self {
            SignedRequest::CreateUser { pub_key, signature, .. } => SignedRequest::CreateUser {
                timestamp: t,
                pub_key,
                signature,
            },
            SignedRequest::GetUser { uuid, signature, .. } => SignedRequest::GetUser {
                uuid,
                timestamp: t,
                signature,
            },
            SignedRequest::BindProcessor { uuid, name, email, signature, .. } =>
                SignedRequest::BindProcessor { uuid, timestamp: t, name, email, signature },
            SignedRequest::CreateIntent { uuid, processor, amount, currency, payees, signature, .. } =>
                SignedRequest::CreateIntent {
                uuid,
                processor,
                timestamp: t,
                amount,
                currency,
                payees,
                signature,
            },
            SignedRequest::DeleteUser { uuid, signature, .. } => SignedRequest::DeleteUser {
                uuid,
                timestamp: t,
                signature,
            },
        }
    }

    /// The millisecond timestamp the request was stamped with.
    pub fn timestamp(&self) -> (t: u64)
        ensures
            t == self.spec_timestamp(),
    {
        match self {
            SignedRequest::CreateUser { timestamp, .. } => *timestamp,
            SignedRequest::GetUser { timestamp, .. } => *timestamp,
            SignedRequest::BindProcessor { timestamp, .. } => *timestamp,
            SignedRequest::CreateIntent { timestamp, .. } => *timestamp,
            SignedRequest::DeleteUser { timestamp, .. } => *timestamp,
        }
    }

    /// The timestamp as it is sent: its decimal form.
    pub fn timestamp_text(&self) -> (s: String)
        ensures
            s@ == decimal(self.spec_timestamp() as nat),
    {
        decimal_string(self.timestamp())
    }

    /// The hex signature the request carries.
    pub fn signature(&self) -> (s: &String)
        ensures
            s@ == self.spec_signature(),
    {
        match self {
            SignedRequest::CreateUser { signature, .. } => signature,
            SignedRequest::GetUser { signature, .. } => signature,
            SignedRequest::BindProcessor { signature, .. } => signature,
            SignedRequest::CreateIntent { signature, .. } => signature,
            SignedRequest::DeleteUser { signature, .. } => signature,
        }
    }

    pub fn method(&self) -> (m: Method)
        ensures
            m == self.spec_method(),
    {
        match self {
            SignedRequest::CreateUser { .. } => Method::Put,
            SignedRequest::GetUser { .. } => Method::Get,
            SignedRequest::BindProcessor { .. } => Method::Put,
            SignedRequest::CreateIntent { .. } => Method::Post,
            SignedRequest::DeleteUser { .. } => Method::Delete,
        }
    }

    /// Builds the canonical message from the fields this request carries.
    pub fn message(&self) -> (m: String)
        ensures
            m@ == self.spec_message(),
    {
        let mut m = decimal_string(self.timestamp());
        match self {
            SignedRequest::CreateUser { pub_key, .. } => {
                m.append(pub_key.as_str());
            },
            SignedRequest::GetUser { uuid, .. } => {
                m.append(uuid.as_str());
            },
            SignedRequest::BindProcessor { uuid, name, email, .. } => {
                m.append(uuid.as_str());
                m.append(name.as_str());
                m.append(email.as_str());
            },
            SignedRequest::CreateIntent { uuid, amount, currency, .. } => {
                m.append(uuid.as_str());
                push_decimal(&mut m, *amount as u64);
                m.append(currency.as_str());
            },
            SignedRequest::DeleteUser { uuid, .. } => {
                m.append(uuid.as_str());
            },
        }
        m
    }

    /// The JSON body of the request as named fields, in order; empty for a `Get`,
    /// which carries its timestamp and signature in the URL.
    pub fn body(&self) -> (b: Vec<Field>)
        ensures
            self.is_body(b@),
    {
        let mut b: Vec<Field> = Vec::new();
        if let SignedRequest::GetUser { .. } = self {
            return b;
        }
        b.push(text("timestamp", decimal_string(self.timestamp())));
        match self {
            SignedRequest::CreateUser { pub_key, .. } => {
                b.push(text("pubKey", pub_key.clone()));
            },
            SignedRequest::GetUser { .. } => {},
            SignedRequest::BindProcessor { name, email, .. } => {
                b.push(text("name", name.clone()));
                b.push(text("email", email.clone()));
            },
            SignedRequest::CreateIntent { amount, currency, payees, .. } => {
                b.push(Field { key: String::from_str("amount"), value: FieldValue::Number(*amount) });
                b.push(text("currency", currency.clone()));
                b.push(Field { key: String::from_str("payees"), value: FieldValue::List(payees.clone()) });
            },
            SignedRequest::DeleteUser { uuid, .. } => {
                b.push(text("uuid", uuid.clone()));
            },
        }
        b.push(text("signature", self.signature().clone()));
        b
    }

    /// The full URL of the request under `base`.
    pub fn url(&self, base: &str) -> (u: String)
        ensures
            u@ == self.spec_url(base@),
    {
        let mut u = String::from_str(base);
        match self {
            SignedRequest::CreateUser { .. } => {
                u.append("user/create");
            },
            SignedRequest::GetUser { uuid, timestamp, signature } => {
                u.append("user/");
                u.append(uuid.as_str());
                u.append("?timestamp=");
                push_decimal(&mut u, *timestamp);
                u.append("&signature=");
                u.append(signature.as_str());
            },
            SignedRequest::BindProcessor { uuid, .. } => {
                u.append("user/");
                u.append(uuid.as_str());
                u.append("/processor/stripe");
            },
            SignedRequest::CreateIntent { uuid, processor, .. } => {
                u.append("user/");
                u.append(uuid.as_str());
                u.append("/processor/");
                u.append(processor.as_str());
                u.append("/intent");
            },
            SignedRequest::DeleteUser { uuid, .. } => {
                u.append("user/");
                u.append(uuid.as_str());
            },
        }
        u
    }

    /// Replaces the signature, leaving every other field as it was.
    pub fn with_signature(self, sig: String) -> (r: SignedRequest)
        ensures
            r == self.signed_with(sig),
            r.spec_message() == self.spec_message(),
            r.spec_signature() == sig@,
    {
        match self {
            SignedRequest::CreateUser { timestamp, pub_key, .. } => SignedRequest::CreateUser {
                timestamp,
                pub_key,
                signature: sig,
            },
            SignedRequest::GetUser { uuid, timestamp, .. } => SignedRequest::GetUser {
                uuid,
                timestamp,
                signature: sig,
            },
            SignedRequest::BindProcessor { uuid, timestamp, name, email, .. } =>
                SignedRequest::BindProcessor { uuid, timestamp, name, email, signature: sig },
            SignedRequest::CreateIntent { uuid, processor, timestamp, amount, currency, payees, .. } =>
                SignedRequest::CreateIntent {
                uuid,
                processor,
                timestamp,
                amount,
                currency,
                payees,
                signature: sig,
            },
            SignedRequest::DeleteUser { uuid, timestamp, .. } => SignedRequest::DeleteUser {
                uuid,
                timestamp,
                signature: sig,
            },
        }
    }
}

/// The text a string field holds; empty for any other field.
pub open spec fn text_of(f: Field) -> Seq<char> {
    match f.value {
        FieldValue::Text(t) => t@,
        _ => Seq::empty(),
    }
}

/// The number a numeric field holds; zero for any other field.
pub open spec fn number_of(f: Field) -> nat {
    match f.value {
        FieldValue::Number(n) => n as nat,
        _ => 0,
    }
}

proof fn lemma_prefix(a: Seq<char>, b: Seq<char>)
    ensures
        a.is_prefix_of(a + b),
{
    assert((a + b).subrange(0, a.len() as int) =~= a);
}

/// Nothing signed is left out of what is sent: the canonical message is the
/// concatenation of values that the request carries unmodified, the user's
/// identifier in the URL path (`base` + `user/` + uuid) and the rest in the JSON
/// body, or in the query string of a `Get`.
pub proof fn lemma_message_is_sent(r: SignedRequest, base: Seq<char>, b: Seq<Field>)
    requires
        r.is_body(b),
    ensures
        r matches SignedRequest::CreateUser { .. } ==> r.spec_message() == text_of(b[0]) + text_of(
            b[1],
        ),
        r matches SignedRequest::GetUser { uuid, timestamp, signature } ==> {
            &&& r.spec_url(base) == base + "user/"@ + uuid@ + "?timestamp="@ + decimal(
                timestamp as nat,
            ) + "&signature="@ + signature@
            &&& r.spec_message() == decimal(timestamp as nat) + uuid@
        },
        r matches SignedRequest::BindProcessor { uuid, .. } ==> {
            &&& (base + "user/"@ + uuid@).is_prefix_of(r.spec_url(base))
            &&& r.spec_message() == text_of(b[0]) + uuid@ + text_of(b[1]) + text_of(b[2])
        },
        r matches SignedRequest::CreateIntent { uuid, .. } ==> {
            &&& (base + "user/"@ + uuid@).is_prefix_of(r.spec_url(base))
            &&& r.spec_message() == text_of(b[0]) + uuid@ + decimal(number_of(b[1])) + text_of(
                b[2],
            )
        },
        r matches SignedRequest::DeleteUser { uuid, .. } ==> {
            &&& (base + "user/"@ + uuid@).is_prefix_of(r.spec_url(base))
            &&& r.spec_message() == text_of(b[0]) + text_of(b[1])
            &&& text_of(b[1]) == uuid@
        },
{
    match r {
        SignedRequest::BindProcessor { uuid, .. } => {
            lemma_prefix(base + "user/"@ + uuid@, "/processor/stripe"@);
        },
        SignedRequest::CreateIntent { uuid, processor, .. } => {
            let p = base + "user/"@ + uuid@;
            lemma_prefix(p, "/processor/"@ + processor@ + "/intent"@);
            assert(p + ("/processor/"@ + processor@ + "/intent"@) =~= p + "/processor/"@ + processor@
                + "/intent"@);
        },
        SignedRequest::DeleteUser { uuid, .. } => {
            lemma_prefix(base + "user/"@ + uuid@, Seq::empty());
            assert(base + "user/"@ + uuid@ + Seq::<char>::empty() =~= base + "user/"@ + uuid@);
        },
        _ => {},
    }
}

/// Freshness: the same request stamped at two different times has two different
/// canonical messages, so it is signed over different text.
pub proof fn lemma_fresh_message(r: SignedRequest, a: u64, b: u64)
    requires
        a != b,
    ensures
        r.restamped(a).spec_message() != r.restamped(b).spec_message(),
{
    let ma = r.restamped(a).spec_message();
    let mb = r.restamped(b).spec_message();
    let da = decimal(a as nat);
    let db = decimal(b as nat);
    let rest = ma.subrange(da.len() as int, ma.len() as int);
    assert(ma =~= da + rest);
    assert(mb =~= db + rest);
    if ma == mb {
        assert(da.len() == db.len());
        assert(da =~= ma.subrange(0, da.len() as int));
        assert(db =~= mb.subrange(0, db.len() as int));
        lemma_decimal_injective(a as nat, b as nat);
    }
}

} // verus!
