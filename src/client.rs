use crate::decimal::decimal;
use crate::request::SignedRequest;
use crate::signer::{public_key_hex, public_key_of, sign_message, signature_hex};
use sessionless::Sessionless;
use vstd::prelude::*;
use vstd::string::StringExecFns;

verus! {

/// The service instance used when no base URL is given.
pub const DEFAULT_BASE_URL: &'static str = "https://dev.addie.allyabase.com/";

/// A client of the service: a base URL and the keypair that signs every request.
/// Both are fixed when the client is made.
pub struct Addie {
    pub base_url: String,
    pub sessionless: Sessionless,
}

impl Addie {
    /// The base URL that request URLs are built under.
    pub open spec fn spec_base_url(&self) -> Seq<char> {
        self.base_url@
    }

    /// Makes a client for `base_url`, or for the default instance, with a fresh
    /// random keypair.
    pub fn new(base_url: Option<String>) -> (r: Addie)
        ensures
            r.spec_base_url() == match base_url {
                Some(u) => u@,
                None => DEFAULT_BASE_URL@,
            },
    {
        let base_url = match base_url {
            Some(u) => u,
            None => String::from_str(DEFAULT_BASE_URL),
        };
        Addie { base_url, sessionless: Sessionless::new() }
    }

    /// The full URL that `request` is sent to.
    pub fn url(&self, request: &SignedRequest) -> (u: String)
        ensures
            u@ == request.spec_url(self.spec_base_url()),
    {
        request.url(self.base_url.as_str())
    }

    /// The client's public key, in hex.
    pub fn public_key(&self) -> (k: String)
        ensures
            k@ == public_key_hex(self.sessionless),
            k@.len() == 66,
    {
        public_key_of(&self.sessionless)
    }

    /// Signs the canonical message of `request` and puts the signature in it.
    fn sign(&self, request: SignedRequest) -> (r: SignedRequest)
        ensures
            exists|sig: String| r == request.signed_with(sig),
            r.spec_message() == request.spec_message(),
            r.spec_signature() == signature_hex(self.sessionless, request.spec_message()),
    {
        let message = request.message();
        let sig = sign_message(&self.sessionless, message.as_str());
        let ghost unsigned = request;
        let r = request.with_signature(sig);
        assert(r == unsigned.signed_with(sig));
        r
    }

    /// The request that registers this client's public key as a new user,
    /// stamped at `timestamp` (milliseconds since the Unix epoch).
    pub fn create_user(&self, timestamp: u64) -> (r: SignedRequest)
        ensures
            r matches SignedRequest::CreateUser { timestamp: t, pub_key, .. } && t == timestamp
                && pub_key@ == public_key_hex(self.sessionless),
            r.spec_message() == decimal(timestamp as nat) + public_key_hex(self.sessionless),
            r.spec_signature() == signature_hex(self.sessionless, r.spec_message()),
    {
        let pub_key = public_key_of(&self.sessionless);
        self.sign(SignedRequest::CreateUser { timestamp, pub_key, signature: String::new() })
    }

    /// The request that fetches the user `uuid`.
    pub fn get_user_by_uuid(&self, uuid: &str, timestamp: u64) -> (r: SignedRequest)
        ensures
            r matches SignedRequest::GetUser { uuid: u, timestamp: t, .. } && u@ == uuid@ && t
                == timestamp,
            r.spec_message() == decimal(timestamp as nat) + uuid@,
            r.spec_signature() == signature_hex(self.sessionless, r.spec_message()),
    {
        self.sign(
            SignedRequest::GetUser { uuid: String::from_str(uuid), timestamp, signature: String::new() },
        )
    }

    /// The request that binds a processor account named `name`, reached at
    /// `email`, to the user `uuid`.
    pub fn add_processor_account(&self, uuid: &str, name: &str, email: &str, timestamp: u64) -> (r:
        SignedRequest)
        ensures
            r matches SignedRequest::BindProcessor { uuid: u, timestamp: t, name: n, email: e, .. }
                && u@ == uuid@ && t == timestamp && n@ == name@ && e@ == email@,
            r.spec_message() == decimal(timestamp as nat) + uuid@ + name@ + email@,
            r.spec_signature() == signature_hex(self.sessionless, r.spec_message()),
    {
        self.sign(
            SignedRequest::BindProcessor {
                uuid: String::from_str(uuid),
                timestamp,
                name: String::from_str(name),
                email: String::from_str(email),
                signature: String::new(),
            },
        )
    }

    /// The request for a payment intent of `amount` minor units of `currency`
    /// through `processor`, split among `payees` (which may be empty).
    pub fn get_payment_intent(
        &self,
        uuid: &str,
        processor: &str,
        amount: &u32,
        currency: &str,
        payees: &Vec<String>,
        timestamp: u64,
    ) -> (r: SignedRequest)
        ensures
            r matches SignedRequest::CreateIntent {
                uuid: u,
                processor: p,
                timestamp: t,
                amount: a,
                currency: c,
                payees: ps,
                ..
            } && u@ == uuid@ && p@ == processor@ && t == timestamp && a == *amount && c@
                == currency@ && ps.deep_view() == payees.deep_view(),
            r.spec_message() == decimal(timestamp as nat) + uuid@ + decimal(*amount as nat)
                + currency@,
            r.spec_signature() == signature_hex(self.sessionless, r.spec_message()),
    {
        self.sign(
            SignedRequest::CreateIntent {
                uuid: String::from_str(uuid),
                processor: String::from_str(processor),
                timestamp,
                amount: *amount,
                currency: String::from_str(currency),
                payees: payees.clone(),
                signature: String::new(),
            },
        )
    }

    /// The request that deletes the user `uuid`.
    pub fn delete_user(&self, uuid: &str, timestamp: u64) -> (r: SignedRequest)
        ensures
            r matches SignedRequest::DeleteUser { uuid: u, timestamp: t, .. } && u@ == uuid@ && t
                == timestamp,
            r.spec_message() == decimal(timestamp as nat) + uuid@,
            r.spec_signature() == signature_hex(self.sessionless, r.spec_message()),
    {
        self.sign(
            SignedRequest::DeleteUser { uuid: String::from_str(uuid), timestamp, signature: String::new() },
        )
    }
}

} // verus!
