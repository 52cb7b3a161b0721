use serde_json::Value;
use std::collections::HashMap;
use vstd::prelude::*;
use vstd::string::StringExecFns;

verus! {

#[verifier::external_type_specification]
#[verifier::external_body]
pub struct ExValue(Value);

/// A user record as the service returns it. `stripe_account_id` is empty until a
/// processor account is bound.
#[derive(Debug)]
pub struct AddieUser {
    pub pub_key: String,
    pub uuid: String,
    pub stripe_account_id: String,
}

impl Default for AddieUser {
    fn default() -> (r: Self)
        ensures
            r.pub_key@.len() == 0,
            r.uuid@.len() == 0,
            r.stripe_account_id@.len() == 0,
    {
        AddieUser { pub_key: String::new(), uuid: String::new(), stripe_account_id: String::new() }
    }
}

/// A signed gateway entry of a spell: who takes part, at what minimum cost, in
/// which order, with fields of its own beside them.
#[derive(Clone, Debug)]
pub struct Gateway {
    pub timestamp: String,
    pub uuid: String,
    pub minimum_cost: u32,
    pub ordinal: u64,
    pub signature: String,
    pub extra: HashMap<String, Value>,
}

/// A signed, ordered economic event cast by one user through a list of gateways.
#[derive(Clone, Debug)]
pub struct Spell {
    pub timestamp: String,
    pub spell: String,
    pub caster_uuid: String,
    pub total_cost: u32,
    pub mp: bool,
    pub ordinal: u32,
    pub caster_signature: String,
    pub extra: HashMap<String, Value>,
    pub gateways: Vec<Gateway>,
}

impl Default for Spell {
    fn default() -> (r: Self)
        ensures
            r.timestamp@ == "now"@,
            r.spell@ == "test"@,
            r.caster_uuid@.len() == 0,
            r.total_cost == 200,
            r.mp,
            r.ordinal == 1,
            r.caster_signature@.len() == 0,
            r.extra@ == Map::<String, Value>::empty(),
            r.gateways@.len() == 0,
    {
        Spell {
            timestamp: String::from_str("now"),
            spell: String::from_str("test"),
            caster_uuid: String::new(),
            total_cost: 200,
            mp: true,
            ordinal: 1,
            caster_signature: String::new(),
            extra: HashMap::new(),
            gateways: Vec::new(),
        }
    }
}

/// The outcome of casting a spell.
#[derive(Clone, Copy, Debug, PartialEq, Eq, Structural)]
pub struct SpellResult {
    pub success: bool,
}

/// The acknowledgment of a call that returns nothing richer.
#[derive(Clone, Copy, Debug, PartialEq, Eq, Structural)]
pub struct SuccessResult {
    pub success: bool,
}

/// The nineum a user holds.
#[derive(Clone, Debug)]
pub struct Nineum {
    pub nineum: Vec<String>,
}

/// The tokens that authorize one payment attempt with a processor.
#[derive(Clone, Debug)]
pub struct PaymentIntent {
    pub payment_intent: String,
    pub ephemeral_key: String,
    pub customer: String,
    pub publishable_key: String,
}

impl PaymentIntent {
    /// An intent with every token empty.
    pub fn new() -> (r: Self)
        ensures
            r.payment_intent@.len() == 0,
            r.ephemeral_key@.len() == 0,
            r.customer@.len() == 0,
            r.publishable_key@.len() == 0,
    {
        PaymentIntent {
            payment_intent: String::new(),
            ephemeral_key: String::new(),
            customer: String::new(),
            publishable_key: String::new(),
        }
    }
}

/// One recipient of a split payment: a public key and an amount.
#[allow(non_snake_case)]
#[derive(Clone, Debug)]
pub struct Payee {
    pub pubKey: String,
    pub amount: i32,
}

} // verus!
