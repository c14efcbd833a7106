//! The Soroban host as the contract sees it, and the calls made to it.
//!
//! The host keeps the contract's entries, knows the time and who has authorized
//! the invocation, and collects the published events. [`Host`] is what it holds;
//! [`host_of`] names what it holds behind an [`Env`]. An `Env` is a handle on
//! the host, so a call that changes the host takes it as `&mut Env`: while a
//! contract function runs, its `Env` is the only way to the contract's state.
//!
//! All values handed to a call belong to the host behind the `Env` that is handed
//! to it: an `Address`, a `String`, a `Map`, a `Vec` or a `Val` of one host means
//! nothing to another.

use soroban_sdk::{Address, Env, IntoVal, Symbol, Val};
use vstd::prelude::*;

verus! {

/// The handle on the host that an entry point is handed.
#[verifier::external_type_specification]
#[verifier::external_body]
pub struct ExEnv(Env);

/// The identity of an account or a contract. Two addresses are equal when they
/// identify the same party.
#[verifier::external_type_specification]
#[verifier::external_body]
pub struct ExAddress(Address);

/// A text held by the host. Two texts are equal when their bytes are.
#[verifier::external_type_specification]
#[verifier::external_body]
pub struct ExString(soroban_sdk::String);

/// A value in the form in which the host stores it.
#[verifier::external_type_specification]
#[verifier::external_body]
pub struct ExVal(Val);

/// A list held by the host.
#[verifier::external_type_specification]
#[verifier::external_body]
#[verifier::reject_recursive_types(T)]
pub struct ExVec<T>(soroban_sdk::Vec<T>);

/// A map held by the host.
#[verifier::external_type_specification]
#[verifier::external_body]
#[verifier::reject_recursive_types(K)]
#[verifier::reject_recursive_types(V)]
pub struct ExMap<K, V>(soroban_sdk::Map<K, V>);

/// A short name held by the host.
#[verifier::external_type_specification]
#[verifier::external_body]
pub struct ExSymbol(Symbol);

/// What a value in stored form stands for.
pub enum Field {
    /// A signed number of 128 bits.
    Amount(i128),
    /// An unsigned number of 64 bits.
    Time(u64),
    /// An address.
    Party(Address),
    /// A text.
    Text(soroban_sdk::String),
    /// A symbol.
    Symbol(Seq<char>),
    /// A list of one symbol.
    Name(Seq<char>),
    /// Anything else, as it is.
    Other(Val),
}

/// What a map in stored form has under each symbol.
pub type Fields = Map<Seq<char>, Field>;

/// The items of a list in stored form, as which a storage key is stored.
pub type KeyParts = Seq<Field>;

/// What the host holds for the contract at one moment of an invocation.
#[verifier::ext_equal]
pub struct Host {
    /// Whether an invocation of the contract is in progress, in which the host
    /// serves the calls below: instance entries are addresses and persistent
    /// ones maps with symbols as keys, none is archived, and the calls stay
    /// within the invocation's resource limits.
    pub in_invocation: bool,
    /// The entries of the contract's instance storage.
    pub instance: Map<KeyParts, Address>,
    /// The entries of the contract's persistent storage.
    pub persistent: Map<KeyParts, Fields>,
    /// For each persistent entry, the number of ledgers after the current one
    /// through which it stays live.
    pub ttl: Map<KeyParts, u32>,
    /// The time to live that the network gives to a new persistent entry.
    pub fresh_ttl: u32,
    /// The longest time to live that the network allows.
    pub max_ttl: u32,
    /// The addresses whose authorization of this invocation is at hand and has
    /// not been asked for yet.
    pub grants: Set<Address>,
    /// The close time of the current ledger, in seconds since the Unix epoch.
    pub timestamp: u64,
    /// The events that the contract has published: topic, invoice and amount.
    pub published: Seq<(Seq<char>, soroban_sdk::String, i128)>,
}

/// What the host holds behind `env`.
pub uninterp spec fn host_of(env: Env) -> Host;

/// What a list in stored form holds.
pub uninterp spec fn items_of(list: soroban_sdk::Vec<Val>) -> KeyParts;

/// What a value in stored form stands for.
pub uninterp spec fn field_of(value: Val) -> Field;

/// The text that a symbol is made of.
pub uninterp spec fn symbol_text(symbol: Symbol) -> Seq<char>;

/// What a map in stored form holds.
pub uninterp spec fn fields_of(fields: soroban_sdk::Map<Symbol, Val>) -> Fields;

/// Whether a text can be a host symbol: at most 32 letters, digits and
/// underscores.
pub open spec fn is_symbol(text: Seq<char>) -> bool {
    &&& text.len() <= 32
    &&& forall|i: int|
        0 <= i < text.len() ==> {
            ||| 'a' <= #[trigger] text[i] <= 'z'
            ||| 'A' <= text[i] <= 'Z'
            ||| '0' <= text[i] <= '9'
            ||| text[i] == '_'
        }
}

/// The time to live of an entry after an extension to `extend_to` that is asked
/// for when no more than `threshold` is left.
pub open spec fn extended_ttl(ttl: u32, threshold: u32, extend_to: u32, max_ttl: u32) -> u32 {
    let target = if extend_to <= max_ttl {
        extend_to
    } else {
        max_ttl
    };
    if ttl <= threshold && ttl < target {
        target
    } else {
        ttl
    }
}

/// `<soroban_sdk::String as Clone>::clone`: the copy is the same text.
pub assume_specification[ <soroban_sdk::String as Clone>::clone ](
    text: &soroban_sdk::String,
) -> (copy: soroban_sdk::String)
    ensures
        copy == *text,
;

/// `<soroban_sdk::Address as Clone>::clone`: the copy is the same address.
pub assume_specification[ <Address as Clone>::clone ](address: &Address) -> (copy: Address)
    ensures
        copy == *address,
;

/// `==` of `soroban_sdk::Address`: whether the two are the same address.
#[verifier::external_body]
pub(crate) fn same_address(a: &Address, b: &Address) -> (same: bool)
    ensures
        same == (*a == *b),
{
    a == b
}

/// `soroban_sdk::Vec::new`: a list that holds nothing.
#[verifier::external_body]
pub(crate) fn no_items(env: &Env) -> (list: soroban_sdk::Vec<Val>)
    ensures
        items_of(list) == KeyParts::empty(),
{
    soroban_sdk::Vec::new(env)
}

/// `soroban_sdk::Vec::push_back`: puts a value at the end of a list.
#[verifier::external_body]
pub(crate) fn push_item(list: &mut soroban_sdk::Vec<Val>, value: Val)
    ensures
        items_of(*final(list)) == items_of(*old(list)).push(field_of(value)),
{
    list.push_back(value)
}

/// `Instance::has`: whether instance storage has an entry under the key.
#[verifier::external_body]
pub(crate) fn instance_has(env: &Env, key: &soroban_sdk::Vec<Val>) -> (found: bool)
    requires
        host_of(*env).in_invocation,
    ensures
        found == host_of(*env).instance.contains_key(items_of(*key)),
{
    env.storage().instance().has(key)
}

/// `Instance::get`: the address that instance storage has under the key, if any.
#[verifier::external_body]
pub(crate) fn instance_get(env: &Env, key: &soroban_sdk::Vec<Val>) -> (address: Option<Address>)
    requires
        host_of(*env).in_invocation,
    ensures
        address == (if host_of(*env).instance.contains_key(items_of(*key)) {
            Some(host_of(*env).instance[items_of(*key)])
        } else {
            None
        }),
{
    env.storage().instance().get(key)
}

/// `Instance::set`: puts an address under the key in instance storage and
/// changes nothing else.
#[verifier::external_body]
pub(crate) fn instance_set(env: &mut Env, key: &soroban_sdk::Vec<Val>, address: &Address)
    requires
        host_of(*old(env)).in_invocation,
    ensures
        host_of(*final(env)) == (Host {
            instance: host_of(*old(env)).instance.insert(items_of(*key), *address),
            ..host_of(*old(env))
        }),
{
    env.storage().instance().set(key, address)
}

/// `Persistent::has`: whether persistent storage has an entry under the key.
#[verifier::external_body]
pub(crate) fn persistent_has(env: &Env, key: &soroban_sdk::Vec<Val>) -> (found: bool)
    requires
        host_of(*env).in_invocation,
    ensures
        found == host_of(*env).persistent.contains_key(items_of(*key)),
{
    env.storage().persistent().has(key)
}

/// `Persistent::get`: the map that persistent storage has under the key, if any.
#[verifier::external_body]
pub(crate) fn persistent_get(env: &Env, key: &soroban_sdk::Vec<Val>) -> (found: Option<
    soroban_sdk::Map<Symbol, Val>,
>)
    requires
        host_of(*env).in_invocation,
    ensures
        match found {
            Some(fields) => {
                &&& host_of(*env).persistent.contains_key(items_of(*key))
                &&& fields_of(fields) == host_of(*env).persistent[items_of(*key)]
            },
            None => !host_of(*env).persistent.contains_key(items_of(*key)),
        },
{
    env.storage().persistent().get(key)
}

/// `Persistent::set`: puts a map under the key. An entry that was there keeps its
/// time to live, a new one gets the network's initial one; nothing else changes.
#[verifier::external_body]
pub(crate) fn persistent_set(
    env: &mut Env,
    key: &soroban_sdk::Vec<Val>,
    fields: &soroban_sdk::Map<Symbol, Val>,
)
    requires
        host_of(*old(env)).in_invocation,
    ensures
        host_of(*final(env)) == (Host {
            persistent: host_of(*old(env)).persistent.insert(items_of(*key), fields_of(*fields)),
            ttl: if host_of(*old(env)).persistent.contains_key(items_of(*key)) {
                host_of(*old(env)).ttl
            } else {
                host_of(*old(env)).ttl.insert(items_of(*key), host_of(*old(env)).fresh_ttl)
            },
            ..host_of(*old(env))
        }),
{
    env.storage().persistent().set(key, fields)
}

/// `Persistent::extend_ttl`: extends the time to live of the entry under the key
/// to `extend_to`, or to the network's limit if that is less, when no more than
/// `threshold` of it is left; never shortens it, and changes nothing else.
#[verifier::external_body]
pub(crate) fn persistent_extend_ttl(
    env: &mut Env,
    key: &soroban_sdk::Vec<Val>,
    threshold: u32,
    extend_to: u32,
)
    requires
        host_of(*old(env)).in_invocation,
        host_of(*old(env)).persistent.contains_key(items_of(*key)),
        threshold <= extend_to,
    ensures
        host_of(*final(env)) == (Host {
            ttl: host_of(*old(env)).ttl.insert(
                items_of(*key),
                extended_ttl(
                    host_of(*old(env)).ttl[items_of(*key)],
                    threshold,
                    extend_to,
                    host_of(*old(env)).max_ttl,
                ),
            ),
            ..host_of(*old(env))
        }),
{
    env.storage().persistent().extend_ttl(key, threshold, extend_to)
}

/// `soroban_sdk::Map::new`: a map that holds nothing.
#[verifier::external_body]
pub(crate) fn no_fields(env: &Env) -> (fields: soroban_sdk::Map<Symbol, Val>)
    ensures
        fields_of(fields) == Fields::empty(),
{
    soroban_sdk::Map::new(env)
}

/// `soroban_sdk::Map::set`: puts a value under a name, in place of what was there.
#[verifier::external_body]
pub(crate) fn set_field(
    env: &Env,
    fields: &mut soroban_sdk::Map<Symbol, Val>,
    name: &str,
    value: Val,
)
    requires
        is_symbol(name@),
    ensures
        fields_of(*final(fields)) == fields_of(*old(fields)).insert(name@, field_of(value)),
{
    fields.set(Symbol::new(env, name), value)
}

/// `soroban_sdk::Map::get`: the value under a name, if any.
#[verifier::external_body]
pub(crate) fn get_field(
    env: &Env,
    fields: &soroban_sdk::Map<Symbol, Val>,
    name: &str,
) -> (value: Option<Val>)
    requires
        is_symbol(name@),
    ensures
        match value {
            Some(v) => {
                &&& fields_of(*fields).contains_key(name@)
                &&& field_of(v) == fields_of(*fields)[name@]
            },
            None => !fields_of(*fields).contains_key(name@),
        },
{
    fields.get(Symbol::new(env, name))
}

/// `IntoVal` of `i128`: the stored form of a number.
#[verifier::external_body]
pub(crate) fn store_amount(env: &Env, amount: i128) -> (value: Val)
    ensures
        field_of(value) == Field::Amount(amount),
{
    amount.into_val(env)
}

/// `IntoVal` of `u64`: the stored form of a number.
#[verifier::external_body]
pub(crate) fn store_time(env: &Env, time: u64) -> (value: Val)
    ensures
        field_of(value) == Field::Time(time),
{
    time.into_val(env)
}

/// `Address::to_val`: the stored form of an address.
#[verifier::external_body]
pub(crate) fn store_party(party: &Address) -> (value: Val)
    ensures
        field_of(value) == Field::Party(*party),
{
    party.to_val()
}

/// `soroban_sdk::String::to_val`: the stored form of a text.
#[verifier::external_body]
pub(crate) fn store_text(text: &soroban_sdk::String) -> (value: Val)
    ensures
        field_of(value) == Field::Text(*text),
{
    text.to_val()
}

/// `Symbol::new` and `Symbol::to_val`: the stored form of a symbol.
#[verifier::external_body]
pub(crate) fn store_symbol(env: &Env, text: &str) -> (value: Val)
    requires
        is_symbol(text@),
    ensures
        field_of(value) == Field::Symbol(text@),
{
    Symbol::new(env, text).to_val()
}

/// `IntoVal` of a one-element tuple of a `Symbol`: the stored form of a name.
#[verifier::external_body]
pub(crate) fn store_name(env: &Env, name: &str) -> (value: Val)
    requires
        is_symbol(name@),
    ensures
        field_of(value) == Field::Name(name@),
{
    (Symbol::new(env, name),).into_val(env)
}

/// `IntoVal` of a `Val` to `i128`: the number that the value stands for.
#[verifier::external_body]
pub(crate) fn load_amount(env: &Env, value: &Val) -> (amount: i128)
    requires
        field_of(*value) is Amount,
    ensures
        field_of(*value) == Field::Amount(amount),
{
    value.into_val(env)
}

/// `IntoVal` of a `Val` to `u64`: the number that the value stands for.
#[verifier::external_body]
pub(crate) fn load_time(env: &Env, value: &Val) -> (time: u64)
    requires
        field_of(*value) is Time,
    ensures
        field_of(*value) == Field::Time(time),
{
    value.into_val(env)
}

/// `IntoVal` of a `Val` to `Address`: the address that the value stands for.
#[verifier::external_body]
pub(crate) fn load_party(env: &Env, value: &Val) -> (party: Address)
    requires
        field_of(*value) is Party,
    ensures
        field_of(*value) == Field::Party(party),
{
    value.into_val(env)
}

/// `IntoVal` of a `Val` to `soroban_sdk::String`: the text that the value stands
/// for.
#[verifier::external_body]
pub(crate) fn load_text(env: &Env, value: &Val) -> (text: soroban_sdk::String)
    requires
        field_of(*value) is Text,
    ensures
        field_of(*value) == Field::Text(text),
{
    value.into_val(env)
}

/// `IntoVal` of a `Val` to a one-element tuple of a `Symbol`: the name that the
/// value stands for.
#[verifier::external_body]
pub(crate) fn load_name(env: &Env, value: &Val) -> (name: Symbol)
    requires
        field_of(*value) is Name,
    ensures
        field_of(*value) == Field::Name(symbol_text(name)),
{
    let (name,): (Symbol,) = value.into_val(env);
    name
}

/// `==` of `Symbol`: whether a symbol is the one made of the given text.
#[verifier::external_body]
pub(crate) fn symbol_is(env: &Env, symbol: &Symbol, text: &str) -> (same: bool)
    requires
        is_symbol(text@),
    ensures
        same == (symbol_text(*symbol) == text@),
{
    *symbol == Symbol::new(env, text)
}

/// `Address::require_auth`: asks for the address's authorization of the
/// invocation, which has to be at hand: without it the host ends the invocation.
/// Nothing else changes.
#[verifier::external_body]
pub(crate) fn require_auth(env: &mut Env, address: &Address)
    requires
        host_of(*old(env)).in_invocation,
        host_of(*old(env)).grants.contains(*address),
    ensures
        host_of(*final(env)) == (Host {
            grants: host_of(*old(env)).grants.remove(*address),
            ..host_of(*old(env))
        }),
{
    address.require_auth()
}

/// `Ledger::timestamp`: the close time of the current ledger.
#[verifier::external_body]
pub(crate) fn ledger_timestamp(env: &Env) -> (timestamp: u64)
    requires
        host_of(*env).in_invocation,
    ensures
        timestamp == host_of(*env).timestamp,
{
    env.ledger().timestamp()
}

/// `Events::publish`: publishes an event of the contract with the topics `topic`
/// and `invoice_id` and the data `amount`, and changes nothing else.
#[verifier::external_body]
#[allow(deprecated)]
pub(crate) fn publish_event(
    env: &mut Env,
    topic: &str,
    invoice_id: &soroban_sdk::String,
    amount: i128,
)
    requires
        host_of(*old(env)).in_invocation,
        is_symbol(topic@),
    ensures
        host_of(*final(env)) == (Host {
            published: host_of(*old(env)).published.push((topic@, *invoice_id, amount)),
            ..host_of(*old(env))
        }),
{
    env.events().publish((Symbol::new(env, topic), invoice_id), amount)
}

} // verus!
