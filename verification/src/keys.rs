//! The keys of the contract's storage entries.

use crate::host::{
    items_of, no_items, push_item, store_symbol, store_text, Field, KeyParts,
};
use soroban_sdk::{Env, Val};
use vstd::prelude::*;

verus! {

/// What a storage entry of the contract stands for.
pub enum DataKey {
    /// The admin, in instance storage.
    Admin,
    /// The escrow of an invoice, in persistent storage.
    Invoice(soroban_sdk::String),
}

impl Clone for DataKey {
    fn clone(&self) -> (copy: Self)
        ensures
            copy == *self,
    {
        match self {
            DataKey::Admin => DataKey::Admin,
            DataKey::Invoice(id) => DataKey::Invoice(id.clone()),
        }
    }
}

impl DataKey {
    /// The stored form of the key: a list of the name of its variant and what it
    /// carries.
    pub open spec fn parts(self) -> KeyParts {
        match self {
            DataKey::Admin => seq![Field::Symbol("Admin"@)],
            DataKey::Invoice(id) => seq![Field::Symbol("Invoice"@), Field::Text(id)],
        }
    }

    /// Builds the stored form of the key.
    pub fn encode(&self, env: &Env) -> (key: soroban_sdk::Vec<Val>)
        ensures
            items_of(key) == self.parts(),
    {
        proof {
            reveal_strlit("Admin");
            reveal_strlit("Invoice");
        }
        let mut key = no_items(env);
        match self {
            DataKey::Admin => push_item(&mut key, store_symbol(env, "Admin")),
            DataKey::Invoice(id) => {
                push_item(&mut key, store_symbol(env, "Invoice"));
                push_item(&mut key, store_text(id));
            },
        }
        key
    }
}

/// Distinct keys have distinct stored forms.
pub broadcast proof fn lemma_parts_determine(a: DataKey, b: DataKey)
    ensures
        (#[trigger] a.parts() == #[trigger] b.parts()) <==> a == b,
{
    if a.parts() == b.parts() {
        assert(a.parts().len() == b.parts().len());
        if a is Invoice {
            assert(a.parts()[1] == Field::Text(a->Invoice_0));
            assert(b.parts()[1] == Field::Text(b->Invoice_0));
        }
    }
}

} // verus!
