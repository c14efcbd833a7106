//! The stored form of a record.
//!
//! A record is stored as a map from the names of its fields to their values, its
//! status as the status's name.

use crate::host::{
    fields_of, get_field, is_symbol, load_amount, load_name, load_party, load_text, load_time,
    no_fields, set_field, store_amount, store_name, store_party, store_text, store_time, symbol_is,
    symbol_text, Field, Fields,
};
use crate::record::{EscrowRecord, EscrowStatus};
use soroban_sdk::{Env, Symbol, Val};
use vstd::prelude::*;

verus! {

/// Whether a map is the stored form of a record.
pub open spec fn is_record(fields: Fields) -> bool {
    exists|record: EscrowRecord| #[trigger] record.fields() == fields
}

/// The record that a map is the stored form of.
pub open spec fn record_in(fields: Fields) -> EscrowRecord
    recommends
        is_record(fields),
{
    choose|record: EscrowRecord| #[trigger] record.fields() == fields
}

impl EscrowRecord {
    /// The stored form of the record.
    pub open spec fn fields(self) -> Fields {
        map![
            "amount"@ => Field::Amount(self.amount),
            "closed_at"@ => Field::Time(self.closed_at),
            "cooperative"@ => Field::Party(self.cooperative),
            "funder"@ => Field::Party(self.funder),
            "invoice_id"@ => Field::Text(self.invoice_id),
            "locked_at"@ => Field::Time(self.locked_at),
            "repaid_amount"@ => Field::Amount(self.repaid_amount),
            "status"@ => Field::Name(self.status.spec_name()),
            "supplier"@ => Field::Party(self.supplier),
            "warung"@ => Field::Party(self.warung),
        ]
    }

    /// Builds the stored form of the record.
    pub fn encode(&self, env: &Env) -> (fields: soroban_sdk::Map<Symbol, Val>)
        ensures
            fields_of(fields) == self.fields(),
    {
        proof {
            lemma_names();
        }
        let mut fields = no_fields(env);
        set_field(env, &mut fields, "amount", store_amount(env, self.amount));
        set_field(env, &mut fields, "closed_at", store_time(env, self.closed_at));
        set_field(env, &mut fields, "cooperative", store_party(&self.cooperative));
        set_field(env, &mut fields, "funder", store_party(&self.funder));
        set_field(env, &mut fields, "invoice_id", store_text(&self.invoice_id));
        set_field(env, &mut fields, "locked_at", store_time(env, self.locked_at));
        set_field(env, &mut fields, "repaid_amount", store_amount(env, self.repaid_amount));
        set_field(env, &mut fields, "status", store_name(env, self.status.name()));
        set_field(env, &mut fields, "supplier", store_party(&self.supplier));
        set_field(env, &mut fields, "warung", store_party(&self.warung));
        fields
    }

    /// Reads a record from its stored form.
    pub fn decode(env: &Env, fields: &soroban_sdk::Map<Symbol, Val>) -> (record: EscrowRecord)
        requires
            is_record(fields_of(*fields)),
        ensures
            record.fields() == fields_of(*fields),
            record == record_in(fields_of(*fields)),
    {
        proof {
            lemma_names();
            lemma_fields(record_in(fields_of(*fields)));
        }
        EscrowRecord {
            amount: load_amount(env, &get_field(env, fields, "amount").unwrap()),
            closed_at: load_time(env, &get_field(env, fields, "closed_at").unwrap()),
            cooperative: load_party(env, &get_field(env, fields, "cooperative").unwrap()),
            funder: load_party(env, &get_field(env, fields, "funder").unwrap()),
            invoice_id: load_text(env, &get_field(env, fields, "invoice_id").unwrap()),
            locked_at: load_time(env, &get_field(env, fields, "locked_at").unwrap()),
            repaid_amount: load_amount(env, &get_field(env, fields, "repaid_amount").unwrap()),
            status: EscrowStatus::decode(
                env,
                &load_name(env, &get_field(env, fields, "status").unwrap()),
            ),
            supplier: load_party(env, &get_field(env, fields, "supplier").unwrap()),
            warung: load_party(env, &get_field(env, fields, "warung").unwrap()),
        }
    }
}

impl EscrowStatus {
    /// The status of the given name.
    fn decode(env: &Env, name: &Symbol) -> (status: EscrowStatus)
        requires
            exists|status: EscrowStatus| symbol_text(*name) == #[trigger] status.spec_name(),
        ensures
            symbol_text(*name) == status.spec_name(),
    {
        proof {
            lemma_names();
        }
        if symbol_is(env, name, "Locked") {
            EscrowStatus::Locked
        } else if symbol_is(env, name, "Released") {
            EscrowStatus::Released
        } else {
            EscrowStatus::Refunded
        }
    }
}

/// The names that occur in stored records are symbols, and no two statuses have
/// the same name.
proof fn lemma_names()
    ensures
        is_symbol("Locked"@),
        is_symbol("Released"@),
        is_symbol("Refunded"@),
        forall|a: EscrowStatus, b: EscrowStatus|
            #[trigger] a.spec_name() == #[trigger] b.spec_name() ==> a == b,
        is_symbol("amount"@),
        is_symbol("closed_at"@),
        is_symbol("cooperative"@),
        is_symbol("funder"@),
        is_symbol("invoice_id"@),
        is_symbol("locked_at"@),
        is_symbol("repaid_amount"@),
        is_symbol("status"@),
        is_symbol("supplier"@),
        is_symbol("warung"@),
{
    reveal_strlit("Locked");
    reveal_strlit("Released");
    reveal_strlit("Refunded");
    reveal_strlit("amount");
    reveal_strlit("closed_at");
    reveal_strlit("cooperative");
    reveal_strlit("funder");
    reveal_strlit("invoice_id");
    reveal_strlit("locked_at");
    reveal_strlit("repaid_amount");
    reveal_strlit("status");
    reveal_strlit("supplier");
    reveal_strlit("warung");
    assert("Released"@[2] != "Refunded"@[2]);
}

/// What a stored record has under each name.
pub proof fn lemma_fields(record: EscrowRecord)
    ensures
        record.fields().contains_pair("amount"@, Field::Amount(record.amount)),
        record.fields().contains_pair("closed_at"@, Field::Time(record.closed_at)),
        record.fields().contains_pair("cooperative"@, Field::Party(record.cooperative)),
        record.fields().contains_pair("funder"@, Field::Party(record.funder)),
        record.fields().contains_pair("invoice_id"@, Field::Text(record.invoice_id)),
        record.fields().contains_pair("locked_at"@, Field::Time(record.locked_at)),
        record.fields().contains_pair("repaid_amount"@, Field::Amount(record.repaid_amount)),
        record.fields().contains_pair("status"@, Field::Name(record.status.spec_name())),
        record.fields().contains_pair("supplier"@, Field::Party(record.supplier)),
        record.fields().contains_pair("warung"@, Field::Party(record.warung)),
{
    reveal_strlit("amount");
    reveal_strlit("closed_at");
    reveal_strlit("cooperative");
    reveal_strlit("funder");
    reveal_strlit("invoice_id");
    reveal_strlit("locked_at");
    reveal_strlit("repaid_amount");
    reveal_strlit("status");
    reveal_strlit("supplier");
    reveal_strlit("warung");
    // Names of equal length differ in their first letter.
    assert("amount"@.len() == 6 && "amount"@[0] == 'a');
    assert("closed_at"@.len() == 9 && "closed_at"@[0] == 'c');
    assert("cooperative"@.len() == 11);
    assert("funder"@.len() == 6 && "funder"@[0] == 'f');
    assert("invoice_id"@.len() == 10);
    assert("locked_at"@.len() == 9 && "locked_at"@[0] == 'l');
    assert("repaid_amount"@.len() == 13);
    assert("status"@.len() == 6 && "status"@[0] == 's');
    assert("supplier"@.len() == 8);
    assert("warung"@.len() == 6 && "warung"@[0] == 'w');
}

/// Two records with one stored form are the same record.
pub proof fn lemma_fields_determine(a: EscrowRecord, b: EscrowRecord)
    requires
        a.fields() == b.fields(),
    ensures
        a == b,
{
    lemma_names();
    lemma_fields(a);
    lemma_fields(b);
    assert(a.status == b.status) by {
        assert(a.status.spec_name() == b.status.spec_name());
    }
}

/// A record can be read back from its stored form.
pub broadcast proof fn lemma_stored_record(record: EscrowRecord)
    ensures
        is_record(record.fields()),
        #[trigger] record_in(record.fields()) == record,
{
    lemma_fields_determine(record_in(record.fields()), record);
}

} // verus!
