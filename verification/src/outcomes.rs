//! What each call comes to, in terms of what the host holds.
//!
//! The laws here speak of the host's own entries, field by field, and of every
//! host: whatever its time, its other entries and what was published before. The
//! entries are found under [`admin_entry`] and [`invoice_entry`].

use crate::contract::{
    admin_reply, close_host, close_permitted, close_reply, escrow_host, escrow_permitted,
    escrow_reply, initialize_host, initialize_permitted, initialize_reply, lock_host,
    lock_permitted, lock_reply, repayment_host, repayment_permitted, repayment_reply, LockRequest,
};
use crate::error::PoolEscrowError;
use crate::host::{Field, Host, KeyParts};
use crate::keys::{lemma_parts_determine, DataKey};
use crate::record::{EscrowRecord, EscrowStatus};
use crate::stored::{is_record, lemma_fields, lemma_stored_record};
use soroban_sdk::Address;
use vstd::prelude::*;

verus! {

broadcast use {lemma_stored_record, lemma_parts_determine};

/// Where the instance storage has the admin.
pub open spec fn admin_entry() -> KeyParts {
    seq![Field::Symbol("Admin"@)]
}

/// Where the persistent storage has the escrow of an invoice.
pub open spec fn invoice_entry(id: soroban_sdk::String) -> KeyParts {
    seq![Field::Symbol("Invoice"@), Field::Text(id)]
}

/// Whether the host has `record` as the escrow of an invoice.
pub open spec fn has_escrow(host: Host, id: soroban_sdk::String, record: EscrowRecord) -> bool {
    host.persistent.contains_key(invoice_entry(id)) && host.persistent[invoice_entry(id)]
        == record.fields()
}

/// Whether `after` is what an entry that has `before` ledgers left is bumped to:
/// with more than seven days (120,960 ledgers) left nothing happens; otherwise it
/// gets thirty days (518,400 ledgers), or the network's limit if that is less, but
/// never less than it had.
pub open spec fn is_bumped(before: u32, after: u32, limit: u32) -> bool {
    &&& after >= before
    &&& before > 120_960 ==> after == before
    &&& before <= 120_960 ==> {
        ||| after == 518_400 && 518_400 <= limit
        ||| after == limit && before <= limit <= 518_400
        ||| after == before && limit <= before
    }
}

/// Whether the hosts differ in nothing but the authorizations that are left to ask
/// for, the entry of one invoice, its time to live and the events.
pub open spec fn differs_only_in(before: Host, after: Host, id: soroban_sdk::String) -> bool {
    &&& after.in_invocation == before.in_invocation
    &&& after.fresh_ttl == before.fresh_ttl
    &&& after.max_ttl == before.max_ttl
    &&& after.timestamp == before.timestamp
    &&& after.instance == before.instance
    &&& after.persistent.remove(invoice_entry(id)) == before.persistent.remove(invoice_entry(id))
    &&& after.ttl.remove(invoice_entry(id)) == before.ttl.remove(invoice_entry(id))
}

/// The admin is the address in the admin's entry of the instance storage, and an
/// invoice's escrow is the record in its entry of the persistent storage. Without
/// the entry there is none.
pub proof fn law_entries_hold_the_state(host: Host, id: soroban_sdk::String, record: EscrowRecord)
    ensures
        host.admin() is Some <==> host.instance.contains_key(admin_entry()),
        host.admin() is Some ==> host.admin()->0 == host.instance[admin_entry()],
        host.escrow(id) is Some <==> host.persistent.contains_key(invoice_entry(id)),
        has_escrow(host, id, record) ==> host.escrow(id) == Some(record) && host.is_readable(id),
        host.escrow(id) == Some(record) && host.is_readable(id) ==> has_escrow(host, id, record),
        !host.persistent.contains_key(invoice_entry(id)) ==> host.is_readable(id),
{
}

/// A key is stored as a list: the admin's of its name alone, an invoice's of its
/// name and the invoice.
pub proof fn law_keys_are_stored_as_lists(id: soroban_sdk::String)
    ensures
        DataKey::Admin.parts() == admin_entry(),
        DataKey::Invoice(id).parts() == invoice_entry(id),
        admin_entry() != invoice_entry(id),
{
    assert(admin_entry().len() != invoice_entry(id).len());
}

/// A record is stored as ten named fields, each with the record's own value, the
/// status by its name.
pub proof fn law_records_are_stored_by_field(record: EscrowRecord)
    ensures
        record.fields().dom() == set![
            "amount"@, "closed_at"@, "cooperative"@, "funder"@, "invoice_id"@,
            "locked_at"@, "repaid_amount"@, "status"@, "supplier"@, "warung"@,
        ],
        record.fields()["amount"@] == Field::Amount(record.amount),
        record.fields()["closed_at"@] == Field::Time(record.closed_at),
        record.fields()["cooperative"@] == Field::Party(record.cooperative),
        record.fields()["funder"@] == Field::Party(record.funder),
        record.fields()["invoice_id"@] == Field::Text(record.invoice_id),
        record.fields()["locked_at"@] == Field::Time(record.locked_at),
        record.fields()["repaid_amount"@] == Field::Amount(record.repaid_amount),
        record.fields()["status"@] == Field::Name(
            match record.status {
                EscrowStatus::Locked => "Locked"@,
                EscrowStatus::Released => "Released"@,
                EscrowStatus::Refunded => "Refunded"@,
            },
        ),
        record.fields()["supplier"@] == Field::Party(record.supplier),
        record.fields()["warung"@] == Field::Party(record.warung),
        is_record(record.fields()),
{
    lemma_fields(record);
    lemma_stored_record(record);
}

/// The errors are numbered from one in the order in which they are declared.
pub proof fn law_errors_are_numbered()
    ensures
        PoolEscrowError::AlreadyInitialized.spec_code() == 1,
        PoolEscrowError::NotInitialized.spec_code() == 2,
        PoolEscrowError::InvalidAmount.spec_code() == 3,
        PoolEscrowError::EscrowAlreadyExists.spec_code() == 4,
        PoolEscrowError::EscrowNotFound.spec_code() == 5,
        PoolEscrowError::InvalidStatus.spec_code() == 6,
        PoolEscrowError::Unauthorized.spec_code() == 7,
{
}

/// A call may run in every invocation in which the party it takes has given its
/// authorization and what it reads is a record. No party is asked where the call
/// is refused before: a setup of a contract that has an admin, a lock on one that
/// has none, a close of an invoice without an escrow.
pub proof fn law_calls_may_run(
    host: Host,
    party: Address,
    id: soroban_sdk::String,
    record: EscrowRecord,
    amount: i128,
)
    requires
        host.in_invocation,
    ensures
        initialize_permitted(host, party) <==> host.instance.contains_key(admin_entry())
            || host.grants.contains(party),
        lock_permitted(host, party) <==> !host.instance.contains_key(admin_entry())
            || host.grants.contains(party),
        !host.persistent.contains_key(invoice_entry(id)) ==> close_permitted(host, party, id)
            && escrow_permitted(host, id),
        has_escrow(host, id, record) ==> {
            &&& escrow_permitted(host, id)
            &&& close_permitted(host, party, id) <==> host.grants.contains(party)
            &&& repayment_permitted(host, party, id, amount) <==> host.grants.contains(party)
        },
        !host.persistent.contains_key(invoice_entry(id)) || amount <= 0 ==> (repayment_permitted(
            host,
            party,
            id,
            amount,
        ) <==> host.grants.contains(party)),
{
}

/// A locked record can be closed by its cooperative and by nobody else, once, at
/// any time, and nothing but the status and the closing time changes.
pub proof fn law_record_closes(
    record: EscrowRecord,
    caller: Address,
    status: EscrowStatus,
    now: u64,
)
    ensures
        ({
            let closed = record.closed(caller, status, now);
            &&& closed is Ok <==> caller == record.cooperative && record.status
                == EscrowStatus::Locked
            &&& closed is Ok ==> {
                &&& closed->Ok_0.status == status
                &&& closed->Ok_0.closed_at == now
                &&& (EscrowRecord {
                    status: record.status,
                    closed_at: record.closed_at,
                    ..closed->Ok_0
                }) == record
            }
            &&& caller != record.cooperative ==> closed->Err_0 == PoolEscrowError::Unauthorized
            &&& caller == record.cooperative && record.status != EscrowStatus::Locked
                ==> closed->Err_0 == PoolEscrowError::InvalidStatus
        }),
{
}

/// A released record, and no other, counts any amount with which the total still
/// fits, and nothing but the repaid amount changes.
pub proof fn law_record_counts_repayments(record: EscrowRecord, amount: i128)
    ensures
        ({
            let repaid = record.repaid(amount);
            let total = record.repaid_amount + amount;
            let fits = i128::MIN <= total <= i128::MAX;
            &&& repaid is Ok <==> record.status == EscrowStatus::Released && fits
            &&& repaid is Ok ==> {
                &&& repaid->Ok_0.repaid_amount == total
                &&& (EscrowRecord { repaid_amount: record.repaid_amount, ..repaid->Ok_0 }) == record
            }
            &&& record.status != EscrowStatus::Released ==> repaid->Err_0
                == PoolEscrowError::InvalidStatus
            &&& record.status == EscrowStatus::Released && !fits ==> repaid->Err_0
                == PoolEscrowError::InvalidAmount
        }),
{
}

/// On every contract without an admin a setup succeeds, at whatever time, and the
/// admin is then the one given. It asks for that address's authorization and
/// changes nothing else.
pub proof fn law_setup_succeeds(host: Host, admin: Address)
    requires
        !host.instance.contains_key(admin_entry()),
    ensures
        initialize_reply(host) == Ok::<(), PoolEscrowError>(()),
        initialize_host(host, admin) == (Host {
            instance: host.instance.insert(admin_entry(), admin),
            grants: host.grants.remove(admin),
            ..host
        }),
        initialize_host(host, admin).admin() == Some(admin),
        admin_reply(initialize_host(host, admin)) == Ok::<Address, PoolEscrowError>(admin),
{
}

/// A setup is refused exactly on a contract that has an admin, and then changes
/// nothing.
pub proof fn law_setup_is_refused_exactly_when(host: Host, admin: Address)
    ensures
        initialize_reply(host) is Err <==> host.instance.contains_key(admin_entry()),
        initialize_reply(host) is Err ==> {
            &&& initialize_reply(host)->Err_0 == PoolEscrowError::AlreadyInitialized
            &&& initialize_host(host, admin) == host
        },
{
}

/// The admin is replied with by every contract that has one, and only there.
pub proof fn law_admin_is_replied(host: Host)
    ensures
        host.instance.contains_key(admin_entry()) ==> admin_reply(host) == Ok::<
            Address,
            PoolEscrowError,
        >(host.instance[admin_entry()]),
        !host.instance.contains_key(admin_entry()) ==> admin_reply(host) == Err::<
            Address,
            PoolEscrowError,
        >(PoolEscrowError::NotInitialized),
{
}

/// A lock of an invoice without an escrow, on a contract that has an admin,
/// succeeds for every positive amount, at whatever time. The record has the
/// parties and the amount asked for, each in its place; it is locked at the
/// current time, not closed, and nothing of it is repaid.
pub proof fn law_lock_records_what_was_asked(host: Host, request: LockRequest)
    requires
        host.instance.contains_key(admin_entry()),
        !host.persistent.contains_key(invoice_entry(request.invoice_id)),
        request.amount > 0,
    ensures
        lock_reply(host, request) is Ok,
        ({
            let record = lock_reply(host, request)->Ok_0;
            &&& record.invoice_id == request.invoice_id
            &&& record.funder == request.funder
            &&& record.warung == request.warung
            &&& record.supplier == request.supplier
            &&& record.cooperative == request.cooperative
            &&& record.amount == request.amount
            &&& record.repaid_amount == 0
            &&& record.status == EscrowStatus::Locked
            &&& record.locked_at == host.timestamp
            &&& record.closed_at == 0
            &&& has_escrow(lock_host(host, request), request.invoice_id, record)
            &&& lock_host(host, request).escrow(request.invoice_id) == Some(record)
        }),
{
}

/// A lock that succeeds asks for the funder's authorization, publishes one event
/// with the amount locked, gives the new entry the network's initial time to live
/// and bumps it, and touches no other entry.
pub proof fn law_lock_leaves(host: Host, request: LockRequest)
    requires
        lock_reply(host, request) is Ok,
    ensures
        ({
            let after = lock_host(host, request);
            let entry = invoice_entry(request.invoice_id);
            &&& differs_only_in(host, after, request.invoice_id)
            &&& after.grants == host.grants.remove(request.funder)
            &&& after.published == host.published.push(
                ("FundLocked"@, request.invoice_id, request.amount),
            )
            &&& after.ttl.contains_key(entry)
            &&& is_bumped(host.fresh_ttl, after.ttl[entry], host.max_ttl)
        }),
{
    let after = lock_host(host, request);
    let entry = invoice_entry(request.invoice_id);
    assert(DataKey::Invoice(request.invoice_id).parts() == entry);
    assert(after.persistent.remove(entry) =~= host.persistent.remove(entry));
    assert(after.ttl.remove(entry) =~= host.ttl.remove(entry));
}

/// A lock is refused exactly without an admin, for an amount that is not positive,
/// or where the invoice has an escrow; the first of these that holds is the error.
/// It changes nothing but that, with an admin, the funder's authorization is asked
/// for.
pub proof fn law_lock_is_refused_exactly_when(host: Host, request: LockRequest)
    ensures
        ({
            let ready = host.instance.contains_key(admin_entry());
            let taken = host.persistent.contains_key(invoice_entry(request.invoice_id));
            let reply = lock_reply(host, request);
            &&& reply is Err <==> !ready || request.amount <= 0 || taken
            &&& !ready ==> {
                &&& reply->Err_0 == PoolEscrowError::NotInitialized
                &&& lock_host(host, request) == host
            }
            &&& ready && request.amount <= 0 ==> reply->Err_0 == PoolEscrowError::InvalidAmount
            &&& ready && request.amount > 0 && taken ==> reply->Err_0
                == PoolEscrowError::EscrowAlreadyExists
            &&& ready && reply is Err ==> lock_host(host, request) == (Host {
                grants: host.grants.remove(request.funder),
                ..host
            })
        }),
{
}

/// A release of a locked escrow by its cooperative succeeds, however long ago it
/// was locked. The record is as it was, but with the status `Released` and closed
/// at the current time.
pub proof fn law_release_of_a_locked_escrow(
    host: Host,
    invoice_id: soroban_sdk::String,
    record: EscrowRecord,
)
    requires
        has_escrow(host, invoice_id, record),
        record.status == EscrowStatus::Locked,
    ensures
        ({
            let reply = close_reply(host, record.cooperative, invoice_id, EscrowStatus::Released);
            let after = close_host(
                host,
                record.cooperative,
                invoice_id,
                EscrowStatus::Released,
                "InvoiceReleased"@,
            );
            &&& reply is Ok
            &&& reply->Ok_0.status == EscrowStatus::Released
            &&& reply->Ok_0.closed_at == host.timestamp
            &&& reply->Ok_0.invoice_id == record.invoice_id
            &&& reply->Ok_0.funder == record.funder
            &&& reply->Ok_0.warung == record.warung
            &&& reply->Ok_0.supplier == record.supplier
            &&& reply->Ok_0.cooperative == record.cooperative
            &&& reply->Ok_0.amount == record.amount
            &&& reply->Ok_0.repaid_amount == record.repaid_amount
            &&& reply->Ok_0.locked_at == record.locked_at
            &&& has_escrow(after, invoice_id, reply->Ok_0)
            &&& after.published == host.published.push(
                ("InvoiceReleased"@, invoice_id, record.amount),
            )
        }),
{
}

/// A refund of a locked escrow by its cooperative succeeds, however long ago it
/// was locked. The record is as it was, but with the status `Refunded` and closed
/// at the current time.
pub proof fn law_refund_of_a_locked_escrow(
    host: Host,
    invoice_id: soroban_sdk::String,
    record: EscrowRecord,
)
    requires
        has_escrow(host, invoice_id, record),
        record.status == EscrowStatus::Locked,
    ensures
        ({
            let reply = close_reply(host, record.cooperative, invoice_id, EscrowStatus::Refunded);
            let after = close_host(
                host,
                record.cooperative,
                invoice_id,
                EscrowStatus::Refunded,
                "EscrowRefunded"@,
            );
            &&& reply is Ok
            &&& reply->Ok_0.status == EscrowStatus::Refunded
            &&& reply->Ok_0.closed_at == host.timestamp
            &&& reply->Ok_0.invoice_id == record.invoice_id
            &&& reply->Ok_0.funder == record.funder
            &&& reply->Ok_0.warung == record.warung
            &&& reply->Ok_0.supplier == record.supplier
            &&& reply->Ok_0.cooperative == record.cooperative
            &&& reply->Ok_0.amount == record.amount
            &&& reply->Ok_0.repaid_amount == record.repaid_amount
            &&& reply->Ok_0.locked_at == record.locked_at
            &&& has_escrow(after, invoice_id, reply->Ok_0)
            &&& after.published == host.published.push(
                ("EscrowRefunded"@, invoice_id, record.amount),
            )
        }),
{
}

/// A release or refund is refused exactly where the invoice has no escrow, the
/// caller is not the escrow's cooperative or the escrow is not locked; the first of
/// these that holds is the error. Neither the time nor the amount plays a part.
pub proof fn law_close_is_refused_exactly_when(
    host: Host,
    caller: Address,
    invoice_id: soroban_sdk::String,
    record: EscrowRecord,
    status: EscrowStatus,
)
    ensures
        !host.persistent.contains_key(invoice_entry(invoice_id)) ==> close_reply(
            host,
            caller,
            invoice_id,
            status,
        ) == Err::<EscrowRecord, PoolEscrowError>(PoolEscrowError::EscrowNotFound),
        has_escrow(host, invoice_id, record) ==> {
            let reply = close_reply(host, caller, invoice_id, status);
            &&& reply is Err <==> caller != record.cooperative || record.status
                != EscrowStatus::Locked
            &&& caller != record.cooperative ==> reply->Err_0 == PoolEscrowError::Unauthorized
            &&& caller == record.cooperative && record.status != EscrowStatus::Locked
                ==> reply->Err_0 == PoolEscrowError::InvalidStatus
        },
{
}

/// A release or refund of an escrow asks for the caller's authorization, bumps the
/// entry's time to live and touches no other entry; if it is refused it leaves the
/// record and the events alone too. Where there is no escrow it changes nothing.
pub proof fn law_close_leaves(
    host: Host,
    caller: Address,
    invoice_id: soroban_sdk::String,
    status: EscrowStatus,
    topic: Seq<char>,
)
    ensures
        ({
            let after = close_host(host, caller, invoice_id, status, topic);
            let entry = invoice_entry(invoice_id);
            &&& !host.persistent.contains_key(entry) ==> after == host
            &&& host.persistent.contains_key(entry) ==> {
                &&& differs_only_in(host, after, invoice_id)
                    &&& after.grants == host.grants.remove(caller)
                &&& after.ttl.contains_key(entry)
                &&& is_bumped(host.ttl[entry], after.ttl[entry], host.max_ttl)
                &&& close_reply(host, caller, invoice_id, status) is Err ==> after.persistent
                    == host.persistent && after.published == host.published
            }
        }),
{
    let after = close_host(host, caller, invoice_id, status, topic);
    let entry = invoice_entry(invoice_id);
    assert(DataKey::Invoice(invoice_id).parts() == entry);
    assert(after.persistent.remove(entry) =~= host.persistent.remove(entry));
    assert(after.ttl.remove(entry) =~= host.ttl.remove(entry));
}

/// A repayment of a released escrow succeeds, by whoever and whenever, for every
/// positive amount that the total can still count, even beyond the amount locked.
/// The repaid amount grows by it, and the record is otherwise as it was.
pub proof fn law_repayment_is_counted(
    host: Host,
    payer: Address,
    invoice_id: soroban_sdk::String,
    record: EscrowRecord,
    amount: i128,
)
    requires
        has_escrow(host, invoice_id, record),
        record.status == EscrowStatus::Released,
        amount > 0,
        record.repaid_amount + amount <= i128::MAX,
    ensures
        ({
            let reply = repayment_reply(host, invoice_id, amount);
            let after = repayment_host(host, payer, invoice_id, amount);
            &&& reply is Ok
            &&& reply->Ok_0.repaid_amount == record.repaid_amount + amount
            &&& reply->Ok_0.status == EscrowStatus::Released
            &&& reply->Ok_0.invoice_id == record.invoice_id
            &&& reply->Ok_0.funder == record.funder
            &&& reply->Ok_0.warung == record.warung
            &&& reply->Ok_0.supplier == record.supplier
            &&& reply->Ok_0.cooperative == record.cooperative
            &&& reply->Ok_0.amount == record.amount
            &&& reply->Ok_0.locked_at == record.locked_at
            &&& reply->Ok_0.closed_at == record.closed_at
            &&& has_escrow(after, invoice_id, reply->Ok_0)
            &&& after.published == host.published.push(("RepaymentPosted"@, invoice_id, amount))
        }),
{
}

/// A repayment is refused exactly where the amount is not positive, the invoice
/// has no escrow, the escrow is not released or the total would not fit. The first
/// of these that holds is the error; a total that does not fit is an invalid
/// amount.
pub proof fn law_repayment_is_refused_exactly_when(
    host: Host,
    invoice_id: soroban_sdk::String,
    record: EscrowRecord,
    amount: i128,
)
    ensures
        ({
            let reply = repayment_reply(host, invoice_id, amount);
            &&& amount <= 0 ==> reply == Err::<EscrowRecord, PoolEscrowError>(
                PoolEscrowError::InvalidAmount,
            )
            &&& amount > 0 && !host.persistent.contains_key(invoice_entry(invoice_id)) ==> reply
                == Err::<EscrowRecord, PoolEscrowError>(PoolEscrowError::EscrowNotFound)
            &&& amount > 0 && has_escrow(host, invoice_id, record) ==> {
                let fits = record.repaid_amount + amount <= i128::MAX;
                &&& reply is Err <==> record.status != EscrowStatus::Released || !fits
                &&& record.status != EscrowStatus::Released ==> reply->Err_0
                    == PoolEscrowError::InvalidStatus
                &&& record.status == EscrowStatus::Released && !fits ==> reply->Err_0
                    == PoolEscrowError::InvalidAmount
            }
        }),
{
}

/// A repayment asks for the payer's authorization in every case. It bumps the time
/// to live of the entry it reads and touches no other entry; if it is refused it
/// leaves the record and the events alone too.
pub proof fn law_repayment_leaves(
    host: Host,
    payer: Address,
    invoice_id: soroban_sdk::String,
    amount: i128,
)
    ensures
        ({
            let after = repayment_host(host, payer, invoice_id, amount);
            let entry = invoice_entry(invoice_id);
            let reads = amount > 0 && host.persistent.contains_key(entry);
            &&& differs_only_in(host, after, invoice_id)
            &&& after.grants == host.grants.remove(payer)
            &&& !reads ==> after.ttl == host.ttl
            &&& reads ==> after.ttl.contains_key(entry) && is_bumped(
                host.ttl[entry],
                after.ttl[entry],
                host.max_ttl,
            )
            &&& repayment_reply(host, invoice_id, amount) is Err ==> after.persistent
                == host.persistent && after.published == host.published
        }),
{
    let after = repayment_host(host, payer, invoice_id, amount);
    let entry = invoice_entry(invoice_id);
    assert(DataKey::Invoice(invoice_id).parts() == entry);
    assert(after.persistent.remove(entry) =~= host.persistent.remove(entry));
    assert(after.ttl.remove(entry) =~= host.ttl.remove(entry));
}

/// A query replies with the record that the invoice's entry holds, whatever it
/// says, and is refused only where there is no entry. It bumps the entry's time to
/// live and changes nothing else.
pub proof fn law_query_replies_what_is_stored(
    host: Host,
    invoice_id: soroban_sdk::String,
    record: EscrowRecord,
)
    ensures
        has_escrow(host, invoice_id, record) ==> escrow_reply(host, invoice_id) == Ok::<
            EscrowRecord,
            PoolEscrowError,
        >(record),
        !host.persistent.contains_key(invoice_entry(invoice_id)) ==> {
            &&& escrow_reply(host, invoice_id) == Err::<EscrowRecord, PoolEscrowError>(
                PoolEscrowError::EscrowNotFound,
            )
            &&& escrow_host(host, invoice_id) == host
        },
        host.persistent.contains_key(invoice_entry(invoice_id)) ==> {
            let after = escrow_host(host, invoice_id);
            let entry = invoice_entry(invoice_id);
            &&& after == (Host { ttl: after.ttl, ..host })
            &&& after.ttl.remove(entry) == host.ttl.remove(entry)
            &&& after.ttl.contains_key(entry)
            &&& is_bumped(host.ttl[entry], after.ttl[entry], host.max_ttl)
        },
{
    let after = escrow_host(host, invoice_id);
    let entry = invoice_entry(invoice_id);
    assert(DataKey::Invoice(invoice_id).parts() == entry);
    assert(after.ttl.remove(entry) =~= host.ttl.remove(entry));
}

} // verus!
