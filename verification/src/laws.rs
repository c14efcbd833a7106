//! What holds of the contract over any run of calls.
//!
//! A run is a sequence of calls, over any number of invocations. The laws are
//! stated over the replies and hosts that the entry points' contracts are
//! stated over.

use crate::contract::{
    admin_reply, close_host, close_permitted, close_reply, escrow_host, escrow_permitted,
    escrow_reply, initialize_host, initialize_permitted, initialize_reply, lock_host,
    lock_permitted, lock_reply, read_reply, repayment_host, repayment_permitted, repayment_reply,
    LockRequest, ESCROW_TTL_THRESHOLD,
};
use crate::error::PoolEscrowError;
use crate::host::Host;
use crate::keys::{lemma_parts_determine, DataKey};
use crate::record::{EscrowRecord, EscrowStatus};
use crate::stored::{is_record, lemma_stored_record};
use soroban_sdk::Address;
use vstd::prelude::*;

verus! {

broadcast use {lemma_stored_record, lemma_parts_determine};

/// A call of an entry point.
pub enum Call {
    Initialize { admin: Address },
    Lock { request: LockRequest },
    Release { cooperative: Address, invoice_id: soroban_sdk::String },
    Refund { cooperative: Address, invoice_id: soroban_sdk::String },
    Repay { payer: Address, invoice_id: soroban_sdk::String, amount: i128 },
    GetEscrow { invoice_id: soroban_sdk::String },
    GetAdmin,
}

impl Call {
    /// Whether the call may run.
    pub open spec fn permitted(self, host: Host) -> bool {
        match self {
            Call::Initialize { admin } => initialize_permitted(host, admin),
            Call::Lock { request } => lock_permitted(host, request.funder),
            Call::Release { cooperative, invoice_id } => close_permitted(
                host,
                cooperative,
                invoice_id,
            ),
            Call::Refund { cooperative, invoice_id } => close_permitted(
                host,
                cooperative,
                invoice_id,
            ),
            Call::Repay { payer, invoice_id, amount } => repayment_permitted(
                host,
                payer,
                invoice_id,
                amount,
            ),
            Call::GetEscrow { invoice_id } => escrow_permitted(host, invoice_id),
            Call::GetAdmin => host.in_invocation,
        }
    }

    /// The host that the call leaves.
    pub open spec fn host_after(self, host: Host) -> Host {
        match self {
            Call::Initialize { admin } => initialize_host(host, admin),
            Call::Lock { request } => lock_host(host, request),
            Call::Release { cooperative, invoice_id } => close_host(
                host,
                cooperative,
                invoice_id,
                EscrowStatus::Released,
                "InvoiceReleased"@,
            ),
            Call::Refund { cooperative, invoice_id } => close_host(
                host,
                cooperative,
                invoice_id,
                EscrowStatus::Refunded,
                "EscrowRefunded"@,
            ),
            Call::Repay { payer, invoice_id, amount } => repayment_host(
                host,
                payer,
                invoice_id,
                amount,
            ),
            Call::GetEscrow { invoice_id } => escrow_host(host, invoice_id),
            Call::GetAdmin => host,
        }
    }

    /// The error that the call is refused with, if it is refused.
    pub open spec fn refusal(self, host: Host) -> Option<PoolEscrowError> {
        match self {
            Call::Initialize { .. } => match initialize_reply(host) {
                Ok(_) => None,
                Err(e) => Some(e),
            },
            Call::GetAdmin => match admin_reply(host) {
                Ok(_) => None,
                Err(e) => Some(e),
            },
            _ => match self.record_reply(host) {
                Ok(_) => None,
                Err(e) => Some(e),
            },
        }
    }

    /// The reply of the calls that reply with a record.
    pub open spec fn record_reply(self, host: Host) -> Result<EscrowRecord, PoolEscrowError>
        recommends
            self.invoice() is Some,
    {
        match self {
            Call::Lock { request } => lock_reply(host, request),
            Call::Release { cooperative, invoice_id } => close_reply(
                host,
                cooperative,
                invoice_id,
                EscrowStatus::Released,
            ),
            Call::Refund { cooperative, invoice_id } => close_reply(
                host,
                cooperative,
                invoice_id,
                EscrowStatus::Refunded,
            ),
            Call::Repay { invoice_id, amount, .. } => repayment_reply(host, invoice_id, amount),
            Call::GetEscrow { invoice_id } => escrow_reply(host, invoice_id),
            _ => arbitrary(),
        }
    }

    /// The invoice that the call is about, if it is about one.
    pub open spec fn invoice(self) -> Option<soroban_sdk::String> {
        match self {
            Call::Lock { request } => Some(request.invoice_id),
            Call::Release { invoice_id, .. } => Some(invoice_id),
            Call::Refund { invoice_id, .. } => Some(invoice_id),
            Call::Repay { invoice_id, .. } => Some(invoice_id),
            Call::GetEscrow { invoice_id } => Some(invoice_id),
            _ => None,
        }
    }

    /// Whether the call reads or writes the record of its invoice.
    pub open spec fn uses_record(self, host: Host) -> bool {
        match self {
            Call::Lock { .. } => self.refusal(host) is None,
            Call::Repay { invoice_id, amount, .. } => amount > 0 && host.escrow(invoice_id) is Some,
            _ => self.invoice() is Some && host.escrow(self.invoice()->0) is Some,
        }
    }

    /// The event that the call publishes when it is not refused.
    pub open spec fn event(self, host: Host) -> Option<(Seq<char>, soroban_sdk::String, i128)> {
        match self {
            Call::Lock { request } => Some(("FundLocked"@, request.invoice_id, request.amount)),
            Call::Release { invoice_id, .. } => Some(
                ("InvoiceReleased"@, invoice_id, host.escrow(invoice_id)->0.amount),
            ),
            Call::Refund { invoice_id, .. } => Some(
                ("EscrowRefunded"@, invoice_id, host.escrow(invoice_id)->0.amount),
            ),
            Call::Repay { invoice_id, amount, .. } => Some(
                ("RepaymentPosted"@, invoice_id, amount),
            ),
            _ => None,
        }
    }
}

/// A step of a run: a call, or the start of a new invocation. The contract's
/// entries carry over to the next invocation; all else is the host's to choose.
pub enum Step {
    Call { call: Call },
    NewInvocation { host: Host },
}

impl Step {
    /// The host after the step.
    pub open spec fn host_after(self, host: Host) -> Host {
        match self {
            Step::Call { call } => call.host_after(host),
            Step::NewInvocation { host: next } => Host {
                instance: host.instance,
                persistent: host.persistent,
                ..next
            },
        }
    }
}

/// The host after a run.
pub open spec fn run(host: Host, steps: Seq<Step>) -> Host
    decreases steps.len(),
{
    if steps.len() == 0 {
        host
    } else {
        steps.last().host_after(run(host, steps.drop_last()))
    }
}

/// Whether what is stored for an invoice, if anything, is a valid record of it.
pub open spec fn record_valid(host: Host, id: soroban_sdk::String) -> bool {
    host.escrow(id) is Some ==> {
        &&& host.is_readable(id)
        &&& host.escrow(id)->0.is_valid()
        &&& host.escrow(id)->0.invoice_id == id
    }
}

/// Whether all that is stored for invoices is a valid record of its own invoice.
pub open spec fn records_valid(host: Host) -> bool {
    forall|id: soroban_sdk::String| #[trigger] record_valid(host, id)
}

/// Whether a record can have become another: what was agreed at the lock stays,
/// repayments only grow, and a closed escrow stays closed as it was.
pub open spec fn follows(before: EscrowRecord, after: EscrowRecord) -> bool {
    &&& after.invoice_id == before.invoice_id
    &&& after.funder == before.funder
    &&& after.warung == before.warung
    &&& after.supplier == before.supplier
    &&& after.cooperative == before.cooperative
    &&& after.amount == before.amount
    &&& after.locked_at == before.locked_at
    &&& after.repaid_amount >= before.repaid_amount
    &&& before.status != EscrowStatus::Locked ==> {
        &&& after.status == before.status
        &&& after.closed_at == before.closed_at
    }
    &&& after.status != EscrowStatus::Released ==> after.repaid_amount == before.repaid_amount
    &&& after.status == EscrowStatus::Locked ==> after == before
}

/// Whether a host can have become another: the admin stays, and every escrow
/// stays and follows its rules.
pub open spec fn evolves(before: Host, after: Host) -> bool {
    &&& before.admin() is Some ==> after.admin() == before.admin()
    &&& forall|id: soroban_sdk::String| #[trigger]
        before.escrow(id) is Some ==> after.escrow(id) is Some && follows(
            before.escrow(id)->0,
            after.escrow(id)->0,
        )
}

/// Distinct keys have distinct stored forms.
pub proof fn law_keys_are_distinct(a: DataKey, b: DataKey)
    ensures
        a.parts() == b.parts() <==> a == b,
{
}

/// Distinct errors have distinct numbers.
pub proof fn law_codes_are_distinct(a: PoolEscrowError, b: PoolEscrowError)
    ensures
        a.spec_code() == b.spec_code() <==> a == b,
{
}

/// A refused call leaves the contract's entries as they were and publishes
/// nothing. It may ask for an authorization and extend a time to live.
///
/// This is the state when the entry point returns. The host takes an error for a
/// failed invocation and undoes it, so not even the extension outlasts it.
pub proof fn law_refused_call_changes_nothing(host: Host, call: Call)
    requires
        call.refusal(host) is Some,
    ensures
        call.host_after(host) == (Host {
            ttl: call.host_after(host).ttl,
            grants: call.host_after(host).grants,
            ..host
        }),
{
}

/// A call that locks, releases, refunds or posts a repayment publishes exactly
/// its own event; every other call, and every refused one, publishes none.
pub proof fn law_one_event_per_change(host: Host, call: Call)
    ensures
        call.host_after(host).published == (if call.refusal(host) is None && call.event(
            host,
        ) is Some {
            host.published.push(call.event(host)->0)
        } else {
            host.published
        }),
{
}

/// A call touches no entry but those of its own invoice: the escrow of any
/// other invoice and its time to live stay as they were. A call that is about
/// no invoice touches no escrow.
pub proof fn law_other_escrows_are_untouched(host: Host, call: Call, other: soroban_sdk::String)
    requires
        call.invoice() != Some(other),
    ensures
        call.host_after(host).escrow(other) == host.escrow(other),
        call.host_after(host).ttl[DataKey::Invoice(other).parts()]
            == host.ttl[DataKey::Invoice(other).parts()],
{
}

/// What a call replied with can be read back: [`get_escrow`] replies with the
/// same record right after, and in the next invocation.
///
/// [`get_escrow`]: crate::contract::PoolEscrowContract::get_escrow
pub proof fn law_reply_is_read_back(host: Host, call: Call, next: Host)
    requires
        call.invoice() is Some,
        call.refusal(host) is None,
    ensures
        escrow_reply(call.host_after(host), call.invoice()->0) == call.record_reply(host),
        escrow_reply(
            (Step::NewInvocation { host: next }).host_after(call.host_after(host)),
            call.invoice()->0,
        ) == call.record_reply(host),
{
}

/// What is written can be read back: a read of the key that a record was stored
/// under replies with that record, and a read of any other key with what it
/// replied before. Stored for an invoice, the record becomes the invoice's
/// escrow. The admin and the events stay as they were.
pub proof fn law_written_record_is_read_back(
    host: Host,
    key: DataKey,
    record: EscrowRecord,
    other: DataKey,
)
    ensures
        is_record(host.stored(key, record).persistent[key.parts()]),
        read_reply(host.stored(key, record), key) == Ok::<EscrowRecord, PoolEscrowError>(record),
        other != key ==> read_reply(host.stored(key, record), other) == read_reply(host, other),
        key matches DataKey::Invoice(id) ==> host.stored(key, record).records()
            == host.records().insert(id, record),
        host.stored(key, record).admin() == host.admin(),
        host.stored(key, record).published == host.published,
        host.stored(key, record).grants == host.grants,
        host.stored(key, record).timestamp == host.timestamp,
{
    if let DataKey::Invoice(id) = key {
        let after = host.stored(key, record);
        assert forall|i: soroban_sdk::String| i != id implies #[trigger] after.escrow(i)
            == host.escrow(i) by {
            assert(DataKey::Invoice(i) != key);
        }
        assert(after.escrow(id) == Some(record));
        assert(after.records() =~= host.records().insert(id, record));
    }
}

/// The admin that the contract was initialized with can be read back.
pub proof fn law_admin_is_read_back(host: Host, admin: Address)
    requires
        initialize_reply(host) is Ok,
    ensures
        admin_reply(initialize_host(host, admin)) == Ok::<Address, PoolEscrowError>(admin),
{
}

/// Every call keeps every record valid, and so readable to the next.
pub proof fn law_calls_keep_records_valid(host: Host, call: Call)
    requires
        records_valid(host),
    ensures
        records_valid(call.host_after(host)),
{
    assert forall|id: soroban_sdk::String| #[trigger]
        record_valid(call.host_after(host), id) by {
        assert(record_valid(host, id));
    }
}

/// Whatever is called, the records of a contract that starts without escrows
/// are valid.
pub proof fn law_records_are_valid(host: Host, steps: Seq<Step>)
    requires
        forall|id: soroban_sdk::String| #[trigger] host.escrow(id) is None,
    ensures
        records_valid(run(host, steps)),
    decreases steps.len(),
{
    if steps.len() > 0 {
        let before = run(host, steps.drop_last());
        law_records_are_valid(host, steps.drop_last());
        match steps.last() {
            Step::Call { call } => law_calls_keep_records_valid(before, call),
            Step::NewInvocation { .. } => {
                assert forall|id: soroban_sdk::String| #[trigger]
                    record_valid(run(host, steps), id) by {
                    assert(record_valid(before, id));
                }
            },
        }
    }
}

/// An escrow comes into being only on an initialized contract: whatever is
/// called, an invoice that started without an escrow and has one now shows that
/// the contract has an admin.
pub proof fn law_escrow_needs_admin(host: Host, steps: Seq<Step>, invoice_id: soroban_sdk::String)
    requires
        host.escrow(invoice_id) is None,
    ensures
        run(host, steps).escrow(invoice_id) is Some ==> run(host, steps).admin() is Some,
    decreases steps.len(),
{
    if steps.len() > 0 {
        let before = run(host, steps.drop_last());
        law_escrow_needs_admin(host, steps.drop_last(), invoice_id);
        match steps.last() {
            Step::Call { call } => {
                law_calls_evolve(before, call);
                if call.invoice() != Some(invoice_id) {
                    law_other_escrows_are_untouched(before, call, invoice_id);
                }
            },
            Step::NewInvocation { .. } => {},
        }
    }
}

/// Whether the times of an invoice's escrow, if it has one, are in order: it was
/// locked no later than now and, if it is closed, closed between the two.
pub open spec fn times_in_order(host: Host, id: soroban_sdk::String) -> bool {
    host.escrow(id) is Some ==> {
        let record = host.escrow(id)->0;
        &&& record.locked_at <= host.timestamp
        &&& record.status != EscrowStatus::Locked ==> record.locked_at <= record.closed_at
            <= host.timestamp
    }
}

/// Whether no invocation of a run starts before the one it follows.
pub open spec fn time_moves_on(host: Host, steps: Seq<Step>) -> bool {
    forall|i: int|
        0 <= i < steps.len() ==> ((#[trigger] steps[i]) matches Step::NewInvocation { host: next }
            ==> run(host, steps.take(i)).timestamp <= next.timestamp)
}

/// Every call keeps the times of every escrow in order.
pub proof fn law_calls_keep_times_in_order(host: Host, call: Call, invoice_id: soroban_sdk::String)
    requires
        times_in_order(host, invoice_id),
    ensures
        times_in_order(call.host_after(host), invoice_id),
{
    if call.invoice() != Some(invoice_id) {
        law_other_escrows_are_untouched(host, call, invoice_id);
    }
}

/// As long as time does not go back from one invocation to the next, the times
/// of every escrow are in order, whatever is called. They are to begin with where
/// the invoice has no escrow.
pub proof fn law_times_are_in_order(host: Host, steps: Seq<Step>, invoice_id: soroban_sdk::String)
    requires
        times_in_order(host, invoice_id),
        time_moves_on(host, steps),
    ensures
        times_in_order(run(host, steps), invoice_id),
    decreases steps.len(),
{
    if steps.len() > 0 {
        let rest = steps.drop_last();
        assert forall|i: int| 0 <= i < rest.len() implies ((#[trigger] rest[i]) matches
            Step::NewInvocation { host: next } ==> run(host, rest.take(i)).timestamp
            <= next.timestamp) by {
            assert(rest[i] == steps[i]);
            assert(rest.take(i) =~= steps.take(i));
        }
        law_times_are_in_order(host, rest, invoice_id);
        assert(steps.take(steps.len() - 1) =~= rest);
        assert(steps.last() == steps[steps.len() - 1]);
        match steps.last() {
            Step::Call { call } => law_calls_keep_times_in_order(
                run(host, rest),
                call,
                invoice_id,
            ),
            Step::NewInvocation { .. } => {},
        }
    }
}

/// A call keeps the admin and every escrow, and an escrow only moves on as its
/// rules allow.
pub proof fn law_calls_evolve(host: Host, call: Call)
    ensures
        evolves(host, call.host_after(host)),
{
    assert forall|id: soroban_sdk::String| #[trigger] host.escrow(id) is Some implies {
        &&& call.host_after(host).escrow(id) is Some
        &&& follows(host.escrow(id)->0, call.host_after(host).escrow(id)->0)
    } by {
        if call.invoice() != Some(id) {
            law_other_escrows_are_untouched(host, call, id);
        }
    }
}

/// Whatever is called, in whatever order and over however many invocations, the
/// admin and every escrow stay, and an escrow only moves on as its rules allow.
pub proof fn law_runs_evolve(host: Host, steps: Seq<Step>)
    ensures
        evolves(host, run(host, steps)),
    decreases steps.len(),
{
    if steps.len() > 0 {
        let before = run(host, steps.drop_last());
        let after = run(host, steps);
        law_runs_evolve(host, steps.drop_last());
        match steps.last() {
            Step::Call { call } => law_calls_evolve(before, call),
            Step::NewInvocation { .. } => {
                assert forall|id: soroban_sdk::String| #[trigger]
                    before.escrow(id) is Some implies after.escrow(id) == before.escrow(id) by {}
            },
        }
        assert(evolves(before, after));
        assert forall|id: soroban_sdk::String| #[trigger] host.escrow(id) is Some implies {
            &&& after.escrow(id) is Some
            &&& follows(host.escrow(id)->0, after.escrow(id)->0)
        } by {
            assert(before.escrow(id) is Some);
        }
    }
}

/// The contract is initialized once: after that, whatever is called, a second
/// setup is refused and the admin is the first one.
pub proof fn law_initialized_once(host: Host, admin: Address, steps: Seq<Step>)
    requires
        initialize_reply(host) is Ok,
    ensures
        initialize_reply(run(initialize_host(host, admin), steps)) == Err::<(), PoolEscrowError>(
            PoolEscrowError::AlreadyInitialized,
        ),
        admin_reply(run(initialize_host(host, admin), steps)) == Ok::<Address, PoolEscrowError>(
            admin,
        ),
{
    law_runs_evolve(initialize_host(host, admin), steps);
}

/// Whether a step of a run is a setup that was accepted.
pub open spec fn is_setup(host: Host, steps: Seq<Step>, i: int) -> bool {
    &&& 0 <= i < steps.len()
    &&& steps[i] matches Step::Call { call } && call is Initialize
    &&& initialize_reply(run(host, steps.take(i))) is Ok
}

/// The admin comes from a setup and from nothing else: over any run of a contract
/// that starts without one, at most one setup is accepted, the contract has no
/// admin exactly when none was, and otherwise has the admin of that one.
pub proof fn law_admin_comes_from_setup(host: Host, steps: Seq<Step>)
    requires
        host.admin() is None,
    ensures
        run(host, steps).admin() is None <==> forall|i: int| !#[trigger] is_setup(host, steps, i),
        forall|i: int| #[trigger]
            is_setup(host, steps, i) ==> run(host, steps).admin() == Some(
                steps[i]->call->Initialize_admin,
            ),
        forall|i: int, j: int| #[trigger]
            is_setup(host, steps, i) && #[trigger] is_setup(host, steps, j) ==> i == j,
    decreases steps.len(),
{
    if steps.len() > 0 {
        let rest = steps.drop_last();
        let last = steps.len() - 1;
        let before = run(host, rest);
        let after = run(host, steps);
        law_admin_comes_from_setup(host, rest);
        assert forall|i: int| i != last implies #[trigger] is_setup(host, steps, i) == is_setup(
            host,
            rest,
            i,
        ) by {
            if 0 <= i < rest.len() {
                assert(rest.take(i) =~= steps.take(i));
            }
        }
        assert(steps.take(last) =~= rest);
        assert(!is_setup(host, rest, last));
        if is_setup(host, steps, last) {
            assert(before.admin() is None);
            assert(after.admin() is Some);
        } else {
            assert(after.admin() == before.admin());
            if after.admin() is Some {
                let i = choose|i: int| is_setup(host, rest, i);
                assert(is_setup(host, steps, i));
            }
        }
    }
}

/// An invoice is locked once: after that, whatever is called, a second lock of
/// it for a positive amount is refused as a duplicate.
pub proof fn law_locked_once(host: Host, request: LockRequest, steps: Seq<Step>, again: LockRequest)
    requires
        lock_reply(host, request) is Ok,
        again.invoice_id == request.invoice_id,
        again.amount > 0,
    ensures
        lock_reply(run(lock_host(host, request), steps), again) == Err::<
            EscrowRecord,
            PoolEscrowError,
        >(PoolEscrowError::EscrowAlreadyExists),
{
    law_runs_evolve(lock_host(host, request), steps);
    assert(lock_host(host, request).escrow(request.invoice_id) is Some);
}

/// An escrow is closed once: after a release or a refund, whatever is called, no
/// release or refund of it succeeds. Its cooperative is told that the status is
/// wrong, anyone else that they are not authorized.
pub proof fn law_closed_once(
    host: Host,
    close: Call,
    steps: Seq<Step>,
    caller: Address,
    status: EscrowStatus,
)
    requires
        close is Release || close is Refund,
        close.refusal(host) is None,
    ensures
        close_reply(run(close.host_after(host), steps), caller, close.invoice()->0, status) == Err::<
            EscrowRecord,
            PoolEscrowError,
        >(
            if caller == close.record_reply(host)->Ok_0.cooperative {
                PoolEscrowError::InvalidStatus
            } else {
                PoolEscrowError::Unauthorized
            },
        ),
{
    law_runs_evolve(close.host_after(host), steps);
    assert(close.host_after(host).escrow(close.invoice()->0) is Some);
}

/// A refunded escrow is never repaid: whatever is called after the refund, a
/// repayment of a positive amount is refused for the status.
pub proof fn law_refunded_is_never_repaid(
    host: Host,
    cooperative: Address,
    invoice_id: soroban_sdk::String,
    steps: Seq<Step>,
    amount: i128,
)
    requires
        (Call::Refund { cooperative, invoice_id }).refusal(host) is None,
        amount > 0,
    ensures
        repayment_reply(
            run((Call::Refund { cooperative, invoice_id }).host_after(host), steps),
            invoice_id,
            amount,
        ) == Err::<EscrowRecord, PoolEscrowError>(PoolEscrowError::InvalidStatus),
{
    let refunded = (Call::Refund { cooperative, invoice_id }).host_after(host);
    law_runs_evolve(refunded, steps);
    assert(refunded.escrow(invoice_id) is Some);
}

/// Only a release opens an escrow to repayments: while it is locked, a repayment
/// of a positive amount is refused for the status.
pub proof fn law_locked_is_not_repaid(host: Host, invoice_id: soroban_sdk::String, amount: i128)
    requires
        host.escrow(invoice_id) is Some,
        host.escrow(invoice_id)->0.status == EscrowStatus::Locked,
        amount > 0,
    ensures
        repayment_reply(host, invoice_id, amount) == Err::<EscrowRecord, PoolEscrowError>(
            PoolEscrowError::InvalidStatus,
        ),
{
}

/// The sum of some amounts.
pub open spec fn total(amounts: Seq<i128>) -> int
    decreases amounts.len(),
{
    if amounts.len() == 0 {
        0
    } else {
        total(amounts.drop_last()) + amounts.last()
    }
}

/// The host after a payer posts some repayments one after the other, each in an
/// invocation of its own.
pub open spec fn after_repayments(
    host: Host,
    invoice_id: soroban_sdk::String,
    payments: Seq<(Host, Address, i128)>,
) -> Host
    decreases payments.len(),
{
    if payments.len() == 0 {
        host
    } else {
        let before = after_repayments(host, invoice_id, payments.drop_last());
        let (next, payer, amount) = payments.last();
        repayment_host(
            (Step::NewInvocation { host: next }).host_after(before),
            payer,
            invoice_id,
            amount,
        )
    }
}

/// Repayments add up: as long as none is refused, an escrow's repaid amount
/// grows by the sum of the amounts posted, and nothing else of it changes.
pub proof fn law_repayments_add_up(
    host: Host,
    invoice_id: soroban_sdk::String,
    payments: Seq<(Host, Address, i128)>,
)
    requires
        host.escrow(invoice_id) is Some,
        host.escrow(invoice_id)->0.status == EscrowStatus::Released,
        host.escrow(invoice_id)->0.repaid_amount >= 0,
        forall|i: int| 0 <= i < payments.len() ==> (#[trigger] payments[i]).2 > 0,
        host.escrow(invoice_id)->0.repaid_amount + total(payments.map_values(
            |p: (Host, Address, i128)| p.2,
        )) <= i128::MAX,
    ensures
        ({
            let before = host.escrow(invoice_id)->0;
            let sum = total(payments.map_values(|p: (Host, Address, i128)| p.2));
            &&& sum >= 0
            &&& after_repayments(host, invoice_id, payments).escrow(invoice_id) == Some(
                EscrowRecord { repaid_amount: (before.repaid_amount + sum) as i128, ..before },
            )
        }),
    decreases payments.len(),
{
    let amounts = payments.map_values(|p: (Host, Address, i128)| p.2);
    if payments.len() > 0 {
        let rest = payments.drop_last();
        assert(amounts.drop_last() =~= rest.map_values(|p: (Host, Address, i128)| p.2));
        assert(amounts.last() == payments.last().2);
        assert(payments[payments.len() - 1].2 > 0);
        assert forall|i: int| 0 <= i < rest.len() implies (#[trigger] rest[i]).2 > 0 by {
            assert(rest[i] == payments[i]);
        }
        law_repayments_add_up(host, invoice_id, rest);
    }
}

/// The sum of the repayments of an invoice that were accepted in a run.
pub open spec fn accepted_repayments(
    host: Host,
    steps: Seq<Step>,
    invoice_id: soroban_sdk::String,
) -> int
    decreases steps.len(),
{
    if steps.len() == 0 {
        0
    } else {
        let earlier = accepted_repayments(host, steps.drop_last(), invoice_id);
        match steps.last() {
            Step::Call { call: Call::Repay { invoice_id: id, amount, .. } } => if id == invoice_id
                && repayment_reply(run(host, steps.drop_last()), id, amount) is Ok {
                earlier + amount
            } else {
                earlier
            },
            _ => earlier,
        }
    }
}

/// A released escrow counts its accepted repayments and nothing else: whatever is
/// called after the release, the repaid amount has grown by the sum of those, and
/// nothing else of the record has changed. Refused repayments, repayments of other
/// invoices and all other calls add nothing.
pub proof fn law_repaid_amount_is_what_was_accepted(
    host: Host,
    steps: Seq<Step>,
    invoice_id: soroban_sdk::String,
)
    requires
        host.escrow(invoice_id) is Some,
        host.escrow(invoice_id)->0.status == EscrowStatus::Released,
    ensures
        run(host, steps).escrow(invoice_id) is Some,
        run(host, steps).escrow(invoice_id)->0.repaid_amount == host.escrow(
            invoice_id,
        )->0.repaid_amount + accepted_repayments(host, steps, invoice_id),
        run(host, steps).escrow(invoice_id)->0 == (EscrowRecord {
            repaid_amount: run(host, steps).escrow(invoice_id)->0.repaid_amount,
            ..host.escrow(invoice_id)->0
        }),
    decreases steps.len(),
{
    if steps.len() > 0 {
        let before = run(host, steps.drop_last());
        law_repaid_amount_is_what_was_accepted(host, steps.drop_last(), invoice_id);
        match steps.last() {
            Step::Call { call } => {
                if call.invoice() != Some(invoice_id) {
                    law_other_escrows_are_untouched(before, call, invoice_id);
                }
            },
            Step::NewInvocation { .. } => {},
        }
    }
}

/// An admin is set, an escrow opened, closed or repaid only with the
/// authorization of the party it takes: the admin to be, the funder on the
/// record, the cooperative on the record, the payer. The authorization is at
/// hand before the call, and the call asks for it and for no other.
pub proof fn law_changes_are_authorized(host: Host, call: Call, invoice_id: soroban_sdk::String)
    requires
        call.permitted(host),
    ensures
        ({
            let after = call.host_after(host);
            &&& after.admin() != host.admin() ==> {
                &&& host.grants.contains(after.admin()->0)
                &&& after.grants == host.grants.remove(after.admin()->0)
            }
            &&& host.escrow(invoice_id) is None && after.escrow(invoice_id) is Some ==> {
                let funder = after.escrow(invoice_id)->0.funder;
                &&& host.grants.contains(funder)
                &&& after.grants == host.grants.remove(funder)
            }
            &&& host.escrow(invoice_id) is Some && after.escrow(invoice_id)->0.status
                != host.escrow(invoice_id)->0.status ==> {
                let cooperative = host.escrow(invoice_id)->0.cooperative;
                &&& host.grants.contains(cooperative)
                &&& after.grants == host.grants.remove(cooperative)
            }
            &&& host.escrow(invoice_id) is Some && after.escrow(invoice_id)->0.repaid_amount
                != host.escrow(invoice_id)->0.repaid_amount ==> {
                &&& call is Repay
                &&& host.grants.contains(call->Repay_payer)
                &&& after.grants == host.grants.remove(call->Repay_payer)
            }
        }),
{
    if call.invoice() != Some(invoice_id) {
        law_other_escrows_are_untouched(host, call, invoice_id);
    }
}

/// A record that has been read or written is kept alive: more than the
/// threshold is left of its time to live, or all that the network allows.
///
/// This is the state when the entry point returns. What a refused call has
/// extended is undone with its invocation.
pub proof fn law_active_escrows_stay_alive(host: Host, call: Call)
    requires
        call.uses_record(host),
    ensures
        ({
            let ttl = call.host_after(host).ttl[DataKey::Invoice(call.invoice()->0).parts()];
            ttl > ESCROW_TTL_THRESHOLD || ttl >= host.max_ttl
        }),
{
}

/// No call shortens the time to live of an escrow.
pub proof fn law_time_to_live_never_shrinks(host: Host, call: Call, invoice_id: soroban_sdk::String)
    requires
        host.escrow(invoice_id) is Some,
    ensures
        call.host_after(host).ttl[DataKey::Invoice(invoice_id).parts()]
            >= host.ttl[DataKey::Invoice(invoice_id).parts()],
{
    if call.invoice() != Some(invoice_id) {
        law_other_escrows_are_untouched(host, call, invoice_id);
    }
}

} // verus!
