//! The entry points of the contract.
//!
//! Each states the reply it gives and the host it leaves over the host it finds
//! (`host_of(*old(env))`). An entry point may only run in an invocation of the
//! contract, and where it requires an address's authorization, that has to be
//! at hand: without it the host ends the invocation and undoes it.

use crate::error::PoolEscrowError;
use crate::events::{EscrowRefunded, FundLocked, InvoiceReleased, RepaymentPosted};
use crate::host::{
    extended_ttl, host_of, instance_get, instance_has, instance_set, ledger_timestamp,
    persistent_extend_ttl, persistent_get, persistent_has, persistent_set, require_auth, Host,
};
use crate::keys::DataKey;
use crate::record::{EscrowRecord, EscrowStatus};
use crate::stored::{is_record, lemma_stored_record, record_in};
use soroban_sdk::{Address, Env};
use vstd::prelude::*;

verus! {

broadcast use lemma_stored_record;

/// A record whose time to live is no more than this many ledgers (about seven
/// days) is extended whenever it is read or written.
pub const ESCROW_TTL_THRESHOLD: u32 = 120_960;

/// The time to live, in ledgers (about thirty days), that a record is extended
/// to.
pub const ESCROW_TTL_EXTEND_TO: u32 = 518_400;

/// The state of the contract in the host.
impl Host {
    /// The admin, once the contract is initialized.
    pub open spec fn admin(self) -> Option<Address> {
        if self.instance.contains_key(DataKey::Admin.parts()) {
            Some(self.instance[DataKey::Admin.parts()])
        } else {
            None
        }
    }

    /// The escrow of an invoice, if it has one.
    pub open spec fn escrow(self, invoice_id: soroban_sdk::String) -> Option<EscrowRecord> {
        if self.persistent.contains_key(DataKey::Invoice(invoice_id).parts()) {
            Some(record_in(self.persistent[DataKey::Invoice(invoice_id).parts()]))
        } else {
            None
        }
    }

    /// Whether what is stored for an invoice, if anything, is a record.
    pub open spec fn is_readable(self, invoice_id: soroban_sdk::String) -> bool {
        let key = DataKey::Invoice(invoice_id).parts();
        self.persistent.contains_key(key) ==> is_record(self.persistent[key])
    }

    /// The escrows of all invoices that have one.
    pub open spec fn records(self) -> Map<soroban_sdk::String, EscrowRecord> {
        Map::new(
            |id: soroban_sdk::String| self.escrow(id) is Some,
            |id: soroban_sdk::String| self.escrow(id)->0,
        )
    }

    /// The host once `admin` is the admin.
    pub open spec fn with_admin(self, admin: Address) -> Host {
        Host { instance: self.instance.insert(DataKey::Admin.parts(), admin), ..self }
    }

    /// The host once the authorization of `address` has been asked for.
    pub open spec fn authorized_by(self, address: Address) -> Host {
        Host { grants: self.grants.remove(address), ..self }
    }

    /// The host once the time to live of the record under `key` has been
    /// extended, where it was due.
    pub open spec fn kept_alive(self, key: DataKey) -> Host {
        Host {
            ttl: self.ttl.insert(
                key.parts(),
                extended_ttl(
                    self.ttl[key.parts()],
                    ESCROW_TTL_THRESHOLD,
                    ESCROW_TTL_EXTEND_TO,
                    self.max_ttl,
                ),
            ),
            ..self
        }
    }

    /// The host once `record` is stored under `key`.
    pub open spec fn stored(self, key: DataKey, record: EscrowRecord) -> Host {
        Host {
            persistent: self.persistent.insert(key.parts(), record.fields()),
            ttl: if self.persistent.contains_key(key.parts()) {
                self.ttl
            } else {
                self.ttl.insert(key.parts(), self.fresh_ttl)
            },
            ..self
        }.kept_alive(key)
    }

    /// The host once an event has been published.
    pub open spec fn announced(
        self,
        topic: Seq<char>,
        invoice_id: soroban_sdk::String,
        amount: i128,
    ) -> Host {
        Host { published: self.published.push((topic, invoice_id, amount)), ..self }
    }
}

/// The reply to a read of the record under `key`.
pub open spec fn read_reply(host: Host, key: DataKey) -> Result<EscrowRecord, PoolEscrowError> {
    if host.persistent.contains_key(key.parts()) {
        Ok(record_in(host.persistent[key.parts()]))
    } else {
        Err(PoolEscrowError::EscrowNotFound)
    }
}

/// The host that a read of the record under `key` leaves.
pub open spec fn read_host(host: Host, key: DataKey) -> Host {
    if host.persistent.contains_key(key.parts()) {
        host.kept_alive(key)
    } else {
        host
    }
}

/// What is asked for with [`PoolEscrowContract::lock_funding`].
pub struct LockRequest {
    pub funder: Address,
    pub invoice_id: soroban_sdk::String,
    pub warung: Address,
    pub supplier: Address,
    pub cooperative: Address,
    pub amount: i128,
}

/// Whether [`PoolEscrowContract::initialize`] may run: in an invocation, and with
/// the admin's authorization unless the contract has an admin already.
pub open spec fn initialize_permitted(host: Host, admin: Address) -> bool {
    host.in_invocation && (host.admin() is None ==> host.grants.contains(admin))
}

/// The reply to [`PoolEscrowContract::initialize`].
pub open spec fn initialize_reply(host: Host) -> Result<(), PoolEscrowError> {
    if host.admin() is Some {
        Err(PoolEscrowError::AlreadyInitialized)
    } else {
        Ok(())
    }
}

/// The host that [`PoolEscrowContract::initialize`] leaves.
pub open spec fn initialize_host(host: Host, admin: Address) -> Host {
    match initialize_reply(host) {
        Ok(_) => host.authorized_by(admin).with_admin(admin),
        Err(_) => host,
    }
}

/// Whether [`PoolEscrowContract::lock_funding`] may run: in an invocation, and
/// with the funder's authorization once the contract is initialized.
pub open spec fn lock_permitted(host: Host, funder: Address) -> bool {
    host.in_invocation && (host.admin() is Some ==> host.grants.contains(funder))
}

/// The reply to [`PoolEscrowContract::lock_funding`].
pub open spec fn lock_reply(host: Host, request: LockRequest) -> Result<
    EscrowRecord,
    PoolEscrowError,
> {
    if host.admin() is None {
        Err(PoolEscrowError::NotInitialized)
    } else if request.amount <= 0 {
        Err(PoolEscrowError::InvalidAmount)
    } else if host.escrow(request.invoice_id) is Some {
        Err(PoolEscrowError::EscrowAlreadyExists)
    } else {
        Ok(
            EscrowRecord {
                invoice_id: request.invoice_id,
                funder: request.funder,
                warung: request.warung,
                supplier: request.supplier,
                cooperative: request.cooperative,
                amount: request.amount,
                repaid_amount: 0,
                status: EscrowStatus::Locked,
                locked_at: host.timestamp,
                closed_at: 0,
            },
        )
    }
}

/// The host that [`PoolEscrowContract::lock_funding`] leaves. A contract that
/// has not been initialized does not ask for the funder's authorization.
pub open spec fn lock_host(host: Host, request: LockRequest) -> Host {
    if host.admin() is None {
        host
    } else {
        match lock_reply(host, request) {
            Ok(record) => host.authorized_by(request.funder).stored(
                DataKey::Invoice(request.invoice_id),
                record,
            ).announced("FundLocked"@, request.invoice_id, request.amount),
            Err(_) => host.authorized_by(request.funder),
        }
    }
}

/// Whether [`PoolEscrowContract::release_funding`] and
/// [`PoolEscrowContract::refund_funding`] may run: in an invocation, with what is
/// stored for the invoice readable, and with the caller's authorization if the
/// invoice has an escrow.
pub open spec fn close_permitted(
    host: Host,
    cooperative: Address,
    invoice_id: soroban_sdk::String,
) -> bool {
    &&& host.in_invocation
    &&& host.is_readable(invoice_id)
    &&& host.escrow(invoice_id) is Some ==> host.grants.contains(cooperative)
}

/// The reply to [`PoolEscrowContract::release_funding`] (`status` is `Released`)
/// and [`PoolEscrowContract::refund_funding`] (`status` is `Refunded`).
pub open spec fn close_reply(
    host: Host,
    cooperative: Address,
    invoice_id: soroban_sdk::String,
    status: EscrowStatus,
) -> Result<EscrowRecord, PoolEscrowError> {
    match host.escrow(invoice_id) {
        Some(record) => record.closed(cooperative, status, host.timestamp),
        None => Err(PoolEscrowError::EscrowNotFound),
    }
}

/// The host that [`PoolEscrowContract::release_funding`] and
/// [`PoolEscrowContract::refund_funding`] leave; `topic` is that of the event.
pub open spec fn close_host(
    host: Host,
    cooperative: Address,
    invoice_id: soroban_sdk::String,
    status: EscrowStatus,
    topic: Seq<char>,
) -> Host {
    let key = DataKey::Invoice(invoice_id);
    if host.escrow(invoice_id) is None {
        host
    } else {
        match close_reply(host, cooperative, invoice_id, status) {
            Ok(record) => host.kept_alive(key).authorized_by(cooperative).stored(
                key,
                record,
            ).announced(topic, invoice_id, record.amount),
            Err(_) => host.kept_alive(key).authorized_by(cooperative),
        }
    }
}

/// Whether [`PoolEscrowContract::post_repayment`] may run: in an invocation, with
/// the payer's authorization, and, unless the amount is refused before, with what
/// is stored for the invoice readable.
pub open spec fn repayment_permitted(
    host: Host,
    payer: Address,
    invoice_id: soroban_sdk::String,
    amount: i128,
) -> bool {
    &&& host.in_invocation
    &&& host.grants.contains(payer)
    &&& amount > 0 ==> host.is_readable(invoice_id)
}

/// The reply to [`PoolEscrowContract::post_repayment`].
pub open spec fn repayment_reply(
    host: Host,
    invoice_id: soroban_sdk::String,
    amount: i128,
) -> Result<EscrowRecord, PoolEscrowError> {
    if amount <= 0 {
        Err(PoolEscrowError::InvalidAmount)
    } else {
        match host.escrow(invoice_id) {
            Some(record) => record.repaid(amount),
            None => Err(PoolEscrowError::EscrowNotFound),
        }
    }
}

/// The host that [`PoolEscrowContract::post_repayment`] leaves.
pub open spec fn repayment_host(
    host: Host,
    payer: Address,
    invoice_id: soroban_sdk::String,
    amount: i128,
) -> Host {
    let key = DataKey::Invoice(invoice_id);
    if amount <= 0 || host.escrow(invoice_id) is None {
        host.authorized_by(payer)
    } else {
        match repayment_reply(host, invoice_id, amount) {
            Ok(record) => host.authorized_by(payer).kept_alive(key).stored(key, record).announced(
                "RepaymentPosted"@,
                invoice_id,
                amount,
            ),
            Err(_) => host.authorized_by(payer).kept_alive(key),
        }
    }
}

/// Whether [`PoolEscrowContract::get_escrow`] may run: in an invocation, with what
/// is stored for the invoice readable.
pub open spec fn escrow_permitted(host: Host, invoice_id: soroban_sdk::String) -> bool {
    host.in_invocation && host.is_readable(invoice_id)
}

/// The reply to [`PoolEscrowContract::get_escrow`].
pub open spec fn escrow_reply(host: Host, invoice_id: soroban_sdk::String) -> Result<
    EscrowRecord,
    PoolEscrowError,
> {
    match host.escrow(invoice_id) {
        Some(record) => Ok(record),
        None => Err(PoolEscrowError::EscrowNotFound),
    }
}

/// The host that [`PoolEscrowContract::get_escrow`] leaves.
pub open spec fn escrow_host(host: Host, invoice_id: soroban_sdk::String) -> Host {
    if host.escrow(invoice_id) is Some {
        host.kept_alive(DataKey::Invoice(invoice_id))
    } else {
        host
    }
}

/// The reply to [`PoolEscrowContract::get_admin`].
pub open spec fn admin_reply(host: Host) -> Result<Address, PoolEscrowError> {
    match host.admin() {
        Some(admin) => Ok(admin),
        None => Err(PoolEscrowError::NotInitialized),
    }
}

/// The escrow contract.
pub struct PoolEscrowContract;

impl PoolEscrowContract {
    /// One-time setup. Records the admin and requires the admin to authorize
    /// the call so it cannot be initialized on someone else's behalf.
    pub fn initialize(env: &mut Env, admin: Address) -> (reply: Result<(), PoolEscrowError>)
        requires
            initialize_permitted(host_of(*old(env)), admin),
        ensures
            reply == initialize_reply(host_of(*old(env))),
            host_of(*final(env)) == initialize_host(host_of(*old(env)), admin),
            reply is Ok <==> host_of(*old(env)).admin() is None,
            reply is Ok ==> host_of(*final(env)).admin() == Some(admin),
    {
        let key = DataKey::Admin.encode(env);
        if instance_has(env, &key) {
            return Err(PoolEscrowError::AlreadyInitialized);
        }
        require_auth(env, &admin);
        instance_set(env, &key, &admin);
        Ok(())
    }

    /// Lock cooperative funding for a single invoice. Only the funder can
    /// authorize the lock, the amount must be positive, and each invoice can
    /// only be locked once.
    pub fn lock_funding(
        env: &mut Env,
        funder: Address,
        invoice_id: soroban_sdk::String,
        warung: Address,
        supplier: Address,
        cooperative: Address,
        amount: i128,
    ) -> (reply: Result<EscrowRecord, PoolEscrowError>)
        requires
            lock_permitted(host_of(*old(env)), funder),
        ensures
            reply == lock_reply(
                host_of(*old(env)),
                LockRequest { funder, invoice_id, warung, supplier, cooperative, amount },
            ),
            host_of(*final(env)) == lock_host(
                host_of(*old(env)),
                LockRequest { funder, invoice_id, warung, supplier, cooperative, amount },
            ),
            reply matches Ok(record) ==> {
                &&& record.invoice_id == invoice_id
                &&& record.funder == funder
                &&& record.warung == warung
                &&& record.supplier == supplier
                &&& record.cooperative == cooperative
                &&& record.amount == amount
                &&& record.status == EscrowStatus::Locked
                &&& host_of(*final(env)).escrow(invoice_id) == Some(record)
            },
    {
        match Self::require_initialized(env) {
            Ok(()) => {},
            Err(e) => return Err(e),
        }
        require_auth(env, &funder);

        if amount <= 0 {
            return Err(PoolEscrowError::InvalidAmount);
        }
        let key = DataKey::Invoice(invoice_id.clone());
        if persistent_has(env, &key.encode(env)) {
            return Err(PoolEscrowError::EscrowAlreadyExists);
        }
        let now: u64 = ledger_timestamp(env);
        let record = EscrowRecord::lock(
            invoice_id.clone(),
            funder,
            warung,
            supplier,
            cooperative,
            amount,
            now,
        );
        Self::write_record(env, &key, &record);
        (FundLocked { invoice_id, amount }).publish(env);
        Ok(record)
    }

    /// Release a locked escrow to the supplier. Only the cooperative on the
    /// record can authorize it, and only while the escrow is still `Locked`.
    pub fn release_funding(
        env: &mut Env,
        cooperative: Address,
        invoice_id: soroban_sdk::String,
    ) -> (reply: Result<EscrowRecord, PoolEscrowError>)
        requires
            close_permitted(host_of(*old(env)), cooperative, invoice_id),
        ensures
            reply == close_reply(
                host_of(*old(env)),
                cooperative,
                invoice_id,
                EscrowStatus::Released,
            ),
            host_of(*final(env)) == close_host(
                host_of(*old(env)),
                cooperative,
                invoice_id,
                EscrowStatus::Released,
                "InvoiceReleased"@,
            ),
            reply matches Ok(record) ==> {
                &&& record.status == EscrowStatus::Released
                &&& record.closed_at == host_of(*old(env)).timestamp
                &&& host_of(*final(env)).escrow(invoice_id) == Some(record)
            },
    {
        let key = DataKey::Invoice(invoice_id.clone());
        let mut record = match Self::read_record(env, &key) {
            Ok(record) => record,
            Err(e) => return Err(e),
        };
        require_auth(env, &cooperative);

        let now: u64 = ledger_timestamp(env);
        match record.release(&cooperative, now) {
            Ok(()) => {},
            Err(e) => return Err(e),
        }
        Self::write_record(env, &key, &record);
        (InvoiceReleased { invoice_id, amount: record.amount }).publish(env);
        Ok(record)
    }

    /// Refund a locked escrow back to the funder. Same authorization rules as
    /// release: only the cooperative on the record, only while `Locked`.
    pub fn refund_funding(
        env: &mut Env,
        cooperative: Address,
        invoice_id: soroban_sdk::String,
    ) -> (reply: Result<EscrowRecord, PoolEscrowError>)
        requires
            close_permitted(host_of(*old(env)), cooperative, invoice_id),
        ensures
            reply == close_reply(
                host_of(*old(env)),
                cooperative,
                invoice_id,
                EscrowStatus::Refunded,
            ),
            host_of(*final(env)) == close_host(
                host_of(*old(env)),
                cooperative,
                invoice_id,
                EscrowStatus::Refunded,
                "EscrowRefunded"@,
            ),
            reply matches Ok(record) ==> {
                &&& record.status == EscrowStatus::Refunded
                &&& record.closed_at == host_of(*old(env)).timestamp
                &&& host_of(*final(env)).escrow(invoice_id) == Some(record)
            },
    {
        let key = DataKey::Invoice(invoice_id.clone());
        let mut record = match Self::read_record(env, &key) {
            Ok(record) => record,
            Err(e) => return Err(e),
        };
        require_auth(env, &cooperative);

        let now: u64 = ledger_timestamp(env);
        match record.refund(&cooperative, now) {
            Ok(()) => {},
            Err(e) => return Err(e),
        }
        Self::write_record(env, &key, &record);
        (EscrowRefunded { invoice_id, amount: record.amount }).publish(env);
        Ok(record)
    }

    /// Record a repayment against a released escrow. The payer must authorize,
    /// the amount must be positive, and the escrow must already be `Released`.
    pub fn post_repayment(
        env: &mut Env,
        payer: Address,
        invoice_id: soroban_sdk::String,
        amount: i128,
    ) -> (reply: Result<EscrowRecord, PoolEscrowError>)
        requires
            repayment_permitted(host_of(*old(env)), payer, invoice_id, amount),
        ensures
            reply == repayment_reply(host_of(*old(env)), invoice_id, amount),
            host_of(*final(env)) == repayment_host(
                host_of(*old(env)),
                payer,
                invoice_id,
                amount,
            ),
            reply matches Ok(record) ==> {
                &&& record.repaid_amount == host_of(*old(env)).escrow(invoice_id)->0.repaid_amount
                    + amount
                &&& host_of(*final(env)).escrow(invoice_id) == Some(record)
            },
    {
        require_auth(env, &payer);

        if amount <= 0 {
            return Err(PoolEscrowError::InvalidAmount);
        }
        let key = DataKey::Invoice(invoice_id.clone());
        let mut record = match Self::read_record(env, &key) {
            Ok(record) => record,
            Err(e) => return Err(e),
        };
        match record.repay(amount) {
            Ok(()) => {},
            Err(e) => return Err(e),
        }
        Self::write_record(env, &key, &record);
        (RepaymentPosted { invoice_id, amount }).publish(env);
        Ok(record)
    }

    /// The escrow of an invoice.
    pub fn get_escrow(env: &mut Env, invoice_id: soroban_sdk::String) -> (reply: Result<
        EscrowRecord,
        PoolEscrowError,
    >)
        requires
            escrow_permitted(host_of(*old(env)), invoice_id),
        ensures
            reply == escrow_reply(host_of(*old(env)), invoice_id),
            host_of(*final(env)) == escrow_host(host_of(*old(env)), invoice_id),
    {
        let key = DataKey::Invoice(invoice_id);
        Self::read_record(env, &key)
    }

    /// The admin that the contract was initialized with.
    pub fn get_admin(env: &Env) -> (reply: Result<Address, PoolEscrowError>)
        requires
            host_of(*env).in_invocation,
        ensures
            reply == admin_reply(host_of(*env)),
    {
        match instance_get(env, &DataKey::Admin.encode(env)) {
            Some(admin) => Ok(admin),
            None => Err(PoolEscrowError::NotInitialized),
        }
    }

    fn require_initialized(env: &Env) -> (res: Result<(), PoolEscrowError>)
        requires
            host_of(*env).in_invocation,
        ensures
            res == (if host_of(*env).admin() is Some {
                Ok::<(), PoolEscrowError>(())
            } else {
                Err(PoolEscrowError::NotInitialized)
            }),
    {
        if instance_has(env, &DataKey::Admin.encode(env)) {
            Ok(())
        } else {
            Err(PoolEscrowError::NotInitialized)
        }
    }

    fn read_record(env: &mut Env, key: &DataKey) -> (res: Result<EscrowRecord, PoolEscrowError>)
        requires
            host_of(*old(env)).in_invocation,
            host_of(*old(env)).persistent.contains_key(key.parts()) ==> is_record(
                host_of(*old(env)).persistent[key.parts()],
            ),
        ensures
            res == read_reply(host_of(*old(env)), *key),
            host_of(*final(env)) == read_host(host_of(*old(env)), *key),
    {
        let stored_key = key.encode(env);
        let fields = match persistent_get(env, &stored_key) {
            Some(fields) => fields,
            None => return Err(PoolEscrowError::EscrowNotFound),
        };
        let record = EscrowRecord::decode(env, &fields);
        persistent_extend_ttl(env, &stored_key, ESCROW_TTL_THRESHOLD, ESCROW_TTL_EXTEND_TO);
        Ok(record)
    }

    fn write_record(env: &mut Env, key: &DataKey, record: &EscrowRecord)
        requires
            host_of(*old(env)).in_invocation,
        ensures
            host_of(*final(env)) == host_of(*old(env)).stored(*key, *record),
    {
        let stored_key = key.encode(env);
        persistent_set(env, &stored_key, &record.encode(env));
        persistent_extend_ttl(env, &stored_key, ESCROW_TTL_THRESHOLD, ESCROW_TTL_EXTEND_TO);
    }
}

} // verus!
