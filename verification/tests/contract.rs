use pool_escrow::{
    DataKey, EscrowRecord, EscrowStatus, PoolEscrowContract, PoolEscrowError, ESCROW_TTL_EXTEND_TO,
    ESCROW_TTL_THRESHOLD,
};
use soroban_sdk::testutils::storage::Persistent as _;
use soroban_sdk::testutils::{Address as _, ContractFunctionSet, EnvTestConfig, Events, Ledger};
use soroban_sdk::{Address, Env, Error, IntoVal, InvokeError, String, Symbol, Val, Vec};

/// A record in a form that crosses the boundary of an invocation.
type Wire = (String, Address, Address, Address, Address, i128, i128, u32, u64, u64);

fn to_wire(r: EscrowRecord) -> Wire {
    let status: u32 = match r.status {
        EscrowStatus::Locked => 0,
        EscrowStatus::Released => 1,
        EscrowStatus::Refunded => 2,
    };
    (
        r.invoice_id,
        r.funder,
        r.warung,
        r.supplier,
        r.cooperative,
        r.amount,
        r.repaid_amount,
        status,
        r.locked_at,
        r.closed_at,
    )
}

fn from_wire(w: Wire) -> EscrowRecord {
    EscrowRecord {
        invoice_id: w.0,
        funder: w.1,
        warung: w.2,
        supplier: w.3,
        cooperative: w.4,
        amount: w.5,
        repaid_amount: w.6,
        status: match w.7 {
            0 => EscrowStatus::Locked,
            1 => EscrowStatus::Released,
            _ => EscrowStatus::Refunded,
        },
        locked_at: w.8,
        closed_at: w.9,
    }
}

/// The contract as the host runs it.
struct Hosted;

impl ContractFunctionSet for Hosted {
    fn call(&self, func: &str, mut env: Env, args: &[Val]) -> Option<Val> {
        let a = |i: usize| -> Address { args[i].into_val(&env) };
        let s = |i: usize| -> String { args[i].into_val(&env) };
        let n = |i: usize| -> i128 { args[i].into_val(&env) };
        let reply = match func {
            "initialize" => {
                let admin = a(0);
                return Some(match PoolEscrowContract::initialize(&mut env, admin) {
                    Ok(()) => ().into_val(&env),
                    Err(e) => Error::from_contract_error(e.code()).to_val(),
                });
            }
            "get_admin" => {
                return Some(match PoolEscrowContract::get_admin(&env) {
                    Ok(admin) => admin.to_val(),
                    Err(e) => Error::from_contract_error(e.code()).to_val(),
                });
            }
            "lock_funding" => {
                let (f, id, w, su, c, am) = (a(0), s(1), a(2), a(3), a(4), n(5));
                PoolEscrowContract::lock_funding(&mut env, f, id, w, su, c, am)
            }
            "release_funding" => {
                let (c, id) = (a(0), s(1));
                PoolEscrowContract::release_funding(&mut env, c, id)
            }
            "refund_funding" => {
                let (c, id) = (a(0), s(1));
                PoolEscrowContract::refund_funding(&mut env, c, id)
            }
            "post_repayment" => {
                let (p, id, am) = (a(0), s(1), n(2));
                PoolEscrowContract::post_repayment(&mut env, p, id, am)
            }
            "get_escrow" => {
                let id = s(0);
                PoolEscrowContract::get_escrow(&mut env, id)
            }
            _ => return None,
        };
        Some(match reply {
            Ok(record) => to_wire(record).into_val(&env),
            Err(e) => Error::from_contract_error(e.code()).to_val(),
        })
    }
}

const ERRORS: [PoolEscrowError; 7] = [
    PoolEscrowError::AlreadyInitialized,
    PoolEscrowError::NotInitialized,
    PoolEscrowError::InvalidAmount,
    PoolEscrowError::EscrowAlreadyExists,
    PoolEscrowError::EscrowNotFound,
    PoolEscrowError::InvalidStatus,
    PoolEscrowError::Unauthorized,
];

/// A refusal by the contract, or a failure of the invocation itself.
type Refusal = Result<PoolEscrowError, InvokeError>;

/// Calls the contract as a client does, each call in an invocation of its own.
struct Client {
    env: Env,
    address: Address,
}

impl Client {
    fn new(env: &Env) -> Client {
        let address = env.register(Hosted, ());
        Client { env: env.clone(), address }
    }

    fn invoke(&self, func: &str, args: Vec<Val>) -> Result<Val, Refusal> {
        let func = Symbol::new(&self.env, func);
        match self.env.try_invoke_contract::<Val, InvokeError>(&self.address, &func, args) {
            Ok(reply) => Ok(reply.unwrap()),
            Err(Ok(InvokeError::Contract(code))) => {
                Err(Ok(*ERRORS.iter().find(|e| e.code() == code).unwrap()))
            }
            Err(Ok(e)) => Err(Err(e)),
            Err(Err(e)) => Err(Err(e)),
        }
    }

    fn record(&self, reply: Result<Val, Refusal>) -> Result<EscrowRecord, Refusal> {
        reply.map(|v| {
            let wire: Wire = v.into_val(&self.env);
            from_wire(wire)
        })
    }

    fn try_initialize(&self, admin: &Address) -> Result<(), Refusal> {
        self.invoke("initialize", (admin.clone(),).into_val(&self.env)).map(|_| ())
    }

    fn try_get_admin(&self) -> Result<Address, Refusal> {
        self.invoke("get_admin", ().into_val(&self.env)).map(|v| v.into_val(&self.env))
    }

    fn try_lock_funding(
        &self,
        funder: &Address,
        id: &String,
        warung: &Address,
        supplier: &Address,
        cooperative: &Address,
        amount: &i128,
    ) -> Result<EscrowRecord, Refusal> {
        let args = (
            funder.clone(),
            id.clone(),
            warung.clone(),
            supplier.clone(),
            cooperative.clone(),
            *amount,
        );
        self.record(self.invoke("lock_funding", args.into_val(&self.env)))
    }

    fn lock_funding(
        &self,
        funder: &Address,
        id: &String,
        warung: &Address,
        supplier: &Address,
        cooperative: &Address,
        amount: &i128,
    ) -> EscrowRecord {
        self.try_lock_funding(funder, id, warung, supplier, cooperative, amount).unwrap()
    }

    fn try_release_funding(&self, coop: &Address, id: &String) -> Result<EscrowRecord, Refusal> {
        let args = (coop.clone(), id.clone());
        self.record(self.invoke("release_funding", args.into_val(&self.env)))
    }

    fn release_funding(&self, coop: &Address, id: &String) -> EscrowRecord {
        self.try_release_funding(coop, id).unwrap()
    }

    fn try_refund_funding(&self, coop: &Address, id: &String) -> Result<EscrowRecord, Refusal> {
        let args = (coop.clone(), id.clone());
        self.record(self.invoke("refund_funding", args.into_val(&self.env)))
    }

    fn refund_funding(&self, coop: &Address, id: &String) -> EscrowRecord {
        self.try_refund_funding(coop, id).unwrap()
    }

    fn try_post_repayment(
        &self,
        payer: &Address,
        id: &String,
        amount: &i128,
    ) -> Result<EscrowRecord, Refusal> {
        let args = (payer.clone(), id.clone(), *amount);
        self.record(self.invoke("post_repayment", args.into_val(&self.env)))
    }

    fn post_repayment(&self, payer: &Address, id: &String, amount: &i128) -> EscrowRecord {
        self.try_post_repayment(payer, id, amount).unwrap()
    }

    fn try_get_escrow(&self, id: &String) -> Result<EscrowRecord, Refusal> {
        self.record(self.invoke("get_escrow", (id.clone(),).into_val(&self.env)))
    }

    fn get_escrow(&self, id: &String) -> EscrowRecord {
        self.try_get_escrow(id).unwrap()
    }

    /// The stored form of an invoice's key.
    fn key(&self, id: &String) -> (Symbol, String) {
        (Symbol::new(&self.env, "Invoice"), id.clone())
    }

    /// The time to live of an invoice's entry.
    fn ttl(&self, id: &String) -> u32 {
        let key = self.key(id);
        self.env.as_contract(&self.address, || self.env.storage().persistent().get_ttl(&key))
    }
}

struct TestSetup {
    env: Env,
    client: Client,
    admin: Address,
    funder: Address,
    warung: Address,
    supplier: Address,
    cooperative: Address,
}

fn new_env() -> Env {
    Env::new_with_config(EnvTestConfig { capture_snapshot_at_drop: false })
}

fn setup() -> TestSetup {
    let env = new_env();
    env.mock_all_auths();

    let client = Client::new(&env);

    let admin = Address::generate(&env);
    let funder = Address::generate(&env);
    let warung = Address::generate(&env);
    let supplier = Address::generate(&env);
    let cooperative = Address::generate(&env);

    client.try_initialize(&admin).unwrap();

    TestSetup { env, client, admin, funder, warung, supplier, cooperative }
}

fn invoice(env: &Env, id: &str) -> String {
    String::from_str(env, id)
}

fn lock(s: &TestSetup, id: &String, amount: i128) -> EscrowRecord {
    s.client.lock_funding(&s.funder, id, &s.warung, &s.supplier, &s.cooperative, &amount)
}

/// What the last invocation published is one event with this topic and amount.
fn assert_published(s: &TestSetup, topic: &str, id: &String, amount: i128) {
    let topics: Vec<Val> = (Symbol::new(&s.env, topic), id.clone()).into_val(&s.env);
    let data: Val = amount.into_val(&s.env);
    let expected = Vec::from_array(&s.env, [(s.client.address.clone(), topics, data)]);
    assert_eq!(s.env.events().all(), expected);
}

fn assert_published_nothing(s: &TestSetup) {
    let expected: Vec<(Address, Vec<Val>, Val)> = Vec::new(&s.env);
    assert_eq!(s.env.events().all(), expected);
}

// ---------------------------------------------------------------------------
// initialize
// ---------------------------------------------------------------------------

#[test]
fn test_initialize_once() {
    let s = setup();
    // A second initialize must fail with AlreadyInitialized.
    let res = s.client.try_initialize(&s.admin);
    assert_eq!(res, Err(Ok(PoolEscrowError::AlreadyInitialized)));
}

#[test]
fn initialize_records_the_admin_for_good() {
    let s = setup();
    assert_eq!(s.client.try_get_admin(), Ok(s.admin.clone()));
    let stranger = Address::generate(&s.env);
    assert_eq!(
        s.client.try_initialize(&stranger),
        Err(Ok(PoolEscrowError::AlreadyInitialized))
    );
    assert_eq!(s.client.try_get_admin(), Ok(s.admin.clone()));
}

#[test]
fn get_admin_before_initialize_fails() {
    let env = new_env();
    let client = Client::new(&env);
    assert_eq!(client.try_get_admin(), Err(Ok(PoolEscrowError::NotInitialized)));
}

#[test]
fn initialize_requires_the_admins_authorization() {
    let env = new_env();
    let client = Client::new(&env);
    let admin = Address::generate(&env);
    env.mock_auths(&[]);
    assert_eq!(client.try_initialize(&admin), Err(Err(InvokeError::Abort)));
    assert_eq!(client.try_get_admin(), Err(Ok(PoolEscrowError::NotInitialized)));

    env.mock_all_auths();
    assert_eq!(client.try_initialize(&admin), Ok(()));
    let auths = env.auths();
    assert_eq!(auths.len(), 1);
    assert_eq!(auths[0].0, admin);
}

// ---------------------------------------------------------------------------
// lock_funding — happy path
// ---------------------------------------------------------------------------

#[test]
fn test_lock_funding_success() {
    let s = setup();
    let id = invoice(&s.env, "INV-001");

    s.env.ledger().set_timestamp(1_000);

    let record = s.client.lock_funding(
        &s.funder,
        &id,
        &s.warung,
        &s.supplier,
        &s.cooperative,
        &500_000i128,
    );

    // A FundLocked event was emitted with the correct topic and amount.
    // Assert immediately: each subsequent contract invocation resets the
    // test event buffer.
    let topics: Vec<Val> = (Symbol::new(&s.env, "FundLocked"), id.clone()).into_val(&s.env);
    let data: Val = 500_000i128.into_val(&s.env);
    let expected = Vec::from_array(&s.env, [(s.client.address.clone(), topics, data)]);
    assert_eq!(s.env.events().all(), expected);

    assert_eq!(record.invoice_id, id);
    assert_eq!(record.funder, s.funder);
    assert_eq!(record.amount, 500_000);
    assert_eq!(record.repaid_amount, 0);
    assert_eq!(record.status, EscrowStatus::Locked);
    assert_eq!(record.locked_at, 1_000);
    assert_eq!(record.closed_at, 0);

    // Stored record is retrievable.
    let fetched = s.client.get_escrow(&id);
    assert_eq!(fetched, record);
}

#[test]
fn lock_keeps_every_party_apart() {
    let s = setup();
    let id = invoice(&s.env, "INV-PARTIES");
    let record = lock(&s, &id, 5);
    assert_eq!(record.funder, s.funder);
    assert_eq!(record.warung, s.warung);
    assert_eq!(record.supplier, s.supplier);
    assert_eq!(record.cooperative, s.cooperative);
    let fetched = s.client.get_escrow(&id);
    assert_eq!(fetched.funder, s.funder);
    assert_eq!(fetched.warung, s.warung);
    assert_eq!(fetched.supplier, s.supplier);
    assert_eq!(fetched.cooperative, s.cooperative);
}

#[test]
fn lock_uses_the_funders_authorization() {
    let s = setup();
    let id = invoice(&s.env, "INV-AUTH");
    lock(&s, &id, 5);
    let auths = s.env.auths();
    assert_eq!(auths.len(), 1);
    assert_eq!(auths[0].0, s.funder);
}

// ---------------------------------------------------------------------------
// AC: same invoice cannot be locked twice
// ---------------------------------------------------------------------------

#[test]
fn test_lock_funding_duplicate_fails() {
    let s = setup();
    let id = invoice(&s.env, "INV-DUP");

    s.client.lock_funding(
        &s.funder,
        &id,
        &s.warung,
        &s.supplier,
        &s.cooperative,
        &100i128,
    );

    let res = s.client.try_lock_funding(
        &s.funder,
        &id,
        &s.warung,
        &s.supplier,
        &s.cooperative,
        &100i128,
    );
    assert_eq!(res, Err(Ok(PoolEscrowError::EscrowAlreadyExists)));
}

#[test]
fn a_closed_invoice_cannot_be_locked_again() {
    let s = setup();
    let id = invoice(&s.env, "INV-AGAIN");
    lock(&s, &id, 100);
    s.client.refund_funding(&s.cooperative, &id);
    let res =
        s.client.try_lock_funding(&s.funder, &id, &s.warung, &s.supplier, &s.cooperative, &7);
    assert_eq!(res, Err(Ok(PoolEscrowError::EscrowAlreadyExists)));
}

// ---------------------------------------------------------------------------
// AC: invalid amount rejected
// ---------------------------------------------------------------------------

#[test]
fn test_lock_funding_zero_amount_fails() {
    let s = setup();
    let id = invoice(&s.env, "INV-ZERO");
    let res = s.client.try_lock_funding(
        &s.funder,
        &id,
        &s.warung,
        &s.supplier,
        &s.cooperative,
        &0i128,
    );
    assert_eq!(res, Err(Ok(PoolEscrowError::InvalidAmount)));
}

#[test]
fn test_lock_funding_negative_amount_fails() {
    let s = setup();
    let id = invoice(&s.env, "INV-NEG");
    let res = s.client.try_lock_funding(
        &s.funder,
        &id,
        &s.warung,
        &s.supplier,
        &s.cooperative,
        &-1i128,
    );
    assert_eq!(res, Err(Ok(PoolEscrowError::InvalidAmount)));
}

#[test]
fn an_invalid_amount_is_reported_before_a_duplicate() {
    let s = setup();
    let id = invoice(&s.env, "INV-ORDER");
    lock(&s, &id, 1);
    let res =
        s.client.try_lock_funding(&s.funder, &id, &s.warung, &s.supplier, &s.cooperative, &0);
    assert_eq!(res, Err(Ok(PoolEscrowError::InvalidAmount)));
    assert_published_nothing(&s);
}

// ---------------------------------------------------------------------------
// AC: unauthorized invocation fails (funder did not authorize)
// ---------------------------------------------------------------------------

#[test]
fn test_lock_funding_unauthorized_fails() {
    let env = new_env();
    let client = Client::new(&env);

    let funder = Address::generate(&env);
    let warung = Address::generate(&env);
    let supplier = Address::generate(&env);
    let cooperative = Address::generate(&env);
    let id = invoice(&env, "INV-NOAUTH");

    // No auths mocked at all -> funder.require_auth() must fail.
    env.mock_auths(&[]);
    let res = client.try_lock_funding(
        &funder,
        &id,
        &warung,
        &supplier,
        &cooperative,
        &100i128,
    );
    assert!(res.is_err());
}

#[test]
fn without_authorization_no_call_goes_through() {
    let s = setup();
    let id = invoice(&s.env, "INV-NOAUTH2");
    let other = invoice(&s.env, "INV-NOAUTH3");
    let record = lock(&s, &id, 100);

    s.env.mock_auths(&[]);
    let res =
        s.client.try_lock_funding(&s.funder, &other, &s.warung, &s.supplier, &s.cooperative, &1);
    assert_eq!(res, Err(Err(InvokeError::Abort)));
    let res = s.client.try_release_funding(&s.cooperative, &id);
    assert_eq!(res, Err(Err(InvokeError::Abort)));
    let res = s.client.try_refund_funding(&s.cooperative, &id);
    assert_eq!(res, Err(Err(InvokeError::Abort)));
    let res = s.client.try_post_repayment(&s.warung, &id, &1);
    assert_eq!(res, Err(Err(InvokeError::Abort)));

    assert_eq!(s.client.get_escrow(&id), record);
    assert_eq!(s.client.try_get_escrow(&other), Err(Ok(PoolEscrowError::EscrowNotFound)));
}

// ---------------------------------------------------------------------------
// release_funding
// ---------------------------------------------------------------------------

#[test]
fn test_release_funding_success() {
    let s = setup();
    let id = invoice(&s.env, "INV-REL");

    s.client.lock_funding(
        &s.funder,
        &id,
        &s.warung,
        &s.supplier,
        &s.cooperative,
        &777i128,
    );

    s.env.ledger().set_timestamp(2_000);
    let record = s.client.release_funding(&s.cooperative, &id);

    assert_eq!(record.status, EscrowStatus::Released);
    assert_eq!(record.closed_at, 2_000);
}

#[test]
fn release_publishes_and_stores_the_record() {
    let s = setup();
    let id = invoice(&s.env, "INV-REL3");
    lock(&s, &id, 777);
    let record = s.client.release_funding(&s.cooperative, &id);
    assert_published(&s, "InvoiceReleased", &id, 777);
    let auths = s.env.auths();
    assert_eq!(auths.len(), 1);
    assert_eq!(auths[0].0, s.cooperative);
    assert_eq!(s.client.get_escrow(&id), record);
    assert_published_nothing(&s);
}

#[test]
fn test_release_twice_fails() {
    let s = setup();
    let id = invoice(&s.env, "INV-REL2");

    s.client.lock_funding(
        &s.funder,
        &id,
        &s.warung,
        &s.supplier,
        &s.cooperative,
        &10i128,
    );
    s.client.release_funding(&s.cooperative, &id);

    // Already released -> InvalidStatus.
    let res = s.client.try_release_funding(&s.cooperative, &id);
    assert_eq!(res, Err(Ok(PoolEscrowError::InvalidStatus)));
}

#[test]
fn test_release_wrong_cooperative_fails() {
    let s = setup();
    let id = invoice(&s.env, "INV-WRONGCOOP");

    s.client.lock_funding(
        &s.funder,
        &id,
        &s.warung,
        &s.supplier,
        &s.cooperative,
        &10i128,
    );

    // A different cooperative than the one on the record cannot release,
    // even though mock_all_auths approves the signature.
    let stranger = Address::generate(&s.env);
    let res = s.client.try_release_funding(&stranger, &id);
    assert_eq!(res, Err(Ok(PoolEscrowError::Unauthorized)));
}

#[test]
fn a_refused_close_changes_nothing() {
    let s = setup();
    let id = invoice(&s.env, "INV-SAME");
    let record = lock(&s, &id, 10);
    let stranger = Address::generate(&s.env);
    let res = s.client.try_refund_funding(&stranger, &id);
    assert_eq!(res, Err(Ok(PoolEscrowError::Unauthorized)));
    assert_published_nothing(&s);
    assert_eq!(s.client.get_escrow(&id), record);
}

#[test]
fn test_lock_funding_before_initialize_fails() {
    let env = new_env();
    env.mock_all_auths();
    let client = Client::new(&env);

    let funder = Address::generate(&env);
    let warung = Address::generate(&env);
    let supplier = Address::generate(&env);
    let cooperative = Address::generate(&env);
    let id = invoice(&env, "INV-NOINIT");

    // Contract was never initialized.
    let res = client.try_lock_funding(
        &funder,
        &id,
        &warung,
        &supplier,
        &cooperative,
        &100i128,
    );
    assert_eq!(res, Err(Ok(PoolEscrowError::NotInitialized)));
}

#[test]
fn test_release_missing_invoice_fails() {
    let s = setup();
    let id = invoice(&s.env, "INV-MISSING");
    let res = s.client.try_release_funding(&s.cooperative, &id);
    assert_eq!(res, Err(Ok(PoolEscrowError::EscrowNotFound)));
}

// ---------------------------------------------------------------------------
// refund_funding
// ---------------------------------------------------------------------------

#[test]
fn test_refund_funding_success() {
    let s = setup();
    let id = invoice(&s.env, "INV-REF");

    s.client.lock_funding(
        &s.funder,
        &id,
        &s.warung,
        &s.supplier,
        &s.cooperative,
        &42i128,
    );
    let record = s.client.refund_funding(&s.cooperative, &id);
    assert_eq!(record.status, EscrowStatus::Refunded);
}

#[test]
fn refund_publishes_and_stores_the_record() {
    let s = setup();
    let id = invoice(&s.env, "INV-REF3");
    lock(&s, &id, 42);
    s.env.ledger().set_timestamp(3_000);
    let record = s.client.refund_funding(&s.cooperative, &id);
    assert_published(&s, "EscrowRefunded", &id, 42);
    assert_eq!(record.closed_at, 3_000);
    assert_eq!(record.repaid_amount, 0);
    assert_eq!(s.client.get_escrow(&id), record);
}

#[test]
fn refund_of_a_missing_invoice_fails() {
    let s = setup();
    let id = invoice(&s.env, "INV-MISSING2");
    let res = s.client.try_refund_funding(&s.cooperative, &id);
    assert_eq!(res, Err(Ok(PoolEscrowError::EscrowNotFound)));
}

#[test]
fn test_refund_after_release_fails() {
    let s = setup();
    let id = invoice(&s.env, "INV-REF2");

    s.client.lock_funding(
        &s.funder,
        &id,
        &s.warung,
        &s.supplier,
        &s.cooperative,
        &42i128,
    );
    s.client.release_funding(&s.cooperative, &id);

    let res = s.client.try_refund_funding(&s.cooperative, &id);
    assert_eq!(res, Err(Ok(PoolEscrowError::InvalidStatus)));
}

// ---------------------------------------------------------------------------
// post_repayment
// ---------------------------------------------------------------------------

#[test]
fn test_post_repayment_success() {
    let s = setup();
    let id = invoice(&s.env, "INV-REPAY");

    s.client.lock_funding(
        &s.funder,
        &id,
        &s.warung,
        &s.supplier,
        &s.cooperative,
        &1_000i128,
    );
    s.client.release_funding(&s.cooperative, &id);

    let r1 = s.client.post_repayment(&s.warung, &id, &400i128);
    assert_eq!(r1.repaid_amount, 400);
    let r2 = s.client.post_repayment(&s.warung, &id, &600i128);
    assert_eq!(r2.repaid_amount, 1_000);
    assert_eq!(r2.status, EscrowStatus::Released);
}

#[test]
fn repayment_publishes_what_was_paid() {
    let s = setup();
    let id = invoice(&s.env, "INV-REPAY4");
    lock(&s, &id, 1_000);
    s.client.release_funding(&s.cooperative, &id);
    s.client.post_repayment(&s.warung, &id, &400);
    assert_published(&s, "RepaymentPosted", &id, 400);
    let auths = s.env.auths();
    assert_eq!(auths.len(), 1);
    assert_eq!(auths[0].0, s.warung);
    let record = s.client.post_repayment(&s.funder, &id, &700);
    assert_published(&s, "RepaymentPosted", &id, 700);
    // Anyone may pay, and more than the amount may be repaid.
    assert_eq!(record.repaid_amount, 1_100);
    assert_eq!(s.client.get_escrow(&id), record);
}

#[test]
fn test_post_repayment_before_release_fails() {
    let s = setup();
    let id = invoice(&s.env, "INV-REPAY2");

    s.client.lock_funding(
        &s.funder,
        &id,
        &s.warung,
        &s.supplier,
        &s.cooperative,
        &1_000i128,
    );

    // Still Locked, not Released -> InvalidStatus.
    let res = s.client.try_post_repayment(&s.warung, &id, &100i128);
    assert_eq!(res, Err(Ok(PoolEscrowError::InvalidStatus)));
}

#[test]
fn a_refunded_escrow_is_not_repaid() {
    let s = setup();
    let id = invoice(&s.env, "INV-REPAY5");
    lock(&s, &id, 1_000);
    s.client.refund_funding(&s.cooperative, &id);
    let res = s.client.try_post_repayment(&s.warung, &id, &100);
    assert_eq!(res, Err(Ok(PoolEscrowError::InvalidStatus)));
}

#[test]
fn test_post_repayment_invalid_amount_fails() {
    let s = setup();
    let id = invoice(&s.env, "INV-REPAY3");

    s.client.lock_funding(
        &s.funder,
        &id,
        &s.warung,
        &s.supplier,
        &s.cooperative,
        &1_000i128,
    );
    s.client.release_funding(&s.cooperative, &id);

    let res = s.client.try_post_repayment(&s.warung, &id, &0i128);
    assert_eq!(res, Err(Ok(PoolEscrowError::InvalidAmount)));
}

#[test]
fn a_total_that_does_not_fit_is_an_invalid_amount() {
    let s = setup();
    let id = invoice(&s.env, "INV-MAX");
    lock(&s, &id, i128::MAX);
    s.client.release_funding(&s.cooperative, &id);
    let record = s.client.post_repayment(&s.warung, &id, &i128::MAX);
    assert_eq!(record.repaid_amount, i128::MAX);
    let res = s.client.try_post_repayment(&s.warung, &id, &1);
    assert_eq!(res, Err(Ok(PoolEscrowError::InvalidAmount)));
    assert_eq!(s.client.get_escrow(&id), record);
}

#[test]
fn repayment_of_a_missing_invoice_fails() {
    let s = setup();
    let id = invoice(&s.env, "INV-MISSING3");
    let res = s.client.try_post_repayment(&s.warung, &id, &1);
    assert_eq!(res, Err(Ok(PoolEscrowError::EscrowNotFound)));
    // The amount is looked at first.
    let res = s.client.try_post_repayment(&s.warung, &id, &-5);
    assert_eq!(res, Err(Ok(PoolEscrowError::InvalidAmount)));
}

// ---------------------------------------------------------------------------
// get_escrow on missing invoice
// ---------------------------------------------------------------------------

#[test]
fn test_get_escrow_not_found() {
    let s = setup();
    let id = invoice(&s.env, "INV-NONE");
    let res = s.client.try_get_escrow(&id);
    assert_eq!(res, Err(Ok(PoolEscrowError::EscrowNotFound)));
}

#[test]
fn invoices_do_not_touch_each_other() {
    let s = setup();
    let (a, b) = (invoice(&s.env, "INV-A"), invoice(&s.env, "INV-B"));
    let first = lock(&s, &a, 1);
    lock(&s, &b, 2);
    s.client.release_funding(&s.cooperative, &b);
    s.client.post_repayment(&s.warung, &b, &2);
    assert_eq!(s.client.get_escrow(&a), first);
    assert_eq!(s.client.get_escrow(&b).repaid_amount, 2);
}

// ---------------------------------------------------------------------------
// what is stored
// ---------------------------------------------------------------------------

#[test]
fn a_record_is_stored_as_a_map_of_its_fields() {
    let s = setup();
    let id = invoice(&s.env, "INV-FORM");
    s.env.ledger().set_timestamp(11);
    lock(&s, &id, 5);
    s.env.ledger().set_timestamp(22);
    s.client.release_funding(&s.cooperative, &id);
    s.client.post_repayment(&s.warung, &id, &3);

    let env = &s.env;
    let fields: soroban_sdk::Map<Symbol, Val> = env.as_contract(&s.client.address, || {
        env.storage().persistent().get(&s.client.key(&id)).unwrap()
    });
    let field = |name: &str| fields.get(Symbol::new(env, name)).unwrap();
    assert_eq!(fields.len(), 10);
    let n: i128 = field("amount").into_val(env);
    assert_eq!(n, 5);
    let n: i128 = field("repaid_amount").into_val(env);
    assert_eq!(n, 3);
    let n: u64 = field("locked_at").into_val(env);
    assert_eq!(n, 11);
    let n: u64 = field("closed_at").into_val(env);
    assert_eq!(n, 22);
    let t: String = field("invoice_id").into_val(env);
    assert_eq!(t, id);
    let a: Address = field("funder").into_val(env);
    assert_eq!(a, s.funder);
    let a: Address = field("warung").into_val(env);
    assert_eq!(a, s.warung);
    let a: Address = field("supplier").into_val(env);
    assert_eq!(a, s.supplier);
    let a: Address = field("cooperative").into_val(env);
    assert_eq!(a, s.cooperative);
    let status: (Symbol,) = field("status").into_val(env);
    assert_eq!(status.0, Symbol::new(env, "Released"));
}

#[test]
fn the_admin_is_stored_in_the_instance() {
    let s = setup();
    let env = &s.env;
    let stored: Option<Address> = env.as_contract(&s.client.address, || {
        env.storage().instance().get(&(Symbol::new(env, "Admin"),))
    });
    assert_eq!(stored, Some(s.admin.clone()));
}

#[test]
fn keys_are_stored_as_their_variant_and_text() {
    let s = setup();
    let env = &s.env;
    let id = invoice(env, "INV-KEY");
    let admin: Vec<Val> = DataKey::Admin.encode(env);
    assert_eq!(admin.len(), 1);
    let name: Symbol = admin.get(0).unwrap().into_val(env);
    assert_eq!(name, Symbol::new(env, "Admin"));
    let key: Vec<Val> = DataKey::Invoice(id.clone()).clone().encode(env);
    assert_eq!(key.len(), 2);
    let name: Symbol = key.get(0).unwrap().into_val(env);
    assert_eq!(name, Symbol::new(env, "Invoice"));
    let text: String = key.get(1).unwrap().into_val(env);
    assert_eq!(text, id);
}

#[test]
fn every_status_is_read_back() {
    let s = setup();
    let (a, b, c) =
        (invoice(&s.env, "INV-S1"), invoice(&s.env, "INV-S2"), invoice(&s.env, "INV-S3"));
    for id in [&a, &b, &c] {
        lock(&s, id, 1);
    }
    s.client.release_funding(&s.cooperative, &b);
    s.client.refund_funding(&s.cooperative, &c);
    assert_eq!(s.client.get_escrow(&a).status, EscrowStatus::Locked);
    assert_eq!(s.client.get_escrow(&b).status, EscrowStatus::Released);
    assert_eq!(s.client.get_escrow(&c).status, EscrowStatus::Refunded);
}

// ---------------------------------------------------------------------------
// time to live
// ---------------------------------------------------------------------------

#[test]
fn a_write_keeps_the_record_alive() {
    let s = setup();
    let id = invoice(&s.env, "INV-TTL");
    lock(&s, &id, 1);
    assert_eq!(s.client.ttl(&id), ESCROW_TTL_EXTEND_TO);
    assert_eq!(ESCROW_TTL_EXTEND_TO, 518_400);
    assert_eq!(ESCROW_TTL_THRESHOLD, 120_960);
}

#[test]
fn a_read_extends_only_at_the_threshold() {
    let s = setup();
    let id = invoice(&s.env, "INV-TTL2");
    lock(&s, &id, 1);

    // One ledger more than the threshold is left: nothing to do yet.
    let start = s.env.ledger().sequence();
    s.env.ledger().set_sequence_number(start + ESCROW_TTL_EXTEND_TO - ESCROW_TTL_THRESHOLD - 1);
    s.client.get_escrow(&id);
    assert_eq!(s.client.ttl(&id), ESCROW_TTL_THRESHOLD + 1);

    // At the threshold the record is extended.
    s.env.ledger().set_sequence_number(start + ESCROW_TTL_EXTEND_TO - ESCROW_TTL_THRESHOLD);
    s.client.get_escrow(&id);
    assert_eq!(s.client.ttl(&id), ESCROW_TTL_EXTEND_TO);
}

#[test]
fn no_call_shortens_a_time_to_live() {
    let s = setup();
    let id = invoice(&s.env, "INV-TTL4");
    lock(&s, &id, 1);
    let key = s.client.key(&id);
    s.env.as_contract(&s.client.address, || {
        s.env.storage().persistent().extend_ttl(&key, 1_000_000, 1_000_000)
    });
    assert_eq!(s.client.ttl(&id), 1_000_000);
    s.client.get_escrow(&id);
    s.client.release_funding(&s.cooperative, &id);
    s.client.post_repayment(&s.warung, &id, &1);
    assert_eq!(s.client.ttl(&id), 1_000_000);
}

#[test]
fn an_extension_stops_at_the_networks_limit() {
    let s = setup();
    let id = invoice(&s.env, "INV-TTL3");
    s.env.ledger().with_mut(|l| l.max_entry_ttl = 300_001);
    lock(&s, &id, 1);
    assert_eq!(s.client.ttl(&id), 300_000);
}

// ---------------------------------------------------------------------------
// over runs of calls
// ---------------------------------------------------------------------------

#[test]
fn the_repaid_amount_is_what_was_accepted() {
    let s = setup();
    let (a, b) = (invoice(&s.env, "INV-SUM-A"), invoice(&s.env, "INV-SUM-B"));
    lock(&s, &a, 10);
    lock(&s, &b, 10);
    s.client.release_funding(&s.cooperative, &a);
    s.client.release_funding(&s.cooperative, &b);
    let released = s.client.get_escrow(&a);

    s.client.post_repayment(&s.warung, &a, &3);
    s.client.post_repayment(&s.warung, &b, &50);
    assert!(s.client.try_post_repayment(&s.warung, &a, &0).is_err());
    assert!(s.client.try_post_repayment(&s.warung, &a, &-7).is_err());
    assert!(s.client.try_post_repayment(&s.warung, &a, &i128::MAX).is_err());
    assert!(s.client.try_refund_funding(&s.cooperative, &a).is_err());
    s.client.get_escrow(&a);
    s.client.post_repayment(&s.funder, &a, &4);

    assert_eq!(s.client.get_escrow(&a), EscrowRecord { repaid_amount: 7, ..released });
    assert_eq!(s.client.get_escrow(&b).repaid_amount, 50);
}

#[test]
fn only_an_accepted_setup_gives_an_admin() {
    let env = new_env();
    env.mock_all_auths();
    let client = Client::new(&env);
    let (first, second) = (Address::generate(&env), Address::generate(&env));
    let id = invoice(&env, "INV-SETUP");

    assert!(client.try_lock_funding(&first, &id, &first, &first, &first, &1).is_err());
    assert!(client.try_release_funding(&first, &id).is_err());
    assert!(client.try_post_repayment(&first, &id, &1).is_err());
    assert_eq!(client.try_get_admin(), Err(Ok(PoolEscrowError::NotInitialized)));

    assert_eq!(client.try_initialize(&first), Ok(()));
    assert!(client.try_initialize(&second).is_err());
    assert_eq!(client.try_get_admin(), Ok(first));
}

#[test]
fn an_escrow_needs_an_initialized_contract() {
    let env = new_env();
    env.mock_all_auths();
    let client = Client::new(&env);
    let party = Address::generate(&env);
    let id = invoice(&env, "INV-EARLY");
    let early = client.try_lock_funding(&party, &id, &party, &party, &party, &1);
    assert_eq!(early, Err(Ok(PoolEscrowError::NotInitialized)));
    assert_eq!(client.try_get_escrow(&id), Err(Ok(PoolEscrowError::EscrowNotFound)));
    client.try_initialize(&party).unwrap();
    client.lock_funding(&party, &id, &party, &party, &party, &1);
    assert_eq!(client.get_escrow(&id).amount, 1);
}

#[test]
fn times_are_in_order() {
    let s = setup();
    let id = invoice(&s.env, "INV-TIMES");
    s.env.ledger().set_timestamp(100);
    lock(&s, &id, 1);
    s.env.ledger().set_timestamp(250);
    s.client.release_funding(&s.cooperative, &id);
    s.env.ledger().set_timestamp(900);
    let record = s.client.post_repayment(&s.warung, &id, &1);
    assert_eq!(record.locked_at, 100);
    assert_eq!(record.closed_at, 250);
}

#[test]
fn what_a_refused_call_extended_is_undone() {
    let s = setup();
    let id = invoice(&s.env, "INV-UNDO");
    lock(&s, &id, 1);
    let start = s.env.ledger().sequence();
    s.env.ledger().set_sequence_number(start + ESCROW_TTL_EXTEND_TO - ESCROW_TTL_THRESHOLD);
    let stranger = Address::generate(&s.env);
    let res = s.client.try_release_funding(&stranger, &id);
    assert_eq!(res, Err(Ok(PoolEscrowError::Unauthorized)));
    assert_eq!(s.client.ttl(&id), ESCROW_TTL_THRESHOLD);
}
