use token_swap::{
    do_deposit, do_swap, do_withdraw, AccountId, Capability, ErrorCode, Pool, TransferRequest,
    TransferRun,
};

const VAULT_A: u8 = 1;
const VAULT_B: u8 = 2;
const AUTHORITY: u8 = 3;
const USER: u8 = 4;
const USER_A: u8 = 5;
const USER_B: u8 = 6;

fn id(tag: u8) -> AccountId {
    AccountId { bytes: [tag; 32] }
}

fn capability(tag: u8) -> Capability {
    Capability { identity: id(tag) }
}

fn pool() -> Pool {
    Pool::create(30, id(VAULT_A), id(VAULT_B), id(AUTHORITY), &capability(AUTHORITY)).unwrap()
}

fn request(from: u8, to: u8, amount: u64) -> TransferRequest {
    TransferRequest { from: id(from), to: id(to), authority: id(USER), amount }
}

/// A ledger that performs transfers in full or not at all, and can be told
/// to refuse the call with a given number.
struct StubLedger {
    balances: Vec<(AccountId, u64)>,
    calls: usize,
    attempted: Vec<TransferRequest>,
    refuse_call: Option<usize>,
}

impl StubLedger {
    fn new(balances: Vec<(AccountId, u64)>) -> StubLedger {
        StubLedger { balances, calls: 0, attempted: Vec::new(), refuse_call: None }
    }

    fn balance(&self, account: AccountId) -> u64 {
        for (key, amount) in self.balances.iter() {
            if *key == account {
                return *amount;
            }
        }
        0
    }

    fn set_balance(&mut self, account: AccountId, amount: u64) {
        for entry in self.balances.iter_mut() {
            if entry.0 == account {
                entry.1 = amount;
                return;
            }
        }
        self.balances.push((account, amount));
    }

    fn transfer(&mut self, request: &TransferRequest) -> Result<(), String> {
        self.calls += 1;
        self.attempted.push(*request);
        if self.refuse_call == Some(self.calls) {
            return Err(format!("call {} refused", self.calls));
        }
        let available = self.balance(request.from);
        if available < request.amount {
            return Err(format!("insufficient balance: {} < {}", available, request.amount));
        }
        self.set_balance(request.from, available - request.amount);
        let held = self.balance(request.to);
        self.set_balance(request.to, held + request.amount);
        Ok(())
    }
}

/// Performs the transfers of one operation as a host does: one at a time,
/// and all of them or none.
fn perform(ledger: &mut StubLedger, plan: Vec<TransferRequest>) -> Result<(), String> {
    let before = ledger.balances.clone();
    let mut run = TransferRun::new(plan);
    while let Some(request) = run.next_transfer() {
        let outcome = ledger.transfer(&request);
        if let Err(cause) = run.record(outcome) {
            ledger.balances = before;
            return Err(cause);
        }
    }
    assert!(run.is_complete());
    Ok(())
}

fn funded_ledger() -> StubLedger {
    StubLedger::new(vec![
        (id(VAULT_A), 1000),
        (id(VAULT_B), 1000),
        (id(USER_A), 500),
        (id(USER_B), 500),
    ])
}

#[test]
fn run_issues_the_plan_in_order() {
    let plan = vec![request(1, 2, 10), request(3, 4, 20), request(5, 6, 30)];
    let mut run = TransferRun::new(plan.clone());
    assert!(!run.is_complete());
    assert_eq!(run.next_transfer(), Some(plan[0]));
    assert_eq!(run.next_transfer(), Some(plan[0]));
    assert_eq!(run.record::<String>(Ok(())), Ok(()));
    assert_eq!(run.next_transfer(), Some(plan[1]));
    assert_eq!(run.record::<String>(Ok(())), Ok(()));
    assert!(!run.is_complete());
    assert_eq!(run.next_transfer(), Some(plan[2]));
    assert_eq!(run.record::<String>(Ok(())), Ok(()));
    assert_eq!(run.next_transfer(), None);
    assert!(run.is_complete());
}

#[test]
fn run_of_an_empty_plan_is_complete_at_once() {
    let run = TransferRun::new(Vec::new());
    assert_eq!(run.next_transfer(), None);
    assert!(run.is_complete());
}

#[test]
fn failure_ends_the_run_and_comes_back_unchanged() {
    let plan = vec![request(1, 2, 10), request(3, 4, 20), request(5, 6, 30)];
    let mut run = TransferRun::new(plan);
    assert_eq!(run.record::<String>(Ok(())), Ok(()));
    assert_eq!(
        run.record(Err(String::from("insufficient balance"))),
        Err(String::from("insufficient balance"))
    );
    assert_eq!(run.next_transfer(), None);
    assert!(!run.is_complete());
}

#[test]
fn failed_transfer_is_not_tried_again() {
    let plan = vec![request(1, 2, 10), request(3, 4, 20)];
    let mut run = TransferRun::new(plan);
    assert_eq!(run.record(Err(17u32)), Err(17u32));
    assert_eq!(run.next_transfer(), None);
    assert_eq!(run.record::<u32>(Ok(())), Ok(()));
    assert_eq!(run.next_transfer(), None);
    assert!(!run.is_complete());
}

#[test]
fn report_after_the_end_changes_nothing() {
    let mut run = TransferRun::new(vec![request(1, 2, 10)]);
    assert_eq!(run.record::<u32>(Ok(())), Ok(()));
    assert!(run.is_complete());
    assert_eq!(run.record(Err(5u32)), Err(5u32));
    assert!(run.is_complete());
    assert_eq!(run.next_transfer(), None);
}

#[test]
fn deposit_moves_balances_into_the_vaults() {
    let mut ledger = funded_ledger();
    let plan = do_deposit(&pool(), &id(USER_A), &id(USER_B), 70, 90, &capability(USER));
    assert_eq!(perform(&mut ledger, plan), Ok(()));
    assert_eq!(ledger.calls, 2);
    assert_eq!(ledger.balance(id(USER_A)), 430);
    assert_eq!(ledger.balance(id(USER_B)), 410);
    assert_eq!(ledger.balance(id(VAULT_A)), 1070);
    assert_eq!(ledger.balance(id(VAULT_B)), 1090);
}

#[test]
fn deposit_whose_second_transfer_fails_changes_no_balance() {
    let mut ledger = funded_ledger();
    ledger.refuse_call = Some(2);
    let before = ledger.balances.clone();
    let plan = do_deposit(&pool(), &id(USER_A), &id(USER_B), 70, 90, &capability(USER));
    assert_eq!(perform(&mut ledger, plan), Err(String::from("call 2 refused")));
    assert_eq!(ledger.calls, 2);
    assert_eq!(ledger.balances, before);
    assert_eq!(ledger.balance(id(USER_A)), 500);
    assert_eq!(ledger.balance(id(VAULT_A)), 1000);
}

#[test]
fn deposit_whose_first_transfer_fails_does_not_try_the_second() {
    let mut ledger = funded_ledger();
    ledger.refuse_call = Some(1);
    let before = ledger.balances.clone();
    let plan = do_deposit(&pool(), &id(USER_A), &id(USER_B), 70, 90, &capability(USER));
    assert_eq!(perform(&mut ledger, plan), Err(String::from("call 1 refused")));
    assert_eq!(ledger.calls, 1);
    assert_eq!(ledger.balances, before);
}

#[test]
fn deposit_beyond_the_balance_reports_the_ledger_error() {
    let mut ledger = funded_ledger();
    let before = ledger.balances.clone();
    let plan = do_deposit(&pool(), &id(USER_A), &id(USER_B), 70, 501, &capability(USER));
    assert_eq!(
        perform(&mut ledger, plan),
        Err(String::from("insufficient balance: 500 < 501"))
    );
    assert_eq!(ledger.balances, before);
}

#[test]
fn unauthorized_withdraw_attempts_no_transfer() {
    let mut ledger = funded_ledger();
    let before = ledger.balances.clone();
    let planned = do_withdraw(&pool(), &id(USER_A), &id(USER_B), 70, 90, &capability(USER));
    assert_eq!(planned, Err(ErrorCode::Unauthorized));
    if let Ok(plan) = planned {
        let _ = perform(&mut ledger, plan);
    }
    assert_eq!(ledger.calls, 0);
    assert!(ledger.attempted.is_empty());
    assert_eq!(ledger.balances, before);
}

#[test]
fn unauthorized_swap_attempts_no_transfer() {
    let mut ledger = funded_ledger();
    let before = ledger.balances.clone();
    let planned = do_swap(
        &pool(),
        ledger.balance(id(VAULT_A)),
        ledger.balance(id(VAULT_B)),
        &id(VAULT_A),
        &id(USER_B),
        100,
        0,
        &capability(USER),
    );
    assert_eq!(planned, Err(ErrorCode::Unauthorized));
    if let Ok(plan) = planned {
        let _ = perform(&mut ledger, plan);
    }
    assert_eq!(ledger.calls, 0);
    assert!(ledger.attempted.is_empty());
    assert_eq!(ledger.balances, before);
}

#[test]
fn swap_moves_the_priced_output() {
    let mut ledger = funded_ledger();
    let plan = do_swap(
        &pool(),
        ledger.balance(id(VAULT_A)),
        ledger.balance(id(VAULT_B)),
        &id(VAULT_A),
        &id(USER_B),
        100,
        88,
        &capability(AUTHORITY),
    )
    .unwrap();
    assert_eq!(perform(&mut ledger, plan), Ok(()));
    assert_eq!(ledger.calls, 1);
    assert_eq!(ledger.balance(id(VAULT_A)), 912);
    assert_eq!(ledger.balance(id(USER_B)), 588);
    assert_eq!(ledger.balance(id(VAULT_B)), 1000);
}

#[test]
fn withdraw_moves_balances_out_of_the_vaults() {
    let mut ledger = funded_ledger();
    let plan =
        do_withdraw(&pool(), &id(USER_A), &id(USER_B), 1000, 1, &capability(AUTHORITY)).unwrap();
    assert_eq!(perform(&mut ledger, plan), Ok(()));
    assert_eq!(ledger.balance(id(VAULT_A)), 0);
    assert_eq!(ledger.balance(id(VAULT_B)), 999);
    assert_eq!(ledger.balance(id(USER_A)), 1500);
    assert_eq!(ledger.balance(id(USER_B)), 501);
}
