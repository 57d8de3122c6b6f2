use dropspace_sale::{Action, Address, Contract, HostError, SaleError, Session};
use ink::env::test::{
    get_account_balance, run_test, set_account_balance, set_block_timestamp, set_callee,
    set_caller, transfer_in, DefaultAccounts,
};
use ink::env::DefaultEnvironment;
use ink::primitives::AccountId;

fn address(account: AccountId) -> Address {
    let bytes: &[u8; 32] = account.as_ref();
    Address::new(*bytes)
}

fn account(address: Address) -> AccountId {
    AccountId::from(address.bytes)
}

fn caller() -> Address {
    address(ink::env::caller::<DefaultEnvironment>())
}

fn now() -> u64 {
    ink::env::block_timestamp::<DefaultEnvironment>()
}

fn attached_value() -> u128 {
    ink::env::transferred_value::<DefaultEnvironment>()
}

fn balance() -> u128 {
    ink::env::balance::<DefaultEnvironment>()
}

fn balance_of(account: AccountId) -> u128 {
    get_account_balance::<DefaultEnvironment>(account).unwrap_or_default()
}

/// The account that the sale itself runs under.
fn sale_account() -> AccountId {
    AccountId::from([0x07; 32])
}

/// Runs a call to its end: mints are written down in `tokens`, transfers
/// go through the environment.
fn serve(mut session: Session, tokens: &mut Vec<(AccountId, u128)>) -> (Contract, Result<(), SaleError>) {
    loop {
        let outcome = match session.action() {
            Action::Finish(result) => return (session.into_contract(), result),
            Action::Mint { to, id } => {
                tokens.push((account(to), id));
                Ok(())
            }
            Action::Transfer { to, value } => {
                ink::env::transfer::<DefaultEnvironment>(account(to), value)
                    .map_err(|e| HostError { reason: format!("{:?}", e) })
            }
        };
        session = session.resume(outcome);
    }
}

struct ContractParam {
    name: String,
    symbol: String,
    base_uri: String,
    mint_per_tx: u128,
    mint_price: u128,
    mint_fee: u128,
    supply_limit: u128,
    withdraw_wallet: Option<AccountId>,
    dev_wallet: Option<AccountId>,
    sale_time: u64,
}

impl Default for ContractParam {
    fn default() -> ContractParam {
        ContractParam {
            name: "Test".to_string(),
            symbol: "TST".to_string(),
            base_uri: "https://example.com/token/".to_string(),
            mint_per_tx: 1,
            mint_price: 1000,
            mint_fee: 10,
            supply_limit: 1,
            withdraw_wallet: None,
            dev_wallet: None,
            sale_time: 0,
        }
    }
}

/// Deploys a sale: the caller becomes its administrator.
fn get_contract(args: &ContractParam) -> Contract {
    set_callee::<DefaultEnvironment>(sale_account());
    set_account_balance::<DefaultEnvironment>(sale_account(), 0);
    Contract::new(
        caller(),
        args.name.to_string(),
        args.symbol.to_string(),
        args.base_uri.to_string(),
        args.mint_per_tx,
        args.mint_price,
        args.mint_fee,
        args.supply_limit,
        args.withdraw_wallet.map(address),
        args.dev_wallet.map(address),
        args.sale_time,
    )
}

fn in_environment(test: fn(DefaultAccounts<DefaultEnvironment>)) {
    run_test::<DefaultEnvironment, _>(|accounts| {
        test(accounts);
        Ok(())
    })
    .unwrap();
}

#[test]
fn new_works() {
    in_environment(|accounts| {
        let params = ContractParam {
            withdraw_wallet: Some(accounts.django),
            dev_wallet: Some(accounts.alice),
            ..Default::default()
        };
        let contract = get_contract(&params);

        assert_eq!(contract.mint_price(), params.mint_price);
        assert_eq!(contract.mint_fee(), params.mint_fee);
        assert_eq!(contract.dev_wallet().map(account), params.dev_wallet);
        assert_eq!(contract.withdraw_wallet().map(account), params.withdraw_wallet);
        assert_eq!(contract.sale_time(), params.sale_time);
        assert_eq!(contract.name(), params.name);
        assert_eq!(contract.symbol(), params.symbol);
        assert_eq!(contract.base_uri(), params.base_uri);
        assert_eq!(account(contract.administrator()), accounts.alice);
    });
}

#[test]
fn mint_token_works() {
    in_environment(|accounts| {
        let mut tokens = Vec::new();
        let contract = get_contract(&ContractParam::default());

        // Minting token should succeed
        let (contract, result) = serve(contract.mint_token(caller()), &mut tokens);
        assert_eq!(result, Ok(()));
        assert_eq!(tokens, vec![(accounts.alice, 1)]);

        // Minting token again should fail since only one token with ID 1 is allowed
        let (_, result) = serve(contract.mint_token(caller()), &mut tokens);
        assert_eq!(result, Err(SaleError::SupplyLimitReached));
        assert_eq!(tokens.len(), 1);
    });
}

#[test]
fn reserve_works() {
    in_environment(|accounts| {
        let mut tokens = Vec::new();
        let contract = get_contract(&ContractParam::default());

        // Reserving one token should succeed
        let (contract, result) = serve(contract.reserve(caller(), 1), &mut tokens);
        assert_eq!(result, Ok(()));
        assert_eq!(tokens, vec![(accounts.alice, 1)]);

        // Reserving more than one token should fail
        let (contract, result) = serve(contract.reserve(caller(), 2), &mut tokens);
        assert_eq!(result, Err(SaleError::SupplyLimitReached));
        assert_eq!(contract.total_issued(), 1);
    });
}

#[test]
fn buy_works() {
    in_environment(|accounts| {
        let mut tokens = Vec::new();
        let params = ContractParam {
            withdraw_wallet: Some(accounts.django),
            dev_wallet: Some(accounts.eve),
            supply_limit: 5,
            ..Default::default()
        };
        let contract = get_contract(&params);

        // Buying one token should succeed
        transfer_in::<DefaultEnvironment>(1010);
        let session = contract.buy(caller(), now(), attached_value(), 1);
        let (contract, result) = serve(session, &mut tokens);
        assert_eq!(result, Ok(()));
        assert_eq!(tokens, vec![(accounts.alice, 1)]);
        assert_eq!(balance_of(accounts.django), 1000);
        assert_eq!(balance_of(accounts.eve), 10);

        // Buying more than one token should fail
        transfer_in::<DefaultEnvironment>(2020);
        let session = contract.buy(caller(), now(), attached_value(), 2);
        let (contract, result) = serve(session, &mut tokens);
        assert_eq!(result, Err(SaleError::PerTxLimitExceeded));
        assert_eq!(contract.total_issued(), 1);
    });
}

#[test]
fn sale_active_works() {
    in_environment(|accounts| {
        let params = ContractParam {
            withdraw_wallet: Some(accounts.django),
            dev_wallet: Some(accounts.alice),
            ..Default::default()
        };
        let mut contract = get_contract(&params);

        // Set the block timestamp to simulate sale time passing
        set_block_timestamp::<DefaultEnvironment>(12345678);
        assert_eq!(contract.sale_active(now()), true);

        let _ = contract.set_sale_time(caller(), 12345679);

        // Before the sale time, the sale is not active
        assert_eq!(contract.sale_active(now()), false);

        let _ = contract.set_sale_time(caller(), 0);
        assert_eq!(contract.sale_active(now()), true);
    });
}

#[test]
fn toggle_sale_active_works() {
    in_environment(|accounts| {
        let params = ContractParam {
            withdraw_wallet: Some(accounts.django),
            dev_wallet: Some(accounts.alice),
            ..Default::default()
        };

        // Set owner
        set_caller::<DefaultEnvironment>(accounts.charlie);

        let mut contract = get_contract(&params);

        // Ensure that only the owner can toggle sale active
        set_caller::<DefaultEnvironment>(accounts.bob);
        assert_eq!(contract.toggle_sale_active(caller()), Err(SaleError::Unauthorized));

        assert_eq!(contract.sale_active(now()), true);
        set_caller::<DefaultEnvironment>(accounts.charlie);
        assert_eq!(contract.toggle_sale_active(caller()), Ok(()));
        assert_eq!(contract.sale_active(now()), false);

        // Simulate the owner calling the function
        set_caller::<DefaultEnvironment>(accounts.charlie);

        // Toggle sale active, which should set the sale time to 0
        assert_eq!(contract.toggle_sale_active(caller()), Ok(()));
        assert_eq!(contract.sale_time(), 0);
        assert_eq!(contract.sale_active(now()), true);

        // Toggle sale active again, which should set the sale time to u64::MAX
        assert_eq!(contract.toggle_sale_active(caller()), Ok(()));
        assert_eq!(contract.sale_time(), u64::MAX);
        assert_eq!(contract.sale_active(now()), false);
    });
}

#[test]
fn withdraw_works() {
    in_environment(|accounts| {
        let mut tokens = Vec::new();
        let params = ContractParam {
            supply_limit: 100000,
            mint_per_tx: 10,
            mint_price: 1000,
            mint_fee: 10,
            withdraw_wallet: Some(accounts.django),
            dev_wallet: Some(accounts.eve),
            sale_time: 88888888,
            ..Default::default()
        };
        let mut contract = get_contract(&params);

        set_account_balance::<DefaultEnvironment>(accounts.alice, 0);
        set_account_balance::<DefaultEnvironment>(accounts.charlie, 0);
        set_account_balance::<DefaultEnvironment>(accounts.bob, 100_000_000);

        assert_eq!(contract.toggle_sale_active(caller()), Ok(()));
        set_caller::<DefaultEnvironment>(accounts.bob);

        // Bob buys two tokens and pays more than they cost
        transfer_in::<DefaultEnvironment>(2500);
        let session = contract.buy(caller(), now(), attached_value(), 2);
        let (contract, result) = serve(session, &mut tokens);
        assert_eq!(result, Ok(()));
        assert_eq!(tokens, vec![(accounts.bob, 1), (accounts.bob, 2)]);
        assert_eq!(balance_of(accounts.bob), 100_000_000 - 2500);
        assert_eq!(balance_of(accounts.django), 2000);
        assert_eq!(balance_of(accounts.eve), 20);
        assert_eq!(balance(), 480);

        // Only the owner withdraws
        let (contract, result) = serve(contract.withdraw(caller(), balance()), &mut tokens);
        assert_eq!(result, Err(SaleError::Unauthorized));
        assert_eq!(balance(), 480);

        // Simulate the owner calling the withdraw function
        set_caller::<DefaultEnvironment>(accounts.alice);
        let (contract, result) = serve(contract.withdraw(caller(), balance()), &mut tokens);
        assert_eq!(result, Ok(()));
        assert_eq!(balance(), 0);
        assert_eq!(balance_of(accounts.alice), 480);

        // Nothing is left to withdraw
        let (_, result) = serve(contract.withdraw(caller(), balance()), &mut tokens);
        assert_eq!(result, Err(SaleError::NoFunds));
    });
}

#[test]
fn seven_units_are_paid_to_both_wallets() {
    in_environment(|accounts| {
        let mut tokens = Vec::new();
        let params = ContractParam {
            mint_per_tx: 10,
            mint_price: 1000,
            mint_fee: 10,
            supply_limit: 100000,
            withdraw_wallet: Some(accounts.django),
            dev_wallet: Some(accounts.eve),
            sale_time: 0,
            ..Default::default()
        };
        let contract = get_contract(&params);
        let withdraw_before = balance_of(accounts.django);
        let dev_before = balance_of(accounts.eve);

        set_caller::<DefaultEnvironment>(accounts.bob);
        set_account_balance::<DefaultEnvironment>(accounts.bob, 10_000);
        transfer_in::<DefaultEnvironment>(7 * 1010);
        let session = contract.buy(caller(), now(), attached_value(), 7);
        let (contract, result) = serve(session, &mut tokens);

        assert_eq!(result, Ok(()));
        assert_eq!(contract.total_issued(), 7);
        assert_eq!(tokens.len(), 7);
        assert_eq!(balance_of(accounts.django) - withdraw_before, 7000);
        assert_eq!(balance_of(accounts.eve) - dev_before, 70);
        assert_eq!(balance(), 0);
    });
}
