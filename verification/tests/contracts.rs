use maxima_hyper_pi::bridge::CrossChainBridge;
use maxima_hyper_pi::bytemap::ByteMap;
use maxima_hyper_pi::hash::{DIGEST_LEN, HASH_INPUT_MAX};
use maxima_hyper_pi::stablecoin::{ContractError, MaximaStablecoinContract, CONTRACT_STABLE_VALUE};
use maxima_hyper_pi::symbol::{Address, Symbol, SYMBOL_MAX_LEN};

const MINING: &[u8] = b"GA1234567890123456789012345678901234567890";
const REWARDS: &[u8] = b"GAabcdefabcdefabcdefabcdefabcdefabcdefabcd";

fn address(text: &[u8]) -> Address {
    Address::new(text)
}

fn symbol(text: &str) -> Symbol {
    Symbol::new(text.as_bytes()).unwrap()
}

fn initialised() -> (MaximaStablecoinContract, Address) {
    let owner = address(b"GOWNER");
    let mut contract = MaximaStablecoinContract::new();
    contract.init(&owner);
    (contract, owner)
}

#[test]
fn symbols_are_short_and_plain() {
    assert!(Symbol::new(b"pi_coin_123").is_some());
    assert!(Symbol::new(b"").is_some());
    assert!(Symbol::new(b"AZaz09_").is_some());
    assert!(Symbol::new(&[b'a'; SYMBOL_MAX_LEN]).is_some());
    assert!(Symbol::new(&[b'a'; SYMBOL_MAX_LEN + 1]).is_none());
    for bad in [&b"pi-coin"[..], b"pi coin", b"pi.coin", b"caf\xc3\xa9", b"@", b"[", b"`", b"{", b"/", b":"] {
        assert!(Symbol::new(bad).is_none());
    }
    let s = symbol("ethereum");
    assert_eq!(s.as_bytes(), b"ethereum");
    assert!(s.same(&s.duplicate()));
    assert!(!s.same(&symbol("Ethereum")));
    let a = Address::from_symbol(&s);
    assert_eq!(a.as_bytes(), b"ethereum");
    assert!(a.same(&a.duplicate()));
    assert!(!a.same(&address(b"other")));
}

#[test]
fn byte_map_keeps_the_last_value_per_key() {
    let mut map: ByteMap<i128> = ByteMap::new();
    assert_eq!(map.get(b"a"), None);
    map.set(b"a", 1);
    map.set(b"b", 2);
    map.set(b"a", 3);
    map.set(b"", 4);
    assert_eq!(map.get(b"a"), Some(3));
    assert_eq!(map.get(b"b"), Some(2));
    assert_eq!(map.get(b""), Some(4));
    assert_eq!(map.get(b"ab"), None);
}

#[test]
fn digest_is_sha256() {
    let expected: [u8; 32] = [
        0xba, 0x78, 0x16, 0xbf, 0x8f, 0x01, 0xcf, 0xea, 0x41, 0x41, 0x40, 0xde, 0x5d, 0xae, 0x22,
        0x23, 0xb0, 0x03, 0x61, 0xa3, 0x96, 0x17, 0x7a, 0x9c, 0xb4, 0x10, 0xff, 0x61, 0xf2, 0x00,
        0x15, 0xad,
    ];
    assert_eq!(MaximaStablecoinContract::quantum_verify(b"abc"), expected.to_vec());
    assert_eq!(MaximaStablecoinContract::quantum_verify(b"").len(), DIGEST_LEN);
    assert_eq!(HASH_INPUT_MAX, 1_048_576);
    assert_eq!(MaximaStablecoinContract::quantum_verify(&vec![0u8; HASH_INPUT_MAX]).len(), DIGEST_LEN);
    assert_ne!(MaximaStablecoinContract::quantum_verify(b"abc"), MaximaStablecoinContract::quantum_verify(b"abd"));
}

#[test]
fn restored_storage_is_what_was_handed_in() {
    let mut sources: ByteMap<bool> = ByteMap::new();
    sources.set(b"GALICE", true);
    sources.set(b"GBOB", false);
    let mut rejected: ByteMap<bool> = ByteMap::new();
    rejected.set(b"bad_coin", true);
    let mut balances: ByteMap<i128> = ByteMap::new();
    balances.set(b"GALICE", 7);
    let contract = MaximaStablecoinContract::restore(
        Some(address(b"GOWNER")),
        Some(sources),
        rejected,
        balances,
    );
    assert_eq!(contract.check_owner(&address(b"GOWNER")), Ok(()));
    assert_eq!(contract.source_flag(&address(b"GALICE")), Some(true));
    assert_eq!(contract.source_flag(&address(b"GBOB")), Some(false));
    assert_eq!(contract.source_flag(&address(b"GCAROL")), None);
    assert_eq!(contract.check_valid_source(&address(b"GBOB")), Err(ContractError::InvalidAction));
    assert!(contract.check_and_reject(&symbol("bad_coin")));
    assert_eq!(contract.balance(&address(b"GALICE")), 7);
    let bare = MaximaStablecoinContract::restore(None, None, ByteMap::new(), ByteMap::new());
    assert_eq!(bare.source_flag(&address(b"GALICE")), None);
    assert_eq!(bare.check_owner(&address(b"GOWNER")), Err(ContractError::Uninitialized));
    let mut bridged: ByteMap<i128> = ByteMap::new();
    bridged.set(b"pi_coin_1", 314159);
    let bridge = CrossChainBridge::restore(symbol("ethereum"), bridged, Some(314));
    assert_eq!(bridge.get_bridge_status(&symbol("pi_coin_1")), 314159);
    assert_eq!(bridge.last_fee(), Some(314));
}

#[test]
fn balance_overflow_aborts_the_invocation() {
    let mut balances: ByteMap<i128> = ByteMap::new();
    balances.set(b"GALICE", i128::MAX);
    balances.set(MINING, i128::MIN);
    let mut sources: ByteMap<bool> = ByteMap::new();
    sources.set(MINING, true);
    let owner = address(b"GOWNER");
    let mut contract = MaximaStablecoinContract::restore(
        Some(owner.duplicate()),
        Some(sources),
        ByteMap::new(),
        balances,
    );
    let coin = symbol("pi_coin_1");
    let alice = address(b"GALICE");
    let mining = address(MINING);
    assert_eq!(
        contract.mint_pi(&owner, &alice, 314159, &coin, &mining),
        Err(ContractError::Overflow)
    );
    assert_eq!(
        contract.transfer_pi(&mining, &owner, 314159, &coin),
        Err(ContractError::Overflow)
    );
    assert_eq!(contract.balance(&alice), i128::MAX);
    assert_eq!(contract.balance(&mining), i128::MIN);
    assert_eq!(contract.balance(&owner), 0);
}

#[test]
fn uninitialised_contract_refuses_everything() {
    let mut contract = MaximaStablecoinContract::new();
    let anyone = address(b"GANYONE");
    let coin = symbol("pi_coin_1");
    assert_eq!(contract.check_owner(&anyone), Err(ContractError::Uninitialized));
    assert_eq!(contract.check_valid_source(&anyone), Err(ContractError::Uninitialized));
    assert_eq!(contract.mark_rejected_coin(&anyone, &coin), Err(ContractError::Uninitialized));
    assert_eq!(
        contract.transfer_pi(&anyone, &anyone, CONTRACT_STABLE_VALUE, &coin),
        Err(ContractError::Uninitialized)
    );
    assert_eq!(
        contract.mint_pi(&anyone, &anyone, CONTRACT_STABLE_VALUE, &coin, &anyone),
        Err(ContractError::Uninitialized)
    );
    assert_eq!(contract.burn_rejected_pi(&anyone, &coin), Err(ContractError::Uninitialized));
    assert_eq!(
        contract.update_valid_source(&anyone, &anyone, true),
        Err(ContractError::Uninitialized)
    );
    assert!(!contract.check_and_reject(&coin));
    assert_eq!(contract.balance(&anyone), 0);
}

#[test]
fn init_sets_owner_and_sources() {
    let (contract, owner) = initialised();
    assert_eq!(contract.check_owner(&owner), Ok(()));
    assert_eq!(contract.check_owner(&address(b"GOTHER")), Err(ContractError::InvalidAction));
    assert_eq!(contract.check_valid_source(&address(MINING)), Ok(()));
    assert_eq!(contract.check_valid_source(&address(REWARDS)), Ok(()));
    assert_eq!(contract.check_valid_source(&owner), Err(ContractError::InvalidAction));
}

#[test]
fn mint_needs_owner_valid_source_amount_and_clean_coin() {
    let (mut contract, owner) = initialised();
    let alice = address(b"GALICE");
    let mining = address(MINING);
    let coin = symbol("pi_coin_1");
    assert_eq!(
        contract.mint_pi(&alice, &alice, 314159, &coin, &mining),
        Err(ContractError::InvalidAction)
    );
    assert_eq!(
        contract.mint_pi(&owner, &alice, 314159, &coin, &alice),
        Err(ContractError::InvalidAction)
    );
    assert_eq!(
        contract.mint_pi(&owner, &alice, 314158, &coin, &mining),
        Err(ContractError::InvalidAction)
    );
    assert_eq!(contract.balance(&alice), 0);
    assert_eq!(contract.mint_pi(&owner, &alice, 314159, &coin, &mining), Ok(()));
    assert_eq!(contract.balance(&alice), 314159);
    assert_eq!(contract.mint_pi(&owner, &alice, 314159, &coin, &mining), Ok(()));
    assert_eq!(contract.balance(&alice), 628318);
    assert_eq!(contract.mark_rejected_coin(&owner, &coin), Ok(()));
    assert_eq!(
        contract.mint_pi(&owner, &alice, 314159, &coin, &mining),
        Err(ContractError::InvalidAction)
    );
    assert_eq!(contract.balance(&alice), 628318);
}

#[test]
fn transfer_moves_the_fixed_amount_between_balances() {
    let (mut contract, owner) = initialised();
    let mining = address(MINING);
    let alice = address(b"GALICE");
    let coin = symbol("pi_coin_1");
    assert_eq!(contract.mint_pi(&owner, &mining, 314159, &coin, &mining), Ok(()));
    assert_eq!(contract.transfer_pi(&mining, &alice, 314159, &coin), Ok(()));
    assert_eq!(contract.balance(&mining), 0);
    assert_eq!(contract.balance(&alice), 314159);
    assert_eq!(contract.transfer_pi(&mining, &alice, 314159, &coin), Ok(()));
    assert_eq!(contract.balance(&mining), -314159);
    assert_eq!(contract.balance(&alice), 628318);
    assert_eq!(contract.transfer_pi(&mining, &mining, 314159, &coin), Ok(()));
    assert_eq!(contract.balance(&mining), -314159);
}

#[test]
fn transfer_refuses_wrong_invoker_amount_or_coin() {
    let (mut contract, owner) = initialised();
    let mining = address(MINING);
    let alice = address(b"GALICE");
    let coin = symbol("pi_coin_1");
    assert_eq!(
        contract.transfer_pi(&alice, &mining, 314159, &coin),
        Err(ContractError::InvalidAction)
    );
    assert_eq!(
        contract.transfer_pi(&owner, &mining, 314159, &coin),
        Err(ContractError::InvalidAction)
    );
    for amount in [0, 1, -314159, 314160, i128::MAX, i128::MIN] {
        assert_eq!(
            contract.transfer_pi(&mining, &alice, amount, &coin),
            Err(ContractError::InvalidAction)
        );
    }
    assert_eq!(contract.mark_rejected_coin(&alice, &coin), Err(ContractError::InvalidAction));
    assert!(!contract.check_and_reject(&coin));
    assert_eq!(contract.mark_rejected_coin(&owner, &coin), Ok(()));
    assert!(contract.check_and_reject(&coin));
    assert_eq!(
        contract.transfer_pi(&mining, &alice, 314159, &coin),
        Err(ContractError::InvalidAction)
    );
    assert_eq!(contract.transfer_pi(&mining, &alice, 314159, &symbol("pi_coin_2")), Ok(()));
    assert_eq!(contract.balance(&alice), 314159);
}

#[test]
fn burn_zeroes_the_balance_of_a_rejected_coin() {
    let (mut contract, owner) = initialised();
    let mining = address(MINING);
    let coin = symbol("pi_coin_1");
    let holder = Address::from_symbol(&coin);
    assert_eq!(contract.mint_pi(&owner, &holder, 314159, &symbol("other"), &mining), Ok(()));
    assert_eq!(contract.burn_rejected_pi(&owner, &coin), Err(ContractError::InvalidAction));
    assert_eq!(contract.balance(&holder), 314159);
    assert_eq!(contract.mark_rejected_coin(&owner, &coin), Ok(()));
    assert_eq!(contract.burn_rejected_pi(&mining, &coin), Err(ContractError::InvalidAction));
    assert_eq!(contract.burn_rejected_pi(&owner, &coin), Ok(()));
    assert_eq!(contract.balance(&holder), 0);
}

#[test]
fn owner_updates_the_list_of_sources() {
    let (mut contract, owner) = initialised();
    let alice = address(b"GALICE");
    let mining = address(MINING);
    assert_eq!(
        contract.update_valid_source(&alice, &alice, true),
        Err(ContractError::InvalidAction)
    );
    assert_eq!(contract.update_valid_source(&owner, &alice, true), Ok(()));
    assert_eq!(contract.check_valid_source(&alice), Ok(()));
    assert_eq!(contract.update_valid_source(&owner, &mining, false), Ok(()));
    assert_eq!(contract.check_valid_source(&mining), Err(ContractError::InvalidAction));
    assert_eq!(contract.check_valid_source(&address(REWARDS)), Ok(()));
}

#[test]
fn bridge_locks_and_unlocks_on_proof() {
    let mut bridge = CrossChainBridge::init_bridge(symbol("ethereum"));
    let coin = symbol("pi_coin_1");
    let chain = symbol("ethereum");
    let recipient = address(b"GRECIPIENT");
    assert_eq!(bridge.get_bridge_status(&coin), 0);
    let proof = MaximaStablecoinContract::quantum_verify(coin.as_bytes());
    assert_eq!(bridge.unlock_from_bridge(&coin, &proof), Err(ContractError::InvalidAction));
    let event = bridge.lock_for_bridge(&coin, 314159, &chain, &recipient).ok().unwrap();
    assert_eq!(event.pi_coin_id.as_bytes(), b"pi_coin_1");
    assert_eq!(event.target_chain.as_bytes(), b"ethereum");
    assert_eq!(event.recipient.as_bytes(), b"GRECIPIENT");
    assert_eq!(bridge.get_bridge_status(&coin), 314159);
    assert_eq!(bridge.get_bridge_status(&symbol("pi_coin_2")), 0);
    assert_eq!(bridge.unlock_from_bridge(&coin, b"not a proof"), Err(ContractError::InvalidAction));
    assert_eq!(
        bridge.unlock_from_bridge(&coin, coin.as_bytes()),
        Err(ContractError::InvalidAction)
    );
    assert_eq!(bridge.get_bridge_status(&coin), 314159);
    assert_eq!(bridge.unlock_from_bridge(&coin, &proof), Ok(()));
    assert_eq!(bridge.get_bridge_status(&coin), 0);
    assert_eq!(bridge.unlock_from_bridge(&coin, &proof), Err(ContractError::InvalidAction));
}

#[test]
fn bridge_refuses_wrong_amount_and_exchange_coins() {
    let mut bridge = CrossChainBridge::init_bridge(symbol("ethereum"));
    let chain = symbol("ethereum");
    let recipient = address(b"GRECIPIENT");
    let coin = symbol("pi_coin_1");
    assert!(bridge.lock_for_bridge(&coin, 314158, &chain, &recipient).is_err());
    assert_eq!(bridge.get_bridge_status(&coin), 0);
    for name in ["exchange_wallet_1", "x_exchange_wallet_2_y", "exchange_wallet_1exchange_wallet"] {
        let tainted = symbol(name);
        assert!(CrossChainBridge::is_rejected(&tainted));
        assert!(matches!(
            bridge.lock_for_bridge(&tainted, 314159, &chain, &recipient),
            Err(ContractError::InvalidAction)
        ));
        assert_eq!(bridge.get_bridge_status(&tainted), 0);
    }
    assert!(!CrossChainBridge::is_rejected(&symbol("exchange_wallet_3")));
    assert!(!CrossChainBridge::is_rejected(&symbol("Exchange_Wallet_1")));
    assert!(!CrossChainBridge::is_rejected(&coin));
}

#[test]
fn proof_is_the_digest_of_the_coin_name() {
    let coin = symbol("pi_coin_1");
    assert!(CrossChainBridge::verify_proof(&MaximaStablecoinContract::quantum_verify(b"pi_coin_1"), &coin));
    assert!(!CrossChainBridge::verify_proof(&MaximaStablecoinContract::quantum_verify(b"pi_coin_2"), &coin));
    assert!(!CrossChainBridge::verify_proof(b"", &coin));
    let event = CrossChainBridge::emit_bridge_event(&coin, &symbol("solana"), &address(b"GR"));
    assert_eq!(event.target_chain.as_bytes(), b"solana");
}

#[test]
fn fee_is_a_thousandth_rounded_towards_zero() {
    let mut bridge = CrossChainBridge::init_bridge(symbol("ethereum"));
    assert_eq!(bridge.last_fee(), None);
    assert_eq!(bridge.calculate_bridge_fee(314159), 314);
    assert_eq!(bridge.last_fee(), Some(314));
    assert_eq!(bridge.calculate_bridge_fee(999), 0);
    assert_eq!(bridge.calculate_bridge_fee(1000), 1);
    assert_eq!(bridge.calculate_bridge_fee(0), 0);
    assert_eq!(bridge.calculate_bridge_fee(-1999), -1);
    assert_eq!(bridge.calculate_bridge_fee(-999), 0);
    assert_eq!(bridge.calculate_bridge_fee(i128::MAX), i128::MAX / 1000);
    assert_eq!(bridge.calculate_bridge_fee(i128::MIN), i128::MIN / 1000);
}
