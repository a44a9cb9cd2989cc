//! The cross-chain bridge as a contract: coins locked for another chain,
//! and the fee last computed.
//!
//! An operation that fails leaves the storage exactly as it found it.

use vstd::prelude::*;
use vstd::string::StringSliceAdditionalSpecFns;
use crate::bytemap::ByteMap;
use crate::hash::{host_sha256, sha256_of};
use crate::stablecoin::{ContractError, CONTRACT_STABLE_VALUE};
use crate::symbol::{Address, Symbol};
use crate::text::{bytes_equal, contains_bytes, occurs_in};

verus! {

/// What the bridge announces when a coin is locked.
pub struct BridgeEvent {
    /// The coin that was locked.
    pub pi_coin_id: Symbol,
    /// The chain it is bound for.
    pub target_chain: Symbol,
    /// Who receives it there.
    pub recipient: Address,
}

/// The coin's name contains the name of an exchange wallet.
pub open spec fn names_exchange(coin: Seq<u8>) -> bool {
    occurs_in(coin, "exchange_wallet_1".spec_bytes()) || occurs_in(
        coin,
        "exchange_wallet_2".spec_bytes(),
    )
}

/// The amount stored under `coin`, zero where none is stored.
pub open spec fn locked_amount(bridged: Map<Seq<u8>, i128>, coin: Seq<u8>) -> i128 {
    if bridged.dom().contains(coin) {
        bridged[coin]
    } else {
        0
    }
}

/// A thousandth of the amount, rounded towards zero.
pub open spec fn bridge_fee(amount: int) -> int {
    if amount >= 0 {
        amount / 1000
    } else {
        -((-amount) / 1000)
    }
}

/// Whether a coin may be locked.
pub open spec fn lock_outcome(amount: i128, coin: Seq<u8>) -> Result<(), ContractError> {
    if amount != CONTRACT_STABLE_VALUE || names_exchange(coin) {
        Err(ContractError::InvalidAction)
    } else {
        Ok(())
    }
}

/// Whether a coin may be unlocked: something must be locked under its
/// name, and the proof must be the digest of that name.
pub open spec fn unlock_outcome(bridged: Map<Seq<u8>, i128>, coin: Seq<u8>, proof: Seq<u8>) -> Result<
    (),
    ContractError,
> {
    if locked_amount(bridged, coin) == 0 || proof != sha256_of(coin) {
        Err(ContractError::InvalidAction)
    } else {
        Ok(())
    }
}

/// The bridge's storage.
pub struct CrossChainBridge {
    target_chain: Symbol,
    bridged: ByteMap<i128>,
    fee: Option<i128>,
}

impl CrossChainBridge {
    /// The table of locked coins is well formed.
    pub closed spec fn wf(&self) -> bool {
        self.bridged.wf()
    }

    /// The chain the bridge was set up for.
    pub closed spec fn target_chain(&self) -> Seq<u8> {
        self.target_chain@
    }

    /// The locked amounts, by coin.
    pub closed spec fn bridged(&self) -> Map<Seq<u8>, i128> {
        self.bridged@
    }

    /// The fee last computed, if any.
    pub closed spec fn fee(&self) -> Option<i128> {
        self.fee
    }

    /// Sets up a bridge to the target chain, with nothing locked.
    pub fn init_bridge(target_chain: Symbol) -> (bridge: Self)
        ensures
            bridge.wf(),
            bridge.target_chain() == target_chain@,
            bridge.bridged() == Map::<Seq<u8>, i128>::empty(),
            bridge.fee() is None,
    {
        CrossChainBridge { target_chain, bridged: ByteMap::new(), fee: None }
    }

    /// A bridge whose storage holds the given entries.
    pub fn restore(target_chain: Symbol, bridged: ByteMap<i128>, fee: Option<i128>) -> (bridge: Self)
        requires
            bridged.wf(),
        ensures
            bridge.wf(),
            bridge.target_chain() == target_chain@,
            bridge.bridged() == bridged@,
            bridge.fee() == fee,
    {
        CrossChainBridge { target_chain, bridged, fee }
    }

    /// Reads the fee last computed.
    pub fn last_fee(&self) -> (fee: Option<i128>)
        ensures
            fee == self.fee(),
    {
        self.fee
    }

    /// Tells whether a coin is rejected for its exposure to an exchange.
    pub fn is_rejected(pi_coin_id: &Symbol) -> (rejected: bool)
        ensures
            rejected == names_exchange(pi_coin_id@),
    {
        let name = pi_coin_id.as_bytes();
        contains_bytes(name, "exchange_wallet_1".as_bytes()) || contains_bytes(
            name,
            "exchange_wallet_2".as_bytes(),
        )
    }

    /// Tells whether the proof is the digest of the coin's name.
    pub fn verify_proof(proof: &[u8], pi_coin_id: &Symbol) -> (ok: bool)
        ensures
            ok == (proof@ == sha256_of(pi_coin_id@)),
    {
        let expected = host_sha256(pi_coin_id.as_bytes());
        bytes_equal(proof, expected.as_slice())
    }

    /// Builds the announcement of a lock.
    pub fn emit_bridge_event(pi_coin_id: &Symbol, target_chain: &Symbol, recipient: &Address) -> (event:
        BridgeEvent)
        ensures
            event.pi_coin_id@ == pi_coin_id@,
            event.target_chain@ == target_chain@,
            event.recipient@ == recipient@,
    {
        BridgeEvent {
            pi_coin_id: pi_coin_id.duplicate(),
            target_chain: target_chain.duplicate(),
            recipient: recipient.duplicate(),
        }
    }

    /// Locks a coin for transfer to another chain. The amount must be the
    /// stable value and the coin must not be rejected.
    pub fn lock_for_bridge(
        &mut self,
        pi_coin_id: &Symbol,
        amount: i128,
        target_chain: &Symbol,
        recipient: &Address,
    ) -> (result: Result<BridgeEvent, ContractError>)
        requires
            old(self).wf(),
        ensures
            final(self).wf(),
            final(self).target_chain() == old(self).target_chain(),
            final(self).fee() == old(self).fee(),
            match result {
                Ok(event) => {
                    &&& lock_outcome(amount, pi_coin_id@) is Ok
                    &&& final(self).bridged() == old(self).bridged().insert(pi_coin_id@, amount)
                    &&& event.pi_coin_id@ == pi_coin_id@
                    &&& event.target_chain@ == target_chain@
                    &&& event.recipient@ == recipient@
                },
                Err(error) => {
                    &&& lock_outcome(amount, pi_coin_id@) == Err::<(), ContractError>(error)
                    &&& *final(self) == *old(self)
                },
            },
    {
        if amount != CONTRACT_STABLE_VALUE || Self::is_rejected(pi_coin_id) {
            return Err(ContractError::InvalidAction);
        }
        self.bridged.set(pi_coin_id.as_bytes(), amount);
        Ok(Self::emit_bridge_event(pi_coin_id, target_chain, recipient))
    }

    /// Unlocks a coin after its transfer, on proof.
    pub fn unlock_from_bridge(&mut self, pi_coin_id: &Symbol, proof: &[u8]) -> (result: Result<
        (),
        ContractError,
    >)
        requires
            old(self).wf(),
        ensures
            final(self).wf(),
            final(self).target_chain() == old(self).target_chain(),
            final(self).fee() == old(self).fee(),
            result == unlock_outcome(old(self).bridged(), pi_coin_id@, proof@),
            result is Err ==> *final(self) == *old(self),
            result is Ok ==> final(self).bridged() == old(self).bridged().insert(pi_coin_id@, 0),
    {
        if self.get_bridge_status(pi_coin_id) == 0 {
            return Err(ContractError::InvalidAction);
        }
        if !Self::verify_proof(proof, pi_coin_id) {
            return Err(ContractError::InvalidAction);
        }
        self.bridged.set(pi_coin_id.as_bytes(), 0);
        Ok(())
    }

    /// Computes the fee for an amount, a thousandth rounded towards zero,
    /// and keeps it as the fee last computed.
    pub fn calculate_bridge_fee(&mut self, amount: i128) -> (fee: i128)
        ensures
            fee == bridge_fee(amount as int),
            final(self).fee() == Some(fee),
            final(self).bridged() == old(self).bridged(),
            final(self).target_chain() == old(self).target_chain(),
            old(self).wf() ==> final(self).wf(),
    {
        let fee = amount / 1000;
        self.fee = Some(fee);
        fee
    }

    /// The amount locked under a coin's name, zero if none.
    pub fn get_bridge_status(&self, pi_coin_id: &Symbol) -> (amount: i128)
        requires
            self.wf(),
        ensures
            amount == locked_amount(self.bridged(), pi_coin_id@),
    {
        match self.bridged.get(pi_coin_id.as_bytes()) {
            Some(amount) => amount,
            None => 0,
        }
    }
}

} // verus!
