//! The stable-value token as a contract: an owner, a list of valid
//! sources, a denylist of coins and a table of balances.
//!
//! Every operation names its invoker. An operation that fails leaves the
//! storage exactly as it found it.

use vstd::prelude::*;
use vstd::string::StringSliceAdditionalSpecFns;
use crate::bytemap::ByteMap;
use crate::hash::{host_sha256, sha256_of, DIGEST_LEN, HASH_INPUT_MAX};
use crate::symbol::{Address, Symbol};

verus! {

/// The one amount that the contract moves or mints, in stroops.
pub const CONTRACT_STABLE_VALUE: i128 = 314159;

/// Why an invocation was aborted.
#[derive(Clone, Copy, Debug, PartialEq, Eq, Structural)]
pub enum ContractError {
    /// Wrong amount, wrong invoker, a source that is not valid, or a coin
    /// in the wrong rejection state.
    InvalidAction,
    /// The contract holds no owner or no list of sources yet.
    Uninitialized,
    /// A balance would leave the range of its type.
    Overflow,
}

/// The mining address, valid from initialisation on.
pub open spec fn mining_address() -> Seq<u8> {
    "GA1234567890123456789012345678901234567890".spec_bytes()
}

/// The rewards address, valid from initialisation on.
pub open spec fn rewards_address() -> Seq<u8> {
    "GAabcdefabcdefabcdefabcdefabcdefabcdefabcd".spec_bytes()
}

/// The list of sources right after initialisation.
pub open spec fn initial_sources() -> Map<Seq<u8>, bool> {
    Map::<Seq<u8>, bool>::empty().insert(mining_address(), true).insert(rewards_address(), true)
}

/// The flag stored under `key`, false where none is stored.
pub open spec fn flag_of(flags: Map<Seq<u8>, bool>, key: Seq<u8>) -> bool {
    flags.dom().contains(key) && flags[key]
}

/// The balance stored for `address`, zero where none is stored.
pub open spec fn balance_of(balances: Map<Seq<u8>, i128>, address: Seq<u8>) -> int {
    if balances.dom().contains(address) {
        balances[address] as int
    } else {
        0
    }
}

/// The invoker is the owner.
pub open spec fn owner_check(owner: Option<Seq<u8>>, invoker: Seq<u8>) -> Result<
    (),
    ContractError,
> {
    match owner {
        None => Err(ContractError::Uninitialized),
        Some(address) => if address == invoker {
            Ok(())
        } else {
            Err(ContractError::InvalidAction)
        },
    }
}

/// The source is on the list and marked valid.
pub open spec fn source_check(sources: Option<Map<Seq<u8>, bool>>, source: Seq<u8>) -> Result<
    (),
    ContractError,
> {
    match sources {
        None => Err(ContractError::Uninitialized),
        Some(flags) => if flag_of(flags, source) {
            Ok(())
        } else {
            Err(ContractError::InvalidAction)
        },
    }
}

/// The amount is the stable value and the coin is not rejected.
pub open spec fn coin_check(rejected: Map<Seq<u8>, bool>, amount: i128, coin: Seq<u8>) -> Result<
    (),
    ContractError,
> {
    if amount != CONTRACT_STABLE_VALUE || flag_of(rejected, coin) {
        Err(ContractError::InvalidAction)
    } else {
        Ok(())
    }
}

/// The value fits a balance.
pub open spec fn fits(value: int) -> bool {
    i128::MIN <= value <= i128::MAX
}

/// The balances after `amount` has gone from `from` to `to`, if both new
/// balances fit. The debit is booked first, so a transfer to oneself
/// changes nothing.
pub open spec fn moved(
    balances: Map<Seq<u8>, i128>,
    from: Seq<u8>,
    to: Seq<u8>,
    amount: i128,
) -> Option<Map<Seq<u8>, i128>> {
    let reduced = balance_of(balances, from) - amount;
    if !fits(reduced) {
        None
    } else {
        let debited = balances.insert(from, reduced as i128);
        let raised = balance_of(debited, to) + amount;
        if !fits(raised) {
            None
        } else {
            Some(debited.insert(to, raised as i128))
        }
    }
}

/// The balances after `amount` has been added for `to`, if the new balance fits.
pub open spec fn credited(balances: Map<Seq<u8>, i128>, to: Seq<u8>, amount: i128) -> Option<
    Map<Seq<u8>, i128>,
> {
    let raised = balance_of(balances, to) + amount;
    if fits(raised) {
        Some(balances.insert(to, raised as i128))
    } else {
        None
    }
}

/// The contract's storage.
pub struct MaximaStablecoinContract {
    owner: Option<Address>,
    has_sources: bool,
    sources: ByteMap<bool>,
    rejected: ByteMap<bool>,
    balances: ByteMap<i128>,
}

impl MaximaStablecoinContract {
    /// The tables are well formed.
    pub closed spec fn wf(&self) -> bool {
        self.sources.wf() && self.rejected.wf() && self.balances.wf()
    }

    /// The owner, once the contract is initialised.
    pub closed spec fn owner(&self) -> Option<Seq<u8>> {
        match self.owner {
            Some(address) => Some(address@),
            None => None,
        }
    }

    /// The list of sources, once the contract is initialised.
    pub closed spec fn valid_sources(&self) -> Option<Map<Seq<u8>, bool>> {
        if self.has_sources {
            Some(self.sources@)
        } else {
            None
        }
    }

    /// The rejection flags, by coin.
    pub closed spec fn rejected(&self) -> Map<Seq<u8>, bool> {
        self.rejected@
    }

    /// The balances, by address.
    pub closed spec fn balances(&self) -> Map<Seq<u8>, i128> {
        self.balances@
    }

    /// Whether a transfer by `invoker` goes through.
    pub open spec fn transfer_outcome(
        &self,
        invoker: Seq<u8>,
        to: Seq<u8>,
        amount: i128,
        coin: Seq<u8>,
    ) -> Result<(), ContractError> {
        if source_check(self.valid_sources(), invoker) is Err {
            source_check(self.valid_sources(), invoker)
        } else if coin_check(self.rejected(), amount, coin) is Err {
            coin_check(self.rejected(), amount, coin)
        } else if moved(self.balances(), invoker, to, amount) is None {
            Err(ContractError::Overflow)
        } else {
            Ok(())
        }
    }

    /// Whether a mint by `invoker` goes through.
    pub open spec fn mint_outcome(
        &self,
        invoker: Seq<u8>,
        to: Seq<u8>,
        amount: i128,
        coin: Seq<u8>,
        source: Seq<u8>,
    ) -> Result<(), ContractError> {
        if owner_check(self.owner(), invoker) is Err {
            owner_check(self.owner(), invoker)
        } else if source_check(self.valid_sources(), source) is Err {
            source_check(self.valid_sources(), source)
        } else if coin_check(self.rejected(), amount, coin) is Err {
            coin_check(self.rejected(), amount, coin)
        } else if credited(self.balances(), to, amount) is None {
            Err(ContractError::Overflow)
        } else {
            Ok(())
        }
    }

    /// Whether a burn by `invoker` goes through.
    pub open spec fn burn_outcome(&self, invoker: Seq<u8>, coin: Seq<u8>) -> Result<
        (),
        ContractError,
    > {
        if owner_check(self.owner(), invoker) is Err {
            owner_check(self.owner(), invoker)
        } else if !flag_of(self.rejected(), coin) {
            Err(ContractError::InvalidAction)
        } else {
            Ok(())
        }
    }

    /// Whether an update of the sources by `invoker` goes through.
    pub open spec fn update_outcome(&self, invoker: Seq<u8>) -> Result<(), ContractError> {
        if owner_check(self.owner(), invoker) is Err {
            owner_check(self.owner(), invoker)
        } else if self.valid_sources() is None {
            Err(ContractError::Uninitialized)
        } else {
            Ok(())
        }
    }

    /// A contract whose storage is empty.
    pub fn new() -> (contract: Self)
        ensures
            contract.wf(),
            contract.owner() is None,
            contract.valid_sources() is None,
            contract.rejected() == Map::<Seq<u8>, bool>::empty(),
            contract.balances() == Map::<Seq<u8>, i128>::empty(),
    {
        MaximaStablecoinContract {
            owner: None,
            has_sources: false,
            sources: ByteMap::new(),
            rejected: ByteMap::new(),
            balances: ByteMap::new(),
        }
    }

    /// A contract whose storage holds the given entries.
    pub fn restore(
        owner: Option<Address>,
        sources: Option<ByteMap<bool>>,
        rejected: ByteMap<bool>,
        balances: ByteMap<i128>,
    ) -> (contract: Self)
        requires
            sources matches Some(flags) ==> flags.wf(),
            rejected.wf(),
            balances.wf(),
        ensures
            contract.wf(),
            contract.owner() == match owner {
                Some(address) => Some(address@),
                None => None,
            },
            contract.valid_sources() == match sources {
                Some(flags) => Some(flags@),
                None => None,
            },
            contract.rejected() == rejected@,
            contract.balances() == balances@,
    {
        match sources {
            Some(flags) => MaximaStablecoinContract {
                owner,
                has_sources: true,
                sources: flags,
                rejected,
                balances,
            },
            None => MaximaStablecoinContract {
                owner,
                has_sources: false,
                sources: ByteMap::new(),
                rejected,
                balances,
            },
        }
    }

    /// Hashes data of at most `HASH_INPUT_MAX` bytes.
    pub fn quantum_verify(data: &[u8]) -> (digest: Vec<u8>)
        requires
            data@.len() <= HASH_INPUT_MAX,
        ensures
            digest@ == sha256_of(data@),
            digest@.len() == DIGEST_LEN,
    {
        host_sha256(data)
    }

    /// Reads the flag stored for a source, if there is a list and the
    /// source is on it.
    pub fn source_flag(&self, source: &Address) -> (flag: Option<bool>)
        requires
            self.wf(),
        ensures
            flag == match self.valid_sources() {
                Some(flags) => if flags.dom().contains(source@) {
                    Some(flags[source@])
                } else {
                    None
                },
                None => None,
            },
    {
        if self.has_sources {
            self.sources.get(source.as_bytes())
        } else {
            None
        }
    }

    /// Makes the invoker the owner and sets the list of sources to the
    /// mining and the rewards address.
    pub fn init(&mut self, invoker: &Address)
        requires
            old(self).wf(),
        ensures
            final(self).wf(),
            final(self).owner() == Some(invoker@),
            final(self).valid_sources() == Some(initial_sources()),
            final(self).rejected() == old(self).rejected(),
            final(self).balances() == old(self).balances(),
    {
        let mut sources: ByteMap<bool> = ByteMap::new();
        sources.set("GA1234567890123456789012345678901234567890".as_bytes(), true);
        sources.set("GAabcdefabcdefabcdefabcdefabcdefabcdefabcd".as_bytes(), true);
        self.owner = Some(invoker.duplicate());
        self.has_sources = true;
        self.sources = sources;
    }

    /// Tells whether the invoker is the owner.
    pub fn check_owner(&self, invoker: &Address) -> (result: Result<(), ContractError>)
        ensures
            result == owner_check(self.owner(), invoker@),
    {
        match &self.owner {
            None => Err(ContractError::Uninitialized),
            Some(address) => if address.same(invoker) {
                Ok(())
            } else {
                Err(ContractError::InvalidAction)
            },
        }
    }

    /// Tells whether the source is on the list and valid.
    pub fn check_valid_source(&self, source: &Address) -> (result: Result<(), ContractError>)
        requires
            self.wf(),
        ensures
            result == source_check(self.valid_sources(), source@),
    {
        if !self.has_sources {
            return Err(ContractError::Uninitialized);
        }
        match self.sources.get(source.as_bytes()) {
            Some(true) => Ok(()),
            _ => Err(ContractError::InvalidAction),
        }
    }

    /// Tells whether the coin is rejected.
    pub fn check_and_reject(&self, coin_id: &Symbol) -> (rejected: bool)
        requires
            self.wf(),
        ensures
            rejected == flag_of(self.rejected(), coin_id@),
    {
        match self.rejected.get(coin_id.as_bytes()) {
            Some(flag) => flag,
            None => false,
        }
    }

    /// Reads a balance.
    pub fn balance(&self, address: &Address) -> (balance: i128)
        requires
            self.wf(),
        ensures
            balance == balance_of(self.balances(), address@),
    {
        match self.balances.get(address.as_bytes()) {
            Some(balance) => balance,
            None => 0,
        }
    }

    /// Marks a coin as rejected. Only the owner may do so.
    pub fn mark_rejected_coin(&mut self, invoker: &Address, coin_id: &Symbol) -> (result: Result<
        (),
        ContractError,
    >)
        requires
            old(self).wf(),
        ensures
            final(self).wf(),
            result == owner_check(old(self).owner(), invoker@),
            result is Err ==> *final(self) == *old(self),
            result is Ok ==> {
                &&& final(self).rejected() == old(self).rejected().insert(coin_id@, true)
                &&& final(self).owner() == old(self).owner()
                &&& final(self).valid_sources() == old(self).valid_sources()
                &&& final(self).balances() == old(self).balances()
            },
    {
        match self.check_owner(invoker) {
            Err(error) => {
                return Err(error);
            },
            Ok(_) => {},
        }
        self.rejected.set(coin_id.as_bytes(), true);
        Ok(())
    }

    /// Moves the stable value from the invoker to `to`. The invoker must be
    /// a valid source, the amount the stable value, the coin not rejected.
    pub fn transfer_pi(&mut self, invoker: &Address, to: &Address, amount: i128, coin_id: &Symbol) -> (result:
        Result<(), ContractError>)
        requires
            old(self).wf(),
        ensures
            final(self).wf(),
            result == old(self).transfer_outcome(invoker@, to@, amount, coin_id@),
            result is Err ==> *final(self) == *old(self),
            result is Ok ==> {
                &&& Some(final(self).balances()) == moved(
                    old(self).balances(),
                    invoker@,
                    to@,
                    amount,
                )
                &&& final(self).owner() == old(self).owner()
                &&& final(self).valid_sources() == old(self).valid_sources()
                &&& final(self).rejected() == old(self).rejected()
            },
    {
        match self.check_valid_source(invoker) {
            Err(error) => {
                return Err(error);
            },
            Ok(_) => {},
        }
        if amount != CONTRACT_STABLE_VALUE || self.check_and_reject(coin_id) {
            return Err(ContractError::InvalidAction);
        }
        let reduced = match self.balance(invoker).checked_sub(amount) {
            Some(value) => value,
            None => {
                return Err(ContractError::Overflow);
            },
        };
        let base = if to.same(invoker) {
            reduced
        } else {
            self.balance(to)
        };
        let raised = match base.checked_add(amount) {
            Some(value) => value,
            None => {
                return Err(ContractError::Overflow);
            },
        };
        self.balances.set(invoker.as_bytes(), reduced);
        self.balances.set(to.as_bytes(), raised);
        Ok(())
    }

    /// Mints the stable value for `to`. Only the owner may do so, from a
    /// valid source, for a coin that is not rejected.
    pub fn mint_pi(
        &mut self,
        invoker: &Address,
        to: &Address,
        amount: i128,
        coin_id: &Symbol,
        source: &Address,
    ) -> (result: Result<(), ContractError>)
        requires
            old(self).wf(),
        ensures
            final(self).wf(),
            result == old(self).mint_outcome(invoker@, to@, amount, coin_id@, source@),
            result is Err ==> *final(self) == *old(self),
            result is Ok ==> {
                &&& Some(final(self).balances()) == credited(old(self).balances(), to@, amount)
                &&& final(self).owner() == old(self).owner()
                &&& final(self).valid_sources() == old(self).valid_sources()
                &&& final(self).rejected() == old(self).rejected()
            },
    {
        match self.check_owner(invoker) {
            Err(error) => {
                return Err(error);
            },
            Ok(_) => {},
        }
        match self.check_valid_source(source) {
            Err(error) => {
                return Err(error);
            },
            Ok(_) => {},
        }
        if amount != CONTRACT_STABLE_VALUE || self.check_and_reject(coin_id) {
            return Err(ContractError::InvalidAction);
        }
        let raised = match self.balance(to).checked_add(amount) {
            Some(value) => value,
            None => {
                return Err(ContractError::Overflow);
            },
        };
        self.balances.set(to.as_bytes(), raised);
        Ok(())
    }

    /// Burns a rejected coin: the balance held under the coin's name
    /// becomes zero. Only the owner may do so, and only for a rejected coin.
    pub fn burn_rejected_pi(&mut self, invoker: &Address, coin_id: &Symbol) -> (result: Result<
        (),
        ContractError,
    >)
        requires
            old(self).wf(),
        ensures
            final(self).wf(),
            result == old(self).burn_outcome(invoker@, coin_id@),
            result is Err ==> *final(self) == *old(self),
            result is Ok ==> {
                &&& final(self).balances() == old(self).balances().insert(coin_id@, 0)
                &&& final(self).owner() == old(self).owner()
                &&& final(self).valid_sources() == old(self).valid_sources()
                &&& final(self).rejected() == old(self).rejected()
            },
    {
        match self.check_owner(invoker) {
            Err(error) => {
                return Err(error);
            },
            Ok(_) => {},
        }
        if !self.check_and_reject(coin_id) {
            return Err(ContractError::InvalidAction);
        }
        let holder = Address::from_symbol(coin_id);
        self.balances.set(holder.as_bytes(), 0);
        Ok(())
    }

    /// Puts a source on the list, valid or not. Only the owner may do so.
    pub fn update_valid_source(&mut self, invoker: &Address, source: &Address, is_valid: bool) -> (result:
        Result<(), ContractError>)
        requires
            old(self).wf(),
        ensures
            final(self).wf(),
            result == old(self).update_outcome(invoker@),
            result is Err ==> *final(self) == *old(self),
            result is Ok ==> {
                &&& old(self).valid_sources() matches Some(sources)
                &&& final(self).valid_sources() == Some(sources.insert(source@, is_valid))
                &&& final(self).owner() == old(self).owner()
                &&& final(self).rejected() == old(self).rejected()
                &&& final(self).balances() == old(self).balances()
            },
    {
        match self.check_owner(invoker) {
            Err(error) => {
                return Err(error);
            },
            Ok(_) => {},
        }
        if !self.has_sources {
            return Err(ContractError::Uninitialized);
        }
        self.sources.set(source.as_bytes(), is_valid);
        Ok(())
    }
}

} // verus!
