//! Validator sets and the state of an epoch.

use crate::types::AccountAddress;
use std::sync::Arc;
use vstd::prelude::*;

verus! {

/// A validator of an epoch, with its weight in votes.
#[derive(Debug, Clone, Copy)]
pub struct ValidatorConsensusInfo {
    pub address: AccountAddress,
    pub voting_power: u64,
}

/// The validators of an epoch, in the order that gives each its index.
#[derive(Debug)]
pub struct ValidatorVerifier {
    pub validators: Vec<ValidatorConsensusInfo>,
}

/// Whether some validator in `validators` has the address `address`.
pub open spec fn has_validator(
    validators: Seq<ValidatorConsensusInfo>,
    address: AccountAddress,
) -> bool {
    exists|i: int| 0 <= i < validators.len() && (#[trigger] validators[i]).address == address
}

/// The index of the first validator with the address `address`, if there is one.
pub open spec fn first_index(
    validators: Seq<ValidatorConsensusInfo>,
    address: AccountAddress,
    index: Option<usize>,
) -> bool {
    match index {
        Some(i) => {
            &&& i < validators.len()
            &&& validators[i as int].address == address
            &&& forall|j: int| 0 <= j < i ==> (#[trigger] validators[j]).address != address
        },
        None => !has_validator(validators, address),
    }
}

impl ValidatorVerifier {
    /// The index of the validator with the address `address`.
    pub fn validator_index(&self, address: &AccountAddress) -> (index: Option<usize>)
        ensures
            first_index(self.validators@, *address, index),
    {
        let mut i: usize = 0;
        while i < self.validators.len()
            invariant
                i <= self.validators.len(),
                forall|j: int| 0 <= j < i ==> (#[trigger] self.validators@[j]).address != *address,
            decreases self.validators.len() - i,
        {
            if self.validators[i].address == *address {
                return Some(i);
            }
            i += 1;
        }
        None
    }

    /// The weight of the validator with the address `address`, if it is one of the set.
    pub fn get_voting_power(&self, address: &AccountAddress) -> (power: Option<u64>)
        ensures
            power is Some <==> has_validator(self.validators@, *address),
            power matches Some(p) ==> exists|i: usize| #[trigger]
                first_index(self.validators@, *address, Some(i)) && p
                    == self.validators@[i as int].voting_power,
    {
        match self.validator_index(address) {
            Some(i) => {
                assert(first_index(self.validators@, *address, Some(i)));
                Some(self.validators[i].voting_power)
            },
            None => None,
        }
    }

    /// The number of validators.
    pub fn len(&self) -> (len: usize)
        ensures
            len == self.validators@.len(),
    {
        self.validators.len()
    }

    /// The addresses of the validators, in the order of their indices.
    pub fn get_ordered_account_addresses(&self) -> (addresses: Vec<AccountAddress>)
        ensures
            addresses@ == addresses_of(self.validators@),
    {
        let mut addresses: Vec<AccountAddress> = Vec::new();
        let mut i: usize = 0;
        while i < self.validators.len()
            invariant
                i <= self.validators.len(),
                addresses@ == addresses_of(self.validators@).take(i as int),
            decreases self.validators.len() - i,
        {
            addresses.push(self.validators[i].address);
            assert(addresses@ =~= addresses_of(self.validators@).take(i + 1));
            i += 1;
        }
        assert(addresses@ =~= addresses_of(self.validators@));
        addresses
    }
}

/// The addresses of `validators`, in order.
pub open spec fn addresses_of(validators: Seq<ValidatorConsensusInfo>) -> Seq<AccountAddress> {
    validators.map_values(|v: ValidatorConsensusInfo| v.address)
}

/// The addresses of validators are theirs, each at the index of its validator.
pub proof fn addresses_stand_at_their_indices(validators: Seq<ValidatorConsensusInfo>)
    ensures
        addresses_of(validators).len() == validators.len(),
        forall|i: int|
            0 <= i < validators.len() ==> #[trigger] addresses_of(validators)[i]
                == validators[i].address,
{
}

/// A validator has one index: the first at which its address stands. It has none exactly where the
/// address is that of no validator.
pub proof fn validators_have_one_index(
    validators: Seq<ValidatorConsensusInfo>,
    address: AccountAddress,
    index: Option<usize>,
    other: Option<usize>,
)
    requires
        first_index(validators, address, index),
        first_index(validators, address, other),
    ensures
        index == other,
        index is Some <==> has_validator(validators, address),
        has_validator(validators, address) <==> addresses_of(validators).contains(address),
        index matches Some(i) ==> i < validators.len() && validators[i as int].address == address
            && forall|j: int| 0 <= j < i ==> (#[trigger] validators[j]).address != address,
{
    let addresses = addresses_of(validators);
    if has_validator(validators, address) {
        let i = choose|i: int|
            0 <= i < validators.len() && (#[trigger] validators[i]).address == address;
        assert(addresses[i] == address);
    }
    if addresses.contains(address) {
        let i = addresses.index_of(address);
        assert(validators[i].address == address);
    }
    if let (Some(i), Some(j)) = (index, other) {
        if i < j {
            assert(validators[i as int].address != address);
        }
        if j < i {
            assert(validators[j as int].address != address);
        }
    }
    if let Some(i) = index {
        assert(validators[i as int].address == address);
    }
    if let Some(j) = other {
        assert(validators[j as int].address == address);
    }
}

/// An epoch and the validators that run it.
#[derive(Debug)]
pub struct EpochState {
    pub epoch: u64,
    pub verifier: Arc<ValidatorVerifier>,
}

impl EpochState {
    pub fn new(epoch: u64, verifier: ValidatorVerifier) -> (state: EpochState)
        ensures
            state.epoch == epoch,
            *state.verifier == verifier,
    {
        EpochState { epoch, verifier: Arc::new(verifier) }
    }
}

impl Clone for EpochState {
    fn clone(&self) -> (copy: EpochState)
        ensures
            copy == *self,
    {
        EpochState { epoch: self.epoch, verifier: self.verifier.clone() }
    }
}

} // verus!
