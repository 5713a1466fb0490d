//! Setting up the generation of randomness for an epoch.
//!
//! The cryptographic steps are done elsewhere; a [`RandSetup`] says which one comes next and is
//! told how it went.

use crate::types::AccountAddress;
use crate::validators::EpochState;
use vstd::prelude::*;

verus! {

/// Why an epoch has no randomness.
#[derive(Debug, PartialEq, Eq)]
pub enum NoRandomnessReason {
    VTxnDisabled,
    FeatureDisabled,
    DKGStateResourceMissing(String),
    DKGCompletedSessionResourceMissing,
    CompletedSessionTooOld,
    NotInValidatorSet,
    ConsensusKeyUnavailable,
    ErrConvertingConsensusKeyToDecryptionKey(String),
    TranscriptDeserializationError(String),
    SecretShareDecryptionFailed(String),
    RngCreationError(String),
    RandDbNotAvailable(String),
    KeyPairDeserializationError(String),
    KeyPairSerializationError(String),
    KeyPairPersistError(String),
    MyPkNotFoundInValidatorSet,
}

/// What the setup of randomness depends on at first.
#[derive(Debug)]
pub struct RandConditions {
    /// Whether validators can put transactions into blocks.
    pub is_vtxn_enabled: bool,
    pub randomness_enabled: bool,
    pub fast_randomness_enabled: bool,
    /// The epoch whose validators dealt the last complete set of keys, if there is one and the
    /// state of key generation can be read.
    pub dealer_epoch: Result<Option<u64>, String>,
}

/// Which parts of fast randomness are there.
#[derive(Debug, Clone, Copy, PartialEq, Eq, Structural)]
pub struct FastParts {
    pub secret_key: bool,
    pub public_key: bool,
    pub transcript: bool,
    pub weights: bool,
}

/// What is to be done next.
#[derive(Debug, Clone, Copy, PartialEq, Eq, Structural)]
pub enum RandStage {
    /// Turn the consensus key into a key to decrypt with.
    ConvertKey { my_index: u64 },
    /// Read the transcript.
    ReadTranscript { my_index: u64 },
    /// Decrypt the share of the validator `my_index`.
    DecryptShare { my_index: u64 },
    /// Read the key pair that was kept.
    ReadKeyPair { fast: bool },
    /// Decode the key pair that was kept for this epoch.
    DecodeKeyPair,
    /// Create a generator of random numbers.
    CreateRng { fast: bool },
    /// Make a key pair, and a fast one where `fast` says so, and encode them.
    EncodeKeyPair { fast: bool },
    /// Keep the key pair for this epoch.
    SaveKeyPair,
    /// All is there.
    Ready,
}

/// How a step went.
#[derive(Debug)]
pub enum RandEvent {
    /// The step succeeded, and there is nothing to say of it.
    Done,
    /// The share was decrypted.
    Decrypted(FastParts),
    /// A key pair was kept for the epoch, if one was kept.
    KeyPairKept(Option<u64>),
    /// The step failed.
    Failed(String),
}

/// Randomness that is being set up.
pub struct RandSetup {
    pub epoch: u64,
    pub fast_randomness_enabled: bool,
    pub stage: RandStage,
}

/// Why there can be no randomness in the epoch, if there is a reason: the first of these holds.
pub open spec fn no_randomness_reason(
    author: AccountAddress,
    epoch_state: EpochState,
    conditions: RandConditions,
) -> Option<NoRandomnessReason> {
    if !conditions.is_vtxn_enabled {
        Some(NoRandomnessReason::VTxnDisabled)
    } else if !conditions.randomness_enabled {
        Some(NoRandomnessReason::FeatureDisabled)
    } else {
        match conditions.dealer_epoch {
            Err(cause) => Some(NoRandomnessReason::DKGStateResourceMissing(cause)),
            Ok(None) => Some(NoRandomnessReason::DKGCompletedSessionResourceMissing),
            Ok(Some(dealer_epoch)) => if dealer_epoch + 1 != epoch_state.epoch {
                Some(NoRandomnessReason::CompletedSessionTooOld)
            } else if !crate::validators::has_validator(
                epoch_state.verifier.validators@,
                author,
            ) {
                Some(NoRandomnessReason::NotInValidatorSet)
            } else {
                None
            },
        }
    }
}

/// Begins to set up randomness for the epoch, if it can have any.
pub fn try_get_rand_config_for_new_epoch(
    author: &AccountAddress,
    epoch_state: &EpochState,
    conditions: RandConditions,
) -> (setup: Result<RandSetup, NoRandomnessReason>)
    ensures
        match setup {
            Err(reason) => no_randomness_reason(*author, *epoch_state, conditions) == Some(reason),
            Ok(setup) => {
                &&& no_randomness_reason(*author, *epoch_state, conditions) is None
                &&& setup.epoch == epoch_state.epoch
                &&& setup.fast_randomness_enabled == conditions.fast_randomness_enabled
                &&& setup.stage matches RandStage::ConvertKey { my_index }
                    && crate::validators::first_index(
                    epoch_state.verifier.validators@,
                    *author,
                    Some(my_index as usize),
                ) && my_index < epoch_state.verifier.validators@.len()
            },
        },
{
    if !conditions.is_vtxn_enabled {
        return Err(NoRandomnessReason::VTxnDisabled);
    }
    if !conditions.randomness_enabled {
        return Err(NoRandomnessReason::FeatureDisabled);
    }
    let dealer_epoch: u64 = match conditions.dealer_epoch {
        Err(cause) => {
            return Err(NoRandomnessReason::DKGStateResourceMissing(cause));
        },
        Ok(None) => {
            return Err(NoRandomnessReason::DKGCompletedSessionResourceMissing);
        },
        Ok(Some(epoch)) => epoch,
    };
    if epoch_state.epoch == 0 || dealer_epoch != epoch_state.epoch - 1 {
        return Err(NoRandomnessReason::CompletedSessionTooOld);
    }
    match epoch_state.verifier.validator_index(author) {
        None => Err(NoRandomnessReason::NotInValidatorSet),
        Some(index) => Ok(
            RandSetup {
                epoch: epoch_state.epoch,
                fast_randomness_enabled: conditions.fast_randomness_enabled,
                stage: RandStage::ConvertKey { my_index: index as u64 },
            },
        ),
    }
}

/// Whether fast randomness is on and all its parts are there.
pub open spec fn fast_is_enabled(enabled: bool, parts: FastParts) -> bool {
    enabled && parts.secret_key && parts.public_key && parts.transcript && parts.weights
}

impl RandSetup {
    /// Whether `event` can come of the step that is to be done.
    pub open spec fn fits(&self, event: RandEvent) -> bool {
        match self.stage {
            RandStage::Ready => false,
            RandStage::DecryptShare { .. } => event is Decrypted || event is Failed,
            RandStage::ReadKeyPair { .. } => event is KeyPairKept || event is Failed,
            _ => event is Done || event is Failed,
        }
    }

    /// What the failure of the step that is to be done means.
    pub open spec fn failure(&self, cause: String) -> NoRandomnessReason {
        match self.stage {
            RandStage::ConvertKey {
                ..
            } => NoRandomnessReason::ErrConvertingConsensusKeyToDecryptionKey(cause),
            RandStage::ReadTranscript {
                ..
            } => NoRandomnessReason::TranscriptDeserializationError(cause),
            RandStage::DecryptShare { .. } => NoRandomnessReason::SecretShareDecryptionFailed(
                cause,
            ),
            RandStage::ReadKeyPair { .. } => NoRandomnessReason::RandDbNotAvailable(cause),
            RandStage::DecodeKeyPair => NoRandomnessReason::KeyPairDeserializationError(cause),
            RandStage::CreateRng { .. } => NoRandomnessReason::RngCreationError(cause),
            RandStage::EncodeKeyPair { .. } => NoRandomnessReason::KeyPairSerializationError(
                cause,
            ),
            _ => NoRandomnessReason::KeyPairPersistError(cause),
        }
    }

    /// What is to be done after the step succeeded: a key pair that was kept for this epoch is
    /// used again, and else a new one is made and kept.
    pub open spec fn next_stage(&self, event: RandEvent) -> RandStage {
        match (self.stage, event) {
            (RandStage::ConvertKey { my_index }, _) => RandStage::ReadTranscript { my_index },
            (RandStage::ReadTranscript { my_index }, _) => RandStage::DecryptShare { my_index },
            (RandStage::DecryptShare { .. }, RandEvent::Decrypted(parts)) => {
                RandStage::ReadKeyPair {
                    fast: fast_is_enabled(self.fast_randomness_enabled, parts),
                }
            },
            (RandStage::ReadKeyPair { fast }, RandEvent::KeyPairKept(kept)) => if kept == Some(
                self.epoch,
            ) {
                RandStage::DecodeKeyPair
            } else {
                RandStage::CreateRng { fast }
            },
            (RandStage::DecodeKeyPair, _) => RandStage::Ready,
            (RandStage::CreateRng { fast }, _) => RandStage::EncodeKeyPair { fast },
            (RandStage::EncodeKeyPair { .. }, _) => RandStage::SaveKeyPair,
            _ => RandStage::Ready,
        }
    }

    /// How many steps are left at most.
    pub open spec fn steps_left(&self) -> int {
        match self.stage {
            RandStage::ConvertKey { .. } => 7,
            RandStage::ReadTranscript { .. } => 6,
            RandStage::DecryptShare { .. } => 5,
            RandStage::ReadKeyPair { .. } => 4,
            RandStage::DecodeKeyPair => 1,
            RandStage::CreateRng { .. } => 3,
            RandStage::EncodeKeyPair { .. } => 2,
            RandStage::SaveKeyPair => 1,
            RandStage::Ready => 0,
        }
    }

    /// Goes on after a step.
    pub fn advance(&mut self, event: RandEvent) -> (step: Result<RandStage, NoRandomnessReason>)
        requires
            old(self).fits(event),
        ensures
            final(self).epoch == old(self).epoch,
            final(self).fast_randomness_enabled == old(self).fast_randomness_enabled,
            match event {
                RandEvent::Failed(cause) => {
                    &&& step == Err::<RandStage, NoRandomnessReason>(old(self).failure(cause))
                    &&& final(self).stage == old(self).stage
                },
                _ => {
                    &&& step == Ok::<RandStage, NoRandomnessReason>(old(self).next_stage(event))
                    &&& final(self).stage == old(self).next_stage(event)
                    &&& final(self).steps_left() < old(self).steps_left()
                },
            },
    {
        let next = match event {
            RandEvent::Failed(cause) => {
                return Err(
                    match self.stage {
                        RandStage::ConvertKey {
                            ..
                        } => NoRandomnessReason::ErrConvertingConsensusKeyToDecryptionKey(cause),
                        RandStage::ReadTranscript {
                            ..
                        } => NoRandomnessReason::TranscriptDeserializationError(cause),
                        RandStage::DecryptShare {
                            ..
                        } => NoRandomnessReason::SecretShareDecryptionFailed(cause),
                        RandStage::ReadKeyPair { .. } => NoRandomnessReason::RandDbNotAvailable(
                            cause,
                        ),
                        RandStage::DecodeKeyPair => {
                            NoRandomnessReason::KeyPairDeserializationError(cause)
                        },
                        RandStage::CreateRng { .. } => NoRandomnessReason::RngCreationError(cause),
                        RandStage::EncodeKeyPair {
                            ..
                        } => NoRandomnessReason::KeyPairSerializationError(cause),
                        _ => NoRandomnessReason::KeyPairPersistError(cause),
                    },
                );
            },
            RandEvent::Decrypted(parts) => {
                let fast = self.fast_randomness_enabled && parts.secret_key && parts.public_key
                    && parts.transcript && parts.weights;
                RandStage::ReadKeyPair { fast }
            },
            RandEvent::KeyPairKept(kept) => {
                let mine = match kept {
                    Some(epoch) => epoch == self.epoch,
                    None => false,
                };
                match self.stage {
                    RandStage::ReadKeyPair { fast } => if mine {
                        RandStage::DecodeKeyPair
                    } else {
                        RandStage::CreateRng { fast }
                    },
                    _ => vstd::pervasive::unreached(),
                }
            },
            RandEvent::Done => match self.stage {
                RandStage::ConvertKey { my_index } => RandStage::ReadTranscript { my_index },
                RandStage::ReadTranscript { my_index } => RandStage::DecryptShare { my_index },
                RandStage::CreateRng { fast } => RandStage::EncodeKeyPair { fast },
                RandStage::EncodeKeyPair { .. } => RandStage::SaveKeyPair,
                _ => RandStage::Ready,
            },
        };
        self.stage = next;
        Ok(next)
    }
}

/// Randomness is set up exactly where validators can put transactions into blocks, it is on, the last
/// complete keys were dealt in the epoch before and the node is a validator of the epoch; otherwise
/// the reason is the first of these that does not hold.
pub proof fn randomness_is_set_up_unless_there_is_a_reason(
    author: AccountAddress,
    epoch_state: EpochState,
    conditions: RandConditions,
)
    ensures
        ({
            let reason = no_randomness_reason(author, epoch_state, conditions);
            let on = conditions.is_vtxn_enabled && conditions.randomness_enabled;
            let is_validator = exists|i: int|
                0 <= i < epoch_state.verifier.validators@.len() && (
                #[trigger] epoch_state.verifier.validators@[i]).address == author;
            let fresh = conditions.dealer_epoch matches Ok(Some(dealt)) && dealt + 1
                == epoch_state.epoch;
            &&& reason == Some(NoRandomnessReason::VTxnDisabled) <==> !conditions.is_vtxn_enabled
            &&& reason == Some(NoRandomnessReason::FeatureDisabled) <==> conditions.is_vtxn_enabled
                && !conditions.randomness_enabled
            &&& on ==> (conditions.dealer_epoch matches Err(cause) ==> reason == Some(
                NoRandomnessReason::DKGStateResourceMissing(cause),
            ))
            &&& reason == Some(NoRandomnessReason::DKGCompletedSessionResourceMissing) <==> on && (
            conditions.dealer_epoch matches Ok(None))
            &&& reason == Some(NoRandomnessReason::CompletedSessionTooOld) <==> on && (
            conditions.dealer_epoch matches Ok(Some(_))) && !fresh
            &&& reason == Some(NoRandomnessReason::NotInValidatorSet) <==> on && fresh
                && !is_validator
            &&& reason is None <==> on && fresh && is_validator
        }),
{
}

/// The steps come one after the other, each only after the one before succeeded, and all of them are
/// of the same validator: its key is converted, the transcript read and its own share decrypted.
pub proof fn shares_are_decrypted_in_three_steps(setup: RandSetup, event: RandEvent, my_index: u64)
    requires
        setup.fits(event),
        !(event is Failed),
    ensures
        setup.stage == (RandStage::ConvertKey { my_index }) ==> setup.next_stage(event) == (
        RandStage::ReadTranscript { my_index }),
        setup.stage == (RandStage::ReadTranscript { my_index }) ==> setup.next_stage(event) == (
        RandStage::DecryptShare { my_index }),
        setup.stage is DecryptShare ==> (event matches RandEvent::Decrypted(parts)
            && setup.next_stage(event) == (RandStage::ReadKeyPair {
            fast: setup.fast_randomness_enabled && parts.secret_key && parts.public_key
                && parts.transcript && parts.weights,
        })),
{
}

/// A key pair that was kept is used again exactly where it was kept for this epoch; otherwise a new
/// one is made and kept, with a fast one exactly where there is fast randomness. Either way all is
/// there at the end.
pub proof fn key_pairs_are_used_again_in_their_epoch(
    setup: RandSetup,
    event: RandEvent,
    fast: bool,
)
    requires
        setup.fits(event),
        !(event is Failed),
    ensures
        setup.stage == (RandStage::ReadKeyPair { fast }) ==> (event matches RandEvent::KeyPairKept(
            kept,
        ) && setup.next_stage(event) == (if kept == Some(setup.epoch) {
            RandStage::DecodeKeyPair
        } else {
            RandStage::CreateRng { fast }
        })),
        setup.stage == (RandStage::CreateRng { fast }) ==> setup.next_stage(event) == (
        RandStage::EncodeKeyPair { fast }),
        setup.stage is EncodeKeyPair ==> setup.next_stage(event) == RandStage::SaveKeyPair,
        setup.stage == RandStage::DecodeKeyPair || setup.stage == RandStage::SaveKeyPair
            ==> setup.next_stage(event) == RandStage::Ready,
{
}

/// Every step that fails has a reason of its own, which says why it failed.
pub proof fn failures_tell_the_step_that_failed(setup: RandSetup, cause: String)
    ensures
        ({
            let reason = setup.failure(cause);
            &&& setup.stage is ConvertKey ==> reason
                == NoRandomnessReason::ErrConvertingConsensusKeyToDecryptionKey(cause)
            &&& setup.stage is ReadTranscript ==> reason
                == NoRandomnessReason::TranscriptDeserializationError(cause)
            &&& setup.stage is DecryptShare ==> reason
                == NoRandomnessReason::SecretShareDecryptionFailed(cause)
            &&& setup.stage is ReadKeyPair ==> reason == NoRandomnessReason::RandDbNotAvailable(
                cause,
            )
            &&& setup.stage is DecodeKeyPair ==> reason
                == NoRandomnessReason::KeyPairDeserializationError(cause)
            &&& setup.stage is CreateRng ==> reason == NoRandomnessReason::RngCreationError(cause)
            &&& setup.stage is EncodeKeyPair ==> reason
                == NoRandomnessReason::KeyPairSerializationError(cause)
            &&& setup.stage is SaveKeyPair ==> reason == NoRandomnessReason::KeyPairPersistError(
                cause,
            )
        }),
{
}

/// Every step but the last can fail. A step that decrypts tells what it found, one that reads the
/// key pair tells whether there was one, and each other only that it is done.
pub proof fn steps_tell_what_they_found(setup: RandSetup, event: RandEvent)
    ensures
        setup.fits(event) <==> match event {
            RandEvent::Failed(_) => setup.stage != RandStage::Ready,
            RandEvent::Decrypted(_) => setup.stage is DecryptShare,
            RandEvent::KeyPairKept(_) => setup.stage is ReadKeyPair,
            RandEvent::Done => setup.stage != RandStage::Ready && !(setup.stage is DecryptShare)
                && !(setup.stage is ReadKeyPair),
        },
{
}

} // verus!
