use vstd::prelude::*;

verus! {

/// Why `RefreshMessage::collect` refused to derive a refreshed key.
#[derive(Clone, Debug, PartialEq, Eq, Structural)]
pub enum FsDkrError {
    /// Fewer than `threshold + 1` refresh messages were received.
    PartiesThresholdViolation { threshold: u16, refreshed_keys: usize },
    /// The message at `refresh_message_index` does not carry one entry per party
    /// in each of its three sequences.
    SizeMismatchError {
        refresh_message_index: usize,
        fairness_proof_len: usize,
        points_commited_len: usize,
        points_encrypted_len: usize,
    },
    /// A message occurs twice in the received set.
    DuplicatedRefreshMessage,
    /// A committed point disagrees with its dealer's polynomial commitment.
    PublicShareValidationError,
    /// A fairness proof does not verify against its statement.
    FairnessProof,
}

pub type FsDkrResult<T> = Result<T, FsDkrError>;

} // verus!
