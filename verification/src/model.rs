//! The host-side checks and bookkeeping of the model: reading the
//! hyperparameters from a checkpoint, checking that the tensor sizes a
//! configuration and batch shape call for can be computed, and checking the
//! token ids fed to the model.

use vstd::prelude::*;

use crate::config::{lemma_num_parameters, GPT2Config};
use crate::formats::{
    HeaderError, header_error, le_i32, i32_to_usize, parse_header_data, spec_header_i32, usize_of_i32, HEADER_BYTES,
};
use crate::layout::{as_ints, seq_sum, total_size};

verus! {

/// Magic number of checkpoint files.
pub const CHECKPOINT_MAGIC: i32 = 20240326;

/// Format version of checkpoint files.
pub const CHECKPOINT_VERSION: i32 = 3;

/// Why a checkpoint was refused.
#[derive(Debug, Clone, Copy, PartialEq, Eq, Structural)]
pub enum CheckpointError {
    /// The header is missing or has the wrong magic number or version.
    Header(HeaderError),
    /// The parameter tensor sizes, or their total, do not fit in a `usize`.
    SizesOverflow,
    /// The file holds `found` parameters where the configuration needs `needed`.
    MissingParameters { needed: usize, found: usize },
}

/// The hyperparameters stored in words 2 to 7 of a checkpoint header: maximum
/// sequence length, vocabulary size, layers, heads, channels and padded
/// vocabulary size; each word is read as a `usize`, so a negative word wraps
/// around to a huge value.
pub open spec fn config_from_header(h: Seq<i32>) -> GPT2Config {
    GPT2Config {
        max_seq_len: usize_of_i32(h[2] as int) as usize,
        vocab_size: usize_of_i32(h[3] as int) as usize,
        num_layers: usize_of_i32(h[4] as int) as usize,
        num_heads: usize_of_i32(h[5] as int) as usize,
        channels: usize_of_i32(h[6] as int) as usize,
        padded_vocab_size: usize_of_i32(h[7] as int) as usize,
    }
}

/// The configuration of checkpoint file `b`.
pub open spec fn checkpoint_config(b: Seq<u8>) -> GPT2Config {
    config_from_header(spec_header_i32(b))
}

/// Number of 32-bit parameters stored after the header of checkpoint file `b`.
pub open spec fn stored_parameters(b: Seq<u8>) -> int {
    (b.len() - HEADER_BYTES) / 4
}

/// The hyperparameters of a checkpoint are its header words 2 to 7, in the
/// order maximum sequence length, vocabulary size, layers, heads, channels,
/// padded vocabulary size, each read as a `usize`.
pub proof fn lemma_checkpoint_words(b: Seq<u8>)
    ensures
        checkpoint_config(b).max_seq_len == usize_of_i32(le_i32(b, 8)),
        checkpoint_config(b).vocab_size == usize_of_i32(le_i32(b, 12)),
        checkpoint_config(b).num_layers == usize_of_i32(le_i32(b, 16)),
        checkpoint_config(b).num_heads == usize_of_i32(le_i32(b, 20)),
        checkpoint_config(b).channels == usize_of_i32(le_i32(b, 24)),
        checkpoint_config(b).padded_vocab_size == usize_of_i32(le_i32(b, 28)),
{
    let h = spec_header_i32(b);
    assert(h[2] == le_i32(b, 8) as i32);
    assert(h[3] == le_i32(b, 12) as i32);
    assert(h[4] == le_i32(b, 16) as i32);
    assert(h[5] == le_i32(b, 20) as i32);
    assert(h[6] == le_i32(b, 24) as i32);
    assert(h[7] == le_i32(b, 28) as i32);
}

/// What `load_checkpoint` finds wrong with checkpoint file `b`, if anything.
pub open spec fn checkpoint_error(b: Seq<u8>) -> Option<CheckpointError> {
    match header_error(b, CHECKPOINT_MAGIC, CHECKPOINT_VERSION) {
        Some(e) => Some(CheckpointError::Header(e)),
        None => {
            let cfg = checkpoint_config(b);
            if !cfg.params_fit() || seq_sum(cfg.spec_params_sizes()) > usize::MAX {
                Some(CheckpointError::SizesOverflow)
            } else if stored_parameters(b) < seq_sum(cfg.spec_params_sizes()) {
                Some(
                    CheckpointError::MissingParameters {
                        needed: seq_sum(cfg.spec_params_sizes()) as usize,
                        found: stored_parameters(b) as usize,
                    },
                )
            } else {
                None
            }
        },
    }
}

/// Reads the hyperparameters of a checkpoint and counts the parameters the
/// model has; the parameters themselves are the first that many 32-bit words
/// after the header.
pub fn load_checkpoint(file: &[u8]) -> (r: Result<(GPT2Config, usize), CheckpointError>)
    ensures
        r is Ok <==> checkpoint_error(file@) is None,
        r matches Err(e) ==> checkpoint_error(file@) == Some(e),
        r matches Ok((config, num_parameters)) ==> {
            &&& config == checkpoint_config(file@)
            &&& config.max_seq_len == usize_of_i32(le_i32(file@, 8))
            &&& config.vocab_size == usize_of_i32(le_i32(file@, 12))
            &&& config.num_layers == usize_of_i32(le_i32(file@, 16))
            &&& config.num_heads == usize_of_i32(le_i32(file@, 20))
            &&& config.channels == usize_of_i32(le_i32(file@, 24))
            &&& config.padded_vocab_size == usize_of_i32(le_i32(file@, 28))
            &&& num_parameters == config.padded_vocab_size * config.channels + config.max_seq_len
                * config.channels + config.num_layers * (12 * config.channels * config.channels + 13
                * config.channels) + 2 * config.channels
            &&& config.params_fit()
            &&& num_parameters == seq_sum(config.spec_params_sizes())
            &&& num_parameters <= stored_parameters(file@)
        },
{
    let (header, payload) = match parse_header_data(file, CHECKPOINT_MAGIC, CHECKPOINT_VERSION) {
        Ok(parsed) => parsed,
        Err(e) => {
            return Err(CheckpointError::Header(e));
        },
    };
    let config = GPT2Config {
        max_seq_len: i32_to_usize(header[2]),
        vocab_size: i32_to_usize(header[3]),
        num_layers: i32_to_usize(header[4]),
        num_heads: i32_to_usize(header[5]),
        channels: i32_to_usize(header[6]),
        padded_vocab_size: i32_to_usize(header[7]),
    };
    if !config.fits_params() {
        return Err(CheckpointError::SizesOverflow);
    }
    let param_sizes = config.get_params_sizes();
    let num_parameters = match total_size(param_sizes.as_slice()) {
        Some(n) => n,
        None => {
            return Err(CheckpointError::SizesOverflow);
        },
    };
    proof {
        lemma_num_parameters(config);
        lemma_checkpoint_words(file@);
    }
    let found = payload.len() / 4;
    if found < num_parameters {
        return Err(CheckpointError::MissingParameters { needed: num_parameters, found });
    }
    Ok((config, num_parameters))
}

/// What a forward pass does with the activation memory.
#[derive(Debug, Clone, Copy, PartialEq, Eq, Structural)]
pub enum ActivationPlan {
    /// None is allocated yet: allocate it for this batch shape.
    Allocate,
    /// It is allocated for this batch shape: use it.
    Reuse,
    /// It is allocated for another batch shape: the pass cannot run.
    ShapeMismatch,
}

/// The plan for a forward pass over batches of `batch_size` sequences of
/// `seq_len` tokens, given the batch shape the activations were allocated for,
/// if any: memory is allocated lazily on the first pass, and every later pass
/// must keep that shape.
pub fn plan_activations(allocated: Option<(usize, usize)>, batch_size: usize, seq_len: usize) -> (r: ActivationPlan)
    ensures
        r == match allocated {
            None => ActivationPlan::Allocate,
            Some((b, t)) => if b == batch_size && t == seq_len {
                ActivationPlan::Reuse
            } else {
                ActivationPlan::ShapeMismatch
            },
        },
{
    match allocated {
        None => ActivationPlan::Allocate,
        Some((b, t)) => {
            if b == batch_size && t == seq_len {
                ActivationPlan::Reuse
            } else {
                ActivationPlan::ShapeMismatch
            }
        },
    }
}

/// Whether every token id is a valid index into a vocabulary of `vocab_size`.
pub fn tokens_in_vocab(tokens: &[i32], vocab_size: usize) -> (r: bool)
    ensures
        r == forall|i: int| 0 <= i < tokens.len() ==> 0 <= #[trigger] tokens[i] < vocab_size,
{
    let mut i: usize = 0;
    while i < tokens.len()
        invariant
            i <= tokens.len(),
            forall|k: int| 0 <= k < i ==> 0 <= #[trigger] tokens[k] < vocab_size,
        decreases tokens.len() - i,
    {
        let x = tokens[i];
        if x < 0 || (x as usize) >= vocab_size {
            return false;
        }
        i += 1;
    }
    true
}

} // verus!
