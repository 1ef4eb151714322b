use vstd::prelude::*;
use vstd::string::*;

use crate::text::{seq_contains, spec_to_uppercase, str_contains, to_uppercase};

verus! {

/// The weight-size multiplier of a quantization, in quarters:
/// 4 bits keep a quarter of the FP16 size, 8 bits half, anything else all of it.
pub open spec fn spec_quantization_quarters(bits: Option<u8>) -> u8 {
    match bits {
        Some(4u8) => 1,
        Some(8u8) => 2,
        _ => 4,
    }
}

/// The quantization factor of `bits`, as a number of quarters (1, 2 or 4).
pub fn quantization_factor_quarters(bits: Option<u8>) -> (q: u8)
    ensures
        q == spec_quantization_quarters(bits),
        1 <= q <= 4,
{
    match bits {
        Some(4u8) => 1,
        Some(8u8) => 2,
        _ => 4,
    }
}

/// Why a model cannot be budgeted on a GPU.
#[derive(Debug)]
pub enum VramError {
    /// An 8-bit (FP8) checkpoint on an architecture without FP8 support;
    /// carries the architecture as given.
    Fp8Rejected(String),
}

/// FP8 checkpoints run only on Hopper (H100); Ampere GPUs (RTX A2000, A100)
/// lack FP8 tensor cores. Over the upper-cased architecture name.
pub open spec fn spec_fp8_supported(architecture_upper: Seq<char>) -> bool {
    seq_contains(architecture_upper, "HOPPER"@) || seq_contains(architecture_upper, "H100"@)
}

/// An 8-bit checkpoint is refused on every architecture whose name mentions
/// neither Hopper nor H100 (in particular every Ampere GPU: A100, RTX A2000),
/// and accepted on every one that mentions either.
pub proof fn lemma_fp8_only_on_hopper_names(architecture_upper: Seq<char>)
    ensures
        !seq_contains(architecture_upper, "HOPPER"@) && !seq_contains(architecture_upper, "H100"@)
            ==> !spec_fp8_supported(architecture_upper),
        seq_contains(architecture_upper, "HOPPER"@) || seq_contains(architecture_upper, "H100"@)
            ==> spec_fp8_supported(architecture_upper),
{
}

/// Whether an already upper-cased architecture supports FP8 checkpoints.
pub fn fp8_supported(architecture_upper: &str) -> (b: bool)
    ensures
        b == spec_fp8_supported(architecture_upper@),
{
    str_contains(architecture_upper, "HOPPER") || str_contains(architecture_upper, "H100")
}

/// Refuses an 8-bit checkpoint on an architecture without FP8 support;
/// every other quantization passes on every architecture.
pub fn check_fp8_compatibility(gpu_architecture: &str, quantization_bits: Option<u8>) -> (r: Result<
    (),
    VramError,
>)
    ensures
        r is Ok <==> (quantization_bits != Some(8u8) || spec_fp8_supported(
            spec_to_uppercase(gpu_architecture@),
        )),
        r matches Err(VramError::Fp8Rejected(a)) ==> a@ == gpu_architecture@,
{
    let arch_upper = to_uppercase(gpu_architecture);
    let supported = fp8_supported(arch_upper.as_str());
    if quantization_bits == Some(8u8) && !supported {
        return Err(VramError::Fp8Rejected(String::from_str(gpu_architecture)));
    }
    Ok(())
}

/// The number of KV-cache entries, `batch * context * layers * head_dim`.
/// Each entry holds a key and a value of two bytes scaled by the
/// quantization factor, so the cache takes `entries * quarters` bytes.
pub fn kv_cache_entries(batch_size: u32, context_length: u32, layers: u32, head_dim: u32) -> (n: u128)
    ensures
        n == batch_size * context_length * layers * head_dim,
{
    assert(batch_size as int * context_length as int <= u64::MAX) by (nonlinear_arith)
        requires
            batch_size <= u32::MAX,
            context_length <= u32::MAX,
    ;
    assert(layers as int * head_dim as int <= u64::MAX) by (nonlinear_arith)
        requires
            layers <= u32::MAX,
            head_dim <= u32::MAX,
    ;
    let bc: u64 = batch_size as u64 * context_length as u64;
    let lh: u64 = layers as u64 * head_dim as u64;
    assert(bc as int * lh as int <= u128::MAX) by (nonlinear_arith)
        requires
            bc <= u64::MAX,
            lh <= u64::MAX,
    ;
    let n: u128 = bc as u128 * lh as u128;
    assert(n == batch_size * context_length * layers * head_dim) by (nonlinear_arith)
        requires
            bc == batch_size * context_length,
            lh == layers * head_dim,
            n == bc * lh,
    ;
    n
}

/// The integer part of a VRAM budget: the inputs with their defaults, the
/// quantization factor and the KV-cache size.
pub struct VramPlan {
    pub quantization_quarters: u8,
    pub quantization_bits: u8,
    pub batch_size: u32,
    pub context_length: u32,
    pub layers: u32,
    pub hidden_size: u32,
    pub head_dim: u32,
    pub kv_cache_entries: u128,
    pub fp8_compatible: bool,
}

/// Checks FP8 compatibility, then fixes the defaults (batch 4, context
/// 8192, 16 bits reported when no quantization is given) and computes the
/// quantization factor and the KV-cache entry count.
pub fn vram_budget_plan(
    layers: u32,
    hidden_size: u32,
    head_dim: u32,
    quantization_bits: Option<u8>,
    context_length: Option<u32>,
    batch_size: Option<u32>,
    gpu_architecture: &str,
) -> (r: Result<VramPlan, VramError>)
    ensures
        r is Ok <==> (quantization_bits != Some(8u8) || spec_fp8_supported(
            spec_to_uppercase(gpu_architecture@),
        )),
        r matches Err(VramError::Fp8Rejected(a)) ==> a@ == gpu_architecture@,
        r matches Ok(p) ==> {
            &&& p.quantization_quarters == spec_quantization_quarters(quantization_bits)
            &&& p.quantization_bits == match quantization_bits {
                Some(b) => b,
                None => 16u8,
            }
            &&& p.batch_size == match batch_size {
                Some(b) => b,
                None => 4u32,
            }
            &&& p.context_length == match context_length {
                Some(c) => c,
                None => 8192u32,
            }
            &&& p.layers == layers
            &&& p.hidden_size == hidden_size
            &&& p.head_dim == head_dim
            &&& p.kv_cache_entries == p.batch_size * p.context_length * layers * head_dim
            &&& p.fp8_compatible == (quantization_bits == Some(8u8))
        },
{
    match check_fp8_compatibility(gpu_architecture, quantization_bits) {
        Ok(()) => {},
        Err(e) => {
            return Err(e);
        },
    }
    let batch_size = match batch_size {
        Some(b) => b,
        None => 4,
    };
    let context_length = match context_length {
        Some(c) => c,
        None => 8192,
    };
    Ok(
        VramPlan {
            quantization_quarters: quantization_factor_quarters(quantization_bits),
            quantization_bits: match quantization_bits {
                Some(b) => b,
                None => 16,
            },
            batch_size,
            context_length,
            layers,
            hidden_size,
            head_dim,
            kv_cache_entries: kv_cache_entries(batch_size, context_length, layers, head_dim),
            fp8_compatible: quantization_bits == Some(8u8),
        },
    )
}

} // verus!
