use onnx_ai_helm::text::{str_contains, str_equals};
use onnx_ai_helm::vram::{
    check_fp8_compatibility, fp8_supported, kv_cache_entries, quantization_factor_quarters,
    vram_budget_plan, VramError,
};

#[test]
fn quantization_factor_in_quarters() {
    assert_eq!(quantization_factor_quarters(Some(4)), 1);
    assert_eq!(quantization_factor_quarters(Some(8)), 2);
    assert_eq!(quantization_factor_quarters(Some(16)), 4);
    assert_eq!(quantization_factor_quarters(Some(32)), 4);
    assert_eq!(quantization_factor_quarters(None), 4);
}

#[test]
fn fp8_only_on_hopper() {
    assert!(check_fp8_compatibility("Hopper", Some(8)).is_ok());
    assert!(check_fp8_compatibility("nvidia-hopper-h100", Some(8)).is_ok());
    match check_fp8_compatibility("Ampere", Some(8)) {
        Err(VramError::Fp8Rejected(a)) => assert_eq!(a, "Ampere"),
        Ok(()) => panic!("FP8 must be rejected on Ampere"),
    }
    assert!(check_fp8_compatibility("RTX A2000", Some(8)).is_err());
    assert!(check_fp8_compatibility("H100", Some(8)).is_ok());
    assert!(check_fp8_compatibility("nvidia-h100-sxm", Some(8)).is_ok());
    assert!(check_fp8_compatibility("A100", Some(8)).is_err());
}

#[test]
fn other_quantizations_pass_everywhere() {
    assert!(check_fp8_compatibility("Ampere", Some(4)).is_ok());
    assert!(check_fp8_compatibility("Ampere", Some(16)).is_ok());
    assert!(check_fp8_compatibility("Turing", None).is_ok());
    assert!(check_fp8_compatibility("", Some(32)).is_ok());
}

#[test]
fn fp8_support_reads_upper_cased_name() {
    assert!(fp8_supported("HOPPER"));
    assert!(fp8_supported("H100"));
    assert!(!fp8_supported("hopper"));
    assert!(!fp8_supported("AMPERE"));
}

#[test]
fn kv_cache_entry_count() {
    assert_eq!(kv_cache_entries(4, 8192, 32, 128), 4 * 8192 * 32 * 128);
    assert_eq!(kv_cache_entries(0, 8192, 32, 128), 0);
    let m = u32::MAX as u128;
    assert_eq!(kv_cache_entries(u32::MAX, u32::MAX, u32::MAX, u32::MAX), m * m * m * m);
}

#[test]
fn plan_with_defaults() {
    let p = vram_budget_plan(32, 4096, 128, None, None, None, "Ampere").unwrap();
    assert_eq!(p.batch_size, 4);
    assert_eq!(p.context_length, 8192);
    assert_eq!(p.quantization_bits, 16);
    assert_eq!(p.quantization_quarters, 4);
    assert_eq!(p.layers, 32);
    assert_eq!(p.hidden_size, 4096);
    assert_eq!(p.head_dim, 128);
    assert_eq!(p.kv_cache_entries, 4 * 8192 * 32 * 128);
    assert!(!p.fp8_compatible);
}

#[test]
fn plan_with_given_values() {
    let p = vram_budget_plan(40, 5120, 64, Some(4), Some(2048), Some(1), "Ampere").unwrap();
    assert_eq!(p.batch_size, 1);
    assert_eq!(p.context_length, 2048);
    assert_eq!(p.quantization_bits, 4);
    assert_eq!(p.quantization_quarters, 1);
    assert_eq!(p.kv_cache_entries, 2048 * 40 * 64);
}

#[test]
fn plan_fp8() {
    let p = vram_budget_plan(32, 4096, 128, Some(8), None, Some(2), "Hopper").unwrap();
    assert!(p.fp8_compatible);
    assert_eq!(p.quantization_quarters, 2);
    assert_eq!(p.quantization_bits, 8);
    assert!(vram_budget_plan(32, 4096, 128, Some(8), None, Some(2), "Ampere A100").is_err());
}

#[test]
fn substring_search() {
    assert!(str_contains("SAFETENSORS", "TENSOR"));
    assert!(str_contains("abc", ""));
    assert!(!str_contains("", "a"));
    assert!(!str_contains("GGU", "GGUF"));
    assert!(str_contains("modèle-ÉTÉ.PT", ".PT"));
    assert!(!str_contains("ONNNX", "ONNX"));
}

#[test]
fn string_equality() {
    assert!(str_equals("gguf", "gguf"));
    assert!(!str_equals("gguf", "ggu"));
    assert!(!str_equals("été", "ete"));
    assert!(str_equals("", ""));
}
