use vstd::prelude::*;
use vstd::string::*;

use crate::text::{seq_contains, spec_to_uppercase, str_contains, to_uppercase};

verus! {

/// Model metadata as the engine selector reads it from a metadata file.
pub struct ModelConfig {
    pub format: String,
    pub quantization: Option<String>,
    pub layers: Option<u32>,
    pub hidden_size: Option<u32>,
    pub vocab_size: Option<u32>,
    pub head_dim: Option<u32>,
    pub rope_scaling: Option<String>,
    pub attention_types: Option<String>,
}

/// One Kubernetes probe of a serving container.
pub struct Probe {
    pub initial_delay_seconds: u64,
    pub period_seconds: u64,
    pub timeout_seconds: u64,
    pub failure_threshold: u64,
    pub success_threshold: u64,
    pub http_get_path: Option<String>,
    pub tcp_socket_port: Option<u16>,
}

pub struct ProbeView {
    pub initial_delay_seconds: u64,
    pub period_seconds: u64,
    pub timeout_seconds: u64,
    pub failure_threshold: u64,
    pub success_threshold: u64,
    pub http_get_path: Option<Seq<char>>,
    pub tcp_socket_port: Option<u16>,
}

pub open spec fn opt_string_view(s: Option<String>) -> Option<Seq<char>> {
    match s {
        Some(v) => Some(v@),
        None => None,
    }
}

pub open spec fn strings_view(v: Seq<String>) -> Seq<Seq<char>> {
    v.map_values(|s: String| s@)
}

impl View for Probe {
    type V = ProbeView;

    open spec fn view(&self) -> ProbeView {
        ProbeView {
            initial_delay_seconds: self.initial_delay_seconds,
            period_seconds: self.period_seconds,
            timeout_seconds: self.timeout_seconds,
            failure_threshold: self.failure_threshold,
            success_threshold: self.success_threshold,
            http_get_path: opt_string_view(self.http_get_path),
            tcp_socket_port: self.tcp_socket_port,
        }
    }
}

/// The three probes of a serving container.
pub struct ProbeConfig {
    pub liveness: Probe,
    pub startup: Probe,
    pub readiness: Probe,
}

pub struct ProbeConfigView {
    pub liveness: ProbeView,
    pub startup: ProbeView,
    pub readiness: ProbeView,
}

impl View for ProbeConfig {
    type V = ProbeConfigView;

    open spec fn view(&self) -> ProbeConfigView {
        ProbeConfigView {
            liveness: self.liveness@,
            startup: self.startup@,
            readiness: self.readiness@,
        }
    }
}

/// GPU needs of an engine; `memory_gb` is a whole number of gigabytes.
pub struct GpuRequirements {
    pub nvidia_compu: u32,
    pub memory_gb: u32,
    pub architecture: String,
}

pub struct GpuRequirementsView {
    pub nvidia_compu: u32,
    pub memory_gb: u32,
    pub architecture: Seq<char>,
}

impl View for GpuRequirements {
    type V = GpuRequirementsView;

    open spec fn view(&self) -> GpuRequirementsView {
        GpuRequirementsView {
            nvidia_compu: self.nvidia_compu,
            memory_gb: self.memory_gb,
            architecture: self.architecture@,
        }
    }
}

/// The serving engine chosen for a model, with its chart and container setup.
pub struct EngineConfig {
    pub name: String,
    pub chart_path: String,
    pub container_args: Vec<String>,
    pub sidecars: Vec<String>,
    pub probes: ProbeConfig,
    pub gpu_requirements: GpuRequirements,
}

pub struct EngineConfigView {
    pub name: Seq<char>,
    pub chart_path: Seq<char>,
    pub container_args: Seq<Seq<char>>,
    pub sidecars: Seq<Seq<char>>,
    pub probes: ProbeConfigView,
    pub gpu_requirements: GpuRequirementsView,
}

impl View for EngineConfig {
    type V = EngineConfigView;

    open spec fn view(&self) -> EngineConfigView {
        EngineConfigView {
            name: self.name@,
            chart_path: self.chart_path@,
            container_args: strings_view(self.container_args@),
            sidecars: strings_view(self.sidecars@),
            probes: self.probes@,
            gpu_requirements: self.gpu_requirements@,
        }
    }
}

/// The engines of the decision tree.
#[derive(PartialEq, Eq, Structural, Clone, Copy, Debug)]
pub enum EngineKind {
    LlamaCpp,
    OnnxRuntimeGenai,
    TritonOnnx,
    Vllm,
    TritonTensorrtLlm,
    RayServe,
}

/// Why no engine could be selected.
#[derive(Debug)]
pub enum EngineError {
    /// The format (as given) matches no branch of the decision tree.
    UnsupportedFormat(String),
}

/// Whether an upper-cased quantization names a vLLM-served scheme.
pub open spec fn vllm_quantization(quantization_upper: Option<Seq<char>>) -> bool {
    match quantization_upper {
        Some(q) => seq_contains(q, "AWQ"@) || seq_contains(q, "GPTQ"@) || seq_contains(q, "SAFETENSORS"@),
        None => false,
    }
}

/// Whether an upper-cased format names a vLLM-served format
/// (safetensors in BF16/FP16, AWQ, GPTQ).
pub open spec fn vllm_format(format_upper: Seq<char>) -> bool {
    seq_contains(format_upper, "SAFETENSORS"@) || seq_contains(format_upper, "BF16"@)
        || seq_contains(format_upper, "FP16"@) || seq_contains(format_upper, "AWQ"@)
        || seq_contains(format_upper, "GPTQ"@)
}

/// Whether an upper-cased format names a raw PyTorch checkpoint (`.pt`/`.bin`).
pub open spec fn pytorch_format(format_upper: Seq<char>) -> bool {
    seq_contains(format_upper, "PYTORCH"@) || seq_contains(format_upper, ".PT"@)
        || seq_contains(format_upper, ".BIN"@)
}

/// The engine decision tree over the upper-cased format and quantization:
/// GGUF, then ONNX (single or multi-model), then safetensors/AWQ/GPTQ,
/// then TensorRT, then PyTorch; anything else is unsupported.
pub open spec fn spec_decide_engine(
    format_upper: Seq<char>,
    quantization_upper: Option<Seq<char>>,
    multi_model: bool,
) -> Option<EngineKind> {
    if seq_contains(format_upper, "GGUF"@) {
        Some(EngineKind::LlamaCpp)
    } else if seq_contains(format_upper, "ONNX"@) && !multi_model {
        Some(EngineKind::OnnxRuntimeGenai)
    } else if seq_contains(format_upper, "ONNX"@) && multi_model {
        Some(EngineKind::TritonOnnx)
    } else if vllm_quantization(quantization_upper) || vllm_format(format_upper) {
        Some(EngineKind::Vllm)
    } else if seq_contains(format_upper, "TENSORRT"@) {
        Some(EngineKind::TritonTensorrtLlm)
    } else if pytorch_format(format_upper) {
        Some(EngineKind::RayServe)
    } else {
        None
    }
}

pub open spec fn opt_str_view(s: Option<&str>) -> Option<Seq<char>> {
    match s {
        Some(v) => Some(v@),
        None => None,
    }
}

/// The decision tree on already upper-cased inputs.
pub fn decide_engine(format_upper: &str, quantization_upper: Option<&str>, multi_model: bool) -> (k:
    Option<EngineKind>)
    ensures
        k == spec_decide_engine(format_upper@, opt_str_view(quantization_upper), multi_model),
{
    let is_onnx = str_contains(format_upper, "ONNX");
    let quant_vllm = match quantization_upper {
        Some(q) => str_contains(q, "AWQ") || str_contains(q, "GPTQ") || str_contains(
            q,
            "SAFETENSORS",
        ),
        None => false,
    };
    if str_contains(format_upper, "GGUF") {
        Some(EngineKind::LlamaCpp)
    } else if is_onnx && !multi_model {
        Some(EngineKind::OnnxRuntimeGenai)
    } else if is_onnx && multi_model {
        Some(EngineKind::TritonOnnx)
    } else if quant_vllm || str_contains(format_upper, "SAFETENSORS") || str_contains(
        format_upper,
        "BF16",
    ) || str_contains(format_upper, "FP16") || str_contains(format_upper, "AWQ")
        || str_contains(format_upper, "GPTQ") {
        Some(EngineKind::Vllm)
    } else if str_contains(format_upper, "TENSORRT") {
        Some(EngineKind::TritonTensorrtLlm)
    } else if str_contains(format_upper, "PYTORCH") || str_contains(format_upper, ".PT")
        || str_contains(format_upper, ".BIN") {
        Some(EngineKind::RayServe)
    } else {
        None
    }
}

/// A probe that polls `GET /health`.
pub open spec fn http_probe(initial_delay_seconds: u64, failure_threshold: u64) -> ProbeView {
    ProbeView {
        initial_delay_seconds,
        period_seconds: 10,
        timeout_seconds: 5,
        failure_threshold,
        success_threshold: 1,
        http_get_path: Some("/health"@),
        tcp_socket_port: None,
    }
}

/// A probe that opens a TCP connection to port 8080.
pub open spec fn tcp_probe(initial_delay_seconds: u64, failure_threshold: u64) -> ProbeView {
    ProbeView {
        initial_delay_seconds,
        period_seconds: 10,
        timeout_seconds: 5,
        failure_threshold,
        success_threshold: 1,
        http_get_path: None,
        tcp_socket_port: Some(8080),
    }
}

pub open spec fn probes_spec(liveness: ProbeView, startup: ProbeView, readiness: ProbeView) -> ProbeConfigView {
    ProbeConfigView { liveness, startup, readiness }
}

pub open spec fn gpu_spec(nvidia_compu: u32, memory_gb: u32, architecture: Seq<char>) -> GpuRequirementsView {
    GpuRequirementsView { nvidia_compu, memory_gb, architecture }
}

/// The configuration each engine is deployed with.
pub open spec fn engine_config_spec(kind: EngineKind) -> EngineConfigView {
    match kind {
        EngineKind::LlamaCpp => EngineConfigView {
            name: "llama.cpp"@,
            chart_path: "charts/model-serving-llamacpp"@,
            container_args: seq![
                "--gguf"@,
                "--context-length 8192"@,
                "--batch-size 4"@,
                "--n-gpu-layers -1"@,
            ],
            sidecars: seq![],
            probes: probes_spec(tcp_probe(60, 120), http_probe(120, 120), http_probe(120, 30)),
            gpu_requirements: gpu_spec(1, 16, "any"@),
        },
        EngineKind::OnnxRuntimeGenai => EngineConfigView {
            name: "onnx-runtime-genai"@,
            chart_path: "charts/model-serving-onnx-rust"@,
            container_args: seq![
                "--model-path /models/onnx/model.onnx"@,
                "--session-config 'optimal'"@,
            ],
            sidecars: seq![],
            probes: probes_spec(tcp_probe(30, 60), http_probe(60, 120), http_probe(60, 30)),
            gpu_requirements: gpu_spec(1, 8, "Ampere"@),
        },
        EngineKind::TritonOnnx => EngineConfigView {
            name: "triton-onnx"@,
            chart_path: "charts/model-serving-triton"@,
            container_args: seq!["--triton-server"@, "--max-batch-size 16"@],
            sidecars: seq!["caddy-auth"@],
            probes: probes_spec(tcp_probe(60, 120), http_probe(120, 120), http_probe(120, 30)),
            gpu_requirements: gpu_spec(2, 32, "Ampere"@),
        },
        EngineKind::Vllm => EngineConfigView {
            name: "vllm"@,
            chart_path: "charts/model-serving-vllm"@,
            container_args: seq![
                "--model /models/safetensors/model.safetensors"@,
                "--max-model-len 8192"@,
                "--gpu-memory-utilization 0.90"@,
                "--trust-remote-code false"@,
            ],
            sidecars: seq![],
            probes: probes_spec(tcp_probe(60, 120), http_probe(180, 180), http_probe(180, 30)),
            gpu_requirements: gpu_spec(1, 24, "Ampere"@),
        },
        EngineKind::TritonTensorrtLlm => EngineConfigView {
            name: "triton-tensorrt-llm"@,
            chart_path: "charts/model-serving-triton"@,
            container_args: seq!["--triton-server"@, "--tensorrt-llm"@, "--max-batch-size 8"@],
            sidecars: seq!["caddy-auth"@],
            probes: probes_spec(tcp_probe(60, 120), http_probe(120, 120), http_probe(120, 30)),
            gpu_requirements: gpu_spec(1, 40, "Hopper"@),
        },
        EngineKind::RayServe => EngineConfigView {
            name: "ray-serve"@,
            chart_path: "charts/model-serving-rayserve"@,
            container_args: seq!["--ray-serve"@, "--max-concurrent-requests 10"@],
            sidecars: seq!["caddy-auth"@],
            probes: probes_spec(tcp_probe(60, 120), http_probe(120, 120), http_probe(120, 30)),
            gpu_requirements: gpu_spec(1, 16, "Ampere"@),
        },
    }
}

fn make_http_probe(initial_delay_seconds: u64, failure_threshold: u64) -> (p: Probe)
    ensures
        p@ == http_probe(initial_delay_seconds, failure_threshold),
{
    Probe {
        initial_delay_seconds,
        period_seconds: 10,
        timeout_seconds: 5,
        failure_threshold,
        success_threshold: 1,
        http_get_path: Some(String::from_str("/health")),
        tcp_socket_port: None,
    }
}

fn make_tcp_probe(initial_delay_seconds: u64, failure_threshold: u64) -> (p: Probe)
    ensures
        p@ == tcp_probe(initial_delay_seconds, failure_threshold),
{
    Probe {
        initial_delay_seconds,
        period_seconds: 10,
        timeout_seconds: 5,
        failure_threshold,
        success_threshold: 1,
        http_get_path: None,
        tcp_socket_port: Some(8080),
    }
}

fn strings2(a: &str, b: &str) -> (v: Vec<String>)
    ensures
        strings_view(v@) == seq![a@, b@],
{
    let v = vec![String::from_str(a), String::from_str(b)];
    assert(strings_view(v@) =~= seq![a@, b@]);
    v
}

fn strings3(a: &str, b: &str, c: &str) -> (v: Vec<String>)
    ensures
        strings_view(v@) == seq![a@, b@, c@],
{
    let v = vec![String::from_str(a), String::from_str(b), String::from_str(c)];
    assert(strings_view(v@) =~= seq![a@, b@, c@]);
    v
}

fn strings4(a: &str, b: &str, c: &str, d: &str) -> (v: Vec<String>)
    ensures
        strings_view(v@) == seq![a@, b@, c@, d@],
{
    let v = vec![String::from_str(a), String::from_str(b), String::from_str(c), String::from_str(d)];
    assert(strings_view(v@) =~= seq![a@, b@, c@, d@]);
    v
}

fn no_strings() -> (v: Vec<String>)
    ensures
        strings_view(v@) == Seq::<Seq<char>>::empty(),
{
    let v: Vec<String> = Vec::new();
    assert(strings_view(v@) =~= Seq::<Seq<char>>::empty());
    v
}

fn caddy_sidecar() -> (v: Vec<String>)
    ensures
        strings_view(v@) == seq!["caddy-auth"@],
{
    let v = vec![String::from_str("caddy-auth")];
    assert(strings_view(v@) =~= seq!["caddy-auth"@]);
    v
}

fn make_gpu(nvidia_compu: u32, memory_gb: u32, architecture: &str) -> (g: GpuRequirements)
    ensures
        g@ == gpu_spec(nvidia_compu, memory_gb, architecture@),
{
    GpuRequirements { nvidia_compu, memory_gb, architecture: String::from_str(architecture) }
}

/// The configuration of an engine, exactly as the decision tree deploys it.
pub fn engine_config(kind: EngineKind) -> (cfg: EngineConfig)
    ensures
        cfg@ == engine_config_spec(kind),
{
    match kind {
        EngineKind::LlamaCpp => EngineConfig {
            name: String::from_str("llama.cpp"),
            chart_path: String::from_str("charts/model-serving-llamacpp"),
            container_args: strings4(
                "--gguf",
                "--context-length 8192",
                "--batch-size 4",
                "--n-gpu-layers -1",
            ),
            sidecars: no_strings(),
            probes: ProbeConfig {
                liveness: make_tcp_probe(60, 120),
                startup: make_http_probe(120, 120),
                readiness: make_http_probe(120, 30),
            },
            gpu_requirements: make_gpu(1, 16, "any"),
        },
        EngineKind::OnnxRuntimeGenai => EngineConfig {
            name: String::from_str("onnx-runtime-genai"),
            chart_path: String::from_str("charts/model-serving-onnx-rust"),
            container_args: strings2(
                "--model-path /models/onnx/model.onnx",
                "--session-config 'optimal'",
            ),
            sidecars: no_strings(),
            probes: ProbeConfig {
                liveness: make_tcp_probe(30, 60),
                startup: make_http_probe(60, 120),
                readiness: make_http_probe(60, 30),
            },
            gpu_requirements: make_gpu(1, 8, "Ampere"),
        },
        EngineKind::TritonOnnx => EngineConfig {
            name: String::from_str("triton-onnx"),
            chart_path: String::from_str("charts/model-serving-triton"),
            container_args: strings2("--triton-server", "--max-batch-size 16"),
            sidecars: caddy_sidecar(),
            probes: ProbeConfig {
                liveness: make_tcp_probe(60, 120),
                startup: make_http_probe(120, 120),
                readiness: make_http_probe(120, 30),
            },
            gpu_requirements: make_gpu(2, 32, "Ampere"),
        },
        EngineKind::Vllm => EngineConfig {
            name: String::from_str("vllm"),
            chart_path: String::from_str("charts/model-serving-vllm"),
            container_args: strings4(
                "--model /models/safetensors/model.safetensors",
                "--max-model-len 8192",
                "--gpu-memory-utilization 0.90",
                "--trust-remote-code false",
            ),
            sidecars: no_strings(),
            probes: ProbeConfig {
                liveness: make_tcp_probe(60, 120),
                startup: make_http_probe(180, 180),
                readiness: make_http_probe(180, 30),
            },
            gpu_requirements: make_gpu(1, 24, "Ampere"),
        },
        EngineKind::TritonTensorrtLlm => EngineConfig {
            name: String::from_str("triton-tensorrt-llm"),
            chart_path: String::from_str("charts/model-serving-triton"),
            container_args: strings3("--triton-server", "--tensorrt-llm", "--max-batch-size 8"),
            sidecars: caddy_sidecar(),
            probes: ProbeConfig {
                liveness: make_tcp_probe(60, 120),
                startup: make_http_probe(120, 120),
                readiness: make_http_probe(120, 30),
            },
            gpu_requirements: make_gpu(1, 40, "Hopper"),
        },
        EngineKind::RayServe => EngineConfig {
            name: String::from_str("ray-serve"),
            chart_path: String::from_str("charts/model-serving-rayserve"),
            container_args: strings2("--ray-serve", "--max-concurrent-requests 10"),
            sidecars: caddy_sidecar(),
            probes: ProbeConfig {
                liveness: make_tcp_probe(60, 120),
                startup: make_http_probe(120, 120),
                readiness: make_http_probe(120, 30),
            },
            gpu_requirements: make_gpu(1, 16, "Ampere"),
        },
    }
}

/// The upper-cased view of an optional quantization.
pub open spec fn opt_upper(quantization: Option<String>) -> Option<Seq<char>> {
    match quantization {
        Some(q) => Some(spec_to_uppercase(q@)),
        None => None,
    }
}

/// Selects the serving engine for a model format, an optional quantization
/// and the multi-model flag; both strings are compared upper-cased.
pub fn select_engine(model_format: &str, quantization: &Option<String>, multi_model: bool) -> (r:
    Result<EngineConfig, EngineError>)
    ensures
        match spec_decide_engine(
            spec_to_uppercase(model_format@),
            opt_upper(*quantization),
            multi_model,
        ) {
            Some(kind) => r matches Ok(cfg) && cfg@ == engine_config_spec(kind),
            None => r matches Err(EngineError::UnsupportedFormat(f)) && f@ == model_format@,
        },
{
    let format_upper = to_uppercase(model_format);
    let quantization_upper: Option<String> = match quantization {
        Some(q) => Some(to_uppercase(q.as_str())),
        None => None,
    };
    let quant_ref: Option<&str> = match &quantization_upper {
        Some(q) => Some(q.as_str()),
        None => None,
    };
    assert(opt_str_view(quant_ref) == opt_upper(*quantization));
    match decide_engine(format_upper.as_str(), quant_ref, multi_model) {
        Some(kind) => Ok(engine_config(kind)),
        None => Err(EngineError::UnsupportedFormat(String::from_str(model_format))),
    }
}

/// The format declared in the model metadata, or `unknown` without metadata.
pub fn detect_model_format(metadata: &Option<ModelConfig>) -> (format: String)
    ensures
        format@ == match metadata {
            Some(cfg) => cfg.format@,
            None => "unknown"@,
        },
{
    match metadata {
        Some(cfg) => cfg.format.clone(),
        None => String::from_str("unknown"),
    }
}

/// The format an engine is selected for: the format of the model metadata
/// when metadata was read, otherwise the format declared on the command line.
pub fn model_format_for_selection(metadata: &Option<ModelConfig>, declared_format: &str) -> (format:
    String)
    ensures
        format@ == match metadata {
            Some(cfg) => cfg.format@,
            None => declared_format@,
        },
{
    match metadata {
        Some(_) => detect_model_format(metadata),
        None => String::from_str(declared_format),
    }
}

/// GGUF takes precedence: a format whose upper-cased name contains `GGUF`
/// is served by llama.cpp, whatever the quantization and the multi-model flag.
pub proof fn lemma_gguf_always_llamacpp(
    format_upper: Seq<char>,
    quantization_upper: Option<Seq<char>>,
    multi_model: bool,
)
    requires
        seq_contains(format_upper, "GGUF"@),
    ensures
        spec_decide_engine(format_upper, quantization_upper, multi_model) == Some(
            EngineKind::LlamaCpp,
        ),
{
}

/// An ONNX model (not GGUF) is served by ONNX Runtime GenAI when deployed
/// alone and by Triton when deployed with other models, whatever the
/// quantization.
pub proof fn lemma_onnx_split_by_deployment(
    format_upper: Seq<char>,
    quantization_upper: Option<Seq<char>>,
    multi_model: bool,
)
    requires
        seq_contains(format_upper, "ONNX"@),
        !seq_contains(format_upper, "GGUF"@),
    ensures
        spec_decide_engine(format_upper, quantization_upper, multi_model) == if multi_model {
            Some(EngineKind::TritonOnnx)
        } else {
            Some(EngineKind::OnnxRuntimeGenai)
        },
{
}

/// The multi-model flag only matters for ONNX: for any format that does not
/// name ONNX, the decision is the same whether or not the model is deployed
/// with others.
pub proof fn lemma_multi_model_only_splits_onnx(
    format_upper: Seq<char>,
    quantization_upper: Option<Seq<char>>,
)
    requires
        !seq_contains(format_upper, "ONNX"@),
    ensures
        spec_decide_engine(format_upper, quantization_upper, true) == spec_decide_engine(
            format_upper,
            quantization_upper,
            false,
        ),
{
}

/// A TensorRT engine is served by Triton with the TensorRT-LLM backend,
/// single or multi-model, as long as the format names none of the formats
/// decided before it and the quantization names no vLLM scheme.
pub proof fn lemma_tensorrt_served_by_triton_tensorrt_llm(
    format_upper: Seq<char>,
    quantization_upper: Option<Seq<char>>,
    multi_model: bool,
)
    requires
        seq_contains(format_upper, "TENSORRT"@),
        !seq_contains(format_upper, "GGUF"@),
        !seq_contains(format_upper, "ONNX"@),
        !seq_contains(format_upper, "SAFETENSORS"@),
        !seq_contains(format_upper, "BF16"@),
        !seq_contains(format_upper, "FP16"@),
        !seq_contains(format_upper, "AWQ"@),
        !seq_contains(format_upper, "GPTQ"@),
        quantization_upper matches Some(q) ==> !seq_contains(q, "AWQ"@) && !seq_contains(
            q,
            "GPTQ"@,
        ) && !seq_contains(q, "SAFETENSORS"@),
    ensures
        spec_decide_engine(format_upper, quantization_upper, multi_model) == Some(
            EngineKind::TritonTensorrtLlm,
        ),
{
}

/// The TensorRT-LLM flag `--tensorrt-llm` is passed to the container of the
/// Triton TensorRT-LLM engine and of no other engine.
pub proof fn lemma_only_tensorrt_engine_gets_tensorrt_flag(kind: EngineKind)
    ensures
        engine_config_spec(kind).container_args.contains("--tensorrt-llm"@) <==> kind
            == EngineKind::TritonTensorrtLlm,
{
    reveal_strlit("--tensorrt-llm");
    reveal_strlit("--gguf");
    reveal_strlit("--context-length 8192");
    reveal_strlit("--batch-size 4");
    reveal_strlit("--n-gpu-layers -1");
    reveal_strlit("--model-path /models/onnx/model.onnx");
    reveal_strlit("--session-config 'optimal'");
    reveal_strlit("--triton-server");
    reveal_strlit("--max-batch-size 16");
    reveal_strlit("--model /models/safetensors/model.safetensors");
    reveal_strlit("--max-model-len 8192");
    reveal_strlit("--gpu-memory-utilization 0.90");
    reveal_strlit("--trust-remote-code false");
    reveal_strlit("--max-batch-size 8");
    reveal_strlit("--ray-serve");
    reveal_strlit("--max-concurrent-requests 10");
    let flag = "--tensorrt-llm"@;
    let args = engine_config_spec(kind).container_args;
    if kind == EngineKind::TritonTensorrtLlm {
        assert(args[1] == flag);
    } else {
        assert forall|i: int| 0 <= i < args.len() implies args[i] != flag by {
            assert(args[i][2] != flag[2] || args[i][3] != flag[3]);
        }
    }
}

/// A probe checks health in exactly one way and succeeds after one success.
pub open spec fn probe_well_formed(p: ProbeView) -> bool {
    &&& (p.http_get_path is Some) != (p.tcp_socket_port is Some)
    &&& p.success_threshold == 1
    &&& p.timeout_seconds < p.period_seconds
}

/// Every engine's probes are well formed, the liveness probe is a TCP check
/// that never depends on the model being loaded while the startup and
/// readiness probes poll `/health`, the startup and readiness probes
/// wait at least as long as the liveness probe before their first check (a
/// model that is still loading is not killed), and the startup probe
/// tolerates at least as many failures as the readiness probe.
pub proof fn lemma_engine_probes_well_formed(kind: EngineKind)
    ensures
        probe_well_formed(engine_config_spec(kind).probes.liveness),
        probe_well_formed(engine_config_spec(kind).probes.startup),
        probe_well_formed(engine_config_spec(kind).probes.readiness),
        engine_config_spec(kind).probes.liveness.tcp_socket_port is Some,
        engine_config_spec(kind).probes.liveness.http_get_path is None,
        engine_config_spec(kind).probes.startup.http_get_path == Some("/health"@),
        engine_config_spec(kind).probes.readiness.http_get_path == Some("/health"@),
        engine_config_spec(kind).probes.liveness.initial_delay_seconds
            <= engine_config_spec(kind).probes.startup.initial_delay_seconds,
        engine_config_spec(kind).probes.liveness.initial_delay_seconds
            <= engine_config_spec(kind).probes.readiness.initial_delay_seconds,
        engine_config_spec(kind).probes.readiness.failure_threshold
            <= engine_config_spec(kind).probes.startup.failure_threshold,
{
}

} // verus!
