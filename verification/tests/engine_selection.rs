use onnx_ai_helm::engine::{
    decide_engine, detect_model_format, engine_config, model_format_for_selection, select_engine, EngineError, EngineKind,
    ModelConfig,
};
use onnx_ai_helm::helm::{copy_probes, helm_values, values_file_name};

fn chart_of(format: &str, quantization: Option<&str>, multi_model: bool) -> String {
    let q = quantization.map(|s| s.to_string());
    select_engine(format, &q, multi_model).unwrap().chart_path
}

#[test]
fn gguf_selects_llamacpp() {
    let e = select_engine("GGUF", &None, false).unwrap();
    assert_eq!(e.name, "llama.cpp");
    assert_eq!(e.chart_path, "charts/model-serving-llamacpp");
    assert_eq!(
        e.container_args,
        vec!["--gguf", "--context-length 8192", "--batch-size 4", "--n-gpu-layers -1"]
    );
    assert!(e.sidecars.is_empty());
    assert_eq!(e.gpu_requirements.nvidia_compu, 1);
    assert_eq!(e.gpu_requirements.memory_gb, 16);
    assert_eq!(e.gpu_requirements.architecture, "any");
    assert_eq!(e.probes.liveness.tcp_socket_port, Some(8080));
    assert_eq!(e.probes.liveness.http_get_path, None);
    assert_eq!(e.probes.liveness.initial_delay_seconds, 60);
    assert_eq!(e.probes.startup.http_get_path.as_deref(), Some("/health"));
    assert_eq!(e.probes.startup.initial_delay_seconds, 120);
    assert_eq!(e.probes.readiness.failure_threshold, 30);
}

#[test]
fn format_is_compared_upper_cased() {
    assert_eq!(chart_of("gguf", None, false), "charts/model-serving-llamacpp");
    assert_eq!(chart_of("model.GgUf", None, false), "charts/model-serving-llamacpp");
    assert_eq!(chart_of("onnx", None, false), "charts/model-serving-onnx-rust");
}

#[test]
fn gguf_takes_precedence_over_everything() {
    let e = select_engine("gguf-onnx", &Some("AWQ".to_string()), true).unwrap();
    assert_eq!(e.name, "llama.cpp");
}

#[test]
fn onnx_single_and_multi_model() {
    let single = select_engine("ONNX", &None, false).unwrap();
    assert_eq!(single.name, "onnx-runtime-genai");
    assert_eq!(single.gpu_requirements.memory_gb, 8);
    assert_eq!(single.probes.liveness.initial_delay_seconds, 30);
    let multi = select_engine("ONNX", &None, true).unwrap();
    assert_eq!(multi.name, "triton-onnx");
    assert_eq!(multi.chart_path, "charts/model-serving-triton");
    assert_eq!(multi.sidecars, vec!["caddy-auth"]);
    assert_eq!(multi.gpu_requirements.nvidia_compu, 2);
    assert_eq!(multi.gpu_requirements.memory_gb, 32);
}

#[test]
fn quantization_routes_to_vllm() {
    let e = select_engine("safetensors", &Some("AWQ".to_string()), false).unwrap();
    assert_eq!(e.name, "vllm");
    assert_eq!(e.gpu_requirements.memory_gb, 24);
    assert_eq!(e.probes.startup.initial_delay_seconds, 180);
    assert_eq!(e.probes.startup.failure_threshold, 180);
    assert_eq!(chart_of("custom", Some("gptq-int4"), false), "charts/model-serving-vllm");
    assert_eq!(chart_of("custom", Some("safetensors"), false), "charts/model-serving-vllm");
    // the quantization is upper-cased too
    assert_eq!(chart_of("custom", Some("awq"), false), "charts/model-serving-vllm");
}

#[test]
fn safetensors_awq_gptq_formats_route_to_vllm() {
    assert_eq!(chart_of("safetensors", None, false), "charts/model-serving-vllm");
    assert_eq!(chart_of("AWQ", None, false), "charts/model-serving-vllm");
    assert_eq!(chart_of("gptq", None, true), "charts/model-serving-vllm");
}

#[test]
fn tensorrt_and_pytorch() {
    let trt = select_engine("TensorRT", &None, false).unwrap();
    assert_eq!(trt.name, "triton-tensorrt-llm");
    assert_eq!(trt.gpu_requirements.architecture, "Hopper");
    assert_eq!(trt.gpu_requirements.memory_gb, 40);
    assert_eq!(trt.container_args, vec!["--triton-server", "--tensorrt-llm", "--max-batch-size 8"]);
    let pt = select_engine("PyTorch", &None, false).unwrap();
    assert_eq!(pt.name, "ray-serve");
    assert_eq!(pt.chart_path, "charts/model-serving-rayserve");
    assert_eq!(chart_of("weights.pt", None, false), "charts/model-serving-rayserve");
}

#[test]
fn quantization_checked_before_tensorrt() {
    assert_eq!(chart_of("tensorrt", Some("AWQ"), false), "charts/model-serving-vllm");
    assert_eq!(chart_of("tensorrt", Some("INT8"), false), "charts/model-serving-triton");
}

#[test]
fn unsupported_format_is_an_error() {
    match select_engine("unknown", &Some("INT8".to_string()), false) {
        Err(EngineError::UnsupportedFormat(f)) => assert_eq!(f, "unknown"),
        Ok(_) => panic!("expected an error"),
    }
    assert!(select_engine("", &None, false).is_err());
}

#[test]
fn decide_engine_on_upper_cased_inputs() {
    assert_eq!(decide_engine("GGUF", None, false), Some(EngineKind::LlamaCpp));
    // the inner decision does not upper-case again
    assert_eq!(decide_engine("gguf", None, false), None);
    assert_eq!(decide_engine("X", Some("GPTQ"), false), Some(EngineKind::Vllm));
    assert_eq!(decide_engine("ONNX", None, true), Some(EngineKind::TritonOnnx));
    assert_eq!(decide_engine("A.PT", None, true), Some(EngineKind::RayServe));
}

#[test]
fn every_engine_has_its_chart() {
    assert_eq!(engine_config(EngineKind::LlamaCpp).chart_path, "charts/model-serving-llamacpp");
    assert_eq!(engine_config(EngineKind::OnnxRuntimeGenai).chart_path, "charts/model-serving-onnx-rust");
    assert_eq!(engine_config(EngineKind::TritonOnnx).chart_path, "charts/model-serving-triton");
    assert_eq!(engine_config(EngineKind::Vllm).chart_path, "charts/model-serving-vllm");
    assert_eq!(engine_config(EngineKind::TritonTensorrtLlm).chart_path, "charts/model-serving-triton");
    assert_eq!(engine_config(EngineKind::RayServe).chart_path, "charts/model-serving-rayserve");
}

#[test]
fn probes_are_well_formed_for_every_engine() {
    for kind in [
        EngineKind::LlamaCpp,
        EngineKind::OnnxRuntimeGenai,
        EngineKind::TritonOnnx,
        EngineKind::Vllm,
        EngineKind::TritonTensorrtLlm,
        EngineKind::RayServe,
    ] {
        let p = engine_config(kind).probes;
        for probe in [&p.liveness, &p.startup, &p.readiness] {
            assert!(probe.http_get_path.is_some() != probe.tcp_socket_port.is_some());
            assert_eq!(probe.success_threshold, 1);
            assert!(probe.timeout_seconds < probe.period_seconds);
        }
        assert_eq!(p.liveness.tcp_socket_port, Some(8080));
        assert_eq!(p.liveness.http_get_path, None);
        assert_eq!(p.startup.http_get_path.as_deref(), Some("/health"));
        assert_eq!(p.readiness.http_get_path.as_deref(), Some("/health"));
        assert!(p.liveness.initial_delay_seconds <= p.startup.initial_delay_seconds);
        assert!(p.liveness.initial_delay_seconds <= p.readiness.initial_delay_seconds);
        assert!(p.readiness.failure_threshold <= p.startup.failure_threshold);
    }
}

#[test]
fn detect_format_from_metadata() {
    assert_eq!(detect_model_format(&None), "unknown");
    let cfg = ModelConfig {
        format: "GGUF".to_string(),
        quantization: None,
        layers: Some(32),
        hidden_size: None,
        vocab_size: None,
        head_dim: None,
        rope_scaling: None,
        attention_types: None,
    };
    assert_eq!(detect_model_format(&Some(cfg)), "GGUF");
}

#[test]
fn helm_values_for_an_engine() {
    let e = engine_config(EngineKind::Vllm);
    let v = helm_values(&e);
    assert_eq!(v.engine_type, "vllm");
    assert_eq!(v.replicas, 2);
    assert_eq!(v.resources.requests.cpu, "4000m");
    assert_eq!(v.resources.requests.memory, "16Gi");
    assert_eq!(v.resources.requests.nvidia_compu, "1");
    assert_eq!(v.resources.limits.cpu, "8000m");
    assert_eq!(v.resources.limits.memory, "32Gi");
    assert_eq!(v.resources.limits.nvidia_compu, "1");
    assert_eq!(v.image.repository, "onnx-ai-helm/vllm");
    assert_eq!(v.image.tag, "latest");
    assert_eq!(v.image.pull_policy, "IfNotPresent");
    assert_eq!(v.probes.startup.initial_delay_seconds, 180);
    assert!(v.auth.api_key_enabled);
    assert_eq!(v.auth.api_key_file.as_deref(), Some("/etc/caddy/api_key"));
    assert!(v.auth.sidecar_auth);
}

#[test]
fn helm_values_copy_llamacpp_tcp_probe() {
    let e = engine_config(EngineKind::LlamaCpp);
    let p = copy_probes(&e.probes);
    assert_eq!(p.liveness.tcp_socket_port, Some(8080));
    assert_eq!(p.startup.http_get_path.as_deref(), Some("/health"));
    assert_eq!(helm_values(&e).image.repository, "onnx-ai-helm/llama.cpp");
}

#[test]
fn values_file_is_named_after_the_model() {
    assert_eq!(values_file_name("example-model"), "example-model.yaml");
}

#[test]
fn bf16_fp16_formats_route_to_vllm() {
    assert_eq!(chart_of("bf16", None, false), "charts/model-serving-vllm");
    assert_eq!(chart_of("safetensors-FP16", None, true), "charts/model-serving-vllm");
}

#[test]
fn bin_checkpoint_routes_to_ray_serve() {
    assert_eq!(chart_of("pytorch_model.bin", None, false), "charts/model-serving-rayserve");
    assert_eq!(decide_engine("MODEL.BIN", None, false), Some(EngineKind::RayServe));
}

#[test]
fn metadata_format_wins_over_declared() {
    assert_eq!(model_format_for_selection(&None, "GGUF"), "GGUF");
    let cfg = ModelConfig {
        format: "ONNX".to_string(),
        quantization: None,
        layers: None,
        hidden_size: None,
        vocab_size: None,
        head_dim: None,
        rope_scaling: None,
        attention_types: None,
    };
    assert_eq!(model_format_for_selection(&Some(cfg), "GGUF"), "ONNX");
}
