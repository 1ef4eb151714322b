use vstd::prelude::*;
use vstd::string::*;

use crate::engine::{EngineConfig, Probe, ProbeConfig};

verus! {

pub struct ResourceRequests {
    pub cpu: String,
    pub memory: String,
    pub nvidia_compu: String,
}

pub struct ResourceLimits {
    pub cpu: String,
    pub memory: String,
    pub nvidia_compu: String,
}

pub struct ResourceRequirements {
    pub requests: ResourceRequests,
    pub limits: ResourceLimits,
}

pub struct ImageConfig {
    pub repository: String,
    pub tag: String,
    pub pull_policy: String,
}

pub struct AuthConfig {
    pub api_key_enabled: bool,
    pub api_key_file: Option<String>,
    pub sidecar_auth: bool,
}

/// The Helm values written for a model served by an engine.
pub struct HelmValues {
    pub engine_type: String,
    pub replicas: u32,
    pub resources: ResourceRequirements,
    pub image: ImageConfig,
    pub probes: ProbeConfig,
    pub auth: AuthConfig,
}

fn copy_probe(p: &Probe) -> (c: Probe)
    ensures
        c@ == p@,
{
    Probe {
        initial_delay_seconds: p.initial_delay_seconds,
        period_seconds: p.period_seconds,
        timeout_seconds: p.timeout_seconds,
        failure_threshold: p.failure_threshold,
        success_threshold: p.success_threshold,
        http_get_path: match &p.http_get_path {
            Some(path) => Some(path.clone()),
            None => None,
        },
        tcp_socket_port: p.tcp_socket_port,
    }
}

/// A copy of a set of probes.
pub fn copy_probes(p: &ProbeConfig) -> (c: ProbeConfig)
    ensures
        c@ == p@,
{
    ProbeConfig {
        liveness: copy_probe(&p.liveness),
        startup: copy_probe(&p.startup),
        readiness: copy_probe(&p.readiness),
    }
}

/// The Helm values for an engine: two replicas, fixed CPU/memory/GPU
/// requests and limits, the engine's image from the `onnx-ai-helm/`
/// repository, the engine's probes, and API-key auth through the sidecar.
pub fn helm_values(engine: &EngineConfig) -> (v: HelmValues)
    ensures
        v.engine_type@ == engine.name@,
        v.replicas == 2,
        v.resources.requests.cpu@ == "4000m"@,
        v.resources.requests.memory@ == "16Gi"@,
        v.resources.requests.nvidia_compu@ == "1"@,
        v.resources.limits.cpu@ == "8000m"@,
        v.resources.limits.memory@ == "32Gi"@,
        v.resources.limits.nvidia_compu@ == "1"@,
        v.image.repository@ == "onnx-ai-helm/"@ + engine.name@,
        v.image.tag@ == "latest"@,
        v.image.pull_policy@ == "IfNotPresent"@,
        v.probes@ == engine.probes@,
        v.auth.api_key_enabled,
        v.auth.api_key_file matches Some(f) && f@ == "/etc/caddy/api_key"@,
        v.auth.sidecar_auth,
{
    let mut repository = String::from_str("onnx-ai-helm/");
    repository.append(engine.name.as_str());
    HelmValues {
        engine_type: engine.name.clone(),
        replicas: 2,
        resources: ResourceRequirements {
            requests: ResourceRequests {
                cpu: String::from_str("4000m"),
                memory: String::from_str("16Gi"),
                nvidia_compu: String::from_str("1"),
            },
            limits: ResourceLimits {
                cpu: String::from_str("8000m"),
                memory: String::from_str("32Gi"),
                nvidia_compu: String::from_str("1"),
            },
        },
        image: ImageConfig {
            repository,
            tag: String::from_str("latest"),
            pull_policy: String::from_str("IfNotPresent"),
        },
        probes: copy_probes(&engine.probes),
        auth: AuthConfig {
            api_key_enabled: true,
            api_key_file: Some(String::from_str("/etc/caddy/api_key")),
            sidecar_auth: true,
        },
    }
}

/// The name of the values file written for a model: `<model_name>.yaml`.
pub fn values_file_name(model_name: &str) -> (name: String)
    ensures
        name@ == model_name@ + ".yaml"@,
{
    let mut name = String::from_str(model_name);
    name.append(".yaml");
    name
}

} // verus!
