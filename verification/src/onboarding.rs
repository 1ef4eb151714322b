use vstd::prelude::*;
use vstd::string::*;

use crate::engine::{engine_config_spec, spec_decide_engine};
use crate::text::{
    lemma_contains_self, lemma_missing_char_not_contained, spec_to_lowercase, str_equals,
    to_lowercase,
};

verus! {

/// The model formats the platform can onboard.
#[derive(PartialEq, Eq, Structural, Clone, Copy, Debug)]
pub enum ModelFormat {
    Gguf,
    Onnx,
    Safetensors,
    Awq,
    Gptq,
    Tensorrt,
    Pytorch,
}

/// A format name that names no known format.
#[derive(Debug)]
pub enum FormatError {
    /// The name as given.
    UnknownFormat(String),
}

/// The Helm chart that serves each format.
pub open spec fn spec_format_chart(fmt: ModelFormat) -> Seq<char> {
    match fmt {
        ModelFormat::Gguf => "model-serving-llamacpp"@,
        ModelFormat::Onnx => "model-serving-onnx-rust"@,
        ModelFormat::Safetensors | ModelFormat::Awq | ModelFormat::Gptq => "model-serving-vllm"@,
        ModelFormat::Tensorrt => "model-serving-triton"@,
        ModelFormat::Pytorch => "model-serving-rayserve"@,
    }
}

/// The engine name recorded in the registry for each format.
pub open spec fn spec_format_engine(fmt: ModelFormat) -> Seq<char> {
    match fmt {
        ModelFormat::Gguf => "llamacpp"@,
        ModelFormat::Onnx => "onnxGenai"@,
        ModelFormat::Safetensors | ModelFormat::Awq | ModelFormat::Gptq => "vllm"@,
        ModelFormat::Tensorrt => "triton"@,
        ModelFormat::Pytorch => "rayserve"@,
    }
}

/// The format named by an already lower-cased name, with the aliases
/// `trt` for TensorRT and `pt` for PyTorch.
pub open spec fn spec_parse_lowercase_format(name: Seq<char>) -> Option<ModelFormat> {
    if name == "gguf"@ {
        Some(ModelFormat::Gguf)
    } else if name == "onnx"@ {
        Some(ModelFormat::Onnx)
    } else if name == "safetensors"@ {
        Some(ModelFormat::Safetensors)
    } else if name == "awq"@ {
        Some(ModelFormat::Awq)
    } else if name == "gptq"@ {
        Some(ModelFormat::Gptq)
    } else if name == "tensorrt"@ || name == "trt"@ {
        Some(ModelFormat::Tensorrt)
    } else if name == "pytorch"@ || name == "pt"@ {
        Some(ModelFormat::Pytorch)
    } else {
        None
    }
}

/// The chart that serves a format.
pub fn format_to_chart(fmt: ModelFormat) -> (chart: &'static str)
    ensures
        chart@ == spec_format_chart(fmt),
{
    match fmt {
        ModelFormat::Gguf => "model-serving-llamacpp",
        ModelFormat::Onnx => "model-serving-onnx-rust",
        ModelFormat::Safetensors | ModelFormat::Awq | ModelFormat::Gptq => "model-serving-vllm",
        ModelFormat::Tensorrt => "model-serving-triton",
        ModelFormat::Pytorch => "model-serving-rayserve",
    }
}

/// The registry's engine name for a format.
pub fn format_to_engine(fmt: ModelFormat) -> (engine: &'static str)
    ensures
        engine@ == spec_format_engine(fmt),
{
    match fmt {
        ModelFormat::Gguf => "llamacpp",
        ModelFormat::Onnx => "onnxGenai",
        ModelFormat::Safetensors | ModelFormat::Awq | ModelFormat::Gptq => "vllm",
        ModelFormat::Tensorrt => "triton",
        ModelFormat::Pytorch => "rayserve",
    }
}

/// Parses an already lower-cased format name.
pub fn parse_lowercase_format(name: &str) -> (fmt: Option<ModelFormat>)
    ensures
        fmt == spec_parse_lowercase_format(name@),
{
    if str_equals(name, "gguf") {
        Some(ModelFormat::Gguf)
    } else if str_equals(name, "onnx") {
        Some(ModelFormat::Onnx)
    } else if str_equals(name, "safetensors") {
        Some(ModelFormat::Safetensors)
    } else if str_equals(name, "awq") {
        Some(ModelFormat::Awq)
    } else if str_equals(name, "gptq") {
        Some(ModelFormat::Gptq)
    } else if str_equals(name, "tensorrt") || str_equals(name, "trt") {
        Some(ModelFormat::Tensorrt)
    } else if str_equals(name, "pytorch") || str_equals(name, "pt") {
        Some(ModelFormat::Pytorch)
    } else {
        None
    }
}

/// Parses a format name, compared lower-cased; an unknown name is an error
/// that carries the name as given.
pub fn parse_format(s: &str) -> (r: Result<ModelFormat, FormatError>)
    ensures
        match spec_parse_lowercase_format(spec_to_lowercase(s@)) {
            Some(fmt) => r == Ok::<ModelFormat, FormatError>(fmt),
            None => r matches Err(FormatError::UnknownFormat(name)) && name@ == s@,
        },
{
    let lower = to_lowercase(s);
    match parse_lowercase_format(lower.as_str()) {
        Some(fmt) => Ok(fmt),
        None => Err(FormatError::UnknownFormat(String::from_str(s))),
    }
}

/// The registry entry of a newly onboarded model (its VRAM figure, a float,
/// is added by the caller).
pub struct RegistryEntry {
    pub name: String,
    pub format: String,
    pub engine: String,
    pub chart: String,
    pub status: String,
    pub gpu_pool: String,
    pub context_length: u32,
    pub quantisation: String,
    pub gateway_backend: String,
    pub notes: String,
}

/// The gateway backend of a model: `<name>-local`.
pub open spec fn spec_gateway_backend(name: Seq<char>) -> Seq<char> {
    name + "-local"@
}

/// The notes recorded when none are given.
pub open spec fn spec_default_notes(format: Seq<char>, gpu_pool: Seq<char>) -> Seq<char> {
    "Model onboarded via model-onboarding tool, "@ + format + " format on "@ + gpu_pool + " pool"@
}

/// The gateway backend name of a model.
pub fn gateway_backend(name: &str) -> (backend: String)
    ensures
        backend@ == spec_gateway_backend(name@),
{
    let mut backend = String::from_str(name);
    backend.append("-local");
    backend
}

fn default_notes(format: &str, gpu_pool: &str) -> (notes: String)
    ensures
        notes@ == spec_default_notes(format@, gpu_pool@),
{
    let mut notes = String::from_str("Model onboarded via model-onboarding tool, ");
    notes.append(format);
    notes.append(" format on ");
    notes.append(gpu_pool);
    notes.append(" pool");
    notes
}

/// The registry entry for a model to onboard: the format is parsed (an
/// unknown one is refused), the chart and engine follow from it, the status
/// is `STAGED`, the quantisation defaults to `unknown` and the notes to a
/// sentence naming the format and the GPU pool.
pub fn onboarding_entry(
    name: &str,
    format: &str,
    gpu_pool: &str,
    context_length: u32,
    quantisation: &Option<String>,
    notes: &Option<String>,
) -> (r: Result<RegistryEntry, FormatError>)
    ensures
        match spec_parse_lowercase_format(spec_to_lowercase(format@)) {
            Some(fmt) => r matches Ok(e) && {
                &&& e.name@ == name@
                &&& e.format@ == format@
                &&& e.engine@ == spec_format_engine(fmt)
                &&& e.chart@ == spec_format_chart(fmt)
                &&& e.status@ == "STAGED"@
                &&& e.gpu_pool@ == gpu_pool@
                &&& e.context_length == context_length
                &&& e.quantisation@ == match quantisation {
                    Some(q) => q@,
                    None => "unknown"@,
                }
                &&& e.gateway_backend@ == spec_gateway_backend(name@)
                &&& e.notes@ == match notes {
                    Some(n) => n@,
                    None => spec_default_notes(format@, gpu_pool@),
                }
            },
            None => r matches Err(FormatError::UnknownFormat(f)) && f@ == format@,
        },
{
    let fmt = match parse_format(format) {
        Ok(fmt) => fmt,
        Err(e) => {
            return Err(e);
        },
    };
    let chart = format_to_chart(fmt);
    let engine = format_to_engine(fmt);
    Ok(
        RegistryEntry {
            name: String::from_str(name),
            format: String::from_str(format),
            engine: String::from_str(engine),
            chart: String::from_str(chart),
            status: String::from_str("STAGED"),
            gpu_pool: String::from_str(gpu_pool),
            context_length,
            quantisation: match quantisation {
                Some(q) => q.clone(),
                None => String::from_str("unknown"),
            },
            gateway_backend: gateway_backend(name),
            notes: match notes {
                Some(n) => n.clone(),
                None => default_notes(format, gpu_pool),
            },
        },
    )
}

/// The canonical upper-case name of a format, as the engine selector reads it.
pub open spec fn spec_format_keyword(fmt: ModelFormat) -> Seq<char> {
    match fmt {
        ModelFormat::Gguf => "GGUF"@,
        ModelFormat::Onnx => "ONNX"@,
        ModelFormat::Safetensors => "SAFETENSORS"@,
        ModelFormat::Awq => "AWQ"@,
        ModelFormat::Gptq => "GPTQ"@,
        ModelFormat::Tensorrt => "TENSORRT"@,
        ModelFormat::Pytorch => "PYTORCH"@,
    }
}

/// The canonical lower-case name of a format, as onboarding accepts it.
pub open spec fn spec_format_name(fmt: ModelFormat) -> Seq<char> {
    match fmt {
        ModelFormat::Gguf => "gguf"@,
        ModelFormat::Onnx => "onnx"@,
        ModelFormat::Safetensors => "safetensors"@,
        ModelFormat::Awq => "awq"@,
        ModelFormat::Gptq => "gptq"@,
        ModelFormat::Tensorrt => "tensorrt"@,
        ModelFormat::Pytorch => "pytorch"@,
    }
}

/// Every format's canonical name parses back to that format.
pub proof fn lemma_format_name_round_trip(fmt: ModelFormat)
    ensures
        spec_parse_lowercase_format(spec_format_name(fmt)) == Some(fmt),
{
    reveal_strlit("gguf");
    reveal_strlit("onnx");
    reveal_strlit("safetensors");
    reveal_strlit("awq");
    reveal_strlit("gptq");
    reveal_strlit("tensorrt");
    reveal_strlit("trt");
    reveal_strlit("pytorch");
    reveal_strlit("pt");
    let n = spec_format_name(fmt);
    assert(n.len() > 0);
    match fmt {
        ModelFormat::Gguf => {
            assert(spec_parse_lowercase_format(n) == Some(fmt));
        },
        ModelFormat::Onnx => {
            assert(n != "gguf"@) by { assert(n[0] != "gguf"@[0]); }
            assert(spec_parse_lowercase_format(n) == Some(fmt));
        },
        ModelFormat::Safetensors => {
            assert(n != "gguf"@) by { assert(n.len() != "gguf"@.len()); }
            assert(n != "onnx"@) by { assert(n.len() != "onnx"@.len()); }
            assert(spec_parse_lowercase_format(n) == Some(fmt));
        },
        ModelFormat::Awq => {
            assert(n != "gguf"@) by { assert(n.len() != "gguf"@.len()); }
            assert(n != "onnx"@) by { assert(n.len() != "onnx"@.len()); }
            assert(n != "safetensors"@) by { assert(n.len() != "safetensors"@.len()); }
            assert(spec_parse_lowercase_format(n) == Some(fmt));
        },
        ModelFormat::Gptq => {
            assert(n != "gguf"@) by { assert(n[1] != "gguf"@[1]); }
            assert(n != "onnx"@) by { assert(n[0] != "onnx"@[0]); }
            assert(n != "safetensors"@) by { assert(n.len() != "safetensors"@.len()); }
            assert(n != "awq"@) by { assert(n.len() != "awq"@.len()); }
            assert(spec_parse_lowercase_format(n) == Some(fmt));
        },
        ModelFormat::Tensorrt => {
            assert(n != "gguf"@) by { assert(n.len() != "gguf"@.len()); }
            assert(n != "onnx"@) by { assert(n.len() != "onnx"@.len()); }
            assert(n != "safetensors"@) by { assert(n.len() != "safetensors"@.len()); }
            assert(n != "awq"@) by { assert(n.len() != "awq"@.len()); }
            assert(n != "gptq"@) by { assert(n.len() != "gptq"@.len()); }
            assert(spec_parse_lowercase_format(n) == Some(fmt));
        },
        ModelFormat::Pytorch => {
            assert(n != "gguf"@) by { assert(n.len() != "gguf"@.len()); }
            assert(n != "onnx"@) by { assert(n.len() != "onnx"@.len()); }
            assert(n != "safetensors"@) by { assert(n.len() != "safetensors"@.len()); }
            assert(n != "awq"@) by { assert(n.len() != "awq"@.len()); }
            assert(n != "gptq"@) by { assert(n.len() != "gptq"@.len()); }
            assert(n != "tensorrt"@) by { assert(n[0] != "tensorrt"@[0]); }
            assert(n != "trt"@) by { assert(n.len() != "trt"@.len()); }
            assert(spec_parse_lowercase_format(n) == Some(fmt));
        },
    }
}

/// A name is accepted exactly when it is a format's canonical lower-case
/// name, or one of the aliases `trt` (TensorRT) and `pt` (PyTorch); it then
/// parses to the format so named, and every other name is refused.
pub proof fn lemma_parse_accepts_exactly_the_format_names(name: Seq<char>, fmt: ModelFormat)
    ensures
        spec_parse_lowercase_format(name) == Some(fmt) <==> (name == spec_format_name(fmt) || (fmt
            == ModelFormat::Tensorrt && name == "trt"@) || (fmt == ModelFormat::Pytorch && name
            == "pt"@)),
{
    reveal_strlit("gguf");
    reveal_strlit("onnx");
    reveal_strlit("safetensors");
    reveal_strlit("awq");
    reveal_strlit("gptq");
    reveal_strlit("tensorrt");
    reveal_strlit("trt");
    reveal_strlit("pytorch");
    reveal_strlit("pt");
    lemma_format_name_round_trip(fmt);
    if fmt == ModelFormat::Tensorrt && name == "trt"@ {
        assert(name != "gguf"@) by { assert(name.len() != "gguf"@.len()); }
        assert(name != "onnx"@) by { assert(name.len() != "onnx"@.len()); }
        assert(name != "safetensors"@) by { assert(name.len() != "safetensors"@.len()); }
        assert(name != "awq"@) by { assert(name[0] != "awq"@[0]); }
        assert(name != "gptq"@) by { assert(name.len() != "gptq"@.len()); }
        assert(name != "tensorrt"@) by { assert(name.len() != "tensorrt"@.len()); }
    }
    if fmt == ModelFormat::Pytorch && name == "pt"@ {
        assert(name != "gguf"@) by { assert(name.len() != "gguf"@.len()); }
        assert(name != "onnx"@) by { assert(name.len() != "onnx"@.len()); }
        assert(name != "safetensors"@) by { assert(name.len() != "safetensors"@.len()); }
        assert(name != "awq"@) by { assert(name.len() != "awq"@.len()); }
        assert(name != "gptq"@) by { assert(name.len() != "gptq"@.len()); }
        assert(name != "tensorrt"@) by { assert(name.len() != "tensorrt"@.len()); }
        assert(name != "trt"@) by { assert(name.len() != "trt"@.len()); }
        assert(name != "pytorch"@) by { assert(name.len() != "pytorch"@.len()); }
    }
}

/// The serving family of a format: formats with the same family are served
/// the same way.
pub open spec fn serving_family(fmt: ModelFormat) -> int {
    match fmt {
        ModelFormat::Gguf => 0,
        ModelFormat::Onnx => 1,
        ModelFormat::Safetensors | ModelFormat::Awq | ModelFormat::Gptq => 2,
        ModelFormat::Tensorrt => 3,
        ModelFormat::Pytorch => 4,
    }
}

/// The registry's engine name and chart go together: two formats are
/// recorded with the same engine exactly when they are recorded with the
/// same chart, and that is exactly when they belong to the same serving
/// family (safetensors, AWQ and GPTQ share vLLM; every other format has an
/// engine and chart of its own).
pub proof fn lemma_engine_name_matches_chart(f: ModelFormat, g: ModelFormat)
    ensures
        (spec_format_engine(f) == spec_format_engine(g)) <==> (spec_format_chart(f)
            == spec_format_chart(g)),
        (spec_format_chart(f) == spec_format_chart(g)) <==> (serving_family(f) == serving_family(
            g,
        )),
        (f == ModelFormat::Safetensors || f == ModelFormat::Awq || f == ModelFormat::Gptq) ==> (
        spec_format_engine(f) == "vllm"@ && spec_format_chart(f) == "model-serving-vllm"@),
{
    reveal_strlit("llamacpp");
    reveal_strlit("onnxGenai");
    reveal_strlit("vllm");
    reveal_strlit("triton");
    reveal_strlit("rayserve");
    reveal_strlit("model-serving-llamacpp");
    reveal_strlit("model-serving-onnx-rust");
    reveal_strlit("model-serving-vllm");
    reveal_strlit("model-serving-triton");
    reveal_strlit("model-serving-rayserve");
    assert("llamacpp"@ != "onnxGenai"@) by { assert("llamacpp"@.len() != "onnxGenai"@.len()); }
    assert("llamacpp"@ != "vllm"@) by { assert("llamacpp"@.len() != "vllm"@.len()); }
    assert("llamacpp"@ != "triton"@) by { assert("llamacpp"@.len() != "triton"@.len()); }
    assert("llamacpp"@ != "rayserve"@) by { assert("llamacpp"@[0] != "rayserve"@[0]); }
    assert("onnxGenai"@ != "vllm"@) by { assert("onnxGenai"@.len() != "vllm"@.len()); }
    assert("onnxGenai"@ != "triton"@) by { assert("onnxGenai"@.len() != "triton"@.len()); }
    assert("onnxGenai"@ != "rayserve"@) by { assert("onnxGenai"@.len() != "rayserve"@.len()); }
    assert("vllm"@ != "triton"@) by { assert("vllm"@.len() != "triton"@.len()); }
    assert("vllm"@ != "rayserve"@) by { assert("vllm"@.len() != "rayserve"@.len()); }
    assert("triton"@ != "rayserve"@) by { assert("triton"@.len() != "rayserve"@.len()); }
    let c0 = "model-serving-llamacpp"@;
    let c1 = "model-serving-onnx-rust"@;
    let c2 = "model-serving-vllm"@;
    let c3 = "model-serving-triton"@;
    let c4 = "model-serving-rayserve"@;
    assert(c0 != c1) by { assert(c0.len() != c1.len()); }
    assert(c0 != c2) by { assert(c0.len() != c2.len()); }
    assert(c0 != c3) by { assert(c0.len() != c3.len()); }
    assert(c0 != c4) by { assert(c0[14] != c4[14]); }
    assert(c1 != c2) by { assert(c1.len() != c2.len()); }
    assert(c1 != c3) by { assert(c1.len() != c3.len()); }
    assert(c1 != c4) by { assert(c1.len() != c4.len()); }
    assert(c2 != c3) by { assert(c2.len() != c3.len()); }
    assert(c2 != c4) by { assert(c2.len() != c4.len()); }
    assert(c3 != c4) by { assert(c3.len() != c4.len()); }
}

/// Onboarding and engine selection agree: for every format, the engine
/// selector, given the format's canonical name with no quantization for a
/// single-model deployment, picks an engine whose chart is the one that
/// onboarding records for the format.
pub proof fn lemma_onboarding_chart_matches_selector(fmt: ModelFormat)
    ensures
        spec_decide_engine(spec_format_keyword(fmt), None, false) matches Some(kind)
            && engine_config_spec(kind).chart_path == "charts/"@ + spec_format_chart(fmt),
{
    reveal_strlit("GGUF");
    reveal_strlit("ONNX");
    reveal_strlit("SAFETENSORS");
    reveal_strlit("AWQ");
    reveal_strlit("GPTQ");
    reveal_strlit("TENSORRT");
    reveal_strlit("PYTORCH");
    reveal_strlit("BF16");
    reveal_strlit("FP16");
    reveal_strlit("charts/");
    reveal_strlit("model-serving-llamacpp");
    reveal_strlit("charts/model-serving-llamacpp");
    reveal_strlit("model-serving-onnx-rust");
    reveal_strlit("charts/model-serving-onnx-rust");
    reveal_strlit("model-serving-vllm");
    reveal_strlit("charts/model-serving-vllm");
    reveal_strlit("model-serving-triton");
    reveal_strlit("charts/model-serving-triton");
    reveal_strlit("model-serving-rayserve");
    reveal_strlit("charts/model-serving-rayserve");
    let kw = spec_format_keyword(fmt);
    lemma_contains_self(kw);
    match fmt {
        ModelFormat::Gguf => {
            assert("charts/model-serving-llamacpp"@ =~= "charts/"@ + "model-serving-llamacpp"@);
        },
        ModelFormat::Onnx => {
            lemma_missing_char_not_contained(kw, "GGUF"@, 0);
            assert("charts/model-serving-onnx-rust"@ =~= "charts/"@ + "model-serving-onnx-rust"@);
        },
        ModelFormat::Safetensors => {
            lemma_missing_char_not_contained(kw, "GGUF"@, 0);
            lemma_missing_char_not_contained(kw, "ONNX"@, 3);
            assert("charts/model-serving-vllm"@ =~= "charts/"@ + "model-serving-vllm"@);
        },
        ModelFormat::Awq => {
            lemma_missing_char_not_contained(kw, "GGUF"@, 0);
            lemma_missing_char_not_contained(kw, "ONNX"@, 0);
            assert("charts/model-serving-vllm"@ =~= "charts/"@ + "model-serving-vllm"@);
        },
        ModelFormat::Gptq => {
            lemma_missing_char_not_contained(kw, "GGUF"@, 2);
            lemma_missing_char_not_contained(kw, "ONNX"@, 0);
            assert("charts/model-serving-vllm"@ =~= "charts/"@ + "model-serving-vllm"@);
        },
        ModelFormat::Tensorrt => {
            lemma_missing_char_not_contained(kw, "GGUF"@, 0);
            lemma_missing_char_not_contained(kw, "ONNX"@, 3);
            lemma_missing_char_not_contained(kw, "SAFETENSORS"@, 2);
            lemma_missing_char_not_contained(kw, "BF16"@, 0);
            lemma_missing_char_not_contained(kw, "FP16"@, 0);
            lemma_missing_char_not_contained(kw, "AWQ"@, 0);
            lemma_missing_char_not_contained(kw, "GPTQ"@, 0);
            assert("charts/model-serving-triton"@ =~= "charts/"@ + "model-serving-triton"@);
        },
        ModelFormat::Pytorch => {
            lemma_missing_char_not_contained(kw, "GGUF"@, 0);
            lemma_missing_char_not_contained(kw, "ONNX"@, 1);
            lemma_missing_char_not_contained(kw, "SAFETENSORS"@, 0);
            lemma_missing_char_not_contained(kw, "BF16"@, 0);
            lemma_missing_char_not_contained(kw, "FP16"@, 0);
            lemma_missing_char_not_contained(kw, "AWQ"@, 0);
            lemma_missing_char_not_contained(kw, "GPTQ"@, 0);
            lemma_missing_char_not_contained(kw, "TENSORRT"@, 1);
            assert("charts/model-serving-rayserve"@ =~= "charts/"@ + "model-serving-rayserve"@);
        },
    }
}

} // verus!
