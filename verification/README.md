# onnx-ai-helm tools

The decision logic of the platform's command-line tools, verified with Verus.

- `src/engine.rs` — the engine decision tree (GGUF → llama.cpp, ONNX →
  ONNX Runtime GenAI or Triton, safetensors (BF16/FP16)/AWQ/GPTQ → vLLM, TensorRT →
  Triton, PyTorch (.pt/.bin) → Ray Serve) and the configuration each engine is deployed with.
- `src/helm.rs` — the Helm values written for a selected engine.
- `src/onboarding.rs` — format parsing, chart and engine per format, and the
  registry entry of a newly onboarded model.
- `src/vram.rs` — the FP8 gate, quantization factor and KV-cache size of the
  VRAM budget.
- `src/text.rs` — case mapping and substring search on strings.
- `app/` — the command-line programs (`engine-selector`, `vram-budget-calc`,
  `model-onboarding`): argument parsing, files, JSON/YAML, and the
  floating-point budget arithmetic.
