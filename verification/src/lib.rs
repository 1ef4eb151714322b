//! Decision logic of the model-serving platform tools: engine selection,
//! model onboarding and the VRAM budget gate, with their contracts.

pub mod engine;
pub mod helm;
pub mod onboarding;
pub mod text;
pub mod vram;
