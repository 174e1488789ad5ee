pub mod deepseek;
pub mod dialog;
pub mod gemini;
pub mod minimax;
pub mod reaction;
pub mod router;
pub mod schema;
pub mod tools;
