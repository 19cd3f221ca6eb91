pub mod engine;
pub mod json;
pub mod persist;
pub mod renderable;
pub mod template;
pub mod text;
