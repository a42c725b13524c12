pub mod text;
pub mod model;
pub mod codegen;
pub mod laws;
