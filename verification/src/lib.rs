pub mod decimal;
pub mod math;
pub mod text;
