//! The effect catalogue and the selection and input bookkeeping of a WebGL2
//! shader engine. Rendering, the DOM and the floating-point controllers live in
//! the application crate; this crate holds the parts that are plain data and
//! integer logic, with their contracts.
pub mod effects;
pub mod engine;
