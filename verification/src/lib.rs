//! A person record with a mutable name and a freely mutable age, together
//! with the report line that a host page displays for a freshly made record.

pub mod decimal;
pub mod escape;
pub mod person;
