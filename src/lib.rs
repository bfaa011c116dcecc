//! Generation and rendering of benchmark samples: a random signed 16-bit
//! value followed by a random version-4 identifier in canonical text form.

pub mod decimal;
pub mod identifier;
pub mod sample;
