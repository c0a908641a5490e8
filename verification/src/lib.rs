//! A small text-transformation library: it removes the ten ASCII vowel
//! characters from a text while leaving every other character in place,
//! and it supplies the argument checking and fixed error messages of the
//! command-line front end that drives the transformation.

pub mod driver;
pub mod text;

pub use driver::check_arg_count;
pub use driver::error_message;
pub use driver::DriverError;
pub use text::disemvowel;
