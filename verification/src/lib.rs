//! Verified core of a small desktop backend that captures the screen,
//! extracts text from images, translates text, speaks text aloud, and
//! reports permissions and system information.
//!
//! Everything that computes or decides lives here with a contract; the
//! process spawning, file reading and HTTP traffic around it live in the
//! unverified application shell.

pub mod capture;
pub mod codec;
pub mod decimal;
pub mod errors;
pub mod json;
pub mod ocr;
pub mod permissions;
pub mod scratch;
pub mod speech;
pub mod sysinfo;
pub mod text;
pub mod tool;
pub mod translate;
