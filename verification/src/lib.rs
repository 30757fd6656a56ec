//! The data of a mod-distribution service: a pack's local manifest and the
//! service's answers, read from JSON text into typed records and written back.

pub mod error;
pub mod file;
pub mod fingerprint;
pub mod json;
pub mod load;
pub mod pack;
pub mod paths;
pub mod record;
pub mod response;
pub mod version;

pub use error::CurseError;
pub use file::{CurseFile, Logo};
pub use fingerprint::{CurseFingerPrint, FingerPrintInfo};
pub use load::pack_from_read;
pub use pack::{CursePack, CursePackFiles};
pub use record::{from_text, to_text, Record};
pub use response::{unwrap_response, unwrap_value, CurseResponse};
pub use version::{CurseVersion, CurseVersions};
