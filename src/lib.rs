//! Decoding of CST (Carnegie Speech Tools) voice containers, such as the
//! `.flitevox` files of the flite speech synthesiser.
//!
//! The format is not self-describing: every decode is driven by a shape that
//! the caller knows. Primitive reads live on [`Deserializer`]; shapes implement
//! [`Decode`]; [`from_bytes`] decodes one top-level value.
pub mod de;
pub mod decode;
pub mod error;
pub mod gender;
pub mod header;
pub mod laws;
pub mod voice;
pub mod wire;

pub use de::{from_bytes, from_bytes_exact, Deserializer};
pub use decode::Decode;
pub use error::Error;
pub use gender::Gender;
pub use header::{EndOfFeatures, Features, Header, Language};
pub use voice::{Body, CstVal, F0Tree, Tree, TreeDb, TreeFeatures, TreeNode};
