//! Embeds curated API documentation into generated binding sources, and
//! strips it back out.
//!
//! The crate owns a static catalog mapping each supported library to its
//! embedded documentation blobs, and the orchestration that turns an embed
//! or purge request into an ordered sequence of passes over a source tree.
//! The heavy lifting — parsing the documentation markup, walking the tree
//! and rewriting comment blocks — is delegated to the `stripper_lib` engine:
//! the pure parsing step is called here, the file traversal is run by the
//! caller from the produced plan, and the per-file behavior the plans rely
//! on is stated and proved over a reference model of the engine boundary.

pub mod catalog;
pub mod engine;
pub mod plan;

pub use catalog::docs;
pub use catalog::vendor_docs;
pub use catalog::Library;
pub use plan::embed;
pub use plan::purge;
pub use plan::Plan;
pub use plan::PlanPass;
pub use plan::RecordSet;
