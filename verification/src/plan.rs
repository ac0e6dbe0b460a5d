//! The embed and purge orchestrators.
//!
//! An embed request resolves the catalog entries for the requested library
//! and parses each registered blob into its record set, in a fixed order:
//! the primary blob first, then the vendor blob. A purge request is a single
//! unconditional strip pass. Both are returned as a [`Plan`]: the ordered
//! passes together with the traversal inputs (target root and ignore list)
//! passed through unchanged, ready to be run over the target tree by the
//! engine's file traversal.

use std::collections::HashMap;
use vstd::prelude::*;

verus! {

use crate::catalog::Library;
use crate::catalog::catalog_blob;
use crate::catalog::docs;
use crate::catalog::lemma_registered_blobs_are_catalog_blobs;
use crate::catalog::primary_docs_of;
use crate::catalog::vendor_docs;
use crate::catalog::vendor_docs_of;

/// Declares `stripper_lib::TypeStruct`, the engine's description of one
/// documented declaration, so record sets can be carried through a plan.
/// The orchestration never looks inside a value of it.
#[verifier::external_type_specification]
#[verifier::external_body]
pub struct ExTypeStruct(stripper_lib::TypeStruct);

/// The record set a documentation blob parses to: keyed by the source file
/// the records apply to (`None` means every file), each record holding a
/// documented symbol and its comment lines.
pub type RecordSet = HashMap<Option<String>, Vec<(Option<stripper_lib::TypeStruct>, Vec<String>)>>;

/// The records that the engine's parser derives from a documentation blob,
/// a function of the blob text alone.
pub uninterp spec fn parsed_records(text: Seq<char>) -> Map<
    Option<String>,
    Vec<(Option<stripper_lib::TypeStruct>, Vec<String>)>,
>;

/// Relies on `stripper_lib::parse_cmts`: the records it derives are a
/// function of the text alone. The parser can panic on text of another
/// shape than the catalog's blobs (a leading line that is no file marker,
/// or a marker line with an empty symbol path), so only registered blobs
/// are admitted. The flag requests the macro-tolerant parser mode this
/// crate always uses.
#[verifier::external_body]
fn parse_records(text: &str) -> (r: RecordSet)
    requires
        catalog_blob(text@),
    ensures
        r@ == parsed_records(text@),
{
    stripper_lib::parse_cmts(text.lines(), true)
}

/// One pass of a plan, to be run over the whole target tree.
pub enum PlanPass {
    /// Rewrite doc comments in every visited file from the given record set.
    Rewrite(RecordSet),
    /// Strip doc comments from every visited file.
    Strip,
}

/// An ordered sequence of passes over a target tree. The target root and
/// the ignore list are carried through unchanged and apply identically to
/// every pass.
pub struct Plan {
    pub path: String,
    pub ignores: Vec<String>,
    pub passes: Vec<PlanPass>,
}

/// The blob texts an embed of `lib` applies, in order: the primary blob, if
/// registered, then the vendor blob, if registered.
pub open spec fn embed_blobs(lib: Library) -> Seq<Seq<char>> {
    let p: Seq<Seq<char>> = match primary_docs_of(lib) {
        Some(d) => seq![d@],
        None => Seq::empty(),
    };
    let v: Seq<Seq<char>> = match vendor_docs_of(lib) {
        Some(d) => seq![d@],
        None => Seq::empty(),
    };
    p + v
}

/// Plans the embedding of `library`'s documentation into the tree rooted at
/// `path`: one rewrite pass per registered blob, primary before vendor, each
/// carrying the record set parsed from its blob. A library with no
/// registered blob yields a plan with no passes, a valid, silent outcome.
pub fn embed(library: Library, path: String, ignores: Vec<String>) -> (plan: Plan)
    ensures
        plan.path == path,
        plan.ignores == ignores,
        plan.passes@.len() == embed_blobs(library).len(),
        forall|i: int|
            0 <= i < plan.passes@.len() ==> ((#[trigger] plan.passes@[i]) matches
                PlanPass::Rewrite(r) && r@ == parsed_records(embed_blobs(library)[i])),
{
    proof {
        lemma_registered_blobs_are_catalog_blobs(library);
    }
    let mut passes: Vec<PlanPass> = Vec::new();
    if let Some(d) = docs(library) {
        passes.push(PlanPass::Rewrite(parse_records(d)));
    }
    if let Some(d) = vendor_docs(library) {
        passes.push(PlanPass::Rewrite(parse_records(d)));
    }
    Plan { path, ignores, passes }
}

/// Plans the purge of doc comments from the tree rooted at `path`: a single
/// unconditional strip pass, not scoped to any library's documentation.
pub fn purge(path: String, ignores: Vec<String>) -> (plan: Plan)
    ensures
        plan.path == path,
        plan.ignores == ignores,
        plan.passes@.len() == 1,
        plan.passes@[0] is Strip,
{
    let mut passes: Vec<PlanPass> = Vec::new();
    passes.push(PlanPass::Strip);
    Plan { path, ignores, passes }
}

} // verus!
