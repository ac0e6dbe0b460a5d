//! A verified reference model of the delegated engine's boundary contract.
//!
//! The real engine walks a source tree on disk, recognizes doc-comment
//! syntax and matches declarations in raw text; none of that is owned here.
//! What this crate does own is the behavior the orchestration relies on at
//! the boundary: a rewrite pass updates the doc comment of every declaration
//! the record set knows, preserves the comments of declarations it does not
//! know, never touches non-comment code, and skips ignored files; a strip
//! pass removes every doc comment from every non-ignored file. This module
//! states that behavior over a tree model and proves the laws the
//! orchestration depends on: a rewrite pass is idempotent, a strip pass is
//! idempotent, a strip pass undoes exactly what a rewrite pass added, and an
//! ignored file is never changed by either.

use vstd::prelude::*;

verus! {

/// One record of a parsed documentation blob: the comment text intended for
/// one symbol. Later records override earlier ones for the same symbol.
#[derive(Debug, PartialEq, Eq)]
pub struct DocRecord {
    pub symbol: String,
    pub text: String,
}

/// A declaration in a source file: its symbol, its non-comment source text,
/// and the doc comment currently above it, if any.
#[derive(Debug, PartialEq, Eq)]
pub struct Decl {
    pub symbol: String,
    pub code: String,
    pub doc: Option<String>,
}

/// A source file of the target tree, named by its path relative to the
/// target root.
#[derive(Debug, PartialEq, Eq)]
pub struct SourceFile {
    pub path: String,
    pub decls: Vec<Decl>,
}

/// The model of the target tree: the files a traversal visits, in order.
#[derive(Debug, PartialEq, Eq)]
pub struct FileTree {
    pub files: Vec<SourceFile>,
}

pub ghost struct DeclModel {
    pub symbol: Seq<char>,
    pub code: Seq<char>,
    pub doc: Option<Seq<char>>,
}

pub ghost struct FileModel {
    pub path: Seq<char>,
    pub decls: Seq<DeclModel>,
}

pub ghost struct RecordModel {
    pub symbol: Seq<char>,
    pub text: Seq<char>,
}

impl View for DocRecord {
    type V = RecordModel;

    open spec fn view(&self) -> RecordModel {
        RecordModel { symbol: self.symbol@, text: self.text@ }
    }
}

impl View for Decl {
    type V = DeclModel;

    open spec fn view(&self) -> DeclModel {
        DeclModel {
            symbol: self.symbol@,
            code: self.code@,
            doc: match self.doc {
                Some(s) => Some(s@),
                None => None,
            },
        }
    }
}

impl View for SourceFile {
    type V = FileModel;

    open spec fn view(&self) -> FileModel {
        FileModel { path: self.path@, decls: self.decls@.map_values(|d: Decl| d@) }
    }
}

impl View for FileTree {
    type V = Seq<FileModel>;

    open spec fn view(&self) -> Seq<FileModel> {
        self.files@.map_values(|f: SourceFile| f@)
    }
}

pub open spec fn records_model(records: Seq<DocRecord>) -> Seq<RecordModel> {
    records.map_values(|r: DocRecord| r@)
}

pub open spec fn ignores_model(ignores: Seq<String>) -> Seq<Seq<char>> {
    ignores.map_values(|s: String| s@)
}

/// The comment text a record set intends for `symbol`: that of the last
/// record for the symbol, later records overriding earlier ones.
pub open spec fn record_text(records: Seq<RecordModel>, symbol: Seq<char>) -> Option<Seq<char>>
    decreases records.len(),
{
    if records.len() == 0 {
        None
    } else if records.last().symbol == symbol {
        Some(records.last().text)
    } else {
        record_text(records.drop_last(), symbol)
    }
}

/// A rewrite pass over one declaration: the doc comment becomes the record
/// set's text for the symbol if there is one, and is preserved otherwise;
/// the non-comment code is never touched.
pub open spec fn rewrite_decl_model(d: DeclModel, records: Seq<RecordModel>) -> DeclModel {
    match record_text(records, d.symbol) {
        Some(t) => DeclModel { symbol: d.symbol, code: d.code, doc: Some(t) },
        None => d,
    }
}

pub open spec fn rewrite_file_model(f: FileModel, records: Seq<RecordModel>) -> FileModel {
    FileModel {
        path: f.path,
        decls: f.decls.map_values(|d: DeclModel| rewrite_decl_model(d, records)),
    }
}

/// Whether a path, relative to the target root, is excluded from traversal.
pub open spec fn path_ignored(ignores: Seq<Seq<char>>, path: Seq<char>) -> bool {
    ignores.contains(path)
}

/// A rewrite pass over the whole tree: every non-ignored file is rewritten,
/// every ignored file is left as it was.
pub open spec fn rewrite_tree_model(
    t: Seq<FileModel>,
    records: Seq<RecordModel>,
    ignores: Seq<Seq<char>>,
) -> Seq<FileModel> {
    t.map_values(
        |f: FileModel|
            if path_ignored(ignores, f.path) {
                f
            } else {
                rewrite_file_model(f, records)
            },
    )
}

/// A strip pass over one declaration: the doc comment is removed, the
/// non-comment code is never touched.
pub open spec fn strip_decl_model(d: DeclModel) -> DeclModel {
    DeclModel { symbol: d.symbol, code: d.code, doc: None }
}

pub open spec fn strip_file_model(f: FileModel) -> FileModel {
    FileModel { path: f.path, decls: f.decls.map_values(|d: DeclModel| strip_decl_model(d)) }
}

/// A strip pass over the whole tree: every non-ignored file loses its doc
/// comments, every ignored file is left as it was.
pub open spec fn strip_tree_model(t: Seq<FileModel>, ignores: Seq<Seq<char>>) -> Seq<FileModel> {
    t.map_values(
        |f: FileModel|
            if path_ignored(ignores, f.path) {
                f
            } else {
                strip_file_model(f)
            },
    )
}

/// Looks up the comment text the record set intends for `symbol`, later
/// records overriding earlier ones.
pub fn record_lookup(records: &Vec<DocRecord>, symbol: &String) -> (r: Option<String>)
    ensures
        match r {
            Some(t) => record_text(records_model(records@), symbol@) == Some(t@),
            None => record_text(records_model(records@), symbol@) is None,
        },
{
    let ghost rs = records_model(records@);
    let mut i: usize = records.len();
    proof {
        assert(rs.take(records@.len() as int) =~= rs);
    }
    while i > 0
        invariant
            i <= records@.len(),
            rs == records_model(records@),
            record_text(rs, symbol@) == record_text(rs.take(i as int), symbol@),
        decreases i,
    {
        let j = i - 1;
        if records[j].symbol == *symbol {
            proof {
                assert(rs.take(j + 1).last() == rs[j as int]);
            }
            return Some(records[j].text.clone());
        }
        proof {
            assert(rs.take(i as int).last() == rs[j as int]);
            assert(rs.take(i as int).drop_last() =~= rs.take(j as int));
        }
        i = j;
    }
    proof {
        assert(rs.take(0) =~= Seq::<RecordModel>::empty());
    }
    None
}

/// Whether `path` stands in the ignore list.
pub fn file_ignored(ignores: &Vec<String>, path: &String) -> (r: bool)
    ensures
        r == path_ignored(ignores_model(ignores@), path@),
{
    let mut i: usize = 0;
    while i < ignores.len()
        invariant
            i <= ignores@.len(),
            forall|j: int| 0 <= j < i ==> ignores_model(ignores@)[j] != path@,
        decreases ignores@.len() - i,
    {
        if ignores[i] == *path {
            proof {
                assert(ignores_model(ignores@)[i as int] == path@);
            }
            return true;
        }
        i = i + 1;
    }
    false
}

fn clone_decl(d: &Decl) -> (r: Decl)
    ensures
        r@ == d@,
{
    Decl {
        symbol: d.symbol.clone(),
        code: d.code.clone(),
        doc: match &d.doc {
            Some(s) => Some(s.clone()),
            None => None,
        },
    }
}

fn clone_file(f: &SourceFile) -> (r: SourceFile)
    ensures
        r@ == f@,
{
    let mut decls: Vec<Decl> = Vec::new();
    let mut i: usize = 0;
    while i < f.decls.len()
        invariant
            i <= f.decls@.len(),
            decls@.len() == i,
            forall|j: int| 0 <= j < i ==> #[trigger] decls@[j]@ == f@.decls[j],
        decreases f.decls@.len() - i,
    {
        decls.push(clone_decl(&f.decls[i]));
        i = i + 1;
    }
    let r = SourceFile { path: f.path.clone(), decls };
    proof {
        assert(r@.decls =~= f@.decls);
    }
    r
}

/// A rewrite pass over one declaration, as the engine contract states it.
pub fn rewrite_decl(d: &Decl, records: &Vec<DocRecord>) -> (r: Decl)
    ensures
        r@ == rewrite_decl_model(d@, records_model(records@)),
{
    match record_lookup(records, &d.symbol) {
        Some(t) => Decl { symbol: d.symbol.clone(), code: d.code.clone(), doc: Some(t) },
        None => clone_decl(d),
    }
}

/// A rewrite pass over one file.
pub fn rewrite_file(f: &SourceFile, records: &Vec<DocRecord>) -> (r: SourceFile)
    ensures
        r@ == rewrite_file_model(f@, records_model(records@)),
{
    let mut decls: Vec<Decl> = Vec::new();
    let mut i: usize = 0;
    while i < f.decls.len()
        invariant
            i <= f.decls@.len(),
            decls@.len() == i,
            forall|j: int|
                0 <= j < i ==> #[trigger] decls@[j]@ == rewrite_decl_model(
                    f@.decls[j],
                    records_model(records@),
                ),
        decreases f.decls@.len() - i,
    {
        decls.push(rewrite_decl(&f.decls[i], records));
        i = i + 1;
    }
    let r = SourceFile { path: f.path.clone(), decls };
    proof {
        assert(r@.decls =~= rewrite_file_model(f@, records_model(records@)).decls);
    }
    r
}

/// A rewrite pass over the whole tree: every non-ignored file is rewritten
/// from the record set, every ignored file is left exactly as it was.
pub fn rewrite_tree(t: &FileTree, records: &Vec<DocRecord>, ignores: &Vec<String>) -> (r: FileTree)
    ensures
        r@ == rewrite_tree_model(t@, records_model(records@), ignores_model(ignores@)),
{
    let mut files: Vec<SourceFile> = Vec::new();
    let mut i: usize = 0;
    while i < t.files.len()
        invariant
            i <= t.files@.len(),
            files@.len() == i,
            forall|j: int|
                0 <= j < i ==> #[trigger] files@[j]@ == rewrite_tree_model(
                    t@,
                    records_model(records@),
                    ignores_model(ignores@),
                )[j],
        decreases t.files@.len() - i,
    {
        let f = &t.files[i];
        if file_ignored(ignores, &f.path) {
            files.push(clone_file(f));
        } else {
            files.push(rewrite_file(f, records));
        }
        i = i + 1;
    }
    let r = FileTree { files };
    proof {
        assert(r@ =~= rewrite_tree_model(t@, records_model(records@), ignores_model(ignores@)));
    }
    r
}

/// A strip pass over one declaration: the doc comment goes, the code stays.
pub fn strip_decl(d: &Decl) -> (r: Decl)
    ensures
        r@ == strip_decl_model(d@),
{
    Decl { symbol: d.symbol.clone(), code: d.code.clone(), doc: None }
}

/// A strip pass over one file.
pub fn strip_file(f: &SourceFile) -> (r: SourceFile)
    ensures
        r@ == strip_file_model(f@),
{
    let mut decls: Vec<Decl> = Vec::new();
    let mut i: usize = 0;
    while i < f.decls.len()
        invariant
            i <= f.decls@.len(),
            decls@.len() == i,
            forall|j: int| 0 <= j < i ==> #[trigger] decls@[j]@ == strip_decl_model(f@.decls[j]),
        decreases f.decls@.len() - i,
    {
        decls.push(strip_decl(&f.decls[i]));
        i = i + 1;
    }
    let r = SourceFile { path: f.path.clone(), decls };
    proof {
        assert(r@.decls =~= strip_file_model(f@).decls);
    }
    r
}

/// A strip pass over the whole tree: every non-ignored file loses its doc
/// comments, every ignored file is left exactly as it was.
pub fn strip_tree(t: &FileTree, ignores: &Vec<String>) -> (r: FileTree)
    ensures
        r@ == strip_tree_model(t@, ignores_model(ignores@)),
{
    let mut files: Vec<SourceFile> = Vec::new();
    let mut i: usize = 0;
    while i < t.files.len()
        invariant
            i <= t.files@.len(),
            files@.len() == i,
            forall|j: int|
                0 <= j < i ==> #[trigger] files@[j]@ == strip_tree_model(
                    t@,
                    ignores_model(ignores@),
                )[j],
        decreases t.files@.len() - i,
    {
        let f = &t.files[i];
        if file_ignored(ignores, &f.path) {
            files.push(clone_file(f));
        } else {
            files.push(strip_file(f));
        }
        i = i + 1;
    }
    let r = FileTree { files };
    proof {
        assert(r@ =~= strip_tree_model(t@, ignores_model(ignores@)));
    }
    r
}

proof fn lemma_rewrite_decl_idempotent(d: DeclModel, records: Seq<RecordModel>)
    ensures
        rewrite_decl_model(rewrite_decl_model(d, records), records) == rewrite_decl_model(
            d,
            records,
        ),
{
    assert(rewrite_decl_model(d, records).symbol == d.symbol);
}

proof fn lemma_rewrite_file_idempotent(f: FileModel, records: Seq<RecordModel>)
    ensures
        rewrite_file_model(rewrite_file_model(f, records), records) == rewrite_file_model(
            f,
            records,
        ),
{
    let once = rewrite_file_model(f, records);
    let twice = rewrite_file_model(once, records);
    assert forall|j: int| 0 <= j < once.decls.len() implies twice.decls[j] == once.decls[j] by {
        lemma_rewrite_decl_idempotent(f.decls[j], records);
    }
    assert(twice.decls =~= once.decls);
}

/// Law: a rewrite pass is idempotent. Once a tree has been rewritten from a
/// record set, rewriting it again from the same record set with the same
/// ignore list changes nothing: every known symbol already carries the
/// record's text, every other comment is preserved as it stands.
pub proof fn lemma_rewrite_pass_idempotent(
    t: Seq<FileModel>,
    records: Seq<RecordModel>,
    ignores: Seq<Seq<char>>,
)
    ensures
        rewrite_tree_model(rewrite_tree_model(t, records, ignores), records, ignores)
            == rewrite_tree_model(t, records, ignores),
{
    let once = rewrite_tree_model(t, records, ignores);
    let twice = rewrite_tree_model(once, records, ignores);
    assert forall|i: int| 0 <= i < t.len() implies twice[i] == once[i] by {
        if !path_ignored(ignores, t[i].path) {
            assert(once[i].path == t[i].path);
            lemma_rewrite_file_idempotent(t[i], records);
        }
    }
    assert(twice =~= once);
}

proof fn lemma_rewrite_decl_pair_idempotent(
    d: DeclModel,
    primary: Seq<RecordModel>,
    vendor: Seq<RecordModel>,
)
    ensures
        rewrite_decl_model(
            rewrite_decl_model(
                rewrite_decl_model(rewrite_decl_model(d, primary), vendor),
                primary,
            ),
            vendor,
        ) == rewrite_decl_model(rewrite_decl_model(d, primary), vendor),
{
    assert(rewrite_decl_model(d, primary).symbol == d.symbol);
    assert(rewrite_decl_model(rewrite_decl_model(d, primary), vendor).symbol == d.symbol);
}

proof fn lemma_rewrite_file_pair_idempotent(
    f: FileModel,
    primary: Seq<RecordModel>,
    vendor: Seq<RecordModel>,
)
    ensures
        rewrite_file_model(
            rewrite_file_model(
                rewrite_file_model(rewrite_file_model(f, primary), vendor),
                primary,
            ),
            vendor,
        ) == rewrite_file_model(rewrite_file_model(f, primary), vendor),
{
    let once = rewrite_file_model(rewrite_file_model(f, primary), vendor);
    let twice = rewrite_file_model(rewrite_file_model(once, primary), vendor);
    assert forall|j: int| 0 <= j < once.decls.len() implies twice.decls[j] == once.decls[j] by {
        lemma_rewrite_decl_pair_idempotent(f.decls[j], primary, vendor);
    }
    assert(twice.decls =~= once.decls);
}

/// Law: an embed that runs both of its passes — the primary record set,
/// then the vendor record set — is idempotent as a whole. Running the same
/// two passes a second time over the resulting tree changes nothing: every
/// symbol either carries the text of the last record set that knows it, or
/// its comment from before the first run, and a second run reproduces both.
pub proof fn lemma_embed_passes_idempotent(
    t: Seq<FileModel>,
    primary: Seq<RecordModel>,
    vendor: Seq<RecordModel>,
    ignores: Seq<Seq<char>>,
)
    ensures
        rewrite_tree_model(
            rewrite_tree_model(
                rewrite_tree_model(
                    rewrite_tree_model(t, primary, ignores),
                    vendor,
                    ignores,
                ),
                primary,
                ignores,
            ),
            vendor,
            ignores,
        ) == rewrite_tree_model(rewrite_tree_model(t, primary, ignores), vendor, ignores),
{
    let once = rewrite_tree_model(rewrite_tree_model(t, primary, ignores), vendor, ignores);
    let twice = rewrite_tree_model(
        rewrite_tree_model(once, primary, ignores),
        vendor,
        ignores,
    );
    assert forall|i: int| 0 <= i < t.len() implies twice[i] == once[i] by {
        if !path_ignored(ignores, t[i].path) {
            assert(rewrite_tree_model(t, primary, ignores)[i].path == t[i].path);
            assert(once[i].path == t[i].path);
            assert(rewrite_tree_model(once, primary, ignores)[i].path == t[i].path);
            lemma_rewrite_file_pair_idempotent(t[i], primary, vendor);
        }
    }
    assert(twice =~= once);
}

proof fn lemma_strip_file_idempotent(f: FileModel)
    ensures
        strip_file_model(strip_file_model(f)) == strip_file_model(f),
{
    let once = strip_file_model(f);
    let twice = strip_file_model(once);
    assert(twice.decls =~= once.decls);
}

/// Law: a strip pass is idempotent. Once a tree has been purged, purging it
/// again with the same ignore list is a no-op: no doc comment remains to
/// strip.
pub proof fn lemma_strip_pass_idempotent(t: Seq<FileModel>, ignores: Seq<Seq<char>>)
    ensures
        strip_tree_model(strip_tree_model(t, ignores), ignores) == strip_tree_model(t, ignores),
{
    let once = strip_tree_model(t, ignores);
    let twice = strip_tree_model(once, ignores);
    assert forall|i: int| 0 <= i < t.len() implies twice[i] == once[i] by {
        if !path_ignored(ignores, t[i].path) {
            assert(once[i].path == t[i].path);
            lemma_strip_file_idempotent(t[i]);
        }
    }
    assert(twice =~= once);
}

proof fn lemma_strip_after_rewrite_file(f: FileModel, records: Seq<RecordModel>)
    ensures
        strip_file_model(rewrite_file_model(f, records)) == strip_file_model(f),
{
    let stripped = strip_file_model(rewrite_file_model(f, records));
    assert(stripped.decls =~= strip_file_model(f).decls);
}

/// Law: a strip pass removes exactly what a rewrite pass added. Purging a
/// tree that was just embedded, with the same ignore list, yields the same
/// tree as purging the original: the rewrite touched only doc comments, so
/// the comment-free projection of the tree is unchanged by it.
pub proof fn lemma_purge_reverses_embed(
    t: Seq<FileModel>,
    records: Seq<RecordModel>,
    ignores: Seq<Seq<char>>,
)
    ensures
        strip_tree_model(rewrite_tree_model(t, records, ignores), ignores) == strip_tree_model(
            t,
            ignores,
        ),
{
    let embedded = rewrite_tree_model(t, records, ignores);
    let purged = strip_tree_model(embedded, ignores);
    assert forall|i: int| 0 <= i < t.len() implies purged[i] == strip_tree_model(t, ignores)[i] by {
        if !path_ignored(ignores, t[i].path) {
            assert(embedded[i].path == t[i].path);
            lemma_strip_after_rewrite_file(t[i], records);
        }
    }
    assert(purged =~= strip_tree_model(t, ignores));
}

/// Law: a file whose path stands in the ignore list is never changed, by a
/// rewrite pass or by a strip pass, whatever the record set holds for its
/// symbols.
pub proof fn lemma_ignored_file_untouched(
    t: Seq<FileModel>,
    records: Seq<RecordModel>,
    ignores: Seq<Seq<char>>,
    i: int,
)
    requires
        0 <= i < t.len(),
        path_ignored(ignores, t[i].path),
    ensures
        rewrite_tree_model(t, records, ignores)[i] == t[i],
        strip_tree_model(t, ignores)[i] == t[i],
{
}

/// Law: a rewrite pass never touches non-comment code. It preserves every
/// file's path, every declaration's symbol and source text, and adds or
/// replaces doc comments only.
pub proof fn lemma_rewrite_preserves_code(f: FileModel, records: Seq<RecordModel>)
    ensures
        rewrite_file_model(f, records).path == f.path,
        rewrite_file_model(f, records).decls.len() == f.decls.len(),
        forall|j: int|
            0 <= j < f.decls.len() ==> (#[trigger] rewrite_file_model(f, records).decls[j]).symbol
                == f.decls[j].symbol,
        forall|j: int|
            0 <= j < f.decls.len() ==> (#[trigger] rewrite_file_model(f, records).decls[j]).code
                == f.decls[j].code,
{
}

} // verus!
