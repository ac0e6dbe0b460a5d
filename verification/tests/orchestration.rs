use lgpl_docs::{docs, embed, purge, vendor_docs, Library, PlanPass, RecordSet};

fn symbol_names(records: &RecordSet) -> Vec<String> {
    let mut names = Vec::new();
    for (_file, entries) in records.iter() {
        for (ty, _comments) in entries.iter() {
            if let Some(t) = ty {
                names.push(t.name.clone());
            }
        }
    }
    names
}

#[test]
fn catalog_primary_presence() {
    assert!(docs(Library::Cairo).is_some());
    assert!(docs(Library::Gdk).is_some());
    assert!(docs(Library::GdkPixbuf).is_some());
    assert!(docs(Library::Glib).is_some());
    assert!(docs(Library::Gio).is_some());
    assert!(docs(Library::Gtk).is_some());
    assert!(docs(Library::GMime).is_some());
    assert!(docs(Library::Pango).is_none());
    assert!(docs(Library::SourceView).is_none());
    assert!(docs(Library::PangoCairo).is_none());
}

#[test]
fn catalog_vendor_presence() {
    assert!(vendor_docs(Library::Cairo).is_none());
    assert!(vendor_docs(Library::Gdk).is_some());
    assert!(vendor_docs(Library::GdkPixbuf).is_some());
    assert!(vendor_docs(Library::Glib).is_some());
    assert!(vendor_docs(Library::Gio).is_some());
    assert!(vendor_docs(Library::Gtk).is_some());
    assert!(vendor_docs(Library::Pango).is_some());
    assert!(vendor_docs(Library::SourceView).is_some());
    assert!(vendor_docs(Library::PangoCairo).is_some());
    assert!(vendor_docs(Library::GMime).is_some());
}

#[test]
fn embed_plans_one_pass_per_registered_blob() {
    let both = embed(Library::Gtk, "out".to_string(), vec![]);
    assert_eq!(both.passes.len(), 2);
    let primary_only = embed(Library::Cairo, "out".to_string(), vec![]);
    assert_eq!(primary_only.passes.len(), 1);
    let vendor_only = embed(Library::Pango, "out".to_string(), vec![]);
    assert_eq!(vendor_only.passes.len(), 1);
}

#[test]
fn embed_orders_primary_before_vendor() {
    let plan = embed(Library::Gtk, "out".to_string(), vec![]);
    assert_eq!(plan.passes.len(), 2);
    match &plan.passes[0] {
        PlanPass::Rewrite(records) => {
            // The primary blob documents Widget.
            assert_eq!(symbol_names(records), vec!["Widget".to_string()]);
        }
        PlanPass::Strip => panic!("an embed plan never strips"),
    }
    match &plan.passes[1] {
        PlanPass::Rewrite(records) => {
            // The vendor blob documents Builder.
            assert_eq!(symbol_names(records), vec!["Builder".to_string()]);
        }
        PlanPass::Strip => panic!("an embed plan never strips"),
    }
}

#[test]
fn embed_passes_really_parse_their_blob() {
    let plan = embed(Library::Glib, "out".to_string(), vec![]);
    match &plan.passes[0] {
        PlanPass::Rewrite(records) => {
            // Records are keyed by file; the blob applies to every file.
            assert_eq!(records.len(), 1);
            let entries = records.get(&None).expect("a record set for every file");
            assert_eq!(entries.len(), 1);
            let (ty, comments) = &entries[0];
            assert_eq!(ty.as_ref().expect("a typed record").name, "Variant");
            let joined = comments.join("\n");
            assert!(joined.contains("generic, immutable value"));
        }
        PlanPass::Strip => panic!("an embed plan never strips"),
    }
}

#[test]
fn embed_carries_traversal_inputs_unchanged() {
    let ignores = vec!["skip/a.rs".to_string(), "skip/b.rs".to_string()];
    let plan = embed(Library::Gio, "generated/src".to_string(), ignores.clone());
    assert_eq!(plan.path, "generated/src");
    assert_eq!(plan.ignores, ignores);
}

#[test]
fn purge_plans_a_single_strip_pass() {
    let ignores = vec!["keep.rs".to_string()];
    let plan = purge("generated/src".to_string(), ignores.clone());
    assert_eq!(plan.path, "generated/src");
    assert_eq!(plan.ignores, ignores);
    assert_eq!(plan.passes.len(), 1);
    assert!(matches!(plan.passes[0], PlanPass::Strip));
}

#[test]
fn embed_twice_plans_the_same_passes() {
    let once = embed(Library::Gdk, "out".to_string(), vec![]);
    let again = embed(Library::Gdk, "out".to_string(), vec![]);
    assert_eq!(once.passes.len(), again.passes.len());
    for (a, b) in once.passes.iter().zip(again.passes.iter()) {
        match (a, b) {
            (PlanPass::Rewrite(ra), PlanPass::Rewrite(rb)) => {
                assert_eq!(symbol_names(ra), symbol_names(rb));
            }
            _ => panic!("an embed plan only rewrites"),
        }
    }
}
