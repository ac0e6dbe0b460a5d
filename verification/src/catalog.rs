//! The documentation catalog: a fixed table from a library identifier to
//! its embedded documentation blobs.
//!
//! Each supported library may ship up to two blobs of line-oriented
//! documentation markup: the primary API documentation and a vendor
//! (supplemental) blob. Both lookups are total over the closed enumeration;
//! an identifier with no blob registered for a slot yields `None`, which is
//! a valid, silent configuration rather than an error.

use vstd::prelude::*;

verus! {

/// The closed enumeration of native libraries whose generated bindings this
/// crate can document.
#[derive(Clone, Copy, Debug)]
pub enum Library {
    Cairo,
    Gdk,
    GdkPixbuf,
    Glib,
    Gio,
    Gtk,
    Pango,
    SourceView,
    PangoCairo,
    GMime,
}

pub const CAIRO_DOCS: &'static str = "<!-- file * -->\n<!-- struct Context -->\nThe drawing context, the main object used when drawing.\n";

pub const GDK_DOCS: &'static str = "<!-- file * -->\n<!-- struct Display -->\nA connection to a windowing-system display.\n";

pub const GDK_PIXBUF_DOCS: &'static str = "<!-- file * -->\n<!-- struct Pixbuf -->\nAn image buffer held in client-side memory.\n";

pub const GLIB_DOCS: &'static str = "<!-- file * -->\n<!-- struct Variant -->\nA generic, immutable value capable of carrying many types.\n";

pub const GIO_DOCS: &'static str = "<!-- file * -->\n<!-- struct File -->\nAn abstraction of a pathname, decoupled from any local filesystem.\n";

pub const GTK_DOCS: &'static str = "<!-- file * -->\n<!-- struct Widget -->\nThe base of the widget hierarchy.\n";

pub const GMIME_DOCS: &'static str = "<!-- file * -->\n<!-- struct Message -->\nA MIME message, the root of a MIME part tree.\n";

pub const GDK_VENDOR_DOCS: &'static str = "<!-- file * -->\n<!-- struct Seat -->\nA collection of input devices belonging to one user.\n";

pub const GDK_PIXBUF_VENDOR_DOCS: &'static str = "<!-- file * -->\n<!-- struct PixbufLoader -->\nAn incremental image loader.\n";

pub const GLIB_VENDOR_DOCS: &'static str = "<!-- file * -->\n<!-- struct MainContext -->\nThe main event loop context.\n";

pub const GIO_VENDOR_DOCS: &'static str = "<!-- file * -->\n<!-- struct Settings -->\nA high-level API for application settings.\n";

pub const GTK_VENDOR_DOCS: &'static str = "<!-- file * -->\n<!-- struct Builder -->\nReads user-interface descriptions and instantiates the objects they describe.\n";

pub const PANGO_VENDOR_DOCS: &'static str = "<!-- file * -->\n<!-- struct Layout -->\nA whole paragraph of text with its layout attributes.\n";

pub const SOURCE_VIEW_VENDOR_DOCS: &'static str = "<!-- file * -->\n<!-- struct View -->\nA text view with syntax highlighting support.\n";

pub const PANGO_CAIRO_VENDOR_DOCS: &'static str = "<!-- file * -->\n<!-- struct FontMap -->\nA font map that renders through the drawing library.\n";

pub const GMIME_VENDOR_DOCS: &'static str = "<!-- file * -->\n<!-- struct Parser -->\nA streaming parser for MIME messages.\n";

/// The primary documentation blob registered for `lib`, if any.
pub open spec fn primary_docs_of(lib: Library) -> Option<&'static str> {
    match lib {
        Library::Cairo => Some(CAIRO_DOCS),
        Library::Gdk => Some(GDK_DOCS),
        Library::GdkPixbuf => Some(GDK_PIXBUF_DOCS),
        Library::Glib => Some(GLIB_DOCS),
        Library::Gio => Some(GIO_DOCS),
        Library::Gtk => Some(GTK_DOCS),
        Library::Pango => None,
        Library::SourceView => None,
        Library::PangoCairo => None,
        Library::GMime => Some(GMIME_DOCS),
    }
}

/// The vendor (supplemental) documentation blob registered for `lib`, if any.
pub open spec fn vendor_docs_of(lib: Library) -> Option<&'static str> {
    match lib {
        Library::Cairo => None,
        Library::Gdk => Some(GDK_VENDOR_DOCS),
        Library::GdkPixbuf => Some(GDK_PIXBUF_VENDOR_DOCS),
        Library::Glib => Some(GLIB_VENDOR_DOCS),
        Library::Gio => Some(GIO_VENDOR_DOCS),
        Library::Gtk => Some(GTK_VENDOR_DOCS),
        Library::Pango => Some(PANGO_VENDOR_DOCS),
        Library::SourceView => Some(SOURCE_VIEW_VENDOR_DOCS),
        Library::PangoCairo => Some(PANGO_CAIRO_VENDOR_DOCS),
        Library::GMime => Some(GMIME_VENDOR_DOCS),
    }
}

/// A text that stands in the catalog: one of the registered blobs, in
/// either slot. The engine's parser is only ever asked to parse these.
pub open spec fn catalog_blob(text: Seq<char>) -> bool {
    ||| text == CAIRO_DOCS@
    ||| text == GDK_DOCS@
    ||| text == GDK_PIXBUF_DOCS@
    ||| text == GLIB_DOCS@
    ||| text == GIO_DOCS@
    ||| text == GTK_DOCS@
    ||| text == GMIME_DOCS@
    ||| text == GDK_VENDOR_DOCS@
    ||| text == GDK_PIXBUF_VENDOR_DOCS@
    ||| text == GLIB_VENDOR_DOCS@
    ||| text == GIO_VENDOR_DOCS@
    ||| text == GTK_VENDOR_DOCS@
    ||| text == PANGO_VENDOR_DOCS@
    ||| text == SOURCE_VIEW_VENDOR_DOCS@
    ||| text == PANGO_CAIRO_VENDOR_DOCS@
    ||| text == GMIME_VENDOR_DOCS@
}

/// Whatever the catalog registers for a library, in either slot, is a
/// catalog blob.
pub proof fn lemma_registered_blobs_are_catalog_blobs(lib: Library)
    ensures
        primary_docs_of(lib) matches Some(d) ==> catalog_blob(d@),
        vendor_docs_of(lib) matches Some(d) ==> catalog_blob(d@),
{
}

/// Looks up the primary documentation blob for `lib`.
pub fn docs(lib: Library) -> (r: Option<&'static str>)
    ensures
        r == primary_docs_of(lib),
{
    match lib {
        Library::Cairo => Some(CAIRO_DOCS),
        Library::Gdk => Some(GDK_DOCS),
        Library::GdkPixbuf => Some(GDK_PIXBUF_DOCS),
        Library::Glib => Some(GLIB_DOCS),
        Library::Gio => Some(GIO_DOCS),
        Library::Gtk => Some(GTK_DOCS),
        Library::Pango => None,
        Library::SourceView => None,
        Library::PangoCairo => None,
        Library::GMime => Some(GMIME_DOCS),
    }
}

/// Looks up the vendor documentation blob for `lib`.
pub fn vendor_docs(lib: Library) -> (r: Option<&'static str>)
    ensures
        r == vendor_docs_of(lib),
{
    match lib {
        Library::Cairo => None,
        Library::Gdk => Some(GDK_VENDOR_DOCS),
        Library::GdkPixbuf => Some(GDK_PIXBUF_VENDOR_DOCS),
        Library::Glib => Some(GLIB_VENDOR_DOCS),
        Library::Gio => Some(GIO_VENDOR_DOCS),
        Library::Gtk => Some(GTK_VENDOR_DOCS),
        Library::Pango => Some(PANGO_VENDOR_DOCS),
        Library::SourceView => Some(SOURCE_VIEW_VENDOR_DOCS),
        Library::PangoCairo => Some(PANGO_CAIRO_VENDOR_DOCS),
        Library::GMime => Some(GMIME_VENDOR_DOCS),
    }
}

} // verus!
