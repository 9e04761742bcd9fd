//! Document session policy of an editor host: which file is open, whether a
//! package skeleton is kept for surgical saves, unsaved changes, and the
//! live text selection. File dialogs, parsing and disk writes are the
//! host's; this module decides what they change and where a save goes.

use vstd::prelude::*;

verus! {

/// Where a save request writes.
#[derive(Debug, PartialEq, Eq)]
pub enum SaveTarget<'a, F> {
    /// Save to the document's current file.
    File(&'a F),
    /// No file yet: ask the user for one (Save As).
    Ask,
}

/// What a right-click landed on.
#[derive(Debug, Clone, PartialEq, Eq)]
pub enum ContextTarget {
    Annotation(String),
    Page,
    Empty,
}

/// The annotation a context menu opens for: only annotation targets offer
/// a menu (page and desk right-clicks open nothing).
pub fn context_menu_annotation(target: &ContextTarget) -> (id: Option<&String>)
    ensures
        match *target {
            ContextTarget::Annotation(a) => id == Some(&a),
            _ => id is None,
        },
{
    match target {
        ContextTarget::Annotation(id) => Some(id),
        _ => None,
    }
}

/// Host-side document state: `F` is the host's file path type, `P` the
/// package skeleton type kept for surgical saves.
pub struct DocumentSession<F, P> {
    /// Path of the loaded document, if any.
    pub file: Option<F>,
    /// Package skeleton for surgical save (only ever comes from parsing).
    pub package: Option<P>,
    /// Unsaved changes.
    pub modified: bool,
    /// A body-text selection is live (enables the markup actions).
    pub has_selection: bool,
}

impl<F, P> DocumentSession<F, P> {
    /// A fresh session: no file, no package, nothing to save.
    pub fn new() -> (s: Self)
        ensures
            s.file is None,
            s.package is None,
            !s.modified,
            !s.has_selection,
    {
        DocumentSession { file: None, package: None, modified: false, has_selection: false }
    }

    /// A new, empty document replaced the current one.
    pub fn new_document(&mut self)
        ensures
            final(self).file is None,
            final(self).package is None,
            !final(self).modified,
            final(self).has_selection == old(self).has_selection,
    {
        self.file = None;
        self.package = None;
        self.modified = false;
    }

    /// A file was opened from the UI and parsed: it becomes the current
    /// file, its package is kept, and nothing is unsaved.
    pub fn opened(&mut self, path: F, package: Option<P>)
        ensures
            final(self).file == Some(path),
            final(self).package == package,
            !final(self).modified,
            final(self).has_selection == old(self).has_selection,
    {
        self.package = package;
        self.file = Some(path);
        self.modified = false;
    }

    /// A file named on the command line was loaded at startup.
    pub fn loaded_at_startup(&mut self, path: F, package: Option<P>)
        ensures
            final(self).file == Some(path),
            final(self).package == package,
            final(self).modified == old(self).modified,
            final(self).has_selection == old(self).has_selection,
    {
        self.package = package;
        self.file = Some(path);
    }

    /// The document changed.
    pub fn changed(&mut self)
        ensures
            final(self).modified,
            final(self).file == old(self).file,
            final(self).package == old(self).package,
            final(self).has_selection == old(self).has_selection,
    {
        self.modified = true;
    }

    /// The body-text selection appeared or went away.
    pub fn selection_changed(&mut self, has_selection: bool)
        ensures
            final(self).has_selection == has_selection,
            final(self).modified == old(self).modified,
            final(self).file == old(self).file,
            final(self).package == old(self).package,
    {
        self.has_selection = has_selection;
    }

    /// Whether the save action is offered (there are unsaved changes).
    pub fn can_save(&self) -> (b: bool)
        ensures
            b == self.modified,
    {
        self.modified
    }

    /// Whether markup actions over the text selection are offered.
    pub fn can_markup(&self) -> (b: bool)
        ensures
            b == self.has_selection,
    {
        self.has_selection
    }

    /// Where a save request writes: the current file, or Save As without
    /// one.
    pub fn save_target(&self) -> (t: SaveTarget<'_, F>)
        ensures
            match self.file {
                Some(f) => t == SaveTarget::File(&f),
                None => t == SaveTarget::<F>::Ask,
            },
    {
        match &self.file {
            Some(f) => SaveTarget::File(f),
            None => SaveTarget::Ask,
        }
    }

    /// A save to the current file was issued: nothing is unsaved.
    pub fn saved(&mut self)
        ensures
            !final(self).modified,
            final(self).file == old(self).file,
            final(self).package == old(self).package,
            final(self).has_selection == old(self).has_selection,
    {
        self.modified = false;
    }

    /// A Save As to `path` was issued: it becomes the current file. The
    /// package is kept as it is (Save As mints none; later saves stay full
    /// writes until the file is opened again).
    pub fn saved_as(&mut self, path: F)
        ensures
            final(self).file == Some(path),
            !final(self).modified,
            final(self).package == old(self).package,
            final(self).has_selection == old(self).has_selection,
    {
        self.modified = false;
        self.file = Some(path);
    }
}

} // verus!
