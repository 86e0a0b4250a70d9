//! The home screen: the files picked or dropped so far, until they are submitted.

use std::path::PathBuf;
use vstd::prelude::*;

verus! {

/// A path of the standard library, carried through untouched.
#[verifier::external_type_specification]
#[verifier::external_body]
pub struct ExPathBuf(PathBuf);

/// The home screen's state.
pub struct HomePage {
    uploaded_files: Vec<PathBuf>,
    drag_hover: bool,
}

impl HomePage {
    /// The files collected so far, in the order they came.
    pub closed spec fn files(&self) -> Seq<PathBuf> {
        self.uploaded_files@
    }

    /// Files are being dragged over the window.
    pub closed spec fn hovering(&self) -> bool {
        self.drag_hover
    }

    /// The files collected so far.
    pub fn uploaded_files(&self) -> (r: &Vec<PathBuf>)
        ensures
            r@ == self.files(),
    {
        &self.uploaded_files
    }

    /// Whether files are being dragged over the window.
    pub fn drag_hover(&self) -> (r: bool)
        ensures
            r == self.hovering(),
    {
        self.drag_hover
    }

    /// Records whether files are being dragged over the window.
    pub fn set_drag_hover(&mut self, hovering: bool)
        ensures
            final(self).hovering() == hovering,
            final(self).files() == old(self).files(),
    {
        self.drag_hover = hovering;
    }

    /// Files picked in the dialog or dropped on the window join the list, in order.
    pub fn add_files(&mut self, paths: Vec<PathBuf>)
        ensures
            final(self).files() == old(self).files() + paths@,
            final(self).hovering() == old(self).hovering(),
    {
        let mut paths = paths;
        self.uploaded_files.append(&mut paths);
    }

    /// Whether there is anything to submit or clear.
    pub fn has_files(&self) -> (r: bool)
        ensures
            r == (self.files().len() > 0),
    {
        self.uploaded_files.len() > 0
    }

    /// "Clear Files": the list is emptied.
    pub fn clear_files(&mut self)
        ensures
            final(self).files().len() == 0,
            final(self).hovering() == old(self).hovering(),
    {
        self.uploaded_files.clear();
    }

    /// "Submit": hands over every file collected, in order, and empties the list;
    /// with no file there is nothing to submit.
    pub fn submit(&mut self) -> (submitted: Option<Vec<PathBuf>>)
        ensures
            old(self).files().len() == 0 ==> submitted is None && final(self).files() == old(self).files(),
            old(self).files().len() > 0 ==> submitted is Some && submitted->0@ == old(self).files()
                && final(self).files().len() == 0,
            final(self).hovering() == old(self).hovering(),
    {
        if self.uploaded_files.len() == 0 {
            return None;
        }
        let mut out: Vec<PathBuf> = Vec::new();
        std::mem::swap(&mut out, &mut self.uploaded_files);
        Some(out)
    }
}

impl Default for HomePage {
    /// No file collected, nothing dragged over the window.
    fn default() -> (page: Self)
        ensures
            page.files().len() == 0,
            !page.hovering(),
    {
        HomePage { uploaded_files: Vec::new(), drag_hover: false }
    }
}

} // verus!
