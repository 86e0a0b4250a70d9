//! What the PDF viewer remembers between frames: the engine, the page shown and the
//! last error.

use crate::pdf::PdfEngine;
use vstd::prelude::*;

verus! {

/// The page the "previous page" button leads to from page `page`.
pub open spec fn page_before(page: u16) -> u16 {
    if page > 0 {
        (page - 1) as u16
    } else {
        page
    }
}

/// The page the "next page" button leads to from page `page` of `count`.
pub open spec fn page_after(page: u16, count: u16) -> u16 {
    if page + 1 < count {
        (page + 1) as u16
    } else {
        page
    }
}

/// The page buttons never leave the document: from a page of the document, both lead
/// to a page of the document.
pub proof fn lemma_page_buttons_stay_in_document(page: u16, count: u16)
    requires
        page < count,
    ensures
        page_before(page) < count,
        page_after(page, count) < count,
{
}

/// "Next" then "previous" comes back to the page one started from, unless "next"
/// had nowhere to go; "previous" then "next" too, unless "previous" had nowhere to go.
pub proof fn lemma_page_buttons_undo_each_other(page: u16, count: u16)
    requires
        page < count,
    ensures
        page + 1 < count ==> page_before(page_after(page, count)) == page,
        page > 0 ==> page_after(page_before(page), count) == page,
{
}

/// The PDF viewer's state.
pub struct PdfRenderState {
    pub pdf_engine: Option<PdfEngine>,
    pub current_pdf_page: u16,
    pub pdf_page_count: u16,
    pub pdf_error_message: Option<String>,
}

impl PdfRenderState {
    /// No document, page 0 of 0, no error.
    pub fn new() -> (s: Self)
        ensures
            s.pdf_engine is None,
            s.current_pdf_page == 0,
            s.pdf_page_count == 0,
            s.pdf_error_message is None,
    {
        PdfRenderState {
            pdf_engine: None,
            current_pdf_page: 0,
            pdf_page_count: 0,
            pdf_error_message: None,
        }
    }

    /// Takes the outcome of loading a PDF. On success the engine is kept, the viewer
    /// shows its first page and the error is cleared; on failure only the error message
    /// changes. Returns whether the load succeeded.
    pub fn load_file(&mut self, loaded: Result<PdfEngine, String>) -> (ok: bool)
        ensures
            ok == (loaded is Ok),
            match loaded {
                Ok(engine) => {
                    &&& final(self).pdf_engine == Some(engine)
                    &&& final(self).pdf_page_count == engine.pages()
                    &&& final(self).current_pdf_page == 0
                    &&& final(self).pdf_error_message is None
                },
                Err(e) => {
                    &&& final(self).pdf_engine == old(self).pdf_engine
                    &&& final(self).pdf_page_count == old(self).pdf_page_count
                    &&& final(self).current_pdf_page == old(self).current_pdf_page
                    &&& final(self).pdf_error_message == Some(e)
                },
            },
    {
        match loaded {
            Ok(engine) => {
                self.pdf_page_count = engine.page_count();
                self.current_pdf_page = 0;
                self.pdf_engine = Some(engine);
                self.pdf_error_message = None;
                true
            },
            Err(e) => {
                self.pdf_error_message = Some(e);
                false
            },
        }
    }

    /// Forgets the document: no engine, page 0 of 0. The last error stays.
    pub fn clear(&mut self)
        ensures
            final(self).pdf_engine is None,
            final(self).current_pdf_page == 0,
            final(self).pdf_page_count == 0,
            final(self).pdf_error_message == old(self).pdf_error_message,
    {
        self.pdf_engine = None;
        self.current_pdf_page = 0;
        self.pdf_page_count = 0;
    }

    /// The "previous page" button: moves back one page unless on the first one.
    /// Returns whether the page changed.
    pub fn previous_page(&mut self) -> (moved: bool)
        ensures
            moved == (old(self).current_pdf_page > 0),
            final(self).current_pdf_page == page_before(old(self).current_pdf_page),
            final(self).pdf_engine == old(self).pdf_engine,
            final(self).pdf_page_count == old(self).pdf_page_count,
            final(self).pdf_error_message == old(self).pdf_error_message,
    {
        if self.current_pdf_page > 0 {
            self.current_pdf_page = self.current_pdf_page - 1;
            true
        } else {
            false
        }
    }

    /// The "next page" button: moves on one page unless on the last one (or the
    /// document has no pages). Returns whether the page changed.
    pub fn next_page(&mut self) -> (moved: bool)
        ensures
            moved == (old(self).current_pdf_page + 1 < old(self).pdf_page_count),
            final(self).current_pdf_page == page_after(
                old(self).current_pdf_page,
                old(self).pdf_page_count,
            ),
            final(self).pdf_engine == old(self).pdf_engine,
            final(self).pdf_page_count == old(self).pdf_page_count,
            final(self).pdf_error_message == old(self).pdf_error_message,
    {
        if self.current_pdf_page < self.pdf_page_count && self.current_pdf_page + 1 < self.pdf_page_count {
            self.current_pdf_page = self.current_pdf_page + 1;
            true
        } else {
            false
        }
    }
}

} // verus!
