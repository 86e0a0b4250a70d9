//! The editor's session: the files being redacted, the boxes drawn on them, the
//! search hits and the dialogs, and every decision the editor takes on them.
//!
//! Everything the screen measures in floating point (zoom, panning, where a box lies
//! on the page) is carried as the coordinate type `C` and never looked into here.

use crate::files::{FileEntry, FileKind};
use crate::pdf::{PdfEngine, SearchResult};
use crate::raster::RedactionBox;
use crate::render_state::PdfRenderState;
use crate::search::{next_match, prev_match};
use vstd::prelude::*;

verus! {

/// A box drawn on a file, normalized to the page, for a PDF on one of its pages.
#[derive(Debug, Clone, Copy)]
pub struct RedactionArea<C> {
    pub x: C,
    pub y: C,
    pub width: C,
    pub height: C,
    pub file: u64,
    pub page_index: Option<u16>,
}

/// Which boxes of a file an operation reaches.
#[derive(Debug, Clone, Copy, PartialEq, Eq, Structural)]
pub enum PageScope {
    /// The boxes on every page.
    AllPages,
    /// The boxes whose page is this one (`None` for files without pages).
    Page(Option<u16>),
}

/// What has to be loaded before the current file can be shown.
#[derive(Debug, Clone, Copy, PartialEq, Eq, Structural)]
pub enum LoadRequest {
    Nothing,
    /// Convert this Word document to PDF, then load the PDF.
    ConvertDocument(u64),
    /// Load this PDF.
    LoadPdf(u64),
}

/// How converting a Word document and loading the result went.
pub enum DocumentLoad {
    /// The conversion failed, for this reason.
    ConversionFailed(String),
    /// The conversion worked; loading the PDF it produced gave this.
    Converted(Result<PdfEngine, String>),
}

/// What the export button leads to.
#[derive(Debug, Clone, Copy, PartialEq, Eq, Structural)]
pub enum ExportStep {
    /// The file has no boxes: a dialog says so.
    NoRedactions,
    /// A PDF or Word document: the DPI dialog opens for this file.
    ChooseDpi(u64),
    /// An image: it is exported at once.
    ExportImage(u64),
    /// Nothing can export this file.
    Unsupported,
}

/// What the document viewer shows.
#[derive(Debug, Clone, Copy, PartialEq, Eq, Structural)]
pub enum ViewKind {
    /// Every file is done: time to go back home.
    Finished,
    /// A PDF (a Word document shows as the PDF it was converted to).
    Pdf,
    /// An image.
    Image,
    /// A file the viewer cannot show.
    Unsupported,
}

/// The search hits and which one is active.
pub struct SearchState {
    pub results: Vec<SearchResult>,
    pub active_search_result: Option<usize>,
    pub scroll_to_active_result: bool,
}

/// The boxes drawn so far and the state of the mouse over them.
pub struct RedactionState<C> {
    pub areas: Vec<RedactionArea<C>>,
    pub redaction_mode: bool,
    pub hovered_redaction: Option<usize>,
    pub pending_delete: Option<usize>,
}

/// The dialogs and what they show.
pub struct DialogState {
    pub show_no_redactions_dialog: bool,
    pub show_export_success_dialog: bool,
    pub last_exported_filename: String,
    pub return_to_home: bool,
    pub show_dpi_dialog: bool,
    pub pending_export_file: Option<u64>,
    pub show_pdf_error_dialog: bool,
    pub pdf_error_message: String,
    pub is_document_conversion_error: bool,
}

/// An editing session over a list of files.
pub struct EditorSession<C> {
    pub files: Vec<FileEntry>,
    pub current_file_index: usize,
    pub pdf_state: PdfRenderState,
    pub search: SearchState,
    pub redaction: RedactionState<C>,
    pub dialogs: DialogState,
}

/// Box `a` is on file `file`, within `scope`.
pub open spec fn in_scope<C>(file: u64, scope: PageScope) -> spec_fn(RedactionArea<C>) -> bool {
    |a: RedactionArea<C>|
        a.file == file && match scope {
            PageScope::AllPages => true,
            PageScope::Page(p) => a.page_index == p,
        }
}

/// Box `a` is not on file `file` within `scope`.
pub open spec fn out_of_scope<C>(file: u64, scope: PageScope) -> spec_fn(RedactionArea<C>) -> bool {
    |a: RedactionArea<C>| !in_scope(file, scope)(a)
}

/// The box that the exporter gets for area `a`: a box on its page, or on the first
/// page for files without pages.
pub open spec fn export_box<C>(a: RedactionArea<C>) -> RedactionBox<C> {
    RedactionBox {
        page_index: match a.page_index {
            Some(p) => p,
            None => 0,
        },
        x: a.x,
        y: a.y,
        width: a.width,
        height: a.height,
    }
}

/// The message shown when a Word document could not be turned into a PDF.
pub open spec fn conversion_failure_message(reason: Seq<char>) -> Seq<char> {
    "Failed to convert document to PDF: "@ + reason
}

/// When no element of `s` passes `p`, filtering `s` by `p` leaves nothing.
proof fn lemma_filter_none<A>(s: Seq<A>, p: spec_fn(A) -> bool)
    requires
        forall|i: int| 0 <= i < s.len() ==> !p(#[trigger] s[i]),
    ensures
        s.filter(p).len() == 0,
    decreases s.len(),
{
    reveal(Seq::filter);
    if s.len() > 0 {
        lemma_filter_none(s.drop_last(), p);
    }
}

/// Once the boxes of a file within a scope are cleared, none is left there: the
/// count of "Areas marked" for that scope drops to zero. The boxes outside the scope
/// all stay.
pub proof fn lemma_cleared_scope_is_empty<C>(areas: Seq<RedactionArea<C>>, file: u64, scope: PageScope)
    ensures
        areas.filter(out_of_scope(file, scope)).filter(in_scope(file, scope)).len() == 0,
        forall|i: int|
            0 <= i < areas.len() && !in_scope(file, scope)(#[trigger] areas[i])
                ==> areas.filter(out_of_scope(file, scope)).contains(areas[i]),
{
    broadcast use vstd::seq_lib::group_filter_ensures;

    let kept = areas.filter(out_of_scope(file, scope));
    assert forall|i: int| 0 <= i < kept.len() implies !in_scope(file, scope)(#[trigger] kept[i]) by {
        assert(out_of_scope(file, scope)(kept[i]));
    }
    lemma_filter_none(kept, in_scope(file, scope));
    assert forall|i: int|
        0 <= i < areas.len() && !in_scope(file, scope)(#[trigger] areas[i]) implies kept.contains(
        areas[i],
    ) by {
        assert(out_of_scope(file, scope)(areas[i]));
    }
}

/// A file taken out of the session leaves no box behind: every box kept is on
/// another file.
pub proof fn lemma_removed_file_leaves_no_box<C>(areas: Seq<RedactionArea<C>>, file: u64)
    ensures
        forall|i: int|
            0 <= i < areas.filter(out_of_scope(file, PageScope::AllPages)).len()
                ==> #[trigger] areas.filter(out_of_scope(file, PageScope::AllPages))[i].file != file,
{
    broadcast use vstd::seq_lib::group_filter_ensures;

    let kept = areas.filter(out_of_scope(file, PageScope::AllPages));
    assert forall|i: int| 0 <= i < kept.len() implies #[trigger] kept[i].file != file by {
        assert(out_of_scope(file, PageScope::AllPages)(kept[i]));
    }
}

/// A box drawn on a file is exported with that file: after it is added, the boxes
/// exported for its file are those exported before, then this one, on its page.
pub proof fn lemma_drawn_box_is_exported<C>(areas: Seq<RedactionArea<C>>, a: RedactionArea<C>)
    ensures
        areas.push(a).filter(in_scope(a.file, PageScope::AllPages)).map_values(
            |b: RedactionArea<C>| export_box(b),
        ) == areas.filter(in_scope(a.file, PageScope::AllPages)).map_values(
            |b: RedactionArea<C>| export_box(b),
        ).push(export_box(a)),
{
    reveal(Seq::filter);
    assert(areas.push(a).drop_last() =~= areas);
    let before = areas.filter(in_scope(a.file, PageScope::AllPages));
    assert(areas.push(a).filter(in_scope(a.file, PageScope::AllPages)) == before.push(a));
    assert(before.push(a).map_values(|b: RedactionArea<C>| export_box(b)) =~= before.map_values(
        |b: RedactionArea<C>| export_box(b),
    ).push(export_box(a)));
}

fn area_matches<C: Copy>(a: &RedactionArea<C>, file: u64, scope: PageScope) -> (r: bool)
    ensures
        r == in_scope(file, scope)(*a),
{
    if a.file != file {
        return false;
    }
    match scope {
        PageScope::AllPages => true,
        PageScope::Page(p) => match (a.page_index, p) {
            (Some(x), Some(y)) => x == y,
            (None, None) => true,
            _ => false,
        },
    }
}

fn areas_outside<C: Copy>(areas: &Vec<RedactionArea<C>>, file: u64, scope: PageScope) -> (kept: Vec<
    RedactionArea<C>,
>)
    ensures
        kept@ == areas@.filter(out_of_scope(file, scope)),
{
    let mut kept: Vec<RedactionArea<C>> = Vec::new();
    let mut i: usize = 0;
    while i < areas.len()
        invariant
            i <= areas.len(),
            kept@ == areas@.take(i as int).filter(out_of_scope(file, scope)),
        decreases areas.len() - i,
    {
        let a = areas[i];
        if !area_matches(&a, file, scope) {
            kept.push(a);
        }
        proof {
            reveal(Seq::filter);
            assert(areas@.take(i + 1).drop_last() =~= areas@.take(i as int));
        }
        i = i + 1;
    }
    assert(areas@.take(areas.len() as int) =~= areas@);
    kept
}

fn count_in_scope<C: Copy>(areas: &Vec<RedactionArea<C>>, file: u64, scope: PageScope) -> (n: usize)
    ensures
        n == areas@.filter(in_scope(file, scope)).len(),
{
    let mut n: usize = 0;
    let mut i: usize = 0;
    while i < areas.len()
        invariant
            i <= areas.len(),
            n == areas@.take(i as int).filter(in_scope(file, scope)).len(),
            n <= i,
        decreases areas.len() - i,
    {
        if area_matches(&areas[i], file, scope) {
            n = n + 1;
        }
        proof {
            reveal(Seq::filter);
            assert(areas@.take(i + 1).drop_last() =~= areas@.take(i as int));
        }
        i = i + 1;
    }
    assert(areas@.take(areas.len() as int) =~= areas@);
    n
}

fn any_on_file<C: Copy>(areas: &Vec<RedactionArea<C>>, file: u64) -> (r: bool)
    ensures
        r == exists|i: int| 0 <= i < areas@.len() && #[trigger] areas@[i].file == file,
{
    let mut i: usize = 0;
    while i < areas.len()
        invariant
            i <= areas.len(),
            forall|j: int| 0 <= j < i ==> #[trigger] areas@[j].file != file,
        decreases areas.len() - i,
    {
        if areas[i].file == file {
            return true;
        }
        i = i + 1;
    }
    false
}

impl<C> EditorSession<C> {
    /// The index of the current file is valid whenever there is a file.
    pub open spec fn wf(&self) -> bool {
        self.files@.len() == 0 || self.current_file_index < self.files@.len()
    }

    /// The file being shown.
    pub open spec fn current_file(&self) -> FileEntry {
        self.files@[self.current_file_index as int]
    }

    /// The page that new boxes go on and that the boxes shown are on: the page shown
    /// for a PDF or a Word document (shown as the PDF it was converted to), none for
    /// other files.
    pub open spec fn view_page(&self) -> Option<u16> {
        if self.current_file().kind == FileKind::Pdf || self.current_file().kind == FileKind::Document {
            Some(self.pdf_state.current_pdf_page)
        } else {
            None
        }
    }
}

impl<C: Copy> EditorSession<C> {
    /// A session over `files`, showing the first one, with no boxes, no hits and no
    /// dialog. The first file still has to be loaded (see `load_request`).
    pub fn new(files: Vec<FileEntry>) -> (s: Self)
        ensures
            s.wf(),
            s.files@ == files@,
            s.current_file_index == 0,
            s.pdf_state.pdf_engine is None,
            s.pdf_state.current_pdf_page == 0,
            s.pdf_state.pdf_page_count == 0,
            s.pdf_state.pdf_error_message is None,
            s.search.results@.len() == 0,
            s.search.active_search_result is None,
            !s.search.scroll_to_active_result,
            s.redaction.areas@.len() == 0,
            !s.redaction.redaction_mode,
            s.redaction.hovered_redaction is None,
            s.redaction.pending_delete is None,
            !s.dialogs.show_no_redactions_dialog,
            !s.dialogs.show_export_success_dialog,
            s.dialogs.last_exported_filename@.len() == 0,
            !s.dialogs.return_to_home,
            !s.dialogs.show_dpi_dialog,
            s.dialogs.pending_export_file is None,
            !s.dialogs.show_pdf_error_dialog,
            s.dialogs.pdf_error_message@.len() == 0,
            !s.dialogs.is_document_conversion_error,
    {
        EditorSession {
            files,
            current_file_index: 0,
            pdf_state: PdfRenderState::new(),
            search: SearchState {
                results: Vec::new(),
                active_search_result: None,
                scroll_to_active_result: false,
            },
            redaction: RedactionState {
                areas: Vec::new(),
                redaction_mode: false,
                hovered_redaction: None,
                pending_delete: None,
            },
            dialogs: DialogState {
                show_no_redactions_dialog: false,
                show_export_success_dialog: false,
                last_exported_filename: String::new(),
                return_to_home: false,
                show_dpi_dialog: false,
                pending_export_file: None,
                show_pdf_error_dialog: false,
                pdf_error_message: String::new(),
                is_document_conversion_error: false,
            },
        }
    }

    /// What showing the current file needs: a Word document is converted, a PDF is
    /// loaded, anything else needs nothing.
    pub fn load_request(&self) -> (r: LoadRequest)
        requires
            self.wf(),
        ensures
            r == if self.files@.len() == 0 {
                LoadRequest::Nothing
            } else {
                match self.current_file().kind {
                    FileKind::Document => LoadRequest::ConvertDocument(self.current_file().id),
                    FileKind::Pdf => LoadRequest::LoadPdf(self.current_file().id),
                    _ => LoadRequest::Nothing,
                }
            },
    {
        if self.files.len() == 0 {
            return LoadRequest::Nothing;
        }
        let f = self.files[self.current_file_index];
        match f.kind {
            FileKind::Document => LoadRequest::ConvertDocument(f.id),
            FileKind::Pdf => LoadRequest::LoadPdf(f.id),
            _ => LoadRequest::Nothing,
        }
    }

    /// A PDF was loaded (or not) for the current file. The viewer takes the outcome; a
    /// failure opens the PDF error dialog with pdfium's message. The search hits of
    /// the previous document are dropped either way.
    pub fn pdf_loaded(&mut self, loaded: Result<PdfEngine, String>)
        ensures
            final(self).files == old(self).files,
            final(self).current_file_index == old(self).current_file_index,
            final(self).redaction == old(self).redaction,
            final(self).search.results@.len() == 0,
            final(self).search.active_search_result == old(self).search.active_search_result,
            final(self).search.scroll_to_active_result == old(self).search.scroll_to_active_result,
            match loaded {
                Ok(engine) => {
                    &&& final(self).pdf_state.pdf_engine == Some(engine)
                    &&& final(self).pdf_state.pdf_page_count == engine.pages()
                    &&& final(self).pdf_state.current_pdf_page == 0
                    &&& final(self).pdf_state.pdf_error_message is None
                    &&& final(self).dialogs == old(self).dialogs
                },
                Err(e) => {
                    &&& final(self).pdf_state.pdf_engine == old(self).pdf_state.pdf_engine
                    &&& final(self).pdf_state.pdf_page_count == old(self).pdf_state.pdf_page_count
                    &&& final(self).pdf_state.current_pdf_page == old(self).pdf_state.current_pdf_page
                    &&& final(self).pdf_state.pdf_error_message == Some(e)
                    &&& final(self).dialogs.pdf_error_message@ == e@
                    &&& !final(self).dialogs.is_document_conversion_error
                    &&& final(self).dialogs.show_pdf_error_dialog
                    &&& final(self).dialogs.show_no_redactions_dialog == old(self).dialogs.show_no_redactions_dialog
                    &&& final(self).dialogs.show_export_success_dialog == old(self).dialogs.show_export_success_dialog
                    &&& final(self).dialogs.last_exported_filename == old(self).dialogs.last_exported_filename
                    &&& final(self).dialogs.return_to_home == old(self).dialogs.return_to_home
                    &&& final(self).dialogs.show_dpi_dialog == old(self).dialogs.show_dpi_dialog
                    &&& final(self).dialogs.pending_export_file == old(self).dialogs.pending_export_file
                },
            },
    {
        if !self.pdf_state.load_file(loaded) {
            match &self.pdf_state.pdf_error_message {
                Some(message) => {
                    self.dialogs.pdf_error_message = message.clone();
                    self.dialogs.is_document_conversion_error = false;
                    self.dialogs.show_pdf_error_dialog = true;
                },
                None => {},
            }
        }
        self.search.results = Vec::new();
    }

    /// A Word document was converted (or not) and the PDF it gave loaded (or not).
    /// Success shows the PDF and drops the old search hits. A failed conversion, or a
    /// converted PDF that does not load, opens the conversion error dialog with
    /// `conversion_failure_message` of the reason ("Failed to load converted PDF" in
    /// the second case); the hits are then kept.
    pub fn document_loaded(&mut self, outcome: DocumentLoad)
        ensures
            final(self).files == old(self).files,
            final(self).current_file_index == old(self).current_file_index,
            final(self).redaction == old(self).redaction,
            final(self).search.active_search_result == old(self).search.active_search_result,
            final(self).search.scroll_to_active_result == old(self).search.scroll_to_active_result,
            final(self).dialogs.show_no_redactions_dialog == old(self).dialogs.show_no_redactions_dialog,
            final(self).dialogs.show_export_success_dialog == old(self).dialogs.show_export_success_dialog,
            final(self).dialogs.last_exported_filename == old(self).dialogs.last_exported_filename,
            final(self).dialogs.return_to_home == old(self).dialogs.return_to_home,
            final(self).dialogs.show_dpi_dialog == old(self).dialogs.show_dpi_dialog,
            final(self).dialogs.pending_export_file == old(self).dialogs.pending_export_file,
            match outcome {
                DocumentLoad::ConversionFailed(reason) => {
                    &&& final(self).pdf_state == old(self).pdf_state
                    &&& final(self).search.results == old(self).search.results
                    &&& final(self).dialogs.pdf_error_message@ == conversion_failure_message(reason@)
                    &&& final(self).dialogs.is_document_conversion_error
                    &&& final(self).dialogs.show_pdf_error_dialog
                },
                DocumentLoad::Converted(Ok(engine)) => {
                    &&& final(self).pdf_state.pdf_engine == Some(engine)
                    &&& final(self).pdf_state.pdf_page_count == engine.pages()
                    &&& final(self).pdf_state.current_pdf_page == 0
                    &&& final(self).pdf_state.pdf_error_message is None
                    &&& final(self).search.results@.len() == 0
                    &&& final(self).dialogs.pdf_error_message == old(self).dialogs.pdf_error_message
                    &&& final(self).dialogs.is_document_conversion_error == old(self).dialogs.is_document_conversion_error
                    &&& final(self).dialogs.show_pdf_error_dialog == old(self).dialogs.show_pdf_error_dialog
                },
                DocumentLoad::Converted(Err(e)) => {
                    &&& final(self).pdf_state.pdf_engine == old(self).pdf_state.pdf_engine
                    &&& final(self).pdf_state.pdf_page_count == old(self).pdf_state.pdf_page_count
                    &&& final(self).pdf_state.current_pdf_page == old(self).pdf_state.current_pdf_page
                    &&& final(self).pdf_state.pdf_error_message == Some(e)
                    &&& final(self).search.results == old(self).search.results
                    &&& final(self).dialogs.pdf_error_message@ == conversion_failure_message(
                        "Failed to load converted PDF"@,
                    )
                    &&& final(self).dialogs.is_document_conversion_error
                    &&& final(self).dialogs.show_pdf_error_dialog
                },
            },
    {
        let failure: Option<String> = match outcome {
            DocumentLoad::ConversionFailed(reason) => Some(reason),
            DocumentLoad::Converted(loaded) => {
                if self.pdf_state.load_file(loaded) {
                    self.search.results = Vec::new();
                    None
                } else {
                    Some(String::from_str("Failed to load converted PDF"))
                }
            },
        };
        match failure {
            Some(reason) => {
                let mut message = String::from_str("Failed to convert document to PDF: ");
                message.append(reason.as_str());
                self.dialogs.pdf_error_message = message;
                self.dialogs.is_document_conversion_error = true;
                self.dialogs.show_pdf_error_dialog = true;
            },
            None => {},
        }
    }

    /// Back to the default view of a file: redaction mode off, first PDF page.
    pub fn reset_view_state(&mut self)
        ensures
            final(self).files == old(self).files,
            final(self).current_file_index == old(self).current_file_index,
            final(self).pdf_state.pdf_engine == old(self).pdf_state.pdf_engine,
            final(self).pdf_state.pdf_page_count == old(self).pdf_state.pdf_page_count,
            final(self).pdf_state.pdf_error_message == old(self).pdf_state.pdf_error_message,
            final(self).pdf_state.current_pdf_page == 0,
            final(self).search == old(self).search,
            final(self).redaction.areas == old(self).redaction.areas,
            !final(self).redaction.redaction_mode,
            final(self).redaction.hovered_redaction == old(self).redaction.hovered_redaction,
            final(self).redaction.pending_delete == old(self).redaction.pending_delete,
            final(self).dialogs == old(self).dialogs,
    {
        self.redaction.redaction_mode = false;
        self.pdf_state.current_pdf_page = 0;
    }

    /// The user picked file `idx` in the file list: it becomes the current file, shown
    /// in its default view. It still has to be loaded (see `load_request`).
    pub fn select_file(&mut self, idx: usize)
        requires
            idx < old(self).files@.len(),
        ensures
            final(self).wf(),
            final(self).files == old(self).files,
            final(self).current_file_index == idx,
            final(self).pdf_state.pdf_engine == old(self).pdf_state.pdf_engine,
            final(self).pdf_state.pdf_page_count == old(self).pdf_state.pdf_page_count,
            final(self).pdf_state.pdf_error_message == old(self).pdf_state.pdf_error_message,
            final(self).pdf_state.current_pdf_page == 0,
            final(self).search == old(self).search,
            final(self).redaction.areas == old(self).redaction.areas,
            !final(self).redaction.redaction_mode,
            final(self).dialogs == old(self).dialogs,
    {
        self.current_file_index = idx;
        self.reset_view_state();
    }

    /// Takes the current file out of the session, with every box drawn on it (on any
    /// entry with the same path). A PDF also takes its engine and search hits along.
    /// The file after it becomes current, or the last one if it was the last; with no
    /// file left the editor is done. Returns the file taken out, `None` when there was
    /// none.
    pub fn remove_current_file(&mut self) -> (removed: Option<u64>)
        requires
            old(self).wf(),
        ensures
            final(self).removed_current_file(&*old(self), removed),
            final(self).dialogs.show_export_success_dialog == old(self).dialogs.show_export_success_dialog,
    {
        if self.files.len() == 0 {
            return None;
        }
        let cur = self.files[self.current_file_index];
        if cur.kind.is_pdf() {
            self.pdf_state.clear();
            self.search.results = Vec::new();
        }
        self.redaction.areas = areas_outside(&self.redaction.areas, cur.id, PageScope::AllPages);
        self.files.remove(self.current_file_index);
        if self.current_file_index >= self.files.len() && self.files.len() > 0 {
            self.current_file_index = self.files.len() - 1;
        }
        self.reset_view_state();
        if self.files.len() == 0 {
            self.dialogs.return_to_home = true;
        }
        Some(cur.id)
    }

    /// Makes hit `idx` the active one and shows its page, if there is such a hit;
    /// returns whether there was (the viewer then centres on it).
    pub fn activate_search_result(&mut self, idx: usize) -> (activated: bool)
        ensures
            activated == (idx < old(self).search.results@.len()),
            final(self).files == old(self).files,
            final(self).current_file_index == old(self).current_file_index,
            final(self).redaction == old(self).redaction,
            final(self).dialogs == old(self).dialogs,
            final(self).search.results == old(self).search.results,
            final(self).pdf_state.pdf_engine == old(self).pdf_state.pdf_engine,
            final(self).pdf_state.pdf_page_count == old(self).pdf_state.pdf_page_count,
            final(self).pdf_state.pdf_error_message == old(self).pdf_state.pdf_error_message,
            activated ==> {
                &&& final(self).search.active_search_result == Some(idx)
                &&& final(self).pdf_state.current_pdf_page == old(self).search.results@[idx as int].page_index
                &&& final(self).search.scroll_to_active_result
            },
            !activated ==> {
                &&& final(self).search.active_search_result == old(self).search.active_search_result
                &&& final(self).pdf_state.current_pdf_page == old(self).pdf_state.current_pdf_page
                &&& final(self).search.scroll_to_active_result == old(self).search.scroll_to_active_result
            },
    {
        if idx >= self.search.results.len() {
            return false;
        }
        let page = self.search.results[idx].page_index;
        self.search.active_search_result = Some(idx);
        self.pdf_state.current_pdf_page = page;
        self.search.scroll_to_active_result = true;
        true
    }

    /// The "next" button of the results panel: activates `next_match` of the active
    /// hit. Returns whether a hit was activated (never when there are no hits).
    pub fn goto_next_match(&mut self) -> (activated: bool)
        ensures
            activated == (old(self).search.results@.len() > 0),
            final(self).files == old(self).files,
            final(self).redaction == old(self).redaction,
            final(self).dialogs == old(self).dialogs,
            final(self).search.results == old(self).search.results,
            activated ==> {
                let idx = next_match(
                    old(self).search.active_search_result,
                    old(self).search.results@.len() as int,
                );
                &&& final(self).search.active_search_result == Some(idx as usize)
                &&& final(self).pdf_state.current_pdf_page == old(self).search.results@[idx].page_index
                &&& final(self).search.scroll_to_active_result
            },
            !activated ==> *final(self) == *old(self),
    {
        let n = self.search.results.len();
        if n == 0 {
            return false;
        }
        let next = match self.search.active_search_result {
            Some(i) => if i < n - 1 {
                i + 1
            } else {
                0
            },
            None => 0,
        };
        self.activate_search_result(next)
    }

    /// The "previous" button of the results panel: activates `prev_match` of the
    /// active hit, if that hit exists. Returns whether a hit was activated.
    pub fn goto_prev_match(&mut self) -> (activated: bool)
        ensures
            activated == (old(self).search.results@.len() > 0 && prev_match(
                old(self).search.active_search_result,
                old(self).search.results@.len() as int,
            ) < old(self).search.results@.len()),
            final(self).files == old(self).files,
            final(self).redaction == old(self).redaction,
            final(self).dialogs == old(self).dialogs,
            final(self).search.results == old(self).search.results,
            activated ==> {
                let idx = prev_match(
                    old(self).search.active_search_result,
                    old(self).search.results@.len() as int,
                );
                &&& final(self).search.active_search_result == Some(idx as usize)
                &&& final(self).pdf_state.current_pdf_page == old(self).search.results@[idx].page_index
                &&& final(self).search.scroll_to_active_result
            },
            !activated ==> *final(self) == *old(self),
    {
        let n = self.search.results.len();
        if n == 0 {
            return false;
        }
        let prev = match self.search.active_search_result {
            Some(i) => if i > 0 {
                i - 1
            } else {
                n - 1
            },
            None => n - 1,
        };
        self.activate_search_result(prev)
    }

    /// The results panel has scrolled to the active hit.
    pub fn finish_scroll_to_active(&mut self)
        ensures
            !final(self).search.scroll_to_active_result,
            final(self).search.results == old(self).search.results,
            final(self).search.active_search_result == old(self).search.active_search_result,
            final(self).files == old(self).files,
            final(self).current_file_index == old(self).current_file_index,
            final(self).pdf_state == old(self).pdf_state,
            final(self).redaction == old(self).redaction,
            final(self).dialogs == old(self).dialogs,
    {
        self.search.scroll_to_active_result = false;
    }

    /// A search ran: its hits replace the old ones; `None` (no document to search, or
    /// the search failed) leaves no hits. The active hit is not reset.
    pub fn search_finished(&mut self, results: Option<Vec<SearchResult>>)
        ensures
            final(self).search.results@ == match results {
                Some(r) => r@,
                None => Seq::<SearchResult>::empty(),
            },
            final(self).search.active_search_result == old(self).search.active_search_result,
            final(self).search.scroll_to_active_result == old(self).search.scroll_to_active_result,
            final(self).files == old(self).files,
            final(self).current_file_index == old(self).current_file_index,
            final(self).pdf_state == old(self).pdf_state,
            final(self).redaction == old(self).redaction,
            final(self).dialogs == old(self).dialogs,
    {
        self.search.results = match results {
            Some(r) => r,
            None => Vec::new(),
        };
    }

    /// The "Clear Search" button: no hits any more.
    pub fn clear_search(&mut self)
        ensures
            final(self).search.results@.len() == 0,
            final(self).search.active_search_result == old(self).search.active_search_result,
            final(self).search.scroll_to_active_result == old(self).search.scroll_to_active_result,
            final(self).files == old(self).files,
            final(self).current_file_index == old(self).current_file_index,
            final(self).pdf_state == old(self).pdf_state,
            final(self).redaction == old(self).redaction,
            final(self).dialogs == old(self).dialogs,
    {
        self.search.results.clear();
    }

    /// Whether hit `idx` is on the page shown.
    pub fn result_on_current_page(&self, idx: usize) -> (r: bool)
        requires
            idx < self.search.results@.len(),
        ensures
            r == (self.search.results@[idx as int].page_index == self.pdf_state.current_pdf_page),
    {
        self.search.results[idx].page_index == self.pdf_state.current_pdf_page
    }
}

impl<C> EditorSession<C> {
    /// The boxes that "Areas marked" counts and "Clear Current Page" removes: for a PDF
    /// or a Word document those on the page shown, for other files all of them.
    pub open spec fn view_scope(&self) -> PageScope {
        if self.current_file().kind == FileKind::Pdf || self.current_file().kind == FileKind::Document {
            PageScope::Page(Some(self.pdf_state.current_pdf_page))
        } else {
            PageScope::AllPages
        }
    }

    /// `self` is `old` with its current file taken out (see `remove_current_file`); the
    /// success dialog is not compared.
    pub open spec fn removed_current_file(&self, old: &Self, removed: Option<u64>) -> bool {
        &&& self.wf()
        &&& old.files@.len() == 0 ==> {
            &&& removed is None
            &&& self.only_dialogs_changed(old)
            &&& self.dialogs.return_to_home == old.dialogs.return_to_home
        }
        &&& old.files@.len() > 0 ==> {
            let cur = old.current_file();
            let idx = old.current_file_index as int;
            &&& removed == Some(cur.id)
            &&& self.files@ == old.files@.remove(idx)
            &&& self.current_file_index == if idx >= self.files@.len() && self.files@.len() > 0 {
                (self.files@.len() - 1) as usize
            } else {
                idx as usize
            }
            &&& self.redaction.areas@ == old.redaction.areas@.filter(
                out_of_scope(cur.id, PageScope::AllPages),
            )
            &&& !self.redaction.redaction_mode
            &&& self.redaction.hovered_redaction == old.redaction.hovered_redaction
            &&& self.redaction.pending_delete == old.redaction.pending_delete
            &&& self.pdf_state.current_pdf_page == 0
            &&& self.pdf_state.pdf_error_message == old.pdf_state.pdf_error_message
            &&& if cur.kind == FileKind::Pdf {
                &&& self.pdf_state.pdf_engine is None
                &&& self.pdf_state.pdf_page_count == 0
                &&& self.search.results@.len() == 0
            } else {
                &&& self.pdf_state.pdf_engine == old.pdf_state.pdf_engine
                &&& self.pdf_state.pdf_page_count == old.pdf_state.pdf_page_count
                &&& self.search.results == old.search.results
            }
            &&& self.search.active_search_result == old.search.active_search_result
            &&& self.search.scroll_to_active_result == old.search.scroll_to_active_result
            &&& self.dialogs.return_to_home == (old.dialogs.return_to_home || self.files@.len() == 0)
        }
        &&& self.dialogs.show_no_redactions_dialog == old.dialogs.show_no_redactions_dialog
        &&& self.dialogs.last_exported_filename == old.dialogs.last_exported_filename
        &&& self.dialogs.show_dpi_dialog == old.dialogs.show_dpi_dialog
        &&& self.dialogs.pending_export_file == old.dialogs.pending_export_file
        &&& self.dialogs.show_pdf_error_dialog == old.dialogs.show_pdf_error_dialog
        &&& self.dialogs.pdf_error_message == old.dialogs.pdf_error_message
        &&& self.dialogs.is_document_conversion_error == old.dialogs.is_document_conversion_error
    }

    /// Only the boxes of a session changed.
    pub open spec fn only_areas_changed(&self, old: &Self) -> bool {
        &&& self.files == old.files
        &&& self.current_file_index == old.current_file_index
        &&& self.pdf_state == old.pdf_state
        &&& self.search == old.search
        &&& self.redaction.redaction_mode == old.redaction.redaction_mode
        &&& self.redaction.hovered_redaction == old.redaction.hovered_redaction
        &&& self.redaction.pending_delete == old.redaction.pending_delete
        &&& self.dialogs == old.dialogs
    }

    /// Only the dialogs of a session changed.
    pub open spec fn only_dialogs_changed(&self, old: &Self) -> bool {
        &&& self.files == old.files
        &&& self.current_file_index == old.current_file_index
        &&& self.pdf_state == old.pdf_state
        &&& self.search == old.search
        &&& self.redaction == old.redaction
    }
}

impl<C: Copy> EditorSession<C> {
    /// "Areas marked": how many boxes of the current file are in `view_scope`.
    pub fn count_redactions_on_view(&self) -> (n: usize)
        requires
            self.wf(),
            self.files@.len() > 0,
        ensures
            n == self.redaction.areas@.filter(in_scope(self.current_file().id, self.view_scope())).len(),
    {
        let cur = self.files[self.current_file_index];
        let scope = if cur.kind.is_pdf() || cur.kind.is_document() {
            PageScope::Page(Some(self.pdf_state.current_pdf_page))
        } else {
            PageScope::AllPages
        };
        count_in_scope(&self.redaction.areas, cur.id, scope)
    }

    /// The redaction mode button: dragging draws boxes instead of panning, or back.
    pub fn toggle_redaction_mode(&mut self)
        ensures
            final(self).redaction.redaction_mode == !old(self).redaction.redaction_mode,
            final(self).redaction.areas == old(self).redaction.areas,
            final(self).redaction.hovered_redaction == old(self).redaction.hovered_redaction,
            final(self).redaction.pending_delete == old(self).redaction.pending_delete,
            final(self).files == old(self).files,
            final(self).current_file_index == old(self).current_file_index,
            final(self).pdf_state == old(self).pdf_state,
            final(self).search == old(self).search,
            final(self).dialogs == old(self).dialogs,
    {
        self.redaction.redaction_mode = !self.redaction.redaction_mode;
    }

    /// "Clear Current Page": removes the boxes of the current file in `view_scope`
    /// and keeps the others in order.
    pub fn clear_current_page(&mut self)
        requires
            old(self).wf(),
            old(self).files@.len() > 0,
        ensures
            final(self).wf(),
            final(self).only_areas_changed(&*old(self)),
            final(self).redaction.areas@ == old(self).redaction.areas@.filter(
                out_of_scope(old(self).current_file().id, old(self).view_scope()),
            ),
    {
        let cur = self.files[self.current_file_index];
        let scope = if cur.kind.is_pdf() || cur.kind.is_document() {
            PageScope::Page(Some(self.pdf_state.current_pdf_page))
        } else {
            PageScope::AllPages
        };
        self.redaction.areas = areas_outside(&self.redaction.areas, cur.id, scope);
    }

    /// "Clear All Redactions": no box is left on any file.
    pub fn clear_all_redactions(&mut self)
        requires
            old(self).wf(),
        ensures
            final(self).wf(),
            final(self).only_areas_changed(&*old(self)),
            final(self).redaction.areas@.len() == 0,
    {
        self.redaction.areas.clear();
    }

    /// Box `idx` is drawn over the view: it is on the current file and on the page
    /// shown (for files without pages: on no page).
    pub fn area_is_visible(&self, idx: usize) -> (r: bool)
        requires
            self.wf(),
            self.files@.len() > 0,
            idx < self.redaction.areas@.len(),
        ensures
            r == in_scope(self.current_file().id, PageScope::Page(self.view_page()))(
                self.redaction.areas@[idx as int],
            ),
    {
        let cur = self.files[self.current_file_index];
        let page = if cur.kind.is_pdf() || cur.kind.is_document() {
            Some(self.pdf_state.current_pdf_page)
        } else {
            None
        };
        area_matches(&self.redaction.areas[idx], cur.id, PageScope::Page(page))
    }

    /// A box was drawn on the current file: it is added last, on the page shown for a
    /// PDF or a Word document and on no page for other files.
    pub fn add_redaction_area(&mut self, x: C, y: C, width: C, height: C)
        requires
            old(self).wf(),
            old(self).files@.len() > 0,
        ensures
            final(self).wf(),
            final(self).only_areas_changed(&*old(self)),
            final(self).redaction.areas@ == old(self).redaction.areas@.push(
                RedactionArea {
                    x,
                    y,
                    width,
                    height,
                    file: old(self).current_file().id,
                    page_index: old(self).view_page(),
                },
            ),
    {
        let cur = self.files[self.current_file_index];
        let page = if cur.kind.is_pdf() || cur.kind.is_document() {
            Some(self.pdf_state.current_pdf_page)
        } else {
            None
        };
        self.redaction.areas.push(RedactionArea { x, y, width, height, file: cur.id, page_index: page });
    }

    /// A right click on box `idx`: it waits for the delete to be confirmed.
    pub fn request_delete(&mut self, idx: usize)
        ensures
            final(self).redaction.pending_delete == Some(idx),
            final(self).redaction.areas == old(self).redaction.areas,
            final(self).redaction.redaction_mode == old(self).redaction.redaction_mode,
            final(self).redaction.hovered_redaction == old(self).redaction.hovered_redaction,
            final(self).files == old(self).files,
            final(self).current_file_index == old(self).current_file_index,
            final(self).pdf_state == old(self).pdf_state,
            final(self).search == old(self).search,
            final(self).dialogs == old(self).dialogs,
    {
        self.redaction.pending_delete = Some(idx);
    }

    /// The box whose delete awaits confirmation, if it still exists; a request for a
    /// box that no longer exists is dropped.
    pub fn pending_delete_target(&mut self) -> (target: Option<usize>)
        ensures
            target == match old(self).redaction.pending_delete {
                Some(i) => if i < old(self).redaction.areas@.len() {
                    Some(i)
                } else {
                    None::<usize>
                },
                None => None,
            },
            final(self).redaction.pending_delete == target,
            final(self).redaction.areas == old(self).redaction.areas,
            final(self).redaction.redaction_mode == old(self).redaction.redaction_mode,
            final(self).redaction.hovered_redaction == old(self).redaction.hovered_redaction,
            final(self).files == old(self).files,
            final(self).current_file_index == old(self).current_file_index,
            final(self).pdf_state == old(self).pdf_state,
            final(self).search == old(self).search,
            final(self).dialogs == old(self).dialogs,
    {
        match self.redaction.pending_delete {
            Some(i) => if i < self.redaction.areas.len() {
                Some(i)
            } else {
                self.redaction.pending_delete = None;
                None
            },
            None => None,
        }
    }

    /// "Delete" in the confirmation: the box awaiting deletion goes, the others keep
    /// their order, and no box is pending or hovered any more.
    pub fn confirm_delete(&mut self)
        ensures
            match old(self).redaction.pending_delete {
                Some(i) => if i < old(self).redaction.areas@.len() {
                    &&& final(self).redaction.areas@ == old(self).redaction.areas@.remove(i as int)
                    &&& final(self).redaction.pending_delete is None
                    &&& final(self).redaction.hovered_redaction is None
                } else {
                    &&& final(self).redaction.areas == old(self).redaction.areas
                    &&& final(self).redaction.pending_delete is None
                    &&& final(self).redaction.hovered_redaction == old(self).redaction.hovered_redaction
                },
                None => final(self).redaction == old(self).redaction,
            },
            final(self).redaction.redaction_mode == old(self).redaction.redaction_mode,
            final(self).files == old(self).files,
            final(self).current_file_index == old(self).current_file_index,
            final(self).pdf_state == old(self).pdf_state,
            final(self).search == old(self).search,
            final(self).dialogs == old(self).dialogs,
    {
        match self.redaction.pending_delete {
            Some(i) => {
                if i < self.redaction.areas.len() {
                    self.redaction.areas.remove(i);
                    self.redaction.hovered_redaction = None;
                }
                self.redaction.pending_delete = None;
            },
            None => {},
        }
    }

    /// "Cancel" in the confirmation: nothing is deleted.
    pub fn cancel_delete(&mut self)
        ensures
            final(self).redaction.pending_delete is None,
            final(self).redaction.areas == old(self).redaction.areas,
            final(self).redaction.redaction_mode == old(self).redaction.redaction_mode,
            final(self).redaction.hovered_redaction == old(self).redaction.hovered_redaction,
            final(self).files == old(self).files,
            final(self).current_file_index == old(self).current_file_index,
            final(self).pdf_state == old(self).pdf_state,
            final(self).search == old(self).search,
            final(self).dialogs == old(self).dialogs,
    {
        self.redaction.pending_delete = None;
    }

    /// The boxes to burn into `file` on export, in the order they were drawn: each on
    /// its page, or on the first page for files without pages.
    pub fn export_boxes(&self, file: u64) -> (boxes: Vec<RedactionBox<C>>)
        ensures
            boxes@ == self.redaction.areas@.filter(in_scope(file, PageScope::AllPages)).map_values(
                |a: RedactionArea<C>| export_box(a),
            ),
    {
        let areas = &self.redaction.areas;
        let mut boxes: Vec<RedactionBox<C>> = Vec::new();
        let mut i: usize = 0;
        while i < areas.len()
            invariant
                i <= areas.len(),
                boxes@ == areas@.take(i as int).filter(in_scope(file, PageScope::AllPages)).map_values(
                    |a: RedactionArea<C>| export_box(a),
                ),
            decreases areas.len() - i,
        {
            let a = areas[i];
            let ghost before = areas@.take(i as int).filter(in_scope(file, PageScope::AllPages));
            if a.file == file {
                let page = match a.page_index {
                    Some(p) => p,
                    None => 0,
                };
                boxes.push(RedactionBox { page_index: page, x: a.x, y: a.y, width: a.width, height: a.height });
            }
            proof {
                reveal(Seq::filter);
                assert(areas@.take(i + 1).drop_last() =~= areas@.take(i as int));
                let after = areas@.take(i + 1).filter(in_scope(file, PageScope::AllPages));
                if a.file == file {
                    assert(after == before.push(a));
                    assert(after.map_values(|a: RedactionArea<C>| export_box(a)) =~= before.map_values(
                        |a: RedactionArea<C>| export_box(a),
                    ).push(export_box(a)));
                } else {
                    assert(after == before);
                }
            }
            i = i + 1;
        }
        assert(areas@.take(areas.len() as int) =~= areas@);
        boxes
    }

    /// The export button. A file without boxes only gets the "no redactions" dialog. A
    /// PDF or Word document opens the DPI dialog for it; an image (a GIF too) is
    /// exported at once; other files cannot be exported.
    pub fn begin_export(&mut self) -> (step: ExportStep)
        requires
            old(self).wf(),
            old(self).files@.len() > 0,
        ensures
            final(self).wf(),
            final(self).only_dialogs_changed(&*old(self)),
            ({
                let cur = old(self).current_file();
                let has_boxes = exists|i: int|
                    0 <= i < old(self).redaction.areas@.len() && #[trigger] old(self).redaction.areas@[i].file == cur.id;
                if !has_boxes {
                    &&& step == ExportStep::NoRedactions
                    &&& final(self).dialogs.show_no_redactions_dialog
                    &&& final(self).dialogs.show_dpi_dialog == old(self).dialogs.show_dpi_dialog
                    &&& final(self).dialogs.pending_export_file == old(self).dialogs.pending_export_file
                } else if cur.kind == FileKind::Pdf || cur.kind == FileKind::Document {
                    &&& step == ExportStep::ChooseDpi(cur.id)
                    &&& final(self).dialogs.show_dpi_dialog
                    &&& final(self).dialogs.pending_export_file == Some(cur.id)
                    &&& final(self).dialogs.show_no_redactions_dialog == old(self).dialogs.show_no_redactions_dialog
                } else {
                    &&& step == if cur.kind == FileKind::Image || cur.kind == FileKind::Gif {
                        ExportStep::ExportImage(cur.id)
                    } else {
                        ExportStep::Unsupported
                    }
                    &&& final(self).dialogs == old(self).dialogs
                }
            }),
            final(self).dialogs.show_export_success_dialog == old(self).dialogs.show_export_success_dialog,
            final(self).dialogs.last_exported_filename == old(self).dialogs.last_exported_filename,
            final(self).dialogs.return_to_home == old(self).dialogs.return_to_home,
            final(self).dialogs.show_pdf_error_dialog == old(self).dialogs.show_pdf_error_dialog,
            final(self).dialogs.pdf_error_message == old(self).dialogs.pdf_error_message,
            final(self).dialogs.is_document_conversion_error == old(self).dialogs.is_document_conversion_error,
    {
        let cur = self.files[self.current_file_index];
        if !any_on_file(&self.redaction.areas, cur.id) {
            self.dialogs.show_no_redactions_dialog = true;
            return ExportStep::NoRedactions;
        }
        match cur.kind {
            FileKind::Pdf | FileKind::Document => {
                self.dialogs.pending_export_file = Some(cur.id);
                self.dialogs.show_dpi_dialog = true;
                ExportStep::ChooseDpi(cur.id)
            },
            FileKind::Image | FileKind::Gif => ExportStep::ExportImage(cur.id),
            FileKind::Other => ExportStep::Unsupported,
        }
    }

    /// An export ended: saved under `saved_as`, or not saved. A saved file opens the
    /// success dialog, which names it.
    pub fn export_finished(&mut self, saved_as: Option<String>)
        ensures
            final(self).only_dialogs_changed(&*old(self)),
            match saved_as {
                Some(name) => {
                    &&& final(self).dialogs.last_exported_filename == name
                    &&& final(self).dialogs.show_export_success_dialog
                },
                None => {
                    &&& final(self).dialogs.last_exported_filename == old(self).dialogs.last_exported_filename
                    &&& final(self).dialogs.show_export_success_dialog == old(self).dialogs.show_export_success_dialog
                },
            },
            final(self).dialogs.show_no_redactions_dialog == old(self).dialogs.show_no_redactions_dialog,
            final(self).dialogs.return_to_home == old(self).dialogs.return_to_home,
            final(self).dialogs.show_dpi_dialog == old(self).dialogs.show_dpi_dialog,
            final(self).dialogs.pending_export_file == old(self).dialogs.pending_export_file,
            final(self).dialogs.show_pdf_error_dialog == old(self).dialogs.show_pdf_error_dialog,
            final(self).dialogs.pdf_error_message == old(self).dialogs.pdf_error_message,
            final(self).dialogs.is_document_conversion_error == old(self).dialogs.is_document_conversion_error,
    {
        match saved_as {
            Some(name) => {
                self.dialogs.last_exported_filename = name;
                self.dialogs.show_export_success_dialog = true;
            },
            None => {},
        }
    }

    /// "Export" in the DPI dialog: the dialog closes and hands over the file waiting
    /// for export, if any (which is then exported, see `export_finished`).
    pub fn confirm_dpi_export(&mut self) -> (file: Option<u64>)
        ensures
            file == old(self).dialogs.pending_export_file,
            final(self).only_dialogs_changed(&*old(self)),
            final(self).dialogs.pending_export_file is None,
            !final(self).dialogs.show_dpi_dialog,
            final(self).dialogs.show_no_redactions_dialog == old(self).dialogs.show_no_redactions_dialog,
            final(self).dialogs.show_export_success_dialog == old(self).dialogs.show_export_success_dialog,
            final(self).dialogs.last_exported_filename == old(self).dialogs.last_exported_filename,
            final(self).dialogs.return_to_home == old(self).dialogs.return_to_home,
            final(self).dialogs.show_pdf_error_dialog == old(self).dialogs.show_pdf_error_dialog,
            final(self).dialogs.pdf_error_message == old(self).dialogs.pdf_error_message,
            final(self).dialogs.is_document_conversion_error == old(self).dialogs.is_document_conversion_error,
    {
        let file = self.dialogs.pending_export_file;
        self.dialogs.pending_export_file = None;
        self.dialogs.show_dpi_dialog = false;
        file
    }

    /// "Cancel" in the DPI dialog: it closes and nothing waits for export.
    pub fn cancel_dpi_export(&mut self)
        ensures
            final(self).only_dialogs_changed(&*old(self)),
            final(self).dialogs.pending_export_file is None,
            !final(self).dialogs.show_dpi_dialog,
            final(self).dialogs.show_no_redactions_dialog == old(self).dialogs.show_no_redactions_dialog,
            final(self).dialogs.show_export_success_dialog == old(self).dialogs.show_export_success_dialog,
            final(self).dialogs.last_exported_filename == old(self).dialogs.last_exported_filename,
            final(self).dialogs.return_to_home == old(self).dialogs.return_to_home,
            final(self).dialogs.show_pdf_error_dialog == old(self).dialogs.show_pdf_error_dialog,
            final(self).dialogs.pdf_error_message == old(self).dialogs.pdf_error_message,
            final(self).dialogs.is_document_conversion_error == old(self).dialogs.is_document_conversion_error,
    {
        self.dialogs.show_dpi_dialog = false;
        self.dialogs.pending_export_file = None;
    }

    /// "OK" in the "no redactions" dialog.
    pub fn dismiss_no_redactions(&mut self)
        ensures
            final(self).only_dialogs_changed(&*old(self)),
            !final(self).dialogs.show_no_redactions_dialog,
            final(self).dialogs.show_export_success_dialog == old(self).dialogs.show_export_success_dialog,
            final(self).dialogs.last_exported_filename == old(self).dialogs.last_exported_filename,
            final(self).dialogs.return_to_home == old(self).dialogs.return_to_home,
            final(self).dialogs.show_dpi_dialog == old(self).dialogs.show_dpi_dialog,
            final(self).dialogs.pending_export_file == old(self).dialogs.pending_export_file,
            final(self).dialogs.show_pdf_error_dialog == old(self).dialogs.show_pdf_error_dialog,
            final(self).dialogs.pdf_error_message == old(self).dialogs.pdf_error_message,
            final(self).dialogs.is_document_conversion_error == old(self).dialogs.is_document_conversion_error,
    {
        self.dialogs.show_no_redactions_dialog = false;
    }

    /// "OK" in the PDF error dialog.
    pub fn dismiss_pdf_error(&mut self)
        ensures
            final(self).only_dialogs_changed(&*old(self)),
            !final(self).dialogs.show_pdf_error_dialog,
            final(self).dialogs.show_no_redactions_dialog == old(self).dialogs.show_no_redactions_dialog,
            final(self).dialogs.show_export_success_dialog == old(self).dialogs.show_export_success_dialog,
            final(self).dialogs.last_exported_filename == old(self).dialogs.last_exported_filename,
            final(self).dialogs.return_to_home == old(self).dialogs.return_to_home,
            final(self).dialogs.show_dpi_dialog == old(self).dialogs.show_dpi_dialog,
            final(self).dialogs.pending_export_file == old(self).dialogs.pending_export_file,
            final(self).dialogs.pdf_error_message == old(self).dialogs.pdf_error_message,
            final(self).dialogs.is_document_conversion_error == old(self).dialogs.is_document_conversion_error,
    {
        self.dialogs.show_pdf_error_dialog = false;
    }

    /// "OK" in the success dialog: the exported file leaves the editor (see
    /// `remove_current_file`, whose result this returns).
    pub fn acknowledge_export_success(&mut self) -> (removed: Option<u64>)
        requires
            old(self).wf(),
        ensures
            final(self).removed_current_file(&*old(self), removed),
            !final(self).dialogs.show_export_success_dialog,
    {
        self.dialogs.show_export_success_dialog = false;
        self.remove_current_file()
    }

    /// What the document viewer shows: the end message once every file is done,
    /// else the current file as a PDF (Word documents too), an image, or nothing.
    pub fn view_kind(&self) -> (v: ViewKind)
        requires
            self.wf(),
        ensures
            v == if self.dialogs.return_to_home || self.files@.len() == 0 {
                ViewKind::Finished
            } else {
                match self.current_file().kind {
                    FileKind::Pdf | FileKind::Document => ViewKind::Pdf,
                    FileKind::Image | FileKind::Gif => ViewKind::Image,
                    FileKind::Other => ViewKind::Unsupported,
                }
            },
    {
        if self.dialogs.return_to_home || self.files.len() == 0 {
            return ViewKind::Finished;
        }
        match self.files[self.current_file_index].kind {
            FileKind::Pdf | FileKind::Document => ViewKind::Pdf,
            FileKind::Image | FileKind::Gif => ViewKind::Image,
            FileKind::Other => ViewKind::Unsupported,
        }
    }
}

} // verus!
