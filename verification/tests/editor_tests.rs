use pdfium_render::prelude::{PdfPoints, PdfRect};
use redactor::editor::{DocumentLoad, EditorSession, ExportStep, LoadRequest, PageScope, ViewKind};
use redactor::files::{FileEntry, FileKind};
use redactor::pdf::{PdfEngine, SearchResult};

type Session = EditorSession<f32>;

fn pdf(id: u64) -> FileEntry {
    FileEntry { id, kind: FileKind::Pdf }
}
fn png(id: u64) -> FileEntry {
    FileEntry { id, kind: FileKind::Image }
}
fn docx(id: u64) -> FileEntry {
    FileEntry { id, kind: FileKind::Document }
}
fn engine(pages: u16) -> PdfEngine {
    let mut e = PdfEngine::new();
    e.load_bytes(vec![1, 2], Ok(pages)).unwrap();
    e
}
fn hit(page: u16) -> SearchResult {
    SearchResult {
        page_index: page,
        rect: PdfRect::new(PdfPoints::new(0.0), PdfPoints::new(0.0), PdfPoints::new(1.0), PdfPoints::new(1.0)),
        text: "x".to_string(),
    }
}

#[test]
fn new_session_and_first_load() {
    let s = Session::new(vec![docx(1), pdf(2)]);
    assert_eq!(s.current_file_index, 0);
    assert_eq!(s.load_request(), LoadRequest::ConvertDocument(1));
    assert_eq!(Session::new(vec![pdf(5)]).load_request(), LoadRequest::LoadPdf(5));
    assert_eq!(Session::new(vec![png(5)]).load_request(), LoadRequest::Nothing);
    assert_eq!(Session::new(vec![]).load_request(), LoadRequest::Nothing);
}

#[test]
fn pdf_load_failure_opens_error_dialog() {
    let mut s = Session::new(vec![pdf(1)]);
    s.search_finished(Some(vec![hit(0)]));
    s.pdf_loaded(Err("Failed to read PDF file".to_string()));
    assert!(s.dialogs.show_pdf_error_dialog);
    assert!(!s.dialogs.is_document_conversion_error);
    assert_eq!(s.dialogs.pdf_error_message, "Failed to read PDF file");
    assert!(s.search.results.is_empty());
    s.dismiss_pdf_error();
    assert!(!s.dialogs.show_pdf_error_dialog);
}

#[test]
fn pdf_load_success() {
    let mut s = Session::new(vec![pdf(1)]);
    s.pdf_loaded(Ok(engine(4)));
    assert_eq!(s.pdf_state.pdf_page_count, 4);
    assert!(!s.dialogs.show_pdf_error_dialog);
}

#[test]
fn document_conversion_outcomes() {
    let mut s = Session::new(vec![docx(1)]);
    s.document_loaded(DocumentLoad::ConversionFailed("Failed to convert document to PDF".to_string()));
    assert!(s.dialogs.show_pdf_error_dialog);
    assert!(s.dialogs.is_document_conversion_error);
    assert_eq!(
        s.dialogs.pdf_error_message,
        "Failed to convert document to PDF: Failed to convert document to PDF"
    );
    let mut s = Session::new(vec![docx(1)]);
    s.document_loaded(DocumentLoad::Converted(Err("pdfium".to_string())));
    assert_eq!(s.dialogs.pdf_error_message, "Failed to convert document to PDF: Failed to load converted PDF");
    assert_eq!(s.pdf_state.pdf_error_message.as_deref(), Some("pdfium"));
    let mut s = Session::new(vec![docx(1)]);
    s.document_loaded(DocumentLoad::Converted(Ok(engine(2))));
    assert!(!s.dialogs.show_pdf_error_dialog);
    assert_eq!(s.pdf_state.pdf_page_count, 2);
}

#[test]
fn boxes_go_on_the_page_shown_for_pdfs_and_nowhere_for_images() {
    let mut s = Session::new(vec![pdf(1), png(2)]);
    s.pdf_loaded(Ok(engine(3)));
    s.pdf_state.current_pdf_page = 2;
    s.add_redaction_area(0.1, 0.2, 0.3, 0.4);
    assert_eq!(s.redaction.areas[0].page_index, Some(2));
    assert_eq!(s.redaction.areas[0].file, 1);
    s.select_file(1);
    s.add_redaction_area(0.5, 0.5, 0.1, 0.1);
    assert_eq!(s.redaction.areas[1].page_index, None);
    assert_eq!(s.redaction.areas[1].file, 2);
    assert!(s.area_is_visible(1));
    assert!(!s.area_is_visible(0));
}

#[test]
fn areas_marked_and_clear_current_page() {
    let mut s = Session::new(vec![pdf(1), png(2)]);
    s.pdf_loaded(Ok(engine(3)));
    s.add_redaction_area(0.1, 0.1, 0.1, 0.1);
    s.add_redaction_area(0.2, 0.2, 0.1, 0.1);
    s.pdf_state.current_pdf_page = 1;
    s.add_redaction_area(0.3, 0.3, 0.1, 0.1);
    assert_eq!(s.count_redactions_on_view(), 1);
    s.pdf_state.current_pdf_page = 0;
    assert_eq!(s.count_redactions_on_view(), 2);
    s.clear_current_page();
    assert_eq!(s.count_redactions_on_view(), 0);
    assert_eq!(s.redaction.areas.len(), 1);
    assert_eq!(s.redaction.areas[0].page_index, Some(1));
    s.clear_all_redactions();
    assert!(s.redaction.areas.is_empty());
}

#[test]
fn delete_needs_confirmation() {
    let mut s = Session::new(vec![png(1)]);
    s.add_redaction_area(0.1, 0.1, 0.1, 0.1);
    s.add_redaction_area(0.2, 0.2, 0.1, 0.1);
    s.request_delete(0);
    assert_eq!(s.pending_delete_target(), Some(0));
    s.cancel_delete();
    assert_eq!(s.redaction.areas.len(), 2);
    s.request_delete(0);
    s.confirm_delete();
    assert_eq!(s.redaction.areas.len(), 1);
    assert_eq!(s.redaction.areas[0].x, 0.2);
    assert!(s.redaction.pending_delete.is_none());
    s.request_delete(7);
    assert_eq!(s.pending_delete_target(), None);
    assert!(s.redaction.pending_delete.is_none());
}

#[test]
fn search_navigation_wraps_around() {
    let mut s = Session::new(vec![pdf(1)]);
    assert!(!s.goto_next_match());
    s.search_finished(Some(vec![hit(0), hit(2), hit(5)]));
    assert!(s.goto_next_match());
    assert_eq!(s.search.active_search_result, Some(0));
    assert!(s.search.scroll_to_active_result);
    s.goto_next_match();
    s.goto_next_match();
    assert_eq!(s.search.active_search_result, Some(2));
    assert_eq!(s.pdf_state.current_pdf_page, 5);
    s.goto_next_match();
    assert_eq!(s.search.active_search_result, Some(0));
    s.goto_prev_match();
    assert_eq!(s.search.active_search_result, Some(2));
    s.goto_prev_match();
    s.goto_next_match();
    assert_eq!(s.search.active_search_result, Some(2));
    assert!(s.result_on_current_page(2));
    s.finish_scroll_to_active();
    assert!(!s.search.scroll_to_active_result);
    assert!(!s.activate_search_result(3));
    s.clear_search();
    assert!(s.search.results.is_empty());
}

#[test]
fn prev_from_nothing_goes_to_last() {
    let mut s = Session::new(vec![pdf(1)]);
    s.search_finished(Some(vec![hit(0), hit(1)]));
    assert!(s.goto_prev_match());
    assert_eq!(s.search.active_search_result, Some(1));
}

#[test]
fn removing_files_moves_on_and_ends_session() {
    let mut s = Session::new(vec![pdf(1), png(2), pdf(3)]);
    s.pdf_loaded(Ok(engine(2)));
    s.add_redaction_area(0.1, 0.1, 0.1, 0.1);
    s.select_file(2);
    s.add_redaction_area(0.2, 0.2, 0.1, 0.1);
    assert_eq!(s.remove_current_file(), Some(3));
    assert_eq!(s.current_file_index, 1);
    assert_eq!(s.files.len(), 2);
    assert_eq!(s.redaction.areas.len(), 1);
    assert_eq!(s.redaction.areas[0].file, 1);
    assert!(s.pdf_state.pdf_engine.is_none());
    assert_eq!(s.remove_current_file(), Some(2));
    assert_eq!(s.current_file_index, 0);
    assert_eq!(s.load_request(), LoadRequest::LoadPdf(1));
    assert_eq!(s.remove_current_file(), Some(1));
    assert!(s.files.is_empty());
    assert!(s.dialogs.return_to_home);
    assert!(s.redaction.areas.is_empty());
    assert_eq!(s.view_kind(), ViewKind::Finished);
    assert_eq!(s.remove_current_file(), None);
}

#[test]
fn export_without_boxes_shows_dialog() {
    let mut s = Session::new(vec![pdf(1)]);
    assert_eq!(s.begin_export(), ExportStep::NoRedactions);
    assert!(s.dialogs.show_no_redactions_dialog);
    s.dismiss_no_redactions();
    assert!(!s.dialogs.show_no_redactions_dialog);
}

#[test]
fn pdf_export_goes_through_dpi_dialog() {
    let mut s = Session::new(vec![pdf(1), png(2)]);
    s.pdf_loaded(Ok(engine(3)));
    s.pdf_state.current_pdf_page = 1;
    s.add_redaction_area(0.1, 0.2, 0.3, 0.4);
    assert_eq!(s.begin_export(), ExportStep::ChooseDpi(1));
    assert!(s.dialogs.show_dpi_dialog);
    let file = s.confirm_dpi_export();
    assert_eq!(file, Some(1));
    assert!(!s.dialogs.show_dpi_dialog);
    let boxes = s.export_boxes(1);
    assert_eq!(boxes.len(), 1);
    assert_eq!(boxes[0].page_index, 1);
    assert_eq!(boxes[0].x, 0.1);
    s.export_finished(Some("a_redacted.pdf".to_string()));
    assert!(s.dialogs.show_export_success_dialog);
    assert_eq!(s.dialogs.last_exported_filename, "a_redacted.pdf");
    assert_eq!(s.acknowledge_export_success(), Some(1));
    assert!(!s.dialogs.show_export_success_dialog);
    assert_eq!(s.files.len(), 1);
    assert_eq!(s.view_kind(), ViewKind::Image);
}

#[test]
fn image_and_gif_export_is_direct_and_other_files_are_not_exported() {
    let mut s = Session::new(vec![
        png(1),
        FileEntry { id: 2, kind: FileKind::Gif },
        FileEntry { id: 3, kind: FileKind::Other },
    ]);
    s.add_redaction_area(0.1, 0.1, 0.1, 0.1);
    assert_eq!(s.begin_export(), ExportStep::ExportImage(1));
    assert_eq!(s.export_boxes(1)[0].page_index, 0);
    s.select_file(1);
    s.add_redaction_area(0.1, 0.1, 0.1, 0.1);
    assert_eq!(s.begin_export(), ExportStep::ExportImage(2));
    assert!(!s.dialogs.show_dpi_dialog);
    s.select_file(2);
    s.add_redaction_area(0.1, 0.1, 0.1, 0.1);
    assert_eq!(s.begin_export(), ExportStep::Unsupported);
    s.cancel_dpi_export();
    assert!(s.dialogs.pending_export_file.is_none());
    s.export_finished(None);
    assert!(!s.dialogs.show_export_success_dialog);
}

#[test]
fn word_document_boxes_belong_to_the_page_shown() {
    let mut s = Session::new(vec![docx(1)]);
    s.document_loaded(DocumentLoad::Converted(Ok(engine(3))));
    s.pdf_state.current_pdf_page = 2;
    s.add_redaction_area(0.1, 0.1, 0.1, 0.1);
    assert_eq!(s.redaction.areas[0].page_index, Some(2));
    assert!(s.area_is_visible(0));
    assert_eq!(s.count_redactions_on_view(), 1);
    s.pdf_state.current_pdf_page = 0;
    s.add_redaction_area(0.2, 0.2, 0.1, 0.1);
    assert!(!s.area_is_visible(0));
    assert_eq!(s.count_redactions_on_view(), 1);
    s.clear_current_page();
    assert_eq!(s.redaction.areas.len(), 1);
    assert_eq!(s.redaction.areas[0].page_index, Some(2));
    assert_eq!(s.begin_export(), ExportStep::ChooseDpi(1));
    let boxes = s.export_boxes(1);
    assert_eq!(boxes[0].page_index, 2);
}

#[test]
fn acknowledging_success_moves_to_the_next_file() {
    let mut s = Session::new(vec![png(1), png(2), png(3)]);
    s.select_file(1);
    s.add_redaction_area(0.1, 0.1, 0.1, 0.1);
    s.toggle_redaction_mode();
    s.export_finished(Some("b_redacted.png".to_string()));
    assert_eq!(s.acknowledge_export_success(), Some(2));
    assert_eq!(s.current_file_index, 1);
    assert_eq!(s.files[1].id, 3);
    assert!(!s.redaction.redaction_mode);
    assert!(s.redaction.areas.is_empty());
    assert!(!s.dialogs.show_export_success_dialog);
    assert!(!s.dialogs.return_to_home);
}

#[test]
fn view_kinds_and_mode_toggle() {
    let mut s = Session::new(vec![docx(1), FileEntry { id: 2, kind: FileKind::Other }]);
    assert_eq!(s.view_kind(), ViewKind::Pdf);
    s.toggle_redaction_mode();
    assert!(s.redaction.redaction_mode);
    s.select_file(1);
    assert!(!s.redaction.redaction_mode);
    assert_eq!(s.view_kind(), ViewKind::Unsupported);
    let _ = PageScope::AllPages;
}

#[test]
fn drawn_box_is_exported_last() {
    let mut s = Session::new(vec![pdf(1), png(2)]);
    s.pdf_loaded(Ok(engine(5)));
    s.add_redaction_area(0.1, 0.1, 0.1, 0.1);
    s.select_file(1);
    s.add_redaction_area(0.2, 0.2, 0.2, 0.2);
    s.select_file(0);
    s.pdf_state.current_pdf_page = 3;
    let before = s.export_boxes(1);
    s.add_redaction_area(0.5, 0.6, 0.05, 0.07);
    let after = s.export_boxes(1);
    assert_eq!(after.len(), before.len() + 1);
    let last = after[after.len() - 1];
    assert_eq!((last.page_index, last.x, last.y, last.width, last.height), (3, 0.5, 0.6, 0.05, 0.07));
    assert_eq!(s.export_boxes(2).len(), 1);
}
