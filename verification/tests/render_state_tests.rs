use redactor::pdf::PdfEngine;
use redactor::render_state::PdfRenderState;

fn engine(pages: u16) -> PdfEngine {
    let mut e = PdfEngine::new();
    e.load_bytes(vec![1], Ok(pages)).unwrap();
    e
}

#[test]
fn new_state_is_empty() {
    let s = PdfRenderState::new();
    assert!(s.pdf_engine.is_none());
    assert_eq!(s.current_pdf_page, 0);
    assert_eq!(s.pdf_page_count, 0);
    assert!(s.pdf_error_message.is_none());
}

#[test]
fn load_success_and_failure() {
    let mut s = PdfRenderState::new();
    assert!(!s.load_file(Err("Failed to read PDF file".to_string())));
    assert_eq!(s.pdf_error_message.as_deref(), Some("Failed to read PDF file"));
    assert!(s.pdf_engine.is_none());
    assert!(s.load_file(Ok(engine(5))));
    assert_eq!(s.pdf_page_count, 5);
    assert_eq!(s.current_pdf_page, 0);
    assert!(s.pdf_error_message.is_none());
    assert!(s.pdf_engine.is_some());
}

#[test]
fn clear_forgets_document() {
    let mut s = PdfRenderState::new();
    s.load_file(Ok(engine(3)));
    s.current_pdf_page = 2;
    s.clear();
    assert!(s.pdf_engine.is_none());
    assert_eq!(s.current_pdf_page, 0);
    assert_eq!(s.pdf_page_count, 0);
}

#[test]
fn page_buttons_stay_in_document() {
    let mut s = PdfRenderState::new();
    s.load_file(Ok(engine(3)));
    assert!(!s.previous_page());
    assert_eq!(s.current_pdf_page, 0);
    assert!(s.next_page());
    assert!(s.next_page());
    assert_eq!(s.current_pdf_page, 2);
    assert!(!s.next_page());
    assert_eq!(s.current_pdf_page, 2);
    assert!(s.previous_page());
    assert_eq!(s.current_pdf_page, 1);
}

#[test]
fn next_then_previous_returns() {
    let mut s = PdfRenderState::new();
    s.load_file(Ok(engine(10)));
    s.current_pdf_page = 4;
    s.next_page();
    s.previous_page();
    assert_eq!(s.current_pdf_page, 4);
}

#[test]
fn page_buttons_on_a_document_without_pages_do_nothing() {
    let mut s = PdfRenderState::new();
    assert!(s.load_file(Ok(engine(0))));
    assert!(!s.next_page());
    assert_eq!(s.current_pdf_page, 0);
    assert!(!s.previous_page());
    assert_eq!(s.current_pdf_page, 0);
}
