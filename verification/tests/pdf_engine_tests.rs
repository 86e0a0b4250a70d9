use pdfium_render::prelude::{PdfPoints, PdfRect};
use redactor::pdf::{collect_results, search_requests, PdfEngine, SearchResult};

#[test]
fn test_pdf_engine_creation() {
    let engine = PdfEngine::new();
    assert_eq!(engine.page_count(), 0);
}

#[test]
fn test_search_result_creation() {
    let search_result = SearchResult {
        page_index: 1,
        rect: PdfRect::new(
            PdfPoints::new(10.0),
            PdfPoints::new(20.0),
            PdfPoints::new(30.0),
            PdfPoints::new(40.0),
        ),
        text: "test".to_string(),
    };
    assert_eq!(search_result.page_index, 1);
    assert_eq!(search_result.text, "test");
}

#[test]
fn load_bytes_keeps_data_and_takes_page_count() {
    let mut engine = PdfEngine::new();
    assert!(!engine.has_document());
    let r = engine.load_bytes(vec![1, 2, 3], Ok(7));
    assert!(r.is_ok());
    assert_eq!(engine.page_count(), 7);
    assert_eq!(engine.pdf_data(), &vec![1u8, 2, 3]);
    assert!(engine.has_document());
}

#[test]
fn load_bytes_failure_keeps_page_count() {
    let mut engine = PdfEngine::new();
    engine.load_bytes(vec![9], Ok(3)).unwrap();
    let r = engine.load_bytes(vec![4, 5], Err("bad pdf".to_string()));
    assert_eq!(r, Err("bad pdf".to_string()));
    assert_eq!(engine.page_count(), 3);
    assert_eq!(engine.pdf_data(), &vec![4u8, 5]);
}

#[test]
fn search_result_clone_keeps_fields() {
    let r = SearchResult {
        page_index: 4,
        rect: PdfRect::new(
            PdfPoints::new(1.0),
            PdfPoints::new(2.0),
            PdfPoints::new(3.0),
            PdfPoints::new(4.0),
        ),
        text: "secret".to_string(),
    };
    let c = r.clone();
    assert_eq!(c.page_index, 4);
    assert_eq!(c.text, "secret");
    assert_eq!(c.rect.left().value, r.rect.left().value);
    assert_eq!(c.rect.top().value, r.rect.top().value);
}

fn rect(v: f32) -> PdfRect {
    PdfRect::new(
        PdfPoints::new(v),
        PdfPoints::new(v),
        PdfPoints::new(v + 1.0),
        PdfPoints::new(v + 1.0),
    )
}

#[test]
fn collect_results_tags_hits_with_their_page_in_page_order() {
    let per_page = vec![
        vec![(rect(1.0), "Secret".to_string()), (rect(2.0), "secret".to_string())],
        vec![],
        vec![(rect(3.0), "SECRET".to_string())],
    ];
    let rs = collect_results(&per_page);
    assert_eq!(rs.len(), 3);
    let pages: Vec<u16> = rs.iter().map(|r| r.page_index).collect();
    assert_eq!(pages, vec![0, 0, 2]);
    let texts: Vec<&str> = rs.iter().map(|r| r.text.as_str()).collect();
    assert_eq!(texts, vec!["Secret", "secret", "SECRET"]);
    assert_eq!(rs[2].rect, rect(3.0));
    assert_eq!(rs[0].rect, rect(1.0));
}

#[test]
fn collect_results_of_no_pages_or_no_hits_is_empty() {
    assert!(collect_results(&vec![]).is_empty());
    assert!(collect_results(&vec![vec![], vec![]]).is_empty());
}

#[test]
fn search_asks_for_every_page_with_the_term() {
    let requests = search_requests(3, "Secret");
    assert_eq!(
        requests,
        vec![(0, "Secret".to_string()), (1, "Secret".to_string()), (2, "Secret".to_string())]
    );
    assert!(search_requests(0, "x").is_empty());
}
