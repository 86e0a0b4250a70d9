use redactor::files::FileKind;

#[test]
fn pdf_extension_in_any_case() {
    assert_eq!(FileKind::from_extension(Some("pdf")), FileKind::Pdf);
    assert_eq!(FileKind::from_extension(Some("PDF")), FileKind::Pdf);
    assert_eq!(FileKind::from_extension(Some("Pdf")), FileKind::Pdf);
}

#[test]
fn word_documents() {
    assert_eq!(FileKind::from_extension(Some("doc")), FileKind::Document);
    assert_eq!(FileKind::from_extension(Some("DOCX")), FileKind::Document);
    assert!(FileKind::from_extension(Some("docx")).is_document());
    assert!(!FileKind::from_extension(Some("pdf")).is_document());
}

#[test]
fn images_and_gif() {
    for e in ["jpg", "JPEG", "png", "WebP"] {
        assert_eq!(FileKind::from_extension(Some(e)), FileKind::Image, "{}", e);
    }
    assert_eq!(FileKind::from_extension(Some("gif")), FileKind::Gif);
    assert_eq!(FileKind::from_extension(Some("GIF")), FileKind::Gif);
}

#[test]
fn other_extensions_and_none() {
    assert_eq!(FileKind::from_extension(None), FileKind::Other);
    assert_eq!(FileKind::from_extension(Some("")), FileKind::Other);
    assert_eq!(FileKind::from_extension(Some("txt")), FileKind::Other);
    assert_eq!(FileKind::from_extension(Some("pdfx")), FileKind::Other);
    assert_eq!(FileKind::from_extension(Some("pd")), FileKind::Other);
    assert_eq!(FileKind::from_extension(Some("pdé")), FileKind::Other);
    assert!(FileKind::from_extension(Some("pdf")).is_pdf());
    assert!(!FileKind::from_extension(Some("png")).is_pdf());
}
