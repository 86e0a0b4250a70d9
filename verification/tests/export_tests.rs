use redactor::conversion::{converted_pdf_name, pandoc_arguments, ConversionError};
use redactor::pdf_export::{image_name, page_content, RasterPage};
use redactor::raster::RasterizedPdfExporter;

#[test]
fn content_stream_paints_the_image() {
    assert_eq!(page_content(1275, 1650, 0), b"q\n1275 0 0 1650 0 0 cm\n/Image0 Do\nQ\n".to_vec());
    assert_eq!(page_content(0, 7, 12), b"q\n0 0 0 7 0 0 cm\n/Image12 Do\nQ\n".to_vec());
    assert_eq!(
        String::from_utf8(page_content(u32::MAX, 10, 305)).unwrap(),
        format!("q\n{} 0 0 {} 0 0 cm\n/Image{} Do\nQ\n", u32::MAX, 10, 305)
    );
}

#[test]
fn image_names() {
    assert_eq!(image_name(0), "Image0");
    assert_eq!(image_name(42), "Image42");
    assert_eq!(image_name(1000), "Image1000");
}

#[test]
fn document_has_three_objects_per_page_and_two_more() {
    let pages = vec![
        RasterPage { width: 2, height: 1, rgb: vec![0; 6] },
        RasterPage { width: 1, height: 1, rgb: vec![255; 3] },
    ];
    let doc = RasterizedPdfExporter::create_pdf_from_images(&pages);
    assert_eq!(doc.max_id, 8);
    assert_eq!(doc.objects.len(), 8);
    for id in 1..=8u32 {
        assert!(doc.objects.contains_key(&(id, 0)));
    }
    let root = doc.trailer.get(b"Root").unwrap().as_reference().unwrap();
    assert_eq!(root, (8, 0));
    let page0 = doc.get_object((3, 0)).unwrap().as_dict().unwrap();
    assert_eq!(page0.get(b"Contents").unwrap().as_reference().unwrap(), (2, 0));
    let image = doc.get_object((1, 0)).unwrap().as_stream().unwrap();
    assert_eq!(image.content, vec![0u8; 6]);
    let image2 = doc.get_object((4, 0)).unwrap().as_stream().unwrap();
    assert_eq!(image2.content, vec![255u8; 3]);
    let content = doc.get_object((2, 0)).unwrap().as_stream().unwrap();
    assert_eq!(content.content, b"q\n2 0 0 1 0 0 cm\n/Image0 Do\nQ\n".to_vec());
    let media_box: Vec<i64> = page0
        .get(b"MediaBox")
        .unwrap()
        .as_array()
        .unwrap()
        .iter()
        .map(|o| o.as_i64().unwrap())
        .collect();
    assert_eq!(media_box, vec![0, 0, 2, 1]);
    let xobjects = page0
        .get(b"Resources")
        .unwrap()
        .as_dict()
        .unwrap()
        .get(b"XObject")
        .unwrap()
        .as_dict()
        .unwrap();
    assert_eq!(xobjects.get(b"Image0").unwrap().as_reference().unwrap(), (1, 0));
    assert_eq!(image.dict.get(b"Width").unwrap().as_i64().unwrap(), 2);
    assert_eq!(image.dict.get(b"Length").unwrap().as_i64().unwrap(), 6);
    assert_eq!(image.dict.get(b"ColorSpace").unwrap().as_name().unwrap(), b"DeviceRGB");
    let tree = doc.get_object((7, 0)).unwrap().as_dict().unwrap();
    let kids: Vec<(u32, u16)> = tree
        .get(b"Kids")
        .unwrap()
        .as_array()
        .unwrap()
        .iter()
        .map(|o| o.as_reference().unwrap())
        .collect();
    assert_eq!(kids, vec![(3, 0), (6, 0)]);
    let catalog = doc.get_object((8, 0)).unwrap().as_dict().unwrap();
    assert_eq!(catalog.get(b"Pages").unwrap().as_reference().unwrap(), (7, 0));
    assert_eq!(tree.get(b"Count").unwrap().as_i64().unwrap(), 2);
}

#[test]
fn empty_document_has_tree_and_catalog_only() {
    let doc = RasterizedPdfExporter::create_pdf_from_images(&vec![]);
    assert_eq!(doc.max_id, 2);
    assert_eq!(doc.objects.len(), 2);
}

#[test]
fn converted_names_and_arguments() {
    assert_eq!(converted_pdf_name("report"), "report.pdf");
    assert_eq!(
        pandoc_arguments("/in/report.docx", "/tmp/x/report.pdf"),
        vec!["/in/report.docx", "-o", "/tmp/x/report.pdf", "--pdf-engine=pdflatex"]
    );
}

#[test]
fn conversion_messages() {
    assert_eq!(ConversionError::InputNotFound("a.docx".into()).message(), "Input file not found: a.docx");
    assert_eq!(ConversionError::NoTempDir.message(), "Temporary directory not available");
    assert_eq!(ConversionError::InvalidFileName.message(), "Invalid filename");
    assert_eq!(
        ConversionError::PandocFailed { stderr: "boom".into(), stdout: "".into() }.message(),
        "Pandoc conversion failed.\nStderr: boom\nStdout: "
    );
    assert_eq!(
        ConversionError::OutputMissing("/t/a.pdf".into()).message(),
        "Conversion appeared to succeed but PDF file not found at: /t/a.pdf"
    );
    assert!(ConversionError::PandocNotRun.message().starts_with("Failed to execute Pandoc."));
}
