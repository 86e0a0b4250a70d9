//! Assembling a PDF whose every page is one rasterized image.
//!
//! Page `i` (from 0) is made of three objects, numbered in the order they are added:
//! the image (`3i + 1`), the content stream that paints it (`3i + 2`) and the page
//! dictionary (`3i + 3`). The page tree and the catalog follow (`3n + 1`, `3n + 2`).

use crate::pdf_objects::{
    dictionary_entries, dictionary_new, dictionary_set, document_add_object, document_max_id,
    document_new, document_objects, document_set_trailer, document_trailer, object_from_array,
    object_from_dictionary, object_from_integer, object_from_name, object_from_reference,
    object_from_stream, object_value, stream_dictionary, stream_new, PdfValue,
};
use lopdf::{Document, Object, ObjectId};
use vstd::prelude::*;
use vstd::string::*;
use vstd::utf8::encode_utf8;

verus! {

/// The pixels of one rendered page: `width` by `height`, three bytes (RGB) each.
pub struct RasterPage {
    pub width: u32,
    pub height: u32,
    pub rgb: Vec<u8>,
}

/// The decimal digits of `n`, as ASCII bytes.
pub open spec fn decimal(n: nat) -> Seq<u8>
    decreases n,
{
    if n < 10 {
        seq![(48 + n) as u8]
    } else {
        decimal(n / 10).push((48 + n % 10) as u8)
    }
}

/// The decimal digits of `n`, as characters.
pub open spec fn decimal_text(n: nat) -> Seq<char>
    decreases n,
{
    if n < 10 {
        seq!["0123456789"@[n as int]]
    } else {
        decimal_text(n / 10).push("0123456789"@[(n % 10) as int])
    }
}

/// The content stream of page `index`: it scales the unit square to the page's size
/// and paints the page's image there.
pub open spec fn page_content_spec(width: u32, height: u32, index: usize) -> Seq<u8> {
    "q\n".spec_bytes() + decimal(width as nat) + " 0 0 ".spec_bytes() + decimal(height as nat)
        + " 0 0 cm\n/Image".spec_bytes() + decimal(index as nat) + " Do\nQ\n".spec_bytes()
}

/// The name under which page `index` refers to its image.
pub open spec fn image_name_spec(index: usize) -> Seq<char> {
    "Image"@ + decimal_text(index as nat)
}

/// The object numbers `1..=n`, all of generation 0.
pub open spec fn first_ids(n: int) -> Set<(u32, u16)> {
    Set::new(|id: (u32, u16)| 1 <= id.0 <= n && id.1 == 0)
}

/// A name value.
pub open spec fn name_value(name: &str) -> PdfValue {
    PdfValue::Name(name.spec_bytes())
}

/// The dictionary of page `i`'s image: an RGB image of the page's size, 8 bits per
/// channel, with the length of its pixels (set when the stream is first made and
/// again when it is made with the full dictionary).
pub open spec fn image_entries(page: RasterPage) -> Map<Seq<u8>, PdfValue> {
    Map::empty().insert("Length".spec_bytes(), PdfValue::Integer(page.rgb@.len() as int)).insert(
        "Type".spec_bytes(),
        name_value("XObject"),
    ).insert("Subtype".spec_bytes(), name_value("Image")).insert(
        "Width".spec_bytes(),
        PdfValue::Integer((page.width as i32) as int),
    ).insert("Height".spec_bytes(), PdfValue::Integer((page.height as i32) as int)).insert(
        "ColorSpace".spec_bytes(),
        name_value("DeviceRGB"),
    ).insert("BitsPerComponent".spec_bytes(), PdfValue::Integer(8)).insert(
        "Length".spec_bytes(),
        PdfValue::Integer(page.rgb@.len() as int),
    )
}

/// The dictionary of page `i`'s content stream: only its length.
pub open spec fn content_entries(page: RasterPage, i: int) -> Map<Seq<u8>, PdfValue> {
    Map::empty().insert(
        "Length".spec_bytes(),
        PdfValue::Integer(page_content_spec(page.width, page.height, i as usize).len() as int),
    )
}

/// The dictionary of page `i`: a page as large as its image, painted by its content
/// stream (object `3i + 2`), whose resources name its image (object `3i + 1`).
pub open spec fn page_entries(page: RasterPage, i: int) -> Map<Seq<u8>, PdfValue> {
    Map::empty().insert("Type".spec_bytes(), name_value("Page")).insert(
        "MediaBox".spec_bytes(),
        PdfValue::Array(
            seq![
                PdfValue::Integer(0),
                PdfValue::Integer(0),
                PdfValue::Integer((page.width as i32) as int),
                PdfValue::Integer((page.height as i32) as int),
            ],
        ),
    ).insert("Contents".spec_bytes(), PdfValue::Reference((3 * i + 2) as u32, 0)).insert(
        "Resources".spec_bytes(),
        PdfValue::Dictionary(
            Map::empty().insert(
                "XObject".spec_bytes(),
                PdfValue::Dictionary(
                    Map::empty().insert(
                        encode_utf8(image_name_spec(i as usize)),
                        PdfValue::Reference((3 * i + 1) as u32, 0),
                    ),
                ),
            ),
        ),
    )
}

/// The page tree of `n` pages: the pages (objects `3i + 3`) in order, and their count.
pub open spec fn page_tree_entries(n: int) -> Map<Seq<u8>, PdfValue> {
    Map::empty().insert("Type".spec_bytes(), name_value("Pages")).insert(
        "Kids".spec_bytes(),
        PdfValue::Array(Seq::new(n as nat, |i: int| PdfValue::Reference((3 * i + 3) as u32, 0))),
    ).insert("Count".spec_bytes(), PdfValue::Integer((n as i32) as int))
}

/// The catalog: its page tree is object `3n + 1`.
pub open spec fn catalog_entries(n: int) -> Map<Seq<u8>, PdfValue> {
    Map::empty().insert("Type".spec_bytes(), name_value("Catalog")).insert(
        "Pages".spec_bytes(),
        PdfValue::Reference((3 * n + 1) as u32, 0),
    )
}

/// Pages `0..k` are laid out: image, content stream and page of page `i` are objects
/// `3i + 1`, `3i + 2` and `3i + 3`.
pub open spec fn pages_laid_out(objects: Map<(u32, u16), PdfValue>, pages: Seq<RasterPage>, k: int) -> bool {
    forall|i: int|
        #![trigger pages[i]]
        0 <= i < k ==> {
            &&& objects[((3 * i + 1) as u32, 0u16)] == PdfValue::Stream(
                image_entries(pages[i]),
                pages[i].rgb@,
            )
            &&& objects[((3 * i + 2) as u32, 0u16)] == PdfValue::Stream(
                content_entries(pages[i], i),
                page_content_spec(pages[i].width, pages[i].height, i as usize),
            )
            &&& objects[((3 * i + 3) as u32, 0u16)] == PdfValue::Dictionary(page_entries(pages[i], i))
        }
}

fn push_decimal(out: &mut Vec<u8>, n: u64)
    ensures
        final(out)@ == old(out)@ + decimal(n as nat),
    decreases n,
{
    if n >= 10 {
        push_decimal(out, n / 10);
    }
    let digit: u8 = (n % 10) as u8;
    out.push(48 + digit);
    proof {
        if n >= 10 {
            assert(decimal(n as nat) == decimal((n / 10) as nat).push((48 + n % 10) as u8));
        }
    }
}

fn push_bytes(out: &mut Vec<u8>, s: &str)
    ensures
        final(out)@ == old(out)@ + s.spec_bytes(),
{
    let bytes = s.as_bytes();
    let mut i: usize = 0;
    while i < bytes.len()
        invariant
            bytes@ == s.spec_bytes(),
            i <= bytes@.len(),
            out@ == old(out)@ + bytes@.take(i as int),
        decreases bytes.len() - i,
    {
        out.push(bytes[i]);
        assert(bytes@.take(i + 1) =~= bytes@.take(i as int).push(bytes@[i as int]));
        i = i + 1;
    }
    assert(bytes@.take(bytes@.len() as int) =~= bytes@);
}

fn push_decimal_text(out: &mut String, n: u64)
    ensures
        final(out)@ == old(out)@ + decimal_text(n as nat),
    decreases n,
{
    if n >= 10 {
        push_decimal_text(out, n / 10);
    }
    let digits = "0123456789";
    proof {
        reveal_strlit("0123456789");
    }
    let d: usize = (n % 10) as usize;
    let digit = digits.substring_char(d, d + 1);
    assert(digit@ =~= seq!["0123456789"@[d as int]]);
    out.append(digit);
}

/// The content stream of page `index` (see `page_content_spec`).
pub fn page_content(width: u32, height: u32, index: usize) -> (content: Vec<u8>)
    ensures
        content@ == page_content_spec(width, height, index),
{
    let mut out: Vec<u8> = Vec::new();
    push_bytes(&mut out, "q\n");
    push_decimal(&mut out, width as u64);
    push_bytes(&mut out, " 0 0 ");
    push_decimal(&mut out, height as u64);
    push_bytes(&mut out, " 0 0 cm\n/Image");
    push_decimal(&mut out, index as u64);
    push_bytes(&mut out, " Do\nQ\n");
    assert(out@ =~= page_content_spec(width, height, index));
    out
}

/// The name of page `index`'s image in its resources (see `image_name_spec`).
pub fn image_name(index: usize) -> (name: String)
    ensures
        name@ == image_name_spec(index),
{
    let mut name = String::from_str("Image");
    push_decimal_text(&mut name, index as u64);
    name
}

impl crate::raster::RasterizedPdfExporter {
    /// Builds a PDF with one page per image, each page the size of its image in
    /// points and covered by it. The document holds exactly the objects numbered
    /// `1..=3n + 2`: per page its image, its content stream and the page (see
    /// `pages_laid_out`), then the page tree and the catalog, which the trailer's
    /// `Root` names.
    pub fn create_pdf_from_images(pages: &Vec<RasterPage>) -> (doc: Document)
        requires
            3 * pages@.len() + 2 <= u32::MAX,
        ensures
            document_max_id(doc) == 3 * pages@.len() + 2,
            document_objects(doc).dom() == first_ids(3 * pages@.len() + 2 as int),
            pages_laid_out(document_objects(doc), pages@, pages@.len() as int),
            document_objects(doc)[((3 * pages@.len() + 1) as u32, 0u16)] == PdfValue::Dictionary(
                page_tree_entries(pages@.len() as int),
            ),
            document_objects(doc)[((3 * pages@.len() + 2) as u32, 0u16)] == PdfValue::Dictionary(
                catalog_entries(pages@.len() as int),
            ),
            document_trailer(doc) == Map::<Seq<u8>, PdfValue>::empty().insert(
                "Root".spec_bytes(),
                PdfValue::Reference((3 * pages@.len() + 2) as u32, 0),
            ),
    {
        let mut doc = document_new();
        let mut page_ids: Vec<ObjectId> = Vec::new();
        let n = pages.len();
        assert(first_ids(0) =~= Set::<(u32, u16)>::empty());
        let mut idx: usize = 0;
        while idx < n
            invariant
                n == pages@.len(),
                3 * n + 2 <= u32::MAX,
                idx <= n,
                document_max_id(doc) == 3 * idx,
                document_objects(doc).dom() == first_ids(3 * idx as int),
                pages_laid_out(document_objects(doc), pages@, idx as int),
                document_trailer(doc).dom() == Set::<Seq<u8>>::empty(),
                page_ids@ == Seq::new(idx as nat, |i: int| ((3 * i + 3) as u32, 0u16)),
            decreases n - idx,
        {
            let page = &pages[idx];
            let width = page.width;
            let height = page.height;
            let ghost objs0 = document_objects(doc);

            let empty = dictionary_new();
            assert(dictionary_entries(empty) =~= Map::empty());
            let image_stream = stream_new(empty, page.rgb.clone());
            let mut image_dict = stream_dictionary(&image_stream);
            dictionary_set(&mut image_dict, "Type", object_from_name("XObject"));
            dictionary_set(&mut image_dict, "Subtype", object_from_name("Image"));
            dictionary_set(&mut image_dict, "Width", object_from_integer((width as i32) as i64));
            dictionary_set(&mut image_dict, "Height", object_from_integer((height as i32) as i64));
            dictionary_set(&mut image_dict, "ColorSpace", object_from_name("DeviceRGB"));
            dictionary_set(&mut image_dict, "BitsPerComponent", object_from_integer(8));
            let image_stream = stream_new(image_dict, page.rgb.clone());
            let image_id = document_add_object(&mut doc, object_from_stream(image_stream));

            let empty = dictionary_new();
            assert(dictionary_entries(empty) =~= Map::empty());
            let content_stream = stream_new(empty, page_content(width, height, idx));
            let content_id = document_add_object(&mut doc, object_from_stream(content_stream));

            let mut page_dict = dictionary_new();
            assert(dictionary_entries(page_dict) =~= Map::empty());
            dictionary_set(&mut page_dict, "Type", object_from_name("Page"));
            let mut media_box: Vec<Object> = Vec::new();
            media_box.push(object_from_integer(0));
            media_box.push(object_from_integer(0));
            media_box.push(object_from_integer((width as i32) as i64));
            media_box.push(object_from_integer((height as i32) as i64));
            assert(media_box@.map_values(|o: Object| object_value(o)) =~= seq![
                PdfValue::Integer(0),
                PdfValue::Integer(0),
                PdfValue::Integer((width as i32) as int),
                PdfValue::Integer((height as i32) as int),
            ]);
            dictionary_set(&mut page_dict, "MediaBox", object_from_array(media_box));
            dictionary_set(&mut page_dict, "Contents", object_from_reference(content_id));
            let mut resources = dictionary_new();
            assert(dictionary_entries(resources) =~= Map::empty());
            let mut xobjects = dictionary_new();
            assert(dictionary_entries(xobjects) =~= Map::empty());
            let name = image_name(idx);
            dictionary_set(&mut xobjects, name.as_str(), object_from_reference(image_id));
            dictionary_set(&mut resources, "XObject", object_from_dictionary(xobjects));
            dictionary_set(&mut page_dict, "Resources", object_from_dictionary(resources));
            let page_id = document_add_object(&mut doc, object_from_dictionary(page_dict));
            page_ids.push(page_id);

            proof {
                let objs = document_objects(doc);
                let i = idx as int;
                assert(first_ids(3 * (idx + 1) as int) =~= objs0.dom().insert(image_id).insert(
                    content_id,
                ).insert(page_id));
                assert(page_ids@ =~= Seq::new((idx + 1) as nat, |i: int| ((3 * i + 3) as u32, 0u16)));
                assert(objs[((3 * i + 1) as u32, 0u16)] == PdfValue::Stream(
                    image_entries(pages@[i]),
                    pages@[i].rgb@,
                ));
                assert(objs[((3 * i + 2) as u32, 0u16)] == PdfValue::Stream(
                    content_entries(pages@[i], i),
                    page_content_spec(pages@[i].width, pages@[i].height, i as usize),
                ));
                assert(objs[((3 * i + 3) as u32, 0u16)] == PdfValue::Dictionary(
                    page_entries(pages@[i], i),
                ));
                assert forall|j: int| #![trigger pages@[j]] 0 <= j < idx + 1 implies {
                    &&& objs[((3 * j + 1) as u32, 0u16)] == PdfValue::Stream(
                        image_entries(pages@[j]),
                        pages@[j].rgb@,
                    )
                    &&& objs[((3 * j + 2) as u32, 0u16)] == PdfValue::Stream(
                        content_entries(pages@[j], j),
                        page_content_spec(pages@[j].width, pages@[j].height, j as usize),
                    )
                    &&& objs[((3 * j + 3) as u32, 0u16)] == PdfValue::Dictionary(
                        page_entries(pages@[j], j),
                    )
                } by {
                    if j < idx {
                        assert(objs0[((3 * j + 1) as u32, 0u16)] == PdfValue::Stream(
                            image_entries(pages@[j]),
                            pages@[j].rgb@,
                        ));
                    }
                }
            }
            idx = idx + 1;
        }

        let mut pages_dict = dictionary_new();
        assert(dictionary_entries(pages_dict) =~= Map::empty());
        dictionary_set(&mut pages_dict, "Type", object_from_name("Pages"));
        let mut kids: Vec<Object> = Vec::new();
        let mut k: usize = 0;
        while k < n
            invariant
                n == page_ids@.len(),
                k <= n,
                page_ids@ == Seq::new(n as nat, |i: int| ((3 * i + 3) as u32, 0u16)),
                kids@.len() == k,
                kids@.map_values(|o: Object| object_value(o)) == Seq::new(
                    k as nat,
                    |i: int| PdfValue::Reference((3 * i + 3) as u32, 0),
                ),
            decreases n - k,
        {
            let ghost before = kids@;
            let id = page_ids[k];
            assert(id == ((3 * k + 3) as u32, 0u16));
            kids.push(object_from_reference(id));
            assert forall|i: int| 0 <= i < k implies #[trigger] object_value(kids@[i]) == PdfValue::Reference(
                (3 * i + 3) as u32,
                0,
            ) by {
                assert(kids@[i] == before[i]);
                assert(before.map_values(|o: Object| object_value(o))[i] == object_value(before[i]));
            }
            assert(kids@.map_values(|o: Object| object_value(o)) =~= Seq::new(
                (k + 1) as nat,
                |i: int| PdfValue::Reference((3 * i + 3) as u32, 0),
            ));
            k = k + 1;
        }
        dictionary_set(&mut pages_dict, "Kids", object_from_array(kids));
        dictionary_set(&mut pages_dict, "Count", object_from_integer((n as i32) as i64));
        let ghost objs1 = document_objects(doc);
        let pages_id = document_add_object(&mut doc, object_from_dictionary(pages_dict));

        let mut catalog_dict = dictionary_new();
        assert(dictionary_entries(catalog_dict) =~= Map::empty());
        dictionary_set(&mut catalog_dict, "Type", object_from_name("Catalog"));
        dictionary_set(&mut catalog_dict, "Pages", object_from_reference(pages_id));
        let catalog_id = document_add_object(&mut doc, object_from_dictionary(catalog_dict));
        let ghost trailer0 = document_trailer(doc);
        assert(trailer0 =~= Map::empty());
        document_set_trailer(&mut doc, "Root", object_from_reference(catalog_id));
        proof {
            let objs = document_objects(doc);
            assert(first_ids(3 * n + 2 as int) =~= objs1.dom().insert(pages_id).insert(catalog_id));
            assert forall|i: int| #![trigger pages@[i]] 0 <= i < n implies {
                &&& objs[((3 * i + 1) as u32, 0u16)] == PdfValue::Stream(
                    image_entries(pages@[i]),
                    pages@[i].rgb@,
                )
                &&& objs[((3 * i + 2) as u32, 0u16)] == PdfValue::Stream(
                    content_entries(pages@[i], i),
                    page_content_spec(pages@[i].width, pages@[i].height, i as usize),
                )
                &&& objs[((3 * i + 3) as u32, 0u16)] == PdfValue::Dictionary(
                    page_entries(pages@[i], i),
                )
            } by {
                assert(objs1[((3 * i + 1) as u32, 0u16)] == PdfValue::Stream(
                    image_entries(pages@[i]),
                    pages@[i].rgb@,
                ));
            }
        }
        doc
    }
}

} // verus!
