//! The PDF engine's state and the search hits it reports.

use pdfium_render::prelude::{PdfRect, PdfSearchDirection, PdfSearchOptions, Pdfium};
use vstd::prelude::*;

verus! {

/// A rectangle on a PDF page, in points, as pdfium reports it.
#[verifier::external_type_specification]
#[verifier::external_body]
pub struct ExPdfRect(PdfRect);

/// A bound pdfium library.
#[verifier::external_type_specification]
#[verifier::external_body]
pub struct ExPdfium(Pdfium);

/// pdfium's `load_pdf_from_byte_vec` on `data`, then the number of pages of the
/// document (`pages().len()`); pdfium's error as text when it cannot open the bytes.
/// What pdfium makes of the bytes depends on the library bound at run time, so the
/// result is left open.
#[verifier::external_body]
fn pdfium_page_count(pdfium: &Pdfium, data: &Vec<u8>) -> (r: Result<u16, String>) {
    pdfium.load_pdf_from_byte_vec(data.clone(), None).map(|doc| doc.pages().len()).map_err(
        |e| e.to_string(),
    )
}

/// The hits of `term` on page `page` of the document in `data`, as pdfium's text
/// search finds them with case and whole words ignored, stepping forward: each text
/// segment of each hit, in pdfium's order, with its bounds and its text. pdfium's
/// error as text when the document, the page or its text cannot be opened, or the
/// term is empty. What pdfium finds depends on the library bound at run time, so the
/// result is left open.
#[verifier::external_body]
fn pdfium_search_page(pdfium: &Pdfium, data: &Vec<u8>, page: u16, term: &str) -> (r: Result<
    Vec<(PdfRect, String)>,
    String,
>) {
    let doc = pdfium.load_pdf_from_byte_vec(data.clone(), None).map_err(|e| e.to_string())?;
    let page = doc.pages().get(page).map_err(|e| e.to_string())?;
    let text = page.text().map_err(|e| e.to_string())?;
    let options = PdfSearchOptions::new().match_case(false).match_whole_word(false);
    let search = text.search(term, &options).map_err(|e| e.to_string())?;
    let mut hits = Vec::new();
    for segments in search.iter(PdfSearchDirection::SearchForward) {
        for segment in segments.iter() {
            hits.push((segment.bounds(), segment.text()));
        }
    }
    Ok(hits)
}

/// `PdfRect` derives `Copy` and `Clone` in pdfium-render, so its `clone` hands back
/// the same rectangle.
pub assume_specification[ <PdfRect as Clone>::clone ](r: &PdfRect) -> (res: PdfRect)
    ensures
        res == *r,
;

/// One hit of a text search: the page it is on, its bounds and the text found.
#[derive(Debug, Clone)]
pub struct SearchResult {
    pub page_index: u16,
    pub rect: PdfRect,
    pub text: String,
}

/// A search hit as plain values: its page, its bounds and its text.
pub open spec fn result_view(r: SearchResult) -> (u16, PdfRect, Seq<char>) {
    (r.page_index, r.rect, r.text@)
}

/// The hits of one page, tagged with the page's index.
pub open spec fn tagged_hits(page: int, hits: Seq<(PdfRect, String)>) -> Seq<(u16, PdfRect, Seq<char>)> {
    hits.map_values(|h: (PdfRect, String)| (page as u16, h.0, h.1@))
}

/// The hits of pages `0..per_page.len()`, page after page, each tagged with its page.
pub open spec fn page_hits(per_page: Seq<Vec<(PdfRect, String)>>) -> Seq<(u16, PdfRect, Seq<char>)>
    decreases per_page.len(),
{
    if per_page.len() == 0 {
        seq![]
    } else {
        page_hits(per_page.drop_last()) + tagged_hits(per_page.len() - 1, per_page.last()@)
    }
}

/// The page indices of a list of hits never decrease and stay below `pages`.
pub open spec fn pages_in_order(rs: Seq<SearchResult>, pages: int) -> bool {
    &&& forall|k: int| 0 <= k < rs.len() ==> #[trigger] rs[k].page_index < pages
    &&& forall|i: int, j: int| 0 <= i <= j < rs.len() ==> rs[i].page_index <= rs[j].page_index
}

/// The search results of a document from the hits of each of its pages: the pages'
/// hits one page after another, each tagged with its page's index.
pub fn collect_results(per_page: &Vec<Vec<(PdfRect, String)>>) -> (rs: Vec<SearchResult>)
    requires
        per_page@.len() <= u16::MAX + 1,
    ensures
        rs@.map_values(|r: SearchResult| result_view(r)) == page_hits(per_page@),
        pages_in_order(rs@, per_page@.len() as int),
{
    let mut rs: Vec<SearchResult> = Vec::new();
    let n = per_page.len();
    for p in 0..n
        invariant
            n == per_page@.len(),
            n <= u16::MAX + 1,
            rs@.map_values(|r: SearchResult| result_view(r)) == page_hits(per_page@.take(p as int)),
            pages_in_order(rs@, p as int),
    {
        let hits = &per_page[p];
        let page = p as u16;
        let ghost before = rs@.map_values(|r: SearchResult| result_view(r));
        let m = hits.len();
        for k in 0..m
            invariant
                n == per_page@.len(),
                p < n,
                page == p,
                hits@ == per_page@[p as int]@,
                m == hits@.len(),
                rs@.map_values(|r: SearchResult| result_view(r)) == before + tagged_hits(
                    p as int,
                    hits@.take(k as int),
                ),
                pages_in_order(rs@, p + 1),
        {
            let ghost prev = rs@;
            let rect = hits[k].0.clone();
            let text = hits[k].1.clone();
            rs.push(SearchResult { page_index: page, rect, text });
            proof {
                assert(hits@.take(k + 1) =~= hits@.take(k as int).push(hits@[k as int]));
                assert(rs@.map_values(|r: SearchResult| result_view(r)) =~= prev.map_values(
                    |r: SearchResult| result_view(r),
                ).push(result_view(rs@[prev.len() as int])));
                assert(tagged_hits(p as int, hits@.take(k + 1)) =~= tagged_hits(
                    p as int,
                    hits@.take(k as int),
                ).push((page, hits@[k as int].0, hits@[k as int].1@)));
                assert(rs@.map_values(|r: SearchResult| result_view(r)) =~= before + tagged_hits(
                    p as int,
                    hits@.take(k + 1),
                ));
            }
        }
        proof {
            assert(hits@.take(m as int) =~= hits@);
            assert(per_page@.take(p + 1).drop_last() =~= per_page@.take(p as int));
            assert(per_page@.take(p + 1).last() == per_page@[p as int]);
        }
    }
    proof {
        assert(per_page@.take(n as int) =~= per_page@);
    }
    rs
}

/// What a search asks pdfium for: for each page `i` of `0..pages`, page `i` and the
/// term, in page order.
pub fn search_requests(pages: u16, term: &str) -> (requests: Vec<(u16, String)>)
    ensures
        requests@.len() == pages,
        forall|i: int| 0 <= i < pages ==> #[trigger] requests@[i].0 == i && requests@[i].1@ == term@,
{
    let mut requests: Vec<(u16, String)> = Vec::new();
    let mut p: u16 = 0;
    while p < pages
        invariant
            p <= pages,
            requests@.len() == p,
            forall|i: int| 0 <= i < p ==> #[trigger] requests@[i].0 == i && requests@[i].1@ == term@,
        decreases pages - p,
    {
        let ghost before = requests@;
        requests.push((p, String::from_str(term)));
        assert forall|i: int| 0 <= i < p + 1 implies #[trigger] requests@[i].0 == i
            && requests@[i].1@ == term@ by {
            if i < p {
                assert(requests@[i] == before[i]);
            }
        }
        p = p + 1;
    }
    requests
}

/// Holds the bytes of the loaded PDF and its number of pages.
pub struct PdfEngine {
    pdf_data: Vec<u8>,
    page_count: u16,
}

impl PdfEngine {
    pub closed spec fn data(&self) -> Seq<u8> {
        self.pdf_data@
    }

    pub closed spec fn pages(&self) -> u16 {
        self.page_count
    }

    /// An engine with no document: no bytes and no pages.
    pub fn new() -> (engine: Self)
        ensures
            engine.data() == Seq::<u8>::empty(),
            engine.pages() == 0,
    {
        PdfEngine { pdf_data: Vec::new(), page_count: 0 }
    }

    /// Takes the bytes of a PDF file and what pdfium made of them: the number of pages,
    /// or why it could not open them. The bytes are kept either way; the page count
    /// changes only when pdfium opened the document.
    pub fn load_bytes(&mut self, data: Vec<u8>, opened: Result<u16, String>) -> (r: Result<(), String>)
        ensures
            final(self).data() == data@,
            match opened {
                Ok(n) => r is Ok && final(self).pages() == n,
                Err(e) => r == Err::<(), String>(e) && final(self).pages() == old(self).pages(),
            },
    {
        self.pdf_data = data;
        match opened {
            Ok(n) => {
                self.page_count = n;
                Ok(())
            },
            Err(e) => Err(e),
        }
    }

    /// Loads the PDF in `data` with pdfium: keeps the bytes, and takes the number of
    /// pages pdfium finds in them; when pdfium cannot open them the page count stays
    /// as it was and pdfium's error comes back. The count pdfium reports is an answer
    /// of the library bound at run time and has no name here, so the contract does not
    /// say which count is taken; `load_bytes` states what is done with it.
    pub fn load_with(&mut self, pdfium: &Pdfium, data: Vec<u8>) -> (r: Result<(), String>)
        ensures
            final(self).data() == data@,
            r is Err ==> final(self).pages() == old(self).pages(),
    {
        let opened = pdfium_page_count(pdfium, &data);
        self.load_bytes(data, opened)
    }

    /// Searches every page of the loaded document for `term`, ignoring case and
    /// matching inside words: the hits of page 0, then of page 1, and so on, each with
    /// its page. Page `p` of `0..pages()` is searched for `term` as the `p`-th of
    /// `search_requests(pages(), term)`. An engine without bytes finds nothing;
    /// pdfium's error comes back when it cannot open the document or a page. The hits
    /// pdfium reports are answers of the library bound at run time and have no name
    /// here, so the contract does not say which hits come back; `collect_results`
    /// states how they are put together.
    pub fn search(&self, pdfium: &Pdfium, term: &str) -> (r: Result<Vec<SearchResult>, String>)
        ensures
            self.data().len() == 0 ==> r is Ok && r->Ok_0@.len() == 0,
            r matches Ok(rs) ==> pages_in_order(rs@, self.pages() as int),
            self.data().len() > 0 ==> (r matches Ok(rs) ==> exists|pp: Seq<Vec<(PdfRect, String)>>|
                pp.len() == self.pages() && rs@.map_values(|x: SearchResult| result_view(x))
                    == #[trigger] page_hits(pp)),
    {
        if self.pdf_data.len() == 0 {
            return Ok(Vec::new());
        }
        // The document has to open before its pages are searched.
        let _opened = pdfium_page_count(pdfium, &self.pdf_data)?;
        let requests = search_requests(self.page_count, term);
        let mut per_page: Vec<Vec<(PdfRect, String)>> = Vec::new();
        let n = requests.len();
        for i in 0..n
            invariant
                n == requests@.len(),
                n == self.pages(),
                per_page@.len() == i,
                self.data().len() > 0,
        {
            let request = &requests[i];
            let hits = pdfium_search_page(pdfium, &self.pdf_data, request.0, request.1.as_str())?;
            per_page.push(hits);
        }
        let rs = collect_results(&per_page);
        assert(per_page@.len() == self.pages() && rs@.map_values(|x: SearchResult| result_view(x))
            == page_hits(per_page@));
        Ok(rs)
    }

    /// The bytes of the loaded document.
    pub fn pdf_data(&self) -> (r: &Vec<u8>)
        ensures
            r@ == self.data(),
    {
        &self.pdf_data
    }

    /// A search only runs on an engine that holds some bytes.
    pub fn has_document(&self) -> (r: bool)
        ensures
            r == (self.data().len() > 0),
    {
        self.pdf_data.len() > 0
    }

    /// The number of pages of the loaded document (0 before any load).
    pub fn page_count(&self) -> (n: u16)
        ensures
            n == self.pages(),
    {
        self.page_count
    }
}

} // verus!
