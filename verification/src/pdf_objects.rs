//! The objects of a PDF file as the `lopdf` crate builds them.
//!
//! Every object is modelled by a `PdfValue`; a dictionary by its entries; a document
//! by the objects it holds (by identifier), the entries of its trailer and the
//! largest object number handed out so far.

use lopdf::{Dictionary, Document, Object, ObjectId, Stream};
use vstd::prelude::*;
use vstd::string::*;

verus! {

/// A PDF document of `lopdf`.
#[verifier::external_type_specification]
#[verifier::external_body]
pub struct ExDocument(Document);

/// A PDF dictionary of `lopdf`.
#[verifier::external_type_specification]
#[verifier::external_body]
pub struct ExDictionary(Dictionary);

/// A PDF stream of `lopdf`.
#[verifier::external_type_specification]
#[verifier::external_body]
pub struct ExStream(Stream);

/// A PDF object of `lopdf`.
#[verifier::external_type_specification]
#[verifier::external_body]
pub struct ExObject(Object);

/// A PDF object, as far as this crate writes them.
pub enum PdfValue {
    Name(Seq<u8>),
    Integer(int),
    Reference(u32, u16),
    Array(Seq<PdfValue>),
    Dictionary(Map<Seq<u8>, PdfValue>),
    /// A stream: its dictionary's entries and its bytes.
    Stream(Map<Seq<u8>, PdfValue>, Seq<u8>),
}

/// The dictionary entries of a stream value (none for other values).
pub open spec fn stream_dictionary_entries(v: PdfValue) -> Map<Seq<u8>, PdfValue> {
    match v {
        PdfValue::Stream(entries, _) => entries,
        _ => Map::empty(),
    }
}

/// What an object is.
pub uninterp spec fn object_value(object: Object) -> PdfValue;

/// The entries of a dictionary, by key.
pub uninterp spec fn dictionary_entries(dict: Dictionary) -> Map<Seq<u8>, PdfValue>;

/// What a stream is: `PdfValue::Stream` of its dictionary's entries and its bytes.
pub uninterp spec fn stream_value(stream: Stream) -> PdfValue;

/// The objects a document holds, by identifier (`Document::objects`).
pub uninterp spec fn document_objects(doc: Document) -> Map<(u32, u16), PdfValue>;

/// The entries of a document's trailer (`Document::trailer`).
pub uninterp spec fn document_trailer(doc: Document) -> Map<Seq<u8>, PdfValue>;

/// The largest object number a document has handed out (`Document::max_id`).
pub uninterp spec fn document_max_id(doc: Document) -> u32;

/// `Document::new`: no object, an empty trailer, and a `max_id` of 0.
#[verifier::external_body]
pub fn document_new() -> (doc: Document)
    ensures
        document_objects(doc).dom() == Set::<(u32, u16)>::empty(),
        document_trailer(doc).dom() == Set::<Seq<u8>>::empty(),
        document_max_id(doc) == 0,
{
    Document::new()
}

/// `Document::add_object`: `max_id` goes up by one and the object is stored under
/// `(max_id, 0)`, which is returned. The increment would overflow at `u32::MAX`,
/// which the precondition rules out.
#[verifier::external_body]
pub fn document_add_object(doc: &mut Document, object: Object) -> (id: ObjectId)
    requires
        document_max_id(*old(doc)) < u32::MAX,
    ensures
        id == ((document_max_id(*old(doc)) + 1) as u32, 0u16),
        document_max_id(*final(doc)) == document_max_id(*old(doc)) + 1,
        document_objects(*final(doc)) == document_objects(*old(doc)).insert(id, object_value(object)),
        document_trailer(*final(doc)) == document_trailer(*old(doc)),
{
    doc.add_object(object)
}

/// `Dictionary::set` on the document's trailer: the entry `key` (the bytes of `key`)
/// becomes `value`, replacing an earlier value; the objects are not touched.
#[verifier::external_body]
pub fn document_set_trailer(doc: &mut Document, key: &str, value: Object)
    ensures
        document_objects(*final(doc)) == document_objects(*old(doc)),
        document_max_id(*final(doc)) == document_max_id(*old(doc)),
        document_trailer(*final(doc)) == document_trailer(*old(doc)).insert(
            key.spec_bytes(),
            object_value(value),
        ),
{
    doc.trailer.set(key, value);
}

/// `Dictionary::new`: a dictionary without entries.
#[verifier::external_body]
pub fn dictionary_new() -> (dict: Dictionary)
    ensures
        dictionary_entries(dict).dom() == Set::<Seq<u8>>::empty(),
{
    Dictionary::new()
}

/// `Dictionary::set`: the entry `key` (the bytes of `key`) becomes `value`, replacing
/// an earlier value.
#[verifier::external_body]
pub fn dictionary_set(dict: &mut Dictionary, key: &str, value: Object)
    ensures
        dictionary_entries(*final(dict)) == dictionary_entries(*old(dict)).insert(
            key.spec_bytes(),
            object_value(value),
        ),
{
    dict.set(key, value);
}

/// `Object::from(&str)`: `Object::Name` of the bytes of `name`.
#[verifier::external_body]
pub fn object_from_name(name: &str) -> (object: Object)
    ensures
        object_value(object) == PdfValue::Name(name.spec_bytes()),
{
    Object::from(name)
}

/// `Object::from(i64)`: `Object::Integer`.
#[verifier::external_body]
pub fn object_from_integer(value: i64) -> (object: Object)
    ensures
        object_value(object) == PdfValue::Integer(value as int),
{
    Object::from(value)
}

/// `Object::from(ObjectId)`: `Object::Reference`.
#[verifier::external_body]
pub fn object_from_reference(id: ObjectId) -> (object: Object)
    ensures
        object_value(object) == PdfValue::Reference(id.0, id.1),
{
    Object::from(id)
}

/// `Object::from(Vec<Object>)`: `Object::Array` of the objects, in order.
#[verifier::external_body]
pub fn object_from_array(items: Vec<Object>) -> (object: Object)
    ensures
        object_value(object) == PdfValue::Array(items@.map_values(|o: Object| object_value(o))),
{
    Object::from(items)
}

/// `Object::from(Dictionary)`: `Object::Dictionary`.
#[verifier::external_body]
pub fn object_from_dictionary(dict: Dictionary) -> (object: Object)
    ensures
        object_value(object) == PdfValue::Dictionary(dictionary_entries(dict)),
{
    Object::from(dict)
}

/// `Object::from(Stream)`: `Object::Stream`.
#[verifier::external_body]
pub fn object_from_stream(stream: Stream) -> (object: Object)
    ensures
        object_value(object) == stream_value(stream),
{
    Object::from(stream)
}

/// `Stream::new`: a stream of `content` whose dictionary is `dict` with its `Length`
/// entry set to the length of `content`.
#[verifier::external_body]
pub fn stream_new(dict: Dictionary, content: Vec<u8>) -> (stream: Stream)
    ensures
        stream_value(stream) == PdfValue::Stream(
            dictionary_entries(dict).insert(
                "Length".spec_bytes(),
                PdfValue::Integer(content@.len() as int),
            ),
            content@,
        ),
{
    Stream::new(dict, content)
}

/// A copy of a stream's dictionary (`stream.dict.clone()`).
#[verifier::external_body]
pub fn stream_dictionary(stream: &Stream) -> (dict: Dictionary)
    ensures
        dictionary_entries(dict) == stream_dictionary_entries(stream_value(*stream)),
{
    stream.dict.clone()
}

} // verus!
