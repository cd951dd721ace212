//! The XML lexer of `quick_xml`, as the parser uses it: a reader over the
//! text that hands out tags, text and the end, and accessors that turn
//! tag names, attributes and text into plain strings.  Everything here is
//! trusted; what each item claims is in its doc comment.

use vstd::prelude::*;
use vstd::string::StringSliceAdditionalSpecFns;

use quick_xml::events::attributes::{AttrError, Attribute, Attributes};
use quick_xml::events::{BytesEnd, BytesStart, BytesText, Event};
use quick_xml::reader::Reader;

verus! {

#[verifier::external_type_specification]
#[verifier::external_body]
#[verifier::reject_recursive_types(R)]
pub struct ExReader<R>(Reader<R>);

#[verifier::external_type_specification]
#[verifier::external_body]
pub struct ExBytesStart<'a>(BytesStart<'a>);

#[verifier::external_type_specification]
#[verifier::external_body]
pub struct ExBytesEnd<'a>(BytesEnd<'a>);

#[verifier::external_type_specification]
#[verifier::external_body]
pub struct ExBytesText<'a>(BytesText<'a>);

#[verifier::external_type_specification]
#[verifier::external_body]
pub struct ExAttributes<'a>(Attributes<'a>);

#[verifier::external_type_specification]
#[verifier::external_body]
pub struct ExAttribute<'a>(Attribute<'a>);

#[verifier::external_type_specification]
#[verifier::external_body]
pub struct ExAttrError(AttrError);

#[verifier::external_type_specification]
#[verifier::external_body]
pub struct ExXmlError(quick_xml::Error);

/// The input that a reader has not consumed yet.
pub uninterp spec fn reader_rest(r: Reader<&[u8]>) -> Seq<u8>;

/// One event of the reader, with the variants that the parser tells apart.
pub enum RawEvent<'a> {
    Start(BytesStart<'a>),
    Empty(BytesStart<'a>),
    End(BytesEnd<'a>),
    Text(BytesText<'a>),
    Eof,
    Other,
}

/// The reader that [`xml_reader`] makes for a text; it depends on the text
/// alone.
pub uninterp spec fn fresh_reader(text: Seq<char>) -> Reader<&'static [u8]>;

/// `Reader::from_str`, configured as the parser needs: closing tags are
/// not checked against opening ones (`check_end_names = false`) and text
/// is not trimmed.  The result is named [`fresh_reader`].  The reader
/// starts with the whole text unread (the bytes of a `&str`, whose length,
/// as for any slice, is at most `isize::MAX`).
#[verifier::external_body]
pub(crate) fn xml_reader<'a>(text: &'a str) -> (r: Reader<&'a [u8]>)
    ensures
        r == fresh_reader(text@),
        reader_rest(r) == text.spec_bytes(),
        reader_rest(r).len() <= isize::MAX,
{
    let mut reader = Reader::from_str(text);
    reader.config_mut().check_end_names = false;
    reader.config_mut().trim_text(false);
    reader
}

/// What `Reader::read_event` gives on a reader (the event, sorted into the
/// variants of [`RawEvent`]), and the reader after it; both depend on the
/// reader alone.
pub uninterp spec fn read_next(r: Reader<&[u8]>) -> (Result<RawEvent, quick_xml::Error>, Reader<&[u8]>);

/// `Reader::read_event`, whose event and next state are named
/// [`read_next`].  Every event but the end consumes input: markup up to
/// its `>`, text up to the next `<` (text is never empty), so the unread
/// input gets shorter.
#[verifier::external_body]
pub(crate) fn xml_read_event<'a>(reader: &mut Reader<&'a [u8]>) -> (r: Result<RawEvent<'a>, quick_xml::Error>)
    ensures
        r == read_next(*old(reader)).0,
        *final(reader) == read_next(*old(reader)).1,
        r matches Ok(e) && !(e is Eof) ==> reader_rest(*final(reader)).len() < reader_rest(
            *old(reader),
        ).len(),
{
    match reader.read_event() {
        Ok(Event::Start(e)) => Ok(RawEvent::Start(e)),
        Ok(Event::Empty(e)) => Ok(RawEvent::Empty(e)),
        Ok(Event::End(e)) => Ok(RawEvent::End(e)),
        Ok(Event::Text(t)) => Ok(RawEvent::Text(t)),
        Ok(Event::Eof) => Ok(RawEvent::Eof),
        Ok(_) => Ok(RawEvent::Other),
        Err(e) => Err(e),
    }
}

/// The name of a start (or empty) tag, as text.
pub uninterp spec fn start_tag_name(e: BytesStart) -> Seq<char>;

/// `BytesStart::name` of a start (or empty) tag, as text (invalid UTF-8
/// replaced, as `String::from_utf8_lossy` does); named [`start_tag_name`].
#[verifier::external_body]
pub(crate) fn start_name(e: &BytesStart) -> (r: String)
    ensures
        r@ == start_tag_name(*e),
{
    String::from_utf8_lossy(e.name().as_ref()).to_string()
}

/// The name of an end tag, as text.
pub uninterp spec fn end_tag_name(e: BytesEnd) -> Seq<char>;

/// `BytesEnd::name` of an end tag, as text; named [`end_tag_name`].
#[verifier::external_body]
pub(crate) fn end_name(e: &BytesEnd) -> (r: String)
    ensures
        r@ == end_tag_name(*e),
{
    String::from_utf8_lossy(e.name().as_ref()).to_string()
}

/// The attribute iterator of a tag.
pub uninterp spec fn tag_attributes(e: BytesStart) -> Attributes;

/// `BytesStart::attributes`: the iterator over the attributes of a tag,
/// named [`tag_attributes`].
#[verifier::external_body]
pub(crate) fn start_attributes<'b>(e: &'b BytesStart) -> (r: Attributes<'b>)
    ensures
        r == tag_attributes(*e),
{
    e.attributes()
}

/// The part of a tag's attribute text that an attribute iterator has not
/// read yet.
pub uninterp spec fn attributes_rest(it: Attributes) -> Seq<u8>;

/// What `Iterator::next` gives on an attribute iterator, and the iterator
/// after it; both depend on the iterator alone.
pub uninterp spec fn attribute_next(it: Attributes) -> (Option<Result<Attribute, AttrError>>, Attributes);

/// `Iterator::next` of the attributes, named [`attribute_next`].  Each
/// attribute read moves the iterator past the attribute's value, so the
/// unread part gets shorter.
#[verifier::external_body]
pub(crate) fn next_attribute<'b>(it: &mut Attributes<'b>) -> (r: Option<Result<Attribute<'b>, AttrError>>)
    ensures
        r == attribute_next(*old(it)).0,
        *final(it) == attribute_next(*old(it)).1,
        r matches Some(Ok(_)) ==> attributes_rest(*final(it)).len() < attributes_rest(
            *old(it),
        ).len(),
{
    it.next()
}

/// The key of an attribute, as text.
pub uninterp spec fn attribute_key_text(a: Attribute) -> Seq<char>;

/// The key of an attribute, as text (invalid UTF-8 replaced); named
/// [`attribute_key_text`].
#[verifier::external_body]
pub(crate) fn attribute_key(a: &Attribute) -> (r: String)
    ensures
        r@ == attribute_key_text(*a),
{
    String::from_utf8_lossy(a.key.as_ref()).to_string()
}

/// The value of an attribute with its entities decoded, `None` where
/// decoding fails.
pub uninterp spec fn attribute_value_text(a: Attribute) -> Option<Seq<char>>;

/// `Attribute::unescape_value`: the value with XML entities decoded, or
/// the error for an unknown entity; named [`attribute_value_text`].
#[verifier::external_body]
pub(crate) fn attribute_value(a: &Attribute) -> (r: Result<String, quick_xml::Error>)
    ensures
        match attribute_value_text(*a) {
            Some(v) => r matches Ok(s) && s@ == v,
            None => r is Err,
        },
{
    match a.unescape_value() {
        Ok(v) => Ok(v.into_owned()),
        Err(e) => Err(e),
    }
}

/// The text of a text event with its entities decoded, `None` where
/// decoding fails.
pub uninterp spec fn text_value(t: BytesText) -> Option<Seq<char>>;

/// `BytesText::unescape`: the text with XML entities decoded, or the
/// error for an unknown entity; named [`text_value`].
#[verifier::external_body]
pub(crate) fn text_unescape(t: &BytesText) -> (r: Result<String, quick_xml::Error>)
    ensures
        match text_value(*t) {
            Some(v) => r matches Ok(s) && s@ == v,
            None => r is Err,
        },
{
    match t.unescape() {
        Ok(v) => Ok(v.into_owned()),
        Err(e) => Err(e),
    }
}

/// The `Display` text of a reader error; which text is not stated.
#[verifier::external_body]
pub(crate) fn xml_error_text(e: &quick_xml::Error) -> String {
    format!("{}", e)
}

/// The `Display` text of an attribute error; which text is not stated.
#[verifier::external_body]
pub(crate) fn attr_error_text(e: &AttrError) -> String {
    format!("{}", e)
}

} // verus!
