//! Content types of a served page, and the choice among them that an
//! `Accept` header makes.

use crate::text::contains_text;
use crate::text::lossy_text;
use crate::text::occurs_in;
use crate::text::texts_of;
use crate::text::utf8_lossy;
use std::sync::Arc;
use vstd::prelude::*;
use vstd::slice::slice_to_vec;

verus! {

/// An IPv4 address, one octet after the other.
pub type VlmHost = [u8; 4];

/// A TCP port.
pub type VlmPort = u16;

/// A content type that a page can be served as.
pub trait VlmContentType: Send + Sync {
    /// The bytes that `content_type_header` returns.
    open spec fn header_bytes(&self) -> Seq<u8> {
        arbitrary()
    }

    /// The bytes that `charset` returns.
    open spec fn charset_bytes(&self) -> Seq<u8> {
        arbitrary()
    }

    /// The media type, as it is written in a `Content-Type` header.
    fn content_type_header(&self) -> (bytes: &[u8])
        ensures
            bytes@ == self.header_bytes(),
    ;

    /// The character set, as it is written in a `Content-Type` header.
    fn charset(&self) -> (bytes: &[u8])
        ensures
            bytes@ == self.charset_bytes(),
    ;
}

/// Embedded JavaScript templates.
pub struct EJS {
    pub(crate) content_type: Vec<u8>,
    pub(crate) charset: Vec<u8>,
}

/// HTML pages.
pub struct HTML {
    pub(crate) content_type: Vec<u8>,
    pub(crate) charset: Vec<u8>,
}

/// XML documents.
pub struct XML {
    pub(crate) content_type: Vec<u8>,
    pub(crate) charset: Vec<u8>,
}

impl XML {
    /// An XML content type with the given media type and character set.
    pub fn new(content_type: &[u8], charset: &[u8]) -> (xml: Self)
        ensures
            xml.header_bytes() == content_type@,
            xml.charset_bytes() == charset@,
    {
        Self { content_type: slice_to_vec(content_type), charset: slice_to_vec(charset) }
    }
}

impl VlmContentType for XML {
    closed spec fn header_bytes(&self) -> Seq<u8> {
        self.content_type@
    }

    closed spec fn charset_bytes(&self) -> Seq<u8> {
        self.charset@
    }

    fn content_type_header(&self) -> (bytes: &[u8]) {
        self.content_type.as_slice()
    }

    fn charset(&self) -> (bytes: &[u8]) {
        self.charset.as_slice()
    }
}

impl HTML {
    /// An HTML content type with the given media type and character set.
    pub fn new(content_type: &[u8], charset: &[u8]) -> (html: Self)
        ensures
            html.header_bytes() == content_type@,
            html.charset_bytes() == charset@,
    {
        Self { content_type: slice_to_vec(content_type), charset: slice_to_vec(charset) }
    }
}

impl VlmContentType for HTML {
    closed spec fn header_bytes(&self) -> Seq<u8> {
        self.content_type@
    }

    closed spec fn charset_bytes(&self) -> Seq<u8> {
        self.charset@
    }

    fn content_type_header(&self) -> (bytes: &[u8]) {
        self.content_type.as_slice()
    }

    fn charset(&self) -> (bytes: &[u8]) {
        self.charset.as_slice()
    }
}

impl EJS {
    /// An EJS content type with the given media type and character set.
    pub fn new(content_type: &[u8], charset: &[u8]) -> (ejs: Self)
        ensures
            ejs.header_bytes() == content_type@,
            ejs.charset_bytes() == charset@,
    {
        Self { content_type: slice_to_vec(content_type), charset: slice_to_vec(charset) }
    }
}

impl VlmContentType for EJS {
    closed spec fn header_bytes(&self) -> Seq<u8> {
        self.content_type@
    }

    closed spec fn charset_bytes(&self) -> Seq<u8> {
        self.charset@
    }

    fn content_type_header(&self) -> (bytes: &[u8]) {
        self.content_type.as_slice()
    }

    fn charset(&self) -> (bytes: &[u8]) {
        self.charset.as_slice()
    }
}

/// Whether a content type with the media type `media` answers the
/// `Accept` header: there is a header, and its whole value occurs in the
/// media type.
pub open spec fn answers(media: Seq<char>, accept: Option<Seq<char>>) -> bool {
    accept matches Some(wanted) && occurs_in(wanted, media)
}

/// The value of an `Accept` header as text.
pub open spec fn header_text(accept: Option<&str>) -> Option<Seq<char>> {
    match accept {
        Some(wanted) => Some(wanted@),
        None => None,
    }
}

/// `index` is the place of the first media type that answers the header,
/// or 0 where none does.
pub open spec fn is_choice(media: Seq<Seq<char>>, accept: Option<Seq<char>>, index: int) -> bool {
    &&& 0 <= index < media.len()
    &&& forall|j: int| 0 <= j < index ==> !answers(#[trigger] media[j], accept)
    &&& answers(media[index], accept) || (index == 0 && forall|j: int|
        0 <= j < media.len() ==> !answers(#[trigger] media[j], accept))
}

/// The media types of `types`, decoded as text.
pub open spec fn media_of(types: Seq<Arc<dyn VlmContentType>>) -> Seq<Seq<char>> {
    Seq::new(types.len(), |i: int| utf8_lossy(types[i].header_bytes()))
}

/// The value of a `Content-Type` header.
pub open spec fn header_value(media: Seq<char>, charset: Seq<char>) -> Seq<char> {
    media + "; charset="@ + charset
}

/// Picks among media types, given as text: the first that answers the
/// `Accept` header, and the first of all where none answers or no header
/// came.
pub fn first_match(media: &Vec<String>, accept: Option<&str>) -> (index: usize)
    requires
        media.len() > 0,
    ensures
        is_choice(texts_of(media@), header_text(accept), index as int),
{
    match accept {
        None => 0,
        Some(wanted) => {
            let mut i: usize = 0;
            while i < media.len()
                invariant
                    i <= media.len(),
                    header_text(accept) == Some(wanted@),
                    forall|j: int|
                        0 <= j < i ==> !answers(#[trigger] texts_of(media@)[j], header_text(accept)),
                decreases media.len() - i,
            {
                if contains_text(media[i].as_str(), wanted) {
                    return i;
                }
                i += 1;
            }
            0
        },
    }
}

/// Writes the value of a `Content-Type` header.
pub fn content_type_value(media: &str, charset: &str) -> (value: String)
    ensures
        value@ == header_value(media@, charset@),
{
    let mut value = String::from_str(media);
    value.append("; charset=");
    value.append(charset);
    value
}

/// Picks the content type to serve: the first whose media type answers the
/// `Accept` header, and the first of all where none answers or no header
/// came.
pub fn choose_content_type(types: &Vec<Arc<dyn VlmContentType>>, accept: Option<&str>) -> (index:
    usize)
    requires
        types.len() > 0,
    ensures
        is_choice(media_of(types@), header_text(accept), index as int),
{
    let mut media: Vec<String> = Vec::new();
    let mut i: usize = 0;
    while i < types.len()
        invariant
            i <= types.len(),
            media.len() == i,
            forall|j: int| 0 <= j < i ==> #[trigger] media[j]@ == utf8_lossy(types[j].header_bytes()),
        decreases types.len() - i,
    {
        media.push(lossy_text(types[i].content_type_header()));
        i += 1;
    }
    assert(texts_of(media@) =~= media_of(types@));
    first_match(&media, accept)
}

/// The value of the `Content-Type` header that answers a request: media
/// type and character set of the chosen content type.
pub fn negotiate(types: &Vec<Arc<dyn VlmContentType>>, accept: Option<&str>) -> (value: String)
    requires
        types.len() > 0,
    ensures
        exists|index: int|
            {
                &&& #[trigger] is_choice(media_of(types@), header_text(accept), index)
                &&& value@ == header_value(
                    utf8_lossy(types[index].header_bytes()),
                    utf8_lossy(types[index].charset_bytes()),
                )
            },
{
    let index = choose_content_type(types, accept);
    let chosen = &types[index];
    let media = lossy_text(chosen.content_type_header());
    let charset = lossy_text(chosen.charset());
    content_type_value(media.as_str(), charset.as_str())
}

} // verus!
