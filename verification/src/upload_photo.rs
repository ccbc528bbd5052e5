//! The answer to an upload.

use crate::canonical::ParamText;
use crate::form::{occurrences, required_value, value_of};
use crate::oauth::{build_request, signed_at, token_text, ApiKey, RequestTarget, Token};
use crate::text::same_text;
use crate::text::{parse_u32, parsed_u32};
use crate::{FlickrError, URL_UPLOAD};
use vstd::prelude::*;
use vstd::string::StringExecFns;
use xml::reader::XmlEvent;
use xml::{EventReader, ParserConfig};

verus! {

/// The name under which a photo is sent where the caller gave none.
pub const DEFAULT_FILE_NAME: &'static str = "unknown";

/// The name under which a photo is sent: the caller's, or the default. The
/// provider refuses an upload without a name.
pub fn upload_file_name(filename: Option<String>) -> (name: String)
    ensures
        name@ == match filename {
            Some(given) => given@,
            None => DEFAULT_FILE_NAME@,
        },
{
    match filename {
        Some(given) => given,
        None => String::from_str(DEFAULT_FILE_NAME),
    }
}

/// The signed text fields of an upload: the protocol's parameters and the
/// signature. The photo itself travels beside them and is not signed.
pub fn upload_parameters(api: &ApiKey, oauth: Option<&Token>) -> (params: Vec<
    (&'static str, String),
>)
    ensures
        exists|seconds: u64, high: u64, low: u64|
            params.deep_view() == #[trigger] signed_at(
                "POST"@,
                URL_UPLOAD@,
                Seq::<ParamText>::empty(),
                api@,
                token_text(oauth),
                seconds,
                high,
                low,
            ),
{
    let mut params: Vec<(&'static str, String)> = Vec::new();
    proof {
        assert(params.deep_view() =~= Seq::<ParamText>::empty());
    }
    build_request(RequestTarget::Post(URL_UPLOAD), &mut params, api, oauth);
    params
}

/// What an upload answer carries: the new photo's id, or an error.
#[derive(Debug, PartialEq)]
pub enum UploadXMLPayload {
    PhotoId { value: String },
    Failure { code: String, msg: String },
}

/// The answer to an upload.
#[derive(Debug, PartialEq)]
pub struct UploadXMLAnswer {
    pub stat: String,
    pub content: UploadXMLPayload,
}

/// The number of an error code: what the text writes, or 0 where it writes
/// no 32-bit number.
pub open spec fn error_code(code: Seq<char>) -> u32 {
    match parsed_u32(vstd::utf8::encode_utf8(code)) {
        Some(n) => n,
        None => 0,
    }
}

impl UploadXMLAnswer {
    /// The id of the uploaded photo, or the provider's error with the
    /// answer's status, the code as a number and the message.
    pub fn to_result(self) -> (r: Result<String, FlickrError>)
        ensures
            match self.content {
                UploadXMLPayload::PhotoId { value } => r == Ok::<String, FlickrError>(value),
                UploadXMLPayload::Failure { code, msg } => r == Err::<String, FlickrError>(
                    FlickrError { stat: self.stat, code: error_code(code@), message: msg },
                ),
            },
    {
        match self.content {
            UploadXMLPayload::PhotoId { value } => Ok(value),
            UploadXMLPayload::Failure { code, msg } => {
                let number = match parse_u32(code.as_str()) {
                    Some(n) => n,
                    None => 0,
                };
                Err(FlickrError { stat: self.stat, code: number, message: msg })
            },
        }
    }
}

/// One part of an XML document, in the order of the document.
#[derive(Debug)]
pub enum XmlPart {
    /// The start of an element: its local name and its attributes.
    Open { name: String, attributes: Vec<(String, String)> },
    /// The end of an element.
    Close { name: String },
    /// Character data, entities resolved, surrounding whitespace removed.
    Text(String),
    /// Anything else: the document's start and end, a processing instruction.
    Other,
}

/// A part of a document as text.
pub enum XmlPartText {
    Open { name: Seq<char>, attributes: Seq<ParamText> },
    Close { name: Seq<char> },
    Text(Seq<char>),
    Other,
}

impl DeepView for XmlPart {
    type V = XmlPartText;

    open spec fn deep_view(&self) -> XmlPartText {
        match self {
            XmlPart::Open { name, attributes } => XmlPartText::Open {
                name: name@,
                attributes: attributes.deep_view(),
            },
            XmlPart::Close { name } => XmlPartText::Close { name: name@ },
            XmlPart::Text(text) => XmlPartText::Text(text@),
            XmlPart::Other => XmlPartText::Other,
        }
    }
}

/// An upload answer as text.
pub struct UploadAnswerText {
    pub stat: Seq<char>,
    pub content: UploadPayloadText,
}

/// The content of an upload answer as text.
pub enum UploadPayloadText {
    PhotoId { value: Seq<char> },
    Failure { code: Seq<char>, msg: Seq<char> },
}

impl View for UploadXMLAnswer {
    type V = UploadAnswerText;

    open spec fn view(&self) -> UploadAnswerText {
        UploadAnswerText {
            stat: self.stat@,
            content: match self.content {
                UploadXMLPayload::PhotoId { value } => UploadPayloadText::PhotoId {
                    value: value@,
                },
                UploadXMLPayload::Failure { code, msg } => UploadPayloadText::Failure {
                    code: code@,
                    msg: msg@,
                },
            },
        }
    }
}

/// The parts of an XML document; nothing where the text is no well-formed
/// document.
pub uninterp spec fn xml_parts(text: Seq<char>) -> Option<Seq<XmlPartText>>;

/// `EventReader::new_with_config` of the xml-rs crate and the events that
/// its iterator yields, with whitespace trimmed, character data of all kinds
/// given as text and comments left out: the parts of the document, named
/// `xml_parts`, or nothing where the reader reports an error. Of an element
/// and of an attribute the local name is taken.
#[verifier::external_body]
fn xml_read(text: &str) -> (parts: Option<Vec<XmlPart>>)
    ensures
        match parts {
            Some(found) => xml_parts(text@) == Some(found.deep_view()),
            None => xml_parts(text@) is None,
        },
{
    let config = ParserConfig::new().trim_whitespace(true).whitespace_to_characters(true)
        .cdata_to_characters(true).ignore_comments(true).coalesce_characters(true);
    let mut parts = Vec::new();
    for event in EventReader::new_with_config(text.as_bytes(), config) {
        parts.push(match event.ok()? {
            XmlEvent::StartElement { name, attributes, .. } => XmlPart::Open {
                name: name.local_name,
                attributes: attributes.into_iter().map(|a| (a.name.local_name, a.value)).collect(),
            },
            XmlEvent::EndElement { name } => XmlPart::Close { name: name.local_name },
            XmlEvent::Characters(text) => XmlPart::Text(text),
            _ => XmlPart::Other,
        });
    }
    Some(parts)
}

/// The parts that count: all but `Other`, in their order.
pub open spec fn significant(parts: Seq<XmlPartText>) -> Seq<XmlPartText>
    decreases parts.len(),
{
    if parts.len() == 0 {
        Seq::empty()
    } else if parts.last() is Other {
        significant(parts.drop_last())
    } else {
        significant(parts.drop_last()).push(parts.last())
    }
}

/// Whether a part starts an element of the given name.
pub open spec fn opens(part: XmlPartText, name: Seq<char>) -> bool {
    part matches XmlPartText::Open { name: found, .. } && found == name
}

/// Whether a part ends an element of the given name.
pub open spec fn closes(part: XmlPartText, name: Seq<char>) -> bool {
    part matches XmlPartText::Close { name: found } && found == name
}

/// The content of an upload answer, given what stands between the start and
/// the end of its `rsp` element: a `photoid` element with the id as its text
/// (or empty), or an `err` element with a code and a message.
pub open spec fn upload_payload_in(inner: Seq<XmlPartText>) -> Option<UploadPayloadText> {
    if inner.len() == 2 && opens(inner[0], "photoid"@) && closes(inner[1], "photoid"@) {
        Some(UploadPayloadText::PhotoId { value: Seq::empty() })
    } else if inner.len() == 3 && opens(inner[0], "photoid"@) && inner[1] is Text && closes(
        inner[2],
        "photoid"@,
    ) {
        Some(UploadPayloadText::PhotoId { value: inner[1]->Text_0 })
    } else if inner.len() == 2 && opens(inner[0], "err"@) && closes(inner[1], "err"@)
        && occurrences(inner[0]->Open_attributes, "code"@) == 1 && occurrences(
        inner[0]->Open_attributes,
        "msg"@,
    ) == 1 {
        Some(
            UploadPayloadText::Failure {
                code: value_of(inner[0]->Open_attributes, "code"@),
                msg: value_of(inner[0]->Open_attributes, "msg"@),
            },
        )
    } else {
        None
    }
}

/// The upload answer that the parts of a document hold: an `rsp` element
/// with one `stat` attribute, around the content. Parts that do not count
/// are passed over; any other document holds no answer.
pub open spec fn upload_answer_in(parts: Seq<XmlPartText>) -> Option<UploadAnswerText> {
    let s = significant(parts);
    if s.len() >= 2 && opens(s[0], "rsp"@) && closes(s.last(), "rsp"@) && occurrences(
        s[0]->Open_attributes,
        "stat"@,
    ) == 1 {
        match upload_payload_in(s.subrange(1, s.len() - 1)) {
            Some(content) => Some(
                UploadAnswerText { stat: value_of(s[0]->Open_attributes, "stat"@), content },
            ),
            None => None,
        }
    } else {
        None
    }
}

fn is_open(part: &XmlPart, name: &str) -> (r: bool)
    ensures
        r == opens(part.deep_view(), name@),
{
    match part {
        XmlPart::Open { name: found, .. } => same_text(found.as_str(), name),
        _ => false,
    }
}

fn is_close(part: &XmlPart, name: &str) -> (r: bool)
    ensures
        r == closes(part.deep_view(), name@),
{
    match part {
        XmlPart::Close { name: found } => same_text(found.as_str(), name),
        _ => false,
    }
}

fn attribute(part: &XmlPart, name: &str) -> (r: Option<String>)
    ensures
        match r {
            Some(value) => part.deep_view() is Open && occurrences(
                part.deep_view()->Open_attributes,
                name@,
            ) == 1 && value@ == value_of(part.deep_view()->Open_attributes, name@),
            None => !(part.deep_view() is Open) || occurrences(
                part.deep_view()->Open_attributes,
                name@,
            ) != 1,
        },
{
    match part {
        XmlPart::Open { attributes, .. } => required_value(attributes, name),
        _ => None,
    }
}

/// The places of the parts that count.
fn significant_places(parts: &Vec<XmlPart>) -> (places: Vec<usize>)
    ensures
        places@.len() == significant(parts.deep_view()).len(),
        forall|k: int|
            0 <= k < places@.len() ==> 0 <= #[trigger] places@[k] < parts.len()
                && parts.deep_view()[places@[k] as int] == significant(parts.deep_view())[k],
{
    let ghost texts = parts.deep_view();
    let mut places: Vec<usize> = Vec::new();
    let mut i: usize = 0;
    proof {
        assert(texts.take(0) =~= Seq::<XmlPartText>::empty());
    }
    while i < parts.len()
        invariant
            i <= parts.len(),
            texts == parts.deep_view(),
            places@.len() == significant(texts.take(i as int)).len(),
            forall|k: int|
                0 <= k < places@.len() ==> 0 <= #[trigger] places@[k] < i && texts[places@[k] as int]
                    == significant(texts.take(i as int))[k],
        decreases parts.len() - i,
    {
        proof {
            assert(texts.take(i + 1).drop_last() =~= texts.take(i as int));
            assert(texts.take(i + 1).last() == texts[i as int]);
            assert(texts[i as int] == parts@[i as int].deep_view());
        }
        match &parts[i] {
            XmlPart::Other => {},
            _ => {
                places.push(i);
            },
        }
        i += 1;
    }
    proof {
        assert(texts.take(parts.len() as int) =~= texts);
    }
    places
}

impl UploadXMLAnswer {
    /// The upload answer that the parts of a document hold.
    pub fn from_parts(parts: &Vec<XmlPart>) -> (r: Option<UploadXMLAnswer>)
        ensures
            match r {
                Some(answer) => upload_answer_in(parts.deep_view()) == Some(answer@),
                None => upload_answer_in(parts.deep_view()) is None,
            },
    {
        let places = significant_places(parts);
        let ghost s = significant(parts.deep_view());
        let n = places.len();
        if n < 2 {
            return None;
        }
        let first = &parts[places[0]];
        let last = &parts[places[n - 1]];
        if !is_open(first, "rsp") || !is_close(last, "rsp") {
            return None;
        }
        let stat = match attribute(first, "stat") {
            Some(stat) => stat,
            None => {
                return None;
            },
        };
        let ghost inner = s.subrange(1, s.len() - 1);
        if n == 4 {
            let open = &parts[places[1]];
            let close = &parts[places[2]];
            proof {
                assert(inner.len() == 2);
                assert(inner[0] == s[1] && inner[1] == s[2]);
            }
            if is_open(open, "photoid") && is_close(close, "photoid") {
                return Some(
                    UploadXMLAnswer {
                        stat,
                        content: UploadXMLPayload::PhotoId { value: String::new() },
                    },
                );
            }
            if is_open(open, "err") && is_close(close, "err") {
                proof {
                    reveal_strlit("err");
                    reveal_strlit("photoid");
                    assert("err"@.len() == 3 && "photoid"@.len() == 7);
                }
                match attribute(open, "code") {
                    Some(code) => match attribute(open, "msg") {
                        Some(msg) => {
                            return Some(
                                UploadXMLAnswer {
                                    stat,
                                    content: UploadXMLPayload::Failure { code, msg },
                                },
                            );
                        },
                        None => {},
                    },
                    None => {},
                }
            }
            None
        } else if n == 5 {
            let open = &parts[places[1]];
            let close = &parts[places[3]];
            proof {
                assert(inner.len() == 3);
                assert(inner[0] == s[1] && inner[1] == s[2] && inner[2] == s[3]);
            }
            if is_open(open, "photoid") && is_close(close, "photoid") {
                match &parts[places[2]] {
                    XmlPart::Text(value) => {
                        return Some(
                            UploadXMLAnswer {
                                stat,
                                content: UploadXMLPayload::PhotoId { value: value.clone() },
                            },
                        );
                    },
                    _ => {},
                }
            }
            None
        } else {
            proof {
                assert(inner.len() != 2 && inner.len() != 3);
            }
            None
        }
    }

    /// The upload answer that an XML document holds.
    pub fn parse(text: &str) -> (r: Option<UploadXMLAnswer>)
        ensures
            match r {
                Some(answer) => xml_parts(text@) is Some && upload_answer_in(xml_parts(text@)->0)
                    == Some(answer@),
                None => xml_parts(text@) is None || upload_answer_in(xml_parts(text@)->0)
                    is None,
            },
    {
        match xml_read(text) {
            Some(parts) => UploadXMLAnswer::from_parts(&parts),
            None => None,
        }
    }
}

} // verus!
