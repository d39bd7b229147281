//! The request envelope: a JSON object that names the model file, the label
//! file and the image input, each as a string.

use vstd::prelude::*;

use crate::error::{PipelineError, RequestField};

verus! {

/// `serde_json::Value`: a JSON document. Of what it holds, only the string
/// members of the top-level object are spoken of (`json_strings`).
#[verifier::external_type_specification]
#[verifier::external_body]
pub struct ExJsonValue(serde_json::Value);

/// `serde_json::Error`: why a text is no JSON document. It is carried through
/// unread.
#[verifier::external_type_specification]
#[verifier::external_body]
pub struct ExJsonError(serde_json::Error);

/// The string members of a JSON document: for each key of the top-level object
/// whose value is a string, that string. A document that is no object has none.
pub uninterp spec fn json_strings(document: serde_json::Value) -> Map<Seq<char>, Seq<char>>;

/// The string members of the JSON document that `text` spells; `None` where
/// `text` is not one JSON document.
pub uninterp spec fn parsed_json_strings(text: Seq<char>) -> Option<Map<Seq<char>, Seq<char>>>;

/// `serde_json::from_str` for `serde_json::Value` parses a text as one JSON
/// document. Whether it succeeds, and what the document holds, depend on the
/// text alone.
#[verifier::external_body]
fn parse_json(text: &str) -> (out: Result<serde_json::Value, serde_json::Error>)
    ensures
        match out {
            Ok(document) => parsed_json_strings(text@) == Some(json_strings(document)),
            Err(_) => parsed_json_strings(text@).is_none(),
        },
{
    serde_json::from_str(text)
}

/// `serde_json::Value::get` with a string key looks the key up in an object and
/// finds nothing in any other value; of what it finds, only a string is handed
/// out.
#[verifier::external_body]
fn string_member(document: &serde_json::Value, key: &str) -> (out: Option<String>)
    ensures
        match out {
            Some(text) => json_strings(*document).contains_key(key@) && json_strings(*document)[key@]
                == text@,
            None => !json_strings(*document).contains_key(key@),
        },
{
    match document.get(key) {
        Some(serde_json::Value::String(text)) => Some(text.clone()),
        _ => None,
    }
}

/// What a request asks for.
#[derive(Debug)]
pub struct Request {
    /// Where the model file is.
    pub model_path: String,
    /// Where the label file is.
    pub labels_path: String,
    /// The image: a data URL or a bare base64 payload.
    pub input: String,
}

/// The texts of a request.
pub struct RequestView {
    pub model_path: Seq<char>,
    pub labels_path: Seq<char>,
    pub input: Seq<char>,
}

impl View for Request {
    type V = RequestView;

    open spec fn view(&self) -> RequestView {
        RequestView { model_path: self.model_path@, labels_path: self.labels_path@, input: self.input@ }
    }
}

/// The request that a document with the given string members makes, or the
/// first member, in the order `model_path`, `labels_path`, `input`, that is
/// missing or not a string.
pub open spec fn request_of(strings: Map<Seq<char>, Seq<char>>) -> Result<RequestView, PipelineError> {
    if !strings.contains_key("model_path"@) {
        Err(PipelineError::MalformedRequest { field: RequestField::ModelPath })
    } else if !strings.contains_key("labels_path"@) {
        Err(PipelineError::MalformedRequest { field: RequestField::LabelsPath })
    } else if !strings.contains_key("input"@) {
        Err(PipelineError::MalformedRequest { field: RequestField::Input })
    } else {
        Ok(
            RequestView {
                model_path: strings["model_path"@],
                labels_path: strings["labels_path"@],
                input: strings["input"@],
            },
        )
    }
}

/// What parsing `event` as a request yields.
pub open spec fn parsed_request(event: Seq<char>) -> Result<RequestView, PipelineError> {
    match parsed_json_strings(event) {
        Some(strings) => request_of(strings),
        None => Err(PipelineError::MalformedRequest { field: RequestField::Envelope }),
    }
}

/// Whether `out` is the outcome `expected`.
pub open spec fn is_outcome(out: Result<Request, PipelineError>, expected: Result<RequestView, PipelineError>) -> bool {
    match out {
        Ok(request) => expected == Ok::<RequestView, PipelineError>(request@),
        Err(e) => expected == Err::<RequestView, PipelineError>(e),
    }
}

/// Reads a request from a JSON document.
///
/// Fails with `MalformedRequest` exactly when one of the three members is
/// missing or is not a string, and names the first such member.
pub fn request_from_document(document: &serde_json::Value) -> (out: Result<Request, PipelineError>)
    ensures
        is_outcome(out, request_of(json_strings(*document))),
{
    let model_path = match string_member(document, "model_path") {
        Some(text) => text,
        None => {
            return Err(PipelineError::MalformedRequest { field: RequestField::ModelPath });
        },
    };
    let labels_path = match string_member(document, "labels_path") {
        Some(text) => text,
        None => {
            return Err(PipelineError::MalformedRequest { field: RequestField::LabelsPath });
        },
    };
    let input = match string_member(document, "input") {
        Some(text) => text,
        None => {
            return Err(PipelineError::MalformedRequest { field: RequestField::Input });
        },
    };
    Ok(Request { model_path, labels_path, input })
}

/// Reads a request from the text of an event.
///
/// Fails with `MalformedRequest` exactly when the text is not a JSON document
/// (field `Envelope`), or when the document lacks one of the three string
/// members (see `request_from_document`).
pub fn parse_request(event: &str) -> (out: Result<Request, PipelineError>)
    ensures
        is_outcome(out, parsed_request(event@)),
{
    match parse_json(event) {
        Ok(document) => request_from_document(&document),
        Err(_) => Err(PipelineError::MalformedRequest { field: RequestField::Envelope }),
    }
}

} // verus!
