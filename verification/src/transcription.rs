//! The request that asks the transcription service for the words of an
//! audio file, and the words for its failures.

use vstd::prelude::*;

verus! {

/// One text field of the form that is sent with the audio.
#[derive(Debug, PartialEq, Eq)]
pub struct FormField {
    pub name: String,
    pub value: String,
}

/// The mathematical content of a [`FormField`].
pub struct FieldView {
    pub name: Seq<char>,
    pub value: Seq<char>,
}

impl View for FormField {
    type V = FieldView;

    open spec fn view(&self) -> FieldView {
        FieldView { name: self.name@, value: self.value@ }
    }
}

/// The views of a list of fields, in the same order.
pub open spec fn field_views(fields: Seq<FormField>) -> Seq<FieldView> {
    fields.map_values(|f: FormField| f@)
}

/// What is sent to the service beside the audio itself.
#[derive(Debug, PartialEq, Eq)]
pub struct TranscriptionRequest {
    pub url: String,
    /// The value of the `Authorization` header.
    pub authorization: String,
    /// The name under which the audio is sent.
    pub file_name: String,
    pub fields: Vec<FormField>,
}

/// The name under which the audio is sent: its own, or `audio.mp3` when it
/// has none that can be read.
pub open spec fn sent_file_name(file_name: Option<&str>) -> Seq<char> {
    match file_name {
        Some(name) => name@,
        None => "audio.mp3"@,
    }
}

/// The text fields of the form: the model, the verbose format, word and
/// segment time stamps, and the language when one is named.
pub open spec fn form_fields(model: Seq<char>, language: Option<&str>) -> Seq<FieldView> {
    let fixed = seq![
        FieldView { name: "model"@, value: model },
        FieldView { name: "response_format"@, value: "verbose_json"@ },
        FieldView { name: "timestamp_granularities"@, value: "[\"word\", \"segment\"]"@ },
    ];
    match language {
        Some(l) => fixed.push(FieldView { name: "language"@, value: l@ }),
        None => fixed,
    }
}

fn push_field(fields: &mut Vec<FormField>, name: &str, value: &str)
    ensures
        field_views(final(fields)@) == field_views(old(fields)@).push(
            FieldView { name: name@, value: value@ },
        ),
{
    let field = FormField { name: String::from_str(name), value: String::from_str(value) };
    fields.push(field);
    assert(field_views(fields@) =~= field_views(old(fields)@).push(field@));
}

/// Describes the request for a transcription of an audio file.
pub fn transcription_request(
    file_name: Option<&str>,
    api_key: &str,
    model: &str,
    language: Option<&str>,
) -> (r: TranscriptionRequest)
    ensures
        r.url@ == "https://api.openai.com/v1/audio/transcriptions"@,
        r.authorization@ == "Bearer "@ + api_key@,
        r.file_name@ == sent_file_name(file_name),
        field_views(r.fields@) == form_fields(model@, language),
{
    let mut authorization = String::from_str("Bearer ");
    authorization.append(api_key);
    let name = match file_name {
        Some(name) => String::from_str(name),
        None => String::from_str("audio.mp3"),
    };
    let mut fields: Vec<FormField> = Vec::new();
    assert(field_views(fields@) =~= Seq::<FieldView>::empty());
    push_field(&mut fields, "model", model);
    push_field(&mut fields, "response_format", "verbose_json");
    push_field(&mut fields, "timestamp_granularities", "[\"word\", \"segment\"]");
    match language {
        Some(l) => {
            push_field(&mut fields, "language", l);
        },
        None => {},
    }
    assert(field_views(fields@) =~= form_fields(model@, language));
    TranscriptionRequest {
        url: String::from_str("https://api.openai.com/v1/audio/transcriptions"),
        authorization,
        file_name: name,
        fields,
    }
}

/// The words for an answer of the service that is no success: the status and
/// what the service said, or `Unknown error` when that could not be read.
pub open spec fn api_failure_text(status: Seq<char>, body: Option<&str>) -> Seq<char> {
    "OpenAI API error ("@ + status + "): "@ + match body {
        Some(text) => text@,
        None => "Unknown error"@,
    }
}

/// Words the failure of the service for the caller.
pub fn api_failure(status: &str, body: Option<&str>) -> (message: String)
    ensures
        message@ == api_failure_text(status@, body),
{
    let mut message = String::from_str("OpenAI API error (");
    message.append(status);
    message.append("): ");
    match body {
        Some(text) => {
            message.append(text);
        },
        None => {
            message.append("Unknown error");
        },
    }
    message
}

} // verus!
