//! Support for the transcription collaborator that consumes a finished
//! recording: the credential holder, the request parameters, and the pure
//! derivations the upload needs — the multipart text fields, and the file
//! name and mime type of the uploaded file. The HTTP transport itself is
//! unverified edge code; it hands paths and strings in and takes plain
//! values back.

use vstd::prelude::*;

verus! {

/// Credential holder for the transcription service.
pub struct Client {
    api_key: String,
}

/// Shared state the request handlers carry.
pub struct AppState {
    pub openai_client: Client,
}

impl Client {
    /// The key this client authenticates with.
    pub closed spec fn spec_api_key(self) -> Seq<char> {
        self.api_key@
    }

    pub fn new(api_key: String) -> (r: Client)
        ensures
            r.spec_api_key() == api_key@,
    {
        Client { api_key }
    }

    pub fn api_key(&self) -> (r: &String)
        ensures
            r@ == self.spec_api_key(),
    {
        &self.api_key
    }
}

/// The response formats the transcription service offers.
#[derive(Clone, Copy, Debug, PartialEq, Eq, Structural)]
pub enum AudioResponseFormat {
    Json,
    Text,
    Srt,
    VerboseJson,
    Vtt,
}

impl AudioResponseFormat {
    /// The wire name of each response format.
    pub open spec fn spec_name(self) -> Seq<char> {
        match self {
            AudioResponseFormat::Json => "json"@,
            AudioResponseFormat::Text => "text"@,
            AudioResponseFormat::Srt => "srt"@,
            AudioResponseFormat::VerboseJson => "verbose_json"@,
            AudioResponseFormat::Vtt => "vtt"@,
        }
    }

    pub fn to_string(&self) -> (r: String)
        ensures
            r@ == self.spec_name(),
    {
        match self {
            AudioResponseFormat::Json => "json".to_owned(),
            AudioResponseFormat::Text => "text".to_owned(),
            AudioResponseFormat::Srt => "srt".to_owned(),
            AudioResponseFormat::VerboseJson => "verbose_json".to_owned(),
            AudioResponseFormat::Vtt => "vtt".to_owned(),
        }
    }
}

/// Everything one transcription request carries. The temperature is
/// carried pre-rendered as a decimal string: the edge formats the number,
/// the field logic here stays on plain values.
pub struct AudioTranscriptionParameters {
    pub path: String,
    pub model: String,
    pub prompt: Option<String>,
    pub language: Option<String>,
    pub response_format: Option<AudioResponseFormat>,
    pub temperature: Option<String>,
}

/// The multipart text fields a request's parameters determine, in wire
/// order: the model always, then each optional field exactly when present.
pub open spec fn spec_form_fields(p: AudioTranscriptionParameters) -> Seq<(Seq<char>, Seq<char>)> {
    seq![("model"@, p.model@)] + (if p.prompt is Some {
        seq![("prompt"@, p.prompt->0@)]
    } else {
        Seq::empty()
    }) + (if p.language is Some {
        seq![("language"@, p.language->0@)]
    } else {
        Seq::empty()
    }) + (if p.response_format is Some {
        seq![("response_format"@, p.response_format->0.spec_name())]
    } else {
        Seq::empty()
    }) + (if p.temperature is Some {
        seq![("temperature"@, p.temperature->0@)]
    } else {
        Seq::empty()
    })
}

/// Assembles the multipart text fields for one transcription request:
/// exactly the fields `spec_form_fields` lists, in that order. The edge
/// adds the file part itself and sends the form.
pub fn form_fields(parameters: AudioTranscriptionParameters) -> (r: Vec<(String, String)>)
    ensures
        r@.map_values(|f: (String, String)| (f.0@, f.1@)) == spec_form_fields(parameters),
{
    let ghost p = parameters;
    let mut fields: Vec<(String, String)> = Vec::new();
    fields.push(("model".to_owned(), parameters.model));
    if let Some(prompt) = parameters.prompt {
        fields.push(("prompt".to_owned(), prompt));
    }
    if let Some(language) = parameters.language {
        fields.push(("language".to_owned(), language));
    }
    if let Some(response_format) = parameters.response_format {
        fields.push(("response_format".to_owned(), response_format.to_string()));
    }
    if let Some(temperature) = parameters.temperature {
        fields.push(("temperature".to_owned(), temperature));
    }
    proof {
        assert(fields@.map_values(|f: (String, String)| (f.0@, f.1@)) =~= spec_form_fields(p));
    }
    fields
}

/// The fixed request the subsystem issues for a recorded file: the
/// "whisper-1" model, a plain-text response, and no optional overrides.
pub fn transcription_request(path: String) -> (r: AudioTranscriptionParameters)
    ensures
        r.path@ == path@,
        r.model@ == "whisper-1"@,
        r.prompt is None,
        r.language is None,
        r.response_format == Some(AudioResponseFormat::Text),
        r.temperature is None,
{
    AudioTranscriptionParameters {
        path,
        model: "whisper-1".to_owned(),
        prompt: None,
        language: None,
        response_format: Some(AudioResponseFormat::Text),
        temperature: None,
    }
}

/// Index of the first character after the last '/' of `p`, or 0 when `p`
/// holds no '/': where the file-name component starts.
pub open spec fn file_name_start(p: Seq<char>) -> int
    decreases p.len(),
{
    if p.len() == 0 {
        0
    } else if p.last() == '/' {
        p.len() as int
    } else {
        file_name_start(p.drop_last())
    }
}

/// The file-name component of a path: everything after the last '/'.
pub open spec fn spec_file_name(p: Seq<char>) -> Seq<char> {
    p.subrange(file_name_start(p), p.len() as int)
}

/// A usable file name: non-empty and not a relative marker.
pub open spec fn valid_file_name(n: Seq<char>) -> bool {
    &&& n.len() > 0
    &&& n != seq!['.']
    &&& n != seq!['.', '.']
}

/// The file name the upload uses for a path, exactly when the path's
/// file-name component is usable.
pub fn file_name_of(path: &str) -> (r: Option<String>)
    ensures
        valid_file_name(spec_file_name(path@)) ==> (r matches Some(name) && name@
            == spec_file_name(path@)),
        !valid_file_name(spec_file_name(path@)) ==> r is None,
{
    let n = path.unicode_len();
    let mut start: usize = 0;
    let mut k: usize = 0;
    while k < n
        invariant
            n == path@.len(),
            0 <= k <= n,
            0 <= start <= k,
            start == file_name_start(path@.take(k as int)),
        decreases n - k,
    {
        if path.get_char(k) == '/' {
            start = k + 1;
        }
        proof {
            assert(path@.take(k + 1 as int).drop_last() =~= path@.take(k as int));
        }
        k += 1;
    }
    proof {
        assert(path@.take(n as int) =~= path@);
    }
    let name = path.substring_char(start, n);
    let len = name.unicode_len();
    if len == 0 {
        proof {
            assert(!valid_file_name(spec_file_name(path@)));
        }
        return None;
    }
    if len == 1 && name.get_char(0) == '.' {
        proof {
            assert(name@ =~= seq!['.']);
        }
        return None;
    }
    if len == 2 && name.get_char(0) == '.' && name.get_char(1) == '.' {
        proof {
            assert(name@ =~= seq!['.', '.']);
        }
        return None;
    }
    proof {
        assert(name@ != seq!['.'] && name@ != seq!['.', '.']) by {
            if name@ == seq!['.'] {
                assert(name@.len() == 1);
            }
            if name@ == seq!['.', '.'] {
                assert(name@.len() == 2);
                assert(name@[0] == '.' && name@[1] == '.');
            }
        }
    }
    Some(name.to_owned())
}

/// What the mime-type table gives for a path, by its extension.
pub uninterp spec fn mime_of(path: Seq<char>) -> Seq<char>;

/// Relies on `mime_guess::from_path` and `MimeGuess::first_or_octet_stream`:
/// the guess looks the path's extension up in a static table, falling back
/// to application/octet-stream, so the result is a function of the path
/// alone.
#[verifier::external_body]
fn guess_mime_type(path: &str) -> (r: String)
    ensures
        r@ == mime_of(path@),
{
    mime_guess::from_path(path).first_or_octet_stream().to_string()
}

/// The two metadata values the upload form needs for the recorded file:
/// its file name and its guessed mime type. `None` exactly when the path
/// has no usable file-name component.
pub fn file_part_metadata(path: &str) -> (r: Option<(String, String)>)
    ensures
        valid_file_name(spec_file_name(path@)) ==> (r matches Some(m) && m.0@ == spec_file_name(
            path@,
        ) && m.1@ == mime_of(path@)),
        !valid_file_name(spec_file_name(path@)) ==> r is None,
{
    match file_name_of(path) {
        Some(name) => {
            let mime = guess_mime_type(path);
            Some((name, mime))
        },
        None => None,
    }
}

} // verus!
