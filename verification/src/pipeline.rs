use vstd::prelude::*;
use vstd::string::StrSliceExecFns;

use crate::errors::DictationError;
use crate::keywords::{apply_keywords, apply_keywords_spec, KeywordMap};
use crate::recorder::AudioState;
use crate::settings::Settings;
use crate::wav::{create_wav, wav_bytes, wav_encodable};

verus! {

/// Speech-to-text endpoint the WAV payload is posted to.
pub const STT_URL: &'static str = "https://api.openai.com/v1/audio/transcriptions";

/// Chat/completion endpoint the reformatting request is posted to.
pub const CHAT_URL: &'static str = "https://api.openai.com/v1/chat/completions";

/// Both remote calls succeed exactly on a 2xx status.
pub open spec fn success_status(status: u16) -> bool {
    200 <= status < 300
}

// ---------------------------------------------------------------------------
// Reading response bodies
// ---------------------------------------------------------------------------

/// The "text" string field of a JSON body, if the body is a JSON document
/// carrying one; a function of the body text alone.
pub uninterp spec fn stt_text_of(body: Seq<char>) -> Option<Seq<char>>;

/// Relies on serde_json::from_str::<Value>, Value::get and Value::as_str:
/// parses the body and picks out its "text" string field.
#[verifier::external_body]
fn extract_stt_text(body: &str) -> (r: Option<String>)
    ensures
        r matches Some(t) ==> stt_text_of(body@) == Some(t@),
        r is None ==> stt_text_of(body@) is None,
{
    let parsed: serde_json::Value = match serde_json::from_str(body) {
        Ok(v) => v,
        Err(_) => return None,
    };
    let text = parsed.get("text")?.as_str()?;
    Some(text.to_owned())
}

/// How many candidate choices the JSON body's "choices" array holds, and
/// the first choice's message content if it has one; `None` when the body
/// is not a JSON document with a "choices" array. A function of the body
/// text alone.
pub uninterp spec fn chat_parts_of(body: Seq<char>) -> Option<(int, Option<Seq<char>>)>;

/// Relies on serde_json::from_str::<Value>, Value::get, Value::as_array
/// and Value::as_str: parses the body, finds the "choices" array, and
/// reads the first choice's "message"."content" string.
#[verifier::external_body]
fn extract_chat_parts(body: &str) -> (r: Option<(usize, Option<String>)>)
    ensures
        r matches Some(p) ==> (chat_parts_of(body@) matches Some(q) && q.0 == p.0 as int && ((
        p.1 matches Some(c) && q.1 == Some(c@)) || (p.1 is None && q.1 is None))),
        r is None ==> chat_parts_of(body@) is None,
{
    let parsed: serde_json::Value = match serde_json::from_str(body) {
        Ok(v) => v,
        Err(_) => return None,
    };
    let choices = parsed.get("choices")?.as_array()?;
    let content = choices
        .first()
        .and_then(|c| c.get("message"))
        .and_then(|m| m.get("content"))
        .and_then(|s| s.as_str());
    Some((choices.len(), content.map(|s| s.to_owned())))
}

// ---------------------------------------------------------------------------
// Building the reformatting request body
// ---------------------------------------------------------------------------

/// Relies on String's FromIterator impl: collecting chars yields the
/// string of exactly those characters.
#[verifier::external_body]
fn chars_to_string(v: Vec<char>) -> (r: String)
    ensures
        r@ == v@,
{
    v.into_iter().collect()
}

/// The lowercase hex digit for a value below 16.
pub open spec fn hex_digit(n: int) -> char {
    if n == 0 {
        '0'
    } else if n == 1 {
        '1'
    } else if n == 2 {
        '2'
    } else if n == 3 {
        '3'
    } else if n == 4 {
        '4'
    } else if n == 5 {
        '5'
    } else if n == 6 {
        '6'
    } else if n == 7 {
        '7'
    } else if n == 8 {
        '8'
    } else if n == 9 {
        '9'
    } else if n == 10 {
        'a'
    } else if n == 11 {
        'b'
    } else if n == 12 {
        'c'
    } else if n == 13 {
        'd'
    } else if n == 14 {
        'e'
    } else {
        'f'
    }
}

fn hex_digit_char(n: u32) -> (r: char)
    requires
        n < 16,
    ensures
        r == hex_digit(n as int),
{
    match n {
        0 => '0',
        1 => '1',
        2 => '2',
        3 => '3',
        4 => '4',
        5 => '5',
        6 => '6',
        7 => '7',
        8 => '8',
        9 => '9',
        10 => 'a',
        11 => 'b',
        12 => 'c',
        13 => 'd',
        14 => 'e',
        _ => 'f',
    }
}

/// How one character appears inside a JSON string literal: quote,
/// backslash and the named control characters get two-character escapes,
/// the remaining control characters a \u00XX escape, everything else
/// stands as itself.
pub open spec fn json_escaped_char(c: char) -> Seq<char> {
    if c == '"' {
        seq!['\\', '"']
    } else if c == '\\' {
        seq!['\\', '\\']
    } else if c == '\u{8}' {
        seq!['\\', 'b']
    } else if c == '\u{c}' {
        seq!['\\', 'f']
    } else if c == '\n' {
        seq!['\\', 'n']
    } else if c == '\r' {
        seq!['\\', 'r']
    } else if c == '\t' {
        seq!['\\', 't']
    } else if (c as u32) < 0x20 {
        seq!['\\', 'u', '0', '0', hex_digit((c as u32 >> 4) as int), hex_digit((c as u32 & 0xf) as int)]
    } else {
        seq![c]
    }
}

/// A string as it appears inside a JSON string literal.
pub open spec fn json_escaped(s: Seq<char>) -> Seq<char>
    decreases s.len(),
{
    if s.len() == 0 {
        Seq::empty()
    } else {
        json_escaped(s.drop_last()) + json_escaped_char(s.last())
    }
}

fn json_escape(s: &str) -> (r: String)
    ensures
        r@ == json_escaped(s@),
{
    let n: usize = s.unicode_len();
    let mut out: Vec<char> = Vec::new();
    let mut i: usize = 0;
    while i < n
        invariant
            i <= n,
            n == s@.len(),
            out@ == json_escaped(s@.take(i as int)),
        decreases n - i,
    {
        let c: char = s.get_char(i);
        let ghost prev = out@;
        if c == '"' {
            out.push('\\');
            out.push('"');
        } else if c == '\\' {
            out.push('\\');
            out.push('\\');
        } else if c == '\u{8}' {
            out.push('\\');
            out.push('b');
        } else if c == '\u{c}' {
            out.push('\\');
            out.push('f');
        } else if c == '\n' {
            out.push('\\');
            out.push('n');
        } else if c == '\r' {
            out.push('\\');
            out.push('r');
        } else if c == '\t' {
            out.push('\\');
            out.push('t');
        } else if (c as u32) < 0x20 {
            proof {
                let v: u32 = c as u32;
                assert((v >> 4) < 16 && (v & 0xf) < 16) by (bit_vector)
                    requires
                        v < 0x20,
                ;
            }
            out.push('\\');
            out.push('u');
            out.push('0');
            out.push('0');
            out.push(hex_digit_char((c as u32) >> 4));
            out.push(hex_digit_char((c as u32) & 0xf));
        } else {
            out.push(c);
        }
        proof {
            assert(out@ =~= prev + json_escaped_char(s@[i as int]));
            assert(s@.take(i as int + 1).drop_last() =~= s@.take(i as int));
            assert(s@.take(i as int + 1).last() == s@[i as int]);
        }
        i = i + 1;
    }
    proof {
        assert(s@.take(n as int) =~= s@);
    }
    chars_to_string(out)
}

/// The JSON body of the reformatting request: the fixed model, a system
/// message then a user message, and the fixed low temperature that biases
/// the model toward literal reformatting.
pub open spec fn chat_body_spec(system: Seq<char>, user: Seq<char>) -> Seq<char> {
    "{\"model\":\"gpt-5.2\",\"messages\":[{\"role\":\"system\",\"content\":\""@ + json_escaped(
        system,
    ) + "\"},{\"role\":\"user\",\"content\":\""@ + json_escaped(user)
        + "\"}],\"temperature\":0.3}"@
}

fn build_chat_body(system: &str, user: &str) -> (r: String)
    ensures
        r@ == chat_body_spec(system@, user@),
{
    let mut r = String::from_str(
        "{\"model\":\"gpt-5.2\",\"messages\":[{\"role\":\"system\",\"content\":\"",
    );
    let escaped_system = json_escape(system);
    r.append(escaped_system.as_str());
    r.append("\"},{\"role\":\"user\",\"content\":\"");
    let escaped_user = json_escape(user);
    r.append(escaped_user.as_str());
    r.append("\"}],\"temperature\":0.3}");
    r
}

/// One enumerated pair of the embedded keyword instruction.
pub open spec fn keyword_line(k: Seq<char>, v: Seq<char>) -> Seq<char> {
    "\""@ + k + "\" -> \""@ + v + "\""@
}

/// The enumerated pairs, one per line.
pub open spec fn keyword_lines(entries: Seq<(Seq<char>, Seq<char>)>) -> Seq<char>
    decreases entries.len(),
{
    if entries.len() == 0 {
        Seq::empty()
    } else if entries.len() == 1 {
        keyword_line(entries[0].0, entries[0].1)
    } else {
        keyword_lines(entries.drop_last()) + "\n"@ + keyword_line(
            entries.last().0,
            entries.last().1,
        )
    }
}

/// The instruction appended to the system prompt when the keyword mapping
/// is non-empty: redundant reinforcement directing the model to honor the
/// same replacements the pipeline already applied to the transcript.
pub open spec fn keyword_instruction_spec(entries: Seq<(Seq<char>, Seq<char>)>) -> Seq<char> {
    if entries.len() == 0 {
        Seq::empty()
    } else {
        "\n\nIMPORTANT: Apply these exact keyword replacements (case-insensitive):\n"@
            + keyword_lines(entries)
    }
}

fn keyword_instruction(keywords: &KeywordMap) -> (r: String)
    ensures
        r@ == keyword_instruction_spec(keywords@),
{
    if keywords.is_empty() {
        return String::new();
    }
    let mut r = String::from_str(
        "\n\nIMPORTANT: Apply these exact keyword replacements (case-insensitive):\n",
    );
    let ghost header = r@;
    let mut i: usize = 0;
    while i < keywords.len()
        invariant
            i <= keywords@.len(),
            keywords@.len() > 0,
            header == "\n\nIMPORTANT: Apply these exact keyword replacements (case-insensitive):\n"@,
            r@ == header + keyword_lines(keywords@.take(i as int)),
        decreases keywords@.len() - i,
    {
        if i > 0 {
            r.append("\n");
        }
        r.append("\"");
        r.append(keywords.spoken_at(i).as_str());
        r.append("\" -> \"");
        r.append(keywords.replacement_at(i).as_str());
        r.append("\"");
        proof {
            assert(keywords@.take(i as int + 1).drop_last() =~= keywords@.take(i as int));
            assert(keywords@.take(i as int + 1).last() == keywords@[i as int]);
            assert(r@ =~= header + keyword_lines(keywords@.take(i as int + 1)));
        }
        i = i + 1;
    }
    proof {
        assert(keywords@.take(keywords@.len() as int) =~= keywords@);
    }
    r
}

// ---------------------------------------------------------------------------
// The pipeline's stages
// ---------------------------------------------------------------------------

/// Everything the shell needs to post the speech-to-text request: the
/// endpoint, the authorization header value, the fixed multipart fields,
/// and the encoded WAV payload.
pub struct SttRequest {
    pub url: String,
    pub auth_bearer: String,
    pub model: String,
    pub response_format: String,
    pub file_name: String,
    pub mime_type: String,
    pub wav_data: Vec<u8>,
}

/// The fail-fast stage of `transcribe`: checks the credential, then that
/// audio was recorded — in that order, before any network traffic — and
/// encodes the drained buffer as the WAV payload of the upload request.
pub fn prepare_transcription(settings: &Settings, audio: &AudioState) -> (r: Result<
    SttRequest,
    DictationError,
>)
    ensures
        settings.openai_api_key is None ==> (r matches Err(e)
            && e matches DictationError::MissingCredential),
        (settings.openai_api_key is Some && audio.audio_data@.len() == 0) ==> (r matches Err(e)
            && e matches DictationError::NoAudioRecorded),
        (settings.openai_api_key is Some && audio.audio_data@.len() > 0 && !wav_encodable(
            audio.audio_data@.len(),
            audio.sample_rate,
        )) ==> (r matches Err(e) && e matches DictationError::EncodingError),
        settings.openai_api_key matches Some(k) ==> ((audio.audio_data@.len() > 0
            && wav_encodable(audio.audio_data@.len(), audio.sample_rate)) ==> (r matches Ok(q)
            && q.url@ == STT_URL@ && q.auth_bearer@ == "Bearer "@ + k@ && q.model@
            == "whisper-1"@ && q.response_format@ == "json"@ && q.file_name@ == "audio.wav"@
            && q.mime_type@ == "audio/wav"@ && q.wav_data@ == wav_bytes(
            audio.audio_data@,
            audio.sample_rate,
        ))),
{
    let key = match &settings.openai_api_key {
        Some(k) => k,
        None => {
            return Err(DictationError::MissingCredential);
        },
    };
    if audio.audio_data.len() == 0 {
        return Err(DictationError::NoAudioRecorded);
    }
    let wav_data = match create_wav(&audio.audio_data, audio.sample_rate) {
        Ok(w) => w,
        Err(e) => {
            return Err(e);
        },
    };
    let mut auth_bearer = String::from_str("Bearer ");
    auth_bearer.append(key.as_str());
    Ok(
        SttRequest {
            url: String::from_str(STT_URL),
            auth_bearer,
            model: String::from_str("whisper-1"),
            response_format: String::from_str("json"),
            file_name: String::from_str("audio.wav"),
            mime_type: String::from_str("audio/wav"),
            wav_data,
        },
    )
}

/// What the speech-to-text call's outcome means: a non-2xx status is a
/// service error carrying the body verbatim, a 2xx body without the
/// expected text field is a parse error, and otherwise the raw transcript
/// is exactly that field.
pub fn process_stt_response(status: u16, body: String) -> (r: Result<String, DictationError>)
    ensures
        !success_status(status) ==> (r matches Err(e)
            && e matches DictationError::TranscriptionServiceError(b) && b@ == body@),
        (success_status(status) && stt_text_of(body@) is None) ==> (r matches Err(e)
            && e matches DictationError::ResponseParseError),
        (success_status(status) && stt_text_of(body@) is Some) ==> (r matches Ok(t) && Some(t@)
            == stt_text_of(body@)),
{
    if !(status >= 200 && status < 300) {
        return Err(DictationError::TranscriptionServiceError(body));
    }
    match extract_stt_text(body.as_str()) {
        Some(t) => Ok(t),
        None => Err(DictationError::ResponseParseError),
    }
}

/// Everything the shell needs to post the reformatting request: the
/// endpoint, the authorization header value, and the JSON body; the
/// system prompt and substituted transcript the body was built from are
/// kept alongside.
pub struct ChatRequest {
    pub url: String,
    pub auth_bearer: String,
    pub body: String,
    pub system_prompt: String,
    pub user_text: String,
}

/// Builds the reformatting call from the raw transcript: keyword
/// substitution is applied to the transcript first, the system prompt is
/// the configured prompt plus — when the mapping is non-empty — the
/// enumerated keyword instruction, and the body carries both messages.
pub fn build_reformat_request(
    api_key: &String,
    raw_text: &String,
    custom_prompt: &String,
    keywords: &KeywordMap,
) -> (r: ChatRequest)
    ensures
        r.url@ == CHAT_URL@,
        r.auth_bearer@ == "Bearer "@ + api_key@,
        r.user_text@ == apply_keywords_spec(raw_text@, keywords@),
        r.system_prompt@ == custom_prompt@ + keyword_instruction_spec(keywords@),
        r.body@ == chat_body_spec(r.system_prompt@, r.user_text@),
{
    let user_text = apply_keywords(raw_text.as_str(), keywords);
    let mut system_prompt = custom_prompt.clone();
    let instruction = keyword_instruction(keywords);
    system_prompt.append(instruction.as_str());
    let body = build_chat_body(system_prompt.as_str(), user_text.as_str());
    let mut auth_bearer = String::from_str("Bearer ");
    auth_bearer.append(api_key.as_str());
    ChatRequest { url: String::from_str(CHAT_URL), auth_bearer, body, system_prompt, user_text }
}

/// What the reformatting call's outcome means: a non-2xx status is a
/// service error carrying the body verbatim; a 2xx body that is not a
/// choices document is a parse error; one with no choice at all means the
/// model returned nothing; and otherwise the result is the first choice's
/// content, whose absence is again a parse error.
pub fn process_chat_response(status: u16, body: String) -> (r: Result<String, DictationError>)
    ensures
        !success_status(status) ==> (r matches Err(e)
            && e matches DictationError::TranscriptionServiceError(b) && b@ == body@),
        (success_status(status) && chat_parts_of(body@) is None) ==> (r matches Err(e)
            && e matches DictationError::ResponseParseError),
        chat_parts_of(body@) matches Some(p) ==> ((success_status(status) && p.0 == 0) ==> (
        r matches Err(e) && e matches DictationError::EmptyModelResponse)),
        chat_parts_of(body@) matches Some(p) ==> ((success_status(status) && p.0 > 0
            && p.1 is None) ==> (r matches Err(e)
            && e matches DictationError::ResponseParseError)),
        chat_parts_of(body@) matches Some(p) ==> (p.1 matches Some(c) ==> ((success_status(
            status,
        ) && p.0 > 0) ==> (r matches Ok(t) && t@ == c))),
{
    if !(status >= 200 && status < 300) {
        return Err(DictationError::TranscriptionServiceError(body));
    }
    match extract_chat_parts(body.as_str()) {
        None => Err(DictationError::ResponseParseError),
        Some((n, content)) => {
            if n == 0 {
                Err(DictationError::EmptyModelResponse)
            } else {
                match content {
                    Some(c) => Ok(c),
                    None => Err(DictationError::ResponseParseError),
                }
            }
        },
    }
}

/// The pipeline's product: the transcript as the speech-to-text service
/// returned it, and the reformatted text, kept distinct so a caller can
/// fall back to the raw transcript.
pub struct TranscriptionResult {
    pub raw_text: String,
    pub formatted_text: String,
}

impl TranscriptionResult {
    /// Pairs the two stages' outputs; produced once per successful run.
    pub fn new(raw_text: String, formatted_text: String) -> (r: Self)
        ensures
            r.raw_text == raw_text,
            r.formatted_text == formatted_text,
    {
        TranscriptionResult { raw_text, formatted_text }
    }
}

} // verus!
