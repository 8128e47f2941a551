//! The OCR backend that sends pages to an OpenAI-compatible vision endpoint:
//! its settings, the encoding of page images and the reading of its replies.
use vstd::prelude::*;
use std::time::Duration;

use super::backend::OcrPageResult;

verus! {

/// Instruction sent to the model alongside the image, unless another is set.
pub const DEFAULT_PROMPT: &'static str = "Text Recognition:";

/// Per-request timeout in seconds, unless another is set.
pub const DEFAULT_TIMEOUT_SECS: u64 = 120;

/// Maximum tokens generated per page, unless another limit is set.
pub const DEFAULT_MAX_TOKENS: u32 = 4096;

/// The prefix of a data URI holding a base64-encoded JPEG image.
pub const JPEG_DATA_URI_PREFIX: &'static str = "data:image/jpeg;base64,";

/// The character of the standard base64 alphabet (RFC 4648) for the six-bit
/// value `v`: `A`-`Z`, `a`-`z`, `0`-`9`, `+`, `/`.
pub open spec fn base64_digit(v: int) -> char {
    if v < 26 {
        (65 + v) as char
    } else if v < 52 {
        (97 + v - 26) as char
    } else if v < 62 {
        (48 + v - 52) as char
    } else if v == 62 {
        '+'
    } else {
        '/'
    }
}

/// The standard base64 encoding of `bytes` (RFC 4648 alphabet, with `=`
/// padding): each group of three bytes, read as 24 bits, gives four digits
/// of six bits; a final group of one or two bytes gives two or three digits
/// followed by `=` to make four.
pub open spec fn base64_standard(bytes: Seq<u8>) -> Seq<char>
    decreases bytes.len(),
{
    if bytes.len() == 0 {
        seq![]
    } else if bytes.len() == 1 {
        let b0 = bytes[0] as int;
        seq![base64_digit(b0 / 4), base64_digit((b0 % 4) * 16), '=', '=']
    } else if bytes.len() == 2 {
        let b0 = bytes[0] as int;
        let b1 = bytes[1] as int;
        seq![base64_digit(b0 / 4), base64_digit((b0 % 4) * 16 + b1 / 16), base64_digit((b1 % 16) * 4), '=']
    } else {
        let b0 = bytes[0] as int;
        let b1 = bytes[1] as int;
        let b2 = bytes[2] as int;
        seq![
            base64_digit(b0 / 4),
            base64_digit((b0 % 4) * 16 + b1 / 16),
            base64_digit((b1 % 16) * 4 + b2 / 64),
            base64_digit(b2 % 64),
        ] + base64_standard(bytes.skip(3))
    }
}

/// Calls `base64::Engine::encode_string` with the `STANDARD` engine, which
/// appends the standard base64 encoding of `bytes` to `out`. Claimed: the
/// appended text is `base64_standard(bytes)`, the encoding as RFC 4648 and
/// the crate's documentation define it.
#[verifier::external_body]
fn append_base64(bytes: &[u8], out: &mut String)
    ensures
        final(out)@ == old(out)@ + base64_standard(bytes@),
{
    base64::Engine::encode_string(&base64::engine::general_purpose::STANDARD, bytes, out)
}

/// The total length of `d` in nanoseconds, as `Duration::as_nanos` reports it.
pub uninterp spec fn duration_as_nanos(d: Duration) -> u128;

/// Calls `std::time::Duration::from_secs`. Claimed, as std documents it: the
/// duration is `secs` whole seconds, so `secs * 1_000_000_000` nanoseconds.
#[verifier::external_body]
fn duration_from_secs(secs: u64) -> (r: Duration)
    ensures
        duration_as_nanos(r) == secs as int * 1_000_000_000,
{
    Duration::from_secs(secs)
}

/// The data URI that carries `jpeg_bytes` to the endpoint.
pub fn jpeg_data_uri(jpeg_bytes: &[u8]) -> (r: String)
    ensures
        r@ == JPEG_DATA_URI_PREFIX@ + base64_standard(jpeg_bytes@),
{
    let mut data_uri = JPEG_DATA_URI_PREFIX.to_owned();
    append_base64(jpeg_bytes, &mut data_uri);
    data_uri
}

/// Start of the error reported for a reply whose status is not a success.
pub const STATUS_FAILURE_PREFIX: &'static str = "llama-server returned ";

/// Separator between the status and the body in that error.
pub const STATUS_FAILURE_SEPARATOR: &'static str = ": ";

/// Error reported for a successful reply whose body is not JSON.
pub const REPLY_NOT_JSON: &'static str = "error decoding response body";

/// Error reported for a JSON reply without a generated text.
pub const REPLY_WITHOUT_CONTENT: &'static str = "missing choices[0].message.content in llama-server response";

/// What a chat-completions reply body holds: `None` when it is not JSON;
/// otherwise the string at `choices[0].message.content`, absent when there
/// is no string there.
pub uninterp spec fn chat_reply_content(body: Seq<char>) -> Option<Option<Seq<char>>>;

/// What a minimal reply holds before the generated text.
pub const MINIMAL_REPLY_HEAD: &'static str = "{\"choices\":[{\"message\":{\"content\":\"";

/// What a minimal reply holds after the generated text.
pub const MINIMAL_REPLY_TAIL: &'static str = "\"}}]}";

/// `s` can stand between the quotes of a JSON string as it is: it holds no
/// quotation mark, no backslash and no control character below U+0020, so
/// the JSON string's value is `s` itself.
pub open spec fn is_plain_json_text(s: Seq<char>) -> bool {
    forall|k: int| 0 <= k < s.len() ==> #[trigger] s[k] != '"' && s[k] != '\\' && (s[k] as u32) >= 0x20
}

/// The reply `{"choices":[{"message":{"content":"<text>"}}]}` that carries
/// `text` and nothing else.
pub open spec fn minimal_reply(text: Seq<char>) -> Seq<char> {
    MINIMAL_REPLY_HEAD@ + text + MINIMAL_REPLY_TAIL@
}

/// The view of a parsed reply.
pub open spec fn reply_view(r: Option<Option<String>>) -> Option<Option<Seq<char>>> {
    match r {
        None => None,
        Some(None) => Some(None),
        Some(Some(c)) => Some(Some(c@)),
    }
}

/// Calls `serde_json::from_str` on `body` as a `serde_json::Value` and, when
/// it parses, reads `["choices"][0]["message"]["content"]` with serde_json's
/// indexing and `Value::as_str`. Claimed: the outcome depends on `body`
/// alone, and is named `chat_reply_content(body)`; and, by the JSON grammar
/// (RFC 8259) that serde_json parses, a minimal reply whose text needs no
/// escaping is JSON whose content is that text, character for character.
#[verifier::external_body]
fn reply_content(body: &str) -> (r: Option<Option<String>>)
    ensures
        reply_view(r) == chat_reply_content(body@),
        forall|text: Seq<char>|
            is_plain_json_text(text) && body@ == #[trigger] minimal_reply(text) ==> reply_view(r) == Some(
                Some(text),
            ),
{
    let value: serde_json::Value = match serde_json::from_str(body) {
        Ok(v) => v,
        Err(_) => return None,
    };
    Some(value["choices"][0]["message"]["content"].as_str().map(str::to_owned))
}

/// An HTTP status in the success class `200..=299`.
pub open spec fn is_success_status(status: u16) -> bool {
    200 <= status <= 299
}

/// The error reported for a reply with status `status_text` that is not a
/// success, carrying the reply body.
pub open spec fn status_failure_message(status_text: Seq<char>, body: Seq<char>) -> Seq<char> {
    STATUS_FAILURE_PREFIX@ + status_text + STATUS_FAILURE_SEPARATOR@ + body
}

/// Interprets the endpoint's reply to the request for page `page_index`:
/// `status` is the HTTP status code, `status_text` how it is displayed
/// (such as "404 Not Found") and `body` the reply body. A status outside the
/// success class is an error carrying status and body; otherwise the body
/// must be JSON with a string at `choices[0].message.content`, which is the
/// page's text.
pub fn interpret_reply(status: u16, status_text: &str, body: &str, page_index: u32) -> (r: Result<
    OcrPageResult,
    String,
>)
    ensures
        !is_success_status(status) ==> (r matches Err(m) && m@ == status_failure_message(
            status_text@,
            body@,
        )),
        is_success_status(status) ==> match chat_reply_content(body@) {
            None => (r matches Err(m) && m@ == REPLY_NOT_JSON@),
            Some(None) => (r matches Err(m) && m@ == REPLY_WITHOUT_CONTENT@),
            Some(Some(c)) => (r matches Ok(res) && res.page_index == page_index && res.text@ == c),
        },
        forall|text: Seq<char>|
            is_success_status(status) && is_plain_json_text(text) && body@ == #[trigger] minimal_reply(text)
                ==> (r matches Ok(res) && res.page_index == page_index && res.text@ == text),
{
    if status < 200 || status > 299 {
        let mut message = STATUS_FAILURE_PREFIX.to_owned();
        message.append(status_text);
        message.append(STATUS_FAILURE_SEPARATOR);
        message.append(body);
        return Err(message);
    }
    match reply_content(body) {
        None => Err(REPLY_NOT_JSON.to_owned()),
        Some(None) => Err(REPLY_WITHOUT_CONTENT.to_owned()),
        Some(Some(text)) => Ok(OcrPageResult { page_index, text }),
    }
}

/// Construction parameters of the vision-endpoint OCR backend.
pub struct LlamaServerConfig {
    endpoint: String,
    prompt: String,
    timeout: Duration,
    max_tokens: u32,
}

/// Builds a [`LlamaServerConfig`]; the endpoint must be set, the other
/// fields have defaults.
pub struct LlamaServerConfigBuilder {
    endpoint: Option<String>,
    prompt: Option<String>,
    timeout: Option<Duration>,
    max_tokens: Option<u32>,
}

impl LlamaServerConfig {
    /// A builder with no field set.
    pub fn builder() -> (b: LlamaServerConfigBuilder)
        ensures
            b.endpoint_value() is None,
            b.prompt_value() is None,
            b.timeout_value() is None,
            b.max_tokens_value() is None,
    {
        LlamaServerConfigBuilder { endpoint: None, prompt: None, timeout: None, max_tokens: None }
    }

    /// The endpoint, as a spec value.
    pub closed spec fn endpoint_view(&self) -> Seq<char> {
        self.endpoint@
    }

    /// The prompt, as a spec value.
    pub closed spec fn prompt_view(&self) -> Seq<char> {
        self.prompt@
    }

    /// The timeout, as a spec value.
    pub closed spec fn timeout_value(&self) -> Duration {
        self.timeout
    }

    /// The token limit, as a spec value.
    pub closed spec fn max_tokens_value(&self) -> u32 {
        self.max_tokens
    }

    /// Full URL of the chat-completions endpoint.
    pub fn endpoint(&self) -> (r: &str)
        ensures
            r@ == self.endpoint_view(),
    {
        self.endpoint.as_str()
    }

    /// Instruction sent to the model alongside the image.
    pub fn prompt(&self) -> (r: &str)
        ensures
            r@ == self.prompt_view(),
    {
        self.prompt.as_str()
    }

    /// Per-request timeout.
    pub fn timeout(&self) -> (r: Duration)
        ensures
            r == self.timeout_value(),
    {
        self.timeout
    }

    /// Maximum tokens generated per page.
    pub fn max_tokens(&self) -> (r: u32)
        ensures
            r == self.max_tokens_value(),
    {
        self.max_tokens
    }
}

impl LlamaServerConfigBuilder {
    /// The endpoint set so far.
    pub closed spec fn endpoint_value(&self) -> Option<Seq<char>> {
        match self.endpoint {
            Some(e) => Some(e@),
            None => None,
        }
    }

    /// The prompt set so far.
    pub closed spec fn prompt_value(&self) -> Option<Seq<char>> {
        match self.prompt {
            Some(p) => Some(p@),
            None => None,
        }
    }

    /// The timeout set so far.
    pub closed spec fn timeout_value(&self) -> Option<Duration> {
        self.timeout
    }

    /// The token limit set so far.
    pub closed spec fn max_tokens_value(&self) -> Option<u32> {
        self.max_tokens
    }

    /// Sets the full URL of the chat-completions endpoint.
    pub fn endpoint(self, endpoint: &str) -> (b: LlamaServerConfigBuilder)
        ensures
            b.endpoint_value() == Some(endpoint@),
            b.prompt_value() == self.prompt_value(),
            b.timeout_value() == self.timeout_value(),
            b.max_tokens_value() == self.max_tokens_value(),
    {
        LlamaServerConfigBuilder { endpoint: Some(endpoint.to_owned()), ..self }
    }

    /// Sets the instruction sent alongside the image.
    pub fn prompt(self, prompt: &str) -> (b: LlamaServerConfigBuilder)
        ensures
            b.endpoint_value() == self.endpoint_value(),
            b.prompt_value() == Some(prompt@),
            b.timeout_value() == self.timeout_value(),
            b.max_tokens_value() == self.max_tokens_value(),
    {
        LlamaServerConfigBuilder { prompt: Some(prompt.to_owned()), ..self }
    }

    /// Sets the per-request timeout.
    pub fn timeout(self, timeout: Duration) -> (b: LlamaServerConfigBuilder)
        ensures
            b.endpoint_value() == self.endpoint_value(),
            b.prompt_value() == self.prompt_value(),
            b.timeout_value() == Some(timeout),
            b.max_tokens_value() == self.max_tokens_value(),
    {
        LlamaServerConfigBuilder { timeout: Some(timeout), ..self }
    }

    /// Sets the maximum tokens generated per page.
    pub fn max_tokens(self, max_tokens: u32) -> (b: LlamaServerConfigBuilder)
        ensures
            b.endpoint_value() == self.endpoint_value(),
            b.prompt_value() == self.prompt_value(),
            b.timeout_value() == self.timeout_value(),
            b.max_tokens_value() == Some(max_tokens),
    {
        LlamaServerConfigBuilder { max_tokens: Some(max_tokens), ..self }
    }

    /// The configuration: each field as set, or its default (prompt
    /// "Text Recognition:", 120 seconds, 4096 tokens). The endpoint has no default.
    pub fn build(self) -> (c: LlamaServerConfig)
        requires
            self.endpoint_value() is Some,
        ensures
            c.endpoint_view() == self.endpoint_value()->0,
            c.prompt_view() == (match self.prompt_value() {
                Some(p) => p,
                None => DEFAULT_PROMPT@,
            }),
            self.timeout_value() matches Some(t) ==> c.timeout_value() == t,
            self.timeout_value() is None ==> duration_as_nanos(c.timeout_value())
                == DEFAULT_TIMEOUT_SECS as int * 1_000_000_000,
            c.max_tokens_value() == (match self.max_tokens_value() {
                Some(m) => m,
                None => DEFAULT_MAX_TOKENS,
            }),
    {
        let prompt = match self.prompt {
            Some(p) => p,
            None => DEFAULT_PROMPT.to_owned(),
        };
        let timeout = match self.timeout {
            Some(t) => t,
            None => duration_from_secs(DEFAULT_TIMEOUT_SECS),
        };
        let max_tokens = match self.max_tokens {
            Some(m) => m,
            None => DEFAULT_MAX_TOKENS,
        };
        LlamaServerConfig { endpoint: self.endpoint.unwrap(), prompt, timeout, max_tokens }
    }
}

} // verus!
