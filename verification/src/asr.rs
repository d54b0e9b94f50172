//! The batch recognizer clients. The HTTP requests themselves are sent
//! by the process around the library; here live the parts that decide
//! and compute: the hot-word corpus, the base64 audio payload, the
//! reading of each backend's reply, the trailing-punctuation strip, the
//! dictionary-echo guard of the Qwen backend, and the bounded retry.
//!
//! What the outside crates compute for these functions — the base64
//! encoding, the JSON field lookup in a reply body, a fresh request
//! identifier — is reached through the trusted items below and nowhere
//! else.

use vstd::prelude::*;

use base64::Engine;

use crate::config::AsrConfig;
use crate::config::AsrProvider;

verus! {

/// Retries a batch client makes after its first failed attempt.
pub const CLIENT_MAX_RETRIES: u32 = 2;

/// Samples per streamed audio chunk: 200 milliseconds at 16 kHz.
pub const REALTIME_CHUNK_SAMPLES: usize = 3200;

/// Why a recognizer's reply was rejected by the client.
#[derive(Clone, Copy, Debug, PartialEq, Eq, Structural)]
pub enum AsrError {
    /// The reply did not hold a transcript where one was expected.
    MalformedResponse,
    /// The backend echoed the hot-word dictionary: the recording carried
    /// no speech.
    EmptyRecording,
    /// The backend reported failure in its status header.
    BackendRejected,
}

// ===========================================================================
// Joining and stripping
// ===========================================================================

/// The parts joined by the separator: empty for no parts, and otherwise
/// the parts in order with the separator between neighbours.
pub open spec fn spec_joined(parts: Seq<Seq<char>>, sep: Seq<char>) -> Seq<char>
    decreases parts.len(),
{
    if parts.len() == 0 {
        Seq::empty()
    } else if parts.len() == 1 {
        parts[0]
    } else {
        spec_joined(parts.drop_last(), sep) + sep + parts.last()
    }
}

/// Joins the words with the separator.
pub fn join_words(words: &Vec<String>, sep: &str) -> (r: String)
    ensures
        r@ == spec_joined(words.deep_view(), sep@),
{
    let ghost parts = words.deep_view();
    let mut out = String::new();
    let mut i: usize = 0;
    while i < words.len()
        invariant
            0 <= i <= words@.len(),
            parts == words.deep_view(),
            parts.len() == words@.len(),
            out@ == spec_joined(parts.subrange(0, i as int), sep@),
        decreases words@.len() - i,
    {
        if i > 0 {
            out.append(sep);
        }
        out.append(words[i].as_str());
        proof {
            let pre = parts.subrange(0, i as int);
            let cur = parts.subrange(0, i + 1 as int);
            assert(parts[i as int] == words@[i as int]@);
            if i == 0 {
                assert(cur =~= seq![parts[0]]);
            } else {
                assert(cur.drop_last() =~= pre);
                assert(cur.last() == parts[i as int]);
            }
        }
        i = i + 1;
    }
    proof {
        assert(parts.subrange(0, words@.len() as int) =~= parts);
    }
    out
}

/// The punctuation every client strips from the end of a transcript.
pub open spec fn spec_is_trailing_punctuation(c: char) -> bool {
    c == '。' || c == '，' || c == '、' || c == '！' || c == '？' || c == '；' || c == '：' || c
        == '.' || c == ',' || c == '!' || c == '?' || c == ';' || c == ':'
}

/// The text with every trailing punctuation character removed.
pub open spec fn spec_stripped(s: Seq<char>) -> Seq<char>
    decreases s.len(),
{
    if s.len() > 0 && spec_is_trailing_punctuation(s.last()) {
        spec_stripped(s.drop_last())
    } else {
        s
    }
}

/// Whether the character is punctuation that a transcript may not end in.
pub fn is_trailing_punctuation(c: char) -> (r: bool)
    ensures
        r == spec_is_trailing_punctuation(c),
{
    c == '。' || c == '，' || c == '、' || c == '！' || c == '？' || c == '；' || c == '：' || c
        == '.' || c == ',' || c == '!' || c == '?' || c == ';' || c == ':'
}

/// Removes every trailing punctuation character from the text.
pub fn strip_trailing_punctuation(text: &str) -> (r: String)
    ensures
        r@ == spec_stripped(text@),
{
    let n = text.unicode_len();
    proof {
        assert(text@.subrange(0, n as int) =~= text@);
    }
    let mut end: usize = n;
    while end > 0 && is_trailing_punctuation(text.get_char(end - 1))
        invariant
            0 <= end <= n,
            n == text@.len(),
            spec_stripped(text@) == spec_stripped(text@.subrange(0, end as int)),
        decreases end,
    {
        proof {
            let cur = text@.subrange(0, end as int);
            assert(cur.last() == text@[end - 1]);
            assert(cur.drop_last() =~= text@.subrange(0, end - 1));
        }
        end = end - 1;
    }
    proof {
        let cur = text@.subrange(0, end as int);
        if end > 0 {
            assert(cur.last() == text@[end - 1]);
        }
        assert(spec_stripped(cur) == cur);
    }
    let out = text.substring_char(0, end);
    out.to_owned()
}

// ===========================================================================
// Trusted items: what the outside crates compute
// ===========================================================================

/// The base64 encoding (standard alphabet, padded) of the bytes.
pub uninterp spec fn b64_of(bytes: Seq<u8>) -> Seq<char>;

/// Relies on base64's `Engine::encode` with the standard padded engine:
/// the encoding is a function of the bytes alone, four characters for
/// every started group of three bytes.
#[verifier::external_body]
fn base64_encode(bytes: &Vec<u8>) -> (r: String)
    ensures
        r@ == b64_of(bytes@),
        r@.len() == 4 * ((bytes@.len() + 2) / 3),
{
    base64::engine::general_purpose::STANDARD.encode(bytes)
}

/// The transcript inside a Qwen reply body, when the body parses as JSON
/// and carries one at `output.choices[0].message.content[0].text`.
pub uninterp spec fn qwen_reply_text(body: Seq<char>) -> Option<Seq<char>>;

/// Relies on serde_json's `from_str`, `Value::get` and `Value::as_str`:
/// parses the reply body and pulls the transcript string out of
/// `output.choices[0].message.content[0].text`; the result is a function
/// of the body alone.
#[verifier::external_body]
fn extract_qwen_transcript(body: &str) -> (r: Option<String>)
    ensures
        r.deep_view() == qwen_reply_text(body@),
{
    let parsed: serde_json::Value = serde_json::from_str(body).ok()?;
    let text = parsed.get("output")?.get("choices")?.get(0)?.get("message")?.get("content")?.get(
        0,
    )?.get("text")?.as_str()?;
    Some(text.to_string())
}

/// The transcript inside a Doubao reply body, when the body parses as
/// JSON and carries one at `result.text`.
pub uninterp spec fn doubao_reply_text(body: Seq<char>) -> Option<Seq<char>>;

/// Relies on serde_json's `from_str`, `Value::get` and `Value::as_str`:
/// parses the reply body and pulls the transcript string out of
/// `result.text`; the result is a function of the body alone.
#[verifier::external_body]
fn extract_doubao_transcript(body: &str) -> (r: Option<String>)
    ensures
        r.deep_view() == doubao_reply_text(body@),
{
    let parsed: serde_json::Value = serde_json::from_str(body).ok()?;
    let text = parsed.get("result")?.get("text")?.as_str()?;
    Some(text.to_string())
}

/// Relies on `uuid::Uuid::new_v4` and its hyphenated display form: a
/// fresh random identifier of 36 characters; nothing further can be
/// promised of a random value.
#[verifier::external_body]
fn fresh_uuid_string() -> (r: String)
    ensures
        r@.len() == 36,
{
    uuid::Uuid::new_v4().to_string()
}

// ===========================================================================
// Qwen batch client
// ===========================================================================

/// The Qwen batch client: one HTTP call per attempt, a hot-word corpus
/// in the system message, and the dictionary-echo guard on the reply.
#[derive(Clone, Debug)]
pub struct QwenASRClient {
    /// Bearer token of the backend.
    pub api_key: String,
    /// Retries after the first failed attempt.
    pub max_retries: u32,
    /// The hot words handed to the backend.
    pub dictionary: Vec<String>,
}

impl QwenASRClient {
    /// A client for this key and dictionary, with the stock retry bound.
    pub fn new(api_key: String, dictionary: Vec<String>) -> (r: Self)
        ensures
            r.api_key == api_key,
            r.max_retries == CLIENT_MAX_RETRIES,
            r.dictionary == dictionary,
    {
        QwenASRClient { api_key, max_retries: CLIENT_MAX_RETRIES, dictionary }
    }

    /// Replaces the hot words.
    pub fn update_dictionary(&mut self, dictionary: Vec<String>)
        ensures
            final(self).dictionary == dictionary,
            final(self).api_key == old(self).api_key,
            final(self).max_retries == old(self).max_retries,
    {
        self.dictionary = dictionary;
    }

    /// The corpus text the backend receives: the dictionary joined by
    /// the enumeration comma.
    pub fn corpus_text(&self) -> (r: String)
        ensures
            r@ == spec_joined(self.dictionary.deep_view(), "、"@),
    {
        join_words(&self.dictionary, "、")
    }

    /// The audio content of the request: the recording as a base64 data
    /// URL.
    pub fn audio_payload(&self, audio: &Vec<u8>) -> (r: String)
        ensures
            r@ == "data:audio/wav;base64,"@ + b64_of(audio@),
    {
        let mut out: String = "data:audio/wav;base64,".to_owned();
        let encoded = base64_encode(audio);
        out.append(encoded.as_str());
        out
    }

    /// Reads one reply body: a missing transcript is malformed; the
    /// transcript is stripped of trailing punctuation; and a non-empty
    /// corpus echoed back verbatim means the recording carried no speech
    /// and is rejected, exactly then.
    pub fn parse_response_body(&self, body: &str) -> (r: Result<String, AsrError>)
        ensures
            qwen_reply_text(body@) is None ==> r == Err::<String, _>(AsrError::MalformedResponse),
            qwen_reply_text(body@) matches Some(t) ==> {
                let stripped = spec_stripped(t);
                let corpus = spec_joined(self.dictionary.deep_view(), "、"@);
                &&& corpus.len() > 0 && stripped == corpus ==> r == Err::<String, _>(
                    AsrError::EmptyRecording,
                )
                &&& !(corpus.len() > 0 && stripped == corpus) ==> (r matches Ok(out) && out@
                    == stripped)
            },
    {
        let extracted = extract_qwen_transcript(body);
        match extracted {
            None => Err(AsrError::MalformedResponse),
            Some(text) => {
                let stripped = strip_trailing_punctuation(text.as_str());
                let corpus = self.corpus_text();
                if !corpus.as_str().is_empty() && stripped == corpus {
                    Err(AsrError::EmptyRecording)
                } else {
                    Ok(stripped)
                }
            },
        }
    }

    /// Whether a failed attempt is followed by another, after the retry
    /// delay: it is while attempts remain.
    pub fn retry_after_failure(&self, attempts_made: u32) -> (r: bool)
        ensures
            r == (attempts_made < self.max_retries),
    {
        attempts_made < self.max_retries
    }
}

// ===========================================================================
// Doubao batch client
// ===========================================================================

/// What a Doubao request needs beyond the credentials: the encoded audio
/// and a fresh identifier for the request headers.
#[derive(Clone, Debug)]
pub struct DoubaoRequestParts {
    /// The recording, base64-encoded.
    pub audio_base64: String,
    /// The per-request identifier.
    pub request_id: String,
}

/// The Doubao batch client: a key pair, a hot-word context, a status
/// header that decides success, and the same bounded retry every batch
/// client gets.
#[derive(Clone, Debug)]
pub struct DoubaoASRClient {
    /// Application id of the key pair.
    pub app_id: String,
    /// Access key of the key pair.
    pub access_key: String,
    /// Retries after the first failed attempt.
    pub max_retries: u32,
    /// The hot words handed to the backend.
    pub dictionary: Vec<String>,
}

impl DoubaoASRClient {
    /// A client for this key pair and dictionary, with the stock retry
    /// bound.
    pub fn new(app_id: String, access_key: String, dictionary: Vec<String>) -> (r: Self)
        ensures
            r.app_id == app_id,
            r.access_key == access_key,
            r.max_retries == CLIENT_MAX_RETRIES,
            r.dictionary == dictionary,
    {
        DoubaoASRClient { app_id, access_key, max_retries: CLIENT_MAX_RETRIES, dictionary }
    }

    /// Replaces the hot words.
    pub fn update_dictionary(&mut self, dictionary: Vec<String>)
        ensures
            final(self).dictionary == dictionary,
            final(self).app_id == old(self).app_id,
            final(self).access_key == old(self).access_key,
            final(self).max_retries == old(self).max_retries,
    {
        self.dictionary = dictionary;
    }

    /// Whether a failed attempt is followed by another, after the retry
    /// delay: it is while attempts remain.
    pub fn retry_after_failure(&self, attempts_made: u32) -> (r: bool)
        ensures
            r == (attempts_made < self.max_retries),
    {
        attempts_made < self.max_retries
    }

    /// Prepares one request: the audio encoded, and a fresh identifier.
    pub fn prepare_request(&self, audio: &Vec<u8>) -> (r: DoubaoRequestParts)
        ensures
            r.audio_base64@ == b64_of(audio@),
            r.request_id@.len() == 36,
    {
        DoubaoRequestParts { audio_base64: base64_encode(audio), request_id: fresh_uuid_string() }
    }

    /// Reads the backend's status header: only `20000000` is success.
    pub fn check_status(&self, status_code: &String) -> (r: Result<(), AsrError>)
        ensures
            r is Ok <==> status_code@ == "20000000"@,
            status_code@ != "20000000"@ ==> r == Err::<(), _>(AsrError::BackendRejected),
    {
        let expected: String = "20000000".to_owned();
        if *status_code == expected {
            Ok(())
        } else {
            Err(AsrError::BackendRejected)
        }
    }

    /// Reads one reply body: a missing transcript is malformed, and the
    /// transcript is stripped of trailing punctuation.
    pub fn parse_response_body(&self, body: &str) -> (r: Result<String, AsrError>)
        ensures
            doubao_reply_text(body@) is None ==> r == Err::<String, _>(AsrError::MalformedResponse),
            doubao_reply_text(body@) matches Some(t) ==> (r matches Ok(out) && out@
                == spec_stripped(t)),
    {
        let extracted = extract_doubao_transcript(body);
        match extracted {
            None => Err(AsrError::MalformedResponse),
            Some(text) => Ok(strip_trailing_punctuation(text.as_str())),
        }
    }
}

// ===========================================================================
// Choosing and keying the clients
// ===========================================================================

/// The sequence holds the character exactly once.
pub open spec fn spec_exactly_one_char(s: Seq<char>, c: char) -> bool {
    exists|i: int|
        0 <= i < s.len() && s[i] == c && (forall|j: int| 0 <= j < s.len() && j != i ==> s[j] != c)
}

/// Splits a combined `app_id:access_key` credential at its colon. The
/// split succeeds exactly when the string holds exactly one colon; the
/// two parts are what stands before and after it.
pub fn split_app_key(s: &str) -> (r: Option<(String, String)>)
    ensures
        r is Some <==> spec_exactly_one_char(s@, ':'),
        r matches Some(parts) ==> exists|i: int|
            {
                &&& 0 <= i < s@.len()
                &&& s@[i] == ':'
                &&& parts.0@ == s@.subrange(0, i)
                &&& parts.1@ == s@.subrange(i + 1, s@.len() as int)
            },
{
    let n = s.unicode_len();
    let mut i: usize = 0;
    let mut colon_at: Option<usize> = None;
    let mut extra = false;
    while i < n
        invariant
            0 <= i <= n,
            n == s@.len(),
            match colon_at {
                Some(ci) => 0 <= ci < i && s@[ci as int] == ':' && (forall|j: int|
                    0 <= j < i && j != ci ==> s@[j] != ':') && !extra || extra,
                None => !extra && forall|j: int| 0 <= j < i ==> s@[j] != ':',
            },
            extra ==> !spec_exactly_one_char(s@, ':'),
        decreases n - i,
    {
        if s.get_char(i) == ':' {
            match colon_at {
                None => {
                    colon_at = Some(i);
                },
                Some(first) => {
                    if !extra {
                        proof {
                            assert forall|k: int|
                                0 <= k < s@.len() && s@[k] == ':' && (forall|j: int|
                                    0 <= j < s@.len() && j != k ==> s@[j] != ':') implies false by {
                                if k != first as int {
                                    assert(s@[first as int] == ':');
                                } else {
                                    assert(s@[i as int] == ':');
                                }
                            }
                        }
                    }
                    extra = true;
                },
            }
        }
        i = i + 1;
    }
    match colon_at {
        Some(ci) if !extra => {
            let left = s.substring_char(0, ci);
            let right = s.substring_char(ci + 1, n);
            Some((left.to_owned(), right.to_owned()))
        },
        _ => {
            proof {
                if colon_at is None {
                    assert(forall|j: int| 0 <= j < s@.len() ==> s@[j] != ':');
                }
            }
            None
        },
    }
}

/// Which batch clients the application starts, with which credentials.
#[derive(Clone, Debug)]
pub struct ClientPlan {
    /// Key of the Qwen client, where one is to exist.
    pub qwen_key: Option<String>,
    /// Key pair of the Doubao client, where one is to exist.
    pub doubao_creds: Option<(String, String)>,
    /// Key of the SiliconFlow client, where one is to exist.
    pub sensevoice_key: Option<String>,
}

/// A provider entry yields Doubao credentials when it carries the
/// explicit key pair, or when its combined key splits at a single colon.
pub open spec fn spec_doubao_creds_exist(
    app_id: Option<String>,
    access_token: Option<String>,
    api_key: Seq<char>,
) -> bool {
    (app_id is Some && access_token is Some) || spec_exactly_one_char(api_key, ':')
}

/// The credentials a provider entry yields for Doubao: the explicit key
/// pair where both halves exist, otherwise the combined key split at its
/// single colon.
fn doubao_creds_of(
    app_id: &Option<String>,
    access_token: &Option<String>,
    api_key: &String,
) -> (r: Option<(String, String)>)
    ensures
        r is Some <==> spec_doubao_creds_exist(*app_id, *access_token, api_key@),
        app_id matches Some(a) ==> (access_token matches Some(t) ==> (r matches Some(creds)
            && creds.0@ == a@ && creds.1@ == t@)),
{
    match (app_id, access_token) {
        (Some(a), Some(t)) => Some((a.clone(), t.clone())),
        _ => split_app_key(api_key.as_str()),
    }
}

/// Which clients `start_app` creates. Each provider entry fills its
/// client's slot: the primary first, then — only where the fallback is
/// enabled — the fallback entry fills a slot the primary left empty.
/// Without a provider config, the legacy keys stand in: a non-empty
/// primary key makes the Qwen client, a non-empty fallback key the
/// SiliconFlow client.
pub fn plan_asr_clients(
    asr_config: &Option<AsrConfig>,
    api_key: &String,
    fallback_api_key: &String,
) -> (r: ClientPlan)
    ensures
        asr_config is None ==> {
            &&& api_key@.len() > 0 ==> (r.qwen_key matches Some(k) && k@ == api_key@)
            &&& api_key@.len() == 0 ==> r.qwen_key is None
            &&& fallback_api_key@.len() > 0 ==> (r.sensevoice_key matches Some(k) && k@
                == fallback_api_key@)
            &&& fallback_api_key@.len() == 0 ==> r.sensevoice_key is None
            &&& r.doubao_creds is None
        },
        asr_config matches Some(cfg) ==> {
            &&& cfg.primary.provider == AsrProvider::Qwen ==> (r.qwen_key matches Some(k) && k@
                == cfg.primary.api_key@)
            &&& cfg.primary.provider == AsrProvider::SiliconFlow ==> (r.sensevoice_key matches
                Some(k) && k@ == cfg.primary.api_key@)
            &&& cfg.primary.provider == AsrProvider::Doubao && spec_doubao_creds_exist(
                cfg.primary.app_id,
                cfg.primary.access_token,
                cfg.primary.api_key@,
            ) ==> r.doubao_creds is Some
            &&& !cfg.enable_fallback || cfg.fallback is None ==> {
                &&& cfg.primary.provider != AsrProvider::Qwen ==> r.qwen_key is None
                &&& cfg.primary.provider != AsrProvider::SiliconFlow ==> r.sensevoice_key is None
                &&& cfg.primary.provider != AsrProvider::Doubao ==> r.doubao_creds is None
                &&& cfg.primary.provider == AsrProvider::Doubao && !spec_doubao_creds_exist(
                    cfg.primary.app_id,
                    cfg.primary.access_token,
                    cfg.primary.api_key@,
                ) ==> r.doubao_creds is None
            }
            &&& cfg.enable_fallback ==> (cfg.fallback matches Some(fb) ==> {
                &&& fb.provider == AsrProvider::Qwen && cfg.primary.provider != AsrProvider::Qwen
                    ==> (r.qwen_key matches Some(k) && k@ == fb.api_key@)
                &&& fb.provider == AsrProvider::SiliconFlow && cfg.primary.provider
                    != AsrProvider::SiliconFlow ==> (r.sensevoice_key matches Some(k) && k@
                    == fb.api_key@)
                &&& fb.provider == AsrProvider::Doubao && cfg.primary.provider
                    != AsrProvider::Doubao ==> (r.doubao_creds is Some
                    <==> spec_doubao_creds_exist(fb.app_id, fb.access_token, fb.api_key@))
                &&& fb.provider == AsrProvider::Doubao && cfg.primary.provider
                    == AsrProvider::Doubao && !spec_doubao_creds_exist(
                    cfg.primary.app_id,
                    cfg.primary.access_token,
                    cfg.primary.api_key@,
                ) ==> (r.doubao_creds is Some <==> spec_doubao_creds_exist(
                    fb.app_id,
                    fb.access_token,
                    fb.api_key@,
                ))
                &&& cfg.primary.provider != AsrProvider::Qwen && fb.provider != AsrProvider::Qwen
                    ==> r.qwen_key is None
                &&& cfg.primary.provider != AsrProvider::SiliconFlow && fb.provider
                    != AsrProvider::SiliconFlow ==> r.sensevoice_key is None
                &&& cfg.primary.provider != AsrProvider::Doubao && fb.provider
                    != AsrProvider::Doubao ==> r.doubao_creds is None
            })
        },
{
    match asr_config {
        None => {
            let qwen_key: Option<String> = if !api_key.as_str().is_empty() {
                Some(api_key.clone())
            } else {
                None
            };
            let sensevoice_key: Option<String> = if !fallback_api_key.as_str().is_empty() {
                Some(fallback_api_key.clone())
            } else {
                None
            };
            ClientPlan { qwen_key, doubao_creds: None, sensevoice_key }
        },
        Some(cfg) => {
            let mut plan = ClientPlan { qwen_key: None, doubao_creds: None, sensevoice_key: None };
            match cfg.primary.provider {
                AsrProvider::Qwen => {
                    plan.qwen_key = Some(cfg.primary.api_key.clone());
                },
                AsrProvider::Doubao => {
                    plan.doubao_creds = doubao_creds_of(
                        &cfg.primary.app_id,
                        &cfg.primary.access_token,
                        &cfg.primary.api_key,
                    );
                },
                AsrProvider::SiliconFlow => {
                    plan.sensevoice_key = Some(cfg.primary.api_key.clone());
                },
            }
            if cfg.enable_fallback {
                match &cfg.fallback {
                    Some(fb) => {
                        match fb.provider {
                            AsrProvider::Qwen => {
                                if plan.qwen_key.is_none() {
                                    plan.qwen_key = Some(fb.api_key.clone());
                                }
                            },
                            AsrProvider::Doubao => {
                                if plan.doubao_creds.is_none() {
                                    plan.doubao_creds = doubao_creds_of(
                                        &fb.app_id,
                                        &fb.access_token,
                                        &fb.api_key,
                                    );
                                }
                            },
                            AsrProvider::SiliconFlow => {
                                if plan.sensevoice_key.is_none() {
                                    plan.sensevoice_key = Some(fb.api_key.clone());
                                }
                            },
                        }
                    },
                    None => {},
                }
            }
            plan
        },
    }
}

} // verus!
