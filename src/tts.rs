use crate::config::Config;
use crate::error::UtilsError;
use crate::http::{
    authorize, expect_success, header_value_ok, outcome_spec, HttpRequest, HttpResponse,
    Method, NameValue, RequestBody, API_KEY_HEADER,
};
use vstd::prelude::*;

verus! {

/// Settings that tune a voice.
#[derive(Debug)]
pub struct VoiceSettings {
    pub stability: i32,
    pub similarity_boost: i32,
    pub style: Option<i32>,
    pub use_speaker_boost: Option<bool>,
}

/// A pronunciation dictionary to apply to the text; the locators of one
/// request are applied in order.
#[derive(Debug)]
pub struct PronunciationDictionaryLocator {
    pub pronunciation_dictionary_id: String,
    pub version_id: String,
}

/// What to synthesize, and how.
#[derive(Debug)]
pub struct TtsRequest {
    pub text: String,
    pub model_id: Option<String>,
    pub voice_settings: Option<VoiceSettings>,
    pub pronunciation_dictionary_locators: Option<Vec<PronunciationDictionaryLocator>>,
}

/// A client for the text-to-speech endpoint.
pub struct TextToSpeechClient {
    pub config: Config,
}

/// `base/v1/text-to-speech/<voice_id>`.
pub open spec fn synthesis_url(base: Seq<char>, voice_id: Seq<char>) -> Seq<char> {
    base + "/v1/text-to-speech/"@ + voice_id
}

/// The headers of a synthesis request, before the API key.
pub open spec fn synthesis_headers() -> Seq<(Seq<char>, Seq<char>)> {
    seq![("Accept"@, "audio/mpeg"@), ("Content-Type"@, "application/json"@)]
}

impl TextToSpeechClient {
    pub fn new(config: Config) -> (r: TextToSpeechClient)
        ensures
            r.config == config,
    {
        TextToSpeechClient { config }
    }

    /// The request that synthesizes speech in the voice `voice_id`; `body` is
    /// the `TtsRequest` encoded as JSON.
    pub fn synthesize_request(&self, voice_id: &str, body: Vec<u8>) -> (r: Result<
        HttpRequest,
        UtilsError,
    >)
        ensures
            r is Ok <==> header_value_ok(self.config.api_key@),
            r is Err ==> r == Err::<HttpRequest, UtilsError>(UtilsError::InvalidApiKey),
            r matches Ok(req) ==> {
                &&& req.method == Method::Post
                &&& req.url@ == synthesis_url(self.config.api_url@, voice_id@)
                &&& req.query@.len() == 0
                &&& req.headers_view() == synthesis_headers().push(
                    (API_KEY_HEADER@, self.config.api_key@),
                )
                &&& req.carries_api_key(self.config.api_key@)
                &&& req.body == RequestBody::Json(body)
            },
    {
        let url = String::from_str(self.config.api_url.as_str()).concat("/v1/text-to-speech/").concat(
            voice_id,
        );
        let mut headers: Vec<NameValue> = Vec::new();
        headers.push(NameValue::new("Accept", "audio/mpeg"));
        headers.push(NameValue::new("Content-Type", "application/json"));
        let req = HttpRequest {
            method: Method::Post,
            url,
            query: Vec::new(),
            headers,
            body: RequestBody::Json(body),
        };
        assert(req.headers_view() =~= synthesis_headers());
        authorize(req, self.config.api_key.as_str())
    }

    /// What synthesis gives: the audio bytes of a successful response,
    /// exactly as received, or the error.
    pub fn synthesize_outcome(&self, outcome: Result<HttpResponse, String>) -> (r: Result<
        Vec<u8>,
        UtilsError,
    >)
        ensures
            match (r, outcome_spec(outcome)) {
                (Ok(b), Ok(s)) => b@ == s,
                (Err(e), Err(s)) => e == s,
                _ => false,
            },
    {
        expect_success(outcome)
    }
}

} // verus!
