//! A typed client library for a text-to-speech provider's REST API.
//!
//! The library describes every HTTP exchange as plain values: a request
//! plan (method, URL, query, headers and body) and the response's status and
//! body. The code that owns the network connection sends the plan and hands
//! the response back, and the library decides what the caller receives.
pub mod config;
pub mod error;
pub mod http;
pub mod logging;
pub mod tts;
pub mod user;
pub mod voices;

pub use config::{load_api_key, load_api_url, Config, EnvValue, API_KEY_VAR, API_URL_VAR};
pub use error::{render_decimal, UtilsError};
pub use http::{
    authorize, create_request, expect_success, FormPart, HttpRequest, HttpResponse, Method,
    NameValue, RequestBody, API_KEY_HEADER,
};
pub use logging::{log_error, log_info, log_warning, Level, LogEntry, Logger};
pub use tts::{PronunciationDictionaryLocator, TextToSpeechClient, TtsRequest, VoiceSettings};
pub use user::{NextInvoiceDetails, SubscriptionInfo, UserClient, UserInfo};
pub use voices::{voice_form, VoiceMetadata, VoicesClient};
