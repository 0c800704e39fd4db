use elevenlabs::http::FormPart;
use elevenlabs::{
    load_api_key, load_api_url, log_error, log_info, log_warning, render_decimal, voice_form,
    Config, EnvValue, HttpRequest, HttpResponse, Level, Logger, Method, RequestBody, TextToSpeechClient,
    UserClient, UtilsError, VoicesClient,
};

fn config() -> Config {
    Config::new("secret-key", "https://api.example.test")
}

fn header<'a>(req: &'a HttpRequest, name: &str) -> Option<&'a str> {
    req.headers.iter().find(|h| h.name == name).map(|h| h.value.as_str())
}

fn pairs(v: &[elevenlabs::NameValue]) -> Vec<(String, String)> {
    v.iter().map(|p| (p.name.clone(), p.value.clone())).collect()
}

fn response(status: u16, body: Vec<u8>) -> Result<HttpResponse, String> {
    Ok(HttpResponse { status, body })
}

#[test]
fn every_request_carries_the_api_key() {
    let cfg = config();
    let tts = TextToSpeechClient::new(cfg.clone());
    let voices = VoicesClient::new(cfg.clone());
    let user = UserClient::new(cfg.clone());
    let files = vec!["a.mp3"];
    let requests = vec![
        tts.synthesize_request("v1", b"{}".to_vec()).unwrap(),
        voices.get_voice_metadata_request("v1", false).unwrap(),
        voices.delete_voice_request("v1").unwrap(),
        voices.add_voice_request("n", &files, None, None).unwrap(),
        voices.edit_voice_request("v1", "n", &files, None, None).unwrap(),
        voices.edit_voice_settings_request("v1", b"{}".to_vec()).unwrap(),
        user.user_info_request().unwrap(),
        user.user_subscription_info_request().unwrap(),
    ];
    for req in &requests {
        assert_eq!(header(req, "xi-api-key"), Some("secret-key"));
    }
}

#[test]
fn synthesize_returns_body_on_success() {
    let tts = TextToSpeechClient::new(config());
    let r = tts.synthesize_outcome(response(200, vec![0, 1]));
    assert_eq!(r.unwrap(), vec![0u8, 1]);
}

#[test]
fn synthesize_reports_unauthorized() {
    let tts = TextToSpeechClient::new(config());
    let err = tts.synthesize_outcome(response(401, b"nope".to_vec())).unwrap_err();
    assert_eq!(err.status(), Some(401));
    assert!(err.message().contains("401"));
    assert!(matches!(err, UtilsError::Status { code: 401, ref body } if body == b"nope"));
}

#[test]
fn synthesize_request_shape() {
    let tts = TextToSpeechClient::new(config());
    let req = tts.synthesize_request("voice42", b"{\"text\":\"hi\"}".to_vec()).unwrap();
    assert_eq!(req.method, Method::Post);
    assert_eq!(req.url, "https://api.example.test/v1/text-to-speech/voice42");
    assert_eq!(
        pairs(&req.headers),
        vec![
            ("Accept".to_string(), "audio/mpeg".to_string()),
            ("Content-Type".to_string(), "application/json".to_string()),
            ("xi-api-key".to_string(), "secret-key".to_string()),
        ]
    );
    assert!(matches!(req.body, RequestBody::Json(ref b) if b == b"{\"text\":\"hi\"}"));
}

#[test]
fn metadata_request_has_with_settings_query() {
    let voices = VoicesClient::new(config());
    let req = voices.get_voice_metadata_request("abc", true).unwrap();
    assert_eq!(req.method, Method::Get);
    assert_eq!(req.url, "https://api.example.test/v1/voices/abc");
    assert_eq!(pairs(&req.query), vec![("with_settings".to_string(), "true".to_string())]);
    let req = voices.get_voice_metadata_request("abc", false).unwrap();
    assert_eq!(pairs(&req.query), vec![("with_settings".to_string(), "false".to_string())]);
    assert_eq!(header(&req, "Accept"), Some("application/json"));
}

#[test]
fn delete_voice_succeeds_on_no_content() {
    let voices = VoicesClient::new(config());
    assert!(voices.delete_voice_outcome(response(204, Vec::new())).is_ok());
}

#[test]
fn delete_voice_fails_on_not_found() {
    let voices = VoicesClient::new(config());
    let err = voices.delete_voice_outcome(response(404, Vec::new())).unwrap_err();
    assert_eq!(err.status(), Some(404));
}

#[test]
fn delete_voice_request_shape() {
    let voices = VoicesClient::new(config());
    let req = voices.delete_voice_request("xyz").unwrap();
    assert_eq!(req.method, Method::Delete);
    assert_eq!(req.url, "https://api.example.test/v1/voices/xyz");
    assert!(req.query.is_empty());
    assert!(matches!(req.body, RequestBody::Empty));
}

#[test]
fn load_api_key_absent_and_present() {
    let err = load_api_key(EnvValue::Absent).unwrap_err();
    assert!(matches!(err, UtilsError::NotSet(ref v) if v == "ELEVENLABS_API_KEY"));
    assert!(err.message().contains("not set"));
    assert_eq!(load_api_key(EnvValue::Present("k-123".to_string())).unwrap(), "k-123");
}

#[test]
fn load_api_key_not_unicode() {
    let err = load_api_key(EnvValue::NotUnicode("k\u{fffd}".to_string())).unwrap_err();
    assert!(matches!(
        err,
        UtilsError::NotUnicode { ref name, ref value } if name == "ELEVENLABS_API_KEY" && value == "k\u{fffd}"
    ));
    assert_eq!(err.message(), "ELEVENLABS_API_KEY is not valid Unicode");
}

#[test]
fn load_api_url_absent_and_present() {
    let err = load_api_url(EnvValue::Absent).unwrap_err();
    assert!(matches!(err, UtilsError::NotSet(ref v) if v == "ELEVENLABS_API_URL"));
    assert_eq!(load_api_url(EnvValue::Present("https://x".to_string())).unwrap(), "https://x");
    let err = load_api_url(EnvValue::NotUnicode("x".to_string())).unwrap_err();
    assert!(matches!(err, UtilsError::NotUnicode { ref name, .. } if name == "ELEVENLABS_API_URL"));
}

#[test]
fn config_from_env_values() {
    let present = |s: &str| EnvValue::Present(s.to_string());
    let c = Config::from_env_values(present("k"), present("u")).unwrap();
    assert_eq!(c.api_key, "k");
    assert_eq!(c.api_url, "u");
    let e = Config::from_env_values(EnvValue::Absent, EnvValue::Absent).unwrap_err();
    assert!(matches!(e, UtilsError::NotSet(ref v) if v == "ELEVENLABS_API_KEY"));
    let e = Config::from_env_values(present("k"), EnvValue::Absent).unwrap_err();
    assert!(matches!(e, UtilsError::NotSet(ref v) if v == "ELEVENLABS_API_URL"));
    let e = Config::from_env_values(EnvValue::NotUnicode("?".to_string()), present("u")).unwrap_err();
    assert!(matches!(e, UtilsError::NotUnicode { ref name, .. } if name == "ELEVENLABS_API_KEY"));
    let e = Config::from_env_values(present("k"), EnvValue::NotUnicode("?".to_string())).unwrap_err();
    assert!(matches!(e, UtilsError::NotUnicode { ref name, .. } if name == "ELEVENLABS_API_URL"));
}

#[test]
fn status_boundaries() {
    let tts = TextToSpeechClient::new(config());
    for ok in [200u16, 201, 204, 299] {
        assert!(tts.synthesize_outcome(response(ok, vec![7])).is_ok(), "{}", ok);
    }
    for bad in [0u16, 99, 100, 199, 300, 404, 500, 999, 1000, 65535] {
        let err = tts.synthesize_outcome(response(bad, vec![7])).unwrap_err();
        assert_eq!(err.status(), Some(bad));
    }
}

#[test]
fn transport_failure_is_http_error() {
    let voices = VoicesClient::new(config());
    let err = voices.get_voice_metadata_outcome(Err("connection refused".to_string())).unwrap_err();
    assert!(matches!(err, UtilsError::Http(ref m) if m == "connection refused"));
    assert_eq!(err.message(), "HTTP Error: connection refused");
}

#[test]
fn invalid_api_key_is_refused() {
    let cfg = Config::new("bad\nkey", "https://api.example.test");
    let voices = VoicesClient::new(cfg.clone());
    assert!(matches!(voices.delete_voice_request("v"), Err(UtilsError::InvalidApiKey)));
    let tts = TextToSpeechClient::new(cfg);
    assert!(matches!(tts.synthesize_request("v", Vec::new()), Err(UtilsError::InvalidApiKey)));
    let del = Config::new("bad\u{7f}", "u");
    assert!(UserClient::new(del).user_info_request().is_err());
}

#[test]
fn unusual_but_valid_api_keys_are_kept() {
    for key in ["", "tab\tkey", "caf\u{e9}", "~ !"] {
        let user = UserClient::new(Config::new(key, "u"));
        let req = user.user_info_request().unwrap();
        assert_eq!(header(&req, "xi-api-key"), Some(key));
    }
}

#[test]
fn voice_form_order() {
    let files = vec!["one.mp3", "two.mp3"];
    let form = voice_form("My voice", &files, Some("desc"), Some("{\"a\":\"b\"}"));
    let shape: Vec<(bool, String, String)> = form
        .iter()
        .map(|p| match p {
            FormPart::Text { name, value } => (false, name.clone(), value.clone()),
            FormPart::File { name, path } => (true, name.clone(), path.clone()),
        })
        .collect();
    assert_eq!(
        shape,
        vec![
            (false, "name".to_string(), "My voice".to_string()),
            (true, "files".to_string(), "one.mp3".to_string()),
            (true, "files".to_string(), "two.mp3".to_string()),
            (false, "description".to_string(), "desc".to_string()),
            (false, "labels".to_string(), "{\"a\":\"b\"}".to_string()),
        ]
    );
}

#[test]
fn voice_form_without_options_or_files() {
    let form = voice_form("n", &Vec::new(), None, None);
    assert_eq!(form.len(), 1);
    assert!(matches!(&form[0], FormPart::Text { name, value } if name == "name" && value == "n"));
}

#[test]
fn add_and_edit_voice_requests() {
    let voices = VoicesClient::new(config());
    let files = vec!["f.wav"];
    let add = voices.add_voice_request("n", &files, Some("d"), None).unwrap();
    assert_eq!(add.method, Method::Post);
    assert_eq!(add.url, "https://api.example.test/v1/voices/add");
    assert_eq!(pairs(&add.headers), vec![("xi-api-key".to_string(), "secret-key".to_string())]);
    assert!(matches!(add.body, RequestBody::Multipart(ref f) if f.len() == 3));
    let edit = voices.edit_voice_request("v9", "n", &files, None, Some("l")).unwrap();
    assert_eq!(edit.url, "https://api.example.test/v1/voices/v9/edit");
    assert!(matches!(edit.body, RequestBody::Multipart(ref f) if f.len() == 3));
    let ok = voices.add_voice_outcome(response(200, b"new-id".to_vec())).unwrap();
    assert_eq!(ok, b"new-id".to_vec());
    assert!(voices.edit_voice_outcome(response(200, Vec::new())).is_ok());
    assert_eq!(voices.edit_voice_outcome(response(422, Vec::new())).unwrap_err().status(), Some(422));
}

#[test]
fn edit_voice_settings_request_shape() {
    let voices = VoicesClient::new(config());
    let req = voices.edit_voice_settings_request("v2", b"{\"stability\":1}".to_vec()).unwrap();
    assert_eq!(req.method, Method::Post);
    assert_eq!(req.url, "https://api.example.test/v1/voices/v2/settings/edit");
    assert_eq!(
        pairs(&req.headers),
        vec![
            ("Content-Type".to_string(), "application/json".to_string()),
            ("xi-api-key".to_string(), "secret-key".to_string()),
        ]
    );
    assert!(voices.edit_voice_settings_outcome(response(200, Vec::new())).is_ok());
    assert!(voices.edit_voice_settings_outcome(response(400, Vec::new())).is_err());
}

#[test]
fn user_requests_and_logging() {
    let user = UserClient::new(config());
    let info = user.user_info_request().unwrap();
    assert_eq!(info.url, "https://api.example.test/v1/user");
    assert_eq!(info.method, Method::Get);
    let sub = user.user_subscription_info_request().unwrap();
    assert_eq!(sub.url, "https://api.example.test/v1/user/subscription");

    let mut logger = Logger::new();
    assert!(user.send_request_outcome(&mut logger, response(200, b"{}".to_vec())).is_ok());
    assert!(user.send_request_outcome(&mut logger, Err("down".to_string())).is_err());
    assert!(logger.entries.is_empty());
    let err = user.send_request_outcome(&mut logger, response(503, Vec::new())).unwrap_err();
    assert_eq!(err.status(), Some(503));
    let entries = logger.take_entries();
    assert_eq!(entries.len(), 1);
    assert_eq!(entries[0].level, Level::Error);
    assert_eq!(entries[0].message, "request failed: HTTP 503");
    assert!(logger.entries.is_empty());
}

#[test]
fn log_levels_in_order() {
    let mut logger = Logger::new();
    log_info(&mut logger, "a");
    log_warning(&mut logger, "b");
    log_error(&mut logger, "c");
    let got: Vec<(Level, String)> =
        logger.take_entries().into_iter().map(|e| (e.level, e.message)).collect();
    assert_eq!(
        got,
        vec![(Level::Info, "a".to_string()), (Level::Warning, "b".to_string()), (Level::Error, "c".to_string())]
    );
}

#[test]
fn decimal_rendering() {
    assert_eq!(render_decimal(0), "0");
    assert_eq!(render_decimal(7), "7");
    assert_eq!(render_decimal(10), "10");
    assert_eq!(render_decimal(404), "404");
    assert_eq!(render_decimal(65535), "65535");
}

#[test]
fn error_messages() {
    assert_eq!(UtilsError::Io("missing".to_string()).message(), "IO Error: missing");
    assert_eq!(
        UtilsError::Status { code: 418, body: Vec::new() }.message(),
        "request failed: HTTP 418"
    );
    assert_eq!(UtilsError::NotSet("X".to_string()).message(), "X is not set");
    assert_eq!(UtilsError::Http("e".to_string()).status(), None);
}

#[test]
fn error_cause() {
    let e = UtilsError::Io("no such file".to_string());
    assert_eq!(e.cause().map(|s| s.as_str()), Some("no such file"));
    assert!(UtilsError::InvalidApiKey.cause().is_none());
    assert!(UtilsError::Status { code: 500, body: Vec::new() }.cause().is_none());
}
