use crate::config::Config;
use crate::error::UtilsError;
use crate::http::{
    authorize, create_request, expect_success, header_value_ok, json_headers, outcome_spec,
    parts_view, FormPart, HttpRequest, HttpResponse, Method, NameValue, RequestBody,
    API_KEY_HEADER,
};
use vstd::prelude::*;

verus! {

/// Metadata about one voice.
#[derive(Debug)]
pub struct VoiceMetadata {
    pub voice_id: String,
}

/// A client for the voice endpoints.
pub struct VoicesClient {
    pub config: Config,
}

/// `base/v1/voices`, the root of the voice endpoints.
pub open spec fn voices_url(base: Seq<char>) -> Seq<char> {
    base + "/v1/voices"@
}

/// `base/v1/voices/<voice_id>`.
pub open spec fn voice_url(base: Seq<char>, voice_id: Seq<char>) -> Seq<char> {
    voices_url(base) + "/"@ + voice_id
}

pub open spec fn strs_view(v: Seq<&str>) -> Seq<Seq<char>> {
    v.map_values(|s: &str| s@)
}

pub open spec fn opt_view(o: Option<&str>) -> Option<Seq<char>> {
    match o {
        Some(s) => Some(s@),
        None => None,
    }
}

pub open spec fn file_field(path: Seq<char>) -> (bool, Seq<char>, Seq<char>) {
    (true, "files"@, path)
}

pub open spec fn optional_text(name: Seq<char>, value: Option<Seq<char>>) -> Seq<
    (bool, Seq<char>, Seq<char>),
> {
    match value {
        Some(v) => seq![(false, name, v)],
        None => Seq::empty(),
    }
}

/// The form that adds or edits a voice: its name, one `files` part for each
/// path in order, then the description and the labels where given.
pub open spec fn voice_form_spec(
    name: Seq<char>,
    files: Seq<Seq<char>>,
    description: Option<Seq<char>>,
    labels: Option<Seq<char>>,
) -> Seq<(bool, Seq<char>, Seq<char>)> {
    seq![(false, "name"@, name)] + files.map_values(|f: Seq<char>| file_field(f))
        + optional_text("description"@, description) + optional_text("labels"@, labels)
}

fn text_part(name: &str, value: &str) -> (r: FormPart)
    ensures
        r matches FormPart::Text { name: n, value: v } && n@ == name@ && v@ == value@,
{
    FormPart::Text { name: String::from_str(name), value: String::from_str(value) }
}

/// Builds the multipart form that adds or edits a voice.
pub fn voice_form(
    name: &str,
    files: &Vec<&str>,
    description: Option<&str>,
    labels: Option<&str>,
) -> (r: Vec<FormPart>)
    ensures
        parts_view(r@) == voice_form_spec(
            name@,
            strs_view(files@),
            opt_view(description),
            opt_view(labels),
        ),
{
    let mut parts: Vec<FormPart> = Vec::new();
    parts.push(text_part("name", name));
    let ghost head = seq![(false, "name"@, name@)];
    assert(parts_view(parts@) =~= head);
    let mut i: usize = 0;
    while i < files.len()
        invariant
            i <= files.len(),
            parts_view(parts@) == head + strs_view(files@).take(i as int).map_values(
                |f: Seq<char>| file_field(f),
            ),
        decreases files.len() - i,
    {
        let ghost before = parts@;
        parts.push(FormPart::File { name: String::from_str("files"), path: String::from_str(files[i]) });
        proof {
            assert(parts_view(parts@) =~= parts_view(before).push(file_field(files@[i as int]@)));
            assert(strs_view(files@).take(i + 1).map_values(|f: Seq<char>| file_field(f))
                =~= strs_view(files@).take(i as int).map_values(|f: Seq<char>| file_field(f)).push(
                file_field(files@[i as int]@),
            ));
        }
        i = i + 1;
    }
    assert(strs_view(files@).take(i as int) =~= strs_view(files@));
    let ghost middle = parts_view(parts@);
    match description {
        Some(d) => {
            parts.push(text_part("description", d));
            assert(parts_view(parts@) =~= middle + optional_text("description"@, opt_view(description)));
        },
        None => {
            assert(parts_view(parts@) =~= middle + optional_text("description"@, opt_view(description)));
        },
    }
    let ghost middle2 = parts_view(parts@);
    match labels {
        Some(l) => {
            parts.push(text_part("labels", l));
            assert(parts_view(parts@) =~= middle2 + optional_text("labels"@, opt_view(labels)));
        },
        None => {
            assert(parts_view(parts@) =~= middle2 + optional_text("labels"@, opt_view(labels)));
        },
    }
    parts
}

fn voice_path(base: &str, voice_id: &str) -> (r: String)
    ensures
        r@ == voice_url(base@, voice_id@),
{
    let r = String::from_str(base).concat("/v1/voices").concat("/").concat(voice_id);
    r
}

/// The value of a boolean query parameter.
pub open spec fn flag_text(b: bool) -> Seq<char> {
    if b {
        "true"@
    } else {
        "false"@
    }
}

impl VoicesClient {
    pub fn new(config: Config) -> (r: VoicesClient)
        ensures
            r.config == config,
    {
        VoicesClient { config }
    }

    /// The request that fetches the metadata of `voice_id`: a GET with the
    /// query parameter `with_settings`.
    pub fn get_voice_metadata_request(&self, voice_id: &str, with_settings: bool) -> (r: Result<
        HttpRequest,
        UtilsError,
    >)
        ensures
            r is Ok <==> header_value_ok(self.config.api_key@),
            r is Err ==> r == Err::<HttpRequest, UtilsError>(UtilsError::InvalidApiKey),
            r matches Ok(req) ==> {
                &&& req.method == Method::Get
                &&& req.url@ == voice_url(self.config.api_url@, voice_id@)
                &&& req.query_view() == seq![("with_settings"@, flag_text(with_settings))]
                &&& req.headers_view() == json_headers().push(
                    (API_KEY_HEADER@, self.config.api_key@),
                )
                &&& req.carries_api_key(self.config.api_key@)
                &&& req.body == RequestBody::Empty
            },
    {
        let url = voice_path(self.config.api_url.as_str(), voice_id);
        let mut req = create_request(Method::Get, url.as_str());
        let flag = if with_settings {
            "true"
        } else {
            "false"
        };
        req.query.push(NameValue::new("with_settings", flag));
        assert(req.query_view() =~= seq![("with_settings"@, flag_text(with_settings))]);
        authorize(req, self.config.api_key.as_str())
    }

    /// What fetching the metadata gives: the JSON body of a successful
    /// response, or the error.
    pub fn get_voice_metadata_outcome(&self, outcome: Result<HttpResponse, String>) -> (r: Result<
        Vec<u8>,
        UtilsError,
    >)
        ensures
            match (r, outcome_spec(outcome)) {
                (Ok(b), Ok(s)) => b@ == s,
                (Err(e), Err(s)) => e == s,
                _ => false,
            },
    {
        expect_success(outcome)
    }

    /// The request that deletes `voice_id`.
    pub fn delete_voice_request(&self, voice_id: &str) -> (r: Result<HttpRequest, UtilsError>)
        ensures
            r is Ok <==> header_value_ok(self.config.api_key@),
            r is Err ==> r == Err::<HttpRequest, UtilsError>(UtilsError::InvalidApiKey),
            r matches Ok(req) ==> {
                &&& req.method == Method::Delete
                &&& req.url@ == voice_url(self.config.api_url@, voice_id@)
                &&& req.query@.len() == 0
                &&& req.headers_view() == json_headers().push(
                    (API_KEY_HEADER@, self.config.api_key@),
                )
                &&& req.carries_api_key(self.config.api_key@)
                &&& req.body == RequestBody::Empty
            },
    {
        let url = voice_path(self.config.api_url.as_str(), voice_id);
        let req = create_request(Method::Delete, url.as_str());
        authorize(req, self.config.api_key.as_str())
    }

    /// What deleting a voice gives: nothing on any status in 200..=299.
    pub fn delete_voice_outcome(&self, outcome: Result<HttpResponse, String>) -> (r: Result<
        (),
        UtilsError,
    >)
        ensures
            match (r, outcome_spec(outcome)) {
                (Ok(_), Ok(_)) => true,
                (Err(e), Err(s)) => e == s,
                _ => false,
            },
    {
        match expect_success(outcome) {
            Ok(_) => Ok(()),
            Err(e) => Err(e),
        }
    }

    /// The request that adds a voice cloned from the audio files at `files`.
    pub fn add_voice_request(
        &self,
        name: &str,
        files: &Vec<&str>,
        description: Option<&str>,
        labels: Option<&str>,
    ) -> (r: Result<HttpRequest, UtilsError>)
        ensures
            r is Ok <==> header_value_ok(self.config.api_key@),
            r is Err ==> r == Err::<HttpRequest, UtilsError>(UtilsError::InvalidApiKey),
            r matches Ok(req) ==> {
                &&& req.method == Method::Post
                &&& req.url@ == voices_url(self.config.api_url@) + "/add"@
                &&& req.query@.len() == 0
                &&& req.headers_view() == seq![(API_KEY_HEADER@, self.config.api_key@)]
                &&& req.carries_api_key(self.config.api_key@)
                &&& req.body matches RequestBody::Multipart(form) && parts_view(form@)
                    == voice_form_spec(
                    name@,
                    strs_view(files@),
                    opt_view(description),
                    opt_view(labels),
                )
            },
    {
        let url = String::from_str(self.config.api_url.as_str()).concat("/v1/voices").concat("/add");
        let form = voice_form(name, files, description, labels);
        let req = HttpRequest {
            method: Method::Post,
            url,
            query: Vec::new(),
            headers: Vec::new(),
            body: RequestBody::Multipart(form),
        };
        assert(req.headers_view() =~= Seq::empty());
        let r = authorize(req, self.config.api_key.as_str());
        proof {
            if r is Ok {
                assert(r->Ok_0.headers_view() =~= seq![(API_KEY_HEADER@, self.config.api_key@)]);
            }
        }
        r
    }

    /// What adding a voice gives: the response body, which names the new
    /// voice.
    pub fn add_voice_outcome(&self, outcome: Result<HttpResponse, String>) -> (r: Result<
        Vec<u8>,
        UtilsError,
    >)
        ensures
            match (r, outcome_spec(outcome)) {
                (Ok(b), Ok(s)) => b@ == s,
                (Err(e), Err(s)) => e == s,
                _ => false,
            },
    {
        expect_success(outcome)
    }

    /// The request that renames `voice_id` and adds the audio files at
    /// `files` to it.
    pub fn edit_voice_request(
        &self,
        voice_id: &str,
        name: &str,
        files: &Vec<&str>,
        description: Option<&str>,
        labels: Option<&str>,
    ) -> (r: Result<HttpRequest, UtilsError>)
        ensures
            r is Ok <==> header_value_ok(self.config.api_key@),
            r is Err ==> r == Err::<HttpRequest, UtilsError>(UtilsError::InvalidApiKey),
            r matches Ok(req) ==> {
                &&& req.method == Method::Post
                &&& req.url@ == voice_url(self.config.api_url@, voice_id@) + "/edit"@
                &&& req.query@.len() == 0
                &&& req.headers_view() == seq![(API_KEY_HEADER@, self.config.api_key@)]
                &&& req.carries_api_key(self.config.api_key@)
                &&& req.body matches RequestBody::Multipart(form) && parts_view(form@)
                    == voice_form_spec(
                    name@,
                    strs_view(files@),
                    opt_view(description),
                    opt_view(labels),
                )
            },
    {
        let url = voice_path(self.config.api_url.as_str(), voice_id).concat("/edit");
        let form = voice_form(name, files, description, labels);
        let req = HttpRequest {
            method: Method::Post,
            url,
            query: Vec::new(),
            headers: Vec::new(),
            body: RequestBody::Multipart(form),
        };
        assert(req.headers_view() =~= Seq::empty());
        let r = authorize(req, self.config.api_key.as_str());
        proof {
            if r is Ok {
                assert(r->Ok_0.headers_view() =~= seq![(API_KEY_HEADER@, self.config.api_key@)]);
            }
        }
        r
    }

    /// What editing a voice gives: nothing on any status in 200..=299.
    pub fn edit_voice_outcome(&self, outcome: Result<HttpResponse, String>) -> (r: Result<
        (),
        UtilsError,
    >)
        ensures
            match (r, outcome_spec(outcome)) {
                (Ok(_), Ok(_)) => true,
                (Err(e), Err(s)) => e == s,
                _ => false,
            },
    {
        match expect_success(outcome) {
            Ok(_) => Ok(()),
            Err(e) => Err(e),
        }
    }

    /// The request that replaces the settings of `voice_id` with `settings`,
    /// the settings encoded as JSON.
    pub fn edit_voice_settings_request(&self, voice_id: &str, settings: Vec<u8>) -> (r: Result<
        HttpRequest,
        UtilsError,
    >)
        ensures
            r is Ok <==> header_value_ok(self.config.api_key@),
            r is Err ==> r == Err::<HttpRequest, UtilsError>(UtilsError::InvalidApiKey),
            r matches Ok(req) ==> {
                &&& req.method == Method::Post
                &&& req.url@ == voice_url(self.config.api_url@, voice_id@) + "/settings/edit"@
                &&& req.query@.len() == 0
                &&& req.headers_view() == seq![
                    ("Content-Type"@, "application/json"@),
                    (API_KEY_HEADER@, self.config.api_key@),
                ]
                &&& req.carries_api_key(self.config.api_key@)
                &&& req.body == RequestBody::Json(settings)
            },
    {
        let url = voice_path(self.config.api_url.as_str(), voice_id).concat("/settings/edit");
        let mut headers: Vec<NameValue> = Vec::new();
        headers.push(NameValue::new("Content-Type", "application/json"));
        let req = HttpRequest {
            method: Method::Post,
            url,
            query: Vec::new(),
            headers,
            body: RequestBody::Json(settings),
        };
        assert(req.headers_view() =~= seq![("Content-Type"@, "application/json"@)]);
        let r = authorize(req, self.config.api_key.as_str());
        proof {
            if r is Ok {
                assert(r->Ok_0.headers_view() =~= seq![
                    ("Content-Type"@, "application/json"@),
                    (API_KEY_HEADER@, self.config.api_key@),
                ]);
            }
        }
        r
    }

    /// What editing the settings gives: nothing on any status in 200..=299.
    pub fn edit_voice_settings_outcome(&self, outcome: Result<HttpResponse, String>) -> (r: Result<
        (),
        UtilsError,
    >)
        ensures
            match (r, outcome_spec(outcome)) {
                (Ok(_), Ok(_)) => true,
                (Err(e), Err(s)) => e == s,
                _ => false,
            },
    {
        match expect_success(outcome) {
            Ok(_) => Ok(()),
            Err(e) => Err(e),
        }
    }
}

} // verus!
