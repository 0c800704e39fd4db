use crate::config::Config;
use crate::error::UtilsError;
use crate::http::{
    authorize, create_request, expect_success, header_value_ok, json_headers, outcome_spec,
    HttpRequest, HttpResponse, Method, RequestBody, API_KEY_HEADER,
};
use crate::logging::{log_error, Level, Logger};
use vstd::prelude::*;

verus! {

/// The user's subscription: its tier, limits and permissions.
#[derive(Debug)]
pub struct SubscriptionInfo {
    pub tier: String,
    pub character_count: i32,
    pub character_limit: i32,
    pub can_extend_character_limit: bool,
    pub allowed_to_extend_character_limit: bool,
    pub next_character_count_reset_unix: i64,
    pub voice_limit: i32,
    pub max_voice_add_edits: i32,
    pub voice_add_edit_counter: i32,
    pub professional_voice_limit: i32,
    pub can_extend_voice_limit: bool,
    pub can_use_instant_voice_cloning: bool,
    pub can_use_professional_voice_cloning: bool,
    pub currency: String,
    pub status: String,
    pub billing_period: String,
    pub next_invoice: NextInvoiceDetails,
    pub has_open_invoices: bool,
}

/// The next invoice of a subscription.
#[derive(Debug)]
pub struct NextInvoiceDetails {
    pub amount_due_cents: i32,
    pub next_payment_attempt_unix: i64,
}

/// The user, with their subscription.
#[derive(Debug)]
pub struct UserInfo {
    pub subscription: SubscriptionInfo,
    pub is_new_user: bool,
    pub xi_api_key: String,
    pub can_use_delayed_payment_methods: bool,
    pub is_onboarding_completed: bool,
    pub first_name: Option<String>,
}

/// A client for the user endpoints.
pub struct UserClient {
    pub config: Config,
}

/// `base/v1/user`.
pub open spec fn user_url(base: Seq<char>) -> Seq<char> {
    base + "/v1/user"@
}

/// A GET of `url` that carries the JSON headers and then the API key.
pub open spec fn is_user_get(req: HttpRequest, url: Seq<char>, key: Seq<char>) -> bool {
    &&& req.method == Method::Get
    &&& req.url@ == url
    &&& req.query@.len() == 0
    &&& req.headers_view() == json_headers().push((API_KEY_HEADER@, key))
    &&& req.carries_api_key(key)
    &&& req.body == RequestBody::Empty
}

impl UserClient {
    pub fn new(config: Config) -> (r: UserClient)
        ensures
            r.config == config,
    {
        UserClient { config }
    }

    /// The request that fetches the user's information.
    pub fn user_info_request(&self) -> (r: Result<HttpRequest, UtilsError>)
        ensures
            r is Ok <==> header_value_ok(self.config.api_key@),
            r is Err ==> r == Err::<HttpRequest, UtilsError>(UtilsError::InvalidApiKey),
            r matches Ok(req) ==> is_user_get(
                req,
                user_url(self.config.api_url@),
                self.config.api_key@,
            ),
    {
        let url = String::from_str(self.config.api_url.as_str()).concat("/v1/user");
        authorize(create_request(Method::Get, url.as_str()), self.config.api_key.as_str())
    }

    /// The request that fetches the user's subscription.
    pub fn user_subscription_info_request(&self) -> (r: Result<HttpRequest, UtilsError>)
        ensures
            r is Ok <==> header_value_ok(self.config.api_key@),
            r is Err ==> r == Err::<HttpRequest, UtilsError>(UtilsError::InvalidApiKey),
            r matches Ok(req) ==> is_user_get(
                req,
                user_url(self.config.api_url@) + "/subscription"@,
                self.config.api_key@,
            ),
    {
        let url = String::from_str(self.config.api_url.as_str()).concat("/v1/user").concat(
            "/subscription",
        );
        authorize(create_request(Method::Get, url.as_str()), self.config.api_key.as_str())
    }

    /// What a user request gives: the JSON body of a successful response, or
    /// the error. A status outside 200..=299 is also logged as an error,
    /// with the error's message; nothing else is logged.
    pub fn send_request_outcome(
        &self,
        logger: &mut Logger,
        outcome: Result<HttpResponse, String>,
    ) -> (r: Result<Vec<u8>, UtilsError>)
        ensures
            match (r, outcome_spec(outcome)) {
                (Ok(b), Ok(s)) => b@ == s,
                (Err(e), Err(s)) => e == s,
                _ => false,
            },
            r matches Err(UtilsError::Status { .. }) ==> final(logger).view() == old(
                logger,
            ).view().push((Level::Error, r->Err_0.message_spec())),
            !(r matches Err(UtilsError::Status { .. })) ==> final(logger).view() == old(
                logger,
            ).view(),
    {
        let r = expect_success(outcome);
        match &r {
            Err(e) => {
                if let UtilsError::Status { .. } = e {
                    log_error(logger, e.message().as_str());
                }
            },
            Ok(_) => {},
        }
        r
    }
}

} // verus!
