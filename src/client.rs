//! Client configuration and request construction.

use vstd::prelude::*;

verus! {

/// Origin of the provider's production API.
pub const DEFAULT_BASE_URL: &'static str = "https://api.typeform.com";

/// Main entry point: the configuration of a client for one form.
#[derive(Debug)]
pub struct Typeform {
    url: String,
    form_id: String,
    token: String,
}

impl Typeform {
    /// The base URL requests go to.
    pub closed spec fn base_url(&self) -> Seq<char> {
        self.url@
    }

    /// The identifier of the form whose responses are fetched.
    pub closed spec fn form(&self) -> Seq<char> {
        self.form_id@
    }

    /// The bearer token sent with each request.
    pub closed spec fn bearer(&self) -> Seq<char> {
        self.token@
    }

    /// A client for form `form_id`, authenticated by `token`, that talks to
    /// the production API.
    pub fn new(form_id: &str, token: &str) -> (r: Typeform)
        ensures
            r.base_url() == DEFAULT_BASE_URL@,
            r.form() == form_id@,
            r.bearer() == token@,
    {
        Typeform {
            url: String::from_str(DEFAULT_BASE_URL),
            form_id: String::from_str(form_id),
            token: String::from_str(token),
        }
    }

    /// A client that talks to `base_url` instead of the production API
    /// (a test double, another environment).
    pub fn with_base_url(base_url: &str, form_id: &str, token: &str) -> (r: Typeform)
        ensures
            r.base_url() == base_url@,
            r.form() == form_id@,
            r.bearer() == token@,
    {
        Typeform {
            url: String::from_str(base_url),
            form_id: String::from_str(form_id),
            token: String::from_str(token),
        }
    }

    /// The form identifier.
    pub fn form_id(&self) -> (r: &str)
        ensures
            r@ == self.form(),
    {
        self.form_id.as_str()
    }

    /// URL listing the form's responses: `{base}/forms/{form_id}/responses`.
    pub fn responses_url(&self) -> (r: String)
        ensures
            r@ == responses_url_of(self.base_url(), self.form()),
    {
        let mut r = String::from_str(self.url.as_str());
        r.append("/forms/");
        r.append(self.form_id.as_str());
        r.append("/responses");
        r
    }

    /// URL listing at most one response after the one identified by
    /// `after`: `{base}/forms/{form_id}/responses?after={after}&page_size=1`.
    pub fn responses_after_url(&self, after: &str) -> (r: String)
        ensures
            r@ == responses_after_url_of(self.base_url(), self.form(), after@),
    {
        let mut r = self.responses_url();
        r.append("?after=");
        r.append(after);
        r.append("&page_size=1");
        r
    }

    /// Value of the `Authorization` header: `Bearer {token}`.
    pub fn authorization(&self) -> (r: String)
        ensures
            r@ == authorization_of(self.bearer()),
    {
        let mut r = String::from_str("Bearer ");
        r.append(self.token.as_str());
        r
    }
}

/// The URL of the response listing of form `form_id` under `base`.
pub open spec fn responses_url_of(base: Seq<char>, form_id: Seq<char>) -> Seq<char> {
    base + "/forms/"@ + form_id + "/responses"@
}

/// The URL of the listing of at most one response after cursor `after`.
pub open spec fn responses_after_url_of(
    base: Seq<char>,
    form_id: Seq<char>,
    after: Seq<char>,
) -> Seq<char> {
    responses_url_of(base, form_id) + "?after="@ + after + "&page_size=1"@
}

/// The `Authorization` header value for bearer token `token`.
pub open spec fn authorization_of(token: Seq<char>) -> Seq<char> {
    "Bearer "@ + token
}

} // verus!
