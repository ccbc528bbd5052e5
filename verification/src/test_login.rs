//! The user behind an access token.

use crate::canonical::ParamText;
use crate::form::{url_text, written_url};
use crate::oauth::{signed_at, signed_url, ApiKey, RequestTarget, Resultable, Token};
use crate::{FlickrError, URL_API};
use vstd::prelude::*;
use vstd::string::StringExecFns;

verus! {

/// The parameters of a login test: the method and the answer's format.
pub open spec fn login_parameters() -> Seq<ParamText> {
    seq![("method"@, "flickr.test.login"@), ("format"@, "json"@), ("nojsoncallback"@, "1"@)]
}

/// The parameters of a login test.
pub fn test_login_parameters() -> (params: Vec<(&'static str, String)>)
    ensures
        params.deep_view() == login_parameters(),
{
    let mut params: Vec<(&'static str, String)> = Vec::new();
    params.push(("method", String::from_str("flickr.test.login")));
    params.push(("format", String::from_str("json")));
    params.push(("nojsoncallback", String::from_str("1")));
    proof {
        assert(params.deep_view() =~= login_parameters());
    }
    params
}

/// The URL of the signed login test for an access token.
pub fn test_login_url(api: &ApiKey, token: &Token) -> (url: Option<String>)
    ensures
        exists|seconds: u64, high: u64, low: u64|
            url_text(url) == written_url(
                URL_API@,
                #[trigger] signed_at(
                    "GET"@,
                    URL_API@,
                    login_parameters(),
                    api@,
                    Some(token@),
                    seconds,
                    high,
                    low,
                ),
            ),
{
    let params = test_login_parameters();
    signed_url(RequestTarget::Get(URL_API), params, api, Some(token))
}

/// A user as the provider describes them.
#[derive(Debug, Hash)]
pub struct UserData {
    pub id: String,
    pub username: String,
}

/// The body of a successful answer.
#[derive(Debug, Hash)]
pub struct TestLoginAnswerSuccess {
    pub stat: String,
    pub user: UserData,
}

/// The answer to a login test.
#[derive(Debug, Hash)]
pub enum TestLoginAnswer {
    Success(TestLoginAnswerSuccess),
    Failure(FlickrError),
}

impl Resultable<UserData, FlickrError> for TestLoginAnswer {
    /// The user of a successful answer, or the provider's error.
    open spec fn becomes(self, r: Result<UserData, FlickrError>) -> bool {
        r == match self {
            TestLoginAnswer::Success(success) => Ok::<UserData, FlickrError>(success.user),
            TestLoginAnswer::Failure(e) => Err::<UserData, FlickrError>(e),
        }
    }

    fn to_result(self) -> Result<UserData, FlickrError> {
        match self {
            TestLoginAnswer::Success(TestLoginAnswerSuccess { stat: _, user }) => Ok(user),
            TestLoginAnswer::Failure(e) => Err(e),
        }
    }
}

} // verus!
