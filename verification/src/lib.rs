//! Client-side OAuth 1.0a for a photo-hosting API: request signing, the
//! three-legged token acquisition flow, and the typed answers of the API.

pub mod callback;
pub mod canonical;
pub mod encoding;
pub mod form;
pub mod get_info;
pub mod get_sizes;
pub mod get_token;
pub mod oauth;
pub mod signature;
pub mod test_login;
pub mod text;
pub mod upload_photo;

pub use get_sizes::FlickrSize;
pub use oauth::{ApiKey, Token as OauthToken};
pub use test_login::UserData;

use crate::text::{decimal, decimal_text};
use vstd::prelude::*;
use vstd::string::StringExecFns;

verus! {

/// The provider's endpoint that exchanges a request token for an access token.
pub const URL_ACCESS: &'static str = "https://www.flickr.com/services/oauth/access_token";

/// The provider's page on which the user grants access.
pub const URL_AUTHORIZE: &'static str = "https://www.flickr.com/services/oauth/authorize";

/// The provider's endpoint that issues request tokens.
pub const URL_REQUEST: &'static str = "https://www.flickr.com/services/oauth/request_token";

/// The endpoint of the API's methods.
pub const URL_API: &'static str = "https://api.flickr.com/services/rest/";

/// The endpoint that takes uploads.
pub const URL_UPLOAD: &'static str = "https://up.flickr.com/services/upload/";

/// The error that every method of the API may answer with.
#[derive(Debug, Hash)]
pub struct FlickrError {
    pub stat: String,
    pub code: u32,
    pub message: String,
}

/// An error as one line of text: the message, then the code in brackets.
pub open spec fn error_text(message: Seq<char>, code: u32) -> Seq<char> {
    message + " (code "@ + decimal(code as nat) + ")"@
}

impl FlickrError {
    /// The error as one line of text.
    pub fn to_text(&self) -> (line: String)
        ensures
            line@ == error_text(self.message@, self.code),
    {
        let mut line = self.message.clone();
        line.append(" (code ");
        let code = decimal_text(self.code as u64);
        line.append(code.as_str());
        line.append(")");
        line
    }
}

} // verus!
