//! The sizes in which a photo is available.

use crate::canonical::ParamText;
use crate::form::{url_text, written_url};
use crate::oauth::{signed_at, signed_url, token_text, ApiKey, RequestTarget, Resultable, Token};
use crate::{FlickrError, URL_API};
use vstd::prelude::*;
use vstd::string::StringExecFns;

verus! {

/// The parameters of a request for the sizes of a photo: the answer's
/// format, the method, the consumer key and the photo's id.
pub open spec fn getsizes_parameters(id: Seq<char>, consumer_key: Seq<char>) -> Seq<ParamText> {
    seq![
        ("nojsoncallback"@, "1"@),
        ("method"@, "flickr.photos.getSizes"@),
        ("format"@, "json"@),
        ("api_key"@, consumer_key),
        ("photo_id"@, id),
    ]
}

/// The parameters of a request for the sizes of a photo.
pub fn get_sizes_parameters(id: &String, api: &ApiKey) -> (params: Vec<(&'static str, String)>)
    ensures
        params.deep_view() == getsizes_parameters(id@, api@.key),
{
    let mut params: Vec<(&'static str, String)> = Vec::new();
    params.push(("nojsoncallback", String::from_str("1")));
    params.push(("method", String::from_str("flickr.photos.getSizes")));
    params.push(("format", String::from_str("json")));
    params.push(("api_key", api.key.clone()));
    params.push(("photo_id", id.clone()));
    proof {
        assert(params.deep_view() =~= getsizes_parameters(id@, api@.key));
    }
    params
}

/// The URL of the signed request for the sizes of a photo.
pub fn get_sizes_url(id: &String, api: &ApiKey, oauth: Option<&Token>) -> (url: Option<String>)
    ensures
        exists|seconds: u64, high: u64, low: u64|
            url_text(url) == written_url(
                URL_API@,
                #[trigger] signed_at(
                    "GET"@,
                    URL_API@,
                    getsizes_parameters(id@, api@.key),
                    api@,
                    token_text(oauth),
                    seconds,
                    high,
                    low,
                ),
            ),
{
    let params = get_sizes_parameters(id, api);
    signed_url(RequestTarget::Get(URL_API), params, api, oauth)
}

/// One size of a photo.
#[derive(Debug, Hash)]
pub struct FlickrSize {
    /// The provider's label for the size format.
    pub label: String,
    pub width: u32,
    pub height: u32,
    /// The URL of the photo in this size.
    pub source: String,
}

impl Clone for FlickrSize {
    fn clone(&self) -> (r: Self)
        ensures
            r.label@ == self.label@,
            r.width == self.width,
            r.height == self.height,
            r.source@ == self.source@,
    {
        FlickrSize {
            label: self.label.clone(),
            width: self.width,
            height: self.height,
            source: self.source.clone(),
        }
    }
}

/// The list of sizes inside an answer.
#[derive(Debug, Hash)]
pub struct FlickrSizes {
    pub size: Vec<FlickrSize>,
}

/// The body of a successful answer.
#[derive(Debug, Hash)]
pub struct FlickrSizeWrapper {
    pub sizes: FlickrSizes,
}

/// The answer to a request for the sizes of a photo.
#[derive(Debug, Hash)]
pub enum FlickrGetSizesAnswer {
    Success(FlickrSizeWrapper),
    Failure(FlickrError),
}

impl Resultable<Vec<FlickrSize>, FlickrError> for FlickrGetSizesAnswer {
    /// The sizes of a successful answer, or the provider's error.
    open spec fn becomes(self, r: Result<Vec<FlickrSize>, FlickrError>) -> bool {
        r == match self {
            FlickrGetSizesAnswer::Success(wrapper) => Ok::<Vec<FlickrSize>, FlickrError>(
                wrapper.sizes.size,
            ),
            FlickrGetSizesAnswer::Failure(e) => Err::<Vec<FlickrSize>, FlickrError>(e),
        }
    }

    fn to_result(self) -> Result<Vec<FlickrSize>, FlickrError> {
        match self {
            FlickrGetSizesAnswer::Success(FlickrSizeWrapper { sizes: FlickrSizes { size } }) => Ok(size),
            FlickrGetSizesAnswer::Failure(e) => Err(e),
        }
    }
}

} // verus!
