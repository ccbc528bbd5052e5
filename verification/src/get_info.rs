//! What the provider tells about one photo.

use crate::canonical::ParamText;
use crate::form::{url_text, written_url};
use crate::oauth::{signed_at, signed_url, token_text, ApiKey, RequestTarget, Resultable, Token};
use crate::{error_text, FlickrError, URL_API};
use vstd::prelude::*;
use vstd::string::StringExecFns;

verus! {

/// The parameters of a request for a photo's information: the method, the
/// photo's id, the answer's format and the consumer key, and the photo's
/// secret where one is given.
pub open spec fn getinfo_parameters(
    id: Seq<char>,
    secret: Option<Seq<char>>,
    consumer_key: Seq<char>,
) -> Seq<ParamText> {
    let fixed = seq![
        ("method"@, "flickr.photos.getInfo"@),
        ("photo_id"@, id),
        ("nojsoncallback"@, "1"@),
        ("format"@, "json"@),
        ("api_key"@, consumer_key),
    ];
    match secret {
        Some(value) => fixed.push(("secret"@, value)),
        None => fixed,
    }
}

/// The text of an optional text.
pub open spec fn optional_string_text(text: Option<&String>) -> Option<Seq<char>> {
    match text {
        Some(t) => Some(t@),
        None => None,
    }
}

/// The parameters of a request for a photo's information.
pub fn photos_getinfo_parameters(id: &String, secret: Option<&String>, api: &ApiKey) -> (params:
    Vec<(&'static str, String)>)
    ensures
        params.deep_view() == getinfo_parameters(id@, optional_string_text(secret), api@.key),
{
    let mut params: Vec<(&'static str, String)> = Vec::new();
    params.push(("method", String::from_str("flickr.photos.getInfo")));
    params.push(("photo_id", id.clone()));
    params.push(("nojsoncallback", String::from_str("1")));
    params.push(("format", String::from_str("json")));
    params.push(("api_key", api.key.clone()));
    match secret {
        Some(value) => {
            params.push(("secret", value.clone()));
        },
        None => {},
    }
    proof {
        assert(params.deep_view() =~= getinfo_parameters(
            id@,
            optional_string_text(secret),
            api@.key,
        ));
    }
    params
}

/// The URL of the signed request for a photo's information.
pub fn photos_getinfo_url(
    id: &String,
    secret: Option<&String>,
    api: &ApiKey,
    oauth: Option<&Token>,
) -> (url: Option<String>)
    ensures
        exists|seconds: u64, high: u64, low: u64|
            url_text(url) == written_url(
                URL_API@,
                #[trigger] signed_at(
                    "GET"@,
                    URL_API@,
                    getinfo_parameters(id@, optional_string_text(secret), api@.key),
                    api@,
                    token_text(oauth),
                    seconds,
                    high,
                    low,
                ),
            ),
{
    let params = photos_getinfo_parameters(id, secret, api);
    signed_url(RequestTarget::Get(URL_API), params, api, oauth)
}

/// The body of a successful answer.
#[derive(Debug, Hash)]
pub struct FlickrGetInfoSuccess {
    pub stat: String,
    pub photo: PhotoInfo,
}

/// The answer to a request for a photo's information.
#[derive(Debug, Hash)]
pub enum FlickrGetInfoAnswer {
    Success(FlickrGetInfoSuccess),
    Failure(FlickrError),
}

impl Resultable<PhotoInfo, String> for FlickrGetInfoAnswer {
    /// The photo of a successful answer, or the provider's error as one line
    /// of text.
    open spec fn becomes(self, r: Result<PhotoInfo, String>) -> bool {
        match self {
            FlickrGetInfoAnswer::Success(info) => r == Ok::<PhotoInfo, String>(info.photo),
            FlickrGetInfoAnswer::Failure(e) => r is Err && r->Err_0@ == error_text(
                e.message@,
                e.code,
            ),
        }
    }

    fn to_result(self) -> Result<PhotoInfo, String> {
        match self {
            FlickrGetInfoAnswer::Success(info) => Ok(info.photo),
            FlickrGetInfoAnswer::Failure(e) => Err(e.to_text()),
        }
    }
}

/// A photo.
#[derive(Debug, Hash)]
pub struct PhotoInfo {
    pub dateuploaded: String,
    pub farm: u32,
    pub id: String,
    pub isfavorite: u32,
    pub license: String,
    pub originalformat: String,
    pub originalsecret: String,
    pub rotation: u32,
    pub safety_level: String,
    pub secret: String,
    pub server: String,
    pub views: String,
    pub media: String,
    pub owner: Owner,
    pub dates: Dates,
    pub title: String,
    pub description: String,
    pub comments: String,
    pub permissions: Permissions,
    pub editability: Editability,
    pub publiceditability: Editability,
    /// Either empty or a whole location.
    pub location: Location,
    pub geoperms: GeoPerms,
    pub notes: NoteWrapper,
    pub tags: TagWrapper,
    pub urls: UrlWrapper,
    pub usage: Usage,
}

#[derive(Debug, Hash)]
pub struct Owner {
    pub nsid: String,
    pub username: String,
    pub realname: String,
    pub location: String,
    pub iconserver: String,
    pub iconfarm: u32,
    pub path_alias: Option<String>,
}

#[derive(Debug, Hash)]
pub struct Dates {
    pub posted: String,
    pub taken: String,
    pub takengranularity: u32,
    pub takenunknown: String,
    pub lastupdate: String,
}

#[derive(Debug, Hash)]
pub struct Permissions {
    pub permcomment: u32,
    pub permaddmeta: u32,
}

#[derive(Debug, Hash)]
pub struct Editability {
    pub cancomment: u32,
    pub canaddmeta: u32,
}

#[derive(Debug, Hash)]
pub struct Usage {
    pub candownload: u32,
    pub canblog: u32,
    pub canprint: u32,
    pub canshare: u32,
}

#[derive(Debug, Hash)]
pub enum Location {
    Full(LocationData),
    Empty(String),
}

#[derive(Debug, Hash)]
pub struct LocationData {
    pub latitude: String,
    pub longitude: String,
    pub accuracy: String,
    pub context: String,
    pub locality: String,
    pub county: String,
    pub region: String,
    pub country: String,
    pub neighbourhood: String,
}

#[derive(Debug, Hash)]
pub struct GeoPerms {
    pub ispublic: u32,
    pub iscontact: u32,
    pub isfriend: u32,
    pub isfamily: u32,
}

#[derive(Debug, Hash)]
pub struct NoteWrapper {
    pub note: Vec<Note>,
}

#[derive(Debug, Hash)]
pub struct Note {
    pub id: String,
    pub photo_id: String,
    pub author: String,
    pub authorname: String,
    pub authorrealname: String,
    pub authorispro: u32,
    pub authorisdeleted: u32,
    pub x: String,
    pub y: String,
    pub w: String,
    pub h: String,
    pub _content: String,
}

#[derive(Debug, Hash)]
pub struct TagWrapper {
    pub tag: Vec<Tag>,
}

#[derive(Debug, Hash)]
pub struct Tag {
    pub id: String,
    pub author: String,
    pub authorname: String,
    pub raw: String,
    pub _content: String,
    pub machine_tag: u32,
}

#[derive(Debug, Hash)]
pub struct UrlWrapper {
    pub url: Vec<Url>,
}

#[derive(Debug, Hash)]
pub struct Url {
    pub urltype: String,
    pub _content: String,
}

} // verus!
