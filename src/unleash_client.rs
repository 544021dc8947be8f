use crate::entity_tag::{is_tag_text, opt_tag_view, tag_value_of, EntityTag};
use crate::error::RemoteError;
use unleash_types::client_features::ClientFeatures;
use vstd::prelude::*;

verus! {

/// Header that names the application.
pub const UNLEASH_APPNAME_HEADER: &'static str = "UNLEASH-APPNAME";

/// Header that names the instance.
pub const UNLEASH_INSTANCE_ID_HEADER: &'static str = "UNLEASH-INSTANCEID";

/// Header that names the client specification version supported.
pub const UNLEASH_CLIENT_SPEC_HEADER: &'static str = "Unleash-Client-Spec";

/// Header that carries the credential.
pub const AUTHORIZATION_HEADER: &'static str = "authorization";

/// HTTP status "not modified".
pub const NOT_MODIFIED: u16 = 304;

/// What a features request brought back.
pub enum ClientFeaturesResponse {
    /// The server's data still matches the tag that was sent.
    NoUpdate(EntityTag),
    /// New data, with the tag that the server gave it, if it gave a valid one.
    Updated(ClientFeatures, Option<EntityTag>),
}

/// The verdict on the status and headers of a features response, before its
/// body is read.
pub enum ResponseClass {
    /// Nothing changed since the tag that was sent.
    NotModified(EntityTag),
    /// A dataset follows in the body, with this tag.
    Modified(Option<EntityTag>),
}

/// The tag read from an optional validator header: the parsed header when it
/// is a valid tag, none otherwise.
pub open spec fn header_tag(header: Option<Seq<char>>) -> Option<Seq<char>> {
    match header {
        Some(h) => if is_tag_text(h) {
            Some(tag_value_of(h))
        } else {
            None
        },
        None => None,
    }
}

/// Whether a status is a success (2xx).
pub open spec fn is_success(status: u16) -> bool {
    200 <= status <= 299
}

/// The tag carried by a validator header, if the header is there and holds a
/// valid tag.
pub fn parse_etag_header(header: Option<&str>) -> (r: Option<EntityTag>)
    ensures
        opt_tag_view(r) == header_tag(
            match header {
                Some(h) => Some(h@),
                None => None,
            },
        ),
{
    match header {
        Some(h) => match EntityTag::from_str(h) {
            Ok(t) => Some(t),
            Err(_) => None,
        },
        None => None,
    }
}

/// Classifies the status of a features response. "Not modified" gives back the
/// tag that was sent, and is an error when none was; a success announces a
/// dataset with the tag of the validator header; any other status is an error.
pub fn classify_features_response(
    status: u16,
    known_tag: &Option<EntityTag>,
    etag_header: Option<&str>,
) -> (r: Result<ResponseClass, RemoteError>)
    ensures
        status == NOT_MODIFIED && known_tag.is_some() ==> (r matches Ok(
            ResponseClass::NotModified(t),
        ) && opt_tag_view(Some(t)) == opt_tag_view(*known_tag)),
        status == NOT_MODIFIED && known_tag.is_none() ==> r matches Err(
            RemoteError::NotModifiedWithoutTag,
        ),
        is_success(status) ==> (r matches Ok(ResponseClass::Modified(t)) && opt_tag_view(t)
            == header_tag(
            match etag_header {
                Some(h) => Some(h@),
                None => None,
            },
        )),
        status != NOT_MODIFIED && !is_success(status) ==> (r matches Err(
            RemoteError::Status(s),
        ) && s == status),
{
    if status == NOT_MODIFIED {
        match known_tag {
            Some(t) => Ok(ResponseClass::NotModified(t.copy())),
            None => Err(RemoteError::NotModifiedWithoutTag),
        }
    } else if 200 <= status && status <= 299 {
        Ok(ResponseClass::Modified(parse_etag_header(etag_header)))
    } else {
        Err(RemoteError::Status(status))
    }
}

/// The verdict on the status of a registration or metrics post: a success
/// (2xx) is `Ok`, any other status an error carrying it.
pub fn check_post_status(status: u16) -> (r: Result<(), RemoteError>)
    ensures
        r is Ok <==> is_success(status),
        !is_success(status) ==> (r matches Err(RemoteError::Status(s)) && s == status),
{
    if 200 <= status && status <= 299 {
        Ok(())
    } else {
        Err(RemoteError::Status(status))
    }
}

/// `base` followed by `path`.
fn join_url(base: &str, path: &str) -> (r: String)
    ensures
        r@ == base@ + path@,
{
    String::from_str(base).concat(path)
}

/// The address of the features endpoint under `base`.
pub fn features_url(base: &str) -> (r: String)
    ensures
        r@ == base@ + "/api/client/features"@,
{
    join_url(base, "/api/client/features")
}

/// The address of the registration endpoint under `base`.
pub fn register_url(base: &str) -> (r: String)
    ensures
        r@ == base@ + "/api/client/register"@,
{
    join_url(base, "/api/client/register")
}

/// The address of the metrics endpoint under `base`.
pub fn metrics_url(base: &str) -> (r: String)
    ensures
        r@ == base@ + "/api/client/metrics"@,
{
    join_url(base, "/api/client/metrics")
}

/// A header as a pair of name and value.
pub open spec fn header_view(h: (String, String)) -> (Seq<char>, Seq<char>) {
    (h.0@, h.1@)
}

/// The identity headers every request carries, in order: application name,
/// supported specification version, credential, and the instance id when
/// there is one.
pub open spec fn identity_headers_spec(
    app_name: Seq<char>,
    instance_id: Option<Seq<char>>,
    token: Seq<char>,
    spec_version: Seq<char>,
) -> Seq<(Seq<char>, Seq<char>)> {
    let base = seq![
        (UNLEASH_APPNAME_HEADER@, app_name),
        (UNLEASH_CLIENT_SPEC_HEADER@, spec_version),
        (AUTHORIZATION_HEADER@, token),
    ];
    match instance_id {
        Some(id) => base.push((UNLEASH_INSTANCE_ID_HEADER@, id)),
        None => base,
    }
}

/// The identity headers for every request of one client.
pub fn identity_headers(
    app_name: &str,
    instance_id: &Option<String>,
    token: &str,
    spec_version: &str,
) -> (r: Vec<(String, String)>)
    ensures
        r@.map_values(|h: (String, String)| header_view(h)) == identity_headers_spec(
            app_name@,
            match instance_id {
                Some(id) => Some(id@),
                None => None,
            },
            token@,
            spec_version@,
        ),
{
    let mut r: Vec<(String, String)> = Vec::new();
    r.push((String::from_str(UNLEASH_APPNAME_HEADER), String::from_str(app_name)));
    r.push((String::from_str(UNLEASH_CLIENT_SPEC_HEADER), String::from_str(spec_version)));
    r.push((String::from_str(AUTHORIZATION_HEADER), String::from_str(token)));
    match instance_id {
        Some(id) => {
            r.push((String::from_str(UNLEASH_INSTANCE_ID_HEADER), String::from_str(id.as_str())));
        },
        None => {},
    }
    assert(r@.map_values(|h: (String, String)| header_view(h)) =~= identity_headers_spec(
        app_name@,
        match instance_id {
            Some(id) => Some(id@),
            None => None,
        },
        token@,
        spec_version@,
    ));
    r
}

} // verus!
