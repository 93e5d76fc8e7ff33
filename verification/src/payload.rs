//! Which text a code carries: the first of link, phone number, e-mail
//! address and postal address that the request supplies.

use vstd::prelude::*;
use vstd::string::StrSliceExecFns;
use vstd::string::StringExecFns;
use vstd::utf8::encode_utf8;
use crate::geocode::Coordinates;
use crate::geocode::MyError;
use crate::models::Info;
use crate::models::InfoView;
use crate::models::text_of;

verus! {

/// What a phone number is prefixed with.
pub const TEL_SCHEME: &'static str = "tel:";

/// What an e-mail address is prefixed with.
pub const MAILTO_SCHEME: &'static str = "mailto:";

/// What a position is prefixed with.
pub const GEO_SCHEME: &'static str = "geo:";

/// What stands between latitude and longitude.
pub const COORDINATE_SEPARATOR: &'static str = ",";

/// A field counts as supplied when it is there and not empty.
pub open spec fn is_supplied(field: Option<Seq<char>>) -> bool {
    field matches Some(text) && text.len() > 0
}

/// The position that a geocoding attempt brought: none where no attempt
/// was made, and none where it failed.
pub open spec fn located(geocoded: Option<Result<Coordinates, MyError>>) -> Option<(Seq<char>, Seq<char>)> {
    match geocoded {
        Some(Ok(position)) => Some(position@),
        _ => None,
    }
}

/// The `geo:` text of a position: latitude, a comma, longitude.
pub open spec fn geo_uri(position: (Seq<char>, Seq<char>)) -> Seq<char> {
    GEO_SCHEME@ + position.0 + COORDINATE_SEPARATOR@ + position.1
}

/// The postal address that has to be resolved before the payload is known:
/// the request's address, where it is supplied and link, phone number and
/// e-mail address are not.
pub open spec fn address_to_resolve(info: InfoView) -> Option<Seq<char>> {
    if !is_supplied(info.url) && !is_supplied(info.phone) && !is_supplied(info.email)
        && is_supplied(info.address) {
        info.address
    } else {
        None
    }
}

/// The payload of a request, as UTF-8 bytes. The first supplied field in
/// the order link, phone number, e-mail address, postal address decides,
/// and the fields after it are not looked at. A postal address yields a
/// payload only through the position it was resolved to.
pub open spec fn select_payload(info: InfoView, position: Option<(Seq<char>, Seq<char>)>) -> Option<Seq<u8>> {
    if is_supplied(info.url) {
        Some(encode_utf8(info.url->0))
    } else if is_supplied(info.phone) {
        Some(encode_utf8(TEL_SCHEME@ + info.phone->0))
    } else if is_supplied(info.email) {
        Some(encode_utf8(MAILTO_SCHEME@ + info.email->0))
    } else if is_supplied(info.address) {
        match position {
            Some(found) => Some(encode_utf8(geo_uri(found))),
            None => None,
        }
    } else {
        None
    }
}

/// The UTF-8 form of a text that is not empty is not empty.
pub proof fn lemma_encoding_is_not_empty(text: Seq<char>)
    requires
        text.len() > 0,
    ensures
        encode_utf8(text).len() > 0,
{
    assert(vstd::utf8::encode_scalar(text[0] as u32).len() > 0);
}

/// The UTF-8 form of two texts in a row is the first one's followed by the
/// second one's.
pub proof fn lemma_encoding_of_concatenation(a: Seq<char>, b: Seq<char>)
    ensures
        encode_utf8(a + b) == encode_utf8(a) + encode_utf8(b),
    decreases a.len(),
{
    if a.len() == 0 {
        assert(a + b == b);
    } else {
        assert((a + b).drop_first() == a.drop_first() + b);
        lemma_encoding_of_concatenation(a.drop_first(), b);
    }
}

/// A phone number's payload is the bytes of `tel:` followed by the
/// number's own, an e-mail address's the bytes of `mailto:` followed by
/// the address's own.
pub proof fn lemma_scheme_comes_first(info: InfoView, position: Option<(Seq<char>, Seq<char>)>)
    requires
        !is_supplied(info.url),
    ensures
        is_supplied(info.phone) ==> select_payload(info, position) == Some(
            encode_utf8(TEL_SCHEME@) + encode_utf8(info.phone->0),
        ),
        !is_supplied(info.phone) && is_supplied(info.email) ==> select_payload(info, position)
            == Some(encode_utf8(MAILTO_SCHEME@) + encode_utf8(info.email->0)),
{
    if is_supplied(info.phone) {
        lemma_encoding_of_concatenation(TEL_SCHEME@, info.phone->0);
    } else if is_supplied(info.email) {
        lemma_encoding_of_concatenation(MAILTO_SCHEME@, info.email->0);
    }
}

/// A payload is never empty: a request either yields at least one byte to
/// encode or none at all.
pub proof fn lemma_payload_is_not_empty(info: InfoView, position: Option<(Seq<char>, Seq<char>)>)
    ensures
        select_payload(info, position) matches Some(payload) ==> payload.len() > 0,
{
    reveal_strlit("geo:");
    if is_supplied(info.url) {
        lemma_encoding_is_not_empty(info.url->0);
    } else if is_supplied(info.phone) {
        lemma_encoding_is_not_empty(TEL_SCHEME@ + info.phone->0);
    } else if is_supplied(info.email) {
        lemma_encoding_is_not_empty(MAILTO_SCHEME@ + info.email->0);
    } else if is_supplied(info.address) {
        if let Some(found) = position {
            lemma_encoding_is_not_empty(geo_uri(found));
        }
    }
}

/// Whichever fields follow the first supplied one, the payload is the
/// same: they are not looked at.
pub proof fn lemma_first_supplied_field_decides(
    a: InfoView,
    b: InfoView,
    position: Option<(Seq<char>, Seq<char>)>,
)
    requires
        a.url == b.url,
        !is_supplied(a.url) ==> a.phone == b.phone,
        !is_supplied(a.url) && !is_supplied(a.phone) ==> a.email == b.email,
        !is_supplied(a.url) && !is_supplied(a.phone) && !is_supplied(a.email) ==> a.address
            == b.address,
    ensures
        select_payload(a, position) == select_payload(b, position),
{
}

/// The text of a field that is supplied.
fn supplied(field: &Option<String>) -> (r: Option<&str>)
    ensures
        match r {
            Some(text) => is_supplied(text_of(*field)) && text_of(*field) == Some(text@),
            None => !is_supplied(text_of(*field)),
        },
{
    match field {
        Some(text) => if text.as_str().is_empty() {
            None
        } else {
            Some(text.as_str())
        },
        None => None,
    }
}

/// The UTF-8 bytes of `scheme` followed by `text`.
fn with_scheme(scheme: &str, text: &str) -> (r: Vec<u8>)
    ensures
        r@ == encode_utf8(scheme@ + text@),
{
    let mut uri = scheme.to_owned();
    uri.append(text);
    uri.as_str().as_bytes_vec()
}

/// The UTF-8 bytes of the `geo:` text of a position.
pub fn geo_payload(position: &Coordinates) -> (r: Vec<u8>)
    ensures
        r@ == encode_utf8(geo_uri(position@)),
{
    let mut uri = GEO_SCHEME.to_owned();
    uri.append(position.lat.as_str());
    uri.append(COORDINATE_SEPARATOR);
    uri.append(position.lng.as_str());
    uri.as_str().as_bytes_vec()
}

/// The postal address that must be resolved before [`get_code_data`] can
/// give this request's payload, if there is one.
pub fn address_to_geocode(data: &Info) -> (r: Option<&str>)
    ensures
        match r {
            Some(address) => address_to_resolve(data@) == Some(address@),
            None => address_to_resolve(data@) is None,
        },
{
    if supplied(&data.url).is_some() || supplied(&data.phone).is_some() || supplied(
        &data.email,
    ).is_some() {
        return None;
    }
    supplied(&data.address)
}

/// The payload of a request. `geocoded` is the outcome of resolving the
/// address that [`address_to_geocode`] names, `None` where nothing was
/// resolved. A failed resolution yields no payload, as if no address had
/// been supplied.
pub fn get_code_data(data: &Info, geocoded: Option<Result<Coordinates, MyError>>) -> (r: Option<
    Vec<u8>,
>)
    ensures
        match r {
            Some(payload) => select_payload(data@, located(geocoded)) == Some(payload@)
                && payload@.len() > 0,
            None => select_payload(data@, located(geocoded)) is None,
        },
{
    proof {
        lemma_payload_is_not_empty(data@, located(geocoded));
    }
    if let Some(url) = supplied(&data.url) {
        return Some(url.as_bytes_vec());
    }
    if let Some(phone) = supplied(&data.phone) {
        return Some(with_scheme(TEL_SCHEME, phone));
    }
    if let Some(email) = supplied(&data.email) {
        return Some(with_scheme(MAILTO_SCHEME, email));
    }
    if supplied(&data.address).is_some() {
        if let Some(Ok(position)) = geocoded {
            return Some(geo_payload(&position));
        }
    }
    None
}

} // verus!
