//! The geocoder's side of the library: which address to ask for, and what
//! a reply of the service says.
//!
//! The request itself is made elsewhere. This module builds the address of
//! the request and reads `results[0].geometry.location.lat` and `.lng` out
//! of the reply.

use vstd::prelude::*;
use vstd::string::StringExecFns;
use crate::json::Json;

verus! {

/// Where the geocoding service is asked, up to the address to resolve.
pub const GEOCODE_ENDPOINT: &'static str =
    "https://maps.googleapis.com/maps/api/geocode/json?address=";

/// What stands between the address and the credential in a request.
pub const GEOCODE_KEY_PARAMETER: &'static str = "&key=";

/// The error text for a reply without a numeric latitude.
pub const LATITUDE_MISSING: &'static str = "Latitude is missing or not a float";

/// The error text for a reply without a numeric longitude.
pub const LONGITUDE_MISSING: &'static str = "Longitude is missing or not a float";

/// A resolved position. Each coordinate is held as the decimal text of its
/// number, as it goes into a payload.
#[derive(Clone, Debug)]
pub struct Coordinates {
    pub lat: String,
    pub lng: String,
}

impl View for Coordinates {
    type V = (Seq<char>, Seq<char>);

    /// Latitude first, then longitude.
    open spec fn view(&self) -> (Seq<char>, Seq<char>) {
        (self.lat@, self.lng@)
    }
}

/// Why an address could not be resolved.
#[derive(Clone, Debug)]
pub enum MyError {
    /// The reply lacks a coordinate, or holds something else in its place.
    MissingField(String),
    /// The request itself failed: no connection, or a body that is no JSON.
    ReqwestError(String),
}

/// [`MyError`] as contracts see it.
pub ghost enum MyErrorView {
    MissingField(Seq<char>),
    ReqwestError(Seq<char>),
}

impl View for MyError {
    type V = MyErrorView;

    open spec fn view(&self) -> MyErrorView {
        match self {
            MyError::MissingField(text) => MyErrorView::MissingField(text@),
            MyError::ReqwestError(text) => MyErrorView::ReqwestError(text@),
        }
    }
}

/// The address of the request that resolves `address` with the credential
/// `api_key`. Both go in as they are.
pub open spec fn spec_geocode_url(address: Seq<char>, api_key: Seq<char>) -> Seq<char> {
    GEOCODE_ENDPOINT@ + address + GEOCODE_KEY_PARAMETER@ + api_key
}

/// The address of the request that resolves `address` with the credential
/// `api_key`.
pub fn geocode_url(address: &str, api_key: &str) -> (r: String)
    ensures
        r@ == spec_geocode_url(address@, api_key@),
{
    let mut url = GEOCODE_ENDPOINT.to_owned();
    url.append(address);
    url.append(GEOCODE_KEY_PARAMETER);
    url.append(api_key);
    url
}

/// The member named `key` of a value that was found.
pub open spec fn then_member(value: Option<Json>, key: Seq<char>) -> Option<Json> {
    match value {
        Some(v) => v.spec_member(key),
        None => None,
    }
}

/// The element at `index` of a value that was found.
pub open spec fn then_element(value: Option<Json>, index: int) -> Option<Json> {
    match value {
        Some(v) => v.spec_element(index),
        None => None,
    }
}

/// The number at `results[0].geometry.location.<axis>` of a reply, as
/// decimal text; `None` where a step of the path is missing or the value at
/// its end is no number.
pub open spec fn spec_coordinate(reply: Json, axis: Seq<char>) -> Option<Seq<char>> {
    let results = reply.spec_member("results"@);
    let first = then_element(results, 0);
    let geometry = then_member(first, "geometry"@);
    let location = then_member(geometry, "location"@);
    match then_member(location, axis) {
        Some(value) => value.spec_number(),
        None => None,
    }
}

/// What a reply says: both coordinates, or which one is missing. The
/// latitude is looked for first.
pub open spec fn spec_extract_coordinates(reply: Json) -> Result<(Seq<char>, Seq<char>), MyErrorView> {
    match spec_coordinate(reply, "lat"@) {
        None => Err(MyErrorView::MissingField(LATITUDE_MISSING@)),
        Some(lat) => match spec_coordinate(reply, "lng"@) {
            None => Err(MyErrorView::MissingField(LONGITUDE_MISSING@)),
            Some(lng) => Ok((lat, lng)),
        },
    }
}

/// What the outcome of a request says: a failed request is a
/// `ReqwestError` with the failure's text, a reply is read for its
/// coordinates.
pub open spec fn spec_get_coordinates(response: Result<Json, String>) -> Result<(Seq<char>, Seq<char>), MyErrorView> {
    match response {
        Ok(reply) => spec_extract_coordinates(reply),
        Err(failure) => Err(MyErrorView::ReqwestError(failure@)),
    }
}

/// A resolution as contracts see it.
pub open spec fn resolution_view(r: Result<Coordinates, MyError>) -> Result<(Seq<char>, Seq<char>), MyErrorView> {
    match r {
        Ok(found) => Ok(found@),
        Err(e) => Err(e@),
    }
}

/// The number at `results[0].geometry.location.<axis>` of a reply.
pub fn coordinate<'a>(reply: &'a Json, axis: &str) -> (r: Option<&'a String>)
    ensures
        match r {
            Some(text) => spec_coordinate(*reply, axis@) == Some(text@),
            None => spec_coordinate(*reply, axis@) is None,
        },
{
    let results = match reply.member("results") {
        Some(value) => value,
        None => return None,
    };
    let first = match results.element(0) {
        Some(value) => value,
        None => return None,
    };
    let geometry = match first.member("geometry") {
        Some(value) => value,
        None => return None,
    };
    let location = match geometry.member("location") {
        Some(value) => value,
        None => return None,
    };
    match location.member(axis) {
        Some(value) => value.number(),
        None => None,
    }
}

/// Reads both coordinates out of a reply of the geocoding service.
pub fn extract_coordinates(reply: &Json) -> (r: Result<Coordinates, MyError>)
    ensures
        resolution_view(r) == spec_extract_coordinates(*reply),
{
    let lat = match coordinate(reply, "lat") {
        Some(text) => text.clone(),
        None => return Err(MyError::MissingField(LATITUDE_MISSING.to_owned())),
    };
    let lng = match coordinate(reply, "lng") {
        Some(text) => text.clone(),
        None => return Err(MyError::MissingField(LONGITUDE_MISSING.to_owned())),
    };
    Ok(Coordinates { lat, lng })
}

/// Turns the outcome of the request to the geocoding service into a
/// position or the reason why there is none. `response` is the reply as
/// JSON, or the text of the failure where the request brought none.
pub fn get_coordinates(response: Result<Json, String>) -> (r: Result<Coordinates, MyError>)
    ensures
        resolution_view(r) == spec_get_coordinates(response),
{
    match response {
        Ok(reply) => extract_coordinates(&reply),
        Err(failure) => Err(MyError::ReqwestError(failure)),
    }
}

} // verus!
