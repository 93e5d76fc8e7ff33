//! The two operations of the service, from a request to the reply that
//! goes back over HTTP: `index` answers with a PNG image, `generate_svg`
//! with an SVG document.
//!
//! Neither routes nor sockets are here. A reply is plain data: a status, a
//! content type and a body.

use vstd::prelude::*;
use vstd::string::StrSliceExecFns;
use vstd::utf8::encode_utf8;
use crate::color::color_or;
use crate::color::color_or_default;
use crate::color::is_hex_color;
use crate::color::lemma_default_colors_are_valid;
use crate::color::DEFAULT_BACKGROUND;
use crate::color::DEFAULT_FOREGROUND;
use crate::error::ApiError;
use crate::error::MESSAGE_MISSING_DATA;
use crate::error::STATUS_BAD_REQUEST;
use crate::error::STATUS_OK;
use crate::geocode::Coordinates;
use crate::geocode::MyError;
use crate::models::Info;
use crate::models::InfoView;
use crate::payload::get_code_data;
use crate::payload::is_supplied;
use crate::payload::located;
use crate::payload::select_payload;
use crate::render::encode_png;
use crate::render::encode_svg;
use crate::render::png_outcome;
use crate::render::svg_outcome;
use crate::render::MAX_DIMENSION;
use crate::render::MIN_DIMENSION;

verus! {

/// Side of an SVG image, in pixels, where the request names none in range.
pub const DEFAULT_DIMENSION: u32 = 200;

/// Content type of a reply that carries a PNG image.
pub const PNG_CONTENT_TYPE: &'static str = "image/png";

/// Content type of a reply that carries an SVG document.
pub const SVG_CONTENT_TYPE: &'static str = "image/svg+xml";

/// A reply: what the HTTP layer sends back.
#[derive(Clone, Debug)]
pub struct Response {
    /// The HTTP status code.
    pub status: u16,
    /// The content type; none is declared for the text of a failure.
    pub content_type: Option<String>,
    /// The body: an image, or the text of a failure in UTF-8.
    pub body: Vec<u8>,
}

/// A reply as contracts see it.
pub ghost struct ResponseView {
    pub status: u16,
    pub content_type: Option<Seq<char>>,
    pub body: Seq<u8>,
}

impl View for Response {
    type V = ResponseView;

    open spec fn view(&self) -> ResponseView {
        ResponseView {
            status: self.status,
            content_type: match self.content_type {
                Some(name) => Some(name@),
                None => None,
            },
            body: self.body@,
        }
    }
}

/// The side that an SVG image is asked to have at least: the requested one
/// where it lies in the accepted range, else the default. A dimension out
/// of range is no error.
pub open spec fn spec_svg_dimension(requested: Option<u32>) -> u32 {
    match requested {
        Some(side) => if MIN_DIMENSION <= side <= MAX_DIMENSION {
            side
        } else {
            DEFAULT_DIMENSION
        },
        None => DEFAULT_DIMENSION,
    }
}

/// The reply to a request that ended in `error`: its status and its text.
pub open spec fn error_reply(error: ApiError) -> ResponseView {
    ResponseView {
        status: error.spec_status(),
        content_type: None,
        body: encode_utf8(error.spec_message()),
    }
}

/// The reply to a request for a PNG image, given what rendering brought.
pub open spec fn png_reply(outcome: Result<Seq<u8>, ApiError>) -> ResponseView {
    match outcome {
        Ok(image) => ResponseView {
            status: STATUS_OK,
            content_type: Some(PNG_CONTENT_TYPE@),
            body: image,
        },
        Err(error) => error_reply(error),
    }
}

/// The reply to a request for an SVG document, given what rendering
/// brought.
pub open spec fn svg_reply(outcome: Result<Seq<char>, ApiError>) -> ResponseView {
    match outcome {
        Ok(markup) => ResponseView {
            status: STATUS_OK,
            content_type: Some(SVG_CONTENT_TYPE@),
            body: encode_utf8(markup),
        },
        Err(error) => error_reply(error),
    }
}

/// What becomes of a request for a PNG image: its payload is selected,
/// encoded and rendered.
pub open spec fn index_outcome(info: InfoView, position: Option<(Seq<char>, Seq<char>)>) -> Result<
    Seq<u8>,
    ApiError,
> {
    match select_payload(info, position) {
        None => Err(ApiError::MissingPayload),
        Some(payload) => png_outcome(payload),
    }
}

/// What becomes of a request for an SVG document: its payload is selected
/// and encoded, and the symbol is rendered at the side and in the colours
/// that the request's own settle to.
pub open spec fn generate_svg_outcome(
    info: InfoView,
    position: Option<(Seq<char>, Seq<char>)>,
) -> Result<Seq<char>, ApiError> {
    match select_payload(info, position) {
        None => Err(ApiError::MissingPayload),
        Some(payload) => svg_outcome(
            payload,
            spec_svg_dimension(info.dimension),
            color_or(info.foreground, DEFAULT_FOREGROUND@),
            color_or(info.background, DEFAULT_BACKGROUND@),
        ),
    }
}

/// The side that an SVG image is asked to have at least.
#[verifier::when_used_as_spec(spec_svg_dimension)]
pub fn svg_dimension(requested: Option<u32>) -> (r: u32)
    ensures
        r == spec_svg_dimension(requested),
        MIN_DIMENSION <= r <= MAX_DIMENSION,
{
    match requested {
        Some(side) => if side >= MIN_DIMENSION && side <= MAX_DIMENSION {
            side
        } else {
            DEFAULT_DIMENSION
        },
        None => DEFAULT_DIMENSION,
    }
}

/// The reply to a request that ended in `error`.
pub fn error_response(error: ApiError) -> (r: Response)
    ensures
        r@ == error_reply(error),
{
    Response { status: error.status(), content_type: None, body: error.message().as_bytes_vec() }
}

/// The reply to a request for a PNG image, given what rendering brought:
/// the image with status 200, or the failure's status and text.
pub fn respond_png(outcome: Result<Vec<u8>, ApiError>) -> (r: Response)
    ensures
        r@ == png_reply(
            match outcome {
                Ok(image) => Ok(image@),
                Err(error) => Err(error),
            },
        ),
{
    match outcome {
        Ok(image) => Response {
            status: STATUS_OK,
            content_type: Some(PNG_CONTENT_TYPE.to_owned()),
            body: image,
        },
        Err(error) => error_response(error),
    }
}

/// The reply to a request for an SVG document, given what rendering
/// brought: the markup with status 200, or the failure's status and text.
pub fn respond_svg(outcome: Result<String, ApiError>) -> (r: Response)
    ensures
        r@ == svg_reply(
            match outcome {
                Ok(markup) => Ok(markup@),
                Err(error) => Err(error),
            },
        ),
{
    match outcome {
        Ok(markup) => Response {
            status: STATUS_OK,
            content_type: Some(SVG_CONTENT_TYPE.to_owned()),
            body: markup.as_str().as_bytes_vec(),
        },
        Err(error) => error_response(error),
    }
}

/// Answers a request for a PNG image. `geocoded` is the outcome of
/// resolving the request's postal address, `None` where nothing was
/// resolved.
pub fn index(data: &Info, geocoded: Option<Result<Coordinates, MyError>>) -> (r: Response)
    ensures
        r@ == png_reply(index_outcome(data@, located(geocoded))),
{
    let outcome = match get_code_data(data, geocoded) {
        Some(payload) => encode_png(payload.as_slice()),
        None => Err(ApiError::MissingPayload),
    };
    respond_png(outcome)
}

/// Answers a request for an SVG document. `geocoded` is the outcome of
/// resolving the request's postal address, `None` where nothing was
/// resolved. Colours and dimension of the request are used where they are
/// valid and replaced by black, white and [`DEFAULT_DIMENSION`] where they
/// are not.
pub fn generate_svg(data: &Info, geocoded: Option<Result<Coordinates, MyError>>) -> (r: Response)
    ensures
        r@ == svg_reply(generate_svg_outcome(data@, located(geocoded))),
{
    let foreground = color_or_default(&data.foreground, DEFAULT_FOREGROUND);
    let background = color_or_default(&data.background, DEFAULT_BACKGROUND);
    let outcome = match get_code_data(data, geocoded) {
        Some(payload) => {
            let size = svg_dimension(data.dimension);
            encode_svg(payload.as_slice(), size, foreground, background)
        },
        None => Err(ApiError::MissingPayload),
    };
    respond_svg(outcome)
}

/// A request that supplies none of link, phone number, e-mail address and
/// postal address has no payload, and both operations answer it with
/// status 400 and the text for missing data, whatever else it holds.
pub proof fn lemma_nothing_supplied_is_rejected(
    info: InfoView,
    position: Option<(Seq<char>, Seq<char>)>,
)
    requires
        !is_supplied(info.url),
        !is_supplied(info.phone),
        !is_supplied(info.email),
        !is_supplied(info.address),
    ensures
        select_payload(info, position) is None,
        png_reply(index_outcome(info, position)) == error_reply(ApiError::MissingPayload),
        svg_reply(generate_svg_outcome(info, position)) == error_reply(ApiError::MissingPayload),
        error_reply(ApiError::MissingPayload).status == STATUS_BAD_REQUEST,
        error_reply(ApiError::MissingPayload).body == encode_utf8(MESSAGE_MISSING_DATA@),
{
}

/// A postal address that could not be resolved counts for nothing: the
/// request is answered as if it had supplied no address.
pub proof fn lemma_unresolved_address_is_no_address(info: InfoView)
    ensures
        select_payload(info, None) == select_payload((InfoView { address: None, ..info }), None),
{
}

/// A requested side within the accepted range is the side that the SVG
/// image is asked to have; any other falls back to the default.
pub proof fn lemma_dimension_kept_or_default(requested: u32)
    ensures
        MIN_DIMENSION <= requested <= MAX_DIMENSION ==> spec_svg_dimension(Some(requested))
            == requested,
        !(MIN_DIMENSION <= requested <= MAX_DIMENSION) ==> spec_svg_dimension(Some(requested))
            == DEFAULT_DIMENSION,
        spec_svg_dimension(None) == DEFAULT_DIMENSION,
{
}

/// Whatever a request holds, the renderer is asked for a side within the
/// accepted range and handed two valid colours.
pub proof fn lemma_svg_settings_are_valid(info: InfoView)
    ensures
        MIN_DIMENSION <= spec_svg_dimension(info.dimension) <= MAX_DIMENSION,
        is_hex_color(color_or(info.foreground, DEFAULT_FOREGROUND@)),
        is_hex_color(color_or(info.background, DEFAULT_BACKGROUND@)),
{
    lemma_default_colors_are_valid();
}

/// A request whose foreground is no valid colour is rendered with black
/// dark modules: nothing of the invalid text reaches the renderer.
pub proof fn lemma_invalid_foreground_is_black(
    info: InfoView,
    position: Option<(Seq<char>, Seq<char>)>,
)
    requires
        info.foreground matches Some(color) ==> !is_hex_color(color),
    ensures
        generate_svg_outcome(info, position) == match select_payload(info, position) {
            None => Err::<Seq<char>, ApiError>(ApiError::MissingPayload),
            Some(payload) => svg_outcome(
                payload,
                spec_svg_dimension(info.dimension),
                DEFAULT_FOREGROUND@,
                color_or(info.background, DEFAULT_BACKGROUND@),
            ),
        },
{
}

/// A request whose background is no valid colour is rendered on a white
/// ground.
pub proof fn lemma_invalid_background_is_white(
    info: InfoView,
    position: Option<(Seq<char>, Seq<char>)>,
)
    requires
        info.background matches Some(color) ==> !is_hex_color(color),
    ensures
        generate_svg_outcome(info, position) == match select_payload(info, position) {
            None => Err::<Seq<char>, ApiError>(ApiError::MissingPayload),
            Some(payload) => svg_outcome(
                payload,
                spec_svg_dimension(info.dimension),
                color_or(info.foreground, DEFAULT_FOREGROUND@),
                DEFAULT_BACKGROUND@,
            ),
        },
{
}

} // verus!
