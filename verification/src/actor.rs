//! The request façade for the routing backend.
//!
//! A typed request is serialized to the length-delimited varint wire form
//! the backend consumes; the backend's reply comes back as bytes with a
//! declared format, and is classified into a structured, textual or binary
//! response. The façade also records, per endpoint, which response shape a
//! format request actually yields: some endpoints answer in their own
//! format regardless of the one asked for, and the format pairs the
//! backend cannot serve are rejected up front rather than handed on.
use vstd::bytes::*;
use vstd::string::StringSliceAdditionalSpecFns;
use vstd::prelude::*;

use crate::costing::CostingType;
use crate::records::LatLon;
use crate::Error;

verus! {

/// An endpoint of the routing backend.
#[derive(Clone, Copy, PartialEq, Eq, Structural, Debug)]
pub enum Action {
    Route,
    Locate,
    Matrix,
    OptimizedRoute,
    Isochrone,
    TraceRoute,
    TraceAttributes,
    TransitAvailable,
    Expansion,
    Centroid,
    Status,
}

/// A response format a request can ask for.
#[derive(Clone, Copy, PartialEq, Eq, Structural, Debug)]
pub enum Format {
    Json,
    Gpx,
    Osrm,
    Pbf,
    Geotiff,
}

/// The distance units of a request.
#[derive(Clone, Copy, PartialEq, Eq, Structural, Debug)]
pub enum Units {
    Kilometers,
    Miles,
}

/// The response shape an endpoint yields for a requested format.
#[derive(Clone, Copy, PartialEq, Eq, Structural, Debug)]
pub enum ResponseKind {
    /// A structured, wire-decoded reply.
    Structured,
    /// A textual reply.
    Text,
    /// An opaque binary reply.
    Binary,
    /// The pair is not served: the request is rejected up front.
    Rejected,
}

/// The published response matrix: which shape each endpoint yields for
/// each requested format. The locate and transit-available endpoints
/// always answer in text; the pairs the backend cannot serve are
/// rejected; a structured reply comes only from the structured format;
/// the binary formats fall back to text where an endpoint cannot produce
/// them.
pub open spec fn spec_response_policy(action: Action, format: Format) -> ResponseKind {
    if action == Action::Locate || action == Action::TransitAvailable {
        ResponseKind::Text
    } else if (action == Action::Isochrone && format == Format::Osrm) || (action == Action::Matrix
        && format == Format::Gpx) || (action == Action::Centroid && format == Format::Osrm) {
        ResponseKind::Rejected
    } else if format == Format::Pbf {
        ResponseKind::Structured
    } else if format == Format::Gpx && (action == Action::Route || action == Action::OptimizedRoute
        || action == Action::TraceRoute) {
        ResponseKind::Binary
    } else {
        ResponseKind::Text
    }
}

/// The response shape `action` yields when asked for `format`.
pub fn response_policy(action: Action, format: Format) -> (r: ResponseKind)
    ensures
        r == spec_response_policy(action, format),
{
    if matches!(action, Action::Locate) || matches!(action, Action::TransitAvailable) {
        ResponseKind::Text
    } else if (matches!(action, Action::Isochrone) && matches!(format, Format::Osrm)) || (matches!(
        action,
        Action::Matrix,
    ) && matches!(format, Format::Gpx)) || (matches!(action, Action::Centroid) && matches!(
        format,
        Format::Osrm,
    )) {
        ResponseKind::Rejected
    } else if matches!(format, Format::Pbf) {
        ResponseKind::Structured
    } else if matches!(format, Format::Gpx) && (matches!(action, Action::Route) || matches!(
        action,
        Action::OptimizedRoute,
    ) || matches!(action, Action::TraceRoute)) {
        ResponseKind::Binary
    } else {
        ResponseKind::Text
    }
}

/// Rejects up front the endpoint and format pairs the backend cannot
/// serve, exactly the cells the matrix marks rejected.
pub fn check_request_format(action: Action, format: Format) -> (r: Result<(), Error>)
    ensures
        spec_response_policy(action, format) == ResponseKind::Rejected <==> r == Result::<
            (),
            Error,
        >::Err(Error::BackendError),
        spec_response_policy(action, format) != ResponseKind::Rejected <==> r is Ok,
{
    if matches!(response_policy(action, format), ResponseKind::Rejected) {
        Err(Error::BackendError)
    } else {
        Ok(())
    }
}

/// One decoded field of a wire message.
#[derive(Clone, PartialEq, Eq, Debug)]
pub struct WireField {
    /// The field number.
    pub number: u64,
    /// The field payload.
    pub value: WireValue,
}

/// The payload of one wire field, by wire type.
#[derive(Clone, PartialEq, Eq, Debug)]
pub enum WireValue {
    /// A base-128 variable-length integer.
    Varint(u64),
    /// A fixed eight-byte little-endian word.
    Fixed64(u64),
    /// A length-delimited run of bytes.
    Bytes(Vec<u8>),
    /// A fixed four-byte little-endian word.
    Fixed32(u32),
}

/// A structured backend reply: the decoded fields of its wire message.
#[derive(Clone, PartialEq, Eq, Debug)]
pub struct Api {
    /// The top-level fields, in wire order.
    pub fields: Vec<WireField>,
}

/// The spec-level shape of one wire field.
pub struct WireFieldModel {
    /// The field number.
    pub number: u64,
    /// The field payload.
    pub value: WireValueModel,
}

/// The spec-level payload of one wire field.
pub enum WireValueModel {
    /// A base-128 variable-length integer.
    Varint(u64),
    /// A fixed eight-byte little-endian word.
    Fixed64(u64),
    /// A length-delimited run of bytes.
    Bytes(Seq<u8>),
    /// A fixed four-byte little-endian word.
    Fixed32(u32),
}

impl DeepView for WireValue {
    type V = WireValueModel;

    open spec fn deep_view(&self) -> WireValueModel {
        match self {
            WireValue::Varint(x) => WireValueModel::Varint(*x),
            WireValue::Fixed64(x) => WireValueModel::Fixed64(*x),
            WireValue::Bytes(b) => WireValueModel::Bytes(b@),
            WireValue::Fixed32(x) => WireValueModel::Fixed32(*x),
        }
    }
}

impl DeepView for WireField {
    type V = WireFieldModel;

    open spec fn deep_view(&self) -> WireFieldModel {
        WireFieldModel { number: self.number, value: self.value.deep_view() }
    }
}

/// What the routing backend hands back: raw bytes and the format it
/// declares for them.
pub struct BackendResponse {
    /// The reply bytes.
    pub data: Vec<u8>,
    /// The format the backend declares.
    pub format: Format,
}

/// A classified reply from the routing backend.
#[derive(Clone, PartialEq, Eq, Debug)]
pub enum Response {
    /// A structured reply, decoded from the wire.
    Pbf(Box<Api>),
    /// A textual reply.
    Json(String),
    /// An opaque binary reply.
    Other(Vec<u8>),
}

impl Response {
    /// Classifies a backend reply by its declared format: the structured
    /// format is wire-decoded, the textual formats become text, and
    /// everything else stays bytes. A structured reply whose bytes do
    /// not decode is kept as bytes rather than dropped.
    pub fn from(response: BackendResponse) -> (r: Response)
        ensures
            response.format == Format::Json || response.format == Format::Osrm ==> r is Json,
            (response.format == Format::Json || response.format == Format::Osrm) && (forall|
                i: int,
            | 0 <= i < response.data@.len() ==> response.data@[i] < 128) ==> {
                &&& r->Json_0@.len() == response.data@.len()
                &&& forall|i: int|
                    0 <= i < response.data@.len() ==> (r->Json_0@[i] as u8) == response.data@[i]
            },
            response.format == Format::Gpx || response.format == Format::Geotiff ==> (r
                matches Response::Other(b) && b@ == response.data@),
            response.format == Format::Pbf && spec_wire_parse(response.data@, 0) is Some ==> (r
                matches Response::Pbf(api) && api.fields.deep_view() == spec_wire_parse(
                response.data@,
                0,
            )->0),
            response.format == Format::Pbf && spec_wire_parse(response.data@, 0) is None ==> (r
                matches Response::Other(b) && b@ == response.data@),
    {
        match response.format {
            Format::Pbf => match parse_wire(&response.data) {
                Some(fields) => Response::Pbf(Box::new(Api { fields })),
                None => Response::Other(response.data),
            },
            Format::Json => Response::Json(lossy_text(&response.data)),
            Format::Osrm => Response::Json(lossy_text(&response.data)),
            Format::Gpx => Response::Other(response.data),
            Format::Geotiff => Response::Other(response.data),
        }
    }
}

/// Relies on `String::from_utf8_lossy`: bytes below 128 are one-byte
/// UTF-8 and come through as the characters with the same code points.
#[verifier::external_body]
fn lossy_text(bytes: &Vec<u8>) -> (r: String)
    ensures
        (forall|i: int| 0 <= i < bytes@.len() ==> bytes@[i] < 128) ==> {
            &&& r@.len() == bytes@.len()
            &&& forall|i: int| 0 <= i < bytes@.len() ==> (r@[i] as u8) == bytes@[i]
        },
{
    String::from_utf8_lossy(bytes.as_slice()).into_owned()
}

/// The base-128 little-endian encoding of `x`, continuation bit on every
/// byte but the last.
pub open spec fn spec_varint(x: u64) -> Seq<u8>
    decreases x,
{
    if x < 128 {
        seq![x as u8]
    } else {
        seq![(x % 128 + 128) as u8] + spec_varint(x / 128)
    }
}

/// Appends the varint encoding of `x`.
pub fn push_varint(out: &mut Vec<u8>, x: u64)
    ensures
        final(out)@ == old(out)@ + spec_varint(x),
    decreases x,
{
    if x < 128 {
        out.push(x as u8);
        proof {
            assert(out@ =~= old(out)@ + spec_varint(x));
        }
    } else {
        out.push((x % 128 + 128) as u8);
        push_varint(out, x / 128);
        proof {
            assert(out@ =~= old(out)@ + spec_varint(x));
        }
    }
}

/// The zigzag mapping of a signed value onto an unsigned one: small
/// magnitudes stay small.
pub open spec fn spec_zigzag(x: i64) -> u64 {
    if x >= 0 {
        (2 * x) as u64
    } else {
        (-2 * x - 1) as u64
    }
}

/// The zigzag mapping of `x`.
pub fn zigzag(x: i64) -> (r: u64)
    ensures
        r == spec_zigzag(x),
{
    if x >= 0 {
        2 * (x as u64)
    } else {
        proof {
            assert(-2 * (x as int) - 1 <= u64::MAX as int);
        }
        2 * ((-(x + 1)) as u64) + 1
    }
}

/// The value and end of the varint at `pos`, or nothing when the buffer
/// ends inside the number or the number overflows one word.
pub open spec fn spec_varint_parse(s: Seq<u8>, pos: int) -> Option<(u64, int)>
    decreases s.len() - pos
        when 0 <= pos <= s.len()
{
    if pos >= s.len() {
        None
    } else if s[pos] < 128 {
        Some((s[pos] as u64, pos + 1))
    } else {
        match spec_varint_parse(s, pos + 1) {
            None => None,
            Some((rest, end)) => if rest < 0x200_0000_0000_0000 {
                Some((((s[pos] - 128) + 128 * rest) as u64, end))
            } else {
                None
            },
        }
    }
}

/// Reads one varint at `pos`: the decoded value and the position after
/// it, or nothing when the buffer ends inside the number or the number
/// overflows one word.
pub fn parse_varint(b: &Vec<u8>, pos: usize) -> (r: Option<(u64, usize)>)
    requires
        pos <= b@.len(),
    ensures
        match r {
            Some(t) => {
                &&& spec_varint_parse(b@, pos as int) == Some((t.0, t.1 as int))
                &&& pos < t.1 <= b@.len()
            },
            None => spec_varint_parse(b@, pos as int) is None,
        },
    decreases b@.len() - pos,
{
    let len = b.len();
    if pos >= len {
        return None;
    }
    let byte = b[pos];
    if byte < 128 {
        return Some((byte as u64, pos + 1));
    }
    match parse_varint(b, pos + 1) {
        None => None,
        Some((rest, end)) => {
            if rest < 0x200_0000_0000_0000 {
                Some((((byte - 128) as u64) + 128 * rest, end))
            } else {
                None
            }
        },
    }
}

/// Varint round trip: parsing an encoded value out of any buffer that
/// holds it yields the value back, ending right after its bytes.
pub proof fn lemma_varint_round_trip(s: Seq<u8>, pos: int, x: u64)
    requires
        0 <= pos,
        pos + spec_varint(x).len() <= s.len(),
        s.subrange(pos, pos + spec_varint(x).len()) == spec_varint(x),
    ensures
        spec_varint_parse(s, pos) == Some((x, pos + spec_varint(x).len())),
    decreases x,
{
    if x < 128 {
        assert(s.subrange(pos, pos + spec_varint(x).len())[0] == spec_varint(x)[0]);
        assert(s[pos] == x);
    } else {
        let hdr = (x % 128 + 128) as u8;
        let rest = spec_varint(x / 128);
        assert(spec_varint(x) =~= seq![hdr] + rest);
        assert(s.subrange(pos, pos + spec_varint(x).len())[0] == hdr);
        assert(s[pos] == hdr);
        assert(s.subrange(pos + 1, pos + 1 + rest.len()) =~= spec_varint(x / 128)) by {
            assert forall|i: int| 0 <= i < rest.len() implies s.subrange(
                pos + 1,
                pos + 1 + rest.len(),
            )[i] == rest[i] by {
                assert(s.subrange(pos, pos + spec_varint(x).len())[i + 1] == rest[i]);
            }
        }
        lemma_varint_round_trip(s, pos + 1, x / 128);
        assert(x / 128 < 0x200_0000_0000_0000);
        assert((s[pos] - 128) + 128 * (x / 128) == x);
    }
}

/// The fields of the wire message from `pos` to the end of the buffer,
/// or nothing when a tag, length or wire type is malformed. The guards
/// against a non-advancing sub-parse can never fire — a varint always
/// moves forward — and only serve the recursion's measure.
pub open spec fn spec_wire_parse(s: Seq<u8>, pos: int) -> Option<Seq<WireFieldModel>>
    decreases s.len() - pos
        when 0 <= pos <= s.len()
{
    if pos == s.len() {
        Some(Seq::empty())
    } else {
        match spec_varint_parse(s, pos) {
            None => None,
            Some((tag, p1)) => if p1 <= pos || p1 > s.len() || tag >> 3 == 0 {
                None
            } else {
                let number = tag >> 3;
                let wt = tag & 7;
                if wt == 0 {
                    match spec_varint_parse(s, p1) {
                        None => None,
                        Some((v, p2)) => if p2 <= pos || p2 > s.len() {
                            None
                        } else {
                            match spec_wire_parse(s, p2) {
                                None => None,
                                Some(rest) => Some(
                                    seq![
                                        WireFieldModel {
                                            number,
                                            value: WireValueModel::Varint(v),
                                        },
                                    ] + rest,
                                ),
                            }
                        },
                    }
                } else if wt == 1 {
                    if p1 + 8 > s.len() {
                        None
                    } else {
                        match spec_wire_parse(s, p1 + 8) {
                            None => None,
                            Some(rest) => Some(
                                seq![
                                    WireFieldModel {
                                        number,
                                        value: WireValueModel::Fixed64(
                                            spec_u64_from_le_bytes(s.subrange(p1, p1 + 8)),
                                        ),
                                    },
                                ] + rest,
                            ),
                        }
                    }
                } else if wt == 2 {
                    match spec_varint_parse(s, p1) {
                        None => None,
                        Some((n, p2)) => if p2 <= pos || p2 > s.len() || n > s.len() - p2 {
                            None
                        } else {
                            match spec_wire_parse(s, p2 + n) {
                                None => None,
                                Some(rest) => Some(
                                    seq![
                                        WireFieldModel {
                                            number,
                                            value: WireValueModel::Bytes(
                                                s.subrange(p2, p2 + n),
                                            ),
                                        },
                                    ] + rest,
                                ),
                            }
                        },
                    }
                } else if wt == 5 {
                    if p1 + 4 > s.len() {
                        None
                    } else {
                        match spec_wire_parse(s, p1 + 4) {
                            None => None,
                            Some(rest) => Some(
                                seq![
                                    WireFieldModel {
                                        number,
                                        value: WireValueModel::Fixed32(
                                            spec_u32_from_le_bytes(s.subrange(p1, p1 + 4)),
                                        ),
                                    },
                                ] + rest,
                            ),
                        }
                    }
                } else {
                    None
                }
            },
        }
    }
}

/// Decodes a wire message into its field list: succeeds exactly when the
/// whole buffer is a run of well-formed fields, and then yields them.
pub fn parse_wire(b: &Vec<u8>) -> (r: Option<Vec<WireField>>)
    ensures
        match r {
            Some(fields) => spec_wire_parse(b@, 0) == Some(fields.deep_view()),
            None => spec_wire_parse(b@, 0) is None,
        },
{
    let len = b.len();
    let mut pos: usize = 0;
    let mut fields: Vec<WireField> = Vec::new();
    while pos < len
        invariant
            len == b@.len(),
            pos <= len,
            spec_wire_parse(b@, 0) is Some <==> spec_wire_parse(b@, pos as int) is Some,
            spec_wire_parse(b@, 0) is Some ==> spec_wire_parse(b@, 0)->0 == fields.deep_view()
                + spec_wire_parse(b@, pos as int)->0,
        decreases len - pos,
    {
        let ghost prev_pos = pos as int;
        let ghost prev_fields = fields.deep_view();
        let (tag, after_tag) = match parse_varint(b, pos) {
            Some(t) => t,
            None => {
                return None;
            },
        };
        let number = tag >> 3;
        let wire_type = tag & 7;
        if number == 0 {
            return None;
        }
        if wire_type == 0 {
            let (v, p) = match parse_varint(b, after_tag) {
                Some(t) => t,
                None => {
                    return None;
                },
            };
            fields.push(WireField { number, value: WireValue::Varint(v) });
            pos = p;
        } else if wire_type == 1 {
            if len - after_tag < 8 {
                return None;
            }
            let v = crate::bytes::read_u64_le(b.as_slice(), after_tag);
            fields.push(WireField { number, value: WireValue::Fixed64(v) });
            pos = after_tag + 8;
        } else if wire_type == 2 {
            let (n, p) = match parse_varint(b, after_tag) {
                Some(t) => t,
                None => {
                    return None;
                },
            };
            if n > (len - p) as u64 {
                return None;
            }
            let bytes = crate::bytes::copy_range(b, p, n as usize);
            fields.push(WireField { number, value: WireValue::Bytes(bytes) });
            pos = p + n as usize;
        } else if wire_type == 5 {
            if len - after_tag < 4 {
                return None;
            }
            let v = crate::bytes::read_u32_le(b.as_slice(), after_tag);
            fields.push(WireField { number, value: WireValue::Fixed32(v) });
            pos = after_tag + 4;
        } else {
            return None;
        }
        proof {
            assert(spec_wire_parse(b@, prev_pos) is Some <==> spec_wire_parse(b@, pos as int)
                is Some);
            if spec_wire_parse(b@, pos as int) is Some {
                assert(spec_wire_parse(b@, prev_pos)->0 =~= seq![
                    fields.deep_view()[fields.deep_view().len() - 1],
                ] + spec_wire_parse(b@, pos as int)->0);
                assert(fields.deep_view() =~= prev_fields.push(
                    fields.deep_view()[fields.deep_view().len() - 1],
                ));
                assert(prev_fields + spec_wire_parse(b@, prev_pos)->0 =~= fields.deep_view()
                    + spec_wire_parse(b@, pos as int)->0);
            }
        }
    }
    proof {
        assert(fields.deep_view() + spec_wire_parse(b@, pos as int)->0 =~= fields.deep_view());
    }
    Some(fields)
}


/// The wire code of an endpoint.
pub open spec fn spec_action_code(a: Action) -> u64 {
    match a {
        Action::Route => 1,
        Action::Locate => 2,
        Action::Matrix => 3,
        Action::OptimizedRoute => 4,
        Action::Isochrone => 5,
        Action::TraceRoute => 6,
        Action::TraceAttributes => 7,
        Action::TransitAvailable => 8,
        Action::Expansion => 9,
        Action::Centroid => 10,
        Action::Status => 11,
    }
}

/// The wire code of a format.
pub open spec fn spec_format_code(f: Format) -> u64 {
    match f {
        Format::Json => 0,
        Format::Gpx => 1,
        Format::Osrm => 2,
        Format::Pbf => 3,
        Format::Geotiff => 4,
    }
}

/// The wire code of a unit choice.
pub open spec fn spec_units_code(u: Units) -> u64 {
    match u {
        Units::Kilometers => 0,
        Units::Miles => 1,
    }
}

/// The wire code of a travel mode.
pub open spec fn spec_costing_code(c: CostingType) -> u64 {
    match c {
        CostingType::Auto => 0,
        CostingType::Bicycle => 1,
        CostingType::Pedestrian => 2,
        CostingType::Truck => 3,
        CostingType::Bus => 4,
        CostingType::Taxi => 5,
        CostingType::Moped => 6,
        CostingType::Motorcycle => 7,
    }
}

/// One location of a request.
#[derive(Clone, Copy, PartialEq, Eq, Structural, Debug)]
pub struct RequestLocation {
    /// The coordinate, in millionths of a degree.
    pub ll: LatLon,
}

/// One contour of an isochrone request.
#[derive(Clone, PartialEq, Eq, Debug)]
pub struct Contour {
    /// The contour time in millionths of a minute.
    pub time_micro: i64,
    /// The fill color, as a hexadecimal text.
    pub color: String,
}

/// A typed request: everything the backend needs for one call.
#[derive(Clone, PartialEq, Eq, Debug)]
pub struct Options {
    /// The endpoint the request addresses.
    pub action: Action,
    /// The distance units of the reply.
    pub units: Units,
    /// The requested response format.
    pub format: Format,
    /// The travel mode and its exclusions.
    pub costing: crate::costing::CostingOptions,
    /// The request locations.
    pub locations: Vec<RequestLocation>,
    /// The source locations of a matrix request.
    pub sources: Vec<RequestLocation>,
    /// The target locations of a matrix request.
    pub targets: Vec<RequestLocation>,
    /// Whether a verbose reply is asked for.
    pub verbose: bool,
    /// A pre-encoded trace polyline, for the trace endpoints.
    pub encoded_polyline: Option<String>,
    /// The contours of an isochrone request.
    pub contours: Vec<Contour>,
    /// The endpoint an expansion request wraps.
    pub expansion_action: Option<Action>,
    /// How many alternate routes are asked for.
    pub alternates: Option<u32>,
}

impl Default for Options {
    /// A route request with every field at its plain default.
    fn default() -> (r: Options)
        ensures
            r.action == Action::Route,
            r.units == Units::Kilometers,
            r.format == Format::Json,
            r.costing.costing_type == CostingType::Auto,
            !r.costing.exclude_tolls,
            !r.costing.exclude_ferries,
            r.locations@.len() == 0,
            r.sources@.len() == 0,
            r.targets@.len() == 0,
            !r.verbose,
            r.encoded_polyline is None,
            r.contours@.len() == 0,
            r.expansion_action is None,
            r.alternates is None,
    {
        Options {
            action: Action::Route,
            units: Units::Kilometers,
            format: Format::Json,
            costing: crate::costing::CostingOptions {
                costing_type: CostingType::Auto,
                exclude_tolls: false,
                exclude_ferries: false,
            },
            locations: Vec::new(),
            sources: Vec::new(),
            targets: Vec::new(),
            verbose: false,
            encoded_polyline: None,
            contours: Vec::new(),
            expansion_action: None,
            alternates: None,
        }
    }
}

/// The bytes of the ASCII characters of `s`.
pub open spec fn spec_ascii_bytes(s: Seq<char>) -> Seq<u8> {
    Seq::new(s.len(), |i: int| s[i] as u8)
}

/// A field tag: the field number and the wire type in one varint.
pub open spec fn spec_tag(field: u64, wire_type: u64) -> Seq<u8> {
    spec_varint((field * 8 + wire_type) as u64)
}

/// A varint field.
pub open spec fn spec_field_varint(field: u64, x: u64) -> Seq<u8> {
    spec_tag(field, 0) + spec_varint(x)
}

/// A length-delimited field.
pub open spec fn spec_field_bytes(field: u64, payload: Seq<u8>) -> Seq<u8> {
    spec_tag(field, 2) + spec_varint(payload.len() as u64) + payload
}

/// The embedded message of one location: its two coordinates, zigzag
/// encoded.
pub open spec fn spec_location_msg(l: RequestLocation) -> Seq<u8> {
    spec_field_varint(1, spec_zigzag(l.ll.0)) + spec_field_varint(2, spec_zigzag(l.ll.1))
}

/// A repeated location field.
pub open spec fn spec_locations_enc(field: u64, ls: Seq<RequestLocation>) -> Seq<u8>
    decreases ls.len(),
{
    if ls.len() == 0 {
        Seq::empty()
    } else {
        spec_locations_enc(field, ls.drop_last()) + spec_field_bytes(
            field,
            spec_location_msg(ls.last()),
        )
    }
}

/// The embedded message of one contour.
pub open spec fn spec_contour_msg(c: Contour) -> Seq<u8> {
    spec_field_varint(1, spec_zigzag(c.time_micro)) + spec_field_bytes(
        2,
        spec_ascii_bytes(c.color@),
    )
}

/// A repeated contour field.
pub open spec fn spec_contours_enc(field: u64, cs: Seq<Contour>) -> Seq<u8>
    decreases cs.len(),
{
    if cs.len() == 0 {
        Seq::empty()
    } else {
        spec_contours_enc(field, cs.drop_last()) + spec_field_bytes(
            field,
            spec_contour_msg(cs.last()),
        )
    }
}

/// The embedded message of the cost specification.
pub open spec fn spec_costing_msg(c: crate::costing::CostingOptions) -> Seq<u8> {
    spec_field_varint(1, spec_costing_code(c.costing_type)) + spec_field_varint(
        2,
        if c.exclude_tolls {
            1
        } else {
            0
        },
    ) + spec_field_varint(
        3,
        if c.exclude_ferries {
            1
        } else {
            0
        },
    )
}

/// The canonical wire form of a request: every field in field order,
/// optional fields left out when absent.
pub open spec fn spec_encode_options(o: Options) -> Seq<u8> {
    spec_field_varint(1, spec_action_code(o.action)) + spec_field_varint(
        2,
        spec_units_code(o.units),
    ) + spec_field_varint(3, spec_format_code(o.format)) + spec_field_bytes(
        4,
        spec_costing_msg(o.costing),
    ) + spec_locations_enc(5, o.locations@) + spec_locations_enc(6, o.sources@)
        + spec_locations_enc(7, o.targets@) + spec_field_varint(
        8,
        if o.verbose {
            1
        } else {
            0
        },
    ) + (match o.encoded_polyline {
        Some(s) => spec_field_bytes(9, spec_ascii_bytes(s@)),
        None => Seq::empty(),
    }) + spec_contours_enc(10, o.contours@) + (match o.expansion_action {
        Some(a) => spec_field_varint(11, spec_action_code(a)),
        None => Seq::empty(),
    }) + (match o.alternates {
        Some(n) => spec_field_varint(12, n as u64),
        None => Seq::empty(),
    })
}

/// The wire code of `a`.
pub fn action_code(a: Action) -> (r: u64)
    ensures
        r == spec_action_code(a),
{
    match a {
        Action::Route => 1,
        Action::Locate => 2,
        Action::Matrix => 3,
        Action::OptimizedRoute => 4,
        Action::Isochrone => 5,
        Action::TraceRoute => 6,
        Action::TraceAttributes => 7,
        Action::TransitAvailable => 8,
        Action::Expansion => 9,
        Action::Centroid => 10,
        Action::Status => 11,
    }
}

/// Appends one varint field.
fn push_field_varint(out: &mut Vec<u8>, field: u64, x: u64)
    requires
        field < 16,
    ensures
        final(out)@ == old(out)@ + spec_field_varint(field, x),
{
    push_varint(out, field * 8);
    push_varint(out, x);
    proof {
        assert(out@ =~= old(out)@ + spec_field_varint(field, x));
    }
}

/// Appends one length-delimited field.
fn push_field_bytes(out: &mut Vec<u8>, field: u64, payload: &Vec<u8>)
    requires
        field < 16,
    ensures
        final(out)@ == old(out)@ + spec_field_bytes(field, payload@),
{
    push_varint(out, field * 8 + 2);
    push_varint(out, payload.len() as u64);
    let n = payload.len();
    let ghost pre = out@;
    let mut i: usize = 0;
    while i < n
        invariant
            n == payload@.len(),
            i <= n,
            out@ == pre + payload@.subrange(0, i as int),
        decreases n - i,
    {
        out.push(payload[i]);
        i = i + 1;
        proof {
            assert(pre + payload@.subrange(0, i as int) =~= (pre + payload@.subrange(
                0,
                i - 1,
            )).push(payload@[i - 1]));
        }
    }
    proof {
        assert(payload@.subrange(0, n as int) =~= payload@);
        assert(out@ =~= old(out)@ + spec_field_bytes(field, payload@));
    }
}

/// Appends the bytes of an ASCII string as a length-delimited field.
fn push_field_ascii(out: &mut Vec<u8>, field: u64, s: &String)
    requires
        field < 16,
        s@ =~= spec_ascii_bytes(s@).map_values(|b: u8| b as char),
        vstd::string::string_is_ascii(s),
    ensures
        final(out)@ == old(out)@ + spec_field_bytes(field, spec_ascii_bytes(s@)),
{
    let st = s.as_str();
    let bytes = st.as_bytes_vec();
    proof {
        broadcast use vstd::string::is_ascii_spec_bytes;
        assert(vstd::string::is_ascii(st));
        assert(bytes@ =~= spec_ascii_bytes(s@));
    }
    push_field_bytes(out, field, &bytes);
}

/// Appends one location message as a field.
fn push_location(out: &mut Vec<u8>, field: u64, l: &RequestLocation)
    requires
        field < 16,
    ensures
        final(out)@ == old(out)@ + spec_field_bytes(field, spec_location_msg(*l)),
{
    let mut msg: Vec<u8> = Vec::new();
    push_field_varint(&mut msg, 1, zigzag(l.ll.0));
    push_field_varint(&mut msg, 2, zigzag(l.ll.1));
    proof {
        assert(msg@ =~= spec_location_msg(*l));
    }
    push_field_bytes(out, field, &msg);
}

/// Appends a repeated location field.
fn push_locations(out: &mut Vec<u8>, field: u64, ls: &Vec<RequestLocation>)
    requires
        field < 16,
    ensures
        final(out)@ == old(out)@ + spec_locations_enc(field, ls@),
{
    let n = ls.len();
    let mut i: usize = 0;
    while i < n
        invariant
            field < 16,
            n == ls@.len(),
            i <= n,
            out@ == old(out)@ + spec_locations_enc(field, ls@.take(i as int)),
        decreases n - i,
    {
        push_location(out, field, &ls[i]);
        i = i + 1;
        proof {
            assert(ls@.take(i as int).drop_last() =~= ls@.take(i - 1));
            assert(ls@.take(i as int).last() == ls@[i - 1]);
            assert(old(out)@ + spec_locations_enc(field, ls@.take(i as int)) =~= (old(out)@
                + spec_locations_enc(field, ls@.take(i - 1))) + spec_field_bytes(
                field,
                spec_location_msg(ls@[i - 1]),
            ));
        }
    }
    proof {
        assert(ls@.take(n as int) =~= ls@);
    }
}

/// Appends a repeated contour field.
fn push_contours(out: &mut Vec<u8>, field: u64, cs: &Vec<Contour>)
    requires
        field < 16,
        forall|i: int|
            0 <= i < cs@.len() ==> vstd::string::string_is_ascii(&(#[trigger] cs@[i]).color),
    ensures
        final(out)@ == old(out)@ + spec_contours_enc(field, cs@),
{
    let n = cs.len();
    let mut i: usize = 0;
    while i < n
        invariant
            field < 16,
            n == cs@.len(),
            i <= n,
            forall|j: int|
                0 <= j < cs@.len() ==> vstd::string::string_is_ascii(
                    &(#[trigger] cs@[j]).color,
                ),
            out@ == old(out)@ + spec_contours_enc(field, cs@.take(i as int)),
        decreases n - i,
    {
        let mut msg: Vec<u8> = Vec::new();
        push_field_varint(&mut msg, 1, zigzag(cs[i].time_micro));
        push_field_ascii(&mut msg, 2, &cs[i].color);
        proof {
            assert(msg@ =~= spec_contour_msg(cs@[i as int]));
        }
        push_field_bytes(out, field, &msg);
        i = i + 1;
        proof {
            assert(cs@.take(i as int).drop_last() =~= cs@.take(i - 1));
            assert(cs@.take(i as int).last() == cs@[i - 1]);
            assert(old(out)@ + spec_contours_enc(field, cs@.take(i as int)) =~= (old(out)@
                + spec_contours_enc(field, cs@.take(i - 1))) + spec_field_bytes(
                field,
                spec_contour_msg(cs@[i - 1]),
            ));
        }
    }
    proof {
        assert(cs@.take(n as int) =~= cs@);
    }
}

/// Serializes a request to its canonical wire form.
pub fn encode_options(o: &Options) -> (r: Vec<u8>)
    requires
        match o.encoded_polyline {
            Some(s) => vstd::string::string_is_ascii(&s),
            None => true,
        },
        forall|i: int|
            0 <= i < o.contours@.len() ==> vstd::string::string_is_ascii(
                &(#[trigger] o.contours@[i]).color,
            ),
    ensures
        r@ == spec_encode_options(*o),
{
    let mut out: Vec<u8> = Vec::new();
    push_field_varint(&mut out, 1, action_code(o.action));
    push_field_varint(
        &mut out,
        2,
        match o.units {
            Units::Kilometers => 0,
            Units::Miles => 1,
        },
    );
    push_field_varint(
        &mut out,
        3,
        match o.format {
            Format::Json => 0,
            Format::Gpx => 1,
            Format::Osrm => 2,
            Format::Pbf => 3,
            Format::Geotiff => 4,
        },
    );
    let mut costing_msg: Vec<u8> = Vec::new();
    push_field_varint(
        &mut costing_msg,
        1,
        match o.costing.costing_type {
            CostingType::Auto => 0,
            CostingType::Bicycle => 1,
            CostingType::Pedestrian => 2,
            CostingType::Truck => 3,
            CostingType::Bus => 4,
            CostingType::Taxi => 5,
            CostingType::Moped => 6,
            CostingType::Motorcycle => 7,
        },
    );
    push_field_varint(
        &mut costing_msg,
        2,
        if o.costing.exclude_tolls {
            1
        } else {
            0
        },
    );
    push_field_varint(
        &mut costing_msg,
        3,
        if o.costing.exclude_ferries {
            1
        } else {
            0
        },
    );
    proof {
        assert(costing_msg@ =~= spec_costing_msg(o.costing));
    }
    push_field_bytes(&mut out, 4, &costing_msg);
    push_locations(&mut out, 5, &o.locations);
    push_locations(&mut out, 6, &o.sources);
    push_locations(&mut out, 7, &o.targets);
    push_field_varint(
        &mut out,
        8,
        if o.verbose {
            1
        } else {
            0
        },
    );
    match &o.encoded_polyline {
        Some(s) => {
            push_field_ascii(&mut out, 9, s);
        },
        None => {
        },
    }
    push_contours(&mut out, 10, &o.contours);
    match &o.expansion_action {
        Some(a) => {
            push_field_varint(&mut out, 11, action_code(*a));
        },
        None => {
        },
    }
    match &o.alternates {
        Some(n) => {
            push_field_varint(&mut out, 12, *n as u64);
        },
        None => {
        },
    }
    proof {
        assert(out@ =~= spec_encode_options(*o));
    }
    out
}


/// The key sequence of an ASCII literal.
pub open spec fn spec_key(s: Seq<char>) -> Seq<u8> {
    Seq::new(s.len(), |i: int| s[i] as u8)
}

/// The travel mode a costing name denotes.
pub open spec fn spec_costing_of_name(s: Seq<u8>) -> Option<CostingType> {
    if s == spec_key("auto"@) {
        Some(CostingType::Auto)
    } else if s == spec_key("bicycle"@) {
        Some(CostingType::Bicycle)
    } else if s == spec_key("pedestrian"@) {
        Some(CostingType::Pedestrian)
    } else if s == spec_key("truck"@) {
        Some(CostingType::Truck)
    } else if s == spec_key("bus"@) {
        Some(CostingType::Bus)
    } else if s == spec_key("taxi"@) {
        Some(CostingType::Taxi)
    } else if s == spec_key("motor_scooter"@) {
        Some(CostingType::Moped)
    } else if s == spec_key("motorcycle"@) {
        Some(CostingType::Motorcycle)
    } else {
        None
    }
}

/// The travel mode `b` names.
pub fn costing_of_name(b: &Vec<u8>) -> (r: Option<CostingType>)
    ensures
        r == spec_costing_of_name(b@),
{
    proof {
        reveal_strlit("auto");
        reveal_strlit("bicycle");
        reveal_strlit("pedestrian");
        reveal_strlit("truck");
        reveal_strlit("bus");
        reveal_strlit("taxi");
        reveal_strlit("motor_scooter");
        reveal_strlit("motorcycle");
    }
    if crate::json::key_is(b, "auto") {
        Some(CostingType::Auto)
    } else if crate::json::key_is(b, "bicycle") {
        Some(CostingType::Bicycle)
    } else if crate::json::key_is(b, "pedestrian") {
        Some(CostingType::Pedestrian)
    } else if crate::json::key_is(b, "truck") {
        Some(CostingType::Truck)
    } else if crate::json::key_is(b, "bus") {
        Some(CostingType::Bus)
    } else if crate::json::key_is(b, "taxi") {
        Some(CostingType::Taxi)
    } else if crate::json::key_is(b, "motor_scooter") {
        Some(CostingType::Moped)
    } else if crate::json::key_is(b, "motorcycle") {
        Some(CostingType::Motorcycle)
    } else {
        None
    }
}

/// The unit choice a name denotes.
pub open spec fn spec_units_of_name(s: Seq<u8>) -> Option<Units> {
    if s == spec_key("kilometers"@) {
        Some(Units::Kilometers)
    } else if s == spec_key("miles"@) {
        Some(Units::Miles)
    } else {
        None
    }
}

/// The unit choice `b` names.
pub fn units_of_name(b: &Vec<u8>) -> (r: Option<Units>)
    ensures
        r == spec_units_of_name(b@),
{
    proof {
        reveal_strlit("kilometers");
        reveal_strlit("miles");
    }
    if crate::json::key_is(b, "kilometers") {
        Some(Units::Kilometers)
    } else if crate::json::key_is(b, "miles") {
        Some(Units::Miles)
    } else {
        None
    }
}

/// The format a name denotes.
pub open spec fn spec_format_of_name(s: Seq<u8>) -> Option<Format> {
    if s == spec_key("json"@) {
        Some(Format::Json)
    } else if s == spec_key("gpx"@) {
        Some(Format::Gpx)
    } else if s == spec_key("osrm"@) {
        Some(Format::Osrm)
    } else if s == spec_key("pbf"@) {
        Some(Format::Pbf)
    } else if s == spec_key("geotiff"@) {
        Some(Format::Geotiff)
    } else {
        None
    }
}

/// The format `b` names.
pub fn format_of_name(b: &Vec<u8>) -> (r: Option<Format>)
    ensures
        r == spec_format_of_name(b@),
{
    proof {
        reveal_strlit("json");
        reveal_strlit("gpx");
        reveal_strlit("osrm");
        reveal_strlit("pbf");
        reveal_strlit("geotiff");
    }
    if crate::json::key_is(b, "json") {
        Some(Format::Json)
    } else if crate::json::key_is(b, "gpx") {
        Some(Format::Gpx)
    } else if crate::json::key_is(b, "osrm") {
        Some(Format::Osrm)
    } else if crate::json::key_is(b, "pbf") {
        Some(Format::Pbf)
    } else if crate::json::key_is(b, "geotiff") {
        Some(Format::Geotiff)
    } else {
        None
    }
}

/// The coordinate a location model holds: its latitude and longitude
/// members, both numbers, in millionths.
pub open spec fn spec_model_loc_of(m: crate::json::JsonModel) -> Option<LatLon> {
    match crate::json::spec_model_get(m, spec_key("lat"@)) {
        Some(la) => match crate::json::spec_model_get(m, spec_key("lon"@)) {
            Some(lo) => if la is Num && lo is Num {
                Some(LatLon(la->Num_0, lo->Num_0))
            } else {
                None
            },
            None => None,
        },
        None => None,
    }
}

/// Whether a model is a list of well-formed location objects.
pub open spec fn spec_model_locs_ok(m: crate::json::JsonModel) -> bool {
    &&& m is Arr
    &&& forall|j: int|
        0 <= j < m->Arr_0.len() ==> spec_model_loc_of(#[trigger] m->Arr_0[j]) is Some
}

/// Whether a request document is accepted: every member the lowering
/// reads is absent or has the right shape, every name is recognized, and
/// every coordinate list is well formed. Members the lowering does not
/// read are ignored.
pub open spec fn spec_request_ok(m: crate::json::JsonModel) -> bool {
    &&& match crate::json::spec_model_get(m, spec_key("costing"@)) {
        Some(c) => c is Str && spec_costing_of_name(c->Str_0) is Some,
        None => true,
    }
    &&& match crate::json::spec_model_get(m, spec_key("units"@)) {
        Some(u) => u is Str && spec_units_of_name(u->Str_0) is Some,
        None => true,
    }
    &&& match crate::json::spec_model_get(m, spec_key("format"@)) {
        Some(f) => f is Str && spec_format_of_name(f->Str_0) is Some,
        None => true,
    }
    &&& match crate::json::spec_model_get(m, spec_key("verbose"@)) {
        Some(b) => b is Bool,
        None => true,
    }
    &&& match crate::json::spec_model_get(m, spec_key("alternates"@)) {
        Some(a) => a is Num && 0 <= a->Num_0 && a->Num_0 / 1000000 <= u32::MAX,
        None => true,
    }
    &&& match crate::json::spec_model_get(m, spec_key("locations"@)) {
        Some(l) => spec_model_locs_ok(l),
        None => true,
    }
    &&& match crate::json::spec_model_get(m, spec_key("sources"@)) {
        Some(l) => spec_model_locs_ok(l),
        None => true,
    }
    &&& match crate::json::spec_model_get(m, spec_key("targets"@)) {
        Some(l) => spec_model_locs_ok(l),
        None => true,
    }
    &&& match crate::json::spec_model_get(m, spec_key("encoded_polyline"@)) {
        Some(p) => p is Str && crate::config::spec_all_ascii(p->Str_0),
        None => true,
    }
}

/// Whether the coordinates `out` are the ones the location list `m`
/// holds, element for element.
pub open spec fn spec_locs_match(m: crate::json::JsonModel, out: Seq<RequestLocation>) -> bool {
    &&& m is Arr
    &&& out.len() == m->Arr_0.len()
    &&& forall|j: int|
        0 <= j < m->Arr_0.len() ==> spec_model_loc_of(#[trigger] m->Arr_0[j]) == Some(
            out[j].ll,
        )
}

/// How an accepted request document determines the typed request: each
/// member the lowering reads lands in its field, absent members leave
/// the default, and the members the lowering does not read leave their
/// fields untouched.
pub open spec fn spec_request_fields(m: crate::json::JsonModel, o: Options) -> bool {
    &&& match crate::json::spec_model_get(m, spec_key("costing"@)) {
        Some(c) => c is Str && spec_costing_of_name(c->Str_0) == Some(o.costing.costing_type),
        None => o.costing.costing_type == CostingType::Auto,
    }
    &&& match crate::json::spec_model_get(m, spec_key("units"@)) {
        Some(u) => u is Str && spec_units_of_name(u->Str_0) == Some(o.units),
        None => o.units == Units::Kilometers,
    }
    &&& match crate::json::spec_model_get(m, spec_key("format"@)) {
        Some(f) => f is Str && spec_format_of_name(f->Str_0) == Some(o.format),
        None => o.format == Format::Json,
    }
    &&& match crate::json::spec_model_get(m, spec_key("verbose"@)) {
        Some(b) => b is Bool && o.verbose == b->Bool_0,
        None => !o.verbose,
    }
    &&& match crate::json::spec_model_get(m, spec_key("alternates"@)) {
        Some(a) => a is Num && o.alternates == Some((a->Num_0 / 1000000) as u32),
        None => o.alternates is None,
    }
    &&& match crate::json::spec_model_get(m, spec_key("locations"@)) {
        Some(l) => spec_locs_match(l, o.locations@),
        None => o.locations@.len() == 0,
    }
    &&& match crate::json::spec_model_get(m, spec_key("sources"@)) {
        Some(l) => spec_locs_match(l, o.sources@),
        None => o.sources@.len() == 0,
    }
    &&& match crate::json::spec_model_get(m, spec_key("targets"@)) {
        Some(l) => spec_locs_match(l, o.targets@),
        None => o.targets@.len() == 0,
    }
    &&& match crate::json::spec_model_get(m, spec_key("encoded_polyline"@)) {
        Some(p) => {
            &&& p is Str
            &&& o.encoded_polyline matches Some(t)
            &&& t@.len() == p->Str_0.len()
            &&& forall|j: int|
                0 <= j < p->Str_0.len() ==> (#[trigger] o.encoded_polyline->0@[j] as u8)
                    == p->Str_0[j]
        },
        None => o.encoded_polyline is None,
    }
    &&& o.contours@.len() == 0
    &&& o.expansion_action is None
}

/// Reads the coordinate of one location object.
fn loc_of_value(v: &crate::json::JsonValue) -> (r: Option<RequestLocation>)
    ensures
        match r {
            Some(l) => spec_model_loc_of(crate::json::json_model(*v)) == Some(l.ll),
            None => spec_model_loc_of(crate::json::json_model(*v)) is None,
        },
{
    proof {
        reveal_strlit("lat");
        reveal_strlit("lon");
        crate::json::lemma_get_model(*v, spec_key("lat"@));
        crate::json::lemma_get_model(*v, spec_key("lon"@));
    }
    let la = match crate::json::get_member(v, "lat") {
        Some(m) => m,
        None => {
            return None;
        },
    };
    let lo = match crate::json::get_member(v, "lon") {
        Some(m) => m,
        None => {
            return None;
        },
    };
    match (la, lo) {
        (crate::json::JsonValue::Num(a), crate::json::JsonValue::Num(b)) => Some(
            RequestLocation { ll: LatLon(*a, *b) },
        ),
        _ => None,
    }
}

/// Reads a list of location objects: accepted exactly when the member is
/// an array of well-formed locations.
fn locations_of(v: &crate::json::JsonValue) -> (r: Result<Vec<RequestLocation>, Error>)
    ensures
        r is Ok <==> spec_model_locs_ok(crate::json::json_model(*v)),
        r is Ok ==> spec_locs_match(crate::json::json_model(*v), r->Ok_0@),
        r is Err ==> r == Result::<Vec<RequestLocation>, Error>::Err(Error::ParseError),
{
    let items = match v {
        crate::json::JsonValue::Arr(items) => items,
        _ => {
            return Err(Error::ParseError);
        },
    };
    proof {
        assert(crate::json::json_model(*v)->Arr_0 =~= crate::json::json_models(items@));
    }
    let n = items.len();
    let mut out: Vec<RequestLocation> = Vec::new();
    let mut i: usize = 0;
    while i < n
        invariant
            *v == crate::json::JsonValue::Arr(*items),
            crate::json::json_model(*v)->Arr_0 == crate::json::json_models(items@),
            crate::json::json_model(*v) is Arr,
            n == items@.len(),
            i <= n,
            out@.len() == i,
            forall|j: int|
                0 <= j < i ==> spec_model_loc_of(
                    #[trigger] crate::json::json_models(items@)[j],
                ) == Some(out@[j].ll),
        decreases n - i,
    {
        proof {
            assert(crate::json::json_models(items@)[i as int] == crate::json::json_model(
                items@[i as int],
            ));
        }
        match loc_of_value(&items[i]) {
            Some(l) => {
                out.push(l);
            },
            None => {
                return Err(Error::ParseError);
            },
        }
        i = i + 1;
    }
    Ok(out)
}

/// Lowers a parsed request document to the typed request for `action`:
/// accepted exactly when every member the lowering reads is well formed.
/// Members it does not read, and members that are absent, leave the
/// typed request's defaults in place.
pub fn lower_request(doc: &crate::json::JsonValue, action: Action) -> (r: Result<Options, Error>)
    ensures
        r is Ok <==> spec_request_ok(crate::json::json_model(*doc)),
        r is Ok ==> r->Ok_0.action == action,
        r is Ok ==> spec_request_fields(crate::json::json_model(*doc), r->Ok_0),
        r is Err ==> r == Result::<Options, Error>::Err(Error::ParseError),
{
    proof {
        reveal_strlit("costing");
        reveal_strlit("units");
        reveal_strlit("format");
        reveal_strlit("verbose");
        reveal_strlit("alternates");
        reveal_strlit("locations");
        reveal_strlit("sources");
        reveal_strlit("targets");
        reveal_strlit("encoded_polyline");
        crate::json::lemma_get_model(*doc, spec_key("costing"@));
        crate::json::lemma_get_model(*doc, spec_key("units"@));
        crate::json::lemma_get_model(*doc, spec_key("format"@));
        crate::json::lemma_get_model(*doc, spec_key("verbose"@));
        crate::json::lemma_get_model(*doc, spec_key("alternates"@));
        crate::json::lemma_get_model(*doc, spec_key("locations"@));
        crate::json::lemma_get_model(*doc, spec_key("sources"@));
        crate::json::lemma_get_model(*doc, spec_key("targets"@));
        crate::json::lemma_get_model(*doc, spec_key("encoded_polyline"@));
    }
    let mut o = Options::default();
    o.action = action;
    match crate::json::get_member(doc, "costing") {
        Some(c) => match c {
            crate::json::JsonValue::Str(name) => match costing_of_name(name) {
                Some(t) => {
                    o.costing.costing_type = t;
                },
                None => {
                    return Err(Error::ParseError);
                },
            },
            _ => {
                return Err(Error::ParseError);
            },
        },
        None => {
        },
    }
    match crate::json::get_member(doc, "units") {
        Some(u) => match u {
            crate::json::JsonValue::Str(name) => match units_of_name(name) {
                Some(t) => {
                    o.units = t;
                },
                None => {
                    return Err(Error::ParseError);
                },
            },
            _ => {
                return Err(Error::ParseError);
            },
        },
        None => {
        },
    }
    match crate::json::get_member(doc, "format") {
        Some(f) => match f {
            crate::json::JsonValue::Str(name) => match format_of_name(name) {
                Some(t) => {
                    o.format = t;
                },
                None => {
                    return Err(Error::ParseError);
                },
            },
            _ => {
                return Err(Error::ParseError);
            },
        },
        None => {
        },
    }
    match crate::json::get_member(doc, "verbose") {
        Some(b) => match b {
            crate::json::JsonValue::Bool(v) => {
                o.verbose = *v;
            },
            _ => {
                return Err(Error::ParseError);
            },
        },
        None => {
        },
    }
    match crate::json::get_member(doc, "alternates") {
        Some(a) => match a {
            crate::json::JsonValue::Num(micro) => {
                if *micro < 0 {
                    return Err(Error::ParseError);
                }
                let whole = *micro / 1000000;
                if whole > u32::MAX as i64 {
                    return Err(Error::ParseError);
                }
                o.alternates = Some(whole as u32);
            },
            _ => {
                return Err(Error::ParseError);
            },
        },
        None => {
        },
    }
    match crate::json::get_member(doc, "locations") {
        Some(ls) => match locations_of(ls) {
            Ok(v) => {
                o.locations = v;
            },
            Err(e) => {
                return Err(e);
            },
        },
        None => {
        },
    }
    match crate::json::get_member(doc, "sources") {
        Some(ls) => match locations_of(ls) {
            Ok(v) => {
                o.sources = v;
            },
            Err(e) => {
                return Err(e);
            },
        },
        None => {
        },
    }
    match crate::json::get_member(doc, "targets") {
        Some(ls) => match locations_of(ls) {
            Ok(v) => {
                o.targets = v;
            },
            Err(e) => {
                return Err(e);
            },
        },
        None => {
        },
    }
    match crate::json::get_member(doc, "encoded_polyline") {
        Some(p) => match p {
            crate::json::JsonValue::Str(bytes) => {
                if !crate::tile::check_ascii_range(bytes, 0, bytes.len()) {
                    return Err(Error::ParseError);
                }
                o.encoded_polyline = Some(crate::text::ascii_to_string(bytes));
            },
            _ => {
                return Err(Error::ParseError);
            },
        },
        None => {
        },
    }
    Ok(o)
}

/// Converts a request's JSON text to the typed request for `action`:
/// accepted exactly when the text is a JSON document whose request
/// members are well formed, and then lowered to the typed form the
/// document determines.
pub fn parse_json_request(json: &str, action: Action) -> (r: Result<Options, Error>)
    ensures
        r is Ok <==> (crate::json::spec_json_parse(json.spec_bytes()) is Some
            && spec_request_ok(crate::json::spec_json_parse(json.spec_bytes())->0)),
        r is Ok ==> r->Ok_0.action == action,
        r is Ok ==> spec_request_fields(
            crate::json::spec_json_parse(json.spec_bytes())->0,
            r->Ok_0,
        ),
        r is Err ==> r == Result::<Options, Error>::Err(Error::ParseError),
{
    let bytes = json.as_bytes_vec();
    let doc = match crate::json::parse_json(&bytes) {
        Ok(v) => v,
        Err(_) => {
            return Err(Error::ParseError);
        },
    };
    match lower_request(&doc, action) {
        Ok(o) => Ok(o),
        Err(e) => Err(e),
    }
}

/// Prepares one backend call: refuses up front an endpoint and format
/// pair the backend cannot serve, and otherwise serializes the request
/// to the canonical wire form for `action`.
pub fn prepare_request(action: Action, o: &Options) -> (r: Result<Vec<u8>, Error>)
    requires
        match o.encoded_polyline {
            Some(s) => vstd::string::string_is_ascii(&s),
            None => true,
        },
        forall|i: int|
            0 <= i < o.contours@.len() ==> vstd::string::string_is_ascii(
                &(#[trigger] o.contours@[i]).color,
            ),
    ensures
        spec_response_policy(action, o.format) == ResponseKind::Rejected <==> r == Result::<
            Vec<u8>,
            Error,
        >::Err(Error::BackendError),
        spec_response_policy(action, o.format) != ResponseKind::Rejected <==> r is Ok,
        r is Ok ==> r->Ok_0@ == spec_encode_options(*o),
{
    match check_request_format(action, o.format) {
        Ok(()) => Ok(encode_options(o)),
        Err(e) => Err(e),
    }
}

} // verus!
