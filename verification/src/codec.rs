//! The payload codec: from a command to the data point that a device of a
//! given family understands, and from a device's response back to a command.

use crate::command::{compatible, DeviceType, SwitchCommand};
use crate::text::text_eq;
use vstd::prelude::*;
use vstd::string::StringExecFns;

verus! {

/// The value of a data point, as far as the codec reads it: a boolean, a
/// text, or anything else.
#[derive(Clone, Debug, PartialEq, Eq)]
pub enum DpsValue {
    Bool(bool),
    Text(String),
    Other,
}

/// What a `DpsValue` stands for.
pub enum DpsValueView {
    Bool(bool),
    Text(Seq<char>),
    Other,
}

impl View for DpsValue {
    type V = DpsValueView;

    open spec fn view(&self) -> DpsValueView {
        match self {
            DpsValue::Bool(b) => DpsValueView::Bool(*b),
            DpsValue::Text(s) => DpsValueView::Text(s@),
            DpsValue::Other => DpsValueView::Other,
        }
    }
}

impl DeepView for DpsValue {
    type V = DpsValueView;

    open spec fn deep_view(&self) -> DpsValueView {
        self@
    }
}

/// One keyed value of a device's state.
#[derive(Clone, Debug, PartialEq, Eq)]
pub struct DataPoint {
    pub key: String,
    pub value: DpsValue,
}

/// What a `DataPoint` stands for.
pub struct DataPointView {
    pub key: Seq<char>,
    pub value: DpsValueView,
}

impl View for DataPoint {
    type V = DataPointView;

    open spec fn view(&self) -> DataPointView {
        DataPointView { key: self.key@, value: self.value@ }
    }
}

impl DeepView for DataPoint {
    type V = DataPointView;

    open spec fn deep_view(&self) -> DataPointView {
        self@
    }
}

/// What a device answered, in one of the two shapes that the protocol
/// knows: its data points, or a text that holds them serialised. The data
/// points are a mapping from keys to values, written as a list: no two of
/// them have the same key (`distinct_keys`), and their order says nothing.
#[derive(Clone, Debug, PartialEq, Eq)]
pub enum RawResponse {
    Structured(Vec<DataPoint>),
    Text(String),
}

/// What a `RawResponse` stands for.
pub enum RawResponseView {
    Structured(Seq<DataPointView>),
    Text(Seq<char>),
}

impl View for RawResponse {
    type V = RawResponseView;

    open spec fn view(&self) -> RawResponseView {
        match self {
            RawResponse::Structured(points) => RawResponseView::Structured(points.deep_view()),
            RawResponse::Text(s) => RawResponseView::Text(s@),
        }
    }
}

impl DeepView for RawResponse {
    type V = RawResponseView;

    open spec fn deep_view(&self) -> RawResponseView {
        self@
    }
}

/// A text response that is no JSON document: the device speaks a revision
/// of the protocol that is not supported.
#[derive(Clone, Copy, Debug, PartialEq, Eq, Structural)]
pub enum DecodeError {
    Malformed,
}

/// The key of the one data point that carries a device's state.
pub open spec fn state_key() -> Seq<char> {
    "1"@
}

/// The field of a text response under which the data points lie.
pub open spec fn points_field() -> Seq<char> {
    "dps"@
}

/// The value that a command is encoded to for a family. `Status` asks
/// without a value, and so does every pair outside the compatibility matrix.
pub open spec fn encode_value(family: DeviceType, command: SwitchCommand) -> Option<DpsValueView> {
    match (family, command) {
        (DeviceType::Switch, SwitchCommand::On) => Some(DpsValueView::Bool(true)),
        (DeviceType::Switch, SwitchCommand::Off) => Some(DpsValueView::Bool(false)),
        (DeviceType::Blind, SwitchCommand::Open) => Some(DpsValueView::Text("1"@)),
        (DeviceType::Blind, SwitchCommand::Close) => Some(DpsValueView::Text("2"@)),
        (DeviceType::Blind, SwitchCommand::Stop) => Some(DpsValueView::Text("3"@)),
        (DeviceType::Blind2, SwitchCommand::Open) => Some(DpsValueView::Text("open"@)),
        (DeviceType::Blind2, SwitchCommand::Close) => Some(DpsValueView::Text("close"@)),
        (DeviceType::Blind2, SwitchCommand::Stop) => Some(DpsValueView::Text("stop"@)),
        _ => None,
    }
}

/// The data point that a command is encoded to for a family.
pub open spec fn encode_spec(family: DeviceType, command: SwitchCommand) -> Option<DataPointView> {
    match encode_value(family, command) {
        Some(value) => Some(DataPointView { key: state_key(), value }),
        None => None,
    }
}

/// The command that a value of the state data point stands for.
pub open spec fn decode_value(value: DpsValueView) -> Option<SwitchCommand> {
    match value {
        DpsValueView::Bool(b) => Some(
            if b {
                SwitchCommand::On
            } else {
                SwitchCommand::Off
            },
        ),
        DpsValueView::Text(s) => {
            if s == "1"@ || s == "open"@ {
                Some(SwitchCommand::Open)
            } else if s == "2"@ || s == "close"@ {
                Some(SwitchCommand::Close)
            } else if s == "3"@ || s == "stop"@ {
                Some(SwitchCommand::Stop)
            } else {
                None
            }
        },
        DpsValueView::Other => None,
    }
}

/// The value of the first data point with the given key.
pub open spec fn lookup(points: Seq<DataPointView>, key: Seq<char>) -> Option<DpsValueView>
    decreases points.len(),
{
    if points.len() == 0 {
        None
    } else if points[0].key == key {
        Some(points[0].value)
    } else {
        lookup(points.drop_first(), key)
    }
}

/// Whether no two of the data points have the same key, as in a mapping
/// from keys to values.
pub open spec fn distinct_keys(points: Seq<DataPointView>) -> bool {
    forall|i: int, j: int|
        0 <= i < j < points.len() ==> (#[trigger] points[i]).key != (#[trigger] points[j]).key
}

/// The command that a list of data points reports: what the state data
/// point stands for, if the list holds one.
pub open spec fn decode_points(points: Seq<DataPointView>) -> Option<SwitchCommand> {
    match lookup(points, state_key()) {
        Some(value) => decode_value(value),
        None => None,
    }
}

/// What a text response decodes to, given the value that lies in it under
/// the points field and the state key, or none where the text is no JSON
/// document.
pub open spec fn decode_parsed(parsed: Option<DpsValueView>) -> Result<
    Option<SwitchCommand>,
    DecodeError,
> {
    match parsed {
        Some(value) => Ok(decode_value(value)),
        None => Err(DecodeError::Malformed),
    }
}

/// The value that a JSON text holds in the member `inner` of its member
/// `outer`, as `serde_json` reads the text; none where the text is no JSON
/// document.
pub uninterp spec fn json_member(text: Seq<char>, outer: Seq<char>, inner: Seq<char>) -> Option<
    DpsValueView,
>;

/// What a response decodes to.
pub open spec fn decode_spec(response: RawResponseView) -> Result<Option<SwitchCommand>, DecodeError> {
    match response {
        RawResponseView::Structured(points) => Ok(decode_points(points)),
        RawResponseView::Text(text) => decode_parsed(json_member(text, points_field(), state_key())),
    }
}

/// The response in which a device reports the given data point.
pub open spec fn response_of(point: DataPointView) -> RawResponseView {
    RawResponseView::Structured(seq![point])
}

/// Parses `text` with `serde_json::from_str` and reads `text[outer][inner]`
/// through `serde_json`'s indexing, which gives JSON null wherever a member
/// is missing or the value indexed is no object. The result is none where
/// parsing failed; otherwise it tells a boolean and a string, with what they
/// hold, from every other kind of value. The contract only names that
/// result: `json_member`.
#[verifier::external_body]
fn read_json_member(text: &str, outer: &str, inner: &str) -> (r: Option<DpsValue>)
    ensures
        r.deep_view() == json_member(text@, outer@, inner@),
{
    match serde_json::from_str::<serde_json::Value>(text) {
        Ok(document) => Some(
            match &document[outer][inner] {
                serde_json::Value::Bool(b) => DpsValue::Bool(*b),
                serde_json::Value::String(s) => DpsValue::Text(s.clone()),
                serde_json::Value::Null
                | serde_json::Value::Number(_)
                | serde_json::Value::Array(_)
                | serde_json::Value::Object(_) => DpsValue::Other,
            },
        ),
        Err(_) => None,
    }
}

/// Encodes `command` for a device of `family`: the state data point with
/// the value that the family understands, or none for `Status`, which asks
/// without a payload.
pub fn encode(family: DeviceType, command: SwitchCommand) -> (r: Option<DataPoint>)
    requires
        compatible(family, command),
    ensures
        r.deep_view() == encode_spec(family, command),
        r is None <==> command is Status,
{
    let value = match (family, command) {
        (_, SwitchCommand::Status) => {
            return None;
        },
        (_, SwitchCommand::On) => DpsValue::Bool(true),
        (_, SwitchCommand::Off) => DpsValue::Bool(false),
        (DeviceType::Blind2, SwitchCommand::Open) => DpsValue::Text(String::from_str("open")),
        (DeviceType::Blind2, SwitchCommand::Close) => DpsValue::Text(String::from_str("close")),
        (DeviceType::Blind2, SwitchCommand::Stop) => DpsValue::Text(String::from_str("stop")),
        (_, SwitchCommand::Open) => DpsValue::Text(String::from_str("1")),
        (_, SwitchCommand::Close) => DpsValue::Text(String::from_str("2")),
        (_, SwitchCommand::Stop) => DpsValue::Text(String::from_str("3")),
    };
    Some(DataPoint { key: String::from_str("1"), value })
}

/// The command that a value of the state data point stands for: `On` or
/// `Off` for a boolean, `Open`, `Close` or `Stop` for the texts that either
/// kind of blind uses, none for anything else.
pub fn parse_value(value: &DpsValue) -> (r: Option<SwitchCommand>)
    ensures
        r == decode_value(value@),
{
    match value {
        DpsValue::Bool(b) => {
            if *b {
                Some(SwitchCommand::On)
            } else {
                Some(SwitchCommand::Off)
            }
        },
        DpsValue::Text(s) => {
            let s = s.as_str();
            if text_eq(s, "1") || text_eq(s, "open") {
                Some(SwitchCommand::Open)
            } else if text_eq(s, "2") || text_eq(s, "close") {
                Some(SwitchCommand::Close)
            } else if text_eq(s, "3") || text_eq(s, "stop") {
                Some(SwitchCommand::Stop)
            } else {
                None
            }
        },
        DpsValue::Other => None,
    }
}

/// What a text response decodes to, given what was read from it: the value
/// that lies under the points field and the state key, or none where the
/// text was no JSON document, which is an error.
pub fn parse_member(member: Option<DpsValue>) -> (r: Result<Option<SwitchCommand>, DecodeError>)
    ensures
        r == decode_parsed(member.deep_view()),
{
    match member {
        Some(value) => Ok(parse_value(&value)),
        None => Err(DecodeError::Malformed),
    }
}

/// The value of the first of `points` whose key is `key`.
pub fn find_point<'a>(points: &'a Vec<DataPoint>, key: &str) -> (r: Option<&'a DpsValue>)
    ensures
        r.deep_view() == lookup(points.deep_view(), key@),
{
    let ghost all = points.deep_view();
    let mut i: usize = 0;
    assert(all.skip(0) == all);
    while i < points.len()
        invariant
            i <= points.len(),
            all == points.deep_view(),
            lookup(all, key@) == lookup(all.skip(i as int), key@),
        decreases points.len() - i,
    {
        let ghost rest = all.skip(i as int);
        assert(rest[0] == points[i as int]@);
        if text_eq(points[i].key.as_str(), key) {
            return Some(&points[i].value);
        }
        assert(rest.drop_first() == all.skip(i + 1));
        i += 1;
    }
    None
}

/// Decodes a response. Data points are searched for the state data point; a
/// text is parsed as JSON and searched under its points field. Where the
/// state is missing or is no value that the codec knows, there is no
/// result. A text that is no JSON document is an error.
pub fn parse_message(message: &RawResponse) -> (r: Result<Option<SwitchCommand>, DecodeError>)
    ensures
        r == decode_spec(message@),
{
    match message {
        RawResponse::Structured(points) => {
            match find_point(points, "1") {
                Some(value) => Ok(parse_value(value)),
                None => Ok(None),
            }
        },
        RawResponse::Text(text) => parse_member(read_json_member(text.as_str(), "dps", "1")),
    }
}

/// Decoding undoes encoding: the response in which a device reports the
/// data point that a command was encoded to decodes to that command, for
/// every family and every command that the family accepts, `Status` apart.
pub proof fn lemma_decode_encode(family: DeviceType, command: SwitchCommand)
    requires
        compatible(family, command),
        !(command is Status),
    ensures
        encode_spec(family, command) is Some,
        decode_spec(response_of(encode_spec(family, command)->0)) == Ok::<
            Option<SwitchCommand>,
            DecodeError,
        >(Some(command)),
{
    reveal_strlit("1");
    reveal_strlit("2");
    reveal_strlit("3");
    reveal_strlit("open");
    reveal_strlit("close");
    reveal_strlit("stop");
    let point = encode_spec(family, command)->0;
    assert(seq![point][0] == point);
    assert("1"@[0] != "2"@[0] && "1"@[0] != "3"@[0] && "2"@[0] != "3"@[0]);
    assert("open"@[0] != "close"@[0] && "open"@[0] != "stop"@[0]);
}

/// What `lookup` finds is one of the data points, and has the key.
pub proof fn lemma_lookup_is_member(points: Seq<DataPointView>, key: Seq<char>)
    ensures
        match lookup(points, key) {
            Some(value) => points.contains(DataPointView { key, value }),
            None => forall|i: int| 0 <= i < points.len() ==> (#[trigger] points[i]).key != key,
        },
    decreases points.len(),
{
    if points.len() > 0 {
        if points[0].key == key {
            assert(points[0] == DataPointView { key, value: points[0].value });
        } else {
            let rest = points.drop_first();
            lemma_lookup_is_member(rest, key);
            match lookup(rest, key) {
                Some(value) => {
                    let found = DataPointView { key, value };
                    let i = choose|i: int| 0 <= i < rest.len() && rest[i] == found;
                    assert(points[i + 1] == found);
                },
                None => {
                    assert forall|i: int| 0 <= i < points.len() implies (#[trigger] points[i]).key
                        != key by {
                        if i > 0 {
                            assert(rest[i - 1] == points[i]);
                        }
                    }
                },
            }
        }
    }
}

/// Among data points with distinct keys, `lookup` finds the value of
/// every point under its key, wherever the point stands.
pub proof fn lemma_lookup_finds_each(points: Seq<DataPointView>, i: int)
    requires
        distinct_keys(points),
        0 <= i < points.len(),
    ensures
        lookup(points, points[i].key) == Some(points[i].value),
{
    let key = points[i].key;
    lemma_lookup_is_member(points, key);
    match lookup(points, key) {
        Some(value) => {
            let found = DataPointView { key, value };
            let j = choose|j: int| 0 <= j < points.len() && points[j] == found;
            if j < i {
                assert(points[j].key != points[i].key);
            } else if i < j {
                assert(points[i].key != points[j].key);
            }
        },
        None => {
            assert(points[i].key != key);
        },
    }
}

/// Data points with distinct keys are a mapping: the order in which they
/// stand does not matter. Two lists that hold the same points, each with
/// distinct keys, give the same value for every key, and so decode to the
/// same command.
pub proof fn lemma_lookup_any_order(a: Seq<DataPointView>, b: Seq<DataPointView>, key: Seq<char>)
    requires
        distinct_keys(a),
        distinct_keys(b),
        forall|p: DataPointView| a.contains(p) <==> b.contains(p),
    ensures
        lookup(a, key) == lookup(b, key),
        decode_points(a) == decode_points(b),
{
    lemma_lookup_same(a, b, key);
    lemma_lookup_same(a, b, state_key());
}

/// The step of `lemma_lookup_any_order` for one key.
proof fn lemma_lookup_same(a: Seq<DataPointView>, b: Seq<DataPointView>, key: Seq<char>)
    requires
        distinct_keys(a),
        distinct_keys(b),
        forall|p: DataPointView| a.contains(p) <==> b.contains(p),
    ensures
        lookup(a, key) == lookup(b, key),
{
    lemma_lookup_is_member(a, key);
    lemma_lookup_is_member(b, key);
    match lookup(a, key) {
        Some(value) => {
            let found = DataPointView { key, value };
            assert(b.contains(found));
            let j = choose|j: int| 0 <= j < b.len() && b[j] == found;
            lemma_lookup_finds_each(b, j);
        },
        None => {
            match lookup(b, key) {
                Some(value) => {
                    let found = DataPointView { key, value };
                    assert(a.contains(found));
                    let i = choose|i: int| 0 <= i < a.len() && a[i] == found;
                    assert(a[i].key == key);
                },
                None => {},
            }
        },
    }
}

} // verus!
