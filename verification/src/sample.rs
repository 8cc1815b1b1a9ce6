//! Sensor samples: what a payload holds, which payloads are kept, and how a
//! sensor's label and store path are derived.

use vstd::prelude::*;
use vstd::string::*;

use crate::json::{number_of, text_of, value_number, value_text};
use crate::text::{chars_of, decimal, decimal_text, digits_value, lemma_digits_plain};

verus! {

/// Why a line yields no sample.
#[derive(Clone, Debug, PartialEq, Eq)]
pub enum ParseError {
    /// The line has fewer than eight space-delimited fields.
    MalformedFrame,
    /// The payload could not be decoded; the decoder's words are kept.
    InvalidPayload(String),
    /// The sample comes from a kind of sensor that is not recorded.
    UnsupportedSensorType,
    /// The sample holds no temperature.
    MissingTemperature,
}

/// The channel of a sensor, as far as a label can show it.
#[derive(Clone, Debug, PartialEq, Eq)]
pub enum Channel {
    /// A channel given as an integer.
    Number(i32),
    /// A channel given as a string.
    Text(String),
    /// A channel that is neither.
    Other,
}

/// What a payload holds.  The two readings are kept in decimal notation.
#[derive(Clone, Debug, PartialEq, Eq)]
pub struct RawSample {
    /// Name of the sensor's model.
    pub model: String,
    /// Number of the sensor.
    pub id: Option<i32>,
    pub channel: Option<Channel>,
    /// Temperature in degrees Celsius.
    pub temperature_c: Option<String>,
    /// Relative humidity in percent.
    pub humidity: Option<String>,
    /// Kind of sensor, where the payload names one.
    pub ttype: Option<String>,
}

/// A sample that is ready to be stored.
#[derive(Clone, Debug, PartialEq, Eq)]
pub struct ParsedSample {
    /// The sensor's key.
    pub label: String,
    /// Path of the sensor's store.
    pub store_path: String,
    pub temperature: String,
    pub humidity: String,
}

/// Whether a character of a model name is kept; `&` is dropped.
pub open spec fn kept() -> spec_fn(char) -> bool {
    |c: char| c != '&'
}

/// What a kept character of a model name becomes: space, `/` and `.` turn
/// into `_`.
pub open spec fn replaced() -> spec_fn(char) -> char {
    |c: char|
        if c == ' ' || c == '/' || c == '.' {
            '_'
        } else {
            c
        }
}

/// The model name as it stands in a label.
pub open spec fn sanitized(model: Seq<char>) -> Seq<char> {
    model.filter(kept()).map_values(replaced())
}

/// The channel that a decoded JSON value stands for, given what can be
/// read from it: an integer goes before a string.
pub open spec fn channel_read(number: Option<i32>, text: Option<Seq<char>>, c: Channel) -> bool {
    match number {
        Some(n) => c == Channel::Number(n),
        None => match text {
            Some(t) => c matches Channel::Text(s) && s@ == t,
            None => c is Other,
        },
    }
}

impl ParseError {
    /// The error in words.
    pub open spec fn words(self) -> Seq<char> {
        match self {
            ParseError::MalformedFrame => "Error splitting input string"@,
            ParseError::InvalidPayload(why) => "Error parsing JSON Payload: "@ + why@,
            ParseError::UnsupportedSensorType => "Skipping entry: TPMS sensor"@,
            ParseError::MissingTemperature => "No temperature_c found in syslog data"@,
        }
    }

    /// Puts the error in words.
    pub fn message(&self) -> (m: String)
        ensures
            m@ == self.words(),
    {
        match self {
            ParseError::MalformedFrame => String::from_str("Error splitting input string"),
            ParseError::InvalidPayload(why) => String::from_str(
                "Error parsing JSON Payload: ",
            ).concat(why.as_str()),
            ParseError::UnsupportedSensorType => String::from_str("Skipping entry: TPMS sensor"),
            ParseError::MissingTemperature => String::from_str(
                "No temperature_c found in syslog data",
            ),
        }
    }
}

impl Channel {
    /// What the channel adds to a label.
    pub open spec fn suffix(self) -> Seq<char> {
        match self {
            Channel::Number(n) => ".CH"@ + decimal(n as int),
            Channel::Text(t) => ".CH"@ + t@,
            Channel::Other => Seq::empty(),
        }
    }

    /// Reads the channel from a decoded JSON value.
    pub fn from_json(v: &serde_json::Value) -> (c: Channel)
        ensures
            channel_read(value_number(*v), value_text(*v), c),
    {
        Self::from_readings(number_of(v), text_of(v))
    }

    /// The channel, given the integer and the string that were read from a
    /// JSON value.
    pub fn from_readings(number: Option<i32>, text: Option<String>) -> (c: Channel)
        ensures
            match number {
                Some(n) => c == Channel::Number(n),
                None => match text {
                    Some(t) => c == Channel::Text(t),
                    None => c is Other,
                },
            },
    {
        match number {
            Some(n) => Channel::Number(n),
            None => match text {
                Some(t) => Channel::Text(t),
                None => Channel::Other,
            },
        }
    }
}

impl ParsedSample {
    /// Whether the store of the sample lies in `store_dir` under the
    /// sample's label.
    pub open spec fn kept_under(self, store_dir: Seq<char>) -> bool {
        self.store_path@ == store_dir + self.label@
    }
}

impl RawSample {
    /// Whether the sample comes from a tyre-pressure sensor.
    pub open spec fn excluded(self) -> bool {
        self.ttype matches Some(t) && t@ == "TPMS"@
    }

    /// What channel and id add to the label: the channel where there is
    /// one, else the id, else nothing.
    pub open spec fn suffix(self) -> Seq<char> {
        match self.channel {
            Some(c) => c.suffix(),
            None => match self.id {
                Some(id) => ".ID"@ + decimal(id as int),
                None => Seq::empty(),
            },
        }
    }

    /// The sensor's label.
    pub open spec fn label(self) -> Seq<char> {
        sanitized(self.model@) + self.suffix() + ".rrd"@
    }

    /// The humidity that is stored: `0.0` where the sample holds none.
    pub open spec fn humidity_text(self) -> Seq<char> {
        match self.humidity {
            Some(h) => h@,
            None => "0.0"@,
        }
    }
}

/// Whether a character stands in a label as it is.
pub open spec fn plain(c: char) -> bool {
    c != ' ' && c != '/' && c != '.' && c != '&'
}

/// A sanitized name holds none of the characters that sanitizing replaces
/// or drops.
pub proof fn lemma_sanitized_is_plain(model: Seq<char>)
    ensures
        forall|i: int| 0 <= i < sanitized(model).len() ==> plain(#[trigger] sanitized(model)[i]),
{
    let left = model.filter(kept());
    assert forall|i: int| 0 <= i < sanitized(model).len() implies plain(
        #[trigger] sanitized(model)[i],
    ) by {
        model.lemma_filter_pred(kept(), i);
        assert(sanitized(model)[i] == replaced()(left[i]));
    }
}

/// A name without `&` loses no character.
proof fn lemma_nothing_dropped(name: Seq<char>)
    requires
        forall|i: int| 0 <= i < name.len() ==> #[trigger] name[i] != '&',
    ensures
        name.filter(kept()) == name,
    decreases name.len(),
{
    reveal(Seq::filter);
    if name.len() > 0 {
        lemma_nothing_dropped(name.drop_last());
        assert(name.drop_last().push(name.last()) =~= name);
    }
}

/// A name that holds none of the characters that sanitizing replaces or
/// drops is left as it is.
pub proof fn lemma_plain_is_kept(name: Seq<char>)
    requires
        forall|i: int| 0 <= i < name.len() ==> plain(#[trigger] name[i]),
    ensures
        sanitized(name) == name,
{
    lemma_nothing_dropped(name);
    assert(sanitized(name) =~= name);
}

/// Sanitizing a second time changes nothing.
pub proof fn lemma_sanitize_idempotent(model: Seq<char>)
    ensures
        sanitized(sanitized(model)) == sanitized(model),
{
    lemma_sanitized_is_plain(model);
    lemma_plain_is_kept(sanitized(model));
}

/// The label of a sensor with a numeric channel: the sanitized model, then
/// `.CH`, the channel in decimal, and `.rrd`.  A channel that is not
/// negative is rendered with digits only and without leading zero.
pub proof fn lemma_numeric_channel_label(raw: RawSample, channel: i32)
    requires
        raw.channel == Some(Channel::Number(channel)),
    ensures
        raw.label() == sanitized(raw.model@) + ".CH"@ + decimal(channel as int) + ".rrd"@,
        channel >= 0 ==> {
            let shown = decimal(channel as int);
            &&& shown.len() >= 1
            &&& forall|i: int| 0 <= i < shown.len() ==> '0' <= #[trigger] shown[i] <= '9'
            &&& shown.len() > 1 ==> shown[0] != '0'
            &&& digits_value(shown) == channel
        },
{
    assert(raw.label() =~= sanitized(raw.model@) + ".CH"@ + decimal(channel as int) + ".rrd"@);
    if channel >= 0 {
        lemma_digits_plain(channel as nat);
    }
}

/// The label of a sensor whose channel is a string: the sanitized model,
/// then `.CH`, the string as it is, and `.rrd`.
pub proof fn lemma_text_channel_label(raw: RawSample, channel: String)
    requires
        raw.channel == Some(Channel::Text(channel)),
    ensures
        raw.label() == sanitized(raw.model@) + ".CH"@ + channel@ + ".rrd"@,
{
    assert(raw.label() =~= sanitized(raw.model@) + ".CH"@ + channel@ + ".rrd"@);
}

/// The label of a sensor without channel and id: the sanitized model and
/// `.rrd`.
pub proof fn lemma_bare_label(raw: RawSample)
    requires
        raw.channel is None,
        raw.id is None,
    ensures
        raw.label() == sanitized(raw.model@) + ".rrd"@,
{
    assert(raw.label() =~= sanitized(raw.model@) + ".rrd"@);
}

/// Sanitizes a model name: space, `/` and `.` become `_`, and `&` is
/// dropped.
pub fn sanitize(model: &str) -> (s: String)
    ensures
        s@ == sanitized(model@),
{
    let chars = chars_of(model);
    let mut out = String::new();
    let mut i: usize = 0;
    proof {
        reveal(Seq::filter);
        assert(chars@.take(0).filter(kept()) =~= Seq::<char>::empty());
    }
    while i < chars.len()
        invariant
            i <= chars.len(),
            out@ == sanitized(chars@.take(i as int)),
        decreases chars.len() - i,
    {
        let c = chars[i];
        proof {
            let head = chars@.take(i as int);
            assert(chars@.take(i + 1) =~= head.push(c));
            head.lemma_filter_push(c, kept());
            if c != '&' {
                assert(head.filter(kept()).push(c).map_values(replaced()) =~= head.filter(
                    kept(),
                ).map_values(replaced()).push(replaced()(c)));
            }
        }
        if c == ' ' || c == '/' || c == '.' {
            out.push('_');
        } else if c != '&' {
            out.push(c);
        }
        i += 1;
    }
    assert(chars@.take(chars.len() as int) =~= chars@);
    out
}

/// Turns a decoded payload into a sample that can be stored under
/// `store_dir`.
///
/// A payload that could not be decoded is invalid.  A sample of a
/// tyre-pressure sensor is refused, then one without temperature.  A
/// missing humidity is stored as `0.0`.
pub fn parse(decoded: Result<RawSample, String>, store_dir: &str) -> (r: Result<
    ParsedSample,
    ParseError,
>)
    ensures
        match decoded {
            Err(why) => r matches Err(ParseError::InvalidPayload(text)) && text@ == why@,
            Ok(raw) => if raw.excluded() {
                r matches Err(ParseError::UnsupportedSensorType)
            } else if raw.temperature_c is None {
                r matches Err(ParseError::MissingTemperature)
            } else {
                &&& r matches Ok(p)
                &&& p.label@ == raw.label()
                &&& p.kept_under(store_dir@)
                &&& p.temperature@ == raw.temperature_c->0@
                &&& p.humidity@ == raw.humidity_text()
            },
        },
{
    let raw = match decoded {
        Ok(raw) => raw,
        Err(why) => {
            return Err(ParseError::InvalidPayload(why));
        },
    };
    let RawSample { model, id, channel, temperature_c, humidity, ttype } = raw;
    if let Some(tt) = ttype {
        if tt == String::from_str("TPMS") {
            return Err(ParseError::UnsupportedSensorType);
        }
    }
    let temperature = match temperature_c {
        Some(t) => t,
        None => {
            return Err(ParseError::MissingTemperature);
        },
    };
    let humidity = match humidity {
        Some(h) => h,
        None => String::from_str("0.0"),
    };
    let mut label = sanitize(model.as_str());
    match channel {
        Some(Channel::Number(n)) => {
            label.append(".CH");
            label.append(decimal_text(n).as_str());
        },
        Some(Channel::Text(t)) => {
            label.append(".CH");
            label.append(t.as_str());
        },
        Some(Channel::Other) => {},
        None => {
            if let Some(id) = id {
                label.append(".ID");
                label.append(decimal_text(id).as_str());
            }
        },
    }
    proof {
        assert(label@ =~= sanitized(model@) + raw.suffix());
    }
    label.append(".rrd");
    let mut store_path = String::from_str(store_dir);
    store_path.append(label.as_str());
    Ok(ParsedSample { label, store_path, temperature, humidity })
}

} // verus!
