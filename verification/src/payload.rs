//! Validation: from the bytes of a request body to an observation, or to
//! the defect that makes the body unusable.
//!
//! A body is accepted when it is a JSON object whose members
//! `municipality` and `weather` are strings and whose members `temperature`
//! and `humidity` are whole numbers in the signed 32-bit range. Other
//! members are ignored. A tag that the relay does not know is no defect: it
//! reads as the unknown municipality or condition.

use crate::json::as_i64;
use crate::json::as_str;
use crate::json::get;
use crate::json::is_object;
use crate::json::json_of;
use crate::json::parse;
use crate::json::parsed;
use crate::json::Json;
use crate::observation::Municipality;
use crate::observation::Weather;
use crate::observation::WeatherObservation;
use vstd::prelude::*;

verus! {

/// The four members of a submitted document.
#[derive(Clone, Copy, Debug, PartialEq, Eq, Structural)]
pub enum FieldName {
    Municipality,
    Temperature,
    Humidity,
    Weather,
}

/// Why a body is no observation.
#[derive(Clone, Copy, Debug, PartialEq, Eq, Structural)]
pub enum Defect {
    /// The body is not a JSON document.
    NotJson,
    /// The document is not an object.
    NotAnObject,
    /// The object has no member of this name.
    Missing(FieldName),
    /// The member is not a whole number.
    NotAnInteger(FieldName),
    /// The member is a whole number outside the signed 32-bit range.
    OutOfRange(FieldName),
    /// The member is not a string.
    NotText(FieldName),
}

/// What the relay reads of one member of a submitted document.
#[derive(Clone, Debug, PartialEq, Eq)]
pub enum Field {
    /// The document has no such member.
    Missing,
    /// A whole number in the signed 64-bit range.
    Integer(i64),
    /// A string.
    Text(String),
    /// Anything else.
    Other,
}

/// A `Field` with its string as a sequence of characters.
pub enum FieldView {
    Missing,
    Integer(i64),
    Text(Seq<char>),
    Other,
}

impl View for Field {
    type V = FieldView;

    open spec fn view(&self) -> FieldView {
        match self {
            Field::Missing => FieldView::Missing,
            Field::Integer(n) => FieldView::Integer(*n),
            Field::Text(t) => FieldView::Text(t@),
            Field::Other => FieldView::Other,
        }
    }
}

impl FieldName {
    /// The key under which the member stands in the document.
    pub open spec fn key_text(self) -> Seq<char> {
        match self {
            FieldName::Municipality => "municipality"@,
            FieldName::Temperature => "temperature"@,
            FieldName::Humidity => "humidity"@,
            FieldName::Weather => "weather"@,
        }
    }

    /// The key under which the member stands in the document.
    pub fn key(&self) -> (key: &'static str)
        ensures
            key@ == self.key_text(),
    {
        match self {
            FieldName::Municipality => "municipality",
            FieldName::Temperature => "temperature",
            FieldName::Humidity => "humidity",
            FieldName::Weather => "weather",
        }
    }
}

impl Defect {
    /// The defect in words.
    pub open spec fn description(self) -> Seq<char> {
        match self {
            Defect::NotJson => "body is not valid JSON"@,
            Defect::NotAnObject => "body is not a JSON object"@,
            Defect::Missing(name) => "missing field "@ + name.key_text(),
            Defect::NotAnInteger(name) => "field "@ + name.key_text() + " is not an integer"@,
            Defect::OutOfRange(name) => "field "@ + name.key_text() + " is out of range"@,
            Defect::NotText(name) => "field "@ + name.key_text() + " is not a string"@,
        }
    }

    /// The defect in words.
    pub fn describe(&self) -> (text: String)
        ensures
            text@ == self.description(),
    {
        match self {
            Defect::NotJson => String::from_str("body is not valid JSON"),
            Defect::NotAnObject => String::from_str("body is not a JSON object"),
            Defect::Missing(name) => String::from_str("missing field ").concat(name.key()),
            Defect::NotAnInteger(name) => String::from_str("field ").concat(name.key()).concat(
                " is not an integer",
            ),
            Defect::OutOfRange(name) => String::from_str("field ").concat(name.key()).concat(
                " is out of range",
            ),
            Defect::NotText(name) => String::from_str("field ").concat(name.key()).concat(
                " is not a string",
            ),
        }
    }
}

/// What the relay reads of a member, or of its absence.
pub open spec fn field_of(member: Option<Json>) -> FieldView {
    match member {
        None => FieldView::Missing,
        Some(Json::Integer(n)) => FieldView::Integer(n),
        Some(Json::Text(t)) => FieldView::Text(t),
        Some(_) => FieldView::Other,
    }
}

/// The characters of a member that has to be a string.
pub open spec fn text_in(field: FieldView, name: FieldName) -> Result<Seq<char>, Defect> {
    match field {
        FieldView::Missing => Err(Defect::Missing(name)),
        FieldView::Text(t) => Ok(t),
        _ => Err(Defect::NotText(name)),
    }
}

/// The value of a member that has to be a whole number in the signed 32-bit
/// range.
pub open spec fn number_in(field: FieldView, name: FieldName) -> Result<i32, Defect> {
    match field {
        FieldView::Missing => Err(Defect::Missing(name)),
        FieldView::Integer(n) => if i32::MIN <= n <= i32::MAX {
            Ok(n as i32)
        } else {
            Err(Defect::OutOfRange(name))
        },
        _ => Err(Defect::NotAnInteger(name)),
    }
}

/// The member is present and of the kind that its name asks for: a string
/// for municipality and weather, a whole number in the signed 32-bit range
/// for temperature and humidity.
pub open spec fn fits(field: FieldView, name: FieldName) -> bool {
    match name {
        FieldName::Municipality | FieldName::Weather => text_in(field, name) is Ok,
        FieldName::Temperature | FieldName::Humidity => number_in(field, name) is Ok,
    }
}

/// All four members are present and of the right kind.
pub open spec fn well_formed(
    municipality: FieldView,
    temperature: FieldView,
    humidity: FieldView,
    weather: FieldView,
) -> bool {
    &&& fits(municipality, FieldName::Municipality)
    &&& fits(temperature, FieldName::Temperature)
    &&& fits(humidity, FieldName::Humidity)
    &&& fits(weather, FieldName::Weather)
}

/// The observation that four members make, or the defect of the first
/// member, in the order municipality, temperature, humidity, weather, that
/// has one.
pub open spec fn assembled(
    municipality: FieldView,
    temperature: FieldView,
    humidity: FieldView,
    weather: FieldView,
) -> Result<WeatherObservation, Defect> {
    let m = text_in(municipality, FieldName::Municipality);
    let t = number_in(temperature, FieldName::Temperature);
    let h = number_in(humidity, FieldName::Humidity);
    let w = text_in(weather, FieldName::Weather);
    if m is Err {
        Err(m->Err_0)
    } else if t is Err {
        Err(t->Err_0)
    } else if h is Err {
        Err(h->Err_0)
    } else if w is Err {
        Err(w->Err_0)
    } else {
        Ok(
            WeatherObservation {
                municipality: Municipality::of_tag(m->Ok_0),
                temperature: t->Ok_0,
                humidity: h->Ok_0,
                weather: Weather::of_tag(w->Ok_0),
            },
        )
    }
}

/// The observation that a document holds, or its first defect.
pub open spec fn observation_of(document: Json) -> Result<WeatherObservation, Defect> {
    if document is Object {
        assembled(
            field_of(document.member(FieldName::Municipality.key_text())),
            field_of(document.member(FieldName::Temperature.key_text())),
            field_of(document.member(FieldName::Humidity.key_text())),
            field_of(document.member(FieldName::Weather.key_text())),
        )
    } else {
        Err(Defect::NotAnObject)
    }
}

/// The observation that a body holds, given the document that was read from
/// it, if any was.
pub open spec fn validation_of(document: Option<Json>) -> Result<WeatherObservation, Defect> {
    match document {
        None => Err(Defect::NotJson),
        Some(json) => observation_of(json),
    }
}

/// The document that states `observation`: an object of its four members,
/// municipality and weather by their tags.
pub open spec fn document_of(observation: WeatherObservation) -> Json {
    Json::Object(
        Map::empty().insert(
            FieldName::Municipality.key_text(),
            Json::Text(observation.municipality.tag_text()),
        ).insert(
            FieldName::Temperature.key_text(),
            Json::Integer(observation.temperature as i64),
        ).insert(FieldName::Humidity.key_text(), Json::Integer(observation.humidity as i64)).insert(
            FieldName::Weather.key_text(),
            Json::Text(observation.weather.tag_text()),
        ),
    )
}

/// Reading the document that states an observation gives that observation
/// back: validation loses nothing of what the relay sends on.
pub proof fn lemma_document_round_trip(observation: WeatherObservation)
    ensures
        observation_of(document_of(observation)) == Ok::<WeatherObservation, Defect>(observation),
{
    reveal_strlit("municipality");
    reveal_strlit("temperature");
    reveal_strlit("humidity");
    reveal_strlit("weather");
    assert(FieldName::Municipality.key_text().len() == 12);
    assert(FieldName::Temperature.key_text().len() == 11);
    assert(FieldName::Humidity.key_text().len() == 8);
    assert(FieldName::Weather.key_text().len() == 7);
    observation.municipality.lemma_tag_round_trip();
    observation.weather.lemma_tag_round_trip();
}

/// A body holds an observation exactly when a document was read from it,
/// the document is an object, and each of the four members is present and
/// of the right kind. So a body that lacks a member, or has one of the
/// wrong kind, holds none.
pub proof fn lemma_valid_iff_well_formed(document: Option<Json>)
    ensures
        validation_of(document) is Ok <==> (document matches Some(json) && json is Object
            && forall|name: FieldName| #[trigger]
            fits(field_of(json.member(name.key_text())), name)),
{
    if let Some(json) = document {
        if json is Object {
            if validation_of(document) is Ok {
                assert forall|name: FieldName| #[trigger]
                    fits(field_of(json.member(name.key_text())), name) by {
                    match name {
                        FieldName::Municipality => {},
                        FieldName::Temperature => {},
                        FieldName::Humidity => {},
                        FieldName::Weather => {},
                    }
                }
            }
            if forall|name: FieldName| #[trigger]
                fits(field_of(json.member(name.key_text())), name) {
                assert(fits(
                    field_of(json.member(FieldName::Municipality.key_text())),
                    FieldName::Municipality,
                ));
                assert(fits(
                    field_of(json.member(FieldName::Temperature.key_text())),
                    FieldName::Temperature,
                ));
                assert(fits(
                    field_of(json.member(FieldName::Humidity.key_text())),
                    FieldName::Humidity,
                ));
                assert(fits(
                    field_of(json.member(FieldName::Weather.key_text())),
                    FieldName::Weather,
                ));
            }
        }
    }
}

/// Reads a member that has to be a string.
fn text_field<'a>(field: &'a Field, name: FieldName) -> (text: Result<&'a str, Defect>)
    ensures
        text is Ok <==> text_in(field@, name) is Ok,
        text matches Ok(t) ==> text_in(field@, name) == Ok::<Seq<char>, Defect>(t@),
        text matches Err(d) ==> text_in(field@, name) == Err::<Seq<char>, Defect>(d),
{
    match field {
        Field::Missing => Err(Defect::Missing(name)),
        Field::Text(t) => Ok(t.as_str()),
        _ => Err(Defect::NotText(name)),
    }
}

/// Reads a member that has to be a whole number in the signed 32-bit range.
fn number_field(field: &Field, name: FieldName) -> (number: Result<i32, Defect>)
    ensures
        number == number_in(field@, name),
{
    match field {
        Field::Missing => Err(Defect::Missing(name)),
        Field::Integer(n) => {
            if -2147483648 <= *n && *n <= 2147483647 {
                Ok(*n as i32)
            } else {
                Err(Defect::OutOfRange(name))
            }
        },
        _ => Err(Defect::NotAnInteger(name)),
    }
}

/// Makes an observation of four members, each as it was read from the
/// document. It succeeds exactly when all four are present and of the right
/// kind; otherwise it names the defect of the first that is not.
pub fn assemble(municipality: &Field, temperature: &Field, humidity: &Field, weather: &Field) -> (result:
    Result<WeatherObservation, Defect>)
    ensures
        result == assembled(municipality@, temperature@, humidity@, weather@),
        result is Ok <==> well_formed(municipality@, temperature@, humidity@, weather@),
{
    let m = match text_field(municipality, FieldName::Municipality) {
        Ok(m) => m,
        Err(d) => {
            return Err(d);
        },
    };
    let t = match number_field(temperature, FieldName::Temperature) {
        Ok(t) => t,
        Err(d) => {
            return Err(d);
        },
    };
    let h = match number_field(humidity, FieldName::Humidity) {
        Ok(h) => h,
        Err(d) => {
            return Err(d);
        },
    };
    let w = match text_field(weather, FieldName::Weather) {
        Ok(w) => w,
        Err(d) => {
            return Err(d);
        },
    };
    Ok(
        WeatherObservation {
            municipality: Municipality::from_tag(m),
            temperature: t,
            humidity: h,
            weather: Weather::from_tag(w),
        },
    )
}

/// Reads one member of a document.
pub fn read_field(document: &serde_json::Value, name: FieldName) -> (field: Field)
    ensures
        field@ == field_of(json_of(*document).member(name.key_text())),
{
    match get(document, name.key()) {
        None => Field::Missing,
        Some(member) => match as_i64(member) {
            Some(n) => Field::Integer(n),
            None => match as_str(member) {
                Some(t) => Field::Text(String::from_str(t)),
                None => Field::Other,
            },
        },
    }
}

/// Reads the observation that a document holds.
pub fn interpret(document: &serde_json::Value) -> (result: Result<WeatherObservation, Defect>)
    ensures
        result == observation_of(json_of(*document)),
{
    if !is_object(document) {
        return Err(Defect::NotAnObject);
    }
    let municipality = read_field(document, FieldName::Municipality);
    let temperature = read_field(document, FieldName::Temperature);
    let humidity = read_field(document, FieldName::Humidity);
    let weather = read_field(document, FieldName::Weather);
    assemble(&municipality, &temperature, &humidity, &weather)
}

/// Validates a request body: reads it as JSON and then as an observation.
/// Every body gets an answer, and a body that is no observation gets the
/// defect that makes it so.
pub fn validate(body: &[u8]) -> (result: Result<WeatherObservation, Defect>)
    ensures
        result == validation_of(parsed(body@)),
{
    match parse(body) {
        Ok(document) => interpret(&document),
        Err(_) => Err(Defect::NotJson),
    }
}

} // verus!
