//! The observation: one reported weather data point for a municipality, the
//! tags that stand for its municipality and its weather on the wire, and the
//! JSON text in which it travels downstream.

use crate::text::append_decimal;
use crate::text::decimal;
use crate::text::same_text;
use vstd::prelude::*;

verus! {

/// The municipalities that the relay knows, and `Unknown` for every other.
#[derive(Clone, Copy, Debug, PartialEq, Eq, Structural)]
pub enum Municipality {
    Unknown,
    Mixco,
    Guatemala,
    Amatitlan,
    Chinautla,
}

/// The weather conditions that the relay knows, and `Unknown` for every
/// other.
#[derive(Clone, Copy, Debug, PartialEq, Eq, Structural)]
pub enum Weather {
    Unknown,
    Sunny,
    Cloudy,
    Rainy,
    Foggy,
}

/// One weather data point. Neither number is held to a range beyond that of
/// its type.
#[derive(Clone, Copy, Debug, PartialEq, Eq, Structural)]
pub struct WeatherObservation {
    pub municipality: Municipality,
    pub temperature: i32,
    pub humidity: i32,
    pub weather: Weather,
}

impl Municipality {
    /// The tag that stands for this municipality on the wire.
    pub open spec fn tag_text(self) -> Seq<char> {
        match self {
            Municipality::Unknown => "municipalities_unknown"@,
            Municipality::Mixco => "mixco"@,
            Municipality::Guatemala => "guatemala"@,
            Municipality::Amatitlan => "amatitlan"@,
            Municipality::Chinautla => "chinautla"@,
        }
    }

    /// The municipality that a tag stands for: the one that carries it, and
    /// `Unknown` where none does.
    pub open spec fn of_tag(tag: Seq<char>) -> Municipality {
        if tag == "mixco"@ {
            Municipality::Mixco
        } else if tag == "guatemala"@ {
            Municipality::Guatemala
        } else if tag == "amatitlan"@ {
            Municipality::Amatitlan
        } else if tag == "chinautla"@ {
            Municipality::Chinautla
        } else {
            Municipality::Unknown
        }
    }

    /// The tag that stands for this municipality on the wire.
    pub fn tag(&self) -> (tag: &'static str)
        ensures
            tag@ == self.tag_text(),
    {
        match self {
            Municipality::Unknown => "municipalities_unknown",
            Municipality::Mixco => "mixco",
            Municipality::Guatemala => "guatemala",
            Municipality::Amatitlan => "amatitlan",
            Municipality::Chinautla => "chinautla",
        }
    }

    /// Reads a tag. A tag that no known municipality carries reads as
    /// `Unknown`; no tag is refused.
    pub fn from_tag(tag: &str) -> (municipality: Municipality)
        ensures
            municipality == Municipality::of_tag(tag@),
    {
        if same_text(tag, "mixco") {
            Municipality::Mixco
        } else if same_text(tag, "guatemala") {
            Municipality::Guatemala
        } else if same_text(tag, "amatitlan") {
            Municipality::Amatitlan
        } else if same_text(tag, "chinautla") {
            Municipality::Chinautla
        } else {
            Municipality::Unknown
        }
    }

    /// Reading the tag of a municipality gives that municipality back.
    pub proof fn lemma_tag_round_trip(self)
        ensures
            Municipality::of_tag(self.tag_text()) == self,
    {
        reveal_strlit("municipalities_unknown");
        reveal_strlit("mixco");
        reveal_strlit("guatemala");
        reveal_strlit("amatitlan");
        reveal_strlit("chinautla");
        assert("municipalities_unknown"@.len() == 22);
        assert("mixco"@.len() == 5);
        assert("guatemala"@[0] == 'g');
        assert("amatitlan"@[0] == 'a');
        assert("chinautla"@[0] == 'c');
    }

    /// A tag that reads as a known municipality is that municipality's own
    /// tag: only unrecognised tags change when an observation is encoded
    /// again.
    pub proof fn lemma_known_tag_is_kept(tag: Seq<char>)
        requires
            Municipality::of_tag(tag) != Municipality::Unknown,
        ensures
            Municipality::of_tag(tag).tag_text() == tag,
    {
    }
}

impl Weather {
    /// The tag that stands for this condition on the wire.
    pub open spec fn tag_text(self) -> Seq<char> {
        match self {
            Weather::Unknown => "weathers_unknown"@,
            Weather::Sunny => "sunny"@,
            Weather::Cloudy => "cloudy"@,
            Weather::Rainy => "rainy"@,
            Weather::Foggy => "foggy"@,
        }
    }

    /// The condition that a tag stands for: the one that carries it, and
    /// `Unknown` where none does.
    pub open spec fn of_tag(tag: Seq<char>) -> Weather {
        if tag == "sunny"@ {
            Weather::Sunny
        } else if tag == "cloudy"@ {
            Weather::Cloudy
        } else if tag == "rainy"@ {
            Weather::Rainy
        } else if tag == "foggy"@ {
            Weather::Foggy
        } else {
            Weather::Unknown
        }
    }

    /// The tag that stands for this condition on the wire.
    pub fn tag(&self) -> (tag: &'static str)
        ensures
            tag@ == self.tag_text(),
    {
        match self {
            Weather::Unknown => "weathers_unknown",
            Weather::Sunny => "sunny",
            Weather::Cloudy => "cloudy",
            Weather::Rainy => "rainy",
            Weather::Foggy => "foggy",
        }
    }

    /// Reads a tag. A tag that no known condition carries reads as
    /// `Unknown`; no tag is refused.
    pub fn from_tag(tag: &str) -> (weather: Weather)
        ensures
            weather == Weather::of_tag(tag@),
    {
        if same_text(tag, "sunny") {
            Weather::Sunny
        } else if same_text(tag, "cloudy") {
            Weather::Cloudy
        } else if same_text(tag, "rainy") {
            Weather::Rainy
        } else if same_text(tag, "foggy") {
            Weather::Foggy
        } else {
            Weather::Unknown
        }
    }

    /// Reading the tag of a condition gives that condition back.
    pub proof fn lemma_tag_round_trip(self)
        ensures
            Weather::of_tag(self.tag_text()) == self,
    {
        reveal_strlit("weathers_unknown");
        reveal_strlit("sunny");
        reveal_strlit("cloudy");
        reveal_strlit("rainy");
        reveal_strlit("foggy");
        assert("weathers_unknown"@.len() == 16);
        assert("cloudy"@.len() == 6);
        assert("sunny"@[0] == 's');
        assert("rainy"@[0] == 'r');
        assert("foggy"@[0] == 'f');
    }

    /// A tag that reads as a known condition is that condition's own tag.
    pub proof fn lemma_known_tag_is_kept(tag: Seq<char>)
        requires
            Weather::of_tag(tag) != Weather::Unknown,
        ensures
            Weather::of_tag(tag).tag_text() == tag,
    {
    }
}

impl WeatherObservation {
    /// The JSON text of the observation: an object of its four members in
    /// the order municipality, temperature, humidity, weather, with no
    /// space in it. The tags need no escaping.
    pub open spec fn wire_text(self) -> Seq<char> {
        "{\"municipality\":\""@ + self.municipality.tag_text() + "\",\"temperature\":"@ + decimal(
            self.temperature as int,
        ) + ",\"humidity\":"@ + decimal(self.humidity as int) + ",\"weather\":\""@
            + self.weather.tag_text() + "\"}"@
    }

    /// Encodes the observation as the JSON text that goes downstream.
    pub fn encode(&self) -> (text: String)
        ensures
            text@ == self.wire_text(),
    {
        let mut text = String::from_str("{\"municipality\":\"");
        text.append(self.municipality.tag());
        text.append("\",\"temperature\":");
        append_decimal(&mut text, self.temperature as i64);
        text.append(",\"humidity\":");
        append_decimal(&mut text, self.humidity as i64);
        text.append(",\"weather\":\"");
        text.append(self.weather.tag());
        text.append("\"}");
        text
    }
}

} // verus!
