use weather_relay::observation::Municipality;
use weather_relay::observation::Weather;
use weather_relay::observation::WeatherObservation;
use weather_relay::text::append_decimal;
use weather_relay::text::same_text;

fn numeral(n: i64) -> String {
    let mut out = String::new();
    append_decimal(&mut out, n);
    out
}

#[test]
fn decimal_of_zero() {
    assert_eq!(numeral(0), "0");
}

#[test]
fn decimal_of_single_digits() {
    assert_eq!(numeral(7), "7");
    assert_eq!(numeral(9), "9");
}

#[test]
fn decimal_of_several_digits() {
    assert_eq!(numeral(10), "10");
    assert_eq!(numeral(503), "503");
    assert_eq!(numeral(65535), "65535");
}

#[test]
fn decimal_of_negative_numbers() {
    assert_eq!(numeral(-1), "-1");
    assert_eq!(numeral(-40), "-40");
}

#[test]
fn decimal_of_the_extremes() {
    assert_eq!(numeral(i64::MAX), "9223372036854775807");
    assert_eq!(numeral(i64::MIN), "-9223372036854775808");
    assert_eq!(numeral(i32::MIN as i64), "-2147483648");
}

#[test]
fn decimal_is_written_after_what_is_there() {
    let mut out = String::from("status ");
    append_decimal(&mut out, 404);
    assert_eq!(out, "status 404");
}

#[test]
fn decimal_agrees_with_the_standard_formatting() {
    for n in [-100_000i64, -99, -10, -9, 0, 1, 11, 99, 100, 101, 2_147_483_647] {
        assert_eq!(numeral(n), format!("{}", n));
    }
}

#[test]
fn same_text_tells_equal_from_different() {
    assert!(same_text("", ""));
    assert!(same_text("mixco", "mixco"));
    assert!(!same_text("mixco", "mixc"));
    assert!(!same_text("mixco", "mixcO"));
    assert!(!same_text("", "a"));
    assert!(same_text("niño", "niño"));
    assert!(!same_text("niño", "nino"));
}

#[test]
fn municipality_tags() {
    assert_eq!(Municipality::Unknown.tag(), "municipalities_unknown");
    assert_eq!(Municipality::Mixco.tag(), "mixco");
    assert_eq!(Municipality::Guatemala.tag(), "guatemala");
    assert_eq!(Municipality::Amatitlan.tag(), "amatitlan");
    assert_eq!(Municipality::Chinautla.tag(), "chinautla");
}

#[test]
fn weather_tags() {
    assert_eq!(Weather::Unknown.tag(), "weathers_unknown");
    assert_eq!(Weather::Sunny.tag(), "sunny");
    assert_eq!(Weather::Cloudy.tag(), "cloudy");
    assert_eq!(Weather::Rainy.tag(), "rainy");
    assert_eq!(Weather::Foggy.tag(), "foggy");
}

#[test]
fn municipality_tag_round_trip() {
    for m in [
        Municipality::Unknown,
        Municipality::Mixco,
        Municipality::Guatemala,
        Municipality::Amatitlan,
        Municipality::Chinautla,
    ] {
        assert_eq!(Municipality::from_tag(m.tag()), m);
    }
}

#[test]
fn weather_tag_round_trip() {
    for w in [Weather::Unknown, Weather::Sunny, Weather::Cloudy, Weather::Rainy, Weather::Foggy] {
        assert_eq!(Weather::from_tag(w.tag()), w);
    }
}

#[test]
fn unrecognised_tags_read_as_unknown() {
    assert_eq!(Municipality::from_tag("antigua"), Municipality::Unknown);
    assert_eq!(Municipality::from_tag(""), Municipality::Unknown);
    assert_eq!(Municipality::from_tag("Mixco"), Municipality::Unknown);
    assert_eq!(Municipality::from_tag("sunny"), Municipality::Unknown);
    assert_eq!(Weather::from_tag("stormy"), Weather::Unknown);
    assert_eq!(Weather::from_tag("SUNNY"), Weather::Unknown);
    assert_eq!(Weather::from_tag("mixco"), Weather::Unknown);
}

#[test]
fn encode_writes_the_four_members_in_order() {
    let observation = WeatherObservation {
        municipality: Municipality::Mixco,
        temperature: 22,
        humidity: 60,
        weather: Weather::Sunny,
    };
    assert_eq!(
        observation.encode(),
        "{\"municipality\":\"mixco\",\"temperature\":22,\"humidity\":60,\"weather\":\"sunny\"}"
    );
}

#[test]
fn encode_writes_negative_and_extreme_numbers() {
    let observation = WeatherObservation {
        municipality: Municipality::Unknown,
        temperature: i32::MIN,
        humidity: i32::MAX,
        weather: Weather::Unknown,
    };
    assert_eq!(
        observation.encode(),
        "{\"municipality\":\"municipalities_unknown\",\"temperature\":-2147483648,\"humidity\":2147483647,\"weather\":\"weathers_unknown\"}"
    );
}
