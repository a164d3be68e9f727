use ipet::document::LoadError;
use ipet::mood::counts_from_json;
use ipet::mood::counts_to_json;
use ipet::mood::load_mood;
use ipet::mood::mood_from_json;
use ipet::mood::mood_to_json;
use ipet::mood::save_mood;
use ipet::mood::sleep_from_json;
use ipet::mood::sleep_to_json;
use ipet::mood::stats_from_json;
use ipet::mood::stats_to_json;
use ipet::mood::timestamps_from_json;
use ipet::mood::timestamps_to_json;
use ipet::mood::InteractionCounts;
use ipet::mood::MoodStats;
use ipet::mood::MoodTimestamps;
use ipet::mood::PetMoodState;
use ipet::mood::SleepState;
use serde_json::Value;

fn parse(text: &str) -> Value {
    serde_json::from_str(text).unwrap()
}

fn awake() -> PetMoodState {
    PetMoodState {
        version: 1,
        stats: MoodStats { happiness: Value::from(75.0), energy: Value::from(40.0) },
        timestamps: MoodTimestamps {
            last_interaction: 1_700_000_000_000,
            last_sleep_end: 1_699_990_000_000,
            app_last_closed: 1_699_999_999_999,
        },
        sleep: SleepState {
            is_sleeping: false,
            sleep_start_time: None,
            scheduled_wake_time: None,
            next_sleep_time: 1_700_003_600_000,
        },
        interaction_counts: InteractionCounts {
            today_date: "2024-01-15".to_string(),
            treats: 3,
            morning_greeting: true,
        },
    }
}

fn asleep() -> PetMoodState {
    let mut mood = awake();
    mood.version = 255;
    mood.stats = MoodStats { happiness: Value::from(12.625), energy: Value::from(0) };
    mood.sleep = SleepState {
        is_sleeping: true,
        sleep_start_time: Some(1_700_000_000_001),
        scheduled_wake_time: Some(u64::MAX),
        next_sleep_time: 0,
    };
    mood
}

const AWAKE_DOCUMENT: &str = r#"{
  "interactionCounts": {
    "morningGreeting": true,
    "todayDate": "2024-01-15",
    "treats": 3
  },
  "sleep": {
    "isSleeping": false,
    "nextSleepTime": 1700003600000,
    "scheduledWakeTime": null,
    "sleepStartTime": null
  },
  "stats": {
    "energy": 40.0,
    "happiness": 75.0
  },
  "timestamps": {
    "appLastClosed": 1699999999999,
    "lastInteraction": 1700000000000,
    "lastSleepEnd": 1699990000000
  },
  "version": 1
}"#;

#[test]
fn no_file_is_no_mood() {
    assert_eq!(load_mood(None), Ok(None));
}

#[test]
fn saved_mood_comes_back_field_for_field() {
    let mood = awake();
    let text = save_mood(&mood).unwrap();
    let loaded = load_mood(Some(&text)).unwrap().unwrap();
    assert_eq!(loaded.version, 1);
    assert_eq!(loaded.stats.happiness.as_f64(), Some(75.0));
    assert_eq!(loaded.stats.energy.as_f64(), Some(40.0));
    assert!(!loaded.sleep.is_sleeping);
    assert_eq!(loaded, mood);
}

#[test]
fn sleeping_mood_comes_back_field_for_field() {
    let mood = asleep();
    let text = save_mood(&mood).unwrap();
    assert_eq!(load_mood(Some(&text)), Ok(Some(mood)));
}

#[test]
fn mood_is_written_as_this_text() {
    assert_eq!(save_mood(&awake()).unwrap(), AWAKE_DOCUMENT);
}

#[test]
fn mood_is_read_from_this_text() {
    assert_eq!(load_mood(Some(AWAKE_DOCUMENT)), Ok(Some(awake())));
}

#[test]
fn members_use_the_external_names() {
    let document = mood_to_json(&asleep());
    assert_eq!(document["version"], Value::from(255));
    assert_eq!(document["stats"]["happiness"], Value::from(12.625));
    assert_eq!(document["stats"]["energy"], Value::from(0));
    assert_eq!(document["timestamps"]["lastInteraction"], Value::from(1_700_000_000_000u64));
    assert_eq!(document["timestamps"]["lastSleepEnd"], Value::from(1_699_990_000_000u64));
    assert_eq!(document["timestamps"]["appLastClosed"], Value::from(1_699_999_999_999u64));
    assert_eq!(document["sleep"]["isSleeping"], Value::from(true));
    assert_eq!(document["sleep"]["sleepStartTime"], Value::from(1_700_000_000_001u64));
    assert_eq!(document["sleep"]["scheduledWakeTime"], Value::from(u64::MAX));
    assert_eq!(document["sleep"]["nextSleepTime"], Value::from(0));
    assert_eq!(document["interactionCounts"]["todayDate"], Value::from("2024-01-15"));
    assert_eq!(document["interactionCounts"]["treats"], Value::from(3));
    assert_eq!(document["interactionCounts"]["morningGreeting"], Value::from(true));
    assert_eq!(document.as_object().unwrap().len(), 5);
    assert_eq!(document["sleep"].as_object().unwrap().len(), 4);
}

#[test]
fn reading_what_was_written_gives_the_same_parts() {
    let mood = asleep();
    assert_eq!(mood_from_json(&mood_to_json(&mood)), Ok(mood.clone()));
    assert_eq!(stats_from_json(&stats_to_json(&mood.stats)), Ok(mood.stats.clone()));
    assert_eq!(timestamps_from_json(&timestamps_to_json(&mood.timestamps)), Ok(mood.timestamps));
    assert_eq!(sleep_from_json(&sleep_to_json(&mood.sleep)), Ok(mood.sleep));
    assert_eq!(
        counts_from_json(&counts_to_json(&mood.interaction_counts)),
        Ok(mood.interaction_counts.clone())
    );
}

#[test]
fn stats_are_kept_as_the_numbers_stored() {
    let text = AWAKE_DOCUMENT.replace("75.0", "75.123456789").replace("40.0", "40");
    let loaded = load_mood(Some(&text)).unwrap().unwrap();
    assert_eq!(loaded.stats.happiness, parse("75.123456789"));
    assert_eq!(loaded.stats.energy, parse("40"));
    assert_eq!(save_mood(&loaded).unwrap(), text);
}

#[test]
fn mood_text_that_is_not_json_is_a_load_error() {
    for text in ["", "{", "mood"] {
        assert!(matches!(load_mood(Some(text)), Err(LoadError::Syntax(_))));
    }
}

#[test]
fn mood_that_is_not_an_object_is_refused() {
    for text in ["[]", "null", "1"] {
        assert_eq!(load_mood(Some(text)), Err(LoadError::Shape));
    }
}

#[test]
fn every_member_has_to_be_there() {
    let without = |outer: Option<&str>, member: &str| {
        let mut document = parse(AWAKE_DOCUMENT);
        match outer {
            Some(outer) => document[outer].as_object_mut().unwrap().remove(member),
            None => document.as_object_mut().unwrap().remove(member),
        };
        load_mood(Some(&serde_json::to_string(&document).unwrap()))
    };
    let missing = |name: &str| Err(LoadError::MissingField(name.to_string()));
    assert_eq!(without(None, "version"), missing("version"));
    assert_eq!(without(None, "stats"), missing("stats"));
    assert_eq!(without(None, "timestamps"), missing("timestamps"));
    assert_eq!(without(None, "sleep"), missing("sleep"));
    assert_eq!(without(None, "interactionCounts"), missing("interactionCounts"));
    assert_eq!(without(Some("stats"), "happiness"), missing("happiness"));
    assert_eq!(without(Some("stats"), "energy"), missing("energy"));
    assert_eq!(without(Some("timestamps"), "lastInteraction"), missing("lastInteraction"));
    assert_eq!(without(Some("timestamps"), "lastSleepEnd"), missing("lastSleepEnd"));
    assert_eq!(without(Some("timestamps"), "appLastClosed"), missing("appLastClosed"));
    assert_eq!(without(Some("sleep"), "isSleeping"), missing("isSleeping"));
    assert_eq!(without(Some("sleep"), "nextSleepTime"), missing("nextSleepTime"));
    assert_eq!(without(Some("interactionCounts"), "todayDate"), missing("todayDate"));
    assert_eq!(without(Some("interactionCounts"), "treats"), missing("treats"));
    assert_eq!(without(Some("interactionCounts"), "morningGreeting"), missing("morningGreeting"));
}

#[test]
fn optional_times_may_be_absent() {
    let mut document = parse(AWAKE_DOCUMENT);
    document["sleep"].as_object_mut().unwrap().remove("sleepStartTime");
    document["sleep"].as_object_mut().unwrap().remove("scheduledWakeTime");
    assert_eq!(mood_from_json(&document), Ok(awake()));
}

#[test]
fn internal_names_are_not_read() {
    let text = AWAKE_DOCUMENT.replace("lastInteraction", "last_interaction");
    assert_eq!(load_mood(Some(&text)), Err(LoadError::MissingField("lastInteraction".to_string())));
    let text = AWAKE_DOCUMENT.replace("interactionCounts", "interaction_counts");
    assert_eq!(load_mood(Some(&text)), Err(LoadError::MissingField("interactionCounts".to_string())));
}

#[test]
fn mood_member_of_the_wrong_kind_is_named() {
    let with = |outer: Option<&str>, member: &str, value: &str| {
        let mut document = parse(AWAKE_DOCUMENT);
        match outer {
            Some(outer) => document[outer][member] = parse(value),
            None => document[member] = parse(value),
        };
        load_mood(Some(&serde_json::to_string(&document).unwrap()))
    };
    let invalid = |name: &str| Err(LoadError::InvalidField(name.to_string()));
    assert_eq!(with(None, "version", "256"), invalid("version"));
    assert_eq!(with(None, "version", "-1"), invalid("version"));
    assert_eq!(with(None, "version", "\"1\""), invalid("version"));
    assert_eq!(with(None, "stats", "[]"), invalid("stats"));
    assert_eq!(with(None, "sleep", "null"), invalid("sleep"));
    assert_eq!(with(Some("stats"), "happiness", "\"75\""), invalid("happiness"));
    assert_eq!(with(Some("stats"), "energy", "null"), invalid("energy"));
    assert_eq!(with(Some("timestamps"), "lastSleepEnd", "1.5"), invalid("lastSleepEnd"));
    assert_eq!(with(Some("timestamps"), "appLastClosed", "-3"), invalid("appLastClosed"));
    assert_eq!(with(Some("sleep"), "isSleeping", "0"), invalid("isSleeping"));
    assert_eq!(with(Some("sleep"), "sleepStartTime", "\"now\""), invalid("sleepStartTime"));
    assert_eq!(with(Some("sleep"), "scheduledWakeTime", "false"), invalid("scheduledWakeTime"));
    assert_eq!(with(Some("sleep"), "nextSleepTime", "null"), invalid("nextSleepTime"));
    assert_eq!(with(Some("interactionCounts"), "todayDate", "20240115"), invalid("todayDate"));
    assert_eq!(with(Some("interactionCounts"), "treats", "4294967296"), invalid("treats"));
    assert_eq!(with(Some("interactionCounts"), "morningGreeting", "\"no\""), invalid("morningGreeting"));
}

#[test]
fn version_up_to_255_is_read() {
    let text = AWAKE_DOCUMENT.replace("\"version\": 1", "\"version\": 255");
    assert_eq!(load_mood(Some(&text)).unwrap().unwrap().version, 255);
    let text = AWAKE_DOCUMENT.replace("\"version\": 1", "\"version\": 0");
    assert_eq!(load_mood(Some(&text)).unwrap().unwrap().version, 0);
}

#[test]
fn negative_and_whole_stats_are_numbers_too() {
    let text = AWAKE_DOCUMENT.replace("75.0", "-3").replace("40.0", "100");
    let loaded = load_mood(Some(&text)).unwrap().unwrap();
    assert_eq!(loaded.stats.happiness.as_f64(), Some(-3.0));
    assert_eq!(loaded.stats.energy.as_f64(), Some(100.0));
}
