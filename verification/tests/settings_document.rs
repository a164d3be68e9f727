use ipet::codec::decrypt_string;
use ipet::codec::CodecError;
use ipet::document::LoadError;
use ipet::key::MachineIdentity;
use ipet::settings::default_pet_color_preset;
use ipet::settings::default_pet_custom_color;
use ipet::settings::default_show_energy_bar;
use ipet::settings::default_show_happiness_bar;
use ipet::settings::load_settings;
use ipet::settings::microphone_from_json;
use ipet::settings::microphone_to_json;
use ipet::settings::personality_from_json;
use ipet::settings::personality_to_json;
use ipet::settings::read_credential;
use ipet::settings::reveal_credential;
use ipet::settings::save_settings;
use ipet::settings::settings_from_document;
use ipet::settings::settings_from_json;
use ipet::settings::settings_to_json;
use ipet::settings::stored_settings_text;
use ipet::settings::AppSettings;
use ipet::settings::MicrophoneConfig;
use ipet::settings::PersonalityConfig;
use ipet::settings::StoredCredential;
use base64::Engine;
use serde_json::Value;

fn alice() -> MachineIdentity {
    MachineIdentity { username: "alice".to_string(), hostname: "box".to_string() }
}

fn custom() -> AppSettings {
    AppSettings {
        gemini_api_key: "sk-test-123".to_string(),
        personality: PersonalityConfig {
            preset: "custom".to_string(),
            custom_traits: Some("curious, a little shy ✨".to_string()),
        },
        microphone: MicrophoneConfig {
            enabled: false,
            silence_timeout: 3500,
            language: "en-US".to_string(),
        },
        conversation_retention_days: 7,
        show_energy_bar: false,
        show_happiness_bar: true,
        pet_color_preset: "custom".to_string(),
        pet_custom_color: "#00FF00".to_string(),
        pet_bloom_enabled: true,
    }
}

fn parse(text: &str) -> Value {
    serde_json::from_str(text).unwrap()
}

const OLD_DOCUMENT: &str = r#"{
  "gemini_api_key": "",
  "personality": { "preset": "sage", "custom_traits": null },
  "microphone": { "enabled": false, "silence_timeout": 1500, "language": "en-US" },
  "conversation_retention_days": 14
}"#;

const DEFAULT_DOCUMENT: &str = r##"{
  "conversation_retention_days": 30,
  "gemini_api_key": "",
  "microphone": {
    "enabled": true,
    "language": "vi-VN",
    "silence_timeout": 2000
  },
  "personality": {
    "custom_traits": null,
    "preset": "bubbles"
  },
  "pet_bloom_enabled": false,
  "pet_color_preset": "original",
  "pet_custom_color": "#FF6B9D",
  "show_energy_bar": true,
  "show_happiness_bar": true
}"##;

#[test]
fn defaults_are_the_documented_ones() {
    let settings = AppSettings::default();
    assert_eq!(settings.gemini_api_key, "");
    assert_eq!(settings.personality.preset, "bubbles");
    assert_eq!(settings.personality.custom_traits, None);
    assert!(settings.microphone.enabled);
    assert_eq!(settings.microphone.silence_timeout, 2000);
    assert_eq!(settings.microphone.language, "vi-VN");
    assert_eq!(settings.conversation_retention_days, 30);
    assert!(settings.show_energy_bar);
    assert!(settings.show_happiness_bar);
    assert_eq!(settings.pet_color_preset, "original");
    assert_eq!(settings.pet_custom_color, "#FF6B9D");
    assert!(!settings.pet_bloom_enabled);
}

#[test]
fn each_preference_has_its_default() {
    assert!(default_show_energy_bar());
    assert!(default_show_happiness_bar());
    assert_eq!(default_pet_color_preset(), "original");
    assert_eq!(default_pet_custom_color(), "#FF6B9D");
}

#[test]
fn no_file_loads_the_defaults() {
    assert_eq!(load_settings(None, &alice()), Ok(AppSettings::default()));
}

#[test]
fn saved_credential_is_opaque_on_disk_and_comes_back() {
    let identity = alice();
    let mut settings = AppSettings::default();
    settings.gemini_api_key = "sk-test-123".to_string();
    let text = save_settings(&settings, &identity).unwrap();
    let stored = parse(&text)["gemini_api_key"].as_str().unwrap().to_string();
    assert!(!stored.is_empty());
    assert_ne!(stored, "sk-test-123");
    assert!(stored.len() >= 16);
    assert_eq!(stored.len(), 52);
    assert_eq!(base64::engine::general_purpose::STANDARD.decode(&stored).unwrap().len(), 39);
    assert!(!text.contains("sk-test-123"));
    assert_eq!(decrypt_string(&stored, &identity).unwrap(), "sk-test-123");
    let loaded = load_settings(Some(&text), &identity).unwrap();
    assert_eq!(loaded.gemini_api_key, "sk-test-123");
    assert_eq!(loaded, settings);
}

#[test]
fn save_and_load_keep_every_field() {
    let identity = alice();
    let settings = custom();
    let text = save_settings(&settings, &identity).unwrap();
    assert_eq!(load_settings(Some(&text), &identity), Ok(settings));
}

#[test]
fn save_leaves_the_settings_given_untouched() {
    let settings = custom();
    let before = settings.clone();
    let _ = save_settings(&settings, &alice()).unwrap();
    assert_eq!(settings, before);
}

#[test]
fn empty_credential_is_written_empty() {
    let identity = alice();
    let text = save_settings(&AppSettings::default(), &identity).unwrap();
    assert_eq!(parse(&text)["gemini_api_key"], Value::from(""));
    assert_eq!(load_settings(Some(&text), &identity), Ok(AppSettings::default()));
}

#[test]
fn defaults_are_written_as_this_text() {
    assert_eq!(save_settings(&AppSettings::default(), &alice()).unwrap(), DEFAULT_DOCUMENT);
    assert_eq!(stored_settings_text(&AppSettings::default(), "").unwrap(), DEFAULT_DOCUMENT);
}

#[test]
fn stored_text_holds_the_credential_given() {
    let text = stored_settings_text(&custom(), "opaque").unwrap();
    let document = parse(&text);
    assert_eq!(document["gemini_api_key"], Value::from("opaque"));
    assert_eq!(document["personality"]["preset"], Value::from("custom"));
    assert_eq!(document["personality"]["custom_traits"], Value::from("curious, a little shy ✨"));
    assert_eq!(document["microphone"]["enabled"], Value::from(false));
    assert_eq!(document["microphone"]["silence_timeout"], Value::from(3500));
    assert_eq!(document["microphone"]["language"], Value::from("en-US"));
    assert_eq!(document["conversation_retention_days"], Value::from(7));
    assert_eq!(document["show_energy_bar"], Value::from(false));
    assert_eq!(document["show_happiness_bar"], Value::from(true));
    assert_eq!(document["pet_color_preset"], Value::from("custom"));
    assert_eq!(document["pet_custom_color"], Value::from("#00FF00"));
    assert_eq!(document["pet_bloom_enabled"], Value::from(true));
    assert_eq!(document.as_object().unwrap().len(), 9);
}

#[test]
fn document_without_the_newer_fields_takes_their_defaults() {
    let loaded = load_settings(Some(OLD_DOCUMENT), &alice()).unwrap();
    assert_eq!(loaded.gemini_api_key, "");
    assert_eq!(loaded.personality.preset, "sage");
    assert_eq!(loaded.personality.custom_traits, None);
    assert!(!loaded.microphone.enabled);
    assert_eq!(loaded.microphone.silence_timeout, 1500);
    assert_eq!(loaded.microphone.language, "en-US");
    assert_eq!(loaded.conversation_retention_days, 14);
    assert!(loaded.show_energy_bar);
    assert!(loaded.show_happiness_bar);
    assert_eq!(loaded.pet_color_preset, "original");
    assert_eq!(loaded.pet_custom_color, "#FF6B9D");
    assert!(!loaded.pet_bloom_enabled);
}

#[test]
fn old_document_saved_again_keeps_what_it_set() {
    let identity = alice();
    let loaded = load_settings(Some(OLD_DOCUMENT), &identity).unwrap();
    let text = save_settings(&loaded, &identity).unwrap();
    assert_eq!(load_settings(Some(&text), &identity), Ok(loaded));
}

#[test]
fn each_preference_defaults_on_its_own() {
    let text = r##"{
      "gemini_api_key": "",
      "personality": { "preset": "sage" },
      "microphone": { "enabled": true, "silence_timeout": 2000, "language": "vi-VN" },
      "conversation_retention_days": 30,
      "show_energy_bar": false,
      "pet_custom_color": "#123456"
    }"##;
    let loaded = load_settings(Some(text), &alice()).unwrap();
    assert!(!loaded.show_energy_bar);
    assert!(loaded.show_happiness_bar);
    assert_eq!(loaded.pet_color_preset, "original");
    assert_eq!(loaded.pet_custom_color, "#123456");
    assert!(!loaded.pet_bloom_enabled);
    assert_eq!(loaded.personality.custom_traits, None);
}

#[test]
fn plaintext_credential_of_an_older_version_is_kept() {
    let identity = alice();
    for legacy in ["sk-test-123", "AIzaSyLegacyKeyInTheClear", "AAAA", "not base64!!"] {
        let text = OLD_DOCUMENT.replace(r#""gemini_api_key": """#, &format!(r#""gemini_api_key": "{}""#, legacy));
        let loaded = load_settings(Some(&text), &identity).unwrap();
        assert_eq!(loaded.gemini_api_key, legacy);
        assert_eq!(loaded.personality.preset, "sage");
    }
}

#[test]
fn credential_of_another_machine_is_kept_as_stored() {
    let text = save_settings(&custom(), &alice()).unwrap();
    let stored = parse(&text)["gemini_api_key"].as_str().unwrap().to_string();
    let other = MachineIdentity { username: "bob".to_string(), hostname: "box".to_string() };
    let loaded = load_settings(Some(&text), &other).unwrap();
    assert_eq!(loaded.gemini_api_key, stored);
}

#[test]
fn credential_is_read_as_unset_protected_or_legacy() {
    let identity = alice();
    assert_eq!(read_credential("", &identity), StoredCredential::Unset);
    assert_eq!(
        read_credential("AQIDBAUGBwgJCgsMnnPImcmmvYG1bQT3B1gcJrZf7SSfaQSG8MNs", &identity),
        StoredCredential::Protected("sk-test-123".to_string())
    );
    assert_eq!(
        read_credential("sk-test-123", &identity),
        StoredCredential::Legacy("sk-test-123".to_string())
    );
}

#[test]
fn reveal_replaces_only_a_credential_that_decrypts() {
    let identity = alice();
    let mut stored = custom();
    stored.gemini_api_key = "AQIDBAUGBwgJCgsMnnPImcmmvYG1bQT3B1gcJrZf7SSfaQSG8MNs".to_string();
    assert_eq!(reveal_credential(stored, &identity), custom());
    assert_eq!(reveal_credential(custom(), &identity), custom());
    assert_eq!(reveal_credential(AppSettings::default(), &identity), AppSettings::default());
}

#[test]
fn text_that_is_not_json_is_a_load_error() {
    let identity = alice();
    for text in ["", "{", "not json", r#"{"gemini_api_key": }"#, "{} trailing"] {
        let outcome = load_settings(Some(text), &identity);
        assert!(matches!(outcome, Err(LoadError::Syntax(_))));
    }
}

#[test]
fn syntax_error_carries_the_parser_message() {
    match load_settings(Some("{"), &alice()) {
        Err(LoadError::Syntax(detail)) => {
            assert_eq!(detail, "EOF while parsing an object at line 1 column 1")
        }
        other => panic!("{:?}", other),
    }
}

#[test]
fn document_that_is_not_an_object_is_refused() {
    let identity = alice();
    for text in ["[]", "null", "3", r#""settings""#, "true"] {
        assert_eq!(load_settings(Some(text), &identity), Err(LoadError::Shape));
    }
}

#[test]
fn missing_required_member_is_named() {
    let identity = alice();
    let missing = |name: &str| Err(LoadError::MissingField(name.to_string()));
    assert_eq!(load_settings(Some("{}"), &identity), missing("gemini_api_key"));
    assert_eq!(
        load_settings(Some(r#"{"gemini_api_key": ""}"#), &identity),
        missing("personality")
    );
    assert_eq!(
        load_settings(Some(r#"{"gemini_api_key": "", "personality": {}}"#), &identity),
        missing("preset")
    );
    assert_eq!(
        load_settings(
            Some(r#"{"gemini_api_key": "", "personality": {"preset": "sage"}}"#),
            &identity
        ),
        missing("microphone")
    );
    assert_eq!(
        load_settings(
            Some(
                r#"{"gemini_api_key": "", "personality": {"preset": "sage"},
                    "microphone": {"enabled": true, "silence_timeout": 1}}"#
            ),
            &identity
        ),
        missing("language")
    );
    assert_eq!(
        load_settings(
            Some(
                r#"{"gemini_api_key": "", "personality": {"preset": "sage"},
                    "microphone": {"enabled": true, "silence_timeout": 1, "language": "x"}}"#
            ),
            &identity
        ),
        missing("conversation_retention_days")
    );
}

#[test]
fn member_of_the_wrong_kind_is_named() {
    let identity = alice();
    let invalid = |name: &str| Err(LoadError::InvalidField(name.to_string()));
    let with = |member: &str, value: &str| {
        let mut document = parse(DEFAULT_DOCUMENT);
        document[member] = parse(value);
        serde_json::to_string(&document).unwrap()
    };
    assert_eq!(load_settings(Some(&with("gemini_api_key", "5")), &identity), invalid("gemini_api_key"));
    assert_eq!(load_settings(Some(&with("gemini_api_key", "null")), &identity), invalid("gemini_api_key"));
    assert_eq!(load_settings(Some(&with("personality", "\"sage\"")), &identity), invalid("personality"));
    assert_eq!(load_settings(Some(&with("microphone", "[]")), &identity), invalid("microphone"));
    assert_eq!(
        load_settings(Some(&with("conversation_retention_days", "\"30\"")), &identity),
        invalid("conversation_retention_days")
    );
    assert_eq!(
        load_settings(Some(&with("conversation_retention_days", "-1")), &identity),
        invalid("conversation_retention_days")
    );
    assert_eq!(
        load_settings(Some(&with("conversation_retention_days", "30.5")), &identity),
        invalid("conversation_retention_days")
    );
    assert_eq!(load_settings(Some(&with("show_energy_bar", "null")), &identity), invalid("show_energy_bar"));
    assert_eq!(load_settings(Some(&with("show_happiness_bar", "1")), &identity), invalid("show_happiness_bar"));
    assert_eq!(load_settings(Some(&with("pet_color_preset", "false")), &identity), invalid("pet_color_preset"));
    assert_eq!(load_settings(Some(&with("pet_custom_color", "7")), &identity), invalid("pet_custom_color"));
    assert_eq!(load_settings(Some(&with("pet_bloom_enabled", "\"yes\"")), &identity), invalid("pet_bloom_enabled"));
}

#[test]
fn numbers_have_to_fit_in_thirty_two_bits() {
    let identity = alice();
    let with = |value: &str| DEFAULT_DOCUMENT.replace("\"conversation_retention_days\": 30", &format!("\"conversation_retention_days\": {}", value));
    assert_eq!(
        load_settings(Some(&with("4294967295")), &identity).unwrap().conversation_retention_days,
        4294967295
    );
    assert_eq!(load_settings(Some(&with("0")), &identity).unwrap().conversation_retention_days, 0);
    assert_eq!(
        load_settings(Some(&with("4294967296")), &identity),
        Err(LoadError::InvalidField("conversation_retention_days".to_string()))
    );
}

#[test]
fn first_member_at_fault_decides() {
    let text = r#"{"gemini_api_key": 1, "personality": 2, "show_energy_bar": 3}"#;
    assert_eq!(
        load_settings(Some(text), &alice()),
        Err(LoadError::InvalidField("gemini_api_key".to_string()))
    );
}

#[test]
fn unknown_members_are_ignored() {
    let mut document = parse(DEFAULT_DOCUMENT);
    document["added_later"] = Value::from(vec![1, 2, 3]);
    let text = serde_json::to_string(&document).unwrap();
    assert_eq!(load_settings(Some(&text), &alice()), Ok(AppSettings::default()));
}

#[test]
fn custom_traits_may_be_text_null_or_absent() {
    let read = |text: &str| personality_from_json(&parse(text));
    assert_eq!(
        read(r#"{"preset": "custom", "custom_traits": "shy"}"#),
        Ok(PersonalityConfig { preset: "custom".to_string(), custom_traits: Some("shy".to_string()) })
    );
    let plain = PersonalityConfig { preset: "sage".to_string(), custom_traits: None };
    assert_eq!(read(r#"{"preset": "sage", "custom_traits": null}"#), Ok(plain.clone()));
    assert_eq!(read(r#"{"preset": "sage"}"#), Ok(plain));
    assert_eq!(
        read(r#"{"preset": "sage", "custom_traits": 4}"#),
        Err(LoadError::InvalidField("custom_traits".to_string()))
    );
    assert_eq!(read(r#"{"custom_traits": "shy"}"#), Err(LoadError::MissingField("preset".to_string())));
}

#[test]
fn microphone_members_are_checked_in_order() {
    let read = |text: &str| microphone_from_json(&parse(text));
    assert_eq!(
        read(r#"{"enabled": true, "silence_timeout": 2000, "language": "vi-VN"}"#),
        Ok(MicrophoneConfig { enabled: true, silence_timeout: 2000, language: "vi-VN".to_string() })
    );
    assert_eq!(read("{}"), Err(LoadError::MissingField("enabled".to_string())));
    assert_eq!(
        read(r#"{"enabled": "yes", "silence_timeout": -1}"#),
        Err(LoadError::InvalidField("enabled".to_string()))
    );
    assert_eq!(
        read(r#"{"enabled": true, "silence_timeout": 4294967296, "language": "vi-VN"}"#),
        Err(LoadError::InvalidField("silence_timeout".to_string()))
    );
    assert_eq!(
        read(r#"{"enabled": true, "silence_timeout": 2000.0, "language": "vi-VN"}"#),
        Err(LoadError::InvalidField("silence_timeout".to_string()))
    );
}

#[test]
fn parts_are_written_under_their_names() {
    let settings = custom();
    assert_eq!(
        personality_to_json(&settings.personality),
        parse(r#"{"preset": "custom", "custom_traits": "curious, a little shy ✨"}"#)
    );
    assert_eq!(
        personality_to_json(&AppSettings::default().personality),
        parse(r#"{"preset": "bubbles", "custom_traits": null}"#)
    );
    assert_eq!(
        microphone_to_json(&settings.microphone),
        parse(r#"{"enabled": false, "silence_timeout": 3500, "language": "en-US"}"#)
    );
    assert_eq!(settings_to_json(&AppSettings::default(), ""), parse(DEFAULT_DOCUMENT));
}

#[test]
fn reading_what_was_written_gives_the_same_settings() {
    let settings = custom();
    let document = settings_to_json(&settings, &settings.gemini_api_key);
    assert_eq!(settings_from_json(&document), Ok(settings.clone()));
    assert_eq!(personality_from_json(&personality_to_json(&settings.personality)), Ok(settings.personality.clone()));
    assert_eq!(microphone_from_json(&microphone_to_json(&settings.microphone)), Ok(settings.microphone.clone()));
}

#[test]
fn document_is_loaded_with_the_credential_revealed() {
    let identity = alice();
    let settings = custom();
    let document = settings_to_json(&settings, "AQIDBAUGBwgJCgsMnnPImcmmvYG1bQT3B1gcJrZf7SSfaQSG8MNs");
    assert_eq!(
        settings_from_json(&document).unwrap().gemini_api_key,
        "AQIDBAUGBwgJCgsMnnPImcmmvYG1bQT3B1gcJrZf7SSfaQSG8MNs"
    );
    assert_eq!(settings_from_document(&document, &identity), Ok(settings));
}

#[test]
fn tampered_credential_is_not_taken_for_a_plaintext_silently() {
    let identity = alice();
    let stored = "AQIDBAUGBwgJCgsMnnPImcmmvYG1bQT3B1gcJrZf7SSfaQSG8MNt";
    assert_eq!(decrypt_string(stored, &identity), Err(CodecError::Decrypt));
    assert_eq!(read_credential(stored, &identity), StoredCredential::Legacy(stored.to_string()));
}
