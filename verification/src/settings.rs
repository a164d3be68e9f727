//! The settings document: its fields, their defaults, its JSON form and the
//! protection of the credential it holds.

use crate::codec::decrypt_string;
use crate::codec::decrypted;
use crate::codec::decrypts_to;
use crate::codec::encrypt_string;
use crate::codec::encrypted;
use crate::codec::encrypts_as;
use crate::codec::sized_for;
use crate::codec::NONCE_SIZE;
use crate::document::flag_field;
use crate::document::flag_field_or;
use crate::document::content_view;
use crate::document::object_field;
use crate::document::optional_text_field;
use crate::document::optional_text_tree;
use crate::document::parse_document;
use crate::document::parsed_document;
use crate::document::print_document;
use crate::document::printed;
use crate::document::save_outcome;
use crate::document::read_flag;
use crate::document::read_flag_or;
use crate::document::read_object;
use crate::document::read_optional_text;
use crate::document::read_text;
use crate::document::read_text_or;
use crate::document::read_unsigned;
use crate::document::text_field;
use crate::document::text_field_or;
use crate::document::unsigned_field;
use crate::document::unsigned_tree;
use crate::document::write_optional_text;
use crate::document::LoadError;
use crate::document::LoadFault;
use crate::document::SaveError;
use crate::document::SaveFault;
use crate::json::json_empty_object;
use crate::json::json_from_flag;
use crate::json::json_from_text;
use crate::json::json_from_unsigned;
use crate::json::json_is_object;
use crate::json::json_pretty;
use crate::json::printing;
use crate::json::json_set_member;
use crate::json::json_tree;
use crate::json::tree_member;
use crate::json::JsonTree;
use crate::key::MachineIdentity;
use serde_json::Value;
use vstd::prelude::*;
use vstd::string::*;

verus! {

/// How the companion speaks: a preset tag and, for the custom preset, the
/// traits written by the user.
#[derive(Debug, Clone, PartialEq, Eq)]
pub struct PersonalityConfig {
    pub preset: String,
    pub custom_traits: Option<String>,
}

/// Microphone use: whether it is on, the silence after which listening
/// stops, in milliseconds, and the language tag.
#[derive(Debug, Clone, PartialEq, Eq)]
pub struct MicrophoneConfig {
    pub enabled: bool,
    pub silence_timeout: u32,
    pub language: String,
}

/// The user's settings. The credential is held here in the clear; on disk it
/// is held encrypted.
#[derive(Debug, Clone, PartialEq, Eq)]
pub struct AppSettings {
    pub gemini_api_key: String,
    pub personality: PersonalityConfig,
    pub microphone: MicrophoneConfig,
    pub conversation_retention_days: u32,
    pub show_energy_bar: bool,
    pub show_happiness_bar: bool,
    pub pet_color_preset: String,
    pub pet_custom_color: String,
    pub pet_bloom_enabled: bool,
}

/// A personality as plain values.
pub struct PersonalityConfigView {
    pub preset: Seq<char>,
    pub custom_traits: Option<Seq<char>>,
}

/// A microphone configuration as plain values.
pub struct MicrophoneConfigView {
    pub enabled: bool,
    pub silence_timeout: u32,
    pub language: Seq<char>,
}

/// Settings as plain values.
pub struct AppSettingsView {
    pub gemini_api_key: Seq<char>,
    pub personality: PersonalityConfigView,
    pub microphone: MicrophoneConfigView,
    pub conversation_retention_days: u32,
    pub show_energy_bar: bool,
    pub show_happiness_bar: bool,
    pub pet_color_preset: Seq<char>,
    pub pet_custom_color: Seq<char>,
    pub pet_bloom_enabled: bool,
}

impl View for PersonalityConfig {
    type V = PersonalityConfigView;

    open spec fn view(&self) -> PersonalityConfigView {
        PersonalityConfigView {
            preset: self.preset@,
            custom_traits: match self.custom_traits {
                Some(traits) => Some(traits@),
                None => None,
            },
        }
    }
}

impl View for MicrophoneConfig {
    type V = MicrophoneConfigView;

    open spec fn view(&self) -> MicrophoneConfigView {
        MicrophoneConfigView {
            enabled: self.enabled,
            silence_timeout: self.silence_timeout,
            language: self.language@,
        }
    }
}

impl View for AppSettings {
    type V = AppSettingsView;

    open spec fn view(&self) -> AppSettingsView {
        AppSettingsView {
            gemini_api_key: self.gemini_api_key@,
            personality: self.personality@,
            microphone: self.microphone@,
            conversation_retention_days: self.conversation_retention_days,
            show_energy_bar: self.show_energy_bar,
            show_happiness_bar: self.show_happiness_bar,
            pet_color_preset: self.pet_color_preset@,
            pet_custom_color: self.pet_custom_color@,
            pet_bloom_enabled: self.pet_bloom_enabled,
        }
    }
}

impl AppSettingsView {
    /// These settings with another credential.
    pub open spec fn with_credential(self, credential: Seq<char>) -> AppSettingsView {
        AppSettingsView { gemini_api_key: credential, ..self }
    }
}

/// The settings in effect when nothing was saved yet.
pub open spec fn default_settings() -> AppSettingsView {
    AppSettingsView {
        gemini_api_key: Seq::empty(),
        personality: PersonalityConfigView { preset: "bubbles"@, custom_traits: None },
        microphone: MicrophoneConfigView {
            enabled: true,
            silence_timeout: 2000,
            language: "vi-VN"@,
        },
        conversation_retention_days: 30,
        show_energy_bar: true,
        show_happiness_bar: true,
        pet_color_preset: "original"@,
        pet_custom_color: "#FF6B9D"@,
        pet_bloom_enabled: false,
    }
}

/// Whether the energy bar is shown when the document does not say.
pub fn default_show_energy_bar() -> (shown: bool)
    ensures
        shown,
{
    true
}

/// Whether the happiness bar is shown when the document does not say.
pub fn default_show_happiness_bar() -> (shown: bool)
    ensures
        shown,
{
    true
}

/// The colour preset when the document does not say.
pub fn default_pet_color_preset() -> (preset: String)
    ensures
        preset@ == "original"@,
{
    String::from_str("original")
}

/// The custom colour when the document does not say.
pub fn default_pet_custom_color() -> (color: String)
    ensures
        color@ == "#FF6B9D"@,
{
    String::from_str("#FF6B9D")
}

impl Default for AppSettings {
    fn default() -> (settings: AppSettings)
        ensures
            settings@ == default_settings(),
    {
        AppSettings {
            gemini_api_key: String::new(),
            personality: PersonalityConfig {
                preset: String::from_str("bubbles"),
                custom_traits: None,
            },
            microphone: MicrophoneConfig {
                enabled: true,
                silence_timeout: 2000,
                language: String::from_str("vi-VN"),
            },
            conversation_retention_days: 30,
            show_energy_bar: default_show_energy_bar(),
            show_happiness_bar: default_show_happiness_bar(),
            pet_color_preset: default_pet_color_preset(),
            pet_custom_color: default_pet_custom_color(),
            pet_bloom_enabled: false,
        }
    }
}

/// The personality that a JSON object describes.
pub open spec fn personality_of(tree: JsonTree) -> Result<PersonalityConfigView, LoadFault> {
    let preset = text_field(tree, "preset"@);
    let custom_traits = optional_text_field(tree, "custom_traits"@);
    if preset is Err {
        Err(preset->Err_0)
    } else if custom_traits is Err {
        Err(custom_traits->Err_0)
    } else {
        Ok(PersonalityConfigView { preset: preset->Ok_0, custom_traits: custom_traits->Ok_0 })
    }
}

/// The microphone configuration that a JSON object describes.
pub open spec fn microphone_of(tree: JsonTree) -> Result<MicrophoneConfigView, LoadFault> {
    let enabled = flag_field(tree, "enabled"@);
    let silence_timeout = unsigned_field(tree, "silence_timeout"@, u32::MAX as u64);
    let language = text_field(tree, "language"@);
    if enabled is Err {
        Err(enabled->Err_0)
    } else if silence_timeout is Err {
        Err(silence_timeout->Err_0)
    } else if language is Err {
        Err(language->Err_0)
    } else {
        Ok(
            MicrophoneConfigView {
                enabled: enabled->Ok_0,
                silence_timeout: silence_timeout->Ok_0 as u32,
                language: language->Ok_0,
            },
        )
    }
}

/// The view of an outcome that carries a personality.
pub open spec fn personality_read(r: Result<PersonalityConfig, LoadError>) -> Result<
    PersonalityConfigView,
    LoadFault,
> {
    match r {
        Ok(personality) => Ok(personality@),
        Err(e) => Err(e@),
    }
}

/// The view of an outcome that carries a microphone configuration.
pub open spec fn microphone_read(r: Result<MicrophoneConfig, LoadError>) -> Result<
    MicrophoneConfigView,
    LoadFault,
> {
    match r {
        Ok(microphone) => Ok(microphone@),
        Err(e) => Err(e@),
    }
}

/// Reads a personality from a JSON object.
pub fn personality_from_json(object: &Value) -> (r: Result<PersonalityConfig, LoadError>)
    ensures
        personality_read(r) == personality_of(json_tree(*object)),
{
    let preset = read_text(object, "preset")?;
    let custom_traits = read_optional_text(object, "custom_traits")?;
    Ok(PersonalityConfig { preset, custom_traits })
}

/// Reads a microphone configuration from a JSON object.
pub fn microphone_from_json(object: &Value) -> (r: Result<MicrophoneConfig, LoadError>)
    ensures
        microphone_read(r) == microphone_of(json_tree(*object)),
{
    let enabled = read_flag(object, "enabled")?;
    let silence_timeout = read_unsigned(object, "silence_timeout", u32::MAX as u64)?;
    let language = read_text(object, "language")?;
    Ok(MicrophoneConfig { enabled, silence_timeout: silence_timeout as u32, language })
}

/// The personality member of a settings document.
pub open spec fn personality_field(tree: JsonTree) -> Result<PersonalityConfigView, LoadFault> {
    match object_field(tree, "personality"@) {
        Ok(member) => personality_of(member),
        Err(fault) => Err(fault),
    }
}

/// The microphone member of a settings document.
pub open spec fn microphone_field(tree: JsonTree) -> Result<MicrophoneConfigView, LoadFault> {
    match object_field(tree, "microphone"@) {
        Ok(member) => microphone_of(member),
        Err(fault) => Err(fault),
    }
}

/// The settings that a JSON document describes, the credential as it is
/// stored. The document has to be an object. The credential, the
/// personality, the microphone and the retention period have to be there;
/// each display preference takes its default when it is absent. The first
/// member at fault, in the order of the fields, decides the error.
pub open spec fn settings_of(tree: JsonTree) -> Result<AppSettingsView, LoadFault> {
    let gemini_api_key = text_field(tree, "gemini_api_key"@);
    let personality = personality_field(tree);
    let microphone = microphone_field(tree);
    let retention = unsigned_field(tree, "conversation_retention_days"@, u32::MAX as u64);
    let show_energy_bar = flag_field_or(tree, "show_energy_bar"@, true);
    let show_happiness_bar = flag_field_or(tree, "show_happiness_bar"@, true);
    let pet_color_preset = text_field_or(tree, "pet_color_preset"@, "original"@);
    let pet_custom_color = text_field_or(tree, "pet_custom_color"@, "#FF6B9D"@);
    let pet_bloom_enabled = flag_field_or(tree, "pet_bloom_enabled"@, false);
    if !(tree is Object) {
        Err(LoadFault::Shape)
    } else if gemini_api_key is Err {
        Err(gemini_api_key->Err_0)
    } else if personality is Err {
        Err(personality->Err_0)
    } else if microphone is Err {
        Err(microphone->Err_0)
    } else if retention is Err {
        Err(retention->Err_0)
    } else if show_energy_bar is Err {
        Err(show_energy_bar->Err_0)
    } else if show_happiness_bar is Err {
        Err(show_happiness_bar->Err_0)
    } else if pet_color_preset is Err {
        Err(pet_color_preset->Err_0)
    } else if pet_custom_color is Err {
        Err(pet_custom_color->Err_0)
    } else if pet_bloom_enabled is Err {
        Err(pet_bloom_enabled->Err_0)
    } else {
        Ok(
            AppSettingsView {
                gemini_api_key: gemini_api_key->Ok_0,
                personality: personality->Ok_0,
                microphone: microphone->Ok_0,
                conversation_retention_days: retention->Ok_0 as u32,
                show_energy_bar: show_energy_bar->Ok_0,
                show_happiness_bar: show_happiness_bar->Ok_0,
                pet_color_preset: pet_color_preset->Ok_0,
                pet_custom_color: pet_custom_color->Ok_0,
                pet_bloom_enabled: pet_bloom_enabled->Ok_0,
            },
        )
    }
}

/// The view of an outcome that carries settings.
pub open spec fn settings_read(r: Result<AppSettings, LoadError>) -> Result<
    AppSettingsView,
    LoadFault,
> {
    match r {
        Ok(settings) => Ok(settings@),
        Err(e) => Err(e@),
    }
}

/// Reads settings from a parsed document, the credential as it is stored.
pub fn settings_from_json(document: &Value) -> (r: Result<AppSettings, LoadError>)
    ensures
        settings_read(r) == settings_of(json_tree(*document)),
{
    if !json_is_object(document) {
        return Err(LoadError::Shape);
    }
    let gemini_api_key = read_text(document, "gemini_api_key")?;
    let personality = personality_from_json(read_object(document, "personality")?)?;
    let microphone = microphone_from_json(read_object(document, "microphone")?)?;
    let retention = read_unsigned(document, "conversation_retention_days", u32::MAX as u64)?;
    let show_energy_bar = read_flag_or(document, "show_energy_bar", default_show_energy_bar())?;
    let show_happiness_bar = read_flag_or(
        document,
        "show_happiness_bar",
        default_show_happiness_bar(),
    )?;
    let pet_color_preset = read_text_or(document, "pet_color_preset", default_pet_color_preset())?;
    let pet_custom_color = read_text_or(document, "pet_custom_color", default_pet_custom_color())?;
    let pet_bloom_enabled = read_flag_or(document, "pet_bloom_enabled", false)?;
    Ok(
        AppSettings {
            gemini_api_key,
            personality,
            microphone,
            conversation_retention_days: retention as u32,
            show_energy_bar,
            show_happiness_bar,
            pet_color_preset,
            pet_custom_color,
            pet_bloom_enabled,
        },
    )
}

/// The JSON object written for a personality.
pub open spec fn personality_tree(personality: PersonalityConfigView) -> JsonTree {
    JsonTree::Object(
        Map::empty().insert("preset"@, JsonTree::Text(personality.preset)).insert(
            "custom_traits"@,
            optional_text_tree(personality.custom_traits),
        ),
    )
}

/// The JSON object written for a microphone configuration.
pub open spec fn microphone_tree(microphone: MicrophoneConfigView) -> JsonTree {
    JsonTree::Object(
        Map::empty().insert("enabled"@, JsonTree::Bool(microphone.enabled)).insert(
            "silence_timeout"@,
            unsigned_tree(microphone.silence_timeout as u64),
        ).insert("language"@, JsonTree::Text(microphone.language)),
    )
}

/// The JSON document written for settings, every field under its name.
pub open spec fn settings_tree(settings: AppSettingsView) -> JsonTree {
    JsonTree::Object(
        Map::empty().insert("gemini_api_key"@, JsonTree::Text(settings.gemini_api_key)).insert(
            "personality"@,
            personality_tree(settings.personality),
        ).insert("microphone"@, microphone_tree(settings.microphone)).insert(
            "conversation_retention_days"@,
            unsigned_tree(settings.conversation_retention_days as u64),
        ).insert("show_energy_bar"@, JsonTree::Bool(settings.show_energy_bar)).insert(
            "show_happiness_bar"@,
            JsonTree::Bool(settings.show_happiness_bar),
        ).insert("pet_color_preset"@, JsonTree::Text(settings.pet_color_preset)).insert(
            "pet_custom_color"@,
            JsonTree::Text(settings.pet_custom_color),
        ).insert("pet_bloom_enabled"@, JsonTree::Bool(settings.pet_bloom_enabled)),
    )
}

/// Writes a personality as a JSON object.
pub fn personality_to_json(personality: &PersonalityConfig) -> (value: Value)
    ensures
        json_tree(value) == personality_tree(personality@),
{
    let mut value = json_empty_object();
    json_set_member(&mut value, "preset", json_from_text(personality.preset.as_str()));
    json_set_member(&mut value, "custom_traits", write_optional_text(&personality.custom_traits));
    value
}

/// Writes a microphone configuration as a JSON object.
pub fn microphone_to_json(microphone: &MicrophoneConfig) -> (value: Value)
    ensures
        json_tree(value) == microphone_tree(microphone@),
{
    let mut value = json_empty_object();
    json_set_member(&mut value, "enabled", json_from_flag(microphone.enabled));
    json_set_member(
        &mut value,
        "silence_timeout",
        json_from_unsigned(microphone.silence_timeout as u64),
    );
    json_set_member(&mut value, "language", json_from_text(microphone.language.as_str()));
    value
}

/// Writes settings as a JSON document, with `credential` in the place of the
/// credential they hold.
pub fn settings_to_json(settings: &AppSettings, credential: &str) -> (value: Value)
    ensures
        json_tree(value) == settings_tree(settings@.with_credential(credential@)),
{
    let mut value = json_empty_object();
    json_set_member(&mut value, "gemini_api_key", json_from_text(credential));
    json_set_member(&mut value, "personality", personality_to_json(&settings.personality));
    json_set_member(&mut value, "microphone", microphone_to_json(&settings.microphone));
    json_set_member(
        &mut value,
        "conversation_retention_days",
        json_from_unsigned(settings.conversation_retention_days as u64),
    );
    json_set_member(&mut value, "show_energy_bar", json_from_flag(settings.show_energy_bar));
    json_set_member(&mut value, "show_happiness_bar", json_from_flag(settings.show_happiness_bar));
    json_set_member(
        &mut value,
        "pet_color_preset",
        json_from_text(settings.pet_color_preset.as_str()),
    );
    json_set_member(
        &mut value,
        "pet_custom_color",
        json_from_text(settings.pet_custom_color.as_str()),
    );
    json_set_member(&mut value, "pet_bloom_enabled", json_from_flag(settings.pet_bloom_enabled));
    value
}

/// What the stored credential turned out to be.
#[derive(Debug, Clone, PartialEq, Eq)]
pub enum StoredCredential {
    /// Nothing is stored.
    Unset,
    /// The stored text was encrypted for this identity; holds the plaintext.
    Protected(String),
    /// The stored text could not be decrypted and is taken as a credential
    /// written in the clear by an earlier version; holds the stored text.
    Legacy(String),
}

/// What a stored credential turns out to be, without the type.
pub enum CredentialReading {
    Unset,
    Protected(Seq<char>),
    Legacy(Seq<char>),
}

impl View for StoredCredential {
    type V = CredentialReading;

    open spec fn view(&self) -> CredentialReading {
        match *self {
            StoredCredential::Unset => CredentialReading::Unset,
            StoredCredential::Protected(plaintext) => CredentialReading::Protected(plaintext@),
            StoredCredential::Legacy(stored) => CredentialReading::Legacy(stored@),
        }
    }
}

impl CredentialReading {
    /// The credential to use.
    pub open spec fn credential(self) -> Seq<char> {
        match self {
            CredentialReading::Unset => Seq::empty(),
            CredentialReading::Protected(plaintext) => plaintext,
            CredentialReading::Legacy(stored) => stored,
        }
    }
}

/// How a stored credential reads under a key: empty is unset; what decrypts
/// is protected; anything else is a legacy plaintext.
pub open spec fn credential_reading(key: Seq<u8>, stored: Seq<char>) -> CredentialReading {
    if stored.len() == 0 {
        CredentialReading::Unset
    } else {
        match decrypted(key, stored) {
            Ok(plaintext) => CredentialReading::Protected(plaintext),
            Err(_) => CredentialReading::Legacy(stored),
        }
    }
}

/// Stored settings with the credential made usable.
pub open spec fn revealed(stored: AppSettingsView, key: Seq<u8>) -> AppSettingsView {
    stored.with_credential(credential_reading(key, stored.gemini_api_key).credential())
}

/// What loading a parsed settings document gives.
pub open spec fn loaded_document(tree: JsonTree, key: Seq<u8>) -> Result<
    AppSettingsView,
    LoadFault,
> {
    match settings_of(tree) {
        Ok(stored) => Ok(revealed(stored, key)),
        Err(fault) => Err(fault),
    }
}

/// What loading settings gives: the defaults when there is no file, else
/// what the text of the file describes.
pub open spec fn loaded_settings(content: Option<Seq<char>>, key: Seq<u8>) -> Result<
    AppSettingsView,
    LoadFault,
> {
    match content {
        None => Ok(default_settings()),
        Some(text) => match parsed_document(text) {
            Ok(tree) => loaded_document(tree, key),
            Err(fault) => Err(fault),
        },
    }
}

/// Whether loading `tree` under `key` succeeds and gives `settings`.
pub open spec fn reloads_as(tree: JsonTree, key: Seq<u8>, settings: AppSettingsView) -> bool {
    loaded_document(tree, key) == Ok::<AppSettingsView, LoadFault>(settings)
}

/// What saving settings under a key and a nonce gives: the text of the
/// document that holds the credential encrypted.
pub open spec fn saved_settings(settings: AppSettingsView, key: Seq<u8>, nonce: Seq<u8>) -> Result<
    Seq<char>,
    SaveFault,
> {
    match encrypted(key, nonce, settings.gemini_api_key) {
        Ok(credential) => printed(settings_tree(settings.with_credential(credential))),
        Err(e) => Err(SaveFault::Encrypt(e)),
    }
}

/// Decides what a stored credential is: unset, protected or legacy.
pub fn read_credential(stored: &str, identity: &MachineIdentity) -> (reading: StoredCredential)
    ensures
        reading@ == credential_reading(identity.key(), stored@),
{
    if stored.is_empty() {
        StoredCredential::Unset
    } else {
        match decrypt_string(stored, identity) {
            Ok(plaintext) => StoredCredential::Protected(plaintext),
            Err(_) => StoredCredential::Legacy(String::from_str(stored)),
        }
    }
}

/// Replaces the stored credential by the one to use: the plaintext when it
/// decrypts, the stored text itself when it does not.
pub fn reveal_credential(stored: AppSettings, identity: &MachineIdentity) -> (settings:
    AppSettings)
    ensures
        settings@ == revealed(stored@, identity.key()),
{
    let mut settings = stored;
    match read_credential(settings.gemini_api_key.as_str(), identity) {
        StoredCredential::Unset => {
            assert(settings.gemini_api_key@ =~= Seq::<char>::empty());
        },
        StoredCredential::Protected(plaintext) => {
            settings.gemini_api_key = plaintext;
        },
        StoredCredential::Legacy(_) => {},
    }
    settings
}

/// Loads settings from a parsed document.
pub fn settings_from_document(document: &Value, identity: &MachineIdentity) -> (r: Result<
    AppSettings,
    LoadError,
>)
    ensures
        settings_read(r) == loaded_document(json_tree(*document), identity.key()),
{
    let stored = settings_from_json(document)?;
    Ok(reveal_credential(stored, identity))
}

/// Loads settings from the content of the settings file, `None` standing
/// for a file that does not exist.
pub fn load_settings(content: Option<&str>, identity: &MachineIdentity) -> (r: Result<
    AppSettings,
    LoadError,
>)
    ensures
        settings_read(r) == loaded_settings(content_view(content), identity.key()),
{
    match content {
        None => Ok(AppSettings::default()),
        Some(text) => {
            let document = parse_document(text)?;
            settings_from_document(&document, identity)
        },
    }
}

/// The text of the settings document that holds `credential` in the place
/// of the credential.
pub fn stored_settings_text(settings: &AppSettings, credential: &str) -> (r: Result<
    String,
    SaveError,
>)
    ensures
        save_outcome(r) == printed(settings_tree(settings@.with_credential(credential@))),
{
    let document = settings_to_json(settings, credential);
    print_document(&document)
}

/// Whether `credential` is how the credential `plaintext` is stored under a
/// key: empty when the credential is; else a text of the size that goes with
/// the plaintext, at least 40 characters and never the plaintext itself; and
/// in both cases a text that decrypts to the credential.
pub open spec fn stores(credential: Seq<char>, key: Seq<u8>, plaintext: Seq<char>) -> bool {
    &&& credential.len() == 0 <==> plaintext.len() == 0
    &&& plaintext.len() > 0 ==> sized_for(credential, plaintext)
    &&& decrypts_to(key, credential, plaintext)
}

/// Whether `text` is the settings document written for `settings` with
/// `credential` stored for the credential: it is the indented text of that
/// document, the credential is stored as it has to be, and the document
/// loads as the settings given.
pub open spec fn written_as(
    text: Seq<char>,
    settings: AppSettingsView,
    credential: Seq<char>,
    key: Seq<u8>,
) -> bool {
    let tree = settings_tree(settings.with_credential(credential));
    &&& json_pretty(tree) == printing(text)
    &&& text_field(tree, "gemini_api_key"@) == Ok::<Seq<char>, LoadFault>(credential)
    &&& stores(credential, key, settings.gemini_api_key)
    &&& reloads_as(tree, key, settings)
}

/// The text to write to the settings file: the settings as indented JSON,
/// the credential encrypted for the identity. The settings given are left
/// as they are. The credential stored is never the plaintext, and loading
/// the document written gives the settings back.
pub fn save_settings(settings: &AppSettings, identity: &MachineIdentity) -> (r: Result<
    String,
    SaveError,
>)
    ensures
        exists|nonce: Seq<u8>|
            nonce.len() == NONCE_SIZE && save_outcome(r) == #[trigger] saved_settings(
                settings@,
                identity.key(),
                nonce,
            ),
        r matches Ok(text) ==> exists|credential: Seq<char>| #[trigger]
            written_as(text@, settings@, credential, identity.key()),
{
    let protected = encrypt_string(settings.gemini_api_key.as_str(), identity);
    let ghost nonce = choose|nonce: Seq<u8>|
        nonce.len() == NONCE_SIZE && #[trigger] encrypts_as(
            protected,
            identity.key(),
            nonce,
            settings.gemini_api_key@,
        );
    match protected {
        Err(e) => {
            let r = Err(SaveError::Encrypt(e));
            assert(save_outcome(r) == saved_settings(settings@, identity.key(), nonce));
            r
        },
        Ok(credential) => {
            let r = stored_settings_text(settings, credential.as_str());
            proof {
                assert(save_outcome(r) == saved_settings(settings@, identity.key(), nonce));
                lemma_saved_settings_reload(settings@, credential@, identity.key());
                lemma_settings_keys_differ();
                if r is Ok {
                    assert(written_as(r->Ok_0@, settings@, credential@, identity.key()));
                }
            }
            r
        },
    }
}

/// The names of the members of a settings document differ from one another.
proof fn lemma_settings_keys_differ()
    ensures
        "gemini_api_key"@.len() == 14,
        "personality"@.len() == 11,
        "microphone"@.len() == 10,
        "conversation_retention_days"@.len() == 27,
        "show_energy_bar"@.len() == 15,
        "show_happiness_bar"@.len() == 18,
        "pet_color_preset"@.len() == 16,
        "pet_custom_color"@.len() == 16,
        "pet_bloom_enabled"@.len() == 17,
        "pet_color_preset"@ != "pet_custom_color"@,
        "preset"@.len() == 6,
        "custom_traits"@.len() == 13,
        "enabled"@.len() == 7,
        "silence_timeout"@.len() == 15,
        "language"@.len() == 8,
{
    reveal_strlit("gemini_api_key");
    reveal_strlit("personality");
    reveal_strlit("microphone");
    reveal_strlit("conversation_retention_days");
    reveal_strlit("show_energy_bar");
    reveal_strlit("show_happiness_bar");
    reveal_strlit("pet_color_preset");
    reveal_strlit("pet_custom_color");
    reveal_strlit("pet_bloom_enabled");
    reveal_strlit("preset");
    reveal_strlit("custom_traits");
    reveal_strlit("enabled");
    reveal_strlit("silence_timeout");
    reveal_strlit("language");
    assert("pet_color_preset"@[5] != "pet_custom_color"@[5]);
}

/// Reading the JSON object written for a personality gives the personality
/// back.
pub proof fn lemma_personality_round_trip(personality: PersonalityConfigView)
    ensures
        personality_of(personality_tree(personality)) == Ok::<PersonalityConfigView, LoadFault>(
            personality,
        ),
{
    lemma_settings_keys_differ();
}

/// Reading the JSON object written for a microphone configuration gives the
/// configuration back.
pub proof fn lemma_microphone_round_trip(microphone: MicrophoneConfigView)
    ensures
        microphone_of(microphone_tree(microphone)) == Ok::<MicrophoneConfigView, LoadFault>(
            microphone,
        ),
{
    lemma_settings_keys_differ();
}

/// Reading the JSON document written for settings gives the settings back,
/// each field unchanged.
pub proof fn lemma_settings_round_trip(settings: AppSettingsView)
    ensures
        settings_of(settings_tree(settings)) == Ok::<AppSettingsView, LoadFault>(settings),
{
    lemma_settings_keys_differ();
    lemma_personality_round_trip(settings.personality);
    lemma_microphone_round_trip(settings.microphone);
}

/// Saving and loading again preserves the settings: a document that holds
/// every field of `settings`, and for the credential a text that is empty
/// when the credential is and else decrypts to it, loads as `settings`.
pub proof fn lemma_saved_settings_reload(
    settings: AppSettingsView,
    credential: Seq<char>,
    key: Seq<u8>,
)
    requires
        credential.len() == 0 <==> settings.gemini_api_key.len() == 0,
        decrypts_to(key, credential, settings.gemini_api_key),
    ensures
        reloads_as(settings_tree(settings.with_credential(credential)), key, settings),
{
    let stored = settings.with_credential(credential);
    lemma_settings_round_trip(stored);
    if credential.len() == 0 {
        assert(settings.gemini_api_key =~= Seq::<char>::empty());
    }
    assert(revealed(stored, key) == settings);
}

/// A stored credential that does not decrypt is kept as it is, and loading
/// does not fail on its account: the document loads with exactly the fields
/// it holds.
pub proof fn lemma_legacy_credential_kept(tree: JsonTree, key: Seq<u8>)
    requires
        settings_of(tree) is Ok,
        decrypted(key, settings_of(tree)->Ok_0.gemini_api_key) is Err,
    ensures
        loaded_document(tree, key) == settings_of(tree),
{
    let stored = settings_of(tree)->Ok_0;
    assert(revealed(stored, key) == stored);
}

/// Whether the credential, the personality, the microphone and the
/// retention period of a document are there and well formed.
pub open spec fn has_required_settings(tree: JsonTree) -> bool {
    &&& tree is Object
    &&& text_field(tree, "gemini_api_key"@) is Ok
    &&& personality_field(tree) is Ok
    &&& microphone_field(tree) is Ok
    &&& unsigned_field(tree, "conversation_retention_days"@, u32::MAX as u64) is Ok
}

/// A document written before the display preferences existed still loads,
/// and each preference it lacks takes its default.
pub proof fn lemma_absent_preferences_take_defaults(tree: JsonTree)
    requires
        has_required_settings(tree),
        tree_member(tree, "show_energy_bar"@) is None,
        tree_member(tree, "show_happiness_bar"@) is None,
        tree_member(tree, "pet_color_preset"@) is None,
        tree_member(tree, "pet_custom_color"@) is None,
        tree_member(tree, "pet_bloom_enabled"@) is None,
    ensures
        settings_of(tree) matches Ok(settings) && {
            &&& settings.show_energy_bar
            &&& settings.show_happiness_bar
            &&& settings.pet_color_preset == "original"@
            &&& settings.pet_custom_color == "#FF6B9D"@
            &&& !settings.pet_bloom_enabled
        },
{
}

/// Each display preference is decided by its own member alone: when a
/// document loads, a preference that is absent has its default, whatever the
/// other members hold.
pub proof fn lemma_each_preference_defaults_alone(tree: JsonTree)
    requires
        settings_of(tree) is Ok,
    ensures
        tree_member(tree, "show_energy_bar"@) is None ==> settings_of(tree)->Ok_0.show_energy_bar,
        tree_member(tree, "show_happiness_bar"@) is None ==> settings_of(
            tree,
        )->Ok_0.show_happiness_bar,
        tree_member(tree, "pet_color_preset"@) is None ==> settings_of(tree)->Ok_0.pet_color_preset
            == "original"@,
        tree_member(tree, "pet_custom_color"@) is None ==> settings_of(tree)->Ok_0.pet_custom_color
            == "#FF6B9D"@,
        tree_member(tree, "pet_bloom_enabled"@) is None ==> !settings_of(
            tree,
        )->Ok_0.pet_bloom_enabled,
{
}

/// A settings document loads exactly when it is an object whose required
/// members are there and well formed and whose display preferences, where
/// present, are of the right kind. The credential never stands in the way:
/// whatever text it holds, the document loads.
pub proof fn lemma_settings_load_when_members_are_valid(tree: JsonTree, key: Seq<u8>)
    ensures
        settings_of(tree) is Ok <==> {
            &&& has_required_settings(tree)
            &&& flag_field_or(tree, "show_energy_bar"@, true) is Ok
            &&& flag_field_or(tree, "show_happiness_bar"@, true) is Ok
            &&& text_field_or(tree, "pet_color_preset"@, "original"@) is Ok
            &&& text_field_or(tree, "pet_custom_color"@, "#FF6B9D"@) is Ok
            &&& flag_field_or(tree, "pet_bloom_enabled"@, false) is Ok
        },
        loaded_document(tree, key) is Ok <==> settings_of(tree) is Ok,
{
}

} // verus!
