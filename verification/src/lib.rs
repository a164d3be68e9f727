//! Secret protection and state persistence for the iPet desktop companion.
//!
//! The crate protects one user-supplied credential at rest and defines the
//! three JSON documents the application keeps under a per-user directory:
//! settings, the mood snapshot and the chat history. Reading and writing the
//! files themselves is left to the caller; everything here works on values.

pub mod codec;
pub mod document;
pub mod history;
pub mod json;
pub mod key;
pub mod mood;
pub mod settings;
pub mod store;

pub use codec::decrypt_string;
pub use codec::encrypt_string;
pub use codec::CodecError;
pub use document::LoadError;
pub use document::SaveError;
pub use history::load_chat_history;
pub use history::save_chat_history;
pub use key::derive_key;
pub use key::MachineIdentity;
pub use mood::load_mood;
pub use mood::save_mood;
pub use mood::InteractionCounts;
pub use mood::MoodStats;
pub use mood::MoodTimestamps;
pub use mood::PetMoodState;
pub use mood::SleepState;
pub use settings::default_pet_color_preset;
pub use settings::default_pet_custom_color;
pub use settings::default_show_energy_bar;
pub use settings::default_show_happiness_bar;
pub use settings::load_settings;
pub use settings::save_settings;
pub use settings::AppSettings;
pub use settings::MicrophoneConfig;
pub use settings::PersonalityConfig;
pub use store::get_chat_history_path;
pub use store::get_mood_path;
pub use store::get_settings_dir;
pub use store::get_settings_path;
