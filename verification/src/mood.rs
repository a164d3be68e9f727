//! The mood document: a snapshot of the companion's mood, kept exactly as it
//! was handed over. When there is no file there is no mood: none is made up.

use crate::document::content_view;
use crate::document::flag_field;
use crate::document::number_field;
use crate::document::object_field;
use crate::document::optional_unsigned_field;
use crate::document::optional_unsigned_tree;
use crate::document::parse_document;
use crate::document::parsed_document;
use crate::document::print_document;
use crate::document::printed;
use crate::document::read_flag;
use crate::document::read_number;
use crate::document::read_object;
use crate::document::read_optional_unsigned;
use crate::document::read_text;
use crate::document::read_unsigned;
use crate::document::save_outcome;
use crate::document::text_field;
use crate::document::unsigned_field;
use crate::document::unsigned_tree;
use crate::document::write_optional_unsigned;
use crate::document::LoadError;
use crate::document::LoadFault;
use crate::document::SaveError;
use crate::json::json_empty_object;
use crate::json::json_from_flag;
use crate::json::json_from_text;
use crate::json::json_from_unsigned;
use crate::json::json_is_object;
use crate::json::json_pretty;
use crate::json::printing;
use crate::json::json_set_member;
use crate::json::json_tree;
use crate::json::JsonTree;
use serde_json::Value;
use vstd::prelude::*;
use vstd::string::*;

verus! {

/// Happiness and energy. Each is kept as the JSON number it is stored as,
/// so that it is written back digit for digit.
#[derive(Debug, Clone, PartialEq)]
pub struct MoodStats {
    pub happiness: Value,
    pub energy: Value,
}

/// Moments in the companion's life, in milliseconds since the epoch.
#[derive(Debug, Clone, Copy, PartialEq, Eq)]
pub struct MoodTimestamps {
    pub last_interaction: u64,
    pub last_sleep_end: u64,
    pub app_last_closed: u64,
}

/// Whether the companion sleeps, since when, until when, and when it will
/// next go to sleep; times in milliseconds since the epoch.
#[derive(Debug, Clone, Copy, PartialEq, Eq)]
pub struct SleepState {
    pub is_sleeping: bool,
    pub sleep_start_time: Option<u64>,
    pub scheduled_wake_time: Option<u64>,
    pub next_sleep_time: u64,
}

/// What happened today: the date, the treats given and whether the morning
/// greeting took place.
#[derive(Debug, Clone, PartialEq, Eq)]
pub struct InteractionCounts {
    pub today_date: String,
    pub treats: u32,
    pub morning_greeting: bool,
}

/// The companion's mood at one moment.
#[derive(Debug, Clone, PartialEq)]
pub struct PetMoodState {
    pub version: u8,
    pub stats: MoodStats,
    pub timestamps: MoodTimestamps,
    pub sleep: SleepState,
    pub interaction_counts: InteractionCounts,
}

/// Stats as what their two JSON numbers hold.
pub struct MoodStatsView {
    pub happiness: JsonTree,
    pub energy: JsonTree,
}

/// Interaction counts as plain values.
pub struct InteractionCountsView {
    pub today_date: Seq<char>,
    pub treats: u32,
    pub morning_greeting: bool,
}

/// A mood as plain values.
pub struct PetMoodStateView {
    pub version: u8,
    pub stats: MoodStatsView,
    pub timestamps: MoodTimestamps,
    pub sleep: SleepState,
    pub interaction_counts: InteractionCountsView,
}

impl View for MoodStats {
    type V = MoodStatsView;

    open spec fn view(&self) -> MoodStatsView {
        MoodStatsView { happiness: json_tree(self.happiness), energy: json_tree(self.energy) }
    }
}

impl View for InteractionCounts {
    type V = InteractionCountsView;

    open spec fn view(&self) -> InteractionCountsView {
        InteractionCountsView {
            today_date: self.today_date@,
            treats: self.treats,
            morning_greeting: self.morning_greeting,
        }
    }
}

impl View for PetMoodState {
    type V = PetMoodStateView;

    open spec fn view(&self) -> PetMoodStateView {
        PetMoodStateView {
            version: self.version,
            stats: self.stats@,
            timestamps: self.timestamps,
            sleep: self.sleep,
            interaction_counts: self.interaction_counts@,
        }
    }
}

impl MoodStatsView {
    /// Whether both stats are numbers.
    pub open spec fn well_formed(self) -> bool {
        self.happiness is Number && self.energy is Number
    }
}

/// The stats that a JSON object describes.
pub open spec fn stats_of(tree: JsonTree) -> Result<MoodStatsView, LoadFault> {
    let happiness = number_field(tree, "happiness"@);
    let energy = number_field(tree, "energy"@);
    if happiness is Err {
        Err(happiness->Err_0)
    } else if energy is Err {
        Err(energy->Err_0)
    } else {
        Ok(MoodStatsView { happiness: happiness->Ok_0, energy: energy->Ok_0 })
    }
}

/// The timestamps that a JSON object describes.
pub open spec fn timestamps_of(tree: JsonTree) -> Result<MoodTimestamps, LoadFault> {
    let last_interaction = unsigned_field(tree, "lastInteraction"@, u64::MAX);
    let last_sleep_end = unsigned_field(tree, "lastSleepEnd"@, u64::MAX);
    let app_last_closed = unsigned_field(tree, "appLastClosed"@, u64::MAX);
    if last_interaction is Err {
        Err(last_interaction->Err_0)
    } else if last_sleep_end is Err {
        Err(last_sleep_end->Err_0)
    } else if app_last_closed is Err {
        Err(app_last_closed->Err_0)
    } else {
        Ok(
            MoodTimestamps {
                last_interaction: last_interaction->Ok_0,
                last_sleep_end: last_sleep_end->Ok_0,
                app_last_closed: app_last_closed->Ok_0,
            },
        )
    }
}

/// The sleep state that a JSON object describes.
pub open spec fn sleep_of(tree: JsonTree) -> Result<SleepState, LoadFault> {
    let is_sleeping = flag_field(tree, "isSleeping"@);
    let sleep_start_time = optional_unsigned_field(tree, "sleepStartTime"@);
    let scheduled_wake_time = optional_unsigned_field(tree, "scheduledWakeTime"@);
    let next_sleep_time = unsigned_field(tree, "nextSleepTime"@, u64::MAX);
    if is_sleeping is Err {
        Err(is_sleeping->Err_0)
    } else if sleep_start_time is Err {
        Err(sleep_start_time->Err_0)
    } else if scheduled_wake_time is Err {
        Err(scheduled_wake_time->Err_0)
    } else if next_sleep_time is Err {
        Err(next_sleep_time->Err_0)
    } else {
        Ok(
            SleepState {
                is_sleeping: is_sleeping->Ok_0,
                sleep_start_time: sleep_start_time->Ok_0,
                scheduled_wake_time: scheduled_wake_time->Ok_0,
                next_sleep_time: next_sleep_time->Ok_0,
            },
        )
    }
}

/// The interaction counts that a JSON object describes.
pub open spec fn counts_of(tree: JsonTree) -> Result<InteractionCountsView, LoadFault> {
    let today_date = text_field(tree, "todayDate"@);
    let treats = unsigned_field(tree, "treats"@, u32::MAX as u64);
    let morning_greeting = flag_field(tree, "morningGreeting"@);
    if today_date is Err {
        Err(today_date->Err_0)
    } else if treats is Err {
        Err(treats->Err_0)
    } else if morning_greeting is Err {
        Err(morning_greeting->Err_0)
    } else {
        Ok(
            InteractionCountsView {
                today_date: today_date->Ok_0,
                treats: treats->Ok_0 as u32,
                morning_greeting: morning_greeting->Ok_0,
            },
        )
    }
}

/// The stats member of a mood document.
pub open spec fn stats_field(tree: JsonTree) -> Result<MoodStatsView, LoadFault> {
    match object_field(tree, "stats"@) {
        Ok(member) => stats_of(member),
        Err(fault) => Err(fault),
    }
}

/// The timestamps member of a mood document.
pub open spec fn timestamps_field(tree: JsonTree) -> Result<MoodTimestamps, LoadFault> {
    match object_field(tree, "timestamps"@) {
        Ok(member) => timestamps_of(member),
        Err(fault) => Err(fault),
    }
}

/// The sleep member of a mood document.
pub open spec fn sleep_field(tree: JsonTree) -> Result<SleepState, LoadFault> {
    match object_field(tree, "sleep"@) {
        Ok(member) => sleep_of(member),
        Err(fault) => Err(fault),
    }
}

/// The interaction counts member of a mood document.
pub open spec fn counts_field(tree: JsonTree) -> Result<InteractionCountsView, LoadFault> {
    match object_field(tree, "interactionCounts"@) {
        Ok(member) => counts_of(member),
        Err(fault) => Err(fault),
    }
}

/// The mood that a JSON document describes. The document has to be an
/// object and every member has to be there, but for the two optional times of
/// the sleep state. The first member at fault, in the order of the fields,
/// decides the error.
pub open spec fn mood_of(tree: JsonTree) -> Result<PetMoodStateView, LoadFault> {
    let version = unsigned_field(tree, "version"@, u8::MAX as u64);
    let stats = stats_field(tree);
    let timestamps = timestamps_field(tree);
    let sleep = sleep_field(tree);
    let interaction_counts = counts_field(tree);
    if !(tree is Object) {
        Err(LoadFault::Shape)
    } else if version is Err {
        Err(version->Err_0)
    } else if stats is Err {
        Err(stats->Err_0)
    } else if timestamps is Err {
        Err(timestamps->Err_0)
    } else if sleep is Err {
        Err(sleep->Err_0)
    } else if interaction_counts is Err {
        Err(interaction_counts->Err_0)
    } else {
        Ok(
            PetMoodStateView {
                version: version->Ok_0 as u8,
                stats: stats->Ok_0,
                timestamps: timestamps->Ok_0,
                sleep: sleep->Ok_0,
                interaction_counts: interaction_counts->Ok_0,
            },
        )
    }
}

/// The view of an outcome that carries stats.
pub open spec fn stats_read(r: Result<MoodStats, LoadError>) -> Result<MoodStatsView, LoadFault> {
    match r {
        Ok(stats) => Ok(stats@),
        Err(e) => Err(e@),
    }
}

/// The view of an outcome that carries interaction counts.
pub open spec fn counts_read(r: Result<InteractionCounts, LoadError>) -> Result<
    InteractionCountsView,
    LoadFault,
> {
    match r {
        Ok(counts) => Ok(counts@),
        Err(e) => Err(e@),
    }
}

/// The view of an outcome that carries a mood.
pub open spec fn mood_read(r: Result<PetMoodState, LoadError>) -> Result<
    PetMoodStateView,
    LoadFault,
> {
    match r {
        Ok(mood) => Ok(mood@),
        Err(e) => Err(e@),
    }
}

/// Reads stats from a JSON object.
pub fn stats_from_json(object: &Value) -> (r: Result<MoodStats, LoadError>)
    ensures
        stats_read(r) == stats_of(json_tree(*object)),
        r matches Ok(stats) ==> stats@.well_formed(),
{
    let happiness = read_number(object, "happiness")?.clone();
    let energy = read_number(object, "energy")?.clone();
    Ok(MoodStats { happiness, energy })
}

/// Reads timestamps from a JSON object.
pub fn timestamps_from_json(object: &Value) -> (r: Result<MoodTimestamps, LoadError>)
    ensures
        crate::document::value_read(r) == timestamps_of(json_tree(*object)),
{
    let last_interaction = read_unsigned(object, "lastInteraction", u64::MAX)?;
    let last_sleep_end = read_unsigned(object, "lastSleepEnd", u64::MAX)?;
    let app_last_closed = read_unsigned(object, "appLastClosed", u64::MAX)?;
    Ok(MoodTimestamps { last_interaction, last_sleep_end, app_last_closed })
}

/// Reads a sleep state from a JSON object.
pub fn sleep_from_json(object: &Value) -> (r: Result<SleepState, LoadError>)
    ensures
        crate::document::value_read(r) == sleep_of(json_tree(*object)),
{
    let is_sleeping = read_flag(object, "isSleeping")?;
    let sleep_start_time = read_optional_unsigned(object, "sleepStartTime")?;
    let scheduled_wake_time = read_optional_unsigned(object, "scheduledWakeTime")?;
    let next_sleep_time = read_unsigned(object, "nextSleepTime", u64::MAX)?;
    Ok(SleepState { is_sleeping, sleep_start_time, scheduled_wake_time, next_sleep_time })
}

/// Reads interaction counts from a JSON object.
pub fn counts_from_json(object: &Value) -> (r: Result<InteractionCounts, LoadError>)
    ensures
        counts_read(r) == counts_of(json_tree(*object)),
{
    let today_date = read_text(object, "todayDate")?;
    let treats = read_unsigned(object, "treats", u32::MAX as u64)?;
    let morning_greeting = read_flag(object, "morningGreeting")?;
    Ok(InteractionCounts { today_date, treats: treats as u32, morning_greeting })
}

/// Reads a mood from a parsed document.
pub fn mood_from_json(document: &Value) -> (r: Result<PetMoodState, LoadError>)
    ensures
        mood_read(r) == mood_of(json_tree(*document)),
        r matches Ok(mood) ==> mood@.stats.well_formed(),
{
    if !json_is_object(document) {
        return Err(LoadError::Shape);
    }
    let version = read_unsigned(document, "version", u8::MAX as u64)?;
    let stats = stats_from_json(read_object(document, "stats")?)?;
    let timestamps = timestamps_from_json(read_object(document, "timestamps")?)?;
    let sleep = sleep_from_json(read_object(document, "sleep")?)?;
    let interaction_counts = counts_from_json(read_object(document, "interactionCounts")?)?;
    Ok(PetMoodState { version: version as u8, stats, timestamps, sleep, interaction_counts })
}

/// The JSON object written for stats.
pub open spec fn stats_tree(stats: MoodStatsView) -> JsonTree {
    JsonTree::Object(
        Map::empty().insert("happiness"@, stats.happiness).insert("energy"@, stats.energy),
    )
}

/// The JSON object written for timestamps.
pub open spec fn timestamps_tree(timestamps: MoodTimestamps) -> JsonTree {
    JsonTree::Object(
        Map::empty().insert("lastInteraction"@, unsigned_tree(timestamps.last_interaction)).insert(
            "lastSleepEnd"@,
            unsigned_tree(timestamps.last_sleep_end),
        ).insert("appLastClosed"@, unsigned_tree(timestamps.app_last_closed)),
    )
}

/// The JSON object written for a sleep state; a time that is not set is
/// written as null.
pub open spec fn sleep_tree(sleep: SleepState) -> JsonTree {
    JsonTree::Object(
        Map::empty().insert("isSleeping"@, JsonTree::Bool(sleep.is_sleeping)).insert(
            "sleepStartTime"@,
            optional_unsigned_tree(sleep.sleep_start_time),
        ).insert("scheduledWakeTime"@, optional_unsigned_tree(sleep.scheduled_wake_time)).insert(
            "nextSleepTime"@,
            unsigned_tree(sleep.next_sleep_time),
        ),
    )
}

/// The JSON object written for interaction counts.
pub open spec fn counts_tree(counts: InteractionCountsView) -> JsonTree {
    JsonTree::Object(
        Map::empty().insert("todayDate"@, JsonTree::Text(counts.today_date)).insert(
            "treats"@,
            unsigned_tree(counts.treats as u64),
        ).insert("morningGreeting"@, JsonTree::Bool(counts.morning_greeting)),
    )
}

/// The JSON document written for a mood, every field under its name.
pub open spec fn mood_tree(mood: PetMoodStateView) -> JsonTree {
    JsonTree::Object(
        Map::empty().insert("version"@, unsigned_tree(mood.version as u64)).insert(
            "stats"@,
            stats_tree(mood.stats),
        ).insert("timestamps"@, timestamps_tree(mood.timestamps)).insert(
            "sleep"@,
            sleep_tree(mood.sleep),
        ).insert("interactionCounts"@, counts_tree(mood.interaction_counts)),
    )
}

/// Writes stats as a JSON object.
pub fn stats_to_json(stats: &MoodStats) -> (value: Value)
    ensures
        json_tree(value) == stats_tree(stats@),
{
    let mut value = json_empty_object();
    json_set_member(&mut value, "happiness", stats.happiness.clone());
    json_set_member(&mut value, "energy", stats.energy.clone());
    value
}

/// Writes timestamps as a JSON object.
pub fn timestamps_to_json(timestamps: &MoodTimestamps) -> (value: Value)
    ensures
        json_tree(value) == timestamps_tree(*timestamps),
{
    let mut value = json_empty_object();
    json_set_member(&mut value, "lastInteraction", json_from_unsigned(timestamps.last_interaction));
    json_set_member(&mut value, "lastSleepEnd", json_from_unsigned(timestamps.last_sleep_end));
    json_set_member(&mut value, "appLastClosed", json_from_unsigned(timestamps.app_last_closed));
    value
}

/// Writes a sleep state as a JSON object.
pub fn sleep_to_json(sleep: &SleepState) -> (value: Value)
    ensures
        json_tree(value) == sleep_tree(*sleep),
{
    let mut value = json_empty_object();
    json_set_member(&mut value, "isSleeping", json_from_flag(sleep.is_sleeping));
    json_set_member(&mut value, "sleepStartTime", write_optional_unsigned(sleep.sleep_start_time));
    json_set_member(
        &mut value,
        "scheduledWakeTime",
        write_optional_unsigned(sleep.scheduled_wake_time),
    );
    json_set_member(&mut value, "nextSleepTime", json_from_unsigned(sleep.next_sleep_time));
    value
}

/// Writes interaction counts as a JSON object.
pub fn counts_to_json(counts: &InteractionCounts) -> (value: Value)
    ensures
        json_tree(value) == counts_tree(counts@),
{
    let mut value = json_empty_object();
    json_set_member(&mut value, "todayDate", json_from_text(counts.today_date.as_str()));
    json_set_member(&mut value, "treats", json_from_unsigned(counts.treats as u64));
    json_set_member(&mut value, "morningGreeting", json_from_flag(counts.morning_greeting));
    value
}

/// Writes a mood as a JSON document.
pub fn mood_to_json(mood: &PetMoodState) -> (value: Value)
    ensures
        json_tree(value) == mood_tree(mood@),
{
    let mut value = json_empty_object();
    json_set_member(&mut value, "version", json_from_unsigned(mood.version as u64));
    json_set_member(&mut value, "stats", stats_to_json(&mood.stats));
    json_set_member(&mut value, "timestamps", timestamps_to_json(&mood.timestamps));
    json_set_member(&mut value, "sleep", sleep_to_json(&mood.sleep));
    json_set_member(&mut value, "interactionCounts", counts_to_json(&mood.interaction_counts));
    value
}

/// What loading the mood gives: no mood when there is no file, else the mood
/// that the text of the file describes.
pub open spec fn loaded_mood(content: Option<Seq<char>>) -> Result<
    Option<PetMoodStateView>,
    LoadFault,
> {
    match content {
        None => Ok(None),
        Some(text) => match parsed_document(text) {
            Err(fault) => Err(fault),
            Ok(tree) => match mood_of(tree) {
                Ok(mood) => Ok(Some(mood)),
                Err(fault) => Err(fault),
            },
        },
    }
}

/// The view of the outcome of loading the mood.
pub open spec fn optional_mood_read(r: Result<Option<PetMoodState>, LoadError>) -> Result<
    Option<PetMoodStateView>,
    LoadFault,
> {
    match r {
        Ok(Some(mood)) => Ok(Some(mood@)),
        Ok(None) => Ok(None),
        Err(e) => Err(e@),
    }
}

/// Loads the mood from the content of the mood file, `None` standing for a
/// file that does not exist.
pub fn load_mood(content: Option<&str>) -> (r: Result<Option<PetMoodState>, LoadError>)
    ensures
        optional_mood_read(r) == loaded_mood(content_view(content)),
{
    match content {
        None => Ok(None),
        Some(text) => {
            let document = parse_document(text)?;
            let mood = mood_from_json(&document)?;
            Ok(Some(mood))
        },
    }
}

/// Whether reading `tree` as a mood succeeds and gives `mood`.
pub open spec fn reads_as_mood(tree: JsonTree, mood: PetMoodStateView) -> bool {
    mood_of(tree) == Ok::<PetMoodStateView, LoadFault>(mood)
}

/// The text to write to the mood file: the mood as indented JSON, nothing
/// changed. When the stats are numbers, the document written reads back as
/// the same mood.
pub fn save_mood(mood: &PetMoodState) -> (r: Result<String, SaveError>)
    ensures
        save_outcome(r) == printed(mood_tree(mood@)),
        r matches Ok(text) ==> mood@.stats.well_formed() ==> exists|tree: JsonTree|
            json_pretty(tree) == printing(text@) && #[trigger] reads_as_mood(tree, mood@),
{
    let document = mood_to_json(mood);
    let r = print_document(&document);
    proof {
        if r is Ok && mood@.stats.well_formed() {
            lemma_mood_round_trip(mood@);
            assert(reads_as_mood(mood_tree(mood@), mood@));
        }
    }
    r
}

/// The names of the members of a mood document differ from one another.
proof fn lemma_mood_keys_differ()
    ensures
        "version"@.len() == 7,
        "stats"@.len() == 5,
        "timestamps"@.len() == 10,
        "sleep"@.len() == 5,
        "interactionCounts"@.len() == 17,
        "stats"@ != "sleep"@,
        "happiness"@.len() == 9,
        "energy"@.len() == 6,
        "lastInteraction"@.len() == 15,
        "lastSleepEnd"@.len() == 12,
        "appLastClosed"@.len() == 13,
        "isSleeping"@.len() == 10,
        "sleepStartTime"@.len() == 14,
        "scheduledWakeTime"@.len() == 17,
        "nextSleepTime"@.len() == 13,
        "todayDate"@.len() == 9,
        "treats"@.len() == 6,
        "morningGreeting"@.len() == 15,
{
    reveal_strlit("version");
    reveal_strlit("stats");
    reveal_strlit("timestamps");
    reveal_strlit("sleep");
    reveal_strlit("interactionCounts");
    reveal_strlit("happiness");
    reveal_strlit("energy");
    reveal_strlit("lastInteraction");
    reveal_strlit("lastSleepEnd");
    reveal_strlit("appLastClosed");
    reveal_strlit("isSleeping");
    reveal_strlit("sleepStartTime");
    reveal_strlit("scheduledWakeTime");
    reveal_strlit("nextSleepTime");
    reveal_strlit("todayDate");
    reveal_strlit("treats");
    reveal_strlit("morningGreeting");
    assert("stats"@[1] != "sleep"@[1]);
}

/// Reading the JSON document written for a mood gives the mood back, field
/// for field, the version included.
pub proof fn lemma_mood_round_trip(mood: PetMoodStateView)
    requires
        mood.stats.well_formed(),
    ensures
        mood_of(mood_tree(mood)) == Ok::<PetMoodStateView, LoadFault>(mood),
{
    lemma_mood_keys_differ();
    assert(stats_of(stats_tree(mood.stats)) == Ok::<MoodStatsView, LoadFault>(mood.stats));
    assert(timestamps_of(timestamps_tree(mood.timestamps)) == Ok::<MoodTimestamps, LoadFault>(
        mood.timestamps,
    ));
    assert(sleep_of(sleep_tree(mood.sleep)) == Ok::<SleepState, LoadFault>(mood.sleep));
    assert(counts_of(counts_tree(mood.interaction_counts)) == Ok::<
        InteractionCountsView,
        LoadFault,
    >(mood.interaction_counts));
}

} // verus!
