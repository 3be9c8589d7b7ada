//! The kinds of field that the profile knows, and the names of the values
//! of its enumerated kinds.

use vstd::prelude::*;
use vstd::string::StringSliceAdditionalSpecFns;

verus! {

/// What a field's value means. The kinds from `Uint8` to `Sint8` are plain
/// numbers that may carry a scale and an offset; `Coordinates`, the
/// timestamps and `String` have a rule each; the others are enumerations,
/// of which some have names for their values.
#[derive(Debug, Copy, Clone, PartialEq, Eq, Structural)]
pub enum FieldType {
    /// The profile does not name the field.
    Unknown,
    Activity,
    ActivityClass,
    ActivityLevel,
    ActivitySubtype,
    ActivityType,
    AntNetwork,
    AttitudeStage,
    AttitudeValidity,
    AutoActivityDetect,
    AutoSyncFrequency,
    BacklightMode,
    BacklightTimeout,
    BatteryStatus,
    BodyLocation,
    Bool,
    BpStatus,
    Byte,
    CameraEventType,
    CameraOrientationType,
    ClimbProEvent,
    ConnectivityCapabilities,
    Coordinates,
    CourseCapabilities,
    CoursePoint,
    DateMode,
    DateTime,
    DayOfWeek,
    DeviceIndex,
    DisplayHeart,
    DisplayMeasure,
    DisplayOrientation,
    DisplayPosition,
    DisplayPower,
    DiveAlarmType,
    DiveBacklightMode,
    DiveGasStatus,
    Event,
    EventType,
    ExdDataUnits,
    ExdDescriptors,
    ExdDisplayType,
    ExdLayout,
    ExdQualifiers,
    ExerciseCategory,
    File,
    FileFlags,
    FitBaseType,
    FitBaseUnit,
    Float32,
    Gender,
    Goal,
    GoalRecurrence,
    GoalSource,
    HrType,
    HrZoneCalc,
    Intensity,
    Language,
    LapTrigger,
    LeftRightBalance,
    LeftRightBalance100,
    LengthType,
    LocalDateTime,
    LocaltimeIntoDay,
    Manufacturer,
    MesgCount,
    MesgNum,
    MessageIndex,
    PwrZoneCalc,
    RadarThreatLevelType,
    Schedule,
    SegmentDeleteStatus,
    SegmentLapStatus,
    SegmentLeaderboardType,
    SegmentSelectionType,
    SensorType,
    SessionTrigger,
    SetType,
    Side,
    Sint16,
    Sint32,
    Sint8,
    SourceType,
    Sport,
    SportBits0,
    SportEvent,
    String,
    StrokeType,
    SubSport,
    SwimStroke,
    Switch,
    TapSensitivity,
    TimeMode,
    Timestamp,
    TissueModelType,
    Tone,
    Uint16,
    Uint16Z,
    Uint32,
    Uint32Z,
    Uint8,
    Uint8Z,
    UserLocalId,
    WatchfaceMode,
    WaterType,
    WeatherReport,
    WeatherSevereType,
    WeatherSeverity,
    WeatherStatus,
    Weight,
    WktStepDuration,
    WktStepTarget,
    WorkoutCapabilities,
    WorkoutEquipment,
}

/// Every value that has a name is below this bound.
pub const ENUM_KEY_LIMIT: usize = 300;

/// The names of the values of the kind `Activity`.
pub open spec fn names_activity(k: usize) -> Option<Seq<char>> {
    match k {
        0 => Some("manual"@),
        1 => Some("auto_multi_sport"@),
        _ => None,
    }
}

fn match_names_activity(k: usize) -> (r: Option<&'static str>)
    ensures
        same_name(r, names_activity(k)),
{
    match k {
        0 => Some("manual"),
        1 => Some("auto_multi_sport"),
        _ => None,
    }
}

/// The names of the values of the kind `ActivityType`.
pub open spec fn names_activity_type(k: usize) -> Option<Seq<char>> {
    match k {
        0 => Some("generic"@),
        1 => Some("running"@),
        2 => Some("cycling"@),
        3 => Some("transition"@),
        4 => Some("fitness_equipment"@),
        5 => Some("swimming"@),
        6 => Some("walking"@),
        8 => Some("sedentary"@),
        254 => Some("all"@),
        _ => None,
    }
}

fn match_names_activity_type(k: usize) -> (r: Option<&'static str>)
    ensures
        same_name(r, names_activity_type(k)),
{
    match k {
        0 => Some("generic"),
        1 => Some("running"),
        2 => Some("cycling"),
        3 => Some("transition"),
        4 => Some("fitness_equipment"),
        5 => Some("swimming"),
        6 => Some("walking"),
        8 => Some("sedentary"),
        254 => Some("all"),
        _ => None,
    }
}

/// The names of the values of the kind `BatteryStatus`.
pub open spec fn names_battery_status(k: usize) -> Option<Seq<char>> {
    match k {
        1 => Some("new"@),
        2 => Some("good"@),
        3 => Some("ok"@),
        4 => Some("low"@),
        5 => Some("critical"@),
        6 => Some("charging"@),
        7 => Some("unknown"@),
        _ => None,
    }
}

fn match_names_battery_status(k: usize) -> (r: Option<&'static str>)
    ensures
        same_name(r, names_battery_status(k)),
{
    match k {
        1 => Some("new"),
        2 => Some("good"),
        3 => Some("ok"),
        4 => Some("low"),
        5 => Some("critical"),
        6 => Some("charging"),
        7 => Some("unknown"),
        _ => None,
    }
}

/// The names of the values of the kind `Bool`.
pub open spec fn names_bool(k: usize) -> Option<Seq<char>> {
    match k {
        0 => Some("false"@),
        1 => Some("true"@),
        _ => None,
    }
}

fn match_names_bool(k: usize) -> (r: Option<&'static str>)
    ensures
        same_name(r, names_bool(k)),
{
    match k {
        0 => Some("false"),
        1 => Some("true"),
        _ => None,
    }
}

/// The names of the values of the kind `DateMode`.
pub open spec fn names_date_mode(k: usize) -> Option<Seq<char>> {
    match k {
        0 => Some("day_month"@),
        1 => Some("month_day"@),
        _ => None,
    }
}

fn match_names_date_mode(k: usize) -> (r: Option<&'static str>)
    ensures
        same_name(r, names_date_mode(k)),
{
    match k {
        0 => Some("day_month"),
        1 => Some("month_day"),
        _ => None,
    }
}

/// The names of the values of the kind `DayOfWeek`.
pub open spec fn names_day_of_week(k: usize) -> Option<Seq<char>> {
    match k {
        0 => Some("sunday"@),
        1 => Some("monday"@),
        2 => Some("tuesday"@),
        3 => Some("wednesday"@),
        4 => Some("thursday"@),
        5 => Some("friday"@),
        6 => Some("saturday"@),
        _ => None,
    }
}

fn match_names_day_of_week(k: usize) -> (r: Option<&'static str>)
    ensures
        same_name(r, names_day_of_week(k)),
{
    match k {
        0 => Some("sunday"),
        1 => Some("monday"),
        2 => Some("tuesday"),
        3 => Some("wednesday"),
        4 => Some("thursday"),
        5 => Some("friday"),
        6 => Some("saturday"),
        _ => None,
    }
}

/// The names of the values of the kind `DisplayHeart`.
pub open spec fn names_display_heart(k: usize) -> Option<Seq<char>> {
    match k {
        0 => Some("bpm"@),
        1 => Some("max"@),
        2 => Some("reserve"@),
        _ => None,
    }
}

fn match_names_display_heart(k: usize) -> (r: Option<&'static str>)
    ensures
        same_name(r, names_display_heart(k)),
{
    match k {
        0 => Some("bpm"),
        1 => Some("max"),
        2 => Some("reserve"),
        _ => None,
    }
}

/// The names of the values of the kind `DisplayMeasure`.
pub open spec fn names_display_measure(k: usize) -> Option<Seq<char>> {
    match k {
        0 => Some("metric"@),
        1 => Some("statute"@),
        2 => Some("nautical"@),
        _ => None,
    }
}

fn match_names_display_measure(k: usize) -> (r: Option<&'static str>)
    ensures
        same_name(r, names_display_measure(k)),
{
    match k {
        0 => Some("metric"),
        1 => Some("statute"),
        2 => Some("nautical"),
        _ => None,
    }
}

/// The names of the values of the kind `DisplayPower`.
pub open spec fn names_display_power(k: usize) -> Option<Seq<char>> {
    match k {
        0 => Some("watts"@),
        1 => Some("percent_ftp"@),
        _ => None,
    }
}

fn match_names_display_power(k: usize) -> (r: Option<&'static str>)
    ensures
        same_name(r, names_display_power(k)),
{
    match k {
        0 => Some("watts"),
        1 => Some("percent_ftp"),
        _ => None,
    }
}

/// The names of the values of the kind `Event`.
pub open spec fn names_event(k: usize) -> Option<Seq<char>> {
    match k {
        0 => Some("timer"@),
        3 => Some("workout"@),
        4 => Some("workout_step"@),
        5 => Some("power_down"@),
        6 => Some("power_up"@),
        7 => Some("off_course"@),
        8 => Some("session"@),
        9 => Some("lap"@),
        10 => Some("course_point"@),
        11 => Some("battery"@),
        12 => Some("virtual_partner_pace"@),
        13 => Some("hr_high_alert"@),
        14 => Some("hr_low_alert"@),
        15 => Some("speed_high_alert"@),
        16 => Some("speed_low_alert"@),
        17 => Some("cad_high_alert"@),
        18 => Some("cad_low_alert"@),
        19 => Some("power_high_alert"@),
        20 => Some("power_low_alert"@),
        21 => Some("recovery_hr"@),
        22 => Some("battery_low"@),
        23 => Some("time_duration_alert"@),
        24 => Some("distance_duration_alert"@),
        25 => Some("calorie_duration_alert"@),
        26 => Some("activity"@),
        27 => Some("fitness_equipment"@),
        28 => Some("length"@),
        32 => Some("user_marker"@),
        33 => Some("sport_point"@),
        36 => Some("calibration"@),
        42 => Some("front_gear_change"@),
        43 => Some("rear_gear_change"@),
        44 => Some("rider_position_change"@),
        45 => Some("elev_high_alert"@),
        46 => Some("elev_low_alert"@),
        47 => Some("comm_timeout"@),
        _ => None,
    }
}

fn match_names_event(k: usize) -> (r: Option<&'static str>)
    ensures
        same_name(r, names_event(k)),
{
    match k {
        0 => Some("timer"),
        3 => Some("workout"),
        4 => Some("workout_step"),
        5 => Some("power_down"),
        6 => Some("power_up"),
        7 => Some("off_course"),
        8 => Some("session"),
        9 => Some("lap"),
        10 => Some("course_point"),
        11 => Some("battery"),
        12 => Some("virtual_partner_pace"),
        13 => Some("hr_high_alert"),
        14 => Some("hr_low_alert"),
        15 => Some("speed_high_alert"),
        16 => Some("speed_low_alert"),
        17 => Some("cad_high_alert"),
        18 => Some("cad_low_alert"),
        19 => Some("power_high_alert"),
        20 => Some("power_low_alert"),
        21 => Some("recovery_hr"),
        22 => Some("battery_low"),
        23 => Some("time_duration_alert"),
        24 => Some("distance_duration_alert"),
        25 => Some("calorie_duration_alert"),
        26 => Some("activity"),
        27 => Some("fitness_equipment"),
        28 => Some("length"),
        32 => Some("user_marker"),
        33 => Some("sport_point"),
        36 => Some("calibration"),
        42 => Some("front_gear_change"),
        43 => Some("rear_gear_change"),
        44 => Some("rider_position_change"),
        45 => Some("elev_high_alert"),
        46 => Some("elev_low_alert"),
        47 => Some("comm_timeout"),
        _ => None,
    }
}

/// The names of the values of the kind `EventType`.
pub open spec fn names_event_type(k: usize) -> Option<Seq<char>> {
    match k {
        0 => Some("start"@),
        1 => Some("stop"@),
        2 => Some("consecutive_depreciated"@),
        3 => Some("marker"@),
        4 => Some("stop_all"@),
        5 => Some("begin_depreciated"@),
        6 => Some("end_depreciated"@),
        7 => Some("end_all_depreciated"@),
        8 => Some("stop_disable"@),
        9 => Some("stop_disable_all"@),
        _ => None,
    }
}

fn match_names_event_type(k: usize) -> (r: Option<&'static str>)
    ensures
        same_name(r, names_event_type(k)),
{
    match k {
        0 => Some("start"),
        1 => Some("stop"),
        2 => Some("consecutive_depreciated"),
        3 => Some("marker"),
        4 => Some("stop_all"),
        5 => Some("begin_depreciated"),
        6 => Some("end_depreciated"),
        7 => Some("end_all_depreciated"),
        8 => Some("stop_disable"),
        9 => Some("stop_disable_all"),
        _ => None,
    }
}

/// The names of the values of the kind `File`.
pub open spec fn names_file(k: usize) -> Option<Seq<char>> {
    match k {
        1 => Some("device"@),
        2 => Some("settings"@),
        3 => Some("sport"@),
        4 => Some("activity"@),
        5 => Some("workout"@),
        6 => Some("course"@),
        7 => Some("schedules"@),
        9 => Some("weight"@),
        10 => Some("totals"@),
        11 => Some("goals"@),
        14 => Some("blood_pressure"@),
        15 => Some("monitoring_a"@),
        20 => Some("activity_summary"@),
        28 => Some("monitoring_daily"@),
        32 => Some("monitoring_b"@),
        34 => Some("segment"@),
        35 => Some("segment_list"@),
        40 => Some("exd_configuration"@),
        _ => None,
    }
}

fn match_names_file(k: usize) -> (r: Option<&'static str>)
    ensures
        same_name(r, names_file(k)),
{
    match k {
        1 => Some("device"),
        2 => Some("settings"),
        3 => Some("sport"),
        4 => Some("activity"),
        5 => Some("workout"),
        6 => Some("course"),
        7 => Some("schedules"),
        9 => Some("weight"),
        10 => Some("totals"),
        11 => Some("goals"),
        14 => Some("blood_pressure"),
        15 => Some("monitoring_a"),
        20 => Some("activity_summary"),
        28 => Some("monitoring_daily"),
        32 => Some("monitoring_b"),
        34 => Some("segment"),
        35 => Some("segment_list"),
        40 => Some("exd_configuration"),
        _ => None,
    }
}

/// The names of the values of the kind `Gender`.
pub open spec fn names_gender(k: usize) -> Option<Seq<char>> {
    match k {
        0 => Some("female"@),
        1 => Some("male"@),
        _ => None,
    }
}

fn match_names_gender(k: usize) -> (r: Option<&'static str>)
    ensures
        same_name(r, names_gender(k)),
{
    match k {
        0 => Some("female"),
        1 => Some("male"),
        _ => None,
    }
}

/// The names of the values of the kind `HrZoneCalc`.
pub open spec fn names_hr_zone_calc(k: usize) -> Option<Seq<char>> {
    match k {
        0 => Some("custom"@),
        1 => Some("percent_max_hr"@),
        2 => Some("percent_hrr"@),
        _ => None,
    }
}

fn match_names_hr_zone_calc(k: usize) -> (r: Option<&'static str>)
    ensures
        same_name(r, names_hr_zone_calc(k)),
{
    match k {
        0 => Some("custom"),
        1 => Some("percent_max_hr"),
        2 => Some("percent_hrr"),
        _ => None,
    }
}

/// The names of the values of the kind `Intensity`.
pub open spec fn names_intensity(k: usize) -> Option<Seq<char>> {
    match k {
        0 => Some("active"@),
        1 => Some("rest"@),
        2 => Some("warmup"@),
        3 => Some("cooldown"@),
        _ => None,
    }
}

fn match_names_intensity(k: usize) -> (r: Option<&'static str>)
    ensures
        same_name(r, names_intensity(k)),
{
    match k {
        0 => Some("active"),
        1 => Some("rest"),
        2 => Some("warmup"),
        3 => Some("cooldown"),
        _ => None,
    }
}

/// The names of the values of the kind `LapTrigger`.
pub open spec fn names_lap_trigger(k: usize) -> Option<Seq<char>> {
    match k {
        0 => Some("manual"@),
        1 => Some("time"@),
        2 => Some("distance"@),
        3 => Some("position_start"@),
        4 => Some("position_lap"@),
        5 => Some("position_waypoint"@),
        6 => Some("position_marked"@),
        7 => Some("session_end"@),
        8 => Some("fitness_equipment"@),
        _ => None,
    }
}

fn match_names_lap_trigger(k: usize) -> (r: Option<&'static str>)
    ensures
        same_name(r, names_lap_trigger(k)),
{
    match k {
        0 => Some("manual"),
        1 => Some("time"),
        2 => Some("distance"),
        3 => Some("position_start"),
        4 => Some("position_lap"),
        5 => Some("position_waypoint"),
        6 => Some("position_marked"),
        7 => Some("session_end"),
        8 => Some("fitness_equipment"),
        _ => None,
    }
}

/// The names of the values of the kind `LengthType`.
pub open spec fn names_length_type(k: usize) -> Option<Seq<char>> {
    match k {
        0 => Some("idle"@),
        1 => Some("active"@),
        _ => None,
    }
}

fn match_names_length_type(k: usize) -> (r: Option<&'static str>)
    ensures
        same_name(r, names_length_type(k)),
{
    match k {
        0 => Some("idle"),
        1 => Some("active"),
        _ => None,
    }
}

/// The names of the values of the kind `Manufacturer`.
pub open spec fn names_manufacturer(k: usize) -> Option<Seq<char>> {
    match k {
        1 => Some("garmin"@),
        15 => Some("dynastream"@),
        23 => Some("suunto"@),
        32 => Some("wahoo_fitness"@),
        69 => Some("stages_cycling"@),
        70 => Some("sigmasport"@),
        71 => Some("tomtom"@),
        89 => Some("tacx"@),
        123 => Some("polar_electro"@),
        255 => Some("development"@),
        260 => Some("zwift"@),
        265 => Some("strava"@),
        268 => Some("sram"@),
        289 => Some("hammerhead"@),
        294 => Some("coros"@),
        _ => None,
    }
}

fn match_names_manufacturer(k: usize) -> (r: Option<&'static str>)
    ensures
        same_name(r, names_manufacturer(k)),
{
    match k {
        1 => Some("garmin"),
        15 => Some("dynastream"),
        23 => Some("suunto"),
        32 => Some("wahoo_fitness"),
        69 => Some("stages_cycling"),
        70 => Some("sigmasport"),
        71 => Some("tomtom"),
        89 => Some("tacx"),
        123 => Some("polar_electro"),
        255 => Some("development"),
        260 => Some("zwift"),
        265 => Some("strava"),
        268 => Some("sram"),
        289 => Some("hammerhead"),
        294 => Some("coros"),
        _ => None,
    }
}

/// The names of the values of the kind `PwrZoneCalc`.
pub open spec fn names_pwr_zone_calc(k: usize) -> Option<Seq<char>> {
    match k {
        0 => Some("custom"@),
        1 => Some("percent_ftp"@),
        _ => None,
    }
}

fn match_names_pwr_zone_calc(k: usize) -> (r: Option<&'static str>)
    ensures
        same_name(r, names_pwr_zone_calc(k)),
{
    match k {
        0 => Some("custom"),
        1 => Some("percent_ftp"),
        _ => None,
    }
}

/// The names of the values of the kind `SessionTrigger`.
pub open spec fn names_session_trigger(k: usize) -> Option<Seq<char>> {
    match k {
        0 => Some("activity_end"@),
        1 => Some("manual"@),
        2 => Some("auto_multi_sport"@),
        3 => Some("fitness_equipment"@),
        _ => None,
    }
}

fn match_names_session_trigger(k: usize) -> (r: Option<&'static str>)
    ensures
        same_name(r, names_session_trigger(k)),
{
    match k {
        0 => Some("activity_end"),
        1 => Some("manual"),
        2 => Some("auto_multi_sport"),
        3 => Some("fitness_equipment"),
        _ => None,
    }
}

/// The names of the values of the kind `Side`.
pub open spec fn names_side(k: usize) -> Option<Seq<char>> {
    match k {
        0 => Some("right"@),
        1 => Some("left"@),
        _ => None,
    }
}

fn match_names_side(k: usize) -> (r: Option<&'static str>)
    ensures
        same_name(r, names_side(k)),
{
    match k {
        0 => Some("right"),
        1 => Some("left"),
        _ => None,
    }
}

/// The names of the values of the kind `Sport`.
pub open spec fn names_sport(k: usize) -> Option<Seq<char>> {
    match k {
        0 => Some("generic"@),
        1 => Some("running"@),
        2 => Some("cycling"@),
        3 => Some("transition"@),
        4 => Some("fitness_equipment"@),
        5 => Some("swimming"@),
        6 => Some("basketball"@),
        7 => Some("soccer"@),
        8 => Some("tennis"@),
        9 => Some("american_football"@),
        10 => Some("training"@),
        11 => Some("walking"@),
        12 => Some("cross_country_skiing"@),
        13 => Some("alpine_skiing"@),
        14 => Some("snowboarding"@),
        15 => Some("rowing"@),
        16 => Some("mountaineering"@),
        17 => Some("hiking"@),
        18 => Some("multisport"@),
        19 => Some("paddling"@),
        20 => Some("flying"@),
        21 => Some("e_biking"@),
        22 => Some("motorcycling"@),
        23 => Some("boating"@),
        24 => Some("driving"@),
        25 => Some("golf"@),
        26 => Some("hang_gliding"@),
        27 => Some("horseback_riding"@),
        28 => Some("hunting"@),
        29 => Some("fishing"@),
        30 => Some("inline_skating"@),
        31 => Some("rock_climbing"@),
        32 => Some("sailing"@),
        33 => Some("ice_skating"@),
        34 => Some("sky_diving"@),
        35 => Some("snowshoeing"@),
        36 => Some("snowmobiling"@),
        37 => Some("stand_up_paddleboarding"@),
        38 => Some("surfing"@),
        39 => Some("wakeboarding"@),
        40 => Some("water_skiing"@),
        41 => Some("kayaking"@),
        42 => Some("rafting"@),
        43 => Some("windsurfing"@),
        44 => Some("kitesurfing"@),
        45 => Some("tactical"@),
        46 => Some("jumpmaster"@),
        47 => Some("boxing"@),
        48 => Some("floor_climbing"@),
        254 => Some("all"@),
        _ => None,
    }
}

fn match_names_sport(k: usize) -> (r: Option<&'static str>)
    ensures
        same_name(r, names_sport(k)),
{
    match k {
        0 => Some("generic"),
        1 => Some("running"),
        2 => Some("cycling"),
        3 => Some("transition"),
        4 => Some("fitness_equipment"),
        5 => Some("swimming"),
        6 => Some("basketball"),
        7 => Some("soccer"),
        8 => Some("tennis"),
        9 => Some("american_football"),
        10 => Some("training"),
        11 => Some("walking"),
        12 => Some("cross_country_skiing"),
        13 => Some("alpine_skiing"),
        14 => Some("snowboarding"),
        15 => Some("rowing"),
        16 => Some("mountaineering"),
        17 => Some("hiking"),
        18 => Some("multisport"),
        19 => Some("paddling"),
        20 => Some("flying"),
        21 => Some("e_biking"),
        22 => Some("motorcycling"),
        23 => Some("boating"),
        24 => Some("driving"),
        25 => Some("golf"),
        26 => Some("hang_gliding"),
        27 => Some("horseback_riding"),
        28 => Some("hunting"),
        29 => Some("fishing"),
        30 => Some("inline_skating"),
        31 => Some("rock_climbing"),
        32 => Some("sailing"),
        33 => Some("ice_skating"),
        34 => Some("sky_diving"),
        35 => Some("snowshoeing"),
        36 => Some("snowmobiling"),
        37 => Some("stand_up_paddleboarding"),
        38 => Some("surfing"),
        39 => Some("wakeboarding"),
        40 => Some("water_skiing"),
        41 => Some("kayaking"),
        42 => Some("rafting"),
        43 => Some("windsurfing"),
        44 => Some("kitesurfing"),
        45 => Some("tactical"),
        46 => Some("jumpmaster"),
        47 => Some("boxing"),
        48 => Some("floor_climbing"),
        254 => Some("all"),
        _ => None,
    }
}

/// The names of the values of the kind `SwimStroke`.
pub open spec fn names_swim_stroke(k: usize) -> Option<Seq<char>> {
    match k {
        0 => Some("freestyle"@),
        1 => Some("backstroke"@),
        2 => Some("breaststroke"@),
        3 => Some("butterfly"@),
        4 => Some("drill"@),
        5 => Some("mixed"@),
        6 => Some("im"@),
        _ => None,
    }
}

fn match_names_swim_stroke(k: usize) -> (r: Option<&'static str>)
    ensures
        same_name(r, names_swim_stroke(k)),
{
    match k {
        0 => Some("freestyle"),
        1 => Some("backstroke"),
        2 => Some("breaststroke"),
        3 => Some("butterfly"),
        4 => Some("drill"),
        5 => Some("mixed"),
        6 => Some("im"),
        _ => None,
    }
}

/// The names of the values of the kind `Switch`.
pub open spec fn names_switch(k: usize) -> Option<Seq<char>> {
    match k {
        0 => Some("off"@),
        1 => Some("on"@),
        2 => Some("auto"@),
        _ => None,
    }
}

fn match_names_switch(k: usize) -> (r: Option<&'static str>)
    ensures
        same_name(r, names_switch(k)),
{
    match k {
        0 => Some("off"),
        1 => Some("on"),
        2 => Some("auto"),
        _ => None,
    }
}

/// The names of the values of the kind `TimeMode`.
pub open spec fn names_time_mode(k: usize) -> Option<Seq<char>> {
    match k {
        0 => Some("hour12"@),
        1 => Some("hour24"@),
        2 => Some("military"@),
        3 => Some("hour_12_with_seconds"@),
        4 => Some("hour_24_with_seconds"@),
        5 => Some("utc"@),
        _ => None,
    }
}

fn match_names_time_mode(k: usize) -> (r: Option<&'static str>)
    ensures
        same_name(r, names_time_mode(k)),
{
    match k {
        0 => Some("hour12"),
        1 => Some("hour24"),
        2 => Some("military"),
        3 => Some("hour_12_with_seconds"),
        4 => Some("hour_24_with_seconds"),
        5 => Some("utc"),
        _ => None,
    }
}

/// An optional string slice holds the optional text.
pub open spec fn same_name(r: Option<&'static str>, t: Option<Seq<char>>) -> bool {
    match r {
        Some(s) => t == Some(s@),
        None => t is None,
    }
}

/// The name of value `k` of an enumerated kind, where it has one. No value
/// from `ENUM_KEY_LIMIT` on has a name.
pub open spec fn spec_field_string_value(f: FieldType, k: usize) -> Option<Seq<char>> {
    if k >= ENUM_KEY_LIMIT {
        None
    } else {
        match f {
            FieldType::Activity => names_activity(k),
            FieldType::ActivityType => names_activity_type(k),
            FieldType::BatteryStatus => names_battery_status(k),
            FieldType::Bool => names_bool(k),
            FieldType::DateMode => names_date_mode(k),
            FieldType::DayOfWeek => names_day_of_week(k),
            FieldType::DisplayHeart => names_display_heart(k),
            FieldType::DisplayMeasure => names_display_measure(k),
            FieldType::DisplayPower => names_display_power(k),
            FieldType::Event => names_event(k),
            FieldType::EventType => names_event_type(k),
            FieldType::File => names_file(k),
            FieldType::Gender => names_gender(k),
            FieldType::HrZoneCalc => names_hr_zone_calc(k),
            FieldType::Intensity => names_intensity(k),
            FieldType::LapTrigger => names_lap_trigger(k),
            FieldType::LengthType => names_length_type(k),
            FieldType::Manufacturer => names_manufacturer(k),
            FieldType::PwrZoneCalc => names_pwr_zone_calc(k),
            FieldType::SessionTrigger => names_session_trigger(k),
            FieldType::Side => names_side(k),
            FieldType::Sport => names_sport(k),
            FieldType::SwimStroke => names_swim_stroke(k),
            FieldType::Switch => names_switch(k),
            FieldType::TimeMode => names_time_mode(k),
            _ => None,
        }
    }
}

/// The name of value `k` of the kind `f`, where it has one.
pub fn get_field_string_value(f: FieldType, k: usize) -> (r: Option<&'static str>)
    ensures
        same_name(r, spec_field_string_value(f, k)),
{
    if k >= ENUM_KEY_LIMIT {
        None
    } else {
        match f {
            FieldType::Activity => match_names_activity(k),
            FieldType::ActivityType => match_names_activity_type(k),
            FieldType::BatteryStatus => match_names_battery_status(k),
            FieldType::Bool => match_names_bool(k),
            FieldType::DateMode => match_names_date_mode(k),
            FieldType::DayOfWeek => match_names_day_of_week(k),
            FieldType::DisplayHeart => match_names_display_heart(k),
            FieldType::DisplayMeasure => match_names_display_measure(k),
            FieldType::DisplayPower => match_names_display_power(k),
            FieldType::Event => match_names_event(k),
            FieldType::EventType => match_names_event_type(k),
            FieldType::File => match_names_file(k),
            FieldType::Gender => match_names_gender(k),
            FieldType::HrZoneCalc => match_names_hr_zone_calc(k),
            FieldType::Intensity => match_names_intensity(k),
            FieldType::LapTrigger => match_names_lap_trigger(k),
            FieldType::LengthType => match_names_length_type(k),
            FieldType::Manufacturer => match_names_manufacturer(k),
            FieldType::PwrZoneCalc => match_names_pwr_zone_calc(k),
            FieldType::SessionTrigger => match_names_session_trigger(k),
            FieldType::Side => match_names_side(k),
            FieldType::Sport => match_names_sport(k),
            FieldType::SwimStroke => match_names_swim_stroke(k),
            FieldType::Switch => match_names_switch(k),
            FieldType::TimeMode => match_names_time_mode(k),
            _ => None,
        }
    }
}

/// Whether two string slices hold the same text.
fn str_eq(a: &str, b: &str) -> (r: bool)
    ensures
        r == (a@ == b@),
{
    let x = a.as_bytes();
    let y = b.as_bytes();
    proof {
        assert(x@ == a.spec_bytes() && y@ == b.spec_bytes());
        // Text and its bytes determine each other.
        vstd::utf8::encode_utf8_decode_utf8(a@);
        vstd::utf8::encode_utf8_decode_utf8(b@);
    }
    if x.len() != y.len() {
        proof {
            if a@ == b@ {
                assert(x@.len() == y@.len());
            }
        }
        return false;
    }
    let mut i: usize = 0;
    while i < x.len()
        invariant
            i <= x.len(),
            x@.len() == y@.len(),
            x@ == a.spec_bytes(),
            y@ == b.spec_bytes(),
            x@.take(i as int) == y@.take(i as int),
        decreases x.len() - i,
    {
        if x[i] != y[i] {
            proof {
                if a@ == b@ {
                    assert(x@[i as int] == y@[i as int]);
                }
            }
            return false;
        }
        proof {
            assert(x@.take(i as int + 1) =~= x@.take(i as int).push(x@[i as int]));
            assert(y@.take(i as int + 1) =~= y@.take(i as int).push(y@[i as int]));
        }
        i += 1;
    }
    proof {
        assert(x@ =~= x@.take(i as int));
        assert(y@ =~= y@.take(i as int));
        assert(a.spec_bytes() == b.spec_bytes());
    }
    true
}

/// Whether `k` is the least value of the kind `f` that has the name `s`.
pub open spec fn is_field_key(f: FieldType, s: Seq<char>, k: usize) -> bool {
    &&& spec_field_string_value(f, k) == Some(s)
    &&& forall|j: usize| j < k ==> spec_field_string_value(f, j) != Some(s)
}

/// The least value of the kind `f` that has the name `s`, if any has.
pub open spec fn spec_field_key_from_string(f: FieldType, s: Seq<char>) -> Option<usize> {
    if exists|k: usize| is_field_key(f, s, k) {
        Some(choose|k: usize| is_field_key(f, s, k))
    } else {
        None
    }
}

/// The least value of the kind `f` whose name is `s`, if any has that name.
pub fn get_field_key_from_string(f: FieldType, s: &str) -> (r: Option<usize>)
    ensures
        r == spec_field_key_from_string(f, s@),
        r is Some ==> is_field_key(f, s@, r->0),
        r is None ==> forall|j: usize| spec_field_string_value(f, j) != Some(s@),
{
    let mut k: usize = 0;
    while k < ENUM_KEY_LIMIT
        invariant
            k <= ENUM_KEY_LIMIT,
            forall|j: usize| j < k ==> spec_field_string_value(f, j) != Some(s@),
        decreases ENUM_KEY_LIMIT - k,
    {
        match get_field_string_value(f, k) {
            Some(t) => {
                if str_eq(t, s) {
                    proof {
                        assert(is_field_key(f, s@, k));
                        lemma_field_key_unique(f, s@, k);
                    }
                    return Some(k);
                }
            },
            None => {},
        }
        k += 1;
    }
    proof {
        assert forall|j: usize| !is_field_key(f, s@, j) by {
            if j < ENUM_KEY_LIMIT {
                assert(spec_field_string_value(f, j) != Some(s@));
            }
        }
    }
    None
}

/// A name has at most one least value.
pub proof fn lemma_field_key_unique(f: FieldType, s: Seq<char>, k: usize)
    requires
        is_field_key(f, s, k),
    ensures
        spec_field_key_from_string(f, s) == Some(k),
{
    let c = choose|c: usize| is_field_key(f, s, c);
    if c < k {
        assert(spec_field_string_value(f, c) != Some(s));
    } else if k < c {
        assert(spec_field_string_value(f, k) != Some(s));
    }
}

/// No two values of the kind have the same name.
proof fn lemma_names_distinct_activity()
    ensures
        forall|j: usize, k: usize|
            names_activity(j) is Some && names_activity(j) == names_activity(k)
                ==> j == k,
{
    reveal_strlit("manual");
    reveal_strlit("auto_multi_sport");
    assert forall|j: usize, k: usize|
        names_activity(j) is Some && names_activity(j) == names_activity(k) implies
        j == k by {
        let a = names_activity(j)->0;
        let b = names_activity(k)->0;
        assert(a.len() == b.len());
    }
}

/// No two values of the kind have the same name.
proof fn lemma_names_distinct_activity_type()
    ensures
        forall|j: usize, k: usize|
            names_activity_type(j) is Some && names_activity_type(j) == names_activity_type(k)
                ==> j == k,
{
    reveal_strlit("generic");
    reveal_strlit("running");
    reveal_strlit("cycling");
    reveal_strlit("transition");
    reveal_strlit("fitness_equipment");
    reveal_strlit("swimming");
    reveal_strlit("walking");
    reveal_strlit("sedentary");
    reveal_strlit("all");
    assert forall|j: usize, k: usize|
        names_activity_type(j) is Some && names_activity_type(j) == names_activity_type(k) implies
        j == k by {
        let a = names_activity_type(j)->0;
        let b = names_activity_type(k)->0;
        assert(a.len() == b.len());
        if a.len() > 0 {
            assert(a[0] == b[0]);
        }
    }
}

/// No two values of the kind have the same name.
proof fn lemma_names_distinct_battery_status()
    ensures
        forall|j: usize, k: usize|
            names_battery_status(j) is Some && names_battery_status(j) == names_battery_status(k)
                ==> j == k,
{
    reveal_strlit("new");
    reveal_strlit("good");
    reveal_strlit("ok");
    reveal_strlit("low");
    reveal_strlit("critical");
    reveal_strlit("charging");
    reveal_strlit("unknown");
    assert forall|j: usize, k: usize|
        names_battery_status(j) is Some && names_battery_status(j) == names_battery_status(k) implies
        j == k by {
        let a = names_battery_status(j)->0;
        let b = names_battery_status(k)->0;
        assert(a.len() == b.len());
        if a.len() > 0 {
            assert(a[0] == b[0]);
        }
        if a.len() > 1 {
            assert(a[1] == b[1]);
        }
    }
}

/// No two values of the kind have the same name.
proof fn lemma_names_distinct_bool()
    ensures
        forall|j: usize, k: usize|
            names_bool(j) is Some && names_bool(j) == names_bool(k)
                ==> j == k,
{
    reveal_strlit("false");
    reveal_strlit("true");
    assert forall|j: usize, k: usize|
        names_bool(j) is Some && names_bool(j) == names_bool(k) implies
        j == k by {
        let a = names_bool(j)->0;
        let b = names_bool(k)->0;
        assert(a.len() == b.len());
    }
}

/// No two values of the kind have the same name.
proof fn lemma_names_distinct_date_mode()
    ensures
        forall|j: usize, k: usize|
            names_date_mode(j) is Some && names_date_mode(j) == names_date_mode(k)
                ==> j == k,
{
    reveal_strlit("day_month");
    reveal_strlit("month_day");
    assert forall|j: usize, k: usize|
        names_date_mode(j) is Some && names_date_mode(j) == names_date_mode(k) implies
        j == k by {
        let a = names_date_mode(j)->0;
        let b = names_date_mode(k)->0;
        assert(a.len() == b.len());
        if a.len() > 0 {
            assert(a[0] == b[0]);
        }
    }
}

/// No two values of the kind have the same name.
proof fn lemma_names_distinct_day_of_week()
    ensures
        forall|j: usize, k: usize|
            names_day_of_week(j) is Some && names_day_of_week(j) == names_day_of_week(k)
                ==> j == k,
{
    reveal_strlit("sunday");
    reveal_strlit("monday");
    reveal_strlit("tuesday");
    reveal_strlit("wednesday");
    reveal_strlit("thursday");
    reveal_strlit("friday");
    reveal_strlit("saturday");
    assert forall|j: usize, k: usize|
        names_day_of_week(j) is Some && names_day_of_week(j) == names_day_of_week(k) implies
        j == k by {
        let a = names_day_of_week(j)->0;
        let b = names_day_of_week(k)->0;
        assert(a.len() == b.len());
        if a.len() > 0 {
            assert(a[0] == b[0]);
        }
    }
}

/// No two values of the kind have the same name.
proof fn lemma_names_distinct_display_heart()
    ensures
        forall|j: usize, k: usize|
            names_display_heart(j) is Some && names_display_heart(j) == names_display_heart(k)
                ==> j == k,
{
    reveal_strlit("bpm");
    reveal_strlit("max");
    reveal_strlit("reserve");
    assert forall|j: usize, k: usize|
        names_display_heart(j) is Some && names_display_heart(j) == names_display_heart(k) implies
        j == k by {
        let a = names_display_heart(j)->0;
        let b = names_display_heart(k)->0;
        assert(a.len() == b.len());
        if a.len() > 0 {
            assert(a[0] == b[0]);
        }
    }
}

/// No two values of the kind have the same name.
proof fn lemma_names_distinct_display_measure()
    ensures
        forall|j: usize, k: usize|
            names_display_measure(j) is Some && names_display_measure(j) == names_display_measure(k)
                ==> j == k,
{
    reveal_strlit("metric");
    reveal_strlit("statute");
    reveal_strlit("nautical");
    assert forall|j: usize, k: usize|
        names_display_measure(j) is Some && names_display_measure(j) == names_display_measure(k) implies
        j == k by {
        let a = names_display_measure(j)->0;
        let b = names_display_measure(k)->0;
        assert(a.len() == b.len());
    }
}

/// No two values of the kind have the same name.
proof fn lemma_names_distinct_display_power()
    ensures
        forall|j: usize, k: usize|
            names_display_power(j) is Some && names_display_power(j) == names_display_power(k)
                ==> j == k,
{
    reveal_strlit("watts");
    reveal_strlit("percent_ftp");
    assert forall|j: usize, k: usize|
        names_display_power(j) is Some && names_display_power(j) == names_display_power(k) implies
        j == k by {
        let a = names_display_power(j)->0;
        let b = names_display_power(k)->0;
        assert(a.len() == b.len());
    }
}

/// No two values of the kind have the same name.
proof fn lemma_names_distinct_event()
    ensures
        forall|j: usize, k: usize|
            names_event(j) is Some && names_event(j) == names_event(k)
                ==> j == k,
{
    reveal_strlit("timer");
    reveal_strlit("workout");
    reveal_strlit("workout_step");
    reveal_strlit("power_down");
    reveal_strlit("power_up");
    reveal_strlit("off_course");
    reveal_strlit("session");
    reveal_strlit("lap");
    reveal_strlit("course_point");
    reveal_strlit("battery");
    reveal_strlit("virtual_partner_pace");
    reveal_strlit("hr_high_alert");
    reveal_strlit("hr_low_alert");
    reveal_strlit("speed_high_alert");
    reveal_strlit("speed_low_alert");
    reveal_strlit("cad_high_alert");
    reveal_strlit("cad_low_alert");
    reveal_strlit("power_high_alert");
    reveal_strlit("power_low_alert");
    reveal_strlit("recovery_hr");
    reveal_strlit("battery_low");
    reveal_strlit("time_duration_alert");
    reveal_strlit("distance_duration_alert");
    reveal_strlit("calorie_duration_alert");
    reveal_strlit("activity");
    reveal_strlit("fitness_equipment");
    reveal_strlit("length");
    reveal_strlit("user_marker");
    reveal_strlit("sport_point");
    reveal_strlit("calibration");
    reveal_strlit("front_gear_change");
    reveal_strlit("rear_gear_change");
    reveal_strlit("rider_position_change");
    reveal_strlit("elev_high_alert");
    reveal_strlit("elev_low_alert");
    reveal_strlit("comm_timeout");
    assert forall|j: usize, k: usize|
        names_event(j) is Some && names_event(j) == names_event(k) implies
        j == k by {
        let a = names_event(j)->0;
        let b = names_event(k)->0;
        assert(a.len() == b.len());
        if a.len() > 0 {
            assert(a[0] == b[0]);
        }
        if a.len() > 1 {
            assert(a[1] == b[1]);
        }
        if a.len() > 2 {
            assert(a[2] == b[2]);
        }
    }
}

/// No two values of the kind have the same name.
proof fn lemma_names_distinct_event_type()
    ensures
        forall|j: usize, k: usize|
            names_event_type(j) is Some && names_event_type(j) == names_event_type(k)
                ==> j == k,
{
    reveal_strlit("start");
    reveal_strlit("stop");
    reveal_strlit("consecutive_depreciated");
    reveal_strlit("marker");
    reveal_strlit("stop_all");
    reveal_strlit("begin_depreciated");
    reveal_strlit("end_depreciated");
    reveal_strlit("end_all_depreciated");
    reveal_strlit("stop_disable");
    reveal_strlit("stop_disable_all");
    assert forall|j: usize, k: usize|
        names_event_type(j) is Some && names_event_type(j) == names_event_type(k) implies
        j == k by {
        let a = names_event_type(j)->0;
        let b = names_event_type(k)->0;
        assert(a.len() == b.len());
    }
}

/// No two values of the kind have the same name.
proof fn lemma_names_distinct_file()
    ensures
        forall|j: usize, k: usize|
            names_file(j) is Some && names_file(j) == names_file(k)
                ==> j == k,
{
    reveal_strlit("device");
    reveal_strlit("settings");
    reveal_strlit("sport");
    reveal_strlit("activity");
    reveal_strlit("workout");
    reveal_strlit("course");
    reveal_strlit("schedules");
    reveal_strlit("weight");
    reveal_strlit("totals");
    reveal_strlit("goals");
    reveal_strlit("blood_pressure");
    reveal_strlit("monitoring_a");
    reveal_strlit("activity_summary");
    reveal_strlit("monitoring_daily");
    reveal_strlit("monitoring_b");
    reveal_strlit("segment");
    reveal_strlit("segment_list");
    reveal_strlit("exd_configuration");
    assert forall|j: usize, k: usize|
        names_file(j) is Some && names_file(j) == names_file(k) implies
        j == k by {
        let a = names_file(j)->0;
        let b = names_file(k)->0;
        assert(a.len() == b.len());
        if a.len() > 0 {
            assert(a[0] == b[0]);
        }
        if a.len() > 1 {
            assert(a[1] == b[1]);
        }
        if a.len() > 2 {
            assert(a[2] == b[2]);
        }
        if a.len() > 3 {
            assert(a[3] == b[3]);
        }
        if a.len() > 4 {
            assert(a[4] == b[4]);
        }
        if a.len() > 5 {
            assert(a[5] == b[5]);
        }
        if a.len() > 6 {
            assert(a[6] == b[6]);
        }
        if a.len() > 7 {
            assert(a[7] == b[7]);
        }
        if a.len() > 8 {
            assert(a[8] == b[8]);
        }
        if a.len() > 9 {
            assert(a[9] == b[9]);
        }
        if a.len() > 10 {
            assert(a[10] == b[10]);
        }
        if a.len() > 11 {
            assert(a[11] == b[11]);
        }
    }
}

/// No two values of the kind have the same name.
proof fn lemma_names_distinct_gender()
    ensures
        forall|j: usize, k: usize|
            names_gender(j) is Some && names_gender(j) == names_gender(k)
                ==> j == k,
{
    reveal_strlit("female");
    reveal_strlit("male");
    assert forall|j: usize, k: usize|
        names_gender(j) is Some && names_gender(j) == names_gender(k) implies
        j == k by {
        let a = names_gender(j)->0;
        let b = names_gender(k)->0;
        assert(a.len() == b.len());
    }
}

/// No two values of the kind have the same name.
proof fn lemma_names_distinct_hr_zone_calc()
    ensures
        forall|j: usize, k: usize|
            names_hr_zone_calc(j) is Some && names_hr_zone_calc(j) == names_hr_zone_calc(k)
                ==> j == k,
{
    reveal_strlit("custom");
    reveal_strlit("percent_max_hr");
    reveal_strlit("percent_hrr");
    assert forall|j: usize, k: usize|
        names_hr_zone_calc(j) is Some && names_hr_zone_calc(j) == names_hr_zone_calc(k) implies
        j == k by {
        let a = names_hr_zone_calc(j)->0;
        let b = names_hr_zone_calc(k)->0;
        assert(a.len() == b.len());
    }
}

/// No two values of the kind have the same name.
proof fn lemma_names_distinct_intensity()
    ensures
        forall|j: usize, k: usize|
            names_intensity(j) is Some && names_intensity(j) == names_intensity(k)
                ==> j == k,
{
    reveal_strlit("active");
    reveal_strlit("rest");
    reveal_strlit("warmup");
    reveal_strlit("cooldown");
    assert forall|j: usize, k: usize|
        names_intensity(j) is Some && names_intensity(j) == names_intensity(k) implies
        j == k by {
        let a = names_intensity(j)->0;
        let b = names_intensity(k)->0;
        assert(a.len() == b.len());
        if a.len() > 0 {
            assert(a[0] == b[0]);
        }
    }
}

/// No two values of the kind have the same name.
proof fn lemma_names_distinct_lap_trigger()
    ensures
        forall|j: usize, k: usize|
            names_lap_trigger(j) is Some && names_lap_trigger(j) == names_lap_trigger(k)
                ==> j == k,
{
    reveal_strlit("manual");
    reveal_strlit("time");
    reveal_strlit("distance");
    reveal_strlit("position_start");
    reveal_strlit("position_lap");
    reveal_strlit("position_waypoint");
    reveal_strlit("position_marked");
    reveal_strlit("session_end");
    reveal_strlit("fitness_equipment");
    assert forall|j: usize, k: usize|
        names_lap_trigger(j) is Some && names_lap_trigger(j) == names_lap_trigger(k) implies
        j == k by {
        let a = names_lap_trigger(j)->0;
        let b = names_lap_trigger(k)->0;
        assert(a.len() == b.len());
        if a.len() > 0 {
            assert(a[0] == b[0]);
        }
    }
}

/// No two values of the kind have the same name.
proof fn lemma_names_distinct_length_type()
    ensures
        forall|j: usize, k: usize|
            names_length_type(j) is Some && names_length_type(j) == names_length_type(k)
                ==> j == k,
{
    reveal_strlit("idle");
    reveal_strlit("active");
    assert forall|j: usize, k: usize|
        names_length_type(j) is Some && names_length_type(j) == names_length_type(k) implies
        j == k by {
        let a = names_length_type(j)->0;
        let b = names_length_type(k)->0;
        assert(a.len() == b.len());
    }
}

/// No two values of the kind have the same name.
proof fn lemma_names_distinct_manufacturer()
    ensures
        forall|j: usize, k: usize|
            names_manufacturer(j) is Some && names_manufacturer(j) == names_manufacturer(k)
                ==> j == k,
{
    reveal_strlit("garmin");
    reveal_strlit("dynastream");
    reveal_strlit("suunto");
    reveal_strlit("wahoo_fitness");
    reveal_strlit("stages_cycling");
    reveal_strlit("sigmasport");
    reveal_strlit("tomtom");
    reveal_strlit("tacx");
    reveal_strlit("polar_electro");
    reveal_strlit("development");
    reveal_strlit("zwift");
    reveal_strlit("strava");
    reveal_strlit("sram");
    reveal_strlit("hammerhead");
    reveal_strlit("coros");
    assert forall|j: usize, k: usize|
        names_manufacturer(j) is Some && names_manufacturer(j) == names_manufacturer(k) implies
        j == k by {
        let a = names_manufacturer(j)->0;
        let b = names_manufacturer(k)->0;
        assert(a.len() == b.len());
        if a.len() > 0 {
            assert(a[0] == b[0]);
        }
        if a.len() > 1 {
            assert(a[1] == b[1]);
        }
    }
}

/// No two values of the kind have the same name.
proof fn lemma_names_distinct_pwr_zone_calc()
    ensures
        forall|j: usize, k: usize|
            names_pwr_zone_calc(j) is Some && names_pwr_zone_calc(j) == names_pwr_zone_calc(k)
                ==> j == k,
{
    reveal_strlit("custom");
    reveal_strlit("percent_ftp");
    assert forall|j: usize, k: usize|
        names_pwr_zone_calc(j) is Some && names_pwr_zone_calc(j) == names_pwr_zone_calc(k) implies
        j == k by {
        let a = names_pwr_zone_calc(j)->0;
        let b = names_pwr_zone_calc(k)->0;
        assert(a.len() == b.len());
    }
}

/// No two values of the kind have the same name.
proof fn lemma_names_distinct_session_trigger()
    ensures
        forall|j: usize, k: usize|
            names_session_trigger(j) is Some && names_session_trigger(j) == names_session_trigger(k)
                ==> j == k,
{
    reveal_strlit("activity_end");
    reveal_strlit("manual");
    reveal_strlit("auto_multi_sport");
    reveal_strlit("fitness_equipment");
    assert forall|j: usize, k: usize|
        names_session_trigger(j) is Some && names_session_trigger(j) == names_session_trigger(k) implies
        j == k by {
        let a = names_session_trigger(j)->0;
        let b = names_session_trigger(k)->0;
        assert(a.len() == b.len());
    }
}

/// No two values of the kind have the same name.
proof fn lemma_names_distinct_side()
    ensures
        forall|j: usize, k: usize|
            names_side(j) is Some && names_side(j) == names_side(k)
                ==> j == k,
{
    reveal_strlit("right");
    reveal_strlit("left");
    assert forall|j: usize, k: usize|
        names_side(j) is Some && names_side(j) == names_side(k) implies
        j == k by {
        let a = names_side(j)->0;
        let b = names_side(k)->0;
        assert(a.len() == b.len());
    }
}

/// No two values of the kind have the same name.
proof fn lemma_names_distinct_sport()
    ensures
        forall|j: usize, k: usize|
            names_sport(j) is Some && names_sport(j) == names_sport(k)
                ==> j == k,
{
    reveal_strlit("generic");
    reveal_strlit("running");
    reveal_strlit("cycling");
    reveal_strlit("transition");
    reveal_strlit("fitness_equipment");
    reveal_strlit("swimming");
    reveal_strlit("basketball");
    reveal_strlit("soccer");
    reveal_strlit("tennis");
    reveal_strlit("american_football");
    reveal_strlit("training");
    reveal_strlit("walking");
    reveal_strlit("cross_country_skiing");
    reveal_strlit("alpine_skiing");
    reveal_strlit("snowboarding");
    reveal_strlit("rowing");
    reveal_strlit("mountaineering");
    reveal_strlit("hiking");
    reveal_strlit("multisport");
    reveal_strlit("paddling");
    reveal_strlit("flying");
    reveal_strlit("e_biking");
    reveal_strlit("motorcycling");
    reveal_strlit("boating");
    reveal_strlit("driving");
    reveal_strlit("golf");
    reveal_strlit("hang_gliding");
    reveal_strlit("horseback_riding");
    reveal_strlit("hunting");
    reveal_strlit("fishing");
    reveal_strlit("inline_skating");
    reveal_strlit("rock_climbing");
    reveal_strlit("sailing");
    reveal_strlit("ice_skating");
    reveal_strlit("sky_diving");
    reveal_strlit("snowshoeing");
    reveal_strlit("snowmobiling");
    reveal_strlit("stand_up_paddleboarding");
    reveal_strlit("surfing");
    reveal_strlit("wakeboarding");
    reveal_strlit("water_skiing");
    reveal_strlit("kayaking");
    reveal_strlit("rafting");
    reveal_strlit("windsurfing");
    reveal_strlit("kitesurfing");
    reveal_strlit("tactical");
    reveal_strlit("jumpmaster");
    reveal_strlit("boxing");
    reveal_strlit("floor_climbing");
    reveal_strlit("all");
    assert forall|j: usize, k: usize|
        names_sport(j) is Some && names_sport(j) == names_sport(k) implies
        j == k by {
        let a = names_sport(j)->0;
        let b = names_sport(k)->0;
        assert(a.len() == b.len());
        if a.len() > 0 {
            assert(a[0] == b[0]);
        }
        if a.len() > 1 {
            assert(a[1] == b[1]);
        }
        if a.len() > 2 {
            assert(a[2] == b[2]);
        }
        if a.len() > 3 {
            assert(a[3] == b[3]);
        }
        if a.len() > 4 {
            assert(a[4] == b[4]);
        }
    }
}

/// No two values of the kind have the same name.
proof fn lemma_names_distinct_swim_stroke()
    ensures
        forall|j: usize, k: usize|
            names_swim_stroke(j) is Some && names_swim_stroke(j) == names_swim_stroke(k)
                ==> j == k,
{
    reveal_strlit("freestyle");
    reveal_strlit("backstroke");
    reveal_strlit("breaststroke");
    reveal_strlit("butterfly");
    reveal_strlit("drill");
    reveal_strlit("mixed");
    reveal_strlit("im");
    assert forall|j: usize, k: usize|
        names_swim_stroke(j) is Some && names_swim_stroke(j) == names_swim_stroke(k) implies
        j == k by {
        let a = names_swim_stroke(j)->0;
        let b = names_swim_stroke(k)->0;
        assert(a.len() == b.len());
        if a.len() > 0 {
            assert(a[0] == b[0]);
        }
    }
}

/// No two values of the kind have the same name.
proof fn lemma_names_distinct_switch()
    ensures
        forall|j: usize, k: usize|
            names_switch(j) is Some && names_switch(j) == names_switch(k)
                ==> j == k,
{
    reveal_strlit("off");
    reveal_strlit("on");
    reveal_strlit("auto");
    assert forall|j: usize, k: usize|
        names_switch(j) is Some && names_switch(j) == names_switch(k) implies
        j == k by {
        let a = names_switch(j)->0;
        let b = names_switch(k)->0;
        assert(a.len() == b.len());
    }
}

/// No two values of the kind have the same name.
proof fn lemma_names_distinct_time_mode()
    ensures
        forall|j: usize, k: usize|
            names_time_mode(j) is Some && names_time_mode(j) == names_time_mode(k)
                ==> j == k,
{
    reveal_strlit("hour12");
    reveal_strlit("hour24");
    reveal_strlit("military");
    reveal_strlit("hour_12_with_seconds");
    reveal_strlit("hour_24_with_seconds");
    reveal_strlit("utc");
    assert forall|j: usize, k: usize|
        names_time_mode(j) is Some && names_time_mode(j) == names_time_mode(k) implies
        j == k by {
        let a = names_time_mode(j)->0;
        let b = names_time_mode(k)->0;
        assert(a.len() == b.len());
        if a.len() > 0 {
            assert(a[0] == b[0]);
        }
        if a.len() > 1 {
            assert(a[1] == b[1]);
        }
        if a.len() > 2 {
            assert(a[2] == b[2]);
        }
        if a.len() > 3 {
            assert(a[3] == b[3]);
        }
        if a.len() > 4 {
            assert(a[4] == b[4]);
        }
        if a.len() > 5 {
            assert(a[5] == b[5]);
        }
    }
}

/// No two values of a kind have the same name: a name goes back to the
/// value that it is the name of.
pub proof fn lemma_names_distinct(f: FieldType)
    ensures
        forall|j: usize, k: usize|
            spec_field_string_value(f, j) is Some && spec_field_string_value(f, j)
                == spec_field_string_value(f, k) ==> j == k,
{
    match f {
        FieldType::Activity => {
            lemma_names_distinct_activity();
        },
        FieldType::ActivityType => {
            lemma_names_distinct_activity_type();
        },
        FieldType::BatteryStatus => {
            lemma_names_distinct_battery_status();
        },
        FieldType::Bool => {
            lemma_names_distinct_bool();
        },
        FieldType::DateMode => {
            lemma_names_distinct_date_mode();
        },
        FieldType::DayOfWeek => {
            lemma_names_distinct_day_of_week();
        },
        FieldType::DisplayHeart => {
            lemma_names_distinct_display_heart();
        },
        FieldType::DisplayMeasure => {
            lemma_names_distinct_display_measure();
        },
        FieldType::DisplayPower => {
            lemma_names_distinct_display_power();
        },
        FieldType::Event => {
            lemma_names_distinct_event();
        },
        FieldType::EventType => {
            lemma_names_distinct_event_type();
        },
        FieldType::File => {
            lemma_names_distinct_file();
        },
        FieldType::Gender => {
            lemma_names_distinct_gender();
        },
        FieldType::HrZoneCalc => {
            lemma_names_distinct_hr_zone_calc();
        },
        FieldType::Intensity => {
            lemma_names_distinct_intensity();
        },
        FieldType::LapTrigger => {
            lemma_names_distinct_lap_trigger();
        },
        FieldType::LengthType => {
            lemma_names_distinct_length_type();
        },
        FieldType::Manufacturer => {
            lemma_names_distinct_manufacturer();
        },
        FieldType::PwrZoneCalc => {
            lemma_names_distinct_pwr_zone_calc();
        },
        FieldType::SessionTrigger => {
            lemma_names_distinct_session_trigger();
        },
        FieldType::Side => {
            lemma_names_distinct_side();
        },
        FieldType::Sport => {
            lemma_names_distinct_sport();
        },
        FieldType::SwimStroke => {
            lemma_names_distinct_swim_stroke();
        },
        FieldType::Switch => {
            lemma_names_distinct_switch();
        },
        FieldType::TimeMode => {
            lemma_names_distinct_time_mode();
        },
        _ => {},
    }
}

/// The key that a name goes back to is the value that it is the name of.
pub proof fn lemma_key_of_name(f: FieldType, k: usize)
    requires
        spec_field_string_value(f, k) is Some,
    ensures
        spec_field_key_from_string(f, spec_field_string_value(f, k)->0) == Some(k),
        k < ENUM_KEY_LIMIT,
{
    lemma_names_distinct(f);
    let s = spec_field_string_value(f, k)->0;
    assert(is_field_key(f, s, k));
    lemma_field_key_unique(f, s, k);
}

} // verus!
