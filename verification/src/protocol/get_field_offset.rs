//! The offsets of the profile: what is subtracted from a field's scaled raw
//! value to give its physical value.

use crate::protocol::message_type::MessageType;
use vstd::prelude::*;

verus! {

fn match_offset_accelerometer_data(_k: usize) -> (r: Option<i16>)
    ensures
        r == None::<i16>,
{
    None
}

fn match_offset_activity(_k: usize) -> (r: Option<i16>)
    ensures
        r == None::<i16>,
{
    None
}

fn match_offset_ant_channel_id(_k: usize) -> (r: Option<i16>)
    ensures
        r == None::<i16>,
{
    None
}

fn match_offset_ant_rx(_k: usize) -> (r: Option<i16>)
    ensures
        r == None::<i16>,
{
    None
}

fn match_offset_ant_tx(_k: usize) -> (r: Option<i16>)
    ensures
        r == None::<i16>,
{
    None
}

fn match_offset_aviation_attitude(_k: usize) -> (r: Option<i16>)
    ensures
        r == None::<i16>,
{
    None
}

fn match_offset_barometer_data(_k: usize) -> (r: Option<i16>)
    ensures
        r == None::<i16>,
{
    None
}

/// The offsets of the fields of `bike_profile` messages.
pub open spec fn offset_bike_profile(k: usize) -> Option<i16> {
    match k {
        19 => Some(-110i16),
        _ => None,
    }
}

fn match_offset_bike_profile(k: usize) -> (r: Option<i16>)
    ensures
        r == offset_bike_profile(k),
{
    match k {
        19 => Some(-110i16),
        _ => None,
    }
}

fn match_offset_blood_pressure(_k: usize) -> (r: Option<i16>)
    ensures
        r == None::<i16>,
{
    None
}

fn match_offset_cadence_zone(_k: usize) -> (r: Option<i16>)
    ensures
        r == None::<i16>,
{
    None
}

fn match_offset_camera_event(_k: usize) -> (r: Option<i16>)
    ensures
        r == None::<i16>,
{
    None
}

fn match_offset_capabilities(_k: usize) -> (r: Option<i16>)
    ensures
        r == None::<i16>,
{
    None
}

fn match_offset_climb_pro(_k: usize) -> (r: Option<i16>)
    ensures
        r == None::<i16>,
{
    None
}

fn match_offset_connectivity(_k: usize) -> (r: Option<i16>)
    ensures
        r == None::<i16>,
{
    None
}

fn match_offset_course(_k: usize) -> (r: Option<i16>)
    ensures
        r == None::<i16>,
{
    None
}

fn match_offset_course_point(_k: usize) -> (r: Option<i16>)
    ensures
        r == None::<i16>,
{
    None
}

fn match_offset_developer_data_id(_k: usize) -> (r: Option<i16>)
    ensures
        r == None::<i16>,
{
    None
}

fn match_offset_device_aux_battery_info(_k: usize) -> (r: Option<i16>)
    ensures
        r == None::<i16>,
{
    None
}

fn match_offset_device_info(_k: usize) -> (r: Option<i16>)
    ensures
        r == None::<i16>,
{
    None
}

fn match_offset_device_settings(_k: usize) -> (r: Option<i16>)
    ensures
        r == None::<i16>,
{
    None
}

fn match_offset_dive_alarm(_k: usize) -> (r: Option<i16>)
    ensures
        r == None::<i16>,
{
    None
}

fn match_offset_dive_gas(_k: usize) -> (r: Option<i16>)
    ensures
        r == None::<i16>,
{
    None
}

fn match_offset_dive_settings(_k: usize) -> (r: Option<i16>)
    ensures
        r == None::<i16>,
{
    None
}

fn match_offset_dive_summary(_k: usize) -> (r: Option<i16>)
    ensures
        r == None::<i16>,
{
    None
}

fn match_offset_event(_k: usize) -> (r: Option<i16>)
    ensures
        r == None::<i16>,
{
    None
}

fn match_offset_exd_data_concept_configuration(_k: usize) -> (r: Option<i16>)
    ensures
        r == None::<i16>,
{
    None
}

fn match_offset_exd_data_field_configuration(_k: usize) -> (r: Option<i16>)
    ensures
        r == None::<i16>,
{
    None
}

fn match_offset_exd_screen_configuration(_k: usize) -> (r: Option<i16>)
    ensures
        r == None::<i16>,
{
    None
}

fn match_offset_exercise_title(_k: usize) -> (r: Option<i16>)
    ensures
        r == None::<i16>,
{
    None
}

fn match_offset_field_capabilities(_k: usize) -> (r: Option<i16>)
    ensures
        r == None::<i16>,
{
    None
}

fn match_offset_field_description(_k: usize) -> (r: Option<i16>)
    ensures
        r == None::<i16>,
{
    None
}

fn match_offset_file_capabilities(_k: usize) -> (r: Option<i16>)
    ensures
        r == None::<i16>,
{
    None
}

fn match_offset_file_creator(_k: usize) -> (r: Option<i16>)
    ensures
        r == None::<i16>,
{
    None
}

fn match_offset_file_id(_k: usize) -> (r: Option<i16>)
    ensures
        r == None::<i16>,
{
    None
}

fn match_offset_goal(_k: usize) -> (r: Option<i16>)
    ensures
        r == None::<i16>,
{
    None
}

/// The offsets of the fields of `gps_metadata` messages.
pub open spec fn offset_gps_metadata(k: usize) -> Option<i16> {
    match k {
        3 => Some(500i16),
        _ => None,
    }
}

fn match_offset_gps_metadata(k: usize) -> (r: Option<i16>)
    ensures
        r == offset_gps_metadata(k),
{
    match k {
        3 => Some(500i16),
        _ => None,
    }
}

fn match_offset_gyroscope_data(_k: usize) -> (r: Option<i16>)
    ensures
        r == None::<i16>,
{
    None
}

fn match_offset_hr(_k: usize) -> (r: Option<i16>)
    ensures
        r == None::<i16>,
{
    None
}

fn match_offset_hr_zone(_k: usize) -> (r: Option<i16>)
    ensures
        r == None::<i16>,
{
    None
}

fn match_offset_hrm_profile(_k: usize) -> (r: Option<i16>)
    ensures
        r == None::<i16>,
{
    None
}

fn match_offset_hrv(_k: usize) -> (r: Option<i16>)
    ensures
        r == None::<i16>,
{
    None
}

fn match_offset_jump(_k: usize) -> (r: Option<i16>)
    ensures
        r == None::<i16>,
{
    None
}

/// The offsets of the fields of `lap` messages.
pub open spec fn offset_lap(k: usize) -> Option<i16> {
    match k {
        42 | 43 | 62 | 112 | 113 | 114 => Some(500i16),
        _ => None,
    }
}

fn match_offset_lap(k: usize) -> (r: Option<i16>)
    ensures
        r == offset_lap(k),
{
    match k {
        42 | 43 | 62 | 112 | 113 | 114 => Some(500i16),
        _ => None,
    }
}

fn match_offset_length(_k: usize) -> (r: Option<i16>)
    ensures
        r == None::<i16>,
{
    None
}

fn match_offset_magnetometer_data(_k: usize) -> (r: Option<i16>)
    ensures
        r == None::<i16>,
{
    None
}

fn match_offset_memo_glob(_k: usize) -> (r: Option<i16>)
    ensures
        r == None::<i16>,
{
    None
}

fn match_offset_mesg_capabilities(_k: usize) -> (r: Option<i16>)
    ensures
        r == None::<i16>,
{
    None
}

fn match_offset_met_zone(_k: usize) -> (r: Option<i16>)
    ensures
        r == None::<i16>,
{
    None
}

fn match_offset_monitoring(_k: usize) -> (r: Option<i16>)
    ensures
        r == None::<i16>,
{
    None
}

fn match_offset_monitoring_info(_k: usize) -> (r: Option<i16>)
    ensures
        r == None::<i16>,
{
    None
}

fn match_offset_nmea_sentence(_k: usize) -> (r: Option<i16>)
    ensures
        r == None::<i16>,
{
    None
}

fn match_offset_obdii_data(_k: usize) -> (r: Option<i16>)
    ensures
        r == None::<i16>,
{
    None
}

fn match_offset_ohr_settings(_k: usize) -> (r: Option<i16>)
    ensures
        r == None::<i16>,
{
    None
}

fn match_offset_one_d_sensor_calibration(_k: usize) -> (r: Option<i16>)
    ensures
        r == None::<i16>,
{
    None
}

fn match_offset_power_zone(_k: usize) -> (r: Option<i16>)
    ensures
        r == None::<i16>,
{
    None
}

/// The offsets of the fields of `record` messages.
pub open spec fn offset_record(k: usize) -> Option<i16> {
    match k {
        2 | 78 => Some(500i16),
        _ => None,
    }
}

fn match_offset_record(k: usize) -> (r: Option<i16>)
    ensures
        r == offset_record(k),
{
    match k {
        2 | 78 => Some(500i16),
        _ => None,
    }
}

fn match_offset_schedule(_k: usize) -> (r: Option<i16>)
    ensures
        r == None::<i16>,
{
    None
}

fn match_offset_sdm_profile(_k: usize) -> (r: Option<i16>)
    ensures
        r == None::<i16>,
{
    None
}

fn match_offset_segment_file(_k: usize) -> (r: Option<i16>)
    ensures
        r == None::<i16>,
{
    None
}

fn match_offset_segment_id(_k: usize) -> (r: Option<i16>)
    ensures
        r == None::<i16>,
{
    None
}

/// The offsets of the fields of `segment_lap` messages.
pub open spec fn offset_segment_lap(k: usize) -> Option<i16> {
    match k {
        34 | 35 | 54 => Some(500i16),
        _ => None,
    }
}

fn match_offset_segment_lap(k: usize) -> (r: Option<i16>)
    ensures
        r == offset_segment_lap(k),
{
    match k {
        34 | 35 | 54 => Some(500i16),
        _ => None,
    }
}

fn match_offset_segment_leaderboard_entry(_k: usize) -> (r: Option<i16>)
    ensures
        r == None::<i16>,
{
    None
}

/// The offsets of the fields of `segment_point` messages.
pub open spec fn offset_segment_point(k: usize) -> Option<i16> {
    match k {
        4 => Some(500i16),
        _ => None,
    }
}

fn match_offset_segment_point(k: usize) -> (r: Option<i16>)
    ensures
        r == offset_segment_point(k),
{
    match k {
        4 => Some(500i16),
        _ => None,
    }
}

/// The offsets of the fields of `session` messages.
pub open spec fn offset_session(k: usize) -> Option<i16> {
    match k {
        49 | 50 | 71 | 126 | 127 | 128 => Some(500i16),
        _ => None,
    }
}

fn match_offset_session(k: usize) -> (r: Option<i16>)
    ensures
        r == offset_session(k),
{
    match k {
        49 | 50 | 71 | 126 | 127 | 128 => Some(500i16),
        _ => None,
    }
}

fn match_offset_set(_k: usize) -> (r: Option<i16>)
    ensures
        r == None::<i16>,
{
    None
}

fn match_offset_slave_device(_k: usize) -> (r: Option<i16>)
    ensures
        r == None::<i16>,
{
    None
}

fn match_offset_software(_k: usize) -> (r: Option<i16>)
    ensures
        r == None::<i16>,
{
    None
}

fn match_offset_speed_zone(_k: usize) -> (r: Option<i16>)
    ensures
        r == None::<i16>,
{
    None
}

fn match_offset_sport(_k: usize) -> (r: Option<i16>)
    ensures
        r == None::<i16>,
{
    None
}

fn match_offset_stress_level(_k: usize) -> (r: Option<i16>)
    ensures
        r == None::<i16>,
{
    None
}

fn match_offset_three_d_sensor_calibration(_k: usize) -> (r: Option<i16>)
    ensures
        r == None::<i16>,
{
    None
}

fn match_offset_timestamp_correlation(_k: usize) -> (r: Option<i16>)
    ensures
        r == None::<i16>,
{
    None
}

fn match_offset_totals(_k: usize) -> (r: Option<i16>)
    ensures
        r == None::<i16>,
{
    None
}

fn match_offset_training_file(_k: usize) -> (r: Option<i16>)
    ensures
        r == None::<i16>,
{
    None
}

fn match_offset_user_profile(_k: usize) -> (r: Option<i16>)
    ensures
        r == None::<i16>,
{
    None
}

fn match_offset_video(_k: usize) -> (r: Option<i16>)
    ensures
        r == None::<i16>,
{
    None
}

fn match_offset_video_clip(_k: usize) -> (r: Option<i16>)
    ensures
        r == None::<i16>,
{
    None
}

fn match_offset_video_description(_k: usize) -> (r: Option<i16>)
    ensures
        r == None::<i16>,
{
    None
}

fn match_offset_video_frame(_k: usize) -> (r: Option<i16>)
    ensures
        r == None::<i16>,
{
    None
}

fn match_offset_video_title(_k: usize) -> (r: Option<i16>)
    ensures
        r == None::<i16>,
{
    None
}

fn match_offset_watchface_settings(_k: usize) -> (r: Option<i16>)
    ensures
        r == None::<i16>,
{
    None
}

fn match_offset_weather_alert(_k: usize) -> (r: Option<i16>)
    ensures
        r == None::<i16>,
{
    None
}

fn match_offset_weather_conditions(_k: usize) -> (r: Option<i16>)
    ensures
        r == None::<i16>,
{
    None
}

fn match_offset_weight_scale(_k: usize) -> (r: Option<i16>)
    ensures
        r == None::<i16>,
{
    None
}

fn match_offset_workout(_k: usize) -> (r: Option<i16>)
    ensures
        r == None::<i16>,
{
    None
}

fn match_offset_workout_session(_k: usize) -> (r: Option<i16>)
    ensures
        r == None::<i16>,
{
    None
}

fn match_offset_workout_step(_k: usize) -> (r: Option<i16>)
    ensures
        r == None::<i16>,
{
    None
}

fn match_offset_zones_target(_k: usize) -> (r: Option<i16>)
    ensures
        r == None::<i16>,
{
    None
}

fn match_offset_none(_k: usize) -> (r: Option<i16>)
    ensures
        r == None::<i16>,
{
    None
}

/// The offset that the profile gives field `k` of the messages of type `m`.
pub open spec fn spec_field_offset(m: MessageType, k: usize) -> Option<i16> {
    match m {
        MessageType::BikeProfile => offset_bike_profile(k),
        MessageType::Session => offset_session(k),
        MessageType::Lap => offset_lap(k),
        MessageType::Record => offset_record(k),
        MessageType::GpsMetadata => offset_gps_metadata(k),
        MessageType::SegmentPoint => offset_segment_point(k),
        MessageType::SegmentLap => offset_segment_lap(k),
        _ => None,
    }
}

/// The offset of field `k` of the messages of type `m`, where the profile
/// gives one.
pub fn get_field_offset_fn(m: MessageType, k: usize) -> (r: Option<i16>)
    ensures
        r == spec_field_offset(m, k),
{
    match m {
        MessageType::FileId => match_offset_file_id(k),
        MessageType::FileCreator => match_offset_file_creator(k),
        MessageType::TimestampCorrelation => match_offset_timestamp_correlation(k),
        MessageType::Software => match_offset_software(k),
        MessageType::SlaveDevice => match_offset_slave_device(k),
        MessageType::Capabilities => match_offset_capabilities(k),
        MessageType::FileCapabilities => match_offset_file_capabilities(k),
        MessageType::MesgCapabilities => match_offset_mesg_capabilities(k),
        MessageType::FieldCapabilities => match_offset_field_capabilities(k),
        MessageType::DeviceSettings => match_offset_device_settings(k),
        MessageType::UserProfile => match_offset_user_profile(k),
        MessageType::HrmProfile => match_offset_hrm_profile(k),
        MessageType::SdmProfile => match_offset_sdm_profile(k),
        MessageType::BikeProfile => match_offset_bike_profile(k),
        MessageType::Connectivity => match_offset_connectivity(k),
        MessageType::WatchfaceSettings => match_offset_watchface_settings(k),
        MessageType::OhrSettings => match_offset_ohr_settings(k),
        MessageType::ZonesTarget => match_offset_zones_target(k),
        MessageType::Sport => match_offset_sport(k),
        MessageType::HrZone => match_offset_hr_zone(k),
        MessageType::SpeedZone => match_offset_speed_zone(k),
        MessageType::CadenceZone => match_offset_cadence_zone(k),
        MessageType::PowerZone => match_offset_power_zone(k),
        MessageType::MetZone => match_offset_met_zone(k),
        MessageType::DiveSettings => match_offset_dive_settings(k),
        MessageType::DiveAlarm => match_offset_dive_alarm(k),
        MessageType::DiveGas => match_offset_dive_gas(k),
        MessageType::Goal => match_offset_goal(k),
        MessageType::Activity => match_offset_activity(k),
        MessageType::Session => match_offset_session(k),
        MessageType::Lap => match_offset_lap(k),
        MessageType::Length => match_offset_length(k),
        MessageType::Record => match_offset_record(k),
        MessageType::Event => match_offset_event(k),
        MessageType::DeviceInfo => match_offset_device_info(k),
        MessageType::DeviceAuxBatteryInfo => match_offset_device_aux_battery_info(k),
        MessageType::TrainingFile => match_offset_training_file(k),
        MessageType::WeatherConditions => match_offset_weather_conditions(k),
        MessageType::WeatherAlert => match_offset_weather_alert(k),
        MessageType::GpsMetadata => match_offset_gps_metadata(k),
        MessageType::CameraEvent => match_offset_camera_event(k),
        MessageType::GyroscopeData => match_offset_gyroscope_data(k),
        MessageType::AccelerometerData => match_offset_accelerometer_data(k),
        MessageType::MagnetometerData => match_offset_magnetometer_data(k),
        MessageType::BarometerData => match_offset_barometer_data(k),
        MessageType::ThreeDSensorCalibration => match_offset_three_d_sensor_calibration(k),
        MessageType::OneDSensorCalibration => match_offset_one_d_sensor_calibration(k),
        MessageType::VideoFrame => match_offset_video_frame(k),
        MessageType::ObdiiData => match_offset_obdii_data(k),
        MessageType::NmeaSentence => match_offset_nmea_sentence(k),
        MessageType::AviationAttitude => match_offset_aviation_attitude(k),
        MessageType::Video => match_offset_video(k),
        MessageType::VideoTitle => match_offset_video_title(k),
        MessageType::VideoDescription => match_offset_video_description(k),
        MessageType::VideoClip => match_offset_video_clip(k),
        MessageType::Sets => match_offset_set(k),
        MessageType::Jump => match_offset_jump(k),
        MessageType::ClimbPro => match_offset_climb_pro(k),
        MessageType::FieldDescription => match_offset_field_description(k),
        MessageType::DeveloperDataId => match_offset_developer_data_id(k),
        MessageType::Course => match_offset_course(k),
        MessageType::CoursePoint => match_offset_course_point(k),
        MessageType::SegmentId => match_offset_segment_id(k),
        MessageType::SegmentLeaderboardEntry => match_offset_segment_leaderboard_entry(k),
        MessageType::SegmentPoint => match_offset_segment_point(k),
        MessageType::SegmentLap => match_offset_segment_lap(k),
        MessageType::SegmentFile => match_offset_segment_file(k),
        MessageType::Workout => match_offset_workout(k),
        MessageType::WorkoutSession => match_offset_workout_session(k),
        MessageType::WorkoutStep => match_offset_workout_step(k),
        MessageType::ExerciseTitle => match_offset_exercise_title(k),
        MessageType::Schedule => match_offset_schedule(k),
        MessageType::Totals => match_offset_totals(k),
        MessageType::WeightScale => match_offset_weight_scale(k),
        MessageType::BloodPressure => match_offset_blood_pressure(k),
        MessageType::MonitoringInfo => match_offset_monitoring_info(k),
        MessageType::Monitoring => match_offset_monitoring(k),
        MessageType::Hr => match_offset_hr(k),
        MessageType::StressLevel => match_offset_stress_level(k),
        MessageType::MemoGlob => match_offset_memo_glob(k),
        MessageType::AntChannelId => match_offset_ant_channel_id(k),
        MessageType::AntRx => match_offset_ant_rx(k),
        MessageType::AntTx => match_offset_ant_tx(k),
        MessageType::ExdScreenConfiguration => match_offset_exd_screen_configuration(k),
        MessageType::ExdDataFieldConfiguration => match_offset_exd_data_field_configuration(k),
        MessageType::ExdDataConceptConfiguration => match_offset_exd_data_concept_configuration(k),
        MessageType::DiveSummary => match_offset_dive_summary(k),
        MessageType::Hrv => match_offset_hrv(k),
        _ => match_offset_none(k),
    }
}

} // verus!
