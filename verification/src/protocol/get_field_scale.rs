//! The scales of the profile: what a field's raw value is divided by to
//! give its physical value.

use crate::protocol::message_type::MessageType;
use crate::protocol::value::Scale;
use vstd::prelude::*;

verus! {

fn match_scale_accelerometer_data(_k: usize) -> (r: Option<Scale>)
    ensures
        r == None::<Scale>,
{
    None
}

/// The scales of the fields of `activity` messages.
pub open spec fn scale_activity(k: usize) -> Option<Scale> {
    match k {
        0 => Some(Scale { num: 1000, den: 1 }),
        _ => None,
    }
}

fn match_scale_activity(k: usize) -> (r: Option<Scale>)
    ensures
        r == scale_activity(k),
{
    match k {
        0 => Some(Scale { num: 1000, den: 1 }),
        _ => None,
    }
}

fn match_scale_ant_channel_id(_k: usize) -> (r: Option<Scale>)
    ensures
        r == None::<Scale>,
{
    None
}

/// The scales of the fields of `ant_rx` messages.
pub open spec fn scale_ant_rx(k: usize) -> Option<Scale> {
    match k {
        0 => Some(Scale { num: 32768, den: 1 }),
        _ => None,
    }
}

fn match_scale_ant_rx(k: usize) -> (r: Option<Scale>)
    ensures
        r == scale_ant_rx(k),
{
    match k {
        0 => Some(Scale { num: 32768, den: 1 }),
        _ => None,
    }
}

/// The scales of the fields of `ant_tx` messages.
pub open spec fn scale_ant_tx(k: usize) -> Option<Scale> {
    match k {
        0 => Some(Scale { num: 32768, den: 1 }),
        _ => None,
    }
}

fn match_scale_ant_tx(k: usize) -> (r: Option<Scale>)
    ensures
        r == scale_ant_tx(k),
{
    match k {
        0 => Some(Scale { num: 32768, den: 1 }),
        _ => None,
    }
}

/// The scales of the fields of `aviation_attitude` messages.
pub open spec fn scale_aviation_attitude(k: usize) -> Option<Scale> {
    match k {
        2 | 3 | 9 => Some(Scale { num: 521519, den: 50 }),
        4 | 5 => Some(Scale { num: 100, den: 1 }),
        6 => Some(Scale { num: 1024, den: 1 }),
        _ => None,
    }
}

fn match_scale_aviation_attitude(k: usize) -> (r: Option<Scale>)
    ensures
        r == scale_aviation_attitude(k),
{
    match k {
        2 | 3 | 9 => Some(Scale { num: 521519, den: 50 }),
        4 | 5 => Some(Scale { num: 100, den: 1 }),
        6 => Some(Scale { num: 1024, den: 1 }),
        _ => None,
    }
}

fn match_scale_barometer_data(_k: usize) -> (r: Option<Scale>)
    ensures
        r == None::<Scale>,
{
    None
}

/// The scales of the fields of `bike_profile` messages.
pub open spec fn scale_bike_profile(k: usize) -> Option<Scale> {
    match k {
        3 => Some(Scale { num: 100, den: 1 }),
        8 | 9 => Some(Scale { num: 1000, den: 1 }),
        10 | 11 => Some(Scale { num: 10, den: 1 }),
        19 => Some(Scale { num: 2, den: 1 }),
        _ => None,
    }
}

fn match_scale_bike_profile(k: usize) -> (r: Option<Scale>)
    ensures
        r == scale_bike_profile(k),
{
    match k {
        3 => Some(Scale { num: 100, den: 1 }),
        8 | 9 => Some(Scale { num: 1000, den: 1 }),
        10 | 11 => Some(Scale { num: 10, den: 1 }),
        19 => Some(Scale { num: 2, den: 1 }),
        _ => None,
    }
}

fn match_scale_blood_pressure(_k: usize) -> (r: Option<Scale>)
    ensures
        r == None::<Scale>,
{
    None
}

fn match_scale_cadence_zone(_k: usize) -> (r: Option<Scale>)
    ensures
        r == None::<Scale>,
{
    None
}

fn match_scale_camera_event(_k: usize) -> (r: Option<Scale>)
    ensures
        r == None::<Scale>,
{
    None
}

fn match_scale_capabilities(_k: usize) -> (r: Option<Scale>)
    ensures
        r == None::<Scale>,
{
    None
}

fn match_scale_climb_pro(_k: usize) -> (r: Option<Scale>)
    ensures
        r == None::<Scale>,
{
    None
}

fn match_scale_connectivity(_k: usize) -> (r: Option<Scale>)
    ensures
        r == None::<Scale>,
{
    None
}

fn match_scale_course(_k: usize) -> (r: Option<Scale>)
    ensures
        r == None::<Scale>,
{
    None
}

/// The scales of the fields of `course_point` messages.
pub open spec fn scale_course_point(k: usize) -> Option<Scale> {
    match k {
        4 => Some(Scale { num: 100, den: 1 }),
        _ => None,
    }
}

fn match_scale_course_point(k: usize) -> (r: Option<Scale>)
    ensures
        r == scale_course_point(k),
{
    match k {
        4 => Some(Scale { num: 100, den: 1 }),
        _ => None,
    }
}

fn match_scale_developer_data_id(_k: usize) -> (r: Option<Scale>)
    ensures
        r == None::<Scale>,
{
    None
}

/// The scales of the fields of `device_aux_battery_info` messages.
pub open spec fn scale_device_aux_battery_info(k: usize) -> Option<Scale> {
    match k {
        1 => Some(Scale { num: 256, den: 1 }),
        _ => None,
    }
}

fn match_scale_device_aux_battery_info(k: usize) -> (r: Option<Scale>)
    ensures
        r == scale_device_aux_battery_info(k),
{
    match k {
        1 => Some(Scale { num: 256, den: 1 }),
        _ => None,
    }
}

/// The scales of the fields of `device_info` messages.
pub open spec fn scale_device_info(k: usize) -> Option<Scale> {
    match k {
        5 => Some(Scale { num: 100, den: 1 }),
        10 => Some(Scale { num: 256, den: 1 }),
        _ => None,
    }
}

fn match_scale_device_info(k: usize) -> (r: Option<Scale>)
    ensures
        r == scale_device_info(k),
{
    match k {
        5 => Some(Scale { num: 100, den: 1 }),
        10 => Some(Scale { num: 256, den: 1 }),
        _ => None,
    }
}

/// The scales of the fields of `device_settings` messages.
pub open spec fn scale_device_settings(k: usize) -> Option<Scale> {
    match k {
        5 => Some(Scale { num: 4, den: 1 }),
        _ => None,
    }
}

fn match_scale_device_settings(k: usize) -> (r: Option<Scale>)
    ensures
        r == scale_device_settings(k),
{
    match k {
        5 => Some(Scale { num: 4, den: 1 }),
        _ => None,
    }
}

/// The scales of the fields of `dive_alarm` messages.
pub open spec fn scale_dive_alarm(k: usize) -> Option<Scale> {
    match k {
        0 => Some(Scale { num: 1000, den: 1 }),
        1 => Some(Scale { num: 1, den: 1 }),
        _ => None,
    }
}

fn match_scale_dive_alarm(k: usize) -> (r: Option<Scale>)
    ensures
        r == scale_dive_alarm(k),
{
    match k {
        0 => Some(Scale { num: 1000, den: 1 }),
        1 => Some(Scale { num: 1, den: 1 }),
        _ => None,
    }
}

fn match_scale_dive_gas(_k: usize) -> (r: Option<Scale>)
    ensures
        r == None::<Scale>,
{
    None
}

/// The scales of the fields of `dive_settings` messages.
pub open spec fn scale_dive_settings(k: usize) -> Option<Scale> {
    match k {
        6 | 7 | 8 => Some(Scale { num: 100, den: 1 }),
        17 | 18 => Some(Scale { num: 1, den: 1 }),
        _ => None,
    }
}

fn match_scale_dive_settings(k: usize) -> (r: Option<Scale>)
    ensures
        r == scale_dive_settings(k),
{
    match k {
        6 | 7 | 8 => Some(Scale { num: 100, den: 1 }),
        17 | 18 => Some(Scale { num: 1, den: 1 }),
        _ => None,
    }
}

/// The scales of the fields of `dive_summary` messages.
pub open spec fn scale_dive_summary(k: usize) -> Option<Scale> {
    match k {
        2 | 3 | 11 | 17 | 22 | 23 | 24 | 25 => Some(Scale { num: 1000, den: 1 }),
        4 | 5 | 6 | 7 | 8 => Some(Scale { num: 1, den: 1 }),
        _ => None,
    }
}

fn match_scale_dive_summary(k: usize) -> (r: Option<Scale>)
    ensures
        r == scale_dive_summary(k),
{
    match k {
        2 | 3 | 11 | 17 | 22 | 23 | 24 | 25 => Some(Scale { num: 1000, den: 1 }),
        4 | 5 | 6 | 7 | 8 => Some(Scale { num: 1, den: 1 }),
        _ => None,
    }
}

/// The scales of the fields of `event` messages.
pub open spec fn scale_event(k: usize) -> Option<Scale> {
    match k {
        23 | 24 => Some(Scale { num: 10, den: 1 }),
        _ => None,
    }
}

fn match_scale_event(k: usize) -> (r: Option<Scale>)
    ensures
        r == scale_event(k),
{
    match k {
        23 | 24 => Some(Scale { num: 10, den: 1 }),
        _ => None,
    }
}

fn match_scale_exd_data_concept_configuration(_k: usize) -> (r: Option<Scale>)
    ensures
        r == None::<Scale>,
{
    None
}

fn match_scale_exd_data_field_configuration(_k: usize) -> (r: Option<Scale>)
    ensures
        r == None::<Scale>,
{
    None
}

fn match_scale_exd_screen_configuration(_k: usize) -> (r: Option<Scale>)
    ensures
        r == None::<Scale>,
{
    None
}

fn match_scale_exercise_title(_k: usize) -> (r: Option<Scale>)
    ensures
        r == None::<Scale>,
{
    None
}

fn match_scale_field_capabilities(_k: usize) -> (r: Option<Scale>)
    ensures
        r == None::<Scale>,
{
    None
}

fn match_scale_field_description(_k: usize) -> (r: Option<Scale>)
    ensures
        r == None::<Scale>,
{
    None
}

fn match_scale_file_capabilities(_k: usize) -> (r: Option<Scale>)
    ensures
        r == None::<Scale>,
{
    None
}

fn match_scale_file_creator(_k: usize) -> (r: Option<Scale>)
    ensures
        r == None::<Scale>,
{
    None
}

fn match_scale_file_id(_k: usize) -> (r: Option<Scale>)
    ensures
        r == None::<Scale>,
{
    None
}

fn match_scale_goal(_k: usize) -> (r: Option<Scale>)
    ensures
        r == None::<Scale>,
{
    None
}

/// The scales of the fields of `gps_metadata` messages.
pub open spec fn scale_gps_metadata(k: usize) -> Option<Scale> {
    match k {
        3 => Some(Scale { num: 5, den: 1 }),
        4 => Some(Scale { num: 1000, den: 1 }),
        5 | 7 => Some(Scale { num: 100, den: 1 }),
        _ => None,
    }
}

fn match_scale_gps_metadata(k: usize) -> (r: Option<Scale>)
    ensures
        r == scale_gps_metadata(k),
{
    match k {
        3 => Some(Scale { num: 5, den: 1 }),
        4 => Some(Scale { num: 1000, den: 1 }),
        5 | 7 => Some(Scale { num: 100, den: 1 }),
        _ => None,
    }
}

fn match_scale_gyroscope_data(_k: usize) -> (r: Option<Scale>)
    ensures
        r == None::<Scale>,
{
    None
}

/// The scales of the fields of `hr` messages.
pub open spec fn scale_hr(k: usize) -> Option<Scale> {
    match k {
        0 => Some(Scale { num: 32768, den: 1 }),
        1 => Some(Scale { num: 256, den: 1 }),
        9 | 10 => Some(Scale { num: 1024, den: 1 }),
        _ => None,
    }
}

fn match_scale_hr(k: usize) -> (r: Option<Scale>)
    ensures
        r == scale_hr(k),
{
    match k {
        0 => Some(Scale { num: 32768, den: 1 }),
        1 => Some(Scale { num: 256, den: 1 }),
        9 | 10 => Some(Scale { num: 1024, den: 1 }),
        _ => None,
    }
}

fn match_scale_hr_zone(_k: usize) -> (r: Option<Scale>)
    ensures
        r == None::<Scale>,
{
    None
}

fn match_scale_hrm_profile(_k: usize) -> (r: Option<Scale>)
    ensures
        r == None::<Scale>,
{
    None
}

/// The scales of the fields of `hrv` messages.
pub open spec fn scale_hrv(k: usize) -> Option<Scale> {
    match k {
        0 => Some(Scale { num: 1000, den: 1 }),
        _ => None,
    }
}

fn match_scale_hrv(k: usize) -> (r: Option<Scale>)
    ensures
        r == scale_hrv(k),
{
    match k {
        0 => Some(Scale { num: 1000, den: 1 }),
        _ => None,
    }
}

/// The scales of the fields of `jump` messages.
pub open spec fn scale_jump(k: usize) -> Option<Scale> {
    match k {
        7 | 8 => Some(Scale { num: 1000, den: 1 }),
        _ => None,
    }
}

fn match_scale_jump(k: usize) -> (r: Option<Scale>)
    ensures
        r == scale_jump(k),
{
    match k {
        7 | 8 => Some(Scale { num: 1000, den: 1 }),
        _ => None,
    }
}

/// The scales of the fields of `lap` messages.
pub open spec fn scale_lap(k: usize) -> Option<Scale> {
    match k {
        7 | 8 | 13 | 14 | 52 | 53 | 54 | 55 | 56 | 57 | 58 | 59 | 60 | 98 | 110 | 111 | 121 =>
            Some(Scale { num: 1000, den: 1 }),
        9 | 37 | 45 | 46 | 47 | 48 | 49 | 78 | 84 | 85 | 86 | 118 | 119 | 156 | 157 | 158 | 159
        | 160 => Some(Scale { num: 100, den: 1 }),
        42 | 43 | 62 | 112 | 113 | 114 => Some(Scale { num: 5, den: 1 }),
        77 | 79 | 87 | 88 | 89 | 120 => Some(Scale { num: 10, den: 1 }),
        80 | 81 | 82 => Some(Scale { num: 128, den: 1 }),
        91 | 92 | 93 | 94 | 95 | 117 => Some(Scale { num: 2, den: 1 }),
        102 | 103 | 104 | 105 => Some(Scale { num: 7111111, den: 10000000 }),
        _ => None,
    }
}

fn match_scale_lap(k: usize) -> (r: Option<Scale>)
    ensures
        r == scale_lap(k),
{
    match k {
        7 | 8 | 13 | 14 | 52 | 53 | 54 | 55 | 56 | 57 | 58 | 59 | 60 | 98 | 110 | 111 | 121 =>
            Some(Scale { num: 1000, den: 1 }),
        9 | 37 | 45 | 46 | 47 | 48 | 49 | 78 | 84 | 85 | 86 | 118 | 119 | 156 | 157 | 158 | 159
        | 160 => Some(Scale { num: 100, den: 1 }),
        42 | 43 | 62 | 112 | 113 | 114 => Some(Scale { num: 5, den: 1 }),
        77 | 79 | 87 | 88 | 89 | 120 => Some(Scale { num: 10, den: 1 }),
        80 | 81 | 82 => Some(Scale { num: 128, den: 1 }),
        91 | 92 | 93 | 94 | 95 | 117 => Some(Scale { num: 2, den: 1 }),
        102 | 103 | 104 | 105 => Some(Scale { num: 7111111, den: 10000000 }),
        _ => None,
    }
}

/// The scales of the fields of `length` messages.
pub open spec fn scale_length(k: usize) -> Option<Scale> {
    match k {
        3 | 4 | 6 => Some(Scale { num: 1000, den: 1 }),
        _ => None,
    }
}

fn match_scale_length(k: usize) -> (r: Option<Scale>)
    ensures
        r == scale_length(k),
{
    match k {
        3 | 4 | 6 => Some(Scale { num: 1000, den: 1 }),
        _ => None,
    }
}

fn match_scale_magnetometer_data(_k: usize) -> (r: Option<Scale>)
    ensures
        r == None::<Scale>,
{
    None
}

fn match_scale_memo_glob(_k: usize) -> (r: Option<Scale>)
    ensures
        r == None::<Scale>,
{
    None
}

fn match_scale_mesg_capabilities(_k: usize) -> (r: Option<Scale>)
    ensures
        r == None::<Scale>,
{
    None
}

/// The scales of the fields of `met_zone` messages.
pub open spec fn scale_met_zone(k: usize) -> Option<Scale> {
    match k {
        2 | 3 => Some(Scale { num: 10, den: 1 }),
        _ => None,
    }
}

fn match_scale_met_zone(k: usize) -> (r: Option<Scale>)
    ensures
        r == scale_met_zone(k),
{
    match k {
        2 | 3 => Some(Scale { num: 10, den: 1 }),
        _ => None,
    }
}

/// The scales of the fields of `monitoring` messages.
pub open spec fn scale_monitoring(k: usize) -> Option<Scale> {
    match k {
        2 | 12 | 14 | 15 => Some(Scale { num: 100, den: 1 }),
        3 => Some(Scale { num: 2, den: 1 }),
        4 | 31 | 32 => Some(Scale { num: 1000, den: 1 }),
        28 => Some(Scale { num: 10, den: 1 }),
        _ => None,
    }
}

fn match_scale_monitoring(k: usize) -> (r: Option<Scale>)
    ensures
        r == scale_monitoring(k),
{
    match k {
        2 | 12 | 14 | 15 => Some(Scale { num: 100, den: 1 }),
        3 => Some(Scale { num: 2, den: 1 }),
        4 | 31 | 32 => Some(Scale { num: 1000, den: 1 }),
        28 => Some(Scale { num: 10, den: 1 }),
        _ => None,
    }
}

/// The scales of the fields of `monitoring_info` messages.
pub open spec fn scale_monitoring_info(k: usize) -> Option<Scale> {
    match k {
        3 | 4 => Some(Scale { num: 5000, den: 1 }),
        _ => None,
    }
}

fn match_scale_monitoring_info(k: usize) -> (r: Option<Scale>)
    ensures
        r == scale_monitoring_info(k),
{
    match k {
        3 | 4 => Some(Scale { num: 5000, den: 1 }),
        _ => None,
    }
}

fn match_scale_nmea_sentence(_k: usize) -> (r: Option<Scale>)
    ensures
        r == None::<Scale>,
{
    None
}

fn match_scale_obdii_data(_k: usize) -> (r: Option<Scale>)
    ensures
        r == None::<Scale>,
{
    None
}

fn match_scale_ohr_settings(_k: usize) -> (r: Option<Scale>)
    ensures
        r == None::<Scale>,
{
    None
}

fn match_scale_one_d_sensor_calibration(_k: usize) -> (r: Option<Scale>)
    ensures
        r == None::<Scale>,
{
    None
}

fn match_scale_power_zone(_k: usize) -> (r: Option<Scale>)
    ensures
        r == None::<Scale>,
{
    None
}

/// The scales of the fields of `record` messages.
pub open spec fn scale_record(k: usize) -> Option<Scale> {
    match k {
        2 | 78 => Some(Scale { num: 5, den: 1 }),
        5 | 8 | 9 | 12 | 40 | 51 | 54 | 55 | 56 | 83 | 84 | 139 => Some(Scale { num: 100, den: 1 }),
        6 | 11 | 32 | 73 | 92 | 93 => Some(Scale { num: 1000, den: 1 }),
        17 => Some(Scale { num: 16, den: 1 }),
        39 | 41 | 57 | 58 | 59 | 85 => Some(Scale { num: 10, den: 1 }),
        43 | 44 | 45 | 46 | 47 | 81 => Some(Scale { num: 2, den: 1 }),
        48 | 53 => Some(Scale { num: 128, den: 1 }),
        52 => Some(Scale { num: 256, den: 1 }),
        69 | 70 | 71 | 72 => Some(Scale { num: 7111111, den: 10000000 }),
        94 | 95 | 96 | 98 => Some(Scale { num: 1, den: 1 }),
        _ => None,
    }
}

fn match_scale_record(k: usize) -> (r: Option<Scale>)
    ensures
        r == scale_record(k),
{
    match k {
        2 | 78 => Some(Scale { num: 5, den: 1 }),
        5 | 8 | 9 | 12 | 40 | 51 | 54 | 55 | 56 | 83 | 84 | 139 => Some(Scale { num: 100, den: 1 }),
        6 | 11 | 32 | 73 | 92 | 93 => Some(Scale { num: 1000, den: 1 }),
        17 => Some(Scale { num: 16, den: 1 }),
        39 | 41 | 57 | 58 | 59 | 85 => Some(Scale { num: 10, den: 1 }),
        43 | 44 | 45 | 46 | 47 | 81 => Some(Scale { num: 2, den: 1 }),
        48 | 53 => Some(Scale { num: 128, den: 1 }),
        52 => Some(Scale { num: 256, den: 1 }),
        69 | 70 | 71 | 72 => Some(Scale { num: 7111111, den: 10000000 }),
        94 | 95 | 96 | 98 => Some(Scale { num: 1, den: 1 }),
        _ => None,
    }
}

fn match_scale_schedule(_k: usize) -> (r: Option<Scale>)
    ensures
        r == None::<Scale>,
{
    None
}

/// The scales of the fields of `sdm_profile` messages.
pub open spec fn scale_sdm_profile(k: usize) -> Option<Scale> {
    match k {
        2 => Some(Scale { num: 10, den: 1 }),
        3 => Some(Scale { num: 100, den: 1 }),
        _ => None,
    }
}

fn match_scale_sdm_profile(k: usize) -> (r: Option<Scale>)
    ensures
        r == scale_sdm_profile(k),
{
    match k {
        2 => Some(Scale { num: 10, den: 1 }),
        3 => Some(Scale { num: 100, den: 1 }),
        _ => None,
    }
}

fn match_scale_segment_file(_k: usize) -> (r: Option<Scale>)
    ensures
        r == None::<Scale>,
{
    None
}

fn match_scale_segment_id(_k: usize) -> (r: Option<Scale>)
    ensures
        r == None::<Scale>,
{
    None
}

/// The scales of the fields of `segment_lap` messages.
pub open spec fn scale_segment_lap(k: usize) -> Option<Scale> {
    match k {
        7 | 8 | 13 | 14 | 44 | 45 | 46 | 47 | 48 | 49 | 50 | 51 | 52 | 56 | 71 =>
            Some(Scale { num: 1000, den: 1 }),
        9 | 37 | 38 | 39 | 40 | 41 | 89 | 90 => Some(Scale { num: 100, den: 1 }),
        34 | 35 | 54 => Some(Scale { num: 5, den: 1 }),
        59 | 60 | 61 | 62 | 63 => Some(Scale { num: 2, den: 1 }),
        66 | 67 | 68 => Some(Scale { num: 128, den: 1 }),
        75 | 76 | 77 | 78 => Some(Scale { num: 7111111, den: 10000000 }),
        _ => None,
    }
}

fn match_scale_segment_lap(k: usize) -> (r: Option<Scale>)
    ensures
        r == scale_segment_lap(k),
{
    match k {
        7 | 8 | 13 | 14 | 44 | 45 | 46 | 47 | 48 | 49 | 50 | 51 | 52 | 56 | 71 =>
            Some(Scale { num: 1000, den: 1 }),
        9 | 37 | 38 | 39 | 40 | 41 | 89 | 90 => Some(Scale { num: 100, den: 1 }),
        34 | 35 | 54 => Some(Scale { num: 5, den: 1 }),
        59 | 60 | 61 | 62 | 63 => Some(Scale { num: 2, den: 1 }),
        66 | 67 | 68 => Some(Scale { num: 128, den: 1 }),
        75 | 76 | 77 | 78 => Some(Scale { num: 7111111, den: 10000000 }),
        _ => None,
    }
}

/// The scales of the fields of `segment_leaderboard_entry` messages.
pub open spec fn scale_segment_leaderboard_entry(k: usize) -> Option<Scale> {
    match k {
        4 => Some(Scale { num: 1000, den: 1 }),
        _ => None,
    }
}

fn match_scale_segment_leaderboard_entry(k: usize) -> (r: Option<Scale>)
    ensures
        r == scale_segment_leaderboard_entry(k),
{
    match k {
        4 => Some(Scale { num: 1000, den: 1 }),
        _ => None,
    }
}

/// The scales of the fields of `segment_point` messages.
pub open spec fn scale_segment_point(k: usize) -> Option<Scale> {
    match k {
        3 => Some(Scale { num: 100, den: 1 }),
        4 => Some(Scale { num: 5, den: 1 }),
        5 => Some(Scale { num: 1000, den: 1 }),
        _ => None,
    }
}

fn match_scale_segment_point(k: usize) -> (r: Option<Scale>)
    ensures
        r == scale_segment_point(k),
{
    match k {
        3 => Some(Scale { num: 100, den: 1 }),
        4 => Some(Scale { num: 5, den: 1 }),
        5 => Some(Scale { num: 1000, den: 1 }),
        _ => None,
    }
}

/// The scales of the fields of `session` messages.
pub open spec fn scale_session(k: usize) -> Option<Scale> {
    match k {
        7 | 8 | 14 | 15 | 36 | 59 | 60 | 61 | 62 | 63 | 65 | 66 | 67 | 68 | 69 | 112 | 124
        | 125 | 139 => Some(Scale { num: 1000, den: 1 }),
        9 | 42 | 44 | 52 | 53 | 54 | 55 | 56 | 87 | 88 | 90 | 95 | 96 | 97 | 132 | 133 | 199
        | 200 | 208 | 209 | 210 => Some(Scale { num: 100, den: 1 }),
        24 | 35 | 41 | 89 | 91 | 98 | 99 | 100 | 134 | 137 => Some(Scale { num: 10, den: 1 }),
        49 | 50 | 71 | 126 | 127 | 128 => Some(Scale { num: 5, den: 1 }),
        92 | 93 | 94 => Some(Scale { num: 128, den: 1 }),
        101 | 102 | 103 | 104 | 105 | 131 => Some(Scale { num: 2, den: 1 }),
        116 | 117 | 118 | 119 => Some(Scale { num: 7111111, den: 10000000 }),
        168 => Some(Scale { num: 65536, den: 1 }),
        _ => None,
    }
}

fn match_scale_session(k: usize) -> (r: Option<Scale>)
    ensures
        r == scale_session(k),
{
    match k {
        7 | 8 | 14 | 15 | 36 | 59 | 60 | 61 | 62 | 63 | 65 | 66 | 67 | 68 | 69 | 112 | 124
        | 125 | 139 => Some(Scale { num: 1000, den: 1 }),
        9 | 42 | 44 | 52 | 53 | 54 | 55 | 56 | 87 | 88 | 90 | 95 | 96 | 97 | 132 | 133 | 199
        | 200 | 208 | 209 | 210 => Some(Scale { num: 100, den: 1 }),
        24 | 35 | 41 | 89 | 91 | 98 | 99 | 100 | 134 | 137 => Some(Scale { num: 10, den: 1 }),
        49 | 50 | 71 | 126 | 127 | 128 => Some(Scale { num: 5, den: 1 }),
        92 | 93 | 94 => Some(Scale { num: 128, den: 1 }),
        101 | 102 | 103 | 104 | 105 | 131 => Some(Scale { num: 2, den: 1 }),
        116 | 117 | 118 | 119 => Some(Scale { num: 7111111, den: 10000000 }),
        168 => Some(Scale { num: 65536, den: 1 }),
        _ => None,
    }
}

/// The scales of the fields of `set` messages.
pub open spec fn scale_set(k: usize) -> Option<Scale> {
    match k {
        0 => Some(Scale { num: 1000, den: 1 }),
        4 => Some(Scale { num: 16, den: 1 }),
        _ => None,
    }
}

fn match_scale_set(k: usize) -> (r: Option<Scale>)
    ensures
        r == scale_set(k),
{
    match k {
        0 => Some(Scale { num: 1000, den: 1 }),
        4 => Some(Scale { num: 16, den: 1 }),
        _ => None,
    }
}

fn match_scale_slave_device(_k: usize) -> (r: Option<Scale>)
    ensures
        r == None::<Scale>,
{
    None
}

/// The scales of the fields of `software` messages.
pub open spec fn scale_software(k: usize) -> Option<Scale> {
    match k {
        3 => Some(Scale { num: 100, den: 1 }),
        _ => None,
    }
}

fn match_scale_software(k: usize) -> (r: Option<Scale>)
    ensures
        r == scale_software(k),
{
    match k {
        3 => Some(Scale { num: 100, den: 1 }),
        _ => None,
    }
}

/// The scales of the fields of `speed_zone` messages.
pub open spec fn scale_speed_zone(k: usize) -> Option<Scale> {
    match k {
        0 => Some(Scale { num: 1000, den: 1 }),
        _ => None,
    }
}

fn match_scale_speed_zone(k: usize) -> (r: Option<Scale>)
    ensures
        r == scale_speed_zone(k),
{
    match k {
        0 => Some(Scale { num: 1000, den: 1 }),
        _ => None,
    }
}

fn match_scale_sport(_k: usize) -> (r: Option<Scale>)
    ensures
        r == None::<Scale>,
{
    None
}

fn match_scale_stress_level(_k: usize) -> (r: Option<Scale>)
    ensures
        r == None::<Scale>,
{
    None
}

/// The scales of the fields of `three_d_sensor_calibration` messages.
pub open spec fn scale_three_d_sensor_calibration(k: usize) -> Option<Scale> {
    match k {
        5 => Some(Scale { num: 65535, den: 1 }),
        _ => None,
    }
}

fn match_scale_three_d_sensor_calibration(k: usize) -> (r: Option<Scale>)
    ensures
        r == scale_three_d_sensor_calibration(k),
{
    match k {
        5 => Some(Scale { num: 65535, den: 1 }),
        _ => None,
    }
}

/// The scales of the fields of `timestamp_correlation` messages.
pub open spec fn scale_timestamp_correlation(k: usize) -> Option<Scale> {
    match k {
        0 | 2 => Some(Scale { num: 32768, den: 1 }),
        _ => None,
    }
}

fn match_scale_timestamp_correlation(k: usize) -> (r: Option<Scale>)
    ensures
        r == scale_timestamp_correlation(k),
{
    match k {
        0 | 2 => Some(Scale { num: 32768, den: 1 }),
        _ => None,
    }
}

fn match_scale_totals(_k: usize) -> (r: Option<Scale>)
    ensures
        r == None::<Scale>,
{
    None
}

fn match_scale_training_file(_k: usize) -> (r: Option<Scale>)
    ensures
        r == None::<Scale>,
{
    None
}

/// The scales of the fields of `user_profile` messages.
pub open spec fn scale_user_profile(k: usize) -> Option<Scale> {
    match k {
        3 => Some(Scale { num: 100, den: 1 }),
        4 => Some(Scale { num: 10, den: 1 }),
        31 | 32 => Some(Scale { num: 1000, den: 1 }),
        _ => None,
    }
}

fn match_scale_user_profile(k: usize) -> (r: Option<Scale>)
    ensures
        r == scale_user_profile(k),
{
    match k {
        3 => Some(Scale { num: 100, den: 1 }),
        4 => Some(Scale { num: 10, den: 1 }),
        31 | 32 => Some(Scale { num: 1000, den: 1 }),
        _ => None,
    }
}

fn match_scale_video(_k: usize) -> (r: Option<Scale>)
    ensures
        r == None::<Scale>,
{
    None
}

fn match_scale_video_clip(_k: usize) -> (r: Option<Scale>)
    ensures
        r == None::<Scale>,
{
    None
}

fn match_scale_video_description(_k: usize) -> (r: Option<Scale>)
    ensures
        r == None::<Scale>,
{
    None
}

fn match_scale_video_frame(_k: usize) -> (r: Option<Scale>)
    ensures
        r == None::<Scale>,
{
    None
}

fn match_scale_video_title(_k: usize) -> (r: Option<Scale>)
    ensures
        r == None::<Scale>,
{
    None
}

fn match_scale_watchface_settings(_k: usize) -> (r: Option<Scale>)
    ensures
        r == None::<Scale>,
{
    None
}

fn match_scale_weather_alert(_k: usize) -> (r: Option<Scale>)
    ensures
        r == None::<Scale>,
{
    None
}

/// The scales of the fields of `weather_conditions` messages.
pub open spec fn scale_weather_conditions(k: usize) -> Option<Scale> {
    match k {
        4 => Some(Scale { num: 1000, den: 1 }),
        _ => None,
    }
}

fn match_scale_weather_conditions(k: usize) -> (r: Option<Scale>)
    ensures
        r == scale_weather_conditions(k),
{
    match k {
        4 => Some(Scale { num: 1000, den: 1 }),
        _ => None,
    }
}

/// The scales of the fields of `weight_scale` messages.
pub open spec fn scale_weight_scale(k: usize) -> Option<Scale> {
    match k {
        0 | 1 | 2 | 3 | 4 | 5 => Some(Scale { num: 100, den: 1 }),
        7 | 9 => Some(Scale { num: 4, den: 1 }),
        _ => None,
    }
}

fn match_scale_weight_scale(k: usize) -> (r: Option<Scale>)
    ensures
        r == scale_weight_scale(k),
{
    match k {
        0 | 1 | 2 | 3 | 4 | 5 => Some(Scale { num: 100, den: 1 }),
        7 | 9 => Some(Scale { num: 4, den: 1 }),
        _ => None,
    }
}

/// The scales of the fields of `workout` messages.
pub open spec fn scale_workout(k: usize) -> Option<Scale> {
    match k {
        14 => Some(Scale { num: 100, den: 1 }),
        _ => None,
    }
}

fn match_scale_workout(k: usize) -> (r: Option<Scale>)
    ensures
        r == scale_workout(k),
{
    match k {
        14 => Some(Scale { num: 100, den: 1 }),
        _ => None,
    }
}

/// The scales of the fields of `workout_session` messages.
pub open spec fn scale_workout_session(k: usize) -> Option<Scale> {
    match k {
        4 => Some(Scale { num: 100, den: 1 }),
        _ => None,
    }
}

fn match_scale_workout_session(k: usize) -> (r: Option<Scale>)
    ensures
        r == scale_workout_session(k),
{
    match k {
        4 => Some(Scale { num: 100, den: 1 }),
        _ => None,
    }
}

/// The scales of the fields of `workout_step` messages.
pub open spec fn scale_workout_step(k: usize) -> Option<Scale> {
    match k {
        12 => Some(Scale { num: 100, den: 1 }),
        _ => None,
    }
}

fn match_scale_workout_step(k: usize) -> (r: Option<Scale>)
    ensures
        r == scale_workout_step(k),
{
    match k {
        12 => Some(Scale { num: 100, den: 1 }),
        _ => None,
    }
}

fn match_scale_zones_target(_k: usize) -> (r: Option<Scale>)
    ensures
        r == None::<Scale>,
{
    None
}

fn match_scale_none(_k: usize) -> (r: Option<Scale>)
    ensures
        r == None::<Scale>,
{
    None
}

/// The scale that the profile gives field `k` of the messages of type `m`.
pub open spec fn spec_field_scale(m: MessageType, k: usize) -> Option<Scale> {
    match m {
        MessageType::TimestampCorrelation => scale_timestamp_correlation(k),
        MessageType::Software => scale_software(k),
        MessageType::DeviceSettings => scale_device_settings(k),
        MessageType::UserProfile => scale_user_profile(k),
        MessageType::SdmProfile => scale_sdm_profile(k),
        MessageType::BikeProfile => scale_bike_profile(k),
        MessageType::SpeedZone => scale_speed_zone(k),
        MessageType::MetZone => scale_met_zone(k),
        MessageType::DiveSettings => scale_dive_settings(k),
        MessageType::DiveAlarm => scale_dive_alarm(k),
        MessageType::Activity => scale_activity(k),
        MessageType::Session => scale_session(k),
        MessageType::Lap => scale_lap(k),
        MessageType::Length => scale_length(k),
        MessageType::Record => scale_record(k),
        MessageType::Event => scale_event(k),
        MessageType::DeviceInfo => scale_device_info(k),
        MessageType::DeviceAuxBatteryInfo => scale_device_aux_battery_info(k),
        MessageType::WeatherConditions => scale_weather_conditions(k),
        MessageType::GpsMetadata => scale_gps_metadata(k),
        MessageType::ThreeDSensorCalibration => scale_three_d_sensor_calibration(k),
        MessageType::AviationAttitude => scale_aviation_attitude(k),
        MessageType::Sets => scale_set(k),
        MessageType::Jump => scale_jump(k),
        MessageType::CoursePoint => scale_course_point(k),
        MessageType::SegmentLeaderboardEntry => scale_segment_leaderboard_entry(k),
        MessageType::SegmentPoint => scale_segment_point(k),
        MessageType::SegmentLap => scale_segment_lap(k),
        MessageType::Workout => scale_workout(k),
        MessageType::WorkoutSession => scale_workout_session(k),
        MessageType::WorkoutStep => scale_workout_step(k),
        MessageType::WeightScale => scale_weight_scale(k),
        MessageType::MonitoringInfo => scale_monitoring_info(k),
        MessageType::Monitoring => scale_monitoring(k),
        MessageType::Hr => scale_hr(k),
        MessageType::AntRx => scale_ant_rx(k),
        MessageType::AntTx => scale_ant_tx(k),
        MessageType::DiveSummary => scale_dive_summary(k),
        MessageType::Hrv => scale_hrv(k),
        _ => None,
    }
}

/// The scale of field `k` of the messages of type `m`, where the profile
/// gives one.
pub fn get_field_scale_fn(m: MessageType, k: usize) -> (r: Option<Scale>)
    ensures
        r == spec_field_scale(m, k),
{
    match m {
        MessageType::FileId => match_scale_file_id(k),
        MessageType::FileCreator => match_scale_file_creator(k),
        MessageType::TimestampCorrelation => match_scale_timestamp_correlation(k),
        MessageType::Software => match_scale_software(k),
        MessageType::SlaveDevice => match_scale_slave_device(k),
        MessageType::Capabilities => match_scale_capabilities(k),
        MessageType::FileCapabilities => match_scale_file_capabilities(k),
        MessageType::MesgCapabilities => match_scale_mesg_capabilities(k),
        MessageType::FieldCapabilities => match_scale_field_capabilities(k),
        MessageType::DeviceSettings => match_scale_device_settings(k),
        MessageType::UserProfile => match_scale_user_profile(k),
        MessageType::HrmProfile => match_scale_hrm_profile(k),
        MessageType::SdmProfile => match_scale_sdm_profile(k),
        MessageType::BikeProfile => match_scale_bike_profile(k),
        MessageType::Connectivity => match_scale_connectivity(k),
        MessageType::WatchfaceSettings => match_scale_watchface_settings(k),
        MessageType::OhrSettings => match_scale_ohr_settings(k),
        MessageType::ZonesTarget => match_scale_zones_target(k),
        MessageType::Sport => match_scale_sport(k),
        MessageType::HrZone => match_scale_hr_zone(k),
        MessageType::SpeedZone => match_scale_speed_zone(k),
        MessageType::CadenceZone => match_scale_cadence_zone(k),
        MessageType::PowerZone => match_scale_power_zone(k),
        MessageType::MetZone => match_scale_met_zone(k),
        MessageType::DiveSettings => match_scale_dive_settings(k),
        MessageType::DiveAlarm => match_scale_dive_alarm(k),
        MessageType::DiveGas => match_scale_dive_gas(k),
        MessageType::Goal => match_scale_goal(k),
        MessageType::Activity => match_scale_activity(k),
        MessageType::Session => match_scale_session(k),
        MessageType::Lap => match_scale_lap(k),
        MessageType::Length => match_scale_length(k),
        MessageType::Record => match_scale_record(k),
        MessageType::Event => match_scale_event(k),
        MessageType::DeviceInfo => match_scale_device_info(k),
        MessageType::DeviceAuxBatteryInfo => match_scale_device_aux_battery_info(k),
        MessageType::TrainingFile => match_scale_training_file(k),
        MessageType::WeatherConditions => match_scale_weather_conditions(k),
        MessageType::WeatherAlert => match_scale_weather_alert(k),
        MessageType::GpsMetadata => match_scale_gps_metadata(k),
        MessageType::CameraEvent => match_scale_camera_event(k),
        MessageType::GyroscopeData => match_scale_gyroscope_data(k),
        MessageType::AccelerometerData => match_scale_accelerometer_data(k),
        MessageType::MagnetometerData => match_scale_magnetometer_data(k),
        MessageType::BarometerData => match_scale_barometer_data(k),
        MessageType::ThreeDSensorCalibration => match_scale_three_d_sensor_calibration(k),
        MessageType::OneDSensorCalibration => match_scale_one_d_sensor_calibration(k),
        MessageType::VideoFrame => match_scale_video_frame(k),
        MessageType::ObdiiData => match_scale_obdii_data(k),
        MessageType::NmeaSentence => match_scale_nmea_sentence(k),
        MessageType::AviationAttitude => match_scale_aviation_attitude(k),
        MessageType::Video => match_scale_video(k),
        MessageType::VideoTitle => match_scale_video_title(k),
        MessageType::VideoDescription => match_scale_video_description(k),
        MessageType::VideoClip => match_scale_video_clip(k),
        MessageType::Sets => match_scale_set(k),
        MessageType::Jump => match_scale_jump(k),
        MessageType::ClimbPro => match_scale_climb_pro(k),
        MessageType::FieldDescription => match_scale_field_description(k),
        MessageType::DeveloperDataId => match_scale_developer_data_id(k),
        MessageType::Course => match_scale_course(k),
        MessageType::CoursePoint => match_scale_course_point(k),
        MessageType::SegmentId => match_scale_segment_id(k),
        MessageType::SegmentLeaderboardEntry => match_scale_segment_leaderboard_entry(k),
        MessageType::SegmentPoint => match_scale_segment_point(k),
        MessageType::SegmentLap => match_scale_segment_lap(k),
        MessageType::SegmentFile => match_scale_segment_file(k),
        MessageType::Workout => match_scale_workout(k),
        MessageType::WorkoutSession => match_scale_workout_session(k),
        MessageType::WorkoutStep => match_scale_workout_step(k),
        MessageType::ExerciseTitle => match_scale_exercise_title(k),
        MessageType::Schedule => match_scale_schedule(k),
        MessageType::Totals => match_scale_totals(k),
        MessageType::WeightScale => match_scale_weight_scale(k),
        MessageType::BloodPressure => match_scale_blood_pressure(k),
        MessageType::MonitoringInfo => match_scale_monitoring_info(k),
        MessageType::Monitoring => match_scale_monitoring(k),
        MessageType::Hr => match_scale_hr(k),
        MessageType::StressLevel => match_scale_stress_level(k),
        MessageType::MemoGlob => match_scale_memo_glob(k),
        MessageType::AntChannelId => match_scale_ant_channel_id(k),
        MessageType::AntRx => match_scale_ant_rx(k),
        MessageType::AntTx => match_scale_ant_tx(k),
        MessageType::ExdScreenConfiguration => match_scale_exd_screen_configuration(k),
        MessageType::ExdDataFieldConfiguration => match_scale_exd_data_field_configuration(k),
        MessageType::ExdDataConceptConfiguration => match_scale_exd_data_concept_configuration(k),
        MessageType::DiveSummary => match_scale_dive_summary(k),
        MessageType::Hrv => match_scale_hrv(k),
        _ => match_scale_none(k),
    }
}

} // verus!
