//! The field kinds of the profile: what a field's value means.

use crate::protocol::get_field_string_value::FieldType;
use crate::protocol::message_type::MessageType;
use vstd::prelude::*;

verus! {

/// The kinds of the fields of `accelerometer_data` messages.
pub open spec fn kind_accelerometer_data(k: usize) -> FieldType {
    match k {
        0 | 1 | 2 | 3 | 4 => FieldType::Uint16,
        5 | 6 | 7 => FieldType::Float32,
        8 | 9 | 10 => FieldType::Sint16,
        253 => FieldType::Timestamp,
        _ => FieldType::Unknown,
    }
}

fn match_field_accelerometer_data(k: usize) -> (r: FieldType)
    ensures
        r == kind_accelerometer_data(k),
{
    match k {
        0 | 1 | 2 | 3 | 4 => FieldType::Uint16,
        5 | 6 | 7 => FieldType::Float32,
        8 | 9 | 10 => FieldType::Sint16,
        253 => FieldType::Timestamp,
        _ => FieldType::Unknown,
    }
}

/// The kinds of the fields of `activity` messages.
pub open spec fn kind_activity(k: usize) -> FieldType {
    match k {
        0 => FieldType::Uint32,
        1 => FieldType::Uint16,
        2 => FieldType::Activity,
        3 => FieldType::Event,
        4 => FieldType::EventType,
        5 | 253 => FieldType::Timestamp,
        6 => FieldType::Uint8,
        _ => FieldType::Unknown,
    }
}

fn match_field_activity(k: usize) -> (r: FieldType)
    ensures
        r == kind_activity(k),
{
    match k {
        0 => FieldType::Uint32,
        1 => FieldType::Uint16,
        2 => FieldType::Activity,
        3 => FieldType::Event,
        4 => FieldType::EventType,
        5 | 253 => FieldType::Timestamp,
        6 => FieldType::Uint8,
        _ => FieldType::Unknown,
    }
}

/// The kinds of the fields of `ant_channel_id` messages.
pub open spec fn kind_ant_channel_id(k: usize) -> FieldType {
    match k {
        0 => FieldType::Uint8,
        1 | 3 => FieldType::Uint8Z,
        2 => FieldType::Uint16Z,
        4 => FieldType::DeviceIndex,
        _ => FieldType::Unknown,
    }
}

fn match_field_ant_channel_id(k: usize) -> (r: FieldType)
    ensures
        r == kind_ant_channel_id(k),
{
    match k {
        0 => FieldType::Uint8,
        1 | 3 => FieldType::Uint8Z,
        2 => FieldType::Uint16Z,
        4 => FieldType::DeviceIndex,
        _ => FieldType::Unknown,
    }
}

/// The kinds of the fields of `ant_rx` messages.
pub open spec fn kind_ant_rx(k: usize) -> FieldType {
    match k {
        0 | 253 => FieldType::Timestamp,
        1 | 2 | 4 => FieldType::Byte,
        3 => FieldType::Uint8,
        _ => FieldType::Unknown,
    }
}

fn match_field_ant_rx(k: usize) -> (r: FieldType)
    ensures
        r == kind_ant_rx(k),
{
    match k {
        0 | 253 => FieldType::Timestamp,
        1 | 2 | 4 => FieldType::Byte,
        3 => FieldType::Uint8,
        _ => FieldType::Unknown,
    }
}

/// The kinds of the fields of `ant_tx` messages.
pub open spec fn kind_ant_tx(k: usize) -> FieldType {
    match k {
        0 | 253 => FieldType::Timestamp,
        1 | 2 | 4 => FieldType::Byte,
        3 => FieldType::Uint8,
        _ => FieldType::Unknown,
    }
}

fn match_field_ant_tx(k: usize) -> (r: FieldType)
    ensures
        r == kind_ant_tx(k),
{
    match k {
        0 | 253 => FieldType::Timestamp,
        1 | 2 | 4 => FieldType::Byte,
        3 => FieldType::Uint8,
        _ => FieldType::Unknown,
    }
}

/// The kinds of the fields of `aviation_attitude` messages.
pub open spec fn kind_aviation_attitude(k: usize) -> FieldType {
    match k {
        0 | 9 => FieldType::Uint16,
        1 => FieldType::Uint32,
        2 | 3 | 4 | 5 | 6 => FieldType::Sint16,
        7 => FieldType::AttitudeStage,
        8 => FieldType::Uint8,
        10 => FieldType::AttitudeValidity,
        253 => FieldType::Timestamp,
        _ => FieldType::Unknown,
    }
}

fn match_field_aviation_attitude(k: usize) -> (r: FieldType)
    ensures
        r == kind_aviation_attitude(k),
{
    match k {
        0 | 9 => FieldType::Uint16,
        1 => FieldType::Uint32,
        2 | 3 | 4 | 5 | 6 => FieldType::Sint16,
        7 => FieldType::AttitudeStage,
        8 => FieldType::Uint8,
        10 => FieldType::AttitudeValidity,
        253 => FieldType::Timestamp,
        _ => FieldType::Unknown,
    }
}

/// The kinds of the fields of `barometer_data` messages.
pub open spec fn kind_barometer_data(k: usize) -> FieldType {
    match k {
        0 | 1 => FieldType::Uint16,
        2 => FieldType::Uint32,
        253 => FieldType::Timestamp,
        _ => FieldType::Unknown,
    }
}

fn match_field_barometer_data(k: usize) -> (r: FieldType)
    ensures
        r == kind_barometer_data(k),
{
    match k {
        0 | 1 => FieldType::Uint16,
        2 => FieldType::Uint32,
        253 => FieldType::Timestamp,
        _ => FieldType::Unknown,
    }
}

/// The kinds of the fields of `bike_profile` messages.
pub open spec fn kind_bike_profile(k: usize) -> FieldType {
    match k {
        0 => FieldType::String,
        1 => FieldType::Sport,
        2 => FieldType::SubSport,
        3 => FieldType::Uint32,
        4 | 5 | 6 | 7 => FieldType::Uint16Z,
        8 | 9 | 10 | 11 => FieldType::Uint16,
        12 | 13 | 15 | 16 | 17 | 18 | 20 | 44 => FieldType::Bool,
        14 | 19 | 37 => FieldType::Uint8,
        21 | 22 | 23 | 24 | 38 | 39 | 40 | 41 => FieldType::Uint8Z,
        254 => FieldType::MessageIndex,
        _ => FieldType::Unknown,
    }
}

fn match_field_bike_profile(k: usize) -> (r: FieldType)
    ensures
        r == kind_bike_profile(k),
{
    match k {
        0 => FieldType::String,
        1 => FieldType::Sport,
        2 => FieldType::SubSport,
        3 => FieldType::Uint32,
        4 | 5 | 6 | 7 => FieldType::Uint16Z,
        8 | 9 | 10 | 11 => FieldType::Uint16,
        12 | 13 | 15 | 16 | 17 | 18 | 20 | 44 => FieldType::Bool,
        14 | 19 | 37 => FieldType::Uint8,
        21 | 22 | 23 | 24 | 38 | 39 | 40 | 41 => FieldType::Uint8Z,
        254 => FieldType::MessageIndex,
        _ => FieldType::Unknown,
    }
}

/// The kinds of the fields of `blood_pressure` messages.
pub open spec fn kind_blood_pressure(k: usize) -> FieldType {
    match k {
        0 | 1 | 2 | 3 | 4 | 5 => FieldType::Uint16,
        6 => FieldType::Uint8,
        7 => FieldType::HrType,
        8 => FieldType::BpStatus,
        9 => FieldType::MessageIndex,
        253 => FieldType::Timestamp,
        _ => FieldType::Unknown,
    }
}

fn match_field_blood_pressure(k: usize) -> (r: FieldType)
    ensures
        r == kind_blood_pressure(k),
{
    match k {
        0 | 1 | 2 | 3 | 4 | 5 => FieldType::Uint16,
        6 => FieldType::Uint8,
        7 => FieldType::HrType,
        8 => FieldType::BpStatus,
        9 => FieldType::MessageIndex,
        253 => FieldType::Timestamp,
        _ => FieldType::Unknown,
    }
}

/// The kinds of the fields of `cadence_zone` messages.
pub open spec fn kind_cadence_zone(k: usize) -> FieldType {
    match k {
        0 => FieldType::Uint8,
        1 => FieldType::String,
        254 => FieldType::MessageIndex,
        _ => FieldType::Unknown,
    }
}

fn match_field_cadence_zone(k: usize) -> (r: FieldType)
    ensures
        r == kind_cadence_zone(k),
{
    match k {
        0 => FieldType::Uint8,
        1 => FieldType::String,
        254 => FieldType::MessageIndex,
        _ => FieldType::Unknown,
    }
}

/// The kinds of the fields of `camera_event` messages.
pub open spec fn kind_camera_event(k: usize) -> FieldType {
    match k {
        0 => FieldType::Uint16,
        1 => FieldType::CameraEventType,
        2 => FieldType::String,
        3 => FieldType::CameraOrientationType,
        253 => FieldType::Timestamp,
        _ => FieldType::Unknown,
    }
}

fn match_field_camera_event(k: usize) -> (r: FieldType)
    ensures
        r == kind_camera_event(k),
{
    match k {
        0 => FieldType::Uint16,
        1 => FieldType::CameraEventType,
        2 => FieldType::String,
        3 => FieldType::CameraOrientationType,
        253 => FieldType::Timestamp,
        _ => FieldType::Unknown,
    }
}

/// The kinds of the fields of `capabilities` messages.
pub open spec fn kind_capabilities(k: usize) -> FieldType {
    match k {
        0 => FieldType::Uint8Z,
        1 => FieldType::SportBits0,
        21 => FieldType::WorkoutCapabilities,
        23 => FieldType::ConnectivityCapabilities,
        _ => FieldType::Unknown,
    }
}

fn match_field_capabilities(k: usize) -> (r: FieldType)
    ensures
        r == kind_capabilities(k),
{
    match k {
        0 => FieldType::Uint8Z,
        1 => FieldType::SportBits0,
        21 => FieldType::WorkoutCapabilities,
        23 => FieldType::ConnectivityCapabilities,
        _ => FieldType::Unknown,
    }
}

/// The kinds of the fields of `climb_pro` messages.
pub open spec fn kind_climb_pro(k: usize) -> FieldType {
    match k {
        0 | 1 => FieldType::Coordinates,
        2 => FieldType::ClimbProEvent,
        3 => FieldType::Uint16,
        4 => FieldType::Uint8,
        5 => FieldType::Float32,
        253 => FieldType::Timestamp,
        _ => FieldType::Unknown,
    }
}

fn match_field_climb_pro(k: usize) -> (r: FieldType)
    ensures
        r == kind_climb_pro(k),
{
    match k {
        0 | 1 => FieldType::Coordinates,
        2 => FieldType::ClimbProEvent,
        3 => FieldType::Uint16,
        4 => FieldType::Uint8,
        5 => FieldType::Float32,
        253 => FieldType::Timestamp,
        _ => FieldType::Unknown,
    }
}

/// The kinds of the fields of `connectivity` messages.
pub open spec fn kind_connectivity(k: usize) -> FieldType {
    match k {
        0 | 1 | 2 | 4 | 5 | 6 | 7 | 8 | 9 | 10 | 11 | 12 => FieldType::Bool,
        3 => FieldType::String,
        _ => FieldType::Unknown,
    }
}

fn match_field_connectivity(k: usize) -> (r: FieldType)
    ensures
        r == kind_connectivity(k),
{
    match k {
        0 | 1 | 2 | 4 | 5 | 6 | 7 | 8 | 9 | 10 | 11 | 12 => FieldType::Bool,
        3 => FieldType::String,
        _ => FieldType::Unknown,
    }
}

/// The kinds of the fields of `course` messages.
pub open spec fn kind_course(k: usize) -> FieldType {
    match k {
        4 => FieldType::Sport,
        5 => FieldType::String,
        6 => FieldType::CourseCapabilities,
        7 => FieldType::SubSport,
        _ => FieldType::Unknown,
    }
}

fn match_field_course(k: usize) -> (r: FieldType)
    ensures
        r == kind_course(k),
{
    match k {
        4 => FieldType::Sport,
        5 => FieldType::String,
        6 => FieldType::CourseCapabilities,
        7 => FieldType::SubSport,
        _ => FieldType::Unknown,
    }
}

/// The kinds of the fields of `course_point` messages.
pub open spec fn kind_course_point(k: usize) -> FieldType {
    match k {
        1 => FieldType::Timestamp,
        2 | 3 => FieldType::Coordinates,
        4 => FieldType::Uint32,
        5 => FieldType::CoursePoint,
        6 => FieldType::String,
        8 => FieldType::Bool,
        254 => FieldType::MessageIndex,
        _ => FieldType::Unknown,
    }
}

fn match_field_course_point(k: usize) -> (r: FieldType)
    ensures
        r == kind_course_point(k),
{
    match k {
        1 => FieldType::Timestamp,
        2 | 3 => FieldType::Coordinates,
        4 => FieldType::Uint32,
        5 => FieldType::CoursePoint,
        6 => FieldType::String,
        8 => FieldType::Bool,
        254 => FieldType::MessageIndex,
        _ => FieldType::Unknown,
    }
}

/// The kinds of the fields of `developer_data_id` messages.
pub open spec fn kind_developer_data_id(k: usize) -> FieldType {
    match k {
        0 | 1 => FieldType::Byte,
        2 => FieldType::Manufacturer,
        3 => FieldType::Uint8,
        4 => FieldType::Uint32,
        _ => FieldType::Unknown,
    }
}

fn match_field_developer_data_id(k: usize) -> (r: FieldType)
    ensures
        r == kind_developer_data_id(k),
{
    match k {
        0 | 1 => FieldType::Byte,
        2 => FieldType::Manufacturer,
        3 => FieldType::Uint8,
        4 => FieldType::Uint32,
        _ => FieldType::Unknown,
    }
}

/// The kinds of the fields of `device_aux_battery_info` messages.
pub open spec fn kind_device_aux_battery_info(k: usize) -> FieldType {
    match k {
        0 => FieldType::DeviceIndex,
        1 => FieldType::Uint16,
        2 => FieldType::BatteryStatus,
        3 => FieldType::Uint8,
        253 => FieldType::Timestamp,
        _ => FieldType::Unknown,
    }
}

fn match_field_device_aux_battery_info(k: usize) -> (r: FieldType)
    ensures
        r == kind_device_aux_battery_info(k),
{
    match k {
        0 => FieldType::DeviceIndex,
        1 => FieldType::Uint16,
        2 => FieldType::BatteryStatus,
        3 => FieldType::Uint8,
        253 => FieldType::Timestamp,
        _ => FieldType::Unknown,
    }
}

/// The kinds of the fields of `device_info` messages.
pub open spec fn kind_device_info(k: usize) -> FieldType {
    match k {
        0 => FieldType::DeviceIndex,
        1 | 6 | 32 => FieldType::Uint8,
        2 => FieldType::Manufacturer,
        3 => FieldType::Uint32Z,
        4 | 5 | 10 => FieldType::Uint16,
        7 => FieldType::Uint32,
        11 => FieldType::BatteryStatus,
        18 => FieldType::BodyLocation,
        19 | 27 => FieldType::String,
        20 => FieldType::Uint8Z,
        21 => FieldType::Uint16Z,
        22 => FieldType::AntNetwork,
        25 => FieldType::SourceType,
        253 => FieldType::Timestamp,
        _ => FieldType::Unknown,
    }
}

fn match_field_device_info(k: usize) -> (r: FieldType)
    ensures
        r == kind_device_info(k),
{
    match k {
        0 => FieldType::DeviceIndex,
        1 | 6 | 32 => FieldType::Uint8,
        2 => FieldType::Manufacturer,
        3 => FieldType::Uint32Z,
        4 | 5 | 10 => FieldType::Uint16,
        7 => FieldType::Uint32,
        11 => FieldType::BatteryStatus,
        18 => FieldType::BodyLocation,
        19 | 27 => FieldType::String,
        20 => FieldType::Uint8Z,
        21 => FieldType::Uint16Z,
        22 => FieldType::AntNetwork,
        25 => FieldType::SourceType,
        253 => FieldType::Timestamp,
        _ => FieldType::Unknown,
    }
}

/// The kinds of the fields of `device_settings` messages.
pub open spec fn kind_device_settings(k: usize) -> FieldType {
    match k {
        0 | 94 => FieldType::Uint8,
        1 | 2 => FieldType::Uint32,
        4 => FieldType::TimeMode,
        5 => FieldType::Sint8,
        12 => FieldType::BacklightMode,
        36 | 46 | 80 | 86 => FieldType::Bool,
        39 => FieldType::DateTime,
        40 | 57 | 58 | 59 => FieldType::Uint16,
        47 => FieldType::DateMode,
        55 | 95 => FieldType::DisplayOrientation,
        56 => FieldType::Side,
        89 => FieldType::AutoSyncFrequency,
        90 => FieldType::AutoActivityDetect,
        134 => FieldType::Switch,
        174 => FieldType::TapSensitivity,
        _ => FieldType::Unknown,
    }
}

fn match_field_device_settings(k: usize) -> (r: FieldType)
    ensures
        r == kind_device_settings(k),
{
    match k {
        0 | 94 => FieldType::Uint8,
        1 | 2 => FieldType::Uint32,
        4 => FieldType::TimeMode,
        5 => FieldType::Sint8,
        12 => FieldType::BacklightMode,
        36 | 46 | 80 | 86 => FieldType::Bool,
        39 => FieldType::DateTime,
        40 | 57 | 58 | 59 => FieldType::Uint16,
        47 => FieldType::DateMode,
        55 | 95 => FieldType::DisplayOrientation,
        56 => FieldType::Side,
        89 => FieldType::AutoSyncFrequency,
        90 => FieldType::AutoActivityDetect,
        134 => FieldType::Switch,
        174 => FieldType::TapSensitivity,
        _ => FieldType::Unknown,
    }
}

/// The kinds of the fields of `dive_alarm` messages.
pub open spec fn kind_dive_alarm(k: usize) -> FieldType {
    match k {
        0 => FieldType::Uint32,
        1 => FieldType::Sint32,
        2 => FieldType::Bool,
        3 => FieldType::DiveAlarmType,
        4 => FieldType::Tone,
        5 => FieldType::SubSport,
        254 => FieldType::MessageIndex,
        _ => FieldType::Unknown,
    }
}

fn match_field_dive_alarm(k: usize) -> (r: FieldType)
    ensures
        r == kind_dive_alarm(k),
{
    match k {
        0 => FieldType::Uint32,
        1 => FieldType::Sint32,
        2 => FieldType::Bool,
        3 => FieldType::DiveAlarmType,
        4 => FieldType::Tone,
        5 => FieldType::SubSport,
        254 => FieldType::MessageIndex,
        _ => FieldType::Unknown,
    }
}

/// The kinds of the fields of `dive_gas` messages.
pub open spec fn kind_dive_gas(k: usize) -> FieldType {
    match k {
        0 | 1 => FieldType::Uint8,
        2 => FieldType::DiveGasStatus,
        254 => FieldType::MessageIndex,
        _ => FieldType::Unknown,
    }
}

fn match_field_dive_gas(k: usize) -> (r: FieldType)
    ensures
        r == kind_dive_gas(k),
{
    match k {
        0 | 1 => FieldType::Uint8,
        2 => FieldType::DiveGasStatus,
        254 => FieldType::MessageIndex,
        _ => FieldType::Unknown,
    }
}

/// The kinds of the fields of `dive_settings` messages.
pub open spec fn kind_dive_settings(k: usize) -> FieldType {
    match k {
        0 => FieldType::String,
        1 => FieldType::TissueModelType,
        2 | 3 | 6 | 7 | 8 | 15 | 20 => FieldType::Uint8,
        4 => FieldType::WaterType,
        5 | 10 => FieldType::Float32,
        9 | 12 => FieldType::Bool,
        11 | 13 => FieldType::Uint32,
        14 => FieldType::DiveBacklightMode,
        16 => FieldType::BacklightTimeout,
        17 | 18 => FieldType::Uint16,
        19 => FieldType::SourceType,
        254 => FieldType::MessageIndex,
        _ => FieldType::Unknown,
    }
}

fn match_field_dive_settings(k: usize) -> (r: FieldType)
    ensures
        r == kind_dive_settings(k),
{
    match k {
        0 => FieldType::String,
        1 => FieldType::TissueModelType,
        2 | 3 | 6 | 7 | 8 | 15 | 20 => FieldType::Uint8,
        4 => FieldType::WaterType,
        5 | 10 => FieldType::Float32,
        9 | 12 => FieldType::Bool,
        11 | 13 => FieldType::Uint32,
        14 => FieldType::DiveBacklightMode,
        16 => FieldType::BacklightTimeout,
        17 | 18 => FieldType::Uint16,
        19 => FieldType::SourceType,
        254 => FieldType::MessageIndex,
        _ => FieldType::Unknown,
    }
}

/// The kinds of the fields of `dive_summary` messages.
pub open spec fn kind_dive_summary(k: usize) -> FieldType {
    match k {
        0 => FieldType::MesgNum,
        1 => FieldType::MessageIndex,
        2 | 3 | 4 | 10 | 11 | 22 | 23 | 24 | 25 => FieldType::Uint32,
        5 | 6 => FieldType::Uint8,
        7 | 8 | 9 => FieldType::Uint16,
        17 => FieldType::Sint32,
        253 => FieldType::Timestamp,
        _ => FieldType::Unknown,
    }
}

fn match_field_dive_summary(k: usize) -> (r: FieldType)
    ensures
        r == kind_dive_summary(k),
{
    match k {
        0 => FieldType::MesgNum,
        1 => FieldType::MessageIndex,
        2 | 3 | 4 | 10 | 11 | 22 | 23 | 24 | 25 => FieldType::Uint32,
        5 | 6 => FieldType::Uint8,
        7 | 8 | 9 => FieldType::Uint16,
        17 => FieldType::Sint32,
        253 => FieldType::Timestamp,
        _ => FieldType::Unknown,
    }
}

/// The kinds of the fields of `event` messages.
pub open spec fn kind_event(k: usize) -> FieldType {
    match k {
        0 => FieldType::Event,
        1 => FieldType::EventType,
        2 | 7 | 8 => FieldType::Uint16,
        3 => FieldType::Uint32,
        4 | 22 | 23 | 24 => FieldType::Uint8,
        9 | 10 | 11 | 12 => FieldType::Uint8Z,
        13 => FieldType::DeviceIndex,
        21 => FieldType::RadarThreatLevelType,
        253 => FieldType::Timestamp,
        _ => FieldType::Unknown,
    }
}

fn match_field_event(k: usize) -> (r: FieldType)
    ensures
        r == kind_event(k),
{
    match k {
        0 => FieldType::Event,
        1 => FieldType::EventType,
        2 | 7 | 8 => FieldType::Uint16,
        3 => FieldType::Uint32,
        4 | 22 | 23 | 24 => FieldType::Uint8,
        9 | 10 | 11 | 12 => FieldType::Uint8Z,
        13 => FieldType::DeviceIndex,
        21 => FieldType::RadarThreatLevelType,
        253 => FieldType::Timestamp,
        _ => FieldType::Unknown,
    }
}

/// The kinds of the fields of `exd_data_concept_configuration` messages.
pub open spec fn kind_exd_data_concept_configuration(k: usize) -> FieldType {
    match k {
        0 | 2 | 3 | 4 | 5 | 6 => FieldType::Uint8,
        1 => FieldType::Byte,
        8 => FieldType::ExdDataUnits,
        9 => FieldType::ExdQualifiers,
        10 => FieldType::ExdDescriptors,
        11 => FieldType::Bool,
        _ => FieldType::Unknown,
    }
}

fn match_field_exd_data_concept_configuration(k: usize) -> (r: FieldType)
    ensures
        r == kind_exd_data_concept_configuration(k),
{
    match k {
        0 | 2 | 3 | 4 | 5 | 6 => FieldType::Uint8,
        1 => FieldType::Byte,
        8 => FieldType::ExdDataUnits,
        9 => FieldType::ExdQualifiers,
        10 => FieldType::ExdDescriptors,
        11 => FieldType::Bool,
        _ => FieldType::Unknown,
    }
}

/// The kinds of the fields of `exd_data_field_configuration` messages.
pub open spec fn kind_exd_data_field_configuration(k: usize) -> FieldType {
    match k {
        0 | 2 | 3 => FieldType::Uint8,
        1 => FieldType::Byte,
        4 => FieldType::ExdDisplayType,
        5 => FieldType::String,
        _ => FieldType::Unknown,
    }
}

fn match_field_exd_data_field_configuration(k: usize) -> (r: FieldType)
    ensures
        r == kind_exd_data_field_configuration(k),
{
    match k {
        0 | 2 | 3 => FieldType::Uint8,
        1 => FieldType::Byte,
        4 => FieldType::ExdDisplayType,
        5 => FieldType::String,
        _ => FieldType::Unknown,
    }
}

/// The kinds of the fields of `exd_screen_configuration` messages.
pub open spec fn kind_exd_screen_configuration(k: usize) -> FieldType {
    match k {
        0 | 1 => FieldType::Uint8,
        2 => FieldType::ExdLayout,
        3 => FieldType::Bool,
        _ => FieldType::Unknown,
    }
}

fn match_field_exd_screen_configuration(k: usize) -> (r: FieldType)
    ensures
        r == kind_exd_screen_configuration(k),
{
    match k {
        0 | 1 => FieldType::Uint8,
        2 => FieldType::ExdLayout,
        3 => FieldType::Bool,
        _ => FieldType::Unknown,
    }
}

/// The kinds of the fields of `exercise_title` messages.
pub open spec fn kind_exercise_title(k: usize) -> FieldType {
    match k {
        0 => FieldType::ExerciseCategory,
        1 => FieldType::Uint16,
        2 => FieldType::String,
        254 => FieldType::MessageIndex,
        _ => FieldType::Unknown,
    }
}

fn match_field_exercise_title(k: usize) -> (r: FieldType)
    ensures
        r == kind_exercise_title(k),
{
    match k {
        0 => FieldType::ExerciseCategory,
        1 => FieldType::Uint16,
        2 => FieldType::String,
        254 => FieldType::MessageIndex,
        _ => FieldType::Unknown,
    }
}

/// The kinds of the fields of `field_capabilities` messages.
pub open spec fn kind_field_capabilities(k: usize) -> FieldType {
    match k {
        0 => FieldType::File,
        1 => FieldType::MesgNum,
        2 => FieldType::Uint8,
        3 => FieldType::Uint16,
        254 => FieldType::MessageIndex,
        _ => FieldType::Unknown,
    }
}

fn match_field_field_capabilities(k: usize) -> (r: FieldType)
    ensures
        r == kind_field_capabilities(k),
{
    match k {
        0 => FieldType::File,
        1 => FieldType::MesgNum,
        2 => FieldType::Uint8,
        3 => FieldType::Uint16,
        254 => FieldType::MessageIndex,
        _ => FieldType::Unknown,
    }
}

/// The kinds of the fields of `field_description` messages.
pub open spec fn kind_field_description(k: usize) -> FieldType {
    match k {
        0 | 1 | 4 | 6 | 15 => FieldType::Uint8,
        2 => FieldType::FitBaseType,
        3 | 5 | 8 | 9 | 10 => FieldType::String,
        7 => FieldType::Sint8,
        13 => FieldType::FitBaseUnit,
        14 => FieldType::MesgNum,
        _ => FieldType::Unknown,
    }
}

fn match_field_field_description(k: usize) -> (r: FieldType)
    ensures
        r == kind_field_description(k),
{
    match k {
        0 | 1 | 4 | 6 | 15 => FieldType::Uint8,
        2 => FieldType::FitBaseType,
        3 | 5 | 8 | 9 | 10 => FieldType::String,
        7 => FieldType::Sint8,
        13 => FieldType::FitBaseUnit,
        14 => FieldType::MesgNum,
        _ => FieldType::Unknown,
    }
}

/// The kinds of the fields of `file_capabilities` messages.
pub open spec fn kind_file_capabilities(k: usize) -> FieldType {
    match k {
        0 => FieldType::File,
        1 => FieldType::FileFlags,
        2 => FieldType::String,
        3 => FieldType::Uint16,
        4 => FieldType::Uint32,
        254 => FieldType::MessageIndex,
        _ => FieldType::Unknown,
    }
}

fn match_field_file_capabilities(k: usize) -> (r: FieldType)
    ensures
        r == kind_file_capabilities(k),
{
    match k {
        0 => FieldType::File,
        1 => FieldType::FileFlags,
        2 => FieldType::String,
        3 => FieldType::Uint16,
        4 => FieldType::Uint32,
        254 => FieldType::MessageIndex,
        _ => FieldType::Unknown,
    }
}

/// The kinds of the fields of `file_creator` messages.
pub open spec fn kind_file_creator(k: usize) -> FieldType {
    match k {
        0 => FieldType::Uint16,
        1 => FieldType::Uint8,
        _ => FieldType::Unknown,
    }
}

fn match_field_file_creator(k: usize) -> (r: FieldType)
    ensures
        r == kind_file_creator(k),
{
    match k {
        0 => FieldType::Uint16,
        1 => FieldType::Uint8,
        _ => FieldType::Unknown,
    }
}

/// The kinds of the fields of `file_id` messages.
pub open spec fn kind_file_id(k: usize) -> FieldType {
    match k {
        0 => FieldType::File,
        1 => FieldType::Manufacturer,
        2 | 5 => FieldType::Uint16,
        3 => FieldType::Uint32Z,
        4 => FieldType::DateTime,
        8 => FieldType::String,
        _ => FieldType::Unknown,
    }
}

fn match_field_file_id(k: usize) -> (r: FieldType)
    ensures
        r == kind_file_id(k),
{
    match k {
        0 => FieldType::File,
        1 => FieldType::Manufacturer,
        2 | 5 => FieldType::Uint16,
        3 => FieldType::Uint32Z,
        4 => FieldType::DateTime,
        8 => FieldType::String,
        _ => FieldType::Unknown,
    }
}

/// The kinds of the fields of `goal` messages.
pub open spec fn kind_goal(k: usize) -> FieldType {
    match k {
        0 => FieldType::Sport,
        1 => FieldType::SubSport,
        2 | 3 => FieldType::DateTime,
        4 => FieldType::Goal,
        5 | 7 => FieldType::Uint32,
        6 | 10 => FieldType::Bool,
        8 => FieldType::GoalRecurrence,
        9 => FieldType::Uint16,
        11 => FieldType::GoalSource,
        254 => FieldType::MessageIndex,
        _ => FieldType::Unknown,
    }
}

fn match_field_goal(k: usize) -> (r: FieldType)
    ensures
        r == kind_goal(k),
{
    match k {
        0 => FieldType::Sport,
        1 => FieldType::SubSport,
        2 | 3 => FieldType::DateTime,
        4 => FieldType::Goal,
        5 | 7 => FieldType::Uint32,
        6 | 10 => FieldType::Bool,
        8 => FieldType::GoalRecurrence,
        9 => FieldType::Uint16,
        11 => FieldType::GoalSource,
        254 => FieldType::MessageIndex,
        _ => FieldType::Unknown,
    }
}

/// The kinds of the fields of `gps_metadata` messages.
pub open spec fn kind_gps_metadata(k: usize) -> FieldType {
    match k {
        0 | 5 => FieldType::Uint16,
        1 | 2 => FieldType::Coordinates,
        3 | 4 => FieldType::Uint32,
        6 | 253 => FieldType::Timestamp,
        7 => FieldType::Sint16,
        _ => FieldType::Unknown,
    }
}

fn match_field_gps_metadata(k: usize) -> (r: FieldType)
    ensures
        r == kind_gps_metadata(k),
{
    match k {
        0 | 5 => FieldType::Uint16,
        1 | 2 => FieldType::Coordinates,
        3 | 4 => FieldType::Uint32,
        6 | 253 => FieldType::Timestamp,
        7 => FieldType::Sint16,
        _ => FieldType::Unknown,
    }
}

/// The kinds of the fields of `gyroscope_data` messages.
pub open spec fn kind_gyroscope_data(k: usize) -> FieldType {
    match k {
        0 | 1 | 2 | 3 | 4 => FieldType::Uint16,
        5 | 6 | 7 => FieldType::Float32,
        253 => FieldType::Timestamp,
        _ => FieldType::Unknown,
    }
}

fn match_field_gyroscope_data(k: usize) -> (r: FieldType)
    ensures
        r == kind_gyroscope_data(k),
{
    match k {
        0 | 1 | 2 | 3 | 4 => FieldType::Uint16,
        5 | 6 | 7 => FieldType::Float32,
        253 => FieldType::Timestamp,
        _ => FieldType::Unknown,
    }
}

/// The kinds of the fields of `hr` messages.
pub open spec fn kind_hr(k: usize) -> FieldType {
    match k {
        0 | 9 | 253 => FieldType::Timestamp,
        1 | 6 => FieldType::Uint8,
        10 => FieldType::Byte,
        _ => FieldType::Unknown,
    }
}

fn match_field_hr(k: usize) -> (r: FieldType)
    ensures
        r == kind_hr(k),
{
    match k {
        0 | 9 | 253 => FieldType::Timestamp,
        1 | 6 => FieldType::Uint8,
        10 => FieldType::Byte,
        _ => FieldType::Unknown,
    }
}

/// The kinds of the fields of `hr_zone` messages.
pub open spec fn kind_hr_zone(k: usize) -> FieldType {
    match k {
        1 => FieldType::Uint8,
        2 => FieldType::String,
        254 => FieldType::MessageIndex,
        _ => FieldType::Unknown,
    }
}

fn match_field_hr_zone(k: usize) -> (r: FieldType)
    ensures
        r == kind_hr_zone(k),
{
    match k {
        1 => FieldType::Uint8,
        2 => FieldType::String,
        254 => FieldType::MessageIndex,
        _ => FieldType::Unknown,
    }
}

/// The kinds of the fields of `hrm_profile` messages.
pub open spec fn kind_hrm_profile(k: usize) -> FieldType {
    match k {
        0 | 2 => FieldType::Bool,
        1 => FieldType::Uint16Z,
        3 => FieldType::Uint8Z,
        254 => FieldType::MessageIndex,
        _ => FieldType::Unknown,
    }
}

fn match_field_hrm_profile(k: usize) -> (r: FieldType)
    ensures
        r == kind_hrm_profile(k),
{
    match k {
        0 | 2 => FieldType::Bool,
        1 => FieldType::Uint16Z,
        3 => FieldType::Uint8Z,
        254 => FieldType::MessageIndex,
        _ => FieldType::Unknown,
    }
}

/// The kinds of the fields of `hrv` messages.
pub open spec fn kind_hrv(k: usize) -> FieldType {
    match k {
        0 => FieldType::Uint16,
        _ => FieldType::Unknown,
    }
}

fn match_field_hrv(k: usize) -> (r: FieldType)
    ensures
        r == kind_hrv(k),
{
    match k {
        0 => FieldType::Uint16,
        _ => FieldType::Unknown,
    }
}

/// The kinds of the fields of `jump` messages.
pub open spec fn kind_jump(k: usize) -> FieldType {
    match k {
        0 | 1 | 3 | 4 => FieldType::Float32,
        2 => FieldType::Uint8,
        5 | 6 => FieldType::Coordinates,
        7 => FieldType::Uint16,
        8 => FieldType::Uint32,
        253 => FieldType::Timestamp,
        _ => FieldType::Unknown,
    }
}

fn match_field_jump(k: usize) -> (r: FieldType)
    ensures
        r == kind_jump(k),
{
    match k {
        0 | 1 | 3 | 4 => FieldType::Float32,
        2 => FieldType::Uint8,
        5 | 6 => FieldType::Coordinates,
        7 => FieldType::Uint16,
        8 => FieldType::Uint32,
        253 => FieldType::Timestamp,
        _ => FieldType::Unknown,
    }
}

/// The kinds of the fields of `lap` messages.
pub open spec fn kind_lap(k: usize) -> FieldType {
    match k {
        0 => FieldType::Event,
        1 => FieldType::EventType,
        2 => FieldType::DateTime,
        3 | 4 | 5 | 6 => FieldType::Coordinates,
        7 | 8 | 9 | 10 | 41 | 52 | 57 | 58 | 59 | 60 | 98 | 110 | 111 | 112 | 113 | 114 =>
            FieldType::Uint32,
        11 | 12 | 13 | 14 | 19 | 20 | 21 | 22 | 32 | 33 | 35 | 37 | 40 | 42 | 43 | 61 | 62 | 74
        | 75 | 76 | 77 | 78 | 79 | 83 | 84 | 85 | 86 | 87 | 88 | 89 | 99 | 106 | 107 | 115
        | 116 | 118 | 119 | 120 | 121 | 151 | 158 | 159 | 160 => FieldType::Uint16,
        15 | 16 | 17 | 18 | 26 | 44 | 63 | 80 | 81 | 82 | 91 | 92 | 93 | 94 | 95 | 102 | 103
        | 104 | 105 | 108 | 109 | 117 | 156 | 157 => FieldType::Uint8,
        23 => FieldType::Intensity,
        24 => FieldType::LapTrigger,
        25 => FieldType::Sport,
        34 => FieldType::LeftRightBalance100,
        38 => FieldType::SwimStroke,
        39 => FieldType::SubSport,
        45 | 46 | 47 | 48 | 49 | 53 | 54 | 55 | 56 => FieldType::Sint16,
        50 | 51 | 100 | 101 => FieldType::Sint8,
        71 | 254 => FieldType::MessageIndex,
        149 | 150 | 153 | 154 => FieldType::Float32,
        253 => FieldType::Timestamp,
        _ => FieldType::Unknown,
    }
}

fn match_field_lap(k: usize) -> (r: FieldType)
    ensures
        r == kind_lap(k),
{
    match k {
        0 => FieldType::Event,
        1 => FieldType::EventType,
        2 => FieldType::DateTime,
        3 | 4 | 5 | 6 => FieldType::Coordinates,
        7 | 8 | 9 | 10 | 41 | 52 | 57 | 58 | 59 | 60 | 98 | 110 | 111 | 112 | 113 | 114 =>
            FieldType::Uint32,
        11 | 12 | 13 | 14 | 19 | 20 | 21 | 22 | 32 | 33 | 35 | 37 | 40 | 42 | 43 | 61 | 62 | 74
        | 75 | 76 | 77 | 78 | 79 | 83 | 84 | 85 | 86 | 87 | 88 | 89 | 99 | 106 | 107 | 115
        | 116 | 118 | 119 | 120 | 121 | 151 | 158 | 159 | 160 => FieldType::Uint16,
        15 | 16 | 17 | 18 | 26 | 44 | 63 | 80 | 81 | 82 | 91 | 92 | 93 | 94 | 95 | 102 | 103
        | 104 | 105 | 108 | 109 | 117 | 156 | 157 => FieldType::Uint8,
        23 => FieldType::Intensity,
        24 => FieldType::LapTrigger,
        25 => FieldType::Sport,
        34 => FieldType::LeftRightBalance100,
        38 => FieldType::SwimStroke,
        39 => FieldType::SubSport,
        45 | 46 | 47 | 48 | 49 | 53 | 54 | 55 | 56 => FieldType::Sint16,
        50 | 51 | 100 | 101 => FieldType::Sint8,
        71 | 254 => FieldType::MessageIndex,
        149 | 150 | 153 | 154 => FieldType::Float32,
        253 => FieldType::Timestamp,
        _ => FieldType::Unknown,
    }
}

/// The kinds of the fields of `length` messages.
pub open spec fn kind_length(k: usize) -> FieldType {
    match k {
        0 => FieldType::Event,
        1 => FieldType::EventType,
        2 => FieldType::DateTime,
        3 | 4 => FieldType::Uint32,
        5 | 6 | 11 | 18 | 19 | 20 | 21 => FieldType::Uint16,
        7 => FieldType::SwimStroke,
        9 | 10 => FieldType::Uint8,
        12 => FieldType::LengthType,
        253 => FieldType::Timestamp,
        254 => FieldType::MessageIndex,
        _ => FieldType::Unknown,
    }
}

fn match_field_length(k: usize) -> (r: FieldType)
    ensures
        r == kind_length(k),
{
    match k {
        0 => FieldType::Event,
        1 => FieldType::EventType,
        2 => FieldType::DateTime,
        3 | 4 => FieldType::Uint32,
        5 | 6 | 11 | 18 | 19 | 20 | 21 => FieldType::Uint16,
        7 => FieldType::SwimStroke,
        9 | 10 => FieldType::Uint8,
        12 => FieldType::LengthType,
        253 => FieldType::Timestamp,
        254 => FieldType::MessageIndex,
        _ => FieldType::Unknown,
    }
}

/// The kinds of the fields of `magnetometer_data` messages.
pub open spec fn kind_magnetometer_data(k: usize) -> FieldType {
    match k {
        0 | 1 | 2 | 3 | 4 => FieldType::Uint16,
        5 | 6 | 7 => FieldType::Float32,
        253 => FieldType::Timestamp,
        _ => FieldType::Unknown,
    }
}

fn match_field_magnetometer_data(k: usize) -> (r: FieldType)
    ensures
        r == kind_magnetometer_data(k),
{
    match k {
        0 | 1 | 2 | 3 | 4 => FieldType::Uint16,
        5 | 6 | 7 => FieldType::Float32,
        253 => FieldType::Timestamp,
        _ => FieldType::Unknown,
    }
}

/// The kinds of the fields of `memo_glob` messages.
pub open spec fn kind_memo_glob(k: usize) -> FieldType {
    match k {
        0 => FieldType::Byte,
        1 => FieldType::Uint16,
        2 => FieldType::MessageIndex,
        250 => FieldType::Uint32,
        _ => FieldType::Unknown,
    }
}

fn match_field_memo_glob(k: usize) -> (r: FieldType)
    ensures
        r == kind_memo_glob(k),
{
    match k {
        0 => FieldType::Byte,
        1 => FieldType::Uint16,
        2 => FieldType::MessageIndex,
        250 => FieldType::Uint32,
        _ => FieldType::Unknown,
    }
}

/// The kinds of the fields of `mesg_capabilities` messages.
pub open spec fn kind_mesg_capabilities(k: usize) -> FieldType {
    match k {
        0 => FieldType::File,
        1 => FieldType::MesgNum,
        2 => FieldType::MesgCount,
        3 => FieldType::Uint16,
        254 => FieldType::MessageIndex,
        _ => FieldType::Unknown,
    }
}

fn match_field_mesg_capabilities(k: usize) -> (r: FieldType)
    ensures
        r == kind_mesg_capabilities(k),
{
    match k {
        0 => FieldType::File,
        1 => FieldType::MesgNum,
        2 => FieldType::MesgCount,
        3 => FieldType::Uint16,
        254 => FieldType::MessageIndex,
        _ => FieldType::Unknown,
    }
}

/// The kinds of the fields of `met_zone` messages.
pub open spec fn kind_met_zone(k: usize) -> FieldType {
    match k {
        1 | 3 => FieldType::Uint8,
        2 => FieldType::Uint16,
        254 => FieldType::MessageIndex,
        _ => FieldType::Unknown,
    }
}

fn match_field_met_zone(k: usize) -> (r: FieldType)
    ensures
        r == kind_met_zone(k),
{
    match k {
        1 | 3 => FieldType::Uint8,
        2 => FieldType::Uint16,
        254 => FieldType::MessageIndex,
        _ => FieldType::Unknown,
    }
}

/// The kinds of the fields of `monitoring` messages.
pub open spec fn kind_monitoring(k: usize) -> FieldType {
    match k {
        0 => FieldType::DeviceIndex,
        1 | 8 | 9 | 10 | 16 | 19 | 26 | 29 | 33 | 34 => FieldType::Uint16,
        2 | 3 | 4 | 30 | 31 | 32 => FieldType::Uint32,
        5 => FieldType::ActivityType,
        6 => FieldType::ActivitySubtype,
        7 => FieldType::ActivityLevel,
        11 | 253 => FieldType::Timestamp,
        12 | 14 | 15 => FieldType::Sint16,
        24 => FieldType::Byte,
        25 | 27 | 28 => FieldType::Uint8,
        _ => FieldType::Unknown,
    }
}

fn match_field_monitoring(k: usize) -> (r: FieldType)
    ensures
        r == kind_monitoring(k),
{
    match k {
        0 => FieldType::DeviceIndex,
        1 | 8 | 9 | 10 | 16 | 19 | 26 | 29 | 33 | 34 => FieldType::Uint16,
        2 | 3 | 4 | 30 | 31 | 32 => FieldType::Uint32,
        5 => FieldType::ActivityType,
        6 => FieldType::ActivitySubtype,
        7 => FieldType::ActivityLevel,
        11 | 253 => FieldType::Timestamp,
        12 | 14 | 15 => FieldType::Sint16,
        24 => FieldType::Byte,
        25 | 27 | 28 => FieldType::Uint8,
        _ => FieldType::Unknown,
    }
}

/// The kinds of the fields of `monitoring_info` messages.
pub open spec fn kind_monitoring_info(k: usize) -> FieldType {
    match k {
        0 | 253 => FieldType::Timestamp,
        1 => FieldType::ActivityType,
        3 | 4 | 5 => FieldType::Uint16,
        _ => FieldType::Unknown,
    }
}

fn match_field_monitoring_info(k: usize) -> (r: FieldType)
    ensures
        r == kind_monitoring_info(k),
{
    match k {
        0 | 253 => FieldType::Timestamp,
        1 => FieldType::ActivityType,
        3 | 4 | 5 => FieldType::Uint16,
        _ => FieldType::Unknown,
    }
}

/// The kinds of the fields of `nmea_sentence` messages.
pub open spec fn kind_nmea_sentence(k: usize) -> FieldType {
    match k {
        0 => FieldType::Uint16,
        1 => FieldType::String,
        253 => FieldType::Timestamp,
        _ => FieldType::Unknown,
    }
}

fn match_field_nmea_sentence(k: usize) -> (r: FieldType)
    ensures
        r == kind_nmea_sentence(k),
{
    match k {
        0 => FieldType::Uint16,
        1 => FieldType::String,
        253 => FieldType::Timestamp,
        _ => FieldType::Unknown,
    }
}

/// The kinds of the fields of `obdii_data` messages.
pub open spec fn kind_obdii_data(k: usize) -> FieldType {
    match k {
        0 | 1 | 7 => FieldType::Uint16,
        2 | 3 => FieldType::Byte,
        4 => FieldType::Uint8,
        5 => FieldType::Uint32,
        6 | 253 => FieldType::Timestamp,
        _ => FieldType::Unknown,
    }
}

fn match_field_obdii_data(k: usize) -> (r: FieldType)
    ensures
        r == kind_obdii_data(k),
{
    match k {
        0 | 1 | 7 => FieldType::Uint16,
        2 | 3 => FieldType::Byte,
        4 => FieldType::Uint8,
        5 => FieldType::Uint32,
        6 | 253 => FieldType::Timestamp,
        _ => FieldType::Unknown,
    }
}

/// The kinds of the fields of `ohr_settings` messages.
pub open spec fn kind_ohr_settings(k: usize) -> FieldType {
    match k {
        0 => FieldType::Switch,
        253 => FieldType::Timestamp,
        _ => FieldType::Unknown,
    }
}

fn match_field_ohr_settings(k: usize) -> (r: FieldType)
    ensures
        r == kind_ohr_settings(k),
{
    match k {
        0 => FieldType::Switch,
        253 => FieldType::Timestamp,
        _ => FieldType::Unknown,
    }
}

/// The kinds of the fields of `one_d_sensor_calibration` messages.
pub open spec fn kind_one_d_sensor_calibration(k: usize) -> FieldType {
    match k {
        0 => FieldType::SensorType,
        1 | 2 | 3 => FieldType::Uint32,
        4 => FieldType::Sint32,
        253 => FieldType::Timestamp,
        _ => FieldType::Unknown,
    }
}

fn match_field_one_d_sensor_calibration(k: usize) -> (r: FieldType)
    ensures
        r == kind_one_d_sensor_calibration(k),
{
    match k {
        0 => FieldType::SensorType,
        1 | 2 | 3 => FieldType::Uint32,
        4 => FieldType::Sint32,
        253 => FieldType::Timestamp,
        _ => FieldType::Unknown,
    }
}

/// The kinds of the fields of `power_zone` messages.
pub open spec fn kind_power_zone(k: usize) -> FieldType {
    match k {
        1 => FieldType::Uint16,
        2 => FieldType::String,
        254 => FieldType::MessageIndex,
        _ => FieldType::Unknown,
    }
}

fn match_field_power_zone(k: usize) -> (r: FieldType)
    ensures
        r == kind_power_zone(k),
{
    match k {
        1 => FieldType::Uint16,
        2 => FieldType::String,
        254 => FieldType::MessageIndex,
        _ => FieldType::Unknown,
    }
}

/// The kinds of the fields of `record` messages.
pub open spec fn kind_record(k: usize) -> FieldType {
    match k {
        0 | 1 => FieldType::Coordinates,
        2 | 6 | 7 | 28 | 33 | 39 | 40 | 41 | 51 | 52 | 54 | 55 | 56 | 57 | 58 | 59 | 82 | 83
        | 84 | 85 | 98 | 117 | 139 => FieldType::Uint16,
        3 | 4 | 10 | 12 | 17 | 18 | 31 | 43 | 44 | 45 | 46 | 47 | 48 | 50 | 53 | 69 | 70 | 71
        | 72 | 81 | 97 | 118 | 119 | 120 => FieldType::Uint8,
        5 | 19 | 29 | 73 | 78 | 91 | 92 | 93 | 94 | 95 | 96 => FieldType::Uint32,
        8 => FieldType::Byte,
        9 | 32 => FieldType::Sint16,
        11 => FieldType::Sint32,
        13 | 67 | 68 => FieldType::Sint8,
        30 => FieldType::LeftRightBalance,
        42 => FieldType::ActivityType,
        49 => FieldType::StrokeType,
        62 => FieldType::DeviceIndex,
        114 | 115 => FieldType::Float32,
        253 => FieldType::Timestamp,
        _ => FieldType::Unknown,
    }
}

fn match_field_record(k: usize) -> (r: FieldType)
    ensures
        r == kind_record(k),
{
    match k {
        0 | 1 => FieldType::Coordinates,
        2 | 6 | 7 | 28 | 33 | 39 | 40 | 41 | 51 | 52 | 54 | 55 | 56 | 57 | 58 | 59 | 82 | 83
        | 84 | 85 | 98 | 117 | 139 => FieldType::Uint16,
        3 | 4 | 10 | 12 | 17 | 18 | 31 | 43 | 44 | 45 | 46 | 47 | 48 | 50 | 53 | 69 | 70 | 71
        | 72 | 81 | 97 | 118 | 119 | 120 => FieldType::Uint8,
        5 | 19 | 29 | 73 | 78 | 91 | 92 | 93 | 94 | 95 | 96 => FieldType::Uint32,
        8 => FieldType::Byte,
        9 | 32 => FieldType::Sint16,
        11 => FieldType::Sint32,
        13 | 67 | 68 => FieldType::Sint8,
        30 => FieldType::LeftRightBalance,
        42 => FieldType::ActivityType,
        49 => FieldType::StrokeType,
        62 => FieldType::DeviceIndex,
        114 | 115 => FieldType::Float32,
        253 => FieldType::Timestamp,
        _ => FieldType::Unknown,
    }
}

/// The kinds of the fields of `schedule` messages.
pub open spec fn kind_schedule(k: usize) -> FieldType {
    match k {
        0 => FieldType::Manufacturer,
        1 => FieldType::Uint16,
        2 => FieldType::Uint32Z,
        3 => FieldType::DateTime,
        4 => FieldType::Bool,
        5 => FieldType::Schedule,
        6 => FieldType::LocalDateTime,
        _ => FieldType::Unknown,
    }
}

fn match_field_schedule(k: usize) -> (r: FieldType)
    ensures
        r == kind_schedule(k),
{
    match k {
        0 => FieldType::Manufacturer,
        1 => FieldType::Uint16,
        2 => FieldType::Uint32Z,
        3 => FieldType::DateTime,
        4 => FieldType::Bool,
        5 => FieldType::Schedule,
        6 => FieldType::LocalDateTime,
        _ => FieldType::Unknown,
    }
}

/// The kinds of the fields of `sdm_profile` messages.
pub open spec fn kind_sdm_profile(k: usize) -> FieldType {
    match k {
        0 | 4 => FieldType::Bool,
        1 => FieldType::Uint16Z,
        2 => FieldType::Uint16,
        3 => FieldType::Uint32,
        5 => FieldType::Uint8Z,
        7 => FieldType::Uint8,
        254 => FieldType::MessageIndex,
        _ => FieldType::Unknown,
    }
}

fn match_field_sdm_profile(k: usize) -> (r: FieldType)
    ensures
        r == kind_sdm_profile(k),
{
    match k {
        0 | 4 => FieldType::Bool,
        1 => FieldType::Uint16Z,
        2 => FieldType::Uint16,
        3 => FieldType::Uint32,
        5 => FieldType::Uint8Z,
        7 => FieldType::Uint8,
        254 => FieldType::MessageIndex,
        _ => FieldType::Unknown,
    }
}

/// The kinds of the fields of `segment_file` messages.
pub open spec fn kind_segment_file(k: usize) -> FieldType {
    match k {
        1 | 10 => FieldType::String,
        3 => FieldType::Bool,
        4 | 8 | 9 => FieldType::Uint32,
        7 => FieldType::SegmentLeaderboardType,
        11 => FieldType::Uint8,
        254 => FieldType::MessageIndex,
        _ => FieldType::Unknown,
    }
}

fn match_field_segment_file(k: usize) -> (r: FieldType)
    ensures
        r == kind_segment_file(k),
{
    match k {
        1 | 10 => FieldType::String,
        3 => FieldType::Bool,
        4 | 8 | 9 => FieldType::Uint32,
        7 => FieldType::SegmentLeaderboardType,
        11 => FieldType::Uint8,
        254 => FieldType::MessageIndex,
        _ => FieldType::Unknown,
    }
}

/// The kinds of the fields of `segment_id` messages.
pub open spec fn kind_segment_id(k: usize) -> FieldType {
    match k {
        0 | 1 => FieldType::String,
        2 => FieldType::Sport,
        3 => FieldType::Bool,
        4 | 5 => FieldType::Uint32,
        6 => FieldType::Uint8,
        7 => FieldType::SegmentDeleteStatus,
        8 => FieldType::SegmentSelectionType,
        _ => FieldType::Unknown,
    }
}

fn match_field_segment_id(k: usize) -> (r: FieldType)
    ensures
        r == kind_segment_id(k),
{
    match k {
        0 | 1 => FieldType::String,
        2 => FieldType::Sport,
        3 => FieldType::Bool,
        4 | 5 => FieldType::Uint32,
        6 => FieldType::Uint8,
        7 => FieldType::SegmentDeleteStatus,
        8 => FieldType::SegmentSelectionType,
        _ => FieldType::Unknown,
    }
}

/// The kinds of the fields of `segment_lap` messages.
pub open spec fn kind_segment_lap(k: usize) -> FieldType {
    match k {
        0 => FieldType::Event,
        1 => FieldType::EventType,
        2 => FieldType::DateTime,
        3 | 4 | 5 | 6 | 25 | 26 | 27 | 28 => FieldType::Coordinates,
        7 | 8 | 9 | 10 | 33 | 44 | 49 | 50 | 51 | 52 | 56 | 71 => FieldType::Uint32,
        11 | 12 | 13 | 14 | 19 | 20 | 21 | 22 | 30 | 34 | 35 | 53 | 54 | 69 | 70 | 72 | 79 | 80 =>
            FieldType::Uint16,
        15 | 16 | 17 | 18 | 24 | 36 | 55 | 59 | 60 | 61 | 62 | 63 | 66 | 67 | 68 | 75 | 76 | 77
        | 78 | 81 | 82 | 89 | 90 => FieldType::Uint8,
        23 => FieldType::Sport,
        29 | 65 => FieldType::String,
        31 => FieldType::LeftRightBalance100,
        32 => FieldType::SubSport,
        37 | 38 | 39 | 40 | 41 | 45 | 46 | 47 | 48 => FieldType::Sint16,
        42 | 43 | 73 | 74 => FieldType::Sint8,
        57 | 254 => FieldType::MessageIndex,
        58 => FieldType::SportEvent,
        64 => FieldType::SegmentLapStatus,
        83 => FieldType::Manufacturer,
        84 | 85 | 86 | 87 => FieldType::Float32,
        253 => FieldType::Timestamp,
        _ => FieldType::Unknown,
    }
}

fn match_field_segment_lap(k: usize) -> (r: FieldType)
    ensures
        r == kind_segment_lap(k),
{
    match k {
        0 => FieldType::Event,
        1 => FieldType::EventType,
        2 => FieldType::DateTime,
        3 | 4 | 5 | 6 | 25 | 26 | 27 | 28 => FieldType::Coordinates,
        7 | 8 | 9 | 10 | 33 | 44 | 49 | 50 | 51 | 52 | 56 | 71 => FieldType::Uint32,
        11 | 12 | 13 | 14 | 19 | 20 | 21 | 22 | 30 | 34 | 35 | 53 | 54 | 69 | 70 | 72 | 79 | 80 =>
            FieldType::Uint16,
        15 | 16 | 17 | 18 | 24 | 36 | 55 | 59 | 60 | 61 | 62 | 63 | 66 | 67 | 68 | 75 | 76 | 77
        | 78 | 81 | 82 | 89 | 90 => FieldType::Uint8,
        23 => FieldType::Sport,
        29 | 65 => FieldType::String,
        31 => FieldType::LeftRightBalance100,
        32 => FieldType::SubSport,
        37 | 38 | 39 | 40 | 41 | 45 | 46 | 47 | 48 => FieldType::Sint16,
        42 | 43 | 73 | 74 => FieldType::Sint8,
        57 | 254 => FieldType::MessageIndex,
        58 => FieldType::SportEvent,
        64 => FieldType::SegmentLapStatus,
        83 => FieldType::Manufacturer,
        84 | 85 | 86 | 87 => FieldType::Float32,
        253 => FieldType::Timestamp,
        _ => FieldType::Unknown,
    }
}

/// The kinds of the fields of `segment_leaderboard_entry` messages.
pub open spec fn kind_segment_leaderboard_entry(k: usize) -> FieldType {
    match k {
        0 | 5 => FieldType::String,
        1 => FieldType::SegmentLeaderboardType,
        2 | 3 | 4 => FieldType::Uint32,
        254 => FieldType::MessageIndex,
        _ => FieldType::Unknown,
    }
}

fn match_field_segment_leaderboard_entry(k: usize) -> (r: FieldType)
    ensures
        r == kind_segment_leaderboard_entry(k),
{
    match k {
        0 | 5 => FieldType::String,
        1 => FieldType::SegmentLeaderboardType,
        2 | 3 | 4 => FieldType::Uint32,
        254 => FieldType::MessageIndex,
        _ => FieldType::Unknown,
    }
}

/// The kinds of the fields of `segment_point` messages.
pub open spec fn kind_segment_point(k: usize) -> FieldType {
    match k {
        1 | 2 => FieldType::Coordinates,
        3 | 5 => FieldType::Uint32,
        4 => FieldType::Uint16,
        254 => FieldType::MessageIndex,
        _ => FieldType::Unknown,
    }
}

fn match_field_segment_point(k: usize) -> (r: FieldType)
    ensures
        r == kind_segment_point(k),
{
    match k {
        1 | 2 => FieldType::Coordinates,
        3 | 5 => FieldType::Uint32,
        4 => FieldType::Uint16,
        254 => FieldType::MessageIndex,
        _ => FieldType::Unknown,
    }
}

/// The kinds of the fields of `session` messages.
pub open spec fn kind_session(k: usize) -> FieldType {
    match k {
        0 => FieldType::Event,
        1 => FieldType::EventType,
        2 => FieldType::DateTime,
        3 | 4 | 29 | 30 | 31 | 32 => FieldType::Coordinates,
        5 => FieldType::Sport,
        6 => FieldType::SubSport,
        7 | 8 | 9 | 10 | 41 | 48 | 59 | 65 | 66 | 67 | 68 | 69 | 112 | 124 | 125 | 126 | 127
        | 128 => FieldType::Uint32,
        11 | 13 | 14 | 15 | 20 | 21 | 22 | 23 | 25 | 26 | 33 | 34 | 35 | 36 | 42 | 44 | 45 | 47
        | 49 | 50 | 70 | 71 | 82 | 83 | 85 | 86 | 87 | 88 | 89 | 90 | 91 | 95 | 96 | 97 | 98
        | 99 | 100 | 113 | 120 | 121 | 129 | 130 | 132 | 133 | 134 | 139 | 183 | 208 | 209
        | 210 => FieldType::Uint16,
        16 | 17 | 18 | 19 | 24 | 27 | 51 | 64 | 92 | 93 | 94 | 101 | 102 | 103 | 104 | 105
        | 111 | 116 | 117 | 118 | 119 | 122 | 123 | 131 | 137 | 199 | 200 => FieldType::Uint8,
        28 => FieldType::SessionTrigger,
        37 => FieldType::LeftRightBalance100,
        43 => FieldType::SwimStroke,
        46 => FieldType::DisplayMeasure,
        52 | 53 | 54 | 55 | 56 | 60 | 61 | 62 | 63 => FieldType::Sint16,
        57 | 58 | 114 | 115 => FieldType::Sint8,
        84 => FieldType::String,
        168 => FieldType::Sint32,
        181 | 182 | 186 | 187 => FieldType::Float32,
        253 => FieldType::Timestamp,
        254 => FieldType::MessageIndex,
        _ => FieldType::Unknown,
    }
}

fn match_field_session(k: usize) -> (r: FieldType)
    ensures
        r == kind_session(k),
{
    match k {
        0 => FieldType::Event,
        1 => FieldType::EventType,
        2 => FieldType::DateTime,
        3 | 4 | 29 | 30 | 31 | 32 => FieldType::Coordinates,
        5 => FieldType::Sport,
        6 => FieldType::SubSport,
        7 | 8 | 9 | 10 | 41 | 48 | 59 | 65 | 66 | 67 | 68 | 69 | 112 | 124 | 125 | 126 | 127
        | 128 => FieldType::Uint32,
        11 | 13 | 14 | 15 | 20 | 21 | 22 | 23 | 25 | 26 | 33 | 34 | 35 | 36 | 42 | 44 | 45 | 47
        | 49 | 50 | 70 | 71 | 82 | 83 | 85 | 86 | 87 | 88 | 89 | 90 | 91 | 95 | 96 | 97 | 98
        | 99 | 100 | 113 | 120 | 121 | 129 | 130 | 132 | 133 | 134 | 139 | 183 | 208 | 209
        | 210 => FieldType::Uint16,
        16 | 17 | 18 | 19 | 24 | 27 | 51 | 64 | 92 | 93 | 94 | 101 | 102 | 103 | 104 | 105
        | 111 | 116 | 117 | 118 | 119 | 122 | 123 | 131 | 137 | 199 | 200 => FieldType::Uint8,
        28 => FieldType::SessionTrigger,
        37 => FieldType::LeftRightBalance100,
        43 => FieldType::SwimStroke,
        46 => FieldType::DisplayMeasure,
        52 | 53 | 54 | 55 | 56 | 60 | 61 | 62 | 63 => FieldType::Sint16,
        57 | 58 | 114 | 115 => FieldType::Sint8,
        84 => FieldType::String,
        168 => FieldType::Sint32,
        181 | 182 | 186 | 187 => FieldType::Float32,
        253 => FieldType::Timestamp,
        254 => FieldType::MessageIndex,
        _ => FieldType::Unknown,
    }
}

/// The kinds of the fields of `set` messages.
pub open spec fn kind_set(k: usize) -> FieldType {
    match k {
        0 => FieldType::Uint32,
        3 | 4 | 8 => FieldType::Uint16,
        5 => FieldType::SetType,
        6 => FieldType::DateTime,
        7 => FieldType::ExerciseCategory,
        9 => FieldType::FitBaseUnit,
        10 | 11 => FieldType::MessageIndex,
        254 => FieldType::Timestamp,
        _ => FieldType::Unknown,
    }
}

fn match_field_set(k: usize) -> (r: FieldType)
    ensures
        r == kind_set(k),
{
    match k {
        0 => FieldType::Uint32,
        3 | 4 | 8 => FieldType::Uint16,
        5 => FieldType::SetType,
        6 => FieldType::DateTime,
        7 => FieldType::ExerciseCategory,
        9 => FieldType::FitBaseUnit,
        10 | 11 => FieldType::MessageIndex,
        254 => FieldType::Timestamp,
        _ => FieldType::Unknown,
    }
}

/// The kinds of the fields of `slave_device` messages.
pub open spec fn kind_slave_device(k: usize) -> FieldType {
    match k {
        0 => FieldType::Manufacturer,
        1 => FieldType::Uint16,
        _ => FieldType::Unknown,
    }
}

fn match_field_slave_device(k: usize) -> (r: FieldType)
    ensures
        r == kind_slave_device(k),
{
    match k {
        0 => FieldType::Manufacturer,
        1 => FieldType::Uint16,
        _ => FieldType::Unknown,
    }
}

/// The kinds of the fields of `software` messages.
pub open spec fn kind_software(k: usize) -> FieldType {
    match k {
        3 => FieldType::Uint16,
        5 => FieldType::String,
        254 => FieldType::MessageIndex,
        _ => FieldType::Unknown,
    }
}

fn match_field_software(k: usize) -> (r: FieldType)
    ensures
        r == kind_software(k),
{
    match k {
        3 => FieldType::Uint16,
        5 => FieldType::String,
        254 => FieldType::MessageIndex,
        _ => FieldType::Unknown,
    }
}

/// The kinds of the fields of `speed_zone` messages.
pub open spec fn kind_speed_zone(k: usize) -> FieldType {
    match k {
        0 => FieldType::Uint16,
        1 => FieldType::String,
        254 => FieldType::MessageIndex,
        _ => FieldType::Unknown,
    }
}

fn match_field_speed_zone(k: usize) -> (r: FieldType)
    ensures
        r == kind_speed_zone(k),
{
    match k {
        0 => FieldType::Uint16,
        1 => FieldType::String,
        254 => FieldType::MessageIndex,
        _ => FieldType::Unknown,
    }
}

/// The kinds of the fields of `sport` messages.
pub open spec fn kind_sport(k: usize) -> FieldType {
    match k {
        0 => FieldType::Sport,
        1 => FieldType::SubSport,
        3 => FieldType::String,
        _ => FieldType::Unknown,
    }
}

fn match_field_sport(k: usize) -> (r: FieldType)
    ensures
        r == kind_sport(k),
{
    match k {
        0 => FieldType::Sport,
        1 => FieldType::SubSport,
        3 => FieldType::String,
        _ => FieldType::Unknown,
    }
}

/// The kinds of the fields of `stress_level` messages.
pub open spec fn kind_stress_level(k: usize) -> FieldType {
    match k {
        0 => FieldType::Sint16,
        1 => FieldType::DateTime,
        _ => FieldType::Unknown,
    }
}

fn match_field_stress_level(k: usize) -> (r: FieldType)
    ensures
        r == kind_stress_level(k),
{
    match k {
        0 => FieldType::Sint16,
        1 => FieldType::DateTime,
        _ => FieldType::Unknown,
    }
}

/// The kinds of the fields of `three_d_sensor_calibration` messages.
pub open spec fn kind_three_d_sensor_calibration(k: usize) -> FieldType {
    match k {
        0 => FieldType::SensorType,
        1 | 2 | 3 => FieldType::Uint32,
        4 | 5 => FieldType::Sint32,
        253 => FieldType::Timestamp,
        _ => FieldType::Unknown,
    }
}

fn match_field_three_d_sensor_calibration(k: usize) -> (r: FieldType)
    ensures
        r == kind_three_d_sensor_calibration(k),
{
    match k {
        0 => FieldType::SensorType,
        1 | 2 | 3 => FieldType::Uint32,
        4 | 5 => FieldType::Sint32,
        253 => FieldType::Timestamp,
        _ => FieldType::Unknown,
    }
}

/// The kinds of the fields of `timestamp_correlation` messages.
pub open spec fn kind_timestamp_correlation(k: usize) -> FieldType {
    match k {
        0 | 1 | 2 | 3 | 253 => FieldType::Timestamp,
        4 | 5 => FieldType::Uint16,
        _ => FieldType::Unknown,
    }
}

fn match_field_timestamp_correlation(k: usize) -> (r: FieldType)
    ensures
        r == kind_timestamp_correlation(k),
{
    match k {
        0 | 1 | 2 | 3 | 253 => FieldType::Timestamp,
        4 | 5 => FieldType::Uint16,
        _ => FieldType::Unknown,
    }
}

/// The kinds of the fields of `totals` messages.
pub open spec fn kind_totals(k: usize) -> FieldType {
    match k {
        0 | 1 | 2 | 4 | 6 => FieldType::Uint32,
        3 => FieldType::Sport,
        5 => FieldType::Uint16,
        9 => FieldType::Uint8,
        253 => FieldType::Timestamp,
        254 => FieldType::MessageIndex,
        _ => FieldType::Unknown,
    }
}

fn match_field_totals(k: usize) -> (r: FieldType)
    ensures
        r == kind_totals(k),
{
    match k {
        0 | 1 | 2 | 4 | 6 => FieldType::Uint32,
        3 => FieldType::Sport,
        5 => FieldType::Uint16,
        9 => FieldType::Uint8,
        253 => FieldType::Timestamp,
        254 => FieldType::MessageIndex,
        _ => FieldType::Unknown,
    }
}

/// The kinds of the fields of `training_file` messages.
pub open spec fn kind_training_file(k: usize) -> FieldType {
    match k {
        0 => FieldType::File,
        1 => FieldType::Manufacturer,
        2 => FieldType::Uint16,
        3 => FieldType::Uint32Z,
        4 => FieldType::DateTime,
        253 => FieldType::Timestamp,
        _ => FieldType::Unknown,
    }
}

fn match_field_training_file(k: usize) -> (r: FieldType)
    ensures
        r == kind_training_file(k),
{
    match k {
        0 => FieldType::File,
        1 => FieldType::Manufacturer,
        2 => FieldType::Uint16,
        3 => FieldType::Uint32Z,
        4 => FieldType::DateTime,
        253 => FieldType::Timestamp,
        _ => FieldType::Unknown,
    }
}

/// The kinds of the fields of `user_profile` messages.
pub open spec fn kind_user_profile(k: usize) -> FieldType {
    match k {
        0 => FieldType::String,
        1 => FieldType::Gender,
        2 | 3 | 8 | 9 | 10 | 11 => FieldType::Uint8,
        4 | 31 | 32 => FieldType::Uint16,
        5 => FieldType::Language,
        6 | 7 | 13 | 14 | 21 | 30 | 47 => FieldType::DisplayMeasure,
        12 => FieldType::DisplayHeart,
        16 => FieldType::DisplayPower,
        17 => FieldType::ActivityClass,
        18 => FieldType::DisplayPosition,
        22 => FieldType::UserLocalId,
        23 => FieldType::Byte,
        28 | 29 => FieldType::LocaltimeIntoDay,
        49 => FieldType::Uint32,
        254 => FieldType::MessageIndex,
        _ => FieldType::Unknown,
    }
}

fn match_field_user_profile(k: usize) -> (r: FieldType)
    ensures
        r == kind_user_profile(k),
{
    match k {
        0 => FieldType::String,
        1 => FieldType::Gender,
        2 | 3 | 8 | 9 | 10 | 11 => FieldType::Uint8,
        4 | 31 | 32 => FieldType::Uint16,
        5 => FieldType::Language,
        6 | 7 | 13 | 14 | 21 | 30 | 47 => FieldType::DisplayMeasure,
        12 => FieldType::DisplayHeart,
        16 => FieldType::DisplayPower,
        17 => FieldType::ActivityClass,
        18 => FieldType::DisplayPosition,
        22 => FieldType::UserLocalId,
        23 => FieldType::Byte,
        28 | 29 => FieldType::LocaltimeIntoDay,
        49 => FieldType::Uint32,
        254 => FieldType::MessageIndex,
        _ => FieldType::Unknown,
    }
}

/// The kinds of the fields of `video` messages.
pub open spec fn kind_video(k: usize) -> FieldType {
    match k {
        0 | 1 => FieldType::String,
        2 => FieldType::Uint32,
        _ => FieldType::Unknown,
    }
}

fn match_field_video(k: usize) -> (r: FieldType)
    ensures
        r == kind_video(k),
{
    match k {
        0 | 1 => FieldType::String,
        2 => FieldType::Uint32,
        _ => FieldType::Unknown,
    }
}

/// The kinds of the fields of `video_clip` messages.
pub open spec fn kind_video_clip(k: usize) -> FieldType {
    match k {
        0 | 2 | 4 => FieldType::Uint16,
        1 | 3 => FieldType::Timestamp,
        6 | 7 => FieldType::Uint32,
        _ => FieldType::Unknown,
    }
}

fn match_field_video_clip(k: usize) -> (r: FieldType)
    ensures
        r == kind_video_clip(k),
{
    match k {
        0 | 2 | 4 => FieldType::Uint16,
        1 | 3 => FieldType::Timestamp,
        6 | 7 => FieldType::Uint32,
        _ => FieldType::Unknown,
    }
}

/// The kinds of the fields of `video_description` messages.
pub open spec fn kind_video_description(k: usize) -> FieldType {
    match k {
        0 => FieldType::Uint16,
        1 => FieldType::String,
        254 => FieldType::MessageIndex,
        _ => FieldType::Unknown,
    }
}

fn match_field_video_description(k: usize) -> (r: FieldType)
    ensures
        r == kind_video_description(k),
{
    match k {
        0 => FieldType::Uint16,
        1 => FieldType::String,
        254 => FieldType::MessageIndex,
        _ => FieldType::Unknown,
    }
}

/// The kinds of the fields of `video_frame` messages.
pub open spec fn kind_video_frame(k: usize) -> FieldType {
    match k {
        0 => FieldType::Uint16,
        1 => FieldType::Uint32,
        253 => FieldType::Timestamp,
        _ => FieldType::Unknown,
    }
}

fn match_field_video_frame(k: usize) -> (r: FieldType)
    ensures
        r == kind_video_frame(k),
{
    match k {
        0 => FieldType::Uint16,
        1 => FieldType::Uint32,
        253 => FieldType::Timestamp,
        _ => FieldType::Unknown,
    }
}

/// The kinds of the fields of `video_title` messages.
pub open spec fn kind_video_title(k: usize) -> FieldType {
    match k {
        0 => FieldType::Uint16,
        1 => FieldType::String,
        254 => FieldType::MessageIndex,
        _ => FieldType::Unknown,
    }
}

fn match_field_video_title(k: usize) -> (r: FieldType)
    ensures
        r == kind_video_title(k),
{
    match k {
        0 => FieldType::Uint16,
        1 => FieldType::String,
        254 => FieldType::MessageIndex,
        _ => FieldType::Unknown,
    }
}

/// The kinds of the fields of `watchface_settings` messages.
pub open spec fn kind_watchface_settings(k: usize) -> FieldType {
    match k {
        0 => FieldType::WatchfaceMode,
        1 => FieldType::Byte,
        254 => FieldType::MessageIndex,
        _ => FieldType::Unknown,
    }
}

fn match_field_watchface_settings(k: usize) -> (r: FieldType)
    ensures
        r == kind_watchface_settings(k),
{
    match k {
        0 => FieldType::WatchfaceMode,
        1 => FieldType::Byte,
        254 => FieldType::MessageIndex,
        _ => FieldType::Unknown,
    }
}

/// The kinds of the fields of `weather_alert` messages.
pub open spec fn kind_weather_alert(k: usize) -> FieldType {
    match k {
        0 => FieldType::String,
        1 | 2 => FieldType::DateTime,
        3 => FieldType::WeatherSeverity,
        4 => FieldType::WeatherSevereType,
        253 => FieldType::Timestamp,
        _ => FieldType::Unknown,
    }
}

fn match_field_weather_alert(k: usize) -> (r: FieldType)
    ensures
        r == kind_weather_alert(k),
{
    match k {
        0 => FieldType::String,
        1 | 2 => FieldType::DateTime,
        3 => FieldType::WeatherSeverity,
        4 => FieldType::WeatherSevereType,
        253 => FieldType::Timestamp,
        _ => FieldType::Unknown,
    }
}

/// The kinds of the fields of `weather_conditions` messages.
pub open spec fn kind_weather_conditions(k: usize) -> FieldType {
    match k {
        0 => FieldType::WeatherReport,
        1 | 6 | 13 | 14 => FieldType::Sint8,
        2 => FieldType::WeatherStatus,
        3 | 4 => FieldType::Uint16,
        5 | 7 => FieldType::Uint8,
        8 => FieldType::String,
        9 => FieldType::DateTime,
        10 | 11 => FieldType::Coordinates,
        12 => FieldType::DayOfWeek,
        253 => FieldType::Timestamp,
        _ => FieldType::Unknown,
    }
}

fn match_field_weather_conditions(k: usize) -> (r: FieldType)
    ensures
        r == kind_weather_conditions(k),
{
    match k {
        0 => FieldType::WeatherReport,
        1 | 6 | 13 | 14 => FieldType::Sint8,
        2 => FieldType::WeatherStatus,
        3 | 4 => FieldType::Uint16,
        5 | 7 => FieldType::Uint8,
        8 => FieldType::String,
        9 => FieldType::DateTime,
        10 | 11 => FieldType::Coordinates,
        12 => FieldType::DayOfWeek,
        253 => FieldType::Timestamp,
        _ => FieldType::Unknown,
    }
}

/// The kinds of the fields of `weight_scale` messages.
pub open spec fn kind_weight_scale(k: usize) -> FieldType {
    match k {
        0 => FieldType::Weight,
        1 | 2 | 3 | 4 | 5 | 7 | 9 => FieldType::Uint16,
        8 | 10 | 11 => FieldType::Uint8,
        12 => FieldType::MessageIndex,
        253 => FieldType::Timestamp,
        _ => FieldType::Unknown,
    }
}

fn match_field_weight_scale(k: usize) -> (r: FieldType)
    ensures
        r == kind_weight_scale(k),
{
    match k {
        0 => FieldType::Weight,
        1 | 2 | 3 | 4 | 5 | 7 | 9 => FieldType::Uint16,
        8 | 10 | 11 => FieldType::Uint8,
        12 => FieldType::MessageIndex,
        253 => FieldType::Timestamp,
        _ => FieldType::Unknown,
    }
}

/// The kinds of the fields of `workout` messages.
pub open spec fn kind_workout(k: usize) -> FieldType {
    match k {
        4 => FieldType::Sport,
        5 => FieldType::WorkoutCapabilities,
        6 | 14 => FieldType::Uint16,
        8 => FieldType::String,
        11 => FieldType::SubSport,
        15 => FieldType::DisplayMeasure,
        _ => FieldType::Unknown,
    }
}

fn match_field_workout(k: usize) -> (r: FieldType)
    ensures
        r == kind_workout(k),
{
    match k {
        4 => FieldType::Sport,
        5 => FieldType::WorkoutCapabilities,
        6 | 14 => FieldType::Uint16,
        8 => FieldType::String,
        11 => FieldType::SubSport,
        15 => FieldType::DisplayMeasure,
        _ => FieldType::Unknown,
    }
}

/// The kinds of the fields of `workout_session` messages.
pub open spec fn kind_workout_session(k: usize) -> FieldType {
    match k {
        0 => FieldType::Sport,
        1 => FieldType::SubSport,
        2 | 3 | 4 => FieldType::Uint16,
        5 => FieldType::DisplayMeasure,
        254 => FieldType::MessageIndex,
        _ => FieldType::Unknown,
    }
}

fn match_field_workout_session(k: usize) -> (r: FieldType)
    ensures
        r == kind_workout_session(k),
{
    match k {
        0 => FieldType::Sport,
        1 => FieldType::SubSport,
        2 | 3 | 4 => FieldType::Uint16,
        5 => FieldType::DisplayMeasure,
        254 => FieldType::MessageIndex,
        _ => FieldType::Unknown,
    }
}

/// The kinds of the fields of `workout_step` messages.
pub open spec fn kind_workout_step(k: usize) -> FieldType {
    match k {
        0 | 8 => FieldType::String,
        1 => FieldType::WktStepDuration,
        2 | 4 | 5 | 6 | 20 | 21 | 22 => FieldType::Uint32,
        3 | 19 => FieldType::WktStepTarget,
        7 => FieldType::Intensity,
        9 => FieldType::WorkoutEquipment,
        10 => FieldType::ExerciseCategory,
        11 | 12 => FieldType::Uint16,
        13 => FieldType::FitBaseUnit,
        254 => FieldType::MessageIndex,
        _ => FieldType::Unknown,
    }
}

fn match_field_workout_step(k: usize) -> (r: FieldType)
    ensures
        r == kind_workout_step(k),
{
    match k {
        0 | 8 => FieldType::String,
        1 => FieldType::WktStepDuration,
        2 | 4 | 5 | 6 | 20 | 21 | 22 => FieldType::Uint32,
        3 | 19 => FieldType::WktStepTarget,
        7 => FieldType::Intensity,
        9 => FieldType::WorkoutEquipment,
        10 => FieldType::ExerciseCategory,
        11 | 12 => FieldType::Uint16,
        13 => FieldType::FitBaseUnit,
        254 => FieldType::MessageIndex,
        _ => FieldType::Unknown,
    }
}

/// The kinds of the fields of `zones_target` messages.
pub open spec fn kind_zones_target(k: usize) -> FieldType {
    match k {
        1 | 2 => FieldType::Uint8,
        3 => FieldType::Uint16,
        5 => FieldType::HrZoneCalc,
        7 => FieldType::PwrZoneCalc,
        _ => FieldType::Unknown,
    }
}

fn match_field_zones_target(k: usize) -> (r: FieldType)
    ensures
        r == kind_zones_target(k),
{
    match k {
        1 | 2 => FieldType::Uint8,
        3 => FieldType::Uint16,
        5 => FieldType::HrZoneCalc,
        7 => FieldType::PwrZoneCalc,
        _ => FieldType::Unknown,
    }
}

fn match_field_none(_k: usize) -> (r: FieldType)
    ensures
        r == FieldType::Unknown,
{
    FieldType::Unknown
}

/// The kind that the profile gives field `k` of the messages of type `m`.
pub open spec fn spec_field_type(m: MessageType, k: usize) -> FieldType {
    match m {
        MessageType::FileId => kind_file_id(k),
        MessageType::FileCreator => kind_file_creator(k),
        MessageType::TimestampCorrelation => kind_timestamp_correlation(k),
        MessageType::Software => kind_software(k),
        MessageType::SlaveDevice => kind_slave_device(k),
        MessageType::Capabilities => kind_capabilities(k),
        MessageType::FileCapabilities => kind_file_capabilities(k),
        MessageType::MesgCapabilities => kind_mesg_capabilities(k),
        MessageType::FieldCapabilities => kind_field_capabilities(k),
        MessageType::DeviceSettings => kind_device_settings(k),
        MessageType::UserProfile => kind_user_profile(k),
        MessageType::HrmProfile => kind_hrm_profile(k),
        MessageType::SdmProfile => kind_sdm_profile(k),
        MessageType::BikeProfile => kind_bike_profile(k),
        MessageType::Connectivity => kind_connectivity(k),
        MessageType::WatchfaceSettings => kind_watchface_settings(k),
        MessageType::OhrSettings => kind_ohr_settings(k),
        MessageType::ZonesTarget => kind_zones_target(k),
        MessageType::Sport => kind_sport(k),
        MessageType::HrZone => kind_hr_zone(k),
        MessageType::SpeedZone => kind_speed_zone(k),
        MessageType::CadenceZone => kind_cadence_zone(k),
        MessageType::PowerZone => kind_power_zone(k),
        MessageType::MetZone => kind_met_zone(k),
        MessageType::DiveSettings => kind_dive_settings(k),
        MessageType::DiveAlarm => kind_dive_alarm(k),
        MessageType::DiveGas => kind_dive_gas(k),
        MessageType::Goal => kind_goal(k),
        MessageType::Activity => kind_activity(k),
        MessageType::Session => kind_session(k),
        MessageType::Lap => kind_lap(k),
        MessageType::Length => kind_length(k),
        MessageType::Record => kind_record(k),
        MessageType::Event => kind_event(k),
        MessageType::DeviceInfo => kind_device_info(k),
        MessageType::DeviceAuxBatteryInfo => kind_device_aux_battery_info(k),
        MessageType::TrainingFile => kind_training_file(k),
        MessageType::WeatherConditions => kind_weather_conditions(k),
        MessageType::WeatherAlert => kind_weather_alert(k),
        MessageType::GpsMetadata => kind_gps_metadata(k),
        MessageType::CameraEvent => kind_camera_event(k),
        MessageType::GyroscopeData => kind_gyroscope_data(k),
        MessageType::AccelerometerData => kind_accelerometer_data(k),
        MessageType::MagnetometerData => kind_magnetometer_data(k),
        MessageType::BarometerData => kind_barometer_data(k),
        MessageType::ThreeDSensorCalibration => kind_three_d_sensor_calibration(k),
        MessageType::OneDSensorCalibration => kind_one_d_sensor_calibration(k),
        MessageType::VideoFrame => kind_video_frame(k),
        MessageType::ObdiiData => kind_obdii_data(k),
        MessageType::NmeaSentence => kind_nmea_sentence(k),
        MessageType::AviationAttitude => kind_aviation_attitude(k),
        MessageType::Video => kind_video(k),
        MessageType::VideoTitle => kind_video_title(k),
        MessageType::VideoDescription => kind_video_description(k),
        MessageType::VideoClip => kind_video_clip(k),
        MessageType::Sets => kind_set(k),
        MessageType::Jump => kind_jump(k),
        MessageType::ClimbPro => kind_climb_pro(k),
        MessageType::FieldDescription => kind_field_description(k),
        MessageType::DeveloperDataId => kind_developer_data_id(k),
        MessageType::Course => kind_course(k),
        MessageType::CoursePoint => kind_course_point(k),
        MessageType::SegmentId => kind_segment_id(k),
        MessageType::SegmentLeaderboardEntry => kind_segment_leaderboard_entry(k),
        MessageType::SegmentPoint => kind_segment_point(k),
        MessageType::SegmentLap => kind_segment_lap(k),
        MessageType::SegmentFile => kind_segment_file(k),
        MessageType::Workout => kind_workout(k),
        MessageType::WorkoutSession => kind_workout_session(k),
        MessageType::WorkoutStep => kind_workout_step(k),
        MessageType::ExerciseTitle => kind_exercise_title(k),
        MessageType::Schedule => kind_schedule(k),
        MessageType::Totals => kind_totals(k),
        MessageType::WeightScale => kind_weight_scale(k),
        MessageType::BloodPressure => kind_blood_pressure(k),
        MessageType::MonitoringInfo => kind_monitoring_info(k),
        MessageType::Monitoring => kind_monitoring(k),
        MessageType::Hr => kind_hr(k),
        MessageType::StressLevel => kind_stress_level(k),
        MessageType::MemoGlob => kind_memo_glob(k),
        MessageType::AntChannelId => kind_ant_channel_id(k),
        MessageType::AntRx => kind_ant_rx(k),
        MessageType::AntTx => kind_ant_tx(k),
        MessageType::ExdScreenConfiguration => kind_exd_screen_configuration(k),
        MessageType::ExdDataFieldConfiguration => kind_exd_data_field_configuration(k),
        MessageType::ExdDataConceptConfiguration => kind_exd_data_concept_configuration(k),
        MessageType::DiveSummary => kind_dive_summary(k),
        MessageType::Hrv => kind_hrv(k),
        _ => FieldType::Unknown,
    }
}

/// The kind of field `k` of the messages of type `m`; `Unknown` where the
/// profile does not name the field.
pub fn get_field_type_fn(m: MessageType, k: usize) -> (r: FieldType)
    ensures
        r == spec_field_type(m, k),
{
    match m {
        MessageType::FileId => match_field_file_id(k),
        MessageType::FileCreator => match_field_file_creator(k),
        MessageType::TimestampCorrelation => match_field_timestamp_correlation(k),
        MessageType::Software => match_field_software(k),
        MessageType::SlaveDevice => match_field_slave_device(k),
        MessageType::Capabilities => match_field_capabilities(k),
        MessageType::FileCapabilities => match_field_file_capabilities(k),
        MessageType::MesgCapabilities => match_field_mesg_capabilities(k),
        MessageType::FieldCapabilities => match_field_field_capabilities(k),
        MessageType::DeviceSettings => match_field_device_settings(k),
        MessageType::UserProfile => match_field_user_profile(k),
        MessageType::HrmProfile => match_field_hrm_profile(k),
        MessageType::SdmProfile => match_field_sdm_profile(k),
        MessageType::BikeProfile => match_field_bike_profile(k),
        MessageType::Connectivity => match_field_connectivity(k),
        MessageType::WatchfaceSettings => match_field_watchface_settings(k),
        MessageType::OhrSettings => match_field_ohr_settings(k),
        MessageType::ZonesTarget => match_field_zones_target(k),
        MessageType::Sport => match_field_sport(k),
        MessageType::HrZone => match_field_hr_zone(k),
        MessageType::SpeedZone => match_field_speed_zone(k),
        MessageType::CadenceZone => match_field_cadence_zone(k),
        MessageType::PowerZone => match_field_power_zone(k),
        MessageType::MetZone => match_field_met_zone(k),
        MessageType::DiveSettings => match_field_dive_settings(k),
        MessageType::DiveAlarm => match_field_dive_alarm(k),
        MessageType::DiveGas => match_field_dive_gas(k),
        MessageType::Goal => match_field_goal(k),
        MessageType::Activity => match_field_activity(k),
        MessageType::Session => match_field_session(k),
        MessageType::Lap => match_field_lap(k),
        MessageType::Length => match_field_length(k),
        MessageType::Record => match_field_record(k),
        MessageType::Event => match_field_event(k),
        MessageType::DeviceInfo => match_field_device_info(k),
        MessageType::DeviceAuxBatteryInfo => match_field_device_aux_battery_info(k),
        MessageType::TrainingFile => match_field_training_file(k),
        MessageType::WeatherConditions => match_field_weather_conditions(k),
        MessageType::WeatherAlert => match_field_weather_alert(k),
        MessageType::GpsMetadata => match_field_gps_metadata(k),
        MessageType::CameraEvent => match_field_camera_event(k),
        MessageType::GyroscopeData => match_field_gyroscope_data(k),
        MessageType::AccelerometerData => match_field_accelerometer_data(k),
        MessageType::MagnetometerData => match_field_magnetometer_data(k),
        MessageType::BarometerData => match_field_barometer_data(k),
        MessageType::ThreeDSensorCalibration => match_field_three_d_sensor_calibration(k),
        MessageType::OneDSensorCalibration => match_field_one_d_sensor_calibration(k),
        MessageType::VideoFrame => match_field_video_frame(k),
        MessageType::ObdiiData => match_field_obdii_data(k),
        MessageType::NmeaSentence => match_field_nmea_sentence(k),
        MessageType::AviationAttitude => match_field_aviation_attitude(k),
        MessageType::Video => match_field_video(k),
        MessageType::VideoTitle => match_field_video_title(k),
        MessageType::VideoDescription => match_field_video_description(k),
        MessageType::VideoClip => match_field_video_clip(k),
        MessageType::Sets => match_field_set(k),
        MessageType::Jump => match_field_jump(k),
        MessageType::ClimbPro => match_field_climb_pro(k),
        MessageType::FieldDescription => match_field_field_description(k),
        MessageType::DeveloperDataId => match_field_developer_data_id(k),
        MessageType::Course => match_field_course(k),
        MessageType::CoursePoint => match_field_course_point(k),
        MessageType::SegmentId => match_field_segment_id(k),
        MessageType::SegmentLeaderboardEntry => match_field_segment_leaderboard_entry(k),
        MessageType::SegmentPoint => match_field_segment_point(k),
        MessageType::SegmentLap => match_field_segment_lap(k),
        MessageType::SegmentFile => match_field_segment_file(k),
        MessageType::Workout => match_field_workout(k),
        MessageType::WorkoutSession => match_field_workout_session(k),
        MessageType::WorkoutStep => match_field_workout_step(k),
        MessageType::ExerciseTitle => match_field_exercise_title(k),
        MessageType::Schedule => match_field_schedule(k),
        MessageType::Totals => match_field_totals(k),
        MessageType::WeightScale => match_field_weight_scale(k),
        MessageType::BloodPressure => match_field_blood_pressure(k),
        MessageType::MonitoringInfo => match_field_monitoring_info(k),
        MessageType::Monitoring => match_field_monitoring(k),
        MessageType::Hr => match_field_hr(k),
        MessageType::StressLevel => match_field_stress_level(k),
        MessageType::MemoGlob => match_field_memo_glob(k),
        MessageType::AntChannelId => match_field_ant_channel_id(k),
        MessageType::AntRx => match_field_ant_rx(k),
        MessageType::AntTx => match_field_ant_tx(k),
        MessageType::ExdScreenConfiguration => match_field_exd_screen_configuration(k),
        MessageType::ExdDataFieldConfiguration => match_field_exd_data_field_configuration(k),
        MessageType::ExdDataConceptConfiguration => match_field_exd_data_concept_configuration(k),
        MessageType::DiveSummary => match_field_dive_summary(k),
        MessageType::Hrv => match_field_hrv(k),
        _ => match_field_none(k),
    }
}

} // verus!
