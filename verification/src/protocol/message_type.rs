//! The message types of the profile and their global numbers.

use crate::protocol::Endian;
use crate::protocol::io::{spec_u16_bytes, write_bin_u16};
use vstd::prelude::*;

verus! {

/// A message type of the profile. `MfgRange` stands for every number that
/// is left to manufacturers, `Unknown` for every number that the profile
/// does not name.
#[derive(Debug, Copy, Clone, PartialEq, Eq, Structural)]
pub enum MessageType {
    FileId,
    Capabilities,
    DeviceSettings,
    UserProfile,
    HrmProfile,
    SdmProfile,
    BikeProfile,
    ZonesTarget,
    HrZone,
    PowerZone,
    MetZone,
    Sport,
    Goal,
    Session,
    Lap,
    Record,
    Event,
    DeviceInfo,
    Workout,
    WorkoutStep,
    Schedule,
    WeightScale,
    Course,
    CoursePoint,
    Totals,
    Activity,
    Software,
    FileCapabilities,
    MesgCapabilities,
    FieldCapabilities,
    FileCreator,
    BloodPressure,
    SpeedZone,
    Monitoring,
    TrainingFile,
    Hrv,
    AntRx,
    AntTx,
    AntChannelId,
    Length,
    MonitoringInfo,
    Pad,
    SlaveDevice,
    Connectivity,
    WeatherConditions,
    WeatherAlert,
    CadenceZone,
    Hr,
    SegmentLap,
    MemoGlob,
    SegmentId,
    SegmentLeaderboardEntry,
    SegmentPoint,
    SegmentFile,
    WorkoutSession,
    WatchfaceSettings,
    GpsMetadata,
    CameraEvent,
    TimestampCorrelation,
    GyroscopeData,
    AccelerometerData,
    ThreeDSensorCalibration,
    VideoFrame,
    ObdiiData,
    NmeaSentence,
    AviationAttitude,
    Video,
    VideoTitle,
    VideoDescription,
    VideoClip,
    OhrSettings,
    ExdScreenConfiguration,
    ExdDataFieldConfiguration,
    ExdDataConceptConfiguration,
    FieldDescription,
    DeveloperDataId,
    MagnetometerData,
    BarometerData,
    OneDSensorCalibration,
    Sets,
    StressLevel,
    DiveSettings,
    DiveGas,
    DiveAlarm,
    ExerciseTitle,
    DiveSummary,
    Jump,
    ClimbPro,
    DeviceAuxBatteryInfo,
    DiveApneaAlarm,
    MfgRange,
    Unknown,
}

impl MessageType {
    /// The global number of a message type.
    pub open spec fn spec_to_primitive(self) -> u16 {
        match self {
            MessageType::FileId => 0,
            MessageType::Capabilities => 1,
            MessageType::DeviceSettings => 2,
            MessageType::UserProfile => 3,
            MessageType::HrmProfile => 4,
            MessageType::SdmProfile => 5,
            MessageType::BikeProfile => 6,
            MessageType::ZonesTarget => 7,
            MessageType::HrZone => 8,
            MessageType::PowerZone => 9,
            MessageType::MetZone => 10,
            MessageType::Sport => 12,
            MessageType::Goal => 15,
            MessageType::Session => 18,
            MessageType::Lap => 19,
            MessageType::Record => 20,
            MessageType::Event => 21,
            MessageType::DeviceInfo => 23,
            MessageType::Workout => 26,
            MessageType::WorkoutStep => 27,
            MessageType::Schedule => 28,
            MessageType::WeightScale => 30,
            MessageType::Course => 31,
            MessageType::CoursePoint => 32,
            MessageType::Totals => 33,
            MessageType::Activity => 34,
            MessageType::Software => 35,
            MessageType::FileCapabilities => 37,
            MessageType::MesgCapabilities => 38,
            MessageType::FieldCapabilities => 39,
            MessageType::FileCreator => 49,
            MessageType::BloodPressure => 51,
            MessageType::SpeedZone => 53,
            MessageType::Monitoring => 55,
            MessageType::TrainingFile => 72,
            MessageType::Hrv => 78,
            MessageType::AntRx => 80,
            MessageType::AntTx => 81,
            MessageType::AntChannelId => 82,
            MessageType::Length => 101,
            MessageType::MonitoringInfo => 103,
            MessageType::Pad => 105,
            MessageType::SlaveDevice => 106,
            MessageType::Connectivity => 127,
            MessageType::WeatherConditions => 128,
            MessageType::WeatherAlert => 129,
            MessageType::CadenceZone => 131,
            MessageType::Hr => 132,
            MessageType::SegmentLap => 142,
            MessageType::MemoGlob => 145,
            MessageType::SegmentId => 148,
            MessageType::SegmentLeaderboardEntry => 149,
            MessageType::SegmentPoint => 150,
            MessageType::SegmentFile => 151,
            MessageType::WorkoutSession => 158,
            MessageType::WatchfaceSettings => 159,
            MessageType::GpsMetadata => 160,
            MessageType::CameraEvent => 161,
            MessageType::TimestampCorrelation => 162,
            MessageType::GyroscopeData => 164,
            MessageType::AccelerometerData => 165,
            MessageType::ThreeDSensorCalibration => 167,
            MessageType::VideoFrame => 169,
            MessageType::ObdiiData => 174,
            MessageType::NmeaSentence => 177,
            MessageType::AviationAttitude => 178,
            MessageType::Video => 184,
            MessageType::VideoTitle => 185,
            MessageType::VideoDescription => 186,
            MessageType::VideoClip => 187,
            MessageType::OhrSettings => 188,
            MessageType::ExdScreenConfiguration => 200,
            MessageType::ExdDataFieldConfiguration => 201,
            MessageType::ExdDataConceptConfiguration => 202,
            MessageType::FieldDescription => 206,
            MessageType::DeveloperDataId => 207,
            MessageType::MagnetometerData => 208,
            MessageType::BarometerData => 209,
            MessageType::OneDSensorCalibration => 210,
            MessageType::Sets => 225,
            MessageType::StressLevel => 227,
            MessageType::DiveSettings => 258,
            MessageType::DiveGas => 259,
            MessageType::DiveAlarm => 262,
            MessageType::ExerciseTitle => 264,
            MessageType::DiveSummary => 268,
            MessageType::Jump => 285,
            MessageType::ClimbPro => 317,
            MessageType::DeviceAuxBatteryInfo => 375,
            MessageType::DiveApneaAlarm => 393,
            MessageType::MfgRange => 0xFF00,
            MessageType::Unknown => 0xFFFF,
        }
    }

    /// The message type that has exactly this global number, if there is
    /// one.
    pub open spec fn spec_from_primitive(value: u16) -> Option<MessageType> {
        match value {
            0 => Some(MessageType::FileId),
            1 => Some(MessageType::Capabilities),
            2 => Some(MessageType::DeviceSettings),
            3 => Some(MessageType::UserProfile),
            4 => Some(MessageType::HrmProfile),
            5 => Some(MessageType::SdmProfile),
            6 => Some(MessageType::BikeProfile),
            7 => Some(MessageType::ZonesTarget),
            8 => Some(MessageType::HrZone),
            9 => Some(MessageType::PowerZone),
            10 => Some(MessageType::MetZone),
            12 => Some(MessageType::Sport),
            15 => Some(MessageType::Goal),
            18 => Some(MessageType::Session),
            19 => Some(MessageType::Lap),
            20 => Some(MessageType::Record),
            21 => Some(MessageType::Event),
            23 => Some(MessageType::DeviceInfo),
            26 => Some(MessageType::Workout),
            27 => Some(MessageType::WorkoutStep),
            28 => Some(MessageType::Schedule),
            30 => Some(MessageType::WeightScale),
            31 => Some(MessageType::Course),
            32 => Some(MessageType::CoursePoint),
            33 => Some(MessageType::Totals),
            34 => Some(MessageType::Activity),
            35 => Some(MessageType::Software),
            37 => Some(MessageType::FileCapabilities),
            38 => Some(MessageType::MesgCapabilities),
            39 => Some(MessageType::FieldCapabilities),
            49 => Some(MessageType::FileCreator),
            51 => Some(MessageType::BloodPressure),
            53 => Some(MessageType::SpeedZone),
            55 => Some(MessageType::Monitoring),
            72 => Some(MessageType::TrainingFile),
            78 => Some(MessageType::Hrv),
            80 => Some(MessageType::AntRx),
            81 => Some(MessageType::AntTx),
            82 => Some(MessageType::AntChannelId),
            101 => Some(MessageType::Length),
            103 => Some(MessageType::MonitoringInfo),
            105 => Some(MessageType::Pad),
            106 => Some(MessageType::SlaveDevice),
            127 => Some(MessageType::Connectivity),
            128 => Some(MessageType::WeatherConditions),
            129 => Some(MessageType::WeatherAlert),
            131 => Some(MessageType::CadenceZone),
            132 => Some(MessageType::Hr),
            142 => Some(MessageType::SegmentLap),
            145 => Some(MessageType::MemoGlob),
            148 => Some(MessageType::SegmentId),
            149 => Some(MessageType::SegmentLeaderboardEntry),
            150 => Some(MessageType::SegmentPoint),
            151 => Some(MessageType::SegmentFile),
            158 => Some(MessageType::WorkoutSession),
            159 => Some(MessageType::WatchfaceSettings),
            160 => Some(MessageType::GpsMetadata),
            161 => Some(MessageType::CameraEvent),
            162 => Some(MessageType::TimestampCorrelation),
            164 => Some(MessageType::GyroscopeData),
            165 => Some(MessageType::AccelerometerData),
            167 => Some(MessageType::ThreeDSensorCalibration),
            169 => Some(MessageType::VideoFrame),
            174 => Some(MessageType::ObdiiData),
            177 => Some(MessageType::NmeaSentence),
            178 => Some(MessageType::AviationAttitude),
            184 => Some(MessageType::Video),
            185 => Some(MessageType::VideoTitle),
            186 => Some(MessageType::VideoDescription),
            187 => Some(MessageType::VideoClip),
            188 => Some(MessageType::OhrSettings),
            200 => Some(MessageType::ExdScreenConfiguration),
            201 => Some(MessageType::ExdDataFieldConfiguration),
            202 => Some(MessageType::ExdDataConceptConfiguration),
            206 => Some(MessageType::FieldDescription),
            207 => Some(MessageType::DeveloperDataId),
            208 => Some(MessageType::MagnetometerData),
            209 => Some(MessageType::BarometerData),
            210 => Some(MessageType::OneDSensorCalibration),
            225 => Some(MessageType::Sets),
            227 => Some(MessageType::StressLevel),
            258 => Some(MessageType::DiveSettings),
            259 => Some(MessageType::DiveGas),
            262 => Some(MessageType::DiveAlarm),
            264 => Some(MessageType::ExerciseTitle),
            268 => Some(MessageType::DiveSummary),
            285 => Some(MessageType::Jump),
            317 => Some(MessageType::ClimbPro),
            375 => Some(MessageType::DeviceAuxBatteryInfo),
            393 => Some(MessageType::DiveApneaAlarm),
            0xFF00 => Some(MessageType::MfgRange),
            0xFFFF => Some(MessageType::Unknown),
            _ => None,
        }
    }

    /// The message type that has exactly this global number, if there is
    /// one.
    pub fn from_primitive(value: u16) -> (r: Option<MessageType>)
        ensures
            r == Self::spec_from_primitive(value),
    {
        match value {
            0 => Some(MessageType::FileId),
            1 => Some(MessageType::Capabilities),
            2 => Some(MessageType::DeviceSettings),
            3 => Some(MessageType::UserProfile),
            4 => Some(MessageType::HrmProfile),
            5 => Some(MessageType::SdmProfile),
            6 => Some(MessageType::BikeProfile),
            7 => Some(MessageType::ZonesTarget),
            8 => Some(MessageType::HrZone),
            9 => Some(MessageType::PowerZone),
            10 => Some(MessageType::MetZone),
            12 => Some(MessageType::Sport),
            15 => Some(MessageType::Goal),
            18 => Some(MessageType::Session),
            19 => Some(MessageType::Lap),
            20 => Some(MessageType::Record),
            21 => Some(MessageType::Event),
            23 => Some(MessageType::DeviceInfo),
            26 => Some(MessageType::Workout),
            27 => Some(MessageType::WorkoutStep),
            28 => Some(MessageType::Schedule),
            30 => Some(MessageType::WeightScale),
            31 => Some(MessageType::Course),
            32 => Some(MessageType::CoursePoint),
            33 => Some(MessageType::Totals),
            34 => Some(MessageType::Activity),
            35 => Some(MessageType::Software),
            37 => Some(MessageType::FileCapabilities),
            38 => Some(MessageType::MesgCapabilities),
            39 => Some(MessageType::FieldCapabilities),
            49 => Some(MessageType::FileCreator),
            51 => Some(MessageType::BloodPressure),
            53 => Some(MessageType::SpeedZone),
            55 => Some(MessageType::Monitoring),
            72 => Some(MessageType::TrainingFile),
            78 => Some(MessageType::Hrv),
            80 => Some(MessageType::AntRx),
            81 => Some(MessageType::AntTx),
            82 => Some(MessageType::AntChannelId),
            101 => Some(MessageType::Length),
            103 => Some(MessageType::MonitoringInfo),
            105 => Some(MessageType::Pad),
            106 => Some(MessageType::SlaveDevice),
            127 => Some(MessageType::Connectivity),
            128 => Some(MessageType::WeatherConditions),
            129 => Some(MessageType::WeatherAlert),
            131 => Some(MessageType::CadenceZone),
            132 => Some(MessageType::Hr),
            142 => Some(MessageType::SegmentLap),
            145 => Some(MessageType::MemoGlob),
            148 => Some(MessageType::SegmentId),
            149 => Some(MessageType::SegmentLeaderboardEntry),
            150 => Some(MessageType::SegmentPoint),
            151 => Some(MessageType::SegmentFile),
            158 => Some(MessageType::WorkoutSession),
            159 => Some(MessageType::WatchfaceSettings),
            160 => Some(MessageType::GpsMetadata),
            161 => Some(MessageType::CameraEvent),
            162 => Some(MessageType::TimestampCorrelation),
            164 => Some(MessageType::GyroscopeData),
            165 => Some(MessageType::AccelerometerData),
            167 => Some(MessageType::ThreeDSensorCalibration),
            169 => Some(MessageType::VideoFrame),
            174 => Some(MessageType::ObdiiData),
            177 => Some(MessageType::NmeaSentence),
            178 => Some(MessageType::AviationAttitude),
            184 => Some(MessageType::Video),
            185 => Some(MessageType::VideoTitle),
            186 => Some(MessageType::VideoDescription),
            187 => Some(MessageType::VideoClip),
            188 => Some(MessageType::OhrSettings),
            200 => Some(MessageType::ExdScreenConfiguration),
            201 => Some(MessageType::ExdDataFieldConfiguration),
            202 => Some(MessageType::ExdDataConceptConfiguration),
            206 => Some(MessageType::FieldDescription),
            207 => Some(MessageType::DeveloperDataId),
            208 => Some(MessageType::MagnetometerData),
            209 => Some(MessageType::BarometerData),
            210 => Some(MessageType::OneDSensorCalibration),
            225 => Some(MessageType::Sets),
            227 => Some(MessageType::StressLevel),
            258 => Some(MessageType::DiveSettings),
            259 => Some(MessageType::DiveGas),
            262 => Some(MessageType::DiveAlarm),
            264 => Some(MessageType::ExerciseTitle),
            268 => Some(MessageType::DiveSummary),
            285 => Some(MessageType::Jump),
            317 => Some(MessageType::ClimbPro),
            375 => Some(MessageType::DeviceAuxBatteryInfo),
            393 => Some(MessageType::DiveApneaAlarm),
            0xFF00 => Some(MessageType::MfgRange),
            0xFFFF => Some(MessageType::Unknown),
            _ => None,
        }
    }

    /// The global number of the message type.
    pub fn to_primitive(self) -> (r: u16)
        ensures
            r == self.spec_to_primitive(),
    {
        match self {
            MessageType::FileId => 0,
            MessageType::Capabilities => 1,
            MessageType::DeviceSettings => 2,
            MessageType::UserProfile => 3,
            MessageType::HrmProfile => 4,
            MessageType::SdmProfile => 5,
            MessageType::BikeProfile => 6,
            MessageType::ZonesTarget => 7,
            MessageType::HrZone => 8,
            MessageType::PowerZone => 9,
            MessageType::MetZone => 10,
            MessageType::Sport => 12,
            MessageType::Goal => 15,
            MessageType::Session => 18,
            MessageType::Lap => 19,
            MessageType::Record => 20,
            MessageType::Event => 21,
            MessageType::DeviceInfo => 23,
            MessageType::Workout => 26,
            MessageType::WorkoutStep => 27,
            MessageType::Schedule => 28,
            MessageType::WeightScale => 30,
            MessageType::Course => 31,
            MessageType::CoursePoint => 32,
            MessageType::Totals => 33,
            MessageType::Activity => 34,
            MessageType::Software => 35,
            MessageType::FileCapabilities => 37,
            MessageType::MesgCapabilities => 38,
            MessageType::FieldCapabilities => 39,
            MessageType::FileCreator => 49,
            MessageType::BloodPressure => 51,
            MessageType::SpeedZone => 53,
            MessageType::Monitoring => 55,
            MessageType::TrainingFile => 72,
            MessageType::Hrv => 78,
            MessageType::AntRx => 80,
            MessageType::AntTx => 81,
            MessageType::AntChannelId => 82,
            MessageType::Length => 101,
            MessageType::MonitoringInfo => 103,
            MessageType::Pad => 105,
            MessageType::SlaveDevice => 106,
            MessageType::Connectivity => 127,
            MessageType::WeatherConditions => 128,
            MessageType::WeatherAlert => 129,
            MessageType::CadenceZone => 131,
            MessageType::Hr => 132,
            MessageType::SegmentLap => 142,
            MessageType::MemoGlob => 145,
            MessageType::SegmentId => 148,
            MessageType::SegmentLeaderboardEntry => 149,
            MessageType::SegmentPoint => 150,
            MessageType::SegmentFile => 151,
            MessageType::WorkoutSession => 158,
            MessageType::WatchfaceSettings => 159,
            MessageType::GpsMetadata => 160,
            MessageType::CameraEvent => 161,
            MessageType::TimestampCorrelation => 162,
            MessageType::GyroscopeData => 164,
            MessageType::AccelerometerData => 165,
            MessageType::ThreeDSensorCalibration => 167,
            MessageType::VideoFrame => 169,
            MessageType::ObdiiData => 174,
            MessageType::NmeaSentence => 177,
            MessageType::AviationAttitude => 178,
            MessageType::Video => 184,
            MessageType::VideoTitle => 185,
            MessageType::VideoDescription => 186,
            MessageType::VideoClip => 187,
            MessageType::OhrSettings => 188,
            MessageType::ExdScreenConfiguration => 200,
            MessageType::ExdDataFieldConfiguration => 201,
            MessageType::ExdDataConceptConfiguration => 202,
            MessageType::FieldDescription => 206,
            MessageType::DeveloperDataId => 207,
            MessageType::MagnetometerData => 208,
            MessageType::BarometerData => 209,
            MessageType::OneDSensorCalibration => 210,
            MessageType::Sets => 225,
            MessageType::StressLevel => 227,
            MessageType::DiveSettings => 258,
            MessageType::DiveGas => 259,
            MessageType::DiveAlarm => 262,
            MessageType::ExerciseTitle => 264,
            MessageType::DiveSummary => 268,
            MessageType::Jump => 285,
            MessageType::ClimbPro => 317,
            MessageType::DeviceAuxBatteryInfo => 375,
            MessageType::DiveApneaAlarm => 393,
            MessageType::MfgRange => 0xFF00,
            MessageType::Unknown => 0xFFFF,
        }
    }

    /// Each message type is the one that its own number names.
    pub proof fn lemma_primitive_round_trip(self)
        ensures
            Self::spec_from_primitive(self.spec_to_primitive()) == Some(self),
    {
    }
}

/// The message type that a definition's global number resolves to: the type
/// with that number, `MfgRange` for the other numbers from 0xFF00 to 0xFFFE,
/// and `Unknown` for the rest.
pub open spec fn spec_parse_message_type(value: u16) -> MessageType {
    match MessageType::spec_from_primitive(value) {
        Some(t) => t,
        None => if 0xFF00 <= value <= 0xFFFE {
            MessageType::MfgRange
        } else {
            MessageType::Unknown
        },
    }
}

/// The message type that a definition's global number resolves to.
pub fn parse_message_type(value: u16) -> (t: MessageType)
    ensures
        t == spec_parse_message_type(value),
{
    match MessageType::from_primitive(value) {
        Some(message_type) => message_type,
        None => {
            if 0xFF00 <= value && value <= 0xFFFE {
                MessageType::MfgRange
            } else {
                MessageType::Unknown
            }
        },
    }
}

/// Appends the global number of a message type in the given byte order.
pub fn write_message_type(value: &MessageType, writer: &mut Vec<u8>, endian: Endian)
    ensures
        final(writer)@ == old(writer)@ + spec_u16_bytes(
            value.spec_to_primitive(),
            endian,
        ),
{
    write_bin_u16(writer, value.to_primitive(), endian);
}

/// A message type resolves from its own number to itself.
pub proof fn lemma_parse_of_primitive(t: MessageType)
    ensures
        spec_parse_message_type(t.spec_to_primitive()) == t,
{
}

} // verus!
