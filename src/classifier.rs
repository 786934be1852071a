//! Decoding of the class-of-device code into a two-level taxonomy.
//!
//! The major code selects a device family; the minor code is read according
//! to the family's own layout. For peripherals the minor code carries two
//! independent facets: bits 4 and 5 say whether the device points, types or
//! both, and bits 0 to 3 name a further function (joystick, gamepad, ...).

use vstd::prelude::*;

verus! {

/// Connection state of a device as last reported by the operating system.
#[derive(Debug, Clone, Copy, PartialEq, Eq, Structural)]
pub enum BluetoothState {
    Connected,
    Disconnected,
    Unkown,
}

/// Device family, taken from the major part of the class-of-device code.
#[derive(Debug, Clone, Copy, PartialEq, Eq, Structural)]
pub enum BluetoothMajor {
    Miscellaneous,
    Computer,
    Phone,
    NetworkAccessPoint,
    AudioVideo,
    Peripheral,
    Imaging,
    Wearable,
    Toy,
    Health,
    Unkown,
}

/// Device category within a family, taken from the minor part of the
/// class-of-device code.
#[derive(Debug, Clone, Copy, PartialEq, Eq, Structural)]
pub enum BluetoothMinor {
    Uncategorized,
    ComputerDesktop,
    ComputerServer,
    ComputerLaptop,
    ComputerHandheld,
    ComputerPalmSize,
    ComputerWearable,
    ComputerTablet,
    PhoneCellular,
    PhoneCordless,
    PhoneSmartPhone,
    PhoneWired,
    PhoneIsdn,
    NetworkFullyAvailable,
    NetworkUsed01To17Percent,
    NetworkUsed17To33Percent,
    NetworkUsed33To50Percent,
    NetworkUsed50To67Percent,
    NetworkUsed67To83Percent,
    NetworkUsed83To99Percent,
    NetworkNoServiceAvailable,
    AudioVideoWearableHeadset,
    AudioVideoHandsFree,
    AudioVideoMicrophone,
    AudioVideoLoudspeaker,
    AudioVideoHeadphones,
    AudioVideoPortableAudio,
    AudioVideoCarAudio,
    AudioVideoSetTopBox,
    AudioVideoHifiAudioDevice,
    AudioVideoVcr,
    AudioVideoVideoCamera,
    AudioVideoCamcorder,
    AudioVideoVideoMonitor,
    AudioVideoVideoDisplayAndLoudspeaker,
    AudioVideoVideoConferencing,
    AudioVideoGamingOrToy,
    PeripheralJoystick,
    PeripheralGamepad,
    PeripheralRemoteControl,
    PeripheralSensing,
    PeripheralDigitizerTablet,
    PeripheralCardReader,
    PeripheralDigitalPen,
    PeripheralHandheldScanner,
    PeripheralHandheldGesture,
    WearableWristwatch,
    WearablePager,
    WearableJacket,
    WearableHelmet,
    WearableGlasses,
    ToyRobot,
    ToyVehicle,
    ToyDoll,
    ToyController,
    ToyGame,
    HealthBloodPressureMonitor,
    HealthThermometer,
    HealthWeighingScale,
    HealthGlucoseMeter,
    HealthPulseOximeter,
    HealthHeartRateMonitor,
    HealthHealthDataDisplay,
    HealthStepCounter,
    HealthBodyCompositionAnalyzer,
    HealthPeakFlowMonitor,
    HealthMedicationMonitor,
    HealthKneeProsthesis,
    HealthAnkleProsthesis,
    HealthGenericHealthManager,
    HealthPersonalMobilityDevice,
    PeripheralOther,
    PeripheralPointer,
    PeripheralKeyboard,
    PeripheralKeyboardAndPointer,
}

/// Connection status code: 0 is disconnected, 1 is connected.
pub open spec fn state_of(code: i32) -> BluetoothState {
    if code == 1 {
        BluetoothState::Connected
    } else if code == 0 {
        BluetoothState::Disconnected
    } else {
        BluetoothState::Unkown
    }
}

/// Major class codes 0 to 9 name the families in declaration order; any other
/// code is unknown.
pub open spec fn major_of(code: i32) -> BluetoothMajor {
    match code {
        0 => BluetoothMajor::Miscellaneous,
        1 => BluetoothMajor::Computer,
        2 => BluetoothMajor::Phone,
        3 => BluetoothMajor::NetworkAccessPoint,
        4 => BluetoothMajor::AudioVideo,
        5 => BluetoothMajor::Peripheral,
        6 => BluetoothMajor::Imaging,
        7 => BluetoothMajor::Wearable,
        8 => BluetoothMajor::Toy,
        9 => BluetoothMajor::Health,
        _ => BluetoothMajor::Unkown,
    }
}

/// Minor codes of the computer family.
pub open spec fn computer_minor(code: i32) -> BluetoothMinor {
    match code {
        1 => BluetoothMinor::ComputerDesktop,
        2 => BluetoothMinor::ComputerServer,
        3 => BluetoothMinor::ComputerLaptop,
        4 => BluetoothMinor::ComputerHandheld,
        5 => BluetoothMinor::ComputerPalmSize,
        6 => BluetoothMinor::ComputerWearable,
        7 => BluetoothMinor::ComputerTablet,
        _ => BluetoothMinor::Uncategorized,
    }
}

/// Minor codes of the phone family.
pub open spec fn phone_minor(code: i32) -> BluetoothMinor {
    match code {
        1 => BluetoothMinor::PhoneCellular,
        2 => BluetoothMinor::PhoneCordless,
        3 => BluetoothMinor::PhoneSmartPhone,
        4 => BluetoothMinor::PhoneWired,
        5 => BluetoothMinor::PhoneIsdn,
        _ => BluetoothMinor::Uncategorized,
    }
}

/// Minor codes of the network access point family: the load factor.
pub open spec fn network_minor(code: i32) -> BluetoothMinor {
    match code {
        0 => BluetoothMinor::NetworkFullyAvailable,
        8 => BluetoothMinor::NetworkUsed01To17Percent,
        16 => BluetoothMinor::NetworkUsed17To33Percent,
        24 => BluetoothMinor::NetworkUsed33To50Percent,
        32 => BluetoothMinor::NetworkUsed50To67Percent,
        40 => BluetoothMinor::NetworkUsed67To83Percent,
        48 => BluetoothMinor::NetworkUsed83To99Percent,
        56 => BluetoothMinor::NetworkNoServiceAvailable,
        _ => BluetoothMinor::Uncategorized,
    }
}

/// Minor codes of the audio/video family.
pub open spec fn audio_video_minor(code: i32) -> BluetoothMinor {
    match code {
        1 => BluetoothMinor::AudioVideoWearableHeadset,
        2 => BluetoothMinor::AudioVideoHandsFree,
        4 => BluetoothMinor::AudioVideoMicrophone,
        5 => BluetoothMinor::AudioVideoLoudspeaker,
        6 => BluetoothMinor::AudioVideoHeadphones,
        7 => BluetoothMinor::AudioVideoPortableAudio,
        8 => BluetoothMinor::AudioVideoCarAudio,
        9 => BluetoothMinor::AudioVideoSetTopBox,
        10 => BluetoothMinor::AudioVideoHifiAudioDevice,
        11 => BluetoothMinor::AudioVideoVcr,
        12 => BluetoothMinor::AudioVideoVideoCamera,
        13 => BluetoothMinor::AudioVideoCamcorder,
        14 => BluetoothMinor::AudioVideoVideoMonitor,
        15 => BluetoothMinor::AudioVideoVideoDisplayAndLoudspeaker,
        16 => BluetoothMinor::AudioVideoVideoConferencing,
        18 => BluetoothMinor::AudioVideoGamingOrToy,
        _ => BluetoothMinor::Uncategorized,
    }
}

/// The low four bits of a peripheral's minor code: its further function.
pub open spec fn peripheral_function_minor(code: i32) -> BluetoothMinor {
    match code {
        1 => BluetoothMinor::PeripheralJoystick,
        2 => BluetoothMinor::PeripheralGamepad,
        3 => BluetoothMinor::PeripheralRemoteControl,
        4 => BluetoothMinor::PeripheralSensing,
        5 => BluetoothMinor::PeripheralDigitizerTablet,
        6 => BluetoothMinor::PeripheralCardReader,
        7 => BluetoothMinor::PeripheralDigitalPen,
        8 => BluetoothMinor::PeripheralHandheldScanner,
        9 => BluetoothMinor::PeripheralHandheldGesture,
        _ => BluetoothMinor::Uncategorized,
    }
}

/// Minor codes of the wearable family.
pub open spec fn wearable_minor(code: i32) -> BluetoothMinor {
    match code {
        1 => BluetoothMinor::WearableWristwatch,
        2 => BluetoothMinor::WearablePager,
        3 => BluetoothMinor::WearableJacket,
        4 => BluetoothMinor::WearableHelmet,
        5 => BluetoothMinor::WearableGlasses,
        _ => BluetoothMinor::Uncategorized,
    }
}

/// Minor codes of the toy family.
pub open spec fn toy_minor(code: i32) -> BluetoothMinor {
    match code {
        1 => BluetoothMinor::ToyRobot,
        2 => BluetoothMinor::ToyVehicle,
        3 => BluetoothMinor::ToyDoll,
        4 => BluetoothMinor::ToyController,
        5 => BluetoothMinor::ToyGame,
        _ => BluetoothMinor::Uncategorized,
    }
}

/// Minor codes of the health family.
pub open spec fn health_minor(code: i32) -> BluetoothMinor {
    match code {
        1 => BluetoothMinor::HealthBloodPressureMonitor,
        2 => BluetoothMinor::HealthThermometer,
        3 => BluetoothMinor::HealthWeighingScale,
        4 => BluetoothMinor::HealthGlucoseMeter,
        5 => BluetoothMinor::HealthPulseOximeter,
        6 => BluetoothMinor::HealthHeartRateMonitor,
        7 => BluetoothMinor::HealthHealthDataDisplay,
        8 => BluetoothMinor::HealthStepCounter,
        9 => BluetoothMinor::HealthBodyCompositionAnalyzer,
        10 => BluetoothMinor::HealthPeakFlowMonitor,
        11 => BluetoothMinor::HealthMedicationMonitor,
        12 => BluetoothMinor::HealthKneeProsthesis,
        13 => BluetoothMinor::HealthAnkleProsthesis,
        14 => BluetoothMinor::HealthGenericHealthManager,
        15 => BluetoothMinor::HealthPersonalMobilityDevice,
        _ => BluetoothMinor::Uncategorized,
    }
}

/// Bits 4 and 5 of a peripheral's minor code: pointing, keyboard, both or neither.
pub open spec fn peripheral_kind(bits: i32) -> BluetoothMinor {
    match bits {
        0 => BluetoothMinor::PeripheralOther,
        1 => BluetoothMinor::PeripheralPointer,
        2 => BluetoothMinor::PeripheralKeyboard,
        3 => BluetoothMinor::PeripheralKeyboardAndPointer,
        _ => BluetoothMinor::Uncategorized,
    }
}

/// The main facet of a minor code under a given family.
pub open spec fn minor_main_of(minor: i32, major: BluetoothMajor) -> BluetoothMinor {
    match major {
        BluetoothMajor::Computer => computer_minor(minor),
        BluetoothMajor::Phone => phone_minor(minor),
        BluetoothMajor::NetworkAccessPoint => network_minor(minor),
        BluetoothMajor::AudioVideo => audio_video_minor(minor),
        BluetoothMajor::Peripheral => peripheral_kind((minor >> 4u32) & 3i32),
        BluetoothMajor::Wearable => wearable_minor(minor),
        BluetoothMajor::Toy => toy_minor(minor),
        BluetoothMajor::Health => health_minor(minor),
        _ => BluetoothMinor::Uncategorized,
    }
}

/// The sub facet of a minor code: only peripherals carry one.
pub open spec fn minor_sub_of(minor: i32, major: BluetoothMajor) -> BluetoothMinor {
    match major {
        BluetoothMajor::Peripheral => peripheral_function_minor(minor & 15i32),
        _ => BluetoothMinor::Uncategorized,
    }
}

impl BluetoothState {
    /// Reads a connection status code.
    pub fn from_code(code: i32) -> (r: BluetoothState)
        ensures
            r == state_of(code),
    {
        if code == 1 {
            BluetoothState::Connected
        } else if code == 0 {
            BluetoothState::Disconnected
        } else {
            BluetoothState::Unkown
        }
    }
}

impl BluetoothMajor {
    /// Reads a major class code; unmapped codes give `Unkown`.
    pub fn from_code(code: i32) -> (r: BluetoothMajor)
        ensures
            r == major_of(code),
    {
        match code {
            0 => BluetoothMajor::Miscellaneous,
            1 => BluetoothMajor::Computer,
            2 => BluetoothMajor::Phone,
            3 => BluetoothMajor::NetworkAccessPoint,
            4 => BluetoothMajor::AudioVideo,
            5 => BluetoothMajor::Peripheral,
            6 => BluetoothMajor::Imaging,
            7 => BluetoothMajor::Wearable,
            8 => BluetoothMajor::Toy,
            9 => BluetoothMajor::Health,
            _ => BluetoothMajor::Unkown,
        }
    }
}

impl BluetoothMinor {
    /// The sub facet of `minor` under `major`: for a peripheral, the function
    /// named by the low four bits; for every other family `Uncategorized`.
    pub fn parse_sub(minor: i32, major: BluetoothMajor) -> (r: BluetoothMinor)
        ensures
            r == minor_sub_of(minor, major),
    {
        match major {
            BluetoothMajor::Peripheral => {
                let post: i32 = minor & 0b1111;
                match post {
                    1 => BluetoothMinor::PeripheralJoystick,
                    2 => BluetoothMinor::PeripheralGamepad,
                    3 => BluetoothMinor::PeripheralRemoteControl,
                    4 => BluetoothMinor::PeripheralSensing,
                    5 => BluetoothMinor::PeripheralDigitizerTablet,
                    6 => BluetoothMinor::PeripheralCardReader,
                    7 => BluetoothMinor::PeripheralDigitalPen,
                    8 => BluetoothMinor::PeripheralHandheldScanner,
                    9 => BluetoothMinor::PeripheralHandheldGesture,
                    _ => BluetoothMinor::Uncategorized,
                }
            },
            _ => BluetoothMinor::Uncategorized,
        }
    }

    /// The main facet of `minor` under `major`: the family's own table, or for
    /// a peripheral the kind named by bits 4 and 5; codes outside the table,
    /// and families without one, give `Uncategorized`.
    pub fn parse_main(minor: i32, major: BluetoothMajor) -> (r: BluetoothMinor)
        ensures
            r == minor_main_of(minor, major),
    {
        match major {
            BluetoothMajor::Miscellaneous => BluetoothMinor::Uncategorized,
            BluetoothMajor::Computer => match minor {
                1 => BluetoothMinor::ComputerDesktop,
                2 => BluetoothMinor::ComputerServer,
                3 => BluetoothMinor::ComputerLaptop,
                4 => BluetoothMinor::ComputerHandheld,
                5 => BluetoothMinor::ComputerPalmSize,
                6 => BluetoothMinor::ComputerWearable,
                7 => BluetoothMinor::ComputerTablet,
                _ => BluetoothMinor::Uncategorized,
            },
            BluetoothMajor::Phone => match minor {
                1 => BluetoothMinor::PhoneCellular,
                2 => BluetoothMinor::PhoneCordless,
                3 => BluetoothMinor::PhoneSmartPhone,
                4 => BluetoothMinor::PhoneWired,
                5 => BluetoothMinor::PhoneIsdn,
                _ => BluetoothMinor::Uncategorized,
            },
            BluetoothMajor::NetworkAccessPoint => match minor {
                0 => BluetoothMinor::NetworkFullyAvailable,
                8 => BluetoothMinor::NetworkUsed01To17Percent,
                16 => BluetoothMinor::NetworkUsed17To33Percent,
                24 => BluetoothMinor::NetworkUsed33To50Percent,
                32 => BluetoothMinor::NetworkUsed50To67Percent,
                40 => BluetoothMinor::NetworkUsed67To83Percent,
                48 => BluetoothMinor::NetworkUsed83To99Percent,
                56 => BluetoothMinor::NetworkNoServiceAvailable,
                _ => BluetoothMinor::Uncategorized,
            },
            BluetoothMajor::AudioVideo => match minor {
                1 => BluetoothMinor::AudioVideoWearableHeadset,
                2 => BluetoothMinor::AudioVideoHandsFree,
                4 => BluetoothMinor::AudioVideoMicrophone,
                5 => BluetoothMinor::AudioVideoLoudspeaker,
                6 => BluetoothMinor::AudioVideoHeadphones,
                7 => BluetoothMinor::AudioVideoPortableAudio,
                8 => BluetoothMinor::AudioVideoCarAudio,
                9 => BluetoothMinor::AudioVideoSetTopBox,
                10 => BluetoothMinor::AudioVideoHifiAudioDevice,
                11 => BluetoothMinor::AudioVideoVcr,
                12 => BluetoothMinor::AudioVideoVideoCamera,
                13 => BluetoothMinor::AudioVideoCamcorder,
                14 => BluetoothMinor::AudioVideoVideoMonitor,
                15 => BluetoothMinor::AudioVideoVideoDisplayAndLoudspeaker,
                16 => BluetoothMinor::AudioVideoVideoConferencing,
                18 => BluetoothMinor::AudioVideoGamingOrToy,
                _ => BluetoothMinor::Uncategorized,
            },
            BluetoothMajor::Peripheral => {
                let pre: i32 = (minor >> 4u32) & 0b11;
                match pre {
                    0 => BluetoothMinor::PeripheralOther,
                    1 => BluetoothMinor::PeripheralPointer,
                    2 => BluetoothMinor::PeripheralKeyboard,
                    3 => BluetoothMinor::PeripheralKeyboardAndPointer,
                    _ => BluetoothMinor::Uncategorized,
                }
            },
            BluetoothMajor::Imaging => BluetoothMinor::Uncategorized,
            BluetoothMajor::Wearable => match minor {
                1 => BluetoothMinor::WearableWristwatch,
                2 => BluetoothMinor::WearablePager,
                3 => BluetoothMinor::WearableJacket,
                4 => BluetoothMinor::WearableHelmet,
                5 => BluetoothMinor::WearableGlasses,
                _ => BluetoothMinor::Uncategorized,
            },
            BluetoothMajor::Toy => match minor {
                1 => BluetoothMinor::ToyRobot,
                2 => BluetoothMinor::ToyVehicle,
                3 => BluetoothMinor::ToyDoll,
                4 => BluetoothMinor::ToyController,
                5 => BluetoothMinor::ToyGame,
                _ => BluetoothMinor::Uncategorized,
            },
            BluetoothMajor::Health => match minor {
                1 => BluetoothMinor::HealthBloodPressureMonitor,
                2 => BluetoothMinor::HealthThermometer,
                3 => BluetoothMinor::HealthWeighingScale,
                4 => BluetoothMinor::HealthGlucoseMeter,
                5 => BluetoothMinor::HealthPulseOximeter,
                6 => BluetoothMinor::HealthHeartRateMonitor,
                7 => BluetoothMinor::HealthHealthDataDisplay,
                8 => BluetoothMinor::HealthStepCounter,
                9 => BluetoothMinor::HealthBodyCompositionAnalyzer,
                10 => BluetoothMinor::HealthPeakFlowMonitor,
                11 => BluetoothMinor::HealthMedicationMonitor,
                12 => BluetoothMinor::HealthKneeProsthesis,
                13 => BluetoothMinor::HealthAnkleProsthesis,
                14 => BluetoothMinor::HealthGenericHealthManager,
                15 => BluetoothMinor::HealthPersonalMobilityDevice,
                _ => BluetoothMinor::Uncategorized,
            },
            BluetoothMajor::Unkown => BluetoothMinor::Uncategorized,
        }
    }
}

/// Decodes a major and a minor class code into the family and the two facets
/// of the minor code. Every pair of codes gets a classification.
pub fn classify(major_code: i32, minor_code: i32) -> (r: (BluetoothMajor, BluetoothMinor, BluetoothMinor))
    ensures
        r.0 == major_of(major_code),
        r.1 == minor_main_of(minor_code, r.0),
        r.2 == minor_sub_of(minor_code, r.0),
{
    let major = BluetoothMajor::from_code(major_code);
    let main = BluetoothMinor::parse_main(minor_code, major);
    let sub = BluetoothMinor::parse_sub(minor_code, major);
    (major, main, sub)
}

/// The classification never fails: a major code outside 0 to 9 is `Unkown`
/// with both facets `Uncategorized`; only a peripheral has a sub facet; and a
/// peripheral's main facet is always one of its four kinds.
pub proof fn lemma_classification_total(major_code: i32, minor_code: i32)
    ensures
        (major_of(major_code) == BluetoothMajor::Unkown) <==> !(0 <= major_code <= 9),
        major_of(major_code) == BluetoothMajor::Unkown ==> {
            &&& minor_main_of(minor_code, major_of(major_code)) == BluetoothMinor::Uncategorized
            &&& minor_sub_of(minor_code, major_of(major_code)) == BluetoothMinor::Uncategorized
        },
        major_of(major_code) != BluetoothMajor::Peripheral ==> minor_sub_of(
            minor_code,
            major_of(major_code),
        ) == BluetoothMinor::Uncategorized,
        major_of(major_code) == BluetoothMajor::Peripheral ==> {
            let m = minor_main_of(minor_code, BluetoothMajor::Peripheral);
            m == BluetoothMinor::PeripheralOther || m == BluetoothMinor::PeripheralPointer
                || m == BluetoothMinor::PeripheralKeyboard || m
                == BluetoothMinor::PeripheralKeyboardAndPointer
        },
{
    assert(0 <= ((minor_code >> 4u32) & 3i32) <= 3) by (bit_vector);
}

/// For a peripheral the two facets come from disjoint bits: replacing the low
/// four bits leaves the main facet as it was, and replacing bits 4 and 5
/// leaves the sub facet as it was.
pub proof fn lemma_peripheral_facets_disjoint(minor: i32, low: i32, kind: i32)
    requires
        0 <= low < 16,
        0 <= kind < 4,
    ensures
        minor_main_of((minor & !15i32) | low, BluetoothMajor::Peripheral) == minor_main_of(
            minor,
            BluetoothMajor::Peripheral,
        ),
        minor_sub_of((minor & !48i32) | (kind << 4u32), BluetoothMajor::Peripheral)
            == minor_sub_of(minor, BluetoothMajor::Peripheral),
        minor_main_of((minor & !48i32) | (kind << 4u32), BluetoothMajor::Peripheral)
            == peripheral_kind(kind),
        minor_sub_of((minor & !15i32) | low, BluetoothMajor::Peripheral)
            == peripheral_function_minor(low),
{
    assert((((minor & !15i32) | low) >> 4u32) & 3i32 == (minor >> 4u32) & 3i32) by (bit_vector)
        requires
            0 <= low < 16,
    ;
    assert(((minor & !48i32) | (kind << 4u32)) & 15i32 == minor & 15i32) by (bit_vector)
        requires
            0 <= kind < 4,
    ;
    assert((((minor & !48i32) | (kind << 4u32)) >> 4u32) & 3i32 == kind) by (bit_vector)
        requires
            0 <= kind < 4,
    ;
    assert(((minor & !15i32) | low) & 15i32 == low) by (bit_vector)
        requires
            0 <= low < 16,
    ;
}

} // verus!
