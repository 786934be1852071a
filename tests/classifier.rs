use bluetooth_registry::classifier::classify;
use bluetooth_registry::{BluetoothMajor, BluetoothMinor, BluetoothState};

#[test]
fn major_codes_map_in_order() {
    assert_eq!(BluetoothMajor::from_code(0), BluetoothMajor::Miscellaneous);
    assert_eq!(BluetoothMajor::from_code(1), BluetoothMajor::Computer);
    assert_eq!(BluetoothMajor::from_code(4), BluetoothMajor::AudioVideo);
    assert_eq!(BluetoothMajor::from_code(5), BluetoothMajor::Peripheral);
    assert_eq!(BluetoothMajor::from_code(9), BluetoothMajor::Health);
}

#[test]
fn unmapped_major_is_unknown() {
    assert_eq!(BluetoothMajor::from_code(10), BluetoothMajor::Unkown);
    assert_eq!(BluetoothMajor::from_code(31), BluetoothMajor::Unkown);
    assert_eq!(BluetoothMajor::from_code(-1), BluetoothMajor::Unkown);
    assert_eq!(
        classify(31, 3),
        (BluetoothMajor::Unkown, BluetoothMinor::Uncategorized, BluetoothMinor::Uncategorized)
    );
}

#[test]
fn connection_status_codes() {
    assert_eq!(BluetoothState::from_code(0), BluetoothState::Disconnected);
    assert_eq!(BluetoothState::from_code(1), BluetoothState::Connected);
    assert_eq!(BluetoothState::from_code(2), BluetoothState::Unkown);
}

#[test]
fn computer_table() {
    assert_eq!(
        BluetoothMinor::parse_main(3, BluetoothMajor::Computer),
        BluetoothMinor::ComputerLaptop
    );
    assert_eq!(
        BluetoothMinor::parse_main(7, BluetoothMajor::Computer),
        BluetoothMinor::ComputerTablet
    );
    assert_eq!(
        BluetoothMinor::parse_main(8, BluetoothMajor::Computer),
        BluetoothMinor::Uncategorized
    );
    assert_eq!(
        BluetoothMinor::parse_sub(3, BluetoothMajor::Computer),
        BluetoothMinor::Uncategorized
    );
}

#[test]
fn family_tables() {
    assert_eq!(
        BluetoothMinor::parse_main(3, BluetoothMajor::Phone),
        BluetoothMinor::PhoneSmartPhone
    );
    assert_eq!(
        BluetoothMinor::parse_main(0, BluetoothMajor::NetworkAccessPoint),
        BluetoothMinor::NetworkFullyAvailable
    );
    assert_eq!(
        BluetoothMinor::parse_main(56, BluetoothMajor::NetworkAccessPoint),
        BluetoothMinor::NetworkNoServiceAvailable
    );
    assert_eq!(
        BluetoothMinor::parse_main(6, BluetoothMajor::AudioVideo),
        BluetoothMinor::AudioVideoHeadphones
    );
    assert_eq!(
        BluetoothMinor::parse_main(18, BluetoothMajor::AudioVideo),
        BluetoothMinor::AudioVideoGamingOrToy
    );
    assert_eq!(
        BluetoothMinor::parse_main(17, BluetoothMajor::AudioVideo),
        BluetoothMinor::Uncategorized
    );
    assert_eq!(
        BluetoothMinor::parse_main(1, BluetoothMajor::Wearable),
        BluetoothMinor::WearableWristwatch
    );
    assert_eq!(
        BluetoothMinor::parse_main(4, BluetoothMajor::Toy),
        BluetoothMinor::ToyController
    );
    assert_eq!(
        BluetoothMinor::parse_main(15, BluetoothMajor::Health),
        BluetoothMinor::HealthPersonalMobilityDevice
    );
    assert_eq!(
        BluetoothMinor::parse_main(1, BluetoothMajor::Imaging),
        BluetoothMinor::Uncategorized
    );
    assert_eq!(
        BluetoothMinor::parse_main(1, BluetoothMajor::Miscellaneous),
        BluetoothMinor::Uncategorized
    );
}

#[test]
fn peripheral_bit_split() {
    let minor = 0b0001_0011;
    assert_eq!(
        BluetoothMinor::parse_main(minor, BluetoothMajor::Peripheral),
        BluetoothMinor::PeripheralPointer
    );
    assert_eq!(
        BluetoothMinor::parse_sub(minor, BluetoothMajor::Peripheral),
        BluetoothMinor::PeripheralRemoteControl
    );
    assert_eq!(
        classify(5, 0b0001_0010),
        (
            BluetoothMajor::Peripheral,
            BluetoothMinor::PeripheralPointer,
            BluetoothMinor::PeripheralGamepad
        )
    );
}

#[test]
fn peripheral_facets_are_independent() {
    // same kind bits, different low nibble
    assert_eq!(
        BluetoothMinor::parse_main(0b10_0000, BluetoothMajor::Peripheral),
        BluetoothMinor::PeripheralKeyboard
    );
    assert_eq!(
        BluetoothMinor::parse_main(0b10_1001, BluetoothMajor::Peripheral),
        BluetoothMinor::PeripheralKeyboard
    );
    assert_eq!(
        BluetoothMinor::parse_sub(0b10_1001, BluetoothMajor::Peripheral),
        BluetoothMinor::PeripheralHandheldGesture
    );
    // same low nibble, different kind bits
    assert_eq!(
        BluetoothMinor::parse_sub(0b11_0001, BluetoothMajor::Peripheral),
        BluetoothMinor::PeripheralJoystick
    );
    assert_eq!(
        BluetoothMinor::parse_main(0b11_0001, BluetoothMajor::Peripheral),
        BluetoothMinor::PeripheralKeyboardAndPointer
    );
    assert_eq!(
        BluetoothMinor::parse_main(0b00_0001, BluetoothMajor::Peripheral),
        BluetoothMinor::PeripheralOther
    );
    assert_eq!(
        BluetoothMinor::parse_sub(0b00_1111, BluetoothMajor::Peripheral),
        BluetoothMinor::Uncategorized
    );
}

#[test]
fn classifier_is_total() {
    for major in -2..40 {
        for minor in -70..130 {
            let (m, main, sub) = classify(major, minor);
            if !(0..=9).contains(&major) {
                assert_eq!(m, BluetoothMajor::Unkown);
                assert_eq!(main, BluetoothMinor::Uncategorized);
            }
            if m != BluetoothMajor::Peripheral {
                assert_eq!(sub, BluetoothMinor::Uncategorized);
            } else {
                assert_ne!(main, BluetoothMinor::Uncategorized);
            }
        }
    }
    let (_, main, _) = classify(5, i32::MIN);
    assert_eq!(main, BluetoothMinor::PeripheralOther);
    let (_, main, sub) = classify(5, -1);
    assert_eq!(main, BluetoothMinor::PeripheralKeyboardAndPointer);
    assert_eq!(sub, BluetoothMinor::Uncategorized);
}
