use re_set_lib::network::connection::{
    Band, DNSMethod4, DNSMethod6, Duplex, Enum, IPV6PrivacyMode, KeyManagement, Mode,
    SecretSettingsFlag, Trust, WEPKeyType,
};
use re_set_lib::network::network::{ConnectionError, DeviceType, Error, WifiStrength};

#[test]
fn trust_texts_and_numbers() {
    assert_eq!(Trust::from_str("Home").unwrap(), Trust::HOME);
    assert_eq!(Trust::from_str("Work").unwrap(), Trust::WORK);
    assert_eq!(Trust::from_str("Public").unwrap(), Trust::PUBLIC);
    assert_eq!(Trust::from_str("home").unwrap(), Trust::DEFAULT);
    assert_eq!(Trust::DEFAULT.to_string(), "null");
    assert_eq!(Trust::from_i32(2), Trust::PUBLIC);
    assert_eq!(Trust::from_i32(17), Trust::DEFAULT);
    assert_eq!(Trust::DEFAULT.to_i32(), 3);
}

#[test]
fn numbers_round_trip() {
    for number in 0..3 {
        assert_eq!(Mode::from_i32(number).to_i32(), number);
        assert_eq!(Band::from_i32(number).to_i32(), number);
        assert_eq!(WEPKeyType::from_i32(number).to_i32(), number);
    }
    for number in 0..5 {
        assert_eq!(DNSMethod4::from_i32(number).to_i32(), number);
    }
    for number in 0..6 {
        assert_eq!(DNSMethod6::from_i32(number).to_i32(), number);
    }
    for number in -1..3 {
        assert_eq!(IPV6PrivacyMode::from_i32(number).to_i32(), number);
    }
    for number in 0..4 {
        assert_eq!(SecretSettingsFlag::from_i32(number).to_i32(), number);
    }
    assert_eq!(Duplex::from_i32(0), Duplex::HALF);
    assert_eq!(Duplex::from_i32(9), Duplex::FULL);
}

#[test]
fn texts_of_settings() {
    assert_eq!(Mode::from_str("adhoc").unwrap(), Mode::ADHOC);
    assert_eq!(Mode::from_str("").unwrap(), Mode::INFRASTRUCTURE);
    assert_eq!(Mode::AP.to_string(), "ap");
    assert_eq!(Band::from_str("a").unwrap(), Band::_5GHZ);
    assert_eq!(Band::from_str("bg").unwrap(), Band::_24GHZ);
    assert_eq!(Band::NONE.to_string(), "");
    assert_eq!(Duplex::from_str("half").unwrap(), Duplex::HALF);
    assert_eq!(Duplex::FULL.to_string(), "full");
    assert_eq!(DNSMethod4::from_str("link-local").unwrap(), DNSMethod4::LINKLOCAL);
    assert_eq!(DNSMethod4::from_str("nothing").unwrap(), DNSMethod4::DISABLED);
    assert_eq!(DNSMethod6::from_str("dhcp").unwrap(), DNSMethod6::DHCP);
    assert_eq!(DNSMethod6::SHARED.to_string(), "shared");
    assert_eq!(
        IPV6PrivacyMode::from_str("enabled-prefer-public").unwrap(),
        IPV6PrivacyMode::ENABLEDPEFERPUBLIC
    );
    assert_eq!(IPV6PrivacyMode::UNKNOWN.to_string(), "unknown");
    assert_eq!(KeyManagement::from_str("wpa-eap"), KeyManagement::WPAEAP);
    assert_eq!(KeyManagement::from_str("what"), KeyManagement::WPAPSK);
    assert_eq!(KeyManagement::IEEE8021X.to_string(), "ieee8021x");
}

#[test]
fn device_kinds() {
    assert_eq!(DeviceType::from_u32(0), DeviceType::UNKNOWN);
    assert_eq!(DeviceType::from_u32(2), DeviceType::WIFI);
    assert_eq!(DeviceType::from_u32(5), DeviceType::BT);
    assert_eq!(DeviceType::from_u32(22), DeviceType::DUMMY);
    assert_eq!(DeviceType::from_u32(3), DeviceType::OTHER);
    assert_eq!(DeviceType::OTHER._to_u32(), 90);
    assert_eq!(DeviceType::from_u32(DeviceType::OTHER._to_u32()), DeviceType::OTHER);
}

#[test]
fn wifi_strength_ranges() {
    assert_eq!(WifiStrength::from_u8(0), WifiStrength::Weak);
    assert_eq!(WifiStrength::from_u8(42), WifiStrength::Weak);
    assert_eq!(WifiStrength::from_u8(43), WifiStrength::Okay);
    assert_eq!(WifiStrength::from_u8(84), WifiStrength::Okay);
    assert_eq!(WifiStrength::from_u8(85), WifiStrength::Excellent);
    assert_eq!(WifiStrength::from_u8(128), WifiStrength::Excellent);
    assert_eq!(WifiStrength::from_u8(129), WifiStrength::NoSignal);
    assert_eq!(WifiStrength::from_u8(255), WifiStrength::NoSignal);
}

#[test]
fn errors_as_text() {
    assert_eq!(Error { message: "no device" }.to_string(), "no device");
    assert_eq!(
        ConnectionError { method: "connect to" }.to_string(),
        "Could not connect to Access Point."
    );
}
