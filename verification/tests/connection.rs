use re_set_lib::network::connection::{
    address_from_parts, get_addresses, section_named, Band, Connection, ConnectionSettings, DNSMethod4, DNSMethod6,
    Duplex, EthernetSettings, IPV4Settings, IPV6PrivacyMode, IPV6Settings, KeyManagement, Mode,
    PropMapConvert, SecretSettingsFlag, Section, Trust, TypeSettings, VPNSettings, WEPKeyType,
    WifiSecuritySettings, WifiSettings,
};
use re_set_lib::network::propmap::PropMap;
use re_set_lib::utils::variant::{TVariant, Variant};
use std::collections::HashMap;

fn names(map: &PropMap) -> Vec<&str> {
    map.entries().iter().map(|entry| entry.0.as_str()).collect()
}

#[test]
fn property_map_keeps_the_later_value() {
    let mut map = PropMap::new();
    assert!(map.get("mtu").is_none());
    map.insert("mtu", 1500u32.into_variant());
    map.insert("name", "eth0".to_string().into_variant());
    map.insert("mtu", 9000u32.into_variant());
    assert_eq!(map.cast::<u32>("mtu"), Some(9000));
    assert_eq!(map.cast::<i32>("mtu"), None);
    assert_eq!(map.cast::<String>("name"), Some("eth0".to_string()));
    assert_eq!(map.cast::<u32>("speed"), None);
    assert_eq!(map.cast_or::<u32>("speed", 7), 7);
    assert_eq!(map.cast_or::<u32>("mtu", 7), 9000);
    assert_eq!(map.text_or("name", "none"), "eth0");
    assert_eq!(map.text_or("mtu", "none"), "none");
    assert!(map.list::<u8>("ssid").is_empty());
    assert!(map.dict("data").is_empty());
    map.put("ssid", &vec![1u8, 2, 3]);
    assert_eq!(map.list::<u8>("ssid"), vec![1, 2, 3]);
    assert_eq!(map.get("ssid").unwrap().to_value_cloned::<Vec<u8>>().unwrap(), vec![1, 2, 3]);
    assert_eq!(map.entries().len(), 4);
}

#[test]
fn ethernet_settings_defaults_and_values() {
    let read = EthernetSettings::from_propmap(&PropMap::new());
    assert!(read.auto_negotiate);
    assert_eq!(read.cloned_mac_address, "");
    assert_eq!(read.duplex, Duplex::FULL);
    assert_eq!(read.mtu, 0);
    assert_eq!(read.name, "");
    assert_eq!(read.speed, 0);

    let mut map = PropMap::new();
    map.put("auto-negotiate", &false);
    map.put("cloned-mac-address", &"aa:bb".to_string());
    map.put("mode", &"half".to_string());
    map.put("mtu", &1500u32);
    map.put("name", &"eth0".to_string());
    map.put("speed", &"fast".to_string());
    let read = EthernetSettings::from_propmap(&map);
    assert!(!read.auto_negotiate);
    assert_eq!(read.cloned_mac_address, "aa:bb");
    assert_eq!(read.duplex, Duplex::HALF);
    assert_eq!(read.mtu, 1500);
    assert_eq!(read.name, "eth0");
    assert_eq!(read.speed, 0);

    let written = read.to_propmap();
    assert_eq!(names(&written), vec!["auto-negotiate", "duplex", "mtu", "name", "speed"]);
    assert_eq!(written.cast::<bool>("auto-negotiate"), Some(false));
    assert_eq!(written.cast::<i32>("duplex"), Some(0));
    assert_eq!(written.cast::<u32>("mtu"), Some(1500));
    assert_eq!(written.cast::<String>("name"), Some("eth0".to_string()));
    assert_eq!(written.cast::<u32>("speed"), Some(0));
}

#[test]
fn vpn_settings_carry_maps() {
    let read = VPNSettings::from_propmap(&PropMap::new());
    assert_eq!(read.name, "vpn");
    assert!(read.data.is_empty() && read.secrets.is_empty());
    assert!(!read.persistent);
    let mut secrets = HashMap::new();
    secrets.insert("password".to_string(), "hunter2".to_string());
    let mut map = PropMap::new();
    map.put("secrets", &secrets);
    map.put("timeout", &30u32);
    map.put("user-name", &"me".to_string());
    map.put("service-type", &"openvpn".to_string());
    map.put("persistent", &true);
    let read = VPNSettings::from_propmap(&map);
    assert_eq!(read.secrets, secrets);
    assert_eq!(read.timeout, 30);
    assert_eq!(read.user_name, "me");
    assert_eq!(read.service_type, "openvpn");
    assert!(read.persistent);
    let written = read.to_propmap();
    assert_eq!(
        names(&written),
        vec!["data", "name", "persistent", "secrets", "service-type", "timeout", "user-name"]
    );
    assert_eq!(written.cast::<HashMap<String, String>>("secrets"), Some(secrets));
    assert_eq!(written.cast::<String>("name"), Some("vpn".to_string()));
}

#[test]
fn wifi_settings_write_the_band_only_where_set() {
    let read = WifiSettings::from_propmap(&PropMap::new());
    assert_eq!(read.band, Band::NONE);
    assert_eq!(read.mode, Mode::INFRASTRUCTURE);
    assert!(read.ssid.is_empty());
    assert_eq!(
        names(&read.to_propmap()),
        vec!["channel", "mode", "mtu", "powersave", "rate", "ssid"]
    );
    let mut map = PropMap::new();
    map.put("band", &"a".to_string());
    map.put("mode", &"ap".to_string());
    map.put("ssid", &vec![104u8, 105]);
    map.put("channel", &11u32);
    let read = WifiSettings::from_propmap(&map);
    assert_eq!(read.band, Band::_5GHZ);
    assert_eq!(read.mode, Mode::AP);
    assert_eq!(read.ssid, vec![104, 105]);
    assert_eq!(read.channel, 11);
    let written = read.to_propmap();
    assert_eq!(
        names(&written),
        vec!["band", "channel", "mode", "mtu", "powersave", "rate", "ssid"]
    );
    assert_eq!(written.cast::<String>("band"), Some("bg".to_string()));
    assert_eq!(written.cast::<String>("mode"), Some("ap".to_string()));
    assert_eq!(written.cast::<Vec<u8>>("ssid"), Some(vec![104, 105]));
}

#[test]
fn ip_settings_read_and_write() {
    let read = IPV4Settings::from_propmap(&PropMap::new());
    assert!(read.address_data.is_empty() && read.route_data.is_empty());
    assert!(read.may_fail && read.never_default);
    assert!(!read.ignore_auto_dns && !read.ignore_auto_routes);
    assert_eq!(read.method, DNSMethod4::DISABLED);
    assert!(!names(&read.to_propmap()).contains(&"gateway"));

    let address = ("10.0.0.2".to_string(), 24u32, "10.0.0.1".to_string(), 100i64);
    let mut map = PropMap::new();
    map.put("address-data", &vec![address.clone()]);
    map.put("dns", &vec![16843009u32]);
    map.put("dns-priority", &-5i32);
    map.put("gateway", &"10.0.0.1".to_string());
    map.put("method", &"manual".to_string());
    map.put("may-fail", &false);
    let read = IPV4Settings::from_propmap(&map);
    assert_eq!(read.address_data, vec![address.clone()]);
    assert_eq!(get_addresses(&map, "address-data"), vec![address.clone()]);
    assert!(get_addresses(&map, "route-data").is_empty());
    assert_eq!(read.dns, vec![16843009]);
    assert_eq!(read.dns_priority, -5);
    assert_eq!(read.method, DNSMethod4::MANUAL);
    assert!(!read.may_fail);
    let written = read.to_propmap();
    assert_eq!(written.cast::<String>("gateway"), Some("10.0.0.1".to_string()));
    assert_eq!(written.cast::<String>("method"), Some("manual".to_string()));
    assert_eq!(written.entries().len(), 12);

    let read = IPV6Settings::from_propmap(&PropMap::new());
    assert_eq!(read.ip6_privacy, IPV6PrivacyMode::UNKNOWN);
    assert_eq!(read.method, DNSMethod6::DISABLED);
    let mut map = PropMap::new();
    map.put("ip6-privacy", &1i32);
    map.put("dns", &vec![vec![0u8; 16]]);
    map.put("method", &"dhcp".to_string());
    let read = IPV6Settings::from_propmap(&map);
    assert_eq!(read.ip6_privacy, IPV6PrivacyMode::ENABLEDPEFERPUBLIC);
    assert_eq!(read.dns, vec![vec![0u8; 16]]);
    assert_eq!(read.method, DNSMethod6::DHCP);
    let written = read.to_propmap();
    assert_eq!(written.cast::<i32>("ip6-privacy"), Some(1));
    assert_eq!(written.entries().len(), 12);
}

#[test]
fn connection_settings_read_and_write() {
    let read = ConnectionSettings::from_propmap(&PropMap::new());
    assert!(!read.autoconnect);
    assert_eq!(read.autoconnect_priority, -1);
    assert_eq!(read.metered, 0);
    assert_eq!(read.zone, Trust::DEFAULT);
    let mut map = PropMap::new();
    map.put("id", &"home".to_string());
    map.put("type", &"802-11-wireless".to_string());
    map.put("uuid", &"1-2-3".to_string());
    map.put("trust", &"Work".to_string());
    map.put("autoconnect", &true);
    let read = ConnectionSettings::from_propmap(&map);
    assert_eq!(read.id, "home");
    assert_eq!(read.device_type, "802-11-wireless");
    assert_eq!(read.uuid, "1-2-3");
    assert_eq!(read.zone, Trust::WORK);
    assert!(read.autoconnect);
    let written = read.to_propmap();
    assert_eq!(
        names(&written),
        vec!["autoconnect", "autoconnect-priority", "id", "metered", "type", "uuid", "zone"]
    );
    assert_eq!(written.cast::<i32>("zone"), Some(1));
}

#[test]
fn security_settings_read_and_write() {
    let read = WifiSecuritySettings::from_propmap(&PropMap::new());
    assert_eq!(read.key_management, KeyManagement::WPAPSK);
    assert_eq!(read.psk_flags, SecretSettingsFlag::NONE);
    assert_eq!(read.wep_key_type, WEPKeyType::UNKNOWN);
    assert_eq!(
        names(&read.to_propmap()),
        vec!["group", "key-mgmt", "leap-password-flags", "pairwise", "proto", "wep-key-type"]
    );
    let mut map = PropMap::new();
    map.put("key-mgmt", &"wpa-eap".to_string());
    map.put("psk", &"secret".to_string());
    map.put("psk-flags", &1u32);
    map.put("leap-password-flags", &u32::MAX);
    map.put("wep-key-type", &2u32);
    map.put("wep-key1", &"key".to_string());
    map.put("wep-tx-keyidx", &3u32);
    map.put("proto", &vec!["rsn".to_string()]);
    let read = WifiSecuritySettings::from_propmap(&map);
    assert_eq!(read.key_management, KeyManagement::WPAEAP);
    assert_eq!(read.psk, "secret");
    assert_eq!(read.psk_flags, SecretSettingsFlag::AgentOwned);
    assert_eq!(read.leap_password_flags, SecretSettingsFlag::NotRequired);
    assert_eq!(read.wep_key_type, WEPKeyType::PASSPHRASE);
    assert_eq!(read.wep_tx_keyidx, 3);
    assert_eq!(read.proto, vec!["rsn"]);
    let written = read.to_propmap();
    assert_eq!(
        names(&written),
        vec!["group", "key-mgmt", "leap-password-flags", "pairwise", "proto", "psk", "wep-key1"]
    );
    assert_eq!(written.cast::<String>("key-mgmt"), Some("wpa-eap".to_string()));
    assert_eq!(written.cast::<i32>("leap-password-flags"), Some(3));
}

fn section(name: &str, entries: Vec<(&str, Variant)>) -> (String, PropMap) {
    let mut map = PropMap::new();
    for (key, value) in entries {
        map.insert(key, value);
    }
    (name.to_string(), map)
}

#[test]
fn connection_from_sections() {
    let sections = vec![
        section("802-3-ethernet", vec![("mtu", 1400u32.into_variant())]),
        section("connection", vec![("id", "home".to_string().into_variant())]),
        section("ipv4", vec![("method", "auto".to_string().into_variant())]),
        section("proxy", vec![]),
        section("ipv6", vec![("method", "auto".to_string().into_variant())]),
        section("802-11-wireless", vec![("ssid", vec![1u8].into_variant()), ("psk", "pw".to_string().into_variant())]),
    ];
    let connection = Connection::convert_from_propmap(&sections).unwrap();
    assert_eq!(connection.settings.id, "home");
    assert_eq!(connection.ipv4.method, DNSMethod4::AUTO);
    assert_eq!(connection.ipv6.method, DNSMethod6::AUTO);
    match &connection.device {
        TypeSettings::WIFI(wifi, security) => {
            assert_eq!(wifi.ssid, vec![1]);
            assert_eq!(security.psk, "pw");
        }
        _ => panic!("the last section of a device is the wireless one"),
    }
    assert_eq!(connection.device.to_string(), "wifi");
    let written = connection.convert_to_propmap();
    let order: Vec<&str> = written.iter().map(|entry| entry.0.as_str()).collect();
    assert_eq!(
        order,
        vec!["connection", "802-11-wireless", "802-11-wireless-security", "ipv4", "ipv6"]
    );
    assert_eq!(written[0].1.cast::<String>("id"), Some("home".to_string()));
    assert_eq!(written[1].1.cast::<Vec<u8>>("ssid"), Some(vec![1]));
    assert_eq!(written[2].1.cast::<String>("psk"), Some("pw".to_string()));
}

#[test]
fn connection_needs_all_four_sections() {
    let full = || {
        vec![
            section("connection", vec![]),
            section("vpn", vec![]),
            section("ipv4", vec![]),
            section("ipv6", vec![]),
        ]
    };
    let connection = Connection::convert_from_propmap(&full()).unwrap();
    assert!(matches!(connection.device, TypeSettings::VPN(_)));
    let order: Vec<String> =
        connection.convert_to_propmap().into_iter().map(|entry| entry.0).collect();
    assert_eq!(order, vec!["connection", "vpn", "ipv4", "ipv6"]);
    for missing in 0..4 {
        let mut sections = full();
        sections.remove(missing);
        let error = Connection::convert_from_propmap(&sections).unwrap_err();
        assert_eq!(error.message, "could not convert propmap");
    }
    assert!(Connection::convert_from_propmap(&Vec::new()).is_err());
}

#[test]
fn sections_by_name() {
    assert_eq!(section_named("802-11-wireless"), Section::Wireless);
    assert_eq!(section_named("802-3-ethernet"), Section::Ethernet);
    assert_eq!(section_named("vpn"), Section::Vpn);
    assert_eq!(section_named("ipv6"), Section::Ipv6);
    assert_eq!(section_named("ipv4"), Section::Ipv4);
    assert_eq!(section_named("connection"), Section::General);
    assert_eq!(section_named("802-1x"), Section::Unknown);
}

#[test]
fn address_from_what_the_entry_gives() {
    assert_eq!(
        address_from_parts(None, None, None, None),
        (String::new(), 0, String::new(), -1)
    );
    assert_eq!(
        address_from_parts(Some("10.0.0.2".to_string()), Some(24), Some("10.0.0.1".to_string()), Some(7)),
        ("10.0.0.2".to_string(), 24, "10.0.0.1".to_string(), 7)
    );
    assert_eq!(
        address_from_parts(None, Some(8), Some("gw".to_string()), None),
        (String::new(), 8, "gw".to_string(), -1)
    );
}
