use vstd::prelude::*;

verus! {

/// A failure of the network backend, in a few words.
#[derive(Debug, Clone)]
pub struct Error {
    pub message: &'static str,
}

impl Error {
    /// The failure as text.
    pub fn to_string(&self) -> (text: String)
        ensures
            text@ == self.message@,
    {
        String::from_str(self.message)
    }
}

/// A failed operation on an access point.
#[derive(Debug, Clone)]
pub struct ConnectionError {
    pub method: &'static str,
}

impl ConnectionError {
    /// The failure as a sentence that names the operation.
    pub fn to_string(&self) -> (text: String)
        ensures
            text@ == "Could not "@ + self.method@ + " Access Point."@,
    {
        let mut text = String::from_str("Could not ");
        text.append(self.method);
        text.append(" Access Point.");
        text
    }
}

/// The kind of a network device, as the network manager numbers it.
#[derive(Clone, Copy, Debug, PartialEq, Eq)]
pub enum DeviceType {
    UNKNOWN,
    GENERIC,
    WIFI,
    BT,
    DUMMY,
    OTHER,
}

impl DeviceType {
    /// The kind that a number stands for; a number that names none stands
    /// for `OTHER`.
    pub open spec fn of_number(num: int) -> Self {
        if num == 0 {
            DeviceType::UNKNOWN
        } else if num == 1 {
            DeviceType::GENERIC
        } else if num == 2 {
            DeviceType::WIFI
        } else if num == 5 {
            DeviceType::BT
        } else if num == 22 {
            DeviceType::DUMMY
        } else {
            DeviceType::OTHER
        }
    }

    /// The number of a kind.
    pub open spec fn number(&self) -> int {
        match self {
            DeviceType::UNKNOWN => 0,
            DeviceType::GENERIC => 1,
            DeviceType::WIFI => 2,
            DeviceType::BT => 5,
            DeviceType::DUMMY => 22,
            DeviceType::OTHER => 90,
        }
    }

    /// The number of a kind stands for that kind again.
    pub proof fn lemma_number_round_trip(self)
        ensures
            Self::of_number(self.number()) == self,
    {
    }

    pub fn from_u32(num: u32) -> (kind: Self)
        ensures
            kind == Self::of_number(num as int),
    {
        match num {
            0 => DeviceType::UNKNOWN,
            1 => DeviceType::GENERIC,
            2 => DeviceType::WIFI,
            5 => DeviceType::BT,
            22 => DeviceType::DUMMY,
            _ => DeviceType::OTHER,
        }
    }

    pub fn _to_u32(&self) -> (num: u32)
        ensures
            num == self.number(),
    {
        match self {
            DeviceType::UNKNOWN => 0,
            DeviceType::GENERIC => 1,
            DeviceType::WIFI => 2,
            DeviceType::BT => 5,
            DeviceType::DUMMY => 22,
            DeviceType::OTHER => 90,
        }
    }
}

/// How well a wireless network is received.
#[derive(Clone, Copy, Debug, PartialEq, Eq)]
pub enum WifiStrength {
    Excellent,
    Okay,
    Weak,
    NoSignal,
}

impl Default for WifiStrength {
    fn default() -> (strength: Self)
        ensures
            strength is NoSignal,
    {
        WifiStrength::NoSignal
    }
}

impl WifiStrength {
    /// The reception that a signal strength stands for.
    pub open spec fn of_signal(num: int) -> Self {
        if 0 <= num <= 42 {
            WifiStrength::Weak
        } else if 43 <= num <= 84 {
            WifiStrength::Okay
        } else if 85 <= num <= 128 {
            WifiStrength::Excellent
        } else {
            WifiStrength::NoSignal
        }
    }

    pub fn from_u8(num: u8) -> (strength: Self)
        ensures
            strength == Self::of_signal(num as int),
    {
        if num <= 42 {
            WifiStrength::Weak
        } else if num <= 84 {
            WifiStrength::Okay
        } else if num <= 128 {
            WifiStrength::Excellent
        } else {
            WifiStrength::NoSignal
        }
    }
}

/// A wireless network in reach. The two paths are object paths on the bus.
#[derive(Debug, Clone, Default)]
pub struct AccessPoint {
    pub ssid: Vec<u8>,
    pub strength: u8,
    pub associated_connection: String,
    pub dbus_path: String,
    pub stored: bool,
}

} // verus!
