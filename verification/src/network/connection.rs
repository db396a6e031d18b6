use std::collections::HashMap;
use vstd::prelude::*;
use vstd::string::*;

use super::propmap::{number_in, number_value, read_or, text_in, text_value, PropMap};
use crate::utils::text::same_text;
use crate::utils::variant::{wrapped, Content, TVariant, VariantView};

verus! {

/// A type whose values are numbered on the bus.
pub trait Enum: Sized {
    /// The value that a number stands for.
    spec fn of_number(num: int) -> Self;

    /// The number of a value.
    spec fn number(&self) -> int;

    /// The number of a value stands for that value again.
    proof fn number_round_trip(&self)
        ensures
            Self::of_number(self.number()) == *self,
    ;

    fn from_i32(num: i32) -> (value: Self)
        ensures
            value == Self::of_number(num as int),
    ;

    fn to_i32(&self) -> (num: i32)
        ensures
            num == self.number(),
    ;
}

/// Why a value could not be read from what the bus gave.
#[derive(Debug)]
pub struct ConversionError {
    pub message: &'static str,
}

/// How far the network of a connection is trusted.
#[derive(Clone, Copy, Debug, PartialEq, Eq)]
pub enum Trust {
    HOME,
    WORK,
    PUBLIC,
    DEFAULT,
}

impl Default for Trust {
    fn default() -> (value: Self)
        ensures
            value is DEFAULT,
    {
        Trust::DEFAULT
    }
}

impl Trust {
    /// The value that a text stands for; a text that names none stands
    /// for `DEFAULT`.
    pub open spec fn of_text(text: Seq<char>) -> Self {
        if text == "Home"@ {
            Trust::HOME
        } else if text == "Work"@ {
            Trust::WORK
        } else if text == "Public"@ {
            Trust::PUBLIC
        } else {
            Trust::DEFAULT
        }
    }

    /// The text that a value is written as.
    pub open spec fn text(&self) -> Seq<char> {
        match self {
            Trust::HOME => "Home"@,
            Trust::WORK => "Work"@,
            Trust::PUBLIC => "Public"@,
            Trust::DEFAULT => "null"@,
        }
    }

    pub fn from_str(s: &str) -> (value: Result<Self, ConversionError>)
        ensures
            value matches Ok(read) && read == Self::of_text(s@),
    {
        let read = if same_text(s, "Home") {
            Trust::HOME
        } else if same_text(s, "Work") {
            Trust::WORK
        } else if same_text(s, "Public") {
            Trust::PUBLIC
        } else {
            Trust::DEFAULT
        };
        Ok(read)
    }

    pub fn to_string(&self) -> (text: String)
        ensures
            text@ == self.text(),
    {
        match self {
            Trust::HOME => String::from_str("Home"),
            Trust::WORK => String::from_str("Work"),
            Trust::PUBLIC => String::from_str("Public"),
            Trust::DEFAULT => String::from_str("null"),
        }
    }
}

impl Enum for Trust {
    open spec fn of_number(num: int) -> Self {
        if num == 0 {
            Trust::HOME
        } else if num == 1 {
            Trust::WORK
        } else if num == 2 {
            Trust::PUBLIC
        } else {
            Trust::DEFAULT
        }
    }

    open spec fn number(&self) -> int {
        match self {
            Trust::HOME => 0,
            Trust::WORK => 1,
            Trust::PUBLIC => 2,
            Trust::DEFAULT => 3,
        }
    }

    proof fn number_round_trip(&self) {
    }

    fn from_i32(num: i32) -> (value: Self) {
        match num {
            0 => Trust::HOME,
            1 => Trust::WORK,
            2 => Trust::PUBLIC,
            _ => Trust::DEFAULT,
        }
    }

    fn to_i32(&self) -> (num: i32) {
        match self {
            Trust::HOME => 0,
            Trust::WORK => 1,
            Trust::PUBLIC => 2,
            Trust::DEFAULT => 3,
        }
    }
}

/// The mode of a wireless network.
#[derive(Clone, Copy, Debug, PartialEq, Eq)]
pub enum Mode {
    INFRASTRUCTURE,
    ADHOC,
    AP,
}

impl Default for Mode {
    fn default() -> (value: Self)
        ensures
            value is INFRASTRUCTURE,
    {
        Mode::INFRASTRUCTURE
    }
}

impl Mode {
    /// The value that a text stands for; a text that names none stands
    /// for `INFRASTRUCTURE`.
    pub open spec fn of_text(text: Seq<char>) -> Self {
        if text == "adhoc"@ {
            Mode::ADHOC
        } else if text == "ap"@ {
            Mode::AP
        } else {
            Mode::INFRASTRUCTURE
        }
    }

    /// The text that a value is written as.
    pub open spec fn text(&self) -> Seq<char> {
        match self {
            Mode::INFRASTRUCTURE => "infrastructure"@,
            Mode::ADHOC => "adhoc"@,
            Mode::AP => "ap"@,
        }
    }

    pub fn from_str(s: &str) -> (value: Result<Self, ConversionError>)
        ensures
            value matches Ok(read) && read == Self::of_text(s@),
    {
        let read = if same_text(s, "adhoc") {
            Mode::ADHOC
        } else if same_text(s, "ap") {
            Mode::AP
        } else {
            Mode::INFRASTRUCTURE
        };
        Ok(read)
    }

    pub fn to_string(&self) -> (text: String)
        ensures
            text@ == self.text(),
    {
        match self {
            Mode::INFRASTRUCTURE => String::from_str("infrastructure"),
            Mode::ADHOC => String::from_str("adhoc"),
            Mode::AP => String::from_str("ap"),
        }
    }
}

impl Enum for Mode {
    open spec fn of_number(num: int) -> Self {
        if num == 0 {
            Mode::INFRASTRUCTURE
        } else if num == 1 {
            Mode::ADHOC
        } else {
            Mode::AP
        }
    }

    open spec fn number(&self) -> int {
        match self {
            Mode::INFRASTRUCTURE => 0,
            Mode::ADHOC => 1,
            Mode::AP => 2,
        }
    }

    proof fn number_round_trip(&self) {
    }

    fn from_i32(num: i32) -> (value: Self) {
        match num {
            0 => Mode::INFRASTRUCTURE,
            1 => Mode::ADHOC,
            _ => Mode::AP,
        }
    }

    fn to_i32(&self) -> (num: i32) {
        match self {
            Mode::INFRASTRUCTURE => 0,
            Mode::ADHOC => 1,
            Mode::AP => 2,
        }
    }
}

/// The frequency band of a wireless network.
#[derive(Clone, Copy, Debug, PartialEq, Eq)]
pub enum Band {
    _5GHZ,
    _24GHZ,
    NONE,
}

impl Default for Band {
    fn default() -> (value: Self)
        ensures
            value is NONE,
    {
        Band::NONE
    }
}

impl Band {
    /// The value that a text stands for; a text that names none stands
    /// for `NONE`.
    pub open spec fn of_text(text: Seq<char>) -> Self {
        if text == "a"@ {
            Band::_5GHZ
        } else if text == "bg"@ {
            Band::_24GHZ
        } else {
            Band::NONE
        }
    }

    /// The text that a value is written as.
    pub open spec fn text(&self) -> Seq<char> {
        match self {
            Band::_5GHZ => "bg"@,
            Band::_24GHZ => "a"@,
            Band::NONE => ""@,
        }
    }

    pub fn from_str(s: &str) -> (value: Result<Self, ConversionError>)
        ensures
            value matches Ok(read) && read == Self::of_text(s@),
    {
        let read = if same_text(s, "a") {
            Band::_5GHZ
        } else if same_text(s, "bg") {
            Band::_24GHZ
        } else {
            Band::NONE
        };
        Ok(read)
    }

    pub fn to_string(&self) -> (text: String)
        ensures
            text@ == self.text(),
    {
        match self {
            Band::_5GHZ => String::from_str("bg"),
            Band::_24GHZ => String::from_str("a"),
            Band::NONE => String::from_str(""),
        }
    }
}

impl Enum for Band {
    open spec fn of_number(num: int) -> Self {
        if num == 0 {
            Band::_5GHZ
        } else if num == 1 {
            Band::_24GHZ
        } else {
            Band::NONE
        }
    }

    open spec fn number(&self) -> int {
        match self {
            Band::_5GHZ => 0,
            Band::_24GHZ => 1,
            Band::NONE => 2,
        }
    }

    proof fn number_round_trip(&self) {
    }

    fn from_i32(num: i32) -> (value: Self) {
        match num {
            0 => Band::_5GHZ,
            1 => Band::_24GHZ,
            _ => Band::NONE,
        }
    }

    fn to_i32(&self) -> (num: i32) {
        match self {
            Band::_5GHZ => 0,
            Band::_24GHZ => 1,
            Band::NONE => 2,
        }
    }
}

/// Whether a wired link sends and receives at once.
#[derive(Clone, Copy, Debug, PartialEq, Eq)]
pub enum Duplex {
    HALF,
    FULL,
}

impl Default for Duplex {
    fn default() -> (value: Self)
        ensures
            value is FULL,
    {
        Duplex::FULL
    }
}

impl Duplex {
    /// The value that a text stands for; a text that names none stands
    /// for `FULL`.
    pub open spec fn of_text(text: Seq<char>) -> Self {
        if text == "half"@ {
            Duplex::HALF
        } else {
            Duplex::FULL
        }
    }

    /// The text that a value is written as.
    pub open spec fn text(&self) -> Seq<char> {
        match self {
            Duplex::HALF => "half"@,
            Duplex::FULL => "full"@,
        }
    }

    pub fn from_str(s: &str) -> (value: Result<Self, ConversionError>)
        ensures
            value matches Ok(read) && read == Self::of_text(s@),
    {
        let read = if same_text(s, "half") {
            Duplex::HALF
        } else {
            Duplex::FULL
        };
        Ok(read)
    }

    pub fn to_string(&self) -> (text: String)
        ensures
            text@ == self.text(),
    {
        match self {
            Duplex::HALF => String::from_str("half"),
            Duplex::FULL => String::from_str("full"),
        }
    }
}

impl Enum for Duplex {
    open spec fn of_number(num: int) -> Self {
        if num == 0 {
            Duplex::HALF
        } else {
            Duplex::FULL
        }
    }

    open spec fn number(&self) -> int {
        match self {
            Duplex::HALF => 0,
            Duplex::FULL => 1,
        }
    }

    proof fn number_round_trip(&self) {
    }

    fn from_i32(num: i32) -> (value: Self) {
        match num {
            0 => Duplex::HALF,
            _ => Duplex::FULL,
        }
    }

    fn to_i32(&self) -> (num: i32) {
        match self {
            Duplex::HALF => 0,
            Duplex::FULL => 1,
        }
    }
}

/// How a connection gets its IPv4 configuration.
#[derive(Clone, Copy, Debug, PartialEq, Eq)]
pub enum DNSMethod4 {
    AUTO,
    MANUAL,
    LINKLOCAL,
    SHARED,
    DISABLED,
}

impl Default for DNSMethod4 {
    fn default() -> (value: Self)
        ensures
            value is AUTO,
    {
        DNSMethod4::AUTO
    }
}

impl DNSMethod4 {
    /// The value that a text stands for; a text that names none stands
    /// for `DISABLED`.
    pub open spec fn of_text(text: Seq<char>) -> Self {
        if text == "auto"@ {
            DNSMethod4::AUTO
        } else if text == "manual"@ {
            DNSMethod4::MANUAL
        } else if text == "link-local"@ {
            DNSMethod4::LINKLOCAL
        } else if text == "shared"@ {
            DNSMethod4::SHARED
        } else {
            DNSMethod4::DISABLED
        }
    }

    /// The text that a value is written as.
    pub open spec fn text(&self) -> Seq<char> {
        match self {
            DNSMethod4::AUTO => "auto"@,
            DNSMethod4::MANUAL => "manual"@,
            DNSMethod4::LINKLOCAL => "link-local"@,
            DNSMethod4::SHARED => "shared"@,
            DNSMethod4::DISABLED => "disabled"@,
        }
    }

    pub fn from_str(s: &str) -> (value: Result<Self, ConversionError>)
        ensures
            value matches Ok(read) && read == Self::of_text(s@),
    {
        let read = if same_text(s, "auto") {
            DNSMethod4::AUTO
        } else if same_text(s, "manual") {
            DNSMethod4::MANUAL
        } else if same_text(s, "link-local") {
            DNSMethod4::LINKLOCAL
        } else if same_text(s, "shared") {
            DNSMethod4::SHARED
        } else {
            DNSMethod4::DISABLED
        };
        Ok(read)
    }

    pub fn to_string(&self) -> (text: String)
        ensures
            text@ == self.text(),
    {
        match self {
            DNSMethod4::AUTO => String::from_str("auto"),
            DNSMethod4::MANUAL => String::from_str("manual"),
            DNSMethod4::LINKLOCAL => String::from_str("link-local"),
            DNSMethod4::SHARED => String::from_str("shared"),
            DNSMethod4::DISABLED => String::from_str("disabled"),
        }
    }
}

impl Enum for DNSMethod4 {
    open spec fn of_number(num: int) -> Self {
        if num == 0 {
            DNSMethod4::AUTO
        } else if num == 1 {
            DNSMethod4::MANUAL
        } else if num == 2 {
            DNSMethod4::LINKLOCAL
        } else if num == 3 {
            DNSMethod4::SHARED
        } else {
            DNSMethod4::DISABLED
        }
    }

    open spec fn number(&self) -> int {
        match self {
            DNSMethod4::AUTO => 0,
            DNSMethod4::MANUAL => 1,
            DNSMethod4::LINKLOCAL => 2,
            DNSMethod4::SHARED => 3,
            DNSMethod4::DISABLED => 4,
        }
    }

    proof fn number_round_trip(&self) {
    }

    fn from_i32(num: i32) -> (value: Self) {
        match num {
            0 => DNSMethod4::AUTO,
            1 => DNSMethod4::MANUAL,
            2 => DNSMethod4::LINKLOCAL,
            3 => DNSMethod4::SHARED,
            _ => DNSMethod4::DISABLED,
        }
    }

    fn to_i32(&self) -> (num: i32) {
        match self {
            DNSMethod4::AUTO => 0,
            DNSMethod4::MANUAL => 1,
            DNSMethod4::LINKLOCAL => 2,
            DNSMethod4::SHARED => 3,
            DNSMethod4::DISABLED => 4,
        }
    }
}

/// How a connection gets its IPv6 configuration.
#[derive(Clone, Copy, Debug, PartialEq, Eq)]
pub enum DNSMethod6 {
    AUTO,
    DHCP,
    MANUAL,
    LINKLOCAL,
    SHARED,
    DISABLED,
}

impl Default for DNSMethod6 {
    fn default() -> (value: Self)
        ensures
            value is AUTO,
    {
        DNSMethod6::AUTO
    }
}

impl DNSMethod6 {
    /// The value that a text stands for; a text that names none stands
    /// for `DISABLED`.
    pub open spec fn of_text(text: Seq<char>) -> Self {
        if text == "auto"@ {
            DNSMethod6::AUTO
        } else if text == "dhcp"@ {
            DNSMethod6::DHCP
        } else if text == "manual"@ {
            DNSMethod6::MANUAL
        } else if text == "link-local"@ {
            DNSMethod6::LINKLOCAL
        } else if text == "shared"@ {
            DNSMethod6::SHARED
        } else {
            DNSMethod6::DISABLED
        }
    }

    /// The text that a value is written as.
    pub open spec fn text(&self) -> Seq<char> {
        match self {
            DNSMethod6::AUTO => "auto"@,
            DNSMethod6::DHCP => "dhcp"@,
            DNSMethod6::MANUAL => "manual"@,
            DNSMethod6::LINKLOCAL => "link-local"@,
            DNSMethod6::SHARED => "shared"@,
            DNSMethod6::DISABLED => "disabled"@,
        }
    }

    pub fn from_str(s: &str) -> (value: Result<Self, ConversionError>)
        ensures
            value matches Ok(read) && read == Self::of_text(s@),
    {
        let read = if same_text(s, "auto") {
            DNSMethod6::AUTO
        } else if same_text(s, "dhcp") {
            DNSMethod6::DHCP
        } else if same_text(s, "manual") {
            DNSMethod6::MANUAL
        } else if same_text(s, "link-local") {
            DNSMethod6::LINKLOCAL
        } else if same_text(s, "shared") {
            DNSMethod6::SHARED
        } else {
            DNSMethod6::DISABLED
        };
        Ok(read)
    }

    pub fn to_string(&self) -> (text: String)
        ensures
            text@ == self.text(),
    {
        match self {
            DNSMethod6::AUTO => String::from_str("auto"),
            DNSMethod6::DHCP => String::from_str("dhcp"),
            DNSMethod6::MANUAL => String::from_str("manual"),
            DNSMethod6::LINKLOCAL => String::from_str("link-local"),
            DNSMethod6::SHARED => String::from_str("shared"),
            DNSMethod6::DISABLED => String::from_str("disabled"),
        }
    }
}

impl Enum for DNSMethod6 {
    open spec fn of_number(num: int) -> Self {
        if num == 0 {
            DNSMethod6::AUTO
        } else if num == 1 {
            DNSMethod6::DHCP
        } else if num == 2 {
            DNSMethod6::MANUAL
        } else if num == 3 {
            DNSMethod6::LINKLOCAL
        } else if num == 4 {
            DNSMethod6::SHARED
        } else {
            DNSMethod6::DISABLED
        }
    }

    open spec fn number(&self) -> int {
        match self {
            DNSMethod6::AUTO => 0,
            DNSMethod6::DHCP => 1,
            DNSMethod6::MANUAL => 2,
            DNSMethod6::LINKLOCAL => 3,
            DNSMethod6::SHARED => 4,
            DNSMethod6::DISABLED => 5,
        }
    }

    proof fn number_round_trip(&self) {
    }

    fn from_i32(num: i32) -> (value: Self) {
        match num {
            0 => DNSMethod6::AUTO,
            1 => DNSMethod6::DHCP,
            2 => DNSMethod6::MANUAL,
            3 => DNSMethod6::LINKLOCAL,
            4 => DNSMethod6::SHARED,
            _ => DNSMethod6::DISABLED,
        }
    }

    fn to_i32(&self) -> (num: i32) {
        match self {
            DNSMethod6::AUTO => 0,
            DNSMethod6::DHCP => 1,
            DNSMethod6::MANUAL => 2,
            DNSMethod6::LINKLOCAL => 3,
            DNSMethod6::SHARED => 4,
            DNSMethod6::DISABLED => 5,
        }
    }
}

/// Whether IPv6 privacy extensions are used.
#[derive(Clone, Copy, Debug, PartialEq, Eq)]
pub enum IPV6PrivacyMode {
    DISABLED,
    ENABLEDPEFERPUBLIC,
    ENABLEDPEFERTEMPORARY,
    UNKNOWN,
}

impl Default for IPV6PrivacyMode {
    fn default() -> (value: Self)
        ensures
            value is UNKNOWN,
    {
        IPV6PrivacyMode::UNKNOWN
    }
}

impl IPV6PrivacyMode {
    /// The value that a text stands for; a text that names none stands
    /// for `UNKNOWN`.
    pub open spec fn of_text(text: Seq<char>) -> Self {
        if text == "disabled"@ {
            IPV6PrivacyMode::DISABLED
        } else if text == "enabled-prefer-public"@ {
            IPV6PrivacyMode::ENABLEDPEFERPUBLIC
        } else if text == "enabled-prefer-temporary"@ {
            IPV6PrivacyMode::ENABLEDPEFERTEMPORARY
        } else {
            IPV6PrivacyMode::UNKNOWN
        }
    }

    /// The text that a value is written as.
    pub open spec fn text(&self) -> Seq<char> {
        match self {
            IPV6PrivacyMode::DISABLED => "disabled"@,
            IPV6PrivacyMode::ENABLEDPEFERPUBLIC => "enabled-prefer-public"@,
            IPV6PrivacyMode::ENABLEDPEFERTEMPORARY => "enabled-prefer-temporary"@,
            IPV6PrivacyMode::UNKNOWN => "unknown"@,
        }
    }

    pub fn from_str(s: &str) -> (value: Result<Self, ConversionError>)
        ensures
            value matches Ok(read) && read == Self::of_text(s@),
    {
        let read = if same_text(s, "disabled") {
            IPV6PrivacyMode::DISABLED
        } else if same_text(s, "enabled-prefer-public") {
            IPV6PrivacyMode::ENABLEDPEFERPUBLIC
        } else if same_text(s, "enabled-prefer-temporary") {
            IPV6PrivacyMode::ENABLEDPEFERTEMPORARY
        } else {
            IPV6PrivacyMode::UNKNOWN
        };
        Ok(read)
    }

    pub fn to_string(&self) -> (text: String)
        ensures
            text@ == self.text(),
    {
        match self {
            IPV6PrivacyMode::DISABLED => String::from_str("disabled"),
            IPV6PrivacyMode::ENABLEDPEFERPUBLIC => String::from_str("enabled-prefer-public"),
            IPV6PrivacyMode::ENABLEDPEFERTEMPORARY => String::from_str("enabled-prefer-temporary"),
            IPV6PrivacyMode::UNKNOWN => String::from_str("unknown"),
        }
    }
}

impl Enum for IPV6PrivacyMode {
    open spec fn of_number(num: int) -> Self {
        if num == -1 {
            IPV6PrivacyMode::UNKNOWN
        } else if num == 0 {
            IPV6PrivacyMode::DISABLED
        } else if num == 1 {
            IPV6PrivacyMode::ENABLEDPEFERPUBLIC
        } else {
            IPV6PrivacyMode::ENABLEDPEFERTEMPORARY
        }
    }

    open spec fn number(&self) -> int {
        match self {
            IPV6PrivacyMode::DISABLED => 0,
            IPV6PrivacyMode::ENABLEDPEFERPUBLIC => 1,
            IPV6PrivacyMode::ENABLEDPEFERTEMPORARY => 2,
            IPV6PrivacyMode::UNKNOWN => -1,
        }
    }

    proof fn number_round_trip(&self) {
    }

    fn from_i32(num: i32) -> (value: Self) {
        match num {
            -1 => IPV6PrivacyMode::UNKNOWN,
            0 => IPV6PrivacyMode::DISABLED,
            1 => IPV6PrivacyMode::ENABLEDPEFERPUBLIC,
            _ => IPV6PrivacyMode::ENABLEDPEFERTEMPORARY,
        }
    }

    fn to_i32(&self) -> (num: i32) {
        match self {
            IPV6PrivacyMode::DISABLED => 0,
            IPV6PrivacyMode::ENABLEDPEFERPUBLIC => 1,
            IPV6PrivacyMode::ENABLEDPEFERTEMPORARY => 2,
            IPV6PrivacyMode::UNKNOWN => -1,
        }
    }
}

/// Who keeps a secret of a connection.
#[derive(Clone, Copy, Debug, PartialEq, Eq)]
pub enum SecretSettingsFlag {
    NONE,
    AgentOwned,
    NotSaved,
    NotRequired,
}

impl Default for SecretSettingsFlag {
    fn default() -> (value: Self)
        ensures
            value is NONE,
    {
        SecretSettingsFlag::NONE
    }
}

impl Enum for SecretSettingsFlag {
    open spec fn of_number(num: int) -> Self {
        if num == 0 {
            SecretSettingsFlag::NONE
        } else if num == 1 {
            SecretSettingsFlag::AgentOwned
        } else if num == 2 {
            SecretSettingsFlag::NotSaved
        } else {
            SecretSettingsFlag::NotRequired
        }
    }

    open spec fn number(&self) -> int {
        match self {
            SecretSettingsFlag::NONE => 0,
            SecretSettingsFlag::AgentOwned => 1,
            SecretSettingsFlag::NotSaved => 2,
            SecretSettingsFlag::NotRequired => 3,
        }
    }

    proof fn number_round_trip(&self) {
    }

    fn from_i32(num: i32) -> (value: Self) {
        match num {
            0 => SecretSettingsFlag::NONE,
            1 => SecretSettingsFlag::AgentOwned,
            2 => SecretSettingsFlag::NotSaved,
            _ => SecretSettingsFlag::NotRequired,
        }
    }

    fn to_i32(&self) -> (num: i32) {
        match self {
            SecretSettingsFlag::NONE => 0,
            SecretSettingsFlag::AgentOwned => 1,
            SecretSettingsFlag::NotSaved => 2,
            SecretSettingsFlag::NotRequired => 3,
        }
    }
}

/// How a WEP key is to be read.
#[derive(Clone, Copy, Debug, PartialEq, Eq)]
pub enum WEPKeyType {
    UNKNOWN,
    KEY,
    PASSPHRASE,
}

impl Default for WEPKeyType {
    fn default() -> (value: Self)
        ensures
            value is UNKNOWN,
    {
        WEPKeyType::UNKNOWN
    }
}

impl Enum for WEPKeyType {
    open spec fn of_number(num: int) -> Self {
        if num == 0 {
            WEPKeyType::UNKNOWN
        } else if num == 1 {
            WEPKeyType::KEY
        } else {
            WEPKeyType::PASSPHRASE
        }
    }

    open spec fn number(&self) -> int {
        match self {
            WEPKeyType::UNKNOWN => 0,
            WEPKeyType::KEY => 1,
            WEPKeyType::PASSPHRASE => 2,
        }
    }

    proof fn number_round_trip(&self) {
    }

    fn from_i32(num: i32) -> (value: Self) {
        match num {
            0 => WEPKeyType::UNKNOWN,
            1 => WEPKeyType::KEY,
            _ => WEPKeyType::PASSPHRASE,
        }
    }

    fn to_i32(&self) -> (num: i32) {
        match self {
            WEPKeyType::UNKNOWN => 0,
            WEPKeyType::KEY => 1,
            WEPKeyType::PASSPHRASE => 2,
        }
    }
}

/// How the keys of a wireless network are managed.
#[derive(Clone, Copy, Debug, PartialEq, Eq)]
pub enum KeyManagement {
    NONE,
    IEEE8021X,
    WPANONE,
    WPAPSK,
    WPAEAP,
}

impl Default for KeyManagement {
    fn default() -> (value: Self)
        ensures
            value is WPAPSK,
    {
        KeyManagement::WPAPSK
    }
}

impl KeyManagement {
    /// The value that a text stands for; a text that names none stands
    /// for `WPAPSK`.
    pub open spec fn of_text(text: Seq<char>) -> Self {
        if text == "none"@ {
            KeyManagement::NONE
        } else if text == "ieee8021x"@ {
            KeyManagement::IEEE8021X
        } else if text == "wpa-none"@ {
            KeyManagement::WPANONE
        } else if text == "wpa-psk"@ {
            KeyManagement::WPAPSK
        } else if text == "wpa-eap"@ {
            KeyManagement::WPAEAP
        } else {
            KeyManagement::WPAPSK
        }
    }

    /// The text that a value is written as.
    pub open spec fn text(&self) -> Seq<char> {
        match self {
            KeyManagement::NONE => "none"@,
            KeyManagement::IEEE8021X => "ieee8021x"@,
            KeyManagement::WPANONE => "wpa-none"@,
            KeyManagement::WPAPSK => "wpa-psk"@,
            KeyManagement::WPAEAP => "wpa-eap"@,
        }
    }

    pub fn from_str(s: &str) -> (value: KeyManagement)
        ensures
            value == Self::of_text(s@),
    {
        if same_text(s, "none") {
            KeyManagement::NONE
        } else if same_text(s, "ieee8021x") {
            KeyManagement::IEEE8021X
        } else if same_text(s, "wpa-none") {
            KeyManagement::WPANONE
        } else if same_text(s, "wpa-psk") {
            KeyManagement::WPAPSK
        } else if same_text(s, "wpa-eap") {
            KeyManagement::WPAEAP
        } else {
            KeyManagement::WPAPSK
        }
    }

    pub fn to_string(&self) -> (text: String)
        ensures
            text@ == self.text(),
    {
        match self {
            KeyManagement::NONE => String::from_str("none"),
            KeyManagement::IEEE8021X => String::from_str("ieee8021x"),
            KeyManagement::WPANONE => String::from_str("wpa-none"),
            KeyManagement::WPAPSK => String::from_str("wpa-psk"),
            KeyManagement::WPAEAP => String::from_str("wpa-eap"),
        }
    }
}

/// A network address as the bus gives it: the address, the length of its
/// prefix, the gateway and the metric.
pub type AddressType = (String, u32, String, i64);

/// A type of settings that is read from and written to the properties of
/// a connection.
pub trait PropMapConvert: Sized {
    /// Whether the settings are what the properties stand for. A property
    /// that is missing, or of another type than the setting, stands for
    /// the setting's default.
    spec fn reads(&self, properties: Map<Seq<char>, VariantView>) -> bool;

    /// The properties that the settings are written as.
    spec fn written(&self) -> Map<Seq<char>, VariantView>;

    fn from_propmap(map: &PropMap) -> (settings: Self)
        ensures
            settings.reads(map@),
    ;

    fn to_propmap(&self) -> (map: PropMap)
        ensures
            map@ == self.written(),
    ;
}

/// The settings of a wired connection.
#[derive(Debug, Clone)]
pub struct EthernetSettings {
    pub auto_negotiate: bool,
    pub cloned_mac_address: String,
    pub duplex: Duplex,
    pub mtu: u32,
    pub name: String,
    pub speed: u32,
}

impl PropMapConvert for EthernetSettings {
    open spec fn reads(&self, properties: Map<Seq<char>, VariantView>) -> bool {
        &&& self.auto_negotiate.content() == read_or::<bool>(
            properties,
            "auto-negotiate"@,
            Content::Bool(true),
        )
        &&& self.cloned_mac_address.content() == read_or::<String>(
            properties,
            "cloned-mac-address"@,
            Content::Text(""@),
        )
        &&& self.duplex == Duplex::of_text(
            text_in(read_or::<String>(properties, "mode"@, Content::Text(""@))),
        )
        &&& self.mtu.content() == read_or::<u32>(
            properties,
            "mtu"@,
            Content::U32(0),
        )
        &&& self.name.content() == read_or::<String>(
            properties,
            "name"@,
            Content::Text(""@),
        )
        &&& self.speed.content() == read_or::<u32>(
            properties,
            "speed"@,
            Content::U32(0),
        )
    }

    open spec fn written(&self) -> Map<Seq<char>, VariantView> {
        let written0 = Map::<Seq<char>, VariantView>::empty();
        let written1 = written0.insert("auto-negotiate"@, wrapped(self.auto_negotiate));
        let written2 = written1.insert("duplex"@, number_value(self.duplex.number()));
        let written3 = written2.insert("mtu"@, wrapped(self.mtu));
        let written4 = written3.insert("name"@, wrapped(self.name));
        let written5 = written4.insert("speed"@, wrapped(self.speed));
        written5
    }

    fn from_propmap(map: &PropMap) -> (settings: Self) {
        let auto_negotiate = map.cast_or::<bool>("auto-negotiate", true);
        let cloned_mac_address = map.text_or("cloned-mac-address", "");
        let duplex_text = map.text_or("mode", "");
        let duplex = match Duplex::from_str(duplex_text.as_str()) {
            Ok(read) => read,
            Err(_) => Duplex::default(),
        };
        let mtu = map.cast_or::<u32>("mtu", 0);
        let name = map.text_or("name", "");
        let speed = map.cast_or::<u32>("speed", 0);
        EthernetSettings {
            auto_negotiate,
            cloned_mac_address,
            duplex,
            mtu,
            name,
            speed,
        }
    }

    fn to_propmap(&self) -> (map: PropMap) {
        let mut map = PropMap::new();
        map.put("auto-negotiate", &self.auto_negotiate);
        map.put("duplex", &self.duplex.to_i32());
        map.put("mtu", &self.mtu);
        map.put("name", &self.name);
        map.put("speed", &self.speed);
        map
    }
}

/// The settings of a virtual private network.
#[derive(Debug, Clone)]
pub struct VPNSettings {
    pub data: HashMap<String, String>,
    pub name: String,
    pub persistent: bool,
    pub secrets: HashMap<String, String>,
    pub service_type: String,
    pub timeout: u32,
    pub user_name: String,
}

impl PropMapConvert for VPNSettings {
    open spec fn reads(&self, properties: Map<Seq<char>, VariantView>) -> bool {
        &&& self.data.content() == read_or::<HashMap<String, String>>(
            properties,
            "data"@,
            Content::Dict(Map::empty()),
        )
        &&& self.name.content() == read_or::<String>(
            properties,
            "name"@,
            Content::Text("vpn"@),
        )
        &&& self.persistent.content() == read_or::<bool>(
            properties,
            "persistent"@,
            Content::Bool(false),
        )
        &&& self.secrets.content() == read_or::<HashMap<String, String>>(
            properties,
            "secrets"@,
            Content::Dict(Map::empty()),
        )
        &&& self.service_type.content() == read_or::<String>(
            properties,
            "service-type"@,
            Content::Text(""@),
        )
        &&& self.timeout.content() == read_or::<u32>(
            properties,
            "timeout"@,
            Content::U32(0),
        )
        &&& self.user_name.content() == read_or::<String>(
            properties,
            "user-name"@,
            Content::Text(""@),
        )
    }

    open spec fn written(&self) -> Map<Seq<char>, VariantView> {
        let written0 = Map::<Seq<char>, VariantView>::empty();
        let written1 = written0.insert("data"@, wrapped(self.data));
        let written2 = written1.insert("name"@, wrapped(self.name));
        let written3 = written2.insert("persistent"@, wrapped(self.persistent));
        let written4 = written3.insert("secrets"@, wrapped(self.secrets));
        let written5 = written4.insert("service-type"@, wrapped(self.service_type));
        let written6 = written5.insert("timeout"@, wrapped(self.timeout));
        let written7 = written6.insert("user-name"@, wrapped(self.user_name));
        written7
    }

    fn from_propmap(map: &PropMap) -> (settings: Self) {
        let data = map.dict("data");
        let name = map.text_or("name", "vpn");
        let persistent = map.cast_or::<bool>("persistent", false);
        let secrets = map.dict("secrets");
        let service_type = map.text_or("service-type", "");
        let timeout = map.cast_or::<u32>("timeout", 0);
        let user_name = map.text_or("user-name", "");
        VPNSettings {
            data,
            name,
            persistent,
            secrets,
            service_type,
            timeout,
            user_name,
        }
    }

    fn to_propmap(&self) -> (map: PropMap) {
        let mut map = PropMap::new();
        map.put("data", &self.data);
        map.put("name", &self.name);
        map.put("persistent", &self.persistent);
        map.put("secrets", &self.secrets);
        map.put("service-type", &self.service_type);
        map.put("timeout", &self.timeout);
        map.put("user-name", &self.user_name);
        map
    }
}

/// The settings of a wireless connection.
#[derive(Debug, Clone)]
pub struct WifiSettings {
    pub band: Band,
    pub channel: u32,
    pub cloned_mac_address: String,
    pub mode: Mode,
    pub mtu: u32,
    pub powersave: u32,
    pub rate: u32,
    pub ssid: Vec<u8>,
}

impl PropMapConvert for WifiSettings {
    open spec fn reads(&self, properties: Map<Seq<char>, VariantView>) -> bool {
        &&& self.band == Band::of_text(
            text_in(read_or::<String>(properties, "band"@, Content::Text(""@))),
        )
        &&& self.channel.content() == read_or::<u32>(
            properties,
            "channel"@,
            Content::U32(0),
        )
        &&& self.cloned_mac_address.content() == read_or::<String>(
            properties,
            "cloned-mac-address"@,
            Content::Text(""@),
        )
        &&& self.mode == Mode::of_text(
            text_in(read_or::<String>(properties, "mode"@, Content::Text(""@))),
        )
        &&& self.mtu.content() == read_or::<u32>(
            properties,
            "mtu"@,
            Content::U32(0),
        )
        &&& self.powersave.content() == read_or::<u32>(
            properties,
            "powersave"@,
            Content::U32(0),
        )
        &&& self.rate.content() == read_or::<u32>(
            properties,
            "rate"@,
            Content::U32(0),
        )
        &&& self.ssid.content() == read_or::<Vec<u8>>(
            properties,
            "ssid"@,
            Content::List(Seq::empty()),
        )
    }

    open spec fn written(&self) -> Map<Seq<char>, VariantView> {
        let written0 = Map::<Seq<char>, VariantView>::empty();
        let written1 = if !(self.band is NONE) {
            written0.insert("band"@, text_value(self.band.text()))
        } else {
            written0
        };
        let written2 = written1.insert("channel"@, wrapped(self.channel));
        let written3 = written2.insert("mode"@, text_value(self.mode.text()));
        let written4 = written3.insert("mtu"@, wrapped(self.mtu));
        let written5 = written4.insert("powersave"@, wrapped(self.powersave));
        let written6 = written5.insert("rate"@, wrapped(self.rate));
        let written7 = written6.insert("ssid"@, wrapped(self.ssid));
        written7
    }

    fn from_propmap(map: &PropMap) -> (settings: Self) {
        let band_text = map.text_or("band", "");
        let band = match Band::from_str(band_text.as_str()) {
            Ok(read) => read,
            Err(_) => Band::default(),
        };
        let channel = map.cast_or::<u32>("channel", 0);
        let cloned_mac_address = map.text_or("cloned-mac-address", "");
        let mode_text = map.text_or("mode", "");
        let mode = match Mode::from_str(mode_text.as_str()) {
            Ok(read) => read,
            Err(_) => Mode::default(),
        };
        let mtu = map.cast_or::<u32>("mtu", 0);
        let powersave = map.cast_or::<u32>("powersave", 0);
        let rate = map.cast_or::<u32>("rate", 0);
        let ssid = map.list::<u8>("ssid");
        WifiSettings {
            band,
            channel,
            cloned_mac_address,
            mode,
            mtu,
            powersave,
            rate,
            ssid,
        }
    }

    fn to_propmap(&self) -> (map: PropMap) {
        let mut map = PropMap::new();
        if !matches!(self.band, Band::NONE) {
            map.put("band", &self.band.to_string());
        }
        map.put("channel", &self.channel);
        map.put("mode", &self.mode.to_string());
        map.put("mtu", &self.mtu);
        map.put("powersave", &self.powersave);
        map.put("rate", &self.rate);
        map.put("ssid", &self.ssid);
        map
    }
}

/// The IPv4 settings of a connection.
#[derive(Debug)]
pub struct IPV4Settings {
    pub address_data: Vec<AddressType>,
    pub dns: Vec<u32>,
    pub dns_options: Vec<String>,
    pub dns_priority: i32,
    pub dns_search: Vec<String>,
    pub gateway: String,
    pub ignore_auto_dns: bool,
    pub ignore_auto_routes: bool,
    pub may_fail: bool,
    pub method: DNSMethod4,
    pub never_default: bool,
    pub route_data: Vec<AddressType>,
}

impl PropMapConvert for IPV4Settings {
    open spec fn reads(&self, properties: Map<Seq<char>, VariantView>) -> bool {
        &&& self.address_data.content() == read_or::<Vec<AddressType>>(
            properties,
            "address-data"@,
            Content::List(Seq::empty()),
        )
        &&& self.dns.content() == read_or::<Vec<u32>>(
            properties,
            "dns"@,
            Content::List(Seq::empty()),
        )
        &&& self.dns_options.content() == read_or::<Vec<String>>(
            properties,
            "dns-options"@,
            Content::List(Seq::empty()),
        )
        &&& self.dns_priority.content() == read_or::<i32>(
            properties,
            "dns-priority"@,
            Content::I32(0),
        )
        &&& self.dns_search.content() == read_or::<Vec<String>>(
            properties,
            "dns-search"@,
            Content::List(Seq::empty()),
        )
        &&& self.gateway.content() == read_or::<String>(
            properties,
            "gateway"@,
            Content::Text(""@),
        )
        &&& self.ignore_auto_dns.content() == read_or::<bool>(
            properties,
            "ignore-auto-dns"@,
            Content::Bool(false),
        )
        &&& self.ignore_auto_routes.content() == read_or::<bool>(
            properties,
            "ignore-auto-routes"@,
            Content::Bool(false),
        )
        &&& self.may_fail.content() == read_or::<bool>(
            properties,
            "may-fail"@,
            Content::Bool(true),
        )
        &&& self.method == DNSMethod4::of_text(
            text_in(read_or::<String>(properties, "method"@, Content::Text(""@))),
        )
        &&& self.never_default.content() == read_or::<bool>(
            properties,
            "never-default"@,
            Content::Bool(true),
        )
        &&& self.route_data.content() == read_or::<Vec<AddressType>>(
            properties,
            "route-data"@,
            Content::List(Seq::empty()),
        )
    }

    open spec fn written(&self) -> Map<Seq<char>, VariantView> {
        let written0 = Map::<Seq<char>, VariantView>::empty();
        let written1 = written0.insert("address-data"@, wrapped(self.address_data));
        let written2 = written1.insert("dns"@, wrapped(self.dns));
        let written3 = written2.insert("dns-options"@, wrapped(self.dns_options));
        let written4 = written3.insert("dns-priority"@, wrapped(self.dns_priority));
        let written5 = written4.insert("dns-search"@, wrapped(self.dns_search));
        let written6 = if self.address_data@.len() > 0 {
            written5.insert("gateway"@, wrapped(self.gateway))
        } else {
            written5
        };
        let written7 = written6.insert("ignore-auto-dns"@, wrapped(self.ignore_auto_dns));
        let written8 = written7.insert("ignore-auto-routes"@, wrapped(self.ignore_auto_routes));
        let written9 = written8.insert("may-fail"@, wrapped(self.may_fail));
        let written10 = written9.insert("method"@, text_value(self.method.text()));
        let written11 = written10.insert("never-default"@, wrapped(self.never_default));
        let written12 = written11.insert("route-data"@, wrapped(self.route_data));
        written12
    }

    fn from_propmap(map: &PropMap) -> (settings: Self) {
        let address_data = map.list::<AddressType>("address-data");
        let dns = map.list::<u32>("dns");
        let dns_options = map.list::<String>("dns-options");
        let dns_priority = map.cast_or::<i32>("dns-priority", 0);
        let dns_search = map.list::<String>("dns-search");
        let gateway = map.text_or("gateway", "");
        let ignore_auto_dns = map.cast_or::<bool>("ignore-auto-dns", false);
        let ignore_auto_routes = map.cast_or::<bool>("ignore-auto-routes", false);
        let may_fail = map.cast_or::<bool>("may-fail", true);
        let method_text = map.text_or("method", "");
        let method = match DNSMethod4::from_str(method_text.as_str()) {
            Ok(read) => read,
            Err(_) => DNSMethod4::default(),
        };
        let never_default = map.cast_or::<bool>("never-default", true);
        let route_data = map.list::<AddressType>("route-data");
        IPV4Settings {
            address_data,
            dns,
            dns_options,
            dns_priority,
            dns_search,
            gateway,
            ignore_auto_dns,
            ignore_auto_routes,
            may_fail,
            method,
            never_default,
            route_data,
        }
    }

    fn to_propmap(&self) -> (map: PropMap) {
        let mut map = PropMap::new();
        map.put("address-data", &self.address_data);
        map.put("dns", &self.dns);
        map.put("dns-options", &self.dns_options);
        map.put("dns-priority", &self.dns_priority);
        map.put("dns-search", &self.dns_search);
        if self.address_data.len() > 0 {
            map.put("gateway", &self.gateway);
        }
        map.put("ignore-auto-dns", &self.ignore_auto_dns);
        map.put("ignore-auto-routes", &self.ignore_auto_routes);
        map.put("may-fail", &self.may_fail);
        map.put("method", &self.method.to_string());
        map.put("never-default", &self.never_default);
        map.put("route-data", &self.route_data);
        map
    }
}

/// The IPv6 settings of a connection.
#[derive(Debug)]
pub struct IPV6Settings {
    pub address_data: Vec<AddressType>,
    pub dns: Vec<Vec<u8>>,
    pub dns_options: Vec<String>,
    pub dns_priority: i32,
    pub dns_search: Vec<String>,
    pub gateway: String,
    pub ignore_auto_dns: bool,
    pub ignore_auto_routes: bool,
    pub ip6_privacy: IPV6PrivacyMode,
    pub may_fail: bool,
    pub method: DNSMethod6,
    pub never_default: bool,
    pub route_data: Vec<AddressType>,
}

impl PropMapConvert for IPV6Settings {
    open spec fn reads(&self, properties: Map<Seq<char>, VariantView>) -> bool {
        &&& self.address_data.content() == read_or::<Vec<AddressType>>(
            properties,
            "address-data"@,
            Content::List(Seq::empty()),
        )
        &&& self.dns.content() == read_or::<Vec<Vec<u8>>>(
            properties,
            "dns"@,
            Content::List(Seq::empty()),
        )
        &&& self.dns_options.content() == read_or::<Vec<String>>(
            properties,
            "dns-options"@,
            Content::List(Seq::empty()),
        )
        &&& self.dns_priority.content() == read_or::<i32>(
            properties,
            "dns-priority"@,
            Content::I32(0),
        )
        &&& self.dns_search.content() == read_or::<Vec<String>>(
            properties,
            "dns-search"@,
            Content::List(Seq::empty()),
        )
        &&& self.gateway.content() == read_or::<String>(
            properties,
            "gateway"@,
            Content::Text(""@),
        )
        &&& self.ignore_auto_dns.content() == read_or::<bool>(
            properties,
            "ignore-auto-dns"@,
            Content::Bool(false),
        )
        &&& self.ignore_auto_routes.content() == read_or::<bool>(
            properties,
            "ignore-auto-routes"@,
            Content::Bool(false),
        )
        &&& self.ip6_privacy == IPV6PrivacyMode::of_number(
            number_in(read_or::<i32>(properties, "ip6-privacy"@, Content::I32((-1) as i32))),
        )
        &&& self.may_fail.content() == read_or::<bool>(
            properties,
            "may-fail"@,
            Content::Bool(true),
        )
        &&& self.method == DNSMethod6::of_text(
            text_in(read_or::<String>(properties, "method"@, Content::Text(""@))),
        )
        &&& self.never_default.content() == read_or::<bool>(
            properties,
            "never-default"@,
            Content::Bool(true),
        )
        &&& self.route_data.content() == read_or::<Vec<AddressType>>(
            properties,
            "route-data"@,
            Content::List(Seq::empty()),
        )
    }

    open spec fn written(&self) -> Map<Seq<char>, VariantView> {
        let written0 = Map::<Seq<char>, VariantView>::empty();
        let written1 = written0.insert("address-data"@, wrapped(self.address_data));
        let written2 = written1.insert("dns"@, wrapped(self.dns));
        let written3 = written2.insert("dns-options"@, wrapped(self.dns_options));
        let written4 = written3.insert("dns-priority"@, wrapped(self.dns_priority));
        let written5 = written4.insert("dns-search"@, wrapped(self.dns_search));
        let written6 = if self.address_data@.len() > 0 {
            written5.insert("gateway"@, wrapped(self.gateway))
        } else {
            written5
        };
        let written7 = written6.insert("ignore-auto-dns"@, wrapped(self.ignore_auto_dns));
        let written8 = written7.insert("ignore-auto-routes"@, wrapped(self.ignore_auto_routes));
        let written9 = written8.insert("ip6-privacy"@, number_value(self.ip6_privacy.number()));
        let written10 = written9.insert("may-fail"@, wrapped(self.may_fail));
        let written11 = written10.insert("method"@, text_value(self.method.text()));
        let written12 = written11.insert("never-default"@, wrapped(self.never_default));
        let written13 = written12.insert("route-data"@, wrapped(self.route_data));
        written13
    }

    fn from_propmap(map: &PropMap) -> (settings: Self) {
        let address_data = map.list::<AddressType>("address-data");
        let dns = map.list::<Vec<u8>>("dns");
        let dns_options = map.list::<String>("dns-options");
        let dns_priority = map.cast_or::<i32>("dns-priority", 0);
        let dns_search = map.list::<String>("dns-search");
        let gateway = map.text_or("gateway", "");
        let ignore_auto_dns = map.cast_or::<bool>("ignore-auto-dns", false);
        let ignore_auto_routes = map.cast_or::<bool>("ignore-auto-routes", false);
        let ip6_privacy = IPV6PrivacyMode::from_i32(map.cast_or::<i32>("ip6-privacy", -1));
        let may_fail = map.cast_or::<bool>("may-fail", true);
        let method_text = map.text_or("method", "");
        let method = match DNSMethod6::from_str(method_text.as_str()) {
            Ok(read) => read,
            Err(_) => DNSMethod6::default(),
        };
        let never_default = map.cast_or::<bool>("never-default", true);
        let route_data = map.list::<AddressType>("route-data");
        IPV6Settings {
            address_data,
            dns,
            dns_options,
            dns_priority,
            dns_search,
            gateway,
            ignore_auto_dns,
            ignore_auto_routes,
            ip6_privacy,
            may_fail,
            method,
            never_default,
            route_data,
        }
    }

    fn to_propmap(&self) -> (map: PropMap) {
        let mut map = PropMap::new();
        map.put("address-data", &self.address_data);
        map.put("dns", &self.dns);
        map.put("dns-options", &self.dns_options);
        map.put("dns-priority", &self.dns_priority);
        map.put("dns-search", &self.dns_search);
        if self.address_data.len() > 0 {
            map.put("gateway", &self.gateway);
        }
        map.put("ignore-auto-dns", &self.ignore_auto_dns);
        map.put("ignore-auto-routes", &self.ignore_auto_routes);
        map.put("ip6-privacy", &self.ip6_privacy.to_i32());
        map.put("may-fail", &self.may_fail);
        map.put("method", &self.method.to_string());
        map.put("never-default", &self.never_default);
        map.put("route-data", &self.route_data);
        map
    }
}

/// What every connection has, whatever its kind.
#[derive(Debug)]
pub struct ConnectionSettings {
    pub autoconnect: bool,
    pub autoconnect_priority: i32,
    pub id: String,
    pub metered: i32,
    pub device_type: String,
    pub uuid: String,
    pub zone: Trust,
}

impl PropMapConvert for ConnectionSettings {
    open spec fn reads(&self, properties: Map<Seq<char>, VariantView>) -> bool {
        &&& self.autoconnect.content() == read_or::<bool>(
            properties,
            "autoconnect"@,
            Content::Bool(false),
        )
        &&& self.autoconnect_priority.content() == read_or::<i32>(
            properties,
            "autoconnect-priority"@,
            Content::I32((-1) as i32),
        )
        &&& self.id.content() == read_or::<String>(
            properties,
            "id"@,
            Content::Text(""@),
        )
        &&& self.metered.content() == read_or::<i32>(
            properties,
            "metered"@,
            Content::I32(0),
        )
        &&& self.device_type.content() == read_or::<String>(
            properties,
            "type"@,
            Content::Text(""@),
        )
        &&& self.uuid.content() == read_or::<String>(
            properties,
            "uuid"@,
            Content::Text(""@),
        )
        &&& self.zone == Trust::of_text(
            text_in(read_or::<String>(properties, "trust"@, Content::Text(""@))),
        )
    }

    open spec fn written(&self) -> Map<Seq<char>, VariantView> {
        let written0 = Map::<Seq<char>, VariantView>::empty();
        let written1 = written0.insert("autoconnect"@, wrapped(self.autoconnect));
        let written2 = written1.insert("autoconnect-priority"@, wrapped(self.autoconnect_priority));
        let written3 = written2.insert("id"@, wrapped(self.id));
        let written4 = written3.insert("metered"@, wrapped(self.metered));
        let written5 = written4.insert("type"@, wrapped(self.device_type));
        let written6 = written5.insert("uuid"@, wrapped(self.uuid));
        let written7 = written6.insert("zone"@, number_value(self.zone.number()));
        written7
    }

    fn from_propmap(map: &PropMap) -> (settings: Self) {
        let autoconnect = map.cast_or::<bool>("autoconnect", false);
        let autoconnect_priority = map.cast_or::<i32>("autoconnect-priority", -1);
        let id = map.text_or("id", "");
        let metered = map.cast_or::<i32>("metered", 0);
        let device_type = map.text_or("type", "");
        let uuid = map.text_or("uuid", "");
        let zone_text = map.text_or("trust", "");
        let zone = match Trust::from_str(zone_text.as_str()) {
            Ok(read) => read,
            Err(_) => Trust::default(),
        };
        ConnectionSettings {
            autoconnect,
            autoconnect_priority,
            id,
            metered,
            device_type,
            uuid,
            zone,
        }
    }

    fn to_propmap(&self) -> (map: PropMap) {
        let mut map = PropMap::new();
        map.put("autoconnect", &self.autoconnect);
        map.put("autoconnect-priority", &self.autoconnect_priority);
        map.put("id", &self.id);
        map.put("metered", &self.metered);
        map.put("type", &self.device_type);
        map.put("uuid", &self.uuid);
        map.put("zone", &self.zone.to_i32());
        map
    }
}

/// How a wireless connection is secured.
#[derive(Debug, Clone)]
pub struct WifiSecuritySettings {
    pub authentication_algorithm: String,
    pub group: Vec<String>,
    pub key_management: KeyManagement,
    pub leap_password: String,
    pub leap_password_flags: SecretSettingsFlag,
    pub leap_username: String,
    pub pairwise: Vec<String>,
    pub proto: Vec<String>,
    pub psk: String,
    pub psk_flags: SecretSettingsFlag,
    pub wep_key_flags: SecretSettingsFlag,
    pub wep_key_type: WEPKeyType,
    pub wep_key0: String,
    pub wep_key1: String,
    pub wep_key2: String,
    pub wep_key3: String,
    pub wep_tx_keyidx: u32,
}

impl PropMapConvert for WifiSecuritySettings {
    open spec fn reads(&self, properties: Map<Seq<char>, VariantView>) -> bool {
        &&& self.authentication_algorithm.content() == read_or::<String>(
            properties,
            "auth-alg"@,
            Content::Text(""@),
        )
        &&& self.group.content() == read_or::<Vec<String>>(
            properties,
            "group"@,
            Content::List(Seq::empty()),
        )
        &&& self.key_management == KeyManagement::of_text(
            text_in(read_or::<String>(properties, "key-mgmt"@, Content::Text(""@))),
        )
        &&& self.leap_password.content() == read_or::<String>(
            properties,
            "leap-password"@,
            Content::Text(""@),
        )
        &&& self.leap_password_flags == SecretSettingsFlag::of_number(
            number_in(read_or::<u32>(properties, "leap-password-flags"@, Content::U32(0))),
        )
        &&& self.leap_username.content() == read_or::<String>(
            properties,
            "leap-username"@,
            Content::Text(""@),
        )
        &&& self.pairwise.content() == read_or::<Vec<String>>(
            properties,
            "pairwise"@,
            Content::List(Seq::empty()),
        )
        &&& self.proto.content() == read_or::<Vec<String>>(
            properties,
            "proto"@,
            Content::List(Seq::empty()),
        )
        &&& self.psk.content() == read_or::<String>(
            properties,
            "psk"@,
            Content::Text(""@),
        )
        &&& self.psk_flags == SecretSettingsFlag::of_number(
            number_in(read_or::<u32>(properties, "psk-flags"@, Content::U32(0))),
        )
        &&& self.wep_key_flags == SecretSettingsFlag::of_number(
            number_in(read_or::<u32>(properties, "wep-key-flags"@, Content::U32(0))),
        )
        &&& self.wep_key_type == WEPKeyType::of_number(
            number_in(read_or::<u32>(properties, "wep-key-type"@, Content::U32(0))),
        )
        &&& self.wep_key0.content() == read_or::<String>(
            properties,
            "wep-key0"@,
            Content::Text(""@),
        )
        &&& self.wep_key1.content() == read_or::<String>(
            properties,
            "wep-key1"@,
            Content::Text(""@),
        )
        &&& self.wep_key2.content() == read_or::<String>(
            properties,
            "wep-key2"@,
            Content::Text(""@),
        )
        &&& self.wep_key3.content() == read_or::<String>(
            properties,
            "wep-key3"@,
            Content::Text(""@),
        )
        &&& self.wep_tx_keyidx.content() == read_or::<u32>(
            properties,
            "wep-tx-keyidx"@,
            Content::U32(0),
        )
    }

    open spec fn written(&self) -> Map<Seq<char>, VariantView> {
        let written0 = Map::<Seq<char>, VariantView>::empty();
        let written1 = if self.authentication_algorithm@.len() > 0 {
            written0.insert("auth-alg"@, wrapped(self.authentication_algorithm))
        } else {
            written0
        };
        let written2 = written1.insert("group"@, wrapped(self.group));
        let written3 = written2.insert("key-mgmt"@, text_value(self.key_management.text()));
        let written4 = if self.leap_password@.len() > 0 {
            written3.insert("leap-password"@, wrapped(self.leap_password))
        } else {
            written3
        };
        let written5 = written4.insert("leap-password-flags"@, number_value(self.leap_password_flags.number()));
        let written6 = if self.leap_username@.len() > 0 {
            written5.insert("leap-username"@, wrapped(self.leap_username))
        } else {
            written5
        };
        let written7 = written6.insert("pairwise"@, wrapped(self.pairwise));
        let written8 = written7.insert("proto"@, wrapped(self.proto));
        let written9 = if self.psk@.len() > 0 {
            written8.insert("psk"@, wrapped(self.psk))
        } else {
            written8
        };
        let written10 = if self.wep_key_type.number() == 0 {
            written9.insert("wep-key-type"@, number_value(self.wep_key_type.number()))
        } else {
            written9
        };
        let written11 = if self.wep_key0@.len() > 0 {
            written10.insert("wep-key0"@, wrapped(self.wep_key0))
        } else {
            written10
        };
        let written12 = if self.wep_key1@.len() > 0 {
            written11.insert("wep-key1"@, wrapped(self.wep_key1))
        } else {
            written11
        };
        let written13 = if self.wep_key2@.len() > 0 {
            written12.insert("wep-key2"@, wrapped(self.wep_key2))
        } else {
            written12
        };
        let written14 = if self.wep_key3@.len() > 0 {
            written13.insert("wep-key3"@, wrapped(self.wep_key3))
        } else {
            written13
        };
        written14
    }

    fn from_propmap(map: &PropMap) -> (settings: Self) {
        let authentication_algorithm = map.text_or("auth-alg", "");
        let group = map.list::<String>("group");
        let key_management_text = map.text_or("key-mgmt", "");
        let key_management = KeyManagement::from_str(key_management_text.as_str());
        let leap_password = map.text_or("leap-password", "");
        let leap_password_flags_number = map.cast_or::<u32>("leap-password-flags", 0);
        let leap_password_flags = SecretSettingsFlag::from_i32(
            if leap_password_flags_number > 2147483647 {
                -1
            } else {
                leap_password_flags_number as i32
            },
        );
        let leap_username = map.text_or("leap-username", "");
        let pairwise = map.list::<String>("pairwise");
        let proto = map.list::<String>("proto");
        let psk = map.text_or("psk", "");
        let psk_flags_number = map.cast_or::<u32>("psk-flags", 0);
        let psk_flags = SecretSettingsFlag::from_i32(
            if psk_flags_number > 2147483647 {
                -1
            } else {
                psk_flags_number as i32
            },
        );
        let wep_key_flags_number = map.cast_or::<u32>("wep-key-flags", 0);
        let wep_key_flags = SecretSettingsFlag::from_i32(
            if wep_key_flags_number > 2147483647 {
                -1
            } else {
                wep_key_flags_number as i32
            },
        );
        let wep_key_type_number = map.cast_or::<u32>("wep-key-type", 0);
        let wep_key_type = WEPKeyType::from_i32(
            if wep_key_type_number > 2147483647 {
                -1
            } else {
                wep_key_type_number as i32
            },
        );
        let wep_key0 = map.text_or("wep-key0", "");
        let wep_key1 = map.text_or("wep-key1", "");
        let wep_key2 = map.text_or("wep-key2", "");
        let wep_key3 = map.text_or("wep-key3", "");
        let wep_tx_keyidx = map.cast_or::<u32>("wep-tx-keyidx", 0);
        WifiSecuritySettings {
            authentication_algorithm,
            group,
            key_management,
            leap_password,
            leap_password_flags,
            leap_username,
            pairwise,
            proto,
            psk,
            psk_flags,
            wep_key_flags,
            wep_key_type,
            wep_key0,
            wep_key1,
            wep_key2,
            wep_key3,
            wep_tx_keyidx,
        }
    }

    fn to_propmap(&self) -> (map: PropMap) {
        let mut map = PropMap::new();
        if self.authentication_algorithm.as_str().unicode_len() > 0 {
            map.put("auth-alg", &self.authentication_algorithm);
        }
        map.put("group", &self.group);
        map.put("key-mgmt", &self.key_management.to_string());
        if self.leap_password.as_str().unicode_len() > 0 {
            map.put("leap-password", &self.leap_password);
        }
        map.put("leap-password-flags", &self.leap_password_flags.to_i32());
        if self.leap_username.as_str().unicode_len() > 0 {
            map.put("leap-username", &self.leap_username);
        }
        map.put("pairwise", &self.pairwise);
        map.put("proto", &self.proto);
        if self.psk.as_str().unicode_len() > 0 {
            map.put("psk", &self.psk);
        }
        if self.wep_key_type.to_i32() == 0 {
            map.put("wep-key-type", &self.wep_key_type.to_i32());
        }
        if self.wep_key0.as_str().unicode_len() > 0 {
            map.put("wep-key0", &self.wep_key0);
        }
        if self.wep_key1.as_str().unicode_len() > 0 {
            map.put("wep-key1", &self.wep_key1);
        }
        if self.wep_key2.as_str().unicode_len() > 0 {
            map.put("wep-key2", &self.wep_key2);
        }
        if self.wep_key3.as_str().unicode_len() > 0 {
            map.put("wep-key3", &self.wep_key3);
        }
        map
    }
}

/// The settings that only one kind of connection has.
#[derive(Debug)]
pub enum TypeSettings {
    WIFI(Box<WifiSettings>, Box<WifiSecuritySettings>),
    ETHERNET(Box<EthernetSettings>),
    VPN(Box<VPNSettings>),
    NoDevice,
}

impl TypeSettings {
    /// The name of the kind.
    pub fn to_string(&self) -> (text: String)
        ensures
            text@ == match self {
                TypeSettings::WIFI(_, _) => "wifi"@,
                TypeSettings::ETHERNET(_) => "ethernet"@,
                TypeSettings::VPN(_) => "vpn"@,
                TypeSettings::NoDevice => ""@,
            },
    {
        match self {
            TypeSettings::WIFI(_, _) => String::from_str("wifi"),
            TypeSettings::ETHERNET(_) => String::from_str("ethernet"),
            TypeSettings::VPN(_) => String::from_str("vpn"),
            TypeSettings::NoDevice => String::from_str(""),
        }
    }
}

/// The settings of port-based network access control.
#[derive(Debug)]
pub struct X802Settings {
    pub ca_cert: Vec<u8>,
    pub ca_cert_string: String,
    pub client_cert: Vec<u8>,
    pub domain_suffix: String,
    pub eap: Vec<String>,
    pub identity: String,
    pub pac_file: String,
    pub password: String,
    pub password_flags: u32,
    pub password_raw_flags: Vec<u8>,
}

/// The addresses that stand under a name; none where there is nothing of
/// the kind.
pub fn get_addresses(map: &PropMap, address_type: &str) -> (addresses: Vec<AddressType>)
    ensures
        addresses.content() == read_or::<Vec<AddressType>>(
            map@,
            address_type@,
            Content::List(Seq::empty()),
        ),
{
    map.list::<AddressType>(address_type)
}

/// The address that the parts of an entry stand for. A part that the
/// entry does not give is empty, and a metric that it does not give is -1.
pub fn address_from_parts(
    address: Option<String>,
    prefix: Option<u32>,
    gateway: Option<String>,
    metric: Option<i64>,
) -> (entry: AddressType)
    ensures
        entry.0@ == match address {
            Some(given) => given@,
            None => ""@,
        },
        entry.1 == match prefix {
            Some(given) => given,
            None => 0,
        },
        entry.2@ == match gateway {
            Some(given) => given@,
            None => ""@,
        },
        entry.3 == match metric {
            Some(given) => given as int,
            None => -1,
        },
{
    let address = match address {
        Some(given) => given,
        None => String::from_str(""),
    };
    let prefix = match prefix {
        Some(given) => given,
        None => 0,
    };
    let gateway = match gateway {
        Some(given) => given,
        None => String::from_str(""),
    };
    let metric = match metric {
        Some(given) => given,
        None => -1,
    };
    (address, prefix, gateway, metric)
}

/// What a section of a connection's properties is about.
#[derive(Clone, Copy, Debug, PartialEq, Eq)]
pub enum Section {
    Wireless,
    Ethernet,
    Vpn,
    Ipv6,
    Ipv4,
    General,
    Unknown,
}

/// What the section of a name is about.
pub open spec fn section_of(name: Seq<char>) -> Section {
    if name == "802-11-wireless"@ {
        Section::Wireless
    } else if name == "802-3-ethernet"@ {
        Section::Ethernet
    } else if name == "vpn"@ {
        Section::Vpn
    } else if name == "ipv6"@ {
        Section::Ipv6
    } else if name == "ipv4"@ {
        Section::Ipv4
    } else if name == "connection"@ {
        Section::General
    } else {
        Section::Unknown
    }
}

pub fn section_named(name: &str) -> (section: Section)
    ensures
        section == section_of(name@),
{
    if same_text(name, "802-11-wireless") {
        Section::Wireless
    } else if same_text(name, "802-3-ethernet") {
        Section::Ethernet
    } else if same_text(name, "vpn") {
        Section::Vpn
    } else if same_text(name, "ipv6") {
        Section::Ipv6
    } else if same_text(name, "ipv4") {
        Section::Ipv4
    } else if same_text(name, "connection") {
        Section::General
    } else {
        Section::Unknown
    }
}

/// Whether a section says of what kind the connection is.
pub open spec fn is_device(section: Section) -> bool {
    section is Wireless || section is Ethernet || section is Vpn
}

/// The place of the last of the first `upto` sections that is about
/// `wanted`; of any kind of device where `device` is set.
pub open spec fn last_section(
    sections: Seq<(String, PropMap)>,
    upto: int,
    wanted: Section,
    device: bool,
) -> Option<int>
    decreases upto,
{
    if upto <= 0 || upto > sections.len() {
        None
    } else {
        let section = section_of(sections[upto - 1].0@);
        if (device && is_device(section)) || (!device && section == wanted) {
            Some(upto - 1)
        } else {
            last_section(sections, upto - 1, wanted, device)
        }
    }
}

/// A connection as the network manager stores it.
#[derive(Debug)]
pub struct Connection {
    pub settings: ConnectionSettings,
    pub device: TypeSettings,
    pub ipv4: IPV4Settings,
    pub ipv6: IPV6Settings,
}

impl Connection {
    /// Whether the settings of the device are what a section stands for.
    pub open spec fn device_reads(device: TypeSettings, section: (String, PropMap)) -> bool {
        match section_of(section.0@) {
            Section::Wireless => device matches TypeSettings::WIFI(wifi, security) && wifi.reads(
                section.1@,
            ) && security.reads(section.1@),
            Section::Ethernet => device matches TypeSettings::ETHERNET(ethernet)
                && ethernet.reads(section.1@),
            Section::Vpn => device matches TypeSettings::VPN(vpn) && vpn.reads(section.1@),
            _ => false,
        }
    }

    /// Whether a connection can be read from the sections: there is a
    /// general section, one for a kind of device, one for IPv4 and one for
    /// IPv6.
    pub open spec fn convertible(sections: Seq<(String, PropMap)>) -> bool {
        let all = sections.len() as int;
        &&& last_section(sections, all, Section::General, false) is Some
        &&& last_section(sections, all, Section::Unknown, true) is Some
        &&& last_section(sections, all, Section::Ipv4, false) is Some
        &&& last_section(sections, all, Section::Ipv6, false) is Some
    }

    /// Whether the connection is what the sections stand for. Where a
    /// section comes twice, or more than one kind of device, the last one
    /// counts.
    pub open spec fn reads(&self, sections: Seq<(String, PropMap)>) -> bool {
        let all = sections.len() as int;
        &&& Self::convertible(sections)
        &&& self.settings.reads(
            sections[last_section(sections, all, Section::General, false).unwrap()].1@,
        )
        &&& Self::device_reads(
            self.device,
            sections[last_section(sections, all, Section::Unknown, true).unwrap()],
        )
        &&& self.ipv4.reads(sections[last_section(sections, all, Section::Ipv4, false).unwrap()].1@)
        &&& self.ipv6.reads(sections[last_section(sections, all, Section::Ipv6, false).unwrap()].1@)
    }

    /// Reads a connection from the sections of its properties.
    pub fn convert_from_propmap(sections: &Vec<(String, PropMap)>) -> (result: Result<
        Self,
        ConversionError,
    >)
        ensures
            Self::convertible(sections@) <==> result is Ok,
            result matches Ok(connection) ==> connection.reads(sections@),
            result matches Err(error) ==> error.message@ == "could not convert propmap"@,
    {
        let mut settings: Option<ConnectionSettings> = None;
        let mut device: Option<TypeSettings> = None;
        let mut ipv4: Option<IPV4Settings> = None;
        let mut ipv6: Option<IPV6Settings> = None;
        let mut i: usize = 0;
        while i < sections.len()
            invariant
                i <= sections.len(),
                match last_section(sections@, i as int, Section::General, false) {
                    Some(place) => settings matches Some(read) && read.reads(sections@[place].1@),
                    None => settings is None,
                },
                match last_section(sections@, i as int, Section::Unknown, true) {
                    Some(place) => device matches Some(read) && Self::device_reads(
                        read,
                        sections@[place],
                    ),
                    None => device is None,
                },
                match last_section(sections@, i as int, Section::Ipv4, false) {
                    Some(place) => ipv4 matches Some(read) && read.reads(sections@[place].1@),
                    None => ipv4 is None,
                },
                match last_section(sections@, i as int, Section::Ipv6, false) {
                    Some(place) => ipv6 matches Some(read) && read.reads(sections@[place].1@),
                    None => ipv6 is None,
                },
            decreases sections.len() - i,
        {
            let submap = &sections[i].1;
            match section_named(sections[i].0.as_str()) {
                Section::Wireless => {
                    device = Some(
                        TypeSettings::WIFI(
                            Box::new(WifiSettings::from_propmap(submap)),
                            Box::new(WifiSecuritySettings::from_propmap(submap)),
                        ),
                    );
                },
                Section::Ethernet => {
                    device = Some(
                        TypeSettings::ETHERNET(Box::new(EthernetSettings::from_propmap(submap))),
                    );
                },
                Section::Vpn => {
                    device = Some(TypeSettings::VPN(Box::new(VPNSettings::from_propmap(submap))));
                },
                Section::Ipv6 => {
                    ipv6 = Some(IPV6Settings::from_propmap(submap));
                },
                Section::Ipv4 => {
                    ipv4 = Some(IPV4Settings::from_propmap(submap));
                },
                Section::General => {
                    settings = Some(ConnectionSettings::from_propmap(submap));
                },
                Section::Unknown => {},
            }
            i += 1;
        }
        match (settings, device, ipv4, ipv6) {
            (Some(settings), Some(device), Some(ipv4), Some(ipv6)) => Ok(
                Connection { settings, device, ipv4, ipv6 },
            ),
            _ => Err(ConversionError { message: "could not convert propmap" }),
        }
    }

    /// The sections that the connection is written as, each with its
    /// name, in this order: the general one, those of the device, IPv4,
    /// IPv6.
    pub open spec fn written(&self) -> Seq<(Seq<char>, Map<Seq<char>, VariantView>)> {
        let general = seq![("connection"@, self.settings.written())];
        let device = match self.device {
            TypeSettings::WIFI(wifi, security) => seq![
                ("802-11-wireless"@, wifi.written()),
                ("802-11-wireless-security"@, security.written()),
            ],
            TypeSettings::ETHERNET(ethernet) => seq![("802-3-ethernet"@, ethernet.written())],
            TypeSettings::VPN(vpn) => seq![("vpn"@, vpn.written())],
            TypeSettings::NoDevice => Seq::empty(),
        };
        general + device + seq![("ipv4"@, self.ipv4.written()), ("ipv6"@, self.ipv6.written())]
    }

    /// Writes the connection as the sections of its properties.
    pub fn convert_to_propmap(&self) -> (sections: Vec<(String, PropMap)>)
        ensures
            Seq::new(sections@.len(), |i: int| (sections@[i].0@, sections@[i].1@))
                == self.written(),
    {
        let mut sections: Vec<(String, PropMap)> = Vec::new();
        sections.push((String::from_str("connection"), self.settings.to_propmap()));
        match &self.device {
            TypeSettings::WIFI(wifi, security) => {
                sections.push((String::from_str("802-11-wireless"), wifi.to_propmap()));
                sections.push(
                    (String::from_str("802-11-wireless-security"), security.to_propmap()),
                );
            },
            TypeSettings::ETHERNET(ethernet) => {
                sections.push((String::from_str("802-3-ethernet"), ethernet.to_propmap()));
            },
            TypeSettings::VPN(vpn) => {
                sections.push((String::from_str("vpn"), vpn.to_propmap()));
            },
            TypeSettings::NoDevice => {},
        }
        sections.push((String::from_str("ipv4"), self.ipv4.to_propmap()));
        sections.push((String::from_str("ipv6"), self.ipv6.to_propmap()));
        proof {
            assert(Seq::new(sections@.len(), |i: int| (sections@[i].0@, sections@[i].1@))
                =~= self.written());
        }
        sections
    }
}

} // verus!
