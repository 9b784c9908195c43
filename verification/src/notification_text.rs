//! The printed forms of notifications, as they are written to the log.

use crate::text::{bracketed, debug_quote, debug_quoted, decimal, in_brackets, push_decimal};
use crate::utils::{colon_hex, parse_bssid, parse_ssid, ssid_text};
use crate::windows_type_wrappers::{
    AcmNotifcationType, AcmNotificationDataWrapper, HostedNetworkNoticationType,
    MsmNotifcationType, MsmNotificationData, OnexNotifcationType, WlanMsmNotifcationDataWrapper,
    WlanNotifcationSource, WlanNotificationWrapper,
};
use vstd::prelude::*;

verus! {

impl WlanNotifcationSource {
    /// The name of the source.
    pub open spec fn name(&self) -> Seq<char> {
        match self {
            WlanNotifcationSource::UNKNOWN => "UNKNOWN"@,
            WlanNotifcationSource::ONEX => "ONEX"@,
            WlanNotifcationSource::ACM => "ACM"@,
            WlanNotifcationSource::MSM => "MSM"@,
            WlanNotifcationSource::SECURITY => "SECURITY"@,
            WlanNotifcationSource::IHV => "IHV"@,
            WlanNotifcationSource::HNWK => "HNWK"@,
            WlanNotifcationSource::ALL => "ALL"@,
        }
    }

    /// The name of the source.
    pub fn variant_name(&self) -> (name: &'static str)
        ensures
            name@ == self.name(),
    {
        match self {
            WlanNotifcationSource::UNKNOWN => "UNKNOWN",
            WlanNotifcationSource::ONEX => "ONEX",
            WlanNotifcationSource::ACM => "ACM",
            WlanNotifcationSource::MSM => "MSM",
            WlanNotifcationSource::SECURITY => "SECURITY",
            WlanNotifcationSource::IHV => "IHV",
            WlanNotifcationSource::HNWK => "HNWK",
            WlanNotifcationSource::ALL => "ALL",
        }
    }
}

impl OnexNotifcationType {
    /// The name of the notification.
    pub open spec fn name(&self) -> Seq<char> {
        match self {
            OnexNotifcationType::ResultUpdate => "ResultUpdate"@,
            OnexNotifcationType::AuthRestarted => "AuthRestarted"@,
            OnexNotifcationType::EventInvalid => "EventInvalid"@,
        }
    }

    /// The name of the notification.
    pub fn variant_name(&self) -> (name: &'static str)
        ensures
            name@ == self.name(),
    {
        match self {
            OnexNotifcationType::ResultUpdate => "ResultUpdate",
            OnexNotifcationType::AuthRestarted => "AuthRestarted",
            OnexNotifcationType::EventInvalid => "EventInvalid",
        }
    }
}

impl HostedNetworkNoticationType {
    /// The name of the notification.
    pub open spec fn name(&self) -> Seq<char> {
        match self {
            HostedNetworkNoticationType::StateChange => "StateChange"@,
            HostedNetworkNoticationType::PeerStateChange => "PeerStateChange"@,
            HostedNetworkNoticationType::RadioStateChange => "RadioStateChange"@,
        }
    }

    /// The name of the notification.
    pub fn variant_name(&self) -> (name: &'static str)
        ensures
            name@ == self.name(),
    {
        match self {
            HostedNetworkNoticationType::StateChange => "StateChange",
            HostedNetworkNoticationType::PeerStateChange => "PeerStateChange",
            HostedNetworkNoticationType::RadioStateChange => "RadioStateChange",
        }
    }
}

impl AcmNotifcationType {
    /// The name of the notification.
    pub open spec fn name(&self) -> Seq<char> {
        match self {
            AcmNotifcationType::AutoconfEnabled => "AutoconfEnabled"@,
            AcmNotifcationType::AutoconfDisabled => "AutoconfDisabled"@,
            AcmNotifcationType::BackgroundScanEnabled => "BackgroundScanEnabled"@,
            AcmNotifcationType::BackgroundScanDisabled => "BackgroundScanDisabled"@,
            AcmNotifcationType::BSSTypeChange => "BSSTypeChange"@,
            AcmNotifcationType::PowerSettingChange => "PowerSettingChange"@,
            AcmNotifcationType::ScanComplete => "ScanComplete"@,
            AcmNotifcationType::ScanFail(_) => "ScanFail"@,
            AcmNotifcationType::ConnectionStart(_) => "ConnectionStart"@,
            AcmNotifcationType::ConnectionComplete(_) => "ConnectionComplete"@,
            AcmNotifcationType::ConnectionAttemptFail => "ConnectionAttemptFail"@,
            AcmNotifcationType::FilterListChange => "FilterListChange"@,
            AcmNotifcationType::InterfaceArrival => "InterfaceArrival"@,
            AcmNotifcationType::InterfaceRemoval => "InterfaceRemoval"@,
            AcmNotifcationType::ProfileChange => "ProfileChange"@,
            AcmNotifcationType::ProfileNameChange => "ProfileNameChange"@,
            AcmNotifcationType::ProfilesExhausted => "ProfilesExhausted"@,
            AcmNotifcationType::NetworkNotAvailable => "NetworkNotAvailable"@,
            AcmNotifcationType::NetworkAvailable => "NetworkAvailable"@,
            AcmNotifcationType::Disconnecting => "Disconnecting"@,
            AcmNotifcationType::Disconnected(_) => "Disconnected"@,
            AcmNotifcationType::AdhocNetworkStateChange => "AdhocNetworkStateChange"@,
            AcmNotifcationType::ProfileUnblocked => "ProfileUnblocked"@,
            AcmNotifcationType::ScreenPowerChange => "ScreenPowerChange"@,
            AcmNotifcationType::ProfileBlocked => "ProfileBlocked"@,
            AcmNotifcationType::ScanListRefresh => "ScanListRefresh"@,
            AcmNotifcationType::OperationalStateChange => "OperationalStateChange"@,
        }
    }

    /// The name of the notification.
    pub fn variant_name(&self) -> (name: &'static str)
        ensures
            name@ == self.name(),
    {
        match self {
            AcmNotifcationType::AutoconfEnabled => "AutoconfEnabled",
            AcmNotifcationType::AutoconfDisabled => "AutoconfDisabled",
            AcmNotifcationType::BackgroundScanEnabled => "BackgroundScanEnabled",
            AcmNotifcationType::BackgroundScanDisabled => "BackgroundScanDisabled",
            AcmNotifcationType::BSSTypeChange => "BSSTypeChange",
            AcmNotifcationType::PowerSettingChange => "PowerSettingChange",
            AcmNotifcationType::ScanComplete => "ScanComplete",
            AcmNotifcationType::ScanFail(_) => "ScanFail",
            AcmNotifcationType::ConnectionStart(_) => "ConnectionStart",
            AcmNotifcationType::ConnectionComplete(_) => "ConnectionComplete",
            AcmNotifcationType::ConnectionAttemptFail => "ConnectionAttemptFail",
            AcmNotifcationType::FilterListChange => "FilterListChange",
            AcmNotifcationType::InterfaceArrival => "InterfaceArrival",
            AcmNotifcationType::InterfaceRemoval => "InterfaceRemoval",
            AcmNotifcationType::ProfileChange => "ProfileChange",
            AcmNotifcationType::ProfileNameChange => "ProfileNameChange",
            AcmNotifcationType::ProfilesExhausted => "ProfilesExhausted",
            AcmNotifcationType::NetworkNotAvailable => "NetworkNotAvailable",
            AcmNotifcationType::NetworkAvailable => "NetworkAvailable",
            AcmNotifcationType::Disconnecting => "Disconnecting",
            AcmNotifcationType::Disconnected(_) => "Disconnected",
            AcmNotifcationType::AdhocNetworkStateChange => "AdhocNetworkStateChange",
            AcmNotifcationType::ProfileUnblocked => "ProfileUnblocked",
            AcmNotifcationType::ScreenPowerChange => "ScreenPowerChange",
            AcmNotifcationType::ProfileBlocked => "ProfileBlocked",
            AcmNotifcationType::ScanListRefresh => "ScanListRefresh",
            AcmNotifcationType::OperationalStateChange => "OperationalStateChange",
        }
    }
}

impl MsmNotifcationType {
    /// The name of the notification.
    pub open spec fn name(&self) -> Seq<char> {
        match self {
            MsmNotifcationType::Associating(_) => "Associating"@,
            MsmNotifcationType::Associated(_) => "Associated"@,
            MsmNotifcationType::Authenticating(_) => "Authenticating"@,
            MsmNotifcationType::Connected => "Connected"@,
            MsmNotifcationType::RoamingStart(_) => "RoamingStart"@,
            MsmNotifcationType::RoamingEnd(_) => "RoamingEnd"@,
            MsmNotifcationType::RadioStateChange => "RadioStateChange"@,
            MsmNotifcationType::SignalQualityChange(_) => "SignalQualityChange"@,
            MsmNotifcationType::Disconnected(_) => "Disconnected"@,
            MsmNotifcationType::PeerJoin => "PeerJoin"@,
            MsmNotifcationType::PeerLeave => "PeerLeave"@,
            MsmNotifcationType::AdapterRemoval => "AdapterRemoval"@,
            MsmNotifcationType::AdapterOperationModeChange => "AdapterOperationModeChange"@,
            MsmNotifcationType::LinkDegraded => "LinkDegraded"@,
            MsmNotifcationType::LinkImproved => "LinkImproved"@,
            MsmNotifcationType::Disassociating => "Disassociating"@,
        }
    }

    /// The name of the notification.
    pub fn variant_name(&self) -> (name: &'static str)
        ensures
            name@ == self.name(),
    {
        match self {
            MsmNotifcationType::Associating(_) => "Associating",
            MsmNotifcationType::Associated(_) => "Associated",
            MsmNotifcationType::Authenticating(_) => "Authenticating",
            MsmNotifcationType::Connected => "Connected",
            MsmNotifcationType::RoamingStart(_) => "RoamingStart",
            MsmNotifcationType::RoamingEnd(_) => "RoamingEnd",
            MsmNotifcationType::RadioStateChange => "RadioStateChange",
            MsmNotifcationType::SignalQualityChange(_) => "SignalQualityChange",
            MsmNotifcationType::Disconnected(_) => "Disconnected",
            MsmNotifcationType::PeerJoin => "PeerJoin",
            MsmNotifcationType::PeerLeave => "PeerLeave",
            MsmNotifcationType::AdapterRemoval => "AdapterRemoval",
            MsmNotifcationType::AdapterOperationModeChange => "AdapterOperationModeChange",
            MsmNotifcationType::LinkDegraded => "LinkDegraded",
            MsmNotifcationType::LinkImproved => "LinkImproved",
            MsmNotifcationType::Disassociating => "Disassociating",
        }
    }
}

impl AcmNotificationDataWrapper {
    /// The printed form: the network name, and the reason code on a line
    /// of its own.
    pub open spec fn text(&self) -> Seq<char> {
        ssid_text(self.ssid) + "\nreason: "@ + decimal(self.reason_code as nat)
    }

    /// The printed form of the connection data.
    pub fn to_string(&self) -> (text: String)
        requires
            self.ssid.length <= 32,
        ensures
            text@ == self.text(),
    {
        let mut text = parse_ssid(self.ssid);
        text.append("\nreason: ");
        push_decimal(&mut text, self.reason_code as u64);
        text
    }
}

impl MsmNotificationData {
    /// Whether the data can be printed: the network name is within its
    /// buffer and the profile name reads as text.
    pub open spec fn printable(&self) -> bool {
        self.ssid.length <= 32 && self.profile_name is Some
    }

    /// The printed form: network name and hardware address on the first
    /// line, then the profile and the reason code on lines of their own.
    pub open spec fn text(&self) -> Seq<char> {
        ssid_text(self.ssid) + " @ "@ + colon_hex(self.mac_addr@) + "\nprofile: "@
            + self.profile_name->0@ + "\nreason: "@ + decimal(self.reason_code as nat)
    }

    /// Whether the data can be printed.
    #[verifier::when_used_as_spec(printable)]
    pub fn is_printable(&self) -> (printable: bool)
        ensures
            printable == self.printable(),
    {
        self.ssid.length <= 32 && self.profile_name.is_some()
    }

    /// The printed form of the connection data.
    pub fn to_string(&self) -> (text: String)
        requires
            self.printable(),
        ensures
            text@ == self.text(),
    {
        let mut text = parse_ssid(self.ssid);
        text.append(" @ ");
        let bssid = parse_bssid(self.mac_addr);
        text.append(bssid.as_str());
        text.append("\nprofile: ");
        match &self.profile_name {
            Some(name) => text.append(name.as_str()),
            None => {},
        }
        text.append("\nreason: ");
        push_decimal(&mut text, self.reason_code as u64);
        text
    }
}

impl WlanMsmNotifcationDataWrapper {
    /// Whether the payload can be printed: its data, if it has any, can
    /// be.
    pub open spec fn printable(&self) -> bool {
        self.field matches Some(data) ==> data.printable()
    }

    /// The printed form: that of the data, or a fixed text for the empty
    /// payload of a template.
    pub open spec fn text(&self) -> Seq<char> {
        match self.field {
            Some(data) => data.text(),
            None => "WlanMsmNotifcationComparison"@,
        }
    }

    /// The printed form of the payload.
    pub fn to_string(&self) -> (text: String)
        requires
            self.printable(),
        ensures
            text@ == self.text(),
    {
        if let Some(val) = &self.field {
            val.to_string()
        } else {
            String::from_str("WlanMsmNotifcationComparison")
        }
    }
}

/// A heading, and under it a payload.
fn headed(heading: &str, payload: String) -> (text: String)
    ensures
        text@ == heading@ + payload@,
{
    let mut text = String::from_str(heading);
    text.append(payload.as_str());
    text
}

/// The debug form of a failed scan, from the quoted text of its reason.
pub fn scan_fail_debug(quoted_reason: &str) -> (text: String)
    ensures
        text@ == in_brackets("ScanFail"@, quoted_reason@),
{
    bracketed("ScanFail", quoted_reason)
}

impl AcmNotifcationType {
    /// The debug form of a notification that carries no connection data:
    /// its name, with the quoted reason in brackets for a failed scan.
    pub open spec fn debug_text(&self) -> Seq<char> {
        match self {
            AcmNotifcationType::ScanFail(reason) => in_brackets(
                "ScanFail"@,
                debug_quoted(reason@),
            ),
            _ => self.name(),
        }
    }

    /// The debug form of a notification.
    pub fn debug_string(&self) -> (text: String)
        ensures
            text@ == self.debug_text(),
    {
        match self {
            AcmNotifcationType::ScanFail(reason) => {
                let quoted = debug_quote(reason.as_str());
                scan_fail_debug(quoted.as_str())
            },
            _ => String::from_str(self.variant_name()),
        }
    }
}

impl MsmNotifcationType {
    /// The debug form of a notification that carries no connection data:
    /// its name, with the percentage in brackets for a change of signal
    /// quality.
    pub open spec fn debug_text(&self) -> Seq<char> {
        match self {
            MsmNotifcationType::SignalQualityChange(quality) => in_brackets(
                "SignalQualityChange"@,
                decimal(*quality as nat),
            ),
            _ => self.name(),
        }
    }

    /// The debug form of a notification.
    pub fn debug_string(&self) -> (text: String)
        ensures
            text@ == self.debug_text(),
    {
        match self {
            MsmNotifcationType::SignalQualityChange(quality) => {
                let mut number = String::new();
                push_decimal(&mut number, *quality as u64);
                bracketed("SignalQualityChange", number.as_str())
            },
            _ => String::from_str(self.variant_name()),
        }
    }
}

impl WlanNotificationWrapper {
    /// Whether the notification can be printed: the network name in its
    /// payload, if it has one, is within its buffer, and its profile name,
    /// if it has one, reads as text.
    pub open spec fn printable(&self) -> bool {
        match self {
            WlanNotificationWrapper::Msm(m) => match m {
                MsmNotifcationType::Authenticating(data)
                | MsmNotifcationType::RoamingStart(data)
                | MsmNotifcationType::RoamingEnd(data)
                | MsmNotifcationType::Disconnected(data)
                | MsmNotifcationType::Associating(data)
                | MsmNotifcationType::Associated(data) => data.printable(),
                _ => true,
            },
            WlanNotificationWrapper::Acm(a) => match a {
                AcmNotifcationType::ConnectionStart(data)
                | AcmNotifcationType::ConnectionComplete(data)
                | AcmNotifcationType::Disconnected(data) => data.ssid.length <= 32,
                _ => true,
            },
            _ => true,
        }
    }

    /// Whether the notification can be printed.
    #[verifier::when_used_as_spec(printable)]
    pub fn is_printable(&self) -> (printable: bool)
        ensures
            printable == self.printable(),
    {
        match self {
            WlanNotificationWrapper::Msm(m) => match m {
                MsmNotifcationType::Authenticating(data)
                | MsmNotifcationType::RoamingStart(data)
                | MsmNotifcationType::RoamingEnd(data)
                | MsmNotifcationType::Disconnected(data)
                | MsmNotifcationType::Associating(data)
                | MsmNotifcationType::Associated(data) => match &data.field {
                    Some(data) => data.is_printable(),
                    None => true,
                },
                _ => true,
            },
            WlanNotificationWrapper::Acm(a) => match a {
                AcmNotifcationType::ConnectionStart(data)
                | AcmNotifcationType::ConnectionComplete(data)
                | AcmNotifcationType::Disconnected(data) => data.ssid.length <= 32,
                _ => true,
            },
            _ => true,
        }
    }

    /// The printed form. A notification with connection data is a heading
    /// that names module and notification, with the data under it. Any other
    /// is in debug form: the module, and in brackets the notification.
    pub open spec fn text(&self) -> Seq<char> {
        match self {
            WlanNotificationWrapper::Msm(m) => match m {
                MsmNotifcationType::Authenticating(data) => "MSM::Authenticating:\n"@
                    + data.text(),
                MsmNotifcationType::RoamingStart(data) => "MSM::Roam start:\n"@ + data.text(),
                MsmNotifcationType::RoamingEnd(data) => "MSM::Roam end:\n"@ + data.text(),
                MsmNotifcationType::Disconnected(data) => "MSM::Disconnected:\n"@ + data.text(),
                MsmNotifcationType::Associating(data) => "MSM::Associating:\n"@ + data.text(),
                MsmNotifcationType::Associated(data) => "MSM::Associated:\n"@ + data.text(),
                _ => in_brackets("Msm"@, m.debug_text()),
            },
            WlanNotificationWrapper::Acm(a) => match a {
                AcmNotifcationType::ConnectionStart(data) => "ACM::ConnectionStart:\n"@
                    + data.text(),
                AcmNotifcationType::ConnectionComplete(data) => "ACM::ConnectionComplete:\n"@
                    + data.text(),
                AcmNotifcationType::Disconnected(data) => "ACM::Disconnected:\n"@ + data.text(),
                _ => in_brackets("Acm"@, a.debug_text()),
            },
            WlanNotificationWrapper::Onex(o) => in_brackets("Onex"@, o.name()),
            WlanNotificationWrapper::Hnwk(h) => in_brackets("Hnwk"@, h.name()),
            WlanNotificationWrapper::Other(source, code) => in_brackets(
                "Other"@,
                source.name() + ", "@ + decimal(*code as nat),
            ),
        }
    }

    /// The printed form of the notification.
    pub fn to_string(&self) -> (text: String)
        requires
            self.printable(),
        ensures
            text@ == self.text(),
    {
        match self {
            WlanNotificationWrapper::Msm(m) => match m {
                MsmNotifcationType::Authenticating(data) => headed(
                    "MSM::Authenticating:\n",
                    data.to_string(),
                ),
                MsmNotifcationType::RoamingStart(data) => headed(
                    "MSM::Roam start:\n",
                    data.to_string(),
                ),
                MsmNotifcationType::RoamingEnd(data) => headed(
                    "MSM::Roam end:\n",
                    data.to_string(),
                ),
                MsmNotifcationType::Disconnected(data) => headed(
                    "MSM::Disconnected:\n",
                    data.to_string(),
                ),
                MsmNotifcationType::Associating(data) => headed(
                    "MSM::Associating:\n",
                    data.to_string(),
                ),
                MsmNotifcationType::Associated(data) => headed(
                    "MSM::Associated:\n",
                    data.to_string(),
                ),
                _ => bracketed("Msm", m.debug_string().as_str()),
            },
            WlanNotificationWrapper::Acm(a) => match a {
                AcmNotifcationType::ConnectionStart(data) => headed(
                    "ACM::ConnectionStart:\n",
                    data.to_string(),
                ),
                AcmNotifcationType::ConnectionComplete(data) => headed(
                    "ACM::ConnectionComplete:\n",
                    data.to_string(),
                ),
                AcmNotifcationType::Disconnected(data) => headed(
                    "ACM::Disconnected:\n",
                    data.to_string(),
                ),
                _ => bracketed("Acm", a.debug_string().as_str()),
            },
            WlanNotificationWrapper::Onex(o) => bracketed("Onex", o.variant_name()),
            WlanNotificationWrapper::Hnwk(h) => bracketed("Hnwk", h.variant_name()),
            WlanNotificationWrapper::Other(source, code) => {
                let mut inner = String::from_str(source.variant_name());
                inner.append(", ");
                push_decimal(&mut inner, *code as u64);
                bracketed("Other", inner.as_str())
            },
        }
    }
}

} // verus!
