//! The typed form of adapter notifications, and their decoding from the
//! numeric source and code that the platform reports.

use crate::error::WlanError;
use crate::utils::Dot11Ssid;
use vstd::prelude::*;
use vstd::std_specs::convert::TryFromSpecImpl;

verus! {

/// The subsystem that a notification comes from, as a bit mask.
#[derive(Debug, PartialEq, Eq, Clone, Copy)]
pub enum WlanNotifcationSource {
    UNKNOWN,
    ONEX,
    ACM,
    MSM,
    SECURITY,
    IHV,
    HNWK,
    ALL,
}

impl WlanNotifcationSource {
    /// The bit mask of the source.
    pub open spec fn mask(self) -> u32 {
        match self {
            WlanNotifcationSource::UNKNOWN => 0,
            WlanNotifcationSource::ONEX => 0x4,
            WlanNotifcationSource::ACM => 0x8,
            WlanNotifcationSource::MSM => 0x10,
            WlanNotifcationSource::SECURITY => 0x20,
            WlanNotifcationSource::IHV => 0x40,
            WlanNotifcationSource::HNWK => 0x80,
            WlanNotifcationSource::ALL => 0xFFFF,
        }
    }
}

/// The source with the given bit mask, or the error for a value that is no
/// source's mask.
pub open spec fn source_of(value: u32) -> Result<WlanNotifcationSource, WlanError> {
    if value == 0 {
        Ok(WlanNotifcationSource::UNKNOWN)
    } else if value == 0x4 {
        Ok(WlanNotifcationSource::ONEX)
    } else if value == 0x8 {
        Ok(WlanNotifcationSource::ACM)
    } else if value == 0x10 {
        Ok(WlanNotifcationSource::MSM)
    } else if value == 0x20 {
        Ok(WlanNotifcationSource::SECURITY)
    } else if value == 0x40 {
        Ok(WlanNotifcationSource::IHV)
    } else if value == 0x80 {
        Ok(WlanNotifcationSource::HNWK)
    } else if value == 0xFFFF {
        Ok(WlanNotifcationSource::ALL)
    } else {
        Err(WlanError::InvalidNotificationSource(value))
    }
}

impl TryFrom<u32> for WlanNotifcationSource {
    type Error = WlanError;

    /// The source with the given bit mask; any other value is an error.
    fn try_from(value: u32) -> (source: Result<Self, Self::Error>)
        ensures
            source == source_of(value),
    {
        let out = match value {
            0 => Some(WlanNotifcationSource::UNKNOWN),
            0x4 => Some(WlanNotifcationSource::ONEX),
            0x8 => Some(WlanNotifcationSource::ACM),
            0x10 => Some(WlanNotifcationSource::MSM),
            0x20 => Some(WlanNotifcationSource::SECURITY),
            0x40 => Some(WlanNotifcationSource::IHV),
            0x80 => Some(WlanNotifcationSource::HNWK),
            0xFFFF => Some(WlanNotifcationSource::ALL),
            _ => None,
        };
        if let Some(value) = out {
            Ok(value)
        } else {
            Err(WlanError::InvalidNotificationSource(value))
        }
    }
}

impl TryFromSpecImpl<u32> for WlanNotifcationSource {
    open spec fn obeys_try_from_spec() -> bool {
        true
    }

    open spec fn try_from_spec(value: u32) -> Result<Self, Self::Error> {
        source_of(value)
    }
}

/// What a connection-manager notification about a connection carries: the
/// network name and the platform's reason code.
#[derive(Debug, Clone, Copy, PartialEq, Eq)]
pub struct AcmNotificationDataWrapper {
    pub ssid: Dot11Ssid,
    pub reason_code: u32,
}

impl Default for AcmNotificationDataWrapper {
    /// Connection data with an empty network name and the reason code zero,
    /// as a template holds it.
    fn default() -> (wrapper: Self)
        ensures
            wrapper.reason_code == 0,
            wrapper.ssid.length == 0,
            forall|i: int| 0 <= i < 32 ==> wrapper.ssid.bytes@[i] == 0,
    {
        AcmNotificationDataWrapper {
            ssid: Dot11Ssid { length: 0, bytes: [0u8; 32] },
            reason_code: 0,
        }
    }
}

impl AcmNotificationDataWrapper {
    /// Whether the operation succeeded: the reason code is the success
    /// sentinel, zero.
    pub open spec fn success(&self) -> bool {
        self.reason_code == 0
    }

    /// Whether the operation that the notification reports succeeded.
    #[verifier::when_used_as_spec(success)]
    pub fn operation_success(&self) -> (success: bool)
        ensures
            success == self.success(),
    {
        self.reason_code == 0
    }
}

/// What a media-state notification about a connection carries.
#[derive(Debug, Clone, PartialEq, Eq)]
pub struct MsmNotificationData {
    pub ssid: Dot11Ssid,
    pub mac_addr: [u8; 6],
    /// The name of the profile, where the platform's UTF-16 reads as text.
    pub profile_name: Option<String>,
    pub reason_code: u32,
}

/// The payload of a media-state notification; empty in a template that
/// only names the kind of notification to wait for.
#[derive(Debug, Clone, PartialEq, Eq)]
pub struct WlanMsmNotifcationDataWrapper {
    pub field: Option<MsmNotificationData>,
}

impl Default for WlanMsmNotifcationDataWrapper {
    /// The empty payload of a template.
    fn default() -> (wrapper: Self)
        ensures
            wrapper.field is None,
    {
        WlanMsmNotifcationDataWrapper { field: None }
    }
}

/// The payload that arrives with a notification, read from the platform's
/// buffer in the shape that `payload_kind` asks for.
#[derive(Debug, Clone, PartialEq, Eq)]
pub enum NotificationPayload {
    /// Nothing was read.
    Empty,
    /// Connection data of the connection manager.
    Connection(AcmNotificationDataWrapper),
    /// Connection data of the media-state manager.
    Msm(MsmNotificationData),
    /// One 32-bit value.
    Value(u32),
    /// The platform's text for a reason code.
    ReasonText(String),
}

/// The shape of the payload that a notification carries.
#[derive(Debug, Clone, Copy, PartialEq, Eq)]
pub enum PayloadKind {
    Empty,
    Connection,
    Msm,
    Value,
    ReasonText,
}

impl NotificationPayload {
    /// The shape of this payload.
    pub open spec fn kind(self) -> PayloadKind {
        match self {
            NotificationPayload::Empty => PayloadKind::Empty,
            NotificationPayload::Connection(_) => PayloadKind::Connection,
            NotificationPayload::Msm(_) => PayloadKind::Msm,
            NotificationPayload::Value(_) => PayloadKind::Value,
            NotificationPayload::ReasonText(_) => PayloadKind::ReasonText,
        }
    }
}

/// One notification as the platform hands it over: the source mask, the
/// code within that source, and the payload.
#[derive(Debug, Clone, PartialEq, Eq)]
pub struct L2NotificationData {
    pub notification_source: u32,
    pub notification_code: u32,
    pub payload: NotificationPayload,
}

/// Notifications of the 802.1X module.
#[derive(Debug, Clone, Copy, PartialEq, Eq)]
pub enum OnexNotifcationType {
    ResultUpdate,
    AuthRestarted,
    EventInvalid,
}

impl OnexNotifcationType {
    /// The platform's code of the notification.
    pub open spec fn spec_code(&self) -> u32 {
        match self {
            OnexNotifcationType::ResultUpdate => 1,
            OnexNotifcationType::AuthRestarted => 2,
            OnexNotifcationType::EventInvalid => 3,
        }
    }

    /// The platform's code of the notification.
    #[verifier::when_used_as_spec(spec_code)]
    pub fn code(&self) -> (code: u32)
        ensures
            code == self.spec_code(),
    {
        match self {
            OnexNotifcationType::ResultUpdate => 1,
            OnexNotifcationType::AuthRestarted => 2,
            OnexNotifcationType::EventInvalid => 3,
        }
    }
}

/// The 802.1X notification with the given code, or the error for a code
/// that names none.
pub open spec fn onex_of(code: u32) -> Result<OnexNotifcationType, WlanError> {
    if code == 1 {
        Ok(OnexNotifcationType::ResultUpdate)
    } else if code == 2 {
        Ok(OnexNotifcationType::AuthRestarted)
    } else if code == 3 {
        Ok(OnexNotifcationType::EventInvalid)
    } else {
        Err(WlanError::InvalidOnexCode(code))
    }
}

impl TryFrom<L2NotificationData> for OnexNotifcationType {
    type Error = WlanError;

    /// Decodes an 802.1X notification from its code; the payload is not
    /// read.
    fn try_from(value: L2NotificationData) -> (decoded: Result<Self, Self::Error>)
        ensures
            decoded == onex_of(value.notification_code),
    {
        match value.notification_code {
            1 => Ok(OnexNotifcationType::ResultUpdate),
            2 => Ok(OnexNotifcationType::AuthRestarted),
            3 => Ok(OnexNotifcationType::EventInvalid),
            _ => Err(WlanError::InvalidOnexCode(value.notification_code)),
        }
    }
}

impl TryFromSpecImpl<L2NotificationData> for OnexNotifcationType {
    open spec fn obeys_try_from_spec() -> bool {
        true
    }

    open spec fn try_from_spec(value: L2NotificationData) -> Result<Self, Self::Error> {
        onex_of(value.notification_code)
    }
}

/// Notifications of the hosted-network module.
#[derive(Debug, Clone, Copy, PartialEq, Eq)]
pub enum HostedNetworkNoticationType {
    StateChange,
    PeerStateChange,
    RadioStateChange,
}

impl HostedNetworkNoticationType {
    /// The platform's code of the notification.
    pub open spec fn spec_code(&self) -> u32 {
        match self {
            HostedNetworkNoticationType::StateChange => 4096,
            HostedNetworkNoticationType::PeerStateChange => 4097,
            HostedNetworkNoticationType::RadioStateChange => 4098,
        }
    }

    /// The platform's code of the notification.
    #[verifier::when_used_as_spec(spec_code)]
    pub fn code(&self) -> (code: u32)
        ensures
            code == self.spec_code(),
    {
        match self {
            HostedNetworkNoticationType::StateChange => 4096,
            HostedNetworkNoticationType::PeerStateChange => 4097,
            HostedNetworkNoticationType::RadioStateChange => 4098,
        }
    }
}

/// The hosted-network notification with the given code, or the error for a
/// code that names none.
pub open spec fn hosted_network_of(code: u32) -> Result<HostedNetworkNoticationType, WlanError> {
    if code == 4096 {
        Ok(HostedNetworkNoticationType::StateChange)
    } else if code == 4097 {
        Ok(HostedNetworkNoticationType::PeerStateChange)
    } else if code == 4098 {
        Ok(HostedNetworkNoticationType::RadioStateChange)
    } else {
        Err(WlanError::InvalidHostedNetworkCode(code))
    }
}

impl TryFrom<L2NotificationData> for HostedNetworkNoticationType {
    type Error = WlanError;

    /// Decodes a hosted-network notification from its code; the payload is
    /// not read.
    fn try_from(value: L2NotificationData) -> (decoded: Result<Self, Self::Error>)
        ensures
            decoded == hosted_network_of(value.notification_code),
    {
        match value.notification_code {
            4096 => Ok(HostedNetworkNoticationType::StateChange),
            4097 => Ok(HostedNetworkNoticationType::PeerStateChange),
            4098 => Ok(HostedNetworkNoticationType::RadioStateChange),
            _ => Err(WlanError::InvalidHostedNetworkCode(value.notification_code)),
        }
    }
}

impl TryFromSpecImpl<L2NotificationData> for HostedNetworkNoticationType {
    open spec fn obeys_try_from_spec() -> bool {
        true
    }

    open spec fn try_from_spec(value: L2NotificationData) -> Result<Self, Self::Error> {
        hosted_network_of(value.notification_code)
    }
}

/// Notifications of the connection manager.
#[derive(Debug, Clone, PartialEq, Eq)]
pub enum AcmNotifcationType {
    AutoconfEnabled,
    AutoconfDisabled,
    BackgroundScanEnabled,
    BackgroundScanDisabled,
    BSSTypeChange,
    PowerSettingChange,
    ScanComplete,
    ScanFail(String),
    ConnectionStart(AcmNotificationDataWrapper),
    ConnectionComplete(AcmNotificationDataWrapper),
    ConnectionAttemptFail,
    FilterListChange,
    InterfaceArrival,
    InterfaceRemoval,
    ProfileChange,
    ProfileNameChange,
    ProfilesExhausted,
    NetworkNotAvailable,
    NetworkAvailable,
    Disconnecting,
    Disconnected(AcmNotificationDataWrapper),
    AdhocNetworkStateChange,
    ProfileUnblocked,
    ScreenPowerChange,
    ProfileBlocked,
    ScanListRefresh,
    OperationalStateChange,
}

impl AcmNotifcationType {
    /// The platform's code of the notification.
    pub open spec fn spec_code(&self) -> u32 {
        match self {
            AcmNotifcationType::AutoconfEnabled => 1,
            AcmNotifcationType::AutoconfDisabled => 2,
            AcmNotifcationType::BackgroundScanEnabled => 3,
            AcmNotifcationType::BackgroundScanDisabled => 4,
            AcmNotifcationType::BSSTypeChange => 5,
            AcmNotifcationType::PowerSettingChange => 6,
            AcmNotifcationType::ScanComplete => 7,
            AcmNotifcationType::ScanFail(_) => 8,
            AcmNotifcationType::ConnectionStart(_) => 9,
            AcmNotifcationType::ConnectionComplete(_) => 10,
            AcmNotifcationType::ConnectionAttemptFail => 11,
            AcmNotifcationType::FilterListChange => 12,
            AcmNotifcationType::InterfaceArrival => 13,
            AcmNotifcationType::InterfaceRemoval => 14,
            AcmNotifcationType::ProfileChange => 15,
            AcmNotifcationType::ProfileNameChange => 16,
            AcmNotifcationType::ProfilesExhausted => 17,
            AcmNotifcationType::NetworkNotAvailable => 18,
            AcmNotifcationType::NetworkAvailable => 19,
            AcmNotifcationType::Disconnecting => 20,
            AcmNotifcationType::Disconnected(_) => 21,
            AcmNotifcationType::AdhocNetworkStateChange => 22,
            AcmNotifcationType::ProfileUnblocked => 23,
            AcmNotifcationType::ScreenPowerChange => 24,
            AcmNotifcationType::ProfileBlocked => 25,
            AcmNotifcationType::ScanListRefresh => 26,
            AcmNotifcationType::OperationalStateChange => 27,
        }
    }

    /// The platform's code of the notification.
    #[verifier::when_used_as_spec(spec_code)]
    pub fn code(&self) -> (code: u32)
        ensures
            code == self.spec_code(),
    {
        match self {
            AcmNotifcationType::AutoconfEnabled => 1,
            AcmNotifcationType::AutoconfDisabled => 2,
            AcmNotifcationType::BackgroundScanEnabled => 3,
            AcmNotifcationType::BackgroundScanDisabled => 4,
            AcmNotifcationType::BSSTypeChange => 5,
            AcmNotifcationType::PowerSettingChange => 6,
            AcmNotifcationType::ScanComplete => 7,
            AcmNotifcationType::ScanFail(_) => 8,
            AcmNotifcationType::ConnectionStart(_) => 9,
            AcmNotifcationType::ConnectionComplete(_) => 10,
            AcmNotifcationType::ConnectionAttemptFail => 11,
            AcmNotifcationType::FilterListChange => 12,
            AcmNotifcationType::InterfaceArrival => 13,
            AcmNotifcationType::InterfaceRemoval => 14,
            AcmNotifcationType::ProfileChange => 15,
            AcmNotifcationType::ProfileNameChange => 16,
            AcmNotifcationType::ProfilesExhausted => 17,
            AcmNotifcationType::NetworkNotAvailable => 18,
            AcmNotifcationType::NetworkAvailable => 19,
            AcmNotifcationType::Disconnecting => 20,
            AcmNotifcationType::Disconnected(_) => 21,
            AcmNotifcationType::AdhocNetworkStateChange => 22,
            AcmNotifcationType::ProfileUnblocked => 23,
            AcmNotifcationType::ScreenPowerChange => 24,
            AcmNotifcationType::ProfileBlocked => 25,
            AcmNotifcationType::ScanListRefresh => 26,
            AcmNotifcationType::OperationalStateChange => 27,
        }
    }
}

/// The connection-manager notification without payload that has the given
/// code, if there is one.
pub open spec fn acm_plain(code: u32) -> Option<AcmNotifcationType> {
    if code == 1 {
        Some(AcmNotifcationType::AutoconfEnabled)
    } else if code == 2 {
        Some(AcmNotifcationType::AutoconfDisabled)
    } else if code == 3 {
        Some(AcmNotifcationType::BackgroundScanEnabled)
    } else if code == 4 {
        Some(AcmNotifcationType::BackgroundScanDisabled)
    } else if code == 5 {
        Some(AcmNotifcationType::BSSTypeChange)
    } else if code == 6 {
        Some(AcmNotifcationType::PowerSettingChange)
    } else if code == 7 {
        Some(AcmNotifcationType::ScanComplete)
    } else if code == 11 {
        Some(AcmNotifcationType::ConnectionAttemptFail)
    } else if code == 12 {
        Some(AcmNotifcationType::FilterListChange)
    } else if code == 13 {
        Some(AcmNotifcationType::InterfaceArrival)
    } else if code == 14 {
        Some(AcmNotifcationType::InterfaceRemoval)
    } else if code == 15 {
        Some(AcmNotifcationType::ProfileChange)
    } else if code == 16 {
        Some(AcmNotifcationType::ProfileNameChange)
    } else if code == 17 {
        Some(AcmNotifcationType::ProfilesExhausted)
    } else if code == 18 {
        Some(AcmNotifcationType::NetworkNotAvailable)
    } else if code == 19 {
        Some(AcmNotifcationType::NetworkAvailable)
    } else if code == 20 {
        Some(AcmNotifcationType::Disconnecting)
    } else if code == 22 {
        Some(AcmNotifcationType::AdhocNetworkStateChange)
    } else if code == 23 {
        Some(AcmNotifcationType::ProfileUnblocked)
    } else if code == 24 {
        Some(AcmNotifcationType::ScreenPowerChange)
    } else if code == 25 {
        Some(AcmNotifcationType::ProfileBlocked)
    } else if code == 26 {
        Some(AcmNotifcationType::ScanListRefresh)
    } else if code == 27 {
        Some(AcmNotifcationType::OperationalStateChange)
    } else {
        None
    }
}

/// What decoding a connection-manager notification gives. Codes 9, 10 and 21
/// carry connection data and code 8 the text of a reason; with a payload of
/// another shape they are rejected. The other codes ignore the payload.
pub open spec fn acm_of(value: L2NotificationData) -> Result<AcmNotifcationType, WlanError> {
    let code = value.notification_code;
    let mismatch = Err(WlanError::PayloadMismatch(value.notification_source, code));
    if code == 8 {
        match value.payload {
            NotificationPayload::ReasonText(reason) => Ok(AcmNotifcationType::ScanFail(reason)),
            _ => mismatch,
        }
    } else if code == 9 || code == 10 || code == 21 {
        match value.payload {
            NotificationPayload::Connection(data) => Ok(
                if code == 9 {
                    AcmNotifcationType::ConnectionStart(data)
                } else if code == 10 {
                    AcmNotifcationType::ConnectionComplete(data)
                } else {
                    AcmNotifcationType::Disconnected(data)
                },
            ),
            _ => mismatch,
        }
    } else {
        match acm_plain(code) {
            Some(kind) => Ok(kind),
            None => Err(WlanError::InvalidAcmCode(code)),
        }
    }
}

impl TryFrom<L2NotificationData> for AcmNotifcationType {
    type Error = WlanError;

    /// Decodes a connection-manager notification from its code and payload.
    fn try_from(value: L2NotificationData) -> (decoded: Result<Self, Self::Error>)
        ensures
            decoded == acm_of(value),
    {
        let code = value.notification_code;
        let source = value.notification_source;
        match code {
            1 => Ok(AcmNotifcationType::AutoconfEnabled),
            2 => Ok(AcmNotifcationType::AutoconfDisabled),
            3 => Ok(AcmNotifcationType::BackgroundScanEnabled),
            4 => Ok(AcmNotifcationType::BackgroundScanDisabled),
            5 => Ok(AcmNotifcationType::BSSTypeChange),
            6 => Ok(AcmNotifcationType::PowerSettingChange),
            7 => Ok(AcmNotifcationType::ScanComplete),
            8 => match value.payload {
                NotificationPayload::ReasonText(reason_string) => Ok(
                    AcmNotifcationType::ScanFail(reason_string),
                ),
                _ => Err(WlanError::PayloadMismatch(source, code)),
            },
            9 => match value.payload {
                NotificationPayload::Connection(data) => Ok(
                    AcmNotifcationType::ConnectionStart(data),
                ),
                _ => Err(WlanError::PayloadMismatch(source, code)),
            },
            10 => match value.payload {
                NotificationPayload::Connection(data) => Ok(
                    AcmNotifcationType::ConnectionComplete(data),
                ),
                _ => Err(WlanError::PayloadMismatch(source, code)),
            },
            11 => Ok(AcmNotifcationType::ConnectionAttemptFail),
            12 => Ok(AcmNotifcationType::FilterListChange),
            13 => Ok(AcmNotifcationType::InterfaceArrival),
            14 => Ok(AcmNotifcationType::InterfaceRemoval),
            15 => Ok(AcmNotifcationType::ProfileChange),
            16 => Ok(AcmNotifcationType::ProfileNameChange),
            17 => Ok(AcmNotifcationType::ProfilesExhausted),
            18 => Ok(AcmNotifcationType::NetworkNotAvailable),
            19 => Ok(AcmNotifcationType::NetworkAvailable),
            20 => Ok(AcmNotifcationType::Disconnecting),
            21 => match value.payload {
                NotificationPayload::Connection(data) => Ok(AcmNotifcationType::Disconnected(data)),
                _ => Err(WlanError::PayloadMismatch(source, code)),
            },
            22 => Ok(AcmNotifcationType::AdhocNetworkStateChange),
            23 => Ok(AcmNotifcationType::ProfileUnblocked),
            24 => Ok(AcmNotifcationType::ScreenPowerChange),
            25 => Ok(AcmNotifcationType::ProfileBlocked),
            26 => Ok(AcmNotifcationType::ScanListRefresh),
            27 => Ok(AcmNotifcationType::OperationalStateChange),
            _ => Err(WlanError::InvalidAcmCode(code)),
        }
    }
}

impl TryFromSpecImpl<L2NotificationData> for AcmNotifcationType {
    open spec fn obeys_try_from_spec() -> bool {
        true
    }

    open spec fn try_from_spec(value: L2NotificationData) -> Result<Self, Self::Error> {
        acm_of(value)
    }
}

/// Notifications of the media-state manager.
#[derive(Debug, Clone, PartialEq, Eq)]
pub enum MsmNotifcationType {
    Associating(WlanMsmNotifcationDataWrapper),
    Associated(WlanMsmNotifcationDataWrapper),
    Authenticating(WlanMsmNotifcationDataWrapper),
    Connected,
    RoamingStart(WlanMsmNotifcationDataWrapper),
    RoamingEnd(WlanMsmNotifcationDataWrapper),
    RadioStateChange,
    SignalQualityChange(u32),
    Disconnected(WlanMsmNotifcationDataWrapper),
    PeerJoin,
    PeerLeave,
    AdapterRemoval,
    AdapterOperationModeChange,
    LinkDegraded,
    LinkImproved,
    Disassociating,
}

impl MsmNotifcationType {
    /// The platform's code of the notification.
    pub open spec fn spec_code(&self) -> u32 {
        match self {
            MsmNotifcationType::Associating(_) => 1,
            MsmNotifcationType::Associated(_) => 2,
            MsmNotifcationType::Authenticating(_) => 3,
            MsmNotifcationType::Connected => 4,
            MsmNotifcationType::RoamingStart(_) => 5,
            MsmNotifcationType::RoamingEnd(_) => 6,
            MsmNotifcationType::RadioStateChange => 7,
            MsmNotifcationType::SignalQualityChange(_) => 8,
            MsmNotifcationType::Disconnected(_) => 10,
            MsmNotifcationType::PeerJoin => 11,
            MsmNotifcationType::PeerLeave => 12,
            MsmNotifcationType::AdapterRemoval => 13,
            MsmNotifcationType::AdapterOperationModeChange => 14,
            MsmNotifcationType::LinkDegraded => 15,
            MsmNotifcationType::LinkImproved => 16,
            MsmNotifcationType::Disassociating => 9,
        }
    }

    /// The platform's code of the notification.
    #[verifier::when_used_as_spec(spec_code)]
    pub fn code(&self) -> (code: u32)
        ensures
            code == self.spec_code(),
    {
        match self {
            MsmNotifcationType::Associating(_) => 1,
            MsmNotifcationType::Associated(_) => 2,
            MsmNotifcationType::Authenticating(_) => 3,
            MsmNotifcationType::Connected => 4,
            MsmNotifcationType::RoamingStart(_) => 5,
            MsmNotifcationType::RoamingEnd(_) => 6,
            MsmNotifcationType::RadioStateChange => 7,
            MsmNotifcationType::SignalQualityChange(_) => 8,
            MsmNotifcationType::Disconnected(_) => 10,
            MsmNotifcationType::PeerJoin => 11,
            MsmNotifcationType::PeerLeave => 12,
            MsmNotifcationType::AdapterRemoval => 13,
            MsmNotifcationType::AdapterOperationModeChange => 14,
            MsmNotifcationType::LinkDegraded => 15,
            MsmNotifcationType::LinkImproved => 16,
            MsmNotifcationType::Disassociating => 9,
        }
    }
}

/// The media-state notification without payload that has the given code, if
/// there is one.
pub open spec fn msm_plain(code: u32) -> Option<MsmNotifcationType> {
    if code == 4 {
        Some(MsmNotifcationType::Connected)
    } else if code == 7 {
        Some(MsmNotifcationType::RadioStateChange)
    } else if code == 9 {
        Some(MsmNotifcationType::Disassociating)
    } else if code == 11 {
        Some(MsmNotifcationType::PeerJoin)
    } else if code == 12 {
        Some(MsmNotifcationType::PeerLeave)
    } else if code == 13 {
        Some(MsmNotifcationType::AdapterRemoval)
    } else if code == 14 {
        Some(MsmNotifcationType::AdapterOperationModeChange)
    } else if code == 15 {
        Some(MsmNotifcationType::LinkDegraded)
    } else if code == 16 {
        Some(MsmNotifcationType::LinkImproved)
    } else {
        None
    }
}

/// What decoding a media-state notification gives. Codes 1, 2, 3, 5, 6 and 10
/// carry connection data and code 8 the signal quality; with a payload of
/// another shape they are rejected. The other codes ignore the payload.
pub open spec fn msm_of(value: L2NotificationData) -> Result<MsmNotifcationType, WlanError> {
    let code = value.notification_code;
    let mismatch = Err(WlanError::PayloadMismatch(value.notification_source, code));
    if code == 8 {
        match value.payload {
            NotificationPayload::Value(quality) => Ok(
                MsmNotifcationType::SignalQualityChange(quality),
            ),
            _ => mismatch,
        }
    } else if code == 1 || code == 2 || code == 3 || code == 5 || code == 6 || code == 10 {
        match value.payload {
            NotificationPayload::Msm(data) => {
                let wrapper = WlanMsmNotifcationDataWrapper { field: Some(data) };
                Ok(
                    if code == 1 {
                        MsmNotifcationType::Associating(wrapper)
                    } else if code == 2 {
                        MsmNotifcationType::Associated(wrapper)
                    } else if code == 3 {
                        MsmNotifcationType::Authenticating(wrapper)
                    } else if code == 5 {
                        MsmNotifcationType::RoamingStart(wrapper)
                    } else if code == 6 {
                        MsmNotifcationType::RoamingEnd(wrapper)
                    } else {
                        MsmNotifcationType::Disconnected(wrapper)
                    },
                )
            },
            _ => mismatch,
        }
    } else {
        match msm_plain(code) {
            Some(kind) => Ok(kind),
            None => Err(WlanError::InvalidMsmCode(code)),
        }
    }
}

/// The connection data of a media-state notification, wrapped; another
/// payload gives nothing.
fn msm_data(payload: NotificationPayload) -> (wrapper: Option<WlanMsmNotifcationDataWrapper>)
    ensures
        wrapper == match payload {
            NotificationPayload::Msm(data) => Some(
                WlanMsmNotifcationDataWrapper { field: Some(data) },
            ),
            _ => None,
        },
{
    match payload {
        NotificationPayload::Msm(data) => Some(WlanMsmNotifcationDataWrapper { field: Some(data) }),
        _ => None,
    }
}

impl TryFrom<L2NotificationData> for MsmNotifcationType {
    type Error = WlanError;

    /// Decodes a media-state notification from its code and payload.
    fn try_from(value: L2NotificationData) -> (decoded: Result<Self, Self::Error>)
        ensures
            decoded == msm_of(value),
    {
        let code = value.notification_code;
        let mismatch = WlanError::PayloadMismatch(value.notification_source, code);
        match code {
            1 => match msm_data(value.payload) {
                Some(data) => Ok(MsmNotifcationType::Associating(data)),
                None => Err(mismatch),
            },
            2 => match msm_data(value.payload) {
                Some(data) => Ok(MsmNotifcationType::Associated(data)),
                None => Err(mismatch),
            },
            3 => match msm_data(value.payload) {
                Some(data) => Ok(MsmNotifcationType::Authenticating(data)),
                None => Err(mismatch),
            },
            4 => Ok(MsmNotifcationType::Connected),
            5 => match msm_data(value.payload) {
                Some(data) => Ok(MsmNotifcationType::RoamingStart(data)),
                None => Err(mismatch),
            },
            6 => match msm_data(value.payload) {
                Some(data) => Ok(MsmNotifcationType::RoamingEnd(data)),
                None => Err(mismatch),
            },
            7 => Ok(MsmNotifcationType::RadioStateChange),
            8 => match value.payload {
                NotificationPayload::Value(quality) => Ok(
                    MsmNotifcationType::SignalQualityChange(quality),
                ),
                _ => Err(mismatch),
            },
            9 => Ok(MsmNotifcationType::Disassociating),
            10 => match msm_data(value.payload) {
                Some(data) => Ok(MsmNotifcationType::Disconnected(data)),
                None => Err(mismatch),
            },
            11 => Ok(MsmNotifcationType::PeerJoin),
            12 => Ok(MsmNotifcationType::PeerLeave),
            13 => Ok(MsmNotifcationType::AdapterRemoval),
            14 => Ok(MsmNotifcationType::AdapterOperationModeChange),
            15 => Ok(MsmNotifcationType::LinkDegraded),
            16 => Ok(MsmNotifcationType::LinkImproved),
            _ => Err(WlanError::InvalidMsmCode(code)),
        }
    }
}

impl TryFromSpecImpl<L2NotificationData> for MsmNotifcationType {
    open spec fn obeys_try_from_spec() -> bool {
        true
    }

    open spec fn try_from_spec(value: L2NotificationData) -> Result<Self, Self::Error> {
        msm_of(value)
    }
}

/// The shape of the payload to read for a notification, from its source
/// mask and code.
pub open spec fn payload_kind_of(source: u32, code: u32) -> PayloadKind {
    if source == 0x8 && code == 8 {
        PayloadKind::ReasonText
    } else if source == 0x8 && (code == 9 || code == 10 || code == 21) {
        PayloadKind::Connection
    } else if source == 0x10 && code == 8 {
        PayloadKind::Value
    } else if source == 0x10 && (code == 1 || code == 2 || code == 3 || code == 5 || code == 6
        || code == 10) {
        PayloadKind::Msm
    } else {
        PayloadKind::Empty
    }
}

/// The shape of the payload to read for a notification.
pub fn payload_kind(source: u32, code: u32) -> (kind: PayloadKind)
    ensures
        kind == payload_kind_of(source, code),
{
    if source == 0x8 {
        match code {
            8 => PayloadKind::ReasonText,
            9 | 10 | 21 => PayloadKind::Connection,
            _ => PayloadKind::Empty,
        }
    } else if source == 0x10 {
        match code {
            8 => PayloadKind::Value,
            1 | 2 | 3 | 5 | 6 | 10 => PayloadKind::Msm,
            _ => PayloadKind::Empty,
        }
    } else {
        PayloadKind::Empty
    }
}

/// A decoded notification: one of the four modules' notification types, or
/// a source and code that no type stands for.
#[derive(Debug, Clone, PartialEq, Eq)]
pub enum WlanNotificationWrapper {
    Onex(OnexNotifcationType),
    Acm(AcmNotifcationType),
    Msm(MsmNotifcationType),
    Hnwk(HostedNetworkNoticationType),
    Other(WlanNotifcationSource, u32),
}

/// What decoding a notification gives: the source mask selects the module,
/// the module's own decoding does the rest. A mask that is no source, a
/// source without notification types, a code unknown to the module and a
/// payload of the wrong shape are each rejected with their own error.
pub open spec fn notification_of(value: L2NotificationData) -> Result<
    WlanNotificationWrapper,
    WlanError,
> {
    match source_of(value.notification_source) {
        Err(e) => Err(e),
        Ok(WlanNotifcationSource::ACM) => match acm_of(value) {
            Ok(kind) => Ok(WlanNotificationWrapper::Acm(kind)),
            Err(e) => Err(e),
        },
        Ok(WlanNotifcationSource::ONEX) => match onex_of(value.notification_code) {
            Ok(kind) => Ok(WlanNotificationWrapper::Onex(kind)),
            Err(e) => Err(e),
        },
        Ok(WlanNotifcationSource::HNWK) => match hosted_network_of(value.notification_code) {
            Ok(kind) => Ok(WlanNotificationWrapper::Hnwk(kind)),
            Err(e) => Err(e),
        },
        Ok(WlanNotifcationSource::MSM) => match msm_of(value) {
            Ok(kind) => Ok(WlanNotificationWrapper::Msm(kind)),
            Err(e) => Err(e),
        },
        Ok(_) => Err(
            WlanError::NoNotificationType(value.notification_source, value.notification_code),
        ),
    }
}

impl TryFrom<L2NotificationData> for WlanNotificationWrapper {
    type Error = WlanError;

    /// Decodes a notification from its source mask, code and payload.
    fn try_from(notification_data: L2NotificationData) -> (decoded: Result<Self, Self::Error>)
        ensures
            decoded == notification_of(notification_data),
    {
        let source = notification_data.notification_source;
        let code = notification_data.notification_code;
        let notification_source = match WlanNotifcationSource::try_from(source) {
            Ok(source) => source,
            Err(e) => {
                return Err(e);
            },
        };
        match notification_source {
            WlanNotifcationSource::ACM => match AcmNotifcationType::try_from(notification_data) {
                Ok(kind) => Ok(WlanNotificationWrapper::Acm(kind)),
                Err(e) => Err(e),
            },
            WlanNotifcationSource::ONEX => match OnexNotifcationType::try_from(notification_data) {
                Ok(kind) => Ok(WlanNotificationWrapper::Onex(kind)),
                Err(e) => Err(e),
            },
            WlanNotifcationSource::HNWK => match HostedNetworkNoticationType::try_from(
                notification_data,
            ) {
                Ok(kind) => Ok(WlanNotificationWrapper::Hnwk(kind)),
                Err(e) => Err(e),
            },
            WlanNotifcationSource::MSM => match MsmNotifcationType::try_from(notification_data) {
                Ok(kind) => Ok(WlanNotificationWrapper::Msm(kind)),
                Err(e) => Err(e),
            },
            _ => Err(WlanError::NoNotificationType(source, code)),
        }
    }
}

impl TryFromSpecImpl<L2NotificationData> for WlanNotificationWrapper {
    open spec fn obeys_try_from_spec() -> bool {
        true
    }

    open spec fn try_from_spec(value: L2NotificationData) -> Result<Self, Self::Error> {
        notification_of(value)
    }
}

impl WlanNotificationWrapper {
    /// Whether two notifications are of the same kind: the same module and
    /// the same notification code, whatever they carry. Notifications
    /// without a type are all of one kind: the source and the code that they
    /// hold are their payload.
    pub open spec fn same_kind(&self, other: Self) -> bool {
        match (*self, other) {
            (WlanNotificationWrapper::Onex(l), WlanNotificationWrapper::Onex(r)) => l.spec_code()
                == r.spec_code(),
            (WlanNotificationWrapper::Acm(l), WlanNotificationWrapper::Acm(r)) => l.spec_code()
                == r.spec_code(),
            (WlanNotificationWrapper::Msm(l), WlanNotificationWrapper::Msm(r)) => l.spec_code()
                == r.spec_code(),
            (WlanNotificationWrapper::Hnwk(l), WlanNotificationWrapper::Hnwk(r)) => l.spec_code()
                == r.spec_code(),
            (WlanNotificationWrapper::Other(_, _), WlanNotificationWrapper::Other(_, _)) => true,
            _ => false,
        }
    }

    /// Whether `other` is a notification of the same kind as this one. Only
    /// the module and the kind within it are compared, never the payload.
    pub fn same_kind_as(&self, other: &Self) -> (same: bool)
        ensures
            same == self.same_kind(*other),
    {
        match (self, other) {
            (WlanNotificationWrapper::Onex(l0), WlanNotificationWrapper::Onex(r0)) => l0.code()
                == r0.code(),
            (WlanNotificationWrapper::Acm(l0), WlanNotificationWrapper::Acm(r0)) => l0.code()
                == r0.code(),
            (WlanNotificationWrapper::Msm(l0), WlanNotificationWrapper::Msm(r0)) => l0.code()
                == r0.code(),
            (WlanNotificationWrapper::Hnwk(l0), WlanNotificationWrapper::Hnwk(r0)) => l0.code()
                == r0.code(),
            (WlanNotificationWrapper::Other(_, _), WlanNotificationWrapper::Other(_, _)) => true,
            _ => false,
        }
    }

    /// Whether `other` is a notification of the same kind as this one.
    #[verifier::when_used_as_spec(same_kind)]
    pub fn shallow_equals(&self, other: Self) -> (same: bool)
        ensures
            same == self.same_kind(other),
    {
        self.same_kind_as(&other)
    }
}

/// Being of the same kind is symmetric.
pub proof fn lemma_same_kind_symmetric(a: WlanNotificationWrapper, b: WlanNotificationWrapper)
    ensures
        a.same_kind(b) == b.same_kind(a),
{
}

/// A notification decoded from a payload of the shape that its source and
/// code call for is never rejected for its payload, and a decoded
/// notification has the code it was decoded from.
pub proof fn lemma_decoding(value: L2NotificationData)
    ensures
        value.payload.kind() == payload_kind_of(value.notification_source, value.notification_code)
            ==> !(notification_of(value) matches Err(WlanError::PayloadMismatch(_, _))),
        notification_of(value) matches Ok(WlanNotificationWrapper::Acm(kind)) ==> kind.spec_code()
            == value.notification_code && value.notification_source == 0x8,
        notification_of(value) matches Ok(WlanNotificationWrapper::Msm(kind)) ==> kind.spec_code()
            == value.notification_code && value.notification_source == 0x10,
        notification_of(value) matches Ok(WlanNotificationWrapper::Onex(kind)) ==> kind.spec_code()
            == value.notification_code && value.notification_source == 0x4,
        notification_of(value) matches Ok(WlanNotificationWrapper::Hnwk(kind)) ==> kind.spec_code()
            == value.notification_code && value.notification_source == 0x80,
        !(notification_of(value) matches Ok(WlanNotificationWrapper::Other(_, _))),
{
}

/// Masks and codes name sources and notifications one to one: the source of
/// a source's mask is that source, and a value that names a source is its
/// mask; likewise for the codes of the notifications without payload of the
/// 802.1X and hosted-network modules.
pub proof fn lemma_masks_and_codes(
    source: WlanNotifcationSource,
    onex: OnexNotifcationType,
    hosted: HostedNetworkNoticationType,
    value: u32,
)
    ensures
        source_of(source.mask()) == Ok::<WlanNotifcationSource, WlanError>(source),
        source_of(value) matches Ok(s) ==> s.mask() == value,
        onex_of(onex.spec_code()) == Ok::<OnexNotifcationType, WlanError>(onex),
        onex_of(value) matches Ok(kind) ==> kind.spec_code() == value,
        hosted_network_of(hosted.spec_code()) == Ok::<HostedNetworkNoticationType, WlanError>(
            hosted,
        ),
        hosted_network_of(value) matches Ok(kind) ==> kind.spec_code() == value,
{
}

} // verus!
