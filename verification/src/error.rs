//! The errors of the library.

use vstd::prelude::*;

verus! {

/// Why a value was rejected.
#[derive(Debug, Clone, Copy, PartialEq, Eq)]
pub enum WlanError {
    /// A centre frequency (kHz) outside the 2.4 GHz and 5 GHz bands.
    InvalidFrequency(u32),
    /// A notification source that is none of the known source masks.
    InvalidNotificationSource(u32),
    /// A code that names no 802.1X notification.
    InvalidOnexCode(u32),
    /// A code that names no connection-manager notification.
    InvalidAcmCode(u32),
    /// A code that names no media-state notification.
    InvalidMsmCode(u32),
    /// A code that names no hosted-network notification.
    InvalidHostedNetworkCode(u32),
    /// A known source mask (the first field) under which no notification
    /// type is defined; the second field is the notification code.
    NoNotificationType(u32, u32),
    /// The payload handed over is not of the shape that the notification
    /// (source mask, code) carries.
    PayloadMismatch(u32, u32),
    /// A correlation state without a terminal phase has no outcome.
    NotTerminal,
    /// The notification channel is closed: nothing will be delivered any
    /// more.
    ChannelClosed,
}

} // verus!
