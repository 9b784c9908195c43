use wlan_monitor::error::WlanError;
use wlan_monitor::utils::create_dot_11_ssid;
use wlan_monitor::windows_api_client::{
    await_notification_step, is_logged, signal_quality_change, AwaitOutcome, Wakeup,
};
use wlan_monitor::windows_type_wrappers::{
    payload_kind, AcmNotifcationType, AcmNotificationDataWrapper, HostedNetworkNoticationType,
    L2NotificationData, MsmNotifcationType, MsmNotificationData, NotificationPayload,
    OnexNotifcationType, PayloadKind, WlanMsmNotifcationDataWrapper, WlanNotifcationSource,
    WlanNotificationWrapper,
};

const ONEX: u32 = 0x4;
const ACM: u32 = 0x8;
const MSM: u32 = 0x10;
const HNWK: u32 = 0x80;

fn raw(source: u32, code: u32, payload: NotificationPayload) -> L2NotificationData {
    L2NotificationData { notification_source: source, notification_code: code, payload }
}

fn connection(reason_code: u32) -> AcmNotificationDataWrapper {
    AcmNotificationDataWrapper { ssid: create_dot_11_ssid("Lyco HQ_5G"), reason_code }
}

fn msm_data(reason_code: u32) -> MsmNotificationData {
    MsmNotificationData {
        ssid: create_dot_11_ssid("Lyco HQ_5G"),
        mac_addr: [0xB4, 0x0F, 0x3B, 0xBB, 0x82, 0x24],
        profile_name: Some(String::from("Lyco HQ_5G")),
        reason_code,
    }
}

fn wrapped(reason_code: u32) -> WlanMsmNotifcationDataWrapper {
    WlanMsmNotifcationDataWrapper { field: Some(msm_data(reason_code)) }
}

#[test]
fn sources_by_mask() {
    assert_eq!(WlanNotifcationSource::try_from(0), Ok(WlanNotifcationSource::UNKNOWN));
    assert_eq!(WlanNotifcationSource::try_from(0x4), Ok(WlanNotifcationSource::ONEX));
    assert_eq!(WlanNotifcationSource::try_from(0x8), Ok(WlanNotifcationSource::ACM));
    assert_eq!(WlanNotifcationSource::try_from(0x10), Ok(WlanNotifcationSource::MSM));
    assert_eq!(WlanNotifcationSource::try_from(0x20), Ok(WlanNotifcationSource::SECURITY));
    assert_eq!(WlanNotifcationSource::try_from(0x40), Ok(WlanNotifcationSource::IHV));
    assert_eq!(WlanNotifcationSource::try_from(0x80), Ok(WlanNotifcationSource::HNWK));
    assert_eq!(WlanNotifcationSource::try_from(0xFFFF), Ok(WlanNotifcationSource::ALL));
}

#[test]
fn unknown_source_mask_is_rejected() {
    assert_eq!(
        WlanNotifcationSource::try_from(0x18),
        Err(WlanError::InvalidNotificationSource(0x18))
    );
    assert_eq!(
        WlanNotificationWrapper::try_from(raw(3, 1, NotificationPayload::Empty)),
        Err(WlanError::InvalidNotificationSource(3))
    );
}

#[test]
fn sources_without_notification_types_are_rejected() {
    for source in [0u32, 0x20, 0x40, 0xFFFF] {
        assert_eq!(
            WlanNotificationWrapper::try_from(raw(source, 7, NotificationPayload::Empty)),
            Err(WlanError::NoNotificationType(source, 7))
        );
    }
}

#[test]
fn onex_codes() {
    assert_eq!(
        OnexNotifcationType::try_from(raw(ONEX, 1, NotificationPayload::Empty)),
        Ok(OnexNotifcationType::ResultUpdate)
    );
    assert_eq!(
        OnexNotifcationType::try_from(raw(ONEX, 2, NotificationPayload::Empty)),
        Ok(OnexNotifcationType::AuthRestarted)
    );
    assert_eq!(
        WlanNotificationWrapper::try_from(raw(ONEX, 3, NotificationPayload::Empty)),
        Ok(WlanNotificationWrapper::Onex(OnexNotifcationType::EventInvalid))
    );
    assert_eq!(
        WlanNotificationWrapper::try_from(raw(ONEX, 4, NotificationPayload::Empty)),
        Err(WlanError::InvalidOnexCode(4))
    );
    assert_eq!(
        OnexNotifcationType::try_from(raw(ONEX, 0, NotificationPayload::Empty)),
        Err(WlanError::InvalidOnexCode(0))
    );
}

#[test]
fn hosted_network_codes() {
    assert_eq!(
        HostedNetworkNoticationType::try_from(raw(HNWK, 4096, NotificationPayload::Empty)),
        Ok(HostedNetworkNoticationType::StateChange)
    );
    assert_eq!(
        HostedNetworkNoticationType::try_from(raw(HNWK, 4097, NotificationPayload::Empty)),
        Ok(HostedNetworkNoticationType::PeerStateChange)
    );
    assert_eq!(
        WlanNotificationWrapper::try_from(raw(HNWK, 4098, NotificationPayload::Empty)),
        Ok(WlanNotificationWrapper::Hnwk(HostedNetworkNoticationType::RadioStateChange))
    );
    assert_eq!(
        WlanNotificationWrapper::try_from(raw(HNWK, 4099, NotificationPayload::Empty)),
        Err(WlanError::InvalidHostedNetworkCode(4099))
    );
}

#[test]
fn acm_codes_without_payload() {
    let expected = [
        (1, AcmNotifcationType::AutoconfEnabled),
        (2, AcmNotifcationType::AutoconfDisabled),
        (3, AcmNotifcationType::BackgroundScanEnabled),
        (4, AcmNotifcationType::BackgroundScanDisabled),
        (5, AcmNotifcationType::BSSTypeChange),
        (6, AcmNotifcationType::PowerSettingChange),
        (7, AcmNotifcationType::ScanComplete),
        (11, AcmNotifcationType::ConnectionAttemptFail),
        (12, AcmNotifcationType::FilterListChange),
        (13, AcmNotifcationType::InterfaceArrival),
        (14, AcmNotifcationType::InterfaceRemoval),
        (15, AcmNotifcationType::ProfileChange),
        (16, AcmNotifcationType::ProfileNameChange),
        (17, AcmNotifcationType::ProfilesExhausted),
        (18, AcmNotifcationType::NetworkNotAvailable),
        (19, AcmNotifcationType::NetworkAvailable),
        (20, AcmNotifcationType::Disconnecting),
        (22, AcmNotifcationType::AdhocNetworkStateChange),
        (23, AcmNotifcationType::ProfileUnblocked),
        (24, AcmNotifcationType::ScreenPowerChange),
        (25, AcmNotifcationType::ProfileBlocked),
        (26, AcmNotifcationType::ScanListRefresh),
        (27, AcmNotifcationType::OperationalStateChange),
    ];
    for (code, kind) in expected {
        assert_eq!(kind.code(), code);
        assert_eq!(
            AcmNotifcationType::try_from(raw(ACM, code, NotificationPayload::Empty)),
            Ok(kind.clone())
        );
        assert_eq!(
            WlanNotificationWrapper::try_from(raw(ACM, code, NotificationPayload::Value(9))),
            Ok(WlanNotificationWrapper::Acm(kind))
        );
    }
}

#[test]
fn acm_codes_with_connection_data() {
    let data = connection(294932);
    assert_eq!(
        AcmNotifcationType::try_from(raw(ACM, 9, NotificationPayload::Connection(data))),
        Ok(AcmNotifcationType::ConnectionStart(data))
    );
    assert_eq!(
        AcmNotifcationType::try_from(raw(ACM, 10, NotificationPayload::Connection(data))),
        Ok(AcmNotifcationType::ConnectionComplete(data))
    );
    assert_eq!(
        WlanNotificationWrapper::try_from(raw(ACM, 21, NotificationPayload::Connection(data))),
        Ok(WlanNotificationWrapper::Acm(AcmNotifcationType::Disconnected(data)))
    );
    assert_eq!(AcmNotifcationType::ConnectionStart(data).code(), 9);
    assert_eq!(AcmNotifcationType::ConnectionComplete(data).code(), 10);
    assert_eq!(AcmNotifcationType::Disconnected(data).code(), 21);
}

#[test]
fn acm_scan_failure_carries_the_reason_text() {
    let reason = String::from("The operation was cancelled.");
    assert_eq!(
        AcmNotifcationType::try_from(raw(ACM, 8, NotificationPayload::ReasonText(reason.clone()))),
        Ok(AcmNotifcationType::ScanFail(reason.clone()))
    );
    assert_eq!(AcmNotifcationType::ScanFail(reason).code(), 8);
}

#[test]
fn acm_unknown_codes_are_rejected() {
    for code in [0u32, 28, 59, u32::MAX] {
        assert_eq!(
            AcmNotifcationType::try_from(raw(ACM, code, NotificationPayload::Empty)),
            Err(WlanError::InvalidAcmCode(code))
        );
    }
}

#[test]
fn acm_payload_of_the_wrong_shape_is_rejected() {
    for code in [8u32, 9, 10, 21] {
        assert_eq!(
            AcmNotifcationType::try_from(raw(ACM, code, NotificationPayload::Empty)),
            Err(WlanError::PayloadMismatch(ACM, code))
        );
        assert_eq!(
            WlanNotificationWrapper::try_from(raw(
                ACM,
                code,
                NotificationPayload::Msm(msm_data(0))
            )),
            Err(WlanError::PayloadMismatch(ACM, code))
        );
    }
    assert_eq!(
        AcmNotifcationType::try_from(raw(ACM, 8, NotificationPayload::Connection(connection(0)))),
        Err(WlanError::PayloadMismatch(ACM, 8))
    );
    assert_eq!(
        AcmNotifcationType::try_from(raw(
            ACM,
            9,
            NotificationPayload::ReasonText(String::from("x"))
        )),
        Err(WlanError::PayloadMismatch(ACM, 9))
    );
}

#[test]
fn msm_codes_without_payload() {
    let expected = [
        (4, MsmNotifcationType::Connected),
        (7, MsmNotifcationType::RadioStateChange),
        (9, MsmNotifcationType::Disassociating),
        (11, MsmNotifcationType::PeerJoin),
        (12, MsmNotifcationType::PeerLeave),
        (13, MsmNotifcationType::AdapterRemoval),
        (14, MsmNotifcationType::AdapterOperationModeChange),
        (15, MsmNotifcationType::LinkDegraded),
        (16, MsmNotifcationType::LinkImproved),
    ];
    for (code, kind) in expected {
        assert_eq!(kind.code(), code);
        assert_eq!(
            MsmNotifcationType::try_from(raw(MSM, code, NotificationPayload::Empty)),
            Ok(kind.clone())
        );
        assert_eq!(
            WlanNotificationWrapper::try_from(raw(MSM, code, NotificationPayload::Empty)),
            Ok(WlanNotificationWrapper::Msm(kind))
        );
    }
}

#[test]
fn msm_codes_with_connection_data() {
    let payload = || NotificationPayload::Msm(msm_data(0));
    assert_eq!(
        MsmNotifcationType::try_from(raw(MSM, 1, payload())),
        Ok(MsmNotifcationType::Associating(wrapped(0)))
    );
    assert_eq!(
        MsmNotifcationType::try_from(raw(MSM, 2, payload())),
        Ok(MsmNotifcationType::Associated(wrapped(0)))
    );
    assert_eq!(
        MsmNotifcationType::try_from(raw(MSM, 3, payload())),
        Ok(MsmNotifcationType::Authenticating(wrapped(0)))
    );
    assert_eq!(
        MsmNotifcationType::try_from(raw(MSM, 5, payload())),
        Ok(MsmNotifcationType::RoamingStart(wrapped(0)))
    );
    assert_eq!(
        MsmNotifcationType::try_from(raw(MSM, 6, payload())),
        Ok(MsmNotifcationType::RoamingEnd(wrapped(0)))
    );
    assert_eq!(
        WlanNotificationWrapper::try_from(raw(MSM, 10, payload())),
        Ok(WlanNotificationWrapper::Msm(MsmNotifcationType::Disconnected(wrapped(0))))
    );
    assert_eq!(MsmNotifcationType::Associating(wrapped(0)).code(), 1);
    assert_eq!(MsmNotifcationType::Associated(wrapped(0)).code(), 2);
    assert_eq!(MsmNotifcationType::Authenticating(wrapped(0)).code(), 3);
    assert_eq!(MsmNotifcationType::RoamingStart(wrapped(0)).code(), 5);
    assert_eq!(MsmNotifcationType::RoamingEnd(wrapped(0)).code(), 6);
    assert_eq!(MsmNotifcationType::Disconnected(wrapped(0)).code(), 10);
}

#[test]
fn msm_signal_quality_carries_the_percentage() {
    assert_eq!(
        MsmNotifcationType::try_from(raw(MSM, 8, NotificationPayload::Value(73))),
        Ok(MsmNotifcationType::SignalQualityChange(73))
    );
    assert_eq!(MsmNotifcationType::SignalQualityChange(73).code(), 8);
}

#[test]
fn msm_unknown_codes_are_rejected() {
    for code in [0u32, 17, 59] {
        assert_eq!(
            WlanNotificationWrapper::try_from(raw(MSM, code, NotificationPayload::Empty)),
            Err(WlanError::InvalidMsmCode(code))
        );
    }
}

#[test]
fn msm_payload_of_the_wrong_shape_is_rejected() {
    for code in [1u32, 2, 3, 5, 6, 8, 10] {
        assert_eq!(
            MsmNotifcationType::try_from(raw(MSM, code, NotificationPayload::Empty)),
            Err(WlanError::PayloadMismatch(MSM, code))
        );
    }
    assert_eq!(
        MsmNotifcationType::try_from(raw(MSM, 8, NotificationPayload::Msm(msm_data(0)))),
        Err(WlanError::PayloadMismatch(MSM, 8))
    );
    assert_eq!(
        MsmNotifcationType::try_from(raw(MSM, 5, NotificationPayload::Value(1))),
        Err(WlanError::PayloadMismatch(MSM, 5))
    );
}

#[test]
fn payload_shape_by_source_and_code() {
    assert_eq!(payload_kind(ACM, 8), PayloadKind::ReasonText);
    for code in [9u32, 10, 21] {
        assert_eq!(payload_kind(ACM, code), PayloadKind::Connection);
    }
    assert_eq!(payload_kind(MSM, 8), PayloadKind::Value);
    for code in [1u32, 2, 3, 5, 6, 10] {
        assert_eq!(payload_kind(MSM, code), PayloadKind::Msm);
    }
    assert_eq!(payload_kind(ACM, 7), PayloadKind::Empty);
    assert_eq!(payload_kind(ACM, 1), PayloadKind::Empty);
    assert_eq!(payload_kind(MSM, 9), PayloadKind::Empty);
    assert_eq!(payload_kind(MSM, 59), PayloadKind::Empty);
    assert_eq!(payload_kind(ONEX, 8), PayloadKind::Empty);
    assert_eq!(payload_kind(HNWK, 4096), PayloadKind::Empty);
    assert_eq!(payload_kind(0, 9), PayloadKind::Empty);
}

#[test]
fn success_is_a_reason_code_of_zero() {
    assert!(connection(0).operation_success());
    assert!(!connection(1).operation_success());
    assert!(!connection(294932).operation_success());
}

#[test]
fn template_payload_is_empty() {
    assert_eq!(WlanMsmNotifcationDataWrapper::default().field, None);
}

#[test]
fn kinds_are_compared_without_payload() {
    let template =
        WlanNotificationWrapper::Msm(MsmNotifcationType::RoamingStart(Default::default()));
    let event = WlanNotificationWrapper::Msm(MsmNotifcationType::RoamingStart(wrapped(5)));
    assert!(event.shallow_equals(template.clone()));
    assert!(template.shallow_equals(event));
    let quality = WlanNotificationWrapper::Msm(MsmNotifcationType::SignalQualityChange(0));
    assert!(WlanNotificationWrapper::Msm(MsmNotifcationType::SignalQualityChange(88))
        .shallow_equals(quality));
    let complete = WlanNotificationWrapper::Acm(AcmNotifcationType::ConnectionComplete(
        connection(0),
    ));
    assert!(WlanNotificationWrapper::Acm(AcmNotifcationType::ConnectionComplete(connection(7)))
        .shallow_equals(complete));
    assert!(WlanNotificationWrapper::Acm(AcmNotifcationType::ScanFail(String::from("a")))
        .shallow_equals(WlanNotificationWrapper::Acm(AcmNotifcationType::ScanFail(String::new()))));
    assert!(WlanNotificationWrapper::Onex(OnexNotifcationType::AuthRestarted)
        .shallow_equals(WlanNotificationWrapper::Onex(OnexNotifcationType::AuthRestarted)));
    assert!(WlanNotificationWrapper::Hnwk(HostedNetworkNoticationType::StateChange)
        .shallow_equals(WlanNotificationWrapper::Hnwk(HostedNetworkNoticationType::StateChange)));
}

#[test]
fn different_kinds_are_not_equal() {
    let start = WlanNotificationWrapper::Msm(MsmNotifcationType::RoamingStart(wrapped(0)));
    let end = WlanNotificationWrapper::Msm(MsmNotifcationType::RoamingEnd(wrapped(0)));
    assert!(!start.shallow_equals(end));
    let msm_disconnected =
        WlanNotificationWrapper::Msm(MsmNotifcationType::Disconnected(wrapped(0)));
    let acm_disconnected =
        WlanNotificationWrapper::Acm(AcmNotifcationType::Disconnected(connection(0)));
    assert!(!msm_disconnected.shallow_equals(acm_disconnected.clone()));
    assert!(!acm_disconnected.same_kind_as(&msm_disconnected));
    assert!(!WlanNotificationWrapper::Onex(OnexNotifcationType::ResultUpdate)
        .shallow_equals(WlanNotificationWrapper::Acm(AcmNotifcationType::AutoconfEnabled)));
    assert!(!WlanNotificationWrapper::Onex(OnexNotifcationType::ResultUpdate)
        .shallow_equals(WlanNotificationWrapper::Onex(OnexNotifcationType::EventInvalid)));
}

#[test]
fn untyped_notifications_are_all_of_one_kind() {
    let other = WlanNotificationWrapper::Other(WlanNotifcationSource::IHV, 7);
    assert!(other.shallow_equals(other.clone()));
    assert!(other.shallow_equals(WlanNotificationWrapper::Other(WlanNotifcationSource::IHV, 3)));
    assert!(other.shallow_equals(WlanNotificationWrapper::Other(WlanNotifcationSource::ALL, 7)));
    assert!(other.same_kind_as(&WlanNotificationWrapper::Other(WlanNotifcationSource::UNKNOWN, 0)));
    assert!(!other.shallow_equals(WlanNotificationWrapper::Acm(AcmNotifcationType::ScanComplete)));
    assert!(!WlanNotificationWrapper::Msm(MsmNotifcationType::Connected).shallow_equals(other));
}

#[test]
fn template_of_connection_data() {
    let template = AcmNotificationDataWrapper::default();
    assert_eq!(template.reason_code, 0);
    assert_eq!(template.ssid.length, 0);
    assert_eq!(template.ssid.bytes, [0u8; 32]);
    assert!(WlanNotificationWrapper::Acm(AcmNotifcationType::ConnectionComplete(connection(9)))
        .shallow_equals(WlanNotificationWrapper::Acm(AcmNotifcationType::ConnectionComplete(
            template
        ))));
}

#[test]
fn wait_ends_with_the_matching_notification_whole() {
    let target = WlanNotificationWrapper::Msm(MsmNotifcationType::SignalQualityChange(0));
    let event = WlanNotificationWrapper::Msm(MsmNotifcationType::SignalQualityChange(64));
    assert_eq!(
        await_notification_step(&target, Wakeup::Received(event.clone())),
        Ok(Some(AwaitOutcome::Matched(event)))
    );
}

#[test]
fn wait_goes_on_after_another_notification() {
    let target = WlanNotificationWrapper::Acm(AcmNotifcationType::ScanListRefresh);
    assert_eq!(
        await_notification_step(
            &target,
            Wakeup::Received(WlanNotificationWrapper::Acm(AcmNotifcationType::ScanComplete))
        ),
        Ok(None)
    );
    assert_eq!(
        await_notification_step(
            &target,
            Wakeup::Received(WlanNotificationWrapper::Msm(MsmNotifcationType::Connected))
        ),
        Ok(None)
    );
}

#[test]
fn wait_goes_on_after_a_lag() {
    let target = WlanNotificationWrapper::Acm(AcmNotifcationType::ScanListRefresh);
    assert_eq!(await_notification_step(&target, Wakeup::Lagged(1)), Ok(None));
    assert_eq!(await_notification_step(&target, Wakeup::Lagged(u64::MAX)), Ok(None));
}

#[test]
fn wait_for_an_untyped_notification_matches_any_of_them() {
    let target = WlanNotificationWrapper::Other(WlanNotifcationSource::UNKNOWN, 0);
    let event = WlanNotificationWrapper::Other(WlanNotifcationSource::IHV, 7);
    assert_eq!(
        await_notification_step(&target, Wakeup::Received(event.clone())),
        Ok(Some(AwaitOutcome::Matched(event)))
    );
}

#[test]
fn wait_times_out_when_nothing_matches() {
    let target = WlanNotificationWrapper::Acm(AcmNotifcationType::ScanListRefresh);
    let wakeups = vec![
        Wakeup::Received(WlanNotificationWrapper::Acm(AcmNotifcationType::ScanComplete)),
        Wakeup::Lagged(3),
        Wakeup::Received(WlanNotificationWrapper::Msm(MsmNotifcationType::SignalQualityChange(1))),
        Wakeup::Elapsed,
        Wakeup::Received(WlanNotificationWrapper::Acm(AcmNotifcationType::ScanListRefresh)),
    ];
    let mut result = Ok(None);
    let mut woken = 0;
    for wakeup in wakeups {
        woken += 1;
        result = await_notification_step(&target, wakeup);
        if result != Ok(None) {
            break;
        }
    }
    assert_eq!(result, Ok(Some(AwaitOutcome::TimedOut)));
    assert_eq!(woken, 4);
}

#[test]
fn closed_channel_is_an_error_and_no_result_of_the_wait() {
    let target = WlanNotificationWrapper::Acm(AcmNotifcationType::ScanListRefresh);
    assert_eq!(await_notification_step(&target, Wakeup::Closed), Err(WlanError::ChannelClosed));
}

#[test]
fn signal_quality_is_read_from_its_notification_only() {
    assert_eq!(
        signal_quality_change(&WlanNotificationWrapper::Msm(
            MsmNotifcationType::SignalQualityChange(55)
        )),
        Some(55)
    );
    assert_eq!(
        signal_quality_change(&WlanNotificationWrapper::Msm(MsmNotifcationType::Connected)),
        None
    );
    assert_eq!(
        signal_quality_change(&WlanNotificationWrapper::Acm(AcmNotifcationType::ScanComplete)),
        None
    );
}

#[test]
fn all_but_signal_quality_changes_are_logged() {
    assert!(!is_logged(&WlanNotificationWrapper::Msm(MsmNotifcationType::SignalQualityChange(
        55
    ))));
    assert!(is_logged(&WlanNotificationWrapper::Msm(MsmNotifcationType::Connected)));
    assert!(is_logged(&WlanNotificationWrapper::Acm(AcmNotifcationType::ScanComplete)));
    assert!(is_logged(&WlanNotificationWrapper::Other(WlanNotifcationSource::ALL, 1)));
}
