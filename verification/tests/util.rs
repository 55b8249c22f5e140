use oliviabot::util::{author_is_mobile, ClientStatus, OnlineStatus, Presence};

fn devices(mobile: Option<OnlineStatus>) -> ClientStatus {
    ClientStatus { desktop: Some(OnlineStatus::Online), mobile, web: None }
}

#[test]
fn no_presence_is_not_mobile() {
    assert!(!author_is_mobile(None));
}

#[test]
fn presence_without_devices_is_not_mobile() {
    let presence = Presence { status: OnlineStatus::Online, client_status: None };
    assert!(!author_is_mobile(Some(&presence)));
}

#[test]
fn presence_without_mobile_device_is_not_mobile() {
    let presence = Presence { status: OnlineStatus::Online, client_status: Some(devices(None)) };
    assert!(!author_is_mobile(Some(&presence)));
}

#[test]
fn mobile_status_that_matches_is_mobile() {
    for status in [
        OnlineStatus::DoNotDisturb,
        OnlineStatus::Idle,
        OnlineStatus::Invisible,
        OnlineStatus::Offline,
        OnlineStatus::Online,
    ] {
        let presence = Presence { status, client_status: Some(devices(Some(status))) };
        assert!(author_is_mobile(Some(&presence)));
    }
}

#[test]
fn mobile_status_that_differs_is_not_mobile() {
    let presence = Presence {
        status: OnlineStatus::Online,
        client_status: Some(devices(Some(OnlineStatus::Idle))),
    };
    assert!(!author_is_mobile(Some(&presence)));
    let presence = Presence {
        status: OnlineStatus::Idle,
        client_status: Some(devices(Some(OnlineStatus::Online))),
    };
    assert!(!author_is_mobile(Some(&presence)));
}
