use qbit::tracker::{Tracker, TrackerStatus};

fn tracker_with_code(code: u8) -> Tracker {
    Tracker::new(
        "udp://tracker.example:1337/announce".to_string(),
        code,
        12,
        7,
        5,
        -1,
        "ok".to_string(),
    )
}

#[test]
fn status_decodes_every_known_code() {
    assert_eq!(tracker_with_code(0).status(), TrackerStatus::TrackerDisabled);
    assert_eq!(tracker_with_code(1).status(), TrackerStatus::NotContacted);
    assert_eq!(tracker_with_code(2).status(), TrackerStatus::Working);
    assert_eq!(tracker_with_code(3).status(), TrackerStatus::Updating);
    assert_eq!(tracker_with_code(4).status(), TrackerStatus::NotWorking);
}

#[test]
fn status_of_other_codes_is_unknown_response() {
    assert_eq!(tracker_with_code(5).status(), TrackerStatus::UnknownResponse);
    assert_eq!(tracker_with_code(42).status(), TrackerStatus::UnknownResponse);
    assert_eq!(tracker_with_code(255).status(), TrackerStatus::UnknownResponse);
}

#[test]
fn known_codes_decode_to_distinct_statuses() {
    let all: Vec<TrackerStatus> = (0u8..=4).map(|c| tracker_with_code(c).status()).collect();
    for i in 0..all.len() {
        assert_ne!(all[i], TrackerStatus::UnknownResponse);
        for j in 0..all.len() {
            if i != j {
                assert_ne!(all[i], all[j]);
            }
        }
    }
}

#[test]
fn tracker_getters_return_the_fields() {
    let t = tracker_with_code(2);
    assert_eq!(t.url(), "udp://tracker.example:1337/announce");
    assert_eq!(*t.num_peers(), 12);
    assert_eq!(*t.num_seeds(), 7);
    assert_eq!(*t.num_leeches(), 5);
    assert_eq!(*t.num_downloaded(), -1);
    assert_eq!(t.msg(), "ok");
}

#[test]
fn status_code_keeps_the_raw_code() {
    assert_eq!(tracker_with_code(4).status_code(), 4);
    assert_eq!(tracker_with_code(200).status_code(), 200);
}
