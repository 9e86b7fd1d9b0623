use qbit::endpoint::{contents_address, properties_address, resume_address, trackers_address};

#[test]
fn properties_address_appends_the_hash() {
    assert_eq!(
        properties_address("http://localhost:8080", "abc"),
        "http://localhost:8080/api/v2/torrents/properties?hash=abc"
    );
}

#[test]
fn trackers_address_appends_the_hash() {
    assert_eq!(
        trackers_address("http://localhost:8080", "abc"),
        "http://localhost:8080/api/v2/torrents/trackers?hash=abc"
    );
}

#[test]
fn contents_address_names_the_files_endpoint() {
    assert_eq!(
        contents_address("http://h", "ff00"),
        "http://h/api/v2/torrents/files?hash=ff00"
    );
}

#[test]
fn resume_address_of_one_hash() {
    let h = qbit::hash::Hash::from("deadbeef");
    assert_eq!(
        resume_address("http://h", &h),
        "http://h/api/v2/torrents/resume?hashes=deadbeef"
    );
}

#[test]
fn resume_address_of_several_hashes() {
    let h = qbit::hash::Hash::from(vec!["a1", "b2"]);
    assert_eq!(resume_address("http://h", &h), "http://h/api/v2/torrents/resume?hashes=a1|b2");
}

#[test]
fn resume_address_of_no_hash() {
    let h = qbit::hash::Hash::from(Vec::<String>::new());
    assert_eq!(resume_address("", &h), "/api/v2/torrents/resume?hashes");
}
