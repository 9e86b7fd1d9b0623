fn query(h: &qbit::hash::Hash) -> String {
    h.url()
}

#[test]
fn url_of_one_hash() {
    let h = qbit::hash::Hash::from("8c4adbf9ebe66f1d804fb6a4fb9b74966c3ab609");
    assert_eq!(query(&h), "?hashes=8c4adbf9ebe66f1d804fb6a4fb9b74966c3ab609");
}

#[test]
fn url_of_several_hashes_joins_them_with_bars() {
    let h = qbit::hash::Hash::from(vec!["aa", "bb", "cc"]);
    assert_eq!(query(&h), "?hashes=aa|bb|cc");
}

#[test]
fn url_of_no_hash_drops_the_equals_sign() {
    let h = qbit::hash::Hash::from(Vec::<String>::new());
    assert_eq!(query(&h), "?hashes");
    let h = qbit::hash::Hash::from(Vec::<&str>::new());
    assert_eq!(query(&h), "?hashes");
}

#[test]
fn url_keeps_empty_hashes() {
    let h = qbit::hash::Hash::from(vec!["", ""]);
    assert_eq!(query(&h), "?hashes=|");
    let h = qbit::hash::Hash::from("");
    assert_eq!(query(&h), "?hashes=");
}

#[test]
fn single_hash_conversions_agree() {
    let s = String::from("0123abcd");
    let a = query(&qbit::hash::Hash::from("0123abcd"));
    let b = query(&qbit::hash::Hash::from(&s));
    let c = query(&qbit::hash::Hash::from(s.clone()));
    let d = query(&qbit::hash::Hash::from(vec![s.clone()]));
    let e = query(&qbit::hash::Hash::from(vec!["0123abcd"]));
    assert_eq!(a, "?hashes=0123abcd");
    assert_eq!(a, b);
    assert_eq!(a, c);
    assert_eq!(a, d);
    assert_eq!(a, e);
}

#[test]
fn list_conversions_keep_order() {
    let owned = vec!["b".to_string(), "a".to_string(), "c".to_string()];
    let from_owned = query(&qbit::hash::Hash::from(owned));
    let from_borrowed = query(&qbit::hash::Hash::from(vec!["b", "a", "c"]));
    assert_eq!(from_owned, "?hashes=b|a|c");
    assert_eq!(from_owned, from_borrowed);
}

#[test]
fn url_is_the_bar_terminated_list_without_its_last_character() {
    let hashes = vec!["x1", "y22", "z333"];
    let mut built = String::from("?hashes=");
    for h in &hashes {
        built.push_str(h);
        built.push('|');
    }
    built.pop();
    assert_eq!(query(&qbit::hash::Hash::from(hashes)), built);
}

#[test]
fn different_bar_free_lists_give_different_urls() {
    let a = query(&qbit::hash::Hash::from(vec!["ab", "c"]));
    let b = query(&qbit::hash::Hash::from(vec!["a", "bc"]));
    let c = query(&qbit::hash::Hash::from(vec!["abc"]));
    assert_ne!(a, b);
    assert_ne!(a, c);
    assert_ne!(b, c);
}

#[test]
fn url_of_non_ascii_hash() {
    let h = qbit::hash::Hash::from(vec!["é", "ß"]);
    assert_eq!(query(&h), "?hashes=é|ß");
}
