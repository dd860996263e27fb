use link_relay::text::{clone_names, contains, join, remove_all, with_appended};

fn names(list: &[&str]) -> Vec<String> {
    list.iter().map(|name| name.to_string()).collect()
}

#[test]
fn contains_compares_exactly() {
    let list = names(&["tiktok", "youtube"]);
    assert!(contains(&list, &"tiktok".to_string()));
    assert!(contains(&list, &"youtube".to_string()));
    assert!(!contains(&list, &"TikTok".to_string()));
    assert!(!contains(&list, &"tik".to_string()));
    assert!(!contains(&Vec::new(), &"tiktok".to_string()));
}

#[test]
fn remove_all_takes_every_occurrence_and_keeps_the_order() {
    let list = names(&["a", "b", "a", "c", "a"]);
    assert_eq!(remove_all(&list, &"a".to_string()), names(&["b", "c"]));
    assert_eq!(remove_all(&list, &"b".to_string()), names(&["a", "a", "c", "a"]));
    assert_eq!(remove_all(&list, &"z".to_string()), list);
    assert_eq!(remove_all(&Vec::new(), &"a".to_string()), Vec::<String>::new());
}

#[test]
fn with_appended_adds_at_the_end() {
    let list = names(&["a", "b"]);
    assert_eq!(with_appended(&list, &"c".to_string()), names(&["a", "b", "c"]));
    assert_eq!(with_appended(&Vec::new(), &"c".to_string()), names(&["c"]));
}

#[test]
fn clone_names_copies() {
    let list = names(&["a", "", "b"]);
    assert_eq!(clone_names(&list), list);
}

#[test]
fn join_puts_the_separator_between() {
    assert_eq!(join(&Vec::new(), ", "), "");
    assert_eq!(join(&names(&["tiktok"]), ", "), "tiktok");
    assert_eq!(join(&names(&["tiktok", "youtube"]), ", "), "tiktok, youtube");
    assert_eq!(join(&names(&["a", "b", "c"]), "-"), "a-b-c");
    assert_eq!(join(&names(&["", ""]), ","), ",");
}
