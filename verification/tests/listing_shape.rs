use filenav::workdir::build_listing;

fn raw(entries: &[(&str, bool)]) -> Vec<(String, bool)> {
    entries.iter().map(|(n, d)| (String::from(*n), *d)).collect()
}

#[test]
fn listing_partitions_files_and_decorated_directories() {
    let (files, dirs) = build_listing(
        raw(&[("a.txt", false), ("src", true), ("b.txt", false), ("docs", true)]),
        false,
    );
    assert_eq!(files, vec![String::from("a.txt"), String::from("b.txt")]);
    assert_eq!(
        dirs,
        vec![String::from("../"), String::from("src/"), String::from("docs/")]
    );
}

#[test]
fn listing_at_the_root_has_no_up_entry() {
    let (files, dirs) = build_listing(raw(&[("etc", true), ("vmlinuz", false)]), true);
    assert_eq!(files, vec![String::from("vmlinuz")]);
    assert_eq!(dirs, vec![String::from("etc/")]);
}

#[test]
fn empty_listing_away_from_root_still_leads_up() {
    let (files, dirs) = build_listing(Vec::new(), false);
    assert!(files.is_empty());
    assert_eq!(dirs, vec![String::from("../")]);
}
