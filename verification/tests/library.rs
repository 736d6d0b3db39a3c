use winrmpc::model::AlbumGroup;
use winrmpc::ui::app::library::{
    album_order, album_variants, merge_tag_lists, recently_added_order, same_ignoring_ascii_case, sort_names, str_lt,
    track_number,
};

fn strings(v: &[&str]) -> Vec<String> {
    v.iter().map(|s| s.to_string()).collect()
}

#[test]
fn track_artists_merge_into_album_artists_once() {
    let merged = merge_tag_lists(strings(&["B", "A"]), &strings(&["A", "", "C", "C"]), true);
    assert_eq!(merged, strings(&["B", "A", "C"]));
    let merged = merge_tag_lists(strings(&["B"]), &strings(&["", "B"]), false);
    assert_eq!(merged, strings(&["B", ""]));
}

#[test]
fn names_sort_as_strings_sort() {
    let input = strings(&["beta", "Alpha", "alpha", "Émile", "Zed", "", "alpha"]);
    let mut expected = input.clone();
    expected.sort();
    assert_eq!(sort_names(input), expected);
    assert!(str_lt("Zed", "alpha"));
    assert!(str_lt("", "a"));
    assert!(!str_lt("b", "b"));
    assert!(str_lt("ab", "abc"));
}

#[test]
fn an_albums_variants_are_found_by_artist_ignoring_case() {
    let groups = vec![
        AlbumGroup { artist: "Other".to_string(), base: "Us".to_string(), variants: strings(&["Us (x)"]) },
        AlbumGroup { artist: "PETER GABRIEL".to_string(), base: "Us".to_string(), variants: strings(&["Us (Disc 1)", "Us (Disc 2)"]) },
        AlbumGroup { artist: "Peter Gabriel".to_string(), base: "Us".to_string(), variants: strings(&["later"]) },
    ];
    assert_eq!(album_variants(&groups, "Peter Gabriel", "Us"), strings(&["Us (Disc 1)", "Us (Disc 2)"]));
    assert_eq!(album_variants(&groups, "Peter Gabriel", "So"), strings(&["So"]));
    assert!(same_ignoring_ascii_case("AbC", "aBc"));
    assert!(!same_ignoring_ascii_case("Émile", "éMILE"));
    assert!(!same_ignoring_ascii_case("ab", "abc"));
}

#[test]
fn track_tags_read_as_numbers() {
    assert_eq!(track_number(Some("3/12")), 3);
    assert_eq!(track_number(Some(" 7 ")), 7);
    assert_eq!(track_number(Some("+4")), 4);
    assert_eq!(track_number(Some("A1")), 0);
    assert_eq!(track_number(Some("")), 0);
    assert_eq!(track_number(Some("99999999999")), 0);
    assert_eq!(track_number(None), 0);
}

#[test]
fn an_album_lists_by_disc_then_track_keeping_ties_in_order() {
    let keys = vec![(2, 1), (1, 2), (1, 1), (1, 2), (0, 9)];
    assert_eq!(album_order(&keys), vec![4, 2, 1, 3, 0]);
    assert_eq!(album_order(&vec![]), Vec::<usize>::new());
}

#[test]
fn recently_added_lists_newest_first_and_unknown_last() {
    let stamps = vec![
        Some("2024-01-02T00:00:00Z".to_string()),
        None,
        Some("2024-03-01T00:00:00Z".to_string()),
        Some("2024-01-02T00:00:00Z".to_string()),
        None,
    ];
    assert_eq!(recently_added_order(&stamps), vec![2, 0, 3, 1, 4]);
    let mut expected: Vec<usize> = (0..stamps.len()).collect();
    expected.sort_by(|&a, &b| stamps[b].cmp(&stamps[a]));
    assert_eq!(recently_added_order(&stamps), expected);
}
