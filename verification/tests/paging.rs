use unraid_mcp::paging::{filter_matches, select_page};

#[test]
fn filter_is_a_case_insensitive_substring() {
    assert!(filter_matches("Plex-Media-Server", "plex"));
    assert!(filter_matches("Plex-Media-Server", "MEDIA"));
    assert!(filter_matches("anything", ""));
    assert!(!filter_matches("plex", "plexx"));
    assert!(!filter_matches("nginx", "plex"));
    assert!(filter_matches("ÄBC", "Äb"));
    assert!(!filter_matches("äbc", "Ä"));
}

#[test]
fn first_page_and_next_offset() {
    let keep = vec![true; 5];
    let p = select_page(&keep, 2, 0);
    assert_eq!(p.indices, vec![0, 1]);
    assert_eq!(p.total, 5);
    assert!(p.has_more);
    assert_eq!(p.next_offset, Some(2));
    let p = select_page(&keep, 2, 4);
    assert_eq!(p.indices, vec![4]);
    assert!(!p.has_more);
    assert_eq!(p.next_offset, None);
}

#[test]
fn pages_count_only_kept_items() {
    let keep = vec![false, true, false, true, true, false, true];
    let p = select_page(&keep, 2, 1);
    assert_eq!(p.indices, vec![3, 4]);
    assert_eq!(p.total, 4);
    assert_eq!(p.next_offset, Some(3));
    let p = select_page(&keep, 2, 3);
    assert_eq!(p.indices, vec![6]);
    assert_eq!(p.next_offset, None);
}

#[test]
fn offset_past_the_end_is_an_empty_page() {
    let keep = vec![true, true];
    let p = select_page(&keep, 10, 9);
    assert!(p.indices.is_empty());
    assert_eq!(p.total, 2);
    assert!(!p.has_more);
    let p = select_page(&keep, 0, 0);
    assert!(p.indices.is_empty());
    assert!(p.has_more);
    assert_eq!(p.next_offset, Some(0));
}

#[test]
fn following_next_offset_visits_each_item_once() {
    let keep = vec![true, false, true, true, false, true, true, true];
    let mut seen = Vec::new();
    let mut offset = 0;
    loop {
        let p = select_page(&keep, 3, offset);
        seen.extend(p.indices);
        match p.next_offset {
            Some(n) => offset = n,
            None => break,
        }
    }
    assert_eq!(seen, vec![0, 2, 3, 5, 6, 7]);
}
