use kiwi_admin::components::pagination::interval;
use kiwi_admin::components::pagination::item_active;
use kiwi_admin::components::pagination::item_classes;
use kiwi_admin::components::pagination::item_label;
use kiwi_admin::components::pagination::item_link;
use kiwi_admin::components::pagination::page_items;
use kiwi_admin::components::pagination::PageItemKind::Ellipsis;
use kiwi_admin::components::pagination::PageItemKind::Next;
use kiwi_admin::components::pagination::PageItemKind::Previous;
use kiwi_admin::components::pagination::PageItemKind::Regular;

#[test]
fn interval_centers_on_the_current_page() {
    assert_eq!(interval(10, 5, 5), (3, 7));
    assert_eq!(interval(10, 0, 5), (0, 4));
    assert_eq!(interval(10, 9, 5), (5, 9));
    assert_eq!(interval(10, 1, 5), (0, 4));
    assert_eq!(interval(10, 8, 5), (5, 9));
}

#[test]
fn interval_shrinks_to_the_page_count() {
    assert_eq!(interval(3, 0, 5), (0, 2));
    assert_eq!(interval(3, 2, 5), (0, 2));
    assert_eq!(interval(1, 0, 5), (0, 0));
}

#[test]
fn interval_with_even_display_count() {
    assert_eq!(interval(10, 5, 4), (3, 6));
}

#[test]
fn bar_layout_with_edges_and_ellipses() {
    assert_eq!(
        page_items(10, 5, 5, 1),
        vec![
            Previous,
            Regular(0),
            Ellipsis,
            Regular(3),
            Regular(4),
            Regular(5),
            Regular(6),
            Regular(7),
            Ellipsis,
            Regular(9),
            Next,
        ]
    );
    assert_eq!(
        page_items(5, 2, 5, 1),
        vec![Previous, Regular(0), Regular(1), Regular(2), Regular(3), Regular(4), Next]
    );
    assert_eq!(
        page_items(10, 0, 5, 1),
        vec![
            Previous,
            Regular(0),
            Regular(1),
            Regular(2),
            Regular(3),
            Regular(4),
            Ellipsis,
            Regular(9),
            Next,
        ]
    );
    assert_eq!(
        page_items(10, 5, 5, 0),
        vec![Previous, Regular(3), Regular(4), Regular(5), Regular(6), Regular(7), Next]
    );
}

#[test]
fn links_labels_and_classes() {
    assert_eq!(item_link(Previous, 10, 0), None);
    assert_eq!(item_link(Previous, 10, 3), Some(2));
    assert_eq!(item_link(Next, 10, 9), None);
    assert_eq!(item_link(Next, 10, 3), Some(4));
    assert_eq!(item_link(Regular(6), 10, 3), Some(6));
    assert_eq!(item_link(Ellipsis, 10, 3), None);

    assert!(item_active(Regular(3), 3));
    assert!(!item_active(Regular(2), 3));
    assert!(!item_active(Previous, 3));

    assert_eq!(item_label(Previous), "\u{ab}");
    assert_eq!(item_label(Next), "\u{bb}");
    assert_eq!(item_label(Regular(0)), "1");
    assert_eq!(item_label(Regular(41)), "42");
    assert_eq!(item_label(Ellipsis), "\u{2026}");

    assert_eq!(item_classes(false, true), "page-item");
    assert_eq!(item_classes(true, true), "page-item active");
    assert_eq!(item_classes(false, false), "page-item disabled");
}
