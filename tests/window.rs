use custom_async::window::{
    excess_items, window_index, window_size, window_update, WindowUpdate, MAX_WINDOW_SIZE,
};

#[test]
fn window_sizes_are_powers_of_ten() {
    let sizes: Vec<usize> = (0..8).map(window_size).collect();
    assert_eq!(sizes, vec![10, 100, 1000, 10000, 100000, 1000000, 10000000, 100000000]);
}

#[test]
fn first_batch_fills_the_window() {
    assert_eq!(
        window_update(10, 3, 3),
        WindowUpdate { added_start: 0, removed_start: 0, removed_end: 0, window_len: 3 }
    );
}

#[test]
fn second_batch_slides_a_small_window() {
    assert_eq!(
        window_update(10, 20000, 10000),
        WindowUpdate { added_start: 19990, removed_start: 9990, removed_end: 10000, window_len: 10 }
    );
}

#[test]
fn second_batch_grows_a_large_window() {
    assert_eq!(
        window_update(100000, 20000, 10000),
        WindowUpdate { added_start: 10000, removed_start: 0, removed_end: 0, window_len: 20000 }
    );
}

#[test]
fn batch_partly_overlapping_the_window() {
    // 5 old values, 4 new, window of 6: positions 3..9 stay in the window.
    assert_eq!(
        window_update(6, 9, 4),
        WindowUpdate { added_start: 5, removed_start: 0, removed_end: 3, window_len: 6 }
    );
}

#[test]
fn empty_batch_changes_nothing() {
    let u = window_update(10, 25, 0);
    assert_eq!(u.added_start, 25);
    assert_eq!(u.removed_start, u.removed_end);
    assert_eq!(u.window_len, 10);
}

#[test]
fn history_is_trimmed_to_the_largest_window() {
    assert_eq!(excess_items(5), 0);
    assert_eq!(excess_items(MAX_WINDOW_SIZE), 0);
    assert_eq!(excess_items(MAX_WINDOW_SIZE + 7), 7);
}

#[test]
fn query_k_names_a_window() {
    assert_eq!(window_index(Some(1)), Some(0));
    assert_eq!(window_index(Some(8)), Some(7));
    assert_eq!(window_index(Some(0)), None);
    assert_eq!(window_index(Some(9)), None);
    assert_eq!(window_index(None), None);
}
