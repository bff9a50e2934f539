use wallhaven::paging::{
    next_page, pacing_delay, FIRST_PAGE, PACING_LIMIT_MILLIS, PACING_MIN_MILLIS,
};

#[test]
fn paging_begins_at_page_one() {
    assert_eq!(FIRST_PAGE, 1);
}

#[test]
fn next_page_counts_up_to_the_last_page() {
    assert_eq!(next_page(1, 3), Some(2));
    assert_eq!(next_page(2, 3), Some(3));
    assert_eq!(next_page(3, 3), None);
}

#[test]
fn next_page_stops_when_the_last_page_is_behind() {
    assert_eq!(next_page(1, 1), None);
    assert_eq!(next_page(1, 0), None);
    assert_eq!(next_page(5, 3), None);
    assert_eq!(next_page(1, -4), None);
}

#[test]
fn next_page_does_not_overflow() {
    assert_eq!(next_page(i32::MAX, i32::MAX), None);
    assert_eq!(next_page(i32::MAX - 1, i32::MAX), Some(i32::MAX));
    assert_eq!(next_page(i32::MIN, i32::MIN + 1), Some(i32::MIN + 1));
}

#[test]
fn pages_one_to_three_are_visited_in_order() {
    let mut visited = vec![FIRST_PAGE];
    let mut page = FIRST_PAGE;
    while let Some(following) = next_page(page, 3) {
        visited.push(following);
        page = following;
    }
    assert_eq!(visited, vec![1, 2, 3]);
}

#[test]
fn pacing_bounds_are_one_and_two_seconds() {
    assert_eq!(PACING_MIN_MILLIS, 1000);
    assert_eq!(PACING_LIMIT_MILLIS, 2000);
}

#[test]
fn pacing_delay_stays_within_its_bounds() {
    for _ in 0..2000 {
        let millis = pacing_delay();
        assert!(1000 <= millis && millis < 2000, "{}", millis);
    }
}

#[test]
fn pacing_delay_varies() {
    let first = pacing_delay();
    let mut varied = false;
    for _ in 0..200 {
        if pacing_delay() != first {
            varied = true;
        }
    }
    assert!(varied);
}
