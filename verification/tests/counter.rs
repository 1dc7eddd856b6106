use site_core::counter::Counter;

fn clicked(times: i32) -> Counter {
    let mut counter = Counter::new();
    for _ in 0..times {
        counter.click();
    }
    counter
}

#[test]
fn new_counter_shows_zero() {
    assert_eq!(Counter::new().count(), 0);
}

#[test]
fn one_click_shows_one() {
    let mut counter = Counter::new();
    counter.click();
    assert_eq!(counter.count(), 1);
}

#[test]
fn count_equals_number_of_clicks() {
    assert_eq!(clicked(0).count(), 0);
    assert_eq!(clicked(2).count(), 2);
    assert_eq!(clicked(5).count(), 5);
    assert_eq!(clicked(1000).count(), 1000);
}

#[test]
fn count_is_shown_after_each_click() {
    let mut counter = Counter::new();
    for expected in 1..=20 {
        counter.click();
        assert_eq!(counter.count(), expected);
    }
}
