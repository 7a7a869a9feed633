use std::time::{Duration, Instant};

use fun_time::template::{interpolate, ParamValue};
use fun_time::timing::{done_notification, elapsed_nanos, give_back_pair, start_notification};

/// Busy-waits until at least the given number of milliseconds has passed.
fn spin_for_millis(ms: u64) {
    let t0 = Instant::now();
    while t0.elapsed() < Duration::from_millis(ms) {}
}

fn nanos_of(d: Duration) -> u64 {
    d.as_nanos() as u64
}

#[test]
fn elapsed_is_the_difference_of_the_readings() {
    assert_eq!(elapsed_nanos(10, 60), 50);
    assert_eq!(elapsed_nanos(0, 0), 0);
}

#[test]
fn elapsed_never_underflows() {
    assert_eq!(elapsed_nanos(60, 10), 0);
}

#[test]
fn the_pair_passes_the_original_result_through() {
    let (value, elapsed) = give_back_pair("answer", 42);
    assert_eq!(value, "answer");
    assert_eq!(elapsed, 42);
}

#[test]
fn it_works() {
    // A wrapper in `give_back` mode around a function that borrows its
    // argument and returns the borrow, written out as the transformer
    // emits it: measure around a zero-argument closure invoked once.
    fn dummy_test_function_that_sleeps<'a, T: std::fmt::Debug + Sized>(
        borrowed_thing: &'a T,
    ) -> (&'a T, u64) {
        let start = Instant::now();
        let return_value: &'a T = (|| {
            spin_for_millis(42);
            borrowed_thing
        })();
        let elapsed = nanos_of(start.elapsed());
        give_back_pair(return_value, elapsed)
    }

    let (borrowed_thing, elapsed_time) = dummy_test_function_that_sleeps(&"Hello, there!");
    assert_eq!(&"Hello, there!", borrowed_thing);
    assert!(elapsed_time >= 42_000_000);
}

#[test]
fn works_with_struct_member_that_modifies() {
    // A reporting wrapper around a method that mutates state through its
    // receiver: the mutation stays visible to the caller afterwards.
    struct Thing {
        value: i32,
    }

    impl Thing {
        pub fn new(value: i32) -> Self {
            Self { value }
        }

        pub fn modify_timed(&mut self, new_value: i32) -> i32 {
            let message = start_notification("modify while mutating self");
            println!("{}", message);
            let start = Instant::now();
            let return_value: i32 = (|| {
                let old_value = self.value;
                self.value = new_value;
                old_value
            })();
            let elapsed = nanos_of(start.elapsed());
            println!("{}", done_notification(&message, elapsed));
            return_value
        }
    }

    let mut thing = Thing::new(1);
    let old_value = thing.modify_timed(1337);
    assert_eq!(old_value, 1);
    assert_eq!(thing.value, 1337);
}

#[test]
fn an_early_return_still_yields_one_measurement() {
    // The zero-argument closure isolates an early `return` in the original
    // body: the wrapper still measures once and produces exactly one pair.
    fn classify(n: i32) -> (i32, u64) {
        let mut measurements = 0;
        let start = Instant::now();
        let return_value: i32 = (|| {
            if n < 0 {
                return -1;
            }
            1
        })();
        let elapsed = nanos_of(start.elapsed());
        measurements += 1;
        assert_eq!(measurements, 1);
        give_back_pair(return_value, elapsed)
    }

    let (value, _elapsed) = classify(-5);
    assert_eq!(value, -1);
    let (value, _elapsed) = classify(5);
    assert_eq!(value, 1);
}

#[test]
fn a_fifty_millisecond_body_measures_in_range() {
    let start = Instant::now();
    let return_value: () = (|| {
        spin_for_millis(50);
    })();
    let elapsed = nanos_of(start.elapsed());
    let pair = give_back_pair(return_value, elapsed);
    assert!(pair.1 >= 45_000_000, "duration below range: {}", pair.1);
    assert!(pair.1 <= 150_000_000, "duration above range: {}", pair.1);
}

#[test]
fn notification_lines_carry_the_message_and_the_duration() {
    let ps = vec![ParamValue {
        name: "n".to_string(),
        rendered: "3".to_string(),
        alternate: "3".to_string(),
    }];
    let message = interpolate("hi {n}", &ps).unwrap();
    let start_line = start_notification(&message);
    let done_line = done_notification(&message, 50_000_000);
    println!("{}", start_line);
    println!("{}", done_line);
    assert_eq!(start_line, "hi 3");
    assert!(done_line.starts_with("hi 3: Done in "));
    assert!(done_line.contains("50.00ms"));
}

#[test]
fn durations_render_with_two_fractional_digits() {
    assert!(done_notification("x", 1_500_000_000).ends_with("1.50s"));
    assert!(done_notification("x", 1_500).ends_with("1.50\u{b5}s"));
    assert!(done_notification("x", 7).ends_with("7.00ns"));
}

#[test]
fn a_non_give_back_call_emits_exactly_two_notifications() {
    let mut notifications: Vec<String> = Vec::new();
    let message = start_notification("having fun");
    notifications.push(message.clone());
    let start = Instant::now();
    let return_value: i32 = (|| 40 + 2)();
    let elapsed = nanos_of(start.elapsed());
    notifications.push(done_notification(&message, elapsed));
    assert_eq!(return_value, 42);
    assert_eq!(notifications.len(), 2);
    assert_eq!(notifications[0], "having fun");
    assert!(notifications[1].starts_with("having fun: Done in "));
}
