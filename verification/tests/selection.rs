use nexrad::selection::{get_nearest_file_index, span_length, TimeOfDay};

fn hms(hour: u32, minute: u32, second: u32) -> TimeOfDay {
    TimeOfDay::new(hour * 3600 + minute * 60 + second, 0).unwrap()
}

#[test]
fn time_of_day_keeps_its_parts() {
    let time = TimeOfDay::new(86_399, 999_999_999).unwrap();
    assert_eq!(time.seconds_from_midnight(), 86_399);
    assert_eq!(time.nanosecond(), 999_999_999);
    assert!(TimeOfDay::new(0, 0).is_some());
}

#[test]
fn time_of_day_refuses_what_is_no_time() {
    assert_eq!(TimeOfDay::new(86_400, 0), None);
    assert_eq!(TimeOfDay::new(u32::MAX, 0), None);
    assert_eq!(TimeOfDay::new(0, 2_000_000_000), None);
    assert_eq!(TimeOfDay::new(0, 1_000_000_000), None);
    assert_eq!(TimeOfDay::new(58, 1_000_000_000), None);
    assert!(TimeOfDay::new(59, 1_000_000_000).is_some());
    assert!(TimeOfDay::new(86_399, 1_999_999_999).is_some());
}

#[test]
fn seconds_apart_is_the_magnitude_of_the_difference() {
    assert_eq!(hms(23, 30, 0).seconds_apart(&hms(23, 23, 24)), 396);
    assert_eq!(hms(23, 23, 24).seconds_apart(&hms(23, 30, 0)), 396);
    assert_eq!(hms(0, 0, 0).seconds_apart(&hms(23, 59, 59)), 86_399);
    assert_eq!(hms(12, 0, 0).seconds_apart(&hms(12, 0, 0)), 0);
}

#[test]
fn seconds_apart_counts_whole_seconds() {
    let early = TimeOfDay::new(10, 900_000_000).unwrap();
    let late = TimeOfDay::new(12, 100_000_000).unwrap();
    assert_eq!(late.seconds_apart(&early), 1);
    assert_eq!(early.seconds_apart(&late), 1);
    let leap = TimeOfDay::new(86_399, 1_999_999_999).unwrap();
    assert_eq!(leap.seconds_apart(&hms(0, 0, 0)), 86_400);
    assert_eq!(hms(0, 0, 0).seconds_apart(&leap), 86_400);
}

#[test]
fn nearest_file_is_found() {
    let files = [hms(23, 10, 5), hms(23, 23, 24), hms(23, 29, 10), hms(23, 35, 2), hms(23, 41, 0)];
    assert_eq!(get_nearest_file_index(&files, hms(23, 30, 0)), 2);
    assert_eq!(get_nearest_file_index(&files, hms(0, 0, 0)), 0);
    assert_eq!(get_nearest_file_index(&files, hms(23, 59, 59)), 4);
    assert_eq!(get_nearest_file_index(&files, hms(23, 33, 0)), 3);
    assert_eq!(get_nearest_file_index(&files, hms(23, 23, 24)), 1);
}

#[test]
fn first_of_equally_near_files_is_taken() {
    let files = [hms(10, 0, 10), hms(10, 0, 30), hms(10, 0, 10), hms(10, 0, 30)];
    assert_eq!(get_nearest_file_index(&files, hms(10, 0, 20)), 0);
    assert_eq!(get_nearest_file_index(&files, hms(10, 0, 30)), 1);
    let unordered = [hms(12, 0, 0), hms(8, 0, 0), hms(10, 0, 1), hms(9, 59, 59)];
    assert_eq!(get_nearest_file_index(&unordered, hms(10, 0, 0)), 2);
}

#[test]
fn no_file_gives_index_zero() {
    assert_eq!(get_nearest_file_index(&[], hms(23, 30, 0)), 0);
    assert_eq!(get_nearest_file_index(&[hms(1, 0, 0)], hms(23, 30, 0)), 0);
}

#[test]
fn span_counts_both_ends() {
    assert_eq!(span_length(3, 3), 1);
    assert_eq!(span_length(2, 7), 6);
    assert_eq!(span_length(0, usize::MAX - 1), usize::MAX);
}
