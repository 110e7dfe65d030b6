use music_bot::utilities::{duration_formatter, format_seconds, num_prefix, rand_color};
use std::time::Duration;

#[test]
fn duration_with_every_part() {
    assert_eq!(duration_formatter(Duration::from_secs(3661)), "1 hours, 1 minutes, 1 seconds");
    assert_eq!(duration_formatter(Duration::from_secs(7325)), "2 hours, 2 minutes, 5 seconds");
}

#[test]
fn duration_of_zero_is_empty() {
    assert_eq!(duration_formatter(Duration::from_secs(0)), "");
    assert_eq!(format_seconds(0), "");
}

#[test]
fn duration_leaves_out_zero_parts() {
    assert_eq!(format_seconds(59), "59 seconds");
    assert_eq!(format_seconds(60), "1 minutes");
    assert_eq!(format_seconds(61), "1 minutes, 1 seconds");
    assert_eq!(format_seconds(3599), "59 minutes, 59 seconds");
    assert_eq!(format_seconds(3600), "1 hours");
    assert_eq!(format_seconds(3601), "1 hours, 1 seconds");
    assert_eq!(format_seconds(3660), "1 hours, 1 minutes");
}

#[test]
fn duration_hours_are_not_folded_into_days() {
    assert_eq!(format_seconds(90_000), "25 hours");
    assert_eq!(format_seconds(u64::MAX), "5124095576030431 hours, 15 seconds");
}

#[test]
fn duration_drops_the_fraction() {
    assert_eq!(duration_formatter(Duration::from_millis(61_999)), "1 minutes, 1 seconds");
    assert_eq!(duration_formatter(Duration::from_millis(999)), "");
    assert_eq!(
        duration_formatter(Duration::new(3661, 999_999_999)),
        "1 hours, 1 minutes, 1 seconds"
    );
}

#[test]
fn ordinal_endings_go_by_the_last_digit() {
    assert_eq!(num_prefix(0), "0th");
    assert_eq!(num_prefix(1), "1st");
    assert_eq!(num_prefix(2), "2nd");
    assert_eq!(num_prefix(3), "3rd");
    assert_eq!(num_prefix(4), "4th");
    assert_eq!(num_prefix(9), "9th");
    assert_eq!(num_prefix(10), "10th");
    assert_eq!(num_prefix(21), "21st");
    assert_eq!(num_prefix(22), "22nd");
    assert_eq!(num_prefix(23), "23rd");
    assert_eq!(num_prefix(100), "100th");
    assert_eq!(num_prefix(101), "101st");
    assert_eq!(num_prefix(102), "102nd");
    assert_eq!(num_prefix(103), "103rd");
    assert_eq!(num_prefix(121), "121st");
}

#[test]
fn ordinal_endings_of_the_teens() {
    assert_eq!(num_prefix(11), "11th");
    assert_eq!(num_prefix(12), "12th");
    assert_eq!(num_prefix(13), "13th");
    assert_eq!(num_prefix(14), "14th");
    assert_eq!(num_prefix(111), "111th");
    assert_eq!(num_prefix(112), "112th");
    assert_eq!(num_prefix(113), "113th");
    assert_eq!(num_prefix(1011), "1011th");
    assert_eq!(num_prefix(2_000_012), "2000012th");
    assert_eq!(num_prefix(313), "313th");
}

#[test]
fn ordinal_of_the_largest_number() {
    assert!(usize::MAX % 10 == 5);
    assert_eq!(num_prefix(usize::MAX), format!("{}th", usize::MAX));
}

#[test]
fn ordinals_differ_from_number_to_number() {
    let mut seen: Vec<String> = Vec::new();
    for n in 0..300 {
        let text = num_prefix(n);
        assert!(!seen.contains(&text));
        assert!(text.starts_with(&n.to_string()));
        assert_eq!(text.len(), n.to_string().len() + 2);
        seen.push(text);
    }
}

#[test]
fn random_colours_are_bright() {
    let mut seen_different = false;
    let first = rand_color();
    for _ in 0..500 {
        let colour = rand_color();
        let (red, green, blue) = colour.tuple();
        assert!((50..100).contains(&red));
        assert!((100..255).contains(&green));
        assert!((100..255).contains(&blue));
        assert_eq!(colour.0, ((red as u32) << 16) | ((green as u32) << 8) | blue as u32);
        if colour != first {
            seen_different = true;
        }
    }
    assert!(seen_different);
}
