use tapmusic::naming::{file_name_at, parse_file_name};
use tapmusic::stamp::LocalTime;

fn at(year: i32, month: u32, day: u32, hour: u32, minute: u32, second: u32) -> LocalTime {
    LocalTime { year, month, day, hour, minute, second }
}

#[test]
fn default_name_is_timestamped() {
    let t = at(2024, 3, 5, 9, 7, 2);
    assert_eq!(file_name_at("alice", "4x4", "7day", "", &t), "alice_7day_4x4_2024-03-05_090702.jpg");
}

#[test]
fn given_name_is_kept() {
    let t = at(2024, 3, 5, 9, 7, 2);
    assert_eq!(file_name_at("alice", "4x4", "7day", "myart.jpg", &t), "myart.jpg");
    assert_eq!(parse_file_name("alice", "4x4", "7day", "myart.jpg"), "myart.jpg");
}

#[test]
fn names_a_second_apart_differ() {
    let a = file_name_at("alice", "4x4", "7day", "", &at(2024, 12, 31, 23, 59, 58));
    let b = file_name_at("alice", "4x4", "7day", "", &at(2024, 12, 31, 23, 59, 59));
    assert_ne!(a, b);
    let c = file_name_at("alice", "4x4", "7day", "", &at(2025, 1, 1, 0, 0, 0));
    assert_ne!(b, c);
}

#[test]
fn year_outside_four_digits_carries_a_sign() {
    let t = at(12345, 1, 2, 3, 4, 5);
    assert_eq!(file_name_at("u", "3x3", "overall", "", &t), "u_overall_3x3_+12345-01-02_030405.jpg");
    let t = at(-44, 12, 25, 13, 0, 59);
    assert_eq!(file_name_at("u", "3x3", "overall", "", &t), "u_overall_3x3_-0044-12-25_130059.jpg");
    let t = at(7, 10, 11, 20, 30, 40);
    assert_eq!(file_name_at("u", "3x3", "overall", "", &t), "u_overall_3x3_0007-10-11_203040.jpg");
}

#[test]
fn name_from_clock_has_stamp_shape() {
    let n = parse_file_name("alice", "4x4", "7day", "");
    assert!(n.starts_with("alice_7day_4x4_"));
    assert!(n.ends_with(".jpg"));
    let stamp = &n["alice_7day_4x4_".len()..n.len() - ".jpg".len()];
    assert_eq!(stamp.len(), 17);
    let b = stamp.as_bytes();
    assert_eq!(b[4], b'-');
    assert_eq!(b[7], b'-');
    assert_eq!(b[10], b'_');
    for (i, c) in b.iter().enumerate() {
        if i != 4 && i != 7 && i != 10 {
            assert!(c.is_ascii_digit());
        }
    }
}
