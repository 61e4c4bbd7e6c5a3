use tapmusic::params::{parse_time, size_param, str_to_bool, valid_flag, valid_period, valid_size};

#[test]
fn period_days() {
    assert_eq!(parse_time("7d"), "7day");
}

#[test]
fn period_months() {
    assert_eq!(parse_time("1m"), "1month");
    assert_eq!(parse_time("3m"), "3month");
    assert_eq!(parse_time("6m"), "6month");
    assert_eq!(parse_time("12m"), "12month");
}

#[test]
fn period_all_is_overall() {
    assert_eq!(parse_time("all"), "overall");
}

#[test]
fn period_generalises_to_any_number() {
    assert_eq!(parse_time("30d"), "30day");
    assert_eq!(parse_time("24m"), "24month");
}

#[test]
fn flag_t_is_true() {
    assert_eq!(str_to_bool(&"t".to_string()), "true");
}

#[test]
fn flag_f_is_false() {
    assert_eq!(str_to_bool(&"f".to_string()), "false");
}

#[test]
fn flag_uses_last_character() {
    assert_eq!(str_to_bool(&"ft".to_string()), "true");
    assert_eq!(str_to_bool(&"tf".to_string()), "false");
}

#[test]
fn size_is_square() {
    assert_eq!(size_param("4"), "4x4");
    assert_eq!(size_param("10"), "10x10");
}

#[test]
fn sizes_accepted_and_rejected() {
    for s in ["3", "4", "5", "10"] {
        assert!(valid_size(s));
    }
    for s in ["", "2", "6", "1", "100", "4x4"] {
        assert!(!valid_size(s));
    }
}

#[test]
fn periods_accepted_and_rejected() {
    for s in ["7d", "1m", "3m", "6m", "12m", "all"] {
        assert!(valid_period(s));
    }
    for s in ["", "7", "2d", "overall", "al", "12"] {
        assert!(!valid_period(s));
    }
}

#[test]
fn flags_accepted_and_rejected() {
    assert!(valid_flag("t"));
    assert!(valid_flag("f"));
    assert!(!valid_flag(""));
    assert!(!valid_flag("true"));
}
