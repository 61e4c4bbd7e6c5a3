use tapmusic::url::build_url;

#[test]
fn url_with_caption_only() {
    assert_eq!(
        build_url("alice", "4x4", "7day", "true", "false"),
        "https://tapmusic.net/collage.php?user=alice&type=7day&size=4x4&caption=true"
    );
}

#[test]
fn url_with_both_flags() {
    assert_eq!(
        build_url("bob", "10x10", "overall", "true", "true"),
        "https://tapmusic.net/collage.php?user=bob&type=overall&size=10x10&caption=true&playcount=true"
    );
}

#[test]
fn url_with_playcount_only() {
    assert_eq!(
        build_url("bob", "3x3", "1month", "false", "true"),
        "https://tapmusic.net/collage.php?user=bob&type=1month&size=3x3&playcount=true"
    );
}

#[test]
fn url_without_flags_never_says_false() {
    let u = build_url("bob", "5x5", "12month", "false", "false");
    assert_eq!(u, "https://tapmusic.net/collage.php?user=bob&type=12month&size=5x5");
    assert!(!u.contains("false"));
    assert!(!u.contains("caption"));
    assert!(!u.contains("playcount"));
}

#[test]
fn url_type_then_size_for_each_size() {
    for (n, grid) in [("3", "3x3"), ("4", "4x4"), ("5", "5x5"), ("10", "10x10")] {
        let u = build_url("carol", grid, "6month", "true", "true");
        let part = format!("user=carol&type=6month&size={}x{}", n, n);
        assert!(u.contains(&part));
    }
}

#[test]
fn url_is_deterministic() {
    let a = build_url("dave", "4x4", "3month", "true", "false");
    let b = build_url("dave", "4x4", "3month", "true", "false");
    assert_eq!(a, b);
}
