use statusbar::clock::clock_text;

#[test]
fn clock_renders_the_current_time() {
    let text = clock_text().expect("the current local time always renders");
    // "%A, %B/%d %-I:%M %p" always yields "<weekday>, <month>/<day> <h>:<mm> AM|PM".
    assert!(!text.is_empty());
    assert!(text.contains(", "));
    assert!(text.contains('/'));
    assert!(text.contains(':'));
    assert!(text.ends_with(" AM") || text.ends_with(" PM"));
}
