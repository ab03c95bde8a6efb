use wsprrs_web::debounce::{Debouncer, DEBOUNCE_MS};

#[test]
fn only_the_last_edit_takes_effect() {
    let mut d: Debouncer<&str> = Debouncer::new();
    assert_eq!(d.fired(), None);
    assert_eq!(d.changed("a"), DEBOUNCE_MS);
    assert_eq!(d.changed("ab"), 1_000);
    assert_eq!(d.fired(), Some("ab"));
    // A second firing hands out nothing.
    assert_eq!(d.fired(), None);
}
