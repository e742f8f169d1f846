use unwrap_rs::widgets::{Logo, Subtitle, Title};

#[test]
fn title_classes_follow_unwrap_state() {
    let mut t = Title::create_component();
    assert!(!t.is_unwrapped());
    assert_eq!(t.base_classes(), vec!["text-3xl", "font-bold"]);
    assert_eq!(t.classes(), vec!["text-3xl", "font-bold", "transition-all", "duration-300", "transform"]);
    assert!(t.set_unwrapped(true));
    assert!(t.is_unwrapped());
    assert_eq!(
        t.classes(),
        vec!["text-3xl", "font-bold", "transition-all", "duration-300", "transform", "scale-110"]
    );
    let c = t.conditional_classes();
    assert_eq!(c.len(), 4);
    assert_eq!(c[3], ("scale-110".to_string(), true));
    assert_eq!(c[0], ("transition-all".to_string(), true));
}

#[test]
fn subtitle_classes_follow_unwrap_state() {
    let mut s = Subtitle::create_component();
    assert_eq!(s.classes(), vec!["block", "-mt-4", "transition-all", "duration-300", "transform"]);
    assert_eq!(s.conditional_classes()[3], ("scale-110".to_string(), false));
    assert!(s.set_unwrapped(true));
    assert_eq!(
        s.classes(),
        vec!["block", "-mt-4", "transition-all", "duration-300", "transform", "scale-110"]
    );
    assert!(s.set_unwrapped(false));
    assert!(!s.is_unwrapped());
}

#[test]
fn logo_classes() {
    assert_eq!(Logo::create_component().base_classes(), vec!["h-80", "mx-auto"]);
}
