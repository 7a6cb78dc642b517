use logthis::Level;

const ALL: [Level; 4] = [Level::Debug, Level::Info, Level::Warn, Level::Error];

#[test]
fn levels_are_ordered_by_severity() {
    assert!(Level::Debug < Level::Info);
    assert!(Level::Info < Level::Warn);
    assert!(Level::Warn < Level::Error);
    assert!(Level::Error > Level::Debug);
    assert!(Level::Warn >= Level::Warn);
    assert!(Level::Info <= Level::Info);
}

#[test]
fn order_of_levels_is_order_of_severity() {
    for a in ALL {
        for b in ALL {
            assert_eq!(a < b, a.severity() < b.severity());
            assert_eq!(a == b, a.severity() == b.severity());
            assert_eq!(a.partial_cmp(&b), a.severity().partial_cmp(&b.severity()));
            assert_eq!(a.cmp(&b), a.severity().cmp(&b.severity()));
        }
    }
}

#[test]
fn severity_counts_from_debug() {
    assert_eq!(Level::Debug.severity(), 0);
    assert_eq!(Level::Info.severity(), 1);
    assert_eq!(Level::Warn.severity(), 2);
    assert_eq!(Level::Error.severity(), 3);
}

#[test]
fn each_level_has_its_tag() {
    assert_eq!(Level::Debug.tag(), "[DEBUG]");
    assert_eq!(Level::Info.tag(), "[INFO]");
    assert_eq!(Level::Warn.tag(), "[WARN]");
    assert_eq!(Level::Error.tag(), "[ERROR]");
}

#[test]
fn levels_copy_and_compare() {
    let a = Level::Warn;
    let b = a;
    assert_eq!(a, b);
    assert_ne!(a, Level::Error);
    assert_eq!(format!("{:?}", a), "Warn");
}
