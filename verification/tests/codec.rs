use ioprio::{BePriorityLevel, Class, Priority, RtPriorityLevel};

#[test]
fn rt_level_boundaries() {
    assert!(RtPriorityLevel::from_level(0).is_some());
    assert!(RtPriorityLevel::from_level(7).is_some());
    assert!(RtPriorityLevel::from_level(8).is_none());
    assert!(RtPriorityLevel::from_level(255).is_none());
    assert_eq!(RtPriorityLevel::from_level(5).unwrap().level(), 5);
}

#[test]
fn be_level_boundaries() {
    assert!(BePriorityLevel::from_level(0).is_some());
    assert!(BePriorityLevel::from_level(7).is_some());
    assert!(BePriorityLevel::from_level(8).is_none());
    assert!(BePriorityLevel::from_level(255).is_none());
    assert_eq!(BePriorityLevel::from_level(3).unwrap().level(), 3);
}

#[test]
fn level_constants() {
    assert_eq!(RtPriorityLevel::highest().level(), 0);
    assert_eq!(RtPriorityLevel::lowest().level(), 7);
    assert_eq!(BePriorityLevel::highest().level(), 0);
    assert_eq!(BePriorityLevel::fallback().level(), 4);
    assert_eq!(BePriorityLevel::lowest().level(), 7);
}

#[test]
fn encode_realtime_highest() {
    let c = Class::Realtime(RtPriorityLevel::highest());
    let p = Priority::new(c);
    assert_eq!(p.inner(), 0x2000);
    assert_eq!(p.class(), Some(c));
}

#[test]
fn encode_best_effort_fallback() {
    let c = Class::BestEffort(BePriorityLevel::fallback());
    let p = Priority::new(c);
    assert_eq!(p.inner(), 0x4004);
    assert_eq!(p.class(), Some(c));
}

#[test]
fn encode_idle() {
    let p = Priority::new(Class::Idle);
    assert_eq!(p.inner(), 0x6000);
    assert_eq!(p.class(), Some(Class::Idle));
}

#[test]
fn decode_unset_sentinel() {
    assert_eq!(Priority::from_inner(0x0000).class(), None);
}

#[test]
fn decode_out_of_range_realtime_data() {
    // Real-time kind with data = 10, above the 0-7 level range.
    assert_eq!(Priority::from_inner(0x200A).class(), None);
}

#[test]
fn decode_reserved_kinds() {
    // Kinds 4-7 are reserved; kind 0 with nonzero data is unset data noise.
    assert_eq!(Priority::from_inner(0x8000).class(), None);
    assert_eq!(Priority::from_inner(0xFFFF).class(), None);
    assert_eq!(Priority::from_inner(0x0005).class(), None);
}

#[test]
fn decode_idle_ignores_data_bits() {
    assert_eq!(Priority::from_inner(0x6123).class(), Some(Class::Idle));
}

#[test]
fn round_trip_all_levels() {
    for level in 0..=7u8 {
        let rt = Class::Realtime(RtPriorityLevel::from_level(level).unwrap());
        assert_eq!(Priority::new(rt).class(), Some(rt));
        let be = Class::BestEffort(BePriorityLevel::from_level(level).unwrap());
        assert_eq!(Priority::new(be).class(), Some(be));
    }
    assert_eq!(Priority::new(Class::Idle).class(), Some(Class::Idle));
}

#[test]
fn standard_priority() {
    assert_eq!(Priority::standard().inner(), 0);
    assert_eq!(Priority::standard().class(), None);
    assert_eq!(Priority::default(), Priority::standard());
}

#[test]
fn from_inner_is_verbatim() {
    assert_eq!(Priority::from_inner(0xBEEF).inner(), 0xBEEF);
    assert_eq!(Priority::from_inner(0x2003).inner(), 0x2003);
}

#[test]
fn level_order_is_reversed() {
    let rt0 = RtPriorityLevel::from_level(0).unwrap();
    let rt3 = RtPriorityLevel::from_level(3).unwrap();
    let rt7 = RtPriorityLevel::from_level(7).unwrap();
    assert!(rt0 > rt3);
    assert!(rt3 > rt7);
    assert!(rt0 > rt7);
    assert!(rt7 < rt0);
    assert!(rt3 == RtPriorityLevel::from_level(3).unwrap());

    let be1 = BePriorityLevel::from_level(1).unwrap();
    let be6 = BePriorityLevel::from_level(6).unwrap();
    assert!(be1 > be6);
    assert!(be6 < be1);
}

#[test]
fn cross_class_order() {
    // Even the lowest real-time level outranks the highest best-effort one,
    // and any best-effort priority outranks idle.
    let rt_lowest = Class::Realtime(RtPriorityLevel::lowest());
    let be_highest = Class::BestEffort(BePriorityLevel::highest());
    let be_lowest = Class::BestEffort(BePriorityLevel::lowest());
    assert!(rt_lowest > be_highest);
    assert!(be_lowest > Class::Idle);
    assert!(rt_lowest > Class::Idle);
}

#[test]
fn three_instances_total_order() {
    let rt = Class::Realtime(RtPriorityLevel::from_level(0).unwrap());
    let be = Class::BestEffort(BePriorityLevel::from_level(0).unwrap());
    assert!(rt > be);
    assert!(be > Class::Idle);
    assert!(rt > Class::Idle);
}

#[test]
fn within_class_order() {
    let rt_high = Class::Realtime(RtPriorityLevel::from_level(0).unwrap());
    let rt_low = Class::Realtime(RtPriorityLevel::from_level(7).unwrap());
    assert!(rt_high > rt_low);
    let be_high = Class::BestEffort(BePriorityLevel::from_level(2).unwrap());
    let be_low = Class::BestEffort(BePriorityLevel::from_level(5).unwrap());
    assert!(be_high > be_low);
    assert!(Class::Idle == Class::Idle);
}

#[test]
fn priority_order_follows_classes() {
    let rt = Priority::new(Class::Realtime(RtPriorityLevel::lowest()));
    let be = Priority::new(Class::BestEffort(BePriorityLevel::highest()));
    let idle = Priority::new(Class::Idle);
    assert!(rt > be);
    assert!(be > idle);
    assert!(rt > idle);
    assert!(idle < rt);
}

#[test]
fn priority_order_undefined_for_unrecognized_masks() {
    let valid = Priority::new(Class::Idle);
    let unset = Priority::standard();
    let reserved = Priority::from_inner(0x8000);
    assert_eq!(unset.partial_cmp(&valid), None);
    assert_eq!(valid.partial_cmp(&unset), None);
    assert_eq!(reserved.partial_cmp(&valid), None);
    assert_eq!(unset.partial_cmp(&reserved), None);
}
