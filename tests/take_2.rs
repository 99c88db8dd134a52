use attributes::take_2::{Attr, Attribute, Duration, EntityAttribute, Event, StartTime};

#[test]
fn take_2_basic() {
    let e1 = Event {
        duration: 3,
        start_time: 5,
    };
    let e2 = Event {
        duration: 298,
        start_time: 89,
    };

    assert_eq!(e1.get_attr(Duration::type_to_value()), 3);
    assert_eq!(e1.get_attr(StartTime::type_to_value()), 5);
    assert_eq!(e2.get_attr(Duration::type_to_value()), 298);
    assert_eq!(e2.get_attr(StartTime::type_to_value()), 89);

    assert_eq!(Attr::<StartTime>::get(&e1), 5);
    assert_eq!(Attr::<StartTime>::get(&e2), 89);
}

#[test]
fn take_2_get_by_type_agrees_with_link() {
    for (d, s) in [(3, 5), (298, 89)] {
        let e = Event {
            duration: d,
            start_time: s,
        };
        assert_eq!(Attr::<Duration>::get(&e), e.get_attr(Duration::type_to_value()));
        assert_eq!(Attr::<StartTime>::get(&e), e.get_attr(StartTime::type_to_value()));
        assert_eq!(Attr::<Duration>::get(&e), d);
        assert_eq!(Attr::<StartTime>::get(&e), s);
    }
}

#[test]
fn take_2_link_ignores_the_witness() {
    let e = Event {
        duration: -4,
        start_time: 11,
    };
    assert_eq!(e.get_attr(&Duration {}), -4);
    assert_eq!(e.get_attr(&StartTime {}), 11);
    assert_eq!(e.get_attr(&Duration {}), e.get_attr(Duration::type_to_value()));
}

#[test]
fn take_2_reading_leaves_the_entity_unchanged() {
    let e = Event {
        duration: i32::MAX,
        start_time: i32::MIN,
    };
    assert_eq!(Attr::<Duration>::get(&e), i32::MAX);
    assert_eq!(Attr::<StartTime>::get(&e), i32::MIN);
    assert_eq!(e.get_attr(Duration::type_to_value()), i32::MAX);
    assert_eq!(e.duration, i32::MAX);
    assert_eq!(e.start_time, i32::MIN);
}
