use blink1::discovery::{device_count, first_match, is_blinker, matching_devices, Descriptor};

fn blinker() -> Option<Descriptor> {
    Some(Descriptor { vendor_id: 0x27b8, product_id: 0x01ed, num_configurations: 1 })
}

fn sample() -> Vec<Option<Descriptor>> {
    vec![
        Some(Descriptor { vendor_id: 0x046d, product_id: 0xc52b, num_configurations: 1 }),
        blinker(),
        None,
        Some(Descriptor { vendor_id: 0x27b8, product_id: 0x01ee, num_configurations: 1 }),
        Some(Descriptor { vendor_id: 0x27b8, product_id: 0x01ed, num_configurations: 0 }),
        blinker(),
    ]
}

#[test]
fn blinker_needs_ids_and_a_configuration() {
    assert!(is_blinker(&blinker()));
    assert!(!is_blinker(&None));
    assert!(!is_blinker(&Some(Descriptor { vendor_id: 0x27b8, product_id: 0x01ed, num_configurations: 0 })));
    assert!(!is_blinker(&Some(Descriptor { vendor_id: 0x27b9, product_id: 0x01ed, num_configurations: 1 })));
    assert!(!is_blinker(&Some(Descriptor { vendor_id: 0x27b8, product_id: 0x01ec, num_configurations: 1 })));
}

#[test]
fn discovery_keeps_only_matches_in_order() {
    assert_eq!(matching_devices(&sample()), vec![1, 5]);
    assert_eq!(device_count(&sample()), 2);
    assert_eq!(first_match(&sample()), Some(1));
}

#[test]
fn discovery_of_nothing() {
    let none: Vec<Option<Descriptor>> = vec![None, None];
    assert_eq!(matching_devices(&none), Vec::<usize>::new());
    assert_eq!(device_count(&none), 0);
    assert_eq!(first_match(&none), None);
    assert_eq!(first_match(&Vec::new()), None);
}
