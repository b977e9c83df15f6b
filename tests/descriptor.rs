use rx52::{
    filter_x52_descriptors, get_x52_type_from_descriptor, is_descriptor_x52, match_descriptor,
    possible_descriptors, ErrorId, X52DeviceType, SAITEK_ID,
};

#[test]
fn possible_descriptors_ok() {
    for i in possible_descriptors() {
        assert_eq!(i.vendor(), &SAITEK_ID);
    }
}

#[test]
fn catalog_lists_the_three_products() {
    let all = possible_descriptors();
    assert_eq!(*all[0].product(), 0x0225);
    assert_eq!(*all[1].product(), 0x075C);
    assert_eq!(*all[2].product(), 0x0762);
    assert_eq!(*all[0].x52_type(), X52DeviceType::X52);
    assert_eq!(*all[1].x52_type(), X52DeviceType::X52);
    assert_eq!(*all[2].x52_type(), X52DeviceType::X52Pro);
    assert_eq!(all[0].description(), "X52 Flight Controller");
    assert_eq!(all[2].description(), "Saitek X52 Pro Flight Control System");
}

#[test]
fn descriptors_equal_by_type() {
    let all = possible_descriptors();
    // different product IDs, same type
    assert!(all[0] == all[1]);
    assert_eq!(all[0].x52_type(), all[1].x52_type());
    assert_ne!(all[0].product(), all[1].product());
    assert!(all[0] != all[2]);
    assert!(all[1] != all[2]);
}

#[test]
fn match_descriptor_finds_known_ids() {
    let pro = match_descriptor(0x06A3, 0x0762).unwrap();
    assert_eq!(*pro.x52_type(), X52DeviceType::X52Pro);
    assert_eq!(*pro.product(), 0x0762);
    let base = match_descriptor(0x06A3, 0x075C).unwrap();
    assert_eq!(*base.x52_type(), X52DeviceType::X52);
    assert!(match_descriptor(0x06A3, 0x0763).is_none());
    assert!(match_descriptor(0x06A4, 0x0762).is_none());
}

#[test]
fn is_descriptor_x52_checks_vendor_and_product() {
    assert!(is_descriptor_x52(0x06A3, 0x0225));
    assert!(!is_descriptor_x52(0x0225, 0x06A3));
    assert!(!is_descriptor_x52(0, 0));
}

#[test]
fn type_from_descriptor() {
    assert_eq!(get_x52_type_from_descriptor(0x06A3, 0x0762).unwrap(), X52DeviceType::X52Pro);
    assert_eq!(get_x52_type_from_descriptor(0x06A3, 0x0225).unwrap(), X52DeviceType::X52);
    let err = get_x52_type_from_descriptor(0x046d, 0xc52b).unwrap_err();
    assert_eq!(err.id(), Some(ErrorId::DeviceNotX52));
    assert_eq!(err.to_string(), "The given descriptor ID 046d:c52b is not an X52");
}

#[test]
fn filter_keeps_x52s_in_order() {
    let ids = vec![(0x1234, 0x0001), (0x06A3, 0x0762), (0x06A3, 0x0225), (0x06A3, 0x9999)];
    let found = filter_x52_descriptors(&ids);
    assert_eq!(found.len(), 2);
    assert_eq!(*found[0].product(), 0x0762);
    assert_eq!(*found[1].product(), 0x0225);
    assert!(filter_x52_descriptors(&vec![]).is_empty());
}
