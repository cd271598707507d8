use zigbee::collections::Vec as ItemVec;

#[test]
fn from_slice_clones_its_items() {
    let names = [String::from("router"), String::from("end device")];
    let v = ItemVec::<String, 4>::from_slice(&names).unwrap();
    assert_eq!(v.as_slice(), &names[..]);
}

#[test]
fn from_slice_refuses_more_items_than_it_holds() {
    assert!(ItemVec::<u8, 2>::from_slice(&[1, 2, 3]).is_err());
    assert_eq!(ItemVec::<u8, 3>::from_slice(&[1, 2, 3]).unwrap().as_slice(), &[1u8, 2, 3][..]);
}
