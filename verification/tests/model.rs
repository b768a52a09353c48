use fishmael_cache::model::{
    hash_blob, reference_ids, unwrap_flags, unwrap_id, unwrap_timestamp, Channel, Emoji, Flags,
    Id, ImageHash, Member, Referenced, Role, Sticker, Timestamp, User,
};

#[test]
fn absent_wrappers_unwrap_to_nothing() {
    assert_eq!(unwrap_id(None), None);
    assert_eq!(unwrap_flags(None), None);
    assert_eq!(unwrap_timestamp(None), None);
    assert_eq!(hash_blob(None), None);
}

#[test]
fn present_wrappers_unwrap_to_their_primitive() {
    assert_eq!(unwrap_id(Some(Id { value: 77 })), Some(77));
    assert_eq!(unwrap_flags(Some(Flags { bits: 0b1010 })), Some(10));
    assert_eq!(unwrap_timestamp(Some(Timestamp { micros: -1 })), Some(-1));
}

#[test]
fn zero_inside_a_wrapper_is_not_absence() {
    assert_eq!(unwrap_id(Some(Id { value: 0 })), Some(0));
    assert_eq!(unwrap_flags(Some(Flags { bits: 0 })), Some(0));
    assert_eq!(unwrap_timestamp(Some(Timestamp { micros: 0 })), Some(0));
}

#[test]
fn hash_blob_copies_all_sixteen_bytes_in_order() {
    let bytes = [15, 14, 13, 12, 11, 10, 9, 8, 7, 6, 5, 4, 3, 2, 1, 0];
    assert_eq!(hash_blob(Some(ImageHash { bytes })), Some(bytes.to_vec()));
    assert_eq!(hash_blob(Some(ImageHash { bytes: [0; 16] })), Some(vec![0; 16]));
}

#[test]
fn every_kind_of_entity_is_referred_to_by_its_id() {
    assert_eq!(Channel { id: Id { value: 1 } }.reference_id(), 1);
    assert_eq!(Emoji { id: Id { value: 2 } }.reference_id(), 2);
    assert_eq!(Role { id: Id { value: 3 } }.reference_id(), 3);
    assert_eq!(Sticker { id: Id { value: 4 } }.reference_id(), 4);
    assert_eq!(Member { user: User { id: Id { value: 5 } } }.reference_id(), 5);
}

#[test]
fn reference_ids_keep_order_and_repetition() {
    let roles: Vec<Role> =
        [3u64, 1, 3, 2].iter().map(|id| Role { id: Id { value: *id } }).collect();
    assert_eq!(reference_ids(&roles), vec![3, 1, 3, 2]);
}

#[test]
fn no_entities_give_no_ids() {
    let channels: Vec<Channel> = Vec::new();
    assert_eq!(reference_ids(&channels), Vec::<u64>::new());
}
