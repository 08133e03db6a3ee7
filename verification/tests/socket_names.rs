use interprocess_converse::{socket_file_name, socket_name_from_uuid};

const SAMPLE: [u8; 16] = [
    0x67, 0xe5, 0x50, 0x44, 0x10, 0xb1, 0x42, 0x6f, 0x92, 0x47, 0xbb, 0x68, 0x0e, 0x5f, 0xe0, 0xc8,
];

#[test]
fn socket_name_has_the_hyphenated_uuid() {
    assert_eq!(
        socket_name_from_uuid(SAMPLE),
        "@67e55044-10b1-426f-9247-bb680e5fe0c8.sock"
    );
}

#[test]
fn socket_name_of_nil_uuid() {
    assert_eq!(
        socket_name_from_uuid([0u8; 16]),
        "@00000000-0000-0000-0000-000000000000.sock"
    );
}

#[test]
fn socket_name_of_max_uuid_is_lower_case() {
    assert_eq!(
        socket_name_from_uuid([0xffu8; 16]),
        "@ffffffff-ffff-ffff-ffff-ffffffffffff.sock"
    );
}

#[test]
fn socket_name_layout() {
    let name = socket_name_from_uuid(SAMPLE);
    assert_eq!(name.len(), 42);
    assert!(name.starts_with('@'));
    assert!(name.ends_with(".sock"));
    let bytes = name.as_bytes();
    for i in [9usize, 14, 19, 24] {
        assert_eq!(bytes[i], b'-');
    }
}

#[test]
fn distinct_uuids_give_distinct_names() {
    let mut other = SAMPLE;
    other[15] = 0xc9;
    assert_ne!(socket_name_from_uuid(SAMPLE), socket_name_from_uuid(other));
    let mut swapped = SAMPLE;
    swapped.swap(0, 1);
    assert_ne!(socket_name_from_uuid(SAMPLE), socket_name_from_uuid(swapped));
}

#[test]
fn socket_name_agrees_with_uuid_display() {
    let id = uuid::Uuid::new_v4();
    assert_eq!(socket_name_from_uuid(id.into_bytes()), format!("@{}.sock", id));
}

#[test]
fn socket_file_name_is_ipc_socket() {
    assert_eq!(socket_file_name(), "ipc_socket");
}
