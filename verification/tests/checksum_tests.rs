use flo_core::checksum::{collect_items, import_item, to_hex, MapChecksumContent};

#[test]
fn to_hex_renders_two_digits_per_byte() {
    assert_eq!(to_hex(&vec![]), "");
    assert_eq!(to_hex(&vec![0x00]), "00");
    assert_eq!(to_hex(&vec![0x0F]), "0f");
    assert_eq!(to_hex(&vec![0xFF]), "ff");
    assert_eq!(to_hex(&vec![0xDE, 0xAD, 0xBE, 0xEF]), "deadbeef");
    assert_eq!(to_hex(&vec![0x01, 0x23, 0x45, 0x67, 0x89, 0xAB, 0xCD, 0xEF]), "0123456789abcdef");
}

#[test]
fn import_item_keeps_checksum_and_hexes_digest() {
    let content = MapChecksumContent {
        sha1: vec![0x12, 0x34, 0xAB],
        path: "maps/sample.w3x".to_string(),
        checksum: 0xCAFE_F00D,
    };
    let item = import_item(&content);
    assert_eq!(item.sha1, "1234ab");
    assert_eq!(item.checksum, 0xCAFE_F00D);
}

#[test]
fn collect_items_aggregates_every_record() {
    let contents = vec![
        MapChecksumContent {
            sha1: vec![0x00, 0x01],
            path: "a.json".to_string(),
            checksum: 1,
        },
        MapChecksumContent {
            sha1: vec![0xFE],
            path: "b.json".to_string(),
            checksum: 2,
        },
    ];
    let items = collect_items(&contents);
    assert_eq!(items.len(), 2);
    assert_eq!(items[0].sha1, "0001");
    assert_eq!(items[0].checksum, 1);
    assert_eq!(items[1].sha1, "fe");
    assert_eq!(items[1].checksum, 2);
}
