use paywall::cache::CacheKey;
use paywall::id::{get_user_id_from_request, Id};

#[test]
fn an_identifier_is_written_in_five_hyphenated_groups() {
    let id = Id { value: 0xa1a2a3a4b1b2c1c2d1d2d3d4d5d6d7d8 };
    assert_eq!(id.to_text(), "a1a2a3a4-b1b2-c1c2-d1d2-d3d4d5d6d7d8");
}

#[test]
fn the_smallest_and_the_largest_identifier() {
    assert_eq!(Id { value: 0 }.to_text(), "00000000-0000-0000-0000-000000000000");
    assert_eq!(Id { value: u128::MAX }.to_text(), "ffffffff-ffff-ffff-ffff-ffffffffffff");
    assert_eq!(Id { value: 0x0123456789abcdef }.to_text(), "00000000-0000-0000-0123-456789abcdef");
}

#[test]
fn the_text_form_is_the_one_of_the_uuid_crate() {
    for value in [0u128, 1, 0xdead_beef, u128::MAX / 3, 0x550e8400e29b41d4a716446655440000] {
        let expected = uuid::Uuid::from_u128(value).hyphenated().to_string();
        assert_eq!(Id { value }.to_text(), expected);
        assert_eq!(expected.len(), 36);
    }
}

#[test]
fn a_cache_key_names_content_first_and_user_second() {
    let key = CacheKey {
        content_id: Id { value: 0x550e8400e29b41d4a716446655440000 },
        user_id: Id { value: 0xa1a2a3a4b1b2c1c2d1d2d3d4d5d6d7d8 },
    };
    assert_eq!(
        key.text(),
        "content_550e8400-e29b-41d4-a716-446655440000_user_a1a2a3a4-b1b2-c1c2-d1d2-d3d4d5d6d7d8"
    );
    assert_eq!(key.text().len(), 86);
}

#[test]
fn swapping_user_and_content_changes_the_key() {
    let a = Id { value: 7 };
    let b = Id { value: 8 };
    let one = CacheKey { content_id: a, user_id: b };
    let other = CacheKey { content_id: b, user_id: a };
    assert_ne!(one.text(), other.text());
    assert_eq!(one.text(), CacheKey { content_id: a, user_id: b }.text());
}

#[test]
fn keys_of_different_pairs_never_collide() {
    let ids = [0u128, 1, 16, 0x10000, u128::MAX, 1 << 127, 0xabcdef];
    let mut seen: Vec<(String, (u128, u128))> = Vec::new();
    for c in ids {
        for u in ids {
            let text = CacheKey { content_id: Id { value: c }, user_id: Id { value: u } }.text();
            for (other, pair) in &seen {
                assert!(other != &text, "{pair:?} and {:?} share {text}", (c, u));
            }
            seen.push((text, (c, u)));
        }
    }
    assert_eq!(seen.len(), 49);
}

#[test]
fn a_request_without_identity_has_no_user() {
    assert_eq!(get_user_id_from_request(None), None);
}

#[test]
fn a_readable_identity_is_the_user() {
    assert_eq!(
        get_user_id_from_request(Some("a1a2a3a4-b1b2-c1c2-d1d2-d3d4d5d6d7d8")),
        Some(Id { value: 0xa1a2a3a4b1b2c1c2d1d2d3d4d5d6d7d8 })
    );
    assert_eq!(
        get_user_id_from_request(Some("A1A2A3A4B1B2C1C2D1D2D3D4D5D6D7D8")),
        Some(Id { value: 0xa1a2a3a4b1b2c1c2d1d2d3d4d5d6d7d8 })
    );
}

#[test]
fn an_unreadable_identity_is_no_user() {
    assert_eq!(get_user_id_from_request(Some("")), None);
    assert_eq!(get_user_id_from_request(Some("alice")), None);
    assert_eq!(get_user_id_from_request(Some("a1a2a3a4-b1b2-c1c2-d1d2-d3d4d5d6d7d")), None);
}

#[test]
fn writing_and_reading_an_identifier_gives_it_back() {
    for value in [0u128, 42, u128::MAX, 0x550e8400e29b41d4a716446655440000] {
        let text = Id { value }.to_text();
        assert_eq!(get_user_id_from_request(Some(text.as_str())), Some(Id { value }));
    }
}
