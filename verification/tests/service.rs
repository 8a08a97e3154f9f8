use upld::cache::EdgeCache;
use upld::ident::derive_identifier;
use upld::info::{padding_bytes, padding_width};
use upld::keys::{make_key, make_metrics_key};
use upld::retrieve::{handle_retrieve, Retrieved, Tier};
use upld::route::{classify_request, last_path_segment, path_identifier, Method, RequestKind};
use upld::stats::{current_count, u64_to_dec};
use upld::store::ContentStore;
use upld::upload::{handle_upload, upload_location, validate_content, ValidationError};
use upld::{ID_LENGTH, MAX_CONTENT_SIZE, MIN_CONTENT_SIZE};

fn payload(len: usize) -> Vec<u8> {
    (0..len).map(|i| (i % 251) as u8).collect()
}

#[test]
fn identifier_is_deterministic() {
    let b = payload(40);
    let a = derive_identifier(&b);
    let c = derive_identifier(&b);
    assert_eq!(a, c);
    assert_eq!(a.len(), ID_LENGTH);
}

#[test]
fn identifier_matches_hash_encoding() {
    let b = payload(40);
    let id = derive_identifier(&b);
    let expected = bs58::encode(blake3::hash(&b).as_bytes()).into_string();
    assert_eq!(id, expected.as_bytes()[..ID_LENGTH].to_vec());
}

#[test]
fn identifier_stays_in_base58_alphabet() {
    // '0' is not a base-58 digit, so hashing and encoding a body of '0'
    // characters can never hand the body's own bytes back.
    let b = vec![b'0'; 40];
    let id = derive_identifier(&b);
    assert_ne!(id, b"00000000".to_vec());
    for d in &id {
        assert!(!matches!(*d, b'0' | b'O' | b'I' | b'l'));
    }
}

#[test]
fn identifier_depends_on_content() {
    let mut b1 = payload(40);
    let mut b2 = payload(40);
    b2[39] = b1[39].wrapping_add(1);
    assert_ne!(derive_identifier(&b1), derive_identifier(&b2));
    b1[0] = b1[0].wrapping_add(1);
    assert_ne!(derive_identifier(&b1), derive_identifier(&b2));
}

#[test]
fn validation_boundaries() {
    assert_eq!(validate_content(&Vec::new()), Some(ValidationError::EmptyBody));
    assert_eq!(validate_content(&payload(1)), Some(ValidationError::TooSmall));
    assert_eq!(
        validate_content(&payload(MIN_CONTENT_SIZE - 1)),
        Some(ValidationError::TooSmall)
    );
    assert_eq!(validate_content(&payload(MIN_CONTENT_SIZE)), None);
    assert_eq!(validate_content(&payload(MAX_CONTENT_SIZE)), None);
    assert_eq!(
        validate_content(&payload(MAX_CONTENT_SIZE + 1)),
        Some(ValidationError::TooLarge)
    );
}

#[test]
fn upload_rejects_invalid_bodies_without_writing() {
    let mut store = ContentStore::new();
    assert_eq!(
        handle_upload(&mut store, Vec::new(), 1),
        Err(ValidationError::EmptyBody)
    );
    assert_eq!(
        handle_upload(&mut store, payload(MIN_CONTENT_SIZE - 1), 2),
        Err(ValidationError::TooSmall)
    );
    assert_eq!(
        handle_upload(&mut store, payload(MAX_CONTENT_SIZE + 1), 3),
        Err(ValidationError::TooLarge)
    );
    assert_eq!(current_count(&store), 0);
}

#[test]
fn upload_boundary_sizes_succeed() {
    let mut store = ContentStore::new();
    let small = handle_upload(&mut store, payload(MIN_CONTENT_SIZE), 1).unwrap();
    assert_eq!(small.len(), ID_LENGTH);
    let large = handle_upload(&mut store, payload(MAX_CONTENT_SIZE), 2).unwrap();
    assert_eq!(large.len(), ID_LENGTH);
    assert_eq!(current_count(&store), 2);
}

#[test]
fn duplicate_upload_counts_once() {
    let mut store = ContentStore::new();
    let b = payload(64);
    let first = handle_upload(&mut store, b.clone(), 10).unwrap();
    assert_eq!(current_count(&store), 1);
    let second = handle_upload(&mut store, b, 20).unwrap();
    assert_eq!(first, second);
    assert_eq!(current_count(&store), 1);
}

#[test]
fn round_trip_returns_uploaded_bytes() {
    let mut store = ContentStore::new();
    let mut cache = EdgeCache::new();
    let b = payload(100);
    let id = handle_upload(&mut store, b.clone(), 5).unwrap();
    match handle_retrieve(&mut cache, &store, &id) {
        Retrieved::Found(_, served) => assert_eq!(served, b),
        Retrieved::NotFound => panic!("freshly uploaded content not found"),
    }
}

#[test]
fn first_retrieval_from_origin_then_cache() {
    let mut store = ContentStore::new();
    let mut cache = EdgeCache::new();
    let b = payload(48);
    let id = handle_upload(&mut store, b.clone(), 5).unwrap();
    assert!(!cache.contains(&make_key(&id)));
    match handle_retrieve(&mut cache, &store, &id) {
        Retrieved::Found(tier, served) => {
            assert_eq!(tier, Tier::Origin);
            assert_eq!(served, b);
        }
        Retrieved::NotFound => panic!("freshly uploaded content not found"),
    }
    assert!(cache.contains(&make_key(&id)));
    match handle_retrieve(&mut cache, &store, &id) {
        Retrieved::Found(tier, served) => {
            assert_eq!(tier, Tier::Cache);
            assert_eq!(served, b);
        }
        Retrieved::NotFound => panic!("cached content not found"),
    }
}

#[test]
fn malformed_identifier_is_not_found() {
    let mut store = ContentStore::new();
    let mut cache = EdgeCache::new();
    handle_upload(&mut store, payload(40), 1).unwrap();
    for id in [&b""[..], &b"abcdefg"[..], &b"abcdefghi"[..]] {
        let id = id.to_vec();
        assert_eq!(handle_retrieve(&mut cache, &store, &id), Retrieved::NotFound);
        assert!(!cache.contains(&make_key(&id)));
    }
}

#[test]
fn unknown_identifier_is_not_found() {
    let mut store = ContentStore::new();
    let mut cache = EdgeCache::new();
    handle_upload(&mut store, payload(40), 1).unwrap();
    let id = b"abcdefgh".to_vec();
    assert_eq!(handle_retrieve(&mut cache, &store, &id), Retrieved::NotFound);
}

#[test]
fn counter_starts_at_zero_and_never_decreases() {
    let mut store = ContentStore::new();
    let mut cache = EdgeCache::new();
    assert_eq!(current_count(&store), 0);
    let mut last = 0;
    for i in 0..5u8 {
        let mut b = payload(40);
        b[0] = i;
        let id = handle_upload(&mut store, b, i as u64).unwrap();
        let after_upload = current_count(&store);
        assert!(after_upload >= last);
        handle_retrieve(&mut cache, &store, &id);
        let after_retrieve = current_count(&store);
        assert!(after_retrieve >= after_upload);
        last = after_retrieve;
    }
    assert_eq!(last, 5);
}

#[test]
fn example_session() {
    let mut store = ContentStore::new();
    let mut cache = EdgeCache::new();
    let host = b"upld.is".to_vec();

    // Both example texts are below the minimum size.
    assert_eq!(
        handle_upload(&mut store, b"testing\n".to_vec(), 1),
        Err(ValidationError::TooSmall)
    );
    assert_eq!(
        handle_upload(&mut store, b"testing testing 123".to_vec(), 2),
        Err(ValidationError::TooSmall)
    );

    let b = payload(40);
    let id = handle_upload(&mut store, b.clone(), 3).unwrap();
    assert_eq!(id.len(), ID_LENGTH);
    let url = upload_location(&host, &id, None);
    let mut expected = b"https://upld.is/".to_vec();
    expected.extend_from_slice(&id);
    expected.push(b'\n');
    assert_eq!(url, expected);

    match handle_retrieve(&mut cache, &store, &id) {
        Retrieved::Found(_, served) => assert_eq!(served, b),
        Retrieved::NotFound => panic!("uploaded content not found"),
    }
    let zeros = b"00000000".to_vec();
    assert_eq!(handle_retrieve(&mut cache, &store, &zeros), Retrieved::NotFound);
}

#[test]
fn upload_location_shapes() {
    let host = b"upld.is".to_vec();
    let id = b"abcdefgh".to_vec();
    assert_eq!(
        upload_location(&host, &id, None),
        b"https://upld.is/abcdefgh\n".to_vec()
    );
    assert_eq!(
        upload_location(&host, &id, Some(&b"notes.txt".to_vec())),
        b"https://upld.is/abcdefgh/notes.txt\n".to_vec()
    );
    assert_eq!(
        upload_location(&host, &id, Some(&Vec::new())),
        b"https://upld.is/abcdefgh\n".to_vec()
    );
}

#[test]
fn storage_keys() {
    assert_eq!(make_key(&b"abcdefgh".to_vec()), b"file_abcdefgh".to_vec());
    assert_eq!(make_metrics_key(), b"_upload_metrics".to_vec());
}

#[test]
fn store_insert_overwrites() {
    let mut store = ContentStore::new();
    let key = b"file_abcdefgh".to_vec();
    store.insert(key.clone(), b"one".to_vec(), 7);
    store.insert(key.clone(), b"two".to_vec(), 7);
    assert_eq!(store.lookup(&key), Some(&b"two".to_vec()));
    assert!(store.contains(&key));
    assert!(!store.contains(&b"file_aaaaaaaa".to_vec()));
}

#[test]
fn store_append_concatenates_and_counts() {
    let mut store = ContentStore::new();
    let key = make_metrics_key();
    store.append(key.clone(), b"a,1".to_vec());
    assert_eq!(current_count(&store), 1);
    store.append(key.clone(), b"b,2".to_vec());
    assert_eq!(current_count(&store), 2);
    assert_eq!(store.lookup(&key), Some(&b"a,1b,2".to_vec()));
}

#[test]
fn decimal_rendering() {
    assert_eq!(u64_to_dec(0), b"0".to_vec());
    assert_eq!(u64_to_dec(7), b"7".to_vec());
    assert_eq!(u64_to_dec(10), b"10".to_vec());
    assert_eq!(u64_to_dec(1234567), b"1234567".to_vec());
    assert_eq!(
        u64_to_dec(u64::MAX),
        b"18446744073709551615".to_vec()
    );
}

#[test]
fn header_padding() {
    // "upld.is" is 7 characters: (64 - 21) / 2 + 1 = 22 columns.
    assert_eq!(padding_width(7), 22);
    assert_eq!(padding_width(0), 33);
    // A host too wide to centre still gets the minimum two columns.
    assert_eq!(padding_width(21), 2);
    assert_eq!(padding_width(30), 2);
    let pad = padding_bytes(7);
    assert_eq!(pad, vec![b' '; 22]);
}

#[test]
fn path_parsing() {
    assert_eq!(path_identifier(&b"/abcdefgh".to_vec()), b"abcdefgh".to_vec());
    assert_eq!(
        path_identifier(&b"/abcdefgh/notes.txt".to_vec()),
        b"abcdefgh".to_vec()
    );
    assert_eq!(path_identifier(&b"/".to_vec()), b"".to_vec());
    assert_eq!(last_path_segment(&b"/notes.txt".to_vec()), b"notes.txt".to_vec());
    assert_eq!(last_path_segment(&b"/a/b/c".to_vec()), b"c".to_vec());
    assert_eq!(last_path_segment(&b"/".to_vec()), b"".to_vec());
}

#[test]
fn request_classification() {
    assert_eq!(
        classify_request(Method::Get, &b"/".to_vec()),
        RequestKind::ShowInfo
    );
    assert_eq!(
        classify_request(Method::Get, &b"/abcdefgh".to_vec()),
        RequestKind::Retrieve
    );
    assert_eq!(
        classify_request(Method::Put, &b"/notes.txt".to_vec()),
        RequestKind::Upload
    );
    assert_eq!(
        classify_request(Method::Other, &b"/".to_vec()),
        RequestKind::Forbidden
    );
}
