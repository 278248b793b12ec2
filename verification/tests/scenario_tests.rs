use acd::cache::NodeCache;
use acd::digest::{accept_upload, md5_hex};
use acd::responses::{interpret_download_response, interpret_mkdir_response, interpret_upload_response};
use acd::resolver::{Advance, Walker};
use acd::{Error, NodeId};

fn nid(s: &str) -> NodeId {
    NodeId::new(s.to_string())
}

/// Upload `data` under `parent`, against a scripted server that stores
/// content and answers like the real one: 201 with the node id and digest
/// for a new name, 409 for an existing one.
fn scripted_upload(
    store: &mut Vec<(String, Vec<u8>)>,
    cache: &mut NodeCache,
    parent: &NodeId,
    name: &str,
    data: &[u8],
    new_id: &str,
) -> Result<NodeId, Error> {
    let expected = md5_hex(data);
    let (status, body) = if store.iter().any(|(n, _)| n == name) {
        (409, b"conflict".to_vec())
    } else {
        store.push((name.to_string(), data.to_vec()));
        let body = format!(
            r#"{{"id":"{}","contentProperties":{{"md5":"{}"}}}}"#,
            new_id, expected
        );
        (201, body.into_bytes())
    };
    let (id, reported) = interpret_upload_response(status, body)?;
    accept_upload(cache, parent, &name.to_string(), id, reported, &expected)
}

#[test]
fn end_to_end_create_upload_resolve_download() {
    let root = nid("ROOT");
    let mut cache = NodeCache::new();
    let mut store: Vec<(String, Vec<u8>)> = Vec::new();

    // Create the path /a/b; the scripted server creates each folder.
    let mut next_dir: u32 = 0;
    let mut w = Walker::start_walk(&root, None, acd::paths::parse_path("/a/b").unwrap());
    let dir_b = loop {
        match w.advance(&cache) {
            Advance::AtEnd(id) => break id,
            Advance::Miss { .. } => {
                next_dir += 1;
                let body = format!(r#"{{"id":"dir{}"}}"#, next_dir).into_bytes();
                let made = interpret_mkdir_response(201, body).unwrap();
                w.supply_found(&mut cache, &made);
            }
        }
    };
    assert_eq!(dir_b, nid("dir2"));

    // Upload four bytes as `small` and a mebibyte as `large` under b.
    let small_data: Vec<u8> = vec![4, 8, 15, 16];
    let large_data: Vec<u8> = (0..1024 * 1024).map(|i| (i * 31 + 7) as u8).collect();
    let small = scripted_upload(&mut store, &mut cache, &dir_b, "small", &small_data, "S").unwrap();
    let large = scripted_upload(&mut store, &mut cache, &dir_b, "large", &large_data, "L").unwrap();
    assert_eq!(small, nid("S"));
    assert_eq!(large, nid("L"));

    // Resolving a/b/small yields the identifier the upload returned.
    let mut w2 = Walker::start_walk(&root, None, acd::paths::parse_path("a/b/small").unwrap());
    match w2.advance(&cache) {
        Advance::AtEnd(id) => assert_eq!(id, small),
        Advance::Miss { .. } => panic!("the uploaded file must resolve from the cache"),
    }

    // Downloading the stored content returns exactly the original bytes.
    let body = store.iter().find(|(n, _)| n == "small").unwrap().1.clone();
    assert_eq!(interpret_download_response(200, body).unwrap(), small_data);

    // Re-uploading `small` with different content yields NodeExists, and
    // the original content stays retrievable unchanged.
    let r = scripted_upload(
        &mut store,
        &mut cache,
        &dir_b,
        "small",
        b"different content",
        "S2",
    );
    assert!(matches!(r, Err(Error::NodeExists)));
    let body = store.iter().find(|(n, _)| n == "small").unwrap().1.clone();
    assert_eq!(interpret_download_response(200, body).unwrap(), small_data);

    // The large upload survives the round trip too.
    let body = store.iter().find(|(n, _)| n == "large").unwrap().1.clone();
    assert_eq!(interpret_download_response(200, body).unwrap(), large_data);
}

/// A corrupted store: the server reports a digest other than that of the
/// bytes sent, so the upload must surface an integrity error and cache
/// nothing.
#[test]
fn corrupt_upload_surfaces_an_integrity_error() {
    let mut cache = NodeCache::new();
    let expected = md5_hex(b"the real bytes");
    let body = br#"{"id":"X","contentProperties":{"md5":"d41d8cd98f00b204e9800998ecf8427e"}}"#
        .to_vec();
    let (id, reported) = interpret_upload_response(201, body).unwrap();
    let r = accept_upload(
        &mut cache,
        &nid("P"),
        &"f".to_string(),
        id,
        reported,
        &expected,
    );
    assert!(matches!(r, Err(Error::IntegrityError { .. })));
    assert_eq!(cache.len(), 0);
}
