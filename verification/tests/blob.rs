use blobstore::blob::Blob;
use blobstore::hash;
use blobstore::hash::HashError;

const HELLO: &[u8] = b"hello\n";
const HELLO_HEX: &str = "f572d396fae9206628714fb2ce00f72e94f2258f";
const OTHER: &[u8] = b"other\n";
const OTHER_HEX: &str = "bea43e7033e19327183416f23fe2ee1b64c25f4a";

#[test]
fn blob_of_known_content_has_the_known_hash() {
    let blob = Blob::from_bytes(HELLO.to_vec());

    assert_eq!(*blob.hash(), hash::Hash::from_hex(HELLO_HEX).unwrap());
    assert_eq!(blob.hash().to_string(), HELLO_HEX);
}

#[test]
fn blob_keeps_its_content() {
    let blob = Blob::from_bytes(HELLO.to_vec());
    assert_eq!(blob.data().as_slice(), HELLO);
    assert_eq!(*blob.hash(), hash::Hash::digest(blob.data()));
}

#[test]
fn empty_blob() {
    let blob = Blob::from_bytes(Vec::new());
    assert!(blob.data().is_empty());
    assert_eq!(blob.hash().to_string(), "da39a3ee5e6b4b0d3255bfef95601890afd80709");
}

#[test]
fn blobs_of_the_same_content_are_equal() {
    let blob0 = Blob::from_bytes(HELLO.to_vec());
    let blob1 = Blob::from_bytes(b"hello\n".to_vec());

    assert!(blob0 == blob1);
    assert_eq!(*blob0.hash(), *blob1.hash());
}

#[test]
fn blobs_of_different_content_are_unequal() {
    let blob0 = Blob::from_bytes(HELLO.to_vec());
    let blob1 = Blob::from_bytes(OTHER.to_vec());

    assert!(blob0 != blob1);
    assert_eq!(blob1.hash().to_string(), OTHER_HEX);
}

#[test]
fn blob_equals_the_text_of_its_hash() {
    let blob = Blob::from_bytes(HELLO.to_vec());

    assert_eq!(blob.eq_hex(HELLO_HEX), Ok(true));
    assert_eq!(blob.eq_hex(&HELLO_HEX.to_uppercase()), Ok(true));
    assert_eq!(blob.eq_hex(OTHER_HEX), Ok(false));
}

#[test]
fn comparing_with_bad_text_reports_why() {
    let blob = Blob::from_bytes(HELLO.to_vec());

    assert_eq!(blob.eq_hex("g"), Err(HashError::Decoding));
    assert_eq!(blob.eq_hex(&HELLO_HEX[..39]), Err(HashError::Decoding));
    assert_eq!(blob.eq_hex(&HELLO_HEX[..38]), Err(HashError::Length));
    assert_eq!(blob.eq_hex(&format!("{}00", HELLO_HEX)), Err(HashError::Length));
}

#[test]
fn debug_string_shows_the_hash_and_not_the_content() {
    let blob = Blob::from_bytes(HELLO.to_vec());

    assert_eq!(
        blob.debug_string(),
        "Blob { hash: \"f572d396fae9206628714fb2ce00f72e94f2258f\" }"
    );
    assert!(!blob.debug_string().contains("hello"));
}
