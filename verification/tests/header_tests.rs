use woof::strutil::{join_char, split_char, trim};
use woof::tus::{
    Extension, TusExtensionHeader, TusResumableHeader, TusVersionHeader, UploadLengthHeader,
    UploadOffsetHeader, Version,
};

#[test]
fn decode_with_valid_header() {
    let values = vec!["1.2.3,4.5.6".to_string()];
    let tus_version = TusVersionHeader::decode(&values);
    assert!(tus_version.is_ok());
    let tus_version = tus_version.unwrap();
    assert_eq!(tus_version.0.len(), 2);
    assert_eq!(tus_version.0[0].display_string(), "1.2.3");
    assert_eq!(tus_version.0[1].display_string(), "4.5.6");
}

#[test]
fn decode_with_invalid_header() {
    let values = vec!["1.2,4.5.6".to_string()];
    let tus_version = TusVersionHeader::decode(&values);
    assert!(tus_version.is_err());
}

#[test]
fn version_encode() {
    let tus_version = TusVersionHeader(vec![
        Version::new("1.0.0").unwrap(),
        Version::new("0.2.2").unwrap(),
        Version::new("0.2.1").unwrap(),
    ]);
    assert_eq!(tus_version.encode(), "1.0.0,0.2.2,0.2.1");
}

#[test]
fn version_header_trims_each_segment() {
    let values = vec![" 1.2.3 ,\t4.5.6".to_string()];
    let decoded = TusVersionHeader::decode(&values).unwrap();
    assert_eq!(decoded.0.len(), 2);
    assert_eq!(decoded.0[1].display_string(), "4.5.6");
}

#[test]
fn version_header_collects_segments_across_values() {
    let values = vec!["1.0.0".to_string(), "2.0.0,3.0.0".to_string()];
    let decoded = TusVersionHeader::decode(&values).unwrap();
    assert_eq!(decoded.0.len(), 3);
    assert_eq!(decoded.0[2].display_string(), "3.0.0");
}

#[test]
fn extension_header_recognises_only_creation() {
    let ok = TusExtensionHeader::decode(&vec!["creation, creation".to_string()]).unwrap();
    assert_eq!(ok.0.len(), 2);
    assert!(matches!(ok.0[0], Extension::Creation));
    assert!(TusExtensionHeader::decode(&vec!["termination".to_string()]).is_err());
}

#[test]
fn extension_header_encodes_labels() {
    let header = TusExtensionHeader(vec![Extension::Creation, Extension::Termination]);
    assert_eq!(header.encode(), "creation,termination");
    assert_eq!(Extension::CreationWithUpload.label(), "creation-with-upload");
    assert_eq!(TusExtensionHeader::name(), "tus-extension");
}

#[test]
fn resumable_header_takes_the_first_value() {
    let decoded = TusResumableHeader::decode(&vec!["1.0.0".to_string()]).unwrap();
    assert_eq!(decoded.0.display_string(), "1.0.0");
    assert_eq!(decoded.encode(), "1.0.0");
    assert!(TusResumableHeader::decode(&Vec::new()).is_err());
    assert!(TusResumableHeader::decode(&vec!["1.0".to_string()]).is_err());
    assert_eq!(TusResumableHeader::name(), "tus-resumable");
}

#[test]
fn upload_length_header_is_a_decimal_number() {
    let decoded = UploadLengthHeader::decode(&vec!["1048576".to_string()]).unwrap();
    assert_eq!(decoded.0, 1048576);
    assert_eq!(decoded.encode(), "1048576");
    assert!(UploadLengthHeader::decode(&Vec::new()).is_err());
    assert!(UploadLengthHeader::decode(&vec!["-1".to_string()]).is_err());
    assert!(UploadLengthHeader::decode(&vec!["12 MB".to_string()]).is_err());
    assert_eq!(UploadLengthHeader::name(), "upload-length");
}

#[test]
fn upload_offset_header_is_a_decimal_number() {
    let decoded = UploadOffsetHeader::decode(&vec!["0".to_string()]).unwrap();
    assert_eq!(decoded.0, 0);
    assert_eq!(decoded.encode(), "0");
    assert!(UploadOffsetHeader::decode(&vec!["x".to_string()]).is_err());
    assert_eq!(UploadOffsetHeader::name(), "upload-offset");
}

#[test]
fn split_keeps_empty_segments() {
    let parts = split_char("a,,b", ',');
    assert_eq!(parts, vec!["a".to_string(), "".to_string(), "b".to_string()]);
    assert_eq!(split_char("", ','), vec!["".to_string()]);
    assert_eq!(split_char("abc", ','), vec!["abc".to_string()]);
}

#[test]
fn trim_removes_surrounding_whitespace() {
    assert_eq!(trim("  x\ty "), "x\ty");
    assert_eq!(trim(" \t\r\n"), "");
    assert_eq!(trim("x"), "x");
}

#[test]
fn join_is_the_inverse_of_split() {
    let parts = vec!["a".to_string(), "".to_string(), "b".to_string()];
    let joined = join_char(&parts, ",", ',');
    assert_eq!(joined, "a,,b");
    assert_eq!(split_char(&joined, ','), parts);
}
