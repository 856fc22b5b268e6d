use cloudevents::http::Headers;

#[test]
fn new_headers_are_empty() {
    let h = Headers::new();
    assert!(h.is_empty());
    assert_eq!(h.len(), 0);
    assert_eq!(h.get("a"), None);
}

#[test]
fn get_finds_the_first_whatever_the_case() {
    let mut h = Headers::new();
    h.append("Content-Type", b"a".to_vec());
    h.append("content-type", b"b".to_vec());
    h.append("x", b"c".to_vec());
    assert_eq!(h.len(), 3);
    assert_eq!(h.get("CONTENT-TYPE"), Some(&b"a".to_vec()));
    assert_eq!(h.get("content-type"), Some(&b"a".to_vec()));
    assert_eq!(h.get("X"), Some(&b"c".to_vec()));
    assert_eq!(h.get("content-typ"), None);
    assert_eq!(h.get("content-type "), None);
    assert!(h.contains_key("cOnTeNt-TyPe"));
    assert!(!h.contains_key("y"));
}

#[test]
fn case_folding_is_ascii_only() {
    let mut h = Headers::new();
    h.append("k[", b"1".to_vec());
    assert_eq!(h.get("k{"), None);
    assert_eq!(h.get("K["), Some(&b"1".to_vec()));
    h.append("@z", b"2".to_vec());
    assert_eq!(h.get("`Z"), None);
    assert_eq!(h.get("@Z"), Some(&b"2".to_vec()));
}

#[test]
fn remove_takes_out_every_header_of_the_name_and_keeps_the_order() {
    let mut h = Headers::new();
    h.append("a", b"1".to_vec());
    h.append("B", b"2".to_vec());
    h.append("c", b"3".to_vec());
    h.append("b", b"4".to_vec());
    h.append("d", b"5".to_vec());
    h.remove("b");
    assert_eq!(h.len(), 3);
    assert_eq!(h.get("b"), None);
    let names: Vec<Vec<u8>> = (0..h.len()).map(|i| h.entry(i).0.clone()).collect();
    assert_eq!(names, vec![b"a".to_vec(), b"c".to_vec(), b"d".to_vec()]);
    assert_eq!(h.entry(1).1, &b"3".to_vec());
    h.remove("zzz");
    assert_eq!(h.len(), 3);
}

#[test]
fn insert_replaces_the_headers_of_the_name() {
    let mut h = Headers::new();
    h.append("a", b"1".to_vec());
    h.append("A", b"2".to_vec());
    h.append("b", b"3".to_vec());
    h.insert("a", b"4".to_vec());
    assert_eq!(h.len(), 2);
    assert_eq!(h.get("a"), Some(&b"4".to_vec()));
    assert_eq!(h.entry(0).0, &b"b".to_vec());
    assert_eq!(h.entry(1).0, &b"a".to_vec());
}

#[test]
fn append_bytes_keeps_names_that_are_no_text() {
    let mut h = Headers::new();
    h.append_bytes(vec![0xff, b'A'], b"1".to_vec());
    assert_eq!(h.len(), 1);
    assert_eq!(h.entry(0).0, &vec![0xff, b'A']);
    assert_eq!(h.get("a"), None);
}
