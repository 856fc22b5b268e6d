use cloudevents::SpecVersion;

#[test]
fn version_tokens_are_exact() {
    assert_eq!(SpecVersion::V10.to_string(), "1.0");
    assert_eq!(SpecVersion::V03.to_string(), "0.3");
    assert_eq!(SpecVersion::V02.to_string(), "0.2");
}

#[test]
fn version_parse_accepts_only_the_tokens() {
    assert_eq!(SpecVersion::try_from("1.0".to_string()), Ok(SpecVersion::V10));
    assert_eq!(SpecVersion::try_from("0.3".to_string()), Ok(SpecVersion::V03));
    assert_eq!(SpecVersion::try_from("0.2".to_string()), Ok(SpecVersion::V02));
    assert_eq!(
        SpecVersion::try_from("1.1".to_string()),
        Err("Invalid specversion 1.1".to_string())
    );
    assert_eq!(
        SpecVersion::try_from(" 1.0".to_string()),
        Err("Invalid specversion  1.0".to_string())
    );
    assert_eq!(SpecVersion::try_from(String::new()), Err("Invalid specversion ".to_string()));
}

#[test]
fn version_is_read_by_try_into() {
    let version: Result<SpecVersion, String> = "0.3".to_string().try_into();
    assert_eq!(version, Ok(SpecVersion::V03));
    let version: Result<SpecVersion, String> = "3.0".to_string().try_into();
    assert_eq!(version, Err("Invalid specversion 3.0".to_string()));
}

#[test]
fn version_token_is_read_back() {
    for version in [SpecVersion::V02, SpecVersion::V03, SpecVersion::V10] {
        assert_eq!(SpecVersion::try_from(version.to_string()), Ok(version));
        assert_eq!(version.as_str(), version.to_string());
    }
}
