use podlet::secret::{ParseSecretError, Secret};

#[test]
fn secret_parse() {
    let secret = Secret {
        id: "secret".to_owned(),
        source: "/source".into(),
    };
    assert_eq!(Ok(secret.clone()), Secret::parse("id=secret,src=/source"));
    assert_eq!(Ok(secret), Secret::parse("src=/source,id=secret"));
}

#[test]
fn secret_errors() {
    assert_eq!(Secret::parse("id"), Err(ParseSecretError::MissingEquals));
    assert_eq!(Secret::parse("id=a,id=b"), Err(ParseSecretError::DuplicateId));
    assert_eq!(Secret::parse("src=a,src=b"), Err(ParseSecretError::DuplicateSource));
    assert_eq!(
        Secret::parse("id=a,type=env"),
        Err(ParseSecretError::UnknownOption(String::from("type")))
    );
    assert_eq!(Secret::parse("src=/a"), Err(ParseSecretError::MissingId));
    assert_eq!(Secret::parse("id=a"), Err(ParseSecretError::MissingSource));
}

#[test]
fn secret_round_trip_text() {
    let secret = Secret { id: String::from("a=b"), source: String::from("/s") };
    assert_eq!(secret.to_string(), "id=a=b,src=/s");
    assert_eq!(Secret::parse(&secret.to_string()), Ok(secret));
}
