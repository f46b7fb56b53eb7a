use sentinel::app::{normalize_domain, DomainError};

#[test]
fn normalizes_case_whitespace_and_outer_dots() {
    assert_eq!(normalize_domain("  Ads.Example.COM.  ").unwrap(), "ads.example.com");
    assert_eq!(normalize_domain("..tracker.net..").unwrap(), "tracker.net");
}

#[test]
fn normalizing_twice_changes_nothing() {
    let once = normalize_domain(" Sub.Domain.Org. ").unwrap();
    let twice = normalize_domain(&once).unwrap();
    assert_eq!(once, twice);
}

#[test]
fn refuses_each_kind_of_invalid_domain() {
    assert_eq!(normalize_domain("   ").unwrap_err(), DomainError::Empty);
    assert_eq!(normalize_domain("...").unwrap_err(), DomainError::Empty);
    assert_eq!(normalize_domain("dominio.españa").unwrap_err(), DomainError::NotAscii);
    let long = format!("{}.com", "a".repeat(250));
    assert_eq!(normalize_domain(&long).unwrap_err(), DomainError::TooLong);
    assert_eq!(normalize_domain("https://ads.com").unwrap_err(), DomainError::HasPath);
    assert_eq!(normalize_domain("ads com.net").unwrap_err(), DomainError::HasWhitespace);
    assert_eq!(normalize_domain("localhost").unwrap_err(), DomainError::MissingDot);
    assert_eq!(normalize_domain("ads..com").unwrap_err(), DomainError::EmptyLabel);
    let label = format!("{}.com", "b".repeat(64));
    assert_eq!(normalize_domain(&label).unwrap_err(), DomainError::LabelTooLong);
    assert_eq!(normalize_domain("-ads.com").unwrap_err(), DomainError::LabelEdgeHyphen);
    assert_eq!(normalize_domain("ads-.com").unwrap_err(), DomainError::LabelEdgeHyphen);
    assert_eq!(normalize_domain("ad_s.com").unwrap_err(), DomainError::InvalidCharacter);
}

#[test]
fn error_messages_are_the_users() {
    assert_eq!(DomainError::Empty.message(), "el dominio no puede estar vacio");
    assert_eq!(DomainError::MissingDot.message(), "el dominio debe incluir al menos un punto");
    assert_eq!(
        DomainError::InvalidCharacter.message(),
        "el dominio solo admite letras, numeros, guiones y puntos"
    );
}
