use restream::json::{json_equal, Json};
use restream::sbom::{normalize_sbom_for_repo_compare, sbom_needs_writing, SbomVerdict};

fn text(value: &str) -> Json {
    Json::Text(value.to_string())
}

fn object(fields: Vec<(&str, Json)>) -> Json {
    Json::Object(
        fields
            .into_iter()
            .map(|(name, value)| (name.to_string(), value))
            .collect(),
    )
}

fn sbom(timestamp: &str) -> Json {
    object(vec![
        ("metadata", object(vec![("timestamp", text(timestamp))])),
        (
            "components",
            Json::List(vec![object(vec![("name", text("restream"))])]),
        ),
    ])
}

#[test]
fn repo_sbom_compare_ignores_timestamp() {
    let left = normalize_sbom_for_repo_compare(sbom("2026-06-28T01:00:00Z"));
    let right = normalize_sbom_for_repo_compare(sbom("2026-06-29T01:00:00Z"));

    assert_eq!(left, right);
}

#[test]
fn sbom_is_written_when_it_says_something_else() {
    let existing = r#"{"metadata":{"timestamp":"2026-06-28T01:00:00Z"},"components":[{"name":"restream"}]}"#;
    assert_eq!(
        sbom_needs_writing(Some(existing), sbom("2026-06-29T01:00:00Z")),
        SbomVerdict::Unchanged
    );
    let other = r#"{"metadata":{},"components":[{"name":"another"}]}"#;
    assert_eq!(
        sbom_needs_writing(Some(other), sbom("2026-06-29T01:00:00Z")),
        SbomVerdict::Write
    );
    assert_eq!(
        sbom_needs_writing(Some("not json"), sbom("2026-06-29T01:00:00Z")),
        SbomVerdict::Write
    );
    assert_eq!(
        sbom_needs_writing(None, sbom("2026-06-29T01:00:00Z")),
        SbomVerdict::Write
    );
}

#[test]
fn zeros_are_equal_whatever_their_sign() {
    let bill = || object(vec![("score", Json::Real("0.0".to_string()))]);
    assert_eq!(
        sbom_needs_writing(Some(r#"{"score":-0.0}"#), bill()),
        SbomVerdict::Unchanged
    );
    assert_eq!(
        sbom_needs_writing(Some(r#"{"score":0.5}"#), bill()),
        SbomVerdict::Write
    );
    assert!(!json_equal(
        &Json::Real("0.5".to_string()),
        &Json::Real("-0.5".to_string())
    ));
    assert!(!json_equal(&Json::Real("0.0".to_string()), &Json::Unsigned(0)));
}
