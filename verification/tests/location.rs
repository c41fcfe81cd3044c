use s3_concat::engine::{next_listing, Listing};
use s3_concat::location::Location;

fn parsed(arg: &str) -> (String, String) {
    let location = Location::parse(arg);
    (location.bucket, location.prefix)
}

fn pair(bucket: &str, prefix: &str) -> (String, String) {
    (bucket.to_string(), prefix.to_string())
}

#[test]
fn bare_bucket_has_no_prefix() {
    assert_eq!(parsed("my-bucket"), pair("my-bucket", ""));
    assert_eq!(Location::parse("my-bucket").listing_prefix(), None);
}

#[test]
fn scheme_is_dropped() {
    assert_eq!(parsed("s3://my-bucket"), pair("my-bucket", ""));
    assert_eq!(parsed("s3://s3://my-bucket/x"), pair("my-bucket", "x"));
}

#[test]
fn prefix_follows_the_first_slash() {
    assert_eq!(parsed("s3://my-bucket/logs/2024"), pair("my-bucket", "logs/2024"));
    assert_eq!(parsed("my-bucket/logs"), pair("my-bucket", "logs"));
    assert_eq!(
        Location::parse("my-bucket/logs").listing_prefix(),
        Some("logs".to_string())
    );
}

#[test]
fn trailing_slashes_are_trimmed() {
    assert_eq!(parsed("s3://my-bucket/"), pair("my-bucket", ""));
    assert_eq!(parsed("s3://my-bucket/logs///"), pair("my-bucket", "logs"));
    assert_eq!(parsed("my-bucket///"), pair("my-bucket", ""));
    assert_eq!(parsed("my-bucket//a/"), pair("my-bucket", "/a"));
}

#[test]
fn odd_locations() {
    assert_eq!(parsed(""), pair("", ""));
    assert_eq!(parsed("s3://"), pair("", ""));
    assert_eq!(parsed("/x"), pair("", "x"));
    assert_eq!(parsed("s3:/bucket"), pair("s3:", "bucket"));
    assert_eq!(parsed("b\u{fc}cket/pr\u{e4}fix/"), pair("b\u{fc}cket", "pr\u{e4}fix"));
}

#[test]
fn listing_goes_on_while_there_is_a_token() {
    match next_listing(Some("abc".to_string())) {
        Listing::More(token) => assert_eq!(token, "abc"),
        Listing::Exhausted => panic!("a token means another page"),
    }
    assert!(matches!(next_listing(None), Listing::Exhausted));
}
