use uv_distribution::dist::LocalFile;
use uv_distribution::error::Error;
use uv_distribution::web::{base_url_join_relative, JoinRelativeError};

fn text(s: &str) -> String {
    s.to_string()
}

#[test]
fn join_replaces_the_last_segment_of_the_base() {
    let joined = base_url_join_relative(&text("https://example.net/a/b.html"), &text("c.png"));
    assert_eq!(joined, Ok(text("https://example.net/a/c.png")));
}

#[test]
fn join_keeps_a_base_that_ends_in_a_slash() {
    let joined = base_url_join_relative(&text("https://example.net/a/b/"), &text("c.png"));
    assert_eq!(joined, Ok(text("https://example.net/a/b/c.png")));
}

#[test]
fn join_takes_an_absolute_reference_as_it_is() {
    let joined = base_url_join_relative(&text("https://alice.com/a"), &text("http://eve.com/b"));
    assert_eq!(joined, Ok(text("http://eve.com/b")));
}

#[test]
fn join_writes_the_base_out_in_its_normal_form() {
    let joined = base_url_join_relative(&text("HTTPS://Example.NET"), &text(""));
    assert_eq!(joined, Ok(text("https://example.net/")));
}

#[test]
fn join_fails_on_a_base_that_is_no_url() {
    let joined = base_url_join_relative(&text("not a url"), &text("c.png"));
    assert_eq!(
        joined,
        Err(JoinRelativeError::Base {
            base: text("not a url"),
            source: url::ParseError::RelativeUrlWithoutBase,
        })
    );
}

#[test]
fn join_fails_on_a_reference_that_cannot_be_resolved() {
    let joined = base_url_join_relative(&text("https://example.net/a/"), &text("//[bad"));
    match joined {
        Err(JoinRelativeError::Reference { base, reference, .. }) => {
            assert_eq!(base, "https://example.net/a/");
            assert_eq!(reference, "//[bad");
        }
        other => panic!("unexpected: {:?}", other),
    }
}

#[test]
fn join_fails_on_a_base_that_cannot_be_a_base() {
    let joined = base_url_join_relative(&text("mailto:someone@example.net"), &text("c.png"));
    assert_eq!(
        joined,
        Err(JoinRelativeError::Reference {
            base: text("mailto:someone@example.net"),
            reference: text("c.png"),
            source: url::ParseError::RelativeUrlWithCannotBeABaseBase,
        })
    );
}

#[test]
fn original_of_a_failed_join_names_both_parts() {
    let err = JoinRelativeError::Reference {
        base: text("https://example.net/a"),
        reference: text("b"),
        source: url::ParseError::EmptyHost,
    };
    assert_eq!(err.original(), "https://example.net/a/b");
    let err = JoinRelativeError::Base {
        base: text("nope"),
        source: url::ParseError::RelativeUrlWithoutBase,
    };
    assert_eq!(err.original(), "nope");
    assert_eq!(
        Error::JoinRelativeUrl(err).message(),
        "Failed to parse URL: `nope`"
    );
}

#[test]
fn local_file_of_an_absolute_path_has_a_file_url() {
    let file = LocalFile::new(text("/tmp/wheels/foo-1.0-py3-none-any.whl"));
    assert_eq!(
        file,
        Some(LocalFile {
            path: text("/tmp/wheels/foo-1.0-py3-none-any.whl"),
            url: text("file:///tmp/wheels/foo-1.0-py3-none-any.whl"),
        })
    );
}

#[test]
fn local_file_of_a_relative_path_is_refused() {
    assert_eq!(LocalFile::new(text("../foo.whl")), None);
    assert_eq!(LocalFile::new(text("foo.whl")), None);
}

#[test]
fn local_file_from_parts_takes_the_url_it_is_given() {
    assert_eq!(
        LocalFile::from_parts(text("/a"), Some(text("file:///a"))),
        Some(LocalFile { path: text("/a"), url: text("file:///a") })
    );
    assert_eq!(LocalFile::from_parts(text("a"), None), None);
}
