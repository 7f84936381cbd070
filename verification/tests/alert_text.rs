use jn_installer::alert::__format_alert_msg;
use jn_installer::error::InstallError;

#[test]
fn alert_single_piece_gets_one_indent() {
    assert_eq!(__format_alert_msg("failure"), "failure\n    ");
}

#[test]
fn alert_pieces_go_deeper_by_four_spaces() {
    assert_eq!(
        __format_alert_msg("text: more text: even more text"),
        "text\n    more text\n        even more text\n            "
    );
}

#[test]
fn alert_empty_message() {
    assert_eq!(__format_alert_msg(""), "\n    ");
}

#[test]
fn alert_separator_needs_the_space() {
    assert_eq!(__format_alert_msg("a:b"), "a:b\n    ");
    assert_eq!(__format_alert_msg("a:"), "a:\n    ");
}

#[test]
fn alert_separators_at_the_edges() {
    assert_eq!(__format_alert_msg(": a"), "\n    a\n        ");
    assert_eq!(__format_alert_msg("a: "), "a\n    \n        ");
    assert_eq!(__format_alert_msg(":: "), ":\n    \n        ");
    assert_eq!(__format_alert_msg(": : "), "\n    \n        \n            ");
}

#[test]
fn alert_agrees_with_split() {
    for msg in ["x: y", "one: two: three: four", "no separator", "é: ü: ß", ":  : a"] {
        let mut expected = String::new();
        let mut n: usize = 1;
        for piece in msg.split(": ") {
            expected.push_str(piece);
            expected.push_str("\n");
            expected.push_str(&"    ".repeat(n));
            n += 1;
        }
        assert_eq!(__format_alert_msg(msg), expected);
    }
}

#[test]
fn error_descriptions() {
    assert_eq!(
        InstallError::NetworkError.describe(),
        "Network error: the release could not be fetched"
    );
    assert_eq!(InstallError::ParseError.describe(), "Parse error: the release data is malformed");
    assert_eq!(
        InstallError::NoMatchingAsset.describe(),
        "No matching asset: the release has no file for the selected version"
    );
    assert_eq!(
        InstallError::IoError.describe(),
        "I/O error: a file could not be read or written"
    );
    assert_eq!(
        InstallError::ArchiveError.describe(),
        "Archive error: the downloaded archive is damaged"
    );
    assert_eq!(InstallError::Cancelled.describe(), "Cancelled: the installation was aborted");
    assert_eq!(
        InstallError::Internal.describe(),
        "Internal error: the installation ended unexpectedly"
    );
}

#[test]
fn error_description_as_alert() {
    assert_eq!(
        __format_alert_msg(&InstallError::IoError.describe()),
        "I/O error\n    a file could not be read or written\n        "
    );
}

#[test]
fn only_cancelled_is_cancelled() {
    assert!(InstallError::Cancelled.is_cancelled());
    for e in [
        InstallError::NetworkError,
        InstallError::ParseError,
        InstallError::NoMatchingAsset,
        InstallError::IoError,
        InstallError::ArchiveError,
        InstallError::Internal,
    ] {
        assert!(!e.is_cancelled());
    }
}
