use serde_rw::Error;
use serde_rw::extension;
use serde_rw::resolve_format;

#[test]
fn message_of_missing_extension() {
    let err = extension("README").unwrap_err();
    assert_eq!(err.message(), "No file extension specified.");
}

#[test]
fn message_of_unsupported_extension() {
    let err = resolve_format("data.csv").unwrap_err();
    assert_eq!(err, Error::UnsupportedFileExtension("csv".to_string()));
    assert_eq!(err.message(), "Unsupported file extension: csv");
}

#[test]
fn message_carries_normalized_extension() {
    let err = resolve_format("data.CSV").unwrap_err();
    assert_eq!(err.message(), "Unsupported file extension: csv");
}

#[test]
fn message_of_io_and_codec_failures() {
    let io = Error::Io("file not found".to_string());
    assert_eq!(io.message(), "file not found");
    let codec = Error::Serde("unexpected end of input".to_string());
    assert_eq!(codec.message(), "unexpected end of input");
}

#[test]
fn error_categories_are_distinguishable() {
    assert_ne!(
        Error::UnsupportedFileExtension("txt".to_string()),
        Error::NoFileExtensionsSpecified
    );
    assert_ne!(Error::Io("m".to_string()), Error::Serde("m".to_string()));
}
