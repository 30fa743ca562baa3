use rq565_converter::decode;
use rq565_converter::encode::validate_files;
use rq565_converter::errors::FileFormatError;
use rq565_converter::file::{extension_src, extract_extension, str_eq};
use rq565_converter::render;

#[test]
fn test_validate_files() {
    let input = "input.png";
    let output = "output.rq565";

    assert!(validate_files(input, output).is_ok());
}

#[test]
fn test_validate_files_invalid_input() {
    let input = "input.bmp";
    let output = "output.rq565";

    assert!(validate_files(input, output).is_ok());
}

#[test]
fn test_validate_files_invalid_output() {
    let input = "input.png";
    let output = "output.bmp";

    assert!(validate_files(input, output).is_err());
}

#[test]
fn encode_validate_files_reports_spans() {
    assert_eq!(
        validate_files("input.png", "output.gif"),
        Err(FileFormatError::UnsupportedFormat {
            input: "output.gif".to_string(),
            start: 7,
            len: 3
        })
    );
    assert_eq!(
        validate_files("input.gif", "output.rq565"),
        Err(FileFormatError::UnsupportedFormat {
            input: "input.gif".to_string(),
            start: 6,
            len: 3
        })
    );
    assert_eq!(
        validate_files("noext", "output.rq565"),
        Err(FileFormatError::MissingExtension)
    );
}

#[test]
fn decode_validate_files_swaps_the_roles() {
    assert!(decode::validate_files("input.rq565", "output.png").is_ok());
    assert!(decode::validate_files("input.rq565", "output.ppm").is_ok());
    assert_eq!(
        decode::validate_files("input.png", "output.png"),
        Err(FileFormatError::UnsupportedFormat {
            input: "input.png".to_string(),
            start: 6,
            len: 3
        })
    );
    assert_eq!(
        decode::validate_files("input.rq565", "output.rq565"),
        Err(FileFormatError::UnsupportedFormat {
            input: "output.rq565".to_string(),
            start: 7,
            len: 5
        })
    );
}

#[test]
fn render_validate_files_wants_packed_input() {
    assert!(render::validate_files("image.rq565").is_ok());
    assert_eq!(
        render::validate_files("image.png"),
        Err(FileFormatError::UnsupportedFormat {
            input: "image.png".to_string(),
            start: 6,
            len: 3
        })
    );
    assert_eq!(
        render::validate_files("image"),
        Err(FileFormatError::MissingExtension)
    );
}

#[test]
fn extract_extension_takes_the_last_dot() {
    assert_eq!(extract_extension("input.png"), Ok("png"));
    assert_eq!(extract_extension("a.b.c"), Ok("c"));
    assert_eq!(
        extract_extension("noext"),
        Err(FileFormatError::MissingExtension)
    );
    assert_eq!(extract_extension("trailing."), Ok(""));
}

#[test]
fn extension_src_points_past_the_first_dot() {
    assert_eq!(extension_src("output.rq565", 5), (7, 5));
    assert_eq!(extension_src("a.b.c", 1), (2, 1));
}

#[test]
fn str_eq_compares_contents() {
    assert!(str_eq("rq565", "rq565"));
    assert!(!str_eq("rq565", "rq56"));
    assert!(!str_eq("png", "bmp"));
    assert!(str_eq("", ""));
}
