//! The viewer command's own file-name check; rendering itself is window
//! and event work outside the codec.

use vstd::prelude::*;

use crate::errors::FileFormatError;
use crate::file::{extension_of, extension_src, extract_extension, first_dot, last_dot,
    lemma_last_dot_props, str_eq};

verus! {

/// Command-line choices for a render run: the packed file to show.
pub struct RendererOptions {
    pub input: String,
}

/// Checks the file name of a render run: the input must carry the
/// packed format's extension (`rq565`).
pub fn validate_files(input: &str) -> (r: Result<(), FileFormatError>)
    ensures
        r is Ok <==> last_dot(input@) >= 0 && extension_of(input@) == "rq565"@,
        last_dot(input@) < 0 ==> r == Err::<(), FileFormatError>(
            FileFormatError::MissingExtension,
        ),
        last_dot(input@) >= 0 && extension_of(input@) != "rq565"@ ==> (r matches Err(e)
            && e matches FileFormatError::UnsupportedFormat { input: p, start, len } && p@
            == input@ && start == first_dot(input@) + 1 && len == extension_of(input@).len()),
{
    let input_extension = match extract_extension(input) {
        Ok(e) => e,
        Err(e) => {
            return Err(e);
        },
    };
    if !str_eq(input_extension, "rq565") {
        proof {
            lemma_last_dot_props(input@);
            assert(input@[last_dot(input@)] == '.');
        }
        let span = extension_src(input, input_extension.unicode_len());
        return Err(
            FileFormatError::UnsupportedFormat { input: input.to_owned(), start: span.0, len: span.1 },
        );
    }
    Ok(())
}

} // verus!
