use vstd::prelude::*;

use crate::error::PackerError;

verus! {

/// How a status-only child ended: whether it succeeded, and its exit status
/// as the platform describes it.
#[derive(Debug)]
pub struct ExitReport {
    pub success: bool,
    pub description: String,
}

/// How an output-capturing child ended, with its two streams as raw bytes.
#[derive(Debug)]
pub struct CapturedOutput {
    pub success: bool,
    pub stdout: Vec<u8>,
    pub stderr: Vec<u8>,
}

/// The text that `String::from_utf8_lossy` makes of `bytes`.
pub uninterp spec fn lossy_text(bytes: Seq<u8>) -> Seq<char>;

/// Relies on String::from_utf8_lossy: each invalid sequence becomes U+FFFD,
/// and valid UTF-8 is decoded unchanged.
#[verifier::external_body]
fn decode_lossy(bytes: &Vec<u8>) -> (r: String)
    ensures
        r@ == lossy_text(bytes@),
        vstd::utf8::valid_utf8(bytes@) ==> r@ == vstd::utf8::decode_utf8(bytes@),
{
    String::from_utf8_lossy(bytes.as_slice()).into_owned()
}

/// The message of a status-only child that failed.
pub open spec fn failure_message(description: Seq<char>) -> Seq<char> {
    "Command failed with exit code: "@ + description
}

/// The result of a status-only run: the spawn failure as `IoError`, a failed
/// child as `ExecutionError` naming its exit status, else success.
pub fn status_result(outcome: Result<ExitReport, std::io::Error>) -> (r: Result<(), PackerError>)
    ensures
        match outcome {
            Err(e) => r matches Err(PackerError::IoError(x)) && x == e,
            Ok(rep) => if rep.success {
                r is Ok
            } else {
                r matches Err(PackerError::ExecutionError(m)) && m@ == failure_message(rep.description@)
            },
        },
{
    match outcome {
        Err(e) => Err(PackerError::IoError(e)),
        Ok(rep) => {
            if rep.success {
                Ok(())
            } else {
                let mut m = String::from_str("Command failed with exit code: ");
                m.append(rep.description.as_str());
                Err(PackerError::ExecutionError(m))
            }
        },
    }
}

/// The result of a capturing run from the text of the stream that matters:
/// the standard output of a child that succeeded, or the standard error of
/// one that failed.
pub fn captured_result(success: bool, text: String) -> (r: Result<String, PackerError>)
    ensures
        success ==> (r matches Ok(s) && s@ == text@),
        !success ==> (r matches Err(PackerError::ExecutionError(m)) && m@ == text@),
{
    if success {
        Ok(text)
    } else {
        Err(PackerError::ExecutionError(text))
    }
}

/// The result of an output-capturing run: the spawn failure as `IoError`;
/// a failed child as `ExecutionError` with its standard error decoded; else
/// its standard output decoded.
pub fn output_result(outcome: Result<CapturedOutput, std::io::Error>) -> (r: Result<String, PackerError>)
    ensures
        match outcome {
            Err(e) => r matches Err(PackerError::IoError(x)) && x == e,
            Ok(out) => if out.success {
                r matches Ok(s) && s@ == lossy_text(out.stdout@) && (vstd::utf8::valid_utf8(out.stdout@)
                    ==> s@ == vstd::utf8::decode_utf8(out.stdout@))
            } else {
                r matches Err(PackerError::ExecutionError(m)) && m@ == lossy_text(out.stderr@) && (
                vstd::utf8::valid_utf8(out.stderr@) ==> m@ == vstd::utf8::decode_utf8(out.stderr@))
            },
        },
{
    match outcome {
        Err(e) => Err(PackerError::IoError(e)),
        Ok(out) => {
            let text = if out.success {
                decode_lossy(&out.stdout)
            } else {
                decode_lossy(&out.stderr)
            };
            captured_result(out.success, text)
        },
    }
}

} // verus!
