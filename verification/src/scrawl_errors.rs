//! The message an editor-invocation failure converts to: a fixed summary
//! and a curated reason per failure, with a hint where one helps.

use vstd::prelude::*;
use vstd::string::StringExecFns;

use crate::styled::ReportModel;
use crate::styled::UserError;

verus! {

/// What the message reads from a `scrawl` failure: which step failed, and
/// the editor or file name involved.
pub enum ScrawlErrorKind {
    /// No temporary file could be created to use as the editing buffer.
    CreateTempfile,
    /// The named editor could not be opened.
    OpenEditor(String),
    /// What was typed could not be read back.
    CaptureInput,
    /// The named file could not be copied into the editing buffer.
    CopyToTempFile(String),
}

#[verifier::external_type_specification]
#[verifier::external_body]
pub struct ExScrawlError(scrawl::error::ScrawlError);

/// Relies on `scrawl::error::ScrawlError`: its four variants are told
/// apart, the editor and file names moved across unchanged.
#[verifier::external_body]
fn scrawl_kind_of(e: scrawl::error::ScrawlError) -> (k: ScrawlErrorKind) {
    match e {
        scrawl::error::ScrawlError::FailedToCreateTempfile => ScrawlErrorKind::CreateTempfile,
        scrawl::error::ScrawlError::FailedToOpenEditor(editor) => ScrawlErrorKind::OpenEditor(
            editor,
        ),
        scrawl::error::ScrawlError::FailedToCaptureInput => ScrawlErrorKind::CaptureInput,
        scrawl::error::ScrawlError::FailedToCopyToTempFile(filename) => ScrawlErrorKind::CopyToTempFile(
            filename,
        ),
    }
}

/// The curated reason shown for each editor failure.
pub open spec fn spec_scrawl_reason(k: ScrawlErrorKind) -> Seq<char> {
    match k {
        ScrawlErrorKind::CreateTempfile => "Could not create a temporary file to use as a buffer"@,
        ScrawlErrorKind::OpenEditor(editor) => "Could not open "@ + editor@
            + " as a text editor"@,
        ScrawlErrorKind::CaptureInput => "Failed to capture user input."@,
        ScrawlErrorKind::CopyToTempFile(filename) => "Failed to copy the contents of the `"@
            + filename@ + "` to the temporary buffer for editing."@,
    }
}

/// The subtleties shown for each editor failure: a hint to check the file
/// when copying it failed, nothing otherwise.
pub open spec fn spec_scrawl_subtleties(k: ScrawlErrorKind) -> Seq<Seq<char>> {
    match k {
        ScrawlErrorKind::CopyToTempFile(_) => seq!["Make sure the file exists."@],
        _ => Seq::empty(),
    }
}

/// The whole message for each editor failure.
pub open spec fn spec_scrawl_message(k: ScrawlErrorKind) -> ReportModel {
    ReportModel {
        summary: "Scrawl Error"@,
        reasons: Some(seq![spec_scrawl_reason(k)]),
        subtleties: Some(spec_scrawl_subtleties(k)),
    }
}

impl UserError {
    /// Builds the message for the editor failure of kind `k`: the summary
    /// `Scrawl Error`, the kind's curated reason, and its hint if it has
    /// one.
    pub fn from_scrawl_kind(k: ScrawlErrorKind) -> (r: UserError)
        ensures
            r@ == spec_scrawl_message(k),
    {
        let r = match k {
            ScrawlErrorKind::CreateTempfile => UserError::assemble(
                "Scrawl Error".to_owned(),
                Some(vec!["Could not create a temporary file to use as a buffer".to_owned()]),
                Some(Vec::new()),
            ),
            ScrawlErrorKind::OpenEditor(editor) => {
                let mut reason = "Could not open ".to_owned();
                reason.append(editor.as_str());
                reason.append(" as a text editor");
                UserError::assemble(
                    "Scrawl Error".to_owned(),
                    Some(vec![reason]),
                    Some(Vec::new()),
                )
            },
            ScrawlErrorKind::CaptureInput => UserError::assemble(
                "Scrawl Error".to_owned(),
                Some(vec!["Failed to capture user input.".to_owned()]),
                Some(Vec::new()),
            ),
            ScrawlErrorKind::CopyToTempFile(filename) => {
                let mut reason = "Failed to copy the contents of the `".to_owned();
                reason.append(filename.as_str());
                reason.append("` to the temporary buffer for editing.");
                UserError::assemble(
                    "Scrawl Error".to_owned(),
                    Some(vec![reason]),
                    Some(vec!["Make sure the file exists.".to_owned()]),
                )
            },
        };
        proof {
            assert(r@.reasons->Some_0 =~= seq![spec_scrawl_reason(k)]);
            assert(r@.subtleties->Some_0 =~= spec_scrawl_subtleties(k));
        }
        r
    }

    /// Builds the message for the editor failure `e`: whatever variant came
    /// back, the message is that variant's curated one, under the summary
    /// `Scrawl Error`.
    pub fn from_scrawl_error(e: scrawl::error::ScrawlError) -> (r: UserError)
        ensures
            r@.summary == "Scrawl Error"@,
            exists|k: ScrawlErrorKind| r@ == #[trigger] spec_scrawl_message(k),
    {
        let k = scrawl_kind_of(e);
        let r = UserError::from_scrawl_kind(k);
        r
    }
}

} // verus!
