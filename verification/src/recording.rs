//! What the caller is told after a recording was saved, or was not.

use vstd::prelude::*;

verus! {

/// How saving a recording went.
#[derive(Debug, PartialEq, Eq)]
pub enum SaveOutcome {
    /// The file was created and every byte written.
    Saved,
    /// The file could not be created.
    NotCreated { reason: String },
    /// The file was created and writing to it failed.
    NotWritten { reason: String },
}

/// The message for the caller.
pub open spec fn save_report(file_path: Seq<char>, outcome: SaveOutcome) -> Result<
    Seq<char>,
    Seq<char>,
> {
    match outcome {
        SaveOutcome::Saved => Ok("Recording saved successfully to: "@ + file_path),
        SaveOutcome::NotCreated { reason } => Err("Failed to create file: "@ + reason@),
        SaveOutcome::NotWritten { reason } => Err("Failed to write file: "@ + reason@),
    }
}

/// Words the outcome of saving a recording to `file_path`.
pub fn report_save(file_path: &str, outcome: &SaveOutcome) -> (r: Result<String, String>)
    ensures
        match save_report(file_path@, *outcome) {
            Ok(text) => r matches Ok(m) && m@ == text,
            Err(text) => r matches Err(m) && m@ == text,
        },
{
    match outcome {
        SaveOutcome::Saved => {
            let mut m = String::from_str("Recording saved successfully to: ");
            m.append(file_path);
            Ok(m)
        },
        SaveOutcome::NotCreated { reason } => {
            let mut m = String::from_str("Failed to create file: ");
            m.append(reason.as_str());
            Err(m)
        },
        SaveOutcome::NotWritten { reason } => {
            let mut m = String::from_str("Failed to write file: ");
            m.append(reason.as_str());
            Err(m)
        },
    }
}

} // verus!
