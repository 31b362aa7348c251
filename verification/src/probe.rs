//! Reading the answer of the media tool to a version query.

use vstd::prelude::*;
use crate::text::decode_lossy;
use crate::text::lossy_text;

verus! {

/// How the version query went.
#[derive(Debug, PartialEq, Eq)]
pub enum Probe {
    /// The tool could not be started.
    NotFound,
    /// The tool ran and exited with a failure.
    Failed,
    /// The tool ran and wrote `stdout`.
    Answered { stdout: Vec<u8> },
}

/// `k` is where the first line of `bytes` ends: at its first line feed, or
/// at the end when there is none.
pub open spec fn is_line_end(bytes: Seq<u8>, k: int) -> bool {
    &&& 0 <= k <= bytes.len()
    &&& k < bytes.len() ==> bytes[k] == 10u8
    &&& forall|j: int| 0 <= j < k ==> bytes[j] != 10u8
}

/// Where the first line of `bytes` ends.
pub open spec fn line_end(bytes: Seq<u8>) -> int {
    choose|k: int| is_line_end(bytes, k)
}

/// The first line of `bytes`, without its line feed and without the carriage
/// return before that line feed.
pub open spec fn first_line(bytes: Seq<u8>) -> Seq<u8> {
    let k = line_end(bytes);
    if 0 < k < bytes.len() && bytes[k - 1] == 13u8 {
        bytes.take(k - 1)
    } else {
        bytes.take(k)
    }
}

/// What the caller is told of the tool: the first line of its answer, or
/// `Unknown version` when it wrote nothing.
pub open spec fn version_text(stdout: Seq<u8>) -> Seq<char> {
    if stdout.len() == 0 {
        "Unknown version"@
    } else {
        lossy_text(first_line(stdout))
    }
}

fn find_line_end(bytes: &Vec<u8>) -> (k: usize)
    ensures
        is_line_end(bytes@, k as int),
        k == line_end(bytes@),
{
    let mut k: usize = 0;
    while k < bytes.len() && bytes[k] != 10
        invariant
            k <= bytes.len(),
            forall|j: int| 0 <= j < k ==> bytes@[j] != 10u8,
        decreases bytes.len() - k,
    {
        k = k + 1;
    }
    proof {
        assert(is_line_end(bytes@, k as int));
        let other = line_end(bytes@);
        assert(is_line_end(bytes@, other));
        if other < k {
            assert(bytes@[other] == 10u8);
        } else if k < other {
            assert(bytes@[k as int] == 10u8);
        }
    }
    k
}

/// Cuts the first line out of what the tool wrote.
pub fn first_line_of(stdout: &Vec<u8>) -> (line: Vec<u8>)
    ensures
        line@ == first_line(stdout@),
{
    let end = find_line_end(stdout);
    let stop = if 0 < end && end < stdout.len() && stdout[end - 1] == 13 {
        end - 1
    } else {
        end
    };
    let mut line: Vec<u8> = Vec::new();
    let mut k: usize = 0;
    while k < stop
        invariant
            k <= stop <= stdout.len(),
            line@ == stdout@.take(k as int),
        decreases stop - k,
    {
        line.push(stdout[k]);
        assert(stdout@.take(k + 1) =~= stdout@.take(k as int).push(stdout@[k as int]));
        k = k + 1;
    }
    line
}

/// Reads the outcome of the version query: the tool's first line of output
/// when it ran and succeeded, and otherwise why it is of no use.
pub fn check_ffmpeg(probe: &Probe) -> (r: Result<String, String>)
    ensures
        match *probe {
            Probe::NotFound => r matches Err(m) && m@
                == "FFmpeg not found. Please install FFmpeg and add it to your PATH."@,
            Probe::Failed => r matches Err(m) && m@ == "FFmpeg found but returned an error"@,
            Probe::Answered { stdout } => r matches Ok(line) && line@ == version_text(stdout@),
        },
{
    match probe {
        Probe::NotFound => Err(
            String::from_str("FFmpeg not found. Please install FFmpeg and add it to your PATH."),
        ),
        Probe::Failed => Err(String::from_str("FFmpeg found but returned an error")),
        Probe::Answered { stdout } => {
            if stdout.len() == 0 {
                return Ok(String::from_str("Unknown version"));
            }
            let line = first_line_of(stdout);
            Ok(decode_lossy(&line))
        },
    }
}

} // verus!
