//! The tool `complete_task`, by which a spawned child hands in its final report.

use crate::protocol::FunctionCallError;
use crate::text::{same_text, size_of_text, take_bytes_at_char_boundary, trim};
use vstd::prelude::*;

verus! {

/// The name that the model calls the tool by.
pub const COMPLETE_TASK_TOOL_NAME: &'static str = "complete_task";

/// The most bytes that a report may take: the parent's context is never inflated by more.
pub const MAX_COMPLETE_TASK_RESULT_BYTES: usize = 12_000;

/// What stands behind a report that was cut.
pub const COMPLETE_TASK_TRUNCATION_MARKER: &'static str = "…[truncated at 12000 bytes]";

/// The bytes that the marker takes.
const MARKER_BYTES: usize = 29;

/// How a child says that its task went.
#[derive(Clone, Copy, Debug, PartialEq, Eq, Structural)]
pub enum CompleteTaskStatus {
    Completed,
    Partial,
    Failed,
}

impl Default for CompleteTaskStatus {
    fn default() -> (result: Self)
        ensures
            result == CompleteTaskStatus::Completed,
    {
        CompleteTaskStatus::Completed
    }
}

/// The status that a word stands for. Without a word the task is complete.
pub open spec fn status_named(word: Option<Seq<char>>) -> Option<CompleteTaskStatus> {
    match word {
        None => Some(CompleteTaskStatus::Completed),
        Some(word) => if word == "completed"@ {
            Some(CompleteTaskStatus::Completed)
        } else if word == "partial"@ {
            Some(CompleteTaskStatus::Partial)
        } else if word == "failed"@ {
            Some(CompleteTaskStatus::Failed)
        } else {
            None
        },
    }
}

impl CompleteTaskStatus {
    /// The status that a word stands for, or what is wrong with the word.
    pub fn from_word(word: Option<&str>) -> (result: Result<Self, String>)
        ensures
            match status_named(
                match word {
                    Some(word) => Some(word@),
                    None => None,
                },
            ) {
                Some(status) => result == Ok::<Self, String>(status),
                None => result is Err && result->Err_0@ == "unknown variant `"@ + word->Some_0@
                    + "`, expected one of `completed`, `partial`, `failed`"@,
            },
    {
        match word {
            None => Ok(CompleteTaskStatus::default()),
            Some(word) => {
                proof {
                    reveal_strlit("completed");
                    reveal_strlit("partial");
                    reveal_strlit("failed");
                }
                if same_text(word, "completed") {
                    Ok(CompleteTaskStatus::Completed)
                } else if same_text(word, "partial") {
                    Ok(CompleteTaskStatus::Partial)
                } else if same_text(word, "failed") {
                    Ok(CompleteTaskStatus::Failed)
                } else {
                    let mut message = "unknown variant `".to_owned();
                    message.append(word);
                    message.append("`, expected one of `completed`, `partial`, `failed`");
                    Err(message)
                }
            },
        }
    }
}

/// A report that was handed in.
#[derive(Debug, PartialEq, Eq)]
pub struct CompleteTaskResult {
    pub status: CompleteTaskStatus,
    pub result: String,
}

/// A report held to the limit: as it is where it fits, else its longest prefix that leaves
/// room for the marker, and the marker.
pub open spec fn capped(report: Seq<char>) -> Seq<char> {
    if crate::text::byte_len(report) <= MAX_COMPLETE_TASK_RESULT_BYTES {
        report
    } else {
        crate::text::byte_prefix(
            report,
            (MAX_COMPLETE_TASK_RESULT_BYTES - crate::text::byte_len(
                COMPLETE_TASK_TRUNCATION_MARKER@,
            )) as nat,
        ) + COMPLETE_TASK_TRUNCATION_MARKER@
    }
}

/// The marker takes as many bytes as are left for it.
pub proof fn lemma_marker_bytes()
    ensures
        crate::text::byte_len(COMPLETE_TASK_TRUNCATION_MARKER@) == 29,
{
    let marker = COMPLETE_TASK_TRUNCATION_MARKER@;
    reveal_strlit("…[truncated at 12000 bytes]");
    let rest = marker.skip(1);
    assert(marker =~= seq![marker[0]] + rest);
    crate::text::lemma_byte_len_concat(seq![marker[0]], rest);
    crate::text::lemma_byte_len_ascii(rest);
    crate::text::lemma_byte_len_push(Seq::empty(), marker[0]);
    assert(Seq::<char>::empty().push(marker[0]) =~= seq![marker[0]]);
}

/// A capped report never takes more than the limit, it is the report itself where that fits,
/// and it begins with a prefix of the report otherwise.
pub proof fn lemma_capped_fits(report: Seq<char>)
    ensures
        crate::text::byte_len(capped(report)) <= MAX_COMPLETE_TASK_RESULT_BYTES,
        crate::text::byte_len(report) <= MAX_COMPLETE_TASK_RESULT_BYTES <==> capped(report)
            == report,
        exists|n: int|
            0 <= n <= report.len() && capped(report).take(n) == #[trigger] report.take(n) && (
            capped(report).skip(n) == Seq::<char>::empty() || capped(report).skip(n)
                == COMPLETE_TASK_TRUNCATION_MARKER@),
{
    let marker = COMPLETE_TASK_TRUNCATION_MARKER@;
    lemma_marker_bytes();
    let room = (MAX_COMPLETE_TASK_RESULT_BYTES - MARKER_BYTES) as nat;
    crate::text::lemma_byte_prefix(report, room);
    let kept = crate::text::byte_prefix(report, room);
    crate::text::lemma_byte_len_concat(kept, marker);
    if crate::text::byte_len(report) <= MAX_COMPLETE_TASK_RESULT_BYTES {
        assert(capped(report).take(report.len() as int) =~= report.take(report.len() as int));
        assert(capped(report).skip(report.len() as int) =~= Seq::<char>::empty());
    } else {
        let n = kept.len() as int;
        assert(capped(report).take(n) =~= report.take(n));
        assert(capped(report).skip(n) =~= marker);
    }
}

/// Holds a report to the limit.
pub fn cap_result_bytes(result: &str) -> (capped_result: String)
    ensures
        capped_result@ == capped(result@),
{
    if size_of_text(result) <= MAX_COMPLETE_TASK_RESULT_BYTES {
        return result.to_owned();
    }
    proof {
        lemma_marker_bytes();
    }
    let budget: usize = MAX_COMPLETE_TASK_RESULT_BYTES - MARKER_BYTES;
    let mut kept = take_bytes_at_char_boundary(result, budget);
    kept.append(COMPLETE_TASK_TRUNCATION_MARKER);
    kept
}

impl CompleteTaskResult {
    pub fn new(status: CompleteTaskStatus, result: &str) -> (report: Self)
        ensures
            report.status == status,
            report.result@ == capped(result@),
    {
        CompleteTaskResult { status, result: cap_result_bytes(result) }
    }
}

/// The arguments of a call.
#[derive(Debug, PartialEq, Eq)]
pub struct CompleteTaskArgs {
    pub result: String,
    pub status: CompleteTaskStatus,
}

/// What a call leaves for the turn to pick up, and how it is answered: an accepted report is
/// kept and answered by an empty success; a blank one is refused, so that the model tries
/// again, and nothing is kept.
pub fn handle_complete_task(args: &CompleteTaskArgs) -> (result: Result<
    CompleteTaskResult,
    FunctionCallError,
>)
    ensures
        result is Err <==> crate::text::trimmed(args.result@).len() == 0,
        result matches Err(error) ==> error.spec_message()
            == "complete_task requires a non-empty `result` containing your final report."@,
        result matches Ok(report) ==> report.status == args.status && report.result@ == capped(
            args.result@,
        ),
{
    let trimmed_result = trim(args.result.as_str());
    if size_of_text(trimmed_result.as_str()) == 0 {
        proof {
            lemma_no_bytes(trimmed_result@);
        }
        return Err(
            FunctionCallError::RespondToModel(
                "complete_task requires a non-empty `result` containing your final report.".to_owned(),
            ),
        );
    }
    proof {
        lemma_no_bytes(trimmed_result@);
    }
    Ok(CompleteTaskResult::new(args.status, args.result.as_str()))
}

/// Only the empty text takes no bytes.
proof fn lemma_no_bytes(s: Seq<char>)
    ensures
        crate::text::byte_len(s) == 0 <==> s.len() == 0,
{
    if s.len() > 0 {
        assert(s =~= s.drop_last().push(s.last()));
        crate::text::lemma_byte_len_push(s.drop_last(), s.last());
    }
}

} // verus!
