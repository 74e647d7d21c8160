//! A self-describing file-write tool.
//!
//! The tool takes a path and an optional content string, resolves the content
//! (absent content means an empty file), and reports the outcome of the
//! filesystem write: a confirmation message naming the path on success, the
//! I/O error's text otherwise. The filesystem call itself is performed by the
//! caller; everything the tool decides — what bytes to write, what message or
//! error to return — is verified here.

use vstd::prelude::*;

verus! {

/// Input of the file-write tool: where to write and what to write.
/// An absent `content` is treated as the empty string.
pub struct FSWriteInput {
    pub path: String,
    pub content: Option<String>,
}

impl FSWriteInput {
    /// The characters an invocation writes: the given content, or nothing
    /// when the content is absent.
    pub open spec fn effective_content(&self) -> Seq<char> {
        match self.content {
            Some(c) => c@,
            None => Seq::<char>::empty(),
        }
    }

    /// The content string handed to the filesystem write, exactly as given:
    /// the supplied content unchanged, or the empty string when it is absent.
    pub fn resolved_content<'a>(&'a self) -> (r: &'a str)
        ensures
            r@ == self.effective_content(),
            self.content matches Some(c) ==> r@ == c@,
            self.content is None ==> r@.len() == 0,
    {
        match &self.content {
            Some(c) => c.as_str(),
            None => {
                proof {
                    reveal_strlit("");
                    assert(""@ =~= Seq::<char>::empty());
                }
                ""
            },
        }
    }
}

/// What the tool tells callers it does.
pub open spec fn description_text() -> Seq<char> {
    "Write the provided content to a file. This tool is useful for creating new files or overwriting existing files with new content. Only works within allowed directories."@
}

/// The confirmation returned after a successful write to `path`.
pub open spec fn success_message_text(path: Seq<char>) -> Seq<char> {
    "Successfully wrote to "@ + path
}

/// The file-write tool. It is stateless: each invocation depends on its own
/// input alone.
pub struct FSWrite;

impl FSWrite {
    /// The tool's human-readable description, for discovery by a caller.
    pub fn description() -> (r: String)
        ensures
            r@ == description_text(),
    {
        String::from_str(
            "Write the provided content to a file. This tool is useful for creating new files or overwriting existing files with new content. Only works within allowed directories.",
        )
    }

    /// The confirmation message for a successful write to `path`.
    pub fn success_message(&self, path: &str) -> (r: String)
        ensures
            r@ == success_message_text(path@),
    {
        String::from_str("Successfully wrote to ").concat(path)
    }

    /// Turn the outcome of the filesystem write into the tool's result:
    /// a confirmation naming the path when the write succeeded, and the
    /// I/O error's text, unchanged, when it failed. No failure is retried
    /// or recovered.
    pub fn call_outcome(&self, path: &str, write_result: Result<(), String>) -> (r: Result<
        String,
        String,
    >)
        ensures
            write_result is Ok ==> (r matches Ok(m) && m@ == success_message_text(path@)),
            write_result matches Err(e) ==> r == Result::<String, String>::Err(e),
    {
        match write_result {
            Ok(()) => Ok(self.success_message(path)),
            Err(e) => Err(e),
        }
    }
}

/// Law: an invocation that omits the content resolves to zero-length content
/// and describes the very same write as one that supplies the empty string
/// for the same path.
pub proof fn lemma_absent_content_same_as_empty(absent: FSWriteInput, explicit: FSWriteInput)
    requires
        absent.path@ == explicit.path@,
        absent.content is None,
        explicit.content matches Some(c) && c@ == Seq::<char>::empty(),
    ensures
        absent.effective_content().len() == 0,
        absent.effective_content() == explicit.effective_content(),
{
}

} // verus!
