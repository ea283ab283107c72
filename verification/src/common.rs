//! Small shared models: the server's error document and output modes.

use vstd::prelude::*;

verus! {

/// A span inside a submitted query that a server-side error points at.
#[derive(Clone, Debug, PartialEq, Eq)]
pub struct ErrorToken {
    pub start: i32,
    pub end: i32,
}

/// One message of a server-side error report, with the spans it covers.
#[derive(Clone, Debug, PartialEq, Eq)]
pub struct ErrorMessage {
    pub message: Option<String>,
    pub tokens: Vec<ErrorToken>,
}

/// The error document the analytics service returns on a failed request.
#[derive(Clone, Debug, PartialEq, Eq)]
pub struct ApiErrorModel {
    pub message: String,
    pub stack_trace: Option<String>,
    pub errors: Vec<ErrorMessage>,
}

impl ApiErrorModel {
    /// The human-readable text of the error: its message, followed by the
    /// stack trace when one was reported.
    pub fn display_text(&self) -> (r: String)
        ensures
            self.stack_trace is None ==> r@ == self.message@,
            self.stack_trace matches Some(t) ==> r@ == self.message@ + seq!['\n'] + t@,
    {
        match &self.stack_trace {
            None => self.message.clone(),
            Some(t) => {
                let mut out = self.message.clone();
                out.append("\n");
                out.append(t.as_str());
                proof {
                    reveal_strlit("\n");
                    assert("\n"@ =~= seq!['\n']);
                }
                out
            },
        }
    }
}


/// How query results and listings are rendered.
#[derive(Clone, Copy, Debug, PartialEq, Eq, Structural)]
pub enum OutputMode {
    Table,
    Json,
    JsonPretty,
    Csv,
    Markdown,
}

impl Default for OutputMode {
    /// Rendering defaults to the table form.
    fn default() -> (r: Self)
        ensures
            r is Table,
    {
        OutputMode::Table
    }
}

impl OutputMode {
    /// Reads a mode name as the command line spells it.  Only the explicit
    /// spellings parse; anything else, the default name included, is
    /// reported back as unreadable.
    pub fn from_str(s: &str) -> (r: Result<OutputMode, String>)
        ensures
            s@ == "json"@ ==> (r matches Ok(m) && m is Json),
            s@ == "json-pretty"@ ==> (r matches Ok(m) && m is JsonPretty),
            s@ == "csv"@ ==> (r matches Ok(m) && m is Csv),
            s@ == "markdown"@ ==> (r matches Ok(m) && m is Markdown),
            s@ != "json"@ && s@ != "json-pretty"@ && s@ != "csv"@ && s@ != "markdown"@ ==> r
                is Err,
    {
        proof {
            reveal_strlit("json");
            reveal_strlit("json-pretty");
            reveal_strlit("csv");
            reveal_strlit("markdown");
            assert("json"@.len() == 4);
            assert("json-pretty"@.len() == 11);
            assert("csv"@.len() == 3);
            assert("markdown"@.len() == 8);
        }
        if crate::strutil::str_eq(s, "json") {
            Ok(OutputMode::Json)
        } else if crate::strutil::str_eq(s, "json-pretty") {
            Ok(OutputMode::JsonPretty)
        } else if crate::strutil::str_eq(s, "csv") {
            Ok(OutputMode::Csv)
        } else if crate::strutil::str_eq(s, "markdown") {
            Ok(OutputMode::Markdown)
        } else {
            let mut msg = String::new();
            msg.append("Failed to read output format: \"");
            msg.append(s);
            msg.append("\"");
            Err(msg)
        }
    }
}

} // verus!
