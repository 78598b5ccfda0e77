//! The context registrar (builder) and the log adapter.
//!
//! The builder gathers a context identifier and description and, on `build`,
//! validates that both can be carried by the daemon's text representation.
//! The adapter translates each record into the daemon's severity scale and a
//! formatted line; the caller hands the resulting message to the daemon's
//! send entry point.

use crate::level::{map_level_spec, map_level, DltLogLevel, Level};
use crate::text::{
    contains_nul, encode_text, format_line, formatted_line, lemma_basename_no_nul,
    lemma_formatted_line_nul, lemma_sentinel_no_nul, sentinel_text,
};
use vstd::prelude::*;

verus! {

/// A configuration string cannot be carried by the daemon's text
/// representation because it holds an embedded terminator character.
#[derive(Clone, Copy, PartialEq, Eq, Structural, Debug)]
pub enum EncodingError {
    NulInContextName,
    NulInContextDescription,
}

/// The pending configuration of a context registration: an identifier and a
/// human-readable description, both overwritable until `build`.
pub struct DltLoggerBuilder {
    context_name: String,
    context_description: String,
}

/// The abstract value of a pending configuration or of a registered context:
/// its identifier and description.
pub struct ContextView {
    pub name: Seq<char>,
    pub description: Seq<char>,
}

impl View for DltLoggerBuilder {
    type V = ContextView;

    closed spec fn view(&self) -> ContextView {
        ContextView {
            name: self.context_name@,
            description: self.context_description@,
        }
    }
}

/// A context that can be registered with the daemon: neither of its strings
/// holds an embedded terminator.
pub open spec fn registrable(v: ContextView) -> bool {
    &&& !contains_nul(v.name)
    &&& !contains_nul(v.description)
}

impl DltLoggerBuilder {
    /// A fresh configuration with an empty identifier and description.
    pub fn new() -> (r: Self)
        ensures
            r@.name == Seq::<char>::empty(),
            r@.description == Seq::<char>::empty(),
    {
        Self { context_name: String::new(), context_description: String::new() }
    }

    /// Replaces the pending context identifier; no validation happens until
    /// `build`.
    pub fn set_context_name(&mut self, context_name: String)
        ensures
            final(self)@.name == context_name@,
            final(self)@.description == old(self)@.description,
    {
        self.context_name = context_name;
    }

    /// Replaces the pending context description; no validation happens until
    /// `build`.
    pub fn set_context_description(&mut self, context_description: String)
        ensures
            final(self)@.name == old(self)@.name,
            final(self)@.description == context_description@,
    {
        self.context_description = context_description;
    }

    /// Consumes the configuration and produces the adapter for it. Succeeds
    /// exactly when both strings can be carried by the daemon's text
    /// representation; the identifier is checked first.
    pub fn build(self) -> (r: Result<DltLogger, EncodingError>)
        ensures
            r is Ok <==> registrable(self@),
            r matches Ok(logger) ==> logger@ == self@,
            contains_nul(self@.name) ==> r == Result::<
                DltLogger,
                EncodingError,
            >::Err(EncodingError::NulInContextName),
            !contains_nul(self@.name) && contains_nul(self@.description) ==> r == Result::<
                DltLogger,
                EncodingError,
            >::Err(EncodingError::NulInContextDescription),
    {
        if crate::text::has_nul(self.context_name.as_str()) {
            Err(EncodingError::NulInContextName)
        } else if crate::text::has_nul(self.context_description.as_str()) {
            Err(EncodingError::NulInContextDescription)
        } else {
            Ok(
                DltLogger {
                    context_name: self.context_name,
                    context_description: self.context_description,
                },
            )
        }
    }
}

/// The log adapter: it stands for one successful context registration and
/// translates each record for that context. It holds no other state, so it
/// can be shared by reference across threads.
pub struct DltLogger {
    context_name: String,
    context_description: String,
}

impl View for DltLogger {
    type V = ContextView;

    closed spec fn view(&self) -> ContextView {
        ContextView {
            name: self.context_name@,
            description: self.context_description@,
        }
    }
}

/// One translated record, ready for the daemon's send entry point: the
/// identifier of the owning context, the mapped severity, and the encoded
/// line.
pub struct DltMessage {
    pub context_name: String,
    pub level: DltLogLevel,
    pub text: String,
}

/// The path used for a record that carried no source file.
pub open spec fn effective_file(file: Option<&str>) -> Seq<char> {
    match file {
        Option::Some(f) => f@,
        Option::None => seq!['?'],
    }
}

/// The line number used for a record that carried no source line.
pub open spec fn effective_line(line: Option<u32>) -> nat {
    match line {
        Option::Some(l) => l as nat,
        Option::None => 0,
    }
}

/// The line the daemon receives for a record: the formatted
/// `[<basename>:<line>] <message>` text, or the fixed sentinel when that text
/// holds an embedded terminator.
pub open spec fn sent_text(file: Option<&str>, line: Option<u32>, msg: Seq<char>) -> Seq<char> {
    let rendered = formatted_line(effective_file(file), effective_line(line), msg);
    if contains_nul(rendered) {
        sentinel_text()
    } else {
        rendered
    }
}

impl DltLogger {
    /// Whether a record of this severity and target is handled at all.
    /// Always true: severity filtering is delegated entirely to the daemon,
    /// which applies its own runtime-configurable threshold.
    pub fn enabled(&self, _level: Level, _target: &str) -> (r: bool)
        ensures
            r == true,
    {
        true
    }

    /// Translates one record: maps the severity onto the daemon's scale,
    /// formats `[<basename>:<line>] <message>` (with the placeholders `?` and
    /// `0` when the record carried no source location), and substitutes the
    /// fixed sentinel when the line cannot be carried by the daemon's text
    /// representation. The result is attributed to this adapter's context.
    pub fn log(&self, level: Level, file: Option<&str>, line: Option<u32>, message: &str) -> (m:
        DltMessage)
        ensures
            m.context_name@ == self@.name,
            m.level == map_level_spec(level),
            m.text@ == sent_text(file, line, message@),
            !contains_nul(m.text@),
    {
        let file_str: &str = match file {
            Option::Some(f) => f,
            Option::None => {
                proof {
                    reveal_strlit("?");
                    assert("?"@ =~= seq!['?']);
                }
                "?"
            },
        };
        let line_no: u32 = match line {
            Option::Some(l) => l,
            Option::None => 0,
        };
        let rendered = format_line(file_str, line_no, message);
        let text = encode_text(rendered);
        DltMessage { context_name: self.context_name.clone(), level: map_level(level), text }
    }

    /// Required by the facade; the daemon interface exposes no flush
    /// primitive, so nothing happens and nothing is changed.
    pub fn flush(&self) {
    }

    /// The identifier this context was registered under.
    pub fn context_name(&self) -> (r: &str)
        ensures
            r@ == self@.name,
    {
        self.context_name.as_str()
    }

    /// The human-readable description this context was registered with.
    pub fn context_description(&self) -> (r: &str)
        ensures
            r@ == self@.description,
    {
        self.context_description.as_str()
    }
}

/// For a record whose path and message hold no embedded terminator, the text
/// sent downstream is exactly the formatted `[<basename>:<line>] <message>`
/// line, unchanged.
pub proof fn lemma_clean_record_sent_verbatim(file: Option<&str>, line: Option<u32>, msg: Seq<char>)
    requires
        !contains_nul(effective_file(file)),
        !contains_nul(msg),
    ensures
        sent_text(file, line, msg) == formatted_line(
            effective_file(file),
            effective_line(line),
            msg,
        ),
{
    lemma_basename_no_nul(effective_file(file));
    lemma_formatted_line_nul(effective_file(file), effective_line(line), msg);
}

/// For a message that holds an embedded terminator, the fixed sentinel is
/// sent in its place, and the sentinel itself can always be carried: a
/// malformed message never fails the caller and never vanishes silently.
pub proof fn lemma_malformed_record_sent_as_sentinel(
    file: Option<&str>,
    line: Option<u32>,
    msg: Seq<char>,
)
    requires
        contains_nul(msg),
    ensures
        sent_text(file, line, msg) == sentinel_text(),
        !contains_nul(sent_text(file, line, msg)),
{
    lemma_formatted_line_nul(effective_file(file), effective_line(line), msg);
    lemma_sentinel_no_nul();
}

/// Two adapters registered under distinct identifiers attribute their
/// messages to distinct contexts, so their records stay distinguishable at
/// the daemon.
pub proof fn lemma_independent_contexts(
    l1: DltLogger,
    l2: DltLogger,
    m1: DltMessage,
    m2: DltMessage,
)
    requires
        l1@.name != l2@.name,
        m1.context_name@ == l1@.name,
        m2.context_name@ == l2@.name,
    ensures
        m1.context_name@ != m2.context_name@,
{
}

} // verus!
