//! Structured results of the commands, and their compact human-readable forms.
//!
//! The JSON shape of each result is given by its fields; serialization itself
//! happens outside this library.
use vstd::prelude::*;

use crate::error::{AppError, spec_error_code, spec_exit_code, spec_suggestions};
use crate::format::FormatContext;
use crate::text::{decimal, push_decimal};

verus! {

/// Rendering of a result according to a [`FormatContext`].
pub trait Render {
    /// Write this value to the appropriate output stream.
    fn render(&self, fmt: &FormatContext);
}

/// Inner detail of a structured error envelope.
#[derive(Debug, Clone, PartialEq)]
pub struct ErrorDetail {
    pub code: String,
    pub message: String,
    pub suggestions: Vec<String>,
    pub exit_code: i32,
}

/// Structured error envelope for JSON mode.
#[derive(Debug, Clone, PartialEq)]
pub struct ErrorOutput {
    pub error: ErrorDetail,
}

/// The suggestions of an error detail as character sequences.
pub open spec fn suggestion_views(v: Seq<String>) -> Seq<Seq<char>> {
    v.map_values(|s: String| s@)
}

/// The lines of the human-readable error report: a header naming the code and
/// message, then one indented line per suggestion.
pub open spec fn spec_error_lines(d: ErrorDetail) -> Seq<Seq<char>> {
    seq!["error ["@ + d.code@ + "]: "@ + d.message@]
        + d.suggestions@.map_values(|s: String| "  \u{2192} "@ + s@)
}

impl ErrorOutput {
    /// Build the envelope that reports `e`.
    pub fn from_app_error(e: &AppError) -> (out: Self)
        ensures
            out.error.code@ == spec_error_code(*e),
            out.error.exit_code == spec_exit_code(*e),
            suggestion_views(out.error.suggestions@) == spec_suggestions(*e),
            crate::error::spec_message_prefix(*e).is_prefix_of(out.error.message@),
            crate::error::spec_message_is(*e, out.error.message@),
    {
        let hints = e.suggestions();
        let mut suggestions: Vec<String> = Vec::new();
        let mut i: usize = 0;
        while i < hints.len()
            invariant
                0 <= i <= hints@.len(),
                suggestions@.len() == i,
                forall|j: int| 0 <= j < i ==> #[trigger] suggestions@[j]@ == hints@[j]@,
            decreases hints@.len() - i,
        {
            suggestions.push(String::from_str(hints[i]));
            i = i + 1;
        }
        assert(suggestion_views(suggestions@) =~= hints@.map_values(|h: &'static str| h@));
        ErrorOutput {
            error: ErrorDetail {
                code: String::from_str(e.error_code()),
                message: e.message(),
                suggestions,
                exit_code: e.exit_code(),
            },
        }
    }

    /// The lines written to stderr when the error is shown to a person.
    pub fn human_lines(&self) -> (lines: Vec<String>)
        ensures
            lines@.map_values(|s: String| s@) == spec_error_lines(self.error),
    {
        let d = &self.error;
        let mut head = String::from_str("error [");
        head.append(d.code.as_str());
        head.append("]: ");
        head.append(d.message.as_str());
        let mut lines: Vec<String> = Vec::new();
        lines.push(head);
        let mut i: usize = 0;
        while i < d.suggestions.len()
            invariant
                0 <= i <= d.suggestions@.len(),
                d == &self.error,
                lines@.len() == i + 1,
                lines@[0]@ == "error ["@ + d.code@ + "]: "@ + d.message@,
                forall|j: int| 0 <= j < i ==> #[trigger] lines@[j + 1]@ == "  \u{2192} "@ + d.suggestions@[j]@,
            decreases d.suggestions@.len() - i,
        {
            let mut line = String::from_str("  \u{2192} ");
            line.append(d.suggestions[i].as_str());
            lines.push(line);
            i = i + 1;
        }
        let ghost lv: Seq<Seq<char>> = lines@.map_values(|s: String| s@);
        let ghost sv: Seq<Seq<char>> = spec_error_lines(self.error);
        assert forall|k: int| 0 < k < lines@.len() implies #[trigger] lv[k] == sv[k] by {
            assert(lines@[(k - 1) + 1]@ == "  \u{2192} "@ + d.suggestions@[k - 1]@);
        }
        assert(lines@.map_values(|s: String| s@) =~= spec_error_lines(self.error));
        lines
    }
}

/// Result of the `context` command.
#[derive(Debug, PartialEq)]
pub struct ContextOutput {
    pub relevant_rules: Vec<String>,
    pub anti_patterns: Vec<String>,
    pub history_snippets: Vec<String>,
}

impl Default for ContextOutput {
    fn default() -> (out: Self)
        ensures
            out.relevant_rules@.len() == 0,
            out.anti_patterns@.len() == 0,
            out.history_snippets@.len() == 0,
    {
        ContextOutput { relevant_rules: Vec::new(), anti_patterns: Vec::new(), history_snippets: Vec::new() }
    }
}

/// Result of the `ingest` command.
#[derive(Debug, PartialEq)]
pub struct IngestOutput {
    pub episodic_id: Option<String>,
    pub proposed_rules: Vec<String>,
    pub validated_rules: Vec<String>,
}

impl Default for IngestOutput {
    fn default() -> (out: Self)
        ensures
            out.episodic_id is None,
            out.proposed_rules@.len() == 0,
            out.validated_rules@.len() == 0,
    {
        IngestOutput { episodic_id: None, proposed_rules: Vec::new(), validated_rules: Vec::new() }
    }
}

/// Result of the `distill` command.
#[derive(Debug, PartialEq)]
pub struct DistillOutput {
    pub decayed: u64,
    pub pruned: u64,
    pub transitioned: u64,
}

impl Default for DistillOutput {
    fn default() -> (out: Self)
        ensures
            out.decayed == 0,
            out.pruned == 0,
            out.transitioned == 0,
    {
        DistillOutput { decayed: 0, pruned: 0, transitioned: 0 }
    }
}

/// Record counts per memory table.
#[derive(Debug, PartialEq)]
pub struct RecordCounts {
    pub episodic: u64,
    pub working: u64,
    pub procedural: u64,
}

impl Default for RecordCounts {
    fn default() -> (out: Self)
        ensures
            out.episodic == 0,
            out.working == 0,
            out.procedural == 0,
    {
        RecordCounts { episodic: 0, working: 0, procedural: 0 }
    }
}

/// Result of the `status` command.
#[derive(Debug, PartialEq)]
pub struct StatusOutput {
    pub ok: bool,
    pub db_path: String,
    pub counts: RecordCounts,
    pub schema_version: u32,
}

/// The compact one-line status report.
pub open spec fn spec_status_line(s: StatusOutput) -> Seq<char> {
    (if s.ok { "ok"@ } else { "ERR"@ })
        + " | db: "@ + s.db_path@
        + " | episodic: "@ + decimal(s.counts.episodic as nat)
        + ", working: "@ + decimal(s.counts.working as nat)
        + ", procedural: "@ + decimal(s.counts.procedural as nat)
        + " | schema: v"@ + decimal(s.schema_version as nat)
}

impl StatusOutput {
    /// Render as compact human-readable text.
    pub fn to_human(&self) -> (line: String)
        ensures
            line@ == spec_status_line(*self),
    {
        let mut line = if self.ok { String::from_str("ok") } else { String::from_str("ERR") };
        line.append(" | db: ");
        line.append(self.db_path.as_str());
        line.append(" | episodic: ");
        push_decimal(&mut line, self.counts.episodic);
        line.append(", working: ");
        push_decimal(&mut line, self.counts.working);
        line.append(", procedural: ");
        push_decimal(&mut line, self.counts.procedural);
        line.append(" | schema: v");
        push_decimal(&mut line, self.schema_version as u64);
        line
    }
}

/// Result of the `rules add` command.
#[derive(Debug, PartialEq)]
pub struct RuleAddOutput {
    pub id: String,
    pub created: bool,
}

impl RuleAddOutput {
    /// Render as compact human-readable text.
    pub fn to_human(&self) -> (line: String)
        ensures
            line@ == "added rule "@ + self.id@,
    {
        String::from_str("added rule ").concat(self.id.as_str())
    }
}

/// Result of the `rules rm` command.
#[derive(Debug, PartialEq)]
pub struct RuleRmOutput {
    pub id: String,
    pub deleted: bool,
}

impl RuleRmOutput {
    /// Render as compact human-readable text.
    pub fn to_human(&self) -> (line: String)
        ensures
            self.deleted ==> line@ == "removed rule "@ + self.id@,
            !self.deleted ==> line@ == "rule "@ + self.id@ + " not found"@,
    {
        if self.deleted {
            String::from_str("removed rule ").concat(self.id.as_str())
        } else {
            String::from_str("rule ").concat(self.id.as_str()).concat(" not found")
        }
    }
}

/// The marker shown after a rule's confidence: proven rules are marked as
/// such first; otherwise anti-patterns are marked; other rules carry none.
pub open spec fn spec_rule_flags(is_proven: bool, is_anti_pattern: bool) -> Seq<char> {
    if is_proven {
        " [proven]"@
    } else if is_anti_pattern {
        " [anti]"@
    } else {
        ""@
    }
}

/// The marker for a rule's status in the human-readable rule listings.
pub fn rule_flags(is_proven: bool, is_anti_pattern: bool) -> (flags: &'static str)
    ensures
        flags@ == spec_rule_flags(is_proven, is_anti_pattern),
{
    if is_proven {
        " [proven]"
    } else if is_anti_pattern {
        " [anti]"
    } else {
        ""
    }
}

/// One line of the human-readable rule listing, given the rule's confidence
/// already rendered with two decimals.
pub open spec fn spec_rule_summary_line(
    id: Seq<char>,
    confidence: Seq<char>,
    is_proven: bool,
    is_anti_pattern: bool,
    rule: Seq<char>,
) -> Seq<char> {
    "  "@ + id + " | C="@ + confidence + spec_rule_flags(is_proven, is_anti_pattern) + " | "@ + rule
}

/// Render one rule of a listing.
pub fn rule_summary_line(
    id: &str,
    confidence: &str,
    is_proven: bool,
    is_anti_pattern: bool,
    rule: &str,
) -> (line: String)
    ensures
        line@ == spec_rule_summary_line(id@, confidence@, is_proven, is_anti_pattern, rule@),
{
    let mut line = String::from_str("  ");
    line.append(id);
    line.append(" | C=");
    line.append(confidence);
    line.append(rule_flags(is_proven, is_anti_pattern));
    line.append(" | ");
    line.append(rule);
    line
}

/// The lines after the header of a listing, each preceded by a newline.
pub open spec fn spec_joined_tail(lines: Seq<Seq<char>>) -> Seq<char>
    decreases lines.len(),
{
    if lines.len() == 0 {
        Seq::empty()
    } else {
        spec_joined_tail(lines.drop_last()) + "\n"@ + lines.last()
    }
}

/// The human-readable rule listing: `no rules` when there are none, else a
/// header with the count followed by one line per rule.
pub open spec fn spec_rules_list_text(count: u64, lines: Seq<Seq<char>>) -> Seq<char> {
    if lines.len() == 0 {
        "no rules"@
    } else {
        decimal(count as nat) + " rule(s)"@ + spec_joined_tail(lines)
    }
}

/// Render a rule listing from its count and its rendered rule lines.
pub fn rules_list_text(count: u64, lines: &Vec<String>) -> (text: String)
    ensures
        text@ == spec_rules_list_text(count, lines@.map_values(|l: String| l@)),
{
    let ghost views = lines@.map_values(|l: String| l@);
    if lines.len() == 0 {
        return String::from_str("no rules");
    }
    let mut text = String::new();
    push_decimal(&mut text, count);
    text.append(" rule(s)");
    let ghost head = text@;
    let mut i: usize = 0;
    while i < lines.len()
        invariant
            0 <= i <= lines@.len(),
            views == lines@.map_values(|l: String| l@),
            text@ == head + spec_joined_tail(views.subrange(0, i as int)),
        decreases lines@.len() - i,
    {
        text.append("\n");
        text.append(lines[i].as_str());
        proof {
            assert(views.subrange(0, i + 1).drop_last() =~= views.subrange(0, i as int));
        }
        i = i + 1;
    }
    assert(views.subrange(0, lines@.len() as int) =~= views);
    text
}

/// The human-readable detail of one rule, given its confidence already
/// rendered with two decimals; a missing source shows as `-`.
pub open spec fn spec_rule_show_text(
    id: Seq<char>,
    confidence: Seq<char>,
    is_proven: bool,
    is_anti_pattern: bool,
    success_count: u32,
    failure_count: u32,
    source: Option<Seq<char>>,
    created_at: Seq<char>,
    rule: Seq<char>,
) -> Seq<char> {
    id + " | C="@ + confidence + spec_rule_flags(is_proven, is_anti_pattern)
        + " | S="@ + decimal(success_count as nat) + " F="@ + decimal(failure_count as nat)
        + " | src="@ + (match source { Some(s) => s, None => "-"@ })
        + " | "@ + created_at + "\n  "@ + rule
}

/// Render the detail of one rule.
pub fn rule_show_text(
    id: &str,
    confidence: &str,
    is_proven: bool,
    is_anti_pattern: bool,
    success_count: u32,
    failure_count: u32,
    source: Option<&str>,
    created_at: &str,
    rule: &str,
) -> (text: String)
    ensures
        text@ == spec_rule_show_text(
            id@,
            confidence@,
            is_proven,
            is_anti_pattern,
            success_count,
            failure_count,
            match source { Some(s) => Some(s@), None => None },
            created_at@,
            rule@,
        ),
{
    let mut text = String::from_str(id);
    text.append(" | C=");
    text.append(confidence);
    text.append(rule_flags(is_proven, is_anti_pattern));
    text.append(" | S=");
    push_decimal(&mut text, success_count as u64);
    text.append(" F=");
    push_decimal(&mut text, failure_count as u64);
    text.append(" | src=");
    match source {
        Some(s) => text.append(s),
        None => text.append("-"),
    }
    text.append(" | ");
    text.append(created_at);
    text.append("\n  ");
    text.append(rule);
    text
}

} // verus!
