//! Display-ready reports of errors and warnings.

use crate::ast::SrcSpan;
use crate::text::smol_str_text;
use smol_str::SmolStr;
use vstd::prelude::*;
use vstd::string::*;

verus! {

/// How severe a diagnostic is.
#[derive(Debug, Clone, Copy, PartialEq, Eq, Structural)]
pub enum Level {
    Error,
    Warning,
}

/// A span of source with the text to show beside it.
#[derive(Debug, Clone, PartialEq, Eq)]
pub struct Label {
    pub text: Option<String>,
    pub span: SrcSpan,
}

/// Where a diagnostic points: the module's path and whole source text, so
/// that an excerpt can be shown without reading any file again, and the
/// labelled spans.
#[derive(Debug, Clone, PartialEq, Eq)]
pub struct Location {
    pub path: String,
    pub src: SmolStr,
    pub label: Label,
    pub extra_labels: Vec<Label>,
}

/// One report, ready to be shown.
#[derive(Debug, Clone, PartialEq, Eq)]
pub struct Diagnostic {
    pub title: String,
    pub text: String,
    pub level: Level,
    pub location: Option<Location>,
    pub hint: Option<String>,
}

/// What a [`Label`] says.
pub ghost struct LabelView {
    pub text: Option<Seq<char>>,
    pub span: SrcSpan,
}

/// What a [`Location`] says.
pub ghost struct LocationView {
    pub path: Seq<char>,
    pub src: Seq<char>,
    pub label: LabelView,
    pub extra_labels: Seq<LabelView>,
}

/// What a [`Diagnostic`] says.
pub ghost struct DiagnosticView {
    pub title: Seq<char>,
    pub text: Seq<char>,
    pub level: Level,
    pub location: Option<LocationView>,
    pub hint: Option<Seq<char>>,
}

/// The text of an optional string.
pub open spec fn text_of(s: Option<String>) -> Option<Seq<char>> {
    match s {
        Some(s) => Some(s@),
        None => None,
    }
}

impl View for Label {
    type V = LabelView;

    open spec fn view(&self) -> LabelView {
        LabelView { text: text_of(self.text), span: self.span }
    }
}

impl View for Location {
    type V = LocationView;

    open spec fn view(&self) -> LocationView {
        LocationView {
            path: self.path@,
            src: smol_str_text(self.src),
            label: self.label@,
            extra_labels: self.extra_labels@.map_values(|l: Label| l@),
        }
    }
}

impl View for Diagnostic {
    type V = DiagnosticView;

    open spec fn view(&self) -> DiagnosticView {
        DiagnosticView {
            title: self.title@,
            text: self.text@,
            level: self.level,
            location: match self.location {
                Some(location) => Some(location@),
                None => None,
            },
            hint: text_of(self.hint),
        }
    }
}

/// The word that a diagnostic of a level begins with.
pub open spec fn level_word(level: Level) -> Seq<char> {
    match level {
        Level::Error => "error"@,
        Level::Warning => "warning"@,
    }
}

/// A diagnostic as plain text: the level and the title; the path and the
/// label of the place it points at, if any; the body, if any; the hint, if
/// any.
pub open spec fn rendered(diagnostic: DiagnosticView) -> Seq<char> {
    let head = level_word(diagnostic.level) + ": "@ + diagnostic.title + "\n"@;
    let placed = match diagnostic.location {
        Some(location) => {
            let at = head + "  --> "@ + location.path + "\n"@;
            match location.label.text {
                Some(text) => at + "      "@ + text + "\n"@,
                None => at,
            }
        },
        None => head,
    };
    let told = if diagnostic.text.len() > 0 {
        placed + "\n"@ + diagnostic.text + "\n"@
    } else {
        placed
    };
    match diagnostic.hint {
        Some(hint) => told + "\nHint: "@ + hint + "\n"@,
        None => told,
    }
}

impl Diagnostic {
    /// The diagnostic as plain text.
    pub fn render(&self) -> (text: String)
        ensures
            text@ == rendered(self@),
    {
        let mut text = match self.level {
            Level::Error => String::from_str("error"),
            Level::Warning => String::from_str("warning"),
        };
        text.append(": ");
        text.append(self.title.as_str());
        text.append("\n");
        match &self.location {
            Some(location) => {
                text.append("  --> ");
                text.append(location.path.as_str());
                text.append("\n");
                match &location.label.text {
                    Some(label) => {
                        text.append("      ");
                        text.append(label.as_str());
                        text.append("\n");
                    },
                    None => {},
                }
            },
            None => {},
        }
        if !self.text.as_str().is_empty() {
            text.append("\n");
            text.append(self.text.as_str());
            text.append("\n");
        }
        match &self.hint {
            Some(hint) => {
                text.append("\nHint: ");
                text.append(hint.as_str());
                text.append("\n");
            },
            None => {},
        }
        text
    }
}

/// What a list of diagnostics says, one by one.
pub open spec fn views(diagnostics: Seq<Diagnostic>) -> Seq<DiagnosticView> {
    diagnostics.map_values(|d: Diagnostic| d@)
}

} // verus!
