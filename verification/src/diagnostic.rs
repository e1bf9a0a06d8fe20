//! The diagnostic: a level, a primary location, a message, attached notes and
//! child messages, together with the rule that folds the notes into one text.

use vstd::prelude::*;
use vstd::string::*;
use proc_macro2::Span;
use crate::text::{ensure_lf, same_text, with_line_end};
use crate::tokens::call_site;

verus! {

/// How severe a diagnostic is. Only errors are rendered as `compile_error!`.
#[derive(Debug, PartialEq, Eq, Clone, Copy, Structural)]
pub enum Level {
    Error,
    Warning,
}

/// The two kinds of note that can be attached to a diagnostic.
#[derive(Debug, PartialEq, Eq, Clone, Copy, Structural)]
pub enum SuggestionKind {
    Help,
    Note,
}

/// The word a kind of note is printed with.
pub open spec fn kind_name(kind: SuggestionKind) -> Seq<char> {
    match kind {
        SuggestionKind::Help => seq!['h', 'e', 'l', 'p'],
        SuggestionKind::Note => seq!['n', 'o', 't', 'e'],
    }
}

/// Whether a note introduced by `word` is a help note: the words `help` and
/// `hint` are, every other word makes a plain note.
pub open spec fn is_help_word(word: Seq<char>) -> bool {
    word == seq!['h', 'e', 'l', 'p'] || word == seq!['h', 'i', 'n', 't']
}

impl SuggestionKind {
    pub fn name(&self) -> (word: &'static str)
        ensures
            word@ == kind_name(*self),
    {
        match self {
            SuggestionKind::Note => {
                proof {
                    reveal_strlit("note");
                }
                assert("note"@ =~= kind_name(SuggestionKind::Note));
                "note"
            },
            SuggestionKind::Help => {
                proof {
                    reveal_strlit("help");
                }
                assert("help"@ =~= kind_name(SuggestionKind::Help));
                "help"
            },
        }
    }

    /// The kind that a note introduced by `word` has.
    pub fn from_word(word: &str) -> (kind: SuggestionKind)
        ensures
            kind == if is_help_word(word@) {
                SuggestionKind::Help
            } else {
                SuggestionKind::Note
            },
    {
        proof {
            reveal_strlit("help");
            reveal_strlit("hint");
        }
        assert("help"@ =~= seq!['h', 'e', 'l', 'p']);
        assert("hint"@ =~= seq!['h', 'i', 'n', 't']);
        if same_text(word, "help") || same_text(word, "hint") {
            SuggestionKind::Help
        } else {
            SuggestionKind::Note
        }
    }
}

/// A note as the contracts see it.
pub struct AttachmentView {
    pub kind: SuggestionKind,
    pub text: Seq<char>,
    pub span: Option<Span>,
}

/// One place at which an error is reported: the range from `start` to `end`
/// and the text shown there.
pub struct Site {
    pub start: Span,
    pub end: Span,
    pub message: Seq<char>,
}

/// A diagnostic as the contracts see it.
pub struct DiagnosticView {
    pub level: Level,
    pub start: Span,
    pub end: Span,
    pub message: Seq<char>,
    pub attachments: Seq<AttachmentView>,
    pub children: Seq<Site>,
}

/// The line that one note contributes to a composed message.
pub open spec fn attachment_line(note: AttachmentView) -> Seq<char> {
    seq![' ', ' ', '=', ' '] + kind_name(note.kind) + seq![':', ' '] + with_line_end(note.text)
}

/// The lines of all notes, in the order in which they were attached.
pub open spec fn attachment_lines(notes: Seq<AttachmentView>) -> Seq<char>
    decreases notes.len(),
{
    if notes.len() == 0 {
        Seq::<char>::empty()
    } else {
        attachment_lines(notes.drop_last()) + attachment_line(notes.last())
    }
}

/// The message that is shown for `message` with `notes` attached: the message
/// alone where there are no notes; otherwise the message on lines of its own,
/// an empty line, one line for each note, and an empty line.
pub open spec fn compose(message: Seq<char>, notes: Seq<AttachmentView>) -> Seq<char> {
    if notes.len() == 0 {
        message
    } else {
        with_line_end(message) + seq!['\n'] + attachment_lines(notes) + seq!['\n']
    }
}

impl DiagnosticView {
    /// The diagnostic that `spanned` makes: nothing attached yet.
    pub open spec fn plain(start: Span, end: Span, level: Level, message: Seq<char>) -> Self {
        DiagnosticView {
            level,
            start,
            end,
            message,
            attachments: Seq::empty(),
            children: Seq::empty(),
        }
    }

    /// This diagnostic with one more note at the end of its notes.
    pub open spec fn with_attachment(
        self,
        kind: SuggestionKind,
        text: Seq<char>,
        span: Option<Span>,
    ) -> Self {
        DiagnosticView {
            attachments: self.attachments.push(AttachmentView { kind, text, span }),
            ..self
        }
    }

    /// This diagnostic with one more child message at the end of its children.
    pub open spec fn with_child(self, start: Span, end: Span, message: Seq<char>) -> Self {
        DiagnosticView { children: self.children.push(Site { start, end, message }), ..self }
    }

    /// This diagnostic with another main message.
    pub open spec fn with_message(self, message: Seq<char>) -> Self {
        DiagnosticView { message, ..self }
    }

    /// The main message with the notes folded in.
    pub open spec fn composed(self) -> Seq<char> {
        compose(self.message, self.attachments)
    }

    /// The error sites this diagnostic is rendered as: the main message with
    /// its notes, unless this is a warning, and then each child on its own.
    pub open spec fn sites(self) -> Seq<Site> {
        if self.level == Level::Warning {
            self.children
        } else {
            seq![Site { start: self.start, end: self.end, message: self.composed() }]
                + self.children
        }
    }
}

/// A note attached to a diagnostic.
#[derive(Debug)]
pub struct Attachment {
    pub kind: SuggestionKind,
    pub text: String,
    pub span: Option<Span>,
}

impl View for Attachment {
    type V = AttachmentView;

    open spec fn view(&self) -> AttachmentView {
        AttachmentView { kind: self.kind, text: self.text@, span: self.span }
    }
}

/// A child message of a diagnostic, reported at a location of its own.
#[derive(Debug)]
pub struct Child {
    pub start: Span,
    pub end: Span,
    pub message: String,
}

impl View for Child {
    type V = Site;

    open spec fn view(&self) -> Site {
        Site { start: self.start, end: self.end, message: self.message@ }
    }
}

/// A single diagnostic message.
#[derive(Debug)]
pub struct Diagnostic {
    level: Level,
    start: Span,
    end: Span,
    msg: String,
    suggestions: Vec<Attachment>,
    children: Vec<Child>,
}

impl View for Diagnostic {
    type V = DiagnosticView;

    closed spec fn view(&self) -> DiagnosticView {
        DiagnosticView {
            level: self.level,
            start: self.start,
            end: self.end,
            message: self.msg@,
            attachments: self.suggestions@.map_values(|a: Attachment| a@),
            children: self.children@.map_values(|c: Child| c@),
        }
    }
}

impl Diagnostic {
    /// A new diagnostic that points to the call site of the macro.
    pub fn new(level: Level, message: String) -> (diag: Self)
        ensures
            diag@ == DiagnosticView::plain(diag@.start, diag@.start, level, message@),
    {
        Diagnostic::spanned(call_site(), level, message)
    }

    /// A new diagnostic that points to `span`.
    pub fn spanned(span: Span, level: Level, message: String) -> (diag: Self)
        ensures
            diag@ == DiagnosticView::plain(span, span, level, message@),
    {
        Diagnostic::double_spanned(span, span, level, message)
    }

    /// A new diagnostic that points to the range from `start` to `end`.
    pub fn double_spanned(start: Span, end: Span, level: Level, message: String) -> (diag: Self)
        ensures
            diag@ == DiagnosticView::plain(start, end, level, message@),
    {
        let diag = Diagnostic {
            level,
            start,
            end,
            msg: message,
            suggestions: Vec::new(),
            children: Vec::new(),
        };
        assert(diag@.attachments =~= Seq::empty());
        assert(diag@.children =~= Seq::empty());
        diag
    }

    /// Adds another error message that is reported right after the main one,
    /// at `span`.
    pub fn span_error(self, span: Span, msg: String) -> (diag: Self)
        ensures
            diag@ == self@.with_child(span, span, msg@),
    {
        self.double_span_error(span, span, msg)
    }

    /// Adds another error message that is reported right after the main one,
    /// at the range from `start` to `end`.
    pub fn double_span_error(self, start: Span, end: Span, msg: String) -> (diag: Self)
        ensures
            diag@ == self@.with_child(start, end, msg@),
    {
        let mut diag = self;
        let child = Child { start, end, message: msg };
        diag.children.push(child);
        assert(diag@.children =~= self@.children.push(child@));
        diag
    }

    /// Attaches a note of the given kind.
    fn attach(self, kind: SuggestionKind, msg: String, span: Option<Span>) -> (diag: Self)
        ensures
            diag@ == self@.with_attachment(kind, msg@, span),
    {
        let mut diag = self;
        let note = Attachment { kind, text: msg, span };
        diag.suggestions.push(note);
        assert(diag@.attachments =~= self@.attachments.push(note@));
        diag
    }

    /// Attaches a "help" note with a location of its own. The fallback
    /// rendering ignores that location.
    pub fn span_help(self, span: Span, msg: String) -> (diag: Self)
        ensures
            diag@ == self@.with_attachment(SuggestionKind::Help, msg@, Some(span)),
    {
        self.attach(SuggestionKind::Help, msg, Some(span))
    }

    /// Attaches a "help" note.
    pub fn help(self, msg: String) -> (diag: Self)
        ensures
            diag@ == self@.with_attachment(SuggestionKind::Help, msg@, None),
    {
        self.attach(SuggestionKind::Help, msg, None)
    }

    /// Attaches a note with a location of its own. The fallback rendering
    /// ignores that location.
    pub fn span_note(self, span: Span, msg: String) -> (diag: Self)
        ensures
            diag@ == self@.with_attachment(SuggestionKind::Note, msg@, Some(span)),
    {
        self.attach(SuggestionKind::Note, msg, Some(span))
    }

    /// Attaches a note.
    pub fn note(self, msg: String) -> (diag: Self)
        ensures
            diag@ == self@.with_attachment(SuggestionKind::Note, msg@, None),
    {
        self.attach(SuggestionKind::Note, msg, None)
    }

    /// Attaches a note whose kind is given by the word that introduces it,
    /// with a location of its own.
    pub fn span_suggestion(self, span: Span, suggestion: &str, msg: String) -> (diag: Self)
        ensures
            diag@ == self@.with_attachment(
                if is_help_word(suggestion@) {
                    SuggestionKind::Help
                } else {
                    SuggestionKind::Note
                },
                msg@,
                Some(span),
            ),
    {
        match SuggestionKind::from_word(suggestion) {
            SuggestionKind::Help => self.span_help(span, msg),
            SuggestionKind::Note => self.span_note(span, msg),
        }
    }

    /// Attaches a note whose kind is given by the word that introduces it.
    pub fn suggestion(self, suggestion: &str, msg: String) -> (diag: Self)
        ensures
            diag@ == self@.with_attachment(
                if is_help_word(suggestion@) {
                    SuggestionKind::Help
                } else {
                    SuggestionKind::Note
                },
                msg@,
                None,
            ),
    {
        match SuggestionKind::from_word(suggestion) {
            SuggestionKind::Help => self.help(msg),
            SuggestionKind::Note => self.note(msg),
        }
    }

    /// The main message, without the notes.
    pub fn message(&self) -> (text: &str)
        ensures
            text@ == self@.message,
    {
        self.msg.as_str()
    }

    /// This diagnostic with `prefix`, a colon and a space put before its main
    /// message.
    pub fn prefixed(self, prefix: &str) -> (diag: Self)
        ensures
            diag@ == self@.with_message(prefix@ + seq![':', ' '] + self@.message),
    {
        let mut diag = self;
        let mut text = String::from_str(prefix);
        proof {
            reveal_strlit(": ");
        }
        assert(": "@ =~= seq![':', ' ']);
        text.append(": ");
        text.append(diag.msg.as_str());
        diag.msg = text;
        diag
    }

    /// The level of this diagnostic.
    pub fn level(&self) -> (level: Level)
        ensures
            level == self@.level,
    {
        self.level
    }

    /// The first and the last span of the primary location.
    pub fn span_range(&self) -> (range: (Span, Span))
        ensures
            range == (self@.start, self@.end),
    {
        (self.start, self.end)
    }

    /// The notes, in the order in which they were attached.
    pub fn attachments(&self) -> (notes: &Vec<Attachment>)
        ensures
            notes@.map_values(|a: Attachment| a@) == self@.attachments,
    {
        &self.suggestions
    }

    /// The child messages, in the order in which they were added.
    pub fn children(&self) -> (children: &Vec<Child>)
        ensures
            children@.map_values(|c: Child| c@) == self@.children,
    {
        &self.children
    }

    /// The main message with the notes folded in: what an error at the
    /// primary location shows.
    pub fn composed_message(&self) -> (text: String)
        ensures
            text@ == self@.composed(),
    {
        if self.suggestions.len() == 0 {
            return self.msg.clone();
        }
        let mut text = String::new();
        ensure_lf(&mut text, self.msg.as_str());
        proof {
            reveal_strlit("\n");
            reveal_strlit("  = ");
            reveal_strlit(": ");
        }
        assert("\n"@ =~= seq!['\n']);
        assert("  = "@ =~= seq![' ', ' ', '=', ' ']);
        assert(": "@ =~= seq![':', ' ']);
        text.append("\n");
        let ghost head = with_line_end(self.msg@) + seq!['\n'];
        let ghost notes = self@.attachments;
        assert(text@ =~= head);
        assert(notes.take(0) =~= Seq::<AttachmentView>::empty());
        let mut i: usize = 0;
        while i < self.suggestions.len()
            invariant
                0 <= i <= self.suggestions.len(),
                notes == self@.attachments,
                notes.len() == self.suggestions.len(),
                head == with_line_end(self.msg@) + seq!['\n'],
                text@ == head + attachment_lines(notes.take(i as int)),
                "  = "@ == seq![' ', ' ', '=', ' '],
                ": "@ == seq![':', ' '],
            decreases self.suggestions.len() - i,
        {
            let note = &self.suggestions[i];
            let ghost before = text@;
            text.append("  = ");
            text.append(note.kind.name());
            text.append(": ");
            ensure_lf(&mut text, note.text.as_str());
            proof {
                let upto = notes.take(i as int + 1);
                assert(upto.drop_last() =~= notes.take(i as int));
                assert(upto.last() == note@);
                assert(text@ =~= before + attachment_line(note@));
                assert(text@ =~= head + attachment_lines(upto));
            }
            i += 1;
        }
        assert(notes.take(i as int) =~= notes);
        text.append("\n");
        text
    }
}

} // verus!
