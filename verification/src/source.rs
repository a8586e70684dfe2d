//! Source files, byte ranges, and the positions rules report.
use crate::ast::Syntax;
use vstd::prelude::*;
use vstd::string::*;
use vstd::utf8::*;

verus! {

/// Index of a file in its [`SourceManager`].
#[derive(Clone, Copy, Debug, PartialEq, Eq, Structural)]
pub struct FileId {
    pub index: usize,
}

/// A half-open byte range of a source file.
#[derive(Clone, Copy, Debug, PartialEq, Eq, Structural)]
pub struct TextRange {
    pub start: u32,
    pub end: u32,
}

impl TextRange {
    /// The range from `start` up to `end`.
    pub fn new(start: u32, end: u32) -> (range: TextRange)
        ensures
            range == (TextRange { start, end }),
    {
        TextRange { start, end }
    }

    /// Whether `inner` lies within this range.
    pub open spec fn covers(self, inner: TextRange) -> bool {
        self.start <= inner.start && inner.end <= self.end
    }

    pub fn encloses(self, inner: TextRange) -> (inside: bool)
        ensures
            inside == self.covers(inner),
    {
        self.start <= inner.start && inner.end <= self.end
    }
}

/// Where an abstract value is created or an event happens.
#[derive(Clone, Copy, Debug, PartialEq, Eq, Structural)]
pub struct AllocationSite {
    pub file: FileId,
    pub start: u32,
    pub end: u32,
}

impl AllocationSite {
    /// The site of `range` in `file`.
    pub fn new(file: FileId, range: TextRange) -> (site: AllocationSite)
        ensures
            site == site_of(file, range),
    {
        AllocationSite { file, start: range.start, end: range.end }
    }

    pub open spec fn spec_range(self) -> TextRange {
        TextRange { start: self.start, end: self.end }
    }

    /// The byte range of the site.
    pub fn range(self) -> (range: TextRange)
        ensures
            range == self.spec_range(),
    {
        TextRange { start: self.start, end: self.end }
    }
}

/// The site of `range` in `file`.
pub open spec fn site_of(file: FileId, range: TextRange) -> AllocationSite {
    AllocationSite { file, start: range.start, end: range.end }
}

/// A line and column, both counted from one.
#[derive(Clone, Copy, Debug, PartialEq, Eq, Structural)]
pub struct Position {
    pub line: u64,
    pub column: u64,
}

/// The positions of the two ends of a byte range.
#[derive(Clone, Copy, Debug, PartialEq, Eq, Structural)]
pub struct SourceSpan {
    pub start: Position,
    pub end: Position,
}

/// One analyzed file.
pub struct SourceFile {
    /// Path relative to the project root, with forward slashes.
    pub relative_path: String,
    /// The whole source text.
    pub text: String,
    /// Tokens in source order.
    pub tokens: Vec<TokenFact>,
    /// Syntax of the file, when it parses.
    pub syntax: Option<Syntax>,
}

/// One token.
#[derive(Clone, Copy, Debug, PartialEq, Eq, Structural)]
pub struct TokenFact {
    pub range: TextRange,
    /// Whether the token is a string literal.
    pub string: bool,
}

/// Whether a byte continues a multi-byte character.
pub open spec fn continues_character(byte: u8) -> bool {
    0x80 <= byte < 0xC0
}

/// Line of the byte at `offset`: one more than the line feeds before it.
pub open spec fn line_at(bytes: Seq<u8>, offset: int) -> int
    decreases offset,
{
    if offset <= 0 {
        1
    } else if bytes[offset - 1] == 10 {
        line_at(bytes, offset - 1) + 1
    } else {
        line_at(bytes, offset - 1)
    }
}

/// Column of the byte at `offset`: one more than the characters that start
/// between the last line feed and the byte.
pub open spec fn column_at(bytes: Seq<u8>, offset: int) -> int
    decreases offset,
{
    if offset <= 0 || bytes[offset - 1] == 10 {
        1
    } else if continues_character(bytes[offset - 1]) {
        column_at(bytes, offset - 1)
    } else {
        column_at(bytes, offset - 1) + 1
    }
}

/// `offset`, or the end of the text when `offset` lies behind it.
pub open spec fn clamped(bytes: Seq<u8>, offset: int) -> int {
    if offset <= bytes.len() {
        offset
    } else {
        bytes.len() as int
    }
}

/// Position of the byte at `offset`.
pub open spec fn position_at(bytes: Seq<u8>, offset: int) -> (int, int) {
    (line_at(bytes, clamped(bytes, offset)), column_at(bytes, clamped(bytes, offset)))
}

/// Line and column of both ends of a range.
pub open spec fn span_at(bytes: Seq<u8>, range: TextRange) -> ((int, int), (int, int)) {
    (position_at(bytes, range.start as int), position_at(bytes, range.end as int))
}

/// Whether both ends of a range lie on character boundaries, in order.
pub open spec fn sliceable(bytes: Seq<u8>, range: TextRange) -> bool {
    range.start <= range.end <= bytes.len() && is_char_boundary(bytes, range.start as int)
        && is_char_boundary(bytes, range.end as int)
}

/// Positions never go back as the offset grows, and move on behind a byte
/// that starts a character.
proof fn positions_ascend(bytes: Seq<u8>, a: int, b: int)
    requires
        0 <= a <= b <= bytes.len(),
    ensures
        line_at(bytes, a) <= line_at(bytes, b),
        line_at(bytes, a) == line_at(bytes, b) ==> column_at(bytes, a) <= column_at(bytes, b),
        a < b && !continues_character(bytes[a]) ==> line_at(bytes, a) < line_at(bytes, b)
            || column_at(bytes, a) < column_at(bytes, b),
        column_at(bytes, a) >= 1,
    decreases b,
{
    if a < b {
        positions_ascend(bytes, a, b - 1);
    } else if a > 0 {
        positions_ascend(bytes, a - 1, a - 1);
    }
}

/// Two places of a text between its characters have different positions.
pub proof fn boundary_positions_differ(text: Seq<char>, a: int, b: int)
    requires
        0 <= a < b <= encode_utf8(text).len(),
        is_char_boundary(encode_utf8(text), a),
    ensures
        position_at(encode_utf8(text), a) != position_at(encode_utf8(text), b),
{
    let bytes = encode_utf8(text);
    encode_utf8_valid_utf8(text);
    is_char_boundary_iff_not_is_continuation_byte(bytes, a);
    positions_ascend(bytes, a, b);
}

/// Two ranges of a text that have the same lines and columns are the same.
pub proof fn spans_tell_ranges_apart(text: Seq<char>, a: TextRange, b: TextRange)
    requires
        sliceable(encode_utf8(text), a),
        sliceable(encode_utf8(text), b),
        span_at(encode_utf8(text), a) == span_at(encode_utf8(text), b),
    ensures
        a == b,
{
    if a.start < b.start {
        boundary_positions_differ(text, a.start as int, b.start as int);
    } else if b.start < a.start {
        boundary_positions_differ(text, b.start as int, a.start as int);
    }
    if a.end < b.end {
        boundary_positions_differ(text, a.end as int, b.end as int);
    } else if b.end < a.end {
        boundary_positions_differ(text, b.end as int, a.end as int);
    }
}

/// The text of a byte range; empty for a range that cuts a character or
/// leaves the text.
pub open spec fn slice_of(text: Seq<char>, range: TextRange) -> Seq<char> {
    let bytes = encode_utf8(text);
    if sliceable(bytes, range) {
        decode_utf8(bytes.subrange(range.start as int, range.end as int))
    } else {
        Seq::empty()
    }
}

impl Position {
    pub open spec fn pair(self) -> (int, int) {
        (self.line as int, self.column as int)
    }
}

impl SourceSpan {
    pub open spec fn pairs(self) -> ((int, int), (int, int)) {
        (self.start.pair(), self.end.pair())
    }
}

impl SourceFile {
    pub open spec fn bytes(self) -> Seq<u8> {
        encode_utf8(self.text@)
    }

    /// Line and column of a byte offset.
    pub fn position_of_byte(&self, offset: u32) -> (position: Position)
        ensures
            position.pair() == position_at(self.bytes(), offset as int),
    {
        let bytes: &[u8] = self.text.as_str().as_bytes();
        let end: usize = if offset as usize <= bytes.len() {
            offset as usize
        } else {
            bytes.len()
        };
        let mut line: u64 = 1;
        let mut column: u64 = 1;
        let mut i: usize = 0;
        while i < end
            invariant
                i <= end <= bytes@.len(),
                end <= u32::MAX,
                bytes@ == self.bytes(),
                line == line_at(bytes@, i as int),
                column == column_at(bytes@, i as int),
                1 <= line <= i + 1,
                1 <= column <= i + 1,
            decreases end - i,
        {
            let byte: u8 = bytes[i];
            if byte == 10 {
                line += 1;
                column = 1;
            } else if !(0x80 <= byte && byte < 0xC0) {
                column += 1;
            }
            i += 1;
        }
        Position { line, column }
    }

    /// Positions of both ends of a byte range.
    pub fn span_of_range(&self, range: TextRange) -> (span: SourceSpan)
        ensures
            span.pairs() == span_at(self.bytes(), range),
    {
        SourceSpan {
            start: self.position_of_byte(range.start),
            end: self.position_of_byte(range.end),
        }
    }

    /// The text of a byte range.
    pub fn slice(&self, range: TextRange) -> (text: String)
        ensures
            text@ == slice_of(self.text@, range),
    {
        let text: &str = self.text.as_str();
        let start: usize = range.start as usize;
        let end: usize = range.end as usize;
        if start <= end && end <= text.as_bytes().len() && text.is_char_boundary(start)
            && text.is_char_boundary(end) {
            let ghost bytes = encode_utf8(text@);
            let head: &str = text.split_at(end).0;
            proof {
                encode_utf8_valid_utf8(text@);
                valid_utf8_split(bytes, end as int);
                encode_utf8_valid_utf8(head@);
                is_char_boundary_start_end_of_seq(encode_utf8(head@));
                if start < end {
                    is_char_boundary_iff_not_is_continuation_byte(bytes, start as int);
                    is_char_boundary_iff_not_is_continuation_byte(
                        encode_utf8(head@),
                        start as int,
                    );
                }
            }
            let part: &str = head.split_at(start).1;
            proof {
                assert(encode_utf8(part@) =~= bytes.subrange(start as int, end as int));
                encode_utf8_decode_utf8(part@);
            }
            part.to_owned()
        } else {
            proof {
                reveal_strlit("");
                assert(""@ =~= Seq::<char>::empty());
            }
            "".to_owned()
        }
    }
}

/// Every analyzed file of a project.
pub struct SourceManager {
    pub files: Vec<SourceFile>,
    /// Directory that relative paths and profiles start from.
    pub project_root: String,
}

/// Tokens of a file; none for an id that names no file.
pub open spec fn tokens_in(sources: SourceManager, file: FileId) -> Seq<TokenFact> {
    if file.index < sources.files@.len() {
        sources.files@[file.index as int].tokens@
    } else {
        Seq::empty()
    }
}

/// Syntax of a file, when the file is known and parses.
pub open spec fn syntax_in(sources: SourceManager, file: FileId) -> Option<Syntax> {
    if file.index < sources.files@.len() {
        sources.files@[file.index as int].syntax
    } else {
        None
    }
}

/// Path of a file; empty for an id that names none.
pub open spec fn path_in(sources: SourceManager, file: FileId) -> Seq<char> {
    if file.index < sources.files@.len() {
        sources.files@[file.index as int].relative_path@
    } else {
        Seq::empty()
    }
}

/// Source text of a file; empty for an id that names none.
pub open spec fn text_in(sources: SourceManager, file: FileId) -> Seq<char> {
    if file.index < sources.files@.len() {
        sources.files@[file.index as int].text@
    } else {
        Seq::empty()
    }
}

/// Text of a byte range of a file.
pub open spec fn slice_in(sources: SourceManager, file: FileId, range: TextRange) -> Seq<char> {
    slice_of(text_in(sources, file), range)
}

/// Positions of a byte range of a file.
pub open spec fn span_in(sources: SourceManager, file: FileId, range: TextRange) -> (
    (int, int),
    (int, int),
) {
    span_at(encode_utf8(text_in(sources, file)), range)
}

/// Position of a byte of a file.
pub open spec fn position_in(sources: SourceManager, file: FileId, offset: u32) -> (int, int) {
    position_at(encode_utf8(text_in(sources, file)), offset as int)
}

impl SourceManager {
    /// The file with this id, if there is one.
    pub fn file(&self, file: FileId) -> (found: Option<&SourceFile>)
        ensures
            file.index < self.files@.len() ==> found == Some(&self.files@[file.index as int]),
            file.index >= self.files@.len() ==> found is None,
    {
        if file.index < self.files.len() {
            Some(&self.files[file.index])
        } else {
            None
        }
    }

    /// Path of a file.
    pub fn path(&self, file: FileId) -> (path: String)
        ensures
            path@ == path_in(*self, file),
    {
        match self.file(file) {
            Some(source) => source.relative_path.clone(),
            None => {
                proof {
                    reveal_strlit("");
                    assert(""@ =~= Seq::<char>::empty());
                }
                "".to_owned()
            },
        }
    }

    /// Text of a byte range of a file.
    pub fn slice(&self, file: FileId, range: TextRange) -> (text: String)
        ensures
            text@ == slice_in(*self, file, range),
    {
        match self.file(file) {
            Some(source) => source.slice(range),
            None => {
                let empty = SourceFile {
                    relative_path: String::new(),
                    text: String::new(),
                    tokens: Vec::new(),
                    syntax: None,
                };
                proof {
                    reveal_strlit("");
                    assert(""@ =~= Seq::<char>::empty());
                    assert(empty.text@ =~= Seq::<char>::empty());
                }
                empty.slice(range)
            },
        }
    }

    /// Positions of a byte range of a file.
    pub fn span(&self, file: FileId, range: TextRange) -> (span: SourceSpan)
        ensures
            span.pairs() == span_in(*self, file, range),
    {
        match self.file(file) {
            Some(source) => source.span_of_range(range),
            None => {
                let empty = SourceFile {
                    relative_path: String::new(),
                    text: String::new(),
                    tokens: Vec::new(),
                    syntax: None,
                };
                proof {
                    reveal_strlit("");
                    assert(empty.text@ =~= Seq::<char>::empty());
                }
                empty.span_of_range(range)
            },
        }
    }

    /// Syntax of a file.
    pub fn syntax(&self, file: FileId) -> (syntax: Option<&Syntax>)
        ensures
            match syntax {
                Some(found) => syntax_in(*self, file) == Some(*found),
                None => syntax_in(*self, file) is None,
            },
    {
        match self.file(file) {
            Some(source) => match &source.syntax {
                Some(syntax) => Some(syntax),
                None => None,
            },
            None => None,
        }
    }

    /// Position of a byte of a file.
    pub fn position(&self, file: FileId, offset: u32) -> (position: Position)
        ensures
            position.pair() == position_in(*self, file, offset),
    {
        self.span(file, TextRange { start: offset, end: offset }).start
    }
}

} // verus!
