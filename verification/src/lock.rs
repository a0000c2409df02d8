//! The lock record: the source snapshot that is pinned, and its document.
//!
//! The document is a flat list of lines `key = "value"`: `url`, then `branch`, then
//! `ref` where a commit is pinned. Inside a value a backslash, a double quote and a
//! line feed are written as `\\`, `\"` and `\n`.

use vstd::prelude::*;
use vstd::string::*;

use crate::error::{BuildError, BuildErrorView};
use crate::text::{chars_of, push_char};

verus! {

/// The source snapshot that is checked out: where it comes from, on which branch,
/// and the commit it is pinned to. Without a commit the record tracks the tip of
/// the branch.
#[derive(Debug, Clone, PartialEq, Eq)]
pub struct LockRecord {
    pub url: String,
    pub branch: String,
    pub reference: Option<String>,
}

/// A [`LockRecord`] with its texts as character sequences.
pub struct LockRecordView {
    pub url: Seq<char>,
    pub branch: Seq<char>,
    pub reference: Option<Seq<char>>,
}

impl View for LockRecord {
    type V = LockRecordView;

    open spec fn view(&self) -> LockRecordView {
        LockRecordView {
            url: self.url@,
            branch: self.branch@,
            reference: self.reference.deep_view(),
        }
    }
}

/// What the lock file holds, as far as it could be read.
#[derive(Debug, Clone, PartialEq, Eq)]
pub enum LockFile {
    /// The file's text.
    Text { text: String },
    /// The file could not be read.
    Unreadable { reason: String },
}

/// A [`LockFile`] with its texts as character sequences.
pub enum LockFileView {
    Text { text: Seq<char> },
    Unreadable { reason: Seq<char> },
}

impl View for LockFile {
    type V = LockFileView;

    open spec fn view(&self) -> LockFileView {
        match self {
            LockFile::Text { text } => LockFileView::Text { text: text@ },
            LockFile::Unreadable { reason } => LockFileView::Unreadable { reason: reason@ },
        }
    }
}

/// How one character of a value is written.
pub open spec fn escaped_char(c: char) -> Seq<char> {
    if c == '\\' {
        seq!['\\', '\\']
    } else if c == '"' {
        seq!['\\', '"']
    } else if c == '\n' {
        seq!['\\', 'n']
    } else {
        seq![c]
    }
}

/// How a value is written between its quotes.
pub open spec fn escaped(value: Seq<char>) -> Seq<char>
    decreases value.len(),
{
    if value.len() == 0 {
        Seq::empty()
    } else {
        escaped_char(value[0]) + escaped(value.drop_first())
    }
}

/// What stands between a key and its value.
pub open spec fn assignment() -> Seq<char> {
    seq![' ', '=', ' ', '"']
}

/// What closes a line.
pub open spec fn closing() -> Seq<char> {
    seq!['"', '\n']
}

/// The line that gives `key` the value `value`.
pub open spec fn line(key: Seq<char>, value: Seq<char>) -> Seq<char> {
    key + assignment() + escaped(value) + closing()
}

/// The document of `record`.
pub open spec fn written(record: LockRecordView) -> Seq<char> {
    line("url"@, record.url) + line("branch"@, record.branch) + match record.reference {
        Some(reference) => line("ref"@, reference),
        None => Seq::empty(),
    }
}

/// `value` in front of what was read behind it.
pub open spec fn prefixed(value: Seq<char>, rest: Option<(Seq<char>, int)>) -> Option<
    (Seq<char>, int),
> {
    match rest {
        Some((behind, end)) => Some((value + behind, end)),
        None => None,
    }
}

/// The character that the escape `\c` stands for, if it is one.
pub open spec fn unescaped_char(c: char) -> Option<char> {
    if c == '\\' {
        Some('\\')
    } else if c == '"' {
        Some('"')
    } else if c == 'n' {
        Some('\n')
    } else {
        None
    }
}

/// The value that starts at `from` and the position behind its closing quote.
/// There is none where the text ends before the quote, where a line feed stands
/// unescaped, or where a backslash is followed by anything but `\`, `"` or `n`.
pub open spec fn value_at(text: Seq<char>, from: int) -> Option<(Seq<char>, int)>
    decreases text.len() - from,
{
    if from < 0 || from >= text.len() {
        None
    } else if text[from] == '"' {
        Some((Seq::empty(), from + 1))
    } else if text[from] == '\n' {
        None
    } else if text[from] == '\\' {
        if from + 1 >= text.len() {
            None
        } else {
            match unescaped_char(text[from + 1]) {
                Some(c) => prefixed(seq![c], value_at(text, from + 2)),
                None => None,
            }
        }
    } else {
        prefixed(seq![text[from]], value_at(text, from + 1))
    }
}

/// The value of the line for `key` that starts at `from`, and the position behind
/// the line.
pub open spec fn line_at(text: Seq<char>, from: int, key: Seq<char>) -> Option<(Seq<char>, int)> {
    let opening = key + assignment();
    if 0 <= from && from + opening.len() <= text.len() && text.subrange(
        from,
        from + opening.len(),
    ) == opening {
        match value_at(text, from + opening.len()) {
            Some((value, end)) => if end < text.len() && text[end] == '\n' {
                Some((value, end + 1))
            } else {
                None
            },
            None => None,
        }
    } else {
        None
    }
}

/// The record that the document `text` holds: a line for `url`, a line for
/// `branch`, and then either nothing or a line for `ref` and nothing behind it.
pub open spec fn parsed(text: Seq<char>) -> Option<LockRecordView> {
    match line_at(text, 0, "url"@) {
        None => None,
        Some((url, after_url)) => match line_at(text, after_url, "branch"@) {
            None => None,
            Some((branch, after_branch)) => if after_branch == text.len() {
                Some(LockRecordView { url, branch, reference: None })
            } else {
                match line_at(text, after_branch, "ref"@) {
                    Some((reference, end)) => if end == text.len() {
                        Some(LockRecordView { url, branch, reference: Some(reference) })
                    } else {
                        None
                    },
                    None => None,
                }
            },
        },
    }
}

/// The failure of a document that holds no record.
pub open spec fn malformed() -> BuildErrorView {
    BuildErrorView::Parse { reason: "The lock file is malformed"@ }
}

/// What reading the lock file gives: the record that its text holds, a parse
/// failure for a text that holds none, an I/O failure for a file that could not be
/// read.
pub open spec fn read_verdict(file: LockFileView) -> Result<LockRecordView, BuildErrorView> {
    match file {
        LockFileView::Unreadable { reason } => Err(BuildErrorView::Io { reason }),
        LockFileView::Text { text } => match parsed(text) {
            Some(record) => Ok(record),
            None => Err(malformed()),
        },
    }
}

/// A record result, both sides by view.
pub open spec fn record_result(result: Result<LockRecord, BuildError>) -> Result<
    LockRecordView,
    BuildErrorView,
> {
    match result {
        Ok(record) => Ok(record@),
        Err(error) => Err(error@),
    }
}

fn push_escaped(out: &mut String, value: &str)
    ensures
        final(out)@ == old(out)@ + escaped(value@),
{
    let chars = chars_of(value);
    let mut i: usize = 0;
    assert(chars@.skip(0) == chars@);
    while i < chars.len()
        invariant
            0 <= i <= chars.len(),
            chars@ == value@,
            out@ + escaped(chars@.skip(i as int)) == old(out)@ + escaped(value@),
        decreases chars.len() - i,
    {
        let c = chars[i];
        let ghost before = out@;
        let ghost rest = chars@.skip(i as int);
        assert(rest[0] == c);
        assert(rest.drop_first() == chars@.skip(i + 1));
        if c == '\\' {
            push_char(out, '\\');
            push_char(out, '\\');
        } else if c == '"' {
            push_char(out, '\\');
            push_char(out, '"');
        } else if c == '\n' {
            push_char(out, '\\');
            push_char(out, 'n');
        } else {
            push_char(out, c);
        }
        assert(out@ == before + escaped_char(c));
        assert(before + escaped(rest) == before + escaped_char(c) + escaped(
            chars@.skip(i + 1),
        ));
        i += 1;
    }
    assert(escaped(chars@.skip(i as int)) == Seq::<char>::empty());
}

fn push_line(out: &mut String, key: &str, value: &str)
    ensures
        final(out)@ == old(out)@ + line(key@, value@),
{
    out.append(key);
    push_char(out, ' ');
    push_char(out, '=');
    push_char(out, ' ');
    push_char(out, '"');
    assert(out@ == old(out)@ + key@ + assignment());
    push_escaped(out, value);
    push_char(out, '"');
    push_char(out, '\n');
    assert(out@ == old(out)@ + line(key@, value@));
}

fn read_value(chars: &Vec<char>, from: usize) -> (found: Option<(String, usize)>)
    requires
        from <= chars.len(),
    ensures
        match found {
            Some((value, end)) => value_at(chars@, from as int) == Some((value@, end as int))
                && end <= chars.len(),
            None => value_at(chars@, from as int) is None,
        },
{
    let mut value = String::new();
    let mut i: usize = from;
    proof {
        let whole = value_at(chars@, from as int);
        if whole is Some {
            let found = whole->0;
            assert(Seq::<char>::empty() + found.0 == found.0);
        }
    }
    loop
        invariant
            from <= i <= chars.len(),
            value_at(chars@, from as int) == prefixed(value@, value_at(chars@, i as int)),
        decreases chars.len() - i,
    {
        if i >= chars.len() {
            return None;
        }
        let c = chars[i];
        let ghost before = value@;
        if c == '"' {
            assert(before + Seq::<char>::empty() == before);
            return Some((value, i + 1));
        }
        if c == '\n' {
            return None;
        }
        if c == '\\' {
            if i + 1 >= chars.len() {
                return None;
            }
            let d = chars[i + 1];
            let decoded = if d == '\\' {
                '\\'
            } else if d == '"' {
                '"'
            } else if d == 'n' {
                '\n'
            } else {
                return None;
            };
            push_char(&mut value, decoded);
            proof {
                let rest = value_at(chars@, i + 2);
                if rest is Some {
                    let found = rest->0;
                    assert(before + (seq![decoded] + found.0) == before.push(decoded) + found.0);
                }
            }
            i += 2;
        } else {
            push_char(&mut value, c);
            proof {
                let rest = value_at(chars@, i + 1);
                if rest is Some {
                    let found = rest->0;
                    assert(before + (seq![c] + found.0) == before.push(c) + found.0);
                }
            }
            i += 1;
        }
    }
}

fn starts_at(chars: &Vec<char>, from: usize, wanted: &Vec<char>) -> (found: bool)
    requires
        from <= chars.len(),
    ensures
        found == (from + wanted.len() <= chars.len() && chars@.subrange(
            from as int,
            from + wanted.len(),
        ) == wanted@),
{
    if wanted.len() > chars.len() - from {
        return false;
    }
    let mut i: usize = 0;
    while i < wanted.len()
        invariant
            0 <= i <= wanted.len(),
            from + wanted.len() <= chars.len(),
            forall|j: int| 0 <= j < i ==> chars@[from + j] == wanted@[j],
        decreases wanted.len() - i,
    {
        if chars[from + i] != wanted[i] {
            assert(chars@.subrange(from as int, from + wanted.len())[i as int]
                != wanted@[i as int]);
            return false;
        }
        i += 1;
    }
    assert(chars@.subrange(from as int, from + wanted.len()) =~= wanted@);
    true
}

fn read_line(chars: &Vec<char>, from: usize, key: &str) -> (found: Option<(String, usize)>)
    requires
        from <= chars.len(),
    ensures
        match found {
            Some((value, end)) => line_at(chars@, from as int, key@) == Some(
                (value@, end as int),
            ) && end <= chars.len(),
            None => line_at(chars@, from as int, key@) is None,
        },
{
    let mut opening = chars_of(key);
    opening.push(' ');
    opening.push('=');
    opening.push(' ');
    opening.push('"');
    assert(opening@ == key@ + assignment());
    if !starts_at(chars, from, &opening) {
        return None;
    }
    match read_value(chars, from + opening.len()) {
        None => None,
        Some((value, end)) => {
            if end < chars.len() && chars[end] == '\n' {
                Some((value, end + 1))
            } else {
                None
            }
        },
    }
}

impl LockRecord {
    /// The document of this record.
    pub fn write(&self) -> (document: String)
        ensures
            document@ == written(self@),
    {
        let mut document = String::new();
        push_line(&mut document, "url", self.url.as_str());
        push_line(&mut document, "branch", self.branch.as_str());
        match &self.reference {
            Some(reference) => {
                push_line(&mut document, "ref", reference.as_str());
            },
            None => {},
        }
        assert(document@ == written(self@));
        document
    }

    /// The record that the document `text` holds, if it holds one.
    pub fn parse(text: &str) -> (record: Option<LockRecord>)
        ensures
            record.is_some() == parsed(text@).is_some(),
            record matches Some(found) ==> parsed(text@) == Some(found@),
    {
        let chars = chars_of(text);
        let (url, after_url) = match read_line(&chars, 0, "url") {
            Some(found) => found,
            None => {
                return None;
            },
        };
        let (branch, after_branch) = match read_line(&chars, after_url, "branch") {
            Some(found) => found,
            None => {
                return None;
            },
        };
        if after_branch == chars.len() {
            return Some(LockRecord { url, branch, reference: None });
        }
        match read_line(&chars, after_branch, "ref") {
            Some((reference, end)) => {
                if end == chars.len() {
                    Some(LockRecord { url, branch, reference: Some(reference) })
                } else {
                    None
                }
            },
            None => None,
        }
    }

    /// Reads the record out of what the lock file holds.
    pub fn read(file: LockFile) -> (record: Result<LockRecord, BuildError>)
        ensures
            record_result(record) == read_verdict(file@),
    {
        match file {
            LockFile::Unreadable { reason } => Err(BuildError::Io { reason }),
            LockFile::Text { text } => match LockRecord::parse(text.as_str()) {
                Some(record) => Ok(record),
                None => Err(
                    BuildError::Parse { reason: String::from_str("The lock file is malformed") },
                ),
            },
        }
    }

    /// Whether the snapshot that this record pins is another than the one
    /// requested: the source is stale unless the record is pinned to exactly
    /// `requested`.
    pub fn is_stale(&self, requested: &str) -> (stale: bool)
        ensures
            stale == (self@.reference != Some(requested@)),
    {
        match &self.reference {
            Some(pinned) => !(*pinned == String::from_str(requested)),
            None => true,
        }
    }
}

/// A value that was written is read back as it was, whatever stands before it and
/// behind its closing quote.
pub proof fn lemma_value_round_trip(before: Seq<char>, value: Seq<char>, behind: Seq<char>)
    ensures
        value_at(before + escaped(value) + seq!['"'] + behind, before.len() as int) == Some(
            (value, (before.len() + escaped(value).len() + 1) as int),
        ),
    decreases value.len(),
{
    let text = before + escaped(value) + seq!['"'] + behind;
    let from = before.len() as int;
    if value.len() == 0 {
        assert(text[from] == '"');
    } else {
        let c = value[0];
        let rest = value.drop_first();
        let shifted = before + escaped_char(c);
        lemma_value_round_trip(shifted, rest, behind);
        assert(shifted + escaped(rest) + seq!['"'] + behind == text);
        assert(text[from] == escaped_char(c)[0]);
        assert(seq![c] + rest == value);
        if c == '\\' || c == '"' || c == '\n' {
            assert(text[from + 1] == escaped_char(c)[1]);
        }
    }
}

/// A line that was written is read back as it was, whatever stands before and
/// behind it.
pub proof fn lemma_line_round_trip(
    before: Seq<char>,
    key: Seq<char>,
    value: Seq<char>,
    behind: Seq<char>,
)
    ensures
        line_at(before + line(key, value) + behind, before.len() as int, key) == Some(
            (value, (before.len() + line(key, value).len()) as int),
        ),
{
    let text = before + line(key, value) + behind;
    let from = before.len() as int;
    let opening = key + assignment();
    assert(text.subrange(from, from + opening.len()) == opening);
    let head = before + opening;
    lemma_value_round_trip(head, value, seq!['\n'] + behind);
    assert(head + escaped(value) + seq!['"'] + (seq!['\n'] + behind) == text);
    let end = (head.len() + escaped(value).len() + 1) as int;
    assert(text[end] == '\n');
}

/// Round trip: the document of a record holds exactly that record, with its URL,
/// its branch and its reference as they were, whether a commit is pinned or not.
pub proof fn law_lock_round_trip(record: LockRecordView)
    ensures
        parsed(written(record)) == Some(record),
{
    let text = written(record);
    let first = line("url"@, record.url);
    let second = line("branch"@, record.branch);
    let third = match record.reference {
        Some(reference) => line("ref"@, reference),
        None => Seq::empty(),
    };
    assert(text == Seq::<char>::empty() + first + (second + third));
    lemma_line_round_trip(Seq::empty(), "url"@, record.url, second + third);
    assert(text == first + second + third);
    lemma_line_round_trip(first, "branch"@, record.branch, third);
    match record.reference {
        Some(reference) => {
            assert(text == (first + second) + third + Seq::<char>::empty());
            lemma_line_round_trip(first + second, "ref"@, reference, Seq::empty());
        },
        None => {
            assert(text == first + second);
        },
    }
}

} // verus!
