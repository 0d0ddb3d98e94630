//! Splitting a character stream into LSP messages: a `Content-Length` header
//! block, an empty line, then that many bytes of JSON content.
use vstd::prelude::*;

use crate::lsp_any::{parse_json, spec_any_model, spec_parse_json, JsonValue, LSPAny};
use crate::text::{
    char_utf8_len, chars_of, lemma_parse_decimal_line, lemma_utf8_len_concat,
    lemma_utf8_len_prefix, parse_usize, spec_nat_decimal, spec_parse_usize, spec_trim,
    spec_utf8_len, string_of_chars, trim,
};

verus! {

/// Where in a message the reader stands.
#[derive(Clone, Copy, Debug, PartialEq, Eq, Structural)]
pub enum ReadingStage {
    /// Reading a header field name, or the empty line that ends the headers.
    HeaderField,
    /// Reading the value of a `Content-Length` header.
    ContentLength,
    /// Reading the value of a `Content-Type` header.
    ContentType,
    /// Reading the content.
    Content,
}

/// Why a stream of characters could not be read as LSP messages.
#[derive(Clone, Copy, Debug, PartialEq, Eq, Structural)]
pub enum ListenError {
    /// A header field other than `Content-Length` or `Content-Type`.
    InvalidHeaderField,
    /// A line ended inside a header field name.
    InvalidHeaderCharacter,
    /// The `Content-Length` value is no `usize`.
    InvalidContentLength,
    /// A header value line ended with `\n` alone.
    InvalidLineEnding,
    /// The content is no JSON document.
    InvalidContent,
}

impl ListenError {
    /// The message text reported for this error.
    pub open spec fn spec_message(self) -> Seq<char> {
        match self {
            ListenError::InvalidHeaderField => "Invalid header field"@,
            ListenError::InvalidHeaderCharacter => "Invalid character when parsing headers"@,
            ListenError::InvalidContentLength => "Error when parsing Content-Length."@,
            ListenError::InvalidLineEnding => "Invalid line ending when parsing header field."@,
            ListenError::InvalidContent => "Error when parsing JSON content"@,
        }
    }

    /// The message text reported for this error.
    pub fn message(&self) -> (m: &'static str)
        ensures
            m@ == self.spec_message(),
    {
        match self {
            ListenError::InvalidHeaderField => "Invalid header field",
            ListenError::InvalidHeaderCharacter => "Invalid character when parsing headers",
            ListenError::InvalidContentLength => "Error when parsing Content-Length.",
            ListenError::InvalidLineEnding => "Invalid line ending when parsing header field.",
            ListenError::InvalidContent => "Error when parsing JSON content",
        }
    }
}

/// The state of a [`DefaultListener`].
pub struct ListenerModel {
    /// The length in bytes announced by the last `Content-Length` header.
    pub content_length: usize,
    /// The value of the last `Content-Type` header.
    pub content_type: Seq<char>,
    /// The characters read since the last header field, header value or message.
    pub current: Seq<char>,
    /// Where in a message the reader stands.
    pub stage: ReadingStage,
    /// Set by the first backslash of a `Content-Type` value; from then on no
    /// `Content-Type` value ends.
    pub ignore_next: bool,
}

/// What one character does to the reader.
pub enum StepOutcome {
    /// Nothing to report.
    Continue,
    /// The character completed a message whose content is this JSON value.
    Emit(JsonValue),
    /// The character cannot stand here.
    Fail(ListenError),
}

/// Whether `s` ends with a carriage return.
pub open spec fn spec_ends_with_cr(s: Seq<char>) -> bool {
    s.len() > 0 && s.last() == '\r'
}

/// What ending the content `m.current`, whose JSON value as read is `parsed`,
/// does to a reader in state `m`: it goes back to reading headers, and reports the
/// value, or fails where the content is no JSON document, keeping the content.
pub open spec fn spec_end_content(m: ListenerModel, parsed: Option<JsonValue>) -> (ListenerModel, StepOutcome) {
    let done = ListenerModel {
        content_length: 0,
        content_type: Seq::empty(),
        current: m.current,
        stage: ReadingStage::HeaderField,
        ignore_next: m.ignore_next,
    };
    match parsed {
        Some(v) => (ListenerModel { current: Seq::empty(), ..done }, StepOutcome::Emit(v)),
        None => (done, StepOutcome::Fail(ListenError::InvalidContent)),
    }
}

/// What reading `c` does to a reader in state `m`: its next state and what it reports.
/// After a failure the reader keeps the state it failed in.
pub open spec fn spec_step(m: ListenerModel, c: char) -> (ListenerModel, StepOutcome) {
    match m.stage {
        ReadingStage::HeaderField => {
            if c == ' ' {
                if m.current == "Content-Length:"@ {
                    (
                        ListenerModel { stage: ReadingStage::ContentLength, current: Seq::empty(), ..m },
                        StepOutcome::Continue,
                    )
                } else if m.current == "Content-Type:"@ {
                    (
                        ListenerModel { stage: ReadingStage::ContentType, current: Seq::empty(), ..m },
                        StepOutcome::Continue,
                    )
                } else {
                    (m, StepOutcome::Fail(ListenError::InvalidHeaderField))
                }
            } else if c == '\n' {
                if m.current == seq!['\r'] {
                    (
                        ListenerModel { stage: ReadingStage::Content, current: Seq::empty(), ..m },
                        StepOutcome::Continue,
                    )
                } else {
                    (m, StepOutcome::Fail(ListenError::InvalidHeaderCharacter))
                }
            } else {
                (ListenerModel { current: m.current.push(c), ..m }, StepOutcome::Continue)
            }
        },
        ReadingStage::ContentLength => {
            if c == '\n' {
                if spec_ends_with_cr(m.current) {
                    match spec_parse_usize(spec_trim(m.current)) {
                        Some(v) => (
                            ListenerModel {
                                content_length: v,
                                current: Seq::empty(),
                                stage: ReadingStage::HeaderField,
                                ..m
                            },
                            StepOutcome::Continue,
                        ),
                        None => (m, StepOutcome::Fail(ListenError::InvalidContentLength)),
                    }
                } else {
                    (m, StepOutcome::Fail(ListenError::InvalidLineEnding))
                }
            } else {
                (ListenerModel { current: m.current.push(c), ..m }, StepOutcome::Continue)
            }
        },
        ReadingStage::ContentType => {
            if c == '\n' && !m.ignore_next {
                if spec_ends_with_cr(m.current) {
                    (
                        ListenerModel {
                            content_type: spec_trim(m.current),
                            current: Seq::empty(),
                            stage: ReadingStage::HeaderField,
                            ..m
                        },
                        StepOutcome::Continue,
                    )
                } else {
                    (m, StepOutcome::Fail(ListenError::InvalidLineEnding))
                }
            } else if c == '\\' && !m.ignore_next {
                (ListenerModel { ignore_next: true, ..m }, StepOutcome::Continue)
            } else {
                (ListenerModel { current: m.current.push(c), ..m }, StepOutcome::Continue)
            }
        },
        ReadingStage::Content => {
            let cur = m.current.push(c);
            if spec_utf8_len(cur) == m.content_length {
                spec_end_content(ListenerModel { current: cur, ..m }, spec_parse_json(cur))
            } else {
                (ListenerModel { current: cur, ..m }, StepOutcome::Continue)
            }
        },
    }
}

/// What reading the characters `cs` does to a reader in state `m`: its state after
/// them, and either the JSON values of the messages that they completed, in order,
/// or the first error, in which case the state is the one the reader failed in.
pub open spec fn spec_feed(m: ListenerModel, cs: Seq<char>) -> (
    ListenerModel,
    Result<Seq<JsonValue>, ListenError>,
)
    decreases cs.len(),
{
    if cs.len() == 0 {
        (m, Ok(Seq::empty()))
    } else {
        let (m1, r1) = spec_feed(m, cs.drop_last());
        match r1 {
            Err(e) => (m1, Err(e)),
            Ok(vs) => {
                let (m2, o) = spec_step(m1, cs.last());
                match o {
                    StepOutcome::Continue => (m2, Ok(vs)),
                    StepOutcome::Emit(v) => (m2, Ok(vs.push(v))),
                    StepOutcome::Fail(e) => (m2, Err(e)),
                }
            },
        }
    }
}

/// The JSON values of a sequence of [`LSPAny`]s.
pub open spec fn spec_models(vs: Seq<LSPAny>) -> Seq<JsonValue> {
    vs.map_values(|v: LSPAny| v.model())
}

/// The state of a reader that has read nothing.
pub open spec fn spec_initial_listener() -> ListenerModel {
    ListenerModel {
        content_length: 0,
        content_type: Seq::empty(),
        current: Seq::empty(),
        stage: ReadingStage::HeaderField,
        ignore_next: false,
    }
}

/// Reads a message string and returns a vector of parsed JSON messages.
pub trait Listener {
    /// Reads a message string and returns a vector of parsed JSON messages.
    fn push_message(&mut self, message: &String) -> Result<Vec<LSPAny>, &'static str>;
}

/// The reader of the LSP base protocol: headers, an empty line, then content.
pub struct DefaultListener {
    content_length: usize,
    content_type: Vec<char>,
    current_message: Vec<char>,
    current_bytes: u128,
    stage: ReadingStage,
    ignore_next: bool,
}

impl View for DefaultListener {
    type V = ListenerModel;

    closed spec fn view(&self) -> ListenerModel {
        ListenerModel {
            content_length: self.content_length,
            content_type: self.content_type@,
            current: self.current_message@,
            stage: self.stage,
            ignore_next: self.ignore_next,
        }
    }
}

proof fn lemma_utf8_len_bound(s: Seq<char>)
    ensures
        spec_utf8_len(s) <= 4 * s.len(),
    decreases s.len(),
{
    if s.len() > 0 {
        lemma_utf8_len_bound(s.drop_last());
    }
}

/// Whether the characters `v` spell `s`.
fn chars_eq_str(v: &Vec<char>, s: &str) -> (b: bool)
    ensures
        b == (v@ == s@),
{
    let t = chars_of(s);
    if v.len() != t.len() {
        return false;
    }
    let n = v.len();
    let mut i: usize = 0;
    while i < n
        invariant
            n == v@.len(),
            n == t@.len(),
            t@ == s@,
            0 <= i <= n,
            forall|j: int| 0 <= j < i ==> v@[j] == t@[j],
        decreases n - i,
    {
        if v[i] != t[i] {
            assert(v@[i as int] != t@[i as int]);
            return false;
        }
        i = i + 1;
    }
    assert(v@ =~= t@);
    true
}

/// Appends `c` to `chars`, whose UTF-8 length is `bytes`, and gives back the
/// UTF-8 length after.
fn push_counted(chars: &mut Vec<char>, bytes: u128, c: char) -> (n: u128)
    requires
        bytes == spec_utf8_len(old(chars)@),
    ensures
        final(chars)@ == old(chars)@.push(c),
        n == spec_utf8_len(final(chars)@),
{
    proof {
        lemma_utf8_len_bound(chars@);
    }
    // The length of a `Vec` fits in a `usize`, which keeps the sum below in range.
    let _len = chars.len();
    let w = char_utf8_len(c);
    chars.push(c);
    assert(chars@.drop_last() =~= old(chars)@);
    bytes + w as u128
}

/// What one character does to the reader, as the listener reports it.
enum StepResult {
    Continue,
    Emit(LSPAny),
    Fail(ListenError),
}

impl StepResult {
    spec fn model(self) -> StepOutcome {
        match self {
            StepResult::Continue => StepOutcome::Continue,
            StepResult::Emit(v) => StepOutcome::Emit(v.model()),
            StepResult::Fail(e) => StepOutcome::Fail(e),
        }
    }
}

impl DefaultListener {
    #[verifier::type_invariant]
    spec fn byte_count_matches(self) -> bool {
        self.current_bytes == spec_utf8_len(self.current_message@)
    }

    /// A reader that has read nothing.
    pub fn new() -> (l: DefaultListener)
        ensures
            l@ == spec_initial_listener(),
    {
        let l = DefaultListener {
            content_length: 0,
            content_type: Vec::new(),
            current_message: Vec::new(),
            current_bytes: 0,
            stage: ReadingStage::HeaderField,
            ignore_next: false,
        };
        assert(l@.content_type =~= Seq::<char>::empty());
        assert(l@.current =~= Seq::<char>::empty());
        l
    }

    /// The characters read since the last header field, header value or message.
    /// After an `InvalidHeaderField` failure, the header field name that was refused.
    pub fn pending_text(&self) -> (s: String)
        ensures
            s@ == self@.current,
    {
        string_of_chars(&self.current_message)
    }

    /// Ends the content read so far, whose JSON value, as read, is `parsed` (see
    /// `spec_end_content`): gives back the value, or `InvalidContent` where there
    /// is none.
    pub fn end_content(&mut self, parsed: Option<LSPAny>) -> (r: Result<LSPAny, ListenError>)
        ensures
            final(self)@ == spec_end_content(old(self)@, spec_any_model(parsed)).0,
            match r {
                Ok(v) => spec_end_content(old(self)@, spec_any_model(parsed)).1 == StepOutcome::Emit(
                    v.model(),
                ),
                Err(e) => spec_end_content(old(self)@, spec_any_model(parsed)).1
                    == StepOutcome::Fail(e),
            },
    {
        proof {
            use_type_invariant(&*self);
        }
        let mut taken = DefaultListener::new();
        std::mem::swap(&mut taken, self);
        let DefaultListener { current_message, current_bytes: bytes, ignore_next, .. } = taken;
        match parsed {
            Some(v) => {
                *self = DefaultListener {
                    content_length: 0,
                    content_type: Vec::new(),
                    current_message: Vec::new(),
                    current_bytes: 0,
                    stage: ReadingStage::HeaderField,
                    ignore_next,
                };
                assert(self@.current =~= Seq::<char>::empty());
                assert(self@.content_type =~= Seq::<char>::empty());
                Ok(v)
            },
            None => {
                *self = DefaultListener {
                    content_length: 0,
                    content_type: Vec::new(),
                    current_message,
                    current_bytes: bytes,
                    stage: ReadingStage::HeaderField,
                    ignore_next,
                };
                assert(self@.content_type =~= Seq::<char>::empty());
                Err(ListenError::InvalidContent)
            },
        }
    }

    /// What reading `c` does to this reader.
    fn step(self, c: char) -> (res: (DefaultListener, StepResult))
        ensures
            (res.0@, res.1.model()) == spec_step(self@, c),
    {
        proof {
            use_type_invariant(&self);
        }
        let DefaultListener {
            content_length,
            content_type,
            current_message,
            current_bytes,
            stage,
            ignore_next,
        } = self;
        let mut current_message = current_message;
        match stage {
            ReadingStage::HeaderField => {
                if c == ' ' {
                    let next = if chars_eq_str(&current_message, "Content-Length:") {
                        ReadingStage::ContentLength
                    } else if chars_eq_str(&current_message, "Content-Type:") {
                        ReadingStage::ContentType
                    } else {
                        let l = DefaultListener {
                            content_length,
                            content_type,
                            current_message,
                            current_bytes,
                            stage,
                            ignore_next,
                        };
                        return (l, StepResult::Fail(ListenError::InvalidHeaderField));
                    };
                    let l = DefaultListener {
                        content_length,
                        content_type,
                        current_message: Vec::new(),
                        current_bytes: 0,
                        stage: next,
                        ignore_next,
                    };
                    assert(l@.current =~= Seq::<char>::empty());
                    (l, StepResult::Continue)
                } else if c == '\n' {
                    if current_message.len() == 1 && current_message[0] == '\r' {
                        assert(current_message@ =~= seq!['\r']);
                        let l = DefaultListener {
                            content_length,
                            content_type,
                            current_message: Vec::new(),
                            current_bytes: 0,
                            stage: ReadingStage::Content,
                            ignore_next,
                        };
                        assert(l@.current =~= Seq::<char>::empty());
                        (l, StepResult::Continue)
                    } else {
                        assert(current_message@ != seq!['\r']) by {
                            if current_message@ == seq!['\r'] {
                                assert(current_message@[0] == '\r');
                            }
                        }
                        let l = DefaultListener {
                            content_length,
                            content_type,
                            current_message,
                            current_bytes,
                            stage,
                            ignore_next,
                        };
                        (l, StepResult::Fail(ListenError::InvalidHeaderCharacter))
                    }
                } else {
                    let bytes = push_counted(&mut current_message, current_bytes, c);
                    let l = DefaultListener {
                        content_length,
                        content_type,
                        current_message,
                        current_bytes: bytes,
                        stage,
                        ignore_next,
                    };
                    (l, StepResult::Continue)
                }
            },
            ReadingStage::ContentLength => {
                if c == '\n' {
                    let n = current_message.len();
                    if n > 0 && current_message[n - 1] == '\r' {
                        let t = trim(&current_message);
                        match parse_usize(&t) {
                            Some(v) => {
                                let l = DefaultListener {
                                    content_length: v,
                                    content_type,
                                    current_message: Vec::new(),
                                    current_bytes: 0,
                                    stage: ReadingStage::HeaderField,
                                    ignore_next,
                                };
                                assert(l@.current =~= Seq::<char>::empty());
                                (l, StepResult::Continue)
                            },
                            None => {
                                let l = DefaultListener {
                                    content_length,
                                    content_type,
                                    current_message,
                                    current_bytes,
                                    stage,
                                    ignore_next,
                                };
                                (l, StepResult::Fail(ListenError::InvalidContentLength))
                            },
                        }
                    } else {
                        let l = DefaultListener {
                            content_length,
                            content_type,
                            current_message,
                            current_bytes,
                            stage,
                            ignore_next,
                        };
                        (l, StepResult::Fail(ListenError::InvalidLineEnding))
                    }
                } else {
                    let bytes = push_counted(&mut current_message, current_bytes, c);
                    let l = DefaultListener {
                        content_length,
                        content_type,
                        current_message,
                        current_bytes: bytes,
                        stage,
                        ignore_next,
                    };
                    (l, StepResult::Continue)
                }
            },
            ReadingStage::ContentType => {
                if c == '\n' && !ignore_next {
                    let n = current_message.len();
                    if n > 0 && current_message[n - 1] == '\r' {
                        let t = trim(&current_message);
                        let l = DefaultListener {
                            content_length,
                            content_type: t,
                            current_message: Vec::new(),
                            current_bytes: 0,
                            stage: ReadingStage::HeaderField,
                            ignore_next,
                        };
                        assert(l@.current =~= Seq::<char>::empty());
                        (l, StepResult::Continue)
                    } else {
                        let l = DefaultListener {
                            content_length,
                            content_type,
                            current_message,
                            current_bytes,
                            stage,
                            ignore_next,
                        };
                        (l, StepResult::Fail(ListenError::InvalidLineEnding))
                    }
                } else if c == '\\' && !ignore_next {
                    let l = DefaultListener {
                        content_length,
                        content_type,
                        current_message,
                        current_bytes,
                        stage,
                        ignore_next: true,
                    };
                    (l, StepResult::Continue)
                } else {
                    let bytes = push_counted(&mut current_message, current_bytes, c);
                    let l = DefaultListener {
                        content_length,
                        content_type,
                        current_message,
                        current_bytes: bytes,
                        stage,
                        ignore_next,
                    };
                    (l, StepResult::Continue)
                }
            },
            ReadingStage::Content => {
                let bytes = push_counted(&mut current_message, current_bytes, c);
                if bytes == content_length as u128 {
                    let text = string_of_chars(&current_message);
                    let parsed = parse_json(text.as_str());
                    let mut l = DefaultListener {
                        content_length,
                        content_type,
                        current_message,
                        current_bytes: bytes,
                        stage,
                        ignore_next,
                    };
                    match l.end_content(parsed) {
                        Ok(v) => (l, StepResult::Emit(v)),
                        Err(e) => (l, StepResult::Fail(e)),
                    }
                } else {
                    let l = DefaultListener {
                        content_length,
                        content_type,
                        current_message,
                        current_bytes: bytes,
                        stage,
                        ignore_next,
                    };
                    (l, StepResult::Continue)
                }
            },
        }
    }
}

impl DefaultListener {
    /// Reads the characters of `message`: the JSON values of the messages that they
    /// complete, in order, or the first error.
    pub fn feed(&mut self, message: &str) -> (r: Result<Vec<LSPAny>, ListenError>)
        ensures
            final(self)@ == spec_feed(old(self)@, message@).0,
            match r {
                Ok(vs) => spec_feed(old(self)@, message@).1 == Ok::<Seq<JsonValue>, ListenError>(
                    spec_models(vs@),
                ),
                Err(e) => spec_feed(old(self)@, message@).1 == Err::<Seq<JsonValue>, ListenError>(e),
            },
    {
        let ghost m0 = self@;
        let chars = chars_of(message);
        let n = chars.len();
        let mut messages: Vec<LSPAny> = Vec::new();
        let mut i: usize = 0;
        assert(chars@.take(0) =~= Seq::<char>::empty());
        assert(spec_models(messages@) =~= Seq::<JsonValue>::empty());
        while i < n
            invariant
                n == chars@.len(),
                chars@ == message@,
                m0 == old(self)@,
                0 <= i <= n,
                spec_feed(m0, chars@.take(i as int)) == (self@, Ok::<Seq<JsonValue>, ListenError>(
                    spec_models(messages@),
                )),
            decreases n - i,
        {
            let c = chars[i];
            assert(chars@.take(i + 1).drop_last() =~= chars@.take(i as int));
            assert(chars@.take(i + 1).last() == c);
            let mut current = DefaultListener::new();
            std::mem::swap(self, &mut current);
            let (next, outcome) = current.step(c);
            *self = next;
            match outcome {
                StepResult::Continue => {},
                StepResult::Emit(v) => {
                    let ghost before = messages@;
                    messages.push(v);
                    assert(spec_models(messages@) =~= spec_models(before).push(
                        messages@.last().model(),
                    ));
                },
                StepResult::Fail(e) => {
                    assert(spec_feed(m0, chars@.take(i + 1)) == (self@, Err::<Seq<JsonValue>, ListenError>(e)));
                    proof {
                        lemma_feed_stops_at_error(m0, chars@, i as int + 1);
                    }
                    return Err(e);
                },
            }
            i = i + 1;
        }
        assert(chars@.take(n as int) =~= chars@);
        Ok(messages)
    }
}

/// Once reading fails, the characters after the failing one change nothing.
proof fn lemma_feed_stops_at_error(m: ListenerModel, cs: Seq<char>, k: int)
    requires
        0 <= k <= cs.len(),
        spec_feed(m, cs.take(k)).1 is Err,
    ensures
        spec_feed(m, cs) == spec_feed(m, cs.take(k)),
    decreases cs.len() - k,
{
    if k < cs.len() {
        assert(cs.take(k + 1).drop_last() =~= cs.take(k));
        lemma_feed_stops_at_error(m, cs, k + 1);
    } else {
        assert(cs.take(k) =~= cs);
    }
}

impl Listener for DefaultListener {
    /// Reads a message string and returns a vector of parsed JSON messages.
    fn push_message(&mut self, message: &String) -> (r: Result<Vec<LSPAny>, &'static str>)
        ensures
            final(self)@ == spec_feed(old(self)@, message@).0,
            match r {
                Ok(vs) => spec_feed(old(self)@, message@).1 == Ok::<Seq<JsonValue>, ListenError>(
                    spec_models(vs@),
                ),
                Err(m) => spec_feed(old(self)@, message@).1 matches Err(e) && m@ == e.spec_message(),
            },
    {
        match self.feed(message.as_str()) {
            Ok(vs) => Ok(vs),
            Err(e) => Err(e.message()),
        }
    }
}

/// What reading `a` and then, if that did not fail, `b` gives: the state after
/// both, and the messages of both in order, or the first error.
pub open spec fn spec_feed_then(m: ListenerModel, a: Seq<char>, b: Seq<char>) -> (
    ListenerModel,
    Result<Seq<JsonValue>, ListenError>,
) {
    let (m1, r1) = spec_feed(m, a);
    match r1 {
        Err(e) => (m1, Err(e)),
        Ok(vs) => {
            let (m2, r2) = spec_feed(m1, b);
            match r2 {
                Ok(ws) => (m2, Ok(vs + ws)),
                Err(e) => (m2, Err(e)),
            }
        },
    }
}

/// A stream may arrive in pieces: reading `a` and then `b` from state `m` gives
/// the same state, messages and error as reading `a + b` at once.
pub proof fn law_feed_in_pieces(m: ListenerModel, a: Seq<char>, b: Seq<char>)
    ensures
        spec_feed(m, a + b) == spec_feed_then(m, a, b),
    decreases b.len(),
{
    if b.len() == 0 {
        assert(a + b =~= a);
        let (m1, r1) = spec_feed(m, a);
        if let Ok(vs) = r1 {
            assert(vs + Seq::<JsonValue>::empty() =~= vs);
        }
    } else {
        let ab = a + b;
        assert(ab.drop_last() =~= a + b.drop_last());
        assert(ab.last() == b.last());
        law_feed_in_pieces(m, a, b.drop_last());
        let (m1, r1) = spec_feed(m, a);
        if let Ok(vs) = r1 {
            let (m2, r2) = spec_feed(m1, b.drop_last());
            if let Ok(ws) = r2 {
                let (m3, o) = spec_step(m2, b.last());
                if let StepOutcome::Emit(v) = o {
                    assert((vs + ws).push(v) =~= vs + ws.push(v));
                }
            }
        }
    }
}

/// Reading one character is one step.
proof fn lemma_feed_one(m: ListenerModel, c: char)
    ensures
        spec_feed(m, seq![c]) == ({
            let (m1, o) = spec_step(m, c);
            match o {
                StepOutcome::Continue => (m1, Ok(Seq::empty())),
                StepOutcome::Emit(v) => (m1, Ok(seq![v])),
                StepOutcome::Fail(e) => (m1, Err(e)),
            }
        }),
{
    let cs = seq![c];
    assert(cs.drop_last() =~= Seq::<char>::empty());
    assert(spec_feed(m, cs.drop_last()) == (m, Ok::<Seq<JsonValue>, ListenError>(Seq::empty())));
    let (m1, o) = spec_step(m, c);
    if let StepOutcome::Emit(v) = o {
        assert(Seq::<JsonValue>::empty().push(v) =~= seq![v]);
    }
}

/// Characters other than a space or a line feed only add to a header field name.
proof fn lemma_feed_header_name(m: ListenerModel, cs: Seq<char>)
    requires
        m.stage == ReadingStage::HeaderField,
        forall|i: int| 0 <= i < cs.len() ==> (#[trigger] cs[i]) != ' ' && cs[i] != '\n',
    ensures
        spec_feed(m, cs) == (ListenerModel { current: m.current + cs, ..m }, Ok::<
            Seq<JsonValue>,
            ListenError,
        >(Seq::empty())),
    decreases cs.len(),
{
    if cs.len() == 0 {
        assert(m.current + cs =~= m.current);
    } else {
        assert(cs.last() == cs[cs.len() - 1]);
        lemma_feed_header_name(m, cs.drop_last());
        assert((m.current + cs.drop_last()).push(cs.last()) =~= m.current + cs);
    }
}

/// Characters other than a line feed only add to a `Content-Length` value.
proof fn lemma_feed_length_value(m: ListenerModel, cs: Seq<char>)
    requires
        m.stage == ReadingStage::ContentLength,
        forall|i: int| 0 <= i < cs.len() ==> (#[trigger] cs[i]) != '\n',
    ensures
        spec_feed(m, cs) == (ListenerModel { current: m.current + cs, ..m }, Ok::<
            Seq<JsonValue>,
            ListenError,
        >(Seq::empty())),
    decreases cs.len(),
{
    if cs.len() == 0 {
        assert(m.current + cs =~= m.current);
    } else {
        assert(cs.last() == cs[cs.len() - 1]);
        lemma_feed_length_value(m, cs.drop_last());
        assert((m.current + cs.drop_last()).push(cs.last()) =~= m.current + cs);
    }
}

/// Content shorter than announced only adds to the content read.
proof fn lemma_feed_content(m: ListenerModel, cs: Seq<char>)
    requires
        m.stage == ReadingStage::Content,
        spec_utf8_len(m.current + cs) < m.content_length,
    ensures
        spec_feed(m, cs) == (ListenerModel { current: m.current + cs, ..m }, Ok::<
            Seq<JsonValue>,
            ListenError,
        >(Seq::empty())),
    decreases cs.len(),
{
    if cs.len() == 0 {
        assert(m.current + cs =~= m.current);
    } else {
        let full = m.current + cs;
        assert(full.take(full.len() - 1) =~= m.current + cs.drop_last());
        lemma_utf8_len_prefix(full, full.len() - 1);
        lemma_feed_content(m, cs.drop_last());
        assert((m.current + cs.drop_last()).push(cs.last()) =~= full);
    }
}

/// The framing of one message whose content is `content`: the header
/// `Content-Length` giving the byte length of the content, an empty line, then
/// the content.
pub open spec fn spec_framed(content: Seq<char>) -> Seq<char> {
    "Content-Length: "@ + spec_nat_decimal(spec_utf8_len(content)) + "\r\n\r\n"@ + content
}

/// A reader at rest reads a framed message back: the JSON value of its content,
/// and it is at rest again; content that is no JSON document fails with
/// `InvalidContent`. Content that takes no bytes is never read, as no character
/// completes it.
pub proof fn law_framed_message_read_back(m: ListenerModel, content: Seq<char>)
    requires
        m.stage == ReadingStage::HeaderField,
        m.current.len() == 0,
        content.len() > 0,
        spec_utf8_len(content) <= usize::MAX,
    ensures
        spec_parse_json(content) is Some ==> spec_feed(m, spec_framed(content)) == (
            ListenerModel {
                content_length: 0,
                content_type: Seq::empty(),
                current: Seq::empty(),
                stage: ReadingStage::HeaderField,
                ignore_next: m.ignore_next,
            },
            Ok::<Seq<JsonValue>, ListenError>(seq![spec_parse_json(content).unwrap()]),
        ),
        spec_parse_json(content) is None ==> spec_feed(m, spec_framed(content)) == (
            ListenerModel {
                content_length: 0,
                content_type: Seq::empty(),
                current: content,
                stage: ReadingStage::HeaderField,
                ignore_next: m.ignore_next,
            },
            Err::<Seq<JsonValue>, ListenError>(ListenError::InvalidContent),
        ),
{
    reveal_strlit("Content-Length: ");
    reveal_strlit("Content-Length:");
    reveal_strlit("\r\n\r\n");
    let n = spec_utf8_len(content) as usize;
    let digits = spec_nat_decimal(n as nat);
    crate::text::lemma_nat_decimal(n as nat);
    let name = "Content-Length:"@;
    assert("Content-Length: "@ =~= name.push(' '));
    assert("\r\n\r\n"@ =~= seq!['\r', '\n', '\r', '\n']);
    let value = digits.push('\r');
    let framed = spec_framed(content);
    let p1 = name;
    let p2 = seq![' '];
    let p3 = value;
    let p4 = seq!['\n'];
    let p5 = seq!['\r'];
    let p6 = seq!['\n'];
    assert(framed =~= p1 + p2 + p3 + p4 + p5 + p6 + content);

    // The header field name.
    lemma_feed_header_name(m, p1);
    let m1 = ListenerModel { current: m.current + p1, ..m };
    assert(m1.current =~= name);
    // The space after it.
    let m2 = ListenerModel { stage: ReadingStage::ContentLength, current: Seq::empty(), ..m };
    assert(p2.last() == ' ' && p2.drop_last() =~= Seq::<char>::empty());
    lemma_feed_one(m1, ' ');
    assert(spec_feed(m1, p2) == (m2, Ok::<Seq<JsonValue>, ListenError>(Seq::empty())));
    law_feed_in_pieces(m, p1, p2);
    assert(Seq::<JsonValue>::empty() + Seq::<JsonValue>::empty() =~= Seq::<JsonValue>::empty());
    // The value and its carriage return.
    assert forall|i: int| 0 <= i < p3.len() implies (#[trigger] p3[i]) != '\n' by {
        if i < digits.len() {
            assert(p3[i] == digits[i]);
        }
    }
    lemma_feed_length_value(m2, p3);
    let m3 = ListenerModel { current: m2.current + p3, ..m2 };
    assert(m3.current =~= value);
    law_feed_in_pieces(m, p1 + p2, p3);
    // The line feed ending the header line.
    lemma_parse_decimal_line(n);
    let m4 = ListenerModel {
        content_length: n,
        current: Seq::empty(),
        stage: ReadingStage::HeaderField,
        ..m3
    };
    assert(p4.drop_last() =~= Seq::<char>::empty());
    lemma_feed_one(m3, '\n');
    assert(spec_feed(m3, p4) == (m4, Ok::<Seq<JsonValue>, ListenError>(Seq::empty())));
    law_feed_in_pieces(m, p1 + p2 + p3, p4);
    // The empty line.
    let m5 = ListenerModel { current: seq!['\r'], ..m4 };
    assert(p5.drop_last() =~= Seq::<char>::empty());
    assert(Seq::<char>::empty().push('\r') =~= seq!['\r']);
    lemma_feed_one(m4, '\r');
    assert(spec_feed(m4, p5) == (m5, Ok::<Seq<JsonValue>, ListenError>(Seq::empty())));
    law_feed_in_pieces(m, p1 + p2 + p3 + p4, p5);
    let m6 = ListenerModel { stage: ReadingStage::Content, current: Seq::empty(), ..m5 };
    assert(p6.drop_last() =~= Seq::<char>::empty());
    lemma_feed_one(m5, '\n');
    assert(spec_feed(m5, p6) == (m6, Ok::<Seq<JsonValue>, ListenError>(Seq::empty())));
    law_feed_in_pieces(m, p1 + p2 + p3 + p4 + p5, p6);
    // The content.
    let body = content.drop_last();
    assert(m6.current + body =~= content.take(content.len() - 1));
    lemma_utf8_len_prefix(content, content.len() - 1);
    lemma_feed_content(m6, body);
    let m7 = ListenerModel { current: m6.current + body, ..m6 };
    assert(m7.current.push(content.last()) =~= content);
    assert(content.drop_last() =~= body);
    if let Some(v) = spec_parse_json(content) {
        assert(spec_feed(m6, content) == (
            ListenerModel {
                content_length: 0,
                content_type: Seq::empty(),
                current: Seq::empty(),
                stage: ReadingStage::HeaderField,
                ignore_next: m.ignore_next,
            },
            Ok::<Seq<JsonValue>, ListenError>(seq![v]),
        )) by {
            assert(Seq::<JsonValue>::empty().push(v) =~= seq![v]);
        }
        law_feed_in_pieces(m, p1 + p2 + p3 + p4 + p5 + p6, content);
        assert(Seq::<JsonValue>::empty() + seq![v] =~= seq![v]);
    } else {
        assert(spec_feed(m6, content) == (
            ListenerModel {
                content_length: 0,
                content_type: Seq::empty(),
                current: content,
                stage: ReadingStage::HeaderField,
                ignore_next: m.ignore_next,
            },
            Err::<Seq<JsonValue>, ListenError>(ListenError::InvalidContent),
        ));
        law_feed_in_pieces(m, p1 + p2 + p3 + p4 + p5 + p6, content);
    }
}

/// Messages framed one after the other are read back in order: a reader at rest
/// gives the JSON values of both contents and is at rest again.
pub proof fn law_framed_messages_read_back_in_order(m: ListenerModel, a: Seq<char>, b: Seq<char>)
    requires
        m.stage == ReadingStage::HeaderField,
        m.current.len() == 0,
        a.len() > 0,
        b.len() > 0,
        spec_utf8_len(a) <= usize::MAX,
        spec_utf8_len(b) <= usize::MAX,
        spec_parse_json(a) is Some,
        spec_parse_json(b) is Some,
    ensures
        spec_feed(m, spec_framed(a) + spec_framed(b)) == (
            ListenerModel {
                content_length: 0,
                content_type: Seq::empty(),
                current: Seq::empty(),
                stage: ReadingStage::HeaderField,
                ignore_next: m.ignore_next,
            },
            Ok::<Seq<JsonValue>, ListenError>(
                seq![spec_parse_json(a).unwrap(), spec_parse_json(b).unwrap()],
            ),
        ),
{
    law_feed_in_pieces(m, spec_framed(a), spec_framed(b));
    law_framed_message_read_back(m, a);
    let rest = ListenerModel {
        content_length: 0,
        content_type: Seq::empty(),
        current: Seq::empty(),
        stage: ReadingStage::HeaderField,
        ignore_next: m.ignore_next,
    };
    law_framed_message_read_back(rest, b);
    assert(seq![spec_parse_json(a).unwrap()] + seq![spec_parse_json(b).unwrap()] =~= seq![
        spec_parse_json(a).unwrap(),
        spec_parse_json(b).unwrap(),
    ]);
}

/// A header field name other than `Content-Length:` and `Content-Type:` is refused at
/// the space after it, and the reader keeps the refused name as the text it read.
pub proof fn law_refused_header_name_kept(m: ListenerModel, name: Seq<char>)
    requires
        m.stage == ReadingStage::HeaderField,
        m.current.len() == 0,
        forall|i: int| 0 <= i < name.len() ==> (#[trigger] name[i]) != ' ' && name[i] != '\n',
        name != "Content-Length:"@,
        name != "Content-Type:"@,
    ensures
        spec_feed(m, name.push(' ')) == (
            ListenerModel { current: name, ..m },
            Err::<Seq<JsonValue>, ListenError>(ListenError::InvalidHeaderField),
        ),
{
    lemma_feed_header_name(m, name);
    assert(m.current + name =~= name);
    assert(name.push(' ').drop_last() =~= name);
}

/// A new reader is at a message boundary with nothing read: reading no characters
/// gives no message and leaves it as it was.
pub proof fn law_new_reader_at_rest()
    ensures
        spec_initial_listener().stage == ReadingStage::HeaderField,
        spec_initial_listener().current.len() == 0,
        spec_feed(spec_initial_listener(), Seq::empty()) == (
            spec_initial_listener(),
            Ok::<Seq<JsonValue>, ListenError>(Seq::empty()),
        ),
{
}

/// The framings of the contents `cs`, one after the other.
pub open spec fn spec_framed_all(cs: Seq<Seq<char>>) -> Seq<char>
    decreases cs.len(),
{
    if cs.len() == 0 {
        Seq::empty()
    } else {
        spec_framed_all(cs.drop_last()) + spec_framed(cs.last())
    }
}

/// The JSON values that the contents `cs` are read as.
pub open spec fn spec_parsed_all(cs: Seq<Seq<char>>) -> Seq<JsonValue> {
    cs.map_values(|c: Seq<char>| spec_parse_json(c).unwrap())
}

/// Any number of framed messages, one after the other, are read back in order: a
/// reader at rest gives the JSON values of all the contents and is at rest again.
pub proof fn law_framed_messages_read_back(m: ListenerModel, cs: Seq<Seq<char>>)
    requires
        m.stage == ReadingStage::HeaderField,
        m.current.len() == 0,
        forall|i: int|
            0 <= i < cs.len() ==> {
                &&& (#[trigger] cs[i]).len() > 0
                &&& spec_utf8_len(cs[i]) <= usize::MAX
                &&& spec_parse_json(cs[i]) is Some
            },
    ensures
        spec_feed(m, spec_framed_all(cs)) == (
            if cs.len() == 0 {
                m
            } else {
                ListenerModel {
                    content_length: 0,
                    content_type: Seq::empty(),
                    current: Seq::empty(),
                    stage: ReadingStage::HeaderField,
                    ignore_next: m.ignore_next,
                }
            },
            Ok::<Seq<JsonValue>, ListenError>(spec_parsed_all(cs)),
        ),
    decreases cs.len(),
{
    if cs.len() == 0 {
        assert(spec_parsed_all(cs) =~= Seq::<JsonValue>::empty());
    } else {
        let init = cs.drop_last();
        assert forall|i: int| 0 <= i < init.len() implies {
            &&& (#[trigger] init[i]).len() > 0
            &&& spec_utf8_len(init[i]) <= usize::MAX
            &&& spec_parse_json(init[i]) is Some
        } by {
            assert(init[i] == cs[i]);
        }
        law_framed_messages_read_back(m, init);
        law_feed_in_pieces(m, spec_framed_all(init), spec_framed(cs.last()));
        let rest = ListenerModel {
            content_length: 0,
            content_type: Seq::empty(),
            current: Seq::empty(),
            stage: ReadingStage::HeaderField,
            ignore_next: m.ignore_next,
        };
        let m1 = if init.len() == 0 {
            m
        } else {
            rest
        };
        assert(cs.last() == cs[cs.len() - 1]);
        law_framed_message_read_back(m1, cs.last());
        assert(spec_parsed_all(init) + seq![spec_parse_json(cs.last()).unwrap()] =~= spec_parsed_all(
            cs,
        ));
    }
}

/// A `Content-Length` header line announcing `n` bytes.
pub open spec fn spec_length_header(n: nat) -> Seq<char> {
    "Content-Length: "@ + spec_nat_decimal(n) + "\r\n"@
}

/// A `Content-Type` header line of value `t`.
pub open spec fn spec_type_header(t: Seq<char>) -> Seq<char> {
    "Content-Type: "@ + t + "\r\n"@
}

/// The reader between messages, nothing read, as a message leaves it.
pub open spec fn spec_rest(ignore_next: bool) -> ListenerModel {
    ListenerModel {
        content_length: 0,
        content_type: Seq::empty(),
        current: Seq::empty(),
        stage: ReadingStage::HeaderField,
        ignore_next,
    }
}

/// Characters other than a line feed and a backslash only add to a `Content-Type`
/// value.
proof fn lemma_feed_type_value(m: ListenerModel, cs: Seq<char>)
    requires
        m.stage == ReadingStage::ContentType,
        !m.ignore_next,
        forall|i: int| 0 <= i < cs.len() ==> (#[trigger] cs[i]) != '\n' && cs[i] != '\\',
    ensures
        spec_feed(m, cs) == (ListenerModel { current: m.current + cs, ..m }, Ok::<
            Seq<JsonValue>,
            ListenError,
        >(Seq::empty())),
    decreases cs.len(),
{
    if cs.len() == 0 {
        assert(m.current + cs =~= m.current);
    } else {
        assert(cs.last() == cs[cs.len() - 1]);
        lemma_feed_type_value(m, cs.drop_last());
        assert((m.current + cs.drop_last()).push(cs.last()) =~= m.current + cs);
    }
}

/// A `Content-Length` header line read at a header boundary sets the announced
/// length and changes nothing else.
proof fn lemma_length_header(m: ListenerModel, n: usize)
    requires
        m.stage == ReadingStage::HeaderField,
        m.current.len() == 0,
    ensures
        spec_feed(m, spec_length_header(n as nat)) == (
            ListenerModel { content_length: n, current: Seq::empty(), ..m },
            Ok::<Seq<JsonValue>, ListenError>(Seq::empty()),
        ),
{
    reveal_strlit("Content-Length: ");
    reveal_strlit("Content-Length:");
    reveal_strlit("\r\n");
    let digits = spec_nat_decimal(n as nat);
    crate::text::lemma_nat_decimal(n as nat);
    let name = "Content-Length:"@;
    assert("Content-Length: "@ =~= name.push(' '));
    let p1 = name;
    let p2 = seq![' '];
    let p3 = digits.push('\r');
    let p4 = seq!['\n'];
    assert(spec_length_header(n as nat) =~= p1 + p2 + p3 + p4);
    let e = Seq::<JsonValue>::empty();
    assert(e + e =~= e);
    lemma_feed_header_name(m, p1);
    let m1 = ListenerModel { current: m.current + p1, ..m };
    assert(m1.current =~= name);
    let m2 = ListenerModel { stage: ReadingStage::ContentLength, current: Seq::empty(), ..m };
    assert(p2.drop_last() =~= Seq::<char>::empty());
    lemma_feed_one(m1, ' ');
    law_feed_in_pieces(m, p1, p2);
    assert forall|i: int| 0 <= i < p3.len() implies (#[trigger] p3[i]) != '\n' by {
        if i < digits.len() {
            assert(p3[i] == digits[i]);
        }
    }
    lemma_feed_length_value(m2, p3);
    let m3 = ListenerModel { current: m2.current + p3, ..m2 };
    assert(m3.current =~= p3);
    law_feed_in_pieces(m, p1 + p2, p3);
    lemma_parse_decimal_line(n);
    assert(p4.drop_last() =~= Seq::<char>::empty());
    lemma_feed_one(m3, '\n');
    law_feed_in_pieces(m, p1 + p2 + p3, p4);
}

/// A `Content-Type` header line read at a header boundary records the value and
/// changes nothing else: in particular not the announced length.
proof fn lemma_type_header(m: ListenerModel, t: Seq<char>)
    requires
        m.stage == ReadingStage::HeaderField,
        m.current.len() == 0,
        !m.ignore_next,
        forall|i: int| 0 <= i < t.len() ==> (#[trigger] t[i]) != '\n' && t[i] != '\\',
    ensures
        spec_feed(m, spec_type_header(t)) == (
            ListenerModel { content_type: spec_trim(t.push('\r')), current: Seq::empty(), ..m },
            Ok::<Seq<JsonValue>, ListenError>(Seq::empty()),
        ),
{
    reveal_strlit("Content-Type: ");
    reveal_strlit("Content-Type:");
    reveal_strlit("\r\n");
    let name = "Content-Type:"@;
    assert("Content-Type: "@ =~= name.push(' '));
    let p1 = name;
    let p2 = seq![' '];
    let p3 = t.push('\r');
    let p4 = seq!['\n'];
    assert(spec_type_header(t) =~= p1 + p2 + p3 + p4);
    let e = Seq::<JsonValue>::empty();
    assert(e + e =~= e);
    assert forall|i: int| 0 <= i < p1.len() implies (#[trigger] p1[i]) != ' ' && p1[i] != '\n' by {}
    lemma_feed_header_name(m, p1);
    let m1 = ListenerModel { current: m.current + p1, ..m };
    assert(m1.current =~= name);
    assert(name != "Content-Length:"@) by {
        reveal_strlit("Content-Length:");
        assert(name[8] != "Content-Length:"@[8]);
    }
    let m2 = ListenerModel { stage: ReadingStage::ContentType, current: Seq::empty(), ..m };
    assert(p2.drop_last() =~= Seq::<char>::empty());
    lemma_feed_one(m1, ' ');
    law_feed_in_pieces(m, p1, p2);
    assert forall|i: int| 0 <= i < p3.len() implies (#[trigger] p3[i]) != '\n' && p3[i] != '\\' by {
        if i < t.len() {
            assert(p3[i] == t[i]);
        }
    }
    lemma_feed_type_value(m2, p3);
    let m3 = ListenerModel { current: m2.current + p3, ..m2 };
    assert(m3.current =~= p3);
    law_feed_in_pieces(m, p1 + p2, p3);
    assert(p4.drop_last() =~= Seq::<char>::empty());
    lemma_feed_one(m3, '\n');
    law_feed_in_pieces(m, p1 + p2 + p3, p4);
}

/// The empty line ending the headers, then content of the announced length, is
/// read as the content's JSON value, and the reader is at rest again.
proof fn lemma_blank_then_content(m: ListenerModel, content: Seq<char>)
    requires
        m.stage == ReadingStage::HeaderField,
        m.current.len() == 0,
        m.content_length == spec_utf8_len(content),
        content.len() > 0,
        spec_parse_json(content) is Some,
    ensures
        spec_feed(m, "\r\n"@ + content) == (
            spec_rest(m.ignore_next),
            Ok::<Seq<JsonValue>, ListenError>(seq![spec_parse_json(content).unwrap()]),
        ),
{
    reveal_strlit("\r\n");
    let p5 = seq!['\r'];
    let p6 = seq!['\n'];
    assert("\r\n"@ + content =~= p5 + p6 + content);
    let e = Seq::<JsonValue>::empty();
    assert(e + e =~= e);
    let m5 = ListenerModel { current: seq!['\r'], ..m };
    assert(p5.drop_last() =~= Seq::<char>::empty());
    assert(Seq::<char>::empty().push('\r') =~= seq!['\r']);
    assert(m.current =~= Seq::<char>::empty());
    assert(m.current.push('\r') =~= seq!['\r']);
    lemma_feed_one(m, '\r');
    assert(spec_feed(m, p5) == (m5, Ok::<Seq<JsonValue>, ListenError>(Seq::empty())));
    let m6 = ListenerModel { stage: ReadingStage::Content, current: Seq::empty(), ..m5 };
    assert(p6.drop_last() =~= Seq::<char>::empty());
    lemma_feed_one(m5, '\n');
    assert(spec_feed(m5, p6) == (m6, Ok::<Seq<JsonValue>, ListenError>(Seq::empty())));
    law_feed_in_pieces(m, p5, p6);
    assert(spec_feed(m, p5 + p6) == (m6, Ok::<Seq<JsonValue>, ListenError>(Seq::empty())));
    let body = content.drop_last();
    assert(m6.current + body =~= content.take(content.len() - 1));
    lemma_utf8_len_prefix(content, content.len() - 1);
    lemma_feed_content(m6, body);
    let m7 = ListenerModel { current: m6.current + body, ..m6 };
    assert(m7.current.push(content.last()) =~= content);
    assert(content.drop_last() =~= body);
    let v = spec_parse_json(content).unwrap();
    assert(spec_feed(m6, content) == (spec_rest(m.ignore_next), Ok::<Seq<JsonValue>, ListenError>(seq![v]))) by {
        assert(Seq::<JsonValue>::empty().push(v) =~= seq![v]);
    }
    law_feed_in_pieces(m, p5 + p6, content);
    assert(e + seq![v] =~= seq![v]);
}

/// A `Content-Type` header does not change the announced content length: with a
/// `Content-Length` header and a `Content-Type` header, in either order, then an
/// empty line and content of that length, a reader at rest reads back exactly the
/// content's JSON value and is at rest again.
pub proof fn law_content_type_keeps_length(m: ListenerModel, t: Seq<char>, content: Seq<char>)
    requires
        m.stage == ReadingStage::HeaderField,
        m.current.len() == 0,
        !m.ignore_next,
        forall|i: int| 0 <= i < t.len() ==> (#[trigger] t[i]) != '\n' && t[i] != '\\',
        content.len() > 0,
        spec_utf8_len(content) <= usize::MAX,
        spec_parse_json(content) is Some,
    ensures
        spec_feed(
            m,
            spec_length_header(spec_utf8_len(content)) + spec_type_header(t) + "\r\n"@ + content,
        ) == (spec_rest(false), Ok::<Seq<JsonValue>, ListenError>(seq![spec_parse_json(content).unwrap()])),
        spec_feed(
            m,
            spec_type_header(t) + spec_length_header(spec_utf8_len(content)) + "\r\n"@ + content,
        ) == (spec_rest(false), Ok::<Seq<JsonValue>, ListenError>(seq![spec_parse_json(content).unwrap()])),
{
    let n = spec_utf8_len(content) as usize;
    let lh = spec_length_header(n as nat);
    let th = spec_type_header(t);
    let tail = "\r\n"@ + content;
    let e = Seq::<JsonValue>::empty();
    assert(e + e =~= e);
    let v = spec_parse_json(content).unwrap();
    assert(e + seq![v] =~= seq![v]);
    // Length first.
    lemma_length_header(m, n);
    let a1 = ListenerModel { content_length: n, current: Seq::empty(), ..m };
    lemma_type_header(a1, t);
    let a2 = ListenerModel { content_type: spec_trim(t.push('\r')), current: Seq::empty(), ..a1 };
    lemma_blank_then_content(a2, content);
    law_feed_in_pieces(m, lh, th);
    law_feed_in_pieces(m, lh + th, tail);
    assert(lh + th + tail =~= lh + th + "\r\n"@ + content);
    // Type first.
    lemma_type_header(m, t);
    let b1 = ListenerModel { content_type: spec_trim(t.push('\r')), current: Seq::empty(), ..m };
    lemma_length_header(b1, n);
    let b2 = ListenerModel { content_length: n, current: Seq::empty(), ..b1 };
    lemma_blank_then_content(b2, content);
    law_feed_in_pieces(m, th, lh);
    law_feed_in_pieces(m, th + lh, tail);
    assert(th + lh + tail =~= th + lh + "\r\n"@ + content);
}

} // verus!
