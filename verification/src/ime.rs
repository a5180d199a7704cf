//! IME (text-input-v3) types, requests and event batching.
use vstd::prelude::*;
use vstd::string::*;
use crate::event::{Event, WindowEvent, wev};
use crate::geometry::Rect;
use crate::surface::SurfaceId;

verus! {

/// Semantic purpose of a text input; one to one with
/// `zwp_text_input_v3.content_purpose`.
#[derive(Debug, Clone, Copy, PartialEq, Eq, Hash, Structural)]
#[non_exhaustive]
pub enum ContentPurpose {
    /// Default — generic text.
    Normal,
    /// Alphabetic characters only.
    Alpha,
    /// Digits only.
    Digits,
    /// Number with sign and decimal separator.
    Number,
    /// Phone number.
    Phone,
    /// URL.
    Url,
    /// Email address.
    Email,
    /// Person's name.
    Name,
    /// Password.
    Password,
    /// Numeric password.
    Pin,
    /// Date.
    Date,
    /// Time.
    Time,
    /// Date and time.
    Datetime,
    /// Terminal / shell command line.
    Terminal,
}

/// The `zwp_text_input_v3.content_purpose` wire value.
pub open spec fn spec_purpose_wire(p: ContentPurpose) -> u32 {
    match p {
        ContentPurpose::Normal => 0,
        ContentPurpose::Alpha => 1,
        ContentPurpose::Digits => 2,
        ContentPurpose::Number => 3,
        ContentPurpose::Phone => 4,
        ContentPurpose::Url => 5,
        ContentPurpose::Email => 6,
        ContentPurpose::Name => 7,
        ContentPurpose::Password => 8,
        ContentPurpose::Pin => 9,
        ContentPurpose::Date => 10,
        ContentPurpose::Time => 11,
        ContentPurpose::Datetime => 12,
        ContentPurpose::Terminal => 13,
    }
}

impl ContentPurpose {
    /// The `zwp_text_input_v3.content_purpose` wire value.
    pub fn wire_value(self) -> (v: u32)
        ensures
            v == spec_purpose_wire(self),
    {
        match self {
            ContentPurpose::Normal => 0,
            ContentPurpose::Alpha => 1,
            ContentPurpose::Digits => 2,
            ContentPurpose::Number => 3,
            ContentPurpose::Phone => 4,
            ContentPurpose::Url => 5,
            ContentPurpose::Email => 6,
            ContentPurpose::Name => 7,
            ContentPurpose::Password => 8,
            ContentPurpose::Pin => 9,
            ContentPurpose::Date => 10,
            ContentPurpose::Time => 11,
            ContentPurpose::Datetime => 12,
            ContentPurpose::Terminal => 13,
        }
    }
}

/// Hint flags; the bits of `zwp_text_input_v3.content_hint`.
#[derive(Debug, Clone, Copy, PartialEq, Eq, Hash, Structural)]
pub struct ContentHint {
    /// Raw flag bits (only the ten defined bits are ever set).
    pub bits: u32,
}

/// Every defined hint bit.
pub const CONTENT_HINT_ALL_BITS: u32 = 0x3ff;

impl ContentHint {
    /// No hint.
    pub fn empty() -> (h: ContentHint)
        ensures
            h.bits == 0,
    {
        ContentHint { bits: 0 }
    }

    /// Suggest completions.
    pub fn completion() -> (h: ContentHint)
        ensures
            h.bits == 0x1,
    {
        ContentHint { bits: 0x1 }
    }

    /// Auto-correct.
    pub fn spellcheck() -> (h: ContentHint)
        ensures
            h.bits == 0x2,
    {
        ContentHint { bits: 0x2 }
    }

    /// Auto-capitalize.
    pub fn auto_capital() -> (h: ContentHint)
        ensures
            h.bits == 0x4,
    {
        ContentHint { bits: 0x4 }
    }

    /// Lowercase only.
    pub fn lowercase() -> (h: ContentHint)
        ensures
            h.bits == 0x8,
    {
        ContentHint { bits: 0x8 }
    }

    /// Uppercase only.
    pub fn uppercase() -> (h: ContentHint)
        ensures
            h.bits == 0x10,
    {
        ContentHint { bits: 0x10 }
    }

    /// Title-case.
    pub fn titlecase() -> (h: ContentHint)
        ensures
            h.bits == 0x20,
    {
        ContentHint { bits: 0x20 }
    }

    /// Hide visible feedback (passwords).
    pub fn hidden_text() -> (h: ContentHint)
        ensures
            h.bits == 0x40,
    {
        ContentHint { bits: 0x40 }
    }

    /// Sensitive data (not to be stored).
    pub fn sensitive_data() -> (h: ContentHint)
        ensures
            h.bits == 0x80,
    {
        ContentHint { bits: 0x80 }
    }

    /// Latin script only.
    pub fn latin() -> (h: ContentHint)
        ensures
            h.bits == 0x100,
    {
        ContentHint { bits: 0x100 }
    }

    /// Allow multiple lines.
    pub fn multiline() -> (h: ContentHint)
        ensures
            h.bits == 0x200,
    {
        ContentHint { bits: 0x200 }
    }

    /// Keep only the defined bits of `bits`.
    pub fn from_bits_truncate(bits: u32) -> (h: ContentHint)
        ensures
            h.bits == bits & CONTENT_HINT_ALL_BITS,
    {
        ContentHint { bits: bits & CONTENT_HINT_ALL_BITS }
    }

    /// Flags set in either.
    pub fn union(self, other: ContentHint) -> (h: ContentHint)
        ensures
            h.bits == self.bits | other.bits,
    {
        ContentHint { bits: self.bits | other.bits }
    }

    /// Whether every flag of `other` is set in `self`.
    pub fn contains(self, other: ContentHint) -> (b: bool)
        ensures
            b == (self.bits & other.bits == other.bits),
    {
        self.bits & other.bits == other.bits
    }
}

/// IME event dispatched as part of [`WindowEvent::Ime`].
#[derive(Debug, PartialEq, Eq)]
#[non_exhaustive]
pub enum ImeEvent {
    /// Composition string visible to the user but not yet committed.
    Preedit {
        /// The current composition string.
        text: String,
        /// Caret byte offset inside `text`, or `None` to hide the caret.
        cursor: Option<u32>,
    },
    /// Final committed string.
    Commit(String),
    /// Delete `before_bytes` UTF-8 bytes before the cursor and
    /// `after_bytes` after it.
    DeleteSurroundingText {
        /// Bytes to delete before the cursor.
        before_bytes: u32,
        /// Bytes to delete after the cursor.
        after_bytes: u32,
    },
}

/// A `zwp_text_input_v3` request, with enum arguments as wire values.
#[derive(Debug, PartialEq, Eq)]
pub enum TextInputRequest {
    /// `enable`.
    Enable,
    /// `disable`.
    Disable,
    /// `set_cursor_rectangle`.
    SetCursorRectangle {
        /// Left edge.
        x: i32,
        /// Top edge.
        y: i32,
        /// Width.
        width: i32,
        /// Height.
        height: i32,
    },
    /// `set_content_type(hint, purpose)`.
    SetContentType {
        /// Hint bits.
        hint: u32,
        /// Purpose wire value.
        purpose: u32,
    },
    /// `set_surrounding_text`.
    SetSurroundingText {
        /// Text around the cursor.
        text: String,
        /// Cursor byte offset.
        cursor: i32,
        /// Selection anchor byte offset.
        anchor: i32,
    },
    /// `commit`.
    Commit,
}

/// Per-surface IME control: turns the consumer's calls into the
/// `zwp_text_input_v3` requests to send. The content type is sent as a
/// (hint, purpose) pair, so both last-set values are kept.
pub struct Ime {
    /// Whether `enable` was the last activation call.
    pub enabled: bool,
    /// Last hint set.
    pub hint: ContentHint,
    /// Last purpose set.
    pub purpose: ContentPurpose,
}

impl Ime {
    /// A fresh control: disabled, no hint, normal purpose.
    pub fn new() -> (ime: Ime)
        ensures
            !ime.enabled,
            ime.hint.bits == 0,
            ime.purpose == ContentPurpose::Normal,
    {
        Ime { enabled: false, hint: ContentHint { bits: 0 }, purpose: ContentPurpose::Normal }
    }

    /// Activate IME for this surface: `enable` then `commit`.
    pub fn enable(&mut self) -> (reqs: Vec<TextInputRequest>)
        ensures
            final(self).enabled,
            final(self).hint == old(self).hint,
            final(self).purpose == old(self).purpose,
            reqs@ == seq![TextInputRequest::Enable, TextInputRequest::Commit],
    {
        self.enabled = true;
        let mut v: Vec<TextInputRequest> = Vec::new();
        v.push(TextInputRequest::Enable);
        v.push(TextInputRequest::Commit);
        v
    }

    /// Deactivate IME for this surface: `disable` then `commit`.
    pub fn disable(&mut self) -> (reqs: Vec<TextInputRequest>)
        ensures
            !final(self).enabled,
            final(self).hint == old(self).hint,
            final(self).purpose == old(self).purpose,
            reqs@ == seq![TextInputRequest::Disable, TextInputRequest::Commit],
    {
        self.enabled = false;
        let mut v: Vec<TextInputRequest> = Vec::new();
        v.push(TextInputRequest::Disable);
        v.push(TextInputRequest::Commit);
        v
    }

    /// Set the rectangle the text cursor occupies, in surface-local
    /// logical pixels.
    pub fn set_cursor_rect(&self, rect: Rect) -> (reqs: Vec<TextInputRequest>)
        ensures
            reqs@ == seq![TextInputRequest::SetCursorRectangle {
                x: rect.position.x,
                y: rect.position.y,
                width: rect.size.width as i32,
                height: rect.size.height as i32,
            }],
    {
        let mut v: Vec<TextInputRequest> = Vec::new();
        v.push(TextInputRequest::SetCursorRectangle {
            x: rect.position.x,
            y: rect.position.y,
            width: rect.size.width as i32,
            height: rect.size.height as i32,
        });
        v
    }

    /// Tell the IME what kind of text the user is entering; the content
    /// type goes out with the last-set hint.
    pub fn set_purpose(&mut self, purpose: ContentPurpose) -> (reqs: Vec<TextInputRequest>)
        ensures
            final(self).purpose == purpose,
            final(self).hint == old(self).hint,
            final(self).enabled == old(self).enabled,
            reqs@ == seq![TextInputRequest::SetContentType {
                hint: old(self).hint.bits,
                purpose: spec_purpose_wire(purpose),
            }],
    {
        self.purpose = purpose;
        let mut v: Vec<TextInputRequest> = Vec::new();
        v.push(TextInputRequest::SetContentType { hint: self.hint.bits, purpose: purpose.wire_value() });
        v
    }

    /// Set the hint flags; the content type goes out with the last-set
    /// purpose.
    pub fn set_hint(&mut self, hint: ContentHint) -> (reqs: Vec<TextInputRequest>)
        ensures
            final(self).hint == hint,
            final(self).purpose == old(self).purpose,
            final(self).enabled == old(self).enabled,
            reqs@ == seq![TextInputRequest::SetContentType {
                hint: hint.bits,
                purpose: spec_purpose_wire(old(self).purpose),
            }],
    {
        self.hint = hint;
        let mut v: Vec<TextInputRequest> = Vec::new();
        v.push(TextInputRequest::SetContentType { hint: hint.bits, purpose: self.purpose.wire_value() });
        v
    }

    /// Inform the IME of the text surrounding the cursor.
    pub fn set_surrounding_text(&self, text: &str, cursor: u32, anchor: u32) -> (reqs: Vec<TextInputRequest>)
        ensures
            reqs@.len() == 1,
            reqs@[0] matches TextInputRequest::SetSurroundingText { text: t, cursor: c, anchor: a }
                && t@ == text@ && c == cursor as i32 && a == anchor as i32,
    {
        let mut v: Vec<TextInputRequest> = Vec::new();
        v.push(TextInputRequest::SetSurroundingText {
            text: String::from_str(text),
            cursor: cursor as i32,
            anchor: anchor as i32,
        });
        v
    }
}

/// Per-seat text-input state: focus and the events staged since the
/// last `done`.
pub struct TextInputState {
    /// Whether the seat's text input is enabled (cleared on `leave`).
    pub enabled: bool,
    /// Serial of the last `done`.
    pub last_done_serial: u32,
    /// Surface the text input entered, if any.
    pub focused_surface: Option<SurfaceId>,
    /// Staged preedit string and caret.
    pub pending_preedit: Option<(String, Option<u32>)>,
    /// Staged committed string.
    pub pending_commit: Option<String>,
    /// Staged surrounding-text deletion.
    pub pending_delete: Option<(u32, u32)>,
}

/// Caret of a `preedit_string` event: hidden when either end is negative,
/// else the start of the range.
pub open spec fn spec_preedit_cursor(begin: i32, end: i32) -> Option<u32> {
    if begin < 0 || end < 0 {
        None
    } else {
        Some(begin as u32)
    }
}

/// The events a `done` emits, in the protocol's order of application:
/// deletion, then commit, then preedit.
pub open spec fn spec_ime_done_events(st: TextInputState, sid: SurfaceId) -> Seq<Event<()>> {
    (match st.pending_delete {
        Some((b, a)) => seq![wev(sid, WindowEvent::Ime(ImeEvent::DeleteSurroundingText { before_bytes: b, after_bytes: a }))],
        None => Seq::empty(),
    }) + (match st.pending_commit {
        Some(t) => seq![wev(sid, WindowEvent::Ime(ImeEvent::Commit(t)))],
        None => Seq::empty(),
    }) + (match st.pending_preedit {
        Some((t, c)) => seq![wev(sid, WindowEvent::Ime(ImeEvent::Preedit { text: t, cursor: c }))],
        None => Seq::empty(),
    })
}

/// Text of an optional protocol string, empty when absent.
pub open spec fn spec_text_or_empty(t: Option<String>, r: String) -> bool {
    match t {
        Some(s) => r == s,
        None => r@ == Seq::<char>::empty(),
    }
}

impl TextInputState {
    /// Initial state: nothing focused, enabled or staged.
    pub fn new() -> (st: TextInputState)
        ensures
            !st.enabled,
            st.last_done_serial == 0,
            st.focused_surface is None,
            st.pending_preedit is None,
            st.pending_commit is None,
            st.pending_delete is None,
    {
        TextInputState {
            enabled: false,
            last_done_serial: 0,
            focused_surface: None,
            pending_preedit: None,
            pending_commit: None,
            pending_delete: None,
        }
    }

    /// `enter`: the text input follows keyboard focus to `surface`
    /// (`None` when the surface is not one of ours).
    pub fn enter(&mut self, surface: Option<SurfaceId>)
        ensures
            final(self).focused_surface == surface,
            final(self).enabled == old(self).enabled,
            final(self).last_done_serial == old(self).last_done_serial,
            final(self).pending_preedit == old(self).pending_preedit,
            final(self).pending_commit == old(self).pending_commit,
            final(self).pending_delete == old(self).pending_delete,
    {
        self.focused_surface = surface;
    }

    /// `leave`: focus is gone and the consumer must enable again.
    pub fn leave(&mut self)
        ensures
            final(self).focused_surface is None,
            !final(self).enabled,
            final(self).last_done_serial == old(self).last_done_serial,
            final(self).pending_preedit == old(self).pending_preedit,
            final(self).pending_commit == old(self).pending_commit,
            final(self).pending_delete == old(self).pending_delete,
    {
        self.focused_surface = None;
        self.enabled = false;
    }

    /// `preedit_string`: stage the preedit (an absent text clears it).
    pub fn preedit_string(&mut self, text: Option<String>, cursor_begin: i32, cursor_end: i32)
        ensures
            final(self).pending_preedit matches Some((t, c))
                && spec_text_or_empty(text, t)
                && c == spec_preedit_cursor(cursor_begin, cursor_end),
            final(self).focused_surface == old(self).focused_surface,
            final(self).enabled == old(self).enabled,
            final(self).last_done_serial == old(self).last_done_serial,
            final(self).pending_commit == old(self).pending_commit,
            final(self).pending_delete == old(self).pending_delete,
    {
        let t = match text {
            Some(s) => s,
            None => String::new(),
        };
        let cursor = if cursor_begin < 0 || cursor_end < 0 {
            None
        } else {
            Some(cursor_begin as u32)
        };
        self.pending_preedit = Some((t, cursor));
    }

    /// `commit_string`: stage the committed text.
    pub fn commit_string(&mut self, text: Option<String>)
        ensures
            final(self).pending_commit matches Some(t) && spec_text_or_empty(text, t),
            final(self).focused_surface == old(self).focused_surface,
            final(self).enabled == old(self).enabled,
            final(self).last_done_serial == old(self).last_done_serial,
            final(self).pending_preedit == old(self).pending_preedit,
            final(self).pending_delete == old(self).pending_delete,
    {
        let t = match text {
            Some(s) => s,
            None => String::new(),
        };
        self.pending_commit = Some(t);
    }

    /// `delete_surrounding_text`: stage the deletion.
    pub fn delete_surrounding_text(&mut self, before_length: u32, after_length: u32)
        ensures
            final(self).pending_delete == Some((before_length, after_length)),
            final(self).focused_surface == old(self).focused_surface,
            final(self).enabled == old(self).enabled,
            final(self).last_done_serial == old(self).last_done_serial,
            final(self).pending_preedit == old(self).pending_preedit,
            final(self).pending_commit == old(self).pending_commit,
    {
        self.pending_delete = Some((before_length, after_length));
    }

    /// `done`: apply the staged state. With a focused surface the staged
    /// deletion, commit and preedit are emitted in that order; without
    /// one they are dropped. Either way nothing stays staged.
    pub fn done(&mut self, serial: u32, out: &mut Vec<Event<()>>)
        ensures
            final(self).last_done_serial == serial,
            final(self).pending_preedit is None,
            final(self).pending_commit is None,
            final(self).pending_delete is None,
            final(self).focused_surface == old(self).focused_surface,
            final(self).enabled == old(self).enabled,
            final(out)@ == old(out)@ + match old(self).focused_surface {
                Some(sid) => spec_ime_done_events(*old(self), sid),
                None => Seq::<Event<()>>::empty(),
            },
    {
        self.last_done_serial = serial;
        let sid = match self.focused_surface {
            Some(id) => id,
            None => {
                self.pending_preedit = None;
                self.pending_commit = None;
                self.pending_delete = None;
                return;
            },
        };
        let ghost before = out@;
        let ghost st = *old(self);
        let del = self.pending_delete.take();
        if let Some((b, a)) = del {
            out.push(Event::WindowEvent {
                surface_id: sid,
                event: WindowEvent::Ime(ImeEvent::DeleteSurroundingText { before_bytes: b, after_bytes: a }),
            });
        }
        let ghost after_del = out@;
        let com = self.pending_commit.take();
        if let Some(t) = com {
            out.push(Event::WindowEvent { surface_id: sid, event: WindowEvent::Ime(ImeEvent::Commit(t)) });
        }
        let ghost after_com = out@;
        let pre = self.pending_preedit.take();
        if let Some((t, c)) = pre {
            out.push(Event::WindowEvent {
                surface_id: sid,
                event: WindowEvent::Ime(ImeEvent::Preedit { text: t, cursor: c }),
            });
        }
        assert(out@ =~= before + spec_ime_done_events(st, sid));
    }
}

} // verus!
