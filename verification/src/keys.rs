//! The key translator: decides whether a caller-supplied string names a
//! terminal key or is literal text to type verbatim, and encodes it into the
//! byte sequence the terminal expects. Arrow-style keys carry two encodings,
//! chosen later by the terminal's cursor-key mode.

use vstd::prelude::*;
use vstd::string::*;
use crate::error::HtMcpError;
use crate::text::{
    chars_of, contains_char, contains_sub, count_char, count_char_exec, eq_lit, has_prefix,
    has_sub, spec_is_whitespace, is_whitespace_char, starts_with_lit, string_of_char,
};

verus! {

/// An encoded key: either one fixed byte sequence, or a pair of encodings for
/// the keys whose bytes depend on the terminal's cursor-key mode (normal
/// encoding first, application-mode encoding second).
#[derive(Debug, Clone, PartialEq, Eq)]
pub enum KeySequence {
    Standard(String),
    Cursor(String, String),
}

/// The mathematical shape of a `KeySequence`.
pub enum KeyView {
    Standard(Seq<char>),
    Cursor(Seq<char>, Seq<char>),
}

impl View for KeySequence {
    type V = KeyView;

    open spec fn view(&self) -> KeyView {
        match self {
            KeySequence::Standard(s) => KeyView::Standard(s@),
            KeySequence::Cursor(n, a) => KeyView::Cursor(n@, a@),
        }
    }
}

// ---------------------------------------------------------------------------
// Letters and control characters
// ---------------------------------------------------------------------------

pub open spec fn is_lower_letter(c: char) -> bool {
    'a' <= c && c <= 'z'
}

pub open spec fn is_upper_letter(c: char) -> bool {
    'A' <= c && c <= 'Z'
}

pub open spec fn is_letter(c: char) -> bool {
    is_lower_letter(c) || is_upper_letter(c)
}

/// Case-fold a letter to lower case.
pub open spec fn fold_lower(c: char) -> char {
    if is_upper_letter(c) {
        (((c as int) + 32) as u8) as char
    } else {
        c
    }
}

/// The control character for a lower-case letter: `C-a` is 0x01 … `C-z` is 0x1a.
pub open spec fn ctrl_of(c: char) -> char {
    (((c as int) - 96) as u8) as char
}

/// Whether `s` is a control-character form not in the named table:
/// `^` or `C-` followed by a single letter.
pub open spec fn spec_ctrl_form(s: Seq<char>) -> bool {
    (s.len() == 2 && s[0] == '^' && is_letter(s[1])) || (s.len() == 3 && s[0] == 'C' && s[1] == '-'
        && is_letter(s[2]))
}

/// The letter of a control-character form.
pub open spec fn spec_ctrl_letter(s: Seq<char>) -> char {
    if s.len() == 2 {
        s[1]
    } else {
        s[2]
    }
}

fn is_letter_exec(c: char) -> (r: bool)
    ensures
        r == is_letter(c),
{
    ('a' <= c && c <= 'z') || ('A' <= c && c <= 'Z')
}

fn ctrl_form(v: &Vec<char>) -> (r: bool)
    ensures
        r == spec_ctrl_form(v@),
{
    (v.len() == 2 && v[0] == '^' && is_letter_exec(v[1])) || (v.len() == 3 && v[0] == 'C' && v[1]
        == '-' && is_letter_exec(v[2]))
}

/// Encode a letter as its control character, case-folded first.
fn ctrl_encode(c: char) -> (r: char)
    requires
        is_letter(c),
    ensures
        r == ctrl_of(fold_lower(c)),
{
    let code: u32 = c as u32;
    let folded: u32 = if 65 <= code && code <= 90 {
        code + 32
    } else {
        code
    };
    let ctrl: u32 = folded - 96;
    (ctrl as u8) as char
}

// ---------------------------------------------------------------------------
// Classification: named key or literal text
// ---------------------------------------------------------------------------

/// Exact membership in the named-key table.
pub open spec fn spec_in_named_table(s: Seq<char>) -> bool {
    ||| s == "Enter"@
    ||| s == "Tab"@
    ||| s == "Space"@
    ||| s == "Escape"@
    ||| s == "Left"@
    ||| s == "Right"@
    ||| s == "Up"@
    ||| s == "Down"@
    ||| s == "F1"@
    ||| s == "F2"@
    ||| s == "F3"@
    ||| s == "F4"@
    ||| s == "F5"@
    ||| s == "F6"@
    ||| s == "F7"@
    ||| s == "F8"@
    ||| s == "F9"@
    ||| s == "F10"@
    ||| s == "F11"@
    ||| s == "F12"@
    ||| s == "Home"@
    ||| s == "End"@
    ||| s == "PageUp"@
    ||| s == "PageDown"@
    ||| s == "Insert"@
    ||| s == "Delete"@
    ||| s == "Backspace"@
    ||| s == "C-@"@
    ||| s == "C-Space"@
    ||| s == "^@"@
    ||| s == "C-["@
    ||| s == "^["@
    ||| s == "C-\\"@
    ||| s == "^\\"@
    ||| s == "C-]"@
    ||| s == "^]"@
    ||| s == "C-^"@
    ||| s == "C-/"@
    ||| s == "C--"@
    ||| s == "C-_"@
    ||| s == "C-Left"@
    ||| s == "C-Right"@
    ||| s == "C-Up"@
    ||| s == "C-Down"@
    ||| s == "S-Left"@
    ||| s == "S-Right"@
    ||| s == "S-Up"@
    ||| s == "S-Down"@
    ||| s == "A-Left"@
    ||| s == "A-Right"@
    ||| s == "A-Up"@
    ||| s == "A-Down"@
}

fn in_named_table(v: &Vec<char>) -> (r: bool)
    ensures
        r == spec_in_named_table(v@),
{
    eq_lit(v, "Enter") || eq_lit(v, "Tab") || eq_lit(v, "Space") || eq_lit(v, "Escape") || eq_lit(
        v,
        "Left",
    ) || eq_lit(v, "Right") || eq_lit(v, "Up") || eq_lit(v, "Down") || eq_lit(v, "F1") || eq_lit(
        v,
        "F2",
    ) || eq_lit(v, "F3") || eq_lit(v, "F4") || eq_lit(v, "F5") || eq_lit(v, "F6") || eq_lit(
        v,
        "F7",
    ) || eq_lit(v, "F8") || eq_lit(v, "F9") || eq_lit(v, "F10") || eq_lit(v, "F11") || eq_lit(
        v,
        "F12",
    ) || eq_lit(v, "Home") || eq_lit(v, "End") || eq_lit(v, "PageUp") || eq_lit(v, "PageDown")
        || eq_lit(v, "Insert") || eq_lit(v, "Delete") || eq_lit(v, "Backspace") || eq_lit(v, "C-@")
        || eq_lit(v, "C-Space") || eq_lit(v, "^@") || eq_lit(v, "C-[") || eq_lit(v, "^[") || eq_lit(
        v,
        "C-\\",
    ) || eq_lit(v, "^\\") || eq_lit(v, "C-]") || eq_lit(v, "^]") || eq_lit(v, "C-^") || eq_lit(
        v,
        "C-/",
    ) || eq_lit(v, "C--") || eq_lit(v, "C-_") || eq_lit(v, "C-Left") || eq_lit(v, "C-Right")
        || eq_lit(v, "C-Up") || eq_lit(v, "C-Down") || eq_lit(v, "S-Left") || eq_lit(v, "S-Right")
        || eq_lit(v, "S-Up") || eq_lit(v, "S-Down") || eq_lit(v, "A-Left") || eq_lit(v, "A-Right")
        || eq_lit(v, "A-Up") || eq_lit(v, "A-Down")
}

/// The ordered classification rules: whether a caller string denotes a key
/// (true) or literal text to type verbatim (false).
pub open spec fn spec_is_special_key(s: Seq<char>) -> bool {
    if s.len() == 0 {
        false
    } else if s.len() > 15 {
        false
    } else if s.contains('"') || s.contains('\'') {
        false
    } else if has_sub(s, "git "@) || has_sub(s, "echo "@) || has_sub(s, "cd "@) {
        false
    } else if count_char(s, ' ') > 1 {
        false
    } else if s.contains(' ') && !(s == "C-Space"@ || s == "Space"@) {
        false
    } else if has_sub(s, "http"@) || s.contains('[') || s.contains(']') || s.contains('<')
        || s.contains('>') {
        false
    } else {
        ||| spec_in_named_table(s)
        ||| (s.len() == 1 && !spec_is_whitespace(s[0]))
        ||| (s.len() <= 8 && (has_prefix(s, "C-"@) || has_prefix(s, "^"@)))
        ||| (s.len() <= 6 && has_prefix(s, "A-"@))
        ||| (s.len() <= 10 && has_prefix(s, "S-"@))
    }
}

/// Decide whether `key` denotes a named key rather than literal text.
pub fn is_special_key(key: &str) -> (r: bool)
    ensures
        r == spec_is_special_key(key@),
{
    let v = chars_of(key);
    if v.len() == 0 {
        return false;
    }
    if v.len() > 15 {
        return false;
    }
    if contains_char(&v, '"') || contains_char(&v, '\'') {
        return false;
    }
    if contains_sub(&v, "git ") || contains_sub(&v, "echo ") || contains_sub(&v, "cd ") {
        return false;
    }
    if count_char_exec(&v, ' ') > 1 {
        return false;
    }
    if contains_char(&v, ' ') && !(eq_lit(&v, "C-Space") || eq_lit(&v, "Space")) {
        return false;
    }
    if contains_sub(&v, "http") || contains_char(&v, '[') || contains_char(&v, ']')
        || contains_char(&v, '<') || contains_char(&v, '>') {
        return false;
    }
    in_named_table(&v) || (v.len() == 1 && !is_whitespace_char(v[0])) || (v.len() <= 8 && (
    starts_with_lit(&v, "C-") || starts_with_lit(&v, "^"))) || (v.len() <= 6 && starts_with_lit(
        &v,
        "A-",
    )) || (v.len() <= 10 && starts_with_lit(&v, "S-"))
}

// ---------------------------------------------------------------------------
// Encoding
// ---------------------------------------------------------------------------

/// A key or text with one fixed encoding.
pub fn standard_key(s: &str) -> (r: KeySequence)
    ensures
        r@ == KeyView::Standard(s@),
{
    KeySequence::Standard(String::from_str(s))
}

/// An arrow-style key with a normal-mode and an application-mode encoding.
pub fn cursor_key(normal: &str, application: &str) -> (r: KeySequence)
    ensures
        r@ == KeyView::Cursor(normal@, application@),
{
    KeySequence::Cursor(String::from_str(normal), String::from_str(application))
}

/// The encoding of a key string: the named-key table, then the
/// control-character rule, then literal pass-through.
pub open spec fn spec_parse_key(s: Seq<char>) -> KeyView {
    if s == "C-@"@ || s == "C-Space"@ || s == "^@"@ {
        KeyView::Standard("\x00"@)
    } else if s == "C-["@ || s == "Escape"@ || s == "^["@ {
        KeyView::Standard("\x1b"@)
    } else if s == "C-\\"@ || s == "^\\"@ {
        KeyView::Standard("\x1c"@)
    } else if s == "C-]"@ || s == "^]"@ {
        KeyView::Standard("\x1d"@)
    } else if s == "C-^"@ || s == "C-/"@ {
        KeyView::Standard("\x1e"@)
    } else if s == "C--"@ || s == "C-_"@ {
        KeyView::Standard("\x1f"@)
    } else if s == "Tab"@ {
        KeyView::Standard("\x09"@)
    } else if s == "Enter"@ {
        KeyView::Standard("\x0d"@)
    } else if s == "Space"@ {
        KeyView::Standard(" "@)
    } else if s == "Left"@ {
        KeyView::Cursor("\x1b[D"@, "\x1bOD"@)
    } else if s == "Right"@ {
        KeyView::Cursor("\x1b[C"@, "\x1bOC"@)
    } else if s == "Up"@ {
        KeyView::Cursor("\x1b[A"@, "\x1bOA"@)
    } else if s == "Down"@ {
        KeyView::Cursor("\x1b[B"@, "\x1bOB"@)
    } else if s == "C-Left"@ {
        KeyView::Standard("\x1b[1;5D"@)
    } else if s == "C-Right"@ {
        KeyView::Standard("\x1b[1;5C"@)
    } else if s == "S-Left"@ {
        KeyView::Standard("\x1b[1;2D"@)
    } else if s == "S-Right"@ {
        KeyView::Standard("\x1b[1;2C"@)
    } else if s == "C-Up"@ {
        KeyView::Standard("\x1b[1;5A"@)
    } else if s == "C-Down"@ {
        KeyView::Standard("\x1b[1;5B"@)
    } else if s == "S-Up"@ {
        KeyView::Standard("\x1b[1;2A"@)
    } else if s == "S-Down"@ {
        KeyView::Standard("\x1b[1;2B"@)
    } else if s == "A-Left"@ {
        KeyView::Standard("\x1b[1;3D"@)
    } else if s == "A-Right"@ {
        KeyView::Standard("\x1b[1;3C"@)
    } else if s == "A-Up"@ {
        KeyView::Standard("\x1b[1;3A"@)
    } else if s == "A-Down"@ {
        KeyView::Standard("\x1b[1;3B"@)
    } else if s == "F1"@ {
        KeyView::Standard("\x1bOP"@)
    } else if s == "F2"@ {
        KeyView::Standard("\x1bOQ"@)
    } else if s == "F3"@ {
        KeyView::Standard("\x1bOR"@)
    } else if s == "F4"@ {
        KeyView::Standard("\x1bOS"@)
    } else if s == "F5"@ {
        KeyView::Standard("\x1b[15~"@)
    } else if s == "F6"@ {
        KeyView::Standard("\x1b[17~"@)
    } else if s == "F7"@ {
        KeyView::Standard("\x1b[18~"@)
    } else if s == "F8"@ {
        KeyView::Standard("\x1b[19~"@)
    } else if s == "F9"@ {
        KeyView::Standard("\x1b[20~"@)
    } else if s == "F10"@ {
        KeyView::Standard("\x1b[21~"@)
    } else if s == "F11"@ {
        KeyView::Standard("\x1b[23~"@)
    } else if s == "F12"@ {
        KeyView::Standard("\x1b[24~"@)
    } else if s == "Home"@ {
        KeyView::Cursor("\x1b[H"@, "\x1bOH"@)
    } else if s == "End"@ {
        KeyView::Cursor("\x1b[F"@, "\x1bOF"@)
    } else if s == "PageUp"@ {
        KeyView::Standard("\x1b[5~"@)
    } else if s == "PageDown"@ {
        KeyView::Standard("\x1b[6~"@)
    } else if s == "Insert"@ {
        KeyView::Standard("\x1b[2~"@)
    } else if s == "Delete"@ {
        KeyView::Standard("\x1b[3~"@)
    } else if s == "Backspace"@ {
        KeyView::Standard("\x7f"@)
    } else if spec_ctrl_form(s) {
        KeyView::Standard(seq![ctrl_of(fold_lower(spec_ctrl_letter(s)))])
    } else {
        KeyView::Standard(s)
    }
}

/// Encode a key string into its byte sequence.
pub fn parse_key(key: &str) -> (r: KeySequence)
    ensures
        r@ == spec_parse_key(key@),
{
    let v = chars_of(key);
    if eq_lit(&v, "C-@") || eq_lit(&v, "C-Space") || eq_lit(&v, "^@") {
        standard_key("\x00")
    } else if eq_lit(&v, "C-[") || eq_lit(&v, "Escape") || eq_lit(&v, "^[") {
        standard_key("\x1b")
    } else if eq_lit(&v, "C-\\") || eq_lit(&v, "^\\") {
        standard_key("\x1c")
    } else if eq_lit(&v, "C-]") || eq_lit(&v, "^]") {
        standard_key("\x1d")
    } else if eq_lit(&v, "C-^") || eq_lit(&v, "C-/") {
        standard_key("\x1e")
    } else if eq_lit(&v, "C--") || eq_lit(&v, "C-_") {
        standard_key("\x1f")
    } else if eq_lit(&v, "Tab") {
        standard_key("\x09")
    } else if eq_lit(&v, "Enter") {
        standard_key("\x0d")
    } else if eq_lit(&v, "Space") {
        standard_key(" ")
    } else if eq_lit(&v, "Left") {
        cursor_key("\x1b[D", "\x1bOD")
    } else if eq_lit(&v, "Right") {
        cursor_key("\x1b[C", "\x1bOC")
    } else if eq_lit(&v, "Up") {
        cursor_key("\x1b[A", "\x1bOA")
    } else if eq_lit(&v, "Down") {
        cursor_key("\x1b[B", "\x1bOB")
    } else if eq_lit(&v, "C-Left") {
        standard_key("\x1b[1;5D")
    } else if eq_lit(&v, "C-Right") {
        standard_key("\x1b[1;5C")
    } else if eq_lit(&v, "S-Left") {
        standard_key("\x1b[1;2D")
    } else if eq_lit(&v, "S-Right") {
        standard_key("\x1b[1;2C")
    } else if eq_lit(&v, "C-Up") {
        standard_key("\x1b[1;5A")
    } else if eq_lit(&v, "C-Down") {
        standard_key("\x1b[1;5B")
    } else if eq_lit(&v, "S-Up") {
        standard_key("\x1b[1;2A")
    } else if eq_lit(&v, "S-Down") {
        standard_key("\x1b[1;2B")
    } else if eq_lit(&v, "A-Left") {
        standard_key("\x1b[1;3D")
    } else if eq_lit(&v, "A-Right") {
        standard_key("\x1b[1;3C")
    } else if eq_lit(&v, "A-Up") {
        standard_key("\x1b[1;3A")
    } else if eq_lit(&v, "A-Down") {
        standard_key("\x1b[1;3B")
    } else if eq_lit(&v, "F1") {
        standard_key("\x1bOP")
    } else if eq_lit(&v, "F2") {
        standard_key("\x1bOQ")
    } else if eq_lit(&v, "F3") {
        standard_key("\x1bOR")
    } else if eq_lit(&v, "F4") {
        standard_key("\x1bOS")
    } else if eq_lit(&v, "F5") {
        standard_key("\x1b[15~")
    } else if eq_lit(&v, "F6") {
        standard_key("\x1b[17~")
    } else if eq_lit(&v, "F7") {
        standard_key("\x1b[18~")
    } else if eq_lit(&v, "F8") {
        standard_key("\x1b[19~")
    } else if eq_lit(&v, "F9") {
        standard_key("\x1b[20~")
    } else if eq_lit(&v, "F10") {
        standard_key("\x1b[21~")
    } else if eq_lit(&v, "F11") {
        standard_key("\x1b[23~")
    } else if eq_lit(&v, "F12") {
        standard_key("\x1b[24~")
    } else if eq_lit(&v, "Home") {
        cursor_key("\x1b[H", "\x1bOH")
    } else if eq_lit(&v, "End") {
        cursor_key("\x1b[F", "\x1bOF")
    } else if eq_lit(&v, "PageUp") {
        standard_key("\x1b[5~")
    } else if eq_lit(&v, "PageDown") {
        standard_key("\x1b[6~")
    } else if eq_lit(&v, "Insert") {
        standard_key("\x1b[2~")
    } else if eq_lit(&v, "Delete") {
        standard_key("\x1b[3~")
    } else if eq_lit(&v, "Backspace") {
        standard_key("\x7f")
    } else if ctrl_form(&v) {
        let letter = if v.len() == 2 {
            v[1]
        } else {
            v[2]
        };
        KeySequence::Standard(string_of_char(ctrl_encode(letter)))
    } else {
        standard_key(key)
    }
}

/// What `smart_parse_key` produces: a named-key encoding where the
/// classification accepts the string as a key, literal pass-through otherwise.
pub open spec fn spec_smart_parse_key(s: Seq<char>) -> KeyView {
    if spec_is_special_key(s) {
        spec_parse_key(s)
    } else {
        KeyView::Standard(s)
    }
}

/// Classify `key`, then encode it: named keys get their table encoding,
/// literal text passes through unchanged.
pub fn smart_parse_key(key: &str) -> (r: KeySequence)
    ensures
        r@ == spec_smart_parse_key(key@),
{
    if is_special_key(key) {
        parse_key(key)
    } else {
        standard_key(key)
    }
}

// ---------------------------------------------------------------------------
// Translating batches of keys
// ---------------------------------------------------------------------------

/// Translates caller key strings into encoded sequences.
pub struct CommandBridge;

impl CommandBridge {
    pub fn new() -> (r: Self)
        ensures
            r == (CommandBridge {  }),
    {
        CommandBridge {  }
    }

    /// Encode each key string through the named-key table.
    pub fn translate_keys(&self, keys: &[String]) -> (r: Result<
        Vec<KeySequence>,
        HtMcpError,
    >)
        ensures
            r matches Ok(v) && v@.len() == keys@.len(),
            r matches Ok(v) ==> forall|i: int|
                0 <= i < keys@.len() ==> #[trigger] v@[i]@ == spec_parse_key(keys@[i]@),
    {
        let mut out: Vec<KeySequence> = Vec::new();
        let mut i: usize = 0;
        while i < keys.len()
            invariant
                i <= keys@.len(),
                out@.len() == i,
                forall|j: int| 0 <= j < i ==> #[trigger] out@[j]@ == spec_parse_key(keys@[j]@),
            decreases keys@.len() - i,
        {
            out.push(parse_key(keys[i].as_str()));
            i = i + 1;
        }
        Ok(out)
    }
}

// ---------------------------------------------------------------------------
// Resolving encodings against the cursor-key mode
// ---------------------------------------------------------------------------

/// The bytes a key contributes under the given cursor-key mode.
pub open spec fn spec_resolve(k: KeyView, app_mode: bool) -> Seq<char> {
    match k {
        KeyView::Standard(s) => s,
        KeyView::Cursor(normal, application) => if app_mode {
            application
        } else {
            normal
        },
    }
}

/// Pick the encoding of one key under the given cursor-key mode.
pub fn resolve_seq(k: &KeySequence, app_mode: bool) -> (r: &str)
    ensures
        r@ == spec_resolve(k@, app_mode),
{
    match k {
        KeySequence::Standard(s) => s.as_str(),
        KeySequence::Cursor(normal, application) => if app_mode {
            application.as_str()
        } else {
            normal.as_str()
        },
    }
}

/// The concatenation of the encodings of `ks` under the given mode.
pub open spec fn spec_seqs_text(ks: Seq<KeySequence>, app_mode: bool) -> Seq<char>
    decreases ks.len(),
{
    if ks.len() == 0 {
        Seq::empty()
    } else {
        spec_resolve(ks[0]@, app_mode) + spec_seqs_text(ks.skip(1), app_mode)
    }
}

/// Concatenate the encodings of all keys, resolving cursor keys against the
/// terminal's current cursor-key mode.
pub fn seqs_to_text(ks: &Vec<KeySequence>, app_mode: bool) -> (r: String)
    ensures
        r@ == spec_seqs_text(ks@, app_mode),
{
    let mut out = String::new();
    let mut i: usize = 0;
    proof {
        assert(ks@.skip(0) =~= ks@);
    }
    while i < ks.len()
        invariant
            i <= ks@.len(),
            out@ + spec_seqs_text(ks@.skip(i as int), app_mode) == spec_seqs_text(ks@, app_mode),
        decreases ks@.len() - i,
    {
        proof {
            assert(ks@.skip(i as int).len() > 0);
            assert(ks@.skip(i as int)[0] == ks@[i as int]);
            assert(ks@.skip(i as int).skip(1) =~= ks@.skip(i + 1));
        }
        let piece = resolve_seq(&ks[i], app_mode);
        out.append(piece);
        i = i + 1;
    }
    proof {
        assert(ks@.skip(ks@.len() as int) =~= Seq::<KeySequence>::empty());
        assert(out@ =~= spec_seqs_text(ks@, app_mode));
    }
    out
}

} // verus!
