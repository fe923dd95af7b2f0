//! The laws of the key translator, stated and proved over its specification:
//! every named key in the table classifies as a special key and encodes to
//! its documented byte sequence; the literal-text guards pass caller text
//! through unchanged; and the control-character forms are equivalent across
//! their spellings and letter cases.

use vstd::prelude::*;
use crate::keys::{
    ctrl_of, fold_lower, is_letter, is_lower_letter, spec_ctrl_form,
    spec_is_special_key, spec_parse_key, spec_smart_parse_key, KeyView,
};
use crate::text::{
    count_char, has_prefix, has_sub, lemma_count_zero, lemma_no_sub_by_char,
    lemma_no_sub_by_start,
};

verus! {

proof fn table_facts()
    ensures
        "C-@"@.len() == 3,
        "C-@"@[0] == 'C',
        "C-@"@[1] == '-',
        "C-@"@[2] == '@',
        "C-Space"@.len() == 7,
        "C-Space"@[0] == 'C',
        "C-Space"@[1] == '-',
        "C-Space"@[2] == 'S',
        "C-Space"@[3] == 'p',
        "C-Space"@[4] == 'a',
        "C-Space"@[5] == 'c',
        "C-Space"@[6] == 'e',
        "^@"@.len() == 2,
        "^@"@[0] == '^',
        "^@"@[1] == '@',
        "C-["@.len() == 3,
        "C-["@[0] == 'C',
        "C-["@[1] == '-',
        "C-["@[2] == '[',
        "Escape"@.len() == 6,
        "Escape"@[0] == 'E',
        "Escape"@[1] == 's',
        "Escape"@[2] == 'c',
        "Escape"@[3] == 'a',
        "Escape"@[4] == 'p',
        "Escape"@[5] == 'e',
        "^["@.len() == 2,
        "^["@[0] == '^',
        "^["@[1] == '[',
        "C-\\"@.len() == 3,
        "C-\\"@[0] == 'C',
        "C-\\"@[1] == '-',
        "C-\\"@[2] == '\\',
        "^\\"@.len() == 2,
        "^\\"@[0] == '^',
        "^\\"@[1] == '\\',
        "C-]"@.len() == 3,
        "C-]"@[0] == 'C',
        "C-]"@[1] == '-',
        "C-]"@[2] == ']',
        "^]"@.len() == 2,
        "^]"@[0] == '^',
        "^]"@[1] == ']',
        "C-^"@.len() == 3,
        "C-^"@[0] == 'C',
        "C-^"@[1] == '-',
        "C-^"@[2] == '^',
        "C-/"@.len() == 3,
        "C-/"@[0] == 'C',
        "C-/"@[1] == '-',
        "C-/"@[2] == '/',
        "C--"@.len() == 3,
        "C--"@[0] == 'C',
        "C--"@[1] == '-',
        "C--"@[2] == '-',
        "C-_"@.len() == 3,
        "C-_"@[0] == 'C',
        "C-_"@[1] == '-',
        "C-_"@[2] == '_',
        "Tab"@.len() == 3,
        "Tab"@[0] == 'T',
        "Tab"@[1] == 'a',
        "Tab"@[2] == 'b',
        "Enter"@.len() == 5,
        "Enter"@[0] == 'E',
        "Enter"@[1] == 'n',
        "Enter"@[2] == 't',
        "Enter"@[3] == 'e',
        "Enter"@[4] == 'r',
        "Space"@.len() == 5,
        "Space"@[0] == 'S',
        "Space"@[1] == 'p',
        "Space"@[2] == 'a',
        "Space"@[3] == 'c',
        "Space"@[4] == 'e',
        "Left"@.len() == 4,
        "Left"@[0] == 'L',
        "Left"@[1] == 'e',
        "Left"@[2] == 'f',
        "Left"@[3] == 't',
        "Right"@.len() == 5,
        "Right"@[0] == 'R',
        "Right"@[1] == 'i',
        "Right"@[2] == 'g',
        "Right"@[3] == 'h',
        "Right"@[4] == 't',
        "Up"@.len() == 2,
        "Up"@[0] == 'U',
        "Up"@[1] == 'p',
        "Down"@.len() == 4,
        "Down"@[0] == 'D',
        "Down"@[1] == 'o',
        "Down"@[2] == 'w',
        "Down"@[3] == 'n',
        "C-Left"@.len() == 6,
        "C-Left"@[0] == 'C',
        "C-Left"@[1] == '-',
        "C-Left"@[2] == 'L',
        "C-Left"@[3] == 'e',
        "C-Left"@[4] == 'f',
        "C-Left"@[5] == 't',
        "C-Right"@.len() == 7,
        "C-Right"@[0] == 'C',
        "C-Right"@[1] == '-',
        "C-Right"@[2] == 'R',
        "C-Right"@[3] == 'i',
        "C-Right"@[4] == 'g',
        "C-Right"@[5] == 'h',
        "C-Right"@[6] == 't',
        "S-Left"@.len() == 6,
        "S-Left"@[0] == 'S',
        "S-Left"@[1] == '-',
        "S-Left"@[2] == 'L',
        "S-Left"@[3] == 'e',
        "S-Left"@[4] == 'f',
        "S-Left"@[5] == 't',
        "S-Right"@.len() == 7,
        "S-Right"@[0] == 'S',
        "S-Right"@[1] == '-',
        "S-Right"@[2] == 'R',
        "S-Right"@[3] == 'i',
        "S-Right"@[4] == 'g',
        "S-Right"@[5] == 'h',
        "S-Right"@[6] == 't',
        "C-Up"@.len() == 4,
        "C-Up"@[0] == 'C',
        "C-Up"@[1] == '-',
        "C-Up"@[2] == 'U',
        "C-Up"@[3] == 'p',
        "C-Down"@.len() == 6,
        "C-Down"@[0] == 'C',
        "C-Down"@[1] == '-',
        "C-Down"@[2] == 'D',
        "C-Down"@[3] == 'o',
        "C-Down"@[4] == 'w',
        "C-Down"@[5] == 'n',
        "S-Up"@.len() == 4,
        "S-Up"@[0] == 'S',
        "S-Up"@[1] == '-',
        "S-Up"@[2] == 'U',
        "S-Up"@[3] == 'p',
        "S-Down"@.len() == 6,
        "S-Down"@[0] == 'S',
        "S-Down"@[1] == '-',
        "S-Down"@[2] == 'D',
        "S-Down"@[3] == 'o',
        "S-Down"@[4] == 'w',
        "S-Down"@[5] == 'n',
        "A-Left"@.len() == 6,
        "A-Left"@[0] == 'A',
        "A-Left"@[1] == '-',
        "A-Left"@[2] == 'L',
        "A-Left"@[3] == 'e',
        "A-Left"@[4] == 'f',
        "A-Left"@[5] == 't',
        "A-Right"@.len() == 7,
        "A-Right"@[0] == 'A',
        "A-Right"@[1] == '-',
        "A-Right"@[2] == 'R',
        "A-Right"@[3] == 'i',
        "A-Right"@[4] == 'g',
        "A-Right"@[5] == 'h',
        "A-Right"@[6] == 't',
        "A-Up"@.len() == 4,
        "A-Up"@[0] == 'A',
        "A-Up"@[1] == '-',
        "A-Up"@[2] == 'U',
        "A-Up"@[3] == 'p',
        "A-Down"@.len() == 6,
        "A-Down"@[0] == 'A',
        "A-Down"@[1] == '-',
        "A-Down"@[2] == 'D',
        "A-Down"@[3] == 'o',
        "A-Down"@[4] == 'w',
        "A-Down"@[5] == 'n',
        "F1"@.len() == 2,
        "F1"@[0] == 'F',
        "F1"@[1] == '1',
        "F2"@.len() == 2,
        "F2"@[0] == 'F',
        "F2"@[1] == '2',
        "F3"@.len() == 2,
        "F3"@[0] == 'F',
        "F3"@[1] == '3',
        "F4"@.len() == 2,
        "F4"@[0] == 'F',
        "F4"@[1] == '4',
        "F5"@.len() == 2,
        "F5"@[0] == 'F',
        "F5"@[1] == '5',
        "F6"@.len() == 2,
        "F6"@[0] == 'F',
        "F6"@[1] == '6',
        "F7"@.len() == 2,
        "F7"@[0] == 'F',
        "F7"@[1] == '7',
        "F8"@.len() == 2,
        "F8"@[0] == 'F',
        "F8"@[1] == '8',
        "F9"@.len() == 2,
        "F9"@[0] == 'F',
        "F9"@[1] == '9',
        "F10"@.len() == 3,
        "F10"@[0] == 'F',
        "F10"@[1] == '1',
        "F10"@[2] == '0',
        "F11"@.len() == 3,
        "F11"@[0] == 'F',
        "F11"@[1] == '1',
        "F11"@[2] == '1',
        "F12"@.len() == 3,
        "F12"@[0] == 'F',
        "F12"@[1] == '1',
        "F12"@[2] == '2',
        "Home"@.len() == 4,
        "Home"@[0] == 'H',
        "Home"@[1] == 'o',
        "Home"@[2] == 'm',
        "Home"@[3] == 'e',
        "End"@.len() == 3,
        "End"@[0] == 'E',
        "End"@[1] == 'n',
        "End"@[2] == 'd',
        "PageUp"@.len() == 6,
        "PageUp"@[0] == 'P',
        "PageUp"@[1] == 'a',
        "PageUp"@[2] == 'g',
        "PageUp"@[3] == 'e',
        "PageUp"@[4] == 'U',
        "PageUp"@[5] == 'p',
        "PageDown"@.len() == 8,
        "PageDown"@[0] == 'P',
        "PageDown"@[1] == 'a',
        "PageDown"@[2] == 'g',
        "PageDown"@[3] == 'e',
        "PageDown"@[4] == 'D',
        "PageDown"@[5] == 'o',
        "PageDown"@[6] == 'w',
        "PageDown"@[7] == 'n',
        "Insert"@.len() == 6,
        "Insert"@[0] == 'I',
        "Insert"@[1] == 'n',
        "Insert"@[2] == 's',
        "Insert"@[3] == 'e',
        "Insert"@[4] == 'r',
        "Insert"@[5] == 't',
        "Delete"@.len() == 6,
        "Delete"@[0] == 'D',
        "Delete"@[1] == 'e',
        "Delete"@[2] == 'l',
        "Delete"@[3] == 'e',
        "Delete"@[4] == 't',
        "Delete"@[5] == 'e',
        "Backspace"@.len() == 9,
        "Backspace"@[0] == 'B',
        "Backspace"@[1] == 'a',
        "Backspace"@[2] == 'c',
        "Backspace"@[3] == 'k',
        "Backspace"@[4] == 's',
        "Backspace"@[5] == 'p',
        "Backspace"@[6] == 'a',
        "Backspace"@[7] == 'c',
        "Backspace"@[8] == 'e',
        "git "@.len() == 4,
        "git "@[0] == 'g',
        "git "@[1] == 'i',
        "git "@[2] == 't',
        "git "@[3] == ' ',
        "echo "@.len() == 5,
        "echo "@[0] == 'e',
        "echo "@[1] == 'c',
        "echo "@[2] == 'h',
        "echo "@[3] == 'o',
        "echo "@[4] == ' ',
        "cd "@.len() == 3,
        "cd "@[0] == 'c',
        "cd "@[1] == 'd',
        "cd "@[2] == ' ',
        "http"@.len() == 4,
        "http"@[0] == 'h',
        "http"@[1] == 't',
        "http"@[2] == 't',
        "http"@[3] == 'p',
        "git "@.contains(' '),
        "echo "@.contains(' '),
        "cd "@.contains(' '),
        "http"@.contains('h'),
{
    reveal_strlit("C-@");
    reveal_strlit("C-Space");
    reveal_strlit("^@");
    reveal_strlit("C-[");
    reveal_strlit("Escape");
    reveal_strlit("^[");
    reveal_strlit("C-\\");
    reveal_strlit("^\\");
    reveal_strlit("C-]");
    reveal_strlit("^]");
    reveal_strlit("C-^");
    reveal_strlit("C-/");
    reveal_strlit("C--");
    reveal_strlit("C-_");
    reveal_strlit("Tab");
    reveal_strlit("Enter");
    reveal_strlit("Space");
    reveal_strlit("Left");
    reveal_strlit("Right");
    reveal_strlit("Up");
    reveal_strlit("Down");
    reveal_strlit("C-Left");
    reveal_strlit("C-Right");
    reveal_strlit("S-Left");
    reveal_strlit("S-Right");
    reveal_strlit("C-Up");
    reveal_strlit("C-Down");
    reveal_strlit("S-Up");
    reveal_strlit("S-Down");
    reveal_strlit("A-Left");
    reveal_strlit("A-Right");
    reveal_strlit("A-Up");
    reveal_strlit("A-Down");
    reveal_strlit("F1");
    reveal_strlit("F2");
    reveal_strlit("F3");
    reveal_strlit("F4");
    reveal_strlit("F5");
    reveal_strlit("F6");
    reveal_strlit("F7");
    reveal_strlit("F8");
    reveal_strlit("F9");
    reveal_strlit("F10");
    reveal_strlit("F11");
    reveal_strlit("F12");
    reveal_strlit("Home");
    reveal_strlit("End");
    reveal_strlit("PageUp");
    reveal_strlit("PageDown");
    reveal_strlit("Insert");
    reveal_strlit("Delete");
    reveal_strlit("Backspace");
    reveal_strlit("git ");
    reveal_strlit("echo ");
    reveal_strlit("cd ");
    reveal_strlit("http");
    assert("git "@.contains(' ')) by { assert("git "@[3] == ' '); }
    assert("echo "@.contains(' ')) by { assert("echo "@[4] == ' '); }
    assert("cd "@.contains(' ')) by { assert("cd "@[2] == ' '); }
    assert("http"@.contains('h')) by { assert("http"@[0] == 'h'); }
}

/// Law: the control-character rows of the named-key table classify as
/// special keys and encode to their documented byte sequences. The four
/// bracket rows, which the ordered text guards classify as literal text,
/// still encode to their documented bytes.
#[verifier::rlimit(100)]
pub proof fn lemma_control_table_keys()
    ensures
        spec_parse_key("C-["@) == KeyView::Standard("\x1b"@),
        spec_parse_key("^["@) == KeyView::Standard("\x1b"@),
        spec_parse_key("C-]"@) == KeyView::Standard("\x1d"@),
        spec_parse_key("^]"@) == KeyView::Standard("\x1d"@),
        spec_is_special_key("C-@"@),
        spec_parse_key("C-@"@) == KeyView::Standard("\x00"@),
        spec_is_special_key("C-Space"@),
        spec_parse_key("C-Space"@) == KeyView::Standard("\x00"@),
        spec_is_special_key("^@"@),
        spec_parse_key("^@"@) == KeyView::Standard("\x00"@),
        spec_is_special_key("C-\\"@),
        spec_parse_key("C-\\"@) == KeyView::Standard("\x1c"@),
        spec_is_special_key("^\\"@),
        spec_parse_key("^\\"@) == KeyView::Standard("\x1c"@),
        spec_is_special_key("C-^"@),
        spec_parse_key("C-^"@) == KeyView::Standard("\x1e"@),
        spec_is_special_key("C-/"@),
        spec_parse_key("C-/"@) == KeyView::Standard("\x1e"@),
        spec_is_special_key("C--"@),
        spec_parse_key("C--"@) == KeyView::Standard("\x1f"@),
        spec_is_special_key("C-_"@),
        spec_parse_key("C-_"@) == KeyView::Standard("\x1f"@),
{
    table_facts();
    reveal_with_fuel(count_char, 20);
    assert(spec_parse_key("C-["@) == KeyView::Standard("\x1b"@));
    assert(spec_parse_key("^["@) == KeyView::Standard("\x1b"@));
    assert(spec_parse_key("C-]"@) == KeyView::Standard("\x1d"@));
    assert(spec_parse_key("^]"@) == KeyView::Standard("\x1d"@));
    lemma_no_sub_by_char("C-@"@, "git "@, ' ');
    lemma_no_sub_by_char("C-@"@, "echo "@, ' ');
    lemma_no_sub_by_char("C-@"@, "cd "@, ' ');
    lemma_no_sub_by_char("C-@"@, "http"@, 'h');
    assert(spec_is_special_key("C-@"@));
    assert(spec_parse_key("C-@"@) == KeyView::Standard("\x00"@));
    lemma_no_sub_by_char("C-Space"@, "git "@, ' ');
    lemma_no_sub_by_char("C-Space"@, "echo "@, ' ');
    lemma_no_sub_by_char("C-Space"@, "cd "@, ' ');
    lemma_no_sub_by_char("C-Space"@, "http"@, 'h');
    assert(spec_is_special_key("C-Space"@));
    assert(spec_parse_key("C-Space"@) == KeyView::Standard("\x00"@));
    lemma_no_sub_by_char("^@"@, "git "@, ' ');
    lemma_no_sub_by_char("^@"@, "echo "@, ' ');
    lemma_no_sub_by_char("^@"@, "cd "@, ' ');
    lemma_no_sub_by_char("^@"@, "http"@, 'h');
    assert(spec_is_special_key("^@"@));
    assert(spec_parse_key("^@"@) == KeyView::Standard("\x00"@));
    lemma_no_sub_by_char("C-\\"@, "git "@, ' ');
    lemma_no_sub_by_char("C-\\"@, "echo "@, ' ');
    lemma_no_sub_by_char("C-\\"@, "cd "@, ' ');
    lemma_no_sub_by_char("C-\\"@, "http"@, 'h');
    assert(spec_is_special_key("C-\\"@));
    assert(spec_parse_key("C-\\"@) == KeyView::Standard("\x1c"@));
    lemma_no_sub_by_char("^\\"@, "git "@, ' ');
    lemma_no_sub_by_char("^\\"@, "echo "@, ' ');
    lemma_no_sub_by_char("^\\"@, "cd "@, ' ');
    lemma_no_sub_by_char("^\\"@, "http"@, 'h');
    assert(spec_is_special_key("^\\"@));
    assert(spec_parse_key("^\\"@) == KeyView::Standard("\x1c"@));
    lemma_no_sub_by_char("C-^"@, "git "@, ' ');
    lemma_no_sub_by_char("C-^"@, "echo "@, ' ');
    lemma_no_sub_by_char("C-^"@, "cd "@, ' ');
    lemma_no_sub_by_char("C-^"@, "http"@, 'h');
    assert(spec_is_special_key("C-^"@));
    assert(spec_parse_key("C-^"@) == KeyView::Standard("\x1e"@));
    lemma_no_sub_by_char("C-/"@, "git "@, ' ');
    lemma_no_sub_by_char("C-/"@, "echo "@, ' ');
    lemma_no_sub_by_char("C-/"@, "cd "@, ' ');
    lemma_no_sub_by_char("C-/"@, "http"@, 'h');
    assert(spec_is_special_key("C-/"@));
    assert(spec_parse_key("C-/"@) == KeyView::Standard("\x1e"@));
    lemma_no_sub_by_char("C--"@, "git "@, ' ');
    lemma_no_sub_by_char("C--"@, "echo "@, ' ');
    lemma_no_sub_by_char("C--"@, "cd "@, ' ');
    lemma_no_sub_by_char("C--"@, "http"@, 'h');
    assert(spec_is_special_key("C--"@));
    assert(spec_parse_key("C--"@) == KeyView::Standard("\x1f"@));
    lemma_no_sub_by_char("C-_"@, "git "@, ' ');
    lemma_no_sub_by_char("C-_"@, "echo "@, ' ');
    lemma_no_sub_by_char("C-_"@, "cd "@, ' ');
    lemma_no_sub_by_char("C-_"@, "http"@, 'h');
    assert(spec_is_special_key("C-_"@));
    assert(spec_parse_key("C-_"@) == KeyView::Standard("\x1f"@));
}

/// Law: the basic named keys classify as special keys and encode to their
/// documented byte sequences.
#[verifier::rlimit(100)]
pub proof fn lemma_basic_keys()
    ensures
        spec_is_special_key("Enter"@),
        spec_parse_key("Enter"@) == KeyView::Standard("\x0d"@),
        spec_is_special_key("Tab"@),
        spec_parse_key("Tab"@) == KeyView::Standard("\x09"@),
        spec_is_special_key("Space"@),
        spec_parse_key("Space"@) == KeyView::Standard(" "@),
        spec_is_special_key("Escape"@),
        spec_parse_key("Escape"@) == KeyView::Standard("\x1b"@),
        spec_is_special_key("Backspace"@),
        spec_parse_key("Backspace"@) == KeyView::Standard("\x7f"@),
        spec_is_special_key("Delete"@),
        spec_parse_key("Delete"@) == KeyView::Standard("\x1b[3~"@),
        spec_is_special_key("Insert"@),
        spec_parse_key("Insert"@) == KeyView::Standard("\x1b[2~"@),
        spec_is_special_key("PageUp"@),
        spec_parse_key("PageUp"@) == KeyView::Standard("\x1b[5~"@),
        spec_is_special_key("PageDown"@),
        spec_parse_key("PageDown"@) == KeyView::Standard("\x1b[6~"@),
{
    table_facts();
    reveal_with_fuel(count_char, 20);
    lemma_no_sub_by_char("Enter"@, "git "@, ' ');
    lemma_no_sub_by_char("Enter"@, "echo "@, ' ');
    lemma_no_sub_by_char("Enter"@, "cd "@, ' ');
    lemma_no_sub_by_char("Enter"@, "http"@, 'h');
    assert(spec_is_special_key("Enter"@));
    assert(spec_parse_key("Enter"@) == KeyView::Standard("\x0d"@));
    lemma_no_sub_by_char("Tab"@, "git "@, ' ');
    lemma_no_sub_by_char("Tab"@, "echo "@, ' ');
    lemma_no_sub_by_char("Tab"@, "cd "@, ' ');
    lemma_no_sub_by_char("Tab"@, "http"@, 'h');
    assert(spec_is_special_key("Tab"@));
    assert(spec_parse_key("Tab"@) == KeyView::Standard("\x09"@));
    lemma_no_sub_by_char("Space"@, "git "@, ' ');
    lemma_no_sub_by_char("Space"@, "echo "@, ' ');
    lemma_no_sub_by_char("Space"@, "cd "@, ' ');
    lemma_no_sub_by_char("Space"@, "http"@, 'h');
    assert(spec_is_special_key("Space"@));
    assert(spec_parse_key("Space"@) == KeyView::Standard(" "@));
    lemma_no_sub_by_char("Escape"@, "git "@, ' ');
    lemma_no_sub_by_char("Escape"@, "echo "@, ' ');
    lemma_no_sub_by_char("Escape"@, "cd "@, ' ');
    lemma_no_sub_by_char("Escape"@, "http"@, 'h');
    assert(spec_is_special_key("Escape"@));
    assert(spec_parse_key("Escape"@) == KeyView::Standard("\x1b"@));
    lemma_no_sub_by_char("Backspace"@, "git "@, ' ');
    lemma_no_sub_by_char("Backspace"@, "echo "@, ' ');
    lemma_no_sub_by_char("Backspace"@, "cd "@, ' ');
    lemma_no_sub_by_char("Backspace"@, "http"@, 'h');
    assert(spec_is_special_key("Backspace"@));
    assert(spec_parse_key("Backspace"@) == KeyView::Standard("\x7f"@));
    lemma_no_sub_by_char("Delete"@, "git "@, ' ');
    lemma_no_sub_by_char("Delete"@, "echo "@, ' ');
    lemma_no_sub_by_char("Delete"@, "cd "@, ' ');
    lemma_no_sub_by_char("Delete"@, "http"@, 'h');
    assert(spec_is_special_key("Delete"@));
    assert(spec_parse_key("Delete"@) == KeyView::Standard("\x1b[3~"@));
    lemma_no_sub_by_char("Insert"@, "git "@, ' ');
    lemma_no_sub_by_char("Insert"@, "echo "@, ' ');
    lemma_no_sub_by_char("Insert"@, "cd "@, ' ');
    lemma_no_sub_by_char("Insert"@, "http"@, 'h');
    assert(spec_is_special_key("Insert"@));
    assert(spec_parse_key("Insert"@) == KeyView::Standard("\x1b[2~"@));
    lemma_no_sub_by_char("PageUp"@, "git "@, ' ');
    lemma_no_sub_by_char("PageUp"@, "echo "@, ' ');
    lemma_no_sub_by_char("PageUp"@, "cd "@, ' ');
    lemma_no_sub_by_char("PageUp"@, "http"@, 'h');
    assert(spec_is_special_key("PageUp"@));
    assert(spec_parse_key("PageUp"@) == KeyView::Standard("\x1b[5~"@));
    lemma_no_sub_by_char("PageDown"@, "git "@, ' ');
    lemma_no_sub_by_char("PageDown"@, "echo "@, ' ');
    lemma_no_sub_by_char("PageDown"@, "cd "@, ' ');
    lemma_no_sub_by_char("PageDown"@, "http"@, 'h');
    assert(spec_is_special_key("PageDown"@));
    assert(spec_parse_key("PageDown"@) == KeyView::Standard("\x1b[6~"@));
}

/// Law: the cursor-mode-dependent keys classify as special keys and encode to their
/// documented byte sequences.
#[verifier::rlimit(100)]
pub proof fn lemma_cursor_keys()
    ensures
        spec_is_special_key("Left"@),
        spec_parse_key("Left"@) == KeyView::Cursor("\x1b[D"@, "\x1bOD"@),
        spec_is_special_key("Right"@),
        spec_parse_key("Right"@) == KeyView::Cursor("\x1b[C"@, "\x1bOC"@),
        spec_is_special_key("Up"@),
        spec_parse_key("Up"@) == KeyView::Cursor("\x1b[A"@, "\x1bOA"@),
        spec_is_special_key("Down"@),
        spec_parse_key("Down"@) == KeyView::Cursor("\x1b[B"@, "\x1bOB"@),
        spec_is_special_key("Home"@),
        spec_parse_key("Home"@) == KeyView::Cursor("\x1b[H"@, "\x1bOH"@),
        spec_is_special_key("End"@),
        spec_parse_key("End"@) == KeyView::Cursor("\x1b[F"@, "\x1bOF"@),
{
    table_facts();
    reveal_with_fuel(count_char, 20);
    lemma_no_sub_by_char("Left"@, "git "@, ' ');
    lemma_no_sub_by_char("Left"@, "echo "@, ' ');
    lemma_no_sub_by_char("Left"@, "cd "@, ' ');
    lemma_no_sub_by_char("Left"@, "http"@, 'h');
    assert(spec_is_special_key("Left"@));
    assert(spec_parse_key("Left"@) == KeyView::Cursor("\x1b[D"@, "\x1bOD"@));
    lemma_no_sub_by_char("Right"@, "git "@, ' ');
    lemma_no_sub_by_char("Right"@, "echo "@, ' ');
    lemma_no_sub_by_char("Right"@, "cd "@, ' ');
    lemma_no_sub_by_start("Right"@, "http"@);
    assert(spec_is_special_key("Right"@));
    assert(spec_parse_key("Right"@) == KeyView::Cursor("\x1b[C"@, "\x1bOC"@));
    lemma_no_sub_by_char("Up"@, "git "@, ' ');
    lemma_no_sub_by_char("Up"@, "echo "@, ' ');
    lemma_no_sub_by_char("Up"@, "cd "@, ' ');
    lemma_no_sub_by_char("Up"@, "http"@, 'h');
    assert(spec_is_special_key("Up"@));
    assert(spec_parse_key("Up"@) == KeyView::Cursor("\x1b[A"@, "\x1bOA"@));
    lemma_no_sub_by_char("Down"@, "git "@, ' ');
    lemma_no_sub_by_char("Down"@, "echo "@, ' ');
    lemma_no_sub_by_char("Down"@, "cd "@, ' ');
    lemma_no_sub_by_char("Down"@, "http"@, 'h');
    assert(spec_is_special_key("Down"@));
    assert(spec_parse_key("Down"@) == KeyView::Cursor("\x1b[B"@, "\x1bOB"@));
    lemma_no_sub_by_char("Home"@, "git "@, ' ');
    lemma_no_sub_by_char("Home"@, "echo "@, ' ');
    lemma_no_sub_by_char("Home"@, "cd "@, ' ');
    lemma_no_sub_by_char("Home"@, "http"@, 'h');
    assert(spec_is_special_key("Home"@));
    assert(spec_parse_key("Home"@) == KeyView::Cursor("\x1b[H"@, "\x1bOH"@));
    lemma_no_sub_by_char("End"@, "git "@, ' ');
    lemma_no_sub_by_char("End"@, "echo "@, ' ');
    lemma_no_sub_by_char("End"@, "cd "@, ' ');
    lemma_no_sub_by_char("End"@, "http"@, 'h');
    assert(spec_is_special_key("End"@));
    assert(spec_parse_key("End"@) == KeyView::Cursor("\x1b[F"@, "\x1bOF"@));
}

/// Law: the function keys classify as special keys and encode to their
/// documented byte sequences.
#[verifier::rlimit(100)]
pub proof fn lemma_function_keys()
    ensures
        spec_is_special_key("F1"@),
        spec_parse_key("F1"@) == KeyView::Standard("\x1bOP"@),
        spec_is_special_key("F2"@),
        spec_parse_key("F2"@) == KeyView::Standard("\x1bOQ"@),
        spec_is_special_key("F3"@),
        spec_parse_key("F3"@) == KeyView::Standard("\x1bOR"@),
        spec_is_special_key("F4"@),
        spec_parse_key("F4"@) == KeyView::Standard("\x1bOS"@),
        spec_is_special_key("F5"@),
        spec_parse_key("F5"@) == KeyView::Standard("\x1b[15~"@),
        spec_is_special_key("F6"@),
        spec_parse_key("F6"@) == KeyView::Standard("\x1b[17~"@),
        spec_is_special_key("F7"@),
        spec_parse_key("F7"@) == KeyView::Standard("\x1b[18~"@),
        spec_is_special_key("F8"@),
        spec_parse_key("F8"@) == KeyView::Standard("\x1b[19~"@),
        spec_is_special_key("F9"@),
        spec_parse_key("F9"@) == KeyView::Standard("\x1b[20~"@),
        spec_is_special_key("F10"@),
        spec_parse_key("F10"@) == KeyView::Standard("\x1b[21~"@),
        spec_is_special_key("F11"@),
        spec_parse_key("F11"@) == KeyView::Standard("\x1b[23~"@),
        spec_is_special_key("F12"@),
        spec_parse_key("F12"@) == KeyView::Standard("\x1b[24~"@),
{
    table_facts();
    reveal_with_fuel(count_char, 20);
    lemma_no_sub_by_char("F1"@, "git "@, ' ');
    lemma_no_sub_by_char("F1"@, "echo "@, ' ');
    lemma_no_sub_by_char("F1"@, "cd "@, ' ');
    lemma_no_sub_by_char("F1"@, "http"@, 'h');
    assert(spec_is_special_key("F1"@));
    assert(spec_parse_key("F1"@) == KeyView::Standard("\x1bOP"@));
    lemma_no_sub_by_char("F2"@, "git "@, ' ');
    lemma_no_sub_by_char("F2"@, "echo "@, ' ');
    lemma_no_sub_by_char("F2"@, "cd "@, ' ');
    lemma_no_sub_by_char("F2"@, "http"@, 'h');
    assert(spec_is_special_key("F2"@));
    assert(spec_parse_key("F2"@) == KeyView::Standard("\x1bOQ"@));
    lemma_no_sub_by_char("F3"@, "git "@, ' ');
    lemma_no_sub_by_char("F3"@, "echo "@, ' ');
    lemma_no_sub_by_char("F3"@, "cd "@, ' ');
    lemma_no_sub_by_char("F3"@, "http"@, 'h');
    assert(spec_is_special_key("F3"@));
    assert(spec_parse_key("F3"@) == KeyView::Standard("\x1bOR"@));
    lemma_no_sub_by_char("F4"@, "git "@, ' ');
    lemma_no_sub_by_char("F4"@, "echo "@, ' ');
    lemma_no_sub_by_char("F4"@, "cd "@, ' ');
    lemma_no_sub_by_char("F4"@, "http"@, 'h');
    assert(spec_is_special_key("F4"@));
    assert(spec_parse_key("F4"@) == KeyView::Standard("\x1bOS"@));
    lemma_no_sub_by_char("F5"@, "git "@, ' ');
    lemma_no_sub_by_char("F5"@, "echo "@, ' ');
    lemma_no_sub_by_char("F5"@, "cd "@, ' ');
    lemma_no_sub_by_char("F5"@, "http"@, 'h');
    assert(spec_is_special_key("F5"@));
    assert(spec_parse_key("F5"@) == KeyView::Standard("\x1b[15~"@));
    lemma_no_sub_by_char("F6"@, "git "@, ' ');
    lemma_no_sub_by_char("F6"@, "echo "@, ' ');
    lemma_no_sub_by_char("F6"@, "cd "@, ' ');
    lemma_no_sub_by_char("F6"@, "http"@, 'h');
    assert(spec_is_special_key("F6"@));
    assert(spec_parse_key("F6"@) == KeyView::Standard("\x1b[17~"@));
    lemma_no_sub_by_char("F7"@, "git "@, ' ');
    lemma_no_sub_by_char("F7"@, "echo "@, ' ');
    lemma_no_sub_by_char("F7"@, "cd "@, ' ');
    lemma_no_sub_by_char("F7"@, "http"@, 'h');
    assert(spec_is_special_key("F7"@));
    assert(spec_parse_key("F7"@) == KeyView::Standard("\x1b[18~"@));
    lemma_no_sub_by_char("F8"@, "git "@, ' ');
    lemma_no_sub_by_char("F8"@, "echo "@, ' ');
    lemma_no_sub_by_char("F8"@, "cd "@, ' ');
    lemma_no_sub_by_char("F8"@, "http"@, 'h');
    assert(spec_is_special_key("F8"@));
    assert(spec_parse_key("F8"@) == KeyView::Standard("\x1b[19~"@));
    lemma_no_sub_by_char("F9"@, "git "@, ' ');
    lemma_no_sub_by_char("F9"@, "echo "@, ' ');
    lemma_no_sub_by_char("F9"@, "cd "@, ' ');
    lemma_no_sub_by_char("F9"@, "http"@, 'h');
    assert(spec_is_special_key("F9"@));
    assert(spec_parse_key("F9"@) == KeyView::Standard("\x1b[20~"@));
    lemma_no_sub_by_char("F10"@, "git "@, ' ');
    lemma_no_sub_by_char("F10"@, "echo "@, ' ');
    lemma_no_sub_by_char("F10"@, "cd "@, ' ');
    lemma_no_sub_by_char("F10"@, "http"@, 'h');
    assert(spec_is_special_key("F10"@));
    assert(spec_parse_key("F10"@) == KeyView::Standard("\x1b[21~"@));
    lemma_no_sub_by_char("F11"@, "git "@, ' ');
    lemma_no_sub_by_char("F11"@, "echo "@, ' ');
    lemma_no_sub_by_char("F11"@, "cd "@, ' ');
    lemma_no_sub_by_char("F11"@, "http"@, 'h');
    assert(spec_is_special_key("F11"@));
    assert(spec_parse_key("F11"@) == KeyView::Standard("\x1b[23~"@));
    lemma_no_sub_by_char("F12"@, "git "@, ' ');
    lemma_no_sub_by_char("F12"@, "echo "@, ' ');
    lemma_no_sub_by_char("F12"@, "cd "@, ' ');
    lemma_no_sub_by_char("F12"@, "http"@, 'h');
    assert(spec_is_special_key("F12"@));
    assert(spec_parse_key("F12"@) == KeyView::Standard("\x1b[24~"@));
}

/// Law: the modified arrow keys classify as special keys and encode to their
/// documented byte sequences.
#[verifier::rlimit(100)]
pub proof fn lemma_modified_arrow_keys()
    ensures
        spec_is_special_key("C-Left"@),
        spec_parse_key("C-Left"@) == KeyView::Standard("\x1b[1;5D"@),
        spec_is_special_key("C-Right"@),
        spec_parse_key("C-Right"@) == KeyView::Standard("\x1b[1;5C"@),
        spec_is_special_key("C-Up"@),
        spec_parse_key("C-Up"@) == KeyView::Standard("\x1b[1;5A"@),
        spec_is_special_key("C-Down"@),
        spec_parse_key("C-Down"@) == KeyView::Standard("\x1b[1;5B"@),
        spec_is_special_key("S-Left"@),
        spec_parse_key("S-Left"@) == KeyView::Standard("\x1b[1;2D"@),
        spec_is_special_key("S-Right"@),
        spec_parse_key("S-Right"@) == KeyView::Standard("\x1b[1;2C"@),
        spec_is_special_key("S-Up"@),
        spec_parse_key("S-Up"@) == KeyView::Standard("\x1b[1;2A"@),
        spec_is_special_key("S-Down"@),
        spec_parse_key("S-Down"@) == KeyView::Standard("\x1b[1;2B"@),
        spec_is_special_key("A-Left"@),
        spec_parse_key("A-Left"@) == KeyView::Standard("\x1b[1;3D"@),
        spec_is_special_key("A-Right"@),
        spec_parse_key("A-Right"@) == KeyView::Standard("\x1b[1;3C"@),
        spec_is_special_key("A-Up"@),
        spec_parse_key("A-Up"@) == KeyView::Standard("\x1b[1;3A"@),
        spec_is_special_key("A-Down"@),
        spec_parse_key("A-Down"@) == KeyView::Standard("\x1b[1;3B"@),
{
    table_facts();
    reveal_with_fuel(count_char, 20);
    lemma_no_sub_by_char("C-Left"@, "git "@, ' ');
    lemma_no_sub_by_char("C-Left"@, "echo "@, ' ');
    lemma_no_sub_by_char("C-Left"@, "cd "@, ' ');
    lemma_no_sub_by_char("C-Left"@, "http"@, 'h');
    assert(spec_is_special_key("C-Left"@));
    assert(spec_parse_key("C-Left"@) == KeyView::Standard("\x1b[1;5D"@));
    lemma_no_sub_by_char("C-Right"@, "git "@, ' ');
    lemma_no_sub_by_char("C-Right"@, "echo "@, ' ');
    lemma_no_sub_by_char("C-Right"@, "cd "@, ' ');
    lemma_no_sub_by_start("C-Right"@, "http"@);
    assert(spec_is_special_key("C-Right"@));
    assert(spec_parse_key("C-Right"@) == KeyView::Standard("\x1b[1;5C"@));
    lemma_no_sub_by_char("C-Up"@, "git "@, ' ');
    lemma_no_sub_by_char("C-Up"@, "echo "@, ' ');
    lemma_no_sub_by_char("C-Up"@, "cd "@, ' ');
    lemma_no_sub_by_char("C-Up"@, "http"@, 'h');
    assert(spec_is_special_key("C-Up"@));
    assert(spec_parse_key("C-Up"@) == KeyView::Standard("\x1b[1;5A"@));
    lemma_no_sub_by_char("C-Down"@, "git "@, ' ');
    lemma_no_sub_by_char("C-Down"@, "echo "@, ' ');
    lemma_no_sub_by_char("C-Down"@, "cd "@, ' ');
    lemma_no_sub_by_char("C-Down"@, "http"@, 'h');
    assert(spec_is_special_key("C-Down"@));
    assert(spec_parse_key("C-Down"@) == KeyView::Standard("\x1b[1;5B"@));
    lemma_no_sub_by_char("S-Left"@, "git "@, ' ');
    lemma_no_sub_by_char("S-Left"@, "echo "@, ' ');
    lemma_no_sub_by_char("S-Left"@, "cd "@, ' ');
    lemma_no_sub_by_char("S-Left"@, "http"@, 'h');
    assert(spec_is_special_key("S-Left"@));
    assert(spec_parse_key("S-Left"@) == KeyView::Standard("\x1b[1;2D"@));
    lemma_no_sub_by_char("S-Right"@, "git "@, ' ');
    lemma_no_sub_by_char("S-Right"@, "echo "@, ' ');
    lemma_no_sub_by_char("S-Right"@, "cd "@, ' ');
    lemma_no_sub_by_start("S-Right"@, "http"@);
    assert(spec_is_special_key("S-Right"@));
    assert(spec_parse_key("S-Right"@) == KeyView::Standard("\x1b[1;2C"@));
    lemma_no_sub_by_char("S-Up"@, "git "@, ' ');
    lemma_no_sub_by_char("S-Up"@, "echo "@, ' ');
    lemma_no_sub_by_char("S-Up"@, "cd "@, ' ');
    lemma_no_sub_by_char("S-Up"@, "http"@, 'h');
    assert(spec_is_special_key("S-Up"@));
    assert(spec_parse_key("S-Up"@) == KeyView::Standard("\x1b[1;2A"@));
    lemma_no_sub_by_char("S-Down"@, "git "@, ' ');
    lemma_no_sub_by_char("S-Down"@, "echo "@, ' ');
    lemma_no_sub_by_char("S-Down"@, "cd "@, ' ');
    lemma_no_sub_by_char("S-Down"@, "http"@, 'h');
    assert(spec_is_special_key("S-Down"@));
    assert(spec_parse_key("S-Down"@) == KeyView::Standard("\x1b[1;2B"@));
    lemma_no_sub_by_char("A-Left"@, "git "@, ' ');
    lemma_no_sub_by_char("A-Left"@, "echo "@, ' ');
    lemma_no_sub_by_char("A-Left"@, "cd "@, ' ');
    lemma_no_sub_by_char("A-Left"@, "http"@, 'h');
    assert(spec_is_special_key("A-Left"@));
    assert(spec_parse_key("A-Left"@) == KeyView::Standard("\x1b[1;3D"@));
    lemma_no_sub_by_char("A-Right"@, "git "@, ' ');
    lemma_no_sub_by_char("A-Right"@, "echo "@, ' ');
    lemma_no_sub_by_char("A-Right"@, "cd "@, ' ');
    lemma_no_sub_by_start("A-Right"@, "http"@);
    assert(spec_is_special_key("A-Right"@));
    assert(spec_parse_key("A-Right"@) == KeyView::Standard("\x1b[1;3C"@));
    lemma_no_sub_by_char("A-Up"@, "git "@, ' ');
    lemma_no_sub_by_char("A-Up"@, "echo "@, ' ');
    lemma_no_sub_by_char("A-Up"@, "cd "@, ' ');
    lemma_no_sub_by_char("A-Up"@, "http"@, 'h');
    assert(spec_is_special_key("A-Up"@));
    assert(spec_parse_key("A-Up"@) == KeyView::Standard("\x1b[1;3A"@));
    lemma_no_sub_by_char("A-Down"@, "git "@, ' ');
    lemma_no_sub_by_char("A-Down"@, "echo "@, ' ');
    lemma_no_sub_by_char("A-Down"@, "cd "@, ' ');
    lemma_no_sub_by_char("A-Down"@, "http"@, 'h');
    assert(spec_is_special_key("A-Down"@));
    assert(spec_parse_key("A-Down"@) == KeyView::Standard("\x1b[1;3B"@));
}


/// Law: any literal-text guard — an empty string, more than fifteen
/// characters, a quote character, a shell-command fragment, more than one
/// space, any space in a string that is not a space key name, "http", or
/// bracket characters — classifies the string as literal text, and smart
/// parsing passes the original string through unchanged.
pub proof fn lemma_literal_text_passthrough(s: Seq<char>)
    requires
        s.len() == 0 || s.len() > 15 || s.contains('"') || s.contains('\'') || has_sub(
            s,
            "git "@,
        ) || has_sub(s, "echo "@) || has_sub(s, "cd "@) || count_char(s, ' ') > 1 || (
        s.contains(' ') && !(s == "C-Space"@ || s == "Space"@)) || has_sub(s, "http"@)
            || s.contains('[') || s.contains(']') || s.contains('<') || s.contains('>'),
    ensures
        !spec_is_special_key(s),
        spec_smart_parse_key(s) == KeyView::Standard(s),
{
}

/// Law: the control-character spellings are equivalent. For any letter,
/// `^x` and `C-x` classify as special keys and encode to the same single
/// control character, and the letter's case does not matter: the encoding
/// is the case-folded letter's alphabet position.
#[verifier::rlimit(100)]
pub proof fn lemma_ctrl_equivalence(c: char)
    requires
        is_letter(c),
    ensures
        spec_is_special_key(seq!['^', c]),
        spec_is_special_key(seq!['C', '-', c]),
        spec_parse_key(seq!['^', c]) == KeyView::Standard(seq![ctrl_of(fold_lower(c))]),
        spec_parse_key(seq!['C', '-', c]) == spec_parse_key(seq!['^', c]),
        spec_parse_key(seq!['^', fold_lower(c)]) == spec_parse_key(seq!['^', c]),
{
    table_facts();
    reveal_strlit("^");
    reveal_strlit("C-");
    let s2 = seq!['^', c];
    let s3 = seq!['C', '-', c];
    let f = fold_lower(c);
    assert(is_lower_letter(f));
    let s4 = seq!['^', f];
    assert(s2.len() == 2 && s2[0] == '^' && s2[1] == c);
    assert(s3.len() == 3 && s3[0] == 'C' && s3[1] == '-' && s3[2] == c);
    assert(s4.len() == 2 && s4[0] == '^' && s4[1] == f);
    lemma_count_zero(s2, ' ');
    lemma_count_zero(s3, ' ');
    lemma_count_zero(s4, ' ');
    lemma_no_sub_by_char(s3, "cd "@, ' ');
    assert(has_prefix(s2, "^"@)) by {
        assert(s2.subrange(0, 1) =~= "^"@);
    }
    assert(has_prefix(s4, "^"@)) by {
        assert(s4.subrange(0, 1) =~= "^"@);
    }
    assert(has_prefix(s3, "C-"@)) by {
        assert(s3.subrange(0, 2) =~= "C-"@);
    }
    assert(spec_ctrl_form(s2) && spec_ctrl_form(s3) && spec_ctrl_form(s4));
    assert(spec_is_special_key(s2));
    assert(spec_is_special_key(s3));
    assert(fold_lower(f) == f);
    assert(ctrl_of(fold_lower(f)) == ctrl_of(fold_lower(c)));
    assert(spec_parse_key(s2) == KeyView::Standard(seq![ctrl_of(fold_lower(c))]));
    assert(spec_parse_key(s3) == KeyView::Standard(seq![ctrl_of(fold_lower(c))]));
    assert(spec_parse_key(s4) == KeyView::Standard(seq![ctrl_of(fold_lower(f))]));
}

} // verus!

