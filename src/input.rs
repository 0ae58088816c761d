use vstd::prelude::*;

verus! {

/// A key event delivered by the input driver.
#[derive(Clone, Copy, Debug, PartialEq, Eq, Structural)]
pub enum KeyCode {
    Char(char),
    Up,
    Down,
    Left,
    Right,
    Enter,
    Esc,
    Backspace,
    Tab,
    BackTab,
    /// Any key that no binding of this library reads.
    Other,
}

/// Relies on String::push: the character is appended at the end.
pub assume_specification[ String::push ](s: &mut String, ch: char)
    ensures
        final(s)@ == old(s)@.push(ch),
;

/// Relies on String::pop: the last character is removed and returned, and an
/// empty string is left as it is.
pub assume_specification[ String::pop ](s: &mut String) -> (r: Option<char>)
    ensures
        old(s)@.len() == 0 ==> r is None && final(s)@ == old(s)@,
        old(s)@.len() > 0 ==> r == Some(old(s)@.last()) && final(s)@ == old(s)@.drop_last(),
;

/// A draft buffer after a key that edits it: a character is appended,
/// Backspace drops the last character, and any other key leaves it unchanged.
pub open spec fn edited_buffer(buf: Seq<char>, key: KeyCode) -> Seq<char> {
    match key {
        KeyCode::Char(c) => buf.push(c),
        KeyCode::Backspace => if buf.len() == 0 { buf } else { buf.drop_last() },
        _ => buf,
    }
}

/// Keys that a feature handles while browsing its list.
pub open spec fn browse_consumes(key: KeyCode) -> bool {
    match key {
        KeyCode::Up | KeyCode::Down | KeyCode::Enter => true,
        KeyCode::Char(c) => c == 'd' || c == 'n',
        _ => false,
    }
}

/// Whether a feature's create popup is open after `key`: Escape and Enter
/// close an open popup, and 'n' opens it while browsing.
pub open spec fn popup_open_after(open: bool, key: KeyCode) -> bool {
    if open {
        !(key is Esc || key is Enter)
    } else {
        key == KeyCode::Char('n')
    }
}

} // verus!
