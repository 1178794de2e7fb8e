//! The key-combination grammar: tokens joined by `+`, all but the last a modifier.
use vstd::prelude::*;

use crate::outside::{lower_of, lowercase};
use crate::text::same_text;

verus! {

/// A key the device can press or release.
#[derive(Debug, Clone, Copy, PartialEq, Eq, Structural)]
pub enum Key {
    Escape,
    Return,
    Tab,
    Space,
    Backspace,
    UpArrow,
    DownArrow,
    LeftArrow,
    RightArrow,
    Delete,
    Insert,
    Home,
    End,
    PageUp,
    PageDown,
    PrintScr,
    Pause,
    Numlock,
    CapsLock,
    Control,
    Alt,
    Shift,
    Meta,
    F1,
    F2,
    F3,
    F4,
    F5,
    F6,
    F7,
    F8,
    F9,
    F10,
    F11,
    F12,
    Unicode(char),
}

/// A parsed combination: modifiers in the order written, then the main key.
#[derive(Debug)]
pub struct KeyPress {
    pub modifiers: Vec<Key>,
    pub key: Key,
}

/// The modifier a lowercased token names, if any.
pub open spec fn modifier_of(w: Seq<char>) -> Option<Key> {
    if w == "ctrl"@ {
        Some(Key::Control)
    } else if w == "control"@ {
        Some(Key::Control)
    } else if w == "alt"@ {
        Some(Key::Alt)
    } else if w == "shift"@ {
        Some(Key::Shift)
    } else if w == "super"@ {
        Some(Key::Meta)
    } else if w == "win"@ {
        Some(Key::Meta)
    } else if w == "windows"@ {
        Some(Key::Meta)
    } else if w == "command"@ {
        Some(Key::Meta)
    } else {
        None
    }
}

/// The named key (special, modifier, function or keypad key) a lowercased token names.
pub open spec fn named_key_of(w: Seq<char>) -> Option<Key> {
    if w == "esc"@ {
        Some(Key::Escape)
    } else if w == "escape"@ {
        Some(Key::Escape)
    } else if w == "return"@ {
        Some(Key::Return)
    } else if w == "enter"@ {
        Some(Key::Return)
    } else if w == "tab"@ {
        Some(Key::Tab)
    } else if w == "space"@ {
        Some(Key::Space)
    } else if w == "backspace"@ {
        Some(Key::Backspace)
    } else if w == "up"@ {
        Some(Key::UpArrow)
    } else if w == "down"@ {
        Some(Key::DownArrow)
    } else if w == "left"@ {
        Some(Key::LeftArrow)
    } else if w == "right"@ {
        Some(Key::RightArrow)
    } else if w == "delete"@ {
        Some(Key::Delete)
    } else if w == "insert"@ {
        Some(Key::Insert)
    } else if w == "home"@ {
        Some(Key::Home)
    } else if w == "end"@ {
        Some(Key::End)
    } else if w == "pageup"@ {
        Some(Key::PageUp)
    } else if w == "pagedown"@ {
        Some(Key::PageDown)
    } else if w == "printscreen"@ {
        Some(Key::PrintScr)
    } else if w == "pause"@ {
        Some(Key::Pause)
    } else if w == "numlock"@ {
        Some(Key::Numlock)
    } else if w == "capslock"@ {
        Some(Key::CapsLock)
    } else if w == "ctrl"@ {
        Some(Key::Control)
    } else if w == "control"@ {
        Some(Key::Control)
    } else if w == "alt"@ {
        Some(Key::Alt)
    } else if w == "shift"@ {
        Some(Key::Shift)
    } else if w == "super"@ {
        Some(Key::Meta)
    } else if w == "win"@ {
        Some(Key::Meta)
    } else if w == "windows"@ {
        Some(Key::Meta)
    } else if w == "command"@ {
        Some(Key::Meta)
    } else if w == "f1"@ {
        Some(Key::F1)
    } else if w == "f2"@ {
        Some(Key::F2)
    } else if w == "f3"@ {
        Some(Key::F3)
    } else if w == "f4"@ {
        Some(Key::F4)
    } else if w == "f5"@ {
        Some(Key::F5)
    } else if w == "f6"@ {
        Some(Key::F6)
    } else if w == "f7"@ {
        Some(Key::F7)
    } else if w == "f8"@ {
        Some(Key::F8)
    } else if w == "f9"@ {
        Some(Key::F9)
    } else if w == "f10"@ {
        Some(Key::F10)
    } else if w == "f11"@ {
        Some(Key::F11)
    } else if w == "f12"@ {
        Some(Key::F12)
    } else if w == "kp_0"@ {
        Some(Key::Unicode('0'))
    } else if w == "kp_1"@ {
        Some(Key::Unicode('1'))
    } else if w == "kp_2"@ {
        Some(Key::Unicode('2'))
    } else if w == "kp_3"@ {
        Some(Key::Unicode('3'))
    } else if w == "kp_4"@ {
        Some(Key::Unicode('4'))
    } else if w == "kp_5"@ {
        Some(Key::Unicode('5'))
    } else if w == "kp_6"@ {
        Some(Key::Unicode('6'))
    } else if w == "kp_7"@ {
        Some(Key::Unicode('7'))
    } else if w == "kp_8"@ {
        Some(Key::Unicode('8'))
    } else if w == "kp_9"@ {
        Some(Key::Unicode('9'))
    } else {
        None
    }
}

/// The key the final token of a combination resolves to: a named key, matched without
/// regard to case, or else the token's single character as written.
pub open spec fn final_key_of(token: Seq<char>) -> Option<Key> {
    match named_key_of(lower_of(token)) {
        Some(k) => Some(k),
        None => if token.len() == 1 {
            Some(Key::Unicode(token[0]))
        } else {
            None
        },
    }
}

/// The tokens of `s` between the `+` separators, empty ones included; never empty.
pub open spec fn split_plus(s: Seq<char>) -> Seq<Seq<char>>
    decreases s.len(),
{
    if s.len() == 0 {
        seq![Seq::<char>::empty()]
    } else {
        let rest = split_plus(s.drop_last());
        if s.last() == '+' {
            rest.push(Seq::<char>::empty())
        } else {
            rest.update(rest.len() - 1, rest.last().push(s.last()))
        }
    }
}

/// Whether every token before position `upto` names a modifier.
pub open spec fn modifiers_resolve(toks: Seq<Seq<char>>, upto: int) -> bool {
    forall|i: int| 0 <= i < upto ==> (#[trigger] modifier_of(lower_of(toks[i]))) is Some
}

/// The modifiers the first `upto` tokens name.
pub open spec fn modifiers_of(toks: Seq<Seq<char>>, upto: int) -> Seq<Key> {
    Seq::new(upto as nat, |i: int| modifier_of(lower_of(toks[i]))->Some_0)
}

/// The position of the first token before `upto` that names no modifier, or `upto`.
pub open spec fn first_unknown_modifier(toks: Seq<Seq<char>>, upto: int) -> int
    decreases upto,
{
    if upto <= 0 {
        0
    } else if !modifiers_resolve(toks, upto - 1) {
        first_unknown_modifier(toks, upto - 1)
    } else if modifier_of(lower_of(toks[upto - 1])) is None {
        upto - 1
    } else {
        upto
    }
}

/// The combination `s` denotes: its modifiers and its main key, or `None` when a
/// modifier is unknown or the final token resolves to no key.
pub open spec fn combo_of(s: Seq<char>) -> Option<(Seq<Key>, Key)> {
    let toks = split_plus(s);
    let n = toks.len() - 1;
    if modifiers_resolve(toks, n) && final_key_of(toks[n]) is Some {
        Some((modifiers_of(toks, n), final_key_of(toks[n])->Some_0))
    } else {
        None
    }
}

/// The modifier that a lowercased token names.
pub fn modifier_from_word(w: &str) -> (r: Option<Key>)
    ensures
        r == modifier_of(w@),
{
    if same_text(w, "ctrl") {
        Some(Key::Control)
    } else if same_text(w, "control") {
        Some(Key::Control)
    } else if same_text(w, "alt") {
        Some(Key::Alt)
    } else if same_text(w, "shift") {
        Some(Key::Shift)
    } else if same_text(w, "super") {
        Some(Key::Meta)
    } else if same_text(w, "win") {
        Some(Key::Meta)
    } else if same_text(w, "windows") {
        Some(Key::Meta)
    } else if same_text(w, "command") {
        Some(Key::Meta)
    } else {
        None
    }
}

/// The named key that a lowercased token names.
pub fn named_key_from_word(w: &str) -> (r: Option<Key>)
    ensures
        r == named_key_of(w@),
{
    if same_text(w, "esc") {
        Some(Key::Escape)
    } else if same_text(w, "escape") {
        Some(Key::Escape)
    } else if same_text(w, "return") {
        Some(Key::Return)
    } else if same_text(w, "enter") {
        Some(Key::Return)
    } else if same_text(w, "tab") {
        Some(Key::Tab)
    } else if same_text(w, "space") {
        Some(Key::Space)
    } else if same_text(w, "backspace") {
        Some(Key::Backspace)
    } else if same_text(w, "up") {
        Some(Key::UpArrow)
    } else if same_text(w, "down") {
        Some(Key::DownArrow)
    } else if same_text(w, "left") {
        Some(Key::LeftArrow)
    } else if same_text(w, "right") {
        Some(Key::RightArrow)
    } else if same_text(w, "delete") {
        Some(Key::Delete)
    } else if same_text(w, "insert") {
        Some(Key::Insert)
    } else if same_text(w, "home") {
        Some(Key::Home)
    } else if same_text(w, "end") {
        Some(Key::End)
    } else if same_text(w, "pageup") {
        Some(Key::PageUp)
    } else if same_text(w, "pagedown") {
        Some(Key::PageDown)
    } else if same_text(w, "printscreen") {
        Some(Key::PrintScr)
    } else if same_text(w, "pause") {
        Some(Key::Pause)
    } else if same_text(w, "numlock") {
        Some(Key::Numlock)
    } else if same_text(w, "capslock") {
        Some(Key::CapsLock)
    } else if same_text(w, "ctrl") {
        Some(Key::Control)
    } else if same_text(w, "control") {
        Some(Key::Control)
    } else if same_text(w, "alt") {
        Some(Key::Alt)
    } else if same_text(w, "shift") {
        Some(Key::Shift)
    } else if same_text(w, "super") {
        Some(Key::Meta)
    } else if same_text(w, "win") {
        Some(Key::Meta)
    } else if same_text(w, "windows") {
        Some(Key::Meta)
    } else if same_text(w, "command") {
        Some(Key::Meta)
    } else if same_text(w, "f1") {
        Some(Key::F1)
    } else if same_text(w, "f2") {
        Some(Key::F2)
    } else if same_text(w, "f3") {
        Some(Key::F3)
    } else if same_text(w, "f4") {
        Some(Key::F4)
    } else if same_text(w, "f5") {
        Some(Key::F5)
    } else if same_text(w, "f6") {
        Some(Key::F6)
    } else if same_text(w, "f7") {
        Some(Key::F7)
    } else if same_text(w, "f8") {
        Some(Key::F8)
    } else if same_text(w, "f9") {
        Some(Key::F9)
    } else if same_text(w, "f10") {
        Some(Key::F10)
    } else if same_text(w, "f11") {
        Some(Key::F11)
    } else if same_text(w, "f12") {
        Some(Key::F12)
    } else if same_text(w, "kp_0") {
        Some(Key::Unicode('0'))
    } else if same_text(w, "kp_1") {
        Some(Key::Unicode('1'))
    } else if same_text(w, "kp_2") {
        Some(Key::Unicode('2'))
    } else if same_text(w, "kp_3") {
        Some(Key::Unicode('3'))
    } else if same_text(w, "kp_4") {
        Some(Key::Unicode('4'))
    } else if same_text(w, "kp_5") {
        Some(Key::Unicode('5'))
    } else if same_text(w, "kp_6") {
        Some(Key::Unicode('6'))
    } else if same_text(w, "kp_7") {
        Some(Key::Unicode('7'))
    } else if same_text(w, "kp_8") {
        Some(Key::Unicode('8'))
    } else if same_text(w, "kp_9") {
        Some(Key::Unicode('9'))
    } else {
        None
    }
}

/// Resolves the final token of a combination.
pub fn parse_single_key(token: &str) -> (r: Option<Key>)
    ensures
        r == final_key_of(token@),
{
    let low = lowercase(token);
    match named_key_from_word(low.as_str()) {
        Some(k) => Some(k),
        None => {
            if token.unicode_len() == 1 {
                Some(Key::Unicode(token.get_char(0)))
            } else {
                None
            }
        },
    }
}

/// The characters of each string in `v`.
pub open spec fn views_of(v: Seq<&str>) -> Seq<Seq<char>> {
    Seq::new(v.len(), |i: int| v[i]@)
}

/// Splits `s` at every `+`, keeping empty tokens.
pub fn split_tokens(s: &str) -> (r: Vec<&str>)
    ensures
        views_of(r@) == split_plus(s@),
{
    let n = s.unicode_len();
    let mut toks: Vec<&str> = Vec::new();
    let mut start: usize = 0;
    let mut i: usize = 0;
    assert(s@.subrange(0, 0) =~= Seq::<char>::empty());
    assert(views_of(toks@) =~= Seq::<Seq<char>>::empty());
    assert(views_of(toks@).push(s@.subrange(0, 0)) =~= seq![Seq::<char>::empty()]);
    while i < n
        invariant
            n == s@.len(),
            start <= i <= n,
            views_of(toks@).push(s@.subrange(start as int, i as int)) == split_plus(s@.subrange(0, i as int)),
        decreases n - i,
    {
        let c = s.get_char(i);
        let ghost prefix = s@.subrange(0, i + 1);
        assert(prefix.drop_last() =~= s@.subrange(0, i as int));
        assert(prefix.last() == c);
        if c == '+' {
            let tok = s.substring_char(start, i);
            let ghost before = views_of(toks@);
            toks.push(tok);
            assert(views_of(toks@) =~= before.push(tok@));
            start = i + 1;
            assert(split_plus(prefix) == split_plus(s@.subrange(0, i as int)).push(Seq::<char>::empty()));
            assert(s@.subrange(start as int, i + 1) =~= Seq::<char>::empty());
            assert(views_of(toks@).push(s@.subrange(start as int, i + 1)) =~= split_plus(prefix));
        } else {
            assert(s@.subrange(start as int, i + 1) =~= s@.subrange(start as int, i as int).push(c));
            assert(views_of(toks@).push(s@.subrange(start as int, i + 1)) =~= split_plus(prefix));
        }
        i = i + 1;
    }
    let tok = s.substring_char(start, n);
    let ghost before = views_of(toks@);
    toks.push(tok);
    assert(views_of(toks@) =~= before.push(tok@));
    assert(s@.subrange(0, n as int) =~= s@);
    toks
}

/// The length of `split_plus` is one more than the number of separators, so at least one.
pub proof fn lemma_split_nonempty(s: Seq<char>)
    ensures
        split_plus(s).len() >= 1,
    decreases s.len(),
{
    if s.len() > 0 {
        lemma_split_nonempty(s.drop_last());
    }
}

proof fn lemma_first_unknown_stays(toks: Seq<Seq<char>>, upto: int)
    requires
        0 <= upto,
        modifiers_resolve(toks, upto),
    ensures
        first_unknown_modifier(toks, upto) == upto,
    decreases upto,
{
    if upto > 0 {
        assert(modifiers_resolve(toks, upto - 1));
    }
}

impl KeyPress {
    /// The modifiers and key, as the contracts see them.
    pub open spec fn view_of(&self) -> (Seq<Key>, Key) {
        (self.modifiers@, self.key)
    }

    /// Parses a combination such as `ctrl+shift+a`. The error names the first unknown
    /// modifier, or says that the final token is no key.
    pub fn parse(s: &str) -> (r: Result<KeyPress, String>)
        ensures
            r is Ok <==> combo_of(s@) is Some,
            r matches Ok(kp) ==> combo_of(s@) == Some(kp.view_of()),
            r matches Err(m) ==> ({
                let toks = split_plus(s@);
                let n = toks.len() - 1;
                if modifiers_resolve(toks, n) {
                    m@ == "Invalid key"@
                } else {
                    m@ == "Unknown modifier: "@ + toks[first_unknown_modifier(toks, n)]
                }
            }),
    {
        let toks = split_tokens(s);
        proof {
            lemma_split_nonempty(s@);
        }
        let ghost tv = split_plus(s@);
        let n = toks.len() - 1;
        assert(tv.len() == toks@.len());
        let mut modifiers: Vec<Key> = Vec::new();
        let mut i: usize = 0;
        while i < n
            invariant
                tv == split_plus(s@),
                tv == views_of(toks@),
                n == toks@.len() - 1,
                i <= n,
                modifiers_resolve(tv, i as int),
                modifiers@ == modifiers_of(tv, i as int),
            decreases n - i,
        {
            assert(toks@[i as int]@ == tv[i as int]);
            let low = lowercase(toks[i]);
            match modifier_from_word(low.as_str()) {
                Some(k) => {
                    modifiers.push(k);
                    assert(modifiers_resolve(tv, i + 1));
                    assert(modifiers@ =~= modifiers_of(tv, i + 1));
                },
                None => {
                    let mut m = "Unknown modifier: ".to_owned();
                    m.append(toks[i]);
                    assert(first_unknown_modifier(tv, i + 1) == i) by {
                        lemma_first_unknown_stays(tv, i as int);
                    }
                    assert(first_unknown_modifier(tv, n as int) == i) by {
                        lemma_first_unknown_from(tv, i as int, n as int);
                    }
                    return Err(m);
                },
            }
            i = i + 1;
        }
        assert(toks@[n as int]@ == tv[n as int]);
        match parse_single_key(toks[n]) {
            Some(k) => Ok(KeyPress { modifiers, key: k }),
            None => Err("Invalid key".to_owned()),
        }
    }
}

proof fn lemma_first_unknown_from(toks: Seq<Seq<char>>, i: int, upto: int)
    requires
        0 <= i < upto,
        modifiers_resolve(toks, i),
        modifier_of(lower_of(toks[i])) is None,
    ensures
        first_unknown_modifier(toks, upto) == i,
    decreases upto,
{
    if upto == i + 1 {
        lemma_first_unknown_stays(toks, i);
    } else {
        assert(!modifiers_resolve(toks, upto - 1));
        lemma_first_unknown_from(toks, i, upto - 1);
    }
}

impl std::str::FromStr for KeyPress {
    type Err = String;

    fn from_str(s: &str) -> Result<KeyPress, String> {
        KeyPress::parse(s)
    }
}

} // verus!
