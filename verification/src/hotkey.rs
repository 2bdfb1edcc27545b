//! The grammar of keyboard shortcuts.
//!
//! A shortcut is written as tokens separated by `+`, as in `Ctrl+Alt+S`.
//! White space around a token and the case of its letters do not matter. A
//! token names a modifier or a key; a shortcut has any number of modifiers
//! and exactly one key.

use crate::text::{chars_of, spells, trimmed, uppercased};
use vstd::prelude::*;
use vstd::string::StringExecFns;

verus! {

/// Flag of the Alt modifier in a shortcut registration.
pub const MOD_ALT: u32 = 0x0001;

/// Flag of the Ctrl modifier in a shortcut registration.
pub const MOD_CONTROL: u32 = 0x0002;

/// Flag of the Shift modifier in a shortcut registration.
pub const MOD_SHIFT: u32 = 0x0004;

/// Flag of the Win modifier in a shortcut registration.
pub const MOD_WIN: u32 = 0x0008;

/// Flag that keeps a held key from firing the shortcut again.
pub const MOD_NOREPEAT: u32 = 0x4000;

/// Key code of the space bar.
pub const VK_SPACE: u16 = 0x20;

/// Key code of F1; F2 to F12 follow it without a gap.
pub const VK_F1: u16 = 0x70;

/// Key code of F12.
pub const VK_F12: u16 = 0x7B;

/// Key code of `;`.
pub const VK_OEM_1: u16 = 0xBA;

/// Key code of `=`.
pub const VK_OEM_PLUS: u16 = 0xBB;

/// Key code of `,`.
pub const VK_OEM_COMMA: u16 = 0xBC;

/// Key code of `-`.
pub const VK_OEM_MINUS: u16 = 0xBD;

/// Key code of `.`.
pub const VK_OEM_PERIOD: u16 = 0xBE;

/// Key code of `/`.
pub const VK_OEM_2: u16 = 0xBF;

/// Key code of the backtick.
pub const VK_OEM_3: u16 = 0xC0;

/// Key code of `[`.
pub const VK_OEM_4: u16 = 0xDB;

/// Key code of `\`.
pub const VK_OEM_5: u16 = 0xDC;

/// Key code of `]`.
pub const VK_OEM_6: u16 = 0xDD;

/// Key code of `'`.
pub const VK_OEM_7: u16 = 0xDE;

/// Registration id of the shortcut that toggles the output.
pub const HOTKEY_TOGGLE: i32 = 1;

/// Registration id of the shortcut that opens the settings.
pub const HOTKEY_OPTIONS: i32 = 2;

/// A modifier key.
#[derive(Clone, Copy, Debug, PartialEq, Eq, Structural)]
pub enum Modifier {
    Ctrl,
    Alt,
    Shift,
    Win,
}

/// A set of modifier keys.
#[derive(Clone, Copy, Debug, PartialEq, Eq, Structural)]
pub struct Modifiers {
    pub ctrl: bool,
    pub alt: bool,
    pub shift: bool,
    pub win: bool,
}

impl Modifiers {
    /// Whether `m` is in the set.
    pub open spec fn has(self, m: Modifier) -> bool {
        match m {
            Modifier::Ctrl => self.ctrl,
            Modifier::Alt => self.alt,
            Modifier::Shift => self.shift,
            Modifier::Win => self.win,
        }
    }

    /// The set with `m` added.
    pub open spec fn plus(self, m: Modifier) -> Modifiers {
        match m {
            Modifier::Ctrl => Modifiers { ctrl: true, ..self },
            Modifier::Alt => Modifiers { alt: true, ..self },
            Modifier::Shift => Modifiers { shift: true, ..self },
            Modifier::Win => Modifiers { win: true, ..self },
        }
    }

    /// The sum of the registration flags of the modifiers in the set.
    pub open spec fn bits(self) -> int {
        (if self.alt {
            1int
        } else {
            0
        }) + (if self.ctrl {
            2int
        } else {
            0
        }) + (if self.shift {
            4int
        } else {
            0
        }) + (if self.win {
            8int
        } else {
            0
        })
    }

    /// The empty set.
    pub fn none() -> (r: Modifiers)
        ensures
            r == (Modifiers { ctrl: false, alt: false, shift: false, win: false }),
            forall|m: Modifier| !r.has(m),
    {
        Modifiers { ctrl: false, alt: false, shift: false, win: false }
    }

    /// Whether `m` is in the set.
    pub fn contains(&self, m: Modifier) -> (r: bool)
        ensures
            r == self.has(m),
    {
        match m {
            Modifier::Ctrl => self.ctrl,
            Modifier::Alt => self.alt,
            Modifier::Shift => self.shift,
            Modifier::Win => self.win,
        }
    }

    /// The set with `m` added.
    pub fn with(self, m: Modifier) -> (r: Modifiers)
        ensures
            r == self.plus(m),
            forall|x: Modifier| r.has(x) == (x == m || self.has(x)),
    {
        match m {
            Modifier::Ctrl => Modifiers { ctrl: true, ..self },
            Modifier::Alt => Modifiers { alt: true, ..self },
            Modifier::Shift => Modifiers { shift: true, ..self },
            Modifier::Win => Modifiers { win: true, ..self },
        }
    }

    /// The registration flags of the modifiers in the set.
    pub fn flags(&self) -> (r: u32)
        ensures
            r == self.bits(),
    {
        let alt: u32 = if self.alt {
            MOD_ALT
        } else {
            0
        };
        let ctrl: u32 = if self.ctrl {
            MOD_CONTROL
        } else {
            0
        };
        let shift: u32 = if self.shift {
            MOD_SHIFT
        } else {
            0
        };
        let win: u32 = if self.win {
            MOD_WIN
        } else {
            0
        };
        alt + ctrl + shift + win
    }
}

/// A parsed shortcut: the modifiers and the code of the one key.
#[derive(Clone, Copy, Debug, PartialEq, Eq, Structural)]
pub struct HotkeySpec {
    pub modifiers: Modifiers,
    pub key: u16,
}

/// What a shortcut registration is made with.
#[derive(Clone, Copy, Debug, PartialEq, Eq, Structural)]
pub struct Registration {
    pub id: i32,
    pub flags: u32,
    pub key: u32,
}

impl HotkeySpec {
    /// The flags under which the shortcut is registered: those of its
    /// modifiers and, always, the one that suppresses auto-repeat.
    pub fn registration_flags(&self) -> (r: u32)
        ensures
            r == self.modifiers.bits() + MOD_NOREPEAT,
    {
        self.modifiers.flags() + MOD_NOREPEAT
    }

    /// The registration of this shortcut under `id`.
    pub fn registration(&self, id: i32) -> (r: Registration)
        ensures
            r == (Registration {
                id,
                flags: (self.modifiers.bits() + MOD_NOREPEAT) as u32,
                key: self.key as u32,
            }),
    {
        Registration { id, flags: self.registration_flags(), key: self.key as u32 }
    }
}

/// The fixed shortcut that opens the settings: Ctrl+O.
pub fn options_hotkey() -> (r: HotkeySpec)
    ensures
        r == (HotkeySpec {
            modifiers: Modifiers { ctrl: true, alt: false, shift: false, win: false },
            key: 0x4F,
        }),
{
    HotkeySpec { modifiers: Modifiers::none().with(Modifier::Ctrl), key: 0x4F }
}

/// Why a text is no shortcut.
#[derive(Debug, PartialEq, Eq)]
pub enum HotkeyError {
    /// A second key was named; both tokens are kept as they were written.
    MultipleKeys { first: String, second: String },
    /// No key was named.
    NoKey,
    /// A token names neither a modifier nor a key; it is kept as written.
    UnknownKey { token: String },
}

/// The content of a `HotkeyError`.
pub enum HotkeyFault {
    MultipleKeys { first: Seq<char>, second: Seq<char> },
    NoKey,
    UnknownKey { token: Seq<char> },
}

impl View for HotkeyError {
    type V = HotkeyFault;

    open spec fn view(&self) -> HotkeyFault {
        match self {
            HotkeyError::MultipleKeys { first, second } => HotkeyFault::MultipleKeys {
                first: first@,
                second: second@,
            },
            HotkeyError::NoKey => HotkeyFault::NoKey,
            HotkeyError::UnknownKey { token } => HotkeyFault::UnknownKey { token: token@ },
        }
    }
}

impl HotkeyFault {
    /// The error in words.
    pub open spec fn text(self) -> Seq<char> {
        match self {
            HotkeyFault::MultipleKeys { first, second } =>
                "Multiple keys specified: already had one, got '"@ + second + "'"@,
            HotkeyFault::NoKey => "No key specified in hotkey string"@,
            HotkeyFault::UnknownKey { token } => "Unknown key: '"@ + token + "'"@,
        }
    }
}

impl HotkeyError {
    /// The error in words, for the user.
    pub fn message(&self) -> (r: String)
        ensures
            r@ == self@.text(),
    {
        match self {
            HotkeyError::MultipleKeys { first: _, second } => {
                let mut text = String::from_str("Multiple keys specified: already had one, got '");
                text.append(second.as_str());
                text.append("'");
                text
            },
            HotkeyError::NoKey => String::from_str("No key specified in hotkey string"),
            HotkeyError::UnknownKey { token } => {
                let mut text = String::from_str("Unknown key: '");
                text.append(token.as_str());
                text.append("'");
                text
            },
        }
    }
}

/// The modifier that a token names, the token taken in upper case.
pub open spec fn modifier_named(name: Seq<char>) -> Option<Modifier> {
    if name == "CTRL"@ || name == "CONTROL"@ {
        Some(Modifier::Ctrl)
    } else if name == "ALT"@ {
        Some(Modifier::Alt)
    } else if name == "SHIFT"@ {
        Some(Modifier::Shift)
    } else if name == "WIN"@ || name == "WINDOWS"@ || name == "SUPER"@ {
        Some(Modifier::Win)
    } else {
        None
    }
}

/// The key code of a key that is named by one character: a letter in either
/// case, a digit, or one of eleven punctuation marks.
pub open spec fn key_of_char(c: char) -> Option<u16> {
    let v = c as u32;
    if 0x41 <= v <= 0x5A || 0x30 <= v <= 0x39 {
        Some(v as u16)
    } else if 0x61 <= v <= 0x7A {
        Some((v - 0x20) as u16)
    } else if c == '\\' {
        Some(VK_OEM_5)
    } else if c == '/' {
        Some(VK_OEM_2)
    } else if c == ';' {
        Some(VK_OEM_1)
    } else if c == '\'' {
        Some(VK_OEM_7)
    } else if c == '[' {
        Some(VK_OEM_4)
    } else if c == ']' {
        Some(VK_OEM_6)
    } else if c == '-' {
        Some(VK_OEM_MINUS)
    } else if c == '=' {
        Some(VK_OEM_PLUS)
    } else if c == ',' {
        Some(VK_OEM_COMMA)
    } else if c == '.' {
        Some(VK_OEM_PERIOD)
    } else if c == '`' {
        Some(VK_OEM_3)
    } else {
        None
    }
}

/// The key code of a function key or of the space bar, by its name in
/// upper case.
pub open spec fn key_of_word(name: Seq<char>) -> Option<u16> {
    if name == "F1"@ {
        Some(VK_F1)
    } else if name == "F2"@ {
        Some(0x71u16)
    } else if name == "F3"@ {
        Some(0x72u16)
    } else if name == "F4"@ {
        Some(0x73u16)
    } else if name == "F5"@ {
        Some(0x74u16)
    } else if name == "F6"@ {
        Some(0x75u16)
    } else if name == "F7"@ {
        Some(0x76u16)
    } else if name == "F8"@ {
        Some(0x77u16)
    } else if name == "F9"@ {
        Some(0x78u16)
    } else if name == "F10"@ {
        Some(0x79u16)
    } else if name == "F11"@ {
        Some(0x7Au16)
    } else if name == "F12"@ {
        Some(VK_F12)
    } else if name == "SPACE"@ {
        Some(VK_SPACE)
    } else {
        None
    }
}

/// The key code that a key token names, if it names one.
pub open spec fn key_named(name: Seq<char>) -> Option<u16> {
    if name.len() == 1 {
        key_of_char(name[0])
    } else {
        key_of_word(name)
    }
}

/// The modifier that the characters `name` spell.
pub fn modifier_for(name: &Vec<char>) -> (r: Option<Modifier>)
    ensures
        r == modifier_named(name@),
{
    if spells(name, "CTRL") || spells(name, "CONTROL") {
        Some(Modifier::Ctrl)
    } else if spells(name, "ALT") {
        Some(Modifier::Alt)
    } else if spells(name, "SHIFT") {
        Some(Modifier::Shift)
    } else if spells(name, "WIN") || spells(name, "WINDOWS") || spells(name, "SUPER") {
        Some(Modifier::Win)
    } else {
        None
    }
}

/// The key code of the key that is named by the character `c`.
pub fn key_for_char(c: char) -> (r: Option<u16>)
    ensures
        r == key_of_char(c),
{
    let v: u32 = c as u32;
    if (0x41 <= v && v <= 0x5A) || (0x30 <= v && v <= 0x39) {
        Some(v as u16)
    } else if 0x61 <= v && v <= 0x7A {
        Some((v - 0x20) as u16)
    } else if c == '\\' {
        Some(VK_OEM_5)
    } else if c == '/' {
        Some(VK_OEM_2)
    } else if c == ';' {
        Some(VK_OEM_1)
    } else if c == '\'' {
        Some(VK_OEM_7)
    } else if c == '[' {
        Some(VK_OEM_4)
    } else if c == ']' {
        Some(VK_OEM_6)
    } else if c == '-' {
        Some(VK_OEM_MINUS)
    } else if c == '=' {
        Some(VK_OEM_PLUS)
    } else if c == ',' {
        Some(VK_OEM_COMMA)
    } else if c == '.' {
        Some(VK_OEM_PERIOD)
    } else if c == '`' {
        Some(VK_OEM_3)
    } else {
        None
    }
}

/// The key code of the function key or space bar that `name` spells.
pub fn key_for_word(name: &Vec<char>) -> (r: Option<u16>)
    ensures
        r == key_of_word(name@),
{
    if spells(name, "F1") {
        Some(VK_F1)
    } else if spells(name, "F2") {
        Some(0x71)
    } else if spells(name, "F3") {
        Some(0x72)
    } else if spells(name, "F4") {
        Some(0x73)
    } else if spells(name, "F5") {
        Some(0x74)
    } else if spells(name, "F6") {
        Some(0x75)
    } else if spells(name, "F7") {
        Some(0x76)
    } else if spells(name, "F8") {
        Some(0x77)
    } else if spells(name, "F9") {
        Some(0x78)
    } else if spells(name, "F10") {
        Some(0x79)
    } else if spells(name, "F11") {
        Some(0x7A)
    } else if spells(name, "F12") {
        Some(VK_F12)
    } else if spells(name, "SPACE") {
        Some(VK_SPACE)
    } else {
        None
    }
}

/// The key code that the key name `name` stands for. The name is one
/// character, `F1` to `F12`, or `SPACE`; letters may be in either case in a
/// one-character name, and the words are in upper case.
pub fn key_name_to_vk(name: &str) -> (r: Result<u16, HotkeyError>)
    ensures
        match r {
            Ok(code) => key_named(name@) == Some(code),
            Err(e) => key_named(name@) is None && e@ == (HotkeyFault::UnknownKey {
                token: name@,
            }),
        },
{
    let chars: Vec<char> = chars_of(name);
    let found: Option<u16> = if chars.len() == 1 {
        key_for_char(chars[0])
    } else {
        key_for_word(&chars)
    };
    match found {
        Some(code) => Ok(code),
        None => Err(HotkeyError::UnknownKey { token: name.to_owned() }),
    }
}

/// One piece of a shortcut text.
#[derive(Debug, PartialEq, Eq)]
pub struct Token {
    /// The piece as it was written, without the white space around it.
    pub written: String,
    /// The same in upper case: the form in which names are looked up.
    pub name: String,
}

/// The content of a `Token`.
pub struct TokenText {
    pub written: Seq<char>,
    pub name: Seq<char>,
}

impl View for Token {
    type V = TokenText;

    open spec fn view(&self) -> TokenText {
        TokenText { written: self.written@, name: self.name@ }
    }
}

/// The contents of a list of tokens.
pub open spec fn texts(tokens: Seq<Token>) -> Seq<TokenText> {
    tokens.map_values(|t: Token| t@)
}

/// The position of the first `+` in `s`, or the length of `s` if there is
/// none.
pub open spec fn first_plus(s: Seq<char>) -> nat
    decreases s.len(),
{
    if s.len() == 0 || s[0] == '+' {
        0
    } else {
        1 + first_plus(s.skip(1))
    }
}

/// The pieces of `s` between its `+` characters, in order. A text without
/// `+` is one piece; pieces may be empty.
pub open spec fn split_plus(s: Seq<char>) -> Seq<Seq<char>>
    decreases s.len(),
{
    let i = first_plus(s) as int;
    if i >= s.len() {
        seq![s]
    } else {
        seq![s.take(i)] + split_plus(s.skip(i + 1))
    }
}

/// The token that a piece is read as: the piece trimmed, and that in upper
/// case.
pub open spec fn token_of(piece: Seq<char>) -> TokenText {
    TokenText { written: trimmed(piece), name: uppercased(trimmed(piece)) }
}

/// The tokens of a shortcut text.
pub open spec fn tokens_of(s: Seq<char>) -> Seq<TokenText> {
    split_plus(s).map_values(|piece: Seq<char>| token_of(piece))
}

/// What has been read of a shortcut: the modifiers, and the key with the
/// token that named it.
pub struct Partial {
    pub modifiers: Modifiers,
    pub key: Option<(u16, Seq<char>)>,
}

/// Nothing read yet.
pub open spec fn nothing_read() -> Partial {
    Partial {
        modifiers: Modifiers { ctrl: false, alt: false, shift: false, win: false },
        key: None,
    }
}

/// Reading one more token. A modifier joins the set. Anything else is taken
/// for a key: it is refused if a key was read before, or if it names none.
pub open spec fn absorb(acc: Partial, token: TokenText) -> Result<Partial, HotkeyFault> {
    match modifier_named(token.name) {
        Some(m) => Ok(Partial { modifiers: acc.modifiers.plus(m), key: acc.key }),
        None => match acc.key {
            Some((_, first)) => Err(HotkeyFault::MultipleKeys { first, second: token.written }),
            None => match key_named(token.name) {
                Some(code) => Ok(
                    Partial { modifiers: acc.modifiers, key: Some((code, token.written)) },
                ),
                None => Err(HotkeyFault::UnknownKey { token: token.written }),
            },
        },
    }
}

/// The shortcut that was read, once no token is left.
pub open spec fn finish(acc: Partial) -> Result<HotkeySpec, HotkeyFault> {
    match acc.key {
        Some((code, _)) => Ok(HotkeySpec { modifiers: acc.modifiers, key: code }),
        None => Err(HotkeyFault::NoKey),
    }
}

/// Reading the tokens in order, stopping at the first that is refused.
pub open spec fn scan(tokens: Seq<TokenText>, acc: Partial) -> Result<HotkeySpec, HotkeyFault>
    decreases tokens.len(),
{
    if tokens.len() == 0 {
        finish(acc)
    } else {
        match absorb(acc, tokens[0]) {
            Ok(next) => scan(tokens.skip(1), next),
            Err(e) => Err(e),
        }
    }
}

/// The shortcut that a list of tokens stands for.
pub open spec fn assemble_model(tokens: Seq<TokenText>) -> Result<HotkeySpec, HotkeyFault> {
    scan(tokens, nothing_read())
}

/// The meaning of a shortcut text.
pub open spec fn parse_model(s: Seq<char>) -> Result<HotkeySpec, HotkeyFault> {
    assemble_model(tokens_of(s))
}

/// `first_plus` is the one position before which there is no `+` and at
/// which there is one, or the text ends.
pub proof fn lemma_first_plus(s: Seq<char>, k: int)
    requires
        0 <= k <= s.len(),
        forall|j: int| 0 <= j < k ==> s[j] != '+',
        k == s.len() || s[k] == '+',
    ensures
        first_plus(s) == k,
    decreases s.len(),
{
    if k > 0 {
        let t = s.skip(1);
        assert forall|j: int| 0 <= j < k - 1 implies t[j] != '+' by {
            assert(t[j] == s[j + 1]);
        }
        lemma_first_plus(t, k - 1);
    }
}

/// Cuts a shortcut text at every `+` and reads each piece as a token.
pub fn tokenize(s: &str) -> (tokens: Vec<Token>)
    ensures
        texts(tokens@) == tokens_of(s@),
{
    let chars: Vec<char> = chars_of(s);
    let n: usize = chars.len();
    let mut tokens: Vec<Token> = Vec::new();
    let mut start: usize = 0;
    assert(s@.skip(0) =~= s@);
    assert(texts(tokens@) + tokens_of(s@) =~= tokens_of(s@));
    loop
        invariant_except_break
            chars@ == s@,
            n == chars@.len(),
            start <= n,
            texts(tokens@) + tokens_of(s@.skip(start as int)) == tokens_of(s@),
        ensures
            texts(tokens@) == tokens_of(s@),
        decreases n - start,
    {
        let mut end: usize = start;
        while end < n && chars[end] != '+'
            invariant
                chars@ == s@,
                n == chars@.len(),
                start <= end <= n,
                forall|j: int| start <= j < end ==> s@[j] != '+',
            decreases n - end,
        {
            end = end + 1;
        }
        let piece: &str = s.substring_char(start, end);
        let written: &str = piece.trim();
        let token = Token { written: written.to_owned(), name: written.to_uppercase() };
        let ghost before = tokens@;
        tokens.push(token);
        proof {
            let rest = s@.skip(start as int);
            lemma_first_plus(rest, end - start);
            assert(rest.take(end - start) =~= s@.subrange(start as int, end as int));
            assert(token@ == token_of(piece@));
            assert(texts(tokens@) =~= texts(before) + seq![token@]);
            if end < n {
                assert(rest.skip(end - start + 1) =~= s@.skip(end + 1));
                assert(tokens_of(rest) =~= seq![token@] + tokens_of(s@.skip(end + 1)));
                assert(texts(tokens@) + tokens_of(s@.skip(end + 1)) =~= texts(before) + tokens_of(
                    rest,
                ));
            } else {
                assert(tokens_of(rest) =~= seq![token@]);
            }
        }
        if end >= n {
            break ;
        }
        start = end + 1;
    }
    tokens
}

spec fn partial_of(modifiers: Modifiers, key: Option<(u16, String)>) -> Partial {
    Partial {
        modifiers,
        key: match key {
            Some((code, token)) => Some((code, token@)),
            None => None,
        },
    }
}

/// Puts a shortcut together from its tokens.
///
/// `CTRL`, `CONTROL`, `ALT`, `SHIFT`, `WIN`, `WINDOWS` and `SUPER` name
/// modifiers; naming one twice is the same as naming it once. Every other
/// token must name the key, and exactly one token does. The first token
/// that breaks a rule decides the error.
pub fn assemble(tokens: &Vec<Token>) -> (r: Result<HotkeySpec, HotkeyError>)
    ensures
        match r {
            Ok(spec) => assemble_model(texts(tokens@)) == Ok::<HotkeySpec, HotkeyFault>(spec),
            Err(e) => assemble_model(texts(tokens@)) == Err::<HotkeySpec, HotkeyFault>(e@),
        },
{
    let mut modifiers: Modifiers = Modifiers::none();
    let mut key: Option<(u16, String)> = None;
    let mut i: usize = 0;
    assert(texts(tokens@).skip(0) =~= texts(tokens@));
    while i < tokens.len()
        invariant
            i <= tokens@.len(),
            assemble_model(texts(tokens@)) == scan(
                texts(tokens@).skip(i as int),
                partial_of(modifiers, key),
            ),
        decreases tokens@.len() - i,
    {
        let token: &Token = &tokens[i];
        proof {
            let rest = texts(tokens@).skip(i as int);
            assert(rest[0] == token@);
            assert(rest.skip(1) =~= texts(tokens@).skip(i + 1));
        }
        let name: Vec<char> = chars_of(token.name.as_str());
        match modifier_for(&name) {
            Some(m) => {
                modifiers = modifiers.with(m);
            },
            None => {
                match key {
                    Some((_, first)) => {
                        return Err(
                            HotkeyError::MultipleKeys { first, second: token.written.clone() },
                        );
                    },
                    None => {
                        match key_name_to_vk(token.name.as_str()) {
                            Ok(code) => {
                                key = Some((code, token.written.clone()));
                            },
                            Err(_) => {
                                return Err(
                                    HotkeyError::UnknownKey { token: token.written.clone() },
                                );
                            },
                        }
                    },
                }
            },
        }
        i = i + 1;
    }
    match key {
        Some((code, _)) => Ok(HotkeySpec { modifiers, key: code }),
        None => Err(HotkeyError::NoKey),
    }
}

/// Parses a shortcut such as `Ctrl+Alt+S`.
///
/// The text is cut at every `+`; white space around a piece and the case of
/// its letters do not matter. See `assemble` for what the pieces may be.
pub fn parse_hotkey(s: &str) -> (r: Result<HotkeySpec, HotkeyError>)
    ensures
        match r {
            Ok(spec) => parse_model(s@) == Ok::<HotkeySpec, HotkeyFault>(spec),
            Err(e) => parse_model(s@) == Err::<HotkeySpec, HotkeyFault>(e@),
        },
{
    let tokens: Vec<Token> = tokenize(s);
    assemble(&tokens)
}

/// The registration of the shortcut that toggles the output, for the text
/// of the shortcut as the settings hold it.
pub fn toggle_registration(hotkey: &str) -> (r: Result<Registration, HotkeyError>)
    ensures
        match r {
            Ok(registration) => parse_model(hotkey@) matches Ok(spec) && registration == (
            Registration {
                id: HOTKEY_TOGGLE,
                flags: (spec.modifiers.bits() + MOD_NOREPEAT) as u32,
                key: spec.key as u32,
            }),
            Err(e) => parse_model(hotkey@) == Err::<HotkeySpec, HotkeyFault>(e@),
        },
{
    match parse_hotkey(hotkey) {
        Ok(spec) => Ok(spec.registration(HOTKEY_TOGGLE)),
        Err(e) => Err(e),
    }
}

/// The registration of the shortcut that opens the settings.
pub fn options_registration() -> (r: Registration)
    ensures
        r == (Registration { id: HOTKEY_OPTIONS, flags: 0x4002, key: 0x4F }),
{
    options_hotkey().registration(HOTKEY_OPTIONS)
}

proof fn lemma_scan_swap(
    pre: Seq<TokenText>,
    x: TokenText,
    y: TokenText,
    post: Seq<TokenText>,
    acc: Partial,
)
    requires
        modifier_named(x.name) is Some,
    ensures
        scan(pre + seq![x, y] + post, acc) == scan(pre + seq![y, x] + post, acc),
    decreases pre.len(),
{
    let a = pre + seq![x, y] + post;
    let b = pre + seq![y, x] + post;
    if pre.len() == 0 {
        assert(a[0] == x && a.skip(1)[0] == y);
        assert(b[0] == y && b.skip(1)[0] == x);
        assert(a.skip(1).skip(1) =~= post);
        assert(b.skip(1).skip(1) =~= post);
        reveal_with_fuel(scan, 3);
    } else {
        assert(a[0] == pre[0] && b[0] == pre[0]);
        assert(a.skip(1) =~= pre.skip(1) + seq![x, y] + post);
        assert(b.skip(1) =~= pre.skip(1) + seq![y, x] + post);
        match absorb(acc, pre[0]) {
            Ok(next) => lemma_scan_swap(pre.skip(1), x, y, post, next),
            Err(_) => {},
        }
    }
}

proof fn lemma_scan_repeat(pre: Seq<TokenText>, x: TokenText, post: Seq<TokenText>, acc: Partial)
    requires
        modifier_named(x.name) is Some,
    ensures
        scan(pre + seq![x, x] + post, acc) == scan(pre + seq![x] + post, acc),
    decreases pre.len(),
{
    let a = pre + seq![x, x] + post;
    let b = pre + seq![x] + post;
    if pre.len() == 0 {
        assert(a[0] == x && a.skip(1)[0] == x);
        assert(b[0] == x);
        assert(a.skip(1).skip(1) =~= post);
        assert(b.skip(1) =~= post);
        reveal_with_fuel(scan, 3);
    } else {
        assert(a[0] == pre[0] && b[0] == pre[0]);
        assert(a.skip(1) =~= pre.skip(1) + seq![x, x] + post);
        assert(b.skip(1) =~= pre.skip(1) + seq![x] + post);
        match absorb(acc, pre[0]) {
            Ok(next) => lemma_scan_repeat(pre.skip(1), x, post, next),
            Err(_) => {},
        }
    }
}

/// The place of a modifier among the tokens does not matter: a token that
/// names a modifier can change places with the token after it, whatever
/// that is, and the tokens stand for the same shortcut or the same error.
pub proof fn lemma_modifier_order(
    pre: Seq<TokenText>,
    x: TokenText,
    y: TokenText,
    post: Seq<TokenText>,
)
    requires
        modifier_named(x.name) is Some,
    ensures
        assemble_model(pre + seq![x, y] + post) == assemble_model(pre + seq![y, x] + post),
{
    lemma_scan_swap(pre, x, y, post, nothing_read());
}

/// Naming a modifier twice is the same as naming it once.
pub proof fn lemma_modifier_repeated(pre: Seq<TokenText>, x: TokenText, post: Seq<TokenText>)
    requires
        modifier_named(x.name) is Some,
    ensures
        assemble_model(pre + seq![x, x] + post) == assemble_model(pre + seq![x] + post),
{
    lemma_scan_repeat(pre, x, post, nothing_read());
}

/// The key code of a shortcut is never zero, and it is one that some key
/// name stands for.
pub proof fn lemma_key_is_named(tokens: Seq<TokenText>)
    ensures
        assemble_model(tokens) matches Ok(spec) ==> spec.key != 0 && exists|i: int|
            0 <= i < tokens.len() && key_named(#[trigger] tokens[i].name) == Some(spec.key),
{
    if assemble_model(tokens) is Ok {
        assert(tokens.skip(0) =~= tokens);
        lemma_scan_key(tokens, nothing_read(), tokens, 0);
    }
}

proof fn lemma_scan_key(rest: Seq<TokenText>, acc: Partial, all: Seq<TokenText>, from: int)
    requires
        0 <= from <= all.len(),
        rest == all.skip(from),
        scan(rest, acc) is Ok,
        acc.key matches Some((code, _)) ==> code != 0 && exists|i: int|
            0 <= i < all.len() && key_named(#[trigger] all[i].name) == Some(code),
    ensures
        scan(rest, acc) matches Ok(spec) && spec.key != 0 && exists|i: int|
            0 <= i < all.len() && key_named(#[trigger] all[i].name) == Some(spec.key),
    decreases rest.len(),
{
    lemma_named_keys_are_not_zero();
    if rest.len() > 0 {
        assert(rest[0] == all[from]);
        assert(rest.skip(1) =~= all.skip(from + 1));
        let next = absorb(acc, rest[0])->Ok_0;
        lemma_scan_key(rest.skip(1), next, all, from + 1);
    }
}

/// No key name stands for the code zero.
pub proof fn lemma_named_keys_are_not_zero()
    ensures
        forall|name: Seq<char>| #[trigger] key_named(name) != Some(0u16),
{
}

} // verus!
