//! User-facing configuration: output mode, hotkey and model choice.

use vstd::prelude::*;
use vstd::string::StringExecFns;
use crate::text::{hex_digits, join, joined, push_char, push_hex, texts};

verus! {

/// The model used when none is configured.
pub const DEFAULT_MODEL: &'static str = "gemini-2.0-flash";

/// Virtual-key code of the Shift modifier.
pub const VK_SHIFT: i32 = 0x10;

/// Virtual-key code of the Control modifier.
pub const VK_CONTROL: i32 = 0x11;

/// Virtual-key code of the Alt (menu) modifier.
pub const VK_MENU: i32 = 0x12;

/// Whether a virtual-key code names one of the tracked modifier keys.
pub open spec fn is_modifier_key(code: i32) -> bool {
    code == VK_SHIFT || code == VK_CONTROL || code == VK_MENU
}

/// How many presses of the main key make up one activation.
#[derive(Clone, Copy, Debug, PartialEq, Eq, Structural)]
pub enum PressMode {
    SinglePress,
    DoublePress,
}

/// A hotkey: the modifiers that must be held, exactly, and the main key.
#[derive(Clone, Copy, Debug, PartialEq, Eq, Structural)]
pub struct Hotkey {
    pub ctrl: bool,
    pub alt: bool,
    pub shift: bool,
    pub key_code: i32,
    pub mode: PressMode,
}

impl Hotkey {
    /// The main key of a valid hotkey is never itself a modifier.
    pub open spec fn valid(&self) -> bool {
        !is_modifier_key(self.key_code)
    }

    /// Executable form of [`Hotkey::valid`].
    pub fn is_valid(&self) -> (r: bool)
        ensures
            r == self.valid(),
    {
        self.key_code != VK_SHIFT && self.key_code != VK_CONTROL && self.key_code != VK_MENU
    }
}

/// How much the translation says.
#[derive(Clone, Copy, Debug, PartialEq, Eq, Structural)]
pub enum OutputMode {
    Detailed,
    Concise,
}

impl OutputMode {
    /// The text shown for this mode in the settings window.
    pub open spec fn label_text(self) -> Seq<char> {
        match self {
            OutputMode::Detailed => "詳細（言語判定・翻訳・スラング解説・要約）"@,
            OutputMode::Concise => "簡潔（5行以内で要点のみ）"@,
        }
    }

    /// The text shown for this mode in the settings window.
    pub fn label(&self) -> (text: &'static str)
        ensures
            text@ == self.label_text(),
    {
        match self {
            OutputMode::Detailed => "詳細（言語判定・翻訳・スラング解説・要約）",
            OutputMode::Concise => "簡潔（5行以内で要点のみ）",
        }
    }

    /// Every mode, in the order in which the settings window lists them.
    pub fn all() -> (modes: &'static [OutputMode])
        ensures
            modes@ == seq![OutputMode::Detailed, OutputMode::Concise],
    {
        let modes: &'static [OutputMode] = &[OutputMode::Detailed, OutputMode::Concise];
        proof {
            assert(modes@ =~= seq![OutputMode::Detailed, OutputMode::Concise]);
        }
        modes
    }
}

impl Default for OutputMode {
    fn default() -> (mode: Self)
        ensures
            mode == OutputMode::Detailed,
    {
        OutputMode::Detailed
    }
}

/// The key code read as an unsigned 32-bit number.
pub open spec fn unsigned_code(key_code: i32) -> nat {
    if key_code >= 0 {
        key_code as nat
    } else {
        (key_code + 0x1_0000_0000) as nat
    }
}

/// Whether the key code is that of a letter or a digit key, which is also
/// the code of the character on it.
pub open spec fn is_alphanumeric_key(key_code: i32) -> bool {
    0x41 <= key_code <= 0x5A || 0x30 <= key_code <= 0x39
}

/// The display name of a key: the character of a letter or digit key, else
/// `Key` and the code in upper-case hexadecimal.
pub open spec fn key_name(key_code: i32) -> Seq<char> {
    if is_alphanumeric_key(key_code) {
        seq![(key_code as u8) as char]
    } else {
        "Key"@ + hex_digits(unsigned_code(key_code))
    }
}

/// The names of the modifiers a hotkey asks for, in display order.
pub open spec fn modifier_names(hotkey: Hotkey) -> Seq<Seq<char>> {
    (if hotkey.ctrl {
        seq!["Ctrl"@]
    } else {
        Seq::empty()
    }) + (if hotkey.alt {
        seq!["Alt"@]
    } else {
        Seq::empty()
    }) + (if hotkey.shift {
        seq!["Shift"@]
    } else {
        Seq::empty()
    })
}

/// The display text of a hotkey: its modifiers and its key, joined by `+`.
pub open spec fn hotkey_text(hotkey: Hotkey) -> Seq<char> {
    joined(modifier_names(hotkey).push(key_name(hotkey.key_code)), "+"@)
}

/// The display name of a key.
pub fn key_display_name(key_code: i32) -> (name: String)
    ensures
        name@ == key_name(key_code),
{
    if (0x41 <= key_code && key_code <= 0x5A) || (0x30 <= key_code && key_code <= 0x39) {
        let mut name = String::new();
        push_char(&mut name, (key_code as u8) as char);
        proof {
            assert(name@ =~= seq![(key_code as u8) as char]);
        }
        name
    } else {
        let unsigned: u64 = if key_code >= 0 {
            key_code as u64
        } else {
            (key_code as i64 + 0x1_0000_0000) as u64
        };
        let mut name = String::from_str("Key");
        push_hex(&mut name, unsigned);
        name
    }
}

impl Hotkey {
    /// The display text of the hotkey, such as `Ctrl+Shift+T`.
    pub fn to_string(&self) -> (text: String)
        ensures
            text@ == hotkey_text(*self),
    {
        let mut parts: Vec<String> = Vec::new();
        if self.ctrl {
            parts.push(String::from_str("Ctrl"));
        }
        if self.alt {
            parts.push(String::from_str("Alt"));
        }
        if self.shift {
            parts.push(String::from_str("Shift"));
        }
        proof {
            assert(texts(parts@) =~= modifier_names(*self));
        }
        let ghost before = parts@;
        let name = key_display_name(self.key_code);
        parts.push(name);
        proof {
            assert(texts(parts@) =~= texts(before).push(key_name(self.key_code)));
        }
        join(&parts, "+")
    }
}

impl Default for Hotkey {
    /// Ctrl+C, pressed twice.
    fn default() -> (hotkey: Self)
        ensures
            hotkey == (Hotkey {
                ctrl: true,
                alt: false,
                shift: false,
                key_code: 0x43,
                mode: PressMode::DoublePress,
            }),
    {
        Hotkey { ctrl: true, alt: false, shift: false, key_code: 0x43, mode: PressMode::DoublePress }
    }
}

/// The settings of the program. The API key is kept apart from the rest
/// when the settings are stored.
#[derive(Clone, Debug, PartialEq, Eq)]
pub struct Config {
    pub api_key: String,
    pub model: String,
    pub output_mode: OutputMode,
    pub hotkey: Hotkey,
}

/// The name of the default model.
pub fn default_model() -> (model: String)
    ensures
        model@ == DEFAULT_MODEL@,
{
    String::from_str(DEFAULT_MODEL)
}

impl Default for Config {
    fn default() -> (config: Self)
        ensures
            config.api_key@ == Seq::<char>::empty(),
            config.model@ == DEFAULT_MODEL@,
            config.output_mode == OutputMode::Detailed,
            config.hotkey == (Hotkey {
                ctrl: true,
                alt: false,
                shift: false,
                key_code: 0x43,
                mode: PressMode::DoublePress,
            }),
    {
        Config {
            api_key: String::new(),
            model: default_model(),
            output_mode: OutputMode::Detailed,
            hotkey: Hotkey {
                ctrl: true,
                alt: false,
                shift: false,
                key_code: 0x43,
                mode: PressMode::DoublePress,
            },
        }
    }
}

/// The models offered when the provider's list cannot be fetched.
pub open spec fn fallback_model_names() -> Seq<Seq<char>> {
    seq!["gemini-2.0-flash"@, "gemini-2.0-flash-lite"@, "gemini-1.5-flash"@, "gemini-1.5-pro"@]
}

/// The models offered when the provider's list cannot be fetched.
pub fn get_fallback_models() -> (models: Vec<String>)
    ensures
        texts(models@) == fallback_model_names(),
{
    let mut models: Vec<String> = Vec::new();
    models.push(String::from_str("gemini-2.0-flash"));
    models.push(String::from_str("gemini-2.0-flash-lite"));
    models.push(String::from_str("gemini-1.5-flash"));
    models.push(String::from_str("gemini-1.5-pro"));
    proof {
        assert(texts(models@) =~= fallback_model_names());
    }
    models
}


/// The text of an optional string.
pub open spec fn option_text(s: Option<String>) -> Option<Seq<char>> {
    match s {
        Some(text) => Some(text@),
        None => None,
    }
}

/// The string that `content`, read as JSON, holds under the member `name`
/// of its top-level object; `None` where it holds none. The value stands
/// for what `serde_json` computes from the two texts.
pub uninterp spec fn json_member_text(content: Seq<char>, name: Seq<char>) -> Option<Seq<char>>;

/// Reads `content` with `serde_json::from_str` into a `serde_json::Value`,
/// looks `name` up with `Value::get` and takes the string out with
/// `Value::as_str`. The contract claims one thing: the result is a function
/// of the two texts, named [`json_member_text`]. A text that is no JSON, no
/// object, or has no string under `name` gives `None`; of that the contract
/// says nothing.
#[verifier::external_body]
fn json_member(content: &str, name: &str) -> (found: Option<String>)
    ensures
        option_text(found) == json_member_text(content@, name@),
{
    match serde_json::from_str::<serde_json::Value>(content) {
        Ok(value) => match value.get(name) {
            Some(member) => match member.as_str() {
                Some(text) => Some(text.to_string()),
                None => None,
            },
            None => None,
        },
        Err(_) => None,
    }
}

/// The API key that has to move from the settings file to the credential
/// store, given what the file holds under `api_key`: the key, unless there
/// is none or it is empty.
pub open spec fn key_to_move(found: Option<Seq<char>>) -> Option<Seq<char>> {
    match found {
        Some(key) => if key.len() > 0 {
            Some(key)
        } else {
            None
        },
        None => None,
    }
}

/// Decides whether a key found in the settings file has to move to the
/// credential store.
pub fn api_key_to_move(found: Option<String>) -> (key: Option<String>)
    ensures
        option_text(key) == key_to_move(option_text(found)),
{
    match found {
        Some(key) => if key.as_str().is_empty() {
            None
        } else {
            Some(key)
        },
        None => None,
    }
}

/// The API key that the settings file `content` still carries and that has
/// to move to the credential store, if any.
pub fn stored_api_key(content: &str) -> (key: Option<String>)
    ensures
        option_text(key) == key_to_move(json_member_text(content@, "api_key"@)),
{
    api_key_to_move(json_member(content, "api_key"))
}


} // verus!
