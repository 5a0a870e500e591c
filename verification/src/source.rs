use vstd::prelude::*;

use crate::text::{all_ascii, ascii_lower, lowercase, text_eq, to_lower};

verus! {

/// Where the routed audio comes from.
#[derive(Debug, Clone, PartialEq, Eq, Structural)]
pub enum SourceType {
    /// A physical input device (microphone, line-in).
    InputDevice,
    /// The system's playback, captured by loopback.
    Loopback,
}

/// The source type a text names: "loopback" in any case is `Loopback`,
/// anything else `InputDevice`.
pub open spec fn source_type_of(s: Seq<char>) -> SourceType {
    if lowercase(s) == "loopback"@ { SourceType::Loopback } else { SourceType::InputDevice }
}

/// The source type an ASCII text names (ASCII case folding).
pub open spec fn ascii_source_type_of(s: Seq<char>) -> SourceType {
    if ascii_lower(s) == "loopback"@ { SourceType::Loopback } else { SourceType::InputDevice }
}

/// The text of a source type.
pub open spec fn source_type_text(t: SourceType) -> Seq<char> {
    match t {
        SourceType::InputDevice => "input"@,
        SourceType::Loopback => "loopback"@,
    }
}

impl SourceType {
    /// Parses a source type: "loopback" (in any case) is `Loopback`,
    /// anything else is `InputDevice`.
    pub fn from_str(s: &str) -> (t: SourceType)
        ensures
            t == source_type_of(s@),
            all_ascii(s@) ==> t == ascii_source_type_of(s@),
    {
        let lower = to_lower(s);
        if text_eq(lower.as_str(), "loopback") {
            SourceType::Loopback
        } else {
            SourceType::InputDevice
        }
    }

    /// The source type's text: "input" or "loopback".
    pub fn as_str(&self) -> (s: &'static str)
        ensures
            s@ == source_type_text(*self),
    {
        match self {
            SourceType::InputDevice => "input",
            SourceType::Loopback => "loopback",
        }
    }

    /// Whether this is loopback capture.
    pub fn is_loopback(&self) -> (r: bool)
        ensures
            r == (*self == SourceType::Loopback),
    {
        match self {
            SourceType::Loopback => true,
            SourceType::InputDevice => false,
        }
    }
}

impl Default for SourceType {
    fn default() -> (r: Self)
        ensures
            r == SourceType::InputDevice,
    {
        SourceType::InputDevice
    }
}

/// Parsing the text of a source type (with ASCII case folding) gives the
/// source type back.
pub proof fn lemma_source_type_round_trip(t: SourceType)
    ensures
        all_ascii(source_type_text(t)),
        ascii_source_type_of(source_type_text(t)) == t,
{
    reveal_strlit("input");
    reveal_strlit("loopback");
    let s = source_type_text(t);
    assert(ascii_lower(s) =~= s);
    if t == SourceType::InputDevice {
        assert(s != "loopback"@) by {
            assert(s.len() != "loopback"@.len());
        }
    }
}

/// The guidance text for platforms without native loopback capture.
pub open spec fn loopback_unsupported_text() -> Seq<char> {
    "当前平台不支持直接 Loopback 音频回采。\n解决方案：\n- macOS: 安装 BlackHole 虚拟声卡 (https://github.com/ExistentialAudio/BlackHole)\n- Linux: 使用 PulseAudio monitor source 或 PipeWire"@
}

/// Guidance shown where loopback capture is not supported natively.
pub fn loopback_unsupported_message() -> (m: &'static str)
    ensures
        m@ == loopback_unsupported_text(),
{
    "当前平台不支持直接 Loopback 音频回采。\n解决方案：\n- macOS: 安装 BlackHole 虚拟声卡 (https://github.com/ExistentialAudio/BlackHole)\n- Linux: 使用 PulseAudio monitor source 或 PipeWire"
}

} // verus!
