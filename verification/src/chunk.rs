//! Classification of a chunk buffer and the load-mode permission check.

use vstd::prelude::*;
use vstd::string::*;

verus! {

/// Whether a chunk buffer holds human-readable source text or a precompiled
/// binary chunk.
#[derive(Clone, Copy, Debug, PartialEq, Eq, Structural)]
pub enum ChunkClass {
    Text,
    Binary,
}

/// The lowest first byte that marks a chunk as source text. Precompiled
/// chunks begin with a header byte in the control-character range below the
/// newline character; this threshold is a fixed convention of the runtime's
/// chunk format.
pub const MIN_TEXT_FIRST_BYTE: u8 = 10;

/// How a buffer is classified, as a function of its first byte alone.
pub open spec fn classified(first: u8) -> ChunkClass {
    if first >= MIN_TEXT_FIRST_BYTE {
        ChunkClass::Text
    } else {
        ChunkClass::Binary
    }
}

/// Classify a chunk buffer by its first byte: at or above the newline
/// character means source text, below means a precompiled binary chunk.
pub fn classify(data: &[u8]) -> (c: ChunkClass)
    requires
        data@.len() >= 1,
    ensures
        c == classified(data@[0]),
        c is Text <==> data@[0] >= MIN_TEXT_FIRST_BYTE,
{
    if data[0] >= MIN_TEXT_FIRST_BYTE {
        ChunkClass::Text
    } else {
        ChunkClass::Binary
    }
}

/// The marker character a load mode must hold to permit a chunk class.
pub open spec fn marker(c: ChunkClass) -> char {
    match c {
        ChunkClass::Text => 't',
        ChunkClass::Binary => 'b',
    }
}

/// A load mode permits a chunk class when it holds the matching marker
/// character anywhere; characters outside the marker alphabet are ignored.
/// An absent mode permits every class.
pub open spec fn mode_permits(mode: Option<Seq<char>>, c: ChunkClass) -> bool {
    match mode {
        Option::None => true,
        Option::Some(m) => m.contains(marker(c)),
    }
}

/// The view of an optional mode string.
pub open spec fn mode_view(mode: Option<&str>) -> Option<Seq<char>> {
    match mode {
        Option::None => Option::None,
        Option::Some(s) => Option::Some(s@),
    }
}

/// Whether `s` holds the character `ch` anywhere.
fn str_contains_char(s: &str, ch: char) -> (r: bool)
    ensures
        r == s@.contains(ch),
{
    let n = s.unicode_len();
    let mut i: usize = 0;
    while i < n
        invariant
            n == s@.len(),
            i <= n,
            forall|j: int| 0 <= j < i ==> s@[j] != ch,
        decreases n - i,
    {
        if s.get_char(i) == ch {
            assert(s@[i as int] == ch);
            return true;
        }
        i = i + 1;
    }
    false
}

/// Whether the optional load mode permits a chunk of class `c`.
pub fn mode_allows(mode: Option<&str>, c: ChunkClass) -> (r: bool)
    ensures
        r == mode_permits(mode_view(mode), c),
{
    match mode {
        Option::None => true,
        Option::Some(m) => {
            let want = match c {
                ChunkClass::Text => 't',
                ChunkClass::Binary => 'b',
            };
            str_contains_char(m, want)
        },
    }
}

/// The diagnostic raised when a binary chunk is rejected by the load mode.
pub open spec fn binary_reject_message(mode: Seq<char>) -> Seq<char> {
    "attempt to load a binary chunk (mode is '"@ + mode + "')"@
}

/// The diagnostic raised when a text chunk is rejected by the load mode.
pub open spec fn text_reject_message(mode: Seq<char>) -> Seq<char> {
    "attempt to load a text chunk (mode is '"@ + mode + "')"@
}

/// The diagnostic raised when a chunk of class `c` is rejected by `mode`.
pub open spec fn reject_message(c: ChunkClass, mode: Seq<char>) -> Seq<char> {
    match c {
        ChunkClass::Text => text_reject_message(mode),
        ChunkClass::Binary => binary_reject_message(mode),
    }
}

/// Format the diagnostic for a chunk of class `c` rejected by `mode`. The
/// message embeds the rejected mode string verbatim.
pub fn format_reject_message(c: ChunkClass, mode: &str) -> (m: String)
    ensures
        m@ == reject_message(c, mode@),
{
    let mut m = match c {
        ChunkClass::Text => String::from_str("attempt to load a text chunk (mode is '"),
        ChunkClass::Binary => String::from_str("attempt to load a binary chunk (mode is '"),
    };
    m.append(mode);
    m.append("')");
    m
}

} // verus!
