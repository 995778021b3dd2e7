//! UTF-16 text, as the game's runtime and Windows hand it out.
use vstd::prelude::*;

verus! {

/// A leading (high) surrogate.
pub open spec fn is_high_surrogate(u: u16) -> bool {
    0xD800 <= u && u <= 0xDBFF
}

/// A trailing (low) surrogate.
pub open spec fn is_low_surrogate(u: u16) -> bool {
    0xDC00 <= u && u <= 0xDFFF
}

/// The character that a surrogate pair encodes.
pub open spec fn pair_char(high: u16, low: u16) -> char {
    ((0x10000 + (high - 0xD800) * 0x400 + (low - 0xDC00)) as u32) as char
}

/// The character of a unit outside the surrogate range.
pub open spec fn unit_char(u: u16) -> char {
    (u as u32) as char
}

/// Lossy UTF-16 decoding: a high surrogate followed by a low one is one
/// character, every other surrogate becomes U+FFFD, and every other unit
/// is the character of the same value.
pub open spec fn utf16_lossy(units: Seq<u16>) -> Seq<char>
    decreases units.len(),
{
    if units.len() == 0 {
        Seq::<char>::empty()
    } else if units.len() >= 2 && is_high_surrogate(units[0]) && is_low_surrogate(units[1]) {
        seq![pair_char(units[0], units[1])] + utf16_lossy(units.subrange(2, units.len() as int))
    } else if is_high_surrogate(units[0]) || is_low_surrogate(units[0]) {
        seq!['\u{FFFD}'] + utf16_lossy(units.drop_first())
    } else {
        seq![unit_char(units[0])] + utf16_lossy(units.drop_first())
    }
}

/// Every surrogate of `units` is part of a high-low pair.
pub open spec fn well_formed_utf16(units: Seq<u16>) -> bool
    decreases units.len(),
{
    if units.len() == 0 {
        true
    } else if is_high_surrogate(units[0]) {
        units.len() >= 2 && is_low_surrogate(units[1]) && well_formed_utf16(
            units.subrange(2, units.len() as int),
        )
    } else if is_low_surrogate(units[0]) {
        false
    } else {
        well_formed_utf16(units.drop_first())
    }
}

/// No unit of `units` is a surrogate.
pub open spec fn no_surrogates(units: Seq<u16>) -> bool {
    forall|i: int| 0 <= i < units.len() ==> (#[trigger] units[i] < 0xD800 || units[i] > 0xDFFF)
}

/// Text without surrogates decodes unit by unit.
pub proof fn lemma_lossy_without_surrogates(units: Seq<u16>)
    requires
        no_surrogates(units),
    ensures
        utf16_lossy(units) == units.map_values(|u: u16| (u as u32) as char),
        well_formed_utf16(units),
    decreases units.len(),
{
    if units.len() > 0 {
        let rest = units.drop_first();
        assert(units[0] < 0xD800 || units[0] > 0xDFFF);
        assert(no_surrogates(rest)) by {
            assert forall|i: int| 0 <= i < rest.len() implies (#[trigger] rest[i] < 0xD800
                || rest[i] > 0xDFFF) by {
                assert(rest[i] == units[i + 1]);
            }
        }
        lemma_lossy_without_surrogates(rest);
        assert(utf16_lossy(units) =~= units.map_values(|u: u16| (u as u32) as char));
    } else {
        assert(utf16_lossy(units) =~= units.map_values(|u: u16| (u as u32) as char));
    }
}

/// `String::from_utf16_lossy`: decodes `units` as UTF-16, replacing invalid
/// data (each unpaired surrogate) with U+FFFD.
#[verifier::external_body]
pub(crate) fn decode_utf16_lossy(units: &[u16]) -> (text: String)
    ensures
        text@ == utf16_lossy(units@),
{
    String::from_utf16_lossy(units)
}

/// `String::from_utf16`: decodes `units` as UTF-16, failing where they hold
/// invalid data (an unpaired surrogate).
#[verifier::external_body]
pub(crate) fn decode_utf16(units: &[u16]) -> (text: Option<String>)
    ensures
        text.is_some() <==> well_formed_utf16(units@),
        text matches Some(t) ==> t@ == utf16_lossy(units@),
{
    String::from_utf16(units).ok()
}

/// The path of a module as Windows reports it: `name` holds the UTF-16
/// units that `GetModuleFileNameW` wrote. No units means the call failed;
/// units that are no valid UTF-16 are no path that the plugin can use.
pub fn module_path_from_wide(name: &[u16]) -> (path: Option<String>)
    ensures
        path.is_some() <==> (name@.len() > 0 && well_formed_utf16(name@)),
        path matches Some(p) ==> p@ == utf16_lossy(name@),
{
    if name.len() == 0 {
        return None;
    }
    decode_utf16(name)
}

} // verus!
