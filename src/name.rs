//! The name of a synchronisation object in the form the operating system reads:
//! UTF-16 units closed by a single zero unit.
use vstd::prelude::*;

verus! {

/// The UTF-16 units of one character: the character itself below 0x10000,
/// a surrogate pair above.
pub open spec fn char_units(c: char) -> Seq<u16> {
    let v = c as u32;
    if v < 0x1_0000 {
        seq![v as u16]
    } else {
        seq![
            (0xD800 + (v - 0x1_0000) / 0x400) as u16,
            (0xDC00 + (v - 0x1_0000) % 0x400) as u16,
        ]
    }
}

/// The UTF-16 encoding of a string.
pub open spec fn utf16(s: Seq<char>) -> Seq<u16>
    decreases s.len(),
{
    if s.len() == 0 {
        seq![]
    } else {
        utf16(s.drop_last()) + char_units(s.last())
    }
}

/// Longest name, in characters, whose encoding is certain to fit the 32-bit
/// length of an `HSTRING` (a character takes at most four bytes).
pub const MAX_NAME_CHARS: usize = 0x3FFF_FFFF;

/// Relies on `HSTRING::from(&str)` and `HSTRING::as_wide`: the UTF-16 units of
/// the name, without the terminating zero that `HSTRING` keeps past its end.
#[verifier::external_body]
fn encode_wide(name: &str) -> (r: Vec<u16>)
    requires
        name@.len() <= MAX_NAME_CHARS,
    ensures
        r@ == utf16(name@),
{
    windows::core::HSTRING::from(name).as_wide().to_vec()
}

/// Whether a sequence of units ends the name early: it holds a zero unit.
pub open spec fn has_nul_unit(w: Seq<u16>) -> bool {
    exists|i: int| 0 <= i < w.len() && w[i] == 0u16
}

/// Whether a name can be handed to the operating system unchanged: it fits
/// the encoder and holds no NUL character.
pub open spec fn name_valid(name: Seq<char>) -> bool {
    name.len() <= MAX_NAME_CHARS && forall|i: int| 0 <= i < name.len() ==> name[i] != '\0'
}

/// The zero-terminated wide form of a valid name.
pub open spec fn wide_name_spec(name: Seq<char>) -> Seq<u16> {
    utf16(name).push(0u16)
}

/// The encoding of a string holds a zero unit exactly where the string holds
/// a NUL character.
pub proof fn lemma_utf16_nul(s: Seq<char>)
    ensures
        has_nul_unit(utf16(s)) <==> exists|i: int| 0 <= i < s.len() && s[i] == '\0',
    decreases s.len(),
{
    if s.len() > 0 {
        let p = s.drop_last();
        let c = s.last();
        lemma_utf16_nul(p);
        let w = utf16(s);
        let wp = utf16(p);
        let u = char_units(c);
        assert(w == wp + u);
        if has_nul_unit(w) {
            let i = choose|i: int| 0 <= i < w.len() && w[i] == 0u16;
            if i < wp.len() {
                assert(wp[i] == 0u16);
                let k = choose|k: int| 0 <= k < p.len() && p[k] == '\0';
                assert(s[k] == '\0');
            } else {
                assert(u[i - wp.len()] == 0u16);
                let v = c as u32;
                vstd::utf8::char_is_scalar(c);
                assert(v < 0x1_0000);
                assert(v == 0);
                vstd::utf8::char_u32_cast(c, v);
                assert(c == '\0');
                assert(s[s.len() - 1] == '\0');
            }
        }
        if exists|i: int| 0 <= i < s.len() && s[i] == '\0' {
            let k = choose|k: int| 0 <= k < s.len() && s[k] == '\0';
            if k < p.len() {
                assert(p[k] == '\0');
                let i = choose|i: int| 0 <= i < wp.len() && wp[i] == 0u16;
                assert(w[i] == 0u16);
            } else {
                assert(c == '\0');
                assert(w[wp.len() as int] == 0u16);
            }
        }
    }
}

/// The units followed by a single zero, or `None` where a zero unit among
/// them would end the name early.
pub fn terminate_units(units: &Vec<u16>) -> (r: Option<Vec<u16>>)
    ensures
        r is Some <==> !has_nul_unit(units@),
        r matches Some(w) ==> w@ == units@.push(0u16),
{
    let mut out: Vec<u16> = Vec::new();
    let mut i: usize = 0;
    while i < units.len()
        invariant
            i <= units@.len(),
            out@ == units@.subrange(0, i as int),
            forall|k: int| 0 <= k < i ==> units@[k] != 0u16,
        decreases units@.len() - i,
    {
        let u = units[i];
        if u == 0 {
            return None;
        }
        out.push(u);
        i = i + 1;
        assert(out@ == units@.subrange(0, i as int));
    }
    assert(out@ == units@);
    out.push(0u16);
    Some(out)
}

/// The zero-terminated wide form of `name`, or `None` where the name is too long
/// to encode or holds a NUL character.
pub fn wide_name(name: &str) -> (r: Option<Vec<u16>>)
    ensures
        r is Some <==> name_valid(name@),
        r matches Some(w) ==> w@ == wide_name_spec(name@),
{
    if name.unicode_len() > MAX_NAME_CHARS {
        return None;
    }
    let units = encode_wide(name);
    proof {
        lemma_utf16_nul(name@);
    }
    terminate_units(&units)
}

} // verus!
