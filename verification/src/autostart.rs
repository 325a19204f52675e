//! Launch at login: the registry value that names the executable.
use vstd::prelude::*;

verus! {

/// The UTF-16 code units of a character: one unit below U+10000, else a
/// surrogate pair.
pub open spec fn utf16_units(c: char) -> Seq<u16> {
    let v = c as u32;
    if v < 0x10000 {
        seq![v as u16]
    } else {
        let w = (v - 0x10000) as u32;
        seq![(0xD800 + w / 0x400) as u16, (0xDC00 + w % 0x400) as u16]
    }
}

/// The two bytes of a 16-bit unit, low byte first.
pub open spec fn le_bytes_of_unit(u: u16) -> Seq<u8> {
    seq![(u % 0x100) as u8, (u / 0x100) as u8]
}

/// The UTF-16LE bytes of one character.
pub open spec fn utf16le_char(c: char) -> Seq<u8> {
    let units = utf16_units(c);
    if units.len() == 1 {
        le_bytes_of_unit(units[0])
    } else {
        le_bytes_of_unit(units[0]) + le_bytes_of_unit(units[1])
    }
}

/// The UTF-16LE bytes of a text.
pub open spec fn utf16le(s: Seq<char>) -> Seq<u8>
    decreases s.len(),
{
    if s.len() == 0 {
        seq![]
    } else {
        utf16le(s.drop_last()) + utf16le_char(s.last())
    }
}

/// The data of a `REG_SZ` registry value holding `s`: UTF-16LE followed by a
/// NUL unit.
pub open spec fn reg_sz_data(s: Seq<char>) -> Seq<u8> {
    utf16le(s) + seq![0u8, 0u8]
}

fn push_unit(bytes: &mut Vec<u8>, u: u16)
    ensures
        final(bytes)@ == old(bytes)@ + le_bytes_of_unit(u),
{
    bytes.push((u % 0x100) as u8);
    bytes.push((u / 0x100) as u8);
    assert(final(bytes)@ =~= old(bytes)@ + le_bytes_of_unit(u));
}

/// The data of the `REG_SZ` value that registers `exe_path` to run at login:
/// the path in UTF-16 with a terminating NUL, as little-endian bytes.
pub fn reg_sz_value(exe_path: &str) -> (data: Vec<u8>)
    ensures
        data@ == reg_sz_data(exe_path@),
{
    let mut data: Vec<u8> = Vec::new();
    for c in it: exe_path.chars()
        invariant
            it.seq() == exe_path@,
            data@ == utf16le(it.seq().take(it.index() as int)),
    {
        proof {
            assert(it.seq().take(it.index() + 1).drop_last() =~= it.seq().take(it.index() as int));
            vstd::utf8::char_is_scalar(c);
        }
        let ghost before = data@;
        let v = c as u32;
        if v < 0x10000 {
            push_unit(&mut data, v as u16);
        } else {
            let w = v - 0x10000;
            push_unit(&mut data, (0xD800 + w / 0x400) as u16);
            push_unit(&mut data, (0xDC00 + w % 0x400) as u16);
        }
        proof {
            assert(data@ =~= before + utf16le_char(c));
        }
    }
    push_unit(&mut data, 0);
    proof {
        assert(exe_path@.take(exe_path@.len() as int) =~= exe_path@);
    }
    data
}

} // verus!
