//! The game's 8-bit character set and the decoding of fixed-length text fields.
use vstd::prelude::*;

verus! {

/// What one byte of the character set stands for.
#[derive(Copy, Clone, Debug, PartialEq, Eq, Structural)]
pub enum Encoding {
    /// A printable character.
    Char(char),
    /// A byte that stands for no character this decoder knows.
    Invalid,
    /// The terminator: the text ends here.
    End,
}

/// The glyph put in place of each byte that stands for no character.
pub const REPLACEMENT_CHARACTER: char = '\u{FFFD}';

/// The meaning of each byte of the character set.
pub open spec fn charmap(b: u8) -> Encoding {
    match b {
        0x00 => Encoding::Char(' '),
        0x01 => Encoding::Char('\u{C0}'),
        0x02 => Encoding::Char('\u{C1}'),
        0x03 => Encoding::Char('\u{C2}'),
        0x04 => Encoding::Char('\u{C7}'),
        0x05 => Encoding::Char('\u{C8}'),
        0x06 => Encoding::Char('\u{C9}'),
        0x07 => Encoding::Char('\u{CA}'),
        0x08 => Encoding::Char('\u{CB}'),
        0x09 => Encoding::Char('\u{CC}'),
        0x0B => Encoding::Char('\u{CE}'),
        0x0C => Encoding::Char('\u{CF}'),
        0x0D => Encoding::Char('\u{D2}'),
        0x0E => Encoding::Char('\u{D3}'),
        0x0F => Encoding::Char('\u{D4}'),
        0x10 => Encoding::Char('\u{152}'),
        0x11 => Encoding::Char('\u{D9}'),
        0x12 => Encoding::Char('\u{DA}'),
        0x13 => Encoding::Char('\u{DB}'),
        0x14 => Encoding::Char('\u{D1}'),
        0x15 => Encoding::Char('\u{DF}'),
        0x16 => Encoding::Char('\u{E0}'),
        0x17 => Encoding::Char('\u{E1}'),
        0x19 => Encoding::Char('\u{E7}'),
        0x1A => Encoding::Char('\u{E8}'),
        0x1B => Encoding::Char('e'),
        0x1C => Encoding::Char('\u{EA}'),
        0x1D => Encoding::Char('\u{EB}'),
        0x1E => Encoding::Char('\u{EC}'),
        0x20 => Encoding::Char('\u{EE}'),
        0x21 => Encoding::Char('\u{EF}'),
        0x22 => Encoding::Char('\u{F2}'),
        0x23 => Encoding::Char('\u{F3}'),
        0x24 => Encoding::Char('\u{F4}'),
        0x25 => Encoding::Char('\u{153}'),
        0x26 => Encoding::Char('\u{F9}'),
        0x27 => Encoding::Char('\u{FA}'),
        0x28 => Encoding::Char('\u{FB}'),
        0x29 => Encoding::Char('\u{F1}'),
        0x2A => Encoding::Char('\u{BA}'),
        0x2B => Encoding::Char('\u{AA}'),
        0x2D => Encoding::Char('&'),
        0x2E => Encoding::Char('+'),
        0x35 => Encoding::Char('='),
        0x36 => Encoding::Char(';'),
        0x51 => Encoding::Char('\u{BF}'),
        0x52 => Encoding::Char('\u{A1}'),
        0x5A => Encoding::Char('\u{CD}'),
        0x5B => Encoding::Char('%'),
        0x5C => Encoding::Char('('),
        0x5D => Encoding::Char(')'),
        0x68 => Encoding::Char('\u{E2}'),
        0x6F => Encoding::Char('\u{ED}'),
        0x85 => Encoding::Char('<'),
        0x86 => Encoding::Char('>'),
        0xA1 => Encoding::Char('0'),
        0xA2 => Encoding::Char('1'),
        0xA3 => Encoding::Char('2'),
        0xA4 => Encoding::Char('3'),
        0xA5 => Encoding::Char('4'),
        0xA6 => Encoding::Char('5'),
        0xA7 => Encoding::Char('6'),
        0xA8 => Encoding::Char('7'),
        0xA9 => Encoding::Char('8'),
        0xAA => Encoding::Char('9'),
        0xAB => Encoding::Char('!'),
        0xAC => Encoding::Char('?'),
        0xAD => Encoding::Char('.'),
        0xAE => Encoding::Char('-'),
        0xAF => Encoding::Char('\u{B7}'),
        0xB0 => Encoding::Char('\u{2026}'),
        0xB1 => Encoding::Char('\u{201C}'),
        0xB2 => Encoding::Char('\u{201D}'),
        0xB3 => Encoding::Char('\u{2018}'),
        0xB4 => Encoding::Char('\''),
        0xB5 => Encoding::Char('\u{2642}'),
        0xB6 => Encoding::Char('\u{2640}'),
        0xB7 => Encoding::Char('$'),
        0xB8 => Encoding::Char(','),
        0xB9 => Encoding::Char('*'),
        0xBA => Encoding::Char('/'),
        0xBB => Encoding::Char('A'),
        0xBC => Encoding::Char('B'),
        0xBD => Encoding::Char('C'),
        0xBE => Encoding::Char('D'),
        0xBF => Encoding::Char('E'),
        0xC0 => Encoding::Char('F'),
        0xC1 => Encoding::Char('G'),
        0xC2 => Encoding::Char('H'),
        0xC3 => Encoding::Char('I'),
        0xC4 => Encoding::Char('J'),
        0xC5 => Encoding::Char('K'),
        0xC6 => Encoding::Char('L'),
        0xC7 => Encoding::Char('M'),
        0xC8 => Encoding::Char('N'),
        0xC9 => Encoding::Char('O'),
        0xCA => Encoding::Char('P'),
        0xCB => Encoding::Char('Q'),
        0xCC => Encoding::Char('R'),
        0xCD => Encoding::Char('S'),
        0xCE => Encoding::Char('T'),
        0xCF => Encoding::Char('U'),
        0xD0 => Encoding::Char('V'),
        0xD1 => Encoding::Char('W'),
        0xD2 => Encoding::Char('X'),
        0xD3 => Encoding::Char('Y'),
        0xD4 => Encoding::Char('Z'),
        0xD5 => Encoding::Char('a'),
        0xD6 => Encoding::Char('b'),
        0xD7 => Encoding::Char('c'),
        0xD8 => Encoding::Char('d'),
        0xD9 => Encoding::Char('e'),
        0xDA => Encoding::Char('f'),
        0xDB => Encoding::Char('g'),
        0xDC => Encoding::Char('h'),
        0xDD => Encoding::Char('i'),
        0xDE => Encoding::Char('j'),
        0xDF => Encoding::Char('k'),
        0xE0 => Encoding::Char('l'),
        0xE1 => Encoding::Char('m'),
        0xE2 => Encoding::Char('n'),
        0xE3 => Encoding::Char('o'),
        0xE4 => Encoding::Char('p'),
        0xE5 => Encoding::Char('q'),
        0xE6 => Encoding::Char('r'),
        0xE7 => Encoding::Char('s'),
        0xE8 => Encoding::Char('t'),
        0xE9 => Encoding::Char('u'),
        0xEA => Encoding::Char('v'),
        0xEB => Encoding::Char('w'),
        0xEC => Encoding::Char('x'),
        0xED => Encoding::Char('y'),
        0xEE => Encoding::Char('z'),
        0xEF => Encoding::Char('\u{25B6}'),
        0xF0 => Encoding::Char(':'),
        0xF1 => Encoding::Char('\u{C4}'),
        0xF2 => Encoding::Char('\u{D6}'),
        0xF3 => Encoding::Char('\u{DC}'),
        0xF4 => Encoding::Char('\u{E4}'),
        0xF5 => Encoding::Char('\u{F6}'),
        0xF6 => Encoding::Char('\u{FC}'),
        0xFE => Encoding::Char('\n'),
        0xFF => Encoding::End,
        _ => Encoding::Invalid,
    }
}

/// Looks up what the byte `b` stands for.
pub fn decode_byte(b: u8) -> (r: Encoding)
    ensures
        r == charmap(b),
{
    match b {
        0x00 => Encoding::Char(' '),
        0x01 => Encoding::Char('\u{C0}'),
        0x02 => Encoding::Char('\u{C1}'),
        0x03 => Encoding::Char('\u{C2}'),
        0x04 => Encoding::Char('\u{C7}'),
        0x05 => Encoding::Char('\u{C8}'),
        0x06 => Encoding::Char('\u{C9}'),
        0x07 => Encoding::Char('\u{CA}'),
        0x08 => Encoding::Char('\u{CB}'),
        0x09 => Encoding::Char('\u{CC}'),
        0x0B => Encoding::Char('\u{CE}'),
        0x0C => Encoding::Char('\u{CF}'),
        0x0D => Encoding::Char('\u{D2}'),
        0x0E => Encoding::Char('\u{D3}'),
        0x0F => Encoding::Char('\u{D4}'),
        0x10 => Encoding::Char('\u{152}'),
        0x11 => Encoding::Char('\u{D9}'),
        0x12 => Encoding::Char('\u{DA}'),
        0x13 => Encoding::Char('\u{DB}'),
        0x14 => Encoding::Char('\u{D1}'),
        0x15 => Encoding::Char('\u{DF}'),
        0x16 => Encoding::Char('\u{E0}'),
        0x17 => Encoding::Char('\u{E1}'),
        0x19 => Encoding::Char('\u{E7}'),
        0x1A => Encoding::Char('\u{E8}'),
        0x1B => Encoding::Char('e'),
        0x1C => Encoding::Char('\u{EA}'),
        0x1D => Encoding::Char('\u{EB}'),
        0x1E => Encoding::Char('\u{EC}'),
        0x20 => Encoding::Char('\u{EE}'),
        0x21 => Encoding::Char('\u{EF}'),
        0x22 => Encoding::Char('\u{F2}'),
        0x23 => Encoding::Char('\u{F3}'),
        0x24 => Encoding::Char('\u{F4}'),
        0x25 => Encoding::Char('\u{153}'),
        0x26 => Encoding::Char('\u{F9}'),
        0x27 => Encoding::Char('\u{FA}'),
        0x28 => Encoding::Char('\u{FB}'),
        0x29 => Encoding::Char('\u{F1}'),
        0x2A => Encoding::Char('\u{BA}'),
        0x2B => Encoding::Char('\u{AA}'),
        0x2D => Encoding::Char('&'),
        0x2E => Encoding::Char('+'),
        0x35 => Encoding::Char('='),
        0x36 => Encoding::Char(';'),
        0x51 => Encoding::Char('\u{BF}'),
        0x52 => Encoding::Char('\u{A1}'),
        0x5A => Encoding::Char('\u{CD}'),
        0x5B => Encoding::Char('%'),
        0x5C => Encoding::Char('('),
        0x5D => Encoding::Char(')'),
        0x68 => Encoding::Char('\u{E2}'),
        0x6F => Encoding::Char('\u{ED}'),
        0x85 => Encoding::Char('<'),
        0x86 => Encoding::Char('>'),
        0xA1 => Encoding::Char('0'),
        0xA2 => Encoding::Char('1'),
        0xA3 => Encoding::Char('2'),
        0xA4 => Encoding::Char('3'),
        0xA5 => Encoding::Char('4'),
        0xA6 => Encoding::Char('5'),
        0xA7 => Encoding::Char('6'),
        0xA8 => Encoding::Char('7'),
        0xA9 => Encoding::Char('8'),
        0xAA => Encoding::Char('9'),
        0xAB => Encoding::Char('!'),
        0xAC => Encoding::Char('?'),
        0xAD => Encoding::Char('.'),
        0xAE => Encoding::Char('-'),
        0xAF => Encoding::Char('\u{B7}'),
        0xB0 => Encoding::Char('\u{2026}'),
        0xB1 => Encoding::Char('\u{201C}'),
        0xB2 => Encoding::Char('\u{201D}'),
        0xB3 => Encoding::Char('\u{2018}'),
        0xB4 => Encoding::Char('\''),
        0xB5 => Encoding::Char('\u{2642}'),
        0xB6 => Encoding::Char('\u{2640}'),
        0xB7 => Encoding::Char('$'),
        0xB8 => Encoding::Char(','),
        0xB9 => Encoding::Char('*'),
        0xBA => Encoding::Char('/'),
        0xBB => Encoding::Char('A'),
        0xBC => Encoding::Char('B'),
        0xBD => Encoding::Char('C'),
        0xBE => Encoding::Char('D'),
        0xBF => Encoding::Char('E'),
        0xC0 => Encoding::Char('F'),
        0xC1 => Encoding::Char('G'),
        0xC2 => Encoding::Char('H'),
        0xC3 => Encoding::Char('I'),
        0xC4 => Encoding::Char('J'),
        0xC5 => Encoding::Char('K'),
        0xC6 => Encoding::Char('L'),
        0xC7 => Encoding::Char('M'),
        0xC8 => Encoding::Char('N'),
        0xC9 => Encoding::Char('O'),
        0xCA => Encoding::Char('P'),
        0xCB => Encoding::Char('Q'),
        0xCC => Encoding::Char('R'),
        0xCD => Encoding::Char('S'),
        0xCE => Encoding::Char('T'),
        0xCF => Encoding::Char('U'),
        0xD0 => Encoding::Char('V'),
        0xD1 => Encoding::Char('W'),
        0xD2 => Encoding::Char('X'),
        0xD3 => Encoding::Char('Y'),
        0xD4 => Encoding::Char('Z'),
        0xD5 => Encoding::Char('a'),
        0xD6 => Encoding::Char('b'),
        0xD7 => Encoding::Char('c'),
        0xD8 => Encoding::Char('d'),
        0xD9 => Encoding::Char('e'),
        0xDA => Encoding::Char('f'),
        0xDB => Encoding::Char('g'),
        0xDC => Encoding::Char('h'),
        0xDD => Encoding::Char('i'),
        0xDE => Encoding::Char('j'),
        0xDF => Encoding::Char('k'),
        0xE0 => Encoding::Char('l'),
        0xE1 => Encoding::Char('m'),
        0xE2 => Encoding::Char('n'),
        0xE3 => Encoding::Char('o'),
        0xE4 => Encoding::Char('p'),
        0xE5 => Encoding::Char('q'),
        0xE6 => Encoding::Char('r'),
        0xE7 => Encoding::Char('s'),
        0xE8 => Encoding::Char('t'),
        0xE9 => Encoding::Char('u'),
        0xEA => Encoding::Char('v'),
        0xEB => Encoding::Char('w'),
        0xEC => Encoding::Char('x'),
        0xED => Encoding::Char('y'),
        0xEE => Encoding::Char('z'),
        0xEF => Encoding::Char('\u{25B6}'),
        0xF0 => Encoding::Char(':'),
        0xF1 => Encoding::Char('\u{C4}'),
        0xF2 => Encoding::Char('\u{D6}'),
        0xF3 => Encoding::Char('\u{DC}'),
        0xF4 => Encoding::Char('\u{E4}'),
        0xF5 => Encoding::Char('\u{F6}'),
        0xF6 => Encoding::Char('\u{FC}'),
        0xFE => Encoding::Char('\n'),
        0xFF => Encoding::End,
        _ => Encoding::Invalid,
    }
}

/// The text of `raw` decoded leniently: each byte that stands for no character gives
/// the replacement glyph, and the text stops before the first terminator.
pub open spec fn lossy_text(raw: Seq<u8>) -> Seq<char>
    decreases raw.len(),
{
    if raw.len() == 0 {
        Seq::empty()
    } else {
        match charmap(raw[0]) {
            Encoding::Char(c) => seq![c] + lossy_text(raw.drop_first()),
            Encoding::Invalid => seq![REPLACEMENT_CHARACTER] + lossy_text(raw.drop_first()),
            Encoding::End => Seq::empty(),
        }
    }
}

/// How a strict decode of a byte string ends.
pub enum StrictText {
    /// Every byte before the terminator (or the end) is a character: the text.
    Text(Seq<char>),
    /// The byte at `index` stands for no character; `valid` is the text before it.
    Failed { valid: Seq<char>, index: int },
}

/// The outcome of decoding `raw` strictly.
pub open spec fn strict_text(raw: Seq<u8>) -> StrictText
    decreases raw.len(),
{
    if raw.len() == 0 {
        StrictText::Text(Seq::empty())
    } else {
        match charmap(raw[0]) {
            Encoding::Char(c) => match strict_text(raw.drop_first()) {
                StrictText::Text(t) => StrictText::Text(seq![c] + t),
                StrictText::Failed { valid, index } => StrictText::Failed {
                    valid: seq![c] + valid,
                    index: index + 1,
                },
            },
            Encoding::Invalid => StrictText::Failed { valid: Seq::empty(), index: 0 },
            Encoding::End => StrictText::Text(Seq::empty()),
        }
    }
}

/// A strict decode that met a byte standing for no character.
#[derive(Debug)]
pub struct EncodingError {
    /// The text decoded before the offending byte.
    pub valid_string: String,
    /// The offending byte.
    pub invalid: u8,
    /// Its position in the input.
    pub error_index: usize,
}

/// Relies on std's `String::push`, which appends one character.
#[verifier::external_body]
fn push_char(s: &mut String, c: char)
    ensures
        final(s)@ == old(s)@.push(c),
{
    s.push(c)
}

/// Decodes `raw` up to its terminator, failing at the first byte that stands for no
/// character.
pub fn parse_string(raw: &[u8]) -> (r: Result<String, EncodingError>)
    ensures
        match r {
            Ok(s) => strict_text(raw@) == StrictText::Text(s@),
            Err(e) => strict_text(raw@) == (StrictText::Failed {
                valid: e.valid_string@,
                index: e.error_index as int,
            }) && e.error_index < raw@.len() && e.invalid == raw@[e.error_index as int],
        },
{
    let mut acc = String::new();
    let mut i: usize = 0;
    proof {
        assert(raw@.subrange(0, raw@.len() as int) =~= raw@);
        match strict_text(raw@) {
            StrictText::Text(t) => assert(acc@ + t =~= t),
            StrictText::Failed { valid, index } => assert(acc@ + valid =~= valid),
        }
    }
    while i < raw.len()
        invariant
            i <= raw@.len(),
            strict_text(raw@) == match strict_text(raw@.subrange(i as int, raw@.len() as int)) {
                StrictText::Text(t) => StrictText::Text(acc@ + t),
                StrictText::Failed { valid, index } => StrictText::Failed {
                    valid: acc@ + valid,
                    index: index + i,
                },
            },
        decreases raw@.len() - i,
    {
        let ghost rest = raw@.subrange(i as int, raw@.len() as int);
        assert(rest.drop_first() =~= raw@.subrange(i + 1, raw@.len() as int));
        match decode_byte(raw[i]) {
            Encoding::Char(c) => {
                proof {
                    assert(acc@.push(c) =~= acc@ + seq![c]);
                    match strict_text(rest.drop_first()) {
                        StrictText::Text(t) => {
                            assert(acc@ + (seq![c] + t) =~= acc@.push(c) + t);
                        },
                        StrictText::Failed { valid, index } => {
                            assert(acc@ + (seq![c] + valid) =~= acc@.push(c) + valid);
                        },
                    }
                }
                push_char(&mut acc, c);
            },
            Encoding::Invalid => {
                assert(acc@ + Seq::<char>::empty() =~= acc@);
                return Err(EncodingError { valid_string: acc, invalid: raw[i], error_index: i });
            },
            Encoding::End => {
                assert(acc@ + Seq::<char>::empty() =~= acc@);
                return Ok(acc);
            },
        }
        i += 1;
    }
    assert(acc@ + Seq::<char>::empty() =~= acc@);
    Ok(acc)
}

/// Decodes `raw` up to its terminator, putting the replacement glyph in place of each
/// byte that stands for no character.
pub fn parse_string_lossy(raw: &[u8]) -> (r: String)
    ensures
        r@ == lossy_text(raw@),
{
    let mut result = String::new();
    let mut i: usize = 0;
    assert(raw@.subrange(0, raw@.len() as int) =~= raw@);
    assert(result@ + lossy_text(raw@) =~= lossy_text(raw@));
    while i < raw.len()
        invariant
            i <= raw@.len(),
            lossy_text(raw@) == result@ + lossy_text(raw@.subrange(i as int, raw@.len() as int)),
        decreases raw@.len() - i,
    {
        let ghost rest = raw@.subrange(i as int, raw@.len() as int);
        assert(rest.drop_first() =~= raw@.subrange(i + 1, raw@.len() as int));
        let c = match decode_byte(raw[i]) {
            Encoding::Char(c) => c,
            Encoding::Invalid => REPLACEMENT_CHARACTER,
            Encoding::End => {
                assert(result@ + Seq::<char>::empty() =~= result@);
                return result;
            },
        };
        assert(result@ + (seq![c] + lossy_text(rest.drop_first())) =~= result@.push(c)
            + lossy_text(rest.drop_first()));
        push_char(&mut result, c);
        i += 1;
    }
    assert(result@ + Seq::<char>::empty() =~= result@);
    result
}

} // verus!
