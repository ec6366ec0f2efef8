//! The 128-bit identifier of a provider or an activity: its fields, its byte
//! forms, its text form, and the identifier that a provider's name gives.

use crate::encoding::{
    be_bytes, be_bytes_of_2, be_bytes_of_4, le_bytes, le_bytes_of_2, le_bytes_of_4, put_uint_le,
};
use vstd::prelude::*;
use vstd::string::{StrSliceExecFns, StringExecFns};

verus! {

/// A 128-bit globally unique identifier, in the four fields in which its text
/// form groups it.
#[derive(Debug, Eq, PartialOrd, Ord, Hash)]
pub struct GUID {
    /// Contains bytes 0-3 (inclusive) of the GUID.
    pub data1: u32,
    /// Contains bytes 4-5 (inclusive) of the GUID.
    pub data2: u16,
    /// Contains bytes 6-7 (inclusive) of the GUID.
    pub data3: u16,
    /// Contains bytes 8-15 (inclusive) of the GUID.
    pub data4: [u8; 8],
}

impl PartialEq for GUID {
    fn eq(&self, other: &GUID) -> (r: bool) {
        let mut same: bool = self.data1 == other.data1 && self.data2 == other.data2 && self.data3
            == other.data3;
        let mut i: usize = 0;
        proof {
            assert(self.data4@.subrange(0, 0) =~= other.data4@.subrange(0, 0));
        }
        while i < 8
            invariant
                i <= 8,
                same == (self.data1 == other.data1 && self.data2 == other.data2 && self.data3
                    == other.data3 && self.data4@.subrange(0, i as int) == other.data4@.subrange(
                    0,
                    i as int,
                )),
            decreases 8 - i,
        {
            proof {
                let mine = self.data4@.subrange(0, i as int + 1);
                let theirs = other.data4@.subrange(0, i as int + 1);
                assert(mine.drop_last() =~= self.data4@.subrange(0, i as int));
                assert(theirs.drop_last() =~= other.data4@.subrange(0, i as int));
                assert(mine.last() == self.data4@[i as int]);
                assert(theirs.last() == other.data4@[i as int]);
                if mine.drop_last() == theirs.drop_last() && mine.last() == theirs.last() {
                    assert(mine =~= theirs);
                }
            }
            if self.data4[i] != other.data4[i] {
                same = false;
            }
            i = i + 1;
        }
        proof {
            assert(self.data4@.subrange(0, 8) =~= self.data4@);
            assert(other.data4@.subrange(0, 8) =~= other.data4@);
        }
        same
    }
}

impl vstd::std_specs::cmp::PartialEqSpecImpl for GUID {
    open spec fn obeys_eq_spec() -> bool {
        true
    }

    open spec fn eq_spec(&self, other: &GUID) -> bool {
        self.data1 == other.data1 && self.data2 == other.data2 && self.data3 == other.data3
            && self.data4@ == other.data4@
    }
}

impl Clone for GUID {
    fn clone(&self) -> (copy: GUID)
        ensures
            copy == *self,
    {
        GUID { data1: self.data1, data2: self.data2, data3: self.data3, data4: self.data4 }
    }
}

impl Default for GUID {
    fn default() -> (g: GUID)
        ensures
            g.is_nil_spec(),
    {
        GUID { data1: 0, data2: 0, data3: 0, data4: [0, 0, 0, 0, 0, 0, 0, 0] }
    }
}

/// The lower-case hexadecimal digit for a number below sixteen.
pub open spec fn hex_digit(n: int) -> char {
    if n == 0 {
        '0'
    } else if n == 1 {
        '1'
    } else if n == 2 {
        '2'
    } else if n == 3 {
        '3'
    } else if n == 4 {
        '4'
    } else if n == 5 {
        '5'
    } else if n == 6 {
        '6'
    } else if n == 7 {
        '7'
    } else if n == 8 {
        '8'
    } else if n == 9 {
        '9'
    } else if n == 10 {
        'a'
    } else if n == 11 {
        'b'
    } else if n == 12 {
        'c'
    } else if n == 13 {
        'd'
    } else if n == 14 {
        'e'
    } else {
        'f'
    }
}

/// The bytes written as two lower-case hexadecimal digits each.
pub open spec fn hex_text(bytes: Seq<u8>) -> Seq<char>
    decreases bytes.len(),
{
    if bytes.len() == 0 {
        Seq::<char>::empty()
    } else {
        hex_text(bytes.drop_last()).push(hex_digit(bytes.last() as int / 16)).push(
            hex_digit(bytes.last() as int % 16),
        )
    }
}

/// The canonical text of sixteen bytes: the bytes in lower-case hexadecimal,
/// in groups of eight, four, four, four and twelve digits with a hyphen
/// between them.
pub open spec fn canonical_text(bytes: Seq<u8>) -> Seq<char> {
    hex_text(bytes.subrange(0, 4)).push('-') + hex_text(bytes.subrange(4, 6)).push('-') + hex_text(
        bytes.subrange(6, 8),
    ).push('-') + hex_text(bytes.subrange(8, 10)).push('-') + hex_text(bytes.subrange(10, 16))
}

/// Bytes in hexadecimal take two digits each.
pub proof fn hex_text_len(bytes: Seq<u8>)
    ensures
        hex_text(bytes).len() == 2 * bytes.len(),
    decreases bytes.len(),
{
    if bytes.len() > 0 {
        hex_text_len(bytes.drop_last());
    }
}

/// Whether a character is a lower-case hexadecimal digit.
pub open spec fn is_lower_hex(c: char) -> bool {
    ('0' <= c && c <= '9') || ('a' <= c && c <= 'f')
}

/// Bytes in hexadecimal are written in lower-case hexadecimal digits alone.
pub proof fn hex_text_digits(bytes: Seq<u8>)
    ensures
        forall|i: int| 0 <= i < hex_text(bytes).len() ==> is_lower_hex(#[trigger] hex_text(bytes)[i]),
    decreases bytes.len(),
{
    if bytes.len() > 0 {
        hex_text_digits(bytes.drop_last());
        hex_text_len(bytes.drop_last());
        assert(is_lower_hex(hex_digit(bytes.last() as int / 16)));
        assert(is_lower_hex(hex_digit(bytes.last() as int % 16)));
    }
}

/// The canonical text of sixteen bytes has 36 characters: hyphens at the
/// ninth, fourteenth, nineteenth and twenty-fourth place, and lower-case
/// hexadecimal digits at every other.
pub proof fn canonical_text_shape(bytes: Seq<u8>)
    requires
        bytes.len() == 16,
    ensures
        canonical_text(bytes).len() == 36,
        forall|i: int|
            0 <= i < 36 ==> if i == 8 || i == 13 || i == 18 || i == 23 {
                #[trigger] canonical_text(bytes)[i] == '-'
            } else {
                is_lower_hex(canonical_text(bytes)[i])
            },
{
    let a = hex_text(bytes.subrange(0, 4));
    let b = hex_text(bytes.subrange(4, 6));
    let c = hex_text(bytes.subrange(6, 8));
    let d = hex_text(bytes.subrange(8, 10));
    let e = hex_text(bytes.subrange(10, 16));
    hex_text_len(bytes.subrange(0, 4));
    hex_text_len(bytes.subrange(4, 6));
    hex_text_len(bytes.subrange(6, 8));
    hex_text_len(bytes.subrange(8, 10));
    hex_text_len(bytes.subrange(10, 16));
    hex_text_digits(bytes.subrange(0, 4));
    hex_text_digits(bytes.subrange(4, 6));
    hex_text_digits(bytes.subrange(6, 8));
    hex_text_digits(bytes.subrange(8, 10));
    hex_text_digits(bytes.subrange(10, 16));
    let text = canonical_text(bytes);
    assert forall|i: int| 0 <= i < 36 implies if i == 8 || i == 13 || i == 18 || i == 23 {
        #[trigger] text[i] == '-'
    } else {
        is_lower_hex(text[i])
    } by {
        if i < 8 {
            assert(text[i] == a[i]);
        } else if 8 < i < 13 {
            assert(text[i] == b[i - 9]);
        } else if 13 < i < 18 {
            assert(text[i] == c[i - 14]);
        } else if 18 < i < 23 {
            assert(text[i] == d[i - 19]);
        } else if 23 < i {
            assert(text[i] == e[i - 24]);
        }
    }
}

impl GUID {
    /// Whether every bit of the identifier is zero.
    pub open spec fn is_nil_spec(&self) -> bool {
        self.data1 == 0 && self.data2 == 0 && self.data3 == 0 && self.data4@ == seq![
            0u8,
            0u8,
            0u8,
            0u8,
            0u8,
            0u8,
            0u8,
            0u8,
        ]
    }

    /// The sixteen bytes of the identifier in the order of its text form: each
    /// field most significant byte first.
    pub open spec fn canonical_bytes(&self) -> Seq<u8> {
        be_bytes(self.data1 as nat, 4) + be_bytes(self.data2 as nat, 2) + be_bytes(
            self.data3 as nat,
            2,
        ) + self.data4@
    }

    /// The sixteen bytes of the identifier as an event record carries them: the
    /// three integer fields least significant byte first, then the last field.
    pub open spec fn wire_bytes(&self) -> Seq<u8> {
        le_bytes(self.data1 as nat, 4) + le_bytes(self.data2 as nat, 2) + le_bytes(
            self.data3 as nat,
            2,
        ) + self.data4@
    }

    /// The canonical text form of the identifier: its sixteen bytes in
    /// lower-case hexadecimal, in groups of eight, four, four, four and
    /// twelve digits with a hyphen between them.
    pub open spec fn text(&self) -> Seq<char> {
        canonical_text(self.canonical_bytes())
    }

    /// Checks whether every bit of the identifier is zero.
    pub fn is_nil(&self) -> (r: bool)
        ensures
            r == self.is_nil_spec(),
    {
        let zero = GUID { data1: 0, data2: 0, data3: 0, data4: [0, 0, 0, 0, 0, 0, 0, 0] };
        assert(zero.data4@ =~= seq![0u8, 0u8, 0u8, 0u8, 0u8, 0u8, 0u8, 0u8]);
        *self == zero
    }

    /// Builds an identifier from sixteen bytes in the order of its text form.
    pub fn from_be_bytes(bytes: &[u8; 16]) -> (g: GUID)
        ensures
            g.canonical_bytes() == bytes@,
    {
        let data1: u32 = ((bytes[0] as u32 * 256 + bytes[1] as u32) * 256 + bytes[2] as u32) * 256
            + bytes[3] as u32;
        let data2: u16 = bytes[4] as u16 * 256 + bytes[5] as u16;
        let data3: u16 = bytes[6] as u16 * 256 + bytes[7] as u16;
        let data4: [u8; 8] = [
            bytes[8],
            bytes[9],
            bytes[10],
            bytes[11],
            bytes[12],
            bytes[13],
            bytes[14],
            bytes[15],
        ];
        let g = GUID { data1, data2, data3, data4 };
        proof {
            be_bytes_of_4(bytes[0], bytes[1], bytes[2], bytes[3]);
            be_bytes_of_2(bytes[4], bytes[5]);
            be_bytes_of_2(bytes[6], bytes[7]);
            assert(g.canonical_bytes() =~= bytes@);
        }
        g
    }

    /// Builds an identifier from sixteen bytes as an event record carries them.
    pub fn from_le_bytes(bytes: &[u8; 16]) -> (g: GUID)
        ensures
            g.wire_bytes() == bytes@,
    {
        let data1: u32 = ((bytes[3] as u32 * 256 + bytes[2] as u32) * 256 + bytes[1] as u32) * 256
            + bytes[0] as u32;
        let data2: u16 = bytes[5] as u16 * 256 + bytes[4] as u16;
        let data3: u16 = bytes[7] as u16 * 256 + bytes[6] as u16;
        let data4: [u8; 8] = [
            bytes[8],
            bytes[9],
            bytes[10],
            bytes[11],
            bytes[12],
            bytes[13],
            bytes[14],
            bytes[15],
        ];
        let g = GUID { data1, data2, data3, data4 };
        proof {
            le_bytes_of_4(bytes[0], bytes[1], bytes[2], bytes[3]);
            le_bytes_of_2(bytes[4], bytes[5]);
            le_bytes_of_2(bytes[6], bytes[7]);
            assert(g.wire_bytes() =~= bytes@);
        }
        g
    }

    /// The sixteen bytes of the identifier as an event record carries them.
    pub fn to_le_bytes(&self) -> (bytes: Vec<u8>)
        ensures
            bytes@ == self.wire_bytes(),
    {
        let mut bytes: Vec<u8> = Vec::new();
        put_uint_le(&mut bytes, self.data1 as u64, 4);
        put_uint_le(&mut bytes, self.data2 as u64, 2);
        put_uint_le(&mut bytes, self.data3 as u64, 2);
        let mut i: usize = 0;
        while i < 8
            invariant
                i <= 8,
                bytes@ == le_bytes(self.data1 as nat, 4) + le_bytes(self.data2 as nat, 2)
                    + le_bytes(self.data3 as nat, 2) + self.data4@.subrange(0, i as int),
            decreases 8 - i,
        {
            bytes.push(self.data4[i]);
            proof {
                assert(self.data4@.subrange(0, i as int).push(self.data4@[i as int])
                    =~= self.data4@.subrange(0, i as int + 1));
            }
            i = i + 1;
        }
        proof {
            assert(self.data4@.subrange(0, 8) =~= self.data4@);
        }
        bytes
    }

    /// The canonical text form of the identifier, in lower-case hexadecimal:
    /// 36 characters, four of them hyphens.
    pub fn to_string(&self) -> (s: String)
        ensures
            s@ == self.text(),
            s@.len() == 36,
            forall|i: int|
                0 <= i < 36 ==> if i == 8 || i == 13 || i == 18 || i == 23 {
                    #[trigger] s@[i] == '-'
                } else {
                    is_lower_hex(s@[i])
                },
    {
        let d1: [u8; 4] = [
            (self.data1 / 0x100_0000) as u8,
            (self.data1 / 0x1_0000 % 256) as u8,
            (self.data1 / 0x100 % 256) as u8,
            (self.data1 % 256) as u8,
        ];
        let d2: [u8; 2] = [(self.data2 / 0x100) as u8, (self.data2 % 256) as u8];
        let d3: [u8; 2] = [(self.data3 / 0x100) as u8, (self.data3 % 256) as u8];
        proof {
            be_bytes_of_4(d1[0], d1[1], d1[2], d1[3]);
            be_bytes_of_2(d2[0], d2[1]);
            be_bytes_of_2(d3[0], d3[1]);
            assert(d1@ =~= be_bytes(self.data1 as nat, 4));
            assert(d2@ =~= be_bytes(self.data2 as nat, 2));
            assert(d3@ =~= be_bytes(self.data3 as nat, 2));
            reveal_strlit("-");
        }
        let mut s = String::new();
        push_hex(&mut s, d1.as_slice());
        s.append("-");
        push_hex(&mut s, d2.as_slice());
        s.append("-");
        push_hex(&mut s, d3.as_slice());
        s.append("-");
        push_hex(&mut s, vstd::slice::slice_subrange(self.data4.as_slice(), 0, 2));
        s.append("-");
        push_hex(&mut s, vstd::slice::slice_subrange(self.data4.as_slice(), 2, 8));
        proof {
            let bytes = self.canonical_bytes();
            crate::encoding::be_bytes_len(self.data1 as nat, 4);
            crate::encoding::be_bytes_len(self.data2 as nat, 2);
            crate::encoding::be_bytes_len(self.data3 as nat, 2);
            assert(bytes.subrange(0, 4) =~= be_bytes(self.data1 as nat, 4));
            assert(bytes.subrange(4, 6) =~= be_bytes(self.data2 as nat, 2));
            assert(bytes.subrange(6, 8) =~= be_bytes(self.data3 as nat, 2));
            assert(bytes.subrange(8, 10) =~= self.data4@.subrange(0, 2));
            assert(bytes.subrange(10, 16) =~= self.data4@.subrange(2, 8));
            assert("-"@ =~= seq!['-']);
            assert(s@ =~= self.text());
            canonical_text_shape(bytes);
        }
        s
    }

    /// Parses an identifier from its text form. Parsing undoes `to_string`:
    /// the canonical text of an identifier gives that identifier.
    ///
    /// The text must be one that the parser accepts, as the text that
    /// `to_string` gives is; of any other text, `GUID::parse` tests that.
    pub fn from(value: &str) -> (g: GUID)
        requires
            uuid_parse_str(value@) is Some || exists|written: GUID| value@ == #[trigger] written.text(),
        ensures
            Some(g.canonical_bytes()) == uuid_parse_str(value@),
            forall|written: GUID| value@ == #[trigger] written.text() ==> g == written,
    {
        let parsed = parse_uuid_bytes(value);
        proof {
            if exists|written: GUID| value@ == #[trigger] written.text() {
                let written = choose|written: GUID| value@ == #[trigger] written.text();
                canonical_bytes_len(written);
                assert(value@ == canonical_text(written.canonical_bytes()));
            }
            assert(parsed is Some);
        }
        let g = match parsed {
            Some(bytes) => GUID::from_be_bytes(&bytes),
            None => GUID::default(),
        };
        proof {
            assert forall|written: GUID| value@ == #[trigger] written.text() implies g
                == written by {
                canonical_bytes_len(written);
                canonical_bytes_injective(g, written);
            }
        }
        g
    }

    /// Parses an identifier from its text form, or says that the text is
    /// none. Parsing undoes `to_string`: the canonical text of an identifier
    /// is parsed, and gives that identifier.
    pub fn parse(value: &str) -> (r: Option<GUID>)
        ensures
            r is Some <==> uuid_parse_str(value@) is Some,
            r matches Some(g) ==> Some(g.canonical_bytes()) == uuid_parse_str(value@),
            forall|written: GUID| value@ == #[trigger] written.text() ==> r == Some(written),
    {
        let parsed = parse_uuid_bytes(value);
        proof {
            assert forall|written: GUID| value@ == #[trigger] written.text() implies parsed
                is Some by {
                canonical_bytes_len(written);
            }
        }
        match parsed {
            Some(_) => Some(GUID::from(value)),
            None => None,
        }
    }
}

/// The bytes of an identifier in the order of its text form are sixteen.
pub proof fn canonical_bytes_len(g: GUID)
    ensures
        g.canonical_bytes().len() == 16,
{
    crate::encoding::be_bytes_len(g.data1 as nat, 4);
    crate::encoding::be_bytes_len(g.data2 as nat, 2);
    crate::encoding::be_bytes_len(g.data3 as nat, 2);
}

/// The bytes that the text of an identifier spells, most significant byte of
/// each field first, or `None` where the text is no identifier. The text may be
/// hyphenated, plain hexadecimal, wrapped in braces, or a URN.
pub uninterp spec fn uuid_parse_str(text: Seq<char>) -> Option<Seq<u8>>;

/// Parses the text form of an identifier into its sixteen bytes.
///
/// Calls `uuid::Uuid::parse_str` and hands out the bytes of the identifier it
/// returns, or `None` where it returns an error. The contract names that
/// result. Of the texts that are accepted it claims one thing: a text of 36
/// characters that spells sixteen bytes in lower-case hexadecimal, with
/// hyphens behind the eighth, twelfth, sixteenth and twentieth digit, is
/// accepted and gives those bytes. That is the hyphenated form, which the
/// parser reads by its length, its four hyphens and its digits.
#[verifier::external_body]
fn parse_uuid_bytes(text: &str) -> (r: Option<[u8; 16]>)
    ensures
        r is Some <==> uuid_parse_str(text@) is Some,
        r matches Some(bytes) ==> uuid_parse_str(text@) == Some(bytes@),
        forall|bytes: Seq<u8>|
            bytes.len() == 16 && text@ == #[trigger] canonical_text(bytes) ==> r is Some && r->0@
                == bytes,
{
    match uuid::Uuid::parse_str(text) {
        Ok(id) => Some(*id.as_bytes()),
        Err(_) => None,
    }
}

/// Appends one lower-case hexadecimal digit.
pub(crate) fn hex_str(n: u8) -> (s: &'static str)
    requires
        n < 16,
    ensures
        s@ == seq![hex_digit(n as int)],
{
    proof {
        reveal_strlit("0");
        reveal_strlit("1");
        reveal_strlit("2");
        reveal_strlit("3");
        reveal_strlit("4");
        reveal_strlit("5");
        reveal_strlit("6");
        reveal_strlit("7");
        reveal_strlit("8");
        reveal_strlit("9");
        reveal_strlit("a");
        reveal_strlit("b");
        reveal_strlit("c");
        reveal_strlit("d");
        reveal_strlit("e");
        reveal_strlit("f");
    }
    let s = if n == 0 {
        "0"
    } else if n == 1 {
        "1"
    } else if n == 2 {
        "2"
    } else if n == 3 {
        "3"
    } else if n == 4 {
        "4"
    } else if n == 5 {
        "5"
    } else if n == 6 {
        "6"
    } else if n == 7 {
        "7"
    } else if n == 8 {
        "8"
    } else if n == 9 {
        "9"
    } else if n == 10 {
        "a"
    } else if n == 11 {
        "b"
    } else if n == 12 {
        "c"
    } else if n == 13 {
        "d"
    } else if n == 14 {
        "e"
    } else {
        "f"
    };
    assert(s@ =~= seq![hex_digit(n as int)]);
    s
}

/// Appends the bytes to the text as two lower-case hexadecimal digits each.
fn push_hex(text: &mut String, bytes: &[u8])
    ensures
        final(text)@ == old(text)@ + hex_text(bytes@),
{
    let mut i: usize = 0;
    proof {
        assert(bytes@.subrange(0, 0) =~= Seq::<u8>::empty());
        assert(text@ + Seq::<char>::empty() =~= text@);
    }
    while i < bytes.len()
        invariant
            i <= bytes@.len(),
            text@ == old(text)@ + hex_text(bytes@.subrange(0, i as int)),
        decreases bytes@.len() - i,
    {
        let byte = bytes[i];
        text.append(hex_str(byte / 16));
        text.append(hex_str(byte % 16));
        proof {
            let prefix = bytes@.subrange(0, i as int);
            let longer = bytes@.subrange(0, i as int + 1);
            assert(longer.drop_last() =~= prefix);
            assert(longer.last() == byte);
            assert(text@ =~= old(text)@ + hex_text(longer));
        }
        i = i + 1;
    }
    proof {
        assert(bytes@.subrange(0, bytes@.len() as int) =~= bytes@);
    }
}

/// The namespace under which provider names are hashed.
pub open spec fn name_namespace() -> Seq<u8> {
    seq![
        0x48u8,
        0x2Cu8,
        0x2Du8,
        0xB2u8,
        0xC3u8,
        0x90u8,
        0x47u8,
        0xC8u8,
        0x87u8,
        0xF8u8,
        0x1Au8,
        0x15u8,
        0xBFu8,
        0xC1u8,
        0x30u8,
        0xFBu8,
    ]
}

/// The UTF-16 code units of one character, each most significant byte first.
pub open spec fn utf16_be(c: char) -> Seq<u8> {
    let code = c as int;
    if code < 0x1_0000 {
        be_bytes(code as nat, 2)
    } else {
        be_bytes((0xD800 + (code - 0x1_0000) / 0x400) as nat, 2) + be_bytes(
            (0xDC00 + (code - 0x1_0000) % 0x400) as nat,
            2,
        )
    }
}

/// The UTF-16 big-endian encoding of a text.
pub open spec fn utf16_be_text(text: Seq<char>) -> Seq<u8>
    decreases text.len(),
{
    if text.len() == 0 {
        Seq::<u8>::empty()
    } else {
        utf16_be_text(text.drop_last()) + utf16_be(text.last())
    }
}

/// The bytes that are hashed for a provider name: the namespace, then the
/// upper-cased name in UTF-16, big-endian.
pub open spec fn name_hash_input(name: Seq<char>) -> Seq<u8> {
    name_namespace() + utf16_be_text(uppercase_text(name))
}

/// The sixteen bytes, as an event record carries them, of the identifier that
/// a digest gives: the first sixteen bytes of the digest, with the high four
/// bits of the eighth replaced by the version number five.
pub open spec fn name_guid_bytes(digest: Seq<u8>) -> Seq<u8> {
    digest.subrange(0, 7).push((digest[7] % 16 + 0x50) as u8) + digest.subrange(8, 16)
}

/// The text in upper case.
pub uninterp spec fn uppercase_text(text: Seq<char>) -> Seq<char>;

/// The SHA-1 digest of a sequence of bytes: twenty bytes.
pub uninterp spec fn sha1_digest(data: Seq<u8>) -> Seq<u8>;

/// Turns a text to upper case.
///
/// Calls `str::to_uppercase`, which returns the upper-case equivalent of the
/// text as a new `String`. The contract names that result.
#[verifier::external_body]
fn to_uppercase(text: &str) -> (upper: String)
    ensures
        upper@ == uppercase_text(text@),
{
    text.to_uppercase()
}

/// Computes the SHA-1 digest of a sequence of bytes.
///
/// Calls `sha1_smol::Sha1::from` on the bytes, then `digest` and `bytes`,
/// which give the twenty bytes of the digest. The contract names that result.
#[verifier::external_body]
fn sha1(data: &[u8]) -> (digest: [u8; 20])
    ensures
        digest@ == sha1_digest(data@),
{
    sha1_smol::Sha1::from(data).digest().bytes()
}

/// The identifier that a SHA-1 digest gives.
pub fn guid_from_sha1(digest: &[u8; 20]) -> (g: GUID)
    ensures
        g.wire_bytes() == name_guid_bytes(digest@),
{
    let bytes: [u8; 16] = [
        digest[0],
        digest[1],
        digest[2],
        digest[3],
        digest[4],
        digest[5],
        digest[6],
        digest[7] % 16 + 0x50,
        digest[8],
        digest[9],
        digest[10],
        digest[11],
        digest[12],
        digest[13],
        digest[14],
        digest[15],
    ];
    assert(bytes@ =~= name_guid_bytes(digest@));
    GUID::from_le_bytes(&bytes)
}

/// Appends the UTF-16 big-endian encoding of a text to a buffer.
pub fn put_utf16_be(buf: &mut Vec<u8>, text: &str)
    ensures
        final(buf)@ == old(buf)@ + utf16_be_text(text@),
{
    let count = text.unicode_len();
    let mut i: usize = 0;
    proof {
        assert(text@.subrange(0, 0) =~= Seq::<char>::empty());
        assert(buf@ + Seq::<u8>::empty() =~= buf@);
    }
    while i < count
        invariant
            i <= count == text@.len(),
            buf@ == old(buf)@ + utf16_be_text(text@.subrange(0, i as int)),
        decreases count - i,
    {
        let c = text.get_char(i);
        let code: u32 = c as u32;
        let ghost before = buf@;
        if code < 0x1_0000 {
            buf.push((code / 256) as u8);
            buf.push((code % 256) as u8);
            proof {
                be_bytes_of_2((code / 256) as u8, (code % 256) as u8);
                assert(buf@ =~= before + utf16_be(c));
            }
        } else {
            let high: u32 = 0xD800 + (code - 0x1_0000) / 0x400;
            let low: u32 = 0xDC00 + (code - 0x1_0000) % 0x400;
            buf.push((high / 256) as u8);
            buf.push((high % 256) as u8);
            buf.push((low / 256) as u8);
            buf.push((low % 256) as u8);
            proof {
                be_bytes_of_2((high / 256) as u8, (high % 256) as u8);
                be_bytes_of_2((low / 256) as u8, (low % 256) as u8);
                assert(buf@ =~= before + utf16_be(c));
            }
        }
        proof {
            let prefix = text@.subrange(0, i as int);
            let longer = text@.subrange(0, i as int + 1);
            assert(longer.drop_last() =~= prefix);
            assert(longer.last() == c);
            assert(buf@ =~= old(buf)@ + utf16_be_text(longer));
        }
        i = i + 1;
    }
    proof {
        assert(text@.subrange(0, text@.len() as int) =~= text@);
    }
}

/// Derives the identifier of a provider from its name: the same name always
/// gives the same identifier.
pub fn etw_event_source_guid(provider_name: &str) -> (g: GUID)
    ensures
        g.wire_bytes() == name_guid_bytes(sha1_digest(name_hash_input(provider_name@))),
{
    let upper = to_uppercase(provider_name);
    let mut input: Vec<u8> = Vec::new();
    input.push(0x48);
    input.push(0x2C);
    input.push(0x2D);
    input.push(0xB2);
    input.push(0xC3);
    input.push(0x90);
    input.push(0x47);
    input.push(0xC8);
    input.push(0x87);
    input.push(0xF8);
    input.push(0x1A);
    input.push(0x15);
    input.push(0xBF);
    input.push(0xC1);
    input.push(0x30);
    input.push(0xFB);
    assert(input@ =~= name_namespace());
    put_utf16_be(&mut input, upper.as_str());
    let digest = sha1(input.as_slice());
    guid_from_sha1(&digest)
}

/// Two identifiers with the same bytes in text order are the same identifier.
pub proof fn canonical_bytes_injective(a: GUID, b: GUID)
    requires
        a.canonical_bytes() == b.canonical_bytes(),
    ensures
        a == b,
{
    crate::encoding::be_bytes_len(a.data1 as nat, 4);
    crate::encoding::be_bytes_len(b.data1 as nat, 4);
    crate::encoding::be_bytes_len(a.data2 as nat, 2);
    crate::encoding::be_bytes_len(b.data2 as nat, 2);
    crate::encoding::be_bytes_len(a.data3 as nat, 2);
    crate::encoding::be_bytes_len(b.data3 as nat, 2);
    let ab = a.canonical_bytes();
    let bb = b.canonical_bytes();
    assert(ab.subrange(0, 4) =~= be_bytes(a.data1 as nat, 4));
    assert(bb.subrange(0, 4) =~= be_bytes(b.data1 as nat, 4));
    assert(ab.subrange(4, 6) =~= be_bytes(a.data2 as nat, 2));
    assert(bb.subrange(4, 6) =~= be_bytes(b.data2 as nat, 2));
    assert(ab.subrange(6, 8) =~= be_bytes(a.data3 as nat, 2));
    assert(bb.subrange(6, 8) =~= be_bytes(b.data3 as nat, 2));
    assert(ab.subrange(8, 16) =~= a.data4@);
    assert(bb.subrange(8, 16) =~= b.data4@);
    assert(crate::encoding::byte_limit(4) == 0x1_0000_0000) by {
        reveal_with_fuel(crate::encoding::byte_limit, 5);
    }
    assert(crate::encoding::byte_limit(2) == 0x1_0000) by {
        reveal_with_fuel(crate::encoding::byte_limit, 3);
    }
    crate::encoding::be_value_of_be_bytes(a.data1 as nat, 4);
    crate::encoding::be_value_of_be_bytes(b.data1 as nat, 4);
    crate::encoding::be_value_of_be_bytes(a.data2 as nat, 2);
    crate::encoding::be_value_of_be_bytes(b.data2 as nat, 2);
    crate::encoding::be_value_of_be_bytes(a.data3 as nat, 2);
    crate::encoding::be_value_of_be_bytes(b.data3 as nat, 2);
    assert(a.data4 =~= b.data4);
}

/// Two identifiers with the same bytes in an event record are the same identifier.
pub proof fn wire_bytes_injective(a: GUID, b: GUID)
    requires
        a.wire_bytes() == b.wire_bytes(),
    ensures
        a == b,
{
    crate::encoding::le_bytes_len(a.data1 as nat, 4);
    crate::encoding::le_bytes_len(b.data1 as nat, 4);
    crate::encoding::le_bytes_len(a.data2 as nat, 2);
    crate::encoding::le_bytes_len(b.data2 as nat, 2);
    crate::encoding::le_bytes_len(a.data3 as nat, 2);
    crate::encoding::le_bytes_len(b.data3 as nat, 2);
    let ab = a.wire_bytes();
    let bb = b.wire_bytes();
    assert(ab.subrange(0, 4) =~= le_bytes(a.data1 as nat, 4));
    assert(bb.subrange(0, 4) =~= le_bytes(b.data1 as nat, 4));
    assert(ab.subrange(4, 6) =~= le_bytes(a.data2 as nat, 2));
    assert(bb.subrange(4, 6) =~= le_bytes(b.data2 as nat, 2));
    assert(ab.subrange(6, 8) =~= le_bytes(a.data3 as nat, 2));
    assert(bb.subrange(6, 8) =~= le_bytes(b.data3 as nat, 2));
    assert(ab.subrange(8, 16) =~= a.data4@);
    assert(bb.subrange(8, 16) =~= b.data4@);
    assert(crate::encoding::byte_limit(4) == 0x1_0000_0000) by {
        reveal_with_fuel(crate::encoding::byte_limit, 5);
    }
    assert(crate::encoding::byte_limit(2) == 0x1_0000) by {
        reveal_with_fuel(crate::encoding::byte_limit, 3);
    }
    crate::encoding::le_value_of_le_bytes(a.data1 as nat, 4);
    crate::encoding::le_value_of_le_bytes(b.data1 as nat, 4);
    crate::encoding::le_value_of_le_bytes(a.data2 as nat, 2);
    crate::encoding::le_value_of_le_bytes(b.data2 as nat, 2);
    crate::encoding::le_value_of_le_bytes(a.data3 as nat, 2);
    crate::encoding::le_value_of_le_bytes(b.data3 as nat, 2);
    assert(a.data4 =~= b.data4);
}

/// The same name gives the same identifier, whoever derives it and when: two
/// identifiers that meet the contract of `etw_event_source_guid` for equal
/// names are equal.
pub proof fn name_guid_deterministic(name_a: Seq<char>, name_b: Seq<char>, a: GUID, b: GUID)
    requires
        name_a == name_b,
        a.wire_bytes() == name_guid_bytes(sha1_digest(name_hash_input(name_a))),
        b.wire_bytes() == name_guid_bytes(sha1_digest(name_hash_input(name_b))),
    ensures
        a == b,
{
    wire_bytes_injective(a, b);
}

/// The identifier with the given bytes in the order of its text form.
pub open spec fn guid_of_canonical(bytes: Seq<u8>) -> GUID {
    choose|g: GUID| g.canonical_bytes() == bytes
}

/// The identifier with the given bytes as an event record carries them.
pub open spec fn guid_of_wire(bytes: Seq<u8>) -> GUID {
    choose|g: GUID| g.wire_bytes() == bytes
}

/// An identifier is the one that its bytes in text order name.
pub proof fn guid_is_of_canonical(g: GUID)
    ensures
        guid_of_canonical(g.canonical_bytes()) == g,
{
    canonical_bytes_injective(guid_of_canonical(g.canonical_bytes()), g);
}

/// An identifier is the one that its bytes in an event record name.
pub proof fn guid_is_of_wire(g: GUID)
    ensures
        guid_of_wire(g.wire_bytes()) == g,
{
    wire_bytes_injective(guid_of_wire(g.wire_bytes()), g);
}

} // verus!
