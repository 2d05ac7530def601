//! Sensor identifiers: the six-byte hardware address of a tag, the integer key it is
//! filed under, and its text forms.

use vstd::prelude::*;

verus! {

/// Hardware address of one physical sensor, most significant byte first.
#[derive(Clone, Copy, Debug, PartialEq, Eq, Hash)]
pub struct SensorId {
    pub bytes: [u8; 6],
}

/// The digit that stands for `n` in upper-case hexadecimal (`n` below 16).
pub open spec fn upper_hex_digit(n: int) -> char {
    seq!['0', '1', '2', '3', '4', '5', '6', '7', '8', '9', 'A', 'B', 'C', 'D', 'E', 'F'][n]
}

/// The two upper-case hexadecimal digits of a byte, high nibble first.
pub open spec fn upper_hex_pair(b: u8) -> Seq<char> {
    seq![upper_hex_digit(b as int / 16), upper_hex_digit(b as int % 16)]
}

/// The six bytes of an address as hexadecimal pairs with `sep` between neighbours.
pub open spec fn joined_hex(bytes: Seq<u8>, sep: char) -> Seq<char>
    recommends
        bytes.len() == 6,
{
    upper_hex_pair(bytes[0]) + seq![sep] + upper_hex_pair(bytes[1]) + seq![sep] + upper_hex_pair(
        bytes[2],
    ) + seq![sep] + upper_hex_pair(bytes[3]) + seq![sep] + upper_hex_pair(bytes[4]) + seq![sep]
        + upper_hex_pair(bytes[5])
}

impl SensorId {
    /// The address as one number: byte 0 is the most significant of its 48 bits.
    pub open spec fn spec_key(self) -> int {
        ((((self.bytes[0] as int * 256 + self.bytes[1] as int) * 256 + self.bytes[2] as int) * 256
            + self.bytes[3] as int) * 256 + self.bytes[4] as int) * 256 + self.bytes[5] as int
    }

    /// Conventional rendering, `AA:BB:CC:DD:EE:FF`.
    pub open spec fn text(self) -> Seq<char> {
        joined_hex(self.bytes@, ':')
    }

    /// Rendering for places where a colon cannot stand, `AA_BB_CC_DD_EE_FF`.
    pub open spec fn slug(self) -> Seq<char> {
        joined_hex(self.bytes@, '_')
    }

    pub fn new(bytes: [u8; 6]) -> (id: SensorId)
        ensures
            id.bytes == bytes,
    {
        SensorId { bytes }
    }

    /// The number under which this sensor is filed in hash sets and maps.
    pub fn key(&self) -> (k: u64)
        ensures
            k == self.spec_key(),
            k < 0x1_0000_0000_0000,
    {
        let b0: u64 = self.bytes[0] as u64;
        let b1: u64 = self.bytes[1] as u64;
        let b2: u64 = self.bytes[2] as u64;
        let b3: u64 = self.bytes[3] as u64;
        let b4: u64 = self.bytes[4] as u64;
        let b5: u64 = self.bytes[5] as u64;
        ((((b0 * 256 + b1) * 256 + b2) * 256 + b3) * 256 + b4) * 256 + b5
    }

    /// The address in colon-separated upper-case hexadecimal.
    pub fn to_text(&self) -> (s: String)
        ensures
            s@ == self.text(),
    {
        proof {
            reveal_strlit(":");
        }
        render(&self.bytes, ":")
    }

    /// The address in underscore-separated upper-case hexadecimal.
    pub fn to_slug(&self) -> (s: String)
        ensures
            s@ == self.slug(),
    {
        proof {
            reveal_strlit("_");
        }
        render(&self.bytes, "_")
    }
}

/// Two sensors are filed under the same number only if they are the same sensor.
pub proof fn lemma_key_injective(a: SensorId, b: SensorId)
    ensures
        a.spec_key() == b.spec_key() <==> a == b,
{
    if a.spec_key() == b.spec_key() {
        assert(a.bytes[5] == b.bytes[5]);
        assert(a.bytes[4] == b.bytes[4]);
        assert(a.bytes[3] == b.bytes[3]);
        assert(a.bytes[2] == b.bytes[2]);
        assert(a.bytes[1] == b.bytes[1]);
        assert(a.bytes[0] == b.bytes[0]);
        assert(a.bytes =~= b.bytes);
    }
}

fn upper_hex_str(n: u8) -> (s: &'static str)
    requires
        n < 16,
    ensures
        s@ == seq![upper_hex_digit(n as int)],
{
    proof {
        reveal_strlit("0");
        reveal_strlit("1");
        reveal_strlit("2");
        reveal_strlit("3");
        reveal_strlit("4");
        reveal_strlit("5");
        reveal_strlit("6");
        reveal_strlit("7");
        reveal_strlit("8");
        reveal_strlit("9");
        reveal_strlit("A");
        reveal_strlit("B");
        reveal_strlit("C");
        reveal_strlit("D");
        reveal_strlit("E");
        reveal_strlit("F");
    }
    let s = match n {
        0 => "0",
        1 => "1",
        2 => "2",
        3 => "3",
        4 => "4",
        5 => "5",
        6 => "6",
        7 => "7",
        8 => "8",
        9 => "9",
        10 => "A",
        11 => "B",
        12 => "C",
        13 => "D",
        14 => "E",
        _ => "F",
    };
    assert(s@ =~= seq![upper_hex_digit(n as int)]);
    s
}

fn push_hex_pair(out: &mut String, b: u8)
    ensures
        final(out)@ == old(out)@ + upper_hex_pair(b),
{
    out.append(upper_hex_str(b / 16));
    out.append(upper_hex_str(b % 16));
    assert(final(out)@ =~= old(out)@ + upper_hex_pair(b));
}

fn render(bytes: &[u8; 6], sep: &str) -> (s: String)
    requires
        sep@.len() == 1,
    ensures
        s@ == joined_hex(bytes@, sep@[0]),
{
    let mut s = String::new();
    push_hex_pair(&mut s, bytes[0]);
    let mut i: usize = 1;
    while i < 6
        invariant
            1 <= i <= 6,
            sep@.len() == 1,
            s@ == rendered_prefix(bytes@, sep@[0], i as int),
        decreases 6 - i,
    {
        s.append(sep);
        push_hex_pair(&mut s, bytes[i]);
        i += 1;
    }
    proof {
        reveal_with_fuel(rendered_prefix, 6);
        assert(s@ =~= joined_hex(bytes@, sep@[0]));
    }
    s
}

/// The first `n` pairs of `joined_hex`, separators between them.
spec fn rendered_prefix(bytes: Seq<u8>, sep: char, n: int) -> Seq<char>
    decreases n,
{
    if n <= 1 {
        upper_hex_pair(bytes[0])
    } else {
        rendered_prefix(bytes, sep, n - 1) + seq![sep] + upper_hex_pair(bytes[n - 1])
    }
}

} // verus!
