use vstd::prelude::*;
use vstd::string::StringSliceAdditionalSpecFns;

verus! {

/// An 8-bit-per-channel color in red, green, blue, alpha order.
#[derive(Copy, Clone, PartialEq, Eq, Debug, Structural)]
pub struct Rgba8 {
    pub r: u8,
    pub g: u8,
    pub b: u8,
    pub a: u8,
}

/// An 8-bit-per-channel color in blue, green, red, alpha order, the layout
/// of framebuffer texels.
#[derive(Copy, Clone, PartialEq, Eq, Debug, Structural)]
pub struct Bgra8 {
    pub b: u8,
    pub g: u8,
    pub r: u8,
    pub a: u8,
}

/// Why a color code could not be read.
#[derive(Copy, Clone, PartialEq, Eq, Debug, Structural)]
pub enum ParseColorError {
    /// The code is not exactly seven bytes long.
    InvalidLength,
    /// The code does not start with `#`.
    MissingHash,
    /// One of the six characters after `#` is not a hexadecimal digit.
    InvalidDigit,
}

/// The lower-case hexadecimal digits, by value.
pub open spec fn hex_digits() -> Seq<char> {
    seq!['0', '1', '2', '3', '4', '5', '6', '7', '8', '9', 'a', 'b', 'c', 'd', 'e', 'f']
}

/// The two lower-case hexadecimal digits of a byte, high digit first.
pub open spec fn hex_byte(v: u8) -> Seq<char> {
    seq![hex_digits()[v as int / 16], hex_digits()[v as int % 16]]
}

/// `b` is the ASCII code of a hexadecimal digit, of either case.
pub open spec fn is_hex_digit(b: u8) -> bool {
    (48 <= b <= 57) || (97 <= b <= 102) || (65 <= b <= 70)
}

/// The value of the hexadecimal digit whose ASCII code is `b`.
pub open spec fn hex_value(b: u8) -> int {
    if 48 <= b <= 57 {
        b - 48
    } else if 97 <= b <= 102 {
        b - 87
    } else {
        b - 55
    }
}

/// The byte written by the two hexadecimal digits `hi`, `lo`.
pub open spec fn hex_pair(hi: u8, lo: u8) -> int {
    16 * hex_value(hi) + hex_value(lo)
}

/// `bytes` is a well-formed color code: `#` and six hexadecimal digits.
pub open spec fn is_color_code(bytes: Seq<u8>) -> bool {
    &&& bytes.len() == 7
    &&& bytes[0] == 35
    &&& forall|i: int| 1 <= i < 7 ==> is_hex_digit(#[trigger] bytes[i])
}

fn digit_value(b: u8) -> (v: Option<u8>)
    ensures
        is_hex_digit(b) <==> v.is_some(),
        v.is_some() ==> v.unwrap() == hex_value(b) && v.unwrap() < 16,
{
    if 48 <= b && b <= 57 {
        Some(b - 48)
    } else if 97 <= b && b <= 102 {
        Some(b - 87)
    } else if 65 <= b && b <= 70 {
        Some(b - 55)
    } else {
        None
    }
}

fn push_hex_digit(s: &mut String, d: u8)
    requires
        d < 16,
    ensures
        final(s)@ == old(s)@.push(hex_digits()[d as int]),
{
    let t = match d {
        0 => "0",
        1 => "1",
        2 => "2",
        3 => "3",
        4 => "4",
        5 => "5",
        6 => "6",
        7 => "7",
        8 => "8",
        9 => "9",
        10 => "a",
        11 => "b",
        12 => "c",
        13 => "d",
        14 => "e",
        _ => "f",
    };
    proof {
        reveal_strlit("0");
        reveal_strlit("1");
        reveal_strlit("2");
        reveal_strlit("3");
        reveal_strlit("4");
        reveal_strlit("5");
        reveal_strlit("6");
        reveal_strlit("7");
        reveal_strlit("8");
        reveal_strlit("9");
        reveal_strlit("a");
        reveal_strlit("b");
        reveal_strlit("c");
        reveal_strlit("d");
        reveal_strlit("e");
        reveal_strlit("f");
    }
    assert(t@ == seq![hex_digits()[d as int]]);
    s.append(t);
}

fn push_hex_byte(s: &mut String, v: u8)
    ensures
        final(s)@ == old(s)@ + hex_byte(v),
{
    push_hex_digit(s, v / 16);
    push_hex_digit(s, v % 16);
    assert(final(s)@ =~= old(s)@ + hex_byte(v));
}

impl Rgba8 {
    /// The four texel bytes of this color in its own channel order.
    pub open spec fn bytes(self) -> Seq<u8> {
        seq![self.r, self.g, self.b, self.a]
    }

    /// The color whose channels are the bytes of `v` from the least
    /// significant up: red in the low byte, alpha in the high byte.
    pub open spec fn from_u32_spec(v: u32) -> Rgba8 {
        Rgba8 {
            r: (v & 0xff) as u8,
            g: ((v >> 8u32) & 0xff) as u8,
            b: ((v >> 16u32) & 0xff) as u8,
            a: ((v >> 24u32) & 0xff) as u8,
        }
    }

    /// The code `#rrggbbaa` in lower-case hexadecimal.
    pub open spec fn hex_code(self) -> Seq<char> {
        seq!['#'] + hex_byte(self.r) + hex_byte(self.g) + hex_byte(self.b) + hex_byte(self.a)
    }

    pub fn new(r: u8, g: u8, b: u8, a: u8) -> (c: Rgba8)
        ensures
            c == (Rgba8 { r, g, b, a }),
    {
        Rgba8 { r, g, b, a }
    }

    pub fn transparent() -> (c: Rgba8)
        ensures
            c == (Rgba8 { r: 0, g: 0, b: 0, a: 0 }),
    {
        Rgba8 { r: 0, g: 0, b: 0, a: 0 }
    }

    pub fn white() -> (c: Rgba8)
        ensures
            c == (Rgba8 { r: 0xff, g: 0xff, b: 0xff, a: 0xff }),
    {
        Rgba8 { r: 0xff, g: 0xff, b: 0xff, a: 0xff }
    }

    pub fn black() -> (c: Rgba8)
        ensures
            c == (Rgba8 { r: 0, g: 0, b: 0, a: 0xff }),
    {
        Rgba8 { r: 0, g: 0, b: 0, a: 0xff }
    }

    pub fn red() -> (c: Rgba8)
        ensures
            c == (Rgba8 { r: 0xff, g: 0, b: 0, a: 0xff }),
    {
        Rgba8 { r: 0xff, g: 0, b: 0, a: 0xff }
    }

    pub fn green() -> (c: Rgba8)
        ensures
            c == (Rgba8 { r: 0, g: 0xff, b: 0, a: 0xff }),
    {
        Rgba8 { r: 0, g: 0xff, b: 0, a: 0xff }
    }

    pub fn blue() -> (c: Rgba8)
        ensures
            c == (Rgba8 { r: 0, g: 0, b: 0xff, a: 0xff }),
    {
        Rgba8 { r: 0, g: 0, b: 0xff, a: 0xff }
    }

    /// The color code `#rrggbbaa`, lower-case.
    pub fn to_string(&self) -> (s: String)
        ensures
            s@ == self.hex_code(),
    {
        let mut s = String::new();
        proof {
            reveal_strlit("#");
        }
        s.append("#");
        push_hex_byte(&mut s, self.r);
        push_hex_byte(&mut s, self.g);
        push_hex_byte(&mut s, self.b);
        push_hex_byte(&mut s, self.a);
        s
    }

    /// Reads a color code of the form `#rrggbb` (digits of either case);
    /// the alpha is always opaque.
    pub fn from_str(code: &str) -> (res: Result<Rgba8, ParseColorError>)
        ensures
            code.spec_bytes().len() != 7 ==> res == Err::<
                Rgba8,
                ParseColorError,
            >(ParseColorError::InvalidLength),
            code.spec_bytes().len() == 7 && code.spec_bytes()[0] != 35 ==> res == Err::<
                Rgba8,
                ParseColorError,
            >(ParseColorError::MissingHash),
            code.spec_bytes().len() == 7 && code.spec_bytes()[0] == 35 && !is_color_code(
                code.spec_bytes(),
            ) ==> res == Err::<Rgba8, ParseColorError>(ParseColorError::InvalidDigit),
            is_color_code(code.spec_bytes()) ==> res == Ok::<Rgba8, ParseColorError>(
                Rgba8 {
                    r: hex_pair(code.spec_bytes()[1], code.spec_bytes()[2]) as u8,
                    g: hex_pair(code.spec_bytes()[3], code.spec_bytes()[4]) as u8,
                    b: hex_pair(code.spec_bytes()[5], code.spec_bytes()[6]) as u8,
                    a: 0xff,
                },
            ),
    {
        let bytes = code.as_bytes();
        if bytes.len() != 7 {
            return Err(ParseColorError::InvalidLength);
        }
        if bytes[0] != 35 {
            return Err(ParseColorError::MissingHash);
        }
        let mut v: [u8; 6] = [0; 6];
        let mut i: usize = 0;
        while i < 6
            invariant
                bytes@ == code.spec_bytes(),
                bytes@.len() == 7,
                bytes@[0] == 35,
                0 <= i <= 6,
                forall|j: int| 1 <= j < i + 1 ==> is_hex_digit(#[trigger] bytes@[j]),
                forall|j: int| 0 <= j < i ==> #[trigger] v@[j] == hex_value(bytes@[j + 1]),
                forall|j: int| 0 <= j < i ==> #[trigger] v@[j] < 16,
            decreases 6 - i,
        {
            match digit_value(bytes[i + 1]) {
                Some(d) => {
                    v[i] = d;
                },
                None => {
                    return Err(ParseColorError::InvalidDigit);
                },
            }
            i = i + 1;
        }
        assert(v@[0] < 16 && v@[1] < 16 && v@[2] < 16 && v@[3] < 16 && v@[4] < 16 && v@[5] < 16);
        assert(is_color_code(bytes@));
        assert(v@[0] == hex_value(bytes@[1]) && v@[1] == hex_value(bytes@[2]));
        assert(v@[2] == hex_value(bytes@[3]) && v@[3] == hex_value(bytes@[4]));
        assert(v@[4] == hex_value(bytes@[5]) && v@[5] == hex_value(bytes@[6]));
        Ok(Rgba8 { r: 16 * v[0] + v[1], g: 16 * v[2] + v[3], b: 16 * v[4] + v[5], a: 0xff })
    }
}

impl From<u32> for Rgba8 {
    /// Splits `v` into its bytes, red in the least significant one.
    fn from(v: u32) -> (c: Rgba8) {
        Rgba8 {
            r: (v & 0xff) as u8,
            g: ((v >> 8u32) & 0xff) as u8,
            b: ((v >> 16u32) & 0xff) as u8,
            a: ((v >> 24u32) & 0xff) as u8,
        }
    }
}

impl vstd::std_specs::convert::FromSpecImpl<u32> for Rgba8 {
    open spec fn obeys_from_spec() -> bool {
        true
    }

    open spec fn from_spec(v: u32) -> Rgba8 {
        Rgba8::from_u32_spec(v)
    }
}

impl Bgra8 {
    /// The four texel bytes of this color in its own channel order.
    pub open spec fn bytes(self) -> Seq<u8> {
        seq![self.b, self.g, self.r, self.a]
    }

    pub fn new(b: u8, g: u8, r: u8, a: u8) -> (c: Bgra8)
        ensures
            c == (Bgra8 { b, g, r, a }),
    {
        Bgra8 { b, g, r, a }
    }
}

impl From<Rgba8> for Bgra8 {
    fn from(c: Rgba8) -> (d: Bgra8) {
        Bgra8 { b: c.b, g: c.g, r: c.r, a: c.a }
    }
}

impl vstd::std_specs::convert::FromSpecImpl<Rgba8> for Bgra8 {
    open spec fn obeys_from_spec() -> bool {
        true
    }

    open spec fn from_spec(c: Rgba8) -> Bgra8 {
        Bgra8 { b: c.b, g: c.g, r: c.r, a: c.a }
    }
}

impl From<Bgra8> for Rgba8 {
    fn from(c: Bgra8) -> (d: Rgba8) {
        Rgba8 { r: c.r, g: c.g, b: c.b, a: c.a }
    }
}

impl vstd::std_specs::convert::FromSpecImpl<Bgra8> for Rgba8 {
    open spec fn obeys_from_spec() -> bool {
        true
    }

    open spec fn from_spec(c: Bgra8) -> Rgba8 {
        Rgba8 { r: c.r, g: c.g, b: c.b, a: c.a }
    }
}

/// Reordering the channels to blue-first and back gives the color back, and
/// the blue-first texel holds the same channels in swapped places.
pub proof fn lemma_bgra_round_trip(c: Rgba8)
    ensures
        <Rgba8 as vstd::std_specs::convert::FromSpec<Bgra8>>::from_spec(
            <Bgra8 as vstd::std_specs::convert::FromSpec<Rgba8>>::from_spec(c),
        ) == c,
        <Bgra8 as vstd::std_specs::convert::FromSpec<Rgba8>>::from_spec(c).bytes() == seq![
            c.b,
            c.g,
            c.r,
            c.a,
        ],
{
}

} // verus!
