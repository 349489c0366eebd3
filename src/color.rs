use vstd::prelude::*;

verus! {

/// A color the device can show: one of a small named palette, or an explicit
/// red/green/blue triple.
#[derive(Debug, Clone, Copy, PartialEq, Eq, Structural)]
pub enum Color {
    Red,
    Green,
    Blue,
    Three(u8, u8, u8),
}

impl Color {
    /// The channel values of this color.
    pub open spec fn spec_rgb(self) -> (u8, u8, u8) {
        match self {
            Color::Red => (255, 0, 0),
            Color::Green => (0, 255, 0),
            Color::Blue => (0, 0, 255),
            Color::Three(r, g, b) => (r, g, b),
        }
    }

    /// Returns the red, green and blue channel bytes.
    pub fn rgb(&self) -> (r: (u8, u8, u8))
        ensures
            r == self.spec_rgb(),
    {
        match self {
            Color::Red => (0xff, 0x00, 0x00),
            Color::Green => (0x00, 0xff, 0x00),
            Color::Blue => (0x00, 0x00, 0xff),
            Color::Three(r, g, b) => (*r, *g, *b),
        }
    }
}

/// The code point of a character after ASCII lower-casing; other characters
/// keep their own code point.
pub open spec fn fold_char(c: char) -> u32 {
    if 'A' <= c && c <= 'Z' {
        (c as u32 + 32) as u32
    } else {
        c as u32
    }
}

/// `a` and `b` are equal up to ASCII case.
pub open spec fn fold_eq(a: Seq<char>, b: Seq<char>) -> bool {
    &&& a.len() == b.len()
    &&& forall|i: int| 0 <= i < a.len() ==> fold_char(#[trigger] a[i]) == fold_char(b[i])
}

/// The color that a name denotes: the palette names are matched without
/// regard to case, and every other name (including "off") is black.
pub open spec fn color_named(name: Seq<char>) -> Color {
    if fold_eq(name, seq!['r', 'e', 'd']) {
        Color::Red
    } else if fold_eq(name, seq!['g', 'r', 'e', 'e', 'n']) {
        Color::Green
    } else if fold_eq(name, seq!['b', 'l', 'u', 'e']) {
        Color::Blue
    } else {
        Color::Three(0, 0, 0)
    }
}

fn fold(c: char) -> (r: u32)
    ensures
        r == fold_char(c),
{
    if 'A' <= c && c <= 'Z' {
        (c as u32) + 32
    } else {
        c as u32
    }
}

/// Compares two strings up to ASCII case.
pub fn names_equal(a: &str, b: &str) -> (r: bool)
    ensures
        r == fold_eq(a@, b@),
{
    let n = a.unicode_len();
    if n != b.unicode_len() {
        return false;
    }
    let mut i: usize = 0;
    while i < n
        invariant
            n == a@.len(),
            n == b@.len(),
            i <= n,
            forall|j: int| 0 <= j < i ==> fold_char(#[trigger] a@[j]) == fold_char(b@[j]),
        decreases n - i,
    {
        if fold(a.get_char(i)) != fold(b.get_char(i)) {
            return false;
        }
        i = i + 1;
    }
    true
}

impl From<&str> for Color {
    /// Looks a color up by name; an unknown name gives black.
    fn from(name: &str) -> (r: Color)
        ensures
            r == color_named(name@),
    {
        proof {
            reveal_strlit("red");
            reveal_strlit("green");
            reveal_strlit("blue");
        }
        if names_equal(name, "red") {
            Color::Red
        } else if names_equal(name, "green") {
            Color::Green
        } else if names_equal(name, "blue") {
            Color::Blue
        } else {
            Color::Three(0, 0, 0)
        }
    }
}

impl vstd::std_specs::convert::FromSpecImpl<&str> for Color {
    open spec fn obeys_from_spec() -> bool {
        true
    }

    open spec fn from_spec(name: &str) -> Color {
        color_named(name@)
    }
}

} // verus!
