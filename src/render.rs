//! The textual form of a snapshot: the keys and values that a consumer sees.
use vstd::prelude::*;
use crate::appearance::{Appearance, ColorSchemeKind, ContrastKind, Rgb};

verus! {

/// The lowercase hexadecimal digits, by value.
pub open spec fn hex_digits() -> Seq<char> {
    seq!['0', '1', '2', '3', '4', '5', '6', '7', '8', '9', 'a', 'b', 'c', 'd', 'e', 'f']
}

/// Two lowercase hexadecimal digits, high nibble first.
pub open spec fn byte_hex(b: u8) -> Seq<char> {
    seq![hex_digits()[(b / 16) as int], hex_digits()[(b % 16) as int]]
}

/// `#rrggbb` in lowercase hexadecimal.
pub open spec fn color_hex(c: Rgb) -> Seq<char> {
    seq!['#'] + byte_hex(c.red) + byte_hex(c.green) + byte_hex(c.blue)
}

pub open spec fn scheme_label(k: ColorSchemeKind) -> Seq<char> {
    match k {
        ColorSchemeKind::Light => seq!['l', 'i', 'g', 'h', 't'],
        ColorSchemeKind::Dark => seq!['d', 'a', 'r', 'k'],
    }
}

pub open spec fn contrast_label(k: ContrastKind) -> Seq<char> {
    match k {
        ContrastKind::High => seq!['h', 'i', 'g', 'h'],
    }
}

pub open spec fn accent_key() -> Seq<char> {
    seq!['a', 'c', 'c', 'e', 'n', 't', '-', 'c', 'o', 'l', 'o', 'r']
}

pub open spec fn scheme_key() -> Seq<char> {
    seq!['c', 'o', 'l', 'o', 'r', '-', 's', 'c', 'h', 'e', 'm', 'e']
}

pub open spec fn contrast_key() -> Seq<char> {
    seq!['c', 'o', 'n', 't', 'r', 'a', 's', 't']
}

/// The key/value pairs of a snapshot, in the order accent color, color
/// scheme, contrast; an absent field has no pair.
pub open spec fn entries_of(a: Appearance) -> Seq<(Seq<char>, Seq<char>)> {
    let accent = match a.accent_color {
        Some(c) => seq![(accent_key(), color_hex(c))],
        None => Seq::empty(),
    };
    let scheme = match a.color_scheme {
        Some(k) => seq![(scheme_key(), scheme_label(k))],
        None => Seq::empty(),
    };
    let contrast = match a.contrast {
        Some(k) => seq![(contrast_key(), contrast_label(k))],
        None => Seq::empty(),
    };
    accent + scheme + contrast
}

/// A value that a consumer may see under `key`: a `#rrggbb` color for the
/// accent color, `light` or `dark` for the color scheme, `high` for contrast.
pub open spec fn is_literal_value(key: Seq<char>, value: Seq<char>) -> bool {
    ||| key == accent_key() && value.len() == 7 && value[0] == '#' && (forall|i: int|
        1 <= i < 7 ==> hex_digits().contains(#[trigger] value[i]))
    ||| key == scheme_key() && (value == scheme_label(ColorSchemeKind::Light) || value
        == scheme_label(ColorSchemeKind::Dark))
    ||| key == contrast_key() && value == contrast_label(ContrastKind::High)
}

fn hex_digit(n: u8) -> (r: &'static str)
    requires
        n < 16,
    ensures
        r@ == seq![hex_digits()[n as int]],
{
    proof {
        reveal_strlit("0");
        reveal_strlit("1");
        reveal_strlit("2");
        reveal_strlit("3");
        reveal_strlit("4");
        reveal_strlit("5");
        reveal_strlit("6");
        reveal_strlit("7");
        reveal_strlit("8");
        reveal_strlit("9");
        reveal_strlit("a");
        reveal_strlit("b");
        reveal_strlit("c");
        reveal_strlit("d");
        reveal_strlit("e");
        reveal_strlit("f");
    }
    match n {
        0 => "0",
        1 => "1",
        2 => "2",
        3 => "3",
        4 => "4",
        5 => "5",
        6 => "6",
        7 => "7",
        8 => "8",
        9 => "9",
        10 => "a",
        11 => "b",
        12 => "c",
        13 => "d",
        14 => "e",
        _ => "f",
    }
}

fn push_byte_hex(s: &mut String, b: u8)
    ensures
        final(s)@ == old(s)@ + byte_hex(b),
{
    s.append(hex_digit(b / 16));
    s.append(hex_digit(b % 16));
    assert(final(s)@ =~= old(s)@ + byte_hex(b));
}

impl Rgb {
    /// The color as `#rrggbb` in lowercase hexadecimal.
    pub fn to_hex(&self) -> (r: String)
        ensures
            r@ == color_hex(*self),
    {
        proof {
            reveal_strlit("#");
        }
        let mut s = String::from_str("#");
        push_byte_hex(&mut s, self.red);
        push_byte_hex(&mut s, self.green);
        push_byte_hex(&mut s, self.blue);
        assert(s@ =~= color_hex(*self));
        s
    }
}

impl ColorSchemeKind {
    /// `light` or `dark`.
    pub fn label(&self) -> (r: &'static str)
        ensures
            r@ == scheme_label(*self),
    {
        proof {
            reveal_strlit("light");
            reveal_strlit("dark");
        }
        match self {
            ColorSchemeKind::Light => "light",
            ColorSchemeKind::Dark => "dark",
        }
    }
}

impl ContrastKind {
    /// `high`.
    pub fn label(&self) -> (r: &'static str)
        ensures
            r@ == contrast_label(*self),
    {
        proof {
            reveal_strlit("high");
        }
        match self {
            ContrastKind::High => "high",
        }
    }
}

/// What a consumer reads of one key/value pair.
pub open spec fn entry_view(e: (String, String)) -> (Seq<char>, Seq<char>) {
    (e.0@, e.1@)
}

impl Appearance {
    /// The key/value pairs a consumer sees, in the order accent color, color
    /// scheme, contrast; an absent field is left out, never written as null.
    pub fn entries(&self) -> (r: Vec<(String, String)>)
        ensures
            r@.len() == entries_of(*self).len(),
            forall|i: int| 0 <= i < r@.len() ==> entry_view(#[trigger] r@[i]) == entries_of(*self)[i],
    {
        proof {
            reveal_strlit("accent-color");
            reveal_strlit("color-scheme");
            reveal_strlit("contrast");
        }
        let mut r: Vec<(String, String)> = Vec::new();
        assert(r@.len() == 0);
        let ghost mut expected: Seq<(Seq<char>, Seq<char>)> = Seq::empty();
        if let Some(c) = self.accent_color {
            r.push((String::from_str("accent-color"), c.to_hex()));
            proof {
                expected = expected.push((accent_key(), color_hex(c)));
            }
        }
        if let Some(k) = self.color_scheme {
            r.push((String::from_str("color-scheme"), String::from_str(k.label())));
            proof {
                expected = expected.push((scheme_key(), scheme_label(k)));
            }
        }
        if let Some(k) = self.contrast {
            r.push((String::from_str("contrast"), String::from_str(k.label())));
            proof {
                expected = expected.push((contrast_key(), contrast_label(k)));
            }
        }
        assert(expected =~= entries_of(*self));
        assert(r@.len() == expected.len());
        r
    }
}

/// Every key/value pair of every snapshot is one of the enumerated literal
/// forms: no field ever shows anything else.
pub proof fn lemma_entries_are_literals(a: Appearance)
    ensures
        forall|i: int|
            0 <= i < entries_of(a).len() ==> is_literal_value(
                #[trigger] entries_of(a)[i].0,
                entries_of(a)[i].1,
            ),
{
    if let Some(c) = a.accent_color {
        lemma_hex_is_digits(c);
    }
    assert forall|i: int| 0 <= i < entries_of(a).len() implies is_literal_value(
        #[trigger] entries_of(a)[i].0,
        entries_of(a)[i].1,
    ) by {
        let e = entries_of(a)[i];
        if e.0 == accent_key() {
            assert(e.0 != scheme_key() && e.0 != contrast_key());
        }
    }
}

proof fn lemma_hex_is_digits(c: Rgb)
    ensures
        color_hex(c).len() == 7,
        color_hex(c)[0] == '#',
        forall|i: int| 1 <= i < 7 ==> hex_digits().contains(#[trigger] color_hex(c)[i]),
{
    let h = color_hex(c);
    assert forall|i: int| 1 <= i < 7 implies hex_digits().contains(#[trigger] h[i]) by {
        let n: int = if i == 1 {
            (c.red / 16) as int
        } else if i == 2 {
            (c.red % 16) as int
        } else if i == 3 {
            (c.green / 16) as int
        } else if i == 4 {
            (c.green % 16) as int
        } else if i == 5 {
            (c.blue / 16) as int
        } else {
            (c.blue % 16) as int
        };
        assert(h[i] == hex_digits()[n]);
    }
}

} // verus!
