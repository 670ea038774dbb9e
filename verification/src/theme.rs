//! System accent color: `#rrggbb` strings from an RGB triple or from GNOME's named
//! accents.

use vstd::prelude::*;

use crate::text::{hex2, push_hex2, str_eq, trim_set, trimmed, TrimSet};

verus! {

/// The palette value of a GNOME 47+ named accent.
pub open spec fn spec_gnome_accent_hex(name: Seq<char>) -> Option<Seq<char>> {
    if name == "blue"@ {
        Some("#3584e4"@)
    } else if name == "teal"@ {
        Some("#2190a4"@)
    } else if name == "green"@ {
        Some("#3a944a"@)
    } else if name == "yellow"@ {
        Some("#c88800"@)
    } else if name == "orange"@ {
        Some("#ed5b00"@)
    } else if name == "red"@ {
        Some("#e62d42"@)
    } else if name == "pink"@ {
        Some("#d56199"@)
    } else if name == "purple"@ {
        Some("#9141ac"@)
    } else if name == "slate"@ {
        Some("#6f8396"@)
    } else {
        None
    }
}

/// GNOME 47+ named accents mapped to their palette hex values.
pub fn gnome_accent_hex(name: &str) -> (r: Option<&'static str>)
    ensures
        r matches Some(h) ==> spec_gnome_accent_hex(name@) == Some(h@),
        r is None ==> spec_gnome_accent_hex(name@) is None,
{
    if str_eq(name, "blue") {
        Some("#3584e4")
    } else if str_eq(name, "teal") {
        Some("#2190a4")
    } else if str_eq(name, "green") {
        Some("#3a944a")
    } else if str_eq(name, "yellow") {
        Some("#c88800")
    } else if str_eq(name, "orange") {
        Some("#ed5b00")
    } else if str_eq(name, "red") {
        Some("#e62d42")
    } else if str_eq(name, "pink") {
        Some("#d56199")
    } else if str_eq(name, "purple") {
        Some("#9141ac")
    } else if str_eq(name, "slate") {
        Some("#6f8396")
    } else {
        None
    }
}

/// The accent name in `gsettings get org.gnome.desktop.interface accent-color` output:
/// the trimmed text with its surrounding single quotes removed.
pub open spec fn spec_gsettings_accent_name(raw: Seq<char>) -> Seq<char> {
    trimmed(trimmed(raw, TrimSet::WhiteSpace), TrimSet::Char('\''))
}

/// The accent name in `gsettings` output (`'blue'\n` gives `blue`).
pub fn gsettings_accent_name(raw: &str) -> (name: String)
    ensures
        name@ == spec_gsettings_accent_name(raw@),
{
    let t = trim_set(raw, TrimSet::WhiteSpace);
    trim_set(t.as_str(), TrimSet::Char('\''))
}

/// The accent color for `gsettings` output, when it names a known GNOME accent.
pub fn accent_from_gsettings(raw: &str) -> (r: Option<&'static str>)
    ensures
        r matches Some(h) ==> spec_gnome_accent_hex(spec_gsettings_accent_name(raw@)) == Some(h@),
        r is None ==> spec_gnome_accent_hex(spec_gsettings_accent_name(raw@)) is None,
{
    let name = gsettings_accent_name(raw);
    gnome_accent_hex(name.as_str())
}

/// An RGB color as `#rrggbb` with lower-case hex digits.
pub fn rgb_hex(r: u8, g: u8, b: u8) -> (s: String)
    ensures
        s@ == seq!['#'] + hex2(r, false) + hex2(g, false) + hex2(b, false),
{
    let mut s = String::new();
    s.push('#');
    push_hex2(&mut s, r, false);
    push_hex2(&mut s, g, false);
    push_hex2(&mut s, b, false);
    s
}

} // verus!
