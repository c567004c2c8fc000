//! Editions of the Cairo language.
use vstd::prelude::*;

use crate::text::equal;

verus! {

/// An edition of the Cairo language.
#[derive(Clone, Copy, Debug, PartialEq, Eq, Structural)]
pub enum Edition {
    V2023_01,
    V2023_10,
    V2023_11,
    V2024_07,
    V2025_12,
}

/// `cairo_lang_filesystem::db::Edition::default`: the base edition, 2023_01.
#[verifier::external_body]
fn default_edition() -> (edition: Edition)
    ensures
        edition == Edition::V2023_01,
{
    match cairo_lang_filesystem::db::Edition::default() {
        cairo_lang_filesystem::db::Edition::V2023_01 => Edition::V2023_01,
        cairo_lang_filesystem::db::Edition::V2023_10 => Edition::V2023_10,
        cairo_lang_filesystem::db::Edition::V2023_11 => Edition::V2023_11,
        cairo_lang_filesystem::db::Edition::V2024_07 => Edition::V2024_07,
        cairo_lang_filesystem::db::Edition::V2025_12 => Edition::V2025_12,
    }
}

impl Default for Edition {
    /// The base edition.
    fn default() -> (edition: Self)
        ensures
            edition == Edition::V2023_01,
    {
        default_edition()
    }
}

/// The edition that a text names. A text that names none stands for the base edition.
pub open spec fn edition_named(name: Seq<char>) -> Edition {
    if name == "2023_01"@ {
        Edition::V2023_01
    } else if name == "2023_10"@ {
        Edition::V2023_10
    } else if name == "2023_11"@ {
        Edition::V2023_11
    } else if name == "2024_07"@ {
        Edition::V2024_07
    } else if name == "2025_12"@ {
        Edition::V2025_12
    } else {
        Edition::V2023_01
    }
}

/// Each edition has a name of its own, and every other text stands for the base edition.
pub proof fn law_editions_have_names(name: Seq<char>)
    ensures
        edition_named("2023_01"@) == Edition::V2023_01,
        edition_named("2023_10"@) == Edition::V2023_10,
        edition_named("2023_11"@) == Edition::V2023_11,
        edition_named("2024_07"@) == Edition::V2024_07,
        edition_named("2025_12"@) == Edition::V2025_12,
        edition_named(name) == Edition::V2023_10 ==> name == "2023_10"@,
        edition_named(name) == Edition::V2023_11 ==> name == "2023_11"@,
        edition_named(name) == Edition::V2024_07 ==> name == "2024_07"@,
        edition_named(name) == Edition::V2025_12 ==> name == "2025_12"@,
{
    reveal_strlit("2023_01");
    reveal_strlit("2023_10");
    reveal_strlit("2023_11");
    reveal_strlit("2024_07");
    reveal_strlit("2025_12");
    assert("2023_01"@[5] == '0' && "2023_10"@[5] == '1' && "2023_11"@[5] == '1');
    assert("2023_10"@[6] == '0' && "2023_11"@[6] == '1');
    assert("2024_07"@[3] == '4' && "2025_12"@[3] == '5' && "2023_01"@[3] == '3' && "2023_10"@[3]
        == '3' && "2023_11"@[3] == '3');
}

/// Reads an edition such as `2024_07`. What is no edition is read as the default one.
pub fn parse_edition(s: &str) -> (edition: Edition)
    ensures
        edition == edition_named(s@),
        s@ == "2023_01"@ ==> edition == Edition::V2023_01,
        s@ == "2023_10"@ ==> edition == Edition::V2023_10,
        s@ == "2023_11"@ ==> edition == Edition::V2023_11,
        s@ == "2024_07"@ ==> edition == Edition::V2024_07,
        s@ == "2025_12"@ ==> edition == Edition::V2025_12,
        edition != Edition::V2023_01 ==> s@ == "2023_10"@ || s@ == "2023_11"@ || s@ == "2024_07"@
            || s@ == "2025_12"@,
{
    proof {
        law_editions_have_names(s@);
    }
    if equal(s, "2023_01") {
        Edition::V2023_01
    } else if equal(s, "2023_10") {
        Edition::V2023_10
    } else if equal(s, "2023_11") {
        Edition::V2023_11
    } else if equal(s, "2024_07") {
        Edition::V2024_07
    } else if equal(s, "2025_12") {
        Edition::V2025_12
    } else {
        Edition::default()
    }
}

} // verus!
