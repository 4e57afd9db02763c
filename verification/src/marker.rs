//! The footnote marker mapper: from the letter that tags a footnote reference
//! to the glyph shown in the running text.

use vstd::prelude::*;
use vstd::string::*;

verus! {

/// The raised form of a lower-case ASCII letter. The letter `q` has no raised
/// form of its own and stands for itself. No other character has one.
pub open spec fn superscript(letter: char) -> Option<char> {
    match letter {
        'a' => Some('ᵃ'),
        'b' => Some('ᵇ'),
        'c' => Some('ᶜ'),
        'd' => Some('ᵈ'),
        'e' => Some('ᵉ'),
        'f' => Some('ᶠ'),
        'g' => Some('ᵍ'),
        'h' => Some('ʰ'),
        'i' => Some('ⁱ'),
        'j' => Some('ʲ'),
        'k' => Some('ᵏ'),
        'l' => Some('ˡ'),
        'm' => Some('ᵐ'),
        'n' => Some('ⁿ'),
        'o' => Some('ᵒ'),
        'p' => Some('ᵖ'),
        'q' => Some('q'),
        'r' => Some('ʳ'),
        's' => Some('ˢ'),
        't' => Some('ᵗ'),
        'u' => Some('ᵘ'),
        'v' => Some('ᵛ'),
        'w' => Some('ʷ'),
        'x' => Some('ˣ'),
        'y' => Some('ʸ'),
        'z' => Some('ᶻ'),
        _ => None,
    }
}

/// The glyph for a reference tag: the raised form of its letter where the tag
/// is exactly one letter that has one, and nothing otherwise.
pub open spec fn marker_glyph(tag: Seq<char>) -> Option<Seq<char>> {
    if tag.len() == 1 {
        match superscript(tag[0]) {
            Some(glyph) => Some(seq![glyph]),
            None => None,
        }
    } else {
        None
    }
}

/// The glyph for a tag that may be absent.
pub open spec fn optional_marker_glyph(tag: Option<Seq<char>>) -> Option<Seq<char>> {
    match tag {
        Some(t) => marker_glyph(t),
        None => None,
    }
}

/// Maps a reference tag to its glyph. A missing tag, a tag of several
/// characters and a tag that is no lower-case ASCII letter have none.
pub fn footnote_unicode(string: Option<&str>) -> (glyph: Option<&'static str>)
    ensures
        match optional_marker_glyph(
            match string {
                Some(s) => Some(s@),
                None => None,
            },
        ) {
            Some(g) => glyph matches Some(found) && found@ == g,
            None => glyph is None,
        },
{
    let input = match string {
        Some(s) => s,
        None => {
            return None;
        },
    };
    if input.unicode_len() != 1 {
        return None;
    }
    match input.get_char(0) {
        'a' => {
            proof {
                reveal_strlit("ᵃ");
            }
            Some("ᵃ")
        },
        'b' => {
            proof {
                reveal_strlit("ᵇ");
            }
            Some("ᵇ")
        },
        'c' => {
            proof {
                reveal_strlit("ᶜ");
            }
            Some("ᶜ")
        },
        'd' => {
            proof {
                reveal_strlit("ᵈ");
            }
            Some("ᵈ")
        },
        'e' => {
            proof {
                reveal_strlit("ᵉ");
            }
            Some("ᵉ")
        },
        'f' => {
            proof {
                reveal_strlit("ᶠ");
            }
            Some("ᶠ")
        },
        'g' => {
            proof {
                reveal_strlit("ᵍ");
            }
            Some("ᵍ")
        },
        'h' => {
            proof {
                reveal_strlit("ʰ");
            }
            Some("ʰ")
        },
        'i' => {
            proof {
                reveal_strlit("ⁱ");
            }
            Some("ⁱ")
        },
        'j' => {
            proof {
                reveal_strlit("ʲ");
            }
            Some("ʲ")
        },
        'k' => {
            proof {
                reveal_strlit("ᵏ");
            }
            Some("ᵏ")
        },
        'l' => {
            proof {
                reveal_strlit("ˡ");
            }
            Some("ˡ")
        },
        'm' => {
            proof {
                reveal_strlit("ᵐ");
            }
            Some("ᵐ")
        },
        'n' => {
            proof {
                reveal_strlit("ⁿ");
            }
            Some("ⁿ")
        },
        'o' => {
            proof {
                reveal_strlit("ᵒ");
            }
            Some("ᵒ")
        },
        'p' => {
            proof {
                reveal_strlit("ᵖ");
            }
            Some("ᵖ")
        },
        'q' => {
            proof {
                reveal_strlit("q");
            }
            Some("q")
        },
        'r' => {
            proof {
                reveal_strlit("ʳ");
            }
            Some("ʳ")
        },
        's' => {
            proof {
                reveal_strlit("ˢ");
            }
            Some("ˢ")
        },
        't' => {
            proof {
                reveal_strlit("ᵗ");
            }
            Some("ᵗ")
        },
        'u' => {
            proof {
                reveal_strlit("ᵘ");
            }
            Some("ᵘ")
        },
        'v' => {
            proof {
                reveal_strlit("ᵛ");
            }
            Some("ᵛ")
        },
        'w' => {
            proof {
                reveal_strlit("ʷ");
            }
            Some("ʷ")
        },
        'x' => {
            proof {
                reveal_strlit("ˣ");
            }
            Some("ˣ")
        },
        'y' => {
            proof {
                reveal_strlit("ʸ");
            }
            Some("ʸ")
        },
        'z' => {
            proof {
                reveal_strlit("ᶻ");
            }
            Some("ᶻ")
        },
        _ => None,
    }
}

} // verus!
