use vstd::prelude::*;

verus! {

/// Whether the logo modifier is written into the notation: only where it is
/// held and the platform leaves it to applications.
pub fn use_logo(logo: bool, logo_modifier_enabled: bool) -> (r: bool)
    ensures
        r == (logo && logo_modifier_enabled),
{
    logo && logo_modifier_enabled
}

/// `text` where `condition` holds, the empty string otherwise.
pub fn or_empty<'a>(condition: bool, text: &'a str) -> (r: &'a str)
    ensures
        r@ == (if condition { text@ } else { Seq::<char>::empty() }),
{
    if condition {
        text
    } else {
        proof {
            reveal_strlit("");
        }
        ""
    }
}

/// `piece` where `condition` holds, nothing otherwise.
pub open spec fn fragment(condition: bool, piece: Seq<char>) -> Seq<char> {
    if condition {
        piece
    } else {
        Seq::empty()
    }
}

/// The modifier prefixes of a keybinding, in the fixed order ctrl, alt, logo; the
/// logo prefix only where the platform leaves the logo modifier to applications.
pub open spec fn modifier_prefix(
    ctrl: bool,
    alt: bool,
    logo: bool,
    logo_modifier_enabled: bool,
) -> Seq<char> {
    fragment(ctrl, seq!['C', '-']) + fragment(alt, seq!['M', '-']) + fragment(
        logo && logo_modifier_enabled,
        seq!['D', '-'],
    )
}

/// The keybinding notation of a token under the held modifiers: it is wrapped in
/// angle brackets when it is special or any modifier is held (the logo modifier
/// counts here even where it is not written), and the modifier prefixes stand
/// between the opening bracket and the token.
pub open spec fn keybinding(
    special: bool,
    text: Seq<char>,
    ctrl: bool,
    alt: bool,
    logo: bool,
    logo_modifier_enabled: bool,
) -> Seq<char> {
    let wrap = special || ctrl || alt || logo;
    fragment(wrap, seq!['<']) + modifier_prefix(ctrl, alt, logo, logo_modifier_enabled) + text
        + fragment(wrap, seq!['>'])
}

} // verus!
