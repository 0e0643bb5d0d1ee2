//! Derived names: the slug by which agents, labels and resource
//! specifications are found again.

use vstd::prelude::*;

verus! {

/// The lowercase form of a text, as `str::to_lowercase` computes it.
pub uninterp spec fn lowercase(text: Seq<char>) -> Seq<char>;

/// A text with each space replaced by an underscore.
pub open spec fn underscored(text: Seq<char>) -> Seq<char> {
    text.map_values(|c: char| if c == ' ' { '_' } else { c })
}

/// The slug of a display name: lowercased, then spaces turned into
/// underscores.
pub open spec fn slug(name: Seq<char>) -> Seq<char> {
    underscored(lowercase(name))
}

/// `str::to_lowercase` returns the lowercase form of its argument. The form
/// itself (Unicode's lowercase mapping) is not written out here; it is only
/// given the name `lowercase`.
pub assume_specification[ str::to_lowercase ](s: &str) -> (lowered: String)
    ensures
        lowered@ == lowercase(s@),
;

/// `str::replace`, for a pattern of exactly one character and a replacement
/// of exactly one character: every occurrence of the pattern's character is
/// replaced, every other character stays, and the order is kept.
#[verifier::external_body]
fn replace_char(text: &str, from: &str, to: &str) -> (replaced: String)
    requires
        from@.len() == 1,
        to@.len() == 1,
    ensures
        replaced@ == text@.map_values(|c: char| if c == from@[0] { to@[0] } else { c }),
{
    text.replace(from, to)
}

/// Replaces every space of `text` by an underscore.
pub fn underscore_spaces(text: &str) -> (replaced: String)
    ensures
        replaced@ == underscored(text@),
{
    proof {
        reveal_strlit(" ");
        reveal_strlit("_");
    }
    replace_char(text, " ", "_")
}

/// Derives the unique name of an entity from its display name.
pub fn unique_name(name: &str) -> (derived: String)
    ensures
        derived@ == slug(name@),
{
    let lowered = name.to_lowercase();
    underscore_spaces(lowered.as_str())
}

} // verus!
