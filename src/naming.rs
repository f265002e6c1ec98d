//! Default instance names such as `My Second Server`.
use vstd::prelude::*;
use crate::instance::InstanceType;

verus! {

/// The English ordinal name of `n` (`second`), as number_names writes it.
pub uninterp spec fn ordinal_name(n: u64) -> Seq<char>;

/// `s` with its first character in title case and the rest in lower case,
/// as the capitalize crate writes it.
pub uninterp spec fn capitalized(s: Seq<char>) -> Seq<char>;

/// Relies on `number_names::ordinal`: the ordinal name of a number, which
/// depends on the number alone.
#[verifier::external_body]
fn ordinal(n: u64) -> (r: String)
    ensures
        r@ == ordinal_name(n),
{
    number_names::ordinal(n)
}

/// Relies on `capitalize::Capitalize::capitalize` for `&str`: the text with
/// its first character in title case and the rest in lower case, which
/// depends on the text alone.
#[verifier::external_body]
fn capitalize_text(s: &str) -> (r: String)
    ensures
        r@ == capitalized(s@),
{
    capitalize::Capitalize::capitalize(&s)
}

/// The default name built around an ordinal: `My <ordinal> <Kind>`.
pub open spec fn name_with_ordinal(ordinal: Seq<char>, kind: InstanceType) -> Seq<char> {
    "My "@ + ordinal + " "@ + kind.spec_label()
}

/// The default name for the next instance of a kind, given the ordinal
/// already written out and capitalised.
pub fn name_from_ordinal(ordinal: &str, kind: InstanceType) -> (r: String)
    ensures
        r@ == name_with_ordinal(ordinal@, kind),
{
    let mut s = String::from_str("My ");
    s.append(ordinal);
    s.append(" ");
    let label = kind.to_string();
    s.append(label.as_str());
    s
}

/// The default name of a new instance where `count` instances of its kind
/// exist: `My Second Server` after one server.
pub fn default_name(count: u64, kind: InstanceType) -> (r: String)
    requires
        count < u64::MAX,
    ensures
        r@ == name_with_ordinal(capitalized(ordinal_name((count + 1) as u64)), kind),
{
    let word = ordinal(count + 1);
    let cap = capitalize_text(word.as_str());
    name_from_ordinal(cap.as_str(), kind)
}

} // verus!
