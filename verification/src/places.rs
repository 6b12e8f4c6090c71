//! Display names of places found by search or picked on the map.

use vstd::prelude::*;
use vstd::string::*;

verus! {

/// "name, country" when both are known.
pub open spec fn joined(name: Seq<char>, country: Seq<char>) -> Seq<char> {
    name + ", "@ + country
}

/// The name of a search result: "name, country", or the name alone when the country
/// is empty.
pub fn search_display_name(name: &str, country: &str) -> (r: String)
    ensures
        r@ == (if country@.len() > 0 { joined(name@, country@) } else { name@ }),
{
    let mut s = String::from_str(name);
    if country.unicode_len() > 0 {
        s.append(", ");
        s.append(country);
    }
    s
}

/// The name of a place picked on the map from its reverse-geocoding: "name, country"
/// when both are known, the name alone when only it is known, and `None` when there is
/// no name, in which case the place goes by its coordinates.
pub fn place_name(name: &str, country: &str) -> (r: Option<String>)
    ensures
        r.deep_view() == (if name@.len() == 0 {
            None
        } else if country@.len() == 0 {
            Some(name@)
        } else {
            Some(joined(name@, country@))
        }),
{
    if name.unicode_len() == 0 {
        return None;
    }
    let mut s = String::from_str(name);
    if country.unicode_len() > 0 {
        s.append(", ");
        s.append(country);
    }
    Some(s)
}

} // verus!
