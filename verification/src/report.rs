//! Which spans of a trace are reported.

use vstd::prelude::*;
use vstd::string::*;

verus! {

/// The name of the spans that are reported: those of storage loads.
pub open spec fn reported_name() -> Seq<char> {
    seq!['s', 'l', 'o', 'a', 'd']
}

/// Whether a span of this name is reported.
pub fn is_reported_span(name: &str) -> (reported: bool)
    ensures
        reported == (name@ == reported_name()),
{
    let reported = name.unicode_len() == 5 && name.get_char(0) == 's' && name.get_char(1) == 'l'
        && name.get_char(2) == 'o' && name.get_char(3) == 'a' && name.get_char(4) == 'd';
    assert(reported ==> name@ =~= reported_name());
    reported
}

} // verus!
