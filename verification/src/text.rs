//! Building the texts that end up in execution records.

use vstd::prelude::*;
use vstd::string::StringExecFns;

verus! {

/// The parts written one after another, with `sep` between neighbours.
pub open spec fn spec_join(parts: Seq<Seq<char>>, sep: Seq<char>) -> Seq<char>
    decreases parts.len(),
{
    if parts.len() == 0 {
        Seq::empty()
    } else if parts.len() == 1 {
        parts[0]
    } else {
        spec_join(parts.drop_last(), sep) + sep + parts.last()
    }
}

/// Joins the parts with `sep` between neighbours.
pub fn join(parts: &Vec<String>, sep: &str) -> (res: String)
    ensures
        res@ == spec_join(parts.deep_view(), sep@),
{
    let mut res = String::new();
    let mut i: usize = 0;
    while i < parts.len()
        invariant
            i <= parts.len(),
            res@ == spec_join(parts.deep_view().take(i as int), sep@),
        decreases parts.len() - i,
    {
        let ghost before = parts.deep_view().take(i as int);
        let ghost after = parts.deep_view().take(i + 1);
        proof {
            assert(after.drop_last() =~= before);
            assert(after.last() == parts[i as int]@);
        }
        if i > 0 {
            res.append(sep);
        }
        res.append(parts[i].as_str());
        proof {
            if i == 0 {
                assert(res@ =~= parts[i as int]@);
            }
        }
        i += 1;
    }
    proof {
        assert(parts.deep_view().take(parts.len() as int) =~= parts.deep_view());
    }
    res
}

/// `head` followed by `tail`.
pub fn appended(head: &str, tail: &str) -> (res: String)
    ensures
        res@ == head@ + tail@,
{
    let mut res = String::from_str(head);
    res.append(tail);
    res
}

} // verus!
