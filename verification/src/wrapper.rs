//! The newtype pattern: a wrapper around a vector of strings that
//! renders itself as a bracketed, comma-separated list.

use vstd::prelude::*;

verus! {

/// `elems` joined with `sep` between neighbours.
pub open spec fn joined(elems: Seq<Seq<char>>, sep: Seq<char>) -> Seq<char>
    decreases elems.len(),
{
    if elems.len() == 0 {
        Seq::empty()
    } else if elems.len() == 1 {
        elems[0]
    } else {
        joined(elems.drop_last(), sep) + sep + elems.last()
    }
}

/// The full rendering: the joined elements between square brackets,
/// separated by a comma and a space.
pub open spec fn wrapper_text(elems: Seq<Seq<char>>) -> Seq<char> {
    seq!['['] + joined(elems, seq![',', ' ']) + seq![']']
}

/// A newtype around a vector of strings, so that rendering can be
/// given to the wrapper even though the vector itself has none.
pub struct Wrapper(pub Vec<String>);

impl View for Wrapper {
    type V = Seq<Seq<char>>;

    open spec fn view(&self) -> Seq<Seq<char>> {
        self.0@.map_values(|s: String| s@)
    }
}

impl Wrapper {
    /// Renders the wrapped strings as `[a, b, c]`.
    pub fn render(&self) -> (s: String)
        ensures
            s@ == wrapper_text(self@),
    {
        proof {
            reveal_strlit("[");
            reveal_strlit(", ");
            reveal_strlit("]");
        }
        let mut s = String::from_str("[");
        proof {
            assert(s@ =~= seq!['['] + joined(self@.take(0), seq![',', ' ']));
        }
        let mut i: usize = 0;
        while i < self.0.len()
            invariant
                i <= self.0.len(),
                self@.len() == self.0.len(),
                s@ == seq!['['] + joined(self@.take(i as int), seq![',', ' ']),
            decreases self.0.len() - i,
        {
            if i > 0 {
                s.append(", ");
            }
            s.append(self.0[i].as_str());
            proof {
                reveal_strlit(", ");
                let sep = seq![',', ' '];
                let upto = self@.take(i + 1 as int);
                assert(self@[i as int] == self.0@[i as int]@);
                assert(upto.last() == self@[i as int]);
                if i == 0 {
                    assert(joined(upto, sep) == upto[0]);
                } else {
                    assert(upto.drop_last() =~= self@.take(i as int));
                }
                assert(s@ =~= seq!['['] + joined(upto, sep));
            }
            i += 1;
        }
        s.append("]");
        proof {
            assert(self@.take(self.0.len() as int) =~= self@);
            assert(s@ =~= wrapper_text(self@));
        }
        s
    }
}

} // verus!
