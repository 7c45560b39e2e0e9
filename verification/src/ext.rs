//! Joining pieces of text with a separator.

use vstd::prelude::*;

verus! {

/// One joining step: the separator goes in only when something has been
/// accumulated already, so empty leading pieces draw no separator.
pub open spec fn join_step(acc: Seq<char>, item: Seq<char>, sep: Seq<char>) -> Seq<char> {
    if acc.len() > 0 {
        acc + sep + item
    } else {
        acc + item
    }
}

/// The pieces joined left to right with the separator.
pub open spec fn joined(items: Seq<Seq<char>>, sep: Seq<char>) -> Seq<char>
    decreases items.len(),
{
    if items.len() == 0 {
        seq![]
    } else {
        join_step(joined(items.drop_last(), sep), items.last(), sep)
    }
}

/// Collections of text that can be joined with a separator.
pub trait JoinWith {
    /// The pieces to be joined, as character sequences.
    spec fn pieces(self) -> Seq<Seq<char>>;

    /// Join the pieces with the separator.
    fn join(self, sep: &str) -> (r: String)
        ensures
            r@ == joined(self.pieces(), sep@),
    ;
}

impl JoinWith for Vec<String> {
    open spec fn pieces(self) -> Seq<Seq<char>> {
        self@.map_values(|s: String| s@)
    }

    fn join(self, sep: &str) -> (r: String) {
        let ghost mapped = self@.map_values(|s: String| s@);
        let mut out = String::new();
        let n = self.len();
        let mut i: usize = 0;
        while i < n
            invariant
                i <= n,
                n == self@.len(),
                mapped == self@.map_values(|s: String| s@),
                out@ == joined(mapped.take(i as int), sep@),
            decreases n - i,
        {
            if !out.as_str().is_empty() {
                out.append(sep);
            }
            out.append(self[i].as_str());
            proof {
                assert(mapped.take(i as int + 1).drop_last() =~= mapped.take(i as int));
                assert(mapped.take(i as int + 1).last() == mapped[i as int]);
                assert(out@ =~= joined(mapped.take(i as int + 1), sep@));
            }
            i = i + 1;
        }
        proof {
            assert(mapped.take(n as int) =~= mapped);
        }
        out
    }
}

} // verus!
