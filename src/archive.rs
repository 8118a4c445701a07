//! Where the entries of a crate archive land.

use vstd::prelude::*;
use crate::text::texts;

verus! {

/// An archive entry's path with its first component dropped.
pub open spec fn stripped(p: Seq<Seq<char>>) -> Seq<Seq<char>> {
    if p.len() == 0 {
        p
    } else {
        p.skip(1)
    }
}

/// The path, relative to the destination, at which an archive entry is
/// written: its recorded path without the first component.
pub fn entry_target(components: &Vec<String>) -> (r: Vec<String>)
    ensures
        texts(r@) == stripped(texts(components@)),
{
    let mut out: Vec<String> = Vec::new();
    if components.len() == 0 {
        return out;
    }
    let mut i: usize = 1;
    assert(texts(out@) =~= texts(components@).subrange(1, 1));
    while i < components.len()
        invariant
            1 <= i <= components@.len(),
            texts(out@) == texts(components@).subrange(1, i as int),
        decreases components@.len() - i,
    {
        let ghost prev = out@;
        out.push(components[i].clone());
        assert(texts(out@) =~= texts(prev).push(components@[i as int]@));
        assert(texts(out@) =~= texts(components@).subrange(1, i + 1));
        i += 1;
    }
    assert(texts(out@) =~= stripped(texts(components@)));
    out
}

/// Where every entry of an archive sits under one first component `x`, each
/// entry lands at its path under `x`: putting `x` back in front gives the
/// recorded path, so distinct entries land at distinct places.
pub proof fn strip_keeps_content_under_top(entries: Seq<Seq<Seq<char>>>, x: Seq<char>)
    requires
        forall|i: int| 0 <= i < entries.len() ==> entries[i].len() > 0 && #[trigger] entries[i][0] == x,
    ensures
        forall|i: int| 0 <= i < entries.len() ==> seq![x] + stripped(#[trigger] entries[i]) == entries[i],
        forall|i: int, j: int|
            0 <= i < entries.len() && 0 <= j < entries.len() && entries[i] != entries[j]
                ==> stripped(#[trigger] entries[i]) != stripped(#[trigger] entries[j]),
{
    assert forall|i: int| 0 <= i < entries.len() implies seq![x] + stripped(#[trigger] entries[i]) == entries[i] by {
        assert(entries[i][0] == x);
        assert(seq![x] + entries[i].skip(1) =~= entries[i]);
    }
    assert forall|i: int, j: int|
        0 <= i < entries.len() && 0 <= j < entries.len() && entries[i] != entries[j]
            implies stripped(#[trigger] entries[i]) != stripped(#[trigger] entries[j]) by {
        assert(entries[i][0] == x && entries[j][0] == x);
        assert(seq![x] + entries[i].skip(1) =~= entries[i]);
        assert(seq![x] + entries[j].skip(1) =~= entries[j]);
    }
}

} // verus!
