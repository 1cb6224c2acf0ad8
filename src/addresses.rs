use vstd::prelude::*;

verus! {

/// All addresses of all interfaces, in interface order and, within one
/// interface, in the order the interface lists them.
pub open spec fn flattened(interfaces: Seq<Seq<Seq<char>>>) -> Seq<Seq<char>>
    decreases interfaces.len(),
{
    if interfaces.len() == 0 {
        Seq::empty()
    } else {
        flattened(interfaces.drop_last()) + interfaces.last()
    }
}

/// The number of addresses over all interfaces.
pub open spec fn address_count(interfaces: Seq<Seq<Seq<char>>>) -> nat
    decreases interfaces.len(),
{
    if interfaces.len() == 0 {
        0
    } else {
        address_count(interfaces.drop_last()) + interfaces.last().len()
    }
}

/// The collected sequence holds exactly as many addresses as the interfaces
/// report together.
pub proof fn lemma_flattened_len(interfaces: Seq<Seq<Seq<char>>>)
    ensures
        flattened(interfaces).len() == address_count(interfaces),
    decreases interfaces.len(),
{
    if interfaces.len() > 0 {
        lemma_flattened_len(interfaces.drop_last());
    }
}

/// Concatenates the addresses bound to each interface (given as text, in the
/// order the interfaces were enumerated) into one sequence, with no filtering
/// and no deduplication.
pub fn collect_addresses(interfaces: Vec<Vec<String>>) -> (r: Vec<String>)
    ensures
        r.deep_view() == flattened(interfaces.deep_view()),
        r@.len() == address_count(interfaces.deep_view()),
{
    let mut r: Vec<String> = Vec::new();
    let mut i: usize = 0;
    while i < interfaces.len()
        invariant
            0 <= i <= interfaces.len(),
            r.deep_view() == flattened(interfaces.deep_view().subrange(0, i as int)),
        decreases interfaces.len() - i,
    {
        let iface = &interfaces[i];
        let ghost before = r.deep_view();
        let mut j: usize = 0;
        while j < iface.len()
            invariant
                0 <= j <= iface.len(),
                i < interfaces.len(),
                iface == interfaces[i as int],
                r.deep_view() == before + iface.deep_view().subrange(0, j as int),
            decreases iface.len() - j,
        {
            let s = iface[j].clone();
            let ghost prev = r@;
            let ghost old_dv = r.deep_view();
            proof {
                assert(r.deep_view().len() == prev.len());
            }
            r.push(s);
            proof {
                assert(r@ == prev.push(s));
                let rv = r.deep_view();
                let want = before + iface.deep_view().subrange(0, j + 1);
                assert(rv.len() == want.len());
                assert forall|k: int| 0 <= k < rv.len() implies rv[k] == want[k] by {
                    if k < prev.len() {
                        assert(rv[k] == prev[k]@);
                        assert(old_dv[k] == prev[k]@);
                        assert(want[k] == (before + iface.deep_view().subrange(0, j as int))[k]);
                    } else {
                        assert(rv[k] == s@);
                        assert(s@ == iface@[j as int]@);
                        assert(want[k] == iface.deep_view()[j as int]);
                    }
                }
                assert(rv =~= want);
            }
            j = j + 1;
        }
        proof {
            let d = interfaces.deep_view();
            assert(d.subrange(0, i + 1).drop_last() =~= d.subrange(0, i as int));
            assert(iface.deep_view().subrange(0, j as int) =~= iface.deep_view());
            assert(r.deep_view() =~= flattened(d.subrange(0, i + 1)));
        }
        i = i + 1;
    }
    proof {
        assert(interfaces.deep_view().subrange(0, i as int) =~= interfaces.deep_view());
        lemma_flattened_len(interfaces.deep_view());
    }
    r
}

} // verus!
