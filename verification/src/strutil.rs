use vstd::prelude::*;

verus! {

/// Compares a `String` against a string slice by content.
pub fn string_eq_str(a: &String, b: &str) -> (r: bool)
    ensures
        r == (a@ == b@),
{
    let bs: String = b.to_owned();
    *a == bs
}

/// The elements of `items`, in order, separated by single commas.
pub open spec fn spec_join_commas(items: Seq<Seq<char>>) -> Seq<char>
    decreases items.len(),
{
    if items.len() == 0 {
        Seq::<char>::empty()
    } else if items.len() == 1 {
        items[0]
    } else {
        spec_join_commas(items.drop_last()) + ","@ + items.last()
    }
}

/// Joins the given strings with a comma separator, preserving their order.
pub fn join_commas(items: &Vec<String>) -> (r: String)
    ensures
        r@ == spec_join_commas(items.deep_view()),
{
    let mut s = String::new();
    let mut i: usize = 0;
    proof {
        assert(items.deep_view().take(0) =~= Seq::<Seq<char>>::empty());
    }
    while i < items.len()
        invariant
            0 <= i <= items@.len(),
            items.deep_view().len() == items@.len(),
            s@ == spec_join_commas(items.deep_view().take(i as int)),
        decreases items@.len() - i,
    {
        if i > 0 {
            s.append(",");
        }
        s.append(items[i].as_str());
        proof {
            let dv = items.deep_view();
            assert(dv.take(i + 1).drop_last() =~= dv.take(i as int));
            assert(dv.take(i + 1).last() == dv[i as int]);
            if i == 0 {
                assert(s@ =~= dv.take(1)[0]);
            }
        }
        i += 1;
    }
    proof {
        assert(items.deep_view().take(items@.len() as int) =~= items.deep_view());
    }
    s
}

} // verus!
