//! Small string helpers: the two std operations that vstd leaves
//! unspecified, and a verified separator join built on them.

use vstd::prelude::*;

verus! {

/// Relies on `str`'s `PartialEq`: two string slices compare equal exactly
/// when their character sequences are equal.
#[verifier::external_body]
pub(crate) fn str_eq(a: &str, b: &str) -> (r: bool)
    ensures
        r == (a@ == b@),
{
    a == b
}

/// Relies on `String::push_str`: appends the slice's characters to the
/// string.
#[verifier::external_body]
pub(crate) fn push_str(s: &mut String, t: &str)
    ensures
        final(s)@ == old(s)@ + t@,
{
    s.push_str(t)
}

/// The items joined by the separator: empty for no items, otherwise the
/// items in order with the separator between neighbours.
pub open spec fn join_view(items: Seq<Seq<char>>, sep: Seq<char>) -> Seq<char>
    decreases items.len(),
{
    if items.len() == 0 {
        Seq::empty()
    } else if items.len() == 1 {
        items[0]
    } else {
        items[0] + sep + join_view(items.drop_first(), sep)
    }
}

/// Joining one more item onto a non-empty front appends a separator and
/// the item.
pub proof fn lemma_join_snoc(items: Seq<Seq<char>>, sep: Seq<char>, x: Seq<char>)
    ensures
        items.len() == 0 ==> join_view(items.push(x), sep) == x,
        items.len() > 0 ==> join_view(items.push(x), sep) == join_view(items, sep) + sep + x,
    decreases items.len(),
{
    if items.len() == 0 {
        assert(items.push(x)[0] == x);
    } else if items.len() == 1 {
        assert(items.push(x)[0] == items[0]);
        assert(items.push(x).drop_first() =~= items.drop_first().push(x));
        lemma_join_snoc(items.drop_first(), sep, x);
        assert(join_view(items.push(x), sep) == items[0] + sep + x);
        assert(join_view(items, sep) == items[0]);
    } else {
        assert(items.push(x)[0] == items[0]);
        assert(items.push(x).drop_first() =~= items.drop_first().push(x));
        lemma_join_snoc(items.drop_first(), sep, x);
        assert(join_view(items.push(x), sep) == items[0] + sep + (join_view(
            items.drop_first(),
            sep,
        ) + sep + x));
        assert(items[0] + sep + (join_view(items.drop_first(), sep) + sep + x) =~= (items[0] + sep
            + join_view(items.drop_first(), sep)) + sep + x);
    }
}

/// Joins the items with the separator between neighbours.
pub fn join(items: &Vec<String>, sep: &str) -> (r: String)
    ensures
        r@ == join_view(crate::view::string_views(items@), sep@),
{
    let ghost views = crate::view::string_views(items@);
    let mut r = String::new();
    let mut i: usize = 0;
    while i < items.len()
        invariant
            i <= items@.len(),
            views == crate::view::string_views(items@),
            r@ == join_view(views.take(i as int), sep@),
        decreases items@.len() - i,
    {
        if i > 0 {
            push_str(&mut r, sep);
        }
        push_str(&mut r, items[i].as_str());
        proof {
            assert(views.take(i as int).push(views[i as int]) =~= views.take(i as int + 1));
            lemma_join_snoc(views.take(i as int), sep@, views[i as int]);
            if i == 0 {
                assert(r@ =~= views[0]);
            }
        }
        i = i + 1;
    }
    proof {
        assert(views.take(items@.len() as int) =~= views);
    }
    r
}

} // verus!
