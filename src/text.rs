use vstd::prelude::*;

verus! {

/// The parts written one after another with `sep` between two neighbours.
pub open spec fn join(parts: Seq<Seq<char>>, sep: Seq<char>) -> Seq<char>
    decreases parts.len(),
{
    if parts.len() == 0 {
        Seq::empty()
    } else if parts.len() == 1 {
        parts[0]
    } else {
        join(parts.drop_last(), sep) + sep + parts.last()
    }
}

/// Joins the strings with `sep` between each two neighbours.
pub fn join_strings(parts: &Vec<String>, sep: &str) -> (r: String)
    ensures
        r@ == join(parts.deep_view(), sep@),
{
    let mut text = String::new();
    let n = parts.len();
    let ghost views = parts.deep_view();
    for i in 0..n
        invariant
            n == parts.len(),
            views == parts.deep_view(),
            text@ == join(views.take(i as int), sep@),
    {
        assert(views.take(i + 1).drop_last() == views.take(i as int));
        if i > 0 {
            text.append(sep);
        }
        text.append(parts[i].as_str());
    }
    assert(views.take(n as int) == views);
    text
}

/// Whether `names` holds a string equal to `name`.
pub fn contains_string(names: &Vec<String>, name: &String) -> (r: bool)
    ensures
        r == names.deep_view().contains(name@),
{
    let n = names.len();
    let ghost views = names.deep_view();
    for i in 0..n
        invariant
            n == names.len(),
            views == names.deep_view(),
            forall|j: int| 0 <= j < i ==> views[j] != name@,
    {
        if names[i] == *name {
            assert(views[i as int] == name@);
            return true;
        }
    }
    false
}

} // verus!
