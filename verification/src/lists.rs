//! Copies and concatenations of lists of text.
use vstd::prelude::*;
use vstd::string::*;

verus! {

/// A copy of a list of strings.
pub fn clone_strings(v: &Vec<String>) -> (r: Vec<String>)
    ensures
        r.deep_view() == v.deep_view(),
        r@.len() == v@.len(),
{
    let r = v.clone();
    assert(r@ =~= v@);
    r
}

/// A copy of an optional list of strings.
pub fn clone_opt_strings(v: &Option<Vec<String>>) -> (r: Option<Vec<String>>)
    ensures
        r.deep_view() == v.deep_view(),
{
    match v {
        Some(x) => Some(clone_strings(x)),
        None => None,
    }
}

/// A copy of an optional string.
pub fn clone_opt(v: &Option<String>) -> (r: Option<String>)
    ensures
        r.deep_view() == v.deep_view(),
{
    match v {
        Some(x) => Some(x.clone()),
        None => None,
    }
}

/// A copy of a list of pairs of strings.
pub fn clone_pairs(v: &Vec<(String, String)>) -> (r: Vec<(String, String)>)
    ensures
        r.deep_view() == v.deep_view(),
        r@.len() == v@.len(),
{
    let mut r: Vec<(String, String)> = Vec::new();
    for i in 0..v.len()
        invariant
            r@.len() == i,
            forall|j: int| 0 <= j < i ==> (#[trigger] r@[j]).deep_view() == v@[j].deep_view(),
    {
        r.push((v[i].0.clone(), v[i].1.clone()));
    }
    assert(r.deep_view() =~= v.deep_view());
    r
}

/// A copy of a list of stored mounts.
pub fn clone_triples(v: &Vec<(String, String, bool)>) -> (r: Vec<(String, String, bool)>)
    ensures
        r.deep_view() == v.deep_view(),
        r@.len() == v@.len(),
{
    let mut r: Vec<(String, String, bool)> = Vec::new();
    for i in 0..v.len()
        invariant
            r@.len() == i,
            forall|j: int| 0 <= j < i ==> (#[trigger] r@[j]).deep_view() == v@[j].deep_view(),
    {
        r.push((v[i].0.clone(), v[i].1.clone(), v[i].2));
    }
    assert(r.deep_view() =~= v.deep_view());
    r
}

/// A copy of a list of port pairs.
pub fn clone_ports(v: &Vec<(u16, u16)>) -> (r: Vec<(u16, u16)>)
    ensures
        r@ == v@,
{
    let mut r: Vec<(u16, u16)> = Vec::new();
    for i in 0..v.len()
        invariant
            r@ =~= v@.take(i as int),
    {
        r.push((v[i].0, v[i].1));
    }
    assert(v@.take(v@.len() as int) =~= v@);
    r
}

/// One list behind another.
pub fn joined(a: Vec<String>, b: Vec<String>) -> (r: Vec<String>)
    ensures
        r.deep_view() == a.deep_view() + b.deep_view(),
{
    let mut r = a;
    let mut rest = b;
    r.append(&mut rest);
    assert(r.deep_view() =~= a.deep_view() + b.deep_view());
    r
}

/// The value of an optional string, or the other value.
pub open spec fn or_else<T>(a: Option<T>, b: Option<T>) -> Option<T> {
    match a {
        Some(_) => a,
        None => b,
    }
}

/// The first value if there is one, else the second.
pub fn first_some<T>(a: Option<T>, b: Option<T>) -> (r: Option<T>)
    ensures
        r == or_else(a, b),
{
    match a {
        Some(_) => a,
        None => b,
    }
}

/// The pieces with a separator between each two.
pub open spec fn join_text(parts: Seq<Seq<char>>, sep: Seq<char>) -> Seq<char>
    decreases parts.len(),
{
    if parts.len() == 0 {
        Seq::empty()
    } else if parts.len() == 1 {
        parts[0]
    } else {
        join_text(parts.drop_last(), sep) + sep + parts.last()
    }
}

/// The strings with a separator between each two.
pub fn join(parts: &Vec<String>, sep: &str) -> (r: String)
    ensures
        r@ == join_text(parts.deep_view(), sep@),
{
    let mut r = String::new();
    let ghost all = parts.deep_view();
    assert(all.take(0) =~= Seq::empty());
    for i in 0..parts.len()
        invariant
            all == parts.deep_view(),
            r@ == join_text(all.take(i as int), sep@),
    {
        assert(all.take(i + 1).drop_last() =~= all.take(i as int));
        assert(all.take(i + 1).last() == parts@[i as int]@);
        if i == 0 {
            r = parts[0].clone();
        } else {
            r = r.concat(sep).concat(parts[i].as_str());
        }
    }
    assert(all.take(all.len() as int) =~= all);
    r
}

/// Joined pieces stand behind one another with one separator between each two, and a single
/// piece stands alone.
pub proof fn pieces_are_joined_in_order(parts: Seq<Seq<char>>, last: Seq<char>, sep: Seq<char>)
    ensures
        join_text(seq![last], sep) == last,
        parts.len() > 0 ==> join_text(parts.push(last), sep) == join_text(parts, sep) + sep + last,
        join_text(Seq::empty(), sep).len() == 0,
{
    assert(parts.push(last).drop_last() == parts);
}

} // verus!
