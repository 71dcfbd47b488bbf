use vstd::prelude::*;
use vstd::string::StringExecFns;

verus! {

/// Whether one of the owned texts reads as `target`.
pub fn contains_string(items: &Vec<String>, target: &str) -> (r: bool)
    ensures
        r == items.deep_view().contains(target@),
{
    let t: String = target.to_owned();
    let mut i: usize = 0;
    while i < items.len()
        invariant
            0 <= i <= items@.len(),
            items.deep_view().len() == items@.len(),
            t@ == target@,
            forall|j: int| 0 <= j < i ==> items.deep_view()[j] != target@,
        decreases items@.len() - i,
    {
        if items[i] == t {
            assert(items.deep_view()[i as int] == target@);
            return true;
        }
        i += 1;
    }
    false
}

/// The texts joined by a separator: empty for none, the sole text for
/// one, and otherwise each text with the separator between neighbours.
pub open spec fn spec_join(items: Seq<Seq<char>>, sep: Seq<char>) -> Seq<char>
    decreases items.len(),
{
    if items.len() == 0 {
        Seq::empty()
    } else if items.len() == 1 {
        items[0]
    } else {
        items[0] + sep + spec_join(items.drop_first(), sep)
    }
}

proof fn lemma_join_push(s: Seq<Seq<char>>, x: Seq<char>, sep: Seq<char>)
    requires
        s.len() >= 1,
    ensures
        spec_join(s.push(x), sep) == spec_join(s, sep) + sep + x,
    decreases s.len(),
{
    assert(s.push(x).len() == s.len() + 1);
    assert(s.push(x)[0] == s[0]);
    if s.len() == 1 {
        assert(s.push(x).drop_first() =~= seq![x]);
        assert(spec_join(seq![x], sep) == x);
    } else {
        assert(s.push(x).drop_first() =~= s.drop_first().push(x));
        lemma_join_push(s.drop_first(), x, sep);
        assert((s[0] + sep + (spec_join(s.drop_first(), sep) + sep + x)) =~= (s[0] + sep
            + spec_join(s.drop_first(), sep)) + sep + x);
    }
}

/// Join the texts with a separator, exactly as [`spec_join`] says.
pub fn join_with(items: &Vec<String>, sep: &str) -> (r: String)
    ensures
        r@ == spec_join(items.deep_view(), sep@),
{
    if items.len() == 0 {
        return String::new();
    }
    let mut r: String = items[0].clone();
    let mut i: usize = 1;
    while i < items.len()
        invariant
            1 <= i <= items@.len(),
            items.deep_view().len() == items@.len(),
            r@ == spec_join(items.deep_view().take(i as int), sep@),
        decreases items@.len() - i,
    {
        r.append(sep);
        r.append(items[i].as_str());
        proof {
            let prefix = items.deep_view().take(i as int);
            lemma_join_push(prefix, items.deep_view()[i as int], sep@);
            assert(items.deep_view().take(i as int + 1) =~= prefix.push(
                items.deep_view()[i as int],
            ));
        }
        i += 1;
    }
    proof {
        assert(items.deep_view().take(items@.len() as int) =~= items.deep_view());
    }
    r
}

} // verus!
