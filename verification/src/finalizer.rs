//! The finalizer that keeps a `StackApp` until its services are removed: the
//! finalizer list that adding it leaves, and the merge patch that removes
//! all finalizers.
use vstd::prelude::*;
use vstd::string::*;

verus! {

pub const FINALIZER: &'static str = "stackapps.stack-cli.dev/finalizer";

/// The finalizer names of a list, as text.
pub open spec fn names_view(v: Seq<String>) -> Seq<Seq<char>> {
    v.map_values(|s: String| s@)
}

/// The finalizers after adding the `StackApp` finalizer: the old list, with
/// the finalizer appended when it is not there yet.
pub open spec fn with_finalizer(current: Seq<Seq<char>>) -> Seq<Seq<char>> {
    if current.contains(FINALIZER@) {
        current
    } else {
        current.push(FINALIZER@)
    }
}

/// The finalizer list to store when adding the `StackApp` finalizer to a
/// resource whose finalizers are `current`.
pub fn finalizers_with_ours(current: &Vec<String>) -> (r: Vec<String>)
    ensures
        names_view(r@) == with_finalizer(names_view(current@)),
{
    let ours = String::from_str(FINALIZER);
    let mut out: Vec<String> = Vec::new();
    let mut found = false;
    for i in 0..current.len()
        invariant
            names_view(out@) == names_view(current@).take(i as int),
            ours@ == FINALIZER@,
            found <==> names_view(current@).take(i as int).contains(FINALIZER@),
    {
        let ghost before = names_view(current@).take(i as int);
        let item = current[i].clone();
        if item == ours {
            found = true;
        }
        out.push(item);
        proof {
            let after = names_view(current@).take(i + 1);
            assert(after =~= before.push(current@[i as int]@));
            assert(names_view(out@) =~= after);
            if after.contains(FINALIZER@) && !before.contains(FINALIZER@) {
                let k = choose|k: int| 0 <= k < after.len() && after[k] == FINALIZER@;
                assert(k == i);
            }
            if before.contains(FINALIZER@) {
                let k = choose|k: int| 0 <= k < before.len() && before[k] == FINALIZER@;
                assert(after[k] == FINALIZER@);
            }
            if current@[i as int]@ == FINALIZER@ {
                assert(after[i as int] == FINALIZER@);
            }
        }
    }
    assert(names_view(current@).take(current.len() as int) =~= names_view(current@));
    if !found {
        let ghost old_out = out@;
        out.push(ours);
        assert(names_view(out@) =~= names_view(old_out).push(FINALIZER@));
    }
    out
}

/// Adding the finalizer keeps every finalizer already there, leaves the
/// `StackApp` finalizer in the list, and a second addition changes nothing.
pub proof fn lemma_add_finalizer_idempotent(current: Seq<Seq<char>>)
    ensures
        with_finalizer(current).contains(FINALIZER@),
        forall|f: Seq<char>| current.contains(f) ==> #[trigger] with_finalizer(current).contains(f),
        with_finalizer(with_finalizer(current)) == with_finalizer(current),
{
    if !current.contains(FINALIZER@) {
        let pushed = current.push(FINALIZER@);
        assert(pushed[current.len() as int] == FINALIZER@);
        assert forall|f: Seq<char>| current.contains(f) implies #[trigger] pushed.contains(f) by {
            let k = choose|k: int| 0 <= k < current.len() && current[k] == f;
            assert(pushed[k] == f);
        }
    }
}

/// The merge patch that removes all finalizers of the resource.
pub fn delete_patch() -> (p: String)
    ensures
        p@ == "{\"metadata\":{\"finalizers\":null}}"@,
{
    String::from_str("{\"metadata\":{\"finalizers\":null}}")
}

} // verus!
