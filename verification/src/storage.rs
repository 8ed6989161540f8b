//! What the service makes of the object store's answers: whether its bucket
//! is listed, which files a batch deletion removed, and how failures read.

use vstd::prelude::*;

verus! {

/// The name a listed bucket goes by, the empty name when it has none.
pub open spec fn listed_name(name: Option<String>) -> Seq<char> {
    match name {
        Some(n) => n@,
        None => Seq::empty(),
    }
}

/// Whether some listed bucket bears the name `bucket` (a nameless bucket
/// counts as named by the empty string).
pub fn bucket_is_listed(names: &Vec<Option<String>>, bucket: &String) -> (res: bool)
    ensures
        res == exists|i: int| 0 <= i < names@.len() && listed_name(#[trigger] names@[i]) == bucket@,
{
    let n = names.len();
    let mut i: usize = 0;
    while i < n
        invariant
            n == names@.len(),
            i <= n,
            forall|j: int| 0 <= j < i ==> listed_name(#[trigger] names@[j]) != bucket@,
        decreases n - i,
    {
        let found = match &names[i] {
            Some(name) => *name == *bucket,
            None => bucket.unicode_len() == 0,
        };
        if found {
            assert(listed_name(names@[i as int]) =~= bucket@);
            return true;
        }
        assert(listed_name(names@[i as int]) != bucket@) by {
            if names@[i as int] is None && listed_name(names@[i as int]) == bucket@ {
                assert(bucket@.len() == 0);
            }
        }
        i = i + 1;
    }
    false
}

/// Lines joined by newlines, with none after the last.
pub open spec fn join_lines(lines: Seq<Seq<char>>) -> Seq<char>
    decreases lines.len(),
{
    if lines.len() == 0 {
        Seq::empty()
    } else if lines.len() == 1 {
        lines[0]
    } else {
        join_lines(lines.drop_last()) + "\n"@ + lines.last()
    }
}

pub proof fn lemma_join_lines_push(lines: Seq<Seq<char>>, line: Seq<char>)
    ensures
        join_lines(lines.push(line)) == if lines.len() == 0 {
            line
        } else {
            join_lines(lines) + "\n"@ + line
        },
{
    assert(lines.push(line).drop_last() =~= lines);
    if lines.len() == 0 {
        assert(lines.push(line)[0] == line);
    }
}

/// Appends `line` to `out`, which holds `count` lines so far.
fn append_line(out: &mut String, count: usize, line: &str)
    ensures
        final(out)@ == if count == 0 {
            old(out)@ + line@
        } else {
            old(out)@ + "\n"@ + line@
        },
{
    if count != 0 {
        out.append("\n");
    }
    out.append(line);
}

/// The keys of the objects that a batch deletion reports removed, in the
/// order reported; entries without a key are passed over.
pub open spec fn present_keys(objects: Seq<Option<String>>) -> Seq<String>
    decreases objects.len(),
{
    if objects.len() == 0 {
        Seq::empty()
    } else {
        let rest = present_keys(objects.drop_last());
        match objects.last() {
            Some(k) => rest.push(k),
            None => rest,
        }
    }
}

/// The entries that carry a key.
pub open spec fn keyed(objects: Seq<Option<String>>) -> Seq<Option<String>> {
    objects.filter(|o: Option<String>| o is Some)
}

/// Every reported key is kept, once, in the order reported, and nothing else
/// is: there are as many keys as entries with a key, and the key of entry `j`
/// stands at the position given by the number of keyed entries before it.
pub proof fn lemma_present_keys_exact(objects: Seq<Option<String>>)
    ensures
        present_keys(objects).len() == keyed(objects).len(),
        forall|j: int|
            0 <= j < objects.len() && (#[trigger] objects[j]) is Some ==> {
                &&& keyed(objects.take(j)).len() < present_keys(objects).len()
                &&& present_keys(objects)[keyed(objects.take(j)).len() as int] == objects[j].unwrap()
            },
    decreases objects.len(),
{
    reveal(Seq::filter);
    if objects.len() > 0 {
        let t = objects.drop_last();
        let n = objects.len() - 1;
        lemma_present_keys_exact(t);
        assert(keyed(objects) == if objects.last() is Some {
            keyed(t).push(objects.last())
        } else {
            keyed(t)
        });
        assert forall|j: int|
            0 <= j < objects.len() && (#[trigger] objects[j]) is Some implies {
                &&& keyed(objects.take(j)).len() < present_keys(objects).len()
                &&& present_keys(objects)[keyed(objects.take(j)).len() as int] == objects[j].unwrap()
            } by {
            if j < n {
                assert(objects.take(j) =~= t.take(j));
                assert(t[j] == objects[j]);
            } else {
                assert(objects.take(j) =~= t);
            }
        }
    }
}

/// The keys of the removed objects, as the deletion reports them.
pub fn deleted_keys(objects: &Vec<Option<String>>) -> (res: Vec<String>)
    ensures
        res@ == present_keys(objects@),
        res@.len() == keyed(objects@).len(),
        forall|j: int|
            0 <= j < objects@.len() && (#[trigger] objects@[j]) is Some ==> {
                &&& keyed(objects@.take(j)).len() < res@.len()
                &&& res@[keyed(objects@.take(j)).len() as int] == objects@[j].unwrap()
            },
{
    proof {
        lemma_present_keys_exact(objects@);
    }
    let n = objects.len();
    let mut res: Vec<String> = Vec::new();
    let mut i: usize = 0;
    while i < n
        invariant
            n == objects@.len(),
            i <= n,
            res@ == present_keys(objects@.subrange(0, i as int)),
        decreases n - i,
    {
        let ghost prefix = objects@.subrange(0, i + 1);
        assert(prefix.drop_last() =~= objects@.subrange(0, i as int));
        match &objects[i] {
            Some(k) => {
                res.push(k.clone());
            },
            None => {},
        }
        i = i + 1;
    }
    assert(objects@.subrange(0, n as int) =~= objects@);
    res
}

/// One failure that a batch deletion reports.
#[derive(Clone, Debug, PartialEq, Eq)]
pub struct DeleteFailure {
    pub key: Option<String>,
    pub message: Option<String>,
    pub code: Option<String>,
}

pub open spec fn or_empty(s: Option<String>) -> Seq<char> {
    match s {
        Some(t) => t@,
        None => Seq::empty(),
    }
}

/// How one failed deletion is reported.
pub open spec fn delete_failure_line(f: DeleteFailure) -> Seq<char> {
    "Error while deleting file "@ + or_empty(f.key) + ": "@ + or_empty(f.message) + "("@
        + or_empty(f.code) + ")"@
}

pub open spec fn delete_failure_lines(failures: Seq<DeleteFailure>) -> Seq<Seq<char>> {
    failures.map_values(|f: DeleteFailure| delete_failure_line(f))
}

fn push_or_empty(out: &mut String, s: &Option<String>)
    ensures
        final(out)@ == old(out)@ + or_empty(*s),
{
    match s {
        Some(t) => out.append(t.as_str()),
        None => {
            assert(or_empty(*s) =~= Seq::<char>::empty());
            assert(out@ =~= out@ + or_empty(*s));
        },
    }
}

/// The report of a batch deletion's failures: `None` when the deletion
/// reports no failure list, else its lines joined by newlines (the empty
/// text for an empty list).
pub fn delete_failures_message(failures: &Option<Vec<DeleteFailure>>) -> (res: Option<String>)
    ensures
        res matches Some(m) ==> failures matches Some(fs) && m@ == join_lines(delete_failure_lines(fs@)),
        res is None ==> failures is None,
{
    match failures {
        None => None,
        Some(fs) => {
            let n = fs.len();
            let mut out = String::new();
            let mut i: usize = 0;
            while i < n
                invariant
                    n == fs@.len(),
                    i <= n,
                    out@ == join_lines(delete_failure_lines(fs@.subrange(0, i as int))),
                decreases n - i,
            {
                let f = &fs[i];
                let mut line = String::from_str("Error while deleting file ");
                push_or_empty(&mut line, &f.key);
                line.append(": ");
                push_or_empty(&mut line, &f.message);
                line.append("(");
                push_or_empty(&mut line, &f.code);
                line.append(")");
                assert(line@ =~= delete_failure_line(*f));
                let ghost before = delete_failure_lines(fs@.subrange(0, i as int));
                append_line(&mut out, i, line.as_str());
                proof {
                    assert(delete_failure_lines(fs@.subrange(0, i + 1)) =~= before.push(line@));
                    lemma_join_lines_push(before, line@);
                }
                i = i + 1;
            }
            assert(fs@.subrange(0, n as int) =~= fs@);
            Some(out)
        },
    }
}

/// How a key whose deletion request could not be built is reported.
pub open spec fn build_failure_line(key: Seq<char>, error: Seq<char>) -> Seq<char> {
    "Error while building delete request for file "@ + key + ": "@ + error
}

/// The report lines for the first `n` keys: one for each key whose request
/// failed to build, in key order.
pub open spec fn build_failure_lines(keys: Seq<String>, errors: Seq<Option<String>>, n: nat) -> Seq<
    Seq<char>,
>
    decreases n,
{
    if n == 0 {
        Seq::empty()
    } else {
        let rest = build_failure_lines(keys, errors, (n - 1) as nat);
        match errors[n - 1] {
            Some(e) => rest.push(build_failure_line(keys[n - 1]@, e@)),
            None => rest,
        }
    }
}

/// One line for each key whose request failed, in key order, and no other:
/// as many lines as failures among the first `n` keys, and the failure of key
/// `j` reported at the position given by the number of failures before it.
pub proof fn lemma_build_failure_lines_exact(keys: Seq<String>, errors: Seq<Option<String>>, n: nat)
    requires
        n <= keys.len(),
        n <= errors.len(),
    ensures
        build_failure_lines(keys, errors, n).len() == keyed(errors.take(n as int)).len(),
        forall|j: int|
            0 <= j < n && (#[trigger] errors[j]) is Some ==> {
                &&& keyed(errors.take(j)).len() < build_failure_lines(keys, errors, n).len()
                &&& build_failure_lines(keys, errors, n)[keyed(errors.take(j)).len() as int]
                    == build_failure_line(keys[j]@, errors[j].unwrap()@)
            },
    decreases n,
{
    reveal(Seq::filter);
    if n > 0 {
        let m = (n - 1) as nat;
        lemma_build_failure_lines_exact(keys, errors, m);
        assert(errors.take(n as int).drop_last() =~= errors.take(m as int));
        assert(errors.take(n as int).last() == errors[m as int]);
        assert forall|j: int|
            0 <= j < n && (#[trigger] errors[j]) is Some implies {
                &&& keyed(errors.take(j)).len() < build_failure_lines(keys, errors, n).len()
                &&& build_failure_lines(keys, errors, n)[keyed(errors.take(j)).len() as int]
                    == build_failure_line(keys[j]@, errors[j].unwrap()@)
            } by {
            if j == m {
                assert(errors.take(j) =~= errors.take(m as int));
            }
        }
    }
}

/// Given the keys to delete and, for each, the error met while building its
/// part of the request (if any): `None` when every part was built, else the
/// failures' lines joined by newlines.
pub fn build_failures_message(keys: &Vec<String>, errors: &Vec<Option<String>>) -> (res: Option<
    String,
>)
    requires
        keys@.len() == errors@.len(),
    ensures
        res is None <==> build_failure_lines(keys@, errors@, keys@.len() as nat).len() == 0,
        res matches Some(m) ==> m@ == join_lines(build_failure_lines(keys@, errors@, keys@.len() as nat)),
{
    let n = keys.len();
    let mut out = String::new();
    let mut count: usize = 0;
    let mut i: usize = 0;
    while i < n
        invariant
            n == keys@.len(),
            n == errors@.len(),
            i <= n,
            count <= i,
            count == build_failure_lines(keys@, errors@, i as nat).len(),
            out@ == join_lines(build_failure_lines(keys@, errors@, i as nat)),
        decreases n - i,
    {
        match &errors[i] {
            Some(e) => {
                let mut line = String::from_str("Error while building delete request for file ");
                line.append(keys[i].as_str());
                line.append(": ");
                line.append(e.as_str());
                let ghost before = build_failure_lines(keys@, errors@, i as nat);
                assert(line@ =~= build_failure_line(keys@[i as int]@, e@));
                append_line(&mut out, count, line.as_str());
                proof {
                    lemma_join_lines_push(before, line@);
                }
                count = count + 1;
            },
            None => {},
        }
        i = i + 1;
    }
    if count == 0 {
        None
    } else {
        Some(out)
    }
}

} // verus!
