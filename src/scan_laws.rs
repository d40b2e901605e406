//! Laws of the position scan over a ledger whose positions stay fixed and
//! whose lease holds: each collateral type is a sequence of distinct keys in
//! ledger order, and each invocation walks what follows its checkpoint.
use crate::scanner::{next_checkpoint_spec, next_position, CheckpointModel};
use vstd::prelude::*;

verus! {

/// The keys that follow `resume` in `keys`: all of them when there is no
/// resume key, none when the key is not there.
pub open spec fn entries_after(keys: Seq<Seq<u8>>, resume: Option<Seq<u8>>) -> Seq<Seq<u8>> {
    match resume {
        None => keys,
        Some(k) => if keys.contains(k) {
            keys.subrange((choose|i: int| 0 <= i < keys.len() && keys[i] == k) + 1, keys.len() as int)
        } else {
            seq![]
        },
    }
}

/// Keys of collateral type `i`, each paired with the type.
pub open spec fn tagged(i: nat, keys: Seq<Seq<u8>>) -> Seq<(nat, Seq<u8>)> {
    keys.map_values(|k: Seq<u8>| (i, k))
}

/// One invocation examining at most `limit` positions: the checkpoint
/// after it and the positions it examined.
pub open spec fn invocation(ledger: Seq<Seq<Seq<u8>>>, ck: CheckpointModel, limit: nat) -> (CheckpointModel, Seq<(nat, Seq<u8>)>) {
    let page = entries_after(ledger[ck.collateral_position as int], ck.resume_key);
    let finished = page.len() < limit;
    let examined = if finished { page.len() } else { limit };
    let visited = page.take(examined as int);
    let last = if examined > 0 { Some(visited.last()) } else { ck.resume_key };
    (next_checkpoint_spec(ck.collateral_position, ledger.len(), finished, last), tagged(ck.collateral_position, visited))
}

/// An invocation as `scan_collateral` reports it, on a walk that yields the
/// keys following its checkpoint and a lease that holds, is `invocation`:
/// the same checkpoint and the same positions examined.
pub proof fn lemma_scan_is_invocation(
    ledger: Seq<Seq<Seq<u8>>>,
    start: CheckpointModel,
    limit: nat,
    examined: nat,
    finished: bool,
    visited_keys: Seq<Seq<u8>>,
    ck: CheckpointModel,
)
    requires
        start.collateral_position < ledger.len(),
        visited_keys.len() == examined,
        examined <= limit,
        examined <= entries_after(ledger[start.collateral_position as int], start.resume_key).len(),
        visited_keys == entries_after(ledger[start.collateral_position as int], start.resume_key).take(examined as int),
        finished ==> examined < limit && examined == entries_after(ledger[start.collateral_position as int], start.resume_key).len(),
        !finished ==> examined == limit,
        ck == next_checkpoint_spec(
            start.collateral_position,
            ledger.len(),
            finished,
            if examined > 0 { Some(visited_keys.last()) } else { start.resume_key },
        ),
    ensures
        invocation(ledger, start, limit) == (ck, tagged(start.collateral_position, visited_keys)),
{
    let page = entries_after(ledger[start.collateral_position as int], start.resume_key);
    if !finished {
        assert(!(page.len() < limit));
    }
}

/// `count` invocations in a row.
pub open spec fn invocations(ledger: Seq<Seq<Seq<u8>>>, ck: CheckpointModel, limit: nat, count: nat) -> (CheckpointModel, Seq<(nat, Seq<u8>)>)
    decreases count,
{
    if count == 0 {
        (ck, seq![])
    } else {
        let (ck1, v1) = invocation(ledger, ck, limit);
        let (ck2, v2) = invocations(ledger, ck1, limit, (count - 1) as nat);
        (ck2, v1 + v2)
    }
}

/// Invocations that one pass over collateral types `from..` takes.
pub open spec fn rotation_len(ledger: Seq<Seq<Seq<u8>>>, limit: nat, from: nat) -> nat
    decreases ledger.len() - from,
{
    if from >= ledger.len() {
        0
    } else {
        ledger[from as int].len() / limit + 1 + rotation_len(ledger, limit, from + 1)
    }
}

/// Every position of collateral types `from..`, type by type in key order.
pub open spec fn all_positions(ledger: Seq<Seq<Seq<u8>>>, from: nat) -> Seq<(nat, Seq<u8>)>
    decreases ledger.len() - from,
{
    if from >= ledger.len() {
        seq![]
    } else {
        tagged(from, ledger[from as int]) + all_positions(ledger, from + 1)
    }
}

/// The resume key after the first `o` keys have been examined.
pub open spec fn resume_at(keys: Seq<Seq<u8>>, o: int) -> Option<Seq<u8>> {
    if o == 0 { None } else { Some(keys[o - 1]) }
}

proof fn lemma_entries_after_prefix(keys: Seq<Seq<u8>>, o: int)
    requires
        keys.no_duplicates(),
        0 <= o <= keys.len(),
    ensures
        entries_after(keys, resume_at(keys, o)) == keys.subrange(o, keys.len() as int),
{
    if o > 0 {
        let k = keys[o - 1];
        assert(keys.contains(k));
        let i = choose|i: int| 0 <= i < keys.len() && keys[i] == k;
        assert(i == o - 1);
    } else {
        assert(keys.subrange(0, keys.len() as int) =~= keys);
    }
}

proof fn lemma_invocations_split(ledger: Seq<Seq<Seq<u8>>>, ck: CheckpointModel, limit: nat, a: nat, b: nat)
    ensures
        invocations(ledger, ck, limit, a + b) == ({
            let (c1, v1) = invocations(ledger, ck, limit, a);
            let (c2, v2) = invocations(ledger, c1, limit, b);
            (c2, v1 + v2)
        }),
    decreases a,
{
    if a == 0 {
        assert(invocations(ledger, ck, limit, 0).1 + invocations(ledger, ck, limit, b).1 =~= invocations(ledger, ck, limit, b).1);
    } else {
        let (ck1, v1) = invocation(ledger, ck, limit);
        lemma_invocations_split(ledger, ck1, limit, (a - 1) as nat, b);
        assert(((a + b) - 1) as nat == ((a - 1) as nat) + b);
        let (c1, w1) = invocations(ledger, ck1, limit, (a - 1) as nat);
        let (c2, w2) = invocations(ledger, c1, limit, b);
        assert(v1 + (w1 + w2) =~= (v1 + w1) + w2);
    }
}

proof fn lemma_type_pass(ledger: Seq<Seq<Seq<u8>>>, ci: nat, limit: nat, o: int)
    requires
        ci < ledger.len(),
        limit > 0,
        ledger[ci as int].no_duplicates(),
        0 <= o <= ledger[ci as int].len(),
    ensures
        invocations(
            ledger,
            CheckpointModel { collateral_position: ci, resume_key: resume_at(ledger[ci as int], o) },
            limit,
            ((ledger[ci as int].len() - o) as nat) / limit + 1,
        ) == (
            CheckpointModel { collateral_position: next_position(ci, ledger.len()), resume_key: None },
            tagged(ci, ledger[ci as int].subrange(o, ledger[ci as int].len() as int)),
        ),
    decreases ledger[ci as int].len() - o,
{
    let keys = ledger[ci as int];
    let len = keys.len() as int;
    let ck = CheckpointModel { collateral_position: ci, resume_key: resume_at(keys, o) };
    lemma_entries_after_prefix(keys, o);
    let page = keys.subrange(o, len);
    let rest = (len - o) as nat;
    if rest < limit {
        assert(rest / limit == 0) by (nonlinear_arith)
            requires
                rest < limit,
        ;
        assert(page.take(page.len() as int) =~= page);
        let (ck1, v1) = invocation(ledger, ck, limit);
        assert(invocations(ledger, ck1, limit, 0) == (ck1, Seq::<(nat, Seq<u8>)>::empty()));
        assert(invocations(ledger, ck, limit, 1) == (ck1, v1 + seq![]));
        assert(v1 + seq![] =~= v1);
    } else {
        assert(rest / limit == ((rest - limit) as nat) / limit + 1) by (nonlinear_arith)
            requires
                rest >= limit,
                limit > 0,
        ;
        let (ck1, v1) = invocation(ledger, ck, limit);
        assert(page.take(limit as int) =~= keys.subrange(o, o + limit));
        assert(ck1 == CheckpointModel { collateral_position: ci, resume_key: resume_at(keys, o + limit) });
        lemma_type_pass(ledger, ci, limit, o + limit);
        assert(((len - (o + limit)) as nat) == (rest - limit) as nat);
        let v2 = tagged(ci, keys.subrange(o + limit, len));
        assert(v1 + v2 =~= tagged(ci, page));
    }
}

proof fn lemma_rotation_from(ledger: Seq<Seq<Seq<u8>>>, limit: nat, i: nat)
    requires
        i < ledger.len(),
        limit > 0,
        forall|t: int| 0 <= t < ledger.len() ==> (#[trigger] ledger[t]).no_duplicates(),
    ensures
        invocations(
            ledger,
            CheckpointModel { collateral_position: i, resume_key: None },
            limit,
            rotation_len(ledger, limit, i),
        ) == (CheckpointModel { collateral_position: 0, resume_key: None }, all_positions(ledger, i)),
    decreases ledger.len() - i,
{
    let keys = ledger[i as int];
    let ck = CheckpointModel { collateral_position: i, resume_key: None };
    let first = keys.len() / limit + 1;
    lemma_type_pass(ledger, i, limit, 0);
    assert(resume_at(keys, 0) == None::<Seq<u8>>);
    assert(keys.subrange(0, keys.len() as int) =~= keys);
    assert(((keys.len() - 0) as nat) == keys.len());
    lemma_invocations_split(ledger, ck, limit, first, rotation_len(ledger, limit, i + 1));
    let ck1 = CheckpointModel { collateral_position: next_position(i, ledger.len()), resume_key: None };
    if i + 1 < ledger.len() {
        lemma_rotation_from(ledger, limit, i + 1);
    } else {
        assert(all_positions(ledger, i + 1) == Seq::<(nat, Seq<u8>)>::empty());
        assert(rotation_len(ledger, limit, i + 1) == 0);
        assert(invocations(ledger, ck1, limit, 0) == (ck1, Seq::<(nat, Seq<u8>)>::empty()));
        assert(tagged(i, keys) + Seq::<(nat, Seq<u8>)>::empty() =~= tagged(i, keys));
    }
}

/// Completeness of the scan: with the positions fixed and the lease held,
/// invocations from the first collateral type at no resume key examine every
/// position of every collateral type exactly once, type by type in key
/// order, and after one full rotation the checkpoint is back at the first
/// collateral type with no resume key.
pub proof fn lemma_full_rotation(ledger: Seq<Seq<Seq<u8>>>, limit: nat)
    requires
        ledger.len() > 0,
        limit > 0,
        forall|t: int| 0 <= t < ledger.len() ==> (#[trigger] ledger[t]).no_duplicates(),
    ensures
        invocations(
            ledger,
            CheckpointModel { collateral_position: 0, resume_key: None },
            limit,
            rotation_len(ledger, limit, 0),
        ) == (CheckpointModel { collateral_position: 0, resume_key: None }, all_positions(ledger, 0)),
{
    lemma_rotation_from(ledger, limit, 0);
}

/// Resumability of the scan: when an invocation has examined the first `k`
/// positions that follow its resume key, the walk from the last of them
/// continues at position `k + 1`, not from the start.
pub proof fn lemma_resume_continues(keys: Seq<Seq<u8>>, resume: Option<Seq<u8>>, k: int)
    requires
        keys.no_duplicates(),
        resume matches Some(r) ==> keys.contains(r),
        0 < k <= entries_after(keys, resume).len(),
    ensures
        ({
            let page = entries_after(keys, resume);
            entries_after(keys, Some(page[k - 1])) == page.subrange(k, page.len() as int)
        }),
{
    let page = entries_after(keys, resume);
    let a: int = match resume {
        None => 0,
        Some(r) => (choose|i: int| 0 <= i < keys.len() && keys[i] == r) + 1,
    };
    assert(page =~= keys.subrange(a, keys.len() as int));
    assert(page[k - 1] == keys[a + k - 1]);
    lemma_entries_after_prefix(keys, a + k);
    assert(page.subrange(k, page.len() as int) =~= keys.subrange(a + k, keys.len() as int));
}

} // verus!
