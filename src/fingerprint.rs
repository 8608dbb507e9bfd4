use vstd::prelude::*;

verus! {

/// A file modification time, as nanoseconds since the Unix epoch (negative
/// before it).
#[derive(Clone, Copy, Debug, PartialEq, Eq, Structural)]
pub struct Timestamp {
    pub nanos: i128,
}

/// Why no fingerprint could be computed for a subtree.
#[derive(Clone, Copy, Debug, PartialEq, Eq, Structural)]
pub enum ScanError {
    /// No entry of the subtree had a readable modification time.
    EmptySubtree,
}

/// Some entry of the scan has a readable modification time.
pub open spec fn has_readable(stamps: Seq<Option<Timestamp>>) -> bool {
    exists|i: int| 0 <= i < stamps.len() && stamps[i] is Some
}

/// `t` is the latest modification time of the scan: it occurs in it, and no
/// readable entry is later.
pub open spec fn is_latest(stamps: Seq<Option<Timestamp>>, t: Timestamp) -> bool {
    &&& exists|i: int| 0 <= i < stamps.len() && stamps[i] == Some(t)
    &&& forall|i: int|
        0 <= i < stamps.len() && #[trigger] stamps[i] is Some ==> stamps[i]->Some_0.nanos
            <= t.nanos
}

/// The fingerprint of a subtree: the latest modification time among its
/// readable entries (meaningful only where one is readable).
pub open spec fn fingerprint(stamps: Seq<Option<Timestamp>>) -> Timestamp {
    choose|t: Timestamp| is_latest(stamps, t)
}

/// A scan has at most one latest modification time.
pub proof fn lemma_latest_unique(stamps: Seq<Option<Timestamp>>, a: Timestamp, b: Timestamp)
    requires
        is_latest(stamps, a),
        is_latest(stamps, b),
    ensures
        a == b,
{
    let i = choose|i: int| 0 <= i < stamps.len() && stamps[i] == Some(a);
    let j = choose|j: int| 0 <= j < stamps.len() && stamps[j] == Some(b);
    assert(stamps[i] is Some);
    assert(stamps[j] is Some);
}

/// A scan with a readable entry has a latest modification time.
pub proof fn lemma_latest_exists(stamps: Seq<Option<Timestamp>>)
    requires
        has_readable(stamps),
    ensures
        is_latest(stamps, fingerprint(stamps)),
    decreases stamps.len(),
{
    let n = stamps.len() - 1;
    let init = stamps.drop_last();
    assert(forall|k: int| 0 <= k < n ==> init[k] == stamps[k]);
    if has_readable(init) {
        lemma_latest_exists(init);
        let t = fingerprint(init);
        let j = choose|j: int| 0 <= j < init.len() && init[j] == Some(t);
        assert(stamps[j] == Some(t));
        match stamps[n] {
            Some(x) => {
                if x.nanos > t.nanos {
                    assert(is_latest(stamps, x));
                } else {
                    assert(is_latest(stamps, t));
                }
            },
            None => {
                assert(is_latest(stamps, t));
            },
        }
    } else {
        let i = choose|i: int| 0 <= i < stamps.len() && stamps[i] is Some;
        if i < n {
            assert(init[i] is Some);
        }
        let x = stamps[n]->Some_0;
        assert forall|k: int| 0 <= k < stamps.len() && #[trigger] stamps[k] is Some implies stamps[
            k]->Some_0.nanos <= x.nanos by {
            if k < n {
                assert(init[k] is Some);
            }
        }
        assert(is_latest(stamps, x));
    }
}

/// Where `t` is the latest modification time, it is the fingerprint.
pub proof fn lemma_latest_is_fingerprint(stamps: Seq<Option<Timestamp>>, t: Timestamp)
    requires
        is_latest(stamps, t),
    ensures
        fingerprint(stamps) == t,
{
    lemma_latest_unique(stamps, fingerprint(stamps), t);
}

/// The latest modification time among the entries found below a directory.
/// `stamps` holds one item per entry of the recursive walk, `None` where the
/// entry's modification time could not be read; those are skipped.
pub fn latest_modification_time(stamps: &Vec<Option<Timestamp>>) -> (r: Result<
    Timestamp,
    ScanError,
>)
    ensures
        r is Ok <==> has_readable(stamps@),
        r matches Ok(t) ==> is_latest(stamps@, t) && t == fingerprint(stamps@),
        r is Err ==> r == Err::<Timestamp, ScanError>(ScanError::EmptySubtree),
{
    let mut latest: Option<Timestamp> = None;
    let mut i: usize = 0;
    while i < stamps.len()
        invariant
            i <= stamps@.len(),
            latest is None ==> !has_readable(stamps@.take(i as int)),
            latest matches Some(t) ==> is_latest(stamps@.take(i as int), t),
        decreases stamps@.len() - i,
    {
        let prefix = Ghost(stamps@.take(i as int));
        let next = Ghost(stamps@.take(i as int + 1));
        assert(forall|k: int| 0 <= k < i ==> next@[k] == prefix@[k]);
        assert(next@[i as int] == stamps@[i as int]);
        match stamps[i] {
            Some(t) => {
                let later = match latest {
                    None => true,
                    Some(l) => t.nanos > l.nanos,
                };
                if later {
                    latest = Some(t);
                }
            },
            None => {},
        }
        i = i + 1;
    }
    assert(stamps@.take(stamps@.len() as int) == stamps@);
    match latest {
        Some(t) => {
            proof {
                lemma_latest_is_fingerprint(stamps@, t);
            }
            Ok(t)
        },
        None => Err(ScanError::EmptySubtree),
    }
}

} // verus!
