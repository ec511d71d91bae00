use crate::error::TsnError;
use vstd::prelude::*;

verus! {

/// Octets of the shared segment that holds one reference record.
pub const SHM_SIZE: usize = 128;

/// Process ids that one reference record can hold.
pub const SLOTS: usize = 32;

/// The users that a segment holds: its slots that are not zero, in order.
pub open spec fn live(slots: Seq<u32>) -> Seq<u32>
    decreases slots.len(),
{
    if slots.len() == 0 {
        Seq::empty()
    } else if slots.last() != 0 {
        live(slots.drop_last()).push(slots.last())
    } else {
        live(slots.drop_last())
    }
}

/// The slots of a segment that holds these users: the users, then zeros up to
/// the segment's size.
pub open spec fn padded(users: Seq<u32>) -> Seq<u32> {
    users + Seq::new((SLOTS - users.len()) as nat, |i: int| 0u32)
}

/// No user is zero.
pub open spec fn all_set(users: Seq<u32>) -> bool {
    forall|i: int| 0 <= i < users.len() ==> users[i] != 0
}

/// Whether `i` is where `pid` stands first among the users.
pub open spec fn is_first(users: Seq<u32>, pid: u32, i: int) -> bool {
    &&& 0 <= i < users.len()
    &&& users[i] == pid
    &&& forall|k: int| 0 <= k < i ==> users[k] != pid
}

/// The users without the first entry of `pid`.
pub open spec fn without_first(users: Seq<u32>, pid: u32) -> Seq<u32> {
    if exists|i: int| is_first(users, pid, i) {
        users.remove(choose|i: int| is_first(users, pid, i))
    } else {
        users
    }
}

/// The users whose flag is set, in order.
pub open spec fn kept(users: Seq<u32>, alive: Seq<bool>) -> Seq<u32>
    decreases users.len(),
{
    if users.len() == 0 {
        Seq::empty()
    } else if alive[users.len() - 1] {
        kept(users.drop_last(), alive).push(users.last())
    } else {
        kept(users.drop_last(), alive)
    }
}

/// Reads the users out of a segment's slots.
pub fn read_shmem(slots: &[u32]) -> (users: Vec<u32>)
    ensures
        users@ == live(slots@),
{
    let n: usize = slots.len();
    let mut users: Vec<u32> = Vec::new();
    let mut i: usize = 0;
    while i < n
        invariant
            i <= n,
            n == slots@.len(),
            users@ == live(slots@.take(i as int)),
        decreases n - i,
    {
        assert(slots@.take(i + 1).drop_last() =~= slots@.take(i as int));
        if slots[i] != 0 {
            users.push(slots[i]);
        }
        i = i + 1;
    }
    assert(slots@.take(n as int) =~= slots@);
    users
}

/// Lays the users out as a segment's slots. More users than slots are
/// refused.
pub fn write_shmem(users: &Vec<u32>) -> (r: Result<Vec<u32>, TsnError>)
    ensures
        users@.len() <= SLOTS ==> r is Ok && r->Ok_0@ == padded(users@),
        users@.len() > SLOTS ==> r == Err::<Vec<u32>, TsnError>(TsnError::TooManyUsers),
{
    let n: usize = users.len();
    if n > SLOTS {
        return Err(TsnError::TooManyUsers);
    }
    let mut out: Vec<u32> = Vec::new();
    let mut i: usize = 0;
    while i < n
        invariant
            i <= n,
            n == users@.len(),
            out@ == users@.take(i as int),
        decreases n - i,
    {
        out.push(users[i]);
        i = i + 1;
        assert(out@ =~= users@.take(i as int));
    }
    assert(users@.take(n as int) =~= users@);
    while i < SLOTS
        invariant
            n <= i <= SLOTS,
            n == users@.len(),
            out@ == users@ + Seq::new((i - n) as nat, |k: int| 0u32),
        decreases SLOTS - i,
    {
        out.push(0u32);
        i = i + 1;
        assert(out@ =~= users@ + Seq::new((i - n) as nat, |k: int| 0u32));
    }
    Ok(out)
}

/// Reading a segment that was laid out from users of which none is zero gives
/// the users back.
pub proof fn lemma_read_after_write(users: Seq<u32>)
    requires
        users.len() <= SLOTS,
        all_set(users),
    ensures
        live(padded(users)) == users,
{
    lemma_live_of_zeros(users, (SLOTS - users.len()) as nat);
}

proof fn lemma_live_of_zeros(users: Seq<u32>, k: nat)
    requires
        all_set(users),
    ensures
        live(users + Seq::new(k, |i: int| 0u32)) == users,
    decreases users.len() + k,
{
    let s = users + Seq::new(k, |i: int| 0u32);
    if k > 0 {
        assert(s.drop_last() =~= users + Seq::new((k - 1) as nat, |i: int| 0u32));
        lemma_live_of_zeros(users, (k - 1) as nat);
    } else if users.len() > 0 {
        assert(s =~= users);
        assert(all_set(users.drop_last()));
        lemma_live_of_zeros(users.drop_last(), 0);
        assert(users.drop_last() + Seq::new(0, |i: int| 0u32) =~= users.drop_last());
        assert(users.drop_last().push(users.last()) =~= users);
    } else {
        assert(s =~= Seq::<u32>::empty());
    }
}

/// Records one more user. Returns whether the record was empty before, which
/// tells the caller to create the VLAN. A process id of zero cannot be
/// recorded; a record that is full takes no more.
pub fn acquire(users: &mut Vec<u32>, pid: u32) -> (r: Result<bool, TsnError>)
    ensures
        match r {
            Ok(was_empty) => {
                &&& pid != 0
                &&& old(users)@.len() < SLOTS
                &&& was_empty == (old(users)@.len() == 0)
                &&& final(users)@ == old(users)@.push(pid)
            },
            Err(e) => {
                &&& final(users)@ == old(users)@
                &&& e == if pid == 0 {
                    TsnError::InvalidArgument
                } else {
                    TsnError::TooManyUsers
                }
                &&& pid == 0 || old(users)@.len() >= SLOTS
            },
        },
{
    if pid == 0 {
        return Err(TsnError::InvalidArgument);
    }
    if users.len() >= SLOTS {
        return Err(TsnError::TooManyUsers);
    }
    let was_empty = users.len() == 0;
    users.push(pid);
    Ok(was_empty)
}

/// Takes the first entry of `pid` out of the record, if there is one.
pub fn remove_user(users: &mut Vec<u32>, pid: u32)
    ensures
        final(users)@ == without_first(old(users)@, pid),
{
    let n: usize = users.len();
    let mut i: usize = 0;
    while i < n
        invariant
            i <= n,
            n == users@.len(),
            users@ == old(users)@,
            forall|k: int| 0 <= k < i ==> users@[k] != pid,
        decreases n - i,
    {
        if users[i] == pid {
            proof {
                assert(is_first(users@, pid, i as int));
                let j = choose|j: int| is_first(users@, pid, j);
                assert(j == i);
            }
            users.remove(i);
            return ;
        }
        i = i + 1;
    }
    assert(forall|j: int| !is_first(users@, pid, j));
}

/// Keeps the users whose flag is set.
pub fn prune(users: &mut Vec<u32>, alive: &[bool])
    requires
        alive@.len() == old(users)@.len(),
    ensures
        final(users)@ == kept(old(users)@, alive@),
{
    let n: usize = users.len();
    let mut out: Vec<u32> = Vec::new();
    let mut i: usize = 0;
    while i < n
        invariant
            i <= n,
            n == users@.len(),
            n == alive@.len(),
            users@ == old(users)@,
            out@ == kept(users@.take(i as int), alive@),
        decreases n - i,
    {
        assert(users@.take(i + 1).drop_last() =~= users@.take(i as int));
        if alive[i] {
            out.push(users[i]);
        }
        i = i + 1;
    }
    assert(users@.take(n as int) =~= users@);
    *users = out;
}

/// Takes one user out of the record and drops the users that are gone.
/// `alive` holds, for each user that is left once the first entry of `pid` is
/// out, whether its process still exists. Returns whether the record became
/// empty, which tells the caller to delete the VLAN.
pub fn release_with(users: &mut Vec<u32>, pid: u32, alive: &[bool]) -> (became_empty: bool)
    requires
        alive@.len() == without_first(old(users)@, pid).len(),
    ensures
        final(users)@ == kept(without_first(old(users)@, pid), alive@),
        became_empty == (final(users)@.len() == 0),
{
    remove_user(users, pid);
    prune(users, alive);
    users.len() == 0
}

/// Asks the system whether a process exists, by `nix::sys::signal::kill` with
/// no signal; nothing is claimed of the answer.
#[verifier::external_body]
fn process_exists(pid: u32) -> (b: bool)
    requires
        0 < pid <= 0x7fff_ffff,
{
    nix::sys::signal::kill(nix::unistd::Pid::from_raw(pid as i32), None).is_ok()
}

/// Takes one user out of the record and drops each user whose process the
/// system no longer knows. Returns whether the record became empty. Whatever
/// the system answers, the record afterwards holds, in their order, some of
/// the users that were left once the first entry of `pid` was out.
pub fn release(users: &mut Vec<u32>, pid: u32) -> (became_empty: bool)
    ensures
        exists|alive: Seq<bool>|
            alive.len() == without_first(old(users)@, pid).len() && final(users)@ == kept(
                without_first(old(users)@, pid),
                alive,
            ),
        became_empty == (final(users)@.len() == 0),
{
    remove_user(users, pid);
    let ghost left = users@;
    let n: usize = users.len();
    let mut alive: Vec<bool> = Vec::new();
    let mut i: usize = 0;
    while i < n
        invariant
            i <= n,
            n == users@.len(),
            users@ == left,
            alive@.len() == i,
        decreases n - i,
    {
        let p: u32 = users[i];
        let b = if 0 < p && p <= 0x7fff_ffff {
            process_exists(p)
        } else {
            false
        };
        alive.push(b);
        i = i + 1;
    }
    prune(users, alive.as_slice());
    users.len() == 0
}

/// The first user of an empty record is told to create the VLAN, and when it
/// leaves again, with no other user in between, the record is empty and it is
/// told to delete the VLAN.
pub proof fn lemma_sole_user_leaves_empty(pid: u32, alive: Seq<bool>)
    requires
        pid != 0,
    ensures
        without_first(Seq::<u32>::empty().push(pid), pid) == Seq::<u32>::empty(),
        kept(without_first(Seq::<u32>::empty().push(pid), pid), alive) == Seq::<u32>::empty(),
{
    let s = Seq::<u32>::empty().push(pid);
    assert(is_first(s, pid, 0));
    let j = choose|j: int| is_first(s, pid, j);
    assert(j == 0);
    assert(s.remove(0) =~= Seq::<u32>::empty());
}

/// Where `pid` stands first is one place only, and taking the first entry
/// out is taking that place out.
proof fn lemma_first_is(users: Seq<u32>, pid: u32, i: int)
    requires
        is_first(users, pid, i),
    ensures
        without_first(users, pid) == users.remove(i),
{
    let j = choose|j: int| is_first(users, pid, j);
    assert(j == i);
}

proof fn lemma_none_first(users: Seq<u32>, pid: u32)
    requires
        forall|k: int| 0 <= k < users.len() ==> users[k] != pid,
    ensures
        without_first(users, pid) == users,
{
}

/// Either `pid` stands first somewhere among the users or it stands nowhere.
proof fn lemma_first_or_none(users: Seq<u32>, pid: u32, upto: int) -> (i: int)
    requires
        0 <= upto <= users.len(),
        forall|k: int| 0 <= k < upto ==> users[k] != pid,
    ensures
        i == -1 ==> forall|k: int| 0 <= k < users.len() ==> users[k] != pid,
        i != -1 ==> is_first(users, pid, i),
    decreases users.len() - upto,
{
    if upto == users.len() {
        -1
    } else if users[upto] == pid {
        upto
    } else {
        lemma_first_or_none(users, pid, upto + 1)
    }
}

/// What two processes do to a record does not depend on which of them comes
/// first: one joining and another leaving, or both leaving, give the same
/// record in either order, and both joining give the same users in either
/// order. So opening and closing, interleaved across processes in any way,
/// leaves the users that doing it one process after the other leaves.
pub proof fn lemma_processes_commute(users: Seq<u32>, p: u32, q: u32)
    requires
        p != q,
    ensures
        without_first(users.push(p), q) == without_first(users, q).push(p),
        without_first(without_first(users, p), q) == without_first(without_first(users, q), p),
        users.push(p).push(q).to_multiset() == users.push(q).push(p).to_multiset(),
{
    let i = lemma_first_or_none(users, p, 0);
    let j = lemma_first_or_none(users, q, 0);
    // one joins, the other leaves
    if j == -1 {
        lemma_none_first(users, q);
        lemma_none_first(users.push(p), q);
    } else {
        lemma_first_is(users, q, j);
        assert(is_first(users.push(p), q, j));
        lemma_first_is(users.push(p), q, j);
        assert(users.push(p).remove(j) =~= users.remove(j).push(p));
    }
    // both leave
    if i == -1 && j == -1 {
        lemma_none_first(users, p);
        lemma_none_first(users, q);
    } else if i == -1 {
        lemma_none_first(users, p);
        lemma_first_is(users, q, j);
        lemma_none_first(users.remove(j), p);
    } else if j == -1 {
        lemma_none_first(users, q);
        lemma_first_is(users, p, i);
        lemma_none_first(users.remove(i), q);
    } else {
        lemma_first_is(users, p, i);
        lemma_first_is(users, q, j);
        if i < j {
            assert(is_first(users.remove(i), q, j - 1));
            lemma_first_is(users.remove(i), q, j - 1);
            assert(is_first(users.remove(j), p, i));
            lemma_first_is(users.remove(j), p, i);
            assert(users.remove(i).remove(j - 1) =~= users.remove(j).remove(i));
        } else {
            assert(is_first(users.remove(i), q, j));
            lemma_first_is(users.remove(i), q, j);
            assert(is_first(users.remove(j), p, i - 1));
            lemma_first_is(users.remove(j), p, i - 1);
            assert(users.remove(i).remove(j) =~= users.remove(j).remove(i - 1));
        }
    }
    // both join
    vstd::seq_lib::to_multiset_build(users, p);
    vstd::seq_lib::to_multiset_build(users.push(p), q);
    vstd::seq_lib::to_multiset_build(users, q);
    vstd::seq_lib::to_multiset_build(users.push(q), p);
    assert(users.to_multiset().insert(p).insert(q) =~= users.to_multiset().insert(q).insert(p));
}

} // verus!
