//! Taking turns at serving the HSM types, and noticing that a socket is gone.

use vstd::prelude::*;

verus! {

/// How long it is from one look at the sockets to the next, in seconds.
pub const SOCKET_CHECK_INTERVAL_SECS: u64 = 2;

/// What comes after an HSM type has been served.
#[derive(Clone, Copy, Debug, PartialEq, Eq, Structural)]
pub enum Turn {
    /// The HSM type at this position is served next.
    Serve(usize),
    /// The program exits.
    Exit,
}

/// What comes after the HSM type at `position`, of `count`, has been served: the program exits if
/// it should, else the next HSM type has its turn, and after the last one the first again.
pub open spec fn turn_after_view(position: int, count: int, should_exit: bool) -> Turn {
    if should_exit {
        Turn::Exit
    } else {
        Turn::Serve(((position + 1) % count) as usize)
    }
}

/// What comes after the HSM type at `position`, of `count`, has been served.
pub fn turn_after(position: usize, count: usize, should_exit: bool) -> (r: Turn)
    requires
        position < count,
    ensures
        r == turn_after_view(position as int, count as int, should_exit),
        r == Turn::Exit <==> should_exit,
        !should_exit && position + 1 < count ==> r == Turn::Serve((position + 1) as usize),
        !should_exit && position + 1 == count ==> r == Turn::Serve(0),
{
    if should_exit {
        Turn::Exit
    } else if position + 1 < count {
        proof {
            vstd::arithmetic::div_mod::lemma_small_mod((position + 1) as nat, count as nat);
        }
        Turn::Serve(position + 1)
    } else {
        proof {
            vstd::arithmetic::div_mod::lemma_mod_self_0(count as int);
        }
        Turn::Serve(0)
    }
}

/// Whether one of the flags says that a socket is not there.
pub open spec fn some_missing(present: Seq<bool>) -> bool {
    exists|i: int| 0 <= i < present.len() && !#[trigger] present[i]
}

/// Whether a socket is missing, given for each whether it is there.
pub fn is_socket_missing(present: &Vec<bool>) -> (r: bool)
    ensures
        r <==> present@.contains(false),
        r == some_missing(present@),
{
    for i in 0..present.len()
        invariant
            forall|k: int| 0 <= k < i ==> present@[k],
    {
        if !present[i] {
            assert(present@[i as int] == false);
            return true;
        }
    }
    false
}

/// The position that has its turn after `n` turns, as long as the program does not exit.
pub open spec fn position_after(n: nat, count: nat) -> int
    decreases n,
{
    if n == 0 {
        0
    } else {
        match turn_after_view(position_after((n - 1) as nat, count), count as int, false) {
            Turn::Serve(position) => position as int,
            Turn::Exit => 0,
        }
    }
}

/// Every HSM type has its turn, again and again: the turns go round all positions.
pub proof fn turns_go_round(n: nat, count: nat)
    requires
        0 < count <= usize::MAX,
    ensures
        position_after(n, count) == n as int % count as int,
    decreases n,
{
    let c = count as int;
    if n == 0 {
        vstd::arithmetic::div_mod::lemma_small_mod(0, count);
    } else {
        turns_go_round((n - 1) as nat, count);
        let m = n - 1;
        vstd::arithmetic::div_mod::lemma_add_mod_noop_right(1, m, c);
        assert((m % c + 1) % c == n as int % c);
        vstd::arithmetic::div_mod::lemma_mod_bound(n as int, c);
    }
}

/// The program exits after a turn if and only if it should, whichever HSM type was served and
/// however many there are; else the next one has its turn, and after the last one the first.
pub proof fn exit_ends_the_turns(position: int, count: int, should_exit: bool)
    requires
        0 <= position < count <= usize::MAX,
    ensures
        turn_after_view(position, count, should_exit) == Turn::Exit <==> should_exit,
        !should_exit && position + 1 < count ==> turn_after_view(position, count, should_exit)
            == Turn::Serve((position + 1) as usize),
        !should_exit && position + 1 == count ==> turn_after_view(position, count, should_exit)
            == Turn::Serve(0),
{
    if position + 1 < count {
        vstd::arithmetic::div_mod::lemma_small_mod((position + 1) as nat, count as nat);
    } else {
        vstd::arithmetic::div_mod::lemma_mod_self_0(count);
    }
}

/// A socket is missing from a list if and only if it is missing from one of the parts of the list;
/// of no sockets none is missing, and a single one is missing if it is not there.
pub proof fn every_missing_socket_is_noticed(first: Seq<bool>, rest: Seq<bool>, present: bool)
    ensures
        some_missing(first + rest) <==> some_missing(first) || some_missing(rest),
        some_missing(seq![present]) <==> !present,
        !some_missing(seq![]),
        some_missing(first) <==> first.contains(false),
{
    let all = first + rest;
    if some_missing(all) {
        let i = choose|i: int| 0 <= i < all.len() && !#[trigger] all[i];
        assert(i < first.len() ==> !first[i]);
        assert(i >= first.len() ==> !rest[i - first.len()]);
    }
    if some_missing(first) {
        let i = choose|i: int| 0 <= i < first.len() && !#[trigger] first[i];
        assert(!all[i]);
        assert(first[i] == false);
    }
    if some_missing(rest) {
        let i = choose|i: int| 0 <= i < rest.len() && !#[trigger] rest[i];
        assert(!all[first.len() + i]);
    }
    assert(seq![present][0] == present);
}

/// The sockets are looked at every two seconds.
pub proof fn sockets_are_looked_at_every_two_seconds()
    ensures
        SOCKET_CHECK_INTERVAL_SECS == 2,
{
}

} // verus!
