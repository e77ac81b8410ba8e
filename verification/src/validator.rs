//! The validator: recognises a finished code sequence against the table of
//! registered users, bounds how long a sequence may grow, and gives up on a
//! sequence that has been lying around for too long.

use std::collections::HashMap;
use vstd::arithmetic::power2::{lemma2_to64, lemma_pow2_adds, lemma_pow2_strictly_increases, pow2};
use vstd::prelude::*;

verus! {

/// The longest sequence that is still looked up in the table.
pub const MAX_SEQUENCE_LEN: usize = 10;

/// How many ticks a started sequence may stay without a verdict.
pub const MAX_ATTEMPT_TICKS: u64 = 1000;

/// One registered user: the exact sequence of matrix codes and the name shown
/// when the door is opened for it.
pub struct User {
    pub sequence: Vec<u8>,
    pub name: String,
}

/// What the validator says about the current sequence.
#[derive(PartialEq, Debug)]
pub enum Validation {
    Nothing,
    Timeout,
    SequenceTooLong,
    Validated(String),
}

/// A `Validation` as a mathematical value.
pub enum Verdict {
    Nothing,
    Timeout,
    SequenceTooLong,
    Validated(Seq<char>),
}

impl View for Validation {
    type V = Verdict;

    open spec fn view(&self) -> Verdict {
        match self {
            Validation::Nothing => Verdict::Nothing,
            Validation::Timeout => Verdict::Timeout,
            Validation::SequenceTooLong => Verdict::SequenceTooLong,
            Validation::Validated(user) => Verdict::Validated(user@),
        }
    }
}

/// The table that a list of users stands for. A sequence that is listed more
/// than once belongs to the user listed last.
pub open spec fn table_of(users: Seq<User>) -> Map<Seq<u8>, Seq<char>>
    decreases users.len(),
{
    if users.len() == 0 {
        Map::empty()
    } else {
        table_of(users.drop_last()).insert(users.last().sequence@, users.last().name@)
    }
}

/// A validator as a mathematical value: the table and the number of ticks the
/// current attempt has lasted.
pub struct ValidatorView {
    pub users: Map<Seq<u8>, Seq<char>>,
    pub timeout: nat,
}

/// The outcome of one validation: the verdict, the attempt counter after it and
/// what is left of the sequence.
pub struct Judgement {
    pub verdict: Verdict,
    pub timeout: nat,
    pub sequence: Seq<u8>,
}

/// The rules of validation, in the order in which they are tried: a started
/// sequence costs one tick; a sequence that is too long is dropped; so is one
/// that has lasted too long; one that is in the table is accepted; anything
/// else is left to grow.
pub open spec fn judge(users: Map<Seq<u8>, Seq<char>>, timeout: nat, sequence: Seq<u8>) -> Judgement {
    let ticks = if sequence.len() > 0 {
        timeout + 1
    } else {
        timeout
    };
    if sequence.len() > MAX_SEQUENCE_LEN {
        Judgement { verdict: Verdict::SequenceTooLong, timeout: 0, sequence: Seq::empty() }
    } else if ticks > MAX_ATTEMPT_TICKS {
        Judgement { verdict: Verdict::Timeout, timeout: 0, sequence: Seq::empty() }
    } else if users.contains_key(sequence) {
        Judgement { verdict: Verdict::Validated(users[sequence]), timeout: 0, sequence: Seq::empty() }
    } else {
        Judgement { verdict: Verdict::Nothing, timeout: ticks, sequence }
    }
}

/// The attempt counter after a run of validations, one for each sequence of
/// `feeds` in turn.
pub open spec fn timeout_after(users: Map<Seq<u8>, Seq<char>>, timeout: nat, feeds: Seq<Seq<u8>>) -> nat
    decreases feeds.len(),
{
    if feeds.len() == 0 {
        timeout
    } else {
        judge(users, timeout_after(users, timeout, feeds.drop_last()), feeds.last()).timeout
    }
}

/// A sequence that was started is emptied exactly when the verdict is not
/// `Nothing`; with the verdict `Nothing` nothing but the attempt counter
/// changes, and with any other verdict the counter starts again at zero.
pub proof fn lemma_cleared_iff_verdict(users: Map<Seq<u8>, Seq<char>>, timeout: nat, sequence: Seq<u8>)
    ensures
        judge(users, timeout, sequence).verdict is Nothing ==> judge(users, timeout, sequence).sequence
            == sequence,
        !(judge(users, timeout, sequence).verdict is Nothing) ==> judge(users, timeout, sequence).sequence
            == Seq::<u8>::empty() && judge(users, timeout, sequence).timeout == 0,
        sequence.len() > 0 ==> (judge(users, timeout, sequence).sequence.len() == 0 <==> !(judge(
            users,
            timeout,
            sequence,
        ).verdict is Nothing)),
{
}

/// While a started sequence of admissible length matches no user, each
/// validation adds exactly one to the attempt counter, up to the limit; the
/// validation after the limit was reached answers `Timeout` and starts the
/// counter again at zero.
pub proof fn lemma_timeout_counts_up(users: Map<Seq<u8>, Seq<char>>, timeout: nat, sequence: Seq<u8>)
    requires
        timeout <= MAX_ATTEMPT_TICKS,
        0 < sequence.len() <= MAX_SEQUENCE_LEN,
        !users.contains_key(sequence),
    ensures
        timeout < MAX_ATTEMPT_TICKS ==> judge(users, timeout, sequence).verdict is Nothing && judge(
            users,
            timeout,
            sequence,
        ).timeout == timeout + 1,
        timeout == MAX_ATTEMPT_TICKS ==> judge(users, timeout, sequence).verdict is Timeout && judge(
            users,
            timeout,
            sequence,
        ).timeout == 0,
{
}

/// A run of validations on started sequences of admissible length, none of
/// which matches a user, counts the calls: as long as the limit is not passed,
/// every verdict is `Nothing` and the counter has grown by the number of calls.
pub proof fn lemma_timeout_counts_calls(users: Map<Seq<u8>, Seq<char>>, timeout: nat, feeds: Seq<Seq<u8>>)
    requires
        timeout + feeds.len() <= MAX_ATTEMPT_TICKS,
        forall|i: int|
            0 <= i < feeds.len() ==> 0 < (#[trigger] feeds[i]).len() <= MAX_SEQUENCE_LEN
                && !users.contains_key(feeds[i]),
    ensures
        timeout_after(users, timeout, feeds) == timeout + feeds.len(),
        forall|i: int|
            0 <= i < feeds.len() ==> judge(
                users,
                timeout_after(users, timeout, feeds.take(i)),
                #[trigger] feeds[i],
            ).verdict is Nothing,
    decreases feeds.len(),
{
    if feeds.len() > 0 {
        let before = feeds.drop_last();
        lemma_timeout_counts_calls(users, timeout, before);
        assert forall|i: int| 0 <= i < feeds.len() implies judge(
            users,
            timeout_after(users, timeout, feeds.take(i)),
            #[trigger] feeds[i],
        ).verdict is Nothing by {
            if i < feeds.len() - 1 {
                assert(feeds.take(i) =~= before.take(i));
                assert(feeds[i] == before[i]);
            } else {
                assert(feeds.take(i) =~= before);
            }
        }
    }
}

/// A sequence longer than the maximum is answered with `SequenceTooLong`,
/// whatever the attempt counter and the table hold: the length is judged
/// before the time.
pub proof fn lemma_too_long_comes_first(users: Map<Seq<u8>, Seq<char>>, timeout: nat, sequence: Seq<u8>)
    requires
        sequence.len() > MAX_SEQUENCE_LEN,
    ensures
        judge(users, timeout, sequence).verdict is SequenceTooLong,
        judge(users, timeout, sequence).sequence == Seq::<u8>::empty(),
        judge(users, timeout, sequence).timeout == 0,
{
}

/// The number of a sequence that is short enough to be looked up fits the
/// key of the hash table.
pub proof fn lemma_key_fits(sequence: Seq<u8>)
    requires
        sequence.len() <= MAX_SEQUENCE_LEN,
    ensures
        key_of(sequence) <= u128::MAX,
        key_of(sequence) as u128 == key_of(sequence),
{
    lemma2_to64();
    lemma_pow2_adds(64, 25);
    lemma_key_bounds(sequence);
    if 8 * sequence.len() + 1 < 89 {
        lemma_pow2_strictly_increases(8 * sequence.len() + 1, 89);
    }
}

/// The number under which a sequence is kept in the hash table: a 1, then
/// the codes as the digits of a number to the base 256. No two sequences
/// have the same number.
pub open spec fn key_of(sequence: Seq<u8>) -> nat
    decreases sequence.len(),
{
    if sequence.len() == 0 {
        1
    } else {
        key_of(sequence.drop_last()) * 256 + sequence.last() as nat
    }
}

/// Sequences with the same number are the same sequence.
pub proof fn lemma_key_tells_apart(a: Seq<u8>, b: Seq<u8>)
    requires
        key_of(a) == key_of(b),
    ensures
        a == b,
    decreases a.len(),
{
    lemma_key_bounds(a.drop_last());
    lemma_key_bounds(b.drop_last());
    if a.len() == 0 || b.len() == 0 {
        assert(a.len() == 0 && b.len() == 0);
        assert(a =~= b);
    } else {
        lemma_key_tells_apart(a.drop_last(), b.drop_last());
        assert(a =~= a.drop_last().push(a.last()));
        assert(b =~= b.drop_last().push(b.last()));
    }
}

/// The number of a sequence has one binary digit more than its codes
/// together.
pub proof fn lemma_key_bounds(sequence: Seq<u8>)
    ensures
        1 <= key_of(sequence) < pow2(8 * sequence.len() + 1),
    decreases sequence.len(),
{
    lemma2_to64();
    if sequence.len() > 0 {
        lemma_key_bounds(sequence.drop_last());
        lemma_pow2_adds(8 * sequence.drop_last().len() + 1, 8);
        assert(8 * sequence.drop_last().len() + 1 + 8 == 8 * sequence.len() + 1);
    }
}

/// The number of a sequence that is short enough to be looked up.
fn key(sequence: &Vec<u8>) -> (k: u128)
    requires
        sequence.len() <= MAX_SEQUENCE_LEN,
    ensures
        k == key_of(sequence@),
{
    let mut k: u128 = 1;
    let mut i: usize = 0;
    proof {
        lemma2_to64();
        lemma_pow2_adds(64, 25);
        assert(sequence@.take(0) =~= Seq::<u8>::empty());
    }
    while i < sequence.len()
        invariant
            i <= sequence.len() <= MAX_SEQUENCE_LEN,
            k == key_of(sequence@.take(i as int)),
            pow2(89) == 0x10000000000000000 * 0x2000000,
        decreases sequence.len() - i,
    {
        proof {
            lemma_key_bounds(sequence@.take(i as int));
            lemma_key_bounds(sequence@.take(i + 1));
            assert(sequence@.take(i + 1).drop_last() =~= sequence@.take(i as int));
            if 8 * (i + 1) + 1 < 89 {
                lemma_pow2_strictly_increases((8 * (i + 1) + 1) as nat, 89);
            }
        }
        k = k * 256 + sequence[i] as u128;
        i = i + 1;
    }
    assert(sequence@.take(i as int) =~= sequence@);
    k
}

/// Whether a hash table holds a list of users: it knows every sequence that
/// is short enough to be looked up under its number, with the name that the
/// list has for it.
pub open spec fn holds(table: Map<u128, String>, users: Map<Seq<u8>, Seq<char>>) -> bool {
    forall|sequence: Seq<u8>|
        sequence.len() <= MAX_SEQUENCE_LEN ==> {
            &&& #[trigger] users.contains_key(sequence) <==> table.contains_key(key_of(sequence) as u128)
            &&& users.contains_key(sequence) ==> table[key_of(sequence) as u128]@ == users[sequence]
        }
}

pub struct Validator {
    table: HashMap<u128, String>,
    users: Ghost<Map<Seq<u8>, Seq<char>>>,
    timeout: u64,
}

impl View for Validator {
    type V = ValidatorView;

    closed spec fn view(&self) -> ValidatorView {
        ValidatorView { users: self.users@, timeout: self.timeout as nat }
    }
}

impl Validator {
    #[verifier::type_invariant]
    spec fn inv(&self) -> bool {
        &&& self.timeout <= MAX_ATTEMPT_TICKS
        &&& holds(self.table@, self.users@)
    }

    /// A validator for the given users, with no attempt under way. The users
    /// are put into a hash table; a sequence too long to be looked up is
    /// left out of it.
    pub fn new(users: Vec<User>) -> (validator: Validator)
        ensures
            validator@.users == table_of(users@),
            validator@.timeout == 0,
    {
        let mut table: HashMap<u128, String> = HashMap::new();
        let mut i: usize = 0;
        assert(users@.take(0) =~= Seq::<User>::empty());
        while i < users.len()
            invariant
                i <= users.len(),
                holds(table@, table_of(users@.take(i as int))),
            decreases users.len() - i,
        {
            let ghost before = table@;
            let ghost listed = table_of(users@.take(i as int));
            let ghost added = users[i as int].sequence@;
            assert(users@.take(i + 1).drop_last() =~= users@.take(i as int));
            assert(table_of(users@.take(i + 1)) == listed.insert(added, users[i as int].name@));
            if users[i].sequence.len() <= MAX_SEQUENCE_LEN {
                let k = key(&users[i].sequence);
                let name = users[i].name.clone();
                table.insert(k, name);
                assert forall|sequence: Seq<u8>| sequence.len() <= MAX_SEQUENCE_LEN implies ({
                    &&& #[trigger] listed.insert(added, users[i as int].name@).contains_key(sequence)
                        <==> table@.contains_key(key_of(sequence) as u128)
                    &&& listed.insert(added, users[i as int].name@).contains_key(sequence) ==> table@[key_of(
                        sequence,
                    ) as u128]@ == listed.insert(added, users[i as int].name@)[sequence]
                }) by {
                    lemma_key_bounds(sequence);
                    lemma_key_bounds(added);
                    lemma_key_fits(sequence);
                    lemma_key_fits(added);
                    if key_of(sequence) == key_of(added) {
                        lemma_key_tells_apart(sequence, added);
                    }
                    assert(listed.contains_key(sequence) <==> before.contains_key(key_of(sequence) as u128));
                }
            } else {
                assert forall|sequence: Seq<u8>| sequence.len() <= MAX_SEQUENCE_LEN implies ({
                    &&& #[trigger] listed.insert(added, users[i as int].name@).contains_key(sequence)
                        <==> table@.contains_key(key_of(sequence) as u128)
                    &&& listed.insert(added, users[i as int].name@).contains_key(sequence) ==> table@[key_of(
                        sequence,
                    ) as u128]@ == listed.insert(added, users[i as int].name@)[sequence]
                }) by {
                    assert(sequence != added);
                    assert(listed.contains_key(sequence) <==> before.contains_key(key_of(sequence) as u128));
                }
            }
            i = i + 1;
        }
        assert(users@.take(i as int) =~= users@);
        Validator { table, users: Ghost(table_of(users@)), timeout: 0 }
    }

    /// The number of ticks the current attempt has lasted.
    pub fn timeout(&self) -> (ticks: u64)
        ensures
            ticks == self@.timeout,
            ticks <= MAX_ATTEMPT_TICKS,
    {
        proof {
            use_type_invariant(self);
        }
        self.timeout
    }

    /// The name registered for exactly this sequence, if there is one: one
    /// look into the hash table.
    fn lookup(&self, sequence: &Vec<u8>) -> (found: Option<String>)
        requires
            sequence.len() <= MAX_SEQUENCE_LEN,
        ensures
            found is Some <==> self@.users.contains_key(sequence@),
            found matches Some(name) ==> name@ == self@.users[sequence@],
    {
        proof {
            use_type_invariant(self);
            lemma_key_fits(sequence@);
        }
        let k = key(sequence);
        assert(self@.users.contains_key(sequence@) <==> self.table@.contains_key(k));
        match self.table.get(&k) {
            Some(name) => Some(name.clone()),
            None => None,
        }
    }

    /// Judges the sequence as it stands after this tick. Any verdict but
    /// `Nothing` ends the attempt: the sequence is emptied and the attempt counter
    /// starts again at zero.
    pub fn validate(&mut self, sequence: &mut Vec<u8>) -> (verdict: Validation)
        ensures
            verdict@ == judge(old(self)@.users, old(self)@.timeout, old(sequence)@).verdict,
            final(sequence)@ == judge(old(self)@.users, old(self)@.timeout, old(sequence)@).sequence,
            final(self)@.timeout == judge(old(self)@.users, old(self)@.timeout, old(sequence)@).timeout,
            final(self)@.users == old(self)@.users,
            final(self)@.timeout <= MAX_ATTEMPT_TICKS,
    {
        proof {
            use_type_invariant(&*self);
        }
        let ticks: u64 = if sequence.len() > 0 {
            self.timeout + 1
        } else {
            self.timeout
        };
        if sequence.len() > MAX_SEQUENCE_LEN {
            sequence.clear();
            self.timeout = 0;
            return Validation::SequenceTooLong;
        }
        if ticks > MAX_ATTEMPT_TICKS {
            sequence.clear();
            self.timeout = 0;
            return Validation::Timeout;
        }
        match self.lookup(sequence) {
            Some(user) => {
                sequence.clear();
                self.timeout = 0;
                Validation::Validated(user)
            },
            None => {
                self.timeout = ticks;
                Validation::Nothing
            },
        }
    }
}

} // verus!
