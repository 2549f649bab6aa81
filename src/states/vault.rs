use vstd::prelude::*;

use crate::constants::MAX_OPERATORS_LEN;
use crate::errors::EscrowError;
use crate::pubkey::{keys_contain, Pubkey};

verus! {

/// The registry of the vault: its administrator and the operators that it authorizes.
#[derive(Clone, Debug)]
pub struct Vault {
    pub admin: Pubkey,
    pub operators: Vec<Pubkey>,
}

/// The operators that a registry may hold: distinct, and at most `MAX_OPERATORS_LEN` of them.
pub open spec fn valid_operators(operators: Seq<Pubkey>) -> bool {
    operators.no_duplicates() && operators.len() <= MAX_OPERATORS_LEN
}

/// The error with which a fresh registry refuses `operators`, registered one after the other:
/// a repeated operator among the first `MAX_OPERATORS_LEN + 1` is seen before the size limit.
pub open spec fn initialize_error(operators: Seq<Pubkey>) -> Option<EscrowError> {
    let head = if operators.len() <= MAX_OPERATORS_LEN {
        operators
    } else {
        operators.take(MAX_OPERATORS_LEN + 1)
    };
    if !head.no_duplicates() {
        Some(EscrowError::OperatorAlreadyExists)
    } else if operators.len() > MAX_OPERATORS_LEN {
        Some(EscrowError::ExceedOperatorLimit)
    } else {
        None
    }
}

/// The error with which adding `operator` to `operators` fails, if any.
pub open spec fn add_operator_error(operators: Seq<Pubkey>, operator: Pubkey) -> Option<
    EscrowError,
> {
    if operators.contains(operator) {
        Some(EscrowError::OperatorAlreadyExists)
    } else if operators.len() >= MAX_OPERATORS_LEN {
        Some(EscrowError::ExceedOperatorLimit)
    } else {
        None
    }
}

/// The error with which removing `operator` from `operators` fails, if any.
pub open spec fn remove_operator_error(operators: Seq<Pubkey>, operator: Pubkey) -> Option<
    EscrowError,
> {
    if !operators.contains(operator) {
        Some(EscrowError::OperatorNotExists)
    } else {
        None
    }
}

impl Vault {
    /// The operators are distinct and within the limit.
    pub open spec fn wf(&self) -> bool {
        valid_operators(self.operators@)
    }

    /// The operators as a set: membership is all that the registry means.
    pub open spec fn operator_set(&self) -> Set<Pubkey> {
        self.operators@.to_set()
    }

    /// Whether the registry holds distinct operators, no more than the limit allows.
    pub fn is_well_formed(&self) -> (r: bool)
        ensures
            r == self.wf(),
    {
        let n = self.operators.len();
        if n > MAX_OPERATORS_LEN {
            return false;
        }
        let mut i: usize = 0;
        while i < n
            invariant
                0 <= i <= n,
                n == self.operators@.len(),
                forall|a: int, b: int|
                    0 <= a < i && 0 <= b < n && a != b ==> self.operators@[a]
                        != self.operators@[b],
            decreases n - i,
        {
            let mut j: usize = 0;
            while j < n
                invariant
                    0 <= i < n,
                    0 <= j <= n,
                    n == self.operators@.len(),
                    forall|a: int, b: int|
                        0 <= a < i && 0 <= b < n && a != b ==> self.operators@[a]
                            != self.operators@[b],
                    forall|b: int| 0 <= b < j && b != i ==> self.operators@[i as int]
                        != self.operators@[b],
                decreases n - j,
            {
                if j != i && self.operators[i] == self.operators[j] {
                    return false;
                }
                j += 1;
            }
            i += 1;
        }
        true
    }

    /// Makes this the registry of `admin` with `operators`, which are checked one after the
    /// other as `add_operator` checks them. On error the registry is left as it was.
    pub fn initialize(&mut self, admin: Pubkey, operators: Vec<Pubkey>) -> (r: Result<
        (),
        EscrowError,
    >)
        ensures
            match initialize_error(operators@) {
                Some(e) => r == Err::<(), EscrowError>(e) && *final(self) == *old(self),
                None => {
                    &&& r is Ok
                    &&& final(self).admin == admin
                    &&& final(self).operators@ == operators@
                    &&& final(self).wf()
                },
            },
    {
        let mut registry = Vault { admin, operators: Vec::new() };
        let mut i: usize = 0;
        while i < operators.len()
            invariant
                0 <= i <= operators@.len(),
                registry.admin == admin,
                registry.operators@ == operators@.take(i as int),
                registry.wf(),
            decreases operators.len() - i,
        {
            let operator = operators[i];
            match registry.add_operator(operator) {
                Ok(()) => {},
                Err(e) => {
                    let ghost ops = operators@;
                    let ghost k = if ops.len() <= MAX_OPERATORS_LEN {
                        ops.len() as int
                    } else {
                        MAX_OPERATORS_LEN + 1
                    };
                    if e == EscrowError::OperatorAlreadyExists {
                        assert(ops.take(i as int).contains(ops[i as int]));
                        let ghost j = choose|j: int|
                            0 <= j < i && ops.take(i as int)[j] == ops[i as int];
                        assert(ops.take(k)[j] == ops.take(k)[i as int]);
                    } else {
                        assert(i == MAX_OPERATORS_LEN);
                        assert(ops.take(k) =~= ops.take(i as int).push(ops[i as int]));
                    }
                    return Err(e);
                },
            }
            assert(operators@.take(i + 1) =~= operators@.take(i as int).push(operator));
            i += 1;
        }
        assert(operators@.take(i as int) =~= operators@);
        *self = registry;
        Ok(())
    }

    /// Adds `operator` to the registry.
    pub fn add_operator(&mut self, operator: Pubkey) -> (r: Result<(), EscrowError>)
        requires
            old(self).wf(),
        ensures
            final(self).wf(),
            final(self).admin == old(self).admin,
            match add_operator_error(old(self).operators@, operator) {
                Some(e) => r == Err::<(), EscrowError>(e) && *final(self) == *old(self),
                None => r is Ok && final(self).operators@ == old(self).operators@.push(operator),
            },
    {
        if keys_contain(&self.operators, &operator) {
            return Err(EscrowError::OperatorAlreadyExists);
        }
        if self.operators.len() >= MAX_OPERATORS_LEN {
            return Err(EscrowError::ExceedOperatorLimit);
        }
        self.operators.push(operator);
        Ok(())
    }

    /// Removes `operator` from the registry.
    pub fn remove_operator(&mut self, operator: Pubkey) -> (r: Result<(), EscrowError>)
        requires
            old(self).wf(),
        ensures
            final(self).wf(),
            final(self).admin == old(self).admin,
            match remove_operator_error(old(self).operators@, operator) {
                Some(e) => r == Err::<(), EscrowError>(e) && *final(self) == *old(self),
                None => {
                    &&& r is Ok
                    &&& final(self).operators@ == old(self).operators@.remove_value(operator)
                    &&& final(self).operators@.len() == old(self).operators@.len() - 1
                    &&& final(self).operator_set() == old(self).operator_set().remove(operator)
                },
            },
    {
        let mut i: usize = 0;
        while i < self.operators.len()
            invariant
                0 <= i <= self.operators@.len(),
                *self == *old(self),
                self.wf(),
                forall|j: int| 0 <= j < i ==> self.operators@[j] != operator,
            decreases self.operators.len() - i,
        {
            if self.operators[i] == operator {
                let ghost before = self.operators@;
                proof {
                    before.index_of_first_ensures(operator);
                    lemma_remove_distinct(before, i as int);
                }
                self.operators.remove(i);
                return Ok(());
            }
            i += 1;
        }
        Err(EscrowError::OperatorNotExists)
    }
}

/// Removing the element at `i` from a sequence without repeats removes its value, and only it.
proof fn lemma_remove_distinct(s: Seq<Pubkey>, i: int)
    requires
        s.no_duplicates(),
        0 <= i < s.len(),
    ensures
        s.remove(i).no_duplicates(),
        s.remove(i).to_set() == s.to_set().remove(s[i]),
        s.index_of_first(s[i]) == Some(i),
{
    let r = s.remove(i);
    s.remove_ensures(i);
    s.index_of_first_ensures(s[i]);
    assert(s.contains(s[i]));
    assert forall|y: Pubkey| r.contains(y) <==> (s.contains(y) && y != s[i]) by {
        if r.contains(y) {
            let j = choose|j: int| 0 <= j < r.len() && r[j] == y;
            if j < i {
                assert(s[j] == y);
            } else {
                assert(s[j + 1] == y);
            }
        }
        if s.contains(y) && y != s[i] {
            let j = choose|j: int| 0 <= j < s.len() && s[j] == y;
            if j < i {
                assert(r[j] == y);
            } else {
                assert(r[j - 1] == y);
            }
        }
    }
    assert(r.to_set() =~= s.to_set().remove(s[i]));
    assert forall|a: int, b: int| 0 <= a < r.len() && 0 <= b < r.len() && a != b implies r[a]
        != r[b] by {
        let sa = if a < i { a } else { a + 1 };
        let sb = if b < i { b } else { b + 1 };
        assert(r[a] == s[sa]);
        assert(r[b] == s[sb]);
    }
}

} // verus!
