//! Binding values to the parameters of a prepared statement.
//!
//! A statement's parameters are addressed by a 1-based slot. A slot outside
//! the statement's range is refused before anything is bound, and so is any
//! binding in the middle of a run. A name that the statement does not hold is
//! reported. A reset keeps what was bound: the record of the bindings is held
//! here and bound again after the engine has rewound the statement.

use vstd::prelude::*;
use limbo_core::{OwnedValue, Statement};
use crate::drive::RunState;

verus! {

/// The engine's prepared statement, carried through as it is.
#[verifier::external_type_specification]
#[verifier::external_body]
pub struct ExStatement(Statement);

/// The engine's value, carried through as it is.
#[verifier::external_type_specification]
#[verifier::external_body]
pub struct ExOwnedValue(OwnedValue);

/// The values that are bound to a statement's slots.
pub uninterp spec fn bindings(statement: Statement) -> Map<int, OwnedValue>;

/// The number of parameter slots that a statement's program refers to.
pub uninterp spec fn slots(statement: Statement) -> nat;

/// The slot that a statement's program gives to a named parameter.
pub uninterp spec fn slot_of(statement: Statement, name: Seq<char>) -> Option<int>;

/// The table that holds no binding.
pub open spec fn no_bindings() -> Map<int, OwnedValue> {
    Map::empty()
}

/// True when two statements have the same parameters: as many slots, and
/// every name at the same slot.
pub open spec fn same_parameters(a: Statement, b: Statement) -> bool {
    &&& slots(a) == slots(b)
    &&& forall|name: Seq<char>| #[trigger] slot_of(a, name) == slot_of(b, name)
}

/// Calls `Statement::parameters` and `Parameters::count`. Trusted: the
/// result is the statement's number of slots, which depends on its program
/// alone.
#[verifier::external_body]
fn parameter_count(statement: &Statement) -> (n: usize)
    ensures
        n == slots(*statement),
{
    statement.parameters().count()
}

/// Calls `Statement::parameters` and `Parameters::index`. Trusted: the
/// result is the slot that the program gives to the name, if it holds the
/// name, and a slot is never zero.
#[verifier::external_body]
fn parameter_index(statement: &Statement, name: &str) -> (slot: Option<usize>)
    ensures
        slot.is_some() == slot_of(*statement, name@).is_some(),
        slot.is_some() ==> slot.unwrap() == slot_of(*statement, name@).unwrap(),
        slot.is_some() ==> slot.unwrap() >= 1,
{
    match statement.parameters().index(name) {
        Some(slot) => Some(slot.get()),
        None => None,
    }
}

/// Calls `Statement::bind_at`. Trusted: the value is put into the table of
/// bindings at the slot, in place of what was there, and the statement's
/// parameters stay as they are.
#[verifier::external_body]
fn bind_slot(statement: &mut Statement, slot: usize, value: OwnedValue)
    requires
        slot >= 1,
    ensures
        bindings(*final(statement)) == bindings(*old(statement)).insert(slot as int, value),
        same_parameters(*final(statement), *old(statement)),
{
    statement.bind_at(std::num::NonZero::new(slot).unwrap(), value);
}

/// Calls `Statement::reset`. Trusted: the statement is rewound to its start,
/// its table of bindings is emptied, and its parameters stay as they are.
#[verifier::external_body]
fn rewind(statement: &mut Statement)
    ensures
        bindings(*final(statement)) == no_bindings(),
        same_parameters(*final(statement), *old(statement)),
{
    statement.reset();
}

/// Calls `OwnedValue::clone`. Trusted: the copy is the value.
#[verifier::external_body]
fn copy_value(value: &OwnedValue) -> (copy: OwnedValue)
    ensures
        copy == *value,
{
    value.clone()
}

/// Why a parameter could not be bound or found.
#[derive(Clone, Copy, Debug, PartialEq, Eq, Structural)]
pub enum BindError {
    /// The statement is in the middle of a run.
    Running,
    /// The slot is zero or above the statement's number of slots.
    OutOfRange,
    /// The statement's program refers to no parameter of that name.
    NoSuchParameter,
}

/// What binding to `slot` gives for a statement of `count` slots whose run
/// stands at `state`.
pub open spec fn bind_result(state: RunState, slot: usize, count: nat) -> Result<(), BindError> {
    if state == RunState::Running {
        Err(BindError::Running)
    } else if slot < 1 || slot > count {
        Err(BindError::OutOfRange)
    } else {
        Ok(())
    }
}

/// The table that results from binding `entries` one after another: a later
/// entry for a slot replaces an earlier one.
pub open spec fn table_of(entries: Seq<(usize, OwnedValue)>) -> Map<int, OwnedValue>
    decreases entries.len(),
{
    if entries.len() == 0 {
        Map::empty()
    } else {
        table_of(entries.drop_last()).insert(entries.last().0 as int, entries.last().1)
    }
}

/// The number of parameter slots of the statement.
pub fn count(statement: &Statement) -> (n: usize)
    ensures
        n == slots(*statement),
{
    parameter_count(statement)
}

/// The slot of the parameter called `name`.
pub fn index(statement: &Statement, name: &str) -> (slot: Result<usize, BindError>)
    ensures
        slot.is_ok() == slot_of(*statement, name@).is_some(),
        slot.is_ok() ==> slot.unwrap() == slot_of(*statement, name@).unwrap() && slot.unwrap() >= 1,
        slot.is_err() ==> slot.unwrap_err() == BindError::NoSuchParameter,
{
    match parameter_index(statement, name) {
        Some(i) => Ok(i),
        None => Err(BindError::NoSuchParameter),
    }
}

/// The record of what was bound to a statement, in the order of the calls.
pub struct Bindings {
    entries: Vec<(usize, OwnedValue)>,
}

impl View for Bindings {
    type V = Map<int, OwnedValue>;

    closed spec fn view(&self) -> Map<int, OwnedValue> {
        table_of(self.entries@)
    }
}

impl Bindings {
    /// True when every recorded slot is a slot: none is zero.
    pub closed spec fn well_formed(&self) -> bool {
        forall|i: int| 0 <= i < self.entries.len() ==> (#[trigger] self.entries[i]).0 >= 1
    }

    /// A record that holds nothing.
    pub fn new() -> (record: Self)
        ensures
            record.well_formed(),
            record@ == no_bindings(),
    {
        Bindings { entries: Vec::new() }
    }

    /// Binds `value` to `slot` of the statement and records it. `state`
    /// tells where the run of the statement stands: while it is running,
    /// nothing may be bound. A slot outside `1..=count` is refused. Where the
    /// call is refused, nothing changes.
    pub fn bind_at(
        &mut self,
        statement: &mut Statement,
        state: RunState,
        slot: usize,
        value: OwnedValue,
    ) -> (done: Result<(), BindError>)
        requires
            old(self).well_formed(),
        ensures
            final(self).well_formed(),
            done == bind_result(state, slot, slots(*old(statement))),
            done.is_err() ==> *final(statement) == *old(statement) && final(self)@ == old(self)@,
            done.is_ok() ==> bindings(*final(statement)) == bindings(*old(statement)).insert(
                slot as int,
                value,
            ),
            done.is_ok() ==> final(self)@ == old(self)@.insert(slot as int, value),
            same_parameters(*final(statement), *old(statement)),
    {
        if state == RunState::Running {
            return Err(BindError::Running);
        }
        if slot == 0 || slot > parameter_count(statement) {
            return Err(BindError::OutOfRange);
        }
        let copy = copy_value(&value);
        bind_slot(statement, slot, value);
        self.entries.push((slot, copy));
        proof {
            assert(self.entries@.drop_last() =~= old(self).entries@);
        }
        Ok(())
    }

    /// Rewinds the statement for another run and binds again what the record
    /// holds, so that the bindings outlast the reset. The statement's
    /// parameters stay as they are.
    pub fn reset(&self, statement: &mut Statement)
        requires
            self.well_formed(),
        ensures
            bindings(*final(statement)) == self@,
            same_parameters(*final(statement), *old(statement)),
    {
        rewind(statement);
        let mut i: usize = 0;
        while i < self.entries.len()
            invariant
                i <= self.entries.len(),
                forall|k: int| 0 <= k < self.entries.len() ==> (#[trigger] self.entries[k]).0 >= 1,
                bindings(*statement) == table_of(self.entries@.take(i as int)),
                same_parameters(*statement, *old(statement)),
            decreases self.entries.len() - i,
        {
            let slot = self.entries[i].0;
            let value = copy_value(&self.entries[i].1);
            bind_slot(statement, slot, value);
            proof {
                let next = self.entries@.take(i + 1);
                assert(next.drop_last() =~= self.entries@.take(i as int));
                assert(next.last() == self.entries@[i as int]);
            }
            i = i + 1;
        }
        proof {
            assert(self.entries@.take(i as int) =~= self.entries@);
        }
    }
}

} // verus!
