use vstd::prelude::*;

use crate::codegen::{Getter, NamedParam, ParamPlan};

verus! {

/// A field that could not be decoded from its column.
#[derive(Debug, PartialEq, Eq)]
pub struct DecodeError {
    /// The field that was being filled.
    pub field: String,
    /// The column that was read.
    pub column: String,
    /// Why the conversion failed.
    pub cause: String,
}

/// A field that could not be converted into a statement parameter.
#[derive(Debug, PartialEq, Eq)]
pub struct EncodeError {
    /// The field that was being bound.
    pub field: String,
    /// Why the conversion failed.
    pub cause: String,
}

/// The number of fields whose outcome is known: one outcome per plan entry, in plan order.
pub open spec fn known(n_plan: int, n_outcomes: int) -> int {
    if n_plan < n_outcomes {
        n_plan
    } else {
        n_outcomes
    }
}

/// Entry `i` is the first failure among the first `n` outcomes.
pub open spec fn is_first_failure(outcomes: Seq<Result<(), String>>, n: int, i: int) -> bool {
    &&& 0 <= i < n
    &&& outcomes[i] is Err
    &&& forall|j: int| 0 <= j < i ==> #[trigger] outcomes[j] is Ok
}

/// The field that parameter `p` binds.
pub open spec fn param_field(p: NamedParam) -> Seq<char> {
    match p.value {
        ParamPlan::Borrowed { field } => field@,
        ParamPlan::Boxed { field, .. } => field@,
    }
}

impl NamedParam {
    /// The field that this parameter binds.
    pub fn field(&self) -> (r: &String)
        ensures
            r@ == param_field(*self),
    {
        match &self.value {
            ParamPlan::Borrowed { field } => field,
            ParamPlan::Boxed { field, .. } => field,
        }
    }
}

/// The first failure among per-field outcomes, in plan order.
fn first_failure(outcomes: &Vec<Result<(), String>>, n: usize) -> (r: Option<usize>)
    requires
        n <= outcomes@.len(),
    ensures
        match r {
            Some(i) => is_first_failure(outcomes@, n as int, i as int),
            None => forall|j: int| 0 <= j < n ==> #[trigger] outcomes@[j] is Ok,
        },
{
    let mut i: usize = 0;
    while i < n
        invariant
            n <= outcomes@.len(),
            i <= n,
            forall|j: int| 0 <= j < i ==> #[trigger] outcomes@[j] is Ok,
        decreases n - i,
    {
        if outcomes[i].is_err() {
            return Some(i);
        }
        i = i + 1;
    }
    None
}

/// Decoding is all or nothing: given the outcome of reading each field, in the order of the
/// decode plan, the decode fails with the first field that failed, naming its field and
/// column and the cause.
pub fn decode_outcome(getters: &Vec<Getter>, outcomes: &Vec<Result<(), String>>) -> (r: Result<(), DecodeError>)
    ensures
        match r {
            Ok(()) => forall|j: int| 0 <= j < known(getters@.len() as int, outcomes@.len() as int)
                ==> #[trigger] outcomes@[j] is Ok,
            Err(e) => exists|i: int| {
                &&& is_first_failure(outcomes@, known(getters@.len() as int, outcomes@.len() as int), i)
                &&& e.field@ == getters@[i].field@
                &&& e.column@ == getters@[i].column@
                &&& Err::<(), String>(e.cause) == outcomes@[i]
            },
        },
{
    let n = if getters.len() < outcomes.len() { getters.len() } else { outcomes.len() };
    match first_failure(outcomes, n) {
        None => Ok(()),
        Some(i) => {
            let cause = match &outcomes[i] {
                Err(c) => c.clone(),
                Ok(()) => String::new(),
            };
            Err(DecodeError {
                field: getters[i].field.clone(),
                column: getters[i].column.clone(),
                cause,
            })
        },
    }
}

/// Encoding is all or nothing: given the outcome of converting each field, in the order of
/// the parameter list, the encode fails with the first field that failed, naming it and the
/// cause.
pub fn encode_outcome(params: &Vec<NamedParam>, outcomes: &Vec<Result<(), String>>) -> (r: Result<(), EncodeError>)
    ensures
        match r {
            Ok(()) => forall|j: int| 0 <= j < known(params@.len() as int, outcomes@.len() as int)
                ==> #[trigger] outcomes@[j] is Ok,
            Err(e) => exists|i: int| {
                &&& is_first_failure(outcomes@, known(params@.len() as int, outcomes@.len() as int), i)
                &&& e.field@ == param_field(params@[i])
                &&& Err::<(), String>(e.cause) == outcomes@[i]
            },
        },
{
    let n = if params.len() < outcomes.len() { params.len() } else { outcomes.len() };
    match first_failure(outcomes, n) {
        None => Ok(()),
        Some(i) => {
            let cause = match &outcomes[i] {
                Err(c) => c.clone(),
                Ok(()) => String::new(),
            };
            Err(EncodeError { field: params[i].field().clone(), cause })
        },
    }
}

} // verus!
