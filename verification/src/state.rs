use vstd::prelude::*;

verus! {

use crate::error::ContractError;

/// The single persisted record: a counter value and the identity of the
/// owner, the one caller allowed to reset the counter or hand it over.
pub struct State {
    pub count: i32,
    pub owner: String,
}

/// Mathematical model of a record: the counter value together with the
/// owner identity as a sequence of characters.
#[verifier::ext_equal]
pub ghost struct StateModel {
    pub count: i32,
    pub owner: Seq<char>,
}

impl View for State {
    type V = StateModel;

    open spec fn view(&self) -> StateModel {
        StateModel { count: self.count, owner: self.owner@ }
    }
}

/// The state store: holds at most one record.  It starts empty and stays
/// empty until a record is first saved, which is what initialization does.
pub struct Store {
    record: Option<State>,
}

impl View for Store {
    type V = Option<StateModel>;

    closed spec fn view(&self) -> Option<StateModel> {
        match self.record {
            Some(s) => Some(s@),
            None => None,
        }
    }
}

impl Store {
    /// A store in which no record has been written yet.
    pub fn new() -> (s: Store)
        ensures
            s@ is None,
    {
        Store { record: None }
    }

    /// Overwrites the record unconditionally.
    pub fn save(&mut self, state: State)
        ensures
            final(self)@ == Some(state@),
    {
        self.record = Some(state);
    }

    /// Returns a copy of the record, or `NotFound` while the store is empty.
    pub fn load(&self) -> (r: Result<State, ContractError>)
        ensures
            match self@ {
                Some(m) => r matches Ok(s) && s@ == m,
                None => r matches Err(e) && e == ContractError::NotFound,
            },
    {
        match &self.record {
            Some(s) => Ok(State { count: s.count, owner: s.owner.clone() }),
            None => Err(ContractError::NotFound),
        }
    }

    /// The record as stored, for callers that persist it elsewhere.
    pub fn record(&self) -> (r: &Option<State>)
        ensures
            (*r) is Some <==> self@ is Some,
            (*r) matches Some(s) ==> self@ == Some(s@),
    {
        &self.record
    }
}

} // verus!
