use vstd::prelude::*;

verus! {

/// Request to create the record, with the initial counter value.
pub struct InstantiateMsg {
    pub count: i32,
}

/// The mutating operations.
pub enum ExecuteMsg {
    /// Add one to the counter; any caller may do this.
    Increment,
    /// Set the counter to `count`; only the owner may do this.
    Reset { count: i32 },
    /// Hand ownership to `new_owner`; only the owner may do this.
    ChangeOwner { new_owner: String },
}

/// The read-only queries.
pub enum QueryMsg {
    GetCount,
    GetOwner,
}

/// Answer to `GetCount`.
#[derive(Debug)]
pub struct CountResponse {
    pub count: i32,
}

/// Answer to `GetOwner`.
#[derive(Debug)]
pub struct OwnerResponse {
    pub owner: String,
}

/// Answer to a query, one variant per query kind.
#[derive(Debug)]
pub enum QueryResponse {
    Count(CountResponse),
    Owner(OwnerResponse),
}

/// One descriptive key/value pair emitted for observability.
#[derive(Debug)]
pub struct Attribute {
    pub key: String,
    pub value: String,
}

/// What initialization returns: descriptive attributes only.
#[derive(Debug)]
pub struct InitResponse {
    pub attributes: Vec<Attribute>,
}

/// What a mutating operation returns: descriptive attributes only.
#[derive(Debug)]
pub struct HandleResponse {
    pub attributes: Vec<Attribute>,
}

} // verus!
