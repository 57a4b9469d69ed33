use vstd::prelude::*;

verus! {

use crate::decimal::decimal_rep;
use crate::decimal::i32_to_decimal;
use crate::error::ContractError;
use crate::msg::Attribute;
use crate::msg::CountResponse;
use crate::msg::ExecuteMsg;
use crate::msg::HandleResponse;
use crate::msg::InitResponse;
use crate::msg::InstantiateMsg;
use crate::msg::OwnerResponse;
use crate::msg::QueryMsg;
use crate::msg::QueryResponse;
use crate::state::State;
use crate::state::StateModel;
use crate::state::Store;
use vstd::arithmetic::div_mod::lemma_fundamental_div_mod;
use vstd::arithmetic::div_mod::lemma_mod_add_multiples_vanish;
use vstd::arithmetic::div_mod::lemma_mod_adds;
use vstd::arithmetic::div_mod::lemma_mod_bound;
use vstd::arithmetic::div_mod::lemma_mod_multiples_basic;
use vstd::arithmetic::div_mod::lemma_small_mod;
use vstd::wrapping::i32_specs;

// ---------------------------------------------------------------------------
// The transition relation of each operation, at the specification level.
// ---------------------------------------------------------------------------

/// The counter value after one increment: one more, wrapping around at
/// the top of the signed 32-bit range.
pub open spec fn wrap_inc(c: i32) -> i32 {
    i32_specs::wrapping_add(c, 1)
}

/// The record that initialization writes.
pub open spec fn init_state(sender: Seq<char>, count: i32) -> StateModel {
    StateModel { count, owner: sender }
}

/// What incrementing does to the store: the new record, or the error.
pub open spec fn increment_outcome(st: Option<StateModel>) -> Result<
    StateModel,
    ContractError,
> {
    match st {
        Some(m) => Ok(StateModel { count: wrap_inc(m.count), owner: m.owner }),
        None => Err(ContractError::NotFound),
    }
}

/// What resetting does to the store: only the owner may set the counter.
pub open spec fn reset_outcome(st: Option<StateModel>, sender: Seq<char>, count: i32) -> Result<
    StateModel,
    ContractError,
> {
    match st {
        Some(m) => if sender == m.owner {
            Ok(StateModel { count, owner: m.owner })
        } else {
            Err(ContractError::Unauthorized)
        },
        None => Err(ContractError::NotFound),
    }
}

/// What changing the owner does to the store: only the owner may hand over.
pub open spec fn change_owner_outcome(
    st: Option<StateModel>,
    sender: Seq<char>,
    new_owner: Seq<char>,
) -> Result<StateModel, ContractError> {
    match st {
        Some(m) => if sender == m.owner {
            Ok(StateModel { count: m.count, owner: new_owner })
        } else {
            Err(ContractError::Unauthorized)
        },
        None => Err(ContractError::NotFound),
    }
}

/// The outcome of one mutating operation, by message.
pub open spec fn handle_outcome(
    st: Option<StateModel>,
    sender: Seq<char>,
    msg: ExecuteMsg,
) -> Result<StateModel, ContractError> {
    match msg {
        ExecuteMsg::Increment => increment_outcome(st),
        ExecuteMsg::Reset { count } => reset_outcome(st, sender, count),
        ExecuteMsg::ChangeOwner { new_owner } => change_owner_outcome(st, sender, new_owner@),
    }
}

/// The method name each mutating operation reports in its attributes.
pub open spec fn method_name(msg: ExecuteMsg) -> Seq<char> {
    match msg {
        ExecuteMsg::Increment => "try_increment"@,
        ExecuteMsg::Reset { .. } => "reset"@,
        ExecuteMsg::ChangeOwner { .. } => "try_change_owner"@,
    }
}

/// What the counter query answers.
pub open spec fn count_outcome(st: Option<StateModel>) -> Result<i32, ContractError> {
    match st {
        Some(m) => Ok(m.count),
        None => Err(ContractError::NotFound),
    }
}

/// What the owner query answers.
pub open spec fn owner_outcome(st: Option<StateModel>) -> Result<Seq<char>, ContractError> {
    match st {
        Some(m) => Ok(m.owner),
        None => Err(ContractError::NotFound),
    }
}

/// The attribute list of a mutating operation: the method name alone.
pub open spec fn single_method_attr(attrs: Seq<Attribute>, method: Seq<char>) -> bool {
    &&& attrs.len() == 1
    &&& attrs[0].key@ == "method"@
    &&& attrs[0].value@ == method
}

/// The attribute list of initialization: method name, owner, and the
/// initial count rendered in decimal.
pub open spec fn init_attrs(attrs: Seq<Attribute>, owner: Seq<char>, count: i32) -> bool {
    &&& attrs.len() == 3
    &&& attrs[0].key@ == "method"@
    &&& attrs[0].value@ == "instantiate"@
    &&& attrs[1].key@ == "owner"@
    &&& attrs[1].value@ == owner
    &&& attrs[2].key@ == "count"@
    &&& attrs[2].value@ == decimal_rep(count as int)
}

/// How every mutating handler relates its result to the transition
/// relation: on success the outcome is persisted and the response names
/// the method; on failure the store is left untouched and the outcome's
/// error is returned.
pub open spec fn handler_post(
    pre: Option<StateModel>,
    post: Option<StateModel>,
    outcome: Result<StateModel, ContractError>,
    r: Result<HandleResponse, ContractError>,
    method: Seq<char>,
) -> bool {
    match outcome {
        Ok(m) => {
            &&& post == Some(m)
            &&& r matches Ok(resp) && single_method_attr(resp.attributes@, method)
        },
        Err(e) => {
            &&& post == pre
            &&& r matches Err(a) && a == e
        },
    }
}

// ---------------------------------------------------------------------------
// Handlers.
// ---------------------------------------------------------------------------

/// Builds the attribute list that names the handling method.
fn method_attrs(method: &str) -> (v: Vec<Attribute>)
    ensures
        single_method_attr(v@, method@),
{
    let mut v: Vec<Attribute> = Vec::new();
    v.push(Attribute { key: String::from_str("method"), value: String::from_str(method) });
    v
}

/// Creates the record with the given count and the sender as owner,
/// overwriting any previous record.  Always succeeds.
pub fn init(store: &mut Store, sender: String, msg: InstantiateMsg) -> (r: Result<
    InitResponse,
    ContractError,
>)
    ensures
        final(store)@ == Some(init_state(sender@, msg.count)),
        r matches Ok(resp) && init_attrs(resp.attributes@, sender@, msg.count),
{
    let state = State { count: msg.count, owner: sender.clone() };
    store.save(state);
    let count_str = i32_to_decimal(msg.count);
    let mut attributes: Vec<Attribute> = Vec::new();
    attributes.push(
        Attribute { key: String::from_str("method"), value: String::from_str("instantiate") },
    );
    attributes.push(Attribute { key: String::from_str("owner"), value: sender });
    attributes.push(Attribute { key: String::from_str("count"), value: count_str });
    Ok(InitResponse { attributes })
}

/// Dispatches one mutating operation to its handler.
pub fn handle(store: &mut Store, sender: &String, msg: ExecuteMsg) -> (r: Result<
    HandleResponse,
    ContractError,
>)
    ensures
        handler_post(
            old(store)@,
            final(store)@,
            handle_outcome(old(store)@, sender@, msg),
            r,
            method_name(msg),
        ),
{
    match msg {
        ExecuteMsg::Increment => try_increment(store),
        ExecuteMsg::Reset { count } => try_reset(store, sender, count),
        ExecuteMsg::ChangeOwner { new_owner } => try_change_owner(store, sender, new_owner),
    }
}

/// Adds one to the counter, wrapping around at the top of the signed
/// 32-bit range.  No authorization; fails only while the store is empty.
pub fn try_increment(store: &mut Store) -> (r: Result<HandleResponse, ContractError>)
    ensures
        handler_post(
            old(store)@,
            final(store)@,
            increment_outcome(old(store)@),
            r,
            "try_increment"@,
        ),
{
    let st = match store.load() {
        Ok(s) => s,
        Err(e) => {
            return Err(e);
        },
    };
    store.save(State { count: st.count.wrapping_add(1), owner: st.owner });
    Ok(HandleResponse { attributes: method_attrs("try_increment") })
}

/// Sets the counter to the given value if the sender is the owner;
/// otherwise fails with `Unauthorized` and leaves the store untouched.
pub fn try_reset(store: &mut Store, sender: &String, count: i32) -> (r: Result<
    HandleResponse,
    ContractError,
>)
    ensures
        handler_post(
            old(store)@,
            final(store)@,
            reset_outcome(old(store)@, sender@, count),
            r,
            "reset"@,
        ),
{
    let st = match store.load() {
        Ok(s) => s,
        Err(e) => {
            return Err(e);
        },
    };
    if !(*sender == st.owner) {
        return Err(ContractError::Unauthorized);
    }
    store.save(State { count, owner: st.owner });
    Ok(HandleResponse { attributes: method_attrs("reset") })
}

/// Hands ownership to `new_owner` if the sender is the owner; otherwise
/// fails with `Unauthorized` and leaves the store untouched.
pub fn try_change_owner(store: &mut Store, sender: &String, new_owner: String) -> (r: Result<
    HandleResponse,
    ContractError,
>)
    ensures
        handler_post(
            old(store)@,
            final(store)@,
            change_owner_outcome(old(store)@, sender@, new_owner@),
            r,
            "try_change_owner"@,
        ),
{
    let st = match store.load() {
        Ok(s) => s,
        Err(e) => {
            return Err(e);
        },
    };
    if !(*sender == st.owner) {
        return Err(ContractError::Unauthorized);
    }
    store.save(State { count: st.count, owner: new_owner });
    Ok(HandleResponse { attributes: method_attrs("try_change_owner") })
}

/// Dispatches one query.
pub fn query(store: &Store, msg: QueryMsg) -> (r: Result<QueryResponse, ContractError>)
    ensures
        match msg {
            QueryMsg::GetCount => match count_outcome(store@) {
                Ok(c) => r matches Ok(QueryResponse::Count(resp)) && resp.count == c,
                Err(e) => r matches Err(a) && a == e,
            },
            QueryMsg::GetOwner => match owner_outcome(store@) {
                Ok(o) => r matches Ok(QueryResponse::Owner(resp)) && resp.owner@ == o,
                Err(e) => r matches Err(a) && a == e,
            },
        },
{
    match msg {
        QueryMsg::GetCount => match query_count(store) {
            Ok(resp) => Ok(QueryResponse::Count(resp)),
            Err(e) => Err(e),
        },
        QueryMsg::GetOwner => match query_owner(store) {
            Ok(resp) => Ok(QueryResponse::Owner(resp)),
            Err(e) => Err(e),
        },
    }
}

/// Returns the counter, or `NotFound` while the store is empty.
pub fn query_count(store: &Store) -> (r: Result<CountResponse, ContractError>)
    ensures
        match count_outcome(store@) {
            Ok(c) => r matches Ok(resp) && resp.count == c,
            Err(e) => r matches Err(a) && a == e,
        },
{
    match store.load() {
        Ok(st) => Ok(CountResponse { count: st.count }),
        Err(e) => Err(e),
    }
}

/// Returns the owner, or `NotFound` while the store is empty.
pub fn query_owner(store: &Store) -> (r: Result<OwnerResponse, ContractError>)
    ensures
        match owner_outcome(store@) {
            Ok(o) => r matches Ok(resp) && resp.owner@ == o,
            Err(e) => r matches Err(a) && a == e,
        },
{
    match store.load() {
        Ok(st) => Ok(OwnerResponse { owner: st.owner }),
        Err(e) => Err(e),
    }
}

// ---------------------------------------------------------------------------
// Laws relating the operations.
// ---------------------------------------------------------------------------

/// Initializing with count `c` and then querying returns `c` for the
/// counter, and the initializer for the owner.
pub proof fn lemma_init_then_query(sender: Seq<char>, c: i32)
    ensures
        count_outcome(Some(init_state(sender, c))) == Ok::<i32, ContractError>(c),
        owner_outcome(Some(init_state(sender, c))) == Ok::<Seq<char>, ContractError>(sender),
{
}

/// The store after `n` increments, each applied as the handler applies
/// it: a successful outcome is persisted, a failed one leaves the store
/// as it was.
pub open spec fn store_after_increments(st: Option<StateModel>, n: nat) -> Option<StateModel>
    decreases n,
{
    if n == 0 {
        st
    } else {
        let prev = store_after_increments(st, (n - 1) as nat);
        match increment_outcome(prev) {
            Ok(m) => Some(m),
            Err(_) => prev,
        }
    }
}

/// Every signed 32-bit value is a fixed point of `signed_crop`.
proof fn lemma_signed_crop_in_range(c: i32)
    ensures
        i32_specs::signed_crop(c as int) == c,
{
    let m = 0x1_0000_0000int;
    if c >= 0 {
        lemma_small_mod(c as nat, m as nat);
    } else {
        lemma_mod_add_multiples_vanish(c as int, m);
        lemma_small_mod((c + m) as nat, m as nat);
    }
}

/// Wrapping increment commutes with reduction into the signed 32-bit
/// range.
proof fn lemma_wrap_inc_crop(x: int)
    ensures
        wrap_inc(i32_specs::signed_crop(x)) == i32_specs::signed_crop(x + 1),
{
    let m = 0x1_0000_0000int;
    lemma_mod_bound(x, m);
    lemma_mod_bound(x + 1, m);
    let r = x % m;
    if r + 1 < m {
        lemma_mod_adds(x, 1, m);
        assert((x + 1) % m == r + 1);
    } else {
        lemma_fundamental_div_mod(x, m);
        assert(x + 1 == (x / m + 1) * m);
        lemma_mod_multiples_basic(x / m + 1, m);
        assert((x + 1) % m == 0);
    }
}

/// `n` increments starting from a record with count `c` leave the owner
/// unchanged and the counter at `c + n`, modulo the wraparound of the
/// signed 32-bit range.
pub proof fn lemma_increments_accumulate(m: StateModel, n: nat)
    ensures
        store_after_increments(Some(m), n) == Some(
            StateModel { count: i32_specs::signed_crop(m.count + n), owner: m.owner },
        ),
    decreases n,
{
    if n == 0 {
        lemma_signed_crop_in_range(m.count);
        assert(StateModel { count: i32_specs::signed_crop(m.count + n), owner: m.owner } =~= m);
    } else {
        lemma_increments_accumulate(m, (n - 1) as nat);
        lemma_wrap_inc_crop(m.count + n - 1);
    }
}

/// Reset by the owner sets the counter to `v` whatever its prior value;
/// reset by anyone else is refused as `Unauthorized` (and the handler's
/// contract then leaves the store untouched).
pub proof fn lemma_reset_authorization(m: StateModel, sender: Seq<char>, v: i32)
    ensures
        sender == m.owner ==> reset_outcome(Some(m), sender, v) == Ok::<
            StateModel,
            ContractError,
        >(StateModel { count: v, owner: m.owner }),
        sender != m.owner ==> reset_outcome(Some(m), sender, v) == Err::<
            StateModel,
            ContractError,
        >(ContractError::Unauthorized),
{
}

/// Handing ownership over succeeds for the current owner and moves the
/// authority with it: a later reset by the old owner is refused, while
/// one by the new owner succeeds.
pub proof fn lemma_change_owner_transfers_authority(m: StateModel, new_owner: Seq<char>, v: i32)
    requires
        new_owner != m.owner,
    ensures
        change_owner_outcome(Some(m), m.owner, new_owner) == Ok::<StateModel, ContractError>(
            StateModel { count: m.count, owner: new_owner },
        ),
        reset_outcome(Some(StateModel { count: m.count, owner: new_owner }), m.owner, v)
            == Err::<StateModel, ContractError>(ContractError::Unauthorized),
        reset_outcome(Some(StateModel { count: m.count, owner: new_owner }), new_owner, v)
            == Ok::<StateModel, ContractError>(StateModel { count: v, owner: new_owner }),
{
}

/// Before initialization both queries fail with `NotFound`.
pub proof fn lemma_query_before_init()
    ensures
        count_outcome(None) == Err::<i32, ContractError>(ContractError::NotFound),
        owner_outcome(None) == Err::<Seq<char>, ContractError>(ContractError::NotFound),
{
}

} // verus!
