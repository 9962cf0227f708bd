//! The oracle contract's entry transitions: admin-controlled registry
//! maintenance, relayer liveness pings, the trigger switch, and the price
//! request that drives the rotation scheduler and emits the correlatable
//! event.

use vstd::prelude::*;
use vstd::string::*;
use crate::events::Attribute;
use crate::feed::errors::ContractError;
use crate::feed::helpers::{EventType, generate_oracle_event, oracle_event_matches};
use crate::feed::msg::{ExecuteMsg, InstantiateMsg, QueryAnswer, QueryMsg, Response};
use crate::feed::rotation::{select, selected_relayer};
use crate::feed::state::{
    FeedState, same_but_admin, same_but_last, same_but_pings, same_but_relayers, same_but_trigger,
};
use crate::feed::version::{contract_name, contract_version, contract_name_spec,
    contract_version_spec};
use crate::kvlist::KvList;
use crate::text::{dec_digits, str_eq, u64_to_dec};

verus! {

/// Some identity in the list reads as `q`.
pub open spec fn in_list(ids: Seq<String>, q: Seq<char>, n: int) -> bool {
    exists|i: int| 0 <= i < n && i < ids.len() && (#[trigger] ids[i])@ == q
}

/// Sets the deployer up as admin, median queries on, price requests off, and
/// every store empty.
pub fn instantiate(sender: String, msg: InstantiateMsg) -> (r: (FeedState, Response))
    ensures
        r.0.wf(),
        r.0.contract_name@ == contract_name_spec(),
        r.0.contract_version@ == contract_version_spec(),
        r.0.admin == sender,
        r.0.median_status,
        !r.0.trigger,
        r.0.ping_threshold == msg.ping_threshold,
        r.0.last_relayer is None,
        forall|q: Seq<char>| !(#[trigger] r.0.is_member(q)),
        forall|q: Seq<char>| #[trigger] r.0.pings.spec_get(q) is None,
        forall|q: Seq<char>| #[trigger] r.0.rates.spec_get(q) is None,
        forall|q: Seq<char>| #[trigger] r.0.medians.spec_get(q) is None,
        forall|q: Seq<char>| #[trigger] r.0.deviations.spec_get(q) is None,
        r.1.attributes@.len() == 0,
        r.1.events@.len() == 0,
{
    let state = FeedState {
        contract_name: contract_name().to_owned(),
        contract_version: contract_version().to_owned(),
        admin: sender,
        relayers: KvList::empty(),
        pings: KvList::empty(),
        median_status: true,
        trigger: false,
        ping_threshold: msg.ping_threshold,
        last_relayer: None,
        rates: KvList::empty(),
        medians: KvList::empty(),
        deviations: KvList::empty(),
    };
    (state, Response { attributes: Vec::new(), events: Vec::new() })
}

/// The exact outcome of an add-relayers call: rejected whole for anyone but
/// the admin, otherwise each listed identity becomes a member.
pub open spec fn add_relayers_outcome(
    pre: FeedState,
    post: FeedState,
    r: Result<Response, ContractError>,
    sender: Seq<char>,
    relayers: Seq<String>,
) -> bool {
    if sender != pre.admin@ {
        &&& r matches Err(e) && e == (ContractError::UnauthorizedAdmin {})
        &&& post == pre
    } else {
        &&& r matches Ok(resp) && resp.attributes@.len() == 1 && resp.attributes@[0].key@
            == "action"@ && resp.attributes@[0].value@ == "add_relayers"@ && resp.events@.len()
            == 0
        &&& same_but_relayers(post, pre)
        &&& forall|q: Seq<char>|
            #[trigger] post.is_member(q) <==> (pre.is_member(q) || in_list(
                relayers,
                q,
                relayers.len() as int,
            ))
    }
}

/// Whitelists the listed identities as relayers; only the admin may, and a
/// rejected call changes no membership. Adding a present member is
/// idempotent.
pub fn execute_add_relayers(state: &mut FeedState, sender: &String, relayers: Vec<String>) -> (r:
    Result<Response, ContractError>)
    requires
        old(state).wf(),
    ensures
        final(state).wf(),
        add_relayers_outcome(*old(state), *final(state), r, sender@, relayers@),
{
    if !str_eq(sender.as_str(), state.admin.as_str()) {
        return Err(ContractError::UnauthorizedAdmin {});
    }
    let n = relayers.len();
    let mut i: usize = 0;
    while i < n
        invariant
            i <= n,
            n == relayers@.len(),
            state.wf(),
            same_but_relayers(*state, *old(state)),
            forall|q: Seq<char>|
                #[trigger] state.is_member(q) <==> (old(state).is_member(q) || in_list(
                    relayers@,
                    q,
                    i as int,
                )),
        decreases n - i,
    {
        let ghost before = *state;
        state.relayers.set(relayers[i].clone(), true);
        proof {
            let s0 = relayers@[i as int]@;
            assert forall|q: Seq<char>|
                #[trigger] state.is_member(q) <==> (old(state).is_member(q) || in_list(
                    relayers@,
                    q,
                    i as int + 1,
                )) by {
                assert(before.is_member(q) <==> (old(state).is_member(q) || in_list(
                    relayers@,
                    q,
                    i as int,
                )));
                if q == s0 {
                    assert(state.relayers.spec_get(q) == Some(true));
                    assert(in_list(relayers@, q, i as int + 1));
                } else {
                    assert(state.relayers.spec_get(q) == before.relayers.spec_get(q));
                    if in_list(relayers@, q, i as int + 1) {
                        let j = choose|j: int|
                            0 <= j < i as int + 1 && j < relayers@.len() && (#[trigger] relayers@[j])@
                                == q;
                        assert(j < i as int);
                        assert(in_list(relayers@, q, i as int));
                    }
                    if in_list(relayers@, q, i as int) {
                        let j = choose|j: int|
                            0 <= j < i as int && j < relayers@.len() && (#[trigger] relayers@[j])@
                                == q;
                        assert(in_list(relayers@, q, i as int + 1));
                    }
                }
            }
        }
        i = i + 1;
    }
    let mut attributes: Vec<Attribute> = Vec::new();
    attributes.push(
        Attribute { key: String::from_str("action"), value: String::from_str("add_relayers") },
    );
    Ok(Response { attributes, events: Vec::new() })
}

/// The exact outcome of a remove-relayers call: rejected whole for anyone
/// but the admin, otherwise each listed identity loses membership.
pub open spec fn remove_relayers_outcome(
    pre: FeedState,
    post: FeedState,
    r: Result<Response, ContractError>,
    sender: Seq<char>,
    relayers: Seq<String>,
) -> bool {
    if sender != pre.admin@ {
        &&& r matches Err(e) && e == (ContractError::UnauthorizedAdmin {})
        &&& post == pre
    } else {
        &&& r matches Ok(resp) && resp.attributes@.len() == 1 && resp.attributes@[0].key@
            == "action"@ && resp.attributes@[0].value@ == "remove_relayers"@ && resp.events@.len()
            == 0
        &&& same_but_relayers(post, pre)
        &&& forall|q: Seq<char>|
            #[trigger] post.is_member(q) <==> (pre.is_member(q) && !in_list(
                relayers,
                q,
                relayers.len() as int,
            ))
    }
}

/// Revokes the listed identities' relayer rights; only the admin may.
/// Removing an absent identity is a no-op.
pub fn execute_remove_relayers(state: &mut FeedState, sender: &String, relayers: Vec<String>) -> (r:
    Result<Response, ContractError>)
    requires
        old(state).wf(),
    ensures
        final(state).wf(),
        remove_relayers_outcome(*old(state), *final(state), r, sender@, relayers@),
{
    if !str_eq(sender.as_str(), state.admin.as_str()) {
        return Err(ContractError::UnauthorizedAdmin {});
    }
    let n = relayers.len();
    let mut i: usize = 0;
    while i < n
        invariant
            i <= n,
            n == relayers@.len(),
            state.wf(),
            same_but_relayers(*state, *old(state)),
            forall|q: Seq<char>|
                #[trigger] state.is_member(q) <==> (old(state).is_member(q) && !in_list(
                    relayers@,
                    q,
                    i as int,
                )),
        decreases n - i,
    {
        let ghost before = *state;
        state.relayers.unset(relayers[i].as_str());
        proof {
            let s0 = relayers@[i as int]@;
            assert forall|q: Seq<char>|
                #[trigger] state.is_member(q) <==> (old(state).is_member(q) && !in_list(
                    relayers@,
                    q,
                    i as int + 1,
                )) by {
                assert(before.is_member(q) <==> (old(state).is_member(q) && !in_list(
                    relayers@,
                    q,
                    i as int,
                )));
                if q == s0 {
                    assert(state.relayers.spec_get(q) is None);
                    assert(in_list(relayers@, q, i as int + 1));
                } else {
                    assert(state.relayers.spec_get(q) == before.relayers.spec_get(q));
                    if in_list(relayers@, q, i as int + 1) {
                        let j = choose|j: int|
                            0 <= j < i as int + 1 && j < relayers@.len() && (#[trigger] relayers@[j])@
                                == q;
                        assert(j < i as int);
                        assert(in_list(relayers@, q, i as int));
                    }
                    if in_list(relayers@, q, i as int) {
                        let j = choose|j: int|
                            0 <= j < i as int && j < relayers@.len() && (#[trigger] relayers@[j])@
                                == q;
                        assert(in_list(relayers@, q, i as int + 1));
                    }
                }
            }
        }
        i = i + 1;
    }
    let mut attributes: Vec<Attribute> = Vec::new();
    attributes.push(
        Attribute { key: String::from_str("action"), value: String::from_str("remove_relayers") },
    );
    Ok(Response { attributes, events: Vec::new() })
}

/// The exact outcome of an admin transfer: only the current admin may hand
/// the role over.
pub open spec fn update_admin_outcome(
    pre: FeedState,
    post: FeedState,
    r: Result<Response, ContractError>,
    sender: Seq<char>,
    admin: Seq<char>,
) -> bool {
    if sender != pre.admin@ {
        &&& r matches Err(e) && e == (ContractError::UnauthorizedAdmin {})
        &&& post == pre
    } else {
        &&& r matches Ok(resp) && resp.attributes@.len() == 2 && resp.attributes@[0].key@
            == "action"@ && resp.attributes@[0].value@ == "update_admin"@
            && resp.attributes@[1].key@ == "admin"@ && resp.attributes@[1].value@ == admin
            && resp.events@.len() == 0
        &&& same_but_admin(post, pre)
        &&& post.admin@ == admin
    }
}

/// Transfers the admin role; only the current admin may.
pub fn execute_update_admin(state: &mut FeedState, sender: &String, admin: String) -> (r: Result<
    Response,
    ContractError,
>)
    requires
        old(state).wf(),
    ensures
        final(state).wf(),
        update_admin_outcome(*old(state), *final(state), r, sender@, admin@),
{
    if !str_eq(sender.as_str(), state.admin.as_str()) {
        return Err(ContractError::UnauthorizedAdmin {});
    }
    let mut attributes: Vec<Attribute> = Vec::new();
    attributes.push(
        Attribute { key: String::from_str("action"), value: String::from_str("update_admin") },
    );
    attributes.push(Attribute { key: String::from_str("admin"), value: admin.clone() });
    state.admin = admin;
    Ok(Response { attributes, events: Vec::new() })
}

/// The exact outcome of a liveness ping: only a registered relayer may, and
/// its last-alive time becomes the block time.
pub open spec fn relayer_ping_outcome(
    pre: FeedState,
    post: FeedState,
    r: Result<Response, ContractError>,
    sender: Seq<char>,
    block_time: u64,
) -> bool {
    if !pre.is_member(sender) {
        &&& r matches Err(e) && e matches ContractError::UnauthorizedRelayer { msg } && msg@
            == sender
        &&& post == pre
    } else {
        &&& r matches Ok(resp) && resp.attributes@.len() == 2 && resp.attributes@[0].key@
            == "ping"@ && resp.attributes@[0].value@ == sender && resp.attributes@[1].key@
            == "timestamp"@ && resp.attributes@[1].value@ == dec_digits(block_time as nat)
            && resp.events@.len() == 0
        &&& same_but_pings(post, pre)
        &&& post.pings.spec_get(sender) == Some(block_time)
        &&& forall|q: Seq<char>|
            q != sender ==> #[trigger] post.pings.spec_get(q) == pre.pings.spec_get(q)
    }
}

/// Records the caller as alive at the block time; relayers only.
pub fn execute_relayer_ping(state: &mut FeedState, sender: &String, block_time: u64) -> (r: Result<
    Response,
    ContractError,
>)
    requires
        old(state).wf(),
    ensures
        final(state).wf(),
        relayer_ping_outcome(*old(state), *final(state), r, sender@, block_time),
{
    if !state.relayers.contains_key(sender.as_str()) {
        return Err(ContractError::UnauthorizedRelayer { msg: sender.clone() });
    }
    state.pings.set(sender.clone(), block_time);
    let mut attributes: Vec<Attribute> = Vec::new();
    attributes.push(Attribute { key: String::from_str("ping"), value: sender.clone() });
    attributes.push(
        Attribute { key: String::from_str("timestamp"), value: u64_to_dec(block_time) },
    );
    Ok(Response { attributes, events: Vec::new() })
}

/// The exact outcome of the trigger switch: only the admin may flip it.
pub open spec fn change_trigger_outcome(
    pre: FeedState,
    post: FeedState,
    r: Result<Response, ContractError>,
    sender: Seq<char>,
    trigger: bool,
) -> bool {
    if sender != pre.admin@ {
        &&& r matches Err(e) && e == (ContractError::UnauthorizedAdmin {})
        &&& post == pre
    } else {
        &&& r matches Ok(resp) && resp.attributes@.len() == 1 && resp.attributes@[0].key@
            == "change_trigger"@ && resp.attributes@[0].value@ == (if trigger {
            "true"@
        } else {
            "false"@
        }) && resp.events@.len() == 0
        &&& same_but_trigger(post, pre)
        &&& post.trigger == trigger
    }
}

/// Switches price requests on or off; only the admin may.
pub fn execute_change_trigger(state: &mut FeedState, sender: &String, trigger: bool) -> (r: Result<
    Response,
    ContractError,
>)
    requires
        old(state).wf(),
    ensures
        final(state).wf(),
        change_trigger_outcome(*old(state), *final(state), r, sender@, trigger),
{
    if !str_eq(sender.as_str(), state.admin.as_str()) {
        return Err(ContractError::UnauthorizedAdmin {});
    }
    state.trigger = trigger;
    let value = if trigger {
        String::from_str("true")
    } else {
        String::from_str("false")
    };
    let mut attributes: Vec<Attribute> = Vec::new();
    attributes.push(Attribute { key: String::from_str("change_trigger"), value });
    Ok(Response { attributes, events: Vec::new() })
}

/// The correlation id a request synthesizes: the caller's identity, an
/// underscore, and the block time in decimal.
pub open spec fn request_id_of(sender: Seq<char>, block_time: u64) -> Seq<char> {
    sender + seq!['_'] + dec_digits(block_time as nat)
}

/// The exact outcome of a price request: refused while the trigger is off;
/// failing — with the cursor untouched — when no relayer is live; otherwise
/// the next live relayer is chosen and persisted, and the request event is
/// emitted under a fresh correlation id.
pub open spec fn request_price_outcome(
    pre: FeedState,
    post: FeedState,
    r: Result<Response, ContractError>,
    sender: Seq<char>,
    block_time: u64,
    symbol: Seq<char>,
    resolve_time: u64,
    callback_sig: Seq<char>,
    callback_data: Seq<u8>,
    event_type: EventType,
) -> bool {
    if !pre.trigger {
        &&& r matches Err(e) && e == (ContractError::TriggerRequestDisabled {})
        &&& post == pre
    } else {
        match selected_relayer(pre, block_time) {
            None => {
                &&& r matches Err(e) && e == (ContractError::RelayerNotFound {})
                &&& post == pre
            },
            Some(k) => {
                &&& r matches Ok(resp) && {
                    &&& resp.attributes@.len() == 2
                    &&& resp.attributes@[0].key@ == "action"@
                    &&& resp.attributes@[0].value@ == "request_price"@
                    &&& resp.attributes@[1].key@ == "request_id"@
                    &&& resp.attributes@[1].value@ == request_id_of(sender, block_time)
                    &&& resp.events@.len() == 1
                    &&& oracle_event_matches(
                        resp.events@[0],
                        event_type,
                        k,
                        sender,
                        symbol,
                        resolve_time,
                        callback_sig,
                        callback_data,
                        request_id_of(sender, block_time),
                    )
                }
                &&& same_but_last(post, pre)
                &&& post.last_relayer matches Some(l) && l@ == k
            },
        }
    }
}

/// Serves a price request: picks the next live relayer, moves the rotation
/// cursor past it, and emits the event that binds the request to its
/// correlation id.
pub fn execute_request_price(
    state: &mut FeedState,
    sender: &String,
    block_time: u64,
    symbol: String,
    resolve_time: u64,
    callback_sig: String,
    callback_data: Vec<u8>,
    event_type: EventType,
) -> (r: Result<Response, ContractError>)
    requires
        old(state).wf(),
    ensures
        final(state).wf(),
        request_price_outcome(
            *old(state),
            *final(state),
            r,
            sender@,
            block_time,
            symbol@,
            resolve_time,
            callback_sig@,
            callback_data@,
            event_type,
        ),
{
    if !state.trigger {
        return Err(ContractError::TriggerRequestDisabled {});
    }
    let mut request_id = sender.clone();
    request_id.append("_");
    let dec = u64_to_dec(block_time);
    request_id.append(dec.as_str());
    proof {
        reveal_strlit("_");
        assert("_"@ =~= seq!['_']);
        assert(request_id@ == request_id_of(sender@, block_time));
    }
    let next_relayer = match select(state, block_time) {
        Ok(id) => id,
        Err(e) => {
            return Err(e);
        },
    };
    let event = generate_oracle_event(
        next_relayer,
        sender.clone(),
        symbol,
        resolve_time,
        callback_data,
        request_id.clone(),
        callback_sig,
        event_type,
    );
    let mut attributes: Vec<Attribute> = Vec::new();
    attributes.push(
        Attribute { key: String::from_str("action"), value: String::from_str("request_price") },
    );
    attributes.push(Attribute { key: String::from_str("request_id"), value: request_id });
    let mut events: Vec<crate::events::Event> = Vec::new();
    events.push(event);
    Ok(Response { attributes, events })
}

/// Membership in the relayer registry; open to any caller.
pub fn query_is_relayer(state: &FeedState, relayer: &str) -> (r: bool)
    requires
        state.wf(),
    ensures
        r == state.is_member(relayer@),
{
    state.relayers.contains_key(relayer)
}

/// Serves the read-only queries: the admin, the median switch, the ping
/// threshold, membership, and a relayer's last ping — which only exists once
/// it pinged.
pub fn query(state: &FeedState, msg: QueryMsg) -> (r: Result<QueryAnswer, ContractError>)
    requires
        state.wf(),
    ensures
        match msg {
            QueryMsg::Admin {} => r matches Ok(a) && a matches QueryAnswer::Admin(s) && s@
                == state.admin@,
            QueryMsg::MedianStatus {} => r == Ok::<QueryAnswer, ContractError>(
                QueryAnswer::MedianStatus(state.median_status),
            ),
            QueryMsg::PingThreshold {} => r == Ok::<QueryAnswer, ContractError>(
                QueryAnswer::PingThreshold(state.ping_threshold),
            ),
            QueryMsg::IsRelayer { relayer } => r == Ok::<QueryAnswer, ContractError>(
                QueryAnswer::IsRelayer(state.is_member(relayer@)),
            ),
            QueryMsg::LastPing { relayer } => match state.pings.spec_get(relayer@) {
                Some(t) => r == Ok::<QueryAnswer, ContractError>(QueryAnswer::LastPing(t)),
                None => r matches Err(e) && e matches ContractError::NotFound { key } && key@
                    == relayer@,
            },
        },
{
    match msg {
        QueryMsg::Admin {} => Ok(QueryAnswer::Admin(state.admin.clone())),
        QueryMsg::MedianStatus {} => Ok(QueryAnswer::MedianStatus(state.median_status)),
        QueryMsg::PingThreshold {} => Ok(QueryAnswer::PingThreshold(state.ping_threshold)),
        QueryMsg::IsRelayer { relayer } => Ok(
            QueryAnswer::IsRelayer(query_is_relayer(state, relayer.as_str())),
        ),
        QueryMsg::LastPing { relayer } => match state.pings.get(relayer.as_str()) {
            Some(t) => Ok(QueryAnswer::LastPing(*t)),
            None => Err(ContractError::NotFound { key: relayer }),
        },
    }
}

/// Dispatches an execute message to its transition; the contracts of the
/// transitions carry over unchanged, so in particular every admin-gated
/// mutation from another identity fails with an authorization error and
/// leaves the state as it was.
pub fn execute(state: &mut FeedState, sender: &String, block_time: u64, msg: ExecuteMsg) -> (r:
    Result<Response, ContractError>)
    requires
        old(state).wf(),
    ensures
        final(state).wf(),
        match msg {
            ExecuteMsg::UpdateAdmin { admin } => update_admin_outcome(
                *old(state),
                *final(state),
                r,
                sender@,
                admin@,
            ),
            ExecuteMsg::AddRelayers { relayers } => add_relayers_outcome(
                *old(state),
                *final(state),
                r,
                sender@,
                relayers@,
            ),
            ExecuteMsg::RemoveRelayers { relayers } => remove_relayers_outcome(
                *old(state),
                *final(state),
                r,
                sender@,
                relayers@,
            ),
            ExecuteMsg::RequestRate { symbol, resolve_time, callback_sig, callback_data } =>
                request_price_outcome(
                *old(state),
                *final(state),
                r,
                sender@,
                block_time,
                symbol@,
                resolve_time,
                callback_sig@,
                callback_data@,
                EventType::RequestRate,
            ),
            ExecuteMsg::RequestMedian { symbol, resolve_time, callback_sig, callback_data } =>
                request_price_outcome(
                *old(state),
                *final(state),
                r,
                sender@,
                block_time,
                symbol@,
                resolve_time,
                callback_sig@,
                callback_data@,
                EventType::RequestMedian,
            ),
            ExecuteMsg::RequestDeviation { symbol, resolve_time, callback_sig, callback_data } =>
                request_price_outcome(
                *old(state),
                *final(state),
                r,
                sender@,
                block_time,
                symbol@,
                resolve_time,
                callback_sig@,
                callback_data@,
                EventType::RequestDeviation,
            ),
            ExecuteMsg::RelayerPing {} => relayer_ping_outcome(
                *old(state),
                *final(state),
                r,
                sender@,
                block_time,
            ),
            ExecuteMsg::ChangeTrigger { trigger } => change_trigger_outcome(
                *old(state),
                *final(state),
                r,
                sender@,
                trigger,
            ),
        },
{
    match msg {
        ExecuteMsg::UpdateAdmin { admin } => execute_update_admin(state, sender, admin),
        ExecuteMsg::AddRelayers { relayers } => execute_add_relayers(state, sender, relayers),
        ExecuteMsg::RemoveRelayers { relayers } => execute_remove_relayers(state, sender, relayers),
        ExecuteMsg::RequestRate { symbol, resolve_time, callback_sig, callback_data } =>
            execute_request_price(
            state,
            sender,
            block_time,
            symbol,
            resolve_time,
            callback_sig,
            callback_data,
            EventType::RequestRate,
        ),
        ExecuteMsg::RequestMedian { symbol, resolve_time, callback_sig, callback_data } =>
            execute_request_price(
            state,
            sender,
            block_time,
            symbol,
            resolve_time,
            callback_sig,
            callback_data,
            EventType::RequestMedian,
        ),
        ExecuteMsg::RequestDeviation { symbol, resolve_time, callback_sig, callback_data } =>
            execute_request_price(
            state,
            sender,
            block_time,
            symbol,
            resolve_time,
            callback_sig,
            callback_data,
            EventType::RequestDeviation,
        ),
        ExecuteMsg::RelayerPing {} => execute_relayer_ping(state, sender, block_time),
        ExecuteMsg::ChangeTrigger { trigger } => execute_change_trigger(state, sender, trigger),
    }
}

} // verus!
