//! The order service's handlers.
//!
//! Each handler exists twice: a core function over an open [`Store`], whose
//! contract states exactly what the handler does to the store model, and a
//! function of the original shape that opens its own handle through a
//! [`DatabaseConnector`] and forwards to the core. All a caller can know
//! through a connector is the failure taxonomy, since the database contents
//! behind a fresh handle are unknown; the core contracts carry the real
//! guarantees.

use vstd::prelude::*;

use crate::database_connection::DatabaseConnector;
use crate::rest_bodies;
use crate::rest_responses;
use crate::rest_responses::OrderView;
use crate::server_errors::ServerError;
use crate::store::{
    default_menu, delete_effect, joined_row, menu_listing, table_listing, OrderInfo, Store,
    StoreState,
};

verus! {

/// Relies on `rand::Rng::gen_range` over `rand::thread_rng`: a uniformly
/// random value in `[lo, hi)`; the call panics on an empty range, which the
/// precondition rules out.
#[verifier::external_body]
fn random_in_range(lo: u32, hi: u32) -> (r: u32)
    requires
        lo < hi,
    ensures
        lo <= r < hi,
{
    rand::Rng::gen_range(&mut rand::thread_rng(), lo..hi)
}

/// Creates the three tables if they are missing and, when the catalog is
/// empty, seeds it with the five fixed menu items. Orders and accepted keys
/// are never touched; an already seeded catalog is left as it is.
pub fn initialize_store(store: &mut Store) -> (r: Result<(), ServerError>)
    requires
        !old(store)@.in_tx,
        old(store)@.pending == old(store)@.committed,
    ensures
        !final(store)@.in_tx,
        final(store)@.pending == final(store)@.committed,
        r matches Ok(_) ==> final(store)@.committed == (StoreState {
            menu: if exists|id: u32| old(store)@.committed.menu.contains_key(id) {
                old(store)@.committed.menu
            } else {
                default_menu()
            },
            ..old(store)@.committed
        }),
        r matches Err(e) ==> final(store)@.committed == old(store)@.committed && e
            matches ServerError::SqlError(_),
{
    match store.create_schema() {
        Ok(_) => (),
        Err(e) => {
            return Err(ServerError::SqlError(e));
        },
    }
    let has_rows = match store.menu_has_rows() {
        Ok(b) => b,
        Err(e) => {
            return Err(ServerError::SqlError(e));
        },
    };
    if !has_rows {
        proof {
            assert(store@.committed.menu =~= Map::<u32, Seq<char>>::empty());
        }
        match store.seed_menu() {
            Ok(_) => (),
            Err(e) => {
                return Err(ServerError::SqlError(e));
            },
        }
    }
    proof {
        assert(store@.committed =~= (StoreState {
            menu: if exists|id: u32| old(store)@.committed.menu.contains_key(id) {
                old(store)@.committed.menu
            } else {
                default_menu()
            },
            ..old(store)@.committed
        }));
    }
    Ok(())
}

/// Opens the configured database and prepares it as [`initialize_store`]
/// does.
pub fn setup_database<C: DatabaseConnector>(connector: &C) -> (r: Result<(), ServerError>)
    ensures
        r matches Err(e) ==> e matches ServerError::SqlError(_),
{
    let mut store = match connector.open() {
        Ok(s) => s,
        Err(e) => {
            return Err(ServerError::SqlError(e));
        },
    };
    initialize_store(&mut store)
}

/// The whole catalog, in some order, without repetition.
pub fn get_catalog(store: &Store) -> (r: Result<rest_responses::MenuItems, ServerError>)
    requires
        !store@.in_tx,
    ensures
        r matches Ok(m) ==> menu_listing(store@.committed.menu, m.menu_items@),
        r matches Err(e) ==> e matches ServerError::SqlError(_),
{
    match store.select_menu() {
        Ok(items) => Ok(rest_responses::MenuItems { menu_items: items }),
        Err(e) => Err(ServerError::SqlError(e)),
    }
}

/// Opens the configured database and lists the catalog as [`get_catalog`]
/// does.
pub fn get_menu_items<C: DatabaseConnector>(connector: &C) -> (r: Result<
    rest_responses::MenuItems,
    ServerError,
>)
    ensures
        r matches Ok(m) ==> exists|menu: Map<u32, Seq<char>>|
            #[trigger] menu_listing(menu, m.menu_items@),
        r matches Err(e) ==> e matches ServerError::SqlError(_),
{
    let store = match connector.open() {
        Ok(s) => s,
        Err(e) => {
            return Err(ServerError::SqlError(e));
        },
    };
    get_catalog(&store)
}

/// Every order of the table, joined with its menu item name, in some order,
/// without repetition.
pub fn list_orders(store: &Store, table_number: u32) -> (r: Result<
    rest_responses::Orders,
    ServerError,
>)
    requires
        !store@.in_tx,
    ensures
        r matches Ok(v) ==> table_listing(store@.committed, table_number, v.orders@),
        r matches Err(e) ==> e matches ServerError::SqlError(_),
{
    match store.select_orders_for_table(table_number) {
        Ok(items) => Ok(rest_responses::Orders { orders: items }),
        Err(e) => Err(ServerError::SqlError(e)),
    }
}

/// Opens the configured database and lists the table's orders as
/// [`list_orders`] does.
pub fn get_orders<C: DatabaseConnector>(connector: &C, table_number: u32) -> (r: Result<
    rest_responses::Orders,
    ServerError,
>)
    ensures
        r matches Ok(v) ==> exists|s: StoreState|
            #[trigger] table_listing(s, table_number, v.orders@),
        r matches Err(e) ==> e matches ServerError::SqlError(_),
{
    let store = match connector.open() {
        Ok(s) => s,
        Err(e) => {
            return Err(ServerError::SqlError(e));
        },
    };
    list_orders(&store, table_number)
}

/// The order `order_id` of this table, or `DataNotFound` when no such row
/// exists under this table: an id placed under a different table is
/// indistinguishable from an absent one.
pub fn lookup_order(store: &Store, table_number: u32, order_id: u32) -> (r: Result<
    rest_responses::Order,
    ServerError,
>)
    requires
        !store@.in_tx,
    ensures
        r matches Ok(o) ==> o.id == order_id && joined_row(store@.committed, table_number, o),
        r matches Err(ServerError::DataNotFound) ==> !(store@.committed.orders.contains_key(
            order_id,
        ) && store@.committed.orders[order_id].table_number == table_number
            && store@.committed.menu.contains_key(
            store@.committed.orders[order_id].menu_item_id,
        )),
        r matches Err(e) ==> (e matches ServerError::DataNotFound || e
            matches ServerError::SqlError(_)),
{
    match store.select_order(table_number, order_id) {
        Ok(Some(o)) => Ok(o),
        Ok(None) => Err(ServerError::DataNotFound),
        Err(e) => Err(ServerError::SqlError(e)),
    }
}

/// Opens the configured database and fetches the order as [`lookup_order`]
/// does.
pub fn get_order<C: DatabaseConnector>(connector: &C, table_number: u32, order_id: u32) -> (r:
    Result<rest_responses::Order, ServerError>)
    ensures
        r matches Ok(o) ==> o.id == order_id && exists|s: StoreState|
            #[trigger] joined_row(s, table_number, o),
        r matches Err(e) ==> (e matches ServerError::DataNotFound || e
            matches ServerError::SqlError(_)),
{
    let store = match connector.open() {
        Ok(s) => s,
        Err(e) => {
            return Err(ServerError::SqlError(e));
        },
    };
    lookup_order(&store, table_number, order_id)
}

/// The dedup ledger after consuming `key`: unchanged when the batch carries
/// no key, grown by the key otherwise.
pub open spec fn keys_with(keys: Set<Seq<char>>, key: Option<Seq<char>>) -> Set<Seq<char>> {
    match key {
        Some(k) => keys.insert(k),
        None => keys,
    }
}

/// What a successful placement does: starting from store state `pre`, a batch
/// for `table_number` carrying `key` and requesting `items` commits state
/// `post` and reports the rows `resp` exactly when
/// - a carried key was fresh and is now consumed, and no key appears
///   otherwise;
/// - the catalog is untouched and every requested item is in it;
/// - one row per requested item is reported, in request order, each under a
///   fresh order id, with its item's catalog name and a cook time in
///   `[5, 15)`;
/// - the committed orders are exactly the old ones plus the reported rows.
pub open spec fn place_ok(
    pre: StoreState,
    post: StoreState,
    table_number: u32,
    key: Option<Seq<char>>,
    items: Seq<u32>,
    resp: Seq<OrderView>,
) -> bool {
    &&& (key matches Some(k) ==> !pre.keys.contains(k))
    &&& post.keys == keys_with(pre.keys, key)
    &&& post.menu == pre.menu
    &&& resp.len() == items.len()
    &&& forall|i: int| 0 <= i < items.len() ==> pre.menu.contains_key(#[trigger] items[i])
    &&& forall|i: int, j: int|
        0 <= i < j < resp.len() ==> (#[trigger] resp[i]).id != (#[trigger] resp[j]).id
    &&& forall|i: int|
        0 <= i < resp.len() ==> {
            let o = #[trigger] resp[i];
            &&& !pre.orders.contains_key(o.id)
            &&& o.menu_item_id == items[i]
            &&& o.menu_item_name == pre.menu[items[i]]
            &&& 5 <= o.minutes_to_cook < 15
            &&& post.orders.contains_key(o.id)
            &&& post.orders[o.id] == (OrderInfo {
                menu_item_id: o.menu_item_id,
                table_number,
                minutes_to_cook: o.minutes_to_cook,
            })
        }
    &&& forall|id: u32|
        #[trigger] pre.orders.contains_key(id) ==> post.orders.contains_key(id) && post.orders[id]
            == pre.orders[id]
    &&& forall|id: u32|
        #[trigger] post.orders.contains_key(id) ==> pre.orders.contains_key(id) || exists|i: int|
            0 <= i < resp.len() && (#[trigger] resp[i]).id == id
}

/// Exactly-once acceptance: once a batch carrying key `k` has committed, no
/// batch carrying the same key can commit from the resulting state, whatever
/// table it targets and whatever it requests. A client may therefore resend
/// the identical request after a timeout without risking duplicate rows.
pub proof fn lemma_key_consumed(
    s0: StoreState,
    s1: StoreState,
    t1: u32,
    k: Seq<char>,
    items1: Seq<u32>,
    resp1: Seq<OrderView>,
    s2: StoreState,
    t2: u32,
    items2: Seq<u32>,
    resp2: Seq<OrderView>,
)
    requires
        place_ok(s0, s1, t1, Some(k), items1, resp1),
    ensures
        !place_ok(s1, s2, t2, Some(k), items2, resp2),
{
    assert(s1.keys.contains(k));
}

/// The dedup ledger grows monotonically: no placement and no cancellation
/// ever releases an accepted key, so [`lemma_key_consumed`] extends through
/// any number of later operations.
pub proof fn lemma_ledger_monotone(
    s0: StoreState,
    s1: StoreState,
    t: u32,
    key: Option<Seq<char>>,
    items: Seq<u32>,
    resp: Seq<OrderView>,
    dt: u32,
    did: u32,
)
    requires
        place_ok(s0, s1, t, key, items, resp),
    ensures
        forall|k0: Seq<char>| s0.keys.contains(k0) ==> s1.keys.contains(k0),
        delete_effect(s1, dt, did).keys == s1.keys,
{
}

/// Atomicity: a batch requesting even one item the catalog lacks can never
/// commit, whatever else it requests — no successful placement reports it,
/// and `place_orders` leaves the committed state untouched on every failure.
pub proof fn lemma_atomic_rejection(
    s0: StoreState,
    s1: StoreState,
    t: u32,
    key: Option<Seq<char>>,
    items: Seq<u32>,
    resp: Seq<OrderView>,
    i: int,
)
    requires
        0 <= i < items.len(),
        !s0.menu.contains_key(items[i]),
    ensures
        !place_ok(s0, s1, t, key, items, resp),
{
}

/// Every persisted cook time lies in `[5, 15)`.
pub open spec fn cook_times_in_range(s: StoreState) -> bool {
    forall|id: u32|
        #[trigger] s.orders.contains_key(id) ==> 5 <= s.orders[id].minutes_to_cook < 15
}

/// Placement keeps the cook-time bound: the reported rows carry times in
/// `[5, 15)` by [`place_ok`], and this shows the bound holds of everything
/// the store then contains.
pub proof fn lemma_cook_time_bound_place(
    s0: StoreState,
    s1: StoreState,
    t: u32,
    key: Option<Seq<char>>,
    items: Seq<u32>,
    resp: Seq<OrderView>,
)
    requires
        cook_times_in_range(s0),
        place_ok(s0, s1, t, key, items, resp),
    ensures
        cook_times_in_range(s1),
{
    assert forall|id: u32|
        #[trigger] s1.orders.contains_key(id) implies 5 <= s1.orders[id].minutes_to_cook < 15 by {
        if !s0.orders.contains_key(id) {
            let i = choose|i: int| 0 <= i < resp.len() && (#[trigger] resp[i]).id == id;
            assert(s1.orders[id].minutes_to_cook == resp[i].minutes_to_cook);
        }
    }
}

/// Cancellation keeps the cook-time bound.
pub proof fn lemma_cook_time_bound_delete(s: StoreState, t: u32, id: u32)
    requires
        cook_times_in_range(s),
    ensures
        cook_times_in_range(delete_effect(s, t, id)),
{
}

/// Referential integrity: every persisted order references a catalog item.
pub open spec fn ref_integrity(s: StoreState) -> bool {
    forall|id: u32|
        #[trigger] s.orders.contains_key(id) ==> s.menu.contains_key(s.orders[id].menu_item_id)
}

/// Placement keeps referential integrity: a batch only commits after every
/// requested item was found in the catalog.
pub proof fn lemma_ref_integrity_place(
    s0: StoreState,
    s1: StoreState,
    t: u32,
    key: Option<Seq<char>>,
    items: Seq<u32>,
    resp: Seq<OrderView>,
)
    requires
        ref_integrity(s0),
        place_ok(s0, s1, t, key, items, resp),
    ensures
        ref_integrity(s1),
{
    assert forall|id: u32|
        #[trigger] s1.orders.contains_key(id) implies s1.menu.contains_key(
        s1.orders[id].menu_item_id,
    ) by {
        if !s0.orders.contains_key(id) {
            let i = choose|i: int| 0 <= i < resp.len() && (#[trigger] resp[i]).id == id;
            assert(s1.orders[id].menu_item_id == items[i]);
        }
    }
}

/// Cancellation keeps referential integrity.
pub proof fn lemma_ref_integrity_delete(s: StoreState, t: u32, id: u32)
    requires
        ref_integrity(s),
    ensures
        ref_integrity(delete_effect(s, t, id)),
{
}

/// Scoped lookup: an order placed under one table can never satisfy the
/// lookup join under another table, so `lookup_order` classifies it as
/// `DataNotFound` there, exactly as if it did not exist.
pub proof fn lemma_scoped_lookup(s: StoreState, owner: u32, other: u32, id: u32)
    requires
        s.orders.contains_key(id),
        s.orders[id].table_number == owner,
        other != owner,
    ensures
        forall|o: rest_responses::Order| #[trigger] joined_row(s, other, o) ==> o.id != id,
{
}

/// Idempotent delete: cancelling an order that is already gone changes
/// nothing, so deleting the same order twice leaves exactly the state that
/// deleting it once leaves — and `cancel_order` reports the same success
/// either way.
pub proof fn lemma_idempotent_delete(s: StoreState, t: u32, id: u32)
    ensures
        delete_effect(delete_effect(s, t, id), t, id) == delete_effect(s, t, id),
{
}

/// The name of catalog entry `menu_item_id` in the listed catalog, if any.
fn find_menu_name(menu: &Vec<rest_responses::MenuItem>, menu_item_id: u32) -> (r: Option<String>)
    ensures
        r matches Some(n) ==> exists|i: int|
            0 <= i < menu@.len() && (#[trigger] menu@[i]).id == menu_item_id && menu@[i].name@
                == n@,
        r matches None ==> forall|i: int|
            0 <= i < menu@.len() ==> (#[trigger] menu@[i]).id != menu_item_id,
{
    let mut idx: usize = 0;
    while idx < menu.len()
        invariant
            idx <= menu@.len(),
            forall|i: int| 0 <= i < idx ==> (#[trigger] menu@[i]).id != menu_item_id,
        decreases menu@.len() - idx,
    {
        if menu[idx].id == menu_item_id {
            return Some(menu[idx].name.clone());
        }
        idx += 1;
    }
    None
}

/// Places a whole batch atomically: consumes the idempotency key if one is
/// carried, validates every requested item against the catalog, and commits
/// either every row or none.
///
/// On `Ok` the committed state and the reported rows satisfy [`place_ok`].
/// `Idempotency` is returned exactly when the carried key was already
/// consumed, `DataNotFound` only when some requested item is not in the
/// catalog, and `SqlError` only for storage failures; on every failure the
/// committed state is untouched.
pub fn place_orders(store: &mut Store, table_number: u32, req: &rest_bodies::Orders) -> (r: Result<
    rest_responses::Orders,
    ServerError,
>)
    requires
        !old(store)@.in_tx,
        old(store)@.pending == old(store)@.committed,
    ensures
        !final(store)@.in_tx,
        final(store)@.pending == final(store)@.committed,
        r matches Ok(resp) ==> place_ok(
            old(store)@.committed,
            final(store)@.committed,
            table_number,
            rest_bodies::key_of(req),
            rest_bodies::item_ids_of(req),
            rest_responses::order_views(resp.orders@),
        ),
        r matches Err(_) ==> final(store)@.committed == old(store)@.committed,
        r matches Err(e) ==> (e matches ServerError::Idempotency || e
            matches ServerError::DataNotFound || e matches ServerError::SqlError(_)),
        r matches Err(ServerError::Idempotency) ==> (rest_bodies::key_of(req) matches Some(k)
            && old(store)@.committed.keys.contains(k)),
        r matches Err(ServerError::DataNotFound) ==> exists|i: int|
            0 <= i < rest_bodies::item_ids_of(req).len() && !old(store)@.committed.menu.contains_key(
                #[trigger] rest_bodies::item_ids_of(req)[i],
            ),
        r matches Err(ServerError::DataNotFound) ==> (rest_bodies::key_of(req) matches Some(k)
            ==> !old(store)@.committed.keys.contains(k)),
{
    let ghost pre: StoreState = old(store)@.committed;
    let menu = match store.select_menu() {
        Ok(m) => m,
        Err(e) => {
            return Err(ServerError::SqlError(e));
        },
    };
    match store.begin_tx() {
        Ok(_) => (),
        Err(e) => {
            return Err(ServerError::SqlError(e));
        },
    }
    if let Some(key) = &req.idempotency_key {
        match store.tx_insert_key(key.as_str()) {
            Ok(_) => (),
            Err(e) => {
                store.rollback_tx();
                return Err(e);
            },
        }
    }
    let mut created: Vec<rest_responses::Order> = Vec::new();
    let mut idx: usize = 0;
    while idx < req.orders.len()
        invariant
            store@.in_tx,
            pre == old(store)@.committed,
            store@.committed == pre,
            store@.pending.menu == pre.menu,
            store@.pending.keys == keys_with(pre.keys, rest_bodies::key_of(req)),
            rest_bodies::key_of(req) matches Some(k) ==> !pre.keys.contains(k),
            menu_listing(pre.menu, menu@),
            idx <= req.orders@.len(),
            created@.len() == idx as int,
            forall|i: int|
                0 <= i < idx ==> {
                    let o = (#[trigger] created@[i])@;
                    &&& !pre.orders.contains_key(o.id)
                    &&& o.menu_item_id == req.orders@[i].menu_item_id
                    &&& pre.menu.contains_key(o.menu_item_id)
                    &&& o.menu_item_name == pre.menu[o.menu_item_id]
                    &&& 5 <= o.minutes_to_cook < 15
                },
            forall|i: int, j: int|
                0 <= i < j < idx ==> (#[trigger] created@[i]).id != (#[trigger] created@[j]).id,
            forall|i: int|
                0 <= i < idx ==> store@.pending.orders.contains_key((#[trigger] created@[i]).id)
                    && store@.pending.orders[created@[i].id] == (OrderInfo {
                    menu_item_id: created@[i].menu_item_id,
                    table_number,
                    minutes_to_cook: created@[i].minutes_to_cook,
                }),
            forall|id: u32|
                #[trigger] pre.orders.contains_key(id) ==> store@.pending.orders.contains_key(id)
                    && store@.pending.orders[id] == pre.orders[id],
            forall|id: u32|
                #[trigger] store@.pending.orders.contains_key(id) ==> pre.orders.contains_key(id)
                    || exists|i: int| 0 <= i < idx && (#[trigger] created@[i]).id == id,
        decreases req.orders@.len() - idx,
    {
        let ghost entry_created = created@;
        let ghost entry_pending = store@.pending.orders;
        let menu_item_id = req.orders[idx].menu_item_id;
        proof {
            assert(rest_bodies::item_ids_of(req)[idx as int] == menu_item_id);
        }
        let minutes = random_in_range(5, 15);
        match store.tx_insert_order(table_number, menu_item_id, minutes) {
            Ok(Some(id)) => {
                let name = match find_menu_name(&menu, menu_item_id) {
                    Some(n) => n,
                    None => {
                        // the catalog listing covers every id the insert
                        // just validated, so this arm cannot be reached
                        proof {
                            assert(false);
                        }
                        store.rollback_tx();
                        return Err(ServerError::DataNotFound);
                    },
                };
                created.push(
                    rest_responses::Order {
                        id,
                        menu_item_id,
                        menu_item_name: name,
                        minutes_to_cook: minutes,
                    },
                );
                proof {
                    assert(created@[idx as int].id == id);
                    assert forall|oid: u32|
                        #[trigger] store@.pending.orders.contains_key(oid) implies
                        pre.orders.contains_key(oid) || exists|i: int|
                        0 <= i < created@.len() && (#[trigger] created@[i]).id == oid by {
                        if !pre.orders.contains_key(oid) {
                            if oid == id {
                                assert(created@[idx as int].id == oid);
                            } else {
                                assert(entry_pending.contains_key(oid));
                                let i = choose|i: int|
                                    0 <= i < idx as int && (#[trigger] entry_created[i]).id == oid;
                                assert(created@[i].id == oid);
                            }
                        }
                    }
                }
            },
            Ok(None) => {
                store.rollback_tx();
                return Err(ServerError::DataNotFound);
            },
            Err(e) => {
                store.rollback_tx();
                return Err(ServerError::SqlError(e));
            },
        }
        idx += 1;
    }
    match store.commit_tx() {
        Ok(_) => {
            let resp = rest_responses::Orders { orders: created };
            proof {
                let post = store@.committed;
                let items = rest_bodies::item_ids_of(req);
                let rv = rest_responses::order_views(resp.orders@);
                assert(rv.len() == created@.len());
                assert forall|i: int| 0 <= i < rv.len() implies rv[i] == created@[i]@ by {}
                assert forall|i: int| 0 <= i < items.len() implies items[i]
                    == req.orders@[i].menu_item_id by {}
                assert forall|i: int|
                    0 <= i < rv.len() implies {
                        let o = #[trigger] rv[i];
                        &&& !pre.orders.contains_key(o.id)
                        &&& o.menu_item_id == items[i]
                        &&& o.menu_item_name == pre.menu[items[i]]
                        &&& 5 <= o.minutes_to_cook < 15
                        &&& post.orders.contains_key(o.id)
                        &&& post.orders[o.id] == (OrderInfo {
                            menu_item_id: o.menu_item_id,
                            table_number,
                            minutes_to_cook: o.minutes_to_cook,
                        })
                    } by {
                    assert(created@[i]@.id == created@[i].id);
                }
                assert forall|id: u32|
                    #[trigger] post.orders.contains_key(id) implies pre.orders.contains_key(id)
                    || exists|i: int| 0 <= i < rv.len() && (#[trigger] rv[i]).id == id by {
                    if !pre.orders.contains_key(id) {
                        let i = choose|i: int|
                            0 <= i < created@.len() && (#[trigger] created@[i]).id == id;
                        assert(rv[i].id == id);
                    }
                }
                assert forall|i: int|
                    0 <= i < items.len() implies pre.menu.contains_key(#[trigger] items[i]) by {
                    assert(created@[i]@.menu_item_id == items[i]);
                }
                assert(place_ok(
                    pre,
                    post,
                    table_number,
                    rest_bodies::key_of(req),
                    items,
                    rv,
                ));
            }
            Ok(resp)
        },
        Err(e) => {
            store.rollback_tx();
            Err(ServerError::SqlError(e))
        },
    }
}

/// Opens the configured database and places the batch as [`place_orders`]
/// does.
pub fn add_orders<C: DatabaseConnector>(
    connector: &C,
    table_number: u32,
    orders: rest_bodies::Orders,
) -> (r: Result<rest_responses::Orders, ServerError>)
    ensures
        r matches Ok(resp) ==> exists|pre: StoreState, post: StoreState|
            #[trigger] place_ok(
                pre,
                post,
                table_number,
                rest_bodies::key_of(&orders),
                rest_bodies::item_ids_of(&orders),
                rest_responses::order_views(resp.orders@),
            ),
        r matches Err(e) ==> (e matches ServerError::Idempotency || e
            matches ServerError::DataNotFound || e matches ServerError::SqlError(_)),
{
    let mut store = match connector.open() {
        Ok(s) => s,
        Err(e) => {
            return Err(ServerError::SqlError(e));
        },
    };
    place_orders(&mut store, table_number, &orders)
}

/// Deletes the order if it is there under this table; deleting an absent
/// order succeeds the same way, so the two cases are indistinguishable to
/// the caller.
pub fn cancel_order(store: &mut Store, table_number: u32, order_id: u32) -> (r: Result<
    (),
    ServerError,
>)
    requires
        !old(store)@.in_tx,
        old(store)@.pending == old(store)@.committed,
    ensures
        !final(store)@.in_tx,
        final(store)@.pending == final(store)@.committed,
        r matches Ok(_) ==> final(store)@.committed == delete_effect(
            old(store)@.committed,
            table_number,
            order_id,
        ),
        r matches Err(e) ==> final(store)@.committed == old(store)@.committed && e
            matches ServerError::SqlError(_),
{
    match store.delete_order_row(table_number, order_id) {
        Ok(_) => Ok(()),
        Err(e) => Err(ServerError::SqlError(e)),
    }
}

/// Opens the configured database and deletes the order as [`cancel_order`]
/// does.
pub fn delete_order<C: DatabaseConnector>(connector: &C, table_number: u32, order_id: u32) -> (r:
    Result<(), ServerError>)
    ensures
        r matches Err(e) ==> e matches ServerError::SqlError(_),
{
    let mut store = match connector.open() {
        Ok(s) => s,
        Err(e) => {
            return Err(ServerError::SqlError(e));
        },
    };
    cancel_order(&mut store, table_number, order_id)
}

} // verus!
