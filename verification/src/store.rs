//! The relational store behind the order service.
//!
//! A `Store` owns one SQLite connection (through the `rusqlite` crate) and
//! carries a ghost model of the three tables the service uses: the menu
//! catalog, the placed orders and the dedup ledger of accepted idempotency
//! keys. Every statement the service runs is wrapped in one trusted function
//! whose contract states, over the model, what that statement does.
//!
//! The model describes the database as seen through this handle: the
//! contracts assume no other connection writes the same database while this
//! `Store` is alive. The service opens one `Store` per handler call and
//! relies on SQLite transaction isolation for cross-handler atomicity, so
//! the assumption matches how the handles are used.

use vstd::prelude::*;

use crate::rest_responses::{MenuItem, Order};
use crate::server_errors::ServerError;

verus! {

#[verifier::external_type_specification]
#[verifier::external_body]
pub struct ExConnection(rusqlite::Connection);

#[verifier::external_type_specification]
#[verifier::external_body]
pub struct ExSqlError(rusqlite::Error);

/// One persisted order row, minus its id.
pub ghost struct OrderInfo {
    pub menu_item_id: u32,
    pub table_number: u32,
    pub minutes_to_cook: u32,
}

/// The durable contents of the store: catalog, orders and dedup ledger.
pub ghost struct StoreState {
    /// menu item id -> menu item name
    pub menu: Map<u32, Seq<char>>,
    /// order id -> order row
    pub orders: Map<u32, OrderInfo>,
    /// accepted idempotency keys
    pub keys: Set<Seq<char>>,
}

/// The model of a store handle: the committed (durable) state, the state
/// pending inside an open transaction, and whether one is open.
pub ghost struct StoreView {
    pub committed: StoreState,
    pub pending: StoreState,
    pub in_tx: bool,
}

impl StoreState {
    /// A store with no rows at all.
    pub open spec fn empty() -> StoreState {
        StoreState {
            menu: Map::empty(),
            orders: Map::empty(),
            keys: Set::empty(),
        }
    }
}

/// The catalog rows that a fresh store is seeded with. SQLite assigns the
/// five rows of the seeding insert the rowids 1 through 5, in statement
/// order, because the table is empty when it runs.
pub open spec fn default_menu() -> Map<u32, Seq<char>> {
    map![
        1u32 => "Hamburger"@,
        2u32 => "Salad"@,
        3u32 => "Sushi"@,
        4u32 => "Ice Cream"@,
        5u32 => "Soda"@,
    ]
}

/// `v` lists the whole catalog `menu`, in some order, without repetition.
pub open spec fn menu_listing(menu: Map<u32, Seq<char>>, v: Seq<MenuItem>) -> bool {
    &&& forall|i: int|
        0 <= i < v.len() ==> menu.contains_key((#[trigger] v[i]).id) && menu[v[i].id]
            == v[i].name@
    &&& forall|i: int, j: int| 0 <= i < j < v.len() ==> (#[trigger] v[i]).id != (#[trigger] v[j]).id
    &&& forall|id: u32|
        #[trigger] menu.contains_key(id) ==> exists|i: int| 0 <= i < v.len() && (#[trigger] v[i]).id == id
}

/// `o` is the order row `o.id` of state `s`, joined with its menu item name,
/// and belongs to table `t`.
pub open spec fn joined_row(s: StoreState, t: u32, o: Order) -> bool {
    &&& s.orders.contains_key(o.id)
    &&& s.orders[o.id].table_number == t
    &&& s.orders[o.id].menu_item_id == o.menu_item_id
    &&& s.orders[o.id].minutes_to_cook == o.minutes_to_cook
    &&& s.menu.contains_key(o.menu_item_id)
    &&& s.menu[o.menu_item_id] == o.menu_item_name@
}

/// `v` lists every order of table `t` in state `s` (joined with the catalog),
/// in some order, without repetition.
pub open spec fn table_listing(s: StoreState, t: u32, v: Seq<Order>) -> bool {
    &&& forall|i: int| 0 <= i < v.len() ==> joined_row(s, t, #[trigger] v[i])
    &&& forall|i: int, j: int| 0 <= i < j < v.len() ==> (#[trigger] v[i]).id != (#[trigger] v[j]).id
    &&& forall|id: u32|
        s.orders.contains_key(id) && (#[trigger] s.orders[id]).table_number == t
            && s.menu.contains_key(s.orders[id].menu_item_id) ==> exists|i: int|
            0 <= i < v.len() && (#[trigger] v[i]).id == id
}

/// The state after deleting order `id` of table `t`: the row goes if it is
/// there under that table, and nothing else changes.
pub open spec fn delete_effect(s: StoreState, t: u32, id: u32) -> StoreState {
    if s.orders.contains_key(id) && s.orders[id].table_number == t {
        StoreState { orders: s.orders.remove(id), ..s }
    } else {
        s
    }
}

/// A handle on the service's database.
pub struct Store {
    conn: rusqlite::Connection,
    model: Ghost<StoreView>,
}

impl View for Store {
    type V = StoreView;

    closed spec fn view(&self) -> StoreView {
        self.model@
    }
}

impl Store {
    /// Relies on `rusqlite::Connection::open`: opens (creating it if absent)
    /// the database file at `path`.
    #[verifier::external_body]
    fn open_conn(path: &str) -> Result<rusqlite::Connection, rusqlite::Error> {
        rusqlite::Connection::open(path)
    }

    /// Relies on `rusqlite::Connection::open_in_memory`: a fresh in-memory
    /// database, which holds no rows.
    #[verifier::external_body]
    fn open_conn_in_memory() -> Result<rusqlite::Connection, rusqlite::Error> {
        rusqlite::Connection::open_in_memory()
    }

    /// Opens the database file at `path`. The file's contents are whatever
    /// they are: no transaction is open, and nothing more is known of the
    /// model until the statements below report on it.
    pub fn open(path: &str) -> (r: Result<Store, rusqlite::Error>)
        ensures
            r matches Ok(s) ==> !s@.in_tx && s@.pending == s@.committed,
    {
        let ghost contents: StoreState = arbitrary();
        match Self::open_conn(path) {
            Ok(conn) => Ok(
                Store {
                    conn,
                    model: Ghost(
                        StoreView { committed: contents, pending: contents, in_tx: false },
                    ),
                },
            ),
            Err(e) => Err(e),
        }
    }

    /// Opens a fresh in-memory database. A fresh database holds no rows, so
    /// the model starts empty.
    pub fn open_in_memory() -> (r: Result<Store, rusqlite::Error>)
        ensures
            r matches Ok(s) ==> !s@.in_tx && s@.pending == s@.committed && s@.committed
                == StoreState::empty(),
    {
        match Self::open_conn_in_memory() {
            Ok(conn) => Ok(
                Store {
                    conn,
                    model: Ghost(
                        StoreView {
                            committed: StoreState::empty(),
                            pending: StoreState::empty(),
                            in_tx: false,
                        },
                    ),
                },
            ),
            Err(e) => Err(e),
        }
    }

    /// Relies on `rusqlite::Connection::execute_batch`: `CREATE TABLE IF NOT
    /// EXISTS` statements create missing tables and change no rows.
    #[verifier::external_body]
    pub fn create_schema(&mut self) -> (r: Result<(), rusqlite::Error>)
        requires
            !old(self)@.in_tx,
        ensures
            final(self)@ == old(self)@,
    {
        self.conn.execute_batch(
            "CREATE TABLE IF NOT EXISTS menu_items (id INTEGER PRIMARY KEY, name TEXT UNIQUE);
             CREATE TABLE IF NOT EXISTS orders (id INTEGER PRIMARY KEY, menu_item_id INTEGER,
                 table_number INTEGER, minutes_to_cook INTEGER,
                 FOREIGN KEY(menu_item_id) REFERENCES menu_items(id));
             CREATE TABLE IF NOT EXISTS idempotent_requests (idempotency_key TEXT PRIMARY KEY);",
        )
    }

    /// Relies on `rusqlite::Statement::exists`: whether `SELECT * FROM
    /// menu_items` returns at least one row, that is whether the catalog is
    /// nonempty.
    #[verifier::external_body]
    pub fn menu_has_rows(&self) -> (r: Result<bool, rusqlite::Error>)
        requires
            !self@.in_tx,
        ensures
            r matches Ok(b) ==> b == exists|id: u32| self@.committed.menu.contains_key(id),
    {
        let mut stmt = self.conn.prepare("SELECT * FROM menu_items;")?;
        stmt.exists([])
    }

    /// Relies on `rusqlite::Connection::execute`: one INSERT of the five
    /// fixed catalog rows. On an empty table SQLite assigns them rowids 1
    /// through 5 in statement order.
    #[verifier::external_body]
    pub fn seed_menu(&mut self) -> (r: Result<(), rusqlite::Error>)
        requires
            !old(self)@.in_tx,
            old(self)@.committed.menu == Map::<u32, Seq<char>>::empty(),
        ensures
            !final(self)@.in_tx,
            final(self)@.pending == final(self)@.committed,
            r matches Ok(_) ==> final(self)@.committed == (StoreState {
                menu: default_menu(),
                ..old(self)@.committed
            }),
            r matches Err(_) ==> final(self)@.committed == old(self)@.committed,
    {
        self.conn.execute(
            "INSERT INTO menu_items (name) VALUES
                ('Hamburger'), ('Salad'), ('Sushi'), ('Ice Cream'), ('Soda');",
            (),
        )?;
        Ok(())
    }

    /// Relies on `rusqlite::Statement::query_map`: `SELECT id, name FROM
    /// menu_items` returns every catalog row exactly once, in some order.
    #[verifier::external_body]
    pub fn select_menu(&self) -> (r: Result<Vec<MenuItem>, rusqlite::Error>)
        requires
            !self@.in_tx,
        ensures
            r matches Ok(v) ==> menu_listing(self@.committed.menu, v@),
    {
        let mut stmt = self.conn.prepare("SELECT id, name FROM menu_items")?;
        let rows = stmt.query_map([], |row| Ok(MenuItem { id: row.get(0)?, name: row.get(1)? }))?;
        let mut items = Vec::new();
        for item in rows {
            items.push(item?);
        }
        Ok(items)
    }

    /// Relies on `rusqlite::Connection::execute_batch` with `BEGIN DEFERRED`:
    /// opens a transaction; the pending state starts at the committed state.
    #[verifier::external_body]
    pub fn begin_tx(&mut self) -> (r: Result<(), rusqlite::Error>)
        requires
            !old(self)@.in_tx,
        ensures
            r matches Ok(_) ==> final(self)@ == (StoreView {
                committed: old(self)@.committed,
                pending: old(self)@.committed,
                in_tx: true,
            }),
            r matches Err(_) ==> final(self)@ == old(self)@,
    {
        self.conn.execute_batch("BEGIN DEFERRED")
    }

    /// Relies on `rusqlite::Connection::execute`: an INSERT into the dedup
    /// ledger, whose only constraint is the primary key on the key column.
    /// It succeeds exactly when the key is not in the pending ledger, and a
    /// constraint violation means the key is already there. Nothing is
    /// durable until the transaction commits.
    #[verifier::external_body]
    pub fn tx_insert_key(&mut self, key: &str) -> (r: Result<(), ServerError>)
        requires
            old(self)@.in_tx,
        ensures
            final(self)@.committed == old(self)@.committed,
            r matches Ok(_) ==> final(self)@ == (StoreView {
                pending: StoreState {
                    keys: old(self)@.pending.keys.insert(key@),
                    ..old(self)@.pending
                },
                ..old(self)@
            }) && !old(self)@.pending.keys.contains(key@),
            r matches Err(e) ==> (e matches ServerError::Idempotency || e
                matches ServerError::SqlError(_)),
            r matches Err(ServerError::Idempotency) ==> old(self)@.pending.keys.contains(key@)
                && final(self)@ == old(self)@,
    {
        match self.conn.execute(
            "INSERT INTO idempotent_requests (idempotency_key) VALUES (:key)",
            &[(":key", key)],
        ) {
            Ok(_) => Ok(()),
            Err(rusqlite::Error::SqliteFailure(err, _))
                if err.code == rusqlite::ErrorCode::ConstraintViolation
                => Err(ServerError::Idempotency),
            Err(e) => Err(ServerError::SqlError(e)),
        }
    }

    /// Relies on `rusqlite::Connection::execute` and
    /// `rusqlite::Connection::last_insert_rowid`: an INSERT that selects the
    /// catalog row of `menu_item_id`, so it affects one row when that item
    /// exists and none otherwise. The new row's id is the fresh rowid SQLite
    /// chose, distinct from every rowid in use. Nothing is durable until the
    /// transaction commits.
    #[verifier::external_body]
    pub fn tx_insert_order(
        &mut self,
        table_number: u32,
        menu_item_id: u32,
        minutes_to_cook: u32,
    ) -> (r: Result<Option<u32>, rusqlite::Error>)
        requires
            old(self)@.in_tx,
        ensures
            final(self)@.committed == old(self)@.committed,
            r matches Ok(o) ==> final(self)@.in_tx
                && final(self)@.pending.menu == old(self)@.pending.menu
                && final(self)@.pending.keys == old(self)@.pending.keys,
            r matches Ok(Some(id)) ==> old(self)@.pending.menu.contains_key(menu_item_id)
                && !old(self)@.pending.orders.contains_key(id)
                && final(self)@.pending.orders == old(self)@.pending.orders.insert(
                    id,
                    OrderInfo { menu_item_id, table_number, minutes_to_cook },
                ),
            r matches Ok(None) ==> !old(self)@.pending.menu.contains_key(menu_item_id)
                && final(self)@.pending.orders == old(self)@.pending.orders,
    {
        let rows = self.conn.execute(
            "INSERT INTO orders (menu_item_id, table_number, minutes_to_cook)
             SELECT m.id, ?1, ?2 FROM menu_items AS m WHERE m.id = ?3",
            (table_number, minutes_to_cook, menu_item_id),
        )?;
        if rows == 0 {
            return Ok(None);
        }
        let rowid = self.conn.last_insert_rowid();
        match u32::try_from(rowid) {
            Ok(id) => Ok(Some(id)),
            Err(_) => Err(rusqlite::Error::IntegralValueOutOfRange(0, rowid)),
        }
    }

    /// Relies on `rusqlite::Connection::execute_batch` with `COMMIT`: on
    /// success the pending state becomes durable; a failed COMMIT commits
    /// nothing.
    #[verifier::external_body]
    pub fn commit_tx(&mut self) -> (r: Result<(), rusqlite::Error>)
        requires
            old(self)@.in_tx,
        ensures
            r matches Ok(_) ==> final(self)@ == (StoreView {
                committed: old(self)@.pending,
                pending: old(self)@.pending,
                in_tx: false,
            }),
            r matches Err(_) ==> final(self)@.committed == old(self)@.committed,
    {
        self.conn.execute_batch("COMMIT")
    }

    /// Relies on `rusqlite::Connection::execute_batch` with `ROLLBACK`:
    /// whether or not a transaction is still open (a failed statement can
    /// have closed it), afterwards none is, and the committed state is
    /// untouched. The statement's own error, if any, is dropped.
    #[verifier::external_body]
    pub fn rollback_tx(&mut self)
        ensures
            final(self)@ == (StoreView {
                committed: old(self)@.committed,
                pending: old(self)@.committed,
                in_tx: false,
            }),
    {
        let _ = self.conn.execute_batch("ROLLBACK");
    }

    /// Relies on `rusqlite::Statement::query_map`: the SELECT joining orders
    /// with menu items on the item id, filtered to one table, returns every
    /// matching row exactly once, in some order.
    #[verifier::external_body]
    pub fn select_orders_for_table(&self, table_number: u32) -> (r: Result<
        Vec<Order>,
        rusqlite::Error,
    >)
        requires
            !self@.in_tx,
        ensures
            r matches Ok(v) ==> table_listing(self@.committed, table_number, v@),
    {
        let mut stmt = self.conn.prepare(
            "SELECT o.id, o.minutes_to_cook, m.id, m.name FROM orders AS o \
             INNER JOIN menu_items AS m ON m.id = o.menu_item_id WHERE o.table_number = ?1",
        )?;
        let rows = stmt.query_map((table_number,), |row| {
            Ok(Order { id: row.get(0)?, minutes_to_cook: row.get(1)?,
                menu_item_id: row.get(2)?, menu_item_name: row.get(3)? })
        })?;
        let mut items = Vec::new();
        for item in rows {
            items.push(item?);
        }
        Ok(items)
    }

    /// Relies on `rusqlite::Connection::query_row`: the same join filtered
    /// to one order id and one table; no row means the order does not exist
    /// under that table.
    #[verifier::external_body]
    pub fn select_order(&self, table_number: u32, order_id: u32) -> (r: Result<
        Option<Order>,
        rusqlite::Error,
    >)
        requires
            !self@.in_tx,
        ensures
            r matches Ok(Some(o)) ==> o.id == order_id && joined_row(
                self@.committed,
                table_number,
                o,
            ),
            r matches Ok(None) ==> !(self@.committed.orders.contains_key(order_id)
                && self@.committed.orders[order_id].table_number == table_number
                && self@.committed.menu.contains_key(
                self@.committed.orders[order_id].menu_item_id,
            )),
    {
        let res = self.conn.query_row(
            "SELECT o.id, o.minutes_to_cook, m.id, m.name FROM orders AS o \
             INNER JOIN menu_items AS m ON m.id = o.menu_item_id \
             WHERE o.id = ?1 AND o.table_number = ?2",
            (order_id, table_number),
            |row| Ok(Order { id: row.get(0)?, minutes_to_cook: row.get(1)?,
                menu_item_id: row.get(2)?, menu_item_name: row.get(3)? }),
        );
        match res {
            Ok(o) => Ok(Some(o)),
            Err(rusqlite::Error::QueryReturnedNoRows) => Ok(None),
            Err(e) => Err(e),
        }
    }

    /// Relies on `rusqlite::Connection::execute`: a DELETE keyed on order id
    /// and table number removes the row if it is there under that table and
    /// is a no-op otherwise.
    #[verifier::external_body]
    pub fn delete_order_row(&mut self, table_number: u32, order_id: u32) -> (r: Result<
        (),
        rusqlite::Error,
    >)
        requires
            !old(self)@.in_tx,
        ensures
            !final(self)@.in_tx,
            final(self)@.pending == final(self)@.committed,
            r matches Ok(_) ==> final(self)@.committed == delete_effect(
                old(self)@.committed,
                table_number,
                order_id,
            ),
            r matches Err(_) ==> final(self)@.committed == old(self)@.committed,
    {
        self.conn.execute(
            "DELETE FROM orders WHERE id = ?1 AND table_number = ?2",
            (order_id, table_number),
        )?;
        Ok(())
    }
}

} // verus!
