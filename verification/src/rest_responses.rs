//! Response bodies returned by the order service.

use vstd::prelude::*;

verus! {

/// One catalog entry.
#[derive(Clone, Debug)]
pub struct MenuItem {
    pub id: u32,
    pub name: String,
}

/// The whole catalog.
#[derive(Clone, Debug)]
pub struct MenuItems {
    pub menu_items: Vec<MenuItem>,
}

/// One placed order, joined with the name of its menu item.
#[derive(Clone, Debug)]
pub struct Order {
    pub id: u32,
    pub menu_item_id: u32,
    pub menu_item_name: String,
    pub minutes_to_cook: u32,
}

/// A set of placed orders.
#[derive(Clone, Debug)]
pub struct Orders {
    pub orders: Vec<Order>,
}

/// Mathematical image of a placed order.
pub ghost struct OrderView {
    pub id: u32,
    pub menu_item_id: u32,
    pub menu_item_name: Seq<char>,
    pub minutes_to_cook: u32,
}

impl View for Order {
    type V = OrderView;

    open spec fn view(&self) -> OrderView {
        OrderView {
            id: self.id,
            menu_item_id: self.menu_item_id,
            menu_item_name: self.menu_item_name@,
            minutes_to_cook: self.minutes_to_cook,
        }
    }
}

/// The orders of a response, as a sequence of mathematical order images.
pub open spec fn order_views(orders: Seq<Order>) -> Seq<OrderView> {
    orders.map(|i: int, o: Order| o@)
}

/// Mathematical image of a catalog entry.
pub ghost struct MenuItemView {
    pub id: u32,
    pub name: Seq<char>,
}

impl View for MenuItem {
    type V = MenuItemView;

    open spec fn view(&self) -> MenuItemView {
        MenuItemView { id: self.id, name: self.name@ }
    }
}

/// The catalog entries of a response, as their mathematical images.
pub open spec fn menu_item_views(items: Seq<MenuItem>) -> Seq<MenuItemView> {
    items.map(|i: int, m: MenuItem| m@)
}

} // verus!
