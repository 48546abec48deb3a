//! The menu of the icon in the tray: one item that quits, and one item for
//! each widget that starts moving and resizing it.

use vstd::prelude::*;
use vstd::string::*;
use crate::message::{AppMessage, AppMessageView};
use crate::text::str_eq;

verus! {

/// The identifiers of the items of the menu.
#[derive(Debug)]
pub struct TrayIcon {
    /// The item that quits.
    pub quit: String,
    /// The items of the widgets: the identifier of each is the identity of
    /// the widget's monitor.
    pub move_resize_items: Vec<String>,
}

/// A menu as a plain value.
pub struct TrayIconView {
    pub quit: Seq<char>,
    pub move_resize_items: Seq<Seq<char>>,
}

/// The characters of each of `items`, in order.
pub open spec fn item_views(items: Seq<String>) -> Seq<Seq<char>> {
    Seq::new(items.len(), |i: int| items[i]@)
}

impl View for TrayIcon {
    type V = TrayIconView;

    open spec fn view(&self) -> TrayIconView {
        TrayIconView { quit: self.quit@, move_resize_items: item_views(self.move_resize_items@) }
    }
}

/// What a message makes the menu ask for.
#[derive(Debug)]
pub enum TrayAction {
    /// Nothing.
    Nothing,
    /// End the event loop.
    Exit,
    /// Post this message.
    Send(AppMessage),
}

/// An action as a plain value.
pub enum TrayActionView {
    Nothing,
    Exit,
    Send(AppMessageView),
}

impl View for TrayAction {
    type V = TrayActionView;

    open spec fn view(&self) -> TrayActionView {
        match self {
            TrayAction::Nothing => TrayActionView::Nothing,
            TrayAction::Exit => TrayActionView::Exit,
            TrayAction::Send(message) => TrayActionView::Send(message@),
        }
    }
}

/// What `message` makes the menu ask for: the item that quits ends the event
/// loop; the item of a widget starts moving and resizing that widget.
pub open spec fn tray_action(tray: TrayIconView, message: AppMessageView) -> TrayActionView {
    match message {
        AppMessageView::MenuEvent(id) => if id == tray.quit {
            TrayActionView::Exit
        } else if tray.move_resize_items.contains(id) {
            TrayActionView::Send(AppMessageView::StartMoveResize(id))
        } else {
            TrayActionView::Nothing
        },
        _ => TrayActionView::Nothing,
    }
}

impl TrayIcon {
    /// A menu with the item that quits and no item of a widget.
    pub fn new(quit: String) -> (r: TrayIcon)
        ensures
            r@ == (TrayIconView { quit: quit@, move_resize_items: Seq::empty() }),
    {
        let r = TrayIcon { quit, move_resize_items: Vec::new() };
        assert(item_views(r.move_resize_items@) =~= Seq::empty());
        r
    }

    /// Takes the items of the widgets out of the menu, and gives them.
    pub fn destroy_items_for_switchers(&mut self) -> (r: Vec<String>)
        ensures
            item_views(r@) == old(self)@.move_resize_items,
            final(self)@ == (TrayIconView { move_resize_items: Seq::empty(), ..old(self)@ }),
    {
        let mut items: Vec<String> = Vec::new();
        std::mem::swap(&mut items, &mut self.move_resize_items);
        assert(item_views(self.move_resize_items@) =~= Seq::empty());
        items
    }

    /// Puts one item into the menu for each of `switchers`.
    pub fn create_items_for_switchers(&mut self, switchers: Vec<String>)
        ensures
            final(self)@ == (TrayIconView {
                move_resize_items: old(self)@.move_resize_items + item_views(switchers@),
                ..old(self)@
            }),
    {
        let ghost before = self@.move_resize_items;
        let n: usize = switchers.len();
        let mut i: usize = 0;
        while i < n
            invariant
                0 <= i <= n,
                n == switchers@.len(),
                self.quit@ == old(self).quit@,
                item_views(self.move_resize_items@) == before + item_views(switchers@).subrange(
                    0,
                    i as int,
                ),
            decreases n - i,
        {
            let ghost so_far = item_views(self.move_resize_items@);
            self.move_resize_items.push(switchers[i].clone());
            assert(item_views(self.move_resize_items@) =~= so_far.push(switchers@[i as int]@));
            assert(item_views(switchers@).subrange(0, i + 1) =~= item_views(switchers@).subrange(
                0,
                i as int,
            ).push(switchers@[i as int]@));
            assert(so_far.push(switchers@[i as int]@) =~= before + item_views(
                switchers@,
            ).subrange(0, i + 1));
            i = i + 1;
        }
        assert(item_views(switchers@).subrange(0, n as int) =~= item_views(switchers@));
    }

    /// What a message of the event loop makes the menu ask for.
    pub fn handle_app_message(&self, message: &AppMessage) -> (r: TrayAction)
        ensures
            r@ == tray_action(self@, message@),
    {
        match message {
            AppMessage::MenuEvent(id) => {
                if str_eq(id.as_str(), self.quit.as_str()) {
                    return TrayAction::Exit;
                }
                let n: usize = self.move_resize_items.len();
                let mut i: usize = 0;
                while i < n
                    invariant
                        0 <= i <= n,
                        n == self.move_resize_items@.len(),
                        message@ == AppMessageView::MenuEvent(id@),
                        id@ != self.quit@,
                        forall|k: int| 0 <= k < i ==> item_views(self.move_resize_items@)[k] != id@,
                    decreases n - i,
                {
                    if str_eq(self.move_resize_items[i].as_str(), id.as_str()) {
                        assert(item_views(self.move_resize_items@)[i as int] == id@);
                        assert(item_views(self.move_resize_items@).contains(id@));
                        return TrayAction::Send(AppMessage::StartMoveResize(id.clone()));
                    }
                    i = i + 1;
                }
                TrayAction::Nothing
            },
            _ => TrayAction::Nothing,
        }
    }
}

} // verus!
