//! The dialog that moves and resizes a widget. It edits a working copy of
//! the widget's geometry and shows it on the host window at once; `save`
//! commits the copy, `cancel` goes back to the geometry at entry.

use vstd::prelude::*;
use vstd::string::*;
use crate::message::{AppMessage, AppMessageView, WindowEvent, WindowId};
use crate::window_registry_info::{
    lemma_save_then_load, loaded_info, stored_fields, Placement, StoredFields, StoredFieldsView,
    WindowRegistryInfo,
};

verus! {

/// The state of one dialog.
#[derive(Debug)]
pub struct ResizeWindowView {
    /// The widget that is moved and resized.
    pub window_id: WindowId,
    /// The dialog's own window.
    pub self_window_id: WindowId,
    /// The host window of the widget.
    pub host: isize,
    /// The geometry at entry.
    pub initial_info: WindowRegistryInfo,
    /// The working copy.
    pub info: WindowRegistryInfo,
    /// The key of the widget's record in the store.
    pub subkey: String,
}

/// A dialog as a plain value.
pub struct ResizeWindowModel {
    pub window_id: WindowId,
    pub self_window_id: WindowId,
    pub host: isize,
    pub initial_info: WindowRegistryInfo,
    pub info: WindowRegistryInfo,
    pub subkey: Seq<char>,
}

impl View for ResizeWindowView {
    type V = ResizeWindowModel;

    open spec fn view(&self) -> ResizeWindowModel {
        ResizeWindowModel {
            window_id: self.window_id,
            self_window_id: self.self_window_id,
            host: self.host,
            initial_info: self.initial_info,
            info: self.info,
            subkey: self.subkey@,
        }
    }
}

/// What committing the working copy takes, in this order; where a step
/// fails, the later ones are left out and the host goes back instead.
#[derive(Debug)]
pub struct ResizeCommit {
    /// The host window, and where it is put.
    pub host: isize,
    pub placement: Placement,
    /// The key of the record, and its fields to write.
    pub subkey: String,
    pub fields: StoredFields,
    /// The message that tells the widget of its new geometry.
    pub notify: AppMessage,
    /// The message that closes the dialog.
    pub close: AppMessage,
}

/// A commit as a plain value.
pub struct ResizeCommitView {
    pub host: isize,
    pub placement: Placement,
    pub subkey: Seq<char>,
    pub fields: StoredFieldsView,
    pub notify: AppMessageView,
    pub close: AppMessageView,
}

impl View for ResizeCommit {
    type V = ResizeCommitView;

    open spec fn view(&self) -> ResizeCommitView {
        ResizeCommitView {
            host: self.host,
            placement: self.placement,
            subkey: self.subkey@,
            fields: self.fields@,
            notify: self.notify@,
            close: self.close@,
        }
    }
}

/// What going back takes: where the host window is put, the message that
/// gives the widget the geometry at entry again, and the message that closes
/// the dialog.
#[derive(Debug)]
pub struct ResizeRollback {
    pub host: isize,
    pub placement: Placement,
    pub notify: AppMessage,
    pub close: AppMessage,
}

/// Going back as a plain value.
pub struct ResizeRollbackView {
    pub host: isize,
    pub placement: Placement,
    pub notify: AppMessageView,
    pub close: AppMessageView,
}

impl View for ResizeRollback {
    type V = ResizeRollbackView;

    open spec fn view(&self) -> ResizeRollbackView {
        ResizeRollbackView {
            host: self.host,
            placement: self.placement,
            notify: self.notify@,
            close: self.close@,
        }
    }
}

impl ResizeWindowModel {
    /// The geometry that a commit makes the widget's own: the working copy
    /// with its automatic sizes as measured.
    pub open spec fn committed(self, content_width: i32, container_height: i32) -> WindowRegistryInfo {
        self.info.resolved(content_width, container_height)
    }

    /// The geometry that going back gives the widget again: that at entry,
    /// with its automatic sizes as measured.
    pub open spec fn rolled_back(self, content_width: i32, container_height: i32) -> WindowRegistryInfo {
        self.initial_info.resolved(content_width, container_height)
    }

    /// What a commit takes.
    pub open spec fn commit(self, content_width: i32, container_height: i32) -> ResizeCommitView {
        let info = self.committed(content_width, container_height);
        ResizeCommitView {
            host: self.host,
            placement: info.placement(),
            subkey: self.subkey,
            fields: stored_fields(info),
            notify: AppMessageView::NotifyWindowInfoChanges(self.window_id, info),
            close: AppMessageView::CloseWindow(self.self_window_id),
        }
    }

    /// What going back takes.
    pub open spec fn rollback(self, content_width: i32, container_height: i32) -> ResizeRollbackView {
        let info = self.rolled_back(content_width, container_height);
        ResizeRollbackView {
            host: self.host,
            placement: info.placement(),
            notify: AppMessageView::NotifyWindowInfoChanges(self.window_id, info),
            close: AppMessageView::CloseWindow(self.self_window_id),
        }
    }
}

impl ResizeWindowView {
    /// The dialog `self_window_id` for the widget `window_id`, whose
    /// geometry at entry is `initial_info`.
    pub fn new(
        window_id: WindowId,
        self_window_id: WindowId,
        host: isize,
        initial_info: WindowRegistryInfo,
        subkey: String,
    ) -> (r: ResizeWindowView)
        ensures
            r@ == (ResizeWindowModel {
                window_id,
                self_window_id,
                host,
                initial_info,
                info: initial_info,
                subkey: subkey@,
            }),
    {
        ResizeWindowView { window_id, self_window_id, host, initial_info, info: initial_info, subkey }
    }

    /// Shows the working copy on the host window: takes the measured sizes
    /// into it and gives the placement. The geometry at entry stays.
    pub fn update(&mut self, content_width: i32, container_height: i32) -> (r: Placement)
        ensures
            final(self)@ == (ResizeWindowModel {
                info: old(self)@.info.resolved(content_width, container_height),
                ..old(self)@
            }),
            r == final(self).info.placement(),
    {
        self.info.apply(content_width, container_height)
    }

    /// Commits the working copy: the host window is placed by it, its six
    /// fields are written, the widget is told, and the dialog closes.
    pub fn save(&mut self, content_width: i32, container_height: i32) -> (r: ResizeCommit)
        ensures
            final(self)@ == (ResizeWindowModel {
                info: old(self)@.committed(content_width, container_height),
                ..old(self)@
            }),
            r@ == old(self)@.commit(content_width, container_height),
    {
        let placement = self.info.apply(content_width, container_height);
        ResizeCommit {
            host: self.host,
            placement,
            subkey: self.subkey.clone(),
            fields: self.info.save(),
            notify: AppMessage::NotifyWindowInfoChanges(self.window_id, self.info),
            close: AppMessage::CloseWindow(self.self_window_id),
        }
    }

    /// What going back takes, as the dialog stands: the host window is
    /// placed by the geometry at entry, the widget is given that geometry
    /// again, and the dialog closes. Nothing is written.
    pub fn rollback(&self, content_width: i32, container_height: i32) -> (r: ResizeRollback)
        ensures
            r@ == self@.rollback(content_width, container_height),
    {
        let mut entry = self.initial_info;
        let placement = entry.apply(content_width, container_height);
        ResizeRollback {
            host: self.host,
            placement,
            notify: AppMessage::NotifyWindowInfoChanges(self.window_id, entry),
            close: AppMessage::CloseWindow(self.self_window_id),
        }
    }

    /// Goes back: gives what `rollback` gives, and takes the measured sizes
    /// into the geometry at entry where they are automatic.
    pub fn cancel(&mut self, content_width: i32, container_height: i32) -> (r: ResizeRollback)
        ensures
            final(self)@ == (ResizeWindowModel {
                initial_info: old(self)@.rolled_back(content_width, container_height),
                ..old(self)@
            }),
            r@ == old(self)@.rollback(content_width, container_height),
    {
        let r = self.rollback(content_width, container_height);
        let _ = self.initial_info.apply(content_width, container_height);
        r
    }

    /// What an event of the dialog's window leads to: a request to close it
    /// goes back as `cancel` does; nothing else changes anything.
    pub fn handle_window_event(
        &mut self,
        event: WindowEvent,
        content_width: i32,
        container_height: i32,
    ) -> (r: Option<ResizeRollback>)
        ensures
            event == WindowEvent::CloseRequested ==> final(self)@ == (ResizeWindowModel {
                initial_info: old(self)@.rolled_back(content_width, container_height),
                ..old(self)@
            }) && rollback_view(r) == Some(old(self)@.rollback(content_width, container_height)),
            event != WindowEvent::CloseRequested ==> r is None && final(self)@ == old(self)@,
    {
        match event {
            WindowEvent::CloseRequested => Some(self.cancel(content_width, container_height)),
            _ => None,
        }
    }
}

/// The view of a rollback that may be missing.
pub open spec fn rollback_view(r: Option<ResizeRollback>) -> Option<ResizeRollbackView> {
    match r {
        Some(r) => Some(r@),
        None => None,
    }
}

/// Going back after any edits places the host window by the geometry at
/// entry, and gives the widget that geometry again: the position and each
/// size that is not automatic are those at entry, whatever the working copy
/// became; a size that is automatic is the measured one.
pub proof fn lemma_cancel_restores_entry(
    entry: WindowRegistryInfo,
    edited: WindowRegistryInfo,
    session: ResizeWindowModel,
    content_width: i32,
    container_height: i32,
)
    requires
        session.initial_info == entry,
        session.info == edited,
    ensures
        session.rolled_back(content_width, container_height).placement().x == entry.x,
        session.rolled_back(content_width, container_height).placement().y == entry.y,
        !entry.auto_width ==> session.rolled_back(content_width, container_height).placement().width
            == entry.width,
        !entry.auto_height ==> session.rolled_back(
            content_width,
            container_height,
        ).placement().height == entry.height,
        session.rolled_back(content_width, container_height).auto_width == entry.auto_width,
        session.rolled_back(content_width, container_height).auto_height == entry.auto_height,
        session.rollback(content_width, container_height).placement == entry.resolved(
            content_width,
            container_height,
        ).placement(),
        session.rollback(content_width, container_height).notify
            == AppMessageView::NotifyWindowInfoChanges(
            session.window_id,
            entry.resolved(content_width, container_height),
        ),
        !entry.auto_width && !entry.auto_height ==> entry.resolved(content_width, container_height)
            == entry,
{
}

/// What a commit writes is loaded again as the geometry that it made the
/// widget's own: exactly the values of the working copy, with the automatic
/// sizes as measured.
pub proof fn lemma_commit_then_load(
    session: ResizeWindowModel,
    content_width: i32,
    container_height: i32,
)
    ensures
        loaded_info(session.commit(content_width, container_height).fields) == session.committed(
            content_width,
            container_height,
        ),
        session.commit(content_width, container_height).notify
            == AppMessageView::NotifyWindowInfoChanges(
            session.window_id,
            session.committed(content_width, container_height),
        ),
        !session.info.auto_width ==> session.committed(content_width, container_height).width
            == session.info.width,
        !session.info.auto_height ==> session.committed(content_width, container_height).height
            == session.info.height,
        session.committed(content_width, container_height).x == session.info.x,
        session.committed(content_width, container_height).y == session.info.y,
{
    lemma_save_then_load(session.committed(content_width, container_height));
}

} // verus!
