//! The entries of the mail client's menus, and the position of each entry
//! within its menu.

use vstd::prelude::*;
use vstd::std_specs::convert::FromSpecImpl;

verus! {

/// The entries of the top menu, in display order.
#[derive(Copy, Clone, Debug, PartialEq, Eq, Structural)]
pub enum TopMenuItem {
    View,
    Write,
    Settings,
}

impl From<TopMenuItem> for usize {
    fn from(input: TopMenuItem) -> (position: usize) {
        match input {
            TopMenuItem::View => 0,
            TopMenuItem::Write => 1,
            TopMenuItem::Settings => 2,
        }
    }
}

impl FromSpecImpl<TopMenuItem> for usize {
    open spec fn obeys_from_spec() -> bool {
        true
    }

    open spec fn from_spec(input: TopMenuItem) -> usize {
        match input {
            TopMenuItem::View => 0,
            TopMenuItem::Write => 1,
            TopMenuItem::Settings => 2,
        }
    }
}

/// The mail folders, in display order.
#[derive(Copy, Clone, Debug, PartialEq, Eq, Structural)]
pub enum FolderItem {
    Inbox,
    Sent,
    Trash,
    All,
}

impl From<FolderItem> for usize {
    fn from(input: FolderItem) -> (position: usize) {
        match input {
            FolderItem::Inbox => 0,
            FolderItem::Sent => 1,
            FolderItem::Trash => 2,
            FolderItem::All => 3,
        }
    }
}

impl FromSpecImpl<FolderItem> for usize {
    open spec fn obeys_from_spec() -> bool {
        true
    }

    open spec fn from_spec(input: FolderItem) -> usize {
        match input {
            FolderItem::Inbox => 0,
            FolderItem::Sent => 1,
            FolderItem::Trash => 2,
            FolderItem::All => 3,
        }
    }
}

/// The blocks of the write screen that can take the input focus.
#[derive(Copy, Clone, Debug, PartialEq, Eq, Structural)]
pub enum WriteBlock {
    Content,
    Contacts,
    Attachments,
}

/// The entries of the write screen's menu, in display order.
#[derive(Copy, Clone, Debug)]
pub enum WriteMenuItem {
    Clear,
    AddAttachment,
    Send,
}

impl From<WriteMenuItem> for usize {
    fn from(input: WriteMenuItem) -> (position: usize) {
        match input {
            WriteMenuItem::Clear => 0,
            WriteMenuItem::AddAttachment => 1,
            WriteMenuItem::Send => 2,
        }
    }
}

impl FromSpecImpl<WriteMenuItem> for usize {
    open spec fn obeys_from_spec() -> bool {
        true
    }

    open spec fn from_spec(input: WriteMenuItem) -> usize {
        match input {
            WriteMenuItem::Clear => 0,
            WriteMenuItem::AddAttachment => 1,
            WriteMenuItem::Send => 2,
        }
    }
}

/// The entries of the view screen's menu, in display order.
#[derive(Copy, Clone, Debug)]
pub enum ViewMenuItem {
    Delete,
    Reply,
    Download,
}

impl From<ViewMenuItem> for usize {
    fn from(input: ViewMenuItem) -> (position: usize) {
        match input {
            ViewMenuItem::Delete => 0,
            ViewMenuItem::Reply => 1,
            ViewMenuItem::Download => 2,
        }
    }
}

impl FromSpecImpl<ViewMenuItem> for usize {
    open spec fn obeys_from_spec() -> bool {
        true
    }

    open spec fn from_spec(input: ViewMenuItem) -> usize {
        match input {
            ViewMenuItem::Delete => 0,
            ViewMenuItem::Reply => 1,
            ViewMenuItem::Download => 2,
        }
    }
}

} // verus!
