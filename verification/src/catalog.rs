//! The canonical picture of what the remote document library returns.

use vstd::prelude::*;

verus! {

/// Marks an item as a folder.
#[derive(Debug, Clone, Copy, PartialEq, Eq)]
pub struct Folder {
    pub child_count: u32,
}

/// Marks an item as a file.
#[derive(Debug, Clone, PartialEq, Eq)]
pub struct File {
    pub mime_type: String,
}

/// One entry of the document library, as the remote API describes it.
///
/// A well-formed entry carries exactly one of `folder` and `file`. One with
/// neither is of unknown kind and appears in no listing.
#[derive(Debug, Clone, PartialEq, Eq)]
pub struct Item {
    pub created_date_time: String,
    pub e_tag: Option<String>,
    pub path: Option<String>,
    pub id: String,
    pub last_modified_date_time: Option<String>,
    pub name: String,
    pub web_url: String,
    pub folder: Option<Folder>,
    pub file: Option<File>,
    pub size: Option<u64>,
}

/// The entries returned by one listing or search call, in the remote order.
#[derive(Debug, Clone, PartialEq, Eq)]
pub struct SharePointObjects {
    pub items: Vec<Item>,
}

/// The text of an optional string.
pub open spec fn text_of(s: Option<String>) -> Option<Seq<char>> {
    match s {
        Some(t) => Some(t@),
        None => None,
    }
}

/// The text of an optional string, the empty text standing for an absent one.
pub open spec fn text_or_empty(s: Option<Seq<char>>) -> Seq<char> {
    match s {
        Some(t) => t,
        None => Seq::empty(),
    }
}

/// Mathematical model of an [`Item`].
pub struct ItemView {
    pub id: Seq<char>,
    pub name: Seq<char>,
    pub web_url: Seq<char>,
    pub created_at: Seq<char>,
    pub last_modified_at: Option<Seq<char>>,
    pub e_tag: Option<Seq<char>>,
    pub path: Option<Seq<char>>,
    pub size: Option<u64>,
    pub child_count: Option<u32>,
    pub mime_type: Option<Seq<char>>,
}

impl ItemView {
    /// The entry is marked as a folder.
    pub open spec fn is_folder(self) -> bool {
        self.child_count is Some
    }

    /// The entry is marked as a file.
    pub open spec fn is_file(self) -> bool {
        self.mime_type is Some
    }

    /// The size reported for the entry, zero where none was.
    pub open spec fn size_or_zero(self) -> u64 {
        match self.size {
            Some(n) => n,
            None => 0,
        }
    }

    /// Exactly one of the two kind markers is present.
    pub open spec fn has_one_kind(self) -> bool {
        self.is_folder() != self.is_file()
    }
}

impl View for Item {
    type V = ItemView;

    open spec fn view(&self) -> ItemView {
        ItemView {
            id: self.id@,
            name: self.name@,
            web_url: self.web_url@,
            created_at: self.created_date_time@,
            last_modified_at: text_of(self.last_modified_date_time),
            e_tag: text_of(self.e_tag),
            path: text_of(self.path),
            size: self.size,
            child_count: match self.folder {
                Some(f) => Some(f.child_count),
                None => None,
            },
            mime_type: match self.file {
                Some(f) => Some(f.mime_type@),
                None => None,
            },
        }
    }
}

impl View for SharePointObjects {
    type V = Seq<ItemView>;

    open spec fn view(&self) -> Seq<ItemView> {
        self.items@.map_values(|i: Item| i@)
    }
}

impl Item {
    /// Whether the entry is marked as a folder.
    pub fn is_folder(&self) -> (b: bool)
        ensures
            b == self@.is_folder(),
    {
        self.folder.is_some()
    }

    /// Whether the entry is marked as a file.
    pub fn is_file(&self) -> (b: bool)
        ensures
            b == self@.is_file(),
    {
        self.file.is_some()
    }

    /// The reported size, zero where the remote API gave none.
    pub fn size_or_zero(&self) -> (n: u64)
        ensures
            n == self@.size_or_zero(),
    {
        match self.size {
            Some(n) => n,
            None => 0,
        }
    }
}

} // verus!
