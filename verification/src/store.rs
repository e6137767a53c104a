//! The command registry: an ordered list of entries kept in one persisted
//! JSON document.
//!
//! The document is an array of objects, each with a `title` and a `command`
//! string. It is the single source of truth: a list is read from it on
//! request and handed on, and the only change ever made to it is that an
//! entry is added at its end. The store here holds the document as the
//! program around it last saw it, or the fact that there is none, and says
//! what becomes of it; reading and writing the file is that program's part.

use vstd::prelude::*;
use crate::error::LauncherError;
use crate::document::{
    empty_array_text, items_view, json_parse, json_render, members_view, parse, render, Document,
    DocumentView, Field, FieldView, Item, ItemView,
};

verus! {

/// One stored command: a label to show and the command line to run. An
/// entry has no identity beyond its place in the list.
#[derive(Clone, Debug, PartialEq, Eq)]
pub struct CommandEntry {
    pub title: String,
    pub command: String,
}

/// The list of entries, in stored order, which is the order of display.
pub type CommandList = Vec<CommandEntry>;

/// The mathematical content of an entry.
pub struct EntryView {
    pub title: Seq<char>,
    pub command: Seq<char>,
}

impl View for CommandEntry {
    type V = EntryView;

    open spec fn view(&self) -> EntryView {
        EntryView { title: self.title@, command: self.command@ }
    }
}

/// The content of a list of entries, in order.
pub open spec fn list_view(list: Seq<CommandEntry>) -> Seq<EntryView> {
    Seq::new(list.len(), |i: int| list[i]@)
}

/// What an object holds under a key: the value of its last member of that
/// name.
pub open spec fn member(members: Seq<(Seq<char>, FieldView)>, key: Seq<char>) -> Option<FieldView>
    decreases members.len(),
{
    if members.len() == 0 {
        None
    } else if members.last().0 == key {
        Some(members.last().1)
    } else {
        member(members.drop_last(), key)
    }
}

/// The string that an object holds under a key, if it holds one.
pub open spec fn text_member(members: Seq<(Seq<char>, FieldView)>, key: Seq<char>) -> Option<
    Seq<char>,
> {
    match member(members, key) {
        Some(FieldView::Text(text)) => Some(text),
        _ => None,
    }
}

/// The entry that an item stands for: an object with a string under
/// `title` and a string under `command`. Other members are ignored.
pub open spec fn entry_of(item: ItemView) -> Option<EntryView> {
    match item {
        ItemView::Object(members) => match (
            text_member(members, "title"@),
            text_member(members, "command"@),
        ) {
            (Some(title), Some(command)) => Some(EntryView { title, command }),
            _ => None,
        },
        _ => None,
    }
}

/// The list that a document stands for: it is an array, and each of its
/// items stands for an entry.
pub open spec fn entries_of(doc: DocumentView) -> Option<Seq<EntryView>> {
    match doc {
        DocumentView::List(items) => if forall|i: int|
            0 <= i < items.len() ==> (#[trigger] entry_of(items[i])) is Some {
            Some(Seq::new(items.len(), |i: int| entry_of(items[i])->0))
        } else {
            None
        },
        _ => None,
    }
}

/// The item that is stored for an entry.
pub open spec fn entry_item(entry: EntryView) -> ItemView {
    ItemView::Object(
        seq![("title"@, FieldView::Text(entry.title)), ("command"@, FieldView::Text(entry.command))],
    )
}

/// A document with one more entry at its end. Only an array can take one;
/// what it held before stays as it was, in its order.
pub open spec fn with_entry(doc: DocumentView, entry: EntryView) -> Option<DocumentView> {
    match doc {
        DocumentView::List(items) => Some(DocumentView::List(items.push(entry_item(entry)))),
        _ => None,
    }
}

/// The text of a document that holds no entries.
pub open spec fn empty_document() -> Seq<char> {
    empty_array_text()
}

/// What loading gives for the text of a document.
pub open spec fn loaded(text: Seq<char>) -> Result<Seq<EntryView>, LauncherError> {
    match json_parse(text) {
        Some(doc) => match entries_of(doc) {
            Some(list) => Ok(list),
            None => Err(LauncherError::Format),
        },
        None => Err(LauncherError::Format),
    }
}

/// The text of a document after an entry has been added to it.
pub open spec fn appended(text: Seq<char>, entry: EntryView) -> Result<Seq<char>, LauncherError> {
    match json_parse(text) {
        Some(doc) => match with_entry(doc, entry) {
            Some(next) => Ok(json_render(next)),
            None => Err(LauncherError::Format),
        },
        None => Err(LauncherError::Format),
    }
}

/// Looks a key up in the members of an object and returns the string found
/// there.
fn find_text(members: &Vec<(String, Field)>, key: &str) -> (found: Option<String>)
    ensures
        match found {
            Some(text) => text_member(members_view(members@), key@) == Some(text@),
            None => text_member(members_view(members@), key@) is None,
        },
{
    let wanted: String = key.to_owned();
    let ghost all = members_view(members@);
    let mut last: Option<usize> = None;
    let mut i: usize = 0;
    while i < members.len()
        invariant
            i <= members.len(),
            wanted@ == key@,
            all == members_view(members@),
            match last {
                Some(j) => j < i && member(all.take(i as int), key@) == Some(all[j as int].1),
                None => member(all.take(i as int), key@) is None,
            },
        decreases members.len() - i,
    {
        proof {
            assert(all.take(i + 1).drop_last() =~= all.take(i as int));
            assert(all.take(i + 1).last() == all[i as int]);
        }
        if members[i].0 == wanted {
            last = Some(i);
        }
        i += 1;
    }
    proof {
        assert(all.take(members.len() as int) =~= all);
    }
    match last {
        Some(j) => match &members[j].1 {
            Field::Text(text) => Some(text.clone()),
            Field::Other(_) => None,
        },
        None => None,
    }
}

/// Reads one item of the document as an entry.
pub fn read_entry(item: &Item) -> (entry: Option<CommandEntry>)
    ensures
        match entry {
            Some(read) => entry_of(item@) == Some(read@),
            None => entry_of(item@) is None,
        },
{
    match item {
        Item::Object(members) => {
            let title = find_text(members, "title");
            let command = find_text(members, "command");
            match (title, command) {
                (Some(title), Some(command)) => Some(CommandEntry { title, command }),
                _ => None,
            }
        },
        Item::Other(_) => None,
    }
}

/// Reads a document as the list of entries that it stands for. A document
/// that is no array, or that holds an item that is no entry, is malformed.
pub fn read_entries(doc: &Document) -> (result: Result<CommandList, LauncherError>)
    ensures
        match result {
            Ok(list) => entries_of(doc@) == Some(list_view(list@)),
            Err(error) => error == LauncherError::Format && entries_of(doc@) is None,
        },
{
    match doc {
        Document::List(items) => {
            let ghost all = items_view(items@);
            let mut list: Vec<CommandEntry> = Vec::new();
            let mut i: usize = 0;
            while i < items.len()
                invariant
                    i <= items.len(),
                    all == items_view(items@),
                    doc@ == DocumentView::List(all),
                    list@.len() == i,
                    forall|j: int|
                        #![trigger entry_of(all[j])]
                        #![trigger list@[j]]
                        0 <= j < i ==> entry_of(all[j]) == Some(list@[j]@),
                decreases items.len() - i,
            {
                match read_entry(&items[i]) {
                    Some(entry) => {
                        list.push(entry);
                    },
                    None => {
                        assert(entry_of(all[i as int]) is None);
                        return Err(LauncherError::Format);
                    },
                }
                i += 1;
            }
            proof {
                assert(entries_of(doc@) is Some);
                assert(list_view(list@) =~= entries_of(doc@)->0);
            }
            Ok(list)
        },
        Document::Other(_) => Err(LauncherError::Format),
    }
}

/// Builds the item that is stored for an entry.
pub fn new_item(title: &str, command: &str) -> (item: Item)
    ensures
        item@ == entry_item(EntryView { title: title@, command: command@ }),
{
    let mut members: Vec<(String, Field)> = Vec::new();
    members.push(("title".to_owned(), Field::Text(title.to_owned())));
    members.push(("command".to_owned(), Field::Text(command.to_owned())));
    proof {
        assert(members_view(members@) =~= seq![
            ("title"@, FieldView::Text(title@)),
            ("command"@, FieldView::Text(command@)),
        ]);
    }
    Item::Object(members)
}

/// Adds an entry at the end of a document. Only an array can take one.
pub fn push_entry(doc: Document, title: &str, command: &str) -> (result: Result<
    Document,
    LauncherError,
>)
    ensures
        match result {
            Ok(next) => with_entry(doc@, EntryView { title: title@, command: command@ }) == Some(
                next@,
            ),
            Err(error) => error == LauncherError::Format && with_entry(
                doc@,
                EntryView { title: title@, command: command@ },
            ) is None,
        },
{
    match doc {
        Document::List(items) => {
            let mut items = items;
            let ghost before = items_view(items@);
            items.push(new_item(title, command));
            proof {
                assert(items_view(items@) =~= before.push(
                    entry_item(EntryView { title: title@, command: command@ }),
                ));
            }
            Ok(Document::List(items))
        },
        Document::Other(_) => Err(LauncherError::Format),
    }
}

/// The content of a document's text, where there is a document.
pub open spec fn text_view(document: Option<String>) -> Option<Seq<char>> {
    match document {
        Some(text) => Some(text@),
        None => None,
    }
}

/// The content of what a load returns.
pub open spec fn load_view(result: Result<CommandList, LauncherError>) -> Result<
    Seq<EntryView>,
    LauncherError,
> {
    match result {
        Ok(list) => Ok(list_view(list@)),
        Err(error) => Err(error),
    }
}

/// The registry's persisted document as the program last saw it: its text,
/// or nothing where no document exists yet.
pub struct CommandStore {
    document: Option<String>,
}

impl View for CommandStore {
    type V = Option<Seq<char>>;

    closed spec fn view(&self) -> Option<Seq<char>> {
        text_view(self.document)
    }
}

impl CommandStore {
    /// A store over the document as it was found.
    pub fn new(document: Option<String>) -> (store: Self)
        ensures
            store@ == text_view(document),
    {
        CommandStore { document }
    }

    /// The text of the document as it should now be persisted.
    pub fn document(&self) -> (text: Option<&str>)
        ensures
            match text {
                Some(text) => self@ == Some(text@),
                None => self@ is None,
            },
    {
        match &self.document {
            Some(text) => Some(text.as_str()),
            None => None,
        }
    }

    /// Reads the list of entries.
    ///
    /// Where no document exists, one that holds an empty list is created
    /// first, so that the first run never fails. A document that exists is
    /// never changed by loading, whether it is well formed or not; the one
    /// that was created loads as the empty list again.
    pub fn load(&mut self) -> (result: Result<CommandList, LauncherError>)
        ensures
            match old(self)@ {
                None => final(self)@ == Some(empty_document()) && load_view(result) == Ok::<
                    Seq<EntryView>,
                    LauncherError,
                >(Seq::empty()),
                Some(text) => final(self)@ == old(self)@ && load_view(result) == loaded(text),
            },
            old(self)@ == Some(empty_document()) ==> load_view(result) == Ok::<
                Seq<EntryView>,
                LauncherError,
            >(Seq::empty()),
            result is Err ==> final(self)@ == old(self)@,
    {
        match &self.document {
            None => {
                self.document = Some("[]".to_owned());
                let list: Vec<CommandEntry> = Vec::new();
                assert(list_view(list@) =~= Seq::empty());
                Ok(list)
            },
            Some(text) => match parse(text.as_str()) {
                Ok(doc) => {
                    proof {
                        lemma_empty_array_is_empty_list();
                    }
                    read_entries(&doc)
                },
                Err(_) => Err(LauncherError::Format),
            },
        }
    }

    /// Adds an entry at the end of the stored list.
    ///
    /// The document must exist and be an array; it is read, extended and
    /// written anew as a whole. Nothing is created here: without a document
    /// the call fails. A call that fails leaves the document as it was.
    pub fn append(&mut self, title: &str, command: &str) -> (result: Result<(), LauncherError>)
        ensures
            match old(self)@ {
                None => result == Err::<(), LauncherError>(LauncherError::Persistence),
                Some(text) => match appended(
                    text,
                    EntryView { title: title@, command: command@ },
                ) {
                    Ok(next) => result is Ok && final(self)@ == Some(next),
                    Err(error) => result == Err::<(), LauncherError>(error),
                },
            },
            result is Err ==> final(self)@ == old(self)@,
    {
        let written: Result<String, LauncherError> = match &self.document {
            None => Err(LauncherError::Persistence),
            Some(text) => match parse(text.as_str()) {
                Ok(doc) => match push_entry(doc, title, command) {
                    Ok(next) => Ok(render(&next)),
                    Err(error) => Err(error),
                },
                Err(_) => Err(LauncherError::Format),
            },
        };
        match written {
            Ok(text) => {
                self.document = Some(text);
                Ok(())
            },
            Err(error) => Err(error),
        }
    }
}

/// The item stored for an entry stands for that entry.
pub proof fn lemma_entry_item_reads_back(entry: EntryView)
    ensures
        entry_of(entry_item(entry)) == Some(entry),
{
    reveal_strlit("title");
    reveal_strlit("command");
    let members = entry_item(entry)->Object_0;
    assert(members.len() == 2);
    assert(members.last() == members[1]);
    assert("title"@.len() != "command"@.len());
    assert(members.drop_last() =~= seq![members[0]]);
    assert(members.drop_last().last() == members[0]);
    assert(member(members.drop_last(), "title"@) == Some(members[0].1));
    assert(member(members, "title"@) == Some(members[0].1));
    assert(member(members, "command"@) == Some(members[1].1));
}

/// An empty array stands for the empty list.
pub proof fn lemma_empty_array_is_empty_list()
    ensures
        entries_of(DocumentView::List(Seq::empty())) == Some(Seq::<EntryView>::empty()),
{
    assert(entries_of(DocumentView::List(Seq::empty()))->0 =~= Seq::<EntryView>::empty());
}

/// Adding an entry to a document that stands for a list gives a document
/// that stands for the same list with the entry at its end: what was there
/// before is unchanged and in its order.
pub proof fn lemma_append_then_read(doc: DocumentView, entry: EntryView)
    requires
        entries_of(doc) is Some,
    ensures
        with_entry(doc, entry) is Some,
        entries_of(with_entry(doc, entry)->0) == Some(entries_of(doc)->0.push(entry)),
{
    lemma_entry_item_reads_back(entry);
    let items = doc->List_0;
    let next = items.push(entry_item(entry));
    assert forall|i: int| 0 <= i < next.len() implies (#[trigger] entry_of(next[i])) is Some by {
        if i < items.len() {
            assert(next[i] == items[i]);
        }
    }
    assert(entries_of(DocumentView::List(next))->0 =~= entries_of(doc)->0.push(entry));
}

/// Appending to a document that loads, and loading what was written, gives
/// the old list with the new entry at its end, provided that the text
/// written for the new document reads back as that document.
pub proof fn lemma_append_then_load(text: Seq<char>, entry: EntryView)
    ensures
        loaded(text) is Ok ==> appended(text, entry) is Ok,
        loaded(text) is Ok && json_parse(appended(text, entry)->Ok_0) == with_entry(
            json_parse(text)->0,
            entry,
        ) ==> loaded(appended(text, entry)->Ok_0) == Ok::<Seq<EntryView>, LauncherError>(
            loaded(text)->Ok_0.push(entry),
        ),
{
    if loaded(text) is Ok {
        lemma_append_then_read(json_parse(text)->0, entry);
    }
}

} // verus!
