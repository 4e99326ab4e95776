//! The book: chapters, separators and part titles, and their views.
use vstd::prelude::*;
use crate::text::{opt_text, texts};

verus! {

/// A chapter of a book: its text, where it comes from and where it goes, its
/// place in the numbering, and the items below it.
#[derive(Debug, PartialEq, Default)]
pub struct Chapter {
    pub name: String,
    pub content: String,
    pub number: Option<Vec<u32>>,
    pub sub_items: Vec<BookItem>,
    pub path: Option<String>,
    pub source_path: Option<String>,
    pub parent_names: Vec<String>,
}

/// One entry of a book.
#[derive(Debug, PartialEq)]
pub enum BookItem {
    Chapter(Chapter),
    Separator,
    PartTitle(String),
}

/// A book: its top-level entries, in order.
#[derive(Debug, PartialEq, Default)]
pub struct Book {
    pub sections: Vec<BookItem>,
}

/// A chapter as a value: texts as sequences of characters, and the entries
/// below it as values of the same kind.
pub struct ChapterView {
    pub name: Seq<char>,
    pub content: Seq<char>,
    pub number: Option<Seq<u32>>,
    pub sub_items: Seq<ItemView>,
    pub path: Option<Seq<char>>,
    pub source_path: Option<Seq<char>>,
    pub parent_names: Seq<Seq<char>>,
}

/// An entry of a book as a value.
pub enum ItemView {
    Chapter(ChapterView),
    Separator,
    PartTitle(Seq<char>),
}

/// The view of a chapter number.
pub open spec fn opt_number(number: Option<Vec<u32>>) -> Option<Seq<u32>> {
    match number {
        Some(n) => Some(n@),
        None => None,
    }
}

/// The views of a list of entries, in order.
pub open spec fn items_view(items: Seq<BookItem>) -> Seq<ItemView>
    decreases items,
{
    Seq::new(
        items.len(),
        |i: int|
            if 0 <= i < items.len() {
                item_view(items[i])
            } else {
                ItemView::Separator
            },
    )
}

/// The view of one entry.
pub open spec fn item_view(item: BookItem) -> ItemView
    decreases item,
{
    match item {
        BookItem::Chapter(chapter) => ItemView::Chapter(chapter_view(chapter)),
        BookItem::Separator => ItemView::Separator,
        BookItem::PartTitle(title) => ItemView::PartTitle(title@),
    }
}

/// The view of a chapter.
pub open spec fn chapter_view(chapter: Chapter) -> ChapterView
    decreases chapter,
{
    ChapterView {
        name: chapter.name@,
        content: chapter.content@,
        number: opt_number(chapter.number),
        sub_items: items_view(chapter.sub_items@),
        path: opt_text(chapter.path),
        source_path: opt_text(chapter.source_path),
        parent_names: texts(chapter.parent_names@),
    }
}

impl View for BookItem {
    type V = ItemView;

    open spec fn view(&self) -> ItemView {
        item_view(*self)
    }
}

impl View for Chapter {
    type V = ChapterView;

    open spec fn view(&self) -> ChapterView {
        chapter_view(*self)
    }
}

impl View for Book {
    type V = Seq<ItemView>;

    open spec fn view(&self) -> Seq<ItemView> {
        items_view(self.sections@)
    }
}

/// The views of an optional list of entries.
pub open spec fn opt_items(items: Option<Vec<BookItem>>) -> Option<Seq<ItemView>> {
    match items {
        Some(v) => Some(items_view(v@)),
        None => None,
    }
}

/// The view of an optional book.
pub open spec fn opt_book(book: Option<Book>) -> Option<Seq<ItemView>> {
    match book {
        Some(b) => Some(b@),
        None => None,
    }
}

/// The views of a list with one more entry at its end are the views of the
/// list with the view of that entry at their end.
pub(crate) proof fn lemma_items_view_push(items: Seq<BookItem>, item: BookItem)
    ensures
        items_view(items.push(item)) == items_view(items).push(item_view(item)),
{
}

} // verus!
