//! Internal chapters: removing them, stripping the prefix from their output
//! paths, and numbering the chapters anew.
use vstd::prelude::*;
use vstd::utf8::encode_utf8;
use crate::book::{
    chapter_view, item_view, items_view, lemma_items_view_push, Book, BookItem, Chapter,
    ChapterView, ItemView,
};
use crate::context::{Chapters, ChaptersView, Children};
use crate::path::{file_name, file_name_of, set_file_name, with_file_name};
use crate::text::{lemma_prefix_in_bytes, starts_with, strip_prefix};

verus! {

/// The settings that this module works under.
pub type Config = Chapters;

/// Whether a chapter is internal: it has a source path, and the file name of
/// that path begins with `prefix`, character for character.
pub open spec fn is_internal(chapter: ChapterView, prefix: Seq<char>) -> bool {
    match chapter.source_path {
        Some(path) => match file_name_of(path) {
            Some(name) => prefix.is_prefix_of(name),
            None => false,
        },
        None => false,
    }
}

/// `path` with `prefix` taken from the front of its file name; `path` itself
/// where its file name does not begin with `prefix`, or where it has none.
pub open spec fn prefix_removed(path: Seq<char>, prefix: Seq<char>) -> Seq<char> {
    match file_name_of(path) {
        Some(name) => if prefix.is_prefix_of(name) {
            with_file_name(path, name.skip(prefix.len() as int))
        } else {
            path
        },
        None => path,
    }
}

/// An internal chapter that stays for the sake of its children: it has no
/// text and no paths any more, and `sub_items` below it.
pub open spec fn placeholder(chapter: ChapterView, sub_items: Seq<ItemView>) -> ChapterView {
    ChapterView { content: Seq::empty(), path: None, source_path: None, sub_items, ..chapter }
}

/// What stays of one entry when internal chapters are removed, if anything
/// does. A chapter that is not internal stays, with what stays of its
/// children. An internal chapter goes with all that is below it where
/// `children` says so; else it stays as a placeholder if one child stays, and
/// goes if none does. Any other entry stays as it is.
pub open spec fn retained(item: ItemView, prefix: Seq<char>, children: Children) -> Option<
    ItemView,
>
    decreases item,
{
    match item {
        ItemView::Chapter(chapter) => {
            if !is_internal(chapter, prefix) {
                Some(
                    ItemView::Chapter(
                        ChapterView {
                            sub_items: without_internal(chapter.sub_items, prefix, children),
                            ..chapter
                        },
                    ),
                )
            } else if children == Children::Remove {
                None
            } else {
                let sub_items = without_internal(chapter.sub_items, prefix, children);
                if sub_items.len() == 0 {
                    None
                } else {
                    Some(ItemView::Chapter(placeholder(chapter, sub_items)))
                }
            }
        },
        other => Some(other),
    }
}

/// The entries that stay when internal chapters are removed, in their order.
pub open spec fn without_internal(items: Seq<ItemView>, prefix: Seq<char>, children: Children) -> Seq<
    ItemView,
>
    decreases items,
{
    if items.len() == 0 {
        Seq::empty()
    } else {
        match retained(items.last(), prefix, children) {
            Some(kept) => without_internal(items.drop_last(), prefix, children).push(kept),
            None => without_internal(items.drop_last(), prefix, children),
        }
    }
}

/// Whether no chapter among the entries or below them is internal.
pub open spec fn free_of_internal(items: Seq<ItemView>, prefix: Seq<char>) -> bool
    decreases items,
{
    forall|i: int|
        0 <= i < items.len() ==> (#[trigger] items[i] matches ItemView::Chapter(chapter)
            ==> !is_internal(chapter, prefix) && free_of_internal(chapter.sub_items, prefix))
}

/// The output path of a chapter when prefixes are stripped: that of an
/// internal chapter loses the prefix, any other stays.
pub open spec fn stripped_path(chapter: ChapterView, prefix: Seq<char>) -> Option<Seq<char>> {
    match chapter.path {
        Some(path) => if is_internal(chapter, prefix) {
            Some(prefix_removed(path, prefix))
        } else {
            Some(path)
        },
        None => None,
    }
}

/// One entry with the prefix stripped from the output path of each internal
/// chapter in it.
pub open spec fn stripped_item(item: ItemView, prefix: Seq<char>) -> ItemView
    decreases item,
{
    match item {
        ItemView::Chapter(chapter) => ItemView::Chapter(
            ChapterView {
                path: stripped_path(chapter, prefix),
                sub_items: stripped(chapter.sub_items, prefix),
                ..chapter
            },
        ),
        other => other,
    }
}

/// The same entries, with the prefix stripped from the output path of each
/// internal chapter among them and below them.
pub open spec fn stripped(items: Seq<ItemView>, prefix: Seq<char>) -> Seq<ItemView>
    decreases items,
{
    Seq::new(
        items.len(),
        |i: int|
            if 0 <= i < items.len() {
                stripped_item(items[i], prefix)
            } else {
                ItemView::Separator
            },
    )
}

/// How many chapters the entries hold, themselves and below them.
pub open spec fn chapter_count(items: Seq<ItemView>) -> nat
    decreases items,
{
    if items.len() == 0 {
        0
    } else {
        chapter_count(items.drop_last()) + match items.last() {
            ItemView::Chapter(chapter) => 1 + chapter_count(chapter.sub_items),
            _ => 0,
        }
    }
}

/// Whether an entry is a chapter that has a number.
pub open spec fn is_numbered(item: ItemView) -> bool {
    item matches ItemView::Chapter(chapter) && chapter.number is Some
}

/// How many of the first `n` entries are chapters that have a number.
pub open spec fn numbered_among(items: Seq<ItemView>, n: int) -> nat
    decreases n,
{
    if n <= 0 {
        0
    } else if is_numbered(items[n - 1]) {
        numbered_among(items, n - 1) + 1
    } else {
        numbered_among(items, n - 1)
    }
}

/// Whether every list of entries, the given one and each one below it, is
/// short enough for its chapters to be counted in 32 bits.
pub open spec fn numberable(items: Seq<ItemView>) -> bool
    decreases items,
{
    &&& items.len() <= u32::MAX
    &&& forall|i: int|
        0 <= i < items.len() ==> (#[trigger] items[i] matches ItemView::Chapter(chapter)
            ==> numberable(chapter.sub_items))
}

/// A chapter under the number `number`, with the chapters below it numbered
/// from there.
pub open spec fn numbered_as(chapter: ChapterView, number: Seq<u32>) -> ChapterView
    decreases chapter,
{
    ChapterView {
        number: Some(number),
        sub_items: renumbered(chapter.sub_items, number),
        ..chapter
    }
}

/// The same entries with new numbers below the number `above`. Among the
/// entries of one list the chapters that have a number are counted from one,
/// and each gets `above` with its count at the end; what is below it is
/// numbered in the same way below its new number. A chapter without a number
/// stays as it is with all that is below it, and so does any other entry.
pub open spec fn renumbered(items: Seq<ItemView>, above: Seq<u32>) -> Seq<ItemView>
    decreases items,
{
    Seq::new(
        items.len(),
        |i: int|
            if 0 <= i < items.len() {
                match items[i] {
                    ItemView::Chapter(chapter) => if chapter.number is Some {
                        ItemView::Chapter(
                            numbered_as(chapter, above.push(numbered_among(items, i + 1) as u32)),
                        )
                    } else {
                        items[i]
                    },
                    other => other,
                }
            } else {
                ItemView::Separator
            },
    )
}

/// What `internalise_chapters` makes of a book's entries: without a prefix
/// they stay as they are; with one, internal chapters are removed under
/// `remove`, lose the prefix in their output path under `strip` alone, and
/// stay as they are otherwise.
pub open spec fn chapters_internalised(items: Seq<ItemView>, remove: bool, chapters: ChaptersView) -> Seq<
    ItemView,
> {
    match chapters.prefix {
        Some(prefix) => if remove {
            without_internal(items, prefix, chapters.children)
        } else if chapters.strip {
            stripped(items, prefix)
        } else {
            items
        },
        None => items,
    }
}

/// A chapter is internal exactly where it has a source path with a file
/// name, and the bytes of that name begin with the bytes of the prefix: the
/// prefix is no pattern.
pub proof fn lemma_internal_by_bytes(chapter: ChapterView, prefix: Seq<char>)
    ensures
        is_internal(chapter, prefix) <==> (chapter.source_path matches Some(path) && (file_name_of(
            path,
        ) matches Some(name) && encode_utf8(prefix).is_prefix_of(encode_utf8(name)))),
{
    match chapter.source_path {
        Some(path) => match file_name_of(path) {
            Some(name) => {
                lemma_prefix_in_bytes(prefix, name);
            },
            None => {},
        },
        None => {},
    }
}

/// No more entries are numbered among the first `n` than there are.
proof fn lemma_numbered_among_bound(items: Seq<ItemView>, n: int)
    requires
        0 <= n,
    ensures
        numbered_among(items, n) <= n,
    decreases n,
{
    if n > 0 {
        lemma_numbered_among_bound(items, n - 1);
    }
}

/// Removing internal chapters makes no list of entries longer.
proof fn lemma_without_internal_len(items: Seq<ItemView>, prefix: Seq<char>, children: Children)
    ensures
        without_internal(items, prefix, children).len() <= items.len(),
    decreases items.len(),
{
    if items.len() > 0 {
        lemma_without_internal_len(items.drop_last(), prefix, children);
    }
}

/// When internal chapters are removed, none is left at any depth, whatever
/// becomes of their children.
pub proof fn lemma_removal_leaves_no_internal(
    items: Seq<ItemView>,
    prefix: Seq<char>,
    children: Children,
)
    ensures
        free_of_internal(without_internal(items, prefix, children), prefix),
    decreases items,
{
    if items.len() > 0 {
        let rest = without_internal(items.drop_last(), prefix, children);
        lemma_removal_leaves_no_internal(items.drop_last(), prefix, children);
        match items.last() {
            ItemView::Chapter(chapter) => {
                lemma_removal_leaves_no_internal(chapter.sub_items, prefix, children);
            },
            _ => {},
        }
        match retained(items.last(), prefix, children) {
            Some(kept) => {
                let out = rest.push(kept);
                assert forall|i: int| 0 <= i < out.len() implies (#[trigger] out[i] matches ItemView::Chapter(
                    chapter,
                ) ==> !is_internal(chapter, prefix) && free_of_internal(chapter.sub_items, prefix)) by {}
            },
            None => {},
        }
    }
}

/// What is left when internal chapters are removed can be numbered if what
/// was there could.
pub(crate) proof fn lemma_without_internal_numberable(
    items: Seq<ItemView>,
    prefix: Seq<char>,
    children: Children,
)
    requires
        numberable(items),
    ensures
        numberable(without_internal(items, prefix, children)),
    decreases items,
{
    if items.len() > 0 {
        let front = items.drop_last();
        assert forall|i: int| 0 <= i < front.len() implies (#[trigger] front[i] matches ItemView::Chapter(
            chapter,
        ) ==> numberable(chapter.sub_items)) by {}
        lemma_without_internal_numberable(front, prefix, children);
        lemma_without_internal_len(items, prefix, children);
        let rest = without_internal(front, prefix, children);
        match items.last() {
            ItemView::Chapter(chapter) => {
                lemma_without_internal_numberable(chapter.sub_items, prefix, children);
            },
            _ => {},
        }
        match retained(items.last(), prefix, children) {
            Some(kept) => {
                let out = rest.push(kept);
                assert forall|i: int| 0 <= i < out.len() implies (#[trigger] out[i] matches ItemView::Chapter(
                    chapter,
                ) ==> numberable(chapter.sub_items)) by {}
            },
            None => {},
        }
    }
}

/// Stripping prefixes keeps every list of entries numberable.
pub(crate) proof fn lemma_stripped_numberable(items: Seq<ItemView>, prefix: Seq<char>)
    requires
        numberable(items),
    ensures
        numberable(stripped(items, prefix)),
    decreases items,
{
    let out = stripped(items, prefix);
    assert forall|i: int| 0 <= i < out.len() implies (#[trigger] out[i] matches ItemView::Chapter(
        chapter,
    ) ==> numberable(chapter.sub_items)) by {
        match items[i] {
            ItemView::Chapter(chapter) => {
                lemma_stripped_numberable(chapter.sub_items, prefix);
            },
            _ => {},
        }
    }
}

/// Stripping prefixes removes nothing: every list of entries stays as long as
/// it was, and the book holds as many chapters as before.
pub proof fn lemma_strip_keeps_chapters(items: Seq<ItemView>, prefix: Seq<char>)
    ensures
        stripped(items, prefix).len() == items.len(),
        chapter_count(stripped(items, prefix)) == chapter_count(items),
    decreases items,
{
    if items.len() > 0 {
        let out = stripped(items, prefix);
        lemma_strip_keeps_chapters(items.drop_last(), prefix);
        assert(out.drop_last() =~= stripped(items.drop_last(), prefix));
        match items.last() {
            ItemView::Chapter(chapter) => {
                lemma_strip_keeps_chapters(chapter.sub_items, prefix);
            },
            _ => {},
        }
    }
}

/// Renumbering leaves alone an entry that is no chapter, and a chapter that
/// has no number, with all that is below it.
pub proof fn lemma_renumber_skips_unnumbered(items: Seq<ItemView>, above: Seq<u32>, i: int)
    requires
        0 <= i < items.len(),
        !is_numbered(items[i]),
    ensures
        renumbered(items, above)[i] == items[i],
{
}

/// Renumbering gives the chapters of one list that have a number the numbers
/// one, two and so on, in their order, each after the number above the list.
pub proof fn lemma_renumber_counts(items: Seq<ItemView>, above: Seq<u32>, i: int)
    requires
        0 <= i < items.len(),
        is_numbered(items[i]),
    ensures
        numbered_among(items, i + 1) == numbered_among(items, i) + 1,
        renumbered(items, above)[i] matches ItemView::Chapter(chapter) && chapter.number == Some(
            above.push(numbered_among(items, i + 1) as u32),
        ),
{
}

/// Renumbering numbers what is below a chapter under the chapter's new
/// number: a child that has a number gets the new number of its parent with
/// its own count among the children at the end.
pub proof fn lemma_renumber_nests(items: Seq<ItemView>, above: Seq<u32>, i: int, j: int)
    requires
        0 <= i < items.len(),
        is_numbered(items[i]),
        0 <= j < items[i]->Chapter_0.sub_items.len(),
        is_numbered(items[i]->Chapter_0.sub_items[j]),
    ensures
        renumbered(items, above)[i] matches ItemView::Chapter(parent) && (parent.sub_items[j] matches ItemView::Chapter(
            child,
        ) && child.number == Some(
            above.push(numbered_among(items, i + 1) as u32).push(
                numbered_among(items[i]->Chapter_0.sub_items, j + 1) as u32,
            ),
        )),
{
    let number = above.push(numbered_among(items, i + 1) as u32);
    lemma_renumber_counts(items[i]->Chapter_0.sub_items, number, j);
}

/// Whether the chapter is internal: the file name of its source path begins
/// with `prefix`.
pub fn has_prefix(chapter: &Chapter, prefix: &str) -> (internal: bool)
    ensures
        internal == is_internal(chapter@, prefix@),
{
    match &chapter.source_path {
        Some(path) => match file_name(path.as_str()) {
            Some(name) => starts_with(name.as_str(), prefix),
            None => false,
        },
        None => false,
    }
}

/// Takes `prefix` from the front of the file name of `path`, if the file name
/// begins with it.
pub fn remove_prefix(path: String, prefix: &str) -> (stripped: String)
    ensures
        stripped@ == prefix_removed(path@, prefix@),
{
    match file_name(path.as_str()) {
        Some(name) => match strip_prefix(name.as_str(), prefix) {
            Some(rest) => set_file_name(path.as_str(), rest.as_str()),
            None => path,
        },
        None => path,
    }
}

/// Removes the internal chapters among the entries and below them; `config`
/// says what becomes of their children.
pub fn remove_internal_chapters(items: Vec<BookItem>, prefix: &str, config: &Config) -> (out: Vec<
    BookItem,
>)
    ensures
        items_view(out@) == without_internal(items_view(items@), prefix@, config.children),
    decreases items,
{
    let mut out: Vec<BookItem> = Vec::new();
    let ghost whole = items@;
    let ghost all = items_view(items@);
    for item in it: items
        invariant
            it.seq() == whole,
            all == items_view(whole),
            items_view(out@) == without_internal(
                all.take(it.index() as int),
                prefix@,
                config.children,
            ),
    {
        let ghost i = it.index() as int;
        let ghost before = out@;
        assert(all.take(i + 1).drop_last() == all.take(i));
        let kept = match item {
            BookItem::Chapter(mut chapter) => {
                let ghost old_chapter = chapter@;
                if !has_prefix(&chapter, prefix) {
                    chapter.sub_items = remove_internal_chapters(chapter.sub_items, prefix, config);
                    Some(BookItem::Chapter(chapter))
                } else {
                    match config.children {
                        Children::Remove => None,
                        Children::Keep => {
                            chapter.sub_items = remove_internal_chapters(
                                chapter.sub_items,
                                prefix,
                                config,
                            );
                            if chapter.sub_items.len() == 0 {
                                None
                            } else {
                                chapter.content = String::new();
                                chapter.path = None;
                                chapter.source_path = None;
                                assert(chapter@ == placeholder(
                                    old_chapter,
                                    items_view(chapter.sub_items@),
                                ));
                                Some(BookItem::Chapter(chapter))
                            }
                        },
                    }
                }
            },
            other => Some(other),
        };
        match kept {
            Some(kept) => {
                proof {
                    lemma_items_view_push(before, kept);
                }
                out.push(kept);
            },
            None => {
                assert(retained(item@, prefix@, config.children) is None);
            },
        }
    }
    proof {
        assert(all.take(all.len() as int) == all);
    }
    out
}

/// Strips `prefix` from the output path of every internal chapter among the
/// entries and below them. No entry is removed.
pub fn strip_prefix_from_chapter_path(items: Vec<BookItem>, prefix: &str) -> (out: Vec<BookItem>)
    ensures
        items_view(out@) == stripped(items_view(items@), prefix@),
    decreases items,
{
    let mut out: Vec<BookItem> = Vec::new();
    let ghost whole = items@;
    let ghost all = items_view(items@);
    for item in it: items
        invariant
            it.seq() == whole,
            all == items_view(whole),
            items_view(out@) == stripped(all, prefix@).take(it.index() as int),
    {
        let ghost before = out@;
        let new_item = match item {
            BookItem::Chapter(mut chapter) => {
                if has_prefix(&chapter, prefix) {
                    chapter.path = match chapter.path {
                        Some(path) => Some(remove_prefix(path, prefix)),
                        None => None,
                    };
                }
                chapter.sub_items = strip_prefix_from_chapter_path(chapter.sub_items, prefix);
                BookItem::Chapter(chapter)
            },
            other => other,
        };
        proof {
            lemma_items_view_push(before, new_item);
        }
        out.push(new_item);
    }
    out
}

/// Numbers the chapters anew below the number that `nested_count` holds,
/// which is the same again when the function returns. Only chapters that have
/// a number get one, and only below such chapters the numbering goes on.
pub fn recalculate_chapter_numbers_recursive(items: Vec<BookItem>, nested_count: &mut Vec<u32>) -> (out:
    Vec<BookItem>)
    requires
        numberable(items_view(items@)),
    ensures
        items_view(out@) == renumbered(items_view(items@), old(nested_count)@),
        final(nested_count)@ == old(nested_count)@,
    decreases items,
{
    let mut out: Vec<BookItem> = Vec::new();
    let mut current: u32 = 0;
    let ghost whole = items@;
    let ghost all = items_view(items@);
    let ghost above = nested_count@;
    for item in it: items
        invariant
            it.seq() == whole,
            all == items_view(whole),
            numberable(all),
            nested_count@ == above,
            current == numbered_among(all, it.index() as int),
            items_view(out@) == renumbered(all, above).take(it.index() as int),
    {
        let ghost i = it.index() as int;
        let ghost before = out@;
        proof {
            assert(all[i] == item@);
            lemma_numbered_among_bound(all, i);
        }
        let new_item = match item {
            BookItem::Chapter(mut chapter) => {
                if chapter.number.is_some() {
                    current += 1;
                    nested_count.push(current);
                    chapter.number = Some(nested_count.clone());
                    chapter.sub_items = recalculate_chapter_numbers_recursive(
                        chapter.sub_items,
                        nested_count,
                    );
                    nested_count.pop();
                    BookItem::Chapter(chapter)
                } else {
                    BookItem::Chapter(chapter)
                }
            },
            other => other,
        };
        proof {
            lemma_items_view_push(before, new_item);
        }
        out.push(new_item);
    }
    out
}

/// Whether the chapters can be numbered: every list of entries is short
/// enough for its chapters to be counted in 32 bits.
pub fn is_numberable(items: &Vec<BookItem>) -> (fits: bool)
    ensures
        fits == numberable(items_view(items@)),
    decreases items,
{
    if items.len() > u32::MAX as usize {
        return false;
    }
    let ghost all = items_view(items@);
    let mut i: usize = 0;
    while i < items.len()
        invariant
            i <= items.len(),
            all == items_view(items@),
            forall|j: int|
                0 <= j < i ==> (#[trigger] all[j] matches ItemView::Chapter(chapter)
                    ==> numberable(chapter.sub_items)),
        decreases items.len() - i,
    {
        match &items[i] {
            BookItem::Chapter(chapter) => {
                if !is_numberable(&chapter.sub_items) {
                    assert(all[i as int] == ItemView::Chapter(chapter_view(*chapter)));
                    return false;
                }
            },
            _ => {},
        }
        i += 1;
    }
    true
}

/// Handles the internal chapters of the book: removes them with `remove`,
/// strips their prefix where `config` asks for that alone, and leaves the book
/// as it is otherwise, or where `config` has no prefix.
pub fn internalise_chapters(book: Book, remove: bool, config: &Config) -> (out: Book)
    ensures
        out@ == chapters_internalised(book@, remove, config@),
{
    match &config.prefix {
        Some(prefix) => {
            if remove {
                Book { sections: remove_internal_chapters(book.sections, prefix.as_str(), config) }
            } else if config.strip {
                Book { sections: strip_prefix_from_chapter_path(book.sections, prefix.as_str()) }
            } else {
                book
            }
        },
        None => book,
    }
}

} // verus!
