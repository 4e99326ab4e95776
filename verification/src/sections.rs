//! Marked sections in the text of a chapter: removing them, or wrapping
//! what they hold.
use vstd::prelude::*;
use vstd::string::StringExecFns;
use crate::book::{
    items_view, lemma_items_view_push, opt_book, opt_items, Book, BookItem, ChapterView, ItemView,
};
use crate::context::{Sections, SectionsView};
use crate::pattern::{captured, captured_by, escape, escaped, sparse_texts, split, split_by};
use crate::text::{opt_text, texts};

verus! {

/// The settings that this module works under.
pub type Config = Sections;

/// What stands in the place of a marked section that is removed: an empty
/// line, so that the paragraphs on its two sides stay apart.
pub const GAP: &'static str = "\n\n";

/// The regular expression for one marked section with the keyword `comment`:
/// a comment that opens with the keyword in square brackets and closes with
/// the keyword after a slash in square brackets, together with the white space
/// around the comment. Its group holds what stands between the two brackets,
/// without the white space at its ends, up to the first closing bracket.
pub open spec fn marker_pattern(comment: Seq<char>) -> Seq<char> {
    r"\s*<!--\s*\["@ + escaped(comment) + r"\]\s*((?s).*?)\s*\[\/"@ + escaped(comment)
        + r"\]\s*-->\s*"@
}

/// `parts` in order, with `filler` between each two neighbours.
pub open spec fn joined(parts: Seq<Seq<char>>, filler: Seq<char>) -> Seq<char>
    decreases parts.len(),
{
    if parts.len() == 0 {
        Seq::empty()
    } else if parts.len() == 1 {
        parts[0]
    } else {
        joined(parts.drop_last(), filler) + filler + parts.last()
    }
}

/// The inner text of a marked section between what opens and what closes the
/// wrapper, each on lines of its own.
pub open spec fn wrapped(inner: Seq<char>, opening: Seq<char>, closing: Seq<char>) -> Seq<char> {
    "\n"@ + opening + "\n"@ + inner + "\n"@ + closing + "\n"@
}

/// The parts `between` in order, with each inner text of `within`, wrapped,
/// in the place between two neighbours. There is one part more than there are
/// inner texts.
pub open spec fn woven(
    between: Seq<Seq<char>>,
    within: Seq<Seq<char>>,
    opening: Seq<char>,
    closing: Seq<char>,
) -> Seq<char>
    recommends
        between.len() == within.len() + 1,
    decreases within.len(),
{
    if within.len() == 0 {
        between.first()
    } else {
        woven(between.drop_last(), within.drop_last(), opening, closing) + wrapped(
            within.last(),
            opening,
            closing,
        ) + between.last()
    }
}

/// Whether none of the texts is missing.
pub open spec fn all_present(found: Seq<Option<Seq<char>>>) -> bool {
    forall|i: int| 0 <= i < found.len() ==> (#[trigger] found[i]) is Some
}

/// The texts themselves, where none is missing.
pub open spec fn unwrapped(found: Seq<Option<Seq<char>>>) -> Seq<Seq<char>>
    recommends
        all_present(found),
{
    found.map_values(|text: Option<Seq<char>>| text->0)
}

/// `content` without its marked sections, each replaced by an empty line.
/// Text without a marked section stays as it is. `None` where the engine does
/// not take `pattern`.
pub open spec fn removed(pattern: Seq<char>, content: Seq<char>) -> Option<Seq<char>> {
    match split_by(pattern, content) {
        Some(between) => if between.len() <= 1 {
            Some(content)
        } else {
            Some(joined(between, GAP@))
        },
        None => None,
    }
}

/// `content` with each marked section replaced by its inner text in the
/// wrapper. Text without a marked section stays as it is. `None` where the
/// engine does not take `pattern`, or gives for some section no inner text, or
/// not one inner text for each section.
pub open spec fn stylised(
    pattern: Seq<char>,
    content: Seq<char>,
    opening: Seq<char>,
    closing: Seq<char>,
) -> Option<Seq<char>> {
    match split_by(pattern, content) {
        Some(between) => if between.len() <= 1 {
            Some(content)
        } else {
            match captured_by(pattern, content, 1) {
                Some(found) => if found.len() + 1 == between.len() && all_present(found) {
                    Some(woven(between, unwrapped(found), opening, closing))
                } else {
                    None
                },
                None => None,
            }
        },
        None => None,
    }
}

/// What becomes of a chapter's text: its marked sections are put into the
/// wrapper, given by what opens and what closes it, or without a wrapper
/// removed.
pub open spec fn rewritten_text(
    pattern: Seq<char>,
    content: Seq<char>,
    wrapper: Option<(Seq<char>, Seq<char>)>,
) -> Option<Seq<char>> {
    match wrapper {
        Some((opening, closing)) => stylised(pattern, content, opening, closing),
        None => removed(pattern, content),
    }
}

/// The texts of the two ends of a wrapper.
pub open spec fn wrapper_view(wrapper: Option<(&str, &str)>) -> Option<(Seq<char>, Seq<char>)> {
    match wrapper {
        Some((opening, closing)) => Some((opening@, closing@)),
        None => None,
    }
}

/// One entry with the text of each chapter in it rewritten; `None` where the
/// text of one of them cannot be.
pub open spec fn rewritten_item(
    item: ItemView,
    pattern: Seq<char>,
    wrapper: Option<(Seq<char>, Seq<char>)>,
) -> Option<ItemView>
    decreases item,
{
    match item {
        ItemView::Chapter(chapter) => match (
            rewritten_text(pattern, chapter.content, wrapper),
            rewritten(chapter.sub_items, pattern, wrapper),
        ) {
            (Some(content), Some(sub_items)) => Some(
                ItemView::Chapter(ChapterView { content, sub_items, ..chapter }),
            ),
            _ => None,
        },
        other => Some(other),
    }
}

/// The entries with the text of each chapter among them and below them
/// rewritten, and nothing else changed; `None` where the text of one of them
/// cannot be.
pub open spec fn rewritten(
    items: Seq<ItemView>,
    pattern: Seq<char>,
    wrapper: Option<(Seq<char>, Seq<char>)>,
) -> Option<Seq<ItemView>>
    decreases items,
{
    if items.len() == 0 {
        Some(Seq::empty())
    } else {
        match (
            rewritten(items.drop_last(), pattern, wrapper),
            rewritten_item(items.last(), pattern, wrapper),
        ) {
            (Some(front), Some(last)) => Some(front.push(last)),
            _ => None,
        }
    }
}

/// What `internalise_sections` makes of a book's entries: without a keyword
/// they stay as they are; with one, the marked sections of each chapter are
/// removed or, without `remove`, wrapped as `sections` says.
pub open spec fn internalised(items: Seq<ItemView>, remove: bool, sections: SectionsView) -> Option<
    Seq<ItemView>,
> {
    match sections.comment {
        None => Some(items),
        Some(comment) => rewritten(
            items,
            marker_pattern(comment),
            if remove {
                None
            } else {
                Some((sections.opening_tag(), sections.closing_tag()))
            },
        ),
    }
}

/// Once a first part of the entries cannot be rewritten, the whole cannot.
proof fn lemma_rewritten_front(
    items: Seq<ItemView>,
    n: int,
    pattern: Seq<char>,
    wrapper: Option<(Seq<char>, Seq<char>)>,
)
    requires
        0 <= n <= items.len(),
        rewritten(items.take(n), pattern, wrapper) is None,
    ensures
        rewritten(items, pattern, wrapper) is None,
    decreases items.len() - n,
{
    if n < items.len() {
        assert(items.take(n + 1).drop_last() == items.take(n));
        lemma_rewritten_front(items, n + 1, pattern, wrapper);
    } else {
        assert(items.take(n) == items);
    }
}

/// Rewriting the texts changes no list of entries in length: each entry of
/// the result is what became of the entry in its place.
pub(crate) proof fn lemma_rewritten_entries(
    items: Seq<ItemView>,
    pattern: Seq<char>,
    wrapper: Option<(Seq<char>, Seq<char>)>,
)
    requires
        rewritten(items, pattern, wrapper) is Some,
    ensures
        rewritten(items, pattern, wrapper)->0.len() == items.len(),
        forall|i: int|
            0 <= i < items.len() ==> rewritten_item(#[trigger] items[i], pattern, wrapper) == Some(
                rewritten(items, pattern, wrapper)->0[i],
            ),
    decreases items.len(),
{
    if items.len() > 0 {
        let front = items.drop_last();
        lemma_rewritten_entries(front, pattern, wrapper);
        let out = rewritten(items, pattern, wrapper)->0;
        assert forall|i: int| 0 <= i < items.len() implies rewritten_item(
            #[trigger] items[i],
            pattern,
            wrapper,
        ) == Some(out[i]) by {
            if i < front.len() {
                assert(items[i] == front[i]);
            }
        }
    }
}

/// Removing marked sections twice gives what removing them once gives,
/// wherever the first pass leaves no marked section behind.
pub proof fn lemma_removal_settles(pattern: Seq<char>, content: Seq<char>)
    ensures
        removed(pattern, content) matches Some(once) ==> (split_by(pattern, once) matches Some(
            left,
        ) ==> (left.len() <= 1 ==> removed(pattern, once) == Some(once))),
{
}

/// The regular expression, as text, that matches one marked section with the
/// keyword `comment`.
pub fn regex(comment: &str) -> (pattern: String)
    ensures
        pattern@ == marker_pattern(comment@),
{
    let literal = escape(comment);
    let mut pattern = String::from_str(r"\s*<!--\s*\[");
    pattern.append(literal.as_str());
    pattern.append(r"\]\s*((?s).*?)\s*\[\/");
    pattern.append(literal.as_str());
    pattern.append(r"\]\s*-->\s*");
    pattern
}

/// Puts `filler` between the parts.
pub fn join(parts: &Vec<String>, filler: &str) -> (text: String)
    ensures
        text@ == joined(texts(parts@), filler@),
{
    let mut text = String::new();
    let mut i: usize = 0;
    while i < parts.len()
        invariant
            i <= parts.len(),
            text@ == joined(texts(parts@).take(i as int), filler@),
        decreases parts.len() - i,
    {
        assert(texts(parts@).take(i + 1).drop_last() == texts(parts@).take(i as int));
        if i > 0 {
            text.append(filler);
        }
        text.append(parts[i].as_str());
        i += 1;
    }
    assert(texts(parts@).take(parts.len() as int) == texts(parts@));
    text
}

/// Puts each inner text, wrapped, between two neighbouring parts.
pub fn weave(between: &Vec<String>, within: &Vec<String>, opening: &str, closing: &str) -> (text:
    String)
    requires
        between.len() == within.len() + 1,
    ensures
        text@ == woven(texts(between@), texts(within@), opening@, closing@),
{
    let mut text = String::from_str(between[0].as_str());
    let mut i: usize = 0;
    while i < within.len()
        invariant
            i <= within.len(),
            between.len() == within.len() + 1,
            text@ == woven(
                texts(between@).take(i + 1),
                texts(within@).take(i as int),
                opening@,
                closing@,
            ),
        decreases within.len() - i,
    {
        assert(texts(between@).take(i + 2).drop_last() == texts(between@).take(i + 1));
        assert(texts(within@).take(i + 1).drop_last() == texts(within@).take(i as int));
        text.append("\n");
        text.append(opening);
        text.append("\n");
        text.append(within[i].as_str());
        text.append("\n");
        text.append(closing);
        text.append("\n");
        text.append(between[i + 1].as_str());
        i += 1;
    }
    assert(texts(between@).take(between.len() as int) == texts(between@));
    assert(texts(within@).take(within.len() as int) == texts(within@));
    text
}

/// The strings themselves, if none is missing.
pub fn present(found: Vec<Option<String>>) -> (all: Option<Vec<String>>)
    ensures
        all is Some <==> all_present(sparse_texts(found@)),
        all matches Some(v) ==> texts(v@) == unwrapped(sparse_texts(found@)),
{
    let mut all: Vec<String> = Vec::new();
    let ghost whole = found@;
    for text in it: found
        invariant
            it.seq() == whole,
            all_present(sparse_texts(whole.take(it.index() as int))),
            texts(all@) == unwrapped(sparse_texts(whole.take(it.index() as int))),
    {
        let ghost i = it.index() as int;
        let ghost done = sparse_texts(whole.take(i));
        let ghost next = sparse_texts(whole.take(i + 1));
        match text {
            Some(t) => {
                all.push(t);
                assert(unwrapped(next) =~= unwrapped(done).push(t@));
                assert forall|j: int| 0 <= j < next.len() implies (#[trigger] next[j]) is Some by {
                    if j < i {
                        assert(done[j] is Some);
                    }
                }
            },
            None => {
                assert(sparse_texts(whole)[i] is None);
                return None;
            },
        }
    }
    assert(whole.take(whole.len() as int) == whole);
    Some(all)
}

/// Removes the marked sections that `pattern` matches from `content`.
pub fn remove_sections(content: &str, pattern: &str) -> (text: Option<String>)
    ensures
        opt_text(text) == removed(pattern@, content@),
{
    match split(pattern, content) {
        Some(between) => if between.len() <= 1 {
            Some(String::from_str(content))
        } else {
            Some(join(&between, GAP))
        },
        None => None,
    }
}

/// Wraps the marked sections that `pattern` matches in `content`.
pub fn stylise_sections(content: &str, pattern: &str, opening: &str, closing: &str) -> (text:
    Option<String>)
    ensures
        opt_text(text) == stylised(pattern@, content@, opening@, closing@),
{
    match split(pattern, content) {
        Some(between) => if between.len() <= 1 {
            Some(String::from_str(content))
        } else {
            match captured(pattern, content, 1) {
                Some(found) => {
                    if found.len() != between.len() - 1 {
                        return None;
                    }
                    match present(found) {
                        Some(within) => Some(weave(&between, &within, opening, closing)),
                        None => None,
                    }
                },
                None => None,
            }
        },
        None => None,
    }
}

/// Rewrites the text of every chapter among the entries and below them:
/// wraps the marked sections in `wrapper`, or removes them where there is none.
fn rewrite_items(items: Vec<BookItem>, pattern: &str, wrapper: Option<(&str, &str)>) -> (out:
    Option<Vec<BookItem>>)
    ensures
        opt_items(out) == rewritten(items_view(items@), pattern@, wrapper_view(wrapper)),
    decreases items,
{
    let mut out: Vec<BookItem> = Vec::new();
    let ghost whole = items@;
    let ghost all = items_view(items@);
    for item in it: items
        invariant
            it.seq() == whole,
            all == items_view(whole),
            rewritten(all.take(it.index() as int), pattern@, wrapper_view(wrapper)) == Some(
                items_view(out@),
            ),
    {
        let ghost i = it.index() as int;
        let ghost before = out@;
        assert(all.take(i + 1).drop_last() == all.take(i));
        let new_item = match item {
            BookItem::Chapter(mut chapter) => {
                let content = match wrapper {
                    Some((opening, closing)) => stylise_sections(
                        chapter.content.as_str(),
                        pattern,
                        opening,
                        closing,
                    ),
                    None => remove_sections(chapter.content.as_str(), pattern),
                };
                let content = match content {
                    Some(content) => content,
                    None => {
                        proof {
                            lemma_rewritten_front(all, i + 1, pattern@, wrapper_view(wrapper));
                        }
                        return None;
                    },
                };
                let sub_items = match rewrite_items(chapter.sub_items, pattern, wrapper) {
                    Some(sub_items) => sub_items,
                    None => {
                        proof {
                            lemma_rewritten_front(all, i + 1, pattern@, wrapper_view(wrapper));
                        }
                        return None;
                    },
                };
                chapter.content = content;
                chapter.sub_items = sub_items;
                BookItem::Chapter(chapter)
            },
            other => other,
        };
        proof {
            assert(rewritten_item(item@, pattern@, wrapper_view(wrapper)) == Some(new_item@));
            lemma_items_view_push(before, new_item);
        }
        out.push(new_item);
    }
    proof {
        assert(all.take(all.len() as int) == all);
    }
    Some(out)
}

/// Removes the marked sections that `pattern` matches from every chapter of
/// the book.
pub fn remove_internal_sections(book: Book, pattern: &str) -> (out: Option<Book>)
    ensures
        opt_book(out) == rewritten(book@, pattern@, None),
{
    match rewrite_items(book.sections, pattern, None) {
        Some(sections) => Some(Book { sections }),
        None => None,
    }
}

/// Wraps the marked sections that `pattern` matches in every chapter of the
/// book as `config` says.
pub fn stylise_internal_sections(book: Book, pattern: &str, config: &Config) -> (out: Option<Book>)
    ensures
        opt_book(out) == rewritten(
            book@,
            pattern@,
            Some((config@.opening_tag(), config@.closing_tag())),
        ),
{
    let opening = config.get_wrap_opening_tag();
    let closing = config.get_wrap_closing_tag();
    match rewrite_items(book.sections, pattern, Some((opening.as_str(), closing.as_str()))) {
        Some(sections) => Some(Book { sections }),
        None => None,
    }
}

/// Handles the marked sections of every chapter of the book: removes them
/// with `remove`, wraps them without it, and leaves the book as it is where
/// `config` has no keyword.
pub fn internalise_sections(book: Book, remove: bool, config: &Config) -> (out: Option<Book>)
    ensures
        opt_book(out) == internalised(book@, remove, config@),
{
    match &config.comment {
        None => Some(book),
        Some(comment) => {
            let pattern = regex(comment.as_str());
            if remove {
                remove_internal_sections(book, pattern.as_str())
            } else {
                stylise_internal_sections(book, pattern.as_str(), config)
            }
        },
    }
}

} // verus!
