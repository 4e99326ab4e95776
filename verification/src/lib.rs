//! Internal content in a book: sections of a chapter's text that are marked
//! as internal, and chapters whose source file is named as internal. The
//! library marks or removes the sections, removes or renames the chapters, and
//! numbers the chapters that are left anew.
//!
//! What the library does is stated over the views of its types and proved by
//! Verus. What it takes on trust are the calls into `regex`, `toml` and
//! `std::path`, each behind one function that says so.
use vstd::prelude::*;
use vstd::string::StringExecFns;
use toml::value::Table;
use crate::book::{items_view, opt_book, Book, BookItem, Chapter, ItemView};
use crate::chapters::{
    chapters_internalised, is_internal, lemma_stripped_numberable,
    lemma_without_internal_numberable, numberable, prefix_removed, renumbered, stripped,
    without_internal,
};
use crate::context::{Chapters, Config, ConfigError, ConfigView, Sections};
use crate::sections::{
    internalised, lemma_rewritten_entries, marker_pattern, rewritten, rewritten_item,
};
use crate::table::entries;

pub mod book;
pub mod chapters;
pub mod context;
pub mod path;
pub mod pattern;
pub mod sections;
pub mod table;
pub mod text;

verus! {

/// The name under which a book's configuration addresses the preprocessor.
pub const PREPROCESSOR_NAME: &'static str = "internal";

/// The one renderer that the preprocessor does not work for.
pub const UNSUPPORTED_RENDERER: &'static str = "not-supported";

/// The preprocessor: it marks or removes internal sections of chapters, and
/// removes or renames internal chapters.
pub struct Internal;

/// What becomes of a book's entries under a configuration: first the marked
/// sections of each chapter are handled, then the internal chapters, and at
/// the end, where the configuration asks for it, the chapters are numbered
/// anew from the top. `None` where the marked sections cannot be handled.
pub open spec fn transformed(items: Seq<ItemView>, config: ConfigView) -> Option<Seq<ItemView>> {
    match internalised(items, config.remove, config.sections) {
        Some(marked) => {
            let sifted = chapters_internalised(marked, config.remove, config.chapters);
            if config.chapters.recalculate {
                Some(renumbered(sifted, Seq::empty()))
            } else {
                Some(sifted)
            }
        },
        None => None,
    }
}

/// The configuration that a run works with: what the preprocessor's table
/// decodes to, or the built-in configuration where the book has no such table.
pub open spec fn configured(config: Option<&Table>) -> Result<ConfigView, Seq<char>> {
    match config {
        Some(table) => ConfigView::decoded(entries(*table)),
        None => Ok(ConfigView::standard()),
    }
}

/// What a run gives: the message of the configuration error, or what becomes
/// of the book under the configuration.
pub open spec fn run_outcome(config: Option<&Table>, items: Seq<ItemView>) -> Result<
    Option<Seq<ItemView>>,
    Seq<char>,
> {
    match configured(config) {
        Ok(decoded) => Ok(transformed(items, decoded)),
        Err(message) => Err(message),
    }
}

/// Rewriting the texts of chapters keeps every list of entries numberable.
proof fn lemma_rewritten_numberable(
    items: Seq<ItemView>,
    pattern: Seq<char>,
    wrapper: Option<(Seq<char>, Seq<char>)>,
)
    requires
        numberable(items),
        rewritten(items, pattern, wrapper) is Some,
    ensures
        numberable(rewritten(items, pattern, wrapper)->0),
    decreases items,
{
    lemma_rewritten_entries(items, pattern, wrapper);
    let out = rewritten(items, pattern, wrapper)->0;
    assert forall|i: int| 0 <= i < out.len() implies (#[trigger] out[i] matches ItemView::Chapter(
        chapter,
    ) ==> numberable(chapter.sub_items)) by {
        match items[i] {
            ItemView::Chapter(chapter) => {
                lemma_rewritten_numberable(chapter.sub_items, pattern, wrapper);
            },
            _ => {},
        }
    }
}

/// Every stage before the numbering keeps the lists of entries numberable.
proof fn lemma_stages_numberable(items: Seq<ItemView>, config: ConfigView)
    requires
        numberable(items),
        internalised(items, config.remove, config.sections) is Some,
    ensures
        numberable(internalised(items, config.remove, config.sections)->0),
        numberable(
            chapters_internalised(
                internalised(items, config.remove, config.sections)->0,
                config.remove,
                config.chapters,
            ),
        ),
{
    let marked = internalised(items, config.remove, config.sections)->0;
    match config.sections.comment {
        Some(comment) => {
            let wrapper = if config.remove {
                None
            } else {
                Some((config.sections.opening_tag(), config.sections.closing_tag()))
            };
            lemma_rewritten_numberable(items, marker_pattern(comment), wrapper);
        },
        None => {},
    }
    match config.chapters.prefix {
        Some(prefix) => {
            lemma_without_internal_numberable(marked, prefix, config.chapters.children);
            lemma_stripped_numberable(marked, prefix);
        },
        None => {},
    }
}

impl Internal {
    /// The name of the preprocessor.
    pub fn name(&self) -> (name: &'static str)
        ensures
            name@ == PREPROCESSOR_NAME@,
    {
        PREPROCESSOR_NAME
    }

    /// Every renderer is supported but the one named `not-supported`.
    pub fn supports_renderer(&self, renderer: &str) -> (supported: bool)
        ensures
            supported == (renderer@ != UNSUPPORTED_RENDERER@),
    {
        String::from_str(renderer) != String::from_str(UNSUPPORTED_RENDERER)
    }

    /// Works through the book under `config`: the marked sections, then the
    /// internal chapters, then the numbers.
    pub fn transform(book: Book, config: &Config) -> (out: Option<Book>)
        requires
            numberable(book@),
        ensures
            opt_book(out) == transformed(book@, config@),
    {
        let ghost items = book@;
        let book = match Self::internalise_sections(book, config) {
            Some(book) => book,
            None => {
                return None;
            },
        };
        let mut book = Self::internalise_chapters(book, config);
        proof {
            lemma_stages_numberable(items, config@);
        }
        if config.chapters.recalculate {
            let mut nested_count: Vec<u32> = Vec::new();
            book.sections = Self::recalculate_chapter_numbers(book.sections, &mut nested_count);
        }
        Some(book)
    }

    /// Decodes the preprocessor's table, if the book's configuration has one,
    /// and works through the book under it. A table that cannot be decoded is
    /// an error, and the book is not touched.
    pub fn run(&self, config: Option<&Table>, book: Book) -> (result: Result<
        Option<Book>,
        ConfigError,
    >)
        requires
            numberable(book@),
        ensures
            match result {
                Ok(out) => run_outcome(config, book@) == Ok::<Option<Seq<ItemView>>, Seq<char>>(
                    opt_book(out),
                ),
                Err(error) => run_outcome(config, book@) == Err::<
                    Option<Seq<ItemView>>,
                    Seq<char>,
                >(error@),
            },
    {
        let config = match config {
            Some(table) => Config::from_context(table)?,
            None => Config::default(),
        };
        Ok(Self::transform(book, &config))
    }

    /// See [`sections::regex`].
    pub fn regex(comment: &str) -> (pattern: String)
        ensures
            pattern@ == marker_pattern(comment@),
    {
        crate::sections::regex(comment)
    }

    /// See [`sections::internalise_sections`].
    pub fn internalise_sections(book: Book, config: &Config) -> (out: Option<Book>)
        ensures
            opt_book(out) == internalised(book@, config.remove, config.sections@),
    {
        crate::sections::internalise_sections(book, config.remove, &config.sections)
    }

    /// See [`sections::remove_internal_sections`].
    pub fn remove_internal_sections(book: Book, pattern: &str) -> (out: Option<Book>)
        ensures
            opt_book(out) == rewritten(book@, pattern@, None),
    {
        crate::sections::remove_internal_sections(book, pattern)
    }

    /// See [`sections::stylise_internal_sections`].
    pub fn stylise_internal_sections(book: Book, pattern: &str, config: &Sections) -> (out: Option<
        Book,
    >)
        ensures
            opt_book(out) == rewritten(
                book@,
                pattern@,
                Some((config@.opening_tag(), config@.closing_tag())),
            ),
    {
        crate::sections::stylise_internal_sections(book, pattern, config)
    }

    /// See [`chapters::internalise_chapters`].
    pub fn internalise_chapters(book: Book, config: &Config) -> (out: Book)
        ensures
            out@ == chapters_internalised(book@, config.remove, config.chapters@),
    {
        crate::chapters::internalise_chapters(book, config.remove, &config.chapters)
    }

    /// See [`chapters::has_prefix`].
    pub fn has_prefix(chapter: &Chapter, prefix: &str) -> (internal: bool)
        ensures
            internal == is_internal(chapter@, prefix@),
    {
        crate::chapters::has_prefix(chapter, prefix)
    }

    /// See [`chapters::remove_prefix`].
    pub fn remove_prefix(path: String, prefix: &str) -> (stripped: String)
        ensures
            stripped@ == prefix_removed(path@, prefix@),
    {
        crate::chapters::remove_prefix(path, prefix)
    }

    /// See [`chapters::remove_internal_chapters`].
    pub fn remove_internal_chapters(items: Vec<BookItem>, prefix: &str, config: &Chapters) -> (out:
        Vec<BookItem>)
        ensures
            items_view(out@) == without_internal(
                items_view(items@),
                prefix@,
                config.children,
            ),
    {
        crate::chapters::remove_internal_chapters(items, prefix, config)
    }

    /// See [`chapters::strip_prefix_from_chapter_path`].
    pub fn strip_prefix_from_chapter_path(items: Vec<BookItem>, prefix: &str) -> (out: Vec<
        BookItem,
    >)
        ensures
            items_view(out@) == stripped(items_view(items@), prefix@),
    {
        crate::chapters::strip_prefix_from_chapter_path(items, prefix)
    }

    /// See [`chapters::recalculate_chapter_numbers_recursive`].
    pub fn recalculate_chapter_numbers(items: Vec<BookItem>, nested_count: &mut Vec<u32>) -> (out:
        Vec<BookItem>)
        requires
            numberable(items_view(items@)),
        ensures
            items_view(out@) == renumbered(
                items_view(items@),
                old(nested_count)@,
            ),
            final(nested_count)@ == old(nested_count)@,
    {
        crate::chapters::recalculate_chapter_numbers_recursive(items, nested_count)
    }
}

} // verus!
