use mdbook_internal::book::{Book, BookItem, Chapter};
use mdbook_internal::chapters::{
    has_prefix, internalise_chapters, is_numberable, recalculate_chapter_numbers_recursive,
    remove_internal_chapters, remove_prefix, strip_prefix_from_chapter_path,
};
use mdbook_internal::context::{Chapters, Children};
use mdbook_internal::text::{starts_with, strip_prefix};
use mdbook_internal::Internal;

fn chapter(name: &str, source: Option<&str>, number: Option<Vec<u32>>, sub_items: Vec<BookItem>) -> Chapter {
    Chapter {
        name: name.to_string(),
        content: format!("# {name}"),
        number,
        sub_items,
        path: source.map(str::to_string),
        source_path: source.map(str::to_string),
        parent_names: vec!["Top".to_string()],
    }
}

fn entry(name: &str, source: &str, sub_items: Vec<BookItem>) -> BookItem {
    BookItem::Chapter(chapter(name, Some(source), None, sub_items))
}

fn numbered(name: &str, number: Option<Vec<u32>>, sub_items: Vec<BookItem>) -> BookItem {
    BookItem::Chapter(chapter(name, Some("page.md"), number, sub_items))
}

fn settings(children: Children) -> Chapters {
    Chapters { prefix: Some("_".to_string()), strip: false, recalculate: true, children }
}

fn count(items: &[BookItem]) -> usize {
    items
        .iter()
        .map(|item| match item {
            BookItem::Chapter(chapter) => 1 + count(&chapter.sub_items),
            _ => 0,
        })
        .sum()
}

fn number_of(item: &BookItem) -> Option<Vec<u32>> {
    match item {
        BookItem::Chapter(chapter) => chapter.number.clone(),
        _ => panic!("not a chapter"),
    }
}

fn below(item: &BookItem) -> &Vec<BookItem> {
    match item {
        BookItem::Chapter(chapter) => &chapter.sub_items,
        _ => panic!("not a chapter"),
    }
}

#[test]
fn internal_goes_by_the_file_name() {
    let cases = [
        ("_draft.md", "_", true),
        ("draft.md", "_", false),
        ("dir/_draft.md", "_", true),
        ("_dir/draft.md", "_", false),
        ("_dir/_draft.md", "_", true),
        ("a/b/c/wip-notes.md", "wip-", true),
        ("a/b/c/wip-notes.md", "wip_", false),
        ("a/b/c/notes.md", "", true),
        ("_", "_", true),
        ("_", "__", false),
        ("x_draft.md", "_", false),
        ("dir/_x/", "_", true),
        ("dir/..", ".", false),
        ("", "", false),
    ];
    for (source, prefix, expected) in cases {
        let found = has_prefix(&chapter("c", Some(source), None, vec![]), prefix);
        assert_eq!(found, expected, "{source:?} with {prefix:?}");
        assert_eq!(Internal::has_prefix(&chapter("c", Some(source), None, vec![]), prefix), expected);
    }
}

#[test]
fn internal_needs_a_source_path() {
    let mut draft = chapter("c", None, None, vec![]);
    assert!(!has_prefix(&draft, "_"));
    assert!(!has_prefix(&draft, ""));
    draft.path = Some("_draft.md".to_string());
    assert!(!has_prefix(&draft, "_"));
}

#[test]
fn prefix_is_no_pattern() {
    for prefix in ["*", "?", ".", "[_]", "_*", ".*", "^_"] {
        assert!(!has_prefix(&chapter("c", Some("_draft.md"), None, vec![]), prefix), "{prefix:?}");
    }
    assert!(has_prefix(&chapter("c", Some("*draft.md"), None, vec![]), "*"));
    assert!(has_prefix(&chapter("c", Some(".*x"), None, vec![]), ".*"));
    assert!(has_prefix(&chapter("c", Some("über.md"), None, vec![]), "ü"));
    assert!(!has_prefix(&chapter("c", Some("über.md"), None, vec![]), "u"));
}

#[test]
fn starts_with_compares_characters() {
    assert!(starts_with("_draft", "_"));
    assert!(starts_with("_draft", "_draft"));
    assert!(starts_with("anything", ""));
    assert!(starts_with("", ""));
    assert!(!starts_with("_draft", "_drafts"));
    assert!(!starts_with("", "_"));
    assert!(!starts_with("a_", "_"));
    assert!(starts_with("日本語.md", "日本"));
    assert!(!starts_with("日本語.md", "本"));
}

#[test]
fn strip_prefix_gives_the_rest() {
    assert_eq!(strip_prefix("_draft.md", "_"), Some("draft.md".to_string()));
    assert_eq!(strip_prefix("_draft.md", "_draft.md"), Some("".to_string()));
    assert_eq!(strip_prefix("_draft.md", ""), Some("_draft.md".to_string()));
    assert_eq!(strip_prefix("draft.md", "_"), None);
    assert_eq!(strip_prefix("éé-x", "éé-"), Some("x".to_string()));
}

#[test]
fn remove_prefix_renames_the_file() {
    assert_eq!(remove_prefix("_x.md".to_string(), "_"), "x.md");
    assert_eq!(remove_prefix("dir/_x.md".to_string(), "_"), "dir/x.md");
    assert_eq!(remove_prefix("_dir/sub/_x.tar.gz".to_string(), "_"), "_dir/sub/x.tar.gz");
    assert_eq!(remove_prefix("dir/wip-x.md".to_string(), "wip-"), "dir/x.md");
    assert_eq!(Internal::remove_prefix("dir/_x.md".to_string(), "_"), "dir/x.md");
}

#[test]
fn remove_prefix_leaves_other_paths() {
    assert_eq!(remove_prefix("x.md".to_string(), "_"), "x.md");
    assert_eq!(remove_prefix("_dir/x.md".to_string(), "_"), "_dir/x.md");
    assert_eq!(remove_prefix("dir/x_.md".to_string(), "_"), "dir/x_.md");
    assert_eq!(remove_prefix("dir/..".to_string(), "."), "dir/..");
    assert_eq!(remove_prefix("".to_string(), "_"), "");
}

#[test]
fn removal_with_children() {
    let items = vec![entry("A", "_draft.md", vec![entry("B", "visible.md", vec![])])];
    let out = remove_internal_chapters(items, "_", &settings(Children::Remove));
    assert_eq!(out, vec![]);
}

#[test]
fn removal_keeps_a_visible_child() {
    let items = vec![entry("A", "_draft.md", vec![entry("B", "visible.md", vec![])])];
    let out = remove_internal_chapters(items, "_", &settings(Children::Keep));
    let holder = Chapter {
        name: "A".to_string(),
        content: "".to_string(),
        number: None,
        sub_items: vec![entry("B", "visible.md", vec![])],
        path: None,
        source_path: None,
        parent_names: vec!["Top".to_string()],
    };
    assert_eq!(out, vec![BookItem::Chapter(holder)]);
}

#[test]
fn removal_drops_a_holder_without_children() {
    let items = vec![
        entry("A", "_draft.md", vec![entry("B", "_hidden.md", vec![]), BookItem::Separator]),
        entry("C", "_lone.md", vec![]),
        entry("D", "_deep.md", vec![entry("E", "_e.md", vec![entry("F", "_f.md", vec![])])]),
        entry("G", "shown.md", vec![]),
    ];
    let out = remove_internal_chapters(items, "_", &settings(Children::Keep));
    assert_eq!(out.len(), 2);
    assert_eq!(below(&out[0]), &vec![BookItem::Separator]);
    assert_eq!(out[1], entry("G", "shown.md", vec![]));
}

#[test]
fn removal_keeps_the_order_and_other_entries() {
    let items = vec![
        BookItem::PartTitle("_Part".to_string()),
        entry("A", "a.md", vec![entry("A1", "_a1.md", vec![]), entry("A2", "a2.md", vec![])]),
        BookItem::Separator,
        entry("B", "_b.md", vec![entry("B1", "b1.md", vec![])]),
        entry("C", "dir/c.md", vec![]),
    ];
    let out = remove_internal_chapters(items, "_", &settings(Children::Remove));
    assert_eq!(
        out,
        vec![
            BookItem::PartTitle("_Part".to_string()),
            entry("A", "a.md", vec![entry("A2", "a2.md", vec![])]),
            BookItem::Separator,
            entry("C", "dir/c.md", vec![]),
        ]
    );
    let items = vec![entry("B", "_b.md", vec![entry("B1", "b1.md", vec![])])];
    assert_eq!(Internal::remove_internal_chapters(items, "_", &settings(Children::Remove)), vec![]);
}

#[test]
fn removal_goes_through_nested_holders() {
    let items = vec![entry("A", "_a.md", vec![entry("B", "_b.md", vec![entry("C", "c.md", vec![])])])];
    let out = remove_internal_chapters(items, "_", &settings(Children::Keep));
    assert_eq!(count(&out), 3);
    match &out[0] {
        BookItem::Chapter(a) => {
            assert_eq!((a.content.as_str(), &a.path, &a.source_path), ("", &None, &None));
            match &a.sub_items[0] {
                BookItem::Chapter(b) => {
                    assert_eq!((b.content.as_str(), &b.path, &b.source_path), ("", &None, &None));
                    assert_eq!(b.sub_items, vec![entry("C", "c.md", vec![])]);
                },
                _ => panic!("not a chapter"),
            }
        },
        _ => panic!("not a chapter"),
    }
}

#[test]
fn strip_renames_and_never_deletes() {
    let out = strip_prefix_from_chapter_path(vec![entry("A", "_x.md", vec![])], "_");
    assert_eq!(out.len(), 1);
    match &out[0] {
        BookItem::Chapter(a) => {
            assert_eq!(a.path, Some("x.md".to_string()));
            assert_eq!(a.source_path, Some("_x.md".to_string()));
            assert_eq!(a.content, "# A");
        },
        _ => panic!("not a chapter"),
    }
}

#[test]
fn strip_goes_below_every_chapter() {
    let items = vec![
        entry("A", "_a.md", vec![entry("A1", "sub/_a1.md", vec![]), BookItem::Separator]),
        BookItem::PartTitle("_Part".to_string()),
        entry("B", "b.md", vec![entry("B1", "_b1.md", vec![entry("B2", "_dir/b2.md", vec![])])]),
    ];
    let before = count(&items);
    let out = strip_prefix_from_chapter_path(items, "_");
    assert_eq!(count(&out), before);
    let renamed = |name: &str, source: &str, path: &str, sub_items: Vec<BookItem>| {
        let mut c = chapter(name, Some(source), None, sub_items);
        c.path = Some(path.to_string());
        BookItem::Chapter(c)
    };
    assert_eq!(
        out,
        vec![
            renamed("A", "_a.md", "a.md", vec![
                renamed("A1", "sub/_a1.md", "sub/a1.md", vec![]),
                BookItem::Separator,
            ]),
            BookItem::PartTitle("_Part".to_string()),
            entry("B", "b.md", vec![renamed("B1", "_b1.md", "b1.md", vec![entry(
                "B2",
                "_dir/b2.md",
                vec![],
            )])]),
        ]
    );
}

#[test]
fn strip_goes_by_the_source_and_renames_the_output() {
    let mut moved = chapter("A", Some("_draft.md"), None, vec![]);
    moved.path = Some("out/index.md".to_string());
    let mut draft = chapter("B", Some("_draft.md"), None, vec![]);
    draft.path = None;
    let mut plain = chapter("C", Some("plain.md"), None, vec![]);
    plain.path = Some("_odd.md".to_string());
    let out = Internal::strip_prefix_from_chapter_path(
        vec![BookItem::Chapter(moved), BookItem::Chapter(draft), BookItem::Chapter(plain)],
        "_",
    );
    let paths: Vec<Option<String>> = out
        .iter()
        .map(|item| match item {
            BookItem::Chapter(c) => c.path.clone(),
            _ => None,
        })
        .collect();
    assert_eq!(paths, vec![Some("out/index.md".to_string()), None, Some("_odd.md".to_string())]);
}

#[test]
fn renumbering_skips_chapters_without_number() {
    let items = vec![
        numbered("One", Some(vec![1]), vec![]),
        BookItem::Separator,
        numbered("Loose", None, vec![numbered("Kept", Some(vec![7, 7]), vec![])]),
        numbered("Two", Some(vec![2]), vec![]),
    ];
    let mut nested = Vec::new();
    let out = recalculate_chapter_numbers_recursive(items, &mut nested);
    assert_eq!(
        out,
        vec![
            numbered("One", Some(vec![1]), vec![]),
            BookItem::Separator,
            numbered("Loose", None, vec![numbered("Kept", Some(vec![7, 7]), vec![])]),
            numbered("Two", Some(vec![2]), vec![]),
        ]
    );
    assert_eq!(nested, Vec::<u32>::new());
}

#[test]
fn renumbering_closes_gaps() {
    let items = vec![
        BookItem::PartTitle("Part".to_string()),
        numbered("a", Some(vec![2]), vec![]),
        numbered("b", None, vec![]),
        numbered("c", Some(vec![5]), vec![]),
        BookItem::Separator,
        numbered("d", Some(vec![9, 9, 9]), vec![]),
    ];
    let mut nested = Vec::new();
    let out = Internal::recalculate_chapter_numbers(items, &mut nested);
    let numbers: Vec<Option<Vec<u32>>> = out
        .iter()
        .filter(|item| matches!(item, BookItem::Chapter(_)))
        .map(number_of)
        .collect();
    assert_eq!(numbers, vec![Some(vec![1]), None, Some(vec![2]), Some(vec![3])]);
}

#[test]
fn renumbering_nests_below_the_new_number() {
    let items = vec![
        numbered("skipped", None, vec![]),
        numbered("first", Some(vec![3]), vec![]),
        numbered("parent", Some(vec![4]), vec![
            numbered("x", Some(vec![4, 2]), vec![numbered("deep", Some(vec![1]), vec![])]),
            BookItem::Separator,
            numbered("y", Some(vec![4, 5]), vec![]),
        ]),
    ];
    let mut nested = Vec::new();
    let out = recalculate_chapter_numbers_recursive(items, &mut nested);
    assert_eq!(number_of(&out[1]), Some(vec![1]));
    assert_eq!(number_of(&out[2]), Some(vec![2]));
    let children = below(&out[2]);
    assert_eq!(number_of(&children[0]), Some(vec![2, 1]));
    assert_eq!(number_of(&children[2]), Some(vec![2, 2]));
    assert_eq!(number_of(&below(&children[0])[0]), Some(vec![2, 1, 1]));
    assert_eq!(nested, Vec::<u32>::new());
}

#[test]
fn renumbering_starts_below_the_given_number() {
    let items = vec![numbered("a", Some(vec![]), vec![numbered("b", Some(vec![]), vec![])])];
    let mut nested = vec![4, 2];
    let out = recalculate_chapter_numbers_recursive(items, &mut nested);
    assert_eq!(number_of(&out[0]), Some(vec![4, 2, 1]));
    assert_eq!(number_of(&below(&out[0])[0]), Some(vec![4, 2, 1, 1]));
    assert_eq!(nested, vec![4, 2]);
}

#[test]
fn renumbering_of_nothing() {
    let mut nested = Vec::new();
    assert_eq!(recalculate_chapter_numbers_recursive(vec![], &mut nested), vec![]);
}

#[test]
fn small_books_are_numberable() {
    assert!(is_numberable(&vec![]));
    assert!(is_numberable(&vec![
        numbered("a", Some(vec![1]), vec![numbered("b", None, vec![BookItem::Separator])]),
        BookItem::PartTitle("p".to_string()),
    ]));
}

#[test]
fn chapters_follow_the_mode() {
    let book = || Book {
        sections: vec![entry("A", "_a.md", vec![entry("B", "b.md", vec![])]), entry("C", "c.md", vec![])],
    };
    let mut config = settings(Children::Remove);
    let removed = internalise_chapters(book(), true, &config);
    assert_eq!(removed, Book { sections: vec![entry("C", "c.md", vec![])] });
    assert_eq!(internalise_chapters(book(), false, &config), book());
    config.strip = true;
    let stripped = internalise_chapters(book(), false, &config);
    assert_eq!(count(&stripped.sections), 3);
    match &stripped.sections[0] {
        BookItem::Chapter(a) => assert_eq!(a.path, Some("a.md".to_string())),
        _ => panic!("not a chapter"),
    }
    let removed = internalise_chapters(book(), true, &config);
    assert_eq!(removed, Book { sections: vec![entry("C", "c.md", vec![])] });
}

#[test]
fn chapters_without_prefix_are_left_alone() {
    let book = || Book { sections: vec![entry("A", "_a.md", vec![entry("B", "b.md", vec![])])] };
    let config = Chapters { prefix: None, strip: true, recalculate: true, children: Children::Remove };
    assert_eq!(internalise_chapters(book(), true, &config), book());
    assert_eq!(internalise_chapters(book(), false, &config), book());
}
