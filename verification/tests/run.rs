use mdbook_internal::book::{Book, BookItem, Chapter};
use mdbook_internal::context::{Children, Config};
use mdbook_internal::Internal;
use toml::value::{Table, Value};

fn table(entries: Vec<(&str, Value)>) -> Table {
    let mut table = Table::new();
    for (key, value) in entries {
        table.insert(key.to_string(), value);
    }
    table
}

fn page(name: &str, source: &str, number: Option<Vec<u32>>, content: &str, sub_items: Vec<BookItem>) -> BookItem {
    BookItem::Chapter(Chapter {
        name: name.to_string(),
        content: content.to_string(),
        number,
        sub_items,
        path: Some(source.to_string()),
        source_path: Some(source.to_string()),
        parent_names: vec![],
    })
}

fn library() -> Book {
    Book {
        sections: vec![
            page("Preface", "preface.md", None, "Hello.", vec![]),
            page("Plans", "_plans.md", Some(vec![1]), "Secret plans.", vec![
                page("Budget", "_budget.md", Some(vec![1, 1]), "Numbers.", vec![]),
                page("Roadmap", "roadmap.md", Some(vec![1, 2]), "Public.\n<!-- [internal] Private. [/internal] -->\nEnd.", vec![]),
            ]),
            BookItem::Separator,
            page("Guide", "guide.md", Some(vec![2]), "Guide.", vec![
                page("Draft", "guide/_draft.md", Some(vec![2, 1]), "Draft.", vec![]),
                page("Setup", "guide/setup.md", Some(vec![2, 2]), "Setup.", vec![]),
            ]),
        ],
    }
}

#[test]
fn name_of_the_preprocessor() {
    assert_eq!(Internal.name(), "internal");
}

#[test]
fn every_renderer_but_one_is_supported() {
    assert!(Internal.supports_renderer("html"));
    assert!(Internal.supports_renderer("markdown"));
    assert!(Internal.supports_renderer(""));
    assert!(Internal.supports_renderer("not-supported "));
    assert!(Internal.supports_renderer("Not-Supported"));
    assert!(!Internal.supports_renderer("not-supported"));
}

#[test]
fn run_without_a_table_marks_and_keeps() {
    let out = Internal.run(None, library()).unwrap().unwrap();
    let mut expected = library();
    match &mut expected.sections[1] {
        BookItem::Chapter(plans) => match &mut plans.sub_items[1] {
            BookItem::Chapter(roadmap) => {
                roadmap.content = "Public.\n\n<blockquote class='mdbook-internal' style='position: relative; padding: 20px 20px;'>\n<span class='mdbook-internal' style='position: absolute; top: 0; right: 5px; font-size: 80%; opacity: 0.4;'>Internal</span>\n\nPrivate.\n\n</blockquote>\n\nEnd.".to_string();
            },
            _ => panic!("not a chapter"),
        },
        _ => panic!("not a chapter"),
    }
    assert_eq!(out, expected);
}

#[test]
fn run_removes_and_numbers_anew() {
    let config = table(vec![("remove", Value::Boolean(true))]);
    let out = Internal.run(Some(&config), library()).unwrap().unwrap();
    assert_eq!(
        out,
        Book {
            sections: vec![
                page("Preface", "preface.md", None, "Hello.", vec![]),
                BookItem::Separator,
                page("Guide", "guide.md", Some(vec![1]), "Guide.", vec![page(
                    "Setup",
                    "guide/setup.md",
                    Some(vec![1, 1]),
                    "Setup.",
                    vec![],
                )]),
            ],
        }
    );
}

#[test]
fn run_keeps_children_of_removed_chapters() {
    let config = table(vec![
        ("remove", Value::Boolean(true)),
        ("chapters", Value::Table(table(vec![("children", Value::String("keep".to_string()))]))),
    ]);
    let out = Internal.run(Some(&config), library()).unwrap().unwrap();
    let holder = BookItem::Chapter(Chapter {
        name: "Plans".to_string(),
        content: String::new(),
        number: Some(vec![1]),
        sub_items: vec![page("Roadmap", "roadmap.md", Some(vec![1, 1]), "Public.\n\nEnd.", vec![])],
        path: None,
        source_path: None,
        parent_names: vec![],
    });
    assert_eq!(
        out,
        Book {
            sections: vec![
                page("Preface", "preface.md", None, "Hello.", vec![]),
                holder,
                BookItem::Separator,
                page("Guide", "guide.md", Some(vec![2]), "Guide.", vec![page(
                    "Setup",
                    "guide/setup.md",
                    Some(vec![2, 1]),
                    "Setup.",
                    vec![],
                )]),
            ],
        }
    );
}

#[test]
fn run_without_recalculation_keeps_the_numbers() {
    let config = table(vec![
        ("remove", Value::Boolean(true)),
        ("sections", Value::Boolean(false)),
        ("chapters", Value::Table(table(vec![
            ("children", Value::String("remove".to_string())),
            ("recalculate", Value::Boolean(false)),
        ]))),
    ]);
    let out = Internal.run(Some(&config), library()).unwrap().unwrap();
    assert_eq!(
        out.sections[2],
        page("Guide", "guide.md", Some(vec![2]), "Guide.", vec![page(
            "Setup",
            "guide/setup.md",
            Some(vec![2, 2]),
            "Setup.",
            vec![],
        )])
    );
}

#[test]
fn run_strips_prefixes() {
    let config = table(vec![("chapters", Value::Table(table(vec![("strip", Value::Boolean(true))])))]);
    let out = Internal.run(Some(&config), library()).unwrap().unwrap();
    let paths = |items: &Vec<BookItem>| -> Vec<String> {
        items
            .iter()
            .filter_map(|item| match item {
                BookItem::Chapter(chapter) => chapter.path.clone(),
                _ => None,
            })
            .collect()
    };
    assert_eq!(paths(&out.sections), vec!["preface.md", "plans.md", "guide.md"]);
    match (&out.sections[1], &out.sections[3]) {
        (BookItem::Chapter(plans), BookItem::Chapter(guide)) => {
            assert_eq!(paths(&plans.sub_items), vec!["budget.md", "roadmap.md"]);
            assert_eq!(paths(&guide.sub_items), vec!["guide/draft.md", "guide/setup.md"]);
            assert_eq!(plans.source_path, Some("_plans.md".to_string()));
        },
        _ => panic!("not a chapter"),
    }
}

#[test]
fn run_with_everything_off_changes_nothing() {
    let config = table(vec![
        ("remove", Value::Boolean(true)),
        ("sections", Value::Boolean(false)),
        ("chapters", Value::Boolean(false)),
    ]);
    let mut expected = library();
    match &mut expected.sections[1] {
        BookItem::Chapter(plans) => plans.number = Some(vec![1]),
        _ => panic!("not a chapter"),
    }
    assert_eq!(Internal.run(Some(&config), library()).unwrap(), Some(expected));
}

#[test]
fn run_stops_at_a_configuration_error() {
    let config = table(vec![("chapters", Value::Table(table(vec![("children", Value::Boolean(true))])))]);
    let error = Internal.run(Some(&config), library()).unwrap_err();
    assert_eq!(error.message(), "`chapters.children` must be \"keep\" or \"remove\"");
}

#[test]
fn transform_is_run_under_a_decoded_configuration() {
    let config = Config::default();
    assert_eq!(Internal::transform(library(), &config), Internal.run(None, library()).unwrap());
    let mut keep = Config::default();
    keep.remove = true;
    keep.chapters.children = Children::Keep;
    let table = table(vec![
        ("remove", Value::Boolean(true)),
        ("chapters", Value::Table(Table::new())),
    ]);
    assert_eq!(Internal::transform(library(), &keep), Internal.run(Some(&table), library()).unwrap());
}

#[test]
fn transform_of_an_empty_book() {
    assert_eq!(Internal::transform(Book::default(), &Config::default()), Some(Book::default()));
}
