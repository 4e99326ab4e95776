//! The configuration and how it is decoded from a table.
use vstd::prelude::*;
use vstd::string::StringExecFns;
use toml::value::Table;
use crate::table::{entries, lookup, opt_setting, Setting, SettingView};
use crate::text::opt_text;

verus! {

// The built-in settings.
pub const DEFAULT_REMOVE: bool = false;

pub const DEFAULT_SECTIONS_COMMENT: &'static str = "internal";

pub const DEFAULT_SECTIONS_WRAP: &'static str = "blockquote";

pub const DEFAULT_SECTIONS_CLASS: &'static str = "mdbook-internal";

pub const DEFAULT_SECTIONS_LABEL: &'static str = "Internal";

pub const DEFAULT_SECTIONS_STYLE_WRAP: &'static str = "position: relative; padding: 20px 20px;";

pub const DEFAULT_SECTIONS_STYLE_LABEL: &'static str =
    "position: absolute; top: 0; right: 5px; font-size: 80%; opacity: 0.4;";

pub const DEFAULT_CHAPTERS_PREFIX: &'static str = "_";

pub const DEFAULT_CHAPTERS_STRIP: bool = false;

pub const DEFAULT_CHAPTERS_RECALCULATE: bool = true;

// The messages of the errors, one for each key that decoding reads.
pub const INVALID_REMOVE: &'static str = "`remove` must be a boolean";

pub const INVALID_SECTIONS: &'static str = "`sections` must be an object/map/table, or a boolean";

pub const INVALID_SECTIONS_COMMENT: &'static str = "`sections.comment` must be string or boolean";

pub const INVALID_SECTIONS_WRAP: &'static str = "`sections.wrap` must be string or boolean";

pub const INVALID_SECTIONS_CLASS: &'static str = "`sections.class` must be string or boolean";

pub const INVALID_SECTIONS_LABEL: &'static str = "`sections.label` must be string or boolean";

pub const INVALID_SECTIONS_STYLES: &'static str =
    "`sections.styles` must be an object/map/table, or a boolean";

pub const INVALID_STYLE_WRAP: &'static str = "`sections.style.wrap` must be string or boolean";

pub const INVALID_STYLE_LABEL: &'static str = "`sections.style.label` must be string or boolean";

pub const INVALID_CHAPTERS: &'static str = "`chapters` must be an object/map/table, or a boolean";

pub const INVALID_CHAPTERS_PREFIX: &'static str = "`chapters.prefix` must be string or boolean";

pub const INVALID_CHAPTERS_STRIP: &'static str = "`chapters.strip` must be a boolean";

pub const INVALID_CHAPTERS_RECALCULATE: &'static str = "`chapters.recalculate` must be a boolean";

pub const INVALID_CHAPTERS_CHILDREN: &'static str =
    "`chapters.children` must be \"keep\" or \"remove\"";

/// A configuration that could not be decoded. Its view is the message, which
/// names the key at fault and what that key may hold.
#[derive(Debug)]
pub struct ConfigError {
    message: &'static str,
}

impl View for ConfigError {
    type V = Seq<char>;

    closed spec fn view(&self) -> Seq<char> {
        self.message@
    }
}

impl ConfigError {
    /// An error with the given message.
    pub fn new(message: &'static str) -> (error: Self)
        ensures
            error@ == message@,
    {
        Self { message }
    }

    /// The message as an owned string.
    pub fn message(&self) -> (text: String)
        ensures
            text@ == self@,
    {
        String::from_str(self.message)
    }
}

/// What decoding gives: the decoded value's view, or the message of the error.
pub open spec fn outcome<T: View>(result: Result<T, ConfigError>) -> Result<T::V, Seq<char>> {
    match result {
        Ok(value) => Ok(value@),
        Err(error) => Err(error@),
    }
}

/// A key that holds a string, a boolean or nothing: `true` and an absent key
/// select `default`, a string stands for itself, `false` switches the feature
/// off, and any other value is an error with the message `complaint`.
pub open spec fn tri_state(
    found: Option<SettingView>,
    default: Seq<char>,
    complaint: Seq<char>,
) -> Result<Option<Seq<char>>, Seq<char>> {
    match found {
        None => Ok(Some(default)),
        Some(SettingView::Flag(true)) => Ok(Some(default)),
        Some(SettingView::Flag(false)) => Ok(None),
        Some(SettingView::Text(text)) => Ok(Some(text)),
        Some(_) => Err(complaint),
    }
}

/// A key that holds a boolean or nothing: an absent key selects `default`, and
/// any value but a boolean is an error with the message `complaint`.
pub open spec fn toggle(found: Option<SettingView>, default: bool, complaint: Seq<char>) -> Result<
    bool,
    Seq<char>,
> {
    match found {
        None => Ok(default),
        Some(SettingView::Flag(flag)) => Ok(flag),
        Some(_) => Err(complaint),
    }
}

/// Resolves a key that holds a string, a boolean or nothing.
fn resolve_text(found: Option<Setting>, default: &'static str, complaint: &'static str) -> (result:
    Result<Option<String>, ConfigError>)
    ensures
        match result {
            Ok(text) => tri_state(opt_setting(found), default@, complaint@) == Ok::<
                Option<Seq<char>>,
                Seq<char>,
            >(opt_text(text)),
            Err(error) => tri_state(opt_setting(found), default@, complaint@) == Err::<
                Option<Seq<char>>,
                Seq<char>,
            >(error@),
        },
{
    match found {
        None => Ok(Some(String::from_str(default))),
        Some(Setting::Flag(true)) => Ok(Some(String::from_str(default))),
        Some(Setting::Flag(false)) => Ok(None),
        Some(Setting::Text(text)) => Ok(Some(text)),
        Some(_) => Err(ConfigError::new(complaint)),
    }
}

/// Resolves a key that holds a boolean or nothing.
fn resolve_flag(found: Option<Setting>, default: bool, complaint: &'static str) -> (result: Result<
    bool,
    ConfigError,
>)
    ensures
        match result {
            Ok(flag) => toggle(opt_setting(found), default, complaint@) == Ok::<bool, Seq<char>>(
                flag,
            ),
            Err(error) => toggle(opt_setting(found), default, complaint@) == Err::<bool, Seq<char>>(
                error@,
            ),
        },
{
    match found {
        None => Ok(default),
        Some(Setting::Flag(flag)) => Ok(flag),
        Some(_) => Err(ConfigError::new(complaint)),
    }
}

/// Inline styles for the wrapper element and for the label element.
#[derive(Debug, PartialEq)]
pub struct Inline {
    pub wrap: Option<String>,
    pub label: Option<String>,
}

/// Inline styles as a value.
pub struct InlineView {
    pub wrap: Option<Seq<char>>,
    pub label: Option<Seq<char>>,
}

impl View for Inline {
    type V = InlineView;

    open spec fn view(&self) -> InlineView {
        InlineView { wrap: opt_text(self.wrap), label: opt_text(self.label) }
    }
}

impl InlineView {
    /// The built-in styles.
    pub open spec fn standard() -> InlineView {
        InlineView {
            wrap: Some(DEFAULT_SECTIONS_STYLE_WRAP@),
            label: Some(DEFAULT_SECTIONS_STYLE_LABEL@),
        }
    }

    /// The styles that a `styles` table asks for, or the message for the first
    /// key, in the order `wrap`, `label`, that holds a value of the wrong kind.
    pub open spec fn decoded(settings: Map<Seq<char>, SettingView>) -> Result<
        InlineView,
        Seq<char>,
    > {
        let wrap = tri_state(
            settings.get("wrap"@),
            DEFAULT_SECTIONS_STYLE_WRAP@,
            INVALID_STYLE_WRAP@,
        );
        let label = tri_state(
            settings.get("label"@),
            DEFAULT_SECTIONS_STYLE_LABEL@,
            INVALID_STYLE_LABEL@,
        );
        if wrap is Err {
            Err(wrap->Err_0)
        } else if label is Err {
            Err(label->Err_0)
        } else {
            Ok(InlineView { wrap: wrap->Ok_0, label: label->Ok_0 })
        }
    }
}

impl Default for Inline {
    fn default() -> (styles: Self)
        ensures
            styles@ == InlineView::standard(),
    {
        Self {
            wrap: Some(String::from_str(DEFAULT_SECTIONS_STYLE_WRAP)),
            label: Some(String::from_str(DEFAULT_SECTIONS_STYLE_LABEL)),
        }
    }
}

impl Inline {
    /// Decodes a `styles` table.
    pub fn from_context(config: &Table) -> (result: Result<Self, ConfigError>)
        ensures
            outcome(result) == InlineView::decoded(entries(*config)),
    {
        let wrap = resolve_text(
            lookup(config, "wrap"),
            DEFAULT_SECTIONS_STYLE_WRAP,
            INVALID_STYLE_WRAP,
        )?;
        let label = resolve_text(
            lookup(config, "label"),
            DEFAULT_SECTIONS_STYLE_LABEL,
            INVALID_STYLE_LABEL,
        )?;
        Ok(Self { wrap, label })
    }
}

/// How marked sections inside a chapter's text are handled. Without a
/// `comment` keyword they are left alone.
#[derive(Debug, PartialEq)]
pub struct Sections {
    pub comment: Option<String>,
    pub wrap: Option<String>,
    pub class: Option<String>,
    pub label: Option<String>,
    pub styles: Option<Inline>,
}

/// The settings for sections as a value.
pub struct SectionsView {
    pub comment: Option<Seq<char>>,
    pub wrap: Option<Seq<char>>,
    pub class: Option<Seq<char>>,
    pub label: Option<Seq<char>>,
    pub styles: Option<InlineView>,
}

impl View for Sections {
    type V = SectionsView;

    open spec fn view(&self) -> SectionsView {
        SectionsView {
            comment: opt_text(self.comment),
            wrap: opt_text(self.wrap),
            class: opt_text(self.class),
            label: opt_text(self.label),
            styles: match self.styles {
                Some(styles) => Some(styles@),
                None => None,
            },
        }
    }
}

/// One attribute of an element, with the blank before it; nothing where the
/// attribute has no value.
pub open spec fn attribute(name: Seq<char>, value: Option<Seq<char>>) -> Seq<char> {
    match value {
        Some(v) => " "@ + name + "='"@ + v + "'"@,
        None => Seq::empty(),
    }
}

/// The start tag of `element`, with a class and a style where each is given.
pub open spec fn start_tag(
    element: Seq<char>,
    class: Option<Seq<char>>,
    style: Option<Seq<char>>,
) -> Seq<char> {
    "<"@ + element + attribute("class"@, class) + attribute("style"@, style) + ">"@
}

/// The end tag of `element`.
pub open spec fn end_tag(element: Seq<char>) -> Seq<char> {
    "</"@ + element + ">"@
}

impl SectionsView {
    /// The built-in settings.
    pub open spec fn standard() -> SectionsView {
        SectionsView {
            comment: Some(DEFAULT_SECTIONS_COMMENT@),
            wrap: Some(DEFAULT_SECTIONS_WRAP@),
            class: Some(DEFAULT_SECTIONS_CLASS@),
            label: Some(DEFAULT_SECTIONS_LABEL@),
            styles: Some(InlineView::standard()),
        }
    }

    /// The built-in settings without a keyword: marked sections are left alone.
    pub open spec fn disabled() -> SectionsView {
        SectionsView { comment: None, ..SectionsView::standard() }
    }

    /// What the key `styles` asks for: `true` and an absent key select the
    /// built-in styles, `false` none, a table what it decodes to.
    pub open spec fn decoded_styles(found: Option<SettingView>) -> Result<
        Option<InlineView>,
        Seq<char>,
    > {
        match found {
            None => Ok(Some(InlineView::standard())),
            Some(SettingView::Flag(true)) => Ok(Some(InlineView::standard())),
            Some(SettingView::Flag(false)) => Ok(None),
            Some(SettingView::Group(group)) => match InlineView::decoded(group) {
                Ok(styles) => Ok(Some(styles)),
                Err(message) => Err(message),
            },
            Some(_) => Err(INVALID_SECTIONS_STYLES@),
        }
    }

    /// The settings that a `sections` table asks for, or the message for the
    /// first key, in the order `comment`, `wrap`, `class`, `label`, `styles`,
    /// that holds a value of the wrong kind.
    pub open spec fn decoded(settings: Map<Seq<char>, SettingView>) -> Result<
        SectionsView,
        Seq<char>,
    > {
        let comment = tri_state(
            settings.get("comment"@),
            DEFAULT_SECTIONS_COMMENT@,
            INVALID_SECTIONS_COMMENT@,
        );
        let wrap = tri_state(settings.get("wrap"@), DEFAULT_SECTIONS_WRAP@, INVALID_SECTIONS_WRAP@);
        let class = tri_state(
            settings.get("class"@),
            DEFAULT_SECTIONS_CLASS@,
            INVALID_SECTIONS_CLASS@,
        );
        let label = tri_state(
            settings.get("label"@),
            DEFAULT_SECTIONS_LABEL@,
            INVALID_SECTIONS_LABEL@,
        );
        let styles = SectionsView::decoded_styles(settings.get("styles"@));
        if comment is Err {
            Err(comment->Err_0)
        } else if wrap is Err {
            Err(wrap->Err_0)
        } else if class is Err {
            Err(class->Err_0)
        } else if label is Err {
            Err(label->Err_0)
        } else if styles is Err {
            Err(styles->Err_0)
        } else {
            Ok(
                SectionsView {
                    comment: comment->Ok_0,
                    wrap: wrap->Ok_0,
                    class: class->Ok_0,
                    label: label->Ok_0,
                    styles: styles->Ok_0,
                },
            )
        }
    }

    /// The inline style of the wrapper element, if any.
    pub open spec fn wrap_style(self) -> Option<Seq<char>> {
        match self.styles {
            Some(styles) => styles.wrap,
            None => None,
        }
    }

    /// The inline style of the label element, if any.
    pub open spec fn label_style(self) -> Option<Seq<char>> {
        match self.styles {
            Some(styles) => styles.label,
            None => None,
        }
    }

    /// The label: a `span` that holds the label text, with the class and the
    /// label's style where each is set; nothing without a label text.
    pub open spec fn label_element(self) -> Seq<char> {
        match self.label {
            Some(label) => start_tag("span"@, self.class, self.label_style()) + label + end_tag(
                "span"@,
            ),
            None => Seq::empty(),
        }
    }

    /// What opens a wrapped section: on lines of their own the wrapper's start
    /// tag, with the class and the wrapper's style where each is set, and the
    /// label; nothing without a wrapper element.
    pub open spec fn opening_tag(self) -> Seq<char> {
        match self.wrap {
            Some(wrap) => "\n"@ + start_tag(wrap, self.class, self.wrap_style()) + "\n"@
                + self.label_element() + "\n"@,
            None => Seq::empty(),
        }
    }

    /// What closes a wrapped section: the wrapper's end tag on a line of its
    /// own; nothing without a wrapper element.
    pub open spec fn closing_tag(self) -> Seq<char> {
        match self.wrap {
            Some(wrap) => "\n"@ + end_tag(wrap) + "\n"@,
            None => Seq::empty(),
        }
    }
}

impl Default for Sections {
    fn default() -> (sections: Self)
        ensures
            sections@ == SectionsView::standard(),
    {
        Self {
            comment: Some(String::from_str(DEFAULT_SECTIONS_COMMENT)),
            wrap: Some(String::from_str(DEFAULT_SECTIONS_WRAP)),
            class: Some(String::from_str(DEFAULT_SECTIONS_CLASS)),
            label: Some(String::from_str(DEFAULT_SECTIONS_LABEL)),
            styles: Some(Inline::default()),
        }
    }
}

/// Appends one attribute, if it has a value.
fn push_attribute(out: &mut String, name: &str, value: &Option<String>)
    ensures
        final(out)@ == old(out)@ + attribute(name@, opt_text(*value)),
{
    match value {
        Some(v) => {
            out.append(" ");
            out.append(name);
            out.append("='");
            out.append(v.as_str());
            out.append("'");
        },
        None => {},
    }
}

/// Appends the start tag of `element`.
fn push_start_tag(out: &mut String, element: &str, class: &Option<String>, style: &Option<String>)
    ensures
        final(out)@ == old(out)@ + start_tag(element@, opt_text(*class), opt_text(*style)),
{
    out.append("<");
    out.append(element);
    push_attribute(out, "class", class);
    push_attribute(out, "style", style);
    out.append(">");
}

/// Appends the end tag of `element`.
fn push_end_tag(out: &mut String, element: &str)
    ensures
        final(out)@ == old(out)@ + end_tag(element@),
{
    out.append("</");
    out.append(element);
    out.append(">");
}

impl Sections {
    /// The built-in settings without a keyword.
    pub fn disabled() -> (sections: Self)
        ensures
            sections@ == SectionsView::disabled(),
    {
        Self {
            comment: None,
            wrap: Some(String::from_str(DEFAULT_SECTIONS_WRAP)),
            class: Some(String::from_str(DEFAULT_SECTIONS_CLASS)),
            label: Some(String::from_str(DEFAULT_SECTIONS_LABEL)),
            styles: Some(Inline::default()),
        }
    }

    /// Decodes a `sections` table.
    pub fn from_context(config: &Table) -> (result: Result<Self, ConfigError>)
        ensures
            outcome(result) == SectionsView::decoded(entries(*config)),
    {
        let comment = resolve_text(
            lookup(config, "comment"),
            DEFAULT_SECTIONS_COMMENT,
            INVALID_SECTIONS_COMMENT,
        )?;
        let wrap = resolve_text(lookup(config, "wrap"), DEFAULT_SECTIONS_WRAP, INVALID_SECTIONS_WRAP)?;
        let class = resolve_text(
            lookup(config, "class"),
            DEFAULT_SECTIONS_CLASS,
            INVALID_SECTIONS_CLASS,
        )?;
        let label = resolve_text(
            lookup(config, "label"),
            DEFAULT_SECTIONS_LABEL,
            INVALID_SECTIONS_LABEL,
        )?;
        let styles = match lookup(config, "styles") {
            None => Some(Inline::default()),
            Some(Setting::Flag(true)) => Some(Inline::default()),
            Some(Setting::Flag(false)) => None,
            Some(Setting::Group(table)) => Some(Inline::from_context(&table)?),
            Some(_) => {
                return Err(ConfigError::new(INVALID_SECTIONS_STYLES));
            },
        };
        Ok(Self { comment, wrap, class, label, styles })
    }

    /// What opens a wrapped section.
    pub fn get_wrap_opening_tag(&self) -> (tag: String)
        ensures
            tag@ == self@.opening_tag(),
    {
        let mut tag = String::new();
        if let Some(wrap) = &self.wrap {
            let no_style: Option<String> = None;
            let (wrap_style, label_style) = match &self.styles {
                Some(styles) => (&styles.wrap, &styles.label),
                None => (&no_style, &no_style),
            };
            tag.append("\n");
            push_start_tag(&mut tag, wrap.as_str(), &self.class, wrap_style);
            tag.append("\n");
            if let Some(label) = &self.label {
                push_start_tag(&mut tag, "span", &self.class, label_style);
                tag.append(label.as_str());
                push_end_tag(&mut tag, "span");
            }
            tag.append("\n");
        }
        tag
    }

    /// What closes a wrapped section.
    pub fn get_wrap_closing_tag(&self) -> (tag: String)
        ensures
            tag@ == self@.closing_tag(),
    {
        let mut tag = String::new();
        if let Some(wrap) = &self.wrap {
            tag.append("\n");
            push_end_tag(&mut tag, wrap.as_str());
            tag.append("\n");
        }
        tag
    }
}

/// What becomes of an internal chapter's children when the chapter is removed.
#[derive(Clone, Copy, Debug, PartialEq, Eq, Structural)]
pub enum Children {
    /// The chapter stays as an empty holder for the children that are left.
    Keep,
    /// The children go with the chapter.
    Remove,
}

/// What a `chapters` table does with children unless it says otherwise.
pub const DEFAULT_CHAPTERS_CHILDREN: Children = Children::Keep;

/// How chapters with an internal source file are handled. Without a `prefix`
/// no chapter is internal.
#[derive(Debug, PartialEq)]
pub struct Chapters {
    pub prefix: Option<String>,
    pub strip: bool,
    pub recalculate: bool,
    pub children: Children,
}

/// The settings for chapters as a value.
pub struct ChaptersView {
    pub prefix: Option<Seq<char>>,
    pub strip: bool,
    pub recalculate: bool,
    pub children: Children,
}

impl View for Chapters {
    type V = ChaptersView;

    open spec fn view(&self) -> ChaptersView {
        ChaptersView {
            prefix: opt_text(self.prefix),
            strip: self.strip,
            recalculate: self.recalculate,
            children: self.children,
        }
    }
}

impl ChaptersView {
    /// The built-in settings, under which children go with their chapter.
    pub open spec fn standard() -> ChaptersView {
        ChaptersView {
            prefix: Some(DEFAULT_CHAPTERS_PREFIX@),
            strip: DEFAULT_CHAPTERS_STRIP,
            recalculate: DEFAULT_CHAPTERS_RECALCULATE,
            children: Children::Remove,
        }
    }

    /// The built-in settings without a prefix: no chapter is internal.
    pub open spec fn disabled() -> ChaptersView {
        ChaptersView { prefix: None, ..ChaptersView::standard() }
    }

    /// What the key `children` asks for: the text `remove` or `keep`; an
    /// absent key keeps the children.
    pub open spec fn decoded_children(found: Option<SettingView>) -> Result<Children, Seq<char>> {
        match found {
            None => Ok(DEFAULT_CHAPTERS_CHILDREN),
            Some(SettingView::Text(text)) => if text == "remove"@ {
                Ok(Children::Remove)
            } else if text == "keep"@ {
                Ok(Children::Keep)
            } else {
                Err(INVALID_CHAPTERS_CHILDREN@)
            },
            Some(_) => Err(INVALID_CHAPTERS_CHILDREN@),
        }
    }

    /// The settings that a `chapters` table asks for, or the message for the
    /// first key, in the order `prefix`, `strip`, `recalculate`, `children`,
    /// that holds a value of the wrong kind.
    pub open spec fn decoded(settings: Map<Seq<char>, SettingView>) -> Result<
        ChaptersView,
        Seq<char>,
    > {
        let prefix = tri_state(
            settings.get("prefix"@),
            DEFAULT_CHAPTERS_PREFIX@,
            INVALID_CHAPTERS_PREFIX@,
        );
        let strip = toggle(settings.get("strip"@), DEFAULT_CHAPTERS_STRIP, INVALID_CHAPTERS_STRIP@);
        let recalculate = toggle(
            settings.get("recalculate"@),
            DEFAULT_CHAPTERS_RECALCULATE,
            INVALID_CHAPTERS_RECALCULATE@,
        );
        let children = ChaptersView::decoded_children(settings.get("children"@));
        if prefix is Err {
            Err(prefix->Err_0)
        } else if strip is Err {
            Err(strip->Err_0)
        } else if recalculate is Err {
            Err(recalculate->Err_0)
        } else if children is Err {
            Err(children->Err_0)
        } else {
            Ok(
                ChaptersView {
                    prefix: prefix->Ok_0,
                    strip: strip->Ok_0,
                    recalculate: recalculate->Ok_0,
                    children: children->Ok_0,
                },
            )
        }
    }
}

impl Default for Chapters {
    fn default() -> (chapters: Self)
        ensures
            chapters@ == ChaptersView::standard(),
    {
        Self {
            prefix: Some(String::from_str(DEFAULT_CHAPTERS_PREFIX)),
            strip: DEFAULT_CHAPTERS_STRIP,
            recalculate: DEFAULT_CHAPTERS_RECALCULATE,
            children: Children::Remove,
        }
    }
}

impl Chapters {
    /// The built-in settings without a prefix.
    pub fn disabled() -> (chapters: Self)
        ensures
            chapters@ == ChaptersView::disabled(),
    {
        Self {
            prefix: None,
            strip: DEFAULT_CHAPTERS_STRIP,
            recalculate: DEFAULT_CHAPTERS_RECALCULATE,
            children: Children::Remove,
        }
    }

    /// Decodes a `chapters` table.
    pub fn from_context(config: &Table) -> (result: Result<Self, ConfigError>)
        ensures
            outcome(result) == ChaptersView::decoded(entries(*config)),
    {
        let prefix = resolve_text(
            lookup(config, "prefix"),
            DEFAULT_CHAPTERS_PREFIX,
            INVALID_CHAPTERS_PREFIX,
        )?;
        let strip = resolve_flag(
            lookup(config, "strip"),
            DEFAULT_CHAPTERS_STRIP,
            INVALID_CHAPTERS_STRIP,
        )?;
        let recalculate = resolve_flag(
            lookup(config, "recalculate"),
            DEFAULT_CHAPTERS_RECALCULATE,
            INVALID_CHAPTERS_RECALCULATE,
        )?;
        let children = match lookup(config, "children") {
            None => DEFAULT_CHAPTERS_CHILDREN,
            Some(Setting::Text(value)) => {
                if value == String::from_str("remove") {
                    Children::Remove
                } else if value == String::from_str("keep") {
                    Children::Keep
                } else {
                    return Err(ConfigError::new(INVALID_CHAPTERS_CHILDREN));
                }
            },
            Some(_) => {
                return Err(ConfigError::new(INVALID_CHAPTERS_CHILDREN));
            },
        };
        Ok(Self { prefix, strip, recalculate, children })
    }
}

/// The whole configuration: whether internal content is removed or only
/// marked, and the settings for sections and for chapters.
#[derive(Debug, PartialEq)]
pub struct Config {
    pub remove: bool,
    pub sections: Sections,
    pub chapters: Chapters,
}

/// The whole configuration as a value.
pub struct ConfigView {
    pub remove: bool,
    pub sections: SectionsView,
    pub chapters: ChaptersView,
}

impl View for Config {
    type V = ConfigView;

    open spec fn view(&self) -> ConfigView {
        ConfigView { remove: self.remove, sections: self.sections@, chapters: self.chapters@ }
    }
}

impl ConfigView {
    /// The built-in configuration: nothing is removed.
    pub open spec fn standard() -> ConfigView {
        ConfigView {
            remove: DEFAULT_REMOVE,
            sections: SectionsView::standard(),
            chapters: ChaptersView::standard(),
        }
    }

    /// What the key `sections` asks for: `true` and an absent key select the
    /// built-in settings, `false` switches sections off, a table is decoded.
    pub open spec fn decoded_sections(found: Option<SettingView>) -> Result<
        SectionsView,
        Seq<char>,
    > {
        match found {
            None => Ok(SectionsView::standard()),
            Some(SettingView::Flag(true)) => Ok(SectionsView::standard()),
            Some(SettingView::Flag(false)) => Ok(SectionsView::disabled()),
            Some(SettingView::Group(group)) => SectionsView::decoded(group),
            Some(_) => Err(INVALID_SECTIONS@),
        }
    }

    /// What the key `chapters` asks for: `true` and an absent key select the
    /// built-in settings, `false` switches chapters off, a table is decoded.
    pub open spec fn decoded_chapters(found: Option<SettingView>) -> Result<
        ChaptersView,
        Seq<char>,
    > {
        match found {
            None => Ok(ChaptersView::standard()),
            Some(SettingView::Flag(true)) => Ok(ChaptersView::standard()),
            Some(SettingView::Flag(false)) => Ok(ChaptersView::disabled()),
            Some(SettingView::Group(group)) => ChaptersView::decoded(group),
            Some(_) => Err(INVALID_CHAPTERS@),
        }
    }

    /// The configuration that a table asks for, or the message for the first
    /// key, in the order `remove`, `sections`, `chapters`, at fault. Keys that
    /// decoding does not know are not read.
    pub open spec fn decoded(settings: Map<Seq<char>, SettingView>) -> Result<
        ConfigView,
        Seq<char>,
    > {
        let remove = toggle(settings.get("remove"@), DEFAULT_REMOVE, INVALID_REMOVE@);
        let sections = ConfigView::decoded_sections(settings.get("sections"@));
        let chapters = ConfigView::decoded_chapters(settings.get("chapters"@));
        if remove is Err {
            Err(remove->Err_0)
        } else if sections is Err {
            Err(sections->Err_0)
        } else if chapters is Err {
            Err(chapters->Err_0)
        } else {
            Ok(
                ConfigView {
                    remove: remove->Ok_0,
                    sections: sections->Ok_0,
                    chapters: chapters->Ok_0,
                },
            )
        }
    }
}

impl Default for Config {
    fn default() -> (config: Self)
        ensures
            config@ == ConfigView::standard(),
    {
        Self {
            remove: DEFAULT_REMOVE,
            sections: Sections::default(),
            chapters: Chapters::default(),
        }
    }
}

impl Config {
    /// Decodes the preprocessor's table.
    pub fn from_context(config: &Table) -> (result: Result<Self, ConfigError>)
        ensures
            outcome(result) == ConfigView::decoded(entries(*config)),
    {
        let remove = resolve_flag(lookup(config, "remove"), DEFAULT_REMOVE, INVALID_REMOVE)?;
        let sections = match lookup(config, "sections") {
            None => Sections::default(),
            Some(Setting::Flag(true)) => Sections::default(),
            Some(Setting::Flag(false)) => Sections::disabled(),
            Some(Setting::Group(table)) => Sections::from_context(&table)?,
            Some(_) => {
                return Err(ConfigError::new(INVALID_SECTIONS));
            },
        };
        let chapters = match lookup(config, "chapters") {
            None => Chapters::default(),
            Some(Setting::Flag(true)) => Chapters::default(),
            Some(Setting::Flag(false)) => Chapters::disabled(),
            Some(Setting::Group(table)) => Chapters::from_context(&table)?,
            Some(_) => {
                return Err(ConfigError::new(INVALID_CHAPTERS));
            },
        };
        Ok(Self { remove, sections, chapters })
    }
}

} // verus!
