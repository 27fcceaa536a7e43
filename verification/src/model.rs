//! The data a query works on and the results it yields, each with its
//! mathematical model.

use vstd::prelude::*;

verus! {

/// An installed extension and the keyword that routes typed text to it.
#[derive(Debug, Clone, PartialEq, Eq)]
pub struct ExtensionEntry {
    pub id: String,
    pub keyword: String,
}

/// Model of [`ExtensionEntry`].
pub struct ExtensionEntryModel {
    pub id: Seq<char>,
    pub keyword: Seq<char>,
}

impl DeepView for ExtensionEntry {
    type V = ExtensionEntryModel;

    open spec fn deep_view(&self) -> ExtensionEntryModel {
        ExtensionEntryModel { id: self.id@, keyword: self.keyword@ }
    }
}

impl View for ExtensionEntry {
    type V = ExtensionEntryModel;

    open spec fn view(&self) -> ExtensionEntryModel {
        self.deep_view()
    }
}

/// A configured web search: `query` is a URL template in which `%s` stands
/// for the search text.
#[derive(Debug, Clone, PartialEq, Eq)]
pub struct SearchEngine {
    pub keyword: String,
    pub query: String,
    pub icon_path: Option<String>,
    pub tint_icon: bool,
    pub default: bool,
}

/// Model of [`SearchEngine`].
pub struct SearchEngineModel {
    pub keyword: Seq<char>,
    pub query: Seq<char>,
    pub icon_path: Option<Seq<char>>,
    pub tint_icon: bool,
    pub default: bool,
}

impl DeepView for SearchEngine {
    type V = SearchEngineModel;

    open spec fn deep_view(&self) -> SearchEngineModel {
        SearchEngineModel {
            keyword: self.keyword@,
            query: self.query@,
            icon_path: self.icon_path.deep_view(),
            tint_icon: self.tint_icon,
            default: self.default,
        }
    }
}

impl View for SearchEngine {
    type V = SearchEngineModel;

    open spec fn view(&self) -> SearchEngineModel {
        self.deep_view()
    }
}

/// A snapshot of the user's settings, read-only for the length of a query.
/// Where several entries share a keyword, the first in order wins.
#[derive(Debug, Clone, PartialEq, Eq)]
pub struct Settings {
    pub extensions: Vec<ExtensionEntry>,
    pub search_engines: Vec<SearchEngine>,
    /// Executable paths that never appear among the application results.
    pub blacklist: Vec<String>,
}

/// Model of [`Settings`].
pub struct SettingsModel {
    pub extensions: Seq<ExtensionEntryModel>,
    pub search_engines: Seq<SearchEngineModel>,
    pub blacklist: Seq<Seq<char>>,
}

impl DeepView for Settings {
    type V = SettingsModel;

    open spec fn deep_view(&self) -> SettingsModel {
        SettingsModel {
            extensions: self.extensions.deep_view(),
            search_engines: self.search_engines.deep_view(),
            blacklist: self.blacklist.deep_view(),
        }
    }
}

impl View for Settings {
    type V = SettingsModel;

    open spec fn view(&self) -> SettingsModel {
        self.deep_view()
    }
}

/// An application found by the indexer.
#[derive(Debug, Clone, PartialEq, Eq)]
pub struct IndexedApp {
    pub name: String,
    pub exec_path: String,
    pub icon_path: Option<String>,
}

/// Model of [`IndexedApp`].
pub struct IndexedAppModel {
    pub name: Seq<char>,
    pub exec_path: Seq<char>,
    pub icon_path: Option<Seq<char>>,
}

impl DeepView for IndexedApp {
    type V = IndexedAppModel;

    open spec fn deep_view(&self) -> IndexedAppModel {
        IndexedAppModel {
            name: self.name@,
            exec_path: self.exec_path@,
            icon_path: self.icon_path.deep_view(),
        }
    }
}

impl View for IndexedApp {
    type V = IndexedAppModel;

    open spec fn view(&self) -> IndexedAppModel {
        self.deep_view()
    }
}

/// What selecting a result does.
#[derive(Debug, Clone, PartialEq, Eq)]
pub enum ResultAction {
    OpenApp { exec_path: String },
    OpenUrl { url: String },
}

/// Model of [`ResultAction`].
pub enum ResultActionModel {
    OpenApp { exec_path: Seq<char> },
    OpenUrl { url: Seq<char> },
}

impl DeepView for ResultAction {
    type V = ResultActionModel;

    open spec fn deep_view(&self) -> ResultActionModel {
        match self {
            ResultAction::OpenApp { exec_path } => ResultActionModel::OpenApp {
                exec_path: exec_path@,
            },
            ResultAction::OpenUrl { url } => ResultActionModel::OpenUrl { url: url@ },
        }
    }
}

impl View for ResultAction {
    type V = ResultActionModel;

    open spec fn view(&self) -> ResultActionModel {
        self.deep_view()
    }
}

/// One entry of the result list shown for typed text.
#[derive(Debug, Clone, PartialEq, Eq)]
pub enum ResultItem {
    Text { label: String, icon_path: Option<String>, tint_icon: bool, action: ResultAction },
}

/// Model of [`ResultItem`].
pub enum ResultItemModel {
    Text {
        label: Seq<char>,
        icon_path: Option<Seq<char>>,
        tint_icon: bool,
        action: ResultActionModel,
    },
}

impl DeepView for ResultItem {
    type V = ResultItemModel;

    open spec fn deep_view(&self) -> ResultItemModel {
        match self {
            ResultItem::Text { label, icon_path, tint_icon, action } => ResultItemModel::Text {
                label: label@,
                icon_path: icon_path.deep_view(),
                tint_icon: *tint_icon,
                action: action@,
            },
        }
    }
}

impl View for ResultItem {
    type V = ResultItemModel;

    open spec fn view(&self) -> ResultItemModel {
        self.deep_view()
    }
}

/// A copy of an optional text.
pub fn clone_optional_text(text: &Option<String>) -> (copy: Option<String>)
    ensures
        copy.deep_view() == text.deep_view(),
{
    match text {
        Some(t) => Some(t.clone()),
        None => None,
    }
}

/// A copy of a list of texts.
pub fn clone_texts(texts: &Vec<String>) -> (copy: Vec<String>)
    ensures
        copy.deep_view() == texts.deep_view(),
{
    let mut copy: Vec<String> = Vec::new();
    let n = texts.len();
    let mut i: usize = 0;
    while i < n
        invariant
            n == texts.len(),
            i <= n,
            copy.deep_view() =~= texts.deep_view().take(i as int),
        decreases n - i,
    {
        let ghost before = copy.deep_view();
        let text = texts[i].clone();
        copy.push(text);
        assert(copy.deep_view() =~= before.push(text@));
        assert(texts.deep_view().take(i + 1) =~= texts.deep_view().take(i as int).push(
            texts[i as int]@,
        ));
        i += 1;
    }
    assert(texts.deep_view().take(n as int) =~= texts.deep_view());
    copy
}

/// A copy of an optional list of texts.
pub fn clone_optional_texts(texts: &Option<Vec<String>>) -> (copy: Option<Vec<String>>)
    ensures
        copy.deep_view() == texts.deep_view(),
{
    match texts {
        Some(list) => Some(clone_texts(list)),
        None => None,
    }
}

} // verus!
