//! The query router: how typed text is resolved, in order of precedence,
//! against extensions, search engines, applications and the default search
//! engine.
//!
//! A query is answered in at most two steps. [`get_search_results`] parses
//! the text and consults the settings: it answers at once, or hands out the
//! extension to invoke, or asks for the indexed applications.
//! [`app_search_results`] takes those applications and ends the query.
//! [`resolve`] takes both steps for a caller that holds the applications.

use crate::error::{answered, LauncherError, LauncherErrorModel, ResultsModel};
use crate::extension::{
    ContextAction, Invocation, InvocationContext, InvocationContextModel, InvocationModel,
    LaunchMode,
};
use crate::matcher::{
    lemma_blacklisted_app_never_listed, match_apps, matched_apps, name_verdicts, opens_app,
    within_match_limits,
};
use crate::model::{
    ExtensionEntry, ExtensionEntryModel, IndexedApp, IndexedAppModel, ResultAction,
    ResultActionModel, ResultItem, ResultItemModel, SearchEngine, SearchEngineModel, Settings,
    SettingsModel,
};
use crate::text::{
    has_keyword, parse_typed_text, parsed_keyword, parsed_search_text, substitute, substituted,
};
use vstd::prelude::*;
use vstd::string::StringExecFns;

verus! {

/// The first of `items`, in their order, that is `wanted`.
pub open spec fn first_where<T>(items: Seq<T>, wanted: spec_fn(T) -> bool) -> Option<T>
    decreases items.len(),
{
    if items.len() == 0 {
        None
    } else if wanted(items[0]) {
        Some(items[0])
    } else {
        first_where(items.drop_first(), wanted)
    }
}

/// The first of `extensions` whose keyword is `keyword`.
pub open spec fn extension_for(extensions: Seq<ExtensionEntryModel>, keyword: Seq<char>) -> Option<
    ExtensionEntryModel,
> {
    first_where(extensions, |e: ExtensionEntryModel| e.keyword == keyword)
}

/// The first of `engines` whose keyword is `keyword`.
pub open spec fn engine_for(engines: Seq<SearchEngineModel>, keyword: Seq<char>) -> Option<
    SearchEngineModel,
> {
    first_where(engines, |e: SearchEngineModel| e.keyword == keyword)
}

/// The first of `engines` that is marked as the default.
pub open spec fn default_engine(engines: Seq<SearchEngineModel>) -> Option<SearchEngineModel> {
    first_where(engines, |e: SearchEngineModel| e.default)
}

/// Where several items are wanted, the first in order wins: what
/// `first_where` yields is wanted and stands before every other wanted
/// item, and it yields nothing only where no item is wanted.
pub proof fn lemma_first_in_order_wins<T>(items: Seq<T>, wanted: spec_fn(T) -> bool)
    ensures
        match first_where(items, wanted) {
            Some(item) => exists|i: int|
                0 <= i < items.len() && #[trigger] items[i] == item && wanted(item) && forall|
                    k: int,
                | 0 <= k < i ==> !wanted(#[trigger] items[k]),
            None => forall|i: int| 0 <= i < items.len() ==> !wanted(#[trigger] items[i]),
        },
    decreases items.len(),
{
    if items.len() > 0 {
        if wanted(items[0]) {
            assert(items[0] == items[0]);
        } else {
            let rest = items.drop_first();
            lemma_first_in_order_wins(rest, wanted);
            match first_where(rest, wanted) {
                Some(item) => {
                    let i = choose|i: int|
                        0 <= i < rest.len() && #[trigger] rest[i] == item && wanted(item) && forall|
                            k: int,
                        | 0 <= k < i ==> !wanted(#[trigger] rest[k]);
                    assert(items[i + 1] == item);
                    assert forall|k: int| 0 <= k < i + 1 implies !wanted(#[trigger] items[k]) by {
                        if k > 0 {
                            assert(items[k] == rest[k - 1]);
                        }
                    }
                },
                None => {
                    assert forall|i: int| 0 <= i < items.len() implies !wanted(
                        #[trigger] items[i],
                    ) by {
                        if i > 0 {
                            assert(items[i] == rest[i - 1]);
                        }
                    }
                },
            }
        }
    }
}

/// The label of a web search for `typed`.
pub open spec fn search_label(typed: Seq<char>) -> Seq<char> {
    "Search for "@ + typed
}

/// The result that searches the web with `engine`: it opens the engine's
/// query template with every `%s` replaced by `search_text` as it is, is
/// labelled with the whole typed text, and carries the engine's icon, or
/// `default_icon` where the engine has none.
pub open spec fn engine_result_model(
    engine: SearchEngineModel,
    search_text: Seq<char>,
    typed: Seq<char>,
    default_icon: Seq<char>,
) -> ResultItemModel {
    ResultItemModel::Text {
        label: search_label(typed),
        icon_path: Some(
            match engine.icon_path {
                Some(path) => path,
                None => default_icon,
            },
        ),
        tint_icon: engine.tint_icon,
        action: ResultActionModel::OpenUrl { url: substituted(engine.query, search_text) },
    }
}

/// The result that searches the web with `engine`.
pub fn engine_result(
    engine: &SearchEngine,
    search_text: &str,
    typed_text: &str,
    default_icon: &str,
) -> (item: ResultItem)
    ensures
        item@ == engine_result_model(engine@, search_text@, typed_text@, default_icon@),
{
    let mut label = String::from_str("Search for ");
    label.append(typed_text);
    let icon_path = match &engine.icon_path {
        Some(path) => path.clone(),
        None => String::from_str(default_icon),
    };
    ResultItem::Text {
        label,
        icon_path: Some(icon_path),
        tint_icon: engine.tint_icon,
        action: ResultAction::OpenUrl { url: substitute(engine.query.as_str(), search_text) },
    }
}

/// Where the first extension with `keyword` stands among `extensions`.
pub fn find_extension(extensions: &Vec<ExtensionEntry>, keyword: &String) -> (found: Option<usize>)
    ensures
        match found {
            Some(i) => i < extensions.len() && extension_for(extensions.deep_view(), keyword@)
                == Some(extensions[i as int]@),
            None => extension_for(extensions.deep_view(), keyword@) is None,
        },
{
    let n = extensions.len();
    let mut i: usize = 0;
    proof {
        assert(extensions.deep_view().skip(0) =~= extensions.deep_view());
    }
    while i < n
        invariant
            n == extensions.len(),
            i <= n,
            extension_for(extensions.deep_view(), keyword@) == extension_for(
                extensions.deep_view().skip(i as int),
                keyword@,
            ),
        decreases n - i,
    {
        proof {
            let rest = extensions.deep_view().skip(i as int);
            assert(rest[0] == extensions[i as int]@);
            assert(rest.drop_first() =~= extensions.deep_view().skip(i + 1));
        }
        if extensions[i].keyword == *keyword {
            return Some(i);
        }
        i += 1;
    }
    None
}

/// Where the first search engine with `keyword` stands among `engines`.
pub fn find_engine(engines: &Vec<SearchEngine>, keyword: &String) -> (found: Option<usize>)
    ensures
        match found {
            Some(i) => i < engines.len() && engine_for(engines.deep_view(), keyword@) == Some(
                engines[i as int]@,
            ),
            None => engine_for(engines.deep_view(), keyword@) is None,
        },
{
    let n = engines.len();
    let mut i: usize = 0;
    proof {
        assert(engines.deep_view().skip(0) =~= engines.deep_view());
    }
    while i < n
        invariant
            n == engines.len(),
            i <= n,
            engine_for(engines.deep_view(), keyword@) == engine_for(
                engines.deep_view().skip(i as int),
                keyword@,
            ),
        decreases n - i,
    {
        proof {
            let rest = engines.deep_view().skip(i as int);
            assert(rest[0] == engines[i as int]@);
            assert(rest.drop_first() =~= engines.deep_view().skip(i + 1));
        }
        if engines[i].keyword == *keyword {
            return Some(i);
        }
        i += 1;
    }
    None
}

/// Where the first default search engine stands among `engines`.
pub fn find_default_engine(engines: &Vec<SearchEngine>) -> (found: Option<usize>)
    ensures
        match found {
            Some(i) => i < engines.len() && default_engine(engines.deep_view()) == Some(
                engines[i as int]@,
            ),
            None => default_engine(engines.deep_view()) is None,
        },
{
    let n = engines.len();
    let mut i: usize = 0;
    proof {
        assert(engines.deep_view().skip(0) =~= engines.deep_view());
    }
    while i < n
        invariant
            n == engines.len(),
            i <= n,
            default_engine(engines.deep_view()) == default_engine(
                engines.deep_view().skip(i as int),
            ),
        decreases n - i,
    {
        proof {
            let rest = engines.deep_view().skip(i as int);
            assert(rest[0] == engines[i as int]@);
            assert(rest.drop_first() =~= engines.deep_view().skip(i + 1));
        }
        if engines[i].default {
            return Some(i);
        }
        i += 1;
    }
    None
}

/// What the first step of a query came to.
#[derive(Debug, PartialEq, Eq)]
pub enum SearchStep {
    /// The query is answered with `results`.
    Done { results: Vec<ResultItem> },
    /// The keyword belongs to an extension: the query is answered with what
    /// `invocation` comes to, results or failure, and with nothing else.
    Invoke { invocation: Invocation },
    /// No keyword applies: the query goes on with the indexed applications.
    MatchApps,
}

/// Model of [`SearchStep`].
pub enum SearchStepModel {
    Done { results: Seq<ResultItemModel> },
    Invoke { invocation: InvocationModel },
    MatchApps,
}

impl DeepView for SearchStep {
    type V = SearchStepModel;

    open spec fn deep_view(&self) -> SearchStepModel {
        match self {
            SearchStep::Done { results } => SearchStepModel::Done { results: results.deep_view() },
            SearchStep::Invoke { invocation } => SearchStepModel::Invoke {
                invocation: invocation@,
            },
            SearchStep::MatchApps => SearchStepModel::MatchApps,
        }
    }
}

impl View for SearchStep {
    type V = SearchStepModel;

    open spec fn view(&self) -> SearchStepModel {
        self.deep_view()
    }
}

/// The invocation that asks the extension `extension_id` for its results on
/// `search_text`, in the foreground.
pub open spec fn results_invocation(
    extension_id: Seq<char>,
    search_text: Seq<char>,
) -> InvocationModel {
    InvocationModel {
        extension_id,
        context: InvocationContextModel {
            action: ContextAction::GetResults,
            search_text: Some(search_text),
            extension_action: None,
            custom_args: None,
        },
        mode: LaunchMode::Foreground,
    }
}

/// The first step of the query for `typed`.
///
/// Empty text is answered with no results. Text with a space is split into
/// keyword and search text: the first extension with that keyword is
/// invoked on the search text; failing that, the first search engine with
/// that keyword answers with its one result. Everything else goes on to the
/// applications.
pub open spec fn first_step(
    typed: Seq<char>,
    settings: SettingsModel,
    default_icon: Seq<char>,
) -> SearchStepModel {
    if typed.len() == 0 {
        SearchStepModel::Done { results: Seq::empty() }
    } else if !has_keyword(typed) {
        SearchStepModel::MatchApps
    } else {
        match extension_for(settings.extensions, parsed_keyword(typed)) {
            Some(extension) => SearchStepModel::Invoke {
                invocation: results_invocation(extension.id, parsed_search_text(typed)),
            },
            None => match engine_for(settings.search_engines, parsed_keyword(typed)) {
                Some(engine) => SearchStepModel::Done {
                    results: seq![
                        engine_result_model(engine, parsed_search_text(typed), typed, default_icon),
                    ],
                },
                None => SearchStepModel::MatchApps,
            },
        }
    }
}

/// The results of the default search engine for `typed`, searched for as it
/// was typed: one result where an engine is marked as the default, none
/// where no engine is.
pub open spec fn fallback_results(
    typed: Seq<char>,
    engines: Seq<SearchEngineModel>,
    default_icon: Seq<char>,
) -> Seq<ResultItemModel> {
    match default_engine(engines) {
        Some(engine) => seq![engine_result_model(engine, typed, typed, default_icon)],
        None => Seq::empty(),
    }
}

/// The second step of the query for `typed`: the applications that match
/// the whole text, or, where none does, the default search engine.
pub open spec fn app_step(
    typed: Seq<char>,
    settings: SettingsModel,
    apps: Seq<IndexedAppModel>,
    default_icon: Seq<char>,
) -> Seq<ResultItemModel> {
    let matched = matched_apps(apps, settings.blacklist, typed);
    if matched.len() > 0 {
        matched
    } else {
        fallback_results(typed, settings.search_engines, default_icon)
    }
}

/// The answer to the query for `typed`, given the indexed applications and
/// what invoking an extension would come to.
pub open spec fn query_outcome(
    typed: Seq<char>,
    settings: SettingsModel,
    apps: Seq<IndexedAppModel>,
    default_icon: Seq<char>,
    invoked: ResultsModel,
) -> ResultsModel {
    match first_step(typed, settings, default_icon) {
        SearchStepModel::Done { results } => answered(results),
        SearchStepModel::Invoke { invocation } => invoked,
        SearchStepModel::MatchApps => answered(app_step(typed, settings, apps, default_icon)),
    }
}

/// The first step of the query for `typed` where the settings may be
/// missing: empty text needs no settings and is answered with no results;
/// any other text fails with `SettingsUnavailable` without them.
pub open spec fn started(
    typed: Seq<char>,
    settings: Option<SettingsModel>,
    default_icon: Seq<char>,
) -> Result<SearchStepModel, LauncherErrorModel> {
    if typed.len() == 0 {
        Ok(SearchStepModel::Done { results: Seq::empty() })
    } else {
        match settings {
            Some(s) => Ok(first_step(typed, s, default_icon)),
            None => Err(LauncherErrorModel::SettingsUnavailable),
        }
    }
}

/// The model of a first step or of the reason there is none.
pub open spec fn step_model(step: Result<SearchStep, LauncherError>) -> Result<
    SearchStepModel,
    LauncherErrorModel,
> {
    match step {
        Ok(s) => Ok(s@),
        Err(e) => Err(e@),
    }
}

/// Takes the first step of the query for `typed_text`: answers it from the
/// settings alone where that is possible, and says what is to be done where
/// it is not. `default_icon` is the icon of search engines that have none
/// of their own.
pub fn route(typed_text: &str, settings: &Settings, default_icon: &str) -> (step: SearchStep)
    ensures
        step@ == first_step(typed_text@, settings@, default_icon@),
{
    if typed_text.is_empty() {
        let results: Vec<ResultItem> = Vec::new();
        assert(results.deep_view() =~= Seq::<ResultItemModel>::empty());
        return SearchStep::Done { results };
    }
    let parsed = parse_typed_text(typed_text);
    if !parsed.has_keyword {
        return SearchStep::MatchApps;
    }
    match find_extension(&settings.extensions, &parsed.keyword) {
        Some(i) => {
            let invocation = Invocation {
                extension_id: settings.extensions[i].id.clone(),
                context: InvocationContext::get_results(parsed.search_text),
                mode: LaunchMode::Foreground,
            };
            SearchStep::Invoke { invocation }
        },
        None => match find_engine(&settings.search_engines, &parsed.keyword) {
            Some(i) => {
                let item = engine_result(
                    &settings.search_engines[i],
                    parsed.search_text.as_str(),
                    typed_text,
                    default_icon,
                );
                let mut results: Vec<ResultItem> = Vec::new();
                results.push(item);
                assert(results.deep_view() =~= seq![item@]);
                SearchStep::Done { results }
            },
            None => SearchStep::MatchApps,
        },
    }
}

/// Starts the query for `typed_text`. `settings` is `None` where the
/// settings could not be read: empty text is still answered, with no
/// results, and any other text fails with `SettingsUnavailable`. With
/// settings, the query takes its first step as [`route`] does.
pub fn get_search_results(
    typed_text: &str,
    settings: Option<&Settings>,
    default_icon: &str,
) -> (step: Result<SearchStep, LauncherError>)
    ensures
        step_model(step) == started(typed_text@, settings.deep_view(), default_icon@),
        typed_text@.len() == 0 ==> step_model(step) == Ok::<_, LauncherErrorModel>(
            SearchStepModel::Done { results: Seq::empty() },
        ),
{
    if typed_text.is_empty() {
        let results: Vec<ResultItem> = Vec::new();
        assert(results.deep_view() =~= Seq::<ResultItemModel>::empty());
        return Ok(SearchStep::Done { results });
    }
    match settings {
        Some(s) => Ok(route(typed_text, s, default_icon)),
        None => Err(LauncherError::SettingsUnavailable),
    }
}

/// Ends the query for `typed_text` that went on to the applications: lists
/// the applications that match the whole text, or, where none does, the
/// result of the default search engine.
pub fn app_search_results(
    typed_text: &str,
    settings: &Settings,
    apps: &Vec<IndexedApp>,
    default_icon: &str,
) -> (results: Vec<ResultItem>)
    requires
        within_match_limits(apps.deep_view(), typed_text@),
    ensures
        results.deep_view() == app_step(typed_text@, settings@, apps.deep_view(), default_icon@),
{
    let mut results = match_apps(typed_text, apps, &settings.blacklist);
    if results.len() == 0 {
        match find_default_engine(&settings.search_engines) {
            Some(i) => {
                let item = engine_result(
                    &settings.search_engines[i],
                    typed_text,
                    typed_text,
                    default_icon,
                );
                results.push(item);
                assert(results.deep_view() =~= seq![item@]);
            },
            None => {
                assert(results.deep_view() =~= Seq::<ResultItemModel>::empty());
            },
        }
    }
    results
}

/// What a query comes to once the applications are known.
#[derive(Debug, PartialEq, Eq)]
pub enum Resolution {
    /// The query is answered with `results`.
    Answered { results: Vec<ResultItem> },
    /// The query is answered with what `invocation` comes to.
    Delegated { invocation: Invocation },
}

/// Model of [`Resolution`].
pub enum ResolutionModel {
    Answered { results: Seq<ResultItemModel> },
    Delegated { invocation: InvocationModel },
}

impl DeepView for Resolution {
    type V = ResolutionModel;

    open spec fn deep_view(&self) -> ResolutionModel {
        match self {
            Resolution::Answered { results } => ResolutionModel::Answered {
                results: results.deep_view(),
            },
            Resolution::Delegated { invocation } => ResolutionModel::Delegated {
                invocation: invocation@,
            },
        }
    }
}

impl View for Resolution {
    type V = ResolutionModel;

    open spec fn view(&self) -> ResolutionModel {
        self.deep_view()
    }
}

/// The resolution of `typed` against the settings and the applications:
/// keyword first, then applications, then the default search engine.
pub open spec fn resolved(
    typed: Seq<char>,
    settings: SettingsModel,
    apps: Seq<IndexedAppModel>,
    default_icon: Seq<char>,
) -> ResolutionModel {
    match first_step(typed, settings, default_icon) {
        SearchStepModel::Done { results } => ResolutionModel::Answered { results },
        SearchStepModel::Invoke { invocation } => ResolutionModel::Delegated { invocation },
        SearchStepModel::MatchApps => ResolutionModel::Answered {
            results: app_step(typed, settings, apps, default_icon),
        },
    }
}

/// Resolves `typed_text` against the settings and the applications in one
/// call, for a caller that holds the applications already. The
/// applications are not looked at where a keyword applies or the text is
/// empty.
pub fn resolve(
    typed_text: &str,
    settings: &Settings,
    apps: &Vec<IndexedApp>,
    default_icon: &str,
) -> (resolution: Resolution)
    requires
        first_step(typed_text@, settings@, default_icon@) is MatchApps ==> within_match_limits(
            apps.deep_view(),
            typed_text@,
        ),
    ensures
        resolution@ == resolved(typed_text@, settings@, apps.deep_view(), default_icon@),
{
    match route(typed_text, settings, default_icon) {
        SearchStep::Done { results } => Resolution::Answered { results },
        SearchStep::Invoke { invocation } => Resolution::Delegated { invocation },
        SearchStep::MatchApps => Resolution::Answered {
            results: app_search_results(typed_text, settings, apps, default_icon),
        },
    }
}

/// Empty text is answered at once with no results, whatever the settings
/// and the applications are: nothing is matched and nothing is invoked.
pub proof fn lemma_empty_input_yields_nothing(
    settings: SettingsModel,
    apps: Seq<IndexedAppModel>,
    default_icon: Seq<char>,
    invoked: ResultsModel,
)
    ensures
        first_step(Seq::empty(), settings, default_icon) == (SearchStepModel::Done {
            results: Seq::empty(),
        }),
        query_outcome(Seq::empty(), settings, apps, default_icon, invoked) == answered(
            Seq::empty(),
        ),
{
}

/// Text without a space is never taken for a keyword: the query goes
/// straight to the applications, matched against the whole text.
pub proof fn lemma_text_without_space_goes_to_apps(
    typed: Seq<char>,
    settings: SettingsModel,
    apps: Seq<IndexedAppModel>,
    default_icon: Seq<char>,
    invoked: ResultsModel,
)
    requires
        typed.len() > 0,
        !typed.contains(' '),
    ensures
        first_step(typed, settings, default_icon) is MatchApps,
        query_outcome(typed, settings, apps, default_icon, invoked) == answered(
            app_step(typed, settings, apps, default_icon),
        ),
{
    crate::text::lemma_parse_without_space(typed);
}

/// Where an extension and a search engine share the keyword that was
/// typed, the extension is invoked and the engine is not consulted; a
/// search engine answers only where no extension has the keyword.
pub proof fn lemma_extension_precedes_engine(
    typed: Seq<char>,
    settings: SettingsModel,
    default_icon: Seq<char>,
)
    requires
        has_keyword(typed),
    ensures
        extension_for(settings.extensions, parsed_keyword(typed)) is Some ==> first_step(
            typed,
            settings,
            default_icon,
        ) is Invoke,
        first_step(typed, settings, default_icon) is Done ==> extension_for(
            settings.extensions,
            parsed_keyword(typed),
        ) is None && engine_for(settings.search_engines, parsed_keyword(typed)) is Some,
        first_step(typed, settings, default_icon) is MatchApps <==> extension_for(
            settings.extensions,
            parsed_keyword(typed),
        ) is None && engine_for(settings.search_engines, parsed_keyword(typed)) is None,
{
}

/// No result of the application step opens an application whose
/// executable path is blacklisted, whatever its name is and whatever was
/// typed.
pub proof fn lemma_blacklisted_app_never_offered(
    typed: Seq<char>,
    settings: SettingsModel,
    apps: Seq<IndexedAppModel>,
    default_icon: Seq<char>,
    exec_path: Seq<char>,
)
    requires
        settings.blacklist.contains(exec_path),
    ensures
        forall|j: int|
            0 <= j < app_step(typed, settings, apps, default_icon).len() ==> !opens_app(
                #[trigger] app_step(typed, settings, apps, default_icon)[j],
                exec_path,
            ),
{
    lemma_blacklisted_app_never_listed(
        apps,
        settings.blacklist,
        name_verdicts(apps, typed),
        exec_path,
    );
}

/// The default search engine answers exactly when no keyword applied and
/// no application matched: a query that a keyword resolved is answered by
/// that keyword's extension or engine, a query with matching applications
/// by those applications, and every other by the default engine.
pub proof fn lemma_fallback_when_nothing_else(
    typed: Seq<char>,
    settings: SettingsModel,
    apps: Seq<IndexedAppModel>,
    default_icon: Seq<char>,
    invoked: ResultsModel,
)
    requires
        typed.len() > 0,
    ensures
        ({
            let keyword_applies = !(first_step(typed, settings, default_icon) is MatchApps);
            let matched = matched_apps(apps, settings.blacklist, typed);
            let outcome = query_outcome(typed, settings, apps, default_icon, invoked);
            let fallback = fallback_results(typed, settings.search_engines, default_icon);
            &&& !keyword_applies && matched.len() == 0 ==> outcome == answered(fallback)
            &&& !keyword_applies && matched.len() > 0 ==> outcome == answered(matched)
            &&& first_step(typed, settings, default_icon) matches SearchStepModel::Done { results }
                ==> outcome == answered(results)
            &&& first_step(typed, settings, default_icon) is Invoke ==> outcome == invoked
        }),
{
}

} // verus!
