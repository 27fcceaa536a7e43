//! The application matcher: which indexed applications are listed for typed
//! text, and in what order.

use crate::model::{
    clone_optional_text, IndexedApp, IndexedAppModel, ResultAction, ResultActionModel, ResultItem,
    ResultItemModel,
};
use fuzzy_matcher::skim::SkimMatcherV2;
use fuzzy_matcher::FuzzyMatcher;
use vstd::prelude::*;
use vstd::string::StrSliceExecFns;

verus! {

/// The longest name and the longest typed text, in characters, that are
/// handed to the fuzzy matcher. Its scores are 32-bit sums that grow with
/// both lengths; within this limit they cannot overflow.
pub const MAX_MATCH_CHARS: usize = 1_048_576;

/// Whether `c` is one of the ASCII capitals `A` to `Z`.
pub open spec fn is_ascii_capital(c: char) -> bool {
    let n = c as u32;
    0x41 <= n <= 0x5A
}

/// The code of `c`, with the ASCII capitals folded onto their small
/// letters.
pub open spec fn ascii_folded(c: char) -> int {
    if is_ascii_capital(c) {
        c as u32 + 0x20
    } else {
        c as u32 as int
    }
}

/// Whether typed text asks for its case to be respected: it does where it
/// holds an ASCII capital, and is compared without regard to ASCII case
/// where it holds none.
pub open spec fn respects_case(typed: Seq<char>) -> bool {
    exists|i: int| 0 <= i < typed.len() && is_ascii_capital(#[trigger] typed[i])
}

/// Whether the character `c` of a name stands for the typed character `p`.
pub open spec fn chars_agree(c: char, p: char, exact: bool) -> bool {
    if exact {
        c == p
    } else {
        ascii_folded(c) == ascii_folded(p)
    }
}

/// Whether the characters of `typed` occur in `name` in their order, with
/// any characters between them.
pub open spec fn occurs_in_order(name: Seq<char>, typed: Seq<char>, exact: bool) -> bool
    decreases name.len(),
{
    if typed.len() == 0 {
        true
    } else if name.len() == 0 {
        false
    } else if chars_agree(name[0], typed[0], exact) {
        occurs_in_order(name.drop_first(), typed.drop_first(), exact)
    } else {
        occurs_in_order(name.drop_first(), typed, exact)
    }
}

/// Whether `name` matches `typed`: the typed characters occur in the name
/// in their order. How well they match decides nothing.
pub open spec fn name_matches(name: Seq<char>, typed: Seq<char>) -> bool {
    occurs_in_order(name, typed, respects_case(typed))
}

/// The score that the skim matcher, in its default configuration, gives to
/// `choice` for `pattern`; `None` where `pattern` does not match.
pub uninterp spec fn skim_score(choice: Seq<char>, pattern: Seq<char>) -> Option<i64>;

/// Calls `SkimMatcherV2::default().fuzzy_match(choice, pattern)` of the
/// `fuzzy-matcher` crate. Not proved: that the score depends on nothing but
/// the characters of the two strings; that there is a score exactly where
/// the pattern's characters occur in the choice in their order, compared
/// without regard to ASCII case unless the pattern holds an ASCII capital;
/// that the empty pattern scores 0; and that the call returns for strings
/// within `MAX_MATCH_CHARS`.
#[verifier::external_body]
fn fuzzy_score(choice: &str, pattern: &str) -> (score: Option<i64>)
    requires
        choice@.len() <= MAX_MATCH_CHARS,
        pattern@.len() <= MAX_MATCH_CHARS,
    ensures
        score == skim_score(choice@, pattern@),
        score is Some <==> name_matches(choice@, pattern@),
        pattern@.len() == 0 ==> score == Some(0i64),
{
    SkimMatcherV2::default().fuzzy_match(choice, pattern)
}

/// The result that opens `app`: labelled with its name, carrying its icon
/// where it has one, tinted exactly when it has none.
pub open spec fn app_result_model(app: IndexedAppModel) -> ResultItemModel {
    ResultItemModel::Text {
        label: app.name,
        icon_path: app.icon_path,
        tint_icon: app.icon_path is None,
        action: ResultActionModel::OpenApp { exec_path: app.exec_path },
    }
}

/// The entry of `app` given the matcher's score for its name: the result
/// that opens it where there is a score, nothing where there is none.
pub open spec fn app_entry_model(app: IndexedAppModel, score: Option<i64>) -> Option<
    ResultItemModel,
> {
    if score is Some {
        Some(app_result_model(app))
    } else {
        None
    }
}

/// The results for `apps`, in their order: one for each application whose
/// executable path is not in `blacklist` and whose verdict in `matched` is
/// true.
pub open spec fn listed_apps(
    apps: Seq<IndexedAppModel>,
    blacklist: Seq<Seq<char>>,
    matched: Seq<bool>,
) -> Seq<ResultItemModel>
    decreases apps.len(),
{
    if apps.len() == 0 {
        Seq::empty()
    } else {
        let before = listed_apps(apps.drop_last(), blacklist, matched.drop_last());
        if !blacklist.contains(apps.last().exec_path) && matched.last() {
            before.push(app_result_model(apps.last()))
        } else {
            before
        }
    }
}

/// The matcher's verdict on the name of each of `apps`.
pub open spec fn name_verdicts(apps: Seq<IndexedAppModel>, typed: Seq<char>) -> Seq<bool> {
    Seq::new(apps.len(), |i: int| name_matches(apps[i].name, typed))
}

/// The results of matching `typed` against `apps`.
pub open spec fn matched_apps(
    apps: Seq<IndexedAppModel>,
    blacklist: Seq<Seq<char>>,
    typed: Seq<char>,
) -> Seq<ResultItemModel> {
    listed_apps(apps, blacklist, name_verdicts(apps, typed))
}

/// Whether every name of `apps`, and `typed`, is short enough for the
/// matcher.
pub open spec fn within_match_limits(apps: Seq<IndexedAppModel>, typed: Seq<char>) -> bool {
    &&& typed.len() <= MAX_MATCH_CHARS
    &&& forall|i: int| 0 <= i < apps.len() ==> (#[trigger] apps[i]).name.len() <= MAX_MATCH_CHARS
}

/// Whether `list` holds `text`.
pub fn contains_text(list: &Vec<String>, text: &String) -> (found: bool)
    ensures
        found == list.deep_view().contains(text@),
{
    let n = list.len();
    let mut i: usize = 0;
    while i < n
        invariant
            n == list.len(),
            i <= n,
            forall|k: int| 0 <= k < i ==> list.deep_view()[k] != text@,
        decreases n - i,
    {
        if list[i] == *text {
            assert(list.deep_view()[i as int] == text@);
            return true;
        }
        i += 1;
    }
    false
}

/// Whether every name of `apps`, and `typed_text`, is short enough for the
/// matcher.
pub fn fits_matcher(typed_text: &str, apps: &Vec<IndexedApp>) -> (fits: bool)
    ensures
        fits == within_match_limits(apps.deep_view(), typed_text@),
{
    if typed_text.unicode_len() > MAX_MATCH_CHARS {
        return false;
    }
    let n = apps.len();
    let mut i: usize = 0;
    while i < n
        invariant
            n == apps.len(),
            i <= n,
            typed_text@.len() <= MAX_MATCH_CHARS,
            forall|k: int|
                0 <= k < i ==> (#[trigger] apps.deep_view()[k]).name.len() <= MAX_MATCH_CHARS,
        decreases n - i,
    {
        if apps[i].name.as_str().unicode_len() > MAX_MATCH_CHARS {
            assert(apps.deep_view()[i as int].name.len() > MAX_MATCH_CHARS);
            return false;
        }
        i += 1;
    }
    true
}

/// The result that opens `app`.
pub fn app_result(app: &IndexedApp) -> (item: ResultItem)
    ensures
        item@ == app_result_model(app@),
{
    ResultItem::Text {
        label: app.name.clone(),
        icon_path: clone_optional_text(&app.icon_path),
        tint_icon: app.icon_path.is_none(),
        action: ResultAction::OpenApp { exec_path: app.exec_path.clone() },
    }
}

/// The entry of `app` given the matcher's score for its name.
pub fn app_entry(app: &IndexedApp, score: Option<i64>) -> (entry: Option<ResultItem>)
    ensures
        entry.deep_view() == app_entry_model(app@, score),
{
    if score.is_some() {
        Some(app_result(app))
    } else {
        None
    }
}

/// Matches `typed_text` against the names of `apps` and lists, in the order
/// of `apps`, every application that matches and is not blacklisted.
pub fn match_apps(typed_text: &str, apps: &Vec<IndexedApp>, blacklist: &Vec<String>) -> (results:
    Vec<ResultItem>)
    requires
        within_match_limits(apps.deep_view(), typed_text@),
    ensures
        results.deep_view() == matched_apps(
            apps.deep_view(),
            blacklist.deep_view(),
            typed_text@,
        ),
{
    let mut results: Vec<ResultItem> = Vec::new();
    let n = apps.len();
    let mut i: usize = 0;
    assert(results.deep_view() =~= Seq::<ResultItemModel>::empty());
    while i < n
        invariant
            n == apps.len(),
            i <= n,
            within_match_limits(apps.deep_view(), typed_text@),
            results.deep_view() == matched_apps(
                apps.deep_view().take(i as int),
                blacklist.deep_view(),
                typed_text@,
            ),
        decreases n - i,
    {
        let app = &apps[i];
        let ghost before = results.deep_view();
        proof {
            let all = apps.deep_view();
            let upto = all.take(i + 1);
            assert(upto.drop_last() =~= all.take(i as int));
            assert(name_verdicts(upto, typed_text@).drop_last() =~= name_verdicts(
                all.take(i as int),
                typed_text@,
            ));
            assert(upto.last() == app@);
            assert(all[i as int].name.len() <= MAX_MATCH_CHARS);
        }
        if !contains_text(blacklist, &app.exec_path) {
            let score = fuzzy_score(app.name.as_str(), typed_text);
            if let Some(item) = app_entry(app, score) {
                results.push(item);
                assert(results.deep_view() =~= before.push(item@));
            }
        }
        i += 1;
    }
    assert(apps.deep_view().take(n as int) =~= apps.deep_view());
    results
}

/// Whether `at` places the typed characters in the name: it gives one
/// position of the name for each typed character, the positions ascend,
/// and at each of them the name's character stands for the typed one.
pub open spec fn places(name: Seq<char>, typed: Seq<char>, exact: bool, at: Seq<int>) -> bool {
    &&& at.len() == typed.len()
    &&& forall|j: int|
        0 <= j < at.len() ==> 0 <= #[trigger] at[j] < name.len() && chars_agree(
            name[at[j]],
            typed[j],
            exact,
        )
    &&& forall|j: int, k: int| 0 <= j < k < at.len() ==> at[j] < at[k]
}

/// Finds positions for typed characters that occur in order.
proof fn lemma_place(name: Seq<char>, typed: Seq<char>, exact: bool) -> (at: Seq<int>)
    requires
        occurs_in_order(name, typed, exact),
    ensures
        places(name, typed, exact, at),
    decreases name.len(),
{
    if typed.len() == 0 {
        Seq::empty()
    } else {
        let tail = name.drop_first();
        if chars_agree(name[0], typed[0], exact) {
            let rest = lemma_place(tail, typed.drop_first(), exact);
            let at = Seq::new(typed.len(), |j: int| if j == 0 { 0 } else { rest[j - 1] + 1 });
            assert forall|j: int| 0 <= j < at.len() implies 0 <= #[trigger] at[j] < name.len()
                && chars_agree(name[at[j]], typed[j], exact) by {
                if j > 0 {
                    assert(0 <= rest[j - 1] < tail.len());
                    assert(name[at[j]] == tail[rest[j - 1]]);
                    assert(typed[j] == typed.drop_first()[j - 1]);
                }
            }
            assert forall|j: int, k: int| 0 <= j < k < at.len() implies at[j] < at[k] by {
                assert(0 <= rest[k - 1] < tail.len());
            }
            at
        } else {
            let rest = lemma_place(tail, typed, exact);
            let at = Seq::new(typed.len(), |j: int| rest[j] + 1);
            assert forall|j: int| 0 <= j < at.len() implies 0 <= #[trigger] at[j] < name.len()
                && chars_agree(name[at[j]], typed[j], exact) by {
                assert(0 <= rest[j] < tail.len());
                assert(name[at[j]] == tail[rest[j]]);
            }
            at
        }
    }
}

/// Typed characters that are placed in a name occur in it in order.
proof fn lemma_placed(name: Seq<char>, typed: Seq<char>, exact: bool, at: Seq<int>)
    requires
        places(name, typed, exact, at),
    ensures
        occurs_in_order(name, typed, exact),
    decreases name.len(),
{
    if typed.len() > 0 {
        assert(0 <= at[0] < name.len());
        let tail = name.drop_first();
        if chars_agree(name[0], typed[0], exact) {
            let rest = typed.drop_first();
            let shifted = Seq::new(rest.len(), |j: int| at[j + 1] - 1);
            assert forall|j: int| 0 <= j < shifted.len() implies 0 <= #[trigger] shifted[j]
                < tail.len() && chars_agree(tail[shifted[j]], rest[j], exact) by {
                assert(at[0] < at[j + 1] < name.len());
                assert(tail[shifted[j]] == name[at[j + 1]]);
                assert(rest[j] == typed[j + 1]);
            }
            assert forall|j: int, k: int| 0 <= j < k < shifted.len() implies shifted[j]
                < shifted[k] by {
                assert(at[j + 1] < at[k + 1]);
            }
            lemma_placed(tail, rest, exact, shifted);
        } else {
            let shifted = Seq::new(typed.len(), |j: int| at[j] - 1);
            assert forall|j: int| 0 <= j < shifted.len() implies 0 <= #[trigger] shifted[j]
                < tail.len() && chars_agree(tail[shifted[j]], typed[j], exact) by {
                assert(0 <= at[j] < name.len());
                if j > 0 {
                    assert(at[0] < at[j]);
                }
                assert(tail[shifted[j]] == name[at[j]]);
            }
            assert forall|j: int, k: int| 0 <= j < k < shifted.len() implies shifted[j]
                < shifted[k] by {
                assert(at[j] < at[k]);
            }
            lemma_placed(tail, typed, exact, shifted);
        }
    }
}

/// A name matches exactly when the typed characters can be placed in it:
/// each at a position of its own, in the order in which they were typed,
/// with whatever stands between them left out.
pub proof fn lemma_match_is_placement(name: Seq<char>, typed: Seq<char>)
    ensures
        name_matches(name, typed) <==> exists|at: Seq<int>|
            places(name, typed, respects_case(typed), at),
{
    let exact = respects_case(typed);
    if occurs_in_order(name, typed, exact) {
        let at = lemma_place(name, typed, exact);
        assert(places(name, typed, exact, at));
    }
    if exists|at: Seq<int>| places(name, typed, exact, at) {
        let at = choose|at: Seq<int>| places(name, typed, exact, at);
        lemma_placed(name, typed, exact, at);
    }
}

/// Every name matches the empty text, and every name matches itself.
pub proof fn lemma_match_of_empty_and_same(name: Seq<char>)
    ensures
        name_matches(name, Seq::empty()),
        name_matches(name, name),
{
    let exact = respects_case(name);
    let at = Seq::new(name.len(), |j: int| j);
    assert(places(name, name, exact, at));
    lemma_placed(name, name, exact, at);
}

/// Whether selecting `item` opens the application at `exec_path`.
pub open spec fn opens_app(item: ResultItemModel, exec_path: Seq<char>) -> bool {
    item matches ResultItemModel::Text { action: ResultActionModel::OpenApp { exec_path: p }, .. }
        && p == exec_path
}

/// An application whose executable path is blacklisted is never listed,
/// whatever the matcher says of its name.
pub proof fn lemma_blacklisted_app_never_listed(
    apps: Seq<IndexedAppModel>,
    blacklist: Seq<Seq<char>>,
    matched: Seq<bool>,
    exec_path: Seq<char>,
)
    requires
        blacklist.contains(exec_path),
    ensures
        forall|j: int|
            0 <= j < listed_apps(apps, blacklist, matched).len() ==> !opens_app(
                #[trigger] listed_apps(apps, blacklist, matched)[j],
                exec_path,
            ),
    decreases apps.len(),
{
    if apps.len() > 0 {
        let all = listed_apps(apps, blacklist, matched);
        let before = listed_apps(apps.drop_last(), blacklist, matched.drop_last());
        lemma_blacklisted_app_never_listed(
            apps.drop_last(),
            blacklist,
            matched.drop_last(),
            exec_path,
        );
        assert forall|j: int| 0 <= j < all.len() implies !opens_app(
            #[trigger] all[j],
            exec_path,
        ) by {
            if j < before.len() {
                assert(all[j] == before[j]);
            } else {
                assert(all[j] == app_result_model(apps.last()));
                assert(!blacklist.contains(apps.last().exec_path));
            }
        }
    }
}

/// Whether the application at position `i` of `apps` is listed: its
/// verdict is true and its executable path is not blacklisted.
pub open spec fn is_listed(
    apps: Seq<IndexedAppModel>,
    blacklist: Seq<Seq<char>>,
    matched: Seq<bool>,
    i: int,
) -> bool {
    0 <= i < apps.len() && matched[i] && !blacklist.contains(apps[i].exec_path)
}

/// The positions in `apps` of the applications that are listed, ascending.
pub open spec fn listed_positions(
    apps: Seq<IndexedAppModel>,
    blacklist: Seq<Seq<char>>,
    matched: Seq<bool>,
) -> Seq<int>
    decreases apps.len(),
{
    if apps.len() == 0 {
        Seq::empty()
    } else {
        let before = listed_positions(apps.drop_last(), blacklist, matched.drop_last());
        if is_listed(apps, blacklist, matched, apps.len() - 1) {
            before.push(apps.len() - 1)
        } else {
            before
        }
    }
}

/// The results are those of the listed applications, each once, in the
/// order in which the applications stand in the list: nothing is ranked,
/// nothing is added and nothing is left out.
pub proof fn lemma_listed_apps_keep_their_order(
    apps: Seq<IndexedAppModel>,
    blacklist: Seq<Seq<char>>,
    matched: Seq<bool>,
)
    requires
        matched.len() == apps.len(),
    ensures
        ({
            let at = listed_positions(apps, blacklist, matched);
            let results = listed_apps(apps, blacklist, matched);
            &&& results.len() == at.len()
            &&& forall|j: int|
                0 <= j < at.len() ==> is_listed(apps, blacklist, matched, #[trigger] at[j])
                    && results[j] == app_result_model(apps[at[j]])
            &&& forall|j: int, k: int| 0 <= j < k < at.len() ==> at[j] < at[k]
            &&& forall|i: int| #[trigger]
                is_listed(apps, blacklist, matched, i) ==> at.contains(i)
        }),
    decreases apps.len(),
{
    if apps.len() > 0 {
        let head = apps.drop_last();
        let flags = matched.drop_last();
        let last = apps.len() - 1;
        lemma_listed_apps_keep_their_order(head, blacklist, flags);
        let at = listed_positions(apps, blacklist, matched);
        let before = listed_positions(head, blacklist, flags);
        let results = listed_apps(apps, blacklist, matched);
        assert(matched.last() == matched[last]);
        assert forall|j: int| 0 <= j < at.len() implies is_listed(
            apps,
            blacklist,
            matched,
            #[trigger] at[j],
        ) && results[j] == app_result_model(apps[at[j]]) by {
            if j < before.len() {
                assert(is_listed(head, blacklist, flags, before[j]));
                assert(at[j] == before[j]);
            }
        }
        assert forall|j: int, k: int| 0 <= j < k < at.len() implies at[j] < at[k] by {
            assert(is_listed(head, blacklist, flags, before[j]));
            if k < before.len() {
                assert(at[k] == before[k]);
            }
        }
        assert forall|i: int| #[trigger] is_listed(apps, blacklist, matched, i) implies at.contains(
            i,
        ) by {
            if i < last {
                assert(is_listed(head, blacklist, flags, i));
                let j = choose|j: int| 0 <= j < before.len() && before[j] == i;
                assert(at[j] == i);
            } else {
                assert(at[at.len() - 1] == i);
            }
        }
    }
}

} // verus!
