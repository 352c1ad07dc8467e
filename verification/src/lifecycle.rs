//! Surface lifecycle control: creating, showing, hiding, closing and
//! navigating tab surfaces. Every operation reads or updates the
//! registry and returns the host commands to issue, so the decisions
//! are checked here while the unverified shell merely executes them.

use vstd::prelude::*;
use crate::geometry::{HEADER_HEIGHT, SurfaceRect, WindowSize, compute_rect, rect_for};
use crate::registry::{WebviewState, entries_among, lemma_map_of_pairs_contains,
    lemma_map_of_pairs_value, map_of_pairs, unique_keys};
use crate::scripts::{get_mute_script, get_unmute_script, get_webview_initialization_script,
    init_script_text, mute_script_text, unmute_script_text};
use crate::urlinfo::{check_nav_scheme, check_web_url, is_web_url, nav_scheme_ok, parse_host,
    parsed_host};

verus! {

/// The failures a lifecycle operation reports to the UI layer.
#[derive(Debug, Clone)]
pub enum ShellError {
    /// No registry entry for the tab.
    TabNotFound,
    /// The registry has an entry, but the host reports no such surface.
    WebviewNotFound,
    /// The URL's scheme is not accepted for in-surface navigation.
    UnsupportedNavScheme { url: String },
    /// The URL does not parse as an absolute URL.
    InvalidUrl,
    /// A favicon URL could not be built from the page URL.
    FaviconUrlBuildFailed,
    /// Neither favicon source yielded an image.
    FaviconUnavailable,
    /// Only network URLs are supported for page-title fetching.
    UnsupportedFetchScheme,
    /// No title could be determined for the page.
    TitleUnavailable,
}

impl ShellError {
    /// The user-facing message for this failure.
    pub fn message(&self) -> (r: String)
        ensures
            self is TabNotFound ==> r@ == "Tab not found"@,
            self is WebviewNotFound ==> r@ == "Webview not found"@,
            self matches ShellError::UnsupportedNavScheme { url: u }
                ==> r@ == "Unsupported URL scheme for navigation: "@ + u@,
            self is InvalidUrl ==> r@ == "Invalid URL"@,
            self is FaviconUrlBuildFailed ==> r@ == "Failed to build favicon URL"@,
            self is FaviconUnavailable ==> r@ == "Failed to fetch favicon."@,
            self is UnsupportedFetchScheme ==> r@ == "Unsupported URL scheme"@,
            self is TitleUnavailable ==> r@ == "Unable to determine title"@,
    {
        match self {
            ShellError::TabNotFound => "Tab not found".to_owned(),
            ShellError::WebviewNotFound => "Webview not found".to_owned(),
            ShellError::UnsupportedNavScheme { url } => {
                let mut m = "Unsupported URL scheme for navigation: ".to_owned();
                m.append(url.as_str());
                m
            },
            ShellError::InvalidUrl => "Invalid URL".to_owned(),
            ShellError::FaviconUrlBuildFailed => "Failed to build favicon URL".to_owned(),
            ShellError::FaviconUnavailable => "Failed to fetch favicon.".to_owned(),
            ShellError::UnsupportedFetchScheme => "Unsupported URL scheme".to_owned(),
            ShellError::TitleUnavailable => "Unable to determine title".to_owned(),
        }
    }
}

/// One command for the host windowing system, addressed by surface label.
#[derive(Debug, Clone)]
pub enum SurfaceCommand {
    Hide { label: String },
    Show { label: String },
    SetRect { label: String, rect: SurfaceRect },
    NavigateTo { label: String, url: String },
    Destroy { label: String },
    Eval { label: String, script: String },
}

/// Host surface visibility after a command list runs, command by
/// command: `Hide` and `Show` set a label's visibility, `Destroy`
/// removes the surface, anything else leaves visibility alone.
pub open spec fn apply_commands(
    vis: Map<Seq<char>, bool>,
    cmds: Seq<SurfaceCommand>,
) -> Map<Seq<char>, bool>
    decreases cmds.len(),
{
    if cmds.len() == 0 {
        vis
    } else {
        let rest = apply_commands(vis, cmds.drop_last());
        match cmds.last() {
            SurfaceCommand::Hide { label } => rest.insert(label@, false),
            SurfaceCommand::Show { label } => rest.insert(label@, true),
            SurfaceCommand::Destroy { label } => rest.remove(label@),
            _ => rest,
        }
    }
}

/// The surface label a tab is given: a fixed prefix before the tab
/// identifier, so the label is a deterministic function of the tab.
pub open spec fn label_of(tab_id: Seq<char>) -> Seq<char> {
    "tab-"@ + tab_id
}

/// Distinct tabs always receive distinct surface labels.
pub proof fn lemma_label_injective(t1: Seq<char>, t2: Seq<char>)
    requires
        label_of(t1) == label_of(t2),
    ensures
        t1 == t2,
{
    let p = "tab-"@;
    assert(label_of(t1).len() == p.len() + t1.len());
    assert(t1 =~= t2) by {
        assert forall|i: int| 0 <= i < t1.len() implies t1[i] == t2[i] by {
            assert(label_of(t1)[p.len() + i] == t1[i]);
            assert(label_of(t2)[p.len() + i] == t2[i]);
        }
    };
}

/// Builds the surface label for a tab.
pub fn make_label(tab_id: &String) -> (r: String)
    ensures
        r@ == label_of(tab_id@),
{
    let mut s = "tab-".to_owned();
    s.append(tab_id.as_str());
    s
}

/// What a new surface is built from: external web content at a URL, or
/// the app's own internal page for everything else.
#[derive(Debug, Clone)]
pub enum ContentSource {
    External { url: String },
    AppPage,
}

/// Everything the host needs to instantiate a new child surface.
#[derive(Debug, Clone)]
pub struct CreatePlan {
    /// Label the surface is registered and addressed under.
    pub label: String,
    /// What the surface initially renders.
    pub content: ContentSource,
    /// Where the surface sits beneath the chrome.
    pub rect: SurfaceRect,
    /// The surface must not steal input focus from the chrome.
    pub non_focused: bool,
    /// The surface follows the host window's size.
    pub auto_resize: bool,
    /// The surface starts hidden until the tab is shown.
    pub start_hidden: bool,
    /// Script installed into every page the surface loads.
    pub init_script: String,
}

/// Plans a new tab surface and registers its label: the label is
/// derived from the tab identifier, web URLs load externally after a
/// parse check, anything else shows the internal page, and the surface
/// starts hidden, unfocused and auto-resizing beneath the chrome.
pub fn create_tab_webview_impl(
    state: &mut WebviewState,
    tab_id: &String,
    url: &String,
    window: WindowSize,
) -> (r: Result<CreatePlan, ShellError>)
    requires
        old(state).wf(),
        HEADER_HEIGHT <= window.height,
    ensures
        final(state).wf(),
        labels_canonical(old(state).pairs()) ==> labels_canonical(final(state).pairs()),
        match r {
            Ok(plan) => {
                &&& final(state).as_map()
                    == old(state).as_map().insert(tab_id@, label_of(tab_id@))
                &&& plan.label@ == label_of(tab_id@)
                &&& plan.rect == rect_for(window, HEADER_HEIGHT)
                &&& plan.non_focused
                &&& plan.auto_resize
                &&& plan.start_hidden
                &&& plan.init_script@ == init_script_text()
                &&& (is_web_url(url@) ==> {
                    &&& parsed_host(url@) is Some
                    &&& plan.content matches ContentSource::External { url: u } && u@ == url@
                })
                &&& (!is_web_url(url@) ==> plan.content is AppPage)
            },
            Err(e) => {
                &&& e is InvalidUrl
                &&& is_web_url(url@)
                &&& parsed_host(url@) is None
                &&& final(state).as_map() == old(state).as_map()
            },
        },
{
    let label = make_label(tab_id);
    let content = if check_web_url(url.as_str()) {
        if parse_host(url.as_str()).is_none() {
            return Err(ShellError::InvalidUrl);
        }
        ContentSource::External { url: url.clone() }
    } else {
        ContentSource::AppPage
    };
    let rect = compute_rect(window, HEADER_HEIGHT);
    let ghost orig = state.pairs();
    state.register(tab_id, &label);
    proof {
        if labels_canonical(orig) {
            assert forall|i: int| 0 <= i < state.pairs().len()
                implies (#[trigger] state.pairs()[i]).1 == label_of(state.pairs()[i].0) by {
                if state.pairs()[i] != (tab_id@, label@) {
                    let j = choose|j: int| 0 <= j < orig.len() && orig[j] == state.pairs()[i];
                    assert(orig[j].1 == label_of(orig[j].0));
                }
            }
        }
    }
    Ok(CreatePlan {
        label,
        content,
        rect,
        non_focused: true,
        auto_resize: true,
        start_hidden: true,
        init_script: get_webview_initialization_script().to_owned(),
    })
}

/// The labels of every entry whose tab is not the given one, in
/// registry order.
pub open spec fn other_labels(
    ps: Seq<(Seq<char>, Seq<char>)>,
    tab: Seq<char>,
) -> Seq<Seq<char>>
    decreases ps.len(),
{
    if ps.len() == 0 {
        Seq::empty()
    } else {
        let rest = other_labels(ps.drop_last(), tab);
        if ps.last().0 == tab {
            rest
        } else {
            rest.push(ps.last().1)
        }
    }
}

/// Every non-target entry's label appears among the labels to hide.
pub proof fn lemma_other_labels_complete(ps: Seq<(Seq<char>, Seq<char>)>, tab: Seq<char>, j: int)
    requires
        0 <= j < ps.len(),
        ps[j].0 != tab,
    ensures
        exists|i: int| 0 <= i < other_labels(ps, tab).len()
            && other_labels(ps, tab)[i] == ps[j].1,
    decreases ps.len(),
{
    if j == ps.len() - 1 {
        let os = other_labels(ps, tab);
        assert(os[os.len() - 1] == ps[j].1);
    } else {
        lemma_other_labels_complete(ps.drop_last(), tab, j);
        let rest = other_labels(ps.drop_last(), tab);
        let i = choose|i: int| 0 <= i < rest.len() && rest[i] == ps.drop_last()[j].1;
        assert(other_labels(ps, tab)[i] == ps[j].1);
    }
}

/// The shape of a show plan over registry entries `ps` and target tab
/// `tab`: first a hide for every other entry's label in order, then,
/// when the target has a surface, a show and a geometry re-apply for it.
pub open spec fn show_plan_shape(
    ps: Seq<(Seq<char>, Seq<char>)>,
    tab: Seq<char>,
    cmds: Seq<SurfaceCommand>,
) -> bool {
    let os = other_labels(ps, tab);
    let m = map_of_pairs(ps);
    &&& cmds.len() == os.len() + (if m.contains_key(tab) { 2int } else { 0int })
    &&& (forall|i: int| 0 <= i < os.len()
        ==> ((#[trigger] cmds[i]) matches SurfaceCommand::Hide { label } && label@ == os[i]))
    &&& (m.contains_key(tab) ==> {
        &&& cmds[os.len() as int] matches SurfaceCommand::Show { label } && label@ == m[tab]
        &&& cmds[os.len() as int + 1] matches SurfaceCommand::SetRect { label, rect: _ }
            && label@ == m[tab]
    })
}

/// No pair of entries shares a surface label.
pub open spec fn labels_distinct(ps: Seq<(Seq<char>, Seq<char>)>) -> bool {
    forall|i: int, j: int| 0 <= i < j < ps.len()
        ==> (#[trigger] ps[i]).1 != (#[trigger] ps[j]).1
}

/// Entries whose labels are the canonical ones derived from their tabs.
pub open spec fn labels_canonical(ps: Seq<(Seq<char>, Seq<char>)>) -> bool {
    forall|i: int| 0 <= i < ps.len() ==> (#[trigger] ps[i]).1 == label_of(ps[i].0)
}

/// In a well-formed registry whose labels are canonical, labels are
/// unique across distinct tabs.
pub proof fn lemma_canonical_labels_distinct(ps: Seq<(Seq<char>, Seq<char>)>)
    requires
        unique_keys(ps),
        labels_canonical(ps),
    ensures
        labels_distinct(ps),
{
    assert forall|i: int, j: int| 0 <= i < j < ps.len()
        implies (#[trigger] ps[i]).1 != (#[trigger] ps[j]).1 by {
        if ps[i].1 == ps[j].1 {
            lemma_label_injective(ps[i].0, ps[j].0);
        }
    }
}

/// A command list that never shows or destroys label `l` but hides it
/// at least once leaves `l` hidden.
pub proof fn lemma_apply_hidden(
    vis: Map<Seq<char>, bool>,
    cmds: Seq<SurfaceCommand>,
    l: Seq<char>,
)
    requires
        forall|k: int| 0 <= k < cmds.len()
            ==> !((#[trigger] cmds[k]) matches SurfaceCommand::Show { label } && label@ == l),
        forall|k: int| 0 <= k < cmds.len()
            ==> !((#[trigger] cmds[k]) matches SurfaceCommand::Destroy { label } && label@ == l),
        exists|k: int| 0 <= k < cmds.len()
            && ((#[trigger] cmds[k]) matches SurfaceCommand::Hide { label } && label@ == l),
    ensures
        apply_commands(vis, cmds).contains_key(l),
        !apply_commands(vis, cmds)[l],
    decreases cmds.len(),
{
    let last = cmds.last();
    if last matches SurfaceCommand::Hide { label } && label@ == l {
    } else {
        let k = choose|k: int| 0 <= k < cmds.len()
            && ((#[trigger] cmds[k]) matches SurfaceCommand::Hide { label } && label@ == l);
        assert(k < cmds.len() - 1);
        assert(cmds.drop_last()[k] == cmds[k]);
        assert forall|m: int| 0 <= m < cmds.drop_last().len()
            implies !((#[trigger] cmds.drop_last()[m]) matches SurfaceCommand::Show { label }
                && label@ == l) by {
            assert(cmds.drop_last()[m] == cmds[m]);
        }
        assert forall|m: int| 0 <= m < cmds.drop_last().len()
            implies !((#[trigger] cmds.drop_last()[m]) matches SurfaceCommand::Destroy { label }
                && label@ == l) by {
            assert(cmds.drop_last()[m] == cmds[m]);
        }
        lemma_apply_hidden(vis, cmds.drop_last(), l);
    }
}

/// The single-active-surface law: once a show plan for `tab` has run,
/// every other registered tab's surface reports hidden, whatever the
/// visibility state was before, provided no two entries share a label.
pub proof fn lemma_show_single_visible(
    ps: Seq<(Seq<char>, Seq<char>)>,
    tab: Seq<char>,
    cmds: Seq<SurfaceCommand>,
    vis: Map<Seq<char>, bool>,
    j: int,
)
    requires
        unique_keys(ps),
        labels_distinct(ps),
        show_plan_shape(ps, tab, cmds),
        0 <= j < ps.len(),
        ps[j].0 != tab,
    ensures
        apply_commands(vis, cmds).contains_key(ps[j].1),
        !apply_commands(vis, cmds)[ps[j].1],
{
    let os = other_labels(ps, tab);
    let m = map_of_pairs(ps);
    let l = ps[j].1;
    lemma_other_labels_complete(ps, tab, j);
    let i = choose|i: int| 0 <= i < os.len() && os[i] == l;
    assert(cmds[i] matches SurfaceCommand::Hide { label } && label@ == l);
    if m.contains_key(tab) {
        lemma_map_of_pairs_contains(ps, tab);
        let jt = choose|jt: int| 0 <= jt < ps.len() && (#[trigger] ps[jt]).0 == tab;
        lemma_map_of_pairs_value(ps, jt);
        assert(m[tab] == ps[jt].1);
        assert(jt != j);
        assert(ps[jt].1 != l);
    }
    assert forall|k: int| 0 <= k < cmds.len()
        implies !((#[trigger] cmds[k]) matches SurfaceCommand::Show { label }
            && label@ == l) by {
        if k < os.len() {
            assert(cmds[k] matches SurfaceCommand::Hide { label } && label@ == os[k]);
        }
    }
    assert forall|k: int| 0 <= k < cmds.len()
        implies !((#[trigger] cmds[k]) matches SurfaceCommand::Destroy { label }
            && label@ == l) by {
        if k < os.len() {
            assert(cmds[k] matches SurfaceCommand::Hide { label } && label@ == os[k]);
        }
    }
    lemma_apply_hidden(vis, cmds, l);
}

/// After a show plan for a tab that has a surface, that surface
/// reports visible, whatever the visibility state was before.
pub proof fn lemma_show_target_visible(
    ps: Seq<(Seq<char>, Seq<char>)>,
    tab: Seq<char>,
    cmds: Seq<SurfaceCommand>,
    vis: Map<Seq<char>, bool>,
)
    requires
        show_plan_shape(ps, tab, cmds),
        map_of_pairs(ps).contains_key(tab),
    ensures
        apply_commands(vis, cmds).contains_key(map_of_pairs(ps)[tab]),
        apply_commands(vis, cmds)[map_of_pairs(ps)[tab]],
{
    let os = other_labels(ps, tab);
    let m = map_of_pairs(ps);
    assert(cmds.len() == os.len() + 2);
    assert(cmds.last() == cmds[os.len() as int + 1]);
    assert(cmds.last() matches SurfaceCommand::SetRect { label: _, rect: _ });
    assert(apply_commands(vis, cmds) == apply_commands(vis, cmds.drop_last()));
    let c1 = cmds.drop_last();
    assert(c1.len() == os.len() + 1);
    assert(c1.last() == cmds[os.len() as int]);
    assert(c1.last() matches SurfaceCommand::Show { label } && label@ == m[tab]);
    assert(apply_commands(vis, c1)
        == apply_commands(vis, c1.drop_last()).insert(m[tab], true));
}

/// Plans showing one tab: hide every other registered surface, then,
/// if the tab has one, show it and re-apply the current geometry. A
/// tab without a surface (a blank tab) only hides the others.
pub fn show_tab_webview_impl(
    state: &WebviewState,
    tab_id: &String,
    window: WindowSize,
) -> (cmds: Vec<SurfaceCommand>)
    requires
        state.wf(),
        HEADER_HEIGHT <= window.height,
    ensures
        show_plan_shape(state.pairs(), tab_id@, cmds@),
        state.as_map().contains_key(tab_id@) ==> {
            &&& cmds@.len() >= 2
            &&& cmds@[cmds@.len() - 1] matches SurfaceCommand::SetRect { label: _, rect }
                && rect == rect_for(window, HEADER_HEIGHT)
        },
        forall|vis: Map<Seq<char>, bool>, j: int|
            labels_distinct(state.pairs()) && 0 <= j < state.pairs().len()
                && state.pairs()[j].0 != tab_id@
            ==> #[trigger] apply_commands(vis, cmds@).contains_key(state.pairs()[j].1)
                && !apply_commands(vis, cmds@)[state.pairs()[j].1],
        forall|vis: Map<Seq<char>, bool>| state.as_map().contains_key(tab_id@)
            ==> #[trigger] apply_commands(vis, cmds@)
                .contains_key(state.as_map()[tab_id@])
                && apply_commands(vis, cmds@)[state.as_map()[tab_id@]],
{
    let n = state.len();
    let entries = state.entries_snapshot();
    let mut cmds: Vec<SurfaceCommand> = Vec::new();
    let mut i: usize = 0;
    while i < n
        invariant
            state.wf(),
            n == state.pairs().len(),
            entries@.len() == n,
            forall|k: int| 0 <= k < n ==> (#[trigger] entries@[k]).0@ == state.pairs()[k].0
                && entries@[k].1@ == state.pairs()[k].1,
            i <= n,
            cmds@.len() == other_labels(state.pairs().subrange(0, i as int), tab_id@).len(),
            forall|k: int| 0 <= k < cmds@.len()
                ==> ((#[trigger] cmds@[k]) matches SurfaceCommand::Hide { label }
                    && label@ == other_labels(state.pairs().subrange(0, i as int), tab_id@)[k]),
        decreases n - i,
    {
        let ghost prefix = state.pairs().subrange(0, i as int);
        proof {
            assert(state.pairs().subrange(0, i + 1).drop_last() =~= prefix);
            assert(state.pairs().subrange(0, i + 1).last() == state.pairs()[i as int]);
        }
        if !crate::text::str_eq_str(entries[i].0.as_str(), tab_id.as_str()) {
            cmds.push(SurfaceCommand::Hide { label: entries[i].1.clone() });
        }
        i += 1;
    }
    proof {
        assert(state.pairs().subrange(0, n as int) =~= state.pairs());
    }
    match state.lookup(tab_id) {
        Some(label) => {
            let rect = compute_rect(window, HEADER_HEIGHT);
            cmds.push(SurfaceCommand::Show { label: label.clone() });
            cmds.push(SurfaceCommand::SetRect { label, rect });
            proof {
                let os = other_labels(state.pairs(), tab_id@);
                assert forall|k: int| 0 <= k < os.len()
                    implies ((#[trigger] cmds@[k]) matches SurfaceCommand::Hide { label }
                        && label@ == os[k]) by {}
            }
        },
        None => {},
    }
    proof {
        assert(show_plan_shape(state.pairs(), tab_id@, cmds@));
        assert forall|vis: Map<Seq<char>, bool>, j: int|
            labels_distinct(state.pairs()) && 0 <= j < state.pairs().len()
                && state.pairs()[j].0 != tab_id@
            implies #[trigger] apply_commands(vis, cmds@).contains_key(state.pairs()[j].1)
                && !apply_commands(vis, cmds@)[state.pairs()[j].1] by {
            lemma_show_single_visible(state.pairs(), tab_id@, cmds@, vis, j);
        }
        assert forall|vis: Map<Seq<char>, bool>| state.as_map().contains_key(tab_id@)
            implies #[trigger] apply_commands(vis, cmds@)
                .contains_key(state.as_map()[tab_id@])
                && apply_commands(vis, cmds@)[state.as_map()[tab_id@]] by {
            lemma_show_target_visible(state.pairs(), tab_id@, cmds@, vis);
        }
    }
    cmds
}

/// Plans hiding every registered surface, in registry order. Never
/// fails; per-surface hide failures are the host's to ignore.
pub fn hide_all_webviews_impl(state: &WebviewState) -> (cmds: Vec<SurfaceCommand>)
    requires
        state.wf(),
    ensures
        cmds@.len() == state.pairs().len(),
        forall|k: int| 0 <= k < cmds@.len()
            ==> ((#[trigger] cmds@[k]) matches SurfaceCommand::Hide { label }
                && label@ == state.pairs()[k].1),
        forall|vis: Map<Seq<char>, bool>, j: int| 0 <= j < state.pairs().len()
            ==> #[trigger] apply_commands(vis, cmds@).contains_key(state.pairs()[j].1)
                && !apply_commands(vis, cmds@)[state.pairs()[j].1],
{
    let n = state.len();
    let entries = state.entries_snapshot();
    let mut cmds: Vec<SurfaceCommand> = Vec::new();
    let mut i: usize = 0;
    while i < n
        invariant
            state.wf(),
            n == state.pairs().len(),
            entries@.len() == n,
            forall|k: int| 0 <= k < n ==> (#[trigger] entries@[k]).1@ == state.pairs()[k].1,
            i <= n,
            cmds@.len() == i,
            forall|k: int| 0 <= k < i
                ==> ((#[trigger] cmds@[k]) matches SurfaceCommand::Hide { label }
                    && label@ == state.pairs()[k].1),
        decreases n - i,
    {
        cmds.push(SurfaceCommand::Hide { label: entries[i].1.clone() });
        i += 1;
    }
    proof {
        assert forall|vis: Map<Seq<char>, bool>, j: int| 0 <= j < state.pairs().len()
            implies #[trigger] apply_commands(vis, cmds@).contains_key(state.pairs()[j].1)
                && !apply_commands(vis, cmds@)[state.pairs()[j].1] by {
            assert(cmds@[j] matches SurfaceCommand::Hide { label }
                && label@ == state.pairs()[j].1);
            lemma_apply_hidden(vis, cmds@, state.pairs()[j].1);
        }
    }
    cmds
}

/// Closes a tab's surface: the registry entry goes away first and
/// unconditionally, then the host is asked to destroy the surface if
/// one was registered. Registry state is authoritative over host state.
pub fn close_tab_webview_impl(state: &mut WebviewState, tab_id: &String) -> (r: Option<
    SurfaceCommand,
>)
    requires
        old(state).wf(),
    ensures
        final(state).wf(),
        final(state).as_map() == old(state).as_map().remove(tab_id@),
        !final(state).as_map().contains_key(tab_id@),
        labels_canonical(old(state).pairs()) ==> labels_canonical(final(state).pairs()),
        match r {
            Some(cmd) => cmd matches SurfaceCommand::Destroy { label }
                && old(state).as_map().contains_key(tab_id@)
                && label@ == old(state).as_map()[tab_id@],
            None => !old(state).as_map().contains_key(tab_id@),
        },
{
    let ghost orig = state.pairs();
    let r = match state.remove(tab_id) {
        Some(label) => Some(SurfaceCommand::Destroy { label }),
        None => None,
    };
    proof {
        if labels_canonical(orig) {
            assert forall|i: int| 0 <= i < state.pairs().len()
                implies (#[trigger] state.pairs()[i]).1 == label_of(state.pairs()[i].0) by {
                assert(entries_among(state.pairs(), orig));
                let j = choose|j: int| 0 <= j < orig.len() && orig[j] == state.pairs()[i];
                assert(orig[j].1 == label_of(orig[j].0));
            }
        }
    }
    r
}

/// Plans navigating a tab's surface to a URL. The URL's scheme must be
/// one the surface accepts — checked before anything else, so an
/// unsupported scheme is rejected even for an unknown tab — then the
/// tab must have a surface, and the URL must parse.
pub fn navigate_webview_impl(
    state: &WebviewState,
    tab_id: &String,
    url: &String,
) -> (r: Result<SurfaceCommand, ShellError>)
    requires
        state.wf(),
    ensures
        match r {
            Ok(cmd) => {
                &&& nav_scheme_ok(url@)
                &&& state.as_map().contains_key(tab_id@)
                &&& parsed_host(url@) is Some
                &&& (cmd matches SurfaceCommand::NavigateTo { label, url: u }
                    && label@ == state.as_map()[tab_id@] && u@ == url@)
            },
            Err(e) => {
                &&& (e is UnsupportedNavScheme <==> !nav_scheme_ok(url@))
                &&& (e matches ShellError::UnsupportedNavScheme { url: bad }
                    ==> bad@ == url@)
                &&& (e is TabNotFound <==> nav_scheme_ok(url@)
                    && !state.as_map().contains_key(tab_id@))
                &&& (e is InvalidUrl <==> nav_scheme_ok(url@)
                    && state.as_map().contains_key(tab_id@) && parsed_host(url@) is None)
            },
        },
{
    if !check_nav_scheme(url.as_str()) {
        return Err(ShellError::UnsupportedNavScheme { url: url.clone() });
    }
    match state.lookup(tab_id) {
        None => Err(ShellError::TabNotFound),
        Some(label) => {
            if parse_host(url.as_str()).is_none() {
                return Err(ShellError::InvalidUrl);
            }
            Ok(SurfaceCommand::NavigateTo { label, url: url.clone() })
        },
    }
}

/// Plans muting all media in a tab's surface.
pub fn mute_webview_impl(state: &WebviewState, tab_id: &String) -> (r: Result<
    SurfaceCommand,
    ShellError,
>)
    requires
        state.wf(),
    ensures
        match r {
            Ok(cmd) => cmd matches SurfaceCommand::Eval { label, script }
                && state.as_map().contains_key(tab_id@)
                && label@ == state.as_map()[tab_id@] && script@ == mute_script_text(),
            Err(e) => !state.as_map().contains_key(tab_id@) && e is TabNotFound,
        },
{
    match state.lookup(tab_id) {
        None => Err(ShellError::TabNotFound),
        Some(label) => Ok(SurfaceCommand::Eval {
            label,
            script: get_mute_script().to_owned(),
        }),
    }
}

/// Plans unmuting all media in a tab's surface.
pub fn unmute_webview_impl(state: &WebviewState, tab_id: &String) -> (r: Result<
    SurfaceCommand,
    ShellError,
>)
    requires
        state.wf(),
    ensures
        match r {
            Ok(cmd) => cmd matches SurfaceCommand::Eval { label, script }
                && state.as_map().contains_key(tab_id@)
                && label@ == state.as_map()[tab_id@] && script@ == unmute_script_text(),
            Err(e) => !state.as_map().contains_key(tab_id@) && e is TabNotFound,
        },
{
    match state.lookup(tab_id) {
        None => Err(ShellError::TabNotFound),
        Some(label) => Ok(SurfaceCommand::Eval {
            label,
            script: get_unmute_script().to_owned(),
        }),
    }
}

/// Decides which failure, if any, an operation on one surface reports
/// when the registry entry may be absent or the host object gone.
pub fn resolve_surface_error(has_mapping: bool, host_found: bool) -> (r: Option<ShellError>)
    ensures
        match r {
            None => has_mapping && host_found,
            Some(e) => (!has_mapping && e is TabNotFound)
                || (has_mapping && !host_found && e is WebviewNotFound),
        },
{
    if !has_mapping {
        Some(ShellError::TabNotFound)
    } else if !host_found {
        Some(ShellError::WebviewNotFound)
    } else {
        None
    }
}

/// Plans re-applying the current geometry to every registered surface
/// after a host-window resize: one rectangle, computed once, applied
/// to each label in registry order.
pub fn resize_all_impl(state: &WebviewState, window: WindowSize) -> (cmds: Vec<SurfaceCommand>)
    requires
        state.wf(),
        HEADER_HEIGHT <= window.height,
    ensures
        cmds@.len() == state.pairs().len(),
        forall|k: int| 0 <= k < cmds@.len()
            ==> ((#[trigger] cmds@[k]) matches SurfaceCommand::SetRect { label, rect }
                && label@ == state.pairs()[k].1 && rect == rect_for(window, HEADER_HEIGHT)),
{
    let rect = compute_rect(window, HEADER_HEIGHT);
    let n = state.len();
    let entries = state.entries_snapshot();
    let mut cmds: Vec<SurfaceCommand> = Vec::new();
    let mut i: usize = 0;
    while i < n
        invariant
            state.wf(),
            n == state.pairs().len(),
            entries@.len() == n,
            forall|k: int| 0 <= k < n ==> (#[trigger] entries@[k]).1@ == state.pairs()[k].1,
            i <= n,
            rect == rect_for(window, HEADER_HEIGHT),
            cmds@.len() == i,
            forall|k: int| 0 <= k < i
                ==> ((#[trigger] cmds@[k]) matches SurfaceCommand::SetRect { label, rect: rc }
                    && label@ == state.pairs()[k].1 && rc == rect_for(window, HEADER_HEIGHT)),
        decreases n - i,
    {
        cmds.push(SurfaceCommand::SetRect { label: entries[i].1.clone(), rect });
        i += 1;
    }
    cmds
}

} // verus!
