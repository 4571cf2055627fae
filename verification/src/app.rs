//! The inbox session state: loaded articles, the active filter, selection,
//! scroll position, and the bookkeeping of the background refresh cycle.

use vstd::prelude::*;

use crate::model::Article;
use crate::strings::{contains_sub, is_substring, lower_of, lowercase, pop_char, push_char,
    push_str};

verus! {

/// The session message shown in the status bar. The interactive shell
/// renders each variant as text; the engine only records which one holds.
#[derive(Debug, Clone, PartialEq, Eq)]
pub enum Status {
    /// The greeting shown before anything was loaded.
    Welcome,
    /// A refresh cycle delivered this many visible articles.
    Loaded(usize),
    /// A refresh cycle is in flight.
    Refreshing,
    /// The last refresh cycle failed with this message; the inbox kept its
    /// previous contents.
    RefreshFailed(String),
    /// Filter-entry mode is active; keystrokes edit the filter text.
    FilterHint,
    /// A filter was committed and this many articles pass it.
    FilterApplied(usize),
    /// The filter text was cleared and this many articles are visible.
    FilterCleared(usize),
    /// The selected article's link was handed to the browser.
    OpenedBrowser,
    /// Handing the link to the browser failed with this message.
    BrowserFailed(String),
    /// The external viewer ran and the session resumed.
    ReturnedViewer,
    /// Launching the external viewer failed with this message.
    ViewerFailed(String),
}

/// The single result a refresh cycle reports back: the merged, sorted
/// article list, or the message of a hard failure.
#[derive(Debug)]
pub enum RefreshOutcome {
    Success(Vec<Article>),
    Failure(String),
}

/// The selection after one step down: stays inside the visible range,
/// stopping at the last row; 0 when nothing is visible.
pub open spec fn down_sel(sel: int, len: int) -> int {
    if len == 0 {
        0
    } else if sel + 1 < len {
        sel + 1
    } else {
        len - 1
    }
}

/// The selection after one step up: one less, floored at 0.
pub open spec fn up_sel(sel: int) -> int {
    if sel > 0 {
        sel - 1
    } else {
        0
    }
}

/// The selection after the visible set was recomputed to length `len`:
/// unchanged while still in range, else the last row, else 0.
pub open spec fn clamp_sel(sel: int, len: int) -> int {
    if sel < len {
        sel
    } else if len == 0 {
        0
    } else {
        len - 1
    }
}

/// The scroll offset after one page down of size `page > 0` over `len`
/// visible rows: grown by `page` (saturating), but never past the point
/// where the last row is the last one shown; 0 when everything fits.
pub open spec fn page_down_off(off: int, page: int, len: int) -> int {
    vstd::math::min(
        vstd::math::min(off + page, usize::MAX as int),
        vstd::math::max(len - page, 0),
    )
}

/// The scroll offset after one page up of size `page > 0`: shrunk by
/// `page`, floored at 0.
pub open spec fn page_up_off(off: int, page: int) -> int {
    vstd::math::max(off - page, 0)
}

/// The text an article is matched against: source, title and summary,
/// joined by single spaces.
pub open spec fn hay_of(a: Article) -> Seq<char> {
    a.source@ + seq![' '] + a.title@ + seq![' '] + a.summary@
}

/// Whether an article passes the filter text `f`: an empty filter passes
/// everything; otherwise the case-folded filter must occur in the
/// case-folded haystack.
pub open spec fn passes(a: Article, f: Seq<char>) -> bool {
    f.len() == 0 || is_substring(lower_of(f), lower_of(hay_of(a)))
}

/// The visible indices among the first `n` articles, in order.
pub open spec fn visible_prefix(items: Seq<Article>, f: Seq<char>, n: int) -> Seq<usize>
    decreases n,
{
    if n <= 0 {
        Seq::empty()
    } else {
        let rest = visible_prefix(items, f, n - 1);
        if passes(items[n - 1], f) {
            rest.push((n - 1) as usize)
        } else {
            rest
        }
    }
}

/// The visible indices of `items` under filter `f`: exactly the indices of
/// articles that pass `f`, in the order of `items`.
pub open spec fn visible_spec(items: Seq<Article>, f: Seq<char>) -> Seq<usize> {
    visible_prefix(items, f, items.len() as int)
}

proof fn lemma_visible_prefix_props(items: Seq<Article>, f: Seq<char>, n: int)
    requires
        0 <= n <= items.len(),
        n <= usize::MAX,
    ensures
        forall|k: int|
            0 <= k < visible_prefix(items, f, n).len() ==> 0 <= #[trigger] visible_prefix(
                items,
                f,
                n,
            )[k] < n && passes(items[visible_prefix(items, f, n)[k] as int], f),
        forall|k1: int, k2: int|
            0 <= k1 < k2 < visible_prefix(items, f, n).len() ==> visible_prefix(items, f, n)[k1]
                < visible_prefix(items, f, n)[k2],
        forall|i: int|
            0 <= i < n && passes(items[i], f) ==> exists|k: int|
                0 <= k < visible_prefix(items, f, n).len() && #[trigger] visible_prefix(
                    items,
                    f,
                    n,
                )[k] == i,
    decreases n,
{
    if n > 0 {
        lemma_visible_prefix_props(items, f, n - 1);
        let rest = visible_prefix(items, f, n - 1);
        let whole = visible_prefix(items, f, n);
        if passes(items[n - 1], f) {
            assert(whole == rest.push((n - 1) as usize));
            assert(whole[whole.len() - 1] == (n - 1) as usize);
            assert forall|k: int| 0 <= k < whole.len() implies 0 <= #[trigger] whole[k] < n
                && passes(items[whole[k] as int], f) by {
                if k < rest.len() {
                    assert(whole[k] == rest[k]);
                }
            }
            assert forall|k1: int, k2: int| 0 <= k1 < k2 < whole.len() implies whole[k1]
                < whole[k2] by {
                assert(whole[k1] == rest[k1]);
                if k2 < rest.len() {
                    assert(whole[k2] == rest[k2]);
                } else {
                    assert(rest[k1] < (n - 1) as usize);
                }
            }
            assert forall|i: int| 0 <= i < n && passes(items[i], f) implies exists|k: int|
                0 <= k < whole.len() && #[trigger] whole[k] == i by {
                if i == n - 1 {
                    assert(whole[whole.len() - 1] == i);
                } else {
                    let k = choose|k: int| 0 <= k < rest.len() && #[trigger] rest[k] == i;
                    assert(whole[k] == i);
                }
            }
        } else {
            assert(whole == rest);
        }
    }
}

/// Soundness, completeness and order of the visible set: every listed index
/// is in range and passes the filter; every in-range index that passes the
/// filter is listed; and listed indices are strictly increasing, so the
/// filtered view keeps the articles' order.
pub proof fn lemma_visible_sound_complete(items: Seq<Article>, f: Seq<char>)
    requires
        items.len() <= usize::MAX,
    ensures
        forall|k: int|
            0 <= k < visible_spec(items, f).len() ==> 0 <= #[trigger] visible_spec(items, f)[k]
                < items.len() && passes(items[visible_spec(items, f)[k] as int], f),
        forall|k1: int, k2: int|
            0 <= k1 < k2 < visible_spec(items, f).len() ==> visible_spec(items, f)[k1]
                < visible_spec(items, f)[k2],
        forall|i: int|
            0 <= i < items.len() && passes(items[i], f) ==> exists|k: int|
                0 <= k < visible_spec(items, f).len() && #[trigger] visible_spec(items, f)[k] == i,
{
    let n = items.len() as int;
    lemma_visible_prefix_props(items, f, n);
    assert forall|i: int| 0 <= i < items.len() && passes(items[i], f) implies exists|k: int|
        0 <= k < visible_spec(items, f).len() && #[trigger] visible_spec(items, f)[k] == i by {
        let k = choose|k: int|
            0 <= k < visible_prefix(items, f, n).len() && #[trigger] visible_prefix(items, f, n)[k]
                == i;
        assert(visible_spec(items, f)[k] == i);
    }
}

/// The inbox session state. One instance lives for the whole session, owned
/// by the interactive loop.
#[derive(Debug)]
pub struct App {
    /// All loaded articles, newest first; replaced wholesale by a
    /// successful refresh.
    pub articles: Vec<Article>,
    /// Indices into `articles` that pass the current filter, in order.
    pub filtered: Vec<usize>,
    /// Index into `filtered` of the selected row; 0 when nothing is
    /// visible.
    pub selected: usize,
    /// Whether the preview pane shows the full summary.
    pub show_full: bool,
    /// First visible row within `filtered`.
    pub inbox_view_offset: usize,
    /// The filter text as entered; matching is case-insensitive.
    pub filter: String,
    /// The current status-bar message.
    pub status: Status,
    /// True while a refresh cycle is in flight.
    pub loading: bool,
}

impl App {
    /// The state's internal invariant: `filtered` holds strictly increasing
    /// indices into `articles`, and the selection points at a visible row
    /// whenever one exists (and is 0 otherwise).
    pub open spec fn wf(self) -> bool {
        &&& forall|k: int|
            0 <= k < self.filtered@.len() ==> (#[trigger] self.filtered@[k]) < self.articles@.len()
        &&& forall|k1: int, k2: int|
            0 <= k1 < k2 < self.filtered@.len() ==> self.filtered@[k1] < self.filtered@[k2]
        &&& (self.filtered@.len() == 0 ==> self.selected == 0)
        &&& (self.filtered@.len() > 0 ==> (self.selected as int) < self.filtered@.len())
    }

    /// A fresh session: nothing loaded, no filter, the greeting shown.
    pub fn new() -> (a: App)
        ensures
            a.articles@.len() == 0,
            a.filtered@.len() == 0,
            a.selected == 0,
            a.show_full == false,
            a.inbox_view_offset == 0,
            a.filter@.len() == 0,
            a.status == Status::Welcome,
            a.loading == false,
            a.wf(),
    {
        App {
            articles: Vec::new(),
            filtered: Vec::new(),
            selected: 0,
            show_full: false,
            inbox_view_offset: 0,
            filter: String::new(),
            status: Status::Welcome,
            loading: false,
        }
    }

    /// Recomputes the visible set from the current articles and filter
    /// text, then clamps the selection so it never references a
    /// non-existent visible row. Touches nothing else.
    pub fn apply_filter(&mut self)
        ensures
            final(self).articles == old(self).articles,
            final(self).filter == old(self).filter,
            final(self).show_full == old(self).show_full,
            final(self).inbox_view_offset == old(self).inbox_view_offset,
            final(self).status == old(self).status,
            final(self).loading == old(self).loading,
            final(self).filtered@ == visible_spec(old(self).articles@, old(self).filter@),
            final(self).selected as int == clamp_sel(
                old(self).selected as int,
                final(self).filtered@.len() as int,
            ),
            final(self).wf(),
    {
        let filter_empty = self.filter.as_str().is_empty();
        let f_low = lowercase(self.filter.as_str());
        let mut vis: Vec<usize> = Vec::new();
        let mut i: usize = 0;
        while i < self.articles.len()
            invariant
                i <= self.articles@.len(),
                vis@ == visible_prefix(self.articles@, self.filter@, i as int),
                f_low@ == lower_of(self.filter@),
                filter_empty == (self.filter@.len() == 0),
            decreases self.articles@.len() - i,
        {
            let a = &self.articles[i];
            let ok: bool;
            if filter_empty {
                ok = true;
            } else {
                let mut hay = String::new();
                push_str(&mut hay, a.source.as_str());
                push_char(&mut hay, ' ');
                push_str(&mut hay, a.title.as_str());
                push_char(&mut hay, ' ');
                push_str(&mut hay, a.summary.as_str());
                proof {
                    assert(hay@ =~= hay_of(self.articles@[i as int]));
                }
                let hay_low = lowercase(hay.as_str());
                ok = contains_sub(hay_low.as_str(), f_low.as_str());
            }
            assert(ok == passes(self.articles@[i as int], self.filter@));
            if ok {
                vis.push(i);
            }
            i += 1;
        }
        self.filtered = vis;
        if self.selected >= self.filtered.len() {
            if self.filtered.len() == 0 {
                self.selected = 0;
            } else {
                self.selected = self.filtered.len() - 1;
            }
        }
        proof {
            lemma_visible_sound_complete(self.articles@, self.filter@);
            let vspec = visible_spec(self.articles@, self.filter@);
            assert forall|k: int| 0 <= k < self.filtered@.len() implies (
            #[trigger] self.filtered@[k]) < self.articles@.len() by {
                assert(self.filtered@[k] == vspec[k]);
            }
            assert forall|k1: int, k2: int|
                0 <= k1 < k2 < self.filtered@.len() implies self.filtered@[k1]
                < self.filtered@[k2] by {
                assert(self.filtered@[k1] == vspec[k1]);
                assert(self.filtered@[k2] == vspec[k2]);
            }
        }
    }

    /// Replaces the whole article list (already sorted newest-first by the
    /// fetch side), resets selection and scroll to the top, recomputes the
    /// visible set under the unchanged filter, and reports how many
    /// articles were delivered.
    pub fn set_articles(&mut self, items: Vec<Article>)
        ensures
            final(self).articles == items,
            final(self).filtered@ == visible_spec(items@, old(self).filter@),
            final(self).selected == 0,
            final(self).inbox_view_offset == 0,
            final(self).filter == old(self).filter,
            final(self).show_full == old(self).show_full,
            final(self).loading == old(self).loading,
            final(self).status == (Status::Loaded(items@.len() as usize)),
            final(self).wf(),
    {
        self.articles = items;
        self.selected = 0;
        self.inbox_view_offset = 0;
        self.apply_filter();
        self.status = Status::Loaded(self.articles.len());
    }

    /// The article the selection points at, or nothing when the visible set
    /// is empty.
    pub fn selected_article(&self) -> (r: Option<&Article>)
        requires
            self.wf(),
        ensures
            match r {
                Some(a) => self.filtered@.len() > 0 && *a == self.articles@[self.filtered@[self.selected as int] as int],
                None => self.filtered@.len() == 0,
            },
    {
        if self.filtered.len() == 0 {
            None
        } else {
            let idx: usize = self.filtered[self.selected];
            Some(&self.articles[idx])
        }
    }

    /// Moves the selection one row down, stopping at the last visible row;
    /// does nothing when nothing is visible.
    pub fn move_down(&mut self)
        requires
            old(self).wf(),
        ensures
            final(self).selected as int == down_sel(
                old(self).selected as int,
                old(self).filtered@.len() as int,
            ),
            final(self).articles == old(self).articles,
            final(self).filtered == old(self).filtered,
            final(self).filter == old(self).filter,
            final(self).show_full == old(self).show_full,
            final(self).inbox_view_offset == old(self).inbox_view_offset,
            final(self).status == old(self).status,
            final(self).loading == old(self).loading,
            final(self).wf(),
    {
        if self.filtered.is_empty() {
            return ;
        }
        let last: usize = self.filtered.len() - 1;
        let next: usize = self.selected + 1;
        self.selected = if next < last {
            next
        } else {
            last
        };
    }

    /// Moves the selection one row up, stopping at the first row; does
    /// nothing when nothing is visible.
    pub fn move_up(&mut self)
        requires
            old(self).wf(),
        ensures
            final(self).selected as int == up_sel(old(self).selected as int),
            final(self).articles == old(self).articles,
            final(self).filtered == old(self).filtered,
            final(self).filter == old(self).filter,
            final(self).show_full == old(self).show_full,
            final(self).inbox_view_offset == old(self).inbox_view_offset,
            final(self).status == old(self).status,
            final(self).loading == old(self).loading,
            final(self).wf(),
    {
        if self.filtered.is_empty() {
            return ;
        }
        if self.selected > 0 {
            self.selected = self.selected - 1;
        }
    }

    /// Scrolls one page down. With `page == 0` the viewport cannot show a
    /// row, so the call does nothing. Otherwise the offset grows by `page`
    /// but never past the point where the last visible row fills the last
    /// screen row; when everything fits on one page the offset is 0.
    pub fn page_down(&mut self, page: usize)
        ensures
            page == 0 ==> *final(self) == *old(self),
            page > 0 ==> final(self).inbox_view_offset as int == page_down_off(
                old(self).inbox_view_offset as int,
                page as int,
                old(self).filtered@.len() as int,
            ),
            page > 0 && old(self).filtered@.len() >= page ==> final(self).inbox_view_offset
                <= old(self).filtered@.len() - page,
            page > 0 && old(self).filtered@.len() < page ==> final(self).inbox_view_offset == 0,
            final(self).articles == old(self).articles,
            final(self).filtered == old(self).filtered,
            final(self).selected == old(self).selected,
            final(self).filter == old(self).filter,
            final(self).show_full == old(self).show_full,
            final(self).status == old(self).status,
            final(self).loading == old(self).loading,
    {
        if page == 0 {
            return ;
        }
        let grown: usize = if self.inbox_view_offset <= usize::MAX - page {
            self.inbox_view_offset + page
        } else {
            usize::MAX
        };
        let len: usize = self.filtered.len();
        let max_offset: usize = if len >= page {
            len - page
        } else {
            0
        };
        self.inbox_view_offset = if grown < max_offset {
            grown
        } else {
            max_offset
        };
    }

    /// Scrolls one page up, stopping at the top. With `page == 0` the call
    /// does nothing.
    pub fn page_up(&mut self, page: usize)
        ensures
            page == 0 ==> *final(self) == *old(self),
            page > 0 ==> final(self).inbox_view_offset as int == page_up_off(
                old(self).inbox_view_offset as int,
                page as int,
            ),
            final(self).articles == old(self).articles,
            final(self).filtered == old(self).filtered,
            final(self).selected == old(self).selected,
            final(self).filter == old(self).filter,
            final(self).show_full == old(self).show_full,
            final(self).status == old(self).status,
            final(self).loading == old(self).loading,
    {
        if page == 0 {
            return ;
        }
        self.inbox_view_offset = if self.inbox_view_offset >= page {
            self.inbox_view_offset - page
        } else {
            0
        };
    }

    /// Begins a refresh cycle unless one is already in flight: overlapping
    /// requests coalesce into the running cycle. Returns whether the caller
    /// should actually spawn a fetch; a `false` call changed nothing.
    pub fn start_refresh(&mut self) -> (spawn: bool)
        ensures
            spawn == !old(self).loading,
            old(self).loading ==> *final(self) == *old(self),
            !old(self).loading ==> *final(self) == (App {
                loading: true,
                status: Status::Refreshing,
                ..*old(self)
            }),
    {
        if self.loading {
            return false;
        }
        self.loading = true;
        self.status = Status::Refreshing;
        true
    }

    /// Drains the one outcome a refresh cycle delivers. Success replaces
    /// the article list; failure keeps every loaded article untouched and
    /// only records the error. Either way the in-flight flag clears.
    pub fn deliver_refresh_outcome(&mut self, outcome: RefreshOutcome)
        ensures
            final(self).loading == false,
            outcome matches RefreshOutcome::Success(items) ==> {
                &&& final(self).articles == items
                &&& final(self).filtered@ == visible_spec(items@, old(self).filter@)
                &&& final(self).selected == 0
                &&& final(self).inbox_view_offset == 0
                &&& final(self).filter == old(self).filter
                &&& final(self).show_full == old(self).show_full
                &&& final(self).status == (Status::Loaded(items@.len() as usize))
                &&& final(self).wf()
            },
            outcome matches RefreshOutcome::Failure(msg) ==> *final(self) == (App {
                loading: false,
                status: Status::RefreshFailed(msg),
                ..*old(self)
            }),
    {
        self.loading = false;
        match outcome {
            RefreshOutcome::Success(items) => {
                self.set_articles(items);
            },
            RefreshOutcome::Failure(msg) => {
                self.status = Status::RefreshFailed(msg);
            },
        }
    }

    /// Enters filter-entry mode: only the status hint changes; the visible
    /// set is left alone until the filter is committed.
    pub fn enter_filter_mode(&mut self)
        ensures
            *final(self) == (App { status: Status::FilterHint, ..*old(self) }),
    {
        self.status = Status::FilterHint;
    }

    /// Commits the current filter text: recomputes the visible set, clamps
    /// the selection, and reports how many articles pass.
    pub fn commit_filter(&mut self)
        ensures
            final(self).articles == old(self).articles,
            final(self).filter == old(self).filter,
            final(self).show_full == old(self).show_full,
            final(self).inbox_view_offset == old(self).inbox_view_offset,
            final(self).loading == old(self).loading,
            final(self).filtered@ == visible_spec(old(self).articles@, old(self).filter@),
            final(self).selected as int == clamp_sel(
                old(self).selected as int,
                final(self).filtered@.len() as int,
            ),
            final(self).status == (Status::FilterApplied(final(self).filtered@.len() as usize)),
            final(self).wf(),
    {
        self.apply_filter();
        self.status = Status::FilterApplied(self.filtered.len());
    }

    /// Appends one typed character to the filter text. Nothing is
    /// recomputed: the visible set only changes when the filter is
    /// committed or cleared.
    pub fn filter_push(&mut self, c: char)
        ensures
            final(self).filter@ == old(self).filter@.push(c),
            final(self).articles == old(self).articles,
            final(self).filtered == old(self).filtered,
            final(self).selected == old(self).selected,
            final(self).show_full == old(self).show_full,
            final(self).inbox_view_offset == old(self).inbox_view_offset,
            final(self).status == old(self).status,
            final(self).loading == old(self).loading,
    {
        push_char(&mut self.filter, c);
    }

    /// Removes the last character of the filter text, if any. Nothing is
    /// recomputed.
    pub fn filter_backspace(&mut self)
        ensures
            old(self).filter@.len() == 0 ==> final(self).filter@ == old(self).filter@,
            old(self).filter@.len() > 0 ==> final(self).filter@ == old(self).filter@.drop_last(),
            final(self).articles == old(self).articles,
            final(self).filtered == old(self).filtered,
            final(self).selected == old(self).selected,
            final(self).show_full == old(self).show_full,
            final(self).inbox_view_offset == old(self).inbox_view_offset,
            final(self).status == old(self).status,
            final(self).loading == old(self).loading,
    {
        let _ = pop_char(&mut self.filter);
    }

    /// Empties the filter text, leaves filter entry, and recomputes the
    /// visible set at once, so everything loaded becomes visible again; the
    /// status reports the resulting count.
    pub fn clear_filter(&mut self)
        ensures
            final(self).filter@.len() == 0,
            final(self).articles == old(self).articles,
            final(self).show_full == old(self).show_full,
            final(self).inbox_view_offset == old(self).inbox_view_offset,
            final(self).loading == old(self).loading,
            final(self).filtered@ == visible_spec(old(self).articles@, Seq::<char>::empty()),
            final(self).selected as int == clamp_sel(
                old(self).selected as int,
                final(self).filtered@.len() as int,
            ),
            final(self).status == (Status::FilterCleared(final(self).filtered@.len() as usize)),
            final(self).wf(),
    {
        self.filter = String::new();
        self.apply_filter();
        self.status = Status::FilterCleared(self.filtered.len());
    }

    /// Empties the filter text without leaving filter-entry mode and
    /// without recomputing the visible set: the clear shortcut of the
    /// entry mode, batched like every other edit until the mode is left.
    pub fn filter_erase(&mut self)
        ensures
            final(self).filter@ == Seq::<char>::empty(),
            final(self).articles == old(self).articles,
            final(self).filtered == old(self).filtered,
            final(self).selected == old(self).selected,
            final(self).show_full == old(self).show_full,
            final(self).inbox_view_offset == old(self).inbox_view_offset,
            final(self).status == old(self).status,
            final(self).loading == old(self).loading,
    {
        self.filter = String::new();
    }

    /// Toggles between the truncated and the full preview of the selected
    /// article's summary.
    pub fn toggle_full(&mut self)
        ensures
            *final(self) == (App { show_full: !old(self).show_full, ..*old(self) }),
    {
        self.show_full = !self.show_full;
    }

    /// Records the outcome of handing the selected link to the browser.
    pub fn note_browser_outcome(&mut self, error: Option<String>)
        ensures
            error matches Some(msg) ==> *final(self) == (App {
                status: Status::BrowserFailed(msg),
                ..*old(self)
            }),
            error is None ==> *final(self) == (App { status: Status::OpenedBrowser, ..*old(self) }),
    {
        match error {
            Some(msg) => {
                self.status = Status::BrowserFailed(msg);
            },
            None => {
                self.status = Status::OpenedBrowser;
            },
        }
    }

    /// Records the outcome of the external-viewer handoff.
    pub fn note_viewer_outcome(&mut self, error: Option<String>)
        ensures
            error matches Some(msg) ==> *final(self) == (App {
                status: Status::ViewerFailed(msg),
                ..*old(self)
            }),
            error is None ==> *final(self) == (App { status: Status::ReturnedViewer, ..*old(self) }),
    {
        match error {
            Some(msg) => {
                self.status = Status::ViewerFailed(msg);
            },
            None => {
                self.status = Status::ReturnedViewer;
            },
        }
    }
}

/// Committing an unchanged filter twice in a row shows the same visible set
/// both times: the visible set is a function of the loaded articles and the
/// filter text alone, and a commit changes neither.
pub proof fn lemma_commit_filter_idempotent(first: App, second: App)
    requires
        second.articles@ == first.articles@,
        second.filter@ == first.filter@,
        first.filtered@ == visible_spec(first.articles@, first.filter@),
        second.filtered@ == visible_spec(second.articles@, second.filter@),
    ensures
        second.filtered@ == first.filtered@,
{
}

} // verus!
