//! The UI-side state machine: current query, page, sort and selection, and
//! how each input event changes them.
//!
//! The state owns the paginated result cache and answers page requests from
//! it; everything that blocks — reading keys, drawing, the network — stays
//! outside and is told through an [`AppAction`] what to do next.

use vstd::prelude::*;

use crate::crates_io::CacheModel;
use crate::crates_io::CrateSearch;
use crate::crates_io::CrateSearchResponse;
use crate::crates_io::CrateSearcher;
use crate::crates_io::CratesSort;
use crate::crates_io::over_fetch_request;
use crate::crates_io::spec_display_string;
use crate::crates_io::spec_ingest;
use crate::crates_io::spec_sig;
use crate::crates_io::spec_window_hit;
use crate::crates_io::spec_window_len;
use crate::crates_io::spec_window_start;
use crate::input::InputEvent;
use crate::spec_ceil_div;
use crate::worker::FetchRequest;

verus! {

/// Relies on String::push: appends the character to the buffer.
#[verifier::external_body]
fn push_char(s: &mut String, c: char)
    ensures
        final(s)@ == old(s)@.push(c),
{
    s.push(c);
}

/// Relies on String::pop: removes the last character, if there is one.
#[verifier::external_body]
fn pop_char(s: &mut String)
    ensures
        old(s)@.len() == 0 ==> final(s)@ == old(s)@,
        old(s)@.len() > 0 ==> final(s)@ == old(s)@.drop_last(),
{
    s.pop();
}

proof fn lemma_u32_mul_fits(a: u32, b: u32)
    ensures
        a as int * b as int <= u32::MAX as int * u32::MAX as int,
{
    assert(a as int * b as int <= u32::MAX as int * u32::MAX as int) by (nonlinear_arith)
        requires
            a <= u32::MAX,
            b <= u32::MAX,
    ;
}

/// The sort picker: the choices, their display names, and which one is
/// highlighted.
pub struct SortingField {
    pub selection: usize,
    pub items: Vec<CratesSort>,
    pub strs: Vec<String>,
}

impl SortingField {
    /// The fixed list of choices the picker offers, in order.
    pub open spec fn spec_choices() -> Seq<CratesSort> {
        seq![
            CratesSort::Relevance,
            CratesSort::AllTimeDownload,
            CratesSort::RecentDownload,
            CratesSort::RecentUpdate,
            CratesSort::NewlyAdded,
        ]
    }

    /// A well-formed picker: five choices, a display name for each, and a
    /// highlight that points at one of them.
    pub open spec fn wf(&self) -> bool {
        &&& self.items@ == Self::spec_choices()
        &&& self.strs@.len() == 5
        &&& (forall|i: int|
            0 <= i < 5 ==> (#[trigger] self.strs@[i])@ == spec_display_string(self.items@[i]))
        &&& self.selection < 5
    }

    /// A picker with `sort` highlighted.
    pub fn from_sort(sort: &CratesSort) -> (r: Self)
        ensures
            r.wf(),
            r.items@[r.selection as int] == *sort,
    {
        let mut items: Vec<CratesSort> = Vec::new();
        items.push(CratesSort::Relevance);
        items.push(CratesSort::AllTimeDownload);
        items.push(CratesSort::RecentDownload);
        items.push(CratesSort::RecentUpdate);
        items.push(CratesSort::NewlyAdded);
        let selection: usize = match sort {
            CratesSort::Relevance => 0,
            CratesSort::AllTimeDownload => 1,
            CratesSort::RecentDownload => 2,
            CratesSort::RecentUpdate => 3,
            CratesSort::NewlyAdded => 4,
        };
        let mut strs: Vec<String> = Vec::new();
        strs.push(CratesSort::Relevance.display_string());
        strs.push(CratesSort::AllTimeDownload.display_string());
        strs.push(CratesSort::RecentDownload.display_string());
        strs.push(CratesSort::RecentUpdate.display_string());
        strs.push(CratesSort::NewlyAdded.display_string());
        proof {
            assert(items@ =~= Self::spec_choices());
        }
        Self { selection, items, strs }
    }
}

/// Which overlay the UI is in: plain browsing, typing a search term, or
/// picking a sort order.
pub enum AppMode {
    Normal,
    Input(String),
    Sorting(SortingField),
}

/// The command-line arguments: an optional one-shot search that bypasses
/// the interactive UI, the sort order, and how many results to show.
pub struct AppArgs {
    pub find: Option<String>,
    pub sort: CratesSort,
    pub count: usize,
}

/// What the surrounding loop must do after an event was handled: nothing,
/// run the search flow for the current page, run it and then move the
/// highlight to the last record of the page, or act on the selection.
#[derive(Clone, Copy, Debug, PartialEq, Eq, Structural)]
pub enum AppAction {
    /// The event was handled entirely within the state.
    Nothing,
    /// Fetch-if-needed for the current page, then select its first record.
    Search,
    /// As `Search`, followed by [`App::select_last_saturating`]: paging
    /// backward lands on the last record of the previous page.
    SearchThenSelectLast,
    /// As `Search`, followed by [`App::select_last`]: jumping to the end
    /// lands on the last record, or clears the highlight of an empty page.
    SearchThenSelectEnd,
    /// Open the selected record's documentation link.
    OpenSelection,
    /// Copy the selected record's manifest line.
    CopySelection,
}

/// The interactive state: the current query, page and sort, which overlay
/// is up, the highlighted record, and the result cache all answers come
/// from.
pub struct App {
    client: CrateSearcher,
    pub quit: bool,
    inpt: Option<String>,
    page: u32,
    items_per_page: u32,
    sort: CratesSort,
    mode: AppMode,
    selection: Option<usize>,
}

impl App {
    /// The cache all page requests are answered from.
    pub closed spec fn spec_cache(&self) -> CacheModel {
        self.client@
    }

    /// The current search term.
    pub closed spec fn spec_term(&self) -> Seq<char> {
        self.inpt->Some_0@
    }

    /// The current 1-based UI page.
    pub closed spec fn spec_page(&self) -> u32 {
        self.page
    }

    /// How many records one UI page shows.
    pub closed spec fn spec_items_per_page(&self) -> u32 {
        self.items_per_page
    }

    /// The current sort order.
    pub closed spec fn spec_sort(&self) -> CratesSort {
        self.sort
    }

    /// The overlay the UI is in.
    pub closed spec fn spec_mode(&self) -> AppMode {
        self.mode
    }

    /// The highlighted record of the page, if any.
    pub closed spec fn spec_selection(&self) -> Option<usize> {
        self.selection
    }

    /// Whether the user asked to leave.
    pub closed spec fn spec_quit(&self) -> bool {
        self.quit
    }

    /// The signature of the current query.
    pub open spec fn spec_current_sig(&self) -> (Seq<char>, Seq<char>) {
        spec_sig(self.spec_term(), self.spec_sort())
    }

    /// Everything the navigation never touches: the cache, the query, the
    /// page size, the overlay and the quit flag.
    pub open spec fn spec_same_query(self, other: App) -> bool {
        &&& self.spec_cache() == other.spec_cache()
        &&& self.spec_term() == other.spec_term()
        &&& self.spec_sort() == other.spec_sort()
        &&& self.spec_items_per_page() == other.spec_items_per_page()
        &&& self.spec_mode() == other.spec_mode()
        &&& self.spec_quit() == other.spec_quit()
    }

    /// Well-formed: a term is always present, page and page size are
    /// 1-based, the page size leaves room for the tenfold over-fetch, and
    /// the cache and any open sort picker are themselves well-formed.
    pub closed spec fn wf(&self) -> bool {
        &&& self.client.wf()
        &&& self.inpt is Some
        &&& self.page >= 1
        &&& self.items_per_page >= 1
        &&& self.items_per_page <= u32::MAX / 10
        &&& match self.mode {
            AppMode::Sorting(ref f) => f.wf(),
            _ => true,
        }
    }

    /// The initial state: empty term, first page, five records a page,
    /// sorted by relevance, the term entry box open, nothing cached.
    pub fn new() -> (r: Self)
        ensures
            r.wf(),
            r.spec_cache() == CacheModel::empty(),
            r.spec_term() == Seq::<char>::empty(),
            r.spec_page() == 1,
            r.spec_items_per_page() == 5,
            r.spec_sort() == CratesSort::Relevance,
            r.spec_selection() is None,
            !r.spec_quit(),
            r.spec_mode() matches AppMode::Input(s) && s@ == Seq::<char>::empty(),
    {
        Self {
            client: CrateSearcher::new(),
            quit: false,
            inpt: Some(String::new()),
            page: 1,
            items_per_page: 5,
            mode: AppMode::Input(String::new()),
            sort: CratesSort::Relevance,
            selection: None,
        }
    }

    /// How many pages `num_items` records make at the current page size.
    pub fn num_pages(&self, num_items: u32) -> (r: u32)
        requires
            self.wf(),
        ensures
            r == spec_ceil_div(num_items as int, self.spec_items_per_page() as int),
    {
        if num_items == 0 {
            0
        } else {
            let r64 = (num_items as u64 - 1) / (self.items_per_page as u64) + 1;
            proof {
                assert((num_items as int - 1) / (self.items_per_page as int) + 1 == (num_items
                    as int + self.items_per_page as int - 1) / (self.items_per_page as int)
                    && (num_items as int - 1) / (self.items_per_page as int) + 1
                    <= num_items as int) by (nonlinear_arith)
                    requires
                        num_items >= 1,
                        self.items_per_page >= 1,
                ;
            }
            r64 as u32
        }
    }

    /// The cached answer for the current page, if it is fully resident:
    /// the total and the page's records in ascending absolute order.
    pub fn get_cached_crates(&self) -> (r: Option<(u32, Vec<&CrateSearch>)>)
        requires
            self.wf(),
        ensures
            ({
                let k = self.spec_current_sig();
                let page = self.spec_page() as int;
                let ipp = self.spec_items_per_page() as int;
                let start = spec_window_start(page, ipp);
                match r {
                    Some(res) => {
                        &&& spec_window_hit(self.spec_cache(), k, page, ipp)
                        &&& res.0 == self.spec_cache()[k].0
                        &&& res.1@.len() == spec_window_len(page, ipp, self.spec_cache()[k].0 as int)
                        &&& forall|i: int|
                            0 <= i < res.1@.len() ==> self.spec_cache()[k].1.contains_key(
                                #[trigger] ((start + i) as u32),
                            ) && res.1@[i] == self.spec_cache()[k].1[(start + i) as u32]
                    },
                    None => !spec_window_hit(self.spec_cache(), k, page, ipp),
                }
            }),
    {
        let search = self.inpt.as_ref();
        self.client.search_sorted_cached(
            search.unwrap().as_str(),
            self.page,
            self.items_per_page,
            &self.sort,
        )
    }

    /// Whether the current page needs no fetch.
    pub fn current_page_cached(&self) -> (r: bool)
        requires
            self.wf(),
        ensures
            r == spec_window_hit(
                self.spec_cache(),
                self.spec_current_sig(),
                self.spec_page() as int,
                self.spec_items_per_page() as int,
            ),
    {
        let search = self.inpt.as_ref();
        self.client.check_page_cached(
            search.unwrap().as_str(),
            self.page,
            self.items_per_page,
            &self.sort,
        )
    }

    /// The over-fetch request that covers the current page: the batch of
    /// ten UI pages around it, in remote-page terms.
    pub fn fetch_request(&self) -> (r: FetchRequest)
        requires
            self.wf(),
        ensures
            r.term@ == self.spec_term(),
            r.sort == self.spec_sort(),
            r.page == spec_ceil_div(self.spec_page() as int, 10),
            r.count == 10 * self.spec_items_per_page(),
            r.page >= 1,
            r.count >= 1,
    {
        let (remote_page, remote_count) = over_fetch_request(self.page, self.items_per_page);
        FetchRequest {
            term: self.inpt.as_ref().unwrap().clone(),
            page: remote_page,
            count: remote_count,
            sort: self.sort,
        }
    }

    /// Applies a completed fetch to the cache, under the signature of the
    /// request it answers — also when the user has long moved on to another
    /// query: a stale result lands in its own, still retained entry.
    pub fn ingest_results(&mut self, req: &FetchRequest, resp: CrateSearchResponse)
        requires
            old(self).wf(),
            req.page >= 1,
            req.count >= 1,
            spec_window_start(req.page as int, req.count as int) + resp.crates@.len()
                <= u32::MAX,
        ensures
            final(self).wf(),
            final(self).spec_cache() == spec_ingest(
                old(self).spec_cache(),
                req.term@,
                req.sort,
                req.page as int,
                req.count as int,
                resp.meta.total,
                resp.crates@,
            ),
            final(self).spec_term() == old(self).spec_term(),
            final(self).spec_page() == old(self).spec_page(),
            final(self).spec_items_per_page() == old(self).spec_items_per_page(),
            final(self).spec_sort() == old(self).spec_sort(),
            final(self).spec_mode() == old(self).spec_mode(),
            final(self).spec_selection() == old(self).spec_selection(),
            final(self).spec_quit() == old(self).spec_quit(),
    {
        self.client.search_and_add_to_cache(
            req.term.as_str(),
            req.page,
            req.count,
            &req.sort,
            resp,
        );
    }

    /// Whether paging forward advances: the current page has a cached
    /// answer and more records lie beyond it.
    pub open spec fn spec_can_advance(&self) -> bool {
        let k = self.spec_current_sig();
        let page = self.spec_page() as int;
        let ipp = self.spec_items_per_page() as int;
        spec_window_hit(self.spec_cache(), k, page, ipp) && page * ipp < self.spec_cache()[k].0
            as int
    }

    /// How many records the current page's clamped window holds, going by
    /// the total last reported for the current signature.
    pub open spec fn spec_current_window_len(&self) -> int {
        spec_window_len(
            self.spec_page() as int,
            self.spec_items_per_page() as int,
            self.spec_cache()[self.spec_current_sig()].0 as int,
        )
    }

    /// What paging forward does: advance by one page when the current page
    /// is cached and not the last, with the highlight on the first record.
    pub open spec fn spec_next_page_post(pre: App, post: App, search: bool) -> bool {
        &&& pre.spec_same_query(post)
        &&& search == pre.spec_can_advance()
        &&& search ==> post.spec_page() == pre.spec_page() + 1 && post.spec_selection() == Some(
            0usize,
        )
        &&& !search ==> post.spec_page() == pre.spec_page() && post.spec_selection()
            == pre.spec_selection()
    }

    /// What paging backward does: go back one page when not on the first,
    /// with the highlight on the first record.
    pub open spec fn spec_prev_page_post(pre: App, post: App, search: bool) -> bool {
        &&& pre.spec_same_query(post)
        &&& search == (pre.spec_page() > 1)
        &&& search ==> post.spec_page() == pre.spec_page() - 1 && post.spec_selection() == Some(
            0usize,
        )
        &&& !search ==> post.spec_page() == pre.spec_page() && post.spec_selection()
            == pre.spec_selection()
    }

    /// What jumping home does: land on page one, highlight on the first
    /// record, with a search only when the page actually changed.
    pub open spec fn spec_home_post(pre: App, post: App, search: bool) -> bool {
        &&& pre.spec_same_query(post)
        &&& search == (pre.spec_page() != 1)
        &&& post.spec_page() == 1
        &&& post.spec_selection() == Some(0usize)
    }

    /// Where [`App::select_last`] puts the highlight: on the last record of
    /// the current page when it has a cached answer, nowhere when that page
    /// is empty, and untouched when there is no answer.
    pub open spec fn spec_select_last_post(pre: App, post: App) -> bool {
        &&& pre.spec_same_query(post)
        &&& post.spec_page() == pre.spec_page()
        &&& post.spec_selection() == ({
            let k = pre.spec_current_sig();
            if spec_window_hit(
                pre.spec_cache(),
                k,
                pre.spec_page() as int,
                pre.spec_items_per_page() as int,
            ) {
                let len = pre.spec_current_window_len();
                if len > 0 {
                    Some((len - 1) as usize)
                } else {
                    None::<usize>
                }
            } else {
                pre.spec_selection()
            }
        })
    }

    /// Where [`App::select_last_saturating`] puts the highlight: on the
    /// last record of the current page, at the top when the page is empty,
    /// and nowhere when it has no cached answer.
    pub open spec fn spec_select_last_sat_post(pre: App, post: App) -> bool {
        &&& pre.spec_same_query(post)
        &&& post.spec_page() == pre.spec_page()
        &&& post.spec_selection() == ({
            let k = pre.spec_current_sig();
            if spec_window_hit(
                pre.spec_cache(),
                k,
                pre.spec_page() as int,
                pre.spec_items_per_page() as int,
            ) {
                let len = pre.spec_current_window_len();
                if len > 0 {
                    Some((len - 1) as usize)
                } else {
                    Some(0usize)
                }
            } else {
                None::<usize>
            }
        })
    }

    /// What jumping to the end does: move to the last page when the current
    /// one is cached and not the last (the highlight is then fixed after
    /// the fetch); otherwise move the highlight to the end of the current
    /// page at once.
    pub open spec fn spec_end_post(pre: App, post: App, search: bool) -> bool {
        &&& pre.spec_same_query(post)
        &&& search == pre.spec_can_advance()
        &&& search ==> post.spec_page() == spec_ceil_div(
            pre.spec_cache()[pre.spec_current_sig()].0 as int,
            pre.spec_items_per_page() as int,
        ) && post.spec_selection() == pre.spec_selection()
        &&& !search ==> post.spec_page() == pre.spec_page() && App::spec_select_last_post(
            pre,
            post,
        )
    }

    /// What moving the highlight forward does: one record further on the
    /// current page, or — past its end — what paging forward does.
    pub open spec fn spec_next_item_post(pre: App, post: App, search: bool) -> bool {
        let hit = spec_window_hit(
            pre.spec_cache(),
            pre.spec_current_sig(),
            pre.spec_page() as int,
            pre.spec_items_per_page() as int,
        );
        match pre.spec_selection() {
            None => !search && post == pre,
            Some(s) => {
                if !hit {
                    !search && post == pre
                } else if s + 1 < pre.spec_current_window_len() {
                    &&& !search
                    &&& pre.spec_same_query(post)
                    &&& post.spec_page() == pre.spec_page()
                    &&& post.spec_selection() == Some((s + 1) as usize)
                } else {
                    App::spec_next_page_post(pre, post, search)
                }
            },
        }
    }

    /// What moving the highlight backward does: one record back, or — at
    /// the top of a page past the first — what paging backward does, the
    /// caller then landing on the last record of the previous page.
    pub open spec fn spec_prev_item_post(pre: App, post: App, search: bool) -> bool {
        match pre.spec_selection() {
            None => !search && post == pre,
            Some(s) => {
                if s == 0 && pre.spec_page() != 1 {
                    &&& search
                    &&& pre.spec_same_query(post)
                    &&& post.spec_page() == pre.spec_page() - 1
                    &&& post.spec_selection() == Some(0usize)
                } else {
                    &&& !search
                    &&& pre.spec_same_query(post)
                    &&& post.spec_page() == pre.spec_page()
                    &&& post.spec_selection() == Some(
                        (if s >= 1 {
                            (s - 1) as usize
                        } else {
                            0usize
                        }),
                    )
                }
            },
        }
    }

    /// Pages forward, when the current page is cached and not the last:
    /// the caller then runs the search flow for the new page.
    pub fn next_page(&mut self) -> (search: bool)
        requires
            old(self).wf(),
        ensures
            final(self).wf(),
            App::spec_next_page_post(*old(self), *final(self), search),
    {
        proof {
            lemma_u32_mul_fits(self.page, self.items_per_page);
        }
        let proceed = match self.get_cached_crates() {
            Some((total, _)) => (self.page as u64) * (self.items_per_page as u64) < total as u64,
            None => false,
        };
        if proceed {
            proof {
                assert((self.page as int) < u32::MAX as int) by (nonlinear_arith)
                    requires
                        self.page >= 1,
                        self.items_per_page >= 1,
                        (self.page as int * self.items_per_page as int) < u32::MAX as int,
                ;
            }
            self.selection = Some(0);
            self.page = self.page + 1;
            true
        } else {
            false
        }
    }

    /// Pages backward, when not already on the first page: the caller then
    /// runs the search flow for the new page.
    pub fn prev_page(&mut self) -> (search: bool)
        requires
            old(self).wf(),
        ensures
            final(self).wf(),
            App::spec_prev_page_post(*old(self), *final(self), search),
    {
        if self.page > 1 {
            self.selection = Some(0);
            self.page = self.page - 1;
            true
        } else {
            false
        }
    }

    /// Jumps to the first page; the highlight lands on its first record.
    pub fn home(&mut self) -> (search: bool)
        requires
            old(self).wf(),
        ensures
            final(self).wf(),
            App::spec_home_post(*old(self), *final(self), search),
    {
        self.selection = Some(0);
        if self.page != 1 {
            self.page = 1;
            true
        } else {
            false
        }
    }

    /// Moves the highlight to the last record of the current page, when it
    /// has a cached answer; an empty page clears the highlight.
    pub fn select_last(&mut self)
        requires
            old(self).wf(),
        ensures
            final(self).wf(),
            App::spec_select_last_post(*old(self), *final(self)),
    {
        let len_opt = match self.get_cached_crates() {
            Some((_, crates)) => Some(crates.len()),
            None => None,
        };
        match len_opt {
            Some(len) => {
                self.selection = if len >= 1 {
                    Some(len - 1)
                } else {
                    None
                };
            },
            None => {},
        }
    }

    /// As [`App::select_last`], but a page that turns out empty keeps the
    /// highlight at its first position, and a page with no cached answer
    /// clears it: what paging backward onto a page does.
    pub fn select_last_saturating(&mut self)
        requires
            old(self).wf(),
        ensures
            final(self).wf(),
            App::spec_select_last_sat_post(*old(self), *final(self)),
    {
        let len_opt = match self.get_cached_crates() {
            Some((_, crates)) => Some(crates.len()),
            None => None,
        };
        self.selection = match len_opt {
            Some(len) => {
                if len >= 1 {
                    Some(len - 1)
                } else {
                    Some(0)
                }
            },
            None => None,
        };
    }

    /// Jumps to the last page, when the current page is cached and not
    /// already the last: the caller then runs the search flow and moves
    /// the highlight to the end.  Otherwise the highlight moves to the end
    /// of the current page at once.
    pub fn end(&mut self) -> (search: bool)
        requires
            old(self).wf(),
        ensures
            final(self).wf(),
            App::spec_end_post(*old(self), *final(self), search),
    {
        proof {
            lemma_u32_mul_fits(self.page, self.items_per_page);
        }
        let total_opt = match self.get_cached_crates() {
            Some((total, _)) => Some(total),
            None => None,
        };
        let proceed = match total_opt {
            Some(total) => (self.page as u64) * (self.items_per_page as u64) < total as u64,
            None => false,
        };
        if proceed {
            let total = match total_opt {
                Some(total) => total,
                None => 0,
            };
            proof {
                assert(spec_ceil_div(total as int, self.items_per_page as int) >= 1)
                    by (nonlinear_arith)
                    requires
                        total >= 1,
                        self.items_per_page >= 1,
                ;
                assert(total as int >= 1) by (nonlinear_arith)
                    requires
                        self.page >= 1,
                        self.items_per_page >= 1,
                        (self.page as int * self.items_per_page as int) < total as int,
                ;
            }
            self.page = self.num_pages(total);
            true
        } else {
            self.select_last();
            false
        }
    }

    /// Moves the highlight one record forward; past the end of the page it
    /// pages forward instead, as [`App::next_page`] does.
    pub fn next_item(&mut self) -> (search: bool)
        requires
            old(self).wf(),
        ensures
            final(self).wf(),
            App::spec_next_item_post(*old(self), *final(self), search),
    {
        let sel = match self.selection {
            Some(s) => s,
            None => {
                return false;
            },
        };
        let len_opt = match self.get_cached_crates() {
            Some((_, crates)) => Some(crates.len()),
            None => None,
        };
        match len_opt {
            Some(len) => {
                if len == 0 || sel >= len - 1 {
                    self.next_page()
                } else {
                    self.selection = Some(sel + 1);
                    false
                }
            },
            None => false,
        }
    }

    /// Moves the highlight one record back; at the top of a page past the
    /// first it pages backward, the caller then landing on the last record
    /// of the previous page.
    pub fn prev_item(&mut self) -> (search: bool)
        requires
            old(self).wf(),
        ensures
            final(self).wf(),
            App::spec_prev_item_post(*old(self), *final(self), search),
    {
        let sel = match self.selection {
            Some(s) => s,
            None => {
                return false;
            },
        };
        if sel == 0 && self.page != 1 {
            self.prev_page()
        } else {
            self.selection = Some(if sel >= 1 {
                sel - 1
            } else {
                0
            });
            false
        }
    }

    /// Everything an overlay interaction leaves alone: the cache, the
    /// query, the page, the page size and the highlight.
    pub open spec fn spec_same_core(pre: App, post: App) -> bool {
        &&& post.spec_cache() == pre.spec_cache()
        &&& post.spec_term() == pre.spec_term()
        &&& post.spec_sort() == pre.spec_sort()
        &&& post.spec_page() == pre.spec_page()
        &&& post.spec_items_per_page() == pre.spec_items_per_page()
        &&& post.spec_selection() == pre.spec_selection()
    }

    /// Handles one event of the unified stream, in whichever overlay the
    /// UI is in, and says what outside work must follow: the search flow
    /// after anything that moved to an uncached page or changed the query,
    /// or acting on the selection.
    pub fn handle_event(&mut self, ev: InputEvent) -> (a: AppAction)
        requires
            old(self).wf(),
        ensures
            final(self).wf(),
            ({
                let pre = *old(self);
                let post = *final(self);
                match pre.spec_mode() {
                    AppMode::Normal => match ev {
                        InputEvent::Char(c) => {
                            if c == 'f' || c == 'F' {
                                &&& a == AppAction::Nothing
                                &&& App::spec_same_core(pre, post)
                                &&& post.spec_quit() == pre.spec_quit()
                                &&& post.spec_mode() matches AppMode::Input(s) && s@
                                    == Seq::<char>::empty()
                            } else if c == 'q' || c == 'Q' {
                                &&& a == AppAction::Nothing
                                &&& App::spec_same_core(pre, post)
                                &&& post.spec_mode() == pre.spec_mode()
                                &&& post.spec_quit()
                            } else if c == 'n' || c == 'N' {
                                &&& (a == AppAction::Search || a == AppAction::Nothing)
                                &&& App::spec_next_page_post(pre, post, a == AppAction::Search)
                            } else if c == 'p' || c == 'P' {
                                &&& (a == AppAction::Search || a == AppAction::Nothing)
                                &&& App::spec_prev_page_post(pre, post, a == AppAction::Search)
                            } else if c == 'j' || c == 'J' {
                                &&& (a == AppAction::Search || a == AppAction::Nothing)
                                &&& App::spec_next_item_post(pre, post, a == AppAction::Search)
                            } else if c == 'k' || c == 'K' {
                                &&& (a == AppAction::SearchThenSelectLast || a
                                    == AppAction::Nothing)
                                &&& App::spec_prev_item_post(
                                    pre,
                                    post,
                                    a == AppAction::SearchThenSelectLast,
                                )
                            } else if c == 's' || c == 'S' {
                                &&& a == AppAction::Nothing
                                &&& App::spec_same_core(pre, post)
                                &&& post.spec_quit() == pre.spec_quit()
                                &&& post.spec_mode() matches AppMode::Sorting(f) && f.wf()
                                    && f.items@[f.selection as int] == pre.spec_sort()
                            } else if c == 'o' || c == 'O' {
                                a == AppAction::OpenSelection && post == pre
                            } else if c == 'c' || c == 'C' {
                                a == AppAction::CopySelection && post == pre
                            } else {
                                a == AppAction::Nothing && post == pre
                            }
                        },
                        InputEvent::Down => {
                            &&& (a == AppAction::Search || a == AppAction::Nothing)
                            &&& App::spec_next_item_post(pre, post, a == AppAction::Search)
                        },
                        InputEvent::Up => {
                            &&& (a == AppAction::SearchThenSelectLast || a == AppAction::Nothing)
                            &&& App::spec_prev_item_post(
                                pre,
                                post,
                                a == AppAction::SearchThenSelectLast,
                            )
                        },
                        InputEvent::Right | InputEvent::PageDown => {
                            &&& (a == AppAction::Search || a == AppAction::Nothing)
                            &&& App::spec_next_page_post(pre, post, a == AppAction::Search)
                        },
                        InputEvent::Left | InputEvent::PageUp => {
                            &&& (a == AppAction::Search || a == AppAction::Nothing)
                            &&& App::spec_prev_page_post(pre, post, a == AppAction::Search)
                        },
                        InputEvent::End => {
                            &&& (a == AppAction::SearchThenSelectEnd || a == AppAction::Nothing)
                            &&& App::spec_end_post(pre, post, a == AppAction::SearchThenSelectEnd)
                        },
                        InputEvent::Home => {
                            &&& (a == AppAction::Search || a == AppAction::Nothing)
                            &&& App::spec_home_post(pre, post, a == AppAction::Search)
                        },
                        _ => a == AppAction::Nothing && post == pre,
                    },
                    AppMode::Input(typed) => match ev {
                        InputEvent::Esc => {
                            &&& a == AppAction::Nothing
                            &&& App::spec_same_core(pre, post)
                            &&& post.spec_quit() == pre.spec_quit()
                            &&& post.spec_mode() is Normal
                        },
                        InputEvent::Enter => {
                            &&& a == AppAction::Search
                            &&& post.spec_cache() == pre.spec_cache()
                            &&& post.spec_term() == typed@
                            &&& post.spec_sort() == pre.spec_sort()
                            &&& post.spec_page() == 1
                            &&& post.spec_items_per_page() == pre.spec_items_per_page()
                            &&& post.spec_selection() == pre.spec_selection()
                            &&& post.spec_quit() == pre.spec_quit()
                            &&& post.spec_mode() is Normal
                        },
                        InputEvent::Backspace => {
                            &&& a == AppAction::Nothing
                            &&& App::spec_same_core(pre, post)
                            &&& post.spec_quit() == pre.spec_quit()
                            &&& post.spec_mode() matches AppMode::Input(s) && s@ == (
                            if typed@.len() > 0 {
                                typed@.drop_last()
                            } else {
                                typed@
                            })
                        },
                        InputEvent::Char(c) => {
                            &&& a == AppAction::Nothing
                            &&& App::spec_same_core(pre, post)
                            &&& post.spec_quit() == pre.spec_quit()
                            &&& post.spec_mode() matches AppMode::Input(s) && s@ == typed@.push(c)
                        },
                        _ => a == AppAction::Nothing && post == pre,
                    },
                    AppMode::Sorting(f) => match ev {
                        InputEvent::Esc => {
                            &&& a == AppAction::Nothing
                            &&& App::spec_same_core(pre, post)
                            &&& post.spec_quit() == pre.spec_quit()
                            &&& post.spec_mode() is Normal
                        },
                        InputEvent::Enter => {
                            &&& a == AppAction::Search
                            &&& post.spec_cache() == pre.spec_cache()
                            &&& post.spec_term() == pre.spec_term()
                            &&& post.spec_sort() == f.items@[f.selection as int]
                            &&& post.spec_page() == 1
                            &&& post.spec_items_per_page() == pre.spec_items_per_page()
                            &&& post.spec_selection() == pre.spec_selection()
                            &&& post.spec_quit() == pre.spec_quit()
                            &&& post.spec_mode() is Normal
                        },
                        InputEvent::Right | InputEvent::Down => {
                            &&& a == AppAction::Nothing
                            &&& App::spec_same_core(pre, post)
                            &&& post.spec_quit() == pre.spec_quit()
                            &&& post.spec_mode() matches AppMode::Sorting(f2) && f2.items
                                == f.items && f2.strs == f.strs && f2.selection as int == (
                            if f.selection < 4 {
                                f.selection as int + 1
                            } else {
                                4
                            })
                        },
                        InputEvent::Left | InputEvent::Up => {
                            &&& a == AppAction::Nothing
                            &&& App::spec_same_core(pre, post)
                            &&& post.spec_quit() == pre.spec_quit()
                            &&& post.spec_mode() matches AppMode::Sorting(f2) && f2.items
                                == f.items && f2.strs == f.strs && f2.selection as int == (
                            if f.selection >= 1 {
                                f.selection as int - 1
                            } else {
                                0
                            })
                        },
                        InputEvent::Char(c) => {
                            if c == 'j' || c == 'J' || c == 'n' || c == 'N' {
                                &&& a == AppAction::Nothing
                                &&& App::spec_same_core(pre, post)
                                &&& post.spec_quit() == pre.spec_quit()
                                &&& post.spec_mode() matches AppMode::Sorting(f2) && f2.items
                                    == f.items && f2.strs == f.strs && f2.selection as int == (
                                if f.selection < 4 {
                                    f.selection as int + 1
                                } else {
                                    4
                                })
                            } else if c == 'k' || c == 'K' || c == 'p' || c == 'P' {
                                &&& a == AppAction::Nothing
                                &&& App::spec_same_core(pre, post)
                                &&& post.spec_quit() == pre.spec_quit()
                                &&& post.spec_mode() matches AppMode::Sorting(f2) && f2.items
                                    == f.items && f2.strs == f.strs && f2.selection as int == (
                                if f.selection >= 1 {
                                    f.selection as int - 1
                                } else {
                                    0
                                })
                            } else {
                                a == AppAction::Nothing && post == pre
                            }
                        },
                        _ => a == AppAction::Nothing && post == pre,
                    },
                }
            }),
    {
        let mut taken = AppMode::Normal;
        std::mem::swap(&mut taken, &mut self.mode);
        match taken {
            AppMode::Normal => match ev {
                InputEvent::Char(c) => {
                    if c == 'f' || c == 'F' {
                        self.mode = AppMode::Input(String::new());
                        AppAction::Nothing
                    } else if c == 'q' || c == 'Q' {
                        self.quit = true;
                        AppAction::Nothing
                    } else if c == 'n' || c == 'N' {
                        if self.next_page() {
                            AppAction::Search
                        } else {
                            AppAction::Nothing
                        }
                    } else if c == 'p' || c == 'P' {
                        if self.prev_page() {
                            AppAction::Search
                        } else {
                            AppAction::Nothing
                        }
                    } else if c == 'j' || c == 'J' {
                        if self.next_item() {
                            AppAction::Search
                        } else {
                            AppAction::Nothing
                        }
                    } else if c == 'k' || c == 'K' {
                        if self.prev_item() {
                            AppAction::SearchThenSelectLast
                        } else {
                            AppAction::Nothing
                        }
                    } else if c == 's' || c == 'S' {
                        self.mode = AppMode::Sorting(SortingField::from_sort(&self.sort));
                        AppAction::Nothing
                    } else if c == 'o' || c == 'O' {
                        AppAction::OpenSelection
                    } else if c == 'c' || c == 'C' {
                        AppAction::CopySelection
                    } else {
                        AppAction::Nothing
                    }
                },
                InputEvent::Down => {
                    if self.next_item() {
                        AppAction::Search
                    } else {
                        AppAction::Nothing
                    }
                },
                InputEvent::Up => {
                    if self.prev_item() {
                        AppAction::SearchThenSelectLast
                    } else {
                        AppAction::Nothing
                    }
                },
                InputEvent::Right | InputEvent::PageDown => {
                    if self.next_page() {
                        AppAction::Search
                    } else {
                        AppAction::Nothing
                    }
                },
                InputEvent::Left | InputEvent::PageUp => {
                    if self.prev_page() {
                        AppAction::Search
                    } else {
                        AppAction::Nothing
                    }
                },
                InputEvent::End => {
                    if self.end() {
                        AppAction::SearchThenSelectEnd
                    } else {
                        AppAction::Nothing
                    }
                },
                InputEvent::Home => {
                    if self.home() {
                        AppAction::Search
                    } else {
                        AppAction::Nothing
                    }
                },
                _ => AppAction::Nothing,
            },
            AppMode::Input(mut msg) => match ev {
                InputEvent::Esc => AppAction::Nothing,
                InputEvent::Enter => {
                    self.page = 1;
                    self.inpt = Some(msg);
                    AppAction::Search
                },
                InputEvent::Backspace => {
                    pop_char(&mut msg);
                    self.mode = AppMode::Input(msg);
                    AppAction::Nothing
                },
                InputEvent::Char(c) => {
                    push_char(&mut msg, c);
                    self.mode = AppMode::Input(msg);
                    AppAction::Nothing
                },
                _ => {
                    self.mode = AppMode::Input(msg);
                    AppAction::Nothing
                },
            },
            AppMode::Sorting(mut field) => match ev {
                InputEvent::Esc => AppAction::Nothing,
                InputEvent::Enter => {
                    self.sort = field.items[field.selection];
                    self.page = 1;
                    AppAction::Search
                },
                InputEvent::Right | InputEvent::Down => {
                    field.selection = if field.selection < 4 {
                        field.selection + 1
                    } else {
                        4
                    };
                    self.mode = AppMode::Sorting(field);
                    AppAction::Nothing
                },
                InputEvent::Left | InputEvent::Up => {
                    field.selection = if field.selection >= 1 {
                        field.selection - 1
                    } else {
                        0
                    };
                    self.mode = AppMode::Sorting(field);
                    AppAction::Nothing
                },
                InputEvent::Char(c) => {
                    if c == 'j' || c == 'J' || c == 'n' || c == 'N' {
                        field.selection = if field.selection < 4 {
                            field.selection + 1
                        } else {
                            4
                        };
                        self.mode = AppMode::Sorting(field);
                        AppAction::Nothing
                    } else if c == 'k' || c == 'K' || c == 'p' || c == 'P' {
                        field.selection = if field.selection >= 1 {
                            field.selection - 1
                        } else {
                            0
                        };
                        self.mode = AppMode::Sorting(field);
                        AppAction::Nothing
                    } else {
                        self.mode = AppMode::Sorting(field);
                        AppAction::Nothing
                    }
                },
                _ => {
                    self.mode = AppMode::Sorting(field);
                    AppAction::Nothing
                },
            },
        }
    }

    /// Ends the search flow: the highlight moves to the first record of
    /// the current page, or nowhere when the page is empty or — after a
    /// failed fetch — still not resident.
    pub fn finish_search(&mut self)
        requires
            old(self).wf(),
        ensures
            final(self).wf(),
            old(self).spec_same_query(*final(self)),
            final(self).spec_page() == old(self).spec_page(),
            final(self).spec_selection() == ({
                let k = old(self).spec_current_sig();
                let page = old(self).spec_page() as int;
                let ipp = old(self).spec_items_per_page() as int;
                if spec_window_hit(old(self).spec_cache(), k, page, ipp) && spec_window_len(
                    page,
                    ipp,
                    old(self).spec_cache()[k].0 as int,
                ) > 0 {
                    Some(0usize)
                } else {
                    None::<usize>
                }
            }),
    {
        let filled = match self.get_cached_crates() {
            Some((_, crates)) => crates.len() > 0,
            None => false,
        };
        self.selection = if filled {
            Some(0)
        } else {
            None
        };
    }

    /// The documentation link to open for the highlighted record:
    /// `Ok(None)` when nothing is highlighted or cached, the link when the
    /// record has one, and an error to show when it has none.
    pub fn selection_documentation(&self) -> (r: Result<Option<String>, String>)
        requires
            self.wf(),
        ensures
            ({
                let k = self.spec_current_sig();
                let page = self.spec_page() as int;
                let ipp = self.spec_items_per_page() as int;
                let hit = spec_window_hit(self.spec_cache(), k, page, ipp);
                match self.spec_selection() {
                    None => r == Ok::<Option<String>, String>(None::<String>),
                    Some(s) => {
                        if !hit || s >= self.spec_current_window_len() {
                            r == Ok::<Option<String>, String>(None::<String>)
                        } else {
                            let rec = self.spec_cache()[k].1[(spec_window_start(page, ipp) + s)
                                as u32];
                            match rec.documentation {
                                Some(d) => r matches Ok(Some(u)) && u@ == d@,
                                None => r matches Err(m) && m@
                                    == "No documentation link for is given for this crate!"@,
                            }
                        }
                    },
                }
            }),
    {
        let sel = match self.selection {
            Some(s) => s,
            None => {
                return Ok(None);
            },
        };
        let window = match self.get_cached_crates() {
            Some((_, w)) => w,
            None => {
                return Ok(None);
            },
        };
        if sel >= window.len() {
            return Ok(None);
        }
        let rec = window[sel];
        match &rec.documentation {
            Some(d) => Ok(Some(d.clone())),
            None => Err("No documentation link for is given for this crate!".to_owned()),
        }
    }

    /// The manifest line to copy for the highlighted record, if one is
    /// highlighted and its page is cached.
    pub fn selection_toml(&self) -> (r: Option<String>)
        requires
            self.wf(),
        ensures
            ({
                let k = self.spec_current_sig();
                let page = self.spec_page() as int;
                let ipp = self.spec_items_per_page() as int;
                let hit = spec_window_hit(self.spec_cache(), k, page, ipp);
                match self.spec_selection() {
                    None => r is None,
                    Some(s) => {
                        if !hit || s >= self.spec_current_window_len() {
                            r is None
                        } else {
                            let rec = self.spec_cache()[k].1[(spec_window_start(page, ipp) + s)
                                as u32];
                            r matches Some(t) && t@ == rec.id@ + " = \""@ + rec.newest_version@
                                + "\""@
                        }
                    },
                }
            }),
    {
        let sel = match self.selection {
            Some(s) => s,
            None => {
                return None;
            },
        };
        let window = match self.get_cached_crates() {
            Some((_, w)) => w,
            None => {
                return None;
            },
        };
        if sel >= window.len() {
            return None;
        }
        Some(window[sel].get_toml_str())
    }

    /// The current 1-based page, for whoever draws the footer.
    pub fn page(&self) -> (r: u32)
        ensures
            r == self.spec_page(),
    {
        self.page
    }

    /// The page size, for whoever lays the records out.
    pub fn items_per_page(&self) -> (r: u32)
        ensures
            r == self.spec_items_per_page(),
    {
        self.items_per_page
    }

    /// The highlighted position, for whoever draws the records.
    pub fn selection(&self) -> (r: Option<usize>)
        ensures
            r == self.spec_selection(),
    {
        self.selection
    }

    /// The current sort order.
    pub fn sort(&self) -> (r: CratesSort)
        ensures
            r == self.spec_sort(),
    {
        self.sort
    }

    /// The overlay the UI is in, for whoever draws it.
    pub fn mode(&self) -> (r: &AppMode)
        ensures
            *r == self.spec_mode(),
    {
        &self.mode
    }
}

} // verus!
