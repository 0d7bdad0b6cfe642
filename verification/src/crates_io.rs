//! The search-result data model and the paginated result cache.
//!
//! The cache owns, per `(search term, sort key)` signature, the total result
//! count last reported by the remote service and a sparse map from absolute
//! result index to record.  A page window is served from the cache alone when
//! every index of its clamped range is resident; otherwise a whole batch of
//! ten UI pages is fetched at once so that paging around stays cheap.

use vstd::prelude::*;

use std::collections::HashMap;

verus! {

use crate::spec_ceil_div;
use vstd::map::*;

broadcast use vstd::std_specs::hash::group_hash_axioms;

/// The sort orders the remote search service accepts.
#[derive(Clone, Copy, Debug, PartialEq, Eq, Structural)]
pub enum CratesSort {
    Relevance,
    AllTimeDownload,
    RecentDownload,
    RecentUpdate,
    NewlyAdded,
}

/// The wire token the remote service uses for a sort order.
pub open spec fn spec_sort_token(sort: CratesSort) -> Seq<char> {
    match sort {
        CratesSort::Relevance => "relevance"@,
        CratesSort::AllTimeDownload => "downloads"@,
        CratesSort::RecentDownload => "recent-downloads"@,
        CratesSort::RecentUpdate => "recent-updates"@,
        CratesSort::NewlyAdded => "new"@,
    }
}

impl CratesSort {
    /// The token to put in the `sort` query parameter of a search request.
    /// Also the second half of a cache signature.
    pub fn to_sort_string(&self) -> (r: String)
        ensures
            r@ == spec_sort_token(*self),
    {
        match self {
            CratesSort::Relevance => "relevance".to_owned(),
            CratesSort::AllTimeDownload => "downloads".to_owned(),
            CratesSort::RecentDownload => "recent-downloads".to_owned(),
            CratesSort::RecentUpdate => "recent-updates".to_owned(),
            CratesSort::NewlyAdded => "new".to_owned(),
        }
    }
}

impl Default for CratesSort {
    fn default() -> (r: Self)
        ensures
            r == CratesSort::Relevance,
    {
        Self::Relevance
    }
}

/// The case-folded form of a string, as `str::to_lowercase` computes it.
pub uninterp spec fn lower_of(s: Seq<char>) -> Seq<char>;

/// Relies on str::to_lowercase: the result depends on the characters alone.
#[verifier::external_body]
fn lowercase(s: &str) -> (r: String)
    ensures
        r@ == lower_of(s@),
{
    s.to_lowercase()
}

/// Which sort order a case-folded name denotes, if any.
pub open spec fn spec_sort_from_folded(l: Seq<char>) -> Option<CratesSort> {
    if l == "relevance"@ {
        Some(CratesSort::Relevance)
    } else if l == "all time downloaded"@ || l == "all-time-downloaded"@ || l
        == "all_time_downloaded"@ {
        Some(CratesSort::Relevance)
    } else if l == "recent downloaded"@ || l == "recent-downloaded"@ || l
        == "recent_downloaded"@ {
        Some(CratesSort::RecentDownload)
    } else if l == "recent update"@ || l == "recent-update"@ || l == "recent_update"@ {
        Some(CratesSort::RecentUpdate)
    } else if l == "newly added"@ || l == "newly-added"@ || l == "newly_added"@ {
        Some(CratesSort::NewlyAdded)
    } else {
        None
    }
}

/// The name each sort order shows to the user.
pub open spec fn spec_display_string(sort: CratesSort) -> Seq<char> {
    match sort {
        CratesSort::Relevance => "Relevance"@,
        CratesSort::AllTimeDownload => "All Time Downloads"@,
        CratesSort::RecentDownload => "Recent Downloads"@,
        CratesSort::RecentUpdate => "Recently Updated"@,
        CratesSort::NewlyAdded => "Newly Added"@,
    }
}

impl CratesSort {
    /// Parses a sort order from its case-insensitive name, with spaces,
    /// hyphens or underscores between the words.
    pub fn from_str(s: &str) -> (r: Result<CratesSort, String>)
        ensures
            match spec_sort_from_folded(lower_of(s@)) {
                Some(sort) => r == Ok::<CratesSort, String>(sort),
                None => r is Err && r->Err_0@ == "Unknown sort method "@ + s@,
            },
    {
        let folded = lowercase(s);
        if folded == "relevance".to_owned() {
            Ok(Self::Relevance)
        } else if folded == "all time downloaded".to_owned() || folded
            == "all-time-downloaded".to_owned() || folded == "all_time_downloaded".to_owned() {
            Ok(Self::Relevance)
        } else if folded == "recent downloaded".to_owned() || folded
            == "recent-downloaded".to_owned() || folded == "recent_downloaded".to_owned() {
            Ok(Self::RecentDownload)
        } else if folded == "recent update".to_owned() || folded == "recent-update".to_owned()
            || folded == "recent_update".to_owned() {
            Ok(Self::RecentUpdate)
        } else if folded == "newly added".to_owned() || folded == "newly-added".to_owned()
            || folded == "newly_added".to_owned() {
            Ok(Self::NewlyAdded)
        } else {
            let mut e = "Unknown sort method ".to_owned();
            e.append(s);
            Err(e)
        }
    }

    /// The name to show for this sort order.
    pub fn display_string(&self) -> (r: String)
        ensures
            r@ == spec_display_string(*self),
    {
        match self {
            CratesSort::Relevance => "Relevance".to_owned(),
            CratesSort::AllTimeDownload => "All Time Downloads".to_owned(),
            CratesSort::RecentDownload => "Recent Downloads".to_owned(),
            CratesSort::RecentUpdate => "Recently Updated".to_owned(),
            CratesSort::NewlyAdded => "Newly Added".to_owned(),
        }
    }
}

/// One record of a search response: an immutable value, replaced wholesale
/// when its index is fetched again.  Timestamps are Unix seconds.
#[derive(Debug)]
pub struct CrateSearch {
    pub id: String,
    pub name: String,
    pub updated_at: i64,
    pub created_at: i64,
    pub downloads: u64,
    pub recent_downloads: u64,
    pub max_version: String,
    pub newest_version: String,
    pub description: Option<String>,
    pub documentation: Option<String>,
    pub repository: Option<String>,
    pub links: CrateSearchLinks,
    pub exact_match: bool,
}

/// The link collection attached to every record.
#[derive(Debug)]
pub struct CrateSearchLinks {
    pub version_downloads: String,
    pub versions: String,
    pub owners: String,
    pub owner_team: String,
    pub owner_user: String,
    pub reverse_dependencies: String,
}

/// The metadata of a search response.
#[derive(Debug)]
pub struct CrateSearchResponseMeta {
    pub total: u32,
    pub next_page: Option<String>,
    pub prev_page: Option<String>,
}

/// One whole response of the remote search service: the authoritative total
/// and an ordered batch of records.
#[derive(Debug)]
pub struct CrateSearchResponse {
    pub meta: CrateSearchResponseMeta,
    pub crates: Vec<CrateSearch>,
}

/// The mathematical model of the cache: per signature `(term, sort token)`,
/// the last reported total and the sparse map from absolute index to record.
pub type CacheModel = Map<(Seq<char>, Seq<char>), (u32, Map<u32, CrateSearch>)>;

/// The signature under which one logical result set is cached.
pub open spec fn spec_sig(term: Seq<char>, sort: CratesSort) -> (Seq<char>, Seq<char>) {
    (term, spec_sort_token(sort))
}

/// First absolute index of a page window (`page` is 1-based).
pub open spec fn spec_window_start(page: int, items_per_page: int) -> int {
    (page - 1) * items_per_page
}

/// One past the last absolute index of a page window, clamped to `total`.
pub open spec fn spec_window_end(page: int, items_per_page: int, total: int) -> int {
    if page * items_per_page < total {
        page * items_per_page
    } else {
        total
    }
}

/// How many records the clamped window of a page holds.
pub open spec fn spec_window_len(page: int, items_per_page: int, total: int) -> int {
    if spec_window_start(page, items_per_page) < spec_window_end(page, items_per_page, total) {
        spec_window_end(page, items_per_page, total) - spec_window_start(page, items_per_page)
    } else {
        0
    }
}

/// A page window is resident when every absolute index of its clamped range
/// has a record.  An empty clamped range is vacuously resident.
pub open spec fn spec_window_resident(
    recs: Map<u32, CrateSearch>,
    page: int,
    items_per_page: int,
    total: int,
) -> bool {
    forall|i: int|
        spec_window_start(page, items_per_page) <= i < spec_window_end(
            page,
            items_per_page,
            total,
        ) ==> recs.contains_key(#[trigger] (i as u32))
}

/// Whether the cache answers `(page, items_per_page)` for signature `k`
/// without a fetch: the signature is known and its whole clamped window is
/// resident.
pub open spec fn spec_window_hit(
    m: CacheModel,
    k: (Seq<char>, Seq<char>),
    page: int,
    items_per_page: int,
) -> bool {
    m.contains_key(k) && spec_window_resident(m[k].1, page, items_per_page, m[k].0 as int)
}

/// The record map after one batch is written at absolute index `start`:
/// each returned record lands at `start + offset`, overwriting what was
/// there; records outside the batch stay.
pub open spec fn spec_ingest_records(
    recs: Map<u32, CrateSearch>,
    start: int,
    items: Seq<CrateSearch>,
) -> Map<u32, CrateSearch> {
    Map::new(
        |k: u32| recs.contains_key(k) || (start <= k < start + items.len()),
        |k: u32|
            if start <= k < start + items.len() {
                items[k - start]
            } else {
                recs[k]
            },
    )
}

/// The whole cache after one completed fetch is ingested for a signature:
/// the total is overwritten unconditionally and the batch is written at
/// `(page - 1) * items_per_page`.
pub open spec fn spec_ingest(
    m: CacheModel,
    term: Seq<char>,
    sort: CratesSort,
    page: int,
    items_per_page: int,
    total: u32,
    items: Seq<CrateSearch>,
) -> CacheModel {
    let k = spec_sig(term, sort);
    let old_recs = if m.contains_key(k) {
        m[k].1
    } else {
        Map::empty()
    };
    m.insert(
        k,
        (total, spec_ingest_records(old_recs, spec_window_start(page, items_per_page), items)),
    )
}

/// The over-fetch policy: rather than fetching one UI page per round trip,
/// a whole batch of ten UI pages is requested at once.  For a UI request
/// `(page, items_per_page)` the remote call asks for page
/// `ceil(page / 10)` of `10 * items_per_page` records.
pub fn over_fetch_request(page: u32, items_per_page: u32) -> (r: (u32, u32))
    requires
        page >= 1,
        items_per_page >= 1,
        items_per_page <= u32::MAX / 10,
    ensures
        r.0 == spec_ceil_div(page as int, 10),
        r.1 == 10 * items_per_page,
        r.0 >= 1,
{
    let remote_page = (page - 1) / 10 + 1;
    proof {
        assert((page as int - 1) / 10 + 1 == (page as int + 9) / 10) by (nonlinear_arith)
            requires
                page >= 1,
        ;
    }
    (remote_page, 10 * items_per_page)
}

/// Ingesting one batch twice for a signature leaves the cache exactly as
/// ingesting it once did: `ingest` is idempotent.
pub proof fn lemma_ingest_idempotent(
    m: CacheModel,
    term: Seq<char>,
    sort: CratesSort,
    page: int,
    items_per_page: int,
    total: u32,
    items: Seq<CrateSearch>,
)
    ensures
        spec_ingest(
            spec_ingest(m, term, sort, page, items_per_page, total, items),
            term,
            sort,
            page,
            items_per_page,
            total,
            items,
        ) == spec_ingest(m, term, sort, page, items_per_page, total, items),
{
    let k = spec_sig(term, sort);
    let start = spec_window_start(page, items_per_page);
    let base = if m.contains_key(k) {
        m[k].1
    } else {
        Map::empty()
    };
    let r1 = spec_ingest_records(base, start, items);
    let m1 = spec_ingest(m, term, sort, page, items_per_page, total, items);
    let m2 = spec_ingest(m1, term, sort, page, items_per_page, total, items);
    assert_maps_equal!(spec_ingest_records(r1, start, items), r1, kk => {});
    assert_maps_equal!(m2, m1, key => {});
}

/// Results may be applied to the cache in either order: two ingests for one
/// signature that carry the same total and write non-overlapping index
/// ranges produce the same final cache whichever completes first.
pub proof fn lemma_ingest_commutes(
    m: CacheModel,
    term: Seq<char>,
    sort: CratesSort,
    page_a: int,
    items_per_page_a: int,
    items_a: Seq<CrateSearch>,
    page_b: int,
    items_per_page_b: int,
    items_b: Seq<CrateSearch>,
    total: u32,
)
    requires
        spec_window_start(page_a, items_per_page_a) + items_a.len() <= spec_window_start(
            page_b,
            items_per_page_b,
        ) || spec_window_start(page_b, items_per_page_b) + items_b.len() <= spec_window_start(
            page_a,
            items_per_page_a,
        ),
    ensures
        spec_ingest(
            spec_ingest(m, term, sort, page_a, items_per_page_a, total, items_a),
            term,
            sort,
            page_b,
            items_per_page_b,
            total,
            items_b,
        ) == spec_ingest(
            spec_ingest(m, term, sort, page_b, items_per_page_b, total, items_b),
            term,
            sort,
            page_a,
            items_per_page_a,
            total,
            items_a,
        ),
{
    let k = spec_sig(term, sort);
    let sa = spec_window_start(page_a, items_per_page_a);
    let sb = spec_window_start(page_b, items_per_page_b);
    let base = if m.contains_key(k) {
        m[k].1
    } else {
        Map::empty()
    };
    let ab = spec_ingest_records(spec_ingest_records(base, sa, items_a), sb, items_b);
    let ba = spec_ingest_records(spec_ingest_records(base, sb, items_b), sa, items_a);
    assert_maps_equal!(ab, ba, kk => {});
    let mab = spec_ingest(
        spec_ingest(m, term, sort, page_a, items_per_page_a, total, items_a),
        term,
        sort,
        page_b,
        items_per_page_b,
        total,
        items_b,
    );
    let mba = spec_ingest(
        spec_ingest(m, term, sort, page_b, items_per_page_b, total, items_b),
        term,
        sort,
        page_a,
        items_per_page_a,
        total,
        items_a,
    );
    assert_maps_equal!(mab, mba, key => {});
}

/// One over-fetch round trip serves ten page flips: once the batch that the
/// over-fetch policy requests for `page` is ingested — the service returning
/// the whole clamped batch — every UI page of that batch is resident, so
/// paging within it needs no further fetch.
pub proof fn lemma_over_fetch_covers(
    m: CacheModel,
    term: Seq<char>,
    sort: CratesSort,
    page: int,
    items_per_page: int,
    total: u32,
    items: Seq<CrateSearch>,
)
    requires
        page >= 1,
        items_per_page >= 1,
        items.len() == spec_window_len(
            spec_ceil_div(page, 10),
            10 * items_per_page,
            total as int,
        ),
    ensures
        ({
            let rp = spec_ceil_div(page, 10);
            let m2 = spec_ingest(m, term, sort, rp, 10 * items_per_page, total, items);
            let k = spec_sig(term, sort);
            &&& (rp - 1) * 10 < page <= rp * 10
            &&& forall|p: int|
                (rp - 1) * 10 < p <= rp * 10 ==> spec_window_resident(
                    m2[k].1,
                    p,
                    items_per_page,
                    total as int,
                )
        }),
{
    assert((spec_ceil_div(page, 10) - 1) * 10 < page <= spec_ceil_div(page, 10) * 10)
        by (nonlinear_arith)
        requires
            page >= 1,
            spec_ceil_div(page, 10) == (page + 9) / 10,
    ;
    let rp = spec_ceil_div(page, 10);
    let rc = 10 * items_per_page;
    let start = spec_window_start(rp, rc);
    let e = spec_window_end(rp, rc, total as int);
    let k = spec_sig(term, sort);
    let m2 = spec_ingest(m, term, sort, rp, rc, total, items);
    let recs = m2[k].1;
    assert forall|p: int| (rp - 1) * 10 < p <= rp * 10 implies spec_window_resident(
        recs,
        p,
        items_per_page,
        total as int,
    ) by {
        assert forall|i: int|
            spec_window_start(p, items_per_page) <= i < spec_window_end(
                p,
                items_per_page,
                total as int,
            ) implies recs.contains_key(#[trigger] (i as u32)) by {
            assert(start <= i && i < start + items.len()) by (nonlinear_arith)
                requires
                    items_per_page >= 1,
                    (rp - 1) * 10 < p <= rp * 10,
                    rc == 10 * items_per_page,
                    start == (rp - 1) * rc,
                    e == if rp * rc < total as int { rp * rc } else { total as int },
                    items.len() == if start < e { e - start } else { 0 },
                    (p - 1) * items_per_page <= i,
                    i < p * items_per_page || i < total as int,
                    i < if p * items_per_page < total as int { p * items_per_page } else { total as int },
            ;
        }
    }
}

/// A total of zero makes every page window resident and empty: a query
/// with no results is answered from the cache on every page, never
/// reported as a miss.
pub proof fn lemma_zero_total_resident(
    recs: Map<u32, CrateSearch>,
    page: int,
    items_per_page: int,
)
    requires
        page >= 1,
        items_per_page >= 1,
    ensures
        spec_window_resident(recs, page, items_per_page, 0),
        spec_window_len(page, items_per_page, 0) == 0,
{
    assert(spec_window_start(page, items_per_page) >= 0) by (nonlinear_arith)
        requires
            page >= 1,
            items_per_page >= 1,
    ;
}

/// One cached result set: the signature it is keyed by, the total last
/// reported for it, and the records fetched so far, by absolute index.
struct CacheSlot {
    term: String,
    sort_key: String,
    total: u32,
    records: HashMap<u32, CrateSearch>,
}

spec fn slot_key(c: CacheSlot) -> (Seq<char>, Seq<char>) {
    (c.term@, c.sort_key@)
}

spec fn slot_entry(c: CacheSlot) -> (u32, Map<u32, CrateSearch>) {
    (c.total, c.records@)
}

spec fn slots_to_model(s: Seq<CacheSlot>) -> CacheModel
    decreases s.len(),
{
    if s.len() == 0 {
        Map::empty()
    } else {
        slots_to_model(s.drop_last()).insert(slot_key(s.last()), slot_entry(s.last()))
    }
}

spec fn unique_keys(s: Seq<CacheSlot>) -> bool {
    forall|i: int, j: int|
        0 <= i < j < s.len() ==> slot_key(#[trigger] s[i]) != slot_key(#[trigger] s[j])
}

proof fn lemma_model_contains(s: Seq<CacheSlot>, k: (Seq<char>, Seq<char>))
    ensures
        slots_to_model(s).contains_key(k) <==> exists|i: int|
            0 <= i < s.len() && slot_key(#[trigger] s[i]) == k,
    decreases s.len(),
{
    if s.len() > 0 {
        lemma_model_contains(s.drop_last(), k);
        if slot_key(s.last()) == k {
            assert(slot_key(s[s.len() - 1]) == k);
        } else if slots_to_model(s).contains_key(k) {
            let i = choose|i: int| 0 <= i < s.drop_last().len() && slot_key(
                #[trigger] s.drop_last()[i],
            ) == k;
            assert(slot_key(s[i]) == k);
        } else {
            if exists|i: int| 0 <= i < s.len() && slot_key(#[trigger] s[i]) == k {
                let i = choose|i: int| 0 <= i < s.len() && slot_key(#[trigger] s[i]) == k;
                assert(i < s.len() - 1);
                assert(slot_key(s.drop_last()[i]) == k);
            }
        }
    }
}

proof fn lemma_model_index(s: Seq<CacheSlot>, i: int)
    requires
        unique_keys(s),
        0 <= i < s.len(),
    ensures
        slots_to_model(s).contains_key(slot_key(s[i])),
        slots_to_model(s)[slot_key(s[i])] == slot_entry(s[i]),
    decreases s.len(),
{
    if i == s.len() - 1 {
        assert(s.last() == s[i]);
    } else {
        assert(unique_keys(s.drop_last()));
        assert(s.drop_last()[i] == s[i]);
        lemma_model_index(s.drop_last(), i);
        assert(slot_key(s[i]) != slot_key(s[s.len() - 1]));
    }
}

proof fn lemma_model_push(s: Seq<CacheSlot>, c: CacheSlot)
    ensures
        slots_to_model(s.push(c)) == slots_to_model(s).insert(slot_key(c), slot_entry(c)),
{
    assert(s.push(c).drop_last() =~= s);
    assert(s.push(c).last() == c);
}

proof fn lemma_model_update(s: Seq<CacheSlot>, i: int, c: CacheSlot)
    requires
        unique_keys(s),
        0 <= i < s.len(),
        slot_key(c) == slot_key(s[i]),
    ensures
        slots_to_model(s.update(i, c)) == slots_to_model(s).insert(slot_key(c), slot_entry(c)),
        unique_keys(s.update(i, c)),
    decreases s.len(),
{
    let s2 = s.update(i, c);
    assert forall|p: int, q: int| 0 <= p < q < s2.len() implies slot_key(#[trigger] s2[p])
        != slot_key(#[trigger] s2[q]) by {
        assert(slot_key(s2[p]) == slot_key(s[p]));
        assert(slot_key(s2[q]) == slot_key(s[q]));
    }
    if i == s.len() - 1 {
        assert(s2.drop_last() =~= s.drop_last());
        assert(s2.last() == c);
        assert(slots_to_model(s).insert(slot_key(c), slot_entry(c)) =~= slots_to_model(
            s.drop_last(),
        ).insert(slot_key(c), slot_entry(c)));
    } else {
        assert(unique_keys(s.drop_last()));
        assert(s.drop_last()[i] == s[i]);
        lemma_model_update(s.drop_last(), i, c);
        assert(s2.drop_last() =~= s.drop_last().update(i, c));
        assert(s2.last() == s.last());
        // the two inserts commute because the keys differ
        assert(slot_key(s[i]) != slot_key(s[s.len() - 1]));
        assert(slots_to_model(s.drop_last()).insert(slot_key(c), slot_entry(c)).insert(
            slot_key(s.last()),
            slot_entry(s.last()),
        ) =~= slots_to_model(s.drop_last()).insert(slot_key(s.last()), slot_entry(s.last())).insert(
            slot_key(c),
            slot_entry(c),
        ));
    }
}

/// The records of one page window, read from the sparse record map in
/// ascending absolute order; `None` as soon as one index of the clamped
/// range `[(page - 1) * items_per_page, min(page * items_per_page, total))`
/// is missing.
fn get_all_items<'a>(
    page_cache: &'a HashMap<u32, CrateSearch>,
    page: u32,
    items_per_page: u32,
    total_num: u32,
) -> (r: Option<Vec<&'a CrateSearch>>)
    requires
        page >= 1,
        items_per_page >= 1,
    ensures
        ({
            let start = spec_window_start(page as int, items_per_page as int);
            let total = total_num as int;
            match r {
                Some(items) => {
                    &&& spec_window_resident(
                        page_cache@,
                        page as int,
                        items_per_page as int,
                        total,
                    )
                    &&& items@.len() == spec_window_len(page as int, items_per_page as int, total)
                    &&& forall|i: int|
                        0 <= i < items@.len() ==> page_cache@.contains_key(
                            #[trigger] ((start + i) as u32),
                        ) && items@[i] == page_cache@[(start + i) as u32]
                },
                None => !spec_window_resident(page_cache@, page as int, items_per_page as int, total),
            }
        }),
{
    proof {
        assert((page - 1) as int * items_per_page as int <= u32::MAX as int * u32::MAX as int
            && page as int * items_per_page as int <= u32::MAX as int * u32::MAX as int)
            by (nonlinear_arith)
            requires
                1 <= page <= u32::MAX,
                1 <= items_per_page <= u32::MAX,
        ;
    }
    let start: u64 = (page as u64 - 1) * (items_per_page as u64);
    let end: u64 = (page as u64) * (items_per_page as u64);
    let lim: u64 = if end < total_num as u64 {
        end
    } else {
        total_num as u64
    };
    let mut res: Vec<&CrateSearch> = Vec::new();
    let mut index: u64 = start;
    while index < lim
        invariant
            start <= index,
            index <= lim || index == start,
            start == spec_window_start(page as int, items_per_page as int),
            lim == spec_window_end(page as int, items_per_page as int, total_num as int),
            lim <= total_num,
            res@.len() == index - start,
            forall|i: int|
                0 <= i < res@.len() ==> page_cache@.contains_key(#[trigger] ((start + i) as u32))
                    && res@[i] == page_cache@[(start + i) as u32],
        decreases lim - index,
    {
        match page_cache.get(&(index as u32)) {
            Some(item) => {
                res.push(item);
            },
            None => {
                return None;
            },
        }
        index += 1;
    }
    proof {
        let s = spec_window_start(page as int, items_per_page as int);
        let e = spec_window_end(page as int, items_per_page as int, total_num as int);
        assert forall|i: int| s <= i < e implies page_cache@.contains_key(
            #[trigger] (i as u32),
        ) by {
            let j = i - s;
            assert(page_cache@.contains_key(((s + j) as u32)));
        }
    }
    Some(res)
}

/// The paginated result cache: one [`CacheSlot`] per signature, never
/// evicted for the life of the process.
pub struct CrateSearcher {
    search_cache: Vec<CacheSlot>,
}

impl View for CrateSearcher {
    type V = CacheModel;

    closed spec fn view(&self) -> CacheModel {
        slots_to_model(self.search_cache@)
    }
}

impl CrateSearcher {
    /// Well-formed: no two slots share a signature, so the slot list denotes
    /// a map.
    pub closed spec fn wf(&self) -> bool {
        unique_keys(self.search_cache@)
    }

    /// An empty cache.
    pub fn new() -> (r: Self)
        ensures
            r.wf(),
            r@ == CacheModel::empty(),
    {
        CrateSearcher { search_cache: Vec::new() }
    }

    /// The index of the slot keyed by `(term, sort_key)`, if one exists.
    fn find_slot(&self, term: &String, sort_key: &String) -> (r: Option<usize>)
        requires
            self.wf(),
        ensures
            match r {
                Some(i) => i < self.search_cache@.len() && slot_key(self.search_cache@[i as int])
                    == (term@, sort_key@),
                None => !self@.contains_key((term@, sort_key@)),
            },
    {
        let mut i: usize = 0;
        while i < self.search_cache.len()
            invariant
                self.wf(),
                i <= self.search_cache@.len(),
                forall|j: int|
                    0 <= j < i ==> slot_key(#[trigger] self.search_cache@[j]) != (term@, sort_key@),
            decreases self.search_cache@.len() - i,
        {
            let slot = &self.search_cache[i];
            if slot.term == *term && slot.sort_key == *sort_key {
                return Some(i);
            }
            i += 1;
        }
        proof {
            lemma_model_contains(self.search_cache@, (term@, sort_key@));
        }
        None
    }

    /// Ingests one completed fetch for `(term, sort)`: writes each returned
    /// record at absolute index `(page - 1) * items_per_page + offset` and
    /// overwrites the stored total unconditionally.  The only mutating
    /// operation of the cache; it is idempotent and, for non-overlapping
    /// batches with one total, commutative (see the lemmas below).
    pub fn search_and_add_to_cache(
        &mut self,
        term: &str,
        page: u32,
        items_per_page: u32,
        sort: &CratesSort,
        resp: CrateSearchResponse,
    )
        requires
            old(self).wf(),
            page >= 1,
            items_per_page >= 1,
            spec_window_start(page as int, items_per_page as int) + resp.crates@.len()
                <= u32::MAX,
        ensures
            final(self).wf(),
            final(self)@ == spec_ingest(
                old(self)@,
                term@,
                *sort,
                page as int,
                items_per_page as int,
                resp.meta.total,
                resp.crates@,
            ),
    {
        let ghost k = spec_sig(term@, *sort);
        let ghost base_recs: Map<u32, CrateSearch> = if old(self)@.contains_key(k) {
            old(self)@[k].1
        } else {
            Map::empty()
        };
        let key_term: String = term.to_owned();
        let sort_key = sort.to_sort_string();
        let start: u32 = (page - 1) * items_per_page;
        let idx: usize = match self.find_slot(&key_term, &sort_key) {
            Some(i) => {
                proof {
                    lemma_model_index(self.search_cache@, i as int);
                }
                i
            },
            None => {
                proof {
                    lemma_model_contains(self.search_cache@, k);
                }
                let ghost s0 = self.search_cache@;
                let fresh = CacheSlot {
                    term: key_term,
                    sort_key,
                    total: 0,
                    records: HashMap::new(),
                };
                self.search_cache.push(fresh);
                proof {
                    lemma_model_push(s0, self.search_cache@.last());
                    assert forall|p: int, q: int|
                        0 <= p < q < self.search_cache@.len() implies slot_key(
                        #[trigger] self.search_cache@[p],
                    ) != slot_key(#[trigger] self.search_cache@[q]) by {
                        if q == self.search_cache@.len() - 1 {
                            assert(slot_key(s0[p]) != k);
                        }
                    }
                }
                self.search_cache.len() - 1
            },
        };
        let ghost s1 = self.search_cache@;
        let ghost m1 = self@;
        let ghost orig_slot = s1[idx as int];
        proof {
            lemma_model_index(s1, idx as int);
            assert(orig_slot.records@ == base_recs);
        }
        let CrateSearchResponse { meta, crates } = resp;
        let total = meta.total;
        let mut crates = crates;
        let ghost items = crates@;
        let mut slot = self.search_cache.remove(idx);
        proof {
            assert(items.skip(items.len() as int) =~= Seq::<CrateSearch>::empty());
            assert(slot.records@ =~= spec_ingest_records(
                base_recs,
                start + items.len(),
                items.skip(items.len() as int),
            ));
            assert(crates@ =~= items.take(items.len() as int));
        }
        while crates.len() > 0
            invariant
                crates@.len() <= items.len(),
                crates@ == items.take(crates@.len() as int),
                slot.records@ == spec_ingest_records(
                    base_recs,
                    start + crates@.len(),
                    items.skip(crates@.len() as int),
                ),
                slot.term == orig_slot.term,
                slot.sort_key == orig_slot.sort_key,
                start + items.len() <= u32::MAX,
            decreases crates@.len(),
        {
            let ghost n = crates@.len() as int;
            let item = crates.pop().unwrap();
            proof {
                assert(items.take(n).drop_last() =~= items.take(n - 1));
                assert(item == items.take(n)[n - 1]);
                assert(item == items[n - 1]);
            }
            let abs: u32 = start + (crates.len() as u32);
            slot.records.insert(abs, item);
            proof {
                let lhs = spec_ingest_records(base_recs, start + n - 1, items.skip(n - 1));
                let rhs = spec_ingest_records(base_recs, start + n, items.skip(n)).insert(
                    abs,
                    items[n - 1],
                );
                assert_maps_equal!(lhs, rhs, kk => {
                    if start + n - 1 <= kk < start + items.len() {
                        assert(items.skip(n - 1)[kk - (start + n - 1)]
                            == items[(kk - (start + n - 1)) + (n - 1)]);
                        if kk > start + n - 1 {
                            assert(items.skip(n)[kk - (start + n)]
                                == items[(kk - (start + n)) + n]);
                        }
                    }
                });
            }
        }
        slot.total = total;
        let ghost new_slot = slot;
        self.search_cache.insert(idx, slot);
        proof {
            assert(self.search_cache@ =~= s1.update(idx as int, new_slot));
            lemma_model_update(s1, idx as int, new_slot);
            assert(items.skip(0) =~= items);
            assert(self@ =~= m1.insert(k, (total, spec_ingest_records(base_recs, start as int, items))));
            assert(self@ =~= spec_ingest(
                old(self)@,
                term@,
                *sort,
                page as int,
                items_per_page as int,
                total,
                items,
            ));
        }
    }

    /// Whether the whole clamped window of `page` is resident for this
    /// signature, so that a request for it needs no fetch.  False when the
    /// signature has never been fetched.
    pub fn check_page_cached(
        &self,
        term: &str,
        page: u32,
        items_per_page: u32,
        sort: &CratesSort,
    ) -> (r: bool)
        requires
            self.wf(),
            page >= 1,
            items_per_page >= 1,
        ensures
            r == spec_window_hit(self@, spec_sig(term@, *sort), page as int, items_per_page as int),
    {
        let key_term: String = term.to_owned();
        let sort_key = sort.to_sort_string();
        match self.find_slot(&key_term, &sort_key) {
            Some(i) => {
                proof {
                    lemma_model_index(self.search_cache@, i as int);
                }
                let slot = &self.search_cache[i];
                get_all_items(&slot.records, page, items_per_page, slot.total).is_some()
            },
            None => false,
        }
    }

    /// The cache lookup: the stored total and the window's records, in
    /// ascending absolute order, if the signature is known and the whole
    /// clamped window is resident; `None` otherwise (a partial window is a
    /// full miss).  Read-only; never triggers a fetch.
    pub fn search_sorted_cached<'a>(
        &'a self,
        term: &str,
        page: u32,
        items_per_page: u32,
        sort: &CratesSort,
    ) -> (r: Option<(u32, Vec<&'a CrateSearch>)>)
        requires
            self.wf(),
            page >= 1,
            items_per_page >= 1,
        ensures
            ({
                let k = spec_sig(term@, *sort);
                let start = spec_window_start(page as int, items_per_page as int);
                match r {
                    Some(res) => {
                        &&& spec_window_hit(self@, k, page as int, items_per_page as int)
                        &&& res.0 == self@[k].0
                        &&& res.1@.len() == spec_window_len(
                            page as int,
                            items_per_page as int,
                            self@[k].0 as int,
                        )
                        &&& forall|i: int|
                            0 <= i < res.1@.len() ==> self@[k].1.contains_key(
                                #[trigger] ((start + i) as u32),
                            ) && res.1@[i] == self@[k].1[(start + i) as u32]
                    },
                    None => !spec_window_hit(self@, k, page as int, items_per_page as int),
                }
            }),
    {
        let key_term: String = term.to_owned();
        let sort_key = sort.to_sort_string();
        match self.find_slot(&key_term, &sort_key) {
            Some(i) => {
                proof {
                    lemma_model_index(self.search_cache@, i as int);
                }
                let slot = &self.search_cache[i];
                match get_all_items(&slot.records, page, items_per_page, slot.total) {
                    Some(items) => Some((slot.total, items)),
                    None => None,
                }
            },
            None => None,
        }
    }

    /// Whether a fetch has ever completed for this signature.
    pub fn has_entry(&self, term: &str, sort: &CratesSort) -> (r: bool)
        requires
            self.wf(),
        ensures
            r == self@.contains_key(spec_sig(term@, *sort)),
    {
        let key_term: String = term.to_owned();
        let sort_key = sort.to_sort_string();
        let found = self.find_slot(&key_term, &sort_key);
        proof {
            if found is Some {
                lemma_model_index(self.search_cache@, found->Some_0 as int);
            }
        }
        found.is_some()
    }
}

impl CrateSearch {
    /// The `name = "version"` line for this record, ready for a manifest.
    pub fn get_toml_str(&self) -> (r: String)
        ensures
            r@ == self.id@ + " = \""@ + self.newest_version@ + "\""@,
    {
        let mut s = self.id.clone();
        s.append(" = \"");
        s.append(self.newest_version.as_str());
        s.append("\"");
        s
    }
}

} // verus!
