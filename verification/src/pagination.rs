//! Offset-token pagination: list envelopes, the page cursor state machine,
//! and the laws of its termination and truncation.
//!
//! A list endpoint answers with a page of items and, while more remain, an
//! opaque offset token. The cursor walks those pages, truncating to an
//! optional global item limit, ending cleanly both on a missing token and
//! on the upstream's mid-stream token expiry (a 400 whose error text names
//! an expired or invalid offset).

use vstd::prelude::*;

verus! {

use crate::errors::ApiError;
use crate::text::spec_contains_seq;
use crate::text::spec_lower;

/// Metadata describing the next page of a list response.
#[derive(Debug, Clone, PartialEq, Eq)]
pub struct PaginationInfo {
    /// Offset token for subsequent calls.
    pub offset: Option<String>,
    /// Canonical path for the next page.
    pub path: Option<String>,
    /// Canonical URI when provided.
    pub uri: Option<String>,
}

impl PaginationInfo {
    /// Return the offset token if present.
    pub fn offset(&self) -> (r: Option<&str>)
        ensures
            match r {
                Some(s) => self.offset matches Some(o) && s@ == o@,
                None => self.offset is None,
            },
    {
        match &self.offset {
            Some(s) => Some(s.as_str()),
            None => None,
        }
    }
}

/// Generic list response where data is wrapped with pagination metadata.
#[derive(Debug, Clone, PartialEq, Eq)]
pub struct ListResponse<T> {
    /// Data payload.
    pub data: Vec<T>,
    /// Pagination metadata, when more items are available.
    pub next_page: Option<PaginationInfo>,
}

/// The offset token carried by pagination metadata, if any.
pub open spec fn spec_offset_of(np: Option<PaginationInfo>) -> Option<Seq<char>> {
    match np {
        Some(p) => match p.offset {
            Some(s) => Some(s@),
            None => None,
        },
        None => None,
    }
}

impl<T> ListResponse<T> {
    /// Determine whether a subsequent request is required.
    pub fn has_more(&self) -> (r: bool)
        ensures
            r == (spec_offset_of(self.next_page) is Some),
    {
        match &self.next_page {
            Some(p) => p.offset.is_some(),
            None => false,
        }
    }
}

/// Error text that marks an expired pagination token: it names the offset
/// and calls it expired or invalid, case-insensitively.
pub open spec fn spec_text_marks_expired(t: Seq<char>) -> bool {
    spec_contains_seq(spec_lower(t), "offset"@) && (spec_contains_seq(spec_lower(t), "expired"@)
        || spec_contains_seq(spec_lower(t), "invalid"@))
}

fn text_marks_expired(s: &str) -> (r: bool)
    ensures
        r == spec_text_marks_expired(s@),
{
    let chars = crate::text::str_to_chars(s);
    let low = crate::text::lower_chars(&chars);
    let offset_n = crate::text::str_to_chars("offset");
    let expired_n = crate::text::str_to_chars("expired");
    let invalid_n = crate::text::str_to_chars("invalid");
    crate::text::contains_sub(&low, &offset_n) && (crate::text::contains_sub(&low, &expired_n)
        || crate::text::contains_sub(&low, &invalid_n))
}

/// An HTTP error that signals an expired or invalid pagination offset:
/// a 400 whose structured error messages, or top-level message, mark the
/// offset as expired or invalid.
pub open spec fn spec_offset_expired_http(
    status: u16,
    message: Seq<char>,
    error_messages: Seq<Seq<char>>,
) -> bool {
    status == 400 && ((exists|i: int|
        0 <= i < error_messages.len() && spec_text_marks_expired(#[trigger] error_messages[i]))
        || spec_text_marks_expired(message))
}

/// Whether an error ends pagination cleanly (upstream token expiry).
pub open spec fn spec_is_offset_expired(e: ApiError) -> bool {
    match e {
        ApiError::Http { status, message, error_messages } => spec_offset_expired_http(
            status,
            message@,
            error_messages.deep_view(),
        ),
        _ => false,
    }
}

/// Decide whether an error is the upstream's pagination-token expiry.
#[verifier::loop_isolation(false)]
pub fn is_offset_expired(e: &ApiError) -> (r: bool)
    ensures
        r == spec_is_offset_expired(*e),
{
    match e {
        ApiError::Http { status, message, error_messages } => {
            if *status != 400 {
                return false;
            }
            let mut i: usize = 0;
            while i < error_messages.len()
                invariant
                    0 <= i <= error_messages@.len(),
                    forall|j: int|
                        0 <= j < i ==> !spec_text_marks_expired(
                            #[trigger] error_messages.deep_view()[j],
                        ),
                decreases error_messages@.len() - i,
            {
                assert(error_messages.deep_view()[i as int] == error_messages@[i as int]@);
                if text_marks_expired(error_messages[i].as_str()) {
                    assert(spec_text_marks_expired(error_messages.deep_view()[i as int]));
                    return true;
                }
                i = i + 1;
            }
            text_marks_expired(message.as_str())
        },
        _ => false,
    }
}

} // verus!

verus! {

use crate::errors::SpecApiError;

/// The view of an optional string.
pub open spec fn opt_str_view(o: Option<String>) -> Option<Seq<char>> {
    match o {
        Some(s) => Some(s@),
        None => None,
    }
}

/// How many of a page's items may still be emitted under the limit.
pub open spec fn spec_keep(len: int, emitted: int, max: Option<usize>) -> int {
    match max {
        None => len,
        Some(m) => if emitted + len > m {
            m - emitted
        } else {
            len
        },
    }
}

/// The item limit has been reached.
pub open spec fn spec_at_max(emitted: int, max: Option<usize>) -> bool {
    match max {
        Some(m) => emitted >= m,
        None => false,
    }
}

/// Cursor state for one pagination traversal: the next offset token, how
/// many items have been emitted, the optional global item limit, and
/// whether the stream has ended.
#[derive(Debug)]
pub struct PageCursor {
    /// Token to send with the next fetch; `None` on the first page.
    pub next_offset: Option<String>,
    /// Items yielded to the consumer so far.
    pub emitted: usize,
    /// Optional global cap on yielded items.
    pub max_items: Option<usize>,
    /// The traversal has ended (cleanly or not).
    pub done: bool,
}

impl PageCursor {
    /// Whether another page should be fetched.
    pub open spec fn spec_wants_fetch(&self) -> bool {
        !self.done && !spec_at_max(self.emitted as int, self.max_items)
    }

    /// A fresh traversal.
    pub fn new(max_items: Option<usize>) -> (r: PageCursor)
        ensures
            r.next_offset is None,
            r.emitted == 0,
            r.max_items == max_items,
            !r.done,
    {
        PageCursor { next_offset: None, emitted: 0, max_items, done: false }
    }

    /// Whether another page should be fetched.
    pub fn wants_fetch(&self) -> (r: bool)
        ensures
            r == self.spec_wants_fetch(),
    {
        if self.done {
            return false;
        }
        match self.max_items {
            Some(m) => self.emitted < m,
            None => true,
        }
    }

    /// Consume one fetched page: truncate it to the remaining allowance,
    /// count it, and decide whether the traversal continues (a token was
    /// present and the limit is not yet reached).
    pub fn on_page<T>(&mut self, data: Vec<T>, next_offset: Option<String>) -> (page: Vec<T>)
        requires
            old(self).spec_wants_fetch(),
            old(self).emitted + data@.len() <= usize::MAX,
        ensures
            page@ == data@.take(
                spec_keep(data@.len() as int, old(self).emitted as int, old(self).max_items),
            ),
            final(self).emitted == old(self).emitted + page@.len(),
            final(self).max_items == old(self).max_items,
            opt_str_view(final(self).next_offset) == opt_str_view(next_offset),
            final(self).done == !(opt_str_view(next_offset) is Some && !spec_at_max(
                final(self).emitted as int,
                old(self).max_items,
            )),
    {
        let mut page = data;
        match self.max_items {
            Some(m) => {
                if page.len() > m - self.emitted {
                    page.truncate(m - self.emitted);
                }
            },
            None => {},
        }
        proof {
            assert(page@ =~= old(self).spec_on_page_take(page@, data@));
        }
        self.emitted = self.emitted + page.len();
        let has_token = next_offset.is_some();
        self.next_offset = next_offset;
        let still_room = match self.max_items {
            Some(m) => self.emitted < m,
            None => true,
        };
        self.done = !(has_token && still_room);
        page
    }

    /// The truncated page, as a function of the incoming data.
    pub open spec fn spec_on_page_take<T>(&self, page: Seq<T>, data: Seq<T>) -> Seq<T> {
        data.take(spec_keep(data.len() as int, self.emitted as int, self.max_items))
    }

    /// Consume a failed fetch: the traversal ends either way, cleanly when
    /// the failure is the upstream's token expiry.
    pub fn on_error(&mut self, e: &ApiError) -> (clean: bool)
        ensures
            clean == spec_is_offset_expired(*e),
            final(self).done,
            final(self).emitted == old(self).emitted,
            final(self).max_items == old(self).max_items,
            final(self).next_offset == old(self).next_offset,
    {
        self.done = true;
        is_offset_expired(e)
    }
}

} // verus!

verus! {

/// One scripted fetch result, as the executor would hand it over.
#[derive(Debug)]
pub enum FetchOutcome<T> {
    /// The page arrived.
    Success(ListResponse<T>),
    /// The fetch failed.
    Failure(ApiError),
}

/// What a finished traversal yielded: the pages, and the error surfaced to
/// the consumer, if any.
#[derive(Debug)]
pub struct PaginationRun<T> {
    /// The pages, in order, already truncated to the limit.
    pub pages: Vec<Vec<T>>,
    /// The error that ended the traversal, when it did not end cleanly.
    pub error: Option<ApiError>,
}

/// The items of all `Success` fetches, summed.
pub open spec fn spec_data_total<T>(fetches: Seq<FetchOutcome<T>>) -> int
    decreases fetches.len(),
{
    if fetches.len() == 0 {
        0
    } else {
        (match fetches[0] {
            FetchOutcome::Success(resp) => resp.data@.len() as int,
            FetchOutcome::Failure(_) => 0,
        }) + spec_data_total(fetches.drop_first())
    }
}

proof fn lemma_data_total_nonneg<T>(fetches: Seq<FetchOutcome<T>>)
    ensures
        spec_data_total(fetches) >= 0,
    decreases fetches.len(),
{
    if fetches.len() > 0 {
        lemma_data_total_nonneg(fetches.drop_first());
    }
}

/// The pages a traversal yields, given the scripted fetch outcomes.
pub open spec fn spec_pages<T>(
    fetches: Seq<FetchOutcome<T>>,
    emitted: int,
    max: Option<usize>,
) -> Seq<Seq<T>>
    decreases fetches.len(),
{
    if fetches.len() == 0 || spec_at_max(emitted, max) {
        Seq::empty()
    } else {
        match fetches[0] {
            FetchOutcome::Failure(e) => Seq::empty(),
            FetchOutcome::Success(resp) => {
                let keep = spec_keep(resp.data@.len() as int, emitted, max);
                let page = resp.data@.take(keep);
                if spec_offset_of(resp.next_page) is Some && !spec_at_max(emitted + keep, max) {
                    seq![page] + spec_pages(fetches.drop_first(), emitted + keep, max)
                } else {
                    seq![page]
                }
            },
        }
    }
}

/// The error a traversal surfaces, if any: a fetch failure other than the
/// upstream's token expiry.
pub open spec fn spec_pagination_error<T>(
    fetches: Seq<FetchOutcome<T>>,
    emitted: int,
    max: Option<usize>,
) -> Option<SpecApiError>
    decreases fetches.len(),
{
    if fetches.len() == 0 || spec_at_max(emitted, max) {
        None
    } else {
        match fetches[0] {
            FetchOutcome::Failure(e) => if spec_is_offset_expired(e) {
                None
            } else {
                Some(e@)
            },
            FetchOutcome::Success(resp) => {
                let keep = spec_keep(resp.data@.len() as int, emitted, max);
                if spec_offset_of(resp.next_page) is Some && !spec_at_max(emitted + keep, max) {
                    spec_pagination_error(fetches.drop_first(), emitted + keep, max)
                } else {
                    None
                }
            },
        }
    }
}

/// The views of a sequence of pages.
pub open spec fn views_of<T>(pages: Seq<Vec<T>>) -> Seq<Seq<T>> {
    Seq::new(pages.len(), |i: int| pages[i]@)
}

/// Run a whole pagination traversal over scripted fetch outcomes. This is
/// the pagination engine's loop with the transport factored out: fetch `k`
/// answers the `k`-th page request.
pub fn run_pagination<T>(fetches: Vec<FetchOutcome<T>>, max_items: Option<usize>) -> (r:
    PaginationRun<T>)
    requires
        spec_data_total(fetches@) <= usize::MAX,
    ensures
        views_of(r.pages@) == spec_pages(fetches@, 0, max_items),
        match r.error {
            Some(e) => spec_pagination_error(fetches@, 0, max_items) == Some(e@),
            None => spec_pagination_error(fetches@, 0, max_items) is None,
        },
{
    let ghost orig = fetches@;
    let mut rest = fetches;
    let mut cursor = PageCursor::new(max_items);
    let mut pages: Vec<Vec<T>> = Vec::new();
    let mut error: Option<ApiError> = None;
    proof {
        assert(views_of(pages@) =~= Seq::<Seq<T>>::empty());
    }
    loop
        invariant_except_break
            !cursor.done,
            error is None,
            cursor.max_items == max_items,
            cursor.emitted + spec_data_total(rest@) <= usize::MAX,
            views_of(pages@) + spec_pages(rest@, cursor.emitted as int, max_items) == spec_pages(
                orig,
                0,
                max_items,
            ),
            spec_pagination_error(rest@, cursor.emitted as int, max_items)
                == spec_pagination_error(orig, 0, max_items),
        ensures
            views_of(pages@) == spec_pages(orig, 0, max_items),
            match error {
                Some(e) => spec_pagination_error(orig, 0, max_items) == Some(e@),
                None => spec_pagination_error(orig, 0, max_items) is None,
            },
        decreases rest@.len(),
    {
        if !cursor.wants_fetch() {
            // the limit is reached: nothing more is yielded
            assert(spec_pages(rest@, cursor.emitted as int, max_items) =~= Seq::<Seq<T>>::empty());
            assert(views_of(pages@) =~= spec_pages(orig, 0, max_items));
            break;
        }
        if rest.len() == 0 {
            assert(views_of(pages@) =~= spec_pages(orig, 0, max_items));
            break;
        }
        let ghost prev_rest = rest@;
        let f = rest.remove(0);
        proof {
            assert(f == prev_rest[0]);
            assert(rest@ =~= prev_rest.drop_first());
            lemma_data_total_nonneg(rest@);
        }
        match f {
            FetchOutcome::Failure(e) => {
                let clean = cursor.on_error(&e);
                if !clean {
                    error = Some(e);
                }
                assert(spec_pages(prev_rest, cursor.emitted as int, max_items) =~= Seq::<
                    Seq<T>,
                >::empty());
                assert(views_of(pages@) =~= spec_pages(orig, 0, max_items));
                break;
            },
            FetchOutcome::Success(resp) => {
                let ghost resp_g = resp;
                let data = resp.data;
                let off: Option<String> = match resp.next_page {
                    Some(p) => p.offset,
                    None => None,
                };
                proof {
                    assert(opt_str_view(off) == spec_offset_of(resp_g.next_page));
                }
                let ghost emitted_before = cursor.emitted as int;
                let page = cursor.on_page(data, off);
                pages.push(page);
                proof {
                    let keep = spec_keep(resp_g.data@.len() as int, emitted_before, max_items);
                    assert(views_of(pages@) =~= views_of(pages@.drop_last()).push(
                        pages@.last()@,
                    ));
                    assert(spec_pages(prev_rest, emitted_before, max_items) == (if spec_offset_of(
                        resp_g.next_page,
                    ) is Some && !spec_at_max(emitted_before + keep, max_items) {
                        seq![resp_g.data@.take(keep)] + spec_pages(
                            prev_rest.drop_first(),
                            emitted_before + keep,
                            max_items,
                        )
                    } else {
                        seq![resp_g.data@.take(keep)]
                    }));
                }
                if cursor.done {
                    proof {
                        assert(views_of(pages@) =~= spec_pages(orig, 0, max_items));
                    }
                    break;
                }
                proof {
                    assert(views_of(pages@) + spec_pages(
                        rest@,
                        cursor.emitted as int,
                        max_items,
                    ) =~= spec_pages(orig, 0, max_items));
                }
            },
        }
    }
    PaginationRun { pages, error }
}

} // verus!

verus! {

/// Normal termination: a run of pages whose offset token is present on
/// every page but the last, and absent on the last, yields exactly one
/// page per fetch — each page complete — and surfaces no error.
pub proof fn lemma_pagination_normal<T>(fetches: Seq<FetchOutcome<T>>)
    requires
        fetches.len() >= 1,
        forall|i: int| 0 <= i < fetches.len() ==> (#[trigger] fetches[i]) is Success,
        forall|i: int|
            0 <= i < fetches.len() - 1 ==> spec_offset_of(
                (#[trigger] fetches[i])->Success_0.next_page,
            ) is Some,
        spec_offset_of(fetches[fetches.len() - 1]->Success_0.next_page) is None,
    ensures
        spec_pages(fetches, 0, None).len() == fetches.len(),
        forall|i: int|
            0 <= i < fetches.len() ==> spec_pages(fetches, 0, None)[i] == (#[trigger] fetches[i])
                ->Success_0.data@,
        spec_pagination_error(fetches, 0, None) is None,
    decreases fetches.len(),
{
    let resp = fetches[0]->Success_0;
    let keep = spec_keep(resp.data@.len() as int, 0, None);
    assert(resp.data@.take(keep) =~= resp.data@);
    if fetches.len() == 1 {
        assert(spec_pages(fetches, 0, None) =~= seq![resp.data@]);
    } else {
        let tail = fetches.drop_first();
        assert forall|i: int| 0 <= i < tail.len() implies (#[trigger] tail[i]) is Success by {
            assert(tail[i] == fetches[i + 1]);
        }
        assert forall|i: int| 0 <= i < tail.len() - 1 implies spec_offset_of(
            (#[trigger] tail[i])->Success_0.next_page,
        ) is Some by {
            assert(tail[i] == fetches[i + 1]);
        }
        assert(tail[tail.len() - 1] == fetches[fetches.len() - 1]);
        lemma_pagination_normal(tail);
        assert(spec_offset_of(resp.next_page) is Some);
        assert(spec_pages(fetches, 0, None) == seq![resp.data@.take(keep)] + spec_pages(
            tail,
            0 + keep,
            None,
        ));
        // with no limit, the emitted count does not influence the result
        lemma_pages_no_limit_shift(tail, keep);
        assert forall|i: int| 0 <= i < fetches.len() implies spec_pages(fetches, 0, None)[i] == (
        #[trigger] fetches[i])->Success_0.data@ by {
            if i > 0 {
                assert(spec_pages(fetches, 0, None)[i] == spec_pages(tail, 0, None)[i - 1]);
                assert(fetches[i] == tail[i - 1]);
            }
        }
    }
}

/// Without a limit, the pages yielded do not depend on how many items were
/// already emitted.
proof fn lemma_pages_no_limit_shift<T>(fetches: Seq<FetchOutcome<T>>, emitted: int)
    ensures
        spec_pages(fetches, emitted, None) == spec_pages(fetches, 0, None),
        spec_pagination_error(fetches, emitted, None) == spec_pagination_error(fetches, 0, None),
    decreases fetches.len(),
{
    if fetches.len() > 0 {
        match fetches[0] {
            FetchOutcome::Success(resp) => {
                let len = resp.data@.len() as int;
                lemma_pages_no_limit_shift(fetches.drop_first(), emitted + len);
                lemma_pages_no_limit_shift(fetches.drop_first(), len);
            },
            FetchOutcome::Failure(_) => {},
        }
    }
}

/// Token expiry mid-stream: when every failed fetch in the script is the
/// upstream's token expiry, the traversal surfaces no error — the pages
/// yielded before the failure stand, and the stream ends cleanly.
pub proof fn lemma_expired_offset_ends_cleanly<T>(
    fetches: Seq<FetchOutcome<T>>,
    emitted: int,
    max: Option<usize>,
)
    requires
        forall|i: int|
            0 <= i < fetches.len() ==> ((#[trigger] fetches[i]) matches FetchOutcome::Failure(e)
                ==> spec_is_offset_expired(e)),
    ensures
        spec_pagination_error(fetches, emitted, max) is None,
    decreases fetches.len(),
{
    if fetches.len() > 0 && !spec_at_max(emitted, max) {
        match fetches[0] {
            FetchOutcome::Failure(e) => {
                assert(spec_is_offset_expired(e));
            },
            FetchOutcome::Success(resp) => {
                let keep = spec_keep(resp.data@.len() as int, emitted, max);
                let tail = fetches.drop_first();
                assert forall|i: int| 0 <= i < tail.len() implies ((#[trigger] tail[i]) matches
                    FetchOutcome::Failure(e) ==> spec_is_offset_expired(e)) by {
                    assert(tail[i] == fetches[i + 1]);
                }
                lemma_expired_offset_ends_cleanly(tail, emitted + keep, max);
            },
        }
    }
}

/// The items in a yielded page sequence, summed.
pub open spec fn spec_total_items<T>(pages: Seq<Seq<T>>) -> int
    decreases pages.len(),
{
    if pages.len() == 0 {
        0
    } else {
        pages[0].len() + spec_total_items(pages.drop_first())
    }
}

/// Limit truncation: with a limit of `m` and `emitted` items already out,
/// a traversal never yields more than `m - emitted` further items, whatever
/// pages the server sends.
pub proof fn lemma_limit_truncation<T>(fetches: Seq<FetchOutcome<T>>, emitted: int, m: usize)
    requires
        0 <= emitted <= m,
    ensures
        spec_total_items(spec_pages(fetches, emitted, Some(m))) <= m - emitted,
    decreases fetches.len(),
{
    if fetches.len() > 0 && !spec_at_max(emitted, Some(m)) {
        match fetches[0] {
            FetchOutcome::Failure(_) => {},
            FetchOutcome::Success(resp) => {
                let len = resp.data@.len() as int;
                let keep = spec_keep(len, emitted, Some(m));
                assert(resp.data@.take(keep).len() == keep);
                if spec_offset_of(resp.next_page) is Some && !spec_at_max(emitted + keep, Some(m)) {
                    lemma_limit_truncation(fetches.drop_first(), emitted + keep, m);
                    assert(spec_pages(fetches, emitted, Some(m)).drop_first() =~= spec_pages(
                        fetches.drop_first(),
                        emitted + keep,
                        Some(m),
                    ));
                } else {
                    assert(spec_pages(fetches, emitted, Some(m)) =~= seq![resp.data@.take(keep)]);
                    assert(seq![resp.data@.take(keep)].drop_first() =~= Seq::<Seq<T>>::empty());
                    assert(spec_total_items(Seq::<Seq<T>>::empty()) == 0);
                    assert(spec_total_items(spec_pages(fetches, emitted, Some(m))) == keep);
                }
            },
        }
    }
}

} // verus!
