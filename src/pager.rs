use vstd::prelude::*;

verus! {

/// The view of a continuation token.
pub open spec fn token_view(token: Option<String>) -> Option<Seq<char>> {
    match token {
        Some(t) => Some(t@),
        None => None,
    }
}

/// Whether a token asks for another page: it is present and not empty.
pub open spec fn has_more(token: Option<Seq<char>>) -> bool {
    token matches Some(t) && t.len() > 0
}

/// Whether `token` asks for another page.
pub fn is_continuation(token: &Option<String>) -> (r: bool)
    ensures
        r == has_more(token_view(*token)),
{
    match token {
        Some(t) => !t.as_str().is_empty(),
        None => false,
    }
}

/// Copies a token.
pub fn copy_token(token: &Option<String>) -> (r: Option<String>)
    ensures
        token_view(r) == token_view(*token),
{
    match token {
        Some(t) => Some(t.clone()),
        None => None,
    }
}

/// Where a paginated listing stands.
pub struct PagerView<T> {
    /// Every item received so far, in order.
    pub items: Seq<T>,
    /// The token to hand to the next call.
    pub next_token: Option<Seq<char>>,
    /// Whether the last page has been received.
    pub finished: bool,
    /// How many pages have been received, that is how many calls were made.
    pub calls: nat,
}

/// A listing before its first call.
pub open spec fn pager_start<T>() -> PagerView<T> {
    PagerView { items: Seq::empty(), next_token: None, finished: false, calls: 0 }
}

/// A listing after one more page: its items are appended and its token kept
/// for the next call; a page without a token is the last.
pub open spec fn pager_accept<T>(
    v: PagerView<T>,
    page: Seq<T>,
    token: Option<Seq<char>>,
) -> PagerView<T> {
    PagerView {
        items: v.items + page,
        next_token: token,
        finished: !has_more(token),
        calls: v.calls + 1,
    }
}

/// A listing after each of `pages` (its items and its token) in turn.
pub open spec fn pager_after<T>(pages: Seq<(Seq<T>, Option<Seq<char>>)>) -> PagerView<T>
    decreases pages.len(),
{
    if pages.len() == 0 {
        pager_start()
    } else {
        pager_accept(pager_after(pages.drop_last()), pages.last().0, pages.last().1)
    }
}

/// The items of all pages, one page after another.
pub open spec fn concat_pages<T>(pages: Seq<(Seq<T>, Option<Seq<char>>)>) -> Seq<T>
    decreases pages.len(),
{
    if pages.len() == 0 {
        Seq::empty()
    } else {
        concat_pages(pages.drop_last()) + pages.last().0
    }
}

/// Drives a listing whose remote call takes a continuation token and returns a
/// page of items and the next token: the first call gets no token, each later
/// call the token of the page before, until a page comes without one.
pub struct Pager<T> {
    items: Vec<T>,
    next_token: Option<String>,
    finished: bool,
    calls: Ghost<nat>,
}

impl<T> View for Pager<T> {
    type V = PagerView<T>;

    closed spec fn view(&self) -> PagerView<T> {
        PagerView {
            items: self.items@,
            next_token: token_view(self.next_token),
            finished: self.finished,
            calls: self.calls@,
        }
    }
}

impl<T> Pager<T> {
    pub fn new() -> (r: Pager<T>)
        ensures
            r@ == pager_start::<T>(),
    {
        Pager { items: Vec::new(), next_token: None, finished: false, calls: Ghost(0) }
    }

    /// The token for the next call, or `None` once the listing is complete.
    pub fn next_request(&self) -> (r: Option<Option<String>>)
        ensures
            r is None <==> self@.finished,
            r matches Some(token) ==> token_view(token) == self@.next_token,
    {
        if self.finished {
            None
        } else {
            Some(copy_token(&self.next_token))
        }
    }

    /// Takes in the page that the last call returned.
    pub fn accept(&mut self, page: Vec<T>, next_token: Option<String>)
        requires
            !old(self)@.finished,
        ensures
            final(self)@ == pager_accept(old(self)@, page@, token_view(next_token)),
    {
        let mut page = page;
        self.items.append(&mut page);
        self.finished = !is_continuation(&next_token);
        self.next_token = next_token;
        self.calls = Ghost(self.calls@ + 1);
    }

    pub fn is_finished(&self) -> (r: bool)
        ensures
            r == self@.finished,
    {
        self.finished
    }

    /// Every item received, in the order of the pages and within each page.
    pub fn into_items(self) -> (r: Vec<T>)
        ensures
            r@ == self@.items,
    {
        self.items
    }
}

/// Pagination is complete: handed N pages of which only the last has no
/// continuation token, the pager gathers the items of all N pages in order,
/// asks for another call after each page but the last, hands each such call
/// the token of the page before, and stops after exactly N calls.
pub proof fn lemma_pagination_complete<T>(pages: Seq<(Seq<T>, Option<Seq<char>>)>)
    requires
        pages.len() >= 1,
        forall|i: int| 0 <= i < pages.len() - 1 ==> has_more(#[trigger] pages[i].1),
        !has_more(pages.last().1),
    ensures
        pager_after(pages).finished,
        pager_after(pages).items == concat_pages(pages),
        pager_after(pages).calls == pages.len(),
        forall|k: int| 0 <= k < pages.len() ==> !(#[trigger] pager_after(pages.take(k))).finished,
        forall|k: int|
            1 <= k < pages.len() ==> (#[trigger] pager_after(pages.take(k))).next_token
                == pages[k - 1].1,
{
    lemma_pager_gathers(pages);
    assert forall|k: int| 0 <= k < pages.len() implies !(#[trigger] pager_after(
        pages.take(k),
    )).finished && (k >= 1 ==> pager_after(pages.take(k)).next_token == pages[k - 1].1) by {
        if k >= 1 {
            assert(pages.take(k).drop_last() == pages.take(k - 1));
            assert(pages.take(k).last() == pages[k - 1]);
        }
    }
}

/// Whatever the pages, the pager holds the items of all of them and has made
/// one call per page.
pub proof fn lemma_pager_gathers<T>(pages: Seq<(Seq<T>, Option<Seq<char>>)>)
    ensures
        pager_after(pages).items == concat_pages(pages),
        pager_after(pages).calls == pages.len(),
    decreases pages.len(),
{
    if pages.len() > 0 {
        lemma_pager_gathers(pages.drop_last());
    }
}

} // verus!
