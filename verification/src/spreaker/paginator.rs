use std::collections::VecDeque;
use vstd::prelude::*;

use super::error::SpreakerError;
use super::SpreakerData;

verus! {

/// What a pull on the sequence gives.
#[derive(Debug)]
pub enum Pull<T> {
    /// The next item.
    Item(T),
    /// Nothing is buffered and a page is still to come: pull again once it has.
    Pending,
    /// A request failed. The sequence ends with this.
    Failed(SpreakerError),
    /// Every page has come and every item has been given.
    End,
}

/// What has happened to a sequence of pages: a page came, a request failed, or the consumer
/// pulled.
pub enum PageEvent<T> {
    Page(Seq<T>, Option<Seq<char>>),
    Failure(SpreakerError),
    Pulled,
}

/// The state of a sequence of pages, as contracts see it.
pub struct Pages<T> {
    /// The items that have come and have not been given yet, oldest first.
    pub buffer: Seq<T>,
    /// Where the next page is, while one is to come.
    pub next_url: Option<Seq<char>>,
    /// The failure that ended the fetching, until it has been reported.
    pub failure: Option<SpreakerError>,
}

/// Where the page after this one is: nowhere, if the page names no address or an empty one.
pub open spec fn following(next_url: Option<Seq<char>>) -> Option<Seq<char>> {
    match next_url {
        Some(url) => if url.len() == 0 {
            None
        } else {
            Some(url)
        },
        None => None,
    }
}

impl<T> Pages<T> {
    /// A sequence that starts at `url`, before anything has come.
    pub open spec fn start(url: Seq<char>) -> Self {
        Pages { buffer: Seq::empty(), next_url: Some(url), failure: None }
    }

    /// The state after a page has come: its items are buffered behind those that wait.
    pub open spec fn page_arrived(self, items: Seq<T>, next_url: Option<Seq<char>>) -> Self {
        Pages { buffer: self.buffer + items, next_url: following(next_url), failure: self.failure }
    }

    /// The state after a request has failed: no page will come any more.
    pub open spec fn request_failed(self, error: SpreakerError) -> Self {
        Pages { buffer: self.buffer, next_url: None, failure: Some(error) }
    }

    /// What a pull gives in this state.
    pub open spec fn pull(self) -> Pull<T> {
        if self.buffer.len() > 0 {
            Pull::Item(self.buffer[0])
        } else if let Some(error) = self.failure {
            Pull::Failed(error)
        } else if self.next_url is Some {
            Pull::Pending
        } else {
            Pull::End
        }
    }

    /// The state after a pull.
    pub open spec fn pulled(self) -> Self {
        if self.buffer.len() > 0 {
            Pages { buffer: self.buffer.drop_first(), ..self }
        } else {
            Pages { failure: None, ..self }
        }
    }

    /// The state after one event.
    pub open spec fn after(self, event: PageEvent<T>) -> Self {
        match event {
            PageEvent::Page(items, next_url) => self.page_arrived(items, next_url),
            PageEvent::Failure(error) => self.request_failed(error),
            PageEvent::Pulled => self.pulled(),
        }
    }

    /// The state after the events, in their order.
    pub open spec fn after_all(self, events: Seq<PageEvent<T>>) -> Self
        decreases events.len(),
    {
        if events.len() == 0 {
            self
        } else {
            self.after_all(events.drop_last()).after(events.last())
        }
    }
}

/// The items of the pages among the events, in the order in which the pages came.
pub open spec fn received<T>(events: Seq<PageEvent<T>>) -> Seq<T>
    decreases events.len(),
{
    if events.len() == 0 {
        Seq::empty()
    } else {
        match events.last() {
            PageEvent::Page(items, _) => received(events.drop_last()) + items,
            _ => received(events.drop_last()),
        }
    }
}

/// The items that the pulls among the events gave, in the order of the pulls, for a sequence
/// that was in state `from` before the first event.
pub open spec fn given<T>(from: Pages<T>, events: Seq<PageEvent<T>>) -> Seq<T>
    decreases events.len(),
{
    if events.len() == 0 {
        Seq::empty()
    } else {
        let earlier = given(from, events.drop_last());
        match (events.last(), from.after_all(events.drop_last()).pull()) {
            (PageEvent::Pulled, Pull::Item(item)) => earlier.push(item),
            _ => earlier,
        }
    }
}

/// Whatever the order in which pages come and the consumer pulls: the items given so far,
/// followed by those that wait in the buffer, are the items received so far, in the order
/// of receipt. No item is lost, doubled or overtaken, however far the pages run ahead of
/// the pulls.
pub proof fn lemma_items_in_receipt_order<T>(url: Seq<char>, events: Seq<PageEvent<T>>)
    ensures
        given(Pages::<T>::start(url), events) + Pages::<T>::start(url).after_all(events).buffer
            == received(events),
    decreases events.len(),
{
    let from = Pages::<T>::start(url);
    if events.len() > 0 {
        let before = events.drop_last();
        lemma_items_in_receipt_order(url, before);
        let state = from.after_all(before);
        match events.last() {
            PageEvent::Page(items, next_url) => {
                assert(given(from, before) + (state.buffer + items) == (given(from, before)
                    + state.buffer) + items);
            },
            PageEvent::Failure(_) => {},
            PageEvent::Pulled => {
                if state.buffer.len() > 0 {
                    assert(given(from, before).push(state.buffer[0]) + state.buffer.drop_first()
                        == given(from, before) + state.buffer);
                }
            },
        }
    }
}

/// A pull gives the end only when no request has failed unreported, no page is to come and
/// every item received has been given.
pub proof fn lemma_end_after_every_item<T>(url: Seq<char>, events: Seq<PageEvent<T>>)
    requires
        Pages::<T>::start(url).after_all(events).pull() is End,
    ensures
        given(Pages::<T>::start(url), events) == received(events),
        Pages::<T>::start(url).after_all(events).next_url is None,
{
    lemma_items_in_receipt_order(url, events);
    let state = Pages::<T>::start(url).after_all(events);
    assert(state.buffer == Seq::<T>::empty());
    assert(given(Pages::<T>::start(url), events) + Seq::<T>::empty() == given(
        Pages::<T>::start(url),
        events,
    ));
}

/// After the end nothing is given any more: a pull that gives the end leaves the state as
/// it is, so that the next pull gives the end again.
pub proof fn lemma_end_is_final<T>(pages: Pages<T>)
    requires
        pages.pull() is End,
    ensures
        pages.pulled() == pages,
        pages.pulled().pull() is End,
{
}

/// A sequence of items that come in pages. Whoever fetches the pages asks `next_request`
/// where to fetch, and hands in each page, or the failure; whoever consumes the items
/// pulls them one at a time with `poll_next`.
pub struct SpreakerDataIter<T> {
    next_url: Option<String>,
    items: VecDeque<T>,
    failure: Option<SpreakerError>,
}

impl<T> View for SpreakerDataIter<T> {
    type V = Pages<T>;

    closed spec fn view(&self) -> Pages<T> {
        Pages {
            buffer: self.items@,
            next_url: match self.next_url {
                Some(url) => Some(url@),
                None => None,
            },
            failure: self.failure,
        }
    }
}

impl<T> SpreakerDataIter<T> {
    /// A sequence whose first page is at `next_url`.
    pub fn new(next_url: String) -> (it: Self)
        ensures
            it@ == Pages::<T>::start(next_url@),
    {
        SpreakerDataIter { next_url: Some(next_url), items: VecDeque::new(), failure: None }
    }

    /// Where the page to fetch next is; `None` once the last page has come or a request
    /// has failed.
    pub fn next_request(&self) -> (url: Option<String>)
        ensures
            match url {
                Some(u) => self@.next_url == Some(u@),
                None => self@.next_url is None,
            },
    {
        match &self.next_url {
            Some(url) => Some(url.clone()),
            None => None,
        }
    }

    /// Takes a page in: its items go behind those that wait, in the page's order, and the
    /// page says where the next one is, if there is one.
    pub fn page_arrived(&mut self, page: SpreakerData<T>)
        ensures
            final(self)@ == old(self)@.page_arrived(
                page.items@,
                match page.next_url {
                    Some(url) => Some(url@),
                    None => None,
                },
            ),
    {
        let SpreakerData { items, next_url } = page;
        let ghost before = self.items@;
        let ghost arrived = items@;
        for item in it: items.into_iter()
            invariant
                it.seq() == arrived,
                self.items@ == before + arrived.take(it.index() as int),
                self.failure == old(self).failure,
        {
            assert(arrived.take(it.index() + 1) == arrived.take(it.index() as int).push(item));
            self.items.push_back(item);
        }
        assert(arrived.take(arrived.len() as int) == arrived);
        self.next_url = match next_url {
            Some(url) => if url.as_str().is_empty() {
                None
            } else {
                Some(url)
            },
            None => None,
        };
    }

    /// Takes in that a request has failed: no page will be asked for any more, and the
    /// failure waits to be reported.
    pub fn request_failed(&mut self, error: SpreakerError)
        ensures
            final(self)@ == old(self)@.request_failed(error),
    {
        self.next_url = None;
        self.failure = Some(error);
    }

    /// Gives the next item, in the order of receipt. With nothing buffered it reports the
    /// failure, once; or that a page is still to come; or the end.
    pub fn poll_next(&mut self) -> (pull: Pull<T>)
        ensures
            pull == old(self)@.pull(),
            final(self)@ == old(self)@.pulled(),
    {
        match self.items.pop_front() {
            Some(item) => Pull::Item(item),
            None => {
                match self.failure.take() {
                    Some(error) => Pull::Failed(error),
                    None => {
                        if self.next_url.is_some() {
                            Pull::Pending
                        } else {
                            Pull::End
                        }
                    },
                }
            },
        }
    }
}

} // verus!
