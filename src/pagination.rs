//! Collecting a list that the service hands out page by page. Pages are
//! asked for one after the other, starting at page 1; the list is complete
//! after a page with no items, after the last page that the metadata reports,
//! or after any page without metadata.

use crate::envelope::{ApiResponse, ClientError, ResultInfo};
use vstd::prelude::*;

verus! {

/// Whether `page`, holding `count` items and reported with `info`, ends the
/// list.
pub open spec fn is_last_page(page: u32, count: nat, info: Option<ResultInfo>) -> bool {
    count == 0 || match info {
        None => true,
        Some(i) => page >= i.total_pages,
    }
}

/// The items that a page carries; a page without a result carries none.
pub open spec fn page_items<T>(resp: ApiResponse<Vec<T>>) -> Seq<T> {
    match resp.result {
        Some(v) => v@,
        None => Seq::empty(),
    }
}

/// A list being collected: the page to ask for next and the items so far.
#[derive(Debug)]
pub struct Pager<T> {
    pub page: u32,
    pub per_page: u32,
    pub items: Vec<T>,
}

/// What to do after a page: ask for the next one, or stop with the whole list,
/// or stop with the failure that the page reported. Nothing collected before a
/// failure is returned.
#[derive(Debug)]
pub enum PageStep<T> {
    Next(Pager<T>),
    Done(Vec<T>),
    Failed(ClientError),
}

impl<T> Pager<T> {
    /// A list not yet begun: page 1 comes first.
    pub fn new(per_page: u32) -> (r: Self)
        ensures
            r.page == 1,
            r.per_page == per_page,
            r.items@.len() == 0,
    {
        Pager { page: 1, per_page, items: Vec::new() }
    }

    /// Takes in the envelope of the page `self.page`.
    pub fn absorb(self, resp: ApiResponse<Vec<T>>) -> (r: PageStep<T>)
        ensures
            !resp.success ==> (r matches PageStep::Failed(ClientError::Api(m)) && m@
                == resp.failure_text()),
            resp.success && is_last_page(self.page, page_items(resp).len(), resp.result_info) ==> (
            r matches PageStep::Done(v) && v@ == self.items@ + page_items(resp)),
            resp.success && !is_last_page(self.page, page_items(resp).len(), resp.result_info) ==> (
            r matches PageStep::Next(p) && p.page == self.page + 1 && p.per_page == self.per_page
                && p.items@ == self.items@ + page_items(resp)),
            r matches PageStep::Next(_) ==> (resp.result_info matches Some(i) && self.page
                < i.total_pages),
    {
        let info = resp.result_info;
        let ghost items_of_page = page_items(resp);
        let result = match resp.into_checked() {
            Err(e) => return PageStep::Failed(e),
            Ok(r) => r,
        };
        let mut found = match result {
            Some(v) => v,
            None => Vec::new(),
        };
        assert(found@ == items_of_page);
        let last = found.len() == 0 || match info {
            None => true,
            Some(i) => self.page >= i.total_pages,
        };
        let mut items = self.items;
        items.append(&mut found);
        if last {
            PageStep::Done(items)
        } else {
            PageStep::Next(Pager { page: self.page + 1, per_page: self.per_page, items })
        }
    }
}

} // verus!
