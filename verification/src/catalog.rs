//! Catalog discovery: paging through the remote group listing and filtering
//! the collected names.
//!
//! The listing API is paginated by a continuation token.  [`CatalogBuilder`]
//! is the pure state machine of that pagination: it says which request to
//! issue next, folds each response into the collected names, and is done as
//! soon as a response carries no continuation token — so a run costs one
//! request per page.  The first request is a single-item probe; when its
//! response has no token, that page already is the whole catalog and no
//! second request is issued.  After the last page the substring filter is
//! applied: a group is retained exactly when its name contains the filter
//! string, and an empty filter retains every group.
//!
//! The surrounding binary performs the remote calls; a fetch failure while
//! paging is propagated upward unchanged, fatal to startup — the engine
//! does not start without a catalog.

use crate::text::has_substring;
use crate::text::str_contains;
use vstd::prelude::*;

verus! {

/// One listing request: an advisory page size, an optional name prefix to
/// list under, and the continuation token of the previous response, if any.
pub struct PageRequest {
    pub page_size: i64,
    pub name_prefix: Option<String>,
    pub next_token: Option<String>,
}

/// One listing response: the group names of the page, each possibly absent,
/// the whole list possibly absent too; and the continuation token, whose
/// absence signals the end of the pagination.
pub struct PageResponse {
    pub groups: Option<Vec<Option<String>>>,
    pub next_token: Option<String>,
}

/// The names present in one page's group list, in their order.
pub open spec fn named(gs: Seq<Option<Seq<char>>>) -> Seq<Seq<char>>
    decreases gs.len(),
{
    if gs.len() == 0 {
        Seq::empty()
    } else {
        match gs.last() {
            Some(n) => named(gs.drop_last()).push(n),
            None => named(gs.drop_last()),
        }
    }
}

/// The names a whole page response contributes: none when the group list is
/// absent, which is a normal page and not an error.
pub open spec fn page_names(page: PageResponse) -> Seq<Seq<char>> {
    match page.groups {
        None => Seq::empty(),
        Some(gs) => named(gs.deep_view()),
    }
}

/// The names among `names` that contain the filter `f`, in their order.
pub open spec fn retained(names: Seq<Seq<char>>, f: Seq<char>) -> Seq<Seq<char>>
    decreases names.len(),
{
    if names.len() == 0 {
        Seq::empty()
    } else {
        let rest = retained(names.drop_last(), f);
        if has_substring(names.last(), f) {
            rest.push(names.last())
        } else {
            rest
        }
    }
}

/// Where the pagination stands.
pub enum PagingState {
    /// No request issued yet: the next one is the single-item probe.
    Probe,
    /// A response carried this continuation token: the next request passes
    /// it back, at the full page size.
    Continuing(String),
    /// A response carried no continuation token: the listing is complete.
    Complete,
}

/// The pagination state machine that builds the catalog.
pub struct CatalogBuilder {
    /// Name prefix handed to every listing request.
    pub name_prefix: Option<String>,
    /// Advisory size of the first, probing request.
    pub probe_page_size: i64,
    /// Advisory size of every later request.
    pub full_page_size: i64,
    /// The group names collected so far, in arrival order.
    pub collected: Vec<String>,
    /// Where the pagination stands.
    pub state: PagingState,
}

impl CatalogBuilder {
    /// The names collected so far.
    pub open spec fn collected_names(&self) -> Seq<Seq<char>> {
        self.collected.deep_view()
    }

    /// Whether the listing is complete.
    pub open spec fn done(&self) -> bool {
        self.state is Complete
    }

    /// The continuation token the next request must pass back, if any.
    pub open spec fn current_token(&self) -> Option<Seq<char>> {
        match self.state {
            PagingState::Continuing(t) => Some(t@),
            _ => None,
        }
    }

    /// The page sizes are meaningful to the remote service only when positive.
    pub open spec fn wf(&self) -> bool {
        self.probe_page_size >= 1 && self.full_page_size >= 1
    }

    /// A fresh builder: nothing collected, the probe request pending.
    pub fn new(name_prefix: Option<String>, probe_page_size: i64, full_page_size: i64) -> (b:
        CatalogBuilder)
        requires
            probe_page_size >= 1,
            full_page_size >= 1,
        ensures
            b.wf(),
            !b.done(),
            b.state is Probe,
            b.collected_names() == Seq::<Seq<char>>::empty(),
            b.name_prefix.deep_view() == name_prefix.deep_view(),
            b.probe_page_size == probe_page_size,
            b.full_page_size == full_page_size,
    {
        let b = CatalogBuilder {
            name_prefix,
            probe_page_size,
            full_page_size,
            collected: Vec::new(),
            state: PagingState::Probe,
        };
        proof {
            assert(b.collected_names() =~= Seq::<Seq<char>>::empty());
        }
        b
    }

    /// Whether the listing is complete and the filter may be applied.
    pub fn is_done(&self) -> (r: bool)
        ensures
            r == self.done(),
    {
        match &self.state {
            PagingState::Complete => true,
            _ => false,
        }
    }

    /// The next request to issue: the single-item probe first, then full
    /// pages under the last continuation token; none once the listing is
    /// complete, so the pagination issues exactly one request per page.
    pub fn next_request(&self) -> (r: Option<PageRequest>)
        ensures
            r is Some <==> !self.done(),
            r matches Some(req) ==> {
                &&& req.page_size == if self.state is Probe {
                    self.probe_page_size
                } else {
                    self.full_page_size
                }
                &&& req.name_prefix.deep_view() == self.name_prefix.deep_view()
                &&& req.next_token.deep_view() == self.current_token()
            },
    {
        match &self.state {
            PagingState::Probe => Some(
                PageRequest {
                    page_size: self.probe_page_size,
                    name_prefix: clone_opt_string(&self.name_prefix),
                    next_token: None,
                },
            ),
            PagingState::Continuing(t) => Some(
                PageRequest {
                    page_size: self.full_page_size,
                    name_prefix: clone_opt_string(&self.name_prefix),
                    next_token: Some(t.clone()),
                },
            ),
            PagingState::Complete => None,
        }
    }

    /// Fold one page response into the builder: append the page's present
    /// names in order, and be done exactly when the response carries no
    /// continuation token.
    pub fn on_page(&mut self, page: &PageResponse)
        requires
            !old(self).done(),
        ensures
            final(self).wf() == old(self).wf(),
            final(self).collected_names() == old(self).collected_names() + page_names(*page),
            final(self).done() <==> page.next_token is None,
            final(self).current_token() == page.next_token.deep_view(),
            final(self).name_prefix == old(self).name_prefix,
            final(self).probe_page_size == old(self).probe_page_size,
            final(self).full_page_size == old(self).full_page_size,
    {
        match &page.groups {
            None => {
                proof {
                    assert(self.collected_names() =~= self.collected_names() + page_names(*page));
                }
            },
            Some(gs) => {
                let ghost gsv = gs.deep_view();
                let mut k: usize = 0;
                while k < gs.len()
                    invariant
                        k <= gs.len(),
                        gsv == gs.deep_view(),
                        self.collected_names() == old(self).collected_names() + named(
                            gsv.subrange(0, k as int),
                        ),
                        self.name_prefix == old(self).name_prefix,
                        self.probe_page_size == old(self).probe_page_size,
                        self.full_page_size == old(self).full_page_size,
                        self.state == old(self).state,
                    decreases gs.len() - k,
                {
                    proof {
                        assert(gsv.subrange(0, k + 1).drop_last() =~= gsv.subrange(0, k as int));
                        assert(gsv.subrange(0, k + 1).last() == gsv[k as int]);
                    }
                    match &gs[k] {
                        Some(name) => {
                            let ghost pre = self.collected.deep_view();
                            proof {
                                assert(gsv[k as int] == Some(name@));
                            }
                            self.collected.push(name.clone());
                            proof {
                                assert(self.collected.deep_view() =~= pre.push(name@));
                                assert(named(gsv.subrange(0, k + 1)) == named(
                                    gsv.subrange(0, k as int),
                                ).push(name@));
                                assert(old(self).collected_names() + named(gsv.subrange(0, k + 1))
                                    =~= pre.push(name@));
                            }
                        },
                        None => {
                            proof {
                                assert(gsv[k as int] == None::<Seq<char>>);
                                assert(self.collected_names() =~= old(self).collected_names()
                                    + named(gsv.subrange(0, k + 1)));
                            }
                        },
                    }
                    k += 1;
                }
                proof {
                    assert(gsv.subrange(0, gs.len() as int) =~= gsv);
                }
            },
        }
        match &page.next_token {
            None => {
                self.state = PagingState::Complete;
            },
            Some(t) => {
                self.state = PagingState::Continuing(t.clone());
            },
        }
    }

    /// Apply the substring filter to the collected names: the catalog holds
    /// exactly the collected names that contain `filter`, in their order of
    /// arrival; the empty filter retains every name.
    pub fn finish(&self, filter: &str) -> (catalog: Vec<String>)
        requires
            self.done(),
        ensures
            catalog.deep_view() == retained(self.collected_names(), filter@),
    {
        let mut catalog: Vec<String> = Vec::new();
        let mut k: usize = 0;
        proof {
            assert(catalog.deep_view() =~= retained(
                self.collected_names().subrange(0, 0),
                filter@,
            ));
        }
        while k < self.collected.len()
            invariant
                k <= self.collected.len(),
                catalog.deep_view() == retained(
                    self.collected_names().subrange(0, k as int),
                    filter@,
                ),
            decreases self.collected.len() - k,
        {
            let ghost names = self.collected_names();
            proof {
                assert(names.subrange(0, k + 1).drop_last() =~= names.subrange(0, k as int));
                assert(names.subrange(0, k + 1).last() == names[k as int]);
            }
            if str_contains(self.collected[k].as_str(), filter) {
                catalog.push(self.collected[k].clone());
                proof {
                    assert(catalog.deep_view() =~= retained(names.subrange(0, k + 1), filter@));
                }
            } else {
                proof {
                    assert(catalog.deep_view() =~= retained(names.subrange(0, k + 1), filter@));
                }
            }
            k += 1;
        }
        proof {
            assert(self.collected_names().subrange(0, self.collected.len() as int)
                =~= self.collected_names());
        }
        catalog
    }
}

/// Copy an optional string by value.
fn clone_opt_string(o: &Option<String>) -> (r: Option<String>)
    ensures
        r.deep_view() == o.deep_view(),
{
    match o {
        Some(s) => Some(s.clone()),
        None => None,
    }
}

/// Law: the filter is exact.  A name stands in the filtered catalog if and
/// only if it was collected and contains the filter string; in particular an
/// empty filter retains exactly the collected names.
pub proof fn lemma_retained_exact(names: Seq<Seq<char>>, f: Seq<char>)
    ensures
        forall|x: Seq<char>| #[trigger]
            retained(names, f).contains(x) <==> names.contains(x) && has_substring(x, f),
    decreases names.len(),
{
    broadcast use vstd::seq_lib::lemma_seq_contains_after_push;

    if names.len() > 0 {
        lemma_retained_exact(names.drop_last(), f);
        assert forall|x: Seq<char>| #[trigger]
            retained(names, f).contains(x) <==> names.contains(x) && has_substring(x, f) by {
            let d = names.drop_last();
            let l = names.last();
            assert(names =~= d.push(l));
            assert(d.push(l).contains(x) <==> l == x || d.contains(x));
            if has_substring(l, f) {
                assert(retained(names, f) == retained(d, f).push(l));
                assert(retained(d, f).push(l).contains(x) <==> l == x || retained(d, f).contains(
                    x,
                ));
            } else {
                assert(retained(names, f) == retained(d, f));
            }
        }
    }
}

} // verus!
