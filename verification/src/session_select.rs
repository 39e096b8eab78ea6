//! Choosing one of the candidates of a reading, page by page.
use vstd::prelude::*;
use vstd::string::*;
use crate::paging;
use crate::paging::{pages_of, start_of_page};
use crate::session::{
    CandidateModel, CandidateView, CandidateViewSource, ListModel, SessionModel, SessionState,
    candidate_views_from_strings,
};
use crate::text;
use crate::text::long_decimal_text;

verus! {

/// How many candidates one page shows.
pub const PAGE_SIZE: usize = 9;

impl ListModel {
    /// A candidate list as it is first shown: the first candidate is chosen.
    pub open spec fn first_shown(
        candidates: Seq<Seq<char>>,
        original_preedit: Seq<char>,
        pos_x: i32,
        pos_y: i32,
        llm_pending: bool,
        prefix: Seq<char>,
        prefix_reading: Seq<char>,
        remainder: Seq<char>,
        remainder_reading: Seq<char>,
    ) -> ListModel {
        ListModel {
            original_preedit,
            candidates,
            candidate_views: crate::session::uniform_views(
                candidates,
                original_preedit.len(),
                remainder,
                CandidateViewSource::Bg,
            ),
            selected: 0,
            page_size: PAGE_SIZE,
            llm_pending,
            pos_x,
            pos_y,
            punct_pending: None,
            prefix,
            prefix_reading,
            remainder,
            remainder_reading,
        }
    }

    pub open spec fn len(self) -> int {
        self.candidate_views.len() as int
    }

    pub open spec fn with_selected(self, index: int) -> ListModel {
        ListModel { selected: index as usize, ..self }
    }

    /// The chosen candidate, as it is shown.
    pub open spec fn current_view(self) -> Option<CandidateModel> {
        if self.selected < self.len() {
            Some(self.candidate_views[self.selected as int])
        } else {
            None
        }
    }

    pub open spec fn after_replace_current(self, view: CandidateModel) -> ListModel {
        ListModel {
            candidates: if self.selected < self.candidates.len() {
                self.candidates.update(self.selected as int, view.text)
            } else {
                self.candidates
            },
            candidate_views: if self.selected < self.len() {
                self.candidate_views.update(self.selected as int, view)
            } else {
                self.candidate_views
            },
            ..self
        }
    }

    pub open spec fn after_rebuild_views(self, source: CandidateViewSource) -> ListModel {
        ListModel {
            candidate_views: crate::session::uniform_views(
                self.candidates,
                self.original_preedit.len(),
                self.remainder,
                source,
            ),
            ..self
        }
    }

    /// New candidates take the place of the old ones; the choice keeps its index
    /// where the new list is long enough, and else moves to the last entry.
    pub open spec fn after_replace_candidates(
        self,
        candidates: Seq<Seq<char>>,
        source: CandidateViewSource,
    ) -> ListModel {
        ListModel {
            candidates,
            selected: if self.selected < candidates.len() {
                self.selected
            } else if candidates.len() == 0 {
                0
            } else {
                (candidates.len() - 1) as usize
            },
            ..self
        }.after_rebuild_views(source)
    }

    pub open spec fn page_number(self) -> int {
        self.selected as int / self.page_size as int
    }

    pub open spec fn page_total(self) -> int {
        paging::page_count(self.len(), self.page_size as int)
    }

    /// The first entry of the page in view.
    pub open spec fn page_first(self) -> int {
        paging::page_start(self.selected as int, self.page_size as int)
    }

    /// The entry behind the last one of the page in view.
    pub open spec fn page_last(self) -> int {
        if self.page_first() + self.page_size <= self.len() {
            self.page_first() + self.page_size
        } else {
            self.len()
        }
    }

    /// The texts of the page in view.
    pub open spec fn page_texts(self) -> Seq<Seq<char>> {
        Seq::new(
            (self.page_last() - self.page_first()) as nat,
            |i: int| self.candidate_views[self.page_first() + i].text,
        )
    }

    /// "2/5", or nothing where one page holds the list.
    pub open spec fn page_label(self) -> Seq<char> {
        if self.page_total() <= 1 {
            Seq::empty()
        } else {
            text::decimal((self.page_number() + 1) as nat) + seq!['/'] + text::decimal(
                self.page_total() as nat,
            )
        }
    }

    /// The next entry; behind the last entry the list begins again.
    pub open spec fn next_index(self) -> int {
        (self.selected + 1) % self.len()
    }

    /// One step forward. A step that leaves the page leads to the first entry of
    /// the page that it reaches.
    pub open spec fn after_next(self) -> ListModel {
        if self.len() == 0 {
            self
        } else if self.next_index() / self.page_size as int != self.page_number() {
            self.with_selected(paging::page_start(self.next_index(), self.page_size as int))
        } else {
            self.with_selected(self.next_index())
        }
    }

    /// One step back; before the first entry comes the last one.
    pub open spec fn after_prev(self) -> ListModel {
        if self.len() == 0 {
            self
        } else if self.selected == 0 {
            self.with_selected(self.len() - 1)
        } else {
            self.with_selected(self.selected - 1)
        }
    }

    /// The first entry of the next page, round to the first page.
    pub open spec fn after_next_page(self) -> ListModel {
        if self.len() == 0 {
            self
        } else {
            self.with_selected(((self.page_number() + 1) % self.page_total()) * self.page_size)
        }
    }

    /// The first entry of the page before, round to the last page.
    pub open spec fn after_prev_page(self) -> ListModel {
        if self.len() == 0 {
            self
        } else if self.page_number() == 0 {
            self.with_selected((self.page_total() - 1) * self.page_size)
        } else {
            self.with_selected((self.page_number() - 1) * self.page_size)
        }
    }

    /// Whether entry `n` of the page in view, counted from one, is in the list.
    pub open spec fn has_nth(self, n: int) -> bool {
        1 <= n && self.page_first() + (n - 1) < self.len()
    }

    pub open spec fn after_select_nth(self, n: int) -> ListModel {
        if self.has_nth(n) {
            self.with_selected(self.page_first() + (n - 1))
        } else {
            self
        }
    }
}

impl SessionModel {
    /// Every candidate list is shown in pages of at least one entry.
    pub open spec fn has_pages(self) -> bool {
        self is Selecting ==> self->list.page_size > 0
    }

    /// The same session with `f` applied to its candidate list, if it has one.
    pub open spec fn map_list(self, f: spec_fn(ListModel) -> ListModel) -> SessionModel {
        match self {
            SessionModel::Selecting { list } => SessionModel::Selecting { list: f(list) },
            _ => self,
        }
    }

    /// The chosen candidate of a candidate list.
    pub open spec fn current_view(self) -> Option<CandidateModel> {
        match self {
            SessionModel::Selecting { list } => list.current_view(),
            _ => None,
        }
    }

    /// The text of the chosen candidate.
    pub open spec fn current_text(self) -> Option<Seq<char>> {
        match self.current_view() {
            Some(v) => Some(v.text),
            None => None,
        }
    }

    pub open spec fn list_remainder(self) -> Seq<char> {
        match self {
            SessionModel::Selecting { list } => list.remainder,
            _ => Seq::empty(),
        }
    }

    pub open spec fn list_remainder_reading(self) -> Seq<char> {
        match self {
            SessionModel::Selecting { list } => list.remainder_reading,
            _ => Seq::empty(),
        }
    }

    pub open spec fn list_prefix(self) -> Seq<char> {
        match self {
            SessionModel::Selecting { list } => list.prefix,
            _ => Seq::empty(),
        }
    }

    pub open spec fn list_prefix_reading(self) -> Seq<char> {
        match self {
            SessionModel::Selecting { list } => list.prefix_reading,
            _ => Seq::empty(),
        }
    }

    pub open spec fn list_punct(self) -> Option<char> {
        match self {
            SessionModel::Selecting { list } => list.punct_pending,
            _ => None,
        }
    }
}


impl SessionState {
    pub fn activate_selecting(
        &mut self,
        candidates: Vec<String>,
        original_preedit: String,
        pos_x: i32,
        pos_y: i32,
        llm_pending: bool,
    )
        ensures
            final(self)@ == (SessionModel::Selecting {
                list: ListModel::first_shown(
                    text::texts(candidates@),
                    original_preedit@,
                    pos_x,
                    pos_y,
                    llm_pending,
                    Seq::empty(),
                    Seq::empty(),
                    Seq::empty(),
                    Seq::empty(),
                ),
            }),
            final(self)@.well_formed(),
            final(self)@.selecting_flag(),
    {
        self.activate_selecting_with_affixes(
            candidates,
            original_preedit,
            pos_x,
            pos_y,
            llm_pending,
            String::new(),
            String::new(),
            String::new(),
            String::new(),
        );
    }

    pub fn activate_selecting_with_affixes(
        &mut self,
        candidates: Vec<String>,
        original_preedit: String,
        pos_x: i32,
        pos_y: i32,
        llm_pending: bool,
        prefix: String,
        prefix_reading: String,
        remainder: String,
        remainder_reading: String,
    )
        ensures
            final(self)@ == (SessionModel::Selecting {
                list: ListModel::first_shown(
                    text::texts(candidates@),
                    original_preedit@,
                    pos_x,
                    pos_y,
                    llm_pending,
                    prefix@,
                    prefix_reading@,
                    remainder@,
                    remainder_reading@,
                ),
            }),
            final(self)@.well_formed(),
            final(self)@.selecting_flag(),
    {
        let candidate_views = candidate_views_from_strings(
            &candidates,
            original_preedit.as_str().unicode_len(),
            remainder.as_str(),
            CandidateViewSource::Bg,
        );
        *self =
        SessionState::Selecting {
            original_preedit,
            candidates,
            candidate_views,
            selected: 0,
            page_size: PAGE_SIZE,
            llm_pending,
            pos_x,
            pos_y,
            punct_pending: None,
            prefix,
            prefix_reading,
            remainder,
            remainder_reading,
        };
    }

    pub fn is_selecting(&self) -> (r: bool)
        ensures
            r == (self@ is Selecting),
    {
        match self {
            SessionState::Selecting { .. } => true,
            _ => false,
        }
    }

    /// Whether a candidate list or a row of blocks is shown.
    pub fn is_candidate_list_active(&self) -> (r: bool)
        ensures
            r == (self@ is Selecting || self@ is BlockSelecting),
    {
        match self {
            SessionState::Selecting { .. } => true,
            SessionState::BlockSelecting { .. } => true,
            _ => false,
        }
    }

    pub fn current_candidate(&self) -> (r: Option<&str>)
        ensures
            text::opt_text(r) == self@.current_text(),
    {
        match self {
            SessionState::Selecting { candidate_views, selected, .. } => {
                if *selected < candidate_views.len() {
                    Some(candidate_views[*selected].text.as_str())
                } else {
                    None
                }
            },
            _ => None,
        }
    }

    pub fn current_candidate_view(&self) -> (r: Option<&CandidateView>)
        ensures
            match r {
                Some(v) => self@.current_view() == Some(v@),
                None => self@.current_view() is None,
            },
    {
        match self {
            SessionState::Selecting { candidate_views, selected, .. } => {
                if *selected < candidate_views.len() {
                    Some(&candidate_views[*selected])
                } else {
                    None
                }
            },
            _ => None,
        }
    }

    /// Puts another candidate in the place of the chosen one.
    pub fn replace_current_candidate_view(&mut self, view: CandidateView)
        ensures
            final(self)@ == old(self)@.map_list(|l: ListModel| l.after_replace_current(view@)),
            old(self)@.well_formed() ==> final(self)@.well_formed(),
    {
        if let SessionState::Selecting { candidates, candidate_views, selected, .. } = self {
            let ghost texts0 = text::texts(candidates@);
            let ghost views0 = crate::session::view_models(candidate_views@);
            if *selected < candidates.len() {
                candidates[*selected] = view.text.clone();
                assert(text::texts(candidates@) =~= texts0.update(*selected as int, view@.text));
            }
            if *selected < candidate_views.len() {
                candidate_views[*selected] = view;
                assert(crate::session::view_models(candidate_views@) =~= views0.update(
                    *selected as int,
                    view@,
                ));
            }
        }
    }

    /// Hands out what is left unconverted, and leaves nothing of it.
    pub fn take_selecting_remainder(&mut self) -> (r: String)
        ensures
            r@ == old(self)@.list_remainder(),
            final(self)@ == old(self)@.map_list(
                |l: ListModel| ListModel { remainder: Seq::empty(), ..l },
            ),
            old(self)@.well_formed() ==> final(self)@.well_formed(),
    {
        let mut taken = String::new();
        if let SessionState::Selecting { remainder, .. } = self {
            std::mem::swap(&mut taken, remainder);
        }
        taken
    }

    pub fn selecting_remainder_clone(&self) -> (r: String)
        ensures
            r@ == self@.list_remainder(),
    {
        match self {
            SessionState::Selecting { remainder, .. } => remainder.clone(),
            _ => String::new(),
        }
    }

    pub fn selecting_remainder_reading_clone(&self) -> (r: String)
        ensures
            r@ == self@.list_remainder_reading(),
    {
        match self {
            SessionState::Selecting { remainder_reading, .. } => remainder_reading.clone(),
            _ => String::new(),
        }
    }

    pub fn selecting_prefix_clone(&self) -> (r: String)
        ensures
            r@ == self@.list_prefix(),
    {
        match self {
            SessionState::Selecting { prefix, .. } => prefix.clone(),
            _ => String::new(),
        }
    }

    pub fn selecting_prefix_reading_clone(&self) -> (r: String)
        ensures
            r@ == self@.list_prefix_reading(),
    {
        match self {
            SessionState::Selecting { prefix_reading, .. } => prefix_reading.clone(),
            _ => String::new(),
        }
    }

    /// The number of the page in view, counted from zero.
    pub fn current_page(&self) -> (r: usize)
        requires
            self@.has_pages(),
        ensures
            r == (match self@ {
                SessionModel::Selecting { list } => list.page_number(),
                _ => 0,
            }),
    {
        match self {
            SessionState::Selecting { selected, page_size, .. } => {
                proof {
                    paging::lemma_page_start(*selected as int, *page_size as int);
                }
                *selected / *page_size
            },
            _ => 0,
        }
    }

    pub fn total_pages(&self) -> (r: usize)
        requires
            self@.has_pages(),
        ensures
            r == (match self@ {
                SessionModel::Selecting { list } => list.page_total(),
                _ => 0,
            }),
    {
        match self {
            SessionState::Selecting { candidate_views, page_size, .. } => pages_of(
                candidate_views.len(),
                *page_size,
            ),
            _ => 0,
        }
    }

    /// The texts of the page in view.
    pub fn page_candidates(&self) -> (r: Vec<String>)
        requires
            self@.has_pages(),
            self@ is Selecting && self@->list.len() > 0 ==> self@->list.page_first()
                <= self@->list.len(),
        ensures
            text::texts(r@) == (match self@ {
                SessionModel::Selecting { list } if list.len() > 0 => list.page_texts(),
                _ => Seq::empty(),
            }),
    {
        let mut r: Vec<String> = Vec::new();
        match self {
            SessionState::Selecting { candidate_views, selected, page_size, .. } => {
                let len: usize = candidate_views.len();
                if len > 0 {
                    let start: usize = start_of_page(*selected, *page_size);
                    let end: usize = if len - start <= *page_size {
                        len
                    } else {
                        start + *page_size
                    };
                    let mut i: usize = start;
                    while i < end
                        invariant
                            start <= i <= end <= candidate_views@.len(),
                            r@.len() == i - start,
                            forall|k: int|
                                0 <= k < r@.len() ==> (#[trigger] r@[k])@ == candidate_views@[start
                                    + k].text@,
                        decreases end - i,
                    {
                        r.push(candidate_views[i].text.clone());
                        i = i + 1;
                    }
                    assert(text::texts(r@) =~= self@->list.page_texts());
                } else {
                    assert(text::texts(r@) =~= Seq::empty());
                }
            },
            _ => {
                assert(text::texts(r@) =~= Seq::empty());
            },
        }
        r
    }

    pub fn replace_selecting_candidates(
        &mut self,
        new_candidates: Vec<String>,
        source: CandidateViewSource,
    )
        ensures
            final(self)@ == old(self)@.map_list(
                |l: ListModel| l.after_replace_candidates(text::texts(new_candidates@), source),
            ),
            old(self)@.well_formed() ==> final(self)@.well_formed(),
    {
        if let SessionState::Selecting {
            original_preedit,
            candidates,
            candidate_views,
            selected,
            remainder,
            ..
        } = self {
            let views = candidate_views_from_strings(
                &new_candidates,
                original_preedit.as_str().unicode_len(),
                remainder.as_str(),
                source,
            );
            let len: usize = new_candidates.len();
            *candidate_views = views;
            *candidates = new_candidates;
            if *selected >= len {
                *selected = if len == 0 {
                    0
                } else {
                    len - 1
                };
            }
        }
    }

    pub fn rebuild_selecting_candidate_views(&mut self, source: CandidateViewSource)
        ensures
            final(self)@ == old(self)@.map_list(|l: ListModel| l.after_rebuild_views(source)),
            old(self)@.well_formed() ==> final(self)@.well_formed(),
    {
        if let SessionState::Selecting {
            original_preedit,
            candidates,
            candidate_views,
            remainder,
            ..
        } = self {
            let views = candidate_views_from_strings(
                candidates,
                original_preedit.as_str().unicode_len(),
                remainder.as_str(),
                source,
            );
            *candidate_views = views;
        }
    }

    /// The place of the chosen candidate on its page, counted from zero.
    pub fn page_selected(&self) -> (r: usize)
        requires
            self@.has_pages(),
        ensures
            r == (match self@ {
                SessionModel::Selecting { list } => list.selected - list.page_first(),
                _ => 0,
            }),
    {
        match self {
            SessionState::Selecting { selected, page_size, .. } => {
                proof {
                    paging::lemma_page_start(*selected as int, *page_size as int);
                }
                *selected % *page_size
            },
            _ => 0,
        }
    }

    pub fn page_info(&self) -> (r: String)
        requires
            self@.has_pages(),
        ensures
            r@ == (match self@ {
                SessionModel::Selecting { list } => list.page_label(),
                _ => Seq::empty(),
            }),
    {
        let total: usize = self.total_pages();
        if total <= 1 {
            String::new()
        } else {
            let page: usize = self.current_page();
            let mut r = long_decimal_text(page as u128 + 1);
            r.append("/");
            r.append(long_decimal_text(total as u128).as_str());
            proof {
                reveal_strlit("/");
                assert("/"@ =~= seq!['/']);
            }
            r
        }
    }

    pub fn next_with_page_wrap(&mut self)
        requires
            old(self)@.has_pages(),
        ensures
            final(self)@ == old(self)@.map_list(|l: ListModel| l.after_next()),
            old(self)@.well_formed() ==> final(self)@.well_formed(),
    {
        if let SessionState::Selecting { candidate_views, selected, page_size, .. } = self {
            let len: usize = candidate_views.len();
            if len == 0 {
                return;
            }
            let next: usize = successor_in(*selected, len);
            let start: usize = start_of_page(next, *page_size);
            if next / *page_size != *selected / *page_size {
                *selected = start;
            } else {
                *selected = next;
            }
        }
    }

    pub fn prev(&mut self)
        ensures
            final(self)@ == old(self)@.map_list(|l: ListModel| l.after_prev()),
            old(self)@.well_formed() ==> final(self)@.well_formed(),
    {
        if let SessionState::Selecting { candidate_views, selected, .. } = self {
            let len: usize = candidate_views.len();
            if len == 0 {
                return;
            }
            if *selected == 0 {
                *selected = len - 1;
            } else {
                *selected = *selected - 1;
            }
        }
    }

    pub fn next_page(&mut self)
        requires
            old(self)@.has_pages(),
        ensures
            final(self)@ == old(self)@.map_list(|l: ListModel| l.after_next_page()),
            old(self)@.well_formed() ==> final(self)@.well_formed(),
    {
        if let SessionState::Selecting { candidate_views, selected, page_size, .. } = self {
            let len: usize = candidate_views.len();
            if len == 0 {
                return;
            }
            let total: usize = pages_of(len, *page_size);
            proof {
                paging::lemma_page_count_positive(len as int, *page_size as int);
                paging::lemma_page_start(*selected as int, *page_size as int);
            }
            let next: usize = successor_in(*selected / *page_size, total);
            proof {
                paging::lemma_page_in_list(next as int, len as int, *page_size as int);
            }
            *selected = next * *page_size;
        }
    }

    pub fn prev_page(&mut self)
        requires
            old(self)@.has_pages(),
        ensures
            final(self)@ == old(self)@.map_list(|l: ListModel| l.after_prev_page()),
            old(self)@.well_formed() ==> final(self)@.well_formed(),
    {
        if let SessionState::Selecting { candidate_views, selected, page_size, .. } = self {
            let len: usize = candidate_views.len();
            if len == 0 {
                return;
            }
            let total: usize = pages_of(len, *page_size);
            proof {
                paging::lemma_page_count_positive(len as int, *page_size as int);
                paging::lemma_page_start(*selected as int, *page_size as int);
            }
            let page: usize = *selected / *page_size;
            let before: usize = if page == 0 {
                total - 1
            } else {
                page - 1
            };
            proof {
                if page == 0 {
                    paging::lemma_page_in_list(before as int, len as int, *page_size as int);
                } else {
                    vstd::arithmetic::mul::lemma_mul_inequality(
                        before as int,
                        page as int,
                        *page_size as int,
                    );
                    vstd::arithmetic::mul::lemma_mul_nonnegative(before as int, *page_size as int);
                }
            }
            *selected = before * *page_size;
        }
    }

    /// Chooses entry `n` of the page in view, counted from one; tells whether it is there.
    pub fn select_nth_in_page(&mut self, n: usize) -> (r: bool)
        requires
            old(self)@.has_pages(),
        ensures
            r == (old(self)@ is Selecting && old(self)@->list.has_nth(n as int)),
            final(self)@ == old(self)@.map_list(|l: ListModel| l.after_select_nth(n as int)),
            old(self)@.well_formed() ==> final(self)@.well_formed(),
    {
        if n < 1 {
            return false;
        }
        if let SessionState::Selecting { candidate_views, selected, page_size, .. } = self {
            let len: usize = candidate_views.len();
            let start: usize = start_of_page(*selected, *page_size);
            if start < len && n - 1 < len - start {
                *selected = start + (n - 1);
                return true;
            }
        }
        false
    }

    /// The model has given all its candidates.
    pub fn clear_llm_pending(&mut self)
        ensures
            final(self)@ == old(self)@.map_list(|l: ListModel| ListModel { llm_pending: false, ..l }),
            old(self)@.well_formed() ==> final(self)@.well_formed(),
    {
        if let SessionState::Selecting { llm_pending, .. } = self {
            *llm_pending = false;
        }
    }

    /// Hands out the punctuation that was held back, and leaves none.
    pub fn take_punct_pending(&mut self) -> (r: Option<char>)
        ensures
            r == old(self)@.list_punct(),
            final(self)@ == old(self)@.map_list(
                |l: ListModel| ListModel { punct_pending: None, ..l },
            ),
            old(self)@.well_formed() ==> final(self)@.well_formed(),
    {
        if let SessionState::Selecting { punct_pending, .. } = self {
            let taken = *punct_pending;
            *punct_pending = None;
            taken
        } else {
            None
        }
    }
}

/// The index behind `i` on a ring of `n` places.
pub(crate) fn successor_in(i: usize, n: usize) -> (r: usize)
    requires
        n > 0,
    ensures
        r == (i + 1) % n as int,
        r < n,
{
    let place: usize = i % n;
    proof {
        vstd::arithmetic::div_mod::lemma_add_mod_noop(i as int, 1, n as int);
        vstd::arithmetic::div_mod::lemma_add_mod_noop(place as int, 1, n as int);
        vstd::arithmetic::div_mod::lemma_mod_twice(i as int, n as int);
    }
    if place == n - 1 {
        proof {
            vstd::arithmetic::div_mod::lemma_mod_self_0(n as int);
        }
        0
    } else {
        proof {
            vstd::arithmetic::div_mod::lemma_small_mod((place + 1) as nat, n as nat);
        }
        place + 1
    }
}


/// The chosen candidate stands on the page in view, at the place that is marked
/// as chosen, and no page is longer than its size.
pub proof fn chosen_candidate_is_on_its_page(list: ListModel)
    requires
        list.well_formed(),
        list.len() > 0,
    ensures
        0 <= list.selected - list.page_first() < list.page_texts().len() <= list.page_size,
        list.current_view() is Some,
        list.page_texts()[list.selected - list.page_first()] == list.current_view()->0.text,
        0 <= list.page_number() < list.page_total(),
{
    paging::lemma_page_start(list.selected as int, list.page_size as int);
    paging::lemma_entry_page(list.selected as int, list.len(), list.page_size as int);
}

/// A step forward goes to the next candidate, from the last one to the first: page
/// borders are crossed without leaving out a candidate.
pub proof fn next_visits_every_candidate(list: ListModel)
    requires
        list.well_formed(),
        list.len() > 0,
        list.len() <= usize::MAX,
    ensures
        list.after_next().selected == (if list.selected + 1 < list.len() {
            list.selected + 1
        } else {
            0
        }),
{
    let size = list.page_size as int;
    let i = list.selected as int;
    if i + 1 < list.len() {
        vstd::arithmetic::div_mod::lemma_small_mod((i + 1) as nat, list.len() as nat);
        if (i + 1) / size != i / size {
            paging::lemma_page_start(i, size);
            paging::lemma_page_start(i + 1, size);
            let p = i / size;
            let q = (i + 1) / size;
            vstd::arithmetic::div_mod::lemma_div_is_ordered(i, i + 1, size);
            vstd::arithmetic::mul::lemma_mul_inequality(p + 1, q, size);
            vstd::arithmetic::mul::lemma_mul_is_distributive_add_other_way(size, p, 1);
        }
    } else {
        vstd::arithmetic::div_mod::lemma_mod_self_0(list.len());
        paging::lemma_page_start(0, size);
    }
}

/// A step back undoes a step forward, and the other way round.
pub proof fn next_and_prev_undo_each_other(list: ListModel)
    requires
        list.well_formed(),
        list.len() <= usize::MAX,
    ensures
        list.after_next().after_prev() == list,
        list.after_prev().after_next() == list,
{
    if list.len() > 0 {
        next_visits_every_candidate(list);
        next_visits_every_candidate(list.after_prev());
    }
}

/// Turning the page leads to the first entry of the page before or behind, round
/// the list, and turning it back leads to the first entry of the page left.
pub proof fn pages_turn_round(list: ListModel)
    requires
        list.well_formed(),
        0 < list.len() <= usize::MAX,
    ensures
        list.after_next_page().page_number() == (if list.page_number() + 1 < list.page_total() {
            list.page_number() + 1
        } else {
            0
        }),
        list.after_prev_page().page_number() == (if list.page_number() == 0 {
            list.page_total() - 1
        } else {
            list.page_number() - 1
        }),
        list.after_next_page().page_first() == list.after_next_page().selected,
        list.after_prev_page().page_first() == list.after_prev_page().selected,
        list.after_next_page().after_prev_page().selected == list.page_first(),
        list.after_prev_page().after_next_page().selected == list.page_first(),
        list.after_next_page().well_formed(),
        list.after_prev_page().well_formed(),
{
    let size = list.page_size as int;
    let total = list.page_total();
    paging::lemma_entry_page(list.selected as int, list.len(), size);
    let page = list.page_number();
    let next = if page + 1 < total {
        page + 1
    } else {
        0
    };
    let before = if page == 0 {
        total - 1
    } else {
        page - 1
    };
    if page + 1 < total {
        vstd::arithmetic::div_mod::lemma_small_mod((page + 1) as nat, total as nat);
    } else {
        vstd::arithmetic::div_mod::lemma_mod_self_0(total);
    }
    if before + 1 < total {
        vstd::arithmetic::div_mod::lemma_small_mod((before + 1) as nat, total as nat);
    } else {
        vstd::arithmetic::div_mod::lemma_mod_self_0(total);
    }
    paging::lemma_page_in_list(page, list.len(), size);
    paging::lemma_page_in_list(next, list.len(), size);
    paging::lemma_page_in_list(before, list.len(), size);
    assert(list.after_next_page().selected == next * size);
    assert(list.after_prev_page().selected == before * size);
}

/// New candidates keep the chosen index where they reach it, and the choice is
/// always inside the new list.
pub proof fn replacing_candidates_keeps_the_choice(
    list: ListModel,
    candidates: Seq<Seq<char>>,
    source: CandidateViewSource,
)
    requires
        list.page_size > 0,
        candidates.len() <= usize::MAX,
    ensures
        list.after_replace_candidates(candidates, source).well_formed(),
        list.selected < candidates.len() ==> list.after_replace_candidates(
            candidates,
            source,
        ).selected == list.selected,
        0 < candidates.len() <= list.selected ==> list.after_replace_candidates(
            candidates,
            source,
        ).selected == candidates.len() - 1,
        list.after_replace_candidates(candidates, source).original_preedit
            == list.original_preedit,
{
}

/// A number key takes the entry that carries this number on the page in view: the
/// page stays in view, nothing but the choice changes, and a number that no entry
/// of the list has changes nothing at all.
pub proof fn numbers_choose_what_the_page_shows(list: ListModel, n: int)
    requires
        list.well_formed(),
        list.len() <= usize::MAX,
    ensures
        1 <= n <= list.page_texts().len() ==> {
            &&& list.has_nth(n)
            &&& list.after_select_nth(n).shown_text() == list.page_texts()[n - 1]
            &&& list.after_select_nth(n).page_first() == list.page_first()
            &&& list.after_select_nth(n).page_texts() == list.page_texts()
        },
        list.has_nth(n) ==> list.after_select_nth(n).selected < list.len(),
        list.page_texts().len() < n <= list.page_size ==> !list.has_nth(n),
        n <= 0 ==> !list.has_nth(n),
        !list.has_nth(n) ==> list.after_select_nth(n) == list,
        list.after_select_nth(n) == (ListModel {
            selected: list.after_select_nth(n).selected,
            ..list
        }),
{
    let size = list.page_size as int;
    paging::lemma_page_start(list.selected as int, size);
    if 1 <= n <= list.page_texts().len() {
        let i = list.page_first() + (n - 1);
        let p = list.selected as int / size;
        vstd::arithmetic::div_mod::lemma_fundamental_div_mod_converse(i, size, p, n - 1);
        vstd::arithmetic::mul::lemma_mul_is_commutative(p, size);
        assert(list.after_select_nth(n).selected == i);
        assert(list.after_select_nth(n).page_texts() =~= list.page_texts());
    }
}

/// The pages show the whole list in order, each entry on one page: page `p` shows
/// the entries from `p` page sizes on, as many as a page holds or are left.
pub proof fn pages_show_the_list_in_order(list: ListModel, i: int)
    requires
        list.well_formed(),
        0 <= i < list.page_texts().len(),
    ensures
        list.page_number() * list.page_size + i < list.candidates.len(),
        list.page_texts()[i] == list.candidates[list.page_number() * list.page_size + i],
        list.page_number() * list.page_size <= list.selected < (list.page_number() + 1)
            * list.page_size,
        list.page_texts().len() <= list.page_size,
        list.page_texts().len() == list.page_size || list.page_number() * list.page_size
            + list.page_texts().len() == list.candidates.len(),
        (list.page_total() - 1) * list.page_size < list.candidates.len() <= list.page_total()
            * list.page_size,
{
    let size = list.page_size as int;
    let p = list.page_number();
    paging::lemma_page_start(list.selected as int, size);
    vstd::arithmetic::mul::lemma_mul_is_distributive_add_other_way(size, p, 1);
    let n = list.len();
    paging::lemma_page_start(n, size);
    let q = n / size;
    vstd::arithmetic::mul::lemma_mul_is_distributive_add_other_way(size, q, 1);
    vstd::arithmetic::mul::lemma_mul_is_distributive_sub_other_way(size, q, 1);
}

/// A list of more than one page is labelled with the number of the page in view,
/// counted from one, and the number of pages; a list of one page is not labelled.
pub proof fn labels_count_the_pages(list: ListModel, page: nat, total: nat)
    requires
        list.well_formed(),
        list.len() > 0,
        page * list.page_size <= list.selected < (page + 1) * list.page_size,
        total > 0,
        (total - 1) * list.page_size < list.candidates.len() <= total * list.page_size,
    ensures
        total == 1 ==> list.page_label().len() == 0,
        total > 1 ==> list.page_label() == text::decimal(page + 1).push('/') + text::decimal(total),
{
    let size = list.page_size as int;
    let s = list.selected as int;
    let n = list.len();
    vstd::arithmetic::mul::lemma_mul_is_distributive_add_other_way(size, page as int, 1);
    vstd::arithmetic::mul::lemma_mul_is_commutative(page as int, size);
    vstd::arithmetic::div_mod::lemma_fundamental_div_mod_converse(s, size, page as int, s - page * size);
    paging::lemma_page_start(n, size);
    let q = n / size;
    vstd::arithmetic::mul::lemma_mul_is_distributive_sub_other_way(size, total as int, 1);
    if n == total * size {
        vstd::arithmetic::mul::lemma_mul_is_commutative(total as int, size);
        vstd::arithmetic::div_mod::lemma_fundamental_div_mod_converse(n, size, total as int, 0);
    } else {
        let t = (total - 1) as int;
        vstd::arithmetic::mul::lemma_mul_is_commutative(t, size);
        vstd::arithmetic::div_mod::lemma_fundamental_div_mod_converse(n, size, t, n - t * size);
    }
    assert(list.page_total() == total);
    assert(list.page_label() =~= if total == 1 {
        Seq::<char>::empty()
    } else {
        text::decimal(page + 1).push('/') + text::decimal(total)
    });
}

/// A list begins with its first candidate chosen and shown between the texts that
/// stand round it, for the reading that it was made for, and offers the
/// candidates it was given, in their order.
pub proof fn lists_begin_with_their_first_candidate(
    candidates: Seq<Seq<char>>,
    reading: Seq<char>,
    pos_x: i32,
    pos_y: i32,
    llm_pending: bool,
    prefix: Seq<char>,
    prefix_reading: Seq<char>,
    remainder: Seq<char>,
    remainder_reading: Seq<char>,
)
    requires
        reading.len() <= usize::MAX,
    ensures
        ({
            let list = ListModel::first_shown(
                candidates,
                reading,
                pos_x,
                pos_y,
                llm_pending,
                prefix,
                prefix_reading,
                remainder,
                remainder_reading,
            );
            let s = SessionModel::Selecting { list };
            &&& list.well_formed()
            &&& list.candidates == candidates
            &&& list.shown_text() == (if candidates.len() > 0 {
                candidates[0]
            } else {
                reading
            })
            &&& list.page_size == 9
            &&& s.reading() == Some(reading)
            &&& s.list_prefix() == prefix
            &&& s.list_prefix_reading() == prefix_reading
            &&& s.list_remainder() == remainder
            &&& s.list_remainder_reading() == remainder_reading
            &&& s.list_punct() is None
            &&& list.llm_pending == llm_pending
            &&& list.pos_x == pos_x && list.pos_y == pos_y
            &&& forall|i: int|
                0 <= i < candidates.len() ==> {
                    &&& (#[trigger] list.candidate_views[i]).suffix == remainder
                    &&& list.candidate_views[i].corresponding_reading_len == reading.len()
                    &&& list.candidate_views[i].source == CandidateViewSource::Bg
                }
        }),
{
}

/// What a list hands out is what it holds, and a session without a list hands out
/// nothing.
pub proof fn lists_hand_out_what_they_hold(s: SessionModel, list: ListModel)
    ensures
        (SessionModel::Selecting { list }).list_prefix() == list.prefix,
        (SessionModel::Selecting { list }).list_prefix_reading() == list.prefix_reading,
        (SessionModel::Selecting { list }).list_remainder() == list.remainder,
        (SessionModel::Selecting { list }).list_remainder_reading() == list.remainder_reading,
        (SessionModel::Selecting { list }).list_punct() == list.punct_pending,
        (SessionModel::Selecting { list }).reading() == Some(list.original_preedit),
        list.selected < list.candidate_views.len() ==> (SessionModel::Selecting {
            list,
        }).current_text() == Some(list.candidate_views[list.selected as int].text),
        !(s is Selecting) ==> {
            &&& s.list_prefix().len() == 0
            &&& s.list_prefix_reading().len() == 0
            &&& s.list_remainder().len() == 0
            &&& s.list_remainder_reading().len() == 0
            &&& s.list_punct() is None
            &&& s.current_text() is None
            &&& forall|f: spec_fn(ListModel) -> ListModel| #[trigger] s.map_list(f) == s
        },
{
}

/// A candidate that takes the place of the chosen one is shown in its stead; all
/// other candidates, the choice and what stands round it stay.
pub proof fn replaced_candidates_are_shown(list: ListModel, view: CandidateModel, i: int)
    requires
        list.well_formed(),
        0 <= i < list.len(),
    ensures
        ({
            let after = list.after_replace_current(view);
            &&& after.well_formed()
            &&& after.shown_text() == view.text
            &&& after.current_view() == Some(view)
            &&& after.len() == list.len()
            &&& i != list.selected ==> after.candidate_views[i] == list.candidate_views[i]
                && after.candidates[i] == list.candidates[i]
            &&& after == (ListModel {
                candidates: after.candidates,
                candidate_views: after.candidate_views,
                ..list
            })
        }),
{
}

/// New candidates are shown in their order with the same rest behind them, and
/// change nothing but the candidates and a choice that they do not reach.
pub proof fn new_candidates_stand_in_the_same_place(
    list: ListModel,
    candidates: Seq<Seq<char>>,
    source: CandidateViewSource,
    i: int,
)
    requires
        0 <= i < candidates.len() <= usize::MAX,
        list.original_preedit.len() <= usize::MAX,
    ensures
        ({
            let after = list.after_replace_candidates(candidates, source);
            &&& after.len() == candidates.len()
            &&& after.candidate_views[i].text == candidates[i]
            &&& after.candidate_views[i].suffix == list.remainder
            &&& after.candidate_views[i].corresponding_reading_len == list.original_preedit.len()
            &&& after.candidate_views[i].source == source
            &&& after.selected < candidates.len()
            &&& after == (ListModel {
                candidates,
                candidate_views: after.candidate_views,
                selected: after.selected,
                ..list
            })
            &&& list.candidates == candidates && list.selected < candidates.len()
                ==> list.after_rebuild_views(source) == after
        }),
{
}

}
