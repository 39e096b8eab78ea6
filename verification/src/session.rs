//! The state of one conversion session, from typing to choosing a candidate.
//!
//! [`SessionState`] is what the program holds; [`SessionModel`] is its meaning.
//! Each transition is a function on models, and each method states which one it
//! performs.
use vstd::prelude::*;
use vstd::string::*;
use crate::text;
use crate::text::str_eq;

verus! {

/// One block of a reading that was split at punctuation: its reading, the
/// punctuation behind it, its candidates and the chosen one.
#[derive(Debug, Clone)]
pub struct ConversionBlock {
    pub reading: String,
    pub trailing_punct: Option<char>,
    pub candidates: Vec<String>,
    pub selected: usize,
}

#[verifier::ext_equal]
pub struct BlockModel {
    pub reading: Seq<char>,
    pub trailing_punct: Option<char>,
    pub candidates: Seq<Seq<char>>,
    pub selected: usize,
}

impl View for ConversionBlock {
    type V = BlockModel;

    open spec fn view(&self) -> BlockModel {
        BlockModel {
            reading: self.reading@,
            trailing_punct: self.trailing_punct,
            candidates: text::texts(self.candidates@),
            selected: self.selected,
        }
    }
}

/// An optional character as text.
pub open spec fn punct_text(p: Option<char>) -> Seq<char> {
    match p {
        Some(c) => seq![c],
        None => Seq::empty(),
    }
}

impl BlockModel {
    /// The chosen candidate, or the reading where there is none to choose.
    pub open spec fn current(self) -> Seq<char> {
        if self.selected < self.candidates.len() {
            self.candidates[self.selected as int]
        } else {
            self.reading
        }
    }

    /// What the block adds to the text: its candidate and its punctuation.
    pub open spec fn piece(self) -> Seq<char> {
        self.current() + punct_text(self.trailing_punct)
    }

    pub open spec fn after_next(self) -> BlockModel {
        if self.candidates.len() == 0 {
            self
        } else {
            BlockModel {
                selected: ((self.selected + 1) % (self.candidates.len() as int)) as usize,
                ..self
            }
        }
    }

    pub open spec fn after_prev(self) -> BlockModel {
        if self.candidates.len() == 0 {
            self
        } else if self.selected == 0 {
            BlockModel { selected: (self.candidates.len() - 1) as usize, ..self }
        } else {
            BlockModel { selected: (self.selected - 1) as usize, ..self }
        }
    }
}

/// The text that a row of blocks stands for.
pub open spec fn block_text(blocks: Seq<BlockModel>) -> Seq<char>
    decreases blocks.len(),
{
    if blocks.len() == 0 {
        Seq::empty()
    } else {
        block_text(blocks.drop_last()) + blocks.last().piece()
    }
}

pub open spec fn block_models(blocks: Seq<ConversionBlock>) -> Seq<BlockModel> {
    blocks.map_values(|b: ConversionBlock| b@)
}

impl ConversionBlock {
    pub fn current_candidate(&self) -> (r: &str)
        ensures
            r@ == self@.current(),
    {
        if self.selected < self.candidates.len() {
            self.candidates[self.selected].as_str()
        } else {
            self.reading.as_str()
        }
    }
}

/// Where a candidate comes from.
#[derive(Clone, Copy, Debug, PartialEq, Eq, Structural)]
pub enum CandidateViewSource {
    Preedit,
    LivePreview,
    Dict,
    Bg,
    Fallback,
    Reconversion,
}

impl CandidateViewSource {
    pub open spec fn source_text(self) -> Seq<char> {
        match self {
            CandidateViewSource::Preedit => "preedit"@,
            CandidateViewSource::LivePreview => "live_preview"@,
            CandidateViewSource::Dict => "dict"@,
            CandidateViewSource::Bg => "bg"@,
            CandidateViewSource::Fallback => "fallback"@,
            CandidateViewSource::Reconversion => "reconversion"@,
        }
    }

    pub fn as_str(self) -> (r: &'static str)
        ensures
            r@ == self.source_text(),
    {
        match self {
            CandidateViewSource::Preedit => "preedit",
            CandidateViewSource::LivePreview => "live_preview",
            CandidateViewSource::Dict => "dict",
            CandidateViewSource::Bg => "bg",
            CandidateViewSource::Fallback => "fallback",
            CandidateViewSource::Reconversion => "reconversion",
        }
    }
}

/// A candidate as it is shown: its text, what follows it, how much of the
/// reading it covers and where it comes from.
#[derive(Clone, Debug)]
pub struct CandidateView {
    pub text: String,
    pub suffix: String,
    pub corresponding_reading_len: usize,
    pub source: CandidateViewSource,
}

#[verifier::ext_equal]
pub struct CandidateModel {
    pub text: Seq<char>,
    pub suffix: Seq<char>,
    pub corresponding_reading_len: usize,
    pub source: CandidateViewSource,
}

impl View for CandidateView {
    type V = CandidateModel;

    open spec fn view(&self) -> CandidateModel {
        CandidateModel {
            text: self.text@,
            suffix: self.suffix@,
            corresponding_reading_len: self.corresponding_reading_len,
            source: self.source,
        }
    }
}

pub open spec fn view_models(views: Seq<CandidateView>) -> Seq<CandidateModel> {
    views.map_values(|v: CandidateView| v@)
}

/// One candidate view for each text, all with the same suffix, length and source.
pub open spec fn uniform_views(
    candidates: Seq<Seq<char>>,
    reading_len: nat,
    suffix: Seq<char>,
    source: CandidateViewSource,
) -> Seq<CandidateModel> {
    Seq::new(
        candidates.len(),
        |i: int|
            CandidateModel {
                text: candidates[i],
                suffix,
                corresponding_reading_len: reading_len as usize,
                source,
            },
    )
}

impl CandidateView {
    /// A candidate for a whole reading, with nothing behind it.
    pub fn compatible(text: String, reading_len: usize, source: CandidateViewSource) -> (r: Self)
        ensures
            r@ == (CandidateModel {
                text: text@,
                suffix: Seq::empty(),
                corresponding_reading_len: reading_len,
                source,
            }),
    {
        CandidateView { text, suffix: String::new(), corresponding_reading_len: reading_len, source }
    }
}

pub fn candidate_views_from_strings(
    candidates: &Vec<String>,
    reading_len: usize,
    suffix: &str,
    source: CandidateViewSource,
) -> (r: Vec<CandidateView>)
    ensures
        view_models(r@) == uniform_views(text::texts(candidates@), reading_len as nat, suffix@, source),
{
    let mut r: Vec<CandidateView> = Vec::new();
    let mut i: usize = 0;
    while i < candidates.len()
        invariant
            i <= candidates@.len(),
            r@.len() == i,
            forall|k: int|
                0 <= k < i ==> (#[trigger] r@[k])@ == (CandidateModel {
                    text: candidates@[k]@,
                    suffix: suffix@,
                    corresponding_reading_len: reading_len,
                    source,
                }),
        decreases candidates@.len() - i,
    {
        r.push(
            CandidateView {
                text: candidates[i].clone(),
                suffix: suffix.to_owned(),
                corresponding_reading_len: reading_len,
                source,
            },
        );
        i = i + 1;
    }
    assert(view_models(r@) =~= uniform_views(
        text::texts(candidates@),
        reading_len as nat,
        suffix@,
        source,
    ));
    r
}

#[derive(Debug, Clone)]
pub enum SessionState {
    Idle,
    Preedit { text: String },
    /// A conversion runs; candidates are shown when it is done. The remainder is
    /// the part of a range selection that is left unconverted.
    Waiting {
        text: String,
        pos_x: i32,
        pos_y: i32,
        remainder: String,
        remainder_reading: String,
    },
    Selecting {
        original_preedit: String,
        candidates: Vec<String>,
        candidate_views: Vec<CandidateView>,
        selected: usize,
        page_size: usize,
        llm_pending: bool,
        pos_x: i32,
        pos_y: i32,
        /// Punctuation that is appended when the candidate is committed.
        punct_pending: Option<char>,
        prefix: String,
        prefix_reading: String,
        /// What stays unconverted and becomes the next preedit.
        remainder: String,
        remainder_reading: String,
    },
    /// The first `select_end` characters of the reading are chosen for conversion.
    RangeSelect { full_reading: String, select_end: usize, original_preview: String },
    /// A reading split at punctuation, each block with candidates of its own.
    BlockSelecting { blocks: Vec<ConversionBlock>, current_index: usize, full_reading: String },
    /// The best candidate is shown in place of the reading. `preview_for` is the
    /// reading that the preview was made from.
    LiveConv { reading: String, preview: String, preview_for: String },
}

/// The meaning of a candidate list.
#[verifier::ext_equal]
pub struct ListModel {
    pub original_preedit: Seq<char>,
    pub candidates: Seq<Seq<char>>,
    pub candidate_views: Seq<CandidateModel>,
    pub selected: usize,
    pub page_size: usize,
    pub llm_pending: bool,
    pub pos_x: i32,
    pub pos_y: i32,
    pub punct_pending: Option<char>,
    pub prefix: Seq<char>,
    pub prefix_reading: Seq<char>,
    pub remainder: Seq<char>,
    pub remainder_reading: Seq<char>,
}

#[verifier::ext_equal]
pub enum SessionModel {
    Idle,
    Preedit { text: Seq<char> },
    Waiting {
        text: Seq<char>,
        pos_x: i32,
        pos_y: i32,
        remainder: Seq<char>,
        remainder_reading: Seq<char>,
    },
    Selecting { list: ListModel },
    RangeSelect { full_reading: Seq<char>, select_end: usize, original_preview: Seq<char> },
    BlockSelecting { blocks: Seq<BlockModel>, current_index: usize, full_reading: Seq<char> },
    LiveConv { reading: Seq<char>, preview: Seq<char>, preview_for: Seq<char> },
}

impl View for SessionState {
    type V = SessionModel;

    open spec fn view(&self) -> SessionModel {
        match self {
            SessionState::Idle => SessionModel::Idle,
            SessionState::Preedit { text } => SessionModel::Preedit { text: text@ },
            SessionState::Waiting { text, pos_x, pos_y, remainder, remainder_reading } => {
                SessionModel::Waiting {
                    text: text@,
                    pos_x: *pos_x,
                    pos_y: *pos_y,
                    remainder: remainder@,
                    remainder_reading: remainder_reading@,
                }
            },
            SessionState::Selecting {
                original_preedit,
                candidates,
                candidate_views,
                selected,
                page_size,
                llm_pending,
                pos_x,
                pos_y,
                punct_pending,
                prefix,
                prefix_reading,
                remainder,
                remainder_reading,
            } => SessionModel::Selecting { list: ListModel {
                original_preedit: original_preedit@,
                candidates: text::texts(candidates@),
                candidate_views: view_models(candidate_views@),
                selected: *selected,
                page_size: *page_size,
                llm_pending: *llm_pending,
                pos_x: *pos_x,
                pos_y: *pos_y,
                punct_pending: *punct_pending,
                prefix: prefix@,
                prefix_reading: prefix_reading@,
                remainder: remainder@,
                remainder_reading: remainder_reading@,
            } },
            SessionState::RangeSelect { full_reading, select_end, original_preview } => {
                SessionModel::RangeSelect {
                    full_reading: full_reading@,
                    select_end: *select_end,
                    original_preview: original_preview@,
                }
            },
            SessionState::BlockSelecting { blocks, current_index, full_reading } => {
                SessionModel::BlockSelecting {
                    blocks: block_models(blocks@),
                    current_index: *current_index,
                    full_reading: full_reading@,
                }
            },
            SessionState::LiveConv { reading, preview, preview_for } => SessionModel::LiveConv {
                reading: reading@,
                preview: preview@,
                preview_for: preview_for@,
            },
        }
    }
}

impl Default for SessionState {
    fn default() -> (r: Self)
        ensures
            r@ == SessionModel::Idle,
    {
        SessionState::Idle
    }
}


impl ListModel {
    /// The choice is inside the list, whose two forms agree.
    pub open spec fn well_formed(self) -> bool {
        &&& self.page_size > 0
        &&& self.candidates.len() == self.candidate_views.len()
        &&& (forall|i: int|
            0 <= i < self.candidates.len() ==> (#[trigger] self.candidate_views[i]).text
                == self.candidates[i])
        &&& (self.selected < self.candidate_views.len() || (self.candidate_views.len() == 0
            && self.selected == 0))
    }
}

impl SessionModel {
    /// Whether candidates, blocks or a range are being chosen. Key tests read
    /// this without looking at the rest of the session.
    pub open spec fn selecting_flag(self) -> bool {
        self is Selecting || self is RangeSelect || self is BlockSelecting
    }

    /// A choice is always inside its list: the chosen candidate of a candidate
    /// list, and the focused block of a block row.
    pub open spec fn well_formed(self) -> bool {
        match self {
            SessionModel::Selecting { list } => list.well_formed(),
            SessionModel::BlockSelecting { blocks, current_index, .. } => {
                current_index < blocks.len() || (blocks.len() == 0 && current_index == 0)
            },
            _ => true,
        }
    }

    /// The preedit after the engine's reading has become `reading`: only a
    /// preedit follows it, and an empty reading ends the session.
    pub open spec fn synced(self, reading: Seq<char>) -> SessionModel {
        match self {
            SessionModel::Preedit { .. } => if reading.len() == 0 {
                SessionModel::Idle
            } else {
                SessionModel::Preedit { text: reading }
            },
            _ => self,
        }
    }

    /// The text that stands in the document for this session.
    pub open spec fn preedit(self) -> Option<Seq<char>> {
        match self {
            SessionModel::Idle => None,
            SessionModel::Preedit { text } => Some(text),
            SessionModel::Waiting { text, .. } => Some(text),
            SessionModel::Selecting { list } => Some(list.original_preedit),
            SessionModel::LiveConv { preview, .. } => Some(preview),
            SessionModel::RangeSelect { full_reading, .. } => Some(full_reading),
            SessionModel::BlockSelecting { full_reading, .. } => Some(full_reading),
        }
    }

    /// The reading that this session converts.
    pub open spec fn reading(self) -> Option<Seq<char>> {
        match self {
            SessionModel::LiveConv { reading, .. } => Some(reading),
            _ => self.preedit(),
        }
    }
}

impl SessionState {
    pub fn set_idle(&mut self)
        ensures
            final(self)@ == SessionModel::Idle,
            !final(self)@.selecting_flag(),
    {
        *self = SessionState::Idle;
    }

    pub fn set_preedit(&mut self, text: String)
        ensures
            final(self)@ == (SessionModel::Preedit { text: text@ }),
            !final(self)@.selecting_flag(),
    {
        *self = SessionState::Preedit { text };
    }

    pub fn sync_preedit_reading(&mut self, reading: &str)
        ensures
            final(self)@ == old(self)@.synced(reading@),
    {
        let stale = match self {
            SessionState::Preedit { text } => !str_eq(text.as_str(), reading),
            _ => false,
        };
        if let SessionState::Preedit { text } = self {
            if reading.is_empty() {
                self.set_idle();
            } else if stale {
                *text = reading.to_owned();
            }
        }
    }

    /// Shows `preview` for `reading`. `preview_for` is the reading that the
    /// preview was made from; it equals `reading` where the preview covers all of it.
    pub fn set_live_conv(&mut self, reading: String, preview: String, preview_for: String)
        ensures
            final(self)@ == (SessionModel::LiveConv {
                reading: reading@,
                preview: preview@,
                preview_for: preview_for@,
            }),
            !final(self)@.selecting_flag(),
    {
        *self = SessionState::LiveConv { reading, preview, preview_for };
    }

    pub fn is_idle(&self) -> (r: bool)
        ensures
            r == (self@ is Idle),
    {
        match self {
            SessionState::Idle => true,
            _ => false,
        }
    }

    pub fn is_preedit(&self) -> (r: bool)
        ensures
            r == (self@ is Preedit),
    {
        match self {
            SessionState::Preedit { .. } => true,
            _ => false,
        }
    }

    pub fn is_live_conv(&self) -> (r: bool)
        ensures
            r == (self@ is LiveConv),
    {
        match self {
            SessionState::LiveConv { .. } => true,
            _ => false,
        }
    }

    /// The reading and the preview of a live conversion.
    pub fn live_conv_parts(&self) -> (r: Option<(&str, &str)>)
        ensures
            match self@ {
                SessionModel::LiveConv { reading, preview, .. } => r is Some && r->Some_0.0@ == reading
                    && r->Some_0.1@ == preview,
                _ => r is None,
            },
    {
        match self {
            SessionState::LiveConv { reading, preview, .. } => Some(
                (reading.as_str(), preview.as_str()),
            ),
            _ => None,
        }
    }

    /// The reading that the preview of a live conversion was made from.
    pub fn live_conv_preview_for(&self) -> (r: Option<&str>)
        ensures
            text::opt_text(r) == (match self@ {
                SessionModel::LiveConv { preview_for, .. } => Some(preview_for),
                _ => None,
            }),
    {
        match self {
            SessionState::LiveConv { preview_for, .. } => Some(preview_for.as_str()),
            _ => None,
        }
    }

    pub fn set_waiting(&mut self, text: String, pos_x: i32, pos_y: i32)
        ensures
            final(self)@ == (SessionModel::Waiting {
                text: text@,
                pos_x,
                pos_y,
                remainder: Seq::empty(),
                remainder_reading: Seq::empty(),
            }),
            !final(self)@.selecting_flag(),
    {
        self.set_waiting_with_affixes(text, pos_x, pos_y, String::new(), String::new());
    }

    pub fn set_waiting_with_affixes(
        &mut self,
        text: String,
        pos_x: i32,
        pos_y: i32,
        remainder: String,
        remainder_reading: String,
    )
        ensures
            final(self)@ == (SessionModel::Waiting {
                text: text@,
                pos_x,
                pos_y,
                remainder: remainder@,
                remainder_reading: remainder_reading@,
            }),
            !final(self)@.selecting_flag(),
    {
        *self = SessionState::Waiting { text, pos_x, pos_y, remainder, remainder_reading };
    }

    pub fn is_waiting(&self) -> (r: bool)
        ensures
            r == (self@ is Waiting),
    {
        match self {
            SessionState::Waiting { .. } => true,
            _ => false,
        }
    }

    /// What a waiting session waits for, and where its candidates will be shown.
    pub fn waiting_info(&self) -> (r: Option<(&str, i32, i32)>)
        ensures
            match self@ {
                SessionModel::Waiting { text, pos_x, pos_y, .. } => r is Some && r->Some_0.0@ == text
                    && r->Some_0.1 == pos_x && r->Some_0.2 == pos_y,
                _ => r is None,
            },
    {
        match self {
            SessionState::Waiting { text, pos_x, pos_y, .. } => Some(
                (text.as_str(), *pos_x, *pos_y),
            ),
            _ => None,
        }
    }

    pub fn preedit_text(&self) -> (r: Option<&str>)
        ensures
            text::opt_text(r) == self@.preedit(),
    {
        match self {
            SessionState::Idle => None,
            SessionState::Preedit { text } => Some(text.as_str()),
            SessionState::Waiting { text, .. } => Some(text.as_str()),
            SessionState::Selecting { original_preedit, .. } => Some(original_preedit.as_str()),
            SessionState::LiveConv { preview, .. } => Some(preview.as_str()),
            SessionState::RangeSelect { full_reading, .. } => Some(full_reading.as_str()),
            SessionState::BlockSelecting { full_reading, .. } => Some(full_reading.as_str()),
        }
    }

    pub fn original_preedit(&self) -> (r: Option<&str>)
        ensures
            text::opt_text(r) == self@.reading(),
    {
        match self {
            SessionState::Idle => None,
            SessionState::Preedit { text } => Some(text.as_str()),
            SessionState::Waiting { text, .. } => Some(text.as_str()),
            SessionState::Selecting { original_preedit, .. } => Some(original_preedit.as_str()),
            SessionState::LiveConv { reading, .. } => Some(reading.as_str()),
            SessionState::RangeSelect { full_reading, .. } => Some(full_reading.as_str()),
            SessionState::BlockSelecting { full_reading, .. } => Some(full_reading.as_str()),
        }
    }
}

/// Whether something is being chosen, for readers of the published flag.
pub fn session_is_selecting_fast(session: &SessionState) -> (r: bool)
    ensures
        r == session@.selecting_flag(),
{
    match session {
        SessionState::Selecting { .. } => true,
        SessionState::RangeSelect { .. } => true,
        SessionState::BlockSelecting { .. } => true,
        _ => false,
    }
}

/// A preedit always follows the engine's reading, and no other state does.
pub proof fn syncing_touches_only_preedit(s: SessionModel, reading: Seq<char>)
    ensures
        !(s is Preedit) ==> s.synced(reading) == s,
        s is Preedit && reading.len() > 0 ==> s.synced(reading).preedit() == Some(reading),
        s is Preedit && reading.len() == 0 ==> s.synced(reading) is Idle,
        s.synced(reading).synced(reading) == s.synced(reading),
        s.well_formed() ==> s.synced(reading).well_formed(),
{
}

/// Each state stands for the text it was set to, and reads as the reading it was
/// set to: a live conversion shows its preview for its reading, a candidate list
/// stands for its reading, and an idle session for nothing.
pub proof fn states_keep_what_they_were_set_to(
    text: Seq<char>,
    reading: Seq<char>,
    rest: Seq<char>,
    end: usize,
    x: i32,
    y: i32,
    list: ListModel,
    blocks: Seq<BlockModel>,
)
    ensures
        SessionModel::Idle.preedit() is None,
        SessionModel::Idle.reading() is None,
        (SessionModel::Preedit { text }).preedit() == Some(text),
        (SessionModel::Preedit { text }).reading() == Some(text),
        (SessionModel::Waiting {
            text,
            pos_x: x,
            pos_y: y,
            remainder: rest,
            remainder_reading: rest,
        }).reading() == Some(text),
        (SessionModel::Waiting {
            text,
            pos_x: x,
            pos_y: y,
            remainder: rest,
            remainder_reading: rest,
        }).preedit() == Some(text),
        (SessionModel::LiveConv { reading, preview: text, preview_for: rest }).preedit() == Some(
            text,
        ),
        (SessionModel::LiveConv { reading, preview: text, preview_for: rest }).reading() == Some(
            reading,
        ),
        (SessionModel::RangeSelect {
            full_reading: reading,
            select_end: end,
            original_preview: text,
        }).reading() == Some(reading),
        (SessionModel::RangeSelect {
            full_reading: reading,
            select_end: end,
            original_preview: text,
        }).preedit() == Some(reading),
        (SessionModel::BlockSelecting { blocks, current_index: end, full_reading: reading }).reading()
            == Some(reading),
        (SessionModel::BlockSelecting { blocks, current_index: end, full_reading: reading }).preedit()
            == Some(reading),
        (SessionModel::Selecting { list }).reading() == Some(list.original_preedit),
        (SessionModel::Selecting { list }).preedit() == Some(list.original_preedit),
{
}

/// Something is being chosen exactly while a list, a range or a row of blocks is
/// open; typed, awaited and previewed text is not a choice.
pub proof fn choices_are_open_states(s: SessionModel)
    ensures
        s is Idle || s is Preedit || s is Waiting || s is LiveConv <==> !s.selecting_flag(),
{
}

/// The sources of candidates can be told apart by their names.
pub proof fn sources_have_distinct_names(a: CandidateViewSource, b: CandidateViewSource)
    ensures
        a.source_text() == b.source_text() <==> a == b,
{
    reveal_strlit("preedit");
    reveal_strlit("live_preview");
    reveal_strlit("dict");
    reveal_strlit("bg");
    reveal_strlit("fallback");
    reveal_strlit("reconversion");
    if a != b {
        assert(a.source_text()[0] != b.source_text()[0]);
    }
}

/// A candidate view for each text, in order, with nothing left out.
pub proof fn views_follow_their_texts(
    candidates: Seq<Seq<char>>,
    reading_len: nat,
    suffix: Seq<char>,
    source: CandidateViewSource,
    i: int,
)
    requires
        0 <= i < candidates.len(),
        reading_len <= usize::MAX,
    ensures
        uniform_views(candidates, reading_len, suffix, source).len() == candidates.len(),
        uniform_views(candidates, reading_len, suffix, source)[i] == (CandidateModel {
            text: candidates[i],
            suffix,
            corresponding_reading_len: reading_len as usize,
            source,
        }),
{
}

}
