//! Choosing candidates block by block, for a reading that was split at punctuation.
use vstd::prelude::*;
use vstd::string::*;
use crate::session::{BlockModel, ConversionBlock, SessionModel, SessionState};
use crate::text;

verus! {

/// How many candidates of a block are shown.
pub const BLOCK_PAGE_SIZE: usize = 9;

impl SessionModel {
    /// The block in focus.
    pub open spec fn focused_block(self) -> Option<BlockModel> {
        match self {
            SessionModel::BlockSelecting { blocks, current_index, .. } if current_index
                < blocks.len() => Some(blocks[current_index as int]),
            _ => None,
        }
    }

    /// The same row of blocks with another block in focus position.
    pub open spec fn with_focused_block(self, block: BlockModel) -> SessionModel {
        match self {
            SessionModel::BlockSelecting { blocks, current_index, full_reading } if current_index
                < blocks.len() => SessionModel::BlockSelecting {
                blocks: blocks.update(current_index as int, block),
                current_index,
                full_reading,
            },
            _ => self,
        }
    }

    pub open spec fn after_block_next(self) -> SessionModel {
        match self.focused_block() {
            Some(b) => self.with_focused_block(b.after_next()),
            None => self,
        }
    }

    pub open spec fn after_block_prev(self) -> SessionModel {
        match self.focused_block() {
            Some(b) => self.with_focused_block(b.after_prev()),
            None => self,
        }
    }

    /// Whether the block in focus has a candidate `n`, counted from one.
    pub open spec fn block_has_nth(self, n: int) -> bool {
        match self.focused_block() {
            Some(b) => 1 <= n <= b.candidates.len(),
            None => false,
        }
    }

    pub open spec fn after_block_select_nth(self, n: int) -> SessionModel {
        if self.block_has_nth(n) {
            self.with_focused_block(
                BlockModel { selected: (n - 1) as usize, ..self.focused_block()->0 },
            )
        } else {
            self
        }
    }

    pub open spec fn block_can_move_next(self) -> bool {
        match self {
            SessionModel::BlockSelecting { blocks, current_index, .. } => current_index + 1
                < blocks.len(),
            _ => false,
        }
    }

    pub open spec fn block_can_move_prev(self) -> bool {
        match self {
            SessionModel::BlockSelecting { current_index, .. } => current_index > 0,
            _ => false,
        }
    }

    pub open spec fn with_block_focus(self, index: int) -> SessionModel {
        match self {
            SessionModel::BlockSelecting { blocks, full_reading, .. } => {
                SessionModel::BlockSelecting { blocks, current_index: index as usize, full_reading }
            },
            _ => self,
        }
    }

    pub open spec fn block_focus(self) -> int {
        match self {
            SessionModel::BlockSelecting { current_index, .. } => current_index as int,
            _ => 0,
        }
    }

    pub open spec fn after_block_move_next(self) -> SessionModel {
        if self.block_can_move_next() {
            self.with_block_focus(self.block_focus() + 1)
        } else {
            self
        }
    }

    pub open spec fn after_block_move_prev(self) -> SessionModel {
        if self.block_can_move_prev() {
            self.with_block_focus(self.block_focus() - 1)
        } else {
            self
        }
    }

    /// The text that all blocks stand for together.
    pub open spec fn blocks_text(self) -> Option<Seq<char>> {
        match self {
            SessionModel::BlockSelecting { blocks, .. } => Some(crate::session::block_text(blocks)),
            _ => None,
        }
    }

    /// The text before the block in focus, its candidate, and the text behind it.
    pub open spec fn block_parts(self) -> Option<(Seq<char>, Seq<char>, Seq<char>)> {
        match self {
            SessionModel::BlockSelecting { blocks, current_index, .. } => if current_index
                < blocks.len() {
                Some(
                    (
                        crate::session::block_text(blocks.take(current_index as int)),
                        blocks[current_index as int].current(),
                        crate::session::punct_text(blocks[current_index as int].trailing_punct)
                            + crate::session::block_text(blocks.skip(current_index + 1)),
                    ),
                )
            } else {
                Some((crate::session::block_text(blocks), Seq::empty(), Seq::empty()))
            },
            _ => None,
        }
    }
}

/// Appends what a block stands for.
fn push_block(acc: &mut String, block: &ConversionBlock)
    ensures
        final(acc)@ == old(acc)@ + block@.piece(),
{
    let ghost before = acc@;
    acc.append(block.current_candidate());
    if let Some(p) = block.trailing_punct {
        acc.push(p);
    }
    assert(acc@ =~= before + block@.piece());
}

/// Appends what the blocks `from..to` stand for.
fn push_blocks(acc: &mut String, blocks: &Vec<ConversionBlock>, from: usize, to: usize)
    requires
        from <= to <= blocks@.len(),
    ensures
        final(acc)@ == old(acc)@ + crate::session::block_text(
            crate::session::block_models(blocks@).subrange(from as int, to as int),
        ),
{
    let ghost models = crate::session::block_models(blocks@);
    let ghost before = acc@;
    let mut i: usize = from;
    assert(before + crate::session::block_text(models.subrange(from as int, from as int))
        =~= before);
    while i < to
        invariant
            from <= i <= to <= blocks@.len(),
            models == crate::session::block_models(blocks@),
            acc@ == before + crate::session::block_text(models.subrange(from as int, i as int)),
        decreases to - i,
    {
        push_block(acc, &blocks[i]);
        proof {
            let longer = models.subrange(from as int, i + 1);
            assert(longer.drop_last() =~= models.subrange(from as int, i as int));
            assert(longer.last() == blocks@[i as int]@);
            assert(acc@ =~= before + crate::session::block_text(longer));
        }
        i = i + 1;
    }
}

impl SessionState {
    pub fn set_block_selecting(&mut self, blocks: Vec<ConversionBlock>, full_reading: String)
        ensures
            final(self)@ == (SessionModel::BlockSelecting {
                blocks: crate::session::block_models(blocks@),
                current_index: 0,
                full_reading: full_reading@,
            }),
            final(self)@.well_formed(),
            final(self)@.selecting_flag(),
    {
        *self = SessionState::BlockSelecting { blocks, current_index: 0, full_reading };
    }

    pub fn is_block_selecting(&self) -> (r: bool)
        ensures
            r == (self@ is BlockSelecting),
    {
        match self {
            SessionState::BlockSelecting { .. } => true,
            _ => false,
        }
    }

    /// What the block in focus stands for.
    pub fn block_selecting_current_candidate(&self) -> (r: Option<&str>)
        ensures
            text::opt_text(r) == (match self@.focused_block() {
                Some(b) => Some(b.current()),
                None => None,
            }),
    {
        match self {
            SessionState::BlockSelecting { blocks, current_index, .. } => {
                if *current_index < blocks.len() {
                    Some(blocks[*current_index].current_candidate())
                } else {
                    None
                }
            },
            _ => None,
        }
    }

    /// The candidates of the block in focus that are shown: the first ones, up to a page.
    pub fn block_selecting_page_candidates(&self) -> (r: Vec<String>)
        ensures
            text::texts(r@) == (match self@.focused_block() {
                Some(b) => if b.candidates.len() <= BLOCK_PAGE_SIZE {
                    b.candidates
                } else {
                    b.candidates.take(BLOCK_PAGE_SIZE as int)
                },
                None => Seq::empty(),
            }),
    {
        let mut r: Vec<String> = Vec::new();
        if let SessionState::BlockSelecting { blocks, current_index, .. } = self {
            if *current_index < blocks.len() {
                let block: &ConversionBlock = &blocks[*current_index];
                let mut i: usize = 0;
                while i < block.candidates.len() && i < BLOCK_PAGE_SIZE
                    invariant
                        i <= block.candidates@.len(),
                        i <= BLOCK_PAGE_SIZE,
                        r@.len() == i,
                        forall|k: int|
                            0 <= k < i ==> (#[trigger] r@[k])@ == block.candidates@[k]@,
                    decreases block.candidates@.len() - i,
                {
                    r.push(block.candidates[i].clone());
                    i = i + 1;
                }
                assert(text::texts(r@) =~= text::texts(block.candidates@).take(i as int));
                assert(text::texts(block.candidates@).take(block.candidates@.len() as int)
                    =~= text::texts(block.candidates@));
                return r;
            }
        }
        assert(text::texts(r@) =~= Seq::empty());
        r
    }

    /// The place of the chosen candidate among the shown ones; the last place
    /// stands for every candidate behind them.
    pub fn block_selecting_page_selected(&self) -> (r: usize)
        ensures
            r == (match self@.focused_block() {
                Some(b) => if b.selected < BLOCK_PAGE_SIZE {
                    b.selected as int
                } else {
                    BLOCK_PAGE_SIZE - 1
                },
                None => 0,
            }),
    {
        if let SessionState::BlockSelecting { blocks, current_index, .. } = self {
            if *current_index < blocks.len() {
                let selected: usize = blocks[*current_index].selected;
                return if selected < BLOCK_PAGE_SIZE {
                    selected
                } else {
                    BLOCK_PAGE_SIZE - 1
                };
            }
        }
        0
    }

    /// Chooses the next candidate of the block in focus, round to the first one.
    pub fn block_selecting_next(&mut self)
        ensures
            final(self)@ == old(self)@.after_block_next(),
            old(self)@.well_formed() ==> final(self)@.well_formed(),
    {
        if let SessionState::BlockSelecting { blocks, current_index, .. } = self {
            let ghost models = crate::session::block_models(blocks@);
            if *current_index < blocks.len() {
                let len: usize = blocks[*current_index].candidates.len();
                if len > 0 {
                    let selected: usize = blocks[*current_index].selected;
                    let next: usize = crate::session_select::successor_in(selected, len);
                    set_selected(blocks, *current_index, next);
                } else {
                    assert(models.update(
                        *current_index as int,
                        models[*current_index as int].after_next(),
                    ) =~= models);
                }
            }
        }
    }

    /// Chooses the candidate before, round to the last one.
    pub fn block_selecting_prev(&mut self)
        ensures
            final(self)@ == old(self)@.after_block_prev(),
            old(self)@.well_formed() ==> final(self)@.well_formed(),
    {
        if let SessionState::BlockSelecting { blocks, current_index, .. } = self {
            let ghost models = crate::session::block_models(blocks@);
            if *current_index < blocks.len() {
                let len: usize = blocks[*current_index].candidates.len();
                if len > 0 {
                    let selected: usize = blocks[*current_index].selected;
                    let before: usize = if selected == 0 {
                        len - 1
                    } else {
                        selected - 1
                    };
                    set_selected(blocks, *current_index, before);
                } else {
                    assert(models.update(
                        *current_index as int,
                        models[*current_index as int].after_prev(),
                    ) =~= models);
                }
            }
        }
    }

    /// The text before the block in focus, its candidate, and the text behind it.
    /// The punctuation of the block in focus opens the text behind it.
    pub fn block_selecting_composition_parts(&self) -> (r: Option<(String, String, String)>)
        ensures
            match r {
                Some((prefix, candidate, remainder)) => self@.block_parts() == Some(
                    (prefix@, candidate@, remainder@),
                ),
                None => self@.block_parts() is None,
            },
    {
        if let SessionState::BlockSelecting { blocks, current_index, .. } = self {
            let ghost models = crate::session::block_models(blocks@);
            let mut prefix = String::new();
            let mut candidate = String::new();
            let mut remainder = String::new();
            let len: usize = blocks.len();
            if *current_index < len {
                let focus: usize = *current_index;
                push_blocks(&mut prefix, blocks, 0, focus);
                candidate.append(blocks[focus].current_candidate());
                if let Some(p) = blocks[focus].trailing_punct {
                    remainder.push(p);
                }
                push_blocks(&mut remainder, blocks, focus + 1, len);
                proof {
                    assert(models.subrange(0, focus as int) =~= models.take(focus as int));
                    assert(models.subrange(focus + 1, len as int) =~= models.skip(focus + 1));
                    assert(prefix@ =~= crate::session::block_text(models.take(focus as int)));
                    assert(candidate@ =~= models[focus as int].current());
                    assert(remainder@ =~= self@.block_parts()->Some_0.2);
                }
            } else {
                push_blocks(&mut prefix, blocks, 0, len);
                proof {
                    assert(models.subrange(0, len as int) =~= models);
                    assert(prefix@ =~= crate::session::block_text(models));
                }
            }
            Some((prefix, candidate, remainder))
        } else {
            None
        }
    }

    /// The text that all blocks stand for together.
    pub fn block_selecting_full_text(&self) -> (r: Option<String>)
        ensures
            text::opt_string(r) == self@.blocks_text(),
    {
        if let SessionState::BlockSelecting { blocks, .. } = self {
            let mut all = String::new();
            let len: usize = blocks.len();
            push_blocks(&mut all, blocks, 0, len);
            proof {
                let models = crate::session::block_models(blocks@);
                assert(models.subrange(0, len as int) =~= models);
                assert(all@ =~= crate::session::block_text(models));
            }
            Some(all)
        } else {
            None
        }
    }

    /// The index of the block in focus and the number of blocks.
    pub fn block_selecting_index_of(&self) -> (r: Option<(usize, usize)>)
        ensures
            match self@ {
                SessionModel::BlockSelecting { blocks, current_index, .. } => r is Some
                    && r->Some_0.0 == current_index && r->Some_0.1 == blocks.len(),
                _ => r is None,
            },
    {
        match self {
            SessionState::BlockSelecting { blocks, current_index, .. } => Some(
                (*current_index, blocks.len()),
            ),
            _ => None,
        }
    }

    pub fn block_selecting_full_reading(&self) -> (r: Option<String>)
        ensures
            text::opt_string(r) == (match self@ {
                SessionModel::BlockSelecting { full_reading, .. } => Some(full_reading),
                _ => None,
            }),
    {
        match self {
            SessionState::BlockSelecting { full_reading, .. } => Some(full_reading.clone()),
            _ => None,
        }
    }

    /// Chooses candidate `n` of the block in focus, counted from one; tells whether it is there.
    pub fn block_selecting_select_nth(&mut self, n: usize) -> (r: bool)
        ensures
            r == old(self)@.block_has_nth(n as int),
            final(self)@ == old(self)@.after_block_select_nth(n as int),
            old(self)@.well_formed() ==> final(self)@.well_formed(),
    {
        if n < 1 {
            return false;
        }
        if let SessionState::BlockSelecting { blocks, current_index, .. } = self {
            if *current_index < blocks.len() {
                if n - 1 < blocks[*current_index].candidates.len() {
                    set_selected(blocks, *current_index, n - 1);
                    return true;
                }
            }
        }
        false
    }

    /// Moves the focus to the next block; stays on the last one.
    pub fn block_selecting_move_next(&mut self) -> (r: bool)
        ensures
            r == old(self)@.block_can_move_next(),
            final(self)@ == old(self)@.after_block_move_next(),
            old(self)@.well_formed() ==> final(self)@.well_formed(),
    {
        if let SessionState::BlockSelecting { blocks, current_index, .. } = self {
            let len: usize = blocks.len();
            if len > 0 && *current_index < len - 1 {
                *current_index = *current_index + 1;
                return true;
            }
        }
        false
    }

    /// Moves the focus to the block before; stays on the first one.
    pub fn block_selecting_move_prev(&mut self) -> (r: bool)
        ensures
            r == old(self)@.block_can_move_prev(),
            final(self)@ == old(self)@.after_block_move_prev(),
            old(self)@.well_formed() ==> final(self)@.well_formed(),
    {
        if let SessionState::BlockSelecting { current_index, .. } = self {
            if *current_index > 0 {
                *current_index = *current_index - 1;
                return true;
            }
        }
        false
    }
}

/// Chooses a candidate of one block.
fn set_selected(blocks: &mut Vec<ConversionBlock>, at: usize, selected: usize)
    requires
        at < old(blocks)@.len(),
    ensures
        crate::session::block_models(final(blocks)@) == crate::session::block_models(
            old(blocks)@,
        ).update(at as int, (BlockModel { selected, ..old(blocks)@[at as int]@ })),
{
    let ghost before = blocks@;
    blocks[at].selected = selected;
    assert(crate::session::block_models(blocks@) =~= crate::session::block_models(before).update(
        at as int,
        (BlockModel { selected, ..before[at as int]@ }),
    ));
}

/// The text of two rows of blocks, one behind the other.
pub proof fn lemma_block_text_join(a: Seq<BlockModel>, b: Seq<BlockModel>)
    ensures
        crate::session::block_text(a + b) == crate::session::block_text(a)
            + crate::session::block_text(b),
    decreases b.len(),
{
    if b.len() == 0 {
        assert(a + b =~= a);
        assert(crate::session::block_text(a) + crate::session::block_text(b)
            =~= crate::session::block_text(a));
    } else {
        lemma_block_text_join(a, b.drop_last());
        assert((a + b).drop_last() =~= a + b.drop_last());
        assert((a + b).last() == b.last());
        assert(crate::session::block_text(a + b) =~= crate::session::block_text(a)
            + crate::session::block_text(b));
    }
}

/// The three parts of a row of blocks always join to its whole text.
pub proof fn block_parts_join_to_full_text(s: SessionModel)
    requires
        s is BlockSelecting,
    ensures
        s.block_parts() is Some,
        s.block_parts()->Some_0.0 + s.block_parts()->Some_0.1 + s.block_parts()->Some_0.2
            == s.blocks_text()->0,
{
    let blocks = s->BlockSelecting_blocks;
    let at = s->BlockSelecting_current_index as int;
    if at < blocks.len() {
        let b = blocks[at];
        lemma_block_text_join(blocks.take(at), blocks.skip(at));
        lemma_block_text_join(seq![b], blocks.skip(at + 1));
        assert(blocks.take(at) + blocks.skip(at) =~= blocks);
        assert(seq![b] + blocks.skip(at + 1) =~= blocks.skip(at));
        assert(seq![b].drop_last() =~= Seq::empty());
        assert(crate::session::block_text(seq![b]) =~= b.piece()) by {
            assert(crate::session::block_text(seq![b].drop_last()) =~= Seq::empty());
        }
    }
    assert(s.block_parts()->Some_0.0 + s.block_parts()->Some_0.1 + s.block_parts()->Some_0.2
        =~= s.blocks_text()->0);
}

/// Moving the focus changes no text and no candidate.
pub proof fn block_focus_does_not_change_text(s: SessionModel)
    ensures
        s.after_block_move_next().blocks_text() == s.blocks_text(),
        s.after_block_move_prev().blocks_text() == s.blocks_text(),
        s.after_block_move_next().reading() == s.reading(),
        s.after_block_move_prev().reading() == s.reading(),
{
}

/// The focus moves both ways, one block at a time, and stops at the two ends.
pub proof fn block_focus_moves_undo_each_other(s: SessionModel)
    requires
        s is BlockSelecting,
        s->BlockSelecting_blocks.len() <= usize::MAX,
    ensures
        s.block_can_move_next() ==> s.after_block_move_next().after_block_move_prev() == s,
        s.block_can_move_prev() && s.well_formed()
            ==> s.after_block_move_prev().after_block_move_next() == s,
        !s.block_can_move_next() ==> s.after_block_move_next() == s,
        !s.block_can_move_prev() ==> s.after_block_move_prev() == s,
        s.well_formed() ==> s.after_block_move_next().well_formed()
            && s.after_block_move_prev().well_formed(),
{
}

/// In one block the next and the previous candidate undo each other.
pub proof fn block_candidates_undo_each_other(b: BlockModel)
    requires
        b.selected < b.candidates.len() <= usize::MAX,
    ensures
        b.after_next().after_prev() == b,
        b.after_prev().after_next() == b,
        b.after_next().selected < b.candidates.len(),
        b.after_prev().selected < b.candidates.len(),
{
    let n = b.candidates.len() as int;
    if b.selected + 1 < n {
        vstd::arithmetic::div_mod::lemma_small_mod((b.selected + 1) as nat, n as nat);
    } else {
        vstd::arithmetic::div_mod::lemma_mod_self_0(n);
    }
    let p = b.after_prev().selected;
    if p + 1 < n {
        vstd::arithmetic::div_mod::lemma_small_mod((p + 1) as nat, n as nat);
    } else {
        vstd::arithmetic::div_mod::lemma_mod_self_0(n);
    }
}

/// The keys for candidates act on the block in focus alone: it takes its next or
/// previous candidate, round its list, and keeps its reading and its punctuation.
/// No other block changes, and the focus stays.
pub proof fn candidates_change_in_the_focused_block(s: SessionModel, n: int, j: int)
    requires
        s is BlockSelecting,
        s->BlockSelecting_current_index < s->BlockSelecting_blocks.len(),
        0 <= j < s->BlockSelecting_blocks.len(),
        s->BlockSelecting_blocks[s->BlockSelecting_current_index as int].candidates.len()
            <= usize::MAX,
        s->BlockSelecting_blocks[s->BlockSelecting_current_index as int].selected
            < s->BlockSelecting_blocks[s->BlockSelecting_current_index as int].candidates.len(),
    ensures
        ({
            let blocks = s->BlockSelecting_blocks;
            let at = s->BlockSelecting_current_index as int;
            let b = blocks[at];
            let count = b.candidates.len();
            let next = s.after_block_next();
            let prev = s.after_block_prev();
            let nth = s.after_block_select_nth(n);
            &&& s.focused_block() == Some(b)
            &&& next->BlockSelecting_blocks.len() == blocks.len()
            &&& prev->BlockSelecting_blocks.len() == blocks.len()
            &&& nth->BlockSelecting_blocks.len() == blocks.len()
            &&& j != at ==> {
                &&& next->BlockSelecting_blocks[j] == blocks[j]
                &&& prev->BlockSelecting_blocks[j] == blocks[j]
                &&& nth->BlockSelecting_blocks[j] == blocks[j]
            }
            &&& next.focused_block()->0.current() == b.candidates[if b.selected + 1 < count {
                b.selected + 1
            } else {
                0
            }]
            &&& prev.focused_block()->0.current() == b.candidates[if b.selected == 0 {
                count - 1
            } else {
                b.selected - 1
            }]
            &&& s.block_has_nth(n) <==> 1 <= n <= count
            &&& 1 <= n <= count ==> nth.focused_block()->0.current() == b.candidates[n - 1]
            &&& !(1 <= n <= count) ==> nth == s
            &&& next.focused_block()->0 == (BlockModel {
                selected: next.focused_block()->0.selected,
                ..b
            })
            &&& prev.focused_block()->0 == (BlockModel {
                selected: prev.focused_block()->0.selected,
                ..b
            })
            &&& nth.focused_block()->0 == (BlockModel {
                selected: nth.focused_block()->0.selected,
                ..b
            })
            &&& next.block_focus() == at && prev.block_focus() == at && nth.block_focus() == at
            &&& next.reading() == s.reading() && prev.reading() == s.reading() && nth.reading()
                == s.reading()
        }),
{
    let b = s->BlockSelecting_blocks[s->BlockSelecting_current_index as int];
    let n = b.candidates.len() as int;
    if b.selected + 1 < n {
        vstd::arithmetic::div_mod::lemma_small_mod((b.selected + 1) as nat, n as nat);
    } else {
        vstd::arithmetic::div_mod::lemma_mod_self_0(n);
    }
}

/// A block stands for its chosen candidate, or for its reading where it has none,
/// with its punctuation behind it; a row stands for its blocks in order.
pub proof fn blocks_stand_for_their_candidates(
    row: Seq<BlockModel>,
    reading: Seq<char>,
    punct: char,
    candidates: Seq<Seq<char>>,
    selected: usize,
)
    ensures
        ({
            let chosen = if selected < candidates.len() {
                candidates[selected as int]
            } else {
                reading
            };
            let with = BlockModel { reading, trailing_punct: Some(punct), candidates, selected };
            let plain = BlockModel { reading, trailing_punct: None, candidates, selected };
            &&& crate::session::block_text(row.push(with)) == (crate::session::block_text(row)
                + chosen).push(punct)
            &&& crate::session::block_text(row.push(plain)) == crate::session::block_text(row)
                + chosen
            &&& crate::session::block_text(Seq::empty()).len() == 0
        }),
{
    let with = BlockModel { reading, trailing_punct: Some(punct), candidates, selected };
    let plain = BlockModel { reading, trailing_punct: None, candidates, selected };
    assert(row.push(with).drop_last() =~= row);
    assert(row.push(plain).drop_last() =~= row);
    let chosen = with.current();
    assert(crate::session::block_text(row.push(with)) =~= (crate::session::block_text(row)
        + chosen).push(punct));
    assert(crate::session::block_text(row.push(plain)) =~= crate::session::block_text(row)
        + chosen);
}

/// The part that is marked is the candidate of the block in focus, behind the text
/// of the blocks before it; its punctuation is not marked.
pub proof fn the_focused_block_is_marked(s: SessionModel)
    requires
        s is BlockSelecting,
        s->BlockSelecting_current_index < s->BlockSelecting_blocks.len(),
    ensures
        s.block_parts()->Some_0.1
            == s->BlockSelecting_blocks[s->BlockSelecting_current_index as int].current(),
        s.block_parts()->Some_0.0 == crate::session::block_text(
            s->BlockSelecting_blocks.take(s->BlockSelecting_current_index as int),
        ),
{
}

/// The focus moves to the neighbouring block where there is one.
pub proof fn focus_moves_to_the_neighbour(s: SessionModel)
    requires
        s is BlockSelecting,
        s.well_formed(),
        s->BlockSelecting_blocks.len() <= usize::MAX,
    ensures
        s.block_can_move_next() <==> s->BlockSelecting_current_index + 1
            < s->BlockSelecting_blocks.len(),
        s.block_can_move_prev() <==> s->BlockSelecting_current_index > 0,
        s.block_can_move_next() ==> s.after_block_move_next().focused_block() == Some(
            s->BlockSelecting_blocks[s->BlockSelecting_current_index + 1],
        ),
        s.block_can_move_prev() ==> s.after_block_move_prev().focused_block() == Some(
            s->BlockSelecting_blocks[s->BlockSelecting_current_index - 1],
        ),
        s.after_block_move_next()->BlockSelecting_blocks == s->BlockSelecting_blocks,
        s.after_block_move_prev()->BlockSelecting_blocks == s->BlockSelecting_blocks,
{
}

/// Keys for blocks leave every other state alone.
pub proof fn only_rows_have_blocks(s: SessionModel, n: int)
    requires
        !(s is BlockSelecting),
    ensures
        s.after_block_next() == s,
        s.after_block_prev() == s,
        s.after_block_move_next() == s,
        s.after_block_move_prev() == s,
        s.after_block_select_nth(n) == s,
        !s.block_has_nth(n),
        !s.block_can_move_next(),
        !s.block_can_move_prev(),
        s.focused_block() is None,
        s.block_parts() is None,
        s.blocks_text() is None,
{
}

}
