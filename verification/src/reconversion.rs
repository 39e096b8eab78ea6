//! Converting text of the document anew.
//!
//! Text is only ever replaced where it was read: when the selection or the focus
//! has changed in the meantime, nothing is done.
use vstd::prelude::*;
use vstd::string::*;
use crate::session::{CandidateViewSource, ListModel, SessionModel, SessionState};
use crate::steps::{Step, StepModel};
use crate::steps;
use crate::text;
use crate::text::{char_is_control, chars_of, str_eq};

verus! {

/// The longest text that is converted anew, in characters.
pub const MAX_CHARS: usize = 128;

/// How many candidates of each reading are looked at.
pub const MAX_PER_READING: usize = 40;

/// How many candidates are offered.
pub const MAX_CANDIDATES: usize = 80;

/// One line of text, neither empty nor too long.
pub open spec fn convertible(t: Seq<char>) -> bool {
    0 < t.len() <= MAX_CHARS && (forall|i: int|
        0 <= i < t.len() ==> !text::is_control(#[trigger] t[i]))
}

pub fn valid_text(t: &str) -> (r: bool)
    ensures
        r == convertible(t@),
{
    let chars: Vec<char> = chars_of(t);
    if chars.len() == 0 || chars.len() > MAX_CHARS {
        return false;
    }
    let mut i: usize = 0;
    while i < chars.len()
        invariant
            i <= chars@.len(),
            chars@ == t@,
            0 < chars@.len() <= MAX_CHARS,
            forall|k: int| 0 <= k < i ==> !text::is_control(#[trigger] chars@[k]),
        decreases chars@.len() - i,
    {
        if char_is_control(chars[i]) {
            assert(text::is_control(t@[i as int]));
            return false;
        }
        i = i + 1;
    }
    true
}

/// The conversion key alone, or Ctrl+Shift+R.
pub fn shortcut(vk: u16, ctrl: bool, shift: bool, alt: bool) -> (r: bool)
    ensures
        r == ((vk == 0x1c && !ctrl && !shift && !alt) || (vk == 0x52 && ctrl && shift && !alt)),
{
    (vk == 0x1c && !ctrl && !shift && !alt) || (vk == 0x52 && ctrl && shift && !alt)
}

/// Whether the selection may be read: not while text is being composed.
pub fn selected(has_composition: bool, sess: &SessionState) -> (r: bool)
    ensures
        r == (!has_composition && sess@ is Idle),
{
    !has_composition && sess.is_idle()
}

/// What a document says of its selection.
pub struct SelectionRead {
    pub read_only: bool,
    /// How many selections were given out.
    pub fetched: u32,
    pub text: String,
}

/// How many UTF-16 units of a selection are read.
pub const MAX_UNITS: usize = 257;

/// The text of a range, from the UTF-16 units that were read of it. Nothing where
/// it cannot be converted anew.
pub fn range_text(units: &[u16]) -> (r: Option<String>)
    ensures
        r is Some == (crate::wide::well_formed(units@) && convertible(
            crate::wide::decoded(units@),
        )),
        r is Some ==> r->0@ == crate::wide::decoded(units@),
{
    match crate::wide::from_wide_checked(units) {
        Some(t) => if valid_text(t.as_str()) {
            Some(t)
        } else {
            None
        },
        None => None,
    }
}

/// Whether a selection can be converted anew.
pub fn selection_usable(read: &SelectionRead) -> (r: bool)
    ensures
        r == (!read.read_only && read.fetched == 1 && convertible(read.text@)),
{
    !read.read_only && read.fetched == 1 && valid_text(read.text.as_str())
}

/// Whether the selection is still the one that was read: the document has the
/// focus, nothing is being composed, and text and ends of the selection are the
/// same.
pub fn still_selected(
    focused: bool,
    has_composition: bool,
    current: &str,
    original: &str,
    start_offset: i32,
    end_offset: i32,
) -> (r: bool)
    ensures
        r == (focused && !has_composition && current@ == original@ && start_offset == 0
            && end_offset == 0),
{
    focused && !has_composition && start_offset == 0 && end_offset == 0 && str_eq(current, original)
}

/// The candidates with index `i` of the first `g` readings.
pub open spec fn row(groups: Seq<Seq<Seq<char>>>, i: int, g: int) -> Seq<Seq<char>>
    decreases g,
{
    if g <= 0 {
        Seq::empty()
    } else if i < groups[g - 1].len() {
        row(groups, i, g - 1).push(groups[g - 1][i])
    } else {
        row(groups, i, g - 1)
    }
}

/// The first `n` candidates of every reading, in turn.
pub open spec fn rows(groups: Seq<Seq<Seq<char>>>, n: int) -> Seq<Seq<char>>
    decreases n,
{
    if n <= 0 {
        Seq::empty()
    } else {
        rows(groups, n - 1) + row(groups, n - 1, groups.len() as int)
    }
}

/// One more candidate, where it is new and there is room.
pub open spec fn with_new(list: Seq<Seq<char>>, c: Seq<char>) -> Seq<Seq<char>> {
    if list.len() < MAX_CANDIDATES && !list.contains(c) {
        list.push(c)
    } else {
        list
    }
}

/// All of `more` in turn, each where it is new and there is room.
pub open spec fn with_all(list: Seq<Seq<char>>, more: Seq<Seq<char>>) -> Seq<Seq<char>>
    decreases more.len(),
{
    if more.len() == 0 {
        list
    } else {
        with_new(with_all(list, more.drop_last()), more.last())
    }
}

/// The candidates for a text: itself first, then those of its readings in turn, so
/// that no reading crowds out the others.
pub open spec fn candidates_for(original: Seq<char>, groups: Seq<Seq<Seq<char>>>) -> Seq<Seq<char>> {
    with_all(seq![original], rows(groups, MAX_PER_READING as int))
}

pub open spec fn group_texts(groups: Seq<Vec<String>>) -> Seq<Seq<Seq<char>>> {
    groups.map_values(|g: Vec<String>| text::texts(g@))
}

/// Whether a list of texts holds one of them.
fn contains_str(list: &Vec<String>, t: &str) -> (r: bool)
    ensures
        r == text::texts(list@).contains(t@),
{
    let mut i: usize = 0;
    while i < list.len()
        invariant
            i <= list@.len(),
            forall|k: int| 0 <= k < i ==> (#[trigger] list@[k])@ != t@,
        decreases list@.len() - i,
    {
        if str_eq(list[i].as_str(), t) {
            assert(text::texts(list@)[i as int] == t@);
            return true;
        }
        i = i + 1;
    }
    proof {
        if text::texts(list@).contains(t@) {
            let k = choose|k: int| 0 <= k < text::texts(list@).len() && text::texts(list@)[k] == t@;
            assert(list@[k]@ == t@);
        }
    }
    false
}

/// `more` followed by one more text.
proof fn lemma_with_all_push(list: Seq<Seq<char>>, more: Seq<Seq<char>>, c: Seq<char>)
    ensures
        with_all(list, more.push(c)) == with_new(with_all(list, more), c),
{
    assert(more.push(c).drop_last() =~= more);
    assert(more.push(c).last() == c);
}

/// The candidates that are offered for a text. `groups` holds the dictionary's
/// candidates for each of its readings.
pub fn reconversion_candidates(original: &str, groups: &Vec<Vec<String>>) -> (r: Vec<String>)
    ensures
        text::texts(r@) == candidates_for(original@, group_texts(groups@)),
{
    let ghost models = group_texts(groups@);
    let mut list: Vec<String> = vec![original.to_owned()];
    assert(text::texts(list@) =~= seq![original@]);
    let mut i: usize = 0;
    while i < MAX_PER_READING
        invariant
            i <= MAX_PER_READING,
            models == group_texts(groups@),
            text::texts(list@) == with_all(seq![original@], rows(models, i as int)),
        decreases MAX_PER_READING - i,
    {
        let mut g: usize = 0;
        assert(rows(models, i as int) + row(models, i as int, 0) =~= rows(models, i as int));
        while g < groups.len()
            invariant
                g <= groups@.len(),
                i < MAX_PER_READING,
                models == group_texts(groups@),
                text::texts(list@) == with_all(
                    seq![original@],
                    rows(models, i as int) + row(models, i as int, g as int),
                ),
            decreases groups@.len() - g,
        {
            let group: &Vec<String> = &groups[g];
            assert(models[g as int] == text::texts(group@));
            if i < group.len() {
                let ghost so_far = rows(models, i as int) + row(models, i as int, g as int);
                let ghost before = text::texts(list@);
                assert(models[g as int][i as int] == group@[i as int]@);
                proof {
                    lemma_with_all_push(seq![original@], so_far, group@[i as int]@);
                }
                assert(rows(models, i as int) + row(models, i as int, g + 1) =~= so_far.push(
                    group@[i as int]@,
                ));
                if list.len() < MAX_CANDIDATES && !contains_str(&list, group[i].as_str()) {
                    list.push(group[i].clone());
                    assert(text::texts(list@) =~= before.push(group@[i as int]@));
                }
            }
            g = g + 1;
        }
        i = i + 1;
    }
    list
}

/// The steps before the candidates are shown: `reading` becomes the engine's text.
pub open spec fn begin_steps(reading: Seq<char>) -> Seq<StepModel> {
    seq![
        StepModel::BumpGeneration,
        StepModel::StopLiveTimer,
        StepModel::ClearPreviews,
        StepModel::Reclaim,
        StepModel::ResetPreedit,
        StepModel::ForcePreedit { text: reading },
    ]
}

/// Begins converting a text anew, once its place is checked: the readings of the
/// text and the dictionary's candidates for each are known. Without a reading, or
/// while something else goes on, nothing is done.
pub fn begin(
    sess: &SessionState,
    original: &str,
    readings: &Vec<String>,
    groups: &Vec<Vec<String>>,
) -> (r: Option<BeginPlan>)
    ensures
        r is Some == (readings@.len() > 0 && sess@ is Idle),
        r is Some ==> r->0.reading@ == readings@[0]@ && text::texts(r->0.candidates@)
            == candidates_for(original@, group_texts(groups@)) && steps::step_models(r->0.steps@)
            == begin_steps(readings@[0]@),
{
    if readings.len() == 0 {
        return None;
    }
    let candidates = reconversion_candidates(original, groups);
    if !sess.is_idle() {
        return None;
    }
    let reading = readings[0].clone();
    let steps = vec![
        Step::BumpGeneration,
        Step::StopLiveTimer,
        Step::ClearPreviews,
        Step::Reclaim,
        Step::ResetPreedit,
        Step::ForcePreedit { text: reading.clone() },
    ];
    assert(steps::step_models(steps@) =~= begin_steps(reading@));
    Some(BeginPlan { reading, candidates, steps })
}

/// What a new conversion begins with.
pub struct BeginPlan {
    pub reading: String,
    pub candidates: Vec<String>,
    pub steps: Vec<Step>,
}

/// The list that is shown first.
pub open spec fn begun_list(
    reading: Seq<char>,
    candidates: Seq<Seq<char>>,
    x: i32,
    y: i32,
    pending: bool,
) -> ListModel {
    ListModel::first_shown(
        candidates,
        reading,
        x,
        y,
        pending,
        Seq::empty(),
        Seq::empty(),
        Seq::empty(),
        Seq::empty(),
    ).after_rebuild_views(CandidateViewSource::Reconversion)
}

/// Shows the candidates at a place. `pending` tells that the model has been asked
/// for more.
pub fn begin_shown(
    sess: &mut SessionState,
    reading: String,
    candidates: Vec<String>,
    x: i32,
    y: i32,
    pending: bool,
) -> (r: Vec<Step>)
    ensures
        final(sess)@.well_formed(),
        ({
            let list = begun_list(reading@, text::texts(candidates@), x, y, pending);
            &&& final(sess)@ == (SessionModel::Selecting { list })
            &&& steps::step_models(r@) == seq![list.page_shown(Some((x, y)), false)] + (if pending {
                seq![StepModel::StartWaitingTimer]
            } else {
                Seq::empty()
            })
        }),
{
    sess.activate_selecting(candidates, reading, x, y, pending);
    sess.rebuild_selecting_candidate_views(CandidateViewSource::Reconversion);
    let mut steps = vec![crate::edit_ops::show_page(sess, Some((x, y)), false)];
    if pending {
        steps.push(Step::StartWaitingTimer);
    }
    assert(steps::step_models(steps@) =~= seq![
        sess@->list.page_shown(Some((x, y)), false),
    ] + (if pending {
        seq![StepModel::StartWaitingTimer]
    } else {
        Seq::empty()
    }));
    steps
}

/// A text that is being converted anew, and the composition that it stands in.
pub struct Original {
    pub composition: usize,
    pub text: String,
}

/// The text to put back when a new conversion is cancelled; nothing where the
/// composition in progress is another one.
pub fn cancel(original: &Option<Original>, current: Option<usize>) -> (r: Option<String>)
    ensures
        match (*original, current) {
            (Some(o), Some(c)) if o.composition == c => text::opt_string(r) == Some(o.text@),
            _ => r is None,
        },
{
    match original {
        Some(o) => match current {
            Some(c) => if o.composition == c {
                Some(o.text.clone())
            } else {
                None
            },
            None => None,
        },
        None => None,
    }
}

/// What follows once the text is put back.
pub fn cancelled(sess: &mut SessionState, original: &mut Option<Original>) -> (r: Vec<Step>)
    ensures
        final(sess)@ is Idle,
        *final(original) is None,
        steps::step_models(r@) == seq![
            StepModel::Reclaim,
            StepModel::ResetPreedit,
            StepModel::HideCandidates,
            StepModel::StopWaitingTimer,
        ],
{
    clear(original);
    sess.set_idle();
    let steps = vec![
        Step::Reclaim,
        Step::ResetPreedit,
        Step::HideCandidates,
        Step::StopWaitingTimer,
    ];
    assert(steps::step_models(steps@) =~= seq![
        StepModel::Reclaim,
        StepModel::ResetPreedit,
        StepModel::HideCandidates,
        StepModel::StopWaitingTimer,
    ]);
    steps
}

/// There is nothing to put back any more.
pub fn clear(original: &mut Option<Original>)
    ensures
        *final(original) is None,
{
    *original = None;
}

// Laws

/// The candidates start with the text itself, hold nothing twice, and are never
/// more than the limit.
pub proof fn candidates_are_distinct(original: Seq<char>, groups: Seq<Seq<Seq<char>>>)
    ensures
        1 <= candidates_for(original, groups).len() <= MAX_CANDIDATES,
        candidates_for(original, groups)[0] == original,
        candidates_for(original, groups).no_duplicates(),
{
    lemma_with_all_grows(original, rows(groups, MAX_PER_READING as int));
}

proof fn lemma_with_all_grows(original: Seq<char>, more: Seq<Seq<char>>)
    ensures
        1 <= with_all(seq![original], more).len() <= MAX_CANDIDATES,
        with_all(seq![original], more)[0] == original,
        with_all(seq![original], more).no_duplicates(),
    decreases more.len(),
{
    if more.len() > 0 {
        lemma_with_all_grows(original, more.drop_last());
        let before = with_all(seq![original], more.drop_last());
        if before.len() < MAX_CANDIDATES && !before.contains(more.last()) {
            let after = before.push(more.last());
            assert forall|i: int, j: int| 0 <= i < after.len() && 0 <= j < after.len() && i
                != j implies after[i] != after[j] by {
                if i == before.len() {
                    assert(before.contains(before[j]));
                } else if j == before.len() {
                    assert(before.contains(before[i]));
                }
            }
        }
    }
}

/// The first candidate of every reading is offered while there is room: no reading
/// is crowded out by another one's many candidates.
pub proof fn every_reading_is_heard(original: Seq<char>, groups: Seq<Seq<Seq<char>>>, g: int)
    requires
        0 <= g < groups.len(),
        groups.len() < MAX_CANDIDATES,
        groups[g].len() > 0,
    ensures
        candidates_for(original, groups).contains(groups[g][0]),
{
    let first = row(groups, 0, groups.len() as int);
    lemma_row_len(groups, 0, groups.len() as int);
    lemma_row_holds(groups, 0, groups.len() as int, g);
    lemma_rows_start(groups, MAX_PER_READING as int);
    let all = rows(groups, MAX_PER_READING as int);
    let entry = groups[g][0];
    let k = choose|k: int| 0 <= k < first.len() && first[k] == entry;
    assert(all[k] == entry);
    lemma_with_all_keeps(seq![original], all, k);
}

proof fn lemma_row_len(groups: Seq<Seq<Seq<char>>>, i: int, g: int)
    requires
        0 <= g <= groups.len(),
    ensures
        row(groups, i, g).len() <= g,
    decreases g,
{
    if g > 0 {
        lemma_row_len(groups, i, g - 1);
    }
}

proof fn lemma_row_holds(groups: Seq<Seq<Seq<char>>>, i: int, g: int, at: int)
    requires
        0 <= at < g <= groups.len(),
        0 <= i < groups[at].len(),
    ensures
        row(groups, i, g).contains(groups[at][i]),
    decreases g,
{
    if at == g - 1 {
        assert(row(groups, i, g).last() == groups[at][i]);
    } else {
        lemma_row_holds(groups, i, g - 1, at);
        let shorter = row(groups, i, g - 1);
        let entry = groups[at][i];
        let k = choose|k: int| 0 <= k < shorter.len() && shorter[k] == entry;
        assert(row(groups, i, g)[k] == groups[at][i]);
    }
}

proof fn lemma_rows_start(groups: Seq<Seq<Seq<char>>>, n: int)
    requires
        n >= 1,
    ensures
        row(groups, 0, groups.len() as int).is_prefix_of(rows(groups, n)),
    decreases n,
{
    if n == 1 {
        assert(rows(groups, 0) =~= Seq::<Seq<char>>::empty());
        assert(rows(groups, 1) =~= row(groups, 0, groups.len() as int));
    } else {
        lemma_rows_start(groups, n - 1);
    }
}

/// An entry that comes before the list is full ends up in it.
proof fn lemma_with_all_keeps(list: Seq<Seq<char>>, more: Seq<Seq<char>>, k: int)
    requires
        0 <= k < more.len(),
        list.len() + k < MAX_CANDIDATES,
    ensures
        with_all(list, more).contains(more[k]),
    decreases more.len(),
{
    let before = with_all(list, more.drop_last());
    if k == more.len() - 1 {
        lemma_with_all_len(list, more.drop_last());
        if before.contains(more[k]) {
        } else {
            assert(with_all(list, more).last() == more[k]);
        }
    } else {
        lemma_with_all_keeps(list, more.drop_last(), k);
        assert(more.drop_last()[k] == more[k]);
        let j = choose|j: int| 0 <= j < before.len() && before[j] == more[k];
        assert(with_all(list, more)[j] == more[k]);
    }
}

proof fn lemma_with_all_len(list: Seq<Seq<char>>, more: Seq<Seq<char>>)
    ensures
        with_all(list, more).len() <= list.len() + more.len(),
    decreases more.len(),
{
    if more.len() > 0 {
        lemma_with_all_len(list, more.drop_last());
    }
}

/// The list that is shown first offers the text itself, and candidates that were
/// looked up in this way are not learned from.
pub proof fn begun_lists_offer_the_text_itself(
    original: Seq<char>,
    reading: Seq<char>,
    groups: Seq<Seq<Seq<char>>>,
    x: i32,
    y: i32,
    pending: bool,
)
    ensures
        ({
            let list = begun_list(reading, candidates_for(original, groups), x, y, pending);
            &&& list.shown_text() == original
            &&& list.current_view() is Some
            &&& !crate::learning::learning_source(list.current_view()->0.source)
        }),
{
    candidates_are_distinct(original, groups);
}

/// Nothing is offered but the text itself and the dictionary's candidates for its
/// readings.
pub proof fn no_candidate_is_made_up(original: Seq<char>, groups: Seq<Seq<Seq<char>>>, k: int)
    requires
        0 <= k < candidates_for(original, groups).len(),
    ensures
        candidates_for(original, groups)[k] == original || exists|g: int, i: int|
            0 <= g < groups.len() && 0 <= i < groups[g].len() && i < 40
                && candidates_for(original, groups)[k] == #[trigger] groups[g][i],
{
    let all = rows(groups, MAX_PER_READING as int);
    let list = candidates_for(original, groups);
    lemma_with_all_from(seq![original], all, k);
    if list[k] != original {
        assert(!seq![original].contains(list[k])) by {
            if seq![original].contains(list[k]) {
                let j = choose|j: int| 0 <= j < 1 && seq![original][j] == list[k];
            }
        }
        let j = choose|j: int| 0 <= j < all.len() && all[j] == list[k];
        lemma_rows_from(groups, MAX_PER_READING as int, j);
    }
}

proof fn lemma_with_all_from(list: Seq<Seq<char>>, more: Seq<Seq<char>>, k: int)
    requires
        0 <= k < with_all(list, more).len(),
    ensures
        list.contains(with_all(list, more)[k]) || more.contains(with_all(list, more)[k]),
    decreases more.len(),
{
    if more.len() == 0 {
        assert(list[k] == with_all(list, more)[k]);
    } else {
        let before = with_all(list, more.drop_last());
        if k < before.len() {
            lemma_with_all_from(list, more.drop_last(), k);
            if more.drop_last().contains(before[k]) {
                let j = choose|j: int|
                    0 <= j < more.drop_last().len() && more.drop_last()[j] == before[k];
                assert(more[j] == before[k]);
            }
        } else {
            assert(more[more.len() - 1] == with_all(list, more)[k]);
        }
    }
}

proof fn lemma_row_from(groups: Seq<Seq<Seq<char>>>, i: int, g: int, k: int)
    requires
        0 <= i,
        0 <= g <= groups.len(),
        0 <= k < row(groups, i, g).len(),
    ensures
        exists|h: int|
            0 <= h < groups.len() && i < groups[h].len() && row(groups, i, g)[k]
                == #[trigger] groups[h][i],
    decreases g,
{
    if g > 0 {
        let shorter = row(groups, i, g - 1);
        if k < shorter.len() {
            lemma_row_from(groups, i, g - 1, k);
        } else {
            assert(row(groups, i, g)[k] == groups[g - 1][i]);
        }
    }
}

proof fn lemma_rows_from(groups: Seq<Seq<Seq<char>>>, n: int, k: int)
    requires
        0 <= k < rows(groups, n).len(),
    ensures
        exists|g: int, i: int|
            0 <= g < groups.len() && 0 <= i < groups[g].len() && i < n && rows(groups, n)[k]
                == #[trigger] groups[g][i],
    decreases n,
{
    if n > 0 {
        let before = rows(groups, n - 1);
        if k < before.len() {
            lemma_rows_from(groups, n - 1, k);
        } else {
            let last = row(groups, n - 1, groups.len() as int);
            lemma_row_from(groups, n - 1, groups.len() as int, k - before.len());
            assert(rows(groups, n)[k] == last[k - before.len()]);
        }
    }
}

/// Every candidate among the first forty of its reading is offered while there is
/// room for all of them.
pub proof fn every_candidate_is_offered_while_there_is_room(
    original: Seq<char>,
    groups: Seq<Seq<Seq<char>>>,
    g: int,
    i: int,
)
    requires
        0 <= g < groups.len(),
        0 <= i < groups[g].len(),
        i < 40,
        groups.len() * (i + 1) < 80,
    ensures
        candidates_for(original, groups).contains(groups[g][i]),
{
    let all = rows(groups, MAX_PER_READING as int);
    let entry = groups[g][i];
    let first = rows(groups, i + 1);
    lemma_rows_len(groups, i + 1);
    lemma_row_holds(groups, i, groups.len() as int, g);
    let last = row(groups, i, groups.len() as int);
    let j = choose|j: int| 0 <= j < last.len() && last[j] == entry;
    let k = rows(groups, i).len() + j;
    assert(first[k] == entry);
    lemma_rows_prefix(groups, i + 1, MAX_PER_READING as int);
    assert(all[k] == entry);
    lemma_with_all_keeps(seq![original], all, k);
}

proof fn lemma_rows_len(groups: Seq<Seq<Seq<char>>>, n: int)
    requires
        n >= 0,
    ensures
        rows(groups, n).len() <= groups.len() * n,
    decreases n,
{
    if n > 0 {
        lemma_rows_len(groups, n - 1);
        lemma_row_len(groups, n - 1, groups.len() as int);
        vstd::arithmetic::mul::lemma_mul_is_distributive_sub(groups.len() as int, n, 1);
    } else {
        vstd::arithmetic::mul::lemma_mul_basics(groups.len() as int);
    }
}

proof fn lemma_rows_prefix(groups: Seq<Seq<Seq<char>>>, m: int, n: int)
    requires
        0 <= m <= n,
    ensures
        rows(groups, m).is_prefix_of(rows(groups, n)),
    decreases n - m,
{
    if m < n {
        lemma_rows_prefix(groups, m, n - 1);
    }
}

/// The readings take turns: the candidates of an earlier turn come before those of
/// a later one, and in one turn the readings keep their order.
pub proof fn readings_take_turns(original: Seq<char>, groups: Seq<Seq<Seq<char>>>, n: int, g: int)
    requires
        0 <= n < 40,
        0 <= g < groups.len(),
    ensures
        with_all(seq![original], rows(groups, n)).is_prefix_of(candidates_for(original, groups)),
        with_all(
            with_all(seq![original], rows(groups, n)),
            row(groups, n, groups.len() as int),
        ).is_prefix_of(candidates_for(original, groups)),
        row(groups, n, g).is_prefix_of(row(groups, n, g + 1)),
        n < groups[g].len() ==> row(groups, n, g + 1).last() == groups[g][n],
{
    let all = rows(groups, MAX_PER_READING as int);
    let last = row(groups, n, groups.len() as int);
    lemma_rows_prefix(groups, n, MAX_PER_READING as int);
    lemma_rows_prefix(groups, n + 1, MAX_PER_READING as int);
    lemma_with_all_prefix(seq![original], rows(groups, n), all);
    lemma_with_all_prefix(seq![original], rows(groups, n + 1), all);
    lemma_with_all_join(seq![original], rows(groups, n), last);
}

proof fn lemma_with_all_join(list: Seq<Seq<char>>, a: Seq<Seq<char>>, b: Seq<Seq<char>>)
    ensures
        with_all(list, a + b) == with_all(with_all(list, a), b),
    decreases b.len(),
{
    if b.len() == 0 {
        assert(a + b =~= a);
    } else {
        lemma_with_all_join(list, a, b.drop_last());
        assert((a + b).drop_last() =~= a + b.drop_last());
        assert((a + b).last() == b.last());
    }
}

proof fn lemma_with_all_prefix(list: Seq<Seq<char>>, a: Seq<Seq<char>>, b: Seq<Seq<char>>)
    requires
        a.is_prefix_of(b),
    ensures
        with_all(list, a).is_prefix_of(with_all(list, b)),
    decreases b.len(),
{
    if a.len() == b.len() {
        assert(a =~= b);
    } else {
        assert(a =~= b.drop_last().take(a.len() as int));
        assert(a.is_prefix_of(b.drop_last()));
        lemma_with_all_prefix(list, a, b.drop_last());
    }
}

/// A new candidate joins the end of the list while there is room; a known one does
/// not come up again.
pub proof fn new_candidates_join_the_end(list: Seq<Seq<char>>, c: Seq<char>)
    ensures
        list.len() < 80 && !list.contains(c) ==> with_new(list, c) == list.push(c),
        list.contains(c) || list.len() >= 80 ==> with_new(list, c) == list,
{
}

/// One line of 1 to 128 characters can be converted anew; a line end or any other
/// control character rules a text out wherever it stands.
pub proof fn one_line_can_be_converted(before: Seq<char>, c: char, after: Seq<char>)
    ensures
        convertible(before) ==> 1 <= before.len() <= 128,
        !convertible(Seq::empty()),
        text::is_control(c) ==> !convertible(before.push(c) + after),
        convertible(before) && convertible(after) && before.len() + after.len() <= 128
            ==> convertible(before + after),
        !text::is_control(c) ==> convertible(seq![c]),
        text::is_control('\n') && text::is_control('\r') && text::is_control('\t'),
        ' ' <= c <= '~' || '　' <= c <= '龯' ==> !text::is_control(c),
{
    let all = before.push(c) + after;
    assert(all[before.len() as int] == c);
    let joined = before + after;
    if convertible(before) && convertible(after) {
        assert forall|i: int| 0 <= i < joined.len() implies !text::is_control(
            #[trigger] joined[i],
        ) by {
            if i < before.len() {
                assert(joined[i] == before[i]);
            } else {
                assert(joined[i] == after[i - before.len()]);
            }
        }
    }
}

/// Whatever the engine held and whatever ran before, it holds the reading when the
/// candidates are shown, and nothing is committed.
pub proof fn reconversion_starts_from_the_reading(reading: Seq<char>, engine: Seq<char>)
    ensures
        steps::engine_text_after(begin_steps(reading), engine) == reading,
        begin_steps(reading).contains(StepModel::BumpGeneration),
        begin_steps(reading).contains(StepModel::StopLiveTimer),
        begin_steps(reading).contains(StepModel::ClearPreviews),
        begin_steps(reading).contains(StepModel::Reclaim),
        forall|i: int|
            0 <= i < begin_steps(reading).len() ==> !(#[trigger] begin_steps(
                reading,
            )[i] is EndComposition) && !(begin_steps(reading)[i] is CommitAndContinue),
{
    let all = begin_steps(reading);
    reveal_with_fuel(steps::engine_text_upto, 7);
    assert(all[0] == StepModel::BumpGeneration);
    assert(all[1] == StepModel::StopLiveTimer);
    assert(all[2] == StepModel::ClearPreviews);
    assert(all[3] == StepModel::Reclaim);
}

/// The list that is shown first is for the reading, stands alone, and waits for the
/// model where it was asked.
pub proof fn begun_lists_stand_alone(
    reading: Seq<char>,
    candidates: Seq<Seq<char>>,
    x: i32,
    y: i32,
    pending: bool,
    i: int,
)
    requires
        0 <= i < candidates.len(),
    ensures
        ({
            let list = begun_list(reading, candidates, x, y, pending);
            &&& list.well_formed()
            &&& list.candidates == candidates
            &&& list.selected == 0
            &&& list.original_preedit == reading
            &&& list.llm_pending == pending
            &&& list.pos_x == x && list.pos_y == y
            &&& list.prefix.len() == 0 && list.prefix_reading.len() == 0
            &&& list.remainder.len() == 0 && list.remainder_reading.len() == 0
            &&& list.punct_pending is None
            &&& list.candidate_views[i].text == candidates[i]
            &&& list.candidate_views[i].source == CandidateViewSource::Reconversion
        }),
{
}

}
