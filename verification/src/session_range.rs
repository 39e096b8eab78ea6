//! Choosing how much of a reading is converted.
use vstd::prelude::*;
use vstd::string::*;
use crate::session::{SessionModel, SessionState};
use crate::text::{chars_of, string_of};

verus! {

/// The smaller of a boundary and the length of the reading.
pub open spec fn range_end(full_reading: Seq<char>, select_end: usize) -> int {
    if select_end <= full_reading.len() {
        select_end as int
    } else {
        full_reading.len() as int
    }
}

impl SessionModel {
    /// The same range selection with another boundary; other states stay.
    pub open spec fn with_range_end(self, end: int) -> SessionModel {
        match self {
            SessionModel::RangeSelect { full_reading, original_preview, .. } => {
                SessionModel::RangeSelect { full_reading, select_end: end as usize, original_preview }
            },
            _ => self,
        }
    }

    /// The end of a range lies in the reading, and one character is chosen at least.
    pub open spec fn range_in_reading(self) -> bool {
        match self {
            SessionModel::RangeSelect { full_reading, select_end, .. } => 1 <= select_end
                <= full_reading.len(),
            _ => true,
        }
    }

    /// The boundary can move to the right.
    pub open spec fn range_can_extend(self) -> bool {
        match self {
            SessionModel::RangeSelect { full_reading, select_end, .. } => select_end
                < full_reading.len(),
            _ => false,
        }
    }

    /// The boundary can move to the left: the last chosen character stays chosen.
    pub open spec fn range_can_shrink(self) -> bool {
        match self {
            SessionModel::RangeSelect { select_end, .. } => select_end > 1,
            _ => false,
        }
    }

    /// Boundary of a range selection.
    pub open spec fn range_boundary(self) -> int {
        match self {
            SessionModel::RangeSelect { select_end, .. } => select_end as int,
            _ => 0,
        }
    }

    pub open spec fn after_range_extend(self) -> SessionModel {
        if self.range_can_extend() {
            self.with_range_end(self.range_boundary() + 1)
        } else {
            self
        }
    }

    pub open spec fn after_range_shrink(self) -> SessionModel {
        if self.range_can_shrink() {
            self.with_range_end(self.range_boundary() - 1)
        } else {
            self
        }
    }

    pub open spec fn after_range_to_start(self) -> SessionModel {
        if self.range_can_shrink() {
            self.with_range_end(1)
        } else {
            self
        }
    }

    pub open spec fn after_range_to_end(self) -> SessionModel {
        match self {
            SessionModel::RangeSelect { full_reading, .. } if self.range_can_extend() => {
                self.with_range_end(full_reading.len() as int)
            },
            _ => self,
        }
    }

    /// The chosen part of the reading and the part behind it.
    pub open spec fn range_parts(self) -> Option<(Seq<char>, Seq<char>)> {
        match self {
            SessionModel::RangeSelect { full_reading, select_end, .. } => Some(
                (
                    full_reading.subrange(0, range_end(full_reading, select_end)),
                    full_reading.subrange(
                        range_end(full_reading, select_end),
                        full_reading.len() as int,
                    ),
                ),
            ),
            _ => None,
        }
    }
}

impl SessionState {
    pub fn set_range_select(
        &mut self,
        full_reading: String,
        select_end: usize,
        original_preview: String,
    )
        ensures
            final(self)@ == (SessionModel::RangeSelect {
                full_reading: full_reading@,
                select_end,
                original_preview: original_preview@,
            }),
            final(self)@.selecting_flag(),
    {
        *self = SessionState::RangeSelect { full_reading, select_end, original_preview };
    }

    pub fn is_range_select(&self) -> (r: bool)
        ensures
            r == (self@ is RangeSelect),
    {
        match self {
            SessionState::RangeSelect { .. } => true,
            _ => false,
        }
    }

    /// Moves the boundary one character to the right; tells whether it moved.
    pub fn range_select_extend(&mut self) -> (r: bool)
        ensures
            final(self)@ == old(self)@.after_range_extend(),
            old(self)@.range_in_reading() ==> final(self)@.range_in_reading(),
            r == old(self)@.range_can_extend(),
    {
        if let SessionState::RangeSelect { full_reading, select_end, .. } = self {
            let max: usize = full_reading.as_str().unicode_len();
            if *select_end < max {
                *select_end = *select_end + 1;
                return true;
            }
        }
        false
    }

    /// Moves the boundary one character to the left; tells whether it moved.
    pub fn range_select_shrink(&mut self) -> (r: bool)
        ensures
            final(self)@ == old(self)@.after_range_shrink(),
            old(self)@.range_in_reading() ==> final(self)@.range_in_reading(),
            r == old(self)@.range_can_shrink(),
    {
        if let SessionState::RangeSelect { select_end, .. } = self {
            if *select_end > 1 {
                *select_end = *select_end - 1;
                return true;
            }
        }
        false
    }

    /// Moves the boundary behind the first character (Home); tells whether it moved.
    pub fn range_select_to_start(&mut self) -> (r: bool)
        ensures
            final(self)@ == old(self)@.after_range_to_start(),
            old(self)@.range_in_reading() ==> final(self)@.range_in_reading(),
            r == old(self)@.range_can_shrink(),
    {
        if let SessionState::RangeSelect { select_end, .. } = self {
            if *select_end > 1 {
                *select_end = 1;
                return true;
            }
        }
        false
    }

    /// Moves the boundary behind the last character (End); tells whether it moved.
    pub fn range_select_to_end(&mut self) -> (r: bool)
        ensures
            final(self)@ == old(self)@.after_range_to_end(),
            old(self)@.range_in_reading() ==> final(self)@.range_in_reading(),
            r == old(self)@.range_can_extend(),
    {
        if let SessionState::RangeSelect { full_reading, select_end, .. } = self {
            let max: usize = full_reading.as_str().unicode_len();
            if *select_end < max {
                *select_end = max;
                return true;
            }
        }
        false
    }

    /// The chosen part of the reading and the part behind it.
    pub fn range_select_parts(&self) -> (r: Option<(String, String)>)
        ensures
            match r {
                Some((chosen, rest)) => self@.range_parts() == Some((chosen@, rest@)),
                None => self@.range_parts() is None,
            },
    {
        if let SessionState::RangeSelect { full_reading, select_end, .. } = self {
            let chars: Vec<char> = chars_of(full_reading.as_str());
            let end: usize = if *select_end < chars.len() {
                *select_end
            } else {
                chars.len()
            };
            let chosen = string_of(&chars, 0, end);
            let rest = string_of(&chars, end, chars.len());
            Some((chosen, rest))
        } else {
            None
        }
    }

    /// What was shown before the range selection began.
    pub fn range_select_original_preview(&self) -> (r: Option<&str>)
        ensures
            crate::text::opt_text(r) == (match self@ {
                SessionModel::RangeSelect { original_preview, .. } => Some(original_preview),
                _ => None,
            }),
    {
        match self {
            SessionState::RangeSelect { original_preview, .. } => Some(original_preview.as_str()),
            _ => None,
        }
    }
}

/// The two parts of a range selection always join to the whole reading.
pub proof fn range_parts_join_to_reading(s: SessionModel)
    requires
        s is RangeSelect,
    ensures
        s.range_parts() is Some,
        s.range_parts()->Some_0.0 + s.range_parts()->Some_0.1 == s->RangeSelect_full_reading,
{
    assert(s.range_parts()->Some_0.0 + s.range_parts()->Some_0.1 =~= s->RangeSelect_full_reading);
}

/// Extending and shrinking undo each other wherever they move the boundary.
pub proof fn extend_and_shrink_undo_each_other(s: SessionModel)
    ensures
        s.range_can_extend() && 1 <= s.range_boundary() < usize::MAX
            ==> s.after_range_extend().after_range_shrink() == s,
        s.range_can_shrink() && s.range_boundary() <= s->RangeSelect_full_reading.len()
            ==> s.after_range_shrink().after_range_extend() == s,
{
}

/// Home and End reach the two ends in one step and stay there.
pub proof fn range_ends_are_reached_once(s: SessionModel)
    ensures
        s.after_range_to_start().after_range_to_start() == s.after_range_to_start(),
        s.after_range_to_end().after_range_to_end() == s.after_range_to_end(),
        s is RangeSelect && s.range_boundary() >= 1 ==> s.after_range_to_start().range_boundary() == 1,
        s.range_can_extend() && s->RangeSelect_full_reading.len() <= usize::MAX
            ==> s.after_range_to_end().range_boundary() == s->RangeSelect_full_reading.len(),
        !(s is RangeSelect) ==> s.after_range_to_start() == s && s.after_range_to_end() == s,
{
}

/// Moving the boundary keeps it between the first character and the end of the reading.
pub proof fn range_boundary_stays_in_reading(s: SessionModel)
    requires
        s.range_in_reading(),
        s is RangeSelect ==> s->RangeSelect_full_reading.len() <= usize::MAX,
    ensures
        s.after_range_extend().range_in_reading(),
        s.after_range_shrink().range_in_reading(),
        s.after_range_to_start().range_in_reading(),
        s.after_range_to_end().range_in_reading(),
{
}

/// The chosen part is the front of the reading up to the boundary. Each key that
/// moves the boundary moves it by one character, and changes nothing else; at an
/// end of the reading it changes nothing at all.
pub proof fn range_moves_by_one_character(s: SessionModel)
    requires
        s is RangeSelect,
        s.range_in_reading(),
        s->RangeSelect_full_reading.len() < usize::MAX,
    ensures
        ({
            let reading = s->RangeSelect_full_reading;
            let end = s->RangeSelect_select_end as int;
            let preview = s->RangeSelect_original_preview;
            &&& s.range_boundary() == end
            &&& s.range_parts() == Some((reading.take(end), reading.skip(end)))
            &&& s.after_range_extend() == (if end < reading.len() {
                SessionModel::RangeSelect {
                    full_reading: reading,
                    select_end: (end + 1) as usize,
                    original_preview: preview,
                }
            } else {
                s
            })
            &&& s.after_range_shrink() == (if end > 1 {
                SessionModel::RangeSelect {
                    full_reading: reading,
                    select_end: (end - 1) as usize,
                    original_preview: preview,
                }
            } else {
                s
            })
            &&& s.range_can_extend() <==> s.after_range_extend() != s
            &&& s.range_can_shrink() <==> s.after_range_shrink() != s
            &&& s.after_range_to_end().range_parts()->Some_0.0 == reading
            &&& s.after_range_to_end().range_parts()->Some_0.1.len() == 0
            &&& s.after_range_to_start().range_parts()->Some_0.0 == seq![reading[0]]
            &&& s.after_range_to_start()->RangeSelect_original_preview == preview
            &&& s.after_range_to_end()->RangeSelect_original_preview == preview
        }),
{
    let reading = s->RangeSelect_full_reading;
    let end = s->RangeSelect_select_end as int;
    assert(s.range_parts()->Some_0.0 =~= reading.take(end));
    assert(s.range_parts()->Some_0.1 =~= reading.skip(end));
    assert(s.after_range_to_end().range_parts()->Some_0.0 =~= reading);
    assert(s.after_range_to_start().range_parts()->Some_0.0 =~= seq![reading[0]]);
}

/// Keys that move the end of a range leave every other state alone.
pub proof fn only_ranges_have_ends(s: SessionModel)
    requires
        !(s is RangeSelect),
    ensures
        !s.range_can_extend(),
        !s.range_can_shrink(),
        s.after_range_extend() == s,
        s.after_range_shrink() == s,
        s.range_parts() is None,
        s.range_in_reading(),
{
}

}
