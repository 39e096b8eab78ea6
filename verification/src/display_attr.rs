//! The lines under text that is being composed.
use vstd::prelude::*;
use vstd::string::*;
use crate::globals::{GUID_DISPLAY_ATTRIBUTE, GUID_DISPLAY_ATTRIBUTE_INPUT};

verus! {

/// The numbers under which the system knows the two kinds of lines; zero where it
/// does not.
#[derive(Clone, Copy, Debug, PartialEq, Eq, Structural)]
pub struct Atoms {
    pub input: u32,
    pub converted: u32,
}

impl Atoms {
    pub fn new() -> (r: Self)
        ensures
            r == (Atoms { input: 0, converted: 0 }),
    {
        Atoms { input: 0, converted: 0 }
    }
}

pub fn set_atoms(atoms: &mut Atoms, input: u32, converted: u32)
    ensures
        *final(atoms) == (Atoms { input, converted }),
{
    *atoms = Atoms { input, converted };
}

pub fn atom_input(atoms: &Atoms) -> (r: u32)
    ensures
        r == atoms.input,
{
    atoms.input
}

pub fn atom_converted(atoms: &Atoms) -> (r: u32)
    ensures
        r == atoms.converted,
{
    atoms.converted
}

#[derive(Clone, Copy, Debug, PartialEq, Eq, Structural)]
pub enum LineStyle {
    Dot,
    Solid,
}

#[derive(Clone, Copy, Debug, PartialEq, Eq, Structural)]
pub enum TextRole {
    Input,
    TargetConverted,
}

/// How text is marked: a thin line in the text's own colours.
#[derive(Clone, Copy, Debug, PartialEq, Eq, Structural)]
pub struct DisplayAttribute {
    pub line: LineStyle,
    pub bold: bool,
    pub role: TextRole,
}

/// A way of marking text, with its identifier and name.
#[derive(Clone, Copy, Debug)]
pub struct DisplayAttrInfo {
    pub guid: u128,
    pub attr: DisplayAttribute,
    pub desc: &'static str,
}

#[verifier::ext_equal]
pub struct DisplayAttrModel {
    pub guid: u128,
    pub attr: DisplayAttribute,
    pub desc: Seq<char>,
}

impl View for DisplayAttrInfo {
    type V = DisplayAttrModel;

    open spec fn view(&self) -> DisplayAttrModel {
        DisplayAttrModel { guid: self.guid, attr: self.attr, desc: self.desc@ }
    }
}

/// Text that is being typed: a dotted line.
pub open spec fn input_attr() -> DisplayAttrModel {
    DisplayAttrModel {
        guid: GUID_DISPLAY_ATTRIBUTE_INPUT,
        attr: DisplayAttribute { line: LineStyle::Dot, bold: false, role: TextRole::Input },
        desc: "yurukan Input"@,
    }
}

/// A candidate that is being chosen: a solid line.
pub open spec fn converted_attr() -> DisplayAttrModel {
    DisplayAttrModel {
        guid: GUID_DISPLAY_ATTRIBUTE,
        attr: DisplayAttribute {
            line: LineStyle::Solid,
            bold: false,
            role: TextRole::TargetConverted,
        },
        desc: "yurukan Converted"@,
    }
}

fn input_info() -> (r: DisplayAttrInfo)
    ensures
        r@ == input_attr(),
{
    DisplayAttrInfo {
        guid: GUID_DISPLAY_ATTRIBUTE_INPUT,
        attr: DisplayAttribute { line: LineStyle::Dot, bold: false, role: TextRole::Input },
        desc: "yurukan Input",
    }
}

fn converted_info() -> (r: DisplayAttrInfo)
    ensures
        r@ == converted_attr(),
{
    DisplayAttrInfo {
        guid: GUID_DISPLAY_ATTRIBUTE,
        attr: DisplayAttribute {
            line: LineStyle::Solid,
            bold: false,
            role: TextRole::TargetConverted,
        },
        desc: "yurukan Converted",
    }
}

pub open spec fn attr_models(items: Seq<DisplayAttrInfo>) -> Seq<DisplayAttrModel> {
    items.map_values(|i: DisplayAttrInfo| i@)
}

/// All ways of marking text.
pub fn make_all() -> (r: Vec<DisplayAttrInfo>)
    ensures
        attr_models(r@) == seq![input_attr(), converted_attr()],
{
    let r = vec![input_info(), converted_info()];
    assert(attr_models(r@) =~= seq![input_attr(), converted_attr()]);
    r
}

/// The way of marking text with this identifier.
pub fn get_by_guid(guid: u128) -> (r: Option<DisplayAttrInfo>)
    ensures
        guid == GUID_DISPLAY_ATTRIBUTE_INPUT ==> r is Some && r->0@ == input_attr(),
        guid == GUID_DISPLAY_ATTRIBUTE ==> r is Some && r->0@ == converted_attr(),
        guid != GUID_DISPLAY_ATTRIBUTE_INPUT && guid != GUID_DISPLAY_ATTRIBUTE ==> r is None,
{
    if guid == GUID_DISPLAY_ATTRIBUTE_INPUT {
        return Some(input_info());
    }
    if guid == GUID_DISPLAY_ATTRIBUTE {
        return Some(converted_info());
    }
    None
}

/// A walk through the ways of marking text.
pub struct EnumDisplayAttrInfo {
    pub items: Vec<DisplayAttrInfo>,
    pub pos: usize,
}

impl EnumDisplayAttrInfo {
    /// The walk never goes past the end.
    pub open spec fn well_formed(self) -> bool {
        self.pos <= self.items@.len()
    }

    /// How many are left.
    pub open spec fn left(self) -> int {
        self.items@.len() - self.pos
    }

    pub fn new(items: Vec<DisplayAttrInfo>) -> (r: Self)
        ensures
            r.well_formed(),
            r.items == items,
            r.pos == 0,
    {
        EnumDisplayAttrInfo { items, pos: 0 }
    }

    /// The next ones, as many as asked for or as are left; tells whether all that
    /// were asked for are there.
    pub fn next(&mut self, celt: u32) -> (r: (Vec<DisplayAttrInfo>, bool))
        requires
            old(self).well_formed(),
        ensures
            final(self).well_formed(),
            final(self).items == old(self).items,
            r.1 == (celt <= old(self).left()),
            ({
                let n = if celt <= old(self).left() {
                    celt as int
                } else {
                    old(self).left()
                };
                &&& final(self).pos == old(self).pos + n
                &&& r.0@ == old(self).items@.subrange(old(self).pos as int, old(self).pos + n)
            }),
    {
        let total: usize = self.items.len();
        let left: usize = total - self.pos;
        let n: usize = if celt as u64 <= left as u64 {
            celt as usize
        } else {
            left
        };
        let start: usize = self.pos;
        let mut out: Vec<DisplayAttrInfo> = Vec::new();
        let mut i: usize = 0;
        while i < n
            invariant
                i <= n,
                total == self.items@.len(),
                start + n <= total,
                self.items == old(self).items,
                self.pos == start,
                out@ == self.items@.subrange(start as int, start + i),
            decreases n - i,
        {
            out.push(self.items[start + i]);
            assert(out@ =~= self.items@.subrange(start as int, start + i + 1));
            i = i + 1;
        }
        self.pos = start + n;
        let all = celt as u64 <= left as u64;
        (out, all)
    }

    /// Leaves some out, to the end at most.
    pub fn skip(&mut self, celt: u32)
        requires
            old(self).well_formed(),
        ensures
            final(self).well_formed(),
            final(self).items == old(self).items,
            final(self).pos == (if celt <= old(self).left() {
                old(self).pos + celt
            } else {
                old(self).items@.len() as int
            }),
    {
        let left: usize = self.items.len() - self.pos;
        self.pos = if celt as u64 <= left as u64 {
            self.pos + celt as usize
        } else {
            self.items.len()
        };
    }

    /// Starts again.
    pub fn reset(&mut self)
        ensures
            final(self).well_formed(),
            final(self).items == old(self).items,
            final(self).pos == 0,
    {
        self.pos = 0;
    }

    /// A walk of its own that stands at the same place.
    pub fn duplicate(&self) -> (r: Self)
        ensures
            r.items@ == self.items@,
            r.pos == self.pos,
    {
        let n: usize = self.items.len();
        let mut items: Vec<DisplayAttrInfo> = Vec::new();
        let mut i: usize = 0;
        while i < n
            invariant
                i <= n,
                n == self.items@.len(),
                items@ == self.items@.take(i as int),
            decreases n - i,
        {
            items.push(self.items[i]);
            assert(items@ =~= self.items@.take(i + 1));
            i = i + 1;
        }
        assert(self.items@.take(n as int) =~= self.items@);
        EnumDisplayAttrInfo { items, pos: self.pos }
    }
}

/// Taking some and then some more gives what taking all at once gives.
pub proof fn walks_can_be_taken_in_steps(
    items: Seq<DisplayAttrInfo>,
    pos: int,
    first: int,
    second: int,
)
    requires
        0 <= pos,
        0 <= first,
        0 <= second,
        pos + first + second <= items.len(),
    ensures
        items.subrange(pos, pos + first) + items.subrange(pos + first, pos + first + second)
            == items.subrange(pos, pos + first + second),
{
    assert(items.subrange(pos, pos + first) + items.subrange(pos + first, pos + first + second)
        =~= items.subrange(pos, pos + first + second));
}

/// Typed text is dotted and the candidate being chosen is solid, each under an
/// identifier of its own.
pub proof fn typed_and_chosen_text_are_marked_apart()
    ensures
        input_attr().attr.line == LineStyle::Dot,
        input_attr().attr.role == TextRole::Input,
        converted_attr().attr.line == LineStyle::Solid,
        converted_attr().attr.role == TextRole::TargetConverted,
        !input_attr().attr.bold && !converted_attr().attr.bold,
        input_attr().guid == GUID_DISPLAY_ATTRIBUTE_INPUT,
        converted_attr().guid == GUID_DISPLAY_ATTRIBUTE,
        input_attr().guid != converted_attr().guid,
{
}

/// What is left of a walk is what it has not passed.
pub proof fn walks_count_what_is_left(walk: EnumDisplayAttrInfo)
    requires
        walk.well_formed(),
    ensures
        0 <= walk.left() <= walk.items@.len(),
        walk.left() + walk.pos == walk.items@.len(),
{
}

}
