use vstd::prelude::*;

use crate::uniform::{GroupEntry, LayoutEntry};

verus! {

/// Why a layout and a group could not be paired.
#[derive(Clone, Copy, Debug, PartialEq, Eq, Structural)]
pub enum BindingError {
    /// The two lists differ in length.
    CountMismatch { layout: usize, group: usize },
    /// The group entry at `index` has another slot or kind than the layout entry there.
    EntryMismatch { index: usize },
    /// The layout entry at `index` repeats the slot of an earlier one.
    DuplicateBinding { index: usize },
}

/// The group entry at `i` does not match the layout entry at `i`.
pub open spec fn mismatch_at(l: Seq<LayoutEntry>, g: Seq<GroupEntry>, i: int) -> bool {
    l[i].binding != g[i].binding || l[i].kind != g[i].kind
}

/// The layout entry at `i` uses a slot that an earlier entry already uses.
pub open spec fn duplicate_at(l: Seq<LayoutEntry>, i: int) -> bool {
    exists|j: int| 0 <= j < i && l[j].binding == l[i].binding
}

pub open spec fn bad_at(l: Seq<LayoutEntry>, g: Seq<GroupEntry>, i: int) -> bool {
    mismatch_at(l, g, i) || duplicate_at(l, i)
}

/// The layout and the group describe the same slots, in the same order,
/// each slot once.
pub open spec fn consistent(l: Seq<LayoutEntry>, g: Seq<GroupEntry>) -> bool {
    &&& l.len() == g.len()
    &&& forall|i: int| 0 <= i < l.len() ==> !#[trigger] bad_at(l, g, i)
}

/// A binding layout together with the group built against it.
pub struct BindGroup {
    layout: Vec<LayoutEntry>,
    bind_group: Vec<GroupEntry>,
    name: String,
}

impl BindGroup {
    pub closed spec fn layout_view(&self) -> Seq<LayoutEntry> {
        self.layout@
    }

    pub closed spec fn group_view(&self) -> Seq<GroupEntry> {
        self.bind_group@
    }

    pub closed spec fn name_view(&self) -> Seq<char> {
        self.name@
    }

    /// A layout and a group always agree.
    pub closed spec fn wf(&self) -> bool {
        consistent(self.layout@, self.bind_group@)
    }

    /// Builds the layout from `bindings.0` and the group from `bindings.1`.
    /// Succeeds exactly when the two lists are consistent; otherwise reports
    /// the length mismatch, or the first position that is wrong.
    pub fn new(bindings: (&[LayoutEntry], &[GroupEntry]), name: &str) -> (r: Result<
        BindGroup,
        BindingError,
    >)
        ensures
            r is Ok <==> consistent(bindings.0@, bindings.1@),
            r matches Ok(b) ==> {
                &&& b.wf()
                &&& b.layout_view() == bindings.0@
                &&& b.group_view() == bindings.1@
                &&& b.name_view() == name@
            },
            r matches Err(BindingError::CountMismatch { layout, group }) ==> {
                &&& bindings.0@.len() != bindings.1@.len()
                &&& layout == bindings.0@.len()
                &&& group == bindings.1@.len()
            },
            r matches Err(BindingError::EntryMismatch { index }) ==> {
                &&& bindings.0@.len() == bindings.1@.len()
                &&& index < bindings.0@.len()
                &&& mismatch_at(bindings.0@, bindings.1@, index as int)
                &&& forall|k: int| 0 <= k < index ==> !#[trigger] bad_at(bindings.0@, bindings.1@, k)
            },
            r matches Err(BindingError::DuplicateBinding { index }) ==> {
                &&& bindings.0@.len() == bindings.1@.len()
                &&& index < bindings.0@.len()
                &&& !mismatch_at(bindings.0@, bindings.1@, index as int)
                &&& duplicate_at(bindings.0@, index as int)
                &&& forall|k: int| 0 <= k < index ==> !#[trigger] bad_at(bindings.0@, bindings.1@, k)
            },
    {
        let (layout_entries, group_entries) = bindings;
        if layout_entries.len() != group_entries.len() {
            return Err(
                BindingError::CountMismatch { layout: layout_entries.len(), group: group_entries.len() },
            );
        }
        let ghost l = layout_entries@;
        let ghost g = group_entries@;
        let mut layout: Vec<LayoutEntry> = Vec::new();
        let mut bind_group: Vec<GroupEntry> = Vec::new();
        let mut i: usize = 0;
        while i < layout_entries.len()
            invariant
                l == layout_entries@,
                g == group_entries@,
                l == bindings.0@,
                g == bindings.1@,
                l.len() == g.len(),
                0 <= i <= l.len(),
                layout@ == l.subrange(0, i as int),
                bind_group@ == g.subrange(0, i as int),
                forall|k: int| 0 <= k < i ==> !#[trigger] bad_at(l, g, k),
            decreases l.len() - i,
        {
            let le = layout_entries[i];
            let ge = group_entries[i];
            if !(le.binding == ge.binding && le.kind == ge.kind) {
                assert(bad_at(l, g, i as int));
                return Err(BindingError::EntryMismatch { index: i });
            }
            let mut j: usize = 0;
            while j < i
                invariant
                    l == layout_entries@,
                    l == bindings.0@,
                    g == bindings.1@,
                    l.len() == g.len(),
                    le == l[i as int],
                    ge == g[i as int],
                    le.binding == ge.binding && le.kind == ge.kind,
                    forall|k: int| 0 <= k < i ==> !#[trigger] bad_at(l, g, k),
                    0 <= j <= i < l.len(),
                    le == l[i as int],
                    forall|m: int| 0 <= m < j ==> l[m].binding != le.binding,
                decreases i - j,
            {
                if layout_entries[j].binding == le.binding {
                    assert(duplicate_at(l, i as int));
                    assert(bad_at(l, g, i as int));
                    return Err(BindingError::DuplicateBinding { index: i });
                }
                j = j + 1;
            }
            assert(!duplicate_at(l, i as int));
            layout.push(le);
            bind_group.push(ge);
            i = i + 1;
            assert(layout@ =~= l.subrange(0, i as int));
            assert(bind_group@ =~= g.subrange(0, i as int));
        }
        assert(layout@ =~= l);
        assert(bind_group@ =~= g);
        Ok(BindGroup { layout, bind_group, name: name.to_owned() })
    }

    pub fn layout(&self) -> (r: &Vec<LayoutEntry>)
        ensures
            r@ == self.layout_view(),
    {
        &self.layout
    }

    pub fn bind_group(&self) -> (r: &Vec<GroupEntry>)
        ensures
            r@ == self.group_view(),
    {
        &self.bind_group
    }

    pub fn name(&self) -> (r: &String)
        ensures
            r@ == self.name_view(),
    {
        &self.name
    }
}

} // verus!
