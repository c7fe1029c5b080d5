//! What the comparison with a shared list says, and what it offers.

use vstd::prelude::*;

use crate::message;
use crate::message::{one, Message, MessageModel};
use crate::text;
use crate::text::decimal_text;
use crate::workshop::tasks::{SharedItem, WorkshopTask};
use crate::workshop::view::{ShareComparison, WorkshopViewState};

verus! {

/// The colour of a remark.
#[derive(Debug, Clone, Copy, PartialEq, Eq, Structural)]
pub enum RemarkColor {
    Success,
    Error,
    Normal,
    Dim,
}

/// What remarks say.
pub open spec fn remark_models(v: Seq<(Message, RemarkColor)>) -> Seq<(MessageModel, RemarkColor)> {
    Seq::new(v.len(), |i: int| (v[i].0@, v[i].1))
}

/// A remark on a number of mods, if there are any.
pub open spec fn counted(
    s: Seq<(MessageModel, RemarkColor)>,
    key: Seq<char>,
    n: nat,
    color: RemarkColor,
) -> Seq<(MessageModel, RemarkColor)> {
    if n > 0 {
        s.push((message::with_one(key, "count"@, text::decimal(n)), color))
    } else {
        s
    }
}

/// What a comparison says: that the lists agree, or in what they differ.
pub open spec fn remarks_of(c: ShareComparison) -> Seq<(MessageModel, RemarkColor)> {
    if c.matches {
        seq![
            (
                message::plain("Your enabled mods match the shared list."@),
                RemarkColor::Success,
            ),
        ]
    } else {
        let s = Seq::<(MessageModel, RemarkColor)>::empty();
        let s = counted(s, "{count} missing"@, c.missing@.len(), RemarkColor::Error);
        let s = counted(s, "{count} extra"@, c.extra@.len(), RemarkColor::Normal);
        let s = counted(
            s,
            "{count} not on the Workshop"@,
            c.unresolvable@.len(),
            RemarkColor::Dim,
        );
        if c.order_differs {
            s.push((message::plain("Load order differs"@), RemarkColor::Dim))
        } else {
            s
        }
    }
}

/// Adds a remark.
fn add_remark(remarks: &mut Vec<(Message, RemarkColor)>, text: Message, color: RemarkColor)
    ensures
        remark_models(final(remarks)@) == remark_models(old(remarks)@).push((text@, color)),
{
    let ghost before = remark_models(remarks@);
    let ghost said = text@;
    remarks.push((text, color));
    assert(remark_models(remarks@) =~= before.push((said, color)));
}

/// Adds a remark on a number of mods, if there are any.
fn add_counted(
    remarks: &mut Vec<(Message, RemarkColor)>,
    key: &'static str,
    n: usize,
    color: RemarkColor,
)
    ensures
        remark_models(final(remarks)@) == counted(
            remark_models(old(remarks)@),
            key@,
            n as nat,
            color,
        ),
{
    if n > 0 {
        add_remark(remarks, one(key, "count", decimal_text(n as u128)), color);
    }
}

impl ShareComparison {
    /// What the comparison says.
    pub fn remarks(&self) -> (r: Vec<(Message, RemarkColor)>)
        ensures
            remark_models(r@) == remarks_of(*self),
    {
        let mut out: Vec<(Message, RemarkColor)> = Vec::new();
        assert(remark_models(out@) =~= Seq::empty());
        if self.matches {
            let text: Message = Message::plain("Your enabled mods match the shared list.");
            add_remark(&mut out, text, RemarkColor::Success);
            assert(remark_models(out@) =~= remarks_of(*self));
            return out;
        }
        add_counted(&mut out, "{count} missing", self.missing.len(), RemarkColor::Error);
        add_counted(&mut out, "{count} extra", self.extra.len(), RemarkColor::Normal);
        add_counted(
            &mut out,
            "{count} not on the Workshop",
            self.unresolvable.len(),
            RemarkColor::Dim,
        );
        if self.order_differs {
            add_remark(&mut out, Message::plain("Load order differs"), RemarkColor::Dim);
        }
        out
    }

    /// Whether the missing mods can be imported.
    pub fn can_import(&self) -> (r: bool)
        ensures
            r == (!self.matches && self.missing@.len() > 0),
    {
        !self.matches && self.missing.len() > 0
    }

    /// The task that imports the missing mods, and no others.
    pub fn import_missing(&self) -> (r: WorkshopTask)
        ensures
            r matches WorkshopTask::Import { items, download, freeze } && items@ == self.missing@
                && download && !freeze,
    {
        let mut items: Vec<SharedItem> = Vec::new();
        let mut i: usize = 0;
        while i < self.missing.len()
            invariant
                i <= self.missing@.len(),
                items@ =~= self.missing@.take(i as int),
            decreases self.missing@.len() - i,
        {
            items.push(self.missing[i].clone());
            i = i + 1;
        }
        assert(items@ =~= self.missing@);
        WorkshopTask::Import { items, download: true, freeze: false }
    }
}

impl WorkshopViewState {
    /// Drops the shared list and what came of its comparison.
    pub fn clear_comparison(&mut self)
        ensures
            final(self).compare_code@ == Seq::<char>::empty(),
            *final(self) == (WorkshopViewState {
                compare_code: final(self).compare_code,
                compare_result: None,
                ..*old(self)
            }),
    {
        self.compare_code = String::new();
        self.compare_result = None;
    }
}

} // verus!
