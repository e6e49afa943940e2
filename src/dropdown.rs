use vstd::prelude::*;

use crate::filter::{filter_items, shown, texts};

verus! {

/// A text field paired with a popup that lists the candidates matching its text.
///
/// The value is rebuilt for each frame; what lasts across frames (the text, whether the
/// popup is open) is held by the host and handed in through a [`PopupFrame`].
pub struct DropDownBox {
    /// The candidates, in the order the popup lists them.
    pub items: Vec<String>,
    /// The text shown in the empty field.
    pub hint_text: String,
    /// Whether the host asked for the candidates to be filtered by the field's text.
    /// Filtering is always applied; the flag is kept as the host's configuration.
    pub filter_by_input: bool,
    /// Whether the whole text is selected when the field gains focus.
    pub select_on_focus: bool,
    /// The most rows the popup lists.
    pub max_items: usize,
}

/// The state that one frame reads and changes, as a mathematical value.
pub struct FrameModel {
    pub buf: Seq<char>,
    pub popup_open: bool,
    pub changed: bool,
    pub selection: Option<(usize, usize)>,
}

/// The state that one frame reads and changes.
pub struct PopupFrame {
    /// The text of the field.
    pub buf: String,
    /// Whether the popup is open.
    pub popup_open: bool,
    /// Whether a row was chosen during this frame.
    pub changed: bool,
    /// A character range of the text that the field is to select, if any.
    pub selection: Option<(usize, usize)>,
}

impl View for PopupFrame {
    type V = FrameModel;

    open spec fn view(&self) -> FrameModel {
        FrameModel {
            buf: self.buf@,
            popup_open: self.popup_open,
            changed: self.changed,
            selection: self.selection,
        }
    }
}

/// The state after the field gained focus: the popup opens, and where `select_all`
/// holds the whole text is selected.
pub open spec fn focused(f: FrameModel, select_all: bool) -> FrameModel {
    FrameModel {
        popup_open: true,
        selection: if select_all {
            Some((0usize, f.buf.len() as usize))
        } else {
            f.selection
        },
        ..f
    }
}

/// The state after the row holding `text` was chosen: the text replaces the field's,
/// the frame counts as a change, and the popup closes.
pub open spec fn clicked(f: FrameModel, text: Seq<char>) -> FrameModel {
    FrameModel { buf: text, changed: true, popup_open: false, ..f }
}

/// The state after Enter was pressed while the popup listed `rows`: only a single row
/// is chosen so.
pub open spec fn entered(f: FrameModel, rows: Seq<Seq<char>>) -> FrameModel {
    if rows.len() == 1 {
        clicked(f, rows[0])
    } else {
        f
    }
}

/// The state after the rows flagged in `hits` were clicked, in the order listed.
pub open spec fn clicks_applied(f: FrameModel, rows: Seq<Seq<char>>, hits: Seq<bool>) -> FrameModel
    decreases hits.len(),
{
    if hits.len() == 0 || rows.len() == 0 {
        f
    } else {
        let before = clicks_applied(f, rows.drop_last(), hits.drop_last());
        if hits.last() {
            clicked(before, rows.last())
        } else {
            before
        }
    }
}

/// The state at the end of a frame in which the popup listed `rows`, the rows flagged
/// in `hits` were clicked, and Enter was pressed where `enter_pressed` holds.
pub open spec fn frame_end(
    f: FrameModel,
    rows: Seq<Seq<char>>,
    hits: Seq<bool>,
    enter_pressed: bool,
) -> FrameModel {
    let after_clicks = clicks_applied(f, rows, hits);
    if enter_pressed {
        entered(after_clicks, rows)
    } else {
        after_clicks
    }
}

impl PopupFrame {
    /// The state at the start of a frame: nothing chosen, no selection asked for.
    pub fn new(buf: String, popup_open: bool) -> (r: Self)
        ensures
            r@ == (FrameModel { buf: buf@, popup_open, changed: false, selection: None }),
    {
        PopupFrame { buf, popup_open, changed: false, selection: None }
    }

    /// Chooses the row holding `text`.
    pub fn click_row(&mut self, text: &str)
        ensures
            final(self)@ == clicked(old(self)@, text@),
    {
        self.buf = text.to_owned();
        self.changed = true;
        self.popup_open = false;
    }

    /// Handles Enter while the popup lists `rows`: a single row is chosen, as by a
    /// click; otherwise nothing happens.
    pub fn press_enter(&mut self, rows: &Vec<String>)
        ensures
            final(self)@ == entered(old(self)@, texts(rows@)),
    {
        if rows.len() == 1 {
            let text = rows[0].clone();
            self.click_row(text.as_str());
        }
    }
}


impl DropDownBox {
    /// A box over `items` listing at most `max_items` rows, with no hint text,
    /// filtering on, and no selection on focus.
    pub fn from_iter(items: Vec<String>, max_items: usize) -> (r: Self)
        ensures
            r.items@ == items@,
            r.hint_text@ == Seq::<char>::empty(),
            r.filter_by_input,
            !r.select_on_focus,
            r.max_items == max_items,
    {
        DropDownBox {
            items,
            hint_text: String::new(),
            filter_by_input: true,
            select_on_focus: false,
            max_items,
        }
    }

    /// Sets the hint text of the field.
    pub fn hint_text(self, hint_text: String) -> (r: Self)
        ensures
            r == (DropDownBox { hint_text, ..self }),
    {
        DropDownBox { hint_text, ..self }
    }

    /// Sets whether the candidates are to be filtered by the field's text.
    pub fn filter_by_input(self, filter_by_input: bool) -> (r: Self)
        ensures
            r == (DropDownBox { filter_by_input, ..self }),
    {
        DropDownBox { filter_by_input, ..self }
    }

    /// Sets whether the whole text is selected when the field gains focus.
    pub fn select_on_focus(self, select_on_focus: bool) -> (r: Self)
        ensures
            r == (DropDownBox { select_on_focus, ..self }),
    {
        DropDownBox { select_on_focus, ..self }
    }

    /// The rows that the popup lists for the text `buf`.
    pub fn rows(&self, buf: &str) -> (r: Vec<String>)
        ensures
            texts(r@) == shown(buf@, texts(self.items@), self.max_items as nat),
    {
        filter_items(buf, &self.items, self.max_items)
    }

    /// Handles the field gaining focus: the popup opens, and the whole text is
    /// selected where `select_on_focus` is set.
    pub fn gain_focus(&self, frame: &mut PopupFrame)
        ensures
            final(frame)@ == focused(old(frame)@, self.select_on_focus),
    {
        if self.select_on_focus {
            let len = frame.buf.as_str().unicode_len();
            frame.selection = Some((0, len));
        }
        frame.popup_open = true;
    }

    /// Ends a frame in which the popup listed `rows`: the rows flagged in `hits` are
    /// chosen in turn, then Enter is handled where `enter_pressed` holds.
    pub fn finish_frame(
        &self,
        frame: &mut PopupFrame,
        rows: &Vec<String>,
        hits: &Vec<bool>,
        enter_pressed: bool,
    )
        requires
            hits@.len() == rows@.len(),
        ensures
            final(frame)@ == frame_end(old(frame)@, texts(rows@), hits@, enter_pressed),
    {
        let ghost start = frame@;
        let ghost all = texts(rows@);
        let mut i: usize = 0;
        while i < rows.len()
            invariant
                hits@.len() == rows@.len(),
                all == texts(rows@),
                i <= rows@.len(),
                frame@ == clicks_applied(start, all.take(i as int), hits@.take(i as int)),
            decreases rows@.len() - i,
        {
            proof {
                assert(all.take(i as int + 1).drop_last() =~= all.take(i as int));
                assert(hits@.take(i as int + 1).drop_last() =~= hits@.take(i as int));
            }
            if hits[i] {
                frame.click_row(rows[i].as_str());
            }
            i = i + 1;
        }
        proof {
            assert(all.take(i as int) =~= all);
            assert(hits@.take(i as int) =~= hits@);
        }
        if enter_pressed {
            frame.press_enter(rows);
        }
    }
}

/// Choosing a row puts exactly its text in the field, marks the frame as changed and
/// closes the popup.
pub proof fn lemma_click_sets_text(f: FrameModel, text: Seq<char>)
    ensures
        clicked(f, text).buf == text,
        clicked(f, text).changed,
        !clicked(f, text).popup_open,
{
}

/// Enter chooses nothing unless the popup lists exactly one row.
pub proof fn lemma_enter_needs_single_row(f: FrameModel, rows: Seq<Seq<char>>)
    requires
        rows.len() != 1,
    ensures
        entered(f, rows) == f,
{
}

/// Enter with a single row listed does what a click on that row does.
pub proof fn lemma_enter_is_click_on_sole_row(f: FrameModel, rows: Seq<Seq<char>>)
    requires
        rows.len() == 1,
    ensures
        entered(f, rows) == clicked(f, rows[0]),
{
}

/// Gaining focus with selection on focus selects the whole text.
pub proof fn lemma_focus_selects_all(f: FrameModel)
    ensures
        focused(f, true).selection == Some((0usize, f.buf.len() as usize)),
        focused(f, true).buf == f.buf,
        focused(f, true).popup_open,
{
}

} // verus!
